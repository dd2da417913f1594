use vstd::prelude::*;
use vstd::string::*;
use crate::celery_app::{queue_names, register_step, CelerApp};
use crate::queue::task_names;
use crate::decode::JsonDecode;
use crate::error::CeleryError;
use crate::json::{member, Json};
use crate::types::FromJson;

verus! {

/// The task context that a handler may take beside its arguments.
#[derive(Debug, Clone)]
pub struct Task {
    pub name: Option<String>,
}

/// Whether `v` is a well-formed task context: an object whose `name`
/// member, if any, is null or a string.
pub open spec fn task_accepts(v: Json) -> bool {
    &&& v is Object
    &&& match member(v, "name"@) {
        None => true,
        Some(Json::Null) => true,
        Some(Json::Str(_)) => true,
        _ => false,
    }
}

/// Whether `out` is the task context that `v` describes.
pub open spec fn task_decodes_to(v: Json, out: Task) -> bool {
    &&& task_accepts(v)
    &&& match member(v, "name"@) {
        Some(Json::Str(s)) => out.name is Some && out.name->Some_0@ == s@,
        _ => out.name is None,
    }
}

/// Whether `e` is an error of reading a task context.
pub open spec fn task_error(e: CeleryError) -> bool {
    e is InvalidParam && (e->InvalidParam_0@ == "task name must be a string"@ || e->InvalidParam_0@
        == "task context must be an object"@)
}

fn decode_task(val: &Json) -> (r: Result<Task, CeleryError>)
    ensures
        r is Ok <==> task_accepts(*val),
        r is Ok ==> task_decodes_to(*val, r->Ok_0),
        r is Err ==> task_error(r->Err_0),
{
    if let Json::Object(_) = val {
        match val.get("name") {
            None => Ok(Task { name: None }),
            Some(Json::Null) => Ok(Task { name: None }),
            Some(Json::Str(s)) => Ok(Task { name: Some(s.clone()) }),
            Some(_) => Err(CeleryError::InvalidParam(String::from_str("task name must be a string"))),
        }
    } else {
        Err(CeleryError::InvalidParam(String::from_str("task context must be an object")))
    }
}

impl JsonDecode for Task {
    open spec fn accepts(v: Json) -> bool {
        task_accepts(v)
    }

    open spec fn error_for(v: Json, e: CeleryError) -> bool {
        task_error(e)
    }

    open spec fn decoded_type_view() -> Seq<char> {
        "Task"@
    }

    fn decoded_type() -> (r: String) {
        String::from_str("Task")
    }

    open spec fn rejects(v: Json) -> bool {
        !task_accepts(v)
    }

    open spec fn decodes_to(v: Json, out: Task) -> bool {
        task_decodes_to(v, out)
    }

    fn decode(val: &Json) -> (r: Result<Task, CeleryError>) {
        decode_task(val)
    }
}

impl FromJson for Task {
    open spec fn accepts(v: Json) -> bool {
        task_accepts(v)
    }

    open spec fn error_for(v: Json, e: CeleryError) -> bool {
        task_error(e)
    }

    open spec fn decoded_type_view() -> Seq<char> {
        "Task"@
    }

    fn decoded_type() -> (r: String) {
        String::from_str("Task")
    }

    open spec fn rejects(v: Json) -> bool {
        !task_accepts(v)
    }

    open spec fn decodes_to(v: Json, out: Task) -> bool {
        task_decodes_to(v, out)
    }

    fn from_json_value(val: &Json) -> (r: Result<Task, CeleryError>) {
        decode_task(val)
    }
}

/// Static metadata of one task: where it is queued, its name, its retry
/// budget, and the names of its input and output types.
#[derive(Debug, Clone)]
pub struct TaskDescriptor {
    pub queue_name: String,
    pub task_name: String,
    pub max_retries: u32,
    pub input_type: String,
    pub output_type: String,
}

impl TaskDescriptor {
    pub fn new(
        queue_name: String,
        task_name: String,
        max_retries: u32,
        input_type: String,
        output_type: String,
    ) -> (r: TaskDescriptor)
        ensures
            r.queue_name == queue_name,
            r.task_name == task_name,
            r.max_retries == max_retries,
            r.input_type == input_type,
            r.output_type == output_type,
    {
        TaskDescriptor { queue_name, task_name, max_retries, input_type, output_type }
    }

    /// A descriptor from registration settings in which the retry budget
    /// may be left out; it is 0 then.
    pub fn from_config(
        queue_name: String,
        task_name: String,
        max_retries: Option<u32>,
        input_type: String,
        output_type: String,
    ) -> (r: TaskDescriptor)
        ensures
            r.queue_name == queue_name,
            r.task_name == task_name,
            r.max_retries == (match max_retries {
                Some(n) => n,
                None => 0,
            }),
            r.input_type == input_type,
            r.output_type == output_type,
    {
        let retries: u32 = match max_retries {
            Some(n) => n,
            None => 0,
        };
        TaskDescriptor::new(queue_name, task_name, retries, input_type, output_type)
    }
}

/// A task function together with its registration configuration.
///
/// `handler` takes the single input and returns an optional output. The
/// spec functions name what the settings return; their defaults stand for
/// impls that are not verified.
pub trait TaskMeta {
    type Input;
    type Output;

    open spec fn queue_name_spec() -> Seq<char> {
        Seq::empty()
    }

    open spec fn task_name_spec() -> Seq<char> {
        Seq::empty()
    }

    open spec fn max_retries_spec() -> u32 {
        0
    }

    open spec fn input_type_spec() -> Seq<char> {
        Seq::empty()
    }

    open spec fn output_type_spec() -> Seq<char> {
        Seq::empty()
    }

    fn queue_name() -> (r: &'static str)
        ensures
            r@ == Self::queue_name_spec(),
    ;

    fn task_name() -> (r: &'static str)
        ensures
            r@ == Self::task_name_spec(),
    ;

    fn max_retries() -> (r: u32)
        ensures
            r == Self::max_retries_spec(),
    ;

    fn input_type() -> (r: &'static str)
        ensures
            r@ == Self::input_type_spec(),
    ;

    fn output_type() -> (r: &'static str)
        ensures
            r@ == Self::output_type_spec(),
    ;

    fn handler(input: Self::Input) -> Result<Option<Self::Output>, CeleryError>;
}

/// The descriptor of the task that `M` describes.
pub fn describe<M: TaskMeta>() -> (r: TaskDescriptor)
    ensures
        r.queue_name@ == M::queue_name_spec(),
        r.task_name@ == M::task_name_spec(),
        r.max_retries == M::max_retries_spec(),
        r.input_type@ == M::input_type_spec(),
        r.output_type@ == M::output_type_spec(),
{
    TaskDescriptor::new(
        String::from_str(M::queue_name()),
        String::from_str(M::task_name()),
        M::max_retries(),
        String::from_str(M::input_type()),
        String::from_str(M::output_type()),
    )
}

/// Something that registers tasks into an application.
///
/// `registers` relates the queues before and after a registration and its
/// outcome; its default, for impls that are not verified, claims nothing.
pub trait TaskFactory: Sized {
    open spec fn registers(
        self,
        before: Seq<(Seq<char>, Seq<TaskDescriptor>)>,
        after: Seq<(Seq<char>, Seq<TaskDescriptor>)>,
        r: Result<(), CeleryError>,
    ) -> bool {
        true
    }

    fn register(self, app: &mut CelerApp) -> (r: Result<(), CeleryError>)
        ensures
            self.registers(old(app)@, final(app)@, r),
    ;
}

impl TaskFactory for TaskDescriptor {
    /// Files the descriptor under its queue, as `CelerApp::register_task`.
    open spec fn registers(
        self,
        before: Seq<(Seq<char>, Seq<TaskDescriptor>)>,
        after: Seq<(Seq<char>, Seq<TaskDescriptor>)>,
        r: Result<(), CeleryError>,
    ) -> bool {
        register_step(before, self, after, r)
    }

    fn register(self, app: &mut CelerApp) -> (r: Result<(), CeleryError>) {
        app.register_task(self)
    }
}

/// The factories `items`, in order, take the queues from `before` to `after`
/// with outcome `r`: none leaves them as they are; otherwise the first one
/// registers, and the rest follow only if it succeeded.
pub open spec fn registers_in_order<T: TaskFactory>(
    items: Seq<T>,
    before: Seq<(Seq<char>, Seq<TaskDescriptor>)>,
    after: Seq<(Seq<char>, Seq<TaskDescriptor>)>,
    r: Result<(), CeleryError>,
) -> bool
    decreases items.len(),
{
    if items.len() == 0 {
        after == before && r is Ok
    } else {
        exists|mid: Seq<(Seq<char>, Seq<TaskDescriptor>)>, first: Result<(), CeleryError>|
            #[trigger] items[0].registers(before, mid, first) && if first is Err {
                after == mid && r == first
            } else {
                registers_in_order(items.drop_first(), mid, after, r)
            }
    }
}

impl<T: TaskFactory> TaskFactory for Vec<T> {
    open spec fn registers(
        self,
        before: Seq<(Seq<char>, Seq<TaskDescriptor>)>,
        after: Seq<(Seq<char>, Seq<TaskDescriptor>)>,
        r: Result<(), CeleryError>,
    ) -> bool {
        registers_in_order(self@, before, after, r)
    }

    /// Registers each factory once, in order, and stops at the first failure.
    fn register(self, app: &mut CelerApp) -> (r: Result<(), CeleryError>) {
        let ghost before = app@;
        let ghost all = self@;
        let mut rest = self;
        let mut result: Result<(), CeleryError> = Ok(());
        while rest.len() > 0 && result.is_ok()
            invariant
                before == old(app)@,
                all == self@,
                result is Ok ==> forall|after: Seq<(Seq<char>, Seq<TaskDescriptor>)>, r: Result<(), CeleryError>|
                    #[trigger] registers_in_order(rest@, app@, after, r) ==> registers_in_order(
                        all,
                        before,
                        after,
                        r,
                    ),
                result is Err ==> registers_in_order(all, before, app@, result),
            decreases rest.len(),
        {
            let ghost current = app@;
            let ghost rest_before = rest@;
            let factory = rest.remove(0);
            let outcome = factory.register(app);
            proof {
                assert(rest_before[0] == factory);
                assert(rest_before.drop_first() =~= rest@);
                if outcome is Err {
                    assert(registers_in_order(rest_before, current, app@, outcome));
                } else {
                    assert forall|after: Seq<(Seq<char>, Seq<TaskDescriptor>)>, r: Result<(), CeleryError>|
                        #[trigger] registers_in_order(rest@, app@, after, r) implies registers_in_order(
                            all,
                            before,
                            after,
                            r,
                        ) by {
                        assert(registers_in_order(rest_before, current, after, r));
                    }
                }
            }
            result = outcome;
        }
        proof {
            if result is Ok {
                assert(registers_in_order(rest@, app@, app@, result));
            }
        }
        result
    }
}

/// Queues before a registration step stay, in place, with their tasks as a
/// prefix of what they hold after it.
proof fn lemma_step_keeps_queues(
    before: Seq<(Seq<char>, Seq<TaskDescriptor>)>,
    d: TaskDescriptor,
    after: Seq<(Seq<char>, Seq<TaskDescriptor>)>,
    r: Result<(), CeleryError>,
)
    requires
        register_step(before, d, after, r),
    ensures
        after.len() >= before.len(),
        forall|i: int| 0 <= i < before.len() ==> (#[trigger] after[i]).0 == before[i].0,
        forall|i: int| 0 <= i < before.len() ==> #[trigger] before[i].1.is_prefix_of(after[i].1),
        r is Ok ==> exists|i: int| 0 <= i < after.len() && after[i].0 == d.queue_name@ && #[trigger] after[i].1.contains(d),
{
    if queue_names(before).contains(d.queue_name@) {
        let k = choose|k: int| 0 <= k < queue_names(before).len() && queue_names(before)[k] == d.queue_name@;
        assert(before[k].0 == d.queue_name@);
        if r is Ok {
            assert(after == before.update(k, (before[k].0, before[k].1.push(d))));
            assert forall|i: int| 0 <= i < before.len() implies (#[trigger] after[i]).0 == before[i].0 && before[i].1.is_prefix_of(after[i].1) by {
                if i == k {
                    assert(before[k].1 =~= before[k].1.push(d).subrange(0, before[k].1.len() as int));
                } else {
                    assert(before[i].1 =~= after[i].1.subrange(0, before[i].1.len() as int));
                }
            }
            assert(after[k].1[before[k].1.len() as int] == d);
            assert(after[k].1.contains(d));
        } else {
            assert forall|i: int| 0 <= i < before.len() implies (#[trigger] after[i]).0 == before[i].0 && before[i].1.is_prefix_of(after[i].1) by {
                assert(before[i].1 =~= after[i].1.subrange(0, before[i].1.len() as int));
            }
        }
    } else {
        assert(after == before.push((d.queue_name@, seq![d])));
        assert forall|i: int| 0 <= i < before.len() implies (#[trigger] after[i]).0 == before[i].0 && before[i].1.is_prefix_of(after[i].1) by {
            assert(before[i].1 =~= after[i].1.subrange(0, before[i].1.len() as int));
        }
        assert(after[before.len() as int].1[0] == d);
        assert(after[before.len() as int].1.contains(d));
    }
}

/// Registering descriptors in order keeps every queue there was, in place,
/// with its tasks as a prefix of what it holds afterwards.
pub proof fn lemma_descriptors_keep_queues(
    items: Seq<TaskDescriptor>,
    before: Seq<(Seq<char>, Seq<TaskDescriptor>)>,
    after: Seq<(Seq<char>, Seq<TaskDescriptor>)>,
    r: Result<(), CeleryError>,
)
    requires
        registers_in_order(items, before, after, r),
    ensures
        after.len() >= before.len(),
        forall|i: int| 0 <= i < before.len() ==> (#[trigger] after[i]).0 == before[i].0,
        forall|i: int| 0 <= i < before.len() ==> #[trigger] before[i].1.is_prefix_of(after[i].1),
    decreases items.len(),
{
    if items.len() > 0 {
        let (mid, first) = choose|mid: Seq<(Seq<char>, Seq<TaskDescriptor>)>, first: Result<(), CeleryError>|
            #[trigger] items[0].registers(before, mid, first) && if first is Err {
                after == mid && r == first
            } else {
                registers_in_order(items.drop_first(), mid, after, r)
            };
        lemma_step_keeps_queues(before, items[0], mid, first);
        if first is Ok {
            lemma_descriptors_keep_queues(items.drop_first(), mid, after, r);
            assert forall|i: int| 0 <= i < before.len() implies (#[trigger] after[i]).0 == before[i].0 && before[i].1.is_prefix_of(after[i].1) by {
                assert(before[i].1.is_prefix_of(mid[i].1));
                assert(mid[i].1.is_prefix_of(after[i].1));
                assert(mid[i].0 == before[i].0);
                assert(after[i].0 == mid[i].0);
                assert(before[i].1 =~= mid[i].1.subrange(0, before[i].1.len() as int));
                assert(before[i].1 =~= after[i].1.subrange(0, before[i].1.len() as int));
            }
        } else {
            assert(after == mid);
            assert forall|i: int| 0 <= i < before.len() implies (#[trigger] after[i]).0 == before[i].0 && before[i].1.is_prefix_of(after[i].1) by {
                assert(before[i].1.is_prefix_of(mid[i].1));
            }
        }
    } else {
        assert(after == before);
        assert forall|i: int| 0 <= i < before.len() implies (#[trigger] after[i]).0 == before[i].0 && before[i].1.is_prefix_of(after[i].1) by {
            assert(before[i].1 =~= after[i].1.subrange(0, before[i].1.len() as int));
        }
    }
}

/// When registering descriptors in order succeeds, each of them is in the
/// queue that its `queue_name` names.
pub proof fn lemma_descriptors_all_filed(
    items: Seq<TaskDescriptor>,
    before: Seq<(Seq<char>, Seq<TaskDescriptor>)>,
    after: Seq<(Seq<char>, Seq<TaskDescriptor>)>,
    r: Result<(), CeleryError>,
)
    requires
        registers_in_order(items, before, after, r),
        r is Ok,
    ensures
        forall|k: int| 0 <= k < items.len() ==> exists|i: int| 0 <= i < after.len() && after[i].0 == (#[trigger] items[k]).queue_name@ && after[i].1.contains(items[k]),
    decreases items.len(),
{
    if items.len() > 0 {
        let (mid, first) = choose|mid: Seq<(Seq<char>, Seq<TaskDescriptor>)>, first: Result<(), CeleryError>|
            #[trigger] items[0].registers(before, mid, first) && if first is Err {
                after == mid && r == first
            } else {
                registers_in_order(items.drop_first(), mid, after, r)
            };
        lemma_step_keeps_queues(before, items[0], mid, first);
        lemma_descriptors_keep_queues(items.drop_first(), mid, after, r);
        lemma_descriptors_all_filed(items.drop_first(), mid, after, r);
        let i = choose|i: int| 0 <= i < mid.len() && mid[i].0 == items[0].queue_name@ && #[trigger] mid[i].1.contains(items[0]);
        assert(mid[i].1.is_prefix_of(after[i].1));
        let j = choose|j: int| 0 <= j < mid[i].1.len() && mid[i].1[j] == items[0];
        assert(after[i].1[j] == items[0]);
        assert forall|k: int| 0 <= k < items.len() implies exists|i: int| 0 <= i < after.len() && after[i].0 == (#[trigger] items[k]).queue_name@ && after[i].1.contains(items[k]) by {
            if k > 0 {
                assert(items[k] == items.drop_first()[k - 1]);
            }
        }
    }
}

/// Once a queue holds a task name, registering a descriptor with that
/// queue and task name, at any place in the list, makes the list fail.
proof fn lemma_taken_name_refused(
    items: Seq<TaskDescriptor>,
    before: Seq<(Seq<char>, Seq<TaskDescriptor>)>,
    after: Seq<(Seq<char>, Seq<TaskDescriptor>)>,
    r: Result<(), CeleryError>,
    i: int,
    k: int,
)
    requires
        registers_in_order(items, before, after, r),
        0 <= i < before.len(),
        0 <= k < items.len(),
        before[i].0 == items[k].queue_name@,
        task_names(before[i].1).contains(items[k].task_name@),
    ensures
        r is Err,
    decreases items.len(),
{
    let (mid, first) = choose|mid: Seq<(Seq<char>, Seq<TaskDescriptor>)>, first: Result<(), CeleryError>|
        #[trigger] items[0].registers(before, mid, first) && if first is Err {
            after == mid && r == first
        } else {
            registers_in_order(items.drop_first(), mid, after, r)
        };
    if k == 0 {
        assert(first is Err);
    } else if first is Ok {
        lemma_step_keeps_queues(before, items[0], mid, first);
        assert(before[i].1.is_prefix_of(mid[i].1));
        let t = choose|t: int| 0 <= t < task_names(before[i].1).len() && task_names(before[i].1)[t] == items[k].task_name@;
        assert(task_names(mid[i].1)[t] == items[k].task_name@);
        assert(items.drop_first()[k - 1] == items[k]);
        lemma_taken_name_refused(items.drop_first(), mid, after, r, i, k - 1);
    }
}

/// A list of descriptors in which two share both queue and task name is
/// refused: the queue never keeps both.
pub proof fn lemma_repeated_name_refused(
    items: Seq<TaskDescriptor>,
    before: Seq<(Seq<char>, Seq<TaskDescriptor>)>,
    after: Seq<(Seq<char>, Seq<TaskDescriptor>)>,
    r: Result<(), CeleryError>,
    j: int,
    k: int,
)
    requires
        registers_in_order(items, before, after, r),
        0 <= j < k < items.len(),
        items[j].queue_name@ == items[k].queue_name@,
        items[j].task_name@ == items[k].task_name@,
    ensures
        r is Err,
    decreases items.len(),
{
    let (mid, first) = choose|mid: Seq<(Seq<char>, Seq<TaskDescriptor>)>, first: Result<(), CeleryError>|
        #[trigger] items[0].registers(before, mid, first) && if first is Err {
            after == mid && r == first
        } else {
            registers_in_order(items.drop_first(), mid, after, r)
        };
    if first is Ok {
        assert(items.drop_first()[k - 1] == items[k]);
        if j == 0 {
            lemma_step_keeps_queues(before, items[0], mid, first);
            let i = choose|i: int| 0 <= i < mid.len() && mid[i].0 == items[0].queue_name@ && #[trigger] mid[i].1.contains(items[0]);
            let t = choose|t: int| 0 <= t < mid[i].1.len() && mid[i].1[t] == items[0];
            assert(task_names(mid[i].1)[t] == items[k].task_name@);
            lemma_taken_name_refused(items.drop_first(), mid, after, r, i, k - 1);
        } else {
            assert(items.drop_first()[j - 1] == items[j]);
            lemma_repeated_name_refused(items.drop_first(), mid, after, r, j - 1, k - 1);
        }
    }
}

} // verus!
