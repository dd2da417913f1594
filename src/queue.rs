use vstd::prelude::*;
use vstd::string::*;
use crate::error::CeleryError;
use crate::task::TaskDescriptor;

verus! {

/// The task names of a list of descriptors, in order.
pub open spec fn task_names(ts: Seq<TaskDescriptor>) -> Seq<Seq<char>> {
    ts.map_values(|d: TaskDescriptor| d.task_name@)
}

/// After a descriptor has been added, its task name is taken: with the
/// contract of `Queue::add_task`, a second descriptor of the same task name
/// is refused and the queue keeps only the first.
pub proof fn lemma_second_registration_refused(
    before: Seq<TaskDescriptor>,
    first: TaskDescriptor,
    second: TaskDescriptor,
)
    requires
        first.task_name@ == second.task_name@,
    ensures
        task_names(before.push(first)).contains(second.task_name@),
{
    assert(task_names(before.push(first))[before.len() as int] == second.task_name@);
}

/// A named group of task descriptors, at most one per task name.
pub struct Queue {
    queue_name: String,
    tasks: Vec<TaskDescriptor>,
}

impl View for Queue {
    /// The queue's name and its descriptors in order of registration.
    type V = (Seq<char>, Seq<TaskDescriptor>);

    closed spec fn view(&self) -> (Seq<char>, Seq<TaskDescriptor>) {
        (self.queue_name@, self.tasks@)
    }
}

/// The position of the descriptor named `name`, if there is one.
fn position_of(tasks: &Vec<TaskDescriptor>, name: &String) -> (r: Option<usize>)
    ensures
        r is None <==> !task_names(tasks@).contains(name@),
        r is Some ==> r->Some_0 < tasks@.len() && tasks@[r->Some_0 as int].task_name@ == name@,
{
    let mut i: usize = 0;
    while i < tasks.len()
        invariant
            i <= tasks@.len(),
            forall|j: int| 0 <= j < i ==> tasks@[j].task_name@ != name@,
        decreases tasks.len() - i,
    {
        if tasks[i].task_name == *name {
            assert(task_names(tasks@)[i as int] == name@);
            return Some(i);
        }
        i = i + 1;
    }
    assert(!task_names(tasks@).contains(name@)) by {
        if task_names(tasks@).contains(name@) {
            let k = choose|k: int| 0 <= k < task_names(tasks@).len() && task_names(tasks@)[k] == name@;
            assert(tasks@[k].task_name@ == name@);
        }
    }
    None
}

impl Queue {
    #[verifier::type_invariant]
    spec fn inv(&self) -> bool {
        task_names(self.tasks@).no_duplicates()
    }

    /// An empty queue named `queue_name`.
    pub fn new(queue_name: String) -> (q: Queue)
        ensures
            q@.0 == queue_name@,
            q@.1 == Seq::<TaskDescriptor>::empty(),
    {
        let q = Queue { queue_name, tasks: Vec::new() };
        assert(task_names(q.tasks@) =~= Seq::<Seq<char>>::empty());
        q
    }

    pub fn queue_name(&self) -> (r: &String)
        ensures
            r@ == self@.0,
    {
        &self.queue_name
    }

    /// The number of tasks in the queue.
    pub fn len(&self) -> (r: usize)
        ensures
            r == self@.1.len(),
    {
        self.tasks.len()
    }

    /// Adds `desc` to the queue; a descriptor with the same task name already
    /// there is kept and the new one is refused.
    pub fn add_task(&mut self, desc: TaskDescriptor) -> (r: Result<(), CeleryError>)
        ensures
            r is Err <==> task_names(old(self)@.1).contains(desc.task_name@),
            r is Ok ==> final(self)@ == (old(self)@.0, old(self)@.1.push(desc)),
            r is Err ==> final(self)@ == old(self)@ && r->Err_0 is InvalidParam,
            task_names(final(self)@.1).no_duplicates(),
    {
        proof {
            use_type_invariant(&*self);
        }
        match position_of(&self.tasks, &desc.task_name) {
            Some(_) => Err(CeleryError::InvalidParam(String::from_str("duplicate task name: ").concat(desc.task_name.as_str()))),
            None => {
                let ghost old_tasks = self.tasks@;
                assert(task_names(old_tasks.push(desc)) =~= task_names(old_tasks).push(desc.task_name@));
                let mut tasks: Vec<TaskDescriptor> = Vec::new();
                assert(task_names(tasks@) =~= Seq::<Seq<char>>::empty());
                std::mem::swap(&mut self.tasks, &mut tasks);
                tasks.push(desc);
                std::mem::swap(&mut self.tasks, &mut tasks);
                proof {
                    use_type_invariant(&*self);
                }
                Ok(())
            },
        }
    }

    /// The descriptor registered under `name`, if any.
    pub fn get_task(&self, name: &str) -> (r: Option<&TaskDescriptor>)
        ensures
            r is None <==> !task_names(self@.1).contains(name@),
            r is Some ==> self@.1.contains(*r->Some_0) && r->Some_0.task_name@ == name@,
    {
        let key = String::from_str(name);
        match position_of(&self.tasks, &key) {
            Some(i) => Some(&self.tasks[i]),
            None => None,
        }
    }
}

} // verus!
