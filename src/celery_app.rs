use vstd::prelude::*;
use vstd::string::*;
use crate::error::CeleryError;
use crate::queue::{task_names, Queue};
use crate::task::TaskDescriptor;

verus! {

/// Startup configuration of an application.
#[derive(Debug, Clone)]
pub struct CeleryConfig {
    pub broker_url: String,
    pub result_backend: Option<String>,
    pub worker_threads: usize,
    pub connection_max_retries: usize,
    /// Seconds between two connection attempts.
    pub connection_retry_delay: u64,
}

impl CeleryConfig {
    /// The defaults: one worker thread, no result backend, five connection
    /// attempts five seconds apart.
    pub fn new(broker_url: String) -> (r: CeleryConfig)
        ensures
            r.broker_url == broker_url,
            r.result_backend is None,
            r.worker_threads == 1,
            r.connection_max_retries == 5,
            r.connection_retry_delay == 5,
    {
        CeleryConfig {
            broker_url,
            result_backend: None,
            worker_threads: 1,
            connection_max_retries: 5,
            connection_retry_delay: 5,
        }
    }

    pub fn with_result_backend(self, backend: String) -> (r: CeleryConfig)
        ensures
            r == (CeleryConfig { result_backend: Some(backend), ..self }),
    {
        let mut c = self;
        c.result_backend = Some(backend);
        c
    }

    pub fn with_worker_threads(self, threads: usize) -> (r: CeleryConfig)
        ensures
            r == (CeleryConfig { worker_threads: threads, ..self }),
    {
        let mut c = self;
        c.worker_threads = threads;
        c
    }
}

/// The names of a list of queues, in order.
pub open spec fn queue_names(qs: Seq<(Seq<char>, Seq<TaskDescriptor>)>) -> Seq<Seq<char>> {
    qs.map_values(|q: (Seq<char>, Seq<TaskDescriptor>)| q.0)
}

/// One registration of `d` into the queues `before`, giving `after` and `r`:
/// into the queue that `d` names, refused when that queue has the task name
/// already, and into a new queue at the end when no queue has that name.
pub open spec fn register_step(
    before: Seq<(Seq<char>, Seq<TaskDescriptor>)>,
    d: TaskDescriptor,
    after: Seq<(Seq<char>, Seq<TaskDescriptor>)>,
    r: Result<(), CeleryError>,
) -> bool {
    &&& forall|i: int|
        0 <= i < before.len() && before[i].0 == d.queue_name@ ==> {
            &&& (r is Err <==> task_names(before[i].1).contains(d.task_name@))
            &&& (r is Ok ==> after == before.update(i, (before[i].0, before[i].1.push(d))))
            &&& (r is Err ==> after == before && r->Err_0 is InvalidParam)
        }
    &&& !queue_names(before).contains(d.queue_name@) ==> r is Ok && after == before.push(
        (d.queue_name@, seq![d]),
    )
}

/// The application registry: its queues, at most one per name, and its
/// configuration.
pub struct CelerApp {
    queue_map: Vec<Queue>,
    celery_config: CeleryConfig,
}

impl View for CelerApp {
    /// Each queue as its name and descriptors, in order of creation.
    type V = Seq<(Seq<char>, Seq<TaskDescriptor>)>;

    closed spec fn view(&self) -> Seq<(Seq<char>, Seq<TaskDescriptor>)> {
        self.queue_map@.map_values(|q: Queue| q@)
    }
}

impl CelerApp {
    #[verifier::type_invariant]
    spec fn inv(&self) -> bool {
        queue_names(self@).no_duplicates()
    }

    /// The configuration the application runs with.
    pub closed spec fn config(&self) -> CeleryConfig {
        self.celery_config
    }

    pub fn new(broker_url: String) -> (r: CelerApp)
        ensures
            r@ == Seq::<(Seq<char>, Seq<TaskDescriptor>)>::empty(),
            r.config().broker_url == broker_url,
            r.config().result_backend is None,
            r.config().worker_threads == 1,
            r.config().connection_max_retries == 5,
            r.config().connection_retry_delay == 5,
    {
        let app = CelerApp { queue_map: Vec::new(), celery_config: CeleryConfig::new(broker_url) };
        assert(app@ =~= Seq::<(Seq<char>, Seq<TaskDescriptor>)>::empty());
        assert(queue_names(app@) =~= Seq::<Seq<char>>::empty());
        app
    }

    pub fn with_config(config: CeleryConfig) -> (r: CelerApp)
        ensures
            r@ == Seq::<(Seq<char>, Seq<TaskDescriptor>)>::empty(),
            r.config() == config,
    {
        let app = CelerApp { queue_map: Vec::new(), celery_config: config };
        assert(app@ =~= Seq::<(Seq<char>, Seq<TaskDescriptor>)>::empty());
        assert(queue_names(app@) =~= Seq::<Seq<char>>::empty());
        app
    }

    /// Sets the number of worker threads.
    pub fn works(&mut self, threads: usize)
        ensures
            final(self)@ == old(self)@,
            final(self).config() == (CeleryConfig { worker_threads: threads, ..old(self).config() }),
    {
        proof {
            use_type_invariant(&*self);
        }
        self.celery_config.worker_threads = threads;
    }

    pub fn celery_config(&self) -> (r: &CeleryConfig)
        ensures
            *r == self.config(),
    {
        &self.celery_config
    }

    /// The position of the queue named `name`, if there is one.
    fn position_of(&self, name: &String) -> (r: Option<usize>)
        ensures
            r is None <==> !queue_names(self@).contains(name@),
            r is Some ==> r->Some_0 < self@.len() && self@[r->Some_0 as int].0 == name@,
    {
        let mut i: usize = 0;
        while i < self.queue_map.len()
            invariant
                i <= self@.len(),
                self@.len() == self.queue_map@.len(),
                forall|j: int| 0 <= j < i ==> self@[j].0 != name@,
            decreases self.queue_map.len() - i,
        {
            assert(self@[i as int] == self.queue_map@[i as int]@);
            let qn: &String = self.queue_map[i].queue_name();
            if *qn == *name {
                assert(queue_names(self@)[i as int] == name@);
                return Some(i);
            }
            i = i + 1;
        }
        assert(!queue_names(self@).contains(name@)) by {
            if queue_names(self@).contains(name@) {
                let k = choose|k: int| 0 <= k < queue_names(self@).len() && queue_names(self@)[k] == name@;
                assert(self@[k].0 == name@);
            }
        }
        None
    }

    /// Appends `queue`, whose name is not taken yet.
    fn push_queue(&mut self, queue: Queue)
        requires
            !queue_names(old(self)@).contains(queue@.0),
        ensures
            final(self)@ == old(self)@.push(queue@),
            final(self).config() == old(self).config(),
    {
        proof {
            use_type_invariant(&*self);
        }
        let ghost old_view = self@;
        let mut queues: Vec<Queue> = Vec::new();
        assert(queue_names(queues@.map_values(|q: Queue| q@)) =~= Seq::<Seq<char>>::empty());
        std::mem::swap(&mut self.queue_map, &mut queues);
        queues.push(queue);
        assert(queues@.map_values(|q: Queue| q@) =~= old_view.push(queue@));
        assert(queue_names(old_view.push(queue@)) =~= queue_names(old_view).push(queue@.0));
        std::mem::swap(&mut self.queue_map, &mut queues);
    }

    /// Adds an empty or filled queue; a queue of the same name already there
    /// is kept and the new one is refused.
    pub fn add_queue(&mut self, queue: Queue) -> (r: Result<(), CeleryError>)
        ensures
            r is Err <==> queue_names(old(self)@).contains(queue@.0),
            r is Ok ==> final(self)@ == old(self)@.push(queue@),
            r is Err ==> final(self)@ == old(self)@ && r->Err_0 is InvalidParam,
            final(self).config() == old(self).config(),
            queue_names(final(self)@).no_duplicates(),
    {
        proof {
            use_type_invariant(&*self);
        }
        let name = queue.queue_name().clone();
        match self.position_of(&name) {
            Some(_) => Err(CeleryError::InvalidParam(String::from_str("duplicate queue name: ").concat(name.as_str()))),
            None => {
                let ghost old_view = self@;
                self.push_queue(queue);
                assert(self@ =~= old_view.push(queue@));
                assert(queue_names(self@) =~= queue_names(old_view).push(queue@.0));
                proof {
                    use_type_invariant(&*self);
                }
                Ok(())
            },
        }
    }

    /// The queue named `name`, if any.
    pub fn queue(&self, name: &str) -> (r: Option<&Queue>)
        ensures
            r is None <==> !queue_names(self@).contains(name@),
            r is Some ==> self@.contains(r->Some_0@) && r->Some_0@.0 == name@,
    {
        let key = String::from_str(name);
        match self.position_of(&key) {
            Some(i) => {
                assert(self@[i as int] == self.queue_map@[i as int]@);
                Some(&self.queue_map[i])
            },
            None => None,
        }
    }

    /// Files `desc` under the queue named by its `queue_name`, creating that
    /// queue when it does not exist yet. A task name already taken in that
    /// queue is refused and nothing changes.
    pub fn register_task(&mut self, desc: TaskDescriptor) -> (r: Result<(), CeleryError>)
        ensures
            register_step(old(self)@, desc, final(self)@, r),
            final(self).config() == old(self).config(),
            queue_names(final(self)@).no_duplicates(),
    {
        proof {
            use_type_invariant(&*self);
        }
        match self.position_of(&desc.queue_name) {
            Some(i) => {
                let ghost old_view = self@;
                proof {
                    assert forall|j: int| 0 <= j < old_view.len() && old_view[j].0 == desc.queue_name@
                        implies j == i by {
                        assert(queue_names(old_view)[j] == queue_names(old_view)[i as int]);
                    }
                }
                let mut queues: Vec<Queue> = Vec::new();
                assert(queue_names(queues@.map_values(|q: Queue| q@)) =~= Seq::<Seq<char>>::empty());
                std::mem::swap(&mut self.queue_map, &mut queues);
                assert(old_view[i as int] == queues@[i as int]@);
                let r = queues[i].add_task(desc);
                let ghost new_view = queues@.map_values(|q: Queue| q@);
                assert(new_view =~= match r {
                    Ok(_) => old_view.update(i as int, (old_view[i as int].0, old_view[i as int].1.push(desc))),
                    Err(_) => old_view,
                });
                assert(queue_names(new_view) =~= queue_names(old_view));
                std::mem::swap(&mut self.queue_map, &mut queues);
                proof {
                    use_type_invariant(&*self);
                }
                r
            },
            None => {
                proof {
                    assert forall|j: int| 0 <= j < self@.len() implies self@[j].0 != desc.queue_name@ by {
                        assert(queue_names(self@)[j] == self@[j].0);
                    }
                }
                let mut q = Queue::new(desc.queue_name.clone());
                let added = q.add_task(desc);
                assert(added is Ok);
                let ghost old_view = self@;
                self.push_queue(q);
                assert(self@ =~= old_view.push((desc.queue_name@, seq![desc])));
                assert(queue_names(self@) =~= queue_names(old_view).push(desc.queue_name@));
                proof {
                    use_type_invariant(&*self);
                }
                Ok(())
            },
        }
    }

    /// The number of queues.
    pub fn queue_count(&self) -> (r: usize)
        ensures
            r == self@.len(),
    {
        self.queue_map.len()
    }
}

/// The minimal application handle: just the broker it talks to.
pub struct CeleryApp {
    pub broker_url: String,
}

impl CeleryApp {
    pub fn new(broker_url: String) -> (r: CeleryApp)
        ensures
            r.broker_url == broker_url,
    {
        CeleryApp { broker_url }
    }
}

} // verus!
