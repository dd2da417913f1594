use rcelery::celery_app::{CelerApp, CeleryConfig};
use rcelery::error::CeleryError;
use rcelery::queue::Queue;
use rcelery::task::{describe, TaskDescriptor, TaskFactory, TaskMeta};
use rcelery::CeleryApp;

fn descriptor(queue: &str, task: &str) -> TaskDescriptor {
    TaskDescriptor::new(queue.to_string(), task.to_string(), 0, "1".to_string(), "1".to_string())
}

#[test]
fn test_celery_app() {
    let mut app = CelerApp::new("redis://redis:6379/".to_string());
    let queue = Queue::new("default".to_string());
    app.add_queue(queue).unwrap();
    if let Some(q) = app.queue("default") {
        assert_eq!(q.queue_name(), "default");
    } else {
        panic!("Queue not found");
    }
    app.register_task(descriptor("default", "hello")).unwrap();
    assert_eq!(app.queue("default").unwrap().len(), 1);
    assert_eq!(app.queue_count(), 1);
}

pub struct TaskInput {
    pub value: i32,
}

pub struct TaskOutput {
    pub result: String,
}

pub fn test_task(_: TaskInput) -> Result<Option<TaskOutput>, CeleryError> {
    Err(CeleryError::Unknown)
}

pub struct TestTaskTask;

impl TaskMeta for TestTaskTask {
    type Input = TaskInput;
    type Output = TaskOutput;

    fn queue_name() -> &'static str {
        "test_queue"
    }

    fn task_name() -> &'static str {
        "test_task"
    }

    fn max_retries() -> u32 {
        3
    }

    fn input_type() -> &'static str {
        "TaskInput"
    }

    fn output_type() -> &'static str {
        "TaskOutput"
    }

    fn handler(input: Self::Input) -> Result<Option<Self::Output>, CeleryError> {
        test_task(input)
    }
}

#[test]
fn test_task_output() {
    let input = TaskInput { value: 42 };
    let _ = TestTaskTask::handler(input);
}

#[test]
fn describe_reads_task_meta() {
    let d = describe::<TestTaskTask>();
    assert_eq!(d.queue_name, "test_queue");
    assert_eq!(d.task_name, "test_task");
    assert_eq!(d.max_retries, 3);
    assert_eq!(d.input_type, "TaskInput");
    assert_eq!(d.output_type, "TaskOutput");
    assert!(matches!(TestTaskTask::handler(TaskInput { value: 1 }), Err(CeleryError::Unknown)));
}

#[test]
fn duplicate_task_name_in_queue_is_refused() {
    let mut q = Queue::new("default".to_string());
    assert!(q.add_task(descriptor("default", "hello")).is_ok());
    let second = TaskDescriptor::new("default".to_string(), "hello".to_string(), 7, "A".to_string(), "B".to_string());
    assert!(matches!(q.add_task(second), Err(CeleryError::InvalidParam(_))));
    assert_eq!(q.len(), 1);
    assert_eq!(q.get_task("hello").unwrap().max_retries, 0);
    assert!(q.get_task("absent").is_none());
}

#[test]
fn duplicate_task_name_through_app_is_refused() {
    let mut app = CelerApp::new("redis://127.0.0.1:6379/".to_string());
    assert!(app.register_task(descriptor("q1", "t")).is_ok());
    assert!(app.register_task(descriptor("q1", "u")).is_ok());
    assert!(app.register_task(descriptor("q2", "t")).is_ok());
    assert!(matches!(app.register_task(descriptor("q1", "t")), Err(CeleryError::InvalidParam(_))));
    assert_eq!(app.queue_count(), 2);
    assert_eq!(app.queue("q1").unwrap().len(), 2);
    assert_eq!(app.queue("q2").unwrap().len(), 1);
}

#[test]
fn duplicate_queue_name_is_refused() {
    let mut app = CelerApp::new("redis://127.0.0.1:6379/".to_string());
    assert!(app.add_queue(Queue::new("a".to_string())).is_ok());
    assert!(matches!(app.add_queue(Queue::new("a".to_string())), Err(CeleryError::InvalidParam(_))));
    assert_eq!(app.queue_count(), 1);
    assert!(app.queue("b").is_none());
}

#[test]
fn factories_register_in_order_and_stop_at_collision() {
    let mut app = CelerApp::new("redis://127.0.0.1:6379/".to_string());
    let batch = vec![descriptor("q", "a"), descriptor("q", "b"), descriptor("q", "a"), descriptor("q", "c")];
    assert!(matches!(batch.register(&mut app), Err(CeleryError::InvalidParam(_))));
    let q = app.queue("q").unwrap();
    assert_eq!(q.len(), 2);
    assert!(q.get_task("c").is_none());
}

#[test]
fn config_defaults_and_builders() {
    let c = CeleryConfig::new("redis://127.0.0.1:6379/".to_string());
    assert_eq!(c.worker_threads, 1);
    assert_eq!(c.connection_max_retries, 5);
    assert_eq!(c.connection_retry_delay, 5);
    assert!(c.result_backend.is_none());
    let c = c.with_result_backend("redis://backend/".to_string()).with_worker_threads(4);
    assert_eq!(c.result_backend.as_deref(), Some("redis://backend/"));
    assert_eq!(c.worker_threads, 4);
    let mut app = CelerApp::with_config(c);
    app.works(8);
    assert_eq!(app.celery_config().worker_threads, 8);
    assert_eq!(app.celery_config().broker_url, "redis://127.0.0.1:6379/");
    assert_eq!(app.queue_count(), 0);
    let plain = CeleryApp::new("redis://x/".to_string());
    assert_eq!(plain.broker_url, "redis://x/");
}

#[test]
fn error_messages() {
    assert_eq!(CeleryError::TaskNotFound("add".to_string()).message(), "task not found: add");
    assert_eq!(CeleryError::InvalidParam("x".to_string()).message(), "invalid parameter: x");
    assert_eq!(CeleryError::Unknown.message(), "unknown error");
    assert_eq!(CeleryError::ConnectionError("down".to_string()).message(), "connection error: down");
}

#[test]
fn retry_budget_defaults_to_zero() {
    let d = TaskDescriptor::from_config("q".to_string(), "t".to_string(), None, "I".to_string(), "O".to_string());
    assert_eq!(d.max_retries, 0);
    let d = TaskDescriptor::from_config("q".to_string(), "t".to_string(), Some(4), "I".to_string(), "O".to_string());
    assert_eq!(d.max_retries, 4);
    assert_eq!(d.input_type, "I");
}
