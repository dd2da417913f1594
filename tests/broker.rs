use rcelery::broker::{reconnection, Broker, Pause, ReconnectStep, Reconnection, RedisBroker};
use rcelery::error::CeleryError;

struct FakeBroker {
    url: String,
    succeed_on: u32,
    calls: u32,
    open: bool,
}

impl Broker for FakeBroker {
    fn connect(&mut self) -> Result<(), CeleryError> {
        self.calls += 1;
        if self.calls == self.succeed_on {
            self.open = true;
            Ok(())
        } else {
            Err(CeleryError::ConnectionError("refused".to_string()))
        }
    }

    fn disconnect(&mut self) {
        self.open = false;
    }

    fn get_broker_url(&self) -> &String {
        &self.url
    }
}

struct Recorder {
    waits: Vec<u32>,
}

impl Pause for Recorder {
    fn pause(&mut self, seconds: u32) {
        self.waits.push(seconds);
    }
}

fn fake(succeed_on: u32) -> FakeBroker {
    FakeBroker { url: "redis://broker:6379/0".to_string(), succeed_on, calls: 0, open: false }
}

#[test]
fn always_failing_broker_is_tried_exactly_max_times() {
    let mut b = fake(0);
    let mut p = Recorder { waits: vec![] };
    let r = reconnection(&mut b, &mut p, 3, 0);
    assert_eq!(b.calls, 3);
    assert_eq!(p.waits, vec![0, 0]);
    match r {
        Err(CeleryError::ConnectionError(msg)) => {
            assert!(msg.contains("redis://broker:6379/0"));
            assert!(msg.contains("after 3 attempts"));
            assert_eq!(
                msg,
                "could not connect to redis://broker:6379/0 after 3 attempts: connection error: refused"
            );
        }
        other => panic!("unexpected {:?}", other),
    }
}

#[test]
fn success_on_second_attempt_stops() {
    let mut b = fake(2);
    let mut p = Recorder { waits: vec![] };
    let r = reconnection(&mut b, &mut p, 5, 7);
    assert!(r.is_ok());
    assert_eq!(b.calls, 2);
    assert!(b.open);
    assert_eq!(p.waits, vec![7]);
    b.disconnect();
    assert!(!b.open);
}

#[test]
fn zero_budget_makes_no_attempt() {
    let mut b = fake(1);
    let mut p = Recorder { waits: vec![] };
    let r = reconnection(&mut b, &mut p, 0, 1);
    assert_eq!(b.calls, 0);
    match r {
        Err(CeleryError::ConnectionError(msg)) => {
            assert_eq!(msg, "could not connect to redis://broker:6379/0 after 0 attempts")
        }
        other => panic!("unexpected {:?}", other),
    }
}

#[test]
fn state_machine_steps() {
    let mut s = Reconnection::new("u".to_string(), 2, 4);
    assert!(s.may_attempt());
    assert!(matches!(s.record(Err(CeleryError::Unknown)), ReconnectStep::Retry(4)));
    assert!(s.may_attempt());
    match s.record(Err(CeleryError::Unknown)) {
        ReconnectStep::GiveUp(CeleryError::ConnectionError(m)) => {
            assert_eq!(m, "could not connect to u after 2 attempts: unknown error")
        }
        other => panic!("unexpected {:?}", other),
    }
    assert!(!s.may_attempt());
    let mut s = Reconnection::new("u".to_string(), 2, 4);
    assert!(matches!(s.record(Ok(())), ReconnectStep::Connected));
    assert!(!s.may_attempt());
}

#[test]
fn redis_broker_takes_a_client_for_a_redis_url() {
    let mut b = RedisBroker::new("redis://127.0.0.1:6379/0".to_string());
    assert!(b.client.is_none());
    assert!(b.connect().is_ok());
    assert!(b.client.is_some());
    assert_eq!(b.get_broker_url(), "redis://127.0.0.1:6379/0");
    b.disconnect();
    assert!(b.client.is_none());
    b.disconnect();
    assert!(b.client.is_none());
}

#[test]
fn failed_connect_leaves_redis_broker_disconnected() {
    let mut b = RedisBroker::new("redis://127.0.0.1:6379/0".to_string());
    assert!(b.connect().is_ok());
    b.broker_url = "not a url".to_string();
    assert!(matches!(b.connect(), Err(CeleryError::ConnectionError(_))));
    assert!(b.client.is_none());
}

#[test]
fn redis_broker_refuses_other_schemes() {
    let mut b = RedisBroker::new("http://127.0.0.1/".to_string());
    assert!(matches!(b.connect(), Err(CeleryError::ConnectionError(_))));
    assert!(b.client.is_none());
    let mut p = Recorder { waits: vec![] };
    let r = reconnection(&mut b, &mut p, 2, 0);
    match r {
        Err(CeleryError::ConnectionError(msg)) => {
            assert!(msg.starts_with("could not connect to http://127.0.0.1/ after 2 attempts: connection error: "))
        }
        other => panic!("unexpected {:?}", other),
    }
}
