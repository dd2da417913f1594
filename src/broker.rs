use vstd::prelude::*;
use vstd::string::*;
use crate::error::{decimal, decimal_text, error_text, CeleryError};

verus! {

/// `redis::Client`, held opaquely as the broker's connection handle.
#[verifier::external_type_specification]
#[verifier::external_body]
pub struct ExRedisClient(redis::Client);

/// `redis::RedisError`, the error of `redis::Client::open`; only its text is
/// kept.
#[verifier::external_type_specification]
#[verifier::external_body]
pub struct ExRedisError(redis::RedisError);

/// Whether redis reads `url` as the address of a server.
pub uninterp spec fn redis_url_accepted(url: Seq<char>) -> bool;

/// Relies on `redis::Client::open` for a `&str`: it parses the URL into
/// connection parameters and opens no connection, so the outcome depends on
/// the text alone.
#[verifier::external_body]
fn open_client(url: &str) -> (r: Result<redis::Client, redis::RedisError>)
    ensures
        r is Ok <==> redis_url_accepted(url@),
{
    redis::Client::open(url)
}

/// The connection to a message broker.
///
/// `url` names the broker's address; its default stands for impls that are
/// not verified.
pub trait Broker {
    open spec fn url(&self) -> Seq<char> {
        Seq::empty()
    }

    fn connect(&mut self) -> (r: Result<(), CeleryError>)
        ensures
            r is Err ==> r->Err_0 is ConnectionError,
    ;

    /// Drops the connection handle, if any; doing so twice is harmless.
    fn disconnect(&mut self);

    fn get_broker_url(&self) -> (r: &String)
        ensures
            r@ == self.url(),
    ;
}

/// A redis server as the broker.
pub struct RedisBroker {
    pub broker_url: String,
    pub client: Option<redis::Client>,
}

impl RedisBroker {
    pub fn new(broker_url: String) -> (r: RedisBroker)
        ensures
            r.broker_url == broker_url,
            r.client is None,
    {
        RedisBroker { broker_url, client: None }
    }
}

impl Broker for RedisBroker {
    open spec fn url(&self) -> Seq<char> {
        self.broker_url@
    }

    /// Takes a client for the URL; it fails exactly when redis refuses the
    /// URL, and a failed attempt leaves the broker disconnected.
    fn connect(&mut self) -> (r: Result<(), CeleryError>)
        ensures
            r is Ok <==> redis_url_accepted(old(self).broker_url@),
            final(self).broker_url == old(self).broker_url,
            final(self).client is Some <==> r is Ok,
    {
        match open_client(self.broker_url.as_str()) {
            Ok(client) => {
                self.client = Some(client);
                Ok(())
            },
            Err(e) => {
                self.client = None;
                Err(CeleryError::ConnectionError(e.to_string()))
            },
        }
    }

    fn disconnect(&mut self)
        ensures
            final(self).broker_url == old(self).broker_url,
            final(self).client is None,
    {
        self.client = None;
    }

    fn get_broker_url(&self) -> (r: &String) {
        &self.broker_url
    }
}

/// What the caller does after an attempt to connect.
#[derive(Debug)]
pub enum ReconnectStep {
    /// The broker is connected; no further attempt is made.
    Connected,
    /// Wait this many seconds, then attempt again.
    Retry(u32),
    /// The budget is spent; the error says so.
    GiveUp(CeleryError),
}

/// The text of the error once `attempts` attempts on `url` have failed, the
/// last with `last`.
pub open spec fn exhausted_text(url: Seq<char>, attempts: nat, last: Option<CeleryError>) -> Seq<char> {
    "could not connect to "@ + url + " after "@ + decimal_text(attempts) + " attempts"@ + match last {
        Some(e) => ": "@ + error_text(e),
        None => Seq::<char>::empty(),
    }
}

/// The decisions of bounded reconnection with a fixed delay: at most
/// `max_attempts` attempts, the first success ends it, and every failure
/// but the last is followed by a wait of `delay_seconds`.
pub struct Reconnection {
    broker_url: String,
    max_attempts: u32,
    delay_seconds: u32,
    attempts: u32,
    finished: bool,
}

impl Reconnection {
    pub closed spec fn url(&self) -> Seq<char> {
        self.broker_url@
    }

    pub closed spec fn max_attempts(&self) -> nat {
        self.max_attempts as nat
    }

    pub closed spec fn delay(&self) -> u32 {
        self.delay_seconds
    }

    /// The attempts recorded so far.
    pub closed spec fn attempts(&self) -> nat {
        self.attempts as nat
    }

    /// Whether a success or the last failure has been recorded.
    pub closed spec fn finished(&self) -> bool {
        self.finished
    }

    pub closed spec fn wf(&self) -> bool {
        &&& self.attempts <= self.max_attempts
        &&& !self.finished ==> self.attempts < self.max_attempts || self.max_attempts == 0
    }

    pub fn new(broker_url: String, max_attempts: u32, delay_seconds: u32) -> (r: Reconnection)
        ensures
            r.wf(),
            r.url() == broker_url@,
            r.max_attempts() == max_attempts,
            r.delay() == delay_seconds,
            r.attempts() == 0,
            !r.finished(),
    {
        Reconnection { broker_url, max_attempts, delay_seconds, attempts: 0, finished: false }
    }

    /// Whether another attempt is due.
    pub fn may_attempt(&self) -> (r: bool)
        requires
            self.wf(),
        ensures
            r == (!self.finished() && self.attempts() < self.max_attempts()),
    {
        !self.finished && self.attempts < self.max_attempts
    }

    /// Records the outcome of one attempt and says what comes next.
    pub fn record(&mut self, outcome: Result<(), CeleryError>) -> (r: ReconnectStep)
        requires
            old(self).wf(),
            !old(self).finished(),
            old(self).attempts() < old(self).max_attempts(),
        ensures
            final(self).wf(),
            final(self).url() == old(self).url(),
            final(self).max_attempts() == old(self).max_attempts(),
            final(self).delay() == old(self).delay(),
            final(self).attempts() == old(self).attempts() + 1,
            outcome is Ok ==> r is Connected && final(self).finished(),
            outcome is Err && final(self).attempts() < old(self).max_attempts() ==> r == ReconnectStep::Retry(
                old(self).delay(),
            ) && !final(self).finished(),
            outcome is Err && final(self).attempts() == old(self).max_attempts() ==> {
                &&& final(self).finished()
                &&& r is GiveUp
                &&& r->GiveUp_0 is ConnectionError
                &&& r->GiveUp_0->ConnectionError_0@ == exhausted_text(
                    old(self).url(),
                    old(self).max_attempts(),
                    Some(outcome->Err_0),
                )
            },
    {
        self.attempts = self.attempts + 1;
        match outcome {
            Ok(()) => {
                self.finished = true;
                ReconnectStep::Connected
            },
            Err(e) => {
                if self.attempts < self.max_attempts {
                    ReconnectStep::Retry(self.delay_seconds)
                } else {
                    self.finished = true;
                    let detail = e.message();
                    ReconnectStep::GiveUp(self.exhausted_error(Some(detail)))
                }
            },
        }
    }

    /// The error once the budget is spent, naming the URL, the number of
    /// attempts and the last error's text, if there was an attempt.
    fn exhausted_error(&self, last: Option<String>) -> (e: CeleryError)
        ensures
            e is ConnectionError,
            e->ConnectionError_0@ == "could not connect to "@ + self.url() + " after "@
                + decimal_text(self.max_attempts()) + " attempts"@ + match last {
                Some(t) => ": "@ + t@,
                None => Seq::<char>::empty(),
            },
    {
        let mut text = String::from_str("could not connect to ");
        text.append(self.broker_url.as_str());
        text.append(" after ");
        let count = decimal(self.max_attempts);
        text.append(count.as_str());
        text.append(" attempts");
        match last {
            Some(t) => {
                text.append(": ");
                text.append(t.as_str());
            },
            None => {},
        }
        CeleryError::ConnectionError(text)
    }

    /// The error when no attempt was allowed at all.
    pub fn no_attempt_error(&self) -> (e: CeleryError)
        ensures
            e is ConnectionError,
            e->ConnectionError_0@ == exhausted_text(self.url(), self.max_attempts(), None),
    {
        self.exhausted_error(None)
    }
}

/// Something that suspends the caller between two connection attempts.
pub trait Pause {
    fn pause(&mut self, seconds: u32);
}

/// Connects `broker`, with at most `max_attempts` attempts that are
/// `delay_seconds` apart; the first success ends it.
pub fn reconnection<B: Broker, P: Pause>(
    broker: &mut B,
    pauser: &mut P,
    max_attempts: u32,
    delay_seconds: u32,
) -> (r: Result<(), CeleryError>)
    ensures
        r is Err ==> r->Err_0 is ConnectionError,
        max_attempts == 0 ==> r is Err && r->Err_0->ConnectionError_0@ == exhausted_text(
            old(broker).url(),
            0,
            None,
        ),
{
    let url = broker.get_broker_url().clone();
    let mut state = Reconnection::new(url, max_attempts, delay_seconds);
    while state.may_attempt()
        invariant
            state.wf(),
            state.max_attempts() == max_attempts,
            !state.finished(),
            state.url() == old(broker).url(),
        decreases state.max_attempts() - state.attempts(),
    {
        let outcome = broker.connect();
        match state.record(outcome) {
            ReconnectStep::Connected => {
                return Ok(());
            },
            ReconnectStep::Retry(seconds) => {
                pauser.pause(seconds);
            },
            ReconnectStep::GiveUp(e) => {
                return Err(e);
            },
        }
    }
    Err(state.no_attempt_error())
}

} // verus!
