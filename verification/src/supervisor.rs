//! The connection supervisor: one connection at a time, a keepalive timer
//! while it is open, and a bounded number of attempts that end with no open
//! in between.

use vstd::prelude::*;
use crate::config::{Configure, ConfigureModel};
use crate::counter::{FailureCounter, RETRY_LIMIT};
use crate::handshake::bearer_header;
use crate::keepalive::{
    lemma_ping_schedule, ping_times, Action, KeepAliveTimer, TimerModel, PING_CLOCK_EVENT,
};
use crate::transport::{constructible, internal_error, request_headers, url_text};

verus! {

/// What follows the end of a connection attempt.
#[derive(Clone, Copy, Debug, PartialEq, Eq, Structural)]
pub enum Verdict {
    /// Connect again, at once.
    Retry,
    /// The retry budget is used up: the process must abort.
    Abort,
}

/// How a connection attempt went before it ended.
#[derive(Clone, Copy, Debug, PartialEq, Eq, Structural)]
pub enum Attempt {
    /// It ended before the connection opened.
    Failed,
    /// The connection opened, and ended later.
    Opened,
}

/// The mathematical content of a supervisor, with its transitions.
pub struct SupervisorModel {
    pub config: ConfigureModel,
    /// Attempts that ended since the last open.
    pub failures: nat,
    /// The timer of the current connection, or of the last one.
    pub timer: TimerModel,
}

impl SupervisorModel {
    /// The keepalive interval in milliseconds.
    pub open spec fn interval(self) -> u64 {
        self.config.keepalive_ms() as u64
    }

    /// What holds of every supervisor that was started.
    pub open spec fn wf(self) -> bool {
        &&& self.config.has_credentials()
        &&& self.config.interval_fits()
        &&& self.failures <= RETRY_LIMIT
        &&& self.timer.interval == self.interval()
    }

    /// The retry budget is used up. No event changes an aborted supervisor.
    pub open spec fn aborted(self) -> bool {
        self.failures >= RETRY_LIMIT
    }

    /// The supervisor as it is started: nothing has failed, no connection yet.
    pub open spec fn initial(config: ConfigureModel) -> SupervisorModel {
        SupervisorModel {
            config,
            failures: 0,
            timer: TimerModel::idle(config.keepalive_ms() as u64),
        }
    }

    /// After a connection has opened: the count is back at zero and a fresh
    /// timer is armed.
    pub open spec fn open(self) -> SupervisorModel {
        if self.aborted() {
            self
        } else {
            SupervisorModel { failures: 0, timer: TimerModel::idle(self.interval()).arm(), ..self }
        }
    }

    /// What the opening asks of the owner: schedule the first firing.
    pub open spec fn open_action(self) -> Action {
        if self.aborted() {
            Action::Nothing
        } else {
            Action::Schedule { delay: self.interval(), token: PING_CLOCK_EVENT }
        }
    }

    /// After the runtime has reported a timeout under `event`.
    pub open spec fn timeout(self, event: usize) -> SupervisorModel {
        if event == PING_CLOCK_EVENT {
            SupervisorModel { timer: self.timer.fire(), ..self }
        } else {
            self
        }
    }

    /// After the owner has reported whether the ping was sent.
    pub open spec fn ping(self, sent: bool) -> SupervisorModel {
        SupervisorModel { timer: self.timer.ping(sent), ..self }
    }

    /// After a connection attempt has ended, for whatever reason: one more
    /// is counted and the timer is canceled.
    pub open spec fn terminate(self) -> SupervisorModel {
        if self.aborted() {
            self
        } else {
            SupervisorModel { failures: self.failures + 1, timer: self.timer.cancel(), ..self }
        }
    }

    /// What follows in this state, once an attempt has ended.
    pub open spec fn verdict(self) -> Verdict {
        if self.aborted() {
            Verdict::Abort
        } else {
            Verdict::Retry
        }
    }

    /// After one whole connection attempt.
    pub open spec fn attempt(self, how: Attempt) -> SupervisorModel {
        match how {
            Attempt::Failed => self.terminate(),
            Attempt::Opened => self.open().terminate(),
        }
    }
}

/// Supervises the connection to the watchdog endpoint. It owns the failure
/// count for the life of the process: every change to it goes through a
/// mutable borrow of the supervisor.
#[derive(Debug)]
pub struct Supervisor {
    config: Configure,
    counter: FailureCounter,
    timer: KeepAliveTimer,
}

impl View for Supervisor {
    type V = SupervisorModel;

    closed spec fn view(&self) -> SupervisorModel {
        SupervisorModel { config: self.config@, failures: self.counter@, timer: self.timer@ }
    }
}

impl Supervisor {
    #[verifier::type_invariant]
    spec fn well_formed(self) -> bool {
        self@.wf()
    }

    /// Starts supervision with the given settings, or refuses: with an empty
    /// endpoint or an empty token there is no supervisor, and so no attempt
    /// to connect. The interval in milliseconds must fit 64 bits.
    pub fn start(config: Configure) -> (started: Option<Supervisor>)
        requires
            config@.has_credentials() ==> config@.interval_fits(),
        ensures
            started is Some <==> config@.has_credentials(),
            started matches Some(s) ==> s@ == SupervisorModel::initial(config@) && s@.wf(),
    {
        if config.url().is_empty() || config.token().is_empty() {
            return None;
        }
        let timer = KeepAliveTimer::new(config.keepalive_ms());
        Some(Supervisor { config, counter: FailureCounter::new(), timer })
    }

    /// The endpoint to connect to; never empty.
    pub fn url(&self) -> (r: &str)
        ensures
            r@ == self@.config.url,
            r@.len() > 0,
    {
        proof {
            use_type_invariant(self);
        }
        self.config.url()
    }

    /// The bearer token; never empty.
    pub fn token(&self) -> (r: &str)
        ensures
            r@ == self@.config.server_token,
            r@.len() > 0,
    {
        proof {
            use_type_invariant(self);
        }
        self.config.token()
    }

    /// Attempts that ended since the last open; never above `RETRY_LIMIT`.
    pub fn failures(&self) -> (n: u32)
        ensures
            n == self@.failures,
            n <= RETRY_LIMIT,
    {
        proof {
            use_type_invariant(self);
        }
        self.counter.value()
    }

    /// Whether the retry budget is used up.
    pub fn aborted(&self) -> (b: bool)
        ensures
            b == self@.aborted(),
    {
        self.counter.exhausted()
    }

    /// The upgrade request for `url`, authorized with the supervisor's token.
    /// It succeeds on every URL for which the bare request can be constructed.
    pub fn build_request(&self, url: &url::Url) -> (r: Result<ws::Request, ws::Error>)
        ensures
            r is Ok <==> constructible(url_text(*url)),
            r matches Ok(out) ==> {
                &&& request_headers(out).len() > 0
                &&& request_headers(out).last() == bearer_header(self@.config.server_token)
            },
    {
        crate::handshake::build_request(url, self.config.token())
    }

    /// The connection has opened: the failure count goes back to zero and a
    /// fresh timer is armed for the keepalive interval.
    pub fn on_open(&mut self) -> (action: Action)
        ensures
            final(self)@ == old(self)@.open(),
            action == old(self)@.open_action(),
    {
        proof {
            use_type_invariant(&*self);
        }
        if self.counter.exhausted() {
            return Action::Nothing;
        }
        self.counter.reset();
        self.timer = KeepAliveTimer::new(self.config.keepalive_ms());
        self.timer.arm()
    }

    /// The runtime reports a timeout. Under the keepalive token an armed timer
    /// asks for a ping; any other token is an error and changes nothing.
    pub fn on_timeout(&mut self, event: usize) -> (r: Result<Action, ws::Error>)
        ensures
            final(self)@ == old(self)@.timeout(event),
            r is Ok <==> event == PING_CLOCK_EVENT,
            r matches Ok(action) ==> action == old(self)@.timer.fire_action(),
    {
        proof {
            use_type_invariant(&*self);
        }
        if event == PING_CLOCK_EVENT {
            Ok(self.timer.on_fire())
        } else {
            Err(internal_error("Invalid timeout token!"))
        }
    }

    /// The owner reports whether the ping was sent: if so the timer is armed
    /// again for the same interval, if not it stays unarmed.
    pub fn on_ping(&mut self, sent: bool) -> (action: Action)
        ensures
            final(self)@ == old(self)@.ping(sent),
            action == old(self)@.timer.ping_action(sent),
    {
        proof {
            use_type_invariant(&*self);
        }
        self.timer.on_ping(sent)
    }

    /// A connection attempt has ended, whether it ever opened or not: the
    /// timer is canceled, the end is counted, and at `RETRY_LIMIT` the verdict
    /// is to abort. Otherwise the next attempt follows at once.
    pub fn on_terminated(&mut self) -> (verdict: Verdict)
        ensures
            final(self)@ == old(self)@.terminate(),
            verdict == final(self)@.verdict(),
    {
        proof {
            use_type_invariant(&*self);
        }
        if self.counter.exhausted() {
            return Verdict::Abort;
        }
        self.timer.cancel();
        if self.counter.record() {
            Verdict::Abort
        } else {
            Verdict::Retry
        }
    }
}

/// Every event leaves a well-formed supervisor well-formed: the credentials
/// stay present, the count stays within the limit, and the timer keeps the
/// configured interval.
pub proof fn lemma_events_keep_wf(s: SupervisorModel, event: usize, sent: bool)
    requires
        s.wf(),
    ensures
        SupervisorModel::initial(s.config).wf(),
        s.open().wf(),
        s.timeout(event).wf(),
        s.ping(sent).wf(),
        s.terminate().wf(),
{
}

/// While a connection stays open, pings go out at the configured keepalive
/// interval: over `duration` milliseconds from the opening, with every ping
/// sent, there are `duration / interval` of them, rounded down, the k-th one
/// k intervals after the opening.
pub proof fn lemma_session_keepalive(s: SupervisorModel, duration: int)
    requires
        s.wf(),
        !s.aborted(),
        duration >= 0,
    ensures
        s.interval() == s.config.keepalive_ms(),
        ({
            let sent = ping_times(s.open().timer, s.open_action(), 0, duration);
            &&& sent.len() == duration / (s.interval() as int)
            &&& forall|k: int| 0 <= k < sent.len() ==> #[trigger] sent[k] == (k + 1) * s.interval()
        }),
{
    lemma_ping_schedule(s.interval(), duration);
}

/// Three attempts in a row that end before the connection opens lead to
/// abort, wherever the supervisor stood before them.
pub proof fn lemma_three_failures_abort(s: SupervisorModel)
    ensures
        s.attempt(Attempt::Failed).attempt(Attempt::Failed).attempt(Attempt::Failed).aborted(),
{
}

/// An attempt on which the connection opened leaves exactly one ended attempt
/// on the count, whatever was counted before, and so never leads to abort.
pub proof fn lemma_open_restores_budget(s: SupervisorModel)
    requires
        !s.aborted(),
    ensures
        s.attempt(Attempt::Opened).failures == 1,
        !s.attempt(Attempt::Opened).aborted(),
{
}

/// A supervisor that was just started survives two failed attempts followed
/// by one on which the connection opened: at no point does it abort.
pub proof fn lemma_two_failures_then_open(config: ConfigureModel)
    ensures
        ({
            let s0 = SupervisorModel::initial(config);
            let s1 = s0.attempt(Attempt::Failed);
            let s2 = s1.attempt(Attempt::Failed);
            let s3 = s2.attempt(Attempt::Opened);
            &&& !s0.aborted() && !s1.aborted() && !s2.aborted() && !s3.aborted()
            &&& s2.failures == 2
            &&& s3.failures == 1
        }),
{
}

} // verus!
