//! The keepalive timer of one connection: armed when the connection opens, it
//! asks for a ping each time it fires and arms itself again for the same
//! interval, until the connection closes.

use vstd::prelude::*;
use vstd::arithmetic::div_mod::{lemma_basic_div, lemma_div_plus_one};

verus! {

/// The token under which the keepalive firing is scheduled with the runtime,
/// and under which the runtime reports it.
pub const PING_CLOCK_EVENT: usize = 1;

/// Where a timer stands.
#[derive(Clone, Copy, Debug, PartialEq, Eq, Structural)]
pub enum TimerState {
    /// Created, not yet scheduled.
    Idle,
    /// Scheduled to fire once, one interval from when it was armed.
    Armed,
    /// It has fired and the ping it asked for is not yet known to be sent.
    Fired,
    /// Its connection has closed. Nothing leads out of this state.
    Canceled,
}

/// What the owner of the connection has to do for the timer.
#[derive(Clone, Copy, Debug, PartialEq, Eq, Structural)]
pub enum Action {
    /// Nothing.
    Nothing,
    /// Send one ping frame and report whether it was sent.
    SendPing,
    /// Schedule one firing, `delay` milliseconds from now, to be reported
    /// under `token`.
    Schedule { delay: u64, token: usize },
}

/// The mathematical content of a timer, with its transitions.
pub struct TimerModel {
    /// Milliseconds between arming and firing.
    pub interval: u64,
    pub state: TimerState,
}

impl TimerModel {
    /// A timer that was just created.
    pub open spec fn idle(interval: u64) -> TimerModel {
        TimerModel { interval, state: TimerState::Idle }
    }

    /// Whether arming does anything: only a new timer, or one that has fired,
    /// can be armed.
    pub open spec fn can_arm(self) -> bool {
        self.state is Idle || self.state is Fired
    }

    /// The timer after a request to arm it.
    pub open spec fn arm(self) -> TimerModel {
        if self.can_arm() {
            TimerModel { state: TimerState::Armed, ..self }
        } else {
            self
        }
    }

    /// What a request to arm asks of the owner.
    pub open spec fn arm_action(self) -> Action {
        if self.can_arm() {
            Action::Schedule { delay: self.interval, token: PING_CLOCK_EVENT }
        } else {
            Action::Nothing
        }
    }

    /// The timer after the runtime reports a firing. Only an armed timer fires.
    pub open spec fn fire(self) -> TimerModel {
        if self.state is Armed {
            TimerModel { state: TimerState::Fired, ..self }
        } else {
            self
        }
    }

    /// What a firing asks of the owner.
    pub open spec fn fire_action(self) -> Action {
        if self.state is Armed {
            Action::SendPing
        } else {
            Action::Nothing
        }
    }

    /// The timer after the owner reports on the ping: armed again when it was
    /// sent, left as it is when it was not.
    pub open spec fn ping(self, sent: bool) -> TimerModel {
        if self.state is Fired && sent {
            self.arm()
        } else {
            self
        }
    }

    /// What the report on the ping asks of the owner.
    pub open spec fn ping_action(self, sent: bool) -> Action {
        if self.state is Fired && sent {
            self.arm_action()
        } else {
            Action::Nothing
        }
    }

    /// The timer after its connection has closed.
    pub open spec fn cancel(self) -> TimerModel {
        TimerModel { state: TimerState::Canceled, ..self }
    }
}

/// The keepalive timer of one connection.
#[derive(Debug)]
pub struct KeepAliveTimer {
    interval: u64,
    state: TimerState,
}

impl View for KeepAliveTimer {
    type V = TimerModel;

    closed spec fn view(&self) -> TimerModel {
        TimerModel { interval: self.interval, state: self.state }
    }
}

impl KeepAliveTimer {
    #[verifier::type_invariant]
    spec fn positive_interval(self) -> bool {
        self.interval > 0
    }

    /// A new timer for a connection, with the interval in milliseconds.
    pub fn new(interval: u64) -> (t: KeepAliveTimer)
        requires
            interval > 0,
        ensures
            t@ == TimerModel::idle(interval),
    {
        KeepAliveTimer { interval, state: TimerState::Idle }
    }

    /// Milliseconds between arming and firing; never zero.
    pub fn interval(&self) -> (ms: u64)
        ensures
            ms == self@.interval,
            ms > 0,
    {
        proof {
            use_type_invariant(self);
        }
        self.interval
    }

    /// Where the timer stands.
    pub fn state(&self) -> (s: TimerState)
        ensures
            s == self@.state,
    {
        self.state
    }

    /// Arms a new timer, or one that has fired, for one interval.
    pub fn arm(&mut self) -> (action: Action)
        ensures
            final(self)@ == old(self)@.arm(),
            action == old(self)@.arm_action(),
        no_unwind
    {
        proof {
            use_type_invariant(&*self);
        }
        match self.state {
            TimerState::Idle | TimerState::Fired => {
                self.state = TimerState::Armed;
                Action::Schedule { delay: self.interval, token: PING_CLOCK_EVENT }
            },
            _ => Action::Nothing,
        }
    }

    /// The runtime reports that the scheduled firing is due: an armed timer
    /// asks for a ping. In any other state this does nothing.
    pub fn on_fire(&mut self) -> (action: Action)
        ensures
            final(self)@ == old(self)@.fire(),
            action == old(self)@.fire_action(),
        no_unwind
    {
        proof {
            use_type_invariant(&*self);
        }
        match self.state {
            TimerState::Armed => {
                self.state = TimerState::Fired;
                Action::SendPing
            },
            _ => Action::Nothing,
        }
    }

    /// The owner reports whether the ping was sent. After a ping that was sent
    /// the timer arms itself again for the same interval; after one that was
    /// not, it stays unarmed.
    pub fn on_ping(&mut self, sent: bool) -> (action: Action)
        ensures
            final(self)@ == old(self)@.ping(sent),
            action == old(self)@.ping_action(sent),
        no_unwind
    {
        match self.state {
            TimerState::Fired => if sent { self.arm() } else { Action::Nothing },
            _ => Action::Nothing,
        }
    }

    /// The connection has closed, whatever the cause.
    pub fn cancel(&mut self)
        ensures
            final(self)@ == old(self)@.cancel(),
        no_unwind
    {
        proof {
            use_type_invariant(&*self);
        }
        self.state = TimerState::Canceled;
    }
}

/// Nothing leads out of `Canceled`: whatever is reported to a canceled timer,
/// it stays canceled and asks for nothing. No transition changes the interval.
pub proof fn lemma_canceled_is_terminal(timer: TimerModel, sent: bool)
    ensures
        timer.arm().interval == timer.interval,
        timer.fire().interval == timer.interval,
        timer.ping(sent).interval == timer.interval,
        timer.cancel().interval == timer.interval,
        timer.cancel().state is Canceled,
        timer.state is Canceled ==> {
            &&& timer.arm() == timer && timer.arm_action() == Action::Nothing
            &&& timer.fire() == timer && timer.fire_action() == Action::Nothing
            &&& timer.ping(sent) == timer && timer.ping_action(sent) == Action::Nothing
            &&& timer.cancel() == timer
        },
{
}

/// The times, in milliseconds since the connection opened, at which pings go
/// out up to and including `until`, when the owner does what it is asked and
/// every ping is sent. `asked` is what the timer asked for at the time `now`:
/// a firing that was scheduled is reported by the runtime once its delay has
/// passed, the ping that the timer then asks for goes out at that moment, and
/// the report that it was sent leads to what is asked next. Only a firing
/// reported under the keepalive token reaches the timer.
pub open spec fn ping_times(timer: TimerModel, asked: Action, now: int, until: int) -> Seq<int>
    decreases until - now,
{
    match asked {
        Action::Schedule { delay, token } => {
            let due = now + delay;
            let fired = timer.fire();
            if delay > 0 && due <= until && token == PING_CLOCK_EVENT && timer.fire_action()
                == Action::SendPing {
                seq![due] + ping_times(fired.ping(true), fired.ping_action(true), due, until)
            } else {
                Seq::empty()
            }
        },
        _ => Seq::empty(),
    }
}

/// From whenever it was armed, an armed timer pings once per interval.
proof fn lemma_ping_times_from(timer: TimerModel, now: int, until: int)
    requires
        timer.state is Armed,
        timer.interval > 0,
        now <= until,
    ensures
        ({
            let sent = ping_times(
                timer,
                Action::Schedule { delay: timer.interval, token: PING_CLOCK_EVENT },
                now,
                until,
            );
            &&& sent.len() == (until - now) / (timer.interval as int)
            &&& forall|k: int|
                0 <= k < sent.len() ==> #[trigger] sent[k] == now + (k + 1) * timer.interval
        }),
    decreases until - now,
{
    let step = timer.interval as int;
    let due = now + step;
    let asked = Action::Schedule { delay: timer.interval, token: PING_CLOCK_EVENT };
    let sent = ping_times(timer, asked, now, until);
    if due <= until {
        let next = timer.fire().ping(true);
        let rest = ping_times(next, asked, due, until);
        lemma_ping_times_from(next, due, until);
        lemma_div_plus_one(until - due, step);
        assert(sent == seq![due] + rest);
        assert forall|k: int| 0 <= k < sent.len() implies #[trigger] sent[k] == now + (k + 1)
            * step by {
            if k > 0 {
                assert(sent[k] == rest[k - 1]);
                assert(rest[k - 1] == due + ((k - 1) + 1) * step);
                assert(due + ((k - 1) + 1) * step == now + (k + 1) * step) by (nonlinear_arith)
                    requires
                        due == now + step,
                ;
            } else {
                assert(sent[0] == due);
                assert((0 + 1) * step == step) by (nonlinear_arith);
            }
        }
    } else {
        lemma_basic_div(until - now, step);
    }
}

/// On a connection that stays open for `duration` milliseconds under a timer
/// armed at its opening, with every ping sent, the pings number
/// `duration / interval`, rounded down, and the k-th of them goes out k
/// intervals after the opening: each firing finds the timer armed again.
pub proof fn lemma_ping_schedule(interval: u64, duration: int)
    requires
        interval > 0,
        duration >= 0,
    ensures
        ({
            let timer = TimerModel::idle(interval);
            let sent = ping_times(timer.arm(), timer.arm_action(), 0, duration);
            &&& sent.len() == duration / (interval as int)
            &&& forall|k: int| 0 <= k < sent.len() ==> #[trigger] sent[k] == (k + 1) * interval
        }),
{
    lemma_ping_times_from(TimerModel::idle(interval).arm(), 0, duration);
}

} // verus!
