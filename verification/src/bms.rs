//! The battery watchdog: the battery management system must show a sign of
//! life on the bus at least once per window, or a fault is raised.

use vstd::prelude::*;
use crate::fault::{fault_signal, FaultCode, FaultSeverity};

verus! {

/// Time without a liveness frame after which the watchdog raises a fault, in
/// milliseconds.
pub const BMS_WATCHDOG_FAULT_TIME_MS: u64 = 4000;

/// What can happen to the watchdog, with the time at which it happens in
/// milliseconds.
#[derive(Clone, Copy, Debug, PartialEq, Eq, Structural)]
pub enum WatchdogEvent {
    /// A liveness frame has arrived.
    Liveness(u64),
    /// The timer has run out, or the clock is looked at.
    Timer(u64),
}

/// What the watchdog remembers: when the wait that is running began.
pub struct WatchdogState {
    pub waiting_since: u64,
}

impl WatchdogState {
    /// The wait has lasted the whole window at time `now`.
    pub open spec fn timed_out(self, now: u64) -> bool {
        now - self.waiting_since >= BMS_WATCHDOG_FAULT_TIME_MS
    }

    /// The fault that the event raises.
    pub open spec fn raises(self, event: WatchdogEvent) -> Option<FaultCode> {
        match event {
            WatchdogEvent::Liveness(_) => None,
            WatchdogEvent::Timer(now) => if self.timed_out(now) {
                Some(FaultCode::BmsCanMonitorFault)
            } else {
                None
            },
        }
    }

    /// The state after the event: a liveness frame begins a new wait and has
    /// no other effect; so does a timer that raises the fault.
    pub open spec fn after(self, event: WatchdogEvent) -> WatchdogState {
        match event {
            WatchdogEvent::Liveness(now) => WatchdogState { waiting_since: now },
            WatchdogEvent::Timer(now) => if self.timed_out(now) {
                WatchdogState { waiting_since: now }
            } else {
                self
            },
        }
    }

    /// When the timer of the running wait runs out.
    pub open spec fn deadline_of(self) -> int {
        self.waiting_since + BMS_WATCHDOG_FAULT_TIME_MS
    }
}

/// The battery watchdog.
#[derive(Debug)]
pub struct BmsWatchdog {
    waiting_since: u64,
}

impl View for BmsWatchdog {
    type V = WatchdogState;

    closed spec fn view(&self) -> WatchdogState {
        WatchdogState { waiting_since: self.waiting_since }
    }
}

impl BmsWatchdog {
    /// A watchdog whose first wait begins at time `now`.
    pub fn new(now: u64) -> (watchdog: BmsWatchdog)
        ensures
            watchdog@ == (WatchdogState { waiting_since: now }),
    {
        BmsWatchdog { waiting_since: now }
    }

    /// When the timer of the running wait runs out, in milliseconds; the
    /// largest time there is where that lies beyond it.
    pub fn deadline(&self) -> (at: u64)
        ensures
            at == if self@.deadline_of() <= u64::MAX {
                self@.deadline_of()
            } else {
                u64::MAX as int
            },
    {
        if self.waiting_since <= u64::MAX - BMS_WATCHDOG_FAULT_TIME_MS {
            self.waiting_since + BMS_WATCHDOG_FAULT_TIME_MS
        } else {
            u64::MAX
        }
    }

    /// Handles one event and returns the fault to raise, if any.
    pub fn on_event(&mut self, event: WatchdogEvent) -> (fault: Option<FaultCode>)
        ensures
            fault == old(self)@.raises(event),
            final(self)@ == old(self)@.after(event),
    {
        match event {
            WatchdogEvent::Liveness(now) => {
                self.waiting_since = now;
                None
            },
            WatchdogEvent::Timer(now) => {
                if now >= self.waiting_since && now - self.waiting_since
                    >= BMS_WATCHDOG_FAULT_TIME_MS {
                    self.waiting_since = now;
                    Some(FaultCode::BmsCanMonitorFault)
                } else {
                    None
                }
            },
        }
    }
}

/// The watchdog knows one fault only. Its severity is 4: the fault is
/// recorded and broadcast, and the vehicle goes on driving.
pub proof fn lemma_watchdog_fault_is_not_critical(state: WatchdogState, event: WatchdogEvent)
    requires
        state.raises(event) is Some,
    ensures
        state.raises(event) == Some(FaultCode::BmsCanMonitorFault),
        FaultCode::BmsCanMonitorFault.severity() == FaultSeverity::Defcon4,
        fault_signal(FaultCode::BmsCanMonitorFault.severity()) is None,
{
}

/// The time of an event.
pub open spec fn time_of(event: WatchdogEvent) -> u64 {
    match event {
        WatchdogEvent::Liveness(at) => at,
        WatchdogEvent::Timer(at) => at,
    }
}

/// How many faults the events raise, taken in order.
pub open spec fn faults_raised(state: WatchdogState, events: Seq<WatchdogEvent>) -> nat
    decreases events.len(),
{
    if events.len() == 0 {
        0
    } else {
        let first: nat = if state.raises(events[0]) is Some {
            1
        } else {
            0
        };
        first + faults_raised(state.after(events[0]), events.drop_first())
    }
}

/// Every event comes less than a window after the liveness frame before it,
/// or after the beginning of the wait where no frame came before it.
pub open spec fn always_in_time(state: WatchdogState, events: Seq<WatchdogEvent>) -> bool
    decreases events.len(),
{
    if events.len() == 0 {
        true
    } else {
        &&& time_of(events[0]) - state.waiting_since < BMS_WATCHDOG_FAULT_TIME_MS
        &&& always_in_time(state.after(events[0]), events.drop_first())
    }
}

/// While the liveness frames keep coming less than a window apart, the
/// watchdog raises nothing, however often the timer looks.
pub proof fn lemma_liveness_in_time_raises_none(state: WatchdogState, events: Seq<WatchdogEvent>)
    requires
        always_in_time(state, events),
    ensures
        faults_raised(state, events) == 0,
    decreases events.len(),
{
    if events.len() > 0 {
        lemma_liveness_in_time_raises_none(state.after(events[0]), events.drop_first());
    }
}

/// Silence raises the fault exactly once: with no liveness frame, timers
/// that look before the window is over raise nothing, the first one at or
/// after its end raises the fault, and timers within a window after that one
/// raise nothing more.
pub proof fn lemma_silence_raises_exactly_one(
    state: WatchdogState,
    early: Seq<u64>,
    expiry: u64,
    late: Seq<u64>,
)
    requires
        forall|i: int|
            0 <= i < early.len() ==> #[trigger] early[i] - state.waiting_since
                < BMS_WATCHDOG_FAULT_TIME_MS,
        expiry - state.waiting_since >= BMS_WATCHDOG_FAULT_TIME_MS,
        forall|i: int| 0 <= i < late.len() ==> #[trigger] late[i] - expiry
            < BMS_WATCHDOG_FAULT_TIME_MS,
    ensures
        faults_raised(state, timers(early).push(WatchdogEvent::Timer(expiry)) + timers(late))
            == 1,
    decreases early.len(),
{
    let events: Seq<WatchdogEvent> = timers(early).push(WatchdogEvent::Timer(expiry)) + timers(
        late,
    );
    if early.len() == 0 {
        assert(events[0] == WatchdogEvent::Timer(expiry));
        assert(events.drop_first() =~= timers(late));
        lemma_timers_in_window_raise_none(state.after(events[0]), late);
    } else {
        let rest: Seq<u64> = early.drop_first();
        assert(events[0] == WatchdogEvent::Timer(early[0]));
        assert(events.drop_first() =~= timers(rest).push(WatchdogEvent::Timer(expiry)) + timers(
            late,
        ));
        assert forall|i: int| 0 <= i < rest.len() implies #[trigger] rest[i]
            - state.waiting_since < BMS_WATCHDOG_FAULT_TIME_MS by {
            assert(rest[i] == early[i + 1]);
        }
        lemma_silence_raises_exactly_one(state, rest, expiry, late);
    }
}

/// Timer events at the given times.
pub open spec fn timers(times: Seq<u64>) -> Seq<WatchdogEvent> {
    Seq::new(times.len(), |i: int| WatchdogEvent::Timer(times[i]))
}

/// Timers that all look less than a window after the wait began raise
/// nothing and leave the wait running.
pub proof fn lemma_timers_in_window_raise_none(state: WatchdogState, times: Seq<u64>)
    requires
        forall|i: int|
            0 <= i < times.len() ==> #[trigger] times[i] - state.waiting_since
                < BMS_WATCHDOG_FAULT_TIME_MS,
    ensures
        faults_raised(state, timers(times)) == 0,
    decreases times.len(),
{
    if times.len() > 0 {
        let rest: Seq<u64> = times.drop_first();
        assert(timers(times)[0] == WatchdogEvent::Timer(times[0]));
        assert(timers(times).drop_first() =~= timers(rest));
        assert forall|i: int| 0 <= i < rest.len() implies #[trigger] rest[i]
            - state.waiting_since < BMS_WATCHDOG_FAULT_TIME_MS by {
            assert(rest[i] == times[i + 1]);
        }
        lemma_timers_in_window_raise_none(state, rest);
    }
}

} // verus!
