//! The fault manager: it latches the most recent fault, tells the state
//! machine when the vehicle must fault and when it may be ready again, and
//! broadcasts the latch on every tick.

use vstd::prelude::*;
use crate::encoding::{be_bytes_of_u32, u32_to_be_bytes};
use crate::frame::{BusFrame, FrameContent, Id, RawId, StandardId};
use crate::state_machine::{FunctionalType, StateTransition};

verus! {

/// Identifier of the status broadcast.
pub const STATUS_MSG_ID: u16 = 0x502;

/// How long a critical fault must have been silent before the vehicle is
/// ready again, in milliseconds.
pub const UNFAULT_TIME_MS: u64 = 5000;

/// Period of the status broadcast, in milliseconds.
pub const SEND_STATUS_MSG_TIME_MS: u64 = 250;

/// Urgency of a fault: `Defcon1` is the most severe, `Defcon5` means that all
/// is clear.
#[derive(Clone, Copy, Debug, PartialEq, Eq, Structural)]
pub enum FaultSeverity {
    Defcon1,
    Defcon2,
    Defcon3,
    Defcon4,
    Defcon5,
}

impl FaultSeverity {
    /// The severity as a number from 1 to 5.
    pub open spec fn level_of(self) -> u8 {
        match self {
            FaultSeverity::Defcon1 => 1,
            FaultSeverity::Defcon2 => 2,
            FaultSeverity::Defcon3 => 3,
            FaultSeverity::Defcon4 => 4,
            FaultSeverity::Defcon5 => 5,
        }
    }

    /// A critical fault is one of severity 1, 2 or 3: it faults the vehicle.
    pub open spec fn is_critical(self) -> bool {
        self.level_of() <= 3
    }

    /// The severity as a number from 1 to 5.
    pub fn level(&self) -> (n: u8)
        ensures
            n == self.level_of(),
            1 <= n <= 5,
    {
        match self {
            FaultSeverity::Defcon1 => 1,
            FaultSeverity::Defcon2 => 2,
            FaultSeverity::Defcon3 => 3,
            FaultSeverity::Defcon4 => 4,
            FaultSeverity::Defcon5 => 5,
        }
    }

    /// Whether a fault of this severity faults the vehicle.
    pub fn critical(&self) -> (c: bool)
        ensures
            c == self.is_critical(),
    {
        match self {
            FaultSeverity::Defcon1 | FaultSeverity::Defcon2 | FaultSeverity::Defcon3 => true,
            FaultSeverity::Defcon4 | FaultSeverity::Defcon5 => false,
        }
    }
}

/// The faults that the controller knows.
#[derive(Clone, Copy, Debug, PartialEq, Eq, Structural)]
pub enum FaultCode {
    /// No fault.
    FaultsClear,
    /// The battery management system has gone silent on the bus.
    BmsCanMonitorFault,
}

impl FaultCode {
    /// The fixed table from fault code to severity.
    pub open spec fn severity(self) -> FaultSeverity {
        match self {
            FaultCode::FaultsClear => FaultSeverity::Defcon5,
            FaultCode::BmsCanMonitorFault => FaultSeverity::Defcon4,
        }
    }

    /// The number that stands for the code on the bus.
    pub open spec fn number(self) -> u32 {
        match self {
            FaultCode::FaultsClear => 0x0,
            FaultCode::BmsCanMonitorFault => 0x800,
        }
    }

    /// Looks the severity of the code up in the table.
    pub fn get_severity(&self) -> (severity: FaultSeverity)
        ensures
            severity == self.severity(),
    {
        match self {
            FaultCode::FaultsClear => FaultSeverity::Defcon5,
            FaultCode::BmsCanMonitorFault => FaultSeverity::Defcon4,
        }
    }

    /// The number that stands for the code on the bus.
    pub fn code(&self) -> (n: u32)
        ensures
            n == self.number(),
    {
        match self {
            FaultCode::FaultsClear => 0x0,
            FaultCode::BmsCanMonitorFault => 0x800,
        }
    }
}

/// Every code has a severity between 1 and 5, and no code is less urgent
/// than the clear code, which has severity 5.
pub proof fn lemma_clear_is_least_urgent(code: FaultCode)
    ensures
        FaultCode::FaultsClear.severity() == FaultSeverity::Defcon5,
        1 <= code.severity().level_of() <= FaultCode::FaultsClear.severity().level_of(),
        !FaultCode::FaultsClear.severity().is_critical(),
{
}

/// The payload of the status frame: the fault code as four bytes, most
/// significant first, then the severity as one byte. The code and the
/// severity never share a byte.
pub open spec fn status_payload(code: FaultCode, severity: FaultSeverity) -> Seq<u8> {
    be_bytes_of_u32(code.number()).push(severity.level_of())
}

/// What the fault manager remembers.
pub struct FaultLatch {
    /// The most recent fault.
    pub code: FaultCode,
    /// The severity under which it was recorded.
    pub severity: FaultSeverity,
    /// When the most recent critical fault was recorded, in milliseconds.
    pub since: u64,
}

impl FaultLatch {
    /// The latch at boot: clear.
    pub open spec fn initial() -> FaultLatch {
        FaultLatch { code: FaultCode::FaultsClear, severity: FaultSeverity::Defcon5, since: 0 }
    }

    /// The latch after a fault of the given severity has been recorded at
    /// time `now`. Only a critical fault restarts the window.
    pub open spec fn record(self, code: FaultCode, severity: FaultSeverity, now: u64)
        -> FaultLatch {
        FaultLatch {
            code,
            severity,
            since: if severity.is_critical() {
                now
            } else {
                self.since
            },
        }
    }

    /// The latch holds a critical fault that has been silent for longer than
    /// the window.
    pub open spec fn expired(self, now: u64) -> bool {
        self.severity.is_critical() && now - self.since > UNFAULT_TIME_MS
    }

    /// The latch after the tick at time `now`.
    pub open spec fn tick(self, now: u64) -> FaultLatch {
        if self.expired(now) {
            FaultLatch {
                code: FaultCode::FaultsClear,
                severity: FaultSeverity::Defcon5,
                since: self.since,
            }
        } else {
            self
        }
    }

    /// The status frame that tells of the latch.
    pub open spec fn status(self) -> FrameContent {
        FrameContent {
            id: RawId::Standard(STATUS_MSG_ID),
            payload: status_payload(self.code, self.severity),
        }
    }
}

/// What the state machine is told when a fault of the given severity is
/// recorded.
pub open spec fn fault_signal(severity: FaultSeverity) -> Option<StateTransition> {
    if severity.is_critical() {
        Some(StateTransition::Functional(FunctionalType::FAULTED))
    } else {
        None
    }
}

/// What the state machine is told at the tick at time `now`.
pub open spec fn tick_signal(latch: FaultLatch, now: u64) -> Option<StateTransition> {
    if latch.expired(now) {
        Some(StateTransition::Functional(FunctionalType::READY))
    } else {
        None
    }
}

/// What a tick produces.
#[derive(Debug, PartialEq, Eq)]
pub struct TickOutcome {
    /// The request to the state machine, if the vehicle may be ready again.
    pub transition: Option<StateTransition>,
    /// The status frame to broadcast.
    pub status: BusFrame,
}

/// The fault manager.
#[derive(Debug)]
pub struct FaultManager {
    last_fault: FaultCode,
    last_severity: FaultSeverity,
    last_fault_time: u64,
}

impl View for FaultManager {
    type V = FaultLatch;

    closed spec fn view(&self) -> FaultLatch {
        FaultLatch {
            code: self.last_fault,
            severity: self.last_severity,
            since: self.last_fault_time,
        }
    }
}

impl FaultManager {
    /// The fault manager at boot, with a clear latch.
    pub fn new() -> (manager: FaultManager)
        ensures
            manager@ == FaultLatch::initial(),
    {
        FaultManager {
            last_fault: FaultCode::FaultsClear,
            last_severity: FaultSeverity::Defcon5,
            last_fault_time: 0,
        }
    }

    /// The fault in the latch.
    pub fn last_fault(&self) -> (code: FaultCode)
        ensures
            code == self@.code,
    {
        self.last_fault
    }

    /// The severity of the fault in the latch.
    pub fn last_severity(&self) -> (severity: FaultSeverity)
        ensures
            severity == self@.severity,
    {
        self.last_severity
    }

    /// Records a fault under a severity that the caller has looked up. A
    /// critical fault restarts the window at `now` and asks the state machine
    /// to fault; any other fault only replaces what is in the latch.
    pub fn record(&mut self, code: FaultCode, severity: FaultSeverity, now: u64) -> (signal:
        Option<StateTransition>)
        ensures
            final(self)@ == old(self)@.record(code, severity, now),
            signal == fault_signal(severity),
    {
        self.last_fault = code;
        self.last_severity = severity;
        if severity.critical() {
            self.last_fault_time = now;
            Some(StateTransition::Functional(FunctionalType::FAULTED))
        } else {
            None
        }
    }

    /// Takes in a new fault at time `now`, under the severity that the table
    /// gives it.
    pub fn on_fault(&mut self, code: FaultCode, now: u64) -> (signal: Option<StateTransition>)
        ensures
            final(self)@ == old(self)@.record(code, code.severity(), now),
            signal == fault_signal(code.severity()),
    {
        let severity: FaultSeverity = code.get_severity();
        self.record(code, severity, now)
    }

    /// The periodic tick at time `now`. Where the latch holds a critical
    /// fault that has been silent for longer than the window, the latch is
    /// cleared and the state machine is asked to be ready. The status frame
    /// is made on every tick, from the latch as the tick leaves it.
    pub fn on_tick(&mut self, now: u64) -> (outcome: TickOutcome)
        ensures
            final(self)@ == old(self)@.tick(now),
            outcome.transition == tick_signal(old(self)@, now),
            outcome.status@ == final(self)@.status(),
    {
        let mut transition: Option<StateTransition> = None;
        if self.last_severity.critical() && now > self.last_fault_time && now
            - self.last_fault_time > UNFAULT_TIME_MS {
            self.last_fault = FaultCode::FaultsClear;
            self.last_severity = FaultSeverity::Defcon5;
            transition = Some(StateTransition::Functional(FunctionalType::READY));
        }
        let status: BusFrame = status_frame(self.last_fault, self.last_severity);
        TickOutcome { transition, status }
    }
}

/// Makes the status frame for a fault code and its severity.
pub fn status_frame(code: FaultCode, severity: FaultSeverity) -> (frame: BusFrame)
    ensures
        frame@.id == RawId::Standard(STATUS_MSG_ID),
        frame@.payload == status_payload(code, severity),
{
    let number: [u8; 4] = u32_to_be_bytes(code.code());
    let bytes: [u8; 5] = [number[0], number[1], number[2], number[3], severity.level()];
    assert(bytes@ =~= status_payload(code, severity));
    let id: StandardId = StandardId::new(STATUS_MSG_ID).unwrap();
    BusFrame::new_data(Id::Standard(id), bytes.as_slice()).unwrap()
}

/// The latch after ticks at the given times, taken in order.
pub open spec fn after_ticks(latch: FaultLatch, ticks: Seq<u64>) -> FaultLatch
    decreases ticks.len(),
{
    if ticks.len() == 0 {
        latch
    } else {
        after_ticks(latch.tick(ticks[0]), ticks.drop_first())
    }
}

/// How often the state machine is asked to be ready by ticks at the given
/// times, taken in order.
pub open spec fn ready_signals(latch: FaultLatch, ticks: Seq<u64>) -> nat
    decreases ticks.len(),
{
    if ticks.len() == 0 {
        0
    } else {
        let first: nat = if tick_signal(latch, ticks[0]) is Some {
            1
        } else {
            0
        };
        first + ready_signals(latch.tick(ticks[0]), ticks.drop_first())
    }
}

/// One of the ticks comes later than the window after the latch's fault.
pub open spec fn outlasts_window(latch: FaultLatch, ticks: Seq<u64>) -> bool {
    exists|i: int| 0 <= i < ticks.len() && #[trigger] ticks[i] - latch.since > UNFAULT_TIME_MS
}

/// While the latch holds no critical fault, ticks ask for nothing and leave
/// the latch alone.
pub proof fn lemma_quiet_latch_stays(latch: FaultLatch, ticks: Seq<u64>)
    requires
        !latch.severity.is_critical(),
    ensures
        ready_signals(latch, ticks) == 0,
        after_ticks(latch, ticks) == latch,
    decreases ticks.len(),
{
    if ticks.len() > 0 {
        lemma_quiet_latch_stays(latch, ticks.drop_first());
    }
}

/// A critical fault followed by silence: the ticks ask the state machine to
/// be ready exactly once if one of them comes later than the window after
/// the fault, and then leave the latch clear; they ask for nothing and leave
/// the latch alone if none does.
pub proof fn lemma_silence_clears_once(latch: FaultLatch, ticks: Seq<u64>)
    requires
        latch.severity.is_critical(),
    ensures
        outlasts_window(latch, ticks) ==> ready_signals(latch, ticks) == 1 && after_ticks(
            latch,
            ticks,
        ) == (FaultLatch {
            code: FaultCode::FaultsClear,
            severity: FaultSeverity::Defcon5,
            since: latch.since,
        }),
        !outlasts_window(latch, ticks) ==> ready_signals(latch, ticks) == 0 && after_ticks(
            latch,
            ticks,
        ) == latch,
    decreases ticks.len(),
{
    if ticks.len() > 0 {
        let rest: Seq<u64> = ticks.drop_first();
        if latch.expired(ticks[0]) {
            assert(ticks[0] - latch.since > UNFAULT_TIME_MS);
            lemma_quiet_latch_stays(latch.tick(ticks[0]), rest);
        } else {
            lemma_silence_clears_once(latch, rest);
            if outlasts_window(latch, rest) {
                let i: int = choose|i: int|
                    0 <= i < rest.len() && #[trigger] rest[i] - latch.since > UNFAULT_TIME_MS;
                assert(ticks[i + 1] == rest[i]);
            }
            if outlasts_window(latch, ticks) {
                let i: int = choose|i: int|
                    0 <= i < ticks.len() && #[trigger] ticks[i] - latch.since > UNFAULT_TIME_MS;
                assert(i > 0);
                assert(rest[i - 1] == ticks[i]);
            }
        }
    }
}

/// Whatever the latch holds, ticks ask the state machine to be ready at most
/// once.
pub proof fn lemma_ready_at_most_once(latch: FaultLatch, ticks: Seq<u64>)
    ensures
        ready_signals(latch, ticks) <= 1,
{
    if latch.severity.is_critical() {
        lemma_silence_clears_once(latch, ticks);
    } else {
        lemma_quiet_latch_stays(latch, ticks);
    }
}

/// A new critical fault restarts the window: ticks that come no later than
/// the window after the new fault ask for nothing and leave the new fault in
/// the latch, however long ago the fault before it was.
pub proof fn lemma_new_fault_restarts_window(
    latch: FaultLatch,
    code: FaultCode,
    severity: FaultSeverity,
    now: u64,
    ticks: Seq<u64>,
)
    requires
        severity.is_critical(),
        forall|i: int| 0 <= i < ticks.len() ==> #[trigger] ticks[i] - now <= UNFAULT_TIME_MS,
    ensures
        fault_signal(severity) == Some(StateTransition::Functional(FunctionalType::FAULTED)),
        ready_signals(latch.record(code, severity, now), ticks) == 0,
        after_ticks(latch.record(code, severity, now), ticks) == (FaultLatch {
            code,
            severity,
            since: now,
        }),
{
    lemma_silence_clears_once(latch.record(code, severity, now), ticks);
}

} // verus!
