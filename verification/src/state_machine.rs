//! The vehicle state machine: the one place where the functional state
//! changes. Each request is checked against the interlocks and answered with
//! the actuator commands to send, or with the reason it was turned down.

use vstd::prelude::*;

verus! {

/// Highest speed at which the vehicle counts as standing still.
pub const SPEED_THRESHOLD: i32 = 1;

/// The functional state of the vehicle.
#[allow(non_camel_case_types)]
#[derive(Clone, Copy, Debug, PartialEq, Eq, Structural)]
pub enum FunctionalType {
    READY,
    /// Pit: speed limited.
    FPit,
    /// Performance: autocross.
    FPerformance,
    /// Efficiency: endurance.
    FEfficiency,
    REVERSE,
    FAULTED,
}

/// The drive mode shown to the driver.
#[allow(non_camel_case_types)]
#[derive(Clone, Copy, Debug, PartialEq, Eq, Structural)]
pub enum NeroType {
    OFF,
    PIT,
    PERFORMANCE,
    EFFICIENCY,
    DEBUG,
    CONFIGURATION,
    FlappyBird,
    EXIT,
}

/// A request to change one of the two states.
#[derive(Clone, Copy, Debug, PartialEq, Eq, Structural)]
pub enum StateTransition {
    Functional(FunctionalType),
    Nero(NeroType),
}

/// A command to the power distribution outputs. Commands are sent and
/// forgotten: nothing is acknowledged.
#[derive(Clone, Copy, Debug, PartialEq, Eq, Structural)]
pub enum PduCommand {
    WritePump(bool),
    WriteBrakelight(bool),
    WriteFault(bool),
    SoundRtds,
}

/// The shared registers that the interlocks read, as sampled for one request.
#[derive(Clone, Copy, Debug, PartialEq, Eq, Structural)]
pub struct Interlocks {
    /// Vehicle speed in miles per hour.
    pub speed: i32,
    /// The brake is engaged.
    pub brake: bool,
    /// The traction system is energized.
    pub ts_energized: bool,
}

/// The interlock that turned a request down.
#[derive(Clone, Copy, Debug, PartialEq, Eq, Structural)]
pub enum Rejection {
    /// The vehicle is moving faster than the threshold.
    Moving,
    /// The brake is not engaged or the traction system is not energized.
    NoBrakeOrTs,
    /// Reverse was asked for from a state other than pit.
    NotInPit,
}

/// Why a request changed nothing.
#[derive(Clone, Copy, Debug, PartialEq, Eq, Structural)]
pub enum StateError {
    /// An interlock turned the request down.
    Rejected(Rejection),
    /// Drive mode changes have no behaviour yet: asking for one is a
    /// configuration error.
    DriveModeUnsupported(NeroType),
}

/// What an accepted request sets in motion.
#[derive(Debug, PartialEq, Eq)]
pub struct Effects {
    /// The commands to send, in this order.
    pub commands: Vec<PduCommand>,
    /// A request that the state machine makes of itself, to be queued like
    /// any other.
    pub follow_up: Option<StateTransition>,
}

/// The two states that the machine owns.
pub struct MachineState {
    pub functional: FunctionalType,
    pub nero: NeroType,
}

/// Pit, performance and efficiency are the states in which the vehicle
/// drives forward.
pub open spec fn is_active(target: FunctionalType) -> bool {
    target == FunctionalType::FPit || target == FunctionalType::FPerformance || target
        == FunctionalType::FEfficiency
}

/// The interlock that stands in the way of going from `current` to `target`,
/// if any does.
pub open spec fn interlock(current: FunctionalType, target: FunctionalType, regs: Interlocks)
    -> Option<Rejection> {
    match target {
        FunctionalType::READY => if regs.speed > SPEED_THRESHOLD {
            Some(Rejection::Moving)
        } else {
            None
        },
        FunctionalType::FPit | FunctionalType::FPerformance | FunctionalType::FEfficiency => {
            if current == FunctionalType::REVERSE {
                None
            } else if regs.speed > SPEED_THRESHOLD {
                Some(Rejection::Moving)
            } else if !regs.brake || !regs.ts_energized {
                Some(Rejection::NoBrakeOrTs)
            } else {
                None
            }
        },
        FunctionalType::REVERSE => if current == FunctionalType::FPit {
            None
        } else {
            Some(Rejection::NotInPit)
        },
        FunctionalType::FAULTED => None,
    }
}

/// Why `request` is turned down in state `current`, or `None` where it is
/// accepted.
pub open spec fn refusal(current: FunctionalType, request: StateTransition, regs: Interlocks)
    -> Option<StateError> {
    match request {
        StateTransition::Functional(target) => match interlock(current, target, regs) {
            Some(r) => Some(StateError::Rejected(r)),
            None => None,
        },
        StateTransition::Nero(mode) => Some(StateError::DriveModeUnsupported(mode)),
    }
}

/// The commands that an accepted change from `current` to `target` sends.
pub open spec fn commands_for(current: FunctionalType, target: FunctionalType) -> Seq<
    PduCommand,
> {
    match target {
        FunctionalType::READY => seq![PduCommand::WritePump(false), PduCommand::WriteFault(true)],
        FunctionalType::FPit | FunctionalType::FPerformance | FunctionalType::FEfficiency => {
            if current == FunctionalType::REVERSE {
                seq![PduCommand::WritePump(true), PduCommand::WriteFault(true)]
            } else {
                seq![
                    PduCommand::SoundRtds,
                    PduCommand::WritePump(true),
                    PduCommand::WriteFault(true),
                ]
            }
        },
        FunctionalType::REVERSE => Seq::empty(),
        FunctionalType::FAULTED => seq![
            PduCommand::WritePump(false),
            PduCommand::WriteFault(false),
        ],
    }
}

/// The request that an accepted change to `target` makes in turn: a fault
/// forces the drive mode off.
pub open spec fn follow_up_for(target: FunctionalType) -> Option<StateTransition> {
    if target == FunctionalType::FAULTED {
        Some(StateTransition::Nero(NeroType::OFF))
    } else {
        None
    }
}

/// The state after `request` has been handled in state `state`.
pub open spec fn next_state(state: MachineState, request: StateTransition, regs: Interlocks)
    -> MachineState {
    match request {
        StateTransition::Functional(target) => if interlock(state.functional, target, regs)
            is None {
            MachineState { functional: target, nero: state.nero }
        } else {
            state
        },
        StateTransition::Nero(_) => state,
    }
}

/// The vehicle state machine.
#[derive(Debug)]
pub struct StateMachine {
    func_state: FunctionalType,
    nero_state: NeroType,
}

impl View for StateMachine {
    type V = MachineState;

    closed spec fn view(&self) -> MachineState {
        MachineState { functional: self.func_state, nero: self.nero_state }
    }
}

impl StateMachine {
    /// The machine at boot: ready, drive mode off.
    pub fn new() -> (machine: StateMachine)
        ensures
            machine@ == (MachineState { functional: FunctionalType::READY, nero: NeroType::OFF }),
    {
        StateMachine { func_state: FunctionalType::READY, nero_state: NeroType::OFF }
    }

    /// The current functional state.
    pub fn functional_state(&self) -> (state: FunctionalType)
        ensures
            state == self@.functional,
    {
        self.func_state
    }

    /// The current drive mode.
    pub fn nero_state(&self) -> (mode: NeroType)
        ensures
            mode == self@.nero,
    {
        self.nero_state
    }

    /// Handles one request against the registers as sampled.
    ///
    /// An accepted request changes the functional state and returns the
    /// commands to send, in order, with the request that follows from it.
    /// A request that is turned down leaves the machine as it was and says
    /// why.
    pub fn handle(&mut self, request: StateTransition, regs: Interlocks) -> (outcome: Result<
        Effects,
        StateError,
    >)
        ensures
            final(self)@ == next_state(old(self)@, request, regs),
            match outcome {
                Ok(effects) => {
                    &&& refusal(old(self)@.functional, request, regs) is None
                    &&& request matches StateTransition::Functional(target)
                    &&& effects.commands@ == commands_for(old(self)@.functional, target)
                    &&& effects.follow_up == follow_up_for(target)
                },
                Err(e) => refusal(old(self)@.functional, request, regs) == Some(e),
            },
    {
        let target: FunctionalType = match request {
            StateTransition::Functional(target) => target,
            StateTransition::Nero(mode) => {
                return Err(StateError::DriveModeUnsupported(mode));
            },
        };
        let mut commands: Vec<PduCommand> = Vec::new();
        let mut follow_up: Option<StateTransition> = None;
        match target {
            FunctionalType::READY => {
                if regs.speed > SPEED_THRESHOLD {
                    return Err(StateError::Rejected(Rejection::Moving));
                }
                commands.push(PduCommand::WritePump(false));
                commands.push(PduCommand::WriteFault(true));
            },
            FunctionalType::FPit | FunctionalType::FPerformance | FunctionalType::FEfficiency => {
                if self.func_state != FunctionalType::REVERSE {
                    if regs.speed > SPEED_THRESHOLD {
                        return Err(StateError::Rejected(Rejection::Moving));
                    }
                    if !regs.brake || !regs.ts_energized {
                        return Err(StateError::Rejected(Rejection::NoBrakeOrTs));
                    }
                    commands.push(PduCommand::SoundRtds);
                }
                commands.push(PduCommand::WritePump(true));
                commands.push(PduCommand::WriteFault(true));
            },
            FunctionalType::REVERSE => {
                if self.func_state != FunctionalType::FPit {
                    return Err(StateError::Rejected(Rejection::NotInPit));
                }
            },
            FunctionalType::FAULTED => {
                commands.push(PduCommand::WritePump(false));
                commands.push(PduCommand::WriteFault(false));
                follow_up = Some(StateTransition::Nero(NeroType::OFF));
            },
        }
        assert(commands@ =~= commands_for(self.func_state, target));
        self.func_state = target;
        Ok(Effects { commands, follow_up })
    }
}

/// Reverse is entered from pit and from nowhere else, whatever the registers
/// hold.
pub proof fn lemma_reverse_only_from_pit(current: FunctionalType, regs: Interlocks)
    ensures
        refusal(current, StateTransition::Functional(FunctionalType::REVERSE), regs) is None
            <==> current == FunctionalType::FPit,
        current != FunctionalType::FPit ==> refusal(
            current,
            StateTransition::Functional(FunctionalType::REVERSE),
            regs,
        ) == Some(StateError::Rejected(Rejection::NotInPit)),
{
}

/// A fault is accepted in every state and under every reading of the
/// registers, and always switches the pump and the fault indicator off.
pub proof fn lemma_fault_preempts(state: MachineState, regs: Interlocks)
    ensures
        refusal(state.functional, StateTransition::Functional(FunctionalType::FAULTED), regs)
            is None,
        next_state(
            state,
            StateTransition::Functional(FunctionalType::FAULTED),
            regs,
        ).functional == FunctionalType::FAULTED,
        commands_for(state.functional, FunctionalType::FAULTED) == seq![
            PduCommand::WritePump(false),
            PduCommand::WriteFault(false),
        ],
{
}

/// A request that is turned down changes nothing, and an accepted one moves
/// the functional state to its target and leaves the drive mode alone.
pub proof fn lemma_refused_changes_nothing(
    state: MachineState,
    request: StateTransition,
    regs: Interlocks,
)
    ensures
        refusal(state.functional, request, regs) is Some ==> next_state(state, request, regs)
            == state,
        refusal(state.functional, request, regs) is None ==> (request
            matches StateTransition::Functional(target) && next_state(state, request, regs) == (
            MachineState { functional: target, nero: state.nero })),
{
}

/// Leaving a standstill for a forward state needs the vehicle at rest, the
/// brake engaged and the traction system energized, unless the vehicle was
/// in reverse.
pub proof fn lemma_active_needs_interlocks(
    current: FunctionalType,
    target: FunctionalType,
    regs: Interlocks,
)
    requires
        is_active(target),
    ensures
        interlock(current, target, regs) is None <==> (current == FunctionalType::REVERSE || (
            regs.speed <= SPEED_THRESHOLD && regs.brake && regs.ts_energized)),
{
}

} // verus!
