use cerberus::state_machine::{
    Effects, Interlocks, Rejection, StateError, StateMachine,
};
use cerberus::{FunctionalType, NeroType, PduCommand, StateTransition};

fn at_rest() -> Interlocks {
    Interlocks { speed: 0, brake: true, ts_energized: true }
}

#[test]
fn ready_to_performance_sounds_then_pumps() {
    let mut machine = StateMachine::new();
    let outcome = machine.handle(StateTransition::Functional(FunctionalType::FPerformance), at_rest());
    assert_eq!(
        outcome,
        Ok(Effects {
            commands: vec![
                PduCommand::SoundRtds,
                PduCommand::WritePump(true),
                PduCommand::WriteFault(true),
            ],
            follow_up: None,
        })
    );
    assert_eq!(machine.functional_state(), FunctionalType::FPerformance);
    assert_eq!(machine.nero_state(), NeroType::OFF);
}

#[test]
fn ready_to_performance_without_brake_is_rejected() {
    let mut machine = StateMachine::new();
    let regs = Interlocks { speed: 0, brake: false, ts_energized: true };
    let outcome = machine.handle(StateTransition::Functional(FunctionalType::FPerformance), regs);
    assert_eq!(outcome, Err(StateError::Rejected(Rejection::NoBrakeOrTs)));
    assert_eq!(machine.functional_state(), FunctionalType::READY);
}

const ALL_STATES: [FunctionalType; 6] = [
    FunctionalType::READY,
    FunctionalType::FPit,
    FunctionalType::FPerformance,
    FunctionalType::FEfficiency,
    FunctionalType::REVERSE,
    FunctionalType::FAULTED,
];

const ACTIVE_STATES: [FunctionalType; 3] =
    [FunctionalType::FPit, FunctionalType::FPerformance, FunctionalType::FEfficiency];

/// Drives a new machine into `state` by requests that are always accepted.
fn machine_in(state: FunctionalType) -> StateMachine {
    let mut machine = StateMachine::new();
    let path: Vec<FunctionalType> = match state {
        FunctionalType::READY => vec![],
        FunctionalType::REVERSE => vec![FunctionalType::FPit, FunctionalType::REVERSE],
        other => vec![other],
    };
    for step in path {
        machine.handle(StateTransition::Functional(step), at_rest()).unwrap();
    }
    assert_eq!(machine.functional_state(), state);
    machine
}

#[test]
fn machine_starts_ready_with_drive_mode_off() {
    let machine = StateMachine::new();
    assert_eq!(machine.functional_state(), FunctionalType::READY);
    assert_eq!(machine.nero_state(), NeroType::OFF);
}

#[test]
fn reverse_is_entered_from_pit_only() {
    for state in ALL_STATES {
        let mut machine = machine_in(state);
        let outcome = machine.handle(StateTransition::Functional(FunctionalType::REVERSE), at_rest());
        if state == FunctionalType::FPit {
            assert_eq!(outcome, Ok(Effects { commands: vec![], follow_up: None }));
            assert_eq!(machine.functional_state(), FunctionalType::REVERSE);
        } else {
            assert_eq!(outcome, Err(StateError::Rejected(Rejection::NotInPit)));
            assert_eq!(machine.functional_state(), state);
        }
    }
}

#[test]
fn reverse_from_pit_ignores_the_registers() {
    let mut machine = machine_in(FunctionalType::FPit);
    let regs = Interlocks { speed: 30, brake: false, ts_energized: false };
    let outcome = machine.handle(StateTransition::Functional(FunctionalType::REVERSE), regs);
    assert_eq!(outcome, Ok(Effects { commands: vec![], follow_up: None }));
}

#[test]
fn ready_needs_the_vehicle_at_rest() {
    for state in ALL_STATES {
        let mut machine = machine_in(state);
        let moving = Interlocks { speed: 2, brake: true, ts_energized: true };
        assert_eq!(
            machine.handle(StateTransition::Functional(FunctionalType::READY), moving),
            Err(StateError::Rejected(Rejection::Moving))
        );
        assert_eq!(machine.functional_state(), state);
        let slow = Interlocks { speed: 1, brake: false, ts_energized: false };
        assert_eq!(
            machine.handle(StateTransition::Functional(FunctionalType::READY), slow),
            Ok(Effects {
                commands: vec![PduCommand::WritePump(false), PduCommand::WriteFault(true)],
                follow_up: None,
            })
        );
        assert_eq!(machine.functional_state(), FunctionalType::READY);
    }
}

#[test]
fn active_states_need_all_three_interlocks() {
    for target in ACTIVE_STATES {
        let request = StateTransition::Functional(target);
        let mut machine = StateMachine::new();
        let moving = Interlocks { speed: 2, brake: true, ts_energized: true };
        assert_eq!(machine.handle(request, moving), Err(StateError::Rejected(Rejection::Moving)));
        let no_ts = Interlocks { speed: 0, brake: true, ts_energized: false };
        assert_eq!(
            machine.handle(request, no_ts),
            Err(StateError::Rejected(Rejection::NoBrakeOrTs))
        );
        let moving_without_brake = Interlocks { speed: 5, brake: false, ts_energized: false };
        assert_eq!(
            machine.handle(request, moving_without_brake),
            Err(StateError::Rejected(Rejection::Moving))
        );
        assert_eq!(machine.functional_state(), FunctionalType::READY);
        let backwards = Interlocks { speed: -3, brake: true, ts_energized: true };
        assert!(machine.handle(request, backwards).is_ok());
        assert_eq!(machine.functional_state(), target);
    }
}

#[test]
fn leaving_reverse_skips_guard_and_sound() {
    for target in ACTIVE_STATES {
        let mut machine = machine_in(FunctionalType::REVERSE);
        let regs = Interlocks { speed: 12, brake: false, ts_energized: false };
        assert_eq!(
            machine.handle(StateTransition::Functional(target), regs),
            Ok(Effects {
                commands: vec![PduCommand::WritePump(true), PduCommand::WriteFault(true)],
                follow_up: None,
            })
        );
        assert_eq!(machine.functional_state(), target);
    }
}

#[test]
fn fault_preempts_every_guard() {
    for state in ALL_STATES {
        let mut machine = machine_in(state);
        let regs = Interlocks { speed: 80, brake: false, ts_energized: false };
        assert_eq!(
            machine.handle(StateTransition::Functional(FunctionalType::FAULTED), regs),
            Ok(Effects {
                commands: vec![PduCommand::WritePump(false), PduCommand::WriteFault(false)],
                follow_up: Some(StateTransition::Nero(NeroType::OFF)),
            })
        );
        assert_eq!(machine.functional_state(), FunctionalType::FAULTED);
    }
}

#[test]
fn drive_mode_request_is_a_configuration_error() {
    let modes = [
        NeroType::OFF,
        NeroType::PIT,
        NeroType::PERFORMANCE,
        NeroType::EFFICIENCY,
        NeroType::DEBUG,
        NeroType::CONFIGURATION,
        NeroType::FlappyBird,
        NeroType::EXIT,
    ];
    for mode in modes {
        let mut machine = machine_in(FunctionalType::FPit);
        assert_eq!(
            machine.handle(StateTransition::Nero(mode), at_rest()),
            Err(StateError::DriveModeUnsupported(mode))
        );
        assert_eq!(machine.functional_state(), FunctionalType::FPit);
        assert_eq!(machine.nero_state(), NeroType::OFF);
    }
}
