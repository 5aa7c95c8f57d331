use cerberus::fault::{
    status_frame, FaultManager, SEND_STATUS_MSG_TIME_MS, STATUS_MSG_ID, UNFAULT_TIME_MS,
};
use cerberus::frame::{Id, StandardId};
use cerberus::{FaultCode, FaultSeverity, FunctionalType, StateTransition};

const FAULTED: Option<StateTransition> =
    Some(StateTransition::Functional(FunctionalType::FAULTED));
const READY: Option<StateTransition> = Some(StateTransition::Functional(FunctionalType::READY));

#[test]
fn severity_table_is_fixed() {
    assert_eq!(FaultCode::FaultsClear.get_severity(), FaultSeverity::Defcon5);
    assert_eq!(FaultCode::BmsCanMonitorFault.get_severity(), FaultSeverity::Defcon4);
    assert_eq!(FaultCode::BmsCanMonitorFault.get_severity(), FaultSeverity::Defcon4);
}

#[test]
fn clear_code_is_least_urgent() {
    let clear = FaultCode::FaultsClear.get_severity().level();
    assert_eq!(clear, 5);
    for code in [FaultCode::FaultsClear, FaultCode::BmsCanMonitorFault] {
        assert!(code.get_severity().level() <= clear);
        assert!(code.get_severity().level() >= 1);
    }
}

#[test]
fn severity_levels_run_from_one_to_five() {
    assert_eq!(FaultSeverity::Defcon1.level(), 1);
    assert_eq!(FaultSeverity::Defcon2.level(), 2);
    assert_eq!(FaultSeverity::Defcon3.level(), 3);
    assert_eq!(FaultSeverity::Defcon4.level(), 4);
    assert_eq!(FaultSeverity::Defcon5.level(), 5);
}

#[test]
fn severities_one_to_three_are_critical() {
    assert!(FaultSeverity::Defcon1.critical());
    assert!(FaultSeverity::Defcon2.critical());
    assert!(FaultSeverity::Defcon3.critical());
    assert!(!FaultSeverity::Defcon4.critical());
    assert!(!FaultSeverity::Defcon5.critical());
}

#[test]
fn fault_codes_have_their_numbers() {
    assert_eq!(FaultCode::FaultsClear.code(), 0x0);
    assert_eq!(FaultCode::BmsCanMonitorFault.code(), 0x800);
}

#[test]
fn manager_starts_clear() {
    let mut manager = FaultManager::new();
    assert_eq!(manager.last_fault(), FaultCode::FaultsClear);
    assert_eq!(manager.last_severity(), FaultSeverity::Defcon5);
    let outcome = manager.on_tick(0);
    assert_eq!(outcome.transition, None);
    assert_eq!(outcome.status.data(), &[0, 0, 0, 0, 5]);
}

#[test]
fn status_frame_carries_code_then_severity() {
    let frame = status_frame(FaultCode::BmsCanMonitorFault, FaultSeverity::Defcon4);
    assert_eq!(frame.id(), Id::Standard(StandardId::new(0x502).unwrap()));
    assert_eq!(frame.data(), &[0x00, 0x00, 0x08, 0x00, 0x04]);
    assert_eq!(STATUS_MSG_ID, 0x502);
}

#[test]
fn status_frame_is_sent_on_every_tick_even_when_unchanged() {
    let mut manager = FaultManager::new();
    assert_eq!(manager.on_fault(FaultCode::BmsCanMonitorFault, 10), None);
    let mut now = 10;
    for _ in 0..40 {
        now += SEND_STATUS_MSG_TIME_MS;
        let outcome = manager.on_tick(now);
        assert_eq!(outcome.transition, None);
        assert_eq!(outcome.status.data(), &[0x00, 0x00, 0x08, 0x00, 0x04]);
    }
    assert_eq!(manager.last_fault(), FaultCode::BmsCanMonitorFault);
}

#[test]
fn non_critical_fault_changes_no_state() {
    let mut manager = FaultManager::new();
    assert_eq!(manager.on_fault(FaultCode::BmsCanMonitorFault, 100), None);
    assert_eq!(manager.last_fault(), FaultCode::BmsCanMonitorFault);
    assert_eq!(manager.on_tick(100 + UNFAULT_TIME_MS + 1).transition, None);
    assert_eq!(manager.last_fault(), FaultCode::BmsCanMonitorFault);
}

#[test]
fn explicit_clear_is_only_recorded() {
    let mut manager = FaultManager::new();
    manager.on_fault(FaultCode::BmsCanMonitorFault, 100);
    assert_eq!(manager.on_fault(FaultCode::FaultsClear, 200), None);
    assert_eq!(manager.last_fault(), FaultCode::FaultsClear);
    assert_eq!(manager.on_tick(300).status.data(), &[0, 0, 0, 0, 5]);
}

#[test]
fn critical_fault_faults_the_vehicle() {
    for severity in [FaultSeverity::Defcon1, FaultSeverity::Defcon2, FaultSeverity::Defcon3] {
        let mut manager = FaultManager::new();
        assert_eq!(manager.record(FaultCode::BmsCanMonitorFault, severity, 1000), FAULTED);
        assert_eq!(manager.last_severity(), severity);
    }
    for severity in [FaultSeverity::Defcon4, FaultSeverity::Defcon5] {
        let mut manager = FaultManager::new();
        assert_eq!(manager.record(FaultCode::BmsCanMonitorFault, severity, 1000), None);
    }
}

#[test]
fn critical_fault_then_silence_clears_exactly_once() {
    let mut manager = FaultManager::new();
    assert_eq!(
        manager.record(FaultCode::BmsCanMonitorFault, FaultSeverity::Defcon2, 1000),
        FAULTED
    );
    let mut ready = 0;
    let mut now = 1000;
    while now < 1000 + 4 * UNFAULT_TIME_MS {
        now += SEND_STATUS_MSG_TIME_MS;
        let outcome = manager.on_tick(now);
        if outcome.transition.is_some() {
            assert_eq!(outcome.transition, READY);
            assert_eq!(now, 1000 + UNFAULT_TIME_MS + SEND_STATUS_MSG_TIME_MS);
            assert_eq!(outcome.status.data(), &[0, 0, 0, 0, 5]);
            ready += 1;
        }
    }
    assert_eq!(ready, 1);
    assert_eq!(manager.last_fault(), FaultCode::FaultsClear);
    assert_eq!(manager.last_severity(), FaultSeverity::Defcon5);
}

#[test]
fn window_must_be_exceeded_not_met() {
    let mut manager = FaultManager::new();
    manager.record(FaultCode::BmsCanMonitorFault, FaultSeverity::Defcon1, 1000);
    let at_window = manager.on_tick(1000 + UNFAULT_TIME_MS);
    assert_eq!(at_window.transition, None);
    assert_eq!(at_window.status.data(), &[0x00, 0x00, 0x08, 0x00, 0x01]);
    assert_eq!(manager.on_tick(1000 + UNFAULT_TIME_MS + 1).transition, READY);
}

#[test]
fn new_critical_fault_restarts_the_window() {
    let mut manager = FaultManager::new();
    manager.record(FaultCode::BmsCanMonitorFault, FaultSeverity::Defcon3, 0);
    assert_eq!(manager.on_tick(4900).transition, None);
    assert_eq!(
        manager.record(FaultCode::BmsCanMonitorFault, FaultSeverity::Defcon3, 4950),
        FAULTED
    );
    assert_eq!(manager.on_tick(5001).transition, None);
    assert_eq!(manager.on_tick(9950).transition, None);
    assert_eq!(manager.last_severity(), FaultSeverity::Defcon3);
    assert_eq!(manager.on_tick(9951).transition, READY);
    assert_eq!(manager.on_tick(20000).transition, None);
}

#[test]
fn tick_before_the_fault_time_clears_nothing() {
    let mut manager = FaultManager::new();
    manager.record(FaultCode::BmsCanMonitorFault, FaultSeverity::Defcon1, 10_000);
    assert_eq!(manager.on_tick(0).transition, None);
    assert_eq!(manager.last_severity(), FaultSeverity::Defcon1);
}
