use cerberus::bms::{BmsWatchdog, WatchdogEvent, BMS_WATCHDOG_FAULT_TIME_MS};
use cerberus::FaultCode;

#[test]
fn watchdog_window_is_four_seconds() {
    assert_eq!(BMS_WATCHDOG_FAULT_TIME_MS, 4000);
    assert_eq!(BmsWatchdog::new(250).deadline(), 4250);
    assert_eq!(BmsWatchdog::new(u64::MAX - 5).deadline(), u64::MAX);
}

#[test]
fn silence_for_the_window_raises_exactly_one_fault() {
    let mut watchdog = BmsWatchdog::new(0);
    let mut raised = 0;
    for now in [1000, 2000, 3999, 4000, 4001, 5000, 7999] {
        if let Some(fault) = watchdog.on_event(WatchdogEvent::Timer(now)) {
            assert_eq!(fault, FaultCode::BmsCanMonitorFault);
            assert_eq!(now, 4000);
            raised += 1;
        }
    }
    assert_eq!(raised, 1);
    assert_eq!(watchdog.deadline(), 8000);
}

#[test]
fn continued_silence_raises_again_a_window_later() {
    let mut watchdog = BmsWatchdog::new(0);
    assert_eq!(
        watchdog.on_event(WatchdogEvent::Timer(4000)),
        Some(FaultCode::BmsCanMonitorFault)
    );
    assert_eq!(watchdog.on_event(WatchdogEvent::Timer(7999)), None);
    assert_eq!(
        watchdog.on_event(WatchdogEvent::Timer(8000)),
        Some(FaultCode::BmsCanMonitorFault)
    );
}

#[test]
fn liveness_in_time_raises_nothing() {
    let mut watchdog = BmsWatchdog::new(0);
    let mut now = 0;
    for _ in 0..50 {
        now += 3999;
        assert_eq!(watchdog.on_event(WatchdogEvent::Timer(now)), None);
        assert_eq!(watchdog.on_event(WatchdogEvent::Liveness(now)), None);
        assert_eq!(watchdog.deadline(), now + 4000);
    }
}

#[test]
fn liveness_frame_only_restarts_the_wait() {
    let mut watchdog = BmsWatchdog::new(0);
    assert_eq!(watchdog.on_event(WatchdogEvent::Liveness(3000)), None);
    assert_eq!(watchdog.on_event(WatchdogEvent::Timer(4000)), None);
    assert_eq!(watchdog.on_event(WatchdogEvent::Timer(6999)), None);
    assert_eq!(
        watchdog.on_event(WatchdogEvent::Timer(7000)),
        Some(FaultCode::BmsCanMonitorFault)
    );
}

#[test]
fn late_liveness_frame_raises_nothing_by_itself() {
    let mut watchdog = BmsWatchdog::new(0);
    assert_eq!(watchdog.on_event(WatchdogEvent::Liveness(9000)), None);
    assert_eq!(watchdog.on_event(WatchdogEvent::Timer(9001)), None);
}

#[test]
fn timer_before_the_wait_began_raises_nothing() {
    let mut watchdog = BmsWatchdog::new(10_000);
    assert_eq!(watchdog.on_event(WatchdogEvent::Timer(0)), None);
    assert_eq!(watchdog.deadline(), 14_000);
}
