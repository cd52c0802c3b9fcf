use real_time_project::mode::{Mode, ModeMonitor};
use real_time_project::ref_mode::{RefMode, RefModeMonitor};

#[test]
fn mode_monitor_starts_off() {
    let monitor = ModeMonitor::new();
    assert_eq!(monitor.get_mode(), Mode::OFF);
}

#[test]
fn mode_monitor_returns_last_set_mode() {
    let mut monitor = ModeMonitor::new();
    monitor.set_mode(Mode::BALL);
    assert_eq!(monitor.get_mode(), Mode::BALL);
    monitor.set_mode(Mode::BEAM);
    assert_eq!(monitor.get_mode(), Mode::BEAM);
    monitor.set_mode(Mode::BEAM);
    assert_eq!(monitor.get_mode(), Mode::BEAM);
}

#[test]
fn ref_mode_monitor_holds_given_mode() {
    let monitor = RefModeMonitor::new(RefMode::OPTIMAL);
    assert_eq!(*monitor.get_ref(), RefMode::OPTIMAL);
}

#[test]
fn ref_mode_monitor_set_mode() {
    let mut monitor = RefModeMonitor::new(RefMode::MANUAL);
    monitor.set_mode(RefMode::SQUARE);
    assert_eq!(*monitor.get_ref(), RefMode::SQUARE);
}
