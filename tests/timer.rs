use likex::lapic::{ArbitrationOutcome, GuestMasking, Interruptibility, RkvmLapicState};
use likex::timer::{advance_deadline, TimerAction, TimerEngine, TimerMode};

fn none() -> TimerAction {
    TimerAction { cancel_software: false, cancel_hardware: false, arm_software: None }
}

#[test]
fn arm_starts_on_software_timer() {
    let mut t = TimerEngine::new();
    assert!(t.is_disarmed());
    let a = t.arm(1000, 0);
    assert_eq!(a, TimerAction { cancel_software: false, cancel_hardware: false, arm_software: Some(1000) });
    assert_eq!(t.mode, TimerMode::ArmedSoftware);
    assert_eq!(t.deadline, 1000);
    let a = t.arm(2000, 0);
    assert_eq!(a, TimerAction { cancel_software: true, cancel_hardware: false, arm_software: Some(2000) });
}

#[test]
fn restart_twice_gives_one_expiry() {
    let mut t = TimerEngine::new();
    t.arm(500, 0);
    let a = t.restart();
    assert_eq!(a.arm_software, Some(500));
    assert!(a.cancel_software);
    t.restart();
    assert_eq!(t.mode, TimerMode::ArmedSoftware);
    let e1 = t.expired(true);
    assert!(e1.notified);
    assert!(e1.wake_vcpu);
    assert_eq!(t.expired_deadline, 500);
    let e2 = t.expired(true);
    assert!(!e2.notified);
    let e3 = t.expired(false);
    assert!(!e3.notified);
    assert_eq!(t.restart(), none());
    assert!(t.pending());
}

#[test]
fn offload_and_hardware_expiry() {
    let mut t = TimerEngine::new();
    t.arm(700, 0);
    assert_eq!(t.offload_candidate(), Some(700));
    let a = t.try_offload(false);
    assert_eq!(a, none());
    assert_eq!(t.mode, TimerMode::ArmedSoftware);
    let a = t.try_offload(true);
    assert_eq!(a, TimerAction { cancel_software: true, cancel_hardware: false, arm_software: None });
    assert_eq!(t.mode, TimerMode::ArmedHardware);
    assert_eq!(t.offload_candidate(), None);
    let e = t.expired(true);
    assert!(!e.notified);
    let e = t.expired(false);
    assert!(e.notified);
    assert!(!e.wake_vcpu);
    assert!(e.action.cancel_hardware);
    assert!(t.pending());
}

#[test]
fn cancel_offload_returns_to_software() {
    let mut t = TimerEngine::new();
    t.arm(900, 0);
    t.try_offload(true);
    let a = t.cancel_offload();
    assert_eq!(a, TimerAction { cancel_software: false, cancel_hardware: true, arm_software: Some(900) });
    assert_eq!(t.mode, TimerMode::ArmedSoftware);
    assert_eq!(t.cancel_offload(), none());
}

#[test]
fn one_shot_consumed_is_disarmed() {
    let mut t = TimerEngine::new();
    t.arm(100, 0);
    t.expired(true);
    let a = t.consume(150);
    assert_eq!(a, none());
    assert!(t.is_disarmed());
    assert_eq!(t.restart(), none());
}

#[test]
fn periodic_catch_up_coalesces() {
    let mut t = TimerEngine::new();
    t.arm(100, 10);
    let e = t.expired(true);
    assert!(e.notified);
    assert!(!t.expired(true).notified);
    assert!(!t.expired(true).notified);
    let a = t.consume(130);
    assert_eq!(a.arm_software, Some(140));
    assert_eq!(t.deadline, 140);
    assert_eq!(t.mode, TimerMode::ArmedSoftware);
}

#[test]
fn periodic_on_time_moves_one_period() {
    let mut t = TimerEngine::new();
    t.arm(100, 10);
    t.expired(true);
    assert_eq!(t.consume(100).arm_software, Some(110));
    t.expired(true);
    assert_eq!(t.consume(105).arm_software, Some(120));
}

#[test]
fn advance_deadline_values() {
    assert_eq!(advance_deadline(100, 10, 130), Some(140));
    assert_eq!(advance_deadline(100, 10, 139), Some(140));
    assert_eq!(advance_deadline(100, 10, 50), Some(110));
    assert_eq!(advance_deadline(0, 1, 0), Some(1));
    assert_eq!(advance_deadline(u64::MAX - 5, 10, 0), None);
    assert_eq!(advance_deadline(0, 1, u64::MAX), None);
    assert_eq!(advance_deadline(5, 7, u64::MAX - 10), Some(u64::MAX - 3));
}

#[test]
fn periodic_past_range_is_disarmed() {
    let mut t = TimerEngine::new();
    t.arm(u64::MAX - 3, 10);
    t.expired(true);
    assert_eq!(t.consume(u64::MAX - 3), none());
    assert!(t.is_disarmed());
}

#[test]
fn consume_without_expiry_does_nothing() {
    let mut t = TimerEngine::new();
    t.arm(100, 10);
    assert_eq!(t.consume(200), none());
    assert_eq!(t.mode, TimerMode::ArmedSoftware);
    assert_eq!(t.deadline, 100);
}

#[test]
fn cancel_then_destroy() {
    let mut s = RkvmLapicState::new(0);
    s.start_apic_timer(1000, 0);
    let a = s.cancel_timer();
    assert_eq!(a, TimerAction { cancel_software: true, cancel_hardware: false, arm_software: None });
    assert!(s.timer.is_disarmed());
    let e = s.lapic_timer_expired(true);
    assert!(!e.notified);
    assert!(!s.is_pending(0xf1));
    s.destroy();
}

#[test]
fn cancel_offloaded_timer() {
    let mut t = TimerEngine::new();
    t.arm(1000, 0);
    t.try_offload(true);
    let a = t.cancel();
    assert_eq!(a, TimerAction { cancel_software: false, cancel_hardware: true, arm_software: None });
    assert!(t.is_disarmed());
}

#[test]
fn timer_expiry_raises_timer_vector() {
    let mut s = RkvmLapicState::new(0);
    s.start_apic_timer(100, 10);
    let e = s.lapic_timer_expired(true);
    assert!(e.notified);
    assert!(s.is_pending(0xf1));
    let open = GuestMasking {
        interruptibility: Interruptibility::from_blocking(false, false, false),
        interrupt_enable: true,
    };
    let r = s.lapic_interrupt(open);
    assert_eq!(r.outcome, ArbitrationOutcome::Injected(0xf1));
    let a = s.timer_vector_delivered(r.outcome, 135);
    assert_eq!(a.arm_software, Some(140));
    assert_eq!(s.timer.mode, TimerMode::ArmedSoftware);
}

#[test]
fn lapic_offload_path() {
    let mut s = RkvmLapicState::new(0);
    s.start_apic_timer(300, 0);
    s.start_hv_timer(true);
    assert_eq!(s.timer.mode, TimerMode::ArmedHardware);
    let a = s.restart_apic_timer();
    assert_eq!(a, TimerAction { cancel_software: false, cancel_hardware: true, arm_software: Some(300) });
    s.start_hv_timer(true);
    let a = s.cancel_hv_timer();
    assert_eq!(a.arm_software, Some(300));
    s.start_hv_timer(true);
    let e = s.lapic_timer_expired(false);
    assert!(e.notified);
    assert!(s.is_pending(0xf1));
}

#[test]
fn other_delivery_leaves_timer_pending() {
    let mut s = RkvmLapicState::new(0);
    s.start_apic_timer(100, 10);
    s.lapic_timer_expired(true);
    let a = s.timer_vector_delivered(ArbitrationOutcome::Injected(0x40), 200);
    assert_eq!(a, none());
    assert!(s.timer.pending());
    let a = s.timer_vector_delivered(ArbitrationOutcome::Deferred, 200);
    assert_eq!(a, none());
    assert!(s.timer.pending());
    let a = s.timer_vector_delivered(ArbitrationOutcome::Injected(0xf1), 200);
    assert_eq!(a.arm_software, Some(210));
}

#[test]
fn new_state_timer_is_zeroed() {
    let s = RkvmLapicState::new(7);
    assert!(s.timer.is_disarmed());
    assert_eq!(s.timer.deadline, 0);
    assert_eq!(s.timer.period, 0);
    assert_eq!(s.timer.expired_deadline, 0);
}

#[test]
fn catch_up_after_clock_jump_one_interrupt() {
    let mut s = RkvmLapicState::new(0);
    s.start_apic_timer(1000, 100);
    assert!(s.lapic_timer_expired(true).notified);
    assert!(!s.lapic_timer_expired(true).notified);
    assert!(!s.lapic_timer_expired(false).notified);
    let open = GuestMasking {
        interruptibility: Interruptibility::from_blocking(false, false, false),
        interrupt_enable: true,
    };
    let r = s.lapic_interrupt(open);
    assert_eq!(r.outcome, ArbitrationOutcome::Injected(0xf1));
    let a = s.timer_vector_delivered(r.outcome, 1300);
    assert_eq!(a.arm_software, Some(1400));
    let r = s.lapic_interrupt(open);
    assert_eq!(r.outcome, ArbitrationOutcome::Idle);
}
