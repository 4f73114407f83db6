use likex::lapic::{ArbitrationOutcome, GuestMasking, Interruptibility, RkvmLapicState};

fn open() -> GuestMasking {
    GuestMasking {
        interruptibility: Interruptibility::from_blocking(false, false, false),
        interrupt_enable: true,
    }
}

fn masking(sti: bool, mov_ss: bool, nmi: bool, interrupt_enable: bool) -> GuestMasking {
    GuestMasking {
        interruptibility: Interruptibility::from_blocking(sti, mov_ss, nmi),
        interrupt_enable,
    }
}

#[test]
fn interruptibility_bits() {
    assert_eq!(Interruptibility::from_blocking(false, false, false).bits, 0);
    assert_eq!(Interruptibility::from_blocking(true, false, false).bits, 1);
    assert_eq!(Interruptibility::from_blocking(false, true, false).bits, 2);
    assert_eq!(Interruptibility::from_blocking(false, false, true).bits, 8);
    let all = Interruptibility::from_blocking(true, true, true);
    assert_eq!(all.bits, 11);
    assert!(!all.can_inject_nmi());
    assert!(!all.can_inject_interrupt());
    let sti = Interruptibility::from_blocking(true, false, false);
    assert!(sti.can_inject_nmi());
    assert!(!sti.can_inject_interrupt());
    let nmi = Interruptibility::from_blocking(false, false, true);
    assert!(!nmi.can_inject_nmi());
    assert!(nmi.can_inject_interrupt());
}

#[test]
fn single_vector_open_masking() {
    let mut s = RkvmLapicState::new(0xfee0_0000);
    assert_eq!(s.base_address, 0xfee0_0000);
    s.raise(0x40);
    let r = s.lapic_interrupt(open());
    assert_eq!(r.outcome, ArbitrationOutcome::Injected(0x40));
    assert_eq!(r.window_exit, None);
    for v in 0..=255u8 {
        assert!(!s.is_pending(v));
    }
}

#[test]
fn delivery_keeps_higher_interrupts_pending() {
    let mut s = RkvmLapicState::new(0);
    s.raise(0x40);
    s.raise(0x45);
    s.raise(0x90);
    let r = s.lapic_interrupt(open());
    assert_eq!(r.outcome, ArbitrationOutcome::Injected(0x40));
    assert!(!s.is_pending(0x40));
    assert!(s.is_pending(0x45));
    assert!(s.is_pending(0x90));
    let r = s.lapic_interrupt(open());
    assert_eq!(r.outcome, ArbitrationOutcome::Injected(0x45));
    let r = s.lapic_interrupt(open());
    assert_eq!(r.outcome, ArbitrationOutcome::Injected(0x90));
    let r = s.lapic_interrupt(open());
    assert_eq!(r.outcome, ArbitrationOutcome::Idle);
}

#[test]
fn blocked_nmi_lets_interrupt_through() {
    let mut s = RkvmLapicState::new(0);
    s.raise(2);
    s.raise(0x41);
    let r = s.lapic_interrupt(masking(false, false, true, true));
    assert_eq!(r.outcome, ArbitrationOutcome::Injected(0x41));
    assert!(s.is_pending(2));
    assert!(!s.is_pending(0x41));
    let r = s.lapic_interrupt(masking(false, false, true, true));
    assert_eq!(r.outcome, ArbitrationOutcome::Deferred);
    assert_eq!(r.window_exit, Some(true));
    assert!(s.is_pending(2));
    let r = s.lapic_interrupt(open());
    assert_eq!(r.outcome, ArbitrationOutcome::Injected(2));
    assert_eq!(r.window_exit, Some(false));
    assert!(!s.is_pending(2));
}

#[test]
fn reserved_vectors_are_rejected() {
    for v in 21..=31u8 {
        let mut s = RkvmLapicState::new(0);
        s.raise(v);
        let r = s.lapic_interrupt(open());
        assert_eq!(r.outcome, ArbitrationOutcome::Rejected(v));
        assert!(!s.is_pending(v));
        let r = s.lapic_interrupt(open());
        assert_eq!(r.outcome, ArbitrationOutcome::Idle);
    }
}

#[test]
fn reserved_vector_rejected_before_interrupt() {
    let mut s = RkvmLapicState::new(0);
    s.raise(25);
    s.raise(0x30);
    let r = s.lapic_interrupt(open());
    assert_eq!(r.outcome, ArbitrationOutcome::Rejected(25));
    let r = s.lapic_interrupt(open());
    assert_eq!(r.outcome, ArbitrationOutcome::Injected(0x30));
}

#[test]
fn nmi_goes_first() {
    let mut s = RkvmLapicState::new(0);
    s.raise(0x20);
    s.raise(0x80);
    s.raise(2);
    let r = s.lapic_interrupt(open());
    assert_eq!(r.outcome, ArbitrationOutcome::Injected(2));
    assert!(s.is_pending(0x20));
    assert!(s.is_pending(0x80));
}

#[test]
fn nmi_blocked_by_mov_ss() {
    let mut s = RkvmLapicState::new(0);
    s.raise(2);
    let r = s.lapic_interrupt(masking(false, true, false, true));
    assert_eq!(r.outcome, ArbitrationOutcome::Deferred);
    assert!(s.is_pending(2));
}

#[test]
fn masked_interrupts_defer_and_ask_once() {
    let mut s = RkvmLapicState::new(0);
    for v in 0x20..0x30u8 {
        s.raise(v);
    }
    let m = masking(false, false, false, false);
    let r = s.lapic_interrupt(m);
    assert_eq!(r.outcome, ArbitrationOutcome::Deferred);
    assert_eq!(r.window_exit, Some(true));
    assert!(s.window_exit_requested);
    for _ in 0..3 {
        let r = s.lapic_interrupt(m);
        assert_eq!(r.outcome, ArbitrationOutcome::Deferred);
        assert_eq!(r.window_exit, None);
    }
    for v in 0x20..0x30u8 {
        assert!(s.is_pending(v));
    }
    let r = s.lapic_interrupt(open());
    assert_eq!(r.outcome, ArbitrationOutcome::Injected(0x20));
    assert_eq!(r.window_exit, Some(false));
    assert!(!s.window_exit_requested);
}

#[test]
fn sti_blocking_defers_interrupts() {
    let mut s = RkvmLapicState::new(0);
    s.raise(0x50);
    let r = s.lapic_interrupt(masking(true, false, false, true));
    assert_eq!(r.outcome, ArbitrationOutcome::Deferred);
    assert!(s.is_pending(0x50));
}

#[test]
fn exceptions_go_while_interrupts_masked() {
    let mut s = RkvmLapicState::new(0);
    s.raise(14);
    s.raise(17);
    s.raise(0x60);
    let r = s.lapic_interrupt(masking(false, false, false, false));
    assert_eq!(r.outcome, ArbitrationOutcome::Injected(14));
    assert!(!s.is_pending(17));
    assert!(s.is_pending(0x60));
}

#[test]
fn nmi_delivery_discards_pending_exceptions() {
    let mut s = RkvmLapicState::new(0);
    s.raise(2);
    s.raise(0);
    s.raise(6);
    s.raise(25);
    s.raise(0x40);
    let r = s.lapic_interrupt(open());
    assert_eq!(r.outcome, ArbitrationOutcome::Injected(2));
    assert!(!s.is_pending(0));
    assert!(!s.is_pending(6));
    assert!(s.is_pending(25));
    assert!(s.is_pending(0x40));
}

#[test]
fn idle_every_time_when_empty() {
    let mut s = RkvmLapicState::new(0);
    for _ in 0..3 {
        let r = s.lapic_interrupt(open());
        assert_eq!(r.outcome, ArbitrationOutcome::Idle);
        assert_eq!(r.window_exit, None);
    }
}

#[test]
fn newly_blocked_after_delivery_asks_once() {
    let mut s = RkvmLapicState::new(0);
    s.raise(0x30);
    s.raise(0x31);
    let r = s.lapic_interrupt(open());
    assert_eq!(r.outcome, ArbitrationOutcome::Injected(0x30));
    let m = masking(false, false, false, false);
    let r = s.lapic_interrupt(m);
    assert_eq!(r.outcome, ArbitrationOutcome::Deferred);
    assert_eq!(r.window_exit, Some(true));
    let r = s.lapic_interrupt(m);
    assert_eq!(r.outcome, ArbitrationOutcome::Deferred);
    assert_eq!(r.window_exit, None);
}
