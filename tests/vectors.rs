use likex::msr::{MsrReg, X2apicMsr};
use likex::vector::X86InterruptVector;

#[test]
fn vector_numbers() {
    assert_eq!(u8::from(X86InterruptVector::X86_INT_NMI), 2);
    assert_eq!(u8::from(X86InterruptVector::X86_INT_INVALID_OP), 6);
    assert_eq!(u8::from(X86InterruptVector::X86_INT_VIRT), 20);
    assert_eq!(u8::from(X86InterruptVector::X86_INT_MAX_INTEL_DEFINED), 31);
    assert_eq!(u8::from(X86InterruptVector::X86_INT_PLATFORM_BASE), 32);
    assert_eq!(u8::from(X86InterruptVector::X86_INT_PLATFORM_MAX), 0xef);
    assert_eq!(u8::from(X86InterruptVector::X86_INT_APIC_TIMER), 0xff);
    assert_eq!(u8::from(X86InterruptVector::X86_INT_MAX), 0xff);
}

#[test]
fn vectors_from_numbers() {
    assert_eq!(X86InterruptVector::from(2u8), X86InterruptVector::X86_INT_NMI);
    assert_eq!(X86InterruptVector::from(14u8), X86InterruptVector::X86_INT_PAGE_FAULT);
    assert_eq!(X86InterruptVector::from(32u8), X86InterruptVector::X86_INT_PLATFORM_BASE);
    assert_eq!(X86InterruptVector::from(9u8), X86InterruptVector::X86_INT_MAX);
    assert_eq!(X86InterruptVector::from(25u8), X86InterruptVector::X86_INT_MAX);
    assert_eq!(X86InterruptVector::from(0x41u8), X86InterruptVector::X86_INT_MAX);
}

#[test]
fn local_apic_vectors_have_no_number() {
    for v in [
        X86InterruptVector::X86_INT_APIC_SPURIOUS,
        X86InterruptVector::X86_INT_APIC_TIMER,
        X86InterruptVector::X86_INT_APIC_ERROR,
        X86InterruptVector::X86_INT_APIC_PMI,
        X86InterruptVector::X86_INT_IPI_GENERIC,
        X86InterruptVector::X86_INT_IPI_RESCHEDULE,
        X86InterruptVector::X86_INT_IPI_INTERRUPT,
        X86InterruptVector::X86_INT_IPI_HALT,
    ] {
        assert_eq!(u8::from(v), 0xff);
    }
    for n in 0xf0..=0xf7u8 {
        assert_eq!(X86InterruptVector::from(n), X86InterruptVector::X86_INT_MAX);
    }
    assert_eq!(X86InterruptVector::from(0xf1u8), X86InterruptVector::X86_INT_MAX);
    assert_eq!(X86InterruptVector::from(20u8), X86InterruptVector::X86_INT_VIRT);
}

#[test]
fn vector_round_trip() {
    for n in 0..=255u8 {
        let v = X86InterruptVector::from(n);
        if v != X86InterruptVector::X86_INT_MAX {
            assert_eq!(u8::from(v), n);
        }
        assert_eq!(X86InterruptVector::from(u8::from(v)), v);
    }
}

#[test]
fn x2apic_msr_decode() {
    assert_eq!(X2apicMsr::from(0x83fu32), X2apicMsr::SELF_IPI);
    assert_eq!(X2apicMsr::from(0x83eu32), X2apicMsr::DCR);
    assert_eq!(X2apicMsr::from(0x838u32), X2apicMsr::INITIAL_COUNT);
    assert_eq!(X2apicMsr::from(0x832u32), X2apicMsr::LVT_TIMER);
    assert_eq!(X2apicMsr::from(0x80bu32), X2apicMsr::EOI);
    assert_eq!(X2apicMsr::from(0x802u32), X2apicMsr::UNKNOWN);
}

#[test]
fn msr_numbers() {
    assert_eq!(u64::from(MsrReg::X86MsrIa32TscDeadline), 0x6e0);
    assert_eq!(u64::from(MsrReg::X86MsrIA32Cstar), 0xc0000083);
    assert_eq!(u64::from(MsrReg::Unknown), 0xffffffff);
    assert_eq!(MsrReg::from(0x49u64), MsrReg::X86MsrIa32PredCmd);
    assert_eq!(MsrReg::from(0x800u64), MsrReg::X2ApicMsrBase);
    assert_eq!(MsrReg::from(0x83fu64), MsrReg::X2ApicMsrMax);
    assert_eq!(MsrReg::from(0x1234u64), MsrReg::Unknown);
}

#[test]
fn msr_order_follows_numbers() {
    assert!(MsrReg::X86MsrIa32PredCmd < MsrReg::X86MsrIa32TscDeadline);
    assert!(MsrReg::X2ApicMsrBase < MsrReg::X2ApicMsrMax);
    assert!(MsrReg::X2ApicMsrMax < MsrReg::X86MsrIA32Cstar);
    assert!(MsrReg::X86MsrIA32Cstar < MsrReg::Unknown);
}
