//! Model-specific registers that the local APIC answers to.
use vstd::prelude::*;

verus! {

/// The x2APIC registers, as model-specific registers.
#[allow(non_camel_case_types)]
#[derive(Clone, Copy, Debug, PartialEq, Eq, Structural)]
pub enum X2apicMsr {
    ID,
    VERSION,
    EOI,
    TPR,
    LDR,
    SVR,
    ISR_31_0,
    ISR_63_32,
    ISR_95_64,
    ISR_127_96,
    ISR_159_128,
    ISR_191_160,
    ISR_223_192,
    ISR_255_224,
    TMR_31_0,
    TMR_63_32,
    TMR_95_64,
    TMR_127_96,
    TMR_159_128,
    TMR_191_160,
    TMR_223_192,
    TMR_255_224,
    IRR_31_0,
    IRR_63_32,
    IRR_95_64,
    IRR_127_96,
    IRR_159_128,
    IRR_191_160,
    IRR_223_192,
    IRR_255_224,
    ESR,
    LVT_CMCI,
    ICR,
    LVT_TIMER,
    LVT_THERMAL_SENSOR,
    LVT_MONITOR,
    LVT_LINT0,
    LVT_LINT1,
    LVT_ERROR,
    INITIAL_COUNT,
    DCR,
    SELF_IPI,
    UNKNOWN,
}

/// The registers that accesses are decoded into: the self-IPI, divide
/// configuration, initial count, timer vector table entry and end of
/// interrupt. Every other number is `UNKNOWN`.
pub open spec fn x2apic_msr_of(msr: u32) -> X2apicMsr {
    match msr {
        0x83f => X2apicMsr::SELF_IPI,
        0x83e => X2apicMsr::DCR,
        0x838 => X2apicMsr::INITIAL_COUNT,
        0x832 => X2apicMsr::LVT_TIMER,
        0x80b => X2apicMsr::EOI,
        _ => X2apicMsr::UNKNOWN,
    }
}

impl From<u32> for X2apicMsr {
    fn from(msr: u32) -> (r: X2apicMsr) {
        match msr {
            0x83f => X2apicMsr::SELF_IPI,
            0x83e => X2apicMsr::DCR,
            0x838 => X2apicMsr::INITIAL_COUNT,
            0x832 => X2apicMsr::LVT_TIMER,
            0x80b => X2apicMsr::EOI,
            _ => X2apicMsr::UNKNOWN,
        }
    }
}

impl vstd::std_specs::convert::FromSpecImpl<u32> for X2apicMsr {
    open spec fn obeys_from_spec() -> bool {
        true
    }

    open spec fn from_spec(msr: u32) -> X2apicMsr {
        x2apic_msr_of(msr)
    }
}

/// The model-specific registers that the virtual CPU handles, in the order of
/// their numbers.
#[derive(Clone, Copy, Debug, PartialEq, Eq, Structural, PartialOrd, Ord)]
pub enum MsrReg {
    X86MsrIa32PredCmd,
    X86MsrIa32TscDeadline,
    X2ApicMsrBase,
    X2ApicMsrMax,
    X86MsrIA32Cstar,
    Unknown,
}

/// The number of each register; `Unknown` has the all-ones 32-bit number.
pub open spec fn msr_number(m: MsrReg) -> u64 {
    match m {
        MsrReg::X86MsrIa32PredCmd => 0x49,
        MsrReg::X86MsrIa32TscDeadline => 0x6e0,
        MsrReg::X2ApicMsrBase => 0x800,
        MsrReg::X2ApicMsrMax => 0x83f,
        MsrReg::X86MsrIA32Cstar => 0xc0000083,
        MsrReg::Unknown => 0xffffffff,
    }
}

/// The register with number `msr`, or `Unknown`.
pub open spec fn msr_of_number(msr: u64) -> MsrReg {
    match msr {
        0x49 => MsrReg::X86MsrIa32PredCmd,
        0x6e0 => MsrReg::X86MsrIa32TscDeadline,
        0x800 => MsrReg::X2ApicMsrBase,
        0x83f => MsrReg::X2ApicMsrMax,
        0xc0000083 => MsrReg::X86MsrIA32Cstar,
        _ => MsrReg::Unknown,
    }
}

impl From<MsrReg> for u64 {
    fn from(m: MsrReg) -> (r: u64) {
        match m {
            MsrReg::X86MsrIa32PredCmd => 0x49,
            MsrReg::X86MsrIa32TscDeadline => 0x6e0,
            MsrReg::X2ApicMsrBase => 0x800,
            MsrReg::X2ApicMsrMax => 0x83f,
            MsrReg::X86MsrIA32Cstar => 0xc0000083,
            MsrReg::Unknown => 0xffffffff,
        }
    }
}

impl vstd::std_specs::convert::FromSpecImpl<MsrReg> for u64 {
    open spec fn obeys_from_spec() -> bool {
        true
    }

    open spec fn from_spec(m: MsrReg) -> u64 {
        msr_number(m)
    }
}

impl From<u64> for MsrReg {
    fn from(msr: u64) -> (r: MsrReg) {
        match msr {
            0x49 => MsrReg::X86MsrIa32PredCmd,
            0x6e0 => MsrReg::X86MsrIa32TscDeadline,
            0x800 => MsrReg::X2ApicMsrBase,
            0x83f => MsrReg::X2ApicMsrMax,
            0xc0000083 => MsrReg::X86MsrIA32Cstar,
            _ => MsrReg::Unknown,
        }
    }
}

impl vstd::std_specs::convert::FromSpecImpl<u64> for MsrReg {
    open spec fn obeys_from_spec() -> bool {
        true
    }

    open spec fn from_spec(msr: u64) -> MsrReg {
        msr_of_number(msr)
    }
}

/// Turning a register into its number and back gives the same register.
pub proof fn lemma_msr_number_round_trip(m: MsrReg)
    ensures
        msr_of_number(msr_number(m)) == m,
{
}

} // verus!
