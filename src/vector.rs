//! Interrupt and exception vector numbers of the x86 architecture.
use vstd::prelude::*;

verus! {

/// The non-maskable interrupt.
pub const NMI_VECTOR: u8 = 2;

/// The last vector that the virtualization extensions define.
pub const VIRT_VECTOR: u8 = 20;

/// The first vector that the platform assigns to devices.
pub const PLATFORM_BASE_VECTOR: u8 = 32;

/// The last vector that the platform assigns to devices.
pub const PLATFORM_MAX_VECTOR: u8 = 0xef;

/// The vector that the local APIC timer raises.
pub const APIC_TIMER_VECTOR: u8 = 0xf1;

/// The number of vectors.
pub const VECTOR_COUNT: usize = 256;

/// Vectors strictly between the last virtualization vector and the first
/// platform vector are reserved: none of them may be delivered.
pub open spec fn is_reserved_vector(v: int) -> bool {
    VIRT_VECTOR < v < PLATFORM_BASE_VECTOR
}

/// Vectors from the platform base up are maskable interrupts.
pub open spec fn is_maskable_vector(v: int) -> bool {
    PLATFORM_BASE_VECTOR <= v < VECTOR_COUNT
}

/// The named vectors.
#[allow(non_camel_case_types)]
#[derive(Clone, Copy, Debug, PartialEq, Eq, Structural)]
pub enum X86InterruptVector {
    X86_INT_DIVIDE_0,
    X86_INT_DEBUG,
    X86_INT_NMI,
    X86_INT_BREAKPOINT,
    X86_INT_OVERFLOW,
    X86_INT_BOUND_RANGE,
    X86_INT_INVALID_OP,
    X86_INT_DEVICE_NA,
    X86_INT_DOUBLE_FAULT,
    X86_INT_INVALID_TSS,
    X86_INT_SEGMENT_NOT_PRESENT,
    X86_INT_STACK_FAULT,
    X86_INT_GP_FAULT,
    X86_INT_PAGE_FAULT,
    X86_INT_RESERVED,
    X86_INT_FPU_FP_ERROR,
    X86_INT_ALIGNMENT_CHECK,
    X86_INT_MACHINE_CHECK,
    X86_INT_SIMD_FP_ERROR,
    X86_INT_VIRT,
    X86_INT_MAX_INTEL_DEFINED,
    X86_INT_PLATFORM_BASE,
    X86_INT_PLATFORM_MAX,
    X86_INT_APIC_SPURIOUS,
    X86_INT_APIC_TIMER,
    X86_INT_APIC_ERROR,
    X86_INT_APIC_PMI,
    X86_INT_IPI_GENERIC,
    X86_INT_IPI_RESCHEDULE,
    X86_INT_IPI_INTERRUPT,
    X86_INT_IPI_HALT,
    X86_INT_MAX,
}

/// The number of each named vector; the local APIC and inter-processor
/// vectors, from the spurious vector to the halt vector, give 0xff.
pub open spec fn vector_number(v: X86InterruptVector) -> u8 {
    match v {
        X86InterruptVector::X86_INT_DIVIDE_0 => 0,
        X86InterruptVector::X86_INT_DEBUG => 1,
        X86InterruptVector::X86_INT_NMI => 2,
        X86InterruptVector::X86_INT_BREAKPOINT => 3,
        X86InterruptVector::X86_INT_OVERFLOW => 4,
        X86InterruptVector::X86_INT_BOUND_RANGE => 5,
        X86InterruptVector::X86_INT_INVALID_OP => 6,
        X86InterruptVector::X86_INT_DEVICE_NA => 7,
        X86InterruptVector::X86_INT_DOUBLE_FAULT => 8,
        X86InterruptVector::X86_INT_INVALID_TSS => 0xa,
        X86InterruptVector::X86_INT_SEGMENT_NOT_PRESENT => 0xb,
        X86InterruptVector::X86_INT_STACK_FAULT => 0xc,
        X86InterruptVector::X86_INT_GP_FAULT => 0xd,
        X86InterruptVector::X86_INT_PAGE_FAULT => 0xe,
        X86InterruptVector::X86_INT_RESERVED => 0xf,
        X86InterruptVector::X86_INT_FPU_FP_ERROR => 0x10,
        X86InterruptVector::X86_INT_ALIGNMENT_CHECK => 0x11,
        X86InterruptVector::X86_INT_MACHINE_CHECK => 0x12,
        X86InterruptVector::X86_INT_SIMD_FP_ERROR => 0x13,
        X86InterruptVector::X86_INT_VIRT => 0x14,
        X86InterruptVector::X86_INT_MAX_INTEL_DEFINED => 0x1f,
        X86InterruptVector::X86_INT_PLATFORM_BASE => 0x20,
        X86InterruptVector::X86_INT_PLATFORM_MAX => 0xef,
        X86InterruptVector::X86_INT_MAX => 0xff,
        _ => 0xff,
    }
}

/// The named vector with number `n`; a number that names none, and a number of
/// a local APIC or inter-processor vector, gives `X86_INT_MAX`.
pub open spec fn vector_of_number(n: u8) -> X86InterruptVector {
    match n {
        0 => X86InterruptVector::X86_INT_DIVIDE_0,
        1 => X86InterruptVector::X86_INT_DEBUG,
        2 => X86InterruptVector::X86_INT_NMI,
        3 => X86InterruptVector::X86_INT_BREAKPOINT,
        4 => X86InterruptVector::X86_INT_OVERFLOW,
        5 => X86InterruptVector::X86_INT_BOUND_RANGE,
        6 => X86InterruptVector::X86_INT_INVALID_OP,
        7 => X86InterruptVector::X86_INT_DEVICE_NA,
        8 => X86InterruptVector::X86_INT_DOUBLE_FAULT,
        0xa => X86InterruptVector::X86_INT_INVALID_TSS,
        0xb => X86InterruptVector::X86_INT_SEGMENT_NOT_PRESENT,
        0xc => X86InterruptVector::X86_INT_STACK_FAULT,
        0xd => X86InterruptVector::X86_INT_GP_FAULT,
        0xe => X86InterruptVector::X86_INT_PAGE_FAULT,
        0xf => X86InterruptVector::X86_INT_RESERVED,
        0x10 => X86InterruptVector::X86_INT_FPU_FP_ERROR,
        0x11 => X86InterruptVector::X86_INT_ALIGNMENT_CHECK,
        0x12 => X86InterruptVector::X86_INT_MACHINE_CHECK,
        0x13 => X86InterruptVector::X86_INT_SIMD_FP_ERROR,
        0x14 => X86InterruptVector::X86_INT_VIRT,
        0x1f => X86InterruptVector::X86_INT_MAX_INTEL_DEFINED,
        0x20 => X86InterruptVector::X86_INT_PLATFORM_BASE,
        0xef => X86InterruptVector::X86_INT_PLATFORM_MAX,
        _ => X86InterruptVector::X86_INT_MAX,
    }
}

impl From<X86InterruptVector> for u8 {
    fn from(v: X86InterruptVector) -> (r: u8) {
        match v {
            X86InterruptVector::X86_INT_DIVIDE_0 => 0,
            X86InterruptVector::X86_INT_DEBUG => 1,
            X86InterruptVector::X86_INT_NMI => 2,
            X86InterruptVector::X86_INT_BREAKPOINT => 3,
            X86InterruptVector::X86_INT_OVERFLOW => 4,
            X86InterruptVector::X86_INT_BOUND_RANGE => 5,
            X86InterruptVector::X86_INT_INVALID_OP => 6,
            X86InterruptVector::X86_INT_DEVICE_NA => 7,
            X86InterruptVector::X86_INT_DOUBLE_FAULT => 8,
            X86InterruptVector::X86_INT_INVALID_TSS => 0xa,
            X86InterruptVector::X86_INT_SEGMENT_NOT_PRESENT => 0xb,
            X86InterruptVector::X86_INT_STACK_FAULT => 0xc,
            X86InterruptVector::X86_INT_GP_FAULT => 0xd,
            X86InterruptVector::X86_INT_PAGE_FAULT => 0xe,
            X86InterruptVector::X86_INT_RESERVED => 0xf,
            X86InterruptVector::X86_INT_FPU_FP_ERROR => 0x10,
            X86InterruptVector::X86_INT_ALIGNMENT_CHECK => 0x11,
            X86InterruptVector::X86_INT_MACHINE_CHECK => 0x12,
            X86InterruptVector::X86_INT_SIMD_FP_ERROR => 0x13,
            X86InterruptVector::X86_INT_VIRT => 0x14,
            X86InterruptVector::X86_INT_MAX_INTEL_DEFINED => 0x1f,
            X86InterruptVector::X86_INT_PLATFORM_BASE => 0x20,
            X86InterruptVector::X86_INT_PLATFORM_MAX => 0xef,
            X86InterruptVector::X86_INT_MAX => 0xff,
            _ => 0xff,
        }
    }
}

impl vstd::std_specs::convert::FromSpecImpl<X86InterruptVector> for u8 {
    open spec fn obeys_from_spec() -> bool {
        true
    }

    open spec fn from_spec(v: X86InterruptVector) -> u8 {
        vector_number(v)
    }
}

impl From<u8> for X86InterruptVector {
    fn from(n: u8) -> (r: X86InterruptVector) {
        match n {
            0 => X86InterruptVector::X86_INT_DIVIDE_0,
            1 => X86InterruptVector::X86_INT_DEBUG,
            2 => X86InterruptVector::X86_INT_NMI,
            3 => X86InterruptVector::X86_INT_BREAKPOINT,
            4 => X86InterruptVector::X86_INT_OVERFLOW,
            5 => X86InterruptVector::X86_INT_BOUND_RANGE,
            6 => X86InterruptVector::X86_INT_INVALID_OP,
            7 => X86InterruptVector::X86_INT_DEVICE_NA,
            8 => X86InterruptVector::X86_INT_DOUBLE_FAULT,
            0xa => X86InterruptVector::X86_INT_INVALID_TSS,
            0xb => X86InterruptVector::X86_INT_SEGMENT_NOT_PRESENT,
            0xc => X86InterruptVector::X86_INT_STACK_FAULT,
            0xd => X86InterruptVector::X86_INT_GP_FAULT,
            0xe => X86InterruptVector::X86_INT_PAGE_FAULT,
            0xf => X86InterruptVector::X86_INT_RESERVED,
            0x10 => X86InterruptVector::X86_INT_FPU_FP_ERROR,
            0x11 => X86InterruptVector::X86_INT_ALIGNMENT_CHECK,
            0x12 => X86InterruptVector::X86_INT_MACHINE_CHECK,
            0x13 => X86InterruptVector::X86_INT_SIMD_FP_ERROR,
            0x14 => X86InterruptVector::X86_INT_VIRT,
            0x1f => X86InterruptVector::X86_INT_MAX_INTEL_DEFINED,
            0x20 => X86InterruptVector::X86_INT_PLATFORM_BASE,
            0xef => X86InterruptVector::X86_INT_PLATFORM_MAX,
            _ => X86InterruptVector::X86_INT_MAX,
        }
    }
}

impl vstd::std_specs::convert::FromSpecImpl<u8> for X86InterruptVector {
    open spec fn obeys_from_spec() -> bool {
        true
    }

    open spec fn from_spec(n: u8) -> X86InterruptVector {
        vector_of_number(n)
    }
}

/// A local APIC or inter-processor vector, which has no number of its own.
pub open spec fn is_local_apic_vector(v: X86InterruptVector) -> bool {
    match v {
        X86InterruptVector::X86_INT_APIC_SPURIOUS | X86InterruptVector::X86_INT_APIC_TIMER
        | X86InterruptVector::X86_INT_APIC_ERROR | X86InterruptVector::X86_INT_APIC_PMI
        | X86InterruptVector::X86_INT_IPI_GENERIC | X86InterruptVector::X86_INT_IPI_RESCHEDULE
        | X86InterruptVector::X86_INT_IPI_INTERRUPT | X86InterruptVector::X86_INT_IPI_HALT => true,
        _ => false,
    }
}

/// Turning a named vector into its number and back gives the same vector,
/// but for the local APIC and inter-processor vectors, which give
/// `X86_INT_MAX`.
pub proof fn lemma_vector_number_round_trip(v: X86InterruptVector)
    ensures
        vector_of_number(vector_number(v)) == (if is_local_apic_vector(v) {
            X86InterruptVector::X86_INT_MAX
        } else {
            v
        }),
{
}

} // verus!
