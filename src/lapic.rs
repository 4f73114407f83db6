//! The local APIC of one virtual CPU: its pending vectors, its timer, and the
//! arbitration that picks the vector to deliver on each entry into the guest.
//!
//! The guest's masking state is read by the caller before each arbitration,
//! and the injection and interrupt-window requests that arbitration decides on
//! are carried out by the caller.
use vstd::prelude::*;
use crate::bitmap::{Bitmap, lowest_set, lemma_lowest_set_is_lowest, lemma_none_set};
use crate::timer::{TimerEngine, TimerAction, TimerMode, Expiry, no_action};
use crate::vector::{
    NMI_VECTOR,
    VIRT_VECTOR,
    PLATFORM_BASE_VECTOR,
    APIC_TIMER_VECTOR,
    VECTOR_COUNT,
    is_reserved_vector,
    is_maskable_vector,
};

verus! {

/// Interrupts are blocked for one instruction after `sti`.
pub const INTERRUPTIBILITY_STI_BLOCKING: u32 = 1;

/// Interrupts and NMIs are blocked for one instruction after `mov ss`.
pub const INTERRUPTIBILITY_MOV_SS_BLOCKING: u32 = 2;

/// NMIs are blocked until the guest's NMI handler returns.
pub const INTERRUPTIBILITY_NMI_BLOCKING: u32 = 8;

/// The sentinel of the in-service cache: the in-service vectors must be
/// scanned.
pub const ISR_CACHE_INVALID: u32 = 0xffff_ffff;

/// The guest's interruptibility state, as the blocking bits of the processor's
/// guest-state area.
#[derive(Clone, Copy, Debug, PartialEq, Eq, Structural)]
pub struct Interruptibility {
    pub bits: u32,
}

impl Interruptibility {
    pub open spec fn sti_blocking(self) -> bool {
        self.bits & INTERRUPTIBILITY_STI_BLOCKING != 0
    }

    pub open spec fn mov_ss_blocking(self) -> bool {
        self.bits & INTERRUPTIBILITY_MOV_SS_BLOCKING != 0
    }

    pub open spec fn nmi_blocking(self) -> bool {
        self.bits & INTERRUPTIBILITY_NMI_BLOCKING != 0
    }

    /// The state with exactly the given blocking conditions.
    pub fn from_blocking(sti: bool, mov_ss: bool, nmi: bool) -> (r: Self)
        ensures
            r.sti_blocking() == sti,
            r.mov_ss_blocking() == mov_ss,
            r.nmi_blocking() == nmi,
    {
        let s: u32 = if sti { INTERRUPTIBILITY_STI_BLOCKING } else { 0 };
        let m: u32 = if mov_ss { INTERRUPTIBILITY_MOV_SS_BLOCKING } else { 0 };
        let n: u32 = if nmi { INTERRUPTIBILITY_NMI_BLOCKING } else { 0 };
        let bits: u32 = s | m | n;
        assert(((bits & 1u32) != 0) == (s == 1u32) && ((bits & 2u32) != 0) == (m == 2u32) && ((bits
            & 8u32) != 0) == (n == 8u32)) by (bit_vector)
            requires
                s == 0u32 || s == 1u32,
                m == 0u32 || m == 2u32,
                n == 0u32 || n == 8u32,
                bits == s | m | n,
        ;
        Interruptibility { bits }
    }

    /// Whether neither NMI blocking nor `mov ss` blocking holds.
    pub fn can_inject_nmi(&self) -> (r: bool)
        ensures
            r == (!self.nmi_blocking() && !self.mov_ss_blocking()),
    {
        let b = self.bits;
        assert((b & (8u32 | 2u32) == 0) == ((b & 8u32 == 0) && (b & 2u32 == 0))) by (bit_vector);
        self.bits & (INTERRUPTIBILITY_NMI_BLOCKING | INTERRUPTIBILITY_MOV_SS_BLOCKING) == 0
    }

    /// Whether neither `sti` blocking nor `mov ss` blocking holds.
    pub fn can_inject_interrupt(&self) -> (r: bool)
        ensures
            r == (!self.sti_blocking() && !self.mov_ss_blocking()),
    {
        let b = self.bits;
        assert((b & (1u32 | 2u32) == 0) == ((b & 1u32 == 0) && (b & 2u32 == 0))) by (bit_vector);
        self.bits & (INTERRUPTIBILITY_STI_BLOCKING | INTERRUPTIBILITY_MOV_SS_BLOCKING) == 0
    }
}

/// What the guest masks at one entry: its interruptibility state and its
/// interrupt-enable flag.
#[derive(Clone, Copy, Debug, PartialEq, Eq, Structural)]
pub struct GuestMasking {
    pub interruptibility: Interruptibility,
    pub interrupt_enable: bool,
}

/// An NMI may be delivered.
pub open spec fn nmi_allowed(m: GuestMasking) -> bool {
    !m.interruptibility.nmi_blocking() && !m.interruptibility.mov_ss_blocking()
}

/// A maskable interrupt may be delivered.
pub open spec fn interrupt_allowed(m: GuestMasking) -> bool {
    m.interrupt_enable && !m.interruptibility.sti_blocking()
        && !m.interruptibility.mov_ss_blocking()
}

/// What arbitration decided.
#[derive(Clone, Copy, Debug, PartialEq, Eq, Structural)]
pub enum ArbitrationOutcome {
    /// The vector is to be injected now.
    Injected(u8),
    /// A vector waits for the guest to unmask it.
    Deferred,
    /// No vector is pending.
    Idle,
    /// A reserved vector was pending: it was dropped, not delivered.
    Rejected(u8),
}

/// The outcome, and the interrupt-window exiting to switch on (`Some(true)`)
/// or off (`Some(false)`), if any.
#[derive(Clone, Copy, Debug, PartialEq, Eq, Structural)]
pub struct Arbitration {
    pub outcome: ArbitrationOutcome,
    pub window_exit: Option<bool>,
}

/// An exception vector other than NMI.
pub open spec fn is_exception_vector(v: int) -> bool {
    0 <= v <= VIRT_VECTOR && v != NMI_VECTOR
}

/// The pending set once vector `v` is delivered: `v` leaves it, the pending
/// exceptions of lower priority are discarded, and every interrupt stays
/// pending.
pub open spec fn retire(p: Seq<bool>, v: int) -> Seq<bool> {
    Seq::new(p.len(), |i: int| if i == v || is_exception_vector(i) { false } else { p[i] })
}

/// The outcome of arbitrating over the pending set `p` under masking `m`, and
/// the pending set that it leaves.
///
/// A pending NMI goes first when it may be delivered. Otherwise the lowest
/// other pending vector is examined: a reserved one is dropped and rejected, a
/// maskable one waits while interrupts are masked, any other is delivered.
/// With only a blocked NMI pending, the outcome is a deferral.
pub open spec fn arbitrate_pending(p: Seq<bool>, m: GuestMasking) -> (Seq<bool>, ArbitrationOutcome) {
    if p[NMI_VECTOR as int] && nmi_allowed(m) {
        (retire(p, NMI_VECTOR as int), ArbitrationOutcome::Injected(NMI_VECTOR))
    } else {
        match lowest_set(p.update(NMI_VECTOR as int, false)) {
            None => if p[NMI_VECTOR as int] {
                (p, ArbitrationOutcome::Deferred)
            } else {
                (p, ArbitrationOutcome::Idle)
            },
            Some(v) => if is_reserved_vector(v as int) {
                (p.update(v as int, false), ArbitrationOutcome::Rejected(v as u8))
            } else if is_maskable_vector(v as int) && !interrupt_allowed(m) {
                (p, ArbitrationOutcome::Deferred)
            } else {
                (retire(p, v as int), ArbitrationOutcome::Injected(v as u8))
            },
        }
    }
}

/// The interrupt-window request that follows an outcome, given whether one
/// is already outstanding: a deferral asks once, a delivery or an idle pass
/// withdraws an outstanding request, a rejection leaves it as it is.
pub open spec fn window_exit_after(requested: bool, o: ArbitrationOutcome) -> (bool, Option<bool>) {
    match o {
        ArbitrationOutcome::Deferred => (true, if requested { None } else { Some(true) }),
        ArbitrationOutcome::Rejected(_) => (requested, None),
        _ => (false, if requested { Some(false) } else { None }),
    }
}

/// The local APIC state of one virtual CPU.
pub struct RkvmLapicState {
    /// The guest-physical address of the register page.
    pub base_address: u64,
    /// The vectors that wait for delivery.
    pub interrupt_bitmap: Bitmap,
    pub timer: TimerEngine,
    /// An interrupt-window exit was asked for and not withdrawn.
    pub window_exit_requested: bool,
    /// The highest in-service vector, or `ISR_CACHE_INVALID`; advisory only.
    pub highest_isr_cache: u32,
}

impl RkvmLapicState {
    /// One slot per vector.
    pub open spec fn wf(&self) -> bool {
        &&& self.interrupt_bitmap.wf()
        &&& self.interrupt_bitmap@.len() == VECTOR_COUNT
    }

    /// `other` has the same base address and in-service cache.
    pub open spec fn same_identity(&self, other: &Self) -> bool {
        &&& self.base_address == other.base_address
        &&& self.highest_isr_cache == other.highest_isr_cache
    }

    /// The pending vectors.
    pub open spec fn pending(&self) -> Seq<bool> {
        self.interrupt_bitmap@
    }

    /// A state at `base` with nothing pending and the timer disarmed.
    pub fn new(base: u64) -> (r: Self)
        ensures
            r.wf(),
            r.base_address == base,
            r.pending() == Seq::new(VECTOR_COUNT as nat, |i: int| false),
            r.timer.mode == TimerMode::Disarmed,
            r.timer.deadline == 0,
            r.timer.period == 0,
            r.timer.expired_deadline == 0,
            !r.window_exit_requested,
            r.highest_isr_cache == ISR_CACHE_INVALID,
    {
        RkvmLapicState {
            base_address: base,
            interrupt_bitmap: Bitmap::new(VECTOR_COUNT),
            timer: TimerEngine::new(),
            window_exit_requested: false,
            highest_isr_cache: ISR_CACHE_INVALID,
        }
    }

    /// Marks `vector` as pending.
    pub fn raise(&mut self, vector: u8)
        requires
            old(self).wf(),
        ensures
            final(self).wf(),
            final(self).same_identity(old(self)),
            final(self).pending() == old(self).pending().update(vector as int, true),
            final(self).timer == old(self).timer,
            final(self).window_exit_requested == old(self).window_exit_requested,
    {
        self.interrupt_bitmap.set(vector as usize);
    }

    /// Whether `vector` is pending.
    pub fn is_pending(&self, vector: u8) -> (r: bool)
        requires
            self.wf(),
        ensures
            r == self.pending()[vector as int],
    {
        self.interrupt_bitmap.test(vector as usize)
    }

    /// Discards the pending exceptions and `vector` itself.
    fn retire_delivered(&mut self, vector: u8)
        requires
            old(self).wf(),
        ensures
            final(self).wf(),
            final(self).same_identity(old(self)),
            final(self).pending() == retire(old(self).pending(), vector as int),
            final(self).timer == old(self).timer,
            final(self).window_exit_requested == old(self).window_exit_requested,
    {
        self.interrupt_bitmap.clear(vector as usize);
        self.interrupt_bitmap.clear_range(0, NMI_VECTOR as usize);
        self.interrupt_bitmap.clear_range(NMI_VECTOR as usize + 1, VIRT_VECTOR as usize + 1);
        assert(self.pending() =~= retire(old(self).pending(), vector as int));
    }

    /// Picks the vector to deliver on this entry into the guest, under the
    /// guest's `masking`, and updates the pending set and the interrupt-window
    /// request to match.
    pub fn lapic_interrupt(&mut self, masking: GuestMasking) -> (r: Arbitration)
        requires
            old(self).wf(),
        ensures
            final(self).wf(),
            final(self).same_identity(old(self)),
            (final(self).pending(), r.outcome) == arbitrate_pending(old(self).pending(), masking),
            (final(self).window_exit_requested, r.window_exit) == window_exit_after(
                old(self).window_exit_requested,
                r.outcome,
            ),
            final(self).timer == old(self).timer,
    {
        let outcome = self.arbitrate_pending(masking);
        let window_exit = match outcome {
            ArbitrationOutcome::Deferred => {
                let w = if self.window_exit_requested {
                    None
                } else {
                    Some(true)
                };
                self.window_exit_requested = true;
                w
            },
            ArbitrationOutcome::Rejected(_) => None,
            _ => {
                let w = if self.window_exit_requested {
                    Some(false)
                } else {
                    None
                };
                self.window_exit_requested = false;
                w
            },
        };
        Arbitration { outcome, window_exit }
    }

    /// Arms the timer for the absolute `deadline`, repeating every `period`
    /// (zero: once); a waiting expiry is dropped.
    pub fn start_apic_timer(&mut self, deadline: u64, period: u64) -> (r: TimerAction)
        requires
            old(self).wf(),
        ensures
            final(self).wf(),
            final(self).same_identity(old(self)),
            (final(self).timer, r) == old(self).timer.arm_step(deadline, period),
            final(self).pending() == old(self).pending(),
            final(self).window_exit_requested == old(self).window_exit_requested,
    {
        self.timer.arm(deadline, period)
    }

    /// Moves an armed deadline back onto the software timer, unless an expiry
    /// already waits.
    pub fn restart_apic_timer(&mut self) -> (r: TimerAction)
        requires
            old(self).wf(),
        ensures
            final(self).wf(),
            final(self).same_identity(old(self)),
            (final(self).timer, r) == old(self).timer.restart_step(),
            final(self).pending() == old(self).pending(),
            final(self).window_exit_requested == old(self).window_exit_requested,
    {
        self.timer.restart()
    }

    /// Records whether the hardware deadline timer `accepted` the deadline
    /// that `TimerEngine::offload_candidate` offered.
    pub fn start_hv_timer(&mut self, accepted: bool) -> (r: TimerAction)
        requires
            old(self).wf(),
        ensures
            final(self).wf(),
            final(self).same_identity(old(self)),
            (final(self).timer, r) == old(self).timer.offload_step(accepted),
            final(self).pending() == old(self).pending(),
            final(self).window_exit_requested == old(self).window_exit_requested,
    {
        self.timer.try_offload(accepted)
    }

    /// Takes the deadline back from the hardware deadline timer.
    pub fn cancel_hv_timer(&mut self) -> (r: TimerAction)
        requires
            old(self).wf(),
        ensures
            final(self).wf(),
            final(self).same_identity(old(self)),
            (final(self).timer, r) == old(self).timer.cancel_offload_step(),
            final(self).pending() == old(self).pending(),
            final(self).window_exit_requested == old(self).window_exit_requested,
    {
        self.timer.cancel_offload()
    }

    /// Handles an expiry of the software timer (`from_async`) or of the
    /// hardware deadline; a recorded expiry raises the timer's vector.
    pub fn lapic_timer_expired(&mut self, from_async: bool) -> (r: Expiry)
        requires
            old(self).wf(),
        ensures
            final(self).wf(),
            final(self).same_identity(old(self)),
            (final(self).timer, r) == old(self).timer.expired_step(from_async),
            final(self).pending() == (if r.notified {
                old(self).pending().update(APIC_TIMER_VECTOR as int, true)
            } else {
                old(self).pending()
            }),
            final(self).window_exit_requested == old(self).window_exit_requested,
    {
        let r = self.timer.expired(from_async);
        if r.notified {
            self.interrupt_bitmap.set(APIC_TIMER_VECTOR as usize);
        }
        r
    }

    /// Consumes the waiting expiry once the timer's vector was delivered at
    /// time `now`; a periodic timer is armed again.
    pub fn consume_timer_expiry(&mut self, now: u64) -> (r: TimerAction)
        requires
            old(self).wf(),
        ensures
            final(self).wf(),
            final(self).same_identity(old(self)),
            (final(self).timer, r) == old(self).timer.consume_step(now),
            final(self).pending() == old(self).pending(),
            final(self).window_exit_requested == old(self).window_exit_requested,
    {
        self.timer.consume(now)
    }

    /// Consumes the timer's waiting expiry, at time `now`, where `outcome`
    /// delivered the timer's vector; any other outcome leaves the timer alone.
    pub fn timer_vector_delivered(&mut self, outcome: ArbitrationOutcome, now: u64) -> (r: TimerAction)
        requires
            old(self).wf(),
        ensures
            final(self).wf(),
            final(self).same_identity(old(self)),
            (final(self).timer, r) == (if outcome == ArbitrationOutcome::Injected(APIC_TIMER_VECTOR) {
                old(self).timer.consume_step(now)
            } else {
                (old(self).timer, no_action())
            }),
            final(self).pending() == old(self).pending(),
            final(self).window_exit_requested == old(self).window_exit_requested,
    {
        match outcome {
            ArbitrationOutcome::Injected(v) => {
                if v == APIC_TIMER_VECTOR {
                    return self.timer.consume(now);
                }
            },
            _ => {},
        }
        TimerAction { cancel_software: false, cancel_hardware: false, arm_software: None }
    }

    /// Cancels the timer; the caller waits for the cancellation of the backing
    /// timer to complete before the state may be destroyed.
    pub fn cancel_timer(&mut self) -> (r: TimerAction)
        requires
            old(self).wf(),
        ensures
            final(self).wf(),
            final(self).same_identity(old(self)),
            (final(self).timer, r) == old(self).timer.cancel_step(),
            final(self).pending() == old(self).pending(),
            final(self).window_exit_requested == old(self).window_exit_requested,
    {
        self.timer.cancel()
    }

    /// Ends the state's life; its timer must have been cancelled.
    pub fn destroy(self)
        requires
            self.timer.mode == TimerMode::Disarmed,
    {
    }

    fn arbitrate_pending(&mut self, masking: GuestMasking) -> (r: ArbitrationOutcome)
        requires
            old(self).wf(),
        ensures
            final(self).wf(),
            final(self).same_identity(old(self)),
            (final(self).pending(), r) == arbitrate_pending(old(self).pending(), masking),
            final(self).timer == old(self).timer,
            final(self).window_exit_requested == old(self).window_exit_requested,
    {
        let nmi_pending = self.interrupt_bitmap.test(NMI_VECTOR as usize);
        let can_inject_nmi = masking.interruptibility.can_inject_nmi();
        let can_inject_int = masking.interrupt_enable
            && masking.interruptibility.can_inject_interrupt();
        if nmi_pending && can_inject_nmi {
            self.retire_delivered(NMI_VECTOR);
            return ArbitrationOutcome::Injected(NMI_VECTOR);
        }
        let ghost p = self.pending();
        if nmi_pending {
            self.interrupt_bitmap.clear(NMI_VECTOR as usize);
        }
        assert(self.pending() =~= p.update(NMI_VECTOR as int, false));
        let lowest = self.interrupt_bitmap.scan();
        if nmi_pending {
            self.interrupt_bitmap.set(NMI_VECTOR as usize);
        }
        assert(self.pending() =~= p);
        match lowest {
            None => {
                if nmi_pending {
                    ArbitrationOutcome::Deferred
                } else {
                    ArbitrationOutcome::Idle
                }
            },
            Some(v) => {
                proof {
                    let q = p.update(NMI_VECTOR as int, false);
                    lemma_lowest_set_is_lowest(q);
                }
                let vector: u8 = v as u8;
                if vector > VIRT_VECTOR && vector < PLATFORM_BASE_VECTOR {
                    self.interrupt_bitmap.clear(v);
                    ArbitrationOutcome::Rejected(vector)
                } else if vector >= PLATFORM_BASE_VECTOR && !can_inject_int {
                    ArbitrationOutcome::Deferred
                } else {
                    self.retire_delivered(vector);
                    ArbitrationOutcome::Injected(vector)
                }
            },
        }
    }
}

/// The lowest pending vector other than NMI.
pub open spec fn lowest_other(p: Seq<bool>) -> Option<usize> {
    lowest_set(p.update(NMI_VECTOR as int, false))
}

/// A reserved vector is never delivered; where it is the vector examined, it
/// is rejected and dropped from the pending set.
pub proof fn lemma_reserved_never_injected(p: Seq<bool>, m: GuestMasking, v: usize)
    requires
        p.len() == VECTOR_COUNT,
    ensures
        arbitrate_pending(p, m).1 matches ArbitrationOutcome::Injected(v) ==> !is_reserved_vector(
            v as int,
        ),
        !(p[NMI_VECTOR as int] && nmi_allowed(m)) && lowest_other(p) == Some(v)
            && is_reserved_vector(v as int) ==> arbitrate_pending(p, m) == (
            p.update(v as int, false),
            ArbitrationOutcome::Rejected(v as u8),
        ),
{
    lemma_lowest_set_is_lowest(p.update(NMI_VECTOR as int, false));
}

/// A pending NMI that may be delivered goes before every other pending
/// vector.
pub proof fn lemma_nmi_first(p: Seq<bool>, m: GuestMasking)
    requires
        p.len() == VECTOR_COUNT,
        p[NMI_VECTOR as int],
        nmi_allowed(m),
    ensures
        arbitrate_pending(p, m).1 == ArbitrationOutcome::Injected(NMI_VECTOR),
{
}

/// With the guest's interrupt flag clear no maskable vector is delivered,
/// however many are pending. Where a maskable vector is the one examined, the
/// outcome is a deferral that leaves the pending set alone, and the
/// interrupt-window exit is asked for on the first such pass only: the same
/// pass again asks nothing more.
pub proof fn lemma_masked_interrupts_defer(
    p: Seq<bool>,
    m: GuestMasking,
    requested: bool,
    v: usize,
)
    requires
        p.len() == VECTOR_COUNT,
        !m.interrupt_enable,
    ensures
        arbitrate_pending(p, m).1 matches ArbitrationOutcome::Injected(v) ==> !is_maskable_vector(
            v as int,
        ),
        !(p[NMI_VECTOR as int] && nmi_allowed(m)) && lowest_other(p) == Some(v)
            && is_maskable_vector(v as int) ==> ({
            let (p1, o1) = arbitrate_pending(p, m);
            let (w1, x1) = window_exit_after(requested, o1);
            let (p2, o2) = arbitrate_pending(p1, m);
            let (w2, x2) = window_exit_after(w1, o2);
            &&& o1 == ArbitrationOutcome::Deferred
            &&& p1 == p
            &&& x1 == (if requested {
                None
            } else {
                Some(true)
            })
            &&& w1
            &&& o2 == ArbitrationOutcome::Deferred
            &&& p2 == p
            &&& x2 == None::<bool>
            &&& w2
        }),
{
    lemma_lowest_set_is_lowest(p.update(NMI_VECTOR as int, false));
}

/// With nothing pending every pass is idle and changes nothing.
pub proof fn lemma_idle_when_empty(p: Seq<bool>, m: GuestMasking)
    requires
        p.len() == VECTOR_COUNT,
        forall|i: int| 0 <= i < p.len() ==> !p[i],
    ensures
        arbitrate_pending(p, m) == (p, ArbitrationOutcome::Idle),
{
    lemma_none_set(p.update(NMI_VECTOR as int, false));
}

/// Delivering a maskable interrupt removes that vector alone from the pending
/// set: every vector of lower number but NMI was already clear, and the
/// others stay pending.
pub proof fn lemma_delivery_keeps_others_pending(p: Seq<bool>, m: GuestMasking, v: u8)
    requires
        p.len() == VECTOR_COUNT,
    ensures
        arbitrate_pending(p, m).1 == ArbitrationOutcome::Injected(v) && is_maskable_vector(v as int)
            ==> arbitrate_pending(p, m).0 == p.update(v as int, false),
{
    let q = p.update(NMI_VECTOR as int, false);
    lemma_lowest_set_is_lowest(q);
    if arbitrate_pending(p, m).1 == ArbitrationOutcome::Injected(v) && is_maskable_vector(v as int) {
        assert forall|i: int| is_exception_vector(i) implies !p[i] by {
            assert(!q[i]);
        }
        assert(arbitrate_pending(p, m).0 =~= p.update(v as int, false));
    }
}

/// A blocked NMI does not hold back a maskable interrupt that may be
/// delivered: the interrupt goes, and the NMI stays pending.
pub proof fn lemma_blocked_nmi_lets_interrupt_through(p: Seq<bool>, m: GuestMasking, v: usize)
    requires
        p.len() == VECTOR_COUNT,
        p[NMI_VECTOR as int],
        !nmi_allowed(m),
        interrupt_allowed(m),
    ensures
        lowest_other(p) == Some(v) && is_maskable_vector(v as int) ==> ({
            let (p1, o1) = arbitrate_pending(p, m);
            &&& o1 == ArbitrationOutcome::Injected(v as u8)
            &&& p1[NMI_VECTOR as int]
        }),
{
    lemma_lowest_set_is_lowest(p.update(NMI_VECTOR as int, false));
}

/// A pass that finds a maskable vector blocked, right after a pass that
/// delivered a vector or found nothing pending, asks for the interrupt-window
/// exit exactly once: that pass asks, and no blocked pass after it asks again.
pub proof fn lemma_newly_blocked_asks_once(
    requested: bool,
    previous: ArbitrationOutcome,
    p: Seq<bool>,
    m: GuestMasking,
    v: usize,
)
    requires
        p.len() == VECTOR_COUNT,
        previous matches ArbitrationOutcome::Injected(_) || previous == ArbitrationOutcome::Idle,
        !m.interrupt_enable,
        !(p[NMI_VECTOR as int] && nmi_allowed(m)),
        lowest_other(p) == Some(v),
        is_maskable_vector(v as int),
    ensures
        ({
            let w0 = window_exit_after(requested, previous).0;
            let (p1, o1) = arbitrate_pending(p, m);
            let (w1, x1) = window_exit_after(w0, o1);
            let (p2, o2) = arbitrate_pending(p1, m);
            let (w2, x2) = window_exit_after(w1, o2);
            &&& !w0
            &&& o1 == ArbitrationOutcome::Deferred
            &&& x1 == Some(true)
            &&& o2 == ArbitrationOutcome::Deferred
            &&& x2 == None::<bool>
        }),
{
    lemma_masked_interrupts_defer(p, m, window_exit_after(requested, previous).0, v);
}

} // verus!
