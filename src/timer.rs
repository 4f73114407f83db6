//! The local APIC timer: a deadline, an optional period, and which backing
//! timer of the host currently carries the deadline.
//!
//! The engine makes every decision and performs none of them: each operation
//! returns a [`TimerAction`] that the caller carries out on the host's timer
//! service and on the hardware deadline timer.
use vstd::prelude::*;

verus! {

/// Which backing timer carries the deadline, if any.
#[derive(Clone, Copy, Debug, PartialEq, Eq, Structural)]
pub enum TimerMode {
    /// No timer is armed and no expiry waits.
    Disarmed,
    /// The host's software timer is armed for the deadline.
    ArmedSoftware,
    /// The hardware deadline timer carries the deadline.
    ArmedHardware,
    /// The deadline expired and the expiry has not been consumed yet; no
    /// backing timer is armed.
    ExpiredPending,
}

/// What the host has to do to the backing timers after an operation: cancel
/// the software timer, cancel the hardware deadline, then arm the software
/// timer for the given absolute deadline.
#[derive(Clone, Copy, Debug, PartialEq, Eq, Structural)]
pub struct TimerAction {
    pub cancel_software: bool,
    pub cancel_hardware: bool,
    pub arm_software: Option<u64>,
}

/// The action that asks for nothing.
pub open spec fn no_action() -> TimerAction {
    TimerAction { cancel_software: false, cancel_hardware: false, arm_software: None }
}

/// The action that cancels whichever timer carries mode `m`.
pub open spec fn cancel_action(m: TimerMode) -> TimerAction {
    TimerAction {
        cancel_software: m == TimerMode::ArmedSoftware,
        cancel_hardware: m == TimerMode::ArmedHardware,
        arm_software: None,
    }
}

/// The action that moves the deadline onto a fresh software timer for
/// `deadline`, after cancelling whichever timer carries mode `m`.
pub open spec fn rearm_action(m: TimerMode, deadline: u64) -> TimerAction {
    TimerAction {
        cancel_software: m == TimerMode::ArmedSoftware,
        cancel_hardware: m == TimerMode::ArmedHardware,
        arm_software: Some(deadline),
    }
}

/// What an expiry event did.
#[derive(Clone, Copy, Debug, PartialEq, Eq, Structural)]
pub struct Expiry {
    /// The expiry was recorded: the timer's vector is to be raised.
    pub notified: bool,
    /// The virtual CPU's thread is to be woken, as it may be halted.
    pub wake_vcpu: bool,
    /// What the host has to do to the backing timers.
    pub action: TimerAction,
}

/// The first deadline of a periodic timer that lies after `now`: the deadline
/// moves on by at least one period, and by as many whole periods as it takes
/// to pass `now`.
pub open spec fn next_deadline(deadline: int, period: int, now: int) -> int {
    if now < deadline {
        deadline + period
    } else {
        deadline + ((now - deadline) / period + 1) * period
    }
}

/// The timer state of one virtual CPU.
#[derive(Clone, Copy, Debug, PartialEq, Eq, Structural)]
pub struct TimerEngine {
    pub mode: TimerMode,
    /// The absolute deadline, on the host's monotonic clock.
    pub deadline: u64,
    /// The period; zero for a one-shot timer.
    pub period: u64,
    /// The deadline of the last expiry that was recorded.
    pub expired_deadline: u64,
}

impl TimerEngine {
    /// An expiry was observed and not yet consumed.
    pub open spec fn is_pending(self) -> bool {
        self.mode == TimerMode::ExpiredPending
    }

    /// `arm`: a fresh deadline on the software timer; a waiting expiry is
    /// dropped.
    pub open spec fn arm_step(self, deadline: u64, period: u64) -> (TimerEngine, TimerAction) {
        (
            TimerEngine { mode: TimerMode::ArmedSoftware, deadline, period, ..self },
            rearm_action(self.mode, deadline),
        )
    }

    /// `restart`: while a deadline is armed, it moves back onto the software
    /// timer; with an expiry waiting, or nothing armed, nothing happens.
    pub open spec fn restart_step(self) -> (TimerEngine, TimerAction) {
        match self.mode {
            TimerMode::ArmedSoftware | TimerMode::ArmedHardware => (
                TimerEngine { mode: TimerMode::ArmedSoftware, ..self },
                rearm_action(self.mode, self.deadline),
            ),
            _ => (self, no_action()),
        }
    }

    /// `try_offload`: the hardware deadline timer took (`accepted`) or refused
    /// the deadline of an armed software timer, which is then cancelled or
    /// kept. A hardware deadline accepted in any other mode is cancelled again,
    /// and a deadline that the hardware carried goes back to the software
    /// timer.
    pub open spec fn offload_step(self, accepted: bool) -> (TimerEngine, TimerAction) {
        if !accepted {
            (self, no_action())
        } else if self.mode == TimerMode::ArmedSoftware {
            (
                TimerEngine { mode: TimerMode::ArmedHardware, ..self },
                TimerAction { cancel_software: true, cancel_hardware: false, arm_software: None },
            )
        } else if self.mode == TimerMode::ArmedHardware {
            (
                TimerEngine { mode: TimerMode::ArmedSoftware, ..self },
                rearm_action(self.mode, self.deadline),
            )
        } else {
            (
                self,
                TimerAction { cancel_software: false, cancel_hardware: true, arm_software: None },
            )
        }
    }

    /// `cancel_offload`: the hardware deadline timer gives the deadline back to
    /// the software timer.
    pub open spec fn cancel_offload_step(self) -> (TimerEngine, TimerAction) {
        if self.mode == TimerMode::ArmedHardware {
            (
                TimerEngine { mode: TimerMode::ArmedSoftware, ..self },
                rearm_action(self.mode, self.deadline),
            )
        } else {
            (self, no_action())
        }
    }

    /// `expired`: the software timer fired (`from_async`), or the hardware
    /// deadline was seen to have passed on an exit from the guest. An expiry of
    /// the timer that carries the deadline is recorded once; any other, and
    /// every one while an expiry waits, changes nothing.
    pub open spec fn expired_step(self, from_async: bool) -> (TimerEngine, Expiry) {
        if (from_async && self.mode == TimerMode::ArmedSoftware) || (!from_async && self.mode
            == TimerMode::ArmedHardware) {
            (
                TimerEngine {
                    mode: TimerMode::ExpiredPending,
                    expired_deadline: self.deadline,
                    ..self
                },
                Expiry {
                    notified: true,
                    wake_vcpu: from_async,
                    action: TimerAction {
                        cancel_software: false,
                        cancel_hardware: !from_async,
                        arm_software: None,
                    },
                },
            )
        } else {
            (self, Expiry { notified: false, wake_vcpu: false, action: no_action() })
        }
    }

    /// `consume`: the waiting expiry was delivered at time `now`. A one-shot
    /// timer is then disarmed; a periodic one is armed again for the first
    /// deadline after `now`, or disarmed where that deadline does not fit in
    /// 64 bits.
    pub open spec fn consume_step(self, now: u64) -> (TimerEngine, TimerAction) {
        if self.mode != TimerMode::ExpiredPending {
            (self, no_action())
        } else if self.period == 0 || next_deadline(
            self.deadline as int,
            self.period as int,
            now as int,
        ) > u64::MAX {
            (TimerEngine { mode: TimerMode::Disarmed, ..self }, no_action())
        } else {
            let next = next_deadline(self.deadline as int, self.period as int, now as int) as u64;
            (
                TimerEngine { mode: TimerMode::ArmedSoftware, deadline: next, ..self },
                rearm_action(self.mode, next),
            )
        }
    }

    /// `cancel`: whichever timer is armed is cancelled and a waiting expiry is
    /// dropped.
    pub open spec fn cancel_step(self) -> (TimerEngine, TimerAction) {
        (TimerEngine { mode: TimerMode::Disarmed, ..self }, cancel_action(self.mode))
    }

    /// A disarmed timer with no deadline.
    pub fn new() -> (r: Self)
        ensures
            r.mode == TimerMode::Disarmed,
            r.deadline == 0,
            r.period == 0,
            r.expired_deadline == 0,
    {
        TimerEngine { mode: TimerMode::Disarmed, deadline: 0, period: 0, expired_deadline: 0 }
    }

    /// Whether no timer is armed and no expiry waits.
    pub fn is_disarmed(&self) -> (r: bool)
        ensures
            r == (self.mode == TimerMode::Disarmed),
    {
        match self.mode {
            TimerMode::Disarmed => true,
            _ => false,
        }
    }

    /// Whether an expiry was observed and not yet consumed.
    pub fn pending(&self) -> (r: bool)
        ensures
            r == self.is_pending(),
    {
        match self.mode {
            TimerMode::ExpiredPending => true,
            _ => false,
        }
    }

    /// Arms the timer for the absolute `deadline`, repeating every `period`
    /// (zero: once).
    pub fn arm(&mut self, deadline: u64, period: u64) -> (r: TimerAction)
        ensures
            (*final(self), r) == old(self).arm_step(deadline, period),
    {
        let action = TimerAction {
            cancel_software: self.mode == TimerMode::ArmedSoftware,
            cancel_hardware: self.mode == TimerMode::ArmedHardware,
            arm_software: Some(deadline),
        };
        self.mode = TimerMode::ArmedSoftware;
        self.deadline = deadline;
        self.period = period;
        action
    }

    /// Moves an armed deadline back onto the software timer. Where an expiry
    /// already waits it does nothing: that expiry arms the timer again once it
    /// is consumed.
    pub fn restart(&mut self) -> (r: TimerAction)
        ensures
            (*final(self), r) == old(self).restart_step(),
    {
        match self.mode {
            TimerMode::ArmedSoftware | TimerMode::ArmedHardware => {
                let action = TimerAction {
                    cancel_software: self.mode == TimerMode::ArmedSoftware,
                    cancel_hardware: self.mode == TimerMode::ArmedHardware,
                    arm_software: Some(self.deadline),
                };
                self.mode = TimerMode::ArmedSoftware;
                action
            },
            _ => TimerAction { cancel_software: false, cancel_hardware: false, arm_software: None },
        }
    }

    /// The deadline to offer the hardware deadline timer: that of an armed
    /// software timer.
    pub fn offload_candidate(&self) -> (r: Option<u64>)
        ensures
            r == (if self.mode == TimerMode::ArmedSoftware {
                Some(self.deadline)
            } else {
                None
            }),
    {
        match self.mode {
            TimerMode::ArmedSoftware => Some(self.deadline),
            _ => None,
        }
    }

    /// Records whether the hardware deadline timer `accepted` the deadline.
    pub fn try_offload(&mut self, accepted: bool) -> (r: TimerAction)
        ensures
            (*final(self), r) == old(self).offload_step(accepted),
    {
        if accepted {
            match self.mode {
                TimerMode::ArmedSoftware => {
                    self.mode = TimerMode::ArmedHardware;
                    TimerAction { cancel_software: true, cancel_hardware: false, arm_software: None }
                },
                TimerMode::ArmedHardware => {
                    self.mode = TimerMode::ArmedSoftware;
                    TimerAction {
                        cancel_software: false,
                        cancel_hardware: true,
                        arm_software: Some(self.deadline),
                    }
                },
                _ => TimerAction {
                    cancel_software: false,
                    cancel_hardware: true,
                    arm_software: None,
                },
            }
        } else {
            TimerAction { cancel_software: false, cancel_hardware: false, arm_software: None }
        }
    }

    /// Takes the deadline back from the hardware deadline timer onto the
    /// software timer.
    pub fn cancel_offload(&mut self) -> (r: TimerAction)
        ensures
            (*final(self), r) == old(self).cancel_offload_step(),
    {
        match self.mode {
            TimerMode::ArmedHardware => {
                self.mode = TimerMode::ArmedSoftware;
                TimerAction {
                    cancel_software: false,
                    cancel_hardware: true,
                    arm_software: Some(self.deadline),
                }
            },
            _ => TimerAction { cancel_software: false, cancel_hardware: false, arm_software: None },
        }
    }

    /// Handles an expiry: of the software timer when `from_async`, else of the
    /// hardware deadline, seen on an exit from the guest.
    pub fn expired(&mut self, from_async: bool) -> (r: Expiry)
        ensures
            (*final(self), r) == old(self).expired_step(from_async),
    {
        let fired = if from_async {
            self.mode == TimerMode::ArmedSoftware
        } else {
            self.mode == TimerMode::ArmedHardware
        };
        if fired {
            self.mode = TimerMode::ExpiredPending;
            self.expired_deadline = self.deadline;
            Expiry {
                notified: true,
                wake_vcpu: from_async,
                action: TimerAction {
                    cancel_software: false,
                    cancel_hardware: !from_async,
                    arm_software: None,
                },
            }
        } else {
            Expiry {
                notified: false,
                wake_vcpu: false,
                action: TimerAction {
                    cancel_software: false,
                    cancel_hardware: false,
                    arm_software: None,
                },
            }
        }
    }

    /// Consumes the waiting expiry, delivered at time `now`.
    pub fn consume(&mut self, now: u64) -> (r: TimerAction)
        ensures
            (*final(self), r) == old(self).consume_step(now),
    {
        let none = TimerAction { cancel_software: false, cancel_hardware: false, arm_software: None };
        match self.mode {
            TimerMode::ExpiredPending => {},
            _ => {
                return none;
            },
        }
        if self.period == 0 {
            self.mode = TimerMode::Disarmed;
            return none;
        }
        match advance_deadline(self.deadline, self.period, now) {
            Some(next) => {
                self.mode = TimerMode::ArmedSoftware;
                self.deadline = next;
                TimerAction { cancel_software: false, cancel_hardware: false, arm_software: Some(next) }
            },
            None => {
                self.mode = TimerMode::Disarmed;
                none
            },
        }
    }

    /// Cancels whichever timer is armed and drops a waiting expiry.
    pub fn cancel(&mut self) -> (r: TimerAction)
        ensures
            (*final(self), r) == old(self).cancel_step(),
    {
        let action = TimerAction {
            cancel_software: self.mode == TimerMode::ArmedSoftware,
            cancel_hardware: self.mode == TimerMode::ArmedHardware,
            arm_software: None,
        };
        self.mode = TimerMode::Disarmed;
        action
    }
}

/// The first deadline after `now` that a periodic timer reaches from
/// `deadline`, or `None` where it does not fit in 64 bits.
pub fn advance_deadline(deadline: u64, period: u64, now: u64) -> (r: Option<u64>)
    requires
        period > 0,
    ensures
        r == (if next_deadline(deadline as int, period as int, now as int) <= u64::MAX {
            Some(next_deadline(deadline as int, period as int, now as int) as u64)
        } else {
            None
        }),
{
    if now < deadline {
        return deadline.checked_add(period);
    }
    let missed: u64 = (now - deadline) / period;
    proof {
        lemma_missed_periods_fit(deadline as int, period as int, now as int, missed as int);
    }
    let passed: u64 = deadline + missed * period;
    assert(next_deadline(deadline as int, period as int, now as int) == passed + period) by {
        assert((missed + 1) * period == missed * period + period) by (nonlinear_arith);
    }
    passed.checked_add(period)
}

proof fn lemma_missed_periods_fit(deadline: int, period: int, now: int, missed: int)
    requires
        period > 0,
        deadline <= now,
        missed == (now - deadline) / period,
    ensures
        0 <= missed * period <= now - deadline,
{
    assert(0 <= missed * period <= now - deadline) by (nonlinear_arith)
        requires
            period > 0,
            deadline <= now,
            missed == (now - deadline) / period,
    ;
}

/// The host's backing timers match mode `m`: the software timer is armed in
/// `ArmedSoftware` alone, the hardware deadline in `ArmedHardware` alone.
pub open spec fn backing_matches(m: TimerMode, software: bool, hardware: bool) -> bool {
    &&& software == (m == TimerMode::ArmedSoftware)
    &&& hardware == (m == TimerMode::ArmedHardware)
}

/// The host's backing timers once action `a` is carried out.
pub open spec fn apply_action(software: bool, hardware: bool, a: TimerAction) -> (bool, bool) {
    ((software && !a.cancel_software) || a.arm_software is Some, hardware && !a.cancel_hardware)
}

/// Every operation keeps the host's backing timers in step with the engine, so
/// that at most one of them is ever armed: carrying out the action that an
/// operation returns leaves the software timer armed exactly in
/// `ArmedSoftware` and the hardware deadline exactly in `ArmedHardware`. An
/// accepted offload has armed the hardware deadline before its action is
/// carried out, and a software expiry has used up the software timer.
pub proof fn lemma_one_backing_timer(
    t: TimerEngine,
    software: bool,
    hardware: bool,
    deadline: u64,
    period: u64,
    accepted: bool,
    from_async: bool,
    now: u64,
)
    requires
        backing_matches(t.mode, software, hardware),
        from_async ==> software,
    ensures
        ({
            let (t1, a) = t.arm_step(deadline, period);
            let (sw, hw) = apply_action(software, hardware, a);
            backing_matches(t1.mode, sw, hw)
        }),
        ({
            let (t1, a) = t.restart_step();
            let (sw, hw) = apply_action(software, hardware, a);
            backing_matches(t1.mode, sw, hw)
        }),
        ({
            let (t1, a) = t.offload_step(accepted);
            let (sw, hw) = apply_action(software, hardware || accepted, a);
            backing_matches(t1.mode, sw, hw)
        }),
        ({
            let (t1, a) = t.cancel_offload_step();
            let (sw, hw) = apply_action(software, hardware, a);
            backing_matches(t1.mode, sw, hw)
        }),
        ({
            let (t1, e) = t.expired_step(from_async);
            let (sw, hw) = apply_action(software && !from_async, hardware, e.action);
            backing_matches(t1.mode, sw, hw)
        }),
        ({
            let (t1, a) = t.consume_step(now);
            let (sw, hw) = apply_action(software, hardware, a);
            backing_matches(t1.mode, sw, hw)
        }),
        ({
            let (t1, a) = t.cancel_step();
            let (sw, hw) = apply_action(software, hardware, a);
            backing_matches(t1.mode, sw, hw)
        }),
{
}

/// While an expiry waits, it is the only one: a restart does nothing, and a
/// further expiry of either kind is coalesced into it.
pub proof fn lemma_pending_expiry_coalesces(t: TimerEngine, from_async: bool)
    requires
        t.is_pending(),
    ensures
        t.restart_step() == (t, no_action()),
        t.expired_step(from_async).0 == t,
        !t.expired_step(from_async).1.notified,
{
}

/// Arming a timer and restarting it twice yields a single expiry notification
/// whatever expiries follow, until the expiry is consumed or the timer armed
/// again.
pub proof fn lemma_restart_twice_single_expiry(
    t: TimerEngine,
    deadline: u64,
    period: u64,
    first_async: bool,
    second_async: bool,
)
    ensures
        ({
            let t1 = t.arm_step(deadline, period).0;
            let t2 = t1.restart_step().0;
            let t3 = t2.restart_step().0;
            let (t4, e1) = t3.expired_step(first_async);
            let (t5, e2) = t4.expired_step(second_async);
            &&& t3.mode == TimerMode::ArmedSoftware
            &&& t3.deadline == deadline
            &&& !(e1.notified && e2.notified)
        }),
{
}

/// Once cancelled, the timer is disarmed, so that its owner may be destroyed,
/// and no expiry that still arrives is recorded.
pub proof fn lemma_cancel_silences_expiry(t: TimerEngine, from_async: bool)
    ensures
        t.cancel_step().0.mode == TimerMode::Disarmed,
        t.cancel_step().1 == cancel_action(t.mode),
        !t.cancel_step().0.expired_step(from_async).1.notified,
        t.cancel_step().0.expired_step(from_async).0 == t.cancel_step().0,
{
}

/// The next deadline of a periodic timer lies after `now`, a whole number of
/// periods (at least one) after the old deadline, and no period that ends
/// after both `now` and the old deadline is skipped.
pub proof fn lemma_next_deadline(deadline: int, period: int, now: int)
    requires
        period > 0,
    ensures
        next_deadline(deadline, period, now) > now,
        next_deadline(deadline, period, now) - period <= if now < deadline {
            deadline
        } else {
            now
        },
        (next_deadline(deadline, period, now) - deadline) % period == 0,
        next_deadline(deadline, period, now) - deadline >= period,
{
    if now >= deadline {
        let k = (now - deadline) / period;
        assert(k >= 0) by (nonlinear_arith)
            requires
                period > 0,
                now >= deadline,
                k == (now - deadline) / period,
        ;
        assert(k * period <= now - deadline < (k + 1) * period) by (nonlinear_arith)
            requires
                period > 0,
                now >= deadline,
                k == (now - deadline) / period,
        ;
        assert(((k + 1) * period) % period == 0) by (nonlinear_arith)
            requires
                period > 0,
                k >= 0,
        ;
        assert((k + 1) * period >= period) by (nonlinear_arith)
            requires
                period > 0,
                k >= 0,
        ;
        assert((k + 1) * period == k * period + period) by (nonlinear_arith);
    } else {
        assert(period % period == 0) by (nonlinear_arith)
            requires
                period > 0,
        ;
    }
}

/// A periodic timer that expired while the clock jumped three periods past
/// its deadline is armed again, on consuming that single expiry, for the
/// fourth period after it.
pub proof fn lemma_catch_up_three_periods(t: TimerEngine, now: u64)
    requires
        t.is_pending(),
        t.period > 0,
        now == t.deadline + 3 * t.period,
        t.deadline + 4 * t.period <= u64::MAX,
    ensures
        ({
            let (t1, a) = t.consume_step(now);
            &&& t1.mode == TimerMode::ArmedSoftware
            &&& t1.deadline == t.deadline + 4 * t.period
            &&& a == rearm_action(t.mode, t1.deadline)
        }),
{
    let d = t.deadline as int;
    let p = t.period as int;
    assert((3 * p) / p == 3) by (nonlinear_arith)
        requires
            p > 0,
    ;
    assert(next_deadline(d, p, now as int) == d + 4 * p);
}

/// An armed periodic timer whose deadline passed while the clock jumped three
/// periods past it records one expiry; every later expiry is coalesced into
/// it, and consuming it arms the software timer for the first deadline after
/// the clock, the fourth period after the old deadline.
pub proof fn lemma_catch_up_single_expiry(t: TimerEngine, from_async: bool, later: bool, now: u64)
    requires
        t.mode == (if from_async {
            TimerMode::ArmedSoftware
        } else {
            TimerMode::ArmedHardware
        }),
        t.period > 0,
        now == t.deadline + 3 * t.period,
        t.deadline + 4 * t.period <= u64::MAX,
    ensures
        ({
            let (t1, e1) = t.expired_step(from_async);
            let (t2, e2) = t1.expired_step(later);
            let (t3, a) = t2.consume_step(now);
            &&& e1.notified
            &&& !e2.notified
            &&& t2 == t1
            &&& t3.mode == TimerMode::ArmedSoftware
            &&& t3.deadline == t.deadline + 4 * t.period
            &&& 0 < t3.deadline - now <= t.period
            &&& a.arm_software == Some(t3.deadline)
        }),
{
    let t1 = t.expired_step(from_async).0;
    lemma_catch_up_three_periods(t1, now);
}

} // verus!
