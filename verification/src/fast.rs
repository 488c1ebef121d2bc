//! The fast-path façade: the typed surface the trap entry hands to the fast
//! handler, and the terminators that decide how the epilogue restores
//! registers.
//!
//! The fast handler runs with only the caller-saved subset of the trapped
//! flow saved: `ra` and the temporaries sit in the flow context, the
//! trapped-in `a0` sits in the handler block's scratch cell, and the
//! callee-saved registers still hold the trapped flow's values but are not
//! saved anywhere — the handler must not rely on them. Each terminator
//! consumes the façade and yields a [`FastOutcome`] carrying the machine,
//! the handler block, and the chosen result.

use vstd::prelude::*;

verus! {

use crate::TrapHandler;
use crate::hal::ContextPtr;
use crate::hal::FlowContext;
use crate::hal::Machine;
use crate::hal::same_but_ctx;

/// What the fast handler decided; drives the restoration ladder.
///
/// The order is part of the dispatcher's contract: later results restore a
/// larger prefix of the flow context. The stable integer encoding is given
/// by [`fast_code`].
#[derive(Clone, Copy, PartialEq, Eq, Debug)]
pub enum FastResult {
    /// Call the targeted context with at most two arguments: restore only
    /// `a[0..2]`.
    FastCall,
    /// Call the targeted context with more arguments: restore `a[0..8]`.
    Call,
    /// Return to the targeted context: restore the caller-saved set,
    /// `ra`, `t[0..7]` and `a[0..8]`.
    Restore,
    /// Switch to another context: restore the full register image.
    Switch,
    /// Escalate to the entire path.
    Continue,
}

/// The stable integer encoding of a fast-path result.
pub open spec fn fast_code(r: FastResult) -> int {
    match r {
        FastResult::FastCall => 0,
        FastResult::Call => 1,
        FastResult::Restore => 2,
        FastResult::Switch => 3,
        FastResult::Continue => 4,
    }
}

impl FastResult {
    /// The stable integer encoding, as the trap entry reads it.
    pub fn code(&self) -> (c: usize)
        ensures
            c == fast_code(*self),
    {
        match self {
            FastResult::FastCall => 0,
            FastResult::Call => 1,
            FastResult::Restore => 2,
            FastResult::Switch => 3,
            FastResult::Continue => 4,
        }
    }
}

/// What the fast handler hands back to the trap entry: the machine and
/// handler block it was given (as it left them), the result that drives
/// the restoration ladder, and — exactly when it escalates — the mail for
/// the entire path.
pub struct FastOutcome<T> {
    pub m: Machine,
    pub thb: TrapHandler,
    pub res: FastResult,
    pub mail: Option<T>,
}

impl<T> FastOutcome<T> {
    /// The outcome still designates an existing flow context, and carries
    /// mail exactly when it escalates.
    pub open spec fn wf(self) -> bool {
        &&& self.m.valid_ptr(self.thb.context)
        &&& (self.res is Continue <==> self.mail is Some)
    }
}

/// The fast-path context: what the fast handler may safely read and write.
///
/// It owns the machine and the resident handler block for the duration of
/// the fast path, the way the hardware hands them over: the trap entry
/// moves them in, a terminator moves them out.
pub struct FastContext {
    pub m: Machine,
    pub thb: TrapHandler,
}

impl FastContext {
    /// The handler block designates an existing flow context.
    pub open spec fn wf(self) -> bool {
        self.m.valid_ptr(self.thb.context)
    }

    /// The flow context the handler block currently targets.
    pub open spec fn fc(self) -> FlowContext {
        self.m.ctx(self.thb.context)
    }

    /// The trapped-in `a0`. The register itself carries the context
    /// pointer during the fast path, so the trap entry stashed its trapped
    /// value in the handler block's scratch cell.
    pub fn a0(&self) -> (v: usize)
        ensures
            v == self.thb.scratch,
    {
        self.thb.scratch
    }

    /// Reads temporary `i` of the trapped flow, already saved into the
    /// flow context by the trap entry.
    pub fn t(&self, i: usize) -> (v: usize)
        requires
            self.wf(),
            i < 7,
        ensures
            v == self.fc().t[i as int],
    {
        let fc = self.m.context(self.thb.context);
        fc.t[i]
    }

    /// Reads the targeted flow context.
    pub fn regs(&self) -> (fc: FlowContext)
        requires
            self.wf(),
        ensures
            fc == self.fc(),
    {
        self.m.context(self.thb.context)
    }

    /// Overwrites the targeted flow context. Meant for handlers that will
    /// terminate in a broad-restore mode and take responsibility for the
    /// whole image.
    pub fn set_regs(&mut self, fc: FlowContext)
        requires
            old(self).wf(),
        ensures
            same_but_ctx(old(self).m, final(self).m, old(self).thb.context, fc),
            final(self).thb == old(self).thb,
    {
        let p = self.thb.context;
        self.m.set_context(p, fc);
    }

    /// Writes temporary `i` of the targeted flow context.
    pub fn write_t(&mut self, i: usize, v: usize)
        requires
            old(self).wf(),
            i < 7,
        ensures
            same_but_ctx(old(self).m, final(self).m, old(self).thb.context, final(self).fc()),
            final(self).fc() == (FlowContext { t: final(self).fc().t, ..old(self).fc() }),
            final(self).fc().t@ == old(self).fc().t@.update(i as int, v),
            final(self).thb == old(self).thb,
    {
        let p = self.thb.context;
        let mut fc = self.m.context(p);
        fc.t[i] = v;
        self.m.set_context(p, fc);
    }

    /// Writes argument register `i` of the targeted flow context.
    pub fn write_a(&mut self, i: usize, v: usize)
        requires
            old(self).wf(),
            i < 8,
        ensures
            same_but_ctx(old(self).m, final(self).m, old(self).thb.context, final(self).fc()),
            final(self).fc() == (FlowContext { a: final(self).fc().a, ..old(self).fc() }),
            final(self).fc().a@ == old(self).fc().a@.update(i as int, v),
            final(self).thb == old(self).thb,
    {
        let p = self.thb.context;
        let mut fc = self.m.context(p);
        fc.a[i] = v;
        self.m.set_context(p, fc);
    }

    /// Copies all eight argument values of the trapped flow — the stashed
    /// `a0` and the seven still-live argument registers the handler
    /// received — into the targeted flow context. Required before
    /// terminating with a plain restore or an escalation, if the trapped
    /// arguments are to survive.
    pub fn save_args(
        &mut self,
        a1: usize,
        a2: usize,
        a3: usize,
        a4: usize,
        a5: usize,
        a6: usize,
        a7: usize,
    )
        requires
            old(self).wf(),
        ensures
            same_but_ctx(old(self).m, final(self).m, old(self).thb.context, final(self).fc()),
            final(self).fc() == (FlowContext { a: final(self).fc().a, ..old(self).fc() }),
            final(self).fc().a@ == seq![
                old(self).thb.scratch,
                a1,
                a2,
                a3,
                a4,
                a5,
                a6,
                a7,
            ],
            final(self).thb == old(self).thb,
    {
        let p = self.thb.context;
        let mut fc = self.m.context(p);
        fc.a = [self.thb.scratch, a1, a2, a3, a4, a5, a6, a7];
        self.m.set_context(p, fc);
        proof {
            assert(self.fc().a@ =~= seq![old(self).thb.scratch, a1, a2, a3, a4, a5, a6, a7]);
        }
    }

    /// Replaces the handler block's context handle and returns the old
    /// one. The machine is untouched.
    pub fn swap_context(&mut self, new: ContextPtr) -> (prev: ContextPtr)
        ensures
            prev == old(self).thb.context,
            final(self).thb == (TrapHandler { context: new, ..old(self).thb }),
            final(self).m == old(self).m,
    {
        let prev = self.thb.context;
        self.thb.context = new;
        prev
    }

    /// Terminates the fast path: return to the targeted context,
    /// restoring the caller-saved set. The argument registers must have
    /// been set beforehand, by [`FastContext::save_args`] or by direct
    /// writes.
    pub fn restore<T>(self) -> (o: FastOutcome<T>)
        ensures
            o == (FastOutcome { m: self.m, thb: self.thb, res: FastResult::Restore, mail: None::<T> }),
    {
        FastOutcome { m: self.m, thb: self.thb, res: FastResult::Restore, mail: None }
    }

    /// Terminates the fast path: start the targeted context as a call with
    /// `argc` arguments. Loads the registers no calling convention covers
    /// from that context; the epilogue restores `a[0..2]` when at most two
    /// arguments are needed, `a[0..8]` otherwise.
    pub fn call<T>(self, argc: usize) -> (o: FastOutcome<T>)
        requires
            self.wf(),
        ensures
            o.m == (Machine {
                regs: FlowContext { gp: self.fc().gp, tp: self.fc().tp, ..self.m.regs },
                scratch: self.fc().sp,
                epc: self.fc().pc,
                ..self.m
            }),
            o.thb == self.thb,
            o.res == (if argc <= 2 {
                FastResult::FastCall
            } else {
                FastResult::Call
            }),
            o.mail is None,
    {
        let mut m = self.m;
        let fc = m.context(self.thb.context);
        m.load_others(&fc);
        let res = if argc <= 2 {
            FastResult::FastCall
        } else {
            FastResult::Call
        };
        FastOutcome { m, thb: self.thb, res, mail: None }
    }

    /// Terminates the fast path: drop the targeted context and switch to
    /// another one. Loads the registers no calling convention covers from
    /// the new context, retargets the handler block at it, and has the
    /// epilogue restore the full image from it.
    pub fn switch_to<T>(self, others: ContextPtr) -> (o: FastOutcome<T>)
        requires
            self.m.valid_ptr(others),
        ensures
            o.m == (Machine {
                regs: FlowContext {
                    gp: self.m.ctx(others).gp,
                    tp: self.m.ctx(others).tp,
                    ..self.m.regs
                },
                scratch: self.m.ctx(others).sp,
                epc: self.m.ctx(others).pc,
                ..self.m
            }),
            o.thb == (TrapHandler { context: others, ..self.thb }),
            o.res is Switch,
            o.mail is None,
    {
        let mut m = self.m;
        let fc = m.context(others);
        m.load_others(&fc);
        FastOutcome {
            m,
            thb: TrapHandler { context: others, ..self.thb },
            res: FastResult::Switch,
            mail: None,
        }
    }

    /// Terminates the fast path: escalate to the entire path, handing it
    /// `t` as mail. The argument registers must have been set beforehand,
    /// by [`FastContext::save_args`] or by direct writes. The dispatcher
    /// completes the register image and invokes the entire handler on the
    /// mail.
    pub fn continue_with<T>(self, t: T) -> (o: FastOutcome<T>)
        ensures
            o.m == self.m,
            o.thb == self.thb,
            o.res is Continue,
            o.mail == Some(t),
    {
        FastOutcome { m: self.m, thb: self.thb, res: FastResult::Continue, mail: Some(t) }
    }
}

} // verus!
