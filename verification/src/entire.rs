//! The entire-path façade: the typed surface the dispatcher hands to the
//! entire handler after an escalation.
//!
//! By the time the entire handler runs, the dispatcher has completed the
//! register image: the flow context holds every register of the trapped
//! flow. The handler receives the context together with the mail the fast
//! path sent; [`EntireContext::split`] separates the two so that register
//! access and the payload can be used side by side.

use vstd::prelude::*;

verus! {

use crate::TrapHandler;
use crate::hal::FlowContext;
use crate::hal::Machine;
use crate::hal::same_but_ctx;

/// What the entire handler decided; drives the restoration ladder.
///
/// The entire path cannot escalate again and has no switch of its own: a
/// broad restore already reads whatever context the handler block targets.
/// The stable integer encoding is given by [`entire_code`].
#[derive(Clone, Copy, PartialEq, Eq, Debug)]
pub enum EntireResult {
    /// Call the targeted context with at most two arguments: restore only
    /// `a[0..2]`.
    FastCall,
    /// Call the targeted context with more arguments: restore `a[0..8]`.
    Call,
    /// Restore the full register image from the targeted context.
    Restore,
}

/// The stable integer encoding of an entire-path result. The gaps are the
/// fast-path-only codes: the entire path never returns 2 or 4.
pub open spec fn entire_code(r: EntireResult) -> int {
    match r {
        EntireResult::FastCall => 0,
        EntireResult::Call => 1,
        EntireResult::Restore => 3,
    }
}

impl EntireResult {
    /// The stable integer encoding, as the trap entry reads it.
    pub fn code(&self) -> (c: usize)
        ensures
            c == entire_code(*self),
    {
        match self {
            EntireResult::FastCall => 0,
            EntireResult::Call => 1,
            EntireResult::Restore => 3,
        }
    }
}

/// What the entire handler hands back to the trap entry: the machine and
/// handler block as it left them, and the result that drives the
/// restoration ladder.
pub struct EntireOutcome {
    pub m: Machine,
    pub thb: TrapHandler,
    pub res: EntireResult,
}

impl EntireOutcome {
    /// The outcome still designates an existing flow context.
    pub open spec fn wf(self) -> bool {
        self.m.valid_ptr(self.thb.context)
    }
}

/// The entire-path context: full register access plus the mail the fast
/// path sent, still joined together.
pub struct EntireContext<T> {
    pub m: Machine,
    pub thb: TrapHandler,
    pub mail: T,
}

impl<T> EntireContext<T> {
    /// The handler block designates an existing flow context.
    pub open spec fn wf(self) -> bool {
        self.m.valid_ptr(self.thb.context)
    }

    /// Separates register access from the mail. On hardware the two are
    /// aliased regions of the same trap stack; handing them out as two
    /// owned parts is the one way to use both at once.
    pub fn split(self) -> (r: (EntireContextSeparated, FastMail<T>))
        ensures
            r.0.m == self.m,
            r.0.thb == self.thb,
            r.1.val == self.mail,
    {
        (EntireContextSeparated { m: self.m, thb: self.thb }, FastMail { val: self.mail })
    }
}

/// The entire-path context after the mail has been separated off.
pub struct EntireContextSeparated {
    pub m: Machine,
    pub thb: TrapHandler,
}

impl EntireContextSeparated {
    /// The handler block designates an existing flow context.
    pub open spec fn wf(self) -> bool {
        self.m.valid_ptr(self.thb.context)
    }

    /// The flow context the handler block currently targets.
    pub open spec fn fc(self) -> FlowContext {
        self.m.ctx(self.thb.context)
    }

    /// Reads the targeted flow context: the complete image of the trapped
    /// flow.
    pub fn regs(&self) -> (fc: FlowContext)
        requires
            self.wf(),
        ensures
            fc == self.fc(),
    {
        self.m.context(self.thb.context)
    }

    /// Overwrites the targeted flow context.
    pub fn set_regs(&mut self, fc: FlowContext)
        requires
            old(self).wf(),
        ensures
            same_but_ctx(old(self).m, final(self).m, old(self).thb.context, fc),
            final(self).thb == old(self).thb,
    {
        let p = self.thb.context;
        self.m.set_context(p, fc);
    }

    /// Terminates the entire path: restore the full register image from
    /// the targeted context.
    pub fn restore(self) -> (o: EntireOutcome)
        ensures
            o == (EntireOutcome { m: self.m, thb: self.thb, res: EntireResult::Restore }),
    {
        EntireOutcome { m: self.m, thb: self.thb, res: EntireResult::Restore }
    }

    /// Terminates the entire path with an arbitrary result. With
    /// [`EntireResult::FastCall`] or [`EntireResult::Call`] the epilogue
    /// restores only an argument prefix from the targeted context: the way
    /// to start a new flow the handler has installed via
    /// [`EntireContextSeparated::set_regs`].
    pub fn finish(self, res: EntireResult) -> (o: EntireOutcome)
        ensures
            o == (EntireOutcome { m: self.m, thb: self.thb, res }),
    {
        EntireOutcome { m: self.m, thb: self.thb, res }
    }
}

/// The mail the fast path sent: a typed payload carried from the fast
/// handler to the entire handler. Taking it by value consumes the wrapper,
/// so it can be delivered at most once.
pub struct FastMail<T> {
    pub val: T,
}

impl<T> FastMail<T> {
    /// Moves the mail out.
    pub fn get(self) -> (t: T)
        ensures
            t == self.val,
    {
        self.val
    }

    /// Reads the mail in place.
    pub fn peek(&self) -> (t: &T)
        ensures
            *t == self.val,
    {
        &self.val
    }

    /// Mutates the mail in place.
    pub fn peek_mut(&mut self) -> (t: &mut T)
        ensures
            *t == old(self).val,
            final(self).val == *final(t),
    {
        &mut self.val
    }
}

} // verus!
