//! Model of the hardware a trap dispatcher interacts with on one hart: the
//! integer register file, the three control and status registers the
//! dispatcher touches (mode-scratch, exception program counter, trap cause),
//! and the flow contexts resident in memory.
//!
//! The dispatcher is specified and proved against this state. Every register
//! is a machine word; the model fixes the word size at 64 bits, so a word is
//! a `usize` of a 64-bit target.

use vstd::prelude::*;

verus! {

/// The register image of a suspended execution flow.
///
/// A fixed record of 32 machine-word slots in a fixed order: `ra`, the seven
/// temporaries `t[0..7]`, the eight argument registers `a[0..8]`, the twelve
/// callee-saved registers `s[0..12]`, then `gp`, `tp`, `sp` and `pc`. The
/// slot order is part of the dispatcher's contract: the trap entry saves and
/// restores registers by these positions.
///
/// The same record doubles as the live register bank of the hart inside
/// [`Machine`], where `pc` holds the address of the next instruction.
#[derive(Clone, Copy, PartialEq, Eq, Debug)]
pub struct FlowContext {
    pub ra: usize,
    pub t: [usize; 7],
    pub a: [usize; 8],
    pub s: [usize; 12],
    pub gp: usize,
    pub tp: usize,
    pub sp: usize,
    pub pc: usize,
}

impl FlowContext {
    /// True when every slot is zero.
    pub open spec fn is_zeroed(self) -> bool {
        &&& self.ra == 0
        &&& forall|i: int| 0 <= i < 7 ==> self.t[i] == 0
        &&& forall|i: int| 0 <= i < 8 ==> self.a[i] == 0
        &&& forall|i: int| 0 <= i < 12 ==> self.s[i] == 0
        &&& self.gp == 0
        &&& self.tp == 0
        &&& self.sp == 0
        &&& self.pc == 0
    }

    /// A zero-initialized context: a valid empty flow.
    pub fn zeroed() -> (fc: FlowContext)
        ensures
            fc.is_zeroed(),
    {
        FlowContext {
            ra: 0,
            t: [0, 0, 0, 0, 0, 0, 0],
            a: [0, 0, 0, 0, 0, 0, 0, 0],
            s: [0, 0, 0, 0, 0, 0, 0, 0, 0, 0, 0, 0],
            gp: 0,
            tp: 0,
            sp: 0,
            pc: 0,
        }
    }
}

/// A handle to one flow context resident in machine memory.
///
/// The dispatcher never owns a flow context; it reaches the one it targets
/// through a handle like the hardware reaches it through a pointer. The
/// handle indexes [`Machine::ctxs`].
#[derive(Clone, Copy, PartialEq, Eq, Debug)]
pub struct ContextPtr(pub usize);

/// The hardware state of one hart, as far as the dispatcher reads or writes
/// it: the live registers, the three control and status registers, and the
/// memory that holds the caller's flow contexts.
pub struct Machine {
    /// The live register bank; `pc` is the address of the next instruction.
    pub regs: FlowContext,
    /// The mode-scratch control and status register. When a trap stack is
    /// loaded it points at the stack's resident handler block.
    pub scratch: usize,
    /// The exception program counter register: where the return-from-trap
    /// instruction resumes.
    pub epc: usize,
    /// The trap-cause register.
    pub cause: usize,
    /// The flow contexts the caller has placed in memory, by handle.
    pub ctxs: Vec<FlowContext>,
}

/// True when `post` is `pre` with the single flow context designated by `p`
/// overwritten by `fc`: registers, control and status registers and every
/// other context are untouched.
pub open spec fn same_but_ctx(pre: Machine, post: Machine, p: ContextPtr, fc: FlowContext) -> bool {
    &&& post.regs == pre.regs
    &&& post.scratch == pre.scratch
    &&& post.epc == pre.epc
    &&& post.cause == pre.cause
    &&& post.ctxs@ == pre.ctxs@.update(p.0 as int, fc)
}

impl Machine {
    /// True when `p` designates a flow context that exists in memory.
    pub open spec fn valid_ptr(self, p: ContextPtr) -> bool {
        p.0 < self.ctxs.len()
    }

    /// The flow context `p` designates.
    pub open spec fn ctx(self, p: ContextPtr) -> FlowContext {
        self.ctxs[p.0 as int]
    }

    /// A machine with zeroed registers, zeroed control and status registers,
    /// and no flow contexts.
    pub fn new() -> (m: Machine)
        ensures
            m.regs.is_zeroed(),
            m.scratch == 0,
            m.epc == 0,
            m.cause == 0,
            m.ctxs@.len() == 0,
    {
        Machine { regs: FlowContext::zeroed(), scratch: 0, epc: 0, cause: 0, ctxs: Vec::new() }
    }

    /// Places a flow context in machine memory and hands back its handle.
    pub fn add_context(&mut self, fc: FlowContext) -> (p: ContextPtr)
        ensures
            final(self).ctxs@ == old(self).ctxs@.push(fc),
            p.0 == old(self).ctxs@.len(),
            final(self).regs == old(self).regs,
            final(self).scratch == old(self).scratch,
            final(self).epc == old(self).epc,
            final(self).cause == old(self).cause,
    {
        let p = ContextPtr(self.ctxs.len());
        self.ctxs.push(fc);
        p
    }

    /// Reads the flow context `p` designates.
    pub fn context(&self, p: ContextPtr) -> (fc: FlowContext)
        requires
            self.valid_ptr(p),
        ensures
            fc == self.ctx(p),
    {
        self.ctxs[p.0]
    }

    /// Overwrites the flow context `p` designates.
    pub fn set_context(&mut self, p: ContextPtr, fc: FlowContext)
        requires
            old(self).valid_ptr(p),
        ensures
            final(self).ctxs@ == old(self).ctxs@.update(p.0 as int, fc),
            final(self).regs == old(self).regs,
            final(self).scratch == old(self).scratch,
            final(self).epc == old(self).epc,
            final(self).cause == old(self).cause,
    {
        self.ctxs[p.0] = fc;
    }

    /// Loads from a context the registers that no calling convention covers:
    /// `gp` and `tp` go to the live registers, the context's `sp` to the
    /// mode-scratch register (the epilogue swap moves it into `sp`), and the
    /// context's `pc` to the exception program counter (the return-from-trap
    /// instruction jumps there). Run on transitions that install a new flow.
    pub fn load_others(&mut self, fc: &FlowContext)
        ensures
            *final(self) == (Machine {
                regs: FlowContext { gp: fc.gp, tp: fc.tp, ..old(self).regs },
                scratch: fc.sp,
                epc: fc.pc,
                ..*old(self)
            }),
    {
        self.regs.gp = fc.gp;
        self.regs.tp = fc.tp;
        self.scratch = fc.sp;
        self.epc = fc.pc;
    }
}

} // verus!
