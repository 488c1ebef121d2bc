//! A two-tier trap dispatcher for RISC-V privileged modes, verified against
//! an explicit model of the hart it runs on.
//!
//! A hardware trap is turned into a call of a structured handler with the
//! smallest possible register-save cost on the common path: the trap entry
//! saves only the caller-saved subset, calls a fast handler, and restores a
//! prefix of the register image chosen by the handler's result. When the
//! fast handler must inspect or mutate full caller state it escalates, the
//! remaining registers are saved, and an entire handler takes over.
//!
//! The hardware itself — registers, control and status registers, and the
//! memory that holds register images — is modeled by [`hal::Machine`], and
//! every step of the dispatcher is an executable, verified function of that
//! state.

pub mod entire;
pub mod fast;
pub mod hal;
pub mod trampoline;

pub use entire::EntireContext;
pub use entire::EntireContextSeparated;
pub use entire::EntireOutcome;
pub use entire::EntireResult;
pub use entire::FastMail;
pub use fast::FastContext;
pub use fast::FastOutcome;
pub use fast::FastResult;
pub use hal::ContextPtr;
pub use hal::FlowContext;
pub use hal::Machine;
pub use trampoline::reuse_stack_for_trap;
pub use trampoline::soft_trap;
pub use trampoline::trap_entry;

use vstd::prelude::*;

verus! {

use vstd::arithmetic::div_mod::lemma_fundamental_div_mod;
use vstd::arithmetic::div_mod::lemma_mod_bound;

/// Bytes a resident trap handler block occupies at the top of its stack:
/// three word-sized slots (context pointer, fast-handler pointer, scratch
/// cell) and a two-word owning handle for the backing block.
pub const HANDLER_SIZE: usize = 40;

/// Alignment of the resident trap handler block: one machine word.
pub const HANDLER_ALIGN: usize = 8;

/// The resident control block placed at the aligned high end of a trap
/// stack. The words below it serve as the trap-time stack.
///
/// On hardware the block lives inside the memory it owns and the
/// mode-scratch register points at it; the model records that address in
/// [`TrapHandler::addr`] and keeps the fields as plain values.
#[derive(Clone, Copy, PartialEq, Eq, Debug)]
pub struct TrapHandler {
    /// Handle of the currently-targeted flow context: registers are saved
    /// to it on a trap and loaded from it when the trap returns.
    pub context: ContextPtr,
    /// Address of the fast-path handler. The dispatcher treats it as an
    /// opaque code address; the code it designates is handed to the
    /// dispatcher as a callable.
    pub fast_handler: usize,
    /// The word-sized scratch cell: the trap entry stashes the trapped-in
    /// `a0` here, since `a0` itself is needed to carry the context pointer.
    pub scratch: usize,
    /// Lowest address of the backing block.
    pub base: usize,
    /// One past the highest address of the backing block.
    pub top: usize,
    /// The block's own address: where in the backing block it resides.
    pub addr: usize,
}

/// Where at the base of a block the mail for the entire path is placed:
/// the lowest `align`-aligned address at or above `base`.
pub open spec fn mail_location(base: int, align: int) -> int {
    ((base + align - 1) / align) * align
}

/// The mail placement is aligned and lies within the first `align` bytes
/// of the block.
pub proof fn lemma_mail_location_bounds(base: int, align: int)
    requires
        0 <= base,
        1 <= align,
    ensures
        mail_location(base, align) % align == 0,
        base <= mail_location(base, align) < base + align,
{
    let x = base + align - 1;
    lemma_fundamental_div_mod(x, align);
    lemma_mod_bound(x, align);
    vstd::arithmetic::mul::lemma_mul_is_commutative(align, x / align);
    assert((x / align) * align % align == 0) by {
        vstd::arithmetic::div_mod::lemma_mod_multiples_basic(x / align, align);
    }
}

impl TrapHandler {
    /// The address range of the backing block.
    pub fn range(&self) -> (r: (usize, usize))
        ensures
            r.0 == self.base,
            r.1 == self.top,
    {
        (self.base, self.top)
    }

    /// Where a mail value of the given alignment is placed when the fast
    /// path escalates: at the base of the block, aligned up. The caller
    /// answers for the value being small enough to leave usable stack
    /// between the mail and this handler block.
    pub fn locate_fast_mail(&self, align: usize) -> (addr: usize)
        requires
            1 <= align,
            self.base + align <= usize::MAX,
        ensures
            addr == mail_location(self.base as int, align as int),
    {
        proof {
            lemma_mail_location_bounds(self.base as int, align as int);
        }
        (self.base + (align - 1)) / align * align
    }
}

/// Where in a block topped by `top` the resident handler block is placed:
/// the highest address below `top` that leaves room for [`HANDLER_SIZE`]
/// bytes and is [`HANDLER_ALIGN`]-aligned.
pub open spec fn handler_location(top: int) -> int {
    ((top - HANDLER_SIZE) / (HANDLER_ALIGN as int)) * (HANDLER_ALIGN as int)
}

/// True when a block at `base` of `size` bytes can host the resident
/// handler block: the aligned placement must not fall below the block base.
pub open spec fn handler_fits(base: int, size: int) -> bool {
    &&& base + size >= HANDLER_SIZE
    &&& handler_location(base + size) >= base
}

/// The placement is aligned and sits within [`HANDLER_ALIGN`] bytes of the
/// highest possible position.
pub proof fn lemma_handler_location_bounds(top: int)
    requires
        top >= HANDLER_SIZE,
    ensures
        handler_location(top) % (HANDLER_ALIGN as int) == 0,
        top - HANDLER_SIZE - (HANDLER_ALIGN - 1) <= handler_location(top) <= top - HANDLER_SIZE,
{
    let x = top - HANDLER_SIZE;
    let d = HANDLER_ALIGN as int;
    lemma_fundamental_div_mod(x, d);
    lemma_mod_bound(x, d);
    assert((x / d) * d % d == 0) by {
        vstd::arithmetic::div_mod::lemma_mod_multiples_basic(x / d, d);
    }
}

/// A memory block offered as backing storage for a trap stack: a contiguous
/// byte range with a stable address for its whole loaded lifetime. The
/// dispatcher reads only its placement; the bytes themselves are the
/// hardware's trap-time stack.
pub trait TrapStackBlock: Sized {
    /// Lowest address of the block.
    spec fn spec_base(&self) -> usize;

    /// Length of the block in bytes.
    spec fn spec_size(&self) -> usize;

    /// Lowest address of the block.
    fn base_addr(&self) -> (b: usize)
        ensures
            b == self.spec_base(),
    ;

    /// Length of the block in bytes.
    fn size(&self) -> (s: usize)
        ensures
            s == self.spec_size(),
    ;
}

/// The plain description of a backing block: its base address and length.
#[derive(Clone, Copy, PartialEq, Eq, Debug)]
pub struct StackBlock {
    pub base: usize,
    pub size: usize,
}

impl TrapStackBlock for StackBlock {
    open spec fn spec_base(&self) -> usize {
        self.base
    }

    open spec fn spec_size(&self) -> usize {
        self.size
    }

    fn base_addr(&self) -> (b: usize) {
        self.base
    }

    fn size(&self) -> (s: usize) {
        self.size
    }
}

/// Constructing a trap stack failed: the backing block cannot host an
/// aligned resident handler block.
#[derive(Clone, Copy, PartialEq, Eq, Debug)]
pub struct IllegalStack;

/// A trap stack not installed in the mode-scratch register: its handler
/// block is initialized but the hardware does not point at it.
pub struct FreeTrapStack {
    pub thb: TrapHandler,
}

/// A trap stack installed in the mode-scratch register. It remembers the
/// value the register held before, so unloading can restore it.
pub struct LoadedTrapStack {
    pub thb: TrapHandler,
    pub prev: usize,
}

/// The machine and handle after a free stack `s` is loaded on machine `m`:
/// the mode-scratch register and the handler block address are exchanged.
pub open spec fn load_transition(m: Machine, s: FreeTrapStack) -> (Machine, LoadedTrapStack) {
    (
        Machine { scratch: s.thb.addr, ..m },
        LoadedTrapStack { thb: s.thb, prev: m.scratch },
    )
}

/// The machine and handle after a loaded stack `s` is unloaded on machine
/// `m`: the exchange is undone with the captured previous value.
pub open spec fn unload_transition(m: Machine, s: LoadedTrapStack) -> (Machine, FreeTrapStack) {
    (Machine { scratch: s.prev, ..m }, FreeTrapStack { thb: s.thb })
}

impl FreeTrapStack {
    /// Constructs a free trap stack on a backing block.
    ///
    /// The resident handler block is placed at the highest aligned address
    /// that leaves room for it; the placement succeeds exactly when it does
    /// not fall below the block base. On success the handler block carries
    /// the context handle and the fast-handler address, and its scratch
    /// cell is cleared. No machine state is touched.
    pub fn new<B: TrapStackBlock>(
        block: B,
        context_ptr: ContextPtr,
        fast_handler: usize,
    ) -> (r: Result<FreeTrapStack, IllegalStack>)
        requires
            block.spec_base() + block.spec_size() <= usize::MAX,
        ensures
            r is Ok <==> handler_fits(block.spec_base() as int, block.spec_size() as int),
            r matches Ok(s) ==> s.thb == (TrapHandler {
                context: context_ptr,
                fast_handler,
                scratch: 0,
                base: block.spec_base(),
                top: (block.spec_base() + block.spec_size()) as usize,
                addr: handler_location(block.spec_base() + block.spec_size()) as usize,
            }),
    {
        let bottom = block.base_addr();
        let top = bottom + block.size();
        if top < HANDLER_SIZE {
            return Err(IllegalStack);
        }
        let ptr = Self::locate_ptr(top);
        if ptr >= bottom {
            Ok(FreeTrapStack {
                thb: TrapHandler {
                    context: context_ptr,
                    fast_handler,
                    scratch: 0,
                    base: bottom,
                    top,
                    addr: ptr,
                },
            })
        } else {
            Err(IllegalStack)
        }
    }

    /// Locates the resident handler block in a block topped by `top`:
    /// steps down by the block's size, then rounds down to its alignment.
    pub fn locate_ptr(top: usize) -> (p: usize)
        requires
            top >= HANDLER_SIZE,
        ensures
            p == handler_location(top as int),
    {
        (top - HANDLER_SIZE) / HANDLER_ALIGN * HANDLER_ALIGN
    }

    /// Installs this stack: exchanges the mode-scratch register with the
    /// handler block address. The swapped-out value is captured in the
    /// returned handle so that unloading can restore it.
    pub fn load(self, m: &mut Machine) -> (r: LoadedTrapStack)
        ensures
            *final(m) == load_transition(*old(m), self).0,
            r == load_transition(*old(m), self).1,
    {
        let prev = m.scratch;
        m.scratch = self.thb.addr;
        LoadedTrapStack { thb: self.thb, prev }
    }
}

impl LoadedTrapStack {
    /// The value swapped out of the mode-scratch register when this stack
    /// was loaded.
    pub fn val(&self) -> (v: usize)
        ensures
            v == self.prev,
    {
        self.prev
    }

    /// Uninstalls this stack: exchanges the mode-scratch register back to
    /// the captured previous value. The register must still point at this
    /// stack's handler block — anything else means a foreign loader
    /// intervened, which the hardware cannot recover from.
    pub fn unload(self, m: &mut Machine) -> (r: FreeTrapStack)
        requires
            old(m).scratch == self.thb.addr,
        ensures
            *final(m) == unload_transition(*old(m), self).0,
            r == unload_transition(*old(m), self).1,
    {
        m.scratch = self.prev;
        FreeTrapStack { thb: self.thb }
    }
}

/// Any block whose size covers the handler block plus its alignment can
/// host it, whatever the base address: construction is then guaranteed to
/// succeed.
pub proof fn lemma_block_suffices(base: int, size: int)
    requires
        0 <= base,
        size >= HANDLER_SIZE + HANDLER_ALIGN,
    ensures
        handler_fits(base, size),
{
    lemma_handler_location_bounds(base + size);
}

/// Loading a free stack and unloading it right away returns the machine to
/// exactly its previous state — in particular the mode-scratch register —
/// and hands back a free handle to the same handler block. The unload
/// precondition is met by construction: after the load the register holds
/// the handler block address.
pub proof fn lemma_load_unload_round_trip(m: Machine, s: FreeTrapStack)
    ensures
        ({
            let (m1, l) = load_transition(m, s);
            let (m2, f) = unload_transition(m1, l);
            &&& m1.scratch == l.thb.addr
            &&& m2 == m
            &&& f.thb == s.thb
        }),
{
}

/// One step of the trap-stack lifecycle, as it acts on the mode-scratch
/// register: a load installs a handler block address, an unload removes
/// the innermost one.
#[derive(Clone, Copy, PartialEq, Eq, Debug)]
pub enum StackOp {
    /// [`FreeTrapStack::load`] of a stack whose handler block sits at the
    /// given address.
    Load(usize),
    /// [`LoadedTrapStack::unload`] of the innermost loaded stack.
    Unload,
}

/// Runs a sequence of lifecycle steps over the mode-scratch register.
///
/// `held` is the nest of captured previous values, innermost last: exactly
/// the `prev` cells of the currently-loaded handles. A load installs the
/// new address and captures the old register value, as [`load_transition`]
/// does; an unload under strict last-in-first-out use exchanges the
/// innermost captured value back, as [`unload_transition`] does with the
/// innermost handle. An unload with nothing held has no handle to act
/// through and is skipped.
pub open spec fn run_nest(scratch: usize, held: Seq<usize>, ops: Seq<StackOp>) -> (usize, Seq<
    usize,
>)
    decreases ops.len(),
{
    if ops.len() == 0 {
        (scratch, held)
    } else {
        let rest = ops.subrange(1, ops.len() as int);
        match ops[0] {
            StackOp::Load(a) => run_nest(a, held.push(scratch), rest),
            StackOp::Unload => if held.len() == 0 {
                run_nest(scratch, held, rest)
            } else {
                run_nest(held.last(), held.drop_last(), rest)
            },
        }
    }
}

/// A strictly nested arrangement of load/unload pairs: either nothing, or
/// one load, a nest inside it, its matching unload, and a sibling nest
/// after it. Every strict last-in-first-out use of trap stacks has this
/// shape.
pub enum Nest {
    Done,
    Pair(usize, Box<Nest>, Box<Nest>),
}

/// The flat sequence of lifecycle steps a nest performs.
pub open spec fn nest_ops(n: Nest) -> Seq<StackOp>
    decreases n,
{
    match n {
        Nest::Done => Seq::empty(),
        Nest::Pair(a, inner, rest) => seq![StackOp::Load(a)] + nest_ops(*inner) + seq![
            StackOp::Unload,
        ] + nest_ops(*rest),
    }
}

/// Running concatenated step sequences is running one after the other.
pub proof fn lemma_run_nest_append(scratch: usize, held: Seq<usize>, x: Seq<StackOp>, y: Seq<
    StackOp,
>)
    ensures
        run_nest(scratch, held, x + y) == ({
            let (s1, h1) = run_nest(scratch, held, x);
            run_nest(s1, h1, y)
        }),
    decreases x.len(),
{
    if x.len() == 0 {
        assert(x + y =~= y);
    } else {
        let rest = x.subrange(1, x.len() as int);
        assert((x + y).subrange(1, (x + y).len() as int) =~= rest + y);
        match x[0] {
            StackOp::Load(a) => {
                lemma_run_nest_append(a, held.push(scratch), rest, y);
            },
            StackOp::Unload => {
                if held.len() == 0 {
                    lemma_run_nest_append(scratch, held, rest, y);
                } else {
                    lemma_run_nest_append(held.last(), held.drop_last(), rest, y);
                }
            },
        }
    }
}

/// Strict last-in-first-out nesting of loads and unloads restores the
/// mode-scratch register to the outermost pre-value: any nest of matched
/// load/unload pairs, however the pairs are arranged and whatever
/// addresses they install, ends with the register — and the whole nest of
/// captured values — exactly as it began.
pub proof fn lemma_lifo_nesting_restores_scratch(n: Nest, scratch: usize, held: Seq<usize>)
    ensures
        run_nest(scratch, held, nest_ops(n)) == (scratch, held),
    decreases n,
{
    match n {
        Nest::Done => {},
        Nest::Pair(a, inner, rest) => {
            let load = seq![StackOp::Load(a)];
            let unload = seq![StackOp::Unload];
            let none: Seq<StackOp> = Seq::empty();
            assert(load.subrange(1, 1) =~= none);
            assert(unload.subrange(1, 1) =~= none);
            assert(run_nest(a, held.push(scratch), none) == (a, held.push(scratch)));
            assert(run_nest(scratch, held, none) == (scratch, held));
            assert(held.push(scratch).drop_last() =~= held);
            assert(nest_ops(n) =~= load + (nest_ops(*inner) + (unload + nest_ops(*rest))));
            lemma_run_nest_append(
                scratch,
                held,
                load,
                nest_ops(*inner) + (unload + nest_ops(*rest)),
            );
            assert(run_nest(scratch, held, load) == (a, held.push(scratch)));
            lemma_run_nest_append(
                a,
                held.push(scratch),
                nest_ops(*inner),
                unload + nest_ops(*rest),
            );
            lemma_lifo_nesting_restores_scratch(*inner, a, held.push(scratch));
            lemma_run_nest_append(a, held.push(scratch), unload, nest_ops(*rest));
            assert(run_nest(a, held.push(scratch), unload) == (scratch, held));
            lemma_lifo_nesting_restores_scratch(*rest, scratch, held);
        },
    }
}

} // verus!
