//! The trap entry: the dispatcher that turns a hardware trap into a call of
//! the fast handler and, on escalation, of the entire handler.
//!
//! On hardware this routine is the target of the trap-vector register. Its
//! steps, in order: exchange `sp` with the mode-scratch register, stash the
//! trapped `a0` in the handler block's scratch cell, save the caller-saved
//! subset (`ra`, `t[0..7]`) into the targeted flow context, call the fast
//! handler, and restore a prefix of the flow context chosen by the result —
//! the restoration ladder. A [`FastResult::Continue`] result escalates
//! instead: the callee-saved registers are saved, completing the image, the
//! entire handler runs on the mail the fast path sent, and its result picks
//! the restore prefix.
//!
//! Here the routine is a verified function over [`Machine`]. The handlers
//! arrive as callables; their behaviour enters the contract through
//! `call_ensures`. What the dispatcher guarantees whatever a handler does
//! is [`dispatch_post`]: the prologue it ran before the handler, and the
//! epilogue it applied to whatever the handler returned.

use vstd::prelude::*;

verus! {

use crate::LoadedTrapStack;
use crate::TrapHandler;
use crate::entire::EntireContext;
use crate::entire::EntireOutcome;
use crate::entire::entire_code;
use crate::fast::FastContext;
use crate::fast::FastOutcome;
use crate::fast::FastResult;
use crate::fast::fast_code;
use crate::hal::FlowContext;
use crate::hal::Machine;

/// The restoration ladder: which registers the epilogue loads from the
/// targeted flow context `fc`, given the result level, and which keep the
/// values `pre` they had when the ladder started.
///
/// - level 0 restores `a[0..2]`;
/// - level 1 restores `a[0..8]`;
/// - level 2 restores `ra`, `t[0..7]` and `a[0..8]` — the caller-saved set;
/// - level 3 and up also restores `s[0..12]` — the full image.
///
/// `gp`, `tp`, `sp` and `pc` are never loaded by the ladder: they travel
/// through the live registers and the control and status registers.
pub open spec fn ladder_regs(pre: FlowContext, fc: FlowContext, level: int, post: FlowContext) -> bool {
    &&& post.a[0] == fc.a[0]
    &&& post.a[1] == fc.a[1]
    &&& forall|i: int|
        2 <= i < 8 ==> post.a[i] == (if level >= 1 {
            fc.a[i]
        } else {
            pre.a[i]
        })
    &&& post.ra == (if level >= 2 {
        fc.ra
    } else {
        pre.ra
    })
    &&& forall|i: int|
        0 <= i < 7 ==> post.t[i] == (if level >= 2 {
            fc.t[i]
        } else {
            pre.t[i]
        })
    &&& forall|i: int|
        0 <= i < 12 ==> post.s[i] == (if level >= 3 {
            fc.s[i]
        } else {
            pre.s[i]
        })
    &&& post.gp == pre.gp
    &&& post.tp == pre.tp
    &&& post.sp == pre.sp
    &&& post.pc == pre.pc
}

/// What the prologue hands the fast handler, given the machine `m` and the
/// resident handler block `thb` at the moment of the trap:
///
/// - `sp` and the mode-scratch register are exchanged, so the handler runs
///   with `sp` at the handler block and the trapped `sp` parked in the
///   register;
/// - the trapped `a0` is stashed in the handler block's scratch cell;
/// - `ra` and the temporaries of the trapped flow are saved into the
///   targeted flow context; the argument and callee-saved registers are
///   not — deferring them is what makes the fast path fast.
pub open spec fn fast_entry_ok(m: Machine, thb: TrapHandler, c: FastContext) -> bool {
    let p = thb.context.0 as int;
    &&& c.thb == (TrapHandler { scratch: m.regs.a[0], ..thb })
    &&& c.m.regs == (FlowContext { sp: thb.addr, ..m.regs })
    &&& c.m.scratch == m.regs.sp
    &&& c.m.epc == m.epc
    &&& c.m.cause == m.cause
    &&& c.m.ctxs@ == m.ctxs@.update(
        p,
        (FlowContext { ra: m.regs.ra, t: m.regs.t, ..m.ctxs@[p] }),
    )
}

/// What the dispatcher hands the entire handler, given the outcome `o` the
/// fast handler escalated with: the callee-saved registers are saved into
/// the targeted flow context — completing the register image — and the
/// mail moves over unchanged.
pub open spec fn entire_entry_ok<T>(o: FastOutcome<T>, ec: EntireContext<T>) -> bool {
    let p = o.thb.context.0 as int;
    &&& ec.thb == o.thb
    &&& o.mail == Some(ec.mail)
    &&& ec.m.regs == o.m.regs
    &&& ec.m.scratch == o.m.scratch
    &&& ec.m.epc == o.m.epc
    &&& ec.m.cause == o.m.cause
    &&& ec.m.ctxs@ == o.m.ctxs@.update(p, (FlowContext { s: o.m.regs.s, ..o.m.ctxs@[p] }))
}

/// What the epilogue leaves behind, given the machine `mm` and handler
/// block `thb` as the last handler returned them and the ladder `level`
/// its result selected: the ladder is applied from the targeted flow
/// context, `sp` and the mode-scratch register are exchanged back — the
/// register points at the handler block again, unless a handler moved
/// things — and control returns to the address in the exception program
/// counter. The returned stack handle carries the handler block as the
/// handlers left it and the captured previous scratch value `prev`.
pub open spec fn epilogue_ok(
    mm: Machine,
    thb: TrapHandler,
    level: int,
    prev: usize,
    rm: Machine,
    rs: LoadedTrapStack,
) -> bool {
    let fc = mm.ctxs@[thb.context.0 as int];
    &&& ladder_regs((FlowContext { sp: mm.scratch, pc: mm.epc, ..mm.regs }), fc, level, rm.regs)
    &&& rm.scratch == mm.regs.sp
    &&& rm.epc == mm.epc
    &&& rm.cause == mm.cause
    &&& rm.ctxs@ == mm.ctxs@
    &&& rs.thb == thb
    &&& rs.prev == prev
}

/// What the dispatcher requires of the two handlers, beyond the hardware
/// invariant that the mode-scratch register points at the loaded handler
/// block:
///
/// - the fast handler accepts the context the prologue builds, with the
///   trapped argument registers;
/// - whatever it returns from that context is well-formed;
/// - the entire handler accepts every well-formed escalated context;
/// - whatever the entire handler returns from a well-formed context is
///   well-formed.
pub open spec fn dispatch_pre<
    T,
    F: FnOnce(FastContext, usize, usize, usize, usize, usize, usize, usize) -> FastOutcome<T>,
    E: FnOnce(EntireContext<T>) -> EntireOutcome,
>(m: Machine, thb: TrapHandler, fast: F, entire: E) -> bool {
    &&& forall|c: FastContext| #[trigger] fast_entry_ok(m, thb, c) ==> call_requires(
        fast,
        (c, m.regs.a[1], m.regs.a[2], m.regs.a[3], m.regs.a[4], m.regs.a[5], m.regs.a[6], m.regs.a[7]),
    )
    &&& forall|c: FastContext, o: FastOutcome<T>|
        fast_entry_ok(m, thb, c) && #[trigger] call_ensures(
            fast,
            (c, m.regs.a[1], m.regs.a[2], m.regs.a[3], m.regs.a[4], m.regs.a[5], m.regs.a[6], m.regs.a[7]),
            o,
        ) ==> o.wf()
    &&& forall|o: FastOutcome<T>, ec: EntireContext<T>|
        o.wf() && o.res is Continue && #[trigger] entire_entry_ok(o, ec) ==> call_requires(
            entire,
            (ec,),
        )
    &&& forall|ec: EntireContext<T>, eo: EntireOutcome|
        ec.wf() && #[trigger] call_ensures(entire, (ec,), eo) ==> eo.wf()
}

/// Everything the dispatcher guarantees about a trap, whatever the
/// handlers did: there is a fast-path context `c` built by the prologue
/// and an outcome `o` the fast handler produced from it; if `o` escalates,
/// there are an entire-path context `ec` built from `o` and an outcome
/// `eo` the entire handler produced from it, and the epilogue applied
/// `eo`'s ladder level to `eo`'s machine; otherwise the epilogue applied
/// `o`'s ladder level to `o`'s machine.
pub open spec fn dispatch_post<
    T,
    F: FnOnce(FastContext, usize, usize, usize, usize, usize, usize, usize) -> FastOutcome<T>,
    E: FnOnce(EntireContext<T>) -> EntireOutcome,
>(
    m: Machine,
    stack: LoadedTrapStack,
    fast: F,
    entire: E,
    rm: Machine,
    rs: LoadedTrapStack,
) -> bool {
    exists|c: FastContext, o: FastOutcome<T>|
        {
            &&& fast_entry_ok(m, stack.thb, c)
            &&& #[trigger] call_ensures(
                fast,
                (c, m.regs.a[1], m.regs.a[2], m.regs.a[3], m.regs.a[4], m.regs.a[5], m.regs.a[6], m.regs.a[7]),
                o,
            )
            &&& if o.res is Continue {
                exists|ec: EntireContext<T>, eo: EntireOutcome|
                    {
                        &&& entire_entry_ok(o, ec)
                        &&& #[trigger] call_ensures(entire, (ec,), eo)
                        &&& epilogue_ok(eo.m, eo.thb, entire_code(eo.res), stack.prev, rm, rs)
                    }
            } else {
                epilogue_ok(o.m, o.thb, fast_code(o.res), stack.prev, rm, rs)
            }
        }
}

/// Applies the restoration ladder: loads the selected prefix of `fc` into
/// the live registers and leaves everything else alone.
fn apply_ladder(m: &mut Machine, fc: &FlowContext, level: usize)
    ensures
        ladder_regs(old(m).regs, *fc, level as int, final(m).regs),
        *final(m) == (Machine { regs: final(m).regs, ..*old(m) }),
{
    if level >= 3 {
        m.regs.s = fc.s;
    }
    if level >= 2 {
        m.regs.ra = fc.ra;
        m.regs.t = fc.t;
    }
    if level >= 1 {
        m.regs.a = fc.a;
    } else {
        m.regs.a[0] = fc.a[0];
        m.regs.a[1] = fc.a[1];
    }
}

/// The epilogue: applies the ladder from the targeted flow context,
/// exchanges `sp` back with the mode-scratch register, and returns to the
/// address in the exception program counter.
fn epilogue(m: Machine, thb: TrapHandler, level: usize, prev: usize) -> (r: (
    Machine,
    LoadedTrapStack,
))
    requires
        m.valid_ptr(thb.context),
    ensures
        epilogue_ok(m, thb, level as int, prev, r.0, r.1),
{
    let mut m = m;
    let fc = m.context(thb.context);
    apply_ladder(&mut m, &fc, level);
    let user = m.scratch;
    m.scratch = m.regs.sp;
    m.regs.sp = user;
    m.regs.pc = m.epc;
    (m, LoadedTrapStack { thb, prev })
}

/// The trap entry: dispatches one trap on machine `m`, whose mode-scratch
/// register points at the handler block of `stack`.
///
/// `fast` is the code the handler block's fast-handler address designates,
/// and `entire` the code a [`FastResult::Continue`] escalation hands over;
/// the model receives them as callables, since a code address is opaque to
/// it. The machine and the stack come back as the handlers and the
/// epilogue left them; [`dispatch_post`] ties them to what the handlers
/// returned.
pub fn trap_entry<
    T,
    F: FnOnce(FastContext, usize, usize, usize, usize, usize, usize, usize) -> FastOutcome<T>,
    E: FnOnce(EntireContext<T>) -> EntireOutcome,
>(m: Machine, stack: LoadedTrapStack, fast: F, entire: E) -> (r: (Machine, LoadedTrapStack))
    requires
        m.scratch == stack.thb.addr,
        m.valid_ptr(stack.thb.context),
        dispatch_pre(m, stack.thb, fast, entire),
    ensures
        dispatch_post(m, stack, fast, entire, r.0, r.1),
{
    let ghost m0 = m;
    let ghost thb0 = stack.thb;
    let LoadedTrapStack { thb, prev } = stack;
    let mut m = m;
    let mut thb = thb;
    // Exchange sp with the mode-scratch register: sp now addresses the
    // handler block, the register parks the trapped sp.
    let user_sp = m.regs.sp;
    m.regs.sp = m.scratch;
    m.scratch = user_sp;
    // Stash the trapped a0 in the scratch cell; a0 itself will carry the
    // context.
    thb.scratch = m.regs.a[0];
    // Save as few registers as possible: ra and the temporaries.
    let p = thb.context;
    let mut fc = m.context(p);
    fc.ra = m.regs.ra;
    fc.t = m.regs.t;
    m.set_context(p, fc);
    // Call the fast handler with the still-live argument registers.
    let a1 = m.regs.a[1];
    let a2 = m.regs.a[2];
    let a3 = m.regs.a[3];
    let a4 = m.regs.a[4];
    let a5 = m.regs.a[5];
    let a6 = m.regs.a[6];
    let a7 = m.regs.a[7];
    let ctx = FastContext { m, thb };
    proof {
        assert(fast_entry_ok(m0, thb0, ctx));
    }
    let out = fast(ctx, a1, a2, a3, a4, a5, a6, a7);
    let ghost o_g = out;
    let FastOutcome { m: mut m2, thb: thb2, res, mail } = out;
    match mail {
        Some(t) => {
            // Escalation: complete the register image with the
            // callee-saved registers, then hand over to the entire
            // handler.
            let p2 = thb2.context;
            let mut fc2 = m2.context(p2);
            fc2.s = m2.regs.s;
            m2.set_context(p2, fc2);
            let ec = EntireContext { m: m2, thb: thb2, mail: t };
            proof {
                assert(entire_entry_ok(o_g, ec));
            }
            let eo = entire(ec);
            let ghost eo_g = eo;
            let EntireOutcome { m: m3, thb: thb3, res: eres } = eo;
            let level = eres.code();
            let r = epilogue(m3, thb3, level, prev);
            proof {
                assert(fast_entry_ok(m0, stack.thb, ctx) && call_ensures(
                    fast,
                    (ctx, m0.regs.a[1], m0.regs.a[2], m0.regs.a[3], m0.regs.a[4], m0.regs.a[5], m0.regs.a[6], m0.regs.a[7]),
                    o_g,
                ));
                assert(entire_entry_ok(o_g, ec) && call_ensures(entire, (ec,), eo_g)
                    && epilogue_ok(eo_g.m, eo_g.thb, entire_code(eo_g.res), stack.prev, r.0, r.1));
            }
            r
        },
        None => {
            // The ladder: the result code is the number of branches the
            // hardware falls through, hence the size of the restored
            // prefix.
            let level = res.code();
            let r = epilogue(m2, thb2, level, prev);
            proof {
                assert(fast_entry_ok(m0, stack.thb, ctx) && call_ensures(
                    fast,
                    (ctx, m0.regs.a[1], m0.regs.a[2], m0.regs.a[3], m0.regs.a[4], m0.regs.a[5], m0.regs.a[6], m0.regs.a[7]),
                    o_g,
                ));
                assert(epilogue_ok(o_g.m, o_g.thb, fast_code(o_g.res), stack.prev, r.0, r.1));
            }
            r
        },
    }
}

/// On entry to the fast path the handler observes the trapped flow
/// exactly: the scratch cell holds the trapped-in `a0`, the targeted flow
/// context holds the trapped-in `ra` and temporaries, the mode-scratch
/// register parks the trapped-in `sp`, and the argument registers beyond
/// `a0` are still live and untouched.
pub proof fn lemma_fast_entry_observation(m: Machine, thb: TrapHandler, c: FastContext)
    requires
        m.valid_ptr(thb.context),
        fast_entry_ok(m, thb, c),
    ensures
        c.thb.scratch == m.regs.a[0],
        c.fc().ra == m.regs.ra,
        forall|i: int| 0 <= i < 7 ==> c.fc().t[i] == m.regs.t[i],
        c.m.scratch == m.regs.sp,
        forall|i: int| 1 <= i < 8 ==> c.m.regs.a[i] == m.regs.a[i],
        c.wf(),
{
}

/// The restoration ladder follows the result exactly: each fast-path
/// result selects its documented prefix of the flow context, and every
/// register outside the prefix keeps the value it had when the ladder
/// started.
pub proof fn lemma_ladder_prefixes(
    pre: FlowContext,
    fc: FlowContext,
    r: FastResult,
    post: FlowContext,
)
    requires
        !(r is Continue),
        ladder_regs(pre, fc, fast_code(r), post),
    ensures
        post.a[0] == fc.a[0] && post.a[1] == fc.a[1],
        r is FastCall ==> forall|i: int| 2 <= i < 8 ==> post.a[i] == pre.a[i],
        !(r is FastCall) ==> forall|i: int| 0 <= i < 8 ==> post.a[i] == fc.a[i],
        (r is FastCall || r is Call) ==> post.ra == pre.ra && (forall|i: int|
            0 <= i < 7 ==> post.t[i] == pre.t[i]),
        (r is Restore || r is Switch) ==> post.ra == fc.ra && (forall|i: int|
            0 <= i < 7 ==> post.t[i] == fc.t[i]),
        r is Switch ==> forall|i: int| 0 <= i < 12 ==> post.s[i] == fc.s[i],
        !(r is Switch) ==> forall|i: int| 0 <= i < 12 ==> post.s[i] == pre.s[i],
        post.gp == pre.gp && post.tp == pre.tp && post.sp == pre.sp && post.pc == pre.pc,
{
}

/// The round trip of the argument registers: if the targeted flow context
/// holds the eight argument values — as [`FastContext::save_args`] leaves
/// it — then after a plain-restore ladder every argument register holds
/// the value that trapped in, the stashed `a0` included.
pub proof fn lemma_save_args_round_trip(
    pre: FlowContext,
    fc: FlowContext,
    post: FlowContext,
    x0: usize,
    x1: usize,
    x2: usize,
    x3: usize,
    x4: usize,
    x5: usize,
    x6: usize,
    x7: usize,
)
    requires
        fc.a@ == seq![x0, x1, x2, x3, x4, x5, x6, x7],
        ladder_regs(pre, fc, fast_code(FastResult::Restore), post),
    ensures
        post.a[0] == x0 && post.a[1] == x1 && post.a[2] == x2 && post.a[3] == x3,
        post.a[4] == x4 && post.a[5] == x5 && post.a[6] == x6 && post.a[7] == x7,
{
}

/// The shape of a fast handler run that saves the trapped arguments and
/// touches nothing else: the targeted flow context receives the eight
/// argument values — the stashed `a0` first — and machine, handler block
/// and the other contexts stay put.
pub open spec fn saves_trapped_args<T>(
    c: FastContext,
    a1: usize,
    a2: usize,
    a3: usize,
    a4: usize,
    a5: usize,
    a6: usize,
    a7: usize,
    o: FastOutcome<T>,
) -> bool {
    let p = c.thb.context.0 as int;
    &&& o.thb == c.thb
    &&& o.m.regs == c.m.regs
    &&& o.m.scratch == c.m.scratch
    &&& o.m.epc == c.m.epc
    &&& o.m.cause == c.m.cause
    &&& o.m.ctxs@ == c.m.ctxs@.update(p, (FlowContext { a: o.m.ctxs@[p].a, ..c.m.ctxs@[p] }))
    &&& o.m.ctxs@[p].a@ == seq![c.thb.scratch, a1, a2, a3, a4, a5, a6, a7]
}

/// The saving shape combined with a plain-restore result.
pub open spec fn saves_args_and_restores<T>(
    c: FastContext,
    a1: usize,
    a2: usize,
    a3: usize,
    a4: usize,
    a5: usize,
    a6: usize,
    a7: usize,
    o: FastOutcome<T>,
) -> bool {
    &&& saves_trapped_args(c, a1, a2, a3, a4, a5, a6, a7, o)
    &&& o.res is Restore
}

/// The saving shape combined with an escalation carrying mail `t`.
pub open spec fn saves_args_and_continues<T>(
    c: FastContext,
    a1: usize,
    a2: usize,
    a3: usize,
    a4: usize,
    a5: usize,
    a6: usize,
    a7: usize,
    t: T,
    o: FastOutcome<T>,
) -> bool {
    &&& saves_trapped_args(c, a1, a2, a3, a4, a5, a6, a7, o)
    &&& o.res is Continue
    &&& o.mail == Some(t)
}

/// The shape of an entire handler run that reads its mail and elects a
/// full restore without moving anything.
pub open spec fn entire_restores_unchanged<T>(ec: EntireContext<T>, eo: EntireOutcome) -> bool {
    &&& eo.m == ec.m
    &&& eo.thb == ec.thb
    &&& eo.res is Restore
}

/// The trapped arguments round-trip through the whole dispatcher: when
/// the fast handler saves the eight trapped argument values and elects a
/// plain restore, every argument register observed after the epilogue
/// equals the value that trapped in — the stashed `a0` included — control
/// returns to the trapped flow at the captured program counter with its
/// `sp`, and the mode-scratch register points at the handler block again.
pub proof fn lemma_dispatch_round_trip<
    T,
    F: FnOnce(FastContext, usize, usize, usize, usize, usize, usize, usize) -> FastOutcome<T>,
    E: FnOnce(EntireContext<T>) -> EntireOutcome,
>(
    m: Machine,
    stack: LoadedTrapStack,
    fast: F,
    entire: E,
    rm: Machine,
    rs: LoadedTrapStack,
)
    requires
        m.valid_ptr(stack.thb.context),
        dispatch_post(m, stack, fast, entire, rm, rs),
        forall|c: FastContext, o: FastOutcome<T>|
            fast_entry_ok(m, stack.thb, c) && #[trigger] call_ensures(
                fast,
                (c, m.regs.a[1], m.regs.a[2], m.regs.a[3], m.regs.a[4], m.regs.a[5], m.regs.a[6], m.regs.a[7]),
                o,
            ) ==> saves_args_and_restores(
                c,
                m.regs.a[1],
                m.regs.a[2],
                m.regs.a[3],
                m.regs.a[4],
                m.regs.a[5],
                m.regs.a[6],
                m.regs.a[7],
                o,
            ),
    ensures
        forall|i: int| 0 <= i < 8 ==> rm.regs.a[i] == m.regs.a[i],
        rm.regs.sp == m.regs.sp,
        rm.regs.pc == m.epc,
        rm.scratch == stack.thb.addr,
        rs.thb == (TrapHandler { scratch: m.regs.a[0], ..stack.thb }),
        rs.prev == stack.prev,
{
    let (c, o): (FastContext, FastOutcome<T>) = choose|c: FastContext, o: FastOutcome<T>|
        {
            &&& fast_entry_ok(m, stack.thb, c)
            &&& #[trigger] call_ensures(
                fast,
                (c, m.regs.a[1], m.regs.a[2], m.regs.a[3], m.regs.a[4], m.regs.a[5], m.regs.a[6], m.regs.a[7]),
                o,
            )
            &&& if o.res is Continue {
                exists|ec: EntireContext<T>, eo: EntireOutcome|
                    {
                        &&& entire_entry_ok(o, ec)
                        &&& #[trigger] call_ensures(entire, (ec,), eo)
                        &&& epilogue_ok(eo.m, eo.thb, entire_code(eo.res), stack.prev, rm, rs)
                    }
            } else {
                epilogue_ok(o.m, o.thb, fast_code(o.res), stack.prev, rm, rs)
            }
        };
    assert(saves_args_and_restores(
        c,
        m.regs.a[1],
        m.regs.a[2],
        m.regs.a[3],
        m.regs.a[4],
        m.regs.a[5],
        m.regs.a[6],
        m.regs.a[7],
        o,
    ));
    let p = c.thb.context.0 as int;
    assert(o.m.ctxs@[p].a@[0] == m.regs.a[0]);
}

/// The full round trip through an escalation: when the fast handler saves
/// the trapped arguments and escalates with mail `t`, and the entire
/// handler elects a plain restore without moving anything, then the entire
/// handler is invoked — on a context whose mail is exactly `t` — and after
/// the epilogue the whole register image of the trapped flow is back:
/// arguments, `ra`, temporaries and callee-saved registers, with control
/// at the captured program counter and the trapped `sp`.
pub proof fn lemma_dispatch_escalation<
    T,
    F: FnOnce(FastContext, usize, usize, usize, usize, usize, usize, usize) -> FastOutcome<T>,
    E: FnOnce(EntireContext<T>) -> EntireOutcome,
>(
    m: Machine,
    stack: LoadedTrapStack,
    fast: F,
    entire: E,
    t: T,
    rm: Machine,
    rs: LoadedTrapStack,
)
    requires
        m.valid_ptr(stack.thb.context),
        dispatch_post(m, stack, fast, entire, rm, rs),
        forall|c: FastContext, o: FastOutcome<T>|
            fast_entry_ok(m, stack.thb, c) && #[trigger] call_ensures(
                fast,
                (c, m.regs.a[1], m.regs.a[2], m.regs.a[3], m.regs.a[4], m.regs.a[5], m.regs.a[6], m.regs.a[7]),
                o,
            ) ==> saves_args_and_continues(
                c,
                m.regs.a[1],
                m.regs.a[2],
                m.regs.a[3],
                m.regs.a[4],
                m.regs.a[5],
                m.regs.a[6],
                m.regs.a[7],
                t,
                o,
            ),
        forall|ec: EntireContext<T>, eo: EntireOutcome| #[trigger] call_ensures(entire, (ec,), eo)
            ==> entire_restores_unchanged(ec, eo),
    ensures
        exists|ec: EntireContext<T>, eo: EntireOutcome|
            #[trigger] call_ensures(entire, (ec,), eo) && ec.mail == t,
        forall|i: int| 0 <= i < 8 ==> rm.regs.a[i] == m.regs.a[i],
        rm.regs.ra == m.regs.ra,
        forall|i: int| 0 <= i < 7 ==> rm.regs.t[i] == m.regs.t[i],
        forall|i: int| 0 <= i < 12 ==> rm.regs.s[i] == m.regs.s[i],
        rm.regs.sp == m.regs.sp,
        rm.regs.pc == m.epc,
        rm.scratch == stack.thb.addr,
        rs.prev == stack.prev,
{
    let (c, o): (FastContext, FastOutcome<T>) = choose|c: FastContext, o: FastOutcome<T>|
        {
            &&& fast_entry_ok(m, stack.thb, c)
            &&& #[trigger] call_ensures(
                fast,
                (c, m.regs.a[1], m.regs.a[2], m.regs.a[3], m.regs.a[4], m.regs.a[5], m.regs.a[6], m.regs.a[7]),
                o,
            )
            &&& if o.res is Continue {
                exists|ec: EntireContext<T>, eo: EntireOutcome|
                    {
                        &&& entire_entry_ok(o, ec)
                        &&& #[trigger] call_ensures(entire, (ec,), eo)
                        &&& epilogue_ok(eo.m, eo.thb, entire_code(eo.res), stack.prev, rm, rs)
                    }
            } else {
                epilogue_ok(o.m, o.thb, fast_code(o.res), stack.prev, rm, rs)
            }
        };
    assert(saves_args_and_continues(
        c,
        m.regs.a[1],
        m.regs.a[2],
        m.regs.a[3],
        m.regs.a[4],
        m.regs.a[5],
        m.regs.a[6],
        m.regs.a[7],
        t,
        o,
    ));
    let (ec, eo): (EntireContext<T>, EntireOutcome) = choose|
        ec: EntireContext<T>,
        eo: EntireOutcome,
    |
        {
            &&& entire_entry_ok(o, ec)
            &&& #[trigger] call_ensures(entire, (ec,), eo)
            &&& epilogue_ok(eo.m, eo.thb, entire_code(eo.res), stack.prev, rm, rs)
        };
    assert(ec.mail == t);
    let p = o.thb.context.0 as int;
    assert(ec.m.ctxs@[p].a@[0] == m.regs.a[0]);
    assert(ec.m.ctxs@[p].ra == m.regs.ra);
    assert(ec.m.ctxs@[p].t == m.regs.t);
    assert(ec.m.ctxs@[p].s == o.m.regs.s);
}

/// Escalation delivers the mail intact: when the fast handler terminates
/// with [`FastContext::continue_with`] on payload `t`, the context the
/// entire handler is invoked on carries exactly `t`, targets the same
/// handler block, and holds the complete register image — the callee-saved
/// registers as the fast handler left them included. The dispatcher then
/// resumes the ladder with whatever result the entire handler returns.
pub proof fn lemma_escalation_delivers_mail<T>(
    c: FastContext,
    t: T,
    o: FastOutcome<T>,
    ec: EntireContext<T>,
)
    requires
        c.wf(),
        o == (FastOutcome { m: c.m, thb: c.thb, res: FastResult::Continue, mail: Some(t) }),
        entire_entry_ok(o, ec),
    ensures
        ec.mail == t,
        ec.thb == c.thb,
        ec.wf(),
        forall|i: int| 0 <= i < 12 ==> ec.m.ctx(ec.thb.context).s[i] == c.m.regs.s[i],
{
}

/// Reuses the current stack as a trap stack: steps `sp` down past a
/// handler block and rounds it down to the block's alignment, so that the
/// words at the adjusted `sp` can host the resident handler block. Meant
/// for boot code that turns its own stack into the first trap stack.
pub fn reuse_stack_for_trap(m: &mut Machine)
    requires
        old(m).regs.sp >= crate::HANDLER_SIZE,
    ensures
        final(m).regs.sp == crate::handler_location(old(m).regs.sp as int),
        *final(m) == (Machine {
            regs: FlowContext { sp: final(m).regs.sp, ..old(m).regs },
            ..*old(m)
        }),
{
    m.regs.sp = (m.regs.sp - crate::HANDLER_SIZE) / crate::HANDLER_ALIGN * crate::HANDLER_ALIGN;
}

/// The machine at the instant a trap with the given cause is taken: the
/// exception program counter captures the interrupted program counter and
/// the cause register the cause; nothing else has happened yet.
pub open spec fn trapped(m: Machine, cause: usize) -> Machine {
    Machine { epc: m.regs.pc, cause, ..m }
}

/// Fakes a trap from ordinary code: sets the exception program counter to
/// the resume point — so that a plain restore returns right after the call
/// site — writes the given cause, and enters the trap routine.
pub fn soft_trap<
    T,
    F: FnOnce(FastContext, usize, usize, usize, usize, usize, usize, usize) -> FastOutcome<T>,
    E: FnOnce(EntireContext<T>) -> EntireOutcome,
>(m: Machine, stack: LoadedTrapStack, cause: usize, fast: F, entire: E) -> (r: (
    Machine,
    LoadedTrapStack,
))
    requires
        m.scratch == stack.thb.addr,
        m.valid_ptr(stack.thb.context),
        dispatch_pre(trapped(m, cause), stack.thb, fast, entire),
    ensures
        dispatch_post(trapped(m, cause), stack, fast, entire, r.0, r.1),
{
    let mut m = m;
    m.epc = m.regs.pc;
    m.cause = cause;
    trap_entry(m, stack, fast, entire)
}

} // verus!
