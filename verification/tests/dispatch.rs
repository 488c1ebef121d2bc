//! Whole-trap scenarios on the machine model: the fast path from trap
//! entry through the restoration ladder to the epilogue.

use fast_trap::hal::FlowContext;
use fast_trap::hal::Machine;
use fast_trap::trampoline::reuse_stack_for_trap;
use fast_trap::trampoline::soft_trap;
use fast_trap::trampoline::trap_entry;
use fast_trap::EntireContext;
use fast_trap::EntireOutcome;
use fast_trap::EntireResult;
use fast_trap::FastContext;
use fast_trap::FastOutcome;
use fast_trap::FastResult;
use fast_trap::FreeTrapStack;
use fast_trap::StackBlock;

fn noop_entire(ec: EntireContext<()>) -> EntireOutcome {
    let (sep, _mail) = ec.split();
    sep.restore()
}

#[test]
fn s1_round_trip_restores_saved_args() {
    let mut m = Machine::new();
    let p = m.add_context(FlowContext::zeroed());
    m.regs.a[0] = 0xAA;
    m.regs.a[1] = 0xBB;
    m.regs.sp = 0x9000;
    m.epc = 0x80_0044;
    let free = FreeTrapStack::new(StackBlock { base: 0x1000, size: 4096 }, p, 0x77).unwrap();
    let loaded = free.load(&mut m);
    let thb_addr = loaded.thb.addr;
    let fast = |ctx: FastContext,
                a1: usize,
                _a2: usize,
                _a3: usize,
                _a4: usize,
                _a5: usize,
                _a6: usize,
                _a7: usize|
     -> FastOutcome<()> {
        let mut c = ctx;
        c.save_args(a1, 0, 0, 0, 0, 0, 0);
        c.restore()
    };
    let (m2, l2) = trap_entry(m, loaded, fast, noop_entire);
    assert_eq!(m2.regs.a[0], 0xAA);
    assert_eq!(m2.regs.a[1], 0xBB);
    assert_eq!(m2.regs.sp, 0x9000);
    assert_eq!(m2.regs.pc, 0x80_0044);
    assert_eq!(m2.scratch, thb_addr);
    assert_eq!(l2.thb.addr, thb_addr);
}

#[test]
fn s2_fast_call_restores_two_args_only() {
    let mut m = Machine::new();
    let p = m.add_context(FlowContext::zeroed());
    m.regs.a = [0xA0, 0xA1, 0xA2, 0xA3, 0xA4, 0xA5, 0xA6, 0xA7];
    let free = FreeTrapStack::new(StackBlock { base: 0x1000, size: 4096 }, p, 0).unwrap();
    let loaded = free.load(&mut m);
    let thb_addr = loaded.thb.addr;
    let fast = |ctx: FastContext,
                _a1: usize,
                _a2: usize,
                _a3: usize,
                _a4: usize,
                _a5: usize,
                _a6: usize,
                _a7: usize|
     -> FastOutcome<()> {
        let mut c = ctx;
        c.write_a(0, 1);
        c.write_a(1, 2);
        c.call(2)
    };
    let (m2, _l2) = trap_entry(m, loaded, fast, noop_entire);
    assert_eq!(m2.regs.a[0], 1);
    assert_eq!(m2.regs.a[1], 2);
    // The remaining argument registers keep their pre-handler hardware
    // values.
    assert_eq!(&m2.regs.a[2..], &[0xA2, 0xA3, 0xA4, 0xA5, 0xA6, 0xA7]);
    // The target context was zeroed, so the new flow starts at pc 0 with
    // sp 0; the scratch register points at the handler block again.
    assert_eq!(m2.regs.pc, 0);
    assert_eq!(m2.regs.sp, 0);
    assert_eq!(m2.scratch, thb_addr);
}

#[test]
fn complex_call_restores_all_args() {
    let mut m = Machine::new();
    let p = m.add_context(FlowContext::zeroed());
    m.regs.ra = 0xEE;
    m.regs.t = [0xE0, 0xE1, 0xE2, 0xE3, 0xE4, 0xE5, 0xE6];
    let free = FreeTrapStack::new(StackBlock { base: 0x1000, size: 4096 }, p, 0).unwrap();
    let loaded = free.load(&mut m);
    let fast = |ctx: FastContext,
                _a1: usize,
                _a2: usize,
                _a3: usize,
                _a4: usize,
                _a5: usize,
                _a6: usize,
                _a7: usize|
     -> FastOutcome<()> {
        let mut c = ctx;
        for i in 0..8 {
            c.write_a(i, 10 + i);
        }
        c.call(3)
    };
    let (m2, _l2) = trap_entry(m, loaded, fast, noop_entire);
    for i in 0..8 {
        assert_eq!(m2.regs.a[i], 10 + i);
    }
    // A call restores no temporaries: the handler left them alone, so they
    // still hold the trapped flow's values.
    assert_eq!(m2.regs.ra, 0xEE);
    assert_eq!(m2.regs.t, [0xE0, 0xE1, 0xE2, 0xE3, 0xE4, 0xE5, 0xE6]);
}

#[test]
fn s3_switch_to_installs_other_context() {
    let mut m = Machine::new();
    let pa = m.add_context(FlowContext::zeroed());
    let mut b = FlowContext::zeroed();
    b.sp = 0x1234;
    b.pc = 0x5678;
    b.gp = 0x11;
    b.tp = 0x22;
    b.a = [90, 91, 92, 93, 94, 95, 96, 97];
    b.s = [70, 71, 72, 73, 74, 75, 76, 77, 78, 79, 80, 81];
    let pb = m.add_context(b);
    let free = FreeTrapStack::new(StackBlock { base: 0x1000, size: 4096 }, pa, 0).unwrap();
    let loaded = free.load(&mut m);
    let fast = move |ctx: FastContext,
                     _a1: usize,
                     _a2: usize,
                     _a3: usize,
                     _a4: usize,
                     _a5: usize,
                     _a6: usize,
                     _a7: usize|
     -> FastOutcome<()> { ctx.switch_to(pb) };
    let (m2, l2) = trap_entry(m, loaded, fast, noop_entire);
    // The handler block now targets the other context, and the hardware
    // carries its sp, pc, gp and tp.
    assert_eq!(l2.thb.context, pb);
    assert_eq!(m2.regs.sp, 0x1234);
    assert_eq!(m2.regs.pc, 0x5678);
    assert_eq!(m2.regs.gp, 0x11);
    assert_eq!(m2.regs.tp, 0x22);
    // A switch restores the full image from the new context.
    assert_eq!(m2.regs.a, [90, 91, 92, 93, 94, 95, 96, 97]);
    assert_eq!(m2.regs.s, [70, 71, 72, 73, 74, 75, 76, 77, 78, 79, 80, 81]);
}

#[test]
fn s6_soft_trap_delivers_cause_and_returns() {
    let mut m = Machine::new();
    let p = m.add_context(FlowContext::zeroed());
    m.regs.pc = 0xC0DE;
    m.regs.a[0] = 0x42;
    let free = FreeTrapStack::new(StackBlock { base: 0x1000, size: 4096 }, p, 0).unwrap();
    let loaded = free.load(&mut m);
    let fast = |ctx: FastContext,
                a1: usize,
                a2: usize,
                a3: usize,
                a4: usize,
                a5: usize,
                a6: usize,
                a7: usize|
     -> FastOutcome<()> {
        assert_eq!(ctx.m.cause, 24);
        let mut c = ctx;
        c.save_args(a1, a2, a3, a4, a5, a6, a7);
        c.restore()
    };
    let (m2, _l2) = soft_trap(m, loaded, 24, fast, noop_entire);
    // A plain restore resumes right after the call site.
    assert_eq!(m2.regs.pc, 0xC0DE);
    assert_eq!(m2.regs.a[0], 0x42);
    assert_eq!(m2.cause, 24);
}

#[test]
fn fast_entry_observes_trapped_registers() {
    let mut m = Machine::new();
    let p = m.add_context(FlowContext::zeroed());
    m.regs.a[0] = 0x42;
    m.regs.ra = 0x77;
    m.regs.sp = 0x9000;
    m.regs.t = [1, 2, 3, 4, 5, 6, 7];
    let free = FreeTrapStack::new(StackBlock { base: 0x1000, size: 4096 }, p, 0).unwrap();
    let loaded = free.load(&mut m);
    let thb_addr = loaded.thb.addr;
    let fast = move |ctx: FastContext,
                     a1: usize,
                     a2: usize,
                     a3: usize,
                     a4: usize,
                     a5: usize,
                     a6: usize,
                     a7: usize|
     -> FastOutcome<()> {
        // The stashed a0, the saved ra and temporaries, the parked sp and
        // the live sp at the handler block.
        assert_eq!(ctx.a0(), 0x42);
        let regs = ctx.regs();
        assert_eq!(regs.ra, 0x77);
        for i in 0..7 {
            assert_eq!(ctx.t(i), i + 1);
        }
        assert_eq!(ctx.m.scratch, 0x9000);
        assert_eq!(ctx.m.regs.sp, thb_addr);
        let mut c = ctx;
        c.save_args(a1, a2, a3, a4, a5, a6, a7);
        c.restore()
    };
    let (m2, _l2) = trap_entry(m, loaded, fast, noop_entire);
    assert_eq!(m2.regs.sp, 0x9000);
}

#[test]
fn swap_context_retargets_the_ladder() {
    let mut m = Machine::new();
    let pa = m.add_context(FlowContext::zeroed());
    let mut b = FlowContext::zeroed();
    b.ra = 0xB0;
    b.t = [41, 42, 43, 44, 45, 46, 47];
    b.a = [5, 6, 7, 8, 9, 10, 11, 12];
    let pb = m.add_context(b);
    let free = FreeTrapStack::new(StackBlock { base: 0x1000, size: 4096 }, pa, 0).unwrap();
    let loaded = free.load(&mut m);
    let fast = move |ctx: FastContext,
                     _a1: usize,
                     _a2: usize,
                     _a3: usize,
                     _a4: usize,
                     _a5: usize,
                     _a6: usize,
                     _a7: usize|
     -> FastOutcome<()> {
        let mut c = ctx;
        let old = c.swap_context(pb);
        assert_eq!(old, pa);
        c.restore()
    };
    let (m2, l2) = trap_entry(m, loaded, fast, noop_entire);
    // The restore reads whatever context the handler block targets now.
    assert_eq!(l2.thb.context, pb);
    assert_eq!(m2.regs.a, [5, 6, 7, 8, 9, 10, 11, 12]);
    assert_eq!(m2.regs.ra, 0xB0);
    assert_eq!(m2.regs.t, [41, 42, 43, 44, 45, 46, 47]);
}

#[test]
fn written_temporaries_survive_a_restore() {
    let mut m = Machine::new();
    let p = m.add_context(FlowContext::zeroed());
    m.regs.t = [1, 1, 1, 1, 1, 1, 1];
    let free = FreeTrapStack::new(StackBlock { base: 0x1000, size: 4096 }, p, 0).unwrap();
    let loaded = free.load(&mut m);
    let fast = |ctx: FastContext,
                a1: usize,
                a2: usize,
                a3: usize,
                a4: usize,
                a5: usize,
                a6: usize,
                a7: usize|
     -> FastOutcome<()> {
        let mut c = ctx;
        c.write_t(3, 0x33);
        c.save_args(a1, a2, a3, a4, a5, a6, a7);
        c.restore()
    };
    let (m2, _l2) = trap_entry(m, loaded, fast, noop_entire);
    // A plain restore reloads the temporaries from the context, where the
    // handler's write landed.
    assert_eq!(m2.regs.t, [1, 1, 1, 0x33, 1, 1, 1]);
}

#[test]
fn result_codes_follow_the_stable_encoding() {
    assert_eq!(FastResult::FastCall.code(), 0);
    assert_eq!(FastResult::Call.code(), 1);
    assert_eq!(FastResult::Restore.code(), 2);
    assert_eq!(FastResult::Switch.code(), 3);
    assert_eq!(FastResult::Continue.code(), 4);
    assert_eq!(EntireResult::FastCall.code(), 0);
    assert_eq!(EntireResult::Call.code(), 1);
    assert_eq!(EntireResult::Restore.code(), 3);
}

#[test]
fn reuse_stack_carves_handler_room() {
    let mut m = Machine::new();
    m.regs.sp = 0x2000;
    reuse_stack_for_trap(&mut m);
    assert_eq!(m.regs.sp, 0x1fd8);
    m.regs.sp = 0x2007;
    reuse_stack_for_trap(&mut m);
    assert_eq!(m.regs.sp, 0x1fd8);
}
