//! Trap-stack construction, placement arithmetic and the load/unload
//! lifecycle, exercised on the machine model.

use fast_trap::hal::FlowContext;
use fast_trap::hal::Machine;
use fast_trap::FreeTrapStack;
use fast_trap::StackBlock;
use fast_trap::HANDLER_ALIGN;
use fast_trap::HANDLER_SIZE;

#[test]
fn new_succeeds_on_ample_block() {
    let mut m = Machine::new();
    let p = m.add_context(FlowContext::zeroed());
    let free = FreeTrapStack::new(StackBlock { base: 0x1000, size: 4096 }, p, 0x77).unwrap();
    assert_eq!(free.thb.context, p);
    assert_eq!(free.thb.fast_handler, 0x77);
    assert_eq!(free.thb.scratch, 0);
    assert_eq!(free.thb.base, 0x1000);
    assert_eq!(free.thb.top, 0x2000);
    assert_eq!(free.thb.addr, 0x1fd8);
}

#[test]
fn new_succeeds_on_exact_fit() {
    let mut m = Machine::new();
    let p = m.add_context(FlowContext::zeroed());
    let free =
        FreeTrapStack::new(StackBlock { base: 0x1000, size: HANDLER_SIZE }, p, 0).unwrap();
    assert_eq!(free.thb.addr, 0x1000);
}

#[test]
fn new_fails_when_alignment_eats_the_room() {
    let mut m = Machine::new();
    let p = m.add_context(FlowContext::zeroed());
    // The block holds exactly the handler block's size, but its base is
    // unaligned: rounding down lands below the base.
    let r = FreeTrapStack::new(StackBlock { base: 0x1001, size: HANDLER_SIZE }, p, 0);
    assert!(r.is_err());
}

#[test]
fn new_fails_when_block_is_too_small() {
    let mut m = Machine::new();
    let p = m.add_context(FlowContext::zeroed());
    let r = FreeTrapStack::new(StackBlock { base: 0x1000, size: HANDLER_SIZE - 1 }, p, 0);
    assert!(r.is_err());
    let r = FreeTrapStack::new(StackBlock { base: 0x1000, size: 0 }, p, 0);
    assert!(r.is_err());
}

#[test]
fn new_always_succeeds_past_the_alignment_margin() {
    // Size covering the handler block plus its alignment suffices for any
    // base.
    let mut m = Machine::new();
    let p = m.add_context(FlowContext::zeroed());
    for base in 0x1000..0x1010 {
        let r = FreeTrapStack::new(
            StackBlock { base, size: HANDLER_SIZE + HANDLER_ALIGN },
            p,
            0,
        );
        assert!(r.is_ok());
    }
}

#[test]
fn locate_ptr_exact_values() {
    assert_eq!(FreeTrapStack::locate_ptr(0x2000), 0x1fd8);
    assert_eq!(FreeTrapStack::locate_ptr(0x2007), 0x1fd8);
    assert_eq!(FreeTrapStack::locate_ptr(48), 8);
    assert_eq!(FreeTrapStack::locate_ptr(40), 0);
}

#[test]
fn s5_new_leaves_scratch_untouched() {
    let mut m = Machine::new();
    let p = m.add_context(FlowContext::zeroed());
    m.scratch = 0x5050;
    let _free = FreeTrapStack::new(StackBlock { base: 0x1000, size: 4096 }, p, 0).unwrap();
    assert_eq!(m.scratch, 0x5050);
}

#[test]
fn s5_load_then_unload_restores_scratch() {
    let mut m = Machine::new();
    let p = m.add_context(FlowContext::zeroed());
    m.scratch = 0x5050;
    let free = FreeTrapStack::new(StackBlock { base: 0x1000, size: 4096 }, p, 0).unwrap();
    let addr = free.thb.addr;
    let loaded = free.load(&mut m);
    assert_eq!(m.scratch, addr);
    assert_eq!(loaded.val(), 0x5050);
    let back = loaded.unload(&mut m);
    assert_eq!(m.scratch, 0x5050);
    assert_eq!(back.thb.addr, addr);
}

#[test]
fn s5_load_without_unload_leaves_scratch_moved() {
    let mut m = Machine::new();
    let p = m.add_context(FlowContext::zeroed());
    m.scratch = 0x5050;
    let free = FreeTrapStack::new(StackBlock { base: 0x1000, size: 4096 }, p, 0).unwrap();
    let _loaded = free.load(&mut m);
    assert_ne!(m.scratch, 0x5050);
}

#[test]
fn lifo_nesting_restores_outermost_value() {
    let mut m = Machine::new();
    let p = m.add_context(FlowContext::zeroed());
    m.scratch = 0x5050;
    let outer = FreeTrapStack::new(StackBlock { base: 0x1000, size: 4096 }, p, 0).unwrap();
    let inner = FreeTrapStack::new(StackBlock { base: 0x3000, size: 4096 }, p, 0).unwrap();
    let outer_addr = outer.thb.addr;
    let l1 = outer.load(&mut m);
    assert_eq!(l1.val(), 0x5050);
    let l2 = inner.load(&mut m);
    assert_eq!(l2.val(), outer_addr);
    let _inner = l2.unload(&mut m);
    assert_eq!(m.scratch, outer_addr);
    let _outer = l1.unload(&mut m);
    assert_eq!(m.scratch, 0x5050);
}

#[test]
fn handler_block_range_and_mail_placement() {
    let mut m = Machine::new();
    let p = m.add_context(FlowContext::zeroed());
    let free = FreeTrapStack::new(StackBlock { base: 0x1000, size: 4096 }, p, 0).unwrap();
    assert_eq!(free.thb.range(), (0x1000, 0x2000));
    assert_eq!(free.thb.locate_fast_mail(8), 0x1000);
    assert_eq!(free.thb.locate_fast_mail(1), 0x1000);
    let odd = FreeTrapStack::new(StackBlock { base: 0x1001, size: 4096 }, p, 0).unwrap();
    assert_eq!(odd.thb.locate_fast_mail(8), 0x1008);
    assert_eq!(odd.thb.locate_fast_mail(2), 0x1002);
    assert_eq!(odd.thb.locate_fast_mail(1), 0x1001);
}
