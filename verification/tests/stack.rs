use rsroutine::{Stack, DEFAULT_STACK_ALIGN};

#[test]
fn stack_allocates_requested_zeroed_memory() {
    let stack = Stack::new(256);

    assert_eq!(stack.bytes().len(), 256);
    assert!(stack.bytes().iter().all(|byte| *byte == 0));
}

#[test]
fn stack_addresses_describe_owned_memory_region() {
    let stack = Stack::new(257);
    let bottom_addr = stack.bottom_addr();
    let top_addr = stack.top_addr();
    let aligned_top = stack.aligned_top();

    assert_eq!(top_addr, bottom_addr + stack.bytes().len());
    assert!(bottom_addr < top_addr);
    assert!(bottom_addr <= aligned_top);
    assert!(aligned_top <= top_addr);
    assert_eq!(aligned_top % 16, 0);
    assert!(top_addr - aligned_top < 16);
}

#[test]
fn stack_len_reports_size() {
    assert_eq!(Stack::new(0).len(), 0);
    assert_eq!(Stack::new(17).len(), 17);
}

#[test]
fn empty_stack_has_equal_bottom_and_top() {
    let stack = Stack::new(0);
    assert!(stack.bottom_addr() > 0);
    assert_eq!(stack.top_addr(), stack.bottom_addr());
    assert!(stack.aligned_top() <= stack.top_addr());
    assert_eq!(stack.aligned_top() % DEFAULT_STACK_ALIGN, 0);
}

#[test]
fn aligned_top_is_top_rounded_down() {
    for size in [1usize, 15, 16, 31, 100, 4096] {
        let stack = Stack::new(size);
        let top = stack.top_addr();
        assert_eq!(stack.aligned_top(), top - top % 16);
        assert!(stack.bottom_addr() + size == top);
    }
}

#[test]
fn moving_a_stack_keeps_its_addresses() {
    let stack = Stack::new(64);
    let bottom = stack.bottom_addr();
    let moved = vec![stack];
    assert_eq!(moved[0].bottom_addr(), bottom);
    assert_eq!(moved[0].bytes().as_ptr().addr(), bottom);
}
