use barekit::heap::{align_down, align_up, is_power_of_two, BumpAllocator};

#[test]
fn align_down_and_up() {
    assert_eq!(align_down(0x1234, 0x1000), 0x1000);
    assert_eq!(align_down(0x1234, 0), 0x1234);
    assert_eq!(align_up(0x1234, 0x1000), 0x2000);
    assert_eq!(align_up(0x2000, 0x1000), 0x2000);
    assert_eq!(align_up(7, 1), 7);
}

#[test]
fn power_of_two_test() {
    assert!(is_power_of_two(1));
    assert!(is_power_of_two(4096));
    assert!(!is_power_of_two(0));
    assert!(!is_power_of_two(12));
}

#[test]
fn bump_allocator_serves_then_runs_out() {
    let mut h = BumpAllocator::empty();
    assert_eq!((h.heap_start, h.heap_end, h.next), (0, 0, 0));
    h.init(0x1000, 0x100);
    assert_eq!(h.allocate(0x10, 8), 0x1000);
    assert_eq!(h.next, 0x1010);
    assert_eq!(h.allocate(1, 1), 0x1010);
    assert_eq!(h.allocate(0x10, 0x40), 0x1040);
    assert_eq!(h.next, 0x1050);
    assert_eq!(h.allocate(0x100, 8), 0);
    assert_eq!(h.next, 0x1050);
    assert_eq!(h.allocate(0xB0, 1), 0x1050);
    assert_eq!(h.next, 0x1100);
}
