use barekit::vectors::{handle_exception, ExceptionFrame, GPRegisters, StackFrame};
use barekit::vectors::{
    descriptor_make_writable, exception_class, handle_trap, install_mode,
    merge_patch, patched_blocks, probe_register_available, slot_count, InstallMode, TrapAction,
    VectorBootstrap, RELOC_DELTA_CELL,
};

fn own_table() -> Vec<u8> {
    (0..0x800u32).map(|k| (k % 241) as u8 + 1).collect()
}

fn get64(m: &Vec<u8>, o: usize) -> u64 {
    u64::from_le_bytes(m[o..o + 8].try_into().unwrap())
}

#[test]
fn sentinels_and_zero_install_directly() {
    assert_eq!(install_mode(0), InstallMode::Direct);
    assert_eq!(install_mode(0xF000_0000), InstallMode::Direct);
    assert_eq!(install_mode(0xF100_0000), InstallMode::Direct);
    assert_eq!(install_mode(0x4000_0800), InstallMode::MergePatch);
}

#[test]
fn merge_at_el1_copies_two_slots_and_sets_delta() {
    let own = own_table();
    let mut host = vec![0xEEu8; 0x800];
    let previous = 0x4000_0000u64;
    let own_base = 0x8000_0800u64;
    merge_patch(&mut host, &own, 1, previous, own_base);
    assert_eq!(get64(&host, RELOC_DELTA_CELL), previous.wrapping_sub(own_base));
    for k in (0..0x80).chain(0x200..0x280) {
        if !(RELOC_DELTA_CELL..RELOC_DELTA_CELL + 8).contains(&k) {
            assert_eq!(host[k], own[k], "byte {:#x}", k);
        }
    }
    for k in (0x80..0x200).chain(0x280..0x800) {
        assert_eq!(host[k], 0xEE, "byte {:#x}", k);
    }
}

#[test]
fn merge_at_el2_copies_four_slots() {
    let own = own_table();
    let mut host = vec![0u8; 0x800];
    merge_patch(&mut host, &own, 2, 0x9000_0000, 0x4000_0000);
    assert_eq!(get64(&host, RELOC_DELTA_CELL), 0x5000_0000);
    for base in [0x200usize, 0x400, 0x600] {
        assert_eq!(&host[base..base + 0x80], &own[base..base + 0x80]);
        assert!(host[base + 0x80..base + 0x200].iter().all(|b| *b == 0));
    }
    assert_eq!(slot_count(1), 2);
    assert_eq!(slot_count(3), 4);
}

#[test]
fn cache_blocks_follow_slots() {
    assert_eq!(patched_blocks(1, 0x1000), vec![0x1000, 0x1200]);
    assert_eq!(patched_blocks(3, 0x1000), vec![0x1000, 0x1200, 0x1400, 0x1600]);
}

#[test]
fn write_protect_bit_is_cleared() {
    assert_eq!(descriptor_make_writable(0x4000_0783), 0x4000_0703);
    assert_eq!(descriptor_make_writable(0x4000_0703), 0x4000_0703);
}

#[test]
fn class_zero_trap_resumes_one_instruction_later() {
    assert_eq!(exception_class(0x0200_0000), 0);
    assert_eq!(exception_class(0x9600_0045), 0x25);
    assert_eq!(handle_trap(0x0200_0000, 0x1000), TrapAction::Resume(0x1004));
    assert_eq!(handle_trap(0x9600_0045, 0x1000), TrapAction::Fatal { class: 0x25, address: 0x1000 });
}

#[test]
fn probe_and_report() {
    assert!(probe_register_available(0x1000, 0x2000));
    assert!(!probe_register_available(0x2000, 0x2000));
}

#[test]
fn vector_base_restored_after_merge() {
    let mut v = VectorBootstrap::inspect(0x4000_0000, 0x8000_0800);
    assert_eq!(v.mode, InstallMode::MergePatch);
    assert_eq!(v.install(), 0x4000_0000);
    assert_eq!(v.restore(), 0x4000_0000);
}

#[test]
fn vector_base_restored_after_direct_install_over_sentinel() {
    let mut v = VectorBootstrap::inspect(0xF000_0000, 0x8000_0800);
    assert_eq!(v.install(), 0x8000_0800);
    assert_eq!(v.restore(), 0xF000_0000);
}

#[test]
fn zero_vector_base_is_not_restored() {
    let mut v = VectorBootstrap::inspect(0, 0x8000_0800);
    assert_eq!(v.install(), 0x8000_0800);
    assert_eq!(v.restore(), 0x8000_0800);
}

#[test]
fn saved_frame_moves_past_benign_trap() {
    let mut ef = ExceptionFrame {
        gp_regs: GPRegisters { x: [0; 31], sp: 0 },
        elr: 0x4000_1000,
        spsr: 0x3c5,
        esr: 0,
        padding: 0,
        stack_frame: StackFrame { old_fp: 0, return_address: 0x4000_1000 },
    };
    assert_eq!(handle_exception(&mut ef), TrapAction::Resume(0x4000_1004));
    assert_eq!(ef.elr, 0x4000_1004);
    ef.esr = 0x5600_0000;
    assert_eq!(handle_exception(&mut ef), TrapAction::Fatal { class: 0x15, address: 0x4000_1004 });
    assert_eq!(ef.elr, 0x4000_1004);
}
