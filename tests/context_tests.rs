use barekit::context::{decode_current_el, RuntimeContext, SECURE_EL1_MARKER};

#[test]
fn el3_is_bare_metal_el3_whatever_the_registers() {
    for (x0, x1) in [(0, 0), (1, 1), (0, SECURE_EL1_MARKER), (5, 0)] {
        assert_eq!(RuntimeContext::detect(3, x0, x1), RuntimeContext::BareMetalEL3);
    }
}

#[test]
fn el2_with_both_registers_is_efi() {
    assert_eq!(RuntimeContext::detect(2, 0x1000, 0x2000), RuntimeContext::EFI);
    assert_eq!(RuntimeContext::detect(2, 0, 0x2000), RuntimeContext::BaremetalEL2);
    assert_eq!(RuntimeContext::detect(2, 0x1000, 0), RuntimeContext::BaremetalEL2);
    assert_eq!(RuntimeContext::detect(2, 0, 0), RuntimeContext::BaremetalEL2);
    assert_eq!(RuntimeContext::detect(2, 1, SECURE_EL1_MARKER), RuntimeContext::EFI);
}

#[test]
fn secure_marker_wins_over_efi_below_el2() {
    for el in [0u8, 1] {
        assert_eq!(RuntimeContext::detect(el, 0x1234, 0xF1F0), RuntimeContext::BaremetalSEL1);
        assert_eq!(RuntimeContext::detect(el, 0, 0xF1F0), RuntimeContext::BaremetalSEL1);
        assert_eq!(RuntimeContext::detect(el, 0x1234, 0x5678), RuntimeContext::EFI);
        assert_eq!(RuntimeContext::detect(el, 0, 0x5678), RuntimeContext::BareMetalEL1);
        assert_eq!(RuntimeContext::detect(el, 0x1234, 0), RuntimeContext::BareMetalEL1);
        assert_eq!(RuntimeContext::detect(el, 0, 0), RuntimeContext::BareMetalEL1);
    }
}

#[test]
fn only_efi_skips_self_relocation() {
    assert!(!RuntimeContext::EFI.needs_self_relocation());
    assert!(RuntimeContext::BareMetalEL1.needs_self_relocation());
    assert!(RuntimeContext::BaremetalEL2.needs_self_relocation());
    assert!(RuntimeContext::BareMetalEL3.needs_self_relocation());
    assert!(RuntimeContext::BaremetalSEL1.needs_self_relocation());
}

#[test]
fn current_el_is_bits_three_and_two() {
    assert_eq!(decode_current_el(0b0100), 1);
    assert_eq!(decode_current_el(0b1000), 2);
    assert_eq!(decode_current_el(0b1100), 3);
    assert_eq!(decode_current_el(0xFFFF_FFF3), 0);
}
