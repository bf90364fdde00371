use barekit::console::{hex_trimmed, register_field};
use barekit::console::early_format;
use barekit::console::{eq_ignore_ascii_case, hex_u64, NS16550Output, PL011Output, TTYBuffer, TTY};

#[test]
fn buffer_accumulates_and_replays() {
    let mut b = TTYBuffer::new();
    b.write_str("Hello ");
    b.write_str("world\n");
    assert_eq!(b.count, 12);
    assert_eq!(b.unprinted(), "Hello world\n");
    assert_eq!(b.get_unprinted(), "Hello world\n");
}

#[test]
fn buffer_drops_text_past_capacity() {
    let mut b = TTYBuffer::new();
    let long = "x".repeat(4000);
    b.write_str(&long);
    b.write_str(&"y".repeat(200));
    assert_eq!(b.count, 4096);
    let s = b.unprinted();
    assert_eq!(s.len(), 4096);
    assert!(s.ends_with(&"y".repeat(96)));
}

#[test]
fn buffer_stores_low_byte_of_each_character() {
    let mut b = TTYBuffer::new();
    b.write_str("a\u{e9}");
    assert_eq!(b.count, 2);
    assert_eq!(b.buffer[1], 0xE9);
    assert_eq!(b.unprinted(), "a\u{FFFD}");
}

#[test]
fn hex_rendering() {
    assert_eq!(String::from_utf8(hex_u64(0x1234_abcd)).unwrap(), "0x000000001234abcd");
    assert_eq!(String::from_utf8(hex_u64(u64::MAX)).unwrap(), "0xffffffffffffffff");
}

#[test]
fn uart_compatibility() {
    let list = vec!["vendor,thing".to_string(), "arm,sbsa-uart".to_string(), "arm,pl011".to_string()];
    assert_eq!(PL011Output::is_compatible(&list), Some("arm,sbsa-uart".to_string()));
    assert_eq!(NS16550Output::is_compatible(&list), None);
    let list = vec!["snps,dw-apb-uart".to_string(), "ns16550a".to_string()];
    assert_eq!(NS16550Output::is_compatible(&list), Some("snps,dw-apb-uart".to_string()));
    assert_eq!(PL011Output::is_compatible(&list), None);
}

#[test]
fn uart_register_layouts() {
    let p = PL011Output::new("arm,pl011".to_string(), 0x0900_0000);
    assert_eq!((p.data_reg, p.flag_reg), (0x0900_0000, 0x0900_0018));
    let n = NS16550Output::new("BRCM,BCM2835-AUX-UART".to_string(), 0xfe21_5040, 4, 2);
    assert_eq!(n.flag_reg, 0xfe21_5040 + (5 << 4));
    assert!(!n.is_32);
    let n = NS16550Output::new("snps,dw-apb-uart".to_string(), 0xf051_2000, 4, 2);
    assert_eq!(n.flag_reg, 0xf051_2000 + 20);
    assert!(n.is_32);
    let n = NS16550Output::new("ns16550a".to_string(), 0x100_0000, 4, 2);
    assert_eq!(n.flag_reg, 0x100_0000 + 10);
    let n = NS16550Output::from_mmio("snps,dw-apb-uart", 0xf051_2000, 1, 2);
    assert_eq!(n.flag_reg, 0xf051_2014);
    assert!(eq_ignore_ascii_case("Arm,PL011", "arm,pl011"));
    assert!(!eq_ignore_ascii_case("arm,pl011", "arm,pl012"));
}

#[test]
fn trimmed_hex_and_register_fields() {
    assert_eq!(String::from_utf8(hex_trimmed(0x410f_d083)).unwrap(), "0x410fd083");
    assert_eq!(String::from_utf8(hex_trimmed(0)).unwrap(), "0x0");
    assert_eq!(String::from_utf8(hex_trimmed(0xa)).unwrap(), "0xa");
    assert_eq!(register_field("MIDR_EL1", 0x410f_d083, true).map(|v| String::from_utf8(v).unwrap()), Some("MIDR_EL1=0x410fd083;".to_string()));
    assert_eq!(register_field("MIDR_EL1", 0, true), None);
    assert_eq!(register_field("RVBAR_EL3", 5, false), None);
}

#[test]
fn early_format_expands_markers() {
    let out = early_format("x=%\n", 0x2a, &vec![]);
    assert_eq!(String::from_utf8(out).unwrap(), "x=0x000000000000002a\n");
    let out = early_format("at $ line", 0, &b"main.rs".to_vec());
    assert_eq!(String::from_utf8(out).unwrap(), "at main.rs line");
}
