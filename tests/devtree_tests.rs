use barekit::devtree::find_node;
use barekit::devtree::{matches_name, read_item, read_two_items, stdout_path_len, translate, translate_one, Region, Translation};

#[test]
fn reg_records_with_two_cells() {
    let raw = vec![0, 0, 0, 0, 0x40, 0, 0, 0, 0, 0, 0, 1, 0, 0, 0, 0];
    let r = read_two_items(&raw, 2, 2);
    assert_eq!(r, vec![Region { base: 0x4000_0000, size: 0x1_0000_0000 }]);
}

#[test]
fn reg_records_with_one_cell() {
    let raw = vec![0x09, 0, 0, 0, 0, 0, 0x10, 0, 0x09, 0x04, 0, 0, 0, 0, 0x10, 0];
    let r = read_two_items(&raw, 1, 1);
    assert_eq!(r, vec![Region { base: 0x0900_0000, size: 0x1000 }, Region { base: 0x0904_0000, size: 0x1000 }]);
    assert_eq!(read_item(&raw, 8, 1), 0x0904_0000);
    assert_eq!(read_item(&raw, 0, 2), 0x0900_0000_0000_1000);
}

#[test]
fn translation_through_ranges() {
    let ts = vec![
        Translation { bus_base: 0x1000, host_base: 0x9000_1000, size: 0x1000 },
        Translation { bus_base: 0, host_base: 0xF000_0000, size: 0x10_0000 },
    ];
    assert_eq!(translate_one(Region { base: 0x1800, size: 0x100 }, &ts), Region { base: 0x9000_1800, size: 0x100 });
    assert_eq!(translate_one(Region { base: 0x1F80, size: 0x100 }, &ts), Region { base: 0xF000_1F80, size: 0x100 });
    assert_eq!(translate_one(Region { base: 0x20_0000, size: 0x10 }, &ts), Region { base: 0x20_0000, size: 0x10 });
    let all = translate(&vec![Region { base: 0x1800, size: 0x100 }, Region { base: 0x20_0000, size: 0x10 }], &ts);
    assert_eq!(all, vec![Region { base: 0x9000_1800, size: 0x100 }, Region { base: 0x20_0000, size: 0x10 }]);
}

#[test]
fn node_names_match_with_unit_address() {
    assert!(matches_name("memory", "memory"));
    assert!(matches_name("memory@40000000", "memory"));
    assert!(!matches_name("memoryx", "memory"));
    assert!(!matches_name("mem", "memory"));
    assert!(matches_name("/pl011@9000000", "/pl011"));
}

#[test]
fn stdout_path_options_are_cut() {
    assert_eq!(stdout_path_len("serial0:115200n8"), 7);
    assert_eq!(stdout_path_len("/pl011@9000000"), 14);
}

#[test]
fn node_search_takes_first_match() {
    let names = vec!["/".to_string(), "chosen".to_string(), "memory@40000000".to_string(), "memory".to_string()];
    assert_eq!(find_node(&names, "memory"), Some(2));
    assert_eq!(find_node(&names, "chosen"), Some(1));
    assert_eq!(find_node(&names, "cpus"), None);
}
