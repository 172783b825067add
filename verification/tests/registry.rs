use ini2command::registry::get_encoding;

#[test]
fn identifier_850_resolves_to_ibm866() {
    let e = get_encoding(850).expect("850 must resolve");
    assert_eq!(e.name(), "IBM866");
    assert!(std::ptr::eq(e, encoding_rs::IBM866));
}

#[test]
fn general_table_has_no_entry_for_850() {
    // the override is the only reason 850 resolves at all
    assert!(codepage::to_encoding(850).is_none());
    assert!(get_encoding(850).is_some());
}

#[test]
fn other_identifiers_follow_the_general_table() {
    for cp in [65001u32, 1252, 1251, 866, 932, 50220] {
        let e = get_encoding(cp).expect("known identifier");
        let g = codepage::to_encoding(cp as u16).expect("known identifier");
        assert!(std::ptr::eq(e, g));
    }
    assert_eq!(get_encoding(65001).unwrap().name(), "UTF-8");
    assert_eq!(get_encoding(1252).unwrap().name(), "windows-1252");
    assert_eq!(get_encoding(866).unwrap().name(), "IBM866");
}

#[test]
fn unknown_identifier_is_not_found() {
    assert!(get_encoding(12345).is_none());
    assert!(get_encoding(1).is_none());
}

#[test]
fn identifiers_above_the_low_sixteen_bits_are_truncated() {
    // a console reports the identifier as a 32-bit number; only its low
    // sixteen bits name the code page
    let a = get_encoding(1252).unwrap();
    let b = get_encoding(0x10000 + 1252).unwrap();
    assert!(std::ptr::eq(a, b));
}
