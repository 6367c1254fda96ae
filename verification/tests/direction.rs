use http_timing::direction::{candidate_keys, detect_inbound, read_direction};

fn value(text: &str) -> Option<Vec<u8>> {
    Some(text.as_bytes().to_vec())
}

#[test]
fn inbound_property_gives_inbound() {
    assert!(detect_inbound(&[value("inbound")]));
    assert!(detect_inbound(&[value("inbound"), None]));
    assert!(detect_inbound(&[value("inbound"), value("outbound")]));
}

#[test]
fn outbound_property_gives_outbound() {
    assert!(!detect_inbound(&[value("outbound")]));
    assert!(!detect_inbound(&[value("outbound"), value("inbound")]));
}

#[test]
fn absent_or_garbled_values_default_to_outbound() {
    assert!(!detect_inbound(&[]));
    assert!(!detect_inbound(&[None]));
    assert!(!detect_inbound(&[None, None]));
    assert!(!detect_inbound(&[value("")]));
    assert!(!detect_inbound(&[value("   ")]));
    assert!(!detect_inbound(&[value("sideways"), value("INBOUND")]));
    assert!(!detect_inbound(&[Some(vec![0xff, 0xfe]), None]));
    assert!(!detect_inbound(&[Some(vec![b'i', b'n', b'b', b'o', b'u', b'n', b'd', 0x80])]));
}

#[test]
fn comparison_is_case_sensitive() {
    assert!(!detect_inbound(&[value("Inbound")]));
    assert!(!detect_inbound(&[value("INBOUND")]));
    assert_eq!(read_direction(Some(b"Outbound")), None);
}

#[test]
fn white_space_at_the_ends_is_ignored() {
    assert!(detect_inbound(&[value(" inbound")]));
    assert!(detect_inbound(&[value("inbound\n")]));
    assert!(detect_inbound(&[value("\t inbound \r\n")]));
    assert!(detect_inbound(&[value("\u{a0}inbound\u{3000}")]));
    assert!(detect_inbound(&[value("\u{2003}\u{85}inbound\u{1680}\u{2028}")]));
    assert_eq!(read_direction(Some("  outbound  ".as_bytes())), Some(false));
}

#[test]
fn white_space_inside_is_not_ignored() {
    assert!(!detect_inbound(&[value("in bound")]));
    assert!(!detect_inbound(&[value("inbound x")]));
    assert_eq!(read_direction(Some(b"out bound")), None);
    assert_eq!(read_direction(Some("\u{200b}inbound".as_bytes())), None);
}

#[test]
fn first_definitive_candidate_wins() {
    assert!(detect_inbound(&[None, value("inbound")]));
    assert!(detect_inbound(&[value("garbage"), value("inbound")]));
    assert!(detect_inbound(&[Some(vec![0xc0]), value(" inbound ")]));
    assert!(!detect_inbound(&[value("garbage"), value("outbound"), value("inbound")]));
    assert!(detect_inbound(&[None, None, None, value("inbound")]));
}

#[test]
fn read_direction_names_what_it_read() {
    assert_eq!(read_direction(None), None);
    assert_eq!(read_direction(Some(b"inbound")), Some(true));
    assert_eq!(read_direction(Some(b"outbound")), Some(false));
    assert_eq!(read_direction(Some(b"inboun")), None);
    assert_eq!(read_direction(Some(b"inbounds")), None);
    assert_eq!(read_direction(Some(&[0xe2, 0x82])), None);
}

#[test]
fn candidate_keys_are_structured_then_flat() {
    let keys = candidate_keys();
    assert_eq!(keys, vec![vec!["listener", "direction"], vec!["listener_direction"]]);
}

#[test]
fn white_space_is_what_the_unicode_property_says() {
    let mut text = String::new();
    let mut spaces = 0;
    for u in 0u32..=0x10FFFF {
        if let Some(c) = char::from_u32(u) {
            text.clear();
            text.push(c);
            text.push_str("inbound");
            text.push(c);
            let expected = if c.is_whitespace() { Some(true) } else { None };
            assert_eq!(read_direction(Some(text.as_bytes())), expected, "U+{:04X}", u);
            if c.is_whitespace() {
                spaces += 1;
            }
        }
    }
    assert_eq!(spaces, 25);
}

#[test]
fn trimming_agrees_with_the_standard_one() {
    let samples = [
        "", " ", "inbound", " inbound", "inbound ", "\t\r\n inbound \u{b}\u{c}", "in bound",
        "\u{a0}outbound\u{2009}", "\u{feff}inbound", "inbound\u{200b}", "\u{1680}\u{205f}outbound",
        "outbound\u{180e}", " \u{3000} ", "inbound\0", "x inbound", "inbound\u{202f}\u{2029}",
    ];
    for s in samples {
        let expected = match s.trim() {
            "inbound" => Some(true),
            "outbound" => Some(false),
            _ => None,
        };
        assert_eq!(read_direction(Some(s.as_bytes())), expected, "{:?}", s);
    }
}

#[test]
fn ill_formed_bytes_are_no_text() {
    for bad in [
        vec![0x80],
        vec![0xc0, 0xaf],
        vec![0xe0, 0x80, 0x80],
        vec![0xed, 0xa0, 0x80],
        vec![0xf4, 0x90, 0x80, 0x80],
        vec![0xf8, 0x88, 0x80, 0x80, 0x80],
        vec![0xc2],
    ] {
        let mut bytes = b"inbound".to_vec();
        bytes.extend_from_slice(&bad);
        assert_eq!(read_direction(Some(&bytes)), None);
        let mut bytes = bad.clone();
        bytes.extend_from_slice(b"inbound");
        assert_eq!(read_direction(Some(&bytes)), None);
        assert!(detect_inbound(&[Some(bytes), Some(b"inbound".to_vec())]));
    }
}
