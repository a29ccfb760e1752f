use korea_investment_api::text::{is_text, same_text, split_fields, to_text, trim, white_space, CARET, PIPE};

#[test]
fn split_cuts_at_every_separator() {
    let fields = split_fields(b"a^bc^^d", CARET);
    assert_eq!(fields, vec![b"a".to_vec(), b"bc".to_vec(), Vec::new(), b"d".to_vec()]);
}

#[test]
fn split_of_nothing_is_one_empty_field() {
    assert_eq!(split_fields(b"", CARET), vec![Vec::<u8>::new()]);
}

#[test]
fn split_keeps_a_trailing_empty_field() {
    assert_eq!(split_fields(b"x|", PIPE), vec![b"x".to_vec(), Vec::new()]);
    assert_eq!(split_fields(b"|", PIPE), vec![Vec::<u8>::new(), Vec::new()]);
}

#[test]
fn split_without_separator_is_the_whole() {
    assert_eq!(split_fields(b"0|H0STCNT0|001|005930", CARET), vec![b"0|H0STCNT0|001|005930".to_vec()]);
}

#[test]
fn split_agrees_with_the_standard_library() {
    let text = "0|H0STCNT0|001|005930^093000^^70000^";
    let expected: Vec<Vec<u8>> = text.split('^').map(|f| f.as_bytes().to_vec()).collect();
    assert_eq!(split_fields(text.as_bytes(), CARET), expected);
}

#[test]
fn joining_the_fields_gives_the_frame_back() {
    let frame = b"1|H0STCNI0|001|AAAA^^x^";
    let fields = split_fields(frame, CARET);
    assert_eq!(fields.len(), frame.iter().filter(|b| **b == CARET).count() + 1);
    assert_eq!(fields.join(&CARET), frame.to_vec());
    assert!(fields.iter().all(|f| !f.contains(&CARET)));
}

#[test]
fn is_text_compares_all_bytes() {
    assert!(is_text(b"PINGPONG", "PINGPONG"));
    assert!(!is_text(b"PINGPON", "PINGPONG"));
    assert!(!is_text(b"PINGPONGX", "PINGPONG"));
    assert!(!is_text(b"PINGPONg", "PINGPONG"));
    assert!(is_text(b"", ""));
}

#[test]
fn same_text_is_equality() {
    assert!(same_text("SUBSCRIBE SUCCESS", "SUBSCRIBE SUCCESS"));
    assert!(!same_text("SUBSCRIBE SUCCESS", "SUBSCRIBE SUCCESS "));
    assert!(same_text("삼성전자", "삼성전자"));
    assert!(!same_text("삼성전자", "삼성전기"));
}

#[test]
fn to_text_decodes_utf8() {
    assert_eq!(to_text("삼성전자".as_bytes()), Some("삼성전자".to_string()));
    assert_eq!(to_text(b"005930"), Some("005930".to_string()));
    assert_eq!(to_text(b""), Some(String::new()));
}

#[test]
fn to_text_refuses_invalid_utf8() {
    assert_eq!(to_text(&[0xff, 0x30]), None);
    assert_eq!(to_text(&[0xec, 0x82]), None);
    assert_eq!(to_text(&[0xc0, 0x80]), None);
}

#[test]
fn the_fields_of_a_text_are_texts() {
    let text = "삼성전자^€uro|x^^日本語^ascii^";
    for sep in [CARET, PIPE, b'x', b'a'] {
        let fields = split_fields(text.as_bytes(), sep);
        for field in &fields {
            assert!(to_text(field).is_some());
        }
        let joined: Vec<String> = fields.iter().map(|f| to_text(f).unwrap()).collect();
        assert_eq!(joined.join(&(sep as char).to_string()), text);
    }
}

#[test]
fn a_cut_through_a_character_leaves_no_text() {
    let text = "삼성";
    let first_byte_of_second = text.as_bytes()[3];
    let fields = split_fields(text.as_bytes(), first_byte_of_second);
    assert!(fields.iter().any(|f| to_text(f).is_none()));
}

#[test]
fn white_space_is_what_the_standard_library_takes_for_it() {
    for u in 0u32..=0x10ffff {
        if let Some(c) = char::from_u32(u) {
            assert_eq!(white_space(c), c.is_whitespace(), "{u:#x}");
        }
    }
}

#[test]
fn trimming_takes_white_space_off_both_ends() {
    assert_eq!(trim("  10 "), "10");
    assert_eq!(trim("\t\n\r 1 0\u{a0}\u{3000}"), "1 0");
    assert_eq!(trim("10"), "10");
    assert_eq!(trim(""), "");
    assert_eq!(trim(" \u{2003}\u{85} "), "");
    assert_eq!(trim("\u{200b}1\u{200b}"), "\u{200b}1\u{200b}");
    assert_eq!(trim(" 삼성 전자\u{2028}"), "삼성 전자");
}

#[test]
fn trimming_agrees_with_the_standard_library() {
    for s in ["", " ", "a", " a", "a ", " a b ", "\u{1680}x\u{205f}", "\u{180e}x", "\u{feff}x ", "\n\n", "é \u{202f}", "\u{b}\u{c}1\u{1c}"] {
        assert_eq!(trim(s), s.trim(), "{s:?}");
    }
}
