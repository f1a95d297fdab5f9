use pengu::cef::cef_string_t;

#[test]
fn new_encodes_ascii_with_terminator() {
    let s = cef_string_t::new("main");
    assert_eq!(s.length, 4);
    assert_eq!(s.str_, vec![b'm' as u16, b'a' as u16, b'i' as u16, b'n' as u16, 0]);
}

#[test]
fn new_of_empty_string_is_just_the_terminator() {
    let s = cef_string_t::new("");
    assert_eq!(s.length, 0);
    assert_eq!(s.str_, vec![0]);
}

#[test]
fn new_uses_surrogate_pairs_outside_the_basic_plane() {
    let s = cef_string_t::new("a\u{1F600}\u{E9}");
    assert_eq!(s.length, 4);
    assert_eq!(s.str_, vec![0x61, 0xD83D, 0xDE00, 0xE9, 0]);
    let s = cef_string_t::new("\u{10FFFF}\u{FFFF}\u{10000}");
    assert_eq!(s.str_, vec![0xDBFF, 0xDFFF, 0xFFFF, 0xD800, 0xDC00, 0]);
}

#[test]
fn new_matches_std_utf16() {
    let text = "console.log('hello from pengu-rust!') — ünïcödé \u{1F427}";
    let s = cef_string_t::new(text);
    let mut expected: Vec<u16> = text.encode_utf16().collect();
    assert_eq!(s.length, expected.len());
    expected.push(0);
    assert_eq!(s.str_, expected);
}

#[test]
fn new_is_lossless() {
    let text = "https://riot:1234/index.html \u{1F600}";
    let s = cef_string_t::new(text);
    let back = String::from_utf16(&s.str_[..s.length]).unwrap();
    assert_eq!(back, text);
}

#[test]
fn clone_copies_units_and_length() {
    let s = cef_string_t::new("pengu\u{1F427}");
    let c = s.clone();
    assert_eq!(c.str_, s.str_);
    assert_eq!(c.length, s.length);
    let d = s.duplicate();
    assert_eq!(d.str_, s.str_);
    assert_eq!(d.length, 7);
}
