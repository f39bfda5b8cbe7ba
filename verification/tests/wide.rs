use systray::to_wstring;

#[test]
fn ascii_text_widens_one_unit_per_character_plus_nul() {
    assert_eq!(to_wstring("Hi"), vec![72, 105, 0]);
    assert_eq!(to_wstring(""), vec![0]);
}

#[test]
fn supplementary_characters_become_surrogate_pairs() {
    // U+1F600 lies above the basic plane
    let wide = to_wstring("a\u{1F600}b");
    assert_eq!(wide, vec![0x61, 0xD83D, 0xDE00, 0x62, 0]);
}

#[test]
fn widening_agrees_with_the_standard_encoder() {
    let samples = ["rust_systray_window", "Ünïcødé — tränen", "\u{10FFFF}\u{FFFD}x"];
    for s in samples {
        let mut expected: Vec<u16> = s.encode_utf16().collect();
        expected.push(0);
        assert_eq!(to_wstring(s), expected);
    }
}
