use trash_tool::text::{chars_of, decimal_string, string_of, trim};

#[test]
fn decimal_string_writes_numbers() {
    assert_eq!(decimal_string(0), "0");
    assert_eq!(decimal_string(7), "7");
    assert_eq!(decimal_string(10), "10");
    assert_eq!(decimal_string(2024), "2024");
    assert_eq!(decimal_string(u64::MAX as u128), "18446744073709551615");
}

#[test]
fn chars_round_trip() {
    let text = "テスト ファイル.txt";
    assert_eq!(string_of(&chars_of(text)), text);
}

/// The characters that have the `White_Space` property of Unicode.
fn white_space() -> Vec<char> {
    let mut all = vec![
        ' ', '\u{85}', '\u{a0}', '\u{1680}', '\u{2028}', '\u{2029}', '\u{202f}', '\u{205f}',
        '\u{3000}',
    ];
    all.extend('\u{9}'..='\u{d}');
    all.extend('\u{2000}'..='\u{200a}');
    all
}

#[test]
fn trim_takes_away_exactly_the_white_space() {
    let white = white_space();
    assert_eq!(white.len(), 25);
    for c in '\0'..=char::MAX {
        let kept = trim(&vec![c]);
        assert_eq!(kept.is_empty(), white.contains(&c), "character {:?}", c);
    }
}

#[test]
fn trim_keeps_the_white_space_inside() {
    let text: Vec<char> = " \t a b\u{a0}c \r\n".chars().collect();
    let kept: String = trim(&text).into_iter().collect();
    assert_eq!(kept, "a b\u{a0}c");
    assert!(trim(&Vec::new()).is_empty());
    assert!(trim(&vec![' ', '\n']).is_empty());
}
