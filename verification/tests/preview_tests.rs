use klipbored::preview::compact_preview;

#[test]
fn short_text_is_unchanged() {
    assert_eq!(compact_preview("hello"), "hello");
    assert_eq!(compact_preview(""), "");
}

#[test]
fn up_to_four_lines_are_kept() {
    assert_eq!(compact_preview("a\nb\nc\nd"), "a\nb\nc\nd");
}

#[test]
fn fifth_line_and_beyond_are_cut() {
    assert_eq!(compact_preview("a\nb\nc\nd\ne"), "a\nb\nc\nd");
    assert_eq!(compact_preview("1\n2\n3\n4\n5\n6\n7"), "1\n2\n3\n4");
}

#[test]
fn three_hundred_characters_are_kept() {
    let long: String = "x".repeat(300);
    assert_eq!(compact_preview(&long), long);
}

#[test]
fn character_limit_cuts_at_three_hundred() {
    let long: String = "x".repeat(350);
    let preview = compact_preview(&long);
    assert_eq!(preview.chars().count(), 300);
    assert_eq!(preview, "x".repeat(300));
}

#[test]
fn character_limit_counts_characters_not_bytes() {
    // 300 two-byte characters: 600 bytes, but only 300 characters, so the
    // preview keeps them all.
    let long: String = "é".repeat(300);
    assert_eq!(compact_preview(&long), long);
    let longer: String = "é".repeat(301);
    assert_eq!(compact_preview(&longer).chars().count(), 300);
}

#[test]
fn line_cut_applies_before_character_cut() {
    let text = format!("{}\nsecond\nthird\nfourth\nfifth", "x".repeat(10));
    assert_eq!(compact_preview(&text), format!("{}\nsecond\nthird\nfourth", "x".repeat(10)));
}

#[test]
fn preview_is_idempotent_on_samples() {
    let samples = [
        "".to_string(),
        "hello".to_string(),
        "a\nb\nc\nd\ne\nf".to_string(),
        "x".repeat(500),
        format!("{}\n{}\n{}", "y".repeat(200), "z".repeat(200), "w".repeat(200)),
        "é".repeat(400),
    ];
    for sample in &samples {
        let once = compact_preview(sample);
        let twice = compact_preview(&once);
        assert_eq!(once, twice);
    }
}

#[test]
fn preview_is_a_prefix_of_the_input() {
    let text = format!("alpha\nbeta\ngamma\ndelta\nepsilon {}", "t".repeat(400));
    let preview = compact_preview(&text);
    assert!(text.starts_with(&preview));
}
