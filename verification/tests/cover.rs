use ani_tui::cover::{abbreviated_title, hue_from_id, is_white_space, HalfblockCover};

#[test]
fn test_abbreviated_title_short_title_unchanged() {
    assert_eq!(abbreviated_title("Naruto", 20), "Naruto");
}

#[test]
fn test_abbreviated_title_long_title_uses_initials() {
    let abbrev = abbreviated_title("Attack on Titan", 6);
    assert_eq!(abbrev, "AOT");
}

#[test]
fn test_abbreviated_title_max_four_initials() {
    let abbrev = abbreviated_title("A Very Long Anime Title With Many Words", 4);
    assert!(abbrev.len() <= 4);
}

#[test]
fn test_abbreviated_title_uppercase() {
    let abbrev = abbreviated_title("fullmetal alchemist brotherhood", 5);
    assert_eq!(abbrev, abbrev.to_uppercase());
}

#[test]
fn abbreviation_edges() {
    assert_eq!(abbreviated_title("A Very Long Anime Title With Many Words", 4), "AVLA");
    // Fits exactly two short of the width.
    assert_eq!(abbreviated_title("Naruto", 8), "Naruto");
    assert_eq!(abbreviated_title("Naruto", 7), "N");
    // Zero width leaves no room at all; runs of spaces separate words once.
    assert_eq!(abbreviated_title("  one   two\tthree ", 3), "OTT");
    assert_eq!(abbreviated_title("  one   two\tthree ", 0), "");
    assert_eq!(abbreviated_title("", 0), "");
}

#[test]
fn label_never_exceeds_the_width() {
    assert_eq!(abbreviated_title("Attack on Titan", 2), "AO");
    assert_eq!(abbreviated_title("Attack on Titan", 1), "A");
    for w in 0..12 {
        assert!(abbreviated_title("A Very Long Anime Title With Many Words", w).chars().count() <= w);
    }
    let cover = HalfblockCover { anime_id: 1, title: "Attack on Titan" };
    let l = cover.layout(2, 4);
    assert_eq!(l.label, "AO");
    assert_eq!(l.text_offset, 0);
}

#[test]
fn hue_is_deterministic_and_bounded() {
    assert_eq!(hue_from_id(1535), hue_from_id(1535));
    assert_eq!(hue_from_id(1), (2_654_435_761u64 % 360) as u32);
    assert_ne!(hue_from_id(1), hue_from_id(2));
    assert_eq!(hue_from_id(-999), hue_from_id(999));
    assert_eq!(hue_from_id(0), 0);
    assert!(hue_from_id(i64::MIN) < 360);
    let expected = ((1u64 << 63).wrapping_mul(2_654_435_761) as u32) % 360;
    assert_eq!(hue_from_id(i64::MIN), expected);
}

#[test]
fn white_space_matches_std() {
    for c in ['\t', '\n', ' ', '\u{a0}', '\u{3000}', 'a', '_', '\u{200b}'] {
        assert_eq!(is_white_space(c), c.is_whitespace());
    }
}

#[test]
fn cover_layout_centres_the_label() {
    let cover = HalfblockCover { anime_id: 1, title: "Attack on Titan" };
    let l = cover.layout(6, 10);
    assert_eq!(l.split, 5);
    assert_eq!(l.title_row, 4);
    assert_eq!(l.label, "AOT");
    assert_eq!(l.text_offset, 1);
    let l = cover.layout(20, 1);
    assert_eq!(l.split, 0);
    assert_eq!(l.title_row, 0);
    assert_eq!(l.label, "Attack on Titan");
    assert_eq!(l.text_offset, 2);
}
