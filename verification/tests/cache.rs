use live_earth_wallpaper::satellite::cached_image_time;
use live_earth_wallpaper::text::trim;

#[test]
fn cached_time_reads_rfc3339() {
    assert_eq!(cached_image_time("2024-01-15T12:30:00+00:00"), Some((1705321800, 0)));
}

#[test]
fn cached_time_ignores_surrounding_white_space() {
    assert_eq!(cached_image_time("  2024-01-15T12:30:00+00:00\n"), Some((1705321800, 0)));
}

#[test]
fn cached_time_applies_offset_and_fraction() {
    assert_eq!(
        cached_image_time("2024-01-15T12:30:00.5+02:00"),
        Some((1705314600, 500_000_000))
    );
}

#[test]
fn cached_time_rejects_other_text() {
    assert_eq!(cached_image_time(""), None);
    assert_eq!(cached_image_time("   \n"), None);
    assert_eq!(cached_image_time("2024-01-15 12:30"), None);
}

#[test]
fn trim_removes_unicode_white_space_at_both_ends() {
    assert_eq!(trim("  a b \n"), "a b");
    assert_eq!(trim("\u{3000}x\u{a0}\u{2009}"), "x");
    assert_eq!(trim("\t\r\n"), "");
    assert_eq!(trim(""), "");
    assert_eq!(trim("plain"), "plain");
}

#[test]
fn trim_agrees_with_std() {
    for s in ["\u{85}q\u{1680}", " \u{200b}z ", "\u{feff}k", "a\u{2028}", "\u{b}v\u{c}"] {
        assert_eq!(trim(s), s.trim());
    }
}
