use live_earth_wallpaper::calendar::julian_day_number;
use live_earth_wallpaper::startup::{to_wide, APP_NAME, RUN_KEY};

#[test]
fn julian_day_numbers_of_known_dates() {
    assert_eq!(julian_day_number(2000, 1, 1), 2451545);
    assert_eq!(julian_day_number(1970, 1, 1), 2440588);
    assert_eq!(julian_day_number(1858, 11, 17), 2400001);
    assert_eq!(julian_day_number(-4713, 11, 24), 0);
}

#[test]
fn days_run_on_across_month_and_year_ends() {
    assert_eq!(julian_day_number(2024, 2, 29) + 1, julian_day_number(2024, 3, 1));
    assert_eq!(julian_day_number(2023, 2, 28) + 1, julian_day_number(2023, 3, 1));
    assert_eq!(julian_day_number(1900, 2, 28) + 1, julian_day_number(1900, 3, 1));
    assert_eq!(julian_day_number(2000, 2, 29) + 1, julian_day_number(2000, 3, 1));
    assert_eq!(julian_day_number(2023, 12, 31) + 1, julian_day_number(2024, 1, 1));
    assert_eq!(julian_day_number(2024, 4, 30) + 1, julian_day_number(2024, 5, 1));
}

#[test]
fn wide_strings_are_nul_terminated_utf16() {
    assert_eq!(to_wide(""), vec![0]);
    assert_eq!(to_wide("Run"), vec![82, 117, 110, 0]);
    assert_eq!(to_wide("é✓"), vec![0xE9, 0x2713, 0]);
    assert_eq!(to_wide("🌍"), vec![0xD83C, 0xDF0D, 0]);
    let expected: Vec<u16> = APP_NAME.encode_utf16().chain(std::iter::once(0)).collect();
    assert_eq!(to_wide(APP_NAME), expected);
    assert_eq!(RUN_KEY, r"Software\Microsoft\Windows\CurrentVersion\Run");
}
