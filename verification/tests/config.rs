use live_earth_wallpaper::config::{
    default_satellite, default_show_earth, Config, WallpaperTarget,
};
use live_earth_wallpaper::launch::parse_args;
use live_earth_wallpaper::monitor::MultiMonitorMode;
use live_earth_wallpaper::satellite::Satellite;

#[test]
fn config_defaults() {
    let c = Config::default();
    assert_eq!(c.target, WallpaperTarget::Desktop);
    assert_eq!(c.mode, MultiMonitorMode::Span);
    assert!(c.show_earth);
    assert!(!c.show_labels);
    assert_eq!(c.satellite, Satellite::GoesEast);
    assert_eq!(c.show_earth, default_show_earth());
    assert_eq!(c.satellite, default_satellite());
}

fn args(list: &[&str]) -> Vec<String> {
    list.iter().map(|s| s.to_string()).collect()
}

#[test]
fn command_line_flags() {
    let o = parse_args(&args(&["live-earth-wallpaper.exe"]));
    assert_eq!((o.mode, o.update_once), (MultiMonitorMode::Span, false));
    let o = parse_args(&args(&["x", "--update-once", "--duplicate"]));
    assert_eq!((o.mode, o.update_once), (MultiMonitorMode::Duplicate, true));
    let o = parse_args(&args(&["x", "--duplicate=1", "update-once"]));
    assert_eq!((o.mode, o.update_once), (MultiMonitorMode::Span, false));
}
