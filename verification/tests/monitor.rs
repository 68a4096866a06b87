use live_earth_wallpaper::monitor::{Monitor, MonitorLayout, MultiMonitorMode};

fn mon(x: i32, y: i32, width: u32, height: u32, is_primary: bool, name: &str) -> Monitor {
    Monitor { x, y, width, height, is_primary, name: name.to_string() }
}

#[test]
fn empty_report_gives_default_monitor() {
    let l = MonitorLayout::from_monitors(vec![]);
    assert_eq!(l.monitors.len(), 1);
    assert_eq!(l.monitors[0].name, "Default");
    assert!(l.monitors[0].is_primary);
    assert_eq!((l.total_width, l.total_height), (1920, 1080));
    assert_eq!(l.bounds, (0, 0, 1920, 1080));
}

#[test]
fn bounds_hold_every_monitor() {
    let l = MonitorLayout::from_monitors(vec![
        mon(0, 0, 2560, 1440, true, "A"),
        mon(-1920, 200, 1920, 1080, false, "B"),
        mon(2560, -300, 1080, 1920, false, "C"),
    ]);
    assert_eq!(l.bounds, (-1920, -300, 3640, 1620));
    assert_eq!((l.total_width, l.total_height), (5560, 1920));
    for m in &l.monitors {
        assert!(l.bounds.0 <= m.x && m.x + m.width as i32 <= l.bounds.2);
        assert!(l.bounds.1 <= m.y && m.y + m.height as i32 <= l.bounds.3);
    }
}

#[test]
fn primary_is_first_marked() {
    let l = MonitorLayout::from_monitors(vec![
        mon(0, 0, 100, 100, false, "A"),
        mon(100, 0, 200, 150, true, "B"),
        mon(300, 0, 50, 50, true, "C"),
    ]);
    assert_eq!(l.primary().unwrap().name, "B");
    let p = l.primary_only().unwrap();
    assert_eq!(p.monitors.len(), 1);
    assert_eq!((p.monitors[0].x, p.monitors[0].y), (0, 0));
    assert_eq!((p.monitors[0].width, p.monitors[0].height), (200, 150));
    assert_eq!(p.monitors[0].name, "B");
    assert_eq!((p.total_width, p.total_height, p.bounds), (200, 150, (0, 0, 200, 150)));
}

#[test]
fn no_primary_means_none() {
    let l = MonitorLayout::from_monitors(vec![mon(0, 0, 100, 100, false, "A")]);
    assert!(l.primary().is_none());
    assert!(l.primary_only().is_none());
    assert_eq!(MultiMonitorMode::default(), MultiMonitorMode::Span);
}

#[test]
fn layout_that_overflows_is_refused() {
    let near_edge = vec![mon(i32::MAX - 10, 0, 100, 100, true, "A")];
    assert!(!MonitorLayout::fits(&near_edge));
    assert!(MonitorLayout::try_from_monitors(near_edge).is_none());
    let too_wide = vec![mon(i32::MIN, 0, 10, 10, true, "A"), mon(i32::MAX - 10, 0, 10, 10, false, "B")];
    assert!(!MonitorLayout::fits(&too_wide));
    assert!(MonitorLayout::try_from_monitors(too_wide).is_none());
}

#[test]
fn layout_that_fits_is_built() {
    let ms = vec![mon(-1920, 0, 1920, 1080, false, "L"), mon(0, 0, 2560, 1440, true, "R")];
    assert!(MonitorLayout::fits(&ms));
    let l = MonitorLayout::try_from_monitors(ms).unwrap();
    assert_eq!(l.bounds, (-1920, 0, 2560, 1440));
    assert_eq!((l.total_width, l.total_height), (4480, 1440));
    assert!(MonitorLayout::try_from_monitors(vec![]).is_some());
}

#[test]
fn oversized_width_wraps_as_signed() {
    let l = MonitorLayout::try_from_monitors(vec![mon(0, 0, 3_000_000_000, 100, true, "W")]).unwrap();
    assert_eq!(l.bounds, (0, 0, -1_294_967_296, 100));
    assert_eq!(l.total_width, 3_000_000_000);
    assert_eq!(l.total_height, 100);
}
