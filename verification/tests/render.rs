use live_earth_wallpaper::monitor::{Monitor, MonitorLayout, MultiMonitorMode};
use live_earth_wallpaper::render::{
    can_duplicate, draw_label, get_char_bitmap, label_can_be_drawn, star_label_brightness, view_plans,
    ClipRect, ViewPlan, Viewport,
};

#[test]
fn glyphs_ignore_case() {
    let a = get_char_bitmap('A').unwrap();
    assert_eq!(a, [0b01110, 0b10001, 0b10001, 0b11111, 0b10001, 0b10001, 0b10001]);
    assert_eq!(get_char_bitmap('a'), Some(a));
    assert_eq!(get_char_bitmap('.'), Some([0, 0, 0, 0, 0, 0, 0b00100]));
    assert_eq!(get_char_bitmap(' '), Some([0; 7]));
    assert_eq!(get_char_bitmap('7').unwrap()[0], 0b11111);
    assert_eq!(get_char_bitmap('?'), None);
    assert_eq!(get_char_bitmap('é'), None);
}

fn full_clip() -> ClipRect {
    ClipRect::new(100, 100, Viewport { x: 0, y: 0, width: 100, height: 100 })
}

#[test]
fn label_pixels_follow_the_font() {
    let px = draw_label(".", 10, 20, &full_clip());
    assert_eq!(px, vec![(12, 26)]);
    let px = draw_label("-", 0, 0, &full_clip());
    assert_eq!(px, vec![(0, 3), (1, 3), (2, 3), (3, 3), (4, 3)]);
    // The second glyph starts six pixels to the right; unknown characters leave a gap.
    let px = draw_label("?.", 0, 0, &full_clip());
    assert_eq!(px, vec![(8, 6)]);
    let a = draw_label("A", 0, 0, &full_clip());
    assert_eq!(a.len(), 3 + 2 + 2 + 5 + 2 + 2 + 2);
    assert_eq!(a[0], (1, 0));
}

#[test]
fn label_is_clipped_to_viewport_and_canvas() {
    let clip = ClipRect::new(100, 100, Viewport { x: 50, y: 0, width: 50, height: 100 });
    let px = draw_label("--", 45, 0, &clip);
    assert_eq!(px, vec![(51, 3), (52, 3), (53, 3), (54, 3), (55, 3)]);
    let px = draw_label("-", -3, 0, &full_clip());
    assert_eq!(px, vec![(0, 3), (1, 3)]);
    assert!(clip.contains(50, 0));
    assert!(!clip.contains(49, 0));
    assert!(!clip.contains(100, 0));
}

#[test]
fn star_label_brightness_by_name_kind() {
    assert_eq!(star_label_brightness("Sirius"), 180);
    assert_eq!(star_label_brightness("61 Cyg"), 140);
    assert_eq!(star_label_brightness(""), 180);
}

#[test]
fn span_and_duplicate_views() {
    let l = MonitorLayout::from_monitors(vec![
        Monitor { x: 0, y: 0, width: 1920, height: 1080, is_primary: true, name: "A".into() },
        Monitor { x: -1280, y: 100, width: 1280, height: 1024, is_primary: false, name: "B".into() },
    ]);
    let span = view_plans(&l, MultiMonitorMode::Span);
    assert_eq!(span, vec![ViewPlan {
        viewport: Viewport { x: 0, y: 0, width: 3200, height: 1124 },
        earth_center_x: 1600,
        earth_center_y: 562,
        earth_reference: 1124,
    }]);
    let dup = view_plans(&l, MultiMonitorMode::Duplicate);
    assert_eq!(dup.len(), 2);
    assert_eq!(dup[0], ViewPlan {
        viewport: Viewport { x: 1280, y: 0, width: 1920, height: 1080 },
        earth_center_x: 2240,
        earth_center_y: 540,
        earth_reference: 1080,
    });
    assert_eq!(dup[1], ViewPlan {
        viewport: Viewport { x: 0, y: 100, width: 1280, height: 1024 },
        earth_center_x: 640,
        earth_center_y: 612,
        earth_reference: 1024,
    });
}

#[test]
fn label_fit_check() {
    assert!(label_can_be_drawn("AB", 0, 0));
    assert!(!label_can_be_drawn("A", i32::MAX - 3, 0));
    assert!(!label_can_be_drawn("A", 0, i32::MAX));
    assert!(label_can_be_drawn(" ", 0, i32::MAX));
    assert!(label_can_be_drawn("?", 0, i32::MAX));
    assert!(!label_can_be_drawn(".", 0, i32::MAX - 5));
    assert!(label_can_be_drawn(".", 0, i32::MAX - 6));
}

#[test]
fn clip_rect_checked_construction() {
    let vp = Viewport { x: 10, y: 20, width: 100, height: 50 };
    assert_eq!(ClipRect::try_new(640, 480, vp), Some(ClipRect::new(640, 480, vp)));
    let far = Viewport { x: i32::MAX as u32, y: 0, width: 10, height: 10 };
    assert_eq!(ClipRect::try_new(640, 480, far), None);
}

#[test]
fn duplicate_check() {
    let l = MonitorLayout::from_monitors(vec![
        Monitor { x: -1920, y: 0, width: 1920, height: 1080, is_primary: false, name: "L".to_string() },
        Monitor { x: 0, y: 0, width: 2560, height: 1440, is_primary: true, name: "R".to_string() },
    ]);
    assert!(can_duplicate(&l));
    let bad = MonitorLayout {
        monitors: vec![Monitor { x: i32::MAX, y: 0, width: 10, height: 10, is_primary: true, name: "X".to_string() }],
        total_width: 10,
        total_height: 10,
        bounds: (i32::MIN, 0, 0, 0),
    };
    assert!(!can_duplicate(&bad));
}

#[test]
fn glyphs_cover_exactly_the_font() {
    for c in ['a', 'Z', '0', '9', '.', '-', ' '] {
        assert!(get_char_bitmap(c).is_some());
    }
    for c in ['!', '_', '@', '\n', 'ß'] {
        assert!(get_char_bitmap(c).is_none());
    }
    assert_eq!(get_char_bitmap('q'), get_char_bitmap('Q'));
    assert_ne!(get_char_bitmap('0'), get_char_bitmap('O'));
    assert_ne!(get_char_bitmap('0'), get_char_bitmap('P'));
}
