//! Monitor layouts for multi-monitor setups.

use vstd::prelude::*;
use crate::render::{duplicate_fits, monitor_origin};

verus! {

/// How to handle multiple monitors.
#[derive(Debug, Clone, Copy, PartialEq, Eq, Structural)]
pub enum MultiMonitorMode {
    /// Single image spans across all monitors (Earth centered on virtual desktop)
    Span,
    /// Each monitor gets its own centered Earth view
    Duplicate,
}

impl Default for MultiMonitorMode {
    fn default() -> (m: Self)
        ensures
            m == MultiMonitorMode::Span,
    {
        MultiMonitorMode::Span
    }
}

/// One display, placed on the virtual desktop.
#[derive(Debug)]
pub struct Monitor {
    pub x: i32,
    pub y: i32,
    pub width: u32,
    pub height: u32,
    pub is_primary: bool,
    pub name: String,
}

impl Clone for Monitor {
    fn clone(&self) -> (r: Self)
        ensures
            r == *self,
    {
        Monitor {
            x: self.x,
            y: self.y,
            width: self.width,
            height: self.height,
            is_primary: self.is_primary,
            name: self.name.clone(),
        }
    }
}

/// All displays and the rectangle of the virtual desktop that holds them.
#[derive(Debug)]
pub struct MonitorLayout {
    pub monitors: Vec<Monitor>,
    pub total_width: u32,
    pub total_height: u32,
    /// min_x, min_y, max_x, max_y
    pub bounds: (i32, i32, i32, i32),
}

/// Width of the display assumed when none is reported.
pub const DEFAULT_MONITOR_WIDTH: u32 = 1920;
/// Height of the display assumed when none is reported.
pub const DEFAULT_MONITOR_HEIGHT: u32 = 1080;

/// The display assumed when none is reported: 1920×1080 at the origin,
/// primary, named "Default".
pub open spec fn is_default_monitor(m: Monitor) -> bool {
    &&& m.x == 0
    &&& m.y == 0
    &&& m.width == DEFAULT_MONITOR_WIDTH
    &&& m.height == DEFAULT_MONITOR_HEIGHT
    &&& m.is_primary
    &&& m.name@ == "Default"@
}

/// Build the display assumed when none is reported.
pub fn default_monitor() -> (m: Monitor)
    ensures
        is_default_monitor(m),
{
    Monitor {
        x: 0,
        y: 0,
        width: DEFAULT_MONITOR_WIDTH,
        height: DEFAULT_MONITOR_HEIGHT,
        is_primary: true,
        name: String::from_str("Default"),
    }
}

pub open spec fn min_int(a: int, b: int) -> int {
    if a <= b {
        a
    } else {
        b
    }
}

pub open spec fn max_int(a: int, b: int) -> int {
    if a >= b {
        a
    } else {
        b
    }
}

/// Leftmost edge of the displays (0 for none).
pub open spec fn min_left(s: Seq<Monitor>) -> int
    decreases s.len(),
{
    if s.len() == 0 {
        0
    } else if s.len() == 1 {
        s[0].x as int
    } else {
        min_int(min_left(s.drop_last()), s.last().x as int)
    }
}

/// Topmost edge of the displays (0 for none).
pub open spec fn min_top(s: Seq<Monitor>) -> int
    decreases s.len(),
{
    if s.len() == 0 {
        0
    } else if s.len() == 1 {
        s[0].y as int
    } else {
        min_int(min_top(s.drop_last()), s.last().y as int)
    }
}

/// A display's size as the layout adds it to a coordinate: the size taken
/// as a signed 32-bit value, so that a size above `i32::MAX` wraps to a
/// negative one.
pub open spec fn extent(size: u32) -> int {
    (size as i32) as int
}

/// Right edge of a display: `x` plus its width as a signed value.
pub open spec fn right_edge(m: Monitor) -> int {
    m.x + extent(m.width)
}

/// Bottom edge of a display: `y` plus its height as a signed value.
pub open spec fn bottom_edge(m: Monitor) -> int {
    m.y + extent(m.height)
}

/// Rightmost edge of the displays (1920 for none).
pub open spec fn max_right(s: Seq<Monitor>) -> int
    decreases s.len(),
{
    if s.len() == 0 {
        DEFAULT_MONITOR_WIDTH as int
    } else if s.len() == 1 {
        right_edge(s[0])
    } else {
        max_int(max_right(s.drop_last()), right_edge(s.last()))
    }
}

/// Bottom edge of the displays (1080 for none).
pub open spec fn max_bottom(s: Seq<Monitor>) -> int
    decreases s.len(),
{
    if s.len() == 0 {
        DEFAULT_MONITOR_HEIGHT as int
    } else if s.len() == 1 {
        bottom_edge(s[0])
    } else {
        max_int(max_bottom(s.drop_last()), bottom_edge(s.last()))
    }
}

pub open spec fn in_i32(v: int) -> bool {
    i32::MIN <= v <= i32::MAX
}

/// A display's far edges are representable as signed 32-bit values.
pub open spec fn monitor_fits(m: Monitor) -> bool {
    in_i32(right_edge(m)) && in_i32(bottom_edge(m))
}

/// The layout of these displays can be computed in signed 32-bit values:
/// every display's far edges, and the extent of the virtual desktop.
pub open spec fn layout_fits(s: Seq<Monitor>) -> bool {
    &&& forall|i: int| 0 <= i < s.len() ==> #[trigger] monitor_fits(s[i])
    &&& in_i32(max_right(s) - min_left(s))
    &&& in_i32(max_bottom(s) - min_top(s))
}

/// Every display's width and height is at most `i32::MAX`, so that it is
/// added to a coordinate as it is.
pub open spec fn sizes_fit(s: Seq<Monitor>) -> bool {
    forall|i: int| 0 <= i < s.len() ==> (#[trigger] s[i]).width <= i32::MAX && s[i].height <= i32::MAX
}

/// Index of the first primary display.
pub open spec fn first_primary(s: Seq<Monitor>) -> Option<int>
    decreases s.len(),
{
    if s.len() == 0 {
        None
    } else if s[0].is_primary {
        Some(0)
    } else {
        match first_primary(s.drop_first()) {
            Some(i) => Some(i + 1),
            None => None,
        }
    }
}

proof fn lemma_first_primary_found(s: Seq<Monitor>, i: int)
    requires
        0 <= i < s.len(),
        s[i].is_primary,
        forall|j: int| 0 <= j < i ==> !(#[trigger] s[j]).is_primary,
    ensures
        first_primary(s) == Some(i),
    decreases s.len(),
{
    if i > 0 {
        assert forall|j: int| 0 <= j < i - 1 implies !(#[trigger] s.drop_first()[j]).is_primary by {
            assert(s.drop_first()[j] == s[j + 1]);
        }
        lemma_first_primary_found(s.drop_first(), i - 1);
    }
}

proof fn lemma_first_primary_none(s: Seq<Monitor>)
    requires
        forall|j: int| 0 <= j < s.len() ==> !(#[trigger] s[j]).is_primary,
    ensures
        first_primary(s) is None,
    decreases s.len(),
{
    if s.len() > 0 {
        assert forall|j: int| 0 <= j < s.len() - 1 implies !(#[trigger] s.drop_first()[j]).is_primary by {
            assert(s.drop_first()[j] == s[j + 1]);
        }
        lemma_first_primary_none(s.drop_first());
    }
}

/// The virtual desktop holds every display: each monitor lies within the
/// bounds computed for the layout.
pub proof fn lemma_bounds_hold_monitors(s: Seq<Monitor>)
    ensures
        forall|i: int|
            0 <= i < s.len() ==> {
                &&& min_left(s) <= (#[trigger] s[i]).x
                &&& min_top(s) <= s[i].y
                &&& right_edge(s[i]) <= max_right(s)
                &&& bottom_edge(s[i]) <= max_bottom(s)
            },
    decreases s.len(),
{
    if s.len() > 1 {
        lemma_bounds_hold_monitors(s.drop_last());
        assert forall|i: int| 0 <= i < s.len() implies {
            &&& min_left(s) <= (#[trigger] s[i]).x
            &&& min_top(s) <= s[i].y
            &&& right_edge(s[i]) <= max_right(s)
            &&& bottom_edge(s[i]) <= max_bottom(s)
        } by {
            if i < s.len() - 1 {
                assert(s[i] == s.drop_last()[i]);
            }
        }
    }
}

/// `l` is the layout of the reported displays `input`: they are its
/// displays (the default one when none is reported), its bounds are the
/// smallest rectangle holding them, and its size is the extent of the
/// bounds. A layout of displays whose sizes are at most `i32::MAX` can be
/// drawn in duplicate mode.
pub open spec fn built_from(input: Seq<Monitor>, l: MonitorLayout) -> bool {
    &&& input.len() > 0 ==> l.monitors@ == input
    &&& input.len() == 0 ==> l.monitors@.len() == 1 && is_default_monitor(l.monitors@[0])
    &&& l.bounds.0 == min_left(l.monitors@)
    &&& l.bounds.1 == min_top(l.monitors@)
    &&& l.bounds.2 == max_right(l.monitors@)
    &&& l.bounds.3 == max_bottom(l.monitors@)
    &&& l.total_width == (max_right(l.monitors@) - min_left(l.monitors@)) as u32
    &&& l.total_height == (max_bottom(l.monitors@) - min_top(l.monitors@)) as u32
    &&& layout_fits(l.monitors@)
    &&& sizes_fit(input) ==> sizes_fit(l.monitors@) && duplicate_fits(l)
}

impl MonitorLayout {
    /// The layout made of the reported displays: the virtual desktop is the
    /// smallest rectangle holding all of them. When none is reported, the
    /// default 1920×1080 display is assumed.
    pub fn from_monitors(monitors: Vec<Monitor>) -> (l: MonitorLayout)
        requires
            layout_fits(monitors@),
        ensures
            built_from(monitors@, l),
    {
        let ghost input = monitors@;
        let mut monitors = monitors;
        if monitors.len() == 0 {
            monitors.push(default_monitor());
            assert(monitors@.len() == 1);
            assert(max_right(monitors@) == 1920);
            assert(max_bottom(monitors@) == 1080);
            assert(min_left(monitors@) == 0);
            assert(min_top(monitors@) == 0);
            assert(monitor_fits(monitors@[0]));
        }
        let ghost s = monitors@;
        let n = monitors.len();
        assert(monitor_fits(s[0]));
        let mut min_x: i32 = monitors[0].x;
        let mut min_y: i32 = monitors[0].y;
        let mut max_x: i32 = monitors[0].x + monitors[0].width as i32;
        let mut max_y: i32 = monitors[0].y + monitors[0].height as i32;
        let mut i: usize = 1;
        assert(s.subrange(0, 1).len() == 1);
        while i < n
            invariant
                s == monitors@,
                n == s.len(),
                1 <= i <= n,
                layout_fits(s),
                min_x == min_left(s.subrange(0, i as int)),
                min_y == min_top(s.subrange(0, i as int)),
                max_x == max_right(s.subrange(0, i as int)),
                max_y == max_bottom(s.subrange(0, i as int)),
            decreases n - i,
        {
            let m = &monitors[i];
            assert(s.subrange(0, i + 1).drop_last() =~= s.subrange(0, i as int));
            assert(s.subrange(0, i + 1).last() == s[i as int]);
            assert(monitor_fits(s[i as int]));
            if m.x < min_x {
                min_x = m.x;
            }
            if m.y < min_y {
                min_y = m.y;
            }
            let right = m.x + m.width as i32;
            if right > max_x {
                max_x = right;
            }
            let bottom = m.y + m.height as i32;
            if bottom > max_y {
                max_y = bottom;
            }
            i = i + 1;
        }
        assert(s.subrange(0, n as int) =~= s);
        let total_width = (max_x - min_x) as u32;
        let total_height = (max_y - min_y) as u32;
        let l = MonitorLayout {
            monitors,
            total_width,
            total_height,
            bounds: (min_x, min_y, max_x, max_y),
        };
        proof {
            if sizes_fit(input) {
                assert(sizes_fit(s));
                lemma_bounds_hold_monitors(s);
                assert forall|i: int| 0 <= i < l.monitors@.len() implies {
                    let m = #[trigger] l.monitors@[i];
                    &&& i32::MIN <= m.x - l.bounds.0 <= i32::MAX
                    &&& i32::MIN <= m.y - l.bounds.1 <= i32::MAX
                    &&& monitor_origin(m, l.bounds.0, l.bounds.1).0 + m.width / 2 <= u32::MAX
                    &&& monitor_origin(m, l.bounds.0, l.bounds.1).1 + m.height / 2 <= u32::MAX
                } by {
                    let m = s[i];
                    assert(m.width <= i32::MAX && m.height <= i32::MAX);
                    assert(extent(m.width) == m.width);
                    assert(extent(m.height) == m.height);
                }
            }
        }
        l
    }

    /// Whether the layout of these displays can be computed in signed
    /// 32-bit values (see `layout_fits`).
    pub fn fits(monitors: &Vec<Monitor>) -> (r: bool)
        ensures
            r == layout_fits(monitors@),
    {
        let ghost s = monitors@;
        let n = monitors.len();
        if n == 0 {
            return true;
        }
        let mut min_x: i64 = 0;
        let mut min_y: i64 = 0;
        let mut max_x: i64 = 0;
        let mut max_y: i64 = 0;
        let mut i: usize = 0;
        while i < n
            invariant
                s == monitors@,
                n == s.len(),
                n > 0,
                i <= n,
                forall|j: int| 0 <= j < i ==> #[trigger] monitor_fits(s[j]),
                i > 0 ==> min_x == min_left(s.subrange(0, i as int)),
                i > 0 ==> min_y == min_top(s.subrange(0, i as int)),
                i > 0 ==> max_x == max_right(s.subrange(0, i as int)),
                i > 0 ==> max_y == max_bottom(s.subrange(0, i as int)),
                i > 0 ==> in_i32(min_x as int) && in_i32(min_y as int),
                i > 0 ==> in_i32(max_x as int) && in_i32(max_y as int),
            decreases n - i,
        {
            let m = &monitors[i];
            assert(s[i as int] == *m);
            let right: i64 = m.x as i64 + (m.width as i32) as i64;
            let bottom: i64 = m.y as i64 + (m.height as i32) as i64;
            if right < i32::MIN as i64 || right > i32::MAX as i64 || bottom < i32::MIN as i64
                || bottom > i32::MAX as i64 {
                assert(!monitor_fits(s[i as int]));
                return false;
            }
            assert(s.subrange(0, i + 1).drop_last() =~= s.subrange(0, i as int));
            assert(s.subrange(0, i + 1).last() == s[i as int]);
            if i == 0 {
                assert(s.subrange(0, 1).len() == 1);
                min_x = m.x as i64;
                min_y = m.y as i64;
                max_x = right;
                max_y = bottom;
            } else {
                if (m.x as i64) < min_x {
                    min_x = m.x as i64;
                }
                if (m.y as i64) < min_y {
                    min_y = m.y as i64;
                }
                if right > max_x {
                    max_x = right;
                }
                if bottom > max_y {
                    max_y = bottom;
                }
            }
            i = i + 1;
        }
        assert(s.subrange(0, n as int) =~= s);
        let w = max_x - min_x;
        let h = max_y - min_y;
        w >= i32::MIN as i64 && w <= i32::MAX as i64 && h >= i32::MIN as i64 && h <= i32::MAX as i64
    }

    /// The layout made of the reported displays, when it can be computed in
    /// signed 32-bit values; `None` when it cannot.
    pub fn try_from_monitors(monitors: Vec<Monitor>) -> (r: Option<MonitorLayout>)
        ensures
            r is None <==> !layout_fits(monitors@),
            r matches Some(l) ==> built_from(monitors@, l),
    {
        if MonitorLayout::fits(&monitors) {
            Some(MonitorLayout::from_monitors(monitors))
        } else {
            None
        }
    }

    /// The primary display: the first one marked primary.
    pub fn primary(&self) -> (r: Option<&Monitor>)
        ensures
            match first_primary(self.monitors@) {
                Some(i) => r matches Some(m) && *m == self.monitors@[i],
                None => r is None,
            },
    {
        let n = self.monitors.len();
        let mut i: usize = 0;
        while i < n
            invariant
                n == self.monitors@.len(),
                i <= n,
                forall|j: int| 0 <= j < i ==> !(#[trigger] self.monitors@[j]).is_primary,
            decreases n - i,
        {
            if self.monitors[i].is_primary {
                proof {
                    lemma_first_primary_found(self.monitors@, i as int);
                }
                return Some(&self.monitors[i]);
            }
            i = i + 1;
        }
        proof {
            lemma_first_primary_none(self.monitors@);
        }
        None
    }

    /// A layout holding only the primary display, moved to the origin:
    /// used for the lock screen image at single-monitor size. `None` when
    /// no display is primary.
    pub fn primary_only(&self) -> (r: Option<MonitorLayout>)
        ensures
            match first_primary(self.monitors@) {
                Some(i) => r matches Some(l) && {
                    let p = self.monitors@[i];
                    &&& l.monitors@.len() == 1
                    &&& l.monitors@[0].x == 0
                    &&& l.monitors@[0].y == 0
                    &&& l.monitors@[0].width == p.width
                    &&& l.monitors@[0].height == p.height
                    &&& l.monitors@[0].is_primary
                    &&& l.monitors@[0].name@ == p.name@
                    &&& l.total_width == p.width
                    &&& l.total_height == p.height
                    &&& l.bounds == (0i32, 0i32, p.width as i32, p.height as i32)
                },
                None => r is None,
            },
    {
        match self.primary() {
            None => None,
            Some(p) => {
                let primary = Monitor {
                    x: 0,
                    y: 0,
                    width: p.width,
                    height: p.height,
                    is_primary: true,
                    name: p.name.clone(),
                };
                let mut monitors: Vec<Monitor> = Vec::new();
                monitors.push(primary);
                Some(
                    MonitorLayout {
                        monitors,
                        total_width: p.width,
                        total_height: p.height,
                        bounds: (0, 0, p.width as i32, p.height as i32),
                    },
                )
            },
        }
    }
}

} // verus!
