//! Geostationary satellites whose full-disk imagery can be shown.

use vstd::prelude::*;
use crate::clock::{chrono_parse_rfc3339, parse_rfc3339_timestamp};
use crate::text::{trim, trimmed};

verus! {

/// Available geostationary satellites.
#[derive(Debug, Clone, Copy, PartialEq, Eq, Structural)]
pub enum Satellite {
    /// Himawari-9 at 140.7°E (Japan Meteorological Agency)
    Himawari,
    /// GOES-East (GOES-19) at 75.2°W (NOAA)
    GoesEast,
    /// GOES-West (GOES-18) at 137.2°W (NOAA)
    GoesWest,
    /// GEO-KOMPSAT-2A at 128.2°E (Korea Meteorological Administration)
    Gk2a,
    /// Meteosat-12 at 0° (EUMETSAT)
    Meteosat12,
}

/// The rotation order of the satellites, as offered in the tray menu.
pub open spec fn satellite_order() -> Seq<Satellite> {
    seq![
        Satellite::Himawari,
        Satellite::GoesEast,
        Satellite::GoesWest,
        Satellite::Gk2a,
        Satellite::Meteosat12,
    ]
}

/// Position of a satellite in `satellite_order`.
pub open spec fn satellite_index(s: Satellite) -> int {
    match s {
        Satellite::Himawari => 0,
        Satellite::GoesEast => 1,
        Satellite::GoesWest => 2,
        Satellite::Gk2a => 3,
        Satellite::Meteosat12 => 4,
    }
}

pub open spec fn spec_next(s: Satellite) -> Satellite {
    satellite_order()[(satellite_index(s) + 1) % 5]
}

pub open spec fn spec_name(s: Satellite) -> Seq<char> {
    match s {
        Satellite::Himawari => "Himawari-9"@,
        Satellite::GoesEast => "GOES-East"@,
        Satellite::GoesWest => "GOES-West"@,
        Satellite::Gk2a => "GK2A"@,
        Satellite::Meteosat12 => "Meteosat-12"@,
    }
}

impl Default for Satellite {
    fn default() -> (s: Self)
        ensures
            s == Satellite::Himawari,
    {
        Satellite::Himawari
    }
}

impl Satellite {
    /// Short name for the tray menu.
    pub fn name(&self) -> (r: &'static str)
        ensures
            r@ == spec_name(*self),
    {
        match self {
            Satellite::Himawari => "Himawari-9",
            Satellite::GoesEast => "GOES-East",
            Satellite::GoesWest => "GOES-West",
            Satellite::Gk2a => "GK2A",
            Satellite::Meteosat12 => "Meteosat-12",
        }
    }

    /// The next satellite in rotation (wrapping from the last to the first).
    pub fn next(&self) -> (r: Self)
        ensures
            r == spec_next(*self),
    {
        match self {
            Satellite::Himawari => Satellite::GoesEast,
            Satellite::GoesEast => Satellite::GoesWest,
            Satellite::GoesWest => Satellite::Gk2a,
            Satellite::Gk2a => Satellite::Meteosat12,
            Satellite::Meteosat12 => Satellite::Himawari,
        }
    }

    /// All available satellites, in rotation order.
    pub fn all() -> (r: &'static [Satellite])
        ensures
            r@ == satellite_order(),
    {
        &[
            Satellite::Himawari,
            Satellite::GoesEast,
            Satellite::GoesWest,
            Satellite::Gk2a,
            Satellite::Meteosat12,
        ]
    }
}


/// Cache file name under which the last good image of a satellite is kept.
pub open spec fn spec_cache_filename(s: Satellite) -> Seq<char> {
    match s {
        Satellite::Himawari => "earth_cache_himawari.png"@,
        Satellite::GoesEast => "earth_cache_goes_east.png"@,
        Satellite::GoesWest => "earth_cache_goes_west.png"@,
        Satellite::Gk2a => "earth_cache_gk2a.png"@,
        Satellite::Meteosat12 => "earth_cache_meteosat12.png"@,
    }
}

/// Get the cache file name for a satellite.
pub fn cache_filename(satellite: Satellite) -> (r: &'static str)
    ensures
        r@ == spec_cache_filename(satellite),
{
    match satellite {
        Satellite::Himawari => "earth_cache_himawari.png",
        Satellite::GoesEast => "earth_cache_goes_east.png",
        Satellite::GoesWest => "earth_cache_goes_west.png",
        Satellite::Gk2a => "earth_cache_gk2a.png",
        Satellite::Meteosat12 => "earth_cache_meteosat12.png",
    }
}

/// Rotating through the satellites visits each of them and comes back
/// after five steps; the list of all satellites holds each exactly once.
pub proof fn lemma_rotation_cycles(s: Satellite)
    ensures
        spec_next(spec_next(spec_next(spec_next(spec_next(s))))) == s,
        satellite_order()[satellite_index(s)] == s,
        0 <= satellite_index(s) < satellite_order().len(),
        forall|i: int, j: int|
            0 <= i < j < satellite_order().len() ==> satellite_order()[i] != satellite_order()[j],
{
}

/// Each satellite keeps its cached image in a file of its own.
pub proof fn lemma_cache_files_distinct(a: Satellite, b: Satellite)
    requires
        a != b,
    ensures
        spec_cache_filename(a) != spec_cache_filename(b),
{
    reveal_strlit("earth_cache_himawari.png");
    reveal_strlit("earth_cache_goes_east.png");
    reveal_strlit("earth_cache_goes_west.png");
    reveal_strlit("earth_cache_gk2a.png");
    reveal_strlit("earth_cache_meteosat12.png");
    assert("earth_cache_himawari.png"@.len() == 24);
    assert("earth_cache_goes_east.png"@.len() == 25);
    assert("earth_cache_goes_west.png"@.len() == 25);
    assert("earth_cache_gk2a.png"@.len() == 20);
    assert("earth_cache_meteosat12.png"@.len() == 26);
    assert("earth_cache_goes_east.png"@[17] != "earth_cache_goes_west.png"@[17]);
}

/// Name of the file beside a satellite's cached image that records when
/// the image was taken: the image's file name followed by ".txt".
pub fn cache_meta_filename(satellite: Satellite) -> (r: String)
    ensures
        r@ == spec_cache_filename(satellite) + ".txt"@,
{
    let mut s = String::from_str(cache_filename(satellite));
    s.append(".txt");
    s
}

/// When a cached image was taken, read from the text of its record file:
/// an RFC 3339 time, white space around it ignored. Gives the Unix seconds
/// and the nanoseconds within that second; `None` when the text is no
/// such time.
pub fn cached_image_time(meta: &str) -> (r: Option<(i64, u32)>)
    ensures
        r == chrono_parse_rfc3339(trimmed(meta@)),
{
    parse_rfc3339_timestamp(trim(meta))
}

/// `2^n`.
pub open spec fn pow2(n: nat) -> nat
    decreases n,
{
    if n == 0 {
        1
    } else {
        2 * pow2((n - 1) as nat)
    }
}

/// Highest zoom level that the tile server offers.
pub const MAX_SLIDER_ZOOM: u8 = 5;

/// The first zoom level from `zoom` on (up to the maximum) at which a
/// full-disk image made of `tile`-pixel tiles is at least `target` pixels
/// wide; the maximum zoom when none is.
pub open spec fn zoom_from(target: int, tile: int, zoom: nat) -> nat
    decreases 5 - zoom,
{
    if zoom >= 5 {
        5
    } else if tile * pow2(zoom) >= target {
        zoom
    } else {
        zoom_from(target, tile, zoom + 1)
    }
}

/// Smallest zoom level whose image (`tile * 2^zoom` pixels wide) reaches
/// `target` pixels, or the maximum zoom level when none does.
pub open spec fn spec_slider_zoom(target: int, tile: int) -> nat {
    zoom_from(target, tile, 0)
}

proof fn lemma_pow2_positive(n: nat)
    ensures
        pow2(n) >= 1,
    decreases n,
{
    if n > 0 {
        lemma_pow2_positive((n - 1) as nat);
    }
}

proof fn lemma_pow2_monotone(a: nat, b: nat)
    requires
        a <= b,
    ensures
        pow2(a) <= pow2(b),
    decreases b,
{
    if a < b {
        lemma_pow2_monotone(a, (b - 1) as nat);
        lemma_pow2_positive((b - 1) as nat);
    }
}

proof fn lemma_zoom_from_bounds(target: int, tile: int, zoom: nat)
    requires
        zoom <= 5,
    ensures
        zoom <= zoom_from(target, tile, zoom) <= 5,
    decreases 5 - zoom,
{
    if zoom < 5 && tile * pow2(zoom) < target {
        lemma_zoom_from_bounds(target, tile, zoom + 1);
    }
}

/// The chosen zoom is the least sufficient one: every smaller zoom gives
/// an image narrower than the target, and the chosen one reaches it unless
/// even the largest zoom falls short.
pub proof fn lemma_zoom_is_least(target: int, tile: int)
    ensures
        ({
            let z = spec_slider_zoom(target, tile);
            &&& z <= 5
            &&& forall|w: nat| w < z ==> #[trigger] (tile * pow2(w)) < target
            &&& z < 5 ==> tile * pow2(z) >= target
        }),
{
    lemma_zoom_from_least(target, tile, 0);
}

proof fn lemma_zoom_from_least(target: int, tile: int, zoom: nat)
    requires
        zoom <= 5,
        forall|w: nat| w < zoom ==> #[trigger] (tile * pow2(w)) < target,
    ensures
        ({
            let z = zoom_from(target, tile, zoom);
            &&& zoom <= z <= 5
            &&& forall|w: nat| w < z ==> #[trigger] (tile * pow2(w)) < target
            &&& z < 5 ==> tile * pow2(z) >= target
        }),
    decreases 5 - zoom,
{
    if zoom < 5 && tile * pow2(zoom) < target {
        assert forall|w: nat| w < zoom + 1 implies #[trigger] (tile * pow2(w)) < target by {
            if w < zoom {
            }
        }
        lemma_zoom_from_least(target, tile, zoom + 1);
    }
}

/// Determine the zoom level to request: the smallest zoom (0..=5) whose
/// image (`tile_size * 2^zoom` pixels wide) is at least `target_size`
/// pixels, or 5 when even the largest is smaller.
pub fn slider_zoom_for_size(target_size: u32, tile_size: u32) -> (zoom: u8)
    requires
        tile_size * pow2(spec_slider_zoom(target_size as int, tile_size as int)) <= u32::MAX,
    ensures
        zoom == spec_slider_zoom(target_size as int, tile_size as int),
        zoom <= MAX_SLIDER_ZOOM,
{
    let ghost t = target_size as int;
    let ghost w = tile_size as int;
    let mut zoom: u8 = 0;
    let mut size: u32 = tile_size;
    proof {
        lemma_zoom_from_bounds(t, w, 0);
        assert(pow2(0) == 1);
    }
    while zoom < MAX_SLIDER_ZOOM
        invariant
            t == target_size,
            w == tile_size,
            zoom <= 5,
            size == w * pow2(zoom as nat),
            zoom_from(t, w, 0) == zoom_from(t, w, zoom as nat),
            zoom as nat <= zoom_from(t, w, 0),
            w * pow2(zoom_from(t, w, 0)) <= u32::MAX,
        decreases 5 - zoom,
    {
        if size >= target_size {
            return zoom;
        }
        assert(zoom_from(t, w, zoom as nat) == zoom_from(t, w, (zoom + 1) as nat));
        assert(zoom_from(t, w, 0) >= zoom + 1) by {
            lemma_zoom_from_bounds(t, w, (zoom + 1) as nat);
        }
        assert(w * pow2((zoom + 1) as nat) <= w * pow2(zoom_from(t, w, 0))) by {
            lemma_pow2_monotone((zoom + 1) as nat, zoom_from(t, w, 0));
            assert(w >= 0);
            vstd::arithmetic::mul::lemma_mul_inequality(
                pow2((zoom + 1) as nat) as int,
                pow2(zoom_from(t, w, 0)) as int,
                w,
            );
            vstd::arithmetic::mul::lemma_mul_is_commutative(w, pow2((zoom + 1) as nat) as int);
            vstd::arithmetic::mul::lemma_mul_is_commutative(w, pow2(zoom_from(t, w, 0)) as int);
        }
        assert(w * pow2((zoom + 1) as nat) == 2 * (w * pow2(zoom as nat))) by {
            vstd::arithmetic::mul::lemma_mul_is_associative(w, 2, pow2(zoom as nat) as int);
            vstd::arithmetic::mul::lemma_mul_is_commutative(w, 2);
            vstd::arithmetic::mul::lemma_mul_is_associative(2, w, pow2(zoom as nat) as int);
        }
        size = size * 2;
        zoom = zoom + 1;
    }
    zoom
}

/// Whether the image at the zoom chosen for these sizes (`tile_size *
/// 2^zoom` pixels wide) is representable as a `u32`, as
/// `slider_zoom_for_size` requires.
pub fn slider_zoom_fits(target_size: u32, tile_size: u32) -> (r: bool)
    ensures
        r == (tile_size * pow2(spec_slider_zoom(target_size as int, tile_size as int))
            <= u32::MAX),
{
    let ghost t = target_size as int;
    let ghost w = tile_size as int;
    let mut zoom: u8 = 0;
    let mut size: u64 = tile_size as u64;
    proof {
        assert(pow2(0) == 1);
        assert(pow2(4) == 16) by {
            reveal_with_fuel(pow2, 5);
        }
    }
    while zoom < MAX_SLIDER_ZOOM
        invariant
            t == target_size,
            w == tile_size,
            zoom <= 5,
            pow2(4) == 16,
            size == w * pow2(zoom as nat),
            zoom_from(t, w, 0) == zoom_from(t, w, zoom as nat),
        ensures
            size == w * pow2(zoom as nat),
            zoom_from(t, w, 0) == zoom as nat,
        decreases 5 - zoom,
    {
        if size >= target_size as u64 {
            break;
        }
        assert(zoom_from(t, w, zoom as nat) == zoom_from(t, w, (zoom + 1) as nat));
        proof {
            lemma_pow2_monotone(zoom as nat, 4);
            let p = pow2(zoom as nat) as int;
            assert(w * p <= w * 16 && w * 16 < 0x10_0000_0000) by (nonlinear_arith)
                requires
                    0 <= w < 0x1_0000_0000,
                    1 <= p <= 16,
            ;
            lemma_pow2_positive(zoom as nat);
        }
        assert(w * pow2((zoom + 1) as nat) == 2 * (w * pow2(zoom as nat))) by {
            vstd::arithmetic::mul::lemma_mul_is_associative(w, 2, pow2(zoom as nat) as int);
            vstd::arithmetic::mul::lemma_mul_is_commutative(w, 2);
            vstd::arithmetic::mul::lemma_mul_is_associative(2, w, pow2(zoom as nat) as int);
        }
        size = size * 2;
        zoom = zoom + 1;
    }
    size <= u32::MAX as u64
}

} // verus!
