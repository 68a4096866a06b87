//! Full-disk imagery served as tiles by the SLIDER service: which product
//! and bands each satellite uses, how a band image is cut into tiles, and
//! the addresses of the latest-time index and of each tile.

use vstd::prelude::*;
use crate::clock::{chrono_parse_utc, parse_utc_timestamp};
use crate::satellite::{
    pow2, slider_zoom_fits, slider_zoom_for_size, spec_slider_zoom, Satellite, MAX_SLIDER_ZOOM,
};
use crate::text::{
    digit_char, push_char, push_signed_decimal, push_zero_padded, signed_decimal, zero_padded,
};

verus! {

/// Host of the SLIDER tile service.
pub const SLIDER_BASE_URL: &'static str = "https://slider.cira.colostate.edu";

/// Largest accepted size of the latest-times index (64 KiB).
pub const MAX_SLIDER_METADATA_SIZE: usize = 65536;

/// Largest accepted size of one tile (2 MiB).
pub const MAX_TILE_SIZE: usize = 2097152;

/// Side of the composite image that is requested, in pixels.
pub const TARGET_IMAGE_SIZE: u32 = 2200;

/// Tile side of the GK2A product, in pixels.
pub const GK2A_TILE_SIZE: u32 = 688;
/// Tile side of the Himawari product, in pixels.
pub const HIMAWARI_TILE_SIZE: u32 = 688;
/// Tile side of the GOES products, in pixels.
pub const GOES_TILE_SIZE: u32 = 678;
/// Tile side of the Meteosat-12 product, in pixels.
pub const METEOSAT12_TILE_SIZE: u32 = 696;

/// strftime format of the compact timestamps of the service.
pub const SLIDER_TIME_FORMAT: &'static str = "%Y%m%d%H%M%S";

/// What the service calls a satellite's imagery, and the bands from which
/// the true-colour composite is synthesised (green is made from red,
/// near-infrared "veggie" and blue).
pub struct SliderProduct {
    /// Satellite identifier in the service's paths.
    pub id: &'static str,
    /// Band whose index gives the latest available time.
    pub time_band: &'static str,
    /// Blue band (0.47 µm).
    pub blue_band: &'static str,
    /// Red band (0.64 µm).
    pub red_band: &'static str,
    /// Near-infrared "veggie" band (0.86 µm).
    pub veggie_band: &'static str,
    /// Tile side in pixels.
    pub tile_size: u32,
}

pub struct SliderProductView {
    pub id: Seq<char>,
    pub time_band: Seq<char>,
    pub blue_band: Seq<char>,
    pub red_band: Seq<char>,
    pub veggie_band: Seq<char>,
    pub tile_size: u32,
}

impl View for SliderProduct {
    type V = SliderProductView;

    open spec fn view(&self) -> SliderProductView {
        SliderProductView {
            id: self.id@,
            time_band: self.time_band@,
            blue_band: self.blue_band@,
            red_band: self.red_band@,
            veggie_band: self.veggie_band@,
            tile_size: self.tile_size,
        }
    }
}

/// The product each satellite is fetched from.
pub open spec fn spec_slider_product(sat: Satellite) -> SliderProductView {
    match sat {
        Satellite::Himawari => SliderProductView {
            id: "himawari"@,
            time_band: "band_03"@,
            blue_band: "band_01"@,
            red_band: "band_03"@,
            veggie_band: "band_04"@,
            tile_size: HIMAWARI_TILE_SIZE,
        },
        Satellite::GoesEast => SliderProductView {
            id: "goes-19"@,
            time_band: "band_02"@,
            blue_band: "band_01"@,
            red_band: "band_02"@,
            veggie_band: "band_03"@,
            tile_size: GOES_TILE_SIZE,
        },
        Satellite::GoesWest => SliderProductView {
            id: "goes-18"@,
            time_band: "band_02"@,
            blue_band: "band_01"@,
            red_band: "band_02"@,
            veggie_band: "band_03"@,
            tile_size: GOES_TILE_SIZE,
        },
        Satellite::Gk2a => SliderProductView {
            id: "gk2a"@,
            time_band: "band_03"@,
            blue_band: "band_01"@,
            red_band: "band_03"@,
            veggie_band: "band_04"@,
            tile_size: GK2A_TILE_SIZE,
        },
        Satellite::Meteosat12 => SliderProductView {
            id: "meteosat-12"@,
            time_band: "band_03"@,
            blue_band: "band_01"@,
            red_band: "band_03"@,
            veggie_band: "band_04"@,
            tile_size: METEOSAT12_TILE_SIZE,
        },
    }
}

/// The name of imager band `n` (a single digit) in the service's
/// addresses: `band_0n`.
pub open spec fn band_name(n: int) -> Seq<char> {
    "band_0"@ + seq![digit_char(n)]
}

/// Whether a satellite carries the GOES imager (ABI), whose red band is
/// band 2; the other imagers have it as band 3.
pub open spec fn is_goes(sat: Satellite) -> bool {
    sat == Satellite::GoesEast || sat == Satellite::GoesWest
}

/// Every satellite's true-colour composite takes blue from band 1, red
/// from the imager's 0.64 µm band (band 2 on GOES, band 3 on the others)
/// and the vegetation band from the band after red; the latest time is
/// looked up on the red band. So the three bands are distinct, and both
/// GOES satellites use the same ones.
pub proof fn lemma_product_bands(sat: Satellite)
    ensures
        ({
            let p = spec_slider_product(sat);
            let red: int = if is_goes(sat) {
                2
            } else {
                3
            };
            &&& p.blue_band == band_name(1)
            &&& p.red_band == band_name(red)
            &&& p.veggie_band == band_name(red + 1)
            &&& p.time_band == p.red_band
            &&& p.blue_band != p.red_band
            &&& p.red_band != p.veggie_band
            &&& p.blue_band != p.veggie_band
        }),
{
    reveal_strlit("band_0");
    reveal_strlit("band_01");
    reveal_strlit("band_02");
    reveal_strlit("band_03");
    reveal_strlit("band_04");
    let p = spec_slider_product(sat);
    assert(band_name(1) =~= "band_01"@);
    assert(band_name(2) =~= "band_02"@);
    assert(band_name(3) =~= "band_03"@);
    assert(band_name(4) =~= "band_04"@);
    assert(band_name(1)[6] != band_name(2)[6]);
    assert(band_name(1)[6] != band_name(3)[6]);
    assert(band_name(1)[6] != band_name(4)[6]);
    assert(band_name(2)[6] != band_name(3)[6]);
    assert(band_name(3)[6] != band_name(4)[6]);
}

/// The product and bands from which a satellite's image is composed.
pub fn slider_product(sat: Satellite) -> (p: SliderProduct)
    ensures
        p@ == spec_slider_product(sat),
{
    match sat {
        Satellite::Himawari => SliderProduct {
            id: "himawari",
            time_band: "band_03",
            blue_band: "band_01",
            red_band: "band_03",
            veggie_band: "band_04",
            tile_size: HIMAWARI_TILE_SIZE,
        },
        Satellite::GoesEast => SliderProduct {
            id: "goes-19",
            time_band: "band_02",
            blue_band: "band_01",
            red_band: "band_02",
            veggie_band: "band_03",
            tile_size: GOES_TILE_SIZE,
        },
        Satellite::GoesWest => SliderProduct {
            id: "goes-18",
            time_band: "band_02",
            blue_band: "band_01",
            red_band: "band_02",
            veggie_band: "band_03",
            tile_size: GOES_TILE_SIZE,
        },
        Satellite::Gk2a => SliderProduct {
            id: "gk2a",
            time_band: "band_03",
            blue_band: "band_01",
            red_band: "band_03",
            veggie_band: "band_04",
            tile_size: GK2A_TILE_SIZE,
        },
        Satellite::Meteosat12 => SliderProduct {
            id: "meteosat-12",
            time_band: "band_03",
            blue_band: "band_01",
            red_band: "band_03",
            veggie_band: "band_04",
            tile_size: METEOSAT12_TILE_SIZE,
        },
    }
}

/// Address of the index of latest times of a satellite's band.
pub open spec fn spec_timestamps_url(sat: Seq<char>, band: Seq<char>) -> Seq<char> {
    SLIDER_BASE_URL@ + "/data/json/"@ + sat + "/full_disk/"@ + band + "/latest_times.json"@
}

/// Build the address of the latest-times index for a satellite's band.
pub fn slider_timestamps_url(sat: &str, band: &str) -> (r: String)
    ensures
        r@ == spec_timestamps_url(sat@, band@),
{
    let mut s = String::from_str(SLIDER_BASE_URL);
    s.append("/data/json/");
    s.append(sat);
    s.append("/full_disk/");
    s.append(band);
    s.append("/latest_times.json");
    s
}

/// Address of one tile: `row` and `col` written with three digits and the
/// zoom level with two, as the service names its files.
pub open spec fn spec_tile_url(
    sat: Seq<char>,
    band: Seq<char>,
    timestamp: int,
    date_path: Seq<char>,
    zoom: nat,
    row: nat,
    col: nat,
) -> Seq<char> {
    SLIDER_BASE_URL@ + "/data/imagery/"@ + date_path + "/"@ + sat + "---full_disk/"@ + band + "/"@
        + signed_decimal(timestamp) + "/"@ + zero_padded(zoom, 2) + "/"@ + zero_padded(row, 3)
        + "_"@ + zero_padded(col, 3) + ".png"@
}

/// Every request to the tile service goes over HTTPS.
pub proof fn lemma_slider_uses_https(
    sat: Seq<char>,
    band: Seq<char>,
    timestamp: int,
    date_path: Seq<char>,
    zoom: nat,
    row: nat,
    col: nat,
)
    ensures
        spec_timestamps_url(sat, band).subrange(0, 8) == "https://"@,
        spec_tile_url(sat, band, timestamp, date_path, zoom, row, col).subrange(0, 8) == "https://"@,
{
    reveal_strlit("https://");
    reveal_strlit("https://slider.cira.colostate.edu");
    assert(spec_timestamps_url(sat, band).subrange(0, 8) =~= "https://"@);
    assert(spec_tile_url(sat, band, timestamp, date_path, zoom, row, col).subrange(0, 8)
        =~= "https://"@);
}

/// Build the address of one tile of a band image.
pub fn slider_tile_url(
    sat: &str,
    band: &str,
    timestamp: i64,
    date_path: &str,
    zoom: u8,
    row: u32,
    col: u32,
) -> (r: String)
    ensures
        r@ == spec_tile_url(
            sat@,
            band@,
            timestamp as int,
            date_path@,
            zoom as nat,
            row as nat,
            col as nat,
        ),
{
    let mut s = String::from_str(SLIDER_BASE_URL);
    s.append("/data/imagery/");
    s.append(date_path);
    s.append("/");
    s.append(sat);
    s.append("---full_disk/");
    s.append(band);
    s.append("/");
    push_signed_decimal(&mut s, timestamp);
    s.append("/");
    push_zero_padded(&mut s, zoom as u64, 2);
    s.append("/");
    push_zero_padded(&mut s, row as u64, 3);
    s.append("_");
    push_zero_padded(&mut s, col as u64, 3);
    s.append(".png");
    s
}

/// The date part `YYYY/MM/DD` of a compact timestamp `YYYYMMDDHHMMSS`:
/// its first four, next two and next two characters.
pub open spec fn spec_date_path(stamp: Seq<char>) -> Seq<char> {
    stamp.subrange(0, 4) + seq!['/'] + stamp.subrange(4, 6) + seq!['/'] + stamp.subrange(6, 8)
}

/// The date directory of a timestamp of the service, read from its decimal
/// numeral (`20240115123000` gives `2024/01/15`).
pub fn slider_date_path(timestamp: i64) -> (r: String)
    requires
        signed_decimal(timestamp as int).len() >= 8,
    ensures
        r@ == spec_date_path(signed_decimal(timestamp as int)),
{
    let mut digits = String::new();
    push_signed_decimal(&mut digits, timestamp);
    let d = digits.as_str();
    assert(d@ =~= signed_decimal(timestamp as int));
    let mut s = String::new();
    s.append(d.substring_char(0, 4));
    push_char(&mut s, '/');
    s.append(d.substring_char(4, 6));
    push_char(&mut s, '/');
    s.append(d.substring_char(6, 8));
    assert(s@ =~= spec_date_path(signed_decimal(timestamp as int)));
    s
}

/// Failures in reading the service's answers.
#[derive(Debug, Clone, Copy, PartialEq, Eq, Structural)]
pub enum SliderError {
    /// The latest-times index lists no time.
    NoTimestamps,
    /// A timestamp does not read as a date and time.
    BadTimestamp,
}

/// The latest time of an index and its date directory: the index's first
/// entry; an error when the index is empty.
pub fn latest_slider_timestamp(timestamps_int: &Vec<i64>) -> (r: Result<
    (i64, String),
    SliderError,
>)
    requires
        timestamps_int@.len() > 0 ==> signed_decimal(timestamps_int@[0] as int).len() >= 8,
    ensures
        timestamps_int@.len() == 0 ==> r == Err::<(i64, String), SliderError>(
            SliderError::NoTimestamps,
        ),
        timestamps_int@.len() > 0 ==> (r matches Ok((ts, path)) && ts == timestamps_int@[0]
            && path@ == spec_date_path(signed_decimal(ts as int))),
{
    if timestamps_int.len() == 0 {
        return Err(SliderError::NoTimestamps);
    }
    let ts = timestamps_int[0];
    let path = slider_date_path(ts);
    Ok((ts, path))
}

/// The capture time (Unix seconds) of an image with the given timestamp,
/// its decimal numeral read as `YYYYMMDDHHMMSS` in UTC.
pub fn slider_image_time(timestamp: i64) -> (r: Result<i64, SliderError>)
    ensures
        r == (match chrono_parse_utc(signed_decimal(timestamp as int), SLIDER_TIME_FORMAT@) {
            Some(t) => Ok::<i64, SliderError>(t),
            None => Err(SliderError::BadTimestamp),
        }),
{
    let mut digits = String::new();
    push_signed_decimal(&mut digits, timestamp);
    assert(digits@ =~= signed_decimal(timestamp as int));
    match parse_utc_timestamp(digits.as_str(), SLIDER_TIME_FORMAT) {
        Some(t) => Ok(t),
        None => Err(SliderError::BadTimestamp),
    }
}

/// Whether a response of the given announced length may be read under a
/// size limit: an unannounced length is accepted, and so is one of at most
/// `limit` bytes.
pub fn response_within_limit(content_length: Option<u64>, limit: usize) -> (r: bool)
    ensures
        r == (match content_length {
            Some(len) => len <= limit,
            None => true,
        }),
{
    match content_length {
        Some(len) => len <= limit as u64,
        None => true,
    }
}

/// Whether a response whose body has been read is accepted under a size
/// limit: its announced length (if any) and the length of the body actually
/// received are both at most `limit` bytes.
pub fn response_accepted(content_length: Option<u64>, received: usize, limit: usize) -> (r: bool)
    ensures
        r == ((match content_length {
            Some(len) => len <= limit,
            None => true,
        }) && received <= limit),
{
    response_within_limit(content_length, limit) && received <= limit
}

/// How one band image is assembled: `tiles_per_side` × `tiles_per_side`
/// tiles of `tile_size` pixels at a zoom level.
#[derive(Debug, Clone, Copy, PartialEq, Eq, Structural)]
pub struct SliderBandGrid {
    pub zoom: u8,
    pub tiles_per_side: u32,
    pub tile_size: u32,
}

impl SliderBandGrid {
    pub open spec fn wf(&self) -> bool {
        &&& self.zoom <= MAX_SLIDER_ZOOM
        &&& self.tiles_per_side == pow2(self.zoom as nat)
        &&& self.tile_size * self.tiles_per_side <= u32::MAX
    }

    /// Side of the assembled image, in pixels.
    pub fn total_size(&self) -> (r: u32)
        requires
            self.wf(),
        ensures
            r == self.tile_size * self.tiles_per_side,
    {
        self.tile_size * self.tiles_per_side
    }

    /// Where the tile at `row`, `col` goes in the assembled image: `(x, y)`.
    pub fn tile_origin(&self, row: u32, col: u32) -> (r: (u32, u32))
        requires
            self.wf(),
            row < self.tiles_per_side,
            col < self.tiles_per_side,
        ensures
            r.0 == col * self.tile_size,
            r.1 == row * self.tile_size,
            r.0 + self.tile_size <= self.tile_size * self.tiles_per_side,
            r.1 + self.tile_size <= self.tile_size * self.tiles_per_side,
    {
        proof {
            vstd::arithmetic::mul::lemma_mul_inequality(
                col + 1,
                self.tiles_per_side as int,
                self.tile_size as int,
            );
            vstd::arithmetic::mul::lemma_mul_inequality(
                row + 1,
                self.tiles_per_side as int,
                self.tile_size as int,
            );
            vstd::arithmetic::mul::lemma_mul_is_distributive_add_other_way(
                self.tile_size as int,
                col as int,
                1,
            );
            vstd::arithmetic::mul::lemma_mul_is_distributive_add_other_way(
                self.tile_size as int,
                row as int,
                1,
            );
            vstd::arithmetic::mul::lemma_mul_inequality(
                col as int,
                self.tiles_per_side as int,
                self.tile_size as int,
            );
            vstd::arithmetic::mul::lemma_mul_inequality(
                row as int,
                self.tiles_per_side as int,
                self.tile_size as int,
            );
            vstd::arithmetic::mul::lemma_mul_is_commutative(
                self.tile_size as int,
                self.tiles_per_side as int,
            );
        }
        (col * self.tile_size, row * self.tile_size)
    }
}

/// The tiles of a band image in the order in which they are requested:
/// one at a time, row by row, each row from left to right, as
/// `(row, col)` pairs.
pub open spec fn spec_band_tile_order(n: nat) -> Seq<(u32, u32)> {
    Seq::new(n * n, |k: int| ((k / n as int) as u32, (k % n as int) as u32))
}

impl SliderBandGrid {
    /// List the tiles of the band image in request order.
    pub fn tile_order(&self) -> (r: Vec<(u32, u32)>)
        requires
            self.wf(),
        ensures
            r@ == spec_band_tile_order(self.tiles_per_side as nat),
    {
        let n = self.tiles_per_side;
        proof {
            lemma_tiles_per_side_bound(*self);
        }
        let mut out: Vec<(u32, u32)> = Vec::new();
        let mut row: u32 = 0;
        while row < n
            invariant
                n == self.tiles_per_side,
                1 <= n <= 32,
                row <= n,
                out@ =~= spec_band_tile_order(n as nat).subrange(0, row * n),
            decreases n - row,
        {
            let mut col: u32 = 0;
            while col < n
                invariant
                    n == self.tiles_per_side,
                    1 <= n <= 32,
                    row < n,
                    col <= n,
                    out@ =~= spec_band_tile_order(n as nat).subrange(0, row * n + col),
                decreases n - col,
            {
                proof {
                    let k = row * n + col;
                    assert(k < n * n) by (nonlinear_arith)
                        requires
                            row < n,
                            col < n,
                            k == row * n + col,
                    ;
                    assert(k / n as int == row && k % n as int == col) by (nonlinear_arith)
                        requires
                            k == row * n + col,
                            0 <= col < n,
                            0 <= row,
                    ;
                }
                out.push((row, col));
                col = col + 1;
            }
            row = row + 1;
            assert(row * n == (row - 1) * n + n) by (nonlinear_arith);
        }
        assert(row * n == n * n);
        out
    }
}

proof fn lemma_tiles_per_side_bound(g: SliderBandGrid)
    requires
        g.wf(),
    ensures
        1 <= g.tiles_per_side <= 32,
{
    reveal_with_fuel(pow2, 6);
}

/// Progress in fetching a band image: how many tiles, in request order,
/// have arrived, and whether a request has failed. Tiles are requested one
/// at a time; after a failure nothing more is requested.
#[derive(Debug, Clone, Copy, PartialEq, Eq, Structural)]
pub struct BandFetch {
    pub grid: SliderBandGrid,
    pub fetched: u32,
    pub failed: bool,
}

/// The tile to request next: the next one in request order, unless a
/// request has failed or every tile has arrived.
pub open spec fn spec_next_tile(b: BandFetch) -> Option<(u32, u32)> {
    let n = b.grid.tiles_per_side as nat;
    if b.failed || b.fetched >= n * n {
        None
    } else {
        Some(spec_band_tile_order(n)[b.fetched as int])
    }
}

impl BandFetch {
    pub open spec fn wf(&self) -> bool {
        &&& self.grid.wf()
        &&& self.fetched <= self.grid.tiles_per_side * self.grid.tiles_per_side
    }

    /// Nothing fetched yet.
    pub fn new(grid: SliderBandGrid) -> (r: BandFetch)
        requires
            grid.wf(),
        ensures
            r.wf(),
            r == (BandFetch { grid, fetched: 0, failed: false }),
    {
        BandFetch { grid, fetched: 0, failed: false }
    }

    /// The tile to request next, as `(row, col)`; `None` when the band is
    /// complete or a request has failed.
    pub fn next_tile(&self) -> (r: Option<(u32, u32)>)
        requires
            self.wf(),
        ensures
            r == spec_next_tile(*self),
    {
        let n = self.grid.tiles_per_side;
        proof {
            lemma_tiles_per_side_bound(self.grid);
            assert(n * n <= 1024) by (nonlinear_arith)
                requires
                    1 <= n <= 32,
            ;
        }
        if self.failed || self.fetched >= n * n {
            None
        } else {
            Some((self.fetched / n, self.fetched % n))
        }
    }

    /// Record the outcome of the request for the tile that `next_tile`
    /// gave: one more tile has arrived, or the band has failed.
    pub fn record(&mut self, ok: bool)
        requires
            old(self).wf(),
            spec_next_tile(*old(self)) is Some,
        ensures
            final(self).wf(),
            final(self).grid == old(self).grid,
            ok ==> final(self).fetched == old(self).fetched + 1 && !final(self).failed,
            !ok ==> final(self).fetched == old(self).fetched && final(self).failed,
    {
        proof {
            lemma_tiles_per_side_bound(self.grid);
            let n = self.grid.tiles_per_side;
            assert(n * n <= 1024) by (nonlinear_arith)
                requires
                    1 <= n <= 32,
            ;
        }
        if ok {
            self.fetched = self.fetched + 1;
        } else {
            self.failed = true;
        }
    }

    /// Whether every tile has arrived.
    pub fn is_complete(&self) -> (r: bool)
        requires
            self.wf(),
        ensures
            r == (!self.failed && self.fetched == self.grid.tiles_per_side
                * self.grid.tiles_per_side),
    {
        proof {
            lemma_tiles_per_side_bound(self.grid);
            let n = self.grid.tiles_per_side;
            assert(n * n <= 1024) by (nonlinear_arith)
                requires
                    1 <= n <= 32,
            ;
        }
        !self.failed && self.fetched == self.grid.tiles_per_side * self.grid.tiles_per_side
    }
}

/// After a failed request no further tile is requested.
pub proof fn lemma_failure_ends_band(b: BandFetch)
    requires
        b.failed,
    ensures
        spec_next_tile(b) is None,
{
}

/// Tiles are requested in order: while no request has failed, the `k`-th
/// request (counting from 0) is for the `k`-th tile of the request order,
/// and the band is complete exactly when every tile has been requested.
pub proof fn lemma_requests_follow_order(b: BandFetch)
    requires
        b.wf(),
        !b.failed,
    ensures
        b.fetched < b.grid.tiles_per_side * b.grid.tiles_per_side ==> spec_next_tile(b) == Some(
            spec_band_tile_order(b.grid.tiles_per_side as nat)[b.fetched as int],
        ),
        b.fetched == b.grid.tiles_per_side * b.grid.tiles_per_side ==> spec_next_tile(b) is None,
{
}

fn pow2_u32(zoom: u8) -> (r: u32)
    requires
        zoom <= MAX_SLIDER_ZOOM,
    ensures
        r == pow2(zoom as nat),
{
    proof {
        reveal_with_fuel(pow2, 6);
    }
    match zoom {
        0 => 1,
        1 => 2,
        2 => 4,
        3 => 8,
        4 => 16,
        _ => 32,
    }
}

/// The tile grid at which a band image of at least `target_size` pixels is
/// fetched (see `slider_zoom_for_size`).
pub fn slider_band_grid(target_size: u32, tile_size: u32) -> (g: SliderBandGrid)
    requires
        tile_size * pow2(spec_slider_zoom(target_size as int, tile_size as int)) <= u32::MAX,
    ensures
        g.wf(),
        g.zoom == spec_slider_zoom(target_size as int, tile_size as int),
        g.tile_size == tile_size,
{
    let zoom = slider_zoom_for_size(target_size, tile_size);
    let tiles_per_side = pow2_u32(zoom);
    SliderBandGrid { zoom, tiles_per_side, tile_size }
}

/// The tile grid for a band image (see `slider_band_grid`), when the image
/// at the chosen zoom is representable as a `u32`; `None` when it is not.
pub fn try_slider_band_grid(target_size: u32, tile_size: u32) -> (r: Option<SliderBandGrid>)
    ensures
        r is None <==> tile_size * pow2(spec_slider_zoom(target_size as int, tile_size as int))
            > u32::MAX,
        r matches Some(g) ==> (g.wf() && g.zoom == spec_slider_zoom(
            target_size as int,
            tile_size as int,
        ) && g.tile_size == tile_size),
{
    if slider_zoom_fits(target_size, tile_size) {
        Some(slider_band_grid(target_size, tile_size))
    } else {
        None
    }
}

} // verus!
