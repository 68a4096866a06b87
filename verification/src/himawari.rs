//! Himawari-8 full-disk imagery as served by NICT: resolution levels, the
//! tile grid, and the addresses of the metadata and of each tile.

use vstd::prelude::*;
use crate::clock::{chrono_parse_utc, parse_utc_timestamp};
use crate::text::{decimal, push_char, push_decimal};

verus! {

/// Host of the NICT image service.
pub const HIMAWARI_BASE_URL: &'static str = "https://himawari8-dl.nict.go.jp";

/// Side of one tile, in pixels.
pub const TILE_SIZE: u32 = 550;

/// Largest accepted size of the metadata response (1 KiB).
pub const MAX_METADATA_SIZE: usize = 1024;

/// Largest accepted size of one tile (about 2 MiB for a 550×550 PNG).
pub const MAX_TILE_SIZE: usize = 2097152;

/// strftime format of the dates in the metadata.
pub const METADATA_DATE_FORMAT: &'static str = "%Y-%m-%d %H:%M:%S";

/// Resolution level of Himawari-8 imagery.
#[derive(Debug, Clone, Copy, PartialEq, Eq, Structural)]
pub enum ImageLevel {
    /// 1x1 grid (550px) - fastest
    Level1,
    /// 2x2 grid (1100px)
    Level2,
    /// 4x4 grid (2200px)
    Level4,
    /// 8x8 grid (4400px)
    Level8,
    /// 16x16 grid (8800px) - highest quality
    Level16,
    /// 20x20 grid (11000px) - maximum resolution
    Level20,
}

/// Tiles per side at a level.
pub open spec fn spec_grid_size(level: ImageLevel) -> u32 {
    match level {
        ImageLevel::Level1 => 1,
        ImageLevel::Level2 => 2,
        ImageLevel::Level4 => 4,
        ImageLevel::Level8 => 8,
        ImageLevel::Level16 => 16,
        ImageLevel::Level20 => 20,
    }
}

impl ImageLevel {
    /// Number of tiles per side.
    pub fn grid_size(&self) -> (r: u32)
        ensures
            r == spec_grid_size(*self),
    {
        match self {
            ImageLevel::Level1 => 1,
            ImageLevel::Level2 => 2,
            ImageLevel::Level4 => 4,
            ImageLevel::Level8 => 8,
            ImageLevel::Level16 => 16,
            ImageLevel::Level20 => 20,
        }
    }

    /// Side of the assembled image, in pixels.
    pub fn total_pixels(&self) -> (r: u32)
        ensures
            r == spec_grid_size(*self) * TILE_SIZE,
    {
        let grid = self.grid_size();
        grid * TILE_SIZE
    }

    /// Where the tile at column `x`, row `y` goes in the assembled image.
    pub fn tile_origin(&self, x: u32, y: u32) -> (r: (u32, u32))
        requires
            x < spec_grid_size(*self),
            y < spec_grid_size(*self),
        ensures
            r.0 == x * TILE_SIZE,
            r.1 == y * TILE_SIZE,
    {
        (x * TILE_SIZE, y * TILE_SIZE)
    }
}

/// Metadata of the latest available image.
#[derive(Debug)]
pub struct ImageMetadata {
    /// Capture time, as `YYYY-MM-DD HH:MM:SS`.
    pub date: String,
}

impl Clone for ImageMetadata {
    fn clone(&self) -> (r: Self)
        ensures
            r == *self,
    {
        ImageMetadata { date: self.date.clone() }
    }
}

/// What one character of a metadata date becomes in a path: '-' and ' '
/// become '/', ':' is dropped, anything else is kept.
pub open spec fn path_piece(c: char) -> Seq<char> {
    if c == '-' || c == ' ' {
        seq!['/']
    } else if c == ':' {
        Seq::empty()
    } else {
        seq![c]
    }
}

/// A metadata date turned into the service's path form.
pub open spec fn spec_date_to_path(date: Seq<char>) -> Seq<char>
    decreases date.len(),
{
    if date.len() == 0 {
        Seq::empty()
    } else {
        spec_date_to_path(date.drop_last()) + path_piece(date.last())
    }
}

/// Converts a metadata date to the URL path form:
/// "2024-01-15 12:30:00" becomes "2024/01/15/123000".
pub fn date_to_path(date: &str) -> (r: String)
    ensures
        r@ == spec_date_to_path(date@),
{
    let n = date.unicode_len();
    let mut s = String::new();
    let mut i: usize = 0;
    while i < n
        invariant
            n == date@.len(),
            i <= n,
            s@ == spec_date_to_path(date@.subrange(0, i as int)),
        decreases n - i,
    {
        let c = date.get_char(i);
        assert(date@.subrange(0, i + 1).drop_last() =~= date@.subrange(0, i as int));
        if c == '-' || c == ' ' {
            push_char(&mut s, '/');
        } else if c != ':' {
            push_char(&mut s, c);
        }
        i = i + 1;
        assert(s@ =~= spec_date_to_path(date@.subrange(0, i as int)));
    }
    assert(date@.subrange(0, n as int) =~= date@);
    s
}

/// Address of the metadata of the latest image.
pub open spec fn spec_metadata_url() -> Seq<char> {
    HIMAWARI_BASE_URL@ + "/himawari8/img/FULL_24h/latest.json"@
}

/// Build the address of the metadata of the latest image.
pub fn metadata_url() -> (r: String)
    ensures
        r@ == spec_metadata_url(),
{
    let mut s = String::from_str(HIMAWARI_BASE_URL);
    s.append("/himawari8/img/FULL_24h/latest.json");
    s
}

/// Address of the tile at column `x`, row `y` of an image at a level.
pub open spec fn spec_tile_url(level: ImageLevel, date_path: Seq<char>, x: nat, y: nat) -> Seq<
    char,
> {
    HIMAWARI_BASE_URL@ + "/himawari8/img/D531106/"@ + decimal(spec_grid_size(level) as nat)
        + "d/550/"@ + date_path + "_"@ + decimal(x) + "_"@ + decimal(y) + ".png"@
}

/// Every request to the image service goes over HTTPS.
pub proof fn lemma_himawari_uses_https(level: ImageLevel, date_path: Seq<char>, x: nat, y: nat)
    ensures
        spec_metadata_url().subrange(0, 8) == "https://"@,
        spec_tile_url(level, date_path, x, y).subrange(0, 8) == "https://"@,
{
    reveal_strlit("https://");
    reveal_strlit("https://himawari8-dl.nict.go.jp");
    assert(spec_metadata_url().subrange(0, 8) =~= "https://"@);
    assert(spec_tile_url(level, date_path, x, y).subrange(0, 8) =~= "https://"@);
}

/// Build the address of one tile.
pub fn tile_url(level: ImageLevel, date_path: &str, x: u32, y: u32) -> (r: String)
    ensures
        r@ == spec_tile_url(level, date_path@, x as nat, y as nat),
{
    let mut s = String::from_str(HIMAWARI_BASE_URL);
    s.append("/himawari8/img/D531106/");
    push_decimal(&mut s, level.grid_size() as u64);
    s.append("d/550/");
    s.append(date_path);
    s.append("_");
    push_decimal(&mut s, x as u64);
    s.append("_");
    push_decimal(&mut s, y as u64);
    s.append(".png");
    s
}

/// The capture time (Unix seconds, UTC) given by a metadata date; `None`
/// when it does not read as `YYYY-MM-DD HH:MM:SS`.
pub fn metadata_time(metadata: &ImageMetadata) -> (r: Option<i64>)
    ensures
        r == chrono_parse_utc(metadata.date@, METADATA_DATE_FORMAT@),
{
    parse_utc_timestamp(metadata.date.as_str(), METADATA_DATE_FORMAT)
}

/// The tiles of an image in the order in which they are requested: row by
/// row, each row from left to right, as `(x, y)` pairs.
pub open spec fn spec_tile_order(grid: nat) -> Seq<(u32, u32)> {
    Seq::new(grid * grid, |k: int| ((k % grid as int) as u32, (k / grid as int) as u32))
}

/// List the tiles of an image at a level, in request order.
pub fn tile_order(level: ImageLevel) -> (r: Vec<(u32, u32)>)
    ensures
        r@ == spec_tile_order(spec_grid_size(level) as nat),
{
    let grid = level.grid_size();
    let mut tiles: Vec<(u32, u32)> = Vec::new();
    let mut y: u32 = 0;
    while y < grid
        invariant
            grid == spec_grid_size(level),
            y <= grid,
            tiles@.len() == y * grid,
            forall|k: int|
                0 <= k < tiles@.len() ==> #[trigger] tiles@[k] == ((k % grid as int) as u32, (k
                    / grid as int) as u32),
        decreases grid - y,
    {
        let mut x: u32 = 0;
        while x < grid
            invariant
                grid == spec_grid_size(level),
                y < grid,
                x <= grid,
                tiles@.len() == y * grid + x,
                forall|k: int|
                    0 <= k < tiles@.len() ==> #[trigger] tiles@[k] == ((k % grid as int) as u32, (k
                        / grid as int) as u32),
            decreases grid - x,
        {
            proof {
                let k = y * grid + x;
                vstd::arithmetic::div_mod::lemma_fundamental_div_mod_converse(
                    k as int,
                    grid as int,
                    y as int,
                    x as int,
                );
            }
            tiles.push((x, y));
            x = x + 1;
        }
        proof {
            assert((y + 1) * grid == y * grid + grid) by (nonlinear_arith);
        }
        y = y + 1;
    }
    assert(tiles@ =~= spec_tile_order(grid as nat));
    tiles
}

} // verus!
