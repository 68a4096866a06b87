//! Run-on-startup registration: the registry entry under which the
//! program is listed, and the wide-string form Windows APIs take.

use vstd::prelude::*;

verus! {

/// Registry key (under the current user) listing programs run at log-in.
pub const RUN_KEY: &'static str = "Software\\Microsoft\\Windows\\CurrentVersion\\Run";

/// Name of the program's value under `RUN_KEY`.
pub const APP_NAME: &'static str = "LiveEarthWallpaper";

/// UTF-16 code units of one character: itself below U+10000, else a
/// surrogate pair.
pub open spec fn utf16_units(c: char) -> Seq<u16> {
    let v = c as int;
    if v < 0x10000 {
        seq![v as u16]
    } else {
        seq![(0xD800 + (v - 0x10000) / 0x400) as u16, (0xDC00 + (v - 0x10000) % 0x400) as u16]
    }
}

/// UTF-16 encoding of a character sequence.
pub open spec fn utf16(s: Seq<char>) -> Seq<u16>
    decreases s.len(),
{
    if s.len() == 0 {
        Seq::empty()
    } else {
        utf16(s.drop_last()) + utf16_units(s.last())
    }
}

/// A string as a NUL-terminated UTF-16 buffer, as Windows APIs take it.
pub fn to_wide(s: &str) -> (r: Vec<u16>)
    ensures
        r@ == utf16(s@).push(0u16),
{
    let n = s.unicode_len();
    let mut out: Vec<u16> = Vec::new();
    let mut i: usize = 0;
    while i < n
        invariant
            n == s@.len(),
            i <= n,
            out@ == utf16(s@.subrange(0, i as int)),
        decreases n - i,
    {
        let c = s.get_char(i);
        let v = c as u32;
        assert(s@.subrange(0, i + 1).drop_last() =~= s@.subrange(0, i as int));
        if v < 0x10000 {
            out.push(v as u16);
        } else {
            assert(v <= 0x10FFFF);
            let w = v - 0x10000;
            out.push((0xD800 + w / 0x400) as u16);
            out.push((0xDC00 + w % 0x400) as u16);
        }
        i = i + 1;
        assert(out@ =~= utf16(s@.subrange(0, i as int)));
    }
    assert(s@.subrange(0, n as int) =~= s@);
    out.push(0);
    out
}

} // verus!
