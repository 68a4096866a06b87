//! Text labels drawn with a 5×7 pixel font, and the regions of the canvas
//! that each monitor's view is drawn into.

use vstd::prelude::*;
use crate::monitor::{
    extent, layout_fits, lemma_bounds_hold_monitors, max_bottom, max_right, min_left, min_top,
    sizes_fit, Monitor, MonitorLayout, MultiMonitorMode,
};

verus! {

/// The 5×7 glyph of a character: seven rows, top to bottom, each holding
/// five pixels in its low bits (bit 4 is the leftmost). Letters are drawn
/// upper-case; characters without a glyph are `None`.
pub open spec fn glyph(c: char) -> Option<[u8; 7]> {
    match c {
        'A' | 'a' => Some([0b01110, 0b10001, 0b10001, 0b11111, 0b10001, 0b10001, 0b10001]),
        'B' | 'b' => Some([0b11110, 0b10001, 0b10001, 0b11110, 0b10001, 0b10001, 0b11110]),
        'C' | 'c' => Some([0b01110, 0b10001, 0b10000, 0b10000, 0b10000, 0b10001, 0b01110]),
        'D' | 'd' => Some([0b11110, 0b10001, 0b10001, 0b10001, 0b10001, 0b10001, 0b11110]),
        'E' | 'e' => Some([0b11111, 0b10000, 0b10000, 0b11110, 0b10000, 0b10000, 0b11111]),
        'F' | 'f' => Some([0b11111, 0b10000, 0b10000, 0b11110, 0b10000, 0b10000, 0b10000]),
        'G' | 'g' => Some([0b01110, 0b10001, 0b10000, 0b10111, 0b10001, 0b10001, 0b01110]),
        'H' | 'h' => Some([0b10001, 0b10001, 0b10001, 0b11111, 0b10001, 0b10001, 0b10001]),
        'I' | 'i' => Some([0b01110, 0b00100, 0b00100, 0b00100, 0b00100, 0b00100, 0b01110]),
        'J' | 'j' => Some([0b00111, 0b00010, 0b00010, 0b00010, 0b00010, 0b10010, 0b01100]),
        'K' | 'k' => Some([0b10001, 0b10010, 0b10100, 0b11000, 0b10100, 0b10010, 0b10001]),
        'L' | 'l' => Some([0b10000, 0b10000, 0b10000, 0b10000, 0b10000, 0b10000, 0b11111]),
        'M' | 'm' => Some([0b10001, 0b11011, 0b10101, 0b10101, 0b10001, 0b10001, 0b10001]),
        'N' | 'n' => Some([0b10001, 0b11001, 0b10101, 0b10011, 0b10001, 0b10001, 0b10001]),
        'O' | 'o' => Some([0b01110, 0b10001, 0b10001, 0b10001, 0b10001, 0b10001, 0b01110]),
        'P' | 'p' => Some([0b11110, 0b10001, 0b10001, 0b11110, 0b10000, 0b10000, 0b10000]),
        'Q' | 'q' => Some([0b01110, 0b10001, 0b10001, 0b10001, 0b10101, 0b10010, 0b01101]),
        'R' | 'r' => Some([0b11110, 0b10001, 0b10001, 0b11110, 0b10100, 0b10010, 0b10001]),
        'S' | 's' => Some([0b01110, 0b10001, 0b10000, 0b01110, 0b00001, 0b10001, 0b01110]),
        'T' | 't' => Some([0b11111, 0b00100, 0b00100, 0b00100, 0b00100, 0b00100, 0b00100]),
        'U' | 'u' => Some([0b10001, 0b10001, 0b10001, 0b10001, 0b10001, 0b10001, 0b01110]),
        'V' | 'v' => Some([0b10001, 0b10001, 0b10001, 0b10001, 0b10001, 0b01010, 0b00100]),
        'W' | 'w' => Some([0b10001, 0b10001, 0b10001, 0b10101, 0b10101, 0b11011, 0b10001]),
        'X' | 'x' => Some([0b10001, 0b10001, 0b01010, 0b00100, 0b01010, 0b10001, 0b10001]),
        'Y' | 'y' => Some([0b10001, 0b10001, 0b01010, 0b00100, 0b00100, 0b00100, 0b00100]),
        'Z' | 'z' => Some([0b11111, 0b00001, 0b00010, 0b00100, 0b01000, 0b10000, 0b11111]),
        '0' => Some([0b01110, 0b10001, 0b10011, 0b10101, 0b11001, 0b10001, 0b01110]),
        '1' => Some([0b00100, 0b01100, 0b00100, 0b00100, 0b00100, 0b00100, 0b01110]),
        '2' => Some([0b01110, 0b10001, 0b00001, 0b00110, 0b01000, 0b10000, 0b11111]),
        '3' => Some([0b01110, 0b10001, 0b00001, 0b00110, 0b00001, 0b10001, 0b01110]),
        '4' => Some([0b00010, 0b00110, 0b01010, 0b10010, 0b11111, 0b00010, 0b00010]),
        '5' => Some([0b11111, 0b10000, 0b11110, 0b00001, 0b00001, 0b10001, 0b01110]),
        '6' => Some([0b01110, 0b10000, 0b11110, 0b10001, 0b10001, 0b10001, 0b01110]),
        '7' => Some([0b11111, 0b00001, 0b00010, 0b00100, 0b01000, 0b01000, 0b01000]),
        '8' => Some([0b01110, 0b10001, 0b10001, 0b01110, 0b10001, 0b10001, 0b01110]),
        '9' => Some([0b01110, 0b10001, 0b10001, 0b01111, 0b00001, 0b00001, 0b01110]),
        '.' => Some([0b00000, 0b00000, 0b00000, 0b00000, 0b00000, 0b00000, 0b00100]),
        '-' => Some([0b00000, 0b00000, 0b00000, 0b11111, 0b00000, 0b00000, 0b00000]),
        ' ' => Some([0b00000, 0b00000, 0b00000, 0b00000, 0b00000, 0b00000, 0b00000]),
        _ => None,
    }
}

/// A character as the font reads it: a lower-case ASCII letter as its
/// upper-case form, every other character as itself (by code point).
pub open spec fn folded(c: char) -> int {
    if 'a' <= c <= 'z' {
        c as int - 32
    } else {
        c as int
    }
}

/// The characters that the font draws: ASCII letters of either case,
/// ASCII digits, '.', '-' and space.
pub open spec fn has_glyph(c: char) -> bool {
    ||| 'A' <= c <= 'Z'
    ||| 'a' <= c <= 'z'
    ||| '0' <= c <= '9'
    ||| c == '.'
    ||| c == '-'
    ||| c == ' '
}

/// A glyph that lights no pixel.
pub open spec fn is_blank(rows: [u8; 7]) -> bool {
    forall|r: int| 0 <= r < 7 ==> #[trigger] rows[r] == 0
}

/// Exactly the ASCII letters and digits, '.', '-' and space have a glyph;
/// every glyph row holds five pixels, and only the space is blank.
pub proof fn lemma_glyph_coverage(c: char)
    ensures
        glyph(c) is Some <==> has_glyph(c),
        glyph(c) matches Some(rows) ==> forall|r: int| 0 <= r < 7 ==> #[trigger] rows[r] < 32,
        glyph(c) matches Some(rows) ==> (is_blank(rows) <==> c == ' '),
{
    if let Some(rows) = glyph(c) {
        if c != ' ' {
            assert(rows[0] != 0 || rows[3] != 0 || rows[6] != 0);
        }
    }
}

/// Letters are drawn alike in either case: characters that the font reads
/// as the same one have the same glyph.
pub proof fn lemma_glyph_case_folding(c1: char, c2: char)
    requires
        folded(c1) == folded(c2),
    ensures
        glyph(c1) == glyph(c2),
{
}

/// Characters that the font reads as different ones, and that both have a
/// glyph, have different glyphs.
pub proof fn lemma_glyphs_distinct(c1: char, c2: char)
    requires
        has_glyph(c1),
        has_glyph(c2),
        folded(c1) != folded(c2),
    ensures
        glyph(c1) != glyph(c2),
{
}

/// The glyph row that a drawn row stands for: the drawing read left to
/// right ('#' lit, '.' dark), the leftmost pixel in the highest of the
/// five bits.
pub open spec fn row_bits(picture: Seq<char>) -> int
    decreases picture.len(),
{
    if picture.len() == 0 {
        0
    } else {
        2 * row_bits(picture.drop_last()) + if picture.last() == '#' {
            1int
        } else {
            0int
        }
    }
}

/// The font drawn out: each character's seven rows, top to bottom, as
/// five pixels each ('#' lit, '.' dark). Letters of either case look alike.
pub open spec fn font_picture(c: char) -> Option<Seq<Seq<char>>> {
    match c {
        'A' | 'a' => Some(seq![
            ".###."@,
            "#...#"@,
            "#...#"@,
            "#####"@,
            "#...#"@,
            "#...#"@,
            "#...#"@,
        ]),
        'B' | 'b' => Some(seq![
            "####."@,
            "#...#"@,
            "#...#"@,
            "####."@,
            "#...#"@,
            "#...#"@,
            "####."@,
        ]),
        'C' | 'c' => Some(seq![
            ".###."@,
            "#...#"@,
            "#...."@,
            "#...."@,
            "#...."@,
            "#...#"@,
            ".###."@,
        ]),
        'D' | 'd' => Some(seq![
            "####."@,
            "#...#"@,
            "#...#"@,
            "#...#"@,
            "#...#"@,
            "#...#"@,
            "####."@,
        ]),
        'E' | 'e' => Some(seq![
            "#####"@,
            "#...."@,
            "#...."@,
            "####."@,
            "#...."@,
            "#...."@,
            "#####"@,
        ]),
        'F' | 'f' => Some(seq![
            "#####"@,
            "#...."@,
            "#...."@,
            "####."@,
            "#...."@,
            "#...."@,
            "#...."@,
        ]),
        'G' | 'g' => Some(seq![
            ".###."@,
            "#...#"@,
            "#...."@,
            "#.###"@,
            "#...#"@,
            "#...#"@,
            ".###."@,
        ]),
        'H' | 'h' => Some(seq![
            "#...#"@,
            "#...#"@,
            "#...#"@,
            "#####"@,
            "#...#"@,
            "#...#"@,
            "#...#"@,
        ]),
        'I' | 'i' => Some(seq![
            ".###."@,
            "..#.."@,
            "..#.."@,
            "..#.."@,
            "..#.."@,
            "..#.."@,
            ".###."@,
        ]),
        'J' | 'j' => Some(seq![
            "..###"@,
            "...#."@,
            "...#."@,
            "...#."@,
            "...#."@,
            "#..#."@,
            ".##.."@,
        ]),
        'K' | 'k' => Some(seq![
            "#...#"@,
            "#..#."@,
            "#.#.."@,
            "##..."@,
            "#.#.."@,
            "#..#."@,
            "#...#"@,
        ]),
        'L' | 'l' => Some(seq![
            "#...."@,
            "#...."@,
            "#...."@,
            "#...."@,
            "#...."@,
            "#...."@,
            "#####"@,
        ]),
        'M' | 'm' => Some(seq![
            "#...#"@,
            "##.##"@,
            "#.#.#"@,
            "#.#.#"@,
            "#...#"@,
            "#...#"@,
            "#...#"@,
        ]),
        'N' | 'n' => Some(seq![
            "#...#"@,
            "##..#"@,
            "#.#.#"@,
            "#..##"@,
            "#...#"@,
            "#...#"@,
            "#...#"@,
        ]),
        'O' | 'o' => Some(seq![
            ".###."@,
            "#...#"@,
            "#...#"@,
            "#...#"@,
            "#...#"@,
            "#...#"@,
            ".###."@,
        ]),
        'P' | 'p' => Some(seq![
            "####."@,
            "#...#"@,
            "#...#"@,
            "####."@,
            "#...."@,
            "#...."@,
            "#...."@,
        ]),
        'Q' | 'q' => Some(seq![
            ".###."@,
            "#...#"@,
            "#...#"@,
            "#...#"@,
            "#.#.#"@,
            "#..#."@,
            ".##.#"@,
        ]),
        'R' | 'r' => Some(seq![
            "####."@,
            "#...#"@,
            "#...#"@,
            "####."@,
            "#.#.."@,
            "#..#."@,
            "#...#"@,
        ]),
        'S' | 's' => Some(seq![
            ".###."@,
            "#...#"@,
            "#...."@,
            ".###."@,
            "....#"@,
            "#...#"@,
            ".###."@,
        ]),
        'T' | 't' => Some(seq![
            "#####"@,
            "..#.."@,
            "..#.."@,
            "..#.."@,
            "..#.."@,
            "..#.."@,
            "..#.."@,
        ]),
        'U' | 'u' => Some(seq![
            "#...#"@,
            "#...#"@,
            "#...#"@,
            "#...#"@,
            "#...#"@,
            "#...#"@,
            ".###."@,
        ]),
        'V' | 'v' => Some(seq![
            "#...#"@,
            "#...#"@,
            "#...#"@,
            "#...#"@,
            "#...#"@,
            ".#.#."@,
            "..#.."@,
        ]),
        'W' | 'w' => Some(seq![
            "#...#"@,
            "#...#"@,
            "#...#"@,
            "#.#.#"@,
            "#.#.#"@,
            "##.##"@,
            "#...#"@,
        ]),
        'X' | 'x' => Some(seq![
            "#...#"@,
            "#...#"@,
            ".#.#."@,
            "..#.."@,
            ".#.#."@,
            "#...#"@,
            "#...#"@,
        ]),
        'Y' | 'y' => Some(seq![
            "#...#"@,
            "#...#"@,
            ".#.#."@,
            "..#.."@,
            "..#.."@,
            "..#.."@,
            "..#.."@,
        ]),
        'Z' | 'z' => Some(seq![
            "#####"@,
            "....#"@,
            "...#."@,
            "..#.."@,
            ".#..."@,
            "#...."@,
            "#####"@,
        ]),
        '0' => Some(seq![
            ".###."@,
            "#...#"@,
            "#..##"@,
            "#.#.#"@,
            "##..#"@,
            "#...#"@,
            ".###."@,
        ]),
        '1' => Some(seq![
            "..#.."@,
            ".##.."@,
            "..#.."@,
            "..#.."@,
            "..#.."@,
            "..#.."@,
            ".###."@,
        ]),
        '2' => Some(seq![
            ".###."@,
            "#...#"@,
            "....#"@,
            "..##."@,
            ".#..."@,
            "#...."@,
            "#####"@,
        ]),
        '3' => Some(seq![
            ".###."@,
            "#...#"@,
            "....#"@,
            "..##."@,
            "....#"@,
            "#...#"@,
            ".###."@,
        ]),
        '4' => Some(seq![
            "...#."@,
            "..##."@,
            ".#.#."@,
            "#..#."@,
            "#####"@,
            "...#."@,
            "...#."@,
        ]),
        '5' => Some(seq![
            "#####"@,
            "#...."@,
            "####."@,
            "....#"@,
            "....#"@,
            "#...#"@,
            ".###."@,
        ]),
        '6' => Some(seq![
            ".###."@,
            "#...."@,
            "####."@,
            "#...#"@,
            "#...#"@,
            "#...#"@,
            ".###."@,
        ]),
        '7' => Some(seq![
            "#####"@,
            "....#"@,
            "...#."@,
            "..#.."@,
            ".#..."@,
            ".#..."@,
            ".#..."@,
        ]),
        '8' => Some(seq![
            ".###."@,
            "#...#"@,
            "#...#"@,
            ".###."@,
            "#...#"@,
            "#...#"@,
            ".###."@,
        ]),
        '9' => Some(seq![
            ".###."@,
            "#...#"@,
            "#...#"@,
            ".####"@,
            "....#"@,
            "....#"@,
            ".###."@,
        ]),
        '.' => Some(seq![
            "....."@,
            "....."@,
            "....."@,
            "....."@,
            "....."@,
            "....."@,
            "..#.."@,
        ]),
        '-' => Some(seq![
            "....."@,
            "....."@,
            "....."@,
            "#####"@,
            "....."@,
            "....."@,
            "....."@,
        ]),
        ' ' => Some(seq![
            "....."@,
            "....."@,
            "....."@,
            "....."@,
            "....."@,
            "....."@,
            "....."@,
        ]),
        _ => None,
    }
}

/// Each glyph is the drawing of its character: a character has a glyph
/// exactly when the font draws it, and every row of the glyph lights the
/// pixels that the drawing marks.
pub proof fn lemma_glyphs_match_pictures(c: char)
    ensures
        glyph(c) is Some <==> font_picture(c) is Some,
        glyph(c) matches Some(rows) ==> {
            let pic = font_picture(c)->Some_0;
            &&& pic.len() == 7
            &&& forall|r: int| 0 <= r < 7 ==> pic[r].len() == 5 && #[trigger] rows[r] == row_bits(pic[r])
        },
{
    reveal_strlit("#####");
    reveal_strlit("####.");
    reveal_strlit("##.##");
    reveal_strlit("##..#");
    reveal_strlit("##...");
    reveal_strlit("#.###");
    reveal_strlit("#.#.#");
    reveal_strlit("#.#..");
    reveal_strlit("#..##");
    reveal_strlit("#..#.");
    reveal_strlit("#...#");
    reveal_strlit("#....");
    reveal_strlit(".####");
    reveal_strlit(".###.");
    reveal_strlit(".##.#");
    reveal_strlit(".##..");
    reveal_strlit(".#.#.");
    reveal_strlit(".#...");
    reveal_strlit("..###");
    reveal_strlit("..##.");
    reveal_strlit("..#..");
    reveal_strlit("...#.");
    reveal_strlit("....#");
    reveal_strlit(".....");
    reveal_with_fuel(row_bits, 6);
    assert(row_bits("#####"@) == 31);
    assert(row_bits("####."@) == 30);
    assert(row_bits("##.##"@) == 27);
    assert(row_bits("##..#"@) == 25);
    assert(row_bits("##..."@) == 24);
    assert(row_bits("#.###"@) == 23);
    assert(row_bits("#.#.#"@) == 21);
    assert(row_bits("#.#.."@) == 20);
    assert(row_bits("#..##"@) == 19);
    assert(row_bits("#..#."@) == 18);
    assert(row_bits("#...#"@) == 17);
    assert(row_bits("#...."@) == 16);
    assert(row_bits(".####"@) == 15);
    assert(row_bits(".###."@) == 14);
    assert(row_bits(".##.#"@) == 13);
    assert(row_bits(".##.."@) == 12);
    assert(row_bits(".#.#."@) == 10);
    assert(row_bits(".#..."@) == 8);
    assert(row_bits("..###"@) == 7);
    assert(row_bits("..##."@) == 6);
    assert(row_bits("..#.."@) == 4);
    assert(row_bits("...#."@) == 2);
    assert(row_bits("....#"@) == 1);
    assert(row_bits("....."@) == 0);
}


/// Simple 5x7 pixel font for labels (letters of either case, digits, '.', '-', space).
pub fn get_char_bitmap(c: char) -> (r: Option<[u8; 7]>)
    ensures
        r == glyph(c),
{
    match c {
        'A' | 'a' => Some([0b01110, 0b10001, 0b10001, 0b11111, 0b10001, 0b10001, 0b10001]),
        'B' | 'b' => Some([0b11110, 0b10001, 0b10001, 0b11110, 0b10001, 0b10001, 0b11110]),
        'C' | 'c' => Some([0b01110, 0b10001, 0b10000, 0b10000, 0b10000, 0b10001, 0b01110]),
        'D' | 'd' => Some([0b11110, 0b10001, 0b10001, 0b10001, 0b10001, 0b10001, 0b11110]),
        'E' | 'e' => Some([0b11111, 0b10000, 0b10000, 0b11110, 0b10000, 0b10000, 0b11111]),
        'F' | 'f' => Some([0b11111, 0b10000, 0b10000, 0b11110, 0b10000, 0b10000, 0b10000]),
        'G' | 'g' => Some([0b01110, 0b10001, 0b10000, 0b10111, 0b10001, 0b10001, 0b01110]),
        'H' | 'h' => Some([0b10001, 0b10001, 0b10001, 0b11111, 0b10001, 0b10001, 0b10001]),
        'I' | 'i' => Some([0b01110, 0b00100, 0b00100, 0b00100, 0b00100, 0b00100, 0b01110]),
        'J' | 'j' => Some([0b00111, 0b00010, 0b00010, 0b00010, 0b00010, 0b10010, 0b01100]),
        'K' | 'k' => Some([0b10001, 0b10010, 0b10100, 0b11000, 0b10100, 0b10010, 0b10001]),
        'L' | 'l' => Some([0b10000, 0b10000, 0b10000, 0b10000, 0b10000, 0b10000, 0b11111]),
        'M' | 'm' => Some([0b10001, 0b11011, 0b10101, 0b10101, 0b10001, 0b10001, 0b10001]),
        'N' | 'n' => Some([0b10001, 0b11001, 0b10101, 0b10011, 0b10001, 0b10001, 0b10001]),
        'O' | 'o' => Some([0b01110, 0b10001, 0b10001, 0b10001, 0b10001, 0b10001, 0b01110]),
        'P' | 'p' => Some([0b11110, 0b10001, 0b10001, 0b11110, 0b10000, 0b10000, 0b10000]),
        'Q' | 'q' => Some([0b01110, 0b10001, 0b10001, 0b10001, 0b10101, 0b10010, 0b01101]),
        'R' | 'r' => Some([0b11110, 0b10001, 0b10001, 0b11110, 0b10100, 0b10010, 0b10001]),
        'S' | 's' => Some([0b01110, 0b10001, 0b10000, 0b01110, 0b00001, 0b10001, 0b01110]),
        'T' | 't' => Some([0b11111, 0b00100, 0b00100, 0b00100, 0b00100, 0b00100, 0b00100]),
        'U' | 'u' => Some([0b10001, 0b10001, 0b10001, 0b10001, 0b10001, 0b10001, 0b01110]),
        'V' | 'v' => Some([0b10001, 0b10001, 0b10001, 0b10001, 0b10001, 0b01010, 0b00100]),
        'W' | 'w' => Some([0b10001, 0b10001, 0b10001, 0b10101, 0b10101, 0b11011, 0b10001]),
        'X' | 'x' => Some([0b10001, 0b10001, 0b01010, 0b00100, 0b01010, 0b10001, 0b10001]),
        'Y' | 'y' => Some([0b10001, 0b10001, 0b01010, 0b00100, 0b00100, 0b00100, 0b00100]),
        'Z' | 'z' => Some([0b11111, 0b00001, 0b00010, 0b00100, 0b01000, 0b10000, 0b11111]),
        '0' => Some([0b01110, 0b10001, 0b10011, 0b10101, 0b11001, 0b10001, 0b01110]),
        '1' => Some([0b00100, 0b01100, 0b00100, 0b00100, 0b00100, 0b00100, 0b01110]),
        '2' => Some([0b01110, 0b10001, 0b00001, 0b00110, 0b01000, 0b10000, 0b11111]),
        '3' => Some([0b01110, 0b10001, 0b00001, 0b00110, 0b00001, 0b10001, 0b01110]),
        '4' => Some([0b00010, 0b00110, 0b01010, 0b10010, 0b11111, 0b00010, 0b00010]),
        '5' => Some([0b11111, 0b10000, 0b11110, 0b00001, 0b00001, 0b10001, 0b01110]),
        '6' => Some([0b01110, 0b10000, 0b11110, 0b10001, 0b10001, 0b10001, 0b01110]),
        '7' => Some([0b11111, 0b00001, 0b00010, 0b00100, 0b01000, 0b01000, 0b01000]),
        '8' => Some([0b01110, 0b10001, 0b10001, 0b01110, 0b10001, 0b10001, 0b01110]),
        '9' => Some([0b01110, 0b10001, 0b10001, 0b01111, 0b00001, 0b00001, 0b01110]),
        '.' => Some([0b00000, 0b00000, 0b00000, 0b00000, 0b00000, 0b00000, 0b00100]),
        '-' => Some([0b00000, 0b00000, 0b00000, 0b11111, 0b00000, 0b00000, 0b00000]),
        ' ' => Some([0b00000, 0b00000, 0b00000, 0b00000, 0b00000, 0b00000, 0b00000]),
        _ => None,
    }
}


/// A rectangle of the canvas that one view is drawn into.
#[derive(Debug, Clone, Copy, PartialEq, Eq, Structural)]
pub struct Viewport {
    pub x: u32,
    pub y: u32,
    pub width: u32,
    pub height: u32,
}

/// Where drawing is allowed: inside the canvas and inside the viewport,
/// in signed canvas coordinates (`right` and `bottom` are exclusive).
#[derive(Debug, Clone, Copy, PartialEq, Eq, Structural)]
pub struct ClipRect {
    pub canvas_w: i32,
    pub canvas_h: i32,
    pub left: i32,
    pub top: i32,
    pub right: i32,
    pub bottom: i32,
}

/// Whether a pixel may be drawn.
pub open spec fn clip_contains(c: ClipRect, px: int, py: int) -> bool {
    &&& 0 <= px < c.canvas_w
    &&& 0 <= py < c.canvas_h
    &&& c.left <= px < c.right
    &&& c.top <= py < c.bottom
}

/// The far edges of a viewport can be computed in signed coordinates.
pub open spec fn viewport_fits(vp: Viewport) -> bool {
    &&& i32::MIN <= (vp.x as i32) + (vp.width as i32) <= i32::MAX
    &&& i32::MIN <= (vp.y as i32) + (vp.height as i32) <= i32::MAX
}

impl ClipRect {
    /// The clipping region for drawing into `vp` on a canvas of the given
    /// size (sizes are taken as signed 32-bit values).
    pub fn new(canvas_w: u32, canvas_h: u32, vp: Viewport) -> (r: ClipRect)
        requires
            viewport_fits(vp),
        ensures
            r.canvas_w == canvas_w as i32,
            r.canvas_h == canvas_h as i32,
            r.left == vp.x as i32,
            r.top == vp.y as i32,
            r.right == (vp.x as i32) + (vp.width as i32),
            r.bottom == (vp.y as i32) + (vp.height as i32),
    {
        let left = vp.x as i32;
        let top = vp.y as i32;
        ClipRect {
            canvas_w: canvas_w as i32,
            canvas_h: canvas_h as i32,
            left,
            top,
            right: left + vp.width as i32,
            bottom: top + vp.height as i32,
        }
    }

    /// The clipping region for drawing into `vp`, when its far edges can be
    /// computed in signed 32-bit values; `None` when they cannot.
    pub fn try_new(canvas_w: u32, canvas_h: u32, vp: Viewport) -> (r: Option<ClipRect>)
        ensures
            r is None <==> !viewport_fits(vp),
            r matches Some(c) ==> (c.canvas_w == canvas_w as i32 && c.canvas_h == canvas_h as i32
                && c.left == vp.x as i32 && c.top == vp.y as i32 && c.right == (vp.x as i32) + (
            vp.width as i32) && c.bottom == (vp.y as i32) + (vp.height as i32)),
    {
        let right: i64 = (vp.x as i32) as i64 + (vp.width as i32) as i64;
        let bottom: i64 = (vp.y as i32) as i64 + (vp.height as i32) as i64;
        if right < i32::MIN as i64 || right > i32::MAX as i64 || bottom < i32::MIN as i64 || bottom
            > i32::MAX as i64 {
            None
        } else {
            Some(ClipRect::new(canvas_w, canvas_h, vp))
        }
    }

    /// Whether the pixel at `(px, py)` lies on the canvas and in the viewport.
    pub fn contains(&self, px: i32, py: i32) -> (r: bool)
        ensures
            r == clip_contains(*self, px as int, py as int),
    {
        px >= 0 && px < self.canvas_w && py >= 0 && py < self.canvas_h && px >= self.left && px
            < self.right && py >= self.top && py < self.bottom
    }
}

/// Whether pixel `col` (0 = leftmost) of a glyph row is set.
pub open spec fn bit_on(bits: u8, col: u8) -> bool {
    (bits >> ((4 - col) as u8)) & 1u8 == 1u8
}

/// The pixels drawn for the first `cols` columns of a glyph row whose
/// leftmost pixel is at `(x, y)`, left to right.
pub open spec fn row_pixels(bits: u8, x: int, y: int, clip: ClipRect, cols: nat) -> Seq<(u32, u32)>
    decreases cols,
{
    if cols == 0 {
        Seq::empty()
    } else {
        let col = (cols - 1) as nat;
        row_pixels(bits, x, y, clip, col) + if bit_on(bits, col as u8) && clip_contains(
            clip,
            x + col,
            y,
        ) {
            seq![((x + col) as u32, y as u32)]
        } else {
            Seq::empty()
        }
    }
}

/// The pixels drawn for the first `n` rows of a glyph whose top-left
/// pixel is at `(x, y)`, row by row.
pub open spec fn glyph_pixels(rows: [u8; 7], x: int, y: int, clip: ClipRect, n: nat) -> Seq<
    (u32, u32),
>
    decreases n,
{
    if n == 0 {
        Seq::empty()
    } else {
        glyph_pixels(rows, x, y, clip, (n - 1) as nat) + row_pixels(
            rows[n - 1],
            x,
            y + n - 1,
            clip,
            5,
        )
    }
}

/// The pixels drawn for a label whose first glyph has its top-left pixel at
/// `(x, y)`: glyph after glyph, each six pixels right of the previous
/// (characters without a glyph leave a gap), keeping only clipped-in pixels.
pub open spec fn label_pixels(text: Seq<char>, x: int, y: int, clip: ClipRect) -> Seq<(u32, u32)>
    decreases text.len(),
{
    if text.len() == 0 {
        Seq::empty()
    } else {
        label_pixels(text.drop_last(), x, y, clip) + match glyph(text.last()) {
            Some(rows) => glyph_pixels(rows, x + 6 * (text.len() - 1), y, clip, 7),
            None => Seq::empty(),
        }
    }
}

/// The label's pixel coordinates can be computed in signed 32-bit values:
/// the pen, advanced six pixels per character, stays representable, and so
/// does every row that holds a pixel.
pub open spec fn label_fits(text: Seq<char>, x: int, y: int) -> bool {
    &&& x + 6 * text.len() <= i32::MAX
    &&& forall|i: int|
        0 <= i < text.len() ==> match #[trigger] glyph(text[i]) {
            Some(rows) => glyph_rows_fit(rows, y),
            None => true,
        }
}

/// Every row of a glyph placed at height `y` that holds a pixel has a
/// representable row coordinate.
pub open spec fn glyph_rows_fit(rows: [u8; 7], y: int) -> bool {
    forall|r: int| 0 <= r < 7 && #[trigger] rows[r] != 0 ==> y + r <= i32::MAX
}

fn rows_fit(rows: [u8; 7], y: i32) -> (r: bool)
    ensures
        r == glyph_rows_fit(rows, y as int),
{
    let mut k: usize = 0;
    while k < 7
        invariant
            k <= 7,
            forall|j: int| 0 <= j < k && #[trigger] rows[j] != 0 ==> y + j <= i32::MAX,
        decreases 7 - k,
    {
        if rows[k] != 0 && y as i64 + k as i64 > i32::MAX as i64 {
            return false;
        }
        k = k + 1;
    }
    true
}

/// Whether a label can be drawn at `(x, y)` (see `label_fits`).
pub fn label_can_be_drawn(text: &str, x: i32, y: i32) -> (r: bool)
    ensures
        r == label_fits(text@, x as int, y as int),
{
    let n = text.unicode_len();
    if n > 0x4000_0000 || x as i64 + 6 * n as i64 > i32::MAX as i64 {
        return false;
    }
    let mut k: usize = 0;
    while k < n
        invariant
            n == text@.len(),
            k <= n,
            forall|j: int|
                0 <= j < k ==> match #[trigger] glyph(text@[j]) {
                    Some(rows) => glyph_rows_fit(rows, y as int),
                    None => true,
                },
        decreases n - k,
    {
        if let Some(rows) = get_char_bitmap(text.get_char(k)) {
            if !rows_fit(rows, y) {
                assert(!label_fits(text@, x as int, y as int)) by {
                    assert(glyph(text@[k as int]) == Some(rows));
                }
                return false;
            }
        }
        k = k + 1;
    }
    true
}

/// The canvas pixels a label lights, in drawing order: the pixels of the
/// label placed at `(x, y)` that fall inside `clip`.
pub fn draw_label(text: &str, x: i32, y: i32, clip: &ClipRect) -> (r: Vec<(u32, u32)>)
    requires
        label_fits(text@, x as int, y as int),
    ensures
        r@ == label_pixels(text@, x as int, y as int, *clip),
{
    let n = text.unicode_len();
    let mut out: Vec<(u32, u32)> = Vec::new();
    let mut cursor_x: i32 = x;
    let mut k: usize = 0;
    while k < n
        invariant
            n == text@.len(),
            k <= n,
            label_fits(text@, x as int, y as int),
            cursor_x == x + 6 * k,
            out@ == label_pixels(text@.subrange(0, k as int), x as int, y as int, *clip),
        decreases n - k,
    {
        let c = text.get_char(k);
        assert(text@.subrange(0, k + 1).drop_last() =~= text@.subrange(0, k as int));
        let ghost base = out@;
        if let Some(bitmap) = get_char_bitmap(c) {
            let mut row: usize = 0;
            while row < 7
                invariant
                    n == text@.len(),
                    k < n,
                    c == text@[k as int],
                    glyph(c) == Some(bitmap),
                    label_fits(text@, x as int, y as int),
                    cursor_x == x + 6 * k,
                    row <= 7,
                    out@ == base + glyph_pixels(bitmap, cursor_x as int, y as int, *clip, row as nat),
                decreases 7 - row,
            {
                let bits = bitmap[row];
                let ghost before_row = out@;
                let mut col: u8 = 0;
                while col < 5
                    invariant
                        n == text@.len(),
                        k < n,
                        c == text@[k as int],
                        glyph(c) == Some(bitmap),
                        label_fits(text@, x as int, y as int),
                        cursor_x == x + 6 * k,
                        row < 7,
                        bits == bitmap[row as int],
                        col <= 5,
                        out@ == before_row + row_pixels(
                            bits,
                            cursor_x as int,
                            y + row,
                            *clip,
                            col as nat,
                        ),
                    decreases 5 - col,
                {
                    if (bits >> (4 - col)) & 1 == 1 {
                        assert(bits != 0) by (bit_vector)
                            requires
                                (bits >> (4 - col) as u8) & 1u8 == 1u8,
                        ;
                        assert(glyph(text@[k as int]) == Some(bitmap));
                        assert(y + row <= i32::MAX);
                        let px = cursor_x + col as i32;
                        let py = y + row as i32;
                        if clip.contains(px, py) {
                            out.push((px as u32, py as u32));
                        }
                    }
                    col = col + 1;
                    assert(out@ =~= before_row + row_pixels(
                        bits,
                        cursor_x as int,
                        y + row,
                        *clip,
                        col as nat,
                    ));
                }
                row = row + 1;
                assert(out@ =~= base + glyph_pixels(bitmap, cursor_x as int, y as int, *clip, row as nat));
            }
        }
        cursor_x = cursor_x + 6;
        k = k + 1;
        assert(out@ =~= label_pixels(text@.subrange(0, k as int), x as int, y as int, *clip));
    }
    assert(text@.subrange(0, n as int) =~= text@);
    out
}


/// What is drawn for one view: its viewport, and the centre and reference
/// size (the viewport height) at which Earth is composited.
#[derive(Debug, Clone, Copy, PartialEq, Eq, Structural)]
pub struct ViewPlan {
    pub viewport: Viewport,
    pub earth_center_x: u32,
    pub earth_center_y: u32,
    pub earth_reference: u32,
}

/// Span mode: one view over the whole canvas, Earth at its centre.
pub open spec fn span_plan(width: u32, height: u32) -> ViewPlan {
    ViewPlan {
        viewport: Viewport { x: 0, y: 0, width, height },
        earth_center_x: width / 2,
        earth_center_y: height / 2,
        earth_reference: height,
    }
}

/// Canvas position of a monitor: its offset from the desktop's top-left.
pub open spec fn monitor_origin(m: Monitor, min_x: i32, min_y: i32) -> (u32, u32) {
    ((m.x - min_x) as u32, (m.y - min_y) as u32)
}

/// Duplicate mode: one view per monitor, Earth at the monitor's centre.
pub open spec fn duplicate_plan(m: Monitor, min_x: i32, min_y: i32) -> ViewPlan {
    let (cx, cy) = monitor_origin(m, min_x, min_y);
    ViewPlan {
        viewport: Viewport { x: cx, y: cy, width: m.width, height: m.height },
        earth_center_x: (cx + m.width / 2) as u32,
        earth_center_y: (cy + m.height / 2) as u32,
        earth_reference: m.height,
    }
}

/// Each monitor's offset from the desktop's top-left corner, and the centre
/// of the monitor on the canvas, can be computed without overflow.
pub open spec fn duplicate_fits(l: MonitorLayout) -> bool {
    forall|i: int|
        0 <= i < l.monitors@.len() ==> {
            let m = #[trigger] l.monitors@[i];
            &&& i32::MIN <= m.x - l.bounds.0 <= i32::MAX
            &&& i32::MIN <= m.y - l.bounds.1 <= i32::MAX
            &&& monitor_origin(m, l.bounds.0, l.bounds.1).0 + m.width / 2 <= u32::MAX
            &&& monitor_origin(m, l.bounds.0, l.bounds.1).1 + m.height / 2 <= u32::MAX
        }
}

/// Whether every monitor of the layout can be given its own view (see
/// `duplicate_fits`).
pub fn can_duplicate(layout: &MonitorLayout) -> (r: bool)
    ensures
        r == duplicate_fits(*layout),
{
    let (min_x, min_y, _, _) = layout.bounds;
    let n = layout.monitors.len();
    let mut i: usize = 0;
    while i < n
        invariant
            n == layout.monitors@.len(),
            i <= n,
            min_x == layout.bounds.0,
            min_y == layout.bounds.1,
            forall|j: int|
                0 <= j < i ==> {
                    let m = #[trigger] layout.monitors@[j];
                    &&& i32::MIN <= m.x - layout.bounds.0 <= i32::MAX
                    &&& i32::MIN <= m.y - layout.bounds.1 <= i32::MAX
                    &&& monitor_origin(m, layout.bounds.0, layout.bounds.1).0 + m.width / 2 <= u32::MAX
                    &&& monitor_origin(m, layout.bounds.0, layout.bounds.1).1 + m.height / 2 <= u32::MAX
                },
        decreases n - i,
    {
        let m = &layout.monitors[i];
        assert(layout.monitors@[i as int] == *m);
        let dx: i64 = m.x as i64 - min_x as i64;
        let dy: i64 = m.y as i64 - min_y as i64;
        if dx < i32::MIN as i64 || dx > i32::MAX as i64 || dy < i32::MIN as i64 || dy > i32::MAX as i64 {
            return false;
        }
        let ox: u32 = dx as u32;
        let oy: u32 = dy as u32;
        if ox as u64 + (m.width / 2) as u64 > u32::MAX as u64 || oy as u64 + (m.height / 2) as u64
            > u32::MAX as u64 {
            return false;
        }
        i = i + 1;
    }
    true
}

/// The views of a wallpaper for a layout and mode: in span mode a single
/// view over the whole virtual desktop; in duplicate mode one view per
/// monitor, in the layout's order.
pub fn view_plans(layout: &MonitorLayout, mode: MultiMonitorMode) -> (r: Vec<ViewPlan>)
    requires
        mode == MultiMonitorMode::Duplicate ==> duplicate_fits(*layout),
    ensures
        mode == MultiMonitorMode::Span ==> r@ == seq![
            span_plan(layout.total_width, layout.total_height),
        ],
        mode == MultiMonitorMode::Duplicate ==> {
            &&& r@.len() == layout.monitors@.len()
            &&& forall|i: int|
                0 <= i < r@.len() ==> #[trigger] r@[i] == duplicate_plan(
                    layout.monitors@[i],
                    layout.bounds.0,
                    layout.bounds.1,
                )
        },
{
    let mut plans: Vec<ViewPlan> = Vec::new();
    match mode {
        MultiMonitorMode::Span => {
            let width = layout.total_width;
            let height = layout.total_height;
            plans.push(
                ViewPlan {
                    viewport: Viewport { x: 0, y: 0, width, height },
                    earth_center_x: width / 2,
                    earth_center_y: height / 2,
                    earth_reference: height,
                },
            );
            assert(plans@ =~= seq![span_plan(width, height)]);
        },
        MultiMonitorMode::Duplicate => {
            let (min_x, min_y, _, _) = layout.bounds;
            let n = layout.monitors.len();
            let mut i: usize = 0;
            while i < n
                invariant
                    n == layout.monitors@.len(),
                    i <= n,
                    min_x == layout.bounds.0,
                    min_y == layout.bounds.1,
                    duplicate_fits(*layout),
                    plans@.len() == i,
                    forall|j: int|
                        0 <= j < i ==> #[trigger] plans@[j] == duplicate_plan(
                            layout.monitors@[j],
                            min_x,
                            min_y,
                        ),
                decreases n - i,
            {
                let monitor = &layout.monitors[i];
                assert(layout.monitors@[i as int] == *monitor);
                let canvas_x = (monitor.x - min_x) as u32;
                let canvas_y = (monitor.y - min_y) as u32;
                plans.push(
                    ViewPlan {
                        viewport: Viewport {
                            x: canvas_x,
                            y: canvas_y,
                            width: monitor.width,
                            height: monitor.height,
                        },
                        earth_center_x: canvas_x + monitor.width / 2,
                        earth_center_y: canvas_y + monitor.height / 2,
                        earth_reference: monitor.height,
                    },
                );
                i = i + 1;
            }
        },
    }
    plans
}

proof fn lemma_row_pixels_clipped(bits: u8, x: int, y: int, clip: ClipRect, cols: nat)
    ensures
        forall|i: int|
            0 <= i < row_pixels(bits, x, y, clip, cols).len() ==> clip_contains(
                clip,
                (#[trigger] row_pixels(bits, x, y, clip, cols)[i]).0 as int,
                row_pixels(bits, x, y, clip, cols)[i].1 as int,
            ),
    decreases cols,
{
    if cols > 0 {
        let col = (cols - 1) as nat;
        lemma_row_pixels_clipped(bits, x, y, clip, col);
        let a = row_pixels(bits, x, y, clip, col);
        let all = row_pixels(bits, x, y, clip, cols);
        assert forall|i: int| 0 <= i < all.len() implies clip_contains(
            clip,
            (#[trigger] all[i]).0 as int,
            all[i].1 as int,
        ) by {
            if i < a.len() {
                assert(all[i] == a[i]);
            } else {
                assert(clip_contains(clip, x + col, y));
                assert(all[i] == ((x + col) as u32, y as u32));
            }
        }
    }
}

proof fn lemma_glyph_pixels_clipped(rows: [u8; 7], x: int, y: int, clip: ClipRect, n: nat)
    ensures
        forall|i: int|
            0 <= i < glyph_pixels(rows, x, y, clip, n).len() ==> clip_contains(
                clip,
                (#[trigger] glyph_pixels(rows, x, y, clip, n)[i]).0 as int,
                glyph_pixels(rows, x, y, clip, n)[i].1 as int,
            ),
    decreases n,
{
    if n > 0 {
        lemma_glyph_pixels_clipped(rows, x, y, clip, (n - 1) as nat);
        lemma_row_pixels_clipped(rows[n - 1], x, y + n - 1, clip, 5);
        let a = glyph_pixels(rows, x, y, clip, (n - 1) as nat);
        let b = row_pixels(rows[n - 1], x, y + n - 1, clip, 5);
        let all = glyph_pixels(rows, x, y, clip, n);
        assert forall|i: int| 0 <= i < all.len() implies clip_contains(
            clip,
            (#[trigger] all[i]).0 as int,
            all[i].1 as int,
        ) by {
            if i < a.len() {
                assert(all[i] == a[i]);
            } else {
                assert(all[i] == b[i - a.len()]);
            }
        }
    }
}

/// A label never draws outside its clipping region: every pixel it lights
/// lies on the canvas and inside its own viewport.
pub proof fn lemma_label_stays_clipped(text: Seq<char>, x: int, y: int, clip: ClipRect)
    ensures
        forall|i: int|
            0 <= i < label_pixels(text, x, y, clip).len() ==> clip_contains(
                clip,
                (#[trigger] label_pixels(text, x, y, clip)[i]).0 as int,
                label_pixels(text, x, y, clip)[i].1 as int,
            ),
    decreases text.len(),
{
    if text.len() > 0 {
        lemma_label_stays_clipped(text.drop_last(), x, y, clip);
        let a = label_pixels(text.drop_last(), x, y, clip);
        let all = label_pixels(text, x, y, clip);
        match glyph(text.last()) {
            Some(rows) => {
                let gx = x + 6 * (text.len() - 1);
                lemma_glyph_pixels_clipped(rows, gx, y, clip, 7);
                let b = glyph_pixels(rows, gx, y, clip, 7);
                assert(all == a + b);
                assert forall|i: int| 0 <= i < all.len() implies clip_contains(
                    clip,
                    (#[trigger] all[i]).0 as int,
                    all[i].1 as int,
                ) by {
                    if i < a.len() {
                        assert(all[i] == a[i]);
                    } else {
                        assert(all[i] == b[i - a.len()]);
                    }
                }
            },
            None => {
                assert(all =~= a);
                assert forall|i: int| 0 <= i < all.len() implies clip_contains(
                    clip,
                    (#[trigger] all[i]).0 as int,
                    all[i].1 as int,
                ) by {
                    assert(all[i] == a[i]);
                }
            },
        }
    }
}

/// In duplicate mode Earth is centred on each monitor: every view's Earth
/// centre lies in that view's viewport (for a monitor of positive size).
pub proof fn lemma_duplicate_earth_centred(m: Monitor, min_x: i32, min_y: i32)
    requires
        m.width > 0,
        m.height > 0,
        monitor_origin(m, min_x, min_y).0 + m.width / 2 <= u32::MAX,
        monitor_origin(m, min_x, min_y).1 + m.height / 2 <= u32::MAX,
    ensures
        ({
            let p = duplicate_plan(m, min_x, min_y);
            &&& p.viewport.x <= p.earth_center_x < p.viewport.x + p.viewport.width
            &&& p.viewport.y <= p.earth_center_y < p.viewport.y + p.viewport.height
            &&& p.earth_reference == p.viewport.height
        }),
{
}

/// In span mode Earth is centred on the whole desktop, and its size is
/// taken from the desktop's height, as in duplicate mode from each
/// monitor's height.
pub proof fn lemma_span_earth_centred(width: u32, height: u32)
    requires
        width > 0,
        height > 0,
    ensures
        ({
            let p = span_plan(width, height);
            &&& p.viewport == (Viewport { x: 0, y: 0, width, height })
            &&& p.earth_reference == p.viewport.height
            &&& p.earth_center_x < width && p.earth_center_y < height
            &&& width - 1 <= 2 * p.earth_center_x <= width
            &&& height - 1 <= 2 * p.earth_center_y <= height
        }),
{
}

/// Sizes and positions that the drawing code takes as signed 32-bit
/// values without change: canvas size and viewport at most `i32::MAX`.
pub open spec fn signed_sizes(canvas_w: u32, canvas_h: u32, vp: Viewport) -> bool {
    &&& canvas_w <= i32::MAX
    &&& canvas_h <= i32::MAX
    &&& vp.x <= i32::MAX
    &&& vp.y <= i32::MAX
    &&& vp.width <= i32::MAX
    &&& vp.height <= i32::MAX
    &&& viewport_fits(vp)
}

/// `c` is the clipping region that `ClipRect::new` makes for `vp` on a
/// canvas of the given size.
pub open spec fn clip_of(c: ClipRect, canvas_w: u32, canvas_h: u32, vp: Viewport) -> bool {
    &&& c.canvas_w == canvas_w as i32
    &&& c.canvas_h == canvas_h as i32
    &&& c.left == vp.x as i32
    &&& c.top == vp.y as i32
    &&& c.right == (vp.x as i32) + (vp.width as i32)
    &&& c.bottom == (vp.y as i32) + (vp.height as i32)
}

/// The clipping region of a viewport admits exactly the pixels that lie
/// on the canvas and inside the viewport's rectangle.
pub proof fn lemma_clip_is_viewport_on_canvas(
    canvas_w: u32,
    canvas_h: u32,
    vp: Viewport,
    c: ClipRect,
    px: int,
    py: int,
)
    requires
        signed_sizes(canvas_w, canvas_h, vp),
        clip_of(c, canvas_w, canvas_h, vp),
    ensures
        clip_contains(c, px, py) <==> {
            &&& 0 <= px < canvas_w
            &&& 0 <= py < canvas_h
            &&& vp.x <= px < vp.x + vp.width
            &&& vp.y <= py < vp.y + vp.height
        },
{
}

/// Every pixel that a label lights lies on the canvas and inside the
/// viewport it is drawn for: a label never spills into a neighbouring
/// monitor's view.
pub proof fn lemma_label_stays_in_viewport(
    text: Seq<char>,
    x: int,
    y: int,
    canvas_w: u32,
    canvas_h: u32,
    vp: Viewport,
    c: ClipRect,
)
    requires
        signed_sizes(canvas_w, canvas_h, vp),
        clip_of(c, canvas_w, canvas_h, vp),
    ensures
        forall|i: int|
            0 <= i < label_pixels(text, x, y, c).len() ==> {
                let p = #[trigger] label_pixels(text, x, y, c)[i];
                &&& p.0 < canvas_w
                &&& p.1 < canvas_h
                &&& vp.x <= p.0 < vp.x + vp.width
                &&& vp.y <= p.1 < vp.y + vp.height
            },
{
    lemma_label_stays_clipped(text, x, y, c);
    assert forall|i: int| 0 <= i < label_pixels(text, x, y, c).len() implies {
        let p = #[trigger] label_pixels(text, x, y, c)[i];
        &&& p.0 < canvas_w
        &&& p.1 < canvas_h
        &&& vp.x <= p.0 < vp.x + vp.width
        &&& vp.y <= p.1 < vp.y + vp.height
    } by {
        let p = label_pixels(text, x, y, c)[i];
        lemma_clip_is_viewport_on_canvas(canvas_w, canvas_h, vp, c, p.0 as int, p.1 as int);
    }
}

/// A single monitor at the top-left of the desktop is drawn alike in both
/// modes: its duplicate-mode view is the span view of its size, with the
/// same viewport, Earth centre and Earth reference size.
pub proof fn lemma_single_monitor_modes_agree(m: Monitor)
    ensures
        duplicate_plan(m, m.x, m.y) == span_plan(m.width, m.height),
{
}

/// The bounds of a layout are those of its displays, as `from_monitors`
/// computes them.
pub open spec fn bounds_of_monitors(l: MonitorLayout) -> bool {
    &&& l.monitors@.len() > 0
    &&& l.bounds.0 == min_left(l.monitors@)
    &&& l.bounds.1 == min_top(l.monitors@)
    &&& l.bounds.2 == max_right(l.monitors@)
    &&& l.bounds.3 == max_bottom(l.monitors@)
    &&& l.total_width == (max_right(l.monitors@) - min_left(l.monitors@)) as u32
    &&& l.total_height == (max_bottom(l.monitors@) - min_top(l.monitors@)) as u32
}

/// Every view of a layout whose bounds are those of its displays, and whose
/// display sizes are at most `i32::MAX`, can be clipped: in either mode,
/// each viewport's far edges are representable.
pub proof fn lemma_views_can_be_clipped(l: MonitorLayout)
    requires
        layout_fits(l.monitors@),
        sizes_fit(l.monitors@),
        bounds_of_monitors(l),
    ensures
        viewport_fits(span_plan(l.total_width, l.total_height).viewport),
        forall|i: int|
            0 <= i < l.monitors@.len() ==> viewport_fits(
                (#[trigger] duplicate_plan(l.monitors@[i], l.bounds.0, l.bounds.1)).viewport,
            ),
{
    lemma_bounds_hold_monitors(l.monitors@);
    let m0 = l.monitors@[0];
    assert(m0.width <= i32::MAX && m0.height <= i32::MAX);
    assert(extent(m0.width) == m0.width && extent(m0.height) == m0.height);
    assert forall|i: int| 0 <= i < l.monitors@.len() implies viewport_fits(
        (#[trigger] duplicate_plan(l.monitors@[i], l.bounds.0, l.bounds.1)).viewport,
    ) by {
        let m = l.monitors@[i];
        assert(m.width <= i32::MAX && m.height <= i32::MAX);
        assert(extent(m.width) == m.width && extent(m.height) == m.height);
        assert(0 <= m.x - l.bounds.0 <= i32::MAX);
        assert(0 <= m.y - l.bounds.1 <= i32::MAX);
    }
}

/// Brightness of a proper star name (no digits).
pub const PROPER_NAME_BRIGHTNESS: u8 = 180;
/// Brightness of a catalogue designation (holding a digit).
pub const DESIGNATION_BRIGHTNESS: u8 = 140;
/// Brightness of the magnitude shown for an unnamed star.
pub const MAGNITUDE_LABEL_BRIGHTNESS: u8 = 120;
/// Brightness of planet and Moon labels.
pub const BODY_LABEL_BRIGHTNESS: u8 = 220;

pub open spec fn is_ascii_digit(c: char) -> bool {
    '0' <= c <= '9'
}

/// A star name is proper when it holds no ASCII digit (Bayer and
/// Flamsteed designations hold one).
pub open spec fn is_proper_name(name: Seq<char>) -> bool {
    forall|i: int| 0 <= i < name.len() ==> !is_ascii_digit(#[trigger] name[i])
}

/// Brightness of a star's label: proper names are drawn brighter than
/// catalogue designations.
pub fn star_label_brightness(name: &str) -> (b: u8)
    ensures
        b == if is_proper_name(name@) {
            PROPER_NAME_BRIGHTNESS
        } else {
            DESIGNATION_BRIGHTNESS
        },
{
    let n = name.unicode_len();
    let mut i: usize = 0;
    while i < n
        invariant
            n == name@.len(),
            i <= n,
            forall|j: int| 0 <= j < i ==> !is_ascii_digit(#[trigger] name@[j]),
        decreases n - i,
    {
        let c = name.get_char(i);
        if '0' <= c && c <= '9' {
            return DESIGNATION_BRIGHTNESS;
        }
        i = i + 1;
    }
    PROPER_NAME_BRIGHTNESS
}

} // verus!
