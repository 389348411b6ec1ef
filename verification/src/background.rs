//! Decisions of the background loaders: the accent colour taken from cover art, and the
//! channel of a Radio Paradise entry.
use vstd::prelude::*;
use vstd::string::*;
use crate::config::{parse_u16, spec_parse_u16};

verus! {

/// Sampling step of the palette extraction (1 = every pixel, 10 = fastest).
pub const PALETTE_QUALITY: u8 = 10;

/// Number of colours asked of the palette extraction.
pub const PALETTE_MAX_COLORS: u8 = 5;

/// Lowest luma of a preferred accent colour.
pub const ACCENT_LUMA_MIN: u32 = 70;

/// Highest luma of a preferred accent colour.
pub const ACCENT_LUMA_MAX: u32 = 210;

/// The palette that `color_thief::get_palette` computes for RGB `pixels` with the given
/// quality and colour count (`None` when it reports an error), as (r, g, b) triples.
pub uninterp spec fn spec_palette(pixels: Seq<u8>, quality: u8, max_colors: u8) -> Option<Seq<(u8, u8, u8)>>;

/// The palette of RGB `pixels` (`color_thief::get_palette` with `ColorFormat::Rgb`),
/// `None` when the extraction fails.
#[verifier::external_body]
fn palette(pixels: &[u8], quality: u8, max_colors: u8) -> (r: Option<Vec<(u8, u8, u8)>>)
    requires
        1 <= quality <= 10,
        max_colors > 1,
    ensures
        match r {
            Some(v) => spec_palette(pixels@, quality, max_colors) == Some(v@),
            None => spec_palette(pixels@, quality, max_colors) is None,
        },
{
    match color_thief::get_palette(pixels, color_thief::ColorFormat::Rgb, quality, max_colors) {
        Ok(colors) => Some(colors.iter().map(|c| (c.r, c.g, c.b)).collect()),
        Err(_) => None,
    }
}

/// The perceived brightness of a colour (ITU-R 601 weights, rounded down).
pub open spec fn luma(c: (u8, u8, u8)) -> int {
    (c.0 * 299 + c.1 * 587 + c.2 * 114) / 1000
}

/// The colour is neither too dark nor too bright to be an accent.
pub open spec fn good_accent(c: (u8, u8, u8)) -> bool {
    ACCENT_LUMA_MIN <= luma(c) <= ACCENT_LUMA_MAX
}

/// `i` is the position of the first colour of `colors` that is a good accent.
pub open spec fn first_good_at(colors: Seq<(u8, u8, u8)>, i: int) -> bool {
    0 <= i < colors.len() && good_accent(colors[i]) && forall|j: int| 0 <= j < i ==> !good_accent(#[trigger] colors[j])
}

/// The three channels of a colour as an array.
pub open spec fn rgb(c: (u8, u8, u8)) -> [u8; 3] {
    [c.0, c.1, c.2]
}

/// The accent taken from a palette: its first colour of moderate brightness, else its first
/// colour; none from an empty palette.
pub open spec fn spec_pick_accent(colors: Seq<(u8, u8, u8)>) -> Option<[u8; 3]> {
    if exists|i: int| first_good_at(colors, i) {
        Some(rgb(colors[choose|i: int| first_good_at(colors, i)]))
    } else if colors.len() > 0 {
        Some(rgb(colors[0]))
    } else {
        None
    }
}

/// Picks the accent colour from a palette.
pub fn pick_accent(colors: &Vec<(u8, u8, u8)>) -> (r: Option<[u8; 3]>)
    ensures
        r == spec_pick_accent(colors@),
{
    let mut i: usize = 0;
    while i < colors.len()
        invariant
            i <= colors@.len(),
            forall|j: int| 0 <= j < i ==> !good_accent(#[trigger] colors@[j]),
        decreases colors@.len() - i,
    {
        let c = colors[i];
        let l: u32 = (c.0 as u32 * 299 + c.1 as u32 * 587 + c.2 as u32 * 114) / 1000;
        if ACCENT_LUMA_MIN <= l && l <= ACCENT_LUMA_MAX {
            proof {
                assert(first_good_at(colors@, i as int));
                let k = choose|k: int| first_good_at(colors@, k);
                assert(first_good_at(colors@, k));
                if k < i {
                    assert(!good_accent(colors@[k]));
                } else if k > i {
                    assert(!good_accent(colors@[i as int]));
                }
                assert(rgb(colors@[i as int]) =~= [c.0, c.1, c.2]);
            }
            return Some([c.0, c.1, c.2]);
        }
        i += 1;
    }
    proof {
        assert(!exists|k: int| first_good_at(colors@, k));
    }
    if colors.len() > 0 {
        let c = colors[0];
        proof {
            assert(rgb(colors@[0]) =~= [c.0, c.1, c.2]);
        }
        Some([c.0, c.1, c.2])
    } else {
        None
    }
}

/// The accent colour of an RGB image (its pixels, three bytes each): picked from the
/// image's palette (see `spec_pick_accent`); none when the palette cannot be made.
pub fn accent_from_pixels(pixels: &Vec<u8>) -> (r: Option<[u8; 3]>)
    ensures
        r == (match spec_palette(pixels@, PALETTE_QUALITY, PALETTE_MAX_COLORS) {
            Some(colors) => spec_pick_accent(colors),
            None => None,
        }),
{
    match palette(pixels.as_slice(), PALETTE_QUALITY, PALETTE_MAX_COLORS) {
        Some(colors) => pick_accent(&colors),
        None => None,
    }
}

/// The image that `image::load_from_memory` decodes from `bytes`, converted to 8-bit RGB
/// (`to_rgb8`): its width, height and pixels (three bytes each, row by row); `None` when
/// the bytes are no image the decoders read.
pub uninterp spec fn spec_decode_rgb(bytes: Seq<u8>) -> Option<(u32, u32, Seq<u8>)>;

/// Decodes an image (`image::load_from_memory`, then `to_rgb8`) into its width, height and
/// RGB pixels; `None` when decoding fails.
#[verifier::external_body]
fn decode_rgb(bytes: &[u8]) -> (r: Option<(u32, u32, Vec<u8>)>)
    ensures
        match r {
            Some((w, h, px)) => spec_decode_rgb(bytes@) == Some((w, h, px@)),
            None => spec_decode_rgb(bytes@) is None,
        },
{
    match image::load_from_memory(bytes) {
        Ok(img) => {
            let rgb = img.to_rgb8();
            Some((rgb.width(), rgb.height(), rgb.into_raw()))
        },
        Err(_) => None,
    }
}

/// The cover of the playing track from the fetched bytes: its width, height, RGB pixels and
/// accent colour (see `accent_from_pixels`); `None` when the bytes are no image.
pub fn artwork_from_bytes(bytes: &[u8]) -> (r: Option<(u32, u32, Vec<u8>, Option<[u8; 3]>)>)
    ensures
        match spec_decode_rgb(bytes@) {
            None => r is None,
            Some((w, h, px)) => r matches Some((w2, h2, px2, acc)) && w2 == w && h2 == h && px2@ == px
                && acc == (match spec_palette(px, PALETTE_QUALITY, PALETTE_MAX_COLORS) {
                    Some(c) => spec_pick_accent(c),
                    None => None,
                }),
        },
{
    match decode_rgb(bytes) {
        Some((w, h, px)) => {
            let acc = accent_from_pixels(&px);
            Some((w, h, px, acc))
        },
        None => None,
    }
}

/// `i` is the position of the first '.' of `s`.
pub open spec fn first_dot_at(s: Seq<char>, i: int) -> bool {
    0 <= i < s.len() && s[i] == '.' && forall|k: int| 0 <= k < i ==> s[k] != '.'
}

/// The text after the first '.' of `s`, up to the next '.' (or the end), when `s` has a '.'.
pub open spec fn second_dot_part(s: Seq<char>) -> Option<Seq<char>> {
    if exists|i: int| first_dot_at(s, i) {
        let rest = s.skip((choose|i: int| first_dot_at(s, i)) + 1);
        if exists|j: int| first_dot_at(rest, j) {
            Some(rest.take(choose|j: int| first_dot_at(rest, j)))
        } else {
            Some(rest)
        }
    } else {
        None
    }
}

/// The first '.' of a text is where it is.
proof fn lemma_first_dot(s: Seq<char>, a: int)
    requires
        first_dot_at(s, a),
    ensures
        (choose|i: int| first_dot_at(s, i)) == a,
{
    let c = choose|i: int| first_dot_at(s, i);
    assert(first_dot_at(s, c));
    if c < a {
        assert(s[c] != '.');
    } else if c > a {
        assert(s[a] != '.');
    }
}

/// A text has no first '.' when it has no '.'.
proof fn lemma_no_dot(s: Seq<char>)
    requires
        forall|k: int| 0 <= k < s.len() ==> s[k] != '.',
    ensures
        !exists|i: int| first_dot_at(s, i),
{
}

/// The Radio Paradise channel of an entry id such as "b44f4573.N" or "b44f4573.N.M": the
/// second '.'-separated part read as a byte-sized number.
pub open spec fn spec_rp_channel_num(item_id: Option<Seq<char>>) -> Option<u8> {
    match item_id {
        Some(s) => match second_dot_part(s) {
            Some(p) => match spec_parse_u16(p) {
                Some(v) => if v <= 255 { Some(v as u8) } else { None },
                None => None,
            },
            None => None,
        },
        None => None,
    }
}

fn find_dot(s: &str, from: usize) -> (r: Option<usize>)
    requires
        from <= s@.len(),
    ensures
        match r {
            Some(i) => from <= i < s@.len() && s@[i as int] == '.' && forall|k: int| from <= k < i ==> s@[k] != '.',
            None => forall|k: int| from <= k < s@.len() ==> s@[k] != '.',
        },
{
    let n = s.unicode_len();
    let mut i = from;
    while i < n
        invariant
            n == s@.len(),
            from <= i <= n,
            forall|k: int| from <= k < i ==> s@[k] != '.',
        decreases n - i,
    {
        if s.get_char(i) == '.' {
            return Some(i);
        }
        i += 1;
    }
    None
}

/// The Radio Paradise channel of an entry id.
pub fn rp_channel_num(item_id: Option<&str>) -> (r: Option<u8>)
    ensures
        r == spec_rp_channel_num(match item_id { Some(s) => Some(s@), None => None }),
{
    let s = match item_id {
        Some(s) => s,
        None => {
            return None;
        },
    };
    let n = s.unicode_len();
    let a = match find_dot(s, 0) {
        Some(a) => a,
        None => {
            proof {
                lemma_no_dot(s@);
            }
            return None;
        },
    };
    proof {
        assert(first_dot_at(s@, a as int));
        lemma_first_dot(s@, a as int);
    }
    let ghost rest = s@.skip(a + 1);
    let part = match find_dot(s, a + 1) {
        Some(b) => {
            proof {
                assert(first_dot_at(rest, b - a - 1)) by {
                    assert forall|j: int| 0 <= j < b - a - 1 implies rest[j] != '.' by {
                        assert(rest[j] == s@[a + 1 + j]);
                    }
                    assert(rest[b - a - 1] == s@[b as int]);
                }
                lemma_first_dot(rest, b - a - 1);
                assert(s@.subrange(a + 1, b as int) =~= rest.take(b - a - 1));
            }
            let p = s.substring_char(a + 1, b);
            assert(second_dot_part(s@) == Some(p@));
            p
        },
        None => {
            proof {
                assert forall|j: int| 0 <= j < rest.len() implies rest[j] != '.' by {
                    assert(rest[j] == s@[a + 1 + j]);
                }
                lemma_no_dot(rest);
                assert(s@.subrange(a + 1, n as int) =~= rest);
            }
            let p = s.substring_char(a + 1, n);
            assert(second_dot_part(s@) == Some(p@));
            p
        },
    };
    assert(second_dot_part(s@) == Some(part@));
    match parse_u16(part) {
        Some(v) => if v <= 255 { Some(v as u8) } else { None },
        None => None,
    }
}

} // verus!
