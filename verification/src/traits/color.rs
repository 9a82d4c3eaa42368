//! Colours for embeds: a packed `0xRRGGBB` integer, an RGB triple, or a hex
//! string such as `"#4889D8"`.

use vstd::prelude::*;
use vstd::string::*;

use crate::text::{parse_unsigned, parse_unsigned_radix};

verus! {

/// `s` without the leading run of `c`, as `str::trim_start_matches(c)` gives it.
pub open spec fn trim_start_char(s: Seq<char>, c: char) -> Seq<char>
    decreases s.len(),
{
    if s.len() > 0 && s[0] == c {
        trim_start_char(s.drop_first(), c)
    } else {
        s
    }
}

/// The packed colour of an RGB triple.
pub open spec fn rgb_value(r: u8, g: u8, b: u8) -> u32 {
    ((r as u32) * 65536 + (g as u32) * 256 + (b as u32)) as u32
}

/// The colour of a hex string: leading `#` characters are dropped and the rest
/// is read as a base-16 `u32`.
pub open spec fn hex_color_value(s: Seq<char>) -> Option<u32> {
    match parse_unsigned(trim_start_char(s, '#'), 16, u32::MAX as nat) {
        Some(v) => Some(v as u32),
        None => None,
    }
}

/// A value that names a colour.
pub trait IntoColor: Sized {
    /// The colour this value names, if any.
    spec fn color_value(&self) -> Option<u32>;

    /// The packed `0xRRGGBB` colour, or `None` where the value names none.
    fn into_u32(self) -> (res: Option<u32>)
        ensures
            res == self.color_value(),
    ;
}

impl IntoColor for u32 {
    open spec fn color_value(&self) -> Option<u32> {
        Some(*self)
    }

    fn into_u32(self) -> (res: Option<u32>) {
        Some(self)
    }
}

impl IntoColor for (u8, u8, u8) {
    open spec fn color_value(&self) -> Option<u32> {
        Some(rgb_value(self.0, self.1, self.2))
    }

    fn into_u32(self) -> (res: Option<u32>) {
        let (r, g, b) = self;
        let v = ((r as u32) << 16u32) | ((g as u32) << 8u32) | (b as u32);
        assert(((r as u32) << 16u32) | ((g as u32) << 8u32) | (b as u32) == (r as u32) * 65536
            + (g as u32) * 256 + (b as u32)) by (bit_vector);
        Some(v)
    }
}

/// Drops the leading run of `c` from `s`, as `str::trim_start_matches(c)` does.
pub fn trim_start_matches_char(s: &str, c: char) -> (res: &str)
    ensures
        res@ == trim_start_char(s@, c),
{
    let n = s.unicode_len();
    let mut i: usize = 0;
    assert(s@.skip(0) =~= s@);
    while i < n && s.get_char(i) == c
        invariant
            i <= n,
            n == s@.len(),
            trim_start_char(s@, c) == trim_start_char(s@.skip(i as int), c),
        decreases n - i,
    {
        assert(s@.skip(i as int).drop_first() =~= s@.skip(i + 1));
        i = i + 1;
    }
    proof {
        assert(s@.skip(0) =~= s@);
        assert(s@.subrange(i as int, n as int) =~= s@.skip(i as int));
    }
    s.substring_char(i, n)
}

impl<'a> IntoColor for &'a str {
    open spec fn color_value(&self) -> Option<u32> {
        hex_color_value(self@)
    }

    fn into_u32(self) -> (res: Option<u32>) {
        let hex = trim_start_matches_char(self, '#');
        match parse_unsigned_radix(hex, 16, 0xffff_ffffu64) {
            Some(v) => Some(v as u32),
            None => None,
        }
    }
}

/// A leading `#` does not change the colour a hex string names.
pub proof fn lemma_hash_prefix_ignored(s: Seq<char>)
    ensures
        hex_color_value(seq!['#'] + s) == hex_color_value(s),
{
    assert((seq!['#'] + s).drop_first() =~= s);
}

/// The three channels of an RGB colour can be read back from it.
pub proof fn lemma_rgb_channels(r: u8, g: u8, b: u8)
    ensures
        rgb_value(r, g, b) / 65536 == r,
        (rgb_value(r, g, b) / 256) % 256 == g,
        rgb_value(r, g, b) % 256 == b,
{
}

} // verus!
