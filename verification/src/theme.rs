//! Theme selection and palette resolution, including the degradation from
//! 24-bit color to the indexed fallback when the terminal lacks true color.

use crate::color::Color;
use vstd::prelude::*;
use vstd::string::StrSliceExecFns;

verus! {

/// The two available themes.
#[derive(Clone, Copy, PartialEq, Eq, Structural, Debug)]
pub enum Theme {
    Default,
    TokyoNight,
}

/// The resolved set of colors for a theme: border and text colors, plus the
/// three gradient stops in both their true-color and indexed-color forms.
#[derive(Clone, Copy, PartialEq, Eq, Structural, Debug)]
pub struct ThemePalette {
    pub border: Color,
    pub text: Color,
    pub start: Color,
    pub mid: Color,
    pub end: Color,
    pub start256: Color,
    pub mid256: Color,
    pub end256: Color,
}

/// The fixed designer palette of the TokyoNight theme.
pub open spec fn tokyo_night_spec() -> ThemePalette {
    ThemePalette {
        border: Color::Rgb(0x7d, 0xcf, 0xff),
        text: Color::Rgb(0xcf, 0xc9, 0xc2),
        start: Color::Rgb(0x9e, 0xce, 0x6a),
        mid: Color::Rgb(0xe0, 0xaf, 0x68),
        end: Color::Rgb(0xf7, 0x76, 0x8e),
        start256: Color::Indexed(150),
        mid256: Color::Indexed(180),
        end256: Color::Indexed(211),
    }
}

/// The fixed designer palette of the TokyoNight theme.
pub fn tokyo_night() -> (p: ThemePalette)
    ensures
        p == tokyo_night_spec(),
{
    ThemePalette {
        border: Color::Rgb(0x7d, 0xcf, 0xff),
        text: Color::Rgb(0xcf, 0xc9, 0xc2),
        start: Color::Rgb(0x9e, 0xce, 0x6a),
        mid: Color::Rgb(0xe0, 0xaf, 0x68),
        end: Color::Rgb(0xf7, 0x76, 0x8e),
        start256: Color::Indexed(150),
        mid256: Color::Indexed(180),
        end256: Color::Indexed(211),
    }
}

/// One sequence occurs somewhere inside another.
pub open spec fn has_substring(hay: Seq<char>, needle: Seq<char>) -> bool {
    exists|i: int|
        0 <= i && i + needle.len() <= hay.len() && #[trigger] hay.subrange(i, i + needle.len())
            == needle
}

/// Whether an environment signal (the value of the color-capability
/// variable, absent when the variable is unset) announces true color.
pub open spec fn truecolor_signal(signal: Option<&str>) -> bool {
    match signal {
        Some(s) => has_substring(s@, "truecolor"@) || has_substring(s@, "24bit"@),
        None => false,
    }
}

/// Substring search over the characters of two strings.
fn contains_str(hay: &str, needle: &str) -> (r: bool)
    ensures
        r == has_substring(hay@, needle@),
{
    let hlen = hay.unicode_len();
    let nlen = needle.unicode_len();
    if nlen > hlen {
        return false;
    }
    if nlen == 0 {
        proof {
            assert(hay@.subrange(0, 0 + needle@.len() as int) =~= needle@);
            assert(has_substring(hay@, needle@));
        }
        return true;
    }
    let mut i: usize = 0;
    while i <= hlen - nlen
        invariant
            1 <= nlen <= hlen,
            hlen == hay@.len(),
            nlen == needle@.len(),
            i <= hlen - nlen + 1,
            forall|k: int|
                0 <= k < i ==> #[trigger] hay@.subrange(k, k + nlen as int) != needle@,
        decreases hlen - i,
    {
        let mut j: usize = 0;
        let mut matched = true;
        while matched && j < nlen
            invariant
                i <= hlen - nlen,
                1 <= nlen <= hlen,
                hlen == hay@.len(),
                nlen == needle@.len(),
                j <= nlen,
                matched ==> forall|t: int| 0 <= t < j ==> hay@[i + t] == needle@[t],
                !matched ==> hay@.subrange(i as int, i + nlen as int) != needle@,
            decreases nlen - j + (if matched { 1int } else { 0int }),
        {
            if hay.get_char(i + j) != needle.get_char(j) {
                proof {
                    let sub = hay@.subrange(i as int, i + nlen as int);
                    assert(sub[j as int] == hay@[i + j]);
                }
                matched = false;
            } else {
                j = j + 1;
            }
        }
        if matched {
            proof {
                let sub = hay@.subrange(i as int, i + nlen as int);
                assert(sub =~= needle@);
            }
            return true;
        }
        i = i + 1;
    }
    proof {
        assert forall|k: int| 0 <= k && k + needle@.len() <= hay@.len() implies #[trigger] hay@.subrange(
            k,
            k + needle@.len(),
        ) != needle@ by {
            assert(k < i);
        }
    }
    false
}

/// Whether the terminal announces 24-bit color support. The caller hands in
/// the value of the capability environment variable; an absent variable or
/// one naming neither "truecolor" nor "24bit" means indexed color only.
pub fn truecolor(signal: Option<&str>) -> (r: bool)
    ensures
        r == truecolor_signal(signal),
{
    match signal {
        Some(s) => contains_str(s, "truecolor") || contains_str(s, "24bit"),
        None => false,
    }
}

/// The start gradient stop, resolved for the given color capability.
pub open spec fn resolved_start(p: ThemePalette, truecolor: bool) -> Color {
    if truecolor {
        p.start
    } else {
        p.start256
    }
}

/// The mid gradient stop, resolved for the given color capability.
pub open spec fn resolved_mid(p: ThemePalette, truecolor: bool) -> Color {
    if truecolor {
        p.mid
    } else {
        p.mid256
    }
}

/// The end gradient stop, resolved for the given color capability.
pub open spec fn resolved_end(p: ThemePalette, truecolor: bool) -> Color {
    if truecolor {
        p.end
    } else {
        p.end256
    }
}

impl ThemePalette {
    /// The start stop for the given capability: true color where supported,
    /// else the indexed fallback.
    pub fn start_color(&self, truecolor: bool) -> (c: Color)
        ensures
            c == resolved_start(*self, truecolor),
    {
        if truecolor {
            self.start
        } else {
            self.start256
        }
    }

    /// The mid stop for the given capability.
    pub fn mid_color(&self, truecolor: bool) -> (c: Color)
        ensures
            c == resolved_mid(*self, truecolor),
    {
        if truecolor {
            self.mid
        } else {
            self.mid256
        }
    }

    /// The end stop for the given capability.
    pub fn end_color(&self, truecolor: bool) -> (c: Color)
        ensures
            c == resolved_end(*self, truecolor),
    {
        if truecolor {
            self.end
        } else {
            self.end256
        }
    }
}

} // verus!
