//! The persisted preference record and its cycling mutations. Reading and
//! writing the preference file is the caller's business; this module owns
//! the record itself, the defaulting rules when a stored document is missing
//! or malformed, and the mutation operations.

use crate::color::{color_from_name, color_of, ring_color, ring_color_at, ring_index,
    ring_position, Color};
use crate::theme::{tokyo_night_spec, tokyo_night, Theme, ThemePalette};
use vstd::prelude::*;
use vstd::string::StringExecFns;

verus! {

/// The two ways the resource view can be drawn.
#[derive(Clone, Copy, PartialEq, Eq, Structural, Debug)]
pub enum ViewType {
    Sparkline,
    Gauge,
}

/// The user preference record.
#[derive(Clone, Copy, PartialEq, Eq, Structural, Debug)]
pub struct Config {
    pub view_type: ViewType,
    pub theme: Theme,
    pub color: Color,
    pub interval: u32,
}

/// The sampling interval is kept on a 250 ms grid, between 250 and 10000.
pub open spec fn interval_ok(i: u32) -> bool {
    250 <= i <= 10000 && i % 250 == 0
}

/// One joint step of the (theme, color) ring: under the default theme the
/// accent color advances through the fixed ring; past its last entry the
/// theme switches to TokyoNight; from TokyoNight the ring wraps back to the
/// default theme with the first accent color. A color from outside the ring
/// falls back to the ring's first entry.
pub open spec fn next_theme_spec(t: Theme, c: Color) -> (Theme, Color) {
    match t {
        Theme::Default => match ring_index(c) {
            Some(i) => if i + 1 < 7 {
                (Theme::Default, ring_color(i + 1))
            } else {
                (Theme::TokyoNight, c)
            },
            None => (Theme::Default, ring_color(0)),
        },
        Theme::TokyoNight => (Theme::Default, ring_color(0)),
    }
}

/// The joint ring step applied n times.
pub open spec fn next_theme_iterated(n: nat, p: (Theme, Color)) -> (Theme, Color)
    decreases n,
{
    if n == 0 {
        p
    } else {
        next_theme_iterated((n - 1) as nat, next_theme_spec(p.0, p.1))
    }
}

/// Full ring closure: from the default starting state, stepping the joint
/// (theme, color) ring exactly eight times (seven color steps and one theme
/// switch) returns to the starting state.
pub proof fn lemma_theme_ring_closure()
    ensures
        next_theme_iterated(8, (Theme::Default, ring_color(0))) == (Theme::Default, ring_color(0)),
{
    reveal_with_fuel(next_theme_iterated, 9);
}

/// The palette derived from a preference record: under the default theme a
/// monochrome palette in the selected accent color, under TokyoNight the
/// fixed designer palette.
pub open spec fn palette_spec(c: Config) -> ThemePalette {
    match c.theme {
        Theme::Default => ThemePalette {
            border: c.color,
            text: Color::Reset,
            start: c.color,
            mid: c.color,
            end: c.color,
            start256: c.color,
            mid256: c.color,
            end256: c.color,
        },
        Theme::TokyoNight => tokyo_night_spec(),
    }
}

/// What a stored view-type field means: one of the two view names, or
/// nothing recognizable.
pub open spec fn view_type_of(s: Seq<char>) -> Option<ViewType> {
    if s == "Sparkline"@ {
        Some(ViewType::Sparkline)
    } else if s == "Gauge"@ {
        Some(ViewType::Gauge)
    } else {
        None
    }
}

/// What a stored theme field means.
pub open spec fn theme_of(s: Seq<char>) -> Option<Theme> {
    if s == "Default"@ {
        Some(Theme::Default)
    } else if s == "TokyoNight"@ {
        Some(Theme::TokyoNight)
    } else {
        None
    }
}

/// A stored interval, pulled onto the 250 ms grid: clamped into
/// [250, 10000], then rounded to the nearest grid point.
pub open spec fn normalize_interval(v: u64) -> int {
    let c: int = if v > 10000 {
        10000
    } else {
        v as int
    };
    let stepped: int = ((c + 125) / 250) * 250;
    if stepped < 250 {
        250
    } else {
        stepped
    }
}

/// The characters of an optional string.
pub open spec fn opt_chars(s: Option<String>) -> Option<Seq<char>> {
    match s {
        Some(x) => Some(x@),
        None => None,
    }
}

/// The record read from the four stored fields. An absent field falls back
/// to its default; a present field that parses to nothing makes the whole
/// record fall back to the default, as an undecodable document would.
pub open spec fn fields_config(
    view: Option<Seq<char>>,
    theme: Option<Seq<char>>,
    color: Option<Seq<char>>,
    interval: Option<u64>,
) -> Config {
    let vt = match view {
        None => Some(ViewType::Sparkline),
        Some(s) => view_type_of(s),
    };
    let th = match theme {
        None => Some(Theme::Default),
        Some(s) => theme_of(s),
    };
    let co = match color {
        None => Some(ring_color(0)),
        Some(s) => color_of(s),
    };
    let iv: u32 = match interval {
        None => 1000u32,
        Some(v) => normalize_interval(v) as u32,
    };
    if vt is None || th is None || co is None {
        Config::default_spec()
    } else {
        Config { view_type: vt->0, theme: th->0, color: co->0, interval: iv }
    }
}

/// The preference file's path under a given home directory.
pub open spec fn config_path_spec(home: Seq<char>) -> Seq<char> {
    home + "/.config/macmon.json"@
}

/// The preference file's path under a given home directory. Finding the
/// home directory and creating the parent directory are the caller's
/// business.
pub fn config_path(home: &str) -> (p: String)
    ensures
        p@ == config_path_spec(home@),
{
    home.to_owned().concat("/.config/macmon.json")
}

/// What serde_json's parse makes of the preference document: nothing for a
/// text that is not a document with well-typed fields, else the four stored
/// fields, each either absent or present. The result depends on the text
/// alone.
pub uninterp spec fn json_fields_of(s: Seq<char>) -> Option<
    (Option<Seq<char>>, Option<Seq<char>>, Option<Seq<char>>, Option<u64>),
>;

/// Relies on serde_json's `from_str::<Value>`, `Value::get`, `Value::as_str`
/// and `Value::as_u64`: parses the preference document and pulls out its
/// four fields. It yields nothing for a text that does not parse — and,
/// mirroring a failed typed decode, for a document where a present field
/// holds the wrong kind of value; a field that is missing altogether is
/// merely absent. The outcome depends on the text alone.
#[verifier::external_body]
fn parse_json_fields(text: &str) -> (r: Option<
    (Option<String>, Option<String>, Option<String>, Option<u64>),
>)
    ensures
        r is None <==> json_fields_of(text@) is None,
        r is Some ==> ({
            let f = r->0;
            let g = json_fields_of(text@)->0;
            opt_chars(f.0) == g.0 && opt_chars(f.1) == g.1 && opt_chars(f.2) == g.2 && f.3 == g.3
        }),
{
    let v: serde_json::Value = serde_json::from_str(text).ok()?;
    let vt = match v.get("view_type") { None => None, Some(x) => Some(x.as_str()?.to_owned()) };
    let th = match v.get("theme") { None => None, Some(x) => Some(x.as_str()?.to_owned()) };
    let co = match v.get("color") { None => None, Some(x) => Some(x.as_str()?.to_owned()) };
    let iv = match v.get("interval") { None => None, Some(x) => Some(x.as_u64()?) };
    Some((vt, th, co, iv))
}

/// String comparison against a literal.
fn string_eq_lit(s: &String, lit: &str) -> (r: bool)
    ensures
        r == (s@ == lit@),
{
    let owned: String = lit.to_owned();
    *s == owned
}

/// Recognize a stored view-type name.
fn parse_view_type(s: &String) -> (r: Option<ViewType>)
    ensures
        r == view_type_of(s@),
{
    if string_eq_lit(s, "Sparkline") {
        Some(ViewType::Sparkline)
    } else if string_eq_lit(s, "Gauge") {
        Some(ViewType::Gauge)
    } else {
        None
    }
}

/// Recognize a stored theme name.
fn parse_theme(s: &String) -> (r: Option<Theme>)
    ensures
        r == theme_of(s@),
{
    if string_eq_lit(s, "Default") {
        Some(Theme::Default)
    } else if string_eq_lit(s, "TokyoNight") {
        Some(Theme::TokyoNight)
    } else {
        None
    }
}

/// Pull a stored interval onto the 250 ms grid.
fn normalize_interval_exec(v: u64) -> (r: u32)
    ensures
        r == normalize_interval(v),
        interval_ok(r),
{
    let c: u64 = if v > 10000 {
        10000
    } else {
        v
    };
    let stepped: u64 = ((c + 125) / 250) * 250;
    if stepped < 250 {
        250
    } else {
        stepped as u32
    }
}

impl Config {
    /// The documented default record.
    pub open spec fn default_spec() -> Config {
        Config {
            view_type: ViewType::Sparkline,
            theme: Theme::Default,
            color: ring_color(0),
            interval: 1000,
        }
    }

    /// The record is well formed when its interval sits on the grid.
    pub open spec fn wf(self) -> bool {
        interval_ok(self.interval)
    }

    /// Build the record from the four stored fields, with the defaulting
    /// rules of `fields_config`.
    pub fn from_fields(
        view: Option<String>,
        theme: Option<String>,
        color: Option<String>,
        interval: Option<u64>,
    ) -> (c: Config)
        ensures
            c == fields_config(opt_chars(view), opt_chars(theme), opt_chars(color), interval),
            c.wf(),
    {
        let vt: Option<ViewType> = match &view {
            None => Some(ViewType::Sparkline),
            Some(s) => parse_view_type(s),
        };
        let th: Option<Theme> = match &theme {
            None => Some(Theme::Default),
            Some(s) => parse_theme(s),
        };
        let co: Option<Color> = match &color {
            None => Some(ring_color_at(0)),
            Some(s) => color_from_name(s.as_str()),
        };
        let iv: u32 = match interval {
            None => 1000,
            Some(v) => normalize_interval_exec(v),
        };
        match (vt, th, co) {
            (Some(v), Some(t), Some(cl)) => Config { view_type: v, theme: t, color: cl, interval: iv },
            _ => Config::default(),
        }
    }

    /// Read a record from the preference document's text. An absent
    /// document (`None`), one that does not parse, and one with a present
    /// field of the wrong kind all fall back to the default record; fields
    /// of a well-typed document fall back individually as `fields_config`
    /// says.
    pub fn from_json(text: Option<&str>) -> (c: Config)
        ensures
            text is None ==> c == Config::default_spec(),
            text is Some ==> c == (match json_fields_of(text->0@) {
                None => Config::default_spec(),
                Some(g) => fields_config(g.0, g.1, g.2, g.3),
            }),
            c.wf(),
    {
        match text {
            None => Config::default(),
            Some(t) => match parse_json_fields(t) {
                None => Config::default(),
                Some((view, theme, color, interval)) => Config::from_fields(
                    view,
                    theme,
                    color,
                    interval,
                ),
            },
        }
    }

    /// Advance the joint (theme, color) ring by one step. Persisting the
    /// changed record is the caller's explicit follow-up.
    pub fn next_theme(&mut self)
        ensures
            final(self).theme == next_theme_spec(old(self).theme, old(self).color).0,
            final(self).color == next_theme_spec(old(self).theme, old(self).color).1,
            final(self).view_type == old(self).view_type,
            final(self).interval == old(self).interval,
    {
        match self.theme {
            Theme::Default => {
                match ring_position(self.color) {
                    Some(idx) => {
                        if idx + 1 < 7 {
                            self.color = ring_color_at(idx + 1);
                        } else {
                            self.theme = Theme::TokyoNight;
                        }
                    },
                    None => {
                        self.color = ring_color_at(0);
                    },
                }
            },
            Theme::TokyoNight => {
                self.theme = Theme::Default;
                self.color = ring_color_at(0);
            },
        }
    }

    /// Toggle between the two view types.
    pub fn next_view_type(&mut self)
        ensures
            final(self).view_type == (match old(self).view_type {
                ViewType::Sparkline => ViewType::Gauge,
                ViewType::Gauge => ViewType::Sparkline,
            }),
            final(self).theme == old(self).theme,
            final(self).color == old(self).color,
            final(self).interval == old(self).interval,
    {
        self.view_type = match self.view_type {
            ViewType::Sparkline => ViewType::Gauge,
            ViewType::Gauge => ViewType::Sparkline,
        };
    }

    /// Move the interval one step up: add the step, round down to the grid,
    /// and stop at the ceiling.
    pub fn inc_interval(&mut self)
        ensures
            final(self).interval == inc_interval_spec(old(self).interval),
            interval_ok(final(self).interval),
            final(self).view_type == old(self).view_type,
            final(self).theme == old(self).theme,
            final(self).color == old(self).color,
    {
        let s: u32 = if self.interval > u32::MAX - 250 {
            u32::MAX
        } else {
            self.interval + 250
        };
        let stepped: u32 = (s / 250) * 250;
        self.interval = if stepped > 10000 {
            10000
        } else {
            stepped
        };
    }

    /// Move the interval one step down: subtract the step, round up to the
    /// grid, and stop at the floor.
    pub fn dec_interval(&mut self)
        ensures
            final(self).interval == dec_interval_spec(old(self).interval),
            interval_ok(final(self).interval),
            final(self).view_type == old(self).view_type,
            final(self).theme == old(self).theme,
            final(self).color == old(self).color,
    {
        let s: u32 = if self.interval >= 250 {
            self.interval - 250
        } else {
            0
        };
        let q: u64 = (s / 250) as u64;
        let stepped: u64 = (q + if s % 250 == 0 {
            0
        } else {
            1
        }) * 250;
        let floored: u64 = if stepped < 250 {
            250
        } else {
            stepped
        };
        self.interval = if floored > 10000 {
            10000
        } else {
            floored as u32
        };
    }

    /// Derive the palette for the current theme and accent color.
    pub fn palette(&self) -> (p: ThemePalette)
        ensures
            p == palette_spec(*self),
    {
        match self.theme {
            Theme::Default => ThemePalette {
                border: self.color,
                text: Color::Reset,
                start: self.color,
                mid: self.color,
                end: self.color,
                start256: self.color,
                mid256: self.color,
                end256: self.color,
            },
            Theme::TokyoNight => tokyo_night(),
        }
    }
}

/// One upward interval step, from any starting value: saturating add of the
/// step, round down to the grid, clamp at the ceiling.
pub open spec fn inc_interval_spec(i: u32) -> int {
    let s: int = if i + 250 > u32::MAX {
        u32::MAX as int
    } else {
        i + 250
    };
    let stepped: int = (s / 250) * 250;
    if stepped > 10000 {
        10000
    } else {
        stepped
    }
}

/// One downward interval step, from any starting value: saturating subtract
/// of the step, round up to the grid, clamp at the floor and ceiling.
pub open spec fn dec_interval_spec(i: u32) -> int {
    let s: int = if i >= 250 {
        i - 250
    } else {
        0
    };
    let stepped: int = (s / 250 + if s % 250 == 0 {
        0int
    } else {
        1int
    }) * 250;
    let floored: int = if stepped < 250 {
        250
    } else {
        stepped
    };
    if floored > 10000 {
        10000
    } else {
        floored
    }
}

/// On a record already on the grid, one increment lands exactly one step
/// higher, stopping at the ceiling; it never leaves the grid.
pub proof fn lemma_inc_on_step(i: u32)
    requires
        interval_ok(i),
    ensures
        inc_interval_spec(i) == if i + 250 <= 10000 {
            (i + 250) as int
        } else {
            10000int
        },
{
}

/// On a record already on the grid, one decrement lands exactly one step
/// lower, stopping at the floor; it never goes below the floor.
pub proof fn lemma_dec_on_step(i: u32)
    requires
        interval_ok(i),
    ensures
        dec_interval_spec(i) == if i >= 500 {
            (i - 250) as int
        } else {
            250int
        },
{
}

impl Default for Config {
    /// The documented default record.
    fn default() -> (c: Config)
        ensures
            c == Config::default_spec(),
            c.wf(),
    {
        Config {
            view_type: ViewType::Sparkline,
            theme: Theme::Default,
            color: ring_color_at(0),
            interval: 1000,
        }
    }
}

/// Under the default theme the resolved gradient stops are the accent color
/// on both capability paths; under TokyoNight the two paths present the
/// palette's true-color and indexed fields respectively.
pub proof fn lemma_palette_capability(c: Config, truecolor: bool)
    ensures
        c.theme == Theme::Default ==> crate::theme::resolved_start(palette_spec(c), truecolor)
            == c.color && crate::theme::resolved_mid(palette_spec(c), truecolor) == c.color
            && crate::theme::resolved_end(palette_spec(c), truecolor) == c.color,
        c.theme == Theme::TokyoNight ==> crate::theme::resolved_start(palette_spec(c), truecolor)
            == (if truecolor {
            tokyo_night_spec().start
        } else {
            tokyo_night_spec().start256
        }),
{
}

} // verus!
