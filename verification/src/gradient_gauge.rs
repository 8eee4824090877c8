//! The gradient gauge: a stateless painter that fills a rectangular region
//! of cells left to right in proportion to a ratio, coloring each lit
//! column by which horizontal third of the region it sits in. The gradient
//! is a property of position, not of fill amount: a half-filled bar shows
//! only the bands its lit columns reach.

use crate::buffer::{Buffer, Cell, Rect};
use crate::color::{Color, Style};
use vstd::arithmetic::div_mod::{lemma_div_is_ordered, lemma_fundamental_div_mod_converse};
use vstd::arithmetic::mul::{lemma_mul_inequality, lemma_mul_upper_bound};
use vstd::prelude::*;

verus! {

/// An enclosing one-cell border decoration, drawn in its own color.
#[derive(Clone, Copy, PartialEq, Debug)]
pub struct Border {
    pub color: Color,
}

/// One paint request: the fill ratio as a clamped fraction, the three
/// gradient stop colors, an optional enclosing border, and a base style
/// applied to the whole area before anything is drawn.
#[derive(Clone, Copy, PartialEq, Debug)]
pub struct GradientGauge {
    pub block: Option<Border>,
    pub ratio_num: u32,
    pub ratio_den: u32,
    pub style: Style,
    pub start: Color,
    pub mid: Color,
    pub end: Color,
}

/// The solid glyph painted into lit cells.
pub open spec fn full_block() -> char {
    '\u{2588}'
}

/// A cell after a style patch: the glyph stays, each present style field
/// overrides the matching color.
pub open spec fn styled(c: Cell, st: Style) -> Cell {
    Cell {
        symbol: c.symbol,
        fg: match st.fg {
            Some(f) => f,
            None => c.fg,
        },
        bg: match st.bg {
            Some(b) => b,
            None => c.bg,
        },
    }
}

/// A configured ratio, clamped into [0, 1]: a zero denominator means an
/// empty fill, a numerator above the denominator means a full one.
pub open spec fn clamped_ratio(num: u32, den: u32) -> (u32, u32) {
    if den == 0 {
        (0u32, 1u32)
    } else if num > den {
        (den, den)
    } else {
        (num, den)
    }
}

/// Number of lit columns: the width scaled by the ratio, rounded to the
/// nearest column (halves rounding up).
pub open spec fn spec_filled(w: int, num: int, den: int) -> int {
    (2 * w * num + den) / (2 * den)
}

/// Width of one color band: a third of the region's width, the remainder
/// falling to the final band.
pub open spec fn spec_third(w: int) -> int {
    (if w >= 1 {
        w
    } else {
        1
    }) / 3
}

/// The border glyph at a position of a region's edge ring: corners first,
/// then the horizontal and vertical lines.
pub open spec fn border_symbol(area: Rect, x: int, y: int) -> char {
    let l = area.x as int;
    let r = area.right() - 1;
    let t = area.y as int;
    let b = area.bottom() - 1;
    if x == l && y == t {
        '\u{250c}'
    } else if x == r && y == t {
        '\u{2510}'
    } else if x == l && y == b {
        '\u{2514}'
    } else if x == r && y == b {
        '\u{2518}'
    } else if y == t || y == b {
        '\u{2500}'
    } else {
        '\u{2502}'
    }
}

/// Number of lit columns for a width and a clamped ratio; never more than
/// the width itself.
pub fn filled_cols(width: u16, num: u32, den: u32) -> (f: u16)
    requires
        1 <= den,
        num <= den,
    ensures
        f == spec_filled(width as int, num as int, den as int),
        f <= width,
{
    let w: u64 = width as u64;
    let n: u64 = num as u64;
    let d: u64 = den as u64;
    proof {
        lemma_mul_upper_bound(2 * w as int, 0x1FFFEint, n as int, 0xFFFF_FFFFint);
        lemma_mul_inequality(n as int, d as int, 2 * w as int);
        lemma_div_is_ordered(
            2 * (w as int) * (n as int) + d,
            2 * (w as int) * (d as int) + d,
            2 * d as int,
        );
        assert(2 * (w as int) * (d as int) + d == (w as int) * (2 * d as int) + d)
            by (nonlinear_arith);
        lemma_fundamental_div_mod_converse(
            2 * (w as int) * (d as int) + (d as int),
            2 * d as int,
            w as int,
            d as int,
        );
    }
    let q: u64 = (2 * w * n + d) / (2 * d);
    q as u16
}

impl GradientGauge {
    /// The ratio fields form a fraction in [0, 1].
    pub open spec fn wf(self) -> bool {
        1 <= self.ratio_den && self.ratio_num <= self.ratio_den
    }

    /// The region the gauge bar itself covers: the whole area, or the
    /// border's interior when a border is configured.
    pub open spec fn gauge_area(self, area: Rect) -> Rect {
        match self.block {
            Some(_) => area.inner_spec(),
            None => area,
        }
    }

    /// Number of lit columns inside the gauge region.
    pub open spec fn filled_in(self, g: Rect) -> int {
        spec_filled(g.width as int, self.ratio_num as int, self.ratio_den as int)
    }

    /// The stop color of the band a column offset falls in.
    pub open spec fn band_color(self, off: int, third: int) -> Color {
        if off < third {
            self.start
        } else if off < 2 * third {
            self.mid
        } else {
            self.end
        }
    }

    /// What one paint pass leaves at a position of the painted area, given
    /// the cell that was there: border ring cells get the border glyph in
    /// the border's color, lit gauge columns get the solid glyph in their
    /// band's color, and everything else keeps its glyph under the base
    /// style.
    pub open spec fn rendered_cell(self, area: Rect, x: int, y: int, old_cell: Cell) -> Cell {
        let base = styled(old_cell, self.style);
        let g = self.gauge_area(area);
        if self.block is Some && !g.contains(x, y) {
            Cell { symbol: border_symbol(area, x, y), fg: self.block->0.color, bg: base.bg }
        } else if g.contains(x, y) && x - g.x < self.filled_in(g) {
            Cell {
                symbol: full_block(),
                fg: self.band_color(x - g.x, spec_third(g.width as int)),
                bg: base.bg,
            }
        } else {
            base
        }
    }

    /// Enclose the gauge in a border decoration.
    pub fn block(self, b: Border) -> (r: Self)
        ensures
            r == (GradientGauge { block: Some(b), ..self }),
    {
        GradientGauge { block: Some(b), ..self }
    }

    /// Configure the fill ratio as a fraction, clamped into [0, 1].
    pub fn ratio(self, num: u32, den: u32) -> (r: Self)
        ensures
            r == (GradientGauge {
                ratio_num: clamped_ratio(num, den).0,
                ratio_den: clamped_ratio(num, den).1,
                ..self
            }),
            r.wf(),
    {
        let (n, d): (u32, u32) = if den == 0 {
            (0, 1)
        } else if num > den {
            (den, den)
        } else {
            (num, den)
        };
        GradientGauge { ratio_num: n, ratio_den: d, ..self }
    }

    /// Configure the base style.
    pub fn style(self, style: Style) -> (r: Self)
        ensures
            r == (GradientGauge { style: style, ..self }),
    {
        GradientGauge { style: style, ..self }
    }

    /// Configure the three gradient stop colors.
    pub fn colors(self, start: Color, mid: Color, end: Color) -> (r: Self)
        ensures
            r == (GradientGauge { start: start, mid: mid, end: end, ..self }),
    {
        GradientGauge { start: start, mid: mid, end: end, ..self }
    }

    /// The border glyph at a position of the area's edge ring.
    fn border_symbol_at(area: &Rect, x: u16, y: u16) -> (c: char)
        requires
            area.contains(x as int, y as int),
            area.right() <= u16::MAX,
            area.bottom() <= u16::MAX,
        ensures
            c == border_symbol(*area, x as int, y as int),
    {
        let l = area.x;
        let r = area.x + area.width - 1;
        let t = area.y;
        let b = area.y + area.height - 1;
        if x == l && y == t {
            '\u{250c}'
        } else if x == r && y == t {
            '\u{2510}'
        } else if x == l && y == b {
            '\u{2514}'
        } else if x == r && y == b {
            '\u{2518}'
        } else if y == t || y == b {
            '\u{2500}'
        } else {
            '\u{2502}'
        }
    }

    /// Compute the cell one paint pass leaves at (x, y).
    fn paint_cell(self, area: &Rect, g: &Rect, filled: u16, third: u16, x: u16, y: u16, old_cell: Cell) -> (c:
        Cell)
        requires
            self.wf(),
            *g == self.gauge_area(*area),
            filled == self.filled_in(*g),
            filled <= g.width,
            third == spec_third(g.width as int),
            area.contains(x as int, y as int),
            area.right() <= u16::MAX,
            area.bottom() <= u16::MAX,
        ensures
            c == self.rendered_cell(*area, x as int, y as int, old_cell),
    {
        let base = Cell {
            symbol: old_cell.symbol,
            fg: match self.style.fg {
                Some(f) => f,
                None => old_cell.fg,
            },
            bg: match self.style.bg {
                Some(b) => b,
                None => old_cell.bg,
            },
        };
        let inside = g.contains_cell(x, y);
        match self.block {
            Some(b) => {
                if !inside {
                    return Cell {
                        symbol: Self::border_symbol_at(area, x, y),
                        fg: b.color,
                        bg: base.bg,
                    };
                }
            },
            None => {},
        }
        if inside && x - g.x < filled {
            let off = x - g.x;
            let color = if off < third {
                self.start
            } else if off < 2 * third {
                self.mid
            } else {
                self.end
            };
            Cell { symbol: '\u{2588}', fg: color, bg: base.bg }
        } else {
            base
        }
    }

    /// Paint one frame of the gauge into the given area of the buffer. A
    /// degenerate (zero-size) area is a valid no-op. Every cell of the area
    /// ends up exactly as `rendered_cell` says; cells outside the area are
    /// untouched.
    pub fn render(self, area: Rect, buf: &mut Buffer)
        requires
            old(buf).wf(),
            self.wf(),
            area.right() <= old(buf).width,
            area.bottom() <= old(buf).height,
        ensures
            final(buf).wf(),
            final(buf).width == old(buf).width,
            final(buf).height == old(buf).height,
            forall|x: int, y: int|
                0 <= x < old(buf).width && 0 <= y < old(buf).height
                    ==> #[trigger] final(buf).cell_at(x, y) == (if area.contains(x, y) {
                    self.rendered_cell(area, x, y, old(buf).cell_at(x, y))
                } else {
                    old(buf).cell_at(x, y)
                }),
            area.is_empty_spec() ==> *final(buf) == *old(buf),
    {
        if area.is_empty() {
            return ;
        }
        let g: Rect = match self.block {
            Some(_) => area.inner(),
            None => area,
        };
        let filled: u16 = filled_cols(g.width, self.ratio_num, self.ratio_den);
        let third: u16 = (if g.width >= 1 {
            g.width
        } else {
            1
        }) / 3;
        let mut y: u16 = area.y;
        #[verifier::loop_isolation(false)]
        while y < area.y + area.height
            invariant
                buf.wf(),
                buf.width == old(buf).width,
                buf.height == old(buf).height,
                area.y <= y <= area.bottom(),
                forall|i: int, j: int|
                    0 <= i < buf.width && 0 <= j < buf.height ==> #[trigger] buf.cell_at(i, j) == (
                    if area.contains(i, j) && j < y {
                        self.rendered_cell(area, i, j, old(buf).cell_at(i, j))
                    } else {
                        old(buf).cell_at(i, j)
                    }),
            decreases area.bottom() - y,
        {
            let mut x: u16 = area.x;
            #[verifier::loop_isolation(false)]
            while x < area.x + area.width
                invariant
                    buf.wf(),
                    buf.width == old(buf).width,
                    buf.height == old(buf).height,
                    area.y <= y < area.bottom(),
                    area.x <= x <= area.right(),
                    forall|i: int, j: int|
                        0 <= i < buf.width && 0 <= j < buf.height ==> #[trigger] buf.cell_at(i, j)
                            == (if area.contains(i, j) && (j < y || (j == y && i < x)) {
                            self.rendered_cell(area, i, j, old(buf).cell_at(i, j))
                        } else {
                            old(buf).cell_at(i, j)
                        }),
                decreases area.right() - x,
            {
                let old_cell: Cell = buf.get(x, y);
                let newc: Cell = self.paint_cell(&area, &g, filled, third, x, y, old_cell);
                buf.set(x, y, newc);
                x = x + 1;
            }
            y = y + 1;
        }
    }
}

impl Default for GradientGauge {
    /// An unconfigured gauge: no border, an empty fill, the empty style
    /// patch and reset colors.
    fn default() -> (g: GradientGauge)
        ensures
            g == (GradientGauge {
                block: None,
                ratio_num: 0,
                ratio_den: 1,
                style: Style { fg: None, bg: None },
                start: Color::Reset,
                mid: Color::Reset,
                end: Color::Reset,
            }),
            g.wf(),
    {
        GradientGauge {
            block: None,
            ratio_num: 0,
            ratio_den: 1,
            style: Style { fg: None, bg: None },
            start: Color::Reset,
            mid: Color::Reset,
            end: Color::Reset,
        }
    }
}

/// The fill is clamped: with the denominator fixed, every numerator at or
/// above it configures the very same ratio as the boundary value itself.
pub proof fn lemma_ratio_clamped(num: u32, den: u32)
    requires
        1 <= den,
        num >= den,
    ensures
        clamped_ratio(num, den) == clamped_ratio(den, den),
{
}

/// Band assignment is positional: two gauges alike in everything but their
/// ratio paint a lit cell in the very same color, however far each fill
/// reaches past that cell.
pub proof fn lemma_band_positional(
    g1: GradientGauge,
    g2: GradientGauge,
    area: Rect,
    x: int,
    y: int,
    c: Cell,
)
    requires
        g1.block == g2.block,
        g1.style == g2.style,
        g1.start == g2.start,
        g1.mid == g2.mid,
        g1.end == g2.end,
        g1.gauge_area(area).contains(x, y),
        x - g1.gauge_area(area).x < g1.filled_in(g1.gauge_area(area)),
        x - g2.gauge_area(area).x < g2.filled_in(g2.gauge_area(area)),
    ensures
        g1.rendered_cell(area, x, y, c) == g2.rendered_cell(area, x, y, c),
{
}

} // verus!
