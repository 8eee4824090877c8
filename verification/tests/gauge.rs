use macmon::buffer::{Buffer, Rect};
use macmon::color::{Color, Style};
use macmon::gradient_gauge::{filled_cols, Border, GradientGauge};

fn gauge() -> GradientGauge {
    GradientGauge::default()
}

#[test]
fn filled_rounds_to_nearest_and_stays_in_range() {
    assert_eq!(filled_cols(9, 1, 2), 5);
    assert_eq!(filled_cols(9, 1, 3), 3);
    assert_eq!(filled_cols(9, 0, 1), 0);
    assert_eq!(filled_cols(9, 1, 1), 9);
    assert_eq!(filled_cols(0, 1, 1), 0);
    for w in 0..=100u16 {
        for num in 0..=10u32 {
            let f = filled_cols(w, num, 10);
            assert!(f <= w);
        }
    }
}

#[test]
fn ratio_above_one_behaves_like_one() {
    let area = Rect { x: 0, y: 0, width: 9, height: 2 };
    let g1 = gauge().ratio(3, 2).colors(Color::Green, Color::Yellow, Color::Red);
    let g2 = gauge().ratio(2, 2).colors(Color::Green, Color::Yellow, Color::Red);
    let mut b1 = Buffer::new(9, 2);
    let mut b2 = Buffer::new(9, 2);
    g1.render(area, &mut b1);
    g2.render(area, &mut b2);
    assert_eq!(b1, b2);
}

#[test]
fn zero_denominator_means_empty_fill() {
    let area = Rect { x: 0, y: 0, width: 4, height: 1 };
    let g = gauge().ratio(5, 0).colors(Color::Green, Color::Yellow, Color::Red);
    let mut b = Buffer::new(4, 1);
    let before = b.clone();
    g.render(area, &mut b);
    assert_eq!(b, before);
}

#[test]
fn band_assignment_is_positional() {
    let area = Rect { x: 0, y: 0, width: 9, height: 1 };
    for num in 5..=9u32 {
        let g = gauge().ratio(num, 9).colors(Color::Green, Color::Yellow, Color::Red);
        let mut b = Buffer::new(9, 1);
        g.render(area, &mut b);
        let c = b.get(4, 0);
        assert_eq!(c.fg, Color::Yellow);
        assert_eq!(c.symbol, '\u{2588}');
    }
}

#[test]
fn full_fill_colors_in_thirds_with_remainder_in_the_last() {
    let area = Rect { x: 0, y: 0, width: 9, height: 1 };
    let g = gauge().ratio(1, 1).colors(Color::Green, Color::Yellow, Color::Red);
    let mut b = Buffer::new(9, 1);
    g.render(area, &mut b);
    assert_eq!(b.get(0, 0).fg, Color::Green);
    assert_eq!(b.get(2, 0).fg, Color::Green);
    assert_eq!(b.get(3, 0).fg, Color::Yellow);
    assert_eq!(b.get(5, 0).fg, Color::Yellow);
    assert_eq!(b.get(6, 0).fg, Color::Red);
    assert_eq!(b.get(8, 0).fg, Color::Red);
}

#[test]
fn half_fill_shows_only_the_bands_it_reaches() {
    let area = Rect { x: 0, y: 0, width: 9, height: 1 };
    let g = gauge().ratio(1, 3).colors(Color::Green, Color::Yellow, Color::Red);
    let mut b = Buffer::new(9, 1);
    g.render(area, &mut b);
    for x in 0..3u16 {
        assert_eq!(b.get(x, 0).fg, Color::Green);
        assert_eq!(b.get(x, 0).symbol, '\u{2588}');
    }
    for x in 3..9u16 {
        assert_eq!(b.get(x, 0).symbol, ' ');
    }
}

#[test]
fn zero_size_area_mutates_nothing() {
    let g = gauge().ratio(1, 1).colors(Color::Green, Color::Yellow, Color::Red);
    let mut b = Buffer::new(5, 5);
    let before = b.clone();
    g.render(Rect { x: 1, y: 1, width: 0, height: 3 }, &mut b);
    assert_eq!(b, before);
    g.render(Rect { x: 1, y: 1, width: 3, height: 0 }, &mut b);
    assert_eq!(b, before);
}

#[test]
fn border_is_painted_and_shrinks_the_gauge() {
    let area = Rect { x: 0, y: 0, width: 5, height: 3 };
    let g = gauge()
        .block(Border { color: Color::Cyan })
        .ratio(1, 1)
        .colors(Color::Green, Color::Yellow, Color::Red);
    let mut b = Buffer::new(5, 3);
    g.render(area, &mut b);
    assert_eq!(b.get(0, 0).symbol, '\u{250c}');
    assert_eq!(b.get(4, 0).symbol, '\u{2510}');
    assert_eq!(b.get(0, 2).symbol, '\u{2514}');
    assert_eq!(b.get(4, 2).symbol, '\u{2518}');
    assert_eq!(b.get(2, 0).symbol, '\u{2500}');
    assert_eq!(b.get(0, 1).symbol, '\u{2502}');
    assert_eq!(b.get(0, 0).fg, Color::Cyan);
    assert_eq!(b.get(1, 1).fg, Color::Green);
    assert_eq!(b.get(2, 1).fg, Color::Yellow);
    assert_eq!(b.get(3, 1).fg, Color::Red);
}

#[test]
fn base_style_covers_unlit_cells() {
    let area = Rect { x: 0, y: 0, width: 3, height: 1 };
    let st = Style { fg: Some(Color::Blue), bg: Some(Color::Black) };
    let g = gauge().style(st).ratio(0, 1).colors(Color::Green, Color::Yellow, Color::Red);
    let mut b = Buffer::new(3, 1);
    g.render(area, &mut b);
    for x in 0..3u16 {
        let c = b.get(x, 0);
        assert_eq!(c.symbol, ' ');
        assert_eq!(c.fg, Color::Blue);
        assert_eq!(c.bg, Color::Black);
    }
}

#[test]
fn cells_outside_the_area_stay_untouched() {
    let g = gauge().ratio(1, 1).colors(Color::Green, Color::Yellow, Color::Red);
    let mut b = Buffer::new(4, 4);
    g.render(Rect { x: 1, y: 1, width: 2, height: 2 }, &mut b);
    for x in 0..4u16 {
        assert_eq!(b.get(x, 0).symbol, ' ');
        assert_eq!(b.get(x, 3).symbol, ' ');
    }
    for y in 0..4u16 {
        assert_eq!(b.get(0, y).symbol, ' ');
        assert_eq!(b.get(3, y).symbol, ' ');
    }
    assert_eq!(b.get(1, 1).symbol, '\u{2588}');
}
