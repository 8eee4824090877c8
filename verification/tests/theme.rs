use macmon::color::Color;
use macmon::config::Config;
use macmon::theme::{tokyo_night, truecolor};

#[test]
fn truecolor_signal_detection() {
    assert!(!truecolor(None));
    assert!(truecolor(Some("truecolor")));
    assert!(truecolor(Some("24bit")));
    assert!(truecolor(Some("xterm-truecolor")));
    assert!(truecolor(Some("foo 24bit bar")));
    assert!(!truecolor(Some("256color")));
    assert!(!truecolor(Some("")));
    assert!(!truecolor(Some("TRUECOLOR")));
    assert!(!truecolor(Some("24bi")));
}

#[test]
fn capability_resolution_picks_the_matching_fields() {
    let p = tokyo_night();
    assert_eq!(p.start_color(true), Color::Rgb(0x9e, 0xce, 0x6a));
    assert_eq!(p.mid_color(true), Color::Rgb(0xe0, 0xaf, 0x68));
    assert_eq!(p.end_color(true), Color::Rgb(0xf7, 0x76, 0x8e));
    assert_eq!(p.start_color(false), Color::Indexed(150));
    assert_eq!(p.mid_color(false), Color::Indexed(180));
    assert_eq!(p.end_color(false), Color::Indexed(211));
}

#[test]
fn default_theme_resolves_the_same_color_on_both_paths() {
    let mut c = Config::default();
    c.color = Color::Cyan;
    let p = c.palette();
    assert_eq!(p.start_color(true), p.start_color(false));
    assert_eq!(p.start_color(true), Color::Cyan);
    assert_eq!(p.mid_color(true), p.mid_color(false));
    assert_eq!(p.end_color(true), p.end_color(false));
}
