use macmon::color::Color;
use macmon::config::{Config, ViewType};
use macmon::theme::Theme;

#[test]
fn missing_document_loads_the_default_record() {
    let c = Config::from_json(None);
    assert_eq!(c, Config::default());
    assert_eq!(c.view_type, ViewType::Sparkline);
    assert_eq!(c.theme, Theme::Default);
    assert_eq!(c.color, Color::Green);
    assert_eq!(c.interval, 1000);
}

#[test]
fn malformed_document_loads_the_default_record() {
    assert_eq!(Config::from_json(Some("not json at all")), Config::default());
    assert_eq!(Config::from_json(Some("{\"view_type\": \"Gauge\"")), Config::default());
    assert_eq!(Config::from_json(Some("[1, 2, 3]")), Config::default());
}

#[test]
fn stored_fields_load_and_missing_fields_default() {
    let text = "{\"view_type\":\"Gauge\",\"theme\":\"TokyoNight\",\"color\":\"cyan\",\"interval\":2000}";
    let c = Config::from_json(Some(text));
    assert_eq!(c.view_type, ViewType::Gauge);
    assert_eq!(c.theme, Theme::TokyoNight);
    assert_eq!(c.color, Color::Cyan);
    assert_eq!(c.interval, 2000);

    let c = Config::from_json(Some("{\"interval\":500}"));
    assert_eq!(c.view_type, ViewType::Sparkline);
    assert_eq!(c.theme, Theme::Default);
    assert_eq!(c.color, Color::Green);
    assert_eq!(c.interval, 500);

    let c = Config::from_json(Some("{}"));
    assert_eq!(c, Config::default());
}

#[test]
fn color_strings_go_through_the_terminal_parser() {
    let c = Config::from_fields(None, None, Some("Light Blue".to_string()), None);
    assert_eq!(c.color, Color::LightBlue);
    let c = Config::from_fields(None, None, Some("#ff0000".to_string()), None);
    assert_eq!(c.color, Color::Rgb(255, 0, 0));
    let c = Config::from_fields(None, None, Some("42".to_string()), None);
    assert_eq!(c.color, Color::Indexed(42));
    let c = Config::from_fields(None, None, Some("magenta".to_string()), None);
    assert_eq!(c.color, Color::Magenta);
}

#[test]
fn unrecognized_field_falls_back_to_the_default_record() {
    let c = Config::from_json(Some("{\"view_type\":\"Spiral\"}"));
    assert_eq!(c, Config::default());
    let c = Config::from_fields(None, None, Some("no such color".to_string()), Some(2000));
    assert_eq!(c, Config::default());
    let c = Config::from_fields(None, Some("Daylight".to_string()), None, None);
    assert_eq!(c, Config::default());
}

#[test]
fn wrong_typed_field_falls_back_to_the_default_record() {
    let c = Config::from_json(Some("{\"view_type\":\"Gauge\",\"interval\":\"abc\"}"));
    assert_eq!(c, Config::default());
    let c = Config::from_json(Some("{\"view_type\":5}"));
    assert_eq!(c, Config::default());
    let c = Config::from_json(Some("{\"interval\":-5}"));
    assert_eq!(c, Config::default());
    let c = Config::from_json(Some("{\"color\":[1,2],\"theme\":\"TokyoNight\"}"));
    assert_eq!(c, Config::default());
}

#[test]
fn config_path_sits_under_the_home_directory() {
    assert_eq!(macmon::config::config_path("/home/u"), "/home/u/.config/macmon.json");
    assert_eq!(macmon::config::config_path(""), "/.config/macmon.json");
}

#[test]
fn loaded_interval_is_pulled_onto_the_grid() {
    let c = Config::from_fields(None, None, None, Some(999));
    assert_eq!(c.interval, 1000);
    let c = Config::from_fields(None, None, None, Some(0));
    assert_eq!(c.interval, 250);
    let c = Config::from_fields(None, None, None, Some(1_000_000));
    assert_eq!(c.interval, 10000);
    let c = Config::from_fields(None, None, None, Some(750));
    assert_eq!(c.interval, 750);
}

#[test]
fn inc_interval_steps_up_and_saturates_on_the_grid() {
    let mut c = Config::default();
    c.inc_interval();
    assert_eq!(c.interval, 1250);
    for _ in 0..100 {
        c.inc_interval();
        assert!(c.interval <= 10000);
        assert!(c.interval >= 250);
        assert_eq!(c.interval % 250, 0);
    }
    assert_eq!(c.interval, 10000);
}

#[test]
fn dec_interval_floors_at_the_step() {
    let mut c = Config::default();
    c.interval = 250;
    c.dec_interval();
    assert_eq!(c.interval, 250);
    c.interval = 1000;
    c.dec_interval();
    assert_eq!(c.interval, 750);
    for _ in 0..100 {
        c.dec_interval();
        assert!(c.interval >= 250);
        assert_eq!(c.interval % 250, 0);
    }
    assert_eq!(c.interval, 250);
}

#[test]
fn theme_ring_closes_after_eight_steps() {
    let mut c = Config::default();
    let start = c;
    c.next_theme();
    assert_eq!(c.theme, Theme::Default);
    assert_eq!(c.color, Color::Yellow);
    for _ in 0..5 {
        c.next_theme();
        assert_eq!(c.theme, Theme::Default);
    }
    assert_eq!(c.color, Color::Reset);
    c.next_theme();
    assert_eq!(c.theme, Theme::TokyoNight);
    c.next_theme();
    assert_eq!(c.theme, start.theme);
    assert_eq!(c.color, start.color);
    assert_eq!(c, start);
}

#[test]
fn out_of_ring_color_resets_to_the_first_entry() {
    let mut c = Config::default();
    c.color = Color::LightBlue;
    c.next_theme();
    assert_eq!(c.theme, Theme::Default);
    assert_eq!(c.color, Color::Green);
}

#[test]
fn view_type_toggles_between_the_two_views() {
    let mut c = Config::default();
    c.next_view_type();
    assert_eq!(c.view_type, ViewType::Gauge);
    c.next_view_type();
    assert_eq!(c.view_type, ViewType::Sparkline);
}

#[test]
fn default_theme_palette_is_monochrome_in_the_accent() {
    let mut c = Config::default();
    c.color = Color::Magenta;
    let p = c.palette();
    assert_eq!(p.border, Color::Magenta);
    assert_eq!(p.text, Color::Reset);
    assert_eq!(p.start, Color::Magenta);
    assert_eq!(p.mid, Color::Magenta);
    assert_eq!(p.end, Color::Magenta);
    assert_eq!(p.start256, Color::Magenta);
    assert_eq!(p.mid256, Color::Magenta);
    assert_eq!(p.end256, Color::Magenta);
}

#[test]
fn tokyo_night_palette_is_the_fixed_designer_one() {
    let mut c = Config::default();
    c.theme = Theme::TokyoNight;
    let p = c.palette();
    assert_eq!(p.border, Color::Rgb(0x7d, 0xcf, 0xff));
    assert_eq!(p.text, Color::Rgb(0xcf, 0xc9, 0xc2));
    assert_eq!(p.start, Color::Rgb(0x9e, 0xce, 0x6a));
    assert_eq!(p.mid, Color::Rgb(0xe0, 0xaf, 0x68));
    assert_eq!(p.end, Color::Rgb(0xf7, 0x76, 0x8e));
    assert_eq!(p.start256, Color::Indexed(150));
    assert_eq!(p.mid256, Color::Indexed(180));
    assert_eq!(p.end256, Color::Indexed(211));
}
