use rust_flipit::colors::{color_hex_text, parse_hex_color, rgb_to_bgr};
use rust_flipit::display_type::DisplayType;
use rust_flipit::screensaver::{clock_digits, screen_devices, font_color_argb, preview_action, saver_action, shows_clock, SaverAction, SaverEvent};
use rust_flipit::settings::{FlipItSettings, ScreenSetting};
use rust_flipit::settings_dialog::{apply_dialog_command, DialogCommand, DialogOutcome};

fn settings() -> FlipItSettings {
    let mut second = ScreenSetting::new(2, "DISPLAY2", 800, 600);
    second.display_type = DisplayType::Nothing;
    FlipItSettings {
        display_24h: true,
        show_dst: true,
        scale: 100,
        font_color: 0x00b7b7b7,
        font_alpha: 255,
        screen_settings: vec![ScreenSetting::new(1, "DISPLAY1", 1920, 1080), second],
    }
}

#[test]
fn hex_colours() {
    assert_eq!(parse_hex_color("#FF0000"), Some(0xff0000));
    assert_eq!(parse_hex_color("ff0000"), Some(0xff0000));
    assert_eq!(parse_hex_color("  #00ff00 "), Some(0x00ff00));
    assert_eq!(parse_hex_color("##123456"), None);
    assert_eq!(parse_hex_color("+12345"), None);
    assert_eq!(parse_hex_color("+FFFFF"), None);
    assert_eq!(parse_hex_color("#12345"), None);
    assert_eq!(parse_hex_color("#1234567"), None);
    assert_eq!(parse_hex_color("#GG0000"), None);
    assert_eq!(parse_hex_color("#-12345"), None);
    assert_eq!(parse_hex_color("#12 456"), None);
    assert_eq!(parse_hex_color(""), None);
    assert_eq!(parse_hex_color("é1234"), None);
}

#[test]
fn byte_swap_is_its_own_inverse() {
    assert_eq!(rgb_to_bgr(0x112233), 0x332211);
    assert_eq!(rgb_to_bgr(0xff112233), 0x332211);
    assert_eq!(rgb_to_bgr(rgb_to_bgr(0xabcdef)), 0xabcdef);
    assert_eq!(color_hex_text(0x00b7b7b7), "#B7B7B7");
    assert_eq!(color_hex_text(0x000000ff), "#FF0000");
    assert_eq!(color_hex_text(0xff0a0b0c), "#0C0B0A");
}

#[test]
fn shown_colour_text_reads_back() {
    for c in [0x00b7b7b7u32, 0x000000ff, 0xff0a0b0c, 0x00ffffff, 0, 0x12345678] {
        assert_eq!(parse_hex_color(&color_hex_text(c)), Some(rgb_to_bgr(c & 0xffffff)));
    }
}

#[test]
fn dialog_ok_sets_scale_and_colour() {
    let mut s = settings();
    let r = apply_dialog_command(&mut s, DialogCommand::Accept { slider: 7, color_text: "#FF0000".to_string() });
    assert_eq!(r, DialogOutcome::SaveAndClose);
    assert_eq!(s.scale, 70);
    assert_eq!(s.font_color, 0x0000ff);
    let r = apply_dialog_command(&mut s, DialogCommand::Accept { slider: 0, color_text: "red".to_string() });
    assert_eq!(r, DialogOutcome::SaveAndClose);
    assert_eq!(s.scale, 0);
    assert_eq!(s.font_color, 0x00b7b7b7);
}

#[test]
fn dialog_options_and_cancel() {
    let mut s = settings();
    assert_eq!(apply_dialog_command(&mut s, DialogCommand::SetClock24(false)), DialogOutcome::Stay);
    assert!(!s.display_24h);
    assert_eq!(apply_dialog_command(&mut s, DialogCommand::SetShowDst(false)), DialogOutcome::Stay);
    assert!(!s.show_dst);
    assert_eq!(apply_dialog_command(&mut s, DialogCommand::Cancel), DialogOutcome::Close);
    assert!(!s.display_24h);
    let r = apply_dialog_command(&mut s, DialogCommand::SetDisplay { selected: 1, display: DisplayType::WorldTime });
    assert_eq!(r, DialogOutcome::Stay);
    assert_eq!(s.screen_settings[1].display_type, DisplayType::WorldTime);
    assert_eq!(s.screen_settings[0].display_type, DisplayType::CurrentTime);
    apply_dialog_command(&mut s, DialogCommand::SetDisplay { selected: 5, display: DisplayType::Nothing });
    assert_eq!(s.screen_settings[0].display_type, DisplayType::CurrentTime);
    assert_eq!(s.screen_settings[1].display_type, DisplayType::WorldTime);
}

#[test]
fn mouse_moves_end_the_screensaver_after_warm_up() {
    let mut counter: isize = 0;
    for _ in 0..3 {
        match saver_action(counter, SaverEvent::MouseMove(0x0040_0020)) {
            SaverAction::StoreCounter(c) => counter = c,
            other => panic!("{other:?}"),
        }
    }
    assert_eq!(counter, 3);
    assert_eq!(saver_action(counter, SaverEvent::MouseMove(0x0040_0020)), SaverAction::StoreCounter(0x0040_0020));
    counter = 0x0040_0020;
    assert_eq!(saver_action(counter, SaverEvent::MouseMove(0x0040_0020)), SaverAction::Ignore);
    assert_eq!(saver_action(counter, SaverEvent::MouseMove(0x0040_0021)), SaverAction::Quit);
}

#[test]
fn other_window_events() {
    assert_eq!(saver_action(0, SaverEvent::KeyDown), SaverAction::Quit);
    assert_eq!(saver_action(0, SaverEvent::ButtonDown), SaverAction::Quit);
    assert_eq!(saver_action(5, SaverEvent::Destroy), SaverAction::Quit);
    assert_eq!(saver_action(5, SaverEvent::Paint), SaverAction::Draw);
    assert_eq!(saver_action(5, SaverEvent::Timer), SaverAction::Invalidate);
    assert_eq!(saver_action(5, SaverEvent::Create), SaverAction::Ignore);
    assert_eq!(saver_action(5, SaverEvent::Other), SaverAction::Default);
    assert_eq!(preview_action(SaverEvent::KeyDown), SaverAction::Default);
    assert_eq!(preview_action(SaverEvent::MouseMove(1)), SaverAction::Default);
    assert_eq!(preview_action(SaverEvent::Paint), SaverAction::Draw);
    assert_eq!(preview_action(SaverEvent::Destroy), SaverAction::Quit);
}

#[test]
fn which_screens_show_a_clock() {
    let s = settings();
    assert!(shows_clock(&s, 0));
    assert!(!shows_clock(&s, 1));
    assert!(!shows_clock(&s, 2));
}

#[test]
fn text_colour_with_opacity() {
    assert_eq!(font_color_argb(255, 0x00b7b7b7), 0xffb7b7b7);
    assert_eq!(font_color_argb(128, 0xff123456), 0x80123456);
    assert_eq!(font_color_argb(256, 0x123456), 0x00123456);
}

#[test]
fn clock_digits_are_two_wide() {
    assert_eq!(clock_digits(0, 0), ("00".to_string(), "00".to_string()));
    assert_eq!(clock_digits(9, 5), ("09".to_string(), "05".to_string()));
    assert_eq!(clock_digits(23, 59), ("23".to_string(), "59".to_string()));
}

#[test]
fn screens_from_monitor_rectangles() {
    assert_eq!(screen_devices(&[], 1920, 1080), vec![(1, "DISPLAY1".to_string(), 1920, 1080)]);
    assert_eq!(
        screen_devices(&[(0, 0, 1920, 1080), (-1280, 100, 0, 1124)], 1, 1),
        vec![(1, "DISPLAY1".to_string(), 1920, 1080), (2, "DISPLAY2".to_string(), 1280, 1024)]
    );
}
