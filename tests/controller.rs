use rgbcal::knob::quantize;
use rgbcal::rgb::Rgb;
use rgbcal::ui::{target, Param, Ui, UiState};

fn fresh() -> Ui<(), ()> {
    Ui::new((), (), ())
}

#[test]
fn target_table() {
    assert_eq!(target(false, false), Param::FrameRate);
    assert_eq!(target(true, false), Param::Blue);
    assert_eq!(target(false, true), Param::Green);
    assert_eq!(target(true, true), Param::Red);
}

#[test]
fn default_state() {
    let ui = fresh();
    assert_eq!(ui.state, UiState { levels: [15, 15, 15], frame_rate: 100 });
    assert_eq!(UiState::default(), ui.state);
}

#[test]
fn no_buttons_set_frame_rate() {
    let mut ui = fresh();
    assert!(ui.update(false, false, 3));
    assert_eq!(ui.state, UiState { levels: [15, 15, 15], frame_rate: 40 });
}

#[test]
fn button_a_sets_blue() {
    let mut ui = fresh();
    assert!(ui.update(true, false, 3));
    assert_eq!(ui.state, UiState { levels: [15, 15, 3], frame_rate: 100 });
}

#[test]
fn button_b_sets_green() {
    let mut ui = fresh();
    assert!(ui.update(false, true, 3));
    assert_eq!(ui.state, UiState { levels: [15, 3, 15], frame_rate: 100 });
}

#[test]
fn both_buttons_set_red() {
    let mut ui = fresh();
    assert!(ui.update(true, true, 3));
    assert_eq!(ui.state, UiState { levels: [3, 15, 15], frame_rate: 100 });
}

#[test]
fn repeated_level_is_no_change() {
    let mut ui = fresh();
    assert!(ui.update(true, false, 4));
    assert!(!ui.update(true, false, 4));
    assert!(ui.update(true, false, 5));
    assert!(ui.update(false, false, 4));
    assert!(!ui.update(false, false, 4));
    assert!(ui.update(false, false, 5));
}

#[test]
fn unchanged_frame_rate_level_is_no_change() {
    // The default refresh rate 100 is the one set by level 9.
    let mut ui = fresh();
    assert!(!ui.update(false, false, 9));
    assert_eq!(ui.state.frame_rate, 100);
}

#[test]
fn frame_rate_floor() {
    let mut ui = fresh();
    assert!(ui.update(false, false, 0));
    assert_eq!(ui.state.frame_rate, 10);
    assert!(ui.update(false, false, 15));
    assert_eq!(ui.state.frame_rate, 160);
}

#[test]
fn show_lines() {
    let lines = fresh().state.show();
    assert_eq!(lines, vec!["red: 15", "green: 15", "blue: 15", "frame rate: 100"]);
    let s = UiState { levels: [0, 7, 12], frame_rate: 40 };
    assert_eq!(s.show(), vec!["red: 0", "green: 7", "blue: 12", "frame rate: 40"]);
}

#[test]
fn snapshot_matches_state() {
    let mut ui = fresh();
    ui.update(true, true, 2);
    let s = ui.state.settings();
    assert_eq!(s.levels, [2, 15, 15]);
    assert_eq!(s.frame_rate, 100);
}

#[test]
fn knob_sets_frame_rate_then_sweep_follows() {
    let mut ui = fresh();
    let level = quantize(4000);
    assert_eq!(level, 5);
    assert!(ui.update(false, false, level));
    assert_eq!(ui.state.frame_rate, 60);
    let mut rgb = Rgb::new([(), (), ()], 50);
    rgb.refresh(&ui.state.settings());
    let mut total = 0u64;
    for led in 0..3 {
        let p = rgb.step(led);
        total += p.on_micros.unwrap_or(0) + p.off_micros.unwrap_or(0);
    }
    assert_eq!(total, 16656);
    assert!(1_000_000 / 60 - total < Rgb::<()>::frame_tick_time(60));
}

#[test]
fn knob_at_zero_turns_red_off() {
    let mut ui = fresh();
    let level = quantize(0);
    assert!(ui.update(true, true, level));
    assert_eq!(ui.state.levels[0], 0);
    let mut rgb = Rgb::new([(), (), ()], 50);
    rgb.refresh(&ui.state.settings());
    let red = rgb.step(0);
    assert_eq!(red.on_micros, None);
    assert_eq!(red.off_micros, Some(16 * 208));
}
