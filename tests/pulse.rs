use rgbcal::rgb::{Pulse, Rgb};
use rgbcal::settings::{Settings, MAX_FRAME_RATE};
use rgbcal::{INITIAL_FRAME_RATE, LEVELS};

fn sweep_micros<P>(rgb: &Rgb<P>) -> u64 {
    let mut total = 0u64;
    for led in 0..3 {
        let p = rgb.step(led);
        total += p.on_micros.unwrap_or(0) + p.off_micros.unwrap_or(0);
    }
    total
}

#[test]
fn tick_time_values() {
    assert_eq!(Rgb::<u8>::frame_tick_time(50), 416);
    assert_eq!(Rgb::<u8>::frame_tick_time(60), 347);
    assert_eq!(Rgb::<u8>::frame_tick_time(100), 208);
    assert_eq!(Rgb::<u8>::frame_tick_time(10), 2083);
    assert_eq!(Rgb::<u8>::frame_tick_time(160), 130);
}

#[test]
fn new_generator_is_dark() {
    let rgb = Rgb::new([7u8, 8, 9], INITIAL_FRAME_RATE);
    assert_eq!(rgb.rgb, [7, 8, 9]);
    for led in 0..3 {
        assert_eq!(
            rgb.step(led),
            Pulse { on_micros: None, off_micros: Some(16 * 416) }
        );
    }
}

#[test]
fn pulses_follow_levels() {
    let mut rgb = Rgb::new([(), (), ()], 50);
    rgb.refresh(&Settings { levels: [15, 0, 7], frame_rate: 100 });
    assert_eq!(rgb.step(0), Pulse { on_micros: Some(3120), off_micros: Some(208) });
    assert_eq!(rgb.step(1), Pulse { on_micros: None, off_micros: Some(3328) });
    assert_eq!(rgb.step(2), Pulse { on_micros: Some(1456), off_micros: Some(1872) });
}

#[test]
fn level_zero_and_top_level_edges() {
    let mut rgb = Rgb::new([(), (), ()], 50);
    rgb.refresh(&Settings { levels: [0, LEVELS - 1, 3], frame_rate: 50 });
    let low = rgb.step(0);
    assert_eq!(low.on_micros, None);
    assert_eq!(low.off_micros, Some(LEVELS as u64 * 416));
    let high = rgb.step(1);
    assert_eq!(high.on_micros, Some((LEVELS as u64 - 1) * 416));
    assert_eq!(high.off_micros, Some(416));
}

#[test]
fn sweep_time_matches_refresh_rate() {
    let mut rgb = Rgb::new([(), (), ()], 50);
    for frame_rate in 1..=MAX_FRAME_RATE {
        rgb.refresh(&Settings { levels: [1, 9, 14], frame_rate });
        let total = sweep_micros(&rgb);
        let tick = Rgb::<()>::frame_tick_time(frame_rate);
        assert_eq!(total, 3 * LEVELS as u64 * tick);
        assert!(total * frame_rate <= 1_000_000);
        assert!(1_000_000 / frame_rate - total < tick);
    }
}

#[test]
fn sweep_time_at_hundred() {
    let mut rgb = Rgb::new([(), (), ()], 50);
    rgb.refresh(&Settings { levels: [15, 0, 7], frame_rate: 100 });
    assert_eq!(sweep_micros(&rgb), 9984);
}

#[test]
fn settings_default() {
    let s = Settings::default();
    assert_eq!(s.levels, [15, 15, 15]);
    assert_eq!(s.frame_rate, 50);
}
