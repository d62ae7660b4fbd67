use snake_matrix::pixel::BlinkingPixel;
use snake_matrix::pixel::FadingPixel;
use snake_matrix::pixel::FlareUpPixel;
use snake_matrix::pixel::PixelState;
use snake_matrix::pixel::evolve_pixel;

#[test]
fn blinking_starts_at_max_falling() {
    let p = BlinkingPixel::new();
    assert_eq!(p.brightness, 1000);
    assert!(p.fading);
}

#[test]
fn blinking_steps_down_by_100_while_falling() {
    let mut p = BlinkingPixel::new();
    p.process();
    assert_eq!(p.brightness, 900);
    assert!(p.fading);
    p.process();
    assert_eq!(p.brightness, 800);
    assert!(p.fading);
}

#[test]
fn blinking_turns_around_at_the_bottom() {
    let mut p = BlinkingPixel::new();
    for _ in 0..10 {
        p.process();
    }
    assert_eq!(p.brightness, 0);
    assert!(!p.fading);
    p.process();
    assert_eq!(p.brightness, 100);
    assert!(!p.fading);
}

#[test]
fn blinking_turns_around_at_the_top() {
    let mut p = BlinkingPixel::new();
    for _ in 0..19 {
        p.process();
    }
    assert_eq!(p.brightness, 900);
    assert!(!p.fading);
    p.process();
    assert_eq!(p.brightness, 1000);
    assert!(p.fading);
}

#[test]
fn blinking_full_cycle_round_trip() {
    let mut p = BlinkingPixel::new();
    let start = p;
    for _ in 0..20 {
        p.process();
    }
    assert_eq!(p, start);
}

#[test]
fn blinking_round_trip_from_mid_cycle() {
    let mut p = BlinkingPixel::new();
    for _ in 0..7 {
        p.process();
    }
    let start = p;
    for _ in 0..20 {
        p.process();
    }
    assert_eq!(p, start);
}

#[test]
fn fading_starts_at_max() {
    let p = FadingPixel::new();
    assert_eq!(p.brightness, 1000);
}

#[test]
fn fading_never_increases_and_halts_at_zero() {
    let mut p = FadingPixel::new();
    let mut last = p.brightness;
    for _ in 0..30 {
        p.process();
        assert!(p.brightness <= last);
        last = p.brightness;
    }
    assert_eq!(p.brightness, 0);
    p.process();
    assert_eq!(p.brightness, 0);
}

#[test]
fn fading_steps_down_by_50() {
    let mut p = FadingPixel::new();
    p.process();
    assert_eq!(p.brightness, 950);
    p.process();
    assert_eq!(p.brightness, 900);
}

#[test]
fn fading_reaches_zero_after_twenty_steps() {
    let mut p = FadingPixel::new();
    for _ in 0..20 {
        p.process();
    }
    assert_eq!(p.brightness, 0);
}

#[test]
fn flareup_starts_dark() {
    let p = FlareUpPixel::new();
    assert_eq!(p.brightness, 0);
}

#[test]
fn flareup_never_decreases_and_halts_at_max() {
    let mut p = FlareUpPixel::new();
    let mut last = p.brightness;
    for _ in 0..30 {
        p.process();
        assert!(p.brightness >= last);
        last = p.brightness;
    }
    assert_eq!(p.brightness, 1000);
    p.process();
    assert_eq!(p.brightness, 1000);
}

#[test]
fn flareup_steps_up_by_50() {
    let mut p = FlareUpPixel::new();
    p.process();
    assert_eq!(p.brightness, 50);
    p.process();
    assert_eq!(p.brightness, 100);
}

#[test]
fn evolve_keeps_off_and_solid() {
    assert_eq!(evolve_pixel(PixelState::Off), PixelState::Off);
    assert_eq!(evolve_pixel(PixelState::Solid(700)), PixelState::Solid(700));
}

#[test]
fn evolve_advances_each_animation() {
    let b = evolve_pixel(PixelState::Blinking(BlinkingPixel::new()));
    match b {
        PixelState::Blinking(s) => {
            assert_eq!(s.brightness, 900);
            assert!(s.fading);
        },
        _ => panic!("expected a blinking pixel"),
    }
    let f = evolve_pixel(PixelState::Fading(FadingPixel::new()));
    match f {
        PixelState::Fading(s) => assert_eq!(s.brightness, 950),
        _ => panic!("expected a fading pixel"),
    }
    let u = evolve_pixel(PixelState::FlareUp(FlareUpPixel::new()));
    match u {
        PixelState::FlareUp(s) => assert_eq!(s.brightness, 50),
        _ => panic!("expected a flaring pixel"),
    }
}
