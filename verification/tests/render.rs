use snake_matrix::led::CellState;
use snake_matrix::led::Frame;
use snake_matrix::led::Render;
use snake_matrix::led::Snapshot;
use snake_matrix::led::plan_slot;
use snake_matrix::mailbox::Mailbox;
use snake_matrix::led::send_snapshot;
use snake_matrix::pixel::PixelState;

fn brightness_of(p: PixelState) -> u16 {
    match p {
        PixelState::Off => 0,
        PixelState::Solid(b) => b,
        PixelState::Blinking(s) => s.brightness,
        PixelState::Fading(s) => s.brightness,
        PixelState::FlareUp(s) => s.brightness,
    }
}

#[test]
fn snake_head_lights_solid_rest_off() {
    // Scenario: SnakeHead at (2,2), Empty elsewhere.
    let mut render = Render::new();
    let mut snapshot = Snapshot::new();
    snapshot.set(2, 2, CellState::SnakeHead);
    let frame = render.render(snapshot, &Frame::new());
    for col in 0..5 {
        for row in 0..5 {
            if col == 2 && row == 2 {
                assert_eq!(frame.get(col, row), PixelState::Solid(1000));
            } else {
                assert_eq!(frame.get(col, row), PixelState::Off);
            }
        }
    }
}

#[test]
fn snake_tail_is_dim_static_is_clamped() {
    let mut render = Render::new();
    let mut snapshot = Snapshot::new();
    snapshot.set(0, 0, CellState::SnakeTail);
    snapshot.set(1, 0, CellState::AnimationStatic(700));
    snapshot.set(2, 0, CellState::AnimationStatic(2000));
    let frame = render.render(snapshot, &Frame::new());
    assert_eq!(frame.get(0, 0), PixelState::Solid(100));
    assert_eq!(frame.get(1, 0), PixelState::Solid(700));
    assert_eq!(frame.get(2, 0), PixelState::Solid(1000));
}

#[test]
fn fading_cell_decays_across_renders_and_holds_at_zero() {
    // Scenario: (0,0) stays AnimationFadingInterFrame over consecutive
    // renders with one driver evolution in between: the brightness falls by
    // the fixed step each time, reaches zero and holds.
    let mut render = Render::new();
    let mut frame = Frame::new();

    let mut snapshot = Snapshot::new();
    snapshot.set(0, 0, CellState::AnimationFadingInterFrame);
    frame = render.render(snapshot, &frame);
    match frame.get(0, 0) {
        PixelState::Fading(s) => assert_eq!(s.brightness, 1000),
        other => panic!("expected a fading pixel, got {:?}", other),
    }

    let mut expected: u16 = 1000;
    for _ in 0..25 {
        frame.evolve();
        expected = expected.saturating_sub(50);
        let mut snapshot = Snapshot::new();
        snapshot.set(0, 0, CellState::AnimationFadingInterFrame);
        frame = render.render(snapshot, &frame);
        match frame.get(0, 0) {
            PixelState::Fading(s) => assert_eq!(s.brightness, expected),
            other => panic!("expected a fading pixel, got {:?}", other),
        }
    }
    assert_eq!(expected, 0);
}

#[test]
fn fading_cell_resets_when_state_changed_in_between() {
    let mut render = Render::new();
    let mut frame = Frame::new();

    let mut snapshot = Snapshot::new();
    snapshot.set(3, 4, CellState::AnimationFadingInterFrame);
    frame = render.render(snapshot, &frame);
    frame.evolve();
    frame.evolve();

    // The cell changes to Empty for one snapshot...
    let snapshot = Snapshot::new();
    frame = render.render(snapshot, &frame);
    assert_eq!(frame.get(3, 4), PixelState::Off);

    // ...so the next fade starts over at the maximum.
    let mut snapshot = Snapshot::new();
    snapshot.set(3, 4, CellState::AnimationFadingInterFrame);
    frame = render.render(snapshot, &frame);
    match frame.get(3, 4) {
        PixelState::Fading(s) => assert_eq!(s.brightness, 1000),
        other => panic!("expected a fading pixel, got {:?}", other),
    }
}

#[test]
fn flareup_cell_rises_across_renders_and_resets_on_change() {
    let mut render = Render::new();
    let mut frame = Frame::new();

    let mut snapshot = Snapshot::new();
    snapshot.set(1, 1, CellState::AnimationFlareUpInterFrame);
    frame = render.render(snapshot, &frame);
    match frame.get(1, 1) {
        PixelState::FlareUp(s) => assert_eq!(s.brightness, 0),
        other => panic!("expected a flaring pixel, got {:?}", other),
    }

    frame.evolve();
    let mut snapshot = Snapshot::new();
    snapshot.set(1, 1, CellState::AnimationFlareUpInterFrame);
    frame = render.render(snapshot, &frame);
    match frame.get(1, 1) {
        PixelState::FlareUp(s) => assert_eq!(s.brightness, 50),
        other => panic!("expected a flaring pixel, got {:?}", other),
    }

    let snapshot = Snapshot::new();
    frame = render.render(snapshot, &frame);
    let mut snapshot = Snapshot::new();
    snapshot.set(1, 1, CellState::AnimationFlareUpInterFrame);
    frame = render.render(snapshot, &frame);
    match frame.get(1, 1) {
        PixelState::FlareUp(s) => assert_eq!(s.brightness, 0),
        other => panic!("expected a flaring pixel, got {:?}", other),
    }
}

#[test]
fn food_blink_continues_then_goes_off() {
    // Scenario: (1,1) is Food for three renders with an evolution between
    // each, so the blink phase carries over; at the fourth render the cell
    // is Empty and the pixel goes off.
    let mut render = Render::new();
    let mut frame = Frame::new();

    let mut snapshot = Snapshot::new();
    snapshot.set(1, 1, CellState::Food);
    frame = render.render(snapshot, &frame);
    match frame.get(1, 1) {
        PixelState::Blinking(s) => {
            assert_eq!(s.brightness, 1000);
            assert!(s.fading);
        },
        other => panic!("expected a blinking pixel, got {:?}", other),
    }

    frame.evolve();
    let mut snapshot = Snapshot::new();
    snapshot.set(1, 1, CellState::Food);
    frame = render.render(snapshot, &frame);
    match frame.get(1, 1) {
        PixelState::Blinking(s) => {
            assert_eq!(s.brightness, 900);
            assert!(s.fading);
        },
        other => panic!("expected a blinking pixel, got {:?}", other),
    }

    frame.evolve();
    let mut snapshot = Snapshot::new();
    snapshot.set(1, 1, CellState::Food);
    frame = render.render(snapshot, &frame);
    match frame.get(1, 1) {
        PixelState::Blinking(s) => {
            assert_eq!(s.brightness, 800);
            assert!(s.fading);
        },
        other => panic!("expected a blinking pixel, got {:?}", other),
    }

    frame.evolve();
    let snapshot = Snapshot::new();
    frame = render.render(snapshot, &frame);
    assert_eq!(frame.get(1, 1), PixelState::Off);
}

#[test]
fn blinking_cell_restarts_on_every_snapshot() {
    let mut render = Render::new();
    let mut frame = Frame::new();

    let mut snapshot = Snapshot::new();
    snapshot.set(4, 4, CellState::AnimationBlinking);
    frame = render.render(snapshot, &frame);
    frame.evolve();
    frame.evolve();

    // Even with the same state in consecutive snapshots, the blink is
    // re-initialized.
    let mut snapshot = Snapshot::new();
    snapshot.set(4, 4, CellState::AnimationBlinking);
    frame = render.render(snapshot, &frame);
    match frame.get(4, 4) {
        PixelState::Blinking(s) => {
            assert_eq!(s.brightness, 1000);
            assert!(s.fading);
        },
        other => panic!("expected a blinking pixel, got {:?}", other),
    }
}

#[test]
fn plan_slot_fills_the_whole_slot() {
    let (plan, next) = plan_slot(PixelState::Off);
    assert_eq!(plan.lit_micros, 0);
    assert_eq!(plan.dark_micros, 1000);
    assert_eq!(next, PixelState::Off);

    let (plan, next) = plan_slot(PixelState::Solid(300));
    assert_eq!(plan.lit_micros, 300);
    assert_eq!(plan.dark_micros, 700);
    assert_eq!(next, PixelState::Solid(300));

    let fading = {
        let mut render = Render::new();
        let mut snapshot = Snapshot::new();
        snapshot.set(0, 0, CellState::AnimationFadingInterFrame);
        render.render(snapshot, &Frame::new()).get(0, 0)
    };
    let (plan, next) = plan_slot(fading);
    assert_eq!(plan.lit_micros, 1000);
    assert_eq!(plan.dark_micros, 0);
    assert_eq!(brightness_of(next), 950);
}

#[test]
fn send_snapshot_lands_in_the_mailbox() {
    let mut channel: Mailbox<Snapshot> = Mailbox::new();
    let mut snapshot = Snapshot::new();
    snapshot.set(2, 3, CellState::Food);
    send_snapshot(&mut channel, snapshot);
    let got = channel.try_read().unwrap();
    assert_eq!(got.get(2, 3), CellState::Food);
    assert_eq!(got.get(0, 0), CellState::Empty);
    assert!(channel.try_read().is_none());
}
