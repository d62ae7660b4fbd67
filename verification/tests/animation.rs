use snake_matrix::animation::Animation;
use snake_matrix::led::CellState;
use snake_matrix::led::Snapshot;

#[test]
fn animation_collects_keyframes_in_order() {
    let mut animation = Animation::new();
    assert_eq!(animation.len(), 0);

    let mut first = Snapshot::new();
    first.set(0, 0, CellState::AnimationStatic(1000));
    animation.push_frame(first, 250);

    let mut second = Snapshot::new();
    second.set(2, 2, CellState::AnimationFadingInterFrame);
    animation.push_frame(second, 500);

    animation.push_frame(Snapshot::new(), 100);

    assert_eq!(animation.len(), 3);
    assert_eq!(animation.frame_at(0).delay_ms, 250);
    assert_eq!(animation.frame_at(0).snapshot.get(0, 0), CellState::AnimationStatic(1000));
    assert_eq!(animation.frame_at(1).delay_ms, 500);
    assert_eq!(animation.frame_at(1).snapshot.get(2, 2), CellState::AnimationFadingInterFrame);
    assert_eq!(animation.frame_at(2).delay_ms, 100);
    assert_eq!(animation.frame_at(2).snapshot.get(2, 2), CellState::Empty);
}
