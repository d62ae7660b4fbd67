use snake_matrix::buttons::ButtonCode;
use snake_matrix::difficulty::Difficulty;
use snake_matrix::difficulty::DifficultySelector;
use snake_matrix::led::CellState;

#[test]
fn menu_opens_at_normal() {
    let sel = DifficultySelector::new();
    assert_eq!(sel.difficulty, Difficulty::Normal);
    assert_eq!(sel.get_turn_delay_ms(), 500);
}

#[test]
fn button_a_rotates_through_all_levels() {
    let mut sel = DifficultySelector::new();
    let expected = [
        Difficulty::Hard,
        Difficulty::Insane,
        Difficulty::Hell,
        Difficulty::Easy,
        Difficulty::Normal,
    ];
    for want in expected {
        assert_eq!(sel.is_choice_made(ButtonCode::PressedA), None);
        assert_eq!(sel.difficulty, want);
    }
}

#[test]
fn button_b_confirms_without_changing_the_level() {
    let mut sel = DifficultySelector::new();
    assert_eq!(sel.is_choice_made(ButtonCode::PressedA), None);
    assert_eq!(sel.is_choice_made(ButtonCode::PressedB), Some(()));
    assert_eq!(sel.difficulty, Difficulty::Hard);
}

#[test]
fn turn_delays_per_level() {
    let mut sel = DifficultySelector::new();
    sel.rotate_difficulty();
    assert_eq!(sel.get_turn_delay_ms(), 400);
    sel.rotate_difficulty();
    assert_eq!(sel.get_turn_delay_ms(), 300);
    sel.rotate_difficulty();
    assert_eq!(sel.get_turn_delay_ms(), 200);
    sel.rotate_difficulty();
    assert_eq!(sel.get_turn_delay_ms(), 1000);
    sel.rotate_difficulty();
    assert_eq!(sel.get_turn_delay_ms(), 500);
}

fn blinking_cells(sel: &DifficultySelector) -> Vec<(usize, usize)> {
    let snapshot = sel.get_snapshot();
    let mut cells = Vec::new();
    for col in 0..5 {
        for row in 0..5 {
            match snapshot.get(col, row) {
                CellState::AnimationBlinking => cells.push((col, row)),
                CellState::Empty => {},
                other => panic!("unexpected cell {:?}", other),
            }
        }
    }
    cells
}

#[test]
fn menu_block_grows_with_the_level() {
    let mut sel = DifficultySelector::new();
    // Normal: three columns, two rows deep.
    assert_eq!(blinking_cells(&sel), vec![(1, 3), (1, 4), (2, 3), (2, 4), (3, 3), (3, 4)]);
    sel.rotate_difficulty();
    // Hard: three rows deep.
    assert_eq!(
        blinking_cells(&sel),
        vec![(1, 2), (1, 3), (1, 4), (2, 2), (2, 3), (2, 4), (3, 2), (3, 3), (3, 4)]
    );
    sel.rotate_difficulty();
    sel.rotate_difficulty();
    // Hell: all five rows of the three middle columns.
    assert_eq!(blinking_cells(&sel).len(), 15);
    sel.rotate_difficulty();
    // Easy: a single row.
    assert_eq!(blinking_cells(&sel), vec![(1, 4), (2, 4), (3, 4)]);
}
