use tetris_bane::block::{
    canonical_block, color_of, label_cell_count, rotate_block, rotation_vectors, spawn, Color,
    Label, Position,
};
use tetris_bane::game::Mode;

fn all_labels() -> Vec<Label> {
    vec![
        Label::T,
        Label::S,
        Label::Z,
        Label::L,
        Label::J,
        Label::O,
        Label::I,
        Label::BaneT,
        Label::BaneO,
        Label::BaneS,
        Label::BaneX,
        Label::BaneI,
        Label::BaneL,
        Label::BaneN,
    ]
}

fn classic_mode() -> Mode {
    Mode::Classic { label: String::from("Classic") }
}

fn chill_mode() -> Mode {
    Mode::Chill { label: String::from("Chill") }
}

fn bane_mode() -> Mode {
    Mode::Bane { label: String::from("Bane") }
}

#[test]
fn rotation_full_cycle_returns_every_label_home() {
    for label in all_labels() {
        let mut block = canonical_block(&label, 7);
        let start = block.positions.clone();
        for orientation in 0..4u8 {
            block.positions = rotate_block(&block, orientation);
        }
        assert_eq!(block.positions, start, "label {:?} did not return home", label);
    }
}

#[test]
fn rotation_two_cycle_labels_return_home_in_two_steps() {
    for label in [Label::I, Label::S, Label::Z, Label::BaneI] {
        let mut block = canonical_block(&label, 7);
        let start = block.positions.clone();
        block.positions = rotate_block(&block, 0);
        block.positions = rotate_block(&block, 1);
        assert_eq!(block.positions, start, "label {:?} did not return home", label);
    }
}

#[test]
fn rotation_of_square_labels_is_a_no_op() {
    for label in [Label::O, Label::BaneO, Label::BaneX] {
        let block = canonical_block(&label, 5);
        for orientation in 0..4u8 {
            assert_eq!(rotate_block(&block, orientation), block.positions);
        }
    }
}

#[test]
fn rotation_vectors_of_t_at_step_zero() {
    let v = rotation_vectors(&Label::T, 0);
    assert_eq!(
        v,
        vec![
            Position { y: 0, x: 0 },
            Position { y: 0, x: 0 },
            Position { y: -1, x: -1 },
            Position { y: 0, x: 0 },
        ]
    );
}

#[test]
fn rotation_moves_the_i_piece_into_a_column() {
    let block = canonical_block(&Label::I, 3);
    let rotated = rotate_block(&block, 0);
    assert_eq!(
        rotated,
        vec![
            Position { y: -2, x: 5 },
            Position { y: -1, x: 5 },
            Position { y: 0, x: 5 },
            Position { y: 1, x: 5 },
        ]
    );
}

#[test]
fn canonical_blocks_have_their_labels_cell_count_and_color() {
    for label in all_labels() {
        let block = canonical_block(&label, 3);
        assert_eq!(block.positions.len(), label_cell_count(&label));
        assert_eq!(block.color, color_of(&label));
        assert_eq!(block.label, label);
    }
}

#[test]
fn classic_spawn_is_always_a_canonical_classic_piece() {
    let mode = classic_mode();
    let allowed = [
        Label::I,
        Label::T,
        Label::O,
        Label::S,
        Label::Z,
        Label::J,
        Label::L,
    ];
    let mut seen: Vec<Label> = Vec::new();
    for _ in 0..100 {
        let b = spawn(&mode);
        assert!(allowed.contains(&b.label));
        let canon = canonical_block(&b.label, 3);
        assert_eq!(b.positions, canon.positions);
        assert_eq!(b.color, canon.color);
        if !seen.contains(&b.label) {
            seen.push(b.label);
        }
    }
    assert!(seen.len() >= 2, "a hundred spawns drew a single label");
}

#[test]
fn chill_spawn_draws_only_from_the_reduced_set() {
    let mode = chill_mode();
    for _ in 0..50 {
        let b = spawn(&mode);
        assert!(b.label == Label::O || b.label == Label::I);
        assert_eq!(b.positions, canonical_block(&b.label, 3).positions);
    }
}

#[test]
fn bane_spawn_uses_the_wider_offset_and_extended_set() {
    let mode = bane_mode();
    let allowed = [
        Label::BaneN,
        Label::BaneX,
        Label::BaneS,
        Label::BaneO,
        Label::BaneT,
        Label::BaneI,
        Label::BaneL,
    ];
    for _ in 0..50 {
        let b = spawn(&mode);
        assert!(allowed.contains(&b.label));
        assert_eq!(b.positions, canonical_block(&b.label, 7).positions);
        for p in &b.positions {
            assert!(7 <= p.x && p.x <= 11);
            assert!(0 <= p.y && p.y <= 2);
        }
    }
}

#[test]
fn position_addition_is_component_wise() {
    let p = Position { x: 3, y: 20 } + Position { x: -1, y: 1 };
    assert_eq!(p, Position { x: 2, y: 21 });
}

#[test]
fn colors_carry_their_channels() {
    let c = Color { r: 205, g: 31, b: 72 };
    assert_eq!((c.r, c.g, c.b), (205, 31, 72));
}
