use tilewalk::animator::Animator;
use tilewalk::components::{Direction, FrameTableError, MovementAnimation, Sprite, Velocity};
use tilewalk::frames::{character_animation, character_animation_frames, FRAMES_PER_DIRECTION};
use tilewalk::geometry::{Rect, MAX_COORD};

const ALL: [Direction; 4] = [Direction::Left, Direction::Right, Direction::Up, Direction::Down];

fn frame(sheet: usize, x: i32, y: i32) -> Sprite {
    Sprite { spritesheet: sheet, region: Rect::new(x, y, 26, 36) }
}

fn table(row: i32, count: i32) -> Vec<Sprite> {
    (0..count).map(|col| frame(0, col * 26, row * 36)).collect()
}

fn walking(direction: Direction) -> Velocity {
    Velocity { speed: 5, direction }
}

fn standing(direction: Direction) -> Velocity {
    Velocity { speed: 0, direction }
}

#[test]
fn frames_of_a_row_are_cut_left_to_right() {
    let frames = character_animation_frames(7, Rect::new(0, 0, 26, 36), Direction::Right);
    assert_eq!(frames, vec![frame(7, 0, 72), frame(7, 26, 72), frame(7, 52, 72)]);
}

#[test]
fn frames_of_every_row() {
    let top_left = Rect::new(0, 0, 26, 36);
    assert_eq!(character_animation_frames(0, top_left, Direction::Down), table(0, 3));
    assert_eq!(character_animation_frames(0, top_left, Direction::Left), table(1, 3));
    assert_eq!(character_animation_frames(0, top_left, Direction::Right), table(2, 3));
    assert_eq!(character_animation_frames(0, top_left, Direction::Up), table(3, 3));
}

#[test]
fn frames_start_from_the_top_left_frame() {
    let frames = character_animation_frames(1, Rect::new(10, 20, 8, 4), Direction::Left);
    assert_eq!(frames.len(), FRAMES_PER_DIRECTION);
    let corners: Vec<(i32, i32, u32, u32)> = frames
        .iter()
        .map(|s| (s.region.x(), s.region.y(), s.region.width(), s.region.height()))
        .collect();
    assert_eq!(corners, vec![(10, 24, 8, 4), (18, 24, 8, 4), (26, 24, 8, 4)]);
}

#[test]
fn frames_stop_at_the_edge_of_the_coordinate_range() {
    let top_left = Rect::new(MAX_COORD, MAX_COORD, u32::MAX, u32::MAX);
    let frames = character_animation_frames(0, top_left, Direction::Up);
    for sprite in frames {
        assert_eq!(sprite.region.x(), MAX_COORD);
        assert_eq!(sprite.region.y(), MAX_COORD);
        assert_eq!(sprite.region.size(), (MAX_COORD as u32, MAX_COORD as u32));
    }
}

#[test]
fn new_animation_shows_the_first_frame() {
    let animation = MovementAnimation::new(table(3, 3), table(0, 3), table(1, 3), table(2, 3))
        .expect("tables of one length");
    assert_eq!(animation.current_frame(), 0);
    assert_eq!(animation.frame_count(), 3);
    assert_eq!(animation.frames(Direction::Up), &table(3, 3));
    assert_eq!(animation.frames(Direction::Down), &table(0, 3));
    assert_eq!(animation.frames(Direction::Left), &table(1, 3));
    assert_eq!(animation.frames(Direction::Right), &table(2, 3));
    assert_eq!(animation.sprite(Direction::Left), frame(0, 0, 36));
}

#[test]
fn empty_table_is_refused() {
    for missing in 0..4 {
        let mut tables = vec![table(3, 3), table(0, 3), table(1, 3), table(2, 3)];
        tables[missing] = Vec::new();
        let right = tables.pop().unwrap();
        let left = tables.pop().unwrap();
        let down = tables.pop().unwrap();
        let up = tables.pop().unwrap();
        let made = MovementAnimation::new(up, down, left, right);
        assert!(matches!(made, Err(FrameTableError::Empty)));
    }
}

#[test]
fn all_tables_empty_is_refused_as_empty() {
    let made = MovementAnimation::new(Vec::new(), Vec::new(), Vec::new(), Vec::new());
    assert!(matches!(made, Err(FrameTableError::Empty)));
}

#[test]
fn empty_wins_over_length_mismatch() {
    let made = MovementAnimation::new(table(3, 2), Vec::new(), table(1, 3), table(2, 3));
    assert!(matches!(made, Err(FrameTableError::Empty)));
}

#[test]
fn tables_of_different_lengths_are_refused() {
    for odd in 0..4 {
        let mut tables = vec![table(3, 3), table(0, 3), table(1, 3), table(2, 3)];
        tables[odd] = table(0, 2);
        let right = tables.pop().unwrap();
        let left = tables.pop().unwrap();
        let down = tables.pop().unwrap();
        let up = tables.pop().unwrap();
        let made = MovementAnimation::new(up, down, left, right);
        assert!(matches!(made, Err(FrameTableError::LengthMismatch)));
    }
}

#[test]
fn single_frame_tables_are_accepted() {
    let mut animation =
        MovementAnimation::new(table(3, 1), table(0, 1), table(1, 1), table(2, 1)).unwrap();
    for _ in 0..5 {
        let sprite = Animator::animate(&mut animation, &walking(Direction::Down));
        assert_eq!(animation.current_frame(), 0);
        assert_eq!(sprite, frame(0, 0, 0));
    }
}

#[test]
fn walking_cycles_through_three_frames() {
    let mut animation = character_animation(0, Rect::new(0, 0, 26, 36));
    let mut seen = vec![animation.current_frame()];
    for _ in 0..8 {
        Animator::animate(&mut animation, &walking(Direction::Right));
        seen.push(animation.current_frame());
    }
    assert_eq!(seen, vec![0, 1, 2, 0, 1, 2, 0, 1, 2]);
}

#[test]
fn walking_emits_the_frame_of_the_new_index() {
    let mut animation = character_animation(4, Rect::new(0, 0, 26, 36));
    let first = Animator::animate(&mut animation, &walking(Direction::Left));
    assert_eq!(first, frame(4, 26, 36));
    let second = Animator::animate(&mut animation, &walking(Direction::Left));
    assert_eq!(second, frame(4, 52, 36));
    let third = Animator::animate(&mut animation, &walking(Direction::Left));
    assert_eq!(third, frame(4, 0, 36));
}

#[test]
fn standing_resets_to_the_first_frame_from_any_frame() {
    for steps in 0..3 {
        let mut animation = character_animation(0, Rect::new(0, 0, 26, 36));
        for _ in 0..steps {
            Animator::animate(&mut animation, &walking(Direction::Up));
        }
        assert_eq!(animation.current_frame(), steps);
        let sprite = Animator::animate(&mut animation, &standing(Direction::Up));
        assert_eq!(animation.current_frame(), 0);
        assert_eq!(sprite, frame(0, 0, 108));
    }
}

#[test]
fn negative_speed_counts_as_moving() {
    let mut animation = character_animation(0, Rect::new(0, 0, 26, 36));
    Animator::animate(&mut animation, &Velocity { speed: -1, direction: Direction::Down });
    assert_eq!(animation.current_frame(), 1);
}

#[test]
fn turning_keeps_the_frame_index_and_changes_the_row() {
    let mut animation = character_animation(0, Rect::new(0, 0, 26, 36));
    Animator::animate(&mut animation, &walking(Direction::Right));
    let turned = Animator::animate(&mut animation, &walking(Direction::Down));
    assert_eq!(animation.current_frame(), 2);
    assert_eq!(turned, frame(0, 52, 0));
}

#[test]
fn animate_leaves_the_tables_alone() {
    let mut animation = character_animation(0, Rect::new(0, 0, 26, 36));
    for direction in ALL {
        Animator::animate(&mut animation, &walking(direction));
    }
    assert_eq!(animation.frames(Direction::Down), &table(0, 3));
    assert_eq!(animation.frames(Direction::Left), &table(1, 3));
    assert_eq!(animation.frames(Direction::Right), &table(2, 3));
    assert_eq!(animation.frames(Direction::Up), &table(3, 3));
    assert_eq!(animation.frame_count(), 3);
}

#[test]
fn character_animation_takes_each_row_for_its_direction() {
    let animation = character_animation(2, Rect::new(0, 0, 26, 36));
    assert_eq!(animation.current_frame(), 0);
    for direction in ALL {
        assert_eq!(
            animation.frames(direction),
            &character_animation_frames(2, Rect::new(0, 0, 26, 36), direction)
        );
    }
    assert_eq!(animation.sprite(Direction::Right), frame(2, 0, 72));
}
