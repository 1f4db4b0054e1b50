use tilewalk::components::{Direction, MotionState, Velocity};
use tilewalk::frames::direction_spritesheet_row;

#[test]
fn opposite_pairs() {
    assert_eq!(Direction::Left.opposite(), Direction::Right);
    assert_eq!(Direction::Right.opposite(), Direction::Left);
    assert_eq!(Direction::Up.opposite(), Direction::Down);
    assert_eq!(Direction::Down.opposite(), Direction::Up);
}

#[test]
fn opposite_is_an_involution_without_fixed_point() {
    for dir in [Direction::Left, Direction::Right, Direction::Up, Direction::Down] {
        assert_eq!(dir.opposite().opposite(), dir);
        assert_ne!(dir.opposite(), dir);
    }
}

#[test]
fn index_follows_declaration_order() {
    assert_eq!(Direction::Left.index(), 0);
    assert_eq!(Direction::Right.index(), 1);
    assert_eq!(Direction::Up.index(), 2);
    assert_eq!(Direction::Down.index(), 3);
}

#[test]
fn spritesheet_rows() {
    assert_eq!(direction_spritesheet_row(Direction::Down), 0);
    assert_eq!(direction_spritesheet_row(Direction::Left), 1);
    assert_eq!(direction_spritesheet_row(Direction::Right), 2);
    assert_eq!(direction_spritesheet_row(Direction::Up), 3);
}

#[test]
fn motion_state_is_idle_without_speed() {
    for direction in [Direction::Left, Direction::Right, Direction::Up, Direction::Down] {
        assert_eq!(Velocity { speed: 0, direction }.motion_state(), MotionState::Idle);
    }
}

#[test]
fn motion_state_follows_the_direction() {
    let moving = |direction| Velocity { speed: 5, direction }.motion_state();
    assert_eq!(moving(Direction::Left), MotionState::MovingLeft);
    assert_eq!(moving(Direction::Right), MotionState::MovingRight);
    assert_eq!(moving(Direction::Up), MotionState::MovingUp);
    assert_eq!(moving(Direction::Down), MotionState::MovingDown);
    assert_eq!(
        Velocity { speed: -5, direction: Direction::Up }.motion_state(),
        MotionState::MovingUp
    );
}
