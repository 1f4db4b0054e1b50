use tilewalk::components::{Direction, Velocity};
use tilewalk::constants::PLAYER_MOVEMENT_SPEED;
use tilewalk::input::{Controls, InputBuffer, InputEvent};

const ALL: [Direction; 4] = [Direction::Left, Direction::Right, Direction::Up, Direction::Down];

fn held(buffer: &InputBuffer, dir: Direction) -> bool {
    assert_eq!(buffer.is_held(dir), buffer.dir_state[dir.index()]);
    buffer.is_held(dir)
}

fn tail_is_held(buffer: &InputBuffer) -> bool {
    match buffer.dir_queue.last() {
        Some(dir) => held(buffer, *dir),
        None => true,
    }
}

fn every_held_is_queued(buffer: &InputBuffer) -> bool {
    ALL.iter().all(|dir| !held(buffer, *dir) || buffer.dir_queue.contains(dir))
}

#[test]
fn new_buffer_is_empty_and_rests() {
    let buffer = InputBuffer::new();
    assert!(buffer.dir_queue.is_empty());
    assert_eq!(buffer.dir_state, [false; 4]);
    assert_eq!(
        buffer.get_velocity(Direction::Up),
        Velocity { speed: 0, direction: Direction::Up }
    );
}

#[test]
fn press_marks_held_and_appends() {
    let mut buffer = InputBuffer::new();
    buffer.add_direction(Direction::Up);
    assert!(held(&buffer, Direction::Up));
    assert_eq!(buffer.dir_state, [false, false, true, false]);
    assert_eq!(buffer.dir_queue, vec![Direction::Up]);
    assert_eq!(
        buffer.get_velocity(Direction::Right),
        Velocity { speed: PLAYER_MOVEMENT_SPEED, direction: Direction::Up }
    );
}

#[test]
fn each_direction_has_its_own_flag() {
    for (place, dir) in ALL.iter().enumerate() {
        let mut buffer = InputBuffer::new();
        buffer.add_direction(*dir);
        let mut expected = [false; 4];
        expected[place] = true;
        assert_eq!(buffer.dir_state, expected);
    }
}

#[test]
fn movement_speed_is_five() {
    let mut buffer = InputBuffer::new();
    buffer.add_direction(Direction::Down);
    assert_eq!(buffer.get_velocity(Direction::Right).speed, 5);
}

#[test]
fn release_falls_back_to_older_held_key() {
    let mut buffer = InputBuffer::new();
    buffer.add_direction(Direction::Left);
    buffer.add_direction(Direction::Right);
    buffer.remove_direction(Direction::Right);
    assert_eq!(buffer.dir_queue, vec![Direction::Left]);
    assert_eq!(
        buffer.get_velocity(Direction::Down),
        Velocity { speed: 5, direction: Direction::Left }
    );
}

#[test]
fn opposite_keys_cancel_left_then_right() {
    let mut buffer = InputBuffer::new();
    buffer.add_direction(Direction::Left);
    buffer.add_direction(Direction::Right);
    assert_eq!(
        buffer.get_velocity(Direction::Up),
        Velocity { speed: 0, direction: Direction::Right }
    );
}

#[test]
fn opposite_keys_cancel_right_then_left() {
    let mut buffer = InputBuffer::new();
    buffer.add_direction(Direction::Right);
    buffer.add_direction(Direction::Left);
    assert_eq!(
        buffer.get_velocity(Direction::Up),
        Velocity { speed: 0, direction: Direction::Left }
    );
}

#[test]
fn opposite_keys_cancel_up_and_down() {
    let mut buffer = InputBuffer::new();
    buffer.add_direction(Direction::Down);
    buffer.add_direction(Direction::Up);
    assert_eq!(
        buffer.get_velocity(Direction::Left),
        Velocity { speed: 0, direction: Direction::Up }
    );
}

#[test]
fn perpendicular_keys_do_not_cancel() {
    let mut buffer = InputBuffer::new();
    buffer.add_direction(Direction::Left);
    buffer.add_direction(Direction::Up);
    assert_eq!(
        buffer.get_velocity(Direction::Right),
        Velocity { speed: 5, direction: Direction::Up }
    );
}

#[test]
fn releasing_everything_rests_and_keeps_saved_direction() {
    let mut buffer = InputBuffer::new();
    buffer.add_direction(Direction::Left);
    buffer.add_direction(Direction::Up);
    buffer.add_direction(Direction::Right);
    buffer.remove_direction(Direction::Up);
    buffer.remove_direction(Direction::Left);
    buffer.remove_direction(Direction::Right);
    assert!(buffer.dir_queue.is_empty());
    assert_eq!(buffer.dir_state, [false; 4]);
    assert_eq!(
        buffer.get_velocity(Direction::Down),
        Velocity { speed: 0, direction: Direction::Down }
    );
}

#[test]
fn release_clears_flag_and_leaves_held_tail() {
    let mut buffer = InputBuffer::new();
    let presses = [
        Direction::Left,
        Direction::Up,
        Direction::Right,
        Direction::Down,
        Direction::Up,
        Direction::Left,
    ];
    for dir in presses {
        buffer.add_direction(dir);
    }
    for dir in [Direction::Up, Direction::Left, Direction::Down, Direction::Right] {
        buffer.remove_direction(dir);
        assert!(!held(&buffer, dir));
        assert!(tail_is_held(&buffer));
        assert!(every_held_is_queued(&buffer));
    }
    assert!(buffer.dir_queue.is_empty());
}

#[test]
fn release_only_trims_from_the_end() {
    let mut buffer = InputBuffer::new();
    buffer.add_direction(Direction::Left);
    buffer.add_direction(Direction::Right);
    buffer.remove_direction(Direction::Left);
    assert_eq!(buffer.dir_queue, vec![Direction::Left, Direction::Right]);
    assert_eq!(
        buffer.get_velocity(Direction::Up),
        Velocity { speed: 5, direction: Direction::Right }
    );
    buffer.remove_direction(Direction::Right);
    assert!(buffer.dir_queue.is_empty());
}

#[test]
fn pressing_a_held_key_again_pushes_a_duplicate() {
    let mut buffer = InputBuffer::new();
    buffer.add_direction(Direction::Up);
    buffer.add_direction(Direction::Up);
    assert_eq!(buffer.dir_queue, vec![Direction::Up, Direction::Up]);
    assert_eq!(buffer.dir_state, [false, false, true, false]);
    buffer.remove_direction(Direction::Up);
    assert!(buffer.dir_queue.is_empty());
    assert_eq!(buffer.get_velocity(Direction::Up).speed, 0);
}

#[test]
fn releasing_a_key_that_was_never_pressed_changes_nothing() {
    let mut buffer = InputBuffer::new();
    buffer.add_direction(Direction::Down);
    buffer.remove_direction(Direction::Left);
    assert_eq!(buffer.dir_queue, vec![Direction::Down]);
    assert_eq!(buffer.dir_state, [false, false, false, true]);
}

#[test]
fn stale_entry_is_shadowed_by_a_new_press() {
    let mut buffer = InputBuffer::new();
    buffer.add_direction(Direction::Left);
    buffer.add_direction(Direction::Right);
    buffer.remove_direction(Direction::Left);
    buffer.add_direction(Direction::Left);
    assert_eq!(
        buffer.dir_queue,
        vec![Direction::Left, Direction::Right, Direction::Left]
    );
    assert_eq!(
        buffer.get_velocity(Direction::Up),
        Velocity { speed: 0, direction: Direction::Left }
    );
    buffer.remove_direction(Direction::Right);
    assert_eq!(
        buffer.get_velocity(Direction::Up),
        Velocity { speed: 5, direction: Direction::Left }
    );
}

#[test]
fn rapid_opposite_presses_and_releases() {
    let mut buffer = InputBuffer::new();
    for _ in 0..100 {
        buffer.add_direction(Direction::Left);
        buffer.add_direction(Direction::Right);
        assert_eq!(
            buffer.get_velocity(Direction::Up),
            Velocity { speed: 0, direction: Direction::Right }
        );
        buffer.remove_direction(Direction::Left);
        assert_eq!(
            buffer.get_velocity(Direction::Up),
            Velocity { speed: 5, direction: Direction::Right }
        );
        buffer.remove_direction(Direction::Right);
        assert!(buffer.dir_queue.is_empty());
    }
}

#[test]
fn resolving_twice_gives_the_same_velocity() {
    let mut buffer = InputBuffer::new();
    buffer.add_direction(Direction::Down);
    buffer.add_direction(Direction::Left);
    let first = buffer.get_velocity(Direction::Right);
    let second = buffer.get_velocity(Direction::Right);
    assert_eq!(first, second);
    let third = buffer.get_velocity(first.direction);
    assert_eq!(first, third);
    let empty = InputBuffer::new();
    assert_eq!(empty.get_velocity(Direction::Up), empty.get_velocity(Direction::Up));
}

#[test]
fn controls_start_at_rest_facing_right() {
    let controls = Controls::new();
    assert_eq!(controls.last_dir, Direction::Right);
    assert!(controls.buffer.dir_queue.is_empty());
    assert_eq!(
        controls.buffer.get_velocity(controls.last_dir),
        Velocity { speed: 0, direction: Direction::Right }
    );
}

#[test]
fn controls_remember_the_last_direction() {
    let mut controls = Controls::new();
    assert_eq!(
        controls.handle_event(InputEvent::Press(Direction::Up)),
        Some(Velocity { speed: 5, direction: Direction::Up })
    );
    assert_eq!(
        controls.handle_event(InputEvent::Release(Direction::Up)),
        Some(Velocity { speed: 0, direction: Direction::Up })
    );
    assert_eq!(controls.last_dir, Direction::Up);
    assert_eq!(
        controls.handle_event(InputEvent::Other),
        Some(Velocity { speed: 0, direction: Direction::Up })
    );
}

#[test]
fn controls_quit_changes_nothing() {
    let mut controls = Controls::new();
    controls.handle_event(InputEvent::Press(Direction::Down));
    assert_eq!(controls.handle_event(InputEvent::Quit), None);
    assert_eq!(controls.last_dir, Direction::Down);
    assert_eq!(controls.buffer.dir_queue, vec![Direction::Down]);
    assert_eq!(controls.buffer.dir_state, [false, false, false, true]);
}

#[test]
fn controls_other_events_leave_the_buffer_alone() {
    let mut controls = Controls::new();
    controls.handle_event(InputEvent::Press(Direction::Left));
    let before = controls.buffer.dir_queue.clone();
    assert_eq!(
        controls.handle_event(InputEvent::Other),
        Some(Velocity { speed: 5, direction: Direction::Left })
    );
    assert_eq!(controls.buffer.dir_queue, before);
}

#[test]
fn newest_held_key_wins_over_a_session() {
    let mut controls = Controls::new();
    let session = [
        InputEvent::Press(Direction::Left),
        InputEvent::Press(Direction::Up),
        InputEvent::Press(Direction::Right),
        InputEvent::Release(Direction::Up),
        InputEvent::Release(Direction::Right),
    ];
    let mut last = None;
    for event in session {
        last = controls.handle_event(event);
    }
    assert_eq!(last, Some(Velocity { speed: 5, direction: Direction::Left }));
}
