//! Cuts the walk cycles of a character out of a sprite sheet.
//!
//! A sheet holds one row of frames per direction and one column per step of
//! the walk, every frame of the size of the one in the top-left corner.

use crate::components::{Direction, MovementAnimation, Sprite};
use crate::geometry::{
    clamp_position, clamp_to_position, is_position, is_size, Rect, RectView, MAX_COORD,
};
use vstd::prelude::*;

verus! {

/// How many frames the walk cycle of a direction has on a sheet.
pub const FRAMES_PER_DIRECTION: usize = 3;

/// The row of the sheet that holds the frames of `direction`.
pub open spec fn spec_direction_spritesheet_row(direction: Direction) -> i32 {
    match direction {
        Direction::Left => 1,
        Direction::Right => 2,
        Direction::Up => 3,
        Direction::Down => 0,
    }
}

/// The row of the sheet that holds the frames of `direction`: Down first,
/// then Left, Right and Up.
#[verifier::when_used_as_spec(spec_direction_spritesheet_row)]
pub fn direction_spritesheet_row(direction: Direction) -> (row: i32)
    ensures
        row == spec_direction_spritesheet_row(direction),
        0 <= row < 4,
{
    match direction {
        Direction::Left => 1,
        Direction::Right => 2,
        Direction::Up => 3,
        Direction::Down => 0,
    }
}

/// No two directions share a row of the sheet.
pub proof fn lemma_rows_distinct(a: Direction, b: Direction)
    ensures
        direction_spritesheet_row(a) == direction_spritesheet_row(b) <==> a == b,
{
}

/// The region of the frame in column `col` of the row of `direction`, on a
/// sheet whose top-left frame is `top_left_frame`: that frame moved right by
/// `col` widths and down by as many heights as the row says, each coordinate
/// stopping at the edge of the coordinate range.
pub open spec fn frame_region(top_left_frame: RectView, direction: Direction, col: int) -> RectView {
    RectView {
        x: clamp_position(top_left_frame.x + col * top_left_frame.width),
        y: clamp_position(
            top_left_frame.y + direction_spritesheet_row(direction) * top_left_frame.height,
        ),
        width: top_left_frame.width,
        height: top_left_frame.height,
    }
}

/// The walk cycle of `direction`, cut out of sheet number `spritesheet`:
/// the frames of its row, from the leftmost column on.
pub fn character_animation_frames(
    spritesheet: usize,
    top_left_frame: Rect,
    direction: Direction,
) -> (frames: Vec<Sprite>)
    ensures
        frames@.len() == FRAMES_PER_DIRECTION,
        forall|col: int|
            #![trigger frames@[col]]
            #![trigger frame_region(top_left_frame@, direction, col)]
            0 <= col < FRAMES_PER_DIRECTION ==> frames@[col].spritesheet == spritesheet
                && frames@[col].region@ == frame_region(top_left_frame@, direction, col),
{
    let row = direction_spritesheet_row(direction);
    let (frame_width, frame_height) = top_left_frame.size();
    assert(0 <= row * frame_height <= 3 * MAX_COORD) by (nonlinear_arith)
        requires
            0 <= row < 4,
            0 <= frame_height <= MAX_COORD,
    ;
    let y = clamp_to_position(top_left_frame.y() as i64 + row as i64 * frame_height as i64);
    let mut frames: Vec<Sprite> = Vec::new();
    let mut col: usize = 0;
    while col < FRAMES_PER_DIRECTION
        invariant
            col <= FRAMES_PER_DIRECTION,
            frames@.len() == col,
            frame_width == top_left_frame@.width,
            frame_height == top_left_frame@.height,
            is_size(frame_width as int),
            is_size(frame_height as int),
            is_position(y as int),
            y == frame_region(top_left_frame@, direction, 0).y,
            forall|c: int|
                0 <= c < col ==> (#[trigger] frames@[c]).spritesheet == spritesheet
                    && frames@[c].region@ == frame_region(top_left_frame@, direction, c),
        decreases FRAMES_PER_DIRECTION - col,
    {
        assert(0 <= col * frame_width <= 2 * MAX_COORD) by (nonlinear_arith)
            requires
                0 <= col < 3,
                0 <= frame_width <= MAX_COORD,
        ;
        let x = clamp_to_position(top_left_frame.x() as i64 + col as i64 * frame_width as i64);
        frames.push(Sprite { spritesheet, region: Rect::new(x, y, frame_width, frame_height) });
        col = col + 1;
    }
    frames
}

/// The whole animation of a character, cut out of sheet number
/// `spritesheet`, showing its first frame. Tables cut from a sheet always
/// fit, so this cannot fail.
pub fn character_animation(spritesheet: usize, top_left_frame: Rect) -> (animation:
    MovementAnimation)
    ensures
        animation@.well_formed(),
        animation@.current_frame == 0,
        animation@.frame_count() == FRAMES_PER_DIRECTION,
        forall|direction: Direction, col: int|
            #![trigger animation@.frames(direction)[col]]
            #![trigger frame_region(top_left_frame@, direction, col)]
            0 <= col < FRAMES_PER_DIRECTION ==> animation@.frames(direction)[col].spritesheet
                == spritesheet && animation@.frames(direction)[col].region@ == frame_region(
                top_left_frame@,
                direction,
                col,
            ),
{
    let up_frames = character_animation_frames(spritesheet, top_left_frame, Direction::Up);
    let down_frames = character_animation_frames(spritesheet, top_left_frame, Direction::Down);
    let left_frames = character_animation_frames(spritesheet, top_left_frame, Direction::Left);
    let right_frames = character_animation_frames(spritesheet, top_left_frame, Direction::Right);
    let made = MovementAnimation::new(up_frames, down_frames, left_frames, right_frames);
    made.unwrap()
}

} // verus!
