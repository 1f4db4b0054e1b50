//! The plain data that the game systems read and write.

use crate::geometry::{Point, Rect};
use vstd::prelude::*;

verus! {

/// One of the four cardinal movement directions.
#[derive(Debug, PartialEq, Eq, Clone, Copy, Structural)]
pub enum Direction {
    Left,
    Right,
    Up,
    Down,
}

impl Direction {
    /// The direction that cancels this one: Left and Right are opposites,
    /// and so are Up and Down.
    pub open spec fn spec_opposite(&self) -> Direction {
        match *self {
            Direction::Left => Direction::Right,
            Direction::Right => Direction::Left,
            Direction::Up => Direction::Down,
            Direction::Down => Direction::Up,
        }
    }

    /// The direction that cancels this one.
    #[verifier::when_used_as_spec(spec_opposite)]
    pub fn opposite(&self) -> (r: Direction)
        ensures
            r == self.spec_opposite(),
    {
        match *self {
            Direction::Left => Direction::Right,
            Direction::Right => Direction::Left,
            Direction::Up => Direction::Down,
            Direction::Down => Direction::Up,
        }
    }

    /// The place of this direction in a table with one entry per direction,
    /// in the order Left, Right, Up, Down.
    pub open spec fn spec_index(&self) -> usize {
        match *self {
            Direction::Left => 0,
            Direction::Right => 1,
            Direction::Up => 2,
            Direction::Down => 3,
        }
    }

    /// The place of this direction in a table with one entry per direction.
    #[verifier::when_used_as_spec(spec_index)]
    pub fn index(&self) -> (i: usize)
        ensures
            i == self.spec_index(),
            i < 4,
    {
        match *self {
            Direction::Left => 0,
            Direction::Right => 1,
            Direction::Up => 2,
            Direction::Down => 3,
        }
    }
}

/// Taking the opposite twice gives the direction back, and no direction is
/// its own opposite.
pub proof fn lemma_opposite_involutive(d: Direction)
    ensures
        d.opposite().opposite() == d,
        d.opposite() != d,
{
}

/// Distinct directions have distinct places in a table, and every place below
/// four belongs to a direction.
pub proof fn lemma_index_injective(a: Direction, b: Direction)
    ensures
        0 <= a.index() < 4,
        a.index() == b.index() <==> a == b,
{
}

/// Marks an entity whose velocity follows the keyboard.
#[derive(Debug, PartialEq, Eq, Clone, Copy, Structural)]
pub struct KeyboardControlled;

/// Where an entity stands in the world.
#[derive(Debug, PartialEq, Eq, Clone, Copy, Structural)]
pub struct Position(pub Point);

/// How fast an entity moves, and which way it faces.
#[derive(Debug, PartialEq, Eq, Clone, Copy, Structural)]
pub struct Velocity {
    pub speed: i32,
    pub direction: Direction,
}

/// What a controlled entity is doing: standing, or moving in one of the four
/// directions.
#[derive(Debug, PartialEq, Eq, Clone, Copy, Structural)]
pub enum MotionState {
    Idle,
    MovingLeft,
    MovingRight,
    MovingUp,
    MovingDown,
}

impl Velocity {
    /// The state that the velocity stands for: idle without speed, and
    /// otherwise moving the way it faces.
    pub open spec fn spec_motion_state(&self) -> MotionState {
        if self.speed == 0 {
            MotionState::Idle
        } else {
            match self.direction {
                Direction::Left => MotionState::MovingLeft,
                Direction::Right => MotionState::MovingRight,
                Direction::Up => MotionState::MovingUp,
                Direction::Down => MotionState::MovingDown,
            }
        }
    }

    /// The state that the velocity stands for.
    #[verifier::when_used_as_spec(spec_motion_state)]
    pub fn motion_state(&self) -> (state: MotionState)
        ensures
            state == self.spec_motion_state(),
            state == MotionState::Idle <==> self.speed == 0,
    {
        if self.speed == 0 {
            MotionState::Idle
        } else {
            match self.direction {
                Direction::Left => MotionState::MovingLeft,
                Direction::Right => MotionState::MovingRight,
                Direction::Up => MotionState::MovingUp,
                Direction::Down => MotionState::MovingDown,
            }
        }
    }
}

/// What is drawn for an entity.
#[derive(Debug, PartialEq, Eq, Clone, Copy, Structural)]
pub struct Sprite {
    /// Index of the spritesheet.
    pub spritesheet: usize,
    /// Region of the spritesheet that is drawn.
    pub region: Rect,
}

/// Why a set of frame tables was refused.
#[derive(Debug, PartialEq, Eq, Clone, Copy, Structural)]
pub enum FrameTableError {
    /// A direction has no frame at all.
    Empty,
    /// Every direction has frames, but not all have the same number of them.
    LengthMismatch,
}

/// What a movement animation is in contracts: the index of the frame shown
/// and, for each direction, the frames that a walk cycles through.
pub struct AnimationState {
    pub current_frame: nat,
    pub up_frames: Seq<Sprite>,
    pub down_frames: Seq<Sprite>,
    pub left_frames: Seq<Sprite>,
    pub right_frames: Seq<Sprite>,
}

/// The index of the frame to show after one tick: the next one, going round,
/// while the entity moves, and the first one while it stands.
pub open spec fn next_frame(current: nat, frame_count: nat, speed: int) -> nat {
    if speed != 0 {
        (current + 1) % frame_count
    } else {
        0
    }
}

impl AnimationState {
    /// The frames for an entity that faces `direction`.
    pub open spec fn frames(self, direction: Direction) -> Seq<Sprite> {
        match direction {
            Direction::Left => self.left_frames,
            Direction::Right => self.right_frames,
            Direction::Up => self.up_frames,
            Direction::Down => self.down_frames,
        }
    }

    /// How many frames a walk cycle has.
    pub open spec fn frame_count(self) -> nat {
        self.right_frames.len()
    }

    /// Whether four frame tables can make an animation: none is empty and
    /// all have the same length.
    pub open spec fn tables_fit(
        up_frames: Seq<Sprite>,
        down_frames: Seq<Sprite>,
        left_frames: Seq<Sprite>,
        right_frames: Seq<Sprite>,
    ) -> bool {
        &&& right_frames.len() > 0
        &&& up_frames.len() == right_frames.len()
        &&& down_frames.len() == right_frames.len()
        &&& left_frames.len() == right_frames.len()
    }

    /// The tables fit, and the frame shown is one of them.
    pub open spec fn well_formed(self) -> bool {
        &&& AnimationState::tables_fit(
            self.up_frames,
            self.down_frames,
            self.left_frames,
            self.right_frames,
        )
        &&& self.current_frame < self.frame_count()
    }

    /// The animation one tick later, for an entity that moves at `speed`.
    pub open spec fn advance(self, speed: int) -> AnimationState {
        AnimationState {
            current_frame: next_frame(self.current_frame, self.frame_count(), speed),
            ..self
        }
    }

    /// The sprite that the animation shows for an entity facing `direction`.
    pub open spec fn sprite(self, direction: Direction) -> Sprite {
        self.frames(direction)[self.current_frame as int]
    }
}

/// The walk cycle of an entity: one table of frames per direction, all of one
/// length and none empty, and the index of the frame shown.
#[derive(Debug)]
pub struct MovementAnimation {
    current_frame: usize,
    up_frames: Vec<Sprite>,
    down_frames: Vec<Sprite>,
    left_frames: Vec<Sprite>,
    right_frames: Vec<Sprite>,
}

impl View for MovementAnimation {
    type V = AnimationState;

    closed spec fn view(&self) -> AnimationState {
        AnimationState {
            current_frame: self.current_frame as nat,
            up_frames: self.up_frames@,
            down_frames: self.down_frames@,
            left_frames: self.left_frames@,
            right_frames: self.right_frames@,
        }
    }
}

impl MovementAnimation {
    #[verifier::type_invariant]
    spec fn valid(self) -> bool {
        self@.well_formed()
    }

    /// An animation that shows the first frame. Tables that do not fit are
    /// refused here, so that no tick ever meets an empty table.
    pub fn new(
        up_frames: Vec<Sprite>,
        down_frames: Vec<Sprite>,
        left_frames: Vec<Sprite>,
        right_frames: Vec<Sprite>,
    ) -> (made: Result<MovementAnimation, FrameTableError>)
        ensures
            made is Ok <==> AnimationState::tables_fit(
                up_frames@,
                down_frames@,
                left_frames@,
                right_frames@,
            ),
            made == Err::<MovementAnimation, FrameTableError>(FrameTableError::Empty) <==> (
            up_frames@.len() == 0 || down_frames@.len() == 0 || left_frames@.len() == 0
                || right_frames@.len() == 0),
            made == Err::<MovementAnimation, FrameTableError>(FrameTableError::LengthMismatch)
                <==> (up_frames@.len() > 0 && down_frames@.len() > 0 && left_frames@.len() > 0
                && right_frames@.len() > 0 && !(up_frames@.len() == right_frames@.len()
                && down_frames@.len() == right_frames@.len() && left_frames@.len()
                == right_frames@.len())),
            made matches Ok(animation) ==> animation@ == (AnimationState {
                current_frame: 0,
                up_frames: up_frames@,
                down_frames: down_frames@,
                left_frames: left_frames@,
                right_frames: right_frames@,
            }) && animation@.well_formed(),
    {
        let count = right_frames.len();
        if up_frames.len() == 0 || down_frames.len() == 0 || left_frames.len() == 0 || count == 0 {
            return Err(FrameTableError::Empty);
        }
        if up_frames.len() != count || down_frames.len() != count || left_frames.len() != count {
            return Err(FrameTableError::LengthMismatch);
        }
        Ok(MovementAnimation { current_frame: 0, up_frames, down_frames, left_frames, right_frames })
    }

    /// The index of the frame shown.
    pub fn current_frame(&self) -> (frame: usize)
        ensures
            frame == self@.current_frame,
            frame < self@.frame_count(),
            self@.well_formed(),
    {
        proof {
            use_type_invariant(self);
        }
        self.current_frame
    }

    /// How many frames a walk cycle has: at least one.
    pub fn frame_count(&self) -> (count: usize)
        ensures
            count == self@.frame_count(),
            count > 0,
            self@.well_formed(),
    {
        proof {
            use_type_invariant(self);
        }
        self.right_frames.len()
    }

    /// The frames for an entity that faces `direction`.
    pub fn frames(&self, direction: Direction) -> (frames: &Vec<Sprite>)
        ensures
            frames@ == self@.frames(direction),
            frames@.len() == self@.frame_count(),
            self@.well_formed(),
    {
        proof {
            use_type_invariant(self);
        }
        match direction {
            Direction::Left => &self.left_frames,
            Direction::Right => &self.right_frames,
            Direction::Up => &self.up_frames,
            Direction::Down => &self.down_frames,
        }
    }

    /// The sprite shown for an entity that faces `direction`.
    pub fn sprite(&self, direction: Direction) -> (sprite: Sprite)
        ensures
            sprite == self@.sprite(direction),
    {
        proof {
            use_type_invariant(self);
        }
        let frames = self.frames(direction);
        frames[self.current_frame]
    }

    /// Shows another frame of the cycle.
    pub(crate) fn set_current_frame(&mut self, frame: usize)
        requires
            frame < old(self)@.frame_count(),
        ensures
            final(self)@ == (AnimationState { current_frame: frame as nat, ..old(self)@ }),
            final(self)@.well_formed(),
    {
        proof {
            use_type_invariant(&*self);
        }
        self.current_frame = frame;
    }
}

} // verus!
