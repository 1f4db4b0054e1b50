//! The buffer of held direction keys, and how it resolves to one velocity.
//!
//! The last key pressed wins. When it is released, movement falls back to the
//! newest key below it that is still held. Entries of released keys are only
//! removed from the end of the queue, so a release costs constant amortised
//! time and never reorders what is left.

use crate::components::{Direction, Velocity};
use crate::constants::PLAYER_MOVEMENT_SPEED;
use vstd::prelude::*;

verus! {

/// The longest prefix of `queue` that is empty or ends in a held direction.
pub open spec fn trim_released(queue: Seq<Direction>, held: Set<Direction>) -> Seq<Direction>
    decreases queue.len(),
{
    if queue.len() == 0 || held.contains(queue.last()) {
        queue
    } else {
        trim_released(queue.drop_last(), held)
    }
}

/// What the input device reports, already decoded.
#[derive(Debug, PartialEq, Eq, Clone, Copy, Structural)]
pub enum InputEvent {
    /// The player asked to leave.
    Quit,
    /// The key of a direction went down.
    Press(Direction),
    /// The key of a direction went up.
    Release(Direction),
    /// Anything that does not touch the direction keys.
    Other,
}

/// What an input buffer is in contracts: the queue of pressed directions,
/// newest last, and the set of directions that are held down.
pub struct InputState {
    pub queue: Seq<Direction>,
    pub held: Set<Direction>,
}

impl InputState {
    /// No key was pressed yet.
    pub open spec fn empty() -> InputState {
        InputState { queue: Seq::empty(), held: Set::empty() }
    }

    /// The state after the key of `dir` goes down.
    pub open spec fn press(self, dir: Direction) -> InputState {
        InputState { queue: self.queue.push(dir), held: self.held.insert(dir) }
    }

    /// The state after the key of `dir` goes up: `dir` is no longer held, and
    /// the queue loses its trailing entries of directions that are not held.
    pub open spec fn release(self, dir: Direction) -> InputState {
        let held = self.held.remove(dir);
        InputState { queue: trim_released(self.queue, held), held }
    }

    /// The state after `event`: only presses and releases change it.
    pub open spec fn apply(self, event: InputEvent) -> InputState {
        match event {
            InputEvent::Press(dir) => self.press(dir),
            InputEvent::Release(dir) => self.release(dir),
            _ => self,
        }
    }

    /// The state that a whole session of events leads to, from no key
    /// pressed.
    pub open spec fn replay(events: Seq<InputEvent>) -> InputState
        decreases events.len(),
    {
        if events.len() == 0 {
            InputState::empty()
        } else {
            InputState::replay(events.drop_last()).apply(events.last())
        }
    }

    /// The velocity that the state stands for. The newest entry of the queue
    /// gives the direction; the speed is zero while the opposite direction is
    /// held too. With an empty queue the entity stands still and keeps
    /// facing `saved_dir`.
    pub open spec fn resolve(self, saved_dir: Direction) -> Velocity {
        if self.queue.len() == 0 {
            Velocity { speed: 0, direction: saved_dir }
        } else if self.held.contains(self.queue.last().opposite()) {
            Velocity { speed: 0, direction: self.queue.last() }
        } else {
            Velocity { speed: PLAYER_MOVEMENT_SPEED, direction: self.queue.last() }
        }
    }

    /// What every state reached by presses and releases satisfies: the newest
    /// entry of the queue is held, and every held direction is in the queue.
    pub open spec fn well_formed(self) -> bool {
        &&& self.queue.len() > 0 ==> self.held.contains(self.queue.last())
        &&& forall|d: Direction| self.held.contains(d) ==> self.queue.contains(d)
    }
}

/// The buffer of held direction keys.
#[derive(Debug)]
pub struct InputBuffer {
    /// The directions pressed, newest last. Entries of released directions
    /// may linger below the newest held one.
    pub dir_queue: Vec<Direction>,
    /// Whether each direction is held, at the place `Direction::index` gives.
    pub dir_state: [bool; 4],
}

impl View for InputBuffer {
    type V = InputState;

    open spec fn view(&self) -> InputState {
        InputState {
            queue: self.dir_queue@,
            held: Set::new(|d: Direction| self.dir_state@[d.index() as int]),
        }
    }
}

impl InputBuffer {
    /// A buffer with no key pressed.
    pub fn new() -> (buffer: InputBuffer)
        ensures
            buffer@ == InputState::empty(),
            buffer@.well_formed(),
    {
        let buffer = InputBuffer { dir_queue: Vec::new(), dir_state: [false; 4] };
        assert(buffer@.held =~= Set::empty());
        buffer
    }

    /// Whether the key of `dir` is held down.
    pub fn is_held(&self, dir: Direction) -> (held: bool)
        ensures
            held == self@.held.contains(dir),
    {
        self.dir_state[dir.index()]
    }

    /// Records that the key of `dir` went down.
    pub fn add_direction(&mut self, dir: Direction)
        ensures
            final(self)@ == old(self)@.press(dir),
            final(self)@.held.contains(dir),
            final(self)@.queue.last() == dir,
            old(self)@.well_formed() ==> final(self)@.well_formed(),
    {
        self.dir_state[dir.index()] = true;
        self.dir_queue.push(dir);
        proof {
            assert(self@.held =~= old(self)@.held.insert(dir));
            if old(self)@.well_formed() {
                lemma_press_well_formed(old(self)@, dir);
            }
        }
    }

    /// Records that the key of `dir` went up, and drops from the end of the
    /// queue the entries of directions that are no longer held. Older entries
    /// are left alone.
    pub fn remove_direction(&mut self, dir: Direction)
        ensures
            final(self)@ == old(self)@.release(dir),
            !final(self)@.held.contains(dir),
            final(self)@.queue.len() > 0 ==> final(self)@.held.contains(final(self)@.queue.last()),
            final(self)@.queue.is_prefix_of(old(self)@.queue),
            forall|i: int|
                final(self)@.queue.len() <= i < old(self)@.queue.len() ==> !final(self)@.held.contains(
                    #[trigger] old(self)@.queue[i],
                ),
            old(self)@.well_formed() ==> final(self)@.well_formed(),
    {
        self.dir_state[dir.index()] = false;
        let ghost held = old(self)@.held.remove(dir);
        proof {
            assert(self@.held =~= held);
        }
        loop
            invariant
                self@.held == held,
                trim_released(self@.queue, held) == trim_released(old(self)@.queue, held),
            ensures
                self@.held == held,
                self@.queue == trim_released(old(self)@.queue, held),
            decreases self.dir_queue.len(),
        {
            match self.dir_queue.pop() {
                Some(last_dir) => {
                    if self.dir_state[last_dir.index()] {
                        let ghost popped = self@.queue;
                        self.dir_queue.push(last_dir);
                        proof {
                            assert(self@.queue.drop_last() =~= popped);
                        }
                        break ;
                    }
                },
                None => {
                    break ;
                },
            }
        }
        proof {
            lemma_trim_released(old(self)@.queue, held);
            if old(self)@.well_formed() {
                lemma_release_well_formed(old(self)@, dir);
            }
        }
    }

    /// The velocity that the held keys stand for; `saved_dir` is the
    /// direction to keep facing while no key is in the queue.
    pub fn get_velocity(&self, saved_dir: Direction) -> (vel: Velocity)
        ensures
            vel == self@.resolve(saved_dir),
    {
        let mut vel = Velocity { direction: saved_dir, speed: 0 };
        if let Some(last_dir) = self.dir_queue.last() {
            vel.direction = *last_dir;
            if self.dir_state[last_dir.opposite().index()] {
                vel.speed = 0;
            } else {
                vel.speed = PLAYER_MOVEMENT_SPEED;
            }
        } else {
            vel.speed = 0;
        }
        vel
    }
}

/// The input side of one keyboard-controlled entity: the buffer of held keys
/// and the direction that the entity faced when it last resolved.
#[derive(Debug)]
pub struct Controls {
    pub buffer: InputBuffer,
    pub last_dir: Direction,
}

impl Controls {
    /// No key pressed, facing right.
    pub fn new() -> (controls: Controls)
        ensures
            controls.buffer@ == InputState::empty(),
            controls.last_dir == Direction::Right,
            controls.velocity() == (Velocity { speed: 0, direction: Direction::Right }),
    {
        Controls { buffer: InputBuffer::new(), last_dir: Direction::Right }
    }

    /// The velocity that the controls stand for now.
    pub open spec fn velocity(&self) -> Velocity {
        self.buffer@.resolve(self.last_dir)
    }

    /// Takes one event in. `None` means that the player asked to leave, and
    /// nothing has changed. Otherwise the buffer has taken the event, the
    /// result is the velocity that it now resolves to, and the controls
    /// remember its direction.
    pub fn handle_event(&mut self, event: InputEvent) -> (step: Option<Velocity>)
        ensures
            event == InputEvent::Quit ==> step.is_none() && final(self).buffer@ == old(self).buffer@
                && final(self).last_dir == old(self).last_dir,
            event != InputEvent::Quit ==> step == Some(
                old(self).buffer@.apply(event).resolve(old(self).last_dir),
            ),
            event != InputEvent::Quit ==> final(self).buffer@ == old(self).buffer@.apply(event),
            event != InputEvent::Quit ==> final(self).last_dir == old(self).buffer@.apply(
                event,
            ).resolve(old(self).last_dir).direction,
            event != InputEvent::Quit ==> step == Some(final(self).velocity()),
            event == InputEvent::Other ==> step == Some(old(self).velocity()),
            event == InputEvent::Other ==> final(self).velocity() == old(self).velocity(),
            old(self).buffer@.well_formed() ==> final(self).buffer@.well_formed(),
    {
        match event {
            InputEvent::Quit => {
                return None;
            },
            InputEvent::Press(dir) => {
                self.buffer.add_direction(dir);
            },
            InputEvent::Release(dir) => {
                self.buffer.remove_direction(dir);
            },
            InputEvent::Other => {},
        }
        let new_vel = self.buffer.get_velocity(self.last_dir);
        self.last_dir = new_vel.direction;
        Some(new_vel)
    }
}

/// What trimming leaves: a prefix of the queue that is empty or ends in a
/// held direction, with no held direction among the entries dropped.
pub proof fn lemma_trim_released(queue: Seq<Direction>, held: Set<Direction>)
    ensures
        trim_released(queue, held).is_prefix_of(queue),
        trim_released(queue, held).len() > 0 ==> held.contains(trim_released(queue, held).last()),
        forall|i: int|
            trim_released(queue, held).len() <= i < queue.len() ==> !held.contains(
                #[trigger] queue[i],
            ),
    decreases queue.len(),
{
    if queue.len() == 0 || held.contains(queue.last()) {
    } else {
        let rest = queue.drop_last();
        lemma_trim_released(rest, held);
        assert forall|i: int| trim_released(queue, held).len() <= i < queue.len() implies !held.contains(
            #[trigger] queue[i],
        ) by {
            if i < rest.len() {
                assert(queue[i] == rest[i]);
            }
        }
    }
}

/// Releasing a key keeps a state well formed.
pub proof fn lemma_release_well_formed(s: InputState, dir: Direction)
    requires
        s.well_formed(),
    ensures
        s.release(dir).well_formed(),
{
    let t = s.release(dir);
    lemma_trim_released(s.queue, t.held);
    assert forall|d: Direction| t.held.contains(d) implies t.queue.contains(d) by {
        let i = choose|i: int| 0 <= i < s.queue.len() && s.queue[i] == d;
        assert(i < t.queue.len());
        assert(t.queue[i] == d);
    }
}

/// Pressing a key keeps a state well formed.
pub proof fn lemma_press_well_formed(s: InputState, dir: Direction)
    requires
        s.well_formed(),
    ensures
        s.press(dir).well_formed(),
{
    let t = s.press(dir);
    assert forall|d: Direction| t.held.contains(d) implies t.queue.contains(d) by {
        if d == dir {
            assert(t.queue[t.queue.len() - 1] == d);
        } else {
            let i = choose|i: int| 0 <= i < s.queue.len() && s.queue[i] == d;
            assert(t.queue[i] == d);
        }
    }
}

/// However a session went, the state it leads to is well formed.
pub proof fn lemma_replay_well_formed(events: Seq<InputEvent>)
    ensures
        InputState::replay(events).well_formed(),
    decreases events.len(),
{
    if events.len() > 0 {
        let before = InputState::replay(events.drop_last());
        lemma_replay_well_formed(events.drop_last());
        match events.last() {
            InputEvent::Press(dir) => lemma_press_well_formed(before, dir),
            InputEvent::Release(dir) => lemma_release_well_formed(before, dir),
            _ => {},
        }
    }
}

/// Right after a release, in any session, the released direction is not
/// held, and the newest entry left in the queue, if there is one, is held.
pub proof fn lemma_after_release(events: Seq<InputEvent>, dir: Direction)
    requires
        events.len() > 0,
        events.last() == InputEvent::Release(dir),
    ensures
        !InputState::replay(events).held.contains(dir),
        InputState::replay(events).queue.len() > 0 ==> InputState::replay(events).held.contains(
            InputState::replay(events).queue.last(),
        ),
{
    let before = InputState::replay(events.drop_last());
    lemma_trim_released(before.queue, before.held.remove(dir));
}

/// Pressing a key and releasing it again, while another key is the newest in
/// the queue, gives the queue back as it was: movement falls back to the
/// older key, at full speed unless the opposite of that key is held too.
pub proof fn lemma_release_falls_back(s: InputState, dir: Direction, saved_dir: Direction)
    requires
        s.well_formed(),
        s.queue.len() > 0,
        s.queue.last() != dir,
    ensures
        s.press(dir).release(dir).queue == s.queue,
        s.press(dir).release(dir).held == s.held.remove(dir),
        s.press(dir).release(dir).resolve(saved_dir).direction == s.queue.last(),
        s.press(dir).release(dir).resolve(saved_dir).speed == (if s.held.remove(dir).contains(
            s.queue.last().opposite(),
        ) {
            0
        } else {
            PLAYER_MOVEMENT_SPEED
        }),
{
    let pressed = s.press(dir);
    let held = pressed.held.remove(dir);
    assert(held =~= s.held.remove(dir));
    assert(pressed.queue.drop_last() =~= s.queue);
    assert(trim_released(pressed.queue, held) == trim_released(s.queue, held));
}

/// Pressing a key while its opposite is held stops the entity, whichever of
/// the two went down first, and the entity faces the key pressed last.
pub proof fn lemma_opposite_keys_cancel(s: InputState, dir: Direction, saved_dir: Direction)
    requires
        s.held.contains(dir.opposite()),
    ensures
        s.press(dir).resolve(saved_dir) == (Velocity { speed: 0, direction: dir }),
{
}

/// While a direction and its opposite are the only keys held, the entity
/// stands still and faces one of the two.
pub proof fn lemma_only_opposites_held(s: InputState, dir: Direction, saved_dir: Direction)
    requires
        s.well_formed(),
        s.held.contains(dir),
        s.held.contains(dir.opposite()),
        forall|d: Direction| s.held.contains(d) ==> d == dir || d == dir.opposite(),
    ensures
        s.resolve(saved_dir).speed == 0,
        s.resolve(saved_dir).direction == dir || s.resolve(saved_dir).direction == dir.opposite(),
{
    assert(s.queue.contains(dir));
}

/// With no key held the queue is empty: the entity stands still and keeps
/// the direction it faced.
pub proof fn lemma_nothing_held(s: InputState, saved_dir: Direction)
    requires
        s.well_formed(),
        forall|d: Direction| !s.held.contains(d),
    ensures
        s.queue.len() == 0,
        s.resolve(saved_dir) == (Velocity { speed: 0, direction: saved_dir }),
{
}

/// Resolving again, with the direction that the first resolution gave as the
/// one to keep, gives the same velocity, and so does resolving after an event
/// that is neither a press nor a release: between two key events the velocity
/// does not change.
pub proof fn lemma_resolve_idempotent(s: InputState, event: InputEvent, saved_dir: Direction)
    requires
        event == InputEvent::Other || event == InputEvent::Quit,
    ensures
        s.resolve(s.resolve(saved_dir).direction) == s.resolve(saved_dir),
        s.apply(event).resolve(saved_dir) == s.resolve(saved_dir),
        s.apply(event).resolve(s.resolve(saved_dir).direction) == s.resolve(saved_dir),
{
}

} // verus!
