//! Why the newest held key wins: the buffer against the whole history of
//! key events.
//!
//! The buffer only ever trims its queue from the end, so it does not look as
//! if it knew which held key went down last. It does: the newest entry of
//! the queue is always the held direction that was pressed last.

use crate::components::Direction;
use crate::input::{lemma_replay_well_formed, lemma_trim_released, InputEvent, InputState};
use vstd::prelude::*;

verus! {

/// The place in `events` of the last press of `dir`, or -1 where `dir` was
/// never pressed.
pub open spec fn last_press(events: Seq<InputEvent>, dir: Direction) -> int
    decreases events.len(),
{
    if events.len() == 0 {
        -1
    } else if events.last() == InputEvent::Press(dir) {
        events.len() - 1
    } else {
        last_press(events.drop_last(), dir)
    }
}

/// For each entry of the queue that a session leads to, the place in
/// `events` of the press that put it there.
spec fn press_times(events: Seq<InputEvent>) -> Seq<int>
    decreases events.len(),
{
    if events.len() == 0 {
        Seq::empty()
    } else {
        let before = press_times(events.drop_last());
        match events.last() {
            InputEvent::Press(_) => before.push(events.len() - 1),
            InputEvent::Release(_) => before.take(InputState::replay(events).queue.len() as int),
            _ => before,
        }
    }
}

/// The queue is made of presses in the order of the session, and the last
/// press of every held direction is still among them.
spec fn queue_follows(events: Seq<InputEvent>) -> bool {
    let state = InputState::replay(events);
    let times = press_times(events);
    &&& times.len() == state.queue.len()
    &&& forall|k: int|
        0 <= k < times.len() ==> 0 <= #[trigger] times[k] < events.len() && events[times[k]]
            == InputEvent::Press(state.queue[k])
    &&& forall|j: int, k: int| 0 <= j < k < times.len() ==> #[trigger] times[j] < #[trigger] times[k]
    &&& forall|dir: Direction|
        state.held.contains(dir) ==> exists|k: int|
            0 <= k < times.len() && #[trigger] times[k] == last_press(events, dir)
}

/// No press of `dir` comes after the last one.
proof fn lemma_last_press_is_last(events: Seq<InputEvent>, dir: Direction, at: int)
    requires
        0 <= at < events.len(),
        events[at] == InputEvent::Press(dir),
    ensures
        at <= last_press(events, dir) < events.len(),
    decreases events.len(),
{
    if events.last() != InputEvent::Press(dir) {
        lemma_last_press_is_last(events.drop_last(), dir, at);
    }
}

proof fn lemma_queue_follows(events: Seq<InputEvent>)
    ensures
        queue_follows(events),
    decreases events.len(),
{
    if events.len() > 0 {
        let earlier = events.drop_last();
        lemma_queue_follows(earlier);
        let before = InputState::replay(earlier);
        let state = InputState::replay(events);
        let old_times = press_times(earlier);
        let times = press_times(events);
        match events.last() {
            InputEvent::Press(pressed) => {
                assert forall|dir: Direction| state.held.contains(dir) implies exists|k: int|
                    0 <= k < times.len() && #[trigger] times[k] == last_press(events, dir) by {
                    if dir == pressed {
                        assert(times[times.len() - 1] == last_press(events, dir));
                    } else {
                        let k = choose|k: int|
                            0 <= k < old_times.len() && #[trigger] old_times[k] == last_press(
                                earlier,
                                dir,
                            );
                        assert(times[k] == last_press(events, dir));
                    }
                }
            },
            InputEvent::Release(released) => {
                lemma_trim_released(before.queue, state.held);
                assert forall|dir: Direction| state.held.contains(dir) implies exists|k: int|
                    0 <= k < times.len() && #[trigger] times[k] == last_press(events, dir) by {
                    let k = choose|k: int|
                        0 <= k < old_times.len() && #[trigger] old_times[k] == last_press(
                            earlier,
                            dir,
                        );
                    lemma_last_press_holds_press(earlier, dir);
                    assert(earlier[old_times[k]] == InputEvent::Press(before.queue[k]));
                    assert(before.queue[k] == dir);
                    assert(k < state.queue.len());
                    assert(times[k] == last_press(events, dir));
                }
            },
            _ => {},
        }
    }
}

/// The newest held key wins. However a session went, the newest entry of the
/// queue is a held direction, and no held direction was pressed after it:
/// the queue ends in the direction that was pressed most recently and not
/// released since.
pub proof fn lemma_newest_held_key_wins(events: Seq<InputEvent>, dir: Direction)
    requires
        InputState::replay(events).held.contains(dir),
    ensures
        InputState::replay(events).queue.len() > 0,
        InputState::replay(events).held.contains(InputState::replay(events).queue.last()),
        0 <= last_press(events, dir) <= last_press(events, InputState::replay(events).queue.last()),
        last_press(events, dir) == last_press(events, InputState::replay(events).queue.last())
            <==> dir == InputState::replay(events).queue.last(),
{
    lemma_replay_well_formed(events);
    lemma_queue_follows(events);
    let state = InputState::replay(events);
    let times = press_times(events);
    assert(state.queue.contains(dir));
    let newest = state.queue.last();
    let top = times.len() - 1;
    lemma_last_press_is_last(events, newest, times[top]);
    let n = choose|k: int| 0 <= k < times.len() && #[trigger] times[k] == last_press(events, newest);
    let d = choose|k: int| 0 <= k < times.len() && #[trigger] times[k] == last_press(events, dir);
    assert(times[n] <= times[top]);
    assert(times[d] <= times[top]);
    assert(events[times[d]] == InputEvent::Press(state.queue[d]));
    lemma_last_press_holds_press(events, dir);
}

/// Where a direction was pressed at all, the event at its last press is a
/// press of it.
proof fn lemma_last_press_holds_press(events: Seq<InputEvent>, dir: Direction)
    ensures
        last_press(events, dir) >= 0 ==> last_press(events, dir) < events.len() && events[last_press(
            events,
            dir,
        )] == InputEvent::Press(dir),
        last_press(events, dir) >= -1,
    decreases events.len(),
{
    if events.len() > 0 && events.last() != InputEvent::Press(dir) {
        lemma_last_press_holds_press(events.drop_last(), dir);
    }
}

} // verus!
