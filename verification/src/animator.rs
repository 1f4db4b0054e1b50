//! Chooses the sprite of an animated entity, tick by tick.
//!
//! While the entity moves, the frame index goes round the walk cycle without
//! end; while it stands, the first frame of the cycle is shown.

use crate::components::{next_frame, AnimationState, MovementAnimation, Sprite, Velocity};
use crate::entity::Entity;
use vstd::prelude::*;

verus! {

/// The system that animates moving entities.
#[derive(Debug)]
pub struct Animator;

impl Animator {
    /// One tick of one entity: moves `animation` to its next frame and gives
    /// the sprite to draw. The frames come from the table of the direction
    /// that `velocity` faces.
    pub fn animate(animation: &mut MovementAnimation, velocity: &Velocity) -> (sprite: Sprite)
        ensures
            final(animation)@ == old(animation)@.advance(velocity.speed as int),
            final(animation)@.well_formed(),
            velocity.speed == 0 ==> final(animation)@.current_frame == 0,
            velocity.speed != 0 ==> final(animation)@.current_frame == (old(animation)@.current_frame
                + 1) % old(animation)@.frame_count(),
            final(animation)@.current_frame < old(animation)@.frame_count(),
            sprite == final(animation)@.sprite(velocity.direction),
    {
        let count = animation.frames(velocity.direction).len();
        let frame: usize = if velocity.speed != 0 {
            (animation.current_frame() + 1) % count
        } else {
            0
        };
        animation.set_current_frame(frame);
        animation.sprite(velocity.direction)
    }

    /// One tick of the table: every entity that has a walk cycle, a sprite
    /// and a velocity moves to its next frame and takes it as its sprite.
    /// Nothing else changes.
    pub fn run(entities: &mut Vec<Entity>)
        ensures
            final(entities)@.len() == old(entities)@.len(),
            forall|i: int|
                0 <= i < old(entities)@.len() ==> (#[trigger] final(entities)@[i])@ == old(
                    entities,
                )@[i]@.animated(),
            forall|i: int|
                0 <= i < old(entities)@.len() ==> #[trigger] final(entities)@[i] == (Entity {
                    sprite: final(entities)@[i].sprite,
                    animation: final(entities)@[i].animation,
                    ..old(entities)@[i]
                }),
            forall|i: int|
                0 <= i < old(entities)@.len() && !old(entities)@[i]@.is_animated()
                    ==> #[trigger] final(entities)@[i] == old(entities)@[i],
    {
        let mut i: usize = 0;
        while i < entities.len()
            invariant
                i <= entities@.len(),
                entities@.len() == old(entities)@.len(),
                forall|j: int|
                    0 <= j < i ==> (#[trigger] entities@[j])@ == old(entities)@[j]@.animated(),
                forall|j: int|
                    0 <= j < i ==> #[trigger] entities@[j] == (Entity {
                        sprite: entities@[j].sprite,
                        animation: entities@[j].animation,
                        ..old(entities)@[j]
                    }),
                forall|j: int|
                    0 <= j < i && !old(entities)@[j]@.is_animated() ==> #[trigger] entities@[j]
                        == old(entities)@[j],
                forall|j: int| i <= j < entities@.len() ==> #[trigger] entities@[j] == old(entities)@[j],
            decreases entities@.len() - i,
        {
            let velocity = entities[i].velocity;
            let drawn = entities[i].sprite.is_some();
            match velocity {
                Some(velocity) => {
                    if drawn {
                        let mut shown: Option<Sprite> = None;
                        match &mut entities[i].animation {
                            Some(animation) => {
                                shown = Some(Animator::animate(animation, &velocity));
                            },
                            None => {},
                        }
                        if shown.is_some() {
                            entities[i].sprite = shown;
                        }
                    }
                },
                None => {},
            }
            i = i + 1;
        }
    }
}

/// The frame index after `ticks` ticks of a moving entity.
pub open spec fn frame_after(current: nat, frame_count: nat, ticks: nat) -> nat
    decreases ticks,
{
    if ticks == 0 {
        current
    } else {
        next_frame(frame_after(current, frame_count, (ticks - 1) as nat), frame_count, 1)
    }
}

/// A moving entity walks round its cycle: after any number of ticks the frame
/// index is the start plus the ticks, modulo the length of the cycle. So it
/// never leaves the cycle.
pub proof fn lemma_walk_cycle(current: nat, frame_count: nat, ticks: nat)
    requires
        current < frame_count,
    ensures
        frame_after(current, frame_count, ticks) == (current + ticks) % frame_count,
        frame_after(current, frame_count, ticks) < frame_count,
    decreases ticks,
{
    if ticks == 0 {
        assert(current % frame_count == current) by (nonlinear_arith)
            requires
                current < frame_count,
        ;
    } else {
        let before = (ticks - 1) as nat;
        lemma_walk_cycle(current, frame_count, before);
        let sum = current + before;
        assert(((sum % frame_count) + 1) % frame_count == (sum + 1) % frame_count) by (nonlinear_arith)
            requires
                frame_count > 0,
        ;
        assert((sum + 1) % frame_count < frame_count) by (nonlinear_arith)
            requires
                frame_count > 0,
        ;
    }
}

/// After as many ticks as the cycle has frames, a moving entity shows the
/// frame it started from.
pub proof fn lemma_walk_cycle_period(current: nat, frame_count: nat)
    requires
        current < frame_count,
    ensures
        frame_after(current, frame_count, frame_count) == current,
{
    lemma_walk_cycle(current, frame_count, frame_count);
    assert((current + frame_count) % frame_count == current) by (nonlinear_arith)
        requires
            current < frame_count,
    ;
}

/// An entity that stands shows the first frame after one tick, whichever
/// frame it showed before.
pub proof fn lemma_standing_resets(animation: AnimationState)
    ensures
        animation.advance(0).current_frame == 0,
{
}

} // verus!
