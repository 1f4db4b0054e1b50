//! Hands the velocity that the input resolved to on to the controlled
//! entities.

use crate::components::Velocity;
use crate::entity::Entity;
use vstd::prelude::*;

verus! {

/// The system that steers keyboard-controlled entities.
#[derive(Debug)]
pub struct Keyboard;

impl Keyboard {
    /// One tick of one controlled entity: its velocity becomes the input
    /// velocity, speed and direction.
    pub fn steer(input: &Velocity, velocity: &mut Velocity)
        ensures
            *final(velocity) == *input,
    {
        velocity.direction = input.direction;
        velocity.speed = input.speed;
    }

    /// One tick of the table: every entity that is tagged as controlled and
    /// has a velocity takes the input velocity. Nothing else changes.
    pub fn run(input: &Velocity, entities: &mut Vec<Entity>)
        ensures
            final(entities)@.len() == old(entities)@.len(),
            forall|i: int|
                0 <= i < old(entities)@.len() ==> (#[trigger] final(entities)@[i])@ == old(
                    entities,
                )@[i]@.steered(*input),
            forall|i: int|
                0 <= i < old(entities)@.len() ==> #[trigger] final(entities)@[i] == (Entity {
                    velocity: final(entities)@[i].velocity,
                    ..old(entities)@[i]
                }),
            forall|i: int|
                0 <= i < old(entities)@.len() && !old(entities)@[i]@.is_steered()
                    ==> #[trigger] final(entities)@[i] == old(entities)@[i],
    {
        let mut i: usize = 0;
        while i < entities.len()
            invariant
                i <= entities@.len(),
                entities@.len() == old(entities)@.len(),
                forall|j: int|
                    0 <= j < i ==> (#[trigger] entities@[j])@ == old(entities)@[j]@.steered(*input),
                forall|j: int|
                    0 <= j < i ==> #[trigger] entities@[j] == (Entity {
                        velocity: entities@[j].velocity,
                        ..old(entities)@[j]
                    }),
                forall|j: int|
                    0 <= j < i && !old(entities)@[j]@.is_steered() ==> #[trigger] entities@[j]
                        == old(entities)@[j],
                forall|j: int| i <= j < entities@.len() ==> #[trigger] entities@[j] == old(entities)@[j],
            decreases entities@.len() - i,
        {
            if entities[i].controlled.is_some() {
                match &mut entities[i].velocity {
                    Some(velocity) => {
                        Keyboard::steer(input, velocity);
                    },
                    None => {},
                }
            }
            i = i + 1;
        }
    }
}

} // verus!
