//! Moves entities by their velocity, tick by tick.
//!
//! An entity moves along one axis only, the one that its direction names,
//! and a coordinate that would leave the coordinate range stops at its edge.

use crate::components::{Direction, Position, Velocity};
use crate::entity::Entity;
use crate::geometry::{clamp_position, clamp_to_position, is_position, Point};
use vstd::prelude::*;

verus! {

/// The system that moves entities.
#[derive(Debug)]
pub struct Physics;

impl Physics {
    /// How far one tick carries an entity along each axis: `speed` units to
    /// the left or right, or up or down, where up is towards smaller `y`.
    pub open spec fn step(velocity: Velocity) -> (int, int) {
        match velocity.direction {
            Direction::Left => (-velocity.speed, 0),
            Direction::Right => (velocity.speed as int, 0),
            Direction::Up => (0, -velocity.speed),
            Direction::Down => (0, velocity.speed as int),
        }
    }

    /// Where an entity at `from` stands one tick later.
    pub open spec fn displaced(from: (int, int), velocity: Velocity) -> (int, int) {
        (
            clamp_position(from.0 + Physics::step(velocity).0),
            clamp_position(from.1 + Physics::step(velocity).1),
        )
    }

    /// One tick of one entity: displaces `position` by `velocity`.
    pub fn integrate(position: &mut Position, velocity: &Velocity)
        ensures
            final(position).0@ == Physics::displaced(old(position).0@, *velocity),
            final(position).0.well_formed(),
    {
        let x = position.0.x();
        let y = position.0.y();
        let speed = velocity.speed as i64;
        position.0 = match velocity.direction {
            Direction::Left => Point::new(clamp_to_position(x as i64 - speed), y),
            Direction::Right => Point::new(clamp_to_position(x as i64 + speed), y),
            Direction::Up => Point::new(x, clamp_to_position(y as i64 - speed)),
            Direction::Down => Point::new(x, clamp_to_position(y as i64 + speed)),
        };
    }

    /// One tick of the table: every entity that has a position and a
    /// velocity is displaced. Nothing else changes.
    pub fn run(entities: &mut Vec<Entity>)
        ensures
            final(entities)@.len() == old(entities)@.len(),
            forall|i: int|
                0 <= i < old(entities)@.len() ==> (#[trigger] final(entities)@[i])@ == old(
                    entities,
                )@[i]@.moved(),
            forall|i: int|
                0 <= i < old(entities)@.len() ==> #[trigger] final(entities)@[i] == (Entity {
                    position: final(entities)@[i].position,
                    ..old(entities)@[i]
                }),
            forall|i: int|
                0 <= i < old(entities)@.len() && !old(entities)@[i]@.is_mobile()
                    ==> #[trigger] final(entities)@[i] == old(entities)@[i],
    {
        let mut i: usize = 0;
        while i < entities.len()
            invariant
                i <= entities@.len(),
                entities@.len() == old(entities)@.len(),
                forall|j: int| 0 <= j < i ==> (#[trigger] entities@[j])@ == old(entities)@[j]@.moved(),
                forall|j: int|
                    0 <= j < i ==> #[trigger] entities@[j] == (Entity {
                        position: entities@[j].position,
                        ..old(entities)@[j]
                    }),
                forall|j: int|
                    0 <= j < i && !old(entities)@[j]@.is_mobile() ==> #[trigger] entities@[j]
                        == old(entities)@[j],
                forall|j: int| i <= j < entities@.len() ==> #[trigger] entities@[j] == old(entities)@[j],
            decreases entities@.len() - i,
        {
            let velocity = entities[i].velocity;
            match velocity {
                Some(velocity) => {
                    match &mut entities[i].position {
                        Some(position) => {
                            Physics::integrate(position, &velocity);
                        },
                        None => {},
                    }
                },
                None => {},
            }
            i = i + 1;
        }
    }
}

/// Away from the edge of the coordinate range an entity moves by exactly its
/// speed along the axis of its direction, and not at all along the other.
pub proof fn lemma_displacement_exact(from: (int, int), velocity: Velocity)
    requires
        is_position(from.0),
        is_position(from.1),
        is_position(from.0 + Physics::step(velocity).0),
        is_position(from.1 + Physics::step(velocity).1),
    ensures
        velocity.direction == Direction::Left ==> Physics::displaced(from, velocity) == (
            from.0 - velocity.speed,
            from.1,
        ),
        velocity.direction == Direction::Right ==> Physics::displaced(from, velocity) == (
            from.0 + velocity.speed,
            from.1,
        ),
        velocity.direction == Direction::Up ==> Physics::displaced(from, velocity) == (
            from.0,
            from.1 - velocity.speed,
        ),
        velocity.direction == Direction::Down ==> Physics::displaced(from, velocity) == (
            from.0,
            from.1 + velocity.speed,
        ),
{
}

/// An entity without speed stays where it is.
pub proof fn lemma_rest_stays(from: (int, int), velocity: Velocity)
    requires
        is_position(from.0),
        is_position(from.1),
        velocity.speed == 0,
    ensures
        Physics::displaced(from, velocity) == from,
{
}

} // verus!
