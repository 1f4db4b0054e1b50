//! The table of entities, and one tick of the whole game.
//!
//! An entity is a row of optional components. A system works on the rows
//! that hold all the components it needs and leaves every other row, and
//! every other component, as it was.

use crate::animator::Animator;
use crate::components::{
    AnimationState, KeyboardControlled, MovementAnimation, Position, Sprite, Velocity,
};
use crate::keyboard::Keyboard;
use crate::physics::Physics;
use vstd::prelude::*;

verus! {

/// One row of the table. A component that the entity lacks is `None`.
#[derive(Debug)]
pub struct Entity {
    pub controlled: Option<KeyboardControlled>,
    pub position: Option<Position>,
    pub velocity: Option<Velocity>,
    pub sprite: Option<Sprite>,
    pub animation: Option<MovementAnimation>,
}

impl Entity {
    /// An entity without any component.
    pub fn new() -> (entity: Entity)
        ensures
            entity.controlled is None,
            entity.position is None,
            entity.velocity is None,
            entity.sprite is None,
            entity.animation is None,
    {
        Entity { controlled: None, position: None, velocity: None, sprite: None, animation: None }
    }
}

/// What an entity is in contracts: its components, the position as a pair of
/// coordinates and the animation as its state.
pub struct EntityView {
    pub controlled: bool,
    pub position: Option<(int, int)>,
    pub velocity: Option<Velocity>,
    pub sprite: Option<Sprite>,
    pub animation: Option<AnimationState>,
}

impl View for Entity {
    type V = EntityView;

    open spec fn view(&self) -> EntityView {
        EntityView {
            controlled: self.controlled is Some,
            position: match self.position {
                Some(position) => Some(position.0@),
                None => None,
            },
            velocity: self.velocity,
            sprite: self.sprite,
            animation: match self.animation {
                Some(animation) => Some(animation@),
                None => None,
            },
        }
    }
}

impl EntityView {
    /// Whether the keyboard steers the entity: it is tagged as controlled
    /// and has a velocity to steer.
    pub open spec fn is_steered(self) -> bool {
        self.controlled && self.velocity is Some
    }

    /// Whether the entity can move: it has a position and a velocity.
    pub open spec fn is_mobile(self) -> bool {
        self.position is Some && self.velocity is Some
    }

    /// Whether the entity is animated: it has a walk cycle, a sprite to
    /// replace and a velocity to go by.
    pub open spec fn is_animated(self) -> bool {
        self.animation is Some && self.sprite is Some && self.velocity is Some
    }

    /// The entity after the keyboard system: a steered entity takes the
    /// input velocity.
    pub open spec fn steered(self, input: Velocity) -> EntityView {
        if self.is_steered() {
            EntityView { velocity: Some(input), ..self }
        } else {
            self
        }
    }

    /// The entity after the physics system: a mobile entity is displaced by
    /// its velocity.
    pub open spec fn moved(self) -> EntityView {
        if self.is_mobile() {
            EntityView {
                position: Some(Physics::displaced(self.position->0, self.velocity->0)),
                ..self
            }
        } else {
            self
        }
    }

    /// The entity after the animation system: the walk cycle of an animated
    /// entity advances, and its sprite becomes the frame now shown.
    pub open spec fn animated(self) -> EntityView {
        if self.is_animated() {
            let animation = self.animation->0.advance(self.velocity->0.speed as int);
            EntityView {
                animation: Some(animation),
                sprite: Some(animation.sprite(self.velocity->0.direction)),
                ..self
            }
        } else {
            self
        }
    }

    /// The entity after one tick: steered, then moved and animated.
    pub open spec fn ticked(self, input: Velocity) -> EntityView {
        self.steered(input).moved().animated()
    }
}

/// Moving and animating touch different components, so the order of the two
/// does not matter.
pub proof fn lemma_move_animate_commute(entity: EntityView)
    ensures
        entity.moved().animated() == entity.animated().moved(),
{
}

/// The keyboard does not touch an entity without the controlled tag,
/// whatever the input.
pub proof fn lemma_untagged_unaffected(entity: EntityView, input: Velocity)
    requires
        !entity.controlled,
    ensures
        entity.steered(input) == entity,
{
}

/// One tick of the whole table with the velocity `input` that the input
/// resolved to: the keyboard system first, then physics and animation.
pub fn dispatch(input: &Velocity, entities: &mut Vec<Entity>)
    ensures
        final(entities)@.len() == old(entities)@.len(),
        forall|i: int|
            0 <= i < old(entities)@.len() ==> (#[trigger] final(entities)@[i])@ == old(
                entities,
            )@[i]@.ticked(*input),
{
    Keyboard::run(input, entities);
    Physics::run(entities);
    Animator::run(entities);
}

} // verus!
