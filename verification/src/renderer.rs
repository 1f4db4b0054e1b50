//! Lays out what is drawn: where on the screen the sprite of an entity goes.
//!
//! The world's origin is shown at the centre of the screen, and a sprite is
//! centred on the position of its entity.

use crate::components::{Position, Sprite};
use crate::entity::Entity;
use crate::geometry::{clamp_position, clamp_size, Point, Rect, RectView};
use vstd::prelude::*;

verus! {

/// The signed number that an extent of the output stands for: itself up to
/// `i32::MAX`, and above it the negative number with the same 32 bits.
pub open spec fn signed_extent(extent: u32) -> int {
    if extent <= i32::MAX {
        extent as int
    } else {
        extent - 0x1_0000_0000
    }
}

/// Half of a signed number, rounded towards zero.
pub open spec fn half(value: int) -> int {
    if value >= 0 {
        value / 2
    } else {
        -((-value) / 2)
    }
}

/// Where a point of the world is shown on an output of the given size.
pub open spec fn screen_point(width: u32, height: u32, world_coord: (int, int)) -> (int, int) {
    (
        clamp_position(half(signed_extent(width)) + world_coord.0),
        clamp_position(half(signed_extent(height)) + world_coord.1),
    )
}

/// The rectangle of the screen that a sprite of the given region covers when
/// its entity stands at `world_coord`: of the region's size, centred on the
/// point where the position is shown.
pub open spec fn screen_rect(width: u32, height: u32, world_coord: (int, int), region: RectView)
    -> RectView {
    RectView {
        x: clamp_position(screen_point(width, height, world_coord).0 - clamp_size(region.width) / 2),
        y: clamp_position(
            screen_point(width, height, world_coord).1 - clamp_size(region.height) / 2,
        ),
        width: clamp_size(region.width),
        height: clamp_size(region.height),
    }
}

fn half_extent(extent: u32) -> (r: i32)
    ensures
        r == half(signed_extent(extent)),
        -0x4000_0000 <= r <= 0x3fff_ffff,
{
    let signed: i32 = if extent <= i32::MAX as u32 {
        extent as i32
    } else {
        (extent as i64 - 0x1_0000_0000) as i32
    };
    signed / 2
}

/// The point of the screen at which the point `world_coord` of the world is
/// shown, on an output `width` wide and `height` high.
pub fn screen_from_world(width: u32, height: u32, world_coord: &Point) -> (shown: Point)
    ensures
        shown@ == screen_point(width, height, world_coord@),
        shown.well_formed(),
{
    Point::new(half_extent(width) + world_coord.x(), half_extent(height) + world_coord.y())
}

/// One copy from a sprite sheet to the screen.
#[derive(Debug, PartialEq, Eq, Clone, Copy, Structural)]
pub struct Blit {
    /// Index of the spritesheet.
    pub spritesheet: usize,
    /// The region of the sheet that is copied.
    pub source: Rect,
    /// The rectangle of the screen that it is copied to.
    pub target: Rect,
}

/// What a copy is in contracts.
pub struct BlitView {
    pub spritesheet: usize,
    pub source: RectView,
    pub target: RectView,
}

impl View for Blit {
    type V = BlitView;

    open spec fn view(&self) -> BlitView {
        BlitView { spritesheet: self.spritesheet, source: self.source@, target: self.target@ }
    }
}

/// The copy that draws `sprite` for an entity at `position`.
pub open spec fn blit_of(width: u32, height: u32, position: Position, sprite: Sprite) -> BlitView {
    BlitView {
        spritesheet: sprite.spritesheet,
        source: sprite.region@,
        target: screen_rect(width, height, position.0@, sprite.region@),
    }
}

/// The copies that draw a table of entities: one for each entity that has a
/// position and a sprite, in the order of the table.
pub open spec fn blits_of(width: u32, height: u32, entities: Seq<Entity>) -> Seq<BlitView>
    decreases entities.len(),
{
    if entities.len() == 0 {
        Seq::empty()
    } else {
        let before = blits_of(width, height, entities.drop_last());
        let entity = entities.last();
        if entity.position is Some && entity.sprite is Some {
            before.push(blit_of(width, height, entity.position->0, entity.sprite->0))
        } else {
            before
        }
    }
}

/// The copy that draws `sprite` for an entity at `position`, on an output
/// `width` wide and `height` high.
pub fn place_sprite(width: u32, height: u32, position: &Position, sprite: &Sprite) -> (blit: Blit)
    ensures
        blit@ == blit_of(width, height, *position, *sprite),
{
    let screen_position = screen_from_world(width, height, &position.0);
    let target = Rect::from_center(screen_position, sprite.region.width(), sprite.region.height());
    Blit { spritesheet: sprite.spritesheet, source: sprite.region, target }
}

/// The copies that draw the entities, in the order in which to make them.
/// Entities without a position or without a sprite are not drawn.
pub fn render(width: u32, height: u32, entities: &Vec<Entity>) -> (blits: Vec<Blit>)
    ensures
        blits@.map_values(|blit: Blit| blit@) == blits_of(width, height, entities@),
{
    let mut blits: Vec<Blit> = Vec::new();
    let mut i: usize = 0;
    while i < entities.len()
        invariant
            i <= entities@.len(),
            blits@.map_values(|blit: Blit| blit@) == blits_of(width, height, entities@.take(i as int)),
        decreases entities@.len() - i,
    {
        proof {
            assert(entities@.take(i + 1).drop_last() == entities@.take(i as int));
        }
        let ghost before = blits@;
        match (&entities[i].position, &entities[i].sprite) {
            (Some(position), Some(sprite)) => {
                let blit = place_sprite(width, height, position, sprite);
                blits.push(blit);
                proof {
                    assert(blits@.map_values(|blit: Blit| blit@) == before.map_values(
                        |blit: Blit| blit@,
                    ).push(blit@));
                }
            },
            _ => {},
        }
        i = i + 1;
    }
    proof {
        assert(entities@.take(entities@.len() as int) == entities@);
    }
    blits
}

} // verus!
