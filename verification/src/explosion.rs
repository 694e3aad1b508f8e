//! The explosion entity: a fixed-position animation that deletes itself
//! once it has played through.
use vstd::prelude::*;

use crate::entity::{pos_ok, ActionModel, GameAction};
use crate::events::GameTime;
use crate::geometry::{Dest, Rectangle};
use crate::sprites::{AnimatedSprite, SpriteSheet, VisibleComponent};

verus! {

/// Frame rate of the explosion animation, frames per second.
pub const EXPLOSION_FPS: u32 = 40;

/// Side length of a full-size explosion, in sub-pixels (96 pixels).
pub const EXPLOSION_EXTENT: i64 = 96_000;

/// Largest extent an explosion rectangle may carry, in sub-pixels.
pub const EXPLOSION_EXTENT_LIMIT: i64 = 1_000_000;

#[derive(Clone, Copy, Debug, PartialEq)]
pub struct Explosion {
    pub sprite: AnimatedSprite,
    pub bounds: Rectangle,
}

impl Explosion {
    /// The position envelope alone, at time `t`.
    pub open spec fn pos_at(self, t: int) -> bool {
        &&& pos_ok(self.bounds.x as int, t)
        &&& pos_ok(self.bounds.y as int, t)
    }

    /// Valid at time `now`: the animation started in the past and the
    /// position is inside the simulation's coordinate envelope.
    pub open spec fn wf_at(self, now: int) -> bool {
        &&& self.sprite.wf()
        &&& self.sprite.started_at <= now
        &&& self.pos_at(now)
        &&& 0 <= self.bounds.width <= EXPLOSION_EXTENT_LIMIT
        &&& 0 <= self.bounds.height <= EXPLOSION_EXTENT_LIMIT
    }

    pub open spec fn new_spec(sheet: SpriteSheet, now: u32, bounds: Rectangle) -> Explosion {
        Explosion {
            sprite: AnimatedSprite { sheet, fps: EXPLOSION_FPS, started_at: now },
            bounds,
        }
    }

    /// An explosion animation over the given bounds, starting now.
    pub fn with_bounds(sheet: SpriteSheet, now: u32, bounds: Rectangle) -> (r: Explosion)
        requires
            sheet.wf(),
        ensures
            r == Explosion::new_spec(sheet, now, bounds),
    {
        Explosion { sprite: AnimatedSprite::from_spritesheet(now, EXPLOSION_FPS, sheet), bounds }
    }

    /// A full-size explosion with its top-left corner at the given position.
    pub fn new(sheet: SpriteSheet, now: u32, x: i64, y: i64) -> (r: Explosion)
        requires
            sheet.wf(),
        ensures
            r == Explosion::new_spec(
                sheet,
                now,
                Rectangle { x, y, width: EXPLOSION_EXTENT, height: EXPLOSION_EXTENT },
            ),
    {
        Explosion::with_bounds(
            sheet,
            now,
            Rectangle { x, y, width: EXPLOSION_EXTENT, height: EXPLOSION_EXTENT },
        )
    }

    /// Self-delete once the animation has played through; no other effect.
    pub open spec fn update_spec(self, time: GameTime) -> Seq<ActionModel> {
        if self.sprite.completed_spec(time.total) {
            seq![ActionModel::Delete]
        } else {
            Seq::empty()
        }
    }

    pub fn update(&self, time: GameTime) -> (acts: Vec<GameAction>)
        requires
            self.wf_at(time.total as int),
        ensures
            acts.deep_view() == self.update_spec(time),
    {
        if self.sprite.completed(time.total) {
            let acts: Vec<GameAction> = vec![GameAction::Delete];
            proof {
                assert(acts.deep_view() =~= seq![ActionModel::Delete]);
            }
            acts
        } else {
            let acts: Vec<GameAction> = Vec::new();
            proof {
                assert(acts.deep_view() =~= Seq::<ActionModel>::empty());
            }
            acts
        }
    }

    /// The current animation frame, placed over the explosion's bounds.
    pub open spec fn sprites_spec(self, time: GameTime) -> Result<
        Seq<(VisibleComponent, Dest)>,
        (),
    > {
        match self.bounds.to_dest_spec() {
            Ok(d) => Ok(
                seq![(VisibleComponent::Sprite(self.sprite.frame_now_spec(time.total)), d)],
            ),
            Err(e) => Err(e),
        }
    }

    pub fn sprites(&self, time: GameTime) -> (r: Result<Vec<(VisibleComponent, Dest)>, ()>)
        requires
            self.wf_at(time.total as int),
        ensures
            crate::entity::sprites_view(r) == self.sprites_spec(time),
    {
        match self.bounds.to_dest() {
            Ok(d) => {
                let frame = self.sprite.frame(time.total);
                let out: Vec<(VisibleComponent, Dest)> = vec![
                    (VisibleComponent::Sprite(frame), d),
                ];
                proof {
                    assert(out@ =~= seq![
                        (VisibleComponent::Sprite(self.sprite.frame_now_spec(time.total)), d),
                    ]);
                }
                Ok(out)
            },
            Err(()) => Err(()),
        }
    }
}

} // verus!
