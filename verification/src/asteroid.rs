//! The asteroid entity: drifts left at constant velocity, absorbs hits
//! until one exceeds its remaining hit points, then explodes.
use vstd::prelude::*;

use crate::entity::{actions_wf_at, pos_ok, spawn_ok, ActionModel, Context, Entity, GameAction,
    GameMessage, MAX_SPEED};
use crate::events::GameTime;
use crate::explosion::{Explosion, EXPLOSION_EXTENT};
use crate::geometry::{Bounds, Circle, Dest, Rectangle};
use crate::sprites::{AnimatedSprite, SpriteSheet, VisibleComponent};

verus! {

/// Frame rate of the asteroid animation, frames per second.
pub const ASTEROID_FPS: u32 = 30;

/// Side length of an asteroid's rectangle, in sub-pixels (96 pixels).
pub const ASTEROID_EXTENT: i64 = 96_000;

/// Radius of an asteroid's collidable circle, in sub-pixels (40 pixels).
pub const ASTEROID_RADIUS: i64 = 40_000;

/// Hit points of a fresh asteroid.
pub const ASTEROID_HP: u32 = 100;

/// Horizontal drift, in pixels per second (leftward).
pub const ASTEROID_VELOCITY_X: i64 = -50;

#[derive(Clone, Copy, Debug, PartialEq)]
pub struct Asteroid {
    pub sprite: AnimatedSprite,
    pub hp: u32,
    pub bounds: Rectangle,
    pub velocity: (i64, i64),
}

impl Asteroid {
    /// The position envelope alone, at time `t`.
    pub open spec fn pos_at(self, t: int) -> bool {
        &&& pos_ok(self.bounds.x as int, t)
        &&& pos_ok(self.bounds.y as int, t)
    }

    pub open spec fn wf_at(self, now: int) -> bool {
        &&& self.sprite.wf()
        &&& self.sprite.started_at <= now
        &&& self.pos_at(now)
        &&& self.bounds.width == ASTEROID_EXTENT
        &&& self.bounds.height == ASTEROID_EXTENT
        &&& -MAX_SPEED <= self.velocity.0 <= MAX_SPEED
        &&& -MAX_SPEED <= self.velocity.1 <= MAX_SPEED
    }

    pub open spec fn new_spec(sheet: SpriteSheet, now: u32, x: i64, y: i64) -> Asteroid {
        Asteroid {
            sprite: AnimatedSprite { sheet, fps: ASTEROID_FPS, started_at: now },
            hp: ASTEROID_HP,
            bounds: Rectangle { x, y, width: ASTEROID_EXTENT, height: ASTEROID_EXTENT },
            velocity: (ASTEROID_VELOCITY_X, 0),
        }
    }

    /// A fresh asteroid with its top-left corner at the given position.
    pub fn new(sheet: SpriteSheet, now: u32, x: i64, y: i64) -> (r: Asteroid)
        requires
            sheet.wf(),
            spawn_ok(x as int),
            spawn_ok(y as int),
        ensures
            r == Asteroid::new_spec(sheet, now, x, y),
            r.wf_at(now as int),
    {
        Asteroid {
            sprite: AnimatedSprite::from_spritesheet(now, ASTEROID_FPS, sheet),
            hp: ASTEROID_HP,
            bounds: Rectangle { x, y, width: ASTEROID_EXTENT, height: ASTEROID_EXTENT },
            velocity: (ASTEROID_VELOCITY_X, 0),
        }
    }

    /// One frame of drift: the position advances by velocity times elapsed
    /// time; nothing else changes and no action is emitted.
    pub open spec fn update_spec(self, time: GameTime) -> Asteroid {
        Asteroid {
            bounds: Rectangle {
                x: (self.bounds.x + self.velocity.0 * time.elapsed) as i64,
                y: (self.bounds.y + self.velocity.1 * time.elapsed) as i64,
                ..self.bounds
            },
            ..self
        }
    }

    pub fn update(&mut self, time: GameTime) -> (acts: Vec<GameAction>)
        requires
            time.wf(),
            old(self).wf_at(time.total as int),
            old(self).pos_at(time.total as int - time.elapsed as int),
        ensures
            *final(self) == old(self).update_spec(time),
            final(self).wf_at(time.total as int),
            acts.deep_view() == Seq::<ActionModel>::empty(),
    {
        proof {
            crate::entity::lemma_velocity_step(self.velocity.0 as int, time.elapsed as int);
            crate::entity::lemma_velocity_step(self.velocity.1 as int, time.elapsed as int);
        }
        self.bounds.x = self.bounds.x + self.velocity.0 * time.elapsed as i64;
        self.bounds.y = self.bounds.y + self.velocity.1 * time.elapsed as i64;
        let acts: Vec<GameAction> = Vec::new();
        proof {
            assert(acts.deep_view() =~= Seq::<ActionModel>::empty());
        }
        acts
    }

    /// One update moves an asteroid by exactly its velocity times the
    /// elapsed time; hit points and velocity are untouched, and no action
    /// is emitted.
    pub proof fn lemma_motion(self, time: GameTime)
        requires
            time.wf(),
            self.wf_at(time.total as int),
            self.pos_at(time.total as int - time.elapsed as int),
        ensures
            ({
                let a2 = self.update_spec(time);
                &&& a2.bounds.x == self.bounds.x + self.velocity.0 * time.elapsed
                &&& a2.bounds.y == self.bounds.y + self.velocity.1 * time.elapsed
                &&& a2.hp == self.hp
                &&& a2.velocity == self.velocity
            }),
    {
        crate::entity::lemma_velocity_step(self.velocity.0 as int, time.elapsed as int);
        crate::entity::lemma_velocity_step(self.velocity.1 as int, time.elapsed as int);
    }

    /// The collidable shape: a circle centred on the sprite's square.
    pub open spec fn bounds_spec(self) -> Bounds {
        Bounds::Circle(
            Circle {
                x: (self.bounds.x + self.bounds.width / 2) as i64,
                y: (self.bounds.y + self.bounds.width / 2) as i64,
                radius: ASTEROID_RADIUS,
            },
        )
    }

    pub fn bounds(&self, now: u32) -> (r: Bounds)
        requires
            self.wf_at(now as int),
        ensures
            r == self.bounds_spec(),
    {
        let half: i64 = self.bounds.width / 2;
        Bounds::Circle(
            Circle { x: self.bounds.x + half, y: self.bounds.y + half, radius: ASTEROID_RADIUS },
        )
    }

    /// React to a hit: damage above the remaining hit points destroys the
    /// asteroid and spawns a full-size explosion; otherwise the damage is
    /// deducted. Damage equal to the remaining hit points does not destroy.
    pub open spec fn receive_spec(self, ctx: Context, time: GameTime, msg: GameMessage) -> (
        Asteroid,
        Seq<ActionModel>,
    ) {
        match msg {
            GameMessage::Hit(info) => {
                if info.damage > self.hp {
                    (
                        self,
                        seq![
                            ActionModel::AddObjects(
                                seq![
                                    Entity::Explosion(
                                        Explosion::new_spec(
                                            ctx.explosion_sheet,
                                            time.total,
                                            Rectangle {
                                                x: self.bounds.x,
                                                y: self.bounds.y,
                                                width: EXPLOSION_EXTENT,
                                                height: EXPLOSION_EXTENT,
                                            },
                                        ),
                                    ),
                                ],
                            ),
                            ActionModel::Delete,
                        ],
                    )
                } else {
                    (Asteroid { hp: (self.hp - info.damage) as u32, ..self }, Seq::empty())
                }
            },
            GameMessage::Other => (self, Seq::empty()),
        }
    }

    pub fn receive_message(&mut self, ctx: &Context, time: GameTime, msg: GameMessage) -> (acts:
        Vec<GameAction>)
        requires
            ctx.wf(),
            old(self).wf_at(time.total as int),
        ensures
            (*final(self), acts.deep_view()) == old(self).receive_spec(*ctx, time, msg),
            final(self).wf_at(time.total as int),
            actions_wf_at(acts.deep_view(), time.total as int),
    {
        match msg {
            GameMessage::Hit(info) => {
                if info.damage > self.hp {
                    let boom = Explosion::new(
                        ctx.explosion_sheet,
                        time.total,
                        self.bounds.x,
                        self.bounds.y,
                    );
                    let objs: Vec<Entity> = vec![Entity::Explosion(boom)];
                    proof {
                        assert(objs.deep_view() =~= seq![Entity::Explosion(boom)]);
                    }
                    let ghost objs_view = objs.deep_view();
                    let acts: Vec<GameAction> = vec![
                        GameAction::AddObjects(objs),
                        GameAction::Delete,
                    ];
                    proof {
                        assert(acts.deep_view() =~= seq![
                            ActionModel::AddObjects(objs_view),
                            ActionModel::Delete,
                        ]);
                    }
                    acts
                } else {
                    self.hp = self.hp - info.damage;
                    let acts: Vec<GameAction> = Vec::new();
                    proof {
                        assert(acts.deep_view() =~= Seq::<ActionModel>::empty());
                    }
                    acts
                }
            },
            GameMessage::Other => {
                let acts: Vec<GameAction> = Vec::new();
                proof {
                    assert(acts.deep_view() =~= Seq::<ActionModel>::empty());
                }
                acts
            },
        }
    }

    /// The current animation frame, placed over the asteroid's square.
    pub open spec fn sprites_spec(self, time: GameTime) -> Result<
        Seq<(VisibleComponent, Dest)>,
        (),
    > {
        match self.bounds.to_dest_spec() {
            Ok(d) => Ok(
                seq![(VisibleComponent::Sprite(self.sprite.frame_now_spec(time.total)), d)],
            ),
            Err(e) => Err(e),
        }
    }

    pub fn sprites(&self, time: GameTime) -> (r: Result<Vec<(VisibleComponent, Dest)>, ()>)
        requires
            self.wf_at(time.total as int),
        ensures
            crate::entity::sprites_view(r) == self.sprites_spec(time),
    {
        match self.bounds.to_dest() {
            Ok(d) => {
                let frame = self.sprite.frame(time.total);
                let out: Vec<(VisibleComponent, Dest)> = vec![
                    (VisibleComponent::Sprite(frame), d),
                ];
                proof {
                    assert(out@ =~= seq![
                        (VisibleComponent::Sprite(self.sprite.frame_now_spec(time.total)), d),
                    ]);
                }
                Ok(out)
            },
            Err(()) => Err(()),
        }
    }
}

} // verus!
