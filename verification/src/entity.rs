//! The closed set of simulated entities and the capability surface each one
//! implements: per-frame update, render extraction, collidable bounds, hit
//! messages and message handling.
//!
//! Cross-entity effects travel only through `GameMessage` values delivered
//! by the resolver and `GameAction` values folded in by reconciliation; no
//! entity ever observes another directly.
use vstd::prelude::*;

use crate::asteroid::Asteroid;
use crate::bullet::{Bullet, SineBullet};
use crate::events::{GameTime, KeyEvents};
use crate::explosion::Explosion;
use crate::geometry::{Bounds, Dest, Rectangle, SUBPIXELS_PER_PIXEL};
use crate::ship::Ship;
use crate::sprites::{SpriteSheet, VisibleComponent};

verus! {

/// The fastest speed any entity moves at, in pixels per second (the
/// standard bullet's).
pub const MAX_SPEED: i64 = 1800;

/// Bound on freshly spawned coordinates, in sub-pixels: any screen position
/// fits well inside it.
pub const SPAWN_LIMIT: i64 = 5_000_000_000_000;

/// Headroom over the spawn bound for cannon offsets and the sine bullet's
/// amplitude.
pub const POS_MARGIN: i64 = 300_000;

/// A coordinate an entity can be spawned at.
pub open spec fn spawn_ok(v: int) -> bool {
    -SPAWN_LIMIT <= v <= SPAWN_LIMIT
}

/// A sine bullet's fixed vertical origin: a spawn coordinate plus a cannon
/// offset.
pub open spec fn origin_ok(v: int) -> bool {
    -(SPAWN_LIMIT + 100_000) <= v <= SPAWN_LIMIT + 100_000
}

/// A coordinate a live entity can hold at time `now`: a spawn coordinate
/// plus at most the fastest drift since the clock started.
pub open spec fn pos_ok(v: int, now: int) -> bool {
    -(SPAWN_LIMIT + POS_MARGIN + MAX_SPEED * now) <= v <= SPAWN_LIMIT + POS_MARGIN + MAX_SPEED
        * now
}

/// A velocity within the speed cap, integrated over a non-negative time
/// slice, moves a coordinate by at most the cap times the slice.
pub proof fn lemma_velocity_step(v: int, e: int)
    requires
        -MAX_SPEED <= v <= MAX_SPEED,
        0 <= e,
    ensures
        -((MAX_SPEED as int) * e) <= v * e <= (MAX_SPEED as int) * e,
{
    assert(-((MAX_SPEED as int) * e) <= v * e <= (MAX_SPEED as int) * e) by (nonlinear_arith)
        requires
            -MAX_SPEED <= v <= MAX_SPEED,
            0 <= e,
    ;
}

/// A product of two values bounded in magnitude is bounded by the product
/// of the bounds.
pub proof fn lemma_mul_abs_bound(a: int, b: int, ba: int, bb: int)
    requires
        -ba <= a <= ba,
        -bb <= b <= bb,
        0 <= ba,
        0 <= bb,
    ensures
        -(ba * bb) <= a * b <= ba * bb,
{
    assert(-(ba * bb) <= a * b <= ba * bb) by (nonlinear_arith)
        requires
            -ba <= a <= ba,
            -bb <= b <= bb,
            0 <= ba,
            0 <= bb,
    ;
}

/// The side a damage message counts against.
#[derive(Clone, Copy, Debug, PartialEq, Eq, Structural)]
pub enum DamageFilter {
    Player,
    Enemy,
}

/// The payload of a hit: whose fire it is, and how much damage it deals.
#[derive(Clone, Copy, Debug, PartialEq, Eq, Structural)]
pub struct DamageInfo {
    pub filter: DamageFilter,
    pub damage: u32,
}

/// A frame-local notification delivered between two overlapping entities.
#[derive(Clone, Copy, Debug, PartialEq, Eq, Structural)]
pub enum GameMessage {
    Hit(DamageInfo),
    Other,
}

/// The only channel by which an entity affects the population: ask to be
/// removed, or contribute new entities to the next frame.
#[derive(Debug, PartialEq)]
pub enum GameAction {
    Delete,
    AddObjects(Vec<Entity>),
}

/// The mathematical model of a `GameAction`: the spawned entities as a
/// sequence.
pub enum ActionModel {
    Delete,
    AddObjects(Seq<Entity>),
}

impl DeepView for GameAction {
    type V = ActionModel;

    open spec fn deep_view(&self) -> ActionModel {
        match self {
            GameAction::Delete => ActionModel::Delete,
            GameAction::AddObjects(v) => ActionModel::AddObjects(v.deep_view()),
        }
    }
}

/// The entities an action contributes to the next frame.
pub open spec fn action_objs(a: ActionModel) -> Seq<Entity> {
    match a {
        ActionModel::AddObjects(objs) => objs,
        ActionModel::Delete => Seq::empty(),
    }
}

/// Every entity in the sequence is valid at time `now`.
pub open spec fn objs_wf_at(objs: Seq<Entity>, now: int) -> bool {
    forall|j: int| 0 <= j < objs.len() ==> (#[trigger] objs[j]).wf_at(now)
}

/// Every entity in the sequence sits inside the position envelope of time
/// `t`.
pub open spec fn objs_pos_at(objs: Seq<Entity>, t: int) -> bool {
    forall|j: int| 0 <= j < objs.len() ==> (#[trigger] objs[j]).pos_at(t)
}

/// Every entity spawned by any action in the list is valid at time `now`.
pub open spec fn actions_wf_at(acts: Seq<ActionModel>, now: int) -> bool {
    forall|i: int| 0 <= i < acts.len() ==> objs_wf_at(action_objs(#[trigger] acts[i]), now)
}

/// A sequence of entities is its own deep view, so sequences of spawned
/// entities read back from `Vec`s without conversion.
impl DeepView for Entity {
    type V = Entity;

    open spec fn deep_view(&self) -> Entity {
        *self
    }
}

/// A vector of entities deep-views to exactly its shallow view.
pub proof fn lemma_entity_vec_view(v: Vec<Entity>)
    ensures
        v.deep_view() == v@,
{
    assert(v.deep_view() =~= v@);
}

/// The read-only surroundings an entity sees during a frame: the input
/// snapshot, the screen size in pixels, and the pre-built sprite sheets of
/// everything the simulation may spawn.
#[derive(Clone, Copy, Debug)]
pub struct Context {
    pub events: KeyEvents,
    pub screen_w: u32,
    pub screen_h: u32,
    pub explosion_sheet: SpriteSheet,
    pub asteroid_sheet: SpriteSheet,
    pub ship_sheet: SpriteSheet,
}

impl Context {
    /// The sheets are usable, the ship sheet has all nine movement frames,
    /// and the screen is large enough to hold the ship and to place an
    /// asteroid.
    pub open spec fn wf(self) -> bool {
        &&& self.explosion_sheet.wf()
        &&& self.asteroid_sheet.wf()
        &&& self.ship_sheet.wf()
        &&& self.ship_sheet.frame_count >= 9
        &&& self.screen_w >= 50
        &&& self.screen_h > 96
    }

    /// The screen as a rectangle in sub-pixel units.
    pub open spec fn screen_rect_spec(self) -> Rectangle {
        Rectangle {
            x: 0,
            y: 0,
            width: (self.screen_w as int * (SUBPIXELS_PER_PIXEL as int)) as i64,
            height: (self.screen_h as int * (SUBPIXELS_PER_PIXEL as int)) as i64,
        }
    }

    pub fn screen_rect(&self) -> (r: Rectangle)
        ensures
            r == self.screen_rect_spec(),
            r.wf(),
            0 <= r.width <= SPAWN_LIMIT,
            0 <= r.height <= SPAWN_LIMIT,
    {
        Rectangle {
            x: 0,
            y: 0,
            width: self.screen_w as i64 * SUBPIXELS_PER_PIXEL,
            height: self.screen_h as i64 * SUBPIXELS_PER_PIXEL,
        }
    }
}

/// A render list, or the conversion failure of some entity's bounds.
pub open spec fn sprites_view(r: Result<Vec<(VisibleComponent, Dest)>, ()>) -> Result<
    Seq<(VisibleComponent, Dest)>,
    (),
> {
    match r {
        Ok(v) => Ok(v@),
        Err(e) => Err(e),
    }
}

/// A live game object: one of the closed set of variants, dispatching the
/// shared capability surface.
#[derive(Clone, Copy, Debug, PartialEq)]
pub enum Entity {
    Ship(Ship),
    Bullet(Bullet),
    SineBullet(SineBullet),
    Asteroid(Asteroid),
    Explosion(Explosion),
}

impl Entity {
    /// Valid at time `now`: the variant's own invariant.
    pub open spec fn wf_at(self, now: int) -> bool {
        match self {
            Entity::Ship(s) => s.wf_at(now),
            Entity::Bullet(b) => b.wf_at(now),
            Entity::SineBullet(b) => b.wf_at(now),
            Entity::Asteroid(a) => a.wf_at(now),
            Entity::Explosion(e) => e.wf_at(now),
        }
    }

    /// The position envelope alone, at time `t`: a fresh entity spawned
    /// this frame satisfies it for every earlier time as well, since spawn
    /// coordinates sit inside the envelope's base.
    pub open spec fn pos_at(self, t: int) -> bool {
        match self {
            Entity::Ship(s) => s.pos_at(t),
            Entity::Bullet(b) => b.pos_at(t),
            Entity::SineBullet(b) => b.pos_at(t),
            Entity::Asteroid(a) => a.pos_at(t),
            Entity::Explosion(e) => e.pos_at(t),
        }
    }

    /// The collidable shape, if the entity has one; explosions do not.
    pub open spec fn bounds_spec(self) -> Option<Bounds> {
        match self {
            Entity::Ship(s) => Some(Bounds::Rectangle(s.bounds)),
            Entity::Bullet(b) => Some(Bounds::Rectangle(b.bounds)),
            Entity::SineBullet(b) => Some(Bounds::Rectangle(b.bounds)),
            Entity::Asteroid(a) => Some(a.bounds_spec()),
            Entity::Explosion(_) => None,
        }
    }

    pub fn bounds(&self, now: u32) -> (r: Option<Bounds>)
        requires
            self.wf_at(now as int),
        ensures
            r == self.bounds_spec(),
    {
        match self {
            Entity::Ship(s) => Some(Bounds::Rectangle(s.bounds)),
            Entity::Bullet(b) => Some(Bounds::Rectangle(b.bounds)),
            Entity::SineBullet(b) => Some(Bounds::Rectangle(b.bounds)),
            Entity::Asteroid(a) => Some(a.bounds(now)),
            Entity::Explosion(_) => None,
        }
    }

    /// The message dealt to whatever this entity touches: bullets deal
    /// player-filtered damage, asteroids deal damage-free enemy contact.
    pub open spec fn on_hit_spec(self) -> Option<GameMessage> {
        match self {
            Entity::Bullet(_) => Some(
                GameMessage::Hit(DamageInfo { filter: DamageFilter::Player, damage: 20 }),
            ),
            Entity::SineBullet(_) => Some(
                GameMessage::Hit(DamageInfo { filter: DamageFilter::Player, damage: 20 }),
            ),
            Entity::Asteroid(_) => Some(
                GameMessage::Hit(DamageInfo { filter: DamageFilter::Enemy, damage: 0 }),
            ),
            Entity::Ship(_) => None,
            Entity::Explosion(_) => None,
        }
    }

    pub fn on_hit(&self) -> (r: Option<GameMessage>)
        ensures
            r == self.on_hit_spec(),
    {
        match self {
            Entity::Bullet(_) => Some(
                GameMessage::Hit(DamageInfo { filter: DamageFilter::Player, damage: 20 }),
            ),
            Entity::SineBullet(_) => Some(
                GameMessage::Hit(DamageInfo { filter: DamageFilter::Player, damage: 20 }),
            ),
            Entity::Asteroid(_) => Some(
                GameMessage::Hit(DamageInfo { filter: DamageFilter::Enemy, damage: 0 }),
            ),
            Entity::Ship(_) => None,
            Entity::Explosion(_) => None,
        }
    }

    /// One frame of the entity's own behaviour: motion, clocks and
    /// self-issued actions, reading only its own state, the time and the
    /// context.
    pub open spec fn update_spec(self, ctx: Context, time: GameTime) -> (Entity, Seq<ActionModel>) {
        match self {
            Entity::Ship(s) => {
                let (s2, acts) = s.update_spec(ctx, time);
                (Entity::Ship(s2), acts)
            },
            Entity::Bullet(b) => {
                let (b2, acts) = b.update_spec(ctx, time);
                (Entity::Bullet(b2), acts)
            },
            Entity::SineBullet(b) => {
                let (b2, acts) = b.update_spec(ctx, time);
                (Entity::SineBullet(b2), acts)
            },
            Entity::Asteroid(a) => (Entity::Asteroid(a.update_spec(time)), Seq::empty()),
            Entity::Explosion(e) => (self, e.update_spec(time)),
        }
    }

    pub fn update(&mut self, ctx: &Context, time: GameTime) -> (acts: Vec<GameAction>)
        requires
            ctx.wf(),
            time.wf(),
            old(self).wf_at(time.total as int),
            old(self).pos_at(time.total as int - time.elapsed as int),
        ensures
            (*final(self), acts.deep_view()) == old(self).update_spec(*ctx, time),
            final(self).wf_at(time.total as int),
            actions_wf_at(acts.deep_view(), time.total as int),
    {
        match self {
            Entity::Ship(s) => s.update(ctx, time),
            Entity::Bullet(b) => b.update(ctx, time),
            Entity::SineBullet(b) => b.update(ctx, time),
            Entity::Asteroid(a) => a.update(time),
            Entity::Explosion(e) => e.update(time),
        }
    }

    /// React to a message delivered by the resolver. Ships and explosions
    /// ignore messages by design.
    pub open spec fn receive_spec(self, ctx: Context, time: GameTime, msg: GameMessage) -> (
        Entity,
        Seq<ActionModel>,
    ) {
        match self {
            Entity::Bullet(b) => {
                let (b2, acts) = b.receive_spec(ctx, time, msg);
                (Entity::Bullet(b2), acts)
            },
            Entity::SineBullet(b) => {
                let (b2, acts) = b.receive_spec(ctx, time, msg);
                (Entity::SineBullet(b2), acts)
            },
            Entity::Asteroid(a) => {
                let (a2, acts) = a.receive_spec(ctx, time, msg);
                (Entity::Asteroid(a2), acts)
            },
            Entity::Ship(_) => (self, Seq::empty()),
            Entity::Explosion(_) => (self, Seq::empty()),
        }
    }

    pub fn receive_message(&mut self, ctx: &Context, time: GameTime, msg: GameMessage) -> (acts:
        Vec<GameAction>)
        requires
            ctx.wf(),
            old(self).wf_at(time.total as int),
        ensures
            (*final(self), acts.deep_view()) == old(self).receive_spec(*ctx, time, msg),
            final(self).wf_at(time.total as int),
            actions_wf_at(acts.deep_view(), time.total as int),
    {
        match self {
            Entity::Bullet(b) => b.receive_message(ctx, time, msg),
            Entity::SineBullet(b) => b.receive_message(ctx, time, msg),
            Entity::Asteroid(a) => a.receive_message(ctx, time, msg),
            Entity::Ship(_) => {
                let acts: Vec<GameAction> = Vec::new();
                proof {
                    assert(acts.deep_view() =~= Seq::<ActionModel>::empty());
                }
                acts
            },
            Entity::Explosion(_) => {
                let acts: Vec<GameAction> = Vec::new();
                proof {
                    assert(acts.deep_view() =~= Seq::<ActionModel>::empty());
                }
                acts
            },
        }
    }

    /// The renderable placements of this entity at the given time.
    pub open spec fn sprites_spec(self, time: GameTime) -> Result<
        Seq<(VisibleComponent, Dest)>,
        (),
    > {
        match self {
            Entity::Ship(s) => s.sprites_spec(),
            Entity::Bullet(b) => b.sprites_spec(),
            Entity::SineBullet(b) => b.sprites_spec(),
            Entity::Asteroid(a) => a.sprites_spec(time),
            Entity::Explosion(e) => e.sprites_spec(time),
        }
    }

    pub fn sprites(&self, time: GameTime) -> (r: Result<Vec<(VisibleComponent, Dest)>, ()>)
        requires
            self.wf_at(time.total as int),
        ensures
            sprites_view(r) == self.sprites_spec(time),
    {
        match self {
            Entity::Ship(s) => s.sprites(time.total),
            Entity::Bullet(b) => b.sprites(time.total),
            Entity::SineBullet(b) => b.sprites(time.total),
            Entity::Asteroid(a) => a.sprites(time),
            Entity::Explosion(e) => e.sprites(time),
        }
    }
}

} // verus!
