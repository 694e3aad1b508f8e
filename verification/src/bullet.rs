//! The projectile entities: the standard bullet with straight, fast motion,
//! and the sine-wave bullet that oscillates around its spawn row.
use vstd::prelude::*;

use crate::entity::{actions_wf_at, origin_ok, pos_ok, ActionModel, Context, Entity, GameAction,
    GameMessage, MAX_SPEED};
use crate::events::GameTime;
use crate::explosion::Explosion;
use crate::geometry::{subpixels_to_pixels, to_px, Dest, Rectangle};
use crate::sine::{sin_milli, sin_milli_spec, TWO_PI_MRAD};
use crate::sprites::{Color, VisibleComponent, VisibleRect};

verus! {

/// Width of a bullet, in sub-pixels (8 pixels).
pub const BULLET_WIDTH: i64 = 8_000;

/// Height of a bullet, in sub-pixels (4 pixels).
pub const BULLET_HEIGHT: i64 = 4_000;

/// Horizontal speed of a standard bullet, in pixels per second.
pub const BULLET_VELOCITY_X: i64 = 1800;

/// Horizontal speed of a sine-wave bullet, in pixels per second.
pub const SINE_BULLET_VELOCITY_X: i64 = 270;

/// Angular velocity of the sine oscillation: 4 radians per second, which is
/// 4 milliradians per millisecond.
pub const SINE_ANGULAR_VELOCITY: i64 = 4;

/// Largest oscillation amplitude, in sub-pixels (90 pixels).
pub const AMPLITUDE_LIMIT: i64 = 90_000;

/// Explosion size left behind by a destroyed bullet, in sub-pixels.
pub const BULLET_EXPLOSION_EXTENT: i64 = 10_000;

/// A bullet moving at constant velocity, deleted once it leaves the screen.
#[derive(Clone, Copy, Debug, PartialEq)]
pub struct Bullet {
    pub bounds: Rectangle,
    pub velocity: (i64, i64),
}

impl Bullet {
    /// The position envelope alone, at time `t`.
    pub open spec fn pos_at(self, t: int) -> bool {
        &&& pos_ok(self.bounds.x as int, t)
        &&& pos_ok(self.bounds.y as int, t)
    }

    pub open spec fn wf_at(self, now: int) -> bool {
        &&& self.pos_at(now)
        &&& self.bounds.width == BULLET_WIDTH
        &&& self.bounds.height == BULLET_HEIGHT
        &&& -MAX_SPEED <= self.velocity.0 <= MAX_SPEED
        &&& -MAX_SPEED <= self.velocity.1 <= MAX_SPEED
    }

    pub open spec fn new_spec(x: i64, y: i64) -> Bullet {
        Bullet {
            bounds: Rectangle { x, y, width: BULLET_WIDTH, height: BULLET_HEIGHT },
            velocity: (BULLET_VELOCITY_X, 0),
        }
    }

    /// A standard bullet with its top-left corner at the given position.
    pub fn new(x: i64, y: i64) -> (r: Bullet)
        ensures
            r == Bullet::new_spec(x, y),
    {
        Bullet {
            bounds: Rectangle { x, y, width: BULLET_WIDTH, height: BULLET_HEIGHT },
            velocity: (BULLET_VELOCITY_X, 0),
        }
    }

    /// One frame of motion, then a self-delete once the bounds no longer
    /// overlap the screen rectangle.
    pub open spec fn update_spec(self, ctx: Context, time: GameTime) -> (Bullet, Seq<ActionModel>) {
        let moved = Bullet {
            bounds: Rectangle {
                x: (self.bounds.x + self.velocity.0 * time.elapsed) as i64,
                y: (self.bounds.y + self.velocity.1 * time.elapsed) as i64,
                ..self.bounds
            },
            ..self
        };
        if moved.bounds.overlaps(ctx.screen_rect_spec()) {
            (moved, Seq::empty())
        } else {
            (moved, seq![ActionModel::Delete])
        }
    }

    pub fn update(&mut self, ctx: &Context, time: GameTime) -> (acts: Vec<GameAction>)
        requires
            ctx.wf(),
            time.wf(),
            old(self).wf_at(time.total as int),
            old(self).pos_at(time.total as int - time.elapsed as int),
        ensures
            (*final(self), acts.deep_view()) == old(self).update_spec(*ctx, time),
            final(self).wf_at(time.total as int),
    {
        proof {
            crate::entity::lemma_velocity_step(self.velocity.0 as int, time.elapsed as int);
            crate::entity::lemma_velocity_step(self.velocity.1 as int, time.elapsed as int);
        }
        self.bounds.x = self.bounds.x + self.velocity.0 * time.elapsed as i64;
        self.bounds.y = self.bounds.y + self.velocity.1 * time.elapsed as i64;
        let screen = ctx.screen_rect();
        if self.bounds.intersects(&screen) {
            let acts: Vec<GameAction> = Vec::new();
            proof {
                assert(acts.deep_view() =~= Seq::<ActionModel>::empty());
            }
            acts
        } else {
            let acts: Vec<GameAction> = vec![GameAction::Delete];
            proof {
                assert(acts.deep_view() =~= seq![ActionModel::Delete]);
            }
            acts
        }
    }

    /// A hit from the player's own side is ignored; any other message
    /// destroys the bullet and leaves a small explosion.
    pub open spec fn receive_spec(self, ctx: Context, time: GameTime, msg: GameMessage) -> (
        Bullet,
        Seq<ActionModel>,
    ) {
        bullet_reaction_spec(self, self.bounds, ctx, time, msg)
    }

    pub fn receive_message(&mut self, ctx: &Context, time: GameTime, msg: GameMessage) -> (acts:
        Vec<GameAction>)
        requires
            ctx.wf(),
            old(self).wf_at(time.total as int),
        ensures
            (*final(self), acts.deep_view()) == old(self).receive_spec(*ctx, time, msg),
            final(self).wf_at(time.total as int),
            actions_wf_at(acts.deep_view(), time.total as int),
    {
        bullet_reaction(self.bounds, ctx, time, msg)
    }
}

/// One update moves a standard bullet by exactly its velocity times the
/// elapsed time, read back through its bounds.
pub proof fn lemma_bullet_motion(b: Bullet, ctx: Context, time: GameTime)
    requires
        time.wf(),
        b.wf_at(time.total as int),
        b.pos_at(time.total as int - time.elapsed as int),
    ensures
        ({
            let (b2, _) = b.update_spec(ctx, time);
            &&& b2.bounds.x == b.bounds.x + b.velocity.0 * time.elapsed
            &&& b2.bounds.y == b.bounds.y + b.velocity.1 * time.elapsed
            &&& b2.bounds.width == b.bounds.width
            &&& b2.bounds.height == b.bounds.height
            &&& b2.velocity == b.velocity
        }),
{
    crate::entity::lemma_velocity_step(b.velocity.0 as int, time.elapsed as int);
    crate::entity::lemma_velocity_step(b.velocity.1 as int, time.elapsed as int);
}

/// One update moves a sine-wave bullet horizontally by exactly its constant
/// velocity times the elapsed time, and places it vertically at its origin
/// plus the amplitude-scaled sine of its phase.
pub proof fn lemma_sine_bullet_motion(b: SineBullet, ctx: Context, time: GameTime)
    requires
        time.wf(),
        b.wf_at(time.total as int),
        b.pos_at(time.total as int - time.elapsed as int),
    ensures
        ({
            let (b2, _) = b.update_spec(ctx, time);
            &&& b2.bounds.x == b.bounds.x + SINE_BULLET_VELOCITY_X * time.elapsed
            &&& b2.bounds.y == b.origin_y + to_px(
                b.amplitude * sin_milli_spec(b.phase_spec(time.total)),
            )
            &&& b2.origin_y == b.origin_y
            &&& b2.amplitude == b.amplitude
            &&& b2.born_at == b.born_at
        }),
{
    crate::sine::lemma_sin_milli_bounds(b.phase_spec(time.total));
    crate::entity::lemma_mul_abs_bound(
        b.amplitude as int,
        sin_milli_spec(b.phase_spec(time.total)),
        AMPLITUDE_LIMIT as int,
        1000,
    );
}

/// The shared hit reaction of both bullet kinds: survive a player-filtered
/// hit, otherwise delete and spawn a small explosion at the bullet's corner.
pub open spec fn bullet_reaction_actions_spec(
    bounds: Rectangle,
    ctx: Context,
    time: GameTime,
    msg: GameMessage,
) -> Seq<ActionModel> {
    match msg {
        GameMessage::Hit(info) => {
            if info.filter is Player {
                Seq::empty()
            } else {
                bullet_explosion_actions(bounds, ctx, time)
            }
        },
        GameMessage::Other => bullet_explosion_actions(bounds, ctx, time),
    }
}

/// Delete, plus a small explosion at the bullet's corner.
pub open spec fn bullet_explosion_actions(bounds: Rectangle, ctx: Context, time: GameTime) -> Seq<
    ActionModel,
> {
    seq![
        ActionModel::Delete,
        ActionModel::AddObjects(
            seq![
                Entity::Explosion(
                    Explosion::new_spec(
                        ctx.explosion_sheet,
                        time.total,
                        Rectangle {
                            x: bounds.x,
                            y: bounds.y,
                            width: BULLET_EXPLOSION_EXTENT,
                            height: BULLET_EXPLOSION_EXTENT,
                        },
                    ),
                ),
            ],
        ),
    ]
}

/// Helper carrying the reaction's spec value for a bullet of either kind.
pub open spec fn bullet_reaction_spec<T>(
    unchanged: T,
    bounds: Rectangle,
    ctx: Context,
    time: GameTime,
    msg: GameMessage,
) -> (T, Seq<ActionModel>) {
    (unchanged, bullet_reaction_actions_spec(bounds, ctx, time, msg))
}

/// Execute the shared hit reaction; the receiving bullet itself is left
/// unchanged (deletion happens at reconciliation).
fn bullet_reaction(bounds: Rectangle, ctx: &Context, time: GameTime, msg: GameMessage) -> (acts:
    Vec<GameAction>)
    requires
        ctx.wf(),
        pos_ok(bounds.x as int, time.total as int),
        pos_ok(bounds.y as int, time.total as int),
    ensures
        acts.deep_view() == bullet_reaction_actions_spec(bounds, *ctx, time, msg),
        actions_wf_at(acts.deep_view(), time.total as int),
{
    let explode: bool = match msg {
        GameMessage::Hit(info) => !matches!(info.filter, crate::entity::DamageFilter::Player),
        GameMessage::Other => true,
    };
    if explode {
        let boom = Explosion::with_bounds(
            ctx.explosion_sheet,
            time.total,
            Rectangle {
                x: bounds.x,
                y: bounds.y,
                width: BULLET_EXPLOSION_EXTENT,
                height: BULLET_EXPLOSION_EXTENT,
            },
        );
        let objs: Vec<Entity> = vec![Entity::Explosion(boom)];
        proof {
            assert(objs.deep_view() =~= seq![Entity::Explosion(boom)]);
        }
        let ghost objs_view = objs.deep_view();
        let acts: Vec<GameAction> = vec![GameAction::Delete, GameAction::AddObjects(objs)];
        proof {
            assert(acts.deep_view() =~= seq![
                ActionModel::Delete,
                ActionModel::AddObjects(objs_view),
            ]);
        }
        acts
    } else {
        let acts: Vec<GameAction> = Vec::new();
        proof {
            assert(acts.deep_view() =~= Seq::<ActionModel>::empty());
        }
        acts
    }
}

/// A bullet whose vertical position oscillates around the row it was fired
/// from, while it flies right at constant speed.
#[derive(Clone, Copy, Debug, PartialEq)]
pub struct SineBullet {
    pub bounds: Rectangle,
    pub born_at: u32,
    pub origin_y: i64,
    pub amplitude: i64,
}

impl SineBullet {
    /// The position envelope alone, at time `t`.
    pub open spec fn pos_at(self, t: int) -> bool {
        &&& pos_ok(self.bounds.x as int, t)
        &&& pos_ok(self.bounds.y as int, t)
    }

    pub open spec fn wf_at(self, now: int) -> bool {
        &&& self.born_at <= now
        &&& origin_ok(self.origin_y as int)
        &&& -AMPLITUDE_LIMIT <= self.amplitude <= AMPLITUDE_LIMIT
        &&& self.pos_at(now)
        &&& self.bounds.width == BULLET_WIDTH
        &&& self.bounds.height == BULLET_HEIGHT
    }

    pub open spec fn new_spec(x: i64, y: i64, amplitude: i64, now: u32) -> SineBullet {
        SineBullet {
            bounds: Rectangle { x, y, width: BULLET_WIDTH, height: BULLET_HEIGHT },
            born_at: now,
            origin_y: y,
            amplitude,
        }
    }

    /// A sine-wave bullet fired now from the given position; the vertical
    /// origin of the oscillation is the spawn row.
    pub fn new(x: i64, y: i64, amplitude: i64, now: u32) -> (r: SineBullet)
        ensures
            r == SineBullet::new_spec(x, y, amplitude, now),
    {
        SineBullet {
            bounds: Rectangle { x, y, width: BULLET_WIDTH, height: BULLET_HEIGHT },
            born_at: now,
            origin_y: y,
            amplitude,
        }
    }

    /// The phase of the oscillation at `total`, in milliradians within one
    /// turn.
    pub open spec fn phase_spec(self, total: u32) -> int {
        (SINE_ANGULAR_VELOCITY * (total - self.born_at)) % (TWO_PI_MRAD as int)
    }

    /// One frame of motion: constant horizontal speed, vertical position
    /// recomputed as origin plus amplitude times the sine of the phase.
    /// Deleted only once it is fully off the screen's left or right edge;
    /// a bullet straddling an edge is still partly visible and lives on.
    pub open spec fn update_spec(self, ctx: Context, time: GameTime) -> (
        SineBullet,
        Seq<ActionModel>,
    ) {
        let y2 = self.origin_y + to_px(self.amplitude * sin_milli_spec(self.phase_spec(time.total)));
        let moved = SineBullet {
            bounds: Rectangle {
                x: (self.bounds.x + SINE_BULLET_VELOCITY_X * time.elapsed) as i64,
                y: y2 as i64,
                ..self.bounds
            },
            ..self
        };
        let screen = ctx.screen_rect_spec();
        if moved.bounds.x + moved.bounds.width > screen.x && moved.bounds.x < screen.x
            + screen.width {
            (moved, Seq::empty())
        } else {
            (moved, seq![ActionModel::Delete])
        }
    }

    pub fn update(&mut self, ctx: &Context, time: GameTime) -> (acts: Vec<GameAction>)
        requires
            ctx.wf(),
            time.wf(),
            old(self).wf_at(time.total as int),
            old(self).pos_at(time.total as int - time.elapsed as int),
        ensures
            (*final(self), acts.deep_view()) == old(self).update_spec(*ctx, time),
            final(self).wf_at(time.total as int),
    {
        let alive: u32 = time.total - self.born_at;
        let phase: i64 = (SINE_ANGULAR_VELOCITY * alive as i64) % TWO_PI_MRAD;
        let s: i64 = sin_milli(phase);
        proof {
            crate::entity::lemma_mul_abs_bound(
                self.amplitude as int,
                s as int,
                AMPLITUDE_LIMIT as int,
                1000,
            );
        }
        self.bounds.x = self.bounds.x + SINE_BULLET_VELOCITY_X * time.elapsed as i64;
        self.bounds.y = self.origin_y + subpixels_to_pixels(self.amplitude * s);
        let screen = ctx.screen_rect();
        if self.bounds.right() > screen.left() && self.bounds.left() < screen.right() {
            let acts: Vec<GameAction> = Vec::new();
            proof {
                assert(acts.deep_view() =~= Seq::<ActionModel>::empty());
            }
            acts
        } else {
            let acts: Vec<GameAction> = vec![GameAction::Delete];
            proof {
                assert(acts.deep_view() =~= seq![ActionModel::Delete]);
            }
            acts
        }
    }

    /// Same hit reaction as the standard bullet.
    pub open spec fn receive_spec(self, ctx: Context, time: GameTime, msg: GameMessage) -> (
        SineBullet,
        Seq<ActionModel>,
    ) {
        bullet_reaction_spec(self, self.bounds, ctx, time, msg)
    }

    pub fn receive_message(&mut self, ctx: &Context, time: GameTime, msg: GameMessage) -> (acts:
        Vec<GameAction>)
        requires
            ctx.wf(),
            old(self).wf_at(time.total as int),
        ensures
            (*final(self), acts.deep_view()) == old(self).receive_spec(*ctx, time, msg),
            final(self).wf_at(time.total as int),
            actions_wf_at(acts.deep_view(), time.total as int),
    {
        bullet_reaction(self.bounds, ctx, time, msg)
    }
}

/// The filled rectangle drawn for a standard bullet.
pub open spec fn bullet_color() -> Color {
    Color { r: 230, g: 230, b: 30 }
}

/// The filled rectangle drawn for a sine-wave bullet.
pub open spec fn sine_bullet_color() -> Color {
    Color { r: 230, g: 30, b: 30 }
}

impl Bullet {
    /// A filled rectangle over the bullet's bounds.
    pub open spec fn sprites_spec(self) -> Result<Seq<(VisibleComponent, Dest)>, ()> {
        match self.bounds.to_dest_spec() {
            Ok(d) => Ok(
                seq![(VisibleComponent::Rectangle(VisibleRect(bullet_color())), d)],
            ),
            Err(e) => Err(e),
        }
    }

    pub fn sprites(&self, now: u32) -> (r: Result<Vec<(VisibleComponent, Dest)>, ()>)
        requires
            self.wf_at(now as int),
        ensures
            crate::entity::sprites_view(r) == self.sprites_spec(),
    {
        match self.bounds.to_dest() {
            Ok(d) => {
                let out: Vec<(VisibleComponent, Dest)> = vec![
                    (VisibleComponent::Rectangle(VisibleRect(Color::rgb(230, 230, 30))), d),
                ];
                proof {
                    assert(out@ =~= seq![
                        (VisibleComponent::Rectangle(VisibleRect(bullet_color())), d),
                    ]);
                }
                Ok(out)
            },
            Err(()) => Err(()),
        }
    }
}

impl SineBullet {
    /// A filled rectangle over the bullet's bounds.
    pub open spec fn sprites_spec(self) -> Result<Seq<(VisibleComponent, Dest)>, ()> {
        match self.bounds.to_dest_spec() {
            Ok(d) => Ok(
                seq![(VisibleComponent::Rectangle(VisibleRect(sine_bullet_color())), d)],
            ),
            Err(e) => Err(e),
        }
    }

    pub fn sprites(&self, now: u32) -> (r: Result<Vec<(VisibleComponent, Dest)>, ()>)
        requires
            self.wf_at(now as int),
        ensures
            crate::entity::sprites_view(r) == self.sprites_spec(),
    {
        match self.bounds.to_dest() {
            Ok(d) => {
                let out: Vec<(VisibleComponent, Dest)> = vec![
                    (VisibleComponent::Rectangle(VisibleRect(Color::rgb(230, 30, 30))), d),
                ];
                proof {
                    assert(out@ =~= seq![
                        (VisibleComponent::Rectangle(VisibleRect(sine_bullet_color())), d),
                    ]);
                }
                Ok(out)
            },
            Err(()) => Err(()),
        }
    }
}

} // verus!
