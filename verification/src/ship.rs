//! The player's ship and its guns.
//!
//! The ship integrates held-direction input at a fixed speed, stays clamped
//! inside the screen, and fires through one of two guns: a standard gun with
//! a fixed cooldown, and a sine gun with regenerating ammo.
use vstd::prelude::*;

use crate::bullet::{Bullet, SineBullet, AMPLITUDE_LIMIT};
use crate::entity::{actions_wf_at, objs_wf_at, spawn_ok, ActionModel, Context, Entity, GameAction};
use crate::events::GameTime;
use crate::geometry::{min_int, Bounds, Dest, Rectangle};
use crate::sprites::{SpriteSheet, VisibleComponent};

verus! {

/// Side length of the ship, in sub-pixels (50 pixels).
pub const SHIP_EXTENT: i64 = 50_000;

/// The ship's speed along one axis, in pixels per second.
pub const PLAYER_SPEED: i64 = 230;

/// The per-axis speed while moving diagonally: the axis speed scaled by
/// 707/1000 (an integer stand-in for one over the square root of two) and
/// truncated: 230 * 707 / 1000.
pub const DIAGONAL_SPEED: i64 = 162;

/// Horizontal offset of both cannons from the ship's left edge, in
/// sub-pixels.
pub const CANNON_OFFSET_X: i64 = 30_000;

/// Vertical offset of the upper cannon from the ship's top edge, in
/// sub-pixels.
pub const CANNON1_OFFSET_Y: i64 = 6_000;

/// Vertical offset of the lower cannon above the ship's bottom edge, in
/// sub-pixels.
pub const CANNON2_OFFSET_Y: i64 = 10_000;

/// Cooldown of the standard gun, in milliseconds.
pub const STANDARD_GUN_INTERVAL: u32 = 400;

/// Minimum interval between sine-gun shots, in milliseconds.
pub const SINE_GUN_SHOT_INTERVAL: u32 = 80;

/// The sign of movement requested along one axis.
#[derive(Clone, Copy, Debug, PartialEq, Eq, PartialOrd, Ord, Structural)]
pub enum Direction {
    Neg,
    Zero,
    Pos,
}

impl Default for Direction {
    fn default() -> (r: Direction)
        ensures
            r == Direction::Zero,
    {
        Direction::Zero
    }
}

/// The sprite-sheet cell shown for each movement state, ordered as the
/// sheet's cells are: left to right, then top to bottom.
#[derive(Clone, Copy, Debug, PartialEq, Eq, Structural)]
pub enum ShipFrame {
    UpNorm,
    UpFast,
    UpSlow,
    MidNorm,
    MidFast,
    MidSlow,
    DownNorm,
    DownFast,
    DownSlow,
}

impl ShipFrame {
    /// The cell index of this frame in the ship's sprite sheet.
    pub open spec fn cell_spec(self) -> int {
        match self {
            ShipFrame::UpNorm => 0,
            ShipFrame::UpFast => 1,
            ShipFrame::UpSlow => 2,
            ShipFrame::MidNorm => 3,
            ShipFrame::MidFast => 4,
            ShipFrame::MidSlow => 5,
            ShipFrame::DownNorm => 6,
            ShipFrame::DownFast => 7,
            ShipFrame::DownSlow => 8,
        }
    }

    pub fn cell(self) -> (r: usize)
        ensures
            r == self.cell_spec(),
            r < 9,
    {
        match self {
            ShipFrame::UpNorm => 0,
            ShipFrame::UpFast => 1,
            ShipFrame::UpSlow => 2,
            ShipFrame::MidNorm => 3,
            ShipFrame::MidFast => 4,
            ShipFrame::MidSlow => 5,
            ShipFrame::DownNorm => 6,
            ShipFrame::DownFast => 7,
            ShipFrame::DownSlow => 8,
        }
    }
}

/// Which bullet kind the ship's gun currently fires.
#[derive(Clone, Copy, Debug, PartialEq, Eq, Structural)]
pub enum BulletKind {
    Standard,
    Sine,
}

/// What a gun is handed when it fires: the ship's current bounds.
#[derive(Clone, Copy, Debug, PartialEq)]
pub struct GunArgs {
    pub bounds: Bounds,
}

/// The gun argument is the ship's rectangle, with spawn-sized coordinates.
pub open spec fn gun_bounds_ok(b: Bounds) -> bool {
    match b {
        Bounds::Rectangle(r) => {
            &&& spawn_ok(r.x as int)
            &&& spawn_ok(r.y as int)
            &&& 0 <= r.width <= 100_000
            &&& 0 <= r.height <= 100_000
        },
        Bounds::Circle(_) => false,
    }
}

/// The two cannon positions derived from the ship's bounds: a shared x, and
/// one y near the top edge, one near the bottom edge.
pub open spec fn cannon_positions(b: Bounds) -> (int, int, int) {
    let x = b.left_spec() + CANNON_OFFSET_X;
    let y1 = b.top_spec() + CANNON1_OFFSET_Y;
    let y2 = b.bottom_spec() - CANNON2_OFFSET_Y;
    (x, y1, y2)
}

/// The standard gun: fires a pair of straight bullets, at most once per
/// cooldown interval.
#[derive(Clone, Copy, Debug, PartialEq)]
pub struct StandardGun {
    pub last_shot_at: u32,
}

impl StandardGun {
    pub open spec fn wf_at(self, now: int) -> bool {
        self.last_shot_at <= now
    }

    pub fn new(now: u32) -> (r: StandardGun)
        ensures
            r == (StandardGun { last_shot_at: now }),
    {
        StandardGun { last_shot_at: now }
    }

    /// Fire if the cooldown has passed: two bullets from the cannon
    /// positions, and the shot time is recorded. Otherwise nothing.
    pub open spec fn spawn_spec(self, bounds: Bounds, total: u32) -> (StandardGun, Seq<Entity>) {
        if total - self.last_shot_at < STANDARD_GUN_INTERVAL {
            (self, Seq::empty())
        } else {
            let (x, y1, y2) = cannon_positions(bounds);
            (
                StandardGun { last_shot_at: total },
                seq![
                    Entity::Bullet(Bullet::new_spec(x as i64, y1 as i64)),
                    Entity::Bullet(Bullet::new_spec(x as i64, y2 as i64)),
                ],
            )
        }
    }

    pub fn spawn_bullets(&mut self, args: GunArgs, time: GameTime) -> (out: Vec<Entity>)
        requires
            old(self).wf_at(time.total as int),
            gun_bounds_ok(args.bounds),
        ensures
            (*final(self), out@) == old(self).spawn_spec(args.bounds, time.total),
            final(self).wf_at(time.total as int),
            objs_wf_at(out@, time.total as int),
    {
        let time_diff: u32 = time.total - self.last_shot_at;
        if time_diff < STANDARD_GUN_INTERVAL {
            let out: Vec<Entity> = Vec::new();
            proof {
                assert(out@ =~= Seq::<Entity>::empty());
            }
            out
        } else {
            self.last_shot_at = time.total;
            let cannons_x: i64 = args.bounds.left() + CANNON_OFFSET_X;
            let cannon1_y: i64 = args.bounds.top() + CANNON1_OFFSET_Y;
            let cannon2_y: i64 = args.bounds.bottom() - CANNON2_OFFSET_Y;
            let out: Vec<Entity> = vec![
                Entity::Bullet(Bullet::new(cannons_x, cannon1_y)),
                Entity::Bullet(Bullet::new(cannons_x, cannon2_y)),
            ];
            proof {
                assert(out@ =~= old(self).spawn_spec(args.bounds, time.total).1);
            }
            out
        }
    }
}

/// The sine gun: regenerating ammo drawn from a three-step interval table,
/// a short minimum interval between shots, one ammo unit per shot pair.
#[derive(Clone, Copy, Debug, PartialEq)]
pub struct SineGun {
    pub last_ammo_at: u32,
    pub last_shot_at: u32,
    pub ammo_intervals: [u32; 3],
    pub ammo: u8,
    pub max_ammo: u8,
}

/// The regeneration interval the table prescribes at an ammo level: indexed
/// by the level, saturating at the table's last entry.
pub open spec fn interval_for(intervals: [u32; 3], ammo: u8) -> u32 {
    intervals[min_int(2, ammo as int)]
}

/// Run the regeneration clock forward: while the accumulated time covers
/// the current interval, consume it and gain one ammo unit, capped at the
/// maximum. Returns the final ammo and whether any unit was gained.
pub open spec fn regen_spec(ammo: u8, max_ammo: u8, intervals: [u32; 3], diff: u32) -> (u8, bool)
    decreases diff,
{
    let interval = interval_for(intervals, ammo);
    if 1 <= interval <= diff {
        let gained = if ammo < max_ammo {
            (ammo + 1) as u8
        } else {
            ammo
        };
        let (a2, _) = regen_spec(gained, max_ammo, intervals, (diff - interval) as u32);
        (a2, true)
    } else {
        (ammo, false)
    }
}

/// Regeneration only ever gains ammo, and never pushes it past the
/// maximum: the gun's ammo invariant is preserved by any amount of
/// accumulated time.
pub proof fn lemma_regen_ammo_bounds(ammo: u8, max_ammo: u8, intervals: [u32; 3], diff: u32)
    requires
        ammo <= max_ammo,
    ensures
        ammo <= regen_spec(ammo, max_ammo, intervals, diff).0 <= max_ammo,
    decreases diff,
{
    let interval = interval_for(intervals, ammo);
    if 1 <= interval <= diff {
        let gained = if ammo < max_ammo {
            (ammo + 1) as u8
        } else {
            ammo
        };
        lemma_regen_ammo_bounds(gained, max_ammo, intervals, (diff - interval) as u32);
    }
}

impl SineGun {
    pub open spec fn wf_at(self, now: int) -> bool {
        &&& self.last_ammo_at <= now
        &&& self.last_shot_at <= now
        &&& self.ammo <= self.max_ammo
        &&& forall|i: int| 0 <= i < 3 ==> 1 <= #[trigger] self.ammo_intervals[i]
    }

    pub fn new(now: u32) -> (r: SineGun)
        ensures
            r.last_ammo_at == now,
            r.last_shot_at == 0,
            r.ammo_intervals[0] == 1000,
            r.ammo_intervals[1] == 700,
            r.ammo_intervals[2] == 400,
            r.ammo == 10,
            r.max_ammo == 10,
            r.wf_at(now as int),
    {
        let max: u8 = 10;
        SineGun {
            last_ammo_at: now,
            last_shot_at: 0,
            ammo_intervals: [1000, 700, 400],
            ammo: max,
            max_ammo: max,
        }
    }

    pub open spec fn get_interval_spec(self) -> u32 {
        interval_for(self.ammo_intervals, self.ammo)
    }

    fn get_interval(&self) -> (r: u32)
        ensures
            r == self.get_interval_spec(),
    {
        let idx: usize = if (self.ammo as usize) < 2 {
            self.ammo as usize
        } else {
            2
        };
        self.ammo_intervals[idx]
    }

    /// Fire if ammo and both clocks allow: regeneration runs first, then
    /// the minimum shot interval gates, then one ammo unit buys a pair of
    /// sine bullets with opposite amplitudes from the cannon positions.
    pub open spec fn spawn_spec(self, bounds: Bounds, total: u32) -> (SineGun, Seq<Entity>) {
        let (ammo1, stepped) = regen_spec(
            self.ammo,
            self.max_ammo,
            self.ammo_intervals,
            (total - self.last_ammo_at) as u32,
        );
        let g1 = SineGun {
            ammo: ammo1,
            last_ammo_at: if stepped {
                total
            } else {
                self.last_ammo_at
            },
            ..self
        };
        if total - g1.last_shot_at < SINE_GUN_SHOT_INTERVAL {
            (g1, Seq::empty())
        } else {
            let g2 = SineGun { last_shot_at: total, ..g1 };
            if ammo1 == 0 {
                (g2, Seq::empty())
            } else {
                let g3 = SineGun { ammo: (ammo1 - 1) as u8, last_ammo_at: total, ..g2 };
                let (x, y1, y2) = cannon_positions(bounds);
                let amp_up: i64 = (-AMPLITUDE_LIMIT) as i64;
                (
                    g3,
                    seq![
                        Entity::SineBullet(
                            SineBullet::new_spec(x as i64, y1 as i64, amp_up, total),
                        ),
                        Entity::SineBullet(
                            SineBullet::new_spec(x as i64, y2 as i64, AMPLITUDE_LIMIT, total),
                        ),
                    ],
                )
            }
        }
    }

    pub fn spawn_bullets(&mut self, args: GunArgs, time: GameTime) -> (out: Vec<Entity>)
        requires
            old(self).wf_at(time.total as int),
            gun_bounds_ok(args.bounds),
        ensures
            (*final(self), out@) == old(self).spawn_spec(args.bounds, time.total),
            final(self).wf_at(time.total as int),
            objs_wf_at(out@, time.total as int),
    {
        let ghost g0 = *self;
        let ghost d0: u32 = (time.total - self.last_ammo_at) as u32;
        let mut time_diff: u32 = time.total - self.last_ammo_at;
        let mut interval: u32 = self.get_interval();
        let ghost mut stepped: bool = false;
        while time_diff >= interval
            invariant
                interval == self.get_interval_spec(),
                self.ammo <= self.max_ammo,
                self.max_ammo == g0.max_ammo,
                self.ammo_intervals == g0.ammo_intervals,
                self.last_shot_at == g0.last_shot_at,
                forall|i: int| 0 <= i < 3 ==> 1 <= #[trigger] self.ammo_intervals[i],
                self.last_ammo_at == if stepped {
                    time.total
                } else {
                    g0.last_ammo_at
                },
                g0.last_ammo_at <= time.total,
                regen_spec(g0.ammo, g0.max_ammo, g0.ammo_intervals, d0) == (
                    regen_spec(self.ammo, self.max_ammo, self.ammo_intervals, time_diff).0,
                    stepped || regen_spec(
                        self.ammo,
                        self.max_ammo,
                        self.ammo_intervals,
                        time_diff,
                    ).1,
                ),
            decreases time_diff,
        {
            self.last_ammo_at = time.total;
            time_diff = time_diff - interval;
            if self.ammo < self.max_ammo {
                self.ammo = self.ammo + 1;
            }
            interval = self.get_interval();
            proof {
                stepped = true;
            }
        }
        proof {
            assert(regen_spec(self.ammo, self.max_ammo, self.ammo_intervals, time_diff)
                == (self.ammo, false));
        }
        let fire_gate: u32 = time.total - self.last_shot_at;
        if fire_gate < SINE_GUN_SHOT_INTERVAL {
            let out: Vec<Entity> = Vec::new();
            proof {
                assert(out@ =~= Seq::<Entity>::empty());
            }
            return out;
        }
        self.last_shot_at = time.total;
        if self.ammo == 0 {
            let out: Vec<Entity> = Vec::new();
            proof {
                assert(out@ =~= Seq::<Entity>::empty());
            }
            return out;
        }
        self.ammo = self.ammo - 1;
        self.last_ammo_at = time.total;
        let cannons_x: i64 = args.bounds.left() + CANNON_OFFSET_X;
        let cannon1_y: i64 = args.bounds.top() + CANNON1_OFFSET_Y;
        let cannon2_y: i64 = args.bounds.bottom() - CANNON2_OFFSET_Y;
        let amp_up: i64 = -AMPLITUDE_LIMIT;
        let out: Vec<Entity> = vec![
            Entity::SineBullet(SineBullet::new(cannons_x, cannon1_y, amp_up, time.total)),
            Entity::SineBullet(SineBullet::new(cannons_x, cannon2_y, AMPLITUDE_LIMIT, time.total)),
        ];
        proof {
            assert(out@ =~= g0.spawn_spec(args.bounds, time.total).1);
        }
        out
    }
}

/// The ship's gun: one of each kind, and a selector for which one fires.
#[derive(Clone, Copy, Debug, PartialEq)]
pub struct ShipGun {
    pub kind: BulletKind,
    pub sine: SineGun,
    pub standard: StandardGun,
}

impl ShipGun {
    pub open spec fn wf_at(self, now: int) -> bool {
        &&& self.sine.wf_at(now)
        &&& self.standard.wf_at(now)
    }

    /// Fire whichever gun is selected.
    pub open spec fn spawn_spec(self, bounds: Bounds, total: u32) -> (ShipGun, Seq<Entity>) {
        if self.kind is Sine {
            let (g, out) = self.sine.spawn_spec(bounds, total);
            (ShipGun { sine: g, ..self }, out)
        } else {
            let (g, out) = self.standard.spawn_spec(bounds, total);
            (ShipGun { standard: g, ..self }, out)
        }
    }

    pub fn spawn_bullets(&mut self, args: GunArgs, time: GameTime) -> (out: Vec<Entity>)
        requires
            old(self).wf_at(time.total as int),
            gun_bounds_ok(args.bounds),
        ensures
            (*final(self), out@) == old(self).spawn_spec(args.bounds, time.total),
            final(self).wf_at(time.total as int),
            objs_wf_at(out@, time.total as int),
    {
        if matches!(self.kind, BulletKind::Sine) {
            let g = &mut self.sine;
            g.spawn_bullets(args, time)
        } else {
            let g = &mut self.standard;
            g.spawn_bullets(args, time)
        }
    }

    /// Toggle between the two bullet kinds.
    pub open spec fn next_weapon_spec(self) -> ShipGun {
        ShipGun {
            kind: if self.kind is Sine {
                BulletKind::Standard
            } else {
                BulletKind::Sine
            },
            ..self
        }
    }

    pub fn next_weapon(&mut self)
        ensures
            *final(self) == old(self).next_weapon_spec(),
    {
        self.kind = if matches!(self.kind, BulletKind::Sine) {
            BulletKind::Standard
        } else {
            BulletKind::Sine
        };
    }
}

/// Map the held direction keys to a movement request per axis; opposite
/// keys cancel.
pub open spec fn get_control_spec(up: bool, down: bool, left: bool, right: bool) -> (
    Direction,
    Direction,
) {
    (
        match (left, right) {
            (true, true) => Direction::Zero,
            (false, false) => Direction::Zero,
            (true, false) => Direction::Neg,
            (false, true) => Direction::Pos,
        },
        match (up, down) {
            (true, true) => Direction::Zero,
            (false, false) => Direction::Zero,
            (true, false) => Direction::Neg,
            (false, true) => Direction::Pos,
        },
    )
}

/// The axis sign of a movement request.
pub open spec fn axis_sign(d: Direction) -> int {
    match d {
        Direction::Neg => -1,
        Direction::Zero => 0,
        Direction::Pos => 1,
    }
}

/// The ship's velocity for a movement request, in pixels per second per
/// axis: the axis speed along a single axis, the scaled diagonal speed when
/// both axes move.
pub open spec fn movement_velocity_spec(dir: (Direction, Direction)) -> (i64, i64) {
    let speed: int = if dir.0 is Zero || dir.1 is Zero {
        PLAYER_SPEED as int
    } else {
        DIAGONAL_SPEED as int
    };
    ((axis_sign(dir.0) * speed) as i64, (axis_sign(dir.1) * speed) as i64)
}

/// The sprite-sheet cell for a movement state.
pub open spec fn get_frame_spec(dir: (Direction, Direction)) -> ShipFrame {
    match dir {
        (Direction::Neg, Direction::Neg) => ShipFrame::UpSlow,
        (Direction::Neg, Direction::Pos) => ShipFrame::DownSlow,
        (Direction::Neg, Direction::Zero) => ShipFrame::MidSlow,
        (Direction::Pos, Direction::Neg) => ShipFrame::UpFast,
        (Direction::Pos, Direction::Pos) => ShipFrame::DownFast,
        (Direction::Pos, Direction::Zero) => ShipFrame::MidFast,
        (Direction::Zero, Direction::Neg) => ShipFrame::UpNorm,
        (Direction::Zero, Direction::Pos) => ShipFrame::DownNorm,
        (Direction::Zero, Direction::Zero) => ShipFrame::MidNorm,
    }
}

/// The player's ship: clamped inside the screen, never self-deleting.
#[derive(Clone, Copy, Debug, PartialEq)]
pub struct Ship {
    pub bounds: Rectangle,
    pub gun: ShipGun,
    pub dir: (Direction, Direction),
    pub sheet: SpriteSheet,
}

impl Ship {
    /// The ship's coordinates are spawn-sized at all times: it is clamped
    /// inside the screen every frame.
    pub open spec fn pos_at(self, t: int) -> bool {
        true
    }

    pub open spec fn wf_at(self, now: int) -> bool {
        &&& spawn_ok(self.bounds.x as int)
        &&& spawn_ok(self.bounds.y as int)
        &&& self.bounds.width == SHIP_EXTENT
        &&& self.bounds.height == SHIP_EXTENT
        &&& self.gun.wf_at(now)
        &&& self.sheet.wf()
        &&& self.sheet.frame_count >= 9
    }

    pub fn get_control(up: bool, down: bool, left: bool, right: bool) -> (r: (Direction, Direction))
        ensures
            r == get_control_spec(up, down, left, right),
    {
        (
            match (left, right) {
                (true, true) => Direction::Zero,
                (false, false) => Direction::Zero,
                (true, false) => Direction::Neg,
                (false, true) => Direction::Pos,
            },
            match (up, down) {
                (true, true) => Direction::Zero,
                (false, false) => Direction::Zero,
                (true, false) => Direction::Neg,
                (false, true) => Direction::Pos,
            },
        )
    }

    /// The executable counterpart of `movement_velocity_spec`.
    pub fn movement_velocity(dir: (Direction, Direction)) -> (r: (i64, i64))
        ensures
            r == movement_velocity_spec(dir),
            -PLAYER_SPEED <= r.0 <= PLAYER_SPEED,
            -PLAYER_SPEED <= r.1 <= PLAYER_SPEED,
    {
        let speed: i64 = match (dir.0, dir.1) {
            (Direction::Zero, _) => PLAYER_SPEED,
            (_, Direction::Zero) => PLAYER_SPEED,
            _ => DIAGONAL_SPEED,
        };
        let sx: i64 = match dir.0 {
            Direction::Neg => -1,
            Direction::Zero => 0,
            Direction::Pos => 1,
        };
        let sy: i64 = match dir.1 {
            Direction::Neg => -1,
            Direction::Zero => 0,
            Direction::Pos => 1,
        };
        (sx * speed, sy * speed)
    }

    pub fn get_frame(dir: (Direction, Direction)) -> (r: ShipFrame)
        ensures
            r == get_frame_spec(dir),
    {
        match dir {
            (Direction::Neg, Direction::Neg) => ShipFrame::UpSlow,
            (Direction::Neg, Direction::Pos) => ShipFrame::DownSlow,
            (Direction::Neg, Direction::Zero) => ShipFrame::MidSlow,
            (Direction::Pos, Direction::Neg) => ShipFrame::UpFast,
            (Direction::Pos, Direction::Pos) => ShipFrame::DownFast,
            (Direction::Pos, Direction::Zero) => ShipFrame::MidFast,
            (Direction::Zero, Direction::Neg) => ShipFrame::UpNorm,
            (Direction::Zero, Direction::Pos) => ShipFrame::DownNorm,
            (Direction::Zero, Direction::Zero) => ShipFrame::MidNorm,
        }
    }

    /// One frame of the ship: read the held keys into a movement request,
    /// move at the requested velocity, clamp inside the screen, toggle the
    /// weapon on a fresh next-weapon press, and fire while the fire key is
    /// held. Firing always emits one add-objects action, whose payload the
    /// selected gun decides.
    pub open spec fn update_spec(self, ctx: Context, time: GameTime) -> (Ship, Seq<ActionModel>) {
        let dir = get_control_spec(
            ctx.events.down.up,
            ctx.events.down.down,
            ctx.events.down.left,
            ctx.events.down.right,
        );
        let v = movement_velocity_spec(dir);
        let moved = Rectangle {
            x: (self.bounds.x + v.0 * time.elapsed) as i64,
            y: (self.bounds.y + v.1 * time.elapsed) as i64,
            ..self.bounds
        };
        let clamped = match moved.move_inside_spec(ctx.screen_rect_spec()) {
            Some(c) => c,
            None => moved,
        };
        let gun1 = if ctx.events.pressed.next_weapon {
            self.gun.next_weapon_spec()
        } else {
            self.gun
        };
        if ctx.events.down.fire {
            let (gun2, out) = gun1.spawn_spec(Bounds::Rectangle(clamped), time.total);
            (
                Ship { bounds: clamped, dir, gun: gun2, ..self },
                seq![ActionModel::AddObjects(out)],
            )
        } else {
            (Ship { bounds: clamped, dir, gun: gun1, ..self }, Seq::empty())
        }
    }

    pub fn update(&mut self, ctx: &Context, time: GameTime) -> (acts: Vec<GameAction>)
        requires
            ctx.wf(),
            time.wf(),
            old(self).wf_at(time.total as int),
        ensures
            (*final(self), acts.deep_view()) == old(self).update_spec(*ctx, time),
            final(self).wf_at(time.total as int),
            actions_wf_at(acts.deep_view(), time.total as int),
    {
        let keys = ctx.events.down;
        let dir = Ship::get_control(keys.up, keys.down, keys.left, keys.right);
        let v = Ship::movement_velocity(dir);
        self.dir = dir;
        proof {
            crate::entity::lemma_velocity_step(v.0 as int, time.elapsed as int);
            crate::entity::lemma_velocity_step(v.1 as int, time.elapsed as int);
        }
        self.bounds.x = self.bounds.x + v.0 * time.elapsed as i64;
        self.bounds.y = self.bounds.y + v.1 * time.elapsed as i64;
        let screen = ctx.screen_rect();
        self.bounds = match self.bounds.move_inside(&screen) {
            Some(c) => c,
            None => self.bounds,
        };
        if ctx.events.pressed.next_weapon {
            let g = &mut self.gun;
            g.next_weapon();
        }
        if ctx.events.down.fire {
            let bounds_now = self.bounds;
            let g = &mut self.gun;
            let out = g.spawn_bullets(GunArgs { bounds: Bounds::Rectangle(bounds_now) }, time);
            proof {
                crate::entity::lemma_entity_vec_view(out);
            }
            let ghost out_view = out@;
            let acts: Vec<GameAction> = vec![GameAction::AddObjects(out)];
            proof {
                assert(acts.deep_view() =~= seq![ActionModel::AddObjects(out_view)]);
            }
            acts
        } else {
            let acts: Vec<GameAction> = Vec::new();
            proof {
                assert(acts.deep_view() =~= Seq::<ActionModel>::empty());
            }
            acts
        }
    }

    /// One update moves the ship by exactly the velocity its held keys
    /// request times the elapsed time, wherever the screen clamp does not
    /// bind.
    pub proof fn lemma_motion(self, ctx: Context, time: GameTime)
        requires
            ctx.wf(),
            time.wf(),
            self.wf_at(time.total as int),
            ({
                let dir = get_control_spec(
                    ctx.events.down.up,
                    ctx.events.down.down,
                    ctx.events.down.left,
                    ctx.events.down.right,
                );
                let v = movement_velocity_spec(dir);
                let moved = Rectangle {
                    x: (self.bounds.x + v.0 * time.elapsed) as i64,
                    y: (self.bounds.y + v.1 * time.elapsed) as i64,
                    ..self.bounds
                };
                ctx.screen_rect_spec().contains_spec(moved)
            }),
        ensures
            ({
                let dir = get_control_spec(
                    ctx.events.down.up,
                    ctx.events.down.down,
                    ctx.events.down.left,
                    ctx.events.down.right,
                );
                let v = movement_velocity_spec(dir);
                let (s2, _) = self.update_spec(ctx, time);
                &&& s2.bounds.x == self.bounds.x + v.0 * time.elapsed
                &&& s2.bounds.y == self.bounds.y + v.1 * time.elapsed
            }),
    {
        let dir = get_control_spec(
            ctx.events.down.up,
            ctx.events.down.down,
            ctx.events.down.left,
            ctx.events.down.right,
        );
        let v = movement_velocity_spec(dir);
        crate::entity::lemma_velocity_step(v.0 as int, time.elapsed as int);
        crate::entity::lemma_velocity_step(v.1 as int, time.elapsed as int);
    }

    /// The sheet cell for the current movement state, over the ship's
    /// bounds.
    pub open spec fn sprites_spec(self) -> Result<Seq<(VisibleComponent, Dest)>, ()> {
        match self.bounds.to_dest_spec() {
            Ok(d) => Ok(
                seq![
                    (
                        VisibleComponent::Sprite(
                            self.sheet.frame_spec(get_frame_spec(self.dir).cell_spec()),
                        ),
                        d,
                    ),
                ],
            ),
            Err(e) => Err(e),
        }
    }

    pub fn sprites(&self, now: u32) -> (r: Result<Vec<(VisibleComponent, Dest)>, ()>)
        requires
            self.wf_at(now as int),
        ensures
            crate::entity::sprites_view(r) == self.sprites_spec(),
    {
        match self.bounds.to_dest() {
            Ok(d) => {
                let frame = self.sheet.frame(Ship::get_frame(self.dir).cell());
                let out: Vec<(VisibleComponent, Dest)> = vec![(VisibleComponent::Sprite(frame), d)];
                proof {
                    assert(out@ =~= seq![
                        (
                            VisibleComponent::Sprite(
                                self.sheet.frame_spec(get_frame_spec(self.dir).cell_spec()),
                            ),
                            d,
                        ),
                    ]);
                }
                Ok(out)
            },
            Err(()) => Err(()),
        }
    }
}

} // verus!
