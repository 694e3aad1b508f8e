use space_shooter::asteroid::Asteroid;
use space_shooter::bullet::{Bullet, SineBullet};
use space_shooter::entity::{Context, DamageFilter, DamageInfo, Entity, GameAction, GameMessage};
use space_shooter::events::{GameTime, KeyEvents, Keys};
use space_shooter::explosion::Explosion;
use space_shooter::geometry::{Bounds, Rectangle};
use space_shooter::sprites::{SpriteSheet, TextureHandle};

fn sheet(id: u32, frames: u32) -> SpriteSheet {
    SpriteSheet {
        texture: TextureHandle { id },
        sprite_width: 96,
        sprite_height: 96,
        cols: 4,
        frame_count: frames,
    }
}

fn ctx() -> Context {
    let none = Keys::default();
    Context {
        events: KeyEvents::new(none, none),
        screen_w: 800,
        screen_h: 600,
        explosion_sheet: sheet(1, 13),
        asteroid_sheet: sheet(2, 12),
        ship_sheet: sheet(3, 9),
    }
}

fn at(total: u32, elapsed: u32) -> GameTime {
    GameTime { elapsed, total }
}

fn player_hit(damage: u32) -> GameMessage {
    GameMessage::Hit(DamageInfo { filter: DamageFilter::Player, damage })
}

fn enemy_hit(damage: u32) -> GameMessage {
    GameMessage::Hit(DamageInfo { filter: DamageFilter::Enemy, damage })
}

#[test]
fn bullet_moves_at_its_velocity() {
    let c = ctx();
    let mut b = Bullet::new(10_000, 20_000);
    assert_eq!(b.velocity, (1800, 0));
    assert!(Entity::Bullet(b).bounds(0).is_some());
    let out = b.update(&c, at(100, 100));
    // 1800 px/s over 100 ms is 180 px = 180_000 sub-pixels
    assert_eq!(b.bounds.x, 190_000);
    assert_eq!(b.bounds.y, 20_000);
    assert!(out.is_empty());
}

#[test]
fn bullet_deleted_when_it_leaves_the_screen() {
    // the screen is 800 px wide: the bullet lives while it still overlaps
    // the screen rectangle and is deleted on the first frame it does not
    let c = ctx();
    let mut b = Bullet::new(0, 300_000);
    let mut deleted_at = None;
    for frame in 1..=6u32 {
        let out = b.update(&c, at(frame * 100, 100));
        if out.iter().any(|a| matches!(a, GameAction::Delete)) {
            deleted_at = Some(frame);
            break;
        }
    }
    // x after frame k is k * 180_000; the screen's right edge is 800_000,
    // first crossed from x = 900_000 on frame 5
    assert_eq!(deleted_at, Some(5));
    assert_eq!(b.bounds.x, 900_000);
}

#[test]
fn bullet_ignores_player_fire() {
    let c = ctx();
    let mut b = Bullet::new(0, 0);
    let before = b;
    let out = b.receive_message(&c, at(50, 10), player_hit(20));
    assert!(out.is_empty());
    assert_eq!(b, before);
}

#[test]
fn bullet_explodes_on_enemy_hit() {
    let c = ctx();
    let mut b = Bullet::new(40_000, 50_000);
    let out = b.receive_message(&c, at(70, 10), enemy_hit(0));
    assert_eq!(out.len(), 2);
    assert!(matches!(out[0], GameAction::Delete));
    match &out[1] {
        GameAction::AddObjects(objs) => {
            assert_eq!(objs.len(), 1);
            match &objs[0] {
                Entity::Explosion(e) => {
                    assert_eq!(e.bounds, Rectangle { x: 40_000, y: 50_000, width: 10_000, height: 10_000 });
                    assert_eq!(e.sprite.started_at, 70);
                    assert_eq!(e.sprite.fps, 40);
                },
                other => panic!("expected an explosion, got {:?}", other),
            }
        },
        other => panic!("expected add-objects, got {:?}", other),
    }
}

#[test]
fn sine_bullet_oscillates_around_its_origin() {
    let c = ctx();
    let mut b = SineBullet::new(10_000, 300_000, 90_000, 0);
    assert_eq!(b.origin_y, 300_000);
    let out = b.update(&c, at(400, 400));
    // x: 270 px/s over 400 ms = 108 px
    assert_eq!(b.bounds.x, 118_000);
    // phase 4 mrad/ms * 400 ms = 1600 mrad; sin is 999 milli-units;
    // 90_000 * 999 / 1000 = 89_910
    assert_eq!(b.bounds.y, 300_000 + 89_910);
    assert!(out.is_empty());
}

#[test]
fn sine_bullet_survives_until_fully_off_the_edge() {
    let c = ctx();
    // straddling the right edge keeps it alive: after one frame its right
    // side is past the 800 px screen but most of it is still visible
    let mut straddling = SineBullet::new(791_000, 300_000, 0, 0);
    // x = 791_000 + 2_700 = 793_700, right edge 801_700; left edge inside
    let out = straddling.update(&c, at(10, 10));
    assert!(out.is_empty());
    // deleted on the first frame its left edge passes the screen's right
    // edge: x = 797_400 + 2_700 = 800_100 >= 800_000
    let mut leaving = SineBullet::new(797_400, 300_000, 0, 0);
    let out2 = leaving.update(&c, at(10, 10));
    assert!(out2.iter().any(|a| matches!(a, GameAction::Delete)));
    // likewise once fully off the left edge: right edge at -300
    let mut off_left = SineBullet::new(-11_000, 300_000, 0, 0);
    let out3 = off_left.update(&c, at(10, 10));
    assert!(out3.iter().any(|a| matches!(a, GameAction::Delete)));
}

#[test]
fn sine_bullet_shares_the_bullet_reaction() {
    let c = ctx();
    let mut b = SineBullet::new(0, 0, 90_000, 0);
    assert!(b.receive_message(&c, at(1, 1), player_hit(99)).is_empty());
    let out = b.receive_message(&c, at(1, 1), enemy_hit(1));
    assert!(matches!(out[0], GameAction::Delete));
    assert!(matches!(out[1], GameAction::AddObjects(_)));
}

#[test]
fn asteroid_drifts_left() {
    let mut a = Asteroid::new(sheet(2, 12), 0, 800_000, 100_000);
    assert_eq!(a.hp, 100);
    assert_eq!(a.velocity, (-50, 0));
    let out = a.update(at(1000, 1000));
    // 50 px/s leftward over one second
    assert_eq!(a.bounds.x, 750_000);
    assert!(out.is_empty());
}

#[test]
fn asteroid_bounds_is_a_centred_circle() {
    let a = Asteroid::new(sheet(2, 12), 0, 100_000, 200_000);
    match a.bounds(0) {
        Bounds::Circle(c) => {
            assert_eq!(c.x, 148_000);
            assert_eq!(c.y, 248_000);
            assert_eq!(c.radius, 40_000);
        },
        other => panic!("expected a circle, got {:?}", other),
    }
}

#[test]
fn asteroid_survives_five_hits_of_twenty() {
    // P-boundary: damage strictly greater than the remaining hit points
    // destroys; equal damage does not
    let c = ctx();
    let mut a = Asteroid::new(sheet(2, 12), 0, 0, 0);
    let mut hps = Vec::new();
    for frame in 1..=5u32 {
        let out = a.receive_message(&c, at(frame, 1), player_hit(20));
        assert!(out.is_empty(), "hit {} should not destroy", frame);
        hps.push(a.hp);
    }
    assert_eq!(hps, vec![80, 60, 40, 20, 0]);
    // the sixth hit exceeds the remaining zero hit points
    let out = a.receive_message(&c, at(6, 1), player_hit(20));
    assert_eq!(out.len(), 2);
    match &out[0] {
        GameAction::AddObjects(objs) => {
            assert!(matches!(objs[0], Entity::Explosion(_)));
        },
        other => panic!("expected the explosion first, got {:?}", other),
    }
    assert!(matches!(out[1], GameAction::Delete));
}

#[test]
fn asteroid_ignores_other_messages() {
    let c = ctx();
    let mut a = Asteroid::new(sheet(2, 12), 0, 0, 0);
    let out = a.receive_message(&c, at(1, 1), GameMessage::Other);
    assert!(out.is_empty());
    assert_eq!(a.hp, 100);
}

#[test]
fn explosion_deletes_after_its_animation() {
    let e = Explosion::new(sheet(1, 13), 1000, 5_000, 6_000);
    assert_eq!(e.bounds.width, 96_000);
    // 13 frames at 40 fps: complete strictly after 325 ms
    assert!(e.update(at(1325, 10)).is_empty());
    let out = e.update(at(1326, 10));
    assert!(matches!(out[0], GameAction::Delete));
}

#[test]
fn entity_capabilities_by_variant() {
    let c = ctx();
    let bullet = Entity::Bullet(Bullet::new(0, 0));
    let sine = Entity::SineBullet(SineBullet::new(0, 0, 90_000, 0));
    let asteroid = Entity::Asteroid(Asteroid::new(sheet(2, 12), 0, 0, 0));
    let explosion = Entity::Explosion(Explosion::new(sheet(1, 13), 0, 0, 0));

    // bullets deal player-filtered damage, asteroids damage-free contact
    match bullet.on_hit() {
        Some(GameMessage::Hit(info)) => {
            assert_eq!(info.filter, DamageFilter::Player);
            assert_eq!(info.damage, 20);
        },
        other => panic!("expected a hit message, got {:?}", other),
    }
    match asteroid.on_hit() {
        Some(GameMessage::Hit(info)) => {
            assert_eq!(info.filter, DamageFilter::Enemy);
            assert_eq!(info.damage, 0);
        },
        other => panic!("expected a hit message, got {:?}", other),
    }
    assert!(sine.on_hit().is_some());
    assert!(explosion.on_hit().is_none());

    // explosions are not collidable
    assert!(explosion.bounds(0).is_none());
    assert!(bullet.bounds(0).is_some());

    // a ship ignores messages by design
    let mut ship_entity = {
        let mut view = space_shooter::world::ShipView::new(&c);
        view.objects.remove(0)
    };
    assert!(ship_entity.on_hit().is_none());
    let out = ship_entity.receive_message(&c, at(1, 1), enemy_hit(50));
    assert!(out.is_empty());
}
