use space_shooter::asteroid::Asteroid;
use space_shooter::bullet::{Bullet, SineBullet};
use space_shooter::entity::{Context, Entity, GameAction};
use space_shooter::events::{GameTime, KeyEvents, Keys};
use space_shooter::explosion::Explosion;
use space_shooter::geometry::Rectangle;
use space_shooter::ship::BulletKind;
use space_shooter::sprites::{SpriteSheet, TextureHandle, VisibleComponent};
use space_shooter::world::{reconcile, render_list, resolve_collisions, Action, ShipView};

fn sheet(id: u32, frames: u32) -> SpriteSheet {
    SpriteSheet {
        texture: TextureHandle { id },
        sprite_width: 96,
        sprite_height: 96,
        cols: 4,
        frame_count: frames,
    }
}

fn ctx_with(keys: Keys) -> Context {
    Context {
        events: KeyEvents::new(Keys::default(), keys),
        screen_w: 800,
        screen_h: 600,
        explosion_sheet: sheet(1, 13),
        asteroid_sheet: sheet(2, 12),
        ship_sheet: sheet(3, 9),
    }
}

fn quiet_ctx() -> Context {
    ctx_with(Keys::default())
}

fn at(total: u32, elapsed: u32) -> GameTime {
    GameTime { elapsed, total }
}

#[test]
fn reconciliation_order_is_survivors_then_spawns() {
    // entities [A, B, C]; B carries a delete, C spawns D: the next frame
    // is exactly [A, C, D]
    let a = Entity::Bullet(Bullet::new(0, 0));
    let b = Entity::Asteroid(Asteroid::new(sheet(2, 12), 0, 100_000, 0));
    let c = Entity::SineBullet(SineBullet::new(0, 50_000, 90_000, 0));
    let d = Entity::Explosion(Explosion::new(sheet(1, 13), 0, 7_000, 8_000));
    let ents = vec![a, b, c];
    let acts = vec![
        vec![],
        vec![GameAction::Delete],
        vec![GameAction::AddObjects(vec![d])],
    ];
    let next = reconcile(&ents, &acts);
    assert_eq!(next, vec![a, c, d]);
}

#[test]
fn deleted_entities_still_contribute_their_spawns() {
    let a = Entity::Bullet(Bullet::new(0, 0));
    let d = Entity::Explosion(Explosion::new(sheet(1, 13), 0, 0, 0));
    let ents = vec![a];
    let acts = vec![vec![GameAction::AddObjects(vec![d]), GameAction::Delete]];
    assert_eq!(reconcile(&ents, &acts), vec![d]);
}

#[test]
fn reconciliation_keeps_everything_without_actions() {
    let a = Entity::Bullet(Bullet::new(0, 0));
    let b = Entity::Bullet(Bullet::new(9_000, 0));
    let ents = vec![a, b];
    let acts: Vec<Vec<GameAction>> = vec![vec![], vec![]];
    assert_eq!(reconcile(&ents, &acts), vec![a, b]);
}

#[test]
fn resolver_delivers_between_overlapping_entities() {
    // a bullet inside an asteroid's circle: the asteroid takes the
    // bullet's 20 damage; the bullet takes the asteroid's enemy-filtered
    // contact and queues its own destruction
    let ctx = quiet_ctx();
    let time = at(100, 10);
    let bullet = Entity::Bullet(Bullet::new(140_000, 140_000));
    let asteroid = Entity::Asteroid(Asteroid::new(sheet(2, 12), 0, 100_000, 100_000));
    let mut ents = vec![bullet, asteroid];
    let mut acts: Vec<Vec<GameAction>> = vec![vec![], vec![]];
    resolve_collisions(&mut ents, &mut acts, &ctx, time);
    match &ents[1] {
        Entity::Asteroid(a) => assert_eq!(a.hp, 80),
        other => panic!("expected the asteroid, got {:?}", other),
    }
    // the bullet reacted to the asteroid's message: delete plus explosion
    assert_eq!(acts[0].len(), 2);
    assert!(matches!(acts[0][0], GameAction::Delete));
    assert!(matches!(acts[0][1], GameAction::AddObjects(_)));
    // the asteroid survived the hit and queued nothing
    assert!(acts[1].is_empty());
}

#[test]
fn resolver_one_sided_pair() {
    // the ship defines no hit message: an overlapping asteroid delivers
    // its damage-free contact to the ship (which ignores it) and receives
    // nothing back
    let ctx = quiet_ctx();
    let view = ShipView::new(&ctx);
    let ship = view.objects[0];
    let ship_rect = match &ship {
        Entity::Ship(s) => s.bounds,
        other => panic!("expected the ship, got {:?}", other),
    };
    let asteroid = Entity::Asteroid(Asteroid::new(sheet(2, 12), 0, ship_rect.x, ship_rect.y));
    let mut ents = vec![ship, asteroid];
    let mut acts: Vec<Vec<GameAction>> = vec![vec![], vec![]];
    resolve_collisions(&mut ents, &mut acts, &ctx, at(100, 10));
    assert_eq!(ents[0], ship);
    assert_eq!(ents[1], asteroid);
    assert!(acts[0].is_empty());
    assert!(acts[1].is_empty());
}

#[test]
fn resolver_skips_disjoint_pairs() {
    let ctx = quiet_ctx();
    let bullet = Entity::Bullet(Bullet::new(0, 0));
    let asteroid = Entity::Asteroid(Asteroid::new(sheet(2, 12), 0, 500_000, 500_000));
    let mut ents = vec![bullet, asteroid];
    let mut acts: Vec<Vec<GameAction>> = vec![vec![], vec![]];
    resolve_collisions(&mut ents, &mut acts, &ctx, at(100, 10));
    assert_eq!(ents, vec![bullet, asteroid]);
    assert!(acts[0].is_empty() && acts[1].is_empty());
}

#[test]
fn resolver_skips_entities_without_bounds() {
    let ctx = quiet_ctx();
    let a = Entity::Explosion(Explosion::new(sheet(1, 13), 0, 0, 0));
    let b = Entity::Explosion(Explosion::new(sheet(1, 13), 0, 0, 0));
    let mut ents = vec![a, b];
    let mut acts: Vec<Vec<GameAction>> = vec![vec![], vec![]];
    resolve_collisions(&mut ents, &mut acts, &ctx, at(100, 10));
    assert!(acts[0].is_empty() && acts[1].is_empty());
}

#[test]
fn render_extraction_flattens_in_order() {
    let bullet = Entity::Bullet(Bullet::new(10_000, 20_000));
    let explosion = Entity::Explosion(Explosion::new(sheet(1, 13), 0, 30_000, 40_000));
    let ents = vec![bullet, explosion];
    let list = render_list(&ents, at(100, 10)).expect("all bounds convert");
    assert_eq!(list.len(), 2);
    assert!(matches!(list[0].0, VisibleComponent::Rectangle(_)));
    assert!(matches!(list[1].0, VisibleComponent::Sprite(_)));
    assert_eq!(list[0].1.x, 10);
    assert_eq!(list[1].1.width, 96);
}

#[test]
fn render_extraction_surfaces_conversion_failure() {
    // an explosion with an empty rectangle cannot convert to a
    // destination rectangle
    let broken = Entity::Explosion(Explosion::with_bounds(
        sheet(1, 13),
        0,
        Rectangle { x: 0, y: 0, width: 0, height: 0 },
    ));
    assert_eq!(render_list(&vec![broken], at(1, 1)), Err(()));
}

#[test]
fn new_view_holds_the_ship_alone() {
    let ctx = quiet_ctx();
    let view = ShipView::new(&ctx);
    assert_eq!(view.total_time, 0);
    assert_eq!(view.last_asteroid_time, 0);
    assert_eq!(view.objects.len(), 1);
    match &view.objects[0] {
        Entity::Ship(s) => {
            assert_eq!(s.bounds.x, 0);
            // centred vertically: screen_h / 2 pixels minus half the ship
            assert_eq!(s.bounds.y, 300_000 - 25_000);
            assert_eq!(s.gun.kind, BulletKind::Standard);
            assert_eq!(s.gun.sine.ammo, 10);
        },
        other => panic!("expected the ship, got {:?}", other),
    }
}

#[test]
fn quit_wins_over_the_frame() {
    let ctx = ctx_with(Keys { quit: true, ..Keys::default() });
    let mut view = ShipView::new(&ctx);
    let r = view.update(&ctx, 16);
    assert_eq!(r, Ok(Action::Quit));
    assert_eq!(view.total_time, 16);
}

#[test]
fn a_frame_renders_the_ship() {
    let ctx = quiet_ctx();
    let mut view = ShipView::new(&ctx);
    match view.update(&ctx, 16) {
        Ok(Action::Render(list)) => {
            assert_eq!(list.len(), 1);
            assert!(matches!(list[0].0, VisibleComponent::Sprite(_)));
        },
        other => panic!("expected a render list, got {:?}", other),
    }
    assert_eq!(view.total_time, 16);
    assert_eq!(view.objects.len(), 1);
}

#[test]
fn asteroids_spawn_on_the_interval() {
    let ctx = quiet_ctx();
    let mut view = ShipView::new(&ctx);
    view.update(&ctx, 1001).expect("frame renders");
    assert_eq!(view.last_asteroid_time, 1001);
    assert_eq!(view.objects.len(), 2);
    let asteroid = view
        .objects
        .iter()
        .find_map(|e| match e {
            Entity::Asteroid(a) => Some(*a),
            _ => None,
        })
        .expect("an asteroid spawned");
    // it appears at the right edge, within the vertical spawn band, and
    // has already drifted left for one frame
    assert_eq!(asteroid.bounds.x, 800_000 - 50 * 1001);
    assert!(asteroid.bounds.y >= 0);
    assert!(asteroid.bounds.y < (600 - 96) * 1000);
    assert_eq!(asteroid.hp, 100);
}

#[test]
fn held_fire_grows_the_population() {
    let ctx = ctx_with(Keys { fire: true, ..Keys::default() });
    let mut view = ShipView::new(&ctx);
    view.update(&ctx, 500).expect("frame renders");
    // the standard gun fired one pair
    assert_eq!(view.objects.len(), 3);
    let bullets = view
        .objects
        .iter()
        .filter(|e| matches!(e, Entity::Bullet(_)))
        .count();
    assert_eq!(bullets, 2);
}

#[test]
fn key_edges_are_detected() {
    let none = Keys::default();
    let fire = Keys { fire: true, ..Keys::default() };
    let pressed = KeyEvents::new(none, fire);
    assert!(pressed.down.fire);
    assert!(pressed.pressed.fire);
    assert!(!pressed.released.fire);
    let released = KeyEvents::new(fire, none);
    assert!(!released.down.fire);
    assert!(!released.pressed.fire);
    assert!(released.released.fire);
    let held = KeyEvents::new(fire, fire);
    assert!(held.down.fire);
    assert!(!held.pressed.fire);
    assert!(!held.released.fire);
}
