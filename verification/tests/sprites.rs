use space_shooter::geometry::Clip;
use space_shooter::sine::sin_milli;
use space_shooter::sprites::{
    build_spritesheet, AnimatedSprite, Color, Sprite, SpriteSheet, TextureHandle, VisibleComponent,
    VisibleRect,
};

fn tex(id: u32) -> TextureHandle {
    TextureHandle { id }
}

#[test]
fn sprite_constructors() {
    let t = tex(7);
    let full = Sprite::new(t, 128, 64);
    assert_eq!(full.mask, Clip { x: 0, y: 0, width: 128, height: 64 });
    let masked = full.with_mask(Clip { x: 8, y: 8, width: 16, height: 16 });
    assert_eq!(masked.texture, t);
    assert_eq!(masked.mask.width, 16);
    let direct = Sprite::new_with_mask(t, Clip { x: 1, y: 2, width: 3, height: 4 });
    assert_eq!(direct.mask.x, 1);
}

#[test]
fn spritesheet_grid_is_row_major() {
    // a 96x64 texture of 48x32 sprites: two columns, two rows
    let sheet = build_spritesheet(tex(1), 96, 64, 48, 32);
    assert_eq!(sheet.len(), 4);
    assert_eq!(sheet[0].mask, Clip { x: 0, y: 0, width: 48, height: 32 });
    assert_eq!(sheet[1].mask, Clip { x: 48, y: 0, width: 48, height: 32 });
    assert_eq!(sheet[2].mask, Clip { x: 0, y: 32, width: 48, height: 32 });
    assert_eq!(sheet[3].mask, Clip { x: 48, y: 32, width: 48, height: 32 });
}

#[test]
fn spritesheet_covers_partial_cells() {
    // a 100x30 texture of 48x32 sprites still gets three columns and a row
    let sheet = build_spritesheet(tex(1), 100, 30, 48, 32);
    assert_eq!(sheet.len(), 3);
    assert_eq!(sheet[2].mask.x, 96);
}

#[test]
fn sheet_frame_lookup() {
    let sheet = SpriteSheet {
        texture: tex(2),
        sprite_width: 96,
        sprite_height: 96,
        cols: 4,
        frame_count: 13,
    };
    assert_eq!(sheet.frame(0).mask, Clip { x: 0, y: 0, width: 96, height: 96 });
    assert_eq!(sheet.frame(5).mask, Clip { x: 96, y: 96, width: 96, height: 96 });
    assert_eq!(sheet.frame(12).mask, Clip { x: 0, y: 288, width: 96, height: 96 });
}

#[test]
fn animation_completion_boundary() {
    let sheet = SpriteSheet {
        texture: tex(3),
        sprite_width: 96,
        sprite_height: 96,
        cols: 4,
        frame_count: 13,
    };
    let anim = AnimatedSprite::from_spritesheet(1000, 40, sheet);
    // completed when elapsed seconds exceed frames / fps:
    // dt * 40 > 13 * 1000, so dt = 325 is not yet complete, dt = 326 is
    assert!(!anim.completed(1000 + 325));
    assert!(anim.completed(1000 + 326));
}

#[test]
fn animation_frame_advances_with_the_clock() {
    let sheet = SpriteSheet {
        texture: tex(4),
        sprite_width: 8,
        sprite_height: 8,
        cols: 4,
        frame_count: 4,
    };
    let anim = AnimatedSprite::from_spritesheet(0, 40, sheet);
    // 40 fps: one frame every 25 ms, wrapping at four frames
    assert_eq!(anim.frame_index(0), 0);
    assert_eq!(anim.frame_index(24), 0);
    assert_eq!(anim.frame_index(25), 1);
    assert_eq!(anim.frame_index(99), 3);
    assert_eq!(anim.frame_index(100), 0);
    assert_eq!(anim.frame(25), sheet.frame(1));
}

#[test]
fn visible_components_hold_their_payload() {
    let c = Color::rgb(230, 30, 30);
    let v = VisibleComponent::Rectangle(VisibleRect(c));
    assert!(matches!(v, VisibleComponent::Rectangle(VisibleRect(Color { r: 230, g: 30, b: 30 }))));
}

#[test]
fn integer_sine_key_points() {
    assert_eq!(sin_milli(0), 0);
    assert_eq!(sin_milli(1571), 1000);
    assert_eq!(sin_milli(3142), 0);
    assert_eq!(sin_milli(4713), -1000);
    assert_eq!(sin_milli(785), 705);
    for phase in [0i64, 100, 785, 1571, 3000, 3142, 4000, 4713, 6283] {
        let s = sin_milli(phase);
        assert!(-1000 <= s && s <= 1000);
    }
}
