//! The render-facing value types of the simulation.
//!
//! The core never touches image data: a texture is an opaque handle obtained
//! from the external asset cache, a sprite is a handle plus a source region,
//! and an animated sprite indexes a sheet of such regions by the game clock.
use vstd::prelude::*;

use crate::geometry::Clip;

verus! {

/// Opaque handle to a texture owned by the external asset cache.
#[derive(Clone, Copy, Debug, PartialEq, Eq, Structural)]
pub struct TextureHandle {
    pub id: u32,
}

/// An RGB colour for filled rectangles.
#[derive(Clone, Copy, Debug, PartialEq, Eq, Structural)]
pub struct Color {
    pub r: u8,
    pub g: u8,
    pub b: u8,
}

impl Color {
    pub fn rgb(r: u8, g: u8, b: u8) -> (c: Color)
        ensures
            c == (Color { r, g, b }),
    {
        Color { r, g, b }
    }
}

/// One region of one texture.
#[derive(Clone, Copy, Debug, PartialEq, Eq, Structural)]
pub struct Sprite {
    pub texture: TextureHandle,
    pub mask: Clip,
}

impl Sprite {
    /// A sprite covering the whole of a texture of the given size.
    pub fn new(texture: TextureHandle, width: u32, height: u32) -> (r: Sprite)
        ensures
            r == (Sprite { texture, mask: Clip { x: 0, y: 0, width, height } }),
    {
        Sprite { texture, mask: Clip { x: 0, y: 0, width, height } }
    }

    pub fn new_with_mask(texture: TextureHandle, mask: Clip) -> (r: Sprite)
        ensures
            r == (Sprite { texture, mask }),
    {
        Sprite { texture, mask }
    }

    pub fn with_mask(&self, mask: Clip) -> (r: Sprite)
        ensures
            r == (Sprite { mask, ..*self }),
    {
        Sprite { mask, ..*self }
    }
}

/// A filled rectangle of one colour.
#[derive(Clone, Copy, Debug, PartialEq, Eq, Structural)]
pub struct VisibleRect(pub Color);

/// What the renderer is asked to draw at a destination: a sprite region or a
/// filled rectangle.
#[derive(Clone, Copy, Debug, PartialEq, Eq, Structural)]
pub enum VisibleComponent {
    Sprite(Sprite),
    Rectangle(VisibleRect),
}

/// The mask of the cell at `index` in a row-major grid of `cols` columns of
/// `sprite_width` by `sprite_height` cells.
pub open spec fn grid_mask(index: int, cols: int, sprite_width: u32, sprite_height: u32) -> Clip {
    Clip {
        x: ((index % cols) * sprite_width) as u32,
        y: ((index / cols) * sprite_height) as u32,
        width: sprite_width,
        height: sprite_height,
    }
}

/// Number of grid steps that cover `extent` in strides of `step`: the
/// quotient rounded up.
pub open spec fn grid_steps(extent: u32, step: u32) -> int {
    (extent + step - 1) as int / step as int
}

/// Slice a texture of the given size into a row-major sheet of fixed-size
/// sprites, left to right then top to bottom, as a sprite-sheet image is
/// laid out.
pub fn build_spritesheet(
    texture: TextureHandle,
    tex_width: u32,
    tex_height: u32,
    sprite_width: u32,
    sprite_height: u32,
) -> (r: Vec<Sprite>)
    requires
        1 <= sprite_width < 0x10000,
        1 <= sprite_height < 0x10000,
        tex_width < 0x10000,
        tex_height < 0x10000,
    ensures
        r@.len() == grid_steps(tex_height, sprite_height) * grid_steps(tex_width, sprite_width),
        forall|i: int|
            0 <= i < r@.len() ==> #[trigger] r@[i] == (Sprite {
                texture,
                mask: grid_mask(i, grid_steps(tex_width, sprite_width), sprite_width, sprite_height),
            }),
{
    let cols: u32 = (tex_width + sprite_width - 1) / sprite_width;
    let rows: u32 = (tex_height + sprite_height - 1) / sprite_height;
    proof {
        lemma_grid_steps_bound(tex_width as int, sprite_width as int);
        lemma_grid_steps_bound(tex_height as int, sprite_height as int);
    }
    let mut out: Vec<Sprite> = Vec::new();
    let mut row: u32 = 0;
    while row < rows
        invariant
            row <= rows,
            cols == grid_steps(tex_width, sprite_width),
            rows == grid_steps(tex_height, sprite_height),
            cols < 0x10000,
            rows < 0x10000,
            1 <= sprite_width < 0x10000,
            1 <= sprite_height < 0x10000,
            tex_width < 0x10000,
            tex_height < 0x10000,
            out@.len() == row * cols,
            forall|i: int|
                0 <= i < out@.len() ==> #[trigger] out@[i] == (Sprite {
                    texture,
                    mask: grid_mask(i, cols as int, sprite_width, sprite_height),
                }),
        decreases rows - row,
    {
        let mut col: u32 = 0;
        while col < cols
            invariant
                row < rows,
                col <= cols,
                cols == grid_steps(tex_width, sprite_width),
                rows == grid_steps(tex_height, sprite_height),
                cols < 0x10000,
                rows < 0x10000,
                1 <= sprite_width < 0x10000,
                1 <= sprite_height < 0x10000,
                tex_width < 0x10000,
                tex_height < 0x10000,
                out@.len() == row * cols + col,
                forall|i: int|
                    0 <= i < out@.len() ==> #[trigger] out@[i] == (Sprite {
                        texture,
                        mask: grid_mask(i, cols as int, sprite_width, sprite_height),
                    }),
            decreases cols - col,
        {
            proof {
                lemma_grid_offset(sprite_width as int, col as int, cols as int, tex_width as int);
                lemma_grid_offset(
                    sprite_height as int,
                    row as int,
                    rows as int,
                    tex_height as int,
                );
                lemma_grid_index(row as int, col as int, cols as int);
                lemma_mul_bound(row as int, cols as int, 0x10000, 0x10000);
            }
            out.push(
                Sprite {
                    texture,
                    mask: Clip {
                        x: col * sprite_width,
                        y: row * sprite_height,
                        width: sprite_width,
                        height: sprite_height,
                    },
                },
            );
            col = col + 1;
        }
        proof {
            assert((row + 1) * cols == row * cols + cols) by (nonlinear_arith);
        }
        row = row + 1;
    }
    proof {
        assert(out@.len() == rows * cols);
        vstd::arithmetic::mul::lemma_mul_is_commutative(rows as int, cols as int);
    }
    out
}

/// A product of two non-negative values below the given bounds stays below
/// the product of the bounds.
proof fn lemma_mul_bound(a: int, b: int, ba: int, bb: int)
    requires
        0 <= a < ba,
        0 <= b <= bb,
    ensures
        0 <= a * b <= (ba - 1) * bb,
{
    assert(0 <= a * b <= (ba - 1) * bb) by (nonlinear_arith)
        requires
            0 <= a < ba,
            0 <= b <= bb,
    ;
}

/// The number of strides of `step` that cover `extent` is below `0x10000`
/// when the inputs are, and the strides before the last stay inside the
/// extent.
proof fn lemma_grid_steps_bound(extent: int, step: int)
    requires
        0 <= extent < 0x10000,
        1 <= step < 0x10000,
    ensures
        0 <= (extent + step - 1) / step < 0x10000,
{
    let n = extent + step - 1;
    vstd::arithmetic::div_mod::lemma_fundamental_div_mod(n, step);
    let q = n / step;
    assert(q < 0x10000) by (nonlinear_arith)
        requires
            n == step * q + n % step,
            0 <= n % step < step,
            n < 0x20000 - 1,
            1 <= step,
            extent < 0x10000,
            n == extent + step - 1,
    ;
    assert(q >= 0) by (nonlinear_arith)
        requires
            n == step * q + n % step,
            0 <= n % step < step,
            n >= 0,
            1 <= step,
    ;
}

/// A stride index strictly before the last lands inside the extent.
proof fn lemma_grid_offset(step: int, idx: int, steps: int, extent: int)
    requires
        1 <= step,
        0 <= idx < steps,
        steps == (extent + step - 1) / step,
        0 <= extent,
    ensures
        0 <= idx * step <= extent - 1,
{
    let n = extent + step - 1;
    vstd::arithmetic::div_mod::lemma_fundamental_div_mod(n, step);
    assert(0 <= idx * step <= extent - 1) by (nonlinear_arith)
        requires
            n == step * steps + n % step,
            0 <= n % step < step,
            n == extent + step - 1,
            0 <= idx <= steps - 1,
            1 <= step,
    ;
}

/// In a row-major grid, the cell at `row * cols + col` sits in row `row`
/// and column `col`.
proof fn lemma_grid_index(row: int, col: int, cols: int)
    requires
        0 <= row,
        0 <= col < cols,
    ensures
        (row * cols + col) % cols == col,
        (row * cols + col) / cols == row,
{
    vstd::arithmetic::div_mod::lemma_fundamental_div_mod_converse(row * cols + col, cols, row, col);
}

/// A fixed-geometry sheet of animation frames on one texture: the cells of
/// a row-major grid, of which the first `frame_count` are frames. The core
/// stores only this descriptor; the image itself lives with the external
/// asset cache.
#[derive(Clone, Copy, Debug, PartialEq, Eq, Structural)]
pub struct SpriteSheet {
    pub texture: TextureHandle,
    pub sprite_width: u32,
    pub sprite_height: u32,
    pub cols: u32,
    pub frame_count: u32,
}

impl SpriteSheet {
    pub open spec fn wf(self) -> bool {
        &&& 1 <= self.frame_count <= 0x10000
        &&& 1 <= self.cols < 0x10000
        &&& 1 <= self.sprite_width < 0x10000
        &&& 1 <= self.sprite_height < 0x10000
    }

    /// The sprite of frame `i`, at its cell in the grid.
    pub open spec fn frame_spec(self, i: int) -> Sprite {
        Sprite {
            texture: self.texture,
            mask: grid_mask(i, self.cols as int, self.sprite_width, self.sprite_height),
        }
    }

    pub fn frame(&self, i: usize) -> (r: Sprite)
        requires
            self.wf(),
            i < self.frame_count,
        ensures
            r == self.frame_spec(i as int),
    {
        let col: u32 = i as u32 % self.cols;
        let row: u32 = i as u32 / self.cols;
        proof {
            lemma_div_le(i as int, self.cols as int);
            lemma_mul_bound(col as int, self.sprite_width as int, 0x10000, 0x10000);
            lemma_mul_bound(row as int, self.sprite_height as int, 0x10000, 0x10000);
        }
        Sprite {
            texture: self.texture,
            mask: Clip {
                x: col * self.sprite_width,
                y: row * self.sprite_height,
                width: self.sprite_width,
                height: self.sprite_height,
            },
        }
    }
}

/// A non-negative value divided by a positive one does not grow.
proof fn lemma_div_le(n: int, d: int)
    requires
        0 <= n,
        1 <= d,
    ensures
        0 <= n / d <= n,
{
    vstd::arithmetic::div_mod::lemma_fundamental_div_mod(n, d);
    assert(0 <= n / d <= n) by (nonlinear_arith)
        requires
            n == d * (n / d) + n % d,
            0 <= n % d < d,
            0 <= n,
            1 <= d,
    ;
}

/// A sprite sheet played as an animation: started at a fixed instant of the
/// game clock and advanced at `fps` frames per second.
#[derive(Clone, Copy, Debug, PartialEq, Eq, Structural)]
pub struct AnimatedSprite {
    pub sheet: SpriteSheet,
    pub fps: u32,
    pub started_at: u32,
}

impl AnimatedSprite {
    pub open spec fn wf(self) -> bool {
        &&& self.sheet.wf()
        &&& 1 <= self.fps <= 1000
    }

    /// An animation over a whole sprite sheet, starting now.
    pub fn from_spritesheet(now: u32, fps: u32, sheet: SpriteSheet) -> (r: AnimatedSprite)
        requires
            sheet.wf(),
            1 <= fps <= 1000,
        ensures
            r == (AnimatedSprite { sheet, fps, started_at: now }),
            r.wf(),
    {
        AnimatedSprite { sheet, fps, started_at: now }
    }

    /// The animation has played through once: the elapsed seconds exceed
    /// frame count over frame rate.
    pub open spec fn completed_spec(self, now: u32) -> bool {
        (now - self.started_at) * self.fps > self.sheet.frame_count * 1000
    }

    pub fn completed(&self, now: u32) -> (r: bool)
        requires
            self.wf(),
            now >= self.started_at,
        ensures
            r == self.completed_spec(now),
    {
        let dt: u64 = (now - self.started_at) as u64;
        proof {
            lemma_mul_bound(dt as int, self.fps as int, 0x1_0000_0000, 1000);
        }
        dt * self.fps as u64 > self.sheet.frame_count as u64 * 1000
    }

    /// Which frame the clock selects: elapsed frames, wrapped around the
    /// sheet.
    pub open spec fn frame_index_spec(self, now: u32) -> int {
        ((now - self.started_at) * self.fps / 1000) % (self.sheet.frame_count as int)
    }

    pub fn frame_index(&self, now: u32) -> (r: usize)
        requires
            self.wf(),
            now >= self.started_at,
        ensures
            r == self.frame_index_spec(now),
            r < self.sheet.frame_count,
    {
        let dt: u64 = (now - self.started_at) as u64;
        proof {
            lemma_mul_bound(dt as int, self.fps as int, 0x1_0000_0000, 1000);
        }
        let ticks: u64 = dt * self.fps as u64 / 1000;
        (ticks % self.sheet.frame_count as u64) as usize
    }

    /// The sprite to draw now.
    pub open spec fn frame_now_spec(self, now: u32) -> Sprite {
        self.sheet.frame_spec(self.frame_index_spec(now))
    }

    pub fn frame(&self, now: u32) -> (r: Sprite)
        requires
            self.wf(),
            now >= self.started_at,
        ensures
            r == self.frame_now_spec(now),
    {
        let i = self.frame_index(now);
        self.sheet.frame(i)
    }
}

} // verus!
