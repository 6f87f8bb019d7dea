//! How one pixel gets its shade: the background or window tile under it, the
//! sprites over it and the palettes.
use vstd::prelude::*;
use crate::constants::{SCREEN_BUFFER_SIZE, SCREEN_HEIGHT, SCREEN_WIDTH, VRAM_SIZE};
use crate::gpu::{Gpu, GpuView, Sprite};
use crate::helpers::spec_combine_u8;
use crate::lcd::{GreyShade, LcdControl};
use crate::memory::memory::Memory;

verus! {

/// Everything that the shade of a pixel depends on, besides the sprites.
pub struct Scene {
    pub control: LcdControl,
    pub scy: u8,
    pub scx: u8,
    pub wy: u8,
    pub wx: u8,
    pub bg_pallette: u8,
    pub sprite_pallete_1: u8,
    pub sprite_pallete_2: u8,
    pub vram: Seq<u8>,
}

/// The value of bit `index` as a factor: 1, 2, 4, ..., 128.
pub open spec fn spec_bit_weight(index: int) -> int {
    if index == 0 {
        1
    } else if index == 1 {
        2
    } else if index == 2 {
        4
    } else if index == 3 {
        8
    } else if index == 4 {
        16
    } else if index == 5 {
        32
    } else if index == 6 {
        64
    } else {
        128
    }
}

/// Bit `index` of `byte`, 0 or 1.
pub open spec fn spec_bit(byte: int, index: int) -> int {
    (byte / spec_bit_weight(index)) % 2
}

/// The colour number of pixel `subx` (0 is the leftmost) of a tile row. The
/// low byte of `tile_line` holds the low bits of the eight pixels, the high byte
/// their high bits, leftmost pixel in bit 7.
pub open spec fn spec_colour_id_in_line(tile_line: u16, subx: u8) -> u16 {
    (2 * spec_bit(tile_line as int / 256, 7 - subx) + spec_bit(tile_line as int % 256, 7 - subx)) as u16
}

/// The shade that `palette` gives to colour number `pixel_colour_id`: bits 1
/// and 0 for colour 0, up to bits 7 and 6 for colour 3.
pub open spec fn spec_shade_from_colour_id(pixel_colour_id: u16, palette: u8) -> GreyShade {
    GreyShade::spec_from_u8(((palette as int / spec_bit_weight(2 * pixel_colour_id)) % 4) as u8)
}

/// The height of every sprite: 16 lines if the size bit is set, else 8.
pub open spec fn spec_sprite_height(control: LcdControl) -> int {
    if control.obj_size {
        16
    } else {
        8
    }
}

/// Whether `sprite` has a row on line `y`.
pub open spec fn spec_sprite_on_line(sprite: Sprite, y: int, height: int) -> bool {
    sprite.y_pos <= y < sprite.y_pos + height
}

/// The sprites of `cache` that have a row on line `y`, in the order of `cache`.
pub open spec fn spec_sprites_on_line(cache: Seq<Sprite>, y: int, height: int) -> Seq<Sprite> {
    cache.filter(|sprite: Sprite| spec_sprite_on_line(sprite, y, height))
}

impl Scene {
    /// The video RAM has its size.
    pub open spec fn wf(self) -> bool {
        self.vram.len() == VRAM_SIZE
    }

    /// Whether pixel (`x`, `y`) shows the window instead of the background.
    pub open spec fn spec_is_window(self, x: u8, y: u8) -> bool {
        self.control.window_enable && x > self.wx - 7 && y >= self.wy
    }

    /// The offset in video RAM of the tile map for pixel (`x`, `y`).
    pub open spec fn spec_tile_map(self, x: u8, y: u8) -> int {
        if (if self.spec_is_window(x, y) {
            self.control.window_tile_map_display_select
        } else {
            self.control.bg_tile_map_display_select
        }) {
            0x1C00
        } else {
            0x1800
        }
    }

    /// The column of pixel (`x`, `y`) in the 256 by 256 picture of its layer:
    /// counted from the window's left edge, or scrolled for the background.
    pub open spec fn spec_layer_x(self, x: u8, y: u8) -> int {
        if self.spec_is_window(x, y) {
            x - (self.wx - 7)
        } else {
            (x + self.scx) % 256
        }
    }

    /// The line of pixel (`x`, `y`) in the 256 by 256 picture of its layer.
    pub open spec fn spec_layer_y(self, x: u8, y: u8) -> int {
        if self.spec_is_window(x, y) {
            y - self.wy
        } else {
            (y + self.scy) % 256
        }
    }

    /// The number of the tile under pixel (`x`, `y`), 0 to 383. With the data
    /// select bit clear, map entries below 128 name the tiles from 256 on.
    pub open spec fn spec_tile_id(self, x: u8, y: u8) -> int {
        let raw = self.vram[self.spec_tile_map(x, y) + (self.spec_layer_y(x, y) / 8) * 32 + self.spec_layer_x(
            x,
            y,
        ) / 8];
        if self.control.bg_and_window_data_select || raw >= 128 {
            raw as int
        } else {
            raw + 256
        }
    }

    /// The two bytes of a tile row at offset `line` of the video RAM.
    pub open spec fn spec_tile_line(self, line: int) -> u16 {
        spec_combine_u8(self.vram[line + 1], self.vram[line])
    }

    /// The colour number of the background or window at pixel (`x`, `y`).
    pub open spec fn spec_background_colour_id(self, x: u8, y: u8) -> u16 {
        spec_colour_id_in_line(
            self.spec_tile_line(self.spec_tile_id(x, y) * 16 + (self.spec_layer_y(x, y) % 8) * 2),
            (self.spec_layer_x(x, y) % 8) as u8,
        )
    }

    /// The tile that holds row `row` of `sprite`. A tall sprite uses two tiles:
    /// the even one for its upper half and the odd one for its lower half, or
    /// the other way round if it is flipped vertically.
    pub open spec fn spec_sprite_pattern(self, sprite: Sprite, row: int) -> int {
        if !self.control.obj_size {
            sprite.pattern_id as int
        } else if (row >= 8) != sprite.y_flip {
            sprite.pattern_id - sprite.pattern_id % 2 + 1
        } else {
            sprite.pattern_id - sprite.pattern_id % 2
        }
    }

    /// The row inside its tile of row `row` of `sprite`.
    pub open spec fn spec_sprite_tile_row(self, sprite: Sprite, row: int) -> int {
        let tile_row = if row >= 8 {
            row - 8
        } else {
            row
        };
        if sprite.y_flip {
            7 - tile_row
        } else {
            tile_row
        }
    }

    /// The colour number of `sprite` at pixel (`x`, `y`), which it covers.
    pub open spec fn spec_sprite_colour_id(self, sprite: Sprite, x: u8, y: u8) -> u16 {
        spec_colour_id_in_line(
            self.spec_tile_line(
                self.spec_sprite_pattern(sprite, y - sprite.y_pos) * 16 + self.spec_sprite_tile_row(
                    sprite,
                    y - sprite.y_pos,
                ) * 2,
            ),
            (if sprite.x_flip {
                7 - (x - sprite.x_pos)
            } else {
                x - sprite.x_pos
            }) as u8,
        )
    }

    /// Whether `sprite` can be seen at pixel (`x`, `y`) of its line: it covers
    /// column `x`, the background does not hide it, and its colour there is not
    /// the transparent colour 0.
    pub open spec fn spec_sprite_shows(self, sprite: Sprite, bg_col_id: u16, x: u8, y: u8) -> bool {
        &&& sprite.x_pos <= x < sprite.x_pos + 8
        &&& sprite.above_bg || bg_col_id == 0
        &&& self.spec_sprite_colour_id(sprite, x, y) != 0
    }

    /// The shade of `sprite` at pixel (`x`, `y`), through its palette.
    pub open spec fn spec_sprite_shade(self, sprite: Sprite, x: u8, y: u8) -> GreyShade {
        spec_shade_from_colour_id(
            self.spec_sprite_colour_id(sprite, x, y),
            if sprite.use_palette_0 {
                self.sprite_pallete_1
            } else {
                self.sprite_pallete_2
            },
        )
    }

    /// The index of the sprite among the first `count` of `sprites` that is
    /// drawn at pixel (`x`, `y`), or -1 if none of them shows there: the one
    /// with the smallest column wins, and of two in the same column the earlier.
    pub open spec fn spec_winner(self, sprites: Seq<Sprite>, count: int, bg_col_id: u16, x: u8, y: u8) -> int
        decreases count,
    {
        if count <= 0 {
            -1
        } else {
            let before = self.spec_winner(sprites, count - 1, bg_col_id, x, y);
            if self.spec_sprite_shows(sprites[count - 1], bg_col_id, x, y) && (before < 0 || sprites[count
                - 1].x_pos < sprites[before].x_pos) {
                count - 1
            } else {
                before
            }
        }
    }

    /// The colour number of the background layer at pixel (`x`, `y`); 0 if the
    /// layer is switched off.
    pub open spec fn spec_layer_colour_id(self, x: u8, y: u8) -> u16 {
        if self.control.bg_display {
            self.spec_background_colour_id(x, y)
        } else {
            0
        }
    }

    /// The shade of the background layer at pixel (`x`, `y`); white if the
    /// layer is switched off.
    pub open spec fn spec_layer_shade(self, x: u8, y: u8) -> GreyShade {
        if self.control.bg_display {
            spec_shade_from_colour_id(self.spec_background_colour_id(x, y), self.bg_pallette)
        } else {
            GreyShade::White
        }
    }

    /// The shade of pixel (`x`, `y`) over a background of shade `bg_col` and
    /// colour number `bg_col_id`, with `sprites` on its line: the shade of the
    /// winning sprite, or the background where sprites are off or none shows.
    pub open spec fn spec_sprite_colour_at(
        self,
        sprites: Seq<Sprite>,
        bg_col: GreyShade,
        bg_col_id: u16,
        x: u8,
        y: u8,
    ) -> GreyShade {
        if !self.control.obj_enable || self.spec_winner(sprites, sprites.len() as int, bg_col_id, x, y) < 0 {
            bg_col
        } else {
            self.spec_sprite_shade(sprites[self.spec_winner(sprites, sprites.len() as int, bg_col_id, x, y)], x, y)
        }
    }

    /// The shade of pixel (`x`, `y`) with `sprites` on its line.
    pub open spec fn spec_pixel(self, sprites: Seq<Sprite>, x: u8, y: u8) -> GreyShade {
        self.spec_sprite_colour_at(sprites, self.spec_layer_shade(x, y), self.spec_layer_colour_id(x, y), x, y)
    }
}

/// The winner among the first `count` sprites shows at the pixel, no sprite
/// that shows there lies further left, and none that shows in the same column
/// comes earlier. Without a winner no sprite shows.
pub proof fn lemma_winner(scene: Scene, sprites: Seq<Sprite>, count: int, bg_col_id: u16, x: u8, y: u8)
    requires
        0 <= count <= sprites.len(),
    ensures
        -1 <= scene.spec_winner(sprites, count, bg_col_id, x, y) < count,
        scene.spec_winner(sprites, count, bg_col_id, x, y) >= 0 ==> scene.spec_sprite_shows(
            sprites[scene.spec_winner(sprites, count, bg_col_id, x, y)],
            bg_col_id,
            x,
            y,
        ),
        forall|other: int|
            0 <= other < count && #[trigger] scene.spec_sprite_shows(sprites[other], bg_col_id, x, y) ==> {
                let winner = scene.spec_winner(sprites, count, bg_col_id, x, y);
                &&& winner >= 0
                &&& sprites[winner].x_pos <= sprites[other].x_pos
                &&& sprites[winner].x_pos == sprites[other].x_pos ==> winner <= other
            },
    decreases count,
{
    if count > 0 {
        lemma_winner(scene, sprites, count - 1, bg_col_id, x, y);
    }
}

impl GpuView {
    /// What the shade of a pixel depends on, with `vram` as the video RAM.
    pub open spec fn spec_scene(self, vram: Seq<u8>) -> Scene {
        Scene {
            control: self.control,
            scy: self.scy,
            scx: self.scx,
            wy: self.wy,
            wx: self.wx,
            bg_pallette: self.bg_pallette,
            sprite_pallete_1: self.sprite_pallete_1,
            sprite_pallete_2: self.sprite_pallete_2,
            vram,
        }
    }

    /// The cached sprites that have a row on line `y`.
    pub open spec fn spec_sprites_on_line(self, y: u8) -> Seq<Sprite> {
        spec_sprites_on_line(self.sprite_cache, y as int, spec_sprite_height(self.control))
    }

    /// The frame in progress with line `y` drawn.
    pub open spec fn spec_draw_line(self, vram: Seq<u8>, y: u8) -> Seq<GreyShade> {
        Seq::new(
            SCREEN_BUFFER_SIZE as nat,
            |i: int|
                if y * SCREEN_WIDTH <= i < (y + 1) * SCREEN_WIDTH {
                    self.spec_scene(vram).spec_pixel(
                        self.spec_sprites_on_line(y),
                        (i - y * SCREEN_WIDTH) as u8,
                        y,
                    )
                } else {
                    self.frame[i]
                },
        )
    }
}

/// The value of bit `index` as a factor.
fn bit_weight(index: u8) -> (r: u8)
    requires
        index <= 7,
    ensures
        r == spec_bit_weight(index as int),
        r >= 1,
{
    match index {
        0 => 1,
        1 => 2,
        2 => 4,
        3 => 8,
        4 => 16,
        5 => 32,
        6 => 64,
        _ => 128,
    }
}

impl Gpu {
    /// The colour number of pixel `subx` of the tile row `tile_line`.
    pub fn get_colour_id_in_line(&self, tile_line: u16, subx: u8) -> (r: u16)
        requires
            subx <= 7,
        ensures
            r == spec_colour_id_in_line(tile_line, subx),
            r <= 3,
    {
        let lower: u16 = tile_line % 256;
        let upper: u16 = tile_line / 256;
        let weight: u16 = bit_weight(7 - subx) as u16;
        let u: u16 = (upper / weight) % 2;
        let l: u16 = (lower / weight) % 2;
        2 * u + l
    }

    /// The shade that `palette` gives to colour number `pixel_colour_id`.
    pub fn get_shade_from_colour_id(&self, pixel_colour_id: u16, palette: u8) -> (r: GreyShade)
        requires
            pixel_colour_id <= 3,
        ensures
            r == spec_shade_from_colour_id(pixel_colour_id, palette),
    {
        let weight: u8 = bit_weight((2 * pixel_colour_id) as u8);
        GreyShade::from_u8((palette / weight) % 4)
    }

    /// Whether pixel (`x`, `y`) shows the window instead of the background.
    fn is_window(&self, vram: Ghost<Seq<u8>>, x: u8, y: u8) -> (r: bool)
        ensures
            r == self@.spec_scene(vram@).spec_is_window(x, y),
    {
        self.control.window_enable && x as i32 > self.wx as i32 - 7 && y >= self.wy
    }

    /// The column of pixel (`x`, `y`) in the picture of its layer.
    fn layer_x(&self, vram: Ghost<Seq<u8>>, x: u8, y: u8) -> (r: u16)
        requires
            x < SCREEN_WIDTH,
        ensures
            r == self@.spec_scene(vram@).spec_layer_x(x, y),
            r <= 255,
    {
        if self.is_window(vram, x, y) {
            (x as i32 - (self.wx as i32 - 7)) as u16
        } else {
            ((x as u16 + self.scx as u16) % 256) as u16
        }
    }

    /// The line of pixel (`x`, `y`) in the picture of its layer.
    fn layer_y(&self, vram: Ghost<Seq<u8>>, x: u8, y: u8) -> (r: u16)
        ensures
            r == self@.spec_scene(vram@).spec_layer_y(x, y),
            r <= 255,
    {
        if self.is_window(vram, x, y) {
            (y - self.wy) as u16
        } else {
            ((y as u16 + self.scy as u16) % 256) as u16
        }
    }

    /// The number of the tile under pixel (`x`, `y`).
    fn tile_id(&self, mem: &Memory, x: u8, y: u8) -> (r: u16)
        requires
            mem.wf(),
            x < SCREEN_WIDTH,
        ensures
            r == self@.spec_scene(mem@.vram).spec_tile_id(x, y),
            r < 384,
    {
        let tilemap_select: bool = if self.is_window(Ghost(mem@.vram), x, y) {
            self.control.window_tile_map_display_select
        } else {
            self.control.bg_tile_map_display_select
        };
        let tilemap_base: u16 = if tilemap_select {
            0x1C00
        } else {
            0x1800
        };
        let tx: u16 = self.layer_x(Ghost(mem@.vram), x, y) / 8;
        let ty: u16 = self.layer_y(Ghost(mem@.vram), x, y) / 8;
        let tile_id_raw: u8 = mem.read_video(tilemap_base + ty * 32 + tx);
        if self.control.bg_and_window_data_select || tile_id_raw >= 128 {
            tile_id_raw as u16
        } else {
            tile_id_raw as u16 + 256
        }
    }

    /// The colour number of the background or window at pixel (`x`, `y`).
    pub fn get_background_colour_at(&self, mem: &Memory, x: u8, y: u8) -> (r: u16)
        requires
            mem.wf(),
            x < SCREEN_WIDTH,
        ensures
            r == self@.spec_scene(mem@.vram).spec_background_colour_id(x, y),
            r <= 3,
    {
        let tile_id: u16 = self.tile_id(mem, x, y);
        let subx: u8 = (self.layer_x(Ghost(mem@.vram), x, y) % 8) as u8;
        let suby: u16 = self.layer_y(Ghost(mem@.vram), x, y) % 8;
        let tile_line: u16 = mem.read_video_16(tile_id * 16 + suby * 2);
        self.get_colour_id_in_line(tile_line, subx)
    }

    /// The colour number of `sprite` at pixel (`x`, `y`), which it covers.
    fn sprite_colour_id(&self, mem: &Memory, sprite: Sprite, x: u8, y: u8) -> (r: u16)
        requires
            self.wf(),
            mem.wf(),
            sprite.x_pos <= x < sprite.x_pos + 8,
            spec_sprite_on_line(sprite, y as int, spec_sprite_height(self@.control)),
        ensures
            r == self@.spec_scene(mem@.vram).spec_sprite_colour_id(sprite, x, y),
            r <= 3,
    {
        let column: u8 = (x as i32 - sprite.x_pos) as u8;
        let row: u8 = (y as i32 - sprite.y_pos) as u8;
        let lower_half: bool = row >= 8;
        let pattern: u8 = if !self.control.obj_size {
            sprite.pattern_id
        } else if lower_half != sprite.y_flip {
            sprite.pattern_id - sprite.pattern_id % 2 + 1
        } else {
            sprite.pattern_id - sprite.pattern_id % 2
        };
        let tile_row: u8 = if lower_half {
            row - 8
        } else {
            row
        };
        let suby: u8 = if sprite.y_flip {
            7 - tile_row
        } else {
            tile_row
        };
        let subx: u8 = if sprite.x_flip {
            7 - column
        } else {
            column
        };
        let tile_address: u16 = (pattern as u16) * 16;
        let line_we_need: u16 = suby as u16 * 2;
        let tile_line: u16 = mem.read_video_16(tile_address + line_we_need);
        self.get_colour_id_in_line(tile_line, subx)
    }

    /// The shade of pixel (`x`, `y`) over a background of shade `bg_col` and
    /// colour number `bg_col_id`, with `sprites` on its line.
    pub fn get_sprite_colour_at(
        &self,
        mem: &Memory,
        sprites: &Vec<Sprite>,
        bg_col: GreyShade,
        bg_col_id: u16,
        x: u8,
        y: u8,
    ) -> (r: GreyShade)
        requires
            self.wf(),
            mem.wf(),
            x < SCREEN_WIDTH,
            forall|i: int|
                0 <= i < sprites@.len() ==> spec_sprite_on_line(
                    #[trigger] sprites@[i],
                    y as int,
                    spec_sprite_height(self@.control),
                ),
        ensures
            r == self@.spec_scene(mem@.vram).spec_sprite_colour_at(sprites@, bg_col, bg_col_id, x, y),
    {
        if !self.control.obj_enable {
            return bg_col;
        }
        let ghost scene = self@.spec_scene(mem@.vram);
        let ix: i32 = x as i32;
        let mut maybe_colour: Option<GreyShade> = None;
        let mut min_x: i32 = 168;
        let mut k: usize = 0;
        while k < sprites.len()
            invariant
                k <= sprites@.len(),
                self.wf(),
                mem.wf(),
                ix == x,
                x < SCREEN_WIDTH,
                scene == self@.spec_scene(mem@.vram),
                forall|i: int|
                    0 <= i < sprites@.len() ==> spec_sprite_on_line(
                        #[trigger] sprites@[i],
                        y as int,
                        spec_sprite_height(self@.control),
                    ),
                -1 <= scene.spec_winner(sprites@, k as int, bg_col_id, x, y) < k,
                scene.spec_winner(sprites@, k as int, bg_col_id, x, y) < 0 ==> maybe_colour.is_none() && min_x
                    == 168,
                scene.spec_winner(sprites@, k as int, bg_col_id, x, y) >= 0 ==> {
                    let winner = sprites@[scene.spec_winner(sprites@, k as int, bg_col_id, x, y)];
                    &&& maybe_colour == Some(scene.spec_sprite_shade(winner, x, y))
                    &&& min_x == winner.x_pos
                    &&& min_x <= x
                },
            decreases sprites@.len() - k,
        {
            let sprite: Sprite = sprites[k];
            proof {
                let before = scene.spec_winner(sprites@, k as int, bg_col_id, x, y);
                assert(scene.spec_winner(sprites@, k + 1, bg_col_id, x, y) == (if scene.spec_sprite_shows(
                    sprites@[k as int],
                    bg_col_id,
                    x,
                    y,
                ) && (before < 0 || sprites@[k as int].x_pos < sprites@[before].x_pos) {
                    k as int
                } else {
                    before
                }));
            }
            if sprite.x_pos <= ix && (ix as i64) < sprite.x_pos as i64 + 8 && sprite.x_pos < min_x && (
            sprite.above_bg || bg_col_id == 0) {
                let col_id: u16 = self.sprite_colour_id(mem, sprite, x, y);
                if col_id != 0 {
                    let palette: u8 = if sprite.use_palette_0 {
                        self.sprite_pallete_1
                    } else {
                        self.sprite_pallete_2
                    };
                    min_x = sprite.x_pos;
                    maybe_colour = Some(self.get_shade_from_colour_id(col_id, palette));
                }
            }
            k = k + 1;
        }
        match maybe_colour {
            Some(col) => col,
            None => bg_col,
        }
    }

    /// The cached sprites that have a row on line `y`, in their order.
    pub fn get_sprites_on_line(&self, y: u8) -> (r: Vec<Sprite>)
        ensures
            r@ == self@.spec_sprites_on_line(y),
            forall|i: int|
                0 <= i < r@.len() ==> spec_sprite_on_line(
                    #[trigger] r@[i],
                    y as int,
                    spec_sprite_height(self@.control),
                ),
    {
        let sprite_height: i64 = if self.control.obj_size {
            16
        } else {
            8
        };
        let iy: i64 = y as i64;
        let mut on_line: Vec<Sprite> = Vec::new();
        let ghost pred = |sprite: Sprite| spec_sprite_on_line(sprite, y as int, spec_sprite_height(self@.control));
        let mut k: usize = 0;
        proof {
            reveal(Seq::filter);
            assert(self.sprite_cache@.subrange(0, 0) =~= Seq::<Sprite>::empty());
        }
        while k < self.sprite_cache.len()
            invariant
                k <= self.sprite_cache@.len(),
                iy == y,
                sprite_height == spec_sprite_height(self@.control),
                pred == (|sprite: Sprite|
                    spec_sprite_on_line(sprite, y as int, spec_sprite_height(self@.control))),
                on_line@ == self.sprite_cache@.subrange(0, k as int).filter(pred),
            decreases self.sprite_cache@.len() - k,
        {
            let s: Sprite = self.sprite_cache[k];
            proof {
                reveal(Seq::filter);
                assert(self.sprite_cache@.subrange(0, k + 1).drop_last() =~= self.sprite_cache@.subrange(
                    0,
                    k as int,
                ));
            }
            if s.y_pos as i64 <= iy && iy < s.y_pos as i64 + sprite_height {
                on_line.push(s);
            }
            k = k + 1;
        }
        proof {
            assert(self.sprite_cache@.subrange(0, k as int) =~= self.sprite_cache@);
            assert forall|i: int| 0 <= i < on_line@.len() implies spec_sprite_on_line(
                #[trigger] on_line@[i],
                y as int,
                spec_sprite_height(self@.control),
            ) by {
                self.sprite_cache@.lemma_filter_pred(pred, i);
            }
        }
        on_line
    }

    /// Draws pixel (`x`, `y`) into the frame in progress.
    pub fn draw_pixel(&mut self, mem: &Memory, sprites_on_line: &Vec<Sprite>, x: u8, y: u8)
        requires
            old(self).wf(),
            mem.wf(),
            x < SCREEN_WIDTH,
            y < SCREEN_HEIGHT,
            forall|i: int|
                0 <= i < sprites_on_line@.len() ==> spec_sprite_on_line(
                    #[trigger] sprites_on_line@[i],
                    y as int,
                    spec_sprite_height(old(self)@.control),
                ),
        ensures
            final(self)@ == (GpuView {
                frame: old(self)@.frame.update(
                    y * SCREEN_WIDTH + x,
                    old(self)@.spec_scene(mem@.vram).spec_pixel(sprites_on_line@, x, y),
                ),
                ..old(self)@
            }),
            final(self).oam == old(self).oam,
            final(self).wf(),
    {
        let ux: usize = x as usize;
        let uy: usize = y as usize;
        let idx: usize = uy * SCREEN_WIDTH + ux;
        let bg_col: GreyShade;
        let bg_col_id: u16;
        if self.control.bg_display {
            bg_col_id = self.get_background_colour_at(mem, x, y);
            bg_col = self.get_shade_from_colour_id(bg_col_id, self.bg_pallette);
        } else {
            bg_col = GreyShade::White;
            bg_col_id = 0;
        }
        let s_col: GreyShade = self.get_sprite_colour_at(mem, sprites_on_line, bg_col, bg_col_id, x, y);
        self.frame[idx] = s_col;
    }
}

} // verus!
