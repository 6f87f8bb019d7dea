//! The pixel-processing unit: its registers, the object attribute memory and
//! the two frames.
use vstd::prelude::*;
use crate::constants::gpu_timing::{DMA_CYCLES, HBLANK_ON, HTOTAL, HTRANSFER_ON, VBLANK_ON, VTOTAL};
use crate::constants::{
    OAM_END, OAM_SIZE, OAM_START, SCREEN_BUFFER_SIZE, SCREEN_HEIGHT, SCREEN_RGBA_SLICE_SIZE, SCREEN_WIDTH,
};
use crate::interrupts::{InterruptReason, Interrupts};
use crate::gpu::render::{spec_sprite_height, spec_sprite_on_line};
use crate::lcd::{GreyShade, LcdControl, LcdMode, LcdStatus};
use crate::memory::memory::{BusView, Memory};
use crate::memory::ram::{spec_zeroes, Ram};

pub mod render;

verus! {

/// Number of entries in the object attribute memory.
pub const SPRITE_COUNT: usize = 40;

/// One entry of the object attribute memory, with its position on the screen.
#[derive(Clone, Copy, Debug)]
pub struct Sprite {
    /// Screen line of the top row; the stored byte minus 16.
    pub y_pos: i32,
    /// Screen column of the left edge; the stored byte minus 8.
    pub x_pos: i32,
    pub pattern_id: u8,
    /// The sprite is drawn over every background colour.
    pub above_bg: bool,
    pub y_flip: bool,
    pub x_flip: bool,
    /// The sprite takes its shades from the first object palette.
    pub use_palette_0: bool,
}

/// The pixel-processing unit.
pub struct Gpu {
    /// The frame that is being drawn.
    pub frame: [GreyShade; SCREEN_BUFFER_SIZE],
    /// The last complete frame; it changes only when vertical blanking begins.
    pub finished_frame: [GreyShade; SCREEN_BUFFER_SIZE],
    pub scy: u8,
    pub scx: u8,
    pub wy: u8,
    pub wx: u8,
    /// The current scanline, 0 to 153.
    pub ly: u8,
    pub lyc: u8,
    /// The current dot of the scanline, 0 to 455.
    pub lx: u16,
    pub bg_pallette: u8,
    pub sprite_pallete_1: u8,
    pub sprite_pallete_2: u8,
    pub status: LcdStatus,
    pub control: LcdControl,
    pub oam: Ram,
    /// High byte of the source of the last object-memory transfer.
    pub dma_source: u8,
    /// Cycles until the pending transfer copies, or 0 if none is pending.
    pub dma_cycles: u8,
    /// The sprites as they were when the current line began.
    pub sprite_cache: Vec<Sprite>,
}

/// The model of a `Gpu`.
pub struct GpuView {
    pub frame: Seq<GreyShade>,
    pub finished_frame: Seq<GreyShade>,
    pub scy: u8,
    pub scx: u8,
    pub wy: u8,
    pub wx: u8,
    pub ly: u8,
    pub lyc: u8,
    pub lx: u16,
    pub bg_pallette: u8,
    pub sprite_pallete_1: u8,
    pub sprite_pallete_2: u8,
    pub status: LcdStatus,
    pub control: LcdControl,
    pub oam: Seq<u8>,
    pub dma_source: u8,
    pub dma_cycles: u8,
    pub sprite_cache: Seq<Sprite>,
}

impl View for Gpu {
    type V = GpuView;

    open spec fn view(&self) -> GpuView {
        GpuView {
            frame: self.frame@,
            finished_frame: self.finished_frame@,
            scy: self.scy,
            scx: self.scx,
            wy: self.wy,
            wx: self.wx,
            ly: self.ly,
            lyc: self.lyc,
            lx: self.lx,
            bg_pallette: self.bg_pallette,
            sprite_pallete_1: self.sprite_pallete_1,
            sprite_pallete_2: self.sprite_pallete_2,
            status: self.status,
            control: self.control,
            oam: self.oam@,
            dma_source: self.dma_source,
            dma_cycles: self.dma_cycles,
            sprite_cache: self.sprite_cache@,
        }
    }
}

/// The mode that the unit is in at dot `lx` of scanline `ly`: vertical blanking
/// from line 144 on; on a visible line object search up to dot 79, transfer up
/// to dot 251 and horizontal blanking after that.
pub open spec fn spec_mode_at(ly: u8, lx: u16) -> LcdMode {
    if ly >= VBLANK_ON {
        LcdMode::VBlank
    } else if lx < HTRANSFER_ON {
        LcdMode::OAMSearch
    } else if lx < HBLANK_ON {
        LcdMode::Transfer
    } else {
        LcdMode::HBlank
    }
}

/// The sprite that entry `index` of the object attribute memory describes.
pub open spec fn spec_sprite_at(oam: Seq<u8>, index: int) -> Sprite {
    Sprite {
        y_pos: (oam[4 * index] - 16) as i32,
        x_pos: (oam[4 * index + 1] - 8) as i32,
        pattern_id: oam[4 * index + 2],
        above_bg: (oam[4 * index + 3] / 128) % 2 == 0,
        y_flip: (oam[4 * index + 3] / 64) % 2 == 1,
        x_flip: (oam[4 * index + 3] / 32) % 2 == 1,
        use_palette_0: (oam[4 * index + 3] / 16) % 2 == 0,
    }
}

/// The forty sprites of the object attribute memory, in its order.
pub open spec fn spec_all_sprites(oam: Seq<u8>) -> Seq<Sprite> {
    Seq::new(SPRITE_COUNT as nat, |index: int| spec_sprite_at(oam, index))
}

impl GpuView {
    /// The unit after power-up: both frames white, line 0, dot 0, object
    /// search, display on, nothing else set.
    pub open spec fn spec_new() -> GpuView {
        GpuView {
            frame: Seq::new(SCREEN_BUFFER_SIZE as nat, |i: int| GreyShade::White),
            finished_frame: Seq::new(SCREEN_BUFFER_SIZE as nat, |i: int| GreyShade::White),
            scy: 0,
            scx: 0,
            wy: 0,
            wx: 0,
            ly: 0,
            lyc: 0,
            lx: 0,
            bg_pallette: 0,
            sprite_pallete_1: 0,
            sprite_pallete_2: 0,
            status: LcdStatus::spec_from_byte(2),
            control: LcdControl::spec_from_byte(0xC8),
            oam: spec_zeroes(OAM_SIZE as nat),
            dma_source: 0,
            dma_cycles: 0,
            sprite_cache: Seq::<Sprite>::empty(),
        }
    }

    /// Both frames and the object attribute memory have their sizes, the
    /// scanline and the dot are in range, and the mode in the status register is
    /// the mode of that dot.
    pub open spec fn wf(self) -> bool {
        &&& self.frame.len() == SCREEN_BUFFER_SIZE
        &&& self.finished_frame.len() == SCREEN_BUFFER_SIZE
        &&& self.oam.len() == OAM_SIZE
        &&& self.ly < VTOTAL
        &&& self.lx < HTOTAL
        &&& self.status.mode_flag == spec_mode_at(self.ly, self.lx).spec_number()
    }

    /// The byte read at `raw_address`: a byte of the object attribute memory or
    /// a register; 0xFF anywhere else.
    pub open spec fn spec_raw_read(self, raw_address: u16) -> u8 {
        if OAM_START <= raw_address <= OAM_END {
            self.oam[raw_address - OAM_START]
        } else if raw_address == 0xFF40 {
            self.control.spec_to_byte()
        } else if raw_address == 0xFF41 {
            self.status.spec_to_byte()
        } else if raw_address == 0xFF42 {
            self.scy
        } else if raw_address == 0xFF43 {
            self.scx
        } else if raw_address == 0xFF44 {
            self.ly
        } else if raw_address == 0xFF45 {
            self.lyc
        } else if raw_address == 0xFF46 {
            self.dma_source
        } else if raw_address == 0xFF47 {
            self.bg_pallette
        } else if raw_address == 0xFF48 {
            self.sprite_pallete_1
        } else if raw_address == 0xFF49 {
            self.sprite_pallete_2
        } else if raw_address == 0xFF4A {
            self.wy
        } else if raw_address == 0xFF4B {
            self.wx
        } else {
            0xFF
        }
    }

    /// The unit after a write of `value` at `raw_address`. A write to 0xFF46
    /// starts an object-memory transfer; a write to the scanline register or to
    /// any other address is ignored.
    pub open spec fn spec_raw_write(self, raw_address: u16, value: u8) -> GpuView {
        if OAM_START <= raw_address <= OAM_END {
            GpuView { oam: self.oam.update(raw_address - OAM_START, value), ..self }
        } else if raw_address == 0xFF40 {
            GpuView { control: LcdControl::spec_from_byte(value), ..self }
        } else if raw_address == 0xFF41 {
            GpuView { status: self.status.spec_set_data(value), ..self }
        } else if raw_address == 0xFF42 {
            GpuView { scy: value, ..self }
        } else if raw_address == 0xFF43 {
            GpuView { scx: value, ..self }
        } else if raw_address == 0xFF45 {
            GpuView { lyc: value, ..self }
        } else if raw_address == 0xFF46 {
            GpuView { dma_source: value, dma_cycles: DMA_CYCLES, ..self }
        } else if raw_address == 0xFF47 {
            GpuView { bg_pallette: value, ..self }
        } else if raw_address == 0xFF48 {
            GpuView { sprite_pallete_1: value, ..self }
        } else if raw_address == 0xFF49 {
            GpuView { sprite_pallete_2: value, ..self }
        } else if raw_address == 0xFF4A {
            GpuView { wy: value, ..self }
        } else if raw_address == 0xFF4B {
            GpuView { wx: value, ..self }
        } else {
            self
        }
    }

    /// Whether a write at `raw_address` raises a status interrupt: a write to
    /// the status register may.
    pub open spec fn spec_raw_write_raises(self, raw_address: u16) -> bool {
        raw_address == 0xFF41 && self.status.spec_write_raises()
    }
}

/// The scanline of a dot that has just been counted to `lx`, if the dot before
/// it was on line `ly`: a line ends where the dot wraps to 0, and line 0
/// follows line 153.
pub open spec fn spec_line_after(ly: u8, lx: u16) -> u8 {
    if lx != 0 {
        ly
    } else if ly + 1 == VTOTAL {
        0
    } else {
        (ly + 1) as u8
    }
}

/// The dot of a visible line at which the whole line is drawn.
pub open spec fn spec_draw_dot(ly: u8) -> u16 {
    if ly == 0 {
        (HTRANSFER_ON + 160) as u16
    } else {
        (HTRANSFER_ON + 48) as u16
    }
}

/// The grey level that a shade is shown with.
pub open spec fn spec_shade_level(shade: GreyShade) -> u8 {
    match shade {
        GreyShade::White => 0xDD,
        GreyShade::LightGrey => 0xAA,
        GreyShade::DarkGrey => 0x88,
        GreyShade::Black => 0x55,
    }
}

/// A frame as opaque RGBA pixels, four bytes each.
pub open spec fn spec_rgba_frame(frame: Seq<GreyShade>) -> Seq<u8> {
    Seq::new(
        SCREEN_RGBA_SLICE_SIZE as nat,
        |i: int|
            if i % 4 == 3 {
                0xFFu8
            } else {
                spec_shade_level(frame[i / 4])
            },
    )
}

impl GpuView {
    /// Whether the next dot is the first of a scanline.
    pub open spec fn spec_starts_line(self) -> bool {
        self.lx + 1 == HTOTAL
    }

    /// The dot after this one.
    pub open spec fn spec_next_lx(self) -> u16 {
        if self.spec_starts_line() {
            0
        } else {
            (self.lx + 1) as u16
        }
    }

    /// The scanline of the next dot; line 0 follows line 153.
    pub open spec fn spec_next_ly(self) -> u8 {
        if !self.spec_starts_line() {
            self.ly
        } else if self.ly + 1 == VTOTAL {
            0
        } else {
            (self.ly + 1) as u8
        }
    }

    /// Whether the next dot begins a scanline that equals the compare register.
    pub open spec fn spec_coincides(self) -> bool {
        self.spec_starts_line() && self.spec_next_ly() == self.lyc
    }

    /// Whether the next dot begins vertical blanking.
    pub open spec fn spec_enters_vblank(self) -> bool {
        self.spec_starts_line() && self.spec_next_ly() == VBLANK_ON
    }

    /// Whether the next dot begins the horizontal blanking of a visible line.
    pub open spec fn spec_enters_hblank(self) -> bool {
        self.spec_next_lx() == HBLANK_ON && self.ly < VBLANK_ON
    }

    /// Whether the next dot begins a frame.
    pub open spec fn spec_starts_frame(self) -> bool {
        self.spec_starts_line() && self.spec_next_ly() == 0
    }

    /// Whether the next dot begins a visible line.
    pub open spec fn spec_starts_visible_line(self) -> bool {
        self.spec_starts_line() && self.spec_next_ly() < VBLANK_ON
    }

    /// Whether the current line is drawn at the next dot.
    pub open spec fn spec_draws(self) -> bool {
        self.ly < VBLANK_ON && self.spec_next_lx() == spec_draw_dot(self.ly)
    }

    /// The interrupt controller after the next dot of an enabled display. The
    /// status interrupt is raised by a coincidence, by the start of a frame, by
    /// vertical and by horizontal blanking, each if enabled in the status
    /// register; vertical blanking always raises its own interrupt.
    pub open spec fn spec_tick_interrupts(self, ints: Interrupts) -> Interrupts {
        ints.spec_raise_if(self.spec_enters_vblank(), InterruptReason::VBlank).spec_raise_if(
            self.spec_raises_status(),
            InterruptReason::LCDStat,
        )
    }

    /// Whether the next dot of an enabled display raises the status interrupt.
    pub open spec fn spec_raises_status(self) -> bool {
        ||| self.spec_coincides() && self.status.lyc
        ||| self.spec_starts_frame() && self.status.oam_interrupt
        ||| self.spec_enters_vblank() && self.status.vblank_interrupt
        ||| self.spec_enters_hblank() && self.status.hblank_interrupt
    }

    /// The unit after the next dot of an enabled display, before any drawing.
    /// The position advances and the mode follows it; a coincidence sets its
    /// flag; entering vertical blanking publishes the frame; a visible line
    /// begins by caching the sprites.
    pub open spec fn spec_move(self) -> GpuView {
        GpuView {
            lx: self.spec_next_lx(),
            ly: self.spec_next_ly(),
            status: LcdStatus {
                coincidence_flag: self.status.coincidence_flag || self.spec_coincides(),
                mode_flag: spec_mode_at(self.spec_next_ly(), self.spec_next_lx()).spec_number(),
                ..self.status
            },
            finished_frame: if self.spec_enters_vblank() {
                self.frame
            } else {
                self.finished_frame
            },
            sprite_cache: if self.spec_starts_visible_line() {
                spec_all_sprites(self.oam)
            } else {
                self.sprite_cache
            },
            ..self
        }
    }

    /// The unit after the next dot of an enabled display.
    pub open spec fn spec_tick(self, vram: Seq<u8>) -> GpuView {
        if self.spec_draws() {
            GpuView { frame: self.spec_move().spec_draw_line(vram, self.ly), ..self.spec_move() }
        } else {
            self.spec_move()
        }
    }
}

impl BusView {
    /// The address of byte `index` of the pending object-memory transfer.
    pub open spec fn spec_dma_address(self, index: int) -> u16 {
        (self.gpu.dma_source * 256 + index) as u16
    }

    /// The object attribute memory after the transfer: 160 bytes read from the
    /// source page on.
    pub open spec fn spec_dma_copy(self) -> Seq<u8> {
        Seq::new(OAM_SIZE as nat, |index: int| self.spec_read(self.spec_dma_address(index)))
    }

    /// The unit after one cycle of the transfer countdown; the copy happens
    /// when the countdown reaches 0.
    pub open spec fn spec_dma_tick(self) -> GpuView {
        if self.gpu.dma_cycles == 0 {
            self.gpu
        } else if self.gpu.dma_cycles == 1 {
            GpuView { dma_cycles: 0, oam: self.spec_dma_copy(), ..self.gpu }
        } else {
            GpuView { dma_cycles: (self.gpu.dma_cycles - 1) as u8, ..self.gpu }
        }
    }

    /// The machine after one cycle of the pixel-processing unit. The transfer
    /// countdown always runs; the display advances only while it is enabled.
    pub open spec fn spec_gpu_step(self) -> BusView {
        if !self.gpu.control.display_enable {
            BusView { gpu: self.spec_dma_tick(), ..self }
        } else {
            BusView {
                gpu: self.spec_dma_tick().spec_tick(self.mem.vram),
                ints: self.spec_dma_tick().spec_tick_interrupts(self.ints),
                ..self
            }
        }
    }

    /// The machine after `cycles` cycles of the pixel-processing unit.
    pub open spec fn spec_gpu_steps(self, cycles: nat) -> BusView
        decreases cycles,
    {
        if cycles == 0 {
            self
        } else {
            self.spec_gpu_step().spec_gpu_steps((cycles - 1) as nat)
        }
    }
}

/// Moving to the next dot keeps the unit well formed.
pub proof fn lemma_move_keeps_wf(gpu: GpuView)
    requires
        gpu.wf(),
    ensures
        gpu.spec_move().wf(),
{
}

impl Gpu {
    /// The object attribute memory has its recorded size and the model is well
    /// formed.
    pub open spec fn wf(&self) -> bool {
        self.oam.wf() && self@.wf()
    }

    /// A write to the object attribute memory or to a register.
    pub fn raw_write(&mut self, raw_address: u16, value: u8, ints: &mut Interrupts)
        requires
            old(self).wf(),
        ensures
            final(self)@ == old(self)@.spec_raw_write(raw_address, value),
            *final(ints) == old(ints).spec_raise_if(
                old(self)@.spec_raw_write_raises(raw_address),
                InterruptReason::LCDStat,
            ),
            final(self).wf(),
    {
        if OAM_START <= raw_address && raw_address <= OAM_END {
            self.oam.write(raw_address - OAM_START, value);
        } else if raw_address == 0xFF40 {
            self.control = LcdControl::from(value);
        } else if raw_address == 0xFF41 {
            self.status.set_data(value, ints);
        } else if raw_address == 0xFF42 {
            self.scy = value;
        } else if raw_address == 0xFF43 {
            self.scx = value;
        } else if raw_address == 0xFF45 {
            self.lyc = value;
        } else if raw_address == 0xFF46 {
            self.begin_dma(value);
        } else if raw_address == 0xFF47 {
            self.bg_pallette = value;
        } else if raw_address == 0xFF48 {
            self.sprite_pallete_1 = value;
        } else if raw_address == 0xFF49 {
            self.sprite_pallete_2 = value;
        } else if raw_address == 0xFF4A {
            self.wy = value;
        } else if raw_address == 0xFF4B {
            self.wx = value;
        }
    }

    /// A read of the object attribute memory or of a register.
    pub fn raw_read(&self, raw_address: u16) -> (r: u8)
        requires
            self.wf(),
        ensures
            r == self@.spec_raw_read(raw_address),
    {
        if OAM_START <= raw_address && raw_address <= OAM_END {
            self.oam.read(raw_address - OAM_START)
        } else if raw_address == 0xFF40 {
            u8::from(self.control)
        } else if raw_address == 0xFF41 {
            u8::from(self.status)
        } else if raw_address == 0xFF42 {
            self.scy
        } else if raw_address == 0xFF43 {
            self.scx
        } else if raw_address == 0xFF44 {
            self.ly
        } else if raw_address == 0xFF45 {
            self.lyc
        } else if raw_address == 0xFF46 {
            self.dma_source
        } else if raw_address == 0xFF47 {
            self.bg_pallette
        } else if raw_address == 0xFF48 {
            self.sprite_pallete_1
        } else if raw_address == 0xFF49 {
            self.sprite_pallete_2
        } else if raw_address == 0xFF4A {
            self.wy
        } else if raw_address == 0xFF4B {
            self.wx
        } else {
            0xFF
        }
    }

    /// The forty sprites that the object attribute memory describes.
    pub fn get_all_sprites(&self) -> (r: Vec<Sprite>)
        requires
            self@.oam.len() == OAM_SIZE,
        ensures
            r@ == spec_all_sprites(self@.oam),
    {
        let mut out: Vec<Sprite> = Vec::new();
        let mut i: u16 = 0;
        while i < 40
            invariant
                i <= 40,
                self@.oam.len() == OAM_SIZE,
                out@.len() == i,
                forall|k: int| 0 <= k < i ==> out@[k] == spec_sprite_at(self@.oam, k),
            decreases 40 - i,
        {
            let address: u16 = i * 4;
            let y_pos: i32 = self.oam.read(address) as i32 - 16;
            let x_pos: i32 = self.oam.read(address + 1) as i32 - 8;
            let pattern_id: u8 = self.oam.read(address + 2);
            let attribs: u8 = self.oam.read(address + 3);
            let above_bg: bool = (attribs / 128) % 2 == 0;
            let y_flip: bool = (attribs / 64) % 2 == 1;
            let x_flip: bool = (attribs / 32) % 2 == 1;
            let use_palette_0: bool = (attribs / 16) % 2 == 0;
            out.push(Sprite { y_pos, x_pos, pattern_id, above_bg, y_flip, x_flip, use_palette_0 });
            i = i + 1;
        }
        assert(out@ =~= spec_all_sprites(self@.oam));
        out
    }

    /// Starts an object-memory transfer from page `source`: the copy happens
    /// 160 cycles later.
    pub fn begin_dma(&mut self, source: u8)
        ensures
            final(self)@ == (GpuView { dma_source: source, dma_cycles: DMA_CYCLES, ..old(self)@ }),
            final(self).oam == old(self).oam,
    {
        self.dma_source = source;
        self.dma_cycles = DMA_CYCLES;
    }

    /// Counts the pending transfer down by one cycle and, when the countdown
    /// ends, copies 160 bytes from the source page into the object attribute
    /// memory.
    pub fn update_dma(&mut self, ints: &Interrupts, mem: &Memory)
        requires
            old(self).wf(),
            mem.wf(),
        ensures
            final(self)@ == (BusView { mem: mem@, ints: *ints, gpu: old(self)@ }).spec_dma_tick(),
            final(self).wf(),
    {
        if self.dma_cycles == 0 {
            return ;
        }
        self.dma_cycles -= 1;
        if self.dma_cycles == 0 {
            let ghost before = BusView { mem: mem@, ints: *ints, gpu: old(self)@ };
            let source: u16 = (self.dma_source as u16) * 0x100;
            let mut i: u16 = 0;
            while i < 160
                invariant
                    i <= 160,
                    self.wf(),
                    mem.wf(),
                    source == self.dma_source * 256,
                    before == (BusView { mem: mem@, ints: *ints, gpu: old(self)@ }),
                    self@ == (GpuView { dma_cycles: 0, oam: self@.oam, ..before.gpu }),
                    forall|k: int| 0 <= k < i ==> self@.oam[k] == before.spec_read(before.spec_dma_address(k)),
                    forall|k: int| i <= k < 160 ==> self@.oam[k] == before.gpu.oam[k],
                decreases 160 - i,
            {
                proof {
                    reveal(BusView::spec_read);
                }
                let data: u8 = mem.read(ints, self, source + i);
                self.oam.write(i, data);
                i = i + 1;
            }
            assert(self@.oam =~= before.spec_dma_copy());
        }
    }

    /// Vertical blanking begins: its interrupt is raised, the status interrupt
    /// too if enabled for it, and the frame in progress is published.
    pub fn enter_vblank(&mut self, ints: &mut Interrupts)
        ensures
            final(self)@ == (GpuView { finished_frame: old(self)@.frame, ..old(self)@ }),
            final(self).oam == old(self).oam,
            *final(ints) == old(ints).spec_raise(InterruptReason::VBlank).spec_raise_if(
                old(self).status.vblank_interrupt,
                InterruptReason::LCDStat,
            ),
    {
        ints.raise_interrupt(InterruptReason::VBlank);
        if self.status.vblank_interrupt {
            ints.raise_interrupt(InterruptReason::LCDStat);
        }
        self.finished_frame = self.frame;
    }

    /// Compares the scanline with the compare register: if they are equal the
    /// coincidence flag is set and, if enabled, the status interrupt raised.
    pub fn run_ly_compare(&mut self, ints: &mut Interrupts)
        ensures
            final(self)@ == (GpuView {
                status: LcdStatus {
                    coincidence_flag: old(self).status.coincidence_flag || old(self).ly == old(self).lyc,
                    ..old(self).status
                },
                ..old(self)@
            }),
            final(self).oam == old(self).oam,
            *final(ints) == old(ints).spec_raise_if(
                old(self).ly == old(self).lyc && old(self).status.lyc,
                InterruptReason::LCDStat,
            ),
    {
        if self.ly == self.lyc {
            self.status.coincidence_flag = true;
            if self.status.lyc {
                ints.raise_interrupt(InterruptReason::LCDStat);
            }
        }
    }

    /// Draws the current line into the frame in progress.
    pub fn draw_line(&mut self, mem: &Memory)
        requires
            old(self).wf(),
            mem.wf(),
            old(self).ly < SCREEN_HEIGHT,
        ensures
            final(self)@ == (GpuView {
                frame: old(self)@.spec_draw_line(mem@.vram, old(self).ly),
                ..old(self)@
            }),
            final(self).oam == old(self).oam,
            final(self).wf(),
    {
        let y: u8 = self.ly;
        let sprites: Vec<Sprite> = self.get_sprites_on_line(y);
        let ghost scene = self@.spec_scene(mem@.vram);
        let mut x: u8 = 0;
        while x < 160
            invariant
                x <= 160,
                y < SCREEN_HEIGHT,
                self.wf(),
                mem.wf(),
                self.oam == old(self).oam,
                self@ == (GpuView { frame: self@.frame, ..old(self)@ }),
                scene == old(self)@.spec_scene(mem@.vram),
                sprites@ == old(self)@.spec_sprites_on_line(y),
                forall|i: int|
                    0 <= i < sprites@.len() ==> spec_sprite_on_line(
                        #[trigger] sprites@[i],
                        y as int,
                        spec_sprite_height(old(self)@.control),
                    ),
                forall|i: int|
                    0 <= i < SCREEN_BUFFER_SIZE ==> self@.frame[i] == (if y * SCREEN_WIDTH <= i < y * SCREEN_WIDTH
                        + x {
                        scene.spec_pixel(sprites@, (i - y * SCREEN_WIDTH) as u8, y)
                    } else {
                        old(self)@.frame[i]
                    }),
            decreases 160 - x,
        {
            self.draw_pixel(mem, &sprites, x, y);
            x = x + 1;
        }
        assert(self@.frame =~= old(self)@.spec_draw_line(mem@.vram, y));
    }

    /// Advances the unit by one cycle.
    ///
    /// The transfer countdown runs first. While the display is enabled the dot
    /// moves on; at the first dot of a line the scanline moves on, is compared
    /// with the compare register, and the line begins with object search or
    /// with vertical blanking; at dot 80 transfer begins and at dot 252
    /// horizontal blanking. A visible line is drawn as a whole at its drawing
    /// dot.
    pub fn step(&mut self, ints: &mut Interrupts, mem: &Memory)
        requires
            old(self).wf(),
            mem.wf(),
        ensures
            (BusView { mem: mem@, ints: *final(ints), gpu: final(self)@ }) == (BusView {
                mem: mem@,
                ints: *old(ints),
                gpu: old(self)@,
            }).spec_gpu_step(),
            final(self).wf(),
    {
        self.update_dma(ints, mem);
        if !self.control.display_enable {
            return ;
        }
        let draws: bool = self.ly < VBLANK_ON && self.lx + 1 == HTRANSFER_ON + if self.ly == 0 {
            160
        } else {
            48
        };
        self.advance(ints);
        if draws {
            self.draw_line(mem);
        }
    }

    /// Moves the unit to the next dot of an enabled display, without drawing.
    pub fn advance(&mut self, ints: &mut Interrupts)
        requires
            old(self).wf(),
        ensures
            final(self)@ == old(self)@.spec_move(),
            *final(ints) == old(self)@.spec_tick_interrupts(*old(ints)),
            final(self).oam == old(self).oam,
            final(self).wf(),
    {
        let starts_visible_line: bool = self.lx + 1 == HTOTAL && (self.ly + 1 < VBLANK_ON || self.ly + 1
            == VTOTAL);
        let new_mode: LcdMode = self.advance_position(ints);
        if starts_visible_line {
            self.sprite_cache = self.get_all_sprites();
        }
        self.status.set_mode(new_mode);
        proof {
            lemma_move_keeps_wf(old(self)@);
        }
    }

    /// Moves the dot and the scanline on, and returns the mode of the new dot.
    fn advance_position(&mut self, ints: &mut Interrupts) -> (new_mode: LcdMode)
        requires
            old(self).wf(),
        ensures
            new_mode == spec_mode_at(old(self)@.spec_next_ly(), old(self)@.spec_next_lx()),
            final(self).oam == old(self).oam,
            final(self)@ == (GpuView {
                lx: old(self)@.spec_next_lx(),
                ly: old(self)@.spec_next_ly(),
                finished_frame: if old(self)@.spec_enters_vblank() {
                    old(self)@.frame
                } else {
                    old(self)@.finished_frame
                },
                status: LcdStatus {
                    coincidence_flag: old(self).status.coincidence_flag || old(self)@.spec_coincides(),
                    ..old(self).status
                },
                ..old(self)@
            }),
            *final(ints) == old(self)@.spec_tick_interrupts(*old(ints)),
    {
        let blanking: bool = self.ly >= VBLANK_ON;
        self.lx = if self.lx + 1 == HTOTAL {
            0
        } else {
            self.lx + 1
        };
        if blanking {
            self.advance_blanking(ints)
        } else {
            self.advance_visible(ints)
        }
    }

    /// The mode after a dot of vertical blanking that has just been counted.
    /// At the first dot of a line the scanline moves on and is compared; the
    /// line after the last one is line 0, which begins with object search.
    fn advance_blanking(&mut self, ints: &mut Interrupts) -> (new_mode: LcdMode)
        requires
            VBLANK_ON <= old(self).ly < VTOTAL,
            old(self).lx < HTOTAL,
        ensures
            new_mode == spec_mode_at(final(self).ly, final(self).lx),
            final(self).oam == old(self).oam,
            final(self).ly == spec_line_after(old(self).ly, old(self).lx),
            final(self)@ == (GpuView {
                ly: spec_line_after(old(self).ly, old(self).lx),
                status: LcdStatus {
                    coincidence_flag: old(self).status.coincidence_flag || (old(self).lx == 0
                        && spec_line_after(old(self).ly, old(self).lx) == old(self).lyc),
                    ..old(self).status
                },
                ..old(self)@
            }),
            *final(ints) == old(ints).spec_raise_if(
                old(self).lx == 0 && ((spec_line_after(old(self).ly, old(self).lx) == old(self).lyc && old(
                    self,
                ).status.lyc) || (spec_line_after(old(self).ly, old(self).lx) == 0 && old(
                    self,
                ).status.oam_interrupt)),
                InterruptReason::LCDStat,
            ),
    {
        if self.lx == 0 {
            self.ly = (self.ly + 1) % VTOTAL;
            self.run_ly_compare(ints);
            if self.ly == 0 {
                if self.status.oam_interrupt {
                    ints.raise_interrupt(InterruptReason::LCDStat);
                }
                LcdMode::OAMSearch
            } else {
                LcdMode::VBlank
            }
        } else {
            LcdMode::VBlank
        }
    }

    /// The mode after a dot of a visible line that has just been counted. At
    /// the first dot of a line the scanline moves on and is compared, and line
    /// 144 begins vertical blanking; dot 80 begins transfer and dot 252
    /// horizontal blanking.
    fn advance_visible(&mut self, ints: &mut Interrupts) -> (new_mode: LcdMode)
        requires
            old(self).ly < VBLANK_ON,
            old(self).lx < HTOTAL,
        ensures
            new_mode == spec_mode_at(final(self).ly, final(self).lx),
            final(self).oam == old(self).oam,
            final(self).ly == spec_line_after(old(self).ly, old(self).lx),
            final(self)@ == (GpuView {
                ly: spec_line_after(old(self).ly, old(self).lx),
                finished_frame: if old(self).lx == 0 && old(self).ly + 1 == VBLANK_ON {
                    old(self)@.frame
                } else {
                    old(self)@.finished_frame
                },
                status: LcdStatus {
                    coincidence_flag: old(self).status.coincidence_flag || (old(self).lx == 0
                        && spec_line_after(old(self).ly, old(self).lx) == old(self).lyc),
                    ..old(self).status
                },
                ..old(self)@
            }),
            *final(ints) == old(ints).spec_raise_if(
                old(self).lx == 0 && old(self).ly + 1 == VBLANK_ON,
                InterruptReason::VBlank,
            ).spec_raise_if(
                (old(self).lx == 0 && ((spec_line_after(old(self).ly, old(self).lx) == old(self).lyc && old(
                    self,
                ).status.lyc) || (old(self).ly + 1 == VBLANK_ON && old(self).status.vblank_interrupt))) || (old(
                    self,
                ).lx == HBLANK_ON && old(self).status.hblank_interrupt),
                InterruptReason::LCDStat,
            ),
    {
        if self.lx == 0 {
            self.ly += 1;
            self.run_ly_compare(ints);
            if self.ly == VBLANK_ON {
                self.enter_vblank(ints);
                LcdMode::VBlank
            } else {
                LcdMode::OAMSearch
            }
        } else if self.lx == HTRANSFER_ON {
            LcdMode::Transfer
        } else if self.lx == HBLANK_ON {
            if self.status.hblank_interrupt {
                ints.raise_interrupt(InterruptReason::LCDStat)
            }
            LcdMode::HBlank
        } else if self.lx < HTRANSFER_ON {
            LcdMode::OAMSearch
        } else if self.lx < HBLANK_ON {
            LcdMode::Transfer
        } else {
            LcdMode::HBlank
        }
    }

    /// The last complete frame as opaque RGBA pixels, four bytes each.
    pub fn get_sfml_frame(&self) -> (r: [u8; SCREEN_RGBA_SLICE_SIZE])
        ensures
            r@ == spec_rgba_frame(self@.finished_frame),
    {
        let mut out_array: [u8; SCREEN_RGBA_SLICE_SIZE] = [0u8; SCREEN_RGBA_SLICE_SIZE];
        let mut i: usize = 0;
        while i < SCREEN_BUFFER_SIZE
            invariant
                i <= SCREEN_BUFFER_SIZE,
                forall|k: int|
                    0 <= k < 4 * i ==> out_array@[k] == (if k % 4 == 3 {
                        0xFFu8
                    } else {
                        spec_shade_level(self@.finished_frame[k / 4])
                    }),
            decreases SCREEN_BUFFER_SIZE - i,
        {
            let start: usize = i * 4;
            let level: u8 = match self.finished_frame[i] {
                GreyShade::White => 0xDD,
                GreyShade::LightGrey => 0xAA,
                GreyShade::DarkGrey => 0x88,
                GreyShade::Black => 0x55,
            };
            out_array[start] = level;
            out_array[start + 1] = level;
            out_array[start + 2] = level;
            out_array[start + 3] = 0xFF;
            i = i + 1;
        }
        assert(out_array@ =~= spec_rgba_frame(self@.finished_frame));
        out_array
    }

    /// The unit after power-up: both frames white, line 0, dot 0, object search.
    pub fn new() -> (r: Gpu)
        ensures
            r@ == GpuView::spec_new(),
            r.wf(),
    {
        let empty_frame: [GreyShade; SCREEN_BUFFER_SIZE] = [GreyShade::White; SCREEN_BUFFER_SIZE];
        assert(empty_frame@ =~= Seq::new(SCREEN_BUFFER_SIZE as nat, |i: int| GreyShade::White));
        Gpu {
            frame: empty_frame,
            finished_frame: empty_frame,
            scy: 0,
            scx: 0,
            ly: 0,
            lx: 0,
            lyc: 0,
            wy: 0,
            wx: 0,
            bg_pallette: 0,
            sprite_pallete_1: 0,
            sprite_pallete_2: 0,
            status: LcdStatus::new(),
            control: LcdControl::new(),
            oam: Ram::new(OAM_SIZE),
            dma_source: 0,
            dma_cycles: 0,
            sprite_cache: Vec::new(),
        }
    }
}

} // verus!
