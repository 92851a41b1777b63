//! The picture processing unit: video RAM, the LCD registers ($FF40-$FF4B) and the scanline
//! state machine that draws the background, the window and the sprites into a screen buffer.

use vstd::prelude::*;
use crate::bitfield::{bit_of, field_of, lemma_field_bound, lemma_bit_reads, lemma_field_reads};
use crate::interrupt::Interrupt;

verus! {

/// A shade of gray, or no pixel at all.
#[derive(PartialEq, Eq, Structural, Debug, Clone, Copy)]
pub enum GrayShade {
    /// The lightest shade.
    C00,
    C01,
    C10,
    /// The darkest shade.
    C11,
    /// No pixel: what lies below shows through.
    Transparent,
}

impl GrayShade {
    /// The number that stands for this value in its register.
    pub open spec fn spec_value(self) -> u8 {
        match self {
            GrayShade::C00 => 0,
            GrayShade::C01 => 1,
            GrayShade::C10 => 2,
            GrayShade::C11 => 3,
            GrayShade::Transparent => 4,
        }
    }

    /// The value that the number `v` stands for.
    pub fn from_u8(v: u8) -> (r: GrayShade)
        requires
            v <= 4,
        ensures
            r.spec_value() == v,
    {
        match v {
            0 => GrayShade::C00,
            1 => GrayShade::C01,
            2 => GrayShade::C10,
            3 => GrayShade::C11,
            _ => GrayShade::Transparent,
        }
    }

    pub fn to_u8(&self) -> (r: u8)
        ensures
            r == self.spec_value(),
    {
        match self {
            GrayShade::C00 => 0,
            GrayShade::C01 => 1,
            GrayShade::C10 => 2,
            GrayShade::C11 => 3,
            GrayShade::Transparent => 4,
        }
    }
}

/// What the LCD controller is doing (bits 0-1 of STAT).
#[derive(PartialEq, Eq, Structural, Debug, Clone, Copy)]
pub enum LCDMode {
    /// Horizontal blank: the line is drawn.
    HBlank,
    /// Vertical blank: all visible lines are drawn.
    VBlank,
    /// The sprites of the line are searched.
    SearchingOAM,
    /// The line is being drawn.
    LCDTransfer,
}

impl LCDMode {
    /// The number that stands for this value in its register.
    pub open spec fn spec_value(self) -> u8 {
        match self {
            LCDMode::HBlank => 0,
            LCDMode::VBlank => 1,
            LCDMode::SearchingOAM => 2,
            LCDMode::LCDTransfer => 3,
        }
    }

    /// The value that the number `v` stands for.
    pub fn from_u8(v: u8) -> (r: LCDMode)
        requires
            v <= 3,
        ensures
            r.spec_value() == v,
    {
        match v {
            0 => LCDMode::HBlank,
            1 => LCDMode::VBlank,
            2 => LCDMode::SearchingOAM,
            _ => LCDMode::LCDTransfer,
        }
    }

    pub fn to_u8(&self) -> (r: u8)
        ensures
            r == self.spec_value(),
    {
        match self {
            LCDMode::HBlank => 0,
            LCDMode::VBlank => 1,
            LCDMode::SearchingOAM => 2,
            LCDMode::LCDTransfer => 3,
        }
    }
}

/// The palette of a sprite.
#[derive(PartialEq, Eq, Structural, Debug, Clone, Copy)]
pub enum SpritePalette {
    /// OBP0.
    C0,
    /// OBP1.
    C1,
}

impl SpritePalette {
    /// The number that stands for this value in its register.
    pub open spec fn spec_value(self) -> u8 {
        match self {
            SpritePalette::C0 => 0,
            SpritePalette::C1 => 1,
        }
    }

    /// The value that the number `v` stands for.
    pub fn from_u8(v: u8) -> (r: SpritePalette)
        requires
            v <= 1,
        ensures
            r.spec_value() == v,
    {
        match v {
            0 => SpritePalette::C0,
            _ => SpritePalette::C1,
        }
    }

    pub fn to_u8(&self) -> (r: u8)
        ensures
            r == self.spec_value(),
    {
        match self {
            SpritePalette::C0 => 0,
            SpritePalette::C1 => 1,
        }
    }
}

/// Where a tile map lies.
#[derive(PartialEq, Eq, Structural, Debug, Clone, Copy)]
pub enum TileMap {
    /// Area $9800-$9BFF.
    C9800,
    /// Area $9C00-$9FFF.
    C9C00,
}

impl TileMap {
    /// The number that stands for this value in its register.
    pub open spec fn spec_value(self) -> u8 {
        match self {
            TileMap::C9800 => 0,
            TileMap::C9C00 => 1,
        }
    }

    /// The value that the number `v` stands for.
    pub fn from_u8(v: u8) -> (r: TileMap)
        requires
            v <= 1,
        ensures
            r.spec_value() == v,
    {
        match v {
            0 => TileMap::C9800,
            _ => TileMap::C9C00,
        }
    }

    pub fn to_u8(&self) -> (r: u8)
        ensures
            r == self.spec_value(),
    {
        match self {
            TileMap::C9800 => 0,
            TileMap::C9C00 => 1,
        }
    }
}

/// Where the background and window tiles lie.
#[derive(PartialEq, Eq, Structural, Debug, Clone, Copy)]
pub enum BgTileData {
    /// Area $8800-$97FF, tile numbers signed.
    C8800,
    /// Area $8000-$8FFF, tile numbers unsigned.
    C8000,
}

impl BgTileData {
    /// The number that stands for this value in its register.
    pub open spec fn spec_value(self) -> u8 {
        match self {
            BgTileData::C8800 => 0,
            BgTileData::C8000 => 1,
        }
    }

    /// The value that the number `v` stands for.
    pub fn from_u8(v: u8) -> (r: BgTileData)
        requires
            v <= 1,
        ensures
            r.spec_value() == v,
    {
        match v {
            0 => BgTileData::C8800,
            _ => BgTileData::C8000,
        }
    }

    pub fn to_u8(&self) -> (r: u8)
        ensures
            r == self.spec_value(),
    {
        match self {
            BgTileData::C8800 => 0,
            BgTileData::C8000 => 1,
        }
    }
}

/// The size of all sprites.
#[derive(PartialEq, Eq, Structural, Debug, Clone, Copy)]
pub enum SpriteSize {
    /// 8 by 8 pixels.
    C8by8,
    /// 8 by 16 pixels.
    C8by16,
}

impl SpriteSize {
    /// The number that stands for this value in its register.
    pub open spec fn spec_value(self) -> u8 {
        match self {
            SpriteSize::C8by8 => 0,
            SpriteSize::C8by16 => 1,
        }
    }

    /// The value that the number `v` stands for.
    pub fn from_u8(v: u8) -> (r: SpriteSize)
        requires
            v <= 1,
        ensures
            r.spec_value() == v,
    {
        match v {
            0 => SpriteSize::C8by8,
            _ => SpriteSize::C8by16,
        }
    }

    pub fn to_u8(&self) -> (r: u8)
        ensures
            r == self.spec_value(),
    {
        match self {
            SpriteSize::C8by8 => 0,
            SpriteSize::C8by16 => 1,
        }
    }
}

impl LCDMode {
    /// How many clock cycles the mode lasts on a line.
    pub fn duration(&self) -> (r: usize)
        ensures
            r == (match self {
                LCDMode::HBlank => 200usize,
                LCDMode::VBlank => 456usize,
                LCDMode::SearchingOAM => 84usize,
                LCDMode::LCDTransfer => 172usize,
            }),
    {
        match self {
            LCDMode::HBlank => 200,
            LCDMode::VBlank => 456,
            LCDMode::SearchingOAM => 84,
            LCDMode::LCDTransfer => 172,
        }
    }
}

/// Width of the screen in pixels.
pub const SCREEN_X: usize = 160;

/// Height of the screen in pixels.
pub const SCREEN_Y: usize = 144;

/// Width of the background map in pixels.
pub const BACKGROUND_X: usize = 256;

/// Height of the background map in pixels.
pub const BACKGROUND_Y: usize = 256;

/// Clock cycles of one line.
pub const SCANLINE_CYCLES: usize = 456;

/// Number of lines, the invisible ones included.
pub const VERTICAL_LINES: usize = 154;

/// Clock cycles of one frame (456 cycles for each of the 154 lines).
pub const SCREEN_CYCLES: usize = 70224;

/// Bytes of video RAM held by the unit.
pub const VIDEO_RAM_SIZE: usize = 8196;

/// Bytes of sprite attribute memory (40 sprites of 4 bytes).
pub const OAM_SIZE: usize = 160;

/// The two-bit color number of pixel `x` (0 is the leftmost) of a tile row whose low bits are
/// in `l` and high bits in `h`.
pub open spec fn pixel_of_row(l: u8, h: u8, x: int) -> u8 {
    (bit_of(l, (7 - x) as u8) + 2 * bit_of(h, (7 - x) as u8)) as u8
}

/// The color number of pixel `x` (0-7) of the tile row `l`, `h`.
pub fn row_pixel(l: u8, h: u8, x: usize) -> (r: u8)
    requires
        x < 8,
    ensures
        r == pixel_of_row(l, h, x as int),
        r <= 3,
{
    proof { lemma_bit_reads(); }
    let s = (7 - x) as u8;
    ((l >> s) & 1) + 2 * ((h >> s) & 1)
}

/// The color number of pixel (`x`, `y`) of the tile whose 16 bytes start at `offset`.
pub fn pattern_value(video_ram: &[u8], offset: usize, x: usize, y: usize) -> (r: u8)
    requires
        x < 8,
        offset + y * 2 + 1 < video_ram@.len(),
    ensures
        r == pixel_of_row(video_ram@[offset + y * 2], video_ram@[offset + y * 2 + 1], x as int),
        r <= 3,
{
    let n = video_ram.len();
    let l = video_ram[offset + (y * 2)];
    let h = video_ram[offset + (y * 2) + 1];
    row_pixel(l, h, x)
}

/// The value of register `address` ($FF40-$FF4B) in a register file that starts at $FF40.
pub open spec fn video_reg(regs: Seq<u8>, address: u16) -> u8 {
    regs[address - 0xFF40]
}

/// The registers that the LCD controller answers: $FF40-$FF4B except $FF46 (DMA).
pub open spec fn is_video_register(address: u16) -> bool {
    0xFF40 <= address <= 0xFF4B && address != 0xFF46
}

/// The bits of a register that always read as one: bit 7 of STAT.
pub open spec fn video_read_mask(address: u16) -> u8 {
    if address == 0xFF41 { 0x80 } else { 0 }
}

/// The shade that a two-bit palette entry stands for.
pub open spec fn shade_of(v: u8) -> GrayShade {
    if v == 0 { GrayShade::C00 } else if v == 1 { GrayShade::C01 } else if v == 2 { GrayShade::C10 } else {
        GrayShade::C11 }
}

/// The shade of color number `color` (0-3) through the palette register `palette`.
pub open spec fn palette_shade(palette: u8, color: u8) -> GrayShade {
    shade_of(field_of(palette, (2 * color) as u8, 0b11))
}

/// The LCD registers $FF40-$FF4B.
pub struct VideoMemoryMapper {
    regs: Vec<u8>,
}

impl View for VideoMemoryMapper {
    type V = Seq<u8>;

    closed spec fn view(&self) -> Seq<u8> {
        self.regs@
    }
}

impl VideoMemoryMapper {
    pub open spec fn wf(&self) -> bool {
        self@.len() == 12
    }

    /// LCDC $91, BGP $FC, OBP0 and OBP1 $FF, everything else zero.
    pub fn new() -> (r: VideoMemoryMapper)
        ensures
            r.wf(),
            forall|a: u16| 0xFF40 <= a <= 0xFF4B ==> video_reg(r@, a) == (if a == 0xFF40 { 0x91u8 }
                else if a == 0xFF47 { 0xFCu8 } else if a == 0xFF48 || a == 0xFF49 { 0xFFu8 } else { 0u8 }),
    {
        let mut regs = vec![0u8; 12];
        regs.set(0x0, 0x91);
        regs.set(0x7, 0xFC);
        regs.set(0x8, 0xFF);
        regs.set(0x9, 0xFF);
        VideoMemoryMapper { regs }
    }

    /// The raw value of register `address`.
    pub fn reg(&self, address: u16) -> (r: u8)
        requires
            self.wf(),
            0xFF40 <= address <= 0xFF4B,
        ensures
            r == video_reg(self@, address),
    {
        self.regs[(address - 0xFF40) as usize]
    }

    /// Reads register `address`: its value with the unused bit of STAT set.
    pub fn read(&self, address: u16) -> (r: u8)
        requires
            self.wf(),
            is_video_register(address),
        ensures
            r == video_reg(self@, address) | video_read_mask(address),
    {
        let mask: u8 = if address == 0xFF41 { 0x80 } else { 0 };
        self.reg(address) | mask
    }

    /// Writes register `address`.
    pub fn write(&mut self, address: u16, v: u8)
        requires
            old(self).wf(),
            is_video_register(address),
        ensures
            final(self).wf(),
            final(self)@ == old(self)@.update(address - 0xFF40, v),
    {
        self.regs.set((address - 0xFF40) as usize, v);
    }

    /// Bit `k` of register `address`.
    fn bit(&self, address: u16, k: u8) -> (r: u8)
        requires
            self.wf(),
            0xFF40 <= address <= 0xFF4B,
            k < 8,
        ensures
            r == bit_of(video_reg(self@, address), k),
            r <= 1,
    {
        proof { lemma_bit_reads(); }
        (self.reg(address) >> k) & 1
    }

    /// Bit 7 of LCDC: the display is on.
    pub fn lcd_on(&self) -> (r: u8)
        requires self.wf(),
        ensures r == bit_of(video_reg(self@, 0xFF40), 7), r <= 1,
    {
        self.bit(0xFF40, 7)
    }

    /// Bit 0 of LCDC: background and window are shown.
    pub fn bg_window_on(&self) -> (r: u8)
        requires self.wf(),
        ensures r == bit_of(video_reg(self@, 0xFF40), 0), r <= 1,
    {
        self.bit(0xFF40, 0)
    }

    /// Bit 1 of LCDC: sprites are shown.
    pub fn obj_sprite_display(&self) -> (r: u8)
        requires self.wf(),
        ensures r == bit_of(video_reg(self@, 0xFF40), 1), r <= 1,
    {
        self.bit(0xFF40, 1)
    }

    /// Bit 2 of LCDC: the size of the sprites.
    pub fn sprite_size(&self) -> (r: SpriteSize)
        requires self.wf(),
        ensures r.spec_value() == bit_of(video_reg(self@, 0xFF40), 2),
    {
        SpriteSize::from_u8(self.bit(0xFF40, 2))
    }

    /// Bit 3 of LCDC: the tile map of the background.
    pub fn bg_tile_map(&self) -> (r: TileMap)
        requires self.wf(),
        ensures r.spec_value() == bit_of(video_reg(self@, 0xFF40), 3),
    {
        TileMap::from_u8(self.bit(0xFF40, 3))
    }

    /// Bit 4 of LCDC: the tiles of background and window.
    pub fn bg_tile_data(&self) -> (r: BgTileData)
        requires self.wf(),
        ensures r.spec_value() == bit_of(video_reg(self@, 0xFF40), 4),
    {
        BgTileData::from_u8(self.bit(0xFF40, 4))
    }

    /// Bit 5 of LCDC: the window is shown.
    pub fn window_on(&self) -> (r: u8)
        requires self.wf(),
        ensures r == bit_of(video_reg(self@, 0xFF40), 5), r <= 1,
    {
        self.bit(0xFF40, 5)
    }

    /// Bit 6 of LCDC: the tile map of the window.
    pub fn window_tile_map(&self) -> (r: TileMap)
        requires self.wf(),
        ensures r.spec_value() == bit_of(video_reg(self@, 0xFF40), 6),
    {
        TileMap::from_u8(self.bit(0xFF40, 6))
    }

    /// The shade of color number `color` through the palette register `address`
    /// (BGP, OBP0 or OBP1).
    pub fn palette(&self, address: u16, color: u8) -> (r: GrayShade)
        requires
            self.wf(),
            address == 0xFF47 || address == 0xFF48 || address == 0xFF49,
            color <= 3,
        ensures
            r == palette_shade(video_reg(self@, address), color),
    {
        proof { lemma_field_bound(); }
        let v = (self.reg(address) >> (2 * color)) & 0b11;
        if v == 0 { GrayShade::C00 } else if v == 1 { GrayShade::C01 } else if v == 2 { GrayShade::C10 } else {
            GrayShade::C11 }
    }

    /// Bits 0-1 of STAT: the mode.
    pub fn mode(&self) -> (r: LCDMode)
        requires self.wf(),
        ensures r.spec_value() == field_of(video_reg(self@, 0xFF41), 0, 0b11),
    {
        proof { lemma_field_bound(); }
        LCDMode::from_u8((self.reg(0xFF41) >> 0) & 0b11)
    }

    /// Bit 3 of STAT: the HBlank interrupt is enabled.
    pub fn h_blank_interrupt(&self) -> (r: u8)
        requires self.wf(),
        ensures r == bit_of(video_reg(self@, 0xFF41), 3), r <= 1,
    {
        self.bit(0xFF41, 3)
    }

    /// Bit 4 of STAT: the VBlank interrupt is enabled.
    pub fn v_blank_interrupt(&self) -> (r: u8)
        requires self.wf(),
        ensures r == bit_of(video_reg(self@, 0xFF41), 4), r <= 1,
    {
        self.bit(0xFF41, 4)
    }

    /// Bit 5 of STAT: the OAM interrupt is enabled.
    pub fn oam_interrupt(&self) -> (r: u8)
        requires self.wf(),
        ensures r == bit_of(video_reg(self@, 0xFF41), 5), r <= 1,
    {
        self.bit(0xFF41, 5)
    }

    /// Bit 6 of STAT: the LY=LYC interrupt is enabled.
    pub fn lyc_ly_coincidence_interrupt(&self) -> (r: u8)
        requires self.wf(),
        ensures r == bit_of(video_reg(self@, 0xFF41), 6), r <= 1,
    {
        self.bit(0xFF41, 6)
    }

    /// Bit 2 of STAT: LY equals LYC.
    pub fn ly_coincidence(&self) -> (r: u8)
        requires self.wf(),
        ensures r == bit_of(video_reg(self@, 0xFF41), 2), r <= 1,
    {
        self.bit(0xFF41, 2)
    }

    /// Sets bits 0-1 of STAT to the mode.
    pub fn set_mode(&mut self, mode: LCDMode)
        requires
            old(self).wf(),
        ensures
            final(self).wf(),
            final(self)@ == old(self)@.update(1, (crate::bitfield::outside_field(video_reg(old(self)@, 0xFF41),
                0, 0b11) + mode.spec_value()) as u8),
            field_of(video_reg(final(self)@, 0xFF41), 0, 0b11) == mode.spec_value(),
            forall|k: u8| 2 <= k < 8 ==> #[trigger] bit_of(video_reg(final(self)@, 0xFF41), k) == bit_of(
                video_reg(old(self)@, 0xFF41), k),
    {
        let x = self.reg(0xFF41);
        proof {
            crate::bitfield::lemma_field_masks();
            crate::bitfield::law_field_write(x, 0, 0b11, mode.spec_value());
        }
        let mut stat = crate::bitfield::Bitfield::new(x);
        stat.set_01(mode.to_u8());
        self.write(0xFF41, stat.get());
        proof {
            let m = mode.spec_value();
            assert(forall|k: u8| 2 <= k < 8 ==> #[trigger] (((((x & !(0b11u8 << 0u8)) + m) as u8) >> k) & 1) == (x >> k) & 1)
                by (bit_vector) requires m <= 3;
        }
    }

    /// Sets bit 2 of STAT.
    pub fn set_ly_coincidence(&mut self, v: u8)
        requires
            old(self).wf(),
            v <= 1,
        ensures
            final(self).wf(),
            final(self)@ == old(self)@.update(1, crate::bitfield::with_bit(video_reg(old(self)@, 0xFF41), 2, v == 1)),
    {
        proof { crate::bitfield::lemma_bit_masks(); }
        let s = self.reg(0xFF41);
        let n = if v == 1 { s | 0b00000100 } else { s & 0b11111011 };
        self.write(0xFF41, n);
    }
}

/// Capacity of the pixel queue.
pub const FIFO_SIZE: usize = 16;

/// A queue of at most 16 pixels (color numbers) kept in a ring buffer.
pub struct Fifo {
    queue: Vec<u8>,
    start: usize,
    end: usize,
    size: usize,
}

impl View for Fifo {
    type V = Seq<u8>;

    /// The queued pixels, the oldest first.
    closed spec fn view(&self) -> Seq<u8> {
        Seq::new(self.size as nat, |i: int| self.queue@[(self.start + i) % 16])
    }
}

impl Fifo {
    pub closed spec fn wf(&self) -> bool {
        &&& self.queue@.len() == 16
        &&& self.start < 16
        &&& self.size <= 16
        &&& self.end == (self.start + self.size) % 16
    }

    /// An empty queue.
    pub fn new() -> (r: Fifo)
        ensures
            r.wf(),
            r@ == Seq::<u8>::empty(),
    {
        let r = Fifo { queue: vec![0u8; 16], start: 0, end: 0, size: 0 };
        assert(r@ =~= Seq::<u8>::empty());
        r
    }

    /// Empties the queue.
    pub fn reset(&mut self)
        requires
            old(self).wf(),
        ensures
            final(self).wf(),
            final(self)@ == Seq::<u8>::empty(),
    {
        self.start = 0;
        self.end = 0;
        self.size = 0;
        assert(self@ =~= Seq::<u8>::empty());
    }

    /// Adds a pixel at the back.
    pub fn push(&mut self, v: u8)
        requires
            old(self).wf(),
            old(self)@.len() < FIFO_SIZE,
        ensures
            final(self).wf(),
            final(self)@ == old(self)@.push(v),
    {
        let ghost before = self@;
        self.queue.set(self.end, v);
        self.end = (self.end + 1) % FIFO_SIZE;
        self.size = self.size + 1;
        assert forall|i: int| 0 <= i < before.len() implies #[trigger] self@[i] == before[i] by {
            assert((self.start + i) % 16 != (self.start + before.len()) % 16);
        }
        assert(self@ =~= before.push(v));
    }

    /// Takes the pixel at the front.
    pub fn pop(&mut self) -> (r: u8)
        requires
            old(self).wf(),
            old(self)@.len() > 0,
        ensures
            final(self).wf(),
            r == old(self)@[0],
            final(self)@ == old(self)@.drop_first(),
    {
        let ghost before = self@;
        let v = self.queue[self.start];
        self.start = (self.start + 1) % FIFO_SIZE;
        self.size = self.size - 1;
        assert forall|i: int| 0 <= i < self@.len() implies #[trigger] self@[i] == before[i + 1] by {
            assert((self.start + i) % 16 == (self.start + i) % 16);
        }
        assert(self@ =~= before.drop_first());
        v
    }

    /// The number of queued pixels.
    pub fn size(&self) -> (r: usize)
        requires
            self.wf(),
        ensures
            r == self@.len(),
    {
        self.size
    }
}

/// The eight color numbers of a tile row, the leftmost first.
pub open spec fn row_pixels(l: u8, h: u8) -> Seq<u8> {
    Seq::new(8, |i: int| pixel_of_row(l, h, i))
}

/// What the pixel pipeline does next.
#[derive(PartialEq, Eq, Structural, Debug, Clone, Copy)]
pub enum PipelineStage {
    ReadPattern,
    ReadTile0,
    ReadTile1,
    Wait,
}

/// The tile row being fetched.
#[derive(PartialEq, Eq, Structural, Debug, Clone, Copy)]
pub struct PipelineUnit {
    pub pattern: u8,
    pub tile0: u8,
    pub tile1: u8,
}

/// The offset in video RAM of byte `tile` (0 or 1) of row `y % 8` of tile number `pattern`:
/// tile numbers count from $8000 when `unsigned_tiles` holds, and are signed around $9000
/// otherwise.
pub open spec fn tile_offset(unsigned_tiles: bool, pattern: u8, y: int, tile: int) -> int {
    let resolved: int = if unsigned_tiles { pattern as int } else if pattern < 0x80 { pattern + 0x80 } else {
        pattern - 0x80 };
    let offset: int = if unsigned_tiles { 0 } else { 0x800 };
    offset + resolved * 16 + (y % 8) * 2 + tile
}

/// Fetches the tiles of one line of the background or of the window from a tile map.
#[derive(PartialEq, Eq, Structural, Debug, Clone, Copy)]
pub struct BackgroundFetcher {
    /// Offset in video RAM of the first tile number of the line in the tile map.
    pub address: usize,
    /// The tile of the line (0-31).
    pub step: usize,
    /// The line in the background or window.
    pub y: usize,
}

impl BackgroundFetcher {
    pub open spec fn wf(&self) -> bool {
        self.address + 31 < VIDEO_RAM_SIZE && self.step < 32
    }

    pub fn new(address: usize, step: usize, y: usize) -> (r: BackgroundFetcher)
        ensures
            r == (BackgroundFetcher { address, step, y }),
    {
        BackgroundFetcher { address, step, y }
    }

    /// Byte `tile` of the current row of tile number `pattern`.
    pub fn tile(&self, mapper: &VideoMemoryMapper, pattern: u8, video_ram: &[u8], tile: usize) -> (r: u8)
        requires
            mapper.wf(),
            video_ram@.len() == VIDEO_RAM_SIZE,
            tile <= 1,
        ensures
            r == video_ram@[tile_offset(bit_of(video_reg(mapper@, 0xFF40), 4) == 1, pattern, self.y as int, tile as int)],
    {
        let resolved_pattern: usize;
        let offset: usize;

        if mapper.bg_tile_data() == BgTileData::C8000 {
            resolved_pattern = pattern as usize;
            offset = 0x0000;
        } else {
            resolved_pattern = if pattern < 0x80 { pattern as usize + 0x80 } else { pattern as usize - 0x80 };
            offset = 0x0800;
        }

        video_ram[offset + resolved_pattern * 16 + (self.y % 8) * 2 + tile]
    }

    /// The tile number of the current tile.
    pub fn pattern(&self, video_ram: &[u8]) -> (r: u8)
        requires
            self.wf(),
            video_ram@.len() == VIDEO_RAM_SIZE,
        ensures
            r == video_ram@[self.address + self.step],
    {
        video_ram[self.address + self.step]
    }

    /// Moves to the next tile, wrapping around the 32 tiles of the map's line.
    pub fn next_step(&mut self)
        requires
            old(self).step < 32,
        ensures
            final(self).step == (old(self).step + 1) % 32,
            final(self).address == old(self).address,
            final(self).y == old(self).y,
    {
        self.step = (self.step + 1) % (BACKGROUND_X / 8);
    }
}

/// The tile number that the fetcher reads next; no fetcher reads zeros.
pub open spec fn fetched_pattern(fetcher: Option<BackgroundFetcher>, video_ram: Seq<u8>) -> u8 {
    match fetcher {
        Some(f) => video_ram[f.address + f.step],
        None => 0,
    }
}

/// The tile byte that the fetcher reads; no fetcher reads zeros.
pub open spec fn fetched_tile(fetcher: Option<BackgroundFetcher>, regs: Seq<u8>, pattern: u8, video_ram: Seq<u8>,
    tile: int) -> u8 {
    match fetcher {
        Some(f) => video_ram[tile_offset(bit_of(video_reg(regs, 0xFF40), 4) == 1, pattern, f.y as int, tile)],
        None => 0,
    }
}

/// The most pixels that the queue holds at each stage between two steps of a line: two
/// pixels are taken after each step while it holds more than eight, so a row always fits when
/// the high byte is read.
pub open spec fn stage_bound(stage: PipelineStage) -> int {
    match stage {
        PipelineStage::ReadTile1 => 8,
        PipelineStage::ReadTile0 => 10,
        PipelineStage::ReadPattern => 12,
        PipelineStage::Wait => 14,
    }
}

/// What decides the work of a pixel pipeline: the queued pixels, the stage, the pixels still
/// to drop, the row being fetched and the tile source.
pub struct PipelineState {
    pub fifo: Seq<u8>,
    pub stage: PipelineStage,
    pub drop: usize,
    pub current: PipelineUnit,
    pub fetcher: Option<BackgroundFetcher>,
}

/// The tile source moved to the next tile of its line.
pub open spec fn advanced(fetcher: Option<BackgroundFetcher>) -> Option<BackgroundFetcher> {
    match fetcher {
        Some(f) => Some(BackgroundFetcher { step: ((f.step + 1) % 32) as usize, ..f }),
        None => None,
    }
}

/// One stage of the pipeline with the LCD registers `regs` and video RAM `vram`: the tile
/// number, then the low byte, then the high byte are read; with the high byte the row's eight
/// pixels are queued (less the pixels to drop) and the source moves to the next tile; a queue
/// of more than eight pixels then waits one stage.
pub open spec fn pipeline_step(s: PipelineState, regs: Seq<u8>, vram: Seq<u8>) -> PipelineState {
    match s.stage {
        PipelineStage::ReadPattern => PipelineState {
            stage: PipelineStage::ReadTile0,
            current: PipelineUnit { pattern: fetched_pattern(s.fetcher, vram), ..s.current },
            ..s
        },
        PipelineStage::ReadTile0 => PipelineState {
            stage: PipelineStage::ReadTile1,
            current: PipelineUnit { tile0: fetched_tile(s.fetcher, regs, s.current.pattern, vram, 0), ..s.current },
            ..s
        },
        PipelineStage::ReadTile1 => {
            let tile1 = fetched_tile(s.fetcher, regs, s.current.pattern, vram, 1);
            let fifo = (s.fifo + row_pixels(s.current.tile0, tile1)).skip(s.drop as int);
            PipelineState {
                fifo,
                stage: if fifo.len() <= 8 { PipelineStage::ReadPattern } else { PipelineStage::Wait },
                drop: 0,
                current: PipelineUnit { tile1, ..s.current },
                fetcher: advanced(s.fetcher),
            }
        },
        PipelineStage::Wait => PipelineState { stage: PipelineStage::ReadPattern, ..s },
    }
}

/// Fetches tile rows and queues their pixels, one stage at a time: the tile number, the low
/// byte, the high byte (then the eight pixels are queued), and a wait when the queue holds more
/// than eight pixels.
pub struct PixelPipeline {
    pub fifo: Fifo,
    pub stage: PipelineStage,
    /// Pixels still to be dropped from the front of the next row (fine scrolling).
    pub drop: usize,
    pub current: PipelineUnit,
    /// The tile source; none before the first line is drawn.
    pub fetcher: Option<BackgroundFetcher>,
}

impl PixelPipeline {
    pub open spec fn state(&self) -> PipelineState {
        PipelineState {
            fifo: self.fifo@,
            stage: self.stage,
            drop: self.drop,
            current: self.current,
            fetcher: self.fetcher,
        }
    }

    pub open spec fn wf(&self) -> bool {
        &&& self.fifo.wf()
        &&& forall|i: int| 0 <= i < self.fifo@.len() ==> #[trigger] self.fifo@[i] <= 3
        &&& self.drop <= 7
        &&& (self.fetcher matches Some(f) ==> f.wf())
    }

    /// The queue bound that each stage needs: the queue can take a row when the high byte is
    /// read.
    pub open spec fn room(&self) -> bool {
        self.fifo@.len() <= stage_bound(self.stage)
    }

    pub fn new() -> (r: PixelPipeline)
        ensures
            r.wf(),
            r.room(),
            r.fifo@ == Seq::<u8>::empty(),
            r.stage == PipelineStage::ReadPattern,
            r.fetcher is None,
            r.drop == 0,
            r.current == (PipelineUnit { pattern: 0, tile0: 0, tile1: 0 }),
    {
        PixelPipeline {
            fetcher: None,
            fifo: Fifo::new(),
            stage: PipelineStage::ReadPattern,
            drop: 0,
            current: PipelineUnit { pattern: 0, tile0: 0, tile1: 0 },
        }
    }

    /// Starts a new row source: the queue is emptied and `drop` pixels of the first row will
    /// be dropped.
    pub fn reset(&mut self, drop: usize, fetcher: BackgroundFetcher)
        requires
            old(self).wf(),
            drop <= 7,
            fetcher.wf(),
        ensures
            final(self).wf(),
            final(self).room(),
            final(self).fifo@ == Seq::<u8>::empty(),
            final(self).stage == PipelineStage::ReadPattern,
            final(self).drop == drop,
            final(self).fetcher == Some(fetcher),
            final(self).current == old(self).current,
    {
        self.drop = drop;
        self.fifo.reset();
        self.stage = PipelineStage::ReadPattern;
        self.fetcher = Some(fetcher);
    }

    /// Queues the eight pixels of the current row and drops the pixels still to be dropped.
    fn push_pixels(&mut self)
        requires
            old(self).wf(),
            old(self).fifo@.len() <= 8,
        ensures
            final(self).wf(),
            final(self).fifo@ == (old(self).fifo@ + row_pixels(old(self).current.tile0, old(self).current.tile1)).skip(
                old(self).drop as int),
            final(self).drop == 0,
            final(self).stage == old(self).stage,
            final(self).current == old(self).current,
            final(self).fetcher == old(self).fetcher,
    {
        let l = self.current.tile0;
        let h = self.current.tile1;
        let ghost start = self.fifo@;

        let mut i: usize = 0;
        while i < 8
            invariant
                0 <= i <= 8,
                self.fifo.wf(),
                start.len() <= 8,
                self.fifo@ == start + row_pixels(l, h).take(i as int),
                forall|j: int| 0 <= j < self.fifo@.len() ==> #[trigger] self.fifo@[j] <= 3,
                l == self.current.tile0,
                h == self.current.tile1,
                self.drop == old(self).drop,
                self.drop <= 7,
                self.current == old(self).current,
                self.stage == old(self).stage,
                self.fetcher == old(self).fetcher,
            decreases 8 - i,
        {
            let p = row_pixel(l, h, i);
            self.fifo.push(p);
            assert(row_pixels(l, h).take(i as int + 1) =~= row_pixels(l, h).take(i as int).push(p));
            i = i + 1;
        }
        assert(row_pixels(l, h).take(8) =~= row_pixels(l, h));

        let ghost full = self.fifo@;
        let ghost d = self.drop;
        while self.drop > 0
            invariant
                self.fifo.wf(),
                d <= 7,
                self.drop <= d,
                full.len() >= 8,
                self.fifo@ == full.skip(d - self.drop),
                forall|j: int| 0 <= j < full.len() ==> #[trigger] full[j] <= 3,
                d == old(self).drop,
                full == start + row_pixels(l, h),
                self.current == old(self).current,
                self.stage == old(self).stage,
                self.fetcher == old(self).fetcher,
            decreases self.drop,
        {
            self.fifo.pop();
            self.drop = self.drop - 1;
            assert(full.skip(d - self.drop) =~= full.skip(d - self.drop - 1).drop_first());
        }
    }

    /// One stage of the pipeline.
    pub fn step(&mut self, mapper: &VideoMemoryMapper, video_ram: &[u8])
        requires
            old(self).wf(),
            mapper.wf(),
            video_ram@.len() == VIDEO_RAM_SIZE,
            old(self).stage == PipelineStage::ReadTile1 ==> old(self).fifo@.len() <= 8,
        ensures
            final(self).wf(),
            final(self).state() == pipeline_step(old(self).state(), mapper@, video_ram@),
            old(self).stage == PipelineStage::ReadPattern ==> final(self).stage == PipelineStage::ReadTile0
                && final(self).fifo@ == old(self).fifo@ && final(self).current.pattern == fetched_pattern(
                old(self).fetcher, video_ram@) && final(self).fetcher == old(self).fetcher,
            old(self).stage == PipelineStage::ReadTile0 ==> final(self).stage == PipelineStage::ReadTile1
                && final(self).fifo@ == old(self).fifo@ && final(self).current.tile0 == fetched_tile(old(self).fetcher,
                mapper@, old(self).current.pattern, video_ram@, 0) && final(self).current.pattern
                == old(self).current.pattern && final(self).fetcher == old(self).fetcher,
            old(self).stage == PipelineStage::ReadTile1 ==> {
                let row = row_pixels(old(self).current.tile0, fetched_tile(old(self).fetcher, mapper@,
                    old(self).current.pattern, video_ram@, 1));
                &&& final(self).fifo@ == (old(self).fifo@ + row).skip(old(self).drop as int)
                &&& final(self).drop == 0
                &&& final(self).stage == (if final(self).fifo@.len() <= 8 { PipelineStage::ReadPattern } else {
                    PipelineStage::Wait })
            },
            old(self).stage == PipelineStage::Wait ==> final(self).stage == PipelineStage::ReadPattern
                && final(self).fifo@ == old(self).fifo@ && final(self).fetcher == old(self).fetcher,
            old(self).stage != PipelineStage::ReadTile1 ==> final(self).drop == old(self).drop,
    {
        match self.stage {
            PipelineStage::ReadPattern => {
                self.current.pattern = match &self.fetcher {
                    Some(f) => f.pattern(video_ram),
                    None => 0,
                };
                self.stage = PipelineStage::ReadTile0;
            },
            PipelineStage::ReadTile0 => {
                self.current.tile0 = match &self.fetcher {
                    Some(f) => f.tile(mapper, self.current.pattern, video_ram, 0),
                    None => 0,
                };
                self.stage = PipelineStage::ReadTile1;
            },
            PipelineStage::ReadTile1 => {
                self.current.tile1 = match &self.fetcher {
                    Some(f) => f.tile(mapper, self.current.pattern, video_ram, 1),
                    None => 0,
                };
                self.push_pixels();

                match &mut self.fetcher {
                    Some(f) => f.next_step(),
                    None => {},
                }

                if self.fifo.size() <= 8 {
                    self.stage = PipelineStage::ReadPattern;
                } else {
                    // Queue is full, so we wait a cycle
                    self.stage = PipelineStage::Wait;
                }
            },
            PipelineStage::Wait => {
                self.stage = PipelineStage::ReadPattern;
            },
        }
    }

    /// Takes the oldest queued pixel.
    pub fn pop(&mut self) -> (r: u8)
        requires
            old(self).wf(),
            old(self).fifo@.len() > 0,
        ensures
            final(self).wf(),
            r == old(self).fifo@[0],
            final(self).fifo@ == old(self).fifo@.drop_first(),
            final(self).stage == old(self).stage,
            final(self).drop == old(self).drop,
            final(self).current == old(self).current,
            final(self).fetcher == old(self).fetcher,
    {
        self.fifo.pop()
    }

    /// Whether pixels can be taken: the queue holds more than the eight pixels that it keeps
    /// for mixing.
    pub fn has_pixels(&self) -> (r: bool)
        requires
            self.wf(),
        ensures
            r == (self.fifo@.len() > 8),
    {
        self.fifo.size() > 8
    }
}

/// Y position of sprite `id` (its top edge plus 16).
pub open spec fn oam_y(oam: Seq<u8>, id: int) -> int {
    oam[id * 4] as int
}

/// X position of sprite `id` (its left edge plus 8).
pub open spec fn oam_x(oam: Seq<u8>, id: int) -> int {
    oam[id * 4 + 1] as int
}

/// Whether sprite `id` covers line `scanline`; tall sprites are 16 lines high, the others 8.
pub open spec fn sprite_visible(oam: Seq<u8>, tall: bool, id: int, scanline: int) -> bool {
    &&& scanline + 16 >= oam_y(oam, id)
    &&& if tall { scanline < oam_y(oam, id) } else { scanline + 8 < oam_y(oam, id) }
}

/// Whether sprite `id` covers column `h`.
pub open spec fn sprite_covers_column(oam: Seq<u8>, id: int, h: int) -> bool {
    h + 8 >= oam_x(oam, id) && h < oam_x(oam, id)
}

/// The sprites among the first `n` that the line shows: those that cover it, in the order of
/// their numbers, at most ten.
pub open spec fn visible_prefix(oam: Seq<u8>, tall: bool, scanline: int, n: nat) -> Seq<usize>
    decreases n,
{
    if n == 0 {
        Seq::empty()
    } else {
        let p = visible_prefix(oam, tall, scanline, (n - 1) as nat);
        if p.len() < 10 && sprite_visible(oam, tall, n - 1, scanline) {
            p.push((n - 1) as usize)
        } else {
            p
        }
    }
}

/// The sprites are in drawing order: by X position, and by number for the same position.
pub open spec fn x_order(oam: Seq<u8>, r: Seq<usize>) -> bool {
    forall|i: int, j: int| 0 <= i < j < r.len() ==> oam_x(oam, #[trigger] r[i] as int) < oam_x(oam, #[trigger] r[j] as int)
        || (oam_x(oam, r[i] as int) == oam_x(oam, r[j] as int) && r[i] < r[j])
}

/// The attribute bits of a sprite.
#[derive(PartialEq, Eq, Structural, Debug, Clone, Copy)]
pub struct SpriteFlags {
    pub below_bg: bool,
    pub y_flip: bool,
    pub x_flip: bool,
    pub palette: SpritePalette,
}

/// The attributes of sprite `id` from its fourth byte.
pub open spec fn flags_of(oam: Seq<u8>, id: int) -> SpriteFlags {
    let v = oam[id * 4 + 3];
    SpriteFlags {
        below_bg: bit_of(v, 7) == 1,
        y_flip: bit_of(v, 6) == 1,
        x_flip: bit_of(v, 5) == 1,
        palette: if bit_of(v, 4) == 1 { SpritePalette::C1 } else { SpritePalette::C0 },
    }
}

/// Y position of sprite `id`.
pub fn sprite_y(oam_ram: &[u8], id: usize) -> (r: usize)
    requires
        oam_ram@.len() >= OAM_SIZE,
        id < 40,
    ensures
        r == oam_y(oam_ram@, id as int),
{
    oam_ram[id * 4] as usize
}

/// X position of sprite `id`.
pub fn sprite_x(oam_ram: &[u8], id: usize) -> (r: usize)
    requires
        oam_ram@.len() >= OAM_SIZE,
        id < 40,
    ensures
        r == oam_x(oam_ram@, id as int),
{
    oam_ram[id * 4 + 1] as usize
}

/// Tile number of sprite `id`.
pub fn sprite_tile_index(oam_ram: &[u8], id: usize) -> (r: usize)
    requires
        oam_ram@.len() >= OAM_SIZE,
        id < 40,
    ensures
        r == oam_ram@[id * 4 + 2],
{
    oam_ram[id * 4 + 2] as usize
}

/// Attributes of sprite `id`.
pub fn sprite_flags(oam_ram: &[u8], id: usize) -> (r: SpriteFlags)
    requires
        oam_ram@.len() >= OAM_SIZE,
        id < 40,
    ensures
        r == flags_of(oam_ram@, id as int),
{
    proof { lemma_bit_reads(); }
    let v = oam_ram[id * 4 + 3];

    SpriteFlags {
        below_bg: v & (0b10000000) > 0,
        y_flip: v & (0b01000000) > 0,
        x_flip: v & (0b00100000) > 0,
        palette: if v & (0b00010000) > 0 { SpritePalette::C1 } else { SpritePalette::C0 },
    }
}

/// Whether sprite `id` covers line `scanline`.
pub fn is_sprite_visible(oam_ram: &[u8], mapper: &VideoMemoryMapper, id: usize, scanline: usize) -> (r: bool)
    requires
        oam_ram@.len() >= OAM_SIZE,
        id < 40,
        mapper.wf(),
        scanline <= 255,
    ensures
        r == sprite_visible(oam_ram@, bit_of(video_reg(mapper@, 0xFF40), 2) == 1, id as int, scanline as int),
{
    let y = sprite_y(oam_ram, id);
    match mapper.sprite_size() {
        SpriteSize::C8by8 => scanline + 16 >= y && scanline + 8 < y,
        SpriteSize::C8by16 => scanline + 16 >= y && scanline < y,
    }
}

/// Whether sprite `id` covers column `h`.
pub fn is_sprite_horizontally_visible(oam_ram: &[u8], id: usize, h: usize) -> (r: bool)
    requires
        oam_ram@.len() >= OAM_SIZE,
        id < 40,
        h <= 255,
    ensures
        r == sprite_covers_column(oam_ram@, id as int, h as int),
{
    let x = sprite_x(oam_ram, id);
    h + 8 >= x && h < x
}

/// The tile row byte that gives pixel (`x`, `y`) of sprite `id`, after flipping: `tile` 0 is
/// the low byte, 1 the high byte.
pub open spec fn sprite_row_offset(oam: Seq<u8>, tall: bool, id: int, y: int, tile: int) -> int {
    let flags = flags_of(oam, id);
    let fy = if !flags.y_flip { y } else if tall { 15 - y } else { 7 - y };
    let index = if tall { (oam[id * 4 + 2] & 0xFEu8) as int } else { oam[id * 4 + 2] as int };
    index * 16 + fy * 2 + tile
}

/// The shade of pixel (`x`, `y`) of sprite `id`: color 0 is transparent, the others go through
/// the sprite's palette.
pub open spec fn sprite_shade(oam: Seq<u8>, video_ram: Seq<u8>, regs: Seq<u8>, id: int, x: int, y: int) -> GrayShade {
    let tall = bit_of(video_reg(regs, 0xFF40), 2) == 1;
    let flags = flags_of(oam, id);
    let fx = if flags.x_flip { 7 - x } else { x };
    let color = pixel_of_row(video_ram[sprite_row_offset(oam, tall, id, y, 0)],
        video_ram[sprite_row_offset(oam, tall, id, y, 1)], fx);
    if color == 0 {
        GrayShade::Transparent
    } else if flags.palette == SpritePalette::C0 {
        palette_shade(video_reg(regs, 0xFF48), color)
    } else {
        palette_shade(video_reg(regs, 0xFF49), color)
    }
}

/// Column `k` (0-7) of a sprite shows tile pixel `k` of its row, taken from bit 7 - `k` of the
/// row's two bytes, when bit 5 (X-flip) of the sprite's attributes is clear, and tile pixel
/// 7 - `k`, taken from bit `k`, when it is set. Color 0 is transparent; the others go through
/// OBP0 ($FF48) or, with attribute bit 4 set, OBP1 ($FF49).
pub proof fn law_sprite_columns(oam: Seq<u8>, video_ram: Seq<u8>, regs: Seq<u8>, id: int, k: int, y: int)
    requires
        0 <= id < 40,
        oam.len() >= OAM_SIZE,
        0 <= k < 8,
    ensures
        ({
            let tall = bit_of(video_reg(regs, 0xFF40), 2) == 1;
            let attributes = oam[id * 4 + 3];
            let low = video_ram[sprite_row_offset(oam, tall, id, y, 0)];
            let high = video_ram[sprite_row_offset(oam, tall, id, y, 1)];
            let bit: u8 = if attributes & 0x20u8 == 0 { (7 - k) as u8 } else { k as u8 };
            let color: u8 = (((low >> bit) & 1u8) + 2 * ((high >> bit) & 1u8)) as u8;
            let palette = if attributes & 0x10u8 == 0 { video_reg(regs, 0xFF48) } else { video_reg(regs, 0xFF49) };
            sprite_shade(oam, video_ram, regs, id, k, y) == if color == 0 { GrayShade::Transparent } else {
                palette_shade(palette, color) }
        }),
{
    let attributes = oam[id * 4 + 3];
    assert(((attributes >> 5u8) & 1u8 == 1) == (attributes & 0x20u8 != 0)) by (bit_vector);
    assert(((attributes >> 4u8) & 1u8 == 1) == (attributes & 0x10u8 != 0)) by (bit_vector);
}

/// The shade of pixel (`x`, `y`) of sprite `id`.
pub fn sprite_value_at(oam_ram: &[u8], video_ram: &[u8], mapper: &VideoMemoryMapper, id: usize, x: usize, y: usize)
    -> (r: GrayShade)
    requires
        oam_ram@.len() >= OAM_SIZE,
        video_ram@.len() == VIDEO_RAM_SIZE,
        mapper.wf(),
        id < 40,
        x < 8,
        y < (if bit_of(video_reg(mapper@, 0xFF40), 2) == 1 { 16int } else { 8int }),
    ensures
        r == sprite_shade(oam_ram@, video_ram@, mapper@, id as int, x as int, y as int),
{
    let flags = sprite_flags(oam_ram, id);
    let size = mapper.sprite_size();

    let x = if flags.x_flip { 7 - x } else { x };

    let y = if !flags.y_flip {
        y
    } else {
        match size {
            SpriteSize::C8by8 => 7 - y,
            SpriteSize::C8by16 => 15 - y,
        }
    };

    let tile_index = match size {
        SpriteSize::C8by8 => sprite_tile_index(oam_ram, id),
        SpriteSize::C8by16 => (oam_ram[id * 4 + 2] & 0xFE) as usize,
    };

    let color = pattern_value(video_ram, tile_index * 16, x, y);

    match flags.palette {
        SpritePalette::C0 => if color == 0 { GrayShade::Transparent } else { mapper.palette(0xFF48, color) },
        SpritePalette::C1 => if color == 0 { GrayShade::Transparent } else { mapper.palette(0xFF49, color) },
    }
}

/// The sprites that line `scanline` shows, in drawing order: the first ten (by number) that
/// cover the line, ordered by X position, sprites at the same position by number.
pub fn visible_sprites(oam_ram: &[u8], mapper: &VideoMemoryMapper, scanline: usize) -> (r: Vec<usize>)
    requires
        oam_ram@.len() >= OAM_SIZE,
        mapper.wf(),
        scanline <= 255,
    ensures
        r@.to_multiset() == visible_prefix(oam_ram@, bit_of(video_reg(mapper@, 0xFF40), 2) == 1, scanline as int,
            40).to_multiset(),
        x_order(oam_ram@, r@),
        r@.len() <= 10,
        forall|k: int| 0 <= k < r@.len() ==> #[trigger] r@[k] < 40,
{
    let ghost tall = bit_of(video_reg(mapper@, 0xFF40), 2) == 1;
    let ghost oam = oam_ram@;
    let mut r: Vec<usize> = Vec::new();
    let mut i: usize = 0;
    while i < 40
        invariant
            i <= 40,
            oam == oam_ram@,
            oam.len() >= OAM_SIZE,
            mapper.wf(),
            scanline <= 255,
            tall == (bit_of(video_reg(mapper@, 0xFF40), 2) == 1),
            r@.to_multiset() == visible_prefix(oam, tall, scanline as int, i as nat).to_multiset(),
            r@.len() == visible_prefix(oam, tall, scanline as int, i as nat).len(),
            r@.len() <= 10,
            x_order(oam, r@),
            forall|k: int| 0 <= k < r@.len() ==> #[trigger] r@[k] < i,
        decreases 40 - i,
    {
        proof {
            vstd::seq_lib::to_multiset_build(visible_prefix(oam, tall, scanline as int, i as nat), i);
            vstd::seq_lib::to_multiset_len(r@);
        }
        if r.len() < 10 && is_sprite_visible(oam_ram, mapper, i, scanline) {
            let x = sprite_x(oam_ram, i);
            let mut pos: usize = 0;
            while pos < r.len() && sprite_x(oam_ram, r[pos]) <= x
                invariant
                    pos <= r@.len(),
                    r@.len() <= 10,
                    oam == oam_ram@,
                    oam.len() >= OAM_SIZE,
                    forall|k: int| 0 <= k < r@.len() ==> #[trigger] r@[k] < i,
                    i < 40,
                    x == oam_x(oam, i as int),
                    forall|k: int| 0 <= k < pos ==> oam_x(oam, #[trigger] r@[k] as int) <= x,
                decreases r@.len() - pos,
            {
                pos = pos + 1;
            }
            let ghost before = r@;
            r.insert(pos, i);
            proof {
                vstd::seq_lib::to_multiset_insert(before, pos as int, i);
                assert forall|a: int, b: int| 0 <= a < b < r@.len() implies oam_x(oam, #[trigger] r@[a] as int)
                    < oam_x(oam, #[trigger] r@[b] as int) || (oam_x(oam, r@[a] as int) == oam_x(oam, r@[b] as int)
                    && r@[a] < r@[b]) by {
                    if b < pos {
                    } else if b == pos {
                    } else if a < pos {
                        assert(r@[b] == before[b - 1]);
                        if pos < before.len() {
                            assert(oam_x(oam, before[pos as int] as int) > x);
                        }
                    } else if a == pos {
                        assert(r@[b] == before[b - 1]);
                        assert(oam_x(oam, before[pos as int] as int) > x);
                        if b - 1 > pos {
                            assert(oam_x(oam, before[pos as int] as int) <= oam_x(oam, before[b - 1] as int));
                        }
                    } else {
                        assert(r@[a] == before[a - 1]);
                        assert(r@[b] == before[b - 1]);
                    }
                }
            }
        }
        i = i + 1;
    }
    r
}

/// The first sprite of `list` that shows an opaque pixel at column `x` of line `scanline`.
pub open spec fn first_opaque(oam: Seq<u8>, video_ram: Seq<u8>, regs: Seq<u8>, list: Seq<usize>, x: int, scanline: int)
    -> Option<usize>
    decreases list.len(),
{
    if list.len() == 0 {
        None
    } else {
        let id = list[0];
        let tall = bit_of(video_reg(regs, 0xFF40), 2) == 1;
        if sprite_covers_column(oam, id as int, x) && sprite_visible(oam, tall, id as int, scanline) && sprite_shade(
            oam, video_ram, regs, id as int, x + 8 - oam_x(oam, id as int), scanline + 16 - oam_y(oam, id as int))
            != GrayShade::Transparent {
            Some(id)
        } else {
            first_opaque(oam, video_ram, regs, list.drop_first(), x, scanline)
        }
    }
}

/// The pixel at column `x` of line `scanline` once the sprites are drawn over `old`: the
/// first opaque sprite in drawing order wins, unless it is below the background and the
/// background color there is not 0.
pub open spec fn sprite_pixel(oam: Seq<u8>, video_ram: Seq<u8>, regs: Seq<u8>, list: Seq<usize>, background: Seq<u8>,
    x: int, scanline: int, old: GrayShade) -> GrayShade {
    match first_opaque(oam, video_ram, regs, list, x, scanline) {
        Some(id) => if !flags_of(oam, id as int).below_bg || background[x] == 0 {
            sprite_shade(oam, video_ram, regs, id as int, x + 8 - oam_x(oam, id as int), scanline + 16 - oam_y(oam,
                id as int))
        } else {
            old
        },
        None => old,
    }
}

/// Draws the sprites of line `scanline` over the screen.
pub fn print_sprites(screen_buffer: &mut Vec<GrayShade>, background: &Vec<u8>, oam_ram: &[u8], video_ram: &[u8],
    mapper: &VideoMemoryMapper, scanline: usize, visible_sprites: &Vec<usize>)
    requires
        old(screen_buffer)@.len() == SCREEN_X * SCREEN_Y,
        background@.len() == SCREEN_X,
        oam_ram@.len() >= OAM_SIZE,
        video_ram@.len() == VIDEO_RAM_SIZE,
        mapper.wf(),
        scanline <= 255,
        forall|k: int| 0 <= k < visible_sprites@.len() ==> #[trigger] visible_sprites@[k] < 40,
    ensures
        final(screen_buffer)@.len() == SCREEN_X * SCREEN_Y,
        scanline >= SCREEN_Y ==> final(screen_buffer)@ == old(screen_buffer)@,
        scanline < SCREEN_Y ==> forall|x: int| 0 <= x < SCREEN_X ==> #[trigger] final(screen_buffer)@[scanline * SCREEN_X + x]
            == sprite_pixel(oam_ram@, video_ram@, mapper@, visible_sprites@, background@, x, scanline as int,
            old(screen_buffer)@[scanline * SCREEN_X + x]),
        forall|i: int| 0 <= i < SCREEN_X * SCREEN_Y && !(scanline * SCREEN_X <= i < scanline * SCREEN_X + SCREEN_X)
            ==> #[trigger] final(screen_buffer)@[i] == old(screen_buffer)@[i],
{
    if scanline >= SCREEN_Y {
        return;
    }
    let ghost tall = bit_of(video_reg(mapper@, 0xFF40), 2) == 1;
    let ghost before = screen_buffer@;
    let mut x: usize = 0;
    while x < SCREEN_X
        invariant
            x <= SCREEN_X,
            scanline < SCREEN_Y,
            screen_buffer@.len() == SCREEN_X * SCREEN_Y,
            before.len() == SCREEN_X * SCREEN_Y,
            background@.len() == SCREEN_X,
            oam_ram@.len() >= OAM_SIZE,
            video_ram@.len() == VIDEO_RAM_SIZE,
            mapper.wf(),
            tall == (bit_of(video_reg(mapper@, 0xFF40), 2) == 1),
            forall|k: int| 0 <= k < visible_sprites@.len() ==> #[trigger] visible_sprites@[k] < 40,
            forall|c: int| 0 <= c < x ==> #[trigger] screen_buffer@[scanline * SCREEN_X + c] == sprite_pixel(oam_ram@,
                video_ram@, mapper@, visible_sprites@, background@, c, scanline as int, before[scanline * SCREEN_X + c]),
            forall|i: int| 0 <= i < SCREEN_X * SCREEN_Y && !(scanline * SCREEN_X <= i < scanline * SCREEN_X + x)
                ==> #[trigger] screen_buffer@[i] == before[i],
        decreases SCREEN_X - x,
    {
        let mut i: usize = 0;
        let mut found: Option<usize> = None;
        let mut found_color = GrayShade::Transparent;
        assert(visible_sprites@.skip(0) =~= visible_sprites@);
        while i < visible_sprites.len()
            invariant_except_break
                found is None,
            invariant
                i <= visible_sprites@.len(),
                x < SCREEN_X,
                scanline < SCREEN_Y,
                oam_ram@.len() >= OAM_SIZE,
                video_ram@.len() == VIDEO_RAM_SIZE,
                mapper.wf(),
                tall == (bit_of(video_reg(mapper@, 0xFF40), 2) == 1),
                forall|k: int| 0 <= k < visible_sprites@.len() ==> #[trigger] visible_sprites@[k] < 40,
                first_opaque(oam_ram@, video_ram@, mapper@, visible_sprites@, x as int, scanline as int)
                    == first_opaque(oam_ram@, video_ram@, mapper@, visible_sprites@.skip(i as int), x as int, scanline as int),
            ensures
                found is None ==> first_opaque(oam_ram@, video_ram@, mapper@, visible_sprites@, x as int, scanline as int)
                    is None,
                found matches Some(id) ==> found == first_opaque(oam_ram@, video_ram@, mapper@, visible_sprites@, x as int,
                    scanline as int) && id < 40 && found_color == sprite_shade(oam_ram@, video_ram@, mapper@, id as int,
                    x + 8 - oam_x(oam_ram@, id as int), scanline + 16 - oam_y(oam_ram@, id as int)),
            decreases visible_sprites@.len() - i,
        {
            let id = visible_sprites[i];
            assert(visible_sprites@.skip(i as int)[0] == id);
            assert(visible_sprites@.skip(i as int).drop_first() =~= visible_sprites@.skip(i as int + 1));
            if is_sprite_horizontally_visible(oam_ram, id, x) && is_sprite_visible(oam_ram, mapper, id, scanline) {
                let color = sprite_value_at(oam_ram, video_ram, mapper, id, x + 8 - sprite_x(oam_ram, id),
                    scanline + 16 - sprite_y(oam_ram, id));
                if color != GrayShade::Transparent {
                    found = Some(id);
                    found_color = color;
                    break;
                }
            }
            i = i + 1;
            proof {
                if i == visible_sprites@.len() {
                    assert(visible_sprites@.skip(i as int) =~= Seq::<usize>::empty());
                }
            }
        }
        match found {
            Some(id) => {
                let flags = sprite_flags(oam_ram, id);
                if !flags.below_bg || background[x] == 0 {
                    screen_buffer.set(scanline * SCREEN_X + x, found_color);
                }
            },
            None => {},
        }
        x = x + 1;
    }
}

/// The first of two interrupt requests, or the second when there is no first.
pub open spec fn either(a: Option<Interrupt>, b: Option<Interrupt>) -> Option<Interrupt> {
    if a is Some { a } else { b }
}

fn or_else(a: Option<Interrupt>, b: Option<Interrupt>) -> (r: Option<Interrupt>)
    ensures
        r == either(a, b),
{
    match a {
        Some(i) => Some(i),
        None => b,
    }
}

/// The STAT interrupt when its enable bit is set.
pub open spec fn stat_if(enabled: bool) -> Option<Interrupt> {
    if enabled { Some(Interrupt::Stat) } else { None }
}

/// The interrupt that entering `mode` raises: STAT when the mode's enable bit of STAT is set
/// (bit 3 for HBlank, 4 for VBlank, 5 for OAM search; the transfer raises none).
pub open spec fn mode_interrupt(regs: Seq<u8>, mode: LCDMode) -> Option<Interrupt> {
    let stat = video_reg(regs, 0xFF41);
    match mode {
        LCDMode::SearchingOAM => stat_if(bit_of(stat, 5) == 1),
        LCDMode::HBlank => stat_if(bit_of(stat, 3) == 1),
        LCDMode::VBlank => stat_if(bit_of(stat, 4) == 1),
        LCDMode::LCDTransfer => None,
    }
}

/// The interrupt of the LY=LYC comparison: STAT when LY equals LYC and bit 6 of STAT is set.
pub open spec fn coincidence_interrupt(regs: Seq<u8>) -> Option<Interrupt> {
    stat_if(video_reg(regs, 0xFF44) == video_reg(regs, 0xFF45) && bit_of(video_reg(regs, 0xFF41), 6) == 1)
}

/// The registers after the start of a line: LY takes the line number and the coincidence bit of
/// STAT is cleared.
pub open spec fn after_line_start(regs: Seq<u8>, cycles: int) -> Seq<u8> {
    regs.update(4, (cycles / 456) as u8).update(1, crate::bitfield::with_bit(regs[1], 2, false))
}

/// The registers after the LY=LYC comparison: the coincidence bit of STAT is set when they are
/// equal.
pub open spec fn after_coincidence(regs: Seq<u8>) -> Seq<u8> {
    if video_reg(regs, 0xFF44) == video_reg(regs, 0xFF45) {
        regs.update(1, crate::bitfield::with_bit(regs[1], 2, true))
    } else {
        regs
    }
}

/// The registers once the mode bits of STAT hold `mode`.
pub open spec fn with_mode(regs: Seq<u8>, mode: LCDMode) -> Seq<u8> {
    regs.update(1, (crate::bitfield::outside_field(regs[1], 0, 0b11) + mode.spec_value()) as u8)
}

/// Setting or clearing bit 2 keeps bits 0-1.
proof fn lemma_bit2_keeps_mode(x: u8)
    by (bit_vector)
    ensures
        ((x | (1u8 << 2u8)) >> 0u8) & 0b11u8 == (x >> 0u8) & 0b11u8,
        ((x & !(1u8 << 2u8)) >> 0u8) & 0b11u8 == (x >> 0u8) & 0b11u8,
{
}

/// The picture processing unit.
pub struct Ppu {
    /// Clock cycles into the frame.
    pub cycles: usize,
    pub video_ram: Vec<u8>,
    /// The screen, line after line, 160 pixels to a line.
    pub screen_buffer: Vec<GrayShade>,
    pub should_refresh: bool,
    pub mapper: VideoMemoryMapper,
    pub mode: LCDMode,
    /// The sprites of the current line, in drawing order.
    pub visible_sprites: Vec<usize>,
    /// The background color numbers of the current line.
    pub background: Vec<u8>,
    pub pixel_fifo: PixelPipeline,
    /// The next column to draw.
    pub x: usize,
}

impl Ppu {
    pub open spec fn draw_state(&self) -> DrawState {
        DrawState {
            x: self.x,
            background: self.background@,
            screen: self.screen_buffer@,
            pipe: self.pixel_fifo.state(),
        }
    }

    /// LY ($FF44), the current line.
    pub open spec fn ly(&self) -> u8 {
        video_reg(self.mapper@, 0xFF44)
    }

    /// Bit 7 of LCDC.
    pub open spec fn lcd_enabled(&self) -> bool {
        bit_of(video_reg(self.mapper@, 0xFF40), 7) == 1
    }

    pub open spec fn wf(&self) -> bool {
        &&& self.core_wf()
        &&& self.pixel_fifo.room()
    }

    /// Everything of `wf` but the bound on the pixel queue.
    pub open spec fn core_wf(&self) -> bool {
        &&& self.video_ram@.len() == VIDEO_RAM_SIZE
        &&& self.screen_buffer@.len() == SCREEN_X * SCREEN_Y
        &&& self.background@.len() == SCREEN_X
        &&& self.visible_sprites@.len() <= 10
        &&& forall|k: int| 0 <= k < self.visible_sprites@.len() ==> #[trigger] self.visible_sprites@[k] < 40
        &&& self.mapper.wf()
        &&& self.pixel_fifo.wf()
        &&& self.cycles < SCREEN_CYCLES
        &&& self.cycles % 4 == 0
        &&& self.x <= 167
        &&& field_of(video_reg(self.mapper@, 0xFF41), 0, 0b11) == self.mode.spec_value()
    }

    /// What the line checks of `check_interrupts` need: outside VBlank, LY is a visible line or
    /// 144, and a line transfer has not run past the end of the line.
    pub open spec fn scan_ready(&self) -> bool {
        self.lcd_enabled() ==> {
            &&& self.mode != LCDMode::VBlank ==> self.ly() <= 144
            &&& self.cycles % SCANLINE_CYCLES >= 88 && (self.mode == LCDMode::LCDTransfer || self.mode
                == LCDMode::SearchingOAM) ==> self.x <= 163
        }
    }

    /// Whether `scan_ready` holds.
    pub fn is_scan_ready(&self) -> (r: bool)
        requires
            self.wf(),
        ensures
            r == self.scan_ready(),
    {
        if self.mapper.lcd_on() == 0 {
            return true;
        }
        let ly = self.mapper.reg(0xFF44);
        let pos = self.cycles % SCANLINE_CYCLES;
        let transferring = match self.mode {
            LCDMode::LCDTransfer | LCDMode::SearchingOAM => true,
            _ => false,
        };
        let in_vblank = match self.mode {
            LCDMode::VBlank => true,
            _ => false,
        };
        (in_vblank || ly <= 144)
            && (!(pos >= 88 && transferring) || self.x <= 163)
    }

    pub fn new() -> (r: Ppu)
        ensures
            r.wf(),
            r.cycles == 0,
            r.mode == LCDMode::HBlank,
            !r.should_refresh,
            r.x == 0,
            forall|a: u16| 0xFF40 <= a <= 0xFF4B ==> video_reg(r.mapper@, a) == (if a == 0xFF40 { 0x91u8 }
                else if a == 0xFF47 { 0xFCu8 } else if a == 0xFF48 || a == 0xFF49 { 0xFFu8 } else { 0u8 }),
            forall|i: int| 0 <= i < VIDEO_RAM_SIZE ==> r.video_ram@[i] == 0,
            forall|i: int| 0 <= i < SCREEN_X * SCREEN_Y ==> r.screen_buffer@[i] == GrayShade::C00,
    {
        let r = Ppu {
            cycles: 0,
            video_ram: vec![0u8; VIDEO_RAM_SIZE],
            screen_buffer: vec![GrayShade::C00; SCREEN_X * SCREEN_Y],
            should_refresh: false,
            mapper: VideoMemoryMapper::new(),
            mode: LCDMode::HBlank,
            visible_sprites: Vec::new(),
            background: vec![0u8; SCREEN_X],
            pixel_fifo: PixelPipeline::new(),
            x: 0,
        };
        proof {
            lemma_field_bound();
            assert(field_of(0u8, 0, 0b11) == 0) by (bit_vector);
        }
        r
    }

    /// Sets the mode and the mode bits of STAT.
    fn set_mode(&mut self, mode: LCDMode)
        requires
            old(self).mapper.wf(),
        ensures
            final(self).mode == mode,
            final(self).mapper.wf(),
            final(self).mapper@ == with_mode(old(self).mapper@, mode),
            field_of(video_reg(final(self).mapper@, 0xFF41), 0, 0b11) == mode.spec_value(),
            forall|k: u8| 2 <= k < 8 ==> #[trigger] bit_of(video_reg(final(self).mapper@, 0xFF41), k) == bit_of(
                video_reg(old(self).mapper@, 0xFF41), k),
            forall|a: u16| 0xFF40 <= a <= 0xFF4B && a != 0xFF41 ==> #[trigger] video_reg(final(self).mapper@, a)
                == video_reg(old(self).mapper@, a),
            final(self).cycles == old(self).cycles,
            final(self).video_ram == old(self).video_ram,
            final(self).screen_buffer == old(self).screen_buffer,
            final(self).should_refresh == old(self).should_refresh,
            final(self).visible_sprites == old(self).visible_sprites,
            final(self).background == old(self).background,
            final(self).pixel_fifo == old(self).pixel_fifo,
            final(self).x == old(self).x,
    {
        self.mode = mode;
        self.mapper.set_mode(mode);
    }

    /// A write to STAT: only the interrupt enable bits (3-6) are writable.
    fn write_stat(&mut self, v: u8)
        requires
            old(self).mapper.wf(),
        ensures
            final(self).mapper.wf(),
            forall|k: u8| k < 3 || k == 7 ==> #[trigger] bit_of(video_reg(final(self).mapper@, 0xFF41), k) == bit_of(
                video_reg(old(self).mapper@, 0xFF41), k),
            forall|k: u8| 3 <= k < 7 ==> #[trigger] bit_of(video_reg(final(self).mapper@, 0xFF41), k) == bit_of(v, k),
            forall|a: u16| 0xFF40 <= a <= 0xFF4B && a != 0xFF41 ==> #[trigger] video_reg(final(self).mapper@, a)
                == video_reg(old(self).mapper@, a),
            field_of(video_reg(final(self).mapper@, 0xFF41), 0, 0b11) == field_of(video_reg(old(self).mapper@, 0xFF41), 0, 0b11),
            *final(self) == (Ppu { mapper: final(self).mapper, ..*old(self) }),
    {
        // Only bits 3456 are writable
        let x = self.mapper.reg(0xFF41);
        let f = (v >> 3) & 0b1111;
        proof {
            lemma_field_bound();
            crate::bitfield::law_field_write(x, 3, 0b1111, f);
            crate::bitfield::lemma_field_masks();
        }
        let mut stat = crate::bitfield::Bitfield::new(x);
        stat.set_3456(f);
        let n = stat.get();
        self.mapper.write(0xFF41, n);
        proof {
            assert(forall|k: u8| k < 3 || k == 7 ==> #[trigger] (((((x & !(0b1111u8 << 3u8)) + (f << 3u8)) as u8) >> k) & 1) == (x >> k) & 1)
                by (bit_vector) requires f <= 15;
            assert(forall|k: u8| 3 <= k < 7 ==> #[trigger] (((((x & !(0b1111u8 << 3u8)) + (f << 3u8)) as u8) >> k) & 1) == (v >> k) & 1)
                by (bit_vector) requires f == (v >> 3u8) & 0b1111u8;
            assert(((((x & !(0b1111u8 << 3u8)) + (f << 3u8)) as u8) >> 0u8) & 0b11u8 == (x >> 0u8) & 0b11u8)
                by (bit_vector) requires f <= 15;
        }
    }
}

impl Ppu {
    /// Switches to `mode`; tells the STAT interrupt when the mode's enable bit is set.
    fn switch_to(&mut self, mode: LCDMode) -> (r: Option<Interrupt>)
        requires
            old(self).mapper.wf(),
        ensures
            r == mode_interrupt(old(self).mapper@, mode),
            final(self).mode == mode,
            final(self).mapper.wf(),
            field_of(video_reg(final(self).mapper@, 0xFF41), 0, 0b11) == mode.spec_value(),
            final(self).mapper@ == with_mode(old(self).mapper@, mode),
            final(self).cycles == old(self).cycles,
            final(self).video_ram == old(self).video_ram,
            final(self).screen_buffer == old(self).screen_buffer,
            final(self).should_refresh == old(self).should_refresh,
            final(self).visible_sprites == old(self).visible_sprites,
            final(self).background == old(self).background,
            final(self).pixel_fifo == old(self).pixel_fifo,
            final(self).x == old(self).x,
    {
        let enabled = match mode {
            LCDMode::SearchingOAM => self.mapper.oam_interrupt() == 1,
            LCDMode::HBlank => self.mapper.h_blank_interrupt() == 1,
            LCDMode::VBlank => self.mapper.v_blank_interrupt() == 1,
            LCDMode::LCDTransfer => false,
        };

        self.mode = mode;
        self.mapper.set_mode(mode);

        if enabled {
            Some(Interrupt::Stat)
        } else {
            None
        }
    }

    /// The current line (LY).
    fn scanline(&self) -> (r: u8)
        requires
            self.mapper.wf(),
        ensures
            r == self.ly(),
    {
        self.mapper.reg(0xFF44)
    }

    /// The start of a line: LY takes the line number and the coincidence bit is cleared.
    fn update_scanline(&mut self)
        requires
            old(self).wf(),
        ensures
            final(self).wf(),
            final(self).mapper@ == after_line_start(old(self).mapper@, old(self).cycles as int),
            final(self).mode == old(self).mode,
            final(self).cycles == old(self).cycles,
            final(self).video_ram == old(self).video_ram,
            final(self).screen_buffer == old(self).screen_buffer,
            final(self).should_refresh == old(self).should_refresh,
            final(self).visible_sprites == old(self).visible_sprites,
            final(self).background == old(self).background,
            final(self).pixel_fifo == old(self).pixel_fifo,
            final(self).x == old(self).x,
    {
        // Beginning of the scanline, we need to update LY
        self.mapper.write(0xFF44, (self.cycles / SCANLINE_CYCLES) as u8);

        // In this cycle, ly_coincidence is 0 no matter what
        self.mapper.set_ly_coincidence(0);
        proof { lemma_bit2_keeps_mode(video_reg(old(self).mapper@, 0xFF41)); crate::bitfield::lemma_bit_masks(); }
    }

    /// The LY=LYC comparison: sets the coincidence bit when they are equal, and tells the STAT
    /// interrupt when its bit 6 enable is set too.
    fn update_ly_lyc_coincidence(&mut self) -> (r: Option<Interrupt>)
        requires
            old(self).wf(),
        ensures
            final(self).wf(),
            r == coincidence_interrupt(old(self).mapper@),
            final(self).mapper@ == after_coincidence(old(self).mapper@),
            final(self).mode == old(self).mode,
            final(self).cycles == old(self).cycles,
            final(self).video_ram == old(self).video_ram,
            final(self).screen_buffer == old(self).screen_buffer,
            final(self).should_refresh == old(self).should_refresh,
            final(self).visible_sprites == old(self).visible_sprites,
            final(self).background == old(self).background,
            final(self).pixel_fifo == old(self).pixel_fifo,
            final(self).x == old(self).x,
    {
        if self.scanline() == self.mapper.reg(0xFF45) {
            self.mapper.set_ly_coincidence(1);
            proof { lemma_bit2_keeps_mode(video_reg(old(self).mapper@, 0xFF41)); crate::bitfield::lemma_bit_masks(); }
            if self.mapper.lyc_ly_coincidence_interrupt() == 1 {
                proof {
                    crate::bitfield::law_bit_write(video_reg(old(self).mapper@, 0xFF41), 2, true, 6);
                }
                return Some(Interrupt::Stat);
            }
            proof {
                crate::bitfield::law_bit_write(video_reg(old(self).mapper@, 0xFF41), 2, true, 6);
            }
        }

        None
    }

    /// The shade of background color number `raw` through BGP.
    fn background_color_from_raw(&self, raw: u8) -> (r: GrayShade)
        requires
            self.mapper.wf(),
            raw <= 3,
        ensures
            r == palette_shade(video_reg(self.mapper@, 0xFF47), raw),
    {
        self.mapper.palette(0xFF47, raw)
    }

    /// The screen, line after line, 160 pixels to a line.
    pub fn get_screen(&self) -> (r: &[GrayShade])
        ensures
            r@ == self.screen_buffer@,
    {
        self.screen_buffer.as_slice()
    }

    /// Whether a new frame is ready since the last call; clears the flag.
    pub fn should_refresh(&mut self) -> (r: bool)
        ensures
            r == old(self).should_refresh,
            !final(self).should_refresh,
            *final(self) == (Ppu { should_refresh: false, ..*old(self) }),
    {
        let result = self.should_refresh;
        self.should_refresh = false;
        result
    }

    /// The offset of the tile map line that shows line `scanline + scroll` of a map.
    fn scanline_offset(scanline: u8, scroll: u8) -> (r: usize)
        ensures
            r == ((scanline + scroll) / 8 % 32) * 32,
            r <= 31 * 32,
    {
        let offset = ((scanline as usize + scroll as usize) / 8) % (BACKGROUND_Y / 8);
        offset * 32
    }

    /// The offset in video RAM of the line of the window's tile map that the current line
    /// shows.
    fn window_offset(&self) -> (r: usize)
        requires
            self.mapper.wf(),
            self.ly() >= video_reg(self.mapper@, 0xFF4A),
        ensures
            r == (if bit_of(video_reg(self.mapper@, 0xFF40), 6) == 0 { 0x1800int } else { 0x1C00int })
                + ((self.ly() - video_reg(self.mapper@, 0xFF4A)) / 8 % 32) * 32,
            r + 31 < VIDEO_RAM_SIZE,
    {
        let offset: usize = if self.mapper.window_tile_map() == TileMap::C9800 { 0x1800 } else { 0x1C00 };
        offset + Self::scanline_offset(self.scanline() - self.mapper.reg(0xFF4A), 0)
    }

    /// The offset in video RAM of the line of the background's tile map that the current line
    /// shows.
    fn background_offset(&self) -> (r: usize)
        requires
            self.mapper.wf(),
        ensures
            r == (if bit_of(video_reg(self.mapper@, 0xFF40), 3) == 0 { 0x1800int } else { 0x1C00int })
                + ((self.ly() + video_reg(self.mapper@, 0xFF42)) / 8 % 32) * 32,
            r + 31 < VIDEO_RAM_SIZE,
    {
        let offset: usize = if self.mapper.bg_tile_map() == TileMap::C9800 { 0x1800 } else { 0x1C00 };
        offset + Self::scanline_offset(self.scanline(), self.mapper.reg(0xFF42))
    }

    /// Draws pixel (`x`, `y`) when it lies on the screen.
    fn write_raw_pixel(&mut self, x: usize, y: usize, color: GrayShade)
        requires
            old(self).screen_buffer@.len() == SCREEN_X * SCREEN_Y,
        ensures
            final(self).screen_buffer@ == (if x < SCREEN_X && y < SCREEN_Y { old(self).screen_buffer@.update(
                y * SCREEN_X + x, color) } else { old(self).screen_buffer@ }),
            *final(self) == (Ppu { screen_buffer: final(self).screen_buffer, ..*old(self) }),
    {
        if x >= SCREEN_X || y >= SCREEN_Y {
            return;
        }

        self.screen_buffer.set(y * SCREEN_X + x, color);
    }

    /// Reads video RAM ($8000-$9FFF); while a line is being drawn it reads $FF.
    pub fn read_ram(&self, address: u16) -> (r: u8)
        requires
            self.wf(),
            0x8000 <= address <= 0x9FFF,
        ensures
            r == (if self.mode == LCDMode::LCDTransfer { 0xFFu8 } else { self.video_ram@[address - 0x8000] }),
    {
        if self.mode == LCDMode::LCDTransfer {
            0xFF
        } else {
            self.video_ram[(address - 0x8000) as usize]
        }
    }

    /// Writes video RAM ($8000-$9FFF), in any mode.
    pub fn write_ram(&mut self, address: u16, v: u8)
        requires
            old(self).wf(),
            0x8000 <= address <= 0x9FFF,
        ensures
            final(self).wf(),
            final(self).video_ram@ == old(self).video_ram@.update(address - 0x8000, v),
            *final(self) == (Ppu { video_ram: final(self).video_ram, ..*old(self) }),
    {
        // The hardware refuses video RAM writes while a line is drawn; they are taken here in
        // every mode, since the drawing timing is not exact enough to refuse them safely.
        self.video_ram.set((address - 0x8000) as usize, v);
    }

    /// One step of the CPU: four clock cycles more into the frame while the display is on.
    pub fn cpu_step(&mut self)
        requires
            old(self).wf(),
        ensures
            final(self).wf(),
            final(self).cycles == (if old(self).lcd_enabled() { (old(self).cycles + 4) % SCREEN_CYCLES as int } else {
                old(self).cycles as int }),
            *final(self) == (Ppu { cycles: final(self).cycles, ..*old(self) }),
    {
        if self.mapper.lcd_on() == 0 {
            return;
        }

        self.cycles = (self.cycles + crate::timer::CYCLES_PER_STEP) % SCREEN_CYCLES;
    }
}

/// Whether column `x` of the current line starts the window: the window and the background are
/// on, WX equals `x + 7` and the line is at or below WY.
pub open spec fn window_starts(regs: Seq<u8>, x: int) -> bool {
    &&& bit_of(video_reg(regs, 0xFF40), 5) == 1
    &&& bit_of(video_reg(regs, 0xFF40), 0) == 1
    &&& x + 7 == video_reg(regs, 0xFF4B)
    &&& video_reg(regs, 0xFF44) >= video_reg(regs, 0xFF4A)
}

/// The offset in video RAM of the window's tile map line for the current line.
pub open spec fn window_map_offset(regs: Seq<u8>) -> int {
    (if bit_of(video_reg(regs, 0xFF40), 6) == 0 { 0x1800int } else { 0x1C00int }) + ((video_reg(regs, 0xFF44)
        - video_reg(regs, 0xFF4A)) / 8 % 32) * 32
}

/// The pipeline started over on the window's tile map, from its first tile, at the window's
/// line LY - WY.
pub open spec fn window_restart(p: PipelineState, regs: Seq<u8>) -> PipelineState {
    PipelineState {
        fifo: Seq::empty(),
        stage: PipelineStage::ReadPattern,
        drop: 0,
        current: p.current,
        fetcher: Some(
            BackgroundFetcher {
                address: window_map_offset(regs) as usize,
                step: 0,
                y: (video_reg(regs, 0xFF44) - video_reg(regs, 0xFF4A)) as usize,
            },
        ),
    }
}

/// The pipeline started on the background's tile map line (LY + SCY) at tile SCX / 8,
/// dropping the SCX % 8 pixels of the fine scroll, after its first two steps.
pub open spec fn background_start(p: PipelineState, regs: Seq<u8>, vram: Seq<u8>) -> PipelineState {
    let scx = video_reg(regs, 0xFF43);
    let ly = video_reg(regs, 0xFF44);
    let scy = video_reg(regs, 0xFF42);
    let fetcher = BackgroundFetcher {
        address: ((if bit_of(video_reg(regs, 0xFF40), 3) == 0 { 0x1800int } else { 0x1C00int }) + ((ly + scy) / 8
            % 32) * 32) as usize,
        step: (scx / 8) as usize,
        y: ((ly + scy) % 256) as usize,
    };
    let reset = PipelineState {
        fifo: Seq::empty(),
        stage: PipelineStage::ReadPattern,
        drop: (scx % 8) as usize,
        current: p.current,
        fetcher: Some(fetcher),
    };
    pipeline_step(pipeline_step(reset, regs, vram), regs, vram)
}

/// The pipeline as a line's transfer starts with the LCD registers `regs`: with the background
/// on, `background_start`; then, when the window starts at column 0, it starts over on the
/// window's tile map.
#[verifier::opaque]
pub open spec fn transfer_start(p: PipelineState, regs: Seq<u8>, vram: Seq<u8>) -> PipelineState {
    let p0 = if bit_of(video_reg(regs, 0xFF40), 0) == 1 {
        background_start(p, regs, vram)
    } else {
        p
    };
    if window_starts(regs, 0) {
        window_restart(p0, regs)
    } else {
        p0
    }
}

/// What the drawing of a line works on: the next column, the background color numbers of the
/// line, the screen and the pixel pipeline.
pub struct DrawState {
    pub x: usize,
    pub background: Seq<u8>,
    pub screen: Seq<GrayShade>,
    pub pipe: PipelineState,
}

/// The oldest queued pixel taken and drawn at column `x` of line LY: its color number is kept
/// for the sprites, and it is drawn through the palette BGP.
pub open spec fn take_pixel(d: DrawState, regs: Seq<u8>) -> DrawState {
    let raw = d.pipe.fifo[0];
    let ly = video_reg(regs, 0xFF44) as int;
    DrawState {
        x: (d.x + 1) as usize,
        background: if d.x < SCREEN_X { d.background.update(d.x as int, raw) } else { d.background },
        screen: if d.x < SCREEN_X && ly < SCREEN_Y { d.screen.update(ly * SCREEN_X + d.x, palette_shade(
            video_reg(regs, 0xFF47), raw)) } else { d.screen },
        pipe: PipelineState { fifo: d.pipe.fifo.drop_first(), ..d.pipe },
    }
}

/// A pixel taken, then the window checked at the next column: the state, and whether the
/// window started.
pub open spec fn take_and_check(d: DrawState, regs: Seq<u8>) -> (DrawState, bool) {
    let d1 = take_pixel(d, regs);
    if window_starts(regs, d1.x as int) {
        (DrawState { pipe: window_restart(d1.pipe, regs), ..d1 }, true)
    } else {
        (d1, false)
    }
}

/// Two columns of the line: with the background off, the column moves on by two; otherwise the
/// pipeline makes one step and, when it holds more than eight pixels, two are taken, unless the
/// window starts after the first.
#[verifier::opaque]
pub open spec fn fetch_step(d: DrawState, regs: Seq<u8>, vram: Seq<u8>) -> DrawState {
    if bit_of(video_reg(regs, 0xFF40), 0) != 1 {
        DrawState { x: (d.x + 2) as usize, ..d }
    } else {
        let d0 = DrawState { pipe: pipeline_step(d.pipe, regs, vram), ..d };
        if d0.pipe.fifo.len() <= 8 {
            d0
        } else if take_and_check(d0, regs).1 {
            take_and_check(d0, regs).0
        } else {
            take_and_check(take_and_check(d0, regs).0, regs).0
        }
    }
}

impl Ppu {
    /// Checks if the current x is the start of the window section; if so the pipeline starts
    /// over from the window's tile map.
    fn check_window_x(&mut self) -> (r: bool)
        requires
            old(self).core_wf(),
        ensures
            final(self).core_wf(),
            r ==> final(self).pixel_fifo.room(),
            r == window_starts(old(self).mapper@, old(self).x as int),
            r ==> final(self).pixel_fifo.fifo@ == Seq::<u8>::empty() && final(self).pixel_fifo.drop == 0
                && (final(self).pixel_fifo.fetcher matches Some(f) && f.step == 0 && f.y == old(self).ly() - video_reg(
                old(self).mapper@, 0xFF4A)),
            !r ==> final(self).pixel_fifo == old(self).pixel_fifo,
            r ==> final(self).pixel_fifo.state() == window_restart(old(self).pixel_fifo.state(), old(self).mapper@),
            *final(self) == (Ppu { pixel_fifo: final(self).pixel_fifo, ..*old(self) }),
    {
        if self.mapper.window_on() == 1 && self.mapper.bg_window_on() == 1 && self.x + 7 == self.mapper.reg(0xFF4B) as usize
            && self.scanline() >= self.mapper.reg(0xFF4A) {
            let y = self.scanline() as usize - self.mapper.reg(0xFF4A) as usize;
            let offset = self.window_offset();
            self.pixel_fifo.reset(0, BackgroundFetcher::new(offset, 0, y));
            return true;
        }

        false
    }

    /// Takes the oldest queued pixel, keeps its color number, draws it at the current column
    /// through BGP, moves to the next column and checks there for the start of the window.
    fn take_pixel(&mut self) -> (r: bool)
        requires
            old(self).core_wf(),
            old(self).pixel_fifo.fifo@.len() > 0,
            old(self).x < 167,
        ensures
            final(self).core_wf(),
            r == take_and_check(old(self).draw_state(), old(self).mapper@).1,
            final(self).draw_state() == take_and_check(old(self).draw_state(), old(self).mapper@).0,
            r ==> final(self).pixel_fifo.room(),
            *final(self) == (Ppu { x: final(self).x, background: final(self).background, screen_buffer:
                final(self).screen_buffer, pixel_fifo: final(self).pixel_fifo, ..*old(self) }),
    {
        let raw = self.pixel_fifo.pop();
        if self.x < SCREEN_X {
            self.background.set(self.x, raw);
        }
        let color = self.background_color_from_raw(raw);
        let ly = self.scanline() as usize;
        self.write_raw_pixel(self.x, ly, color);
        self.x = self.x + 1;
        let ghost taken = self.draw_state();
        assert(taken == take_pixel(old(self).draw_state(), old(self).mapper@));
        self.check_window_x()
    }

    /// Two pixels of the current line: with the background off, the column moves on by two;
    /// otherwise the pipeline makes one step and, when it has pixels to give, two are taken,
    /// stored as background color numbers, drawn through BGP, and the window is checked after
    /// each.
    fn fetcher_step(&mut self)
        requires
            old(self).wf(),
            old(self).x + 2 <= (if old(self).mode == LCDMode::LCDTransfer { 163int } else { 167int }),
        ensures
            final(self).wf(),
            final(self).draw_state() == fetch_step(old(self).draw_state(), old(self).mapper@, old(self).video_ram@),
            old(self).x <= final(self).x <= old(self).x + 2,
            *final(self) == (Ppu { x: final(self).x, background: final(self).background, screen_buffer:
                final(self).screen_buffer, pixel_fifo: final(self).pixel_fifo, ..*old(self) }),
            old(self).x >= SCREEN_X ==> final(self).screen_buffer@ == old(self).screen_buffer@ && final(self).background@
                == old(self).background@,
            forall|i: int| 0 <= i < SCREEN_X * SCREEN_Y && !(old(self).ly() * SCREEN_X <= i < old(self).ly() * SCREEN_X
                + SCREEN_X) ==> #[trigger] final(self).screen_buffer@[i] == old(self).screen_buffer@[i],
    {
        proof { reveal(fetch_step); }
        if self.mapper.bg_window_on() != 1 {
            self.x = self.x + 2;
            return;
        }

        self.pixel_fifo.step(&self.mapper, self.video_ram.as_slice());

        if !self.pixel_fifo.has_pixels() {
            return;
        }

        let ghost mid = *self;
        assert(self.pixel_fifo.fifo@.len() <= stage_bound(self.pixel_fifo.stage) + 2);
        if self.take_pixel() {
            return;
        }
        let ghost one = *self;
        self.take_pixel();
        proof {
            if !take_and_check(one.draw_state(), one.mapper@).1 {
                assert(self.pixel_fifo.fifo@.len() == mid.pixel_fifo.fifo@.len() - 2);
                assert(self.pixel_fifo.stage == mid.pixel_fifo.stage);
            }
        }
    }
}

impl Ppu {
    /// The line checks during VBlank: the start of a line updates LY; four cycles later LY is
    /// compared with LYC, and on line 0 the OAM search of the first visible line starts.
    fn check_interrupts_vblank(&mut self) -> (r: Option<Interrupt>)
        requires
            old(self).wf(),
            old(self).mode == LCDMode::VBlank,
        ensures
            final(self).wf(),
            ({
                let pos = old(self).cycles % SCANLINE_CYCLES;
                let regs = old(self).mapper@;
                if pos == 0 {
                    &&& r is None
                    &&& *final(self) == (Ppu { mapper: final(self).mapper, ..*old(self) })
                    &&& final(self).mapper@ == after_line_start(regs, old(self).cycles as int)
                } else if pos == 4 && old(self).ly() == 0 {
                    &&& r == either(coincidence_interrupt(regs), mode_interrupt(after_coincidence(regs),
                        LCDMode::SearchingOAM))
                    &&& *final(self) == (Ppu { mapper: final(self).mapper, mode: LCDMode::SearchingOAM, ..*old(self) })
                    &&& final(self).mapper@ == with_mode(after_coincidence(regs), LCDMode::SearchingOAM)
                } else if pos == 4 {
                    &&& r == coincidence_interrupt(regs)
                    &&& *final(self) == (Ppu { mapper: final(self).mapper, ..*old(self) })
                    &&& final(self).mapper@ == after_coincidence(regs)
                } else {
                    &&& r is None
                    &&& *final(self) == *old(self)
                }
            }),
    {
        let pos = self.cycles % SCANLINE_CYCLES;
        if pos == 0 {
            self.update_scanline();
        } else if pos == 4 {
            let mut interrupt = self.update_ly_lyc_coincidence();

            if self.scanline() == 0 {
                // End of VBlank
                let next = self.switch_to(LCDMode::SearchingOAM);
                proof { lemma_bit2_keeps_mode(video_reg(old(self).mapper@, 0xFF41)); }
                interrupt = or_else(interrupt, next);
            }

            return interrupt;
        }
        // VBlank running, nothing to do

        None
    }
}

impl Ppu {
    /// Cycle 80 of a line: the sprites of the line are chosen.
    fn search_sprites(&mut self, oam_ram: &[u8])
        requires
            old(self).wf(),
            oam_ram@.len() >= OAM_SIZE,
        ensures
            final(self).wf(),
            final(self).visible_sprites@.to_multiset() == visible_prefix(oam_ram@, bit_of(video_reg(
                old(self).mapper@, 0xFF40), 2) == 1, old(self).ly() as int, 40).to_multiset(),
            x_order(oam_ram@, final(self).visible_sprites@),
            *final(self) == (Ppu { visible_sprites: final(self).visible_sprites, ..*old(self) }),
    {
        let scanline = self.scanline() as usize;
        self.visible_sprites = visible_sprites(oam_ram, &self.mapper, scanline);
    }

    /// Cycle 84 of a line: the line starts to be drawn. The column goes back to 0; with the
    /// background on, the pipeline starts from the background's tile map at the scroll position
    /// (dropping the pixels of the fine horizontal scroll) and makes its first two steps; then
    /// the window is checked.
    fn start_transfer(&mut self)
        requires
            old(self).wf(),
        ensures
            final(self).wf(),
            final(self).mode == LCDMode::LCDTransfer,
            final(self).mapper@ == with_mode(old(self).mapper@, LCDMode::LCDTransfer),
            final(self).x == 0,
            final(self).pixel_fifo.state() == transfer_start(old(self).pixel_fifo.state(), final(self).mapper@,
                old(self).video_ram@),
            *final(self) == (Ppu { mode: final(self).mode, mapper: final(self).mapper, x: 0, pixel_fifo:
                final(self).pixel_fifo, ..*old(self) }),
    {
        proof { reveal(transfer_start); }
        let _ = self.switch_to(LCDMode::LCDTransfer);
        self.x = 0;
        if self.mapper.bg_window_on() == 1 {
            self.start_background();
        }
        self.check_window_x();
    }

    /// Starts the pipeline on the background's tile map at the scroll position and makes its
    /// first two steps.
    fn start_background(&mut self)
        requires
            old(self).core_wf(),
        ensures
            final(self).core_wf(),
            final(self).pixel_fifo.state() == background_start(old(self).pixel_fifo.state(), old(self).mapper@,
                old(self).video_ram@),
            *final(self) == (Ppu { pixel_fifo: final(self).pixel_fifo, ..*old(self) }),
    {
        let scroll_x = self.mapper.reg(0xFF43);
        let y = self.scanline().wrapping_add(self.mapper.reg(0xFF42)) as usize;
        let offset = self.background_offset();
        self.pixel_fifo.reset((scroll_x % 8) as usize, BackgroundFetcher::new(offset, (scroll_x / 8) as usize, y));
        // Two pipeline steps to a CPU step.
        self.pixel_fifo.step(&self.mapper, self.video_ram.as_slice());
        self.pixel_fifo.step(&self.mapper, self.video_ram.as_slice());
    }

    /// Cycles 88-452 of a line: nothing in HBlank; otherwise, once the whole line is drawn, the
    /// unit enters HBlank (STAT interrupt when enabled) and draws the sprites of the line; and
    /// the pipeline runs for two more pixels.
    fn transfer_step(&mut self, oam_ram: &[u8]) -> (r: Option<Interrupt>)
        requires
            old(self).wf(),
            old(self).mode != LCDMode::HBlank && old(self).x >= SCREEN_X ==> oam_ram@.len() >= OAM_SIZE,
            old(self).mode != LCDMode::VBlank,
            old(self).mode != LCDMode::HBlank ==> old(self).x <= 163,
        ensures
            final(self).wf(),
            old(self).mode == LCDMode::HBlank ==> r is None && *final(self) == *old(self),
            old(self).mode != LCDMode::HBlank && old(self).x >= SCREEN_X ==> {
                &&& r == mode_interrupt(old(self).mapper@, LCDMode::HBlank)
                &&& final(self).mode == LCDMode::HBlank
                &&& final(self).mapper@ == with_mode(old(self).mapper@, LCDMode::HBlank)
                &&& old(self).ly() < SCREEN_Y ==> forall|x: int| 0 <= x < SCREEN_X ==>
                    #[trigger] final(self).screen_buffer@[old(self).ly() * SCREEN_X + x] == sprite_pixel(oam_ram@,
                    old(self).video_ram@, old(self).mapper@, old(self).visible_sprites@, old(self).background@, x,
                    old(self).ly() as int, old(self).screen_buffer@[old(self).ly() * SCREEN_X + x])
            },
            old(self).mode != LCDMode::HBlank && old(self).x < SCREEN_X ==> r is None && final(self).mode == old(self).mode
                && final(self).mapper@ == old(self).mapper@ && final(self).draw_state() == fetch_step(fetch_step(
                old(self).draw_state(), old(self).mapper@, old(self).video_ram@), old(self).mapper@, old(self).video_ram@)
                && *final(self) == (Ppu { x: final(self).x, background: final(self).background, screen_buffer:
                final(self).screen_buffer, pixel_fifo: final(self).pixel_fifo, ..*old(self) }),
            old(self).mode != LCDMode::HBlank && old(self).x >= SCREEN_X ==> final(self).draw_state() == fetch_step(
                fetch_step(DrawState { screen: final(self).screen_buffer@, ..old(self).draw_state() }, final(self).mapper@,
                old(self).video_ram@), final(self).mapper@, old(self).video_ram@),
            final(self).cycles == old(self).cycles,
            final(self).video_ram == old(self).video_ram,
            final(self).should_refresh == old(self).should_refresh,
            final(self).visible_sprites == old(self).visible_sprites,
            forall|i: int| 0 <= i < SCREEN_X * SCREEN_Y && !(old(self).ly() * SCREEN_X <= i < old(self).ly() * SCREEN_X
                + SCREEN_X) ==> #[trigger] final(self).screen_buffer@[i] == old(self).screen_buffer@[i],
    {
        if self.mode == LCDMode::HBlank {
            // nothing to do
            return None;
        }

        let mut interrupt = None;
        if self.x >= SCREEN_X {
            // The sprites only read LCDC and the sprite palettes, so they can be drawn before
            // the mode bits of STAT change.
            let scanline = self.scanline() as usize;
            print_sprites(&mut self.screen_buffer, &self.background, oam_ram, self.video_ram.as_slice(), &self.mapper,
                scanline, &self.visible_sprites);
            interrupt = self.switch_to(LCDMode::HBlank);
        }

        // Two pipeline steps to a CPU step.
        self.fetcher_step();
        self.fetcher_step();

        interrupt
    }
}

/// The work of the unit for one CPU step at the position `cycles % 456` of the line, as
/// `check_interrupts` does it with sprite memory `oam`: `after` is the unit after the step and
/// `r` the interrupt requested.
#[verifier::opaque]
pub open spec fn line_step(before: Ppu, oam: Seq<u8>, after: Ppu, r: Option<Interrupt>) -> bool {
    &&& after.cycles == before.cycles
    &&& after.video_ram == before.video_ram
    &&& !before.lcd_enabled() ==> r is None && after == before
    &&& before.lcd_enabled() ==> ({
        let pos = before.cycles % SCANLINE_CYCLES;
        let regs = before.mapper@;
        let ly = before.ly();
        if pos == 0 {
            &&& r is None
            &&& after == (Ppu { mapper: after.mapper, ..before })
            &&& after.mapper@ == after_line_start(regs, before.cycles as int)
        } else if pos == 4 && before.mode == LCDMode::VBlank {
            &&& r == (if ly == 0 { either(coincidence_interrupt(regs), mode_interrupt(after_coincidence(regs),
                LCDMode::SearchingOAM)) } else { coincidence_interrupt(regs) })
            &&& after.mode == (if ly == 0 { LCDMode::SearchingOAM } else { LCDMode::VBlank })
            &&& after.mapper@ == (if ly == 0 { with_mode(after_coincidence(regs), LCDMode::SearchingOAM) }
                else { after_coincidence(regs) })
            &&& after == (Ppu { mapper: after.mapper, mode: after.mode, ..before })
        } else if pos == 4 && ly == SCREEN_Y {
            &&& r == Some(Interrupt::VBlank)
            &&& after.should_refresh
            &&& after.mode == LCDMode::VBlank
            &&& after.mapper@ == with_mode(after_coincidence(regs), LCDMode::VBlank)
            &&& after == (Ppu { mapper: after.mapper, mode: LCDMode::VBlank, should_refresh: true,
                ..before })
        } else if pos == 4 {
            &&& r == either(coincidence_interrupt(regs), mode_interrupt(after_coincidence(regs),
                LCDMode::SearchingOAM))
            &&& after.mode == LCDMode::SearchingOAM
            &&& after.mapper@ == with_mode(after_coincidence(regs), LCDMode::SearchingOAM)
            &&& after == (Ppu { mapper: after.mapper, mode: LCDMode::SearchingOAM, ..before })
        } else if before.mode == LCDMode::VBlank || pos < 80 {
            &&& r is None
            &&& after == before
        } else if pos == 80 {
            &&& r is None
            &&& after.visible_sprites@.to_multiset() == visible_prefix(oam, bit_of(video_reg(regs,
                0xFF40), 2) == 1, ly as int, 40).to_multiset()
            &&& x_order(oam, after.visible_sprites@)
            &&& after == (Ppu { visible_sprites: after.visible_sprites, ..before })
        } else if pos == 84 {
            &&& r is None
            &&& after.mode == LCDMode::LCDTransfer
            &&& after.mapper@ == with_mode(regs, LCDMode::LCDTransfer)
            &&& after.x == 0
            &&& after.pixel_fifo.state() == transfer_start(before.pixel_fifo.state(), after.mapper@,
                before.video_ram@)
            &&& after == (Ppu { mode: after.mode, mapper: after.mapper, x: 0, pixel_fifo:
                after.pixel_fifo, ..before })
        } else if before.mode == LCDMode::HBlank {
            &&& r is None
            &&& after == before
        } else if before.x >= SCREEN_X {
            &&& r == mode_interrupt(regs, LCDMode::HBlank)
            &&& after.mode == LCDMode::HBlank
            &&& after.mapper@ == with_mode(regs, LCDMode::HBlank)
            &&& ly < SCREEN_Y ==> forall|x: int| 0 <= x < SCREEN_X ==>
                #[trigger] after.screen_buffer@[ly * SCREEN_X + x] == sprite_pixel(oam,
                before.video_ram@, regs, before.visible_sprites@, before.background@, x, ly as int,
                before.screen_buffer@[ly * SCREEN_X + x])
            &&& after.draw_state() == fetch_step(fetch_step(DrawState { screen: after.screen_buffer@,
                ..before.draw_state() }, after.mapper@, before.video_ram@), after.mapper@,
                before.video_ram@)
            &&& after == (Ppu { mode: LCDMode::HBlank, mapper: after.mapper, x: after.x,
                background: after.background, screen_buffer: after.screen_buffer, pixel_fifo:
                after.pixel_fifo, ..before })
        } else {
            &&& r is None
            &&& after.mode == before.mode
            &&& after.mapper@ == regs
            &&& after.draw_state() == fetch_step(fetch_step(before.draw_state(), regs,
                before.video_ram@), regs, before.video_ram@)
            &&& after == (Ppu { x: after.x, background: after.background, screen_buffer:
                after.screen_buffer, pixel_fifo: after.pixel_fifo, ..before })
        }
    })
    &&& forall|i: int| 0 <= i < SCREEN_X * SCREEN_Y && !(before.ly() * SCREEN_X <= i < before.ly() * SCREEN_X
        + SCREEN_X) ==> #[trigger] after.screen_buffer@[i] == before.screen_buffer@[i]
}

impl Ppu {
    /// The work of the unit after each CPU step, at the position `cycles % 456` of the line:
    ///
    /// - 0: LY takes the line number and the coincidence bit is cleared;
    /// - 4: LY is compared with LYC (STAT interrupt when equal and enabled); after the last
    ///   visible line the frame is ready (`should_refresh`), the unit enters VBlank and raises
    ///   the VBlank interrupt; otherwise (and on line 0 after VBlank) the OAM search starts;
    /// - 80: the sprites of the line are chosen;
    /// - 84: the line starts to be drawn;
    /// - 88-452: the line is drawn, then HBlank starts and the sprites are drawn.
    ///
    /// Nothing happens while the display is off. Returns the interrupt to request, if any; a
    /// STAT interrupt is requested when the bit of STAT that enables it is set. Sprite memory
    /// `oam_ram` is read only from the sprite search on, outside VBlank.
    pub fn check_interrupts(&mut self, oam_ram: &[u8]) -> (r: Option<Interrupt>)
        requires
            old(self).wf(),
            old(self).scan_ready(),
            old(self).lcd_enabled() && old(self).mode != LCDMode::VBlank && old(self).cycles % SCANLINE_CYCLES >= 80
                ==> oam_ram@.len() >= OAM_SIZE,
        ensures
            final(self).wf(),
            line_step(*old(self), oam_ram@, *final(self), r),
    {
        proof { reveal(line_step); }
        if self.mapper.lcd_on() == 0 {
            return None;
        }

        if self.cycles % 4 != 0 {
            // We only care about M-cycles
            return None;
        }

        if self.mode == LCDMode::VBlank {
            return self.check_interrupts_vblank();
        }

        let scanline_cycle = self.cycles % SCANLINE_CYCLES;

        if scanline_cycle == 0 {
            self.update_scanline();
            None
        } else if scanline_cycle == 4 {
            let interrupt = self.update_ly_lyc_coincidence();

            if self.scanline() as usize == SCREEN_Y {
                // Let's notify the front-end that we're ready to refresh the screen
                self.should_refresh = true;

                // VBlank interrupt takes precedence over STAT
                let _ = self.switch_to(LCDMode::VBlank);
                proof { lemma_bit2_keeps_mode(video_reg(old(self).mapper@, 0xFF41)); }
                return Some(Interrupt::VBlank);
            }

            let next = self.switch_to(LCDMode::SearchingOAM);
            proof { lemma_bit2_keeps_mode(video_reg(old(self).mapper@, 0xFF41)); }
            or_else(interrupt, next)
        } else if scanline_cycle < 80 {
            // The ppu is running OAM Search, do nothing
            None
        } else if scanline_cycle == 80 {
            self.search_sprites(oam_ram);
            None
        } else if scanline_cycle == 84 {
            self.start_transfer();
            None
        } else {
            self.transfer_step(oam_ram)
        }
    }
}

/// The addresses that the unit answers: video RAM and its registers.
pub open spec fn is_ppu_address(address: u16) -> bool {
    (0x8000 <= address <= 0x9FFF) || is_video_register(address)
}

impl Ppu {
    /// Follows up a register write: when LCDC turns the display off, the frame restarts from
    /// its first line in HBlank.
    fn write_callback(&mut self, address: u16)
        requires
            old(self).wf(),
        ensures
            final(self).wf(),
            address == 0xFF40 && !old(self).lcd_enabled() ==> {
                &&& final(self).cycles == 0
                &&& final(self).mode == LCDMode::HBlank
                &&& final(self).mapper@ == with_mode(old(self).mapper@, LCDMode::HBlank).update(4, 0u8)
                &&& *final(self) == (Ppu { cycles: 0, mode: LCDMode::HBlank, mapper: final(self).mapper, ..*old(self) })
            },
            !(address == 0xFF40 && !old(self).lcd_enabled()) ==> *final(self) == *old(self),
    {
        if address == 0xFF40 && self.mapper.lcd_on() == 0 {
            self.cycles = 0;
            self.set_mode(LCDMode::HBlank);
            self.mapper.write(0xFF44, 0);
        }
    }

    /// What a read of video RAM or of an LCD register gives.
    pub open spec fn read_spec(&self, address: u16) -> u8 {
        if 0x8000 <= address <= 0x9FFF {
            if self.mode == LCDMode::LCDTransfer { 0xFFu8 } else { self.video_ram@[address - 0x8000] }
        } else {
            video_reg(self.mapper@, address) | video_read_mask(address)
        }
    }

    /// Reads video RAM or an LCD register.
    pub fn read(&self, address: u16) -> (r: u8)
        requires
            self.wf(),
            is_ppu_address(address),
        ensures
            r == self.read_spec(address),
            0x8000 <= address <= 0x9FFF ==> r == (if self.mode == LCDMode::LCDTransfer { 0xFFu8 } else {
                self.video_ram@[address - 0x8000] }),
            is_video_register(address) ==> r == video_reg(self.mapper@, address) | video_read_mask(address),
    {
        if address >= 0x8000 && address <= 0x9FFF {
            self.read_ram(address)
        } else {
            self.mapper.read(address)
        }
    }

    /// Writes video RAM or an LCD register. Only bits 3-6 of STAT are writable; turning the
    /// display off restarts the frame (see `write_callback`).
    pub fn write(&mut self, address: u16, v: u8)
        requires
            old(self).wf(),
            is_ppu_address(address),
        ensures
            final(self).wf(),
            0x8000 <= address <= 0x9FFF ==> final(self).video_ram@ == old(self).video_ram@.update(address - 0x8000, v)
                && *final(self) == (Ppu { video_ram: final(self).video_ram, ..*old(self) }),
            address == 0xFF41 ==> (forall|k: u8| 3 <= k < 7 ==> #[trigger] bit_of(video_reg(final(self).mapper@, 0xFF41), k)
                == bit_of(v, k)) && (forall|k: u8| k < 3 || k == 7 ==> #[trigger] bit_of(video_reg(final(self).mapper@,
                0xFF41), k) == bit_of(video_reg(old(self).mapper@, 0xFF41), k)) && (forall|a: u16| 0xFF40 <= a <= 0xFF4B
                && a != 0xFF41 ==> #[trigger] video_reg(final(self).mapper@, a) == video_reg(old(self).mapper@, a)),
            is_video_register(address) && address != 0xFF41 && !(address == 0xFF40 && bit_of(v, 7) == 0)
                ==> final(self).mapper@ == old(self).mapper@.update(address - 0xFF40, v)
                && *final(self) == (Ppu { mapper: final(self).mapper, ..*old(self) }),
            address == 0xFF40 && bit_of(v, 7) == 0 ==> {
                &&& final(self).cycles == 0
                &&& final(self).mode == LCDMode::HBlank
                &&& final(self).mapper@ == with_mode(old(self).mapper@.update(0, v), LCDMode::HBlank).update(4, 0u8)
            },
    {
        if address >= 0x8000 && address <= 0x9FFF {
            self.write_ram(address, v);
        } else if address == 0xFF41 {
            self.write_stat(v);
        } else {
            self.mapper.write(address, v);
            proof {
                assert(video_reg(self.mapper@, 0xFF41) == video_reg(old(self).mapper@, 0xFF41));
                assert(video_reg(self.mapper@, 0xFF40) == (if address == 0xFF40 { v } else { video_reg(old(self).mapper@, 0xFF40) }));
                lemma_bit_reads();
            }
        }

        self.write_callback(address);
    }
}

} // verus!
