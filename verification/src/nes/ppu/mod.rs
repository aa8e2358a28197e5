//! The picture processing unit: 341 dots to a scanline, 262 scanlines to a
//! frame, one dot per tick.

use vstd::prelude::*;

pub mod registers;
pub mod render;
pub mod scroll;
pub mod sprite_laws;
pub mod sprites;
pub mod tick;

verus! {

/// The bits of the control register `$2000`.
pub const CTRL_BASE_0: u8 = 0x1;

pub const CTRL_BASE_1: u8 = 0x2;

pub const CTRL_VRAM_INC: u8 = 0x4;

pub const CTRL_SPRITE_BANK_1000: u8 = 0x8;

pub const CTRL_BG_TABLE_ADDRESS: u8 = 0x10;

pub const CTRL_LARGE_SPRITES: u8 = 0x20;

pub const CTRL_MASTER_SLAVE: u8 = 0x40;

pub const CTRL_NMI: u8 = 0x80;

/// The bits of the mask register `$2001`.
pub const MASK_GREYSCALE: u8 = 0x1;

pub const MASK_BG_LEFTMOST: u8 = 0x2;

pub const MASK_SPRITE_LEFTMOST: u8 = 0x4;

pub const MASK_SHOW_BG: u8 = 0x8;

pub const MASK_SHOW_SPRITES: u8 = 0x10;

pub const MASK_EMPH_RED: u8 = 0x20;

pub const MASK_EMPH_GREEN: u8 = 0x40;

pub const MASK_EMPH_BLUE: u8 = 0x80;

/// The bits of the status register `$2002`.
pub const STATUS_SPRITE_OVERFLOW: u8 = 0x20;

pub const STATUS_SPRITE_0_HIT: u8 = 0x40;

pub const STATUS_VBLANK: u8 = 0x80;

/// The bits of a sprite's attribute byte.
pub const ATTR_PALETTE: u8 = 0x03;

pub const ATTR_PRIORITY_BEHIND: u8 = 0x20;

pub const ATTR_FLIP_HORIZ: u8 = 0x40;

pub const ATTR_FLIP_VERT: u8 = 0x80;

/// The bits of a sprite's attribute byte that exist.
pub const ATTR_IMPLEMENTED: u8 = 0xE3;

/// The scanline on which the vertical blank starts.
pub const VBLANK_SCANLINE: u16 = 241;

/// One thing that the PPU has done to its host.
#[derive(Debug, Clone, Copy, PartialEq, Eq, Structural)]
pub enum PpuEvent {
    Read { addr: u16, value: u8 },
    Write { addr: u16, value: u8 },
    TriggerNmi,
    SuppressNmi,
    Pixel { row: u16, col: u16, r: u8, g: u8, b: u8 },
}

/// What a sequence of events leaves on the NMI line: `Some(true)` when the
/// last signal among them raised the NMI, `Some(false)` when it took one
/// back, and `None` when there is no signal among them.
pub open spec fn signal_of(events: Seq<PpuEvent>) -> Option<bool>
    decreases events.len(),
{
    if events.len() == 0 {
        None
    } else {
        match events.last() {
            PpuEvent::TriggerNmi => Some(true),
            PpuEvent::SuppressNmi => Some(false),
            _ => signal_of(events.drop_last()),
        }
    }
}

/// Whether a sequence of events holds no signal on the NMI line and no
/// write: reads and pixels only.
pub open spec fn quiet(events: Seq<PpuEvent>) -> bool {
    forall|i: int| 0 <= i < events.len() ==> (#[trigger] events[i] is Read || events[i] is Pixel)
}

/// Events without a signal leave the NMI line alone.
pub proof fn lemma_quiet_signal(events: Seq<PpuEvent>)
    requires
        quiet(events),
    ensures
        signal_of(events) is None,
    decreases events.len(),
{
    if events.len() > 0 {
        assert(events.last() == events[events.len() - 1]);
        assert forall|i: int| 0 <= i < events.drop_last().len() implies (
        #[trigger] events.drop_last()[i] is Read || events.drop_last()[i] is Pixel) by {
            assert(events.drop_last()[i] == events[i]);
        }
        lemma_quiet_signal(events.drop_last());
    }
}

/// The signal that two runs of events leave is that of the second run, or
/// that of the first where the second holds none.
pub proof fn lemma_signal_of_concat(first: Seq<PpuEvent>, second: Seq<PpuEvent>)
    ensures
        signal_of(first + second) == match signal_of(second) {
            Some(s) => Some(s),
            None => signal_of(first),
        },
    decreases second.len(),
{
    if second.len() == 0 {
        assert(first + second =~= first);
    } else {
        assert((first + second).last() == second.last());
        assert((first + second).drop_last() =~= first + second.drop_last());
        lemma_signal_of_concat(first, second.drop_last());
    }
}

/// The world as the PPU sees it: fourteen bits of address space for pattern
/// tables and nametables, the CPU's NMI input, and the screen. A host keeps,
/// for its contracts, the record of what the PPU has done to it.
pub trait PPUHostAccess {
    /// What the host needs to hold in order to serve the PPU.
    spec fn wf(&self) -> bool;

    /// What the PPU has done so far, oldest first.
    spec fn events(&self) -> Seq<PpuEvent>;

    /// Whether `self` is the host `before` after it has served `event`.
    spec fn served(&self, before: &Self, event: PpuEvent) -> bool;

    /// The byte that the host holds at `addr` of the PPU's address space.
    spec fn byte(&self, addr: u16) -> u8;

    /// Whether the memory that the host serves is that of `before`: only a
    /// write changes it.
    spec fn memory_kept(&self, before: &Self) -> bool;

    /// A host keeps its own memory.
    proof fn lemma_memory_kept_by_itself(&self)
        ensures
            self.memory_kept(self),
    ;

    /// Memory that is kept holds the bytes that it held.
    proof fn lemma_memory_kept_bytes(&self, before: &Self, addr: u16)
        requires
            self.memory_kept(before),
        ensures
            self.byte(addr) == before.byte(addr),
    ;

    /// Memory that is kept from step to step is kept over the steps.
    proof fn lemma_memory_kept_through(&self, mid: &Self, before: &Self)
        requires
            self.memory_kept(mid),
            mid.memory_kept(before),
        ensures
            self.memory_kept(before),
    ;

    /// Reads the byte at `addr`, which memory keeps.
    fn ppu_read(&mut self, addr: u16) -> (value: u8)
        requires
            old(self).wf(),
            addr < 0x4000,
        ensures
            final(self).wf(),
            value == old(self).byte(addr),
            final(self).events() == old(self).events().push(PpuEvent::Read { addr, value }),
            final(self).served(old(self), PpuEvent::Read { addr, value }),
            final(self).memory_kept(old(self)),
    ;

    /// Writes `value` to `addr`.
    fn ppu_write(&mut self, addr: u16, value: u8)
        requires
            old(self).wf(),
            addr < 0x4000,
        ensures
            final(self).wf(),
            final(self).events() == old(self).events().push(PpuEvent::Write { addr, value }),
            final(self).served(old(self), PpuEvent::Write { addr, value }),
    ;

    /// Raises the NMI line of the CPU.
    fn ppu_trigger_nmi(&mut self)
        requires
            old(self).wf(),
        ensures
            final(self).wf(),
            final(self).events() == old(self).events().push(PpuEvent::TriggerNmi),
            final(self).served(old(self), PpuEvent::TriggerNmi),
            final(self).memory_kept(old(self)),
    ;

    /// Takes back an NMI that the CPU has not seen yet.
    fn ppu_suppress_nmi(&mut self)
        requires
            old(self).wf(),
        ensures
            final(self).wf(),
            final(self).events() == old(self).events().push(PpuEvent::SuppressNmi),
            final(self).served(old(self), PpuEvent::SuppressNmi),
            final(self).memory_kept(old(self)),
    ;

    /// Shows the pixel in row `row` and column `col`.
    fn ppu_set_pixel(&mut self, row: u16, col: u16, r: u8, g: u8, b: u8)
        requires
            old(self).wf(),
            row < 240,
            col < 256,
        ensures
            final(self).wf(),
            final(self).events() == old(self).events().push(PpuEvent::Pixel { row, col, r, g, b }),
            final(self).served(old(self), PpuEvent::Pixel { row, col, r, g, b }),
            final(self).memory_kept(old(self)),
    ;
}

/// Whether `hosts` are the states of a host that serves `events`, one after
/// the other.
pub open spec fn serving<P: PPUHostAccess>(hosts: Seq<P>, events: Seq<PpuEvent>) -> bool {
    &&& hosts.len() == events.len() + 1
    &&& forall|i: int|
        0 <= i < events.len() ==> hosts[i + 1].served(&(#[trigger] hosts[i]), events[i])
}

/// Whether `after` is the host `before` after it has served `events`, one
/// after the other.
pub open spec fn host_served<P: PPUHostAccess>(after: &P, before: &P, events: Seq<PpuEvent>) -> bool {
    exists|hosts: Seq<P>|
        {
            &&& #[trigger] serving(hosts, events)
            &&& hosts[0] == *before
            &&& hosts[events.len() as int] == *after
        }
}

/// A host that was asked for nothing is as it was.
pub proof fn lemma_served_nothing<P: PPUHostAccess>(host: P)
    ensures
        host_served(&host, &host, Seq::empty()),
{
    assert(serving(seq![host], Seq::empty()));
}

/// A host that has served nothing is the host that it was.
pub proof fn lemma_served_none<P: PPUHostAccess>(after: P, before: P, events: Seq<PpuEvent>)
    requires
        host_served(&after, &before, events),
        events.len() == 0,
    ensures
        after == before,
{
}

/// A host that has served one event has served it.
pub proof fn lemma_served_one<P: PPUHostAccess>(after: P, before: P, event: PpuEvent)
    requires
        after.served(&before, event),
    ensures
        host_served(&after, &before, seq![event]),
{
    assert(serving(seq![before, after], seq![event]));
}

/// What a host has served alone was served from the state before to the
/// state after.
pub proof fn lemma_served_single<P: PPUHostAccess>(after: P, before: P, events: Seq<PpuEvent>)
    requires
        host_served(&after, &before, events),
        events.len() == 1,
    ensures
        after.served(&before, events[0]),
{
    let hosts = choose|hosts: Seq<P>|
        {
            &&& #[trigger] serving(hosts, events)
            &&& hosts[0] == before
            &&& hosts[events.len() as int] == after
        };
    assert(hosts[1].served(&hosts[0], events[0]));
}

/// A host that has served one run of events and then another has served the
/// two in turn.
pub proof fn lemma_served_in_turn<P: PPUHostAccess>(
    after: P,
    mid: P,
    before: P,
    first: Seq<PpuEvent>,
    second: Seq<PpuEvent>,
)
    requires
        host_served(&mid, &before, first),
        host_served(&after, &mid, second),
    ensures
        host_served(&after, &before, first + second),
{
    let early = choose|hosts: Seq<P>|
        {
            &&& #[trigger] serving(hosts, first)
            &&& hosts[0] == before
            &&& hosts[first.len() as int] == mid
        };
    let late = choose|hosts: Seq<P>|
        {
            &&& #[trigger] serving(hosts, second)
            &&& hosts[0] == mid
            &&& hosts[second.len() as int] == after
        };
    let all = early + late.skip(1);
    let events = first + second;
    assert forall|i: int| 0 <= i < events.len() implies all[i + 1].served(
        &(#[trigger] all[i]),
        events[i],
    ) by {
        if i < first.len() {
            assert(early[i + 1].served(&early[i], first[i]));
        } else {
            let k = i - first.len();
            assert(late[k + 1].served(&late[k], second[k]));
            assert(all[i + 1] == late.skip(1)[k]);
            if k > 0 {
                assert(all[i] == late.skip(1)[k - 1]);
            }
        }
    }
    assert(serving(all, events));
    assert(all[events.len() as int] == after) by {
        if second.len() > 0 {
            assert(all[events.len() as int] == late.skip(1)[second.len() - 1]);
        }
    }
}

/// A host that has served at most one event has served what it was asked
/// for.
pub proof fn lemma_served_at_most_one<P: PPUHostAccess>(after: P, before: P, events: Seq<PpuEvent>)
    requires
        events.len() <= 1,
        events.len() == 0 ==> after == before,
        events.len() == 1 ==> after.served(&before, events[0]),
    ensures
        host_served(&after, &before, events),
{
    if events.len() == 0 {
        assert(serving(seq![before], events));
    } else {
        assert(serving(seq![before, after], events));
    }
}

/// A sprite of the current scanline: what the PPU has loaded into the
/// counters and shift registers of one of its eight sprite units.
#[derive(Debug, Clone, Copy, PartialEq, Eq, Structural)]
pub struct SpriteToRender {
    pub x: u8,
    pub low_pattern: u8,
    pub high_pattern: u8,
    pub attributes: u8,
}

/// The picture-processing unit: its memories, its registers, the beam and
/// the latches and shift registers of the rendering pipeline.
pub struct PPU {
    // internal ram
    pub cgram: [u8; 32],
    pub oam: [u8; 256],
    // Holds 8 sprites to be rendered on the following scanline
    pub secondary_oam: [u8; 32],
    // state, registers (external and internal), etc.
    pub scanline: u16,
    pub dot: u16,
    pub odd_frame: bool,
    pub ppuctrl: u8,
    pub ppumask: u8,
    pub ppustatus: u8,
    pub oamaddr: u8,
    pub read_buffer: u8,
    pub last_read: u8,
    pub clear_vblank: bool,
    // Scrolling related registers
    pub addr_v: u16,
    pub addr_t: u16,
    pub fine_x: u8,
    pub latch_w: bool,
    // Latches
    pub fetch_addr: u16,
    pub fetched_nametable: u8,
    pub fetched_attribute_table: u8,
    pub fetched_bg_pattern_low: u8,
    pub fetched_bg_pattern_high: u8,
    pub at_latch_l: u8,
    pub at_latch_h: u8,
    // Shift regs for background
    pub bg_high_shift: u16,
    pub bg_low_shift: u16,
    pub at_shift_l: u8,
    pub at_shift_h: u8,
    // Sprite evaluation
    pub secondary_oam_addr: u8,
    pub oam_value_latch: u8,
    pub sprite_in_range: bool,
    pub sprite_evaluation_done: bool,
    pub sprite_zero_next_scanline: bool,
    // Sprite rendering
    pub sprites: [SpriteToRender; 8],
    pub sprite_zero_current_scanline: bool,
    pub num_sprites: usize,
    // Obscure timing fixes
    pub perform_skip: bool,
}

impl SpriteToRender {
    /// A sprite that shows nothing.
    pub fn blank() -> (s: SpriteToRender)
        ensures
            s == (SpriteToRender { x: 0, low_pattern: 0, high_pattern: 0, attributes: 0 }),
    {
        SpriteToRender { x: 0, low_pattern: 0, high_pattern: 0, attributes: 0 }
    }
}

impl Default for SpriteToRender {
    fn default() -> (s: SpriteToRender)
        ensures
            s == (SpriteToRender { x: 0, low_pattern: 0, high_pattern: 0, attributes: 0 }),
    {
        SpriteToRender::blank()
    }
}

impl PPU {
    /// What holds of the PPU at all times: the beam is inside the frame, the
    /// scroll registers have their fifteen and three bits, at most eight
    /// sprites are loaded, the fetch address fits the address bus, and the
    /// latch that drops a dot is set only where it is armed and used, at the
    /// dots 338 and 339 of the pre-render scanline of an odd frame.
    pub open spec fn wf(&self) -> bool {
        &&& self.dot <= 340
        &&& self.scanline <= 261
        &&& self.perform_skip ==> self.scanline == 261 && 338 <= self.dot <= 339 && self.odd_frame
        &&& self.addr_v < 0x8000
        &&& self.addr_t < 0x8000
        &&& self.fine_x < 8
        &&& self.fetch_addr < 0x4000
        &&& self.num_sprites <= 8
    }

    /// Whether the background or the sprites are switched on.
    pub open spec fn rendering(&self) -> bool {
        self.ppumask & MASK_SHOW_BG != 0 || self.ppumask & MASK_SHOW_SPRITES != 0
    }

    /// Whether the beam is where the frame ends and the vertical blank
    /// begins.
    pub open spec fn at_frame_end(&self) -> bool {
        self.dot == 1 && self.scanline == 241
    }

    /// The height of a sprite, 8 or 16.
    pub open spec fn sprite_size(&self) -> u8 {
        if self.ppuctrl & CTRL_LARGE_SPRITES != 0 {
            16
        } else {
            8
        }
    }

    /// The step that a `$2007` access adds to the address, 1 or 32.
    pub open spec fn vram_increment(&self) -> u16 {
        if self.ppuctrl & CTRL_VRAM_INC != 0 {
            32
        } else {
            1
        }
    }

    /// Whether every register and every latch holds zero, the beam is at the
    /// first dot of an even frame, and no sprite is loaded.
    pub open spec fn registers_clear(&self) -> bool {
        &&& self.scanline == 0 && self.dot == 0 && !self.odd_frame
        &&& self.ppuctrl == 0 && self.ppumask == 0 && self.ppustatus == 0 && self.oamaddr == 0
        &&& self.read_buffer == 0 && self.last_read == 0 && !self.clear_vblank
        &&& self.addr_v == 0 && self.addr_t == 0 && self.fine_x == 0 && !self.latch_w
        &&& self.fetch_addr == 0 && self.fetched_nametable == 0 && self.fetched_attribute_table == 0
        &&& self.fetched_bg_pattern_low == 0 && self.fetched_bg_pattern_high == 0
        &&& self.at_latch_l == 0 && self.at_latch_h == 0
        &&& self.bg_high_shift == 0 && self.bg_low_shift == 0 && self.at_shift_l == 0
            && self.at_shift_h == 0
        &&& self.secondary_oam_addr == 0 && self.oam_value_latch == 0 && !self.sprite_in_range
        &&& !self.sprite_evaluation_done && !self.sprite_zero_next_scanline
        &&& !self.sprite_zero_current_scanline && self.num_sprites == 0 && !self.perform_skip
    }

    /// The PPU at power-on: every register clear, and every memory zeroed.
    pub fn new() -> (ppu: PPU)
        ensures
            ppu.wf(),
            ppu.registers_clear(),
            forall|i: int| 0 <= i < 32 ==> ppu.cgram[i] == 0,
            forall|i: int| 0 <= i < 256 ==> ppu.oam[i] == 0,
            forall|i: int| 0 <= i < 32 ==> ppu.secondary_oam[i] == 0,
            forall|i: int|
                0 <= i < 8 ==> ppu.sprites[i] == (SpriteToRender {
                    x: 0,
                    low_pattern: 0,
                    high_pattern: 0,
                    attributes: 0,
                }),
    {
        let blank = SpriteToRender::blank();
        PPU {
            cgram: [0u8; 32],
            oam: [0u8; 256],
            ppuctrl: 0,
            ppumask: 0,
            ppustatus: 0,
            oamaddr: 0,
            latch_w: false,
            fetch_addr: 0,
            fetched_nametable: 0,
            fetched_attribute_table: 0,
            fetched_bg_pattern_low: 0,
            fetched_bg_pattern_high: 0,
            at_latch_l: 0,
            at_latch_h: 0,
            bg_high_shift: 0,
            read_buffer: 0,
            last_read: 0,
            clear_vblank: false,
            addr_v: 0,
            addr_t: 0,
            scanline: 0,
            dot: 0,
            odd_frame: false,
            fine_x: 0,
            bg_low_shift: 0,
            at_shift_l: 0,
            at_shift_h: 0,
            secondary_oam: [0u8; 32],
            secondary_oam_addr: 0,
            oam_value_latch: 0,
            sprite_in_range: false,
            sprite_evaluation_done: false,
            perform_skip: false,
            sprites: [blank; 8],
            sprite_zero_next_scanline: false,
            sprite_zero_current_scanline: false,
            num_sprites: 0,
        }
    }

    /// Clears the control and mask registers and the latch that drops a
    /// dot, and puts the beam at the start of an even frame. Memory and the
    /// other registers stay.
    pub fn reset(&mut self)
        requires
            old(self).wf(),
        ensures
            final(self).wf(),
            *final(self) == (PPU {
                ppuctrl: 0,
                ppumask: 0,
                scanline: 0,
                dot: 0,
                odd_frame: false,
                perform_skip: false,
                ..*old(self)
            }),
    {
        self.ppuctrl = 0;
        self.ppumask = 0;
        self.scanline = 0;
        self.dot = 0;
        self.odd_frame = false;
        self.perform_skip = false;
    }

    /// Whether the beam stands on the last dot of the frame.
    pub fn is_at_frame_end(&self) -> (b: bool)
        ensures
            b == self.at_frame_end(),
    {
        self.dot == 1 && self.scanline == VBLANK_SCANLINE
    }

    /// Whether the background or the sprites are switched on.
    pub fn is_rendering(&self) -> (b: bool)
        ensures
            b == self.rendering(),
    {
        self.ppumask & MASK_SHOW_BG != 0 || self.ppumask & MASK_SHOW_SPRITES != 0
    }

    /// Whether the beam is on a scanline that fetches tiles: a visible one
    /// or the pre-render one.
    pub fn is_rendering_scanline(&self) -> (b: bool)
        ensures
            b == (self.scanline < 240 || self.scanline == 261),
    {
        self.scanline < 240 || self.scanline == 261
    }

    /// Palette memory.
    pub fn cgram(&self) -> (ram: &[u8; 32])
        ensures
            *ram == self.cgram,
    {
        &self.cgram
    }

    /// Sprite memory.
    pub fn oam(&self) -> (ram: &[u8; 256])
        ensures
            *ram == self.oam,
    {
        &self.oam
    }

    /// The sprites picked for the next line.
    pub fn secondary_oam(&self) -> (ram: &[u8; 32])
        ensures
            *ram == self.secondary_oam,
    {
        &self.secondary_oam
    }

    /// The height of a sprite in lines: 8 or 16.
    pub fn get_sprite_size(&self) -> (size: u8)
        ensures
            size == self.sprite_size(),
    {
        if self.ppuctrl & CTRL_LARGE_SPRITES != 0 {
            16
        } else {
            8
        }
    }

    /// How far an access through `$2007` moves the address: 1 or 32.
    pub fn get_vram_increment(&self) -> (step: u16)
        ensures
            step == self.vram_increment(),
    {
        if self.ppuctrl & CTRL_VRAM_INC != 0 {
            32
        } else {
            1
        }
    }
}

} // verus!
