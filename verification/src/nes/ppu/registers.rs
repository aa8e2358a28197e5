//! The eight registers through which the CPU reaches the PPU, and the PPU's
//! own view of its address space.

use vstd::prelude::*;
use super::scroll::{
    coarse_x, coarse_y, fine_y, make_scroll_address, nametable, scroll_address, scroll_fields,
};
use super::{
    host_served, lemma_served_at_most_one, lemma_served_none, lemma_served_nothing,
    PPUHostAccess, PpuEvent, ATTR_IMPLEMENTED, CTRL_NMI, MASK_GREYSCALE, PPU, STATUS_VBLANK,
};

verus! {

/// The first address of palette memory.
pub const PALETTE_BASE: u16 = 0x3F00;

/// The size of the PPU's address space.
pub const ADDRESS_SPACE: u16 = 0x4000;

/// The place in palette memory of entry `idx` (0 to 31): the entries
/// `$10`, `$14`, `$18` and `$1C` are the entries `$00`, `$04`, `$08` and
/// `$0C` again.
pub open spec fn palette_cell(idx: int) -> int {
    if idx == 0x10 || idx == 0x14 || idx == 0x18 || idx == 0x1C {
        idx - 0x10
    } else {
        idx
    }
}

/// The place in palette memory that the address `addr` names, for an
/// address that falls into `$3F00`-`$3FFF`.
pub open spec fn palette_cell_of(addr: u16) -> int {
    palette_cell(((addr % 0x4000 - 0x3F00) % 32) as int)
}

/// Whether the address `addr` names palette memory, which lies inside the
/// PPU, rather than memory on the host's side.
pub open spec fn in_palette(addr: u16) -> bool {
    addr % 0x4000 >= 0x3F00
}

/// What a read of the PPU's address space at `addr` that returned `value`
/// makes the PPU do to its host: a read, unless the address names palette
/// memory.
pub open spec fn fetch_events(addr: u16, value: u8) -> Seq<PpuEvent> {
    if in_palette(addr) {
        Seq::empty()
    } else {
        seq![PpuEvent::Read { addr: (addr % 0x4000) as u16, value }]
    }
}

impl PPU {
    /// The byte that a read of the palette entry at `addr` gives: with the
    /// greyscale bit set only its bits 4 and 5.
    pub open spec fn palette_byte(&self, addr: u16) -> u8 {
        if self.ppumask & MASK_GREYSCALE != 0 {
            self.cgram[palette_cell_of(addr)] & 0x30
        } else {
            self.cgram[palette_cell_of(addr)]
        }
    }

    /// The byte that a read of the PPU's address space at `addr` gives while
    /// `host` holds the memory outside the PPU.
    pub open spec fn byte_at<P: PPUHostAccess>(&self, host: &P, addr: u16) -> u8 {
        if in_palette(addr) {
            self.palette_byte(addr)
        } else {
            host.byte((addr % 0x4000) as u16)
        }
    }

    /// The cell of palette memory behind the low five bits of an address:
    /// `$10`, `$14`, `$18` and `$1C` share their cells with `$00`, `$04`,
    /// `$08` and `$0C`.
    pub fn cgram_mirror_idx(idx: u16) -> (cell: usize)
        requires
            idx < 32,
        ensures
            cell == palette_cell(idx as int),
            cell < 32,
    {
        if idx == 0x10 || idx == 0x14 || idx == 0x18 || idx == 0x1C {
            idx as usize - 0x10
        } else {
            idx as usize
        }
    }

    /// Reads the PPU's address space, which repeats every `$4000`: palette
    /// memory from the PPU itself, everything else from the host.
    pub fn read<P: PPUHostAccess>(&self, host: &mut P, addr: u16) -> (value: u8)
        requires
            old(host).wf(),
        ensures
            final(host).wf(),
            final(host).events() == old(host).events() + fetch_events(addr, value),
            host_served(final(host), old(host), fetch_events(addr, value)),
            final(host).memory_kept(old(host)),
            value == self.byte_at(old(host), addr),
    {
        proof {
            host.lemma_memory_kept_by_itself();
        }
        let ghost before = host.events();
        let addr = addr % ADDRESS_SPACE;
        if addr < PALETTE_BASE {
            let value = host.ppu_read(addr);
            proof {
                assert(host.events() =~= before + fetch_events(addr, value));
                lemma_served_at_most_one(*host, *old(host), fetch_events(addr, value));
            }
            value
        } else {
            proof {
                assert(host.events() =~= before + fetch_events(addr, 0));
                lemma_served_nothing(*host);
            }
            let idx = (addr - PALETTE_BASE) % 32;

            // Greyscale is done here on read
            if self.ppumask & MASK_GREYSCALE != 0 {
                self.cgram[Self::cgram_mirror_idx(idx)] & 0x30
            } else {
                self.cgram[Self::cgram_mirror_idx(idx)]
            }
        }
    }

    /// Writes the PPU's address space: palette memory in the PPU itself,
    /// everything else on the host's side.
    pub fn write<P: PPUHostAccess>(&mut self, host: &mut P, addr: u16, value: u8)
        requires
            old(host).wf(),
        ensures
            final(host).wf(),
            *final(self) == (PPU { cgram: final(self).cgram, ..*old(self) }),
            in_palette(addr) ==> final(host).events() == old(host).events() && final(self).cgram@
                == old(self).cgram@.update(palette_cell_of(addr), value),
            !in_palette(addr) ==> final(self).cgram == old(self).cgram && final(host).events() == old(
                host,
            ).events().push(PpuEvent::Write { addr: (addr % 0x4000) as u16, value })
                && final(host).served(
                old(host),
                PpuEvent::Write { addr: (addr % 0x4000) as u16, value },
            ),
            in_palette(addr) ==> *final(host) == *old(host),
    {
        let addr = addr % ADDRESS_SPACE;
        if addr < PALETTE_BASE {
            host.ppu_write(addr, value)
        } else {
            let idx = (addr - PALETTE_BASE) % 32;
            self.cgram[Self::cgram_mirror_idx(idx)] = value;
        }
    }

    /// Whether a write of `value` to `$2000` raises the NMI: it switches
    /// the NMI on while the vertical-blank flag is set, but not at the very
    /// dot at which the flag is about to be cleared.
    pub open spec fn ctrl_write_triggers_nmi(&self, value: u8) -> bool {
        &&& self.ppuctrl & CTRL_NMI == 0
        &&& value & CTRL_NMI != 0
        &&& self.ppustatus & STATUS_VBLANK != 0
        &&& !(self.scanline == 261 && self.dot == 1)
    }

    /// Whether a write of `value` to `$2000` takes an NMI back: it switches
    /// the NMI off right after the vertical-blank flag was set.
    pub open spec fn ctrl_write_suppresses_nmi(&self, value: u8) -> bool {
        &&& self.ppuctrl & CTRL_NMI != 0
        &&& value & CTRL_NMI == 0
        &&& self.scanline == 241
        &&& (self.dot == 2 || self.dot == 3)
    }

    /// Whether a write to `$2004` is dropped: with rendering on, on a
    /// scanline that fetches tiles, a visible one or the pre-render one.
    pub open spec fn oam_write_dropped(&self) -> bool {
        self.rendering() && (self.scanline < 240 || self.scanline == 261)
    }

    /// What a write of `value` to register `reg` makes the PPU do to its
    /// host.
    pub open spec fn reg_write_events(&self, reg: u8, value: u8) -> Seq<PpuEvent> {
        if reg == 0 && self.ctrl_write_triggers_nmi(value) {
            seq![PpuEvent::TriggerNmi]
        } else if reg == 0 && self.ctrl_write_suppresses_nmi(value) {
            seq![PpuEvent::SuppressNmi]
        } else if reg == 7 && !in_palette(self.addr_v) {
            seq![PpuEvent::Write { addr: (self.addr_v % 0x4000) as u16, value }]
        } else {
            Seq::empty()
        }
    }

    /// The PPU after a write of `value` to register `reg`, but for what the
    /// write does to sprite and palette memory.
    ///
    /// `$2000` sets the nametable bits of `t`. `$2005` sets, in turn, the
    /// column and the fine X scroll, then the row and the fine Y scroll.
    /// `$2006` sets, in turn, the high six bits of `t`, clearing bit 14,
    /// then the low eight, and copies `t` to `v`. `$2007` moves `v` on by
    /// the step that `$2000` selects. Every write leaves its byte on the
    /// data bus.
    pub open spec fn registers_after_write(&self, reg: u8, value: u8) -> PPU {
        let t = self.addr_t;
        let seen = PPU { last_read: value, ..*self };
        if reg == 0 {
            PPU {
                ppuctrl: value,
                addr_t: scroll_address(fine_y(t), (value % 4) as int, coarse_y(t), coarse_x(t)),
                ..seen
            }
        } else if reg == 1 {
            PPU { ppumask: value, ..seen }
        } else if reg == 3 {
            PPU { oamaddr: value, ..seen }
        } else if reg == 4 {
            if self.oam_write_dropped() {
                seen
            } else {
                PPU { oamaddr: ((self.oamaddr + 1) % 256) as u8, ..seen }
            }
        } else if reg == 5 {
            if self.latch_w {
                PPU {
                    addr_t: scroll_address(
                        (value % 8) as int,
                        nametable(t),
                        (value / 8) as int,
                        coarse_x(t),
                    ),
                    latch_w: false,
                    ..seen
                }
            } else {
                PPU {
                    addr_t: scroll_address(
                        fine_y(t),
                        nametable(t),
                        coarse_y(t),
                        (value / 8) as int,
                    ),
                    fine_x: value % 8,
                    latch_w: true,
                    ..seen
                }
            }
        } else if reg == 6 {
            if self.latch_w {
                PPU {
                    addr_t: ((t / 256) * 256 + value) as u16,
                    addr_v: ((t / 256) * 256 + value) as u16,
                    latch_w: false,
                    ..seen
                }
            } else {
                PPU { addr_t: ((value % 64) * 256 + t % 256) as u16, latch_w: true, ..seen }
            }
        } else if reg == 7 {
            PPU { addr_v: ((self.addr_v + self.vram_increment()) % 0x8000) as u16, ..seen }
        } else {
            seen
        }
    }

    /// Sprite memory after a write of `value` to register `reg`: `$2004`
    /// stores the byte at the sprite address, unless the write is dropped.
    pub open spec fn oam_after_write(&self, reg: u8, value: u8) -> Seq<u8> {
        if reg == 4 && !self.oam_write_dropped() {
            self.oam@.update(self.oamaddr as int, value)
        } else {
            self.oam@
        }
    }

    /// Palette memory after a write of `value` to register `reg`: `$2007`
    /// stores the byte where `v` points, if that is in palette memory.
    pub open spec fn cgram_after_write(&self, reg: u8, value: u8) -> Seq<u8> {
        if reg == 7 && in_palette(self.addr_v) {
            self.cgram@.update(palette_cell_of(self.addr_v), value)
        } else {
            self.cgram@
        }
    }

    fn write_ctrl<P: PPUHostAccess>(&mut self, host: &mut P, value: u8)
        requires
            old(self).wf(),
            old(host).wf(),
        ensures
            final(self).wf(),
            final(host).wf(),
            final(host).events() == old(host).events() + old(self).reg_write_events(0, value),
            host_served(final(host), old(host), old(self).reg_write_events(0, value)),
            *final(self) == old(self).registers_after_write(0, value),
    {
        let old_ctrl = self.ppuctrl;
        self.last_read = value;
        self.ppuctrl = value;

        // Trigger an NMI if toggling in VBLANK without reading $2002
        if old_ctrl & CTRL_NMI == 0 && value & CTRL_NMI != 0 && self.ppustatus & STATUS_VBLANK != 0
            && !(self.scanline == 261 && self.dot == 1) {
            host.ppu_trigger_nmi();
        } else if old_ctrl & CTRL_NMI != 0 && value & CTRL_NMI == 0 && self.scanline == 241 && (
        self.dot == 2 || self.dot == 3) {
            host.ppu_suppress_nmi();
        }
        // t: ...BA.. ........ = d: ......BA
        let (fy, _, cy, cx) = scroll_fields(self.addr_t);
        self.addr_t = make_scroll_address(fy, (value % 4) as u16, cy, cx);
        proof {
            assert(final(host).events() =~= old(host).events() + old(self).reg_write_events(0, value));
            lemma_served_at_most_one(*final(host), *old(host), old(self).reg_write_events(0, value));
        }
    }

    fn write_scroll(&mut self, value: u8)
        requires
            old(self).wf(),
        ensures
            final(self).wf(),
            *final(self) == old(self).registers_after_write(5, value),
    {
        self.last_read = value;
        let (fy, nt, cy, cx) = scroll_fields(self.addr_t);
        if self.latch_w {
            // t: CBA..HG FED..... = d: HGFEDCBA
            self.addr_t = make_scroll_address((value % 8) as u16, nt, (value / 8) as u16, cx);
            // w:                  = 0
            self.latch_w = false;
        } else {
            // t: ....... ...HGFED = d: HGFED...
            self.addr_t = make_scroll_address(fy, nt, cy, (value / 8) as u16);
            // x:              CBA = d: .....CBA
            self.fine_x = value % 8;
            // w:                  = 1
            self.latch_w = true;
        }
    }

    fn write_addr(&mut self, value: u8)
        requires
            old(self).wf(),
        ensures
            final(self).wf(),
            *final(self) == old(self).registers_after_write(6, value),
    {
        self.last_read = value;
        let t = self.addr_t;
        if self.latch_w {
            // t: ....... HGFEDCBA = d: HGFEDCBA
            let new_t = (t / 256) * 256 + value as u16;
            self.addr_t = new_t;
            // v                   = t
            self.addr_v = new_t;
            // w:                  = 0
            self.latch_w = false;
        } else {
            // t: .FEDCBA ........ = d: ..FEDCBA
            // t: X...... ........ = 0
            self.addr_t = (value as u16 % 64) * 256 + t % 256;
            // w:                  = 1
            self.latch_w = true;
        }
    }

    fn write_oam_data(&mut self, value: u8)
        requires
            old(self).wf(),
        ensures
            final(self).wf(),
            *final(self) == (PPU { oam: final(self).oam, ..old(self).registers_after_write(4, value) }),
            final(self).oam@ == old(self).oam_after_write(4, value),
    {
        self.last_read = value;
        if !(self.is_rendering() && self.is_rendering_scanline()) {
            let oamaddr = self.oamaddr;
            self.oam[oamaddr as usize] = value;
            self.oamaddr = oamaddr.wrapping_add(1);
        }
    }

    fn write_data<P: PPUHostAccess>(&mut self, host: &mut P, value: u8)
        requires
            old(self).wf(),
            old(host).wf(),
        ensures
            final(self).wf(),
            final(host).wf(),
            final(host).events() == old(host).events() + old(self).reg_write_events(7, value),
            host_served(final(host), old(host), old(self).reg_write_events(7, value)),
            *final(self) == (PPU {
                cgram: final(self).cgram,
                ..old(self).registers_after_write(7, value)
            }),
            final(self).cgram@ == old(self).cgram_after_write(7, value),
    {
        self.last_read = value;
        let v = self.addr_v;
        let incr = self.get_vram_increment();
        self.write(host, v, value);
        self.addr_v = (v + incr) % 0x8000;
        proof {
            assert(final(host).events() =~= old(host).events() + old(self).reg_write_events(7, value));
            lemma_served_at_most_one(*final(host), *old(host), old(self).reg_write_events(7, value));
        }
    }

    /// A write of `value` to register `reg`, which is the CPU's address
    /// modulo 8.
    pub fn reg_write<P: PPUHostAccess>(&mut self, host: &mut P, reg: u8, value: u8)
        requires
            old(self).wf(),
            old(host).wf(),
            reg < 8,
        ensures
            final(self).wf(),
            final(host).wf(),
            final(host).events() == old(host).events() + old(self).reg_write_events(reg, value),
            host_served(final(host), old(host), old(self).reg_write_events(reg, value)),
            *final(self) == (PPU {
                oam: final(self).oam,
                cgram: final(self).cgram,
                ..old(self).registers_after_write(reg, value)
            }),
            final(self).oam@ == old(self).oam_after_write(reg, value),
            final(self).cgram@ == old(self).cgram_after_write(reg, value),
    {
        if reg == 0 {
            self.write_ctrl(host, value);
        } else if reg == 1 {
            self.last_read = value;
            self.ppumask = value;
        } else if reg == 3 {
            self.last_read = value;
            self.oamaddr = value;
        } else if reg == 4 {
            self.write_oam_data(value);
        } else if reg == 5 {
            self.write_scroll(value);
        } else if reg == 6 {
            self.write_addr(value);
        } else if reg == 7 {
            self.write_data(host, value);
        } else {
            self.last_read = value;
        }
        proof {
            assert(final(host).events() =~= old(host).events() + old(self).reg_write_events(reg, value));
            if reg != 0 && reg != 7 {
                lemma_served_nothing(*final(host));
            }
        }
    }

    /// Whether a read of `$2002` takes an NMI back: right after the
    /// vertical-blank flag was set.
    pub open spec fn status_read_suppresses_nmi(&self) -> bool {
        self.scanline == 241 && (self.dot == 2 || self.dot == 3)
    }

    /// The byte that a read of register `reg` returns. `$2002` gives the
    /// three status flags over the low five bits that were last on the data
    /// bus; `$2004` the sprite byte at the sprite address, of a sprite's
    /// attribute byte only the bits that exist; `$2007` palette memory at
    /// once and everything else from the buffer that the read before it
    /// filled; the write-only registers give what was last on the data bus.
    pub open spec fn reg_read_value(&self, reg: u8) -> u8 {
        if reg == 2 {
            (self.last_read & 0x1F) | self.ppustatus
        } else if reg == 4 {
            if self.oamaddr % 4 == 2 {
                self.oam[self.oamaddr as int] & ATTR_IMPLEMENTED
            } else {
                self.oam[self.oamaddr as int]
            }
        } else if reg == 7 {
            if in_palette(self.addr_v) {
                self.palette_byte(self.addr_v)
            } else {
                self.read_buffer
            }
        } else {
            self.last_read
        }
    }

    /// What a read of register `reg` makes the PPU do to its host, when a
    /// read of `$2007` fetched `fetched`. That fetch goes to the host for
    /// an address in palette memory too.
    pub open spec fn reg_read_events(&self, reg: u8, fetched: u8) -> Seq<PpuEvent> {
        if reg == 2 && self.status_read_suppresses_nmi() {
            seq![PpuEvent::SuppressNmi]
        } else if reg == 7 {
            seq![PpuEvent::Read { addr: (self.addr_v % 0x4000) as u16, value: fetched }]
        } else {
            Seq::empty()
        }
    }

    /// The PPU after a read of register `reg`, when a read of `$2007`
    /// fetched `fetched`. `$2002` asks for the vertical-blank flag to be
    /// cleared at the end of the next dot and resets the write toggle;
    /// `$2007` fills the buffer and moves `v` on. What was read stays on the
    /// data bus.
    pub open spec fn after_reg_read(&self, reg: u8, fetched: u8) -> PPU {
        let seen = PPU { last_read: self.reg_read_value(reg), ..*self };
        if reg == 2 {
            PPU { clear_vblank: true, latch_w: false, ..seen }
        } else if reg == 7 {
            PPU {
                read_buffer: fetched,
                addr_v: ((self.addr_v % 0x4000 + self.vram_increment()) % 0x8000) as u16,
                ..seen
            }
        } else {
            seen
        }
    }

    fn read_status<P: PPUHostAccess>(&mut self, host: &mut P) -> (value: u8)
        requires
            old(self).wf(),
            old(host).wf(),
        ensures
            final(self).wf(),
            final(host).wf(),
            value == old(self).reg_read_value(2),
            final(host).events() == old(host).events() + old(self).reg_read_events(2, 0),
            host_served(final(host), old(host), old(self).reg_read_events(2, 0)),
            *final(self) == old(self).after_reg_read(2, 0),
    {
        let n = (self.last_read & 0x1F) | self.ppustatus;
        self.clear_vblank = true;
        if self.scanline == 241 && (self.dot == 2 || self.dot == 3) {
            host.ppu_suppress_nmi();
        }
        self.latch_w = false;
        self.last_read = n;
        proof {
            assert(final(host).events() =~= old(host).events() + old(self).reg_read_events(2, 0));
            lemma_served_at_most_one(*final(host), *old(host), old(self).reg_read_events(2, 0));
        }
        n
    }

    fn read_data<P: PPUHostAccess>(&mut self, host: &mut P) -> (value: u8)
        requires
            old(self).wf(),
            old(host).wf(),
        ensures
            final(self).wf(),
            final(host).wf(),
            value == old(self).reg_read_value(7),
            final(host).events() == old(host).events() + old(self).reg_read_events(
                7,
                final(self).read_buffer,
            ),
            host_served(
                final(host),
                old(host),
                old(self).reg_read_events(7, final(self).read_buffer),
            ),
            *final(self) == old(self).after_reg_read(7, final(self).read_buffer),
            final(self).read_buffer == old(host).byte((old(self).addr_v % 0x4000) as u16),
    {
        let v = self.addr_v % ADDRESS_SPACE;
        let n = if v < PALETTE_BASE {
            self.read_buffer
        } else {
            self.read(host, v)
        };
        proof {
            if v >= PALETTE_BASE {
                lemma_served_none(*host, *old(host), fetch_events(v, n));
            }
        }

        // The buffer gets what is on the address lines, which for palette
        // memory is the nametable underneath it.
        let fetched = host.ppu_read(v);
        self.read_buffer = fetched;

        let incr = self.get_vram_increment();
        self.addr_v = (v + incr) % 0x8000;
        self.last_read = n;
        proof {
            assert(final(host).events() =~= old(host).events() + old(self).reg_read_events(7, fetched));
            lemma_served_at_most_one(*final(host), *old(host), old(self).reg_read_events(7, fetched));
        }
        n
    }

    /// A read of register `reg`, which is the CPU's address modulo 8.
    pub fn reg_read<P: PPUHostAccess>(&mut self, host: &mut P, reg: u8) -> (value: u8)
        requires
            old(self).wf(),
            old(host).wf(),
            reg < 8,
        ensures
            final(self).wf(),
            final(host).wf(),
            value == old(self).reg_read_value(reg),
            final(host).events() == old(host).events() + old(self).reg_read_events(
                reg,
                final(self).read_buffer,
            ),
            host_served(
                final(host),
                old(host),
                old(self).reg_read_events(reg, final(self).read_buffer),
            ),
            *final(self) == old(self).after_reg_read(reg, final(self).read_buffer),
            reg == 7 ==> final(self).read_buffer == old(host).byte(
                (old(self).addr_v % 0x4000) as u16,
            ),
    {
        if reg == 2 {
            self.read_status(host)
        } else if reg == 4 {
            let addr = self.oamaddr;
            let v = self.oam[addr as usize];
            // The three unimplemented bits of each sprite's byte 2 do not
            // exist in the PPU and always read back as 0.
            let v = if addr % 4 == 2 {
                v & ATTR_IMPLEMENTED
            } else {
                v
            };
            self.last_read = v;
            proof {
                assert(final(host).events() =~= old(host).events() + old(self).reg_read_events(
                    reg,
                    self.read_buffer,
                ));
                lemma_served_nothing(*final(host));
            }
            v
        } else if reg == 7 {
            self.read_data(host)
        } else {
            proof {
                assert(final(host).events() =~= old(host).events() + old(self).reg_read_events(
                    reg,
                    self.read_buffer,
                ));
                lemma_served_nothing(*final(host));
            }
            self.last_read
        }
    }
}

/// The palette entries `$10`, `$14`, `$18` and `$1C` are the entries `$00`,
/// `$04`, `$08` and `$0C`: the one address reads and writes what the other
/// does.
pub proof fn lemma_palette_mirrors(k: int)
    requires
        0 <= k < 4,
    ensures
        palette_cell_of((0x3F10 + 4 * k) as u16) == palette_cell_of((0x3F00 + 4 * k) as u16),
        palette_cell_of((0x3F00 + 4 * k) as u16) == 4 * k,
{
}

/// A byte that is written to palette memory through one address is read
/// back through every address that names the same entry, as long as the
/// greyscale bit is clear.
pub proof fn lemma_palette_round_trip(before: PPU, after: PPU, written: u16, read: u16, value: u8)
    requires
        in_palette(written),
        in_palette(read),
        palette_cell_of(written) == palette_cell_of(read),
        after.cgram@ == before.cgram@.update(palette_cell_of(written), value),
        after.ppumask & MASK_GREYSCALE == 0,
    ensures
        after.palette_byte(read) == value,
{
}

/// The first write to `$2006` sets the high byte of `t` to the low six bits
/// of the byte written, and the write toggle.
pub proof fn lemma_first_address_write(ppu: PPU, high: u8)
    requires
        !ppu.latch_w,
    ensures
        ppu.registers_after_write(6, high).latch_w,
        ppu.registers_after_write(6, high).addr_t == (high % 64) * 256 + ppu.addr_t % 256,
        ppu.registers_after_write(6, high).addr_t / 256 == high % 64,
        ppu.registers_after_write(6, high).ppuctrl == ppu.ppuctrl,
        ppu.registers_after_write(6, high).cgram == ppu.cgram,
{
}

/// The second write to `$2006` sets the low byte of `t`, copies `t` to `v`
/// and clears the write toggle.
pub proof fn lemma_second_address_write(ppu: PPU, low: u8)
    requires
        ppu.latch_w,
        ppu.addr_t < 0x8000,
    ensures
        !ppu.registers_after_write(6, low).latch_w,
        ppu.registers_after_write(6, low).addr_v == (ppu.addr_t / 256) * 256 + low,
        ppu.registers_after_write(6, low).addr_t == ppu.registers_after_write(6, low).addr_v,
        ppu.registers_after_write(6, low).ppuctrl == ppu.ppuctrl,
        ppu.registers_after_write(6, low).cgram == ppu.cgram,
{
}

/// A write to `$2007` stores its byte where `v` points, in the PPU's address
/// space of `$4000` bytes, and moves `v` on by the step that `$2000`
/// selects, wrapping after fifteen bits.
pub proof fn lemma_data_write(ppu: PPU, value: u8)
    ensures
        !in_palette(ppu.addr_v) ==> ppu.reg_write_events(7, value) == seq![
            PpuEvent::Write { addr: (ppu.addr_v % 0x4000) as u16, value },
        ] && ppu.cgram_after_write(7, value) == ppu.cgram@,
        in_palette(ppu.addr_v) ==> ppu.reg_write_events(7, value) == Seq::<PpuEvent>::empty()
            && ppu.cgram_after_write(7, value) == ppu.cgram@.update(
            palette_cell_of(ppu.addr_v),
            value,
        ),
        ppu.registers_after_write(7, value).addr_v == (ppu.addr_v + ppu.vram_increment()) % 0x8000,
        ppu.registers_after_write(7, value).latch_w == ppu.latch_w,
        ppu.registers_after_write(7, value).ppuctrl == ppu.ppuctrl,
{
}

/// Two writes to `$2006` set `v` to the low six bits of the first byte over
/// the second byte, and leave the write toggle clear, so that the writes to
/// `$2007` that follow start there.
pub proof fn lemma_address_then_data(ppu: PPU, high: u8, low: u8)
    requires
        !ppu.latch_w,
    ensures
        ({
            let addressed = ppu.registers_after_write(6, high).registers_after_write(6, low);
            &&& addressed.addr_v == (high % 64) * 256 + low
            &&& !addressed.latch_w
            &&& addressed.vram_increment() == ppu.vram_increment()
        }),
{
    let first = ppu.registers_after_write(6, high);
    lemma_first_address_write(ppu, high);
    lemma_second_address_write(first, low);
}

/// An access to a register leaves the beam where it is, and does not touch
/// the latch that drops a dot of the odd frame.
pub proof fn lemma_registers_keep_beam(ppu: PPU, reg: u8, value: u8)
    ensures
        ppu.registers_after_write(reg, value).dot == ppu.dot,
        ppu.registers_after_write(reg, value).scanline == ppu.scanline,
        ppu.registers_after_write(reg, value).odd_frame == ppu.odd_frame,
        ppu.registers_after_write(reg, value).perform_skip == ppu.perform_skip,
        ppu.after_reg_read(reg, value).dot == ppu.dot,
        ppu.after_reg_read(reg, value).scanline == ppu.scanline,
        ppu.after_reg_read(reg, value).odd_frame == ppu.odd_frame,
        ppu.after_reg_read(reg, value).perform_skip == ppu.perform_skip,
{
}

} // verus!
