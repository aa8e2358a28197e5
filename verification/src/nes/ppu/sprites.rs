//! Sprite evaluation, which picks up to eight sprites for the next
//! scanline, and the fetch of their patterns.

use vstd::prelude::*;
use super::registers::fetch_events;
use super::{
    PPUHostAccess, PpuEvent, SpriteToRender, ATTR_FLIP_VERT, ATTR_IMPLEMENTED,
    CTRL_SPRITE_BANK_1000, PPU, STATUS_SPRITE_OVERFLOW,
};

verus! {

/// Whether a sprite whose first row is on scanline `y` has a row on
/// `scanline`, for sprites that are `size` rows high.
pub open spec fn in_range(scanline: u16, y: u8, size: u8) -> bool {
    scanline >= y && scanline < y + size
}

/// The address of the low pattern byte of the row of a sprite that falls on
/// `scanline`. A sprite of eight rows takes its tile from the pattern table
/// that `$2000` selects; one of sixteen rows takes two tiles in a row from
/// the table that bit 0 of the tile number selects. A sprite that is flipped
/// vertically is read from its last row up.
pub open spec fn sprite_row_address(ctrl: u8, size: u8, tile: u8, attributes: u8, y: u8, scanline: u16) -> u16 {
    let base: int = if size == 16 {
        (if tile % 2 == 1 {
            0x1000int
        } else {
            0
        }) + (tile - tile % 2) * 16
    } else {
        (if ctrl & CTRL_SPRITE_BANK_1000 != 0 {
            0x1000int
        } else {
            0
        }) + tile * 16
    };
    let row = ((scanline - y) % 0x10000) % (size as int);
    let row = if attributes & ATTR_FLIP_VERT != 0 {
        size - row - 1
    } else {
        row
    };
    (if row > 8 {
        base + 16 + (row - 8)
    } else {
        base + row
    }) as u16
}

/// Where the low pattern byte of one line of a sprite stands.
pub fn sprite_row_addr(ctrl: u8, size: u8, tile: u8, attributes: u8, y: u8, scanline: u16) -> (addr: u16)
    requires
        size == 8 || size == 16,
    ensures
        addr == sprite_row_address(ctrl, size, tile, attributes, y, scanline),
        addr < 0x2100,
{
    let addr: u16 = if size == 16 {
        let bank: u16 = if tile % 2 == 1 {
            0x1000
        } else {
            0x0000
        };
        let tileno = (tile - tile % 2) as u16 * 16;
        bank + tileno
    } else {
        let base: u16 = if ctrl & CTRL_SPRITE_BANK_1000 != 0 {
            0x1000
        } else {
            0x0000
        };
        base + tile as u16 * 16
    };
    let mut y_offset = scanline.wrapping_sub(y as u16) % size as u16;
    if attributes & ATTR_FLIP_VERT != 0 {
        y_offset = size as u16 - y_offset - 1;
    }
    if y_offset > 8 {
        addr + 16 + (y_offset - 8)
    } else {
        addr + y_offset
    }
}

impl PPU {
    /// The registers after a step of the evaluation, which an even dot from
    /// 66 to 256 makes with the sprite byte that the dot before has read.
    ///
    /// Until all 64 sprites have been looked at, the byte is first taken for
    /// the first row of a sprite. While there is room for a sprite, the byte
    /// is stored, and the other three bytes of a sprite in range follow it;
    /// after them, or after a sprite out of range, the next sprite is
    /// looked at. When eight sprites are stored, one more in range sets the
    /// overflow flag and ends the evaluation; one out of range moves on to
    /// the next sprite and, which the hardware should not do, to the next
    /// byte inside it as well. After the evaluation only the sprite number
    /// counts on.
    #[verifier::opaque]
    pub open spec fn after_evaluation_step(&self) -> PPU {
        let n = self.oamaddr / 4;
        let m = self.oamaddr % 4;
        let next_n = ((n + 1) % 64) as u8;
        let hit = self.sprite_in_range || in_range(
            self.scanline,
            self.oam_value_latch,
            self.sprite_size(),
        );
        let zero = if self.dot == 66 {
            hit
        } else {
            self.sprite_zero_next_scanline
        };
        if self.sprite_evaluation_done {
            PPU { oamaddr: (next_n * 4 + m) as u8, ..*self }
        } else if self.secondary_oam_addr < 0x20 {
            if hit {
                if m == 3 {
                    PPU {
                        oamaddr: (next_n * 4) as u8,
                        secondary_oam_addr: (self.secondary_oam_addr + 1) as u8,
                        sprite_in_range: false,
                        sprite_evaluation_done: next_n == 0,
                        sprite_zero_next_scanline: zero,
                        ..*self
                    }
                } else {
                    PPU {
                        oamaddr: (n * 4 + m + 1) as u8,
                        secondary_oam_addr: (self.secondary_oam_addr + 1) as u8,
                        sprite_in_range: true,
                        sprite_zero_next_scanline: zero,
                        ..*self
                    }
                }
            } else {
                PPU {
                    oamaddr: (next_n * 4 + m) as u8,
                    sprite_in_range: false,
                    sprite_evaluation_done: next_n == 0,
                    sprite_zero_next_scanline: zero,
                    ..*self
                }
            }
        } else if hit {
            PPU {
                ppustatus: self.ppustatus | STATUS_SPRITE_OVERFLOW,
                sprite_in_range: true,
                sprite_evaluation_done: true,
                sprite_zero_next_scanline: zero,
                ..*self
            }
        } else {
            PPU {
                oamaddr: (next_n * 4 + (m + 1) % 4) as u8,
                sprite_in_range: false,
                sprite_evaluation_done: next_n == 0,
                sprite_zero_next_scanline: zero,
                ..*self
            }
        }
    }

    /// The registers after the sprite evaluation's part of a dot from 1 to
    /// 256 of a visible scanline. Dot 65 starts the evaluation; from then on
    /// an odd dot reads the sprite byte at the sprite address and an even
    /// dot makes a step with it.
    #[verifier::opaque]
    pub open spec fn after_sprite_evaluation(&self) -> PPU {
        if self.dot < 65 {
            *self
        } else if self.dot == 65 {
            PPU {
                secondary_oam_addr: 0,
                sprite_in_range: false,
                sprite_evaluation_done: false,
                oam_value_latch: self.oam[self.oamaddr as int],
                ..*self
            }
        } else if self.dot % 2 == 1 {
            PPU { oam_value_latch: self.oam[self.oamaddr as int], ..*self }
        } else {
            self.after_evaluation_step()
        }
    }

    /// The sprites picked for the next scanline after the sprite
    /// evaluation's part of a dot from 1 to 256 of a visible scanline. The
    /// dots 1 to 64 fill the 32 bytes with `$FF`, one every other dot; a
    /// step of the evaluation stores its byte while there is room.
    #[verifier::opaque]
    pub open spec fn secondary_oam_after_evaluation(&self) -> Seq<u8> {
        if self.dot < 65 {
            self.secondary_oam@.update((self.dot - 1) / 2, 0xFF)
        } else if self.dot > 65 && self.dot % 2 == 0 && !self.sprite_evaluation_done
            && self.secondary_oam_addr < 0x20 {
            self.secondary_oam@.update(self.secondary_oam_addr as int, self.oam_value_latch)
        } else {
            self.secondary_oam@
        }
    }

    fn evaluation_step(&mut self)
        requires
            old(self).wf(),
            66 <= old(self).dot <= 256,
        ensures
            final(self).wf(),
            *final(self) == (PPU {
                secondary_oam: final(self).secondary_oam,
                ..old(self).after_evaluation_step()
            }),
            old(self).dot % 2 == 0 ==> final(self).secondary_oam@ == old(
                self,
            ).secondary_oam_after_evaluation(),
            final(self).cpu_side_kept(old(self)),
            final(self).beam_kept(old(self)),
            final(self).addr_v == old(self).addr_v,
    {
        reveal(PPU::after_evaluation_step);
        reveal(PPU::secondary_oam_after_evaluation);
        let mut secondary_oam_addr = self.secondary_oam_addr;
        let mut sprite_in_range = self.sprite_in_range;
        let mut n = self.oamaddr / 4;
        let mut m = self.oamaddr % 4;
        let value = self.oam_value_latch;
        if self.sprite_evaluation_done {
            // Attempt (and fail) to copy the next sprite, until the scanline ends
            n = (n + 1) % 64;
        } else {
            let scanline = self.scanline;
            if !sprite_in_range && scanline >= value as u16 && scanline < value as u16
                + self.get_sprite_size() as u16 {
                sprite_in_range = true;
            }
            if self.dot == 66 {
                self.sprite_zero_next_scanline = sprite_in_range;
            }
            if secondary_oam_addr < 0x20 {
                self.secondary_oam[secondary_oam_addr as usize] = value;

                if sprite_in_range {
                    // The Y coordinate is in range: the other bytes of the
                    // sprite follow
                    m = m + 1;
                    secondary_oam_addr = secondary_oam_addr + 1;

                    if m == 4 {
                        // We're done
                        sprite_in_range = false;
                        m = 0;
                        n = (n + 1) % 64;

                        // All 64 sprites evaluated
                        if n == 0 {
                            self.sprite_evaluation_done = true;
                        }
                    }
                } else {
                    // Go up a sprite
                    n = (n + 1) % 64;
                    if n == 0 {
                        self.sprite_evaluation_done = true;
                    }
                }
            } else {
                // secondary oam full
                if sprite_in_range {
                    // Overflow detected!
                    self.ppustatus = self.ppustatus | STATUS_SPRITE_OVERFLOW;
                    self.sprite_evaluation_done = true;
                } else {
                    // The m increment is a hardware bug - if only n was
                    // incremented, the overflow flag would be set whenever
                    // more than 8 sprites were present on the same scanline,
                    // as expected.
                    n = (n + 1) % 64;
                    if n == 0 {
                        self.sprite_evaluation_done = true;
                    }
                    m = (m + 1) % 4;
                }
            }
        }
        self.sprite_in_range = sprite_in_range;
        self.secondary_oam_addr = secondary_oam_addr;
        self.oamaddr = n * 4 + m;
    }

    /// The sprite evaluation's part of a dot from 1 to 256 of a visible
    /// scanline.
    pub fn perform_sprite_evaluation(&mut self)
        requires
            old(self).wf(),
            1 <= old(self).dot <= 256,
        ensures
            final(self).wf(),
            *final(self) == (PPU {
                secondary_oam: final(self).secondary_oam,
                ..old(self).after_sprite_evaluation()
            }),
            final(self).secondary_oam@ == old(self).secondary_oam_after_evaluation(),
            final(self).cpu_side_kept(old(self)),
            final(self).beam_kept(old(self)),
            final(self).addr_v == old(self).addr_v,
    {
        reveal(PPU::after_sprite_evaluation);
        reveal(PPU::secondary_oam_after_evaluation);
        let dot = self.dot;
        if dot < 65 {
            self.secondary_oam[((dot - 1) / 2) as usize] = 0xFF;
        } else if dot == 65 {
            // Let's initialise stuff here
            self.secondary_oam_addr = 0;
            self.sprite_in_range = false;
            self.sprite_evaluation_done = false;
            self.oam_value_latch = self.oam[self.oamaddr as usize];
        } else if dot % 2 == 1 {
            self.oam_value_latch = self.oam[self.oamaddr as usize];
        } else {
            self.evaluation_step();
        }
    }

    /// The sprite in unit `unit` after it has been given its place on the
    /// screen from the sprites that were picked for this scanline. A sprite
    /// whose first row is past the screen is an empty place and is not
    /// loaded.
    pub open spec fn loaded_sprite(&self, unit: int) -> SpriteToRender {
        let y = self.secondary_oam[unit * 4];
        if y < 240 {
            SpriteToRender {
                x: self.secondary_oam[unit * 4 + 3],
                attributes: self.secondary_oam[unit * 4 + 2] & ATTR_IMPLEMENTED,
                ..self.sprites[unit]
            }
        } else {
            self.sprites[unit]
        }
    }

    /// The registers after the dot, from 257 to 320 of a visible scanline,
    /// of the fetch of the sprites' patterns, when a read returned
    /// `fetched`. Each unit has eight dots: on the fifth it is given its
    /// sprite and the fetch address the row of the pattern, the sixth reads
    /// the low pattern byte, the seventh moves the address to the high one,
    /// the eighth reads that.
    #[verifier::opaque]
    pub open spec fn after_sprite_fetch(&self) -> PPU {
        let unit = (self.dot - 257) / 8;
        let step = (self.dot - 257) % 8;
        let y = self.secondary_oam[unit * 4];
        if step == 4 && y < 240 {
            PPU {
                fetch_addr: sprite_row_address(
                    self.ppuctrl,
                    self.sprite_size(),
                    self.secondary_oam[unit * 4 + 1],
                    self.secondary_oam[unit * 4 + 2] & ATTR_IMPLEMENTED,
                    y,
                    self.scanline,
                ),
                num_sprites: (unit + 1) as usize,
                ..*self
            }
        } else if step == 6 {
            PPU { fetch_addr: ((self.fetch_addr + 8) % 0x4000) as u16, ..*self }
        } else {
            *self
        }
    }

    /// The sprite units after the dot of the fetch of the sprites' patterns,
    /// when a read returned `fetched`.
    #[verifier::opaque]
    pub open spec fn sprites_after_fetch(&self, fetched: u8) -> Seq<SpriteToRender> {
        let unit = (self.dot - 257) / 8;
        let step = (self.dot - 257) % 8;
        if step == 4 {
            self.sprites@.update(unit, self.loaded_sprite(unit))
        } else if step == 5 {
            self.sprites@.update(unit, SpriteToRender { low_pattern: fetched, ..self.sprites[unit] })
        } else if step == 7 {
            self.sprites@.update(unit, SpriteToRender { high_pattern: fetched, ..self.sprites[unit] })
        } else {
            self.sprites@
        }
    }

    /// What the dot of the fetch of the sprites' patterns makes the PPU do
    /// to its host: a read on the sixth and on the eighth dot of a unit,
    /// unless the fetch address has strayed into palette memory.
    #[verifier::opaque]
    pub open spec fn sprite_fetch_events(&self, fetched: u8) -> Seq<PpuEvent> {
        let step = (self.dot - 257) % 8;
        if step == 5 || step == 7 {
            fetch_events(self.fetch_addr, fetched)
        } else {
            Seq::empty()
        }
    }

    fn load_sprite(&mut self, sprite_no: usize)
        requires
            old(self).wf(),
            257 <= old(self).dot <= 320,
            sprite_no == (old(self).dot - 257) / 8,
            (old(self).dot - 257) % 8 == 4,
        ensures
            final(self).wf(),
            *final(self) == (PPU { sprites: final(self).sprites, ..old(self).after_sprite_fetch() }),
            final(self).sprites@ == old(self).sprites_after_fetch(0),
            final(self).cpu_side_kept(old(self)),
            final(self).beam_kept(old(self)),
            final(self).addr_v == old(self).addr_v,
    {
        reveal(PPU::after_sprite_fetch);
        reveal(PPU::sprites_after_fetch);
        // Load data from secondary OAM
        let base = sprite_no * 4;
        let y = self.secondary_oam[base];
        let tile_index = self.secondary_oam[base + 1];
        let attributes = self.secondary_oam[base + 2] & ATTR_IMPLEMENTED;
        let x = self.secondary_oam[base + 3];
        if y < 240 {
            self.fetch_addr = sprite_row_addr(
                self.ppuctrl,
                self.get_sprite_size(),
                tile_index,
                attributes,
                y,
                self.scanline,
            );
            let mut sprite = self.sprites[sprite_no];
            sprite.x = x;
            sprite.attributes = attributes;
            self.sprites[sprite_no] = sprite;
            self.num_sprites = sprite_no + 1;
        }
        proof {
            assert(final(self).sprites@ =~= old(self).sprites_after_fetch(0));
        }
    }

    /// The fetch of the sprites' patterns: its part of a dot from 257 to 320
    /// of a visible scanline.
    pub fn fetch_sprites<P: PPUHostAccess>(&mut self, host: &mut P)
        requires
            old(self).wf(),
            old(host).wf(),
            257 <= old(self).dot <= 320,
        ensures
            final(self).wf(),
            final(host).wf(),
            *final(self) == (PPU { sprites: final(self).sprites, ..old(self).after_sprite_fetch() }),
            final(self).sprites@ == old(self).sprites_after_fetch(
                old(self).byte_at(old(host), old(self).fetch_addr),
            ),
            final(host).events() == old(host).events() + old(self).sprite_fetch_events(
                old(self).byte_at(old(host), old(self).fetch_addr),
            ),
            super::host_served(
                final(host),
                old(host),
                old(self).sprite_fetch_events(old(self).byte_at(old(host), old(self).fetch_addr)),
            ),
            super::quiet(
                old(self).sprite_fetch_events(old(self).byte_at(old(host), old(self).fetch_addr)),
            ),
            final(host).memory_kept(old(host)),
            final(self).cpu_side_kept(old(self)),
            final(self).beam_kept(old(self)),
            final(self).addr_v == old(self).addr_v,
    {
        reveal(PPU::after_sprite_fetch);
        reveal(PPU::sprites_after_fetch);
        reveal(PPU::sprite_fetch_events);
        proof {
            host.lemma_memory_kept_by_itself();
        }
        let s = self.dot - 257;
        let sprite_no = (s / 8) as usize;
        let step = s % 8;
        proof {
            if step != 5 && step != 7 {
                super::lemma_served_nothing(*host);
            }
        }
        if step == 4 {
            self.load_sprite(sprite_no);
        } else if step == 5 {
            let fetched = self.read(host, self.fetch_addr);
            let mut sprite = self.sprites[sprite_no];
            sprite.low_pattern = fetched;
            self.sprites[sprite_no] = sprite;
        } else if step == 6 {
            self.fetch_addr = (self.fetch_addr + 8) % 0x4000;
        } else if step == 7 {
            let fetched = self.read(host, self.fetch_addr);
            let mut sprite = self.sprites[sprite_no];
            sprite.high_pattern = fetched;
            self.sprites[sprite_no] = sprite;
        }
        proof {
            let fetched = old(self).byte_at(old(host), old(self).fetch_addr);
            assert(final(self).sprites@ =~= old(self).sprites_after_fetch(fetched));
            assert(final(host).events() =~= old(host).events() + old(self).sprite_fetch_events(
                fetched,
            ));
        }
    }
}

} // verus!
