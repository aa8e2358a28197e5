//! The pixel that leaves the PPU at each dot: background and sprites, and
//! which of them is in front.

use vstd::prelude::*;
use super::registers::PALETTE_BASE;
use super::{
    PPUHostAccess, PpuEvent, SpriteToRender, ATTR_FLIP_HORIZ, ATTR_PRIORITY_BEHIND,
    MASK_BG_LEFTMOST, MASK_SHOW_BG, MASK_SHOW_SPRITES, MASK_SPRITE_LEFTMOST, PPU,
    STATUS_SPRITE_0_HIT,
};
use crate::nes::palette::{get_rgb, rgb};

verus! {

/// Bit `n` of `value`, as 0 or 1.
pub open spec fn bit_of(value: u16, n: u16) -> u16 {
    (value >> n) & 1
}

/// Bit `n` of `value`, as 0 or 1.
pub fn bit(value: u16, n: u16) -> (b: u16)
    requires
        n < 16,
    ensures
        b == bit_of(value, n),
        b <= 1,
{
    let b = (value >> n) & 1;
    proof {
        assert((value >> n) & 1 <= 1) by (bit_vector);
    }
    b
}

/// The pixel that wins: a sprite pixel in front of the background, or over
/// a transparent background; else the background; and the backdrop, entry
/// 0, where both are transparent.
pub open spec fn mux(bg: u16, fg: u16, behind: bool) -> u16 {
    if fg != 0 && (bg == 0 || !behind) {
        fg
    } else {
        bg
    }
}

impl SpriteToRender {
    /// The two pattern bits of the sprite in column `x` of the screen, and
    /// zero where the sprite, which is eight pixels wide, does not reach.
    pub open spec fn pixel_at(self, x: u16) -> u16 {
        if self.x <= x && x < self.x + 8 {
            let offset = (x - self.x) as u16;
            let column = if self.attributes & ATTR_FLIP_HORIZ != 0 {
                offset
            } else {
                (7 - offset) as u16
            };
            (bit_of(self.high_pattern as u16, column) * 2 + bit_of(self.low_pattern as u16, column)) as u16
        } else {
            0
        }
    }

    /// The palette entry of a pixel of the sprite with pattern bits
    /// `pattern`: one of the four sprite palettes, which follow the four
    /// background palettes.
    pub open spec fn palette_entry(self, pattern: u16) -> u16 {
        ((self.attributes % 4) * 4 + pattern + 16) as u16
    }

    /// The two pattern bits that the sprite shows in column `x` of the line:
    /// 0 where it is transparent or does not reach.
    pub fn pixel(&self, x: u16) -> (pattern: u16)
        requires
            x < 256,
        ensures
            pattern == self.pixel_at(x),
            pattern <= 3,
    {
        let sprite_x = self.x as u16;
        if sprite_x <= x && x < sprite_x + 8 {
            let mut offset = x - sprite_x;
            if self.attributes & ATTR_FLIP_HORIZ != 0 {
                offset = 7 - offset;
            }
            bit(self.high_pattern as u16, 7 - offset) * 2 + bit(self.low_pattern as u16, 7 - offset)
        } else {
            0
        }
    }
}

/// The first of the sprites `from` to `n - 1` that has a pixel in column
/// `x`: the sprite with the lowest number is in front.
pub open spec fn front_sprite(sprites: Seq<SpriteToRender>, n: int, from: int, x: u16) -> Option<int>
    decreases n - from,
{
    if from >= n {
        None
    } else if sprites[from].pixel_at(x) != 0 {
        Some(from)
    } else {
        front_sprite(sprites, n, from + 1, x)
    }
}

/// The palette entry and the priority of the sprite layer given the sprite
/// in front; without one the layer is transparent.
pub open spec fn sprite_layer(sprites: Seq<SpriteToRender>, front: Option<int>, x: u16) -> (u16, bool) {
    match front {
        Some(i) => (
            sprites[i].palette_entry(sprites[i].pixel_at(x)),
            sprites[i].attributes & ATTR_PRIORITY_BEHIND != 0,
        ),
        None => (0, true),
    }
}

impl PPU {
    /// Whether the beam is at a dot that puts a pixel on the screen.
    pub open spec fn pixel_visible(&self) -> bool {
        self.scanline < 240 && 2 <= self.dot < 258
    }

    /// Whether the background is shown in column `x`.
    pub open spec fn background_on(&self, x: u16) -> bool {
        self.ppumask & MASK_SHOW_BG != 0 && !(self.ppumask & MASK_BG_LEFTMOST == 0 && x < 8)
    }

    /// Whether sprites are shown in column `x`. The first scanline shows
    /// none.
    pub open spec fn sprites_on(&self, x: u16) -> bool {
        self.scanline >= 1 && self.ppumask & MASK_SHOW_SPRITES != 0 && !(self.ppumask
            & MASK_SPRITE_LEFTMOST == 0 && x < 8)
    }

    /// The palette entry of the background in column `x`, 0 for a
    /// transparent pixel: the pattern bits that the fine X scroll selects
    /// from the shift registers, under the two attribute bits.
    pub open spec fn background_pixel(&self, x: u16) -> u16 {
        if self.background_on(x) {
            let high = (15 - self.fine_x) as u16;
            let low = (7 - self.fine_x) as u16;
            let pattern = (bit_of(self.bg_high_shift, high) * 2 + bit_of(self.bg_low_shift, high)) as u16;
            if pattern == 0 {
                0
            } else {
                (pattern + (bit_of(self.at_shift_h as u16, low) * 2 + bit_of(
                    self.at_shift_l as u16,
                    low,
                )) * 4) as u16
            }
        } else {
            0
        }
    }

    /// The palette entry and the priority of the sprites in column `x`.
    pub open spec fn sprite_pixel(&self, x: u16) -> (u16, bool) {
        if self.sprites_on(x) {
            sprite_layer(self.sprites@, front_sprite(self.sprites@, self.num_sprites as int, 0, x), x)
        } else {
            (0, true)
        }
    }

    /// Whether sprite 0 hits the background in column `x`: sprite 0 of the
    /// frame is in the first unit, it and the background both have a pixel
    /// that is shown there, and the column is not the last.
    pub open spec fn sprite_zero_hits(&self, x: u16) -> bool {
        &&& self.sprites_on(x)
        &&& self.sprite_zero_current_scanline
        &&& x != 255
        &&& self.background_pixel(x) != 0
        &&& self.num_sprites > 0
        &&& self.sprites[0].pixel_at(x) != 0
    }

    /// The palette entry that is shown in column `x`.
    pub open spec fn output_entry(&self, x: u16) -> u16 {
        mux(self.background_pixel(x), self.sprite_pixel(x).0, self.sprite_pixel(x).1)
    }

    /// The PPU after the dot's pixel: the sprite-0 flag is set on a hit,
    /// the pattern registers move one bit on, and the attribute registers
    /// take their latches in at the bottom.
    #[verifier::opaque]
    pub open spec fn after_pixel(&self) -> PPU {
        PPU {
            ppustatus: if self.pixel_visible() && self.sprite_zero_hits((self.dot - 2) as u16) {
                self.ppustatus | STATUS_SPRITE_0_HIT
            } else {
                self.ppustatus
            },
            bg_low_shift: self.bg_low_shift << 1,
            bg_high_shift: self.bg_high_shift << 1,
            at_shift_l: (self.at_shift_l << 1) | self.at_latch_l,
            at_shift_h: (self.at_shift_h << 1) | self.at_latch_h,
            ..*self
        }
    }

    /// What the dot's pixel makes the PPU do to its host: show one pixel,
    /// if the beam is on the screen.
    #[verifier::opaque]
    pub open spec fn pixel_events(&self) -> Seq<PpuEvent> {
        if self.pixel_visible() {
            let x = (self.dot - 2) as u16;
            let colour = rgb(self.palette_byte((0x3F00 + self.output_entry(x)) as u16));
            seq![
                PpuEvent::Pixel {
                    row: self.scanline,
                    col: x,
                    r: colour.0,
                    g: colour.1,
                    b: colour.2,
                },
            ]
        } else {
            Seq::empty()
        }
    }

    fn background(&self, x: u16) -> (entry: u16)
        requires
            self.wf(),
        ensures
            entry == self.background_pixel(x),
            entry <= 15,
    {
        if self.ppumask & MASK_SHOW_BG != 0 && !(self.ppumask & MASK_BG_LEFTMOST == 0 && x < 8) {
            let fx = self.fine_x as u16;
            let pattern = bit(self.bg_high_shift, 15 - fx) * 2 + bit(self.bg_low_shift, 15 - fx);
            // No pattern means the backdrop, whatever the attribute says
            if pattern == 0 {
                0
            } else {
                pattern + (bit(self.at_shift_h as u16, 7 - fx) * 2 + bit(
                    self.at_shift_l as u16,
                    7 - fx,
                )) * 4
            }
        } else {
            0
        }
    }

    fn foreground(&self, x: u16) -> (layer: (u16, bool))
        requires
            self.wf(),
            x < 256,
        ensures
            layer == self.sprite_pixel(x),
            layer.0 <= 31,
    {
        if self.scanline >= 1 && self.ppumask & MASK_SHOW_SPRITES != 0 && !(self.ppumask
            & MASK_SPRITE_LEFTMOST == 0 && x < 8) {
            let mut palette: u16 = 0;
            let mut prio_behind = true;
            let mut i: usize = self.num_sprites;
            while i > 0
                invariant
                    i <= self.num_sprites <= 8,
                    x < 256,
                    palette <= 31,
                    (palette, prio_behind) == sprite_layer(
                        self.sprites@,
                        front_sprite(self.sprites@, self.num_sprites as int, i as int, x),
                        x,
                    ),
                decreases i,
            {
                i = i - 1;
                let sprite = self.sprites[i];
                let pattern = sprite.pixel(x);
                if pattern != 0 {
                    palette = (sprite.attributes % 4) as u16 * 4 + pattern + 16;
                    prio_behind = sprite.attributes & ATTR_PRIORITY_BEHIND != 0;
                }
            }
            (palette, prio_behind)
        } else {
            (0, true)
        }
    }

    fn hits_sprite_zero(&self, x: u16, bg_palette: u16) -> (hit: bool)
        requires
            self.wf(),
            x < 256,
            bg_palette == self.background_pixel(x),
        ensures
            hit == self.sprite_zero_hits(x),
    {
        self.scanline >= 1 && self.ppumask & MASK_SHOW_SPRITES != 0 && !(self.ppumask
            & MASK_SPRITE_LEFTMOST == 0 && x < 8) && self.sprite_zero_current_scanline && x != 255
            && bg_palette != 0 && self.num_sprites > 0 && self.sprites[0].pixel(x) != 0
    }

    /// Outputs a pixel to the screen and moves the shift registers on.
    pub fn pixel<P: PPUHostAccess>(&mut self, host: &mut P)
        requires
            old(self).wf(),
            old(host).wf(),
        ensures
            final(self).wf(),
            final(host).wf(),
            *final(self) == old(self).after_pixel(),
            final(host).events() == old(host).events() + old(self).pixel_events(),
            super::host_served(final(host), old(host), old(self).pixel_events()),
            super::quiet(old(self).pixel_events()),
            final(self).cpu_side_kept(old(self)),
            final(self).beam_kept(old(self)),
            final(self).addr_v == old(self).addr_v,
            final(self).fetch_addr == old(self).fetch_addr,
            final(host).memory_kept(old(host)),
    {
        reveal(PPU::after_pixel);
        reveal(PPU::pixel_events);
        proof {
            host.lemma_memory_kept_by_itself();
        }
        // The first pixel is on the screen at dot 2
        if self.scanline < 240 && self.dot >= 2 && self.dot < 258 {
            let x = self.dot - 2;
            let bg_palette = self.background(x);
            let (fg_palette, priority_behind) = self.foreground(x);
            let hit = self.hits_sprite_zero(x, bg_palette);

            let palette_index = if fg_palette != 0 && (bg_palette == 0 || !priority_behind) {
                fg_palette
            } else {
                bg_palette
            };
            let entry = self.read(host, PALETTE_BASE + palette_index);
            let (r, g, b) = get_rgb(entry);
            let ghost read = *host;
            proof {
                super::lemma_served_none(
                    read,
                    *old(host),
                    super::registers::fetch_events((PALETTE_BASE + palette_index) as u16, entry),
                );
            }
            host.ppu_set_pixel(self.scanline, x, r, g, b);
            proof {
                host.lemma_memory_kept_through(&read, old(host));
            }
            if hit {
                self.ppustatus = self.ppustatus | STATUS_SPRITE_0_HIT;
            }
        }
        self.bg_low_shift = self.bg_low_shift << 1;
        self.bg_high_shift = self.bg_high_shift << 1;
        self.at_shift_l = (self.at_shift_l << 1) | self.at_latch_l;
        self.at_shift_h = (self.at_shift_h << 1) | self.at_latch_h;
        proof {
            assert(final(host).events() =~= old(host).events() + old(self).pixel_events());
            super::lemma_served_at_most_one(*final(host), *old(host), old(self).pixel_events());
        }
    }

    /// Reloads the low halves of the pattern registers and the attribute
    /// latches from what was fetched for the next tile.
    pub fn reload_bg_shift(&mut self)
        requires
            old(self).wf(),
        ensures
            final(self).wf(),
            *final(self) == (PPU {
                bg_low_shift: ((old(self).bg_low_shift / 256) * 256
                    + old(self).fetched_bg_pattern_low) as u16,
                bg_high_shift: ((old(self).bg_high_shift / 256) * 256
                    + old(self).fetched_bg_pattern_high) as u16,
                at_latch_l: old(self).fetched_attribute_table % 2,
                at_latch_h: (old(self).fetched_attribute_table / 2) % 2,
                ..*old(self)
            }),
    {
        self.bg_low_shift = (self.bg_low_shift / 256) * 256 + self.fetched_bg_pattern_low as u16;
        self.bg_high_shift = (self.bg_high_shift / 256) * 256 + self.fetched_bg_pattern_high as u16;

        let at = self.fetched_attribute_table;
        self.at_latch_l = at % 2;
        self.at_latch_h = (at / 2) % 2;
    }
}

/// The sprite-0 flag is set by a pixel only where the beam is on the screen,
/// but not in its last column, sprite 0 of the frame is in the first sprite
/// unit, and both that sprite and the background have an opaque pixel there
/// that is shown.
pub proof fn lemma_sprite_zero_hit(ppu: PPU)
    requires
        ppu.ppustatus & STATUS_SPRITE_0_HIT == 0,
        ppu.after_pixel().ppustatus & STATUS_SPRITE_0_HIT != 0,
    ensures
        ppu.pixel_visible(),
        ppu.dot - 2 != 255,
        ppu.sprite_zero_current_scanline,
        ppu.num_sprites > 0,
        ppu.sprites[0].pixel_at((ppu.dot - 2) as u16) != 0,
        ppu.background_pixel((ppu.dot - 2) as u16) != 0,
        ppu.sprites_on((ppu.dot - 2) as u16),
        ppu.background_on((ppu.dot - 2) as u16),
{
    reveal(PPU::after_pixel);
}

} // verus!
