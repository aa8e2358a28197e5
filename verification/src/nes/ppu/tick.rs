//! One dot of the PPU: the sprite pipeline, the background pipeline, the
//! vertical-blank flag, and the move of the beam.

use vstd::prelude::*;
use super::registers::fetch_events;
use super::scroll::{
    attribute_address, attribute_quadrant, below, right_of, scroll_fields, tile_address,
    with_horizontal_of, with_vertical_of,
};
use super::{
    host_served, lemma_quiet_signal, lemma_served_at_most_one, lemma_served_in_turn,
    lemma_served_nothing, lemma_signal_of_concat, quiet, signal_of, PPUHostAccess, PpuEvent,
    CTRL_NMI, PPU, STATUS_SPRITE_OVERFLOW, STATUS_VBLANK,
};

verus! {

/// The three flags that the pre-render scanline clears at dot 1: vertical
/// blank, sprite-0 hit and sprite overflow.
pub const STATUS_FRAME_FLAGS: u8 = 0xE0;

impl PPU {
    /// Whether the beam is on a scanline that fetches tiles: a visible one or
    /// the pre-render one.
    pub open spec fn on_render_line(&self) -> bool {
        self.scanline < 240 || self.scanline == 261
    }

    /// Whether the dot is one of those that put out a pixel and make a step
    /// of the eight-dot fetch cycle.
    pub open spec fn in_fetch_cycle(&self) -> bool {
        2 <= self.dot <= 255 || 322 <= self.dot <= 337
    }

    /// Whether the dot reads from the host on the background's side: the
    /// second dot of each pair of the fetch cycle, dot 256, and the two reads
    /// at the end of the scanline whose bytes are not used.
    pub open spec fn background_reads(&self) -> bool {
        ||| self.in_fetch_cycle() && self.dot % 2 == 0
        ||| self.dot == 256
        ||| self.dot == 338
        ||| self.dot == 340
    }

    /// The PPU with the pattern registers' low halves and the attribute
    /// latches reloaded from what was fetched for the next tile.
    pub open spec fn reloaded(&self) -> PPU {
        PPU {
            bg_low_shift: ((self.bg_low_shift / 256) * 256 + self.fetched_bg_pattern_low) as u16,
            bg_high_shift: ((self.bg_high_shift / 256) * 256 + self.fetched_bg_pattern_high) as u16,
            at_latch_l: self.fetched_attribute_table % 2,
            at_latch_h: (self.fetched_attribute_table / 2) % 2,
            ..*self
        }
    }

    /// The PPU with `v` replaced, if rendering is on.
    pub open spec fn scrolled_to(&self, v: u16) -> PPU {
        PPU {
            addr_v: if self.rendering() {
                v
            } else {
                self.addr_v
            },
            ..*self
        }
    }

    /// The PPU after a step of the eight-dot fetch cycle, when a read
    /// returned `fetched`. The cycle fetches, two dots each, the nametable
    /// byte, the attribute byte, the low and the high pattern byte of the
    /// tile that `v` points at; its first dot reloads the shift registers,
    /// and its last moves `v` one tile to the right.
    #[verifier::opaque]
    pub open spec fn after_fetch_step(&self, fetched: u8) -> PPU {
        let step = self.dot % 8;
        if step == 1 {
            PPU { fetch_addr: tile_address(self.addr_v), ..self.reloaded() }
        } else if step == 2 {
            PPU { fetched_nametable: fetched, ..*self }
        } else if step == 3 {
            PPU { fetch_addr: attribute_address(self.addr_v), ..*self }
        } else if step == 4 {
            PPU { fetched_attribute_table: attribute_quadrant(fetched, self.addr_v), ..*self }
        } else if step == 5 {
            PPU { fetch_addr: self.pattern_address(), ..*self }
        } else if step == 6 {
            PPU { fetched_bg_pattern_low: fetched, ..*self }
        } else if step == 7 {
            PPU { fetch_addr: ((self.fetch_addr + 8) % 0x4000) as u16, ..*self }
        } else {
            PPU { fetched_bg_pattern_high: fetched, ..*self }.scrolled_to(right_of(self.addr_v))
        }
    }

    /// The status flags after the pre-render scanline has cleared what it
    /// clears: the vertical-blank, sprite-0 and overflow flags, all three at
    /// dot 1.
    pub open spec fn status_after_pre_render(&self) -> u8 {
        if self.scanline == 261 && self.dot == 1 {
            self.ppustatus & !STATUS_FRAME_FLAGS
        } else {
            self.ppustatus
        }
    }

    /// The PPU after the background has drawn its dot, when a read returned
    /// `fetched`.
    ///
    /// Dots 1 and 321 start a fetch cycle; dots 2 to 255 and 322 to 337 put
    /// out a pixel and make a step of it. Dot 256 ends the last cycle and
    /// moves `v` one row down; dot 257 reloads the shift registers and
    /// takes the horizontal part of `t`; dots 280 to 304 of the pre-render
    /// scanline take the vertical part.
    #[verifier::opaque]
    pub open spec fn after_draw_dot(&self, fetched: u8) -> PPU {
        if self.dot == 1 || self.dot == 321 {
            PPU { fetch_addr: tile_address(self.addr_v), ..*self }
        } else if self.in_fetch_cycle() {
            self.after_pixel().after_fetch_step(fetched)
        } else if self.dot == 256 {
            PPU { fetched_bg_pattern_high: fetched, ..self.after_pixel() }.scrolled_to(
                below(self.addr_v),
            )
        } else if self.dot == 257 {
            self.after_pixel().reloaded().scrolled_to(with_horizontal_of(self.addr_v, self.addr_t))
        } else if 280 <= self.dot <= 304 && self.scanline == 261 {
            self.scrolled_to(with_vertical_of(self.addr_v, self.addr_t))
        } else {
            *self
        }
    }

    /// What the background's drawing of its dot makes the PPU do to its
    /// host, when a read returned `fetched`: the pixel, then the read.
    #[verifier::opaque]
    pub open spec fn draw_dot_events(&self, fetched: u8) -> Seq<PpuEvent> {
        (if self.in_fetch_cycle() || self.dot == 256 || self.dot == 257 {
            self.pixel_events()
        } else {
            Seq::empty()
        }) + (if self.background_reads() {
            fetch_events(self.fetch_addr, fetched)
        } else {
            Seq::empty()
        })
    }

    /// The PPU with the flags cleared that the pre-render scanline clears.
    pub open spec fn pre_render_cleared(&self) -> PPU {
        PPU { ppustatus: self.status_after_pre_render(), ..*self }
    }

    /// The PPU after the end of the background's part of a dot that started
    /// at dot `dot` with the odd frame's skip armed or not: dots 257 to 320
    /// hold the sprite address at zero; on the pre-render scanline of an odd
    /// frame, with rendering on at dot 338, the skip is armed, and dot 339 is
    /// then the last of the scanline.
    #[verifier::opaque]
    pub open spec fn after_dot_end(&self, skip_armed: bool) -> PPU {
        let held = if 257 <= self.dot <= 320 {
            PPU { oamaddr: 0, ..*self }
        } else {
            *self
        };
        if self.scanline == 261 && self.dot == 338 && self.rendering() && self.odd_frame {
            PPU { perform_skip: true, ..held }
        } else if self.scanline == 261 && self.dot == 339 && skip_armed {
            PPU { dot: 340, perform_skip: false, ..held }
        } else {
            held
        }
    }

    /// The PPU after the background's part of a dot on a scanline that
    /// fetches tiles, when a read returned `fetched`: the pre-render
    /// scanline clears its flags, the dot is drawn, and the end of the
    /// background's part follows.
    pub open spec fn after_background_dot(&self, fetched: u8) -> PPU {
        self.pre_render_cleared().after_draw_dot(fetched).after_dot_end(self.perform_skip)
    }

    /// What the background's part of a dot makes the PPU do to its host,
    /// when a read returned `fetched`.
    pub open spec fn background_dot_events(&self, fetched: u8) -> Seq<PpuEvent> {
        self.pre_render_cleared().draw_dot_events(fetched)
    }

    /// Whether the dot sets the vertical-blank flag: dot 1 of scanline 241,
    /// unless a read of `$2002` has just asked for the flag to be cleared.
    pub open spec fn vblank_starts(&self) -> bool {
        self.scanline == 241 && self.dot == 1 && !self.clear_vblank
    }

    /// Whether the dot raises the NMI: it sets the vertical-blank flag while
    /// `$2000` has the NMI switched on.
    pub open spec fn raises_nmi(&self) -> bool {
        self.vblank_starts() && self.ppuctrl & CTRL_NMI != 0
    }

    /// What the start of the vertical blank makes the PPU do to its host.
    pub open spec fn vblank_events(&self) -> Seq<PpuEvent> {
        if self.raises_nmi() {
            seq![PpuEvent::TriggerNmi]
        } else {
            Seq::empty()
        }
    }

    /// The beam after the dot: one dot on, from the last dot of a scanline to
    /// the next scanline, and from the last scanline to the first of the
    /// next frame, which is odd if this one is even.
    pub open spec fn moved_on(&self) -> PPU {
        if self.dot < 340 {
            PPU { dot: (self.dot + 1) as u16, ..*self }
        } else if self.scanline < 261 {
            PPU { dot: 0, scanline: (self.scanline + 1) as u16, ..*self }
        } else {
            PPU { dot: 0, scanline: 0, odd_frame: !self.odd_frame, ..*self }
        }
    }

    /// The PPU after the end of a dot: the vertical-blank flag is set where
    /// the vertical blank starts and cleared where a read of `$2002` asked
    /// for it, and the beam moves on.
    #[verifier::opaque]
    pub open spec fn after_beam(&self) -> PPU {
        let started = if self.vblank_starts() {
            self.ppustatus | STATUS_VBLANK
        } else {
            self.ppustatus
        };
        PPU {
            ppustatus: if self.clear_vblank {
                started & !STATUS_VBLANK
            } else {
                started
            },
            clear_vblank: false,
            ..*self
        }.moved_on()
    }

    /// Whether `self` is the PPU `before` after the sprites' part of a dot,
    /// when a read returned `fetched`. With rendering on, dot 257 empties
    /// the sprite units; on a visible scanline the dots 1 to 256 pick the
    /// sprites of the next scanline, the dots 257 to 320 load them, and dot
    /// 321 notes whether sprite 0 is among them.
    #[verifier::opaque]
    pub open spec fn sprites_done(&self, before: &PPU, fetched: u8) -> bool {
        let start = before.units_emptied();
        if before.rendering() && before.scanline <= 239 {
            if 1 <= before.dot <= 256 {
                &&& *self == (PPU {
                    secondary_oam: self.secondary_oam,
                    ..start.after_sprite_evaluation()
                })
                &&& self.secondary_oam@ == start.secondary_oam_after_evaluation()
            } else if 257 <= before.dot <= 320 {
                &&& *self == (PPU { sprites: self.sprites, ..start.after_sprite_fetch() })
                &&& self.sprites@ == start.sprites_after_fetch(fetched)
            } else if before.dot == 321 {
                *self == (PPU {
                    sprite_zero_current_scanline: start.sprite_zero_next_scanline,
                    ..start
                })
            } else {
                *self == start
            }
        } else {
            *self == start
        }
    }

    /// The PPU with its sprite units emptied, which dot 257 does where
    /// rendering is on.
    pub open spec fn units_emptied(&self) -> PPU {
        if self.rendering() && self.dot == 257 {
            PPU { num_sprites: 0, ..*self }
        } else {
            *self
        }
    }

    /// What the sprites' part of a dot makes the PPU do to its host, when a
    /// read returned `fetched`.
    #[verifier::opaque]
    pub open spec fn sprite_dot_events(&self, fetched: u8) -> Seq<PpuEvent> {
        if self.rendering() && self.scanline <= 239 && 257 <= self.dot <= 320 {
            self.units_emptied().sprite_fetch_events(fetched)
        } else {
            Seq::empty()
        }
    }

    /// The byte that a read at the fetch address gives while `host` holds
    /// the memory outside the PPU.
    pub open spec fn fetched<P: PPUHostAccess>(&self, host: &P) -> u8 {
        self.byte_at(host, self.fetch_addr)
    }

    /// Whether `self` is the PPU `before` one dot later, with `host` holding
    /// the memory outside the PPU, and `added` what the dot made the PPU do
    /// to its host. The sprites' part comes first, the background's follows
    /// on a scanline that fetches tiles, and the end of the dot comes last;
    /// a part that reads, reads at the fetch address that it finds.
    pub open spec fn ticked<P: PPUHostAccess>(
        &self,
        before: &PPU,
        host: &P,
        added: Seq<PpuEvent>,
    ) -> bool {
        exists|mid: PPU|
            {
                &&& #[trigger] mid.sprites_done(before, before.fetched(host))
                &&& *self == mid.drawn(mid.fetched(host)).after_beam()
                &&& added == before.sprite_dot_events(before.fetched(host)) + (
                if mid.on_render_line() {
                    mid.background_dot_events(mid.fetched(host))
                } else {
                    Seq::empty()
                }) + mid.drawn(mid.fetched(host)).vblank_events()
            }
    }

    /// The PPU after the background's part of a dot, if the scanline has
    /// one.
    pub open spec fn drawn(&self, tile_byte: u8) -> PPU {
        if self.on_render_line() {
            self.after_background_dot(tile_byte)
        } else {
            *self
        }
    }

    /// The scanline, the dot and the frame's parity after a dot: the beam
    /// moves one dot on, and two where the odd frame drops a dot.
    pub open spec fn beam_after(&self) -> (u16, u16, bool) {
        if self.dot == 340 || (self.scanline == 261 && self.dot == 339 && self.perform_skip) {
            if self.scanline == 261 {
                (0, 0, !self.odd_frame)
            } else {
                ((self.scanline + 1) as u16, 0, self.odd_frame)
            }
        } else {
            (self.scanline, (self.dot + 1) as u16, self.odd_frame)
        }
    }

    /// Whether the registers and memories that only the CPU changes are
    /// those of `before`.
    pub open spec fn cpu_side_kept(&self, before: &PPU) -> bool {
        &&& self.cgram == before.cgram
        &&& self.oam == before.oam
        &&& self.ppuctrl == before.ppuctrl
        &&& self.ppumask == before.ppumask
        &&& self.addr_t == before.addr_t
        &&& self.fine_x == before.fine_x
        &&& self.latch_w == before.latch_w
        &&& self.read_buffer == before.read_buffer
        &&& self.last_read == before.last_read
    }

    /// Whether the beam and the latches that steer the end of a dot are
    /// those of `before`.
    pub open spec fn beam_kept(&self, before: &PPU) -> bool {
        &&& self.dot == before.dot
        &&& self.scanline == before.scanline
        &&& self.odd_frame == before.odd_frame
        &&& self.perform_skip == before.perform_skip
        &&& self.clear_vblank == before.clear_vblank
    }

    /// The part of a dot that the sprites take.
    fn sprite_dot<P: PPUHostAccess>(&mut self, host: &mut P) -> (fetched: Ghost<u8>)
        requires
            old(self).wf(),
            old(host).wf(),
        ensures
            final(self).wf(),
            final(host).wf(),
            fetched@ == old(self).byte_at(old(host), old(self).fetch_addr),
            final(self).sprites_done(old(self), fetched@),
            final(host).events() == old(host).events() + old(self).sprite_dot_events(fetched@),
            host_served(final(host), old(host), old(self).sprite_dot_events(fetched@)),
            quiet(old(self).sprite_dot_events(fetched@)),
            final(host).memory_kept(old(host)),
            final(self).cpu_side_kept(old(self)),
            final(self).beam_kept(old(self)),
            final(self).addr_v == old(self).addr_v,
            !old(self).rendering() ==> *final(self) == *old(self),
    {
        reveal(PPU::sprites_done);
        reveal(PPU::sprite_dot_events);
        proof {
            host.lemma_memory_kept_by_itself();
            lemma_served_nothing(*host);
        }
        // Sprite evaluation and loading - only on visible scanlines
        if self.is_rendering() && self.dot == 257 {
            self.num_sprites = 0;
        }
        let fetched: Ghost<u8> = Ghost(self.byte_at(host, self.fetch_addr));
        if self.is_rendering() && self.scanline <= 239 {
            if 1 <= self.dot && self.dot <= 256 {
                self.perform_sprite_evaluation();
            } else if 257 <= self.dot && self.dot <= 320 {
                self.fetch_sprites(host);
            } else if self.dot == 321 {
                self.sprite_zero_current_scanline = self.sprite_zero_next_scanline;
            }
        }
        proof {
            assert(host.events() =~= old(host).events() + old(self).sprite_dot_events(fetched@));
        }
        fetched
    }

    /// A step of the eight-dot fetch cycle.
    fn fetch_step<P: PPUHostAccess>(&mut self, host: &mut P) -> (fetched: Ghost<u8>)
        requires
            old(self).wf(),
            old(host).wf(),
        ensures
            final(self).wf(),
            final(host).wf(),
            fetched@ == old(self).byte_at(old(host), old(self).fetch_addr),
            *final(self) == old(self).after_fetch_step(fetched@),
            final(host).events() == old(host).events() + (if old(self).dot % 2 == 0 {
                fetch_events(old(self).fetch_addr, fetched@)
            } else {
                Seq::empty()
            }),
            host_served(
                final(host),
                old(host),
                if old(self).dot % 2 == 0 {
                    fetch_events(old(self).fetch_addr, fetched@)
                } else {
                    Seq::empty()
                },
            ),
            final(host).memory_kept(old(host)),
            final(self).cpu_side_kept(old(self)),
            final(self).beam_kept(old(self)),
            !old(self).rendering() ==> final(self).addr_v == old(self).addr_v,
    {
        reveal(PPU::after_fetch_step);
        proof {
            host.lemma_memory_kept_by_itself();
            lemma_served_nothing(*host);
        }
        let step = self.dot % 8;
        let mut fetched: Ghost<u8> = Ghost(self.byte_at(host, self.fetch_addr));
        if step == 1 {
            // NT byte 1
            self.fetch_addr = self.nt_addr();
            self.reload_bg_shift();
        } else if step == 2 {
            // NT byte 2
            let value = self.read(host, self.fetch_addr);
            self.fetched_nametable = value;
            fetched = Ghost(value);
        } else if step == 3 {
            // AT byte 1
            self.fetch_addr = self.at_addr();
        } else if step == 4 {
            // AT byte 2
            let mut at = self.read(host, self.fetch_addr);
            fetched = Ghost(at);
            let (_, _, cy, cx) = scroll_fields(self.addr_v);
            if cy % 4 >= 2 {
                // bit 1 of coarse y
                at = at / 16;
            }
            if cx % 4 >= 2 {
                // bit 1 of coarse x
                at = at / 4;
            }
            self.fetched_attribute_table = at;
        } else if step == 5 {
            // Low bg tile byte 1
            self.fetch_addr = self.bg_addr();
        } else if step == 6 {
            // Low bg tile byte 2
            let value = self.read(host, self.fetch_addr);
            self.fetched_bg_pattern_low = value;
            fetched = Ghost(value);
        } else if step == 7 {
            // High bg tile byte 1
            self.fetch_addr = (self.fetch_addr + 8) % 0x4000;
        } else {
            // High bg tile byte 2
            let value = self.read(host, self.fetch_addr);
            self.fetched_bg_pattern_high = value;
            fetched = Ghost(value);
            self.h_scroll();
        }
        proof {
            assert(host.events() =~= old(host).events() + (if old(self).dot % 2 == 0 {
                fetch_events(old(self).fetch_addr, fetched@)
            } else {
                Seq::empty()
            }));
        }
        fetched
    }

    /// What the background does with its dot, before the sprite address is
    /// held and the odd frame's dot is dropped.
    fn draw_dot<P: PPUHostAccess>(&mut self, host: &mut P) -> (fetched: Ghost<u8>)
        requires
            old(self).wf(),
            old(host).wf(),
            old(self).on_render_line(),
        ensures
            final(self).wf(),
            final(host).wf(),
            final(self).dot == old(self).dot,
            final(self).scanline == old(self).scanline,
            final(self).perform_skip == old(self).perform_skip,
            final(self).odd_frame == old(self).odd_frame,
            final(self).clear_vblank == old(self).clear_vblank,
            final(self).cpu_side_kept(old(self)),
            !old(self).rendering() ==> final(self).addr_v == old(self).addr_v,
            quiet(old(self).draw_dot_events(fetched@)),
            final(host).memory_kept(old(host)),
            fetched@ == old(self).byte_at(old(host), old(self).fetch_addr),
            *final(self) == old(self).after_draw_dot(fetched@),
            final(host).events() == old(host).events() + old(self).draw_dot_events(fetched@),
            host_served(final(host), old(host), old(self).draw_dot_events(fetched@)),
    {
        reveal(PPU::after_draw_dot);
        reveal(PPU::draw_dot_events);
        proof {
            host.lemma_memory_kept_by_itself();
            lemma_served_nothing(*host);
        }
        let dot = self.dot;
        let mut fetched: Ghost<u8> = Ghost(self.byte_at(host, self.fetch_addr));
        if dot == 1 || dot == 321 {
            // "NT byte 1" without shift reloading
            self.fetch_addr = self.nt_addr();
        } else if (2 <= dot && dot <= 255) || (322 <= dot && dot <= 337) {
            self.pixel(host);
            let ghost shown = *host;
            fetched = self.fetch_step(host);
            proof {
                host.lemma_memory_kept_through(&shown, old(host));
                shown.lemma_memory_kept_bytes(old(host), (old(self).fetch_addr % 0x4000) as u16);
                lemma_served_in_turn(
                    *host,
                    shown,
                    *old(host),
                    old(self).pixel_events(),
                    if old(self).dot % 2 == 0 {
                        fetch_events(old(self).fetch_addr, fetched@)
                    } else {
                        Seq::empty()
                    },
                );
            }
        } else if dot == 256 {
            self.pixel(host);
            let ghost shown = *host;
            let value = self.read(host, self.fetch_addr);
            proof {
                host.lemma_memory_kept_through(&shown, old(host));
                shown.lemma_memory_kept_bytes(old(host), (old(self).fetch_addr % 0x4000) as u16);
                lemma_served_in_turn(
                    *host,
                    shown,
                    *old(host),
                    old(self).pixel_events(),
                    fetch_events(old(self).fetch_addr, value),
                );
            }
            self.fetched_bg_pattern_high = value;
            fetched = Ghost(value);
            self.v_scroll();
        } else if dot == 257 {
            self.pixel(host);
            proof {
                assert(old(self).pixel_events() + Seq::<PpuEvent>::empty() =~= old(self).pixel_events());
            }
            self.reload_bg_shift();
            self.h_update();
        } else if 280 <= dot && dot <= 304 && self.scanline == 261 {
            self.v_update();
        } else if dot == 338 || dot == 340 {
            let value = self.read(host, self.fetch_addr);
            fetched = Ghost(value);
        }
        proof {
            assert(host.events() =~= old(host).events() + old(self).draw_dot_events(fetched@));
        }
        fetched
    }

    /// The part of a dot that the background takes, on a scanline that
    /// fetches tiles.
    fn background_dot<P: PPUHostAccess>(&mut self, host: &mut P) -> (fetched: Ghost<u8>)
        requires
            old(self).wf(),
            old(host).wf(),
            old(self).on_render_line(),
        ensures
            final(self).wf(),
            final(host).wf(),
            fetched@ == old(self).byte_at(old(host), old(self).fetch_addr),
            *final(self) == old(self).after_background_dot(fetched@),
            final(self).perform_skip ==> final(self).dot == 338,
            final(host).events() == old(host).events() + old(self).background_dot_events(fetched@),
            host_served(final(host), old(host), old(self).background_dot_events(fetched@)),
            quiet(old(self).background_dot_events(fetched@)),
            final(host).memory_kept(old(host)),
            final(self).cpu_side_kept(old(self)),
            final(self).scanline == old(self).scanline,
            final(self).odd_frame == old(self).odd_frame,
            final(self).clear_vblank == old(self).clear_vblank,
            final(self).dot == if old(self).scanline == 261 && old(self).dot == 339 && old(
                self,
            ).perform_skip {
                340u16
            } else {
                old(self).dot
            },
            !old(self).rendering() ==> final(self).addr_v == old(self).addr_v,
            257 <= old(self).dot <= 320 ==> final(self).oamaddr == 0,
    {
        let dot = self.dot;
        let skip_armed = self.perform_skip;
        if self.scanline == 261 && dot == 1 {
            // Clear vblank, sprite-0 hit and overflow
            self.ppustatus = self.ppustatus & !STATUS_FRAME_FLAGS;
        }
        assert(*self == old(self).pre_render_cleared());
        // Background processing
        let fetched = self.draw_dot(host);
        self.end_background_dot(skip_armed);
        fetched
    }

    /// The end of the background's part of a dot.
    fn end_background_dot(&mut self, skip_armed: bool)
        requires
            old(self).wf(),
            skip_armed == old(self).perform_skip,
        ensures
            final(self).wf(),
            final(self).perform_skip ==> final(self).dot == 338,
            *final(self) == old(self).after_dot_end(skip_armed),
            final(self).cpu_side_kept(old(self)),
            final(self).addr_v == old(self).addr_v,
            final(self).scanline == old(self).scanline,
            final(self).odd_frame == old(self).odd_frame,
            final(self).clear_vblank == old(self).clear_vblank,
            final(self).dot == if old(self).scanline == 261 && old(self).dot == 339 && skip_armed {
                340u16
            } else {
                old(self).dot
            },
            257 <= old(self).dot <= 320 ==> final(self).oamaddr == 0,
    {
        reveal(PPU::after_dot_end);
        let dot = self.dot;
        if 257 <= dot && dot <= 320 {
            self.oamaddr = 0;
        }
        if self.scanline == 261 && dot == 338 && self.is_rendering() && self.odd_frame {
            self.perform_skip = true;
        } else if self.scanline == 261 && dot == 339 && skip_armed {
            self.dot = dot + 1;
            self.perform_skip = false;
        }
    }

    /// The end of a dot.
    fn end_dot<P: PPUHostAccess>(&mut self, host: &mut P)
        requires
            old(self).wf(),
            old(host).wf(),
            old(self).perform_skip ==> old(self).dot == 338,
        ensures
            final(self).wf(),
            final(host).wf(),
            *final(self) == old(self).after_beam(),
            final(host).events() == old(host).events() + old(self).vblank_events(),
            host_served(final(host), old(host), old(self).vblank_events()),
            final(host).memory_kept(old(host)),
            final(self).cpu_side_kept(old(self)),
            final(self).addr_v == old(self).addr_v,
            final(self).oamaddr == old(self).oamaddr,
            final(self).perform_skip == old(self).perform_skip,
            !final(self).clear_vblank,
            (final(self).scanline, final(self).dot, final(self).odd_frame) == if old(self).dot < 340 {
                (old(self).scanline, (old(self).dot + 1) as u16, old(self).odd_frame)
            } else if old(self).scanline < 261 {
                ((old(self).scanline + 1) as u16, 0u16, old(self).odd_frame)
            } else {
                (0u16, 0u16, !old(self).odd_frame)
            },
    {
        reveal(PPU::after_beam);
        proof {
            host.lemma_memory_kept_by_itself();
        }
        // Set vblank in 241
        if self.scanline == 241 && self.dot == 1 && !self.clear_vblank {
            self.ppustatus = self.ppustatus | STATUS_VBLANK;
            if self.ppuctrl & CTRL_NMI != 0 {
                host.ppu_trigger_nmi();
            }
        }
        // Clear the vblank
        if self.clear_vblank {
            self.ppustatus = self.ppustatus & !STATUS_VBLANK;
            self.clear_vblank = false;
        }
        let dot = self.dot + 1;
        if dot > 340 {
            self.dot = 0;
            let scanline = self.scanline + 1;
            if scanline > 261 {
                self.scanline = 0;
                self.odd_frame = !self.odd_frame;
            } else {
                self.scanline = scanline;
            }
        } else {
            self.dot = dot;
        }
        proof {
            assert(host.events() =~= old(host).events() + old(self).vblank_events());
            lemma_served_at_most_one(*host, *old(host), old(self).vblank_events());
        }
    }

    /// One dot.
    ///
    /// The beam moves on by one dot, and by two where the odd frame drops
    /// one. What only the CPU changes stays: palette and sprite memory, the
    /// control and mask registers, `t`, the fine X scroll, the write toggle
    /// and the data bus. `v` moves only on a scanline that fetches tiles, and
    /// only with rendering on. A byte that the dot reads is the one that the
    /// host holds at the fetch address, and the host has served what the dot
    /// asked of it, one request after the other. The NMI is raised
    /// exactly where the vertical blank starts with the NMI switched on, and
    /// nothing else is written to the host or signalled. A request to clear
    /// the vertical-blank flag is honoured and forgotten.
    pub fn tick<P: PPUHostAccess>(&mut self, host: &mut P)
        requires
            old(self).wf(),
            old(host).wf(),
        ensures
            final(self).wf(),
            final(host).wf(),
            exists|added: Seq<PpuEvent>|
                {
                    &&& final(host).events() == old(host).events() + added
                    &&& host_served(final(host), old(host), added)
                    &&& #[trigger] final(self).ticked(old(self), old(host), added)
                    &&& signal_of(added) == if old(self).raises_nmi() {
                        Some(true)
                    } else {
                        None
                    }
                },
            (final(self).scanline, final(self).dot, final(self).odd_frame) == old(self).beam_after(),
            final(host).memory_kept(old(host)),
            final(self).cpu_side_kept(old(self)),
            !(old(self).rendering() && old(self).on_render_line()) ==> final(self).addr_v == old(
                self,
            ).addr_v,
            !final(self).clear_vblank,
            old(self).on_render_line() && 257 <= old(self).dot <= 320 ==> final(self).oamaddr == 0,
            final(self).perform_skip ==> final(self).dot == 339,
    {
        let sprite_byte = self.sprite_dot(host);
        let ghost mid = *self;
        let ghost host_mid = *host;
        proof {
            host.lemma_memory_kept_by_itself();
        }
        let ghost sprite_events = old(self).sprite_dot_events(sprite_byte@);
        let mut tile_byte: Ghost<u8> = Ghost(self.fetched(host));
        proof {
            lemma_served_nothing(*host);
        }
        if self.scanline < 240 || self.scanline == 261 {
            tile_byte = self.background_dot(host);
        }
        proof {
            host_mid.lemma_memory_kept_bytes(old(host), (mid.fetch_addr % 0x4000) as u16);
            assert(tile_byte@ == mid.fetched(old(host)));
        }
        let ghost drawn = *self;
        let ghost host_drawn = *host;
        proof {
            host_drawn.lemma_memory_kept_through(&host_mid, old(host));
        }
        let ghost background_events = if mid.on_render_line() {
            mid.background_dot_events(tile_byte@)
        } else {
            Seq::empty()
        };
        self.end_dot(host);
        proof {
            host.lemma_memory_kept_through(&host_drawn, old(host));
            let added = sprite_events + background_events + drawn.vblank_events();
            assert(host.events() =~= old(host).events() + added);
            lemma_served_in_turn(host_drawn, host_mid, *old(host), sprite_events, background_events);
            lemma_served_in_turn(
                *host,
                host_drawn,
                *old(host),
                sprite_events + background_events,
                drawn.vblank_events(),
            );
            assert(drawn == mid.drawn(mid.fetched(old(host))));
            assert(mid.sprites_done(old(self), old(self).fetched(old(host))));
            assert(self.ticked(old(self), old(host), added));
            lemma_quiet_signal(sprite_events);
            lemma_quiet_signal(background_events);
            lemma_signal_of_concat(sprite_events, background_events);
            lemma_signal_of_concat(sprite_events + background_events, drawn.vblank_events());
            assert(drawn.raises_nmi() == old(self).raises_nmi());
            if drawn.raises_nmi() {
                assert(drawn.vblank_events().last() == PpuEvent::TriggerNmi);
            }
        }
    }
}

/// Where the odd frame's dot is dropped: the dot 338 of the pre-render
/// scanline arms the latch if rendering is on in an odd frame, leaves it as
/// it is otherwise, and moves the beam to dot 339.
pub proof fn lemma_skip_is_armed<P: PPUHostAccess>(
    after: PPU,
    before: PPU,
    host: P,
    added: Seq<PpuEvent>,
)
    requires
        after.ticked(&before, &host, added),
        before.scanline == 261,
        before.dot == 338,
    ensures
        after.perform_skip == (before.perform_skip || (before.rendering() && before.odd_frame)),
        after.rendering() == before.rendering(),
        after.odd_frame == before.odd_frame,
        after.scanline == 261,
        after.dot == 339,
{
    reveal(PPU::sprites_done);
    reveal(PPU::after_draw_dot);
    reveal(PPU::after_dot_end);
    reveal(PPU::after_beam);
}

} // verus!
