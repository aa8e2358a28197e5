//! The sprite evaluation over a whole scanline: what the dots 65 to 256 pick
//! when the first sprites of sprite memory are on the scanline.

use vstd::prelude::*;
use super::sprites::in_range;
use super::{PPU, STATUS_SPRITE_OVERFLOW};

verus! {

impl PPU {
    /// Whether `self` is the PPU `before` one dot later, where the dot, one
    /// from 1 to 256 of a visible scanline, did its part of the sprite
    /// evaluation and nothing else.
    pub open spec fn evaluated(&self, before: &PPU) -> bool {
        &&& *self == (PPU {
            secondary_oam: self.secondary_oam,
            dot: (before.dot + 1) as u16,
            ..before.after_sprite_evaluation()
        })
        &&& self.secondary_oam@ == before.secondary_oam_after_evaluation()
    }

    /// Whether `self` stands before the step of the evaluation that looks at
    /// byte `k` of sprite memory, with the `k` bytes before it picked: the
    /// evaluation that began at `first` has found every sprite so far on the
    /// scanline.
    pub open spec fn picking(&self, first: &PPU, k: int) -> bool {
        &&& self.dot == 66 + 2 * k
        &&& self.oam == first.oam
        &&& self.scanline == first.scanline
        &&& self.ppuctrl == first.ppuctrl
        &&& self.ppustatus == first.ppustatus
        &&& self.oamaddr == k
        &&& self.secondary_oam_addr == k
        &&& self.sprite_in_range == (k % 4 != 0)
        &&& !self.sprite_evaluation_done
        &&& self.oam_value_latch == first.oam[k]
        &&& k >= 1 ==> self.sprite_zero_next_scanline
        &&& forall|j: int| 0 <= j < k ==> self.secondary_oam[j] == first.oam[j]
    }

    /// Whether `self` stands before the step of the evaluation that looks
    /// for a ninth sprite at sprite `8 + j`, after eight sprites were picked
    /// and none was found on the scanline since. The search looks at byte
    /// `j % 4` of that sprite.
    pub open spec fn searching(&self, first: &PPU, j: int) -> bool {
        &&& self.dot == 66 + 2 * (32 + j)
        &&& self.oam == first.oam
        &&& self.scanline == first.scanline
        &&& self.ppuctrl == first.ppuctrl
        &&& self.ppustatus == first.ppustatus
        &&& self.oamaddr == 4 * (8 + j) + j % 4
        &&& self.secondary_oam_addr == 32
        &&& !self.sprite_in_range
        &&& !self.sprite_evaluation_done
        &&& self.oam_value_latch == first.oam[4 * (8 + j) + j % 4]
        &&& self.sprite_zero_next_scanline
        &&& forall|i: int| 0 <= i < 32 ==> self.secondary_oam[i] == first.oam[i]
    }

    /// Whether the evaluation that began at `first` is over at `self`, with
    /// the first eight sprites of sprite memory picked, sprite 0 among them,
    /// and `status` in the status register.
    pub open spec fn picked_eight(&self, first: &PPU, status: u8) -> bool {
        &&& 66 <= self.dot <= 257
        &&& self.oam == first.oam
        &&& self.ppustatus == status
        &&& self.sprite_evaluation_done
        &&& self.sprite_zero_next_scanline
        &&& forall|i: int| 0 <= i < 32 ==> self.secondary_oam[i] == first.oam[i]
    }
}

/// Whether state `i + 1` of `states` is state `i` after a dot that did its
/// part of the sprite evaluation and nothing else.
pub open spec fn evaluated_at(states: Seq<PPU>, i: int) -> bool {
    states[i + 1].evaluated(&states[i])
}

/// Whether `states` are the states of a PPU dot by dot, where each dot did
/// its part of the sprite evaluation and nothing else.
pub open spec fn evaluation_of(states: Seq<PPU>) -> bool {
    forall|i: int| 0 <= i < states.len() - 1 ==> #[trigger] evaluated_at(states, i)
}

/// Dot 65 starts the evaluation at the sprite address.
proof fn lemma_evaluation_starts(after: PPU, first: PPU)
    requires
        after.evaluated(&first),
        first.dot == 65,
        first.oamaddr == 0,
    ensures
        after.picking(&first, 0),
{
    reveal(PPU::after_sprite_evaluation);
    reveal(PPU::secondary_oam_after_evaluation);
}

/// Two dots pick one byte of a sprite that is on the scanline.
proof fn lemma_byte_picked(after: PPU, mid: PPU, before: PPU, first: PPU, k: int)
    requires
        mid.evaluated(&before),
        after.evaluated(&mid),
        before.picking(&first, k),
        0 <= k < 32,
        k % 4 == 0 ==> in_range(first.scanline, first.oam[k], first.sprite_size()),
    ensures
        after.picking(&first, k + 1),
{
    reveal(PPU::after_sprite_evaluation);
    reveal(PPU::secondary_oam_after_evaluation);
    reveal(PPU::after_evaluation_step);
    assert(before.sprite_size() == first.sprite_size());
    assert(mid.oamaddr == k + 1);
    assert(mid.secondary_oam_addr == k + 1);
    assert forall|j: int| 0 <= j < k + 1 implies after.secondary_oam[j] == first.oam[j] by {
        assert(mid.secondary_oam@[j] == first.oam[j]);
    }
}

/// With eight sprites picked, a ninth on the scanline sets the overflow flag
/// and ends the evaluation.
proof fn lemma_ninth_found(after: PPU, before: PPU, first: PPU)
    requires
        after.evaluated(&before),
        before.picking(&first, 32),
        in_range(first.scanline, first.oam[32], first.sprite_size()),
    ensures
        after.picked_eight(&first, first.ppustatus | STATUS_SPRITE_OVERFLOW),
{
    reveal(PPU::after_sprite_evaluation);
    reveal(PPU::secondary_oam_after_evaluation);
    reveal(PPU::after_evaluation_step);
    assert(before.sprite_size() == first.sprite_size());
}

/// With eight sprites picked, the search for a ninth begins.
proof fn lemma_search_begins(p: PPU, first: PPU)
    requires
        p.picking(&first, 32),
    ensures
        p.searching(&first, 0),
{
}

/// Two dots of the search pass a byte that is not on the scanline: the
/// search moves on by a sprite and, inside it, by a byte, and ends after
/// the last sprite.
proof fn lemma_search_goes_on(after: PPU, mid: PPU, before: PPU, first: PPU, j: int)
    requires
        mid.evaluated(&before),
        after.evaluated(&mid),
        before.searching(&first, j),
        0 <= j < 56,
        !in_range(first.scanline, first.oam[4 * (8 + j) + j % 4], first.sprite_size()),
    ensures
        j < 55 ==> after.searching(&first, j + 1),
        j == 55 ==> after.picked_eight(&first, first.ppustatus),
{
    reveal(PPU::after_sprite_evaluation);
    reveal(PPU::secondary_oam_after_evaluation);
    reveal(PPU::after_evaluation_step);
    assert(before.sprite_size() == first.sprite_size());
    assert(before.oamaddr / 4 == 8 + j && before.oamaddr % 4 == j % 4);
    assert(mid.secondary_oam@ =~= before.secondary_oam@);
    if j < 55 {
        assert(mid.oamaddr == 4 * (8 + j + 1) + (j + 1) % 4);
    }
}

/// Once the evaluation is over, the dots up to 256 leave what was picked
/// and the status register as they are.
proof fn lemma_evaluation_rests(after: PPU, before: PPU, first: PPU, status: u8)
    requires
        after.evaluated(&before),
        before.picked_eight(&first, status),
        before.dot <= 256,
    ensures
        after.picked_eight(&first, status),
{
    reveal(PPU::after_sprite_evaluation);
    reveal(PPU::secondary_oam_after_evaluation);
    reveal(PPU::after_evaluation_step);
}

impl PPU {
    /// Whether sprite `s` of sprite memory has a row on the scanline.
    pub open spec fn sprite_on_line(&self, s: int) -> bool {
        in_range(self.scanline, self.oam[4 * s], self.sprite_size())
    }

    /// Whether byte `a` of sprite memory, taken for the first row of a
    /// sprite, puts the sprite on the scanline.
    pub open spec fn byte_on_line(&self, a: int) -> bool {
        in_range(self.scanline, self.oam[a], self.sprite_size())
    }
}

/// Whether `states` are the dots 65 to 257 of a scanline on which the
/// evaluation starts at the first byte of sprite memory.
pub open spec fn evaluates_from_the_start(states: Seq<PPU>) -> bool {
    &&& evaluation_of(states)
    &&& states.len() == 193
    &&& states[0].dot == 65
    &&& states[0].oamaddr == 0
}

/// While the sprites are on the scanline, every two dots pick one of their
/// bytes.
proof fn lemma_picking_reached(states: Seq<PPU>, k: int)
    requires
        evaluates_from_the_start(states),
        forall|s: int| 0 <= s < 8 ==> #[trigger] states[0].sprite_on_line(s),
        0 <= k <= 32,
    ensures
        states[1 + 2 * k].picking(&states[0], k),
    decreases k,
{
    if k == 0 {
        assert(evaluated_at(states, 0));
        lemma_evaluation_starts(states[1], states[0]);
    } else {
        lemma_picking_reached(states, k - 1);
        assert(evaluated_at(states, 2 * k - 1));
        assert(evaluated_at(states, 2 * k));
        if (k - 1) % 4 == 0 {
            assert(states[0].sprite_on_line((k - 1) / 4));
        }
        lemma_byte_picked(states[1 + 2 * k], states[2 * k], states[2 * k - 1], states[0], k - 1);
    }
}

/// While no byte that the search looks at is on the scanline, every two dots
/// pass one.
proof fn lemma_search_reached(states: Seq<PPU>, j: int)
    requires
        evaluates_from_the_start(states),
        forall|s: int| 0 <= s < 8 ==> #[trigger] states[0].sprite_on_line(s),
        forall|a: int| 32 <= a < 256 ==> !#[trigger] states[0].byte_on_line(a),
        0 <= j <= 55,
    ensures
        states[65 + 2 * j].searching(&states[0], j),
    decreases j,
{
    if j == 0 {
        lemma_picking_reached(states, 32);
        lemma_search_begins(states[65], states[0]);
    } else {
        lemma_search_reached(states, j - 1);
        assert(evaluated_at(states, 63 + 2 * j));
        assert(evaluated_at(states, 64 + 2 * j));
        assert(!states[0].byte_on_line(4 * (8 + (j - 1)) + (j - 1) % 4));
        lemma_search_goes_on(
            states[65 + 2 * j],
            states[64 + 2 * j],
            states[63 + 2 * j],
            states[0],
            j - 1,
        );
    }
}

/// What is picked when the evaluation is over is kept to the end of the
/// evaluation's dots.
proof fn lemma_rests_to_the_end(states: Seq<PPU>, over: int, status: u8, i: int)
    requires
        evaluates_from_the_start(states),
        66 <= over <= i <= 192,
        states[over].picked_eight(&states[0], status),
        states[over].dot == 65 + over,
    ensures
        states[i].picked_eight(&states[0], status),
        states[i].dot == 65 + i,
    decreases i - over,
{
    if i > over {
        lemma_rests_to_the_end(states, over, status, i - 1);
        assert(evaluated_at(states, i - 1));
        lemma_evaluation_rests(states[i], states[i - 1], states[0], status);
        reveal(PPU::after_sprite_evaluation);
    }
}

/// Nine sprites on a scanline: where the sprites 0 to 8 of sprite memory
/// have a row on the scanline and the evaluation starts at the first byte of
/// sprite memory, the dots 65 to 256 pick the sprites 0 to 7 in their order,
/// note that sprite 0 is among them, and set the overflow flag.
pub proof fn lemma_nine_sprites_overflow(states: Seq<PPU>)
    requires
        evaluates_from_the_start(states),
        forall|s: int| 0 <= s < 9 ==> #[trigger] states[0].sprite_on_line(s),
    ensures
        states[192].dot == 257,
        states[192].secondary_oam@ == states[0].oam@.subrange(0, 32),
        states[192].sprite_zero_next_scanline,
        states[192].ppustatus == states[0].ppustatus | STATUS_SPRITE_OVERFLOW,
        states[192].ppustatus & STATUS_SPRITE_OVERFLOW != 0,
{
    lemma_picking_reached(states, 32);
    assert(evaluated_at(states, 65));
    assert(states[0].sprite_on_line(8));
    lemma_ninth_found(states[66], states[65], states[0]);
    reveal(PPU::after_sprite_evaluation);
    let status = states[0].ppustatus | STATUS_SPRITE_OVERFLOW;
    lemma_rests_to_the_end(states, 66, status, 192);
    assert(states[192].secondary_oam@ =~= states[0].oam@.subrange(0, 32));
    let s = states[0].ppustatus;
    assert((s | 0x20) & 0x20 != 0) by (bit_vector);
}

/// Eight sprites on a scanline: where the sprites 0 to 7 of sprite memory
/// have a row on the scanline, no other byte of sprite memory taken for a
/// first row would put a sprite there, and the evaluation starts at the
/// first byte of sprite memory, the dots 65 to 256 pick the sprites 0 to 7
/// in their order, note that sprite 0 is among them, and leave the status
/// register, and with it the overflow flag, as it is.
pub proof fn lemma_eight_sprites_fit(states: Seq<PPU>)
    requires
        evaluates_from_the_start(states),
        forall|s: int| 0 <= s < 8 ==> #[trigger] states[0].sprite_on_line(s),
        forall|a: int| 32 <= a < 256 ==> !#[trigger] states[0].byte_on_line(a),
    ensures
        states[192].dot == 257,
        states[192].secondary_oam@ == states[0].oam@.subrange(0, 32),
        states[192].sprite_zero_next_scanline,
        states[192].ppustatus == states[0].ppustatus,
{
    lemma_search_reached(states, 55);
    assert(evaluated_at(states, 175));
    assert(evaluated_at(states, 176));
    assert(!states[0].byte_on_line(255));
    lemma_search_goes_on(states[177], states[176], states[175], states[0], 55);
    reveal(PPU::after_sprite_evaluation);
    lemma_rests_to_the_end(states, 177, states[0].ppustatus, 192);
    assert(states[192].secondary_oam@ =~= states[0].oam@.subrange(0, 32));
}

} // verus!
