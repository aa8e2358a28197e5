//! The fields of the scroll registers `v` and `t`, and how rendering moves
//! `v` across the nametables.

use vstd::prelude::*;
use super::{PPU, CTRL_BG_TABLE_ADDRESS};

verus! {

/// The column of the tile, 0 to 31: bits 0 to 4.
pub open spec fn coarse_x(v: u16) -> int {
    (v % 32) as int
}

/// The row of the tile, 0 to 31: bits 5 to 9.
pub open spec fn coarse_y(v: u16) -> int {
    ((v / 32) % 32) as int
}

/// The nametable, 0 to 3: bits 10 and 11.
pub open spec fn nametable(v: u16) -> int {
    ((v / 1024) % 4) as int
}

/// The row inside the tile, 0 to 7: bits 12 to 14.
pub open spec fn fine_y(v: u16) -> int {
    ((v / 4096) % 8) as int
}

/// The fifteen-bit register with the given fields.
pub open spec fn scroll_address(fine_y: int, nametable: int, coarse_y: int, coarse_x: int) -> u16 {
    (fine_y * 4096 + nametable * 1024 + coarse_y * 32 + coarse_x) as u16
}

/// `v` moved one tile to the right: past column 31 it starts again at
/// column 0 of the nametable beside.
pub open spec fn right_of(v: u16) -> u16 {
    if coarse_x(v) == 31 {
        scroll_address(
            fine_y(v),
            (nametable(v) / 2) * 2 + (1 - nametable(v) % 2),
            coarse_y(v),
            0,
        )
    } else {
        (v + 1) as u16
    }
}

/// `v` moved one row of pixels down: after the last row of a tile it goes to
/// the next tile row, after tile row 29 to row 0 of the nametable below, and
/// after tile row 31, which holds no tiles, to row 0 of the same nametable.
pub open spec fn below(v: u16) -> u16 {
    if fine_y(v) < 7 {
        (v + 0x1000) as u16
    } else if coarse_y(v) == 29 {
        scroll_address(0, (nametable(v) + 2) % 4, 0, coarse_x(v))
    } else if coarse_y(v) == 31 {
        scroll_address(0, nametable(v), 0, coarse_x(v))
    } else {
        scroll_address(0, nametable(v), coarse_y(v) + 1, coarse_x(v))
    }
}

/// `v` with the horizontal part of `t`: the column and the nametable's
/// column.
pub open spec fn with_horizontal_of(v: u16, t: u16) -> u16 {
    scroll_address(fine_y(v), (nametable(v) / 2) * 2 + nametable(t) % 2, coarse_y(v), coarse_x(t))
}

/// `v` with the vertical part of `t`: the rows and the nametable's row.
pub open spec fn with_vertical_of(v: u16, t: u16) -> u16 {
    scroll_address(fine_y(t), (nametable(t) / 2) * 2 + nametable(v) % 2, coarse_y(t), coarse_x(v))
}

/// The address of the nametable byte of the tile that `v` points at.
pub open spec fn tile_address(v: u16) -> u16 {
    (0x2000 + v % 4096) as u16
}

/// The address of the attribute byte of the tile that `v` points at: one
/// byte for each block of four by four tiles, in the last 64 bytes of the
/// nametable.
pub open spec fn attribute_address(v: u16) -> u16 {
    (0x23C0 + nametable(v) * 1024 + (coarse_y(v) / 4) * 8 + coarse_x(v) / 4) as u16
}

/// The two bits of an attribute byte that belong to the tile that `v`
/// points at, moved to the bottom of the byte: the byte holds one pair for
/// each quadrant of two by two tiles.
pub open spec fn attribute_quadrant(at: u8, v: u16) -> u8 {
    let rows: int = if coarse_y(v) % 4 >= 2 {
        (at / 16) as int
    } else {
        at as int
    };
    (if coarse_x(v) % 4 >= 2 {
        rows / 4
    } else {
        rows
    }) as u8
}

/// The fields of a scroll address are the ones it was made of.
pub proof fn lemma_fields_of_scroll_address(fy: u16, nt: u16, cy: u16, cx: u16)
    by (bit_vector)
    requires
        fy < 8,
        nt < 4,
        cy < 32,
        cx < 32,
    ensures
        ((fy * 4096 + nt * 1024 + cy * 32 + cx) as u16 / 4096) % 8 == fy,
        ((fy * 4096 + nt * 1024 + cy * 32 + cx) as u16 / 1024) % 4 == nt,
        ((fy * 4096 + nt * 1024 + cy * 32 + cx) as u16 / 32) % 32 == cy,
        (fy * 4096 + nt * 1024 + cy * 32 + cx) as u16 % 32 == cx,
{
}

/// The fields of a scroll address: fine Y, nametable, coarse Y, coarse X.
pub fn scroll_fields(v: u16) -> (f: (u16, u16, u16, u16))
    ensures
        f.0 == fine_y(v),
        f.1 == nametable(v),
        f.2 == coarse_y(v),
        f.3 == coarse_x(v),
{
    ((v / 4096) % 8, (v / 1024) % 4, (v / 32) % 32, v % 32)
}

/// The scroll address with these fields.
pub fn make_scroll_address(fine_y: u16, nametable: u16, coarse_y: u16, coarse_x: u16) -> (v: u16)
    requires
        fine_y < 8,
        nametable < 4,
        coarse_y < 32,
        coarse_x < 32,
    ensures
        v == scroll_address(fine_y as int, nametable as int, coarse_y as int, coarse_x as int),
        v < 0x8000,
        fine_y == self::fine_y(v),
        nametable == self::nametable(v),
        coarse_y == self::coarse_y(v),
        coarse_x == self::coarse_x(v),
{
    let v = fine_y * 4096 + nametable * 1024 + coarse_y * 32 + coarse_x;
    proof {
        lemma_fields_of_scroll_address(fine_y, nametable, coarse_y, coarse_x);
    }
    v
}

/// One tile to the right, into the next nametable after column 31.
pub fn move_right(v: u16) -> (next: u16)
    requires
        v < 0x8000,
    ensures
        next == right_of(v),
        next < 0x8000,
{
    let (fy, nt, cy, cx) = scroll_fields(v);
    if cx == 31 {
        // set coarse x to 0, flip horizontal nametable
        make_scroll_address(fy, (nt / 2) * 2 + (1 - nt % 2), cy, 0)
    } else {
        v + 1
    }
}

/// One line down, into the nametable below after row 29.
pub fn move_down(v: u16) -> (next: u16)
    requires
        v < 0x8000,
    ensures
        next == below(v),
        next < 0x8000,
{
    let (fy, nt, cy, cx) = scroll_fields(v);
    if fy < 7 {
        // Increment fine y
        v + 0x1000
    } else if cy == 29 {
        // set coarse y to 0, flip vertical nametable
        make_scroll_address(0, (nt + 2) % 4, 0, cx)
    } else if cy == 31 {
        make_scroll_address(0, nt, 0, cx)
    } else {
        make_scroll_address(0, nt, cy + 1, cx)
    }
}

/// `v` with the horizontal fields of `t`.
pub fn copy_horizontal(v: u16, t: u16) -> (next: u16)
    ensures
        next == with_horizontal_of(v, t),
        next < 0x8000,
{
    let (fy, nt, cy, _) = scroll_fields(v);
    let (_, t_nt, _, t_cx) = scroll_fields(t);
    make_scroll_address(fy, (nt / 2) * 2 + t_nt % 2, cy, t_cx)
}

/// `v` with the vertical fields of `t`.
pub fn copy_vertical(v: u16, t: u16) -> (next: u16)
    ensures
        next == with_vertical_of(v, t),
        next < 0x8000,
{
    let (_, nt, _, cx) = scroll_fields(v);
    let (t_fy, t_nt, t_cy, _) = scroll_fields(t);
    make_scroll_address(t_fy, (t_nt / 2) * 2 + nt % 2, t_cy, cx)
}

impl PPU {
    /// The address of the pattern byte of the tile that was fetched from
    /// the nametable: sixteen bytes a tile, the row inside it from `v`.
    pub open spec fn pattern_address(&self) -> u16 {
        ((if self.ppuctrl & CTRL_BG_TABLE_ADDRESS != 0 {
            0x1000int
        } else {
            0
        }) + self.fetched_nametable * 16 + fine_y(self.addr_v)) as u16
    }

    /// Where the tile under the beam stands in the nametable.
    pub fn nt_addr(&self) -> (addr: u16)
        ensures
            addr == tile_address(self.addr_v),
            addr < 0x3000,
    {
        0x2000 + self.addr_v % 4096
    }

    /// Where the attributes of the tile under the beam stand.
    pub fn at_addr(&self) -> (addr: u16)
        ensures
            addr == attribute_address(self.addr_v),
            addr < 0x3000,
    {
        let (_, nt, cy, cx) = scroll_fields(self.addr_v);
        0x23C0 + nt * 1024 + (cy / 4) * 8 + cx / 4
    }

    /// Where the low pattern byte of the fetched tile's line stands.
    pub fn bg_addr(&self) -> (addr: u16)
        ensures
            addr == self.pattern_address(),
            addr < 0x2000,
    {
        let base: u16 = if self.ppuctrl & CTRL_BG_TABLE_ADDRESS != 0 {
            0x1000
        } else {
            0
        };
        base + self.fetched_nametable as u16 * 16 + (self.addr_v / 4096) % 8
    }

    /// Moves `v` one tile to the right, if rendering is on.
    pub fn h_scroll(&mut self)
        requires
            old(self).wf(),
        ensures
            final(self).wf(),
            *final(self) == (PPU {
                addr_v: if old(self).rendering() {
                    right_of(old(self).addr_v)
                } else {
                    old(self).addr_v
                },
                ..*old(self)
            }),
    {
        if !self.is_rendering() {
            return ;
        }
        self.addr_v = move_right(self.addr_v);
    }

    /// Moves `v` one row of pixels down, if rendering is on.
    pub fn v_scroll(&mut self)
        requires
            old(self).wf(),
        ensures
            final(self).wf(),
            *final(self) == (PPU {
                addr_v: if old(self).rendering() {
                    below(old(self).addr_v)
                } else {
                    old(self).addr_v
                },
                ..*old(self)
            }),
    {
        if !self.is_rendering() {
            return ;
        }
        self.addr_v = move_down(self.addr_v);
    }

    /// Copies the horizontal part of `t` to `v`, if rendering is on.
    pub fn h_update(&mut self)
        requires
            old(self).wf(),
        ensures
            final(self).wf(),
            *final(self) == (PPU {
                addr_v: if old(self).rendering() {
                    with_horizontal_of(old(self).addr_v, old(self).addr_t)
                } else {
                    old(self).addr_v
                },
                ..*old(self)
            }),
    {
        if !self.is_rendering() {
            return ;
        }
        self.addr_v = copy_horizontal(self.addr_v, self.addr_t);
    }

    /// Copies the vertical part of `t` to `v`, if rendering is on.
    pub fn v_update(&mut self)
        requires
            old(self).wf(),
        ensures
            final(self).wf(),
            *final(self) == (PPU {
                addr_v: if old(self).rendering() {
                    with_vertical_of(old(self).addr_v, old(self).addr_t)
                } else {
                    old(self).addr_v
                },
                ..*old(self)
            }),
    {
        if !self.is_rendering() {
            return ;
        }
        self.addr_v = copy_vertical(self.addr_v, self.addr_t);
    }
}

} // verus!
