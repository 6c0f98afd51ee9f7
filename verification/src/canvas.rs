//! The canvas cache: a packed bitmap of per-cell color fields.
//!
//! A canvas is a square grid of side `dim`; the color of cell `(x, y)` is a
//! `bits`-wide field at bit offset `offset * bits` of the bitmap, where
//! `offset == y * dim + x` (row-major). At the four-bit depth two cells
//! share one byte, the even offset in the high nibble; at the eight-bit
//! depth each cell owns one byte.

use vstd::prelude::*;

use crate::errors::VpError;

verus! {

/// Largest accepted canvas side length; keeps every cell offset and the
/// bitmap byte length within `u32`, so sizes fit `usize` on every platform.
pub const MAX_DIM: u32 = 0xFFFF;

/// The two supported color depths: 16 colors packed two cells to a byte,
/// or 256 colors at one cell per byte.
#[derive(Clone, Copy, Debug, PartialEq, Eq, Structural)]
pub enum ColorDepth {
    Four,
    Eight,
}

impl ColorDepth {
    /// Width in bits of one packed color field.
    pub open spec fn spec_bits(self) -> nat {
        match self {
            ColorDepth::Four => 4,
            ColorDepth::Eight => 8,
        }
    }

    /// Largest color value a field of this depth can hold.
    pub open spec fn spec_max_color(self) -> u8 {
        match self {
            ColorDepth::Four => 15,
            ColorDepth::Eight => 255,
        }
    }

    pub fn max_color(self) -> (m: u8)
        ensures
            m == self.spec_max_color(),
    {
        match self {
            ColorDepth::Four => 15,
            ColorDepth::Eight => 255,
        }
    }
}

/// Row-major linear offset of cell `(x, y)` on a canvas of side `dim`.
pub open spec fn spec_offset(x: u32, y: u32, dim: u32) -> int {
    y * dim + x
}

pub proof fn lemma_offset_in_range(x: u32, y: u32, dim: u32)
    requires
        x < dim,
        y < dim,
    ensures
        0 <= spec_offset(x, y, dim) < dim * dim,
{
    assert(y * dim + x < dim * dim) by (nonlinear_arith)
        requires
            x < dim,
            y < dim,
    ;
}

pub fn cell_offset(x: u32, y: u32, dim: u32) -> (off: usize)
    requires
        x < dim,
        y < dim,
        dim <= MAX_DIM,
    ensures
        off == spec_offset(x, y, dim),
        off < dim * dim,
{
    proof {
        lemma_offset_in_range(x, y, dim);
        assert(dim * dim <= 0xFFFF * 0xFFFF) by (nonlinear_arith)
            requires
                dim <= 0xFFFF,
        ;
    }
    (y as usize) * (dim as usize) + (x as usize)
}

/// Byte length of the packed bitmap: `ceil(dim * dim * bits / 8)`.
pub open spec fn spec_bitmap_len(dim: u32, depth: ColorDepth) -> int {
    match depth {
        ColorDepth::Four => (dim * dim + 1) / 2,
        ColorDepth::Eight => dim * dim,
    }
}

pub fn bitmap_len(dim: u32, depth: ColorDepth) -> (n: usize)
    requires
        dim <= MAX_DIM,
    ensures
        n == spec_bitmap_len(dim, depth),
{
    proof {
        assert(dim * dim <= 0xFFFF * 0xFFFF) by (nonlinear_arith)
            requires
                dim <= 0xFFFF,
        ;
    }
    let d = dim as usize;
    match depth {
        ColorDepth::Four => (d * d + 1) / 2,
        ColorDepth::Eight => d * d,
    }
}

/// The color stored for the cell at linear offset `off`.
pub open spec fn spec_cell(bytes: Seq<u8>, off: int, depth: ColorDepth) -> u8
    recommends
        0 <= off,
        off * depth.spec_bits() < 8 * bytes.len(),
{
    match depth {
        ColorDepth::Four => if off % 2 == 0 {
            bytes[off / 2] >> 4
        } else {
            bytes[off / 2] & 0x0F
        },
        ColorDepth::Eight => bytes[off],
    }
}

/// The bitmap after overwriting the field of the cell at offset `off` with
/// `color` (masked to the field width); no other bit of the bitmap moves.
pub open spec fn spec_set_cell(bytes: Seq<u8>, off: int, color: u8, depth: ColorDepth) -> Seq<u8>
    recommends
        0 <= off,
        off * depth.spec_bits() < 8 * bytes.len(),
{
    match depth {
        ColorDepth::Four => {
            let b = bytes[off / 2];
            if off % 2 == 0 {
                bytes.update(off / 2, (b & 0x0F) | ((color & 0x0F) << 4))
            } else {
                bytes.update(off / 2, (b & 0xF0) | (color & 0x0F))
            }
        },
        ColorDepth::Eight => bytes.update(off, color),
    }
}

/// Round trip of the packed field write: the written cell decodes to the
/// written color, and every other cell decodes exactly as before.
pub proof fn lemma_cell_round_trip(bytes: Seq<u8>, off: int, color: u8, depth: ColorDepth)
    requires
        0 <= off,
        depth == ColorDepth::Four ==> off < 2 * bytes.len(),
        depth == ColorDepth::Eight ==> off < bytes.len(),
        color <= depth.spec_max_color(),
    ensures
        spec_set_cell(bytes, off, color, depth).len() == bytes.len(),
        spec_cell(spec_set_cell(bytes, off, color, depth), off, depth) == color,
        forall|off2: int|
            0 <= off2 && off2 != off && (depth == ColorDepth::Four ==> off2 < 2 * bytes.len()) && (
            depth == ColorDepth::Eight ==> off2 < bytes.len())
                ==> spec_cell(spec_set_cell(bytes, off, color, depth), off2, depth) == spec_cell(
                bytes,
                off2,
                depth,
            ),
{
    let out = spec_set_cell(bytes, off, color, depth);
    match depth {
        ColorDepth::Four => {
            let i = off / 2;
            let b = bytes[i];
            assert(0 <= i < bytes.len());
            if off % 2 == 0 {
                assert(((b & 0x0F) | ((color & 0x0F) << 4)) >> 4 == color) by (bit_vector)
                    requires
                        color <= 15,
                ;
            } else {
                assert(((b & 0xF0) | (color & 0x0F)) & 0x0F == color) by (bit_vector)
                    requires
                        color <= 15,
                ;
            }
            assert forall|off2: int| 0 <= off2 < 2 * bytes.len() && off2 != off implies spec_cell(
                out,
                off2,
                depth,
            ) == spec_cell(bytes, off2, depth) by {
                let i2 = off2 / 2;
                if i2 == i {
                    // Same byte, so the two offsets differ in parity; the
                    // untouched nibble is preserved by the masking.
                    assert(off == 2 * i + off % 2 && off2 == 2 * i2 + off2 % 2 && 0 <= off % 2 < 2
                        && 0 <= off2 % 2 < 2) by {
                        vstd::arithmetic::div_mod::lemma_fundamental_div_mod(off, 2);
                        vstd::arithmetic::div_mod::lemma_fundamental_div_mod(off2, 2);
                    }
                    if off % 2 == 0 {
                        assert(off2 % 2 == 1);
                        assert(((b & 0x0F) | ((color & 0x0F) << 4)) & 0x0F == b & 0x0F)
                            by (bit_vector);
                    } else {
                        assert(off2 % 2 == 0);
                        assert(((b & 0xF0) | (color & 0x0F)) >> 4 == b >> 4) by (bit_vector);
                    }
                } else {
                    assert(out[i2] == bytes[i2]);
                }
            }
        },
        ColorDepth::Eight => {
            assert forall|off2: int| 0 <= off2 < bytes.len() && off2 != off implies spec_cell(
                out,
                off2,
                depth,
            ) == spec_cell(bytes, off2, depth) by {
                assert(out[off2] == bytes[off2]);
            }
        },
    }
}

/// Writes the packed color field at linear offset `off`.
fn set_cell_bytes(bytes: &mut Vec<u8>, off: usize, color: u8, depth: ColorDepth)
    requires
        depth == ColorDepth::Four ==> off < 2 * old(bytes)@.len(),
        depth == ColorDepth::Eight ==> off < old(bytes)@.len(),
    ensures
        final(bytes)@ == spec_set_cell(old(bytes)@, off as int, color, depth),
{
    match depth {
        ColorDepth::Four => {
            let i = off / 2;
            assert(i < bytes.len());
            let b = bytes[i];
            if off % 2 == 0 {
                bytes[i] = (b & 0x0F) | ((color & 0x0F) << 4);
            } else {
                bytes[i] = (b & 0xF0) | (color & 0x0F);
            }
        },
        ColorDepth::Eight => {
            bytes[off] = color;
        },
    }
}

/// Reads the packed color field at linear offset `off`.
pub fn cell_at(bytes: &Vec<u8>, off: usize, depth: ColorDepth) -> (c: u8)
    requires
        depth == ColorDepth::Four ==> off < 2 * bytes@.len(),
        depth == ColorDepth::Eight ==> off < bytes@.len(),
    ensures
        c == spec_cell(bytes@, off as int, depth),
        c <= depth.spec_max_color(),
{
    match depth {
        ColorDepth::Four => {
            let i = off / 2;
            assert(i < bytes.len());
            let b = bytes[i];
            if off % 2 == 0 {
                let c = b >> 4;
                assert(b >> 4 <= 15) by (bit_vector);
                c
            } else {
                let c = b & 0x0F;
                assert(b & 0x0F <= 15) by (bit_vector);
                c
            }
        },
        ColorDepth::Eight => bytes[off],
    }
}

/// An all-zero bitmap of `n` bytes.
pub open spec fn spec_zero_bitmap(n: int) -> Seq<u8> {
    Seq::new(n as nat, |i: int| 0u8)
}

fn zero_buf(n: usize) -> (v: Vec<u8>)
    ensures
        v@ == spec_zero_bitmap(n as int),
{
    let mut v: Vec<u8> = Vec::new();
    let mut i: usize = 0;
    while i < n
        invariant
            i == v@.len() <= n,
            forall|j: int| 0 <= j < i ==> v@[j] == 0u8,
        decreases n - i,
    {
        v.push(0);
        i = i + 1;
    }
    proof {
        assert(v@ =~= spec_zero_bitmap(n as int));
    }
    v
}

/// The canvas cache after an `initialize` call: an existing bitmap is left
/// exactly as it was; a missing one is created all-zero.
pub open spec fn spec_initialize(data: Option<Seq<u8>>, dim: u32, depth: ColorDepth) -> Option<
    Seq<u8>,
> {
    match data {
        Some(bm) => Some(bm),
        None => Some(spec_zero_bitmap(spec_bitmap_len(dim, depth))),
    }
}

/// Initialization is idempotent: a second `initialize` over an existing
/// bitmap leaves the bytes unchanged.
pub proof fn lemma_initialize_idempotent(data: Option<Seq<u8>>, dim: u32, depth: ColorDepth)
    ensures
        spec_initialize(spec_initialize(data, dim, depth), dim, depth) == spec_initialize(
            data,
            dim,
            depth,
        ),
{
}

/// The in-memory packed bitmap for one canvas: created empty at startup,
/// allocated by `initialize`, mutated only one cell field at a time, and
/// recreated only by an explicit `reset`.
pub struct CanvasCache {
    dim: u32,
    depth: ColorDepth,
    bitmap: Option<Vec<u8>>,
}

impl CanvasCache {
    pub closed spec fn spec_dim(self) -> u32 {
        self.dim
    }

    pub closed spec fn spec_depth(self) -> ColorDepth {
        self.depth
    }

    /// The bitmap bytes, if the canvas has been initialized.
    pub closed spec fn data(self) -> Option<Seq<u8>> {
        match self.bitmap {
            Some(v) => Some(v@),
            None => None,
        }
    }

    pub open spec fn initialized(self) -> bool {
        self.data() is Some
    }

    pub open spec fn wf(self) -> bool {
        &&& self.spec_dim() <= MAX_DIM
        &&& match self.data() {
            Some(bm) => bm.len() == spec_bitmap_len(self.spec_dim(), self.spec_depth()),
            None => true,
        }
    }

    pub fn new(dim: u32, depth: ColorDepth) -> (c: Self)
        requires
            dim <= MAX_DIM,
        ensures
            c.wf(),
            c.spec_dim() == dim,
            c.spec_depth() == depth,
            c.data() is None,
    {
        CanvasCache { dim, depth, bitmap: None }
    }

    /// Allocates the all-zero bitmap if none exists; a second call over an
    /// existing bitmap is a no-op, never an accidental reset.
    pub fn initialize(&mut self)
        requires
            old(self).wf(),
        ensures
            final(self).wf(),
            final(self).spec_dim() == old(self).spec_dim(),
            final(self).spec_depth() == old(self).spec_depth(),
            final(self).data() == spec_initialize(
                old(self).data(),
                old(self).spec_dim(),
                old(self).spec_depth(),
            ),
    {
        if self.bitmap.is_none() {
            let n = bitmap_len(self.dim, self.depth);
            self.bitmap = Some(zero_buf(n));
        }
    }

    /// Unconditionally overwrites the bitmap with zero bytes.
    pub fn reset(&mut self)
        requires
            old(self).wf(),
        ensures
            final(self).wf(),
            final(self).spec_dim() == old(self).spec_dim(),
            final(self).spec_depth() == old(self).spec_depth(),
            final(self).data() == Some(
                spec_zero_bitmap(spec_bitmap_len(old(self).spec_dim(), old(self).spec_depth())),
            ),
    {
        let n = bitmap_len(self.dim, self.depth);
        self.bitmap = Some(zero_buf(n));
    }

    /// Overwrites the color field of the cell at linear offset `offset`.
    pub fn set_cell(&mut self, offset: usize, color: u8)
        requires
            old(self).wf(),
            old(self).initialized(),
            offset < old(self).spec_dim() * old(self).spec_dim(),
            color <= old(self).spec_depth().spec_max_color(),
        ensures
            final(self).wf(),
            final(self).spec_dim() == old(self).spec_dim(),
            final(self).spec_depth() == old(self).spec_depth(),
            final(self).data() == Some(
                spec_set_cell(
                    old(self).data()->Some_0,
                    offset as int,
                    color,
                    old(self).spec_depth(),
                ),
            ),
    {
        proof {
            let bm = self.data()->Some_0;
            if self.depth == ColorDepth::Four {
                // offset < dim * dim <= 2 * len
                assert(2 * ((self.dim * self.dim + 1) / 2) >= self.dim * self.dim) by {
                    vstd::arithmetic::div_mod::lemma_fundamental_div_mod(
                        self.dim * self.dim + 1,
                        2,
                    );
                }
            }
        }
        match &mut self.bitmap {
            Some(v) => set_cell_bytes(v, offset, color, self.depth),
            None => (),
        }
    }

    /// The full packed bitmap, for snapshot transmission to a client.
    pub fn read_all(&self) -> (r: Result<Vec<u8>, VpError>)
        ensures
            match r {
                Ok(bytes) => self.data() == Some(bytes@),
                Err(e) => self.data() is None && e == VpError::CacheUnavailable,
            },
    {
        match &self.bitmap {
            Some(v) => {
                let mut out: Vec<u8> = Vec::new();
                let mut i: usize = 0;
                while i < v.len()
                    invariant
                        i == out@.len() <= v@.len(),
                        forall|j: int| 0 <= j < i ==> out@[j] == v@[j],
                    decreases v@.len() - i,
                {
                    out.push(v[i]);
                    i = i + 1;
                }
                proof {
                    assert(out@ =~= v@);
                }
                Ok(out)
            },
            None => Err(VpError::CacheUnavailable),
        }
    }
}

} // verus!
