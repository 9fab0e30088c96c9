//! Verified wrappers for the instruction set of an undocumented
//! matrix/vector coprocessor.
//!
//! The coprocessor owns three register files: `x` (8 rows of 64 bytes),
//! `y` (8 rows of 64 bytes) and `z` (64 rows of 64 bytes).  Every
//! instruction is parameterised by a single 64-bit operand word whose
//! bit-field layout this crate encodes and decodes; the meaning of each
//! instruction is pinned down as a function over the register files in
//! [`model`].
//!
//! The capability surface (one method per instruction) is the [`AmxOps`]
//! trait.  [`AmxEmuCtx`] implements it against an in-memory model of the
//! register files and is verified to follow the operand-word semantics
//! exactly; a hardware backend can implement the same trait by emitting
//! the real instructions.  The [`Amx`] trait, implemented for every
//! backend, offers the typed semantic operations on top; [`laws`] proves
//! the round-trip, row-addressing, interleaving, outer-product and
//! lookup laws of the model, and [`ctx`] holds the per-thread activation
//! guard.

use vstd::prelude::*;

pub mod ctx;
pub mod emu;
pub mod laws;
pub mod genlut;
pub mod load_store;
pub mod model;
pub mod ops;
pub mod regs;

pub use crate::ctx::{ActivationState, NewAmxCtxError};
pub use crate::emu::AmxEmuCtx;
pub use crate::genlut::{
    lut, Index2, Index4, Index5, LutIn, LutOut, LutTy, Normal, Reverse, F16, F32, F64, I16, I32,
    I64, U16, U32, U64, X16, X32, X64, X8,
};
pub use crate::load_store::{LoadStore, MemArgs, MemSize};
pub use crate::model::RegFiles;
pub use crate::ops::AmxOps;
pub use crate::regs::{XBytes, XRow, YBytes, YRow, ZRow};

verus! {

use vstd::arithmetic::div_mod::lemma_small_mod;

use crate::model::{file_after_load, file_byte, regs_wf, z_after_interleaved_load, z_after_mac16};

/// Field recovery for the outer-product operand word.
proof fn lemma_mac16_encode(yo: u64, xo: u64, zi: u64, na: u64, ix: u64, iy: u64)
    by (bit_vector)
    requires
        yo < 0x200,
        xo < 0x200,
        zi < 64,
        na < 2,
        ix < 2,
        iy < 2,
    ensures
        ({
            let w = yo | (xo << 10) | (zi << 20) | (na << 27) | (ix << 28) | (iy << 29);
            &&& w & 0x3ff == yo
            &&& (w >> 10) & 0x3ff == xo
            &&& (w >> 20) & 1 == zi % 2
            &&& (w >> 27) & 1 == na
            &&& (w >> 28) & 1 == ix
            &&& (w >> 29) & 1 == iy
        }),
{
}

/// A high-level wrapper for the coprocessor instructions.
///
/// Row indices may range over `0..64` for every file: the hardware
/// reads the 6-bit row field modulo the 8 rows of `x` and `y`, and the
/// contracts below state that wrap-around exactly.
pub trait Amx: AmxOps {
    /// Load 64 bytes into `x` row `index % 8`.
    fn load512_x(&mut self, data: &[u8], index: usize)
        requires
            regs_wf(old(self).regs()),
            data@.len() >= 64,
            index < 64,
        ensures
            final(self).regs() == (RegFiles {
                x: file_after_load(old(self).regs().x, index as int * 64, data@, 64),
                y: old(self).regs().y,
                z: old(self).regs().z,
            }),
    ;

    /// Load 64 bytes into `y` row `index % 8`.
    fn load512_y(&mut self, data: &[u8], index: usize)
        requires
            regs_wf(old(self).regs()),
            data@.len() >= 64,
            index < 64,
        ensures
            final(self).regs() == (RegFiles {
                x: old(self).regs().x,
                y: file_after_load(old(self).regs().y, index as int * 64, data@, 64),
                z: old(self).regs().z,
            }),
    ;

    /// Load 64 bytes into `z` row `index`.
    fn load512_z(&mut self, data: &[u8], index: usize)
        requires
            regs_wf(old(self).regs()),
            data@.len() >= 64,
            index < 64,
        ensures
            final(self).regs() == (RegFiles {
                x: old(self).regs().x,
                y: old(self).regs().y,
                z: file_after_load(old(self).regs().z, index as int * 64, data@, 64),
            }),
    ;

    /// Load 64 bytes into the row pair of `z` selected by `index`,
    /// with interleaving: the low half of each 8-byte lane goes to the
    /// first row of the pair, the high half to the second.
    fn load512_z_interleaved(&mut self, data: &[u8], index: usize)
        requires
            regs_wf(old(self).regs()),
            data@.len() >= 64,
            index < 64,
        ensures
            final(self).regs() == (RegFiles {
                x: old(self).regs().x,
                y: old(self).regs().y,
                z: z_after_interleaved_load(old(self).regs().z, index as int, data@),
            }),
    ;

    /// Load 128 bytes into `x` rows `index % 8` and `(index + 1) % 8`.
    ///
    /// A hardware backend requires the memory operand to sit on a
    /// 128-byte boundary; the slice carries no alignment, so that
    /// obligation stays with the caller of such a backend.
    fn load1024_x_aligned(&mut self, data: &[u8], index: usize)
        requires
            regs_wf(old(self).regs()),
            data@.len() >= 128,
            index < 64,
        ensures
            final(self).regs() == (RegFiles {
                x: file_after_load(old(self).regs().x, index as int * 64, data@, 128),
                y: old(self).regs().y,
                z: old(self).regs().z,
            }),
    ;

    /// Load 128 bytes into `y` rows `index % 8` and `(index + 1) % 8`.
    fn load1024_y_aligned(&mut self, data: &[u8], index: usize)
        requires
            regs_wf(old(self).regs()),
            data@.len() >= 128,
            index < 64,
        ensures
            final(self).regs() == (RegFiles {
                x: old(self).regs().x,
                y: file_after_load(old(self).regs().y, index as int * 64, data@, 128),
                z: old(self).regs().z,
            }),
    ;

    /// Load 128 bytes into `z` rows `index` and `(index + 1) % 64`.
    fn load1024_z_aligned(&mut self, data: &[u8], index: usize)
        requires
            regs_wf(old(self).regs()),
            data@.len() >= 128,
            index < 64,
        ensures
            final(self).regs() == (RegFiles {
                x: old(self).regs().x,
                y: old(self).regs().y,
                z: file_after_load(old(self).regs().z, index as int * 64, data@, 128),
            }),
    ;

    /// Store 64 bytes of `x` row `index % 8` into `out[dst..dst + 64]`.
    fn store512_x(&mut self, out: &mut Vec<u8>, dst: usize, index: usize)
        requires
            regs_wf(old(self).regs()),
            dst + 64 <= old(out)@.len(),
            index < 64,
        ensures
            final(self).regs() == old(self).regs(),
            final(out)@.len() == old(out)@.len(),
            forall|i: int|
                dst <= i < dst + 64 ==> final(out)@[i] == file_byte(
                    old(self).regs().x,
                    index as int * 64,
                    i - dst,
                ),
            forall|i: int|
                0 <= i < final(out)@.len() && !(dst <= i < dst + 64) ==> final(out)@[i] == old(
                    out,
                )@[i],
    ;

    /// Store 64 bytes of `y` row `index % 8` into `out[dst..dst + 64]`.
    fn store512_y(&mut self, out: &mut Vec<u8>, dst: usize, index: usize)
        requires
            regs_wf(old(self).regs()),
            dst + 64 <= old(out)@.len(),
            index < 64,
        ensures
            final(self).regs() == old(self).regs(),
            final(out)@.len() == old(out)@.len(),
            forall|i: int|
                dst <= i < dst + 64 ==> final(out)@[i] == file_byte(
                    old(self).regs().y,
                    index as int * 64,
                    i - dst,
                ),
            forall|i: int|
                0 <= i < final(out)@.len() && !(dst <= i < dst + 64) ==> final(out)@[i] == old(
                    out,
                )@[i],
    ;

    /// Store 64 bytes of `z` row `index` into `out[dst..dst + 64]`.
    fn store512_z(&mut self, out: &mut Vec<u8>, dst: usize, index: usize)
        requires
            regs_wf(old(self).regs()),
            dst + 64 <= old(out)@.len(),
            index < 64,
        ensures
            final(self).regs() == old(self).regs(),
            final(out)@.len() == old(out)@.len(),
            forall|i: int|
                dst <= i < dst + 64 ==> final(out)@[i] == file_byte(
                    old(self).regs().z,
                    index as int * 64,
                    i - dst,
                ),
            forall|i: int|
                0 <= i < final(out)@.len() && !(dst <= i < dst + 64) ==> final(out)@[i] == old(
                    out,
                )@[i],
    ;

    /// Store 64 bytes of the row pair of `z` selected by `index` into
    /// `out[dst..dst + 64]`, gathering under the interleaving rule:
    /// the inverse of [`Amx::load512_z_interleaved`].
    fn store512_z_interleaved(&mut self, out: &mut Vec<u8>, dst: usize, index: usize)
        requires
            regs_wf(old(self).regs()),
            dst + 64 <= old(out)@.len(),
            index < 64,
        ensures
            final(self).regs() == old(self).regs(),
            final(out)@.len() == old(out)@.len(),
            forall|i: int|
                dst <= i < dst + 64 ==> final(out)@[i] == crate::model::interleaved_byte(
                    old(self).regs().z,
                    index as int,
                    i - dst,
                ),
            forall|i: int|
                0 <= i < final(out)@.len() && !(dst <= i < dst + 64) ==> final(out)@[i] == old(
                    out,
                )@[i],
    ;

    /// Store 128 bytes of `x` rows `index % 8` and `(index + 1) % 8`
    /// into `out[dst..dst + 128]`.
    fn store1024_x_aligned(&mut self, out: &mut Vec<u8>, dst: usize, index: usize)
        requires
            regs_wf(old(self).regs()),
            dst + 128 <= old(out)@.len(),
            index < 64,
        ensures
            final(self).regs() == old(self).regs(),
            final(out)@.len() == old(out)@.len(),
            forall|i: int|
                dst <= i < dst + 128 ==> final(out)@[i] == file_byte(
                    old(self).regs().x,
                    index as int * 64,
                    i - dst,
                ),
            forall|i: int|
                0 <= i < final(out)@.len() && !(dst <= i < dst + 128) ==> final(out)@[i] == old(
                    out,
                )@[i],
    ;

    /// Store 128 bytes of `y` rows `index % 8` and `(index + 1) % 8`
    /// into `out[dst..dst + 128]`.
    fn store1024_y_aligned(&mut self, out: &mut Vec<u8>, dst: usize, index: usize)
        requires
            regs_wf(old(self).regs()),
            dst + 128 <= old(out)@.len(),
            index < 64,
        ensures
            final(self).regs() == old(self).regs(),
            final(out)@.len() == old(out)@.len(),
            forall|i: int|
                dst <= i < dst + 128 ==> final(out)@[i] == file_byte(
                    old(self).regs().y,
                    index as int * 64,
                    i - dst,
                ),
            forall|i: int|
                0 <= i < final(out)@.len() && !(dst <= i < dst + 128) ==> final(out)@[i] == old(
                    out,
                )@[i],
    ;

    /// Store 128 bytes of `z` rows `index` and `(index + 1) % 64` into
    /// `out[dst..dst + 128]`.
    fn store1024_z_aligned(&mut self, out: &mut Vec<u8>, dst: usize, index: usize)
        requires
            regs_wf(old(self).regs()),
            dst + 128 <= old(out)@.len(),
            index < 64,
        ensures
            final(self).regs() == old(self).regs(),
            final(out)@.len() == old(out)@.len(),
            forall|i: int|
                dst <= i < dst + 128 ==> final(out)@[i] == file_byte(
                    old(self).regs().z,
                    index as int * 64,
                    i - dst,
                ),
            forall|i: int|
                0 <= i < final(out)@.len() && !(dst <= i < dst + 128) ==> final(out)@[i] == old(
                    out,
                )@[i],
    ;

    /// Read the whole contents of `x`, one 64-byte store per row in
    /// file order.
    fn read_x(&mut self) -> (r: Vec<u8>)
        requires
            regs_wf(old(self).regs()),
        ensures
            final(self).regs() == old(self).regs(),
            r@ == old(self).regs().x,
    ;

    /// Read the whole contents of `y`, one 64-byte store per row in
    /// file order.
    fn read_y(&mut self) -> (r: Vec<u8>)
        requires
            regs_wf(old(self).regs()),
        ensures
            final(self).regs() == old(self).regs(),
            r@ == old(self).regs().y,
    ;

    /// Read the whole contents of `z`, one 64-byte store per row in
    /// file order.
    fn read_z(&mut self) -> (r: Vec<u8>)
        requires
            regs_wf(old(self).regs()),
        ensures
            final(self).regs() == old(self).regs(),
            r@ == old(self).regs().z,
    ;

    /// The outer product of the 32-lane 16-bit vectors of `x` and `y`
    /// at the given byte offsets, written into every second row of `z`
    /// starting at the parity of `z_index`; `accumulate` adds to the
    /// existing contents instead of overwriting.
    ///
    /// Only the least significant bit of `z_index` is taken into
    /// consideration.  The hardware behaviour with an ignored input is
    /// only partially characterised, so nothing is stated of the
    /// register files in that case beyond the model leaving them
    /// unchanged.
    fn outer_product_i16_xy_to_z(
        &mut self,
        x_offset_bytes: usize,
        y_offset_bytes: usize,
        z_index: usize,
        accumulate: bool,
        ignore_x: bool,
        ignore_y: bool,
    )
        requires
            regs_wf(old(self).regs()),
            x_offset_bytes < 0x200,
            y_offset_bytes < 0x200,
            z_index < 64,
        ensures
            final(self).regs() == (if ignore_x || ignore_y {
                old(self).regs()
            } else {
                RegFiles {
                    x: old(self).regs().x,
                    y: old(self).regs().y,
                    z: z_after_mac16(
                        old(self).regs().x,
                        old(self).regs().y,
                        old(self).regs().z,
                        x_offset_bytes as int,
                        y_offset_bytes as int,
                        z_index as int % 2,
                        accumulate,
                    ),
                }
            }),
    ;
}

impl<T: AmxOps> Amx for T {
    fn load512_x(&mut self, data: &[u8], index: usize) {
        self.ldx(MemArgs { reg_offset: index as u64, size: MemSize::_64 }.encode(), data);
    }

    fn load512_y(&mut self, data: &[u8], index: usize) {
        self.ldy(MemArgs { reg_offset: index as u64, size: MemSize::_64 }.encode(), data);
    }

    fn load512_z(&mut self, data: &[u8], index: usize) {
        self.ldz(MemArgs { reg_offset: index as u64, size: MemSize::_64 }.encode(), data);
    }

    fn load512_z_interleaved(&mut self, data: &[u8], index: usize) {
        self.ldzi(MemArgs { reg_offset: index as u64, size: MemSize::_64 }.encode(), data);
    }

    fn load1024_x_aligned(&mut self, data: &[u8], index: usize) {
        self.ldx(MemArgs { reg_offset: index as u64, size: MemSize::_128 }.encode(), data);
    }

    fn load1024_y_aligned(&mut self, data: &[u8], index: usize) {
        self.ldy(MemArgs { reg_offset: index as u64, size: MemSize::_128 }.encode(), data);
    }

    fn load1024_z_aligned(&mut self, data: &[u8], index: usize) {
        self.ldz(MemArgs { reg_offset: index as u64, size: MemSize::_128 }.encode(), data);
    }

    fn store512_x(&mut self, out: &mut Vec<u8>, dst: usize, index: usize) {
        self.stx(MemArgs { reg_offset: index as u64, size: MemSize::_64 }.encode(), out, dst);
    }

    fn store512_y(&mut self, out: &mut Vec<u8>, dst: usize, index: usize) {
        self.sty(MemArgs { reg_offset: index as u64, size: MemSize::_64 }.encode(), out, dst);
    }

    fn store512_z(&mut self, out: &mut Vec<u8>, dst: usize, index: usize) {
        self.stz(MemArgs { reg_offset: index as u64, size: MemSize::_64 }.encode(), out, dst);
    }

    fn store512_z_interleaved(&mut self, out: &mut Vec<u8>, dst: usize, index: usize) {
        self.stzi(MemArgs { reg_offset: index as u64, size: MemSize::_64 }.encode(), out, dst);
    }

    fn store1024_x_aligned(&mut self, out: &mut Vec<u8>, dst: usize, index: usize) {
        self.stx(MemArgs { reg_offset: index as u64, size: MemSize::_128 }.encode(), out, dst);
    }

    fn store1024_y_aligned(&mut self, out: &mut Vec<u8>, dst: usize, index: usize) {
        self.sty(MemArgs { reg_offset: index as u64, size: MemSize::_128 }.encode(), out, dst);
    }

    fn store1024_z_aligned(&mut self, out: &mut Vec<u8>, dst: usize, index: usize) {
        self.stz(MemArgs { reg_offset: index as u64, size: MemSize::_128 }.encode(), out, dst);
    }

    #[verifier::loop_isolation(false)]
    fn read_x(&mut self) -> (r: Vec<u8>) {
        let mut ret = crate::emu::zero_bytes(512);
        let mut i: usize = 0;
        while i < 8
            invariant
                i <= 8,
                self.regs() == old(self).regs(),
                ret@.len() == 512,
                forall|k: int| 0 <= k < i * 64 ==> ret@[k] == old(self).regs().x[k],
            decreases 8 - i,
        {
            self.store512_x(&mut ret, i * 64, i);
            proof {
                assert forall|k: int| i * 64 <= k < i * 64 + 64 implies ret@[k] == old(
                    self,
                ).regs().x[k] by {
                    lemma_small_mod(k as nat, 512);
                }
            }
            i += 1;
        }
        proof {
            assert(ret@ =~= old(self).regs().x);
        }
        ret
    }

    #[verifier::loop_isolation(false)]
    fn read_y(&mut self) -> (r: Vec<u8>) {
        let mut ret = crate::emu::zero_bytes(512);
        let mut i: usize = 0;
        while i < 8
            invariant
                i <= 8,
                self.regs() == old(self).regs(),
                ret@.len() == 512,
                forall|k: int| 0 <= k < i * 64 ==> ret@[k] == old(self).regs().y[k],
            decreases 8 - i,
        {
            self.store512_y(&mut ret, i * 64, i);
            proof {
                assert forall|k: int| i * 64 <= k < i * 64 + 64 implies ret@[k] == old(
                    self,
                ).regs().y[k] by {
                    lemma_small_mod(k as nat, 512);
                }
            }
            i += 1;
        }
        proof {
            assert(ret@ =~= old(self).regs().y);
        }
        ret
    }

    #[verifier::loop_isolation(false)]
    fn read_z(&mut self) -> (r: Vec<u8>) {
        let mut ret = crate::emu::zero_bytes(4096);
        let mut i: usize = 0;
        while i < 64
            invariant
                i <= 64,
                self.regs() == old(self).regs(),
                ret@.len() == 4096,
                forall|k: int| 0 <= k < i * 64 ==> ret@[k] == old(self).regs().z[k],
            decreases 64 - i,
        {
            self.store512_z(&mut ret, i * 64, i);
            proof {
                assert forall|k: int| i * 64 <= k < i * 64 + 64 implies ret@[k] == old(
                    self,
                ).regs().z[k] by {
                    lemma_small_mod(k as nat, 4096);
                }
            }
            i += 1;
        }
        proof {
            assert(ret@ =~= old(self).regs().z);
        }
        ret
    }

    fn outer_product_i16_xy_to_z(
        &mut self,
        x_offset_bytes: usize,
        y_offset_bytes: usize,
        z_index: usize,
        accumulate: bool,
        ignore_x: bool,
        ignore_y: bool,
    ) {
        let yo = y_offset_bytes as u64;
        let xo = x_offset_bytes as u64;
        let zi = z_index as u64;
        let na: u64 = if accumulate {
            0
        } else {
            1
        };
        let ix: u64 = if ignore_x {
            1
        } else {
            0
        };
        let iy: u64 = if ignore_y {
            1
        } else {
            0
        };
        proof {
            lemma_mac16_encode(yo, xo, zi, na, ix, iy);
        }
        self.mac16(yo | (xo << 10) | (zi << 20) | (na << 27) | (ix << 28) | (iy << 29));
    }
}

} // verus!
