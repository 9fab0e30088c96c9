//! The minimal capability surface: one method per physical instruction.
//!
//! Every method is parameterised by the 64-bit operand word; load and
//! store methods additionally take the memory operand as a byte slice
//! or byte vector, so that a backend needs no knowledge of pointers.
//! The contracts are stated over the abstract register files that
//! [`AmxOps::regs`] assigns to the backend, and every backend must
//! mutate its files exactly as the operand-word semantics in
//! [`crate::model`] dictate.

use vstd::prelude::*;

use crate::model::{
    RegFiles, file_byte, interleaved_byte, mem_reg_offset, mem_size_bytes, regs_after_genlut,
    regs_after_load_x, regs_after_load_y, regs_after_load_z, regs_after_load_z_interleaved,
    regs_after_mac16, regs_wf,
};

verus! {

/// All coprocessor instructions except enable and disable, as trait
/// methods over an abstract view of the three register files.
///
/// The arithmetic instruction families other than the 16-bit outer
/// product and the byte-table lookup have no interpreted numerical
/// semantics in the model; their contracts only keep the register
/// files well-formed.
pub trait AmxOps: Sized {
    /// The backend's register files.
    spec fn regs(&self) -> RegFiles;

    /// Load `mem_size_bytes(w)` bytes of `data` into `x` at the row
    /// the word selects, wrapping modulo the file size.
    fn ldx(&mut self, w: u64, data: &[u8])
        requires
            regs_wf(old(self).regs()),
            data@.len() >= mem_size_bytes(w),
        ensures
            final(self).regs() == regs_after_load_x(old(self).regs(), w, data@),
    ;

    /// Load into `y`; the counterpart of [`AmxOps::ldx`].
    fn ldy(&mut self, w: u64, data: &[u8])
        requires
            regs_wf(old(self).regs()),
            data@.len() >= mem_size_bytes(w),
        ensures
            final(self).regs() == regs_after_load_y(old(self).regs(), w, data@),
    ;

    /// Load into `z`; the counterpart of [`AmxOps::ldx`].
    fn ldz(&mut self, w: u64, data: &[u8])
        requires
            regs_wf(old(self).regs()),
            data@.len() >= mem_size_bytes(w),
        ensures
            final(self).regs() == regs_after_load_z(old(self).regs(), w, data@),
    ;

    /// Interleaved 64-byte load into the row pair of `z` the word
    /// selects, under the lane-splitting rule of
    /// [`crate::model::interleave_dest`].
    fn ldzi(&mut self, w: u64, data: &[u8])
        requires
            regs_wf(old(self).regs()),
            data@.len() >= 64,
        ensures
            final(self).regs() == regs_after_load_z_interleaved(old(self).regs(), w, data@),
    ;

    /// Store `mem_size_bytes(w)` bytes of `x`, starting at the row the
    /// word selects and wrapping modulo the file size, into
    /// `out[dst..dst + mem_size_bytes(w)]`.  All other bytes of `out`
    /// and the register files are untouched.
    fn stx(&mut self, w: u64, out: &mut Vec<u8>, dst: usize)
        requires
            regs_wf(old(self).regs()),
            dst + mem_size_bytes(w) <= old(out)@.len(),
        ensures
            final(self).regs() == old(self).regs(),
            final(out)@.len() == old(out)@.len(),
            forall|i: int|
                dst <= i < dst + mem_size_bytes(w) ==> final(out)@[i] == file_byte(
                    old(self).regs().x,
                    mem_reg_offset(w) * 64,
                    i - dst,
                ),
            forall|i: int|
                0 <= i < final(out)@.len() && !(dst <= i < dst + mem_size_bytes(w)) ==> final(out)@[i] == old(
                    out,
                )@[i],
    ;

    /// Store from `y`; the counterpart of [`AmxOps::stx`].
    fn sty(&mut self, w: u64, out: &mut Vec<u8>, dst: usize)
        requires
            regs_wf(old(self).regs()),
            dst + mem_size_bytes(w) <= old(out)@.len(),
        ensures
            final(self).regs() == old(self).regs(),
            final(out)@.len() == old(out)@.len(),
            forall|i: int|
                dst <= i < dst + mem_size_bytes(w) ==> final(out)@[i] == file_byte(
                    old(self).regs().y,
                    mem_reg_offset(w) * 64,
                    i - dst,
                ),
            forall|i: int|
                0 <= i < final(out)@.len() && !(dst <= i < dst + mem_size_bytes(w)) ==> final(out)@[i] == old(
                    out,
                )@[i],
    ;

    /// Store from `z`; the counterpart of [`AmxOps::stx`].
    fn stz(&mut self, w: u64, out: &mut Vec<u8>, dst: usize)
        requires
            regs_wf(old(self).regs()),
            dst + mem_size_bytes(w) <= old(out)@.len(),
        ensures
            final(self).regs() == old(self).regs(),
            final(out)@.len() == old(out)@.len(),
            forall|i: int|
                dst <= i < dst + mem_size_bytes(w) ==> final(out)@[i] == file_byte(
                    old(self).regs().z,
                    mem_reg_offset(w) * 64,
                    i - dst,
                ),
            forall|i: int|
                0 <= i < final(out)@.len() && !(dst <= i < dst + mem_size_bytes(w)) ==> final(out)@[i] == old(
                    out,
                )@[i],
    ;

    /// Interleaved 64-byte store: the inverse gather of
    /// [`AmxOps::ldzi`], into `out[dst..dst + 64]`.
    fn stzi(&mut self, w: u64, out: &mut Vec<u8>, dst: usize)
        requires
            regs_wf(old(self).regs()),
            dst + 64 <= old(out)@.len(),
        ensures
            final(self).regs() == old(self).regs(),
            final(out)@.len() == old(out)@.len(),
            forall|i: int|
                dst <= i < dst + 64 ==> final(out)@[i] == interleaved_byte(
                    old(self).regs().z,
                    mem_reg_offset(w),
                    i - dst,
                ),
            forall|i: int|
                0 <= i < final(out)@.len() && !(dst <= i < dst + 64) ==> final(out)@[i] == old(out)@[i],
    ;

    /// Extract a row into `x`; numerical semantics not modelled.
    fn extrx(&mut self, w: u64)
        requires
            regs_wf(old(self).regs()),
        ensures
            regs_wf(final(self).regs()),
    ;

    /// Extract a row into `y`; numerical semantics not modelled.
    fn extry(&mut self, w: u64)
        requires
            regs_wf(old(self).regs()),
        ensures
            regs_wf(final(self).regs()),
    ;

    /// 64-bit fused multiply-add; numerical semantics not modelled.
    fn fma64(&mut self, w: u64)
        requires
            regs_wf(old(self).regs()),
        ensures
            regs_wf(final(self).regs()),
    ;

    /// 64-bit fused multiply-subtract; numerical semantics not modelled.
    fn fms64(&mut self, w: u64)
        requires
            regs_wf(old(self).regs()),
        ensures
            regs_wf(final(self).regs()),
    ;

    /// 32-bit fused multiply-add; numerical semantics not modelled.
    fn fma32(&mut self, w: u64)
        requires
            regs_wf(old(self).regs()),
        ensures
            regs_wf(final(self).regs()),
    ;

    /// 32-bit fused multiply-subtract; numerical semantics not modelled.
    fn fms32(&mut self, w: u64)
        requires
            regs_wf(old(self).regs()),
        ensures
            regs_wf(final(self).regs()),
    ;

    /// The 16-bit integer outer product with optional accumulation,
    /// exactly as [`crate::model::regs_after_mac16`] dictates.
    fn mac16(&mut self, w: u64)
        requires
            regs_wf(old(self).regs()),
        ensures
            final(self).regs() == regs_after_mac16(old(self).regs(), w),
    ;

    /// 16-bit fused multiply-add; numerical semantics not modelled.
    fn fma16(&mut self, w: u64)
        requires
            regs_wf(old(self).regs()),
        ensures
            regs_wf(final(self).regs()),
    ;

    /// 16-bit fused multiply-subtract; numerical semantics not modelled.
    fn fms16(&mut self, w: u64)
        requires
            regs_wf(old(self).regs()),
        ensures
            regs_wf(final(self).regs()),
    ;

    /// Integer vector operation; numerical semantics not modelled.
    fn vecint(&mut self, w: u64)
        requires
            regs_wf(old(self).regs()),
        ensures
            regs_wf(final(self).regs()),
    ;

    /// Floating-point vector operation; numerical semantics not
    /// modelled.
    fn vecfp(&mut self, w: u64)
        requires
            regs_wf(old(self).regs()),
        ensures
            regs_wf(final(self).regs()),
    ;

    /// Integer matrix operation; numerical semantics not modelled.
    fn matint(&mut self, w: u64)
        requires
            regs_wf(old(self).regs()),
        ensures
            regs_wf(final(self).regs()),
    ;

    /// Floating-point matrix operation; numerical semantics not
    /// modelled.
    fn matfp(&mut self, w: u64)
        requires
            regs_wf(old(self).regs()),
        ensures
            regs_wf(final(self).regs()),
    ;

    /// The table lookup, exactly as
    /// [`crate::model::regs_after_genlut`] dictates.
    fn genlut(&mut self, w: u64)
        requires
            regs_wf(old(self).regs()),
        ensures
            final(self).regs() == regs_after_genlut(old(self).regs(), w),
    ;
}

} // verus!
