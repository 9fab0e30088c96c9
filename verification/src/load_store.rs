//! Operand-word encoding for loads and stores, and the row
//! polymorphism that maps each register address to the right
//! instructions.

use vstd::prelude::*;

use crate::model::{RegFiles, file_after_load, file_byte, mem_reg_offset, mem_size_bytes, regs_wf};
use crate::ops::AmxOps;
use crate::regs::{XRow, YRow, ZRow};

verus! {

/// The parameters of the load and store instructions.
///
/// The memory address is not part of the word here: every [`AmxOps`]
/// backend receives it as a separate parameter, and the low 56 bits
/// of the encoded word stay clear for a backend that embeds a
/// pointer.
#[derive(Copy, Clone)]
pub struct MemArgs {
    /// 6-bit register row in range `0..64`.
    pub reg_offset: u64,
    /// Transfer size.
    pub size: MemSize,
}

/// The two transfer sizes of the load and store instructions.
#[derive(Copy, Clone)]
pub enum MemSize {
    /// 64 bytes.
    _64,
    /// 128 bytes.
    _128,
}

impl MemSize {
    /// The transfer size in bytes.
    pub open spec fn bytes(self) -> int {
        match self {
            MemSize::_64 => 64,
            MemSize::_128 => 128,
        }
    }
}

/// Placing the row at bits `[56, 62)` and the size at bit 62 keeps the
/// fields recoverable and the pointer bits clear.
proof fn lemma_mem_encode(o: u64, s: u64)
    by (bit_vector)
    requires
        o < 64,
        s < 2,
    ensures
        (((o << 56) | (s << 62)) >> 56) & 0x3f == o,
        (((o << 56) | (s << 62)) >> 62) & 1 == s,
        ((o << 56) | (s << 62)) & 0x00ff_ffff_ffff_ffff == 0,
{
}

impl MemArgs {
    /// Pack the row and size into an operand word.
    pub fn encode(self) -> (w: u64)
        requires
            self.reg_offset < 64,
        ensures
            mem_reg_offset(w) == self.reg_offset,
            mem_size_bytes(w) == self.size.bytes(),
            w & 0x00ff_ffff_ffff_ffff == 0,
    {
        let sz: u64 = match self.size {
            MemSize::_64 => 0,
            MemSize::_128 => 1,
        };
        proof {
            lemma_mem_encode(self.reg_offset, sz);
        }
        (self.reg_offset << 56) | (sz << 62)
    }
}

/// Register row types supporting 512-bit and 1024-bit transfers.
///
/// Each implementation addresses one register file; the three spec
/// functions say which file and row the transfers touch.
pub trait LoadStore: Sized {
    /// The addressed row lies inside its register file.
    spec fn valid_spec(&self) -> bool;

    /// The register files after `n` bytes of `data` are loaded into
    /// the addressed row, wrapping modulo the file size.
    spec fn load_effect_spec(&self, r: RegFiles, data: Seq<u8>, n: int) -> RegFiles;

    /// The byte at distance `j` from the start of the addressed row,
    /// as a store reads it, wrapping modulo the file size.
    spec fn stored_byte_spec(&self, r: RegFiles, j: int) -> u8;

    /// Load 512 bits (64 bytes) from `data` into the register.
    fn load512<O: AmxOps>(&self, ops: &mut O, data: &[u8])
        requires
            self.valid_spec(),
            regs_wf(old(ops).regs()),
            data@.len() >= 64,
        ensures
            final(ops).regs() == self.load_effect_spec(old(ops).regs(), data@, 64),
    ;

    /// Store 512 bits (64 bytes) from the register into
    /// `out[dst..dst + 64]`.
    fn store512<O: AmxOps>(&self, ops: &mut O, out: &mut Vec<u8>, dst: usize)
        requires
            self.valid_spec(),
            regs_wf(old(ops).regs()),
            dst + 64 <= old(out)@.len(),
        ensures
            final(ops).regs() == old(ops).regs(),
            final(out)@.len() == old(out)@.len(),
            forall|i: int|
                dst <= i < dst + 64 ==> final(out)@[i] == self.stored_byte_spec(
                    old(ops).regs(),
                    i - dst,
                ),
            forall|i: int|
                0 <= i < final(out)@.len() && !(dst <= i < dst + 64) ==> final(out)@[i] == old(
                    out,
                )@[i],
    ;

    /// Load 1024 bits (128 bytes) from `data` into the register and
    /// its successor, wrapping modulo the row count.
    fn load1024_aligned<O: AmxOps>(&self, ops: &mut O, data: &[u8])
        requires
            self.valid_spec(),
            regs_wf(old(ops).regs()),
            data@.len() >= 128,
        ensures
            final(ops).regs() == self.load_effect_spec(old(ops).regs(), data@, 128),
    ;

    /// Store 1024 bits (128 bytes) from the register and its
    /// successor into `out[dst..dst + 128]`.
    fn store1024_aligned<O: AmxOps>(&self, ops: &mut O, out: &mut Vec<u8>, dst: usize)
        requires
            self.valid_spec(),
            regs_wf(old(ops).regs()),
            dst + 128 <= old(out)@.len(),
        ensures
            final(ops).regs() == old(ops).regs(),
            final(out)@.len() == old(out)@.len(),
            forall|i: int|
                dst <= i < dst + 128 ==> final(out)@[i] == self.stored_byte_spec(
                    old(ops).regs(),
                    i - dst,
                ),
            forall|i: int|
                0 <= i < final(out)@.len() && !(dst <= i < dst + 128) ==> final(out)@[i] == old(
                    out,
                )@[i],
    ;
}

impl LoadStore for XRow {
    open spec fn valid_spec(&self) -> bool {
        self.0 < 8
    }

    open spec fn load_effect_spec(&self, r: RegFiles, data: Seq<u8>, n: int) -> RegFiles {
        RegFiles { x: file_after_load(r.x, self.0 as int * 64, data, n), y: r.y, z: r.z }
    }

    open spec fn stored_byte_spec(&self, r: RegFiles, j: int) -> u8 {
        file_byte(r.x, self.0 as int * 64, j)
    }

    fn load512<O: AmxOps>(&self, ops: &mut O, data: &[u8]) {
        ops.ldx(MemArgs { reg_offset: self.0 as u64, size: MemSize::_64 }.encode(), data);
    }

    fn store512<O: AmxOps>(&self, ops: &mut O, out: &mut Vec<u8>, dst: usize) {
        ops.stx(MemArgs { reg_offset: self.0 as u64, size: MemSize::_64 }.encode(), out, dst);
    }

    fn load1024_aligned<O: AmxOps>(&self, ops: &mut O, data: &[u8]) {
        ops.ldx(MemArgs { reg_offset: self.0 as u64, size: MemSize::_128 }.encode(), data);
    }

    fn store1024_aligned<O: AmxOps>(&self, ops: &mut O, out: &mut Vec<u8>, dst: usize) {
        ops.stx(MemArgs { reg_offset: self.0 as u64, size: MemSize::_128 }.encode(), out, dst);
    }
}

impl LoadStore for YRow {
    open spec fn valid_spec(&self) -> bool {
        self.0 < 8
    }

    open spec fn load_effect_spec(&self, r: RegFiles, data: Seq<u8>, n: int) -> RegFiles {
        RegFiles { x: r.x, y: file_after_load(r.y, self.0 as int * 64, data, n), z: r.z }
    }

    open spec fn stored_byte_spec(&self, r: RegFiles, j: int) -> u8 {
        file_byte(r.y, self.0 as int * 64, j)
    }

    fn load512<O: AmxOps>(&self, ops: &mut O, data: &[u8]) {
        ops.ldy(MemArgs { reg_offset: self.0 as u64, size: MemSize::_64 }.encode(), data);
    }

    fn store512<O: AmxOps>(&self, ops: &mut O, out: &mut Vec<u8>, dst: usize) {
        ops.sty(MemArgs { reg_offset: self.0 as u64, size: MemSize::_64 }.encode(), out, dst);
    }

    fn load1024_aligned<O: AmxOps>(&self, ops: &mut O, data: &[u8]) {
        ops.ldy(MemArgs { reg_offset: self.0 as u64, size: MemSize::_128 }.encode(), data);
    }

    fn store1024_aligned<O: AmxOps>(&self, ops: &mut O, out: &mut Vec<u8>, dst: usize) {
        ops.sty(MemArgs { reg_offset: self.0 as u64, size: MemSize::_128 }.encode(), out, dst);
    }
}

impl LoadStore for ZRow {
    open spec fn valid_spec(&self) -> bool {
        self.0 < 64
    }

    open spec fn load_effect_spec(&self, r: RegFiles, data: Seq<u8>, n: int) -> RegFiles {
        RegFiles { x: r.x, y: r.y, z: file_after_load(r.z, self.0 as int * 64, data, n) }
    }

    open spec fn stored_byte_spec(&self, r: RegFiles, j: int) -> u8 {
        file_byte(r.z, self.0 as int * 64, j)
    }

    fn load512<O: AmxOps>(&self, ops: &mut O, data: &[u8]) {
        ops.ldz(MemArgs { reg_offset: self.0 as u64, size: MemSize::_64 }.encode(), data);
    }

    fn store512<O: AmxOps>(&self, ops: &mut O, out: &mut Vec<u8>, dst: usize) {
        ops.stz(MemArgs { reg_offset: self.0 as u64, size: MemSize::_64 }.encode(), out, dst);
    }

    fn load1024_aligned<O: AmxOps>(&self, ops: &mut O, data: &[u8]) {
        ops.ldz(MemArgs { reg_offset: self.0 as u64, size: MemSize::_128 }.encode(), data);
    }

    fn store1024_aligned<O: AmxOps>(&self, ops: &mut O, out: &mut Vec<u8>, dst: usize) {
        ops.stz(MemArgs { reg_offset: self.0 as u64, size: MemSize::_128 }.encode(), out, dst);
    }
}

} // verus!
