//! The emulated backend: an in-memory model of the three register
//! files implementing the full capability surface.
//!
//! Every operation decodes the operand word the same way the hardware
//! does and is verified to mutate the byte vectors exactly as the
//! effect functions in [`crate::model`] dictate.  The arithmetic
//! families whose numerical behaviour is not modelled leave the
//! register files unchanged.

use vstd::prelude::*;

use vstd::pervasive::VecAdditionalExecFns;

use crate::model::{
    RegFiles, file_after_load, file_after_lut8, file_byte, file_le16, interleave_dest,
    interleaved_byte, lemma_interleave_inverse, lemma_interleave_step, lemma_load_none,
    lemma_load_step, lut8_output, mem_reg_offset, mem_size_bytes,
    regs_after_genlut, regs_after_load_x, regs_after_load_y, regs_after_load_z,
    regs_after_load_z_interleaved, regs_after_mac16, z_after_interleaved_load_n, z_after_mac16,
    zero_regs,
};
use crate::ops::AmxOps;

verus! {

use vstd::arithmetic::div_mod::{lemma_fundamental_div_mod, lemma_mod_bound};

/// An emulated coprocessor context holding its own register files.
#[derive(Clone, Debug)]
pub struct AmxEmuCtx {
    st: AmxSt,
}

/// The backing storage: one byte vector per register file.
#[derive(Clone, Debug)]
struct AmxSt {
    /// 8 rows of 64 bytes.
    x: Vec<u8>,
    /// 8 rows of 64 bytes.
    y: Vec<u8>,
    /// 64 rows of 64 bytes.
    z: Vec<u8>,
}

/// A vector of `n` zero bytes.
#[verifier::loop_isolation(false)]
pub(crate) fn zero_bytes(n: usize) -> (v: Vec<u8>)
    ensures
        v@ == Seq::new(n as nat, |i: int| 0u8),
{
    let mut v: Vec<u8> = Vec::new();
    while v.len() < n
        invariant
            v@.len() <= n,
            forall|i: int| 0 <= i < v@.len() ==> v@[i] == 0u8,
        decreases n - v.len(),
    {
        v.push(0u8);
    }
    proof {
        assert(v@ =~= Seq::new(n as nat, |i: int| 0u8));
    }
    v
}

impl AmxSt {
    /// A state with all register files zeroed.
    fn zeroed() -> (r: Self)
        ensures
            r.x@ == zero_regs().x,
            r.y@ == zero_regs().y,
            r.z@ == zero_regs().z,
    {
        AmxSt { x: zero_bytes(512), y: zero_bytes(512), z: zero_bytes(4096) }
    }
}

impl Default for AmxEmuCtx {
    fn default() -> (r: Self)
        ensures
            r.regs() == zero_regs(),
    {
        let r = AmxEmuCtx { st: AmxSt::zeroed() };
        proof {
            assert(r.regs() =~= zero_regs());
        }
        r
    }
}

impl AmxEmuCtx {
    /// Construct a brand new context with all register files zeroed.
    pub fn new() -> (r: Self)
        ensures
            r.regs() == zero_regs(),
    {
        Self::default()
    }
}

// ---------------------------------------------------------------------
// Decoding helpers
// ---------------------------------------------------------------------

/// Field bounds of the operand word, by bit blasting.
proof fn lemma_decode_bounds(w: u64)
    by (bit_vector)
    ensures
        (w >> 56) & 0x3f < 64,
        w & 0x3ff < 1024,
        (w >> 10) & 0x3ff < 1024,
        (w >> 20) & 1 < 2,
        (w >> 20) & 0x3f < 64,
        (w >> 53) & 0xf < 16,
        (w >> 60) & 0xf < 16,
{
}

/// Masks select residues: the low bits of a 32-bit value.
proof fn lemma_u32_low_bits(v: u32)
    by (bit_vector)
    ensures
        v & 0xffff == v % 0x10000,
        v & 0xff == v % 0x100,
        v >> 8 == v / 0x100,
{
}

/// Masks select residues: the nibbles of a byte.
proof fn lemma_u8_nibbles(b: u8)
    by (bit_vector)
    ensures
        b & 0xf == b % 16,
        b >> 4 == b / 16,
{
}

/// The row field of a load/store word.
fn decode_reg_offset(w: u64) -> (r: usize)
    ensures
        r == mem_reg_offset(w),
        r < 64,
{
    proof {
        lemma_decode_bounds(w);
    }
    ((w >> 56) & 0x3f) as usize
}

/// The transfer size of a load/store word, in bytes.
fn decode_size_bytes(w: u64) -> (n: usize)
    ensures
        n == mem_size_bytes(w),
{
    if (w >> 62) & 1 == 1 {
        128
    } else {
        64
    }
}

// ---------------------------------------------------------------------
// Shared file transfer loops
// ---------------------------------------------------------------------

/// Scatter `n` bytes of `data` into `file` starting at byte `off * 64`,
/// wrapping at the file size.
#[verifier::loop_isolation(false)]
fn load_file(file: &mut Vec<u8>, off: usize, data: &[u8], n: usize)
    requires
        0 < old(file)@.len() <= 4096,
        off < 64,
        n <= data@.len(),
        n <= old(file)@.len(),
        n <= 128,
    ensures
        final(file)@ == file_after_load(old(file)@, off as int * 64, data@, n as int),
{
    let m = file.len();
    let start = off * 64;
    proof {
        lemma_load_none(old(file)@, start as int, data@);
    }
    let mut j: usize = 0;
    while j < n
        invariant
            j <= n,
            file@.len() == m,
            file@ == file_after_load(old(file)@, start as int, data@, j as int),
        decreases n - j,
    {
        let p = (start + j) % m;
        proof {
            lemma_mod_bound((start + j) as int, m as int);
            lemma_load_step(old(file)@, start as int, data@, j as int);
        }
        file.set(p, data[j]);
        j += 1;
    }
}

/// Gather `n` bytes of `file` starting at byte `off * 64`, wrapping at
/// the file size, into `out[dst..dst + n]`.
#[verifier::loop_isolation(false)]
fn store_file(file: &Vec<u8>, off: usize, out: &mut Vec<u8>, dst: usize, n: usize)
    requires
        0 < file@.len() <= 4096,
        off < 64,
        n <= 128,
        dst + n <= old(out)@.len(),
    ensures
        final(out)@.len() == old(out)@.len(),
        forall|i: int|
            dst <= i < dst + n ==> final(out)@[i] == file_byte(file@, off as int * 64, i - dst),
        forall|i: int|
            0 <= i < final(out)@.len() && !(dst <= i < dst + n) ==> final(out)@[i] == old(out)@[i],
{
    let m = file.len();
    let total = out.len();
    let start = off * 64;
    let mut j: usize = 0;
    while j < n
        invariant
            j <= n,
            out@.len() == total,
            out@.len() == old(out)@.len(),
            forall|i: int|
                dst <= i < dst + j ==> out@[i] == file_byte(file@, start as int, i - dst),
            forall|i: int|
                0 <= i < out@.len() && !(dst <= i < dst + j) ==> out@[i] == old(out)@[i],
        decreases n - j,
    {
        let p = (start + j) % m;
        proof {
            lemma_mod_bound((start + j) as int, m as int);
        }
        out.set(dst + j, file[p]);
        j += 1;
    }
}

/// Overwrite row `row` of `file` with the 64 bytes of `data`.
#[verifier::loop_isolation(false)]
fn write_row(file: &mut Vec<u8>, row: usize, data: &Vec<u8>)
    requires
        (row + 1) * 64 <= old(file)@.len(),
        data@.len() == 64,
    ensures
        final(file)@.len() == old(file)@.len(),
        forall|i: int|
            row * 64 <= i < row * 64 + 64 ==> final(file)@[i] == data@[i - row * 64],
        forall|i: int|
            0 <= i < final(file)@.len() && !(row * 64 <= i < row * 64 + 64) ==> final(file)@[i]
                == old(file)@[i],
{
    let len = file.len();
    let base = row * 64;
    let mut j: usize = 0;
    while j < 64
        invariant
            j <= 64,
            file@.len() == len,
            file@.len() == old(file)@.len(),
            forall|i: int| base <= i < base + j ==> file@[i] == data@[i - base],
            forall|i: int|
                0 <= i < file@.len() && !(base <= i < base + j) ==> file@[i] == old(file)@[i],
        decreases 64 - j,
    {
        file.set(base + j, data[j]);
        j += 1;
    }
}

/// Destination byte in `z` for source byte `s` of an interleaved
/// transfer at row `index`.
fn interleave_dest_exec(index: usize, s: usize) -> (p: usize)
    requires
        index < 64,
        s < 64,
    ensures
        p == interleave_dest(index as int, s as int),
        p < 4096,
{
    proof {
        lemma_interleave_inverse(index as int, s as int);
        lemma_mod_bound(index as int, 2);
        lemma_fundamental_div_mod(index as int, 2);
        assert(index / 2 < 32) by (nonlinear_arith)
            requires
                index < 64,
                index as int == 2 * (index as int / 2) + index as int % 2,
                0 <= index as int % 2 < 2,
        ;
        lemma_mod_bound(s as int, 8);
        lemma_fundamental_div_mod(s as int, 8);
        assert(s / 8 < 8) by (nonlinear_arith)
            requires
                s < 64,
                s as int == 8 * (s as int / 8) + s as int % 8,
                0 <= s as int % 8 < 8,
        ;
    }
    let base = (index % 2) * 32 + (index / 2) * 128;
    let lane = s / 8;
    let b = s % 8;
    if b < 4 {
        base + lane * 4 + b
    } else {
        base + 64 + lane * 4 + (b - 4)
    }
}

/// The unsigned 16-bit lane of a 512-byte file at byte offset `off`,
/// each byte read with wrap-around.
fn le16_at(file: &Vec<u8>, off: usize) -> (v: u32)
    requires
        file@.len() == 512,
        off < 2048,
    ensures
        v == file_le16(file@, off as int, 0),
        v < 0x10000,
{
    proof {
        lemma_mod_bound(off as int, 512);
        lemma_mod_bound(off as int + 1, 512);
    }
    let lo = file[off % 512];
    let hi = file[(off + 1) % 512];
    lo as u32 + 256 * (hi as u32)
}

// ---------------------------------------------------------------------
// The capability surface
// ---------------------------------------------------------------------

impl AmxOps for AmxEmuCtx {
    closed spec fn regs(&self) -> RegFiles {
        RegFiles { x: self.st.x@, y: self.st.y@, z: self.st.z@ }
    }

    fn ldx(&mut self, w: u64, data: &[u8]) {
        let off = decode_reg_offset(w);
        let n = decode_size_bytes(w);
        load_file(&mut self.st.x, off, data, n);
        proof {
            assert(self.regs() =~= regs_after_load_x(old(self).regs(), w, data@));
        }
    }

    fn ldy(&mut self, w: u64, data: &[u8]) {
        let off = decode_reg_offset(w);
        let n = decode_size_bytes(w);
        load_file(&mut self.st.y, off, data, n);
        proof {
            assert(self.regs() =~= regs_after_load_y(old(self).regs(), w, data@));
        }
    }

    fn ldz(&mut self, w: u64, data: &[u8]) {
        let off = decode_reg_offset(w);
        let n = decode_size_bytes(w);
        load_file(&mut self.st.z, off, data, n);
        proof {
            assert(self.regs() =~= regs_after_load_z(old(self).regs(), w, data@));
        }
    }

    #[verifier::loop_isolation(false)]
    fn ldzi(&mut self, w: u64, data: &[u8]) {
        let index = decode_reg_offset(w);
        proof {
            assert(z_after_interleaved_load_n(old(self).st.z@, index as int, data@, 0)
                =~= old(self).st.z@);
        }
        let mut s: usize = 0;
        while s < 64
            invariant
                s <= 64,
                self.st.x@ == old(self).st.x@,
                self.st.y@ == old(self).st.y@,
                self.st.z@ == z_after_interleaved_load_n(
                    old(self).st.z@,
                    index as int,
                    data@,
                    s as int,
                ),
            decreases 64 - s,
        {
            let p = interleave_dest_exec(index, s);
            proof {
                lemma_interleave_step(old(self).st.z@, index as int, data@, s as int);
            }
            self.st.z.set(p, data[s]);
            s += 1;
        }
        proof {
            assert(self.regs() =~= regs_after_load_z_interleaved(old(self).regs(), w, data@));
        }
    }

    fn stx(&mut self, w: u64, out: &mut Vec<u8>, dst: usize) {
        let off = decode_reg_offset(w);
        let n = decode_size_bytes(w);
        store_file(&self.st.x, off, out, dst, n);
    }

    fn sty(&mut self, w: u64, out: &mut Vec<u8>, dst: usize) {
        let off = decode_reg_offset(w);
        let n = decode_size_bytes(w);
        store_file(&self.st.y, off, out, dst, n);
    }

    fn stz(&mut self, w: u64, out: &mut Vec<u8>, dst: usize) {
        let off = decode_reg_offset(w);
        let n = decode_size_bytes(w);
        store_file(&self.st.z, off, out, dst, n);
    }

    #[verifier::loop_isolation(false)]
    fn stzi(&mut self, w: u64, out: &mut Vec<u8>, dst: usize) {
        let index = decode_reg_offset(w);
        let total = out.len();
        let mut s: usize = 0;
        while s < 64
            invariant
                s <= 64,
                out@.len() == total,
                out@.len() == old(out)@.len(),
                forall|i: int|
                    dst <= i < dst + s ==> out@[i] == interleaved_byte(
                        self.st.z@,
                        index as int,
                        i - dst,
                    ),
                forall|i: int|
                    0 <= i < out@.len() && !(dst <= i < dst + s) ==> out@[i] == old(out)@[i],
            decreases 64 - s,
        {
            let p = interleave_dest_exec(index, s);
            out.set(dst + s, self.st.z[p]);
            s += 1;
        }
    }

    /// Not modelled: the register files are left unchanged.
    fn extrx(&mut self, w: u64)
        ensures
            final(self).regs() == old(self).regs(),
    {
    }

    /// Not modelled: the register files are left unchanged.
    fn extry(&mut self, w: u64)
        ensures
            final(self).regs() == old(self).regs(),
    {
    }

    /// Not modelled: the register files are left unchanged.
    fn fma64(&mut self, w: u64)
        ensures
            final(self).regs() == old(self).regs(),
    {
    }

    /// Not modelled: the register files are left unchanged.
    fn fms64(&mut self, w: u64)
        ensures
            final(self).regs() == old(self).regs(),
    {
    }

    /// Not modelled: the register files are left unchanged.
    fn fma32(&mut self, w: u64)
        ensures
            final(self).regs() == old(self).regs(),
    {
    }

    /// Not modelled: the register files are left unchanged.
    fn fms32(&mut self, w: u64)
        ensures
            final(self).regs() == old(self).regs(),
    {
    }

    #[verifier::loop_isolation(false)]
    fn mac16(&mut self, w: u64) {
        let igx = (w >> 28) & 1 == 1;
        let igy = (w >> 29) & 1 == 1;
        if igx || igy {
            return ;
        }
        proof {
            lemma_decode_bounds(w);
        }
        let x_off = ((w >> 10) & 0x3ff) as usize;
        let y_off = (w & 0x3ff) as usize;
        let zlsb = ((w >> 20) & 1) as usize;
        let acc = (w >> 27) & 1 == 0;
        let ghost target = z_after_mac16(
            self.st.x@,
            self.st.y@,
            self.st.z@,
            x_off as int,
            y_off as int,
            zlsb as int,
            acc,
        );
        let mut nz: Vec<u8> = Vec::new();
        let mut i: usize = 0;
        while i < 4096
            invariant
                i <= 4096,
                nz@.len() == i,
                forall|k: int| 0 <= k < i ==> nz@[k] == target[k],
            decreases 4096 - i,
        {
            let row = i / 64;
            let col = i % 64;
            proof {
                lemma_mod_bound(i as int, 64);
                lemma_fundamental_div_mod(i as int, 64);
                assert(row < 64) by (nonlinear_arith)
                    requires
                        i < 4096,
                        i as int == 64 * (row as int) + col as int,
                        0 <= col < 64,
                ;
            }
            let b: u8;
            if row % 2 == zlsb {
                let y_i = row - zlsb;
                let x_i = (col / 2) * 2;
                proof {
                    lemma_mod_bound(col as int, 2);
                    lemma_fundamental_div_mod(col as int, 2);
                    assert(x_i < 64) by (nonlinear_arith)
                        requires
                            col < 64,
                            col as int == 2 * (col as int / 2) + col as int % 2,
                            0 <= col as int % 2 < 2,
                            x_i == (col / 2) * 2,
                    ;
                }
                let xv = le16_at(&self.st.x, x_off + x_i);
                let yv = le16_at(&self.st.y, y_off + y_i);
                proof {
                    assert(xv * yv < 0xffffffff) by (nonlinear_arith)
                        requires
                            xv < 0x10000,
                            yv < 0x10000,
                    ;
                }
                let pr: u32 = xv * yv;
                proof {
                    lemma_u32_low_bits(pr);
                }
                let p16: u32 = pr & 0xffff;
                proof {
                    assert(file_le16(self.st.x@, x_off as int, x_i as int) == file_le16(
                        self.st.x@,
                        x_off as int + x_i as int,
                        0,
                    ));
                    assert(file_le16(self.st.y@, y_off as int, y_i as int) == file_le16(
                        self.st.y@,
                        y_off as int + y_i as int,
                        0,
                    ));
                }
                let ghost prod_s = (file_le16(self.st.x@, x_off as int, x_i as int) * file_le16(
                    self.st.y@,
                    y_off as int,
                    y_i as int,
                )) % 0x10000;
                proof {
                    assert(p16 == prod_s);
                }
                let v: u32 = if acc {
                    let zpos = row * 64 + x_i;
                    let zv: u32 = self.st.z[zpos] as u32 + 256 * (self.st.z[zpos + 1] as u32);
                    let sum: u32 = zv + p16;
                    proof {
                        lemma_u32_low_bits(sum);
                    }
                    sum & 0xffff
                } else {
                    p16
                };
                proof {
                    lemma_u32_low_bits(v);
                }
                b = if col % 2 == 0 {
                    (v & 0xff) as u8
                } else {
                    (v >> 8) as u8
                };
                proof {
                    assert(b == target[i as int]);
                }
            } else {
                b = self.st.z[i];
                proof {
                    assert(b == target[i as int]);
                }
            }
            nz.push(b);
            i += 1;
        }
        self.st.z = nz;
        proof {
            assert(self.st.z@ =~= target);
            assert(self.regs() =~= regs_after_mac16(old(self).regs(), w));
        }
    }

    /// Not modelled: the register files are left unchanged.
    fn fma16(&mut self, w: u64)
        ensures
            final(self).regs() == old(self).regs(),
    {
    }

    /// Not modelled: the register files are left unchanged.
    fn fms16(&mut self, w: u64)
        ensures
            final(self).regs() == old(self).regs(),
    {
    }

    /// Not modelled: the register files are left unchanged.
    fn vecint(&mut self, w: u64)
        ensures
            final(self).regs() == old(self).regs(),
    {
    }

    /// Not modelled: the register files are left unchanged.
    fn vecfp(&mut self, w: u64)
        ensures
            final(self).regs() == old(self).regs(),
    {
    }

    /// Not modelled: the register files are left unchanged.
    fn matint(&mut self, w: u64)
        ensures
            final(self).regs() == old(self).regs(),
    {
    }

    /// Not modelled: the register files are left unchanged.
    fn matfp(&mut self, w: u64)
        ensures
            final(self).regs() == old(self).regs(),
    {
    }

    #[verifier::loop_isolation(false)]
    fn genlut(&mut self, w: u64) {
        proof {
            lemma_decode_bounds(w);
        }
        // 13 is the byte-table mode, the one mode the model interprets
        let mode = ((w >> 53) & 0xf) as usize;
        if mode != 13 {
            return ;
        }
        let in_y = (w >> 10) & 1 == 1;
        let in_off = (w & 0x3ff) as usize;
        let out_z = (w >> 26) & 1 == 1;
        let out_y = !out_z && (w >> 25) & 1 == 1;
        let row6 = ((w >> 20) & 0x3f) as usize;
        let trow = ((w >> 60) & 0xf) as usize;
        let t8 = trow % 8;
        proof {
            lemma_mod_bound(trow as int, 8);
        }
        let ghost src = if in_y {
            self.st.y@
        } else {
            self.st.x@
        };
        let ghost table = self.st.x@.subrange(t8 as int * 64, t8 as int * 64 + 64);
        let mut outbuf: Vec<u8> = Vec::new();
        let mut i: usize = 0;
        while i < 64
            invariant
                i <= 64,
                outbuf@.len() == i,
                forall|k: int|
                    0 <= k < i ==> outbuf@[k] == lut8_output(src, in_off as int, table, k),
            decreases 64 - i,
        {
            proof {
                lemma_mod_bound((in_off + i / 2) as int, 512);
            }
            let idxb = if in_y {
                self.st.y[(in_off + i / 2) % 512]
            } else {
                self.st.x[(in_off + i / 2) % 512]
            };
            proof {
                lemma_u8_nibbles(idxb);
            }
            let nib = if i % 2 == 0 {
                (idxb & 0xf) as usize
            } else {
                (idxb >> 4) as usize
            };
            let val = self.st.x[t8 * 64 + nib];
            proof {
                assert(val == lut8_output(src, in_off as int, table, i as int));
            }
            outbuf.push(val);
            i += 1;
        }
        if out_z {
            let out_row = row6 % 64;
            write_row(&mut self.st.z, out_row, &outbuf);
            proof {
                assert(self.st.z@ =~= file_after_lut8(
                    old(self).st.z@,
                    out_row as int,
                    src,
                    in_off as int,
                    table,
                ));
                assert(self.regs() =~= regs_after_genlut(old(self).regs(), w));
            }
        } else if out_y {
            let out_row = row6 % 8;
            write_row(&mut self.st.y, out_row, &outbuf);
            proof {
                assert(self.st.y@ =~= file_after_lut8(
                    old(self).st.y@,
                    out_row as int,
                    src,
                    in_off as int,
                    table,
                ));
                assert(self.regs() =~= regs_after_genlut(old(self).regs(), w));
            }
        } else {
            let out_row = row6 % 8;
            write_row(&mut self.st.x, out_row, &outbuf);
            proof {
                assert(self.st.x@ =~= file_after_lut8(
                    old(self).st.x@,
                    out_row as int,
                    src,
                    in_off as int,
                    table,
                ));
                assert(self.regs() =~= regs_after_genlut(old(self).regs(), w));
            }
        }
    }
}

} // verus!
