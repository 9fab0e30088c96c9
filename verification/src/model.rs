//! The mathematical model of the coprocessor.
//!
//! The register files are modelled as byte sequences: `x` and `y` hold
//! 512 bytes (8 rows of 64), `z` holds 4096 bytes (64 rows of 64).
//! Every instruction's effect is a function from [`RegFiles`] to
//! [`RegFiles`], parameterised by the 64-bit operand word; the decoding
//! of the word's bit fields is defined here as well, so that the
//! encoder, the backends and the laws all speak about one layout.

use vstd::prelude::*;

verus! {

use vstd::arithmetic::div_mod::{
    lemma_fundamental_div_mod, lemma_fundamental_div_mod_converse_div,
    lemma_fundamental_div_mod_converse_mod, lemma_mod_bound,
};

/// The three register files as mathematical byte sequences.
#[verifier::ext_equal]
pub struct RegFiles {
    /// 8 rows of 64 bytes.
    pub x: Seq<u8>,
    /// 8 rows of 64 bytes.
    pub y: Seq<u8>,
    /// 64 rows of 64 bytes.
    pub z: Seq<u8>,
}

/// The register files have their fixed hardware sizes.
pub open spec fn regs_wf(r: RegFiles) -> bool {
    &&& r.x.len() == 512
    &&& r.y.len() == 512
    &&& r.z.len() == 4096
}

/// The register files right after the coprocessor is enabled.
pub open spec fn zero_regs() -> RegFiles {
    RegFiles {
        x: Seq::new(512, |i: int| 0u8),
        y: Seq::new(512, |i: int| 0u8),
        z: Seq::new(4096, |i: int| 0u8),
    }
}

// ---------------------------------------------------------------------
// Operand-word bit fields
// ---------------------------------------------------------------------

/// Load/store words carry the destination row in bits `[56, 62)`.
pub open spec fn mem_reg_offset(w: u64) -> int {
    ((w >> 56) & 0x3f) as int
}

/// Load/store words carry the transfer size in bit 62:
/// clear means 64 bytes, set means 128 bytes.
pub open spec fn mem_size_bytes(w: u64) -> int {
    if (w >> 62) & 1 == 1 {
        128
    } else {
        64
    }
}

// ---------------------------------------------------------------------
// Load and store effects
// ---------------------------------------------------------------------

/// The file after `n` bytes of `data` are loaded starting at byte
/// `start`, wrapping modulo the file size.  Positions whose wrapped
/// distance from `start` is at least `n` keep their old contents.
pub open spec fn file_after_load(file: Seq<u8>, start: int, data: Seq<u8>, n: int) -> Seq<u8> {
    Seq::new(
        file.len(),
        |i: int|
            {
                let j = (i - start) % (file.len() as int);
                if j < n {
                    data[j]
                } else {
                    file[i]
                }
            },
    )
}

/// The byte a store reads for output position `j`: the file byte at
/// `start + j`, wrapping modulo the file size.
pub open spec fn file_byte(file: Seq<u8>, start: int, j: int) -> u8 {
    file[(start + j) % (file.len() as int)]
}

/// Effect of a load into `x`, with the row and size taken from the
/// operand word.
pub open spec fn regs_after_load_x(r: RegFiles, w: u64, data: Seq<u8>) -> RegFiles {
    RegFiles {
        x: file_after_load(r.x, mem_reg_offset(w) * 64, data, mem_size_bytes(w)),
        y: r.y,
        z: r.z,
    }
}

/// Effect of a load into `y`.
pub open spec fn regs_after_load_y(r: RegFiles, w: u64, data: Seq<u8>) -> RegFiles {
    RegFiles {
        x: r.x,
        y: file_after_load(r.y, mem_reg_offset(w) * 64, data, mem_size_bytes(w)),
        z: r.z,
    }
}

/// Effect of a load into `z`.
pub open spec fn regs_after_load_z(r: RegFiles, w: u64, data: Seq<u8>) -> RegFiles {
    RegFiles {
        x: r.x,
        y: r.y,
        z: file_after_load(r.z, mem_reg_offset(w) * 64, data, mem_size_bytes(w)),
    }
}

// ---------------------------------------------------------------------
// Interleaved transfers
// ---------------------------------------------------------------------

/// Destination byte in `z` for source byte `s` of a 64-byte interleaved
/// transfer addressed at row `index`.
///
/// The transfer works on the row pair `(index / 2) * 2` and its
/// successor, in the 32-byte column window selected by `index % 2`.
/// Each 8-byte lane of the source is split in two: its low 4 bytes land
/// in the first row of the pair, its high 4 bytes in the second row, at
/// the lane's 4-byte slot inside the window.
pub open spec fn interleave_dest(index: int, s: int) -> int {
    let base = (index % 2) * 32 + (index / 2) * 128;
    if s % 8 < 4 {
        base + (s / 8) * 4 + s % 8
    } else {
        base + 64 + (s / 8) * 4 + (s % 8 - 4)
    }
}

/// The source byte that an interleaved transfer at row `index` routes
/// to destination byte `i` of `z`, or `-1` for a byte the transfer
/// does not touch.  This is the inverse of [`interleave_dest`].
pub open spec fn interleave_src(index: int, i: int) -> int {
    let row = i / 64;
    let col = i % 64;
    let pair = (index / 2) * 2;
    let c0 = (index % 2) * 32;
    if row == pair && c0 <= col < c0 + 32 {
        ((col - c0) / 4) * 8 + (col - c0) % 4
    } else if row == pair + 1 && c0 <= col < c0 + 32 {
        ((col - c0) / 4) * 8 + 4 + (col - c0) % 4
    } else {
        -1
    }
}

/// `z` after the first `n` source bytes of a 64-byte interleaved load
/// at row `index` have been scattered.
pub open spec fn z_after_interleaved_load_n(
    z: Seq<u8>,
    index: int,
    data: Seq<u8>,
    n: int,
) -> Seq<u8> {
    Seq::new(
        z.len(),
        |i: int|
            {
                let s = interleave_src(index, i);
                if 0 <= s < n {
                    data[s]
                } else {
                    z[i]
                }
            },
    )
}

/// `z` after a 64-byte interleaved load at row `index`: a byte inside
/// the two touched 32-byte windows comes from the source lane that
/// [`interleave_dest`] routes there, every other byte keeps its old
/// contents.
pub open spec fn z_after_interleaved_load(z: Seq<u8>, index: int, data: Seq<u8>) -> Seq<u8> {
    z_after_interleaved_load_n(z, index, data, 64)
}

/// Effect of an interleaved load into `z`; the size bit is not
/// interpreted, the transfer is always 64 bytes.
pub open spec fn regs_after_load_z_interleaved(r: RegFiles, w: u64, data: Seq<u8>) -> RegFiles {
    RegFiles { x: r.x, y: r.y, z: z_after_interleaved_load(r.z, mem_reg_offset(w), data) }
}

/// The byte an interleaved store reads for output position `s`: the
/// inverse gather of [`interleave_dest`].
pub open spec fn interleaved_byte(z: Seq<u8>, index: int, s: int) -> u8 {
    z[interleave_dest(index, s)]
}

// ---------------------------------------------------------------------
// The 16-bit outer product
// ---------------------------------------------------------------------

/// Unsigned value of a little-endian byte pair.
pub open spec fn le16(lo: u8, hi: u8) -> int {
    lo + 256 * hi
}

/// The 16-bit lane of `file` at byte offset `off + i`, each of the two
/// bytes read with wrap-around modulo the file size.
pub open spec fn file_le16(file: Seq<u8>, off: int, i: int) -> int {
    le16(
        file[(off + i) % (file.len() as int)],
        file[(off + i + 1) % (file.len() as int)],
    )
}

/// `z` after the 16-bit outer-product instruction.
///
/// Every second row of `z`, with the parity `z_lsb` taken from the
/// operand word, receives one 16-bit product per lane: the row of
/// parity `z_lsb` at distance `y_i` holds, at lane byte `x_i`, the
/// product of the `x` lane at `x_off + x_i` and the `y` lane at
/// `y_off + y_i`, reduced modulo `2^16`.  Two's-complement 16-bit
/// multiplication produces exactly these bytes, so the unsigned
/// residue pins the signed semantics as well.  When `acc` is set the
/// product is added to the old lane value, again modulo `2^16`.
pub open spec fn z_after_mac16(
    x: Seq<u8>,
    y: Seq<u8>,
    z: Seq<u8>,
    x_off: int,
    y_off: int,
    z_lsb: int,
    acc: bool,
) -> Seq<u8> {
    Seq::new(
        z.len(),
        |i: int|
            {
                let row = i / 64;
                let col = i % 64;
                if row % 2 == z_lsb {
                    let y_i = row - z_lsb;
                    let x_i = (col / 2) * 2;
                    let prod = (file_le16(x, x_off, x_i) * file_le16(y, y_off, y_i)) % 0x10000;
                    let v = if acc {
                        (le16(z[row * 64 + x_i], z[row * 64 + x_i + 1]) + prod) % 0x10000
                    } else {
                        prod
                    };
                    if col % 2 == 0 {
                        (v % 256) as u8
                    } else {
                        (v / 256) as u8
                    }
                } else {
                    z[i]
                }
            },
    )
}

/// Outer-product words carry the `y` byte offset in bits `[0, 10)`.
pub open spec fn mac16_y_offset(w: u64) -> int {
    (w & 0x3ff) as int
}

/// Outer-product words carry the `x` byte offset in bits `[10, 20)`.
pub open spec fn mac16_x_offset(w: u64) -> int {
    ((w >> 10) & 0x3ff) as int
}

/// Of the `z` row field at bits `[20, 27)` only the least significant
/// bit matters: it selects the parity of the rows written.
pub open spec fn mac16_z_lsb(w: u64) -> int {
    ((w >> 20) & 1) as int
}

/// Bit 27 *suppresses* accumulation: the instruction accumulates
/// exactly when the bit is clear.  The inversion is part of the wire
/// format and must be preserved.
pub open spec fn mac16_accumulate(w: u64) -> bool {
    (w >> 27) & 1 == 0
}

/// Bit 28: do not read the `x` input.
pub open spec fn mac16_ignore_x(w: u64) -> bool {
    (w >> 28) & 1 == 1
}

/// Bit 29: do not read the `y` input.
pub open spec fn mac16_ignore_y(w: u64) -> bool {
    (w >> 29) & 1 == 1
}

/// Effect of the 16-bit outer-product instruction.
///
/// The behaviour with an ignored input is hardware-defined and only
/// partially characterised, so the model does not interpret those
/// words: the register files are left as they are.
pub open spec fn regs_after_mac16(r: RegFiles, w: u64) -> RegFiles {
    if mac16_ignore_x(w) || mac16_ignore_y(w) {
        r
    } else {
        RegFiles {
            x: r.x,
            y: r.y,
            z: z_after_mac16(
                r.x,
                r.y,
                r.z,
                mac16_x_offset(w),
                mac16_y_offset(w),
                mac16_z_lsb(w),
                mac16_accumulate(w),
            ),
        }
    }
}

// ---------------------------------------------------------------------
// The lookup-table instruction
// ---------------------------------------------------------------------

/// Lookup words carry the input byte offset in bits `[0, 10)`.
pub open spec fn lut_input_offset(w: u64) -> int {
    (w & 0x3ff) as int
}

/// Bit 10: the indices are read from `y` instead of `x`.
pub open spec fn lut_input_in_y(w: u64) -> bool {
    (w >> 10) & 1 == 1
}

/// Lookup words carry the output row in bits `[20, 26)`.  An output in
/// `x` or `y` only has 8 rows, so those targets read the field modulo
/// 8; the `y` discriminator at bit 25 is a multiple of 32 and so never
/// disturbs the row.
pub open spec fn lut_output_row(w: u64) -> int {
    ((w >> 20) & 0x3f) as int
}

/// Bit 25: the output row is in `y` (when bit 26 is clear).
pub open spec fn lut_output_in_y(w: u64) -> bool {
    (w >> 25) & 1 == 1
}

/// Bit 26: the output row is in `z`.
pub open spec fn lut_output_in_z(w: u64) -> bool {
    (w >> 26) & 1 == 1
}

/// Lookup words carry the mode code in bits `[53, 57)`.
pub open spec fn lut_mode(w: u64) -> int {
    ((w >> 53) & 0xf) as int
}

/// Lookup words carry the table row in bits `[60, 64)`.
pub open spec fn lut_table_row(w: u64) -> int {
    ((w >> 60) & 0xf) as int
}

/// The mode code of the byte-table lookup: 4-bit indices selecting
/// 8-bit values, applied in the normal direction.  This is the one
/// mode whose numerical behaviour the model interprets.
pub open spec fn lut_mode_byte_table() -> int {
    13
}

/// Output byte `i` of a byte-table lookup: the nibble `i` of the index
/// bytes read at `in_off` (low nibble first) selects a byte of the
/// 64-byte `table` row.
pub open spec fn lut8_output(src: Seq<u8>, in_off: int, table: Seq<u8>, i: int) -> u8 {
    let b = src[(in_off + i / 2) % (src.len() as int)];
    let nib = if i % 2 == 0 {
        (b as int) % 16
    } else {
        (b as int) / 16
    };
    table[nib]
}

/// A file after row `out_row` is overwritten with the 64 bytes of a
/// byte-table lookup; all other rows keep their contents.
pub open spec fn file_after_lut8(
    file: Seq<u8>,
    out_row: int,
    src: Seq<u8>,
    in_off: int,
    table: Seq<u8>,
) -> Seq<u8> {
    Seq::new(
        file.len(),
        |i: int|
            if out_row * 64 <= i < out_row * 64 + 64 {
                lut8_output(src, in_off, table, i - out_row * 64)
            } else {
                file[i]
            },
    )
}

/// Effect of the lookup-table instruction, from decoded parameters.
///
/// Only the byte-table mode is interpreted; the other fifteen modes
/// leave the model's register files unchanged.  The table always lives
/// in `x`, at the table row taken modulo the 8 rows of `x`.
pub open spec fn genlut_params_effect(
    r: RegFiles,
    mode: int,
    in_y: bool,
    in_off: int,
    out_z: bool,
    out_y: bool,
    out_row: int,
    trow: int,
) -> RegFiles {
    if mode == lut_mode_byte_table() {
        let src = if in_y {
            r.y
        } else {
            r.x
        };
        let table = r.x.subrange((trow % 8) * 64, (trow % 8) * 64 + 64);
        if out_z {
            RegFiles { x: r.x, y: r.y, z: file_after_lut8(r.z, out_row % 64, src, in_off, table) }
        } else if out_y {
            RegFiles { x: r.x, y: file_after_lut8(r.y, out_row % 8, src, in_off, table), z: r.z }
        } else {
            RegFiles { x: file_after_lut8(r.x, out_row % 8, src, in_off, table), y: r.y, z: r.z }
        }
    } else {
        r
    }
}

/// Effect of the lookup-table instruction, from the operand word.
pub open spec fn regs_after_genlut(r: RegFiles, w: u64) -> RegFiles {
    genlut_params_effect(
        r,
        lut_mode(w),
        lut_input_in_y(w),
        lut_input_offset(w),
        lut_output_in_z(w),
        lut_output_in_y(w) && !lut_output_in_z(w),
        lut_output_row(w),
        lut_table_row(w),
    )
}

// ---------------------------------------------------------------------
// Lemmas about wrapped addressing
// ---------------------------------------------------------------------

/// A wrapped load writes source byte `j` at `(start + j) % m` and
/// nowhere else.
pub proof fn lemma_wrap_inverse(start: int, j: int, m: int)
    requires
        0 < m,
        0 <= start,
        0 <= j < m,
    ensures
        0 <= (start + j) % m < m,
        ((start + j) % m - start) % m == j,
        forall|i: int| 0 <= i < m && #[trigger] ((i - start) % m) == j ==> i == (start + j) % m,
{
    lemma_mod_bound(start + j, m);
    let p = (start + j) % m;
    let q = (start + j) / m;
    lemma_fundamental_div_mod(start + j, m);
    assert(p - start == (-q) * m + j) by (nonlinear_arith)
        requires
            start + j == m * q + p,
    ;
    lemma_fundamental_div_mod_converse_mod(p - start, m, -q, j);
    assert forall|i: int| 0 <= i < m && #[trigger] ((i - start) % m) == j implies i == p by {
        let k = (i - start) / m;
        lemma_fundamental_div_mod(i - start, m);
        assert(start + j == (-k) * m + i) by (nonlinear_arith)
            requires
                i - start == m * k + j,
        ;
        lemma_fundamental_div_mod_converse_mod(start + j, m, -k, i);
    }
}

/// A load of no bytes changes nothing.
pub proof fn lemma_load_none(f: Seq<u8>, start: int, data: Seq<u8>)
    requires
        f.len() > 0,
    ensures
        file_after_load(f, start, data, 0) == f,
{
    let m = f.len() as int;
    assert forall|i: int| 0 <= i < m implies file_after_load(f, start, data, 0)[i] == f[i] by {
        lemma_mod_bound(i - start, m);
    }
    assert(file_after_load(f, start, data, 0) =~= f);
}

/// Scattering one more source byte extends a wrapped load by a single
/// point update.
pub proof fn lemma_load_step(f: Seq<u8>, start: int, data: Seq<u8>, j: int)
    requires
        f.len() > 0,
        0 <= start,
        0 <= j < f.len(),
        j < data.len(),
    ensures
        file_after_load(f, start, data, j + 1) == file_after_load(f, start, data, j).update(
            (start + j) % (f.len() as int),
            data[j],
        ),
{
    let m = f.len() as int;
    lemma_wrap_inverse(start, j, m);
    let p = (start + j) % m;
    let lhs = file_after_load(f, start, data, j + 1);
    let rhs = file_after_load(f, start, data, j).update(p, data[j]);
    assert forall|i: int| 0 <= i < m implies lhs[i] == rhs[i] by {
        lemma_mod_bound(i - start, m);
        if (i - start) % m == j {
            assert(i == p);
        }
    }
    assert(lhs =~= rhs);
}

// ---------------------------------------------------------------------
// Lemmas about the interleaving rule
// ---------------------------------------------------------------------

/// [`interleave_dest`] stays inside `z` and is inverted by
/// [`interleave_src`], which hits no other destination.
pub proof fn lemma_interleave_inverse(index: int, s: int)
    requires
        0 <= index < 64,
        0 <= s < 64,
    ensures
        0 <= interleave_dest(index, s) < 4096,
        interleave_src(index, interleave_dest(index, s)) == s,
        forall|i: int|
            0 <= i < 4096 && #[trigger] interleave_src(index, i) == s ==> i == interleave_dest(
                index,
                s,
            ),
{
    let pair = (index / 2) * 2;
    let c0 = (index % 2) * 32;
    let lane = s / 8;
    let b = s % 8;
    lemma_fundamental_div_mod(s, 8);
    lemma_mod_bound(s, 8);
    assert(0 <= lane < 8) by (nonlinear_arith)
        requires
            s == 8 * lane + b,
            0 <= s < 64,
            0 <= b < 8,
    ;
    lemma_mod_bound(index, 2);
    lemma_fundamental_div_mod(index, 2);
    assert(0 <= index / 2 < 32) by (nonlinear_arith)
        requires
            index == 2 * (index / 2) + index % 2,
            0 <= index < 64,
            0 <= index % 2 < 2,
    ;
    let d = interleave_dest(index, s);
    let colw = if b < 4 {
        lane * 4 + b
    } else {
        lane * 4 + (b - 4)
    };
    let row = if b < 4 {
        pair
    } else {
        pair + 1
    };
    assert(0 <= colw < 32);
    assert(d == row * 64 + (c0 + colw)) by (nonlinear_arith)
        requires
            d == interleave_dest(index, s),
            pair == (index / 2) * 2,
            c0 == (index % 2) * 32,
            colw == if b < 4 {
                lane * 4 + b
            } else {
                lane * 4 + (b - 4)
            },
            row == if b < 4 {
                pair
            } else {
                pair + 1
            },
            lane == s / 8,
            b == s % 8,
    ;
    lemma_fundamental_div_mod_converse_div(d, 64, row, c0 + colw);
    lemma_fundamental_div_mod_converse_mod(d, 64, row, c0 + colw);
    lemma_fundamental_div_mod_converse_div(colw, 4, lane, if b < 4 {
        b
    } else {
        b - 4
    });
    lemma_fundamental_div_mod_converse_mod(colw, 4, lane, if b < 4 {
        b
    } else {
        b - 4
    });
    assert(interleave_src(index, d) == s);
    assert(0 <= d < 4096);
    assert forall|i: int| 0 <= i < 4096 && #[trigger] interleave_src(index, i) == s implies i
        == d by {
        let irow = i / 64;
        let icol = i % 64;
        lemma_fundamental_div_mod(i, 64);
        lemma_mod_bound(i, 64);
        if irow == pair && c0 <= icol < c0 + 32 || irow == pair + 1 && c0 <= icol < c0 + 32 {
            let cw = icol - c0;
            lemma_fundamental_div_mod(cw, 4);
            lemma_mod_bound(cw, 4);
            let q = cw / 4;
            let r = cw % 4;
            if irow == pair && c0 <= icol < c0 + 32 {
                assert(q * 8 + r == s);
                lemma_fundamental_div_mod_converse_div(s, 8, q, r);
                lemma_fundamental_div_mod_converse_mod(s, 8, q, r);
            } else {
                assert(q * 8 + 4 + r == s);
                lemma_fundamental_div_mod_converse_div(s, 8, q, 4 + r);
                lemma_fundamental_div_mod_converse_mod(s, 8, q, 4 + r);
            }
        }
    }
}

/// Scattering one more source byte extends an interleaved load by a
/// single point update.
pub proof fn lemma_interleave_step(z: Seq<u8>, index: int, data: Seq<u8>, s: int)
    requires
        z.len() == 4096,
        0 <= index < 64,
        0 <= s < 64,
        data.len() >= 64,
    ensures
        z_after_interleaved_load_n(z, index, data, s + 1) == z_after_interleaved_load_n(
            z,
            index,
            data,
            s,
        ).update(interleave_dest(index, s), data[s]),
{
    lemma_interleave_inverse(index, s);
    let d = interleave_dest(index, s);
    let lhs = z_after_interleaved_load_n(z, index, data, s + 1);
    let rhs = z_after_interleaved_load_n(z, index, data, s).update(d, data[s]);
    assert forall|i: int| 0 <= i < 4096 implies lhs[i] == rhs[i] by {
        if interleave_src(index, i) == s {
            assert(i == d);
        }
    }
    assert(lhs =~= rhs);
}

} // verus!
