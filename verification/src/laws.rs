//! The laws of the transfer and arithmetic semantics, as proved
//! statements over the model.

use vstd::prelude::*;

use crate::model::{
    file_after_load, file_after_lut8, file_byte, file_le16, interleave_dest, interleave_src,
    interleaved_byte, lemma_interleave_inverse, lemma_wrap_inverse, z_after_interleaved_load,
    z_after_mac16,
};

verus! {

use vstd::arithmetic::div_mod::{
    lemma_fundamental_div_mod, lemma_fundamental_div_mod_converse_div,
    lemma_fundamental_div_mod_converse_mod, lemma_mod_bound, lemma_mod_multiples_vanish,
};

/// Law (round trip): after a wrapped load of `n` bytes of `data` at
/// byte `start`, gathering `n` bytes from the same start returns the
/// pattern exactly, and every byte whose wrapped distance from
/// `start` is at least `n` is untouched.
pub proof fn lemma_load_store_round_trip(f: Seq<u8>, start: int, data: Seq<u8>, n: int)
    requires
        f.len() > 0,
        0 <= start,
        0 <= n <= f.len(),
        n <= data.len(),
    ensures
        forall|j: int|
            0 <= j < n ==> #[trigger] file_byte(file_after_load(f, start, data, n), start, j)
                == data[j],
        forall|i: int|
            0 <= i < f.len() && (#[trigger] file_after_load(f, start, data, n)[i]) != f[i] ==> (i
                - start) % (f.len() as int) < n,
{
    let m = f.len() as int;
    let g = file_after_load(f, start, data, n);
    assert forall|j: int| 0 <= j < n implies #[trigger] file_byte(g, start, j) == data[j] by {
        lemma_wrap_inverse(start, j, m);
    }
}

/// The row that byte `j` of a transfer at row `index` lands in: row
/// `index` for the first 64 bytes, the successor row, wrapping at the
/// file's row count, for the next 64.
pub proof fn lemma_wrapped_row(index: int, j: int, m: int)
    requires
        m == 512 || m == 4096,
        0 <= index < 64,
        0 <= j < 128,
    ensures
        ({
            let rows = m / 64;
            let i = (index * 64 + j) % m;
            i / 64 == (if j < 64 {
                index % rows
            } else {
                (index + 1) % rows
            })
        }),
{
    let rows = m / 64;
    let q = index / rows;
    let r0 = index % rows;
    lemma_fundamental_div_mod(index, rows);
    lemma_mod_bound(index, rows);
    assert(index * 64 + j == q * m + (r0 * 64 + j)) by (nonlinear_arith)
        requires
            index == rows * q + r0,
            m == rows * 64,
    ;
    if r0 * 64 + j < m {
        lemma_fundamental_div_mod_converse_mod(index * 64 + j, m, q, r0 * 64 + j);
        if j < 64 {
            lemma_fundamental_div_mod_converse_div(r0 * 64 + j, 64, r0, j);
        } else {
            lemma_fundamental_div_mod_converse_div(r0 * 64 + j, 64, r0 + 1, j - 64);
            lemma_fundamental_div_mod_converse_mod(index + 1, rows, q, r0 + 1);
        }
    } else {
        // only the last row can spill past the file's end
        assert(r0 == rows - 1 && j >= 64);
        lemma_fundamental_div_mod_converse_mod(index * 64 + j, m, q + 1, r0 * 64 + j - m);
        lemma_fundamental_div_mod_converse_div(r0 * 64 + j - m, 64, 0, r0 * 64 + j - m);
        lemma_fundamental_div_mod_converse_mod(index + 1, rows, q + 1, 0);
    }
}

/// Law (rows touched): a 64-byte transfer at row `index` changes no
/// byte outside row `index % rows`; a 128-byte transfer changes no
/// byte outside rows `index % rows` and `(index + 1) % rows`, where
/// `rows` is the file's row count.
pub proof fn lemma_transfer_touches_rows(f: Seq<u8>, index: int, data: Seq<u8>, n: int)
    requires
        f.len() == 512 || f.len() == 4096,
        0 <= index < 64,
        n == 64 || n == 128,
        n <= data.len(),
    ensures
        forall|i: int|
            0 <= i < f.len() && i / 64 != index % (f.len() as int / 64) && i / 64 != (index + 1) % (
            f.len() as int / 64) ==> #[trigger] file_after_load(f, index * 64, data, n)[i] == f[i],
        n == 64 ==> forall|i: int|
            0 <= i < f.len() && i / 64 != index % (f.len() as int / 64)
                ==> #[trigger] file_after_load(f, index * 64, data, n)[i] == f[i],
{
    let m = f.len() as int;
    let rows = m / 64;
    let start = index * 64;
    assert forall|i: int|
        0 <= i < m && #[trigger] file_after_load(f, start, data, n)[i] != f[i] implies i / 64
        == index % rows || (n == 128 && i / 64 == (index + 1) % rows) by {
        let j = (i - start) % m;
        lemma_mod_bound(i - start, m);
        assert(j < n);
        lemma_wrap_inverse(start, j, m);
        assert(i == (start + j) % m);
        lemma_wrapped_row(index, j, m);
    }
}

/// Law (interleaved round trip): an interleaved gather after an
/// interleaved load of the same row returns the pattern exactly; a
/// whole-file read decodes it under the lane-splitting rule, and
/// every byte the rule does not route to is untouched.
pub proof fn lemma_interleaved_round_trip(z: Seq<u8>, index: int, data: Seq<u8>)
    requires
        z.len() == 4096,
        0 <= index < 64,
        data.len() >= 64,
    ensures
        forall|s: int|
            0 <= s < 64 ==> #[trigger] interleaved_byte(
                z_after_interleaved_load(z, index, data),
                index,
                s,
            ) == data[s],
        forall|s: int|
            0 <= s < 64 ==> z_after_interleaved_load(z, index, data)[#[trigger] interleave_dest(
                index,
                s,
            )] == data[s],
        forall|i: int|
            0 <= i < 4096 && #[trigger] interleave_src(index, i) == -1
                ==> z_after_interleaved_load(z, index, data)[i] == z[i],
{
    let g = z_after_interleaved_load(z, index, data);
    assert forall|s: int| 0 <= s < 64 implies g[#[trigger] interleave_dest(index, s)]
        == data[s] by {
        lemma_interleave_inverse(index, s);
    }
    assert forall|s: int| 0 <= s < 64 implies #[trigger] interleaved_byte(g, index, s)
        == data[s] by {
        lemma_interleave_inverse(index, s);
    }
}

/// Law (outer product cells): with accumulation off, the result's row
/// `z_lsb + y_i` holds at bytes `x_i` and `x_i + 1` the little-endian
/// bytes of the product of the `x` lane at `x_off + x_i` and the `y`
/// lane at `y_off + y_i`, reduced modulo `2^16`, for every even `x_i`
/// and `y_i`; every row of the other parity is untouched.
pub proof fn lemma_outer_product_cells(
    x: Seq<u8>,
    y: Seq<u8>,
    z: Seq<u8>,
    x_off: int,
    y_off: int,
    z_lsb: int,
    x_i: int,
    y_i: int,
)
    requires
        x.len() == 512,
        y.len() == 512,
        z.len() == 4096,
        z_lsb == 0 || z_lsb == 1,
        0 <= x_i < 64 && x_i % 2 == 0,
        0 <= y_i < 64 && y_i % 2 == 0,
    ensures
        ({
            let row = z_lsb + y_i;
            let prod = (file_le16(x, x_off, x_i) * file_le16(y, y_off, y_i)) % 0x10000;
            let g = z_after_mac16(x, y, z, x_off, y_off, z_lsb, false);
            &&& g[row * 64 + x_i] == prod % 256
            &&& g[row * 64 + x_i + 1] == prod / 256
        }),
        forall|i: int|
            0 <= i < 4096 && (i / 64) % 2 != z_lsb ==> #[trigger] z_after_mac16(
                x,
                y,
                z,
                x_off,
                y_off,
                z_lsb,
                false,
            )[i] == z[i],
{
    let row = z_lsb + y_i;
    let i0 = row * 64 + x_i;
    lemma_fundamental_div_mod_converse_div(i0, 64, row, x_i);
    lemma_fundamental_div_mod_converse_mod(i0, 64, row, x_i);
    lemma_fundamental_div_mod_converse_div(i0 + 1, 64, row, x_i + 1);
    lemma_fundamental_div_mod_converse_mod(i0 + 1, 64, row, x_i + 1);
    lemma_fundamental_div_mod_converse_mod(row, 2, y_i / 2, z_lsb);
    lemma_fundamental_div_mod(y_i, 2);
    lemma_fundamental_div_mod_converse_div(x_i, 2, x_i / 2, 0);
    lemma_fundamental_div_mod(x_i, 2);
    lemma_fundamental_div_mod_converse_mod(x_i + 1, 2, x_i / 2, 1);
    lemma_fundamental_div_mod_converse_div(x_i + 1, 2, x_i / 2, 1);
}

/// Law (signed congruence): two's-complement 16-bit multiplication
/// leaves the same residue modulo `2^16` as the unsigned
/// multiplication of the same lane values, so the cells above are
/// exactly the wrapping products of the signed 16-bit lanes.
pub proof fn lemma_signed_product_congruence(xu: int, yu: int)
    requires
        0 <= xu < 0x10000,
        0 <= yu < 0x10000,
    ensures
        ({
            let xs = if xu >= 0x8000 {
                xu - 0x10000
            } else {
                xu
            };
            let ys = if yu >= 0x8000 {
                yu - 0x10000
            } else {
                yu
            };
            (xs * ys) % 0x10000 == (xu * yu) % 0x10000
        }),
{
    let xs = if xu >= 0x8000 {
        xu - 0x10000
    } else {
        xu
    };
    let ys = if yu >= 0x8000 {
        yu - 0x10000
    } else {
        yu
    };
    let a: int = if xu >= 0x8000 {
        1
    } else {
        0
    };
    let b: int = if yu >= 0x8000 {
        1
    } else {
        0
    };
    let k = a * b * 0x10000 - a * yu - b * xu;
    assert(xs * ys == 0x10000 * k + xu * yu) by (nonlinear_arith)
        requires
            xs == xu - a * 0x10000,
            ys == yu - b * 0x10000,
            k == a * b * 0x10000 - a * yu - b * xu,
    ;
    lemma_mod_multiples_vanish(k, xu * yu, 0x10000);
}

/// A decimal register number, prefixed with `0` and parsed as a
/// hexadecimal literal: each decimal digit lands in a hexadecimal
/// digit position.  This corruption arises when an assembler alias
/// that only prints the register's number in decimal is substituted
/// into a numeric literal.
pub open spec fn alias_misread(r: int) -> int {
    (r / 10) * 16 + r % 10
}

/// The algebraic reversal of [`alias_misread`] used inside the
/// instruction encoding: take the corrupted value's low and high
/// nibbles and recombine them as decimal place values.  The masking
/// form `(v & 0xf) + (v >> 4) * 10` computes exactly this, by
/// [`lemma_nibble_value`].
pub open spec fn recover_register_index(v: int) -> int {
    v % 16 + (v / 16) * 10
}

/// Law (register-index recovery): the nibble recombination recovers
/// the intended register number for every two-digit decimal number,
/// in particular for the whole legal register range.
pub proof fn lemma_register_index_recovery(r: int)
    requires
        0 <= r < 100,
    ensures
        recover_register_index(alias_misread(r)) == r,
{
    lemma_fundamental_div_mod(r, 10);
    lemma_mod_bound(r, 10);
    let m = alias_misread(r);
    lemma_fundamental_div_mod_converse_mod(m, 16, r / 10, r % 10);
    lemma_fundamental_div_mod_converse_div(m, 16, r / 10, r % 10);
}

/// Masking with `0xf` takes a value's residue modulo 16 and shifting
/// right by four divides by 16, so the bit form of the recovery
/// computes [`recover_register_index`].
pub proof fn lemma_nibble_value(v: u64)
    by (bit_vector)
    ensures
        v & 0xf == v % 16,
        v >> 4 == v / 16,
{
}

/// The high nibble of a byte is the byte shifted right by four, the
/// low nibble the byte masked; both agree with division and residue.
proof fn lemma_nibble_shift(b: u8)
    by (bit_vector)
    ensures
        (b >> 0) & 0xf == b % 16,
        (b >> 4) & 0xf == b / 16,
{
}

/// Law (byte-table lookup): every output byte of the byte-table mode
/// is the table byte selected by one nibble of the index bytes, low
/// nibble first: byte `i` of the output row is
/// `table[(indices[i / 2] >> ((i % 2) * 4)) & 0xf]`, with the index
/// bytes read at `in_off`, wrapping in their 512-byte file.
pub proof fn lemma_lut8_formula(
    file: Seq<u8>,
    out_row: int,
    src: Seq<u8>,
    in_off: int,
    table: Seq<u8>,
    i: int,
)
    requires
        0 <= out_row,
        (out_row + 1) * 64 <= file.len(),
        src.len() == 512,
        0 <= in_off,
        0 <= i < 64,
    ensures
        ({
            let b = src[(in_off + i / 2) % 512];
            let sh: u8 = if i % 2 == 0 {
                0
            } else {
                4
            };
            file_after_lut8(file, out_row, src, in_off, table)[out_row * 64 + i] == table[((b >> sh)
                & 0xf) as int]
        }),
{
    let b = src[(in_off + i / 2) % 512];
    lemma_nibble_shift(b);
}

} // verus!
