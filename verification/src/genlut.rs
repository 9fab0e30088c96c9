//! The table-lookup instruction: typed tags for its closed set of
//! modes, and the encoding of its operand word.

use vstd::prelude::*;

use crate::model::{genlut_params_effect, regs_after_genlut, regs_wf};
use crate::ops::AmxOps;
use crate::regs::{XBytes, XRow, YBytes, YRow, ZRow};

verus! {

use vstd::arithmetic::div_mod::{lemma_mod_multiples_vanish, lemma_small_mod};

/// The trait for marker types specifying the lookup-table mode.
///
/// The types implementing this trait are in the form
/// `(direction, index, value)`:
///
///  - `direction` is either [`Normal`] or [`Reverse`];
///  - `index` is the data type for indices;
///  - `value` is the data type for looked-up values.
///
/// Exactly the sixteen legal combinations implement the trait, so an
/// illegal combination is rejected at compile time.
pub trait LutTy {
    /// The mode code of this combination.
    spec fn mode_spec(&self) -> int;

    /// The raw mode number for the lookup-table instruction.
    fn genlut_mode(&self) -> (r: u64)
        ensures
            r == self.mode_spec(),
            r < 16,
    ;
}

/// Specifies the normal application of a look-up table.
pub struct Normal;

/// Specifies the reversed application of a look-up table.
pub struct Reverse;

/// Two-bit table indices.
pub struct Index2;

/// Four-bit table indices.
pub struct Index4;

/// Five-bit (tightly-packed) table indices.
pub struct Index5;

/// A tag for the 16-bit floating-point number data type.
pub struct F16;

/// A tag for the 32-bit floating-point number data type.
pub struct F32;

/// A tag for the 64-bit floating-point number data type.
pub struct F64;

/// A tag for the 16-bit unsigned integer type.
pub struct U16;

/// A tag for the 32-bit unsigned integer type.
pub struct U32;

/// A tag for the 64-bit unsigned integer type.
pub struct U64;

/// A tag for the 16-bit signed integer type.
pub struct I16;

/// A tag for the 32-bit signed integer type.
pub struct I32;

/// A tag for the 64-bit signed integer type.
pub struct I64;

/// A tag for an 8-bit type.
pub struct X8;

/// A tag for a 16-bit type.
pub struct X16;

/// A tag for a 32-bit type.
pub struct X32;

/// A tag for a 64-bit type.
pub struct X64;

impl LutTy for (Reverse, Index4, F32) {
    open spec fn mode_spec(&self) -> int {
        0
    }

    fn genlut_mode(&self) -> (r: u64) {
        0
    }
}

impl LutTy for (Reverse, Index5, F16) {
    open spec fn mode_spec(&self) -> int {
        1
    }

    fn genlut_mode(&self) -> (r: u64) {
        1
    }
}

impl LutTy for (Reverse, Index4, F64) {
    open spec fn mode_spec(&self) -> int {
        2
    }

    fn genlut_mode(&self) -> (r: u64) {
        2
    }
}

impl LutTy for (Reverse, Index4, I32) {
    open spec fn mode_spec(&self) -> int {
        3
    }

    fn genlut_mode(&self) -> (r: u64) {
        3
    }
}

impl LutTy for (Reverse, Index5, I16) {
    open spec fn mode_spec(&self) -> int {
        4
    }

    fn genlut_mode(&self) -> (r: u64) {
        4
    }
}

impl LutTy for (Reverse, Index4, U32) {
    open spec fn mode_spec(&self) -> int {
        5
    }

    fn genlut_mode(&self) -> (r: u64) {
        5
    }
}

impl LutTy for (Reverse, Index5, U16) {
    open spec fn mode_spec(&self) -> int {
        6
    }

    fn genlut_mode(&self) -> (r: u64) {
        6
    }
}

impl LutTy for (Normal, Index2, X32) {
    open spec fn mode_spec(&self) -> int {
        7
    }

    fn genlut_mode(&self) -> (r: u64) {
        7
    }
}

impl LutTy for (Normal, Index2, X16) {
    open spec fn mode_spec(&self) -> int {
        8
    }

    fn genlut_mode(&self) -> (r: u64) {
        8
    }
}

impl LutTy for (Normal, Index2, X8) {
    open spec fn mode_spec(&self) -> int {
        9
    }

    fn genlut_mode(&self) -> (r: u64) {
        9
    }
}

impl LutTy for (Normal, Index4, X64) {
    open spec fn mode_spec(&self) -> int {
        10
    }

    fn genlut_mode(&self) -> (r: u64) {
        10
    }
}

impl LutTy for (Normal, Index4, X32) {
    open spec fn mode_spec(&self) -> int {
        11
    }

    fn genlut_mode(&self) -> (r: u64) {
        11
    }
}

impl LutTy for (Normal, Index4, X16) {
    open spec fn mode_spec(&self) -> int {
        12
    }

    fn genlut_mode(&self) -> (r: u64) {
        12
    }
}

impl LutTy for (Normal, Index4, X8) {
    open spec fn mode_spec(&self) -> int {
        13
    }

    fn genlut_mode(&self) -> (r: u64) {
        13
    }
}

impl LutTy for (Normal, Index5, X16) {
    open spec fn mode_spec(&self) -> int {
        14
    }

    fn genlut_mode(&self) -> (r: u64) {
        14
    }
}

impl LutTy for (Normal, Index5, X8) {
    open spec fn mode_spec(&self) -> int {
        15
    }

    fn genlut_mode(&self) -> (r: u64) {
        15
    }
}

/// The input field layout: the byte offset sits in the low 10 bits,
/// the file discriminator at bit 10.
proof fn lemma_lut_input_encode(o: u64)
    by (bit_vector)
    requires
        o < 512,
    ensures
        o & 0x3ff == o,
        (o >> 10) & 1 == 0,
        (o | 0x400) & 0x3ff == o,
        ((o | 0x400) >> 10) & 1 == 1,
        o < 0x800,
        (o | 0x400) < 0x800,
{
}

/// The output field layout: the row sits at bits `[20, 26)`, the file
/// discriminators at bits 25 and 26, and nothing else is set.
proof fn lemma_lut_output_encode(r: u64)
    by (bit_vector)
    requires
        r < 64,
    ensures
        ((r << 20) >> 20) & 0x3f == r,
        (((r << 20) | 0x2000000) >> 20) & 0x3f == r + 32 || r >= 32,
        r < 8 ==> (((r << 20) | 0x2000000) >> 20) & 0x3f == r + 32,
        (((r << 20) | 0x4000000) >> 20) & 0x3f == r,
        ((r << 20) >> 26) & 1 == 0,
        (((r << 20) | 0x2000000) >> 26) & 1 == 0,
        (((r << 20) | 0x4000000) >> 26) & 1 == 1,
        ((r << 20) >> 25) & 1 == 0 || r >= 32,
        r < 32 ==> ((r << 20) >> 25) & 1 == 0,
        (((r << 20) | 0x2000000) >> 25) & 1 == 1,
        (r << 20) & 0xffff_ffff_f80f_ffff == 0,
        ((r << 20) | 0x2000000) & 0xffff_ffff_f80f_ffff == 0,
        ((r << 20) | 0x4000000) & 0xffff_ffff_f80f_ffff == 0,
{
}

/// The trait representing the lookup-table instruction's input, which
/// can be either [`XBytes`] or [`YBytes`].
pub trait LutIn {
    /// Byte offset of the indices inside their file.
    spec fn offset_spec(&self) -> int;

    /// The indices are read from `y` instead of `x`.
    spec fn in_y_spec(&self) -> bool;

    /// The offset lies inside the file.
    spec fn valid_spec(&self) -> bool;

    /// The input half of the operand word.
    fn as_genlut_input_param(&self) -> (r: u64)
        requires
            self.valid_spec(),
        ensures
            r & 0x3ff == self.offset_spec(),
            ((r >> 10) & 1 == 1) == self.in_y_spec(),
            r < 0x800,
    ;
}

impl LutIn for XBytes {
    open spec fn offset_spec(&self) -> int {
        self.0 as int
    }

    open spec fn in_y_spec(&self) -> bool {
        false
    }

    open spec fn valid_spec(&self) -> bool {
        self.0 < 512
    }

    fn as_genlut_input_param(&self) -> (r: u64) {
        proof {
            lemma_lut_input_encode(self.0 as u64);
        }
        self.0 as u64
    }
}

impl LutIn for YBytes {
    open spec fn offset_spec(&self) -> int {
        self.0 as int
    }

    open spec fn in_y_spec(&self) -> bool {
        true
    }

    open spec fn valid_spec(&self) -> bool {
        self.0 < 512
    }

    fn as_genlut_input_param(&self) -> (r: u64) {
        proof {
            lemma_lut_input_encode(self.0 as u64);
        }
        self.0 as u64 | 0x400
    }
}

/// The trait representing the lookup-table instruction's output,
/// which can be either [`XRow`], [`YRow`], or [`ZRow`].
pub trait LutOut {
    /// The destination row inside its file.
    spec fn row_spec(&self) -> int;

    /// The output goes to `y`.
    spec fn out_in_y_spec(&self) -> bool;

    /// The output goes to `z`.
    spec fn out_in_z_spec(&self) -> bool;

    /// The row lies inside its file.
    spec fn valid_spec(&self) -> bool;

    /// The output half of the operand word: only bits `[20, 27)` are
    /// occupied, and the row field of an output in `y` carries the
    /// discriminator bit, which vanishes modulo the 8 rows.
    fn as_genlut_output_param(&self) -> (r: u64)
        requires
            self.valid_spec(),
        ensures
            0 <= self.row_spec(),
            self.out_in_z_spec() ==> self.row_spec() < 64,
            !self.out_in_z_spec() ==> self.row_spec() < 8,
            ((r >> 26) & 1 == 1) == self.out_in_z_spec(),
            !self.out_in_z_spec() ==> (((r >> 25) & 1 == 1) == self.out_in_y_spec()),
            ((r >> 20) & 0x3f) as int == (if self.out_in_y_spec() && !self.out_in_z_spec() {
                self.row_spec() + 32
            } else {
                self.row_spec()
            }),
            r & 0xffff_ffff_f80f_ffff == 0,
    ;
}

impl LutOut for XRow {
    open spec fn row_spec(&self) -> int {
        self.0 as int
    }

    open spec fn out_in_y_spec(&self) -> bool {
        false
    }

    open spec fn out_in_z_spec(&self) -> bool {
        false
    }

    open spec fn valid_spec(&self) -> bool {
        self.0 < 8
    }

    fn as_genlut_output_param(&self) -> (r: u64) {
        proof {
            lemma_lut_output_encode(self.0 as u64);
        }
        (self.0 as u64) << 20
    }
}

impl LutOut for YRow {
    open spec fn row_spec(&self) -> int {
        self.0 as int
    }

    open spec fn out_in_y_spec(&self) -> bool {
        true
    }

    open spec fn out_in_z_spec(&self) -> bool {
        false
    }

    open spec fn valid_spec(&self) -> bool {
        self.0 < 8
    }

    fn as_genlut_output_param(&self) -> (r: u64) {
        proof {
            lemma_lut_output_encode(self.0 as u64);
        }
        ((self.0 as u64) << 20) | 0x2000000
    }
}

impl LutOut for ZRow {
    open spec fn row_spec(&self) -> int {
        self.0 as int
    }

    open spec fn out_in_y_spec(&self) -> bool {
        false
    }

    open spec fn out_in_z_spec(&self) -> bool {
        true
    }

    open spec fn valid_spec(&self) -> bool {
        self.0 < 64
    }

    fn as_genlut_output_param(&self) -> (r: u64) {
        proof {
            lemma_lut_output_encode(self.0 as u64);
        }
        ((self.0 as u64) << 20) | 0x4000000
    }
}

/// Field recovery for the assembled lookup-table operand word.
proof fn lemma_genlut_encode(a: u64, b: u64, m: u64, t: u64)
    by (bit_vector)
    requires
        a < 0x800,
        b & 0xffff_ffff_f80f_ffff == 0,
        m < 16,
        t < 16,
    ensures
        ({
            let w = a | b | (m << 53) | (t << 60);
            &&& w & 0x3ff == a & 0x3ff
            &&& (w >> 10) & 1 == (a >> 10) & 1
            &&& (w >> 20) & 0x3f == (b >> 20) & 0x3f
            &&& (w >> 25) & 1 == (b >> 25) & 1
            &&& (w >> 26) & 1 == (b >> 26) & 1
            &&& (w >> 53) & 0xf == m
            &&& (w >> 60) & 0xf == t
        }),
{
}

/// Perform a table lookup: the indices are read at `input`, the
/// values from `x` row `table`, and one looked-up value per output
/// element is written to `output`, as the mode describes.
pub fn lut<O: AmxOps, I: LutIn, U: LutOut, M: LutTy>(
    ops: &mut O,
    input: I,
    table: XRow,
    output: U,
    mode: M,
)
    requires
        regs_wf(old(ops).regs()),
        input.valid_spec(),
        output.valid_spec(),
        table.0 < 8,
    ensures
        final(ops).regs() == genlut_params_effect(
            old(ops).regs(),
            mode.mode_spec(),
            input.in_y_spec(),
            input.offset_spec(),
            output.out_in_z_spec(),
            output.out_in_y_spec(),
            output.row_spec(),
            table.0 as int,
        ),
{
    let a = input.as_genlut_input_param();
    let b = output.as_genlut_output_param();
    let m = mode.genlut_mode();
    let t = table.0 as u64;
    proof {
        lemma_genlut_encode(a, b, m, t);
    }
    let w = a | b | (m << 53) | (t << 60);
    ops.genlut(w);
    proof {
        if output.out_in_z_spec() {
            lemma_small_mod(output.row_spec() as nat, 64);
        } else if output.out_in_y_spec() {
            // the discriminator bit adds 32 to the row field, a
            // multiple of the 8 rows of `y`
            lemma_mod_multiples_vanish(4, output.row_spec(), 8);
            lemma_small_mod(output.row_spec() as nat, 8);
        } else {
            lemma_small_mod(output.row_spec() as nat, 8);
        }
        assert(regs_after_genlut(old(ops).regs(), w) =~= genlut_params_effect(
            old(ops).regs(),
            mode.mode_spec(),
            input.in_y_spec(),
            input.offset_spec(),
            output.out_in_z_spec(),
            output.out_in_y_spec(),
            output.row_spec(),
            table.0 as int,
        ));
    }
}

} // verus!
