//! Register addressing: rows and byte offsets of the three files.

use vstd::prelude::*;

verus! {

/// A row (register) in the `x` register file.
///
/// The row index must be in range `0..8`.
#[derive(Default, Debug, Copy, Clone, Ord, PartialOrd, Eq, PartialEq, Structural)]
pub struct XRow(pub usize);

/// A row (register) in the `y` register file.
///
/// The row index must be in range `0..8`.
#[derive(Default, Debug, Copy, Clone, Ord, PartialOrd, Eq, PartialEq, Structural)]
pub struct YRow(pub usize);

/// A row (register) in the `z` register file.
///
/// The row index must be in range `0..64`.
#[derive(Default, Debug, Copy, Clone, Ord, PartialOrd, Eq, PartialEq, Structural)]
pub struct ZRow(pub usize);

/// A byte offset into the `x` register file, used by the lookup-table
/// input addressing.
///
/// The byte offset must be in range `0..512`.
#[derive(Default, Debug, Copy, Clone, Ord, PartialOrd, Eq, PartialEq, Structural)]
pub struct XBytes(pub usize);

/// A byte offset into the `y` register file, used by the lookup-table
/// input addressing.
///
/// The byte offset must be in range `0..512`.
#[derive(Default, Debug, Copy, Clone, Ord, PartialOrd, Eq, PartialEq, Structural)]
pub struct YBytes(pub usize);

} // verus!
