//! How values of the host are laid out in a cell.
use vstd::prelude::*;

use crate::amx::{Amx, AmxView};
use crate::error::{AmxError, AmxResult};

verus! {

/// A value that crosses between the host and an AMX through one cell:
/// borrowed from the AMX, or copied out of it where it is a primitive.
pub trait AmxCell: Sized {
    /// What `from_raw` makes of `cell` in an AMX in the state `amx`.
    spec fn from_raw_spec(amx: AmxView, cell: i32) -> AmxResult<Self>;

    /// What `as_cell` hands to the AMX.
    spec fn as_cell_spec(&self) -> i32;

    /// Reads the value that `cell` stands for in `amx`.
    fn from_raw(amx: &Amx, cell: i32) -> (value: AmxResult<Self>)
        ensures
            value == Self::from_raw_spec(amx@, cell),
    ;

    /// The cell that is passed to the AMX for this value.
    fn as_cell(&self) -> (cell: i32)
        ensures
            cell == self.as_cell_spec(),
    ;
}

/// A value that a single cell holds: it is no wider than the 32 bits of a
/// cell, and is stored on the stack or the heap of an AMX as it is.
///
/// The integers up to 32 bits, `usize`, `isize`, `bool` and `FloatBits` are
/// primitives.
pub trait AmxPrimitive: Sized + Copy {
    /// The value that a cell holds.
    spec fn from_cell_spec(cell: i32) -> Self;

    /// The cell that holds the value.
    spec fn to_cell_spec(self) -> i32;

    /// Reads the value out of a cell.
    fn from_cell(cell: i32) -> (value: Self)
        ensures
            value == Self::from_cell_spec(cell),
    ;

    /// Lays the value out in a cell.
    fn to_cell(self) -> (cell: i32)
        ensures
            cell == self.to_cell_spec(),
    ;
}

impl<T: AmxPrimitive> AmxCell for T {
    open spec fn from_raw_spec(amx: AmxView, cell: i32) -> AmxResult<T> {
        Ok(T::from_cell_spec(cell))
    }

    open spec fn as_cell_spec(&self) -> i32 {
        self.to_cell_spec()
    }

    fn from_raw(amx: &Amx, cell: i32) -> (value: AmxResult<T>) {
        Ok(T::from_cell(cell))
    }

    fn as_cell(&self) -> (cell: i32) {
        self.to_cell()
    }
}

impl AmxPrimitive for i8 {
    open spec fn from_cell_spec(cell: i32) -> i8 {
        cell as i8
    }

    open spec fn to_cell_spec(self) -> i32 {
        self as i32
    }

    fn from_cell(cell: i32) -> (value: i8) {
        #[verifier::truncate]
        (cell as i8)
    }

    fn to_cell(self) -> (cell: i32) {
        self as i32
    }
}

impl AmxPrimitive for u8 {
    open spec fn from_cell_spec(cell: i32) -> u8 {
        cell as u8
    }

    open spec fn to_cell_spec(self) -> i32 {
        self as i32
    }

    fn from_cell(cell: i32) -> (value: u8) {
        #[verifier::truncate]
        (cell as u8)
    }

    fn to_cell(self) -> (cell: i32) {
        self as i32
    }
}

impl AmxPrimitive for i16 {
    open spec fn from_cell_spec(cell: i32) -> i16 {
        cell as i16
    }

    open spec fn to_cell_spec(self) -> i32 {
        self as i32
    }

    fn from_cell(cell: i32) -> (value: i16) {
        #[verifier::truncate]
        (cell as i16)
    }

    fn to_cell(self) -> (cell: i32) {
        self as i32
    }
}

impl AmxPrimitive for u16 {
    open spec fn from_cell_spec(cell: i32) -> u16 {
        cell as u16
    }

    open spec fn to_cell_spec(self) -> i32 {
        self as i32
    }

    fn from_cell(cell: i32) -> (value: u16) {
        #[verifier::truncate]
        (cell as u16)
    }

    fn to_cell(self) -> (cell: i32) {
        self as i32
    }
}

impl AmxPrimitive for i32 {
    open spec fn from_cell_spec(cell: i32) -> i32 {
        cell
    }

    open spec fn to_cell_spec(self) -> i32 {
        self
    }

    fn from_cell(cell: i32) -> (value: i32) {
        cell
    }

    fn to_cell(self) -> (cell: i32) {
        self
    }
}

impl AmxPrimitive for u32 {
    open spec fn from_cell_spec(cell: i32) -> u32 {
        cell as u32
    }

    open spec fn to_cell_spec(self) -> i32 {
        self as i32
    }

    fn from_cell(cell: i32) -> (value: u32) {
        #[verifier::truncate]
        (cell as u32)
    }

    fn to_cell(self) -> (cell: i32) {
        #[verifier::truncate]
        (self as i32)
    }
}

impl AmxPrimitive for usize {
    open spec fn from_cell_spec(cell: i32) -> usize {
        cell as usize
    }

    open spec fn to_cell_spec(self) -> i32 {
        self as i32
    }

    fn from_cell(cell: i32) -> (value: usize) {
        #[verifier::truncate]
        (cell as usize)
    }

    fn to_cell(self) -> (cell: i32) {
        #[verifier::truncate]
        (self as i32)
    }
}

impl AmxPrimitive for isize {
    open spec fn from_cell_spec(cell: i32) -> isize {
        cell as isize
    }

    open spec fn to_cell_spec(self) -> i32 {
        self as i32
    }

    fn from_cell(cell: i32) -> (value: isize) {
        cell as isize
    }

    fn to_cell(self) -> (cell: i32) {
        #[verifier::truncate]
        (self as i32)
    }
}

impl AmxPrimitive for bool {
    /// Every cell but zero is `true`.
    open spec fn from_cell_spec(cell: i32) -> bool {
        cell != 0
    }

    /// `true` is one and `false` is zero, whatever the host's own layout of
    /// a `bool` is.
    open spec fn to_cell_spec(self) -> i32 {
        if self {
            1
        } else {
            0
        }
    }

    fn from_cell(cell: i32) -> (value: bool) {
        cell != 0
    }

    fn to_cell(self) -> (cell: i32) {
        if self {
            1
        } else {
            0
        }
    }
}

/// A 32-bit IEEE-754 number, held as its bit pattern. A cell carries the
/// pattern itself, never the number converted to an integer, so every
/// pattern, the NaN payloads and the sign of zero with it, crosses unchanged.
#[derive(Debug, Clone, Copy, PartialEq, Eq, Structural)]
pub struct FloatBits {
    pub bits: u32,
}

impl FloatBits {
    /// The number with the bit pattern `bits`.
    pub fn from_bits(bits: u32) -> (float: FloatBits)
        ensures
            float.bits == bits,
    {
        FloatBits { bits }
    }

    /// The bit pattern of the number.
    pub fn to_bits(self) -> (bits: u32)
        ensures
            bits == self.bits,
    {
        self.bits
    }
}

impl AmxPrimitive for FloatBits {
    open spec fn from_cell_spec(cell: i32) -> FloatBits {
        FloatBits { bits: cell as u32 }
    }

    open spec fn to_cell_spec(self) -> i32 {
        self.bits as i32
    }

    fn from_cell(cell: i32) -> (value: FloatBits) {
        FloatBits {
            bits: #[verifier::truncate]
            (cell as u32),
        }
    }

    fn to_cell(self) -> (cell: i32) {
        #[verifier::truncate]
        (self.bits as i32)
    }
}

/// A float survives the way through a cell bit for bit: decoding the cell
/// that encodes a bit pattern gives that pattern again, whatever it is and
/// whatever state the AMX is in.
pub proof fn lemma_float_round_trip(amx: AmxView, float: FloatBits)
    ensures
        FloatBits::from_cell_spec(float.to_cell_spec()) == float,
        FloatBits::from_raw_spec(amx, float.as_cell_spec()) == Ok::<FloatBits, AmxError>(float),
{
    let bits = float.bits;
    assert((bits as i32) as u32 == bits) by (bit_vector);
}

/// A cell survives the way through a float: no two cells decode to the same
/// bit pattern.
pub proof fn lemma_float_cell_round_trip(cell: i32)
    ensures
        FloatBits::from_cell_spec(cell).to_cell_spec() == cell,
{
    assert((cell as u32) as i32 == cell) by (bit_vector);
}

/// Booleans survive the way through a cell, and every cell but zero decodes
/// to `true`, whatever state the AMX is in.
pub proof fn lemma_bool_round_trip(amx: AmxView, value: bool, cell: i32)
    ensures
        bool::from_raw_spec(amx, value.as_cell_spec()) == Ok::<bool, AmxError>(value),
        true.as_cell_spec() == 1,
        false.as_cell_spec() == 0,
        bool::from_raw_spec(amx, cell) == Ok::<bool, AmxError>(cell != 0),
{
}

/// The integers of up to 32 bits survive the way through a cell: the cell
/// holds the value extended to 32 bits, and decoding truncates it again.
pub proof fn lemma_integer_round_trip(a: i8, b: u8, c: i16, d: u16, e: i32, f: u32)
    ensures
        i8::from_cell_spec(a.to_cell_spec()) == a,
        u8::from_cell_spec(b.to_cell_spec()) == b,
        i16::from_cell_spec(c.to_cell_spec()) == c,
        u16::from_cell_spec(d.to_cell_spec()) == d,
        i32::from_cell_spec(e.to_cell_spec()) == e,
        u32::from_cell_spec(f.to_cell_spec()) == f,
{
    assert((a as i32) as i8 == a) by (bit_vector);
    assert((b as i32) as u8 == b) by (bit_vector);
    assert((c as i32) as i16 == c) by (bit_vector);
    assert((d as i32) as u16 == d) by (bit_vector);
    assert((f as i32) as u32 == f) by (bit_vector);
}

} // verus!
