//! References to cells of an AMX.
use core::marker::PhantomData;
use vstd::prelude::*;

use crate::amx::{Amx, AmxView};
use crate::cell::repr::{AmxCell, AmxPrimitive};
use crate::error::{AmxError, AmxResult};

pub mod buffer;
pub mod repr;
pub mod string;

pub use crate::cell::buffer::{Buffer, UnsizedBuffer};
pub use crate::cell::string::AmxString;

verus! {

/// A reference to a cell of an AMX, held as the cell's address in the data
/// segment. The cell itself is reached through the `Amx`.
#[derive(Debug)]
pub struct Ref<T: AmxPrimitive> {
    amx_addr: i32,
    marker: PhantomData<T>,
}

impl<T: AmxPrimitive> View for Ref<T> {
    type V = int;

    closed spec fn view(&self) -> int {
        self.amx_addr as int
    }
}

impl<T: AmxPrimitive> Ref<T> {
    /// A reference to the cell at `amx_addr`. Nothing is checked here:
    /// `Amx::get_ref` is the checked way to a reference.
    pub fn new(amx_addr: i32) -> (reference: Ref<T>)
        ensures
            reference@ == amx_addr,
    {
        Ref { amx_addr, marker: PhantomData }
    }

    /// The address of the cell inside the AMX.
    pub fn address(&self) -> (address: i32)
        ensures
            address == self@,
    {
        self.amx_addr
    }

    /// The value in the cell. Bounds are checked when a reference is
    /// made, not here: the address has to lie inside the segment, as that
    /// of every reference does that `Amx::get_ref` handed out.
    pub fn read(&self, amx: &Amx) -> (value: T)
        requires
            amx@.in_segment(self@),
        ensures
            value == T::from_cell_spec(amx@.cell_at(self@)),
    {
        T::from_cell(amx.read_cell(self.amx_addr))
    }

    /// Writes `value` to the cell, straight into the segment: whoever
    /// reads the cell next sees it.
    pub fn write(&self, amx: &mut Amx, value: T)
        requires
            old(amx)@.in_segment(self@),
        ensures
            final(amx)@ == old(amx)@.store(self@, value.to_cell_spec()),
    {
        amx.write_cell(self.amx_addr, value.to_cell());
    }
}

impl<T: AmxPrimitive> AmxCell for Ref<T> {
    /// A cell that holds a valid address is a reference to the cell at that
    /// address; any other cell is a `MemoryAccess` error.
    open spec fn from_raw_spec(amx: AmxView, cell: i32) -> AmxResult<Ref<T>> {
        if amx.is_valid_address(cell as int) {
            Ok(ref_at(cell))
        } else {
            Err(AmxError::MemoryAccess)
        }
    }

    open spec fn as_cell_spec(&self) -> i32 {
        self@ as i32
    }

    fn from_raw(amx: &Amx, cell: i32) -> (value: AmxResult<Ref<T>>) {
        match amx.get_ref::<T>(cell) {
            Ok(reference) => {
                proof {
                    lemma_ref_at(reference);
                }
                Ok(reference)
            },
            Err(error) => Err(error),
        }
    }

    fn as_cell(&self) -> (cell: i32) {
        self.amx_addr
    }
}

/// The reference to the cell at `address`.
pub closed spec fn ref_at<T: AmxPrimitive>(address: i32) -> Ref<T> {
    Ref { amx_addr: address, marker: PhantomData }
}

/// Where the reference to an address points.
pub proof fn lemma_ref_view<T: AmxPrimitive>(address: i32)
    ensures
        ref_at::<T>(address)@ == address,
{
}

/// A reference is the reference to its address.
pub proof fn lemma_ref_at<T: AmxPrimitive>(reference: Ref<T>)
    ensures
        reference == ref_at::<T>(reference@ as i32),
{
}

} // verus!
