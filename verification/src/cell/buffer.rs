//! Runs of cells of an AMX: its arrays.
use vstd::prelude::*;
use vstd::slice::slice_subrange;

use crate::amx::{Amx, AmxView, CELL_SIZE};
use crate::cell::repr::AmxCell;
use crate::cell::Ref;
use crate::error::{AmxError, AmxResult};

verus! {

/// What a `Buffer` is to a specification: where it begins and how many
/// cells it spans.
pub struct BufferView {
    /// The address of the first cell.
    pub address: int,
    /// The number of cells.
    pub len: nat,
}

impl BufferView {
    /// The index in the data segment of the buffer's first cell.
    pub open spec fn start(self) -> int {
        self.address / (CELL_SIZE as int)
    }

    /// Whether the data segment of `amx` holds every cell of the buffer.
    pub open spec fn in_bounds(self, amx: AmxView) -> bool {
        0 <= self.address && self.start() + self.len <= amx.data.len()
    }

    /// The cells of the buffer in `amx`.
    pub open spec fn cells(self, amx: AmxView) -> Seq<i32> {
        amx.data.subrange(self.start(), self.start() + self.len)
    }
}

/// A run of cells of an AMX with a known length.
#[derive(Debug)]
pub struct Buffer {
    inner: Ref<i32>,
    len: usize,
}

impl View for Buffer {
    type V = BufferView;

    closed spec fn view(&self) -> BufferView {
        BufferView { address: self.inner@, len: self.len as nat }
    }
}

impl Buffer {
    /// A buffer of `len` cells that begins at the cell `reference` points to.
    pub fn new(reference: Ref<i32>, len: usize) -> (buffer: Buffer)
        ensures
            buffer@ == (BufferView { address: reference@, len: len as nat }),
    {
        Buffer { inner: reference, len }
    }

    /// The address of the first cell.
    pub fn address(&self) -> (address: i32)
        ensures
            address == self@.address,
    {
        self.inner.address()
    }

    /// The number of cells.
    pub fn len(&self) -> (len: usize)
        ensures
            len == self@.len,
    {
        self.len
    }

    /// Whether the buffer has no cell.
    pub fn is_empty(&self) -> (empty: bool)
        ensures
            empty == (self@.len == 0),
    {
        self.len == 0
    }

    /// Whether the data segment of `amx` holds every cell of the buffer.
    pub fn fits(&self, amx: &Amx) -> (fits: bool)
        ensures
            fits == self@.in_bounds(amx@),
    {
        let address: i32 = self.inner.address();
        if address < 0 {
            return false;
        }
        let cells: usize = amx.cells();
        let start: usize = (address / CELL_SIZE) as usize;
        start <= cells && self.len <= cells - start
    }

    /// The cells of the buffer.
    pub fn as_slice<'a>(&self, amx: &'a Amx) -> (cells: &'a [i32])
        requires
            self@.in_bounds(amx@),
        ensures
            cells@ == self@.cells(amx@),
    {
        let _ = amx.cells();
        let start: usize = (self.inner.address() / CELL_SIZE) as usize;
        slice_subrange(amx.segment(), start, start + self.len)
    }

    /// The cell at `index`.
    pub fn get(&self, amx: &Amx, index: usize) -> (cell: i32)
        requires
            self@.in_bounds(amx@),
            index < self@.len,
        ensures
            cell == self@.cells(amx@)[index as int],
    {
        let _ = amx.cells();
        let address: i32 = self.inner.address() / CELL_SIZE * CELL_SIZE + (index as i32)
            * CELL_SIZE;
        amx.read_cell(address)
    }

    /// Writes `value` to the cell at `index`. No other cell changes.
    pub fn set(&self, amx: &mut Amx, index: usize, value: i32)
        requires
            self@.in_bounds(old(amx)@),
            index < self@.len,
        ensures
            final(amx)@ == (AmxView {
                data: old(amx)@.data.update(self@.start() + index, value),
                ..old(amx)@
            }),
            self@.cells(final(amx)@) == self@.cells(old(amx)@).update(index as int, value),
    {
        let _ = amx.cells();
        let address: i32 = self.inner.address() / CELL_SIZE * CELL_SIZE + (index as i32)
            * CELL_SIZE;
        amx.write_cell(address, value);
    }
}

impl AmxCell for Buffer {
    /// A buffer is never read out of a cell: the cell does not tell its
    /// length. An `UnsizedBuffer` is, and is given its length afterwards.
    open spec fn from_raw_spec(amx: AmxView, cell: i32) -> AmxResult<Buffer> {
        Err(AmxError::General)
    }

    open spec fn as_cell_spec(&self) -> i32 {
        self@.address as i32
    }

    fn from_raw(amx: &Amx, cell: i32) -> (value: AmxResult<Buffer>) {
        Err(AmxError::General)
    }

    fn as_cell(&self) -> (cell: i32) {
        self.inner.address()
    }
}

/// A run of cells whose length the AMX did not tell: what a native is
/// handed for an array argument.
#[derive(Debug)]
pub struct UnsizedBuffer {
    inner: Ref<i32>,
}

impl View for UnsizedBuffer {
    type V = int;

    /// The address of the first cell.
    closed spec fn view(&self) -> int {
        self.inner@
    }
}

impl UnsizedBuffer {
    /// The buffer with the length `len`. The length is taken on trust:
    /// nothing in the AMX tells how long an array is.
    pub fn into_sized_buffer(self, len: usize) -> (buffer: Buffer)
        ensures
            buffer@ == (BufferView { address: self@, len: len as nat }),
    {
        Buffer::new(self.inner, len)
    }

    /// The address of the first cell.
    pub fn address(&self) -> (address: i32)
        ensures
            address == self@,
    {
        self.inner.address()
    }
}

impl AmxCell for UnsizedBuffer {
    open spec fn from_raw_spec(amx: AmxView, cell: i32) -> AmxResult<UnsizedBuffer> {
        if amx.is_valid_address(cell as int) {
            Ok(unsized_buffer_at(cell))
        } else {
            Err(AmxError::MemoryAccess)
        }
    }

    open spec fn as_cell_spec(&self) -> i32 {
        self@ as i32
    }

    fn from_raw(amx: &Amx, cell: i32) -> (value: AmxResult<UnsizedBuffer>) {
        match amx.get_ref::<i32>(cell) {
            Ok(inner) => {
                let buffer = UnsizedBuffer { inner };
                proof {
                    lemma_unsized_buffer_at(buffer);
                }
                Ok(buffer)
            },
            Err(error) => Err(error),
        }
    }

    fn as_cell(&self) -> (cell: i32) {
        self.inner.address()
    }
}

/// The buffer of `len` cells that begins at `address`.
pub closed spec fn buffer_at(address: i32, len: usize) -> Buffer {
    Buffer { inner: crate::cell::ref_at(address), len }
}

/// Where the buffer at an address begins, and how long it is.
pub proof fn lemma_buffer_view(address: i32, len: usize)
    ensures
        buffer_at(address, len)@ == (BufferView { address: address as int, len: len as nat }),
{
    crate::cell::lemma_ref_view::<i32>(address);
}

/// A buffer is the buffer at its address with its length.
pub proof fn lemma_buffer_at(buffer: Buffer)
    ensures
        buffer == buffer_at(buffer@.address as i32, buffer@.len as usize),
{
    crate::cell::lemma_ref_at(buffer.inner);
}

/// The unsized buffer that begins at `address`.
pub closed spec fn unsized_buffer_at(address: i32) -> UnsizedBuffer {
    UnsizedBuffer { inner: crate::cell::ref_at(address) }
}

/// Where the buffer at an address begins.
pub proof fn lemma_unsized_buffer_view(address: i32)
    ensures
        unsized_buffer_at(address)@ == address,
{
    crate::cell::lemma_ref_view::<i32>(address);
}

proof fn lemma_unsized_buffer_at(buffer: UnsizedBuffer)
    ensures
        buffer == unsized_buffer_at(buffer@ as i32),
{
    crate::cell::lemma_ref_at(buffer.inner);
}

} // verus!
