//! The data segment of an AMX and the registers that bound it, the heap
//! allocator, and what the answers of the AMX to the host's calls mean.
//!
//! The segment is one run of cells. The data and the heap grow from its
//! bottom, the stack grows down from its top, and the gap between the heap
//! pointer and the stack pointer belongs to neither. Addresses count
//! bytes from the bottom of the segment; the cell that holds an address is
//! the one with the index `address / 4`.
use vstd::prelude::*;
use vstd::string::StringSliceAdditionalSpecFns;

use crate::cell::buffer::BufferView;
use crate::cell::repr::{AmxCell, AmxPrimitive};
use crate::cell::string::{write_text, StringView};
use crate::cell::{AmxString, Buffer, Ref};
use crate::consts::{AmxExecIdx, AmxFlags, AMX_FLAG_ALL};
use crate::encoding;
use crate::encoding::{encoded_text, CodePage, MAX_TEXT_LEN};
use crate::error::{check_status, error_of_code, status_result, AmxError, AmxResult};

verus! {

/// The width of a cell in bytes. Addresses inside the AMX count bytes.
pub const CELL_SIZE: i32 = 4;

/// The largest data segment, in cells, that an `Amx` holds.
pub const MAX_CELLS: usize = 0x0800_0000;

/// Where the data segment of an instance begins in the memory of the
/// host: at `data`, the pointer in the control block of the instance, if
/// that is not null, and else `dat` bytes, the offset in the header of the
/// script, behind `base`, where the script was loaded.
pub open spec fn data_base_spec(base: usize, data: usize, dat: i32) -> Option<usize> {
    if data != 0 {
        Some(data)
    } else if 0 <= base + dat <= usize::MAX {
        Some((base + dat) as usize)
    } else {
        None
    }
}

/// Where the data segment of an instance begins in the memory of the
/// host: `None` where the header's offset leads out of the address space.
pub fn data_base(base: usize, data: usize, dat: i32) -> (address: Option<usize>)
    ensures
        address == data_base_spec(base, data, dat),
{
    if data != 0 {
        Some(data)
    } else if dat >= 0 {
        base.checked_add(dat as usize)
    } else {
        let back: usize = (-(dat as i64)) as usize;
        base.checked_sub(back)
    }
}

/// The address in the memory of the host of the cell at `address` in a
/// data segment that begins at `data_base`. `None` where there is no such
/// address: for a negative `address`, and past the end of the address
/// space.
pub fn host_address(data_base: usize, address: i32) -> (host: Option<usize>)
    ensures
        0 <= address && data_base + address <= usize::MAX ==> host == Some(
            (data_base + address) as usize,
        ),
        address < 0 || data_base + address > usize::MAX ==> host is None,
{
    if address < 0 {
        None
    } else {
        data_base.checked_add(address as usize)
    }
}

/// What an `Amx` is to a specification: the cells of its data segment and
/// the three registers that divide it into data and heap, the unused gap,
/// and the stack.
pub struct AmxView {
    /// The data segment; the cell at address `a` is `data[a / 4]`.
    pub data: Seq<i32>,
    /// The heap pointer: the first address above the heap.
    pub hea: int,
    /// The stack pointer: the lowest address of the stack.
    pub stk: int,
    /// The stack top: the first address above the stack.
    pub stp: int,
    /// The code page of the text in the segment.
    pub encoding: CodePage,
}

impl AmxView {
    /// The registers are in order and cell-aligned, and the segment holds
    /// every cell below the stack top.
    pub open spec fn well_formed(self) -> bool {
        &&& 0 <= self.hea <= self.stk <= self.stp <= CELL_SIZE * self.data.len()
        &&& self.hea % (CELL_SIZE as int) == 0
        &&& self.stk % (CELL_SIZE as int) == 0
        &&& self.data.len() <= MAX_CELLS
    }

    /// An address that a reference may point to: below the stack top, not
    /// negative, and not in the gap between heap and stack.
    pub open spec fn is_valid_address(self, address: int) -> bool {
        &&& 0 <= address < self.stp
        &&& !(self.hea <= address < self.stk)
    }

    /// An address that some cell of the segment holds.
    pub open spec fn in_segment(self, address: int) -> bool {
        0 <= address < CELL_SIZE * self.data.len()
    }

    /// The cell that holds `address`.
    pub open spec fn cell_at(self, address: int) -> i32 {
        self.data[address / (CELL_SIZE as int)]
    }

    /// The segment after `value` is written to the cell that holds `address`.
    pub open spec fn store(self, address: int, value: i32) -> AmxView {
        AmxView { data: self.data.update(address / (CELL_SIZE as int), value), ..self }
    }

    /// Whether the gap between heap and stack has room for `cells` more cells.
    pub open spec fn can_allot(self, cells: int) -> bool {
        self.hea + CELL_SIZE * cells <= self.stk
    }

    /// The segment after the heap has grown by `cells` cells.
    pub open spec fn allot(self, cells: int) -> AmxView {
        AmxView { hea: self.hea + CELL_SIZE * cells, ..self }
    }

    /// The segment after everything on the heap at or above `address` is
    /// given back. A heap that ends below `address` is left as it is.
    pub open spec fn release(self, address: int) -> AmxView {
        if self.hea > address {
            AmxView { hea: address, ..self }
        } else {
            self
        }
    }

    /// Whether the stack can grow by one cell.
    pub open spec fn can_push(self) -> bool {
        self.hea <= self.stk - CELL_SIZE
    }

    /// The segment after `value` is pushed on the stack.
    pub open spec fn push(self, value: i32) -> AmxView {
        AmxView { stk: self.stk - CELL_SIZE, ..self }.store(self.stk - CELL_SIZE, value)
    }
}

/// An AMX instance as the host sees it: the cells of the data segment,
/// addressed in bytes, and the heap pointer, stack pointer and stack top.
#[derive(Debug)]
pub struct Amx {
    data: Vec<i32>,
    hea: i32,
    stk: i32,
    stp: i32,
    encoding: CodePage,
}

impl View for Amx {
    type V = AmxView;

    closed spec fn view(&self) -> AmxView {
        AmxView {
            data: self.data@,
            hea: self.hea as int,
            stk: self.stk as int,
            stp: self.stp as int,
            encoding: self.encoding,
        }
    }
}

impl Amx {
    #[verifier::type_invariant]
    closed spec fn inv(&self) -> bool {
        self@.well_formed()
    }

    /// An AMX over the data segment `data` with the given registers, or
    /// `None` where the registers do not describe that segment. Its text is
    /// in the default code page.
    pub fn new(data: Vec<i32>, hea: i32, stk: i32, stp: i32) -> (amx: Option<Amx>)
        ensures
            amx is Some <==> (AmxView {
                data: data@,
                hea: hea as int,
                stk: stk as int,
                stp: stp as int,
                encoding: CodePage::Windows1252,
            }).well_formed(),
            amx is Some ==> amx->0@ == (AmxView {
                data: data@,
                hea: hea as int,
                stk: stk as int,
                stp: stp as int,
                encoding: CodePage::Windows1252,
            }),
    {
        if data.len() > MAX_CELLS {
            return None;
        }
        let limit: i32 = (data.len() as i32) * CELL_SIZE;
        if 0 <= hea && hea <= stk && stk <= stp && stp <= limit && hea % CELL_SIZE == 0 && stk
            % CELL_SIZE == 0 {
            Some(Amx { data, hea, stk, stp, encoding: CodePage::Windows1252 })
        } else {
            None
        }
    }

    /// The heap pointer.
    pub fn hea(&self) -> (hea: i32)
        ensures
            hea == self@.hea,
    {
        self.hea
    }

    /// The stack pointer.
    pub fn stk(&self) -> (stk: i32)
        ensures
            stk == self@.stk,
    {
        self.stk
    }

    /// The stack top.
    pub fn stp(&self) -> (stp: i32)
        ensures
            stp == self@.stp,
    {
        self.stp
    }

    /// The number of cells in the data segment. Every `Amx` is well formed,
    /// which this function lets its caller know.
    pub fn cells(&self) -> (cells: usize)
        ensures
            cells == self@.data.len(),
            self@.well_formed(),
    {
        proof {
            use_type_invariant(self);
        }
        self.data.len()
    }

    /// Whether a reference may point to `address`.
    pub fn is_valid_address(&self, address: i32) -> (valid: bool)
        ensures
            valid == self@.is_valid_address(address as int),
    {
        !(address >= self.hea && address < self.stk || address < 0 || address >= self.stp)
    }

    /// A reference to the cell at `address`. Fails with `MemoryAccess`, and
    /// touches no memory, where the address is negative, at or above the
    /// stack top, or in the gap between heap and stack.
    pub fn get_ref<T: AmxPrimitive>(&self, address: i32) -> (reference: AmxResult<Ref<T>>)
        ensures
            self@.is_valid_address(address as int) ==> reference is Ok && reference->Ok_0@
                == address,
            !self@.is_valid_address(address as int) ==> reference == Err::<Ref<T>, AmxError>(
                AmxError::MemoryAccess,
            ),
            reference is Ok ==> self@.in_segment(address as int),
    {
        proof {
            use_type_invariant(self);
        }
        if address >= self.hea && address < self.stk || address < 0 || address >= self.stp {
            return Err(AmxError::MemoryAccess);
        }
        Ok(Ref::new(address))
    }

    /// The cell that holds `address`.
    pub fn read_cell(&self, address: i32) -> (cell: i32)
        requires
            self@.in_segment(address as int),
        ensures
            cell == self@.cell_at(address as int),
    {
        let index: usize = (address / CELL_SIZE) as usize;
        self.data[index]
    }

    /// Writes `value` to the cell that holds `address`.
    pub fn write_cell(&mut self, address: i32, value: i32)
        requires
            old(self)@.in_segment(address as int),
        ensures
            final(self)@ == old(self)@.store(address as int, value),
    {
        proof {
            use_type_invariant(&*self);
        }
        let index: usize = (address / CELL_SIZE) as usize;
        self.data[index] = value;
    }

    /// The code page of the text in the segment.
    pub fn encoding(&self) -> (encoding: CodePage)
        ensures
            encoding == self@.encoding,
    {
        self.encoding
    }

    /// Changes the code page of the text in the segment.
    pub fn set_encoding(&mut self, encoding: CodePage)
        ensures
            final(self)@ == (AmxView { encoding, ..old(self)@ }),
    {
        proof {
            use_type_invariant(&*self);
        }
        self.encoding = encoding;
    }

    /// The whole data segment, cell by cell.
    pub fn segment(&self) -> (cells: &[i32])
        ensures
            cells@ == self@.data,
    {
        self.data.as_slice()
    }

    /// Grows the heap by `cells` cells and hands out a reference to the
    /// first of them. The new cells keep what the segment held there. Fails
    /// with `Memory`, and changes nothing, where the gap between heap and
    /// stack is too small.
    pub fn allot<T: AmxPrimitive>(&mut self, cells: usize) -> (reference: AmxResult<Ref<T>>)
        ensures
            old(self)@.can_allot(cells as int) ==> reference is Ok && reference->Ok_0@ == old(
                self,
            )@.hea && final(self)@ == old(self)@.allot(cells as int),
            !old(self)@.can_allot(cells as int) ==> reference == Err::<Ref<T>, AmxError>(
                AmxError::Memory,
            ) && final(self)@ == old(self)@,
    {
        proof {
            use_type_invariant(&*self);
        }
        let room: usize = ((self.stk - self.hea) / CELL_SIZE) as usize;
        if cells > room {
            return Err(AmxError::Memory);
        }
        let address: i32 = self.hea;
        self.hea = self.hea + (cells as i32) * CELL_SIZE;
        Ok(Ref::new(address))
    }

    /// Gives back everything on the heap at or above `address`, which is
    /// the address of a cell: the heap pointer moves down to it. A heap that
    /// ends below `address` already is left as it is.
    pub fn release(&mut self, address: i32)
        requires
            0 <= address,
            address % CELL_SIZE == 0,
        ensures
            final(self)@ == old(self)@.release(address as int),
    {
        proof {
            use_type_invariant(&*self);
        }
        if self.hea > address {
            self.hea = address;
        }
    }

    /// Pushes the cell of `value` on the stack. Fails with `StackError`, and
    /// changes nothing, where the stack would run into the heap.
    pub fn push<T: AmxCell>(&mut self, value: T) -> (result: AmxResult<()>)
        ensures
            old(self)@.can_push() ==> result is Ok && final(self)@ == old(self)@.push(
                value.as_cell_spec(),
            ),
            !old(self)@.can_push() ==> result == Err::<(), AmxError>(AmxError::StackError)
                && final(self)@ == old(self)@,
    {
        proof {
            use_type_invariant(&*self);
        }
        if self.stk - self.hea < CELL_SIZE {
            return Err(AmxError::StackError);
        }
        let cell: i32 = value.as_cell();
        self.stk = self.stk - CELL_SIZE;
        let index: usize = (self.stk / CELL_SIZE) as usize;
        self.data[index] = cell;
        Ok(())
    }

    /// What registering natives gives, once the AMX has answered with
    /// `status`.
    pub fn register(status: i32) -> (result: AmxResult<()>)
        ensures
            result == status_result(status),
    {
        check_status(status)
    }

    /// What running a function of the script gives, once the AMX has
    /// answered with `status` and the function's return value `retval`.
    pub fn exec(status: i32, retval: i32) -> (result: AmxResult<i32>)
        ensures
            status == 0 ==> result == Ok::<i32, AmxError>(retval),
            status != 0 ==> result == Err::<i32, AmxError>(error_of_code(status)),
    {
        match check_status(status) {
            Ok(()) => Ok(retval),
            Err(error) => Err(error),
        }
    }

    /// What looking a native up by its name gives, once the AMX has
    /// answered with `status` and the index `index`.
    pub fn find_native(status: i32, index: i32) -> (result: AmxResult<i32>)
        ensures
            status == 0 ==> result == Ok::<i32, AmxError>(index),
            status != 0 ==> result == Err::<i32, AmxError>(error_of_code(status)),
    {
        match check_status(status) {
            Ok(()) => Ok(index),
            Err(error) => Err(error),
        }
    }

    /// What looking a public up by its name gives, once the AMX has
    /// answered with `status` and the index `index`.
    pub fn find_public(status: i32, index: i32) -> (result: AmxResult<AmxExecIdx>)
        ensures
            status == 0 ==> result == Ok::<AmxExecIdx, AmxError>(AmxExecIdx::of_index(index)),
            status != 0 ==> result == Err::<AmxExecIdx, AmxError>(error_of_code(status)),
    {
        match check_status(status) {
            Ok(()) => Ok(AmxExecIdx::from(index)),
            Err(error) => Err(error),
        }
    }

    /// What looking a public variable up by its name gives, once the AMX
    /// has answered with `status` and the address `address`: a reference
    /// to the variable, if the address is valid.
    pub fn find_pubvar<T: AmxPrimitive>(&self, status: i32, address: i32) -> (result: AmxResult<
        Ref<T>,
    >)
        ensures
            status != 0 ==> result == Err::<Ref<T>, AmxError>(error_of_code(status)),
            status == 0 && !self@.is_valid_address(address as int) ==> result == Err::<
                Ref<T>,
                AmxError,
            >(AmxError::MemoryAccess),
            status == 0 && self@.is_valid_address(address as int) ==> result is Ok
                && result->Ok_0@ == address,
    {
        match check_status(status) {
            Ok(()) => self.get_ref(address),
            Err(error) => Err(error),
        }
    }

    /// What asking for the flags of the script gives, once the AMX has
    /// answered with `status` and the bits `value`.
    pub fn flags(status: i32, value: u16) -> (result: AmxResult<AmxFlags>)
        ensures
            status != 0 ==> result == Err::<AmxFlags, AmxError>(error_of_code(status)),
            status == 0 ==> result is Ok && result->Ok_0@ == value & AMX_FLAG_ALL,
    {
        match check_status(status) {
            Ok(()) => Ok(AmxFlags::from_bits_truncate(value)),
            Err(error) => Err(error),
        }
    }

    /// Allots an array on the heap, copies the cells of the items of
    /// `array` into it and pushes its address, which is returned. Where
    /// the push fails the array stays allotted.
    pub fn push_array<T: AmxCell + AmxPrimitive>(&mut self, array: &[T]) -> (address: AmxResult<
        i32,
    >)
        ensures
            !old(self)@.can_allot(array@.len() as int) ==> address == Err::<i32, AmxError>(
                AmxError::Memory,
            ) && final(self)@ == old(self)@,
            old(self)@.can_allot(array@.len() as int) ==> ({
                let allotted = AmxView {
                    data: write_cells(
                        old(self)@.data,
                        old(self)@.hea / (CELL_SIZE as int),
                        array@.map_values(|item: T| item.as_cell_spec()),
                    ),
                    ..old(self)@.allot(array@.len() as int)
                };
                &&& allotted.can_push() ==> address == Ok::<i32, AmxError>(old(self)@.hea as i32)
                    && final(self)@ == allotted.push(old(self)@.hea as i32)
                &&& !allotted.can_push() ==> address == Err::<i32, AmxError>(
                    AmxError::StackError,
                ) && final(self)@ == allotted
            }),
    {
        let allocator: Allocator = Allocator::new(self);
        let amx_addr: i32 = match allocator.allot_array(self, array) {
            Ok(buffer) => buffer.address(),
            Err(error) => {
                return Err(error);
            },
        };
        match self.push(amx_addr) {
            Ok(()) => Ok(amx_addr),
            Err(error) => Err(error),
        }
    }

    /// Allots a string on the heap, writes the bytes of `string` to it
    /// unpacked, a cell for each byte of its UTF-8 form and a zero cell
    /// after them, and pushes its address, which is returned. Where the
    /// push fails the string stays allotted. Packed strings are not
    /// written.
    pub fn push_string(&mut self, string: &str, packed: bool) -> (address: AmxResult<i32>)
        requires
            !packed,
        ensures
            !old(self)@.can_allot(string.spec_bytes().len() as int + 1) ==> address == Err::<
                i32,
                AmxError,
            >(AmxError::Memory) && final(self)@ == old(self)@,
            old(self)@.can_allot(string.spec_bytes().len() as int + 1) ==> ({
                let allotted = allot_text(old(self)@, string.spec_bytes());
                &&& allotted.can_push() ==> address == Ok::<i32, AmxError>(old(self)@.hea as i32)
                    && final(self)@ == allotted.push(old(self)@.hea as i32)
                &&& !allotted.can_push() ==> address == Err::<i32, AmxError>(
                    AmxError::StackError,
                ) && final(self)@ == allotted
            }),
    {
        let allocator: Allocator = Allocator::new(self);
        let amx_addr: i32 = match allocator.allot_bytes(self, string.as_bytes()) {
            Ok(text) => text.address(),
            Err(error) => {
                return Err(error);
            },
        };
        match self.push(amx_addr) {
            Ok(()) => Ok(amx_addr),
            Err(error) => Err(error),
        }
    }

    /// A heap allocator that remembers where the heap ends now.
    pub fn allocator(&self) -> (allocator: Allocator)
        ensures
            allocator@ == self@.hea,
    {
        Allocator::new(self)
    }
}

/// A scope of heap allocations: it remembers where the heap ended when the
/// scope began, and `release` gives back all that was allotted since.
#[derive(Debug)]
pub struct Allocator {
    release_addr: i32,
}

impl View for Allocator {
    type V = int;

    /// The heap pointer at the beginning of the scope.
    closed spec fn view(&self) -> int {
        self.release_addr as int
    }
}

impl Allocator {
    #[verifier::type_invariant]
    closed spec fn inv(&self) -> bool {
        0 <= self.release_addr && self.release_addr % CELL_SIZE == 0
    }

    /// Begins a scope at the present end of the heap.
    pub fn new(amx: &Amx) -> (allocator: Allocator)
        ensures
            allocator@ == amx@.hea,
    {
        proof {
            use_type_invariant(amx);
        }
        Allocator { release_addr: amx.hea }
    }

    /// The heap pointer at the beginning of the scope.
    pub fn release_address(&self) -> (address: i32)
        ensures
            address == self@,
    {
        self.release_addr
    }

    /// Allots one cell and stores `init_value` in it.
    pub fn allot<T: AmxPrimitive>(&self, amx: &mut Amx, init_value: T) -> (reference: AmxResult<
        Ref<T>,
    >)
        ensures
            old(amx)@.can_allot(1) ==> reference is Ok && reference->Ok_0@ == old(amx)@.hea
                && final(amx)@ == old(amx)@.allot(1).store(
                old(amx)@.hea,
                init_value.to_cell_spec(),
            ),
            !old(amx)@.can_allot(1) ==> reference == Err::<Ref<T>, AmxError>(AmxError::Memory)
                && final(amx)@ == old(amx)@,
    {
        let ghost before = amx@;
        let _ = amx.cells();
        let cell: Ref<T> = match amx.allot(1) {
            Ok(cell) => cell,
            Err(error) => {
                return Err(error);
            },
        };
        cell.write(amx, init_value);
        Ok(cell)
    }

    /// Allots a buffer of `size` cells. The cells keep what the segment held
    /// there.
    pub fn allot_buffer(&self, amx: &mut Amx, size: usize) -> (buffer: AmxResult<Buffer>)
        ensures
            old(amx)@.can_allot(size as int) ==> buffer is Ok && buffer->Ok_0@ == (BufferView {
                address: old(amx)@.hea,
                len: size as nat,
            }) && final(amx)@ == old(amx)@.allot(size as int),
            !old(amx)@.can_allot(size as int) ==> buffer == Err::<Buffer, AmxError>(
                AmxError::Memory,
            ) && final(amx)@ == old(amx)@,
    {
        match amx.allot::<i32>(size) {
            Ok(reference) => Ok(Buffer::new(reference, size)),
            Err(error) => Err(error),
        }
    }

    /// Allots a buffer as long as `array` and copies the cells of its items
    /// into it.
    pub fn allot_array<T: AmxCell + AmxPrimitive>(&self, amx: &mut Amx, array: &[T]) -> (buffer:
        AmxResult<Buffer>)
        ensures
            old(amx)@.can_allot(array@.len() as int) ==> buffer is Ok && buffer->Ok_0@
                == (BufferView { address: old(amx)@.hea, len: array@.len() }) && final(amx)@
                == (AmxView {
                data: write_cells(
                    old(amx)@.data,
                    old(amx)@.hea / (CELL_SIZE as int),
                    array@.map_values(|item: T| item.as_cell_spec()),
                ),
                ..old(amx)@.allot(array@.len() as int)
            }),
            !old(amx)@.can_allot(array@.len() as int) ==> buffer == Err::<Buffer, AmxError>(
                AmxError::Memory,
            ) && final(amx)@ == old(amx)@,
    {
        let ghost before = amx@;
        let _ = amx.cells();
        let buffer: Buffer = match self.allot_buffer(amx, array.len()) {
            Ok(buffer) => buffer,
            Err(error) => {
                return Err(error);
            },
        };
        let ghost start = before.hea / (CELL_SIZE as int);
        let ghost values = array@.map_values(|item: T| item.as_cell_spec());
        let count: usize = array.len();
        let mut idx: usize = 0;
        while idx < count
            invariant
                idx <= count,
                count == array@.len(),
                buffer@ == (BufferView { address: before.hea, len: count as nat }),
                buffer@.in_bounds(amx@),
                start == buffer@.start(),
                values == array@.map_values(|item: T| item.as_cell_spec()),
                amx@.hea == before.allot(count as int).hea,
                amx@.stk == before.stk,
                amx@.stp == before.stp,
                amx@.encoding == before.encoding,
                amx@.data.len() == before.data.len(),
                forall|i: int|
                    0 <= i < before.data.len() ==> #[trigger] amx@.data[i] == if start <= i < start
                        + idx {
                        values[i - start]
                    } else {
                        before.data[i]
                    },
            decreases count - idx,
        {
            let cell: i32 = array[idx].as_cell();
            assert(values[idx as int] == array@[idx as int].as_cell_spec());
            buffer.set(amx, idx, cell);
            idx = idx + 1;
        }
        assert(amx@.data =~= write_cells(before.data, start, values));
        Ok(buffer)
    }

    /// Allots a string for `bytes` and writes them to it unpacked: a cell
    /// for each byte, and one for the terminator.
    pub fn allot_bytes(&self, amx: &mut Amx, bytes: &[u8]) -> (string: AmxResult<AmxString>)
        ensures
            old(amx)@.can_allot(bytes@.len() as int + 1) ==> string is Ok && string->Ok_0@
                == allotted_string(old(amx)@, bytes@) && final(amx)@ == allot_text(
                old(amx)@,
                bytes@,
            ),
            !old(amx)@.can_allot(bytes@.len() as int + 1) ==> string == Err::<AmxString, AmxError>(
                AmxError::Memory,
            ) && final(amx)@ == old(amx)@,
    {
        let total: usize = amx.cells();
        if bytes.len() >= total {
            return Err(AmxError::Memory);
        }
        let buffer: Buffer = match self.allot_buffer(amx, bytes.len() + 1) {
            Ok(buffer) => buffer,
            Err(error) => {
                return Err(error);
            },
        };
        let _ = amx.cells();
        Ok(AmxString::new(amx, buffer, bytes))
    }

    /// Allots a string and writes `string` to it, encoded in the code page
    /// of the AMX and unpacked.
    pub fn allot_string(&self, amx: &mut Amx, string: &str) -> (result: AmxResult<AmxString>)
        requires
            string.spec_bytes().len() <= MAX_TEXT_LEN,
        ensures
            ({
                let bytes = encoded_text(old(amx)@.encoding.number(), string@);
                &&& old(amx)@.can_allot(bytes.len() as int + 1) ==> result is Ok && result->Ok_0@
                    == allotted_string(old(amx)@, bytes) && final(amx)@ == allot_text(
                    old(amx)@,
                    bytes,
                )
                &&& !old(amx)@.can_allot(bytes.len() as int + 1) ==> result == Err::<
                    AmxString,
                    AmxError,
                >(AmxError::Memory) && final(amx)@ == old(amx)@
            }),
    {
        let bytes: Vec<u8> = encoding::encode(amx.encoding(), string);
        self.allot_bytes(amx, bytes.as_slice())
    }

    /// Ends the scope: the heap ends again where it ended when the scope
    /// began, whatever was allotted in it.
    pub fn release(self, amx: &mut Amx)
        ensures
            final(amx)@ == old(amx)@.release(self@),
            old(amx)@.hea >= self@ ==> final(amx)@.hea == self@,
    {
        proof {
            use_type_invariant(&self);
        }
        amx.release(self.release_addr);
    }
}

/// The segment after `values` are written to the cells from `start` on, the
/// rest as it was.
pub open spec fn write_cells(cells: Seq<i32>, start: int, values: Seq<i32>) -> Seq<i32> {
    Seq::new(
        cells.len(),
        |i: int|
            if start <= i < start + values.len() {
                values[i - start]
            } else {
                cells[i]
            },
    )
}

/// The AMX after a string for `bytes` is allotted at the end of the heap.
pub open spec fn allot_text(amx: AmxView, bytes: Seq<u8>) -> AmxView {
    AmxView {
        data: write_text(amx.data, amx.hea / (CELL_SIZE as int), bytes),
        ..amx.allot(bytes.len() as int + 1)
    }
}

/// The string for `bytes` that is allotted at the end of the heap of `amx`.
pub open spec fn allotted_string(amx: AmxView, bytes: Seq<u8>) -> StringView {
    StringView {
        buffer: BufferView { address: amx.hea, len: (bytes.len() + 1) as nat },
        len: bytes.len(),
    }
}

/// The heap after a run of requests, each for so many cells, made one after
/// the other: a request that fits grows the heap, one that does not fails
/// and leaves it.
pub open spec fn allot_each(amx: AmxView, requests: Seq<nat>) -> AmxView
    decreases requests.len(),
{
    if requests.len() == 0 {
        amx
    } else {
        let first = requests[0] as int;
        let next = if amx.can_allot(first) {
            amx.allot(first)
        } else {
            amx
        };
        allot_each(next, requests.drop_first())
    }
}

/// Allotting never moves the heap pointer down, and touches neither the
/// stack registers nor the cells.
pub proof fn lemma_allot_each_grows(amx: AmxView, requests: Seq<nat>)
    ensures
        allot_each(amx, requests).hea >= amx.hea,
        allot_each(amx, requests).stk == amx.stk,
        allot_each(amx, requests).stp == amx.stp,
        allot_each(amx, requests).data == amx.data,
        allot_each(amx, requests).encoding == amx.encoding,
        amx.well_formed() ==> allot_each(amx, requests).well_formed(),
    decreases requests.len(),
{
    if requests.len() > 0 {
        let first = requests[0] as int;
        let next = if amx.can_allot(first) {
            amx.allot(first)
        } else {
            amx
        };
        lemma_allot_each_grows(next, requests.drop_first());
    }
}

/// When a scope of allocations ends, the heap pointer is exactly what it
/// was when the scope began, however many requests were made in it and
/// whether or not they were met.
pub proof fn lemma_scope_restores_heap(amx: AmxView, requests: Seq<nat>)
    ensures
        allot_each(amx, requests).release(amx.hea) == amx,
{
    lemma_allot_each_grows(amx, requests);
}

/// Ending a scope restores the heap pointer after any changes that left it
/// at or above the mark, writes to cells among them.
pub proof fn lemma_release_restores_mark(amx: AmxView, mark: int)
    requires
        amx.hea >= mark,
    ensures
        amx.release(mark).hea == mark,
        amx.release(mark).stk == amx.stk,
        amx.release(mark).stp == amx.stp,
        amx.release(mark).data == amx.data,
{
}

} // verus!
