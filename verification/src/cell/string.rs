//! Strings inside an AMX.
//!
//! A string is a run of cells that ends with a zero. Unpacked, each cell
//! holds one character. Packed, each cell holds four, the first in the
//! highest byte, and the string ends with a zero byte. The first cell tells
//! the two apart: read as an unsigned number, that of a packed string is
//! above `MAX_UNPACKED`.
use vstd::prelude::*;
use vstd::string::StringSliceAdditionalSpecFns;

use crate::amx::{Amx, AmxView, CELL_SIZE, MAX_CELLS};
use crate::cell::buffer::{buffer_at, lemma_buffer_at, lemma_buffer_view, BufferView};
use crate::cell::repr::AmxCell;
use crate::cell::{Buffer, UnsizedBuffer};
use crate::encoding;
use crate::encoding::{decoded_text, encoded_text, MAX_TEXT_LEN};
use crate::error::{AmxError, AmxResult};

verus! {

/// The largest first cell of an unpacked string.
pub const MAX_UNPACKED: u32 = 0x00FF_FFFF;

/// Whether a string that begins with the cell `first` is packed.
pub open spec fn is_packed(first: i32) -> bool {
    (first as u32) > MAX_UNPACKED
}

/// The byte at place `k` of a cell, where place 0 is the highest byte and
/// place 3 the lowest.
pub open spec fn byte_of_cell(cell: i32, k: int) -> u8 {
    let bits = cell as u32;
    if k == 0 {
        (bits >> 24) as u8
    } else if k == 1 {
        (bits >> 16) as u8
    } else if k == 2 {
        (bits >> 8) as u8
    } else {
        bits as u8
    }
}

/// The `j`-th character of the packed string that begins at the cell with
/// the index `start`.
pub open spec fn packed_byte(cells: Seq<i32>, start: int, j: int) -> u8 {
    byte_of_cell(cells[start + j / 4], j % 4)
}

/// The `j`-th character of the unpacked string that begins at the cell
/// with the index `start`: the lowest byte of its cell.
pub open spec fn unpacked_byte(cells: Seq<i32>, start: int, j: int) -> u8 {
    cells[start + j] as u8
}

/// The unpacked string at `start` has `n` characters: `n` cells that are
/// not zero, and then, still inside the segment, a zero.
pub open spec fn unpacked_len_is(cells: Seq<i32>, start: int, n: nat) -> bool {
    &&& start + n < cells.len()
    &&& cells[start + n] == 0
    &&& forall|i: int| 0 <= i < n ==> #[trigger] cells[start + i] != 0
}

/// The packed string at `start` has `n` characters: `n` bytes that are not
/// zero, and then, still inside the segment, a zero byte.
pub open spec fn packed_len_is(cells: Seq<i32>, start: int, n: nat) -> bool {
    &&& start + n / 4 < cells.len()
    &&& packed_byte(cells, start, n as int) == 0
    &&& forall|j: int| 0 <= j < n ==> #[trigger] packed_byte(cells, start, j) != 0
}

/// The string at `start` has `n` characters, in the form that its first
/// cell shows.
pub open spec fn string_len_is(cells: Seq<i32>, start: int, n: nat) -> bool {
    if is_packed(cells[start]) {
        packed_len_is(cells, start, n)
    } else {
        unpacked_len_is(cells, start, n)
    }
}

/// Whether the string at `start` ends inside the segment.
pub open spec fn is_terminated(cells: Seq<i32>, start: int) -> bool {
    exists|n: nat| string_len_is(cells, start, n)
}

/// The number of characters of the string at `start`.
pub open spec fn string_len(cells: Seq<i32>, start: int) -> nat {
    choose|n: nat| string_len_is(cells, start, n)
}

/// The number of cells that a string of `len` characters takes, the
/// terminator included: one cell for each character and one more unpacked,
/// a cell for every four bytes packed.
pub open spec fn backing_len(packed: bool, len: nat) -> nat {
    if packed {
        len / 4 + 1
    } else {
        len + 1
    }
}

/// The cells that back a packed string are as many as its characters and
/// the terminator take at four to a cell, rounded up.
pub proof fn lemma_backing_len_rounds_up(len: nat)
    ensures
        backing_len(true, len) == (len + 1 + 3) / 4,
        backing_len(false, len) == len + 1,
{
}

/// The first `len` characters of the string at `start`, in the form that
/// its first cell shows.
pub open spec fn string_bytes(cells: Seq<i32>, start: int, len: nat) -> Seq<u8> {
    if is_packed(cells[start]) {
        Seq::new(len, |j: int| packed_byte(cells, start, j))
    } else {
        Seq::new(len, |j: int| unpacked_byte(cells, start, j))
    }
}

/// The segment after the unpacked string of `bytes` is written at `start`:
/// one cell for each byte, then a zero cell, the rest as it was.
pub open spec fn write_text(cells: Seq<i32>, start: int, bytes: Seq<u8>) -> Seq<i32> {
    Seq::new(
        cells.len(),
        |i: int|
            if start <= i < start + bytes.len() {
                bytes[i - start] as i32
            } else if i == start + bytes.len() {
                0i32
            } else {
                cells[i]
            },
    )
}

/// A string has one length only.
pub proof fn lemma_string_len_unique(cells: Seq<i32>, start: int, n: nat, m: nat)
    requires
        string_len_is(cells, start, n),
        string_len_is(cells, start, m),
    ensures
        n == m,
        is_terminated(cells, start),
        string_len(cells, start) == n,
{
    if is_packed(cells[start]) {
        if n < m {
            assert(packed_byte(cells, start, n as int) != 0);
        }
        if m < n {
            assert(packed_byte(cells, start, m as int) != 0);
        }
    } else {
        if n < m {
            assert(cells[start + n] != 0);
        }
        if m < n {
            assert(cells[start + m] != 0);
        }
    }
    let k = string_len(cells, start);
    if k != n {
        assert(string_len_is(cells, start, k));
        if is_packed(cells[start]) {
            if n < k {
                assert(packed_byte(cells, start, n as int) != 0);
            }
            if k < n {
                assert(packed_byte(cells, start, k as int) != 0);
            }
        } else {
            if n < k {
                assert(cells[start + n] != 0);
            }
            if k < n {
                assert(cells[start + k] != 0);
            }
        }
    }
}

/// An unpacked string that was written is read back as it was written: a
/// run of bytes without a zero among them, written at `start`, is seen as
/// unpacked, has the length of the run, and has its bytes.
pub proof fn lemma_written_text_reads_back(cells: Seq<i32>, start: int, bytes: Seq<u8>)
    requires
        0 <= start,
        start + bytes.len() < cells.len(),
        forall|i: int| 0 <= i < bytes.len() ==> #[trigger] bytes[i] != 0,
    ensures
        !is_packed(write_text(cells, start, bytes)[start]),
        string_len_is(write_text(cells, start, bytes), start, bytes.len()),
        is_terminated(write_text(cells, start, bytes), start),
        string_len(write_text(cells, start, bytes), start) == bytes.len(),
        string_bytes(write_text(cells, start, bytes), start, bytes.len()) == bytes,
{
    let written = write_text(cells, start, bytes);
    let first = written[start];
    assert(0 <= first <= 255);
    assert(!is_packed(first)) by {
        assert(0 <= first <= 255 ==> (first as u32) <= 0x00FF_FFFFu32) by (bit_vector);
    }
    assert forall|i: int| 0 <= i < bytes.len() implies #[trigger] written[start + i] != 0 by {
        assert(written[start + i] == bytes[i] as i32);
        assert(bytes[i] != 0);
    }
    assert(unpacked_len_is(written, start, bytes.len()));
    lemma_string_len_unique(written, start, bytes.len(), bytes.len());
    assert forall|j: int| 0 <= j < bytes.len() implies unpacked_byte(written, start, j)
        == bytes[j] by {
        let b = bytes[j];
        assert(written[start + j] == b as i32);
        assert((b as i32) as u8 == b) by (bit_vector);
    }
    assert(string_bytes(written, start, bytes.len()) =~= bytes);
}

/// A string that was allotted for `bytes` is decoded from its address as
/// the string that was allotted, and its characters are `bytes`: what is
/// written is what is read, for every run of bytes without a zero among
/// them.
pub proof fn lemma_allotted_string_decodes(amx: AmxView, bytes: Seq<u8>)
    requires
        amx.well_formed(),
        amx.can_allot(bytes.len() as int + 1),
        forall|i: int| 0 <= i < bytes.len() ==> #[trigger] bytes[i] != 0,
    ensures
        ({
            let after = crate::amx::allot_text(amx, bytes);
            let string = crate::amx::allotted_string(amx, bytes);
            &&& after.well_formed()
            &&& AmxString::from_raw_spec(after, amx.hea as i32) is Ok
            &&& (AmxString::from_raw_spec(after, amx.hea as i32)->Ok_0)@ == string
            &&& string.in_bounds(after)
            &&& string.bytes(after) == bytes
        }),
{
    let after = crate::amx::allot_text(amx, bytes);
    let start = amx.hea / (CELL_SIZE as int);
    assert(start * 4 == amx.hea);
    assert(start + bytes.len() < amx.data.len());
    lemma_written_text_reads_back(amx.data, start, bytes);
    assert(after.data == write_text(amx.data, start, bytes));
    assert(after.is_valid_address(amx.hea));
    assert((amx.hea as i32) as int == amx.hea);
    lemma_string_view(amx.hea as i32, (bytes.len() + 1) as usize, bytes.len() as usize);
}

/// The cell of a packed string that holds the bytes `b0`, `b1`, `b2` and
/// `b3`, in this order.
pub open spec fn packed_cell(b0: u8, b1: u8, b2: u8, b3: u8) -> i32 {
    (((b0 as u32) << 24) | ((b1 as u32) << 16) | ((b2 as u32) << 8) | (b3 as u32)) as i32
}

/// The byte of `bytes` at `i`, or zero past their end.
pub open spec fn byte_or_zero(bytes: Seq<u8>, i: int) -> u8 {
    if 0 <= i < bytes.len() {
        bytes[i]
    } else {
        0
    }
}

/// The cells of the packed string of `bytes`: four bytes in each cell, the
/// first in the highest byte, and zero bytes after the last.
pub open spec fn packed_text(bytes: Seq<u8>) -> Seq<i32> {
    Seq::new(
        bytes.len() / 4 + 1,
        |c: int|
            packed_cell(
                byte_or_zero(bytes, 4 * c),
                byte_or_zero(bytes, 4 * c + 1),
                byte_or_zero(bytes, 4 * c + 2),
                byte_or_zero(bytes, 4 * c + 3),
            ),
    )
}

/// The bytes of a packed cell are the bytes that it was packed from, and
/// the cell shows a packed string where its first byte is not zero.
pub proof fn lemma_packed_cell_bytes(b0: u8, b1: u8, b2: u8, b3: u8)
    ensures
        byte_of_cell(packed_cell(b0, b1, b2, b3), 0) == b0,
        byte_of_cell(packed_cell(b0, b1, b2, b3), 1) == b1,
        byte_of_cell(packed_cell(b0, b1, b2, b3), 2) == b2,
        byte_of_cell(packed_cell(b0, b1, b2, b3), 3) == b3,
        is_packed(packed_cell(b0, b1, b2, b3)) <==> b0 != 0,
{
    let bits: u32 = ((b0 as u32) << 24) | ((b1 as u32) << 16) | ((b2 as u32) << 8) | (b3 as u32);
    let cell: i32 = bits as i32;
    assert((cell as u32) == bits) by (bit_vector)
        requires
            cell == bits as i32,
    ;
    assert((bits >> 24) as u8 == b0) by (bit_vector)
        requires
            bits == ((b0 as u32) << 24) | ((b1 as u32) << 16) | ((b2 as u32) << 8) | (b3 as u32),
    ;
    assert((bits >> 16) as u8 == b1) by (bit_vector)
        requires
            bits == ((b0 as u32) << 24) | ((b1 as u32) << 16) | ((b2 as u32) << 8) | (b3 as u32),
    ;
    assert((bits >> 8) as u8 == b2) by (bit_vector)
        requires
            bits == ((b0 as u32) << 24) | ((b1 as u32) << 16) | ((b2 as u32) << 8) | (b3 as u32),
    ;
    assert(bits as u8 == b3) by (bit_vector)
        requires
            bits == ((b0 as u32) << 24) | ((b1 as u32) << 16) | ((b2 as u32) << 8) | (b3 as u32),
    ;
    assert((bits > 0x00FF_FFFFu32) <==> b0 != 0) by (bit_vector)
        requires
            bits == ((b0 as u32) << 24) | ((b1 as u32) << 16) | ((b2 as u32) << 8) | (b3 as u32),
    ;
}

/// A packed string is read back as the bytes it was packed from: the
/// packed cells of a run of bytes without a zero among them have the
/// length of the run and its bytes. (An empty run packs to a zero cell,
/// which is the empty string in either form.)
pub proof fn lemma_packed_text_reads_back(bytes: Seq<u8>)
    requires
        forall|i: int| 0 <= i < bytes.len() ==> #[trigger] bytes[i] != 0,
    ensures
        bytes.len() > 0 ==> is_packed(packed_text(bytes)[0]),
        string_len_is(packed_text(bytes), 0, bytes.len()),
        is_terminated(packed_text(bytes), 0),
        string_len(packed_text(bytes), 0) == bytes.len(),
        string_bytes(packed_text(bytes), 0, bytes.len()) == bytes,
{
    let cells = packed_text(bytes);
    let n = bytes.len() as int;
    assert forall|j: int| 0 <= j <= n implies #[trigger] packed_byte(cells, 0, j) == byte_or_zero(
        bytes,
        j,
    ) by {
        let c = j / 4;
        lemma_packed_cell_bytes(
            byte_or_zero(bytes, 4 * c),
            byte_or_zero(bytes, 4 * c + 1),
            byte_or_zero(bytes, 4 * c + 2),
            byte_or_zero(bytes, 4 * c + 3),
        );
        assert(0 <= c < cells.len());
        assert(j == 4 * c + j % 4);
    }
    lemma_packed_cell_bytes(
        byte_or_zero(bytes, 0),
        byte_or_zero(bytes, 1),
        byte_or_zero(bytes, 2),
        byte_or_zero(bytes, 3),
    );
    if n > 0 {
        assert(bytes[0] != 0);
        assert(is_packed(cells[0]));
        assert forall|j: int| 0 <= j < n implies #[trigger] packed_byte(cells, 0, j) != 0 by {
            assert(packed_byte(cells, 0, j) == byte_or_zero(bytes, j));
            assert(bytes[j] != 0);
        }
        assert(packed_byte(cells, 0, n) == 0);
        assert(packed_len_is(cells, 0, bytes.len()));
        assert(string_bytes(cells, 0, bytes.len()) =~= bytes);
    } else {
        assert(!is_packed(cells[0]));
        assert(cells[0] == 0) by {
            assert(packed_cell(0, 0, 0, 0) == 0) by (bit_vector);
        }
        assert(unpacked_len_is(cells, 0, 0));
        assert(string_bytes(cells, 0, bytes.len()) =~= bytes);
    }
    lemma_string_len_unique(cells, 0, bytes.len(), bytes.len());
}

/// The byte at place `k` of `cell`.
pub fn cell_byte(cell: i32, k: usize) -> (byte: u8)
    requires
        k < 4,
    ensures
        byte == byte_of_cell(cell, k as int),
{
    let bits: u32 = #[verifier::truncate]
    (cell as u32);
    if k == 0 {
        #[verifier::truncate]
        ((bits >> 24) as u8)
    } else if k == 1 {
        #[verifier::truncate]
        ((bits >> 16) as u8)
    } else if k == 2 {
        #[verifier::truncate]
        ((bits >> 8) as u8)
    } else {
        #[verifier::truncate]
        (bits as u8)
    }
}

/// Whether a string that begins with the cell `first` is packed.
pub fn first_cell_is_packed(first: i32) -> (packed: bool)
    ensures
        packed == is_packed(first),
{
    let bits: u32 = #[verifier::truncate]
    (first as u32);
    bits > MAX_UNPACKED
}

/// Counts the cells from `start` up to the first zero cell. `None` where
/// the segment ends before a zero cell.
pub fn unpacked_strlen(cells: &[i32], start: usize) -> (len: Option<usize>)
    requires
        start < cells@.len(),
    ensures
        len is Some ==> unpacked_len_is(cells@, start as int, len->0 as nat),
        len is None ==> forall|n: nat| !unpacked_len_is(cells@, start as int, n),
{
    let total: usize = cells.len();
    let mut n: usize = 0;
    while start + n < total && cells[start + n] != 0
        invariant
            total == cells@.len(),
            start < total,
            start + n <= total,
            forall|i: int| 0 <= i < n ==> #[trigger] cells@[start + i] != 0,
        decreases total - start - n,
    {
        n = n + 1;
    }
    if start + n < total {
        Some(n)
    } else {
        assert forall|m: nat| !unpacked_len_is(cells@, start as int, m) by {
            if unpacked_len_is(cells@, start as int, m) {
                assert(cells@[start + m] != 0);
            }
        }
        None
    }
}

/// Counts the bytes from the highest byte of the cell at `start` up to the
/// first zero byte. `None` where the segment ends before a zero byte.
pub fn packed_strlen(cells: &[i32], start: usize) -> (len: Option<usize>)
    requires
        start < cells@.len(),
        cells@.len() <= MAX_CELLS,
    ensures
        len is Some ==> packed_len_is(cells@, start as int, len->0 as nat),
        len is None ==> forall|n: nat| !packed_len_is(cells@, start as int, n),
{
    let total: usize = cells.len();
    let mut n: usize = 0;
    while start + n / 4 < total && cell_byte(cells[start + n / 4], n % 4) != 0
        invariant
            total == cells@.len(),
            total <= MAX_CELLS,
            start < total,
            n / 4 <= total - start,
            n <= 4 * (total - start),
            forall|j: int| 0 <= j < n ==> #[trigger] packed_byte(cells@, start as int, j) != 0,
        decreases 4 * (total - start) - n,
    {
        n = n + 1;
    }
    if start + n / 4 < total {
        Some(n)
    } else {
        assert forall|m: nat| !packed_len_is(cells@, start as int, m) by {
            if packed_len_is(cells@, start as int, m) {
                assert(packed_byte(cells@, start as int, m as int) != 0);
            }
        }
        None
    }
}

/// What an `AmxString` is to a specification: the cells that back it, and
/// the number of its characters.
pub struct StringView {
    /// The cells of the string, terminator included.
    pub buffer: BufferView,
    /// The number of characters.
    pub len: nat,
}

impl StringView {
    /// Whether the string can be read in `amx`: the segment holds its
    /// cells, and the cells hold its characters in the form that the first
    /// cell shows now.
    pub open spec fn in_bounds(self, amx: AmxView) -> bool {
        &&& self.buffer.in_bounds(amx)
        &&& self.buffer.len >= 1
        &&& self.len <= if is_packed(amx.data[self.buffer.start()]) {
            4 * self.buffer.len
        } else {
            self.buffer.len
        }
    }

    /// The characters of the string in `amx`, one byte each.
    pub open spec fn bytes(self, amx: AmxView) -> Seq<u8> {
        string_bytes(amx.data, self.buffer.start(), self.len)
    }
}

/// A string inside an AMX.
#[derive(Debug)]
pub struct AmxString {
    inner: Buffer,
    len: usize,
}

impl View for AmxString {
    type V = StringView;

    closed spec fn view(&self) -> StringView {
        StringView { buffer: self.inner@, len: self.len as nat }
    }
}

/// The string of `len` characters in the `buffer_len` cells at `address`.
pub closed spec fn string_at(address: i32, buffer_len: usize, len: usize) -> AmxString {
    AmxString { inner: buffer_at(address, buffer_len), len }
}

/// Where the string at an address begins, and how long it is.
pub proof fn lemma_string_view(address: i32, buffer_len: usize, len: usize)
    ensures
        string_at(address, buffer_len, len)@ == (StringView {
            buffer: BufferView { address: address as int, len: buffer_len as nat },
            len: len as nat,
        }),
{
    lemma_buffer_view(address, buffer_len);
}

proof fn lemma_string_at(string: AmxString)
    ensures
        string == string_at(
            string@.buffer.address as i32,
            string@.buffer.len as usize,
            string@.len as usize,
        ),
{
    lemma_buffer_at(string.inner);
}

impl AmxString {
    /// Writes `bytes` to `buffer` as an unpacked string, one byte in each
    /// cell and a zero cell after the last, and returns the string. The
    /// buffer has to be longer than `bytes`.
    pub fn new(amx: &mut Amx, buffer: Buffer, bytes: &[u8]) -> (string: AmxString)
        requires
            buffer@.in_bounds(old(amx)@),
            bytes@.len() < buffer@.len,
        ensures
            string@ == (StringView { buffer: buffer@, len: bytes@.len() }),
            final(amx)@ == (AmxView {
                data: write_text(old(amx)@.data, buffer@.start(), bytes@),
                ..old(amx)@
            }),
    {
        let ghost before = amx@;
        let ghost start = buffer@.start();
        let count: usize = bytes.len();
        let mut idx: usize = 0;
        while idx < count
            invariant
                idx <= count,
                count == bytes@.len(),
                count < buffer@.len,
                start == buffer@.start(),
                buffer@.in_bounds(amx@),
                amx@.hea == before.hea,
                amx@.stk == before.stk,
                amx@.stp == before.stp,
                amx@.encoding == before.encoding,
                amx@.data.len() == before.data.len(),
                forall|i: int|
                    0 <= i < before.data.len() ==> #[trigger] amx@.data[i] == if start <= i < start
                        + idx {
                        bytes@[i - start] as i32
                    } else {
                        before.data[i]
                    },
            decreases count - idx,
        {
            buffer.set(amx, idx, bytes[idx] as i32);
            idx = idx + 1;
        }
        buffer.set(amx, count, 0);
        assert(amx@.data =~= write_text(before.data, start, bytes@));
        AmxString { len: count, inner: buffer }
    }

    /// The characters of the string, one byte each: the lowest byte of each
    /// cell of an unpacked string, the bytes of the cells from the highest
    /// down of a packed one.
    pub fn to_bytes(&self, amx: &Amx) -> (bytes: Vec<u8>)
        requires
            self@.in_bounds(amx@),
        ensures
            bytes@ == self@.bytes(amx@),
    {
        let cells: &[i32] = self.inner.as_slice(amx);
        let ghost start = self@.buffer.start();
        let mut bytes: Vec<u8> = Vec::with_capacity(self.len);
        let len: usize = self.len;
        if first_cell_is_packed(cells[0]) {
            let mut j: usize = 0;
            while j < len
                invariant
                    j <= len,
                    len == self@.len,
                    len <= 4 * cells@.len(),
                    cells@ == self@.buffer.cells(amx@),
                    self@.buffer.in_bounds(amx@),
                    start == self@.buffer.start(),
                    bytes@.len() == j,
                    forall|i: int|
                        0 <= i < j ==> #[trigger] bytes@[i] == packed_byte(amx@.data, start, i),
                decreases len - j,
            {
                let byte: u8 = cell_byte(cells[j / 4], j % 4);
                assert(cells@[(j / 4) as int] == amx@.data[start + (j / 4) as int]);
                bytes.push(byte);
                j = j + 1;
            }
            assert(bytes@ =~= self@.bytes(amx@));
        } else {
            let mut j: usize = 0;
            while j < len
                invariant
                    j <= len,
                    len == self@.len,
                    len <= cells@.len(),
                    cells@ == self@.buffer.cells(amx@),
                    self@.buffer.in_bounds(amx@),
                    start == self@.buffer.start(),
                    bytes@.len() == j,
                    forall|i: int|
                        0 <= i < j ==> #[trigger] bytes@[i] == unpacked_byte(amx@.data, start, i),
                decreases len - j,
            {
                let byte: u8 = #[verifier::truncate]
                (cells[j] as u8);
                assert(cells@[j as int] == amx@.data[start + j]);
                bytes.push(byte);
                j = j + 1;
            }
            assert(bytes@ =~= self@.bytes(amx@));
        }
        bytes
    }

    /// The text of the string: its characters, decoded in the code page of
    /// the AMX.
    pub fn to_string(&self, amx: &Amx) -> (text: String)
        requires
            self@.in_bounds(amx@),
        ensures
            text@ == decoded_text(amx@.encoding.number(), self@.bytes(amx@)),
            encoding::is_ascii_bytes(self@.bytes(amx@)) ==> text@ == encoding::ascii_text(
                self@.bytes(amx@),
            ),
    {
        let _ = amx.cells();
        let bytes: Vec<u8> = self.to_bytes(amx);
        encoding::decode(amx.encoding(), bytes.as_slice())
    }

    /// The number of characters.
    pub fn len(&self) -> (len: usize)
        ensures
            len == self@.len,
    {
        self.len
    }

    /// Whether the string has no character.
    pub fn is_empty(&self) -> (empty: bool)
        ensures
            empty == (self@.len == 0),
    {
        self.len == 0
    }

    /// The number of cells that back the string.
    pub fn bytes_len(&self) -> (len: usize)
        ensures
            len == self@.buffer.len,
    {
        self.inner.len()
    }

    /// The address of the first cell.
    pub fn address(&self) -> (address: i32)
        ensures
            address == self@.buffer.address,
    {
        self.inner.address()
    }

    /// Whether the string can be read in `amx` as it is now.
    pub fn fits(&self, amx: &Amx) -> (fits: bool)
        ensures
            fits == self@.in_bounds(amx@),
    {
        if !self.inner.fits(amx) || self.inner.len() < 1 {
            return false;
        }
        let _ = amx.cells();
        let first: i32 = self.inner.get(amx, 0);
        assert(first == amx@.data[self@.buffer.start()]);
        if first_cell_is_packed(first) {
            self.len / 4 < self.inner.len() || (self.len / 4 == self.inner.len() && self.len % 4
                == 0)
        } else {
            self.len <= self.inner.len()
        }
    }
}

impl AmxCell for AmxString {
    /// The string that begins at the address `cell`. A cell that is no valid
    /// address is a `MemoryAccess` error, and so is a string that does not
    /// end inside the data segment.
    open spec fn from_raw_spec(amx: AmxView, cell: i32) -> AmxResult<AmxString> {
        let start = cell as int / (CELL_SIZE as int);
        if !amx.is_valid_address(cell as int) || !is_terminated(amx.data, start) {
            Err(AmxError::MemoryAccess)
        } else {
            let len = string_len(amx.data, start);
            Ok(
                string_at(
                    cell,
                    backing_len(is_packed(amx.data[start]), len) as usize,
                    len as usize,
                ),
            )
        }
    }

    open spec fn as_cell_spec(&self) -> i32 {
        self@.buffer.address as i32
    }

    fn from_raw(amx: &Amx, cell: i32) -> (value: AmxResult<AmxString>) {
        let buffer: UnsizedBuffer = match UnsizedBuffer::from_raw(amx, cell) {
            Ok(buffer) => buffer,
            Err(error) => {
                return Err(error);
            },
        };
        proof {
            crate::cell::buffer::lemma_unsized_buffer_view(cell);
        }
        let total: usize = amx.cells();
        let cells: &[i32] = amx.segment();
        let start: usize = (cell / CELL_SIZE) as usize;
        let packed: bool = first_cell_is_packed(cells[start]);
        let found: Option<usize> = if packed {
            packed_strlen(cells, start)
        } else {
            unpacked_strlen(cells, start)
        };
        match found {
            Some(len) => {
                proof {
                    lemma_string_len_unique(amx@.data, start as int, len as nat, len as nat);
                }
                let buffer_len: usize = if packed {
                    len / 4 + 1
                } else {
                    len + 1
                };
                let string = AmxString { inner: buffer.into_sized_buffer(buffer_len), len };
                proof {
                    lemma_string_at(string);
                }
                Ok(string)
            },
            None => Err(AmxError::MemoryAccess),
        }
    }

    fn as_cell(&self) -> (cell: i32) {
        self.inner.address()
    }
}

/// Writes `string`, encoded in the code page of the AMX, to `buffer` as an
/// unpacked string. Fails with `General`, and writes nothing, where the
/// buffer is not longer than the encoded bytes.
pub fn put_in_buffer(amx: &mut Amx, buffer: &Buffer, string: &str) -> (result: AmxResult<()>)
    requires
        buffer@.in_bounds(old(amx)@),
        string.spec_bytes().len() <= MAX_TEXT_LEN,
    ensures
        result == put_bytes_spec(
            old(amx)@,
            buffer@,
            encoded_text(old(amx)@.encoding.number(), string@),
        ).0,
        final(amx)@ == put_bytes_spec(
            old(amx)@,
            buffer@,
            encoded_text(old(amx)@.encoding.number(), string@),
        ).1,
{
    let bytes: Vec<u8> = encoding::encode(amx.encoding(), string);
    put_bytes_in_buffer(amx, buffer, bytes.as_slice())
}

/// What writing `bytes` to `buffer` as an unpacked string gives: the result
/// and the state of the AMX afterwards.
pub open spec fn put_bytes_spec(amx: AmxView, buffer: BufferView, bytes: Seq<u8>) -> (
    AmxResult<()>,
    AmxView,
) {
    if bytes.len() >= buffer.len {
        (Err(AmxError::General), amx)
    } else {
        (Ok(()), AmxView { data: write_text(amx.data, buffer.start(), bytes), ..amx })
    }
}

/// Writes `bytes` to `buffer` as an unpacked string: one byte in each cell,
/// and a zero cell after the last. Fails with `General`, and writes
/// nothing, where the buffer is not longer than `bytes`.
pub fn put_bytes_in_buffer(amx: &mut Amx, buffer: &Buffer, bytes: &[u8]) -> (result: AmxResult<
    (),
>)
    requires
        buffer@.in_bounds(old(amx)@),
    ensures
        result == put_bytes_spec(old(amx)@, buffer@, bytes@).0,
        final(amx)@ == put_bytes_spec(old(amx)@, buffer@, bytes@).1,
{
    if bytes.len() >= buffer.len() {
        return Err(AmxError::General);
    }
    let whole: Buffer = Buffer::new(crate::cell::Ref::new(buffer.address()), buffer.len());
    let _ = AmxString::new(amx, whole, bytes);
    Ok(())
}

/// Whether the string at `start` ends before its `j`-th character: at a
/// zero byte packed, at a zero cell unpacked.
pub open spec fn ends_at(cells: Seq<i32>, start: int, j: int) -> bool {
    if is_packed(cells[start]) {
        packed_byte(cells, start, j) == 0
    } else {
        cells[start + j] == 0
    }
}

/// The index of the cell that holds the `j`-th character of the string at
/// `start`.
pub open spec fn char_cell(cells: Seq<i32>, start: int, j: int) -> int {
    if is_packed(cells[start]) {
        start + j / 4
    } else {
        start + j
    }
}

/// Reading at most `size` characters of the string at `start` gives `n` of
/// them: `n` characters inside the segment before the string ends, and
/// then either the end of the string, inside the segment too, or `size`
/// characters read.
pub open spec fn prefix_len_is(cells: Seq<i32>, start: int, size: nat, n: nat) -> bool {
    &&& n <= size
    &&& forall|j: int|
        #![trigger ends_at(cells, start, j)]
        #![trigger char_cell(cells, start, j)]
        0 <= j < n ==> char_cell(cells, start, j) < cells.len() && !ends_at(cells, start, j)
    &&& n < size ==> char_cell(cells, start, n as int) < cells.len() && ends_at(
        cells,
        start,
        n as int,
    )
}

/// What reading at most `size` characters at the address `address` gives:
/// the characters, or a `MemoryAccess` error where the address is not
/// valid or the string leaves the segment before it ends and before `size`
/// characters are read.
pub open spec fn get_string_spec(amx: AmxView, address: int, size: nat, result: AmxResult<
    Seq<u8>,
>) -> bool {
    let start = address / (CELL_SIZE as int);
    if amx.is_valid_address(address) && exists|n: nat|
        prefix_len_is(amx.data, start, size, n) {
        &&& result is Ok
        &&& prefix_len_is(amx.data, start, size, result->Ok_0.len())
        &&& result->Ok_0 == string_bytes(amx.data, start, result->Ok_0.len())
    } else {
        result == Err::<Seq<u8>, AmxError>(AmxError::MemoryAccess)
    }
}

impl Amx {
    /// Reads at most `size` characters of the string at `address`, packed
    /// or unpacked as its first cell shows, one byte for each character.
    pub fn get_string_bytes(&self, address: i32, size: usize) -> (result: AmxResult<Vec<u8>>)
        ensures
            get_string_spec(
                self@,
                address as int,
                size as nat,
                match result {
                    Ok(bytes) => Ok(bytes@),
                    Err(error) => Err(error),
                },
            ),
            result is Ok ==> result->Ok_0@.len() <= 4 * MAX_CELLS,
    {
        if !self.is_valid_address(address) {
            return Err(AmxError::MemoryAccess);
        }
        let total: usize = self.cells();
        let cells: &[i32] = self.segment();
        let start: usize = (address / CELL_SIZE) as usize;
        assert(start as int == address as int / (CELL_SIZE as int));
        let packed: bool = first_cell_is_packed(cells[start]);
        let mut bytes: Vec<u8> = Vec::new();
        let mut n: usize = 0;
        let mut done: bool = false;
        while n < size && !done
            invariant
                n <= size,
                done ==> n < size && char_cell(cells@, start as int, n as int) < total && ends_at(
                    cells@,
                    start as int,
                    n as int,
                ),
                total == cells@.len(),
                total <= MAX_CELLS,
                cells@ == self@.data,
                start < total,
                start as int == address as int / (CELL_SIZE as int),
                self@.is_valid_address(address as int),
                packed == is_packed(cells@[start as int]),
                n <= 4 * (total - start),
                bytes@.len() == n,
                forall|j: int|
                    #![trigger ends_at(cells@, start as int, j)]
                    #![trigger char_cell(cells@, start as int, j)]
                    0 <= j < n ==> char_cell(cells@, start as int, j) < total && !ends_at(
                        cells@,
                        start as int,
                        j,
                    ),
                forall|j: int|
                    0 <= j < n ==> #[trigger] bytes@[j] == if packed {
                        packed_byte(cells@, start as int, j)
                    } else {
                        unpacked_byte(cells@, start as int, j)
                    },
            decreases
                    size - n + if done {
                        0int
                    } else {
                        1int
                    },
        {
            let index: usize = if packed {
                start + n / 4
            } else {
                start + n
            };
            assert(index == char_cell(cells@, start as int, n as int));
            if index >= total {
                assert forall|m: nat| !prefix_len_is(cells@, start as int, size as nat, m) by {
                    if prefix_len_is(cells@, start as int, size as nat, m) {
                        if m < n {
                            assert(!ends_at(cells@, start as int, m as int));
                        } else if m > n {
                            assert(!ends_at(cells@, start as int, n as int));
                        }
                    }
                }
                return Err(AmxError::MemoryAccess);
            }
            let cell: i32 = cells[index];
            let byte: u8 = if packed {
                cell_byte(cell, n % 4)
            } else {
                #[verifier::truncate]
                (cell as u8)
            };
            let at_end: bool = if packed {
                byte == 0
            } else {
                cell == 0
            };
            if at_end {
                done = true;
            } else {
                bytes.push(byte);
                n = n + 1;
            }
        }
        assert(prefix_len_is(cells@, start as int, size as nat, n as nat));
        assert(bytes@ =~= string_bytes(cells@, start as int, n as nat));
        Ok(bytes)
    }

    /// Reads at most `size` characters of the string at `address` and
    /// decodes them in the code page of the AMX.
    pub fn get_string(&self, address: i32, size: usize) -> (result: AmxResult<String>)
        ensures
            result is Ok ==> exists|bytes: Seq<u8>|
                #![auto]
                get_string_spec(self@, address as int, size as nat, Ok(bytes)) && result->Ok_0@
                    == decoded_text(self@.encoding.number(), bytes),
            result is Err ==> get_string_spec(
                self@,
                address as int,
                size as nat,
                Err(result->Err_0),
            ),
    {
        match self.get_string_bytes(address, size) {
            Ok(bytes) => Ok(encoding::decode(self.encoding(), bytes.as_slice())),
            Err(error) => Err(error),
        }
    }
}

} // verus!
