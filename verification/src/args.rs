//! The arguments of a call to a native.
//!
//! A native is handed an array of cells: the first holds the number of
//! bytes that the arguments take, the others one argument each.
use vstd::prelude::*;

use crate::amx::{Amx, AmxView, CELL_SIZE};
use crate::cell::repr::AmxCell;

verus! {

/// The number of arguments that the array `cells` announces in its first
/// cell: the byte count there, divided by the width of a cell. An array
/// without a first cell, or with a negative count, announces none.
pub open spec fn count_of(cells: Seq<i32>) -> nat {
    if cells.len() == 0 || cells[0] < 0 {
        0
    } else {
        (cells[0] / CELL_SIZE) as nat
    }
}

/// Whether the array has the argument at `offset`: the first cell counts
/// it, and the array holds its cell.
pub open spec fn has_argument(cells: Seq<i32>, offset: nat) -> bool {
    offset < count_of(cells) && offset + 1 < cells.len()
}

/// The argument at `offset` of the array, read as a `T`: nothing where the
/// array has no such argument or where its cell does not decode.
pub open spec fn argument<T: AmxCell>(amx: AmxView, cells: Seq<i32>, offset: nat) -> Option<T> {
    if has_argument(cells, offset) {
        match T::from_raw_spec(amx, cells[offset as int + 1]) {
            Ok(value) => Some(value),
            Err(_) => None,
        }
    } else {
        None
    }
}

/// An array of exactly the arguments that its first cell announces.
pub open spec fn is_argument_array(cells: Seq<i32>) -> bool {
    cells.len() >= 1 && cells[0] == CELL_SIZE * (cells.len() - 1)
}

/// What an `Args` is to a specification.
pub struct ArgsView {
    /// The array: the byte count, then the arguments.
    pub cells: Seq<i32>,
    /// The offset of the argument that `next` reads.
    pub offset: nat,
}

/// A cursor over the arguments of a call to a native.
#[derive(Debug)]
pub struct Args {
    args: Vec<i32>,
    offset: usize,
}

impl View for Args {
    type V = ArgsView;

    closed spec fn view(&self) -> ArgsView {
        ArgsView { cells: self.args@, offset: self.offset as nat }
    }
}

impl Args {
    /// A cursor at the first argument of the array `args`.
    pub fn new(args: Vec<i32>) -> (cursor: Args)
        ensures
            cursor@ == (ArgsView { cells: args@, offset: 0 }),
    {
        Args { args, offset: 0 }
    }

    /// The argument under the cursor, read as a `T`, or nothing where no
    /// argument is left or the argument does not decode. The cursor moves
    /// on by one argument while there is one.
    pub fn next<T: AmxCell>(&mut self, amx: &Amx) -> (value: Option<T>)
        ensures
            value == argument::<T>(amx@, old(self)@.cells, old(self)@.offset),
            final(self)@.cells == old(self)@.cells,
            final(self)@.offset == if has_argument(old(self)@.cells, old(self)@.offset) {
                old(self)@.offset + 1
            } else {
                old(self)@.offset
            },
    {
        let result: Option<T> = self.get(amx, self.offset);
        if self.offset < self.count() && self.offset + 1 < self.args.len() {
            self.offset = self.offset + 1;
        }
        result
    }

    /// The argument at `offset`, read as a `T`, or nothing where the array
    /// has no such argument or the argument does not decode.
    pub fn get<T: AmxCell>(&self, amx: &Amx, offset: usize) -> (value: Option<T>)
        ensures
            value == argument::<T>(amx@, self@.cells, offset as nat),
    {
        if offset >= self.count() || offset + 1 >= self.args.len() {
            return None;
        }
        match T::from_raw(amx, self.args[offset + 1]) {
            Ok(value) => Some(value),
            Err(_) => None,
        }
    }

    /// Puts the cursor back on the first argument.
    pub fn reset(&mut self)
        ensures
            final(self)@ == (ArgsView { cells: old(self)@.cells, offset: 0 }),
    {
        self.offset = 0;
    }

    /// The number of arguments that the array announces.
    pub fn count(&self) -> (count: usize)
        ensures
            count == count_of(self@.cells),
    {
        if self.args.len() == 0 || self.args[0] < 0 {
            0
        } else {
            (self.args[0] / CELL_SIZE) as usize
        }
    }
}

/// The cursor after `calls` calls of `next`.
pub open spec fn after_calls(args: ArgsView, calls: nat) -> ArgsView
    decreases calls,
{
    if calls == 0 {
        args
    } else {
        let before = after_calls(args, (calls - 1) as nat);
        ArgsView {
            cells: before.cells,
            offset: if has_argument(before.cells, before.offset) {
                before.offset + 1
            } else {
                before.offset
            },
        }
    }
}

/// Over an array of `n` arguments the count is `n`; the first `n` calls of
/// `next` on a fresh cursor read the arguments in the order in which they
/// stand, the call with the number `k` the cell at `k + 1`; and every call
/// after them finds nothing.
pub proof fn lemma_arguments_in_order<T: AmxCell>(amx: AmxView, cells: Seq<i32>, calls: nat)
    requires
        is_argument_array(cells),
    ensures
        count_of(cells) == cells.len() - 1,
        after_calls(ArgsView { cells, offset: 0 }, calls).cells == cells,
        calls < cells.len() - 1 ==> {
            &&& after_calls(ArgsView { cells, offset: 0 }, calls).offset == calls
            &&& argument::<T>(amx, cells, calls) == match T::from_raw_spec(
                amx,
                cells[calls as int + 1],
            ) {
                Ok(value) => Some(value),
                Err(_) => None::<T>,
            }
        },
        calls >= cells.len() - 1 ==> {
            &&& after_calls(ArgsView { cells, offset: 0 }, calls).offset == cells.len() - 1
            &&& argument::<T>(
                amx,
                cells,
                after_calls(ArgsView { cells, offset: 0 }, calls).offset,
            ) is None
        },
    decreases calls,
{
    assert(count_of(cells) == cells.len() - 1) by {
        let n = cells.len() - 1;
        assert((4 * n) / 4 == n);
    }
    if calls > 0 {
        lemma_arguments_in_order::<T>(amx, cells, (calls - 1) as nat);
    }
}

/// A cursor over the cells of a parameter array by their addresses, for
/// natives that read their arguments themselves.
#[derive(Debug)]
pub struct Parser {
    params: i32,
    index: i32,
}

impl View for Parser {
    type V = (int, int);

    /// The address of the array, and the number of arguments read so far.
    closed spec fn view(&self) -> (int, int) {
        (self.params as int, self.index as int)
    }
}

impl Parser {
    /// A cursor over the parameter array at the address `params`.
    pub fn new(params: i32) -> (parser: Parser)
        ensures
            parser@ == (params as int, 0int),
    {
        Parser { params, index: 0 }
    }

    /// The address of the next argument's cell: the array's first cell is
    /// the byte count, the arguments follow it, a cell each. `None`, with
    /// the cursor left where it is, where that address is no `i32`.
    pub fn next(&mut self) -> (address: Option<i32>)
        ensures
            old(self)@.0 + CELL_SIZE * (old(self)@.1 + 1) <= i32::MAX ==> address == Some(
                (old(self)@.0 + CELL_SIZE * (old(self)@.1 + 1)) as i32,
            ) && final(self)@ == (old(self)@.0, old(self)@.1 + 1),
            old(self)@.0 + CELL_SIZE * (old(self)@.1 + 1) > i32::MAX ==> address is None
                && final(self)@ == old(self)@,
    {
        proof {
            use_type_invariant(&*self);
        }
        let next: i64 = self.params as i64 + (CELL_SIZE as i64) * (self.index as i64 + 1);
        if next > i32::MAX as i64 {
            return None;
        }
        self.index = self.index + 1;
        Some(next as i32)
    }

    #[verifier::type_invariant]
    closed spec fn inv(&self) -> bool {
        0 <= self.index && self.params + CELL_SIZE * self.index <= i32::MAX
    }
}

} // verus!
