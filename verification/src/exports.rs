//! The functions that an AMX exports to the host, and where its table
//! holds each of them.
use vstd::prelude::*;
use vstd::std_specs::convert::FromSpecImpl;

verus! {

/// The `amx_*` functions that the server hands to a plugin in a table of
/// function pointers, in the order of the table.
#[derive(Debug, Clone, Copy, PartialEq, Eq, Structural)]
pub enum Exports {
    Align16,
    Align32,
    Align64,
    Allot,
    Callback,
    Cleanup,
    Clone,
    Exec,
    FindNative,
    FindPublic,
    FindPubVar,
    FindTagId,
    Flags,
    GetAddr,
    GetNative,
    GetPublic,
    GetPubVar,
    GetString,
    GetTag,
    GetUserData,
    Init,
    InitJIT,
    MemInfo,
    NameLength,
    NativeInfo,
    NumNatives,
    NumPublics,
    NumPubVars,
    NumTags,
    Push,
    PushArray,
    PushString,
    RaiseError,
    Register,
    Release,
    SetCallback,
    SetDebugHook,
    SetString,
    SetUserData,
    StrLen,
    UTF8Check,
    UTF8Get,
    UTF8Len,
    UTF8Put,
}

impl Exports {
    /// The number of slots in the table.
    pub const COUNT: usize = 44;

    /// The place of the function in the table, counted in slots from the
    /// base of the table. The ABI of the AMX fixes it.
    pub open spec fn spec_offset(self) -> isize {
        match self {
            Exports::Align16 => 0,
            Exports::Align32 => 1,
            Exports::Align64 => 2,
            Exports::Allot => 3,
            Exports::Callback => 4,
            Exports::Cleanup => 5,
            Exports::Clone => 6,
            Exports::Exec => 7,
            Exports::FindNative => 8,
            Exports::FindPublic => 9,
            Exports::FindPubVar => 10,
            Exports::FindTagId => 11,
            Exports::Flags => 12,
            Exports::GetAddr => 13,
            Exports::GetNative => 14,
            Exports::GetPublic => 15,
            Exports::GetPubVar => 16,
            Exports::GetString => 17,
            Exports::GetTag => 18,
            Exports::GetUserData => 19,
            Exports::Init => 20,
            Exports::InitJIT => 21,
            Exports::MemInfo => 22,
            Exports::NameLength => 23,
            Exports::NativeInfo => 24,
            Exports::NumNatives => 25,
            Exports::NumPublics => 26,
            Exports::NumPubVars => 27,
            Exports::NumTags => 28,
            Exports::Push => 29,
            Exports::PushArray => 30,
            Exports::PushString => 31,
            Exports::RaiseError => 32,
            Exports::Register => 33,
            Exports::Release => 34,
            Exports::SetCallback => 35,
            Exports::SetDebugHook => 36,
            Exports::SetString => 37,
            Exports::SetUserData => 38,
            Exports::StrLen => 39,
            Exports::UTF8Check => 40,
            Exports::UTF8Get => 41,
            Exports::UTF8Len => 42,
            Exports::UTF8Put => 43,
        }
    }

    /// The place of the function in the table.
    #[verifier::when_used_as_spec(spec_offset)]
    pub fn offset(self) -> (offset: isize)
        ensures
            offset == self.spec_offset(),
            0 <= offset < Exports::COUNT,
    {
        match self {
            Exports::Align16 => 0,
            Exports::Align32 => 1,
            Exports::Align64 => 2,
            Exports::Allot => 3,
            Exports::Callback => 4,
            Exports::Cleanup => 5,
            Exports::Clone => 6,
            Exports::Exec => 7,
            Exports::FindNative => 8,
            Exports::FindPublic => 9,
            Exports::FindPubVar => 10,
            Exports::FindTagId => 11,
            Exports::Flags => 12,
            Exports::GetAddr => 13,
            Exports::GetNative => 14,
            Exports::GetPublic => 15,
            Exports::GetPubVar => 16,
            Exports::GetString => 17,
            Exports::GetTag => 18,
            Exports::GetUserData => 19,
            Exports::Init => 20,
            Exports::InitJIT => 21,
            Exports::MemInfo => 22,
            Exports::NameLength => 23,
            Exports::NativeInfo => 24,
            Exports::NumNatives => 25,
            Exports::NumPublics => 26,
            Exports::NumPubVars => 27,
            Exports::NumTags => 28,
            Exports::Push => 29,
            Exports::PushArray => 30,
            Exports::PushString => 31,
            Exports::RaiseError => 32,
            Exports::Register => 33,
            Exports::Release => 34,
            Exports::SetCallback => 35,
            Exports::SetDebugHook => 36,
            Exports::SetString => 37,
            Exports::SetUserData => 38,
            Exports::StrLen => 39,
            Exports::UTF8Check => 40,
            Exports::UTF8Get => 41,
            Exports::UTF8Len => 42,
            Exports::UTF8Put => 43,
        }
    }

    /// The address of the slot that holds the function in the table that
    /// begins at the address `fn_table`, where a slot is `slot_size` bytes
    /// wide. `None` where that address is no `usize`.
    pub fn slot_address(self, fn_table: usize, slot_size: usize) -> (address: Option<usize>)
        ensures
            fn_table + self.spec_offset() * slot_size <= usize::MAX ==> address == Some(
                (fn_table + self.spec_offset() * slot_size) as usize,
            ),
            fn_table + self.spec_offset() * slot_size > usize::MAX ==> address is None,
    {
        let offset: usize = self.offset() as usize;
        match offset.checked_mul(slot_size) {
            Some(bytes) => fn_table.checked_add(bytes),
            None => {
                assert(offset * slot_size > usize::MAX);
                None
            },
        }
    }
}

impl From<Exports> for isize {
    fn from(exports: Exports) -> (offset: isize) {
        exports.offset()
    }
}

impl FromSpecImpl<Exports> for isize {
    open spec fn obeys_from_spec() -> bool {
        true
    }

    open spec fn from_spec(exports: Exports) -> isize {
        exports.spec_offset()
    }
}

/// No two functions share a slot of the table.
pub proof fn lemma_offsets_differ(a: Exports, b: Exports)
    requires
        a != b,
    ensures
        a.spec_offset() != b.spec_offset(),
{
}

} // verus!
