//! The constants of the plugin ABI.
use vstd::prelude::*;
use vstd::std_specs::convert::FromSpecImpl;

verus! {

/// The version of the plugin interface that the plugin supports.
pub const SUPPORTS_VERSION: u32 = 0x200;

/// The plugin registers natives with each AMX.
pub const SUPPORTS_AMX_NATIVES: u32 = 0x10000;

/// The plugin wants to be called on every tick of the server.
pub const SUPPORTS_PROCESS_TICK: u32 = 0x20000;

/// All the bits that `Supports` knows.
pub const SUPPORTS_ALL: u32 = 0x30200;

/// What a plugin tells the server that it supports: a set of flags.
#[derive(Debug, Clone, Copy, PartialEq, Eq, Structural)]
pub struct Supports {
    bits: u32,
}

impl View for Supports {
    type V = u32;

    /// The flags as bits.
    closed spec fn view(&self) -> u32 {
        self.bits
    }
}

impl Supports {
    /// No flag.
    pub fn empty() -> (flags: Supports)
        ensures
            flags@ == 0,
    {
        Supports { bits: 0 }
    }

    /// The version flag.
    pub fn version() -> (flags: Supports)
        ensures
            flags@ == SUPPORTS_VERSION,
    {
        Supports { bits: SUPPORTS_VERSION }
    }

    /// The flag for natives.
    pub fn amx_natives() -> (flags: Supports)
        ensures
            flags@ == SUPPORTS_AMX_NATIVES,
    {
        Supports { bits: SUPPORTS_AMX_NATIVES }
    }

    /// The flag for ticks.
    pub fn process_tick() -> (flags: Supports)
        ensures
            flags@ == SUPPORTS_PROCESS_TICK,
    {
        Supports { bits: SUPPORTS_PROCESS_TICK }
    }

    /// The flags among `bits` that are known; the other bits are dropped.
    pub fn from_bits_truncate(bits: u32) -> (flags: Supports)
        ensures
            flags@ == bits & SUPPORTS_ALL,
    {
        Supports { bits: bits & SUPPORTS_ALL }
    }

    /// The flags as bits.
    pub fn bits(&self) -> (bits: u32)
        ensures
            bits == self@,
    {
        self.bits
    }

    /// The flags of either set.
    pub fn union(self, other: Supports) -> (flags: Supports)
        ensures
            flags@ == self@ | other@,
    {
        Supports { bits: self.bits | other.bits }
    }

    /// Whether every flag of `other` is set.
    pub fn contains(&self, other: Supports) -> (contains: bool)
        ensures
            contains == (self@ & other@ == other@),
    {
        self.bits & other.bits == other.bits
    }

    /// Sets the flags of `other` that are clear, and clears those that are
    /// set.
    pub fn toggle(&mut self, other: Supports)
        ensures
            final(self)@ == old(self)@ ^ other@,
    {
        self.bits = self.bits ^ other.bits;
    }
}

/// The places of the server's data table that a plugin reads.
#[derive(Debug, Clone, Copy, PartialEq, Eq, Structural)]
pub enum ServerData {
    Logprintf,
    AmxExports,
    CallPublicFs,
    CallPublicGm,
}

impl ServerData {
    /// The place in the table, counted in slots.
    pub open spec fn spec_offset(self) -> isize {
        match self {
            ServerData::Logprintf => 0,
            ServerData::AmxExports => 16,
            ServerData::CallPublicFs => 17,
            ServerData::CallPublicGm => 18,
        }
    }
}

impl From<ServerData> for isize {
    fn from(data: ServerData) -> (offset: isize) {
        match data {
            ServerData::Logprintf => 0,
            ServerData::AmxExports => 16,
            ServerData::CallPublicFs => 17,
            ServerData::CallPublicGm => 18,
        }
    }
}

impl FromSpecImpl<ServerData> for isize {
    open spec fn obeys_from_spec() -> bool {
        true
    }

    open spec fn from_spec(data: ServerData) -> isize {
        data.spec_offset()
    }
}

/// The AMX was compiled with debug information.
pub const AMX_FLAG_DEBUG: u16 = 0x02;

/// The AMX holds compact encoding.
pub const AMX_FLAG_COMPACT: u16 = 0x04;

/// The opcodes of the AMX are bytes.
pub const AMX_FLAG_BYTEOPC: u16 = 0x08;

/// The AMX was compiled without array bounds checks.
pub const AMX_FLAG_NOCHECKS: u16 = 0x10;

/// All natives of the AMX are registered.
pub const AMX_FLAG_NTVREG: u16 = 0x1000;

/// The AMX is compiled just in time.
pub const AMX_FLAG_JITC: u16 = 0x2000;

/// The AMX is being browsed.
pub const AMX_FLAG_BROWSE: u16 = 0x4000;

/// The jump and call addresses of the AMX are relocated.
pub const AMX_FLAG_RELOC: u16 = 0x8000;

/// All the bits that `AmxFlags` knows.
pub const AMX_FLAG_ALL: u16 = 0xF01E;

/// The flags of a compiled AMX.
#[derive(Debug, Clone, Copy, PartialEq, Eq, Structural)]
pub struct AmxFlags {
    bits: u16,
}

impl View for AmxFlags {
    type V = u16;

    /// The flags as bits.
    closed spec fn view(&self) -> u16 {
        self.bits
    }
}

impl AmxFlags {
    /// The flags among `bits` that are known; the other bits are dropped.
    pub fn from_bits_truncate(bits: u16) -> (flags: AmxFlags)
        ensures
            flags@ == bits & AMX_FLAG_ALL,
    {
        AmxFlags { bits: bits & AMX_FLAG_ALL }
    }

    /// The flags as bits.
    pub fn bits(&self) -> (bits: u16)
        ensures
            bits == self@,
    {
        self.bits
    }

    /// Whether every flag among `bits` is set.
    pub fn contains(&self, bits: u16) -> (contains: bool)
        ensures
            contains == (self@ & bits == bits),
    {
        self.bits & bits == bits
    }
}

/// Which function of an AMX to run.
#[derive(Debug, Clone, Copy, PartialEq, Eq, Structural)]
pub enum AmxExecIdx {
    /// The entry point of the script.
    Main,
    /// Where the script went to sleep.
    Continue,
    /// The public function with this index.
    UserDef(i32),
}

impl AmxExecIdx {
    /// The number that the AMX knows the function by.
    pub open spec fn index(self) -> i32 {
        match self {
            AmxExecIdx::Main => -1i32,
            AmxExecIdx::Continue => -2i32,
            AmxExecIdx::UserDef(idx) => idx,
        }
    }

    /// The function that the AMX knows by the number `idx`.
    pub open spec fn of_index(idx: i32) -> AmxExecIdx {
        if idx == -1 {
            AmxExecIdx::Main
        } else if idx == -2 {
            AmxExecIdx::Continue
        } else {
            AmxExecIdx::UserDef(idx)
        }
    }
}

impl From<AmxExecIdx> for i32 {
    fn from(value: AmxExecIdx) -> (idx: i32) {
        match value {
            AmxExecIdx::Main => -1,
            AmxExecIdx::Continue => -2,
            AmxExecIdx::UserDef(idx) => idx,
        }
    }
}

impl FromSpecImpl<AmxExecIdx> for i32 {
    open spec fn obeys_from_spec() -> bool {
        true
    }

    open spec fn from_spec(value: AmxExecIdx) -> i32 {
        value.index()
    }
}

impl From<i32> for AmxExecIdx {
    fn from(idx: i32) -> (value: AmxExecIdx) {
        match idx {
            -1 => AmxExecIdx::Main,
            -2 => AmxExecIdx::Continue,
            idx => AmxExecIdx::UserDef(idx),
        }
    }
}

impl FromSpecImpl<i32> for AmxExecIdx {
    open spec fn obeys_from_spec() -> bool {
        true
    }

    open spec fn from_spec(idx: i32) -> AmxExecIdx {
        AmxExecIdx::of_index(idx)
    }
}

/// Every number names one function, and the function names the number.
pub proof fn lemma_exec_index_round_trip(idx: i32)
    ensures
        AmxExecIdx::of_index(idx).index() == idx,
{
}

} // verus!
