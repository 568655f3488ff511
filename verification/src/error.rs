//! Errors reported by the AMX.
use vstd::prelude::*;
use vstd::std_specs::convert::FromSpecImpl;

verus! {

/// A specialised result for operations on an AMX.
pub type AmxResult<T> = Result<T, AmxError>;

/// The error conditions of the AMX, one per numeric code of its ABI.
#[derive(Debug, Clone, Copy, PartialEq, Eq, Structural)]
pub enum AmxError {
    Exit,
    Assert,
    StackError,
    Bounds,
    MemoryAccess,
    InvalidInstruction,
    StackLow,
    HeapLow,
    Callback,
    Native,
    Divide,
    Sleep,
    InvalidState,
    Memory,
    Format,
    Version,
    NotFound,
    Index,
    Debug,
    Init,
    UserData,
    InitJit,
    Params,
    Domain,
    General,
    Overlay,
    Unknown,
}

/// The error that a raw AMX status code stands for. Codes without a meaning
/// of their own, zero and the negative ones among them, are `Unknown`.
pub open spec fn error_of_code(code: i32) -> AmxError {
    if code == 1 {
        AmxError::Exit
    } else if code == 2 {
        AmxError::Assert
    } else if code == 3 {
        AmxError::StackError
    } else if code == 4 {
        AmxError::Bounds
    } else if code == 5 {
        AmxError::MemoryAccess
    } else if code == 6 {
        AmxError::InvalidInstruction
    } else if code == 7 {
        AmxError::StackLow
    } else if code == 8 {
        AmxError::HeapLow
    } else if code == 9 {
        AmxError::Callback
    } else if code == 10 {
        AmxError::Native
    } else if code == 11 {
        AmxError::Divide
    } else if code == 12 {
        AmxError::Sleep
    } else if code == 13 {
        AmxError::InvalidState
    } else if code == 16 {
        AmxError::Memory
    } else if code == 17 {
        AmxError::Format
    } else if code == 18 {
        AmxError::Version
    } else if code == 19 {
        AmxError::NotFound
    } else if code == 20 {
        AmxError::Index
    } else if code == 21 {
        AmxError::Debug
    } else if code == 22 {
        AmxError::Init
    } else if code == 23 {
        AmxError::UserData
    } else if code == 24 {
        AmxError::InitJit
    } else if code == 25 {
        AmxError::Params
    } else if code == 26 {
        AmxError::Domain
    } else if code == 27 {
        AmxError::General
    } else if code == 28 {
        AmxError::Overlay
    } else {
        AmxError::Unknown
    }
}

impl AmxError {
    /// The numeric code of the error in the AMX ABI; `Unknown`, which has
    /// none there, is given the first unused code.
    pub open spec fn spec_code(self) -> i32 {
        match self {
            AmxError::Exit => 1,
            AmxError::Assert => 2,
            AmxError::StackError => 3,
            AmxError::Bounds => 4,
            AmxError::MemoryAccess => 5,
            AmxError::InvalidInstruction => 6,
            AmxError::StackLow => 7,
            AmxError::HeapLow => 8,
            AmxError::Callback => 9,
            AmxError::Native => 10,
            AmxError::Divide => 11,
            AmxError::Sleep => 12,
            AmxError::InvalidState => 13,
            AmxError::Memory => 16,
            AmxError::Format => 17,
            AmxError::Version => 18,
            AmxError::NotFound => 19,
            AmxError::Index => 20,
            AmxError::Debug => 21,
            AmxError::Init => 22,
            AmxError::UserData => 23,
            AmxError::InitJit => 24,
            AmxError::Params => 25,
            AmxError::Domain => 26,
            AmxError::General => 27,
            AmxError::Overlay => 28,
            AmxError::Unknown => 29,
        }
    }

    /// The numeric code of the error.
    #[verifier::when_used_as_spec(spec_code)]
    pub fn code(self) -> (code: i32)
        ensures
            code == self.spec_code(),
    {
        match self {
            AmxError::Exit => 1,
            AmxError::Assert => 2,
            AmxError::StackError => 3,
            AmxError::Bounds => 4,
            AmxError::MemoryAccess => 5,
            AmxError::InvalidInstruction => 6,
            AmxError::StackLow => 7,
            AmxError::HeapLow => 8,
            AmxError::Callback => 9,
            AmxError::Native => 10,
            AmxError::Divide => 11,
            AmxError::Sleep => 12,
            AmxError::InvalidState => 13,
            AmxError::Memory => 16,
            AmxError::Format => 17,
            AmxError::Version => 18,
            AmxError::NotFound => 19,
            AmxError::Index => 20,
            AmxError::Debug => 21,
            AmxError::Init => 22,
            AmxError::UserData => 23,
            AmxError::InitJit => 24,
            AmxError::Params => 25,
            AmxError::Domain => 26,
            AmxError::General => 27,
            AmxError::Overlay => 28,
            AmxError::Unknown => 29,
        }
    }

    /// The text that describes the error to a person.
    pub open spec fn spec_message(self) -> Seq<char> {
        match self {
            AmxError::Exit => "Forced exit"@,
            AmxError::Assert => "Assertion failed"@,
            AmxError::StackError => "Stack / heap collision"@,
            AmxError::Bounds => "Index out of bounds"@,
            AmxError::MemoryAccess => "Invalid memory access"@,
            AmxError::InvalidInstruction => "Invalid instruction"@,
            AmxError::StackLow => "Stack underflow"@,
            AmxError::HeapLow => "Heap underflow"@,
            AmxError::Callback => "No callback or invalid callback"@,
            AmxError::Native => "Native function failed"@,
            AmxError::Divide => "Divide by zero"@,
            AmxError::Sleep => "Go into sleepmode"@,
            AmxError::InvalidState => "No implementation for this state, no fall-back"@,
            AmxError::Memory => "Out of memory"@,
            AmxError::Format => "Invalid file format"@,
            AmxError::Version => "File is for a newer version of AMX"@,
            AmxError::NotFound => "Function not found"@,
            AmxError::Index => "Invalid index parameter (bad entry point)"@,
            AmxError::Debug => "Debbuger cannot run"@,
            AmxError::Init => "AMX not initialize"@,
            AmxError::UserData => "Unable to set user data field"@,
            AmxError::InitJit => "Cannot initialize the JIT"@,
            AmxError::Params => "Parameter error"@,
            AmxError::Domain => "Domain error, expression result does not fit in range"@,
            AmxError::General => "General error (unknown or unspecific error)"@,
            AmxError::Overlay => "Overlays are unsupported (JIT) or uninitialized"@,
            AmxError::Unknown => "Unknown error"@,
        }
    }

    /// The description of the error, as it is shown in the host's log.
    pub fn message(&self) -> (text: String)
        ensures
            text@ == self.spec_message(),
    {
        let text: &str = match self {
            AmxError::Exit => "Forced exit",
            AmxError::Assert => "Assertion failed",
            AmxError::StackError => "Stack / heap collision",
            AmxError::Bounds => "Index out of bounds",
            AmxError::MemoryAccess => "Invalid memory access",
            AmxError::InvalidInstruction => "Invalid instruction",
            AmxError::StackLow => "Stack underflow",
            AmxError::HeapLow => "Heap underflow",
            AmxError::Callback => "No callback or invalid callback",
            AmxError::Native => "Native function failed",
            AmxError::Divide => "Divide by zero",
            AmxError::Sleep => "Go into sleepmode",
            AmxError::InvalidState => "No implementation for this state, no fall-back",
            AmxError::Memory => "Out of memory",
            AmxError::Format => "Invalid file format",
            AmxError::Version => "File is for a newer version of AMX",
            AmxError::NotFound => "Function not found",
            AmxError::Index => "Invalid index parameter (bad entry point)",
            AmxError::Debug => "Debbuger cannot run",
            AmxError::Init => "AMX not initialize",
            AmxError::UserData => "Unable to set user data field",
            AmxError::InitJit => "Cannot initialize the JIT",
            AmxError::Params => "Parameter error",
            AmxError::Domain => "Domain error, expression result does not fit in range",
            AmxError::General => "General error (unknown or unspecific error)",
            AmxError::Overlay => "Overlays are unsupported (JIT) or uninitialized",
            AmxError::Unknown => "Unknown error",
        };
        text.to_owned()
    }
}

impl From<i32> for AmxError {
    fn from(error_code: i32) -> (error: AmxError) {
        match error_code {
            1 => AmxError::Exit,
            2 => AmxError::Assert,
            3 => AmxError::StackError,
            4 => AmxError::Bounds,
            5 => AmxError::MemoryAccess,
            6 => AmxError::InvalidInstruction,
            7 => AmxError::StackLow,
            8 => AmxError::HeapLow,
            9 => AmxError::Callback,
            10 => AmxError::Native,
            11 => AmxError::Divide,
            12 => AmxError::Sleep,
            13 => AmxError::InvalidState,
            16 => AmxError::Memory,
            17 => AmxError::Format,
            18 => AmxError::Version,
            19 => AmxError::NotFound,
            20 => AmxError::Index,
            21 => AmxError::Debug,
            22 => AmxError::Init,
            23 => AmxError::UserData,
            24 => AmxError::InitJit,
            25 => AmxError::Params,
            26 => AmxError::Domain,
            27 => AmxError::General,
            28 => AmxError::Overlay,
            _ => AmxError::Unknown,
        }
    }
}

impl FromSpecImpl<i32> for AmxError {
    open spec fn obeys_from_spec() -> bool {
        true
    }

    open spec fn from_spec(error_code: i32) -> AmxError {
        error_of_code(error_code)
    }
}

/// What the status that a call into the AMX returned means: zero is
/// success, and any other status is the code of an error.
pub open spec fn status_result(status: i32) -> AmxResult<()> {
    if status == 0 {
        Ok(())
    } else {
        Err(error_of_code(status))
    }
}

/// Turns the status that a call into the AMX returned into a result. The
/// error is surfaced as it is: nothing is retried.
pub fn check_status(status: i32) -> (result: AmxResult<()>)
    ensures
        result == status_result(status),
{
    if status == 0 {
        Ok(())
    } else {
        Err(AmxError::from(status))
    }
}

/// Converting an error to its code and back gives the error again, for every
/// error that the ABI numbers.
pub proof fn lemma_code_round_trip(error: AmxError)
    requires
        error != AmxError::Unknown,
    ensures
        error_of_code(error.spec_code()) == error,
{
}

} // verus!
