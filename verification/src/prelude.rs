//! The items that most plugins use.
pub use crate::amx::{Allocator, Amx};
pub use crate::args::Args;
pub use crate::cell::buffer::{Buffer, UnsizedBuffer};
pub use crate::cell::repr::{AmxCell, AmxPrimitive, FloatBits};
pub use crate::cell::string::AmxString;
pub use crate::cell::Ref;
pub use crate::error::{AmxError, AmxResult};
pub use crate::plugin::{PluginEvent, SampPlugin};
