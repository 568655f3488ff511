//! A verified model of the bridge between host values and the AMX virtual
//! machine: 32-bit cells, bounds-checked references into the guest's data
//! segment, buffers, strings, the scoped heap allocator and the argument
//! cursor of a native call.

pub mod amx;
pub mod args;
pub mod cell;
pub mod consts;
pub mod cp1251;
pub mod encoding;
pub mod error;
pub mod exports;
pub mod interlayer;
pub mod mage;
pub mod native;
pub mod plugin;
pub mod prelude;
pub mod runtime;
pub mod thread;
