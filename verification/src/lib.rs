//! Marshaling of byte buffers and strings between a host and the linear
//! memory of a sandboxed AssemblyScript guest.

pub mod abort;
pub mod error;
pub mod instance;
pub mod layout;
pub mod memory;
pub mod string;
pub mod typed_array;
