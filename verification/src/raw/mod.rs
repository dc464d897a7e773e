//! The handles that map onto the objects of the native libraries: what the
//! binding knows of each of them, and what it decides before and after every
//! native call.
//!
//! A method that stands for a native call takes what the call returned as an
//! argument. It first applies the checks that have to hold before the call
//! may be made at all; where one of them fails, what the call returned plays
//! no part in the result.

pub mod codec;
pub mod container;
pub mod filter;
pub mod format;
pub mod frame;
pub mod packet;
pub mod stream;
pub use codec::Codec;
pub use container::Container;
pub use format::Format;
pub use frame::{Frame, Plane, NUM_DATA_PLANES};
pub use packet::Packet;
pub use stream::{StreamHandle, StreamRef};
