//! The configuration of containers, streams and codecs, and the option
//! dictionaries that carry configuration into the native layer.

pub mod codec;
pub mod dict;
pub mod format;
pub mod map;
pub mod stream;

pub use codec::{CodecFields, CodecParameters};
pub use dict::{AddFlags, Dictionary, GetFlags, Items, Keys, Values};
pub use format::{FormatConfig, FormatFields};
pub use map::StringMap;
pub use stream::{DecodedFields, DecodedStreamConfig, StreamConfig, StreamFields};
