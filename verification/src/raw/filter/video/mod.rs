//! The configurations of video filters.

pub mod buffersrc;
pub mod format;
pub mod sink;

pub use buffersrc::{spec_buffer_options, VBufferSource};
pub use format::VFormat;
pub use sink::VBufferSink;
