//! The configurations of audio filters.

pub mod buffersrc;
pub mod format;
pub mod sequencing;
pub mod sink;

pub use buffersrc::{spec_abuffer_options, ABufferSource};
pub use format::AFormat;
pub use sequencing::{ACrosssfade, ATrim};
pub use sink::{ABufferSink, ANullSink};
