//! The marker types, under the path that the utility types use for them.

pub use crate::tags::{
    Attachment, Audio, Configured, Data, Decode, Encode, Input, Output, Subtitles, Unconfigured,
    Unknown, Video,
};
