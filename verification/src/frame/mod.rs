//! The wire format: frames, their bodies and the values inside them.

pub mod byte_buffers;
pub mod compression;
pub mod frame_codec;
pub mod frame_errors;
pub mod request;
pub mod response;
pub mod types;
pub mod value;
