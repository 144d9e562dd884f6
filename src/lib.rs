//! Client side of a synchronised multi-room audio protocol: the framed wire codec, the
//! clock-offset estimator, the PCM decoder and the timestamp-driven playback scheduler.

pub mod bytes;
pub mod client;
pub mod decoder;
pub mod message;
pub mod scheduler;
pub mod time_provider;
