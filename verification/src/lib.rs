//! Capture buffering, framing and codec bookkeeping for a live audio
//! session: samples arrive in batches, are buffered under start, pause and
//! stop control, cut into ten-millisecond frames for a codec, and decoded
//! frames are handed to an output callback through a short queue.
//!
//! Nothing here touches a device or a codec. The program around this
//! library owns those; it hands in what they produced and carries out what
//! the functions here decide.

pub mod buffer;
pub mod config;
pub mod decoder;
pub mod encoder;
pub mod err;
pub mod frame;
pub mod playback;
pub mod profile;
pub mod record;
pub mod sample_type;
