//! Core of a music-player daemon's audio pipeline: sample sources with a
//! runtime-fixed format, channel-count conversion, mixing, a streaming queue
//! with a cross-thread submission handle, resampler chunk planning, and the
//! control-plane value types of the daemon's wire protocol.
//!
//! A sample is carried as the raw bit pattern of its 32-bit amplitude value;
//! the pipeline moves, selects and schedules samples, while the numeric
//! signal processing itself stays outside the verified core.

pub mod abort;
pub mod buffer;
pub mod cli;
pub mod channels;
pub mod format;
pub mod list;
pub mod mixer;
pub mod pausable;
pub mod periodic;
pub mod playlist;
pub mod protocol;
pub mod queue;
pub mod resampler;
pub mod sample;
pub mod scan;
pub mod signal;
pub mod stoppable;
pub mod take;
pub mod source;
pub mod transport;
pub mod util;
