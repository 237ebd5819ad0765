//! Decisions of an audio transcode-and-publish pipeline: the choice of the
//! audio stream, timestamp conversion, parameter negotiation, filter
//! planning, the transcode session, the output buffer and the chunked
//! publisher.

pub mod buffer;
pub mod config;
pub mod error;
pub mod filter;
pub mod params;
pub mod publish;
pub mod session;
pub mod source;
pub mod text;
pub mod timebase;
