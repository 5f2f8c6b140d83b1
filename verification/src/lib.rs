//! Voice-assistant relay pipeline.
//!
//! The library models one request's journey through a four-step chain:
//! a size guard on the uploaded audio, transcription, chat completion,
//! and optional speech synthesis. The orchestration is a verified state
//! machine; outside services are reached by the caller, which feeds
//! their responses back as events.

pub mod pipeline;
pub mod providers;
pub mod request;
pub mod text;
