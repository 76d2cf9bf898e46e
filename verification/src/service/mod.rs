//! The steps of a turn that decide something.

pub mod audio;
pub mod avatar;
pub mod gemini;
pub mod ingest;
pub mod prompt;
pub mod segment;
pub mod tts;
pub mod turn;
