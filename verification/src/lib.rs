//! Verified core of a local dictation and file-transcription engine: the
//! recording state machine, the steps of file transcription, model files and
//! downloads, and the text handling around whisper's output.

pub mod audio;
pub mod decode;
pub mod diag;
pub mod engine;
pub mod file_job;
pub mod flags;
pub mod loop_scan;
pub mod mic;
pub mod model;
pub mod recording;
pub mod text;
pub mod transcription;
