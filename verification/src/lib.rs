//! Orchestration core of a desktop tool that turns a video link into chapter
//! text: it finds the video identifier in a link, plans the local audio
//! download, picks the duration formula for a probed audio file, and drives
//! the remote transcription and chapter-generation jobs to completion.
//!
//! Every function here is pure: whatever touches the network, the file system
//! or the clock is described as an action for the caller to perform, and its
//! outcome comes back as an event.

pub mod acquire;
pub mod duration;
pub mod endpoints;
pub mod error;
pub mod http;
pub mod json;
pub mod pipeline;
pub mod remote_job;
pub mod stages;
pub mod video_id;
