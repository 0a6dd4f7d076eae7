//! Verified core of a distributed subtitle generation pipeline: task stages,
//! transcription segments and their storage rows, the plan of a multipart
//! upload, the decoding of queue messages, and the decisions that drive the
//! upload, conversion and task-processing workflows.

pub mod consumer;
pub mod producer;
pub mod convert;
pub mod handoff;
pub mod inference;
pub mod segment;
pub mod stage;
pub mod status;
pub mod text;
pub mod upload;
