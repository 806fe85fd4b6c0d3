//! Decision logic of a bot that adds "depicts" statements to media files.

pub mod cache;
pub mod candidate;
pub mod claim;
pub mod entity;
pub mod json;
pub mod log;
pub mod mw;
pub mod number;
pub mod pipeline;
pub mod responses;
pub mod runs;
pub mod seqs;
pub mod submit;
pub mod text;
pub mod title;
