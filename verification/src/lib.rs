//! Intent-to-command matching: the integer and text logic of a three-gate
//! pipeline (exact hash, similarity, keyword fallback) over a command database.

pub mod text;
pub mod features;
pub mod hashing;
pub mod keywords;
pub mod similarity;
pub mod db;
pub mod pipeline;
