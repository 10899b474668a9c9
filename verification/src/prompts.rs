//! The prompts.

pub mod text;
