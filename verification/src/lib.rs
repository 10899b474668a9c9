//! Interactive text prompts for terminal programs: a grapheme-aware input
//! buffer, a canonical key model, candidate pagination, guarded key events,
//! an incremental frame renderer and the prompt session that ties them
//! together.

pub mod config;
pub mod error;
pub mod input;
pub mod key;
pub mod key_handler;
pub mod prompts;
pub mod renderer;
pub mod utils;
