//! Host layer around the typst compiler: the compilation environment's
//! queries, font discovery decisions, export framing, preview results,
//! the built-in templates and the recent-files list.

pub mod text;
pub mod export;
pub mod preview;
pub mod world;
pub mod render;
pub mod templates;
pub mod recent;
pub mod fonts;
