//! Request handling for a desktop front-end to an external video-downloading tool:
//! input checks, output paths, the tool's argument sets, metadata shaping, and the
//! decisions of the binary resolver and of a download request.
mod text;
pub mod url;
pub mod paths;
pub mod duration;
pub mod metadata;
pub mod args;
pub mod resolver;
pub mod flow;
