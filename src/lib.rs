//! Weather lookup core: provider selection, response normalization and
//! report rendering, with the network and file work left to the caller.

pub mod json;
pub mod structures;
pub mod render;
pub mod provider_serde;
pub mod traits;
pub mod providers;

