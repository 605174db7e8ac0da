//! Assembly of Fabric loader version descriptors.
//!
//! Given metadata about a Fabric loader build (the loader artifact, its
//! intermediary mapping bridge, and launcher metadata) together with
//! user-supplied install options, this library resolves the final version
//! identifier, builds the ordered library list for the chosen side, selects
//! the main class, and renders the version descriptor as JSON text.
//! Fetching the metadata over the network and writing the descriptor to disk
//! are left to the embedding application.

pub mod install;
pub mod json;
pub mod libraries;
pub mod main_class;
pub mod meta;
pub mod resolve;

