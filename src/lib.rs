//! Resolution of beatmap documents: deciding between the local cache and the
//! remote origin, classifying every failure on the way, and dispatching the
//! resolved document to the pattern analyzers.

pub mod analysis;
pub mod cache;
pub mod curve;
pub mod details;
pub mod mode;
pub mod resolve;
pub mod status;
