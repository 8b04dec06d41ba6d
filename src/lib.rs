//! Turns a transit operator's HTML alert bulletin into a real-time alert feed.
//!
//! The bulletin is split into station blocks, each block's posted time is
//! resolved, its text is cleaned of boilerplate apologies, the routes it names
//! are looked up in reference data, and the surviving records become the
//! entities of a full-replacement feed message.
pub mod text;
pub mod timestamp;
pub mod normalize;
pub mod routes;
pub mod extract;
pub mod feed;

pub use feed::parse_path_alerts;
