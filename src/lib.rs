//! Plain-text football fixtures and competition listings for terminals.
//!
//! The library holds the logic of a small HTTP gateway: it routes request
//! paths, composes the requests sent to the football data provider, projects
//! the provider's JSON documents into plain records, and renders those records
//! as ANSI-styled text.
pub mod text;
pub mod style;
pub mod clock;
pub mod model;
pub mod view;
pub mod repo;
pub mod router;
pub mod json;
