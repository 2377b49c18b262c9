//! A terminal reader for a ranked news feed.
//!
//! The crate holds the verified core of the application: the item and feed
//! data model, the bounded cursor types used for navigation, the request
//! paths and URLs of the remote listing API, the partitioning of concurrent
//! fetch outcomes into resolved items and diagnostics, and the interaction
//! state machine that maps key input to navigation steps.
//!
//! Network transfer, terminal rendering and the event loop live outside the
//! library; they exchange plain values with the functions defined here.

pub mod types;
pub mod selector;
pub mod store;
pub mod client;
pub mod navigation;
