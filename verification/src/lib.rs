//! A small Hacker News reading client, verified.
//!
//! The library holds the data model and the decision logic of the client:
//! truncating and assembling the top-story list, resolving a story's comment
//! tree with an explicit work stack, and the preview state machine driven by
//! hover/focus events. All network traffic is performed by the surrounding
//! application, which feeds fetched values into these state machines.

pub mod error;
pub mod fetching_data;
pub mod preview;
pub mod story;
