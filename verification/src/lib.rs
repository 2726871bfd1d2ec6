//! Core of a clipboard-history utility: a bounded, most-recent-first store of
//! clipboard snapshots, a change tracker that tells externally caused clipboard
//! changes from the application's own writes, preview truncation for display,
//! and the decision logic that drives the user-facing state machine.

pub mod content;
pub mod gsettings;
pub mod hashing;
pub mod history;
pub mod model;
pub mod preview;
pub mod tracker;
