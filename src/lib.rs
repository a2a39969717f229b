//! Mirrors the host's "now playing" media session onto a rich-presence
//! display: the snapshot model, the presence text derived from it, and the
//! per-tick decision of whether to publish, clear, or do nothing.

pub mod snapshot;
pub mod presence;
pub mod sync;
pub mod laws;
