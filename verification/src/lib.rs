//! Slot-range synchronisation of blob sidecars and block roots: range
//! planning, retrying fetches, per-slot correlation and the framing of what
//! is committed to storage.

pub mod correlate;
pub mod error;
pub mod fetch;
pub mod hexcodec;
pub mod plan;
pub mod root;
pub mod schedule;
pub mod sidecar;
pub mod sink;
pub mod text;
pub mod types;
pub mod url;
