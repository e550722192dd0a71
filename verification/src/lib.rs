//! Core of a disk-usage inspection tool: configuration for a parallel
//! filesystem walk, byte-size formatting in several unit systems,
//! color-aware display wrapping, and statistics accumulation over the
//! stream of per-entry results that a walk yields.

pub mod byte_format;
pub mod color;
pub mod stats;
pub mod walk;

pub use byte_format::ByteFormat;
pub use color::Color;
pub use color::DisplayColor;
pub use stats::EntryError;
pub use stats::EntryKind;
pub use stats::EntryMeta;
pub use stats::Statistics;
pub use stats::WalkResult;
pub use walk::Sorting;
pub use walk::WalkOptions;
