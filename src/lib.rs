//! Discovery of locally installed games across distribution platforms.
//!
//! The library holds the decisions of a scan: how each platform's metadata is
//! read into uniform game records, which entries are filtered out, where an
//! executable is looked for, and how the outcomes of the per-platform
//! detectors are merged into one result. Reading files and registry keys is
//! left to the caller, who hands the library the text and values it found.

mod assoc;
pub mod catalog;
pub mod executables;
pub mod models;
pub mod paths;
pub mod platforms;
pub mod scanner;
pub mod text;

pub use models::{DetectedGame, GamePlatform, GameScanResult, HostOs, PlatformKind, ScanOptions};
pub use paths::{normalize_path_separators, PathStyle};
pub use scanner::{GameScanner, PlatformOutcome};
