//! Verified core of a package-registry lookup tool.
//!
//! Given the raw outcome of a registry query (an HTTP status and body),
//! the library parses the response, extracts a [`PackageRecord`], and
//! renders a colour-styled, line-oriented report of the package's
//! versions.  All formatting and decision logic is verified; network
//! access and printing live outside the library.

pub mod lookup;
pub mod record;
pub mod registry;
pub mod render;
pub mod text;

pub use lookup::{failure_line, render_lookup, search_message};
pub use record::{PackageRecord, VersionRecord};
pub use registry::{assemble_package, fields, interpret_response, make_version_record, FetchOutcome};
pub use render::{describe_versions, end_bar, title_bar, version_line};
pub use text::{kilobytes, u64_to_decimal};
