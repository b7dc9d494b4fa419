//! Build version identity: a semantic version together with optional
//! source-control provenance (commit hash and commit date) and the compiler's
//! release channel, assembled once into an immutable record and rendered as a
//! single human-readable line.

pub mod channel;
pub mod numeral;
pub mod trim;
pub mod version;

pub use channel::channel_from_override;
pub use numeral::{parse_u16, parse_u8};
pub use trim::trim_str;
pub use version::{assemble, VersionInfo};
