//! Resolves what a command-line tool reads from and writes to: the shapes of
//! source and destination, the rules that join them, time-based names for
//! destinations that were not given, and the handles that say how each
//! endpoint is opened and cleaned up.
//!
//! Nothing here touches the filesystem: the caller looks, and hands over what
//! it found. Paths are text with `/` between their components.
//!
//! A resolution takes four steps. The caller looks up each path that
//! [`shape::is_stdio`] does not take for a standard stream, and has
//! [`shape::classify_source`] and [`shape::classify_destination`] tell the
//! shapes. [`SrcDstConfig::check`] applies the rules and says what is left to
//! read: nothing, the working directory, or the children of the source
//! directory. The caller reads that, and [`SrcDstConfig::parse`] makes the
//! pairs, which [`SrcDstPairs::next`] hands out one by one.

pub mod config;
pub mod error;
pub mod ioers;
pub mod laws;
pub mod listing;
pub mod pairs;
pub mod path;
pub mod shape;
pub mod stamp;

pub use config::{Need, SrcDstConfig, Supplied};
pub use error::{Fault, SrcDstError};
pub use listing::Entry;
pub use pairs::{Dst, Src, SrcDstPairs};
pub use shape::{Found, RawDestination, RawSource};
