//! The shapes of a source and of a destination, from the path that was given
//! and from what the caller found at it.

use vstd::prelude::*;
use crate::path::same_text;

verus! {

/// What a look at the filesystem found at a path where something is.
#[derive(Debug, Clone, PartialEq, Eq)]
pub struct Found {
    /// The canonical form of the path: absolute, with every link resolved.
    pub canonical: String,
    /// Whether a regular file is there.
    pub is_file: bool,
}

/// The shape of a source.
#[derive(Debug, Clone, PartialEq, Eq)]
pub enum RawSource {
    Stdin,
    SingleFile(String),
    Directory(String),
}

/// The shape of a destination.
#[derive(Debug, Clone, PartialEq, Eq)]
pub enum RawDestination {
    Stdout,
    SingleFile(String),
    Directory(String),
    /// A path at which nothing was found, as it was given.
    DoesNotExist(String),
    NotProvided,
}

/// The path that stands for a standard stream: a single hyphen.
pub open spec fn stdio() -> Seq<char> {
    seq!['-']
}

/// The shape of the source given as `path`, where `found` is what is there;
/// `None` where nothing is. A standard stream is known by its path alone;
/// what is no regular file is taken for a directory.
pub open spec fn source_shape(path: Seq<char>, found: Option<Found>) -> Option<RawSource> {
    if path == stdio() {
        Some(RawSource::Stdin)
    } else {
        match found {
            None => None,
            Some(found) => if found.is_file {
                Some(RawSource::SingleFile(found.canonical))
            } else {
                Some(RawSource::Directory(found.canonical))
            },
        }
    }
}

/// The shape of the destination given as `path`, where `found` is what is
/// there. A standard stream is known by its path alone; what is no regular
/// file is taken for a directory; where nothing is, the path stays as it was
/// given.
pub open spec fn destination_shape(path: Option<String>, found: Option<Found>) -> RawDestination {
    match path {
        None => RawDestination::NotProvided,
        Some(path) => if path@ == stdio() {
            RawDestination::Stdout
        } else {
            match found {
                None => RawDestination::DoesNotExist(path),
                Some(found) => if found.is_file {
                    RawDestination::SingleFile(found.canonical)
                } else {
                    RawDestination::Directory(found.canonical)
                },
            }
        },
    }
}

/// Whether `path` stands for a standard stream. Such a path is never looked
/// up in the filesystem.
pub fn is_stdio(path: &str) -> (stdio: bool)
    ensures
        stdio == (path@ == self::stdio()),
{
    proof {
        reveal_strlit("-");
        assert("-"@ =~= self::stdio());
    }
    same_text(path, "-")
}

/// The shape of the source given as `path`.
pub fn classify_source(path: &str, found: Option<Found>) -> (shape: Option<RawSource>)
    ensures
        shape == source_shape(path@, found),
{
    if is_stdio(path) {
        Some(RawSource::Stdin)
    } else {
        match found {
            None => None,
            Some(found) => {
                if found.is_file {
                    Some(RawSource::SingleFile(found.canonical))
                } else {
                    Some(RawSource::Directory(found.canonical))
                }
            },
        }
    }
}

/// The shape of the destination given as `path`.
pub fn classify_destination(path: Option<String>, found: Option<Found>) -> (shape:
    RawDestination)
    ensures
        shape == destination_shape(path, found),
{
    match path {
        None => RawDestination::NotProvided,
        Some(path) => {
            if is_stdio(path.as_str()) {
                RawDestination::Stdout
            } else {
                match found {
                    None => RawDestination::DoesNotExist(path),
                    Some(found) => {
                        if found.is_file {
                            RawDestination::SingleFile(found.canonical)
                        } else {
                            RawDestination::Directory(found.canonical)
                        }
                    },
                }
            }
        },
    }
}

} // verus!
