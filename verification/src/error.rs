//! The two ways in which a resolution ends without pairs.

use vstd::prelude::*;

verus! {

/// A combination of source, destination and policy that the rules refuse.
#[non_exhaustive]
#[derive(Debug, Clone, Copy, PartialEq, Eq, Structural)]
pub enum SrcDstError {
    /// The source is standard input, and the policy does not read from it.
    DisallowFromStdin,
    /// The destination is standard output, and the policy does not write to it.
    DisallowToStdout,
    /// No destination was given for one source, and the policy names no file.
    ForbidAutoTnamedDstFile,
    /// No destination was given for a directory, and the policy names no
    /// directory.
    ForbidAutoTnamedDstDir,
    /// Source and destination are the same directory.
    Inplaced,
    /// A directory was to be written to a single file or to standard output.
    ManyToOne,
    /// A directory was to be written to a destination that does not exist.
    DstDirNotExist,
}

impl SrcDstError {
    /// The text of the message for this error.
    pub open spec fn text(self) -> Seq<char> {
        match self {
            SrcDstError::DisallowFromStdin => "disallow read from stdin"@,
            SrcDstError::DisallowToStdout => "disallow write to stdout"@,
            SrcDstError::ForbidAutoTnamedDstFile => "forbid automatic time-based named DST file"@,
            SrcDstError::ForbidAutoTnamedDstDir =>
                "forbid automatic time-based named DST directory"@,
            SrcDstError::Inplaced =>
                "there may be a potential to `open` and `create` the same file at the same time"@,
            SrcDstError::ManyToOne => "unable to write multiple files to one file"@,
            SrcDstError::DstDirNotExist => "specified DST directory does not exist"@,
        }
    }

    /// The message for this error.
    pub fn message(&self) -> (text: &'static str)
        ensures
            text@ == self.text(),
    {
        match self {
            SrcDstError::DisallowFromStdin => "disallow read from stdin",
            SrcDstError::DisallowToStdout => "disallow write to stdout",
            SrcDstError::ForbidAutoTnamedDstFile => "forbid automatic time-based named DST file",
            SrcDstError::ForbidAutoTnamedDstDir =>
                "forbid automatic time-based named DST directory",
            SrcDstError::Inplaced =>
                "there may be a potential to `open` and `create` the same file at the same time",
            SrcDstError::ManyToOne => "unable to write multiple files to one file",
            SrcDstError::DstDirNotExist => "specified DST directory does not exist",
        }
    }
}

/// What keeps a resolution from being carried out, though no rule refuses it.
#[derive(Debug, Clone, Copy, PartialEq, Eq, Structural)]
pub enum Fault {
    /// The source directory has no parent in which to name a sibling.
    NoParent,
    /// The caller did not supply what the rules asked it to read.
    NotSupplied,
}

} // verus!
