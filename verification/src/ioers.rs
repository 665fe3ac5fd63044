//! The handles of one pair: what is read, what is written, and what the
//! caller has to do with the operating system for each step.
//!
//! A handle opens nothing itself. It keeps the path and whether its stream
//! is held, and answers each request with the step that the caller takes. It
//! counts on the step being taken: a caller that fails to open a file puts a
//! new handle in the place of the old one.

use vstd::prelude::*;
use crate::path::{extension, extension_of, file_name, name_of, renamed, with_file_name};

verus! {

/// The capability does not apply to this kind of endpoint: a standard stream
/// has no file to rename or to remove.
#[derive(Debug, Clone, Copy, PartialEq, Eq, Structural)]
pub struct Unsupported;

/// How the caller comes by the stream of a handle.
#[derive(Debug, Clone, PartialEq, Eq)]
pub enum Acquire {
    /// Open the file at this path, and hold the stream: for reading, or,
    /// where it is written, created anew or cut to nothing.
    Open(String),
    /// The stream that was opened before.
    Cached,
    /// The standard stream of the process.
    Standard,
}

impl Acquire {
    /// Whether this is the step for a handle on `path` (`None`: a standard
    /// stream) whose stream is `held` or not: a file is opened once, on the
    /// first request.
    pub open spec fn answers(self, path: Option<Seq<char>>, held: bool) -> bool {
        match path {
            None => self is Standard,
            Some(path) => if held {
                self is Cached
            } else {
                self matches Acquire::Open(opened) && opened@ == path
            },
        }
    }
}

/// The extension that a handle on the file `path` reports: that of its file
/// name, and the empty text where that has none.
pub open spec fn shown_extension(path: Seq<char>) -> Seq<char> {
    match extension_of(name_of(path)) {
        Some(ext) => ext,
        None => Seq::empty(),
    }
}

/// What is read.
pub trait Input {
    /// The file that is read; `None` for a standard stream.
    spec fn src(&self) -> Option<Seq<char>>;

    /// Whether the reader of the file is held.
    spec fn reading(&self) -> bool;

    /// The step that gives the reader. From then on the reader of a file is
    /// held.
    fn reader(&mut self) -> (how: Acquire)
        ensures
            how.answers(old(self).src(), old(self).reading()),
            final(self).src() == old(self).src(),
            final(self).reading() == (old(self).src() is Some),
    ;
}

/// What is written.
pub trait Output {
    /// The file that is written; `None` for a standard stream.
    spec fn dst(&self) -> Option<Seq<char>>;

    /// Whether the writer of the file is held.
    spec fn writing(&self) -> bool;

    /// The file that is written, if there is one.
    fn dst_path(&self) -> (path: Option<String>)
        ensures
            path.deep_view() == self.dst(),
    ;

    /// The step that gives the writer. From then on the writer of a file is
    /// held.
    fn writer(&mut self) -> (how: Acquire)
        ensures
            how.answers(old(self).dst(), old(self).writing()),
            final(self).dst() == old(self).dst(),
            final(self).writing() == (old(self).dst() is Some),
    ;

    /// The extension of the file that is written; `None` for a standard
    /// stream.
    fn extension(&self) -> (ext: Option<String>)
        ensures
            ext.deep_view() == match self.dst() {
                Some(path) => Some(shown_extension(path)),
                None => None,
            },
    ;

    /// Gives the file another name, in the same directory. This is for a
    /// file whose writer was not asked for yet.
    fn set_file_name(&mut self, file_name: &str) -> (done: Result<(), Unsupported>)
        ensures
            done is Ok == old(self).dst() is Some,
            final(self).dst() == match old(self).dst() {
                Some(path) => Some(renamed(path, file_name@)),
                None => None,
            },
            final(self).writing() == old(self).writing(),
    ;

    /// Decides whether the file, which holds `len` bytes, is to be removed:
    /// only where it is empty. `Ok(true)` tells the caller to let go of the
    /// writer and to remove the file.
    fn remove_dst(&mut self, len: u64) -> (removed: Result<bool, Unsupported>)
        ensures
            removed == match old(self).dst() {
                Some(_) => Ok::<bool, Unsupported>(len == 0),
                None => Err(Unsupported),
            },
            final(self).dst() == old(self).dst(),
            final(self).writing() == (old(self).writing() && len != 0),
    ;

    /// Tells the caller to let go of the writer and to remove the file,
    /// whatever it holds.
    fn remove_dst_anyway(&mut self) -> (removed: Result<(), Unsupported>)
        ensures
            removed is Ok == old(self).dst() is Some,
            final(self).dst() == old(self).dst(),
            !final(self).writing(),
    ;
}

/// What is both read and written.
pub trait InputOutput: Input + Output {

}

/// Reads a file, which is opened when the reader is first asked for.
#[derive(Debug)]
pub struct ReadFile {
    src: String,
    opened: bool,
}

impl ReadFile {
    pub fn new(src: &str) -> (handle: Self)
        ensures
            handle.src() == Some(src@),
            !handle.reading(),
    {
        Self { src: src.to_owned(), opened: false }
    }
}

impl Input for ReadFile {
    closed spec fn src(&self) -> Option<Seq<char>> {
        Some(self.src@)
    }

    closed spec fn reading(&self) -> bool {
        self.opened
    }

    fn reader(&mut self) -> (how: Acquire) {
        if self.opened {
            Acquire::Cached
        } else {
            self.opened = true;
            Acquire::Open(self.src.clone())
        }
    }
}

/// Writes a file, which is created when the writer is first asked for.
#[derive(Debug)]
pub struct WriteFile {
    dst: String,
    opened: bool,
}

impl WriteFile {
    pub fn new(dst: &str) -> (handle: Self)
        ensures
            handle.dst() == Some(dst@),
            !handle.writing(),
    {
        Self { dst: dst.to_owned(), opened: false }
    }
}

impl Output for WriteFile {
    closed spec fn dst(&self) -> Option<Seq<char>> {
        Some(self.dst@)
    }

    closed spec fn writing(&self) -> bool {
        self.opened
    }

    fn dst_path(&self) -> (path: Option<String>) {
        Some(self.dst.clone())
    }

    fn writer(&mut self) -> (how: Acquire) {
        if self.opened {
            Acquire::Cached
        } else {
            self.opened = true;
            Acquire::Open(self.dst.clone())
        }
    }

    fn extension(&self) -> (ext: Option<String>) {
        let name = file_name(self.dst.as_str());
        Some(
            match extension(name.as_str()) {
                Some(ext) => ext,
                None => String::new(),
            },
        )
    }

    fn set_file_name(&mut self, file_name: &str) -> (done: Result<(), Unsupported>) {
        self.dst = with_file_name(self.dst.as_str(), file_name);
        Ok(())
    }

    fn remove_dst(&mut self, len: u64) -> (removed: Result<bool, Unsupported>) {
        if len == 0 {
            match self.remove_dst_anyway() {
                Ok(()) => Ok(true),
                Err(unsupported) => Err(unsupported),
            }
        } else {
            Ok(false)
        }
    }

    fn remove_dst_anyway(&mut self) -> (removed: Result<(), Unsupported>) {
        self.opened = false;
        Ok(())
    }
}

/// Reads standard input.
#[derive(Debug)]
pub struct ReadStdin {}

impl ReadStdin {
    pub fn new() -> (handle: Self)
        ensures
            handle.src() is None,
            !handle.reading(),
    {
        Self {  }
    }
}

impl Input for ReadStdin {
    open spec fn src(&self) -> Option<Seq<char>> {
        None
    }

    open spec fn reading(&self) -> bool {
        false
    }

    fn reader(&mut self) -> (how: Acquire) {
        Acquire::Standard
    }
}

/// Writes standard output.
#[derive(Debug)]
pub struct WriteStdout {}

impl WriteStdout {
    pub fn new() -> (handle: Self)
        ensures
            handle.dst() is None,
            !handle.writing(),
    {
        Self {  }
    }
}

impl Output for WriteStdout {
    open spec fn dst(&self) -> Option<Seq<char>> {
        None
    }

    open spec fn writing(&self) -> bool {
        false
    }

    fn dst_path(&self) -> (path: Option<String>) {
        None
    }

    fn writer(&mut self) -> (how: Acquire) {
        Acquire::Standard
    }

    fn extension(&self) -> (ext: Option<String>) {
        None
    }

    fn set_file_name(&mut self, file_name: &str) -> (done: Result<(), Unsupported>) {
        Err(Unsupported)
    }

    fn remove_dst(&mut self, len: u64) -> (removed: Result<bool, Unsupported>) {
        Err(Unsupported)
    }

    fn remove_dst_anyway(&mut self) -> (removed: Result<(), Unsupported>) {
        Err(Unsupported)
    }
}

/// Any of the kinds of input.
#[derive(Debug)]
pub enum AnyInput {
    File(ReadFile),
    Stdin(ReadStdin),
}

/// Any of the kinds of output.
#[derive(Debug)]
pub enum AnyOutput {
    File(WriteFile),
    Stdout(WriteStdout),
}

impl Input for AnyInput {
    open spec fn src(&self) -> Option<Seq<char>> {
        match self {
            AnyInput::File(handle) => handle.src(),
            AnyInput::Stdin(handle) => handle.src(),
        }
    }

    open spec fn reading(&self) -> bool {
        match self {
            AnyInput::File(handle) => handle.reading(),
            AnyInput::Stdin(handle) => handle.reading(),
        }
    }

    fn reader(&mut self) -> (how: Acquire) {
        match self {
            AnyInput::File(handle) => handle.reader(),
            AnyInput::Stdin(handle) => handle.reader(),
        }
    }
}

impl Output for AnyOutput {
    open spec fn dst(&self) -> Option<Seq<char>> {
        match self {
            AnyOutput::File(handle) => handle.dst(),
            AnyOutput::Stdout(handle) => handle.dst(),
        }
    }

    open spec fn writing(&self) -> bool {
        match self {
            AnyOutput::File(handle) => handle.writing(),
            AnyOutput::Stdout(handle) => handle.writing(),
        }
    }

    fn dst_path(&self) -> (path: Option<String>) {
        match self {
            AnyOutput::File(handle) => handle.dst_path(),
            AnyOutput::Stdout(handle) => handle.dst_path(),
        }
    }

    fn writer(&mut self) -> (how: Acquire) {
        match self {
            AnyOutput::File(handle) => handle.writer(),
            AnyOutput::Stdout(handle) => handle.writer(),
        }
    }

    fn extension(&self) -> (ext: Option<String>) {
        match self {
            AnyOutput::File(handle) => handle.extension(),
            AnyOutput::Stdout(handle) => handle.extension(),
        }
    }

    fn set_file_name(&mut self, file_name: &str) -> (done: Result<(), Unsupported>) {
        match self {
            AnyOutput::File(handle) => handle.set_file_name(file_name),
            AnyOutput::Stdout(handle) => handle.set_file_name(file_name),
        }
    }

    fn remove_dst(&mut self, len: u64) -> (removed: Result<bool, Unsupported>) {
        match self {
            AnyOutput::File(handle) => handle.remove_dst(len),
            AnyOutput::Stdout(handle) => handle.remove_dst(len),
        }
    }

    fn remove_dst_anyway(&mut self) -> (removed: Result<(), Unsupported>) {
        match self {
            AnyOutput::File(handle) => handle.remove_dst_anyway(),
            AnyOutput::Stdout(handle) => handle.remove_dst_anyway(),
        }
    }
}

/// One input and one output, each of which can be replaced.
#[derive(Debug)]
pub struct ClarifiedIo {
    i: AnyInput,
    o: AnyOutput,
}

impl ClarifiedIo {
    /// The input that is held.
    pub closed spec fn input(&self) -> AnyInput {
        self.i
    }

    /// The output that is held.
    pub closed spec fn output(&self) -> AnyOutput {
        self.o
    }

    pub fn new(i: AnyInput, o: AnyOutput) -> (io: Self)
        ensures
            io.input() == i,
            io.output() == o,
    {
        Self { i, o }
    }

    /// Puts `i` in place of the input.
    pub fn with_input(&mut self, i: AnyInput)
        ensures
            final(self).input() == i,
            final(self).output() == old(self).output(),
    {
        self.i = i;
    }

    /// Puts `o` in place of the output.
    pub fn with_output(&mut self, o: AnyOutput)
        ensures
            final(self).input() == old(self).input(),
            final(self).output() == o,
    {
        self.o = o;
    }
}

impl InputOutput for ClarifiedIo {

}

impl Input for ClarifiedIo {
    open spec fn src(&self) -> Option<Seq<char>> {
        self.input().src()
    }

    open spec fn reading(&self) -> bool {
        self.input().reading()
    }

    fn reader(&mut self) -> (how: Acquire)
        ensures
            final(self).output() == old(self).output(),
    {
        self.i.reader()
    }
}

impl Output for ClarifiedIo {
    open spec fn dst(&self) -> Option<Seq<char>> {
        self.output().dst()
    }

    open spec fn writing(&self) -> bool {
        self.output().writing()
    }

    fn dst_path(&self) -> (path: Option<String>) {
        self.o.dst_path()
    }

    fn writer(&mut self) -> (how: Acquire)
        ensures
            final(self).input() == old(self).input(),
    {
        self.o.writer()
    }

    fn extension(&self) -> (ext: Option<String>) {
        self.o.extension()
    }

    fn set_file_name(&mut self, file_name: &str) -> (done: Result<(), Unsupported>)
        ensures
            final(self).input() == old(self).input(),
    {
        self.o.set_file_name(file_name)
    }

    fn remove_dst(&mut self, len: u64) -> (removed: Result<bool, Unsupported>)
        ensures
            final(self).input() == old(self).input(),
    {
        self.o.remove_dst(len)
    }

    fn remove_dst_anyway(&mut self) -> (removed: Result<(), Unsupported>)
        ensures
            final(self).input() == old(self).input(),
    {
        self.o.remove_dst_anyway()
    }
}

} // verus!
