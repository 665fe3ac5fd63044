//! The pairs of one resolution, handed out one at a time.

use vstd::prelude::*;
use crate::path::{file_name, join, join_of, name_of};

verus! {

/// Where one pair reads from.
#[derive(Debug, Clone, PartialEq, Eq, Hash)]
pub enum Src {
    File(String),
    Stdin,
}

/// Where one pair writes to.
#[derive(Debug, Clone, PartialEq, Eq, Hash)]
pub enum Dst {
    File(String),
    Stdout,
}

impl View for Src {
    type V = Option<Seq<char>>;

    /// The path of the file, or `None` for standard input.
    open spec fn view(&self) -> Option<Seq<char>> {
        match self {
            Src::File(path) => Some(path@),
            Src::Stdin => None,
        }
    }
}

impl View for Dst {
    type V = Option<Seq<char>>;

    /// The path of the file, or `None` for standard output.
    open spec fn view(&self) -> Option<Seq<char>> {
        match self {
            Dst::File(path) => Some(path@),
            Dst::Stdout => None,
        }
    }
}

/// What a pair stream stands for.
pub struct PairsView {
    /// The pairs not handed out yet, first to last; each is the path read
    /// and the path written, `None` for a standard stream.
    pub pending: Seq<(Option<Seq<char>>, Option<Seq<char>>)>,
    /// Whether the source is a list of files.
    pub batch: bool,
    /// The time-named directory that has to be created before the first
    /// pair is taken, if there is one.
    pub tnamed_dir: Option<Seq<char>>,
}

/// The pair for the file `src` of a batch that goes into the directory
/// `dir`: the destination keeps the file's name.
pub open spec fn batch_pair(src: Seq<char>, dir: Seq<char>) -> (
    Option<Seq<char>>,
    Option<Seq<char>>,
) {
    (Some(src), Some(join_of(dir, name_of(src))))
}

/// The pairs of a batch, for the source files in the order they are read.
pub open spec fn batch_pairs(files: Seq<Seq<char>>, dir: Seq<char>) -> Seq<
    (Option<Seq<char>>, Option<Seq<char>>),
> {
    Seq::new(files.len(), |i: int| batch_pair(files[i], dir))
}

#[derive(Debug)]
enum Source {
    Stdin,
    File(String),
    /// Held last to first, so that the next file is popped off the end.
    Files(Vec<String>),
}

#[derive(Debug)]
enum Drain {
    Stdout,
    /// A file; for a list of source files, the directory that takes them.
    Single(String),
}

/// The pairs of one resolution: single-pass, forward-only.
#[derive(Debug)]
pub struct SrcDstPairs {
    src: Source,
    dst: Drain,
    tnamed_dir: bool,
    finished: bool,
}

impl View for SrcDstPairs {
    type V = PairsView;

    closed spec fn view(&self) -> PairsView {
        PairsView {
            pending: if self.finished {
                Seq::empty()
            } else {
                match (self.src, self.dst) {
                    (Source::Files(files), Drain::Single(dir)) => Seq::new(
                        files@.len(),
                        |i: int| batch_pair(files@[files@.len() - 1 - i]@, dir@),
                    ),
                    // Never built: a list of files goes into a directory.
                    (Source::Files(_), Drain::Stdout) => Seq::empty(),
                    (Source::Stdin, dst) => seq![(None, drain_view(dst))],
                    (Source::File(path), dst) => seq![(Some(path@), drain_view(dst))],
                }
            },
            batch: self.src is Files,
            tnamed_dir: match self.dst {
                Drain::Single(dir) if self.tnamed_dir => Some(dir@),
                _ => None,
            },
        }
    }
}

spec fn drain_view(dst: Drain) -> Option<Seq<char>> {
    match dst {
        Drain::Stdout => None,
        Drain::Single(path) => Some(path@),
    }
}

impl SrcDstPairs {
    /// The stream of the one pair `src`, `dst`.
    pub(crate) fn single(src: Src, dst: Dst) -> (pairs: SrcDstPairs)
        ensures
            pairs@.pending == seq![(src@, dst@)],
            !pairs@.batch,
            pairs@.tnamed_dir is None,
    {
        let src = match src {
            Src::File(path) => Source::File(path),
            Src::Stdin => Source::Stdin,
        };
        let dst = match dst {
            Dst::File(path) => Drain::Single(path),
            Dst::Stdout => Drain::Stdout,
        };
        SrcDstPairs { src, dst, tnamed_dir: false, finished: false }
    }

    /// The stream that sends each of `files`, in their order, into the
    /// directory `dir` under its own name; `tnamed` says that `dir` is
    /// time-named and does not exist yet.
    pub(crate) fn batch(files: Vec<String>, dir: String, tnamed: bool) -> (pairs: SrcDstPairs)
        ensures
            pairs@.pending == batch_pairs(crate::listing::texts(files@), dir@),
            pairs@.batch,
            pairs@.tnamed_dir == (if tnamed {
                Some(dir@)
            } else {
                None
            }),
    {
        let mut files = files;
        let ghost given = files@;
        let mut held: Vec<String> = Vec::new();
        while files.len() > 0
            invariant
                files@.len() + held@.len() == given.len(),
                files@ == given.take(files@.len() as int),
                forall|i: int|
                    0 <= i < held@.len() ==> #[trigger] held@[i] == given[given.len() - 1 - i],
            decreases files@.len(),
        {
            let last = files.pop();
            match last {
                Some(path) => held.push(path),
                None => {},
            }
        }
        let pairs = SrcDstPairs {
            src: Source::Files(held),
            dst: Drain::Single(dir),
            tnamed_dir: tnamed,
            finished: false,
        };
        assert(pairs@.pending =~= batch_pairs(crate::listing::texts(given), dir@));
        pairs
    }

    /// The time-named directory that the caller has to create before it
    /// takes the first pair; `None` where there is nothing to create.
    pub fn create_tnamed_dir(&self) -> (dir: Option<String>)
        ensures
            dir.deep_view() == self@.tnamed_dir,
    {
        match &self.dst {
            Drain::Single(dir) => {
                if self.tnamed_dir {
                    Some(dir.clone())
                } else {
                    None
                }
            },
            Drain::Stdout => None,
        }
    }

    /// Whether the source is a list of files.
    pub fn is_batch(&self) -> (batch: bool)
        ensures
            batch == self@.batch,
    {
        match &self.src {
            Source::Files(_) => true,
            _ => false,
        }
    }

    /// Hands out the next pair, if one is left.
    pub fn next(&mut self) -> (pair: Option<(Src, Dst)>)
        ensures
            old(self)@.pending.len() == 0 ==> pair is None && final(self)@.pending.len() == 0,
            old(self)@.pending.len() > 0 ==> (pair matches Some(p) && p@ == old(self)@.pending[0])
                && final(self)@.pending == old(self)@.pending.drop_first(),
            final(self)@.batch == old(self)@.batch,
            final(self)@.tnamed_dir == old(self)@.tnamed_dir,
    {
        if self.finished {
            return None;
        }
        match &mut self.src {
            Source::Files(files) => match &self.dst {
                Drain::Single(dir) => match files.pop() {
                    Some(src) => {
                        let name = file_name(src.as_str());
                        let dst = join(dir.as_str(), name.as_str());
                        assert(self@.pending =~= old(self)@.pending.drop_first());
                        Some((Src::File(src), Dst::File(dst)))
                    },
                    None => None,
                },
                Drain::Stdout => None,
            },
            Source::File(path) => {
                let src = Src::File(path.clone());
                let dst = match &self.dst {
                    Drain::Single(path) => Dst::File(path.clone()),
                    Drain::Stdout => Dst::Stdout,
                };
                self.finished = true;
                Some((src, dst))
            },
            Source::Stdin => {
                let dst = match &self.dst {
                    Drain::Single(path) => Dst::File(path.clone()),
                    Drain::Stdout => Dst::Stdout,
                };
                self.finished = true;
                Some((Src::Stdin, dst))
            },
        }
    }
}

} // verus!
