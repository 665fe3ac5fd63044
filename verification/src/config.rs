//! The policy, the rules that it applies to a source and a destination, and
//! the pairs that come of them.

use vstd::prelude::*;
use crate::error::{Fault, SrcDstError};
use crate::listing::{sort_files, sorted_files, Entry};
use crate::pairs::{batch_pairs, Dst, PairsView, Src, SrcDstPairs};
use crate::path::{
    auto_dir_name,
    auto_file_name,
    file_name,
    filename_safe,
    join,
    join_of,
    name_of,
    parent,
    parent_of,
    same_text,
    timed_dir_name,
    timed_file_name,
};
use crate::shape::{RawDestination, RawSource};
use crate::stamp::now_stamp;

verus! {

/// Which shapes of source and destination are allowed, and how a destination
/// that was not given is named. A single hyphen as a path stands for a
/// standard stream; time-based names are made only where no destination was
/// given.
#[derive(Debug, Clone, PartialEq, Eq)]
pub struct SrcDstConfig {
    pub allow_from_stdin: bool,
    pub allow_to_stdout: bool,
    pub auto_tnamed_dst_file: bool,
    pub auto_tnamed_dst_dir: bool,
    pub default_extension: String,
    /// Whether a directory may be its own destination. Off by default: a
    /// file could then be opened and created at the same time.
    pub allow_inplace: bool,
}

/// What the caller has to read before the pairs can be made.
#[derive(Debug, Clone, PartialEq, Eq)]
pub enum Need {
    Nothing,
    /// The canonical path of the present working directory.
    WorkingDir,
    /// The direct children of this directory.
    Listing(String),
}

/// What the caller read.
#[derive(Debug, Clone, PartialEq, Eq)]
pub enum Supplied {
    Nothing,
    /// The canonical path of the present working directory.
    WorkingDir(String),
    /// The direct children of the source directory, in any order.
    Listing(Vec<Entry>),
}

impl Supplied {
    /// Whether this is what `need` asks for. The listing is that of the
    /// directory that `need` names.
    pub open spec fn meets(self, need: Need) -> bool {
        match need {
            Need::Nothing => true,
            Need::WorkingDir => self is WorkingDir,
            Need::Listing(_) => self is Listing,
        }
    }
}

/// How a resolution ends: with pairs, with the rule that refuses it, or with
/// a fault.
pub type Outcome = Result<Result<PairsView, SrcDstError>, Fault>;

/// What the rules say: what has to be read, the rule that refuses, or a
/// fault.
pub type Ruling = Result<Result<Need, SrcDstError>, Fault>;

/// The ruling that passes, and asks for `need`.
pub open spec fn asks(need: Need) -> Ruling {
    Ok(Ok(need))
}

/// The outcome that is the refusal by `rule`.
pub open spec fn refused(rule: SrcDstError) -> Outcome {
    Ok(Err(rule))
}

/// The outcome that is `fault`.
pub open spec fn faulted(fault: Fault) -> Outcome {
    Err(fault)
}

/// The outcome that is the one pair `from`, `to`.
pub open spec fn one_pair(from: Option<Seq<char>>, to: Option<Seq<char>>) -> Outcome {
    Ok(Ok(PairsView { pending: seq![(from, to)], batch: false, tnamed_dir: None }))
}

/// The outcome that sends `files`, in their order, into `dir`; `tnamed` says
/// that `dir` is time-named and has to be created first.
pub open spec fn many_pairs(files: Seq<Seq<char>>, dir: Seq<char>, tnamed: bool) -> Outcome {
    Ok(
        Ok(
            PairsView {
                pending: batch_pairs(files, dir),
                batch: true,
                tnamed_dir: if tnamed {
                    Some(dir)
                } else {
                    None
                },
            },
        ),
    )
}

/// What an executable result stands for.
pub open spec fn outcome_of(out: Result<Result<SrcDstPairs, SrcDstError>, Fault>) -> Outcome {
    match out {
        Ok(Ok(pairs)) => Ok(Ok(pairs@)),
        Ok(Err(refusal)) => Ok(Err(refusal)),
        Err(fault) => Err(fault),
    }
}

/// The text `stdin`, which names what is read from standard input.
pub open spec fn stdin_name() -> Seq<char> {
    seq!['s', 't', 'd', 'i', 'n']
}

/// The name that the destination of `src` is made from.
pub open spec fn base_name(src: RawSource) -> Seq<char> {
    match src {
        RawSource::SingleFile(path) => name_of(path@),
        _ => stdin_name(),
    }
}

/// The path that a pair reads from, `None` for standard input.
pub open spec fn read_from(src: RawSource) -> Option<Seq<char>> {
    match src {
        RawSource::SingleFile(path) => Some(path@),
        _ => None,
    }
}

/// The directory that takes the files of the directory `dir`: the one that
/// was given, or the sibling of `dir` that is named after it and the time.
pub open spec fn batch_target(dir: String, dst: RawDestination, stamp: Seq<char>) -> Seq<char> {
    match dst {
        RawDestination::Directory(into) => into@,
        _ => join_of(parent_of(dir@)->0, timed_dir_name(name_of(dir@), stamp)),
    }
}

/// Whether writing `src` into the directory `dir` under its own name would
/// write over `src` itself: `dir` is the directory that holds the file.
pub open spec fn overwrites(src: RawSource, dir: Seq<char>) -> bool {
    src matches RawSource::SingleFile(path) && parent_of(path@) == Some(dir)
}

impl SrcDstConfig {
    /// The policy that allows every shape, names what was not given, and
    /// keeps a directory from being its own destination.
    pub fn new(default_extension: &str) -> (cfg: Self)
        ensures
            cfg.allow_from_stdin,
            cfg.allow_to_stdout,
            cfg.auto_tnamed_dst_file,
            cfg.auto_tnamed_dst_dir,
            cfg.default_extension@ == default_extension@,
            !cfg.allow_inplace,
    {
        Self {
            allow_from_stdin: true,
            allow_to_stdout: true,
            auto_tnamed_dst_file: true,
            auto_tnamed_dst_dir: true,
            default_extension: default_extension.to_owned(),
            allow_inplace: false,
        }
    }

    /// The policy of [`SrcDstConfig::new`], but a directory may be its own
    /// destination.
    pub fn new_with_allow_inplace(default_extension: &str) -> (cfg: Self)
        ensures
            cfg.allow_from_stdin,
            cfg.allow_to_stdout,
            cfg.auto_tnamed_dst_file,
            cfg.auto_tnamed_dst_dir,
            cfg.default_extension@ == default_extension@,
            cfg.allow_inplace,
    {
        Self {
            allow_from_stdin: true,
            allow_to_stdout: true,
            auto_tnamed_dst_file: true,
            auto_tnamed_dst_dir: true,
            default_extension: default_extension.to_owned(),
            allow_inplace: true,
        }
    }

    /// The rules. For one source: standard input and standard output have
    /// to be allowed, in this order, and so has the naming of a file where no
    /// destination was given; the working directory is then needed. For a
    /// directory: it goes only into a directory that exists, into itself only
    /// where that is allowed, or, where naming a directory is allowed, into a
    /// time-named sibling, for which it needs a parent; its children are then
    /// needed.
    pub open spec fn ruling(self, src: RawSource, dst: RawDestination) -> Ruling {
        match src {
            RawSource::Directory(dir) => match dst {
                RawDestination::Stdout | RawDestination::SingleFile(_) => Ok(
                    Err(SrcDstError::ManyToOne),
                ),
                RawDestination::DoesNotExist(_) => Ok(Err(SrcDstError::DstDirNotExist)),
                RawDestination::Directory(into) => if into@ == dir@ && !self.allow_inplace {
                    Ok(Err(SrcDstError::Inplaced))
                } else {
                    Ok(Ok(Need::Listing(dir)))
                },
                RawDestination::NotProvided => if !self.auto_tnamed_dst_dir {
                    Ok(Err(SrcDstError::ForbidAutoTnamedDstDir))
                } else if parent_of(dir@) is None {
                    Err(Fault::NoParent)
                } else {
                    Ok(Ok(Need::Listing(dir)))
                },
            },
            _ => if src is Stdin && !self.allow_from_stdin {
                Ok(Err(SrcDstError::DisallowFromStdin))
            } else if dst is Stdout && !self.allow_to_stdout {
                Ok(Err(SrcDstError::DisallowToStdout))
            } else if dst is NotProvided {
                if self.auto_tnamed_dst_file {
                    Ok(Ok(Need::WorkingDir))
                } else {
                    Ok(Err(SrcDstError::ForbidAutoTnamedDstFile))
                }
            } else {
                Ok(Ok(Need::Nothing))
            },
        }
    }

    /// Whether the pairs of `src` and `dst` hold a name made from the time:
    /// the rules pass, and no destination was given, or the destination is
    /// the directory that holds the source file.
    pub open spec fn timed(self, src: RawSource, dst: RawDestination) -> bool {
        self.ruling(src, dst) matches Ok(Ok(_)) && match dst {
            RawDestination::NotProvided => true,
            RawDestination::Directory(into) => overwrites(src, into@),
            _ => false,
        }
    }

    /// The outcome for `src` and `dst`, with what was `supplied` and the time
    /// as `stamp`.
    ///
    /// One source gives one pair. It is written to standard output, or to the
    /// file that was given, whether that exists or not; into a directory that
    /// was given, under its own name (`stdin` for standard input), but under
    /// a time-based name where that directory holds the source file; and
    /// under a time-based name into the working directory where nothing was
    /// given.
    ///
    /// A directory gives one pair for each regular file among its children,
    /// ascending by path, each written under its own name into the directory
    /// that was given, or into a sibling of the source that is named after it
    /// and the time, and that has to be created first.
    pub open spec fn resolved(
        self,
        src: RawSource,
        dst: RawDestination,
        supplied: Supplied,
        stamp: Seq<char>,
    ) -> Outcome {
        match self.ruling(src, dst) {
            Err(fault) => Err(fault),
            Ok(Err(refusal)) => Ok(Err(refusal)),
            Ok(Ok(_)) => match src {
                RawSource::Directory(dir) => match supplied {
                    Supplied::Listing(children) => many_pairs(
                        sorted_files(children@),
                        batch_target(dir, dst, stamp),
                        dst is NotProvided,
                    ),
                    _ => Err(Fault::NotSupplied),
                },
                _ => {
                    let timed_name = timed_file_name(
                        base_name(src),
                        self.default_extension@,
                        stamp,
                    );
                    match dst {
                        RawDestination::Stdout => one_pair(read_from(src), None),
                        RawDestination::SingleFile(file) => one_pair(read_from(src), Some(file@)),
                        RawDestination::DoesNotExist(file) => one_pair(
                            read_from(src),
                            Some(file@),
                        ),
                        RawDestination::Directory(into) => if overwrites(src, into@) {
                            one_pair(read_from(src), Some(join_of(into@, timed_name)))
                        } else {
                            one_pair(read_from(src), Some(join_of(into@, base_name(src))))
                        },
                        RawDestination::NotProvided => match supplied {
                            Supplied::WorkingDir(dir) => one_pair(
                                read_from(src),
                                Some(join_of(dir@, timed_name)),
                            ),
                            _ => Err(Fault::NotSupplied),
                        },
                    }
                },
            },
        }
    }

    /// Applies the rules to `src` and `dst`: the rule that refuses them, the
    /// fault, or what the caller has to read before it asks for the pairs.
    pub fn check(&self, src: &RawSource, dst: &RawDestination) -> (ruling: Ruling)
        ensures
            ruling == self.ruling(*src, *dst),
    {
        match src {
            RawSource::Directory(dir) => match dst {
                RawDestination::Stdout => Ok(Err(SrcDstError::ManyToOne)),
                RawDestination::SingleFile(_) => Ok(Err(SrcDstError::ManyToOne)),
                RawDestination::DoesNotExist(_) => Ok(Err(SrcDstError::DstDirNotExist)),
                RawDestination::Directory(into) => {
                    if !self.allow_inplace && same_text(into.as_str(), dir.as_str()) {
                        Ok(Err(SrcDstError::Inplaced))
                    } else {
                        Ok(Ok(Need::Listing(dir.clone())))
                    }
                },
                RawDestination::NotProvided => {
                    if !self.auto_tnamed_dst_dir {
                        Ok(Err(SrcDstError::ForbidAutoTnamedDstDir))
                    } else if parent(dir.as_str()).is_none() {
                        Err(Fault::NoParent)
                    } else {
                        Ok(Ok(Need::Listing(dir.clone())))
                    }
                },
            },
            _ => {
                let from_stdin: bool = match src {
                    RawSource::Stdin => true,
                    _ => false,
                };
                let to_stdout: bool = match dst {
                    RawDestination::Stdout => true,
                    _ => false,
                };
                let unnamed: bool = match dst {
                    RawDestination::NotProvided => true,
                    _ => false,
                };
                if from_stdin && !self.allow_from_stdin {
                    Ok(Err(SrcDstError::DisallowFromStdin))
                } else if to_stdout && !self.allow_to_stdout {
                    Ok(Err(SrcDstError::DisallowToStdout))
                } else if unnamed {
                    if self.auto_tnamed_dst_file {
                        Ok(Ok(Need::WorkingDir))
                    } else {
                        Ok(Err(SrcDstError::ForbidAutoTnamedDstFile))
                    }
                } else {
                    Ok(Ok(Need::Nothing))
                }
            },
        }
    }

    /// Whether the pairs of `src` and `dst` hold a name made from the time.
    pub fn names_by_time(&self, src: &RawSource, dst: &RawDestination) -> (timed: bool)
        ensures
            timed == self.timed(*src, *dst),
    {
        match self.check(src, dst) {
            Ok(Ok(_)) => match dst {
                RawDestination::NotProvided => true,
                RawDestination::Directory(into) => holds(into.as_str(), src),
                _ => false,
            },
            _ => false,
        }
    }

    /// The pairs for `src` and `dst`, with what was `supplied` and the time
    /// as `stamp`.
    pub fn resolve(
        &self,
        src: RawSource,
        dst: RawDestination,
        supplied: Supplied,
        stamp: &str,
    ) -> (out: Result<Result<SrcDstPairs, SrcDstError>, Fault>)
        ensures
            outcome_of(out) == self.resolved(src, dst, supplied, stamp@),
    {
        match self.check(&src, &dst) {
            Err(fault) => {
                return Err(fault);
            },
            Ok(Err(refusal)) => {
                return Ok(Err(refusal));
            },
            Ok(Ok(_)) => {},
        }
        match src {
            RawSource::Directory(dir) => {
                let children = match supplied {
                    Supplied::Listing(children) => children,
                    _ => {
                        return Err(Fault::NotSupplied);
                    },
                };
                let files = sort_files(&children);
                match dst {
                    RawDestination::Directory(into) => Ok(
                        Ok(SrcDstPairs::batch(files, into, false)),
                    ),
                    _ => match parent(dir.as_str()) {
                        Some(beside) => {
                            let base = file_name(dir.as_str());
                            let name = auto_dir_name(base.as_str(), stamp);
                            let into = join(beside.as_str(), name.as_str());
                            Ok(Ok(SrcDstPairs::batch(files, into, true)))
                        },
                        None => Err(Fault::NoParent),
                    },
                }
            },
            _ => {
                let base: String = match &src {
                    RawSource::SingleFile(path) => file_name(path.as_str()),
                    _ => {
                        proof {
                            reveal_strlit("stdin");
                            assert("stdin"@ =~= stdin_name());
                        }
                        "stdin".to_owned()
                    },
                };
                let to: Dst = match dst {
                    RawDestination::Stdout => Dst::Stdout,
                    RawDestination::SingleFile(file) => Dst::File(file),
                    RawDestination::DoesNotExist(file) => Dst::File(file),
                    RawDestination::Directory(into) => {
                        let name = if holds(into.as_str(), &src) {
                            auto_file_name(base.as_str(), self.default_extension.as_str(), stamp)
                        } else {
                            base
                        };
                        Dst::File(join(into.as_str(), name.as_str()))
                    },
                    RawDestination::NotProvided => match supplied {
                        Supplied::WorkingDir(dir) => {
                            let name = auto_file_name(
                                base.as_str(),
                                self.default_extension.as_str(),
                                stamp,
                            );
                            Dst::File(join(dir.as_str(), name.as_str()))
                        },
                        _ => {
                            return Err(Fault::NotSupplied);
                        },
                    },
                };
                let from: Src = match src {
                    RawSource::SingleFile(path) => Src::File(path),
                    _ => Src::Stdin,
                };
                Ok(Ok(SrcDstPairs::single(from, to)))
            },
        }
    }

    /// The pairs for `src` and `dst`, with what was `supplied`. Where a name
    /// is made from the time, the clock is read for it; the outcome is then
    /// the one for some stamp that can stand in a file name.
    pub fn parse(&self, src: RawSource, dst: RawDestination, supplied: Supplied) -> (out: Result<
        Result<SrcDstPairs, SrcDstError>,
        Fault,
    >)
        ensures
            exists|stamp: Seq<char>|
                filename_safe(stamp) && outcome_of(out) == #[trigger] self.resolved(
                    src,
                    dst,
                    supplied,
                    stamp,
                ),
            !self.timed(src, dst) ==> outcome_of(out) == self.resolved(
                src,
                dst,
                supplied,
                Seq::empty(),
            ),
    {
        let stamp: String = if self.names_by_time(&src, &dst) {
            now_stamp()
        } else {
            String::new()
        };
        self.resolve(src, dst, supplied, stamp.as_str())
    }
}

/// Whether `dir` is the directory that holds the source file.
fn holds(dir: &str, src: &RawSource) -> (held: bool)
    ensures
        held == overwrites(*src, dir@),
{
    match src {
        RawSource::SingleFile(path) => match parent(path.as_str()) {
            Some(beside) => same_text(beside.as_str(), dir),
            None => false,
        },
        _ => false,
    }
}

} // verus!
