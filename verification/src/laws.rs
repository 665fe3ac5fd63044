//! What holds of every resolution, proved from the rules.

use vstd::prelude::*;
use vstd::relations::*;
use vstd::seq_lib::*;
use crate::config::{
    asks,
    base_name,
    batch_target,
    faulted,
    many_pairs,
    one_pair,
    refused,
    Need,
    SrcDstConfig,
    Supplied,
};
use crate::error::{Fault, SrcDstError};
use crate::listing::Entry;
use crate::listing::{
    lemma_lex_order,
    lemma_lex_prefix,
    lemma_regular_paths,
    lex_le,
    lex_order,
    regular_paths,
    sorted_files,
};
use crate::pairs::batch_pairs;
use crate::path::{
    filename_safe,
    join_of,
    lemma_name_of,
    lemma_name_of_join,
    lemma_parent_joinable,
    lemma_parent_of_join,
    lemma_timed_file_name,
    name_of,
    parent_of,
    tidy,
    timed_file_name,
};
use crate::shape::{RawDestination, RawSource};

verus! {

/// What the rules ask for is all that the pairs need.
///
/// Where the rules pass and the caller supplies what they asked for, pairs
/// come out; where it does not, the fault says so.
pub proof fn law_supplied_suffices(
    cfg: SrcDstConfig,
    src: RawSource,
    dst: RawDestination,
    supplied: Supplied,
    stamp: Seq<char>,
)
    ensures
        cfg.ruling(src, dst) matches Ok(Ok(need)) ==> if supplied.meets(need) {
            cfg.resolved(src, dst, supplied, stamp) matches Ok(Ok(_))
        } else {
            cfg.resolved(src, dst, supplied, stamp) == faulted(Fault::NotSupplied)
        },
        cfg.ruling(src, dst) matches Ok(Err(rule)) ==> cfg.resolved(src, dst, supplied, stamp)
            == refused(rule),
        cfg.ruling(src, dst) matches Err(fault) ==> cfg.resolved(src, dst, supplied, stamp)
            == faulted(fault),
{
}

/// A file with no destination is written beside itself under another name.
///
/// Where the policy names files, the working directory is the directory
/// that holds the source file, and neither the stamp nor the extension holds
/// a `/`: the one pair reads the file and writes a file with the same parent
/// and a different name.
pub proof fn law_named_beside_source(
    cfg: SrcDstConfig,
    file: String,
    working_dir: String,
    stamp: Seq<char>,
)
    requires
        cfg.auto_tnamed_dst_file,
        tidy(file@),
        parent_of(file@) == Some(working_dir@),
        filename_safe(stamp),
        filename_safe(cfg.default_extension@),
    ensures
        ({
            let to = join_of(
                working_dir@,
                timed_file_name(name_of(file@), cfg.default_extension@, stamp),
            );
            &&& cfg.resolved(
                RawSource::SingleFile(file),
                RawDestination::NotProvided,
                Supplied::WorkingDir(working_dir),
                stamp,
            ) == one_pair(Some(file@), Some(to))
            &&& parent_of(to) == parent_of(file@)
            &&& name_of(to) != name_of(file@)
        }),
{
    let named = timed_file_name(name_of(file@), cfg.default_extension@, stamp);
    lemma_name_of(file@);
    lemma_timed_file_name(name_of(file@), cfg.default_extension@, stamp);
    lemma_parent_joinable(file@);
    lemma_parent_of_join(working_dir@, named);
    lemma_name_of_join(working_dir@, named);
}

/// Two stamps that differ give two names that differ: a file named by time
/// is written to another path whenever the clock has moved.
pub proof fn law_stamps_tell_names_apart(
    cfg: SrcDstConfig,
    src: RawSource,
    dir: Seq<char>,
    stamp: Seq<char>,
    later: Seq<char>,
)
    requires
        stamp != later,
    ensures
        join_of(dir, timed_file_name(base_name(src), cfg.default_extension@, stamp)) != join_of(
            dir,
            timed_file_name(base_name(src), cfg.default_extension@, later),
        ),
{
    let ext = cfg.default_extension@;
    let one = join_of(dir, timed_file_name(base_name(src), ext, stamp));
    let other = join_of(dir, timed_file_name(base_name(src), ext, later));
    if one == other {
        let first = one.len() - timed_file_name(base_name(src), ext, stamp).len()
            + crate::path::stem_of(base_name(src), ext).len() + 1;
        assert(stamp.len() == later.len());
        assert forall|k: int| 0 <= k < stamp.len() implies stamp[k] == later[k] by {
            assert(one[first + k] == stamp[k]);
            assert(other[first + k] == later[k]);
        }
        assert(stamp =~= later);
    }
}

/// The files of a directory are its regular children, ascending by path, and
/// each is written under its own name.
///
/// For a directory, whatever the policy, the destination and the stamp:
/// where pairs come out, the files they read are the paths of the regular
/// entries among the children, each as often as it was listed; no pair reads
/// from a path that comes after that of a later pair; and each pair writes a
/// file of the same name as the one it reads.
pub proof fn law_batch_reads_regular_children(
    cfg: SrcDstConfig,
    dir: String,
    dst: RawDestination,
    children: Vec<Entry>,
    stamp: Seq<char>,
)
    ensures
        cfg.resolved(RawSource::Directory(dir), dst, Supplied::Listing(children), stamp) matches Ok(
            Ok(pairs),
        ) ==> {
            let files = sorted_files(children@);
            &&& pairs.batch
            &&& pairs.pending.len() == files.len()
            &&& forall|i: int|
                0 <= i < files.len() ==> (#[trigger] pairs.pending[i]).0 == Some(files[i])
                    && pairs.pending[i].1 is Some && name_of(pairs.pending[i].1->0) == name_of(
                    files[i],
                )
            &&& files.to_multiset() == regular_paths(children@).to_multiset()
            &&& forall|path: Seq<char>| #[trigger]
                files.contains(path) <==> exists|i: int|
                    0 <= i < children@.len() && (#[trigger] children@[i]).regular
                        && children@[i].path@ == path
            &&& forall|i: int, j: int|
                0 <= i < j < files.len() ==> lex_le(#[trigger] files[i], #[trigger] files[j])
        },
{
    let out = cfg.resolved(RawSource::Directory(dir), dst, Supplied::Listing(children), stamp);
    if let Ok(Ok(pairs)) = out {
        let files = sorted_files(children@);
        let listed = regular_paths(children@);
        lemma_lex_order();
        listed.lemma_sort_by_ensures(lex_order());
        assert forall|path: Seq<char>| #[trigger]
            files.contains(path) <==> exists|i: int|
                0 <= i < children@.len() && (#[trigger] children@[i]).regular
                    && children@[i].path@ == path by {
            lemma_regular_paths(children@, path);
            listed.to_multiset_ensures();
            files.to_multiset_ensures();
            assert(files.contains(path) <==> files.to_multiset().count(path) > 0);
            assert(listed.contains(path) <==> listed.to_multiset().count(path) > 0);
        }
        assert forall|i: int, j: int| 0 <= i < j < files.len() implies lex_le(
            #[trigger] files[i],
            #[trigger] files[j],
        ) by {
            assert(lex_order()(files[i], files[j]));
        }
        let into = batch_target(dir, dst, stamp);
        assert(pairs.pending == batch_pairs(files, into));
        assert forall|i: int| 0 <= i < files.len() implies (#[trigger] pairs.pending[i]).0 == Some(
            files[i],
        ) && pairs.pending[i].1 is Some && name_of(pairs.pending[i].1->0) == name_of(files[i]) by {
            lemma_name_of(files[i]);
            lemma_name_of_join(into, name_of(files[i]));
        }
    }
}

/// The files of a directory are written in the ascending order of their
/// names.
///
/// Where every regular child was listed as its name joined to the source
/// directory, as a scan of that directory lists its direct children: no pair
/// writes a file whose name comes after that of a later pair.
pub proof fn law_batch_writes_ascending(
    cfg: SrcDstConfig,
    dir: String,
    dst: RawDestination,
    children: Vec<Entry>,
    stamp: Seq<char>,
)
    requires
        forall|k: int|
            0 <= k < children@.len() && (#[trigger] children@[k]).regular ==> children@[k].path@
                == join_of(dir@, name_of(children@[k].path@)),
    ensures
        cfg.resolved(RawSource::Directory(dir), dst, Supplied::Listing(children), stamp) matches Ok(
            Ok(pairs),
        ) ==> forall|i: int, j: int|
            0 <= i < j < pairs.pending.len() ==> lex_le(
                name_of((#[trigger] pairs.pending[i]).1->0),
                name_of((#[trigger] pairs.pending[j]).1->0),
            ),
{
    let out = cfg.resolved(RawSource::Directory(dir), dst, Supplied::Listing(children), stamp);
    if let Ok(Ok(pairs)) = out {
        law_batch_reads_regular_children(cfg, dir, dst, children, stamp);
        let files = sorted_files(children@);
        let prefix = join_of(dir@, Seq::empty());
        assert forall|i: int, j: int| 0 <= i < j < pairs.pending.len() implies lex_le(
            name_of((#[trigger] pairs.pending[i]).1->0),
            name_of((#[trigger] pairs.pending[j]).1->0),
        ) by {
            let a = name_of(files[i]);
            let b = name_of(files[j]);
            assert(files.contains(files[i]) && files.contains(files[j]));
            assert(files[i] =~= prefix + a);
            assert(files[j] =~= prefix + b);
            lemma_lex_prefix(prefix, a, b);
        }
    }
}

/// A file is never written over itself through its own directory.
///
/// Where the destination is the directory that holds the source file, no
/// policy refuses the pair and nothing has to be supplied: the file is
/// written into that directory under a time-based name, which is not its
/// own where neither the stamp nor the extension holds a `/`.
pub proof fn law_own_directory_is_renamed(
    cfg: SrcDstConfig,
    file: String,
    into: String,
    supplied: Supplied,
    stamp: Seq<char>,
)
    requires
        parent_of(file@) == Some(into@),
    ensures
        ({
            let to = join_of(
                into@,
                timed_file_name(name_of(file@), cfg.default_extension@, stamp),
            );
            &&& cfg.ruling(RawSource::SingleFile(file), RawDestination::Directory(into)) == asks(
                Need::Nothing,
            )
            &&& cfg.timed(RawSource::SingleFile(file), RawDestination::Directory(into))
            &&& cfg.resolved(
                RawSource::SingleFile(file),
                RawDestination::Directory(into),
                supplied,
                stamp,
            ) == one_pair(Some(file@), Some(to))
            &&& filename_safe(stamp) && filename_safe(cfg.default_extension@) ==> name_of(to)
                != name_of(file@)
        }),
{
    let named = timed_file_name(name_of(file@), cfg.default_extension@, stamp);
    lemma_name_of(file@);
    lemma_timed_file_name(name_of(file@), cfg.default_extension@, stamp);
    if filename_safe(stamp) && filename_safe(cfg.default_extension@) {
        lemma_name_of_join(into@, named);
    }
}

/// A directory is its own destination only where the policy allows it.
///
/// Where source and destination are the same directory: a policy that does
/// not allow it refuses the pair as in place; one that allows it asks for
/// the children, and with them gives the pairs that write each file over
/// itself.
pub proof fn law_in_place_needs_leave(
    cfg: SrcDstConfig,
    dir: String,
    into: String,
    children: Vec<Entry>,
    stamp: Seq<char>,
)
    requires
        into@ == dir@,
    ensures
        !cfg.allow_inplace ==> cfg.resolved(
            RawSource::Directory(dir),
            RawDestination::Directory(into),
            Supplied::Listing(children),
            stamp,
        ) == refused(SrcDstError::Inplaced),
        cfg.allow_inplace ==> cfg.ruling(
            RawSource::Directory(dir),
            RawDestination::Directory(into),
        ) == asks(Need::Listing(dir)) && cfg.resolved(
            RawSource::Directory(dir),
            RawDestination::Directory(into),
            Supplied::Listing(children),
            stamp,
        ) == many_pairs(sorted_files(children@), into@, false),
{
}

/// A directory never goes to one file or to standard output.
///
/// Whatever the policy, what was supplied and the stamp, a directory with
/// standard output or a single file as its destination is refused as many
/// to one.
pub proof fn law_many_to_one(
    cfg: SrcDstConfig,
    dir: String,
    dst: RawDestination,
    supplied: Supplied,
    stamp: Seq<char>,
)
    requires
        dst is Stdout || dst is SingleFile,
    ensures
        cfg.resolved(RawSource::Directory(dir), dst, supplied, stamp) == refused(
            SrcDstError::ManyToOne,
        ),
{
}

/// A directory has to be created only where it was named by time.
///
/// Where pairs come out, there is a directory to create exactly when the
/// source is a directory and no destination was given; it is then the
/// directory that the files are written into.
pub proof fn law_created_only_when_named(
    cfg: SrcDstConfig,
    src: RawSource,
    dst: RawDestination,
    supplied: Supplied,
    stamp: Seq<char>,
)
    ensures
        cfg.resolved(src, dst, supplied, stamp) matches Ok(Ok(pairs)) ==> (pairs.tnamed_dir is Some
            <==> src is Directory && dst is NotProvided) && (pairs.tnamed_dir matches Some(named)
            ==> named == batch_target(src->Directory_0, dst, stamp)),
{
}

} // verus!
