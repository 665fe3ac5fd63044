//! Paths as text. A path is a string whose components are separated by `/`;
//! everything after the last `/` is its file name.

use vstd::prelude::*;

verus! {

/// The position of the last `c` in `s`, or -1 where `s` holds none.
pub open spec fn last_index(s: Seq<char>, c: char) -> int
    decreases s.len(),
{
    if s.len() == 0 {
        -1
    } else if s.last() == c {
        s.len() - 1
    } else {
        last_index(s.drop_last(), c)
    }
}

/// The file name of `path`: what follows its last `/`, or all of it.
pub open spec fn name_of(path: Seq<char>) -> Seq<char> {
    path.skip(last_index(path, '/') + 1)
}

/// The directory that holds `path`. A path with an empty file name (the
/// empty path, the root, a path that ends in `/`) has none; a bare name lies
/// in the empty directory, and a name directly under the root lies in `/`.
pub open spec fn parent_of(path: Seq<char>) -> Option<Seq<char>> {
    let i = last_index(path, '/');
    if i + 1 == path.len() {
        None
    } else if i <= 0 {
        Some(path.take(i + 1))
    } else {
        Some(path.take(i))
    }
}

/// `name` placed in `dir`, with a `/` between them where `dir` needs one.
pub open spec fn join_of(dir: Seq<char>, name: Seq<char>) -> Seq<char> {
    if dir.len() == 0 || dir.last() == '/' {
        dir + name
    } else {
        dir + seq!['/'] + name
    }
}

/// `path` with its file name replaced by `name`.
pub open spec fn renamed(path: Seq<char>, name: Seq<char>) -> Seq<char> {
    path.take(last_index(path, '/') + 1) + name
}

/// The extension of a file name: what follows its last `.`. There is none
/// where the name holds no `.`, where its only `.` comes first, and for `..`.
pub open spec fn extension_of(name: Seq<char>) -> Option<Seq<char>> {
    let j = last_index(name, '.');
    if j <= 0 || name == seq!['.', '.'] {
        None
    } else {
        Some(name.skip(j + 1))
    }
}

/// `name` without its extension and the `.` before it, where that extension
/// is `ext`; else `name` itself.
pub open spec fn stem_of(name: Seq<char>, ext: Seq<char>) -> Seq<char> {
    if extension_of(name) == Some(ext) {
        name.take(last_index(name, '.'))
    } else {
        name
    }
}

/// The time-based name of a file: the stem of `base`, `-`, the stamp, and
/// `.ext` where `ext` is not empty.
pub open spec fn timed_file_name(base: Seq<char>, ext: Seq<char>, stamp: Seq<char>) -> Seq<char> {
    let dotted = if ext.len() == 0 {
        Seq::<char>::empty()
    } else {
        seq!['.'] + ext
    };
    stem_of(base, ext) + seq!['-'] + stamp + dotted
}

/// The time-based name of a directory: `base`, `-`, the stamp.
pub open spec fn timed_dir_name(base: Seq<char>, stamp: Seq<char>) -> Seq<char> {
    base + seq!['-'] + stamp
}

/// Whether `text` can stand inside a file name: it holds no `/`.
pub open spec fn filename_safe(text: Seq<char>) -> bool {
    !text.contains('/')
}

/// Where the last `c` stands: at a `c`, with none after it.
pub proof fn lemma_last_index(s: Seq<char>, c: char)
    ensures
        -1 <= last_index(s, c) < s.len(),
        last_index(s, c) >= 0 ==> s[last_index(s, c)] == c,
        forall|k: int| last_index(s, c) < k < s.len() ==> s[k] != c,
    decreases s.len(),
{
    if s.len() > 0 && s.last() != c {
        let front = s.drop_last();
        lemma_last_index(front, c);
        assert forall|k: int| last_index(s, c) < k < s.len() implies s[k] != c by {
            if k < front.len() {
                assert(front[k] == s[k]);
            }
        }
    }
}

/// A tail without `c` does not move the last `c`.
pub proof fn lemma_last_index_tail(head: Seq<char>, tail: Seq<char>, c: char)
    requires
        !tail.contains(c),
    ensures
        last_index(head + tail, c) == last_index(head, c),
    decreases tail.len(),
{
    if tail.len() == 0 {
        assert(head + tail =~= head);
    } else {
        let whole = head + tail;
        assert(whole.last() == tail.last());
        assert(tail.contains(tail.last()) ==> tail.last() != c) by {
            assert(tail[tail.len() - 1] == tail.last());
        }
        assert(whole.drop_last() =~= head + tail.drop_last());
        assert(!tail.drop_last().contains(c)) by {
            if tail.drop_last().contains(c) {
                let k = choose|k: int| 0 <= k < tail.drop_last().len() && tail.drop_last()[k] == c;
                assert(tail[k] == c);
            }
        }
        lemma_last_index_tail(head, tail.drop_last(), c);
    }
}

/// A file name holds no `/`, and the path is its directory part and its name.
pub proof fn lemma_name_of(path: Seq<char>)
    ensures
        filename_safe(name_of(path)),
        path == path.take(last_index(path, '/') + 1) + name_of(path),
{
    lemma_last_index(path, '/');
    let i = last_index(path, '/');
    let name = name_of(path);
    if name.contains('/') {
        let k = choose|k: int| 0 <= k < name.len() && name[k] == '/';
        assert(path[i + 1 + k] == '/');
    }
    assert(path =~= path.take(i + 1) + name);
}

/// The name of a joined path is the name that was joined, where that name
/// holds no `/`.
pub proof fn lemma_name_of_join(dir: Seq<char>, name: Seq<char>)
    requires
        filename_safe(name),
    ensures
        name_of(join_of(dir, name)) == name,
        last_index(join_of(dir, name), '/') == join_of(dir, name).len() - name.len() - 1,
{
    let whole = join_of(dir, name);
    let head = whole.take(whole.len() - name.len());
    assert(whole =~= head + name);
    lemma_last_index_tail(head, name, '/');
    lemma_last_index(head, '/');
    if head.len() > 0 {
        assert(head.last() == '/');
    } else {
        assert(dir.len() == 0);
    }
    assert(whole.skip(head.len() as int) =~= name);
}

/// Whether `path` is written as a filesystem writes a canonical path:
/// from the root, with no empty component, and with no `/` at its end unless
/// it is the root.
pub open spec fn tidy(path: Seq<char>) -> bool {
    &&& path.len() > 0 && path[0] == '/'
    &&& forall|i: int| 0 <= i < path.len() - 1 ==> !(#[trigger] path[i] == '/' && path[i + 1] == '/')
    &&& path.len() > 1 ==> path.last() != '/'
}

/// Whether a name joined to `dir` has `dir` as its parent: `dir` is empty,
/// the root, or does not end in `/`.
pub open spec fn joinable(dir: Seq<char>) -> bool {
    dir.len() == 0 || dir == seq!['/'] || dir.last() != '/'
}

/// Two texts without `/` make a text without `/`.
pub proof fn lemma_no_slash(a: Seq<char>, b: Seq<char>)
    requires
        filename_safe(a),
        filename_safe(b),
    ensures
        filename_safe(a + b),
{
    if (a + b).contains('/') {
        let k = choose|k: int| 0 <= k < (a + b).len() && (a + b)[k] == '/';
        if k < a.len() {
            assert(a[k] == '/');
        } else {
            assert(b[k - a.len()] == '/');
        }
    }
}

/// The parent of a joined path is the directory that was joined to.
pub proof fn lemma_parent_of_join(dir: Seq<char>, name: Seq<char>)
    requires
        joinable(dir),
        name.len() > 0,
        filename_safe(name),
    ensures
        parent_of(join_of(dir, name)) == Some(dir),
{
    lemma_name_of_join(dir, name);
    let whole = join_of(dir, name);
    let i = last_index(whole, '/');
    if dir.len() == 0 {
        assert(whole.take(0) =~= dir);
    } else if dir == seq!['/'] {
        assert(whole.take(1) =~= dir);
    } else {
        assert(whole.take(i) =~= dir);
    }
}

/// The parent of a tidy path takes a name.
pub proof fn lemma_parent_joinable(path: Seq<char>)
    requires
        tidy(path),
    ensures
        parent_of(path) matches Some(dir) ==> joinable(dir),
{
    lemma_last_index(path, '/');
    let i = last_index(path, '/');
    if parent_of(path) is Some {
        if i <= 0 {
            assert(path.take(1) =~= seq!['/']);
        } else {
            assert(path.take(i).last() == path[i - 1]);
        }
    }
}

/// A stem holds no `/` where the name holds none.
pub proof fn lemma_stem_of(name: Seq<char>, ext: Seq<char>)
    ensures
        filename_safe(name) ==> filename_safe(stem_of(name, ext)),
        extension_of(name) == Some(ext) ==> stem_of(name, ext).len() + 1 + ext.len() == name.len(),
        extension_of(name) != Some(ext) ==> stem_of(name, ext) == name,
{
    lemma_last_index(name, '.');
    let stem = stem_of(name, ext);
    if stem.contains('/') {
        let k = choose|k: int| 0 <= k < stem.len() && stem[k] == '/';
        assert(name[k] == '/');
    }
}

/// A time-based file name is never the name it is made from, and holds no
/// `/` where its parts hold none.
pub proof fn lemma_timed_file_name(base: Seq<char>, ext: Seq<char>, stamp: Seq<char>)
    ensures
        timed_file_name(base, ext, stamp) != base,
        timed_file_name(base, ext, stamp).len() > 0,
        filename_safe(base) && filename_safe(ext) && filename_safe(stamp) ==> filename_safe(
            timed_file_name(base, ext, stamp),
        ),
{
    lemma_stem_of(base, ext);
    lemma_last_index(base, '.');
    let stem = stem_of(base, ext);
    let named = timed_file_name(base, ext, stamp);
    let dotted = if ext.len() == 0 {
        Seq::<char>::empty()
    } else {
        seq!['.'] + ext
    };
    assert(named[stem.len() as int] == '-');
    if named == base {
        assert(extension_of(base) == Some(ext));
        assert(ext.len() == 0 && stamp.len() == 0);
        assert(base[stem.len() as int] == '.');
    }
    if !base.contains('/') && !ext.contains('/') && !stamp.contains('/') {
        let dash = seq!['-'];
        assert(!dash.contains('/')) by {
            if dash.contains('/') {
                let k = choose|k: int| 0 <= k < dash.len() && dash[k] == '/';
            }
        }
        assert(!dotted.contains('/')) by {
            if dotted.contains('/') {
                let k = choose|k: int| 0 <= k < dotted.len() && dotted[k] == '/';
                assert(k > 0);
                assert(ext[k - 1] == '/');
            }
        }
        lemma_no_slash(stem, dash);
        lemma_no_slash(stem + dash, stamp);
        lemma_no_slash(stem + dash + stamp, dotted);
    }
}

/// The index of the last `c` in `s`, if there is one.
fn rfind(s: &str, c: char) -> (at: Option<usize>)
    ensures
        match at {
            Some(i) => last_index(s@, c) == i && i < s@.len() <= usize::MAX,
            None => last_index(s@, c) == -1,
        },
{
    let n: usize = s.unicode_len();
    let mut i: usize = n;
    assert(s@.take(i as int) =~= s@);
    while i > 0
        invariant
            i <= n == s@.len(),
            last_index(s@, c) == last_index(s@.take(i as int), c),
        decreases i,
    {
        if s.get_char(i - 1) == c {
            return Some(i - 1);
        }
        assert(s@.take(i as int).drop_last() =~= s@.take(i - 1));
        i = i - 1;
    }
    None
}

/// The file name of `path`.
pub fn file_name(path: &str) -> (name: String)
    ensures
        name@ == name_of(path@),
{
    let n: usize = path.unicode_len();
    match rfind(path, '/') {
        Some(i) => path.substring_char(i + 1, n).to_owned(),
        None => path.to_owned(),
    }
}

/// The directory that holds `path`, if it has one.
pub fn parent(path: &str) -> (dir: Option<String>)
    ensures
        dir.deep_view() == parent_of(path@),
{
    let n: usize = path.unicode_len();
    match rfind(path, '/') {
        Some(i) => {
            if i + 1 == n {
                None
            } else if i == 0 {
                Some(path.substring_char(0, 1).to_owned())
            } else {
                Some(path.substring_char(0, i).to_owned())
            }
        },
        None => {
            if n == 0 {
                None
            } else {
                Some(path.substring_char(0, 0).to_owned())
            }
        },
    }
}

/// `name` placed in `dir`.
pub fn join(dir: &str, name: &str) -> (path: String)
    ensures
        path@ == join_of(dir@, name@),
{
    let n: usize = dir.unicode_len();
    let mut path: String = dir.to_owned();
    if n > 0 && dir.get_char(n - 1) != '/' {
        path.append("/");
        proof {
            reveal_strlit("/");
            assert("/"@ =~= seq!['/']);
        }
    }
    path.append(name);
    path
}

/// `path` with its file name replaced by `name`.
pub fn with_file_name(path: &str, name: &str) -> (out: String)
    ensures
        out@ == renamed(path@, name@),
{
    let mut out: String = match rfind(path, '/') {
        Some(i) => path.substring_char(0, i + 1).to_owned(),
        None => path.substring_char(0, 0).to_owned(),
    };
    out.append(name);
    out
}

/// The extension of the file name `name`, if it has one.
pub fn extension(name: &str) -> (ext: Option<String>)
    ensures
        ext.deep_view() == extension_of(name@),
{
    let n: usize = name.unicode_len();
    if n == 2 && name.get_char(0) == '.' && name.get_char(1) == '.' {
        assert(name@ =~= seq!['.', '.']);
        return None;
    }
    match rfind(name, '.') {
        Some(j) => {
            if j == 0 {
                None
            } else {
                Some(name.substring_char(j + 1, n).to_owned())
            }
        },
        None => None,
    }
}

/// Whether two strings hold the same text.
pub fn same_text(a: &str, b: &str) -> (same: bool)
    ensures
        same == (a@ == b@),
{
    let n: usize = a.unicode_len();
    if n != b.unicode_len() {
        return false;
    }
    let mut i: usize = 0;
    while i < n
        invariant
            i <= n,
            n == a@.len(),
            n == b@.len(),
            forall|k: int| 0 <= k < i ==> a@[k] == b@[k],
        decreases n - i,
    {
        if a.get_char(i) != b.get_char(i) {
            return false;
        }
        i = i + 1;
    }
    assert(a@ =~= b@);
    true
}

/// The time-based file name made of `base`, the extension `ext` and `stamp`.
pub fn auto_file_name(base: &str, ext: &str, stamp: &str) -> (name: String)
    ensures
        name@ == timed_file_name(base@, ext@, stamp@),
{
    let strip: bool = match extension(base) {
        Some(e) => same_text(e.as_str(), ext),
        None => false,
    };
    let mut name: String = if strip {
        match rfind(base, '.') {
            Some(j) => base.substring_char(0, j).to_owned(),
            None => base.to_owned(),
        }
    } else {
        base.to_owned()
    };
    proof {
        reveal_strlit("-");
        reveal_strlit(".");
        assert("-"@ =~= seq!['-']);
        assert("."@ =~= seq!['.']);
    }
    name.append("-");
    name.append(stamp);
    if ext.unicode_len() > 0 {
        name.append(".");
        name.append(ext);
        assert(name@ =~= timed_file_name(base@, ext@, stamp@));
    } else {
        assert(name@ =~= timed_file_name(base@, ext@, stamp@));
    }
    name
}

/// The time-based directory name made of `base` and `stamp`.
pub fn auto_dir_name(base: &str, stamp: &str) -> (name: String)
    ensures
        name@ == timed_dir_name(base@, stamp@),
{
    let mut name: String = base.to_owned();
    proof {
        reveal_strlit("-");
        assert("-"@ =~= seq!['-']);
    }
    name.append("-");
    name.append(stamp);
    name
}

} // verus!
