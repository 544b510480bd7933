//! Windows paths as text.

use crate::text::{alpha, chars_of, is_alpha};
use std::path::Path;
use vstd::prelude::*;
use vstd::string::*;

verus! {

/// Whether a path can be followed by another without a separator: it ends in
/// one, is empty, or is a bare drive.
pub open spec fn takes_no_separator(dir: Seq<char>) -> bool {
    ||| dir.len() == 0
    ||| dir.last() == '\\'
    ||| dir.last() == '/'
    ||| dir.len() == 2 && is_alpha(dir[0]) && dir[1] == ':'
}

/// A relative path below a directory.
pub open spec fn path_below(dir: Seq<char>, relative: Seq<char>) -> Seq<char> {
    if takes_no_separator(dir) {
        dir + relative
    } else {
        dir + "\\"@ + relative
    }
}

/// Whether a path starts with `\\?\`, which Windows takes as it stands.
pub open spec fn is_verbatim(path: Seq<char>) -> bool {
    path.len() >= 4 && path[0] == '\\' && path[1] == '\\' && path[2] == '?' && path[3] == '\\'
}

/// Whether a name follows at once behind a backslash: there is neither a
/// second one nor a dot.
pub open spec fn name_follows(path: Seq<char>, i: int) -> bool {
    path[i] == '\\' ==> path[i + 1] != '\\' && path[i + 1] != '.'
}

/// Whether joining to a directory leaves the text of the directory as it is.
/// A verbatim one is normalized, so it has to be in that form: without
/// slashes, doubled backslashes and names that start with a dot.
pub open spec fn joins_plainly(dir: Seq<char>) -> bool {
    is_verbatim(dir) ==> {
        &&& dir.len() > 4
        &&& dir.skip(4) != seq!['U', 'N', 'C', '\\']
        &&& !dir.contains('/')
        &&& forall|i: int| 3 <= i < dir.len() - 1 ==> #[trigger] name_follows(dir, i)
    }
}

/// Whether a relative path is made of names alone, with one backslash between
/// them and no name that starts with a dot.
pub open spec fn is_plain_relative(path: Seq<char>) -> bool {
    &&& path.len() > 0
    &&& path[0] != '\\' && path[0] != '.' && path.last() != '\\'
    &&& !path.contains('/') && !path.contains(':')
    &&& forall|i: int| 0 <= i < path.len() - 1 ==> #[trigger] name_follows(path, i)
}

/// A relative path joined to a directory. Of a verbatim directory that is
/// normalized only the end is said.
pub open spec fn is_joined(dir: Seq<char>, relative: Seq<char>, r: Seq<char>) -> bool {
    &&& joins_plainly(dir) ==> r == path_below(dir, relative)
    &&& is_plain_relative(relative) ==> relative.is_suffix_of(r)
}

/// `std::path::Path::join`, between texts: a plain relative path comes last.
/// What is before it is left unsaid: the separator is the system's, and
/// Windows normalizes a verbatim directory.
#[verifier::external_body]
fn normalized_join(dir: &str, relative: &str) -> (r: String)
    ensures
        is_plain_relative(relative@) ==> relative@.is_suffix_of(r@),
{
    Path::new(dir).join(relative).to_string_lossy().into_owned()
}

/// Whether joining to a directory leaves its text as it is.
fn joins_as_is(v: &Vec<char>) -> (r: bool)
    ensures
        r == joins_plainly(v@),
{
    let n: usize = v.len();
    if n < 4 || v[0] != '\\' || v[1] != '\\' || v[2] != '?' || v[3] != '\\' {
        return true;
    }
    if n == 4 {
        return false;
    }
    if n == 8 && v[4] == 'U' && v[5] == 'N' && v[6] == 'C' && v[7] == '\\' {
        assert(v@.skip(4) =~= seq!['U', 'N', 'C', '\\']);
        return false;
    }
    assert(v@.skip(4) != seq!['U', 'N', 'C', '\\']) by {
        let rest = v@.skip(4);
        let unc = seq!['U', 'N', 'C', '\\'];
        if rest == unc {
            assert(rest.len() == unc.len());
            assert(rest[0] == v@[4] && rest[1] == v@[5] && rest[2] == v@[6] && rest[3] == v@[7]);
        }
    }
    let mut i: usize = 0;
    while i < n
        invariant
            n == v@.len(),
            n > 4,
            i <= n,
            is_verbatim(v@),
            forall|j: int| 0 <= j < i ==> v@[j] != '/',
            forall|j: int| 3 <= j < i && j < n - 1 ==> #[trigger] name_follows(v@, j),
        decreases n - i,
    {
        if v[i] == '/' {
            assert(v@.contains('/'));
            return false;
        }
        if i >= 3 && i + 1 < n && v[i] == '\\' && (v[i + 1] == '\\' || v[i + 1] == '.') {
            assert(!name_follows(v@, i as int));
            return false;
        }
        i += 1;
    }
    true
}

/// Joins a relative path to a directory.
pub fn join_path(dir: &str, relative: &str) -> (r: String)
    ensures
        is_joined(dir@, relative@, r@),
{
    let v = chars_of(dir);
    let n: usize = v.len();
    if !joins_as_is(&v) {
        return normalized_join(dir, relative);
    }
    let r = if n == 0 || v[n - 1] == '\\' || v[n - 1] == '/' || (n == 2 && alpha(v[0]) && v[1]
        == ':') {
        dir.to_owned().concat(relative)
    } else {
        dir.to_owned().concat("\\").concat(relative)
    };
    assert(r@.skip(r@.len() - relative@.len()) =~= relative@);
    r
}

/// What a name is joined to still joins plainly.
pub proof fn joining_a_name_stays_plain(dir: Seq<char>, name: Seq<char>)
    requires
        joins_plainly(dir),
        is_plain_relative(name),
        !name.contains('\\'),
        name.len() > 4,
    ensures
        joins_plainly(path_below(dir, name)),
{
    reveal_strlit("\\");
    let r = path_below(dir, name);
    if is_verbatim(r) {
        let start = r.len() - name.len();
        assert(forall|i: int| start <= i < r.len() ==> r[i] == name[i - start]);
        assert(forall|i: int| 0 <= i < dir.len() ==> r[i] == dir[i]);
        assert(forall|i: int| 0 <= i < name.len() ==> name.contains(name[i]));
        if dir.len() < 3 {
            assert(r[2] == name[2 - start]);
        }
        assert forall|i: int| 0 <= i < r.len() implies r[i] != '/' by {
            if i < dir.len() {
                assert(dir.contains(dir[i]));
                if !is_verbatim(dir) {
                    assert(dir.len() == 3);
                }
            }
        }
        assert forall|i: int| 3 <= i < r.len() - 1 implies #[trigger] name_follows(r, i) by {
            if i < dir.len() - 1 {
                assert(name_follows(dir, i));
            }
        }
        if r.skip(4) == seq!['U', 'N', 'C', '\\'] {
            assert(r.skip(4).len() == 4);
        }
    }
}

/// What lies below a directory starts with the directory and goes on.
pub proof fn lies_below(dir: Seq<char>, relative: Seq<char>)
    requires
        relative.len() > 0,
    ensures
        path_below(dir, relative).len() > dir.len(),
        path_below(dir, relative).take(dir.len() as int) == dir,
{
    assert(path_below(dir, relative).take(dir.len() as int) =~= dir);
}

// ---------- extensions ----------

pub open spec fn is_separator(c: char) -> bool {
    c == '\\' || c == '/'
}

/// Whether a path starts with two separators, as that of a share or of a
/// device does.
pub open spec fn is_share_or_device(path: Seq<char>) -> bool {
    path.len() >= 2 && is_separator(path[0]) && is_separator(path[1])
}

/// Where the next separator of a path is, or its end.
pub open spec fn next_separator(path: Seq<char>, from: int) -> int
    decreases path.len() - from,
{
    if from >= path.len() || is_separator(path[from]) {
        from
    } else {
        next_separator(path, from + 1)
    }
}

/// Whether a path starts with two separators and the name of a server, with
/// at most one separator behind it. `?` and `.` are no servers.
pub open spec fn on_server(path: Seq<char>) -> bool {
    let i = next_separator(path, 2);
    &&& is_share_or_device(path)
    &&& 2 < i <= path.len()
    &&& path[2] != '?' && path[2] != '.'
    &&& i + 1 < path.len() ==> !is_separator(path[i + 1])
}

/// Whether a path goes on behind a server and one of its shares.
pub open spec fn on_share(path: Seq<char>) -> bool {
    let i = next_separator(path, 2);
    &&& on_server(path)
    &&& i + 1 < next_separator(path, i + 1) < path.len()
}

/// Whether a path is that of a drive behind `\\?\`.
pub open spec fn on_verbatim_drive(path: Seq<char>) -> bool {
    &&& is_verbatim(path)
    &&& path.len() >= 6 && is_alpha(path[4]) && path[5] == ':'
    &&& path.len() > 6 ==> path[6] == '\\'
}

/// Whether the last name of a path is that of a file or a directory, however
/// the system reads what is before it.
pub open spec fn is_placed(path: Seq<char>) -> bool {
    ||| !is_share_or_device(path)
    ||| on_share(path)
    ||| on_verbatim_drive(path)
}

/// Where the last name of a path starts: behind the last separator or colon.
pub open spec fn name_start(path: Seq<char>) -> int
    decreases path.len(),
{
    if path.len() == 0 || is_separator(path.last()) || path.last() == ':' {
        path.len() as int
    } else {
        name_start(path.drop_last())
    }
}

/// The last name of a path.
pub open spec fn last_name(path: Seq<char>) -> Seq<char> {
    path.skip(name_start(path))
}

/// Where the last dot of a name is, or -1.
pub open spec fn last_dot(name: Seq<char>) -> int
    decreases name.len(),
{
    if name.len() == 0 || name.last() == '.' {
        name.len() - 1
    } else {
        last_dot(name.drop_last())
    }
}

/// Whether the last name of a path has an extension: there is a dot in it
/// behind its start, and more than a dot before that.
pub open spec fn has_extension(path: Seq<char>) -> bool {
    let name = last_name(path);
    &&& is_placed(path)
    &&& last_dot(name) > 0
    &&& last_dot(name) == 1 ==> name[0] != '.'
}

/// Whether a path ends in a name without an extension: it has no dots at all,
/// or slashes for its only separators and no dot in its last name but at the
/// start.
pub open spec fn has_bare_name(path: Seq<char>) -> bool {
    &&& last_name(path).len() > 0
    &&& {
        ||| is_placed(path) && !path.contains('.')
        ||| {
            &&& !is_share_or_device(path)
            &&& !path.contains('\\') && !path.contains(':')
            &&& last_dot(last_name(path)) <= 0
            &&& last_name(path) != seq!['.']
        }
    }
}

/// Whether a path has slashes for its only separators and names no file: it
/// is empty or ends in `..`.
pub open spec fn has_no_name(path: Seq<char>) -> bool {
    &&& !is_share_or_device(path)
    &&& !path.contains('\\') && !path.contains(':')
    &&& path.len() == 0 || last_name(path) == seq!['.', '.']
}

/// A path that has an extension, with another one in its place.
pub open spec fn replaced_extension(path: Seq<char>, extension: Seq<char>) -> Seq<char> {
    path.take(name_start(path) + last_dot(last_name(path))) + seq!['.'] + extension
}

/// Whether a path is another one with its extension replaced, or with the
/// extension behind its name where it has none. A path that names no file is
/// left as it is.
pub open spec fn extends(path: Seq<char>, extension: Seq<char>, r: Seq<char>) -> bool {
    &&& has_extension(path) ==> r == replaced_extension(path, extension)
    &&& has_bare_name(path) ==> r == path + seq!['.'] + extension
    &&& has_no_name(path) ==> r == path
}

/// `std::path::Path::with_extension`, between texts: replaces the extension
/// of the last name, or adds one, and leaves a path without a file name as it
/// is. A separator in the extension would be a panic.
///
/// What the system takes for a separator, a drive or a share differs, so this
/// is stated where that makes no difference. Left unsaid are names without an
/// extension behind dots and backslashes or colons, names of two dots and one
/// extension, paths that end in a separator or in a `.` of its own, and those
/// of devices.
#[verifier::external_body]
pub(crate) fn with_extension(path: &str, extension: &str) -> (r: String)
    requires
        extension@.len() > 0,
        !extension@.contains('\\'),
        !extension@.contains('/'),
    ensures
        extends(path@, extension@, r@),
{
    Path::new(path).with_extension(extension).to_string_lossy().into_owned()
}

proof fn name_start_bounds(path: Seq<char>)
    ensures
        0 <= name_start(path) <= path.len(),
    decreases path.len(),
{
    if path.len() > 0 && !is_separator(path.last()) && path.last() != ':' {
        name_start_bounds(path.drop_last());
    }
}

proof fn nothing_behind_the_last_dot(name: Seq<char>)
    ensures
        -1 <= last_dot(name) < name.len(),
        last_dot(name) >= 0 ==> name[last_dot(name)] == '.',
        forall|j: int| last_dot(name) < j < name.len() ==> name[j] != '.',
    decreases name.len(),
{
    if name.len() > 0 && name.last() != '.' {
        let front = name.drop_last();
        nothing_behind_the_last_dot(front);
        assert forall|j: int| last_dot(name) < j < name.len() implies name[j] != '.' by {
            if j < front.len() {
                assert(front[j] == name[j]);
            }
        }
    }
}

/// An extension that itself has a dot makes another path of one that ends in
/// the name of a file.
pub proof fn dotted_extension_changes_the_path(
    path: Seq<char>,
    extension: Seq<char>,
    r: Seq<char>,
)
    requires
        extends(path, extension, r),
        extension.contains('.'),
        has_extension(path) || has_bare_name(path),
    ensures
        r != path,
{
    if has_extension(path) {
        let name = last_name(path);
        let end = name_start(path) + last_dot(name);
        name_start_bounds(path);
        nothing_behind_the_last_dot(name);
        let k = choose|k: int| 0 <= k < extension.len() && extension[k] == '.';
        assert(r[end + 1 + k] == '.');
        if r == path {
            let j = end + 1 + k - name_start(path);
            assert(name[j] == path[end + 1 + k]);
        }
    }
}

proof fn next_separator_bounds(path: Seq<char>, from: int)
    requires
        0 <= from <= path.len(),
    ensures
        from <= next_separator(path, from) <= path.len(),
        next_separator(path, from) < path.len() ==> is_separator(
            path[next_separator(path, from)],
        ),
        forall|k: int| from <= k < next_separator(path, from) ==> !is_separator(path[k]),
    decreases path.len() - from,
{
    if from < path.len() && !is_separator(path[from]) {
        next_separator_bounds(path, from + 1);
    }
}

/// A separator that comes where none came before it is the next one.
proof fn next_separator_is(path: Seq<char>, from: int, at: int)
    requires
        0 <= from <= at < path.len(),
        is_separator(path[at]),
        forall|k: int| from <= k < at ==> !is_separator(path[k]),
    ensures
        next_separator(path, from) == at,
    decreases at - from,
{
    if from < at {
        next_separator_is(path, from + 1, at);
    }
}

/// What lies below a folder of a server is on a share.
pub proof fn below_a_server(dir: Seq<char>, folder: Seq<char>, name: Seq<char>)
    requires
        on_server(dir),
        folder.len() > 0,
        forall|k: int| 0 <= k < folder.len() ==> !is_separator(#[trigger] folder[k]),
    ensures
        on_share(path_below(path_below(dir, folder), name)),
{
    reveal_strlit("\\");
    let inner = path_below(dir, folder);
    let path = path_below(inner, name);
    let gap = inner.len() - folder.len();
    assert(forall|k: int| 0 <= k < dir.len() ==> path[k] == dir[k]);
    assert(forall|k: int| gap <= k < inner.len() ==> path[k] == folder[k - gap]);
    assert(inner.last() == folder.last());
    assert(path[inner.len() as int] == '\\');
    let i = next_separator(dir, 2);
    next_separator_bounds(dir, 2);
    if i < dir.len() {
        next_separator_is(path, 2, i);
        let j = next_separator(dir, i + 1);
        next_separator_bounds(dir, i + 1);
        if i + 1 == dir.len() {
            next_separator_is(path, i + 1, inner.len() as int);
        } else if j < dir.len() {
            next_separator_is(path, i + 1, j);
        } else {
            next_separator_is(path, i + 1, dir.len() as int);
        }
    } else {
        assert(!is_separator(dir.last()));
        next_separator_is(path, 2, i);
        next_separator_is(path, i + 1, inner.len() as int);
    }
}

/// Below a directory, the last name of a path is that of what lies there.
pub proof fn last_name_below(dir: Seq<char>, name: Seq<char>)
    requires
        dir.len() > 0,
        !is_separator(dir.last()),
        dir.last() != ':',
        forall|i: int|
            0 <= i < name.len() ==> !is_separator(#[trigger] name[i]) && name[i] != ':',
    ensures
        last_name(path_below(dir, name)) == name,
        name_start(path_below(dir, name)) == dir.len() + 1,
{
    reveal_strlit("\\");
    let front = dir + "\\"@;
    name_starts_behind(front, name);
    assert(front + name == path_below(dir, name));
    assert((front + name).skip(front.len() as int) =~= name);
}

pub(crate) proof fn name_starts_behind(front: Seq<char>, name: Seq<char>)
    requires
        front.len() > 0,
        is_separator(front.last()),
        forall|i: int|
            0 <= i < name.len() ==> !is_separator(#[trigger] name[i]) && name[i] != ':',
    ensures
        name_start(front + name) == front.len(),
    decreases name.len(),
{
    if name.len() > 0 {
        let rest = name.drop_last();
        assert((front + name).drop_last() =~= front + rest);
        assert((front + name).last() == name[name.len() - 1]);
        name_starts_behind(front, rest);
    } else {
        assert(front + name =~= front);
    }
}

} // verus!
