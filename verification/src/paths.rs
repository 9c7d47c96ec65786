//! Paths, held as text: joining a directory and a name, and telling a file
//! name's extension.

use crate::text::{chars_of, lemma_deep_view_push, matches_at};
use vstd::prelude::*;

verus! {

/// What `std::path::Path::join` makes of the path `base` and the path
/// `child`, both given as text.
pub uninterp spec fn path_join(base: Seq<char>, child: Seq<char>) -> Seq<char>;

/// Joins two paths with `std::path::Path::join`. Nothing is claimed of the
/// result but that it is the one that function gives for these two texts.
#[verifier::external_body]
pub(crate) fn join_path(base: &str, child: &str) -> (joined: String)
    ensures
        joined@ == path_join(base@, child@),
{
    std::path::Path::new(base).join(child).to_string_lossy().into_owned()
}

/// Each of `names` as a path below `dir`, in order.
pub fn join_each(dir: &str, names: &Vec<String>) -> (paths: Vec<String>)
    ensures
        paths.deep_view() == names.deep_view().map_values(
            |name: Seq<char>| path_join(dir@, name),
        ),
{
    let ghost below = |name: Seq<char>| path_join(dir@, name);
    let mut paths: Vec<String> = Vec::new();
    let mut i: usize = 0;
    while i < names.len()
        invariant
            i <= names.len(),
            below == |name: Seq<char>| path_join(dir@, name),
            paths.deep_view() == names.deep_view().take(i as int).map_values(below),
        decreases names.len() - i,
    {
        let ghost before = paths;
        let path = join_path(dir, names[i].as_str());
        paths.push(path);
        proof {
            lemma_deep_view_push(before, paths, path);
        }
        i += 1;
    }
    paths
}

/// The file name `name` has the extension `ext`: `ext` is what follows the
/// last `.` of the name, and that `.` is not the name's first character.
/// The name `..` has no extension.
pub open spec fn extension_is(name: Seq<char>, ext: Seq<char>) -> bool {
    &&& !ext.contains('.')
    &&& name.len() > ext.len() + 1
    &&& name[name.len() - ext.len() - 1] == '.'
    &&& name.subrange(name.len() - ext.len(), name.len() as int) == ext
    &&& name != seq!['.', '.']
}

/// Whether the file name `name` has the extension `ext`. `name` is one
/// component of a path, as a directory listing gives it, without separators.
pub fn has_extension(name: &str, ext: &str) -> (has: bool)
    ensures
        has == extension_is(name@, ext@),
{
    let whole = chars_of(name);
    let tail = chars_of(ext);
    let mut i: usize = 0;
    while i < tail.len()
        invariant
            i <= tail.len(),
            tail@ == ext@,
            forall|k: int| 0 <= k < i ==> ext@[k] != '.',
        decreases tail.len() - i,
    {
        if tail[i] == '.' {
            return false;
        }
        i += 1;
    }
    if whole.len() < 2 || whole.len() - 1 <= tail.len() {
        return false;
    }
    let start: usize = whole.len() - tail.len();
    if whole[start - 1] != '.' {
        return false;
    }
    if whole.len() == 2 && whole[0] == '.' && whole[1] == '.' {
        assert(name@ =~= seq!['.', '.']);
        return false;
    }
    let found = matches_at(&whole, &tail, start);
    found
}

} // verus!
