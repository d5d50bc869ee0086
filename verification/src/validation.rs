use vstd::prelude::*;

use crate::text::{contains_char, contains_run, contains_run_exec, str_chars};

verus! {

/// The two-character run `..`, refused anywhere in names and subpaths.
pub open spec fn parent_ref() -> Seq<char> {
    seq!['.', '.']
}

/// A vault name is non-empty and holds no `/`, no `\` and no `..`.
pub open spec fn valid_name(name: Seq<char>) -> bool {
    &&& name.len() > 0
    &&& !name.contains('/')
    &&& !name.contains('\\')
    &&& !contains_run(name, parent_ref())
}

/// A subpath holds no `..`, does not start with `/` and holds no `\`.
pub open spec fn valid_subpath(path: Seq<char>) -> bool {
    &&& !contains_run(path, parent_ref())
    &&& !(path.len() > 0 && path[0] == '/')
    &&& !path.contains('\\')
}

/// Validates a vault name used in path segments and filesystem paths.
pub fn is_valid_name(name: &str) -> (b: bool)
    ensures
        b == valid_name(name@),
{
    let chars = str_chars(name);
    let dots: Vec<char> = vec!['.', '.'];
    assert(dots@ == parent_ref());
    chars.len() > 0 && !contains_char(&chars, '/') && !contains_char(&chars, '\\')
        && !contains_run_exec(&chars, &dots)
}

/// Validates a subpath to avoid path traversal and absolute paths.
pub fn is_valid_subpath(path: &str) -> (b: bool)
    ensures
        b == valid_subpath(path@),
{
    let chars = str_chars(path);
    let dots: Vec<char> = vec!['.', '.'];
    assert(dots@ == parent_ref());
    !contains_run_exec(&chars, &dots) && !(chars.len() > 0 && chars[0] == '/')
        && !contains_char(&chars, '\\')
}

/// Which vault names are accepted, character by character: a name is valid exactly when it is
/// non-empty, no character is `/` or `\\`, and no two adjacent characters are both `.`.
/// Nothing else matters: letters of any case, digits, spaces and other characters all pass.
pub proof fn law_name_acceptance(name: Seq<char>)
    ensures
        valid_name(name) <==> (name.len() > 0 && (forall|i: int|
            0 <= i < name.len() ==> #[trigger] name[i] != '/' && name[i] != '\\') && (forall|i: int|
            0 <= i < name.len() - 1 ==> !(#[trigger] name[i] == '.' && name[i + 1] == '.'))),
{
    lemma_no_dot_pair(name);
}

/// Which subpaths are accepted, character by character: a subpath is valid exactly when it
/// does not start with `/`, no character is `\\`, and no two adjacent characters are both
/// `.` (the empty subpath is valid).
pub proof fn law_subpath_acceptance(path: Seq<char>)
    ensures
        valid_subpath(path) <==> (!(path.len() > 0 && path[0] == '/') && (forall|i: int|
            0 <= i < path.len() ==> #[trigger] path[i] != '\\') && (forall|i: int|
            0 <= i < path.len() - 1 ==> !(#[trigger] path[i] == '.' && path[i + 1] == '.'))),
{
    lemma_no_dot_pair(path);
}

proof fn lemma_no_dot_pair(s: Seq<char>)
    ensures
        contains_run(s, parent_ref()) <==> exists|i: int|
            0 <= i < s.len() - 1 && #[trigger] s[i] == '.' && s[i + 1] == '.',
{
    if contains_run(s, parent_ref()) {
        let i = choose|i: int|
            0 <= i && i + parent_ref().len() <= s.len() && #[trigger] s.subrange(
                i,
                i + parent_ref().len(),
            ) == parent_ref();
        assert(s.subrange(i, i + 2)[0] == s[i]);
        assert(s.subrange(i, i + 2)[1] == s[i + 1]);
    }
    if exists|i: int| 0 <= i < s.len() - 1 && #[trigger] s[i] == '.' && s[i + 1] == '.' {
        let i = choose|i: int| 0 <= i < s.len() - 1 && #[trigger] s[i] == '.' && s[i + 1] == '.';
        assert(s.subrange(i, i + 2) =~= parent_ref());
        assert(s.subrange(i, i + parent_ref().len()) == parent_ref());
    }
}

/// `path` starts at the root.
pub open spec fn is_absolute(path: Seq<char>) -> bool {
    path.len() > 0 && path[0] == '/'
}

/// `path` has a `..` component: a `..` that separators (or the path's ends) enclose.
pub open spec fn has_parent_component(path: Seq<char>) -> bool {
    exists|i: int|
        0 <= i && i + 2 <= path.len() && #[trigger] path.subrange(i, i + 2) == parent_ref() && (i
            == 0 || path[i - 1] == '/') && (i + 2 == path.len() || path[i + 2] == '/')
}

/// A valid subpath is relative, has no `..` component and no `\` (which other systems read
/// as a separator): joined onto a directory, it cannot climb out of it.
pub proof fn law_valid_subpath_stays_below(path: Seq<char>)
    requires
        valid_subpath(path),
    ensures
        !is_absolute(path),
        !has_parent_component(path),
        !path.contains('\\'),
{
    lemma_no_parent_component(path);
}

proof fn lemma_no_parent_component(path: Seq<char>)
    requires
        !contains_run(path, parent_ref()),
    ensures
        !has_parent_component(path),
{
    if has_parent_component(path) {
        let i = choose|i: int|
            0 <= i && i + 2 <= path.len() && #[trigger] path.subrange(i, i + 2) == parent_ref() && (
            i == 0 || path[i - 1] == '/') && (i + 2 == path.len() || path[i + 2] == '/');
        assert(parent_ref().len() == 2);
        assert(path.subrange(i, i + parent_ref().len()) == parent_ref());
    }
}

/// A valid vault name is one path component, not `..`, and itself a valid subpath.
pub proof fn law_valid_name_is_one_component(name: Seq<char>)
    requires
        valid_name(name),
    ensures
        name.len() > 0,
        !name.contains('/'),
        !has_parent_component(name),
        valid_subpath(name),
{
    lemma_no_parent_component(name);
    assert(!(name.len() > 0 && name[0] == '/')) by {
        if name.len() > 0 && name[0] == '/' {
            assert(name.contains('/'));
        }
    }
}

} // verus!
