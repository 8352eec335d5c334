//! Names and paths derived from user input: the safe name of an application,
//! the label of a host, the extension of an icon, and path joining.

use crate::text::{append_chars, char_is_alphanumeric, from_chars, is_alphanumeric, to_chars};
use vstd::string::*;
use vstd::prelude::*;

verus! {

/// A character that may stand in a safe name: `[A-Za-z0-9_]`.
pub open spec fn is_safe_char(c: char) -> bool {
    is_alphanumeric(c) || c == '_'
}

/// A space becomes an underscore; every other character stays.
pub open spec fn underscore_space(c: char) -> char {
    if c == ' ' {
        '_'
    } else {
        c
    }
}

/// The safe name of an application: spaces become underscores, then every
/// character outside `[A-Za-z0-9_]` is dropped.
pub open spec fn safe_name_of(name: Seq<char>) -> Seq<char> {
    name.map_values(|c: char| underscore_space(c)).filter(|c: char| is_safe_char(c))
}

/// The safe name of an application, see [`safe_name_of`].
pub fn safe_name(name: &str) -> (safe: String)
    ensures
        safe@ == safe_name_of(name@),
        forall|i: int| 0 <= i < safe@.len() ==> is_safe_char(#[trigger] safe@[i]),
{
    let source = to_chars(name);
    let mut kept: Vec<char> = Vec::new();
    let ghost mapped = name@.map_values(|c: char| underscore_space(c));
    let ghost keep = |c: char| is_safe_char(c);
    let mut i: usize = 0;
    while i < source.len()
        invariant
            i <= source.len(),
            source@ == name@,
            mapped == name@.map_values(|c: char| underscore_space(c)),
            keep == (|c: char| is_safe_char(c)),
            kept@ == mapped.take(i as int).filter(keep),
            forall|j: int| 0 <= j < kept@.len() ==> is_safe_char(#[trigger] kept@[j]),
        decreases source.len() - i,
    {
        let c = if source[i] == ' ' {
            '_'
        } else {
            source[i]
        };
        proof {
            reveal(Seq::filter);
            assert(mapped.take(i + 1).drop_last() == mapped.take(i as int));
            assert(mapped.take(i + 1).last() == c);
        }
        if char_is_alphanumeric(c) || c == '_' {
            kept.push(c);
        }
        i += 1;
    }
    assert(mapped.take(source.len() as int) == mapped);
    from_chars(&kept)
}

/// A safe name holds no character outside `[A-Za-z0-9_]`, is no longer than
/// the name it comes from, and holds an underscore wherever it holds what was
/// a space: no space is left in it.
pub proof fn lemma_safe_name_is_safe(name: Seq<char>)
    ensures
        forall|i: int|
            0 <= i < safe_name_of(name).len() ==> is_safe_char(#[trigger] safe_name_of(name)[i]),
        forall|i: int| 0 <= i < safe_name_of(name).len() ==> #[trigger] safe_name_of(name)[i] != ' ',
        safe_name_of(name).len() <= name.len(),
{
    let mapped = name.map_values(|c: char| underscore_space(c));
    let keep = |c: char| is_safe_char(c);
    mapped.lemma_filter_len(keep);
    assert forall|i: int| 0 <= i < mapped.filter(keep).len() implies is_safe_char(
        #[trigger] mapped.filter(keep)[i],
    ) by {
        mapped.lemma_filter_pred(keep, i);
    }
}

/// A name made of safe characters alone is its own safe name.
pub proof fn lemma_safe_name_keeps_safe_names(name: Seq<char>)
    requires
        forall|i: int| 0 <= i < name.len() ==> is_safe_char(#[trigger] name[i]),
    ensures
        safe_name_of(name) == name,
    decreases name.len(),
{
    let mapped = name.map_values(|c: char| underscore_space(c));
    let keep = |c: char| is_safe_char(c);
    assert(mapped == name);
    reveal(Seq::filter);
    if name.len() > 0 {
        let front = name.drop_last();
        assert forall|i: int| 0 <= i < front.len() implies is_safe_char(#[trigger] front[i]) by {
            assert(front[i] == name[i]);
        }
        lemma_safe_name_keeps_safe_names(front);
        assert(front.map_values(|c: char| underscore_space(c)) == front);
        assert(is_safe_char(name.last()));
        assert(front.push(name.last()) == name);
    }
}

/// A character that may stand in a host label: `[A-Za-z0-9-]`.
pub open spec fn is_label_char(c: char) -> bool {
    is_alphanumeric(c) || c == '-'
}

/// The label under which a host's icon is cached: the host without every
/// character outside `[A-Za-z0-9-]`.
pub open spec fn host_label_of(host: Seq<char>) -> Seq<char> {
    host.filter(|c: char| is_label_char(c))
}

/// The label under which a host's icon is cached, see [`host_label_of`].
pub fn host_label(host: &str) -> (label: String)
    ensures
        label@ == host_label_of(host@),
        forall|i: int| 0 <= i < label@.len() ==> is_label_char(#[trigger] label@[i]),
{
    let source = to_chars(host);
    let mut kept: Vec<char> = Vec::new();
    let ghost keep = |c: char| is_label_char(c);
    let mut i: usize = 0;
    while i < source.len()
        invariant
            i <= source.len(),
            source@ == host@,
            keep == (|c: char| is_label_char(c)),
            kept@ == host@.take(i as int).filter(keep),
            forall|j: int| 0 <= j < kept@.len() ==> is_label_char(#[trigger] kept@[j]),
        decreases source.len() - i,
    {
        let c = source[i];
        proof {
            reveal(Seq::filter);
            assert(host@.take(i + 1).drop_last() == host@.take(i as int));
            assert(host@.take(i + 1).last() == c);
        }
        if char_is_alphanumeric(c) || c == '-' {
            kept.push(c);
        }
        i += 1;
    }
    assert(host@.take(source.len() as int) == host@);
    from_chars(&kept)
}

/// The position of the last `.` in `path`, or `-1` when it holds none.
pub open spec fn last_dot(path: Seq<char>) -> int
    decreases path.len(),
{
    if path.len() == 0 {
        -1
    } else if path.last() == '.' {
        path.len() - 1
    } else {
        last_dot(path.drop_last())
    }
}

/// The extension of an icon: what follows the last `.` of the path, or
/// `png` when the path holds no `.`.
pub open spec fn extension_of(path: Seq<char>) -> Seq<char> {
    let dot = last_dot(path);
    if dot < 0 {
        "png"@
    } else {
        path.skip(dot + 1)
    }
}

/// `last_dot` marks a `.` after which no other `.` follows, and is negative
/// exactly when the path holds none.
pub proof fn lemma_last_dot(path: Seq<char>)
    ensures
        -1 <= last_dot(path) < path.len(),
        last_dot(path) >= 0 ==> path[last_dot(path)] == '.',
        forall|j: int| last_dot(path) < j < path.len() ==> path[j] != '.',
    decreases path.len(),
{
    if path.len() > 0 && path.last() != '.' {
        let front = path.drop_last();
        lemma_last_dot(front);
        assert forall|j: int| last_dot(path) < j < path.len() implies path[j] != '.' by {
            if j < front.len() {
                assert(front[j] == path[j]);
            }
        }
    }
}

/// A position that holds a `.` with none after it is the last dot.
pub proof fn lemma_last_dot_is(path: Seq<char>, dot: int)
    requires
        -1 <= dot < path.len(),
        dot >= 0 ==> path[dot] == '.',
        forall|j: int| dot < j < path.len() ==> path[j] != '.',
    ensures
        last_dot(path) == dot,
{
    lemma_last_dot(path);
}

/// The extension of an icon, see [`extension_of`].
pub fn extension(path: &str) -> (ext: String)
    ensures
        ext@ == extension_of(path@),
{
    let source = to_chars(path);
    let mut end: usize = source.len();
    while end > 0 && source[end - 1] != '.'
        invariant
            end <= source.len(),
            forall|j: int| end <= j < source.len() ==> source@[j] != '.',
        decreases end,
    {
        end -= 1;
    }
    proof {
        lemma_last_dot_is(source@, end as int - 1);
    }
    if end == 0 {
        return "png".to_string();
    }
    let mut tail: Vec<char> = Vec::new();
    let mut i: usize = end;
    while i < source.len()
        invariant
            end <= i <= source.len(),
            tail@ == source@.subrange(end as int, i as int),
        decreases source.len() - i,
    {
        tail.push(source[i]);
        i += 1;
    }
    assert(source@.subrange(end as int, source.len() as int) == source@.skip(end as int));
    from_chars(&tail)
}

/// `child` placed under the directory `base`, as a path is extended on a
/// system whose separator is `/`: an absolute `child` replaces `base`, and a
/// separator is inserted unless `base` is empty or already ends in one.
pub open spec fn join_path_of(base: Seq<char>, child: Seq<char>) -> Seq<char> {
    if child.len() > 0 && child[0] == '/' {
        child
    } else if base.len() == 0 || base.last() == '/' {
        base + child
    } else {
        base + seq!['/'] + child
    }
}

/// A path placed under a directory, see [`join_path_of`].
pub fn join_path(base: &str, child: &str) -> (path: String)
    ensures
        path@ == join_path_of(base@, child@),
{
    let head = to_chars(base);
    let tail = to_chars(child);
    if tail.len() > 0 && tail[0] == '/' {
        return from_chars(&tail);
    }
    let mut joined = head;
    if joined.len() > 0 && joined[joined.len() - 1] != '/' {
        joined.push('/');
    }
    append_chars(&mut joined, &tail);
    from_chars(&joined)
}

} // verus!
