//! A path as the names that it leads through, so that two ways of writing one
//! path, and a path and what lies below it, can be compared.

use vstd::prelude::*;

use crate::paths;
use crate::text::{self, split};

verus! {

/// The part names an entry: repeated separators and `.` do not. `..` counts as a
/// name like any other.
pub open spec fn is_name(part: Seq<char>) -> bool {
    part.len() > 0 && part != seq!['.']
}

/// The parts that name an entry.
pub open spec fn named(parts: Seq<Seq<char>>) -> Seq<Seq<char>>
    decreases parts.len(),
{
    if parts.len() == 0 {
        Seq::empty()
    } else if is_name(parts[0]) {
        seq![parts[0]] + named(parts.skip(1))
    } else {
        named(parts.skip(1))
    }
}

/// The names that the path leads through, as it is written: `..` is kept as a
/// name and does not lead back up, and no symlink is followed.
pub open spec fn names_of(path: Seq<char>) -> Seq<Seq<char>> {
    named(split::parts_of(path, text::only('/')))
}

/// `names` is the entry `dir` itself or lies somewhere below it.
pub open spec fn at_or_below(names: Seq<Seq<char>>, dir: Seq<Seq<char>>) -> bool {
    dir.is_prefix_of(names)
}

/// The text has no separator.
pub open spec fn unseparated(s: Seq<char>) -> bool {
    forall|k: int| 0 <= k < s.len() ==> #[trigger] s[k] != '/'
}

proof fn named_in_turn(before: Seq<Seq<char>>, after: Seq<Seq<char>>)
    ensures
        named(before + after) == named(before) + named(after),
    decreases before.len(),
{
    if before.len() == 0 {
        assert(before + after =~= after);
        assert(named(before) + named(after) =~= named(after));
    } else {
        named_in_turn(before.skip(1), after);
        assert((before + after).skip(1) =~= before.skip(1) + after);
        assert((before + after)[0] == before[0]);
        assert(named(before + after) =~= named(before) + named(after));
    }
}

/// A separator parts the names before it from the names after it.
pub proof fn names_across_a_separator(before: Seq<char>, after: Seq<char>)
    ensures
        names_of(before.push('/') + after) == names_of(before) + names_of(after),
{
    let sep = text::only('/');
    split::parts_across_a_separator(before, '/', after, sep);
    named_in_turn(split::parts_of(before, sep), split::parts_of(after, sep));
}

/// The empty path leads through nothing.
pub proof fn empty_path_has_no_names()
    ensures
        names_of(Seq::empty()) == Seq::<Seq<char>>::empty(),
        names_of(seq!['.']) == Seq::<Seq<char>>::empty(),
{
    reveal_with_fuel(named, 2);
    let sep = text::only('/');
    split::unseparated_is_one_part(Seq::empty(), sep);
    split::unseparated_is_one_part(seq!['.'], sep);
    assert(seq![Seq::<char>::empty()].skip(1) =~= Seq::empty());
    assert(seq![seq!['.']].skip(1) =~= Seq::empty());
}

/// A name alone is its own path.
pub proof fn name_is_one_name(name: Seq<char>)
    requires
        is_name(name),
        unseparated(name),
    ensures
        names_of(name) == seq![name],
{
    reveal_with_fuel(named, 2);
    let sep = text::only('/');
    assert forall|k: int| 0 <= k < name.len() implies !sep(#[trigger] name[k]) by {
        assert(name[k] != '/');
    }
    split::unseparated_is_one_part(name, sep);
    assert(seq![name].skip(1) =~= Seq::empty());
    assert(named(seq![name]) =~= seq![name]);
}

/// The first `k` characters of `name` stand in `path` from `at` on, and none of
/// them is a separator.
pub open spec fn spelled(path: Seq<char>, at: int, name: Seq<char>, k: nat) -> bool
    decreases k,
{
    k == 0 || {
        &&& name[k - 1] == path[at + k - 1]
        &&& name[k - 1] != '/'
        &&& spelled(path, at, name, (k - 1) as nat)
    }
}

proof fn spelled_out(path: Seq<char>, at: int, name: Seq<char>, k: nat)
    requires
        spelled(path, at, name, k),
    ensures
        forall|j: int| 0 <= j < k ==> #[trigger] name[j] == path[at + j] && name[j] != '/',
    decreases k,
{
    if k > 0 {
        spelled_out(path, at, name, (k - 1) as nat);
    }
}

/// The name that stands in a path from `at` on.
pub open spec fn stands_at(path: Seq<char>, at: int, name: Seq<char>) -> bool {
    let end = at + name.len();
    &&& name.len() > 1
    &&& 0 <= at
    &&& end <= path.len()
    &&& spelled(path, at, name, name.len())
    &&& end == path.len() || path[end] == '/'
}

/// A path that is one name.
pub proof fn lone_name(path: Seq<char>)
    requires
        stands_at(path, 0, path),
    ensures
        names_of(path) == seq![path],
{
    spelled_out(path, 0, path, path.len());
    name_is_one_name(path);
}

/// The name that follows a separator, and the path that is left below it.
pub proof fn next_name(path: Seq<char>, from: int, name: Seq<char>)
    requires
        0 <= from < path.len(),
        path[from] == '/',
        stands_at(path, from + 1, name),
    ensures
        names_of(path.skip(from)) == seq![name] + names_of(path.skip(from + 1 + name.len())),
{
    let none = Seq::<char>::empty();
    let end = from + 1 + name.len();
    let rest = path.skip(end);
    spelled_out(path, from + 1, name, name.len());
    empty_path_has_no_names();
    name_is_one_name(name);
    assert(path.skip(from) =~= none.push('/') + (name + rest)) by {
        assert forall|k: int| 0 <= k < name.len() implies path[from + 1 + k]
            == #[trigger] name[k] by {}
    }
    names_across_a_separator(none, name + rest);
    if rest.len() == 0 {
        assert(name + rest =~= name);
        assert(rest =~= none);
    } else {
        let below = rest.skip(1);
        assert(rest[0] == '/');
        assert(name + rest =~= name.push('/') + below);
        assert(rest =~= none.push('/') + below);
        names_across_a_separator(name, below);
        names_across_a_separator(none, below);
    }
    assert(names_of(path.skip(from)) =~= seq![name] + names_of(rest));
}

/// A relative path of two names.
pub proof fn two_names(path: Seq<char>, first: Seq<char>, second: Seq<char>)
    requires
        path.len() == first.len() + 1 + second.len(),
        stands_at(path, 0, first),
        stands_at(path, first.len() + 1int, second),
    ensures
        names_of(path) == seq![first, second],
{
    let n = first.len() as int;
    spelled_out(path, 0, first, first.len());
    spelled_out(path, n + 1, second, second.len());
    name_is_one_name(first);
    name_is_one_name(second);
    assert(path =~= first.push('/') + second) by {
        assert forall|k: int| 0 <= k < second.len() implies path[n + 1 + k]
            == #[trigger] second[k] by {}
    }
    names_across_a_separator(first, second);
    assert(names_of(path) =~= seq![first, second]);
}

/// Joining a relative path appends its names.
pub proof fn names_of_joined(base: Seq<char>, path: Seq<char>)
    requires
        !paths::is_absolute(path),
    ensures
        names_of(paths::joined(base, path)) == names_of(base) + names_of(path),
{
    empty_path_has_no_names();
    if base.len() == 0 {
        assert(base =~= Seq::empty());
        assert(base + path =~= path);
        assert(names_of(base) + names_of(path) =~= names_of(path));
    } else if base.last() == '/' {
        let dir = base.drop_last();
        assert(base =~= dir.push('/') + Seq::empty());
        assert(base + path =~= dir.push('/') + path);
        names_across_a_separator(dir, Seq::empty());
        names_across_a_separator(dir, path);
        assert(names_of(base) =~= names_of(dir));
    } else {
        names_across_a_separator(base, path);
    }
}

/// What is at or below a directory differs from it in none of its names.
pub proof fn not_below(names: Seq<Seq<char>>, dir: Seq<Seq<char>>, k: int)
    requires
        0 <= k < dir.len(),
        k < names.len() ==> names[k] != dir[k],
    ensures
        !at_or_below(names, dir),
{
    if at_or_below(names, dir) {
        assert(names.subrange(0, dir.len() as int)[k] == names[k]);
    }
}

} // verus!
