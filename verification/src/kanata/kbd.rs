//! The `.kbd` files of a kanata user.

use vstd::prelude::*;

use crate::text::order::{self, sort};
use crate::text::{self, chars_of, ends_with, slice_of};

verus! {

broadcast use vstd::string::group_string_axioms;

/// The file name has a stem and the extension `kbd`.
pub open spec fn is_kbd(file: Seq<char>) -> bool {
    text::ends(file, ".kbd"@) && file.len() > 4
}

/// A `.kbd` file's name without the extension.
pub open spec fn stem_of(file: Seq<char>) -> Seq<char> {
    if text::ends(file, ".kbd"@) {
        file.take(file.len() - 4)
    } else {
        file
    }
}

/// A `.kbd` file's name without the extension.
pub fn stem(file: &str) -> (r: String)
    ensures
        r@ == stem_of(file@),
{
    proof {
        reveal_strlit(".kbd");
    }
    if ends_with(file, ".kbd") {
        let cs = chars_of(file);
        let r = slice_of(cs.as_slice(), 0, cs.len() - 4);
        assert(r@ =~= file@.take(file@.len() - 4));
        r
    } else {
        file.to_owned()
    }
}

/// The `.kbd` files among the names, in the names' order.
pub open spec fn kbd_names(names: Seq<Seq<char>>) -> Seq<Seq<char>>
    decreases names.len(),
{
    if names.len() == 0 {
        Seq::empty()
    } else if is_kbd(names.last()) {
        kbd_names(names.drop_last()).push(names.last())
    } else {
        kbd_names(names.drop_last())
    }
}

/// The `.kbd` files among the file names of a directory, sorted.
pub fn kbd_files(names: &Vec<String>) -> (r: Vec<String>)
    ensures
        order::in_order(r.deep_view()),
        r.deep_view().to_multiset() == kbd_names(names.deep_view()).to_multiset(),
{
    let mut found: Vec<String> = Vec::new();
    let ghost all = names.deep_view();
    let mut i: usize = 0;
    assert(found.deep_view() =~= Seq::<Seq<char>>::empty());
    proof {
        reveal_strlit(".kbd");
    }
    while i < names.len()
        invariant
            i <= names@.len(),
            all == names.deep_view(),
            found.deep_view() == kbd_names(all.take(i as int)),
            ".kbd"@.len() == 4,
        decreases names@.len() - i,
    {
        let ghost before = found.deep_view();
        assert(all.take(i + 1).drop_last() =~= all.take(i as int));
        assert(all.take(i + 1).last() == names@[i as int]@);
        let name = names[i].as_str();
        if ends_with(name, ".kbd") && name.unicode_len() > 4 {
            found.push(names[i].clone());
            assert(found.deep_view() =~= before.push(names@[i as int]@));
        }
        i += 1;
    }
    assert(all.take(i as int) =~= all);
    sort(&found)
}

/// A name with the extension put on has that name as its stem, and is a `.kbd`
/// file unless the name is empty.
pub proof fn stem_drops_the_extension(name: Seq<char>)
    ensures
        stem_of(name + ".kbd"@) == name,
        is_kbd(name + ".kbd"@) <==> name.len() > 0,
{
    reveal_strlit(".kbd");
    let file = name + ".kbd"@;
    assert(file.subrange(file.len() - 4, file.len() as int) =~= ".kbd"@);
    assert(file.take(file.len() - 4) =~= name);
}

/// Exactly the `.kbd` files among the names are kept.
pub proof fn kbd_files_are_kept(names: Seq<Seq<char>>, file: Seq<char>)
    ensures
        kbd_names(names).contains(file) <==> names.contains(file) && is_kbd(file),
    decreases names.len(),
{
    if names.len() > 0 {
        let before = names.drop_last();
        kbd_files_are_kept(before, file);
        let kept = kbd_names(before);
        if names.contains(file) {
            let k = choose|k: int| 0 <= k < names.len() && names[k] == file;
            if k < before.len() {
                assert(before[k] == file);
            }
        }
        if before.contains(file) {
            let k = choose|k: int| 0 <= k < before.len() && before[k] == file;
            assert(names[k] == file);
        }
        assert(names[names.len() - 1] == names.last());
        if kept.contains(file) {
            let k = choose|k: int| 0 <= k < kept.len() && kept[k] == file;
            assert(kbd_names(names)[k] == file);
        }
        if is_kbd(names.last()) {
            assert(kbd_names(names)[kept.len() as int] == names.last());
        }
    }
}

} // verus!
