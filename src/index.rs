//! Where the sparse index keeps a name, and which spellings of a name are
//! looked up there.

use vstd::prelude::*;
use crate::text::{lowercase, push_char, replace_char, swap_char, to_lowercase};

verus! {

/// The address under which the index serves its files.
pub open spec fn index_root() -> Seq<char> {
    "https://index.crates.io/"@
}

/// The path of a name's file in the index: names of one, two and three
/// characters sit under `1/`, `2/` and `3/<first char>/`; longer names under
/// `<chars 1-2>/<chars 3-4>/`.
pub open spec fn index_path_of(s: Seq<char>) -> Seq<char> {
    if s.len() == 1 {
        seq!['1', '/'] + s
    } else if s.len() == 2 {
        seq!['2', '/'] + s
    } else if s.len() == 3 {
        seq!['3', '/', s[0], '/'] + s
    } else {
        s.take(2) + seq!['/'] + s.subrange(2, 4) + seq!['/'] + s
    }
}

/// The spellings of a name under which the index may hold it, in the order
/// they are tried: as typed but lowercased; with `_` for `-`; with `-` for
/// `_`. A spelling equal to an earlier one is left out.
pub open spec fn spellings(s: Seq<char>) -> Seq<Seq<char>> {
    let lowered = lowercase(s);
    let underscored = swap_char(lowered, '-', '_');
    let hyphenated = swap_char(underscored, '_', '-');
    seq![lowered] + (if underscored != lowered {
        seq![underscored]
    } else {
        seq![]
    }) + (if hyphenated != lowered && hyphenated != underscored {
        seq![hyphenated]
    } else {
        seq![]
    })
}

/// The path of `name`'s file in the sparse index.
pub fn index_path(name: &str) -> (r: String)
    requires
        name@.len() > 0,
    ensures
        r@ == index_path_of(name@),
{
    let n = name.unicode_len();
    let mut r = String::new();
    if n == 1 {
        push_char(&mut r, '1');
        push_char(&mut r, '/');
    } else if n == 2 {
        push_char(&mut r, '2');
        push_char(&mut r, '/');
    } else if n == 3 {
        push_char(&mut r, '3');
        push_char(&mut r, '/');
        push_char(&mut r, name.get_char(0));
        push_char(&mut r, '/');
    } else {
        r.append(name.substring_char(0, 2));
        push_char(&mut r, '/');
        r.append(name.substring_char(2, 4));
        push_char(&mut r, '/');
    }
    r.append(name);
    proof {
        assert(r@ =~= index_path_of(name@));
    }
    r
}

/// The address of `name`'s file in the sparse index.
pub fn index_url(name: &str) -> (r: String)
    requires
        name@.len() > 0,
    ensures
        r@ == index_root() + index_path_of(name@),
{
    let mut r = String::from_str("https://index.crates.io/");
    let path = index_path(name);
    r.append(path.as_str());
    r
}

/// The spellings of `name` to look up, in order.
pub fn index_spellings(name: &str) -> (r: Vec<String>)
    ensures
        r@.len() == spellings(name@).len(),
        forall|i: int| 0 <= i < r@.len() ==> (#[trigger] r@[i])@ == spellings(name@)[i],
{
    let lowered = to_lowercase(name);
    let underscored = replace_char(lowered.as_str(), '-', '_');
    let hyphenated = replace_char(underscored.as_str(), '_', '-');
    let ghost s = name@;
    assert(lowered@ == lowercase(s));
    let mut r: Vec<String> = Vec::new();
    let add_underscored = underscored != lowered;
    let add_hyphenated = hyphenated != lowered && hyphenated != underscored;
    r.push(lowered);
    if add_underscored {
        r.push(underscored);
    }
    if add_hyphenated {
        r.push(hyphenated);
    }
    proof {
        assert(r@.map_values(|x: String| x@) =~= spellings(s));
    }
    r
}

} // verus!
