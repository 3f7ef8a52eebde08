//! Canonical form of a name: lowercase, with `_` for every `-`. Two names
//! denote the same package exactly when their canonical forms are equal.

use vstd::prelude::*;
use crate::text::{
    ascii_lower, ascii_lower_char, is_ascii_char, is_ascii_text, is_ascii_upper, lowercase,
    replace_char, swap_char, to_lowercase, has_no_ascii_upper,
};
use crate::validation::{is_name_char, is_valid_name, lemma_valid_name_shape};

verus! {

/// `c` is one of the two separators that the registry treats as equal.
pub open spec fn is_separator(c: char) -> bool {
    c == '-' || c == '_'
}

/// The canonical form of `s`.
pub open spec fn canon(s: Seq<char>) -> Seq<char> {
    swap_char(lowercase(s), '-', '_')
}

/// `a` and `b` agree everywhere but where both hold a separator, which may
/// then differ.
pub open spec fn differ_only_in_separators(a: Seq<char>, b: Seq<char>) -> bool {
    &&& a.len() == b.len()
    &&& forall|i: int|
        0 <= i < a.len() ==> (#[trigger] a[i] == b[i] || (is_separator(a[i]) && is_separator(b[i])))
}

/// Lowercases `name` and replaces every `-` by `_`.
pub fn canon_crate_name(name: &str) -> (r: String)
    ensures
        r@ == canon(name@),
        !r@.contains('-'),
        has_no_ascii_upper(r@),
{
    let lowered = to_lowercase(name);
    let r = replace_char(lowered.as_str(), '-', '_');
    proof {
        lemma_canon_has_no_hyphen(name@);
        assert forall|i: int| 0 <= i < r@.len() implies !is_ascii_upper(#[trigger] r@[i]) by {
            assert(!is_ascii_upper(lowered@[i]));
        }
    }
    r
}

/// No `-` is left in a canonical form.
pub proof fn lemma_canon_has_no_hyphen(s: Seq<char>)
    ensures
        !canon(s).contains('-'),
{
    let c = canon(s);
    assert forall|i: int| 0 <= i < c.len() implies c[i] != '-' by {}
}

/// The canonical form of an ASCII text is ASCII and holds no capital letter.
pub proof fn lemma_canon_ascii(s: Seq<char>)
    requires
        is_ascii_text(s),
    ensures
        is_ascii_text(canon(s)),
        has_no_ascii_upper(canon(s)),
{
    let c = canon(s);
    assert forall|i: int| 0 <= i < c.len() implies is_ascii_char(c[i]) && !is_ascii_upper(c[i]) by {
        assert(is_ascii_char(s[i]));
        assert(c[i] == (if ascii_lower_char(s[i]) == '-' { '_' } else { ascii_lower_char(s[i]) }));
    }
}

/// Every character of a valid name is ASCII.
proof fn lemma_valid_name_is_ascii(s: Seq<char>)
    requires
        is_valid_name(s),
    ensures
        is_ascii_text(s),
{
    lemma_valid_name_shape(s);
    assert forall|i: int| 0 <= i < s.len() implies is_ascii_char(s[i]) by {
        if i > 0 {
            assert(is_name_char(s[i]));
        }
    }
}

/// Canonicalizing twice gives what canonicalizing once gives, for every
/// valid name.
pub proof fn lemma_canon_idempotent(n: Seq<char>)
    requires
        is_valid_name(n),
    ensures
        canon(canon(n)) == canon(n),
{
    lemma_valid_name_is_ascii(n);
    lemma_canon_ascii(n);
    let c = canon(n);
    assert(lowercase(c) == ascii_lower(c));
    assert(ascii_lower(c) =~= c);
    assert(swap_char(c, '-', '_') =~= c) by {
        lemma_canon_has_no_hyphen(n);
        assert forall|i: int| 0 <= i < c.len() implies c[i] != '-' by {
            assert(c.contains(c[i]));
        }
    }
}

/// Two ASCII names that differ only in which separator stands at each
/// separator position have the same canonical form.
pub proof fn lemma_canon_separator_blind(a: Seq<char>, b: Seq<char>)
    requires
        is_ascii_text(a),
        differ_only_in_separators(a, b),
    ensures
        canon(a) == canon(b),
{
    assert forall|i: int| 0 <= i < b.len() implies is_ascii_char(b[i]) by {
        assert(a[i] == b[i] || (is_separator(a[i]) && is_separator(b[i])));
    }
    assert(canon(a) =~= canon(b)) by {
        assert forall|i: int| 0 <= i < a.len() implies canon(a)[i] == canon(b)[i] by {
            assert(a[i] == b[i] || (is_separator(a[i]) && is_separator(b[i])));
        }
    }
}

/// The canonical form of an ASCII text is already lowercase, and the
/// canonical form of any text holds no `-`.
pub proof fn lemma_canon_is_lowercase(s: Seq<char>)
    ensures
        !canon(s).contains('-'),
        is_ascii_text(s) ==> lowercase(canon(s)) == canon(s),
{
    lemma_canon_has_no_hyphen(s);
    if is_ascii_text(s) {
        lemma_canon_ascii(s);
        assert(ascii_lower(canon(s)) =~= canon(s));
    }
}

} // verus!
