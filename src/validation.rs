//! The naming rules of the registry: which strings may be package names.

use vstd::prelude::*;
use crate::text::push_char;

verus! {

/// The longest name accepted, in characters.
pub const MAX_NAME_LENGTH: usize = 64;

/// Why a string is not an acceptable package name.
#[derive(Debug)]
pub enum InvalidCrateName {
    /// More than `MAX_NAME_LENGTH` characters.
    TooLong { name: String },
    /// No characters at all.
    Empty,
    /// The first character is an ASCII digit.
    StartWithDigit { name: String },
    /// The first character is neither an ASCII letter nor an ASCII digit.
    Start { first_char: char, name: String },
    /// A later character is not ASCII alphanumeric, `-` or `_`.
    Char { ch: char, name: String },
}

/// The model of an [`InvalidCrateName`]: the same cases, with the name as a
/// sequence of characters.
pub enum NameFault {
    TooLong { name: Seq<char> },
    Empty,
    StartWithDigit { name: Seq<char> },
    Start { first_char: char, name: Seq<char> },
    Char { ch: char, name: Seq<char> },
}

impl View for InvalidCrateName {
    type V = NameFault;

    open spec fn view(&self) -> NameFault {
        match self {
            InvalidCrateName::TooLong { name } => NameFault::TooLong { name: name@ },
            InvalidCrateName::Empty => NameFault::Empty,
            InvalidCrateName::StartWithDigit { name } => NameFault::StartWithDigit { name: name@ },
            InvalidCrateName::Start { first_char, name } => NameFault::Start {
                first_char: *first_char,
                name: name@,
            },
            InvalidCrateName::Char { ch, name } => NameFault::Char { ch: *ch, name: name@ },
        }
    }
}

/// `c` is one of `'0'..='9'`.
pub open spec fn is_ascii_digit(c: char) -> bool {
    '0' <= c && c <= '9'
}

/// `c` is an ASCII letter.
pub open spec fn is_ascii_alpha(c: char) -> bool {
    ('a' <= c && c <= 'z') || ('A' <= c && c <= 'Z')
}

/// `c` may stand after the first character of a name.
pub open spec fn is_name_char(c: char) -> bool {
    is_ascii_alpha(c) || is_ascii_digit(c) || c == '-' || c == '_'
}

/// `k` is the position of the first character after the first one that
/// may not stand in a name.
pub open spec fn is_first_bad(s: Seq<char>, k: int) -> bool {
    &&& 1 <= k < s.len()
    &&& !is_name_char(s[k])
    &&& forall|j: int| 1 <= j < k ==> is_name_char(#[trigger] s[j])
}

/// The fault of `s` as a name, if it has one. The rules are tried in this
/// order: length, emptiness, first character, the remaining characters
/// (the first offending one is reported).
pub open spec fn name_fault(s: Seq<char>) -> Option<NameFault> {
    if s.len() > MAX_NAME_LENGTH {
        Some(NameFault::TooLong { name: s })
    } else if s.len() == 0 {
        Some(NameFault::Empty)
    } else if is_ascii_digit(s[0]) {
        Some(NameFault::StartWithDigit { name: s })
    } else if !is_ascii_alpha(s[0]) {
        Some(NameFault::Start { first_char: s[0], name: s })
    } else if exists|k: int| is_first_bad(s, k) {
        Some(NameFault::Char { ch: s[choose|k: int| is_first_bad(s, k)], name: s })
    } else {
        None
    }
}

/// `s` is an acceptable name.
pub open spec fn is_valid_name(s: Seq<char>) -> bool {
    name_fault(s) is None
}

/// A valid name is 1 to `MAX_NAME_LENGTH` characters long, starts with an
/// ASCII letter and goes on with ASCII letters, digits, `-` and `_`.
pub proof fn lemma_valid_name_shape(s: Seq<char>)
    ensures
        is_valid_name(s) <==> {
            &&& 0 < s.len() <= MAX_NAME_LENGTH
            &&& is_ascii_alpha(s[0])
            &&& forall|i: int| 1 <= i < s.len() ==> is_name_char(#[trigger] s[i])
        },
{
    if 0 < s.len() <= MAX_NAME_LENGTH && is_ascii_alpha(s[0]) {
        if !(forall|i: int| 1 <= i < s.len() ==> is_name_char(#[trigger] s[i])) {
            let k = first_bad_from(s, 1);
            assert(is_first_bad(s, k));
        }
    }
}

/// Finds the first offending position at or after `from`, given that one
/// exists and none lies between 1 and `from`.
proof fn first_bad_from(s: Seq<char>, from: int) -> (k: int)
    requires
        1 <= from <= s.len(),
        forall|j: int| 1 <= j < from ==> is_name_char(#[trigger] s[j]),
        exists|i: int| from <= i < s.len() && !is_name_char(#[trigger] s[i]),
    ensures
        is_first_bad(s, k),
    decreases s.len() - from,
{
    if !is_name_char(s[from]) {
        from
    } else {
        first_bad_from(s, from + 1)
    }
}

fn is_ascii_digit_exec(c: char) -> (r: bool)
    ensures
        r == is_ascii_digit(c),
{
    '0' <= c && c <= '9'
}

fn is_ascii_alpha_exec(c: char) -> (r: bool)
    ensures
        r == is_ascii_alpha(c),
{
    ('a' <= c && c <= 'z') || ('A' <= c && c <= 'Z')
}

fn is_name_char_exec(c: char) -> (r: bool)
    ensures
        r == is_name_char(c),
{
    is_ascii_alpha_exec(c) || is_ascii_digit_exec(c) || c == '-' || c == '_'
}

/// Checks `name` against the naming rules.
pub fn validate_crate_name(name: &str) -> (r: Result<(), InvalidCrateName>)
    ensures
        match r {
            Ok(()) => name_fault(name@) is None,
            Err(e) => name_fault(name@) == Some(e@),
        },
{
    let n = name.unicode_len();
    if n > MAX_NAME_LENGTH {
        return Err(InvalidCrateName::TooLong { name: name.to_owned() });
    }
    if n == 0 {
        return Err(InvalidCrateName::Empty);
    }
    let first = name.get_char(0);
    if is_ascii_digit_exec(first) {
        return Err(InvalidCrateName::StartWithDigit { name: name.to_owned() });
    }
    if !is_ascii_alpha_exec(first) {
        return Err(InvalidCrateName::Start { first_char: first, name: name.to_owned() });
    }
    let mut i: usize = 1;
    while i < n
        invariant
            1 <= i <= n,
            n == name@.len(),
            n <= MAX_NAME_LENGTH,
            is_ascii_alpha(name@[0]),
            forall|j: int| 1 <= j < i ==> is_name_char(#[trigger] name@[j]),
        decreases n - i,
    {
        let ch = name.get_char(i);
        if !is_name_char_exec(ch) {
            proof {
                let s = name@;
                assert(is_first_bad(s, i as int));
                let k = choose|k: int| is_first_bad(s, k);
                assert(k == i) by {
                    if k < i {
                        assert(is_name_char(s[k]));
                    } else if k > i {
                        assert(is_name_char(s[i as int]));
                    }
                }
            }
            return Err(InvalidCrateName::Char { ch, name: name.to_owned() });
        }
        i = i + 1;
    }
    proof {
        let s = name@;
        assert forall|k: int| !is_first_bad(s, k) by {
            if is_first_bad(s, k) {
                assert(is_name_char(s[k]));
            }
        }
    }
    Ok(())
}

/// The message that describes a fault.
pub open spec fn fault_message(f: NameFault) -> Seq<char> {
    match f {
        NameFault::TooLong { name } => "crate name `"@ + name
            + "` is too long (max 64 characters)"@,
        NameFault::Empty => "crate name cannot be empty"@,
        NameFault::StartWithDigit { name } => "the name `"@ + name + "` cannot start with a digit"@,
        NameFault::Start { first_char, name } => "invalid character `"@.push(first_char)
            + "` in crate name: `"@ + name
            + "`, the first character must be an ASCII character"@,
        NameFault::Char { ch, name } => "invalid character `"@.push(ch) + "` in crate name: `"@
            + name + "`, characters must be ASCII alphanumeric, `-`, or `_`"@,
    }
}

impl InvalidCrateName {
    /// A sentence that tells a person what is wrong with the name.
    pub fn to_string(&self) -> (r: String)
        ensures
            r@ == fault_message(self@),
    {
        match self {
            InvalidCrateName::TooLong { name } => {
                let mut m = String::from_str("crate name `");
                m.append(name.as_str());
                m.append("` is too long (max 64 characters)");
                m
            },
            InvalidCrateName::Empty => String::from_str("crate name cannot be empty"),
            InvalidCrateName::StartWithDigit { name } => {
                let mut m = String::from_str("the name `");
                m.append(name.as_str());
                m.append("` cannot start with a digit");
                m
            },
            InvalidCrateName::Start { first_char, name } => {
                let mut m = String::from_str("invalid character `");
                push_char(&mut m, *first_char);
                m.append("` in crate name: `");
                m.append(name.as_str());
                m.append("`, the first character must be an ASCII character");
                m
            },
            InvalidCrateName::Char { ch, name } => {
                let mut m = String::from_str("invalid character `");
                push_char(&mut m, *ch);
                m.append("` in crate name: `");
                m.append(name.as_str());
                m.append("`, characters must be ASCII alphanumeric, `-`, or `_`");
                m
            },
        }
    }
}

} // verus!
