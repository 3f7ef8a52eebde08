//! The names that the registry never lets anyone publish.

use vstd::prelude::*;
use crate::canon::{canon, canon_crate_name};

verus! {

/// The reserved names as the registry lists them: compiler internals, then
/// device names that Windows keeps for itself.
pub open spec fn reserved_entries() -> Seq<Seq<char>> {
    seq![
        "alloc"@,
        "arena"@,
        "ast"@,
        "builtins"@,
        "collections"@,
        "compiler-builtins"@,
        "compiler-rt"@,
        "compiletest"@,
        "core"@,
        "coretest"@,
        "debug"@,
        "driver"@,
        "flate"@,
        "fmt_macros"@,
        "grammar"@,
        "graphviz"@,
        "macro"@,
        "macros"@,
        "proc_macro"@,
        "rbml"@,
        "rust-installer"@,
        "rustbook"@,
        "rustc"@,
        "rustc_back"@,
        "rustc_borrowck"@,
        "rustc_driver"@,
        "rustc_llvm"@,
        "rustc_resolve"@,
        "rustc_trans"@,
        "rustc_typeck"@,
        "rustdoc"@,
        "rustllvm"@,
        "rustuv"@,
        "serialize"@,
        "std"@,
        "syntax"@,
        "test"@,
        "unicode"@,
        "nul"@,
        "con"@,
        "prn"@,
        "aux"@,
        "com0"@,
        "com1"@,
        "com2"@,
        "com3"@,
        "com4"@,
        "com5"@,
        "com6"@,
        "com7"@,
        "com8"@,
        "com9"@,
        "lpt0"@,
        "lpt1"@,
        "lpt2"@,
        "lpt3"@,
        "lpt4"@,
        "lpt5"@,
        "lpt6"@,
        "lpt7"@,
        "lpt8"@,
        "lpt9"@,
    ]
}

/// `c` is the canonical form of one of the reserved names.
pub open spec fn is_reserved(c: Seq<char>) -> bool {
    exists|i: int| 0 <= i < reserved_entries().len() && canon(#[trigger] reserved_entries()[i]) == c
}

/// The canonical forms of the reserved names.
pub open spec fn reserved_set() -> Set<Seq<char>> {
    Set::new(|c: Seq<char>| is_reserved(c))
}

fn reserved_list() -> (r: Vec<&'static str>)
    ensures
        r@.len() == reserved_entries().len(),
        forall|i: int| 0 <= i < r@.len() ==> (#[trigger] r@[i])@ == reserved_entries()[i],
{
    vec![
        "alloc",
        "arena",
        "ast",
        "builtins",
        "collections",
        "compiler-builtins",
        "compiler-rt",
        "compiletest",
        "core",
        "coretest",
        "debug",
        "driver",
        "flate",
        "fmt_macros",
        "grammar",
        "graphviz",
        "macro",
        "macros",
        "proc_macro",
        "rbml",
        "rust-installer",
        "rustbook",
        "rustc",
        "rustc_back",
        "rustc_borrowck",
        "rustc_driver",
        "rustc_llvm",
        "rustc_resolve",
        "rustc_trans",
        "rustc_typeck",
        "rustdoc",
        "rustllvm",
        "rustuv",
        "serialize",
        "std",
        "syntax",
        "test",
        "unicode",
        "nul",
        "con",
        "prn",
        "aux",
        "com0",
        "com1",
        "com2",
        "com3",
        "com4",
        "com5",
        "com6",
        "com7",
        "com8",
        "com9",
        "lpt0",
        "lpt1",
        "lpt2",
        "lpt3",
        "lpt4",
        "lpt5",
        "lpt6",
        "lpt7",
        "lpt8",
        "lpt9",
    ]
}

/// The reserved names, held in canonical form.
#[derive(Debug)]
pub struct ReservedSet {
    names: Vec<String>,
}

impl View for ReservedSet {
    type V = Set<Seq<char>>;

    closed spec fn view(&self) -> Set<Seq<char>> {
        Set::new(|c: Seq<char>| exists|i: int| 0 <= i < self.names@.len() && (#[trigger] self.names@[i])@ == c)
    }
}

impl Clone for ReservedSet {
    fn clone(&self) -> (r: Self)
        ensures
            r@ == self@,
    {
        proof {
            use_type_invariant(self);
        }
        let names = self.names.clone();
        proof {
            assert forall|i: int| 0 <= i < names@.len() implies names@[i] == self.names@[i] by {
                assert(cloned(self.names@[i], names@[i]));
            }
            assert(names@ =~= self.names@);
        }
        ReservedSet { names }
    }
}

impl ReservedSet {
    /// The entries are the canonical forms of the reserved names, in order.
    #[verifier::type_invariant]
    spec fn holds_reserved_names(&self) -> bool {
        &&& self.names@.len() == reserved_entries().len()
        &&& forall|i: int|
            0 <= i < self.names@.len() ==> (#[trigger] self.names@[i])@ == canon(reserved_entries()[i])
    }

    /// Canonicalizes each reserved name once.
    pub fn new() -> (r: Self)
        ensures
            r@ == reserved_set(),
    {
        let list = reserved_list();
        let mut names: Vec<String> = Vec::new();
        let mut i: usize = 0;
        while i < list.len()
            invariant
                i <= list@.len(),
                list@.len() == reserved_entries().len(),
                forall|k: int| 0 <= k < list@.len() ==> (#[trigger] list@[k])@ == reserved_entries()[k],
                names@.len() == i,
                forall|k: int| 0 <= k < i ==> (#[trigger] names@[k])@ == canon(reserved_entries()[k]),
            decreases list@.len() - i,
        {
            let c = canon_crate_name(list[i]);
            names.push(c);
            i = i + 1;
        }
        let r = ReservedSet { names };
        proof {
            assert(r@ =~= reserved_set()) by {
                assert forall|c: Seq<char>| r@.contains(c) <==> reserved_set().contains(c) by {
                    if r@.contains(c) {
                        let k = choose|k: int| 0 <= k < r.names@.len() && (#[trigger] r.names@[k])@ == c;
                        assert(canon(reserved_entries()[k]) == c);
                    }
                    if reserved_set().contains(c) {
                        let k = choose|k: int|
                            0 <= k < reserved_entries().len() && canon(#[trigger] reserved_entries()[k]) == c;
                        assert(r.names@[k]@ == c);
                    }
                }
            }
        }
        r
    }

    /// Whether `name` is, letter for letter, the canonical form of a reserved
    /// name. The caller canonicalizes first.
    pub fn contains(&self, name: &str) -> (r: bool)
        ensures
            r == is_reserved(name@),
    {
        proof {
            use_type_invariant(self);
        }
        let wanted = name.to_owned();
        let mut i: usize = 0;
        while i < self.names.len()
            invariant
                i <= self.names@.len(),
                wanted@ == name@,
                self.names@.len() == reserved_entries().len(),
                forall|k: int|
                    0 <= k < self.names@.len() ==> (#[trigger] self.names@[k])@ == canon(reserved_entries()[k]),
                forall|k: int| 0 <= k < i ==> canon(#[trigger] reserved_entries()[k]) != name@,
            decreases self.names@.len() - i,
        {
            if self.names[i] == wanted {
                assert(canon(reserved_entries()[i as int]) == name@);
                return true;
            }
            i = i + 1;
        }
        false
    }
}

} // verus!
