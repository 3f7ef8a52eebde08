//! Rules for checking many names at once.

use vstd::prelude::*;
use crate::canon::{canon, canon_crate_name};
use crate::check::{Availability, CheckError};

verus! {

/// The texts of a sequence of strings.
pub open spec fn texts(v: Seq<String>) -> Seq<Seq<char>> {
    v.map_values(|n: String| n@)
}

/// The canonical forms of the names in `s`, in order.
pub open spec fn canons(s: Seq<Seq<char>>) -> Seq<Seq<char>> {
    s.map_values(|n: Seq<char>| canon(n))
}

/// `s` with each name dropped whose canonical form an earlier name already
/// has; the rest keep their order.
pub open spec fn first_of_each_canon(s: Seq<Seq<char>>) -> Seq<Seq<char>>
    decreases s.len(),
{
    if s.len() == 0 {
        seq![]
    } else {
        let kept = first_of_each_canon(s.drop_last());
        if canons(s.drop_last()).contains(canon(s.last())) {
            kept
        } else {
            kept.push(s.last())
        }
    }
}

fn holds_text(list: &Vec<String>, x: &String) -> (r: bool)
    ensures
        r == texts(list@).contains(x@),
{
    let ghost v = texts(list@);
    let mut k: usize = 0;
    while k < list.len()
        invariant
            k <= list@.len(),
            v == texts(list@),
            forall|m: int| 0 <= m < k ==> v[m] != x@,
        decreases list@.len() - k,
    {
        if list[k] == *x {
            assert(v[k as int] == x@);
            return true;
        }
        k = k + 1;
    }
    false
}

/// The names, keeping only the first of those that share a canonical form.
pub fn dedup_by_canon(names: Vec<String>) -> (r: Vec<String>)
    ensures
        texts(r@) == first_of_each_canon(texts(names@)),
{
    let ghost all = texts(names@);
    let mut seen: Vec<String> = Vec::new();
    let mut kept: Vec<String> = Vec::new();
    let mut i: usize = 0;
    while i < names.len()
        invariant
            i <= names@.len(),
            all == texts(names@),
            texts(kept@) == first_of_each_canon(all.take(i as int)),
            forall|x: Seq<char>|
                #![trigger texts(seen@).contains(x)]
                texts(seen@).contains(x) <==> canons(all.take(i as int)).contains(x),
        decreases names@.len() - i,
    {
        let c = canon_crate_name(names[i].as_str());
        let found = holds_text(&seen, &c);
        let ghost t = all.take(i + 1);
        let ghost before = texts(seen@);
        proof {
            assert(t.drop_last() =~= all.take(i as int));
            assert(t.last() == all[i as int]);
            assert(canons(t) =~= canons(all.take(i as int)).push(canon(all[i as int])));
        }
        if !found {
            seen.push(c);
            kept.push(names[i].clone());
            proof {
                assert(texts(kept@) =~= first_of_each_canon(t));
            }
        }
        proof {
            let after = texts(seen@);
            assert forall|x: Seq<char>| after.contains(x) <==> canons(t).contains(x) by {
                if found {
                    assert(after == before);
                    if canons(t).contains(x) {
                        let m = choose|m: int| 0 <= m < canons(t).len() && canons(t)[m] == x;
                        if m < i {
                            assert(canons(all.take(i as int))[m] == x);
                        }
                    }
                    if after.contains(x) {
                        assert(canons(all.take(i as int)).contains(x));
                        let m = choose|m: int| 0 <= m < canons(all.take(i as int)).len() && canons(all.take(i as int))[m] == x;
                        assert(canons(t)[m] == x);
                    }
                } else {
                    assert(after =~= before.push(canon(all[i as int])));
                    if canons(t).contains(x) {
                        let m = choose|m: int| 0 <= m < canons(t).len() && canons(t)[m] == x;
                        if m < i {
                            assert(canons(all.take(i as int))[m] == x);
                            assert(canons(all.take(i as int)).contains(x));
                            assert(before.contains(x));
                            let q = choose|q: int| 0 <= q < before.len() && before[q] == x;
                            assert(after[q] == x);
                        } else {
                            assert(after[before.len() as int] == x);
                        }
                    }
                    if after.contains(x) {
                        let q = choose|q: int| 0 <= q < after.len() && after[q] == x;
                        if q < before.len() {
                            assert(before[q] == x);
                            assert(before.contains(x));
                            assert(canons(all.take(i as int)).contains(x));
                            let m = choose|m: int| 0 <= m < canons(all.take(i as int)).len() && canons(all.take(i as int))[m] == x;
                            assert(canons(t)[m] == x);
                        } else {
                            assert(canons(t)[i as int] == x);
                        }
                    }
                }
            }
        }
        i = i + 1;
    }
    proof {
        assert(all.take(names@.len() as int) =~= all);
    }
    kept
}

/// The process status that a run over these results ends with: 3 when some
/// name could not be checked, else 1 when some name is not available, else 0.
pub open spec fn batch_status(results: Seq<Result<Availability, CheckError>>) -> u8 {
    if exists|i: int| 0 <= i < results.len() && #[trigger] results[i] matches Err(CheckError::IndexLookup(_)) {
        3
    } else if exists|i: int| 0 <= i < results.len() && #[trigger] results[i] != Ok::<Availability, CheckError>(Availability::Available) {
        1
    } else {
        0
    }
}

/// The exit status for a run that produced `results`.
pub fn exit_status(results: &Vec<Result<Availability, CheckError>>) -> (r: u8)
    ensures
        r == batch_status(results@),
{
    let mut lookup_failed = false;
    let mut unavailable = false;
    let mut i: usize = 0;
    while i < results.len()
        invariant
            i <= results@.len(),
            lookup_failed == exists|k: int| 0 <= k < i && #[trigger] results@[k] matches Err(CheckError::IndexLookup(_)),
            unavailable == exists|k: int| 0 <= k < i && #[trigger] results@[k] != Ok::<Availability, CheckError>(Availability::Available),
        decreases results@.len() - i,
    {
        match &results[i] {
            Ok(Availability::Available) => {},
            Err(CheckError::IndexLookup(_)) => {
                lookup_failed = true;
                unavailable = true;
            },
            _ => {
                unavailable = true;
            },
        }
        i = i + 1;
    }
    if lookup_failed {
        3
    } else if unavailable {
        1
    } else {
        0
    }
}

} // verus!
