//! Merging label-scoped discovery results: a CRD carrying several ownership
//! labels is processed exactly once, at its first appearance.

use vstd::prelude::*;
use crate::model::Crd;

verus! {

/// Whether some CRD in `s` bears the name `n`.
pub open spec fn has_name(s: Seq<Crd>, n: Seq<char>) -> bool {
    exists|i: int| 0 <= i < s.len() && s[i].name@ == n
}

/// The first-occurrence deduplication of `s` by CRD name: each CRD is kept
/// exactly when no earlier CRD bears its name, in original order.
pub open spec fn dedup_by_name(s: Seq<Crd>) -> Seq<Crd>
    decreases s.len(),
{
    if s.len() == 0 {
        Seq::empty()
    } else {
        let prefix = dedup_by_name(s.drop_last());
        if has_name(prefix, s.last().name@) {
            prefix
        } else {
            prefix.push(s.last())
        }
    }
}

/// Whether `crds` holds a CRD named `name`.
pub fn contains_name(crds: &Vec<Crd>, name: &String) -> (r: bool)
    ensures
        r == has_name(crds@, name@),
{
    let mut i: usize = 0;
    while i < crds.len()
        invariant
            i <= crds.len(),
            forall|j: int| 0 <= j < i ==> crds@[j].name@ != name@,
        decreases crds.len() - i,
    {
        if crds[i].name == *name {
            assert(crds@[i as int].name@ == name@);
            return true;
        }
        i = i + 1;
    }
    false
}

/// Keep the first CRD of each name, dropping later ones, in original order.
pub fn dedup_crds(crds: Vec<Crd>) -> (r: Vec<Crd>)
    ensures
        r@ == dedup_by_name(crds@),
{
    let mut rest = crds;
    let mut out: Vec<Crd> = Vec::new();
    let ghost mut i: int = 0;
    while rest.len() > 0
        invariant
            0 <= i <= crds@.len(),
            rest@ == crds@.skip(i),
            out@ == dedup_by_name(crds@.take(i)),
        decreases rest.len(),
    {
        proof {
            assert(crds@.take(i + 1).drop_last() =~= crds@.take(i));
            assert(crds@.take(i + 1).last() == crds@[i]);
            assert(crds@.skip(i).remove(0) =~= crds@.skip(i + 1));
        }
        let c = rest.remove(0);
        assert(c == crds@[i]);
        if !contains_name(&out, &c.name) {
            out.push(c);
        }
        proof {
            i = i + 1;
        }
    }
    proof {
        assert(crds@.take(i) =~= crds@);
    }
    out
}

/// The number of CRDs in `s` named `n`.
pub open spec fn name_count(s: Seq<Crd>, n: Seq<char>) -> nat {
    s.filter(|c: Crd| c.name@ == n).len()
}

proof fn lemma_name_count_push(s: Seq<Crd>, n: Seq<char>, x: Crd)
    ensures
        name_count(s.push(x), n) == if x.name@ == n {
            name_count(s, n) + 1
        } else {
            name_count(s, n)
        },
{
    reveal(Seq::filter);
    assert(s.push(x).drop_last() =~= s);
    assert(s.push(x).last() == x);
}

proof fn lemma_name_count_absent(s: Seq<Crd>, n: Seq<char>)
    requires
        !has_name(s, n),
    ensures
        name_count(s, n) == 0,
    decreases s.len(),
{
    reveal(Seq::filter);
    if s.len() > 0 {
        assert(forall|i: int| 0 <= i < s.drop_last().len() ==> s.drop_last()[i] == s[i]);
        lemma_name_count_absent(s.drop_last(), n);
        assert(s.last().name@ != n);
    }
}

/// A name present in `s` occurs exactly once in the deduplicated sequence,
/// and a name absent from `s` does not occur at all.
pub proof fn lemma_dedup_exactly_once(s: Seq<Crd>, n: Seq<char>)
    ensures
        has_name(s, n) ==> name_count(dedup_by_name(s), n) == 1,
        !has_name(s, n) ==> name_count(dedup_by_name(s), n) == 0,
    decreases s.len(),
{
    lemma_dedup_has_same_names(s, n);
    if !has_name(s, n) {
        lemma_name_count_absent(dedup_by_name(s), n);
    } else {
        let prefix = s.drop_last();
        let d = dedup_by_name(prefix);
        assert(forall|i: int| 0 <= i < prefix.len() ==> prefix[i] == s[i]);
        assert(s.last() == s[s.len() - 1]);
        if has_name(d, s.last().name@) {
            // the last CRD is a duplicate of an earlier one and is dropped
            assert(dedup_by_name(s) == d);
            lemma_dedup_has_same_names(prefix, s.last().name@);
            if has_name(prefix, n) {
                lemma_dedup_exactly_once(prefix, n);
            } else {
                let i = choose|i: int| 0 <= i < s.len() && s[i].name@ == n;
                if i < s.len() - 1 {
                    assert(prefix[i] == s[i]);
                    assert(has_name(prefix, n));
                }
                assert(s.last().name@ == n);
                assert(has_name(prefix, n));
                assert(false);
            }
        } else {
            assert(dedup_by_name(s) == d.push(s.last()));
            lemma_name_count_push(d, n, s.last());
            lemma_dedup_has_same_names(prefix, s.last().name@);
            if s.last().name@ == n {
                assert(!has_name(prefix, n));
                lemma_dedup_exactly_once(prefix, n);
                assert(name_count(dedup_by_name(s), n) == name_count(d, n) + 1);
            } else {
                let i = choose|i: int| 0 <= i < s.len() && s[i].name@ == n;
                assert(i < s.len() - 1);
                assert(prefix[i] == s[i]);
                assert(has_name(prefix, n));
                lemma_dedup_exactly_once(prefix, n);
                assert(name_count(dedup_by_name(s), n) == name_count(d, n));
            }
        }
    }
}

/// Deduplication neither invents nor loses names: the deduplicated sequence
/// bears a name exactly when the input does.
pub proof fn lemma_dedup_has_same_names(s: Seq<Crd>, n: Seq<char>)
    ensures
        has_name(dedup_by_name(s), n) == has_name(s, n),
    decreases s.len(),
{
    if s.len() == 0 {
    } else {
        let prefix = s.drop_last();
        lemma_dedup_has_same_names(prefix, n);
        lemma_dedup_has_same_names(prefix, s.last().name@);
        assert(forall|i: int| 0 <= i < prefix.len() ==> prefix[i] == s[i]);
        let d = dedup_by_name(prefix);
        if has_name(d, s.last().name@) {
            assert(dedup_by_name(s) == d);
            if has_name(s, n) && !has_name(prefix, n) {
                let i = choose|i: int| 0 <= i < s.len() && s[i].name@ == n;
                assert(i == s.len() - 1);
                assert(has_name(prefix, n) || s.last().name@ == n);
            }
        } else {
            assert(dedup_by_name(s) == d.push(s.last()));
            if has_name(s, n) {
                if has_name(prefix, n) {
                    let i = choose|i: int| 0 <= i < d.len() && d[i].name@ == n;
                    assert(d.push(s.last())[i].name@ == n);
                } else {
                    let i = choose|i: int| 0 <= i < s.len() && s[i].name@ == n;
                    assert(i == s.len() - 1);
                    assert(d.push(s.last()).last().name@ == n);
                }
            }
            if has_name(d.push(s.last()), n) {
                let i = choose|i: int| 0 <= i < d.push(s.last()).len() && d.push(s.last())[i].name@ == n;
                if i < d.len() {
                    assert(has_name(d, n));
                } else {
                    assert(s.last().name@ == n);
                    assert(s[s.len() - 1].name@ == n);
                }
            }
        }
    }
}

} // verus!
