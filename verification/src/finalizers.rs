//! Removal of the one finalizer token this tool owns, and the decision
//! whether an instance needs to be written back at all.

use vstd::prelude::*;

verus! {

/// The one finalizer token this tool removes: a fixed domain-qualified string.
pub fn target_finalizer() -> (r: String)
    ensures
        r@ == target_finalizer_spec(),
{
    let s: String = "finalizer.toolchain.dev.openshift.com".to_string();
    s
}

/// The finalizer token as a mathematical sequence of characters.
pub open spec fn target_finalizer_spec() -> Seq<char> {
    "finalizer.toolchain.dev.openshift.com"@
}

/// The views of a sequence of strings.
pub open spec fn views_of(v: Seq<String>) -> Seq<Seq<char>> {
    v.map_values(|s: String| s@)
}

/// What remains of a finalizer list once every occurrence of the token `t`
/// is dropped: all other tokens, duplicates included, in their original
/// relative order.
pub open spec fn remove_token_spec(l: Seq<Seq<char>>, t: Seq<char>) -> Seq<Seq<char>> {
    l.filter(|f: Seq<char>| f != t)
}

proof fn lemma_filter_push<A>(s: Seq<A>, pred: spec_fn(A) -> bool, x: A)
    ensures
        s.push(x).filter(pred) == if pred(x) {
            s.filter(pred).push(x)
        } else {
            s.filter(pred)
        },
{
    reveal(Seq::filter);
    assert(s.push(x).drop_last() =~= s);
}

/// Drop every occurrence of `token` from a finalizer list, preserving the
/// order and count of every other token.
pub fn remove_finalizer_token(finalizers: &Vec<String>, token: &String) -> (r: Vec<String>)
    ensures
        views_of(r@) == remove_token_spec(views_of(finalizers@), token@),
{
    let mut r: Vec<String> = Vec::new();
    let mut i: usize = 0;
    while i < finalizers.len()
        invariant
            i <= finalizers.len(),
            views_of(r@) == remove_token_spec(views_of(finalizers@.take(i as int)), token@),
        decreases finalizers.len() - i,
    {
        proof {
            assert(finalizers@.take(i + 1).drop_last() =~= finalizers@.take(i as int));
            assert(views_of(finalizers@.take(i + 1)) =~= views_of(
                finalizers@.take(i as int),
            ).push(finalizers@[i as int]@));
            lemma_filter_push(
                views_of(finalizers@.take(i as int)),
                |f: Seq<char>| f != token@,
                finalizers@[i as int]@,
            );
        }
        if !(finalizers[i] == *token) {
            let f = finalizers[i].clone();
            r.push(f);
        }
        i = i + 1;
    }
    proof {
        assert(finalizers@.take(finalizers@.len() as int) =~= finalizers@);
    }
    r
}

/// Whether a finalizer list contains the token.
pub open spec fn contains_token_spec(l: Seq<Seq<char>>, t: Seq<char>) -> bool {
    exists|i: int| 0 <= i < l.len() && l[i] == t
}

/// Whether the list holds at least one occurrence of `token`.
pub fn contains_token(finalizers: &Vec<String>, token: &String) -> (r: bool)
    ensures
        r == contains_token_spec(views_of(finalizers@), token@),
{
    let mut i: usize = 0;
    while i < finalizers.len()
        invariant
            i <= finalizers.len(),
            forall|j: int| 0 <= j < i ==> views_of(finalizers@)[j] != token@,
        decreases finalizers.len() - i,
    {
        if finalizers[i] == *token {
            assert(views_of(finalizers@)[i as int] == token@);
            return true;
        }
        i = i + 1;
    }
    false
}

/// The write an instance needs, if any.  `None` means the instance is left
/// untouched: it either carries no finalizer list at all or does not hold the
/// token, so writing it back would be a needless mutation.
pub open spec fn plan_patch_spec(finalizers: Option<Seq<Seq<char>>>, t: Seq<char>) -> Option<
    Seq<Seq<char>>,
> {
    match finalizers {
        Option::None => Option::None,
        Option::Some(l) => if contains_token_spec(l, t) {
            Option::Some(remove_token_spec(l, t))
        } else {
            Option::None
        },
    }
}

/// Decide the finalizer write for one fetched instance: the filtered list if
/// the token is present, and no write otherwise.
pub fn plan_patch(finalizers: &Option<Vec<String>>, token: &String) -> (r: Option<Vec<String>>)
    ensures
        match r {
            Option::Some(l) => plan_patch_spec(
                match finalizers {
                    Option::Some(f) => Option::Some(views_of(f@)),
                    Option::None => Option::None,
                },
                token@,
            ) == Option::Some(views_of(l@)),
            Option::None => plan_patch_spec(
                match finalizers {
                    Option::Some(f) => Option::Some(views_of(f@)),
                    Option::None => Option::None,
                },
                token@,
            ) is None,
        },
{
    match finalizers {
        Option::None => Option::None,
        Option::Some(l) => {
            if contains_token(l, token) {
                Option::Some(remove_finalizer_token(l, token))
            } else {
                Option::None
            }
        },
    }
}

/// Removing a token that is absent leaves the list unchanged.
pub proof fn lemma_remove_token_absent_identity(l: Seq<Seq<char>>, t: Seq<char>)
    requires
        !contains_token_spec(l, t),
    ensures
        remove_token_spec(l, t) == l,
    decreases l.len(),
{
    reveal(Seq::filter);
    if l.len() == 0 {
        assert(remove_token_spec(l, t) =~= l);
    } else {
        assert(forall|i: int| 0 <= i < l.drop_last().len() ==> l.drop_last()[i] == l[i]);
        lemma_remove_token_absent_identity(l.drop_last(), t);
        assert(l[l.len() - 1] != t);
        assert(remove_token_spec(l, t) =~= l.drop_last().push(l.last()));
        assert(l.drop_last().push(l.last()) =~= l);
    }
}

/// The removed token does not occur in the result.
pub proof fn lemma_remove_token_removes(l: Seq<Seq<char>>, t: Seq<char>)
    ensures
        !contains_token_spec(remove_token_spec(l, t), t),
    decreases l.len(),
{
    reveal(Seq::filter);
    if l.len() > 0 {
        lemma_remove_token_removes(l.drop_last(), t);
        let sub = remove_token_spec(l.drop_last(), t);
        if l.last() != t {
            assert(remove_token_spec(l, t) == sub.push(l.last()));
            if contains_token_spec(sub.push(l.last()), t) {
                let i = choose|i: int|
                    0 <= i < sub.push(l.last()).len() && sub.push(l.last())[i] == t;
                if i < sub.len() {
                    assert(sub[i] == t);
                } else {
                    assert(sub.push(l.last())[i] == l.last());
                }
                assert(false);
            }
        }
    }
}

/// Removing the token twice is the same as removing it once.
pub proof fn lemma_remove_token_idempotent(l: Seq<Seq<char>>, t: Seq<char>)
    ensures
        remove_token_spec(remove_token_spec(l, t), t) == remove_token_spec(l, t),
{
    lemma_remove_token_removes(l, t);
    lemma_remove_token_absent_identity(remove_token_spec(l, t), t);
}

/// A second cleanup pass plans no write: an instance whose finalizer list is
/// the outcome of a first patch is already clean.
pub proof fn lemma_patch_plan_idempotent(l: Seq<Seq<char>>, t: Seq<char>)
    ensures
        plan_patch_spec(Option::Some(remove_token_spec(l, t)), t) is None,
{
    lemma_remove_token_removes(l, t);
}

} // verus!
