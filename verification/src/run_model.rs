//! A mathematical model of one whole cleanup run against a cluster
//! snapshot, and the proof that a full run is idempotent.
//!
//! The model abstracts a run in which every API call succeeds: each CRD
//! whose storage version resolves has its instances patched and is then
//! deleted; each CRD that does not resolve is recorded as an error and left
//! untouched, instances included.  The model is built from the same spec
//! functions the executable contracts use — [`storage_versions`] for
//! resolution and [`plan_patch_spec`] for the per-instance write decision —
//! so the laws proved here speak about the behaviour the engine is verified
//! against.

use vstd::prelude::*;
use crate::finalizers::plan_patch_spec;
use crate::model::Crd;
use crate::resolve::storage_versions;

verus! {

/// One CRD of the cluster snapshot, with the finalizer lists of its
/// instances (`None` for an instance that carries no finalizer field).
pub struct ClusterCrd {
    pub crd: Crd,
    pub instances: Ghost<Seq<Option<Seq<Seq<char>>>>>,
}

/// Whether a CRD's coordinates resolve: exactly one storage version.
pub open spec fn crd_resolvable(c: Crd) -> bool {
    storage_versions(c.versions@).len() == 1
}

/// How many instances a patch pass writes back: those whose finalizer list
/// holds the token.
pub open spec fn write_count(instances: Seq<Option<Seq<Seq<char>>>>, t: Seq<char>) -> nat
    decreases instances.len(),
{
    if instances.len() == 0 {
        0
    } else {
        write_count(instances.drop_last(), t) + if plan_patch_spec(instances.last(), t) is Some {
            1nat
        } else {
            0nat
        }
    }
}

/// What is left of the cluster after one run: every resolvable CRD is
/// deleted together with its instances; an unresolvable CRD is skipped and
/// survives untouched.
pub open spec fn run_remaining(cluster: Seq<ClusterCrd>) -> Seq<ClusterCrd>
    decreases cluster.len(),
{
    if cluster.len() == 0 {
        Seq::empty()
    } else {
        let rest = run_remaining(cluster.drop_last());
        if crd_resolvable(cluster.last().crd) {
            rest
        } else {
            rest.push(cluster.last())
        }
    }
}

/// How many mutations one run performs: one instance write per planned
/// patch and one deletion per resolvable CRD.
pub open spec fn run_mutations(cluster: Seq<ClusterCrd>, t: Seq<char>) -> nat
    decreases cluster.len(),
{
    if cluster.len() == 0 {
        0
    } else {
        run_mutations(cluster.drop_last(), t) + if crd_resolvable(cluster.last().crd) {
            write_count(cluster.last().instances@, t) + 1
        } else {
            0nat
        }
    }
}

/// How many per-CRD errors one run records: one per unresolvable CRD.
pub open spec fn run_errors(cluster: Seq<ClusterCrd>) -> nat
    decreases cluster.len(),
{
    if cluster.len() == 0 {
        0
    } else {
        run_errors(cluster.drop_last()) + if crd_resolvable(cluster.last().crd) {
            0nat
        } else {
            1nat
        }
    }
}

proof fn lemma_remaining_unresolvable(cluster: Seq<ClusterCrd>)
    ensures
        forall|i: int|
            0 <= i < run_remaining(cluster).len() ==> !crd_resolvable(
                #[trigger] run_remaining(cluster)[i].crd,
            ),
        run_errors(cluster) == run_remaining(cluster).len(),
    decreases cluster.len(),
{
    if cluster.len() > 0 {
        lemma_remaining_unresolvable(cluster.drop_last());
    }
}

proof fn lemma_unresolvable_fixpoint(s: Seq<ClusterCrd>)
    requires
        forall|i: int| 0 <= i < s.len() ==> !crd_resolvable(#[trigger] s[i].crd),
    ensures
        run_remaining(s) == s,
        run_errors(s) == s.len(),
    decreases s.len(),
{
    if s.len() == 0 {
        assert(run_remaining(s) =~= s);
    } else {
        assert(forall|i: int|
            0 <= i < s.drop_last().len() ==> s.drop_last()[i] == s[i]);
        lemma_unresolvable_fixpoint(s.drop_last());
        assert(!crd_resolvable(s[s.len() - 1].crd));
        assert(run_remaining(s) =~= s.drop_last().push(s.last()));
        assert(s.drop_last().push(s.last()) =~= s);
    }
}

proof fn lemma_mutations_of_unresolvable(s: Seq<ClusterCrd>, t: Seq<char>)
    requires
        forall|i: int| 0 <= i < s.len() ==> !crd_resolvable(#[trigger] s[i].crd),
    ensures
        run_mutations(s, t) == 0,
    decreases s.len(),
{
    if s.len() > 0 {
        assert(forall|i: int|
            0 <= i < s.drop_last().len() ==> s.drop_last()[i] == s[i]);
        lemma_mutations_of_unresolvable(s.drop_last(), t);
        assert(!crd_resolvable(s[s.len() - 1].crd));
    }
}

/// A full cleanup run is idempotent: a second run over what the first run
/// left behind mutates nothing, records the same errors as the first (one
/// per CRD that cannot be resolved, then or now), and leaves the cluster as
/// it found it.  In particular, after a first run with no errors the second
/// run finds an empty cluster and does nothing at all.
pub proof fn lemma_run_idempotent(cluster: Seq<ClusterCrd>, t: Seq<char>)
    ensures
        run_mutations(run_remaining(cluster), t) == 0,
        run_errors(run_remaining(cluster)) == run_errors(cluster),
        run_remaining(run_remaining(cluster)) == run_remaining(cluster),
        run_errors(cluster) == 0 ==> run_remaining(cluster).len() == 0,
{
    lemma_remaining_unresolvable(cluster);
    lemma_unresolvable_fixpoint(run_remaining(cluster));
    lemma_mutations_of_unresolvable(run_remaining(cluster), t);
}

} // verus!
