//! Resolution of a CRD's addressable coordinates from its storage version.

use vstd::prelude::*;
use vstd::string::StringExecFns;
use crate::model::{Coords, Crd, CrdVersion};

verus! {

/// Why a CRD could not be resolved to addressable coordinates.
#[derive(Clone, Copy, PartialEq, Eq, Debug)]
pub enum ResolveError {
    /// No version of the CRD is flagged as the storage version.
    NoStorageVersion,
    /// More than one version claims to be the storage version.
    MultipleStorageVersions,
}

/// The versions flagged `storage`, in order.  A well-formed CRD has exactly
/// one: the only version whose schema matches what is persisted.
pub open spec fn storage_versions(versions: Seq<CrdVersion>) -> Seq<CrdVersion> {
    versions.filter(|v: CrdVersion| v.storage)
}

proof fn lemma_storage_filter_push(s: Seq<CrdVersion>, x: CrdVersion)
    ensures
        storage_versions(s.push(x)) == if x.storage {
            storage_versions(s).push(x)
        } else {
            storage_versions(s)
        },
{
    reveal(Seq::filter);
    assert(s.push(x).drop_last() =~= s);
}

proof fn lemma_storage_prefix_bound(s: Seq<CrdVersion>, i: int)
    requires
        0 <= i <= s.len(),
    ensures
        storage_versions(s.take(i)).len() <= storage_versions(s).len(),
        forall|j: int|
            0 <= j < storage_versions(s.take(i)).len() ==> storage_versions(s.take(i))[j]
                == storage_versions(s)[j],
    decreases s.len() - i,
{
    if i < s.len() {
        assert(s.take(i + 1) =~= s.take(i).push(s[i]));
        lemma_storage_filter_push(s.take(i), s[i]);
        lemma_storage_prefix_bound(s, i + 1);
    } else {
        assert(s.take(i) =~= s);
    }
}

/// Select the storage version's name.  Succeeds exactly when one version is
/// flagged `storage`; zero or several such flags are each a distinct failure.
pub fn resolve_storage_version(versions: &Vec<CrdVersion>) -> (r: Result<String, ResolveError>)
    ensures
        match r {
            Result::Ok(name) => storage_versions(versions@).len() == 1 && name@ == storage_versions(
                versions@,
            )[0].name@,
            Result::Err(ResolveError::NoStorageVersion) => storage_versions(versions@).len() == 0,
            Result::Err(ResolveError::MultipleStorageVersions) => storage_versions(
                versions@,
            ).len() >= 2,
        },
{
    let mut found: Option<usize> = Option::None;
    let mut i: usize = 0;
    while i < versions.len()
        invariant
            i <= versions.len(),
            match found {
                Option::Some(k) => k < i && storage_versions(versions@.take(i as int)).len() == 1
                    && versions@[k as int].storage && storage_versions(versions@.take(i as int))[0]
                    == versions@[k as int],
                Option::None => storage_versions(versions@.take(i as int)).len() == 0,
            },
        decreases versions.len() - i,
    {
        proof {
            assert(versions@.take(i + 1) =~= versions@.take(i as int).push(versions@[i as int]));
            lemma_storage_filter_push(versions@.take(i as int), versions@[i as int]);
        }
        if versions[i].storage {
            match found {
                Option::Some(_) => {
                    proof {
                        lemma_storage_prefix_bound(versions@, i + 1);
                    }
                    return Result::Err(ResolveError::MultipleStorageVersions);
                },
                Option::None => {
                    found = Option::Some(i);
                },
            }
        }
        i = i + 1;
    }
    proof {
        assert(versions@.take(versions@.len() as int) =~= versions@);
    }
    match found {
        Option::Some(k) => Result::Ok(versions[k].name.clone()),
        Option::None => Result::Err(ResolveError::NoStorageVersion),
    }
}

/// The `apiVersion` string for a group and version: `group/version`, or the
/// bare version for the legacy core group whose name is empty.
pub open spec fn api_version_spec(group: Seq<char>, version: Seq<char>) -> Seq<char> {
    if group.len() == 0 {
        version
    } else {
        group + "/"@ + version
    }
}

/// Whether `c` is the coordinate record resolved from `crd`: every field
/// copied from the CRD, the version taken from its unique storage version.
pub open spec fn resolved_coords_spec(crd: Crd, c: Coords) -> bool {
    &&& storage_versions(crd.versions@).len() == 1
    &&& c.group@ == crd.group@
    &&& c.version@ == storage_versions(crd.versions@)[0].name@
    &&& c.kind@ == crd.kind@
    &&& c.plural@ == crd.plural@
    &&& c.api_version@ == api_version_spec(crd.group@, c.version@)
}

/// Resolve the full addressable coordinates of a CRD from its storage
/// version.  Fails, for this CRD alone, when the storage version is not
/// unique.
pub fn resolve_coordinates(crd: &Crd) -> (r: Result<Coords, ResolveError>)
    ensures
        match r {
            Result::Ok(c) => resolved_coords_spec(*crd, c),
            Result::Err(ResolveError::NoStorageVersion) => storage_versions(crd.versions@).len()
                == 0,
            Result::Err(ResolveError::MultipleStorageVersions) => storage_versions(
                crd.versions@,
            ).len() >= 2,
        },
{
    let version = match resolve_storage_version(&crd.versions) {
        Result::Ok(v) => v,
        Result::Err(e) => {
            return Result::Err(e);
        },
    };
    let api_version = if crd.group.as_str().is_empty() {
        version.clone()
    } else {
        let mut s = crd.group.clone();
        s.append("/");
        s.append(version.as_str());
        s
    };
    Result::Ok(
        Coords {
            group: crd.group.clone(),
            version,
            kind: crd.kind.clone(),
            plural: crd.plural.clone(),
            api_version,
        },
    )
}

} // verus!
