//! The data the teardown engine reasons about: CRD descriptions, resolved
//! API coordinates, and instance identities, all as plain values.

use vstd::prelude::*;

verus! {

/// One version entry of a CRD: its name and the two independent flags.
#[derive(Debug, Clone, PartialEq, Eq)]
pub struct CrdVersion {
    pub name: String,
    pub served: bool,
    pub storage: bool,
}

/// A custom resource definition, reduced to the fields this tool reads.
#[derive(Debug, Clone, PartialEq, Eq)]
pub struct Crd {
    pub name: String,
    pub group: String,
    pub kind: String,
    pub plural: String,
    pub versions: Vec<CrdVersion>,
}

/// Resolved API coordinates for addressing instances of a CRD generically.
#[derive(Debug, Clone, PartialEq, Eq)]
pub struct Coords {
    pub group: String,
    pub version: String,
    pub kind: String,
    pub plural: String,
    pub api_version: String,
}

/// Identity of one custom resource instance.
#[derive(Debug, Clone, PartialEq, Eq)]
pub struct InstanceRef {
    pub namespace: String,
    pub name: String,
}

} // verus!
