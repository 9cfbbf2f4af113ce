//! Teardown engine for operator-owned Kubernetes custom resources.
//!
//! The library decides every step of a cleanup run: which label-scoped CRD
//! sets to discover, how to merge them, which version of a CRD is safe to
//! address, which finalizer patch to write for each instance, and in what
//! order webhooks, finalizers and CRD deletions must happen.  All network
//! calls are performed by a thin driver outside the library, which feeds the
//! outcome of each call back into the engine as an event.

pub mod dedup;
pub mod engine;
pub mod finalizers;
pub mod model;
pub mod resolve;
pub mod run_model;
