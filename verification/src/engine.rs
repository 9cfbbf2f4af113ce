//! The orchestrating state machine of a cleanup run.
//!
//! The engine owns every decision of a run: which webhook to remove first,
//! which label scopes to discover, how discovered CRDs are merged, which
//! instance is patched next, and when a CRD may finally be deleted.  The
//! driver outside the library performs one API call per returned [`Action`]
//! and feeds its outcome back as an [`Event`]; the engine never performs
//! I/O itself, so the whole control flow is verified here.
//!
//! The ordering that makes teardown safe is enforced by construction: the
//! blocking webhook is removed before any CRD is discovered, every instance
//! of a CRD is patched before that CRD is deleted, and the failure of one
//! instance or one CRD never stops the rest of the run.

use vstd::prelude::*;
use crate::dedup::{dedup_by_name, dedup_crds};
use crate::finalizers::{plan_patch, plan_patch_spec, target_finalizer, target_finalizer_spec, views_of};
use crate::model::{Coords, Crd, InstanceRef};
use crate::resolve::{resolve_coordinates, resolved_coords_spec, storage_versions, ResolveError};

verus! {

/// Which ownership scopes a run cleans.
#[derive(Clone, Copy, PartialEq, Eq, Debug)]
pub enum Mode {
    Host,
    Member,
    All,
}

/// The ownership label carried by CRDs of the host operator suite.
pub open spec fn host_label_spec() -> Seq<char> {
    "operators.coreos.com/toolchain-host-operator.toolchain-host-operator"@
}

/// The ownership label carried by CRDs of the member operator suite.
pub open spec fn member_label_spec() -> Seq<char> {
    "operators.coreos.com/toolchain-member-operator.toolchain-member-operator"@
}

/// The admission webhook configuration known to block member teardown.
pub open spec fn webhook_config_name_spec() -> Seq<char> {
    "member-operator-validating-webhook-toolchain-member-operator"@
}

/// The host-operator ownership label.
pub fn host_label() -> (r: String)
    ensures
        r@ == host_label_spec(),
{
    "operators.coreos.com/toolchain-host-operator.toolchain-host-operator".to_string()
}

/// The member-operator ownership label.
pub fn member_label() -> (r: String)
    ensures
        r@ == member_label_spec(),
{
    "operators.coreos.com/toolchain-member-operator.toolchain-member-operator".to_string()
}

/// The name of the blocking webhook configuration.
pub fn webhook_config_name() -> (r: String)
    ensures
        r@ == webhook_config_name_spec(),
{
    "member-operator-validating-webhook-toolchain-member-operator".to_string()
}

/// The label scopes a mode discovers, in the order they are queried.
pub open spec fn mode_labels_spec(mode: Mode) -> Seq<Seq<char>> {
    match mode {
        Mode::Host => seq![host_label_spec()],
        Mode::Member => seq![member_label_spec()],
        Mode::All => seq![host_label_spec(), member_label_spec()],
    }
}

/// The ownership labels a mode queries, host before member.
pub fn labels_for_mode(mode: Mode) -> (r: Vec<String>)
    ensures
        views_of(r@) == mode_labels_spec(mode),
        r@.len() >= 1,
{
    let mut r: Vec<String> = Vec::new();
    match mode {
        Mode::Host => {
            r.push(host_label());
        },
        Mode::Member => {
            r.push(member_label());
        },
        Mode::All => {
            r.push(host_label());
            r.push(member_label());
        },
    }
    proof {
        assert(views_of(r@) =~= mode_labels_spec(mode));
    }
    r
}

/// An error that ends the whole run.
#[derive(Clone, Copy, PartialEq, Eq, Debug)]
pub enum FatalError {
    /// The blocking webhook configuration could not be removed.
    WebhookRemoval,
    /// A CRD discovery list call failed; no work is possible without it.
    Discovery,
}

/// The outcome of one unit of work, recorded in the run summary.
#[derive(PartialEq, Eq, Debug)]
pub enum Note {
    WebhookRemoved { already_absent: bool },
    DiscoveryComplete,
    CrdSkipped { name: String, reason: ResolveError },
    CrdEnumerationFailed { name: String },
    InstanceAlreadyClean { namespace: String, name: String },
    InstancePatched { namespace: String, name: String },
    InstanceFetchFailed { namespace: String, name: String },
    InstanceReplaceFailed { namespace: String, name: String },
    CrdDeleted { name: String, already_absent: bool },
    CrdDeleteFailed { name: String },
}

/// The aggregated outcome of a run: per-unit notes and, if the run was cut
/// short, the fatal error that ended it.
#[derive(Debug)]
pub struct RunSummary {
    pub fatal: Option<FatalError>,
    pub notes: Vec<Note>,
}

/// What the driver must do next.
#[derive(Debug)]
pub enum Action {
    /// Delete the named validating webhook configuration; absence is success.
    DeleteWebhook { name: String },
    /// List all CRDs carrying the label, cluster-wide.
    ListCrds { label: String },
    /// List every instance of the resolved type across all namespaces.
    ListInstances { coords: Coords },
    /// Fetch one instance fresh, for its finalizers and resource version.
    FetchInstance { namespace: String, name: String },
    /// Write the instance back with the filtered finalizer list, using the
    /// resource version obtained by the preceding fetch.
    ReplaceInstance { namespace: String, name: String, finalizers: Vec<String>, resource_version: String },
    /// Delete the named CRD; absence is success.
    DeleteCrd { name: String },
    /// Nothing to perform: log the last note of the summary and proceed.
    Report,
    /// The run is over; the summary holds its outcome.
    Finish,
}

/// The outcome of the call the driver just performed, or a control event.
#[derive(Debug)]
pub enum Event {
    /// Begin the run.
    Start,
    /// Acknowledge a [`Action::Report`].
    Proceed,
    WebhookRemoved { already_absent: bool },
    WebhookFailed,
    CrdsListed { crds: Vec<Crd> },
    CrdListFailed,
    InstancesListed { instances: Vec<InstanceRef> },
    InstanceListFailed,
    InstanceFetched { finalizers: Option<Vec<String>>, resource_version: String },
    InstanceFetchFailed,
    InstanceReplaced,
    InstanceReplaceFailed,
    CrdDeleted { already_absent: bool },
    CrdDeleteFailed,
}

/// Where the engine stands, which also says which event it expects next.
#[derive(Clone, Copy, PartialEq, Eq, Debug)]
pub enum Phase {
    Start,
    AwaitWebhook,
    AwaitCrdList,
    SelectCrd,
    AwaitInstanceList,
    AwaitFetch,
    AwaitReplace,
    AwaitCrdDelete,
    Finished,
}

/// The state of one cleanup run.
pub struct Engine {
    pub phase: Phase,
    pub remove_webhook: bool,
    /// Label scopes still to be discovered, fixed at construction.
    pub labels: Vec<String>,
    /// How many label scopes have been listed so far.
    pub label_idx: usize,
    /// CRDs discovered so far, in discovery order, duplicates included.
    pub found: Vec<Crd>,
    /// The deduplicated processing list, fixed once discovery completes.
    pub work: Vec<Crd>,
    /// The CRD currently being processed.
    pub crd_idx: usize,
    /// The instances of the current CRD, in listing order.
    pub instances: Vec<InstanceRef>,
    /// The instance currently being patched.
    pub inst_idx: usize,
    /// The finalizer token being removed.
    pub token: String,
    pub summary: RunSummary,
}

impl Engine {
    /// Internal consistency: every cursor is in range for its phase.
    pub open spec fn wf(self) -> bool {
        &&& self.labels@.len() >= 1
        &&& self.label_idx <= self.labels@.len()
        &&& self.crd_idx <= self.work@.len()
        &&& self.inst_idx <= self.instances@.len()
        &&& (self.phase is AwaitCrdList ==> self.label_idx < self.labels@.len())
        &&& ((self.phase is AwaitInstanceList || self.phase is AwaitFetch || self.phase is AwaitReplace
            || self.phase is AwaitCrdDelete) ==> self.crd_idx < self.work@.len())
        &&& ((self.phase is AwaitFetch || self.phase is AwaitReplace) ==> self.inst_idx
            < self.instances@.len())
        &&& ((self.phase is Start || self.phase is AwaitWebhook) ==> self.label_idx == 0)
        &&& self.token@ == target_finalizer_spec()
    }

    /// A fresh engine for one run.
    pub fn new(mode: Mode, remove_webhook: bool) -> (e: Engine)
        ensures
            e.wf(),
            (e.phase is Start),
            e.remove_webhook == remove_webhook,
            views_of(e.labels@) == mode_labels_spec(mode),
            e.label_idx == 0,
            e.found@.len() == 0,
            e.work@.len() == 0,
            e.crd_idx == 0,
            e.instances@.len() == 0,
            e.inst_idx == 0,
            (e.summary.fatal is None),
            e.summary.notes@.len() == 0,
            e.token@ == target_finalizer_spec(),
    {
        Engine {
            phase: Phase::Start,
            remove_webhook,
            labels: labels_for_mode(mode),
            label_idx: 0,
            found: Vec::new(),
            work: Vec::new(),
            crd_idx: 0,
            instances: Vec::new(),
            inst_idx: 0,
            token: target_finalizer(),
            summary: RunSummary { fatal: Option::None, notes: Vec::new() },
        }
    }

    fn halt(&mut self) -> (a: Action)
        ensures
            halted(*old(self), *final(self), a),
    {
        self.phase = Phase::Finished;
        Action::Finish
    }

    fn fail(&mut self, e: FatalError) -> (a: Action)
        ensures
            fatal(*old(self), *final(self), a, e),
    {
        self.summary.fatal = Option::Some(e);
        self.phase = Phase::Finished;
        Action::Finish
    }

    fn note(&mut self, n: Note)
        ensures
            notes_pushed(*old(self), *final(self), n),
            (*final(self) == Engine { summary: final(self).summary, ..*old(self) }),
    {
        self.summary.notes.push(n);
    }

    /// Issue the next per-instance step of the current CRD: fetch the next
    /// instance, or, when all are handled, delete the CRD itself.
    fn advance_instance(&mut self) -> (a: Action)
        ensures
            cursor_result(*old(self), *final(self), a),
    {
        if self.crd_idx < self.work.len() {
            if self.inst_idx < self.instances.len() {
                self.phase = Phase::AwaitFetch;
                let ns = self.instances[self.inst_idx].namespace.clone();
                let nm = self.instances[self.inst_idx].name.clone();
                Action::FetchInstance { namespace: ns, name: nm }
            } else {
                self.phase = Phase::AwaitCrdDelete;
                let name = self.work[self.crd_idx].name.clone();
                Action::DeleteCrd { name }
            }
        } else {
            self.halt()
        }
    }

    /// Feed the outcome of the last action in; the result is the next action.
    ///
    /// The full transition relation is [`step_spec`]; the engine stays
    /// well-formed across every step.
    pub fn step(&mut self, event: Event) -> (a: Action)
        ensures
            old(self).wf() ==> final(self).wf() && step_spec(*old(self), event, *final(self), a),
    {
        let phase = self.phase;
        match (phase, event) {
            (Phase::Start, Event::Start) => {
                if self.remove_webhook {
                    self.phase = Phase::AwaitWebhook;
                    Action::DeleteWebhook { name: webhook_config_name() }
                } else {
                    if self.labels.len() > 0 {
                        self.phase = Phase::AwaitCrdList;
                        let label = self.labels[0].clone();
                        Action::ListCrds { label }
                    } else {
                        self.halt()
                    }
                }
            },
            (Phase::AwaitWebhook, Event::WebhookRemoved { already_absent }) => {
                self.note(Note::WebhookRemoved { already_absent });
                if self.labels.len() > 0 {
                    self.phase = Phase::AwaitCrdList;
                    let label = self.labels[0].clone();
                    Action::ListCrds { label }
                } else {
                    self.halt()
                }
            },
            (Phase::AwaitWebhook, Event::WebhookFailed) => self.fail(FatalError::WebhookRemoval),
            (Phase::AwaitCrdList, Event::CrdsListed { mut crds }) => {
                if self.label_idx < self.labels.len() {
                    self.found.append(&mut crds);
                    self.label_idx = self.label_idx + 1;
                    if self.label_idx < self.labels.len() {
                        let label = self.labels[self.label_idx].clone();
                        Action::ListCrds { label }
                    } else {
                        let mut tmp: Vec<Crd> = Vec::new();
                        core::mem::swap(&mut tmp, &mut self.found);
                        self.work = dedup_crds(tmp);
                        self.crd_idx = 0;
                        self.phase = Phase::SelectCrd;
                        self.note(Note::DiscoveryComplete);
                        Action::Report
                    }
                } else {
                    self.halt()
                }
            },
            (Phase::AwaitCrdList, Event::CrdListFailed) => self.fail(FatalError::Discovery),
            (Phase::SelectCrd, Event::Proceed) => {
                if self.crd_idx < self.work.len() {
                    match resolve_coordinates(&self.work[self.crd_idx]) {
                        Result::Ok(coords) => {
                            self.phase = Phase::AwaitInstanceList;
                            Action::ListInstances { coords }
                        },
                        Result::Err(reason) => {
                            let name = self.work[self.crd_idx].name.clone();
                            self.note(Note::CrdSkipped { name, reason });
                            self.crd_idx = self.crd_idx + 1;
                            Action::Report
                        },
                    }
                } else {
                    self.halt()
                }
            },
            (Phase::AwaitInstanceList, Event::InstancesListed { instances }) => {
                self.instances = instances;
                self.inst_idx = 0;
                self.advance_instance()
            },
            (Phase::AwaitInstanceList, Event::InstanceListFailed) => {
                if self.crd_idx < self.work.len() {
                    let name = self.work[self.crd_idx].name.clone();
                    self.note(Note::CrdEnumerationFailed { name });
                    self.crd_idx = self.crd_idx + 1;
                    self.phase = Phase::SelectCrd;
                    Action::Report
                } else {
                    self.halt()
                }
            },
            (Phase::AwaitFetch, Event::InstanceFetched { finalizers, resource_version }) => {
                if self.inst_idx < self.instances.len() {
                    match plan_patch(&finalizers, &self.token) {
                        Option::Some(new_finalizers) => {
                            self.phase = Phase::AwaitReplace;
                            let ns = self.instances[self.inst_idx].namespace.clone();
                            let nm = self.instances[self.inst_idx].name.clone();
                            Action::ReplaceInstance {
                                namespace: ns,
                                name: nm,
                                finalizers: new_finalizers,
                                resource_version,
                            }
                        },
                        Option::None => {
                            let ns = self.instances[self.inst_idx].namespace.clone();
                            let nm = self.instances[self.inst_idx].name.clone();
                            self.note(Note::InstanceAlreadyClean { namespace: ns, name: nm });
                            self.inst_idx = self.inst_idx + 1;
                            self.advance_instance()
                        },
                    }
                } else {
                    self.halt()
                }
            },
            (Phase::AwaitFetch, Event::InstanceFetchFailed) => {
                if self.inst_idx < self.instances.len() {
                    let ns = self.instances[self.inst_idx].namespace.clone();
                    let nm = self.instances[self.inst_idx].name.clone();
                    self.note(Note::InstanceFetchFailed { namespace: ns, name: nm });
                    self.inst_idx = self.inst_idx + 1;
                    self.advance_instance()
                } else {
                    self.halt()
                }
            },
            (Phase::AwaitReplace, Event::InstanceReplaced) => {
                if self.inst_idx < self.instances.len() {
                    let ns = self.instances[self.inst_idx].namespace.clone();
                    let nm = self.instances[self.inst_idx].name.clone();
                    self.note(Note::InstancePatched { namespace: ns, name: nm });
                    self.inst_idx = self.inst_idx + 1;
                    self.advance_instance()
                } else {
                    self.halt()
                }
            },
            (Phase::AwaitReplace, Event::InstanceReplaceFailed) => {
                if self.inst_idx < self.instances.len() {
                    let ns = self.instances[self.inst_idx].namespace.clone();
                    let nm = self.instances[self.inst_idx].name.clone();
                    self.note(Note::InstanceReplaceFailed { namespace: ns, name: nm });
                    self.inst_idx = self.inst_idx + 1;
                    self.advance_instance()
                } else {
                    self.halt()
                }
            },
            (Phase::AwaitCrdDelete, Event::CrdDeleted { already_absent }) => {
                if self.crd_idx < self.work.len() {
                    let name = self.work[self.crd_idx].name.clone();
                    self.note(Note::CrdDeleted { name, already_absent });
                    self.crd_idx = self.crd_idx + 1;
                    self.phase = Phase::SelectCrd;
                    Action::Report
                } else {
                    self.halt()
                }
            },
            (Phase::AwaitCrdDelete, Event::CrdDeleteFailed) => {
                if self.crd_idx < self.work.len() {
                    let name = self.work[self.crd_idx].name.clone();
                    self.note(Note::CrdDeleteFailed { name });
                    self.crd_idx = self.crd_idx + 1;
                    self.phase = Phase::SelectCrd;
                    Action::Report
                } else {
                    self.halt()
                }
            },
            (_, _) => self.halt(),
        }
    }
}

/// The engine stops in its tracks: only the phase changes, to `Finished`.
pub open spec fn halted(pre: Engine, post: Engine, a: Action) -> bool {
    &&& post == Engine { phase: Phase::Finished, ..pre }
    &&& a == Action::Finish
}

/// The run ends with a fatal error recorded in the summary.
pub open spec fn fatal(pre: Engine, post: Engine, a: Action, e: FatalError) -> bool {
    &&& post == Engine { phase: Phase::Finished, summary: post.summary, ..pre }
    &&& post.summary.fatal == Option::Some(e)
    &&& post.summary.notes == pre.summary.notes
    &&& a == Action::Finish
}

/// The summary gained exactly the note `n`; nothing else of it changed.
pub open spec fn notes_pushed(pre: Engine, post: Engine, n: Note) -> bool {
    &&& post.summary.notes@ == pre.summary.notes@.push(n)
    &&& post.summary.fatal == pre.summary.fatal
}

/// From `pre`, the engine turns to the next per-instance step: fetching the
/// instance under the cursor, or deleting the CRD once no instance is left.
/// Only the phase changes.
pub open spec fn cursor_result(pre: Engine, post: Engine, a: Action) -> bool {
    if pre.crd_idx < pre.work@.len() {
        &&& post == Engine { phase: post.phase, ..pre }
        &&& if pre.inst_idx < pre.instances@.len() {
            &&& post.phase is AwaitFetch
            &&& a == Action::FetchInstance {
                namespace: pre.instances@[pre.inst_idx as int].namespace,
                name: pre.instances@[pre.inst_idx as int].name,
            }
        } else {
            &&& post.phase is AwaitCrdDelete
            &&& a == Action::DeleteCrd { name: pre.work@[pre.crd_idx as int].name }
        }
    } else {
        halted(pre, post, a)
    }
}

/// One per-instance unit of the current CRD concluded with note `n`; the
/// cursor moves to the next instance, or to the CRD's deletion after the
/// last one.  The work list, the CRD cursor and the instance list are
/// untouched: one instance's outcome never affects the rest.
pub open spec fn advanced_one_instance(pre: Engine, post: Engine, a: Action, n: Note) -> bool {
    &&& notes_pushed(pre, post, n)
    &&& post.inst_idx == pre.inst_idx + 1
    &&& post.work == pre.work
    &&& post.crd_idx == pre.crd_idx
    &&& post.instances == pre.instances
    &&& post.labels == pre.labels
    &&& post.label_idx == pre.label_idx
    &&& post.found == pre.found
    &&& post.remove_webhook == pre.remove_webhook
    &&& post.token == pre.token
    &&& if pre.inst_idx + 1 < pre.instances@.len() {
        &&& post.phase is AwaitFetch
        &&& a == Action::FetchInstance {
            namespace: pre.instances@[pre.inst_idx + 1].namespace,
            name: pre.instances@[pre.inst_idx + 1].name,
        }
    } else {
        &&& post.phase is AwaitCrdDelete
        &&& a == Action::DeleteCrd { name: pre.work@[pre.crd_idx as int].name }
    }
}

/// One CRD concluded with note `n`; the cursor moves to the next CRD and the
/// driver is asked to log and proceed.
pub open spec fn advanced_one_crd(pre: Engine, post: Engine, a: Action, n: Note) -> bool {
    &&& notes_pushed(pre, post, n)
    &&& post == Engine {
        phase: Phase::SelectCrd,
        crd_idx: (pre.crd_idx + 1) as usize,
        summary: post.summary,
        ..pre
    }
    &&& a == Action::Report
}

/// The reason resolution of a CRD fails, determined by its storage flags.
pub open spec fn resolve_failure_reason(versions: Seq<crate::model::CrdVersion>) -> ResolveError {
    if storage_versions(versions).len() == 0 {
        ResolveError::NoStorageVersion
    } else {
        ResolveError::MultipleStorageVersions
    }
}

/// The full transition relation of [`Engine::step`], given a well-formed
/// `pre` state.
pub open spec fn step_spec(pre: Engine, event: Event, post: Engine, a: Action) -> bool {
    match pre.phase {
        Phase::Start => match event {
            Event::Start => if pre.remove_webhook {
                &&& post == Engine { phase: Phase::AwaitWebhook, ..pre }
                &&& match a {
                    Action::DeleteWebhook { name } => name@ == webhook_config_name_spec(),
                    _ => false,
                }
            } else {
                &&& post == Engine { phase: Phase::AwaitCrdList, ..pre }
                &&& a == Action::ListCrds { label: pre.labels@[0] }
            },
            _ => halted(pre, post, a),
        },
        Phase::AwaitWebhook => match event {
            Event::WebhookRemoved { already_absent } => {
                &&& notes_pushed(pre, post, Note::WebhookRemoved { already_absent })
                &&& post == Engine { phase: Phase::AwaitCrdList, summary: post.summary, ..pre }
                &&& a == Action::ListCrds { label: pre.labels@[0] }
            },
            Event::WebhookFailed => fatal(pre, post, a, FatalError::WebhookRemoval),
            _ => halted(pre, post, a),
        },
        Phase::AwaitCrdList => match event {
            Event::CrdsListed { crds } => if pre.label_idx + 1 < pre.labels@.len() {
                &&& post == Engine {
                    found: post.found,
                    label_idx: (pre.label_idx + 1) as usize,
                    ..pre
                }
                &&& post.found@ == pre.found@ + crds@
                &&& a == Action::ListCrds { label: pre.labels@[pre.label_idx + 1] }
            } else {
                &&& post == Engine {
                    phase: Phase::SelectCrd,
                    found: post.found,
                    work: post.work,
                    label_idx: (pre.label_idx + 1) as usize,
                    crd_idx: 0,
                    summary: post.summary,
                    ..pre
                }
                &&& post.found@.len() == 0
                &&& post.work@ == dedup_by_name(pre.found@ + crds@)
                &&& notes_pushed(pre, post, Note::DiscoveryComplete)
                &&& a == Action::Report
            },
            Event::CrdListFailed => fatal(pre, post, a, FatalError::Discovery),
            _ => halted(pre, post, a),
        },
        Phase::SelectCrd => match event {
            Event::Proceed => if pre.crd_idx < pre.work@.len() {
                let crd = pre.work@[pre.crd_idx as int];
                if storage_versions(crd.versions@).len() == 1 {
                    &&& post == Engine { phase: Phase::AwaitInstanceList, ..pre }
                    &&& match a {
                        Action::ListInstances { coords } => resolved_coords_spec(crd, coords),
                        _ => false,
                    }
                } else {
                    advanced_one_crd(
                        pre,
                        post,
                        a,
                        Note::CrdSkipped {
                            name: crd.name,
                            reason: resolve_failure_reason(crd.versions@),
                        },
                    )
                }
            } else {
                halted(pre, post, a)
            },
            _ => halted(pre, post, a),
        },
        Phase::AwaitInstanceList => match event {
            Event::InstancesListed { instances } => cursor_result(
                Engine { instances: instances, inst_idx: 0, ..pre },
                post,
                a,
            ),
            Event::InstanceListFailed => advanced_one_crd(
                pre,
                post,
                a,
                Note::CrdEnumerationFailed { name: pre.work@[pre.crd_idx as int].name },
            ),
            _ => halted(pre, post, a),
        },
        Phase::AwaitFetch => {
            let cur = pre.instances@[pre.inst_idx as int];
            match event {
                Event::InstanceFetched { finalizers, resource_version } => {
                    let plan = plan_patch_spec(
                        match finalizers {
                            Option::Some(f) => Option::Some(views_of(f@)),
                            Option::None => Option::None,
                        },
                        pre.token@,
                    );
                    match plan {
                        Option::Some(new_views) => {
                            &&& post == Engine { phase: Phase::AwaitReplace, ..pre }
                            &&& match a {
                                Action::ReplaceInstance {
                                    namespace,
                                    name,
                                    finalizers: new_finalizers,
                                    resource_version: rv,
                                } => {
                                    &&& namespace == cur.namespace
                                    &&& name == cur.name
                                    &&& views_of(new_finalizers@) == new_views
                                    &&& rv == resource_version
                                },
                                _ => false,
                            }
                        },
                        Option::None => advanced_one_instance(
                            pre,
                            post,
                            a,
                            Note::InstanceAlreadyClean { namespace: cur.namespace, name: cur.name },
                        ),
                    }
                },
                Event::InstanceFetchFailed => advanced_one_instance(
                    pre,
                    post,
                    a,
                    Note::InstanceFetchFailed { namespace: cur.namespace, name: cur.name },
                ),
                _ => halted(pre, post, a),
            }
        },
        Phase::AwaitReplace => {
            let cur = pre.instances@[pre.inst_idx as int];
            match event {
                Event::InstanceReplaced => advanced_one_instance(
                    pre,
                    post,
                    a,
                    Note::InstancePatched { namespace: cur.namespace, name: cur.name },
                ),
                Event::InstanceReplaceFailed => advanced_one_instance(
                    pre,
                    post,
                    a,
                    Note::InstanceReplaceFailed { namespace: cur.namespace, name: cur.name },
                ),
                _ => halted(pre, post, a),
            }
        },
        Phase::AwaitCrdDelete => {
            let cur = pre.work@[pre.crd_idx as int];
            match event {
                Event::CrdDeleted { already_absent } => advanced_one_crd(
                    pre,
                    post,
                    a,
                    Note::CrdDeleted { name: cur.name, already_absent },
                ),
                Event::CrdDeleteFailed => advanced_one_crd(
                    pre,
                    post,
                    a,
                    Note::CrdDeleteFailed { name: cur.name },
                ),
                _ => halted(pre, post, a),
            }
        },
        Phase::Finished => halted(pre, post, a),
    }
}

/// A failure to write one instance is contained: the work list, the CRD
/// under processing and its instance list are untouched, the very next
/// instance is attempted, and after the last instance the CRD is still
/// deleted — the run never ends on an instance failure.
pub proof fn lemma_partial_failure_containment(pre: Engine, event: Event, post: Engine, a: Action)
    requires
        pre.wf(),
        (pre.phase is AwaitReplace),
        (event is InstanceReplaceFailed),
        step_spec(pre, event, post, a),
    ensures
        post.work == pre.work,
        post.crd_idx == pre.crd_idx,
        post.instances == pre.instances,
        post.inst_idx == pre.inst_idx + 1,
        !(post.phase is Finished),
        pre.inst_idx + 1 < pre.instances@.len() ==> (post.phase is AwaitFetch && a
            == Action::FetchInstance {
            namespace: pre.instances@[pre.inst_idx + 1].namespace,
            name: pre.instances@[pre.inst_idx + 1].name,
        }),
        pre.inst_idx + 1 >= pre.instances@.len() ==> (post.phase is AwaitCrdDelete && a
            == Action::DeleteCrd { name: pre.work@[pre.crd_idx as int].name }),
{
}

/// The blocking webhook is only ever deleted as the very first action of a
/// run, before any CRD is listed, patched or deleted.
pub proof fn lemma_webhook_removed_first(pre: Engine, event: Event, post: Engine, a: Action)
    requires
        step_spec(pre, event, post, a),
        (a is DeleteWebhook),
    ensures
        (pre.phase is Start),
{
}

/// A CRD's deletion is only issued once its instance cursor has passed every
/// listed instance: all finalizer patches of a CRD precede its deletion.
pub proof fn lemma_patch_before_delete(pre: Engine, event: Event, post: Engine, a: Action)
    requires
        pre.wf(),
        step_spec(pre, event, post, a),
        (a is DeleteCrd),
    ensures
        post.inst_idx == post.instances@.len(),
        (post.phase is AwaitCrdDelete),
{
}

} // verus!
