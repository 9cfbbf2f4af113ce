use crd_teardown::engine::{Action, Engine, Event, FatalError, Mode, Note};
use crd_teardown::model::{Crd, CrdVersion, InstanceRef};

const HOST_LABEL: &str = "operators.coreos.com/toolchain-host-operator.toolchain-host-operator";
const MEMBER_LABEL: &str =
    "operators.coreos.com/toolchain-member-operator.toolchain-member-operator";
const WEBHOOK: &str = "member-operator-validating-webhook-toolchain-member-operator";
const TOKEN: &str = "finalizer.toolchain.dev.openshift.com";

fn version(name: &str, served: bool, storage: bool) -> CrdVersion {
    CrdVersion { name: name.to_string(), served, storage }
}

fn crd(name: &str, group: &str, kind: &str, plural: &str, versions: Vec<CrdVersion>) -> Crd {
    Crd {
        name: name.to_string(),
        group: group.to_string(),
        kind: kind.to_string(),
        plural: plural.to_string(),
        versions,
    }
}

fn widgets() -> Crd {
    crd(
        "widgets.example.com",
        "example.com",
        "Widget",
        "widgets",
        vec![version("v1alpha1", true, true), version("v1", true, false)],
    )
}

fn gadgets_without_storage() -> Crd {
    crd(
        "gadgets.example.com",
        "example.com",
        "Gadget",
        "gadgets",
        vec![version("v1", true, false)],
    )
}

fn instance(namespace: &str, name: &str) -> InstanceRef {
    InstanceRef { namespace: namespace.to_string(), name: name.to_string() }
}

fn strings(v: &[&str]) -> Vec<String> {
    v.iter().map(|s| s.to_string()).collect()
}

#[test]
fn host_run_patches_instances_then_deletes_the_crd() {
    let mut e = Engine::new(Mode::Host, false);

    let a = e.step(Event::Start);
    match a {
        Action::ListCrds { label } => assert_eq!(label, HOST_LABEL),
        other => panic!("expected ListCrds, got {:?}", other),
    }

    let a = e.step(Event::CrdsListed { crds: vec![widgets()] });
    assert!(matches!(a, Action::Report));
    assert_eq!(e.summary.notes.last(), Some(&Note::DiscoveryComplete));

    let a = e.step(Event::Proceed);
    match a {
        Action::ListInstances { coords } => {
            // the storage version is selected, not the newest served one
            assert_eq!(coords.version, "v1alpha1");
            assert_eq!(coords.api_version, "example.com/v1alpha1");
            assert_eq!(coords.plural, "widgets");
        },
        other => panic!("expected ListInstances, got {:?}", other),
    }

    let a = e.step(Event::InstancesListed { instances: vec![instance("default", "my-widget")] });
    match a {
        Action::FetchInstance { namespace, name } => {
            assert_eq!(namespace, "default");
            assert_eq!(name, "my-widget");
        },
        other => panic!("expected FetchInstance, got {:?}", other),
    }

    let a = e.step(Event::InstanceFetched {
        finalizers: Some(strings(&[TOKEN, "other.io/keep"])),
        resource_version: "42".to_string(),
    });
    match a {
        Action::ReplaceInstance { namespace, name, finalizers, resource_version } => {
            assert_eq!(namespace, "default");
            assert_eq!(name, "my-widget");
            assert_eq!(finalizers, strings(&["other.io/keep"]));
            assert_eq!(resource_version, "42");
        },
        other => panic!("expected ReplaceInstance, got {:?}", other),
    }

    let a = e.step(Event::InstanceReplaced);
    match a {
        Action::DeleteCrd { name } => assert_eq!(name, "widgets.example.com"),
        other => panic!("expected DeleteCrd, got {:?}", other),
    }

    let a = e.step(Event::CrdDeleted { already_absent: false });
    assert!(matches!(a, Action::Report));

    let a = e.step(Event::Proceed);
    assert!(matches!(a, Action::Finish));
    assert!(e.summary.fatal.is_none());
    assert!(e.summary.notes.contains(&Note::InstancePatched {
        namespace: "default".to_string(),
        name: "my-widget".to_string(),
    }));
    assert!(e.summary.notes.contains(&Note::CrdDeleted {
        name: "widgets.example.com".to_string(),
        already_absent: false,
    }));
}

#[test]
fn crd_without_storage_version_is_skipped_and_the_run_goes_on() {
    let mut e = Engine::new(Mode::Host, false);
    e.step(Event::Start);
    let a = e.step(Event::CrdsListed { crds: vec![gadgets_without_storage(), widgets()] });
    assert!(matches!(a, Action::Report));

    // the malformed CRD is skipped with a recorded error ...
    let a = e.step(Event::Proceed);
    assert!(matches!(a, Action::Report));
    match e.summary.notes.last() {
        Some(Note::CrdSkipped { name, .. }) => assert_eq!(name, "gadgets.example.com"),
        other => panic!("expected CrdSkipped, got {:?}", other),
    }

    // ... and the next CRD is still processed
    let a = e.step(Event::Proceed);
    match a {
        Action::ListInstances { coords } => assert_eq!(coords.plural, "widgets"),
        other => panic!("expected ListInstances, got {:?}", other),
    }
    let a = e.step(Event::InstancesListed { instances: vec![] });
    assert!(matches!(a, Action::DeleteCrd { .. }));
    let a = e.step(Event::CrdDeleted { already_absent: false });
    assert!(matches!(a, Action::Report));
    let a = e.step(Event::Proceed);
    assert!(matches!(a, Action::Finish));
    assert!(e.summary.fatal.is_none());
}

#[test]
fn deleting_an_absent_crd_is_a_success() {
    let mut e = Engine::new(Mode::Host, false);
    e.step(Event::Start);
    e.step(Event::CrdsListed { crds: vec![widgets()] });
    e.step(Event::Proceed);
    e.step(Event::InstancesListed { instances: vec![] });
    // the CRD is already gone: the outcome is recorded as a deletion, not an error
    let a = e.step(Event::CrdDeleted { already_absent: true });
    assert!(matches!(a, Action::Report));
    assert_eq!(
        e.summary.notes.last(),
        Some(&Note::CrdDeleted { name: "widgets.example.com".to_string(), already_absent: true })
    );
    let a = e.step(Event::Proceed);
    assert!(matches!(a, Action::Finish));
    assert!(e.summary.fatal.is_none());
}

#[test]
fn one_failed_instance_does_not_stop_the_rest() {
    let crd_x = widgets();
    let crd_y = crd(
        "others.example.com",
        "example.com",
        "Other",
        "others",
        vec![version("v1", true, true)],
    );
    let mut e = Engine::new(Mode::Host, false);
    e.step(Event::Start);
    e.step(Event::CrdsListed { crds: vec![crd_x, crd_y] });
    e.step(Event::Proceed);
    let a = e.step(Event::InstancesListed {
        instances: vec![instance("ns", "b"), instance("ns", "c")],
    });
    assert!(matches!(a, Action::FetchInstance { .. }));
    e.step(Event::InstanceFetched {
        finalizers: Some(strings(&[TOKEN])),
        resource_version: "1".to_string(),
    });
    // the write of instance b fails; instance c is still attempted
    let a = e.step(Event::InstanceReplaceFailed);
    match a {
        Action::FetchInstance { namespace, name } => {
            assert_eq!(namespace, "ns");
            assert_eq!(name, "c");
        },
        other => panic!("expected FetchInstance for c, got {:?}", other),
    }
    // instance c cannot even be fetched; the CRD is still deleted
    let a = e.step(Event::InstanceFetchFailed);
    match a {
        Action::DeleteCrd { name } => assert_eq!(name, "widgets.example.com"),
        other => panic!("expected DeleteCrd, got {:?}", other),
    }
    let a = e.step(Event::CrdDeleted { already_absent: false });
    assert!(matches!(a, Action::Report));
    // and the next CRD is still processed
    let a = e.step(Event::Proceed);
    match a {
        Action::ListInstances { coords } => assert_eq!(coords.plural, "others"),
        other => panic!("expected ListInstances, got {:?}", other),
    }
    let failures: Vec<&Note> = e
        .summary
        .notes
        .iter()
        .filter(|n| {
            matches!(n, Note::InstanceReplaceFailed { .. } | Note::InstanceFetchFailed { .. })
        })
        .collect();
    assert_eq!(failures.len(), 2);
    assert!(e.summary.fatal.is_none());
}

#[test]
fn webhook_is_removed_before_any_discovery() {
    let mut e = Engine::new(Mode::Member, true);
    let a = e.step(Event::Start);
    match a {
        Action::DeleteWebhook { name } => assert_eq!(name, WEBHOOK),
        other => panic!("expected DeleteWebhook, got {:?}", other),
    }
    let a = e.step(Event::WebhookRemoved { already_absent: false });
    match a {
        Action::ListCrds { label } => assert_eq!(label, MEMBER_LABEL),
        other => panic!("expected ListCrds, got {:?}", other),
    }
}

#[test]
fn webhook_failure_is_fatal() {
    let mut e = Engine::new(Mode::Member, true);
    e.step(Event::Start);
    let a = e.step(Event::WebhookFailed);
    assert!(matches!(a, Action::Finish));
    assert_eq!(e.summary.fatal, Some(FatalError::WebhookRemoval));
}

#[test]
fn discovery_failure_is_fatal() {
    let mut e = Engine::new(Mode::Host, false);
    e.step(Event::Start);
    let a = e.step(Event::CrdListFailed);
    assert!(matches!(a, Action::Finish));
    assert_eq!(e.summary.fatal, Some(FatalError::Discovery));
}

#[test]
fn all_mode_merges_both_scopes_by_name() {
    let mut e = Engine::new(Mode::All, false);
    let a = e.step(Event::Start);
    match a {
        Action::ListCrds { label } => assert_eq!(label, HOST_LABEL),
        other => panic!("expected ListCrds, got {:?}", other),
    }
    let a = e.step(Event::CrdsListed { crds: vec![widgets()] });
    match a {
        Action::ListCrds { label } => assert_eq!(label, MEMBER_LABEL),
        other => panic!("expected ListCrds, got {:?}", other),
    }
    // the member scope reports the same CRD: it is processed exactly once
    let a = e.step(Event::CrdsListed { crds: vec![widgets()] });
    assert!(matches!(a, Action::Report));
    assert_eq!(e.work.len(), 1);
    e.step(Event::Proceed);
    e.step(Event::InstancesListed { instances: vec![] });
    e.step(Event::CrdDeleted { already_absent: false });
    let a = e.step(Event::Proceed);
    assert!(matches!(a, Action::Finish));
    let deletions: Vec<&Note> = e
        .summary
        .notes
        .iter()
        .filter(|n| matches!(n, Note::CrdDeleted { .. }))
        .collect();
    assert_eq!(deletions.len(), 1);
}

#[test]
fn enumeration_failure_skips_only_that_crd() {
    let crd_y = crd(
        "others.example.com",
        "example.com",
        "Other",
        "others",
        vec![version("v1", true, true)],
    );
    let mut e = Engine::new(Mode::Host, false);
    e.step(Event::Start);
    e.step(Event::CrdsListed { crds: vec![widgets(), crd_y] });
    e.step(Event::Proceed);
    let a = e.step(Event::InstanceListFailed);
    assert!(matches!(a, Action::Report));
    assert_eq!(
        e.summary.notes.last(),
        Some(&Note::CrdEnumerationFailed { name: "widgets.example.com".to_string() })
    );
    let a = e.step(Event::Proceed);
    match a {
        Action::ListInstances { coords } => assert_eq!(coords.plural, "others"),
        other => panic!("expected ListInstances, got {:?}", other),
    }
}

#[test]
fn clean_instance_is_left_untouched() {
    let mut e = Engine::new(Mode::Host, false);
    e.step(Event::Start);
    e.step(Event::CrdsListed { crds: vec![widgets()] });
    e.step(Event::Proceed);
    e.step(Event::InstancesListed { instances: vec![instance("default", "my-widget")] });
    // no finalizer field at all: nothing is written back
    let a = e.step(Event::InstanceFetched { finalizers: None, resource_version: "7".to_string() });
    assert!(matches!(a, Action::DeleteCrd { .. }));
    assert_eq!(
        e.summary.notes.last(),
        Some(&Note::InstanceAlreadyClean {
            namespace: "default".to_string(),
            name: "my-widget".to_string(),
        })
    );
}

#[test]
fn instance_without_the_token_is_not_written() {
    let mut e = Engine::new(Mode::Host, false);
    e.step(Event::Start);
    e.step(Event::CrdsListed { crds: vec![widgets()] });
    e.step(Event::Proceed);
    e.step(Event::InstancesListed { instances: vec![instance("default", "my-widget")] });
    let a = e.step(Event::InstanceFetched {
        finalizers: Some(strings(&["other.io/keep"])),
        resource_version: "7".to_string(),
    });
    // a second run finds exactly what the first wrote and plans no write
    assert!(matches!(a, Action::DeleteCrd { .. }));
}

#[test]
fn second_run_finds_nothing_and_mutates_nothing() {
    // after a completed run every target is gone: discovery is empty and the
    // run finishes without issuing a single mutating action
    let mut e = Engine::new(Mode::Host, false);
    e.step(Event::Start);
    let a = e.step(Event::CrdsListed { crds: vec![] });
    assert!(matches!(a, Action::Report));
    let a = e.step(Event::Proceed);
    assert!(matches!(a, Action::Finish));
    assert!(e.summary.fatal.is_none());
    assert_eq!(e.summary.notes, vec![Note::DiscoveryComplete]);
}
