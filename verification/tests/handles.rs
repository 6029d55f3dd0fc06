use std::collections::HashMap;

use ort::error::{Error, ErrorStatus};
use ort::session::{CachedName, Session, SessionBuilder};
use ort::{ReleaseAction, ResourceKind, Wrapper};

fn name(raw: usize, text: &str) -> CachedName {
    CachedName::new(
        Wrapper::new(raw, ResourceKind::AllocatedChars),
        text.to_string(),
    )
}

fn small_session() -> Session {
    Session::new(
        Wrapper::new(0x10, ResourceKind::Env),
        Wrapper::new(0x20, ResourceKind::Session),
        0x30,
        vec![name(0x41, "a"), name(0x42, "c")],
        vec![name(0x51, "b")],
    )
}

/// A fake destructor: counts how often each pointer word is destroyed.
fn run_destructors(actions: &[ReleaseAction]) -> HashMap<usize, usize> {
    let mut counts: HashMap<usize, usize> = HashMap::new();
    for a in actions {
        assert_ne!(a.raw, 0, "destructor called on a null pointer");
        *counts.entry(a.raw).or_insert(0) += 1;
    }
    counts
}

#[test]
fn release_reports_pointer_and_kind() {
    let w = Wrapper::new(7, ResourceKind::RunOptions);
    assert_eq!(w.raw(), 7);
    assert_eq!(w.kind(), ResourceKind::RunOptions);
    let action = w.release();
    assert_eq!(action, ReleaseAction { raw: 7, kind: ResourceKind::RunOptions });
}

#[test]
fn thread_shareable_only_for_documented_kinds() {
    assert!(ResourceKind::Env.thread_shareable());
    assert!(ResourceKind::Session.thread_shareable());
    assert!(!ResourceKind::SessionOptions.thread_shareable());
    assert!(!ResourceKind::RunOptions.thread_shareable());
    assert!(!ResourceKind::Value.thread_shareable());
    assert!(!ResourceKind::AllocatedChars.thread_shareable());
}

#[test]
fn close_releases_every_resource_exactly_once() {
    let session = small_session();
    let actions = session.close();
    let counts = run_destructors(&actions);
    let expected: Vec<usize> = vec![0x41, 0x42, 0x51, 0x20, 0x10];
    assert_eq!(counts.len(), expected.len());
    for raw in expected {
        assert_eq!(counts[&raw], 1, "resource {raw:#x} not released exactly once");
    }
    // Names are freed first, then the session, then the environment.
    assert_eq!(actions[3], ReleaseAction { raw: 0x20, kind: ResourceKind::Session });
    assert_eq!(actions[4], ReleaseAction { raw: 0x10, kind: ResourceKind::Env });
}

#[test]
fn failed_construction_releases_everything_acquired() {
    let mut builder = SessionBuilder::new();
    builder.supply_env(Wrapper::new(0x10, ResourceKind::Env));
    builder.supply_opts(Wrapper::new(0x11, ResourceKind::SessionOptions));
    builder.supply_sess(Wrapper::new(0x12, ResourceKind::Session));
    builder.supply_allocator(0x30);
    builder.supply_input_names(vec![name(0x41, "a")]);
    // The output-name query fails: the construction must leak nothing,
    // the already-queried input names included.
    let status = ErrorStatus::new("bad model".to_string(), 2);
    let (actions, err) = builder.fail(status.clone());
    let counts = run_destructors(&actions);
    assert_eq!(counts.len(), 4);
    for raw in [0x41usize, 0x12, 0x11, 0x10] {
        assert_eq!(counts[&raw], 1, "resource {raw:#x} not released exactly once");
    }
    assert_eq!(err, Error::Engine(status));
}

#[test]
fn early_failure_releases_only_what_exists() {
    let mut builder = SessionBuilder::new();
    builder.supply_env(Wrapper::new(0x10, ResourceKind::Env));
    let (actions, err) = builder.fail(ErrorStatus::new("no memory".to_string(), 1));
    assert_eq!(actions, vec![ReleaseAction { raw: 0x10, kind: ResourceKind::Env }]);
    assert!(matches!(err, Error::Engine(_)));
}

#[test]
fn finished_construction_hands_back_the_options_release() {
    let mut builder = SessionBuilder::new();
    builder.supply_env(Wrapper::new(0x10, ResourceKind::Env));
    builder.supply_opts(Wrapper::new(0x11, ResourceKind::SessionOptions));
    builder.supply_sess(Wrapper::new(0x12, ResourceKind::Session));
    builder.supply_allocator(0x30);
    builder.supply_input_names(vec![name(0x41, "a")]);
    builder.supply_output_names(vec![name(0x51, "b")]);
    let (session, actions) = builder.finish();
    assert_eq!(actions, vec![ReleaseAction { raw: 0x11, kind: ResourceKind::SessionOptions }]);
    assert_eq!(session.input_names().len(), 1);
    assert_eq!(session.input_names()[0].text(), "a");
    assert_eq!(session.output_names()[0].text(), "b");
    // Taken together with the close actions, every handle that ever existed
    // is destroyed exactly once.
    let mut all = actions;
    all.extend(session.close());
    let counts = run_destructors(&all);
    assert_eq!(counts.len(), 5);
    for raw in [0x10usize, 0x11, 0x12, 0x41, 0x51] {
        assert_eq!(counts[&raw], 1);
    }
}

#[test]
fn name_lookup_by_index_checks_the_count() {
    let session = small_session();
    assert_eq!(session.input_name_at(0).unwrap().text(), "a");
    assert_eq!(session.input_name_at(1).unwrap().text(), "c");
    assert_eq!(
        session.input_name_at(2).unwrap_err(),
        Error::Index { index: 2, count: 2 }
    );
    assert_eq!(session.output_name_at(0).unwrap().text(), "b");
    assert_eq!(
        session.output_name_at(5).unwrap_err(),
        Error::Index { index: 5, count: 1 }
    );
    session.close();
}

#[test]
fn model_metadata_is_copied_and_each_buffer_freed_once() {
    let session = small_session();
    let entries = vec![
        (name(0x81, "producer"), name(0x82, "unit-test")),
        (name(0x83, "version"), name(0x84, "1")),
    ];
    let (pairs, actions) = session.get_model_metadata(entries);
    assert_eq!(
        pairs,
        vec![
            ("producer".to_string(), "unit-test".to_string()),
            ("version".to_string(), "1".to_string()),
        ]
    );
    let counts = run_destructors(&actions);
    assert_eq!(counts.len(), 4);
    for raw in [0x81usize, 0x82, 0x83, 0x84] {
        assert_eq!(counts[&raw], 1);
    }
    session.close();
}

#[test]
fn error_status_records_message_and_code() {
    let status = ErrorStatus::new("invalid protobuf".to_string(), 7);
    assert_eq!(status.message(), "invalid protobuf");
    assert_eq!(status.code(), 7);
}
