//! Resolutions fed by hand, one reply at a time.

use element_handle::{
    BackendNodeId, Command, Element, ElementError, Failure, NodeId, Progress, RemoteObjectId,
    Reply, Resolution, Stage, Step, NOT_FOUND,
};
use std::sync::Arc;

fn session() -> Arc<&'static str> {
    Arc::new("tab")
}

fn object(id: &str) -> Option<RemoteObjectId> {
    Some(RemoteObjectId(id.to_string()))
}

fn pending<S: std::fmt::Debug>(progress: Progress<S>) -> Resolution<S> {
    match progress {
        Progress::Pending(resolution) => resolution,
        other => panic!("expected a pending resolution, got {:?}", other),
    }
}

fn resolved<S: std::fmt::Debug>(progress: Progress<S>) -> Element<S> {
    match progress {
        Progress::Resolved(element) => element,
        other => panic!("expected an element, got {:?}", other),
    }
}

fn failed<S: std::fmt::Debug>(progress: Progress<S>) -> ElementError {
    match progress {
        Progress::Failed(error) => error,
        other => panic!("expected an error, got {:?}", other),
    }
}

fn element(node_id: i64, backend_node_id: i64, object_id: &str) -> Element<&'static str> {
    let described = Element::new(session(), NodeId(node_id))
        .advance(Reply::NodeDescribed { backend_node_id: BackendNodeId(backend_node_id) });
    resolved(pending(described).advance(Reply::NodeResolved { object_id: object(object_id) }))
}

#[test]
fn node_seven_resolves_to_its_backend_and_object() {
    let start = Element::new(session(), NodeId(7));
    assert_eq!(start.command(), Command::DescribeNode { node_id: NodeId(7), depth: 100 });

    let second = pending(start.advance(Reply::NodeDescribed { backend_node_id: BackendNodeId(700) }));
    assert_eq!(second.command(), Command::ResolveNode { backend_node_id: BackendNodeId(700) });

    let handle = resolved(second.advance(Reply::NodeResolved { object_id: object("obj-700") }));
    assert_eq!(handle.node_id, NodeId(7));
    assert_eq!(handle.backend_node_id, BackendNodeId(700));
    assert_eq!(handle.remote_object_id, RemoteObjectId("obj-700".to_string()));
}

#[test]
fn missing_selector_below_node_seven_is_no_match() {
    let handle = element(7, 700, "obj-700");
    let lookup = handle.find_element("#missing".to_string());
    assert_eq!(
        lookup.command(),
        Command::QuerySelector { node_id: NodeId(7), selector: "#missing".to_string() }
    );
    let error = failed(lookup.advance(Reply::NodeFound { node_id: NodeId(0) }));
    assert_eq!(
        error,
        ElementError::NoMatch { node_id: NodeId(7), selector: "#missing".to_string() }
    );
}

#[test]
fn the_marker_is_node_id_zero() {
    assert_eq!(NOT_FOUND, 0);
    assert!(NodeId(0).is_not_found());
    assert!(!NodeId(1).is_not_found());
    assert!(!NodeId(-1).is_not_found());
    assert!(!NodeId(i64::MAX).is_not_found());
    assert!(!NodeId(i64::MIN).is_not_found());
}

#[test]
fn a_found_node_is_resolved_next() {
    let handle = element(7, 700, "obj-700");
    let lookup = handle.find_element("div > p".to_string());
    let next = pending(lookup.advance(Reply::NodeFound { node_id: NodeId(31) }));
    assert_eq!(next.command(), Command::DescribeNode { node_id: NodeId(31), depth: 100 });
    let next = pending(next.advance(Reply::NodeDescribed { backend_node_id: BackendNodeId(3100) }));
    assert_eq!(next.command(), Command::ResolveNode { backend_node_id: BackendNodeId(3100) });
    let found = resolved(next.advance(Reply::NodeResolved { object_id: object("obj-3100") }));
    assert_eq!(found.node_id, NodeId(31));
    assert_eq!(found.backend_node_id, BackendNodeId(3100));
    assert_eq!(found.remote_object_id, RemoteObjectId("obj-3100".to_string()));
    assert!(Arc::ptr_eq(found.tab(), handle.tab()));
}

#[test]
fn a_negative_node_id_is_a_node_like_any_other() {
    let handle = element(7, 700, "obj-700");
    let lookup = handle.find_element("p".to_string());
    let next = pending(lookup.advance(Reply::NodeFound { node_id: NodeId(-4) }));
    assert_eq!(next.command(), Command::DescribeNode { node_id: NodeId(-4), depth: 100 });
}

#[test]
fn an_absent_object_makes_no_element() {
    let second = pending(
        Element::new(session(), NodeId(7))
            .advance(Reply::NodeDescribed { backend_node_id: BackendNodeId(700) }),
    );
    let progress = second.advance(Reply::NodeResolved { object_id: None });
    assert!(!matches!(progress, Progress::Resolved(_)));
    assert_eq!(failed(progress), ElementError::UnresolvableNode { node_id: NodeId(7) });
}

#[test]
fn an_empty_object_id_is_still_an_object() {
    let second = pending(
        Element::new(session(), NodeId(7))
            .advance(Reply::NodeDescribed { backend_node_id: BackendNodeId(700) }),
    );
    let handle = resolved(second.advance(Reply::NodeResolved { object_id: object("") }));
    assert_eq!(handle.remote_object_id, RemoteObjectId(String::new()));
}

fn query_stage(scope: i64, selector: &str) -> Stage {
    Stage::Query { scope: NodeId(scope), selector: selector.to_string() }
}

fn describe_stage(node_id: i64) -> Stage {
    Stage::Describe { node_id: NodeId(node_id) }
}

fn resolve_stage(node_id: i64, backend_node_id: i64) -> Stage {
    Stage::Resolve { node_id: NodeId(node_id), backend_node_id: BackendNodeId(backend_node_id) }
}

#[test]
fn a_failed_call_is_reported_with_its_stage() {
    let handle = element(7, 700, "obj-700");

    let at_query = failed(
        handle.find_element("p".to_string()).advance(Reply::Failed(Failure::Transport)),
    );
    assert_eq!(at_query, ElementError::Transport { stage: query_stage(7, "p") });

    let at_describe = failed(
        Element::new(session(), NodeId(7)).advance(Reply::Failed(Failure::Transport)),
    );
    assert_eq!(at_describe, ElementError::Transport { stage: describe_stage(7) });

    let second = pending(
        Element::new(session(), NodeId(7))
            .advance(Reply::NodeDescribed { backend_node_id: BackendNodeId(700) }),
    );
    let at_resolve = failed(second.advance(Reply::Failed(Failure::Transport)));
    assert_eq!(at_resolve, ElementError::Transport { stage: resolve_stage(7, 700) });
}

#[test]
fn a_stale_node_is_reported_with_the_node_that_was_asked_for() {
    let handle = element(7, 700, "obj-700");

    let at_query = failed(
        handle.find_element("p".to_string()).advance(Reply::Failed(Failure::StaleNode)),
    );
    assert_eq!(at_query, ElementError::StaleReference { stage: query_stage(7, "p") });
    assert_eq!(at_query.node_id(), NodeId(7));

    let at_describe = failed(
        Element::new(session(), NodeId(5)).advance(Reply::Failed(Failure::StaleNode)),
    );
    assert_eq!(at_describe, ElementError::StaleReference { stage: describe_stage(5) });
    assert_eq!(at_describe.node_id(), NodeId(5));

    let second = pending(
        Element::new(session(), NodeId(5))
            .advance(Reply::NodeDescribed { backend_node_id: BackendNodeId(500) }),
    );
    let at_resolve = failed(second.advance(Reply::Failed(Failure::StaleNode)));
    assert_eq!(at_resolve, ElementError::StaleReference { stage: resolve_stage(5, 500) });
    assert_eq!(at_resolve.node_id(), NodeId(5));
}

#[test]
fn an_answer_to_another_command_is_a_transport_error() {
    let handle = element(7, 700, "obj-700");

    for reply in [
        Reply::NodeDescribed { backend_node_id: BackendNodeId(1) },
        Reply::NodeResolved { object_id: object("x") },
        Reply::NodeResolved { object_id: None },
    ] {
        let error = failed(handle.find_element("p".to_string()).advance(reply));
        assert_eq!(error, ElementError::Transport { stage: query_stage(7, "p") });
    }

    for reply in [
        Reply::NodeFound { node_id: NodeId(1) },
        Reply::NodeFound { node_id: NodeId(0) },
        Reply::NodeResolved { object_id: object("x") },
        Reply::NodeResolved { object_id: None },
    ] {
        let error = failed(Element::new(session(), NodeId(7)).advance(reply));
        assert_eq!(error, ElementError::Transport { stage: describe_stage(7) });
    }

    for reply in [
        Reply::NodeFound { node_id: NodeId(1) },
        Reply::NodeFound { node_id: NodeId(0) },
        Reply::NodeDescribed { backend_node_id: BackendNodeId(1) },
    ] {
        let second = pending(
            Element::new(session(), NodeId(7))
                .advance(Reply::NodeDescribed { backend_node_id: BackendNodeId(700) }),
        );
        let error = failed(second.advance(reply));
        assert_eq!(error, ElementError::Transport { stage: resolve_stage(7, 700) });
    }
}

#[test]
fn every_error_names_its_step_and_its_node() {
    let errors = [
        (ElementError::Transport { stage: query_stage(3, "a") }, Step::Query, 3),
        (ElementError::Transport { stage: describe_stage(4) }, Step::Describe, 4),
        (ElementError::Transport { stage: resolve_stage(5, 50) }, Step::Resolve, 5),
        (ElementError::StaleReference { stage: query_stage(6, "b") }, Step::Query, 6),
        (ElementError::StaleReference { stage: describe_stage(7) }, Step::Describe, 7),
        (ElementError::StaleReference { stage: resolve_stage(8, 80) }, Step::Resolve, 8),
        (ElementError::UnresolvableNode { node_id: NodeId(9) }, Step::Resolve, 9),
        (
            ElementError::NoMatch { node_id: NodeId(10), selector: "c".to_string() },
            Step::Query,
            10,
        ),
    ];
    for (error, step, node_id) in errors {
        assert_eq!(error.step(), step);
        assert_eq!(error.node_id(), NodeId(node_id));
    }
}

#[test]
fn an_error_names_the_selector_of_the_query_that_failed() {
    let a = "a".to_string();
    assert_eq!(ElementError::Transport { stage: query_stage(3, "a") }.selector(), Some(&a));
    assert_eq!(ElementError::StaleReference { stage: query_stage(3, "a") }.selector(), Some(&a));
    assert_eq!(
        ElementError::NoMatch { node_id: NodeId(3), selector: "a".to_string() }.selector(),
        Some(&a)
    );
    assert_eq!(ElementError::Transport { stage: describe_stage(3) }.selector(), None);
    assert_eq!(ElementError::StaleReference { stage: resolve_stage(3, 30) }.selector(), None);
    assert_eq!(ElementError::UnresolvableNode { node_id: NodeId(3) }.selector(), None);
}

#[test]
fn only_failed_calls_are_protocol_errors() {
    assert!(ElementError::Transport { stage: query_stage(3, "a") }.is_protocol_error());
    assert!(ElementError::StaleReference { stage: resolve_stage(3, 30) }.is_protocol_error());
    assert!(!ElementError::UnresolvableNode { node_id: NodeId(3) }.is_protocol_error());
    assert!(!ElementError::NoMatch { node_id: NodeId(3), selector: "a".to_string() }
        .is_protocol_error());
}

#[test]
fn a_failure_becomes_the_error_of_its_kind() {
    assert_eq!(
        ElementError::of_failure(Failure::Transport, describe_stage(2)),
        ElementError::Transport { stage: describe_stage(2) }
    );
    assert_eq!(
        ElementError::of_failure(Failure::StaleNode, describe_stage(2)),
        ElementError::StaleReference { stage: describe_stage(2) }
    );
}

#[test]
fn a_stage_knows_its_step_its_node_and_its_command() {
    let query = query_stage(7, "p");
    assert_eq!(query.step(), Step::Query);
    assert_eq!(query.subject(), NodeId(7));
    assert_eq!(query.selector(), Some(&"p".to_string()));
    assert_eq!(
        query.command(),
        Command::QuerySelector { node_id: NodeId(7), selector: "p".to_string() }
    );

    let describe = describe_stage(8);
    assert_eq!(describe.step(), Step::Describe);
    assert_eq!(describe.subject(), NodeId(8));
    assert_eq!(describe.selector(), None);
    assert_eq!(describe.command(), Command::DescribeNode { node_id: NodeId(8), depth: 100 });

    let resolve = resolve_stage(9, 900);
    assert_eq!(resolve.step(), Step::Resolve);
    assert_eq!(resolve.subject(), NodeId(9));
    assert_eq!(resolve.selector(), None);
    assert_eq!(resolve.command(), Command::ResolveNode { backend_node_id: BackendNodeId(900) });
}

#[test]
fn a_resolution_shows_the_stage_it_is_at() {
    let handle = element(7, 700, "obj-700");
    let lookup = handle.find_element("p".to_string());
    assert_eq!(lookup.stage(), &query_stage(7, "p"));
    let next = pending(lookup.advance(Reply::NodeFound { node_id: NodeId(31) }));
    assert_eq!(next.stage(), &describe_stage(31));
    let next = pending(next.advance(Reply::NodeDescribed { backend_node_id: BackendNodeId(3100) }));
    assert_eq!(next.stage(), &resolve_stage(31, 3100));
}

#[test]
fn a_resolution_keeps_the_session_it_was_started_on() {
    let tab = session();
    let start = Element::new(Arc::clone(&tab), NodeId(7));
    assert!(Arc::ptr_eq(start.tab(), &tab));
    let second = pending(start.advance(Reply::NodeDescribed { backend_node_id: BackendNodeId(700) }));
    assert!(Arc::ptr_eq(second.tab(), &tab));
    let handle = resolved(second.advance(Reply::NodeResolved { object_id: object("obj-700") }));
    assert!(Arc::ptr_eq(handle.tab(), &tab));
}

#[test]
fn the_selector_is_sent_as_it_was_given() {
    let handle = element(7, 700, "obj-700");
    for selector in ["", "  ", "div[", "#a, .b > c:nth-child(2)", "\u{e9}l\u{e9}ment"] {
        let lookup = handle.find_element(selector.to_string());
        assert_eq!(
            lookup.command(),
            Command::QuerySelector { node_id: NodeId(7), selector: selector.to_string() }
        );
    }
}

#[test]
fn asking_for_the_command_twice_gives_it_twice() {
    let handle = element(7, 700, "obj-700");
    let lookup = handle.find_element("p".to_string());
    assert_eq!(lookup.command(), lookup.command());
}
