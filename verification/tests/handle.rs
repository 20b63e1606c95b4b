use pomfrit::config::deserialize;
use pomfrit::handle::{
    MetricsExporterHandle, Response, WaitEvent, WaitState, STATUS_NOT_FOUND, STATUS_OK,
};

fn handle_with_snapshot(snapshot: &str) -> MetricsExporterHandle {
    let mut handle = MetricsExporterHandle::new();
    let mut buffer = handle.buffers_mut().acquire_buffer().unwrap();
    buffer.write(snapshot);
    handle.buffers_mut().publish(buffer);
    handle
}

fn not_found() -> Response {
    Response { status: 404, content_type: None, body: String::new() }
}

#[test]
fn new_handle_has_no_schedule_and_an_empty_snapshot() {
    let handle = MetricsExporterHandle::new();
    assert_eq!(handle.interval_sec(), 0);
    assert_eq!(handle.buffers().get_metrics(), "");
    let handle = MetricsExporterHandle::default();
    assert_eq!(handle.interval_sec(), 0);
    assert_eq!(handle.buffers().get_metrics(), "");
}

#[test]
fn set_interval_leaves_the_snapshot() {
    let mut handle = handle_with_snapshot("foo 1\n");
    handle.set_interval(15);
    assert_eq!(handle.interval_sec(), 15);
    assert_eq!(handle.buffers().get_metrics(), "foo 1\n");
}

#[test]
fn get_of_the_configured_path_returns_the_snapshot() {
    let handle = handle_with_snapshot("foo 1\n");
    let path = deserialize("/metrics".to_string()).unwrap();
    let response = handle.respond(Some(&path), "GET", "/metrics");
    assert_eq!(response.status, 200);
    assert_eq!(response.content_type.as_deref(), Some("text/plain; charset=UTF-8"));
    assert_eq!(response.body, "foo 1\n");
    assert_eq!(STATUS_OK, 200);
}

#[test]
fn post_of_the_configured_path_is_not_found() {
    let handle = handle_with_snapshot("foo 1\n");
    let path = deserialize("/metrics".to_string()).unwrap();
    assert_eq!(handle.respond(Some(&path), "POST", "/metrics"), not_found());
    assert_eq!(STATUS_NOT_FOUND, 404);
}

#[test]
fn get_of_another_path_is_not_found() {
    let handle = handle_with_snapshot("foo 1\n");
    let path = deserialize("/metrics".to_string()).unwrap();
    assert_eq!(handle.respond(Some(&path), "GET", "/other"), not_found());
    assert_eq!(handle.respond(Some(&path), "GET", "/metrics/"), not_found());
    assert_eq!(handle.respond(Some(&path), "GET", "/metrics?x=1"), not_found());
    assert_eq!(handle.respond(Some(&path), "GET", "/"), not_found());
    assert_eq!(handle.respond(Some(&path), "GET", ""), not_found());
}

#[test]
fn method_is_matched_exactly() {
    let handle = handle_with_snapshot("foo 1\n");
    let path = deserialize("/metrics".to_string()).unwrap();
    assert_eq!(handle.respond(Some(&path), "get", "/metrics"), not_found());
    assert_eq!(handle.respond(Some(&path), "HEAD", "/metrics"), not_found());
    assert_eq!(handle.respond(Some(&path), "", "/metrics"), not_found());
}

#[test]
fn without_a_configured_path_every_path_is_served() {
    let handle = handle_with_snapshot("foo 1\n");
    let response = handle.respond(None, "GET", "/anything");
    assert_eq!(response.status, 200);
    assert_eq!(response.body, "foo 1\n");
    assert_eq!(handle.respond(None, "POST", "/anything"), not_found());
}

#[test]
fn response_body_is_the_snapshot_byte_for_byte() {
    let snapshot = "a{l=\"v\"} 1\nb 2\n\u{e9} \"quoted\"\n";
    let handle = handle_with_snapshot(snapshot);
    assert_eq!(handle.respond(None, "GET", "/").body, snapshot);
}

#[test]
fn answer_before_any_write_is_empty() {
    let handle = MetricsExporterHandle::new();
    let response = handle.respond(None, "GET", "/metrics");
    assert_eq!(response.status, 200);
    assert_eq!(response.body, "");
}

#[test]
fn wait_begins_parked_without_a_schedule() {
    let handle = MetricsExporterHandle::new();
    assert_eq!(handle.begin_wait(), WaitState::Parked);
}

#[test]
fn wait_begins_asleep_with_a_schedule() {
    let mut handle = MetricsExporterHandle::new();
    handle.set_interval(10);
    assert_eq!(handle.begin_wait(), WaitState::Sleeping { secs: 10 });
}

#[test]
fn sleep_that_runs_out_ends_the_wait() {
    let mut handle = MetricsExporterHandle::new();
    handle.set_interval(10);
    assert_eq!(handle.wait(WaitState::Sleeping { secs: 10 }, WaitEvent::Elapsed), WaitState::Done);
    handle.set_interval(0);
    assert_eq!(handle.wait(WaitState::Sleeping { secs: 10 }, WaitEvent::Elapsed), WaitState::Done);
}

#[test]
fn notified_sleeper_is_done_when_a_schedule_is_set() {
    let mut handle = MetricsExporterHandle::new();
    handle.set_interval(1);
    assert_eq!(
        handle.wait(WaitState::Sleeping { secs: 60 }, WaitEvent::Notified),
        WaitState::Done
    );
}

#[test]
fn notified_sleeper_parks_when_the_schedule_is_off() {
    let handle = MetricsExporterHandle::new();
    assert_eq!(
        handle.wait(WaitState::Sleeping { secs: 60 }, WaitEvent::Notified),
        WaitState::Parked
    );
}

#[test]
fn notified_parked_loop_looks_at_the_interval_again() {
    let mut handle = MetricsExporterHandle::new();
    assert_eq!(handle.wait(WaitState::Parked, WaitEvent::Notified), WaitState::Parked);
    handle.set_interval(5);
    assert_eq!(
        handle.wait(WaitState::Parked, WaitEvent::Notified),
        WaitState::Sleeping { secs: 5 }
    );
}

#[test]
fn parked_loop_has_no_sleep_to_run_out() {
    let mut handle = MetricsExporterHandle::new();
    handle.set_interval(5);
    assert_eq!(handle.wait(WaitState::Parked, WaitEvent::Elapsed), WaitState::Parked);
}

#[test]
fn finished_wait_stays_finished() {
    let handle = MetricsExporterHandle::new();
    assert_eq!(handle.wait(WaitState::Done, WaitEvent::Notified), WaitState::Done);
    assert_eq!(handle.wait(WaitState::Done, WaitEvent::Elapsed), WaitState::Done);
}
