use pomfrit::config::Config;
use pomfrit::exporter::create_exporter;
use pomfrit::handle::{MetricsExporterHandle, WaitState};
use pomfrit::writer::{LoopState, RefreshAction, RefreshEvent, RefreshLoop};

fn started_loop(handle: &mut MetricsExporterHandle) -> RefreshLoop {
    let (_exporter, writer, _action) = create_exporter(handle, None);
    writer.spawn()
}

fn sleeping_loop(handle: &mut MetricsExporterHandle, secs: u64) -> RefreshLoop {
    let mut refresh = started_loop(handle);
    handle.set_interval(secs);
    assert_eq!(refresh.step(Some(&*handle), RefreshEvent::Start), RefreshAction::Invoke);
    assert_eq!(
        refresh.step(Some(&*handle), RefreshEvent::Invoked),
        RefreshAction::Sleep { secs }
    );
    refresh
}

#[test]
fn loop_starts_at_the_top() {
    let mut handle = MetricsExporterHandle::new();
    let refresh = started_loop(&mut handle);
    assert_eq!(refresh.state(), LoopState::Top);
}

#[test]
fn first_step_invokes_the_callback() {
    let mut handle = MetricsExporterHandle::new();
    let mut refresh = started_loop(&mut handle);
    assert_eq!(refresh.step(Some(&handle), RefreshEvent::Start), RefreshAction::Invoke);
    assert_eq!(refresh.state(), LoopState::Invoking);
}

#[test]
fn loop_sleeps_the_interval_after_the_callback() {
    let mut handle = MetricsExporterHandle::new();
    let mut refresh = sleeping_loop(&mut handle, 10);
    assert_eq!(refresh.state(), LoopState::Waiting(WaitState::Sleeping { secs: 10 }));
    assert_eq!(refresh.step(Some(&handle), RefreshEvent::Elapsed), RefreshAction::Restart);
    assert_eq!(refresh.state(), LoopState::Top);
    assert_eq!(refresh.step(Some(&handle), RefreshEvent::Start), RefreshAction::Invoke);
}

#[test]
fn shortened_interval_wakes_the_sleeping_loop_at_once() {
    let mut handle = MetricsExporterHandle::new();
    let mut refresh = sleeping_loop(&mut handle, 60);
    handle.set_interval(1);
    assert_eq!(refresh.step(Some(&handle), RefreshEvent::Notified), RefreshAction::Restart);
    assert_eq!(refresh.step(Some(&handle), RefreshEvent::Start), RefreshAction::Invoke);
    assert_eq!(
        refresh.step(Some(&handle), RefreshEvent::Invoked),
        RefreshAction::Sleep { secs: 1 }
    );
}

#[test]
fn zero_interval_stops_the_invocations() {
    let mut handle = MetricsExporterHandle::new();
    let mut refresh = sleeping_loop(&mut handle, 5);
    handle.set_interval(0);
    assert_eq!(refresh.step(Some(&handle), RefreshEvent::Notified), RefreshAction::Park);
    for (event, action) in [
        (RefreshEvent::Notified, RefreshAction::Park),
        (RefreshEvent::Elapsed, RefreshAction::Park),
        (RefreshEvent::Start, RefreshAction::Ignore),
        (RefreshEvent::Invoked, RefreshAction::Ignore),
        (RefreshEvent::Notified, RefreshAction::Park),
    ] {
        assert_eq!(refresh.step(Some(&handle), event), action);
        assert_eq!(refresh.state(), LoopState::Waiting(WaitState::Parked));
    }
}

#[test]
fn sleep_that_runs_out_after_disabling_invokes_once_more() {
    let mut handle = MetricsExporterHandle::new();
    let mut refresh = sleeping_loop(&mut handle, 5);
    handle.set_interval(0);
    assert_eq!(refresh.step(Some(&handle), RefreshEvent::Elapsed), RefreshAction::Restart);
    assert_eq!(refresh.step(Some(&handle), RefreshEvent::Start), RefreshAction::Invoke);
    assert_eq!(refresh.step(Some(&handle), RefreshEvent::Invoked), RefreshAction::Park);
    assert_eq!(refresh.step(Some(&handle), RefreshEvent::Notified), RefreshAction::Park);
    assert_eq!(refresh.step(Some(&handle), RefreshEvent::Elapsed), RefreshAction::Park);
}

#[test]
fn positive_interval_resumes_the_same_loop() {
    let mut handle = MetricsExporterHandle::new();
    let mut refresh = started_loop(&mut handle);
    assert_eq!(refresh.step(Some(&handle), RefreshEvent::Start), RefreshAction::Invoke);
    assert_eq!(refresh.step(Some(&handle), RefreshEvent::Invoked), RefreshAction::Park);

    handle.set_interval(3);
    assert_eq!(
        refresh.step(Some(&handle), RefreshEvent::Notified),
        RefreshAction::Sleep { secs: 3 }
    );
    assert_eq!(refresh.step(Some(&handle), RefreshEvent::Elapsed), RefreshAction::Restart);
    assert_eq!(refresh.step(Some(&handle), RefreshEvent::Start), RefreshAction::Invoke);
}

#[test]
fn loop_ends_when_the_shared_state_is_gone() {
    let mut handle = MetricsExporterHandle::new();
    let mut refresh = sleeping_loop(&mut handle, 5);
    assert_eq!(refresh.step(Some(&handle), RefreshEvent::Elapsed), RefreshAction::Restart);
    assert_eq!(refresh.step(None, RefreshEvent::Start), RefreshAction::Exit);
    assert_eq!(refresh.state(), LoopState::Exited);
    assert_eq!(refresh.step(Some(&handle), RefreshEvent::Start), RefreshAction::Exit);
    assert_eq!(refresh.state(), LoopState::Exited);
}

#[test]
fn loop_that_never_finds_the_shared_state_invokes_nothing() {
    let mut handle = MetricsExporterHandle::new();
    let mut refresh = started_loop(&mut handle);
    assert_eq!(refresh.step(None, RefreshEvent::Start), RefreshAction::Exit);
}

#[test]
fn event_that_answers_nothing_is_ignored() {
    let mut handle = MetricsExporterHandle::new();
    let mut refresh = started_loop(&mut handle);
    for event in [RefreshEvent::Elapsed, RefreshEvent::Notified, RefreshEvent::Invoked] {
        assert_eq!(refresh.step(Some(&handle), event), RefreshAction::Ignore);
        assert_eq!(refresh.state(), LoopState::Top);
    }
    assert_eq!(refresh.step(Some(&handle), RefreshEvent::Start), RefreshAction::Invoke);
    for event in [RefreshEvent::Start, RefreshEvent::Elapsed, RefreshEvent::Notified] {
        assert_eq!(refresh.step(Some(&handle), event), RefreshAction::Ignore);
        assert_eq!(refresh.state(), LoopState::Invoking);
    }
    handle.set_interval(7);
    assert_eq!(
        refresh.step(Some(&handle), RefreshEvent::Invoked),
        RefreshAction::Sleep { secs: 7 }
    );
    for event in [RefreshEvent::Start, RefreshEvent::Invoked] {
        assert_eq!(refresh.step(Some(&handle), event), RefreshAction::Ignore);
        assert_eq!(refresh.state(), LoopState::Waiting(WaitState::Sleeping { secs: 7 }));
    }
}

#[test]
fn loop_reads_the_interval_that_reload_set() {
    let mut handle = MetricsExporterHandle::new();
    let config = Config { collection_interval_sec: 4, ..Config::default() };
    let (mut exporter, writer, _bind) = create_exporter(&mut handle, Some(config));
    let mut refresh = writer.spawn();
    assert_eq!(refresh.step(Some(&handle), RefreshEvent::Start), RefreshAction::Invoke);
    assert_eq!(refresh.step(Some(&handle), RefreshEvent::Invoked), RefreshAction::Park);
    exporter.reload(&mut handle, pomfrit::exporter::ReloadEvent::Bound);
    assert_eq!(
        refresh.step(Some(&handle), RefreshEvent::Notified),
        RefreshAction::Sleep { secs: 4 }
    );
}

#[test]
fn invoke_refreshes_the_snapshot_and_begins_the_wait() {
    let mut handle = MetricsExporterHandle::new();
    let mut refresh = started_loop(&mut handle);
    handle.set_interval(2);
    assert_eq!(refresh.step(Some(&handle), RefreshEvent::Start), RefreshAction::Invoke);
    let action = refresh.invoke(&mut handle, |buffer: &mut pomfrit::buffers::MetricsBuffer| {
        buffer.write("foo 1\n");
    });
    assert_eq!(action, RefreshAction::Sleep { secs: 2 });
    assert_eq!(refresh.state(), LoopState::Waiting(WaitState::Sleeping { secs: 2 }));
    assert_eq!(handle.buffers().get_metrics(), "foo 1\n");
    assert_eq!(handle.interval_sec(), 2);
}

#[test]
fn invoke_that_was_not_asked_for_changes_nothing() {
    let mut handle = MetricsExporterHandle::new();
    let mut refresh = started_loop(&mut handle);
    let action = refresh.invoke(&mut handle, |buffer: &mut pomfrit::buffers::MetricsBuffer| {
        buffer.write("lost");
    });
    assert_eq!(action, RefreshAction::Ignore);
    assert_eq!(refresh.state(), LoopState::Top);
    assert_eq!(handle.buffers().get_metrics(), "");
}
