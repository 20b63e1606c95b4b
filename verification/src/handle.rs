//! The state that the exporter and the writer share: the snapshot buffers
//! and the refresh interval, with the waiting rule of the refresh loop and
//! the answer to an HTTP request.

use crate::buffers::Buffers;
use crate::config::MetricsPath;
use vstd::prelude::*;
use vstd::string::*;

verus! {

/// Status of an answer that carries the snapshot.
pub const STATUS_OK: u16 = 200;

/// Status of an answer to any other request.
pub const STATUS_NOT_FOUND: u16 = 404;

/// Where a refresh loop stands between two refreshes.
#[derive(Clone, Copy, Debug, PartialEq, Eq)]
pub enum WaitState {
    /// No schedule is set: suspended until the interval changes.
    Parked,
    /// Suspended for `secs` seconds or until the interval changes.
    Sleeping { secs: u64 },
    /// The wait is over: the next refresh is due.
    Done,
}

/// What ended a suspension.
#[derive(Clone, Copy, Debug, PartialEq, Eq)]
pub enum WaitEvent {
    /// The interval was set anew.
    Notified,
    /// The sleep ran out.
    Elapsed,
}

/// The suspension that fits an interval: none set parks the loop, any other
/// puts it to sleep for that long.
pub open spec fn wait_for(interval_sec: u64) -> WaitState {
    if interval_sec == 0 {
        WaitState::Parked
    } else {
        WaitState::Sleeping { secs: interval_sec }
    }
}

/// The state after `event` ended the suspension `state`, with the interval
/// read after the event.
///
/// A parked loop looks at the interval again whenever it is notified. A
/// sleeping loop is done when its sleep runs out; notified, it is done at
/// once if a schedule is still set, and parked otherwise.
pub open spec fn wait_step(interval_sec: u64, state: WaitState, event: WaitEvent) -> WaitState {
    match (state, event) {
        (WaitState::Parked, WaitEvent::Notified) => wait_for(interval_sec),
        (WaitState::Parked, WaitEvent::Elapsed) => WaitState::Parked,
        (WaitState::Sleeping { secs }, WaitEvent::Elapsed) => WaitState::Done,
        (WaitState::Sleeping { secs }, WaitEvent::Notified) => if interval_sec > 0 {
            WaitState::Done
        } else {
            WaitState::Parked
        },
        (WaitState::Done, _) => WaitState::Done,
    }
}

/// The answer to an HTTP request.
#[derive(Debug, PartialEq, Eq)]
pub struct Response {
    pub status: u16,
    pub content_type: Option<String>,
    pub body: String,
}

/// An answer with its texts as sequences.
pub struct ResponseView {
    pub status: u16,
    pub content_type: Option<Seq<char>>,
    pub body: Seq<char>,
}

impl View for Response {
    type V = ResponseView;

    open spec fn view(&self) -> ResponseView {
        ResponseView {
            status: self.status,
            content_type: match self.content_type {
                Some(text) => Some(text@),
                None => None,
            },
            body: self.body@,
        }
    }
}

/// Whether a request is one for the snapshot: a `GET` of the configured
/// path, or of any path where none is configured.
pub open spec fn is_metrics_request(
    path: Option<Seq<char>>,
    method: Seq<char>,
    uri: Seq<char>,
) -> bool {
    method == "GET"@ && (path matches Some(p) ==> uri == p)
}

/// The answer to a request while `snapshot` is published: the snapshot as
/// plain text for a metrics request, an empty "not found" for any other.
pub open spec fn response_for(
    path: Option<Seq<char>>,
    method: Seq<char>,
    uri: Seq<char>,
    snapshot: Seq<char>,
) -> ResponseView {
    if is_metrics_request(path, method, uri) {
        ResponseView {
            status: STATUS_OK,
            content_type: Some("text/plain; charset=UTF-8"@),
            body: snapshot,
        }
    } else {
        ResponseView { status: STATUS_NOT_FOUND, content_type: None, body: Seq::empty() }
    }
}

fn same_text(a: &str, b: &str) -> (same: bool)
    ensures
        same == (a@ == b@),
{
    String::from_str(a) == String::from_str(b)
}

/// The state shared by the exporter and the writer.
pub struct MetricsExporterHandle {
    buffers: Buffers,
    interval_sec: u64,
}

impl MetricsExporterHandle {
    /// The refresh interval in seconds; 0 when no schedule is set.
    pub closed spec fn interval(&self) -> u64 {
        self.interval_sec
    }

    /// The snapshot buffers.
    pub closed spec fn buffer_pair(&self) -> Buffers {
        self.buffers
    }

    /// Empty buffers and no schedule.
    pub fn new() -> (handle: Self)
        ensures
            handle.interval() == 0,
            handle.buffer_pair().current() == 0,
            handle.buffer_pair().published() == Seq::<char>::empty(),
            !handle.buffer_pair().writing(),
    {
        MetricsExporterHandle { buffers: Buffers::new(), interval_sec: 0 }
    }

    /// The snapshot buffers.
    pub fn buffers(&self) -> (buffers: &Buffers)
        ensures
            *buffers == self.buffer_pair(),
    {
        &self.buffers
    }

    /// The snapshot buffers, for the writer.
    pub fn buffers_mut(&mut self) -> (buffers: &mut Buffers)
        ensures
            *buffers == old(self).buffer_pair(),
            final(self).buffer_pair() == *final(buffers),
            final(self).interval() == old(self).interval(),
    {
        &mut self.buffers
    }

    /// The refresh interval in seconds.
    pub fn interval_sec(&self) -> (interval_sec: u64)
        ensures
            interval_sec == self.interval(),
    {
        self.interval_sec
    }

    /// Sets the refresh interval and leaves the buffers alone.
    pub fn set_interval(&mut self, interval_sec: u64)
        ensures
            final(self).interval() == interval_sec,
            final(self).buffer_pair() == old(self).buffer_pair(),
    {
        self.interval_sec = interval_sec;
    }

    /// The suspension with which a wait begins.
    pub fn begin_wait(&self) -> (state: WaitState)
        ensures
            state == wait_for(self.interval()),
    {
        if self.interval_sec == 0 {
            WaitState::Parked
        } else {
            WaitState::Sleeping { secs: self.interval_sec }
        }
    }

    /// The state of a wait after `event` ended the suspension `state`.
    pub fn wait(&self, state: WaitState, event: WaitEvent) -> (next: WaitState)
        ensures
            next == wait_step(self.interval(), state, event),
    {
        match state {
            WaitState::Parked => match event {
                WaitEvent::Notified => self.begin_wait(),
                WaitEvent::Elapsed => WaitState::Parked,
            },
            WaitState::Sleeping { secs: _ } => match event {
                WaitEvent::Elapsed => WaitState::Done,
                WaitEvent::Notified => if self.interval_sec > 0 {
                    WaitState::Done
                } else {
                    WaitState::Parked
                },
            },
            WaitState::Done => WaitState::Done,
        }
    }

    /// Answers a request for `uri` with `method`, for an endpoint that
    /// serves `path`.
    pub fn respond(&self, path: Option<&MetricsPath>, method: &str, uri: &str) -> (response:
        Response)
        ensures
            response@ == response_for(
                match path {
                    Some(p) => Some(p@),
                    None => None,
                },
                method@,
                uri@,
                self.buffer_pair().published(),
            ),
    {
        let path_matches = match path {
            Some(p) => same_text(uri, p.as_str()),
            None => true,
        };
        if same_text(method, "GET") && path_matches {
            Response {
                status: STATUS_OK,
                content_type: Some(String::from_str("text/plain; charset=UTF-8")),
                body: self.buffers.get_metrics(),
            }
        } else {
            Response { status: STATUS_NOT_FOUND, content_type: None, body: String::new() }
        }
    }
}

impl Default for MetricsExporterHandle {
    fn default() -> (handle: Self)
        ensures
            handle.interval() == 0,
            handle.buffer_pair().current() == 0,
            handle.buffer_pair().published() == Seq::<char>::empty(),
            !handle.buffer_pair().writing(),
    {
        MetricsExporterHandle::new()
    }
}

} // verus!
