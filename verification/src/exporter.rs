//! The endpoint manager: at most one HTTP listener, replaced or removed by
//! `reload`, which drains the old listener before anything else happens.
//!
//! `reload` is one step of a reconfiguration. It takes what has just
//! happened and returns what the caller has to do next; the caller does it
//! and comes back with the outcome, until the step returns `Notify` or
//! `Fail`.

use crate::config::{path_view, Config, ConfigView, ListenAddress, MetricsPath};
use crate::handle::MetricsExporterHandle;
use crate::writer::MetricsWriter;
use vstd::prelude::*;

verus! {

/// A bound listener: where it listens and which path it serves.
#[derive(Debug, PartialEq, Eq)]
pub struct RunningEndpoint {
    pub listen_address: ListenAddress,
    pub metrics_path: Option<MetricsPath>,
}

/// A listener with its path as a sequence.
pub struct EndpointView {
    pub listen_address: ListenAddress,
    pub metrics_path: Option<Seq<char>>,
}

impl View for RunningEndpoint {
    type V = EndpointView;

    open spec fn view(&self) -> EndpointView {
        EndpointView {
            listen_address: self.listen_address,
            metrics_path: path_view(self.metrics_path),
        }
    }
}

/// The listener that `config` asks for.
pub open spec fn endpoint_of(config: ConfigView) -> EndpointView {
    EndpointView { listen_address: config.listen_address, metrics_path: config.metrics_path }
}

/// Why a reconfiguration failed.
#[derive(Clone, Copy, Debug, PartialEq, Eq)]
pub enum ReloadError {
    /// The listener could not bind its address.
    BindFailed,
    /// The event does not answer what the previous step asked for.
    OutOfOrder,
}

/// What has just happened.
#[derive(Debug, PartialEq, Eq)]
pub enum ReloadEvent {
    /// A new configuration is requested; `None` disables the exporter.
    Request(Option<Config>),
    /// The listener that was asked to stop has stopped and released its
    /// socket.
    Stopped,
    /// The listener that was asked for is bound and serving.
    Bound,
    /// The listener that was asked for could not bind its address.
    BindFailed,
}

/// An event with its texts as sequences.
pub enum ReloadEventView {
    Request(Option<ConfigView>),
    Stopped,
    Bound,
    BindFailed,
}

impl View for ReloadEvent {
    type V = ReloadEventView;

    open spec fn view(&self) -> ReloadEventView {
        match self {
            ReloadEvent::Request(Some(config)) => ReloadEventView::Request(Some(config@)),
            ReloadEvent::Request(None) => ReloadEventView::Request(None),
            ReloadEvent::Stopped => ReloadEventView::Stopped,
            ReloadEvent::Bound => ReloadEventView::Bound,
            ReloadEvent::BindFailed => ReloadEventView::BindFailed,
        }
    }
}

/// What the caller has to do next.
#[derive(Debug, PartialEq, Eq)]
pub enum ReloadAction {
    /// Ask the running listener to stop, wait until it has stopped, then
    /// report `Stopped`.
    Stop,
    /// Bind a listener and start serving, then report `Bound` or
    /// `BindFailed`.
    Bind { listen_address: ListenAddress, metrics_path: Option<MetricsPath> },
    /// The reconfiguration is done: wake the refresh loops.
    Notify,
    /// The reconfiguration has failed.
    Fail(ReloadError),
}

/// An action with its texts as sequences.
pub enum ReloadActionView {
    Stop,
    Bind { listen_address: ListenAddress, metrics_path: Option<Seq<char>> },
    Notify,
    Fail(ReloadError),
}

impl View for ReloadAction {
    type V = ReloadActionView;

    open spec fn view(&self) -> ReloadActionView {
        match self {
            ReloadAction::Stop => ReloadActionView::Stop,
            ReloadAction::Bind { listen_address, metrics_path } => ReloadActionView::Bind {
                listen_address: *listen_address,
                metrics_path: path_view(*metrics_path),
            },
            ReloadAction::Notify => ReloadActionView::Notify,
            ReloadAction::Fail(error) => ReloadActionView::Fail(*error),
        }
    }
}

/// The states of the endpoint manager.
enum Lifecycle {
    /// No listener.
    Disabled,
    /// One listener, bound and serving.
    Running(RunningEndpoint),
    /// The listener was asked to stop and still holds its socket;
    /// `pending` is what follows it.
    Draining { old: RunningEndpoint, pending: Option<Config> },
    /// No listener; the one that `config` asks for is being bound.
    Binding { config: Config },
}

/// The states of the endpoint manager, as plain values.
pub enum LifecycleView {
    Disabled,
    Running(EndpointView),
    Draining { old: EndpointView, pending: Option<ConfigView> },
    Binding { config: ConfigView },
}

impl View for Lifecycle {
    type V = LifecycleView;

    closed spec fn view(&self) -> LifecycleView {
        match self {
            Lifecycle::Disabled => LifecycleView::Disabled,
            Lifecycle::Running(endpoint) => LifecycleView::Running(endpoint@),
            Lifecycle::Draining { old, pending: Some(config) } => LifecycleView::Draining {
                old: old@,
                pending: Some(config@),
            },
            Lifecycle::Draining { old, pending: None } => LifecycleView::Draining {
                old: old@,
                pending: None,
            },
            Lifecycle::Binding { config } => LifecycleView::Binding { config: config@ },
        }
    }
}

/// The listener that holds a socket in `state`, if any.
pub open spec fn bound_listener(state: LifecycleView) -> Option<EndpointView> {
    match state {
        LifecycleView::Disabled => None,
        LifecycleView::Running(endpoint) => Some(endpoint),
        LifecycleView::Draining { old, pending } => Some(old),
        LifecycleView::Binding { config } => None,
    }
}

/// Whether a reconfiguration is under way in `state`.
pub open spec fn reloading(state: LifecycleView) -> bool {
    state is Draining || state is Binding
}

/// One step of a reconfiguration: the state, the refresh interval and the
/// action that follow.
pub struct ReloadStep {
    pub state: LifecycleView,
    pub interval_sec: u64,
    pub action: ReloadActionView,
}

/// What follows once no listener is left: with no configuration the
/// exporter is disabled and the schedule switched off; with one its
/// listener is asked for.
pub open spec fn after_drain(next: Option<ConfigView>, interval_sec: u64) -> ReloadStep {
    match next {
        None => ReloadStep {
            state: LifecycleView::Disabled,
            interval_sec: 0,
            action: ReloadActionView::Notify,
        },
        Some(config) => ReloadStep {
            state: LifecycleView::Binding { config },
            interval_sec,
            action: ReloadActionView::Bind {
                listen_address: config.listen_address,
                metrics_path: config.metrics_path,
            },
        },
    }
}

/// The step that `event` causes in `state`.
///
/// A request finds the manager at rest. With a listener running, the
/// listener is asked to stop and the request waits for `Stopped`; without
/// one the request goes on at once. A bound listener takes the slot and its
/// configuration sets the interval. A failed bind leaves the slot empty and
/// the interval as it was. An event that answers nothing changes nothing.
pub open spec fn reload_step(
    state: LifecycleView,
    interval_sec: u64,
    event: ReloadEventView,
) -> ReloadStep {
    match (state, event) {
        (LifecycleView::Disabled, ReloadEventView::Request(next)) => after_drain(
            next,
            interval_sec,
        ),
        (LifecycleView::Running(old), ReloadEventView::Request(next)) => ReloadStep {
            state: LifecycleView::Draining { old, pending: next },
            interval_sec,
            action: ReloadActionView::Stop,
        },
        (LifecycleView::Draining { old, pending }, ReloadEventView::Stopped) => after_drain(
            pending,
            interval_sec,
        ),
        (LifecycleView::Binding { config }, ReloadEventView::Bound) => ReloadStep {
            state: LifecycleView::Running(endpoint_of(config)),
            interval_sec: config.collection_interval_sec,
            action: ReloadActionView::Notify,
        },
        (LifecycleView::Binding { config }, ReloadEventView::BindFailed) => ReloadStep {
            state: LifecycleView::Disabled,
            interval_sec,
            action: ReloadActionView::Fail(ReloadError::BindFailed),
        },
        _ => ReloadStep {
            state,
            interval_sec,
            action: ReloadActionView::Fail(ReloadError::OutOfOrder),
        },
    }
}

/// No step puts one listener in the place of another: where a listener
/// holds a socket before a step and one holds a socket after it, it is the
/// same listener. A bind is asked for only while no listener holds a
/// socket, and a listener appears only as the answer to `Bound`.
pub proof fn lemma_one_listener_at_a_time(
    state: LifecycleView,
    interval_sec: u64,
    event: ReloadEventView,
)
    ensures
        ({
            let step = reload_step(state, interval_sec, event);
            &&& bound_listener(state) is Some && bound_listener(step.state) is Some
                ==> bound_listener(step.state) == bound_listener(state)
            &&& step.action is Bind ==> bound_listener(step.state) is None && step.state is Binding
            &&& bound_listener(state) is None && bound_listener(step.state) is Some ==> state
                is Binding && event is Bound
        }),
{
}

/// Reconfiguring a running exporter drains the old listener first. The
/// request asks the old listener to stop and binds nothing. Until the old
/// listener has stopped, nothing else is accepted and it keeps the only
/// socket. Once it has stopped, no listener is left, and only then the new
/// one is asked for; bound, it is the one listener.
pub proof fn lemma_reload_drains_old_listener(
    old: EndpointView,
    config: ConfigView,
    interval_sec: u64,
    early: ReloadEventView,
)
    requires
        !(early is Stopped),
    ensures
        ({
            let requested = reload_step(
                LifecycleView::Running(old),
                interval_sec,
                ReloadEventView::Request(Some(config)),
            );
            let waiting = reload_step(requested.state, requested.interval_sec, early);
            let stopped = reload_step(
                requested.state,
                requested.interval_sec,
                ReloadEventView::Stopped,
            );
            let bound = reload_step(stopped.state, stopped.interval_sec, ReloadEventView::Bound);
            &&& requested.action == ReloadActionView::Stop
            &&& bound_listener(requested.state) == Some(old)
            &&& waiting.state == requested.state
            &&& waiting.action == ReloadActionView::Fail(ReloadError::OutOfOrder)
            &&& bound_listener(stopped.state) is None
            &&& stopped.action == ReloadActionView::Bind {
                listen_address: config.listen_address,
                metrics_path: config.metrics_path,
            }
            &&& stopped.interval_sec == interval_sec
            &&& bound.state == LifecycleView::Running(endpoint_of(config))
            &&& bound.interval_sec == config.collection_interval_sec
            &&& bound.action == ReloadActionView::Notify
        }),
{
}

/// One reconfiguration at a time: while one is under way a further request
/// is turned away and changes nothing.
pub proof fn lemma_one_reload_at_a_time(
    state: LifecycleView,
    interval_sec: u64,
    next: Option<ConfigView>,
)
    requires
        reloading(state),
    ensures
        reload_step(state, interval_sec, ReloadEventView::Request(next)) == (ReloadStep {
            state,
            interval_sec,
            action: ReloadActionView::Fail(ReloadError::OutOfOrder),
        }),
{
}

/// Disabling a running exporter drains its listener and then switches the
/// schedule off; disabling a disabled one switches the schedule off at
/// once.
pub proof fn lemma_disable_drains_listener(old: EndpointView, interval_sec: u64)
    ensures
        ({
            let requested = reload_step(
                LifecycleView::Running(old),
                interval_sec,
                ReloadEventView::Request(None),
            );
            let stopped = reload_step(
                requested.state,
                requested.interval_sec,
                ReloadEventView::Stopped,
            );
            let idle = reload_step(
                LifecycleView::Disabled,
                interval_sec,
                ReloadEventView::Request(None),
            );
            &&& requested.action == ReloadActionView::Stop
            &&& requested.interval_sec == interval_sec
            &&& stopped.state == LifecycleView::Disabled
            &&& stopped.interval_sec == 0
            &&& stopped.action == ReloadActionView::Notify
            &&& idle == stopped
        }),
{
}

/// A bind that fails leaves no listener and the schedule as it was.
pub proof fn lemma_failed_bind_leaves_no_listener(config: ConfigView, interval_sec: u64)
    ensures
        ({
            let failed = reload_step(
                LifecycleView::Binding { config },
                interval_sec,
                ReloadEventView::BindFailed,
            );
            &&& failed.state == LifecycleView::Disabled
            &&& failed.interval_sec == interval_sec
            &&& failed.action == ReloadActionView::Fail(ReloadError::BindFailed)
        }),
{
}

/// The endpoint manager.
pub struct MetricsExporter {
    lifecycle: Lifecycle,
}

impl View for MetricsExporter {
    type V = LifecycleView;

    closed spec fn view(&self) -> LifecycleView {
        self.lifecycle@
    }
}

impl MetricsExporter {
    /// The bound listener, if there is one.
    pub fn running_endpoint(&self) -> (endpoint: Option<&RunningEndpoint>)
        ensures
            match endpoint {
                Some(e) => bound_listener(self@) == Some(e@),
                None => bound_listener(self@) is None,
            },
    {
        match &self.lifecycle {
            Lifecycle::Disabled => None,
            Lifecycle::Running(endpoint) => Some(endpoint),
            Lifecycle::Draining { old, pending: _ } => Some(old),
            Lifecycle::Binding { config: _ } => None,
        }
    }

    fn after_drain(&mut self, handle: &mut MetricsExporterHandle, next: Option<Config>) -> (action:
        ReloadAction)
        ensures
            ({
                let step = after_drain(
                    match next {
                        Some(config) => Some(config@),
                        None => None,
                    },
                    old(handle).interval(),
                );
                &&& final(self)@ == step.state
                &&& final(handle).interval() == step.interval_sec
                &&& action@ == step.action
            }),
            final(handle).buffer_pair() == old(handle).buffer_pair(),
    {
        match next {
            None => {
                self.lifecycle = Lifecycle::Disabled;
                handle.set_interval(0);
                ReloadAction::Notify
            },
            Some(config) => {
                let action = ReloadAction::Bind {
                    listen_address: config.listen_address,
                    metrics_path: match &config.metrics_path {
                        Some(path) => Some(path.clone()),
                        None => None,
                    },
                };
                self.lifecycle = Lifecycle::Binding { config };
                action
            },
        }
    }

    /// Takes one step of a reconfiguration: `handle` gets the new refresh
    /// interval where the step sets one, and the action says what to do
    /// next. The snapshot buffers are never touched.
    pub fn reload(&mut self, handle: &mut MetricsExporterHandle, event: ReloadEvent) -> (action:
        ReloadAction)
        ensures
            ({
                let step = reload_step(old(self)@, old(handle).interval(), event@);
                &&& final(self)@ == step.state
                &&& final(handle).interval() == step.interval_sec
                &&& action@ == step.action
            }),
            final(handle).buffer_pair() == old(handle).buffer_pair(),
    {
        let mut lifecycle = Lifecycle::Disabled;
        std::mem::swap(&mut self.lifecycle, &mut lifecycle);
        match (lifecycle, event) {
            (Lifecycle::Disabled, ReloadEvent::Request(next)) => self.after_drain(handle, next),
            (Lifecycle::Running(old), ReloadEvent::Request(next)) => {
                self.lifecycle = Lifecycle::Draining { old, pending: next };
                ReloadAction::Stop
            },
            (Lifecycle::Draining { old: _, pending }, ReloadEvent::Stopped) => self.after_drain(
                handle,
                pending,
            ),
            (Lifecycle::Binding { config }, ReloadEvent::Bound) => {
                let Config { listen_address, metrics_path, collection_interval_sec } = config;
                self.lifecycle = Lifecycle::Running(
                    RunningEndpoint { listen_address, metrics_path },
                );
                handle.set_interval(collection_interval_sec);
                ReloadAction::Notify
            },
            (Lifecycle::Binding { config: _ }, ReloadEvent::BindFailed) => {
                ReloadAction::Fail(ReloadError::BindFailed)
            },
            (unchanged, _) => {
                self.lifecycle = unchanged;
                ReloadAction::Fail(ReloadError::OutOfOrder)
            },
        }
    }

    /// Tears the manager down. The result says whether a listener still
    /// holds a socket: it is to be asked to stop, and nobody waits for it.
    pub fn shutdown(self) -> (stop: bool)
        ensures
            stop == bound_listener(self@) is Some,
    {
        match self.lifecycle {
            Lifecycle::Disabled => false,
            Lifecycle::Running(_) => true,
            Lifecycle::Draining { old: _, pending: _ } => true,
            Lifecycle::Binding { config: _ } => false,
        }
    }
}

/// Creates the exporter and the writer around `handle` and requests
/// `config`: the action is the first step of that reconfiguration.
pub fn create_exporter(handle: &mut MetricsExporterHandle, config: Option<Config>) -> (created: (
    MetricsExporter,
    MetricsWriter,
    ReloadAction,
))
    ensures
        ({
            let step = reload_step(
                LifecycleView::Disabled,
                old(handle).interval(),
                ReloadEventView::Request(
                    match config {
                        Some(c) => Some(c@),
                        None => None,
                    },
                ),
            );
            &&& created.0@ == step.state
            &&& final(handle).interval() == step.interval_sec
            &&& created.2@ == step.action
        }),
        final(handle).buffer_pair() == old(handle).buffer_pair(),
{
    let mut exporter = MetricsExporter { lifecycle: Lifecycle::Disabled };
    let action = exporter.reload(handle, ReloadEvent::Request(config));
    (exporter, MetricsWriter::new(), action)
}

} // verus!
