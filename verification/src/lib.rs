//! Watches docker containers and runs plugins on the ones whose labels ask
//! for them: certificate management through ACME, and template rendering.
//!
//! This crate holds the decisions of the watcher: how label lists are split,
//! which docker filters are requested, which plugins run on a container, and
//! how each plugin reads its settings from the container's labels.

pub mod text;
pub mod labels;
pub mod docker;
pub mod plugins;

use vstd::prelude::*;

verus! {

/// The command line of the watcher.
pub struct Args {
    pub flag_version: bool,
    pub flag_endpoint: String,
    pub flag_watch: bool,
    pub flag_only_labels: String,
    pub flag_notify: String,
    pub flag_notify_restart: String,
    pub flag_notify_reload: String,
}

/// The environment of the watcher.
pub struct Env {
    /// Whether `OWL_DEBUG` is set.
    pub env_debug: bool,
}

/// What the watcher learns while it runs.
pub enum RunEvent {
    /// The watcher has started.
    Started,
    /// The event stream reported a change of a watched container.
    ContainerChanged,
    /// The event stream has ended.
    EventsEnded,
}

/// What the watcher does next.
pub enum RunAction {
    /// Run the plugins on the watched containers, then stop.
    ProcessContainersOnce,
    /// Listen to the event stream.
    ListenForEvents,
    /// Run the plugins on the watched containers, then go on listening.
    ProcessContainers,
    /// Stop.
    Stop,
}

/// The next action of the watcher: without `--watch` it processes the
/// containers once; with it, it listens for events and processes the
/// containers after each, until the stream ends. After each processing it
/// carries out the `notifications` that the options ask for.
pub fn run_step(args: &Args, event: RunEvent) -> (res: RunAction)
    ensures
        res == match event {
            RunEvent::Started => if args.flag_watch {
                RunAction::ListenForEvents
            } else {
                RunAction::ProcessContainersOnce
            },
            RunEvent::ContainerChanged => RunAction::ProcessContainers,
            RunEvent::EventsEnded => RunAction::Stop,
        },
{
    match event {
        RunEvent::Started => if args.flag_watch {
            RunAction::ListenForEvents
        } else {
            RunAction::ProcessContainersOnce
        },
        RunEvent::ContainerChanged => RunAction::ProcessContainers,
        RunEvent::EventsEnded => RunAction::Stop,
    }
}

/// What the watcher does after its plugins have run, as the `--notify`
/// options ask.
pub enum Notification {
    /// Run a command (`--notify`).
    RunCommand(String),
    /// Restart the container of this id (`--notify-restart`).
    RestartContainer(String),
    /// Reload the container of this id (`--notify-reload`).
    ReloadContainer(String),
}

/// A notification, with its string as a character sequence.
pub enum NotificationView {
    RunCommand(Seq<char>),
    RestartContainer(Seq<char>),
    ReloadContainer(Seq<char>),
}

impl View for Notification {
    type V = NotificationView;

    open spec fn view(&self) -> NotificationView {
        match self {
            Notification::RunCommand(c) => NotificationView::RunCommand(c@),
            Notification::RestartContainer(id) => NotificationView::RestartContainer(id@),
            Notification::ReloadContainer(id) => NotificationView::ReloadContainer(id@),
        }
    }
}

/// One notification when its option is given (non-empty), else none.
pub open spec fn notification_if(option: Seq<char>, n: NotificationView) -> Seq<NotificationView> {
    if option.len() > 0 {
        seq![n]
    } else {
        Seq::empty()
    }
}

/// The notifications that the options ask for: the command of `--notify`,
/// then the restart of the container of `--notify-restart`, then the reload
/// of the container of `--notify-reload`, each only when its option is given.
/// Without these options, nothing is run, restarted or reloaded.
pub open spec fn spec_notifications(args: Args) -> Seq<NotificationView> {
    notification_if(args.flag_notify@, NotificationView::RunCommand(args.flag_notify@))
        + notification_if(
        args.flag_notify_restart@,
        NotificationView::RestartContainer(args.flag_notify_restart@),
    ) + notification_if(
        args.flag_notify_reload@,
        NotificationView::ReloadContainer(args.flag_notify_reload@),
    )
}

/// The notifications that the options ask for.
pub fn notifications(args: &Args) -> (res: Vec<Notification>)
    ensures
        res@.map_values(|n: Notification| n@) == spec_notifications(*args),
{
    let mut res: Vec<Notification> = Vec::new();
    if !args.flag_notify.as_str().is_empty() {
        res.push(Notification::RunCommand(args.flag_notify.clone()));
    }
    let ghost first = res@;
    if !args.flag_notify_restart.as_str().is_empty() {
        res.push(Notification::RestartContainer(args.flag_notify_restart.clone()));
    }
    let ghost second = res@;
    if !args.flag_notify_reload.as_str().is_empty() {
        res.push(Notification::ReloadContainer(args.flag_notify_reload.clone()));
    }
    assert(first.map_values(|n: Notification| n@) =~= notification_if(
        args.flag_notify@,
        NotificationView::RunCommand(args.flag_notify@),
    ));
    assert(second.map_values(|n: Notification| n@) =~= first.map_values(|n: Notification| n@)
        + notification_if(
        args.flag_notify_restart@,
        NotificationView::RestartContainer(args.flag_notify_restart@),
    ));
    assert(res@.map_values(|n: Notification| n@) =~= second.map_values(|n: Notification| n@)
        + notification_if(
        args.flag_notify_reload@,
        NotificationView::ReloadContainer(args.flag_notify_reload@),
    ));
    res
}

} // verus!
