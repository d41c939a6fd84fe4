//! From filesystem notifications to change events.
//!
//! The notifications arrive already classified and already debounced: what a
//! burst of raw edits is merged into is the business of the notification
//! source. This module relays them: it expresses their paths relative to the
//! watched root, decides which of them are changes worth a reload, and words
//! the line the operator reads.

use vstd::prelude::*;

verus! {

/// Length of the quiet window, in milliseconds, that the notification source
/// is asked to debounce with.
pub const DEBOUNCE_MILLIS: u64 = 100;

/// What is left of `path` once `prefix` is taken off its front, component by
/// component as the standard library splits paths, or `None` where `prefix`
/// is no prefix of `path`.
pub uninterp spec fn stripped_path(path: Seq<char>, prefix: Seq<char>) -> Option<Seq<char>>;

/// Calls `std::path::Path::strip_prefix` on `path` with `prefix` as the base.
/// Trusted: the result is `stripped_path` of the two texts, `None` standing
/// for the error that the standard library returns when `prefix` is not a
/// prefix of `path`.
#[verifier::external_body]
fn path_strip_prefix(path: &str, prefix: &str) -> (rest: Option<String>)
    ensures
        rest is Some <==> stripped_path(path@, prefix@) is Some,
        rest matches Some(s) ==> stripped_path(path@, prefix@) == Some(s@),
{
    match std::path::Path::new(path).strip_prefix(prefix) {
        Ok(rest) => rest.to_str().map(String::from),
        Err(_) => None,
    }
}

/// Expresses `path` relative to `prefix`.
pub fn strip_prefix(path: &str, prefix: &str) -> (rest: String)
    requires
        stripped_path(path@, prefix@) is Some,
    ensures
        stripped_path(path@, prefix@) == Some(rest@),
{
    match path_strip_prefix(path, prefix) {
        Some(rest) => rest,
        None => unreached(),
    }
}

/// Expresses `path` relative to `prefix` where `path` lies under it, and
/// says `None` where it does not.
pub fn relative_to(path: &str, prefix: &str) -> (rest: Option<String>)
    ensures
        rest is Some <==> stripped_path(path@, prefix@) is Some,
        rest matches Some(s) ==> stripped_path(path@, prefix@) == Some(s@),
{
    if path_strip_prefix(path, prefix).is_some() {
        Some(strip_prefix(path, prefix))
    } else {
        None
    }
}

/// A debounced notification as the notification source delivers it, with
/// each path held as text.
#[derive(Debug, PartialEq, Eq)]
pub enum Notification {
    /// A write was noticed; the settled `Write` follows.
    NoticeWrite(String),
    /// A removal or rename was noticed; the settled event follows.
    NoticeRemove(String),
    /// A file or directory was created.
    Create(String),
    /// A file was written to.
    Write(String),
    /// Attributes changed.
    Chmod(String),
    /// A file or directory was removed.
    Remove(String),
    /// A file or directory was moved: source, then destination.
    Rename(String, String),
    /// The watched directories must be scanned again.
    Rescan,
    /// The source reported an error, given here by its message.
    Error(String),
}

/// A change under the watched root, each path relative to the root.
#[derive(Debug, PartialEq, Eq)]
pub enum ChangeEvent {
    Created(String),
    Modified(String),
    Removed(String),
    /// Old path, then new path.
    Renamed(String, String),
}

/// A `ChangeEvent` with its paths as character sequences.
pub ghost enum ChangeEventView {
    Created(Seq<char>),
    Modified(Seq<char>),
    Removed(Seq<char>),
    Renamed(Seq<char>, Seq<char>),
}

impl View for ChangeEvent {
    type V = ChangeEventView;

    open spec fn view(&self) -> ChangeEventView {
        match *self {
            ChangeEvent::Created(p) => ChangeEventView::Created(p@),
            ChangeEvent::Modified(p) => ChangeEventView::Modified(p@),
            ChangeEvent::Removed(p) => ChangeEventView::Removed(p@),
            ChangeEvent::Renamed(from, to) => ChangeEventView::Renamed(from@, to@),
        }
    }
}

/// What the watch loop does with one notification.
#[derive(Debug, PartialEq, Eq)]
pub enum WatchStep {
    /// Log the event and run one broadcast pass.
    Reload(ChangeEvent),
    /// Log the message as an error and go on.
    Report(String),
    /// Nothing to do.
    Skip,
}

/// A `WatchStep` with its texts as character sequences.
pub ghost enum WatchStepView {
    Reload(ChangeEventView),
    Report(Seq<char>),
    Skip,
}

impl View for WatchStep {
    type V = WatchStepView;

    open spec fn view(&self) -> WatchStepView {
        match *self {
            WatchStep::Reload(event) => WatchStepView::Reload(event@),
            WatchStep::Report(message) => WatchStepView::Report(message@),
            WatchStep::Skip => WatchStepView::Skip,
        }
    }
}

/// The step owed to a notification, its paths carried over as they are: the
/// four settled kinds are changes, an error is reported, everything else is
/// passed over.
pub open spec fn step_for(notification: Notification) -> WatchStepView {
    match notification {
        Notification::Create(p) => WatchStepView::Reload(ChangeEventView::Created(p@)),
        Notification::Write(p) => WatchStepView::Reload(ChangeEventView::Modified(p@)),
        Notification::Remove(p) => WatchStepView::Reload(ChangeEventView::Removed(p@)),
        Notification::Rename(from, to) => WatchStepView::Reload(
            ChangeEventView::Renamed(from@, to@),
        ),
        Notification::Error(message) => WatchStepView::Report(message@),
        Notification::NoticeWrite(_) => WatchStepView::Skip,
        Notification::NoticeRemove(_) => WatchStepView::Skip,
        Notification::Chmod(_) => WatchStepView::Skip,
        Notification::Rescan => WatchStepView::Skip,
    }
}

/// Decides the step for a notification and carries its paths over as they
/// are. Each notification yields one step, so each settled change yields
/// exactly one reload.
pub fn react(notification: Notification) -> (step: WatchStep)
    ensures
        step@ == step_for(notification),
{
    match notification {
        Notification::Create(p) => WatchStep::Reload(ChangeEvent::Created(p)),
        Notification::Write(p) => WatchStep::Reload(ChangeEvent::Modified(p)),
        Notification::Remove(p) => WatchStep::Reload(ChangeEvent::Removed(p)),
        Notification::Rename(from, to) => WatchStep::Reload(ChangeEvent::Renamed(from, to)),
        Notification::Error(message) => WatchStep::Report(message),
        Notification::NoticeWrite(_) => WatchStep::Skip,
        Notification::NoticeRemove(_) => WatchStep::Skip,
        Notification::Chmod(_) => WatchStep::Skip,
        Notification::Rescan => WatchStep::Skip,
    }
}

/// The line that announces a change: a tag for its kind, then its path, and
/// for a rename both paths with an arrow between them.
pub open spec fn describe_text(event: ChangeEventView) -> Seq<char> {
    match event {
        ChangeEventView::Created(p) => "[CREATE] "@ + p,
        ChangeEventView::Modified(p) => "[UPDATE] "@ + p,
        ChangeEventView::Removed(p) => "[REMOVE] "@ + p,
        ChangeEventView::Renamed(from, to) => "[RENAME] "@ + from + " -> "@ + to,
    }
}

/// Words the line that announces a change to the operator.
pub fn describe(event: &ChangeEvent) -> (line: String)
    ensures
        line@ == describe_text(event@),
{
    match event {
        ChangeEvent::Created(p) => {
            let mut line = String::from_str("[CREATE] ");
            line.append(p.as_str());
            line
        },
        ChangeEvent::Modified(p) => {
            let mut line = String::from_str("[UPDATE] ");
            line.append(p.as_str());
            line
        },
        ChangeEvent::Removed(p) => {
            let mut line = String::from_str("[REMOVE] ");
            line.append(p.as_str());
            line
        },
        ChangeEvent::Renamed(from, to) => {
            let mut line = String::from_str("[RENAME] ");
            line.append(from.as_str());
            line.append(" -> ");
            line.append(to.as_str());
            line
        },
    }
}

/// The event with each path expressed relative to `root`, or the first of
/// its paths that does not lie under `root`.
pub open spec fn relative_event(event: ChangeEventView, root: Seq<char>) -> Result<
    ChangeEventView,
    Seq<char>,
> {
    match event {
        ChangeEventView::Created(p) => match stripped_path(p, root) {
            Some(rel) => Ok(ChangeEventView::Created(rel)),
            None => Err(p),
        },
        ChangeEventView::Modified(p) => match stripped_path(p, root) {
            Some(rel) => Ok(ChangeEventView::Modified(rel)),
            None => Err(p),
        },
        ChangeEventView::Removed(p) => match stripped_path(p, root) {
            Some(rel) => Ok(ChangeEventView::Removed(rel)),
            None => Err(p),
        },
        ChangeEventView::Renamed(from, to) => match stripped_path(from, root) {
            Some(rel_from) => match stripped_path(to, root) {
                Some(rel_to) => Ok(ChangeEventView::Renamed(rel_from, rel_to)),
                None => Err(to),
            },
            None => Err(from),
        },
    }
}

/// Expresses each path of `event` relative to `root`. Fails with the first
/// path that does not lie under `root`.
pub fn relativize(event: ChangeEvent, root: &str) -> (result: Result<ChangeEvent, String>)
    ensures
        match result {
            Ok(relative) => relative_event(event@, root@) == Ok::<ChangeEventView, Seq<char>>(
                relative@,
            ),
            Err(path) => relative_event(event@, root@) == Err::<ChangeEventView, Seq<char>>(
                path@,
            ),
        },
{
    match event {
        ChangeEvent::Created(p) => match relative_to(p.as_str(), root) {
            Some(rel) => Ok(ChangeEvent::Created(rel)),
            None => Err(p),
        },
        ChangeEvent::Modified(p) => match relative_to(p.as_str(), root) {
            Some(rel) => Ok(ChangeEvent::Modified(rel)),
            None => Err(p),
        },
        ChangeEvent::Removed(p) => match relative_to(p.as_str(), root) {
            Some(rel) => Ok(ChangeEvent::Removed(rel)),
            None => Err(p),
        },
        ChangeEvent::Renamed(from, to) => match relative_to(from.as_str(), root) {
            Some(rel_from) => match relative_to(to.as_str(), root) {
                Some(rel_to) => Ok(ChangeEvent::Renamed(rel_from, rel_to)),
                None => Err(to),
            },
            None => Err(from),
        },
    }
}

/// The message reported for a notification whose path lies outside the
/// watched root.
pub open spec fn outside_root_text(path: Seq<char>) -> Seq<char> {
    "Path outside the watched root: "@ + path
}

/// The step owed to a notification under the watched root `root`: the step
/// of `step_for` with the paths of a change made relative to `root`. A change
/// with a path outside `root` is malformed and reported instead.
pub open spec fn classified(notification: Notification, root: Seq<char>) -> WatchStepView {
    match step_for(notification) {
        WatchStepView::Reload(event) => match relative_event(event, root) {
            Ok(relative) => WatchStepView::Reload(relative),
            Err(path) => WatchStepView::Report(outside_root_text(path)),
        },
        other => other,
    }
}

/// Decides what the watch loop does with one notification received for the
/// watched root `root`.
pub fn classify(notification: Notification, root: &str) -> (step: WatchStep)
    ensures
        step@ == classified(notification, root@),
{
    match react(notification) {
        WatchStep::Reload(event) => match relativize(event, root) {
            Ok(relative) => WatchStep::Reload(relative),
            Err(path) => {
                let mut message = String::from_str("Path outside the watched root: ");
                message.append(path.as_str());
                WatchStep::Report(message)
            },
        },
        other => other,
    }
}

} // verus!
