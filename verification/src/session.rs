//! The watch session: at most one file is watched at a time.

use vstd::prelude::*;
use vstd::string::*;
use crate::error::TrackError;
use crate::event::{forwards, EventKind, WatchFilter};
use crate::load::{check_target, is_not_a_file, is_not_found};
use crate::path::{normalize_path, normalize_spec, PathStyle};

verus! {

/// What a watch of one file comes to: the file's comparable spelling, which
/// events are matched against, and the directory that is registered with
/// the watcher, without its subdirectories.
#[derive(Clone, Debug, PartialEq, Eq)]
pub struct WatchPlan {
    pub target: String,
    pub directory: String,
    /// Whether the directories below `directory` are watched too: never.
    pub recursive: bool,
    pub style: PathStyle,
}

/// The session: idle, or active with the plan of its one watch.
#[derive(Debug)]
pub struct WatchSession {
    style: PathStyle,
    active: Option<WatchPlan>,
}

/// `r` is the failure of the watcher, with the reason that it gave.
pub open spec fn is_watch_error<T>(r: Result<T, TrackError>, reason: Seq<char>) -> bool {
    r matches Err(TrackError::WatchError { reason: s }) && s@ == reason
}

/// `r` is the plan to watch `canonical` under `style`: the directory is the
/// file's parent, or the path itself where it has none.
pub open spec fn is_plan(
    r: Result<WatchPlan, TrackError>,
    canonical: Seq<char>,
    parent: Option<String>,
    style: PathStyle,
) -> bool {
    r matches Ok(plan) && plan.target@ == normalize_spec(canonical, style) && plan.style == style
        && !plan.recursive && plan.directory@ == match parent {
        Some(dir) => dir@,
        None => canonical,
    }
}

impl WatchPlan {
    /// What the watcher's callback needs of the plan.
    pub fn filter(&self) -> (r: WatchFilter)
        ensures
            r.target@ == self.target@,
            r.style == self.style,
    {
        WatchFilter { target: self.target.clone(), style: self.style }
    }
}

impl WatchSession {
    /// The plan of the active watch, if there is one.
    pub closed spec fn watched(self) -> Option<WatchPlan> {
        self.active
    }

    /// The spelling of paths that the session compares by.
    pub closed spec fn path_style(self) -> PathStyle {
        self.style
    }

    /// The session after a watch of `plan` was registered.
    pub closed spec fn started(self, plan: WatchPlan) -> WatchSession {
        WatchSession { style: self.style, active: Some(plan) }
    }

    /// The session after a stop.
    pub closed spec fn stopped(self) -> WatchSession {
        WatchSession { style: self.style, active: None }
    }

    /// An idle session.
    pub fn new(style: PathStyle) -> (r: WatchSession)
        ensures
            r.watched() is None,
            r.path_style() == style,
    {
        WatchSession { style, active: None }
    }

    /// Tells whether a watch is active.
    pub fn is_active(&self) -> (r: bool)
        ensures
            r == self.watched() is Some,
    {
        self.active.is_some()
    }

    /// The comparable spelling of the watched file, if a watch is active.
    pub fn target(&self) -> (r: Option<String>)
        ensures
            match self.watched() {
                Some(plan) => r matches Some(t) && t@ == plan.target@,
                None => r is None,
            },
    {
        match &self.active {
            Some(plan) => Some(plan.target.clone()),
            None => None,
        }
    }

    /// Validates a request to watch and lays out the watch, leaving the
    /// session as it is. `exists` and `is_file` say what was found at the
    /// requested path, `canonical` is its absolute form and `parent` the
    /// directory that holds it.
    pub fn plan(&self, exists: bool, is_file: bool, canonical: &str, parent: Option<String>) -> (r:
        Result<WatchPlan, TrackError>)
        ensures
            !exists ==> is_not_found(r),
            exists && !is_file ==> is_not_a_file(r),
            exists && is_file ==> is_plan(r, canonical@, parent, self.path_style()),
    {
        match check_target(exists, is_file) {
            Err(e) => Err(e),
            Ok(()) => {
                let target = normalize_path(canonical, self.style);
                let directory = match parent {
                    Some(dir) => dir,
                    None => String::from_str(canonical),
                };
                Ok(WatchPlan { target, directory, recursive: false, style: self.style })
            },
        }
    }

    /// Takes in the outcome of creating and registering the watcher for
    /// `plan`. Where that succeeded the plan replaces whatever was watched
    /// before, and the result says whether a watch was retired. Where it
    /// failed the session stays as it was, and the failure is a `WatchError`.
    pub fn start_file_watch(&mut self, plan: WatchPlan, registered: Result<(), String>) -> (r:
        Result<bool, TrackError>)
        ensures
            match registered {
                Ok(_) => *final(self) == old(self).started(plan) && r == Ok::<bool, TrackError>(
                    old(self).watched() is Some,
                ),
                Err(reason) => *final(self) == *old(self) && is_watch_error(r, reason@),
            },
            final(self).watched() == match registered {
                Ok(_) => Some(plan),
                Err(_) => old(self).watched(),
            },
            final(self).path_style() == old(self).path_style(),
    {
        match registered {
            Ok(_) => {
                let retired = self.active.is_some();
                self.active = Some(plan);
                Ok(retired)
            },
            Err(reason) => Err(TrackError::WatchError { reason }),
        }
    }

    /// Ends the active watch, if there is one, and says whether there was.
    pub fn stop_file_watch(&mut self) -> (r: bool)
        ensures
            *final(self) == old(self).stopped(),
            final(self).watched() is None,
            final(self).path_style() == old(self).path_style(),
            r == old(self).watched() is Some,
    {
        let was_active = self.active.is_some();
        self.active = None;
        was_active
    }
}

/// A started session watches exactly the plan it was started with, whatever
/// it watched before; a stopped one watches nothing.
pub proof fn one_watch_at_a_time(s: WatchSession, plan: WatchPlan)
    ensures
        s.started(plan).watched() == Some(plan),
        s.started(plan).path_style() == s.path_style(),
        s.stopped().watched() is None,
        s.stopped().path_style() == s.path_style(),
{
}

/// After two starts in a row the session watches the second file alone: an
/// event that names a spelling of the first file, and no other path, is not
/// forwarded by the second watch unless both are the same file.
pub proof fn second_start_replaces_first(
    s: WatchSession,
    first: WatchPlan,
    second: WatchPlan,
    kind: EventKind,
    path: String,
)
    requires
        first.style == second.style,
        first.target@ != second.target@,
        normalize_spec(path@, first.style) == first.target@,
    ensures
        s.started(first).started(second).watched() == Some(second),
        !forwards(second.target@, second.style, kind, seq![path]),
{
}

/// Stopping an idle session leaves it idle, and stopping twice is stopping
/// once.
pub proof fn stop_is_idempotent(s: WatchSession)
    ensures
        s.watched() is None ==> s.stopped() == s,
        s.stopped().stopped() == s.stopped(),
{
}

} // verus!
