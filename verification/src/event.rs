//! Filesystem events of a watched directory, narrowed to the changes of
//! one file.

use vstd::prelude::*;
use vstd::string::*;
use crate::path::{normalize_spec, paths_match, paths_match_spec, PathStyle};

verus! {

/// What kind of thing a filesystem event reports.
#[derive(Clone, Copy, Debug, PartialEq, Eq, Structural)]
pub enum EventKind {
    /// The platform does not say.
    Any,
    /// The file was opened, read or closed: nothing in it changed.
    Access,
    Create,
    Modify,
    Remove,
    /// Something that none of the others covers.
    Other,
}

/// One event of the watched directory.
#[derive(Clone, Debug, PartialEq, Eq)]
pub struct FsEvent {
    pub kind: EventKind,
    /// The paths that the event names, as the platform spelled them.
    pub paths: Vec<String>,
}

/// What the shell is told: the tracked file's comparable spelling, and a tag.
#[derive(Clone, Debug, PartialEq, Eq)]
pub struct ChangeNotification {
    pub path: String,
    pub kind: String,
}

/// A notification, with the channel on which it goes out.
#[derive(Clone, Debug, PartialEq, Eq)]
pub enum Signal {
    /// The tracked file changed.
    FileChanged(ChangeNotification),
    /// The watcher itself reported an error; the watch goes on.
    WatchError(ChangeNotification),
}

/// What the watcher's callback holds for the lifetime of one watch.
#[derive(Clone, Debug, PartialEq, Eq)]
pub struct WatchFilter {
    /// The comparable spelling of the tracked file.
    pub target: String,
    pub style: PathStyle,
}

/// An event of this kind may change what the file holds.
pub open spec fn should_emit_spec(kind: EventKind) -> bool {
    kind != EventKind::Access
}

/// The tag under which a kind of event is reported.
pub open spec fn kind_tag(kind: EventKind) -> Seq<char> {
    match kind {
        EventKind::Modify => "modify"@,
        EventKind::Create => "create"@,
        EventKind::Remove => "remove"@,
        EventKind::Access => "access"@,
        EventKind::Any => "any"@,
        EventKind::Other => "other"@,
    }
}

/// The event is forwarded by a watch of `target`: it is no mere access, and
/// it names the target or names nothing.
pub open spec fn forwards(
    target: Seq<char>,
    style: PathStyle,
    kind: EventKind,
    paths: Seq<String>,
) -> bool {
    should_emit_spec(kind) && paths_match_spec(paths, target, style)
}

/// `r` is the report of a change of kind `kind` to the file `target`.
pub open spec fn is_change(r: Option<Signal>, target: Seq<char>, kind: EventKind) -> bool {
    r matches Some(Signal::FileChanged(n)) && n.path@ == target && n.kind@ == kind_tag(kind)
}

/// `r` is the report of the watcher's error `message` on the file `target`.
pub open spec fn is_failure(r: Option<Signal>, target: Seq<char>, message: Seq<char>) -> bool {
    r matches Some(Signal::WatchError(n)) && n.path@ == target && n.kind@ == "error:"@ + message
}

/// Tells whether an event of this kind is worth a look: every kind but a
/// mere access.
pub fn should_emit_event(kind: EventKind) -> (r: bool)
    ensures
        r == should_emit_spec(kind),
{
    match kind {
        EventKind::Access => false,
        _ => true,
    }
}

/// The tag of a kind of event.
pub fn format_event_kind(kind: EventKind) -> (r: String)
    ensures
        r@ == kind_tag(kind),
{
    match kind {
        EventKind::Modify => String::from_str("modify"),
        EventKind::Create => String::from_str("create"),
        EventKind::Remove => String::from_str("remove"),
        EventKind::Access => String::from_str("access"),
        EventKind::Any => String::from_str("any"),
        EventKind::Other => String::from_str("other"),
    }
}

impl Signal {
    /// The name of the channel on which the signal is sent.
    pub fn channel(&self) -> (r: &'static str)
        ensures
            r@ == match self {
                Signal::FileChanged(_) => "ntr-file-changed"@,
                Signal::WatchError(_) => "ntr-file-watch-error"@,
            },
    {
        match self {
            Signal::FileChanged(_) => "ntr-file-changed",
            Signal::WatchError(_) => "ntr-file-watch-error",
        }
    }
}

impl WatchFilter {
    /// Decides what one delivery of the watcher is worth. An error of the
    /// watcher is always reported, under the tag `error:` and its message.
    /// An event is reported exactly if it is forwarded, with the tracked
    /// file's own spelling and the tag of its kind.
    pub fn react(&self, delivery: &Result<FsEvent, String>) -> (r: Option<Signal>)
        ensures
            match *delivery {
                Ok(event) => if forwards(self.target@, self.style, event.kind, event.paths@) {
                    is_change(r, self.target@, event.kind)
                } else {
                    r is None
                },
                Err(message) => is_failure(r, self.target@, message@),
            },
    {
        match delivery {
            Ok(event) => {
                if should_emit_event(event.kind) && paths_match(
                    event.paths.as_slice(),
                    self.target.as_str(),
                    self.style,
                ) {
                    Some(
                        Signal::FileChanged(
                            ChangeNotification {
                                path: self.target.clone(),
                                kind: format_event_kind(event.kind),
                            },
                        ),
                    )
                } else {
                    None
                }
            },
            Err(message) => {
                let kind = String::from_str("error:").concat(message.as_str());
                Some(Signal::WatchError(ChangeNotification { path: self.target.clone(), kind }))
            },
        }
    }
}

/// An access never leads to a notification, whatever paths it names.
pub proof fn access_is_never_forwarded(target: Seq<char>, style: PathStyle, paths: Seq<String>)
    ensures
        !forwards(target, style, EventKind::Access, paths),
{
}

/// Whatever is forwarded goes out under one of five tags.
pub proof fn forwarded_tags(target: Seq<char>, style: PathStyle, kind: EventKind, paths: Seq<String>)
    requires
        forwards(target, style, kind, paths),
    ensures
        kind_tag(kind) == "modify"@ || kind_tag(kind) == "create"@ || kind_tag(kind) == "remove"@
            || kind_tag(kind) == "any"@ || kind_tag(kind) == "other"@,
{
}

/// An event that names paths is forwarded only if one of them is a
/// spelling of the target; one that is no mere access and names a spelling
/// of the target is forwarded.
pub proof fn forwarding_goes_by_spelling(
    target: Seq<char>,
    style: PathStyle,
    kind: EventKind,
    paths: Seq<String>,
    i: int,
)
    requires
        0 <= i < paths.len(),
    ensures
        (forall|j: int| 0 <= j < paths.len() ==> normalize_spec(paths[j]@, style) != target)
            ==> !forwards(target, style, kind, paths),
        kind != EventKind::Access && normalize_spec(paths[i]@, style) == target ==> forwards(
            target,
            style,
            kind,
            paths,
        ),
{
}

} // verus!
