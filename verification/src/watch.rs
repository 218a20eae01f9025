//! The decisions of a resource watcher: list once to learn a resource
//! version, stream changes from it, remember bookmarks, start over after an
//! error, and stop once cancelled. The watcher's runner performs each action
//! and reports what happened.
use vstd::prelude::*;
use crate::text::owned;

verus! {

/// Where the watcher stands.
#[derive(PartialEq, Eq, Structural)]
pub enum WatchPhase {
    /// About to check for cancellation and (re)start.
    Top,
    /// Waiting for the initial listing.
    Listing,
    /// Waiting for the watch stream to open.
    Opening,
    /// Reading the stream.
    Streaming,
    /// Done; nothing more happens.
    Stopped,
}

/// The watcher's state: its phase and the resource version to resume from.
pub struct WatchState {
    pub phase: WatchPhase,
    pub resource_version: Option<String>,
}

/// One item read from a watch stream.
pub enum StreamItem {
    Added,
    Modified,
    Deleted,
    /// A bookmark with its resource version.
    Bookmark(String),
    /// An error event, or a stream error.
    Error,
}

/// What the runner reports.
pub enum WatchEvent {
    /// At the top of the loop, with whether the watch was cancelled.
    Resume { cancelled: bool },
    /// The listing succeeded, with the list's resource version.
    Listed { resource_version: Option<String> },
    ListFailed,
    Opened,
    OpenFailed,
    /// An item arrived, with whether the watch was cancelled meanwhile.
    Received { cancelled: bool, item: StreamItem },
    /// The stream ended.
    Ended,
}

/// What the runner does next.
pub enum WatchAction {
    /// Stop watching.
    Stop,
    /// List the objects.
    List,
    /// Emit every listed object as "ADDED", then open the stream from the
    /// given resource version.
    EmitListedThenOpen(String),
    /// Open the stream from the given resource version.
    OpenFrom(String),
    /// Wait two seconds, then resume.
    SleepThenResume,
    /// Resume at once.
    Resume,
    /// Emit the received object under the given operation, then read on.
    Emit(String),
    /// Read the next item.
    ReadNext,
    /// The report does not fit the phase; nothing to do.
    Ignore,
}

// ---------------------------------------------------------------------------
// Views
// ---------------------------------------------------------------------------

pub struct WatchStateView {
    pub phase: WatchPhase,
    pub resource_version: Option<Seq<char>>,
}

impl DeepView for WatchState {
    type V = WatchStateView;

    open spec fn deep_view(&self) -> WatchStateView {
        WatchStateView { phase: self.phase, resource_version: self.resource_version.deep_view() }
    }
}

pub enum StreamItemView {
    Added,
    Modified,
    Deleted,
    Bookmark(Seq<char>),
    Error,
}

impl DeepView for StreamItem {
    type V = StreamItemView;

    open spec fn deep_view(&self) -> StreamItemView {
        match self {
            StreamItem::Added => StreamItemView::Added,
            StreamItem::Modified => StreamItemView::Modified,
            StreamItem::Deleted => StreamItemView::Deleted,
            StreamItem::Bookmark(v) => StreamItemView::Bookmark(v@),
            StreamItem::Error => StreamItemView::Error,
        }
    }
}

pub enum WatchEventView {
    Resume { cancelled: bool },
    Listed { resource_version: Option<Seq<char>> },
    ListFailed,
    Opened,
    OpenFailed,
    Received { cancelled: bool, item: StreamItemView },
    Ended,
}

impl DeepView for WatchEvent {
    type V = WatchEventView;

    open spec fn deep_view(&self) -> WatchEventView {
        match self {
            WatchEvent::Resume { cancelled } => WatchEventView::Resume { cancelled: *cancelled },
            WatchEvent::Listed { resource_version } => WatchEventView::Listed {
                resource_version: resource_version.deep_view(),
            },
            WatchEvent::ListFailed => WatchEventView::ListFailed,
            WatchEvent::Opened => WatchEventView::Opened,
            WatchEvent::OpenFailed => WatchEventView::OpenFailed,
            WatchEvent::Received { cancelled, item } => WatchEventView::Received {
                cancelled: *cancelled,
                item: item.deep_view(),
            },
            WatchEvent::Ended => WatchEventView::Ended,
        }
    }
}

pub enum WatchActionView {
    Stop,
    List,
    EmitListedThenOpen(Seq<char>),
    OpenFrom(Seq<char>),
    SleepThenResume,
    Resume,
    Emit(Seq<char>),
    ReadNext,
    Ignore,
}

impl DeepView for WatchAction {
    type V = WatchActionView;

    open spec fn deep_view(&self) -> WatchActionView {
        match self {
            WatchAction::Stop => WatchActionView::Stop,
            WatchAction::List => WatchActionView::List,
            WatchAction::EmitListedThenOpen(v) => WatchActionView::EmitListedThenOpen(v@),
            WatchAction::OpenFrom(v) => WatchActionView::OpenFrom(v@),
            WatchAction::SleepThenResume => WatchActionView::SleepThenResume,
            WatchAction::Resume => WatchActionView::Resume,
            WatchAction::Emit(op) => WatchActionView::Emit(op@),
            WatchAction::ReadNext => WatchActionView::ReadNext,
            WatchAction::Ignore => WatchActionView::Ignore,
        }
    }
}

// ---------------------------------------------------------------------------
// Specification
// ---------------------------------------------------------------------------

/// A state in phase `p` resuming from `rv`.
pub open spec fn st(p: WatchPhase, rv: Option<Seq<char>>) -> WatchStateView {
    WatchStateView { phase: p, resource_version: rv }
}

/// An optional version, "" when absent.
pub open spec fn version_or_empty(rv: Option<Seq<char>>) -> Seq<char> {
    match rv {
        Some(v) => v,
        None => Seq::empty(),
    }
}

/// The next state and action of a watcher in state `s` after report `e`.
pub open spec fn watch_next(s: WatchStateView, e: WatchEventView) -> (WatchStateView, WatchActionView) {
    let rv = s.resource_version;
    match s.phase {
        WatchPhase::Stopped => (s, WatchActionView::Stop),
        WatchPhase::Top => match e {
            WatchEventView::Resume { cancelled } => if cancelled {
                (st(WatchPhase::Stopped, rv), WatchActionView::Stop)
            } else if rv is None {
                (st(WatchPhase::Listing, rv), WatchActionView::List)
            } else {
                (st(WatchPhase::Opening, rv), WatchActionView::OpenFrom(rv->0))
            },
            _ => (s, WatchActionView::Ignore),
        },
        WatchPhase::Listing => match e {
            WatchEventView::Listed { resource_version } => (
                st(WatchPhase::Opening, resource_version),
                WatchActionView::EmitListedThenOpen(version_or_empty(resource_version)),
            ),
            WatchEventView::ListFailed => (st(WatchPhase::Top, rv), WatchActionView::SleepThenResume),
            _ => (s, WatchActionView::Ignore),
        },
        WatchPhase::Opening => match e {
            WatchEventView::Opened => (st(WatchPhase::Streaming, rv), WatchActionView::ReadNext),
            WatchEventView::OpenFailed => (st(WatchPhase::Top, None), WatchActionView::SleepThenResume),
            _ => (s, WatchActionView::Ignore),
        },
        WatchPhase::Streaming => match e {
            WatchEventView::Received { cancelled, item } => if cancelled {
                (st(WatchPhase::Stopped, rv), WatchActionView::Stop)
            } else {
                match item {
                    StreamItemView::Added => (s, WatchActionView::Emit("ADDED"@)),
                    StreamItemView::Modified => (s, WatchActionView::Emit("MODIFIED"@)),
                    StreamItemView::Deleted => (s, WatchActionView::Emit("DELETED"@)),
                    StreamItemView::Bookmark(v) => (
                        st(WatchPhase::Streaming, Some(v)),
                        WatchActionView::ReadNext,
                    ),
                    StreamItemView::Error => (st(WatchPhase::Top, None), WatchActionView::Resume),
                }
            },
            WatchEventView::Ended => (st(WatchPhase::Top, rv), WatchActionView::Resume),
            _ => (s, WatchActionView::Ignore),
        },
    }
}

/// The state after a run of reports.
pub open spec fn watch_run(s: WatchStateView, es: Seq<WatchEventView>) -> WatchStateView
    decreases es.len(),
{
    if es.len() == 0 {
        s
    } else {
        watch_run(watch_next(s, es[0]).0, es.skip(1))
    }
}

// ---------------------------------------------------------------------------
// Functions
// ---------------------------------------------------------------------------

/// A new watcher: at the top, with no resource version.
pub fn watch_start() -> (r: WatchState)
    ensures
        r.deep_view() == st(WatchPhase::Top, None),
{
    WatchState { phase: WatchPhase::Top, resource_version: None }
}

fn copy_version(v: &Option<String>) -> (r: Option<String>)
    ensures
        r.deep_view() == v.deep_view(),
{
    match v {
        Some(s) => Some(s.clone()),
        None => None,
    }
}

/// The watcher's next state and action after report `e`.
pub fn watch_step(s: WatchState, e: WatchEvent) -> (r: (WatchState, WatchAction))
    ensures
        (r.0.deep_view(), r.1.deep_view()) == watch_next(s.deep_view(), e.deep_view()),
{
    let rv = s.resource_version;
    match s.phase {
        WatchPhase::Stopped => (WatchState { phase: WatchPhase::Stopped, resource_version: rv }, WatchAction::Stop),
        WatchPhase::Top => match e {
            WatchEvent::Resume { cancelled } => {
                if cancelled {
                    (WatchState { phase: WatchPhase::Stopped, resource_version: rv }, WatchAction::Stop)
                } else {
                    match rv {
                        None => (WatchState { phase: WatchPhase::Listing, resource_version: None }, WatchAction::List),
                        Some(v) => {
                            let from = v.clone();
                            (
                                WatchState { phase: WatchPhase::Opening, resource_version: Some(v) },
                                WatchAction::OpenFrom(from),
                            )
                        },
                    }
                }
            },
            _ => (WatchState { phase: WatchPhase::Top, resource_version: rv }, WatchAction::Ignore),
        },
        WatchPhase::Listing => match e {
            WatchEvent::Listed { resource_version } => {
                let from = match &resource_version {
                    Some(v) => v.clone(),
                    None => String::new(),
                };
                (
                    WatchState { phase: WatchPhase::Opening, resource_version },
                    WatchAction::EmitListedThenOpen(from),
                )
            },
            WatchEvent::ListFailed => (
                WatchState { phase: WatchPhase::Top, resource_version: rv },
                WatchAction::SleepThenResume,
            ),
            _ => (WatchState { phase: WatchPhase::Listing, resource_version: rv }, WatchAction::Ignore),
        },
        WatchPhase::Opening => match e {
            WatchEvent::Opened => (
                WatchState { phase: WatchPhase::Streaming, resource_version: rv },
                WatchAction::ReadNext,
            ),
            WatchEvent::OpenFailed => (
                WatchState { phase: WatchPhase::Top, resource_version: None },
                WatchAction::SleepThenResume,
            ),
            _ => (WatchState { phase: WatchPhase::Opening, resource_version: rv }, WatchAction::Ignore),
        },
        WatchPhase::Streaming => match e {
            WatchEvent::Received { cancelled, item } => {
                if cancelled {
                    (WatchState { phase: WatchPhase::Stopped, resource_version: rv }, WatchAction::Stop)
                } else {
                    match item {
                        StreamItem::Added => (
                            WatchState { phase: WatchPhase::Streaming, resource_version: rv },
                            WatchAction::Emit(owned("ADDED")),
                        ),
                        StreamItem::Modified => (
                            WatchState { phase: WatchPhase::Streaming, resource_version: rv },
                            WatchAction::Emit(owned("MODIFIED")),
                        ),
                        StreamItem::Deleted => (
                            WatchState { phase: WatchPhase::Streaming, resource_version: rv },
                            WatchAction::Emit(owned("DELETED")),
                        ),
                        StreamItem::Bookmark(v) => (
                            WatchState { phase: WatchPhase::Streaming, resource_version: Some(v) },
                            WatchAction::ReadNext,
                        ),
                        StreamItem::Error => (
                            WatchState { phase: WatchPhase::Top, resource_version: None },
                            WatchAction::Resume,
                        ),
                    }
                }
            },
            WatchEvent::Ended => (
                WatchState { phase: WatchPhase::Top, resource_version: rv },
                WatchAction::Resume,
            ),
            _ => (WatchState { phase: WatchPhase::Streaming, resource_version: rv }, WatchAction::Ignore),
        },
    }
}

// ---------------------------------------------------------------------------
// Laws
// ---------------------------------------------------------------------------

/// Once stopped, a watcher stays stopped whatever is reported after.
pub proof fn stopped_stays_stopped(rv: Option<Seq<char>>, es: Seq<WatchEventView>)
    ensures
        watch_run(st(WatchPhase::Stopped, rv), es) == st(WatchPhase::Stopped, rv),
    decreases es.len(),
{
    if es.len() > 0 {
        stopped_stays_stopped(rv, es.skip(1));
    }
}

/// A cancellation seen at the top of the loop or with a streamed item stops
/// the watcher, and every later report keeps it stopped.
pub proof fn cancellation_stops(s: WatchStateView, e: WatchEventView, rest: Seq<WatchEventView>)
    requires
        (s.phase == WatchPhase::Top && e == (WatchEventView::Resume { cancelled: true })) || (s.phase
            == WatchPhase::Streaming && (e matches WatchEventView::Received { cancelled, .. } && cancelled)),
    ensures
        watch_next(s, e).1 == WatchActionView::Stop,
        watch_run(s, seq![e] + rest).phase == WatchPhase::Stopped,
{
    let s1 = watch_next(s, e).0;
    assert((seq![e] + rest).skip(1) =~= rest);
    stopped_stays_stopped(s1.resource_version, rest);
}

/// After a stream error or a failed open the watcher forgets its resource
/// version, so its next start lists again.
pub proof fn errors_relist(s: WatchStateView, e: WatchEventView)
    requires
        (s.phase == WatchPhase::Streaming && e == (WatchEventView::Received {
            cancelled: false,
            item: StreamItemView::Error,
        })) || (s.phase == WatchPhase::Opening && e == WatchEventView::OpenFailed),
    ensures
        watch_next(s, e).0.resource_version is None,
        watch_next(watch_next(s, e).0, WatchEventView::Resume { cancelled: false }).1
            == WatchActionView::List,
{
}

/// A bookmark is where the stream resumes after it ends.
pub proof fn bookmark_resumes_there(rv: Option<Seq<char>>, v: Seq<char>)
    ensures
        watch_run(
            st(WatchPhase::Streaming, rv),
            seq![
                WatchEventView::Received { cancelled: false, item: StreamItemView::Bookmark(v) },
                WatchEventView::Ended,
            ],
        ) == st(WatchPhase::Top, Some(v)),
        watch_next(st(WatchPhase::Top, Some(v)), WatchEventView::Resume { cancelled: false }).1
            == WatchActionView::OpenFrom(v),
{
    let es = seq![
        WatchEventView::Received { cancelled: false, item: StreamItemView::Bookmark(v) },
        WatchEventView::Ended,
    ];
    assert(es.skip(1) =~= seq![WatchEventView::Ended]);
    assert(es.skip(1).skip(1) =~= Seq::<WatchEventView>::empty());
    reveal_with_fuel(watch_run, 3);
}


/// A change read from the stream is forwarded under the name of its kind,
/// with the watcher's state kept: an added object as "ADDED", a modified one
/// as "MODIFIED", a deleted one as "DELETED". Whatever the state and the
/// report, "DELETED" is emitted only for a deletion read from the stream, and
/// "MODIFIED" only for a modification.
pub proof fn changes_are_emitted_by_kind(s: WatchStateView, e: WatchEventView)
    requires
        s.phase == WatchPhase::Streaming,
    ensures
        watch_next(s, WatchEventView::Received { cancelled: false, item: StreamItemView::Added })
            == (s, WatchActionView::Emit("ADDED"@)),
        watch_next(s, WatchEventView::Received { cancelled: false, item: StreamItemView::Modified })
            == (s, WatchActionView::Emit("MODIFIED"@)),
        watch_next(s, WatchEventView::Received { cancelled: false, item: StreamItemView::Deleted })
            == (s, WatchActionView::Emit("DELETED"@)),
        forall|t: WatchStateView, f: WatchEventView|
            #[trigger] watch_next(t, f).1 == WatchActionView::Emit("DELETED"@) ==> f
                == (WatchEventView::Received { cancelled: false, item: StreamItemView::Deleted }),
        forall|t: WatchStateView, f: WatchEventView|
            #[trigger] watch_next(t, f).1 == WatchActionView::Emit("MODIFIED"@) ==> f
                == (WatchEventView::Received { cancelled: false, item: StreamItemView::Modified }),
{
    reveal_strlit("ADDED");
    reveal_strlit("MODIFIED");
    reveal_strlit("DELETED");
    assert("ADDED"@.len() == 5);
    assert("MODIFIED"@.len() == 8);
    assert("DELETED"@.len() == 7);
    assert forall|t: WatchStateView, f: WatchEventView|
        #[trigger] watch_next(t, f).1 == WatchActionView::Emit("DELETED"@) implies f
            == (WatchEventView::Received { cancelled: false, item: StreamItemView::Deleted }) by {
        assert("ADDED"@ != "DELETED"@);
        assert("MODIFIED"@ != "DELETED"@);
    }
    assert forall|t: WatchStateView, f: WatchEventView|
        #[trigger] watch_next(t, f).1 == WatchActionView::Emit("MODIFIED"@) implies f
            == (WatchEventView::Received { cancelled: false, item: StreamItemView::Modified }) by {
        assert("ADDED"@ != "MODIFIED"@);
        assert("DELETED"@ != "MODIFIED"@);
    }
}

} // verus!
