//! The self-update flow as a state machine without I/O.
//!
//! The driver queries the manifest, downloads, installs and restarts; the
//! machine keeps the phase and the running total, says what to report, and
//! sorts a failure by the phase in which it came.

use crate::failure::{UpdateError, UpdateErrorView};
use crate::progress::{lemma_running_totals, running_totals, total_length, DownloadProgress};
use vstd::prelude::*;

verus! {

/// Where an update stands.
#[derive(Clone, Copy, Debug, PartialEq, Eq)]
pub enum Update {
    /// Nothing has been asked for.
    Idle,
    /// Waiting for the answer of the manifest source.
    Checking,
    /// Ended: there is nothing newer.
    NoUpdate,
    /// There is a newer version; its download has been asked for and nothing
    /// of it has arrived.
    UpdateAvailable,
    /// Chunks are arriving.
    Downloading { progress: DownloadProgress },
    /// The package has arrived whole and is being applied.
    Installing,
    /// Ended: the package is installed and the restart has been asked for.
    RestartPending,
    /// Ended with a failure.
    Failed,
}

/// What the driver reports.
#[derive(Clone, Debug, PartialEq, Eq)]
pub enum UpdateEvent {
    /// The caller asks for an update.
    Invoked,
    /// The manifest source knows nothing newer.
    NoUpdateFound,
    /// The manifest source offers a newer version.
    UpdateFound,
    /// A chunk of `length` bytes has arrived; `content_length` is the size of
    /// the whole package, where it is known.
    Chunk { length: usize, content_length: Option<u64> },
    /// The package has arrived whole.
    DownloadFinished,
    /// The package has been applied.
    Installed,
    /// The work of the current phase failed.
    Failed(String),
}

/// What the driver is to do next.
#[derive(Debug, PartialEq, Eq)]
pub enum UpdateAction {
    /// Query the manifest source.
    Check,
    /// Download the package and install it, reporting each chunk and the end
    /// of the download on the way.
    DownloadAndInstall,
    /// Tell that `downloaded` bytes have arrived so far.
    ReportProgress { downloaded: usize, content_length: Option<u64> },
    /// Tell that the download is complete.
    ReportFinished,
    /// Restart the application.
    Restart,
    /// Hand this outcome to the caller.
    Finish(Result<(), UpdateError>),
}

/// A step of the machine: where it stands afterwards and what is to be done.
#[derive(Debug, PartialEq, Eq)]
pub struct UpdateTransition {
    pub state: Update,
    pub action: UpdateAction,
}

/// The mathematical value of an `Update`.
pub enum UpdateView {
    Idle,
    Checking,
    NoUpdate,
    UpdateAvailable,
    Downloading { downloaded: nat },
    Installing,
    RestartPending,
    Failed,
}

/// The mathematical value of an `UpdateEvent`.
pub enum UpdateEventView {
    Invoked,
    NoUpdateFound,
    UpdateFound,
    Chunk { length: nat, content_length: Option<u64> },
    DownloadFinished,
    Installed,
    Failed(Seq<char>),
}

/// The mathematical value of an `UpdateAction`.
pub enum UpdateActionView {
    Check,
    DownloadAndInstall,
    ReportProgress { downloaded: nat, content_length: Option<u64> },
    ReportFinished,
    Restart,
    Finish(Result<(), UpdateErrorView>),
}

/// The mathematical value of an `UpdateTransition`.
pub struct UpdateTransitionView {
    pub state: UpdateView,
    pub action: UpdateActionView,
}

impl View for Update {
    type V = UpdateView;

    open spec fn view(&self) -> UpdateView {
        match self {
            Update::Idle => UpdateView::Idle,
            Update::Checking => UpdateView::Checking,
            Update::NoUpdate => UpdateView::NoUpdate,
            Update::UpdateAvailable => UpdateView::UpdateAvailable,
            Update::Downloading { progress } => UpdateView::Downloading { downloaded: progress@ },
            Update::Installing => UpdateView::Installing,
            Update::RestartPending => UpdateView::RestartPending,
            Update::Failed => UpdateView::Failed,
        }
    }
}

impl View for UpdateEvent {
    type V = UpdateEventView;

    open spec fn view(&self) -> UpdateEventView {
        match self {
            UpdateEvent::Invoked => UpdateEventView::Invoked,
            UpdateEvent::NoUpdateFound => UpdateEventView::NoUpdateFound,
            UpdateEvent::UpdateFound => UpdateEventView::UpdateFound,
            UpdateEvent::Chunk { length, content_length } => UpdateEventView::Chunk {
                length: *length as nat,
                content_length: *content_length,
            },
            UpdateEvent::DownloadFinished => UpdateEventView::DownloadFinished,
            UpdateEvent::Installed => UpdateEventView::Installed,
            UpdateEvent::Failed(reason) => UpdateEventView::Failed(reason@),
        }
    }
}

impl View for UpdateAction {
    type V = UpdateActionView;

    open spec fn view(&self) -> UpdateActionView {
        match self {
            UpdateAction::Check => UpdateActionView::Check,
            UpdateAction::DownloadAndInstall => UpdateActionView::DownloadAndInstall,
            UpdateAction::ReportProgress { downloaded, content_length } => {
                UpdateActionView::ReportProgress {
                    downloaded: *downloaded as nat,
                    content_length: *content_length,
                }
            },
            UpdateAction::ReportFinished => UpdateActionView::ReportFinished,
            UpdateAction::Restart => UpdateActionView::Restart,
            UpdateAction::Finish(outcome) => UpdateActionView::Finish(
                match outcome {
                    Ok(_) => Ok(()),
                    Err(error) => Err(error@),
                },
            ),
        }
    }
}

impl View for UpdateTransition {
    type V = UpdateTransitionView;

    open spec fn view(&self) -> UpdateTransitionView {
        UpdateTransitionView { state: self.state@, action: self.action@ }
    }
}

impl UpdateView {
    /// The bytes that have arrived in this state.
    pub open spec fn downloaded(self) -> nat {
        match self {
            UpdateView::Downloading { downloaded } => downloaded,
            _ => 0,
        }
    }

    /// Whether the package is on its way: asked for, and not yet whole.
    pub open spec fn is_downloading(self) -> bool {
        self is UpdateAvailable || self is Downloading
    }

    /// Whether the update has ended, one way or another.
    pub open spec fn is_finished(self) -> bool {
        self is NoUpdate || self is RestartPending || self is Failed
    }
}

/// The step that ends an update with the failure `error`.
pub open spec fn fail(error: UpdateErrorView) -> UpdateTransitionView {
    UpdateTransitionView { state: UpdateView::Failed, action: UpdateActionView::Finish(Err(error)) }
}

/// The machine: the step that `event` causes in `state`, or `None` where
/// `state` does not wait for `event`.
pub open spec fn next(state: UpdateView, event: UpdateEventView) -> Option<UpdateTransitionView> {
    match event {
        UpdateEventView::Invoked => if state is Idle {
            Some(
                UpdateTransitionView { state: UpdateView::Checking, action: UpdateActionView::Check },
            )
        } else {
            None
        },
        UpdateEventView::NoUpdateFound => if state is Checking {
            Some(
                UpdateTransitionView {
                    state: UpdateView::NoUpdate,
                    action: UpdateActionView::Finish(Ok(())),
                },
            )
        } else {
            None
        },
        UpdateEventView::UpdateFound => if state is Checking {
            Some(
                UpdateTransitionView {
                    state: UpdateView::UpdateAvailable,
                    action: UpdateActionView::DownloadAndInstall,
                },
            )
        } else {
            None
        },
        UpdateEventView::Chunk { length, content_length } => if state.is_downloading() {
            Some(
                UpdateTransitionView {
                    state: UpdateView::Downloading { downloaded: state.downloaded() + length },
                    action: UpdateActionView::ReportProgress {
                        downloaded: state.downloaded() + length,
                        content_length,
                    },
                },
            )
        } else {
            None
        },
        UpdateEventView::DownloadFinished => if state.is_downloading() {
            Some(
                UpdateTransitionView {
                    state: UpdateView::Installing,
                    action: UpdateActionView::ReportFinished,
                },
            )
        } else {
            None
        },
        UpdateEventView::Installed => if state is Installing {
            Some(
                UpdateTransitionView {
                    state: UpdateView::RestartPending,
                    action: UpdateActionView::Restart,
                },
            )
        } else {
            None
        },
        UpdateEventView::Failed(reason) => if state is Checking {
            Some(fail(UpdateErrorView::Check(reason)))
        } else if state.is_downloading() {
            Some(fail(UpdateErrorView::Download(reason)))
        } else if state is Installing {
            Some(fail(UpdateErrorView::Install(reason)))
        } else {
            None
        },
    }
}

/// Whether the total stays within `usize` when `event` is taken in `state`.
pub open spec fn in_range(state: UpdateView, event: UpdateEventView) -> bool {
    event matches UpdateEventView::Chunk { length, .. } ==> (state.is_downloading()
        ==> state.downloaded() + length <= usize::MAX)
}

impl Update {
    /// An update that has not been asked for.
    pub fn new() -> (state: Update)
        ensures
            state@ == UpdateView::Idle,
    {
        Update::Idle
    }

    /// The bytes that have arrived so far.
    pub fn downloaded(&self) -> (total: usize)
        ensures
            total == self@.downloaded(),
    {
        match self {
            Update::Downloading { progress } => progress.downloaded(),
            _ => 0,
        }
    }

    /// Whether the update has ended.
    pub fn is_finished(&self) -> (r: bool)
        ensures
            r == self@.is_finished(),
    {
        match self {
            Update::NoUpdate => true,
            Update::RestartPending => true,
            Update::Failed => true,
            _ => false,
        }
    }

    /// Whether `step` may be called with `event`: whether the total stays
    /// within `usize`.
    pub fn has_room_for(&self, event: &UpdateEvent) -> (r: bool)
        ensures
            r == in_range(self@, event@),
    {
        match event {
            UpdateEvent::Chunk { length, .. } => match self {
                Update::UpdateAvailable => true,
                Update::Downloading { progress } => progress.has_room_for(*length),
                _ => true,
            },
            _ => true,
        }
    }

    /// Takes the machine one step on `event`. Returns `None`, and decides
    /// nothing, where the machine does not wait for `event` in this state.
    pub fn step(self, event: UpdateEvent) -> (r: Option<UpdateTransition>)
        requires
            in_range(self@, event@),
        ensures
            match r {
                Some(t) => next(self@, event@) == Some(t@),
                None => next(self@, event@) is None,
            },
    {
        match event {
            UpdateEvent::Invoked => match self {
                Update::Idle => Some(
                    UpdateTransition { state: Update::Checking, action: UpdateAction::Check },
                ),
                _ => None,
            },
            UpdateEvent::NoUpdateFound => match self {
                Update::Checking => Some(
                    UpdateTransition {
                        state: Update::NoUpdate,
                        action: UpdateAction::Finish(Ok(())),
                    },
                ),
                _ => None,
            },
            UpdateEvent::UpdateFound => match self {
                Update::Checking => Some(
                    UpdateTransition {
                        state: Update::UpdateAvailable,
                        action: UpdateAction::DownloadAndInstall,
                    },
                ),
                _ => None,
            },
            UpdateEvent::Chunk { length, content_length } => {
                let before = match self {
                    Update::UpdateAvailable => Some(DownloadProgress::new()),
                    Update::Downloading { progress } => Some(progress),
                    _ => None,
                };
                match before {
                    Some(mut progress) => {
                        let downloaded = progress.record(length);
                        Some(
                            UpdateTransition {
                                state: Update::Downloading { progress },
                                action: UpdateAction::ReportProgress { downloaded, content_length },
                            },
                        )
                    },
                    None => None,
                }
            },
            UpdateEvent::DownloadFinished => match self {
                Update::UpdateAvailable | Update::Downloading { .. } => Some(
                    UpdateTransition {
                        state: Update::Installing,
                        action: UpdateAction::ReportFinished,
                    },
                ),
                _ => None,
            },
            UpdateEvent::Installed => match self {
                Update::Installing => Some(
                    UpdateTransition { state: Update::RestartPending, action: UpdateAction::Restart },
                ),
                _ => None,
            },
            UpdateEvent::Failed(reason) => {
                let error = match self {
                    Update::Checking => Some(UpdateError::Check(reason)),
                    Update::UpdateAvailable | Update::Downloading { .. } => Some(
                        UpdateError::Download(reason),
                    ),
                    Update::Installing => Some(UpdateError::Install(reason)),
                    _ => None,
                };
                match error {
                    Some(error) => Some(
                        UpdateTransition {
                            state: Update::Failed,
                            action: UpdateAction::Finish(Err(error)),
                        },
                    ),
                    None => None,
                }
            },
        }
    }
}

/// Where a run of events ends and what it had the driver do, in order.
pub struct UpdateRunView {
    pub state: UpdateView,
    pub actions: Seq<UpdateActionView>,
}

/// Feeds `events` to the machine in order, from `state`. `None` where the
/// machine does not wait for one of them when it comes.
pub open spec fn run(state: UpdateView, events: Seq<UpdateEventView>) -> Option<UpdateRunView>
    decreases events.len(),
{
    if events.len() == 0 {
        Some(UpdateRunView { state, actions: Seq::empty() })
    } else {
        match next(state, events.first()) {
            None => None,
            Some(t) => match run(t.state, events.drop_first()) {
                None => None,
                Some(rest) => Some(
                    UpdateRunView { state: rest.state, actions: seq![t.action] + rest.actions },
                ),
            },
        }
    }
}

/// The lengths of the chunks among `events`, in order.
pub open spec fn chunk_lengths(events: Seq<UpdateEventView>) -> Seq<nat>
    decreases events.len(),
{
    if events.len() == 0 {
        Seq::empty()
    } else {
        match events.first() {
            UpdateEventView::Chunk { length, .. } => seq![length] + chunk_lengths(
                events.drop_first(),
            ),
            _ => chunk_lengths(events.drop_first()),
        }
    }
}

/// The totals that `actions` report, in order.
pub open spec fn reported_totals(actions: Seq<UpdateActionView>) -> Seq<nat>
    decreases actions.len(),
{
    if actions.len() == 0 {
        Seq::empty()
    } else {
        match actions.first() {
            UpdateActionView::ReportProgress { downloaded, .. } => seq![downloaded]
                + reported_totals(actions.drop_first()),
            _ => reported_totals(actions.drop_first()),
        }
    }
}

/// The totals among a list of actions are that of its first action, if it
/// reports one, then those of the rest.
pub proof fn lemma_reported_totals_cons(first: UpdateActionView, rest: Seq<UpdateActionView>)
    ensures
        reported_totals(seq![first] + rest) == match first {
            UpdateActionView::ReportProgress { downloaded, .. } => seq![downloaded]
                + reported_totals(rest),
            _ => reported_totals(rest),
        },
{
    assert((seq![first] + rest).drop_first() == rest);
}

/// A run has the driver act once for each event, and each action answers the
/// event at its place: a total is reported for a chunk and for nothing else,
/// and the end of the download is reported for its event and for nothing
/// else.
pub proof fn lemma_actions_answer_events(state: UpdateView, events: Seq<UpdateEventView>)
    requires
        run(state, events) is Some,
    ensures
        run(state, events)->0.actions.len() == events.len(),
        forall|i: int|
            0 <= i < events.len() ==> (#[trigger] run(state, events)->0.actions[i]
                is ReportProgress <==> events[i] is Chunk),
        forall|i: int|
            0 <= i < events.len() ==> (#[trigger] run(state, events)->0.actions[i]
                is ReportFinished <==> events[i] is DownloadFinished),
    decreases events.len(),
{
    if events.len() > 0 {
        let t = next(state, events.first())->0;
        let rest = run(t.state, events.drop_first())->0;
        lemma_actions_answer_events(t.state, events.drop_first());
        let all = run(state, events)->0.actions;
        assert(all == seq![t.action] + rest.actions);
        assert forall|i: int| 0 <= i < events.len() implies (#[trigger] all[i] is ReportProgress
            <==> events[i] is Chunk) && (all[i] is ReportFinished <==> events[i]
            is DownloadFinished) by {
            if i > 0 {
                assert(all[i] == rest.actions[i - 1]);
                assert(events[i] == events.drop_first()[i - 1]);
            }
        }
    }
}

/// Once the package is whole, or the update over, no chunk is taken and
/// nothing more is reported of the download.
pub proof fn lemma_download_is_over(state: UpdateView, events: Seq<UpdateEventView>)
    requires
        state is Installing || state.is_finished(),
        run(state, events) is Some,
    ensures
        forall|i: int|
            0 <= i < events.len() ==> !(#[trigger] events[i] is Chunk) && !(events[i]
                is DownloadFinished),
        chunk_lengths(events).len() == 0,
        reported_totals(run(state, events)->0.actions).len() == 0,
    decreases events.len(),
{
    if events.len() > 0 {
        let t = next(state, events.first())->0;
        let rest = run(t.state, events.drop_first())->0;
        lemma_download_is_over(t.state, events.drop_first());
        lemma_reported_totals_cons(t.action, rest.actions);
        assert forall|i: int| 0 <= i < events.len() implies !(#[trigger] events[i] is Chunk) && !(
        events[i] is DownloadFinished) by {
            if i > 0 {
                assert(events[i] == events.drop_first()[i - 1]);
            }
        }
    }
}

/// The totals that a run reports are the running totals of the chunks that
/// arrive in it, on top of what had arrived before.
pub proof fn lemma_reports_are_running_totals(state: UpdateView, events: Seq<UpdateEventView>)
    requires
        run(state, events) is Some,
    ensures
        reported_totals(run(state, events)->0.actions) == running_totals(
            state.downloaded(),
            chunk_lengths(events),
        ),
    decreases events.len(),
{
    if events.len() > 0 {
        let t = next(state, events.first())->0;
        let tail = events.drop_first();
        let rest = run(t.state, tail)->0;
        lemma_reports_are_running_totals(t.state, tail);
        lemma_reported_totals_cons(t.action, rest.actions);
        match events.first() {
            UpdateEventView::Chunk { length, .. } => {
                assert(chunk_lengths(events).drop_first() == chunk_lengths(tail));
            },
            _ => {
                if t.state.downloaded() != state.downloaded() {
                    lemma_download_is_over(t.state, tail);
                    assert(chunk_lengths(tail) == Seq::<nat>::empty());
                    assert(reported_totals(rest.actions) == Seq::<nat>::empty());
                }
            },
        }
    }
}

/// While a package arrives, the reported totals never decrease, and the last
/// of them is the length of all chunks together: `n` for a package of `n`
/// bytes, however it is split.
pub proof fn lemma_progress_is_monotonic(events: Seq<UpdateEventView>)
    requires
        run(UpdateView::Idle, events) is Some,
    ensures
        ({
            let reports = reported_totals(run(UpdateView::Idle, events)->0.actions);
            &&& reports.len() == chunk_lengths(events).len()
            &&& forall|i: int, j: int| 0 <= i <= j < reports.len() ==> reports[i] <= reports[j]
            &&& reports.len() > 0 ==> reports.last() == total_length(chunk_lengths(events))
        }),
{
    lemma_reports_are_running_totals(UpdateView::Idle, events);
    lemma_running_totals(0, chunk_lengths(events));
}

/// The end of the download is reported at most once in a run, after every
/// report of a total, and exactly once in a run that starts before the
/// package is whole and gets to its installation.
pub proof fn lemma_finish_report_is_last_and_single(
    state: UpdateView,
    events: Seq<UpdateEventView>,
)
    requires
        run(state, events) is Some,
    ensures
        ({
            let end = run(state, events)->0;
            &&& forall|i: int, j: int|
                0 <= i < events.len() && 0 <= j < events.len() && end.actions[i] is ReportFinished
                    && end.actions[j] is ReportProgress ==> j < i
            &&& forall|i: int, j: int|
                0 <= i < events.len() && 0 <= j < events.len() && end.actions[i] is ReportFinished
                    && end.actions[j] is ReportFinished ==> i == j
            &&& (state is Idle || state is Checking || state.is_downloading()) && (end.state
                is Installing || end.state is RestartPending) ==> exists|i: int|
                0 <= i < events.len() && end.actions[i] is ReportFinished
        }),
    decreases events.len(),
{
    lemma_actions_answer_events(state, events);
    if events.len() > 0 {
        let t = next(state, events.first())->0;
        let tail = events.drop_first();
        let rest = run(t.state, tail)->0;
        let end = run(state, events)->0;
        lemma_finish_report_is_last_and_single(t.state, tail);
        lemma_actions_answer_events(t.state, tail);
        assert(end.actions == seq![t.action] + rest.actions);
        assert forall|i: int| 1 <= i < events.len() implies end.actions[i] == rest.actions[i
            - 1] by {}
        if t.action is ReportFinished {
            lemma_download_is_over(t.state, tail);
            assert forall|j: int| 1 <= j < events.len() implies !(end.actions[j]
                is ReportProgress) && !(end.actions[j] is ReportFinished) by {
                assert(events[j] == tail[j - 1]);
            }
            assert(end.actions[0] is ReportFinished);
        } else if (state is Idle || state is Checking || state.is_downloading()) && (end.state
            is Installing || end.state is RestartPending) {
            if t.state.is_finished() {
                lemma_finished_is_final(t.state, tail);
            }
            let i = choose|i: int| 0 <= i < tail.len() && rest.actions[i] is ReportFinished;
            assert(end.actions[i + 1] is ReportFinished);
        }
    }
}

/// An update that has ended takes no further event.
pub proof fn lemma_finished_is_final(state: UpdateView, events: Seq<UpdateEventView>)
    requires
        state.is_finished(),
        run(state, events) is Some,
    ensures
        events.len() == 0,
        run(state, events) == Some(UpdateRunView { state, actions: Seq::empty() }),
{
}

/// A failure is sorted by the phase in which it comes, ends the update, and
/// keeps its reason.
pub proof fn lemma_failure_is_sorted_by_phase(state: UpdateView, reason: Seq<char>)
    ensures
        next(state, UpdateEventView::Failed(reason)) == if state is Checking {
            Some(fail(UpdateErrorView::Check(reason)))
        } else if state.is_downloading() {
            Some(fail(UpdateErrorView::Download(reason)))
        } else if state is Installing {
            Some(fail(UpdateErrorView::Install(reason)))
        } else {
            None
        },
        next(state, UpdateEventView::Failed(reason)) matches Some(t) ==> t.state is Failed && (
        t.action matches UpdateActionView::Finish(Err(error)) && error.message() == reason),
{
}

} // verus!
