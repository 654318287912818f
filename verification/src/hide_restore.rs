//! The hide-and-restore strategy: on a system that cannot exclude a window
//! from a capture, hide the window, capture the display, and put the window
//! back.
//!
//! Hiding, waiting, capturing and showing are the host's work. The host asks
//! [`begin`] for the first request, performs each request, and hands the
//! reply to [`step`] until the strategy has finished. Whatever the capture
//! comes to, a window that was visible is shown and focused again before the
//! strategy finishes. A call that hides, shows or focuses the window and
//! fails is the host's to record; it never ends the strategy.

use vstd::prelude::*;
use crate::error::{CaptureError, CaptureFailure};
use crate::outcome::CaptureOutcome;

verus! {

/// How long the host waits for the compositor to catch up.
#[derive(Clone, Copy, Debug, PartialEq, Eq, Structural)]
pub struct SettleDelays {
    /// Milliseconds between hiding the window and capturing.
    pub after_hide_ms: u64,
    /// Milliseconds between showing the window and focusing it.
    pub before_focus_ms: u64,
}

impl Default for SettleDelays {
    /// Delays short enough not to be felt and long enough for a compositor
    /// to redraw.
    fn default() -> (delays: SettleDelays)
        ensures
            delays == (SettleDelays { after_hide_ms: 80, before_focus_ms: 30 }),
    {
        SettleDelays { after_hide_ms: 80, before_focus_ms: 30 }
    }
}

/// What the strategy is waiting for.
#[derive(Debug, PartialEq, Eq)]
pub enum HideRestorePhase {
    /// The visibility of the window was asked for.
    AwaitingVisibility,
    /// The window was asked to hide.
    AwaitingHide,
    /// The window is hidden and the compositor is given time to remove it.
    Settling,
    /// The display is being captured; `restore` says whether the window was
    /// visible before and is to be put back afterwards.
    Capturing { restore: bool },
    /// The capture is over and the window was asked to show again.
    AwaitingShow { outcome: CaptureOutcome },
    /// The window is shown and the compositor is given time to redraw it.
    Redrawing { outcome: CaptureOutcome },
    /// The window was asked to take the focus.
    AwaitingFocus { outcome: CaptureOutcome },
}

/// The state of one run of the strategy.
#[derive(Debug, PartialEq, Eq)]
pub struct HideRestore {
    pub delays: SettleDelays,
    pub phase: HideRestorePhase,
}

/// What the host is asked to do next.
#[derive(Clone, Copy, Debug, PartialEq, Eq, Structural)]
pub enum WindowRequest {
    /// Find out whether the window is visible.
    QueryVisibility,
    /// Hide the window.
    Hide,
    /// Let this many milliseconds pass.
    Wait { millis: u64 },
    /// Capture the primary display, excluding nothing.
    CaptureDisplay,
    /// Show the window.
    Show,
    /// Give the window the focus.
    Focus,
}

/// What became of a request.
#[derive(Debug, PartialEq, Eq)]
pub enum WindowReply {
    /// Whether the window is visible, or the text of the error that kept it
    /// from being found out.
    Visibility(Result<bool, String>),
    /// Whether hiding, showing or focusing the window worked.
    Toggled(bool),
    /// The time has passed.
    Waited,
    /// What the capture came to.
    Captured(CaptureOutcome),
}

/// How far the strategy has come.
#[derive(Debug, PartialEq, Eq)]
pub enum HideRestoreProgress {
    /// The host performs the request and comes back with the given state.
    Next(HideRestore, WindowRequest),
    /// The strategy has finished with this outcome.
    Finished(CaptureOutcome),
}

impl HideRestorePhase {
    /// An upper bound on the number of requests that are still to come.
    pub open spec fn remaining(self) -> nat {
        match self {
            HideRestorePhase::AwaitingVisibility => 7,
            HideRestorePhase::AwaitingHide => 6,
            HideRestorePhase::Settling => 5,
            HideRestorePhase::Capturing { .. } => 4,
            HideRestorePhase::AwaitingShow { .. } => 3,
            HideRestorePhase::Redrawing { .. } => 2,
            HideRestorePhase::AwaitingFocus { .. } => 1,
        }
    }
}

/// The outcome that the capture phase goes on with: what the host reports,
/// or [`CaptureError::DisplayCaptureError`] if the reply is not about a
/// capture at all.
pub open spec fn captured_outcome(reply: WindowReply) -> CaptureOutcome {
    match reply {
        WindowReply::Captured(outcome) => outcome,
        _ => CaptureOutcome::Failure(
            CaptureFailure::spec_plain(CaptureError::DisplayCaptureError),
        ),
    }
}

/// The transition of the strategy.
///
/// Only a visibility that cannot be found out ends the strategy early, with
/// [`CaptureError::VisibilityToggleError`] and the text of the error. A
/// window that is visible is asked to hide; whether or not that works, the
/// display is captured and the window is asked to show and to take the
/// focus, and the outcome is that of the capture. The first wait is kept
/// for a window that did hide, the second for one that did show.
///
/// A reply that does not answer the pending request counts as the failure of
/// that request, and a wait cannot fail.
pub open spec fn spec_step(machine: HideRestore, reply: WindowReply) -> HideRestoreProgress {
    let delays = machine.delays;
    match machine.phase {
        HideRestorePhase::AwaitingVisibility => match reply {
            WindowReply::Visibility(Ok(true)) => HideRestoreProgress::Next(
                HideRestore { delays, phase: HideRestorePhase::AwaitingHide },
                WindowRequest::Hide,
            ),
            WindowReply::Visibility(Ok(false)) => HideRestoreProgress::Next(
                HideRestore { delays, phase: HideRestorePhase::Capturing { restore: false } },
                WindowRequest::CaptureDisplay,
            ),
            WindowReply::Visibility(Err(text)) => HideRestoreProgress::Finished(
                CaptureOutcome::Failure(
                    CaptureFailure {
                        reason: CaptureError::VisibilityToggleError,
                        detail: Some(text),
                    },
                ),
            ),
            _ => HideRestoreProgress::Finished(
                CaptureOutcome::Failure(
                    CaptureFailure::spec_plain(CaptureError::VisibilityToggleError),
                ),
            ),
        },
        HideRestorePhase::AwaitingHide => match reply {
            WindowReply::Toggled(true) => HideRestoreProgress::Next(
                HideRestore { delays, phase: HideRestorePhase::Settling },
                WindowRequest::Wait { millis: delays.after_hide_ms },
            ),
            _ => HideRestoreProgress::Next(
                HideRestore { delays, phase: HideRestorePhase::Capturing { restore: true } },
                WindowRequest::CaptureDisplay,
            ),
        },
        HideRestorePhase::Settling => HideRestoreProgress::Next(
            HideRestore { delays, phase: HideRestorePhase::Capturing { restore: true } },
            WindowRequest::CaptureDisplay,
        ),
        HideRestorePhase::Capturing { restore } => if restore {
            HideRestoreProgress::Next(
                HideRestore {
                    delays,
                    phase: HideRestorePhase::AwaitingShow { outcome: captured_outcome(reply) },
                },
                WindowRequest::Show,
            )
        } else {
            HideRestoreProgress::Finished(captured_outcome(reply))
        },
        HideRestorePhase::AwaitingShow { outcome } => match reply {
            WindowReply::Toggled(true) => HideRestoreProgress::Next(
                HideRestore { delays, phase: HideRestorePhase::Redrawing { outcome } },
                WindowRequest::Wait { millis: delays.before_focus_ms },
            ),
            _ => HideRestoreProgress::Next(
                HideRestore { delays, phase: HideRestorePhase::AwaitingFocus { outcome } },
                WindowRequest::Focus,
            ),
        },
        HideRestorePhase::Redrawing { outcome } => HideRestoreProgress::Next(
            HideRestore { delays, phase: HideRestorePhase::AwaitingFocus { outcome } },
            WindowRequest::Focus,
        ),
        HideRestorePhase::AwaitingFocus { outcome } => HideRestoreProgress::Finished(outcome),
    }
}

/// Starts the strategy: the first thing to find out is whether the window is
/// visible.
pub fn begin(delays: SettleDelays) -> (first: (HideRestore, WindowRequest))
    ensures
        first == (
            HideRestore { delays, phase: HideRestorePhase::AwaitingVisibility },
            WindowRequest::QueryVisibility,
        ),
{
    (
        HideRestore { delays, phase: HideRestorePhase::AwaitingVisibility },
        WindowRequest::QueryVisibility,
    )
}

/// Takes the host's reply to the pending request and decides how the
/// strategy goes on. Every step brings the strategy closer to its end.
pub fn step(machine: HideRestore, reply: WindowReply) -> (progress: HideRestoreProgress)
    ensures
        progress == spec_step(machine, reply),
        progress matches HideRestoreProgress::Next(next, _) ==> next.phase.remaining()
            < machine.phase.remaining(),
{
    let delays = machine.delays;
    match machine.phase {
        HideRestorePhase::AwaitingVisibility => match reply {
            WindowReply::Visibility(Ok(true)) => HideRestoreProgress::Next(
                HideRestore { delays, phase: HideRestorePhase::AwaitingHide },
                WindowRequest::Hide,
            ),
            WindowReply::Visibility(Ok(false)) => HideRestoreProgress::Next(
                HideRestore { delays, phase: HideRestorePhase::Capturing { restore: false } },
                WindowRequest::CaptureDisplay,
            ),
            WindowReply::Visibility(Err(text)) => HideRestoreProgress::Finished(
                CaptureOutcome::Failure(
                    CaptureFailure {
                        reason: CaptureError::VisibilityToggleError,
                        detail: Some(text),
                    },
                ),
            ),
            _ => HideRestoreProgress::Finished(
                CaptureOutcome::failed(CaptureError::VisibilityToggleError),
            ),
        },
        HideRestorePhase::AwaitingHide => match reply {
            WindowReply::Toggled(true) => HideRestoreProgress::Next(
                HideRestore { delays, phase: HideRestorePhase::Settling },
                WindowRequest::Wait { millis: delays.after_hide_ms },
            ),
            _ => HideRestoreProgress::Next(
                HideRestore { delays, phase: HideRestorePhase::Capturing { restore: true } },
                WindowRequest::CaptureDisplay,
            ),
        },
        HideRestorePhase::Settling => HideRestoreProgress::Next(
            HideRestore { delays, phase: HideRestorePhase::Capturing { restore: true } },
            WindowRequest::CaptureDisplay,
        ),
        HideRestorePhase::Capturing { restore } => {
            let outcome = match reply {
                WindowReply::Captured(outcome) => outcome,
                _ => CaptureOutcome::failed(CaptureError::DisplayCaptureError),
            };
            if restore {
                HideRestoreProgress::Next(
                    HideRestore { delays, phase: HideRestorePhase::AwaitingShow { outcome } },
                    WindowRequest::Show,
                )
            } else {
                HideRestoreProgress::Finished(outcome)
            }
        },
        HideRestorePhase::AwaitingShow { outcome } => match reply {
            WindowReply::Toggled(true) => HideRestoreProgress::Next(
                HideRestore { delays, phase: HideRestorePhase::Redrawing { outcome } },
                WindowRequest::Wait { millis: delays.before_focus_ms },
            ),
            _ => HideRestoreProgress::Next(
                HideRestore { delays, phase: HideRestorePhase::AwaitingFocus { outcome } },
                WindowRequest::Focus,
            ),
        },
        HideRestorePhase::Redrawing { outcome } => HideRestoreProgress::Next(
            HideRestore { delays, phase: HideRestorePhase::AwaitingFocus { outcome } },
            WindowRequest::Focus,
        ),
        HideRestorePhase::AwaitingFocus { outcome } => HideRestoreProgress::Finished(outcome),
    }
}

/// What is observable of the window.
pub struct WindowModel {
    pub visible: bool,
    pub focused: bool,
}

/// A host as the strategy meets it: the window, which of its calls work,
/// and what a capture of the display comes to.
pub struct HostModel {
    pub window: WindowModel,
    /// The text of the error of the visibility query, where it fails.
    pub query_error: Option<String>,
    pub hide_works: bool,
    pub show_works: bool,
    pub focus_works: bool,
    pub capture: CaptureOutcome,
}

/// What a run of the strategy on a host comes to.
pub struct HostRun {
    /// The host after the run.
    pub host: HostModel,
    /// The requests that were made, in order.
    pub requests: Seq<WindowRequest>,
    /// The outcome of the strategy.
    pub outcome: CaptureOutcome,
}

/// The request changes what is visible or focused.
pub open spec fn mutates_window(request: WindowRequest) -> bool {
    request == WindowRequest::Hide || request == WindowRequest::Show || request
        == WindowRequest::Focus
}

/// How the host answers a request, and what the request does to it: a call
/// that works changes the window, a call that fails leaves it as it was.
pub open spec fn respond(host: HostModel, request: WindowRequest) -> (HostModel, WindowReply) {
    match request {
        WindowRequest::QueryVisibility => (
            host,
            WindowReply::Visibility(
                match host.query_error {
                    Some(text) => Err(text),
                    None => Ok(host.window.visible),
                },
            ),
        ),
        WindowRequest::Hide => if host.hide_works {
            (
                HostModel { window: WindowModel { visible: false, focused: false }, ..host },
                WindowReply::Toggled(true),
            )
        } else {
            (host, WindowReply::Toggled(false))
        },
        WindowRequest::Wait { millis } => (host, WindowReply::Waited),
        WindowRequest::CaptureDisplay => (host, WindowReply::Captured(host.capture)),
        WindowRequest::Show => if host.show_works {
            (
                HostModel { window: WindowModel { visible: true, ..host.window }, ..host },
                WindowReply::Toggled(true),
            )
        } else {
            (host, WindowReply::Toggled(false))
        },
        WindowRequest::Focus => if host.focus_works {
            (
                HostModel { window: WindowModel { focused: true, ..host.window }, ..host },
                WindowReply::Toggled(true),
            )
        } else {
            (host, WindowReply::Toggled(false))
        },
    }
}

/// Runs the strategy on a host from the given state and pending request
/// until it finishes.
pub open spec fn run_from(machine: HideRestore, request: WindowRequest, host: HostModel) -> HostRun
    decreases machine.phase.remaining(),
{
    let (after, reply) = respond(host, request);
    match spec_step(machine, reply) {
        HideRestoreProgress::Next(next, next_request) => {
            let rest = run_from(next, next_request, after);
            HostRun {
                host: rest.host,
                requests: seq![request] + rest.requests,
                outcome: rest.outcome,
            }
        },
        HideRestoreProgress::Finished(outcome) => HostRun {
            host: after,
            requests: seq![request],
            outcome,
        },
    }
}

/// Runs the whole strategy on a host.
pub open spec fn run(delays: SettleDelays, host: HostModel) -> HostRun {
    run_from(
        HideRestore { delays, phase: HideRestorePhase::AwaitingVisibility },
        WindowRequest::QueryVisibility,
        host,
    )
}

/// The outcome of a run on a host whose visibility query fails.
pub open spec fn query_failure(host: HostModel) -> CaptureOutcome {
    CaptureOutcome::Failure(
        CaptureFailure { reason: CaptureError::VisibilityToggleError, detail: host.query_error },
    )
}

/// A wait of `millis` milliseconds where `due`, and nothing otherwise.
pub open spec fn wait_if(due: bool, millis: u64) -> Seq<WindowRequest> {
    if due {
        seq![WindowRequest::Wait { millis }]
    } else {
        Seq::empty()
    }
}

/// The requests of a run on a window that was found visible: the window is
/// asked to hide, the display is captured, and the window is asked to show
/// and to take the focus. The first wait is made where hiding worked, the
/// second where showing worked.
pub open spec fn restoring_requests(delays: SettleDelays, hid: bool, shown: bool) -> Seq<
    WindowRequest,
> {
    seq![WindowRequest::QueryVisibility, WindowRequest::Hide] + wait_if(hid, delays.after_hide_ms)
        + seq![WindowRequest::CaptureDisplay, WindowRequest::Show] + wait_if(
        shown,
        delays.before_focus_ms,
    ) + seq![WindowRequest::Focus]
}

/// The restoration is attempted on every path: a window that was found
/// visible is asked to show and to take the focus after the capture, whether
/// hiding it worked, whether the capture succeeded or failed and whether
/// showing works, and the outcome of the strategy is the outcome of the
/// capture.
pub proof fn lemma_restoration_is_always_attempted(delays: SettleDelays, host: HostModel)
    requires
        host.window.visible,
        host.query_error is None,
    ensures
        run(delays, host).outcome == host.capture,
        run(delays, host).requests == restoring_requests(
            delays,
            host.hide_works,
            host.show_works,
        ),
{
    reveal_with_fuel(run_from, 8);
    assert(run(delays, host).requests =~= restoring_requests(
        delays,
        host.hide_works,
        host.show_works,
    ));
}

/// A window that is visible before the strategy runs is visible after it,
/// whether the capture succeeded or failed, provided that the calls that put
/// a hidden window back work.
///
/// Where the visibility was found out, the outcome is that of the capture,
/// whether or not the window could be hidden, and a window that was hidden
/// is visible and focused afterwards. Where the visibility could not be
/// found out, nothing was done to the window and the strategy fails with
/// [`CaptureError::VisibilityToggleError`] and the text of the error.
pub proof fn lemma_visible_window_is_restored(delays: SettleDelays, host: HostModel)
    requires
        host.window.visible,
        host.query_error is None && host.hide_works ==> host.show_works && host.focus_works,
    ensures
        run(delays, host).host.window.visible == host.window.visible,
        run(delays, host).host.window.focused || run(delays, host).host.window == host.window,
        host.query_error is None ==> run(delays, host).outcome == host.capture,
        host.query_error is None && host.hide_works ==> run(delays, host).host.window.focused,
        host.query_error is Some ==> {
            &&& run(delays, host).host == host
            &&& run(delays, host).outcome == query_failure(host)
        },
{
    reveal_with_fuel(run_from, 8);
}

/// A hide that fails ends nothing: the display is captured all the same,
/// the window is asked to show and to take the focus, it is still visible
/// afterwards, and the outcome is that of the capture.
pub proof fn lemma_failed_hide_is_not_fatal(delays: SettleDelays, host: HostModel)
    requires
        host.window.visible,
        host.query_error is None,
        !host.hide_works,
    ensures
        run(delays, host).outcome == host.capture,
        run(delays, host).host.window.visible,
        run(delays, host).requests.contains(WindowRequest::CaptureDisplay),
        run(delays, host).requests.contains(WindowRequest::Show),
        run(delays, host).requests.contains(WindowRequest::Focus),
{
    reveal_with_fuel(run_from, 8);
    lemma_restoration_is_always_attempted(delays, host);
    let made = run(delays, host).requests;
    assert(made[2] == WindowRequest::CaptureDisplay);
    assert(made[3] == WindowRequest::Show);
    assert(made[made.len() - 1] == WindowRequest::Focus);
}

/// A window that is hidden before the strategy runs is left alone: no
/// request hides, shows or focuses it, the host is as it was, and the
/// outcome is that of the capture, or
/// [`CaptureError::VisibilityToggleError`] where the visibility could not be
/// found out.
pub proof fn lemma_hidden_window_is_left_alone(delays: SettleDelays, host: HostModel)
    requires
        !host.window.visible,
    ensures
        run(delays, host).host == host,
        forall|i: int|
            0 <= i < run(delays, host).requests.len() ==> !mutates_window(
                #[trigger] run(delays, host).requests[i],
            ),
        run(delays, host).outcome == if host.query_error is None {
            host.capture
        } else {
            query_failure(host)
        },
{
    reveal_with_fuel(run_from, 8);
    let made = run(delays, host).requests;
    if host.query_error is None {
        assert(made =~= seq![WindowRequest::QueryVisibility, WindowRequest::CaptureDisplay]);
    } else {
        assert(made =~= seq![WindowRequest::QueryVisibility]);
    }
}

} // verus!
