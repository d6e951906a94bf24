//! The watch scheduler's decisions. The loop itself (sleeping, file I/O,
//! printing) lives with the caller; here is the cross-cycle state and the
//! verified rules: when an error is printed and when it is suppressed as a
//! repeat, when the pass is fatal, and when the viewer is opened.
use vstd::prelude::*;

verus! {

/// The scheduler's memory across cycles: the message of the last error it
/// printed, and whether any cycle has finished successfully (the guard that
/// keeps the viewer from being reopened on every tick).
pub struct WatchState {
    pub last_error: Option<String>,
    pub has_completed_first_cycle: bool,
}

impl WatchState {
    /// Fresh state: no error printed yet, no successful cycle yet.
    pub fn new() -> (s: WatchState)
        ensures
            s.last_error is None,
            !s.has_completed_first_cycle,
    {
        WatchState { last_error: None, has_completed_first_cycle: false }
    }
}

/// What the scheduler decides after a failed cycle.
#[derive(Clone, Copy, Debug, PartialEq, Eq, Structural)]
pub enum FailureAction {
    /// No watch interval was asked for: the error ends the pass.
    Fatal,
    /// Watching, and this message is news: print it once, sleep, retry.
    PrintAndRetry,
    /// Watching, and the very same message was printed last time: sleep and
    /// retry without a word.
    RetrySilently,
}

/// The decision for a failed cycle, over the remembered last message.
pub open spec fn spec_failure_action(
    last: Option<Seq<char>>,
    msg: Seq<char>,
    watching: bool,
) -> FailureAction {
    if !watching {
        FailureAction::Fatal
    } else if last matches Some(l) && l == msg {
        FailureAction::RetrySilently
    } else {
        FailureAction::PrintAndRetry
    }
}

/// What the scheduler remembers after a failed cycle: in watch mode the
/// message just seen, otherwise whatever it already held.
pub open spec fn spec_failure_next_last(
    last: Option<Seq<char>>,
    msg: Seq<char>,
    watching: bool,
) -> Option<Seq<char>> {
    if watching {
        Some(msg)
    } else {
        last
    }
}

/// Account one failed cycle: decide whether the error is fatal, printed, or
/// suppressed as a repeat, and remember its message for the next comparison.
pub fn on_cycle_failure(state: &mut WatchState, message: String, watching: bool) -> (a:
    FailureAction)
    ensures
        a == spec_failure_action(old(state).last_error.deep_view(), message@, watching),
        final(state).last_error.deep_view() == spec_failure_next_last(
            old(state).last_error.deep_view(),
            message@,
            watching,
        ),
        final(state).has_completed_first_cycle == old(state).has_completed_first_cycle,
{
    if !watching {
        return FailureAction::Fatal;
    }
    let same = match &state.last_error {
        Some(le) => le.eq(&message),
        None => false,
    };
    state.last_error = Some(message);
    if same {
        FailureAction::RetrySilently
    } else {
        FailureAction::PrintAndRetry
    }
}

/// What the scheduler decides after a successful cycle.
pub struct SuccessAction {
    /// Open the output in the viewer now: it was asked for, and no earlier
    /// cycle had succeeded.
    pub open_viewer: bool,
    /// Sleep and run another cycle, or stop after this one.
    pub keep_watching: bool,
}

/// Whether a successful cycle opens the viewer: it was asked for, and no
/// earlier cycle had succeeded.
pub open spec fn spec_opens_viewer(has_completed_first_cycle: bool, open_requested: bool) -> bool {
    open_requested && !has_completed_first_cycle
}

/// Account one successful cycle: the viewer opens at most once, on the first
/// success; watching goes on exactly when an interval was asked for.
pub fn on_cycle_success(state: &mut WatchState, open_requested: bool, watching: bool) -> (a:
    SuccessAction)
    ensures
        a.open_viewer == spec_opens_viewer(old(state).has_completed_first_cycle, open_requested),
        a.keep_watching == watching,
        final(state).has_completed_first_cycle,
        final(state).last_error == old(state).last_error,
{
    let open_viewer = open_requested && !state.has_completed_first_cycle;
    state.has_completed_first_cycle = true;
    SuccessAction { open_viewer, keep_watching: watching }
}

/// Watch-mode deduplication: when two consecutive cycles fail with the very
/// same message, the first prints it and the second is silent — one printed
/// line for the pair, as long as the message was not already the last one
/// printed before them.
pub proof fn lemma_error_dedup(last0: Option<Seq<char>>, msg: Seq<char>)
    ensures
        !(last0 matches Some(l) && l == msg) ==> spec_failure_action(last0, msg, true)
            == FailureAction::PrintAndRetry,
        spec_failure_action(spec_failure_next_last(last0, msg, true), msg, true)
            == FailureAction::RetrySilently,
{
}

/// The viewer-opening guard: after any successful cycle the state records
/// the success, and from then on no cycle opens the viewer again.
pub proof fn lemma_viewer_opens_once(state: WatchState, open_requested: bool)
    requires
        state.has_completed_first_cycle,
    ensures
        !spec_opens_viewer(state.has_completed_first_cycle, open_requested),
{
}

} // verus!
