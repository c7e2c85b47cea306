//! What holds of the shell over every event and every run of events.

use vstd::prelude::*;
use crate::lifecycle::{Action, Event, Phase, SetupProgress, ShellState};
use crate::setup::BuildMode;

verus! {

/// The part of a run of events that follows its first event.
pub open spec fn rest(events: Seq<Event>) -> Seq<Event> {
    events.subrange(1, events.len() as int)
}

/// An event leaves a well-formed state well-formed, keeps the build mode and
/// never leads back to an earlier phase.
pub proof fn lemma_next_keeps_order(s: ShellState, event: Event)
    requires
        s.well_formed(),
    ensures
        s.next(event).well_formed(),
        s.next(event).mode == s.mode,
        s.phase.rank() <= s.next(event).phase.rank(),
{
}

/// A run of events leaves a well-formed state well-formed, keeps the build
/// mode and never leads back to an earlier phase. So whenever the window is
/// left to the run loop, the set-up is over.
pub proof fn lemma_after_keeps_order(s: ShellState, events: Seq<Event>)
    requires
        s.well_formed(),
    ensures
        s.after(events).well_formed(),
        s.after(events).mode == s.mode,
        s.phase.rank() <= s.after(events).phase.rank(),
        s.after(events).phase == Phase::Running ==> s.after(events).setup == SetupProgress::Done,
    decreases events.len(),
{
    if events.len() > 0 {
        lemma_next_keeps_order(s, events[0]);
        lemma_after_keeps_order(s.next(events[0]), rest(events));
    }
}

/// Once the shell has ended, no event changes its state or asks for
/// anything.
pub proof fn lemma_terminated_is_final(s: ShellState, events: Seq<Event>, action: Action)
    requires
        s.phase == Phase::Terminated,
        action != Action::Nothing,
    ensures
        s.after(events) == s,
        s.count(events, action) == 0,
    decreases events.len(),
{
    if events.len() > 0 {
        lemma_terminated_is_final(s.next(events[0]), rest(events), action);
    }
}

/// Once the window is left to the run loop, that phase ends only by leaving
/// the process or by a failure to start the loop, and both end the shell.
/// Every other event changes nothing and asks for nothing.
pub proof fn lemma_running_ends_only_by_exit_or_start_failure(s: ShellState, event: Event)
    requires
        s.phase == Phase::Running,
    ensures
        event == Event::Exited ==> s.action(event) == Action::Nothing && s.next(event).phase
            == Phase::Terminated,
        event == Event::StartFailed ==> s.action(event) == Action::Abort && s.next(event).phase
            == Phase::Terminated,
        event != Event::Exited && event != Event::StartFailed ==> s.action(event)
            == Action::Nothing && s.next(event) == s,
{
}

/// When the host cannot start the run loop, the shell aborts and ends,
/// whether the set-up has not begun, waits for the clear request or is over.
pub proof fn lemma_start_failure_aborts(s: ShellState)
    requires
        s.phase == Phase::Building || s.phase == Phase::Running,
    ensures
        s.action(Event::StartFailed) == Action::Abort,
        s.next(Event::StartFailed).phase == Phase::Terminated,
        s.next(Event::StartFailed).setup == s.setup,
{
}

/// The shell aborts if and only if the host could not start the run loop
/// after the launch and before the end; it then ends.
pub proof fn lemma_abort_iff_start_failure(s: ShellState, event: Event)
    ensures
        s.action(event) == Action::Abort <==> event == Event::StartFailed && (s.phase
            == Phase::Building || s.phase == Phase::Running),
        s.action(event) == Action::Abort ==> s.next(event).phase == Phase::Terminated,
{
}

/// After the launch, a failure to start the run loop aborts the shell
/// whatever the host reported in between, unless the process was left first.
pub proof fn lemma_start_failure_aborts_after_any_run(mode: BuildMode, between: Seq<Event>)
    requires
        ShellState::initial(mode).next(Event::Launch).after(between).phase != Phase::Terminated,
    ensures
        ShellState::initial(mode).next(Event::Launch).after(between).action(Event::StartFailed)
            == Action::Abort,
        ShellState::initial(mode).next(Event::Launch).after(between).next(
            Event::StartFailed,
        ).phase == Phase::Terminated,
{
    let launched = ShellState::initial(mode).next(Event::Launch);
    lemma_after_keeps_order(launched, between);
}

/// Over any run of events the shell aborts at most once.
pub proof fn lemma_abort_at_most_once(s: ShellState, events: Seq<Event>)
    ensures
        s.count(events, Action::Abort) <= 1,
    decreases events.len(),
{
    if events.len() > 0 {
        if s.action(events[0]) == Action::Abort {
            lemma_terminated_is_final(s.next(events[0]), rest(events), Action::Abort);
        } else {
            lemma_abort_at_most_once(s.next(events[0]), rest(events));
        }
    }
}

/// Whether the request to clear browsing data succeeded or failed, the
/// set-up reports success and the run loop goes on to serve the window.
pub proof fn lemma_clear_outcome_is_ignored(s: ShellState, succeeded: bool)
    requires
        s.phase == Phase::Building,
        s.setup == SetupProgress::Clearing,
    ensures
        s.action(Event::ClearFinished { succeeded }) == Action::CompleteSetup,
        s.next(Event::ClearFinished { succeeded }) == s.next(
            Event::ClearFinished { succeeded: !succeeded },
        ),
        s.next(Event::ClearFinished { succeeded }).phase == Phase::Running,
{
}

/// Once the set-up has begun, no run of events asks to clear browsing data.
pub proof fn lemma_no_clear_after_setup_began(s: ShellState, events: Seq<Event>)
    requires
        s.setup != SetupProgress::Pending || s.phase == Phase::Running || s.phase
            == Phase::Terminated,
    ensures
        s.count(events, Action::ClearBrowsingData) == 0,
    decreases events.len(),
{
    if events.len() > 0 {
        lemma_no_clear_after_setup_began(s.next(events[0]), rest(events));
    }
}

/// Over any run of events the shell asks at most once to clear browsing
/// data.
pub proof fn lemma_clear_at_most_once(s: ShellState, events: Seq<Event>)
    ensures
        s.count(events, Action::ClearBrowsingData) <= 1,
    decreases events.len(),
{
    if events.len() > 0 {
        if s.action(events[0]) == Action::ClearBrowsingData {
            lemma_no_clear_after_setup_began(s.next(events[0]), rest(events));
        } else {
            lemma_clear_at_most_once(s.next(events[0]), rest(events));
        }
    }
}

/// A production build never asks to clear browsing data, whatever the host
/// reports and whether or not the main window exists.
pub proof fn lemma_release_never_clears_over_run(s: ShellState, events: Seq<Event>)
    requires
        s.mode == BuildMode::Release,
    ensures
        s.count(events, Action::ClearBrowsingData) == 0,
    decreases events.len(),
{
    if events.len() > 0 {
        lemma_release_never_clears_over_run(s.next(events[0]), rest(events));
    }
}

/// In a development build whose set-up finds the main window, the shell asks
/// exactly once to clear browsing data, whatever the host reports afterwards.
pub proof fn lemma_debug_with_window_clears_once(s: ShellState, later: Seq<Event>)
    requires
        s.mode == BuildMode::Debug,
        s.phase == Phase::Building,
        s.setup == SetupProgress::Pending,
    ensures
        s.action(Event::SetupInvoked { main_window_present: true }) == Action::ClearBrowsingData,
        s.count(
            seq![Event::SetupInvoked { main_window_present: true }] + later,
            Action::ClearBrowsingData,
        ) == 1,
{
    let first = Event::SetupInvoked { main_window_present: true };
    let events = seq![first] + later;
    assert(events[0] == first);
    assert(rest(events) =~= later);
    lemma_no_clear_after_setup_began(s.next(first), later);
}

/// When the set-up finds no main window, it reports success at once, the run
/// loop goes on to serve the window, and the shell never asks to clear
/// browsing data.
pub proof fn lemma_without_window_setup_succeeds(s: ShellState, later: Seq<Event>)
    requires
        s.phase == Phase::Building,
        s.setup == SetupProgress::Pending,
    ensures
        s.action(Event::SetupInvoked { main_window_present: false }) == Action::CompleteSetup,
        s.next(Event::SetupInvoked { main_window_present: false }).phase == Phase::Running,
        s.count(
            seq![Event::SetupInvoked { main_window_present: false }] + later,
            Action::ClearBrowsingData,
        ) == 0,
{
    let first = Event::SetupInvoked { main_window_present: false };
    let events = seq![first] + later;
    assert(events[0] == first);
    assert(rest(events) =~= later);
    lemma_no_clear_after_setup_began(s.next(first), later);
}

/// Once the set-up is over, no run of events completes it again.
pub proof fn lemma_no_setup_after_done(s: ShellState, events: Seq<Event>)
    requires
        s.setup == SetupProgress::Done || s.phase == Phase::Running || s.phase
            == Phase::Terminated,
    ensures
        s.count(events, Action::CompleteSetup) == 0,
    decreases events.len(),
{
    if events.len() > 0 {
        lemma_no_setup_after_done(s.next(events[0]), rest(events));
    }
}

/// Over any run of events the set-up completes at most once.
pub proof fn lemma_setup_at_most_once(s: ShellState, events: Seq<Event>)
    ensures
        s.count(events, Action::CompleteSetup) <= 1,
    decreases events.len(),
{
    if events.len() > 0 {
        if s.action(events[0]) == Action::CompleteSetup {
            lemma_no_setup_after_done(s.next(events[0]), rest(events));
        } else {
            lemma_setup_at_most_once(s.next(events[0]), rest(events));
        }
    }
}

} // verus!
