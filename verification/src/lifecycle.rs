//! The phases of the shell, and what it does on each event of its host.
//!
//! The host is driven from outside: it reports an [`Event`], the
//! [`Bootstrapper`] moves to its next state and answers with the [`Action`]
//! to perform.

use vstd::prelude::*;
use crate::setup::{clears_browsing_data, setup_action, BuildMode, SetupAction};

verus! {

/// Where the shell stands between its start and its end.
#[derive(Clone, Copy, Debug, PartialEq, Eq, Structural)]
pub enum Phase {
    /// Nothing has been done yet.
    Uninitialized,
    /// The application is being put together and its windows created.
    Building,
    /// The set-up is over and the window is left to the host's run loop.
    Running,
    /// The shell has ended, by a fatal error or by leaving the process.
    Terminated,
}

/// How far the one-shot set-up has come.
#[derive(Clone, Copy, Debug, PartialEq, Eq, Structural)]
pub enum SetupProgress {
    /// The host has not invoked the set-up yet.
    Pending,
    /// The set-up has asked the main window to clear its browsing data and
    /// waits for the outcome.
    Clearing,
    /// The set-up has reported success to the host.
    Done,
}

/// What the host reports to the shell.
#[derive(Clone, Copy, Debug, PartialEq, Eq, Structural)]
pub enum Event {
    /// The shell was asked to run.
    Launch,
    /// The host has created the windows and invokes the set-up, which found
    /// the main window or did not.
    SetupInvoked { main_window_present: bool },
    /// The request to clear browsing data came back.
    ClearFinished { succeeded: bool },
    /// The host could not start the run loop, before or after the set-up.
    StartFailed,
    /// The process is being left.
    Exited,
}

/// What the shell does in answer to an event.
#[derive(Clone, Copy, Debug, PartialEq, Eq, Structural)]
pub enum Action {
    /// Put the application together, register the set-up and start the run
    /// loop.
    Build,
    /// Ask the main window to clear all stored browsing data.
    ClearBrowsingData,
    /// Report success from the set-up to the host.
    CompleteSetup,
    /// End the process with the fatal message.
    Abort,
    /// Do nothing.
    Nothing,
}

/// The state of the shell as a plain value.
#[derive(Clone, Copy, Debug, PartialEq, Eq, Structural)]
pub struct ShellState {
    pub mode: BuildMode,
    pub phase: Phase,
    pub setup: SetupProgress,
}

impl Phase {
    /// The place of a phase in the order in which the shell passes through
    /// them.
    pub open spec fn rank(self) -> nat {
        match self {
            Phase::Uninitialized => 0,
            Phase::Building => 1,
            Phase::Running => 2,
            Phase::Terminated => 3,
        }
    }
}

impl ShellState {
    /// The state before anything was done.
    pub open spec fn initial(mode: BuildMode) -> ShellState {
        ShellState { mode, phase: Phase::Uninitialized, setup: SetupProgress::Pending }
    }

    /// The set-up has not begun before the application is built, it is over
    /// once the window is left to the run loop, and only a development build ever
    /// waits for browsing data to be cleared.
    pub open spec fn well_formed(self) -> bool {
        &&& self.phase == Phase::Uninitialized ==> self.setup == SetupProgress::Pending
        &&& self.phase == Phase::Building ==> self.setup != SetupProgress::Done
        &&& self.phase == Phase::Running ==> self.setup == SetupProgress::Done
        &&& self.setup == SetupProgress::Clearing ==> self.mode == BuildMode::Debug
    }

    /// What the shell does on `event` in this state.
    pub open spec fn action(self, event: Event) -> Action {
        match (self.phase, event) {
            (Phase::Uninitialized, Event::Launch) => Action::Build,
            (Phase::Building, Event::SetupInvoked { main_window_present }) => {
                if self.setup != SetupProgress::Pending {
                    Action::Nothing
                } else if clears_browsing_data(self.mode, main_window_present) {
                    Action::ClearBrowsingData
                } else {
                    Action::CompleteSetup
                }
            },
            (Phase::Building, Event::ClearFinished { succeeded }) => {
                if self.setup == SetupProgress::Clearing {
                    Action::CompleteSetup
                } else {
                    Action::Nothing
                }
            },
            (Phase::Building, Event::StartFailed) => Action::Abort,
            (Phase::Running, Event::StartFailed) => Action::Abort,
            _ => Action::Nothing,
        }
    }

    /// The state in which `event` leaves the shell.
    pub open spec fn next(self, event: Event) -> ShellState {
        match (self.phase, event) {
            (Phase::Terminated, _) => self,
            (_, Event::Exited) => ShellState { phase: Phase::Terminated, ..self },
            (Phase::Uninitialized, Event::Launch) => ShellState { phase: Phase::Building, ..self },
            (Phase::Building, Event::SetupInvoked { main_window_present }) => {
                if self.setup != SetupProgress::Pending {
                    self
                } else if clears_browsing_data(self.mode, main_window_present) {
                    ShellState { setup: SetupProgress::Clearing, ..self }
                } else {
                    ShellState { phase: Phase::Running, setup: SetupProgress::Done, ..self }
                }
            },
            (Phase::Building, Event::ClearFinished { succeeded }) => {
                if self.setup == SetupProgress::Clearing {
                    ShellState { phase: Phase::Running, setup: SetupProgress::Done, ..self }
                } else {
                    self
                }
            },
            (Phase::Building, Event::StartFailed) => ShellState {
                phase: Phase::Terminated,
                ..self
            },
            (Phase::Running, Event::StartFailed) => ShellState {
                phase: Phase::Terminated,
                ..self
            },
            _ => self,
        }
    }

    /// The state after a run of events, taken in order.
    pub open spec fn after(self, events: Seq<Event>) -> ShellState
        decreases events.len(),
    {
        if events.len() == 0 {
            self
        } else {
            self.next(events[0]).after(events.subrange(1, events.len() as int))
        }
    }

    /// How often the shell answers with `action` over a run of events.
    pub open spec fn count(self, events: Seq<Event>, action: Action) -> nat
        decreases events.len(),
    {
        if events.len() == 0 {
            0
        } else {
            let here: nat = if self.action(events[0]) == action {
                1
            } else {
                0
            };
            here + self.next(events[0]).count(events.subrange(1, events.len() as int), action)
        }
    }
}

/// The shell's state, which only [`Bootstrapper::step`] changes.
#[derive(Clone, Copy, Debug)]
pub struct Bootstrapper {
    state: ShellState,
}

impl View for Bootstrapper {
    type V = ShellState;

    closed spec fn view(&self) -> ShellState {
        self.state
    }
}

impl Bootstrapper {
    #[verifier::type_invariant]
    spec fn inv(self) -> bool {
        self.state.well_formed()
    }

    /// A shell of the given build mode, with nothing done yet.
    pub fn new(mode: BuildMode) -> (shell: Bootstrapper)
        ensures
            shell@ == ShellState::initial(mode),
            shell@.well_formed(),
    {
        Bootstrapper {
            state: ShellState { mode, phase: Phase::Uninitialized, setup: SetupProgress::Pending },
        }
    }

    /// The build mode that the shell was made with.
    pub fn mode(&self) -> (mode: BuildMode)
        ensures
            mode == self@.mode,
    {
        self.state.mode
    }

    /// The phase that the shell is in.
    pub fn phase(&self) -> (phase: Phase)
        ensures
            phase == self@.phase,
    {
        self.state.phase
    }

    /// How far the set-up has come.
    pub fn setup_progress(&self) -> (setup: SetupProgress)
        ensures
            setup == self@.setup,
            self@.well_formed(),
    {
        proof {
            use_type_invariant(self);
        }
        self.state.setup
    }

    /// Takes `event` from the host: moves to the next state and answers with
    /// what to do. An event that does not belong to the phase changes
    /// nothing and asks for nothing. A failure to start the run loop is
    /// fatal from the launch to the end, whatever the set-up has done.
    pub fn step(&mut self, event: Event) -> (action: Action)
        ensures
            action == old(self)@.action(event),
            final(self)@ == old(self)@.next(event),
            action == Action::Abort <==> event == Event::StartFailed && (old(self)@.phase
                == Phase::Building || old(self)@.phase == Phase::Running),
            action == Action::Abort ==> final(self)@.phase == Phase::Terminated,
            final(self)@.well_formed(),
            final(self)@.mode == old(self)@.mode,
            old(self)@.phase.rank() <= final(self)@.phase.rank(),
    {
        proof {
            use_type_invariant(&*self);
        }
        let mode = self.state.mode;
        let setup = self.state.setup;
        match self.state.phase {
            Phase::Uninitialized => match event {
                Event::Launch => {
                    self.state = ShellState { mode, phase: Phase::Building, setup };
                    Action::Build
                },
                Event::Exited => {
                    self.state = ShellState { mode, phase: Phase::Terminated, setup };
                    Action::Nothing
                },
                _ => Action::Nothing,
            },
            Phase::Building => match event {
                Event::SetupInvoked { main_window_present } => match setup {
                    SetupProgress::Pending => match setup_action(mode, main_window_present) {
                        SetupAction::ClearBrowsingData => {
                            self.state = ShellState {
                                mode,
                                phase: Phase::Building,
                                setup: SetupProgress::Clearing,
                            };
                            Action::ClearBrowsingData
                        },
                        SetupAction::Nothing => {
                            self.state = ShellState {
                                mode,
                                phase: Phase::Running,
                                setup: SetupProgress::Done,
                            };
                            Action::CompleteSetup
                        },
                    },
                    _ => Action::Nothing,
                },
                Event::ClearFinished { succeeded: _ } => match setup {
                    SetupProgress::Clearing => {
                        self.state = ShellState {
                            mode,
                            phase: Phase::Running,
                            setup: SetupProgress::Done,
                        };
                        Action::CompleteSetup
                    },
                    _ => Action::Nothing,
                },
                Event::StartFailed => {
                    self.state = ShellState { mode, phase: Phase::Terminated, setup };
                    Action::Abort
                },
                Event::Exited => {
                    self.state = ShellState { mode, phase: Phase::Terminated, setup };
                    Action::Nothing
                },
                Event::Launch => Action::Nothing,
            },
            Phase::Running => match event {
                Event::StartFailed => {
                    self.state = ShellState { mode, phase: Phase::Terminated, setup };
                    Action::Abort
                },
                Event::Exited => {
                    self.state = ShellState { mode, phase: Phase::Terminated, setup };
                    Action::Nothing
                },
                _ => Action::Nothing,
            },
            Phase::Terminated => Action::Nothing,
        }
    }
}

} // verus!
