//! What the one-shot set-up does once the host has created the windows.

use vstd::prelude::*;

verus! {

/// How the shell was built.
#[derive(Clone, Copy, Debug, PartialEq, Eq, Structural)]
pub enum BuildMode {
    /// A development build.
    Debug,
    /// A production build.
    Release,
}

/// What the set-up asks of the main window.
#[derive(Clone, Copy, Debug, PartialEq, Eq, Structural)]
pub enum SetupAction {
    /// Ask the window to clear all stored browsing data.
    ClearBrowsingData,
    /// Leave the window as it is.
    Nothing,
}

/// The label of the window whose browsing data a development build clears.
pub open spec fn main_window_label() -> Seq<char> {
    "main"@
}

/// Whether the set-up clears browsing data: only a development build does,
/// and only when the main window exists.
pub open spec fn clears_browsing_data(mode: BuildMode, main_window_present: bool) -> bool {
    mode == BuildMode::Debug && main_window_present
}

/// The action of the set-up as a value.
pub open spec fn setup_action_of(mode: BuildMode, main_window_present: bool) -> SetupAction {
    if clears_browsing_data(mode, main_window_present) {
        SetupAction::ClearBrowsingData
    } else {
        SetupAction::Nothing
    }
}

impl BuildMode {
    /// The build mode for the state of the compile-time debug switch.
    pub fn from_debug_assertions(enabled: bool) -> (mode: BuildMode)
        ensures
            mode == (if enabled {
                BuildMode::Debug
            } else {
                BuildMode::Release
            }),
    {
        if enabled {
            BuildMode::Debug
        } else {
            BuildMode::Release
        }
    }

    /// Whether this is a development build.
    pub fn is_debug(&self) -> (debug: bool)
        ensures
            debug == (*self == BuildMode::Debug),
    {
        match self {
            BuildMode::Debug => true,
            BuildMode::Release => false,
        }
    }
}

/// The label under which the set-up looks the main window up.
pub fn main_window() -> (label: &'static str)
    ensures
        label@ == main_window_label(),
{
    "main"
}

/// Decides what the set-up does, given the build mode and whether a window
/// with the main label exists.
pub fn setup_action(mode: BuildMode, main_window_present: bool) -> (action: SetupAction)
    ensures
        action == setup_action_of(mode, main_window_present),
        action == SetupAction::ClearBrowsingData <==> mode == BuildMode::Debug
            && main_window_present,
{
    match mode {
        BuildMode::Debug => {
            if main_window_present {
                SetupAction::ClearBrowsingData
            } else {
                SetupAction::Nothing
            }
        },
        BuildMode::Release => SetupAction::Nothing,
    }
}

/// A production build never clears browsing data, whether or not the main
/// window exists.
pub proof fn lemma_release_never_clears(main_window_present: bool)
    ensures
        setup_action_of(BuildMode::Release, main_window_present) == SetupAction::Nothing,
{
}

/// A development build clears browsing data exactly when the main window
/// exists.
pub proof fn lemma_debug_clears_iff_window(main_window_present: bool)
    ensures
        setup_action_of(BuildMode::Debug, main_window_present) == SetupAction::ClearBrowsingData
            <==> main_window_present,
{
}

} // verus!
