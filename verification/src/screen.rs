//! The closed sets of screens and action tags, and the routing of tags.

use vstd::prelude::*;

verus! {

/// Identity of one mutually-exclusive top-level UI mode.
#[derive(Clone, Copy, Debug, PartialEq, Eq, Structural)]
pub enum ScreenId {
    MainMenu,
    PauseMenu,
    SettingsMenu,
    InGame,
}

/// Stable identifier for what a selectable element does, independent of the
/// label drawn on it. Dispatch goes by tag, never by display text.
#[derive(Clone, Copy, Debug, PartialEq, Eq, Structural)]
pub enum ActionTag {
    /// Return to (or start) the playable scene.
    ResumeGame,
    /// Start a fresh playable scene.
    NewGame,
    /// Open the settings screen.
    OpenSettings,
    /// Open the main menu screen.
    OpenMainMenu,
    /// Ask the host application to quit.
    ExitGame,
    /// Return to whichever screen was active before the current one.
    GoBack,
    /// Placeholder entries with no navigation behaviour: log-only.
    ShowCredits,
    ShowAccessibility,
    ShowAudio,
    ShowControls,
    ShowGraphics,
    ShowLanguage,
    /// The fallback tag for a label that resolves to nothing.
    Noop,
}

/// How the dispatcher routes a pressed action.
#[derive(Clone, Copy, Debug, PartialEq, Eq, Structural)]
pub enum ActionRoute {
    /// Request a transition to the named screen.
    Transition(ScreenId),
    /// Request a transition to the most recently left screen.
    Back,
    /// Emit an application-exit signal to the host.
    Exit,
    /// No state change; the event is only logged.
    LogOnly,
}

/// The fixed routing of each action tag.
pub open spec fn route_of_tag(tag: ActionTag) -> ActionRoute {
    match tag {
        ActionTag::ResumeGame => ActionRoute::Transition(ScreenId::InGame),
        ActionTag::NewGame => ActionRoute::Transition(ScreenId::InGame),
        ActionTag::OpenSettings => ActionRoute::Transition(ScreenId::SettingsMenu),
        ActionTag::OpenMainMenu => ActionRoute::Transition(ScreenId::MainMenu),
        ActionTag::ExitGame => ActionRoute::Exit,
        ActionTag::GoBack => ActionRoute::Back,
        ActionTag::ShowCredits => ActionRoute::LogOnly,
        ActionTag::ShowAccessibility => ActionRoute::LogOnly,
        ActionTag::ShowAudio => ActionRoute::LogOnly,
        ActionTag::ShowControls => ActionRoute::LogOnly,
        ActionTag::ShowGraphics => ActionRoute::LogOnly,
        ActionTag::ShowLanguage => ActionRoute::LogOnly,
        ActionTag::Noop => ActionRoute::LogOnly,
    }
}

/// Routes a tag. The match is exhaustive on purpose: adding a tag without
/// deciding its route is a compile-time error, not a silent runtime gap.
pub fn route_action(tag: ActionTag) -> (r: ActionRoute)
    ensures
        r == route_of_tag(tag),
{
    match tag {
        ActionTag::ResumeGame => ActionRoute::Transition(ScreenId::InGame),
        ActionTag::NewGame => ActionRoute::Transition(ScreenId::InGame),
        ActionTag::OpenSettings => ActionRoute::Transition(ScreenId::SettingsMenu),
        ActionTag::OpenMainMenu => ActionRoute::Transition(ScreenId::MainMenu),
        ActionTag::ExitGame => ActionRoute::Exit,
        ActionTag::GoBack => ActionRoute::Back,
        ActionTag::ShowCredits => ActionRoute::LogOnly,
        ActionTag::ShowAccessibility => ActionRoute::LogOnly,
        ActionTag::ShowAudio => ActionRoute::LogOnly,
        ActionTag::ShowControls => ActionRoute::LogOnly,
        ActionTag::ShowGraphics => ActionRoute::LogOnly,
        ActionTag::ShowLanguage => ActionRoute::LogOnly,
        ActionTag::Noop => ActionRoute::LogOnly,
    }
}

} // verus!
