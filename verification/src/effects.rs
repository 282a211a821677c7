//! The engine's interface values: identities of spawned UI elements, the
//! interaction edges the host reports, and the side effects the engine
//! hands back for the host to perform.

use vstd::prelude::*;

use crate::screen::ScreenId;

verus! {

/// Identity of one spawned UI element: the screen that owns it and the
/// index of the registry entry it renders. Elements of the outgoing screen
/// are destroyed before the incoming screen's are created, so at any point
/// between ticks all live elements carry the same owning screen.
#[derive(Clone, Copy, Debug, PartialEq, Eq, Structural)]
pub struct ElementId {
    pub screen: ScreenId,
    pub entry: usize,
}

/// An edge in an element's interaction state since the previous frame.
/// Steady states are never reported, so an action cannot re-fire while the
/// pointer rests on a button.
#[derive(Clone, Copy, Debug, PartialEq, Eq, Structural)]
pub enum InteractionKind {
    HoverEnter,
    Press,
    HoverExit,
}

/// One reported edge on one element.
#[derive(Clone, Copy, Debug, PartialEq, Eq, Structural)]
pub struct InteractionEvent {
    pub element: ElementId,
    pub kind: InteractionKind,
}

/// The visual state the host should draw an element in.
#[derive(Clone, Copy, Debug, PartialEq, Eq, Structural)]
pub enum VisualStyle {
    Normal,
    Hovered,
    Pressed,
}

/// One outward side effect for the host to perform, in order. The engine
/// never touches UI, audio or the process itself; it only returns these.
#[derive(Clone, Copy, Debug, PartialEq, Eq, Structural)]
pub enum Effect {
    /// Destroy the element: teardown of the outgoing screen.
    Despawn { element: ElementId },
    /// The named screen's exit work has completed.
    Exited { screen: ScreenId },
    /// The named screen is now the active one.
    Entered { screen: ScreenId },
    /// Create the element: setup of the incoming screen.
    Spawn { element: ElementId },
    /// Draw the element in the given style.
    SetStyle { element: ElementId, style: VisualStyle },
    /// Play the click feedback cue.
    PlayClick,
    /// Start the menu music; emitted at most once per engine.
    PlayMusic,
    /// Application-exit signal: quitting is the host's decision to carry out.
    RequestExit,
    /// Diagnostic: back-navigation was asked for with nothing recorded, and
    /// the fallback screen was requested instead.
    LogEmptyHistory,
    /// Diagnostic: a press resolved to nothing that changes state.
    LogIgnored,
}

} // verus!
