//! A menu-navigation engine for a frame-stepped application loop.
//!
//! The engine manages a small closed set of mutually-exclusive UI screens.
//! It owns the identity of the active screen, a bounded history of screens
//! that were left (for back-navigation), and a registry that binds each
//! screen's button labels to stable action tags. Each frame the host calls
//! [`controller::Controller::tick`], which first applies any transition
//! requested during the previous frame (tearing down the outgoing screen's
//! UI before the incoming screen's UI is built) and then dispatches the
//! interaction events the host reported since the last tick. All outward
//! side effects (spawning and despawning UI elements, styling, audio cues,
//! quitting) are returned as [`effects::Effect`] values for the host to
//! perform; the engine itself never does I/O.

pub mod controller;
pub mod effects;
pub mod history;
pub mod model;
pub mod registry;
pub mod screen;
