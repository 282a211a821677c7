use menu_nav::controller::Controller;
use menu_nav::effects::{Effect, ElementId, InteractionKind, VisualStyle};
use menu_nav::registry::ScreenRegistry;
use menu_nav::screen::{ActionTag, ScreenId};

fn fresh() -> Controller {
    let (ctrl, _effects) = Controller::new(ScreenRegistry::new());
    ctrl
}

fn element(screen: ScreenId, entry: usize) -> ElementId {
    ElementId { screen, entry }
}

#[test]
fn startup_builds_the_main_menu() {
    let (ctrl, effects) = Controller::new(ScreenRegistry::new());
    assert_eq!(ctrl.current_screen(), ScreenId::MainMenu);
    assert_eq!(ctrl.pending_transition(), None);
    assert_eq!(ctrl.history_len(), 0);
    // Enter marker, one spawn per main-menu entry, then the music.
    assert_eq!(effects.len(), 7);
    assert_eq!(effects[0], Effect::Entered { screen: ScreenId::MainMenu });
    for i in 0..5 {
        assert_eq!(
            effects[1 + i],
            Effect::Spawn { element: element(ScreenId::MainMenu, i) }
        );
        assert!(ctrl.is_live(element(ScreenId::MainMenu, i)));
    }
    assert_eq!(effects[6], Effect::PlayMusic);
}

#[test]
fn click_play_game_enters_the_game() {
    // Start at the main menu; press the button resolving to ResumeGame;
    // after the next tick the game is the active screen and the main
    // menu's elements are gone.
    let mut ctrl = fresh();
    ctrl.notify_interaction(element(ScreenId::MainMenu, 0), InteractionKind::Press);
    let press_effects = ctrl.tick();
    // The press is dispatched this tick; the transition applies next tick.
    assert_eq!(ctrl.current_screen(), ScreenId::MainMenu);
    assert_eq!(ctrl.pending_transition(), Some(ScreenId::InGame));
    assert!(press_effects.contains(&Effect::PlayClick));
    let apply_effects = ctrl.tick();
    assert_eq!(ctrl.current_screen(), ScreenId::InGame);
    for i in 0..5 {
        assert!(apply_effects.contains(&Effect::Despawn {
            element: element(ScreenId::MainMenu, i)
        }));
        assert!(!ctrl.is_live(element(ScreenId::MainMenu, i)));
    }
    assert!(apply_effects.contains(&Effect::Entered { screen: ScreenId::InGame }));
}

#[test]
fn go_back_from_settings_returns_to_pause_menu() {
    // Reach the settings screen via the pause menu, press the entry tagged
    // GoBack: the pause menu becomes active again.
    let mut ctrl = fresh();
    ctrl.request_transition(ScreenId::PauseMenu);
    ctrl.tick();
    ctrl.request_transition(ScreenId::SettingsMenu);
    ctrl.tick();
    assert_eq!(ctrl.current_screen(), ScreenId::SettingsMenu);
    assert_eq!(ctrl.history_len(), 2); // main menu, then pause menu
    ctrl.notify_interaction(element(ScreenId::SettingsMenu, 5), InteractionKind::Press);
    ctrl.tick();
    assert_eq!(ctrl.pending_transition(), Some(ScreenId::PauseMenu));
    ctrl.tick();
    assert_eq!(ctrl.current_screen(), ScreenId::PauseMenu);
}

#[test]
fn go_back_with_empty_history_falls_back_to_main_menu() {
    // Back-navigation with nothing recorded: no crash, an explicit
    // empty-history diagnostic, and the main menu as the fallback target.
    let mut ctrl = fresh();
    assert_eq!(ctrl.history_len(), 0);
    let effects = ctrl.handle_action(ActionTag::GoBack);
    assert!(effects.contains(&Effect::LogEmptyHistory));
    assert_eq!(ctrl.pending_transition(), Some(ScreenId::MainMenu));
    ctrl.tick();
    assert_eq!(ctrl.current_screen(), ScreenId::MainMenu);
}

#[test]
fn repeated_request_behaves_like_one() {
    let mut once = fresh();
    let mut twice = fresh();
    once.request_transition(ScreenId::SettingsMenu);
    twice.request_transition(ScreenId::SettingsMenu);
    twice.request_transition(ScreenId::SettingsMenu);
    assert_eq!(once.pending_transition(), twice.pending_transition());
    once.tick();
    twice.tick();
    assert_eq!(once.current_screen(), twice.current_screen());
    assert_eq!(once.history_len(), twice.history_len());
}

#[test]
fn later_request_before_tick_wins() {
    let mut ctrl = fresh();
    ctrl.request_transition(ScreenId::SettingsMenu);
    ctrl.request_transition(ScreenId::InGame);
    ctrl.tick();
    assert_eq!(ctrl.current_screen(), ScreenId::InGame);
}

#[test]
fn teardown_precedes_setup_in_every_transition() {
    let mut ctrl = fresh();
    ctrl.request_transition(ScreenId::PauseMenu);
    let effects = ctrl.tick();
    let mut last_despawn: Option<usize> = None;
    let mut exited_at: Option<usize> = None;
    let mut entered_at: Option<usize> = None;
    let mut first_spawn: Option<usize> = None;
    for (i, e) in effects.iter().enumerate() {
        match e {
            Effect::Despawn { .. } => last_despawn = Some(i),
            Effect::Exited { .. } => exited_at = Some(i),
            Effect::Entered { .. } => entered_at = Some(i),
            Effect::Spawn { .. } => {
                if first_spawn.is_none() {
                    first_spawn = Some(i);
                }
            }
            _ => {}
        }
    }
    let last_despawn = last_despawn.expect("outgoing elements were despawned");
    let exited_at = exited_at.expect("exit marker present");
    let entered_at = entered_at.expect("enter marker present");
    let first_spawn = first_spawn.expect("incoming elements were spawned");
    assert!(last_despawn < exited_at);
    assert!(exited_at < entered_at);
    assert!(entered_at < first_spawn);
}

#[test]
fn entering_the_game_clears_the_history() {
    let mut ctrl = fresh();
    ctrl.request_transition(ScreenId::PauseMenu);
    ctrl.tick();
    ctrl.request_transition(ScreenId::SettingsMenu);
    ctrl.tick();
    assert_eq!(ctrl.history_len(), 2);
    ctrl.request_transition(ScreenId::InGame);
    ctrl.tick();
    assert_eq!(ctrl.current_screen(), ScreenId::InGame);
    assert_eq!(ctrl.history_len(), 0);
}

#[test]
fn music_plays_only_on_the_first_menu_entry() {
    let (mut ctrl, startup_effects) = Controller::new(ScreenRegistry::new());
    assert!(startup_effects.contains(&Effect::PlayMusic));
    ctrl.request_transition(ScreenId::InGame);
    ctrl.tick();
    ctrl.request_transition(ScreenId::MainMenu);
    let effects = ctrl.tick();
    assert!(effects.contains(&Effect::Entered { screen: ScreenId::MainMenu }));
    assert!(!effects.contains(&Effect::PlayMusic));
}

#[test]
fn hover_edges_only_restyle() {
    let mut ctrl = fresh();
    let el = element(ScreenId::MainMenu, 2);
    ctrl.notify_interaction(el, InteractionKind::HoverEnter);
    let effects = ctrl.tick();
    assert_eq!(effects, vec![Effect::SetStyle { element: el, style: VisualStyle::Hovered }]);
    assert_eq!(ctrl.pending_transition(), None);
    ctrl.notify_interaction(el, InteractionKind::HoverExit);
    let effects = ctrl.tick();
    assert_eq!(effects, vec![Effect::SetStyle { element: el, style: VisualStyle::Normal }]);
}

#[test]
fn press_exit_signals_the_host_and_stays_put() {
    let mut ctrl = fresh();
    ctrl.notify_interaction(element(ScreenId::MainMenu, 4), InteractionKind::Press);
    let effects = ctrl.tick();
    assert!(effects.contains(&Effect::RequestExit));
    assert_eq!(ctrl.pending_transition(), None);
    assert_eq!(ctrl.current_screen(), ScreenId::MainMenu);
}

#[test]
fn press_on_a_log_only_entry_changes_nothing() {
    let mut ctrl = fresh();
    // "Credits" resolves to a log-only tag.
    ctrl.notify_interaction(element(ScreenId::MainMenu, 3), InteractionKind::Press);
    let effects = ctrl.tick();
    assert!(effects.contains(&Effect::LogIgnored));
    assert_eq!(ctrl.pending_transition(), None);
    assert_eq!(ctrl.current_screen(), ScreenId::MainMenu);
}

#[test]
fn events_on_despawned_elements_are_dropped() {
    let mut ctrl = fresh();
    // An edge on a pause-menu element while the main menu is active: the
    // element does not exist, so nothing may happen.
    ctrl.notify_interaction(element(ScreenId::PauseMenu, 0), InteractionKind::Press);
    let effects = ctrl.tick();
    assert!(effects.is_empty());
    assert_eq!(ctrl.pending_transition(), None);
    // Likewise an out-of-range entry index on the active screen.
    ctrl.notify_interaction(element(ScreenId::MainMenu, 99), InteractionKind::Press);
    let effects = ctrl.tick();
    assert!(effects.is_empty());
}

#[test]
fn transition_requested_mid_frame_applies_next_tick_only() {
    let mut ctrl = fresh();
    ctrl.request_transition(ScreenId::SettingsMenu);
    // Still on the main menu until the next tick boundary.
    assert_eq!(ctrl.current_screen(), ScreenId::MainMenu);
    ctrl.tick();
    assert_eq!(ctrl.current_screen(), ScreenId::SettingsMenu);
}

#[test]
fn pause_and_resume_round_trip() {
    let mut ctrl = fresh();
    ctrl.request_transition(ScreenId::InGame);
    ctrl.tick();
    // The host requests the pause menu (say, on an escape press).
    ctrl.request_transition(ScreenId::PauseMenu);
    ctrl.tick();
    assert_eq!(ctrl.current_screen(), ScreenId::PauseMenu);
    // "Resume Game" returns to the game.
    ctrl.notify_interaction(element(ScreenId::PauseMenu, 0), InteractionKind::Press);
    ctrl.tick();
    ctrl.tick();
    assert_eq!(ctrl.current_screen(), ScreenId::InGame);
}

#[test]
fn two_back_presses_in_one_frame_pop_twice() {
    let mut ctrl = fresh();
    ctrl.request_transition(ScreenId::PauseMenu);
    ctrl.tick();
    ctrl.request_transition(ScreenId::SettingsMenu);
    ctrl.tick();
    assert_eq!(ctrl.history_len(), 2); // main menu, then pause menu
    let back = element(ScreenId::SettingsMenu, 5);
    ctrl.notify_interaction(back, InteractionKind::Press);
    ctrl.notify_interaction(back, InteractionKind::Press);
    ctrl.tick();
    // Each press pops one entry; the later request wins.
    assert_eq!(ctrl.history_len(), 0);
    assert_eq!(ctrl.pending_transition(), Some(ScreenId::MainMenu));
}

#[test]
fn conflicting_presses_in_one_frame_last_wins() {
    let mut ctrl = fresh();
    ctrl.notify_interaction(element(ScreenId::MainMenu, 2), InteractionKind::Press); // Settings
    ctrl.notify_interaction(element(ScreenId::MainMenu, 0), InteractionKind::Press); // Play Game
    ctrl.tick();
    assert_eq!(ctrl.pending_transition(), Some(ScreenId::InGame));
    ctrl.tick();
    assert_eq!(ctrl.current_screen(), ScreenId::InGame);
}

#[test]
fn several_events_dispatch_in_arrival_order() {
    let mut ctrl = fresh();
    let a = element(ScreenId::MainMenu, 0);
    let b = element(ScreenId::MainMenu, 1);
    ctrl.notify_interaction(a, InteractionKind::HoverEnter);
    ctrl.notify_interaction(b, InteractionKind::HoverEnter);
    ctrl.notify_interaction(a, InteractionKind::HoverExit);
    let effects = ctrl.tick();
    assert_eq!(
        effects,
        vec![
            Effect::SetStyle { element: a, style: VisualStyle::Hovered },
            Effect::SetStyle { element: b, style: VisualStyle::Hovered },
            Effect::SetStyle { element: a, style: VisualStyle::Normal },
        ]
    );
}
