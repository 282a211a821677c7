use menu_nav::registry::ScreenRegistry;
use menu_nav::screen::{ActionTag, ScreenId};

#[test]
fn every_screen_has_a_definition() {
    let reg = ScreenRegistry::new();
    assert_eq!(reg.get_definition(ScreenId::MainMenu).len(), 5);
    assert_eq!(reg.get_definition(ScreenId::PauseMenu).len(), 4);
    assert_eq!(reg.get_definition(ScreenId::SettingsMenu).len(), 6);
    assert_eq!(reg.get_definition(ScreenId::InGame).len(), 0);
}

#[test]
fn definitions_keep_on_screen_order() {
    let reg = ScreenRegistry::new();
    let main = reg.get_definition(ScreenId::MainMenu);
    assert_eq!(main.label_at(0).as_str(), "Play Game");
    assert_eq!(main.label_at(1).as_str(), "New Game");
    assert_eq!(main.label_at(2).as_str(), "Settings");
    assert_eq!(main.label_at(3).as_str(), "Credits");
    assert_eq!(main.label_at(4).as_str(), "Exit");
    assert_eq!(main.action_at(0), ActionTag::ResumeGame);
    assert_eq!(main.action_at(4), ActionTag::ExitGame);
    let settings = reg.get_definition(ScreenId::SettingsMenu);
    assert_eq!(settings.label_at(5).as_str(), "Previous Menu");
    assert_eq!(settings.action_at(5), ActionTag::GoBack);
}

#[test]
fn resolve_main_menu_labels() {
    let reg = ScreenRegistry::new();
    assert_eq!(reg.resolve_action(ScreenId::MainMenu, "Play Game"), ActionTag::ResumeGame);
    assert_eq!(reg.resolve_action(ScreenId::MainMenu, "New Game"), ActionTag::NewGame);
    assert_eq!(reg.resolve_action(ScreenId::MainMenu, "Settings"), ActionTag::OpenSettings);
    assert_eq!(reg.resolve_action(ScreenId::MainMenu, "Credits"), ActionTag::ShowCredits);
    assert_eq!(reg.resolve_action(ScreenId::MainMenu, "Exit"), ActionTag::ExitGame);
}

#[test]
fn resolve_pause_menu_labels() {
    let reg = ScreenRegistry::new();
    assert_eq!(reg.resolve_action(ScreenId::PauseMenu, "Resume Game"), ActionTag::ResumeGame);
    assert_eq!(reg.resolve_action(ScreenId::PauseMenu, "Settings"), ActionTag::OpenSettings);
    assert_eq!(reg.resolve_action(ScreenId::PauseMenu, "Main Menu"), ActionTag::OpenMainMenu);
    assert_eq!(reg.resolve_action(ScreenId::PauseMenu, "Exit Game"), ActionTag::ExitGame);
}

#[test]
fn resolve_settings_menu_labels() {
    let reg = ScreenRegistry::new();
    assert_eq!(
        reg.resolve_action(ScreenId::SettingsMenu, "Accessibility"),
        ActionTag::ShowAccessibility
    );
    assert_eq!(reg.resolve_action(ScreenId::SettingsMenu, "Audio"), ActionTag::ShowAudio);
    assert_eq!(reg.resolve_action(ScreenId::SettingsMenu, "Previous Menu"), ActionTag::GoBack);
}

#[test]
fn unknown_labels_resolve_to_noop() {
    let reg = ScreenRegistry::new();
    // A label no screen shows.
    assert_eq!(reg.resolve_action(ScreenId::MainMenu, "Load Game"), ActionTag::Noop);
    // A label another screen shows: resolution is per screen.
    assert_eq!(reg.resolve_action(ScreenId::PauseMenu, "Play Game"), ActionTag::Noop);
    // The playable scene has no selectable entries at all.
    assert_eq!(reg.resolve_action(ScreenId::InGame, "Play Game"), ActionTag::Noop);
    // Matching is exact, not case-insensitive.
    assert_eq!(reg.resolve_action(ScreenId::MainMenu, "play game"), ActionTag::Noop);
}
