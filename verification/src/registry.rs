//! The screen registry: one immutable table per screen binding each button
//! label (presentation) to a stable action tag (semantics). Dispatch
//! resolves labels through this table instead of re-deriving meaning from
//! display text, so a typo in a drawn label cannot silently change what a
//! button does.

use vstd::prelude::*;

use crate::screen::{ActionTag, ScreenId};

verus! {

/// One selectable element of a screen: the drawn label and the tag that
/// says what pressing it does.
pub struct MenuEntry {
    pub label: String,
    pub action: ActionTag,
}

/// Spec-level image of a menu entry.
pub struct EntryModel {
    pub label: Seq<char>,
    pub action: ActionTag,
}

impl View for MenuEntry {
    type V = EntryModel;

    open spec fn view(&self) -> EntryModel {
        EntryModel { label: self.label@, action: self.action }
    }
}

/// No two entries of one screen may carry the same tag.
pub open spec fn distinct_tags(entries: Seq<EntryModel>) -> bool {
    forall|i: int, j: int|
        0 <= i < j < entries.len() ==> entries[i].action != entries[j].action
}

/// The tag bound to the first entry whose label matches, or `Noop` when no
/// entry matches: an unknown button is a no-op, not an error.
pub open spec fn resolve_in(entries: Seq<EntryModel>, label: Seq<char>) -> ActionTag
    decreases entries.len(),
{
    if entries.len() == 0 {
        ActionTag::Noop
    } else if entries[0].label == label {
        entries[0].action
    } else {
        resolve_in(entries.drop_first(), label)
    }
}

/// The ordered list of selectable entries of one screen. Insertion order is
/// the on-screen order. Immutable once built.
pub struct MenuDefinition {
    entries: Vec<MenuEntry>,
}

impl View for MenuDefinition {
    type V = Seq<EntryModel>;

    closed spec fn view(&self) -> Seq<EntryModel> {
        self.entries@.map_values(|e: MenuEntry| e@)
    }
}

impl MenuDefinition {
    /// How many entries the screen shows.
    pub fn len(&self) -> (n: usize)
        ensures
            n == self@.len(),
    {
        self.entries.len()
    }

    /// The label of the entry at `i`, in on-screen order.
    pub fn label_at(&self, i: usize) -> (r: &String)
        requires
            i < self@.len(),
        ensures
            r@ == self@[i as int].label,
    {
        &self.entries[i].label
    }

    /// The action tag of the entry at `i`.
    pub fn action_at(&self, i: usize) -> (r: ActionTag)
        requires
            i < self@.len(),
        ensures
            r == self@[i as int].action,
    {
        self.entries[i].action
    }
}

/// Spec-level image of the whole registry.
pub struct RegistryModel {
    pub main: Seq<EntryModel>,
    pub pause: Seq<EntryModel>,
    pub settings: Seq<EntryModel>,
    pub in_game: Seq<EntryModel>,
}

impl RegistryModel {
    /// The definition table of one screen.
    pub open spec fn def_of(self, screen: ScreenId) -> Seq<EntryModel> {
        match screen {
            ScreenId::MainMenu => self.main,
            ScreenId::PauseMenu => self.pause,
            ScreenId::SettingsMenu => self.settings,
            ScreenId::InGame => self.in_game,
        }
    }

    /// Every screen's table keeps the tag-uniqueness invariant.
    pub open spec fn wf(self) -> bool {
        &&& distinct_tags(self.main)
        &&& distinct_tags(self.pause)
        &&& distinct_tags(self.settings)
        &&& distinct_tags(self.in_game)
    }
}

/// The registry the engine ships with: the built-in menus' labels, each
/// bound to its tag. The playable scene has no selectable entries.
pub open spec fn default_registry() -> RegistryModel {
    RegistryModel {
        main: seq![
            EntryModel { label: "Play Game"@, action: ActionTag::ResumeGame },
            EntryModel { label: "New Game"@, action: ActionTag::NewGame },
            EntryModel { label: "Settings"@, action: ActionTag::OpenSettings },
            EntryModel { label: "Credits"@, action: ActionTag::ShowCredits },
            EntryModel { label: "Exit"@, action: ActionTag::ExitGame },
        ],
        pause: seq![
            EntryModel { label: "Resume Game"@, action: ActionTag::ResumeGame },
            EntryModel { label: "Settings"@, action: ActionTag::OpenSettings },
            EntryModel { label: "Main Menu"@, action: ActionTag::OpenMainMenu },
            EntryModel { label: "Exit Game"@, action: ActionTag::ExitGame },
        ],
        settings: seq![
            EntryModel { label: "Accessibility"@, action: ActionTag::ShowAccessibility },
            EntryModel { label: "Audio"@, action: ActionTag::ShowAudio },
            EntryModel { label: "Controls"@, action: ActionTag::ShowControls },
            EntryModel { label: "Graphics"@, action: ActionTag::ShowGraphics },
            EntryModel { label: "Language"@, action: ActionTag::ShowLanguage },
            EntryModel { label: "Previous Menu"@, action: ActionTag::GoBack },
        ],
        in_game: Seq::empty(),
    }
}

/// The static table mapping each screen to its selectable entries.
/// Constructed once at startup, never mutated.
pub struct ScreenRegistry {
    main: MenuDefinition,
    pause: MenuDefinition,
    settings: MenuDefinition,
    in_game: MenuDefinition,
}

impl View for ScreenRegistry {
    type V = RegistryModel;

    closed spec fn view(&self) -> RegistryModel {
        RegistryModel {
            main: self.main@,
            pause: self.pause@,
            settings: self.settings@,
            in_game: self.in_game@,
        }
    }
}

/// Builds one entry from a label literal and its tag.
fn entry(label: &str, action: ActionTag) -> (e: MenuEntry)
    ensures
        e@ == (EntryModel { label: label@, action }),
{
    MenuEntry { label: label.to_owned(), action }
}

impl ScreenRegistry {
    /// The registry with the default menus of [`default_registry`].
    pub fn new() -> (r: Self)
        ensures
            r@ == default_registry(),
            r@.wf(),
    {
        let mut main: Vec<MenuEntry> = Vec::new();
        main.push(entry("Play Game", ActionTag::ResumeGame));
        main.push(entry("New Game", ActionTag::NewGame));
        main.push(entry("Settings", ActionTag::OpenSettings));
        main.push(entry("Credits", ActionTag::ShowCredits));
        main.push(entry("Exit", ActionTag::ExitGame));
        let mut pause: Vec<MenuEntry> = Vec::new();
        pause.push(entry("Resume Game", ActionTag::ResumeGame));
        pause.push(entry("Settings", ActionTag::OpenSettings));
        pause.push(entry("Main Menu", ActionTag::OpenMainMenu));
        pause.push(entry("Exit Game", ActionTag::ExitGame));
        let mut settings: Vec<MenuEntry> = Vec::new();
        settings.push(entry("Accessibility", ActionTag::ShowAccessibility));
        settings.push(entry("Audio", ActionTag::ShowAudio));
        settings.push(entry("Controls", ActionTag::ShowControls));
        settings.push(entry("Graphics", ActionTag::ShowGraphics));
        settings.push(entry("Language", ActionTag::ShowLanguage));
        settings.push(entry("Previous Menu", ActionTag::GoBack));
        let in_game: Vec<MenuEntry> = Vec::new();
        let r = ScreenRegistry {
            main: MenuDefinition { entries: main },
            pause: MenuDefinition { entries: pause },
            settings: MenuDefinition { entries: settings },
            in_game: MenuDefinition { entries: in_game },
        };
        proof {
            assert(r@.main =~= default_registry().main);
            assert(r@.pause =~= default_registry().pause);
            assert(r@.settings =~= default_registry().settings);
            assert(r@.in_game =~= default_registry().in_game);
        }
        r
    }

    /// The definition of `screen`: total, every screen has a table.
    pub fn get_definition(&self, screen: ScreenId) -> (d: &MenuDefinition)
        ensures
            d@ == self@.def_of(screen),
    {
        match screen {
            ScreenId::MainMenu => &self.main,
            ScreenId::PauseMenu => &self.pause,
            ScreenId::SettingsMenu => &self.settings,
            ScreenId::InGame => &self.in_game,
        }
    }

    /// Looks up the tag bound to `label` within `screen`: the first entry
    /// whose label matches, or `Noop` when none does.
    pub fn resolve_action(&self, screen: ScreenId, label: &str) -> (t: ActionTag)
        ensures
            t == resolve_in(self@.def_of(screen), label@),
    {
        let owned: String = label.to_owned();
        let d = self.get_definition(screen);
        let ghost entries = self@.def_of(screen);
        let n = d.entries.len();
        proof {
            assert(entries.subrange(0, n as int) =~= entries);
        }
        for i in 0..n
            invariant
                entries == self@.def_of(screen),
                n == entries.len(),
                d@ == entries,
                owned@ == label@,
                resolve_in(entries, label@) == resolve_in(
                    entries.subrange(i as int, n as int),
                    label@,
                ),
        {
            proof {
                assert(entries.subrange(i as int, n as int)[0] == entries[i as int]);
                assert(entries.subrange(i as int, n as int).drop_first() =~= entries.subrange(
                    i as int + 1,
                    n as int,
                ));
            }
            if d.entries[i].label == owned {
                proof {
                    assert(entries[i as int] == d.entries@[i as int]@);
                    assert(entries[i as int].label == label@);
                    assert(resolve_in(entries.subrange(i as int, n as int), label@) == entries[
                        i as int
                    ].action);
                }
                return d.entries[i].action;
            }
        }
        proof {
            assert(entries.subrange(n as int, n as int) =~= Seq::<EntryModel>::empty());
        }
        ActionTag::Noop
    }
}

} // verus!
