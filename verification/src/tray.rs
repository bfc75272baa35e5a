//! The tray icon: its menu, and what each menu entry and a click on the
//! icon do.
use vstd::prelude::*;

use crate::text::str_eq;

verus! {

/// An entry of the tray menu: its id and label, or a separator.
pub enum TrayMenuEntry {
    Item { id: &'static str, label: &'static str },
    Separator,
}

/// The menu entries, from top to bottom.
pub open spec fn spec_tray_menu() -> Seq<(Seq<char>, Seq<char>)> {
    seq![
        ("show"@, "Открыть"@),
        ("settings"@, "Настройки"@),
        ("profile"@, "Профиль"@),
        ("check_updates"@, "Проверить обновления"@),
        (""@, ""@),
        ("quit"@, "Выход"@),
    ]
}

/// The view of a menu entry (a separator shows as empty id and label).
pub open spec fn entry_view(e: TrayMenuEntry) -> (Seq<char>, Seq<char>) {
    match e {
        TrayMenuEntry::Item { id, label } => (id@, label@),
        TrayMenuEntry::Separator => (""@, ""@),
    }
}

/// The entries of the tray menu.
pub fn tray_menu() -> (v: Vec<TrayMenuEntry>)
    ensures
        v@.len() == 6,
        forall|i: int| 0 <= i < 6 ==> entry_view(#[trigger] v@[i]) == spec_tray_menu()[i],
        v@[4] is Separator,
{
    let mut v: Vec<TrayMenuEntry> = Vec::new();
    v.push(TrayMenuEntry::Item { id: "show", label: "Открыть" });
    v.push(TrayMenuEntry::Item { id: "settings", label: "Настройки" });
    v.push(TrayMenuEntry::Item { id: "profile", label: "Профиль" });
    v.push(TrayMenuEntry::Item { id: "check_updates", label: "Проверить обновления" });
    v.push(TrayMenuEntry::Separator);
    v.push(TrayMenuEntry::Item { id: "quit", label: "Выход" });
    v
}

/// Tooltip of the tray icon.
pub fn tray_tooltip() -> (s: &'static str)
    ensures
        s@ == "VoicetextAI"@,
{
    "VoicetextAI"
}

/// What a menu entry does.
#[derive(Debug, Clone, Copy, PartialEq, Eq, Structural)]
pub enum TrayAction {
    /// Hide profile and settings, show and focus the recording window
    ShowMain,
    /// Show the recording window and ask it to switch to the settings
    OpenSettings,
    /// The profile window (or the sign-in window for a signed-out user)
    OpenProfile,
    /// Ask the windows to check for updates
    CheckUpdates,
    /// Quit the application
    Quit,
    /// An unknown entry
    Nothing,
}

/// The action of a menu entry by its id.
pub open spec fn spec_tray_action(id: Seq<char>) -> TrayAction {
    if id == "show"@ {
        TrayAction::ShowMain
    } else if id == "settings"@ {
        TrayAction::OpenSettings
    } else if id == "profile"@ {
        TrayAction::OpenProfile
    } else if id == "check_updates"@ {
        TrayAction::CheckUpdates
    } else if id == "quit"@ {
        TrayAction::Quit
    } else {
        TrayAction::Nothing
    }
}

/// Dispatches a click on a menu entry.
pub fn tray_menu_action(id: &str) -> (a: TrayAction)
    ensures
        a == spec_tray_action(id@),
{
    if str_eq(id, "show") {
        TrayAction::ShowMain
    } else if str_eq(id, "settings") {
        TrayAction::OpenSettings
    } else if str_eq(id, "profile") {
        TrayAction::OpenProfile
    } else if str_eq(id, "check_updates") {
        TrayAction::CheckUpdates
    } else if str_eq(id, "quit") {
        TrayAction::Quit
    } else {
        TrayAction::Nothing
    }
}

/// Every entry of the tray menu does something, and each its own thing:
/// no entry's id falls through to `Nothing`, two entries never share an
/// action, and the entry labelled "Проверить обновления" asks for an
/// update check.
pub proof fn lemma_every_menu_entry_acts(i: int, j: int)
    requires
        0 <= i < spec_tray_menu().len(),
        0 <= j < spec_tray_menu().len(),
        spec_tray_menu()[i].0.len() > 0,
        spec_tray_menu()[j].0.len() > 0,
    ensures
        spec_tray_action(spec_tray_menu()[i].0) != TrayAction::Nothing,
        i != j ==> spec_tray_action(spec_tray_menu()[i].0) != spec_tray_action(spec_tray_menu()[j].0),
        spec_tray_menu()[i].1 == "Проверить обновления"@ ==> spec_tray_action(spec_tray_menu()[i].0)
            == TrayAction::CheckUpdates,
        spec_tray_menu()[i].1 == "Выход"@ ==> spec_tray_action(spec_tray_menu()[i].0) == TrayAction::Quit,
        spec_tray_menu()[i].1 == "Открыть"@ ==> spec_tray_action(spec_tray_menu()[i].0) == TrayAction::ShowMain,
        spec_tray_menu()[i].1 == "Настройки"@ ==> spec_tray_action(spec_tray_menu()[i].0)
            == TrayAction::OpenSettings,
        spec_tray_menu()[i].1 == "Профиль"@ ==> spec_tray_action(spec_tray_menu()[i].0) == TrayAction::OpenProfile,
{
    reveal_strlit("show");
    reveal_strlit("settings");
    reveal_strlit("profile");
    reveal_strlit("check_updates");
    reveal_strlit("quit");
    reveal_strlit("");
    reveal_strlit("Открыть");
    reveal_strlit("Настройки");
    reveal_strlit("Профиль");
    reveal_strlit("Проверить обновления");
    reveal_strlit("Выход");
    assert("show"@.len() == 4 && "settings"@.len() == 8 && "profile"@.len() == 7);
    assert("check_updates"@.len() == 13 && "quit"@.len() == 4 && "quit"@[0] != "show"@[0]);
    assert("Открыть"@.len() == 7 && "Настройки"@.len() == 9 && "Профиль"@.len() == 7);
    assert("Проверить обновления"@.len() == 20 && "Выход"@.len() == 5 && ""@.len() == 0);
    assert("Открыть"@[0] != "Профиль"@[0]);
    let m = spec_tray_menu();
    assert(m.len() == 6);
    assert(m[0] == ("show"@, "Открыть"@));
    assert(m[1] == ("settings"@, "Настройки"@));
    assert(m[2] == ("profile"@, "Профиль"@));
    assert(m[3] == ("check_updates"@, "Проверить обновления"@));
    assert(m[4] == (""@, ""@));
    assert(m[5] == ("quit"@, "Выход"@));
}

/// Which window the profile entry shows.
#[derive(Debug, Clone, Copy, PartialEq, Eq, Structural)]
pub enum ProfileTarget {
    /// Signed out: the sign-in window
    AuthWindow,
    /// Hide the recording and settings windows, show the profile window
    ProfileWindow,
}

/// The profile entry shows the profile only to a signed-in user.
pub fn profile_target(authenticated: bool) -> (t: ProfileTarget)
    ensures
        t == (if authenticated {
            ProfileTarget::ProfileWindow
        } else {
            ProfileTarget::AuthWindow
        }),
{
    if authenticated {
        ProfileTarget::ProfileWindow
    } else {
        ProfileTarget::AuthWindow
    }
}

/// A left click (on release) on the icon toggles the recording window:
/// `true` to show it, `false` to hide it.
pub fn tray_click_shows(window_visible: bool) -> (show: bool)
    ensures
        show == !window_visible,
{
    !window_visible
}

} // verus!
