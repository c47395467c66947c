//! The tray menu: its entries and what the shell does when one is chosen.

use crate::text::same_text;
use vstd::prelude::*;
use vstd::string::*;

verus! {

/// The pages of the front end that the tray menu leads to.
#[derive(Clone, Copy, Debug, PartialEq, Eq, Structural)]
pub enum Page {
    Volumes,
    Repositories,
    Backups,
    Notifications,
    Settings,
}

/// What the shell does about a chosen menu entry.
#[derive(Clone, Copy, Debug, PartialEq, Eq, Structural)]
pub enum TrayCommand {
    /// Show the main window and give it the focus.
    ShowWindow,
    /// Show the main window and take it to a page.
    OpenPage(Page),
    /// Open the directory of the log files in the file manager.
    OpenLogs,
    /// Leave the application.
    Quit,
    /// The entry is not known: nothing happens.
    Nothing,
}

/// One line of the tray menu.
#[derive(Clone, Copy, Debug, PartialEq, Eq)]
pub enum MenuEntry {
    /// An entry that can be chosen, with its identifier and its wording.
    Item { id: &'static str, label: &'static str },
    /// A dividing line.
    Separator,
}

/// A line of the tray menu as plain values.
pub enum MenuEntryView {
    Item { id: Seq<char>, label: Seq<char> },
    Separator,
}

impl DeepView for MenuEntry {
    type V = MenuEntryView;

    open spec fn deep_view(&self) -> MenuEntryView {
        match self {
            MenuEntry::Item { id, label } => MenuEntryView::Item { id: id@, label: label@ },
            MenuEntry::Separator => MenuEntryView::Separator,
        }
    }
}

/// The address of a page inside the front end.
pub open spec fn route_of(page: Page) -> Seq<char> {
    match page {
        Page::Volumes => "/volumes"@,
        Page::Repositories => "/repositories"@,
        Page::Backups => "/backups"@,
        Page::Notifications => "/notifications"@,
        Page::Settings => "/settings"@,
    }
}

/// The script that takes the web view to a page.
pub open spec fn navigation_script_of(page: Page) -> Seq<char> {
    "window.location.href = '"@ + route_of(page) + "'"@
}

/// The command behind a menu entry, by the entry's identifier.
pub open spec fn tray_command_of(id: Seq<char>) -> TrayCommand {
    if id == "show"@ {
        TrayCommand::ShowWindow
    } else if id == "volumes"@ {
        TrayCommand::OpenPage(Page::Volumes)
    } else if id == "repositories"@ {
        TrayCommand::OpenPage(Page::Repositories)
    } else if id == "backups"@ {
        TrayCommand::OpenPage(Page::Backups)
    } else if id == "notifications"@ {
        TrayCommand::OpenPage(Page::Notifications)
    } else if id == "settings"@ {
        TrayCommand::OpenPage(Page::Settings)
    } else if id == "open_logs"@ {
        TrayCommand::OpenLogs
    } else if id == "quit"@ {
        TrayCommand::Quit
    } else {
        TrayCommand::Nothing
    }
}

/// The tray menu, top to bottom: the window, the pages, the settings and
/// the logs, and the way out, with a dividing line between the groups.
pub open spec fn menu_of() -> Seq<MenuEntryView> {
    seq![
        MenuEntryView::Item { id: "show"@, label: "Mostrar App"@ },
        MenuEntryView::Separator,
        MenuEntryView::Item { id: "volumes"@, label: "Volúmenes"@ },
        MenuEntryView::Item { id: "repositories"@, label: "Repositorios"@ },
        MenuEntryView::Item { id: "backups"@, label: "Copias de seguridad"@ },
        MenuEntryView::Item { id: "notifications"@, label: "Notificaciones"@ },
        MenuEntryView::Separator,
        MenuEntryView::Item { id: "settings"@, label: "Configuración"@ },
        MenuEntryView::Item { id: "open_logs"@, label: "Abrir logs"@ },
        MenuEntryView::Separator,
        MenuEntryView::Item { id: "quit"@, label: "Salir"@ },
    ]
}

/// The command behind a line of the menu; a dividing line has none.
pub open spec fn entry_command(entry: MenuEntryView) -> Option<TrayCommand> {
    match entry {
        MenuEntryView::Item { id, .. } => Some(tray_command_of(id)),
        MenuEntryView::Separator => None,
    }
}

/// The address of a page inside the front end.
pub fn route(page: Page) -> (r: &'static str)
    ensures
        r@ == route_of(page),
{
    match page {
        Page::Volumes => "/volumes",
        Page::Repositories => "/repositories",
        Page::Backups => "/backups",
        Page::Notifications => "/notifications",
        Page::Settings => "/settings",
    }
}

/// Builds the script that takes the web view to a page.
pub fn navigation_script(page: Page) -> (r: String)
    ensures
        r@ == navigation_script_of(page),
{
    let mut script = String::from_str("window.location.href = '");
    script.append(route(page));
    script.append("'");
    script
}

/// Finds the command behind a chosen menu entry.
pub fn tray_command(id: &str) -> (r: TrayCommand)
    ensures
        r == tray_command_of(id@),
{
    if same_text(id, "show") {
        TrayCommand::ShowWindow
    } else if same_text(id, "volumes") {
        TrayCommand::OpenPage(Page::Volumes)
    } else if same_text(id, "repositories") {
        TrayCommand::OpenPage(Page::Repositories)
    } else if same_text(id, "backups") {
        TrayCommand::OpenPage(Page::Backups)
    } else if same_text(id, "notifications") {
        TrayCommand::OpenPage(Page::Notifications)
    } else if same_text(id, "settings") {
        TrayCommand::OpenPage(Page::Settings)
    } else if same_text(id, "open_logs") {
        TrayCommand::OpenLogs
    } else if same_text(id, "quit") {
        TrayCommand::Quit
    } else {
        TrayCommand::Nothing
    }
}

/// The tray menu, top to bottom.
pub fn tray_menu() -> (r: Vec<MenuEntry>)
    ensures
        r.deep_view() == menu_of(),
{
    let mut menu: Vec<MenuEntry> = Vec::new();
    menu.push(MenuEntry::Item { id: "show", label: "Mostrar App" });
    menu.push(MenuEntry::Separator);
    menu.push(MenuEntry::Item { id: "volumes", label: "Volúmenes" });
    menu.push(MenuEntry::Item { id: "repositories", label: "Repositorios" });
    menu.push(MenuEntry::Item { id: "backups", label: "Copias de seguridad" });
    menu.push(MenuEntry::Item { id: "notifications", label: "Notificaciones" });
    menu.push(MenuEntry::Separator);
    menu.push(MenuEntry::Item { id: "settings", label: "Configuración" });
    menu.push(MenuEntry::Item { id: "open_logs", label: "Abrir logs" });
    menu.push(MenuEntry::Separator);
    menu.push(MenuEntry::Item { id: "quit", label: "Salir" });
    assert(menu.deep_view() =~= menu_of());
    menu
}

/// No entry of the menu is dead, and no two entries do the same.
pub proof fn lemma_entries_are_live()
    ensures
        forall|i: int|
            0 <= i < menu_of().len() ==> entry_command(#[trigger] menu_of()[i]) != Some(
                TrayCommand::Nothing,
            ),
        forall|i: int, j: int|
            0 <= i < menu_of().len() && 0 <= j < menu_of().len() && i != j && entry_command(
                menu_of()[i],
            ) is Some ==> entry_command(#[trigger] menu_of()[i]) != entry_command(
                #[trigger] menu_of()[j],
            ),
{
    reveal_strlit("show");
    reveal_strlit("volumes");
    reveal_strlit("repositories");
    reveal_strlit("backups");
    reveal_strlit("notifications");
    reveal_strlit("settings");
    reveal_strlit("open_logs");
    reveal_strlit("quit");
    let menu = menu_of();
    assert("show"@.len() == 4 && "quit"@.len() == 4);
    assert("show"@[0] == 's' && "quit"@[0] == 'q');
    assert("volumes"@.len() == 7 && "backups"@.len() == 7);
    assert("volumes"@[0] == 'v' && "backups"@[0] == 'b');
    assert("repositories"@.len() == 12);
    assert("notifications"@.len() == 13);
    assert("settings"@.len() == 8);
    assert("open_logs"@.len() == 9);
    assert(entry_command(menu[0]) == Some(TrayCommand::ShowWindow));
    assert(entry_command(menu[2]) == Some(TrayCommand::OpenPage(Page::Volumes)));
    assert(entry_command(menu[3]) == Some(TrayCommand::OpenPage(Page::Repositories)));
    assert(entry_command(menu[4]) == Some(TrayCommand::OpenPage(Page::Backups)));
    assert(entry_command(menu[5]) == Some(TrayCommand::OpenPage(Page::Notifications)));
    assert(entry_command(menu[7]) == Some(TrayCommand::OpenPage(Page::Settings)));
    assert(entry_command(menu[8]) == Some(TrayCommand::OpenLogs));
    assert(entry_command(menu[10]) == Some(TrayCommand::Quit));
}

} // verus!
