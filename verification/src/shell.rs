//! The life of the main window: closing it hides it, the tray brings it back
//! or ends the process.

use vstd::prelude::*;
use vstd::string::*;

verus! {

/// Something that happened to the tray icon, its menu, or the main window.
#[derive(Clone, Debug, PartialEq, Eq)]
pub enum ShellEvent {
    /// The tray menu item with this identifier was chosen.
    MenuItem(String),
    /// The tray icon was double-clicked.
    TrayDoubleClick,
    /// Anything else that happened to the tray icon.
    TrayOther,
    /// The user asked to close the main window.
    CloseRequested,
    /// Anything else that happened to the main window.
    WindowOther,
}

/// What the shell does about an event.
#[derive(Clone, Copy, Debug, PartialEq, Eq, Structural)]
pub enum ShellAction {
    /// Show the main window and give it the focus.
    Show,
    /// Hide the main window and keep it from closing.
    Hide,
    /// End the process.
    Quit,
    /// Nothing.
    Ignore,
}

/// Whether the main window is on screen.
#[derive(Clone, Copy, Debug, PartialEq, Eq, Structural)]
pub enum Visibility {
    Shown,
    Hidden,
}

/// The identifier of the menu item that shows the window.
pub open spec fn show_id() -> Seq<char> {
    "show"@
}

/// The identifier of the menu item that ends the process.
pub open spec fn quit_id() -> Seq<char> {
    "quit"@
}

/// The label of the menu item that shows the window.
pub open spec fn show_label() -> Seq<char> {
    "Afficher"@
}

/// The label of the menu item that ends the process.
pub open spec fn quit_label() -> Seq<char> {
    "Quitter"@
}

/// One line of the tray menu.
#[derive(Clone, Debug, PartialEq, Eq)]
pub enum MenuEntry {
    /// An item that can be chosen, with its identifier and its label.
    Item { id: String, label: String },
    /// A line that parts two groups of items.
    Separator,
}

/// The tray menu: an item that shows the window, a separator, and an item
/// that ends the process.
pub fn tray_menu() -> (r: Vec<MenuEntry>)
    ensures
        r@.len() == 3,
        r@[0] is Item && r@[0]->id@ == show_id() && r@[0]->label@ == show_label(),
        r@[1] is Separator,
        r@[2] is Item && r@[2]->id@ == quit_id() && r@[2]->label@ == quit_label(),
{
    let mut menu: Vec<MenuEntry> = Vec::new();
    menu.push(MenuEntry::Item { id: "show".to_owned(), label: "Afficher".to_owned() });
    menu.push(MenuEntry::Separator);
    menu.push(MenuEntry::Item { id: "quit".to_owned(), label: "Quitter".to_owned() });
    menu
}

/// The action that answers `event`.
pub open spec fn reaction(event: ShellEvent) -> ShellAction {
    match event {
        ShellEvent::MenuItem(id) => if id@ == show_id() {
            ShellAction::Show
        } else if id@ == quit_id() {
            ShellAction::Quit
        } else {
            ShellAction::Ignore
        },
        ShellEvent::TrayDoubleClick => ShellAction::Show,
        ShellEvent::TrayOther => ShellAction::Ignore,
        ShellEvent::CloseRequested => ShellAction::Hide,
        ShellEvent::WindowOther => ShellAction::Ignore,
    }
}

/// The window's visibility after `action`, or nothing when the action ends
/// the process.
pub open spec fn visibility_after(current: Visibility, action: ShellAction) -> Option<Visibility> {
    match action {
        ShellAction::Show => Some(Visibility::Shown),
        ShellAction::Hide => Some(Visibility::Hidden),
        ShellAction::Quit => None,
        ShellAction::Ignore => Some(current),
    }
}

/// Decides what to do about `event`.
pub fn react(event: &ShellEvent) -> (r: ShellAction)
    ensures
        r == reaction(*event),
{
    match event {
        ShellEvent::MenuItem(id) => {
            let show = "show".to_owned();
            let quit = "quit".to_owned();
            if *id == show {
                ShellAction::Show
            } else if *id == quit {
                ShellAction::Quit
            } else {
                ShellAction::Ignore
            }
        },
        ShellEvent::TrayDoubleClick => ShellAction::Show,
        ShellEvent::TrayOther => ShellAction::Ignore,
        ShellEvent::CloseRequested => ShellAction::Hide,
        ShellEvent::WindowOther => ShellAction::Ignore,
    }
}

/// Follows the window's visibility through `action`; gives nothing when the
/// action ends the process.
pub fn step(current: Visibility, action: ShellAction) -> (r: Option<Visibility>)
    ensures
        r == visibility_after(current, action),
{
    match action {
        ShellAction::Show => Some(Visibility::Shown),
        ShellAction::Hide => Some(Visibility::Hidden),
        ShellAction::Quit => None,
        ShellAction::Ignore => Some(current),
    }
}

/// Closing the window never ends the process: whatever the window's state,
/// a close request leaves the process running with the window hidden. Only
/// the quit item of the tray menu ends it.
pub proof fn lemma_close_hides(current: Visibility, event: ShellEvent)
    ensures
        event == ShellEvent::CloseRequested ==> visibility_after(current, reaction(event)) == Some(
            Visibility::Hidden,
        ),
        visibility_after(current, reaction(event)) is None ==> event is MenuItem
            && event->MenuItem_0@ == quit_id(),
{
}

} // verus!
