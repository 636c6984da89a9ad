//! What the entries of the application menu do.

use crate::cmd::{Action, ActionView};
use crate::text::str_eq;
use vstd::prelude::*;

verus! {

/// What the shell does when a menu entry is chosen.
#[derive(Debug, PartialEq, Eq)]
pub enum MenuCommand {
    /// Carry out an action on the main window.
    Execute(Action),
    OpenSettings,
    OpenCommandPalette,
    /// Pass this link through the link gate, as a request of the main window.
    OpenLink(String),
}

/// Mathematical form of a [`MenuCommand`].
pub ghost enum MenuCommandView {
    Execute(ActionView),
    OpenSettings,
    OpenCommandPalette,
    OpenLink(Seq<char>),
}

impl View for MenuCommand {
    type V = MenuCommandView;

    open spec fn view(&self) -> MenuCommandView {
        match self {
            MenuCommand::Execute(action) => MenuCommandView::Execute(action@),
            MenuCommand::OpenSettings => MenuCommandView::OpenSettings,
            MenuCommand::OpenCommandPalette => MenuCommandView::OpenCommandPalette,
            MenuCommand::OpenLink(url) => MenuCommandView::OpenLink(url@),
        }
    }
}

/// The command behind each menu entry, by the entry's identifier.
pub open spec fn menu_command(id: Seq<char>) -> Option<MenuCommandView> {
    if id == "new_note"@ {
        Some(MenuCommandView::Execute(ActionView::Navigate { path: "/new"@ }))
    } else if id == "settings"@ {
        Some(MenuCommandView::OpenSettings)
    } else if id == "command_palette"@ {
        Some(MenuCommandView::OpenCommandPalette)
    } else if id == "reload"@ {
        Some(MenuCommandView::Execute(ActionView::Reload))
    } else if id == "docs"@ {
        Some(MenuCommandView::OpenLink("https://hackdesk.vercel.app"@))
    } else if id == "source"@ {
        Some(MenuCommandView::OpenLink("https://github.com/EastSun5566/hackdesk"@))
    } else if id == "issues"@ {
        Some(MenuCommandView::OpenLink("https://github.com/EastSun5566/hackdesk/issues/new"@))
    } else {
        None
    }
}

/// The command behind the menu entry `id`; none for an entry that the
/// shell does not handle.
pub fn handler(id: &str) -> (command: Option<MenuCommand>)
    ensures
        match command {
            Some(c) => menu_command(id@) == Some(c@),
            None => menu_command(id@) is None,
        },
{
    if str_eq(id, "new_note") {
        Some(MenuCommand::Execute(Action::Navigate { path: "/new".to_owned() }))
    } else if str_eq(id, "settings") {
        Some(MenuCommand::OpenSettings)
    } else if str_eq(id, "command_palette") {
        Some(MenuCommand::OpenCommandPalette)
    } else if str_eq(id, "reload") {
        Some(MenuCommand::Execute(Action::Reload))
    } else if str_eq(id, "docs") {
        Some(MenuCommand::OpenLink("https://hackdesk.vercel.app".to_owned()))
    } else if str_eq(id, "source") {
        Some(MenuCommand::OpenLink("https://github.com/EastSun5566/hackdesk".to_owned()))
    } else if str_eq(id, "issues") {
        Some(MenuCommand::OpenLink("https://github.com/EastSun5566/hackdesk/issues/new".to_owned()))
    } else {
        None
    }
}

} // verus!
