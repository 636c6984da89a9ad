//! The commands that the embedded page and the menu may invoke, as far as
//! they are decided here.

use crate::window::{
    standard_config, OpenStep, WindowConfig, WindowHandle, WindowLabel, WindowRegistry, WindowSlot,
};
use vstd::prelude::*;

verus! {

/// Asks for the command palette; a second one is never made.
pub fn open_command_palette_window(registry: &mut WindowRegistry) -> (step: OpenStep)
    ensures
        old(registry).opens(
            final(registry),
            WindowLabel::CommandPalette,
            standard_config(WindowLabel::CommandPalette),
            step,
        ),
{
    registry.open_singleton(
        WindowLabel::CommandPalette,
        WindowConfig::standard(WindowLabel::CommandPalette),
    )
}

/// Asks for the settings window; a second one is never made.
pub fn open_settings_window(registry: &mut WindowRegistry) -> (step: OpenStep)
    ensures
        old(registry).opens(
            final(registry),
            WindowLabel::Settings,
            standard_config(WindowLabel::Settings),
            step,
        ),
{
    registry.open_singleton(WindowLabel::Settings, WindowConfig::standard(WindowLabel::Settings))
}

/// An operation on the main window that the page or the menu may ask for.
#[derive(Debug, PartialEq, Eq)]
pub enum Action {
    /// Show the page at `path`, which starts with a slash.
    Navigate { path: String },
    GoForward,
    GoBack,
    Reload,
}

/// Mathematical form of an [`Action`].
pub ghost enum ActionView {
    Navigate { path: Seq<char> },
    GoForward,
    GoBack,
    Reload,
}

impl View for Action {
    type V = ActionView;

    open spec fn view(&self) -> ActionView {
        match self {
            Action::Navigate { path } => ActionView::Navigate { path: path@ },
            Action::GoForward => ActionView::GoForward,
            Action::GoBack => ActionView::GoBack,
            Action::Reload => ActionView::Reload,
        }
    }
}

/// Why an action was not carried out.
#[derive(Debug, PartialEq, Eq)]
pub enum ActionError {
    /// The path of a navigation, given here, does not start with a slash.
    InvalidPath(String),
    /// There is no main window to act on.
    MainWindowMissing,
}

/// An action that passed, with the window it is for.
#[derive(Debug, PartialEq, Eq)]
pub struct MainWindowCall {
    pub window: WindowHandle,
    pub action: Action,
}

/// Whether an action may be carried out: a navigation only to a path that
/// starts with a slash, the others always.
pub open spec fn permitted(action: ActionView) -> bool {
    action matches ActionView::Navigate { path } ==> path.len() > 0 && path[0] == '/'
}

/// Checks an action and names the window it is for. A navigation to a
/// path without a leading slash is refused whatever the windows are; any
/// other action needs the main window to live.
pub fn execute_action(registry: &WindowRegistry, action: Action) -> (r: Result<
    MainWindowCall,
    ActionError,
>)
    ensures
        match r {
            Ok(call) => permitted(action@) && registry.slot(WindowLabel::Main) == WindowSlot::Live(
                call.window,
            ) && call.action@ == action@,
            Err(ActionError::InvalidPath(path)) => !permitted(action@) && action@
                == (ActionView::Navigate { path: path@ }),
            Err(ActionError::MainWindowMissing) => permitted(action@) && !(registry.slot(
                WindowLabel::Main,
            ) is Live),
        },
{
    if let Action::Navigate { path } = &action {
        if path.as_str().is_empty() || path.as_str().get_char(0) != '/' {
            return Err(ActionError::InvalidPath(path.clone()));
        }
    }
    match registry.get(WindowLabel::Main) {
        Some(window) => Ok(MainWindowCall { window, action }),
        None => Err(ActionError::MainWindowMissing),
    }
}

} // verus!
