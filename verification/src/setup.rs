//! Start-up, and the settings apply orchestrator: what the shell does with
//! the settings it has read.

use crate::conf::DEFAULT_SETTINGS;
use crate::settings::{
    json_text_strings, load_or_default, settings_of, SettingsDocument, SettingsView,
};
use crate::shortcut::{
    command_views, commands_for, distinct, planned, ShortcutBinder, ShortcutCommand,
    ShortcutCommandView,
};
use crate::window::{
    standard_config, OpenStep, WindowConfig, WindowHandle, WindowLabel, WindowRegistry, WindowSlot,
};
use vstd::prelude::*;

verus! {

/// Starts the shell: asks for the main window.
pub fn init(registry: &mut WindowRegistry) -> (step: OpenStep)
    ensures
        old(registry).opens(
            final(registry),
            WindowLabel::Main,
            standard_config(WindowLabel::Main),
            step,
        ),
{
    registry.open_singleton(WindowLabel::Main, WindowConfig::standard(WindowLabel::Main))
}

/// A title for a window.
#[derive(Debug, PartialEq, Eq)]
pub struct TitleUpdate {
    pub window: WindowHandle,
    pub title: String,
}

/// What the host is to do so that the settings take effect.
#[derive(Debug, PartialEq, Eq)]
pub struct SettingsPlan {
    /// The title to give the main window; none where no main window lives.
    pub title: Option<TitleUpdate>,
    /// The commands for the host's shortcut facility, in order.
    pub shortcuts: Vec<ShortcutCommand>,
}

/// Mathematical form of a [`SettingsPlan`].
pub ghost struct SettingsPlanView {
    pub title: Option<(WindowHandle, Seq<char>)>,
    pub shortcuts: Seq<ShortcutCommandView>,
}

impl View for SettingsPlan {
    type V = SettingsPlanView;

    open spec fn view(&self) -> SettingsPlanView {
        SettingsPlanView {
            title: match self.title {
                Some(update) => Some((update.window, update.title@)),
                None => None,
            },
            shortcuts: command_views(self.shortcuts@),
        }
    }
}

/// The plan for a document, given what the registry knows of the main
/// window: the document's title for the main window if it lives, and the
/// commands that rebind the shortcuts.
pub open spec fn plan_of(document: SettingsView, main: WindowSlot) -> SettingsPlanView {
    SettingsPlanView {
        title: match main {
            WindowSlot::Live(window) => Some((window, document.title)),
            _ => None,
        },
        shortcuts: commands_for(planned(document)),
    }
}

/// Puts `document` into effect: rebinds the shortcuts in `binder` and plans
/// the title of the main window. A main window that is gone is passed over.
pub fn apply_document(
    registry: &WindowRegistry,
    binder: &mut ShortcutBinder,
    document: &SettingsDocument,
) -> (plan: SettingsPlan)
    ensures
        distinct(final(binder)@),
        final(binder)@ == planned(document@),
        plan@ == plan_of(document@, registry.slot(WindowLabel::Main)),
{
    let title = match registry.get(WindowLabel::Main) {
        Some(window) => Some(TitleUpdate { window, title: document.title.clone() }),
        None => None,
    };
    let shortcuts = binder.rebind_all(document);
    SettingsPlan { title, shortcuts }
}

/// Applies the settings that the text of the settings file holds.
pub fn apply_settings(
    registry: &WindowRegistry,
    binder: &mut ShortcutBinder,
    content: &str,
) -> (plan: SettingsPlan)
    ensures
        distinct(final(binder)@),
        final(binder)@ == planned(settings_of(json_text_strings(content@))),
        plan@ == plan_of(
            settings_of(json_text_strings(content@)),
            registry.slot(WindowLabel::Main),
        ),
{
    let document = load_or_default(content);
    apply_document(registry, binder, &document)
}

/// Applies the default settings, for a first run: the caller has written
/// [`DEFAULT_SETTINGS`] to the settings file.
pub fn init_settings(registry: &WindowRegistry, binder: &mut ShortcutBinder) -> (plan: SettingsPlan)
    ensures
        distinct(final(binder)@),
        final(binder)@ == planned(settings_of(json_text_strings(DEFAULT_SETTINGS@))),
        plan@ == plan_of(
            settings_of(json_text_strings(DEFAULT_SETTINGS@)),
            registry.slot(WindowLabel::Main),
        ),
{
    apply_settings(registry, binder, DEFAULT_SETTINGS)
}

/// The text whose settings are in force, given what the settings file
/// holds: the file's text, or the default settings where there is no file.
pub open spec fn settings_in_force(stored: Option<Seq<char>>) -> Seq<char> {
    match stored {
        Some(content) => content,
        None => DEFAULT_SETTINGS@,
    }
}

/// Applies the settings at start-up and whenever the settings window is
/// gone. `stored` is the text of the settings file, or `None` where there
/// was none and the caller has written the default settings in its place.
pub fn apply(registry: &WindowRegistry, binder: &mut ShortcutBinder, stored: Option<&str>) -> (plan:
    SettingsPlan)
    ensures
        distinct(final(binder)@),
        final(binder)@ == planned(
            settings_of(
                json_text_strings(
                    settings_in_force(
                        match stored {
                            Some(content) => Some(content@),
                            None => None,
                        },
                    ),
                ),
            ),
        ),
        plan@ == plan_of(
            settings_of(
                json_text_strings(
                    settings_in_force(
                        match stored {
                            Some(content) => Some(content@),
                            None => None,
                        },
                    ),
                ),
            ),
            registry.slot(WindowLabel::Main),
        ),
{
    match stored {
        Some(content) => apply_settings(registry, binder, content),
        None => init_settings(registry, binder),
    }
}

} // verus!
