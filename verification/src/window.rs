//! The window registry: one window at most under each label.

use crate::conf::{
    COMMAND_PALETTE_WINDOW_LABEL, DEFAULT_TITLE, DEFAULT_URL, MAIN_WINDOW_LABEL,
    SETTINGS_WINDOW_LABEL,
};
use crate::text::str_eq;
use vstd::prelude::*;

verus! {

/// The windows that the shell knows.
#[derive(Clone, Copy, PartialEq, Eq, Debug, Structural)]
pub enum WindowLabel {
    Main,
    CommandPalette,
    Settings,
}

/// The text of each label.
pub open spec fn label_text(label: WindowLabel) -> Seq<char> {
    match label {
        WindowLabel::Main => MAIN_WINDOW_LABEL@,
        WindowLabel::CommandPalette => COMMAND_PALETTE_WINDOW_LABEL@,
        WindowLabel::Settings => SETTINGS_WINDOW_LABEL@,
    }
}

/// No two labels have the same text.
pub proof fn law_labels_differ(a: WindowLabel, b: WindowLabel)
    requires
        a != b,
    ensures
        label_text(a) != label_text(b),
{
    reveal_strlit("main");
    reveal_strlit("command-palette");
    reveal_strlit("settings");
    assert(MAIN_WINDOW_LABEL@.len() == 4);
    assert(COMMAND_PALETTE_WINDOW_LABEL@.len() == 15);
    assert(SETTINGS_WINDOW_LABEL@.len() == 8);
}

impl WindowLabel {
    /// The label as the host knows it.
    pub fn as_str(&self) -> (text: &'static str)
        ensures
            text@ == label_text(*self),
    {
        match self {
            WindowLabel::Main => MAIN_WINDOW_LABEL,
            WindowLabel::CommandPalette => COMMAND_PALETTE_WINDOW_LABEL,
            WindowLabel::Settings => SETTINGS_WINDOW_LABEL,
        }
    }

    /// The label that `text` names, if it names one.
    pub fn parse(text: &str) -> (label: Option<WindowLabel>)
        ensures
            match label {
                Some(l) => label_text(l) == text@,
                None => forall|l: WindowLabel| label_text(l) != text@,
            },
    {
        if str_eq(text, MAIN_WINDOW_LABEL) {
            Some(WindowLabel::Main)
        } else if str_eq(text, COMMAND_PALETTE_WINDOW_LABEL) {
            Some(WindowLabel::CommandPalette)
        } else if str_eq(text, SETTINGS_WINDOW_LABEL) {
            Some(WindowLabel::Settings)
        } else {
            None
        }
    }
}

/// A reference to a window of the host. The host owns the window; the
/// number only finds it again.
#[derive(Clone, Copy, PartialEq, Eq, Debug, Structural)]
pub struct WindowHandle {
    pub id: u64,
}

/// What the registry knows of the window under one label.
#[derive(Clone, Copy, PartialEq, Eq, Debug, Structural)]
pub enum WindowSlot {
    /// No window, and none asked for.
    Vacant,
    /// The host was asked to create the window and has not answered.
    Pending,
    /// The window lives.
    Live(WindowHandle),
}

/// How a window is to be built.
#[derive(Debug, PartialEq, Eq)]
pub struct WindowConfig {
    /// Page that the window shows.
    pub url: String,
    pub width: u32,
    pub height: u32,
    pub title: Option<String>,
    pub center: bool,
    pub always_on_top: bool,
    pub resizable: bool,
    pub transparent: bool,
}

/// Mathematical form of a [`WindowConfig`].
pub ghost struct WindowConfigView {
    pub url: Seq<char>,
    pub width: u32,
    pub height: u32,
    pub title: Option<Seq<char>>,
    pub center: bool,
    pub always_on_top: bool,
    pub resizable: bool,
    pub transparent: bool,
}

impl View for WindowConfig {
    type V = WindowConfigView;

    open spec fn view(&self) -> WindowConfigView {
        WindowConfigView {
            url: self.url@,
            width: self.width,
            height: self.height,
            title: match self.title {
                Some(text) => Some(text@),
                None => None,
            },
            center: self.center,
            always_on_top: self.always_on_top,
            resizable: self.resizable,
            transparent: self.transparent,
        }
    }
}

/// The build of each window.
pub open spec fn standard_config(label: WindowLabel) -> WindowConfigView {
    match label {
        WindowLabel::Main => WindowConfigView {
            url: DEFAULT_URL@,
            width: 800,
            height: 600,
            title: Some(DEFAULT_TITLE@),
            center: false,
            always_on_top: false,
            resizable: true,
            transparent: false,
        },
        WindowLabel::CommandPalette => WindowConfigView {
            url: "/command-palette"@,
            width: 560,
            height: 312,
            title: None,
            center: false,
            always_on_top: true,
            resizable: false,
            transparent: true,
        },
        WindowLabel::Settings => WindowConfigView {
            url: "/settings"@,
            width: 800,
            height: 600,
            title: Some("Settings"@),
            center: true,
            always_on_top: false,
            resizable: true,
            transparent: false,
        },
    }
}

impl WindowConfig {
    /// The build of the window under `label`.
    pub fn standard(label: WindowLabel) -> (config: Self)
        ensures
            config@ == standard_config(label),
    {
        match label {
            WindowLabel::Main => WindowConfig {
                    url: DEFAULT_URL.to_owned(),
                width: 800,
                height: 600,
                title: Some(DEFAULT_TITLE.to_owned()),
                center: false,
                always_on_top: false,
                resizable: true,
                transparent: false,
            },
            WindowLabel::CommandPalette => WindowConfig {
                    url: "/command-palette".to_owned(),
                width: 560,
                height: 312,
                title: None,
                center: false,
                always_on_top: true,
                resizable: false,
                transparent: true,
            },
            WindowLabel::Settings => WindowConfig {
                    url: "/settings".to_owned(),
                width: 800,
                height: 600,
                title: Some("Settings".to_owned()),
                center: true,
                always_on_top: false,
                resizable: true,
                transparent: false,
            },
        }
    }
}

/// What the caller of [`WindowRegistry::open_singleton`] is to do.
#[derive(Debug, PartialEq, Eq)]
pub enum OpenStep {
    /// The window lives already: nothing.
    Existing(WindowHandle),
    /// The host is creating the window already: nothing.
    InProgress,
    /// Ask the host for a window of this build, and report the result with
    /// [`WindowRegistry::window_created`].
    Create(WindowConfig),
}

/// Why no handle came back from [`WindowRegistry::window_created`].
#[derive(Debug, PartialEq, Eq)]
pub enum WindowError {
    /// The host could not create the window; its message.
    CreationFailed(String),
    /// The registry had not asked for a window under this label.
    NotRequested,
}

/// What a window tells its observers.
#[derive(Clone, Copy, PartialEq, Eq, Debug, Structural)]
pub enum WindowEvent {
    /// The window gained (`true`) or lost (`false`) input focus.
    Focused(bool),
    Destroyed,
}

/// What the shell does on an event of a window, or on a request to close one.
#[derive(Clone, Copy, PartialEq, Eq, Debug, Structural)]
pub enum WindowEffect {
    Nothing,
    /// The host is to close this window.
    Close(WindowHandle),
    /// The settings are to be applied anew.
    ApplySettings,
}

/// The slot of a label after `open_singleton`.
pub open spec fn slot_after_open(slot: WindowSlot) -> WindowSlot {
    match slot {
        WindowSlot::Vacant => WindowSlot::Pending,
        other => other,
    }
}

/// The slot of a label after the host reported on a creation: with a
/// handle where it succeeded.
pub open spec fn slot_after_created(slot: WindowSlot, created: Option<WindowHandle>) -> WindowSlot {
    match slot {
        WindowSlot::Pending => match created {
            Some(handle) => WindowSlot::Live(handle),
            None => WindowSlot::Vacant,
        },
        other => other,
    }
}

/// The slot of a label after an event of its window.
pub open spec fn slot_after_event(slot: WindowSlot, event: WindowEvent) -> WindowSlot {
    match (slot, event) {
        (WindowSlot::Live(_), WindowEvent::Destroyed) => WindowSlot::Vacant,
        (other, _) => other,
    }
}

/// What is to be done to close the window of a slot.
pub open spec fn close_effect(slot: WindowSlot) -> WindowEffect {
    match slot {
        WindowSlot::Live(handle) => WindowEffect::Close(handle),
        _ => WindowEffect::Nothing,
    }
}

/// What the shell does on an event of the window under `label`: the
/// command palette is closed when it loses focus, and the settings are
/// applied anew when the settings window is gone.
pub open spec fn event_effect(
    label: WindowLabel,
    slot: WindowSlot,
    event: WindowEvent,
) -> WindowEffect {
    match (label, event) {
        (WindowLabel::CommandPalette, WindowEvent::Focused(false)) => close_effect(slot),
        (WindowLabel::Settings, WindowEvent::Destroyed) => if slot is Live {
            WindowEffect::ApplySettings
        } else {
            WindowEffect::Nothing
        },
        _ => WindowEffect::Nothing,
    }
}

/// The windows of the shell by label.
#[derive(Clone, Copy, Debug, PartialEq, Eq)]
pub struct WindowRegistry {
    main: WindowSlot,
    command_palette: WindowSlot,
    settings: WindowSlot,
}

impl WindowRegistry {
    /// What the registry knows of the window under `label`.
    pub closed spec fn slot(&self, label: WindowLabel) -> WindowSlot {
        match label {
            WindowLabel::Main => self.main,
            WindowLabel::CommandPalette => self.command_palette,
            WindowLabel::Settings => self.settings,
        }
    }

    /// Whether the two registries differ under `label` at most.
    pub open spec fn same_but(&self, other: &WindowRegistry, label: WindowLabel) -> bool {
        forall|l: WindowLabel| l != label ==> self.slot(l) == other.slot(l)
    }

    /// Whether a request for the window under `label`, of the build
    /// `config`, leads from the registry `self` to `after` with the answer
    /// `step`: a label that is free is taken and the window is to be
    /// created; where the window lives or is being created, nothing changes
    /// and nothing is to be done.
    pub open spec fn opens(
        &self,
        after: &WindowRegistry,
        label: WindowLabel,
        config: WindowConfigView,
        step: OpenStep,
    ) -> bool {
        &&& after.slot(label) == slot_after_open(self.slot(label))
        &&& after.same_but(self, label)
        &&& match self.slot(label) {
            WindowSlot::Live(handle) => step matches OpenStep::Existing(h) && h == handle,
            WindowSlot::Pending => step is InProgress,
            WindowSlot::Vacant => step matches OpenStep::Create(c) && c@ == config,
        }
    }

    /// A registry without windows.
    pub fn new() -> (registry: Self)
        ensures
            forall|label: WindowLabel| registry.slot(label) is Vacant,
    {
        WindowRegistry {
            main: WindowSlot::Vacant,
            command_palette: WindowSlot::Vacant,
            settings: WindowSlot::Vacant,
        }
    }

    /// What the registry knows of the window under `label`.
    pub fn lookup(&self, label: WindowLabel) -> (slot: WindowSlot)
        ensures
            slot == self.slot(label),
    {
        match label {
            WindowLabel::Main => self.main,
            WindowLabel::CommandPalette => self.command_palette,
            WindowLabel::Settings => self.settings,
        }
    }

    fn put(&mut self, label: WindowLabel, slot: WindowSlot)
        ensures
            final(self).slot(label) == slot,
            final(self).same_but(old(self), label),
    {
        match label {
            WindowLabel::Main => {
                self.main = slot;
            },
            WindowLabel::CommandPalette => {
                self.command_palette = slot;
            },
            WindowLabel::Settings => {
                self.settings = slot;
            },
        }
    }

    /// The live window under `label`, if there is one.
    pub fn get(&self, label: WindowLabel) -> (handle: Option<WindowHandle>)
        ensures
            match handle {
                Some(h) => self.slot(label) == WindowSlot::Live(h),
                None => !(self.slot(label) is Live),
            },
    {
        match self.lookup(label) {
            WindowSlot::Live(handle) => Some(handle),
            _ => None,
        }
    }

    /// Asks for the window under `label`. Where it lives, or is being
    /// created, nothing changes and nothing is to be done. Else the label is
    /// taken, and the caller is to have a window of the build
    /// `builder_config` created.
    pub fn open_singleton(&mut self, label: WindowLabel, builder_config: WindowConfig) -> (step:
        OpenStep)
        ensures
            old(self).opens(final(self), label, builder_config@, step),
    {
        match self.lookup(label) {
            WindowSlot::Live(handle) => OpenStep::Existing(handle),
            WindowSlot::Pending => OpenStep::InProgress,
            WindowSlot::Vacant => {
                self.put(label, WindowSlot::Pending);
                OpenStep::Create(builder_config)
            },
        }
    }

    /// Takes the host's answer to a request to create the window under
    /// `label`. The window is registered where the host made it; a failure
    /// frees the label and is reported. An answer that the registry did not
    /// wait for changes nothing.
    pub fn window_created(
        &mut self,
        label: WindowLabel,
        result: Result<WindowHandle, String>,
    ) -> (r: Result<WindowHandle, WindowError>)
        ensures
            final(self).slot(label) == slot_after_created(
                old(self).slot(label),
                match result {
                    Ok(handle) => Some(handle),
                    Err(_) => None,
                },
            ),
            final(self).same_but(old(self), label),
            match r {
                Ok(handle) => old(self).slot(label) is Pending && result == Ok::<
                    WindowHandle,
                    String,
                >(handle),
                Err(WindowError::CreationFailed(message)) => old(self).slot(label) is Pending && (
                result matches Err(e) && e@ == message@),
                Err(WindowError::NotRequested) => !(old(self).slot(label) is Pending),
            },
    {
        match self.lookup(label) {
            WindowSlot::Pending => match result {
                Ok(handle) => {
                    self.put(label, WindowSlot::Live(handle));
                    Ok(handle)
                },
                Err(message) => {
                    self.put(label, WindowSlot::Vacant);
                    Err(WindowError::CreationFailed(message))
                },
            },
            _ => Err(WindowError::NotRequested),
        }
    }

    /// What is to be done to close the window under `label`: nothing where
    /// none lives. The window leaves the registry when the host reports it
    /// destroyed.
    pub fn close(&self, label: WindowLabel) -> (effect: WindowEffect)
        ensures
            effect == close_effect(self.slot(label)),
    {
        match self.lookup(label) {
            WindowSlot::Live(handle) => WindowEffect::Close(handle),
            _ => WindowEffect::Nothing,
        }
    }

    /// Takes an event of the window under `label`: a destroyed window
    /// leaves the registry. The effect is what the shell does in answer.
    pub fn on_window_event(&mut self, label: WindowLabel, event: WindowEvent) -> (effect:
        WindowEffect)
        ensures
            final(self).slot(label) == slot_after_event(old(self).slot(label), event),
            final(self).same_but(old(self), label),
            effect == event_effect(label, old(self).slot(label), event),
    {
        let slot = self.lookup(label);
        match event {
            WindowEvent::Focused(focused) => {
                if !focused && label == WindowLabel::CommandPalette {
                    self.close(label)
                } else {
                    WindowEffect::Nothing
                }
            },
            WindowEvent::Destroyed => match slot {
                WindowSlot::Live(_) => {
                    self.put(label, WindowSlot::Vacant);
                    if label == WindowLabel::Settings {
                        WindowEffect::ApplySettings
                    } else {
                        WindowEffect::Nothing
                    }
                },
                _ => WindowEffect::Nothing,
            },
        }
    }
}

/// Two requests for one window in a row make the host create one window at
/// most: whatever the first request found, the second finds the label
/// taken, asks for nothing to be created and changes nothing.
pub proof fn law_open_twice(
    before: WindowRegistry,
    between: WindowRegistry,
    after: WindowRegistry,
    label: WindowLabel,
    first_config: WindowConfigView,
    second_config: WindowConfigView,
    first: OpenStep,
    second: OpenStep,
)
    requires
        before.opens(&between, label, first_config, first),
        between.opens(&after, label, second_config, second),
    ensures
        !(second is Create),
        first is Create <==> before.slot(label) is Vacant,
        forall|l: WindowLabel| after.slot(l) == between.slot(l),
{
}

/// Once the host has made the window that was asked for, it is the one
/// live window under its label, and a further request leaves it so.
pub proof fn law_open_then_reopen(slot: WindowSlot, handle: WindowHandle)
    requires
        slot is Vacant,
    ensures
        slot_after_created(slot_after_open(slot), Some(handle)) == WindowSlot::Live(handle),
        slot_after_open(slot_after_created(slot_after_open(slot), Some(handle)))
            == WindowSlot::Live(handle),
{
}

/// A creation that failed leaves no entry behind.
pub proof fn law_failed_creation(slot: WindowSlot)
    requires
        slot is Vacant,
    ensures
        slot_after_created(slot_after_open(slot), None) is Vacant,
{
}

} // verus!
