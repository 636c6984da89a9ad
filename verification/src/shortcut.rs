//! The shortcut binder: the global shortcuts that the settings ask for,
//! each key combination bound once at most.

use crate::settings::{SettingsDocument, SettingsView};
use crate::window::WindowLabel;
use vstd::prelude::*;

verus! {

/// What a global shortcut does.
#[derive(Clone, Copy, PartialEq, Eq, Debug, Structural)]
pub enum ShortcutAction {
    OpenCommandPalette,
    OpenSettings,
}

/// The identifier of each action.
pub open spec fn action_identifier(action: ShortcutAction) -> Seq<char> {
    match action {
        ShortcutAction::OpenCommandPalette => "open-command-palette"@,
        ShortcutAction::OpenSettings => "open-settings"@,
    }
}

/// The window that each action opens.
pub open spec fn action_window(action: ShortcutAction) -> WindowLabel {
    match action {
        ShortcutAction::OpenCommandPalette => WindowLabel::CommandPalette,
        ShortcutAction::OpenSettings => WindowLabel::Settings,
    }
}

impl ShortcutAction {
    /// The identifier under which the action is handed to the host.
    pub fn identifier(&self) -> (text: &'static str)
        ensures
            text@ == action_identifier(*self),
    {
        match self {
            ShortcutAction::OpenCommandPalette => "open-command-palette",
            ShortcutAction::OpenSettings => "open-settings",
        }
    }

    /// The window that the action opens.
    pub fn window(&self) -> (label: WindowLabel)
        ensures
            label == action_window(*self),
    {
        match self {
            ShortcutAction::OpenCommandPalette => WindowLabel::CommandPalette,
            ShortcutAction::OpenSettings => WindowLabel::Settings,
        }
    }
}

/// An accelerator with the action it stands for, and whether the host has
/// it registered.
#[derive(Debug, PartialEq, Eq)]
pub struct ShortcutBinding {
    pub accelerator: String,
    pub action: ShortcutAction,
    pub bound: bool,
}

/// Mathematical form of a [`ShortcutBinding`].
pub ghost struct BindingView {
    pub accelerator: Seq<char>,
    pub action: ShortcutAction,
    pub bound: bool,
}

impl View for ShortcutBinding {
    type V = BindingView;

    open spec fn view(&self) -> BindingView {
        BindingView { accelerator: self.accelerator@, action: self.action, bound: self.bound }
    }
}

/// The bindings of `v` in their mathematical form.
pub open spec fn binding_views(v: Seq<ShortcutBinding>) -> Seq<BindingView> {
    Seq::new(v.len(), |i: int| v[i]@)
}

/// What the host's shortcut facility is asked to do.
#[derive(Debug, PartialEq, Eq)]
pub enum ShortcutCommand {
    /// Remove every global shortcut of this application.
    UnregisterAll,
    /// Register `accelerator`, to deliver `action` when it is pressed, and
    /// report the result with [`ShortcutBinder::registration_result`].
    Register { accelerator: String, action: ShortcutAction },
}

/// Mathematical form of a [`ShortcutCommand`].
pub ghost enum ShortcutCommandView {
    UnregisterAll,
    Register { accelerator: Seq<char>, action: ShortcutAction },
}

impl View for ShortcutCommand {
    type V = ShortcutCommandView;

    open spec fn view(&self) -> ShortcutCommandView {
        match self {
            ShortcutCommand::UnregisterAll => ShortcutCommandView::UnregisterAll,
            ShortcutCommand::Register { accelerator, action } => ShortcutCommandView::Register {
                accelerator: accelerator@,
                action: *action,
            },
        }
    }
}

/// The commands of `v` in their mathematical form.
pub open spec fn command_views(v: Seq<ShortcutCommand>) -> Seq<ShortcutCommandView> {
    Seq::new(v.len(), |i: int| v[i]@)
}

/// Whether a shortcut of the settings is there and not empty.
pub open spec fn usable(shortcut: Option<Seq<char>>) -> bool {
    shortcut matches Some(accelerator) && accelerator.len() > 0
}

/// An accelerator that waits for the host's answer.
pub open spec fn unbound(accelerator: Seq<char>, action: ShortcutAction) -> BindingView {
    BindingView { accelerator, action, bound: false }
}

/// The bindings that a settings document asks for, none of them bound yet:
/// one for each shortcut that is there and not empty, the command palette's
/// first. Where both name one accelerator, the command palette has it.
pub open spec fn planned(document: SettingsView) -> Seq<BindingView> {
    let palette = document.command_palette_shortcut;
    let settings = document.settings_shortcut;
    let first = if usable(palette) {
        seq![unbound(palette->0, ShortcutAction::OpenCommandPalette)]
    } else {
        Seq::empty()
    };
    if usable(settings) && !(usable(palette) && palette->0 == settings->0) {
        first.push(unbound(settings->0, ShortcutAction::OpenSettings))
    } else {
        first
    }
}

/// The commands that put `bindings` to the host: a full reset, then one
/// registration for each binding, in order.
pub open spec fn commands_for(bindings: Seq<BindingView>) -> Seq<ShortcutCommandView> {
    Seq::new(
        bindings.len() + 1,
        |i: int|
            if i == 0 {
                ShortcutCommandView::UnregisterAll
            } else {
                ShortcutCommandView::Register {
                    accelerator: bindings[i - 1].accelerator,
                    action: bindings[i - 1].action,
                }
            },
    )
}

/// The bindings after the host answered the registration for `action`:
/// bound where it registered the accelerator, as before where it did not.
pub open spec fn answered(
    bindings: Seq<BindingView>,
    action: ShortcutAction,
    registered: bool,
) -> Seq<BindingView> {
    Seq::new(
        bindings.len(),
        |i: int|
            if bindings[i].action == action && registered {
                BindingView { bound: true, ..bindings[i] }
            } else {
                bindings[i]
            },
    )
}

/// The bindings with none of them bound.
pub open spec fn released(bindings: Seq<BindingView>) -> Seq<BindingView> {
    Seq::new(bindings.len(), |i: int| BindingView { bound: false, ..bindings[i] })
}

/// Whether the binding for `action` is bound.
pub open spec fn is_bound(bindings: Seq<BindingView>, action: ShortcutAction) -> bool {
    exists|i: int|
        0 <= i < bindings.len() && (#[trigger] bindings[i]).action == action
            && bindings[i].bound
}

/// Whether no action and no accelerator occurs twice, and no accelerator is
/// empty.
pub open spec fn distinct(bindings: Seq<BindingView>) -> bool {
    &&& forall|i: int| 0 <= i < bindings.len() ==> (#[trigger] bindings[i]).accelerator.len() > 0
    &&& forall|i: int, j: int|
        0 <= i < j < bindings.len() ==> (#[trigger] bindings[i]).action != (
        #[trigger] bindings[j]).action && bindings[i].accelerator != bindings[j].accelerator
}

/// The table of global shortcuts.
#[derive(Debug)]
pub struct ShortcutBinder {
    bindings: Vec<ShortcutBinding>,
}

impl View for ShortcutBinder {
    type V = Seq<BindingView>;

    closed spec fn view(&self) -> Seq<BindingView> {
        binding_views(self.bindings@)
    }
}

impl ShortcutBinder {
    /// The invariant of a binder: each action and each accelerator is in the
    /// table once at most.
    #[verifier::type_invariant]
    spec fn distinct_bindings(self) -> bool {
        distinct(binding_views(self.bindings@))
    }

    /// A binder without bindings.
    pub fn new() -> (binder: Self)
        ensures
            distinct(binder@),
            binder@ == Seq::<BindingView>::empty(),
    {
        ShortcutBinder { bindings: Vec::new() }
    }

    /// Number of bindings in the table, bound or not.
    pub fn len(&self) -> (n: usize)
        ensures
            n == self@.len(),
    {
        self.bindings.len()
    }

    /// The binding at `index`, if the table is that long.
    pub fn binding(&self, index: usize) -> (binding: Option<&ShortcutBinding>)
        ensures
            match binding {
                Some(b) => index < self@.len() && b@ == self@[index as int],
                None => index >= self@.len(),
            },
    {
        if index < self.bindings.len() {
            Some(&self.bindings[index])
        } else {
            None
        }
    }

    /// Marks every binding unbound; the host is to remove every global
    /// shortcut of the application.
    pub fn unregister_all(&mut self) -> (command: ShortcutCommand)
        ensures
            distinct(final(self)@),
            final(self)@ == released(old(self)@),
            command@ == ShortcutCommandView::UnregisterAll,
    {
        let n = self.bindings.len();
        let mut released_bindings: Vec<ShortcutBinding> = Vec::new();
        let mut i: usize = 0;
        while i < n
            invariant
                i <= n,
                n == self.bindings.len(),
                released_bindings.len() == i,
                forall|k: int|
                    0 <= k < i ==> (#[trigger] released_bindings[k])@ == (BindingView {
                        bound: false,
                        ..self.bindings[k]@
                    }),
            decreases n - i,
        {
            released_bindings.push(
                ShortcutBinding {
                    accelerator: self.bindings[i].accelerator.clone(),
                    action: self.bindings[i].action,
                    bound: false,
                },
            );
            i = i + 1;
        }
        let ghost before = self@;
        proof {
            use_type_invariant(&*self);
            assert(binding_views(released_bindings@) == released(before));
        }
        self.bindings = released_bindings;
        ShortcutCommand::UnregisterAll
    }

    /// Applies the shortcuts of `document`. Every binding there was is
    /// given up, and the table holds, unbound, what the document asks for:
    /// it depends on the document alone, so that a second call with the
    /// same document ends where the first did. The commands are for the
    /// host, in order: the full reset first, then one registration for each
    /// binding.
    pub fn rebind_all(&mut self, document: &SettingsDocument) -> (commands: Vec<ShortcutCommand>)
        ensures
            distinct(final(self)@),
            final(self)@ == planned(document@),
            command_views(commands@) == commands_for(planned(document@)),
    {
        let mut commands: Vec<ShortcutCommand> = Vec::new();
        let reset = self.unregister_all();
        commands.push(reset);
        let mut bindings: Vec<ShortcutBinding> = Vec::new();
        let mut taken: Option<&String> = None;
        if let Some(accelerator) = &document.command_palette_shortcut {
            if !accelerator.as_str().is_empty() {
                bindings.push(
                    ShortcutBinding {
                        accelerator: accelerator.clone(),
                        action: ShortcutAction::OpenCommandPalette,
                        bound: false,
                    },
                );
                commands.push(
                    ShortcutCommand::Register {
                        accelerator: accelerator.clone(),
                        action: ShortcutAction::OpenCommandPalette,
                    },
                );
                taken = Some(accelerator);
            }
        }
        if let Some(accelerator) = &document.settings_shortcut {
            let conflict = match taken {
                Some(other) => *other == *accelerator,
                None => false,
            };
            if !accelerator.as_str().is_empty() && !conflict {
                bindings.push(
                    ShortcutBinding {
                        accelerator: accelerator.clone(),
                        action: ShortcutAction::OpenSettings,
                        bound: false,
                    },
                );
                commands.push(
                    ShortcutCommand::Register {
                        accelerator: accelerator.clone(),
                        action: ShortcutAction::OpenSettings,
                    },
                );
            }
        }
        self.bindings = bindings;
        assert(self@ == planned(document@));
        assert(command_views(commands@) == commands_for(planned(document@)));
        commands
    }

    /// Takes the host's answer to the registration for `action`: the
    /// binding is bound where the host registered the accelerator. A
    /// registration that failed is passed over; the others are not touched.
    pub fn registration_result(&mut self, action: ShortcutAction, registered: bool)
        ensures
            distinct(final(self)@),
            final(self)@ == answered(old(self)@, action, registered),
    {
        let n = self.bindings.len();
        let ghost before = self@;
        let mut updated: Vec<ShortcutBinding> = Vec::new();
        let mut i: usize = 0;
        while i < n
            invariant
                i <= n,
                n == self.bindings.len(),
                before == binding_views(self.bindings@),
                updated.len() == i,
                forall|k: int|
                    0 <= k < i ==> (#[trigger] updated[k])@ == answered(
                        before,
                        action,
                        registered,
                    )[k],
            decreases n - i,
        {
            let binding = &self.bindings[i];
            assert(before[i as int] == binding@);
            let bound = binding.bound || (registered && binding.action == action);
            updated.push(
                ShortcutBinding {
                    accelerator: binding.accelerator.clone(),
                    action: binding.action,
                    bound,
                },
            );
            i = i + 1;
        }
        proof {
            use_type_invariant(&*self);
            assert(binding_views(updated@) == answered(before, action, registered));
        }
        self.bindings = updated;
    }

    /// Whether the shortcut for `action` is registered with the host.
    pub fn is_bound(&self, action: ShortcutAction) -> (bound: bool)
        ensures
            bound == is_bound(self@, action),
    {
        let n = self.bindings.len();
        let mut i: usize = 0;
        while i < n
            invariant
                i <= n,
                n == self.bindings.len(),
                forall|k: int|
                    0 <= k < i ==> !((#[trigger] self@[k]).action == action && self@[k].bound),
            decreases n - i,
        {
            assert(self@[i as int] == self.bindings[i as int]@);
            if self.bindings[i].action == action && self.bindings[i].bound {
                return true;
            }
            i = i + 1;
        }
        false
    }

    /// Decides what a global shortcut does when the host delivers its
    /// action: the window to open, and nothing unless the shortcut is bound
    /// and the main window has input focus.
    pub fn dispatch(&self, action: ShortcutAction, main_focused: bool) -> (window: Option<
        WindowLabel,
    >)
        ensures
            window == if main_focused && is_bound(self@, action) {
                Some(action_window(action))
            } else {
                None
            },
    {
        if main_focused && self.is_bound(action) {
            Some(action.window())
        } else {
            None
        }
    }
}

/// Whether the host registers the accelerator of `action`, where other
/// applications hold the accelerators in `claimed`: it does for an
/// accelerator that is in the table and that nobody else holds.
pub open spec fn host_registers(
    bindings: Seq<BindingView>,
    action: ShortcutAction,
    claimed: Set<Seq<char>>,
) -> bool {
    exists|i: int|
        0 <= i < bindings.len() && (#[trigger] bindings[i]).action == action && !claimed.contains(
            bindings[i].accelerator,
        )
}

/// The table after a whole cycle: `rebind_all` with `document`, then the
/// host's answer for each action, where other applications hold the
/// accelerators in `claimed`.
pub open spec fn rebound(document: SettingsView, claimed: Set<Seq<char>>) -> Seq<BindingView> {
    let plan = planned(document);
    answered(
        answered(
            plan,
            ShortcutAction::OpenCommandPalette,
            host_registers(plan, ShortcutAction::OpenCommandPalette, claimed),
        ),
        ShortcutAction::OpenSettings,
        host_registers(plan, ShortcutAction::OpenSettings, claimed),
    )
}

/// What a document asks for is a table in which no action and no
/// accelerator occurs twice.
pub proof fn law_planned_distinct(document: SettingsView)
    ensures
        distinct(planned(document)),
{
}

/// A document without shortcuts binds nothing: the host is told to give up
/// every shortcut and nothing else, and whatever it answers, no action is
/// bound.
pub proof fn law_no_shortcuts_nothing_bound(
    document: SettingsView,
    action: ShortcutAction,
    registered: bool,
)
    requires
        document.command_palette_shortcut is None,
        document.settings_shortcut is None,
    ensures
        planned(document) == Seq::<BindingView>::empty(),
        commands_for(planned(document)) == seq![ShortcutCommandView::UnregisterAll],
        answered(planned(document), action, registered) == Seq::<BindingView>::empty(),
        !is_bound(
            answered(planned(document), action, registered),
            ShortcutAction::OpenCommandPalette,
        ),
        !is_bound(answered(planned(document), action, registered), ShortcutAction::OpenSettings),
{
}

/// A conflict costs one binding only: after a whole cycle, each binding
/// that the document asks for is bound unless another application holds
/// its accelerator, and the table is otherwise what was asked for.
pub proof fn law_conflict_skipped(document: SettingsView, claimed: Set<Seq<char>>)
    ensures
        rebound(document, claimed).len() == planned(document).len(),
        forall|i: int|
            0 <= i < planned(document).len() ==> (#[trigger] rebound(document, claimed)[i]) == (
            BindingView {
                bound: !claimed.contains(planned(document)[i].accelerator),
                ..planned(document)[i]
            }),
{
    let plan = planned(document);
    assert forall|i: int| 0 <= i < plan.len() implies host_registers(plan, plan[i].action, claimed)
        == !claimed.contains(plan[i].accelerator) by {
        if host_registers(plan, plan[i].action, claimed) {
            let k = choose|k: int|
                0 <= k < plan.len() && (#[trigger] plan[k]).action == plan[i].action
                    && !claimed.contains(plan[k].accelerator);
            assert(k == i);
        }
    }
}

} // verus!
