use hackdesk::settings::SettingsDocument;
use hackdesk::shortcut::{ShortcutAction, ShortcutBinder, ShortcutBinding, ShortcutCommand};
use hackdesk::window::WindowLabel;

fn document(palette: Option<&str>, settings: Option<&str>) -> SettingsDocument {
    SettingsDocument {
        title: "HackDesk".to_string(),
        command_palette_shortcut: palette.map(|s| s.to_string()),
        settings_shortcut: settings.map(|s| s.to_string()),
    }
}

fn register(accelerator: &str, action: ShortcutAction) -> ShortcutCommand {
    ShortcutCommand::Register { accelerator: accelerator.to_string(), action }
}

fn table(binder: &ShortcutBinder) -> Vec<(String, ShortcutAction, bool)> {
    (0..binder.len())
        .map(|i| {
            let ShortcutBinding { accelerator, action, bound } = binder.binding(i).unwrap();
            (accelerator.clone(), *action, *bound)
        })
        .collect()
}

#[test]
fn document_without_shortcuts_binds_nothing() {
    let mut binder = ShortcutBinder::new();
    let commands = binder.rebind_all(&document(None, None));
    assert_eq!(commands, vec![ShortcutCommand::UnregisterAll]);
    assert_eq!(binder.len(), 0);
    assert!(!binder.is_bound(ShortcutAction::OpenCommandPalette));
    assert!(!binder.is_bound(ShortcutAction::OpenSettings));
    binder.registration_result(ShortcutAction::OpenSettings, true);
    assert_eq!(binder.len(), 0);
    assert!(!binder.is_bound(ShortcutAction::OpenSettings));
}

#[test]
fn rebind_resets_then_registers_in_order() {
    let mut binder = ShortcutBinder::new();
    let commands = binder.rebind_all(&document(Some("CmdOrCtrl+K"), Some("CmdOrCtrl+,")));
    assert_eq!(
        commands,
        vec![
            ShortcutCommand::UnregisterAll,
            register("CmdOrCtrl+K", ShortcutAction::OpenCommandPalette),
            register("CmdOrCtrl+,", ShortcutAction::OpenSettings),
        ]
    );
    assert_eq!(
        table(&binder),
        vec![
            ("CmdOrCtrl+K".to_string(), ShortcutAction::OpenCommandPalette, false),
            ("CmdOrCtrl+,".to_string(), ShortcutAction::OpenSettings, false),
        ]
    );
}

#[test]
fn binding_is_bound_once_the_host_registered_it() {
    let mut binder = ShortcutBinder::new();
    binder.rebind_all(&document(Some("CmdOrCtrl+K"), Some("CmdOrCtrl+,")));
    assert!(!binder.is_bound(ShortcutAction::OpenCommandPalette));
    binder.registration_result(ShortcutAction::OpenCommandPalette, true);
    assert!(binder.is_bound(ShortcutAction::OpenCommandPalette));
    assert!(!binder.is_bound(ShortcutAction::OpenSettings));
    binder.registration_result(ShortcutAction::OpenSettings, true);
    assert!(binder.is_bound(ShortcutAction::OpenSettings));
}

#[test]
fn conflict_leaves_one_key_unbound_and_binds_the_other() {
    let mut binder = ShortcutBinder::new();
    binder.rebind_all(&document(Some("CmdOrCtrl+K"), Some("CmdOrCtrl+,")));
    // Another application holds CmdOrCtrl+K.
    binder.registration_result(ShortcutAction::OpenCommandPalette, false);
    binder.registration_result(ShortcutAction::OpenSettings, true);
    assert_eq!(
        table(&binder),
        vec![
            ("CmdOrCtrl+K".to_string(), ShortcutAction::OpenCommandPalette, false),
            ("CmdOrCtrl+,".to_string(), ShortcutAction::OpenSettings, true),
        ]
    );
}

#[test]
fn only_shortcuts_that_are_there_and_not_empty_are_planned() {
    let mut binder = ShortcutBinder::new();
    assert_eq!(
        binder.rebind_all(&document(Some(""), Some("Alt+S"))),
        vec![ShortcutCommand::UnregisterAll, register("Alt+S", ShortcutAction::OpenSettings)]
    );
    assert_eq!(table(&binder), vec![("Alt+S".to_string(), ShortcutAction::OpenSettings, false)]);
    assert_eq!(
        binder.rebind_all(&document(Some("Alt+P"), None)),
        vec![ShortcutCommand::UnregisterAll, register("Alt+P", ShortcutAction::OpenCommandPalette)]
    );
    assert_eq!(
        binder.rebind_all(&document(Some(""), Some(""))),
        vec![ShortcutCommand::UnregisterAll]
    );
    assert_eq!(binder.len(), 0);
}

#[test]
fn one_accelerator_is_planned_once() {
    let mut binder = ShortcutBinder::new();
    assert_eq!(
        binder.rebind_all(&document(Some("Alt+X"), Some("Alt+X"))),
        vec![ShortcutCommand::UnregisterAll, register("Alt+X", ShortcutAction::OpenCommandPalette)]
    );
    binder.registration_result(ShortcutAction::OpenCommandPalette, true);
    binder.registration_result(ShortcutAction::OpenSettings, true);
    assert_eq!(
        table(&binder),
        vec![("Alt+X".to_string(), ShortcutAction::OpenCommandPalette, true)]
    );
}

#[test]
fn rebind_gives_up_what_was_bound() {
    let mut binder = ShortcutBinder::new();
    binder.rebind_all(&document(Some("Alt+P"), Some("Alt+S")));
    binder.registration_result(ShortcutAction::OpenCommandPalette, true);
    binder.registration_result(ShortcutAction::OpenSettings, true);
    binder.rebind_all(&document(Some("Alt+P"), Some("Alt+S")));
    assert!(!binder.is_bound(ShortcutAction::OpenCommandPalette));
    assert!(!binder.is_bound(ShortcutAction::OpenSettings));
    assert_eq!(binder.len(), 2);
}

#[test]
fn rebinding_one_document_twice_ends_in_the_same_table() {
    let settings = document(Some("Alt+P"), Some("Alt+S"));
    let mut binder = ShortcutBinder::new();
    let first = binder.rebind_all(&settings);
    binder.registration_result(ShortcutAction::OpenCommandPalette, true);
    binder.registration_result(ShortcutAction::OpenSettings, false);
    let once = table(&binder);
    let second = binder.rebind_all(&settings);
    binder.registration_result(ShortcutAction::OpenCommandPalette, true);
    binder.registration_result(ShortcutAction::OpenSettings, false);
    assert_eq!(first, second);
    assert_eq!(table(&binder), once);
}

#[test]
fn unregister_all_releases_every_binding() {
    let mut binder = ShortcutBinder::new();
    binder.rebind_all(&document(Some("Alt+P"), Some("Alt+S")));
    binder.registration_result(ShortcutAction::OpenCommandPalette, true);
    binder.registration_result(ShortcutAction::OpenSettings, true);
    assert_eq!(binder.unregister_all(), ShortcutCommand::UnregisterAll);
    assert_eq!(
        table(&binder),
        vec![
            ("Alt+P".to_string(), ShortcutAction::OpenCommandPalette, false),
            ("Alt+S".to_string(), ShortcutAction::OpenSettings, false),
        ]
    );
}

#[test]
fn shortcut_acts_only_while_the_main_window_has_focus() {
    let mut binder = ShortcutBinder::new();
    binder.rebind_all(&document(Some("Alt+P"), Some("Alt+S")));
    binder.registration_result(ShortcutAction::OpenCommandPalette, true);
    assert_eq!(
        binder.dispatch(ShortcutAction::OpenCommandPalette, true),
        Some(WindowLabel::CommandPalette)
    );
    assert_eq!(binder.dispatch(ShortcutAction::OpenCommandPalette, false), None);
    // The settings shortcut was never confirmed by the host.
    assert_eq!(binder.dispatch(ShortcutAction::OpenSettings, true), None);
    binder.registration_result(ShortcutAction::OpenSettings, true);
    assert_eq!(binder.dispatch(ShortcutAction::OpenSettings, true), Some(WindowLabel::Settings));
}

#[test]
fn binding_beyond_the_table_is_none() {
    let mut binder = ShortcutBinder::new();
    assert_eq!(binder.binding(0), None);
    binder.rebind_all(&document(Some("Alt+P"), None));
    assert_eq!(
        binder.binding(0),
        Some(&ShortcutBinding {
            accelerator: "Alt+P".to_string(),
            action: ShortcutAction::OpenCommandPalette,
            bound: false,
        })
    );
    assert_eq!(binder.binding(1), None);
}

#[test]
fn actions_have_their_identifiers_and_windows() {
    assert_eq!(ShortcutAction::OpenCommandPalette.identifier(), "open-command-palette");
    assert_eq!(ShortcutAction::OpenSettings.identifier(), "open-settings");
    assert_eq!(ShortcutAction::OpenCommandPalette.window(), WindowLabel::CommandPalette);
    assert_eq!(ShortcutAction::OpenSettings.window(), WindowLabel::Settings);
}
