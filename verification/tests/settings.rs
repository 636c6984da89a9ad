use hackdesk::conf::{DEFAULT_SETTINGS, DEFAULT_TITLE};
use hackdesk::settings::{load_or_default, read_json, SettingsDocument};

#[test]
fn default_settings_round_trip_to_the_default_title() {
    let document = load_or_default(DEFAULT_SETTINGS);
    assert_eq!(document.title, DEFAULT_TITLE);
    assert_eq!(document.title, "HackDesk");
}

#[test]
fn default_settings_hold_both_shortcuts() {
    let document = load_or_default(DEFAULT_SETTINGS);
    assert_eq!(document.command_palette_shortcut, Some("CmdOrCtrl+K".to_string()));
    assert_eq!(document.settings_shortcut, Some("CmdOrCtrl+,".to_string()));
}

#[test]
fn load_reads_the_recognized_keys() {
    let document = load_or_default(
        r#"{"title": "Notes", "shortcut.command-palette": "Alt+P", "shortcut.settings": "Alt+S"}"#,
    );
    assert_eq!(
        document,
        SettingsDocument {
            title: "Notes".to_string(),
            command_palette_shortcut: Some("Alt+P".to_string()),
            settings_shortcut: Some("Alt+S".to_string()),
        }
    );
}

#[test]
fn load_ignores_unknown_keys() {
    let document = load_or_default(r#"{"theme": "dark", "title": "Notes", "zoom": 1.5}"#);
    assert_eq!(
        document,
        SettingsDocument {
            title: "Notes".to_string(),
            command_palette_shortcut: None,
            settings_shortcut: None,
        }
    );
}

#[test]
fn load_falls_back_to_the_default_title() {
    let document = load_or_default(r#"{"shortcut.settings": "Alt+S"}"#);
    assert_eq!(document.title, "HackDesk");
    assert_eq!(document.command_palette_shortcut, None);
    assert_eq!(document.settings_shortcut, Some("Alt+S".to_string()));
}

#[test]
fn load_passes_over_members_that_are_no_strings() {
    let document = load_or_default(
        r#"{"title": 7, "shortcut.command-palette": null, "shortcut.settings": ["Alt+S"]}"#,
    );
    assert_eq!(document, SettingsDocument::from_members(None, None, None));
}

#[test]
fn load_absorbs_a_corrupt_file() {
    for text in ["", "{", "{\"title\": \"Notes\"", "title = Notes", "{\"title\": \"Notes\"} trailing"] {
        assert_eq!(
            load_or_default(text),
            SettingsDocument {
                title: "HackDesk".to_string(),
                command_palette_shortcut: None,
                settings_shortcut: None,
            }
        );
    }
}

#[test]
fn load_of_a_value_that_is_no_object_gives_the_defaults() {
    for text in ["[]", "\"title\"", "42", "null"] {
        assert_eq!(load_or_default(text), SettingsDocument::from_members(None, None, None));
    }
}

#[test]
fn load_keeps_an_empty_shortcut_as_it_is() {
    let document = load_or_default(r#"{"title": "", "shortcut.settings": ""}"#);
    assert_eq!(document.title, "");
    assert_eq!(document.settings_shortcut, Some(String::new()));
}

#[test]
fn from_members_defaults_the_title_only() {
    assert_eq!(
        SettingsDocument::from_members(None, Some("Alt+P".to_string()), None),
        SettingsDocument {
            title: "HackDesk".to_string(),
            command_palette_shortcut: Some("Alt+P".to_string()),
            settings_shortcut: None,
        }
    );
    assert_eq!(
        SettingsDocument::from_members(Some("T".to_string()), None, Some("Alt+S".to_string())),
        SettingsDocument {
            title: "T".to_string(),
            command_palette_shortcut: None,
            settings_shortcut: Some("Alt+S".to_string()),
        }
    );
}

#[test]
fn read_json_tells_json_from_other_text() {
    assert!(read_json("{\"a\": [1, 2, {\"b\": null}]}").is_ok());
    assert!(read_json("{\"a\": }").is_err());
    assert!(read_json("").is_err());
    let value = read_json(DEFAULT_SETTINGS).unwrap();
    assert_eq!(value["title"], "HackDesk");
}
