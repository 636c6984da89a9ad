//! The settings store: what the shell reads out of the settings document.

use crate::conf::{COMMAND_PALETTE_SHORTCUT_KEY, DEFAULT_TITLE, SETTINGS_SHORTCUT_KEY, TITLE_KEY};
use vstd::prelude::*;

verus! {

/// `serde_json::Value`, a parsed JSON text. The library carries it as it
/// is and reads it through [`json_string`] alone.
#[verifier::external_type_specification]
#[verifier::external_body]
pub struct ExJsonValue(serde_json::Value);

/// `serde_json::Error`, the reason why a text is no JSON. The library
/// hands it on and reads nothing out of it.
#[verifier::external_type_specification]
#[verifier::external_body]
pub struct ExJsonError(serde_json::Error);

/// The members of a JSON value that are strings, by their keys; empty for a
/// value that is no object.
pub uninterp spec fn json_strings(value: serde_json::Value) -> Map<Seq<char>, Seq<char>>;

/// What `serde_json::from_str` makes of `text`: the string members of the
/// value it parses to, or `None` where it reports an error.
pub uninterp spec fn json_text_strings(text: Seq<char>) -> Option<Map<Seq<char>, Seq<char>>>;

/// Calls `serde_json::from_str` for a `serde_json::Value`. Trusted: the
/// string members of the value returned are those that the library names
/// [`json_text_strings`] for `content`, and an error comes exactly where
/// that name is `None`.
#[verifier::external_body]
pub fn read_json(content: &str) -> (r: Result<serde_json::Value, serde_json::Error>)
    ensures
        match r {
            Ok(value) => json_text_strings(content@) == Some(json_strings(value)),
            Err(_) => json_text_strings(content@) is None,
        },
{
    serde_json::from_str(content)
}

/// Calls `serde_json::Value::get` with a string key and hands out the
/// member where it is a string. Trusted: the result is the entry of
/// [`json_strings`] under `key`, `None` where there is none.
#[verifier::external_body]
fn json_string(value: &serde_json::Value, key: &str) -> (r: Option<String>)
    ensures
        match r {
            Some(text) => json_strings(*value).contains_pair(key@, text@),
            None => !json_strings(*value).dom().contains(key@),
        },
{
    value.get(key).and_then(|member| member.as_str()).map(|text| text.to_string())
}

/// What the shell reads out of the settings document.
#[derive(Debug, PartialEq, Eq)]
pub struct SettingsDocument {
    /// Title of the main window.
    pub title: String,
    /// Accelerator that opens the command palette, if one is set.
    pub command_palette_shortcut: Option<String>,
    /// Accelerator that opens the settings window, if one is set.
    pub settings_shortcut: Option<String>,
}

/// Mathematical form of a [`SettingsDocument`].
pub ghost struct SettingsView {
    pub title: Seq<char>,
    pub command_palette_shortcut: Option<Seq<char>>,
    pub settings_shortcut: Option<Seq<char>>,
}

/// The text of an optional string.
pub open spec fn text_of(s: Option<String>) -> Option<Seq<char>> {
    match s {
        Some(text) => Some(text@),
        None => None,
    }
}

impl View for SettingsDocument {
    type V = SettingsView;

    open spec fn view(&self) -> SettingsView {
        SettingsView {
            title: self.title@,
            command_palette_shortcut: text_of(self.command_palette_shortcut),
            settings_shortcut: text_of(self.settings_shortcut),
        }
    }
}

/// The entry of `members` under `key`, if there is one.
pub open spec fn member(members: Map<Seq<char>, Seq<char>>, key: Seq<char>) -> Option<Seq<char>> {
    if members.dom().contains(key) {
        Some(members[key])
    } else {
        None
    }
}

/// The document made of the three recognized members: the title falls back
/// to the default title, a shortcut that is missing stays unset.
pub open spec fn document_of(
    title: Option<Seq<char>>,
    command_palette_shortcut: Option<Seq<char>>,
    settings_shortcut: Option<Seq<char>>,
) -> SettingsView {
    SettingsView {
        title: match title {
            Some(text) => text,
            None => DEFAULT_TITLE@,
        },
        command_palette_shortcut,
        settings_shortcut,
    }
}

/// The document that a settings file holds, given the string members that
/// its text parses to: for a text that does not parse, the document with
/// the default title and nothing else.
pub open spec fn settings_of(parsed: Option<Map<Seq<char>, Seq<char>>>) -> SettingsView {
    match parsed {
        Some(members) => document_of(
            member(members, TITLE_KEY@),
            member(members, COMMAND_PALETTE_SHORTCUT_KEY@),
            member(members, SETTINGS_SHORTCUT_KEY@),
        ),
        None => document_of(None, None, None),
    }
}

impl SettingsDocument {
    /// The document with these members; where `title` is missing, the
    /// default title stands in.
    pub fn from_members(
        title: Option<String>,
        command_palette_shortcut: Option<String>,
        settings_shortcut: Option<String>,
    ) -> (document: Self)
        ensures
            document@ == document_of(
                text_of(title),
                text_of(command_palette_shortcut),
                text_of(settings_shortcut),
            ),
    {
        let title = match title {
            Some(text) => text,
            None => DEFAULT_TITLE.to_owned(),
        };
        SettingsDocument { title, command_palette_shortcut, settings_shortcut }
    }
}

/// Reads the settings out of the text of the settings file. A text that is
/// no JSON gives the document with the default title and nothing else.
pub fn load_or_default(content: &str) -> (document: SettingsDocument)
    ensures
        document@ == settings_of(json_text_strings(content@)),
{
    match read_json(content) {
        Ok(value) => SettingsDocument::from_members(
            json_string(&value, TITLE_KEY),
            json_string(&value, COMMAND_PALETTE_SHORTCUT_KEY),
            json_string(&value, SETTINGS_SHORTCUT_KEY),
        ),
        Err(_) => SettingsDocument::from_members(None, None, None),
    }
}

} // verus!
