use hackdesk::window::{
    OpenStep, WindowConfig, WindowEffect, WindowError, WindowEvent, WindowHandle, WindowLabel,
    WindowRegistry, WindowSlot,
};

const LABELS: [WindowLabel; 3] =
    [WindowLabel::Main, WindowLabel::CommandPalette, WindowLabel::Settings];

#[test]
fn labels_have_their_text() {
    assert_eq!(WindowLabel::Main.as_str(), "main");
    assert_eq!(WindowLabel::CommandPalette.as_str(), "command-palette");
    assert_eq!(WindowLabel::Settings.as_str(), "settings");
    for label in LABELS {
        assert_eq!(WindowLabel::parse(label.as_str()), Some(label));
    }
    assert_eq!(WindowLabel::parse("setting"), None);
    assert_eq!(WindowLabel::parse(""), None);
}

#[test]
fn new_registry_has_no_windows() {
    let registry = WindowRegistry::new();
    for label in LABELS {
        assert_eq!(registry.lookup(label), WindowSlot::Vacant);
        assert_eq!(registry.get(label), None);
    }
}

#[test]
fn open_singleton_twice_creates_one_window() {
    for label in LABELS {
        let mut registry = WindowRegistry::new();
        let first = registry.open_singleton(label, WindowConfig::standard(label));
        assert_eq!(first, OpenStep::Create(WindowConfig::standard(label)));
        let second = registry.open_singleton(label, WindowConfig::standard(label));
        assert_eq!(second, OpenStep::InProgress);
        assert_eq!(registry.window_created(label, Ok(WindowHandle { id: 4 })), Ok(WindowHandle { id: 4 }));
        let third = registry.open_singleton(label, WindowConfig::standard(label));
        assert_eq!(third, OpenStep::Existing(WindowHandle { id: 4 }));
        assert_eq!(registry.get(label), Some(WindowHandle { id: 4 }));
        let live = LABELS.iter().filter(|l| registry.get(**l).is_some()).count();
        assert_eq!(live, 1);
    }
}

#[test]
fn open_singleton_hands_the_given_build_on() {
    let mut registry = WindowRegistry::new();
    let config = WindowConfig {
        url: "/about".to_string(),
        width: 320,
        height: 200,
        title: Some("About".to_string()),
        center: true,
        always_on_top: false,
        resizable: false,
        transparent: false,
    };
    let expected = WindowConfig {
        url: "/about".to_string(),
        width: 320,
        height: 200,
        title: Some("About".to_string()),
        center: true,
        always_on_top: false,
        resizable: false,
        transparent: false,
    };
    assert_eq!(registry.open_singleton(WindowLabel::Settings, config), OpenStep::Create(expected));
    assert_eq!(registry.lookup(WindowLabel::Settings), WindowSlot::Pending);
    assert_eq!(registry.lookup(WindowLabel::Main), WindowSlot::Vacant);
}

#[test]
fn failed_creation_leaves_no_entry() {
    let mut registry = WindowRegistry::new();
    registry.open_singleton(WindowLabel::Settings, WindowConfig::standard(WindowLabel::Settings));
    assert_eq!(
        registry.window_created(WindowLabel::Settings, Err("out of handles".to_string())),
        Err(WindowError::CreationFailed("out of handles".to_string()))
    );
    assert_eq!(registry.lookup(WindowLabel::Settings), WindowSlot::Vacant);
    // The label is free again.
    assert_eq!(
        registry.open_singleton(WindowLabel::Settings, WindowConfig::standard(WindowLabel::Settings)),
        OpenStep::Create(WindowConfig::standard(WindowLabel::Settings))
    );
}

#[test]
fn answer_that_was_not_waited_for_changes_nothing() {
    let mut registry = WindowRegistry::new();
    assert_eq!(
        registry.window_created(WindowLabel::Main, Ok(WindowHandle { id: 1 })),
        Err(WindowError::NotRequested)
    );
    assert_eq!(registry.lookup(WindowLabel::Main), WindowSlot::Vacant);
    registry.open_singleton(WindowLabel::Main, WindowConfig::standard(WindowLabel::Main));
    registry.window_created(WindowLabel::Main, Ok(WindowHandle { id: 1 })).unwrap();
    assert_eq!(
        registry.window_created(WindowLabel::Main, Ok(WindowHandle { id: 2 })),
        Err(WindowError::NotRequested)
    );
    assert_eq!(
        registry.window_created(WindowLabel::Main, Err("late".to_string())),
        Err(WindowError::NotRequested)
    );
    assert_eq!(registry.get(WindowLabel::Main), Some(WindowHandle { id: 1 }));
}

#[test]
fn close_names_the_live_window_and_is_silent_without_one() {
    let mut registry = WindowRegistry::new();
    assert_eq!(registry.close(WindowLabel::Settings), WindowEffect::Nothing);
    registry.open_singleton(WindowLabel::Settings, WindowConfig::standard(WindowLabel::Settings));
    assert_eq!(registry.close(WindowLabel::Settings), WindowEffect::Nothing);
    registry.window_created(WindowLabel::Settings, Ok(WindowHandle { id: 9 })).unwrap();
    assert_eq!(registry.close(WindowLabel::Settings), WindowEffect::Close(WindowHandle { id: 9 }));
    assert_eq!(registry.close(WindowLabel::Main), WindowEffect::Nothing);
}

#[test]
fn command_palette_closes_when_it_loses_focus() {
    let mut registry = WindowRegistry::new();
    registry.open_singleton(
        WindowLabel::CommandPalette,
        WindowConfig::standard(WindowLabel::CommandPalette),
    );
    registry.window_created(WindowLabel::CommandPalette, Ok(WindowHandle { id: 3 })).unwrap();
    assert_eq!(
        registry.on_window_event(WindowLabel::CommandPalette, WindowEvent::Focused(true)),
        WindowEffect::Nothing
    );
    assert_eq!(
        registry.on_window_event(WindowLabel::CommandPalette, WindowEvent::Focused(false)),
        WindowEffect::Close(WindowHandle { id: 3 })
    );
    // The window stays registered until the host reports it destroyed.
    assert_eq!(registry.get(WindowLabel::CommandPalette), Some(WindowHandle { id: 3 }));
    assert_eq!(
        registry.on_window_event(WindowLabel::CommandPalette, WindowEvent::Destroyed),
        WindowEffect::Nothing
    );
    assert_eq!(registry.lookup(WindowLabel::CommandPalette), WindowSlot::Vacant);
    assert_eq!(
        registry.on_window_event(WindowLabel::CommandPalette, WindowEvent::Focused(false)),
        WindowEffect::Nothing
    );
}

#[test]
fn other_windows_stay_open_without_focus() {
    let mut registry = WindowRegistry::new();
    for (id, label) in [(1, WindowLabel::Main), (2, WindowLabel::Settings)] {
        registry.open_singleton(label, WindowConfig::standard(label));
        registry.window_created(label, Ok(WindowHandle { id })).unwrap();
        assert_eq!(
            registry.on_window_event(label, WindowEvent::Focused(false)),
            WindowEffect::Nothing
        );
        assert_eq!(registry.get(label), Some(WindowHandle { id }));
    }
}

#[test]
fn destroyed_settings_window_applies_the_settings() {
    let mut registry = WindowRegistry::new();
    registry.open_singleton(WindowLabel::Settings, WindowConfig::standard(WindowLabel::Settings));
    registry.window_created(WindowLabel::Settings, Ok(WindowHandle { id: 5 })).unwrap();
    assert_eq!(
        registry.on_window_event(WindowLabel::Settings, WindowEvent::Destroyed),
        WindowEffect::ApplySettings
    );
    assert_eq!(registry.lookup(WindowLabel::Settings), WindowSlot::Vacant);
    // A second report of the same end does nothing.
    assert_eq!(
        registry.on_window_event(WindowLabel::Settings, WindowEvent::Destroyed),
        WindowEffect::Nothing
    );
}

#[test]
fn destroyed_main_window_leaves_the_registry() {
    let mut registry = WindowRegistry::new();
    registry.open_singleton(WindowLabel::Main, WindowConfig::standard(WindowLabel::Main));
    registry.window_created(WindowLabel::Main, Ok(WindowHandle { id: 1 })).unwrap();
    assert_eq!(
        registry.on_window_event(WindowLabel::Main, WindowEvent::Destroyed),
        WindowEffect::Nothing
    );
    assert_eq!(registry.get(WindowLabel::Main), None);
}

#[test]
fn standard_builds() {
    assert_eq!(
        WindowConfig::standard(WindowLabel::Main),
        WindowConfig {
            url: "https://hackmd.io/login".to_string(),
            width: 800,
            height: 600,
            title: Some("HackDesk".to_string()),
            center: false,
            always_on_top: false,
            resizable: true,
            transparent: false,
        }
    );
    assert_eq!(
        WindowConfig::standard(WindowLabel::CommandPalette),
        WindowConfig {
            url: "/command-palette".to_string(),
            width: 560,
            height: 312,
            title: None,
            center: false,
            always_on_top: true,
            resizable: false,
            transparent: true,
        }
    );
    assert_eq!(
        WindowConfig::standard(WindowLabel::Settings),
        WindowConfig {
            url: "/settings".to_string(),
            width: 800,
            height: 600,
            title: Some("Settings".to_string()),
            center: true,
            always_on_top: false,
            resizable: true,
            transparent: false,
        }
    );
}
