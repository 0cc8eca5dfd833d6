use jonect::settings::{settings_file_name_str, Settings, SettingsError, SettingsFileAction, SettingsFileEvent, SettingsManager};

fn open(events: Vec<SettingsFileEvent>) -> Vec<SettingsFileAction> {
    events.into_iter().map(SettingsManager::load_or_create_settings_file).collect()
}

#[test]
fn missing_file_is_created_then_loaded() {
    let actions = open(vec![
        SettingsFileEvent::Checked { file_exists: false },
        SettingsFileEvent::DefaultSaved(Ok(())),
        SettingsFileEvent::Loaded(Ok(Settings::default())),
    ]);
    assert!(matches!(actions[0], SettingsFileAction::SaveDefault));
    assert!(matches!(actions[1], SettingsFileAction::Load));
    match &actions[2] {
        SettingsFileAction::Finish(Ok(m)) => {
            assert_eq!(*m.get(), Settings { test: false });
            assert!(m.save_if_changed().is_none());
        }
        _ => panic!("settings not loaded"),
    }
}

#[test]
fn existing_file_is_loaded() {
    let actions = open(vec![SettingsFileEvent::Checked { file_exists: true }]);
    assert!(matches!(actions[0], SettingsFileAction::Load));
}

#[test]
fn save_and_load_errors_end_opening() {
    let e = std::io::Error::new(std::io::ErrorKind::PermissionDenied, "x");
    let a = SettingsManager::load_or_create_settings_file(SettingsFileEvent::DefaultSaved(Err(SettingsError::Save(e))));
    assert!(matches!(a, SettingsFileAction::Finish(Err(SettingsError::Save(_)))));
    let parse_error = toml::from_str::<toml::Value>("= =").err().unwrap();
    let a = SettingsManager::load_or_create_settings_file(SettingsFileEvent::Loaded(Err(SettingsError::ParseToml(parse_error))));
    assert!(matches!(a, SettingsFileAction::Finish(Err(SettingsError::ParseToml(_)))));
}

#[test]
fn modified_settings_are_saved() {
    let m = SettingsManager::load_or_create_settings_file(SettingsFileEvent::Loaded(Ok(Settings { test: false })));
    let mut m = match m {
        SettingsFileAction::Finish(Ok(m)) => m,
        _ => panic!("settings not loaded"),
    };
    m.modify().test = true;
    assert_eq!(m.save_if_changed(), Some(&Settings { test: true }));
    assert_eq!(*m.get(), Settings { test: true });
}

#[test]
fn settings_file_name() {
    assert_eq!(settings_file_name_str(), "jonect_settings.toml");
}
