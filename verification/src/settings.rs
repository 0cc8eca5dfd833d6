//! The settings file: what is in it, and when it is created, loaded and
//! saved. Reading and writing the file, and its TOML form, belong to the
//! program around the library.
use vstd::prelude::*;

verus! {

/// The name of the settings file.
pub open spec fn settings_file_name() -> Seq<char> {
    "jonect_settings.toml"@
}

/// The name of the settings file.
pub fn settings_file_name_str() -> (r: &'static str)
    ensures
        r@ == settings_file_name(),
{
    "jonect_settings.toml"
}

/// The program's settings.
#[derive(Debug, PartialEq, Eq, Structural)]
pub struct Settings {
    pub test: bool,
}

impl Default for Settings {
    /// The settings that a new settings file holds.
    fn default() -> (r: Self)
        ensures
            !r.test,
    {
        Settings { test: false }
    }
}

/// Why the settings file could not be used.
#[derive(Debug)]
pub enum SettingsError {
    Read(std::io::Error),
    Save(std::io::Error),
    ParseToml(toml::de::Error),
    SerializeToml(toml::ser::Error),
}

/// One step of opening the settings file.
#[derive(Debug)]
pub enum SettingsFileEvent {
    /// Whether the settings file exists.
    Checked { file_exists: bool },
    /// Result of saving the default settings.
    DefaultSaved(Result<(), SettingsError>),
    /// Result of loading the settings file.
    Loaded(Result<Settings, SettingsError>),
}

/// What to do next when opening the settings file.
#[derive(Debug)]
pub enum SettingsFileAction {
    /// Save the default settings into a new settings file.
    SaveDefault,
    /// Load the settings file.
    Load,
    /// Done: the settings, or why they could not be had.
    Finish(Result<SettingsManager, SettingsError>),
}

/// The loaded settings and whether they were changed since.
#[derive(Debug)]
pub struct SettingsManager {
    changed: bool,
    settings: Settings,
}

impl SettingsManager {
    /// Whether the settings were handed out for changing.
    pub closed spec fn spec_changed(&self) -> bool {
        self.changed
    }

    /// The settings.
    pub closed spec fn spec_settings(&self) -> Settings {
        self.settings
    }

    /// Opening the settings file, one step at a time: a missing file is
    /// first created with the default settings; then the file is loaded.
    /// The first error ends the opening; loaded settings count as
    /// unchanged.
    pub fn load_or_create_settings_file(event: SettingsFileEvent) -> (r: SettingsFileAction)
        ensures
            event matches SettingsFileEvent::Checked { file_exists } ==> (if file_exists {
                r is Load
            } else {
                r is SaveDefault
            }),
            event matches SettingsFileEvent::DefaultSaved(Ok(())) ==> r is Load,
            event matches SettingsFileEvent::DefaultSaved(Err(e)) ==> r == SettingsFileAction::Finish(
                Err(e),
            ),
            event matches SettingsFileEvent::Loaded(Ok(s)) ==> (r matches SettingsFileAction::Finish(
                Ok(m),
            ) && !m.spec_changed() && m.spec_settings() == s),
            event matches SettingsFileEvent::Loaded(Err(e)) ==> r == SettingsFileAction::Finish(
                Err(e),
            ),
    {
        match event {
            SettingsFileEvent::Checked { file_exists } => {
                if file_exists {
                    SettingsFileAction::Load
                } else {
                    SettingsFileAction::SaveDefault
                }
            },
            SettingsFileEvent::DefaultSaved(Ok(())) => SettingsFileAction::Load,
            SettingsFileEvent::DefaultSaved(Err(e)) => SettingsFileAction::Finish(Err(e)),
            SettingsFileEvent::Loaded(Ok(settings)) => {
                SettingsFileAction::Finish(Ok(SettingsManager { changed: false, settings }))
            },
            SettingsFileEvent::Loaded(Err(e)) => SettingsFileAction::Finish(Err(e)),
        }
    }

    /// The manager once its settings were handed out for changing and
    /// became `settings`.
    pub closed spec fn spec_after_modify(self, settings: Settings) -> Self {
        SettingsManager { changed: true, settings }
    }

    /// The settings for changing; they count as changed from now on.
    pub fn modify(&mut self) -> (r: &mut Settings)
        ensures
            *r == old(self).spec_settings(),
            *final(self) == old(self).spec_after_modify(*final(r)),
            final(self).spec_changed(),
            final(self).spec_settings() == *final(r),
    {
        self.changed = true;
        &mut self.settings
    }

    /// The settings.
    pub fn get(&self) -> (r: &Settings)
        ensures
            *r == self.spec_settings(),
    {
        &self.settings
    }

    /// The settings that saving writes to the settings file, if any.
    pub open spec fn spec_to_save(&self) -> Option<Settings> {
        if self.spec_changed() {
            Some(self.spec_settings())
        } else {
            None
        }
    }

    /// The settings to write to the settings file: those of a manager whose
    /// settings were handed out for changing; none when nothing changed.
    pub fn save_if_changed(&self) -> (r: Option<&Settings>)
        ensures
            self.spec_changed() ==> r == Some(&self.spec_settings()),
            !self.spec_changed() ==> r is None,
            match r {
                Some(s) => self.spec_to_save() == Some(*s),
                None => self.spec_to_save() is None,
            },
    {
        if self.changed {
            Some(&self.settings)
        } else {
            None
        }
    }
}

/// Settings handed out for changing are saved, as they were left; loaded
/// settings that nobody changed are not written back.
pub proof fn law_changed_settings_are_saved(m: SettingsManager, settings: Settings)
    ensures
        m.spec_after_modify(settings).spec_to_save() == Some(settings),
        m.spec_to_save() is Some ==> m.spec_to_save() == Some(m.spec_settings()),
        !m.spec_changed() ==> m.spec_to_save() is None,
{
}

} // verus!
