//! Where settings live on disk and how loading failures are handled.
//!
//! The manager resolves the platform configuration directory and tracks
//! which file the settings are kept in.  Reading and writing the file is
//! the caller's work; the decisions around it — the resolved paths, the
//! fallback to defaults — are verified here.

use vstd::prelude::*;
use crate::error::ConfigError;
use crate::settings::gui::{gui_default, GuiSettings};

verus! {

/// Relies on `directories::ProjectDirs::from` and its `config_dir`: the
/// platform configuration directory for an application.  The result
/// depends on the environment, so nothing is promised of it.
#[verifier::external_body]
fn project_config_dir(qualifier: &str, organization: &str, application: &str) -> Option<String> {
    directories::ProjectDirs::from(qualifier, organization, application).map(
        |d| d.config_dir().to_string_lossy().into_owned(),
    )
}

/// Relies on `dirs::config_dir`: the user's configuration directory.  The
/// result depends on the environment, so nothing is promised of it.
#[verifier::external_body]
fn os_config_dir() -> Option<String> {
    dirs::config_dir().map(|d| d.to_string_lossy().into_owned())
}

/// Relies on `std::path::Path::exists`: a filesystem probe.  The result
/// depends on what is on disk, so nothing is promised of it.
#[verifier::external_body]
fn path_exists(p: &String) -> bool {
    std::path::Path::new(p.as_str()).exists()
}

/// Tracks which file the settings are kept in: a default location under
/// the configuration directory, or an explicit override.
#[derive(Debug)]
pub struct LocationManager {
    pub config_dir: String,
    pub app_name: String,
    pub override_path: Option<String>,
}

/// The abstract value of a `LocationManager`.
pub struct LocationView {
    pub config_dir: Seq<char>,
    pub app_name: Seq<char>,
    pub override_path: Option<Seq<char>>,
}

impl View for LocationManager {
    type V = LocationView;

    open spec fn view(&self) -> LocationView {
        LocationView {
            config_dir: self.config_dir@,
            app_name: self.app_name@,
            override_path: match self.override_path {
                Some(ref p) => Some(p@),
                None => None,
            },
        }
    }
}

/// The settings file a location points at: the override when one is set,
/// otherwise `settings.json` under the configuration directory.
pub open spec fn settings_path_spec(lm: LocationView) -> Seq<char> {
    match lm.override_path {
        Some(p) => p,
        None => lm.config_dir + "/settings.json"@,
    }
}

impl LocationManager {
    /// A location at its default, under the given configuration directory.
    pub fn new(config_dir: &String, app_name: &str) -> (r: LocationManager)
        ensures
            r@.config_dir == config_dir@,
            r@.app_name == app_name@,
            r@.override_path is None,
    {
        LocationManager {
            config_dir: config_dir.clone(),
            app_name: app_name.to_owned(),
            override_path: None,
        }
    }

    /// The default settings file path, ignoring any override.
    pub fn default_settings_file_path(&self) -> (r: String)
        ensures
            r@ == self@.config_dir + "/settings.json"@,
    {
        let mut p = self.config_dir.clone();
        p.append("/settings.json");
        p
    }

    /// The settings file currently pointed at.
    pub fn settings_path(&self) -> (r: String)
        ensures
            r@ == settings_path_spec(self@),
    {
        match &self.override_path {
            Some(p) => p.clone(),
            None => self.default_settings_file_path(),
        }
    }

    /// Points the location at an explicit file.
    pub fn save(&mut self, path: &String)
        ensures
            final(self)@ == (LocationView { override_path: Some(path@), ..old(self)@ }),
    {
        self.override_path = Some(path.clone());
    }

    /// Returns the location to its default.
    pub fn reset(&mut self)
        ensures
            final(self)@ == (LocationView { override_path: None, ..old(self)@ }),
    {
        self.override_path = None;
    }
}

/// How a failing load is answered.
pub enum LoadStrategy {
    /// Any failure is reported to the caller.
    Strict,
    /// Any failure falls back to the default settings.
    DefaultOnError,
}

/// Knows where the settings live and how to fall back when loading them
/// fails.  Reading, writing and creating directories stay with the caller.
#[derive(Debug)]
pub struct SettingsManager {
    pub config_dir: String,
    pub location_manager: LocationManager,
}

fn get_config_dir() -> (r: Result<String, ConfigError>)
    ensures
        r matches Err(e) ==> e matches ConfigError::ConfigDirUnavailable,
{
    match project_config_dir("", "", "repobee-tauri") {
        Some(d) => Ok(d),
        None => match os_config_dir() {
            Some(d) => {
                let mut p = d;
                p.append("/repobee-tauri");
                Ok(p)
            },
            None => Err(ConfigError::ConfigDirUnavailable),
        },
    }
}

impl SettingsManager {
    /// Resolves the platform configuration directory and starts at the
    /// default settings location under it.  Creating the directory on disk
    /// is the caller's work.
    pub fn new() -> (r: Result<SettingsManager, ConfigError>)
        ensures
            match r {
                Ok(m) => {
                    &&& m.location_manager@.config_dir == m.config_dir@
                    &&& m.location_manager@.app_name == "repobee"@
                    &&& m.location_manager@.override_path is None
                },
                Err(e) => e matches ConfigError::ConfigDirUnavailable,
            },
    {
        let config_dir = match get_config_dir() {
            Ok(d) => d,
            Err(e) => {
                return Err(e);
            },
        };
        let location_manager = LocationManager::new(&config_dir, "repobee");
        Ok(SettingsManager { config_dir, location_manager })
    }

    /// The file the settings are kept in.
    pub fn settings_file_path(&self) -> (r: String)
        ensures
            r@ == settings_path_spec(self.location_manager@),
    {
        self.location_manager.settings_path()
    }

    /// The configuration directory the manager resolved.
    pub fn config_dir_path(&self) -> (r: &String)
        ensures
            r@ == self.config_dir@,
    {
        &self.config_dir
    }

    /// The location manager itself.
    pub fn location_manager(&self) -> (r: &LocationManager)
        ensures
            r == &self.location_manager,
    {
        &self.location_manager
    }

    /// Returns the settings file location to its default.
    pub fn reset_location(&mut self)
        ensures
            final(self).config_dir == old(self).config_dir,
            final(self).location_manager@ == (LocationView {
                override_path: None,
                ..old(self).location_manager@
            }),
    {
        self.location_manager.reset();
    }

    /// Whether the settings file currently exists on disk.
    pub fn settings_exist(&self) -> bool {
        let path = self.settings_file_path();
        path_exists(&path)
    }

    /// The default settings, for the caller to persist: resetting never
    /// depends on what was stored before.
    pub fn reset(&self) -> (r: GuiSettings)
        ensures
            r@ == gui_default(),
    {
        GuiSettings::default()
    }

    /// Applies a load strategy to a load outcome: strict loading reports
    /// the failure, lenient loading falls back to the defaults.
    pub fn load_with_strategy(&self, loaded: Result<GuiSettings, ConfigError>, strategy: LoadStrategy) -> (r: Result<
        GuiSettings,
        ConfigError,
    >)
        ensures
            match strategy {
                LoadStrategy::Strict => r == loaded,
                LoadStrategy::DefaultOnError => match loaded {
                    Ok(s) => r == Ok::<GuiSettings, ConfigError>(s),
                    Err(_) => r matches Ok(s) && s@ == gui_default(),
                },
            },
    {
        match loaded {
            Ok(s) => Ok(s),
            Err(e) => match strategy {
                LoadStrategy::Strict => Err(e),
                LoadStrategy::DefaultOnError => Ok(GuiSettings::default()),
            },
        }
    }

    /// Applies the lenient strategy: a failed load becomes the defaults.
    pub fn load_or_default(&self, loaded: Result<GuiSettings, ConfigError>) -> (r: GuiSettings)
        ensures
            match loaded {
                Ok(s) => r == s,
                Err(_) => r@ == gui_default(),
            },
    {
        match self.load_with_strategy(loaded, LoadStrategy::DefaultOnError) {
            Ok(s) => s,
            Err(e) => GuiSettings::default(),
        }
    }
}

} // verus!
