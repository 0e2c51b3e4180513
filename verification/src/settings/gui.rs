//! The graphical front end's settings: the common settings plus window
//! geometry and interface state, with their normalization and validation.

use vstd::prelude::*;
use crate::error::ConfigError;
use crate::settings::common::{common_default, common_valid, normalized_common, CommonSettings, CommonSettingsView};
use crate::strutil::str_eq;

verus! {

/// The graphical front end's settings.
#[derive(Debug)]
pub struct GuiSettings {
    /// The settings shared with the command-line front end.
    pub common: CommonSettings,
    /// The open tab: `canvas` or `repo`.
    pub active_tab: String,
    pub config_locked: bool,
    pub options_locked: bool,
    pub window_width: u32,
    pub window_height: u32,
    pub window_x: i32,
    pub window_y: i32,
}

/// The abstract value of a `GuiSettings`.
pub struct GuiSettingsView {
    pub common: CommonSettingsView,
    pub active_tab: Seq<char>,
    pub config_locked: bool,
    pub options_locked: bool,
    pub window_width: u32,
    pub window_height: u32,
    pub window_x: i32,
    pub window_y: i32,
}

impl View for GuiSettings {
    type V = GuiSettingsView;

    open spec fn view(&self) -> GuiSettingsView {
        GuiSettingsView {
            common: self.common@,
            active_tab: self.active_tab@,
            config_locked: self.config_locked,
            options_locked: self.options_locked,
            window_width: self.window_width,
            window_height: self.window_height,
            window_x: self.window_x,
            window_y: self.window_y,
        }
    }
}

/// The default graphical settings as an abstract value.
pub open spec fn gui_default() -> GuiSettingsView {
    GuiSettingsView {
        common: common_default(),
        active_tab: "canvas"@,
        config_locked: true,
        options_locked: true,
        window_width: 0,
        window_height: 0,
        window_x: 0,
        window_y: 0,
    }
}

impl Default for GuiSettings {
    /// The settings the graphical front end starts from.
    fn default() -> (r: GuiSettings)
        ensures
            r@ == gui_default(),
    {
        GuiSettings {
            common: CommonSettings::default(),
            active_tab: crate::settings::defaults::active_tab(),
            config_locked: true,
            options_locked: true,
            window_width: 0,
            window_height: 0,
            window_x: 0,
            window_y: 0,
        }
    }
}

impl GuiSettings {
    /// Fresh graphical settings, all at their defaults.
    pub fn new() -> (r: GuiSettings)
        ensures
            r@ == gui_default(),
    {
        GuiSettings::default()
    }

    /// Graphical settings wrapped around existing common settings, with
    /// the graphical-only values at their defaults.
    pub fn from_common(common: CommonSettings) -> (r: GuiSettings)
        ensures
            r@ == (GuiSettingsView { common: common@, ..gui_default() }),
    {
        GuiSettings {
            common,
            active_tab: crate::settings::defaults::active_tab(),
            config_locked: true,
            options_locked: true,
            window_width: 0,
            window_height: 0,
            window_x: 0,
            window_y: 0,
        }
    }
}

/// Whether the graphical settings hold allowed values.
pub open spec fn gui_valid(v: GuiSettingsView) -> bool {
    &&& common_valid(v.common)
    &&& (v.active_tab == "canvas"@ || v.active_tab == "repo"@)
}

impl GuiSettings {
    /// Strips trailing slashes from the three base URLs.
    pub fn normalize(&mut self)
        ensures
            final(self)@ == (GuiSettingsView {
                common: normalized_common(old(self)@.common),
                ..old(self)@
            }),
    {
        self.common.normalize();
    }

    /// Checks the enumerated settings, the common ones and the tab choice.
    pub fn validate(&self) -> (r: Result<(), ConfigError>)
        ensures
            r is Ok <==> gui_valid(self@),
    {
        let tab_ok = str_eq(self.active_tab.as_str(), "canvas") || str_eq(
            self.active_tab.as_str(),
            "repo",
        );
        match self.common.validate() {
            Ok(()) => {
                if tab_ok {
                    Ok(())
                } else {
                    let mut msgs: Vec<String> = Vec::new();
                    msgs.push(String::from_str("active_tab must be canvas or repo"));
                    Err(ConfigError::ValidationFailed(msgs))
                }
            },
            Err(e) => Err(e),
        }
    }
}

} // verus!
