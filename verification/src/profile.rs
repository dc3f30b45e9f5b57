//! Saved mouse configuration profiles.
//!
//! Persistent storage lives with the host application; this module only
//! defines the profile value itself and its factory default.

use vstd::prelude::*;

use crate::device::{ButtonAction, PollingRate, G502_BUTTON_COUNT};

verus! {

/// A saved mouse configuration profile.
#[derive(Debug, Clone)]
pub struct Profile {
    /// Profile display name.
    pub name: String,
    /// DPI setting.
    pub dpi: u16,
    /// Polling rate.
    pub polling_rate: PollingRate,
    /// Button mappings: index is the physical button, value the action.
    pub buttons: Vec<ButtonAction>,
}

impl Default for Profile {
    /// The factory default configuration: 800 DPI, 1000 Hz, and each of
    /// the six buttons on its standard action.
    fn default() -> (r: Self)
        ensures
            r.name@ == "Default"@,
            r.dpi == 800,
            r.polling_rate == PollingRate::Hz1000,
            r.buttons@ == seq![
                ButtonAction::LeftClick,
                ButtonAction::RightClick,
                ButtonAction::MiddleClick,
                ButtonAction::Back,
                ButtonAction::Forward,
                ButtonAction::DpiCycleUp,
            ],
            r.buttons@.len() == G502_BUTTON_COUNT,
    {
        Self {
            name: "Default".to_owned(),
            dpi: 800,
            polling_rate: PollingRate::Hz1000,
            buttons: vec![
                ButtonAction::LeftClick,
                ButtonAction::RightClick,
                ButtonAction::MiddleClick,
                ButtonAction::Back,
                ButtonAction::Forward,
                ButtonAction::DpiCycleUp,
            ],
        }
    }
}

} // verus!
