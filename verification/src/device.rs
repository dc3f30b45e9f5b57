//! Device model: supported mouse models, polling rates and button actions.

use vstd::prelude::*;

use crate::pids;
use crate::text::{eq_ci, spec_lower};

verus! {

/// Number of programmable buttons on a G502.
pub const G502_BUTTON_COUNT: usize = 6;

/// Supported Logitech mouse models.
#[derive(Debug, Clone, Copy, PartialEq, Eq, Structural)]
pub enum MouseModel {
    G502Lightspeed,
    G502Hero,
}

/// The model a USB product ID names, if any.
pub open spec fn spec_model_from_pid(pid: u16) -> Option<MouseModel> {
    if pid == pids::G502_LIGHTSPEED {
        Some(MouseModel::G502Lightspeed)
    } else if pid == pids::G502_HERO {
        Some(MouseModel::G502Hero)
    } else {
        None
    }
}

impl MouseModel {
    /// Look up a model from its USB product ID.
    pub fn from_pid(pid: u16) -> (r: Option<Self>)
        ensures
            r == spec_model_from_pid(pid),
    {
        if pid == pids::G502_LIGHTSPEED {
            Some(Self::G502Lightspeed)
        } else if pid == pids::G502_HERO {
            Some(Self::G502Hero)
        } else {
            None
        }
    }

    /// Human-readable model name.
    pub fn name(&self) -> (r: &'static str)
        ensures
            *self is G502Lightspeed ==> r@ == "Logitech G502 Lightspeed"@,
            *self is G502Hero ==> r@ == "Logitech G502 HERO"@,
    {
        match self {
            Self::G502Lightspeed => "Logitech G502 Lightspeed",
            Self::G502Hero => "Logitech G502 HERO",
        }
    }

    /// USB product ID of the model.
    pub fn pid(&self) -> (r: u16)
        ensures
            spec_model_from_pid(r) == Some(*self),
    {
        match self {
            Self::G502Lightspeed => pids::G502_LIGHTSPEED,
            Self::G502Hero => pids::G502_HERO,
        }
    }
}

/// Information about a discovered Logitech device.
#[derive(Debug, Clone)]
pub struct DeviceInfo {
    pub model: MouseModel,
    pub vid: u16,
    pub pid: u16,
    pub path: String,
    pub serial: Option<String>,
}

/// Polling rate options supported by G502 mice.
#[derive(Debug, Clone, Copy, PartialEq, Eq, Hash, Structural)]
pub enum PollingRate {
    Hz125,
    Hz250,
    Hz500,
    Hz1000,
}

/// The Hz value of a polling rate.
pub open spec fn spec_rate_hz(rate: PollingRate) -> u16 {
    match rate {
        PollingRate::Hz125 => 125,
        PollingRate::Hz250 => 250,
        PollingRate::Hz500 => 500,
        PollingRate::Hz1000 => 1000,
    }
}

/// The polling rate a raw Hz value names, if any.
pub open spec fn spec_rate_from_hz(hz: u16) -> Option<PollingRate> {
    if hz == 125 {
        Some(PollingRate::Hz125)
    } else if hz == 250 {
        Some(PollingRate::Hz250)
    } else if hz == 500 {
        Some(PollingRate::Hz500)
    } else if hz == 1000 {
        Some(PollingRate::Hz1000)
    } else {
        None
    }
}

impl PollingRate {
    /// Convert from a raw Hz value; only the enumerated rates succeed.
    pub fn from_hz(hz: u16) -> (r: Option<Self>)
        ensures
            r == spec_rate_from_hz(hz),
    {
        if hz == 125 {
            Some(Self::Hz125)
        } else if hz == 250 {
            Some(Self::Hz250)
        } else if hz == 500 {
            Some(Self::Hz500)
        } else if hz == 1000 {
            Some(Self::Hz1000)
        } else {
            None
        }
    }

    /// The Hz value of this rate.
    pub fn as_hz(&self) -> (r: u16)
        ensures
            r == spec_rate_hz(*self),
            spec_rate_from_hz(r) == Some(*self),
    {
        match self {
            Self::Hz125 => 125,
            Self::Hz250 => 250,
            Self::Hz500 => 500,
            Self::Hz1000 => 1000,
        }
    }
}

/// Law: converting a polling rate to its Hz value and back yields the
/// same rate, for every rate.
pub proof fn lemma_rate_hz_roundtrip(rate: PollingRate)
    ensures
        spec_rate_from_hz(spec_rate_hz(rate)) == Some(rate),
{
}

/// Standard mouse button actions for remapping.
#[derive(Debug, Clone, Copy, PartialEq, Eq, Hash, Structural)]
pub enum ButtonAction {
    LeftClick,
    RightClick,
    MiddleClick,
    Back,
    Forward,
    DpiCycleUp,
    DpiCycleDown,
    NoAction,
}

/// The action a name denotes after ASCII lowercasing, if any.
pub open spec fn spec_action_from_name(s: Seq<char>) -> Option<ButtonAction> {
    let l = spec_lower(s);
    if l == "left"@ || l == "left-click"@ || l == "leftclick"@ {
        Some(ButtonAction::LeftClick)
    } else if l == "right"@ || l == "right-click"@ || l == "rightclick"@ {
        Some(ButtonAction::RightClick)
    } else if l == "middle"@ || l == "middle-click"@ || l == "middleclick"@ {
        Some(ButtonAction::MiddleClick)
    } else if l == "back"@ {
        Some(ButtonAction::Back)
    } else if l == "forward"@ {
        Some(ButtonAction::Forward)
    } else if l == "dpi-up"@ || l == "dpi-cycle-up"@ || l == "dpiup"@ {
        Some(ButtonAction::DpiCycleUp)
    } else if l == "dpi-down"@ || l == "dpi-cycle-down"@ || l == "dpidown"@ {
        Some(ButtonAction::DpiCycleDown)
    } else if l == "none"@ || l == "no-action"@ || l == "noaction"@ || l == "disabled"@ {
        Some(ButtonAction::NoAction)
    } else {
        None
    }
}

impl ButtonAction {
    /// Human-readable label.
    pub fn label(&self) -> (r: &'static str)
        ensures
            *self is LeftClick ==> r@ == "Left Click"@,
            *self is RightClick ==> r@ == "Right Click"@,
            *self is MiddleClick ==> r@ == "Middle Click"@,
            *self is Back ==> r@ == "Back"@,
            *self is Forward ==> r@ == "Forward"@,
            *self is DpiCycleUp ==> r@ == "DPI Cycle Up"@,
            *self is DpiCycleDown ==> r@ == "DPI Cycle Down"@,
            *self is NoAction ==> r@ == "No Action"@,
    {
        match self {
            Self::LeftClick => "Left Click",
            Self::RightClick => "Right Click",
            Self::MiddleClick => "Middle Click",
            Self::Back => "Back",
            Self::Forward => "Forward",
            Self::DpiCycleUp => "DPI Cycle Up",
            Self::DpiCycleDown => "DPI Cycle Down",
            Self::NoAction => "No Action",
        }
    }

    /// Parse a button action from a user-supplied name. Common variants
    /// of each action name are accepted, without regard to ASCII case.
    pub fn from_name(name: &str) -> (r: Option<Self>)
        ensures
            r == spec_action_from_name(name@),
    {
        if eq_ci(name, "left") || eq_ci(name, "left-click") || eq_ci(name, "leftclick") {
            Some(Self::LeftClick)
        } else if eq_ci(name, "right") || eq_ci(name, "right-click") || eq_ci(name, "rightclick") {
            Some(Self::RightClick)
        } else if eq_ci(name, "middle") || eq_ci(name, "middle-click") || eq_ci(
            name,
            "middleclick",
        ) {
            Some(Self::MiddleClick)
        } else if eq_ci(name, "back") {
            Some(Self::Back)
        } else if eq_ci(name, "forward") {
            Some(Self::Forward)
        } else if eq_ci(name, "dpi-up") || eq_ci(name, "dpi-cycle-up") || eq_ci(name, "dpiup") {
            Some(Self::DpiCycleUp)
        } else if eq_ci(name, "dpi-down") || eq_ci(name, "dpi-cycle-down") || eq_ci(
            name,
            "dpidown",
        ) {
            Some(Self::DpiCycleDown)
        } else if eq_ci(name, "none") || eq_ci(name, "no-action") || eq_ci(name, "noaction")
            || eq_ci(name, "disabled") {
            Some(Self::NoAction)
        } else {
            None
        }
    }
}

} // verus!
