//! The role a process runs in.

use crate::text::str_equal;
use vstd::prelude::*;

verus! {

/// The environment variable that selects the role.
pub const ENV_APP_MODE_KEY: &'static str = "UNIGEN_APP_MODE";

/// The value of the variable that selects the control-plane role.
pub const APP_MODE_MQTT: &'static str = "mqtt";

/// The role of a process, fixed once at start.
#[derive(Debug, Clone, Copy, PartialEq, Eq, Structural)]
pub enum AppMode {
    /// The background control-plane process that hosts the broker.
    Mqtt,
    /// The ordinary application process.
    Desktop,
}

/// The role that a value of the variable selects: the control plane for
/// the one recognised value, the ordinary role for any other value and for
/// a variable that is not set.
pub open spec fn mode_of(value: Option<Seq<char>>) -> AppMode {
    if value == Some(APP_MODE_MQTT@) {
        AppMode::Mqtt
    } else {
        AppMode::Desktop
    }
}

impl AppMode {
    /// The role that the variable `ENV_APP_MODE_KEY` selects, given its
    /// value as the caller read it from the environment.
    pub fn from_env(value: Option<&str>) -> (mode: AppMode)
        ensures
            mode == mode_of(
                match value {
                    Some(text) => Some(text@),
                    None => None,
                },
            ),
    {
        match value {
            Some(text) => if str_equal(text, APP_MODE_MQTT) {
                AppMode::Mqtt
            } else {
                AppMode::Desktop
            },
            None => AppMode::Desktop,
        }
    }

    /// Whether this is the control-plane role.
    pub fn is_mqtt(&self) -> (r: bool)
        ensures
            r == (*self == AppMode::Mqtt),
    {
        matches!(self, AppMode::Mqtt)
    }
}

} // verus!
