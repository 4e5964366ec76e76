//! What the operator configures.

use vstd::prelude::*;
use vstd::string::*;

verus! {

/// Name of a device whose host name cannot be read.
pub const FALLBACK_DEVICE_NAME: &'static str = "RustClip Device";

/// Language of a fresh configuration.
pub const DEFAULT_LANGUAGE: &'static str = "en";

/// The configuration of a device.
#[derive(Debug)]
pub struct AppConfig {
    /// The name under which the device is advertised.
    pub device_name: String,
    pub notifications_enabled: bool,
    pub auto_start: bool,
    pub language: String,
}

/// A configuration as plain values.
pub struct AppConfigView {
    pub device_name: Seq<char>,
    pub notifications_enabled: bool,
    pub auto_start: bool,
    pub language: Seq<char>,
}

impl View for AppConfig {
    type V = AppConfigView;

    open spec fn view(&self) -> AppConfigView {
        AppConfigView {
            device_name: self.device_name@,
            notifications_enabled: self.notifications_enabled,
            auto_start: self.auto_start,
            language: self.language@,
        }
    }
}

impl Clone for AppConfig {
    fn clone(&self) -> (r: Self)
        ensures
            r@ == self@,
    {
        AppConfig {
            device_name: self.device_name.clone(),
            notifications_enabled: self.notifications_enabled,
            auto_start: self.auto_start,
            language: self.language.clone(),
        }
    }
}

/// The configuration of a device that was never configured, given its host
/// name where one could be read.
pub open spec fn fresh_config(host_name: Option<Seq<char>>) -> AppConfigView {
    AppConfigView {
        device_name: match host_name {
            Some(name) => name,
            None => FALLBACK_DEVICE_NAME@,
        },
        notifications_enabled: true,
        auto_start: false,
        language: DEFAULT_LANGUAGE@,
    }
}

/// `hostname::get`, with what is not Unicode in the name replaced as
/// `to_string_lossy` of std does. Nothing is claimed of the name.
#[verifier::external_body]
pub(crate) fn host_name() -> Option<String> {
    match hostname::get() {
        Ok(name) => Some(name.to_string_lossy().into_owned()),
        Err(_) => None,
    }
}

impl AppConfig {
    /// The configuration of a device that was never configured.
    pub fn for_host(host_name: Option<String>) -> (r: Self)
        ensures
            r@ == fresh_config(crate::primitives::chars_of(host_name)),
    {
        let device_name = match host_name {
            Some(name) => name,
            None => FALLBACK_DEVICE_NAME.to_owned(),
        };
        AppConfig {
            device_name,
            notifications_enabled: true,
            auto_start: false,
            language: DEFAULT_LANGUAGE.to_owned(),
        }
    }

    /// Whether going from this configuration to `next` restarts discovery and
    /// synchronisation: it does where the device's name changes, so that what
    /// is advertised is what is configured.
    pub fn restart_needed(&self, next: &AppConfig) -> (r: bool)
        ensures
            r == (self.device_name@ != next.device_name@),
    {
        self.device_name != next.device_name
    }
}

impl Default for AppConfig {
    /// The configuration of this machine before the operator changed anything:
    /// named after the host where its name can be read.
    fn default() -> (r: Self)
        ensures
            r@.notifications_enabled,
            !r@.auto_start,
            r@.language == DEFAULT_LANGUAGE@,
            exists|name: Option<Seq<char>>| r@ == #[trigger] fresh_config(name),
    {
        let r = AppConfig::for_host(host_name());
        r
    }
}

} // verus!
