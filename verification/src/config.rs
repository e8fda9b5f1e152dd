//! Configuration values that the device actors read.
//!
//! The full application settings (directories, feature flags for the machine
//! learning stubs, ...) live outside the core; the actors only ever see this
//! immutable [`ConfigSnapshot`], replaced atomically on a configuration
//! change.  Also home of [`ViewType`], the camera view classification used by
//! the shell-case records.

use vstd::prelude::*;

use crate::error::SorterError;
use crate::text::{ci_eq_seq, eq_ignore_ascii_case};

verus! {

/// Camera view type for a captured shell image.
#[derive(Debug, Clone, Copy, PartialEq, Eq, Hash, Structural)]
pub enum ViewType {
    Side,
    Tail,
    Unknown,
}

/// The lower-case label of a view type, as stored in shell records.
pub open spec fn view_type_label(v: ViewType) -> Seq<char> {
    match v {
        ViewType::Side => "side"@,
        ViewType::Tail => "tail"@,
        ViewType::Unknown => "unknown"@,
    }
}

/// The view type denoted by `s`, compared without regard to ASCII case,
/// if any.
pub open spec fn spec_parse_view_type(s: Seq<char>) -> Option<ViewType> {
    if ci_eq_seq(s, "side"@) {
        Some(ViewType::Side)
    } else if ci_eq_seq(s, "tail"@) {
        Some(ViewType::Tail)
    } else if ci_eq_seq(s, "unknown"@) {
        Some(ViewType::Unknown)
    } else {
        None
    }
}

impl ViewType {
    /// The lower-case label of this view type.
    pub fn label(&self) -> (r: String)
        ensures
            r@ == view_type_label(*self),
    {
        match self {
            ViewType::Side => "side".to_owned(),
            ViewType::Tail => "tail".to_owned(),
            ViewType::Unknown => "unknown".to_owned(),
        }
    }

    /// Parse a view-type label, ignoring ASCII case.
    pub fn parse(s: &str) -> (r: Result<ViewType, SorterError>)
        ensures
            match spec_parse_view_type(s@) {
                Some(v) => r == Ok::<ViewType, SorterError>(v),
                None => r is Err,
            },
    {
        if eq_ignore_ascii_case(s, "side") {
            Ok(ViewType::Side)
        } else if eq_ignore_ascii_case(s, "tail") {
            Ok(ViewType::Tail)
        } else if eq_ignore_ascii_case(s, "unknown") {
            Ok(ViewType::Unknown)
        } else {
            Err(SorterError::InvalidState(s.to_owned()))
        }
    }
}

impl core::str::FromStr for ViewType {
    type Err = SorterError;

    fn from_str(s: &str) -> Result<ViewType, SorterError> {
        ViewType::parse(s)
    }
}

/// Immutable snapshot of the settings the device actors depend on.
///
/// Replaced as a whole on an `UpdateConfig` event; actors compare the old and
/// the new snapshot to decide whether dependent state must be reset.
#[derive(Debug)]
pub struct ConfigSnapshot {
    /// Web server bind host.
    pub host: String,
    /// Web server bind port.
    pub port: u16,
    /// Machine identifier shown on the dashboard.
    pub machine_name: String,
    /// Hostname of the ESPHome hardware controller.
    pub esphome_hostname: String,
    /// Hostnames of the configured ESPHome network cameras.
    pub network_camera_hostnames: Vec<String>,
    /// Detect and configure cameras on startup.
    pub auto_detect_cameras: bool,
    /// Start configured network cameras when they come online.
    pub auto_start_esp32_cameras: bool,
}

/// Mathematical model of a [`ConfigSnapshot`].
#[verifier::ext_equal]
pub struct ConfigSnapshotView {
    pub host: Seq<char>,
    pub port: u16,
    pub machine_name: Seq<char>,
    pub esphome_hostname: Seq<char>,
    pub network_camera_hostnames: Seq<Seq<char>>,
    pub auto_detect_cameras: bool,
    pub auto_start_esp32_cameras: bool,
}

impl View for ConfigSnapshot {
    type V = ConfigSnapshotView;

    open spec fn view(&self) -> ConfigSnapshotView {
        ConfigSnapshotView {
            host: self.host@,
            port: self.port,
            machine_name: self.machine_name@,
            esphome_hostname: self.esphome_hostname@,
            network_camera_hostnames: self.network_camera_hostnames.deep_view(),
            auto_detect_cameras: self.auto_detect_cameras,
            auto_start_esp32_cameras: self.auto_start_esp32_cameras,
        }
    }
}

/// Clone a vector of strings, keeping its value.
pub fn clone_string_vec(v: &Vec<String>) -> (r: Vec<String>)
    ensures
        r@ == v@,
{
    let r = v.clone();
    proof {
        assert forall|i: int| 0 <= i < v@.len() implies r@[i] == v@[i] by {
            assert(cloned::<String>(v[i], r[i]));
        }
        assert(v@ =~= r@);
    }
    r
}

impl Clone for ConfigSnapshot {
    fn clone(&self) -> (r: Self)
        ensures
            r@ == self@,
    {
        let hostnames = clone_string_vec(&self.network_camera_hostnames);
        ConfigSnapshot {
            host: self.host.clone(),
            port: self.port,
            machine_name: self.machine_name.clone(),
            esphome_hostname: self.esphome_hostname.clone(),
            network_camera_hostnames: hostnames,
            auto_detect_cameras: self.auto_detect_cameras,
            auto_start_esp32_cameras: self.auto_start_esp32_cameras,
        }
    }
}

} // verus!
