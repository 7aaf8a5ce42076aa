//! User configuration: sampling interval, the temperature label surfaced in
//! the summary view, and the animated-icon settings. Reading and writing the
//! configuration file is an outside concern; this module only defines the
//! values and their defaults.

use vstd::prelude::*;
use vstd::string::StringExecFns;

use crate::text::{dec_str, u64_to_string};

verus! {

/// How imported runner frames are tinted.
#[derive(Clone, Copy, PartialEq, Eq, Structural, Debug)]
pub enum RunnerIconMode {
    Original,
    White,
}

/// One user-imported animation set: an identifier, a display name, and the
/// frame image paths in playback order.
#[derive(Clone, PartialEq, Eq)]
pub struct CustomRunnerSet {
    pub id: String,
    pub name: String,
    pub frame_paths: Vec<String>,
}

/// Relies on std::time::SystemTime::now for the wall-clock instant; the
/// result is converted to whole milliseconds since the Unix epoch, 0 when the
/// clock reads before the epoch. Nothing can be promised of a clock reading.
#[verifier::external_body]
fn now_unix_millis() -> u64 {
    match std::time::SystemTime::now().duration_since(std::time::UNIX_EPOCH) {
        Ok(d) => d.as_millis() as u64,
        Err(_) => 0,
    }
}

/// The identifier minted for a set created at the given instant.
pub open spec fn set_id_chars(ts: u64) -> Seq<char> {
    "set-"@ + dec_str(ts as int)
}

/// Builds a set identifier from a timestamp in milliseconds.
pub fn make_set_id(ts: u64) -> (r: String)
    ensures
        r@ == set_id_chars(ts),
{
    let mut id = String::from_str("set-");
    let digits = u64_to_string(ts);
    id.append(digits.as_str());
    id
}

impl CustomRunnerSet {
    /// Mints a fresh identifier from the current wall-clock time.
    pub fn generate_id() -> (r: String)
        ensures
            exists|ts: u64| r@ == set_id_chars(ts),
    {
        let ts = now_unix_millis();
        let r = make_set_id(ts);
        proof {
            assert(r@ == set_id_chars(ts));
        }
        r
    }

    /// Bundles an identifier, a display name and frame paths into a set.
    pub fn new(id: String, name: String, frame_paths: Vec<String>) -> (r: Self)
        ensures
            r.id == id,
            r.name == name,
            r.frame_paths == frame_paths,
    {
        CustomRunnerSet { id, name, frame_paths }
    }
}

/// The engine's construction-time configuration.
pub struct Config {
    /// Seconds between sampling cycles.
    pub poll_interval_secs: u64,
    /// Label fragment selecting the temperature surfaced in the summary view.
    pub menubar_temp_component: String,
    pub launch_at_login: bool,
    pub runner_id: String,
    pub runner_frame_ms: u64,
    pub runner_display_secs: u64,
    pub runner_rotation_ids: Vec<String>,
    pub custom_runner_sets: Vec<CustomRunnerSet>,
    pub runner_icon_mode: RunnerIconMode,
}

impl Default for Config {
    /// The defaults: sample once a second, surface the CPU temperature, and
    /// animate the stock runner.
    fn default() -> (r: Self)
        ensures
            r.poll_interval_secs == 1,
            r.menubar_temp_component@ == "CPU"@,
            r.launch_at_login == false,
            r.runner_id@ == "runcat:cat"@,
            r.runner_frame_ms == 100,
            r.runner_display_secs == 600,
            r.runner_rotation_ids@.len() == 1,
            r.runner_rotation_ids@[0]@ == "runcat:cat"@,
            r.custom_runner_sets@.len() == 0,
            r.runner_icon_mode == RunnerIconMode::White,
    {
        let mut rotation: Vec<String> = Vec::new();
        rotation.push(String::from_str("runcat:cat"));
        Config {
            poll_interval_secs: 1,
            menubar_temp_component: String::from_str("CPU"),
            launch_at_login: false,
            runner_id: String::from_str("runcat:cat"),
            runner_frame_ms: 100,
            runner_display_secs: 600,
            runner_rotation_ids: rotation,
            custom_runner_sets: Vec::new(),
            runner_icon_mode: RunnerIconMode::White,
        }
    }
}

} // verus!
