//! Command-line settings, held as plain values.
//!
//! Argument parsing itself happens outside the verified library; the parsed
//! values are handed in as an [`Args`] record and every accessor states
//! exactly which field it returns.

use vstd::prelude::*;

verus! {

/// The set of command-line settings the manager runs with.
pub struct Args {
    /// Turns all log categories up to Debug.
    pub verbose: bool,
    /// IP and port that the web server binds.
    pub web_server: String,
    /// Turns all log categories up to Trace in the log file.
    pub enable_tracing_level_log_file: bool,
    /// Directory in which the logs are stored.
    pub log_path: Option<String>,
    /// Default version used by the REST API.
    pub default_api_version: u8,
    /// Address of the camera-manager service.
    pub mcm_address: String,
    /// File path for the autopilot lua script controlling zoom and focus.
    pub autopilot_scripts_file: Option<String>,
    /// Settings file path.
    pub settings_file: String,
    /// Deletes the settings file before starting.
    pub reset: bool,
    /// MAVLink connection string.
    pub mavlink: String,
    /// MAVLink system id of this component.
    pub mavlink_system_id: u8,
    /// MAVLink component id of this component.
    pub mavlink_component_id: u8,
    /// BlueOS IP address.
    pub blueos_address: String,
}

/// Holder for the settings; constructed once inside `main` and passed to
/// whoever needs an accessor.
pub struct Manager {
    pub args: Args,
}

/// Constructs the settings manager from already-parsed arguments.
pub fn init_with(args: Args) -> (m: Manager)
    ensures
        m.args == args,
{
    Manager { args }
}

/// Checks if the verbosity parameter was used.
pub fn is_verbose(m: &Manager) -> (r: bool)
    ensures
        r == m.args.verbose,
{
    m.args.verbose
}

/// Checks if trace-level file logging was requested.
pub fn is_tracing(m: &Manager) -> (r: bool)
    ensures
        r == m.args.enable_tracing_level_log_file,
{
    m.args.enable_tracing_level_log_file
}

/// Directory in which the logs are stored; the caller guarantees the value
/// is present (the command line gives it a default).
pub fn log_path(m: &Manager) -> (r: String)
    requires
        m.args.log_path is Some,
    ensures
        r@ == m.args.log_path->Some_0@,
{
    m.args.log_path.as_ref().unwrap().clone()
}

/// File path of the autopilot lua script; the caller guarantees the value is
/// present and carries the `.lua` extension (the command line gives it a
/// default and rejects other extensions).
pub fn autopilot_scripts_file(m: &Manager) -> (r: String)
    requires
        m.args.autopilot_scripts_file is Some,
        ends_with_lua(m.args.autopilot_scripts_file->Some_0@),
    ensures
        r@ == m.args.autopilot_scripts_file->Some_0@,
        ends_with_lua(r@),
{
    m.args.autopilot_scripts_file.as_ref().unwrap().clone()
}

/// True when the character sequence ends in `.lua`.
pub open spec fn ends_with_lua(s: Seq<char>) -> bool {
    s.len() >= 4 && s.subrange(s.len() - 4, s.len() as int) == ".lua"@
}

/// The settings file path.
pub fn settings_file(m: &Manager) -> (r: String)
    ensures
        r@ == m.args.settings_file@,
{
    m.args.settings_file.clone()
}

/// Checks if the settings file is to be deleted before starting.
pub fn is_reset(m: &Manager) -> (r: bool)
    ensures
        r == m.args.reset,
{
    m.args.reset
}

/// The MAVLink system id of this component.
pub fn mavlink_system_id(m: &Manager) -> (r: u8)
    ensures
        r == m.args.mavlink_system_id,
{
    m.args.mavlink_system_id
}

/// The MAVLink component id of this component.
pub fn mavlink_component_id(m: &Manager) -> (r: u8)
    ensures
        r == m.args.mavlink_component_id,
{
    m.args.mavlink_component_id
}

/// The default version used by the REST API.
pub fn default_api_version(m: &Manager) -> (r: u8)
    ensures
        r == m.args.default_api_version,
{
    m.args.default_api_version
}

} // verus!
