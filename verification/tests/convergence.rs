//! Tests of the convergence engine: delta detection, idempotence, the
//! reboot/reload classification, and the all-empty reset path.

use radcam_manager::api::{FocusZoomPoint, FocusZoomPoints, ServoChannel};
use radcam_manager::autopilot::{
    AutopilotAction, FocusAndZoomParameters, FocusAndZoomParametersQuery, Manager,
    ZoomAndFocusConfig, ZoomAndFocusConfigQuery,
};
use radcam_manager::cli;
use radcam_manager::manager::{
    get_output_raw_from_channel, percentage_within_range, ServoOutputRaw,
};
use radcam_manager::mavlink::{MavlinkComponent, ParamEncodingType};
use radcam_manager::parameters::{ParamType, Parameter};

/// A component whose cache already holds the default parameter table.
fn primed_component() -> MavlinkComponent {
    let mut comp = MavlinkComponent::new(1, 56);
    comp.set_encoding(ParamEncodingType::ByteWise);
    let defaults: [(&str, ParamType); 16] = [
        ("SERVO10_FUNCTION", ParamType::UINT8(92)),
        ("SERVO10_MIN", ParamType::UINT16(870)),
        ("SERVO10_TRIM", ParamType::UINT16(1500)),
        ("SERVO10_MAX", ParamType::UINT16(2130)),
        ("SERVO11_FUNCTION", ParamType::UINT8(180)),
        ("SERVO11_MIN", ParamType::UINT16(935)),
        ("SERVO11_TRIM", ParamType::UINT16(1500)),
        ("SERVO11_MAX", ParamType::UINT16(1850)),
        ("SERVO16_FUNCTION", ParamType::UINT8(7)),
        ("SERVO16_MIN", ParamType::UINT16(750)),
        ("SERVO16_TRIM", ParamType::UINT16(1500)),
        ("SERVO16_MAX", ParamType::UINT16(2250)),
        ("SERVO16_REVERSED", ParamType::UINT8(0)),
        ("MNT1_TYPE", ParamType::UINT8(7)),
        ("MNT1_PITCH_MIN", ParamType::INT32(-90)),
        ("MNT1_PITCH_MAX", ParamType::INT32(90)),
    ];
    for (name, value) in defaults {
        comp.set_param(Parameter { name: String::from(name), value })
            .expect("seeding the cache");
    }
    comp
}

fn primed_manager() -> Manager {
    Manager::new(ZoomAndFocusConfig::default(), primed_component())
}

#[test]
fn min_change_classifies_as_reload_only() {
    let mut m = primed_manager();
    // Current SERVO10_MIN is 870; the request asks for 900.
    let mut q = FocusAndZoomParametersQuery::all_none();
    q.focus_channel_min = Some(900);
    let outcome = m.converge(&q, false).expect("pass succeeds");
    assert_eq!(outcome.writes.len(), 1);
    assert!(!outcome.reboot_required);
    assert!(outcome.reload_required);
    assert_eq!(outcome.command(), Some(AutopilotAction::ReloadScripts));
    assert_eq!(
        outcome.writes[0].param_id,
        Parameter::param_name_to_id("SERVO10_MIN")
    );
    assert_eq!(outcome.writes[0].param_value, 900);
    assert_eq!(m.config.parameters.focus_channel_min, 900);
}

#[test]
fn function_change_classifies_as_reboot_and_suppresses_reload() {
    let mut m = primed_manager();
    let mut q = FocusAndZoomParametersQuery::all_none();
    q.focus_channel_function = Some(94);
    q.focus_channel_min = Some(900);
    let outcome = m.converge(&q, false).expect("pass succeeds");
    assert_eq!(outcome.writes.len(), 2);
    assert!(outcome.reboot_required);
    assert!(outcome.reload_required);
    // The reboot supersedes the reload.
    assert_eq!(outcome.command(), Some(AutopilotAction::RebootAutopilot));
}

#[test]
fn matching_request_writes_nothing() {
    let mut m = primed_manager();
    let mut q = FocusAndZoomParametersQuery::all_none();
    q.focus_channel_min = Some(870);
    q.focus_channel_trim = Some(1500);
    let outcome = m.converge(&q, false).expect("pass succeeds");
    assert_eq!(outcome.writes.len(), 0);
    assert_eq!(outcome.command(), None);
}

#[test]
fn converge_twice_writes_nothing_the_second_time() {
    let mut m = primed_manager();
    let mut q = FocusAndZoomParametersQuery::all_none();
    q.focus_channel = Some(ServoChannel::SERVO12);
    q.focus_channel_function = Some(92);
    q.focus_channel_min = Some(900);
    q.zoom_channel_trim = Some(1510);
    q.tilt_mnt_pitch_max = Some(45);
    // The channel switch re-targets SERVO12; seed its table entries.
    let seeds: [(&str, ParamType); 4] = [
        ("SERVO12_FUNCTION", ParamType::UINT8(0)),
        ("SERVO12_MIN", ParamType::UINT16(1100)),
        ("SERVO12_TRIM", ParamType::UINT16(1500)),
        ("SERVO12_MAX", ParamType::UINT16(1900)),
    ];
    for (name, value) in seeds {
        m.mavlink
            .set_param(Parameter { name: String::from(name), value })
            .expect("seeding the cache");
    }
    let first = m.converge(&q, false).expect("first pass succeeds");
    assert!(first.writes.len() > 0);
    let second = m.converge(&q, false).expect("second pass succeeds");
    assert_eq!(second.writes.len(), 0, "second pass must write nothing");
    assert_eq!(second.command(), None);
}

#[test]
fn all_empty_request_equals_forced_default_pass() {
    let mut m1 = primed_manager();
    let mut m2 = primed_manager();
    let all_none = FocusAndZoomParametersQuery::all_none();
    let explicit = FocusAndZoomParametersQuery::from(FocusAndZoomParameters::default());
    let o1 = m1.converge(&all_none, false).expect("reset path succeeds");
    let o2 = m2.converge(&explicit, true).expect("forced pass succeeds");
    assert_eq!(o1.reboot_required, o2.reboot_required);
    assert_eq!(o1.reload_required, o2.reload_required);
    assert_eq!(o1.writes.len(), o2.writes.len());
    for (a, b) in o1.writes.iter().zip(o2.writes.iter()) {
        assert_eq!(a.param_id, b.param_id);
        assert_eq!(a.param_value, b.param_value);
    }
    assert_eq!(m1.config.parameters, m2.config.parameters);
    // The forced pass re-asserts every default parameter.
    assert_eq!(o1.writes.len(), 16);
}

#[test]
fn update_config_replaces_changed_calibration_tables() {
    let mut m = primed_manager();
    let new_points = FocusZoomPoints(vec![
        FocusZoomPoint { zoom: 1000, focus: 900 },
        FocusZoomPoint { zoom: 2000, focus: 1800 },
    ]);
    let q = ZoomAndFocusConfigQuery {
        parameters: None,
        closest_points: Some(new_points),
        furthest_points: None,
    };
    let outcome = m.update_config(&q).expect("update succeeds");
    assert!(outcome.reboot_required);
    assert_eq!(m.config.closest_points.0.len(), 2);
    let config = m.get_config();
    assert_eq!(config.closest_points.0[0].zoom, 1000);
}

#[test]
fn reset_restores_default_tables() {
    let mut m = primed_manager();
    m.config.closest_points = FocusZoomPoints(vec![]);
    let outcome = m.reset_config().expect("reset succeeds");
    assert_eq!(m.config.closest_points.0.len(), 7);
    assert_eq!(outcome.writes.len(), 16);
}

#[test]
fn to_lua_renders_the_point_table() {
    let points = FocusZoomPoints(vec![
        FocusZoomPoint { zoom: 900, focus: 882 },
        FocusZoomPoint { zoom: 1100, focus: 1253 },
    ]);
    assert_eq!(
        points.to_lua(),
        "{\n    {zoom = 900, focus = 882},\n    {zoom = 1100, focus = 1253}\n}"
    );
    assert_eq!(FocusZoomPoints(vec![]).to_lua(), "{\n\n}");
}

#[test]
fn servo_output_reading() {
    let mut raw = ServoOutputRaw {
        servo1_raw: 0,
        servo2_raw: 0,
        servo3_raw: 0,
        servo4_raw: 0,
        servo5_raw: 0,
        servo6_raw: 0,
        servo7_raw: 0,
        servo8_raw: 0,
        servo9_raw: 0,
        servo10_raw: 1500,
        servo11_raw: 0,
        servo12_raw: 0,
        servo13_raw: 0,
        servo14_raw: 0,
        servo15_raw: 0,
        servo16_raw: 0,
    };
    raw.servo11_raw = 1850;
    assert_eq!(
        get_output_raw_from_channel(&raw, ServoChannel::SERVO10),
        Some(1500)
    );
    assert_eq!(get_output_raw_from_channel(&raw, ServoChannel::SERVO17), None);
    assert_eq!(percentage_within_range(870, 870, 2130), 0);
    assert_eq!(percentage_within_range(2130, 870, 2130), 100);
    assert_eq!(percentage_within_range(1500, 870, 2130), 50);
    assert_eq!(percentage_within_range(0, 870, 2130), 0);
    assert_eq!(percentage_within_range(3000, 870, 2130), 100);
    assert_eq!(percentage_within_range(5, 7, 7), 0);
}

#[test]
fn cli_accessors_return_their_fields() {
    let args = cli::Args {
        verbose: true,
        web_server: String::from("0.0.0.0:8080"),
        enable_tracing_level_log_file: false,
        log_path: Some(String::from("./logs")),
        default_api_version: 1,
        mcm_address: String::from("127.0.0.1:6020"),
        autopilot_scripts_file: Some(String::from("./scripts/radcam.lua")),
        settings_file: String::from("./settings.json"),
        reset: false,
        mavlink: String::from("udpout:127.0.0.1:11001"),
        mavlink_system_id: 1,
        mavlink_component_id: 56,
        blueos_address: String::from("127.0.0.1"),
    };
    let m = cli::init_with(args);
    assert!(cli::is_verbose(&m));
    assert!(!cli::is_tracing(&m));
    assert_eq!(cli::log_path(&m), "./logs");
    assert_eq!(cli::autopilot_scripts_file(&m), "./scripts/radcam.lua");
    assert_eq!(cli::settings_file(&m), "./settings.json");
    assert!(!cli::is_reset(&m));
    assert_eq!(cli::mavlink_system_id(&m), 1);
    assert_eq!(cli::mavlink_component_id(&m), 56);
    assert_eq!(cli::default_api_version(&m), 1);
}
