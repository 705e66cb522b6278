//! Tests of the wire codec, the negotiation, the name buffer, and the
//! bulk sync, cross-checked against the platform's own float casts.

use radcam_manager::binary32::{
    b32_of_i32, b32_of_u32, b32_to_i16, b32_to_i32, b32_to_i8, b32_to_u16, b32_to_u32, b32_to_u8,
};
use radcam_manager::camera::hash_password;
use radcam_manager::mavlink::{
    encoding_from_capabilities, header, heartbeat_data, next_sequence, recv_filter_matches,
    resolve_encoding, BulkSync, MavHeader, MavlinkComponent, ParamEncodingType, ParamValueData,
    SyncStep, CAP_PARAM_ENCODE_BYTEWISE, CAP_PARAM_ENCODE_C_CAST, CAP_PARAM_FLOAT,
    MAV_AUTOPILOT_INVALID, MAV_STATE_STANDBY, MAV_TYPE_CAMERA,
};
use radcam_manager::parameters::{MavParamType, ParamError, ParamType, Parameter};
use radcam_manager::text::{i32_to_dec, str_eq, u32_to_dec};

#[test]
fn b32_encode_matches_platform_casts() {
    let values: [u32; 10] = [0, 1, 2, 9, 255, 256, 65535, 1_000_000, 16_777_215, 16_777_216];
    for v in values {
        assert_eq!(b32_of_u32(v), (v as f32).to_bits(), "u32 {v}");
    }
    // Rounding cases beyond the exact range.
    let rounding: [u32; 4] = [16_777_217, 0x7FFF_FFFF, 0xFFFF_FFFF, 0xFFFF_FF00];
    for v in rounding {
        assert_eq!(b32_of_u32(v), (v as f32).to_bits(), "u32 rounding {v}");
    }
    let signed: [i32; 8] = [0, -1, 1, -128, 127, -16_777_216, 16_777_216, i32::MIN];
    for v in signed {
        assert_eq!(b32_of_i32(v), (v as f32).to_bits(), "i32 {v}");
    }
}

#[test]
fn b32_decode_matches_platform_casts() {
    let floats: [f32; 12] = [
        0.0f32,
        -0.0,
        1.0,
        -1.0,
        0.5,
        -0.5,
        255.9,
        65536.0,
        3.0e9,
        -3.0e9,
        f32::INFINITY,
        f32::NEG_INFINITY,
    ];
    for f in floats {
        let bits = f.to_bits();
        assert_eq!(b32_to_u8(bits), f as u8, "u8 of {f}");
        assert_eq!(b32_to_u16(bits), f as u16, "u16 of {f}");
        assert_eq!(b32_to_u32(bits), f as u32, "u32 of {f}");
        assert_eq!(b32_to_i8(bits), f as i8, "i8 of {f}");
        assert_eq!(b32_to_i16(bits), f as i16, "i16 of {f}");
        assert_eq!(b32_to_i32(bits), f as i32, "i32 of {f}");
    }
    let nan = f32::NAN.to_bits();
    assert_eq!(b32_to_u8(nan), 0);
    assert_eq!(b32_to_i32(nan), 0);
}

#[test]
fn codec_round_trips_under_both_modes() {
    let values = [
        ParamType::UINT8(0),
        ParamType::UINT8(255),
        ParamType::INT8(-128),
        ParamType::INT8(127),
        ParamType::UINT16(65535),
        ParamType::INT16(-32768),
        ParamType::UINT32(16_777_216),
        ParamType::INT32(-16_777_216),
        ParamType::REAL32(1.5f32.to_bits()),
    ];
    for mode in [ParamEncodingType::CCast, ParamEncodingType::ByteWise] {
        for v in values {
            let p = Parameter { name: String::from("X"), value: v };
            let bits = v.encode(mode).expect("encodable");
            let back = ParamType::decode(p.param_type(), bits, mode).expect("decodable");
            assert_eq!(back, v, "{v:?} under {mode:?}");
        }
    }
}

#[test]
fn bytewise_is_bit_reinterpretation() {
    assert_eq!(ParamType::UINT8(5).encode(ParamEncodingType::ByteWise), Ok(5));
    assert_eq!(
        ParamType::INT8(-1).encode(ParamEncodingType::ByteWise),
        Ok(0xFF)
    );
    assert_eq!(
        ParamType::INT16(-2).encode(ParamEncodingType::ByteWise),
        Ok(0xFFFE)
    );
    // The numeric-cast mode instead produces the float bit pattern.
    assert_eq!(
        ParamType::UINT8(5).encode(ParamEncodingType::CCast),
        Ok(5.0f32.to_bits())
    );
}

#[test]
fn sixty_four_bit_values_are_rejected_not_panicked() {
    for mode in [
        ParamEncodingType::CCast,
        ParamEncodingType::ByteWise,
        ParamEncodingType::Unsupported,
    ] {
        for v in [
            ParamType::UINT64(1),
            ParamType::INT64(-1),
            ParamType::REAL64(1.0f64.to_bits()),
        ] {
            assert_eq!(v.encode(mode), Err(ParamError::EncodingUnsupported));
        }
        for t in [
            MavParamType::MAV_PARAM_TYPE_UINT64,
            MavParamType::MAV_PARAM_TYPE_INT64,
            MavParamType::MAV_PARAM_TYPE_REAL64,
        ] {
            assert_eq!(
                ParamType::decode(t, 0, mode),
                Err(ParamError::EncodingUnsupported)
            );
        }
    }
    // The unsupported mode rejects everything.
    assert_eq!(
        ParamType::UINT8(1).encode(ParamEncodingType::Unsupported),
        Err(ParamError::EncodingUnsupported)
    );
}

#[test]
fn capability_resolution_table() {
    assert_eq!(resolve_encoding(true, true), ParamEncodingType::ByteWise);
    assert_eq!(resolve_encoding(true, false), ParamEncodingType::CCast);
    assert_eq!(resolve_encoding(false, true), ParamEncodingType::ByteWise);
    assert_eq!(resolve_encoding(false, false), ParamEncodingType::Unsupported);

    assert_eq!(
        encoding_from_capabilities(CAP_PARAM_FLOAT),
        ParamEncodingType::CCast
    );
    assert_eq!(
        encoding_from_capabilities(CAP_PARAM_ENCODE_C_CAST),
        ParamEncodingType::CCast
    );
    assert_eq!(
        encoding_from_capabilities(CAP_PARAM_ENCODE_BYTEWISE),
        ParamEncodingType::ByteWise
    );
    assert_eq!(
        encoding_from_capabilities(CAP_PARAM_FLOAT | CAP_PARAM_ENCODE_BYTEWISE),
        ParamEncodingType::ByteWise
    );
    assert_eq!(encoding_from_capabilities(0), ParamEncodingType::Unsupported);
    // Unrelated capability bits resolve to unsupported.
    assert_eq!(
        encoding_from_capabilities(0x2000),
        ParamEncodingType::Unsupported
    );
}

#[test]
fn name_buffer_round_trip() {
    for name in ["A", "SERVO10_FUNCTION", "MNT1_PITCH_MIN", "0123456789ABCDEF"] {
        let id = Parameter::param_name_to_id(name);
        assert_eq!(id.len(), 16);
        assert_eq!(Parameter::param_id_to_name(&id), name, "{name}");
    }
    // Short names are null-padded on the wire.
    let id = Parameter::param_name_to_id("AB");
    assert_eq!(&id[..3], &[b'A', b'B', 0]);
}

fn value_msg(name: &str, index: u16, count: u16, value: u32) -> ParamValueData {
    ParamValueData {
        param_value: value,
        param_count: count,
        param_index: index,
        param_id: Parameter::param_name_to_id(name),
        param_type: MavParamType::MAV_PARAM_TYPE_UINT32,
    }
}

#[test]
fn bulk_sync_completes_only_with_full_table() {
    let mut comp = MavlinkComponent::new(1, 56);
    comp.set_encoding(ParamEncodingType::ByteWise);
    let mut sync = BulkSync::new();
    // Out of order, with a duplicate, all three names delivered.
    let msgs = vec![
        value_msg("P_ONE", 1, 3, 11),
        value_msg("P_ZERO", 0, 3, 10),
        value_msg("P_ONE", 1, 3, 11),
        value_msg("P_TWO", 2, 3, 12),
    ];
    let r = sync.run_round(&mut comp, &msgs);
    assert_eq!(r, Ok(SyncStep::Complete));
    assert_eq!(comp.cache_len(), 3);
    assert_eq!(
        comp.get_param("P_TWO").expect("cached").value,
        ParamType::UINT32(12)
    );
}

#[test]
fn bulk_sync_restarts_when_names_are_missing() {
    let mut comp = MavlinkComponent::new(1, 56);
    comp.set_encoding(ParamEncodingType::ByteWise);
    let mut sync = BulkSync::new();
    // Only two distinct names ever arrive out of a reported three.
    let msgs = vec![
        value_msg("P_ZERO", 0, 3, 10),
        value_msg("P_ZERO", 1, 3, 10),
        value_msg("P_TWO", 2, 3, 12),
    ];
    let r = sync.run_round(&mut comp, &msgs);
    assert_eq!(r, Ok(SyncStep::Restart));
    assert_eq!(comp.cache_len(), 2);
}

#[test]
fn bulk_sync_ignores_sentinel_messages() {
    let mut comp = MavlinkComponent::new(1, 56);
    comp.set_encoding(ParamEncodingType::ByteWise);
    let mut sync = BulkSync::new();
    let msg = value_msg("UNRELATED", 0xFFFF, 3, 1);
    assert_eq!(sync.feed(&mut comp, &msg), Ok(SyncStep::Ignored));
    assert_eq!(comp.cache_len(), 0);
}

#[test]
fn background_updates_touch_only_cached_names() {
    let mut comp = MavlinkComponent::new(1, 56);
    comp.set_encoding(ParamEncodingType::ByteWise);
    let known = value_msg("KNOWN", 0, 1, 5);
    comp.handle_param_value(&known).expect("decodes");
    let update = value_msg("KNOWN", 0xFFFF, 0, 7);
    comp.handle_background_update(&update).expect("decodes");
    assert_eq!(
        comp.get_param("KNOWN").expect("cached").value,
        ParamType::UINT32(7)
    );
    let unknown = value_msg("UNKNOWN", 0xFFFF, 0, 9);
    comp.handle_background_update(&unknown).expect("decodes");
    assert!(comp.get_param("UNKNOWN").is_none());
    assert_eq!(comp.cache_len(), 1);
}

#[test]
fn requests_carry_identity_and_target() {
    let comp = MavlinkComponent::new(7, 56);
    let list = comp.param_request_list();
    assert_eq!(list.target_system, 7);
    assert_eq!(list.target_component, 1);
    let read = comp.param_request_read("SERVO10_MIN");
    assert_eq!(read.param_index, -1);
    assert_eq!(read.param_id, Parameter::param_name_to_id("SERVO10_MIN"));
    let version = comp.autopilot_version_request();
    assert_eq!(version.target_system, 7);

    let h = header(7, 56, None);
    assert_eq!(h, MavHeader { system_id: 7, component_id: 56, sequence: 1 });
    assert_eq!(next_sequence(41), 42);
    assert_eq!(next_sequence(255), 0);
    assert!(recv_filter_matches(&h, 22, 7, 56, 22));
    assert!(!recv_filter_matches(&h, 22, 7, 1, 22));
}

#[test]
fn password_hashing_is_lowercase_md5_hex() {
    assert_eq!(hash_password(""), "d41d8cd98f00b204e9800998ecf8427e");
    assert_eq!(hash_password("abc"), "900150983cd24fb0d6963f7d28e17f72");
}

#[test]
fn decimal_and_string_helpers() {
    assert_eq!(u32_to_dec(0), "0");
    assert_eq!(u32_to_dec(32), "32");
    assert_eq!(u32_to_dec(4294967295), "4294967295");
    assert_eq!(i32_to_dec(-90), "-90");
    assert_eq!(i32_to_dec(90), "90");
    assert!(str_eq("SERVO10_MIN", "SERVO10_MIN"));
    assert!(!str_eq("SERVO10_MIN", "SERVO10_MAX"));
}

#[test]
fn heartbeat_payload_is_the_fixed_camera_beat() {
    let h = heartbeat_data();
    assert_eq!(h.custom_mode, 0);
    assert_eq!(h.mavtype, MAV_TYPE_CAMERA);
    assert_eq!(h.autopilot, MAV_AUTOPILOT_INVALID);
    assert_eq!(h.base_mode, 0);
    assert_eq!(h.system_status, MAV_STATE_STANDBY);
    assert_eq!(h.mavlink_version, 3);
}
