use iron_presence::DecodeError;
use iron_presence::telemetry::ID_LIVE_TEMP;
use iron_presence::telemetry::ID_WATTS;
use iron_presence::telemetry::IRON_SERVICE_ID;
use iron_presence::telemetry::advertises_iron_service;
use iron_presence::telemetry::attribute_value;
use iron_presence::telemetry::decode_u32_le;
use iron_presence::telemetry::field_ids;
use iron_presence::telemetry::find_characteristic;
use iron_presence::telemetry::snapshot_from_fields;

#[test]
fn le_decode_exact() {
    let data = vec![0x78, 0x56, 0x34, 0x12];
    assert_eq!(decode_u32_le(&data), Ok(0x1234_5678));
}

#[test]
fn le_decode_max() {
    let data = vec![0xff, 0xff, 0xff, 0xff];
    assert_eq!(decode_u32_le(&data), Ok(u32::MAX));
}

#[test]
fn le_decode_ignores_trailing_bytes() {
    let data = vec![1, 0, 0, 0, 0xaa, 0xbb];
    assert_eq!(decode_u32_le(&data), Ok(1));
}

#[test]
fn le_decode_short_payload() {
    assert_eq!(decode_u32_le(&vec![1, 2, 3]), Err(DecodeError::MalformedPayload));
    assert_eq!(decode_u32_le(&vec![]), Err(DecodeError::MalformedPayload));
}

#[test]
fn attribute_missing() {
    assert_eq!(attribute_value(false, &Some(vec![1, 0, 0, 0])), Err(DecodeError::AttributeNotFound));
}

#[test]
fn attribute_read_rejected() {
    assert_eq!(attribute_value(true, &None), Err(DecodeError::TransportReadError));
}

#[test]
fn attribute_ok() {
    assert_eq!(attribute_value(true, &Some(vec![0x2c, 0x01, 0, 0])), Ok(300));
}

#[test]
fn characteristic_lookup() {
    let ids = vec![7u128, ID_LIVE_TEMP, ID_WATTS, ID_LIVE_TEMP];
    assert_eq!(find_characteristic(&ids, ID_LIVE_TEMP), Some(1));
    assert_eq!(find_characteristic(&ids, ID_WATTS), Some(2));
    assert_eq!(find_characteristic(&ids, IRON_SERVICE_ID), None);
}

#[test]
fn service_advertisement() {
    assert!(advertises_iron_service(&vec![5u128, IRON_SERVICE_ID]));
    assert!(!advertises_iron_service(&vec![5u128, ID_LIVE_TEMP]));
    assert!(!advertises_iron_service(&vec![]));
}

#[test]
fn field_id_table() {
    let ids = field_ids();
    assert_eq!(ids.len(), 14);
    assert_eq!(ids[0], 0xd85ef001_168e_4a71_aa55_33e27f9bc533);
    assert_eq!(ids[13], 0xd85ef00e_168e_4a71_aa55_33e27f9bc533);
    // all identifiers are distinct
    for i in 0..ids.len() {
        for j in 0..i {
            assert_ne!(ids[i], ids[j]);
        }
    }
}

#[test]
fn snapshot_all_fields() {
    let fields: Vec<Result<u32, DecodeError>> =
        (0..14u32).map(|i| Ok(100 + i)).collect();
    let s = snapshot_from_fields(&fields).unwrap();
    assert_eq!(s.live_temp, 100);
    assert_eq!(s.setpoint_temp, 101);
    assert_eq!(s.dc_input_voltage, 102);
    assert_eq!(s.handle_temp, 103);
    assert_eq!(s.power_level, 104);
    assert_eq!(s.power_source, 105);
    assert_eq!(s.tip_resistance, 106);
    assert_eq!(s.uptime, 107);
    assert_eq!(s.last_movement, 108);
    assert_eq!(s.max_temp, 109);
    assert_eq!(s.raw_tip_reading, 110);
    assert_eq!(s.hall_sensor, 111);
    assert_eq!(s.operating_mode, 112);
    assert_eq!(s.estimated_watts, 113);
}

#[test]
fn snapshot_single_failure_discards_all() {
    // any one failing field, wherever it sits, discards the snapshot
    for k in 0..14usize {
        let mut fields: Vec<Result<u32, DecodeError>> = vec![Ok(1); 14];
        fields[k] = Err(DecodeError::TransportReadError);
        assert_eq!(snapshot_from_fields(&fields), Err(DecodeError::TransportReadError));
    }
}

#[test]
fn snapshot_reports_first_failure() {
    let mut fields: Vec<Result<u32, DecodeError>> = vec![Ok(1); 14];
    fields[3] = Err(DecodeError::MalformedPayload);
    fields[9] = Err(DecodeError::AttributeNotFound);
    assert_eq!(snapshot_from_fields(&fields), Err(DecodeError::MalformedPayload));
}
