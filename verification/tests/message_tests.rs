use mavlink::ardupilotmega::{
    MavAutopilot, MavMessage, MavModeFlag, MavState, MavSysStatusSensor, MavType, HEARTBEAT_DATA,
    SYS_STATUS_DATA,
};
use mavlink::ardupilotmega::{MavSeverity, STATUSTEXT_DATA};
use mavlink_to_kafka::message::PayloadError;
use mavlink_to_kafka::message::{
    build_topic_name, extract_message_name, kafka_payload, partition_key, record_address,
    serialize_for_kafka, MessageHeader,
};

fn heartbeat() -> MavMessage {
    MavMessage::HEARTBEAT(HEARTBEAT_DATA {
        custom_mode: 0,
        mavtype: MavType::MAV_TYPE_QUADROTOR,
        autopilot: MavAutopilot::MAV_AUTOPILOT_ARDUPILOTMEGA,
        base_mode: MavModeFlag::empty(),
        system_status: MavState::MAV_STATE_ACTIVE,
        mavlink_version: 3,
    })
}

#[test]
fn test_extract_message_name_heartbeat() {
    let msg = heartbeat();
    assert_eq!(extract_message_name(&msg), "HEARTBEAT");
}

#[test]
fn test_build_topic_name() {
    assert_eq!(build_topic_name("mavlink", "HEARTBEAT"), "mavlink.HEARTBEAT");
    assert_eq!(build_topic_name("uav", "GPS_RAW_INT"), "uav.GPS_RAW_INT");
}

#[test]
fn test_serialize_for_kafka_produces_valid_json() {
    let header = MessageHeader {
        system_id: 1,
        component_id: 1,
        sequence: 42,
    };
    let msg = heartbeat();

    let bytes = serialize_for_kafka(&header, &msg).unwrap();
    let value: serde_json::Value = serde_json::from_slice(&bytes).unwrap();

    assert_eq!(value["header"]["system_id"], 1);
    assert_eq!(value["header"]["component_id"], 1);
    assert_eq!(value["header"]["sequence"], 42);

    assert!(value["message"].is_object(), "message should be an object");
}

#[test]
fn test_serialize_different_message_types() {
    let header = MessageHeader {
        system_id: 2,
        component_id: 1,
        sequence: 0,
    };
    let msg = MavMessage::SYS_STATUS(SYS_STATUS_DATA {
        onboard_control_sensors_present: MavSysStatusSensor::empty(),
        onboard_control_sensors_enabled: MavSysStatusSensor::empty(),
        onboard_control_sensors_health: MavSysStatusSensor::empty(),
        load: 500,
        voltage_battery: 12000,
        current_battery: 100,
        battery_remaining: 75,
        drop_rate_comm: 0,
        errors_comm: 0,
        errors_count1: 0,
        errors_count2: 0,
        errors_count3: 0,
        errors_count4: 0,
    });

    let bytes = serialize_for_kafka(&header, &msg).unwrap();
    let value: serde_json::Value = serde_json::from_slice(&bytes).unwrap();
    assert_eq!(value["header"]["system_id"], 2);
    assert!(value["message"].is_object());
}

#[test]
fn serialized_message_carries_its_type_tag() {
    let header = MessageHeader { system_id: 1, component_id: 1, sequence: 42 };
    let bytes = serialize_for_kafka(&header, &heartbeat()).unwrap();
    let value: serde_json::Value = serde_json::from_slice(&bytes).unwrap();
    assert_eq!(value["message"]["type"], "HEARTBEAT");
    assert_eq!(value["message"]["mavlink_version"], 3);
}

#[test]
fn payload_frames_header_before_message() {
    let header = MessageHeader { system_id: 255, component_id: 10, sequence: 0 };
    let payload = kafka_payload(&header, b"{\"type\":\"X\"}");
    assert_eq!(
        String::from_utf8(payload).unwrap(),
        "{\"header\":{\"system_id\":255,\"component_id\":10,\"sequence\":0},\"message\":{\"type\":\"X\"}}"
    );
}

#[test]
fn partition_key_is_decimal_system_id() {
    assert_eq!(partition_key(0), "0");
    assert_eq!(partition_key(7), "7");
    assert_eq!(partition_key(42), "42");
    assert_eq!(partition_key(100), "100");
    assert_eq!(partition_key(255), "255");
    for id in 0..=255u8 {
        assert_eq!(partition_key(id), id.to_string());
    }
}

#[test]
fn record_address_combines_topic_and_key() {
    let address = record_address("uav", "GPS_RAW_INT", 12);
    assert_eq!(address.topic, "uav.GPS_RAW_INT");
    assert_eq!(address.key, "12");
}

#[test]
fn message_that_cannot_be_encoded_is_rejected() {
    let header = MessageHeader { system_id: 1, component_id: 1, sequence: 0 };
    let msg = MavMessage::STATUSTEXT(STATUSTEXT_DATA {
        severity: MavSeverity::MAV_SEVERITY_INFO,
        text: [0xffu8; 50].into(),
    });
    match serialize_for_kafka(&header, &msg) {
        Err(PayloadError::MessageEncoding(_)) => {}
        Ok(_) => panic!("a text that is not UTF-8 has no JSON encoding"),
    }
}

#[test]
fn payload_carries_the_message_encoding() {
    let header = MessageHeader { system_id: 1, component_id: 1, sequence: 42 };
    let msg = heartbeat();
    let bytes = serialize_for_kafka(&header, &msg).unwrap();
    let expected = kafka_payload(&header, &serde_json::to_vec(&msg).unwrap());
    assert_eq!(bytes, expected);
    let value: serde_json::Value = serde_json::from_slice(&bytes).unwrap();
    let back: MavMessage = serde_json::from_value(value["message"].clone()).unwrap();
    assert_eq!(extract_message_name(&back), "HEARTBEAT");
}
