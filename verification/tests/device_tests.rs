use mqtt_actuator::device::{Device, DeviceId};
use mqtt_actuator::text::{decimal_text, same_text};

fn lamp(id: u64, state: bool) -> Device {
    Device { id: DeviceId::Number(id), name: String::from("lamp"), state }
}

fn document(text: &str) -> serde_json::Value {
    match serde_json::from_str::<serde_json::Value>(text) {
        Ok(value) => value,
        Err(error) => panic!("not a JSON document: {}", error),
    }
}

#[test]
fn decode_reads_a_command_that_switches_on() {
    let payload = br#"{"id":1,"name":"lamp","state":true}"#;
    assert_eq!(Device::decode(payload), Some(lamp(1, true)));
}

#[test]
fn decode_reads_a_command_that_switches_off() {
    let payload = br#"{"id":2,"name":"lamp","state":false}"#;
    assert_eq!(Device::decode(payload), Some(lamp(2, false)));
}

#[test]
fn decode_reads_a_text_id() {
    let payload = br#"{"id":"kitchen-7","name":"lamp","state":true}"#;
    assert_eq!(
        Device::decode(payload),
        Some(Device {
            id: DeviceId::Text(String::from("kitchen-7")),
            name: String::from("lamp"),
            state: true,
        })
    );
}

#[test]
fn decode_reads_the_largest_numeric_id() {
    let payload = br#"{"id":18446744073709551615,"name":"n","state":false}"#;
    assert_eq!(
        Device::decode(payload),
        Some(Device { id: DeviceId::Number(u64::MAX), name: String::from("n"), state: false })
    );
}

#[test]
fn decode_takes_members_in_any_order_and_spacing() {
    let payload = b" {\n \"state\" : true ,\t\"name\" : \"lamp\" , \"id\" : 1 } \n";
    assert_eq!(Device::decode(payload), Some(lamp(1, true)));
}

#[test]
fn decode_ignores_further_members() {
    let payload = br#"{"id":1,"name":"lamp","state":true,"room":"hall","dim":[1,2]}"#;
    assert_eq!(Device::decode(payload), Some(lamp(1, true)));
}

#[test]
fn decode_keeps_text_beyond_ascii() {
    let payload = "{\"id\":\"é\",\"name\":\"lâmpada \\u00e9\",\"state\":true}".as_bytes();
    assert_eq!(
        Device::decode(payload),
        Some(Device {
            id: DeviceId::Text(String::from("é")),
            name: String::from("lâmpada é"),
            state: true,
        })
    );
}

#[test]
fn decode_drops_a_payload_without_state() {
    let payload = br#"{"id":3,"name":"x"}"#;
    assert_eq!(Device::decode(payload), None);
}

#[test]
fn decode_drops_a_payload_without_id_or_name() {
    assert_eq!(Device::decode(br#"{"name":"x","state":true}"#), None);
    assert_eq!(Device::decode(br#"{"id":3,"state":true}"#), None);
    assert_eq!(Device::decode(br#"{}"#), None);
}

#[test]
fn decode_drops_bytes_that_are_not_utf8() {
    assert_eq!(Device::decode(&[0xff, 0xfe, 0xfd]), None);
    assert_eq!(Device::decode(&[0xc3]), None);
    let mut payload = br#"{"id":1,"name":"lamp","state":true}"#.to_vec();
    payload[17] = 0x80;
    assert_eq!(Device::decode(&payload), None);
}

#[test]
fn decode_drops_text_that_is_not_json() {
    assert_eq!(Device::decode(b""), None);
    assert_eq!(Device::decode(b"on"), None);
    assert_eq!(Device::decode(br#"{"id":1,"name":"lamp","state":true"#), None);
    assert_eq!(Device::decode(br#"{"id":1,"name":"lamp","state":true} x"#), None);
}

#[test]
fn decode_drops_json_that_is_no_object() {
    assert_eq!(Device::decode(br#"[1,"lamp",true]"#), None);
    assert_eq!(Device::decode(b"true"), None);
    assert_eq!(Device::decode(b"null"), None);
    assert_eq!(Device::decode(br#""lamp""#), None);
    assert_eq!(Device::decode(b"17"), None);
}

#[test]
fn decode_drops_members_of_another_type() {
    assert_eq!(Device::decode(br#"{"id":1,"name":"lamp","state":"true"}"#), None);
    assert_eq!(Device::decode(br#"{"id":1,"name":"lamp","state":1}"#), None);
    assert_eq!(Device::decode(br#"{"id":1,"name":"lamp","state":null}"#), None);
    assert_eq!(Device::decode(br#"{"id":1,"name":7,"state":true}"#), None);
    assert_eq!(Device::decode(br#"{"id":1,"name":null,"state":true}"#), None);
    assert_eq!(Device::decode(br#"{"id":true,"name":"lamp","state":true}"#), None);
    assert_eq!(Device::decode(br#"{"id":null,"name":"lamp","state":true}"#), None);
    assert_eq!(Device::decode(br#"{"id":[1],"name":"lamp","state":true}"#), None);
    assert_eq!(Device::decode(br#"{"id":{"n":1},"name":"lamp","state":true}"#), None);
}

#[test]
fn decode_drops_ids_that_are_no_whole_unsigned_number() {
    assert_eq!(Device::decode(br#"{"id":-1,"name":"lamp","state":true}"#), None);
    assert_eq!(Device::decode(br#"{"id":1.5,"name":"lamp","state":true}"#), None);
    assert_eq!(Device::decode(br#"{"id":1.0,"name":"lamp","state":true}"#), None);
    assert_eq!(Device::decode(br#"{"id":18446744073709551616,"name":"lamp","state":true}"#), None);
}

#[test]
fn device_from_json_reads_a_parsed_document() {
    let doc = document(r#"{"id":1,"name":"lamp","state":true}"#);
    assert_eq!(Device::from_json(&doc), Some(lamp(1, true)));
    let doc = document(r#"{"id":3,"name":"x"}"#);
    assert_eq!(Device::from_json(&doc), None);
    let doc = document(r#"[{"id":1,"name":"lamp","state":true}]"#);
    assert_eq!(Device::from_json(&doc), None);
}

#[test]
fn from_json_reads_the_members_of_the_document_itself() {
    let doc = document(r#"{"id":1,"name":"lamp","state":true,"inner":{"state":false}}"#);
    assert_eq!(Device::from_json(&doc), Some(lamp(1, true)));
    let doc = document(r#"{"inner":{"id":1,"name":"lamp","state":true}}"#);
    assert_eq!(Device::from_json(&doc), None);
}

#[test]
fn id_from_json_tells_numbers_from_texts() {
    assert_eq!(DeviceId::from_json(&document("42")), Some(DeviceId::Number(42)));
    assert_eq!(DeviceId::from_json(&document("0")), Some(DeviceId::Number(0)));
    assert_eq!(DeviceId::from_json(&document(r#""42""#)), Some(DeviceId::Text(String::from("42"))));
    assert_eq!(DeviceId::from_json(&document(r#""""#)), Some(DeviceId::Text(String::new())));
    assert_eq!(DeviceId::from_json(&document("-42")), None);
    assert_eq!(DeviceId::from_json(&document("4.2")), None);
    assert_eq!(DeviceId::from_json(&document("true")), None);
    assert_eq!(DeviceId::from_json(&document("null")), None);
    assert_eq!(DeviceId::from_json(&document("[]")), None);
    assert_eq!(DeviceId::from_json(&document("{}")), None);
}

#[test]
fn label_writes_numbers_in_decimal_and_texts_as_they_are() {
    assert_eq!(DeviceId::Number(1).label(), "1");
    assert_eq!(DeviceId::Number(0).label(), "0");
    assert_eq!(DeviceId::Number(1203).label(), "1203");
    assert_eq!(DeviceId::Text(String::from("kitchen-7")).label(), "kitchen-7");
    assert_eq!(DeviceId::Text(String::new()).label(), "");
}

#[test]
fn decimal_text_writes_every_digit() {
    assert_eq!(decimal_text(0), "0");
    assert_eq!(decimal_text(9), "9");
    assert_eq!(decimal_text(10), "10");
    assert_eq!(decimal_text(1234567890), "1234567890");
    assert_eq!(decimal_text(u64::MAX), "18446744073709551615");
}

#[test]
fn decimal_text_agrees_with_the_standard_library() {
    let mut n: u64 = 0;
    while n < 3000 {
        assert_eq!(decimal_text(n), n.to_string());
        n += 1;
    }
    let mut n: u64 = 1;
    for _ in 0..19 {
        n *= 10;
        assert_eq!(decimal_text(n), n.to_string());
        assert_eq!(decimal_text(n - 1), (n - 1).to_string());
        assert_eq!(decimal_text(n + 1), (n + 1).to_string());
    }
}

#[test]
fn same_text_compares_contents() {
    assert!(same_text("pin_2", "pin_2"));
    assert!(same_text("", ""));
    assert!(same_text("ção", "ção"));
    assert!(!same_text("pin_2", "pin_3"));
    assert!(!same_text("pin_2", "pin_20"));
    assert!(!same_text("pin_20", "pin_2"));
    assert!(!same_text("", "pin_2"));
    assert!(!same_text("pin_2", "PIN_2"));
    assert!(!same_text("cao", "ção"));
}
