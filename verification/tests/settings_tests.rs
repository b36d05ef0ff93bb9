use mqtt_actuator::settings::{
    SettingKey, Settings, SettingsError, MQTT_CLIENT_ID, MQTT_CLIENT_PASS, MQTT_URL, WIFI_PASS,
    WIFI_SSID,
};

const KEYS: [SettingKey; 5] = [
    SettingKey::WifiSsid,
    SettingKey::WifiPass,
    SettingKey::MqttUrl,
    SettingKey::MqttClientId,
    SettingKey::MqttClientPass,
];

/// A settings document in which the keys of `omitted` are left out.
fn text_without(omitted: &[SettingKey]) -> String {
    let mut members = vec![];
    for key in KEYS {
        if !omitted.contains(&key) {
            members.push(format!("\"{}\":\"value of {}\"", key.name(), key.name()));
        }
    }
    format!("{{{}}}", members.join(","))
}

#[test]
fn keys_have_the_documented_names() {
    assert_eq!(WIFI_SSID, "WIFI_SSID");
    assert_eq!(WIFI_PASS, "WIFI_PASS");
    assert_eq!(MQTT_URL, "MQTT_URL");
    assert_eq!(MQTT_CLIENT_ID, "MQTT_CLIENT_ID");
    assert_eq!(MQTT_CLIENT_PASS, "MQTT_CLIENT_PASS");
    assert_eq!(SettingKey::WifiSsid.name(), "WIFI_SSID");
    assert_eq!(SettingKey::WifiPass.name(), "WIFI_PASS");
    assert_eq!(SettingKey::MqttUrl.name(), "MQTT_URL");
    assert_eq!(SettingKey::MqttClientId.name(), "MQTT_CLIENT_ID");
    assert_eq!(SettingKey::MqttClientPass.name(), "MQTT_CLIENT_PASS");
}

#[test]
fn parse_reads_all_five_settings() {
    let text = r#"{
        "WIFI_SSID": "home",
        "WIFI_PASS": "open sesame",
        "MQTT_URL": "mqtt://broker.local:1883",
        "MQTT_CLIENT_ID": "esp-1",
        "MQTT_CLIENT_PASS": "hunter2",
        "COMMENT": 17
    }"#;
    assert_eq!(
        Settings::parse(text),
        Ok(Settings {
            wifi_ssid: String::from("home"),
            wifi_pass: String::from("open sesame"),
            mqtt_url: String::from("mqtt://broker.local:1883"),
            mqtt_client_id: String::from("esp-1"),
            mqtt_client_pass: String::from("hunter2"),
        })
    );
}

#[test]
fn parse_refuses_text_that_is_not_json() {
    assert_eq!(Settings::parse(""), Err(SettingsError::Malformed));
    assert_eq!(Settings::parse("WIFI_SSID=home"), Err(SettingsError::Malformed));
    assert_eq!(Settings::parse(r#"{"WIFI_SSID":"home""#), Err(SettingsError::Malformed));
}

#[test]
fn parse_names_the_missing_key() {
    for key in KEYS {
        assert_eq!(Settings::parse(&text_without(&[key])), Err(SettingsError::Missing(key)));
    }
}

#[test]
fn parse_names_the_first_of_several_missing_keys() {
    assert_eq!(
        Settings::parse(&text_without(&[SettingKey::MqttClientPass, SettingKey::WifiPass])),
        Err(SettingsError::Missing(SettingKey::WifiPass))
    );
    assert_eq!(
        Settings::parse(&text_without(&[SettingKey::MqttClientId, SettingKey::MqttUrl])),
        Err(SettingsError::Missing(SettingKey::MqttUrl))
    );
    assert_eq!(Settings::parse("{}"), Err(SettingsError::Missing(SettingKey::WifiSsid)));
}

#[test]
fn parse_counts_a_setting_that_is_no_string_as_missing() {
    let text = r#"{"WIFI_SSID":"home","WIFI_PASS":1234,"MQTT_URL":"u","MQTT_CLIENT_ID":"c","MQTT_CLIENT_PASS":"p"}"#;
    assert_eq!(Settings::parse(text), Err(SettingsError::Missing(SettingKey::WifiPass)));
    let text = r#"{"WIFI_SSID":null,"WIFI_PASS":"w","MQTT_URL":"u","MQTT_CLIENT_ID":"c","MQTT_CLIENT_PASS":"p"}"#;
    assert_eq!(Settings::parse(text), Err(SettingsError::Missing(SettingKey::WifiSsid)));
}

#[test]
fn parse_finds_no_setting_in_a_document_that_is_no_object() {
    assert_eq!(Settings::parse("[]"), Err(SettingsError::Missing(SettingKey::WifiSsid)));
    assert_eq!(Settings::parse("null"), Err(SettingsError::Missing(SettingKey::WifiSsid)));
    assert_eq!(Settings::parse(r#""WIFI_SSID""#), Err(SettingsError::Missing(SettingKey::WifiSsid)));
}

#[test]
fn settings_from_json_reads_a_parsed_document() {
    let doc = match serde_json::from_str::<serde_json::Value>(&text_without(&[])) {
        Ok(doc) => doc,
        Err(error) => panic!("not a JSON document: {}", error),
    };
    assert_eq!(
        Settings::from_json(&doc),
        Ok(Settings {
            wifi_ssid: String::from("value of WIFI_SSID"),
            wifi_pass: String::from("value of WIFI_PASS"),
            mqtt_url: String::from("value of MQTT_URL"),
            mqtt_client_id: String::from("value of MQTT_CLIENT_ID"),
            mqtt_client_pass: String::from("value of MQTT_CLIENT_PASS"),
        })
    );
}
