//! The settings that the controller starts from: a JSON object that holds the
//! name and passphrase of the network and the address, client identifier and
//! client credential of the broker, each as a string.

use crate::json::{as_text, json_of, json_parsed, member, parse, Json};
use vstd::prelude::*;
use vstd::string::*;

verus! {

/// Key of the network name.
pub const WIFI_SSID: &'static str = "WIFI_SSID";

/// Key of the network passphrase.
pub const WIFI_PASS: &'static str = "WIFI_PASS";

/// Key of the broker address.
pub const MQTT_URL: &'static str = "MQTT_URL";

/// Key of the client identifier.
pub const MQTT_CLIENT_ID: &'static str = "MQTT_CLIENT_ID";

/// Key of the client credential.
pub const MQTT_CLIENT_PASS: &'static str = "MQTT_CLIENT_PASS";

/// One of the settings that must be present.
#[derive(Clone, Copy, Debug, PartialEq, Eq, Structural)]
pub enum SettingKey {
    WifiSsid,
    WifiPass,
    MqttUrl,
    MqttClientId,
    MqttClientPass,
}

/// Why a text gives no settings.
#[derive(Clone, Copy, Debug, PartialEq, Eq, Structural)]
pub enum SettingsError {
    /// The text is not a JSON document.
    Malformed,
    /// The document holds no string under this key. Of several such keys the
    /// first in the order of [`SettingKey`] is named.
    Missing(SettingKey),
}

/// The settings of the controller.
#[derive(Clone, Debug, PartialEq, Eq)]
pub struct Settings {
    pub wifi_ssid: String,
    pub wifi_pass: String,
    pub mqtt_url: String,
    pub mqtt_client_id: String,
    pub mqtt_client_pass: String,
}

/// The mathematical content of [`Settings`].
pub struct SettingsView {
    pub wifi_ssid: Seq<char>,
    pub wifi_pass: Seq<char>,
    pub mqtt_url: Seq<char>,
    pub mqtt_client_id: Seq<char>,
    pub mqtt_client_pass: Seq<char>,
}

impl View for Settings {
    type V = SettingsView;

    open spec fn view(&self) -> SettingsView {
        SettingsView {
            wifi_ssid: self.wifi_ssid@,
            wifi_pass: self.wifi_pass@,
            mqtt_url: self.mqtt_url@,
            mqtt_client_id: self.mqtt_client_id@,
            mqtt_client_pass: self.mqtt_client_pass@,
        }
    }
}

impl SettingKey {
    /// The key as it is written in the document.
    pub open spec fn text(self) -> Seq<char> {
        match self {
            SettingKey::WifiSsid => WIFI_SSID@,
            SettingKey::WifiPass => WIFI_PASS@,
            SettingKey::MqttUrl => MQTT_URL@,
            SettingKey::MqttClientId => MQTT_CLIENT_ID@,
            SettingKey::MqttClientPass => MQTT_CLIENT_PASS@,
        }
    }

    /// The key as it is written in the document.
    pub fn name(&self) -> (name: &'static str)
        ensures
            name@ == self.text(),
    {
        match self {
            SettingKey::WifiSsid => WIFI_SSID,
            SettingKey::WifiPass => WIFI_PASS,
            SettingKey::MqttUrl => MQTT_URL,
            SettingKey::MqttClientId => MQTT_CLIENT_ID,
            SettingKey::MqttClientPass => MQTT_CLIENT_PASS,
        }
    }
}

/// The string that a document holds under `key`: `None` where the document is
/// no object, has no such member, or holds something else than a string there.
pub open spec fn text_at(doc: Json, key: SettingKey) -> Option<Seq<char>> {
    match doc.member(key.text()) {
        Some(value) => value.as_text(),
        None => None,
    }
}

/// The settings that a document holds, or the first key that it lacks.
pub open spec fn settings_in(doc: Json) -> Result<SettingsView, SettingsError> {
    if text_at(doc, SettingKey::WifiSsid) is None {
        Err(SettingsError::Missing(SettingKey::WifiSsid))
    } else if text_at(doc, SettingKey::WifiPass) is None {
        Err(SettingsError::Missing(SettingKey::WifiPass))
    } else if text_at(doc, SettingKey::MqttUrl) is None {
        Err(SettingsError::Missing(SettingKey::MqttUrl))
    } else if text_at(doc, SettingKey::MqttClientId) is None {
        Err(SettingsError::Missing(SettingKey::MqttClientId))
    } else if text_at(doc, SettingKey::MqttClientPass) is None {
        Err(SettingsError::Missing(SettingKey::MqttClientPass))
    } else {
        Ok(
            SettingsView {
                wifi_ssid: text_at(doc, SettingKey::WifiSsid)->0,
                wifi_pass: text_at(doc, SettingKey::WifiPass)->0,
                mqtt_url: text_at(doc, SettingKey::MqttUrl)->0,
                mqtt_client_id: text_at(doc, SettingKey::MqttClientId)->0,
                mqtt_client_pass: text_at(doc, SettingKey::MqttClientPass)->0,
            },
        )
    }
}

/// The settings that a text holds.
pub open spec fn settings_parsed(text: Seq<char>) -> Result<SettingsView, SettingsError> {
    match json_parsed(text) {
        Some(doc) => settings_in(doc),
        None => Err(SettingsError::Malformed),
    }
}

/// The content of an outcome of reading settings.
pub open spec fn viewed(outcome: Result<Settings, SettingsError>) -> Result<
    SettingsView,
    SettingsError,
> {
    match outcome {
        Ok(settings) => Ok(settings@),
        Err(error) => Err(error),
    }
}

/// Reads the string under `key`.
fn read(doc: &serde_json::Value, key: SettingKey) -> (r: Result<String, SettingsError>)
    ensures
        match text_at(json_of(*doc), key) {
            Some(text) => r matches Ok(found) && found@ == text,
            None => r == Err::<String, SettingsError>(SettingsError::Missing(key)),
        },
{
    let found = match member(doc, key.name()) {
        Some(value) => as_text(value),
        None => None,
    };
    match found {
        Some(text) => Ok(text.to_owned()),
        None => Err(SettingsError::Missing(key)),
    }
}

impl Settings {
    /// Reads the settings from a parsed document.
    pub fn from_json(doc: &serde_json::Value) -> (r: Result<Settings, SettingsError>)
        ensures
            viewed(r) == settings_in(json_of(*doc)),
    {
        let wifi_ssid = match read(doc, SettingKey::WifiSsid) {
            Ok(text) => text,
            Err(error) => {
                return Err(error);
            },
        };
        let wifi_pass = match read(doc, SettingKey::WifiPass) {
            Ok(text) => text,
            Err(error) => {
                return Err(error);
            },
        };
        let mqtt_url = match read(doc, SettingKey::MqttUrl) {
            Ok(text) => text,
            Err(error) => {
                return Err(error);
            },
        };
        let mqtt_client_id = match read(doc, SettingKey::MqttClientId) {
            Ok(text) => text,
            Err(error) => {
                return Err(error);
            },
        };
        let mqtt_client_pass = match read(doc, SettingKey::MqttClientPass) {
            Ok(text) => text,
            Err(error) => {
                return Err(error);
            },
        };
        Ok(Settings { wifi_ssid, wifi_pass, mqtt_url, mqtt_client_id, mqtt_client_pass })
    }

    /// Reads the settings from the text of a JSON document.
    pub fn parse(text: &str) -> (r: Result<Settings, SettingsError>)
        ensures
            viewed(r) == settings_parsed(text@),
    {
        match parse(text) {
            Ok(doc) => Settings::from_json(&doc),
            Err(_) => Err(SettingsError::Malformed),
        }
    }
}

} // verus!
