use vstd::prelude::*;
use vstd::utf8::encode_utf8;

verus! {

/// The device's settings: the access point to join and the MQTT broker.
#[derive(Clone, Debug, PartialEq)]
pub struct Config {
    pub wifi_ssid: String,
    pub wifi_psk: String,
    pub mqtt_endpoint: String,
}

impl Default for Config {
    /// The settings used where the build supplies none.
    fn default() -> (r: Config)
        ensures
            r.wifi_ssid@ == "Wokwi-GUEST"@,
            r.wifi_psk@ == ""@,
            r.mqtt_endpoint@ == "mqtt://192.168.1.8:1883"@,
    {
        Config {
            wifi_ssid: "Wokwi-GUEST".to_owned(),
            wifi_psk: "".to_owned(),
            mqtt_endpoint: "mqtt://192.168.1.8:1883".to_owned(),
        }
    }
}

/// How the device authenticates to the access point.
#[derive(Clone, Copy, Debug, PartialEq, Eq, Structural)]
pub enum AuthMethod {
    Open,
    WPA2Personal,
}

/// The longest SSID an access point configuration holds, in bytes.
pub const MAX_SSID_LEN: usize = 32;

/// The longest passphrase an access point configuration holds, in bytes.
pub const MAX_PSK_LEN: usize = 64;

/// The station settings the device joins its access point with.
#[derive(Clone, Debug, PartialEq)]
pub struct WifiClientSettings {
    pub ssid: String,
    pub password: String,
    pub auth_method: AuthMethod,
}

/// The authentication for a passphrase: none for an empty one, WPA2 otherwise.
pub fn auth_method_for(psk: &str) -> (r: AuthMethod)
    ensures
        r == (if psk@.len() == 0 {
            AuthMethod::Open
        } else {
            AuthMethod::WPA2Personal
        }),
{
    if psk.is_empty() {
        AuthMethod::Open
    } else {
        AuthMethod::WPA2Personal
    }
}

/// The station settings for `config`.  The SSID and passphrase must fit the
/// fixed-size fields of the Wi-Fi configuration.
pub fn wifi_client_settings(config: &Config) -> (r: WifiClientSettings)
    requires
        encode_utf8(config.wifi_ssid@).len() <= MAX_SSID_LEN,
        encode_utf8(config.wifi_psk@).len() <= MAX_PSK_LEN,
    ensures
        r.ssid@ == config.wifi_ssid@,
        r.password@ == config.wifi_psk@,
        r.auth_method == (if config.wifi_psk@.len() == 0 {
            AuthMethod::Open
        } else {
            AuthMethod::WPA2Personal
        }),
{
    WifiClientSettings {
        ssid: config.wifi_ssid.clone(),
        password: config.wifi_psk.clone(),
        auth_method: auth_method_for(config.wifi_psk.as_str()),
    }
}

} // verus!
