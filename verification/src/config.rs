//! Immutable link configuration: network name, pre-shared key, status port.

use vstd::prelude::*;

verus! {

/// Default TCP port on which the status endpoint listens.
pub const DEFAULT_API_PORT: u16 = 80;

/// Capacity, in bytes, of the driver's fixed buffer for the network name.
pub const SSID_MAX_BYTES: usize = 32;

/// Capacity, in bytes, of the driver's fixed buffer for the pre-shared key.
pub const PASS_MAX_BYTES: usize = 64;

/// Immutable input configuration for the supervisor and the status server.
///
/// The pre-shared key may be empty (open network). Both text fields must fit
/// the driver's fixed-capacity byte buffers; exceeding a capacity is a
/// configuration error, never a runtime error.
#[derive(Clone, Debug)]
pub struct Config {
    pub port: u16,
    pub wifi_ssid: String,
    pub wifi_pass: String,
}

impl Config {
    /// Both credential fields fit the driver's fixed-capacity buffers.
    pub open spec fn credentials_fit(&self) -> bool {
        vstd::utf8::encode_utf8(self.wifi_ssid@).len() <= SSID_MAX_BYTES
            && vstd::utf8::encode_utf8(self.wifi_pass@).len() <= PASS_MAX_BYTES
    }

    /// Checks that the credentials fit the driver's buffers.
    pub fn check_credentials(&self) -> (ok: bool)
        ensures
            ok == self.credentials_fit(),
    {
        self.wifi_ssid.as_str().as_bytes().len() <= SSID_MAX_BYTES
            && self.wifi_pass.as_str().as_bytes().len() <= PASS_MAX_BYTES
    }
}

impl Default for Config {
    /// Built-in fallback configuration used when no other source supplies one.
    fn default() -> (c: Config)
        ensures
            c.port == DEFAULT_API_PORT,
            c.wifi_ssid@ == "internet"@,
            c.wifi_pass@ == "password"@,
    {
        Config {
            port: DEFAULT_API_PORT,
            wifi_ssid: String::from_str("internet"),
            wifi_pass: String::from_str("password"),
        }
    }
}

} // verus!
