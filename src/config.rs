//! Defaults and rules of the process configuration.

use vstd::prelude::*;

verus! {

/// Seconds between two polling rounds when none is configured.
pub fn default_polling_rate() -> (r: u64)
    ensures
        r == 600,
{
    600
}

/// The directory service used when none is configured.
pub fn default_directory() -> (r: String)
    ensures
        r@ == "https://directory.spaceapi.io"@,
{
    String::from_str("https://directory.spaceapi.io")
}

/// The broker port used when none is configured.
pub fn default_mqtt_port() -> (r: u16)
    ensures
        r == 1883,
{
    1883
}

/// Broker credentials apply only when both user name and password are given.
pub fn credentials(username: Option<String>, password: Option<String>) -> (r: Option<
    (String, String),
>)
    ensures
        r == (match (username, password) {
            (Some(u), Some(p)) => Some((u, p)),
            _ => None,
        }),
{
    match (username, password) {
        (Some(u), Some(p)) => Some((u, p)),
        _ => None,
    }
}

} // verus!
