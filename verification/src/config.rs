use vstd::prelude::*;

verus! {

/// A character that may appear in the tool-provider API key.
///
/// The key is sent as an HTTP header value, so it must consist of bytes that
/// are acceptable in one: horizontal tab, or any byte of value 32 or more
/// except DEL (127). A character below 128 is encoded as the single byte of
/// its own value, and a character of 128 or more is encoded as bytes that are
/// all 128 or more, so over characters the condition reads as below.
pub open spec fn is_header_value_char(c: char) -> bool {
    c == '\t' || (c as u32 >= 32 && c as u32 != 127)
}

/// Whether a string may be used as an HTTP header value.
pub open spec fn is_header_value(s: Seq<char>) -> bool {
    forall|i: int| 0 <= i < s.len() ==> is_header_value_char(s[i])
}

/// Relies on reqwest::header::HeaderValue::from_str (the http crate's
/// HeaderValue): it returns Ok exactly when every byte of the string is a
/// horizontal tab or has value 32 or more and is not DEL (127).
#[verifier::external_body]
fn header_value_accepts(s: &str) -> (r: bool)
    ensures
        r == is_header_value(s@),
{
    reqwest::header::HeaderValue::from_str(s).is_ok()
}

/// Why the service configuration could not be assembled. Each variant is
/// fatal: the server must not start listening when one arises.
#[derive(Clone, Copy, Debug, PartialEq, Eq, Structural)]
pub enum ConfigError {
    MissingMapsApiKey,
    MissingProjectId,
    InvalidMapsApiKey,
}

impl ConfigError {
    /// The message reported when startup is aborted for this reason.
    pub fn message(&self) -> (r: &'static str)
        ensures
            self is MissingMapsApiKey ==> r@ == "MAPS_API_KEY environment variable must be set"@,
            self is MissingProjectId ==> r@ == "PROJECT_ID environment variable must be set"@,
            self is InvalidMapsApiKey ==> r@ == "MAPS_API_KEY is not a valid HTTP header value"@,
    {
        match self {
            ConfigError::MissingMapsApiKey => "MAPS_API_KEY environment variable must be set",
            ConfigError::MissingProjectId => "PROJECT_ID environment variable must be set",
            ConfigError::InvalidMapsApiKey => "MAPS_API_KEY is not a valid HTTP header value",
        }
    }
}

/// The service configuration read from the environment at startup.
pub struct Config {
    /// API key for the tool provider, sent as an HTTP header on every
    /// tool-provider request.
    pub maps_api_key: String,
    /// Project identifier for telemetry export.
    pub project_id: String,
}

impl Config {
    /// A configuration is well formed when its API key can stand as an HTTP
    /// header value.
    pub open spec fn wf(&self) -> bool {
        is_header_value(self.maps_api_key@)
    }
}

/// Assemble the service configuration from the two environment variables,
/// given as `None` where the variable is not set.
///
/// Startup must abort, before the server listens, whenever this returns an
/// error: exactly when a variable is missing or the key cannot be sent as an
/// HTTP header value.
pub fn load_config(maps_api_key: Option<String>, project_id: Option<String>) -> (r: Result<
    Config,
    ConfigError,
>)
    ensures
        r is Ok <==> (maps_api_key is Some && project_id is Some && is_header_value(
            maps_api_key->0@,
        )),
        r matches Ok(c) ==> maps_api_key matches Some(k) && project_id matches Some(p)
            && c.maps_api_key == k && c.project_id == p && c.wf(),
        maps_api_key is None ==> r == Err::<Config, ConfigError>(ConfigError::MissingMapsApiKey),
        maps_api_key is Some && project_id is None ==> r == Err::<Config, ConfigError>(
            ConfigError::MissingProjectId,
        ),
        maps_api_key is Some && project_id is Some && !is_header_value(maps_api_key->0@) ==> r
            == Err::<Config, ConfigError>(ConfigError::InvalidMapsApiKey),
{
    let k = match maps_api_key {
        Some(k) => k,
        None => {
            return Err(ConfigError::MissingMapsApiKey);
        },
    };
    let p = match project_id {
        Some(p) => p,
        None => {
            return Err(ConfigError::MissingProjectId);
        },
    };
    if !header_value_accepts(k.as_str()) {
        return Err(ConfigError::InvalidMapsApiKey);
    }
    Ok(Config { maps_api_key: k, project_id: p })
}

} // verus!
