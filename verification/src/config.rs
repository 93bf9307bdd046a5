//! The settings of the proxy.

use crate::text::{chars_of, concat, starts_with, starts_with_str};
use vstd::prelude::*;

verus! {

/// The settings that the proxy is started with.
#[derive(Debug)]
pub struct Config {
    /// The address that the server listens on.
    pub listen: String,
    /// The address of the backend.
    pub lmstudio_url: String,
    /// The log level: `off`, `error`, `warn`, `info`, `debug` or `trace`.
    pub log_level: String,
    /// The seconds that a model is given to load after a trigger.
    pub load_timeout_seconds: u64,
    /// The bytes that the buffer of a stream is made for at first.
    pub max_buffer_size: usize,
    /// Whether data lines of a stream that are no JSON are recovered.
    pub enable_chunk_recovery: bool,
    /// The seconds for which a resolved model name is remembered.
    pub model_resolution_cache_ttl_seconds: u64,
}

impl Default for Config {
    fn default() -> (r: Config)
        ensures
            r.listen@ == "0.0.0.0:11434"@,
            r.lmstudio_url@ == "http://localhost:1234"@,
            r.log_level@ == "info"@,
            r.load_timeout_seconds == 15,
            r.max_buffer_size == 262144,
            !r.enable_chunk_recovery,
            r.model_resolution_cache_ttl_seconds == 300,
    {
        Config {
            listen: "0.0.0.0:11434".to_owned(),
            lmstudio_url: "http://localhost:1234".to_owned(),
            log_level: "info".to_owned(),
            load_timeout_seconds: 15,
            max_buffer_size: 262144,
            enable_chunk_recovery: false,
            model_resolution_cache_ttl_seconds: 300,
        }
    }
}

/// The settings that the streams read while the proxy runs.
#[derive(Debug, Clone, Copy, PartialEq, Eq, Structural)]
pub struct RuntimeConfig {
    pub max_buffer_size: usize,
    pub enable_chunk_recovery: bool,
}

impl Default for RuntimeConfig {
    fn default() -> (r: RuntimeConfig)
        ensures
            r.max_buffer_size == usize::MAX,
            r.enable_chunk_recovery,
    {
        RuntimeConfig { max_buffer_size: usize::MAX, enable_chunk_recovery: true }
    }
}

/// The largest buffer that a stream is given at its start: a mebibyte.
pub const MAX_INITIAL_BUFFER_BYTES: usize = 1024 * 1024;

impl RuntimeConfig {
    /// The settings that a stream runs with, taken from those of the
    /// proxy.
    pub fn from_config(config: &Config) -> (r: RuntimeConfig)
        ensures
            r.max_buffer_size == config.max_buffer_size,
            r.enable_chunk_recovery == config.enable_chunk_recovery,
    {
        RuntimeConfig {
            max_buffer_size: config.max_buffer_size,
            enable_chunk_recovery: config.enable_chunk_recovery,
        }
    }

    /// The bytes that the buffer of a stream is made for at first: the
    /// configured size, held to a mebibyte.
    pub fn initial_buffer_capacity(&self) -> (r: usize)
        ensures
            r == if self.max_buffer_size <= MAX_INITIAL_BUFFER_BYTES {
                self.max_buffer_size
            } else {
                MAX_INITIAL_BUFFER_BYTES
            },
    {
        if self.max_buffer_size <= MAX_INITIAL_BUFFER_BYTES {
            self.max_buffer_size
        } else {
            MAX_INITIAL_BUFFER_BYTES
        }
    }
}

/// Why a text is no URL, in the words of the `url` crate; nothing for a
/// text that is one.
pub uninterp spec fn url_parse_error(text: Seq<char>) -> Option<Seq<char>>;

/// `url::Url::parse`, and `ParseError`'s `Display` form: the result is
/// nothing where the text is a URL, and the parser's complaint where it is
/// none; the contract gives it a name.
#[verifier::external_body]
fn url_parse_error_exec(text: &str) -> (r: Option<String>)
    ensures
        crate::storage::virtual_models::opt_text(r) == url_parse_error(text@),
{
    match url::Url::parse(text) {
        Ok(_) => None,
        Err(e) => Some(e.to_string()),
    }
}

/// What is wrong with the settings, where something is: the listen
/// address, which `listen_is_socket_address` judges; the scheme of the
/// backend's address, which has to be `http` or `https`; the backend's
/// address as a URL, which `not_a_url` judges.
pub open spec fn config_fault(
    listen: Seq<char>,
    lmstudio_url: Seq<char>,
    listen_is_socket_address: bool,
    not_a_url: Option<Seq<char>>,
) -> Option<Seq<char>> {
    if !listen_is_socket_address {
        Some("invalid listen address: "@ + listen)
    } else if !starts_with(lmstudio_url, "http://"@) && !starts_with(lmstudio_url, "https://"@) {
        Some("invalid LM Studio URL (must start with http:// or https://): "@ + lmstudio_url)
    } else {
        match not_a_url {
            Some(why) => Some("invalid LM Studio URL format: "@ + why),
            None => None,
        }
    }
}

/// What is wrong with the settings, given the complaint of the URL parser
/// about the backend's address where it has one.
pub fn check_config(config: &Config, listen_is_socket_address: bool, not_a_url: Option<String>)
    -> (r: Result<(), String>)
    ensures
        match r {
            Ok(_) => config_fault(
                config.listen@,
                config.lmstudio_url@,
                listen_is_socket_address,
                crate::storage::virtual_models::opt_text(not_a_url),
            ) is None,
            Err(fault) => config_fault(
                config.listen@,
                config.lmstudio_url@,
                listen_is_socket_address,
                crate::storage::virtual_models::opt_text(not_a_url),
            ) == Some(fault@),
        },
{
    if !listen_is_socket_address {
        return Err(concat("invalid listen address: ", config.listen.as_str()));
    }
    let url = chars_of(config.lmstudio_url.as_str());
    if !starts_with_str(&url, "http://") && !starts_with_str(&url, "https://") {
        return Err(
            concat(
                "invalid LM Studio URL (must start with http:// or https://): ",
                config.lmstudio_url.as_str(),
            ),
        );
    }
    match not_a_url {
        Some(why) => Err(concat("invalid LM Studio URL format: ", why.as_str())),
        None => Ok(()),
    }
}

/// Checks the settings. Whether the listen address is a socket address is
/// the caller's to say.
pub fn validate_config(config: &Config, listen_is_socket_address: bool) -> (r: Result<(), String>)
    ensures
        match r {
            Ok(_) => config_fault(
                config.listen@,
                config.lmstudio_url@,
                listen_is_socket_address,
                url_parse_error(config.lmstudio_url@),
            ) is None,
            Err(fault) => config_fault(
                config.listen@,
                config.lmstudio_url@,
                listen_is_socket_address,
                url_parse_error(config.lmstudio_url@),
            ) == Some(fault@),
        },
{
    let not_a_url = url_parse_error_exec(config.lmstudio_url.as_str());
    check_config(config, listen_is_socket_address, not_a_url)
}

} // verus!
