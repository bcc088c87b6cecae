//! Where the gateway is, and how it is described to the rest of the program.

use crate::error::AgentError;
use crate::text::{slash_trimmed, text_of, trim, trim_slash, trimmed};
use vstd::prelude::*;

verus! {

/// The environment variable that holds the gateway's base URL.
pub const BASE_URL_ENV: &'static str = "APERTURE_BASE_URL";

/// The file, among the configuration files, that holds the user's overrides.
pub const OVERRIDES_FILE: &'static str = "aperture-overrides.yml";

/// How requests in the OpenAI protocol are put to a provider.
#[derive(Clone, Copy, Debug)]
pub struct OpenAiCompatConfig {
    pub api_key_env: &'static str,
    pub base_url: &'static str,
    pub max_tokens_field: &'static str,
    pub include_stream_usage: bool,
    pub provider_name: &'static str,
}

/// How requests are put to the gateway itself.
pub fn config() -> (r: OpenAiCompatConfig)
    ensures
        r.api_key_env@ == BASE_URL_ENV@,
        r.base_url@ == ""@,
        r.max_tokens_field@ == "max_tokens"@,
        r.include_stream_usage,
        r.provider_name@ == "Aperture"@,
{
    OpenAiCompatConfig {
        api_key_env: BASE_URL_ENV,
        base_url: "",
        max_tokens_field: "max_tokens",
        include_stream_usage: true,
        provider_name: "Aperture",
    }
}

/// A base URL as it was given, if it is more than white space.
pub open spec fn usable(url: Option<Seq<char>>) -> bool {
    url is Some && trimmed(url->0).len() > 0
}

/// The base URL to use: the one in the environment, else the configured one.
pub open spec fn base_url(env: Option<Seq<char>>, configured: Option<Seq<char>>) -> Option<
    Seq<char>,
> {
    if usable(env) {
        Some(slash_trimmed(env->0))
    } else if usable(configured) {
        Some(slash_trimmed(configured->0))
    } else {
        None
    }
}

/// A base URL without white space around it or slashes at its end, if it was given
/// and is more than white space.
pub fn usable_url(url: Option<String>) -> (r: Option<String>)
    ensures
        text_of(r) == (if usable(text_of(url)) {
            Some(slash_trimmed(text_of(url)->0))
        } else {
            None
        }),
{
    match url {
        Some(url) => if trim(url.as_str()).is_empty() {
            None
        } else {
            Some(trim_slash(url))
        },
        None => None,
    }
}

/// The base URL to use, from what the environment and the configuration say of it.
pub fn resolve_base_url(env: Option<String>, configured: Option<String>) -> (r: Result<
    String,
    AgentError,
>)
    ensures
        match base_url(text_of(env), text_of(configured)) {
            Some(url) => r is Ok && r->Ok_0@ == url,
            None => r matches Err(AgentError::Config { message }) && message@ == BASE_URL_ENV@
                + " not set"@,
        },
{
    if let Some(url) = usable_url(env) {
        return Ok(url);
    }
    if let Some(url) = usable_url(configured) {
        return Ok(url);
    }
    let mut message = BASE_URL_ENV.to_owned();
    message.append(" not set");
    Err(AgentError::Config { message })
}

} // verus!
