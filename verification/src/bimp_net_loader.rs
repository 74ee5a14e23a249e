//! Request settings for the bimp-net transport: the impersonation profile,
//! proxy and timeouts a webview's network configuration selects.

use vstd::prelude::*;
use http::HeaderMap;
use crate::headers::header_map_contents;
use crate::text::{chars_of, trim, trim_bounds};

verus! {

/// Connect timeout used when the configuration gives none, in milliseconds.
pub const CONNECT_TIMEOUT_MS: u64 = 10_000;

/// Request timeout used when the configuration gives none, in milliseconds.
pub const REQUEST_TIMEOUT_MS: u64 = 30_000;

/// The network configuration of a webview.
pub struct BimpNetworkConfig {
    pub impersonation_profile: String,
    pub proxy_url: Option<String>,
    pub connect_timeout_ms: Option<u64>,
    pub request_timeout_ms: Option<u64>,
}

/// The settings a bimp-net client is built with.
pub struct BimpClientSettings {
    pub impersonation_target: String,
    pub proxy_url: Option<String>,
    pub connect_timeout_ms: u64,
    pub request_timeout_ms: u64,
}

/// Why a bimp-net request cannot be made.
#[derive(Clone, Copy, Debug)]
pub enum BimpLoaderError {
    /// Neither the webview configuration nor the preference names a profile.
    NoImpersonationProfile,
}

/// The profile a request impersonates: the webview's, else the preference.
pub open spec fn resolved_profile(config: Option<&BimpNetworkConfig>, default_profile: Seq<char>) -> Seq<char> {
    match config {
        Some(c) => c.impersonation_profile@,
        None => default_profile,
    }
}

/// The text of an optional string.
pub open spec fn optional_text(value: Option<String>) -> Option<Seq<char>> {
    match value {
        Some(v) => Some(v@),
        None => None,
    }
}

/// The proxy the webview's configuration names.
pub open spec fn configured_proxy(config: Option<&BimpNetworkConfig>) -> Option<Seq<char>> {
    match config {
        Some(c) => optional_text(c.proxy_url),
        None => None,
    }
}

/// An optional timeout, or its default.
pub open spec fn timeout_or(value: Option<u64>, default: u64) -> u64 {
    match value {
        Some(ms) => ms,
        None => default,
    }
}

/// Law: a configured timeout is used as it is, whatever its value; only a
/// missing one gets its default, 10 seconds to connect and 30 seconds for the
/// whole request.
pub proof fn law_configured_timeouts_are_used_unchanged(ms: u64, default: u64)
    ensures
        timeout_or(Some(ms), default) == ms,
        timeout_or(None, default) == default,
        CONNECT_TIMEOUT_MS == 10_000,
        REQUEST_TIMEOUT_MS == 30_000,
{
}

/// Whether a URL scheme is served by bimp-net.
pub fn supports_url(scheme: &str) -> (r: bool)
    ensures
        r == (scheme@ == "http"@ || scheme@ == "https"@),
{
    crate::curl_impersonate_loader::supports_url(scheme)
}

fn is_blank(text: &str) -> (r: bool)
    ensures
        r == (trim(text@).len() == 0),
{
    let v = chars_of(text);
    let (a, b) = trim_bounds(&v, 0, v.len());
    assert(v@.subrange(0, v@.len() as int) =~= text@);
    a == b
}

/// The settings for a request: the resolved profile, which must not be blank,
/// the configured proxy, and the configured timeouts or their defaults.
pub fn resolve_client_settings(config: Option<&BimpNetworkConfig>, default_profile: &str) -> (r: Result<
    BimpClientSettings,
    BimpLoaderError,
>)
    ensures
        r is Err <==> trim(resolved_profile(config, default_profile@)).len() == 0,
        r matches Err(e) ==> e == BimpLoaderError::NoImpersonationProfile,
        r matches Ok(s) ==> {
            &&& s.impersonation_target@ == resolved_profile(config, default_profile@)
            &&& optional_text(s.proxy_url) == configured_proxy(config)
            &&& s.connect_timeout_ms == timeout_or(
                match config {
                    Some(c) => c.connect_timeout_ms,
                    None => None,
                },
                CONNECT_TIMEOUT_MS,
            )
            &&& s.request_timeout_ms == timeout_or(
                match config {
                    Some(c) => c.request_timeout_ms,
                    None => None,
                },
                REQUEST_TIMEOUT_MS,
            )
        },
{
    let target = match config {
        Some(c) => c.impersonation_profile.clone(),
        None => String::from_str(default_profile),
    };
    if is_blank(target.as_str()) {
        return Err(BimpLoaderError::NoImpersonationProfile);
    }
    let proxy_url = match config {
        Some(c) => match &c.proxy_url {
            Some(p) => Some(p.clone()),
            None => None,
        },
        None => None,
    };
    let connect_timeout_ms: u64 = match config {
        Some(c) => match c.connect_timeout_ms {
            Some(ms) => ms,
            None => CONNECT_TIMEOUT_MS,
        },
        None => CONNECT_TIMEOUT_MS,
    };
    let request_timeout_ms: u64 = match config {
        Some(c) => match c.request_timeout_ms {
            Some(ms) => ms,
            None => REQUEST_TIMEOUT_MS,
        },
        None => REQUEST_TIMEOUT_MS,
    };
    Ok(BimpClientSettings { impersonation_target: target, proxy_url, connect_timeout_ms, request_timeout_ms })
}

/// The headers of a request as bimp-net receives them (the header part of
/// building the request): all of Servo's headers, every value of each, in
/// order, unchanged.
pub fn bimp_forwarded_headers(headers: HeaderMap) -> (r: HeaderMap)
    ensures
        header_map_contents(r) == header_map_contents(headers),
{
    headers
}

} // verus!
