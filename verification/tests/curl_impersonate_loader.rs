use bimp_persona::curl_impersonate_loader::{
    curl_forwarded_headers, curl_target_for_user_agent, fallback_target, is_top_level_navigation,
    major_version_after_token, should_forward_header_to_curl,
    suppress_navigation_only_default_headers, supports_url,
};
use http::{HeaderMap, HeaderName};

#[test]
fn curl_target_tracks_chrome_user_agent() {
    assert_eq!(
        curl_target_for_user_agent("Mozilla/5.0 Chrome/142.0.0.0 Safari/537.36"),
        "chrome142"
    );
}

#[test]
fn skips_fingerprint_headers_so_curl_can_use_native_defaults() {
    assert!(!should_forward_header_to_curl(
        HeaderName::from_static("user-agent").as_str(),
        true
    ));
    assert!(!should_forward_header_to_curl(
        HeaderName::from_static("sec-ch-ua").as_str(),
        true
    ));
    assert!(!should_forward_header_to_curl(
        HeaderName::from_static("accept").as_str(),
        true
    ));
    assert!(should_forward_header_to_curl(
        HeaderName::from_static("sec-fetch-mode").as_str(),
        false
    ));
    assert!(should_forward_header_to_curl(
        HeaderName::from_static("cookie").as_str(),
        true
    ));
    assert!(should_forward_header_to_curl(
        HeaderName::from_static("content-type").as_str(),
        true
    ));
}

#[test]
fn subresource_requests_suppress_navigation_only_defaults() {
    let mut headers = HeaderMap::new();
    suppress_navigation_only_default_headers(&mut headers);

    assert_eq!(
        headers
            .get("upgrade-insecure-requests")
            .and_then(|value| value.to_str().ok()),
        Some("")
    );
    assert_eq!(
        headers
            .get("sec-fetch-user")
            .and_then(|value| value.to_str().ok()),
        Some("")
    );
}

#[test]
fn curl_target_falls_back_to_chromium_and_crios_tokens() {
    assert_eq!(curl_target_for_user_agent("Mozilla/5.0 Chromium/120.1 X"), "chrome120");
    assert_eq!(curl_target_for_user_agent("Mozilla/5.0 CriOS/99.0 Mobile"), "chrome99");
    assert_eq!(curl_target_for_user_agent("Mozilla/5.0 Firefox/120.0"), "chrome136");
    assert_eq!(curl_target_for_user_agent(""), "chrome136");
}

#[test]
fn major_version_rejects_zero_overflow_and_garbage() {
    assert_eq!(major_version_after_token("Chrome/0.1", "Chrome/"), None);
    assert_eq!(major_version_after_token("Chrome/70000.1", "Chrome/"), None);
    assert_eq!(major_version_after_token("Chrome/abc", "Chrome/"), None);
    assert_eq!(major_version_after_token("Chrome/", "Chrome/"), None);
    assert_eq!(major_version_after_token("Chrome/+7;x", "Chrome/"), Some(7));
    assert_eq!(major_version_after_token("Chrome/65535)", "Chrome/"), Some(65535));
    assert_eq!(major_version_after_token("a Chrome/1 b Chrome/2", "Chrome/"), Some(1));
    assert_eq!(major_version_after_token("no token here", "Chrome/"), None);
}

#[test]
fn fallback_retries_only_non_default_targets() {
    assert_eq!(fallback_target("chrome136"), None);
    assert_eq!(fallback_target("chrome142"), Some("chrome136".to_string()));
}

#[test]
fn only_http_schemes_are_supported() {
    assert!(supports_url("http"));
    assert!(supports_url("https"));
    assert!(!supports_url("file"));
    assert!(!supports_url("data"));
}

#[test]
fn top_level_navigation_reads_sec_fetch_mode_case_insensitively() {
    let mut headers = HeaderMap::new();
    assert!(!is_top_level_navigation(&headers));
    headers.insert("sec-fetch-mode", "NaVigate".parse().unwrap());
    assert!(is_top_level_navigation(&headers));
    headers.insert("sec-fetch-mode", "cors".parse().unwrap());
    assert!(!is_top_level_navigation(&headers));
}

#[test]
fn navigation_requests_keep_only_non_fingerprint_headers() {
    let mut headers = HeaderMap::new();
    headers.insert("sec-fetch-mode", "navigate".parse().unwrap());
    headers.insert("user-agent", "persona".parse().unwrap());
    headers.insert("accept", "text/html".parse().unwrap());
    headers.insert("cookie", "a=1".parse().unwrap());
    headers.append("cookie", "b=2".parse().unwrap());
    let forwarded = curl_forwarded_headers(headers);
    assert_eq!(forwarded.len(), 1);
    assert_eq!(forwarded.keys_len(), 1);
    let cookies: Vec<_> = forwarded.get_all("cookie").iter().collect();
    assert_eq!(cookies, vec!["a=1"]);
    assert!(forwarded.get("sec-fetch-mode").is_none());
    assert!(forwarded.get("upgrade-insecure-requests").is_none());
}

#[test]
fn subresource_requests_keep_fingerprint_headers_and_suppress_defaults() {
    let mut headers = HeaderMap::new();
    headers.insert("sec-fetch-mode", "cors".parse().unwrap());
    headers.insert("host", "example.test".parse().unwrap());
    headers.insert("accept", "*/*".parse().unwrap());
    headers.insert("sec-fetch-user", "?1".parse().unwrap());
    let forwarded = curl_forwarded_headers(headers);
    assert!(forwarded.get("host").is_none());
    assert_eq!(forwarded.get("accept").unwrap(), "*/*");
    assert_eq!(forwarded.get("sec-fetch-mode").unwrap(), "cors");
    assert_eq!(forwarded.get("sec-fetch-user").unwrap(), "");
    assert_eq!(forwarded.get("upgrade-insecure-requests").unwrap(), "");
}
