//! Request shaping for the curl-impersonate transport: which impersonation
//! target a user agent selects, and which of Servo's headers reach the
//! impersonating client.

use vstd::prelude::*;
use crate::headers::{
    ascii_bytes, first_values, header_map_contents, header_map_first, header_map_insert_static,
    header_map_get_value, header_map_keys, header_map_set_value, header_map_remove, is_visible_ascii,
};
use crate::text::{
    after_first, chars_of, occurs_at, decimal_text, field_end, find_first, leading_field, parse_u16_chars,
    parse_u16_text, push_decimal, str_eq,
};
use http::HeaderMap;

verus! {

/// The impersonation target used when the user agent names no Chrome version.
pub const DEFAULT_CHROME_TARGET: &'static str = "chrome136";

/// The first major version after the first occurrence of `token` in `value`:
/// the text up to the next `.`, ` `, `;` or `)` parsed as a `u16`, kept only when
/// it is positive.
pub open spec fn major_version_after(value: Seq<char>, token: Seq<char>) -> Option<u16> {
    match after_first(value, token) {
        Some(rest) => match parse_u16_text(leading_field(rest)) {
            Some(major) => if major > 0 { Some(major) } else { None },
            None => None,
        },
        None => None,
    }
}

/// The Chrome major version a user agent announces: after `Chrome/`, else after
/// `Chromium/`, else after `CriOS/`.
pub open spec fn chrome_major_version(user_agent: Seq<char>) -> Option<u16> {
    match major_version_after(user_agent, "Chrome/"@) {
        Some(major) => Some(major),
        None => match major_version_after(user_agent, "Chromium/"@) {
            Some(major) => Some(major),
            None => major_version_after(user_agent, "CriOS/"@),
        },
    }
}

/// The curl-impersonate target for a user agent: `chrome<major>`, or the default target.
pub open spec fn curl_target(user_agent: Seq<char>) -> Seq<char> {
    match chrome_major_version(user_agent) {
        Some(major) => "chrome"@ + decimal_text(major as nat),
        None => DEFAULT_CHROME_TARGET@,
    }
}

/// Headers that curl-impersonate always sets itself.
pub open spec fn is_transport_header(name: Seq<char>) -> bool {
    ||| name == "host"@
    ||| name == "connection"@
    ||| name == "user-agent"@
    ||| name == "accept-encoding"@
    ||| name == "content-length"@
}

/// Headers whose values make up the browser fingerprint; on a top-level
/// navigation curl-impersonate sends its own native values for them.
pub open spec fn is_fingerprint_header(name: Seq<char>) -> bool {
    ||| name == "accept"@
    ||| name == "accept-language"@
    ||| name == "upgrade-insecure-requests"@
    ||| name == "sec-fetch-dest"@
    ||| name == "sec-fetch-mode"@
    ||| name == "sec-fetch-site"@
    ||| name == "sec-fetch-user"@
    ||| name == "sec-ch-ua"@
    ||| name == "sec-ch-ua-mobile"@
    ||| name == "sec-ch-ua-platform"@
    ||| name == "sec-ch-ua-arch"@
    ||| name == "sec-ch-ua-bitness"@
    ||| name == "sec-ch-ua-platform-version"@
    ||| name == "sec-ch-ua-full-version-list"@
    ||| name == "sec-ch-ua-model"@
    ||| name == "sec-ch-device-memory"@
}

/// Whether a header named `name` is handed to curl-impersonate.
pub open spec fn forwards_to_curl(name: Seq<char>, top_level_navigation: bool) -> bool {
    if is_transport_header(name) {
        false
    } else if is_fingerprint_header(name) {
        !top_level_navigation
    } else {
        true
    }
}

fn is_transport_header_exec(name: &str) -> (r: bool)
    ensures
        r == is_transport_header(name@),
{
    str_eq(name, "host") || str_eq(name, "connection") || str_eq(name, "user-agent")
        || str_eq(name, "accept-encoding") || str_eq(name, "content-length")
}

fn is_fingerprint_header_exec(name: &str) -> (r: bool)
    ensures
        r == is_fingerprint_header(name@),
{
    str_eq(name, "accept") || str_eq(name, "accept-language")
        || str_eq(name, "upgrade-insecure-requests") || str_eq(name, "sec-fetch-dest")
        || str_eq(name, "sec-fetch-mode") || str_eq(name, "sec-fetch-site")
        || str_eq(name, "sec-fetch-user") || str_eq(name, "sec-ch-ua")
        || str_eq(name, "sec-ch-ua-mobile") || str_eq(name, "sec-ch-ua-platform")
        || str_eq(name, "sec-ch-ua-arch") || str_eq(name, "sec-ch-ua-bitness")
        || str_eq(name, "sec-ch-ua-platform-version")
        || str_eq(name, "sec-ch-ua-full-version-list") || str_eq(name, "sec-ch-ua-model")
        || str_eq(name, "sec-ch-device-memory")
}

/// Whether the header `name` (lower case, as `HeaderName::as_str` gives it) is
/// handed to curl-impersonate: transport headers never are, fingerprint headers
/// only outside top-level navigations, every other header always.
pub fn should_forward_header_to_curl(name: &str, top_level_navigation: bool) -> (r: bool)
    ensures
        r == forwards_to_curl(name@, top_level_navigation),
{
    if is_transport_header_exec(name) {
        false
    } else if is_fingerprint_header_exec(name) {
        !top_level_navigation
    } else {
        true
    }
}

/// Finds the major version that follows `token` in `value`.
pub fn major_version_after_token(value: &str, token: &str) -> (r: Option<u16>)
    ensures
        r == major_version_after(value@, token@),
{
    let v = chars_of(value);
    let t = chars_of(token);
    match find_first(&v, &t) {
        None => None,
        Some(i) => {
            assert(occurs_at(v@, t@, i as int));
            assert(i + t@.len() <= v@.len());
            assert(v@.len() == v.len());
            let start: usize = i + t.len();
            let end: usize = field_end(&v, start);
            match parse_u16_chars(&v, start, end) {
                Some(major) => {
                    if major > 0 {
                        Some(major)
                    } else {
                        None
                    }
                },
                None => None,
            }
        },
    }
}

/// The impersonation target matching the Chrome version of `user_agent`.
pub fn curl_target_for_user_agent(user_agent: &str) -> (r: String)
    ensures
        r@ == curl_target(user_agent@),
{
    let mut major = major_version_after_token(user_agent, "Chrome/");
    if major.is_none() {
        major = major_version_after_token(user_agent, "Chromium/");
    }
    if major.is_none() {
        major = major_version_after_token(user_agent, "CriOS/");
    }
    match major {
        Some(m) => {
            let mut target = String::from_str("chrome");
            push_decimal(&mut target, m as u64);
            target
        },
        None => String::from_str(DEFAULT_CHROME_TARGET),
    }
}

/// The target to retry with after a request through `target` failed: the
/// default target, unless `target` already was the default.
pub fn fallback_target(target: &str) -> (r: Option<String>)
    ensures
        r is Some <==> target@ != DEFAULT_CHROME_TARGET@,
        r matches Some(t) ==> t@ == DEFAULT_CHROME_TARGET@,
{
    if str_eq(target, DEFAULT_CHROME_TARGET) {
        None
    } else {
        Some(String::from_str(DEFAULT_CHROME_TARGET))
    }
}

/// Whether a URL scheme is served by the impersonating transports.
pub fn supports_url(scheme: &str) -> (r: bool)
    ensures
        r == (scheme@ == "http"@ || scheme@ == "https"@),
{
    str_eq(scheme, "http") || str_eq(scheme, "https")
}

/// ASCII lower-casing of one byte.
pub open spec fn ascii_lower(b: u8) -> u8 {
    if 65 <= b && b <= 90 {
        (b + 32) as u8
    } else {
        b
    }
}

/// The bytes of `navigate`.
pub open spec fn navigate_bytes() -> Seq<u8> {
    seq![110u8, 97u8, 118u8, 105u8, 103u8, 97u8, 116u8, 101u8]
}

/// A header value that reads as text (`HeaderValue::to_str` succeeds: only
/// visible ASCII and tabs) equal to `expected` up to ASCII case.
pub open spec fn text_eq_ignore_ascii_case(value: Seq<u8>, expected: Seq<u8>) -> bool {
    &&& forall|i: int| 0 <= i < value.len() ==> is_visible_ascii(#[trigger] value[i])
    &&& value.len() == expected.len()
    &&& forall|i: int| 0 <= i < value.len() ==> ascii_lower(#[trigger] value[i]) == ascii_lower(expected[i])
}

/// A request is a top-level navigation when its first `sec-fetch-mode` value
/// reads `navigate`, in any ASCII case.
pub open spec fn is_top_level_navigation_request(headers: Map<Seq<char>, Seq<Seq<u8>>>) -> bool {
    headers.contains_key("sec-fetch-mode"@)
        && text_eq_ignore_ascii_case(headers["sec-fetch-mode"@][0], navigate_bytes())
}

/// The headers of a request that curl-impersonate receives: those that
/// `forwards_to_curl` keeps, each with its first value only; outside a
/// top-level navigation `upgrade-insecure-requests` and `sec-fetch-user` are
/// then set empty.
pub open spec fn curl_request_headers(headers: Map<Seq<char>, Seq<Seq<u8>>>) -> Map<Seq<char>, Seq<Seq<u8>>> {
    let top = is_top_level_navigation_request(headers);
    let kept = first_values(headers.restrict(Set::new(|name: Seq<char>| forwards_to_curl(name, top))));
    if top {
        kept
    } else {
        suppressed_navigation_defaults(kept)
    }
}

/// `headers` with `upgrade-insecure-requests` and `sec-fetch-user` set to one
/// empty value each.
pub open spec fn suppressed_navigation_defaults(headers: Map<Seq<char>, Seq<Seq<u8>>>) -> Map<Seq<char>, Seq<Seq<u8>>> {
    headers.insert("upgrade-insecure-requests"@, seq![Seq::<u8>::empty()]).insert(
        "sec-fetch-user"@,
        seq![Seq::<u8>::empty()],
    )
}

/// Whether the request whose headers are `headers` is a top-level navigation.
pub fn is_top_level_navigation(headers: &HeaderMap) -> (r: bool)
    ensures
        r == is_top_level_navigation_request(header_map_contents(*headers)),
{
    proof {
        reveal_strlit("sec-fetch-mode");
    }
    let value = match header_map_first(headers, "sec-fetch-mode") {
        Some(v) => v,
        None => return false,
    };
    bytes_eq_ignore_ascii_case(&value, &[110u8, 97u8, 118u8, 105u8, 103u8, 97u8, 116u8, 101u8])
}

fn bytes_eq_ignore_ascii_case(value: &Vec<u8>, expected: &[u8; 8]) -> (r: bool)
    requires
        expected@ == navigate_bytes(),
    ensures
        r == text_eq_ignore_ascii_case(value@, navigate_bytes()),
{
    let mut i: usize = 0;
    while i < value.len()
        invariant
            i <= value@.len(),
            forall|j: int| 0 <= j < i ==> is_visible_ascii(#[trigger] value@[j]),
        decreases value.len() - i,
    {
        let b = value[i];
        if !((32 <= b && b < 127) || b == 9) {
            assert(!is_visible_ascii(value@[i as int]));
            return false;
        }
        i = i + 1;
    }
    if value.len() != 8 {
        return false;
    }
    let mut k: usize = 0;
    while k < 8
        invariant
            value@.len() == 8,
            expected@ == navigate_bytes(),
            forall|j: int| 0 <= j < value@.len() ==> is_visible_ascii(#[trigger] value@[j]),
            k <= 8,
            forall|j: int| 0 <= j < k ==> ascii_lower(#[trigger] value@[j]) == ascii_lower(expected@[j]),
        decreases 8 - k,
    {
        let a = value[k];
        let b = expected[k];
        let la: u8 = if 65 <= a && a <= 90 { a + 32 } else { a };
        let lb: u8 = if 65 <= b && b <= 90 { b + 32 } else { b };
        if la != lb {
            assert(ascii_lower(value@[k as int]) != ascii_lower(expected@[k as int]));
            return false;
        }
        k = k + 1;
    }
    true
}

/// Sets `upgrade-insecure-requests` and `sec-fetch-user` to a single empty value,
/// so that curl-impersonate does not add its navigation-only defaults to a
/// subresource request.
pub fn suppress_navigation_only_default_headers(headers: &mut HeaderMap)
    requires
        header_map_contents(*old(headers)).dom().finite(),
        header_map_contents(*old(headers)).dom().len() < 6553,
    ensures
        header_map_contents(*final(headers)) == suppressed_navigation_defaults(
            header_map_contents(*old(headers)),
        ),
{
    proof {
        reveal_strlit("upgrade-insecure-requests");
        reveal_strlit("sec-fetch-user");
        reveal_strlit("");
        assert(ascii_bytes(""@) =~= Seq::<u8>::empty());
    }
    header_map_insert_static(headers, "upgrade-insecure-requests", "");
    proof {
        let before = header_map_contents(*old(headers));
        if before.contains_key("upgrade-insecure-requests"@) {
            assert(before.insert("upgrade-insecure-requests"@, seq![Seq::<u8>::empty()]).dom() =~= before.dom());
        } else {
            assert(before.insert("upgrade-insecure-requests"@, seq![Seq::<u8>::empty()]).dom() =~= before.dom().insert("upgrade-insecure-requests"@));
        }
    }
    header_map_insert_static(headers, "sec-fetch-user", "");
}

/// The headers of a request as curl-impersonate receives them (the header part
/// of building the request): transport headers dropped, fingerprint headers
/// dropped on top-level navigations, each remaining header reduced to its first
/// value, and navigation-only defaults suppressed on subresource requests.
pub fn curl_forwarded_headers(headers: HeaderMap) -> (r: HeaderMap)
    requires
        header_map_contents(headers).dom().len() < 6553,
    ensures
        header_map_contents(r) == curl_request_headers(header_map_contents(headers)),
{
    let ghost original = header_map_contents(headers);
    let top = is_top_level_navigation(&headers);
    let names = header_map_keys(&headers);
    let ghost names_view = names@.map_values(|n: String| n@);
    proof {
        vstd::seq_lib::seq_to_set_is_finite(names_view);
    }
    let mut out = headers;
    let mut i: usize = 0;
    while i < names.len()
        invariant
            i <= names@.len(),
            names_view == names@.map_values(|n: String| n@),
            names_view.no_duplicates(),
            names_view.to_set() == original.dom(),
            original.dom().finite(),
            original.dom().len() < 6553,
            top == is_top_level_navigation_request(original),
            header_map_contents(out).dom().subset_of(original.dom()),
            forall|name: Seq<char>| #[trigger] header_map_contents(out).contains_key(name) <==> (
                original.contains_key(name) && (names_view.subrange(0, i as int).contains(name)
                    ==> forwards_to_curl(name, top))),
            forall|name: Seq<char>| #[trigger] header_map_contents(out).contains_key(name)
                ==> header_map_contents(out)[name] == if names_view.subrange(0, i as int).contains(name) {
                    seq![original[name][0]]
                } else {
                    original[name]
                },
        decreases names.len() - i,
    {
        let name = names[i].as_str();
        assert(names_view[i as int] == name@);
        proof {
            assert(names_view.to_set().contains(name@));
            assert(!names_view.subrange(0, i as int).contains(name@)) by {
                if names_view.subrange(0, i as int).contains(name@) {
                    let j = names_view.subrange(0, i as int).index_of(name@);
                    assert(names_view[j] == names_view[i as int]);
                }
            }
            assert(header_map_contents(out).contains_key(name@));
            vstd::set_lib::lemma_len_subset(header_map_contents(out).dom(), original.dom());
        }
        if should_forward_header_to_curl(name, top) {
            let first = header_map_get_value(&out, name);
            if let Some(value) = first {
                let _ = header_map_set_value(&mut out, name, value);
            }
        } else {
            header_map_remove(&mut out, name);
        }
        proof {
            assert(names_view.subrange(0, i + 1) =~= names_view.subrange(0, i as int).push(name@));
            assert forall|n: Seq<char>| names_view.subrange(0, i + 1).contains(n) <==> (
                names_view.subrange(0, i as int).contains(n) || n == name@) by {
                vstd::seq_lib::lemma_seq_contains_after_push(names_view.subrange(0, i as int), name@, n);
            }
        }
        i = i + 1;
    }
    let ghost kept = first_values(original.restrict(Set::new(|name: Seq<char>| forwards_to_curl(name, top))));
    proof {
        assert(names_view.subrange(0, names_view.len() as int) =~= names_view);
        assert forall|name: Seq<char>| #[trigger] header_map_contents(out).contains_key(name) <==> kept.contains_key(name) by {
            if original.contains_key(name) {
                assert(names_view.to_set().contains(name));
            }
        }
        assert forall|name: Seq<char>| #[trigger] header_map_contents(out).contains_key(name)
            implies header_map_contents(out)[name] == kept[name] by {
            assert(names_view.to_set().contains(name));
        }
        assert(header_map_contents(out) =~= kept);
        vstd::set_lib::lemma_len_subset(kept.dom(), original.dom());
    }
    if !top {
        suppress_navigation_only_default_headers(&mut out);
    }
    out
}

/// Law: on a top-level navigation curl-impersonate receives no transport and
/// no fingerprint header, and every other header with its first value.
pub proof fn law_navigation_requests_carry_no_fingerprint(headers: Map<Seq<char>, Seq<Seq<u8>>>, name: Seq<char>)
    requires
        is_top_level_navigation_request(headers),
    ensures
        curl_request_headers(headers).contains_key(name) <==> (headers.contains_key(name)
            && !is_transport_header(name) && !is_fingerprint_header(name)),
        curl_request_headers(headers).contains_key(name) ==> curl_request_headers(headers)[name] == seq![headers[name][0]],
{
}

/// Law: a subresource request carries exactly one empty
/// `upgrade-insecure-requests` and one empty `sec-fetch-user` value, keeps the
/// first value of each other non-transport header (fingerprint headers
/// included), and never carries transport headers.
pub proof fn law_subresource_requests_suppress_navigation_defaults(headers: Map<Seq<char>, Seq<Seq<u8>>>, name: Seq<char>)
    requires
        !is_top_level_navigation_request(headers),
    ensures
        curl_request_headers(headers)["upgrade-insecure-requests"@] == seq![Seq::<u8>::empty()],
        curl_request_headers(headers)["sec-fetch-user"@] == seq![Seq::<u8>::empty()],
        is_transport_header(name) ==> !curl_request_headers(headers).contains_key(name),
        (headers.contains_key(name) && !is_transport_header(name) && name != "upgrade-insecure-requests"@
            && name != "sec-fetch-user"@) ==> curl_request_headers(headers).contains_key(name)
            && curl_request_headers(headers)[name] == seq![headers[name][0]],
{
    reveal_strlit("upgrade-insecure-requests");
    reveal_strlit("sec-fetch-user");
    reveal_strlit("host");
    reveal_strlit("connection");
    reveal_strlit("user-agent");
    reveal_strlit("accept-encoding");
    reveal_strlit("content-length");
    let uir = "upgrade-insecure-requests"@;
    let sfu = "sec-fetch-user"@;
    assert(uir.len() == 25 && sfu.len() == 14 && sfu[0] == 's');
    assert(uir != sfu);
    if is_transport_header(name) {
        assert(name.len() != 25);
        assert(name[0] != 's');
        assert(name != uir && name != sfu);
    }
}

/// Law: which headers curl-impersonate is handed, by name. The five transport
/// headers `host`, `connection`, `user-agent`, `accept-encoding` and
/// `content-length` never are; on a top-level navigation the sixteen
/// fingerprint headers `accept`, `accept-language`, `upgrade-insecure-requests`,
/// `sec-fetch-dest`, `sec-fetch-mode`, `sec-fetch-site`, `sec-fetch-user`,
/// `sec-ch-ua`, `sec-ch-ua-mobile`, `sec-ch-ua-platform`, `sec-ch-ua-arch`,
/// `sec-ch-ua-bitness`, `sec-ch-ua-platform-version`,
/// `sec-ch-ua-full-version-list`, `sec-ch-ua-model` and `sec-ch-device-memory`
/// are withheld too; every other header is handed over.
pub proof fn law_forwarded_header_names(name: Seq<char>, top_level_navigation: bool)
    ensures
        forwards_to_curl(name, top_level_navigation) <==> {
            &&& name != "host"@
            &&& name != "connection"@
            &&& name != "user-agent"@
            &&& name != "accept-encoding"@
            &&& name != "content-length"@
            &&& top_level_navigation ==> {
                &&& name != "accept"@
                &&& name != "accept-language"@
                &&& name != "upgrade-insecure-requests"@
                &&& name != "sec-fetch-dest"@
                &&& name != "sec-fetch-mode"@
                &&& name != "sec-fetch-site"@
                &&& name != "sec-fetch-user"@
                &&& name != "sec-ch-ua"@
                &&& name != "sec-ch-ua-mobile"@
                &&& name != "sec-ch-ua-platform"@
                &&& name != "sec-ch-ua-arch"@
                &&& name != "sec-ch-ua-bitness"@
                &&& name != "sec-ch-ua-platform-version"@
                &&& name != "sec-ch-ua-full-version-list"@
                &&& name != "sec-ch-ua-model"@
                &&& name != "sec-ch-device-memory"@
            }
        },
{
    reveal_strlit("host");
    reveal_strlit("connection");
    reveal_strlit("user-agent");
    reveal_strlit("accept-encoding");
    reveal_strlit("content-length");
    reveal_strlit("accept");
    reveal_strlit("accept-language");
    reveal_strlit("upgrade-insecure-requests");
    reveal_strlit("sec-fetch-dest");
    reveal_strlit("sec-fetch-mode");
    reveal_strlit("sec-fetch-site");
    reveal_strlit("sec-fetch-user");
    reveal_strlit("sec-ch-ua");
    reveal_strlit("sec-ch-ua-mobile");
    reveal_strlit("sec-ch-ua-platform");
    reveal_strlit("sec-ch-ua-arch");
    reveal_strlit("sec-ch-ua-bitness");
    reveal_strlit("sec-ch-ua-platform-version");
    reveal_strlit("sec-ch-ua-full-version-list");
    reveal_strlit("sec-ch-ua-model");
    reveal_strlit("sec-ch-device-memory");
}

/// Law: a request is a top-level navigation exactly when its first
/// `sec-fetch-mode` value reads `navigate` in some ASCII case: its bytes are
/// those of the letters n, a, v, i, g, a, t, e, each in either case.
pub proof fn law_navigation_is_sec_fetch_mode_navigate(headers: Map<Seq<char>, Seq<Seq<u8>>>)
    ensures
        is_top_level_navigation_request(headers) <==> {
            &&& headers.contains_key("sec-fetch-mode"@)
            &&& headers["sec-fetch-mode"@][0].len() == 8
            &&& (headers["sec-fetch-mode"@][0][0] == 'n' as u8 || headers["sec-fetch-mode"@][0][0] == 'N' as u8)
            &&& (headers["sec-fetch-mode"@][0][1] == 'a' as u8 || headers["sec-fetch-mode"@][0][1] == 'A' as u8)
            &&& (headers["sec-fetch-mode"@][0][2] == 'v' as u8 || headers["sec-fetch-mode"@][0][2] == 'V' as u8)
            &&& (headers["sec-fetch-mode"@][0][3] == 'i' as u8 || headers["sec-fetch-mode"@][0][3] == 'I' as u8)
            &&& (headers["sec-fetch-mode"@][0][4] == 'g' as u8 || headers["sec-fetch-mode"@][0][4] == 'G' as u8)
            &&& (headers["sec-fetch-mode"@][0][5] == 'a' as u8 || headers["sec-fetch-mode"@][0][5] == 'A' as u8)
            &&& (headers["sec-fetch-mode"@][0][6] == 't' as u8 || headers["sec-fetch-mode"@][0][6] == 'T' as u8)
            &&& (headers["sec-fetch-mode"@][0][7] == 'e' as u8 || headers["sec-fetch-mode"@][0][7] == 'E' as u8)
        },
{
    if headers.contains_key("sec-fetch-mode"@) {
        let v = headers["sec-fetch-mode"@][0];
        if v.len() == 8 {
            if is_top_level_navigation_request(headers) {
                assert(ascii_lower(v[0]) == ascii_lower(navigate_bytes()[0]));
                assert(ascii_lower(v[1]) == ascii_lower(navigate_bytes()[1]));
                assert(ascii_lower(v[2]) == ascii_lower(navigate_bytes()[2]));
                assert(ascii_lower(v[3]) == ascii_lower(navigate_bytes()[3]));
                assert(ascii_lower(v[4]) == ascii_lower(navigate_bytes()[4]));
                assert(ascii_lower(v[5]) == ascii_lower(navigate_bytes()[5]));
                assert(ascii_lower(v[6]) == ascii_lower(navigate_bytes()[6]));
                assert(ascii_lower(v[7]) == ascii_lower(navigate_bytes()[7]));
            }
        }
    }
}

/// Law: every target starts with `chrome`.
pub proof fn law_targets_name_a_chrome_build(user_agent: Seq<char>)
    ensures
        curl_target(user_agent).subrange(0, 6) == "chrome"@,
{
    reveal_strlit("chrome");
    reveal_strlit("chrome136");
    match chrome_major_version(user_agent) {
        Some(major) => {
            assert(("chrome"@ + decimal_text(major as nat)).subrange(0, 6) =~= "chrome"@);
        },
        None => {
            assert(DEFAULT_CHROME_TARGET@.subrange(0, 6) =~= "chrome"@);
        },
    }
}

} // verus!
