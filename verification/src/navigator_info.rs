//! The persona values of `navigator`: fixed Gecko-compatible constants and
//! preference-backed values with platform defaults.

use vstd::prelude::*;

verus! {

/// `value`, or `default` when `value` is empty.
pub open spec fn or_default(value: Seq<char>, default: Seq<char>) -> Seq<char> {
    if value.len() == 0 {
        default
    } else {
        value
    }
}

fn string_or_default(value: &str, default: &str) -> (r: String)
    ensures
        r@ == or_default(value@, default@),
{
    if value.is_empty() {
        String::from_str(default)
    } else {
        String::from_str(value)
    }
}

/// The operating system the browser was built for.
#[derive(Clone, Copy, PartialEq, Eq, Debug)]
pub enum TargetOs {
    Windows,
    Linux,
    Android,
    FreeBsd,
    MacOs,
    Ios,
}

/// The platform reported when the platform preference is empty.
pub open spec fn default_platform(os: TargetOs) -> Seq<char> {
    match os {
        TargetOs::Windows => "Win32"@,
        TargetOs::Linux | TargetOs::Android | TargetOs::FreeBsd => "Linux"@,
        TargetOs::MacOs => "Mac"@,
        TargetOs::Ios => "iOS"@,
    }
}

/// `navigator.product`.
#[allow(non_snake_case)]
pub fn Product() -> (r: String)
    ensures
        r@ == "Gecko"@,
{
    String::from_str("Gecko")
}

/// `navigator.productSub`: the preference, or `20100101`.
#[allow(non_snake_case)]
pub fn ProductSub(pref: &str) -> (r: String)
    ensures
        r@ == or_default(pref@, "20100101"@),
{
    string_or_default(pref, "20100101")
}

/// `navigator.vendor`: the preference as it is.
#[allow(non_snake_case)]
pub fn Vendor(pref: &str) -> (r: String)
    ensures
        r@ == pref@,
{
    String::from_str(pref)
}

/// `navigator.vendorSub`: empty.
#[allow(non_snake_case)]
pub fn VendorSub() -> (r: String)
    ensures
        r@ == ""@,
{
    String::from_str("")
}

/// `navigator.taintEnabled()`: always false.
#[allow(non_snake_case)]
pub fn TaintEnabled() -> (r: bool)
    ensures
        r == false,
{
    false
}

/// `navigator.appName`.
#[allow(non_snake_case)]
pub fn AppName() -> (r: String)
    ensures
        r@ == "Netscape"@,
{
    String::from_str("Netscape")
}

/// `navigator.appCodeName`.
#[allow(non_snake_case)]
pub fn AppCodeName() -> (r: String)
    ensures
        r@ == "Mozilla"@,
{
    String::from_str("Mozilla")
}

/// `navigator.platform`: the preference, or the build platform's name.
#[allow(non_snake_case)]
pub fn Platform(pref: &str, os: TargetOs) -> (r: String)
    ensures
        r@ == or_default(pref@, default_platform(os)),
{
    let default = match os {
        TargetOs::Windows => "Win32",
        TargetOs::Linux | TargetOs::Android | TargetOs::FreeBsd => "Linux",
        TargetOs::MacOs => "Mac",
        TargetOs::Ios => "iOS",
    };
    string_or_default(pref, default)
}

/// `navigator.userAgent`: the user agent as it is.
#[allow(non_snake_case)]
pub fn UserAgent(user_agent: &str) -> (r: String)
    ensures
        r@ == user_agent@,
{
    String::from_str(user_agent)
}

/// `navigator.appVersion`: the preference, or `4.0`.
#[allow(non_snake_case)]
pub fn AppVersion(pref: &str) -> (r: String)
    ensures
        r@ == or_default(pref@, "4.0"@),
{
    string_or_default(pref, "4.0")
}

/// `navigator.language`: the preference, or the current locale.
#[allow(non_snake_case)]
pub fn Language(pref: &str, current_locale: &str) -> (r: String)
    ensures
        r@ == or_default(pref@, current_locale@),
{
    string_or_default(pref, current_locale)
}

} // verus!
