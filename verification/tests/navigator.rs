use bimp_persona::navigator_info::{
    AppCodeName, AppName, AppVersion, Language, Platform, Product, ProductSub, TaintEnabled,
    TargetOs, UserAgent, Vendor, VendorSub,
};
use bimp_persona::navigator_ua_data::{
    parse_brands, ua_full_version_list, NavigatorUAData, UaDataPreferences,
};

#[test]
fn fixed_navigator_values() {
    assert_eq!(Product(), "Gecko");
    assert_eq!(VendorSub(), "");
    assert!(!TaintEnabled());
    assert_eq!(AppName(), "Netscape");
    assert_eq!(AppCodeName(), "Mozilla");
    assert_eq!(UserAgent("Mozilla/5.0 X"), "Mozilla/5.0 X");
    assert_eq!(Vendor("Google Inc."), "Google Inc.");
}

#[test]
fn preference_values_fall_back_to_defaults() {
    assert_eq!(ProductSub(""), "20100101");
    assert_eq!(ProductSub("20030107"), "20030107");
    assert_eq!(AppVersion(""), "4.0");
    assert_eq!(AppVersion("5.0 (X11)"), "5.0 (X11)");
    assert_eq!(Language("", "en-US"), "en-US");
    assert_eq!(Language("de-DE", "en-US"), "de-DE");
    assert_eq!(Platform("", TargetOs::Windows), "Win32");
    assert_eq!(Platform("", TargetOs::Linux), "Linux");
    assert_eq!(Platform("", TargetOs::Android), "Linux");
    assert_eq!(Platform("", TargetOs::FreeBsd), "Linux");
    assert_eq!(Platform("", TargetOs::MacOs), "Mac");
    assert_eq!(Platform("", TargetOs::Ios), "iOS");
    assert_eq!(Platform("MacIntel", TargetOs::Linux), "MacIntel");
}

fn pairs(input: &str) -> Vec<(String, String)> {
    parse_brands(input).into_iter().map(|b| (b.brand, b.version)).collect()
}

fn owned(list: &[(&str, &str)]) -> Vec<(String, String)> {
    list.iter().map(|(b, v)| (b.to_string(), v.to_string())).collect()
}

#[test]
fn brands_parse_sec_ch_ua_lists() {
    assert_eq!(
        pairs("\"Google Chrome\";v=\"142\", \"Chromium\";v=\"142\", \"Not.A/Brand\";v=\"99\""),
        owned(&[("Google Chrome", "142"), ("Chromium", "142"), ("Not.A/Brand", "99")])
    );
    assert_eq!(pairs("  \"A\" ; v=\"1\"  ,\"B\";v=\"2\""), owned(&[("A", "1"), ("B", "2")]));
}

#[test]
fn brand_entries_without_brand_or_version_are_skipped() {
    assert_eq!(pairs("\"A\";v=\"1\", \"B\", v=\"3\", \"C\";v=\"4"), owned(&[("A", "1")]));
    assert_eq!(pairs("\"A\";v=\"1\";v=\"bad"), owned(&[("Chromium", "136"), ("Google Chrome", "136"), ("Not.A/Brand", "99")]));
    assert_eq!(pairs("v=\"1\";\"A\";\"B\""), owned(&[("B", "1")]));
}

#[test]
fn empty_brand_lists_fall_back_to_chrome_136() {
    let defaults = owned(&[("Chromium", "136"), ("Google Chrome", "136"), ("Not.A/Brand", "99")]);
    assert_eq!(pairs(""), defaults);
    assert_eq!(pairs("garbage"), defaults);
    assert_eq!(pairs(" , ,"), defaults);
}

#[test]
fn full_version_list_keeps_only_the_grease_version() {
    let list: Vec<(String, String)> = ua_full_version_list(
        "\"Chromium\";v=\"142\", \"Not.A/Brand\";v=\"99\"",
        "142.0.7444.60",
    )
    .into_iter()
    .map(|b| (b.brand, b.version))
    .collect();
    assert_eq!(list, owned(&[("Chromium", "142.0.7444.60"), ("Not.A/Brand", "99")]));
}

#[test]
fn high_entropy_values_come_from_preferences() {
    let prefs = UaDataPreferences {
        brands: "\"Chromium\";v=\"142\"".to_string(),
        mobile: false,
        platform: "Windows".to_string(),
        platform_version: "15.0.0".to_string(),
        architecture: "x86".to_string(),
        bitness: "64".to_string(),
        model: "".to_string(),
        full_version: "142.0.1".to_string(),
    };
    let data = NavigatorUAData::new();
    assert!(!data.Mobile(&prefs));
    assert_eq!(data.Platform(&prefs), "Windows");
    assert_eq!(data.Brands(&prefs)[0].version, "142");
    let values = data.GetHighEntropyValues(&prefs);
    assert_eq!(values.brands.len(), 1);
    assert_eq!(values.full_version_list[0].version, "142.0.1");
    assert_eq!(values.platform_version, "15.0.0");
    assert_eq!(values.architecture, "x86");
    assert_eq!(values.bitness, "64");
    assert_eq!(values.model, "");
    assert_eq!(values.ua_full_version, "142.0.1");
    assert_eq!(values.full_version, "142.0.1");
}

#[test]
fn joined_brand_lists_parse_to_joined_brands() {
    let a = "\"A\";v=\"1\", \"B\"";
    let b = " \"C\";v=\"3\"";
    let mut joined = pairs(a);
    joined.extend(pairs(b));
    assert_eq!(pairs(&format!("{a},{b}")), joined);
    assert_eq!(joined, owned(&[("A", "1"), ("C", "3")]));
}
