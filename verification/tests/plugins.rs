use bimp_persona::plugins::{
    chrome_pdf_mime_types, chrome_pdf_plugins, mime_type_for_type, pdf_plugin, plugin_for_name,
    MimeType, MimeTypeArray, Plugin, PluginArray,
};

const NAMES: [&str; 5] = [
    "PDF Viewer",
    "Chrome PDF Viewer",
    "Chromium PDF Viewer",
    "Microsoft Edge PDF Viewer",
    "WebKit built-in PDF",
];

#[test]
fn enabled_pdf_viewer_lists_five_plugins_and_two_types() {
    let plugins = chrome_pdf_plugins(true);
    let names: Vec<&str> = plugins.iter().map(|p| p.name).collect();
    assert_eq!(names, NAMES.to_vec());
    for plugin in &plugins {
        assert_eq!(plugin.description, "Portable Document Format");
        assert_eq!(plugin.filename, "internal-pdf-viewer");
        assert_eq!(plugin.mime_types.len(), 2);
    }
    let types: Vec<&str> = chrome_pdf_mime_types(true).iter().map(|m| m.type_).collect();
    assert_eq!(types, vec!["application/pdf", "text/pdf"]);
}

#[test]
fn disabled_pdf_viewer_lists_nothing() {
    assert!(chrome_pdf_plugins(false).is_empty());
    assert!(chrome_pdf_mime_types(false).is_empty());
    assert!(plugin_for_name(false, "PDF Viewer").is_none());
    assert!(mime_type_for_type(false, "application/pdf").is_none());
    let array = PluginArray::new();
    assert_eq!(array.Length(false), 0);
    assert!(array.Item(false, 0).is_none());
    assert!(MimeTypeArray::new().SupportedPropertyNames(false).is_empty());
}

#[test]
fn lookups_find_listed_entries_by_name() {
    for name in NAMES {
        assert_eq!(plugin_for_name(true, name).unwrap().name, name);
    }
    assert!(plugin_for_name(true, "Shockwave Flash").is_none());
    assert_eq!(mime_type_for_type(true, "text/pdf").unwrap().type_, "text/pdf");
    assert!(mime_type_for_type(true, "application/x-shockwave-flash").is_none());
}

#[test]
fn plugin_array_items_match_property_names() {
    let array = PluginArray::new();
    array.Refresh(true);
    assert_eq!(array.Length(true), 5);
    let names = array.SupportedPropertyNames(true);
    for (i, name) in names.iter().enumerate() {
        assert_eq!(&array.Item(true, i as u32).unwrap().Name(), name);
        assert_eq!(&array.IndexedGetter(true, i as u32).unwrap().Name(), name);
        assert_eq!(&array.NamedItem(true, name).unwrap().Name(), name);
        assert_eq!(&array.NamedGetter(true, name).unwrap().Name(), name);
    }
    assert!(array.Item(true, 5).is_none());
    assert!(array.NamedItem(true, "pdf viewer").is_none());
}

#[test]
fn mime_type_array_and_plugin_expose_pdf_types() {
    let array = MimeTypeArray::new();
    assert_eq!(array.Length(true), 2);
    assert_eq!(array.SupportedPropertyNames(true), vec!["application/pdf", "text/pdf"]);
    let first = array.Item(true, 0).unwrap();
    assert_eq!(first.Type(), "application/pdf");
    assert_eq!(first.Description(), "Portable Document Format");
    assert_eq!(first.Suffixes(), "pdf");
    assert_eq!(first.EnabledPlugin(true).Name(), "PDF Viewer");
    assert_eq!(array.NamedGetter(true, "text/pdf").unwrap().Type(), "text/pdf");
    assert!(array.IndexedGetter(true, 2).is_none());

    let plugin = Plugin::new(pdf_plugin("Chrome PDF Viewer"));
    assert_eq!(plugin.Name(), "Chrome PDF Viewer");
    assert_eq!(plugin.Description(), "Portable Document Format");
    assert_eq!(plugin.Filename(), "internal-pdf-viewer");
    assert_eq!(plugin.Length(), 2);
    assert_eq!(plugin.SupportedPropertyNames(), vec!["application/pdf", "text/pdf"]);
    assert_eq!(plugin.Item(1).unwrap().Type(), "text/pdf");
    assert!(plugin.Item(2).is_none());
    assert_eq!(plugin.NamedItem("application/pdf").unwrap().Type(), "application/pdf");
    assert!(plugin.NamedGetter("image/png").is_none());
    assert_eq!(plugin.IndexedGetter(0).unwrap().Suffixes(), "pdf");
}

#[test]
fn enabled_plugin_falls_back_to_pdf_viewer() {
    let mut metadata = mime_type_for_type(true, "text/pdf").unwrap();
    metadata.enabled_plugin_name = "Unknown Viewer";
    let mime = MimeType::new(metadata);
    assert_eq!(mime.EnabledPlugin(true).Name(), "PDF Viewer");
    metadata.enabled_plugin_name = "WebKit built-in PDF";
    assert_eq!(MimeType::new(metadata).EnabledPlugin(true).Name(), "WebKit built-in PDF");
}
