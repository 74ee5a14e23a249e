use bimp_persona::bimp_net_loader::{
    bimp_forwarded_headers, resolve_client_settings, supports_url, BimpLoaderError,
    BimpNetworkConfig,
};
use bimp_persona::client::{Client, FrameType};
use bimp_persona::domrect_fingerprint::{fill_empty_element_client_rects, quantization_steps};
use bimp_persona::media_devices::{persona_media_devices, MediaDeviceKind, MediaDevices, MediaError};
use bimp_persona::null_paint::{
    dummy_font_instance_key, dummy_font_key, dummy_image_keys_for_pipeline, handle_message,
    perform_updates, PaintReply, PaintRequest, ShutdownState,
};
use bimp_persona::screen::Screen;
use bimp_persona::storage_thread::{storage_thread_plan, StorageGroupPlan};
use bimp_persona::webgl_debug_renderer_info::{WEBGLDebugRendererInfo, WebGLExtensionSpec};
use bimp_persona::workers::{ServiceWorker, ServiceWorkerError, ServiceWorkerState, SimpleWorkerErrorHandler};
use http::HeaderMap;

#[test]
fn forwards_all_servo_headers_unchanged() {
    let mut headers = HeaderMap::new();
    headers.insert("user-agent", "persona-agent".parse().unwrap());
    headers.insert("accept", "text/html".parse().unwrap());
    headers.insert("cookie", "session=1".parse().unwrap());

    let forwarded = bimp_forwarded_headers(headers);

    assert_eq!(forwarded.get("user-agent").unwrap(), "persona-agent");
    assert_eq!(forwarded.get("accept").unwrap(), "text/html");
    assert_eq!(forwarded.get("cookie").unwrap(), "session=1");
}

#[test]
fn bimp_forwards_every_value_of_each_header() {
    let mut headers = HeaderMap::new();
    headers.append("accept-language", "en-US".parse().unwrap());
    headers.append("accept-language", "fr".parse().unwrap());
    headers.insert("cookie", "session=1".parse().unwrap());

    let forwarded = bimp_forwarded_headers(headers);

    assert_eq!(forwarded.len(), 3);
    let languages: Vec<_> = forwarded.get_all("accept-language").iter().collect();
    assert_eq!(languages, vec!["en-US", "fr"]);
    assert_eq!(forwarded.get("cookie").unwrap(), "session=1");
}

#[test]
fn bimp_settings_prefer_the_webview_configuration() {
    let config = BimpNetworkConfig {
        impersonation_profile: "chrome142".to_string(),
        proxy_url: Some("socks5://127.0.0.1:9050".to_string()),
        connect_timeout_ms: Some(2500),
        request_timeout_ms: None,
    };
    let settings = resolve_client_settings(Some(&config), "chrome136").unwrap();
    assert_eq!(settings.impersonation_target, "chrome142");
    assert_eq!(settings.proxy_url.as_deref(), Some("socks5://127.0.0.1:9050"));
    assert_eq!(settings.connect_timeout_ms, 2500);
    assert_eq!(settings.request_timeout_ms, 30_000);

    let settings = resolve_client_settings(None, "firefox133").unwrap();
    assert_eq!(settings.impersonation_target, "firefox133");
    assert_eq!(settings.proxy_url, None);
    assert_eq!(settings.connect_timeout_ms, 10_000);
    assert_eq!(settings.request_timeout_ms, 30_000);
    assert!(supports_url("https"));
    assert!(!supports_url("ftp"));
}

#[test]
fn bimp_settings_refuse_a_blank_profile() {
    assert!(matches!(
        resolve_client_settings(None, "  \t "),
        Err(BimpLoaderError::NoImpersonationProfile)
    ));
    let config = BimpNetworkConfig {
        impersonation_profile: String::new(),
        proxy_url: None,
        connect_timeout_ms: None,
        request_timeout_ms: None,
    };
    assert!(resolve_client_settings(Some(&config), "chrome136").is_err());
}

#[test]
fn client_ids_are_random_version_4_uuids() {
    let client = Client::new("https://example.test/".to_string());
    assert_eq!(client.Url(), "https://example.test/");
    assert_eq!(client.creation_url(), "https://example.test/");
    assert!(matches!(client.FrameType(), FrameType::NoFrame));
    let id = client.Id();
    assert_eq!(id.len(), 36);
    assert_eq!(&id[14..15], "4");
    assert!(id.chars().all(|c| c == '-' || c.is_ascii_digit() || ('a'..='f').contains(&c)));
    assert_ne!(Client::new("https://example.test/".to_string()).Id(), id);
}

#[test]
fn client_id_text_is_hyphenated_lower_hex() {
    let mut client = Client::new("u".to_string());
    client.id = [0xde, 0xad, 0xbe, 0xef, 0, 1, 0x42, 3, 0x84, 5, 6, 7, 8, 9, 0xab, 0xcd];
    assert_eq!(client.Id(), "deadbeef-0001-4203-8405-06070809abcd");
}

#[test]
fn client_controller_is_the_last_worker_set() {
    let mut client = Client::new("https://example.test/".to_string());
    assert_eq!(client.get_controller(), None);
    let first = ServiceWorker::new("https://example.test/sw.js", "https://example.test/".to_string(), 3);
    let second = ServiceWorker::new("https://example.test/sw2.js", "https://example.test/".to_string(), 9);
    client.set_controller(&first);
    assert_eq!(client.get_controller(), Some(3));
    client.set_controller(&second);
    assert_eq!(client.get_controller(), Some(9));
    assert_eq!(client.Url(), "https://example.test/");
}

#[test]
fn domrect_decisions() {
    assert!(fill_empty_element_client_rects(true, true));
    assert!(!fill_empty_element_client_rects(true, false));
    assert!(!fill_empty_element_client_rects(false, true));
    assert_eq!(quantization_steps(0), None);
    assert_eq!(quantization_steps(-4), None);
    assert_eq!(quantization_steps(64), Some(64));
    assert_eq!(quantization_steps(5000), Some(1024));
}

#[test]
fn media_devices_are_persona_backed() {
    let devices = persona_media_devices(2, 0, 1);
    let ids: Vec<&str> = devices.iter().map(|d| d.device_id.as_str()).collect();
    assert_eq!(ids, vec!["audio-input-0", "audio-input-1", "audio-output-0"]);
    assert_eq!(devices[1].group_id, "group-1");
    assert_eq!(devices[2].group_id, "group-0");
    assert!(matches!(devices[2].kind, MediaDeviceKind::Audiooutput));
    assert!(devices.iter().all(|d| d.label.is_empty()));
    assert_eq!(persona_media_devices(-1, 40, 0).len(), 16);
    assert_eq!(persona_media_devices(0, 12, 0)[11].device_id, "video-input-11");
    let media = MediaDevices::new();
    assert!(matches!(media.GetUserMedia(), Err(MediaError::NotAllowedError)));
    assert_eq!(media.EnumerateDevices(1, 1, 1).len(), 3);
}

#[test]
fn null_paint_answers_with_placeholder_keys() {
    assert!(perform_updates(ShutdownState::NotShuttingDown));
    assert!(perform_updates(ShutdownState::ShuttingDown));
    assert!(!perform_updates(ShutdownState::FinishedShuttingDown));
    let key = dummy_font_key(7);
    assert_eq!((key.namespace, key.index), (7, 0));
    let key = dummy_font_instance_key(9);
    assert_eq!((key.namespace, key.index), (9, 0));
    assert_eq!(dummy_image_keys_for_pipeline(3, 4).len(), 4);
    assert!(dummy_image_keys_for_pipeline(3, -1).is_empty());
    match handle_message(PaintRequest::GenerateFontKeys { namespace: 2, fonts: 3, instances: 1 }) {
        PaintReply::FontKeys(fonts, instances) => {
            assert_eq!(fonts.len(), 3);
            assert_eq!(instances.len(), 1);
            assert!(fonts.iter().all(|k| k.namespace == 2 && k.index == 0));
        },
        _ => panic!("font keys expected"),
    }
    match handle_message(PaintRequest::GenerateImageKey { namespace: 5 }) {
        PaintReply::ImageKey(k) => assert_eq!((k.namespace, k.index), (5, 0)),
        _ => panic!("image key expected"),
    }
    assert!(matches!(handle_message(PaintRequest::CollectMemoryReport), PaintReply::EmptyMemoryReport));
    assert!(matches!(handle_message(PaintRequest::Other), PaintReply::Nothing));
}

#[test]
fn storage_plans() {
    match storage_thread_plan(false) {
        (
            StorageGroupPlan::Active { label: a, indexeddb_reporter: ai, web_storage_reporter: aw },
            StorageGroupPlan::Active { label: b, indexeddb_reporter: bi, .. },
        ) => {
            assert_eq!(a, "private");
            assert_eq!(ai, "indexedDB-reporter-private");
            assert_eq!(aw, "storage-reporter-private");
            assert_eq!(b, "public");
            assert_eq!(bi, "indexedDB-reporter-public");
        },
        _ => panic!("active groups expected"),
    }
    assert!(matches!(
        storage_thread_plan(true),
        (StorageGroupPlan::Disabled, StorageGroupPlan::Disabled)
    ));
}

#[test]
fn screen_values_follow_preferences() {
    let screen = Screen::new();
    assert_eq!(screen.Width(1920), Some(1920));
    assert_eq!(screen.Height(0), None);
    assert_eq!(screen.AvailWidth(-5), None);
    assert_eq!(screen.AvailHeight(1040), Some(1040));
    assert_eq!(screen.Left(1 << 40), i32::MAX);
    assert_eq!(screen.Top(-(1 << 40)), i32::MIN);
    assert_eq!(screen.AvailLeft(12), 12);
    assert_eq!(screen.AvailTop(0), 0);
    assert_eq!(screen.ColorDepth(0), 24);
    assert_eq!(screen.PixelDepth(30), 30);
    assert!(screen.IsExtended(true));
    let orientation = screen.Orientation();
    assert_eq!(orientation.Type(""), "landscape-primary");
    assert_eq!(orientation.Type("portrait-primary"), "portrait-primary");
    assert_eq!(orientation.Angle(-1), 0);
    assert_eq!(orientation.Angle(90), 90);
    assert_eq!(orientation.Angle(720), 359);
}

#[test]
fn webgl_debug_renderer_info_unmasks_vendor_and_renderer() {
    let _ext = WEBGLDebugRendererInfo::new();
    assert!(matches!(WEBGLDebugRendererInfo::spec(), WebGLExtensionSpec::All));
    assert!(WEBGLDebugRendererInfo::is_supported());
    assert_eq!(WEBGLDebugRendererInfo::name(), "WEBGL_debug_renderer_info");
    let mut names = vec![];
    WEBGLDebugRendererInfo::enable(&mut names);
    assert_eq!(names, vec![0x9245, 0x9246]);
}

#[test]
fn service_worker_state_and_post_message() {
    let mut worker = ServiceWorker::new("https://example.test/sw.js", "https://example.test/".to_string(), 3);
    assert!(matches!(worker.State(), ServiceWorkerState::Installing));
    assert_eq!(worker.ScriptURL(), "https://example.test/sw.js");
    assert!(worker.post_message_allowed().is_ok());
    worker.set_transition_state(ServiceWorkerState::Activated);
    assert!(matches!(worker.State(), ServiceWorkerState::Activated));
    worker.set_transition_state(ServiceWorkerState::Redundant);
    assert!(matches!(worker.post_message_allowed(), Err(ServiceWorkerError::InvalidState)));
    let handler = SimpleWorkerErrorHandler::new(7u32);
    assert_eq!(handler.addr, 7);
}
