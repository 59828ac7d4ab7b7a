use yeet::capture::{
    capture_item, decide_capture, finish_capture, CaptureDecision, CaptureInput, PasteboardMarkers, Settings,
    SkipReason,
};
use yeet::clipboard::{
    file_name_of, image_data_url, image_file_name, is_image_type, legacy_image_hash,
    read_pasteboard, search_pattern, write_image_to_clipboard, ClipboardMonitor, PasteContent,
    PasteboardReading,
};
use yeet::hashing::{compute_hash, image_data_hash};

fn settings() -> Settings {
    Settings {
        hotkey: "CommandOrControl+Shift+V".to_string(),
        history_limit: 50,
        sticky_mode: false,
        ignore_transient: true,
        ignore_autogenerated: true,
        ignore_concealed: true,
        excluded_apps: vec!["1Password".to_string(), "".to_string()],
        excluded_types: vec!["image".to_string()],
    }
}

fn no_markers() -> PasteboardMarkers {
    PasteboardMarkers { transient: false, autogenerated: false, concealed: false }
}

fn input(content: Option<PasteContent>, settings: Option<Settings>, front: Option<&str>) -> CaptureInput {
    CaptureInput {
        on_macos: true,
        settings,
        markers: no_markers(),
        content,
        frontmost_app: front.map(|s| s.to_string()),
    }
}

fn text(s: &str) -> Option<PasteContent> {
    Some(PasteContent::Text(s.to_string()))
}

fn skip_reason(d: &CaptureDecision) -> Option<SkipReason> {
    match d {
        CaptureDecision::Skip(r) => Some(*r),
        CaptureDecision::Store(_) => None,
    }
}

#[test]
fn stores_new_text_with_hash_type_and_preview() {
    let m = ClipboardMonitor::new();
    let d = decide_capture(&m, input(text("hello world"), Some(settings()), Some("com.apple.Notes")));
    match d {
        CaptureDecision::Store(plan) => {
            assert_eq!(plan.content_type, "text");
            assert_eq!(plan.content, "hello world");
            assert_eq!(plan.preview, "hello world");
            assert_eq!(plan.hash, compute_hash("hello world"));
            assert!(plan.image.is_none());
            assert_eq!(plan.history_limit, 50);
        }
        CaptureDecision::Skip(r) => panic!("skipped: {:?}", r),
    }
}

#[test]
fn default_history_limit_without_settings() {
    let m = ClipboardMonitor::new();
    match decide_capture(&m, input(text("x"), None, None)) {
        CaptureDecision::Store(plan) => assert_eq!(plan.history_limit, 100),
        CaptureDecision::Skip(r) => panic!("skipped: {:?}", r),
    }
}

#[test]
fn stored_content_is_not_captured_twice() {
    let mut m = ClipboardMonitor::new();
    let plan = match decide_capture(&m, input(text("copy me"), Some(settings()), None)) {
        CaptureDecision::Store(plan) => plan,
        CaptureDecision::Skip(r) => panic!("skipped: {:?}", r),
    };
    m.set_last_hash(Some(plan.hash.clone()));
    let again = decide_capture(&m, input(text("copy me"), None, Some("anything")));
    assert_eq!(skip_reason(&again), Some(SkipReason::Duplicate));
    // Other content is still captured.
    let other = decide_capture(&m, input(text("copy you"), None, None));
    assert_eq!(skip_reason(&other), None);
}

#[test]
fn own_text_write_is_not_recaptured() {
    let mut m = ClipboardMonitor::new();
    m.remember_text_write("https://example.com");
    let d = decide_capture(
        &m,
        input(Some(PasteContent::Url("https://example.com".to_string())), None, None),
    );
    assert_eq!(skip_reason(&d), Some(SkipReason::Duplicate));
}

#[test]
fn own_image_write_is_not_recaptured() {
    let data = vec![137u8, 80, 78, 71, 1, 2, 3];
    let mut m = ClipboardMonitor::new();
    m.remember_image_write(&data);
    let reading = PasteboardReading {
        image: Some(data.clone()),
        file_names: vec![],
        url: None,
        plain_text: None,
        legacy_text: None,
    };
    let content = reading.into_content();
    let d = decide_capture(&m, input(content, None, None));
    assert_eq!(skip_reason(&d), Some(SkipReason::Duplicate));
}

#[test]
fn marker_types_are_respected_only_when_enabled() {
    let m = ClipboardMonitor::new();
    let mut i = input(text("secret"), Some(settings()), None);
    i.markers.concealed = true;
    assert_eq!(skip_reason(&decide_capture(&m, i)), Some(SkipReason::Marker));

    let mut s = settings();
    s.ignore_concealed = false;
    let mut i = input(text("secret"), Some(s), None);
    i.markers.concealed = true;
    assert_eq!(skip_reason(&decide_capture(&m, i)), None);

    let mut i = input(text("secret"), Some(settings()), None);
    i.markers.transient = true;
    i.on_macos = false;
    assert_eq!(skip_reason(&decide_capture(&m, i)), None);
}

#[test]
fn nothing_or_empty_content_is_skipped() {
    let m = ClipboardMonitor::new();
    assert_eq!(skip_reason(&decide_capture(&m, input(None, None, None))), Some(SkipReason::NoContent));
    assert_eq!(skip_reason(&decide_capture(&m, input(text(""), None, None))), Some(SkipReason::Empty));
    let files = Some(PasteContent::Files(vec![]));
    assert_eq!(skip_reason(&decide_capture(&m, input(files, None, None))), Some(SkipReason::Empty));
}

#[test]
fn own_app_frontmost_is_skipped_ignoring_ascii_case() {
    let m = ClipboardMonitor::new();
    let d = decide_capture(&m, input(text("a"), None, Some("COM.Yeet.App")));
    assert_eq!(skip_reason(&d), Some(SkipReason::OwnAppFrontmost));
    let mut i = input(text("a"), None, Some("com.yeet.app"));
    i.on_macos = false;
    assert_eq!(skip_reason(&decide_capture(&m, i)), None);
}

#[test]
fn excluded_apps_match_case_insensitive_substrings() {
    let m = ClipboardMonitor::new();
    let d = decide_capture(&m, input(text("pw"), Some(settings()), Some("com.agilebits.onepassword7")));
    assert_eq!(skip_reason(&d), None);
    let d = decide_capture(&m, input(text("pw"), Some(settings()), Some("com.1password.1PASSWORD")));
    assert_eq!(skip_reason(&d), Some(SkipReason::ExcludedApp));
    // The empty entry excludes nothing.
    let d = decide_capture(&m, input(text("pw"), Some(settings()), Some("com.apple.Safari")));
    assert_eq!(skip_reason(&d), None);
}

#[test]
fn excluded_types_are_skipped() {
    let m = ClipboardMonitor::new();
    let img = Some(PasteContent::Image { hash: "ab".to_string(), data: vec![1], source_name: None });
    let d = decide_capture(&m, input(img, Some(settings()), None));
    assert_eq!(skip_reason(&d), Some(SkipReason::ExcludedType));
    let mut s = settings();
    s.excluded_types = vec!["code".to_string()];
    let d = decide_capture(&m, input(text("const a = 1; let b = 2;"), Some(s), None));
    assert_eq!(skip_reason(&d), Some(SkipReason::ExcludedType));
}

#[test]
fn image_capture_saves_and_uses_the_saved_path() {
    let m = ClipboardMonitor::new();
    let img = Some(PasteContent::Image {
        hash: "ab12".to_string(),
        data: vec![9, 9],
        source_name: Some("shot.png".to_string()),
    });
    let plan = match decide_capture(&m, input(img, None, None)) {
        CaptureDecision::Store(plan) => plan,
        CaptureDecision::Skip(r) => panic!("skipped: {:?}", r),
    };
    assert_eq!(plan.content_type, "image");
    assert_eq!(plan.content, "[image:ab12]");
    assert_eq!(plan.preview, "shot.png");
    assert_eq!(plan.hash, compute_hash("[image:ab12]"));
    assert_eq!(plan.image, Some(("ab12".to_string(), vec![9, 9])));
    let item = finish_capture(
        plan,
        Some("/data/images/ab12.png".to_string()),
        "id-1".to_string(),
        "2024-01-01T00:00:00+00:00".to_string(),
    );
    assert_eq!(item.content, "/data/images/ab12.png");
    assert_eq!(item.preview, "shot.png");
    assert_eq!(item.id, "id-1");
    assert_eq!(item.created_at, "2024-01-01T00:00:00+00:00");
}

#[test]
fn image_without_saved_path_keeps_marker_and_default_preview() {
    let m = ClipboardMonitor::new();
    let img = Some(PasteContent::Image { hash: "ff".to_string(), data: vec![], source_name: None });
    let plan = match decide_capture(&m, input(img, None, None)) {
        CaptureDecision::Store(plan) => plan,
        CaptureDecision::Skip(r) => panic!("skipped: {:?}", r),
    };
    assert_eq!(plan.preview, "[image]");
    let item = finish_capture(plan, None, "id-2".to_string(), "t".to_string());
    assert_eq!(item.content, "[image:ff]");
}

#[test]
fn text_items_ignore_a_saved_path() {
    let m = ClipboardMonitor::new();
    let plan = match decide_capture(&m, input(text("t"), None, None)) {
        CaptureDecision::Store(plan) => plan,
        CaptureDecision::Skip(r) => panic!("skipped: {:?}", r),
    };
    let item = finish_capture(plan, Some("/tmp/x".to_string()), "id-3".to_string(), "t".to_string());
    assert_eq!(item.content, "t");
}

#[test]
fn item_ids_are_fresh_uuids() {
    let a = yeet::stamp::new_item_id().unwrap();
    let b = yeet::stamp::new_item_id().unwrap();
    assert_eq!(a.len(), 36);
    for (i, c) in a.bytes().enumerate() {
        if i == 8 || i == 13 || i == 18 || i == 23 {
            assert_eq!(c, b'-');
        } else {
            assert!(c.is_ascii_digit() || (b'a'..=b'f').contains(&c));
        }
    }
    assert_eq!(a.as_bytes()[14], b'4');
    assert!(matches!(a.as_bytes()[19], b'8' | b'9' | b'a' | b'b'));
    assert_ne!(a, b);
}

#[test]
fn files_are_joined_by_newlines() {
    let m = ClipboardMonitor::new();
    let files = Some(PasteContent::Files(vec!["/a/b.txt".to_string(), "/c.txt".to_string()]));
    match decide_capture(&m, input(files, None, None)) {
        CaptureDecision::Store(plan) => {
            assert_eq!(plan.content_type, "file");
            assert_eq!(plan.content, "/a/b.txt\n/c.txt");
            assert_eq!(plan.preview, "/a/b.txt\n/c.txt");
        }
        CaptureDecision::Skip(r) => panic!("skipped: {:?}", r),
    }
}

#[test]
fn raw_content_and_type_tags() {
    assert_eq!(PasteContent::Text("fn a() -> b".to_string()).type_tag(), "code");
    assert_eq!(PasteContent::Url("x".to_string()).type_tag(), "url");
    assert_eq!(PasteContent::Files(vec!["a".to_string()]).type_tag(), "file");
    let img = PasteContent::Image { hash: "h".to_string(), data: vec![], source_name: None };
    assert_eq!(img.type_tag(), "image");
    assert_eq!(img.raw_content(), "[image:h]");
    assert_eq!(PasteContent::Files(vec![]).raw_content(), "");
}

#[test]
fn reading_prefers_image_then_files_then_url_then_text() {
    let reading = PasteboardReading {
        image: Some(vec![1, 2, 3]),
        file_names: vec![Some("/Users/me/Desktop/shot.png".to_string())],
        url: Some("https://x".to_string()),
        plain_text: Some("t".to_string()),
        legacy_text: None,
    };
    match reading.into_content() {
        Some(PasteContent::Image { hash, data, source_name }) => {
            assert_eq!(hash, image_data_hash(&[1, 2, 3]));
            assert_eq!(data, vec![1, 2, 3]);
            assert_eq!(source_name.as_deref(), Some("shot.png"));
        }
        _ => panic!("expected an image"),
    }
    let reading = PasteboardReading {
        image: None,
        file_names: vec![None, Some("/a".to_string()), None, Some("/b".to_string())],
        url: Some("https://x".to_string()),
        plain_text: Some("t".to_string()),
        legacy_text: None,
    };
    match reading.into_content() {
        Some(PasteContent::Files(paths)) => assert_eq!(paths, vec!["/a", "/b"]),
        _ => panic!("expected files"),
    }
    let reading = PasteboardReading {
        image: None,
        file_names: vec![None],
        url: Some("  \n".to_string()),
        plain_text: Some("".to_string()),
        legacy_text: Some("legacy".to_string()),
    };
    match reading.into_content() {
        Some(PasteContent::Text(t)) => assert_eq!(t, "legacy"),
        _ => panic!("expected legacy text"),
    }
    let reading = PasteboardReading {
        image: None,
        file_names: vec![],
        url: Some("https://x".to_string()),
        plain_text: Some("t".to_string()),
        legacy_text: None,
    };
    assert!(matches!(reading.into_content(), Some(PasteContent::Url(u)) if u == "https://x"));
    let empty = PasteboardReading {
        image: None,
        file_names: vec![],
        url: None,
        plain_text: None,
        legacy_text: None,
    };
    assert!(empty.into_content().is_none());
}

#[test]
fn image_name_only_from_first_readable_entry() {
    let reading = PasteboardReading {
        image: Some(vec![]),
        file_names: vec![None, Some("/x/y.png".to_string())],
        url: None,
        plain_text: None,
        legacy_text: None,
    };
    match reading.into_content() {
        Some(PasteContent::Image { source_name, .. }) => assert!(source_name.is_none()),
        _ => panic!("expected an image"),
    }
}

#[test]
fn file_names() {
    assert_eq!(file_name_of("/a/b/c.png"), "c.png");
    assert_eq!(file_name_of("plain"), "plain");
    assert_eq!(file_name_of("/dir/"), "");
    assert_eq!(image_file_name("abc"), "abc.png");
}

#[test]
fn monitor_initialisation() {
    let mut m = ClipboardMonitor::new();
    m.init_last_hash(Ok(Some(compute_hash("x"))));
    let d = decide_capture(&m, input(text("x"), None, None));
    assert_eq!(skip_reason(&d), Some(SkipReason::Duplicate));
    m.init_last_hash(Err("locked".to_string()));
    let d = decide_capture(&m, input(text("x"), None, None));
    assert_eq!(skip_reason(&d), Some(SkipReason::Duplicate));
    m.init_last_hash(Ok(None));
    let d = decide_capture(&m, input(text("x"), None, None));
    assert_eq!(skip_reason(&d), None);
}

#[test]
fn legacy_image_contents() {
    assert_eq!(legacy_image_hash("[image:abc]").as_deref(), Some("abc"));
    assert_eq!(legacy_image_hash("[image:]").as_deref(), Some(""));
    assert_eq!(legacy_image_hash("[image:abc"), None);
    assert_eq!(legacy_image_hash("/path/to/x.png"), None);
    assert!(is_image_type("image"));
    assert!(!is_image_type("text"));
}

#[test]
fn data_url_of_png_bytes() {
    assert_eq!(image_data_url(b"hello"), "data:image/png;base64,aGVsbG8=");
    assert_eq!(image_data_url(&[]), "data:image/png;base64,");
}

#[test]
fn search_patterns() {
    assert_eq!(search_pattern(Some("foo")).as_deref(), Some("%foo%"));
    assert_eq!(search_pattern(Some("")), None);
    assert_eq!(search_pattern(None), None);
}

#[test]
fn platform_fallbacks() {
    assert!(read_pasteboard().is_none());
    assert_eq!(
        write_image_to_clipboard(&[1]),
        Err("Image clipboard write not supported on this platform".to_string())
    );
}

#[test]
fn legacy_marker_round_trip() {
    let raw = PasteContent::Image { hash: "d00d".to_string(), data: vec![], source_name: None }.raw_content();
    assert_eq!(legacy_image_hash(&raw).as_deref(), Some("d00d"));
}

#[test]
fn data_url_padding_for_each_group_length() {
    assert_eq!(image_data_url(&[1]), "data:image/png;base64,AQ==");
    assert_eq!(image_data_url(&[1, 2]), "data:image/png;base64,AQI=");
    assert_eq!(image_data_url(&[1, 2, 3]), "data:image/png;base64,AQID");
    assert_eq!(image_data_url(&[255, 254, 253, 62]), "data:image/png;base64,//79Pg==");
}

#[test]
fn timestamps_are_utc_rfc3339() {
    let t = yeet::stamp::now_rfc3339().unwrap();
    assert!(t.len() >= 25);
    assert!(t.ends_with("+00:00"));
    assert!(chrono::DateTime::parse_from_rfc3339(&t).is_ok());
}

#[test]
fn captured_items_get_an_id_and_a_time() {
    let m = ClipboardMonitor::new();
    let plan = match decide_capture(&m, input(text("hello"), None, None)) {
        CaptureDecision::Store(plan) => plan,
        CaptureDecision::Skip(r) => panic!("skipped: {:?}", r),
    };
    let item = capture_item(plan, None).unwrap();
    assert_eq!(item.content, "hello");
    assert_eq!(item.content_type, "text");
    assert_eq!(item.hash, compute_hash("hello"));
    assert_eq!(item.id.len(), 36);
    assert_eq!(item.id.as_bytes()[14], b'4');
    assert!(item.created_at.ends_with("+00:00"));
    assert!(chrono::DateTime::parse_from_rfc3339(&item.created_at).is_ok());
}
