use wallpaper_core::ai::{
    advance, find_image_url, Action, AiApiAdapter, ApiReply, DownloadError, ErrorKind, Event, MockAiAdapter, OpenAiAdapter, Stage,
};
use wallpaper_core::commands::{fresh_id, get_screen_resolution, select_adapter, stored_outcome, Adapter};
use wallpaper_core::clock::{current_millis, millis_since_epoch};
use wallpaper_core::json::{get, Json};
use wallpaper_core::serve::{get_mime_type, mime_for_extension, request_file_path, strip_request_prefix};
use wallpaper_core::storage::{
    choose_config_dir, choose_storage_dir, config_file, generated_record, get_history, history_file, image_path,
    images_dir, imported_record, load_config, record_from_json, record_to_json, save_config, save_record,
    set_custom_storage_dir, AppConfig, Resolution, WallpaperRecord,
};

fn obj(members: Vec<(&str, Json)>) -> Json {
    Json::Object(members.into_iter().map(|(k, v)| (k.to_string(), v)).collect())
}

fn text(s: &str) -> Json {
    Json::Str(s.to_string())
}

fn record(id: &str, prompt: &str, path: &str, at: i64, w: u32, h: u32) -> WallpaperRecord {
    WallpaperRecord {
        id: id.to_string(),
        prompt: prompt.to_string(),
        image_path: path.to_string(),
        created_at: at,
        resolution: Resolution { width: w, height: h },
    }
}

fn same(a: &WallpaperRecord, b: &WallpaperRecord) -> bool {
    a.id == b.id
        && a.prompt == b.prompt
        && a.image_path == b.image_path
        && a.created_at == b.created_at
        && a.resolution == b.resolution
}

fn reply(status: u16, body: &str, json: Result<Json, String>) -> Event {
    Event::Replied(Ok(ApiReply { status, body: body.to_string(), json }))
}

fn error_of(a: &Action) -> (ErrorKind, String) {
    match a {
        Action::Done(Err(e)) => (e.kind, e.message.clone()),
        other => panic!("not a failure: {:?}", other),
    }
}

// ----- acquisition -----

#[test]
fn placeholder_url_for_size() {
    let (stage, action) = MockAiAdapter.start("mountains", 1920, 1080, Some("/work".to_string()));
    assert!(matches!(stage, Stage::AwaitPlaceholder));
    match action {
        Action::Download(url) => assert_eq!(url, "https://placehold.co/1920x1080/png?text=AI+Wallpaper"),
        other => panic!("{:?}", other),
    }
}

#[test]
fn placeholder_url_small_numbers() {
    let (_, action) = MockAiAdapter.begin("x", 7, 0, None);
    match action {
        Action::Download(url) => assert_eq!(url, "https://placehold.co/7x0/png?text=AI+Wallpaper"),
        other => panic!("{:?}", other),
    }
}

#[test]
fn mock_test_prompt_without_cwd_fetches_placeholder() {
    let (stage, _) = MockAiAdapter.start("test", 10, 20, None);
    assert!(matches!(stage, Stage::AwaitPlaceholder));
}

#[test]
fn mock_fixture_found_returns_its_bytes() {
    let fixture = vec![0x89u8, b'P', b'N', b'G', 1, 2, 3];
    let (stage, action) = MockAiAdapter.start("test", 1920, 1080, Some("/proj/src-tauri".to_string()));
    match &action {
        Action::ReadFile(p) => assert_eq!(p, "/proj/src-tauri/test.png"),
        other => panic!("{:?}", other),
    }
    assert!(stage.accepts(&Event::FileRead(None)));
    let (stage, action) = advance(stage, Event::FileRead(Some(fixture.clone())));
    assert!(matches!(stage, Stage::Finished));
    match action {
        Action::Done(Ok(bytes)) => assert_eq!(bytes, fixture),
        other => panic!("{:?}", other),
    }
}

#[test]
fn mock_fixture_search_order_then_placeholder() {
    let (mut stage, mut action) = MockAiAdapter.start("test", 640, 480, Some("/proj/src-tauri".to_string()));
    let mut read = Vec::new();
    while let Action::ReadFile(p) = &action {
        read.push(p.clone());
        let next = advance(stage, Event::FileRead(None));
        stage = next.0;
        action = next.1;
    }
    assert_eq!(read, vec!["/proj/src-tauri/test.png", "/proj/test.png", "/proj/src-tauri/../test.png"]);
    assert!(matches!(stage, Stage::AwaitPlaceholder));
    match &action {
        Action::Download(url) => assert_eq!(url, "https://placehold.co/640x480/png?text=AI+Wallpaper"),
        other => panic!("{:?}", other),
    }
    let (_, done) = advance(stage, Event::Downloaded(Err(DownloadError::Body("offline".to_string()))));
    assert_eq!(error_of(&done), (ErrorKind::Network, "offline".to_string()));
}

#[test]
fn remote_request_shape() {
    let adapter = OpenAiAdapter { api_key: "sk-1".to_string(), model: "m/x".to_string() };
    let (stage, action) = adapter.start("a cat", 1024, 768);
    assert!(matches!(stage, Stage::AwaitGeneration));
    match action {
        Action::Generate(q) => {
            assert_eq!(q.endpoint, "https://api.siliconflow.cn/v1/images/generations");
            assert_eq!(q.authorization, "Bearer sk-1");
            assert_eq!(q.model, "m/x");
            assert_eq!(q.prompt, "a cat");
            assert_eq!(q.image_size, "1024x768");
            assert_eq!(q.batch_size, 1);
            assert_eq!(q.inference_steps, 20);
        }
        other => panic!("{:?}", other),
    }
}

#[test]
fn remote_server_error_is_api_error() {
    let (_, action) = advance(Stage::AwaitGeneration, reply(500, "boom", Err("x".to_string())));
    assert_eq!(error_of(&action), (ErrorKind::Api, "API Error: boom".to_string()));
}

#[test]
fn remote_transport_error_is_network_error() {
    let (_, action) = advance(Stage::AwaitGeneration, Event::Replied(Err("refused".to_string())));
    assert_eq!(error_of(&action), (ErrorKind::Network, "Network request failed: refused".to_string()));
}

#[test]
fn remote_bad_json_is_parse_error() {
    let (_, action) = advance(Stage::AwaitGeneration, reply(200, "{", Err("EOF".to_string())));
    assert_eq!(error_of(&action), (ErrorKind::Parse, "Failed to parse response: EOF".to_string()));
}

#[test]
fn remote_missing_url_is_parse_error() {
    let doc = obj(vec![("data", Json::Array(vec![]))]);
    let (stage, action) = advance(Stage::AwaitGeneration, reply(200, "", Ok(doc)));
    assert!(matches!(stage, Stage::Finished));
    assert_eq!(error_of(&action), (ErrorKind::Parse, "Failed to extract image URL from response".to_string()));
}

#[test]
fn remote_success_downloads_first_url() {
    let doc = obj(vec![(
        "data",
        Json::Array(vec![obj(vec![("url", text("https://img/1.png"))]), obj(vec![("url", text("https://img/2.png"))])]),
    )]);
    let (stage, action) = advance(Stage::AwaitGeneration, reply(201, "", Ok(doc)));
    assert!(matches!(stage, Stage::AwaitImage));
    match action {
        Action::Download(u) => assert_eq!(u, "https://img/1.png"),
        other => panic!("{:?}", other),
    }
    let (stage, done) = advance(Stage::AwaitImage, Event::Downloaded(Ok(vec![9, 9])));
    assert!(matches!(stage, Stage::Finished));
    assert!(matches!(done, Action::Done(Ok(ref b)) if b == &vec![9u8, 9]));
    let (_, failed) = advance(Stage::AwaitImage, Event::Downloaded(Err(DownloadError::Request("reset".to_string()))));
    assert_eq!(error_of(&failed), (ErrorKind::Network, "Failed to download image: reset".to_string()));
    let (_, failed) = advance(Stage::AwaitImage, Event::Downloaded(Err(DownloadError::Body("cut".to_string()))));
    assert_eq!(error_of(&failed), (ErrorKind::Network, "Failed to read image bytes: cut".to_string()));
}

#[test]
fn image_url_needs_string() {
    let doc = obj(vec![("data", Json::Array(vec![obj(vec![("url", Json::Int(3))])]))]);
    assert!(find_image_url(&doc).is_none());
    assert!(find_image_url(&text("data")).is_none());
}

#[test]
fn stage_accepts_only_its_event() {
    assert!(!Stage::AwaitGeneration.accepts(&Event::FileRead(None)));
    assert!(Stage::AwaitImage.accepts(&Event::Downloaded(Ok(vec![]))));
    assert!(!Stage::Finished.accepts(&Event::Downloaded(Ok(vec![]))));
}

#[test]
fn json_get_first_member() {
    let doc = obj(vec![("a", Json::Int(1)), ("b", Json::Int(2)), ("a", Json::Int(3))]);
    assert!(matches!(get(&doc, "a"), Some(Json::Int(1))));
    assert!(matches!(get(&doc, "b"), Some(Json::Int(2))));
    assert!(get(&doc, "c").is_none());
    assert!(get(&Json::Null, "a").is_none());
}

// ----- orchestration -----

#[test]
fn empty_credential_selects_mock() {
    assert!(matches!(select_adapter(String::new(), "m".to_string()), Adapter::Mock(_)));
    match select_adapter("key".to_string(), "model".to_string()) {
        Adapter::Remote(a) => {
            assert_eq!(a.api_key, "key");
            assert_eq!(a.model, "model");
        }
        other => panic!("{:?}", other),
    }
}

#[test]
fn selected_mock_begins_like_mock() {
    let a = select_adapter(String::new(), String::new());
    let (stage, _) = a.begin("test", 1920, 1080, Some("/p".to_string()));
    assert!(matches!(stage, Stage::SearchFixture { .. }));
}

#[test]
fn fresh_ids_differ() {
    let a = fresh_id().unwrap();
    let b = fresh_id().unwrap();
    assert_ne!(a, b);
}

#[test]
fn fresh_id_is_hyphenated_v4() {
    let id: Vec<char> = fresh_id().unwrap().chars().collect();
    assert_eq!(id.len(), 36);
    for (i, c) in id.iter().enumerate() {
        if [8, 13, 18, 23].contains(&i) {
            assert_eq!(*c, '-');
        } else {
            assert!(c.is_ascii_digit() || ('a'..='f').contains(c), "{:?}", id);
        }
    }
    assert_eq!(id[14], '4');
    assert!(['8', '9', 'a', 'b'].contains(&id[19]));
}

#[test]
fn history_failure_does_not_fail_the_operation() {
    assert_eq!(stored_outcome("/x.png".to_string(), Err("disk".to_string())), Ok("/x.png".to_string()));
    assert_eq!(stored_outcome("/x.png".to_string(), Ok(())), Ok("/x.png".to_string()));
}

// ----- storage -----

#[test]
fn append_then_read_keeps_fields() {
    let first = record("a", "sunset", "/s/images/a.png", 1_700_000_000_000, 1920, 1080);
    let doc = save_record(&None, first);
    let second = record("b", "ünïcode \"q\"", "/s/images/b.png", -5, u32::MAX, 0);
    let doc = save_record(&Some(doc), second);
    let read = get_history(&Some(doc));
    assert_eq!(read.len(), 2);
    assert!(same(&read[0], &record("a", "sunset", "/s/images/a.png", 1_700_000_000_000, 1920, 1080)));
    assert!(same(&read[1], &record("b", "ünïcode \"q\"", "/s/images/b.png", -5, u32::MAX, 0)));
}

#[test]
fn record_json_round_trip() {
    let r = record("id", "p", "/i.png", 42, 3, 4);
    let back = record_from_json(&record_to_json(&r)).unwrap();
    assert!(same(&back, &r));
}

#[test]
fn missing_history_reads_empty() {
    assert!(get_history(&None).is_empty());
}

#[test]
fn malformed_history_reads_empty() {
    assert!(get_history(&Some(Json::Array(vec![]))).is_empty());
    assert!(get_history(&Some(obj(vec![("records", text("no"))]))).is_empty());
    let bad = obj(vec![("records", Json::Array(vec![obj(vec![("id", text("x"))])]))]);
    assert!(get_history(&Some(bad)).is_empty());
    let negative_width = obj(vec![
        ("id", text("x")),
        ("prompt", text("p")),
        ("imagePath", text("/x")),
        ("createdAt", Json::Int(1)),
        ("resolution", obj(vec![("width", Json::Int(-1)), ("height", Json::Int(1))])),
    ]);
    assert!(record_from_json(&negative_width).is_none());
}

#[test]
fn append_to_malformed_history_starts_over() {
    let doc = save_record(&Some(text("garbage")), record("z", "p", "/z.png", 1, 1, 1));
    let read = get_history(&Some(doc));
    assert_eq!(read.len(), 1);
    assert_eq!(read[0].id, "z");
}

#[test]
fn set_storage_path_then_get() {
    let config = set_custom_storage_dir(AppConfig { storage_path: None }, "/data/walls".to_string());
    let written = save_config(&config);
    let loaded = load_config(&Some(written));
    assert_eq!(loaded.storage_path.as_deref(), Some("/data/walls"));
    let root = choose_storage_dir(&loaded, true, Some("/home/u/Pictures".to_string()), None, "/tmp");
    assert_eq!(root, "/data/walls");
    assert_eq!(image_path(&root, "abc"), "/data/walls/images/abc.png");
}

#[test]
fn storage_dir_fallbacks() {
    let none = AppConfig { storage_path: None };
    let set = AppConfig { storage_path: Some("/nope".to_string()) };
    assert_eq!(choose_storage_dir(&set, false, Some("/pics".to_string()), None, "/tmp"), "/pics/ai-wallpaper-app");
    assert_eq!(choose_storage_dir(&none, true, None, Some("/data".to_string()), "/tmp"), "/data/ai-wallpaper-app");
    assert_eq!(choose_storage_dir(&none, true, None, None, "/tmp"), "/tmp/ai-wallpaper-app");
}

#[test]
fn config_dir_fallback() {
    assert_eq!(choose_config_dir(Some("/home/u/.config".to_string()), "/tmp"), "/home/u/.config/ai-wallpaper-app");
    assert_eq!(choose_config_dir(None, "/tmp"), "/tmp/ai-wallpaper-app-config");
    assert_eq!(config_file("/c"), "/c/config.json");
}

#[test]
fn malformed_config_reads_default() {
    assert!(load_config(&None).storage_path.is_none());
    assert!(load_config(&Some(text("x"))).storage_path.is_none());
    assert!(load_config(&Some(obj(vec![("storage_path", Json::Int(1))]))).storage_path.is_none());
    assert!(load_config(&Some(obj(vec![]))).storage_path.is_none());
    assert!(load_config(&Some(obj(vec![("storage_path", Json::Null)]))).storage_path.is_none());
}

#[test]
fn file_layout() {
    assert_eq!(images_dir("/root"), "/root/images");
    assert_eq!(history_file("/root"), "/root/history.json");
    assert_eq!(image_path("/root/", "id-1"), "/root/images/id-1.png");
}

#[test]
fn imported_record_uses_marker() {
    let r = imported_record("u".to_string(), "/s/images/u.png".to_string(), 77);
    assert_eq!(r.prompt, "Imported Image");
    assert_eq!(r.resolution, Resolution { width: 1920, height: 1080 });
    let doc = save_record(&None, r);
    let read = get_history(&Some(doc));
    assert_eq!(read[0].prompt, "Imported Image");
    assert_eq!(read[0].image_path, "/s/images/u.png");
}

#[test]
fn generated_record_keeps_request() {
    let r = generated_record("i".to_string(), "sea".to_string(), "/p.png".to_string(), 1_700_000_000_123, 800, 600);
    assert_eq!(r.prompt, "sea");
    assert_eq!(r.resolution, Resolution { width: 800, height: 600 });
    assert_eq!(r.created_at, 1_700_000_000_123);
}

// ----- serving -----

#[test]
fn mime_types() {
    assert_eq!(get_mime_type("/a/b.png"), "image/png");
    assert_eq!(get_mime_type("/a/b.jpeg"), "image/jpeg");
    assert_eq!(get_mime_type("/a/b.jpg"), "image/jpeg");
    assert_eq!(get_mime_type("/a/b.gif"), "image/gif");
    assert_eq!(get_mime_type("/a/b.svg"), "image/svg+xml");
    assert_eq!(get_mime_type("/a/b.webp"), "image/webp");
    assert_eq!(get_mime_type("/a/b.PNG"), "application/octet-stream");
    assert_eq!(get_mime_type("/a/b"), "application/octet-stream");
    assert_eq!(mime_for_extension(None), "application/octet-stream");
}

#[test]
fn request_paths() {
    assert_eq!(request_file_path("/home/u/my%20pic.png", false), "/home/u/my pic.png");
    assert_eq!(request_file_path("/C:/x%2Fy.png", true), "C:/x/y.png");
    assert_eq!(strip_request_prefix("localhost/tmp/a.png", false), "/tmp/a.png");
    assert_eq!(strip_request_prefix("/tmp/a.png", false), "/tmp/a.png");
    assert_eq!(strip_request_prefix("local", true), "local");
}

#[test]
fn screen_resolution_fallback() {
    assert_eq!(get_screen_resolution(Some((2560, 1440))), (2560, 1440));
    assert_eq!(get_screen_resolution(None), (1920, 1080));
}

#[test]
fn default_config_has_no_override() {
    assert!(AppConfig::default().storage_path.is_none());
}

#[test]
fn imported_image_lands_under_storage_root() {
    let root = choose_storage_dir(&AppConfig::default(), false, Some("/home/u/Pictures".to_string()), None, "/tmp");
    let id = fresh_id().unwrap();
    let path = image_path(&root, &id);
    assert_eq!(path, format!("/home/u/Pictures/ai-wallpaper-app/images/{}.png", id));
    let doc = save_record(&None, imported_record(id.clone(), path.clone(), 1));
    let read = get_history(&Some(doc));
    assert_eq!(read.len(), 1);
    assert_eq!(read[0].prompt, "Imported Image");
    assert_eq!(read[0].image_path, path);
}

fn keys(j: &Json) -> Vec<String> {
    match j {
        Json::Object(members) => members.iter().map(|(k, _)| k.clone()).collect(),
        other => panic!("not an object: {:?}", other),
    }
}

#[test]
fn written_documents_have_exact_members() {
    let doc = save_record(&None, record("a", "p", "/a.png", 5, 640, 480));
    assert_eq!(keys(&doc), vec!["records"]);
    let items = match get(&doc, "records") {
        Some(Json::Array(items)) => items,
        other => panic!("{:?}", other),
    };
    assert_eq!(items.len(), 1);
    assert_eq!(keys(&items[0]), vec!["id", "prompt", "imagePath", "createdAt", "resolution"]);
    assert!(matches!(get(&items[0], "createdAt"), Some(Json::Int(5))));
    let res = get(&items[0], "resolution").unwrap();
    assert_eq!(keys(res), vec!["width", "height"]);
    assert!(matches!(get(res, "width"), Some(Json::Int(640))));
    let config = save_config(&AppConfig { storage_path: None });
    assert_eq!(keys(&config), vec!["storage_path"]);
    assert!(matches!(get(&config, "storage_path"), Some(Json::Null)));
}

#[test]
fn clock_readings_in_millis() {
    assert_eq!(millis_since_epoch(Ok((1_700_000_000, 123_999_999))), Some(1_700_000_000_123));
    assert_eq!(millis_since_epoch(Ok((0, 0))), Some(0));
    assert_eq!(millis_since_epoch(Err((5, 0))), Some(-5000));
    assert_eq!(millis_since_epoch(Err((0, 1))), Some(-1));
    assert_eq!(millis_since_epoch(Err((1, 500_000_000))), Some(-1500));
    assert_eq!(millis_since_epoch(Ok((u64::MAX, 0))), None);
    assert_eq!(millis_since_epoch(Ok((1, 1_000_000_000))), None);
    assert_eq!(millis_since_epoch(Ok((9_000_000_000_000_000, 0))), None);
}

#[test]
fn current_time_is_after_2020() {
    assert!(current_millis().unwrap() > 1_577_836_800_000);
}
