use webbox::errors::user_friendly_error;
use webbox::event::Event;
use webbox::icon::{IconComposer, IconWork, icon_sizes, is_webp_path};
use webbox::names::{app_file_name, bundle_identifier, plist_edits};
use webbox::pipeline::{Action, GenerateAppRequest, Pipeline, Stage};
use webbox::publish::{DestState, PublishMover, PublishStage, PublishWork};
use webbox::sanitize::sanitize_name;
use webbox::template::{resolve_template, template_not_found};
use webbox::text::contains_str;

fn request(name: &str, url: &str, icon: &str, out: &str) -> GenerateAppRequest {
    GenerateAppRequest {
        name: name.to_string(),
        url: url.to_string(),
        icon_path: icon.to_string(),
        output_dir: out.to_string(),
    }
}

struct RunRecord {
    progress: Vec<u8>,
    config_contents: Option<String>,
    plist_sets: Vec<(String, String)>,
    resizes: Vec<u32>,
    packed: bool,
}

/// Drives a pipeline to a terminal stage, answering every action with
/// success, and records what was asked for along the way.
fn drive_success(p: &mut Pipeline, first: u8, dest_exists: bool) -> RunRecord {
    let mut rec = RunRecord {
        progress: vec![first],
        config_contents: None,
        plist_sets: Vec::new(),
        resizes: Vec::new(),
        packed: false,
    };
    let mut steps = 0;
    while !matches!(p.stage, Stage::Done | Stage::Failed) {
        let a = p.current_action();
        let ev = match &a {
            Action::ProbeTemplates { .. } => Event::PathsChecked(true, false, false),
            Action::CheckDestination { .. } => Event::DestinationChecked(dest_exists),
            Action::WriteFile { contents, .. } => {
                rec.config_contents = Some(contents.clone());
                Event::Completed
            }
            Action::SetPlistKey { key, value, .. } => {
                rec.plist_sets.push((key.clone(), value.clone()));
                Event::Completed
            }
            Action::ResizeImage { dim, .. } => {
                rec.resizes.push(*dim);
                Event::Completed
            }
            Action::PackIconset { .. } => {
                rec.packed = true;
                Event::Completed
            }
            _ => Event::Completed,
        };
        if let Some(pr) = p.step(&ev) {
            rec.progress.push(pr.progress);
        }
        steps += 1;
        assert!(steps < 200, "pipeline did not terminate");
    }
    rec
}

#[test]
fn sanitize_keeps_letters_digits_spaces_hyphens() {
    assert_eq!(sanitize_name("My App!!"), "My App");
    assert_eq!(sanitize_name("Weather App"), "Weather App");
    assert_eq!(sanitize_name("  padded  "), "padded");
    assert_eq!(sanitize_name("a-b c9"), "a-b c9");
    assert_eq!(sanitize_name("!!!"), "");
    assert_eq!(sanitize_name("<x@y#z>"), "xyz");
}

#[test]
fn sanitize_is_idempotent_on_samples() {
    for s in ["My App!!", "  padded  ", "!!!", "a-b c9", "Weather App"] {
        let once = sanitize_name(s);
        let twice = sanitize_name(&once);
        assert_eq!(once, twice);
    }
}

#[test]
fn friendly_error_translation() {
    assert_eq!(
        user_friendly_error("mkdir: permission denied"),
        "Permission denied. Try choosing a different output location."
    );
    assert_eq!(
        user_friendly_error("open x: Permission denied (os error 13)"),
        "Permission denied. Try choosing a different output location."
    );
    assert_eq!(
        user_friendly_error("No such file or directory"),
        "The selected icon file could not be found."
    );
    assert_eq!(
        user_friendly_error("sips failed for size 512"),
        "Failed to process the icon image. Please try a different image (PNG recommended)."
    );
    assert_eq!(
        user_friendly_error("iconutil failed"),
        "Failed to create app icon. Please try a different image."
    );
    assert_eq!(user_friendly_error("some other problem"), "some other problem");
}

#[test]
fn contains_str_basics() {
    assert!(contains_str("hello world", "lo wo"));
    assert!(contains_str("abc", ""));
    assert!(!contains_str("abc", "abcd"));
    assert!(!contains_str("abc", "cb"));
}

#[test]
fn bundle_identifier_is_lowercased_and_hyphenated() {
    assert_eq!(
        bundle_identifier("Weather App"),
        "io.sublimesolutions.webbox.weather-app"
    );
    assert_eq!(bundle_identifier("X"), "io.sublimesolutions.webbox.x");
}

#[test]
fn app_file_name_appends_suffix() {
    assert_eq!(app_file_name("Weather App"), "Weather App.app");
}

#[test]
fn plist_edits_are_three_in_order() {
    let v = plist_edits("Weather App", "io.sublimesolutions.webbox.weather-app");
    assert_eq!(v.len(), 3);
    assert_eq!(v[0].0, "CFBundleName");
    assert_eq!(v[0].1, "Weather App");
    assert_eq!(v[1].0, "CFBundleDisplayName");
    assert_eq!(v[1].1, "Weather App");
    assert_eq!(v[2].0, "CFBundleIdentifier");
    assert_eq!(v[2].1, "io.sublimesolutions.webbox.weather-app");
}

#[test]
fn icon_plan_has_ten_entries() {
    let v = icon_sizes();
    assert_eq!(v.len(), 10);
    let dims: Vec<u32> = v.iter().map(|e| e.dim).collect();
    assert_eq!(dims, vec![16, 32, 32, 64, 128, 256, 256, 512, 512, 1024]);
    assert_eq!(v[0].file_name, "icon_16x16.png");
    assert_eq!(v[1].file_name, "icon_16x16@2x.png");
    assert_eq!(v[9].file_name, "icon_512x512@2x.png");
}

#[test]
fn webp_detection() {
    assert!(is_webp_path("/a/b/picture.webp"));
    assert!(is_webp_path("pic.WebP"));
    assert!(!is_webp_path("/a/b/.webp"));
    assert!(!is_webp_path("picture.png"));
    assert!(!is_webp_path("webp"));
}

#[test]
fn icon_composer_packs_only_after_all_ten() {
    let mut c = IconComposer::new(false);
    assert!(matches!(c.work(), IconWork::CreateScratch));
    c.step(&Event::Completed);
    let mut resizes = 0;
    while matches!(c.work(), IconWork::Resize { .. }) {
        resizes += 1;
        c.step(&Event::Completed);
    }
    assert_eq!(resizes, 10);
    assert!(matches!(c.work(), IconWork::Pack));
    c.step(&Event::Completed);
    assert!(matches!(c.work(), IconWork::RemoveScratch));
    c.step(&Event::Completed);
    assert!(matches!(c.stage, webbox::icon::IconStage::Done));
}

#[test]
fn icon_composer_resize_failure_prevents_packing() {
    let mut c = IconComposer::new(false);
    c.step(&Event::Completed);
    for _ in 0..4 {
        assert!(matches!(c.work(), IconWork::Resize { .. }));
        c.step(&Event::Completed);
    }
    assert!(matches!(c.work(), IconWork::Resize { index: 4 }));
    c.step(&Event::ToolFailed);
    // cleanup of the scratch directory still runs, and packing never comes
    assert!(matches!(c.work(), IconWork::RemoveScratch));
    c.step(&Event::Completed);
    assert!(matches!(c.stage, webbox::icon::IconStage::Failed));
    assert_eq!(c.failure.as_deref(), Some("sips failed for size 128"));
}

#[test]
fn icon_composer_webp_converts_first() {
    let mut c = IconComposer::new(true);
    c.step(&Event::Completed);
    assert!(matches!(c.work(), IconWork::ConvertSource));
    c.step(&Event::Completed);
    assert!(matches!(c.work(), IconWork::Resize { index: 0 }));
}

#[test]
fn template_resolution_picks_first_existing() {
    assert_eq!(resolve_template(&vec![false, true, true]), Some(1));
    assert_eq!(resolve_template(&vec![true, false, false]), Some(0));
    assert_eq!(resolve_template(&vec![false, false, false]), None);
    let msg = template_not_found("/a", "/b", "/c");
    assert_eq!(msg, "Template.app not found. Checked:\n- /a\n- /b\n- /c");
}

#[test]
fn publish_success_by_rename() {
    let mut m = PublishMover::new(false);
    assert!(matches!(m.work(), PublishWork::Rename));
    m.step(&Event::Completed);
    assert!(matches!(m.stage, PublishStage::Done));
    assert!(!m.temp_holds);
    assert!(matches!(m.dest, DestState::NewBundle));
}

#[test]
fn publish_overwrites_existing_destination() {
    let mut m = PublishMover::new(true);
    assert!(matches!(m.work(), PublishWork::RemoveDestination));
    m.step(&Event::Completed);
    assert!(matches!(m.dest, DestState::Absent));
    m.step(&Event::Completed);
    assert!(matches!(m.stage, PublishStage::Done));
    assert!(matches!(m.dest, DestState::NewBundle));
    assert!(!m.temp_holds);
}

#[test]
fn publish_cross_device_fallback() {
    let mut m = PublishMover::new(false);
    // the rename is made to fail: nothing on disk changes
    m.step(&Event::IoFailed("cross-device link".to_string()));
    assert!(matches!(m.stage, PublishStage::CopyingFallback));
    assert!(m.temp_holds);
    assert!(matches!(m.dest, DestState::Absent));
    // the fallback copy produces an identical destination
    m.step(&Event::Completed);
    assert!(matches!(m.dest, DestState::NewBundle));
    assert!(m.temp_holds);
    // and the source is removed afterward
    m.step(&Event::Completed);
    assert!(matches!(m.stage, PublishStage::Done));
    assert!(!m.temp_holds);
}

#[test]
fn publish_failed_copy_leaves_source_and_flags_partial_destination() {
    let mut m = PublishMover::new(false);
    m.step(&Event::IoFailed("cross-device link".to_string()));
    // the known non-atomicity window: a failed fallback copy may leave a
    // partially written destination while the source is intact
    m.step(&Event::ToolFailed);
    assert!(matches!(m.stage, PublishStage::Failed));
    assert!(m.temp_holds);
    assert!(matches!(m.dest, DestState::Partial));
    assert_eq!(
        m.failure.as_deref(),
        Some("Failed to move app to destination: Copy failed")
    );
}

#[test]
fn publish_remove_existing_failure_keeps_source() {
    let mut m = PublishMover::new(true);
    m.step(&Event::IoFailed("Permission denied".to_string()));
    assert!(matches!(m.stage, PublishStage::Failed));
    assert!(m.temp_holds);
    assert!(!matches!(m.dest, DestState::NewBundle));
}

#[test]
fn pipeline_rejects_empty_safe_name() {
    let (mut p, first) = Pipeline::new(
        request("!!!", "https://x.example.com", "/icons/a.png", "/out"),
        "/res".to_string(),
        "/man".to_string(),
        "/tmpbase".to_string(),
    );
    assert_eq!(first.progress, 10);
    let out = p.step(&Event::PathsChecked(true, false, false));
    assert!(out.is_none());
    assert!(matches!(p.stage, Stage::Failed));
    assert_eq!(
        p.failure.as_deref(),
        Some("Invalid app name. Please use letters, numbers, spaces, or hyphens.")
    );
}

#[test]
fn pipeline_reports_all_missing_template_candidates() {
    let (mut p, _first) = Pipeline::new(
        request("Weather App", "https://weather.example.com", "/icons/a.png", "/out"),
        "/res".to_string(),
        "/man".to_string(),
        "/tmpbase".to_string(),
    );
    p.step(&Event::PathsChecked(false, false, false));
    assert!(matches!(p.stage, Stage::Failed));
    let msg = p.failure.clone().unwrap();
    assert_eq!(
        msg,
        "Template.app not found. Checked:\n- /res/Template.app\n- /res/resources/Template.app\n- /man/resources/Template.app"
    );
}

#[test]
fn pipeline_translates_sign_failure() {
    let (mut p, _first) = Pipeline::new(
        request("Weather App", "https://weather.example.com", "/icons/a.png", "/out"),
        "/res".to_string(),
        "/man".to_string(),
        "/tmpbase".to_string(),
    );
    let mut steps = 0;
    loop {
        let a = p.current_action();
        let ev = match &a {
            Action::ProbeTemplates { .. } => Event::PathsChecked(true, false, false),
            Action::SignBundle { .. } => Event::IoFailed("Permission denied".to_string()),
            Action::CheckDestination { .. } => Event::DestinationChecked(false),
            _ => Event::Completed,
        };
        let failing = matches!(a, Action::SignBundle { .. });
        p.step(&ev);
        if failing {
            break;
        }
        steps += 1;
        assert!(steps < 100);
    }
    assert!(matches!(p.stage, Stage::Failed));
    assert_eq!(
        p.failure.as_deref(),
        Some("Permission denied. Try choosing a different output location.")
    );
}

#[test]
fn pipeline_progress_is_monotone_and_ends_at_100() {
    let (mut p, first) = Pipeline::new(
        request("Weather App", "https://weather.example.com", "/icons/a.png", "/out"),
        "/res".to_string(),
        "/man".to_string(),
        "/tmpbase".to_string(),
    );
    let rec = drive_success(&mut p, first.progress, false);
    assert!(matches!(p.stage, Stage::Done));
    for w in rec.progress.windows(2) {
        assert!(w[0] <= w[1]);
    }
    assert_eq!(*rec.progress.last().unwrap(), 100);
    assert_eq!(rec.progress, vec![10, 20, 40, 60, 70, 80, 90, 100]);
}

#[test]
fn pipeline_end_to_end_weather_app() {
    let (mut p, first) = Pipeline::new(
        request(
            "Weather App",
            "https://weather.example.com",
            "/icons/weather.png",
            "/tmp-out",
        ),
        "/res".to_string(),
        "/man".to_string(),
        "/tmpbase".to_string(),
    );
    let rec = drive_success(&mut p, first.progress, false);
    assert!(matches!(p.stage, Stage::Done));
    assert_eq!(p.result_ok.as_deref(), Some("/tmp-out/Weather App.app"));

    // exactly the ten resized assets were produced before packing
    assert_eq!(rec.resizes, vec![16, 32, 32, 64, 128, 256, 256, 512, 512, 1024]);
    assert!(rec.packed);

    // the configuration carries the display name and the target URL
    let contents = rec.config_contents.unwrap();
    let parsed: serde_json::Value = serde_json::from_str(&contents).unwrap();
    assert_eq!(parsed.get("name").unwrap().as_str(), Some("Weather App"));
    assert_eq!(
        parsed.get("url").unwrap().as_str(),
        Some("https://weather.example.com")
    );

    // the metadata edits carry the safe name and the synthesized identifier
    assert_eq!(rec.plist_sets.len(), 3);
    assert_eq!(rec.plist_sets[0].0, "CFBundleName");
    assert_eq!(rec.plist_sets[0].1, "Weather App");
    assert_eq!(rec.plist_sets[1].0, "CFBundleDisplayName");
    assert_eq!(
        rec.plist_sets[2],
        (
            "CFBundleIdentifier".to_string(),
            "io.sublimesolutions.webbox.weather-app".to_string()
        )
    );
}

#[test]
fn pipeline_overwrite_run_removes_destination_first() {
    let (mut p, first) = Pipeline::new(
        request("Weather App", "https://weather.example.com", "/icons/a.png", "/out"),
        "/res".to_string(),
        "/man".to_string(),
        "/tmpbase".to_string(),
    );
    let _rec = drive_success(&mut p, first.progress, true);
    assert!(matches!(p.stage, Stage::Done));
    assert_eq!(p.result_ok.as_deref(), Some("/out/Weather App.app"));
}
