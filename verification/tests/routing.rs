use scrapurr::live::LoopAction;
use scrapurr::route::{fetch_after_download, fetch_launch_actions, fetch_plan, route, RouteError, Target};
use scrapurr::supervisor::capture_args;

#[test]
fn vod_url_yields_vod_path_and_start_offset() {
    let url = "https://www.twitch.tv/videos/12345?t=1h2m3s";
    let target = route(url).expect("a VOD URL routes");
    match &target {
        Target::Vod { id, start } => {
            assert_eq!(id, "12345");
            assert_eq!(start.as_deref(), Some("1h2m3s"));
        }
        _ => panic!("expected a VOD target"),
    }
    let plan = fetch_plan(&target, "/out").expect("VODs are fetched one-shot");
    assert_eq!(plan.output_path, "/out/vod_12345.ts");
    assert_eq!(plan.start.as_deref(), Some("1h2m3s"));
    assert!(plan.ensure_dir.is_none());
    let args = capture_args(url, &plan.output_path, plan.start.as_deref());
    assert_eq!(args.len(), 7);
    assert_eq!(args[5], "--twitch-start-time");
    assert_eq!(args[6], "1h2m3s");
}

#[test]
fn vod_url_without_offset_has_no_start() {
    let target = route("https://twitch.tv/videos/999").expect("a VOD URL routes");
    match &target {
        Target::Vod { id, start } => {
            assert_eq!(id, "999");
            assert!(start.is_none());
        }
        _ => panic!("expected a VOD target"),
    }
    let plan = fetch_plan(&target, "/out").unwrap();
    let args = capture_args("https://twitch.tv/videos/999", &plan.output_path, plan.start.as_deref());
    assert_eq!(args.len(), 5);
    assert_eq!(args[0], "--twitch-disable-ads");
    assert_eq!(args[2], "best");
    assert_eq!(args[3], "-o");
    assert_eq!(args[4], "/out/vod_999.ts");
}

#[test]
fn clips_host_url_yields_clips_subfolder_path() {
    let target = route("https://clips.twitch.tv/AbCdEf").expect("a clip URL routes");
    match &target {
        Target::Clip { id } => assert_eq!(id, "AbCdEf"),
        _ => panic!("expected a clip target"),
    }
    let plan = fetch_plan(&target, "/out").expect("clips are fetched one-shot");
    assert_eq!(plan.output_path, "/out/clips/AbCdEf.ts");
    assert!(plan.start.is_none());
    assert_eq!(plan.ensure_dir.as_deref(), Some("/out/clips"));
}

#[test]
fn channel_clip_path_yields_clip_target() {
    let target = route("https://www.twitch.tv/someuser/clip/XYZ").expect("a clip URL routes");
    match &target {
        Target::Clip { id } => assert_eq!(id, "XYZ"),
        _ => panic!("expected a clip target"),
    }
}

#[test]
fn foreign_host_is_rejected() {
    match route("https://example.com/videos/1") {
        Err(RouteError::InvalidUrl) => {}
        _ => panic!("expected an invalid URL error"),
    }
}

#[test]
fn vod_url_without_id_is_rejected() {
    match route("https://www.twitch.tv/videos") {
        Err(RouteError::BadVodReference) => {}
        other => panic!("expected a bad VOD reference, got {:?}", as_debug(&other)),
    }
}

#[test]
fn unparseable_source_is_rejected() {
    match route("not a url at all") {
        Err(RouteError::InvalidUrl) => {}
        _ => panic!("expected an invalid URL error"),
    }
}

#[test]
fn plain_channel_page_routes_to_live_target() {
    let target = route("https://www.twitch.tv/somechannel").expect("a channel page routes");
    match &target {
        Target::Live { user } => assert_eq!(user, "somechannel"),
        _ => panic!("a bare channel page names a live channel"),
    }
    assert!(fetch_plan(&target, "/out").is_none());
}

#[test]
fn one_shot_launch_sets_artifact_before_download() {
    let target = route("https://clips.twitch.tv/AbCdEf").expect("a clip URL routes");
    let plan = fetch_plan(&target, "/out").expect("clips are fetched one-shot");
    let acts = fetch_launch_actions(&plan);
    assert_eq!(acts.len(), 2);
    match &acts[0] {
        LoopAction::SetArtifact { path } => assert_eq!(path, "/out/clips/AbCdEf.ts"),
        _ => panic!("the artifact slot is set first"),
    }
    match &acts[1] {
        LoopAction::Capture { path } => assert_eq!(path, "/out/clips/AbCdEf.ts"),
        _ => panic!("the download is launched second"),
    }
    assert_eq!(fetch_after_download(&plan, true).as_deref(), Some("/out/clips/AbCdEf.ts"));
    assert!(fetch_after_download(&plan, false).is_none());
}

fn as_debug(r: &Result<Target, RouteError>) -> String {
    match r {
        Ok(Target::Live { user }) => format!("Live({})", user),
        Ok(Target::Vod { id, .. }) => format!("Vod({})", id),
        Ok(Target::Clip { id }) => format!("Clip({})", id),
        Err(e) => format!("{:?}", e),
    }
}
