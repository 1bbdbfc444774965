use scrapurr::pipeline::{after_remux, convert_plan, sheet_plan, ConvertPlan};
use scrapurr::settings::Settings;

fn all_on() -> Settings {
    Settings {
        output_folder: String::from("/out"),
        convert_to_mp4: true,
        use_ffmpeg_convert: true,
        generate_contact_sheet: true,
        check_interval: 60,
    }
}

#[test]
fn missing_input_is_a_no_op() {
    let s = all_on();
    let plan = convert_plan(&s, "/out/u/vods/u-x.ts", false, 0);
    assert!(matches!(plan, ConvertPlan::SkipEmpty));
}

#[test]
fn empty_input_is_a_no_op() {
    let s = all_on();
    let plan = convert_plan(&s, "/out/u/vods/u-x.ts", true, 0);
    assert!(matches!(plan, ConvertPlan::SkipEmpty));
}

#[test]
fn successful_remux_deletes_raw_and_reports_target() {
    let s = all_on();
    let plan = convert_plan(&s, "/out/u/vods/u-x.ts", true, 1024);
    match plan {
        ConvertPlan::Remux { raw, target } => {
            assert_eq!(raw, "/out/u/vods/u-x.ts");
            assert_eq!(target, "/out/u/vods/u-x.mp4");
            let done = after_remux(&raw, &target, true);
            assert!(done.delete_raw);
            assert_eq!(done.final_path, "/out/u/vods/u-x.mp4");
        }
        _ => panic!("expected a remux plan"),
    }
}

#[test]
fn failed_remux_keeps_raw_as_saved_path() {
    let s = all_on();
    let plan = convert_plan(&s, "/out/u/vods/u-x.ts", true, 1024);
    match plan {
        ConvertPlan::Remux { raw, target } => {
            let done = after_remux(&raw, &target, false);
            assert!(!done.delete_raw);
            assert_eq!(done.final_path, "/out/u/vods/u-x.ts");
        }
        _ => panic!("expected a remux plan"),
    }
}

#[test]
fn plain_rename_when_transcoder_disabled() {
    let mut s = all_on();
    s.use_ffmpeg_convert = false;
    let plan = convert_plan(&s, "/out/vod_12345.ts", true, 1);
    match plan {
        ConvertPlan::Rename { raw, target } => {
            assert_eq!(raw, "/out/vod_12345.ts");
            assert_eq!(target, "/out/vod_12345.mp4");
        }
        _ => panic!("expected a rename plan"),
    }
}

#[test]
fn conversion_disabled_keeps_raw_path() {
    let mut s = all_on();
    s.convert_to_mp4 = false;
    let plan = convert_plan(&s, "/out/u/vods/u-x.ts", true, 1);
    match plan {
        ConvertPlan::Keep { path } => assert_eq!(path, "/out/u/vods/u-x.ts"),
        _ => panic!("expected a keep plan"),
    }
}

#[test]
fn already_converted_path_is_kept_twice() {
    let s = all_on();
    for _ in 0..2 {
        let plan = convert_plan(&s, "/out/u/vods/u-x.mp4", true, 1024);
        match plan {
            ConvertPlan::Keep { path } => assert_eq!(path, "/out/u/vods/u-x.mp4"),
            _ => panic!("an already-converted path must not be converted again"),
        }
        let sheet = sheet_plan(&s, "/out/u/vods/u-x.mp4").expect("sheet enabled");
        assert_eq!(sheet.output, "/out/u/vods/u-x.jpg");
    }
}

#[test]
fn sheet_plan_has_fixed_layout() {
    let s = all_on();
    let sheet = sheet_plan(&s, "/out/vod_1.mp4").expect("sheet enabled");
    assert_eq!(sheet.media, "/out/vod_1.mp4");
    assert_eq!(sheet.output, "/out/vod_1.jpg");
    assert_eq!(sheet.grid_x, 4);
    assert_eq!(sheet.grid_y, 6);
    assert_eq!(sheet.num_samples, 24);
    assert_eq!(sheet.width, 1500);
    assert!(sheet.show_timestamp);
}

#[test]
fn sheet_plan_none_when_disabled() {
    let mut s = all_on();
    s.generate_contact_sheet = false;
    assert!(sheet_plan(&s, "/out/vod_1.mp4").is_none());
}
