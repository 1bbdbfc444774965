use scrapurr::artifact::ArtifactState;
use scrapurr::live::{probe_event, step, LoopAction, LoopEvent, LoopState};

const OUT: &str = "/out";
const USER: &str = "streamer";

fn probe(up: bool) -> LoopEvent {
    LoopEvent::Probe { up, stamp: String::from("01_02_03-04_05") }
}

#[test]
fn failed_probes_sleep_for_the_configured_interval() {
    let mut st = LoopState::Waiting;
    for _ in 0..2 {
        let (next, acts) = step(&st, &probe(false), OUT, USER, 60);
        assert!(matches!(next, LoopState::Waiting));
        assert_eq!(acts.len(), 1);
        assert!(matches!(acts[0], LoopAction::Sleep { secs: 60 }));
        let (next2, acts2) = step(&next, &LoopEvent::Slept, OUT, USER, 60);
        assert!(matches!(next2, LoopState::Waiting));
        assert_eq!(acts2.len(), 1);
        assert!(matches!(acts2[0], LoopAction::Probe));
        st = next2;
    }
}

#[test]
fn successful_probe_sets_artifact_before_capture() {
    let (next, acts) = step(&LoopState::Waiting, &probe(true), OUT, USER, 60);
    let expected = "/out/streamer/vods/streamer-01_02_03-04_05.ts";
    match &next {
        LoopState::Recording { path } => assert_eq!(path, expected),
        _ => panic!("a successful probe transitions to recording"),
    }
    assert_eq!(acts.len(), 2);
    match &acts[0] {
        LoopAction::SetArtifact { path } => assert_eq!(path, expected),
        _ => panic!("the artifact slot is set first"),
    }
    match &acts[1] {
        LoopAction::Capture { path } => assert_eq!(path, expected),
        _ => panic!("the capture is launched second"),
    }
}

#[test]
fn finished_capture_processes_the_recorded_path() {
    let (recording, _) = step(&LoopState::Waiting, &probe(true), OUT, USER, 45);
    let (next, acts) = step(&recording, &LoopEvent::CaptureDone { ok: true }, OUT, USER, 45);
    assert!(matches!(next, LoopState::Waiting));
    assert_eq!(acts.len(), 2);
    match &acts[0] {
        LoopAction::Process { path } => {
            assert_eq!(path, "/out/streamer/vods/streamer-01_02_03-04_05.ts")
        }
        _ => panic!("a successful capture is processed"),
    }
    assert!(matches!(acts[1], LoopAction::Sleep { secs: 45 }));
}

#[test]
fn failed_capture_is_not_processed() {
    let (recording, _) = step(&LoopState::Waiting, &probe(true), OUT, USER, 60);
    let (next, acts) = step(&recording, &LoopEvent::CaptureDone { ok: false }, OUT, USER, 60);
    assert!(matches!(next, LoopState::Waiting));
    assert_eq!(acts.len(), 1);
    assert!(matches!(acts[0], LoopAction::Sleep { secs: 60 }));
}

#[test]
fn probe_event_carries_the_outcome() {
    match probe_event(true) {
        LoopEvent::Probe { up, .. } => assert!(up),
        _ => panic!("probe_event builds a probe event"),
    }
    match probe_event(false) {
        LoopEvent::Probe { up, .. } => assert!(!up),
        _ => panic!("probe_event builds a probe event"),
    }
}

#[test]
fn probe_event_stamp_has_the_timestamp_shape() {
    let stamp = match probe_event(true) {
        LoopEvent::Probe { stamp, .. } => stamp,
        _ => panic!("probe_event builds a probe event"),
    };
    let chars: Vec<char> = stamp.chars().collect();
    assert_eq!(chars.len(), 14);
    for (i, c) in chars.iter().enumerate() {
        match i {
            2 | 5 | 11 => assert_eq!(*c, '_'),
            8 => assert_eq!(*c, '-'),
            _ => assert!(c.is_ascii_digit(), "stamp {:?} has a non-digit at {}", stamp, i),
        }
    }
}

#[test]
fn interrupt_finalizes_the_tracked_path_once() {
    let mut slot = ArtifactState::new();
    assert!(slot.read().is_none());
    assert!(slot.finalize_input().is_none());

    let p = "/out/streamer/vods/streamer-01_02_03-04_05.ts";
    slot.set(p);
    let mut finalized: Vec<String> = Vec::new();
    if let Some(path) = slot.finalize_input() {
        finalized.push(path);
    }
    assert_eq!(finalized.len(), 1);
    assert_eq!(finalized[0], p);
}

#[test]
fn artifact_slot_holds_the_latest_path() {
    let mut slot = ArtifactState::new();
    slot.set("/out/vod_1.ts");
    slot.set("/out/vod_2.ts");
    assert_eq!(slot.read().as_deref(), Some("/out/vod_2.ts"));
}
