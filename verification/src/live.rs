use crate::paths::{live_path, live_path_of};
use vstd::prelude::*;
use vstd::string::*;

verus! {

/// State of the live-channel poll loop: it is either between probes or
/// supervising one capture.
pub enum LoopState {
    Waiting,
    Recording { path: String },
}

/// Mathematical model of a loop state.
pub enum LoopStateModel {
    Waiting,
    Recording { path: Seq<char> },
}

impl View for LoopState {
    type V = LoopStateModel;

    open spec fn view(&self) -> LoopStateModel {
        match self {
            LoopState::Waiting => LoopStateModel::Waiting,
            LoopState::Recording { path } => LoopStateModel::Recording { path: path@ },
        }
    }
}

/// One thing the loop observed: a probe outcome (with the wall-clock stamp
/// taken at that moment), the end of a capture, or the end of a sleep.
pub enum LoopEvent {
    Probe { up: bool, stamp: String },
    CaptureDone { ok: bool },
    Slept,
}

/// Mathematical model of a loop event.
pub enum LoopEventModel {
    Probe { up: bool, stamp: Seq<char> },
    CaptureDone { ok: bool },
    Slept,
}

impl View for LoopEvent {
    type V = LoopEventModel;

    open spec fn view(&self) -> LoopEventModel {
        match self {
            LoopEvent::Probe { up, stamp } => LoopEventModel::Probe { up: *up, stamp: stamp@ },
            LoopEvent::CaptureDone { ok } => LoopEventModel::CaptureDone { ok: *ok },
            LoopEvent::Slept => LoopEventModel::Slept,
        }
    }
}

/// One thing the loop asks its surroundings to do next.
pub enum LoopAction {
    /// Record `path` in the shared artifact slot.
    SetArtifact { path: String },
    /// Launch the capture tool writing to `path` and wait for it.
    Capture { path: String },
    /// Run the post-processing pipeline on `path`.
    Process { path: String },
    /// Sleep for `secs` seconds.
    Sleep { secs: u64 },
    /// Issue an availability probe.
    Probe,
}

/// Mathematical model of an action.
pub enum LoopActionModel {
    SetArtifact { path: Seq<char> },
    Capture { path: Seq<char> },
    Process { path: Seq<char> },
    Sleep { secs: u64 },
    Probe,
}

impl View for LoopAction {
    type V = LoopActionModel;

    open spec fn view(&self) -> LoopActionModel {
        match self {
            LoopAction::SetArtifact { path } => LoopActionModel::SetArtifact { path: path@ },
            LoopAction::Capture { path } => LoopActionModel::Capture { path: path@ },
            LoopAction::Process { path } => LoopActionModel::Process { path: path@ },
            LoopAction::Sleep { secs } => LoopActionModel::Sleep { secs: *secs },
            LoopAction::Probe => LoopActionModel::Probe,
        }
    }
}

/// The state after one transition of the poll loop.
pub open spec fn next_of(
    st: LoopStateModel,
    ev: LoopEventModel,
    out: Seq<char>,
    user: Seq<char>,
) -> LoopStateModel {
    match (st, ev) {
        (LoopStateModel::Waiting, LoopEventModel::Probe { up, stamp }) => if up {
            LoopStateModel::Recording { path: live_path_of(out, user, stamp) }
        } else {
            LoopStateModel::Waiting
        },
        (LoopStateModel::Recording { .. }, LoopEventModel::CaptureDone { .. }) => (
        LoopStateModel::Waiting),
        (s, _) => s,
    }
}

/// The actions one transition of the poll loop demands, in order.
pub open spec fn actions_of(
    st: LoopStateModel,
    ev: LoopEventModel,
    out: Seq<char>,
    user: Seq<char>,
    interval: u64,
) -> Seq<LoopActionModel> {
    match (st, ev) {
        (LoopStateModel::Waiting, LoopEventModel::Probe { up, stamp }) => if up {
            seq![
                LoopActionModel::SetArtifact { path: live_path_of(out, user, stamp) },
                LoopActionModel::Capture { path: live_path_of(out, user, stamp) },
            ]
        } else {
            seq![LoopActionModel::Sleep { secs: interval }]
        },
        (LoopStateModel::Recording { path }, LoopEventModel::CaptureDone { ok }) => if ok {
            seq![
                LoopActionModel::Process { path },
                LoopActionModel::Sleep { secs: interval },
            ]
        } else {
            seq![LoopActionModel::Sleep { secs: interval }]
        },
        (LoopStateModel::Waiting, LoopEventModel::Slept) => seq![LoopActionModel::Probe],
        (_, _) => Seq::empty(),
    }
}

/// One transition of the poll loop. A successful probe constructs the fresh
/// timestamped output path, demands that the artifact slot be set to it
/// strictly before the capture is launched, and records it; a finished
/// capture hands exactly the recorded path to the pipeline when and only
/// when the capture succeeded, and returns to waiting; every pass through
/// waiting sleeps for the configured interval before the next probe.
pub fn step(st: &LoopState, ev: &LoopEvent, out: &str, user: &str, interval: u64) -> (r: (
    LoopState,
    Vec<LoopAction>,
))
    ensures
        r.0@ == next_of(st@, ev@, out@, user@),
        r.1@.map_values(|a: LoopAction| a@) == actions_of(st@, ev@, out@, user@, interval),
{
    let mut acts: Vec<LoopAction> = Vec::new();
    match (st, ev) {
        (LoopState::Waiting, LoopEvent::Probe { up, stamp }) => {
            if *up {
                let p = live_path(out, user, stamp.as_str());
                acts.push(LoopAction::SetArtifact { path: p.clone() });
                acts.push(LoopAction::Capture { path: p.clone() });
                let next = LoopState::Recording { path: p };
                proof {
                    assert(acts@.map_values(|a: LoopAction| a@) =~= actions_of(
                        st@,
                        ev@,
                        out@,
                        user@,
                        interval,
                    ));
                }
                (next, acts)
            } else {
                acts.push(LoopAction::Sleep { secs: interval });
                proof {
                    assert(acts@.map_values(|a: LoopAction| a@) =~= actions_of(
                        st@,
                        ev@,
                        out@,
                        user@,
                        interval,
                    ));
                }
                (LoopState::Waiting, acts)
            }
        },
        (LoopState::Recording { path }, LoopEvent::CaptureDone { ok }) => {
            if *ok {
                acts.push(LoopAction::Process { path: path.clone() });
            }
            acts.push(LoopAction::Sleep { secs: interval });
            proof {
                assert(acts@.map_values(|a: LoopAction| a@) =~= actions_of(
                    st@,
                    ev@,
                    out@,
                    user@,
                    interval,
                ));
            }
            (LoopState::Waiting, acts)
        },
        (LoopState::Waiting, LoopEvent::Slept) => {
            acts.push(LoopAction::Probe);
            proof {
                assert(acts@.map_values(|a: LoopAction| a@) =~= actions_of(
                    st@,
                    ev@,
                    out@,
                    user@,
                    interval,
                ));
            }
            (LoopState::Waiting, acts)
        },
        (LoopState::Recording { path }, _) => {
            proof {
                assert(acts@.map_values(|a: LoopAction| a@) =~= actions_of(
                    st@,
                    ev@,
                    out@,
                    user@,
                    interval,
                ));
            }
            (LoopState::Recording { path: path.clone() }, acts)
        },
        (LoopState::Waiting, _) => {
            proof {
                assert(acts@.map_values(|a: LoopAction| a@) =~= actions_of(
                    st@,
                    ev@,
                    out@,
                    user@,
                    interval,
                ));
            }
            (LoopState::Waiting, acts)
        },
    }
}

/// Launch-to-pipeline coherence of one capture cycle: when a probe succeeds,
/// the artifact slot is set — first among the demanded actions — to the very
/// path the capture writes to; and when that capture later finishes
/// successfully, the path handed to the pipeline is that same path.
pub proof fn lemma_cycle_coherence(
    out: Seq<char>,
    user: Seq<char>,
    stamp: Seq<char>,
    interval: u64,
)
    ensures
        ({
            let ev = LoopEventModel::Probe { up: true, stamp };
            let launched = next_of(LoopStateModel::Waiting, ev, out, user);
            let launch_acts = actions_of(LoopStateModel::Waiting, ev, out, user, interval);
            let done_acts = actions_of(
                launched,
                LoopEventModel::CaptureDone { ok: true },
                out,
                user,
                interval,
            );
            let p = live_path_of(out, user, stamp);
            &&& launched == (LoopStateModel::Recording { path: p })
            &&& launch_acts[0] == (LoopActionModel::SetArtifact { path: p })
            &&& launch_acts[1] == (LoopActionModel::Capture { path: p })
            &&& done_acts[0] == (LoopActionModel::Process { path: p })
        }),
{
}

/// A decimal digit.
pub open spec fn is_digit(c: char) -> bool {
    '0' as u32 <= c as u32 <= '9' as u32
}

/// The shape of a capture timestamp: `DD_MM_YY-HH_MM`, each field two
/// digits, the fields joined by the fixed separators.
pub open spec fn is_stamp(s: Seq<char>) -> bool {
    &&& s.len() == 14
    &&& (forall|i: int|
        0 <= i < 14 && i != 2 && i != 5 && i != 8 && i != 11 ==> is_digit(#[trigger] s[i]))
    &&& s[2] == '_'
    &&& s[5] == '_'
    &&& s[8] == '-'
    &&& s[11] == '_'
}

/// Relies on chrono's `Local::now` and `DateTime::format`: a wall-clock
/// timestamp rendered as `%d_%m_%y-%H_%M`. Each of those five fields is
/// written as exactly two decimal digits (zero-padded, the year reduced
/// modulo 100), so the result always has the fourteen-character stamp
/// shape; which stamp comes back depends on the clock, so no more is
/// stated. `Local::now` aborts on a system clock before the Unix epoch;
/// there is no input to exclude that by.
#[verifier::external_body]
fn now_stamp() -> (r: String)
    ensures
        is_stamp(r@),
{
    chrono::Local::now().format("%d_%m_%y-%H_%M").to_string()
}

/// The probe event for this instant: the probe's outcome together with the
/// wall-clock stamp a capture started now would be named after.
pub fn probe_event(up: bool) -> (r: LoopEvent)
    ensures
        r is Probe,
        r->Probe_up == up,
        is_stamp(r->Probe_stamp@),
{
    LoopEvent::Probe { up, stamp: now_stamp() }
}

} // verus!
