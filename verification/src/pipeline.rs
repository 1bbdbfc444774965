use crate::paths::{
    ends_with_ts, is_raw, jpg_target, jpg_target_of, lemma_jpg_of_target_differs,
    lemma_mp4_target_differs, mp4_target, mp4_target_of,
};
use crate::settings::Settings;
use vstd::prelude::*;
use vstd::string::*;

verus! {

/// What the conversion step of one pipeline run does, decided before any
/// filesystem or subprocess work is performed.
pub enum ConvertPlan {
    /// The input is missing or empty: the whole run is a successful no-op.
    SkipEmpty,
    /// Remux `raw` into `target` with the external transcoder; on success
    /// the raw file is deleted.
    Remux { raw: String, target: String },
    /// Rename `raw` to `target` in place of invoking a transcoder.
    Rename { raw: String, target: String },
    /// No conversion: either the step is disabled or the input carries no
    /// raw extension to act on.
    Keep { path: String },
}

/// The existence/size guard short-circuits the whole run.
pub open spec fn guard_skips(present: bool, len: u64) -> bool {
    !present || len == 0
}

/// The conversion step has work to do: it is enabled and the input still
/// carries the raw extension.
pub open spec fn conversion_applies(s: Settings, p: Seq<char>) -> bool {
    s.convert_to_mp4 && is_raw(p)
}

/// The media path one pipeline run reports as saved, given the outcome of a
/// remux attempt (`remux_ok` is irrelevant unless a remux was planned).
pub open spec fn final_path_of(
    s: Settings,
    p: Seq<char>,
    present: bool,
    len: u64,
    remux_ok: bool,
) -> Seq<char> {
    if guard_skips(present, len) || !conversion_applies(s, p) {
        p
    } else if s.use_ffmpeg_convert && !remux_ok {
        p
    } else {
        mp4_target_of(p)
    }
}

/// The set of paths on disk after the conversion step, starting from `fs`.
pub open spec fn files_after_convert(
    s: Settings,
    p: Seq<char>,
    present: bool,
    len: u64,
    remux_ok: bool,
    fs: Set<Seq<char>>,
) -> Set<Seq<char>> {
    if guard_skips(present, len) || !conversion_applies(s, p) {
        fs
    } else if s.use_ffmpeg_convert && !remux_ok {
        fs
    } else {
        fs.remove(p).insert(mp4_target_of(p))
    }
}

/// The thumbnail the run leaves behind, if any: none when the guard
/// short-circuits, the step is disabled, or the generator failed (its
/// failure is logged and does not fail the run).
pub open spec fn thumb_of(
    s: Settings,
    p: Seq<char>,
    present: bool,
    len: u64,
    remux_ok: bool,
    sheet_ok: bool,
) -> Option<Seq<char>> {
    if guard_skips(present, len) || !s.generate_contact_sheet || !sheet_ok {
        None
    } else {
        Some(jpg_target_of(final_path_of(s, p, present, len, remux_ok)))
    }
}

/// The set of paths on disk after one whole pipeline run.
pub open spec fn files_after_run(
    s: Settings,
    p: Seq<char>,
    present: bool,
    len: u64,
    remux_ok: bool,
    sheet_ok: bool,
    fs: Set<Seq<char>>,
) -> Set<Seq<char>> {
    let fs1 = files_after_convert(s, p, present, len, remux_ok, fs);
    match thumb_of(s, p, present, len, remux_ok, sheet_ok) {
        Some(j) => fs1.insert(j),
        None => fs1,
    }
}

/// Decide the conversion step for the file at `p`, whose presence and byte
/// length the caller has just observed.
pub fn convert_plan(s: &Settings, p: &str, present: bool, len: u64) -> (r: ConvertPlan)
    ensures
        r is SkipEmpty <==> guard_skips(present, len),
        r is Remux <==> (!guard_skips(present, len) && conversion_applies(*s, p@)
            && s.use_ffmpeg_convert),
        r is Rename <==> (!guard_skips(present, len) && conversion_applies(*s, p@)
            && !s.use_ffmpeg_convert),
        r is Keep <==> (!guard_skips(present, len) && !conversion_applies(*s, p@)),
        r is Remux ==> r->Remux_raw@ == p@ && r->Remux_target@ == mp4_target_of(p@),
        r is Rename ==> r->Rename_raw@ == p@ && r->Rename_target@ == mp4_target_of(p@),
        r is Keep ==> r->Keep_path@ == p@,
{
    if !present || len == 0 {
        return ConvertPlan::SkipEmpty;
    }
    let raw_here = ends_with_ts(p);
    if s.convert_to_mp4 && raw_here {
        let target = mp4_target(p);
        if s.use_ffmpeg_convert {
            ConvertPlan::Remux { raw: String::from_str(p), target }
        } else {
            ConvertPlan::Rename { raw: String::from_str(p), target }
        }
    } else {
        ConvertPlan::Keep { path: String::from_str(p) }
    }
}

/// Outcome of the conversion step once the remux attempt has finished.
pub struct RemuxOutcome {
    /// The path the rest of the run works with.
    pub final_path: String,
    /// The raw input is deleted exactly when the remux succeeded.
    pub delete_raw: bool,
}

/// Resolve a planned remux against the transcoder's reported success: on
/// success the target replaces the raw file, on failure the raw file is
/// preserved and remains the saved artifact.
pub fn after_remux(raw: &str, target: &str, remux_ok: bool) -> (r: RemuxOutcome)
    ensures
        r.final_path@ == if remux_ok {
            target@
        } else {
            raw@
        },
        r.delete_raw == remux_ok,
{
    if remux_ok {
        RemuxOutcome { final_path: String::from_str(target), delete_raw: true }
    } else {
        RemuxOutcome { final_path: String::from_str(raw), delete_raw: false }
    }
}

/// Fixed layout of the thumbnail grid rendered beside a media file.
pub struct SheetPlan {
    /// The media file sampled.
    pub media: String,
    /// The sibling image written.
    pub output: String,
    /// Grid columns.
    pub grid_x: u32,
    /// Grid rows.
    pub grid_y: u32,
    /// Number of frames sampled.
    pub num_samples: u32,
    /// Render width in pixels.
    pub width: u32,
    /// Overlay each sample's timestamp.
    pub show_timestamp: bool,
}

/// The thumbnail-grid invocation for the media file at `p`, if the step is
/// enabled: a 4-by-6 grid of 24 samples at a fixed render width, written as
/// a sibling image of the media file.
pub fn sheet_plan(s: &Settings, p: &str) -> (r: Option<SheetPlan>)
    ensures
        r is Some <==> s.generate_contact_sheet,
        r is Some ==> {
            let plan = r->0;
            &&& plan.media@ == p@
            &&& plan.output@ == jpg_target_of(p@)
            &&& plan.grid_x == 4
            &&& plan.grid_y == 6
            &&& plan.num_samples == 24
            &&& plan.width == 1500
            &&& plan.show_timestamp
        },
{
    if s.generate_contact_sheet {
        Some(
            SheetPlan {
                media: String::from_str(p),
                output: jpg_target(p),
                grid_x: 4,
                grid_y: 6,
                num_samples: 24,
                width: 1500,
                show_timestamp: true,
            },
        )
    } else {
        None
    }
}

/// A run whose input is missing or empty changes nothing on disk, produces
/// no thumbnail, and reports the input itself as the saved path.
pub proof fn lemma_guard_no_effect(
    s: Settings,
    p: Seq<char>,
    present: bool,
    len: u64,
    remux_ok: bool,
    sheet_ok: bool,
    fs: Set<Seq<char>>,
)
    requires
        !present || len == 0,
    ensures
        files_after_run(s, p, present, len, remux_ok, sheet_ok, fs) == fs,
        thumb_of(s, p, present, len, remux_ok, sheet_ok) is None,
        final_path_of(s, p, present, len, remux_ok) == p,
{
}

/// After a successful remux of a raw input, the raw path is gone from disk
/// and the converted target is present and reported as saved.
pub proof fn lemma_remux_success_swaps(
    s: Settings,
    p: Seq<char>,
    len: u64,
    sheet_ok: bool,
    fs: Set<Seq<char>>,
)
    requires
        len > 0,
        s.convert_to_mp4,
        s.use_ffmpeg_convert,
        is_raw(p),
        fs.contains(p),
    ensures
        !files_after_run(s, p, true, len, true, sheet_ok, fs).contains(p),
        files_after_run(s, p, true, len, true, sheet_ok, fs).contains(mp4_target_of(p)),
        final_path_of(s, p, true, len, true) == mp4_target_of(p),
{
    lemma_mp4_target_differs(p);
    lemma_jpg_of_target_differs(p);
}

/// After a failed remux, the raw input is still on disk and is the path
/// reported as saved.
pub proof fn lemma_remux_failure_keeps_raw(
    s: Settings,
    p: Seq<char>,
    len: u64,
    sheet_ok: bool,
    fs: Set<Seq<char>>,
)
    requires
        len > 0,
        s.convert_to_mp4,
        s.use_ffmpeg_convert,
        is_raw(p),
        fs.contains(p),
    ensures
        files_after_run(s, p, true, len, false, sheet_ok, fs).contains(p),
        final_path_of(s, p, true, len, false) == p,
{
}

/// Running the pipeline on an already-converted path is idempotent: the
/// path is reported as saved unchanged and stays on disk, and a second run
/// leaves the disk exactly as the first left it.
pub proof fn lemma_pipeline_idempotent(
    s: Settings,
    p: Seq<char>,
    len: u64,
    remux_ok: bool,
    sheet_ok: bool,
    fs: Set<Seq<char>>,
)
    requires
        !is_raw(p),
        len > 0,
        fs.contains(p),
    ensures
        final_path_of(s, p, true, len, remux_ok) == p,
        files_after_run(s, p, true, len, remux_ok, sheet_ok, fs).contains(p),
        files_after_run(
            s,
            p,
            true,
            len,
            remux_ok,
            sheet_ok,
            files_after_run(s, p, true, len, remux_ok, sheet_ok, fs),
        ) =~= files_after_run(s, p, true, len, remux_ok, sheet_ok, fs),
{
}

} // verus!
