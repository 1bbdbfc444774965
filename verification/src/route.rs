use crate::live::{LoopAction, LoopActionModel};
use crate::paths::{clip_path, clip_path_of, clips_dir, clips_dir_of, vod_path, vod_path_of};
use vstd::prelude::*;
use vstd::string::*;

verus! {

/// What one run captures or downloads, resolved once at startup.
pub enum Target {
    /// Poll a channel and capture it whenever it goes live.
    Live { user: String },
    /// Download one pre-recorded VOD, optionally from a start offset.
    Vod { id: String, start: Option<String> },
    /// Download one clip.
    Clip { id: String },
}

/// Mathematical model of a target.
pub enum TargetModel {
    Live { user: Seq<char> },
    Vod { id: Seq<char>, start: Option<Seq<char>> },
    Clip { id: Seq<char> },
}

/// The view of an optional string.
pub open spec fn opt_str_view(o: Option<String>) -> Option<Seq<char>> {
    match o {
        Some(s) => Some(s@),
        None => None,
    }
}

impl View for Target {
    type V = TargetModel;

    open spec fn view(&self) -> TargetModel {
        match self {
            Target::Live { user } => TargetModel::Live { user: user@ },
            Target::Vod { id, start } => TargetModel::Vod {
                id: id@,
                start: opt_str_view(*start),
            },
            Target::Clip { id } => TargetModel::Clip { id: id@ },
        }
    }
}

/// Why a source URL was rejected at startup.
#[derive(Clone, Copy, Debug, PartialEq, Eq, Structural)]
pub enum RouteError {
    /// The string is not a URL of a recognized platform shape.
    InvalidUrl,
    /// A VOD URL without a video id after its `videos` segment.
    BadVodReference,
    /// A clip URL without any path to take an id from.
    BadClipReference,
}

/// The host, path segments and decoded query pairs of a URL string.
pub struct UrlParts {
    pub host: String,
    pub segments: Vec<String>,
    pub query: Vec<(String, String)>,
}

/// The value of the first query pair whose key is `t`: the start offset a
/// VOD URL may carry.
pub open spec fn find_t(q: Seq<(Seq<char>, Seq<char>)>) -> Option<Seq<char>>
    decreases q.len(),
{
    if q.len() == 0 {
        None
    } else if q[0].0 == "t"@ {
        Some(q[0].1)
    } else {
        find_t(q.drop_first())
    }
}

/// The routing rule over the parts of a source URL: a `videos` path on the
/// platform host names a VOD (its id the following segment, its start offset
/// the `t` query if present); a path containing `clip` on the platform host,
/// or any path on the clips host, names a clip (its id the last segment);
/// any other path on the platform host is a channel page and names a live
/// target (its channel the first segment); other hosts are rejected.
pub open spec fn spec_classify(
    host: Seq<char>,
    segs: Seq<Seq<char>>,
    tq: Option<Seq<char>>,
) -> Result<TargetModel, RouteError> {
    if host == "www.twitch.tv"@ || host == "twitch.tv"@ {
        if segs.len() > 0 && segs[0] == "videos"@ {
            if segs.len() > 1 {
                Ok(TargetModel::Vod { id: segs[1], start: tq })
            } else {
                Err(RouteError::BadVodReference)
            }
        } else if segs.len() > 0 && segs.contains("clip"@) {
            Ok(TargetModel::Clip { id: segs.last() })
        } else if segs.len() > 0 {
            Ok(TargetModel::Live { user: segs[0] })
        } else {
            Err(RouteError::InvalidUrl)
        }
    } else if host == "clips.twitch.tv"@ {
        if segs.len() > 0 {
            Ok(TargetModel::Clip { id: segs.last() })
        } else {
            Err(RouteError::BadClipReference)
        }
    } else {
        Err(RouteError::InvalidUrl)
    }
}

/// The model of a routing result.
pub open spec fn target_model(r: Result<Target, RouteError>) -> Result<TargetModel, RouteError> {
    match r {
        Ok(t) => Ok(t@),
        Err(e) => Err(e),
    }
}

fn vec_contains(v: &Vec<String>, w: &String) -> (r: bool)
    ensures
        r == v.deep_view().contains(w@),
{
    let mut i: usize = 0;
    while i < v.len()
        invariant
            i <= v.len(),
            forall|j: int| 0 <= j < i ==> v.deep_view()[j] != w@,
        decreases v.len() - i,
    {
        if v[i] == *w {
            proof {
                assert(v.deep_view()[i as int] == w@);
            }
            return true;
        }
        i += 1;
    }
    proof {
        if v.deep_view().contains(w@) {
            let j = choose|j: int|
                0 <= j < v.deep_view().len() && v.deep_view()[j] == w@;
            assert(false);
        }
    }
    false
}

fn t_query(q: &Vec<(String, String)>) -> (r: Option<String>)
    ensures
        opt_str_view(r) == find_t(q.deep_view()),
{
    let t_key = String::from_str("t");
    let mut i: usize = 0;
    proof {
        assert(q.deep_view().skip(0) =~= q.deep_view());
    }
    while i < q.len()
        invariant
            i <= q.len(),
            t_key@ == "t"@,
            find_t(q.deep_view()) == find_t(q.deep_view().skip(i as int)),
        decreases q.len() - i,
    {
        proof {
            assert(q.deep_view().skip(i as int)[0] == q.deep_view()[i as int]);
        }
        if q[i].0 == t_key {
            return Some(q[i].1.clone());
        }
        proof {
            assert(q.deep_view().skip(i as int).drop_first() =~= q.deep_view().skip(
                i as int + 1,
            ));
        }
        i += 1;
    }
    proof {
        assert(q.deep_view().skip(q.len() as int) =~= Seq::empty());
    }
    None
}

/// Classify already-split URL parts into the target they name.
pub fn classify(parts: &UrlParts) -> (r: Result<Target, RouteError>)
    ensures
        target_model(r) == spec_classify(
            parts.host@,
            parts.segments.deep_view(),
            find_t(parts.query.deep_view()),
        ),
{
    let www = String::from_str("www.twitch.tv");
    let bare = String::from_str("twitch.tv");
    let clips_host = String::from_str("clips.twitch.tv");
    let videos = String::from_str("videos");
    let clip_word = String::from_str("clip");
    if parts.host == www || parts.host == bare {
        if parts.segments.len() > 0 && parts.segments[0] == videos {
            if parts.segments.len() > 1 {
                let id = parts.segments[1].clone();
                let start = t_query(&parts.query);
                Ok(Target::Vod { id, start })
            } else {
                Err(RouteError::BadVodReference)
            }
        } else if parts.segments.len() > 0 && vec_contains(&parts.segments, &clip_word) {
            let id = parts.segments[parts.segments.len() - 1].clone();
            Ok(Target::Clip { id })
        } else if parts.segments.len() > 0 {
            let user = parts.segments[0].clone();
            Ok(Target::Live { user })
        } else {
            Err(RouteError::InvalidUrl)
        }
    } else if parts.host == clips_host {
        if parts.segments.len() > 0 {
            let id = parts.segments[parts.segments.len() - 1].clone();
            Ok(Target::Clip { id })
        } else {
            Err(RouteError::BadClipReference)
        }
    } else {
        Err(RouteError::InvalidUrl)
    }
}

/// What the URL parser yields on a given string, if anything: host, path
/// segments, decoded query pairs. The parser's output is a function of the
/// string alone; what it is on a given string is not stated here.
pub uninterp spec fn url_split_of(s: Seq<char>) -> Option<
    (Seq<char>, Seq<Seq<char>>, Seq<(Seq<char>, Seq<char>)>),
>;

/// Relies on `url::Url::parse` and the accessors `host_str`, `path_segments`
/// and `query_pairs`: the decomposition of a URL string into its host, path
/// segments and decoded query pairs, a function of the string alone. A parse
/// error, a hostless URL and a non-hierarchical path all yield no
/// decomposition.
#[verifier::external_body]
fn split_url(s: &str) -> (r: Option<UrlParts>)
    ensures
        match r {
            Some(p) => url_split_of(s@) == Some(
                (p.host@, p.segments.deep_view(), p.query.deep_view()),
            ),
            None => url_split_of(s@) is None,
        },
{
    let u = url::Url::parse(s).ok()?;
    let host = u.host_str()?.to_string();
    let segments: Vec<String> = u.path_segments()?.map(|x| x.to_string()).collect();
    let query: Vec<(String, String)> =
        u.query_pairs().map(|(k, v)| (k.into_owned(), v.into_owned())).collect();
    Some(UrlParts { host, segments, query })
}

/// The routing of a whole source URL: what `route` returns on it.
pub open spec fn route_model(u: Seq<char>) -> Result<TargetModel, RouteError> {
    match url_split_of(u) {
        None => Err(RouteError::InvalidUrl),
        Some(parts) => spec_classify(parts.0, parts.1, find_t(parts.2)),
    }
}

/// Resolve an explicit source URL into the target it names, or the error
/// that rejects the run before its core loop starts.
pub fn route(u: &str) -> (r: Result<Target, RouteError>)
    ensures
        target_model(r) == route_model(u@),
{
    match split_url(u) {
        None => Err(RouteError::InvalidUrl),
        Some(parts) => classify(&parts),
    }
}

/// The one-shot fetch of a VOD or clip, resolved before anything runs: the
/// destination path, the start offset to forward, and the directory that
/// must exist first.
pub struct FetchPlan {
    pub output_path: String,
    pub start: Option<String>,
    pub ensure_dir: Option<String>,
}

/// The destination path of a one-shot fetch: where a VOD or clip target is
/// downloaded to under the output root.
pub open spec fn fetch_output_of(t: TargetModel, out: Seq<char>) -> Seq<char>
    recommends
        !(t is Live),
{
    match t {
        TargetModel::Vod { id, .. } => vod_path_of(out, id),
        TargetModel::Clip { id } => clip_path_of(out, id),
        TargetModel::Live { .. } => out,
    }
}

/// Resolve a VOD or clip target against the output root. A live target is
/// not fetched one-shot, so it yields no plan.
pub fn fetch_plan(t: &Target, out: &str) -> (r: Option<FetchPlan>)
    ensures
        r is Some <==> !(t is Live),
        r is Some ==> r->0.output_path@ == fetch_output_of(t@, out@),
        t is Vod ==> {
            let p = r->0;
            &&& p.output_path@ == vod_path_of(out@, t->Vod_id@)
            &&& opt_str_view(p.start) == opt_str_view(t->Vod_start)
            &&& p.ensure_dir is None
        },
        t is Clip ==> {
            let p = r->0;
            &&& p.output_path@ == clip_path_of(out@, t->Clip_id@)
            &&& p.start is None
            &&& opt_str_view(p.ensure_dir) == Some(clips_dir_of(out@))
        },
{
    match t {
        Target::Live { .. } => None,
        Target::Vod { id, start } => {
            let s = match start {
                Some(v) => Some(v.clone()),
                None => None,
            };
            Some(
                FetchPlan {
                    output_path: vod_path(out, id.as_str()),
                    start: s,
                    ensure_dir: None,
                },
            )
        },
        Target::Clip { id } => Some(
            FetchPlan {
                output_path: clip_path(out, id.as_str()),
                start: None,
                ensure_dir: Some(clips_dir(out)),
            },
        ),
    }
}

/// The ordered actions that launch a one-shot fetch: the artifact slot is
/// set to the destination path strictly before the download is launched,
/// and both name the same path.
pub open spec fn fetch_launch_of(p: Seq<char>) -> Seq<LoopActionModel> {
    seq![
        LoopActionModel::SetArtifact { path: p },
        LoopActionModel::Capture { path: p },
    ]
}

/// The pipeline input once the download has ended: the destination path
/// exactly when the download succeeded, nothing otherwise.
pub open spec fn fetch_process_of(p: Seq<char>, ok: bool) -> Option<Seq<char>> {
    if ok {
        Some(p)
    } else {
        None
    }
}

/// The launch sequence of a one-shot fetch, in order.
pub fn fetch_launch_actions(plan: &FetchPlan) -> (r: Vec<LoopAction>)
    ensures
        r@.map_values(|a: LoopAction| a@) == fetch_launch_of(plan.output_path@),
{
    let mut acts: Vec<LoopAction> = Vec::new();
    acts.push(LoopAction::SetArtifact { path: plan.output_path.clone() });
    acts.push(LoopAction::Capture { path: plan.output_path.clone() });
    proof {
        assert(acts@.map_values(|a: LoopAction| a@) =~= fetch_launch_of(plan.output_path@));
    }
    acts
}

/// What the one-shot run does after its download ends.
pub fn fetch_after_download(plan: &FetchPlan, ok: bool) -> (r: Option<String>)
    ensures
        opt_str_view(r) == fetch_process_of(plan.output_path@, ok),
{
    if ok {
        Some(plan.output_path.clone())
    } else {
        None
    }
}

/// Launch-to-pipeline coherence of a one-shot fetch: for a VOD or clip
/// target the artifact slot is set — first among the launch actions — to
/// the very destination path the download writes to, and when that download
/// succeeds, the path handed to the pipeline is that same path; a failed
/// download hands the pipeline nothing.
pub proof fn lemma_fetch_coherence(t: TargetModel, out: Seq<char>, ok: bool)
    requires
        !(t is Live),
    ensures
        ({
            let p = fetch_output_of(t, out);
            &&& fetch_launch_of(p)[0] == (LoopActionModel::SetArtifact { path: p })
            &&& fetch_launch_of(p)[1] == (LoopActionModel::Capture { path: p })
            &&& fetch_process_of(p, ok) == if ok {
                Some(p)
            } else {
                None::<Seq<char>>
            }
        }),
{
}

} // verus!
