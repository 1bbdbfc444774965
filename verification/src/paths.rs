use vstd::prelude::*;
use vstd::string::*;

verus! {

/// `s` ends with the suffix `suf`.
pub open spec fn ends_with(s: Seq<char>, suf: Seq<char>) -> bool {
    suf.len() <= s.len() && s.subrange(s.len() - suf.len(), s.len() as int) == suf
}

/// A path names a raw (unconverted) capture artifact: it carries the raw
/// container extension that the capture tool produces.
pub open spec fn is_raw(p: Seq<char>) -> bool {
    ends_with(p, ".ts"@)
}

/// The path without its raw extension.
pub open spec fn raw_stem(p: Seq<char>) -> Seq<char> {
    p.take(p.len() - 3)
}

/// The path the conversion step writes to: the raw extension replaced by the
/// standard container's. A path without the raw extension is already in its
/// final form, so the conversion step has nothing to act on and the target is
/// the path itself.
pub open spec fn mp4_target_of(p: Seq<char>) -> Seq<char> {
    if is_raw(p) {
        raw_stem(p) + ".mp4"@
    } else {
        p
    }
}

/// The sibling thumbnail-grid path of a media file: the container extension
/// replaced by the image extension, or the image extension appended when the
/// path carries no known container extension.
pub open spec fn jpg_target_of(p: Seq<char>) -> Seq<char> {
    if ends_with(p, ".mp4"@) {
        p.take(p.len() - 4) + ".jpg"@
    } else if is_raw(p) {
        raw_stem(p) + ".jpg"@
    } else {
        p + ".jpg"@
    }
}

/// Whether the path ends in the raw container extension.
pub fn ends_with_ts(p: &str) -> (r: bool)
    ensures
        r == is_raw(p@),
{
    proof {
        reveal_strlit(".ts");
    }
    let n = p.unicode_len();
    if n < 3 {
        return false;
    }
    let c0 = p.get_char(n - 3);
    let c1 = p.get_char(n - 2);
    let c2 = p.get_char(n - 1);
    let r = c0 == '.' && c1 == 't' && c2 == 's';
    proof {
        let l = p@.len() as int;
        let tail = p@.subrange(l - 3, l);
        assert(tail[0] == p@[l - 3] && tail[1] == p@[l - 2] && tail[2] == p@[l - 1]);
        if r {
            assert(tail =~= ".ts"@);
        }
        if is_raw(p@) {
            assert(tail == ".ts"@);
            assert(c0 == '.' && c1 == 't' && c2 == 's');
        }
    }
    r
}

/// Whether the path ends in the standard container extension.
pub fn ends_with_mp4(p: &str) -> (r: bool)
    ensures
        r == ends_with(p@, ".mp4"@),
{
    proof {
        reveal_strlit(".mp4");
    }
    let n = p.unicode_len();
    if n < 4 {
        return false;
    }
    let c0 = p.get_char(n - 4);
    let c1 = p.get_char(n - 3);
    let c2 = p.get_char(n - 2);
    let c3 = p.get_char(n - 1);
    let r = c0 == '.' && c1 == 'm' && c2 == 'p' && c3 == '4';
    proof {
        let l = p@.len() as int;
        let tail = p@.subrange(l - 4, l);
        assert(tail[0] == p@[l - 4] && tail[1] == p@[l - 3] && tail[2] == p@[l - 2] && tail[3]
            == p@[l - 1]);
        if r {
            assert(tail =~= ".mp4"@);
        }
        if ends_with(p@, ".mp4"@) {
            assert(tail == ".mp4"@);
            assert(c0 == '.' && c1 == 'm' && c2 == 'p' && c3 == '4');
        }
    }
    r
}

/// The conversion target for `p`: the raw extension replaced by the standard
/// one, or `p` itself when it carries no raw extension.
pub fn mp4_target(p: &str) -> (r: String)
    ensures
        r@ == mp4_target_of(p@),
{
    proof {
        reveal_strlit(".ts");
    }
    if ends_with_ts(p) {
        let n = p.unicode_len();
        let stem = p.substring_char(0, n - 3);
        assert(stem@ =~= raw_stem(p@));
        String::from_str(stem).concat(".mp4")
    } else {
        String::from_str(p)
    }
}

/// The sibling thumbnail path for the media file at `p`.
pub fn jpg_target(p: &str) -> (r: String)
    ensures
        r@ == jpg_target_of(p@),
{
    proof {
        reveal_strlit(".ts");
        reveal_strlit(".mp4");
    }
    let n = p.unicode_len();
    if ends_with_mp4(p) {
        let stem = p.substring_char(0, n - 4);
        assert(stem@ =~= p@.take(p@.len() - 4));
        String::from_str(stem).concat(".jpg")
    } else if ends_with_ts(p) {
        let stem = p.substring_char(0, n - 3);
        assert(stem@ =~= raw_stem(p@));
        String::from_str(stem).concat(".jpg")
    } else {
        String::from_str(p).concat(".jpg")
    }
}

/// Directory that holds the live captures of one channel.
pub open spec fn user_vod_dir_of(out: Seq<char>, user: Seq<char>) -> Seq<char> {
    out + "/"@ + user + "/vods"@
}

/// Output path of one live capture, from the channel name and a timestamp.
pub open spec fn live_path_of(out: Seq<char>, user: Seq<char>, stamp: Seq<char>) -> Seq<char> {
    user_vod_dir_of(out, user) + "/"@ + user + "-"@ + stamp + ".ts"@
}

/// Output path of a VOD download.
pub open spec fn vod_path_of(out: Seq<char>, id: Seq<char>) -> Seq<char> {
    out + "/vod_"@ + id + ".ts"@
}

/// Directory that holds downloaded clips.
pub open spec fn clips_dir_of(out: Seq<char>) -> Seq<char> {
    out + "/clips"@
}

/// Output path of a clip download.
pub open spec fn clip_path_of(out: Seq<char>, id: Seq<char>) -> Seq<char> {
    clips_dir_of(out) + "/"@ + id + ".ts"@
}

/// Page of a channel, handed to the capture tool as the source reference.
pub open spec fn channel_url_of(user: Seq<char>) -> Seq<char> {
    "https://www.twitch.tv/"@ + user
}

pub fn user_vod_dir(out: &str, user: &str) -> (r: String)
    ensures
        r@ == user_vod_dir_of(out@, user@),
{
    String::from_str(out).concat("/").concat(user).concat("/vods")
}

pub fn live_path(out: &str, user: &str, stamp: &str) -> (r: String)
    ensures
        r@ == live_path_of(out@, user@, stamp@),
{
    let d = user_vod_dir(out, user);
    d.concat("/").concat(user).concat("-").concat(stamp).concat(".ts")
}

pub fn vod_path(out: &str, id: &str) -> (r: String)
    ensures
        r@ == vod_path_of(out@, id@),
{
    String::from_str(out).concat("/vod_").concat(id).concat(".ts")
}

pub fn clips_dir(out: &str) -> (r: String)
    ensures
        r@ == clips_dir_of(out@),
{
    String::from_str(out).concat("/clips")
}

pub fn clip_path(out: &str, id: &str) -> (r: String)
    ensures
        r@ == clip_path_of(out@, id@),
{
    let d = clips_dir(out);
    d.concat("/").concat(id).concat(".ts")
}

pub fn channel_url(user: &str) -> (r: String)
    ensures
        r@ == channel_url_of(user@),
{
    String::from_str("https://www.twitch.tv/").concat(user)
}

/// A raw path and its conversion target never coincide: replacing the
/// three-character raw extension by the four-character standard one changes
/// the length.
pub proof fn lemma_mp4_target_differs(p: Seq<char>)
    requires
        is_raw(p),
    ensures
        mp4_target_of(p) != p,
        mp4_target_of(p).len() == p.len() + 1,
        ends_with(mp4_target_of(p), ".mp4"@),
{
    reveal_strlit(".ts");
    reveal_strlit(".mp4");
    let m = mp4_target_of(p);
    assert(m.len() == p.len() + 1);
    assert(m.subrange(m.len() - 4, m.len() as int) =~= ".mp4"@);
}

/// The thumbnail path of a converted file keeps its length, so it never
/// coincides with the raw path the conversion consumed.
pub proof fn lemma_jpg_of_target_differs(p: Seq<char>)
    requires
        is_raw(p),
    ensures
        jpg_target_of(mp4_target_of(p)) != p,
        jpg_target_of(mp4_target_of(p)).len() == p.len() + 1,
    {
    reveal_strlit(".ts");
    reveal_strlit(".mp4");
    reveal_strlit(".jpg");
    lemma_mp4_target_differs(p);
    let m = mp4_target_of(p);
    let j = jpg_target_of(m);
    assert(j.len() == m.len());
}

} // verus!
