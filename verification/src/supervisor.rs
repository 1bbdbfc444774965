use crate::paths::{channel_url, channel_url_of};
use vstd::prelude::*;
use vstd::string::*;

verus! {

/// Argument list of the availability probe: the capture tool is asked only
/// to resolve a stream URL for the channel page, writing no output file.
pub fn probe_args(user: &str) -> (r: Vec<String>)
    ensures
        r@.len() == 3,
        r@[0]@ == "--stream-url"@,
        r@[1]@ == channel_url_of(user@),
        r@[2]@ == "best"@,
{
    let mut args: Vec<String> = Vec::new();
    args.push(String::from_str("--stream-url"));
    args.push(channel_url(user));
    args.push(String::from_str("best"));
    args
}

/// Argument list of a full capture or download invocation: ads disabled, the
/// source reference, quality `best`, the destination path, and, when given,
/// a start-time offset forwarded as handed in.
pub fn capture_args(source: &str, out_path: &str, start: Option<&str>) -> (r: Vec<String>)
    ensures
        r@.len() == if start is Some {
            7int
        } else {
            5int
        },
        r@[0]@ == "--twitch-disable-ads"@,
        r@[1]@ == source@,
        r@[2]@ == "best"@,
        r@[3]@ == "-o"@,
        r@[4]@ == out_path@,
        start matches Some(t) ==> r@[5]@ == "--twitch-start-time"@ && r@[6]@ == t@,
{
    let mut args: Vec<String> = Vec::new();
    args.push(String::from_str("--twitch-disable-ads"));
    args.push(String::from_str(source));
    args.push(String::from_str("best"));
    args.push(String::from_str("-o"));
    args.push(String::from_str(out_path));
    match start {
        Some(t) => {
            args.push(String::from_str("--twitch-start-time"));
            args.push(String::from_str(t));
        },
        None => {},
    }
    args
}

/// Argument list of the transcoder invocation: a stream-copy remux (no
/// re-encode) from `input` to `output`, overwriting an existing output.
pub fn transcoder_args(input: &str, output: &str) -> (r: Vec<String>)
    ensures
        r@.len() == 6,
        r@[0]@ == "-i"@,
        r@[1]@ == input@,
        r@[2]@ == "-c"@,
        r@[3]@ == "copy"@,
        r@[4]@ == "-y"@,
        r@[5]@ == output@,
{
    let mut args: Vec<String> = Vec::new();
    args.push(String::from_str("-i"));
    args.push(String::from_str(input));
    args.push(String::from_str("-c"));
    args.push(String::from_str("copy"));
    args.push(String::from_str("-y"));
    args.push(String::from_str(output));
    args
}

} // verus!
