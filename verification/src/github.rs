//! The model of the source-control provider's workflow-run notifications:
//! the event payload as plain values, the signature header and its
//! hex-encoded digest, the deployability rule, and the selection of the
//! artifact to download.

use vstd::prelude::*;

use crate::text::str_eq;

verus! {

/// What a workflow-run notification says happened to the run.
#[derive(PartialEq, Eq, Structural, Clone, Copy, Debug)]
pub enum WorkflowRunAction {
    Requested,
    Completed,
    InProgress,
}

/// How a completed workflow run ended.
#[derive(PartialEq, Eq, Structural, Clone, Copy, Debug)]
pub enum WorkflowRunConclusion {
    Success,
    Failure,
    Neutral,
    Cancelled,
    TimedOut,
    ActionRequired,
    Stale,
    Skipped,
}

/// A single workflow run as reported by the provider.  The workflow's path
/// is held as the slash-separated text the provider sends.
pub struct WorkflowRun {
    pub head_branch: String,
    pub head_sha: String,
    pub status: WorkflowRunAction,
    pub conclusion: Option<WorkflowRunConclusion>,
    pub artifacts_url: String,
    pub path: String,
}

/// A workflow-run notification: the action and the run it concerns.
pub struct WorkflowRunEvent {
    pub action: WorkflowRunAction,
    pub workflow_run: WorkflowRun,
}

/// The digest carried by the signature header of a notification.
pub struct Signature {
    pub digest: Vec<u8>,
}

/// Whether a byte is an ASCII hexadecimal digit (either case).
pub open spec fn spec_is_hex_digit(b: u8) -> bool {
    (48 <= b <= 57) || (97 <= b <= 102) || (65 <= b <= 70)
}

/// The value of an ASCII hexadecimal digit.
pub open spec fn spec_hex_value(b: u8) -> u8
    recommends
        spec_is_hex_digit(b),
{
    if 48 <= b <= 57 {
        (b - 48) as u8
    } else if 97 <= b <= 102 {
        (b - 87) as u8
    } else {
        (b - 55) as u8
    }
}

/// The byte written as the two hexadecimal digits `hi`, `lo`.
pub open spec fn spec_hex_pair(hi: u8, lo: u8) -> u8
    recommends
        spec_is_hex_digit(hi),
        spec_is_hex_digit(lo),
{
    (spec_hex_value(hi) * 16 + spec_hex_value(lo)) as u8
}

/// Whether a byte string is well-formed hexadecimal text: an even number of
/// bytes, every one a hexadecimal digit.
pub open spec fn spec_valid_hex(s: Seq<u8>) -> bool {
    s.len() % 2 == 0 && (forall|i: int| 0 <= i < s.len() ==> spec_is_hex_digit(#[trigger] s[i]))
}

/// The bytes denoted by hexadecimal text, two digits each.
pub open spec fn spec_hex_decode(s: Seq<u8>) -> Seq<u8>
    recommends
        spec_valid_hex(s),
    decreases s.len(),
{
    if s.len() < 2 {
        Seq::empty()
    } else {
        spec_hex_decode(s.drop_last().drop_last()).push(
            spec_hex_pair(s[s.len() - 2], s[s.len() - 1]),
        )
    }
}

fn hex_digit_value(b: u8) -> (r: Option<u8>)
    ensures
        r is Some <==> spec_is_hex_digit(b),
        r matches Some(v) ==> v == spec_hex_value(b) && v < 16,
{
    if 48 <= b && b <= 57 {
        Some(b - 48)
    } else if 97 <= b && b <= 102 {
        Some(b - 87)
    } else if 65 <= b && b <= 70 {
        Some(b - 55)
    } else {
        None
    }
}

impl Signature {
    /// Reads the signature header's raw value: a fixed seven-byte algorithm
    /// prefix is stripped, and the remainder is taken as the hex-encoded
    /// digest.  Any malformed remainder, or a value too short to carry the
    /// prefix, is a decode failure.
    pub fn decode(header_value: &[u8]) -> (r: Option<Signature>)
        ensures
            r is Some <==> header_value@.len() >= 7 && spec_valid_hex(header_value@.skip(7)),
            r matches Some(s) ==> s.digest@ == spec_hex_decode(header_value@.skip(7)),
    {
        let n = header_value.len();
        if n < 7 {
            return None;
        }
        if (n - 7) % 2 != 0 {
            assert(header_value@.skip(7).len() % 2 != 0);
            return None;
        }
        let mut digest: Vec<u8> = Vec::new();
        let mut i: usize = 7;
        while i < n
            invariant
                7 <= i <= n,
                n == header_value@.len(),
                (i - 7) % 2 == 0,
                (n - 7) % 2 == 0,
                forall|k: int| 7 <= k < i ==> spec_is_hex_digit(#[trigger] header_value@[k]),
                digest@ == spec_hex_decode(header_value@.subrange(7, i as int)),
            decreases n - i,
        {
            let hi = match hex_digit_value(header_value[i]) {
                Some(v) => v,
                None => {
                    assert(!spec_is_hex_digit(header_value@.skip(7)[i - 7]));
                    return None;
                },
            };
            let lo = match hex_digit_value(header_value[i + 1]) {
                Some(v) => v,
                None => {
                    assert(!spec_is_hex_digit(header_value@.skip(7)[i + 1 - 7]));
                    return None;
                },
            };
            digest.push(hi * 16 + lo);
            proof {
                let sub = header_value@.subrange(7, i as int + 2);
                assert(sub.drop_last().drop_last() =~= header_value@.subrange(7, i as int));
                assert(sub[sub.len() - 2] == header_value@[i as int]);
                assert(sub[sub.len() - 1] == header_value@[i as int + 1]);
                assert(digest@ =~= spec_hex_decode(header_value@.subrange(7, i as int + 2)));
            }
            i += 2;
        }
        proof {
            assert(header_value@.subrange(7, n as int) =~= header_value@.skip(7));
            assert(spec_valid_hex(header_value@.skip(7)));
        }
        Some(Signature { digest })
    }
}

/// The file named by a slash-separated path: the text after the final slash,
/// unless that text is empty or names the parent directory.
pub open spec fn spec_file_name(s: Seq<char>) -> Option<Seq<char>> {
    let tail = crate::text::spec_tail_after_slash(s);
    if tail.len() == 0 || tail == ".."@ {
        None
    } else {
        Some(tail)
    }
}

/// Whether the file a path names is exactly `name`.
pub fn workflow_file_matches(path: &str, name: &str) -> (r: bool)
    ensures
        r == (spec_file_name(path@) == Some(name@)),
{
    let tail = crate::text::tail_after_last_slash(path);
    if tail.unicode_len() == 0 {
        return false;
    }
    if str_eq(tail, "..") {
        return false;
    }
    str_eq(tail, name)
}

/// Whether a run is to be deployed: it ran on the tracked branch, from the
/// tracked workflow file, and concluded successfully.
pub open spec fn spec_deployable(run: WorkflowRun) -> bool {
    &&& run.head_branch@ == "main"@
    &&& spec_file_name(run.path@) == Some("rust.yml"@)
    &&& run.conclusion == Some(WorkflowRunConclusion::Success)
}

/// The artifact-list address to enqueue for a run, if the run is deployable.
pub fn deployment_request(run: &WorkflowRun) -> (r: Option<String>)
    ensures
        r is Some <==> spec_deployable(*run),
        r matches Some(u) ==> u@ == run.artifacts_url@,
{
    if !str_eq(run.head_branch.as_str(), "main") {
        return None;
    }
    if !workflow_file_matches(run.path.as_str(), "rust.yml") {
        return None;
    }
    match &run.conclusion {
        Some(WorkflowRunConclusion::Success) => Some(run.artifacts_url.clone()),
        _ => None,
    }
}

/// Picks the artifact to download from the provider's artifact list: the
/// first entry; an empty list yields nothing.
pub fn first_artifact(urls: &Vec<String>) -> (r: Option<String>)
    ensures
        r is Some <==> urls@.len() > 0,
        r matches Some(u) ==> u@ == urls@[0]@,
{
    if urls.len() == 0 {
        None
    } else {
        Some(urls[0].clone())
    }
}

/// The value sent in the authorization header of an artifact request.
pub fn bearer_header_value(token: &str) -> (r: String)
    ensures
        r@ == "Bearer "@ + token@,
{
    let mut s = "Bearer ".to_owned();
    s.append(token);
    s
}

} // verus!
