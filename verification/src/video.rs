//! Reading a stream-analysis report: the scan that pulls the duration text
//! and the presence of an audio stream out of the analyzer's JSON output.
//! Turning the duration text into a number is the caller's business.

use vstd::prelude::*;

use crate::text::{contains_str, contains_sub, find_sub, match_at};

verus! {

/// The position of the first occurrence of `pat` in `s`, if any.
pub open spec fn find_first(s: Seq<char>, pat: Seq<char>) -> Option<int>
    decreases s.len(),
{
    if s.len() < pat.len() {
        None
    } else if s.subrange(0, pat.len() as int) == pat {
        Some(0)
    } else if s.len() == 0 {
        None
    } else {
        match find_first(s.drop_first(), pat) {
            None => None,
            Some(i) => Some(i + 1),
        }
    }
}

/// A match one step into `s` is a match of `s` with the first character
/// dropped, shifted by one.
proof fn lemma_match_shift(s: Seq<char>, pat: Seq<char>, j: int)
    requires
        0 <= j,
        j + pat.len() <= s.len() - 1,
    ensures
        match_at(s.drop_first(), pat, j) == match_at(s, pat, j + 1),
{
    assert(s.drop_first().subrange(j, j + pat.len() as int) =~= s.subrange(
        j + 1,
        j + 1 + pat.len() as int,
    ));
}

/// What `find_first` answers: the position it names is a match, none before
/// it is, and a `None` means `pat` does not occur at all.
pub proof fn lemma_find_first(s: Seq<char>, pat: Seq<char>)
    ensures
        match find_first(s, pat) {
            Some(i) => match_at(s, pat, i) && forall|j: int| 0 <= j < i ==> !match_at(s, pat, j),
            None => forall|j: int| !match_at(s, pat, j),
        },
    decreases s.len(),
{
    if s.len() < pat.len() {
    } else if s.subrange(0, pat.len() as int) == pat {
        assert(match_at(s, pat, 0));
    } else if s.len() == 0 {
        assert(s.subrange(0, pat.len() as int) =~= pat);
    } else {
        lemma_find_first(s.drop_first(), pat);
        assert(!match_at(s, pat, 0));
        match find_first(s.drop_first(), pat) {
            None => {
                assert forall|j: int| !match_at(s, pat, j) by {
                    if 1 <= j && j + pat.len() <= s.len() {
                        lemma_match_shift(s, pat, j - 1);
                        assert(!match_at(s.drop_first(), pat, j - 1));
                    }
                }
            },
            Some(i) => {
                lemma_match_shift(s, pat, i);
                assert(match_at(s, pat, i + 1));
                assert forall|j: int| 0 <= j < i + 1 implies !match_at(s, pat, j) by {
                    if 1 <= j && j + pat.len() <= s.len() {
                        lemma_match_shift(s, pat, j - 1);
                        assert(!match_at(s.drop_first(), pat, j - 1));
                    }
                }
            },
        }
    }
}

/// Removes every leading `"` of a character sequence.
pub open spec fn trim_left_quotes(s: Seq<char>) -> Seq<char>
    decreases s.len(),
{
    if s.len() > 0 && s[0] == '"' {
        trim_left_quotes(s.drop_first())
    } else {
        s
    }
}

/// Removes every trailing `"` of a character sequence.
pub open spec fn trim_right_quotes(s: Seq<char>) -> Seq<char>
    decreases s.len(),
{
    if s.len() > 0 && s[s.len() - 1] == '"' {
        trim_right_quotes(s.drop_last())
    } else {
        s
    }
}

/// Removes every leading and trailing `"` of a character sequence.
pub open spec fn trim_quotes(s: Seq<char>) -> Seq<char> {
    trim_right_quotes(trim_left_quotes(s))
}

/// Removes every leading and trailing `"` of a string.
pub fn trim_quote_ends(s: &str) -> (r: String)
    ensures
        r@ == trim_quotes(s@),
{
    let n: usize = s.unicode_len();
    let mut a: usize = 0;
    assert(s@.subrange(0, n as int) =~= s@);
    while a < n && s.get_char(a) == '"'
        invariant
            a <= n,
            n == s@.len(),
            trim_left_quotes(s@) == trim_left_quotes(s@.subrange(a as int, n as int)),
        decreases n - a,
    {
        assert(s@.subrange(a as int, n as int).drop_first() =~= s@.subrange(a + 1, n as int));
        a = a + 1;
    }
    let ghost t = s@.subrange(a as int, n as int);
    assert(trim_left_quotes(s@) == t);
    let mut b: usize = n;
    while b > a && s.get_char(b - 1) == '"'
        invariant
            a <= b <= n,
            n == s@.len(),
            t == s@.subrange(a as int, n as int),
            trim_right_quotes(t) == trim_right_quotes(s@.subrange(a as int, b as int)),
        decreases b,
    {
        assert(s@.subrange(a as int, b as int).drop_last() =~= s@.subrange(a as int, b - 1));
        b = b - 1;
    }
    assert(trim_right_quotes(t) == s@.subrange(a as int, b as int));
    s.substring_char(a, b).to_owned()
}

/// The key whose value is the container's duration.
pub open spec fn duration_key() -> Seq<char> {
    "\"duration\":"@
}

/// The marker whose presence means the container has an audio stream.
pub open spec fn audio_marker() -> Seq<char> {
    "\"codec_type\":\"audio\""@
}

/// The duration text of an analysis report: what stands between the first
/// duration key and the next comma, its quotes trimmed; `None` when either
/// is missing.
pub open spec fn duration_text_spec(json: Seq<char>) -> Option<Seq<char>> {
    match find_first(json, duration_key()) {
        None => None,
        Some(i) => {
            let rest = json.subrange(i + duration_key().len(), json.len() as int);
            match find_first(rest, ","@) {
                None => None,
                Some(k) => Some(trim_quotes(rest.subrange(0, k))),
            }
        },
    }
}

/// What a scan reports of an analysis: the duration text, when present, and
/// whether an audio stream is declared.
pub struct VideoSummary {
    /// What stands under the duration key, quotes trimmed; a number in a
    /// well-formed report.
    pub duration_text: Option<String>,
    /// Whether the report declares an audio stream.
    pub has_audio: bool,
}

/// The first occurrence that exec search names is the one `find_first` names.
proof fn lemma_first_occurrence_agrees(s: Seq<char>, pat: Seq<char>, r: Option<int>)
    requires
        match r {
            Some(i) => match_at(s, pat, i) && forall|j: int| 0 <= j < i ==> !match_at(s, pat, j),
            None => forall|j: int| !match_at(s, pat, j),
        },
    ensures
        find_first(s, pat) == r,
{
    lemma_find_first(s, pat);
    match (r, find_first(s, pat)) {
        (Some(i), Some(i2)) => {
            if i < i2 {
                assert(!match_at(s, pat, i));
            } else if i2 < i {
                assert(!match_at(s, pat, i2));
            }
        },
        (Some(i), None) => {
            assert(match_at(s, pat, i));
        },
        (None, Some(i2)) => {
            assert(!match_at(s, pat, i2));
        },
        (None, None) => {},
    }
}

/// Scans an analysis report for the duration text and the audio marker.
pub fn scan_video_json(json: &str) -> (r: VideoSummary)
    ensures
        r.has_audio == contains_sub(json@, audio_marker()),
        r.duration_text.deep_view() == duration_text_spec(json@),
{
    let has_audio = contains_str(json, "\"codec_type\":\"audio\"");
    let n: usize = json.unicode_len();
    let duration_text: Option<String> = match find_sub(json, "\"duration\":") {
        None => {
            proof {
                lemma_first_occurrence_agrees(json@, duration_key(), None);
            }
            None
        },
        Some(i) => {
            proof {
                lemma_first_occurrence_agrees(json@, duration_key(), Some(i as int));
                reveal_strlit("\"duration\":");
            }
            let rest = json.substring_char(i + 11, n);
            match find_sub(rest, ",") {
                None => {
                    proof {
                        lemma_first_occurrence_agrees(rest@, ","@, None);
                    }
                    None
                },
                Some(k) => {
                    proof {
                        lemma_first_occurrence_agrees(rest@, ","@, Some(k as int));
                    }
                    let piece = rest.substring_char(0, k);
                    Some(trim_quote_ends(piece))
                },
            }
        },
    };
    VideoSummary { duration_text, has_audio }
}

} // verus!
