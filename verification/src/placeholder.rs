//! The degraded mode's placeholder payload: when the external transcoder is
//! unavailable, extraction writes this plain-text diagnostic instead and
//! succeeds.

use vstd::prelude::*;

use crate::args::{Args, ArgsV};
use crate::format::{format_name, AudioFormat};
use crate::text::{contains_sub, dec_of, match_at, u32_dec};

verus! {

/// The placeholder payload for a configuration and a timestamp: a commented
/// text block that embeds the input path, the target format and quality, and
/// when it was generated.
pub open spec fn placeholder_spec(a: ArgsV, ts: Seq<char>) -> Seq<char> {
    "# Audio Extraction Placeholder\n# Original video: \""@ + a.input
        + "\"\n# Target format: "@ + format_name(a.format) + "\n# Target quality: "@ + dec_of(
        a.quality as nat,
    )
        + " kbps\n# \n# This is a placeholder file created because FFmpeg is not available.\n# Install FFmpeg to enable real audio extraction.\n# \n# Generated by audio_extractor at: "@
        + ts + "\n"@
}

/// Builds the placeholder payload.
pub fn placeholder_content(a: &Args, ts: &str) -> (r: String)
    ensures
        r@ == placeholder_spec(a@, ts@),
{
    let mut r = "# Audio Extraction Placeholder\n# Original video: \"".to_owned();
    r.append(a.input.as_str());
    r.append("\"\n# Target format: ");
    r.append(a.format.as_str());
    r.append("\n# Target quality: ");
    let q = u32_dec(a.quality);
    r.append(q.as_str());
    r.append(
        " kbps\n# \n# This is a placeholder file created because FFmpeg is not available.\n# Install FFmpeg to enable real audio extraction.\n# \n# Generated by audio_extractor at: ",
    );
    r.append(ts);
    r.append("\n");
    r
}

/// The placeholder payload is never empty, and it embeds the configured input
/// path, the target format's name, the rendered quality, and the timestamp.
pub proof fn lemma_placeholder_mentions(a: ArgsV, ts: Seq<char>)
    ensures
        placeholder_spec(a, ts).len() > 0,
        contains_sub(placeholder_spec(a, ts), a.input),
        contains_sub(placeholder_spec(a, ts), format_name(a.format)),
        contains_sub(placeholder_spec(a, ts), dec_of(a.quality as nat)),
        contains_sub(placeholder_spec(a, ts), ts),
{
    let s = placeholder_spec(a, ts);
    let p1 = "# Audio Extraction Placeholder\n# Original video: \""@;
    let p2 = "\"\n# Target format: "@;
    let p3 = "\n# Target quality: "@;
    let p4 =
        " kbps\n# \n# This is a placeholder file created because FFmpeg is not available.\n# Install FFmpeg to enable real audio extraction.\n# \n# Generated by audio_extractor at: "@;
    let p5 = "\n"@;
    let nm = format_name(a.format);
    let q = dec_of(a.quality as nat);
    reveal_strlit("# Audio Extraction Placeholder\n# Original video: \"");
    reveal_strlit("\n");
    assert(s.len() > 0);
    let i1 = p1.len() as int;
    assert(s.subrange(i1, i1 + a.input.len()) =~= a.input);
    assert(contains_sub(s, a.input)) by {
        assert(match_at(s, a.input, i1));
    }
    let i2 = i1 + a.input.len() + p2.len();
    assert(s.subrange(i2, i2 + nm.len()) =~= nm);
    assert(contains_sub(s, nm)) by {
        assert(match_at(s, nm, i2));
    }
    let i3 = i2 + nm.len() + p3.len();
    assert(s.subrange(i3, i3 + q.len()) =~= q);
    assert(contains_sub(s, q)) by {
        assert(match_at(s, q, i3));
    }
    let i4 = i3 + q.len() + p4.len();
    assert(s.subrange(i4, i4 + ts.len()) =~= ts);
    assert(contains_sub(s, ts)) by {
        assert(match_at(s, ts, i4));
    }
}

/// Relies on chrono's `Utc::now` and `DateTime` formatting for the timestamp
/// embedded in the placeholder payload; the result depends on the wall clock.
#[verifier::external_body]
pub fn current_timestamp() -> String {
    chrono::Utc::now().format("%Y-%m-%d %H:%M:%S UTC").to_string()
}

} // verus!
