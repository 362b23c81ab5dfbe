//! Input validation: a fixed allow-list of video container extensions,
//! matched case-insensitively. No content sniffing is performed.

use vstd::prelude::*;

use crate::errors::ErrV;
use crate::paths::extension_spec;
use crate::paths::extension_of;
use crate::text::{eq_lowercase, seq_lower};

verus! {

/// The allow-list of video container extensions, lowercased.
pub open spec fn is_video_ext(e: Seq<char>) -> bool {
    ||| e == "mp4"@
    ||| e == "avi"@
    ||| e == "mkv"@
    ||| e == "mov"@
    ||| e == "wmv"@
    ||| e == "flv"@
    ||| e == "webm"@
}

/// Whether a path names a video file: its extension, lowercased, is in the
/// allow-list. A path without an extension never does.
pub open spec fn is_video_path(p: Seq<char>) -> bool {
    match extension_spec(p) {
        Some(e) => is_video_ext(seq_lower(e)),
        None => false,
    }
}

/// Checks a path against the allow-list.
pub fn check_video_path(p: &str) -> (r: bool)
    ensures
        r == is_video_path(p@),
{
    match extension_of(p) {
        None => false,
        Some(e) => {
            let s = e.as_str();
            eq_lowercase(s, "mp4") || eq_lowercase(s, "avi") || eq_lowercase(s, "mkv")
                || eq_lowercase(s, "mov") || eq_lowercase(s, "wmv") || eq_lowercase(s, "flv")
                || eq_lowercase(s, "webm")
        },
    }
}

/// What validation answers for an input path and its existence on disk: a
/// missing input fails first, then an extension outside the allow-list,
/// whatever the file's content.
pub open spec fn validate_spec(input: Seq<char>, input_exists: bool) -> Result<(), ErrV> {
    if !input_exists {
        Err(ErrV::InputNotFound(input))
    } else if !is_video_path(input) {
        Err(ErrV::UnsupportedInputFormat(input))
    } else {
        Ok(())
    }
}

/// The allow-list, as a sequence in its published order.
pub open spec fn supported_video_exts() -> Seq<Seq<char>> {
    seq!["mp4"@, "avi"@, "mkv"@, "mov"@, "wmv"@, "flv"@, "webm"@]
}

/// The allow-list predicate holds of exactly the members of the published
/// list.
pub proof fn lemma_allow_list_complete(e: Seq<char>)
    ensures
        is_video_ext(e) <==> supported_video_exts().contains(e),
{
    if is_video_ext(e) {
        if e == "mp4"@ {
            assert(supported_video_exts()[0] == e);
        } else if e == "avi"@ {
            assert(supported_video_exts()[1] == e);
        } else if e == "mkv"@ {
            assert(supported_video_exts()[2] == e);
        } else if e == "mov"@ {
            assert(supported_video_exts()[3] == e);
        } else if e == "wmv"@ {
            assert(supported_video_exts()[4] == e);
        } else if e == "flv"@ {
            assert(supported_video_exts()[5] == e);
        } else {
            assert(supported_video_exts()[6] == e);
        }
    }
    if supported_video_exts().contains(e) {
        let i = choose|i: int|
            0 <= i < supported_video_exts().len() && supported_video_exts()[i] == e;
        assert(is_video_ext(e));
    }
}

} // verus!
