//! A plain string model of file paths: `/`-separated, with the file name,
//! stem, extension and parent read off the character sequence.

use vstd::prelude::*;

use crate::text::{find_last, lemma_find_last, rfind_char};

verus! {

/// The final component of a path: everything after the last `/`, or the whole
/// path when it has none.
pub open spec fn file_name_spec(p: Seq<char>) -> Seq<char> {
    match find_last(p, '/') {
        None => p,
        Some(i) => p.subrange(i + 1, p.len() as int),
    }
}

/// The extension of a path's file name: what follows the last `.`, except that
/// a name without a dot, or with its only dot in front (a dotfile), has none.
pub open spec fn extension_spec(p: Seq<char>) -> Option<Seq<char>> {
    let n = file_name_spec(p);
    match find_last(n, '.') {
        None => None,
        Some(i) => if i == 0 {
            None
        } else {
            Some(n.subrange(i + 1, n.len() as int))
        },
    }
}

/// The stem of a path's file name: what precedes the last `.` (a dotfile keeps
/// its whole name). An empty file name has no stem.
pub open spec fn file_stem_spec(p: Seq<char>) -> Option<Seq<char>> {
    let n = file_name_spec(p);
    if n.len() == 0 {
        None
    } else {
        match find_last(n, '.') {
            None => Some(n),
            Some(i) => if i == 0 {
                Some(n)
            } else {
                Some(n.subrange(0, i))
            },
        }
    }
}

/// The parent of a path: everything before the last `/`. A path without a
/// separator has the empty parent; the root and the empty path have none.
pub open spec fn parent_spec(p: Seq<char>) -> Option<Seq<char>> {
    match find_last(p, '/') {
        None => if p.len() == 0 {
            None
        } else {
            Some(Seq::<char>::empty())
        },
        Some(i) => if i == 0 {
            if p.len() == 1 {
                None
            } else {
                Some(seq!['/'])
            }
        } else {
            Some(p.subrange(0, i))
        },
    }
}

/// `dir` and `name` joined with a `/` (none doubled, and an empty `dir` adds
/// nothing).
pub open spec fn join_spec(dir: Seq<char>, name: Seq<char>) -> Seq<char> {
    if dir.len() == 0 {
        name
    } else if dir[dir.len() - 1] == '/' {
        dir + name
    } else {
        dir + seq!['/'] + name
    }
}

/// The final component of a path.
pub fn file_name(p: &str) -> (r: &str)
    ensures
        r@ == file_name_spec(p@),
{
    match rfind_char(p, '/') {
        None => p,
        Some(i) => {
            proof {
                lemma_find_last(p@, '/');
            }
            let n: usize = p.unicode_len();
            p.substring_char(i + 1, n)
        },
    }
}

/// The extension of a path's file name, if it has one.
pub fn extension_of(p: &str) -> (r: Option<String>)
    ensures
        r.deep_view() == extension_spec(p@),
{
    let name = file_name(p);
    match rfind_char(name, '.') {
        None => None,
        Some(i) => {
            proof {
                lemma_find_last(name@, '.');
            }
            if i == 0 {
                None
            } else {
                let n: usize = name.unicode_len();
                Some(name.substring_char(i + 1, n).to_owned())
            }
        },
    }
}

/// The stem of a path's file name, if the name is not empty.
pub fn file_stem_of(p: &str) -> (r: Option<String>)
    ensures
        r.deep_view() == file_stem_spec(p@),
{
    let name = file_name(p);
    if name.unicode_len() == 0 {
        return None;
    }
    match rfind_char(name, '.') {
        None => Some(name.to_owned()),
        Some(i) => {
            proof {
                lemma_find_last(name@, '.');
            }
            if i == 0 {
                Some(name.to_owned())
            } else {
                Some(name.substring_char(0, i).to_owned())
            }
        },
    }
}

/// The parent of a path, if it has one.
pub fn parent_of(p: &str) -> (r: Option<String>)
    ensures
        r.deep_view() == parent_spec(p@),
{
    match rfind_char(p, '/') {
        None => {
            if p.unicode_len() == 0 {
                None
            } else {
                Some(String::new())
            }
        },
        Some(i) => {
            proof {
                lemma_find_last(p@, '/');
            }
            if i == 0 {
                if p.unicode_len() == 1 {
                    None
                } else {
                    let r = "/".to_owned();
                    proof {
                        reveal_strlit("/");
                        assert(r@ =~= seq!['/']);
                    }
                    Some(r)
                }
            } else {
                Some(p.substring_char(0, i).to_owned())
            }
        },
    }
}

/// Joins a directory and a file name with a `/`.
pub fn join_path(dir: &str, name: &str) -> (r: String)
    ensures
        r@ == join_spec(dir@, name@),
{
    let n: usize = dir.unicode_len();
    if n == 0 {
        name.to_owned()
    } else if dir.get_char(n - 1) == '/' {
        let mut r = dir.to_owned();
        r.append(name);
        r
    } else {
        let mut r = dir.to_owned();
        r.append("/");
        r.append(name);
        proof {
            reveal_strlit("/");
            assert("/"@ =~= seq!['/']);
        }
        r
    }
}

} // verus!
