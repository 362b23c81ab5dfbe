//! Verified text utilities: case folding into ASCII, case-insensitive
//! comparison, substring search, and decimal rendering of integers.

use vstd::prelude::*;

verus! {

/// Lowercasing of a single character as far as ASCII is concerned: ASCII
/// uppercase letters fold, and so does the kelvin sign, the one character
/// beyond them whose lowercase form is an ASCII letter; all others are
/// unchanged.
pub open spec fn lower_char(c: char) -> char {
    if 'A' as u32 <= c as u32 && c as u32 <= 'Z' as u32 {
        ((c as u32 + 32) as u32) as char
    } else if c == '\u{212A}' {
        'k'
    } else {
        c
    }
}

/// Lowercasing of a character sequence, as [`lower_char`] does it.
pub open spec fn seq_lower(s: Seq<char>) -> Seq<char> {
    s.map_values(|c: char| lower_char(c))
}

/// Lowercases one character, as [`lower_char`] says.
pub fn to_lower_char(c: char) -> (r: char)
    ensures
        r == lower_char(c),
{
    let u: u32 = c as u32;
    if 65 <= u && u <= 90 {
        ((u + 32) as u8) as char
    } else if u == 0x212A {
        'k'
    } else {
        c
    }
}

/// Whether `s`, lowercased as [`lower_char`] does it, equals `t` exactly.
pub fn eq_lowercase(s: &str, t: &str) -> (r: bool)
    ensures
        r == (seq_lower(s@) == t@),
{
    let n: usize = s.unicode_len();
    let m: usize = t.unicode_len();
    if n != m {
        assert(seq_lower(s@).len() == n);
        return false;
    }
    let mut i: usize = 0;
    while i < n
        invariant
            i <= n,
            n == s@.len(),
            n == t@.len(),
            forall|j: int| 0 <= j < i ==> seq_lower(s@)[j] == t@[j],
        decreases n - i,
    {
        let c = to_lower_char(s.get_char(i));
        if c != t.get_char(i) {
            assert(seq_lower(s@)[i as int] != t@[i as int]);
            return false;
        }
        i = i + 1;
    }
    assert(seq_lower(s@) =~= t@);
    true
}

/// The index of the last occurrence of `c` in `s`, if any.
pub open spec fn find_last(s: Seq<char>, c: char) -> Option<int>
    decreases s.len(),
{
    if s.len() == 0 {
        None
    } else if s[s.len() - 1] == c {
        Some(s.len() - 1)
    } else {
        find_last(s.drop_last(), c)
    }
}

/// What `find_last` answers: the position it names holds `c`, nothing after it
/// does, and a `None` means `c` does not occur at all.
pub proof fn lemma_find_last(s: Seq<char>, c: char)
    ensures
        match find_last(s, c) {
            Some(i) => 0 <= i < s.len() && s[i] == c && forall|j: int| i < j < s.len() ==> s[j] != c,
            None => forall|j: int| 0 <= j < s.len() ==> s[j] != c,
        },
    decreases s.len(),
{
    if s.len() > 0 && s[s.len() - 1] != c {
        lemma_find_last(s.drop_last(), c);
        assert(forall|j: int| 0 <= j < s.len() - 1 ==> s.drop_last()[j] == s[j]);
    }
}

/// Scans `s` from the end for the last occurrence of `c`.
pub fn rfind_char(s: &str, c: char) -> (r: Option<usize>)
    ensures
        match r {
            Some(i) => Some(i as int) == find_last(s@, c),
            None => find_last(s@, c) is None,
        },
{
    let n: usize = s.unicode_len();
    let mut i: usize = n;
    assert(s@.subrange(0, n as int) =~= s@);
    while i > 0
        invariant
            i <= n,
            n == s@.len(),
            find_last(s@, c) == find_last(s@.subrange(0, i as int), c),
        decreases i,
    {
        i = i - 1;
        if s.get_char(i) == c {
            assert(find_last(s@.subrange(0, i + 1), c) == Some(i as int));
            return Some(i);
        }
        assert(s@.subrange(0, i + 1).drop_last() =~= s@.subrange(0, i as int));
    }
    assert(s@.subrange(0, 0) =~= Seq::<char>::empty());
    None
}

/// Whether `pat` occurs in `s` starting at position `i`.
pub open spec fn match_at(s: Seq<char>, pat: Seq<char>, i: int) -> bool {
    0 <= i && i + pat.len() <= s.len() && s.subrange(i, i + pat.len()) == pat
}

/// Whether `pat` occurs anywhere in `s`.
pub open spec fn contains_sub(s: Seq<char>, pat: Seq<char>) -> bool {
    exists|i: int| match_at(s, pat, i)
}

/// The position of the first occurrence of `pat` in `s`, if any.
pub fn find_sub(s: &str, pat: &str) -> (r: Option<usize>)
    ensures
        match r {
            Some(i) => match_at(s@, pat@, i as int) && forall|j: int|
                0 <= j < i ==> !match_at(s@, pat@, j),
            None => forall|j: int| !match_at(s@, pat@, j),
        },
{
    let n: usize = s.unicode_len();
    let m: usize = pat.unicode_len();
    if m > n {
        return None;
    }
    if m == 0 {
        assert(s@.subrange(0, 0) =~= pat@);
        return Some(0);
    }
    let mut i: usize = 0;
    while i <= n - m
        invariant
            1 <= m <= n,
            n == s@.len(),
            m == pat@.len(),
            i <= n - m + 1,
            forall|j: int| 0 <= j < i ==> !match_at(s@, pat@, j),
        decreases n - i,
    {
        let mut k: usize = 0;
        let mut matched = true;
        while k < m
            invariant
                i + m <= n,
                n == s@.len(),
                m == pat@.len(),
                k <= m,
                matched ==> forall|l: int| 0 <= l < k ==> s@[i + l] == pat@[l],
                !matched ==> !match_at(s@, pat@, i as int),
            decreases m - k,
        {
            if s.get_char(i + k) != pat.get_char(k) {
                assert(s@.subrange(i as int, i + m) == pat@ ==> s@.subrange(i as int, i + m)[k as int]
                    == pat@[k as int]);
                matched = false;
                k = m;
            } else {
                k = k + 1;
            }
        }
        if matched {
            assert(s@.subrange(i as int, i + m) =~= pat@);
            return Some(i);
        }
        i = i + 1;
    }
    assert(forall|j: int| j > n - m ==> !match_at(s@, pat@, j));
    None
}

/// Whether `pat` occurs anywhere in `s`.
pub fn contains_str(s: &str, pat: &str) -> (r: bool)
    ensures
        r == contains_sub(s@, pat@),
{
    match find_sub(s, pat) {
        Some(i) => {
            assert(match_at(s@, pat@, i as int));
            true
        },
        None => false,
    }
}

/// The decimal digit `d` as a character; meaningful for `d < 10`.
pub open spec fn digit_char(d: nat) -> char {
    if d == 0 {
        '0'
    } else if d == 1 {
        '1'
    } else if d == 2 {
        '2'
    } else if d == 3 {
        '3'
    } else if d == 4 {
        '4'
    } else if d == 5 {
        '5'
    } else if d == 6 {
        '6'
    } else if d == 7 {
        '7'
    } else if d == 8 {
        '8'
    } else {
        '9'
    }
}

/// The decimal rendering of `n`, most significant digit first, no leading zeros.
pub open spec fn dec_of(n: nat) -> Seq<char>
    decreases n,
{
    if n < 10 {
        seq![digit_char(n)]
    } else {
        dec_of(n / 10).push(digit_char(n % 10))
    }
}

fn digit_str(d: u32) -> (r: &'static str)
    requires
        d < 10,
    ensures
        r@ == seq![digit_char(d as nat)],
{
    let r: &'static str = match d {
        0 => "0",
        1 => "1",
        2 => "2",
        3 => "3",
        4 => "4",
        5 => "5",
        6 => "6",
        7 => "7",
        8 => "8",
        _ => "9",
    };
    proof {
        reveal_strlit("0");
        reveal_strlit("1");
        reveal_strlit("2");
        reveal_strlit("3");
        reveal_strlit("4");
        reveal_strlit("5");
        reveal_strlit("6");
        reveal_strlit("7");
        reveal_strlit("8");
        reveal_strlit("9");
        assert(r@ =~= seq![digit_char(d as nat)]);
    }
    r
}

/// Renders `n` in decimal.
pub fn u32_dec(n: u32) -> (r: String)
    ensures
        r@ == dec_of(n as nat),
    decreases n,
{
    if n < 10 {
        digit_str(n).to_owned()
    } else {
        let mut s = u32_dec(n / 10);
        s.append(digit_str(n % 10));
        proof {
            assert(dec_of((n / 10) as nat).push(digit_char((n % 10) as nat)) =~= dec_of(
                (n / 10) as nat,
            ) + seq![digit_char((n % 10) as nat)]);
        }
        s
    }
}

} // verus!
