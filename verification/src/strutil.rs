//! String helpers shared by the classifier and the command builders:
//! prefix, suffix and substring tests over `&str`, and decimal rendering
//! of unsigned integers.
use vstd::prelude::*;

verus! {

/// True when `sub` occurs in `s` starting at index `i`.
pub open spec fn has_substring_at(s: Seq<char>, sub: Seq<char>, i: int) -> bool {
    0 <= i && i + sub.len() <= s.len() && s.subrange(i, i + sub.len() as int) == sub
}

/// True when `sub` occurs somewhere in `s`.
pub open spec fn has_substring(s: Seq<char>, sub: Seq<char>) -> bool {
    exists|i: int| has_substring_at(s, sub, i)
}

/// Decimal digit characters.
pub open spec fn spec_digit(d: nat) -> char {
    if d == 0 {
        '0'
    } else if d == 1 {
        '1'
    } else if d == 2 {
        '2'
    } else if d == 3 {
        '3'
    } else if d == 4 {
        '4'
    } else if d == 5 {
        '5'
    } else if d == 6 {
        '6'
    } else if d == 7 {
        '7'
    } else if d == 8 {
        '8'
    } else {
        '9'
    }
}

/// The usual decimal rendering of `n`, most significant digit first.
pub open spec fn spec_decimal(n: nat) -> Seq<char>
    decreases n,
{
    if n < 10 {
        seq![spec_digit(n)]
    } else {
        spec_decimal(n / 10).push(spec_digit(n % 10))
    }
}

/// Whether `p` is a prefix of `s`, as the exec counterpart of
/// `Seq::is_prefix_of`.
pub fn str_starts_with(s: &str, p: &str) -> (r: bool)
    ensures
        r == p@.is_prefix_of(s@),
{
    let n: usize = p.unicode_len();
    let m: usize = s.unicode_len();
    if n > m {
        return false;
    }
    let mut i: usize = 0;
    while i < n
        invariant
            i <= n <= m,
            n == p@.len(),
            m == s@.len(),
            forall|j: int| 0 <= j < i ==> s@[j] == p@[j],
        decreases n - i,
    {
        if s.get_char(i) != p.get_char(i) {
            return false;
        }
        i = i + 1;
    }
    proof {
        assert(p@ =~= s@.subrange(0, p@.len() as int));
    }
    true
}

/// Whether `sub` occurs in `s` starting at index `i`; `i + sub` must fit in `s`.
fn matches_at(s: &str, sub: &str, i: usize) -> (r: bool)
    requires
        i + sub@.len() <= s@.len(),
    ensures
        r == has_substring_at(s@, sub@, i as int),
{
    let n: usize = sub.unicode_len();
    let m: usize = s.unicode_len();
    let mut j: usize = 0;
    while j < n
        invariant
            j <= n,
            n == sub@.len(),
            m == s@.len(),
            i + n <= m,
            forall|k: int| 0 <= k < j ==> s@[i + k] == sub@[k],
        decreases n - j,
    {
        if s.get_char(i + j) != sub.get_char(j) {
            assert(s@.subrange(i as int, i + n as int)[j as int] != sub@[j as int]);
            return false;
        }
        j = j + 1;
    }
    proof {
        assert(s@.subrange(i as int, i + n as int) =~= sub@);
    }
    true
}

/// Whether `sub` occurs anywhere in `s`, as the exec counterpart of
/// `has_substring`.
pub fn str_contains(s: &str, sub: &str) -> (r: bool)
    ensures
        r == has_substring(s@, sub@),
{
    let n: usize = sub.unicode_len();
    let m: usize = s.unicode_len();
    if n > m {
        assert(forall|i: int| !has_substring_at(s@, sub@, i));
        return false;
    }
    if n == 0 {
        proof {
            assert(s@.subrange(0, 0) =~= sub@);
            assert(has_substring_at(s@, sub@, 0));
        }
        return true;
    }
    let mut i: usize = 0;
    while i <= m - n
        invariant
            1 <= n <= m,
            i <= m - n + 1,
            n == sub@.len(),
            m == s@.len(),
            forall|k: int| 0 <= k < i ==> !has_substring_at(s@, sub@, k),
        decreases m - n + 1 - i,
    {
        if matches_at(s, sub, i) {
            return true;
        }
        i = i + 1;
    }
    assert(forall|k: int| has_substring_at(s@, sub@, k) ==> 0 <= k <= m - n);
    false
}

/// Whether `p` is a suffix of `s`, as the exec counterpart of
/// `Seq::is_suffix_of`.
pub fn str_ends_with(s: &str, p: &str) -> (r: bool)
    ensures
        r == p@.is_suffix_of(s@),
{
    let n: usize = p.unicode_len();
    let m: usize = s.unicode_len();
    if n > m {
        return false;
    }
    matches_at(s, p, m - n)
}

/// The one-character string for a decimal digit.
fn digit_str(d: u64) -> (r: &'static str)
    requires
        d < 10,
    ensures
        r@ =~= seq![spec_digit(d as nat)],
{
    proof {
        reveal_strlit("0");
        reveal_strlit("1");
        reveal_strlit("2");
        reveal_strlit("3");
        reveal_strlit("4");
        reveal_strlit("5");
        reveal_strlit("6");
        reveal_strlit("7");
        reveal_strlit("8");
        reveal_strlit("9");
    }
    match d {
        0 => "0",
        1 => "1",
        2 => "2",
        3 => "3",
        4 => "4",
        5 => "5",
        6 => "6",
        7 => "7",
        8 => "8",
        _ => "9",
    }
}

/// Renders `n` in decimal, matching `spec_decimal`.
pub fn u64_to_string(n: u64) -> (r: String)
    ensures
        r@ == spec_decimal(n as nat),
    decreases n,
{
    if n < 10 {
        String::from_str(digit_str(n))
    } else {
        let q: u64 = n / 10;
        let d: u64 = n % 10;
        let mut s = u64_to_string(q);
        s.append(digit_str(d));
        proof {
            assert(spec_decimal(n as nat) =~= spec_decimal(q as nat) + seq![
                spec_digit(d as nat),
            ]);
        }
        s
    }
}

} // verus!
