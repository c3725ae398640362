//! Character-level helpers shared by the attribute parser and the templates:
//! whitespace, trimming, the `=>` separator and string equality.
use vstd::prelude::*;

verus! {

/// The characters that `char::is_whitespace` accepts (Unicode `White_Space`).
pub open spec fn is_ws(c: char) -> bool {
    let u = c as u32;
    (0x9 <= u && u <= 0xd) || u == 0x20 || u == 0x85 || u == 0xa0 || u == 0x1680 || (0x2000 <= u
        && u <= 0x200a) || u == 0x2028 || u == 0x2029 || u == 0x202f || u == 0x205f || u == 0x3000
}

pub open spec fn trim_start_spec(s: Seq<char>) -> Seq<char>
    decreases s.len(),
{
    if s.len() > 0 && is_ws(s[0]) {
        trim_start_spec(s.drop_first())
    } else {
        s
    }
}

pub open spec fn trim_end_spec(s: Seq<char>) -> Seq<char>
    decreases s.len(),
{
    if s.len() > 0 && is_ws(s.last()) {
        trim_end_spec(s.drop_last())
    } else {
        s
    }
}

/// `s` without its leading and trailing whitespace.
pub open spec fn trim_spec(s: Seq<char>) -> Seq<char> {
    trim_end_spec(trim_start_spec(s))
}

/// `s` with every whitespace character removed.
pub open spec fn strip_ws_spec(s: Seq<char>) -> Seq<char>
    decreases s.len(),
{
    if s.len() == 0 {
        s
    } else if is_ws(s.last()) {
        strip_ws_spec(s.drop_last())
    } else {
        strip_ws_spec(s.drop_last()).push(s.last())
    }
}

/// An `=>` starts at index `i` of `s`.
pub open spec fn is_arrow_at(s: Seq<char>, i: int) -> bool {
    0 <= i && i + 1 < s.len() && s[i] == '=' && s[i + 1] == '>'
}

/// The first `=>` of `s` at or after index `k`.
pub open spec fn arrow_from(s: Seq<char>, k: int) -> Option<int>
    decreases s.len() - k,
{
    if k < 0 || k + 1 >= s.len() {
        None
    } else if is_arrow_at(s, k) {
        Some(k)
    } else {
        arrow_from(s, k + 1)
    }
}

pub open spec fn first_arrow(s: Seq<char>) -> Option<int> {
    arrow_from(s, 0)
}

/// What stands before the first `=>`, or all of `s` when it has none.
pub open spec fn head_segment(s: Seq<char>) -> Seq<char> {
    match first_arrow(s) {
        Some(i) => s.subrange(0, i),
        None => s,
    }
}

/// What follows the first `=>`, when there is one.
pub open spec fn after_arrow(s: Seq<char>) -> Option<Seq<char>> {
    match first_arrow(s) {
        Some(i) => Some(s.subrange(i + 2, s.len() as int)),
        None => None,
    }
}

proof fn lemma_arrow_from_bounds(s: Seq<char>, k: int)
    ensures
        match arrow_from(s, k) {
            Some(i) => k <= i && is_arrow_at(s, i),
            None => true,
        },
    decreases s.len() - k,
{
    if k < 0 || k + 1 >= s.len() {
    } else if is_arrow_at(s, k) {
    } else {
        lemma_arrow_from_bounds(s, k + 1);
    }
}

/// Every character of `s` is ASCII.
pub open spec fn ascii_text(s: Seq<char>) -> bool {
    forall|i: int| 0 <= i < s.len() ==> (s[i] as u32) < 128
}

pub fn is_ascii_text(s: &str) -> (r: bool)
    ensures
        r == ascii_text(s@),
{
    let n = s.unicode_len();
    let mut i: usize = 0;
    while i < n
        invariant
            n == s@.len(),
            i <= n,
            forall|j: int| 0 <= j < i ==> (s@[j] as u32) < 128,
        decreases n - i,
    {
        if (s.get_char(i) as u32) >= 128 {
            return false;
        }
        i = i + 1;
    }
    true
}

pub fn is_whitespace(c: char) -> (r: bool)
    ensures
        r == is_ws(c),
{
    let u = c as u32;
    (0x9 <= u && u <= 0xd) || u == 0x20 || u == 0x85 || u == 0xa0 || u == 0x1680 || (0x2000 <= u
        && u <= 0x200a) || u == 0x2028 || u == 0x2029 || u == 0x202f || u == 0x205f || u == 0x3000
}

/// `a` and `b` hold the same characters.
pub fn same_text(a: &str, b: &str) -> (r: bool)
    ensures
        r == (a@ == b@),
{
    let n = a.unicode_len();
    let m = b.unicode_len();
    if n != m {
        return false;
    }
    let mut i: usize = 0;
    while i < n
        invariant
            n == a@.len(),
            m == b@.len(),
            n == m,
            i <= n,
            forall|j: int| 0 <= j < i ==> a@[j] == b@[j],
        decreases n - i,
    {
        if a.get_char(i) != b.get_char(i) {
            return false;
        }
        i = i + 1;
    }
    assert(a@ =~= b@);
    true
}

/// Copies the characters of `s` from `from` (included) to `to` (excluded).
pub fn slice_text(s: &str, from: usize, to: usize) -> (r: String)
    requires
        from <= to <= s@.len(),
    ensures
        r@ == s@.subrange(from as int, to as int),
{
    String::from_str(s.substring_char(from, to))
}

pub fn trim(s: &str) -> (r: String)
    ensures
        r@ == trim_spec(s@),
{
    let n = s.unicode_len();
    let mut a: usize = 0;
    assert(s@.subrange(0, n as int) =~= s@);
    while a < n && is_whitespace(s.get_char(a))
        invariant
            a <= n,
            n == s@.len(),
            trim_start_spec(s@) == trim_start_spec(s@.subrange(a as int, n as int)),
        decreases n - a,
    {
        assert(s@.subrange(a + 1, n as int) =~= s@.subrange(a as int, n as int).drop_first());
        a = a + 1;
    }
    assert(trim_start_spec(s@) == s@.subrange(a as int, n as int));
    let mut b: usize = n;
    while b > a && is_whitespace(s.get_char(b - 1))
        invariant
            a <= b <= n,
            n == s@.len(),
            trim_end_spec(s@.subrange(a as int, n as int)) == trim_end_spec(
                s@.subrange(a as int, b as int),
            ),
        decreases b,
    {
        assert(s@.subrange(a as int, b - 1) =~= s@.subrange(a as int, b as int).drop_last());
        b = b - 1;
    }
    slice_text(s, a, b)
}

/// Removes every whitespace character, as a type written out token by token
/// (`Option < LoggedData >`) becomes `Option<LoggedData>`.
pub fn strip_whitespace(s: &str) -> (r: String)
    ensures
        r@ == strip_ws_spec(s@),
{
    let n = s.unicode_len();
    let mut r = String::new();
    let mut i: usize = 0;
    while i < n
        invariant
            i <= n,
            n == s@.len(),
            r@ == strip_ws_spec(s@.subrange(0, i as int)),
        decreases n - i,
    {
        let c = s.get_char(i);
        assert(s@.subrange(0, i as int) =~= s@.subrange(0, i + 1).drop_last());
        if !is_whitespace(c) {
            let piece = s.substring_char(i, i + 1);
            r.append(piece);
            assert(piece@ =~= seq![c]);
        }
        i = i + 1;
    }
    assert(s@.subrange(0, n as int) =~= s@);
    r
}

/// Index of the first `=>` in `s`.
pub fn find_arrow(s: &str) -> (r: Option<usize>)
    ensures
        match r {
            Some(i) => first_arrow(s@) == Some(i as int),
            None => first_arrow(s@) is None,
        },
{
    let n = s.unicode_len();
    let mut k: usize = 0;
    while n >= 2 && k <= n - 2
        invariant
            n == s@.len(),
            k <= n,
            arrow_from(s@, 0) == arrow_from(s@, k as int),
        decreases n - k,
    {
        if s.get_char(k) == '=' && s.get_char(k + 1) == '>' {
            return Some(k);
        }
        k = k + 1;
    }
    None
}

/// The text before the first `=>` and, when there is one, the text after it.
pub fn split_arrow(s: &str) -> (r: (String, Option<String>))
    ensures
        r.0@ == head_segment(s@),
        match r.1 {
            Some(t) => after_arrow(s@) == Some(t@),
            None => after_arrow(s@) is None,
        },
{
    let n = s.unicode_len();
    match find_arrow(s) {
        Some(i) => {
            proof {
                lemma_arrow_from_bounds(s@, 0);
            }
            (slice_text(s, 0, i), Some(slice_text(s, i + 2, n)))
        },
        None => {
            assert(s@.subrange(0, n as int) =~= s@);
            (slice_text(s, 0, n), None)
        },
    }
}

} // verus!
