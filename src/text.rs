use vstd::prelude::*;

verus! {

/// `t` occurs in `s` starting at position `i`.
pub open spec fn occurs_at(s: Seq<char>, t: Seq<char>, i: int) -> bool {
    0 <= i && i + t.len() <= s.len() && s.subrange(i, i + t.len()) == t
}

/// The first position at or after `k` where `t` occurs in `s`.
pub open spec fn find_from(s: Seq<char>, t: Seq<char>, k: int) -> Option<int>
    decreases s.len() + 1 - k,
{
    if k < 0 || k + t.len() > s.len() {
        None
    } else if occurs_at(s, t, k) {
        Some(k)
    } else {
        find_from(s, t, k + 1)
    }
}

/// The first position where `t` occurs in `s`.
pub open spec fn find_first(s: Seq<char>, t: Seq<char>) -> Option<int> {
    find_from(s, t, 0)
}

/// A position that the search finds is one where `t` occurs, at or after `k`.
pub proof fn lemma_find_occurs(s: Seq<char>, t: Seq<char>, k: int)
    ensures
        find_from(s, t, k) matches Some(i) ==> occurs_at(s, t, i) && k <= i,
    decreases s.len() + 1 - k,
{
    if k >= 0 && k + t.len() <= s.len() && !occurs_at(s, t, k) {
        lemma_find_occurs(s, t, k + 1);
    }
}

pub open spec fn contains(s: Seq<char>, t: Seq<char>) -> bool {
    find_first(s, t) is Some
}

pub open spec fn ends_with(s: Seq<char>, t: Seq<char>) -> bool {
    t.len() <= s.len() && s.subrange(s.len() - t.len(), s.len() as int) == t
}

/// Unicode's White_Space property, as `char::is_whitespace` documents it.
pub open spec fn is_ws(c: char) -> bool {
    ('\u{9}' <= c && c <= '\u{d}') || c == ' ' || c == '\u{85}' || c == '\u{a0}' || c
        == '\u{1680}' || ('\u{2000}' <= c && c <= '\u{200a}') || c == '\u{2028}' || c
        == '\u{2029}' || c == '\u{202f}' || c == '\u{205f}' || c == '\u{3000}'
}

/// A set of characters: those that a strip removes, or those that end a run.
pub enum CharClass {
    Whitespace,
    Only(char),
    /// The characters that end a version number: space, `;`, `)` and `(`.
    VersionEnd,
}

pub open spec fn in_class(m: CharClass, c: char) -> bool {
    match m {
        CharClass::Whitespace => is_ws(c),
        CharClass::Only(x) => c == x,
        CharClass::VersionEnd => c == ' ' || c == ';' || c == ')' || c == '(',
    }
}

/// The first position at or after `k` whose character is in the class, else the length.
pub open spec fn stop_from(s: Seq<char>, m: CharClass, k: int) -> int
    decreases s.len() - k,
{
    if k < 0 || k >= s.len() {
        s.len() as int
    } else if in_class(m, s[k]) {
        k
    } else {
        stop_from(s, m, k + 1)
    }
}

/// `s` from position `k` up to the first character in the class.
pub open spec fn run_from(s: Seq<char>, m: CharClass, k: int) -> Seq<char> {
    s.subrange(k, stop_from(s, m, k))
}

/// The first position at or after `k` whose character is not in the class.
pub open spec fn kept_from(s: Seq<char>, m: CharClass, k: int) -> int
    decreases s.len() - k,
{
    if k < 0 || k >= s.len() {
        s.len() as int
    } else if in_class(m, s[k]) {
        kept_from(s, m, k + 1)
    } else {
        k
    }
}

/// One past the last position before `k` whose character is not in the class.
pub open spec fn kept_until(s: Seq<char>, m: CharClass, k: int) -> int
    decreases k,
{
    if k <= 0 || k > s.len() {
        0
    } else if in_class(m, s[k - 1]) {
        kept_until(s, m, k - 1)
    } else {
        k
    }
}

/// `s` without the leading and trailing characters of the class.
pub open spec fn stripped(s: Seq<char>, m: CharClass) -> Seq<char> {
    let a = kept_from(s, m, 0);
    let b = kept_until(s, m, s.len() as int);
    if a < b {
        s.subrange(a, b)
    } else {
        Seq::empty()
    }
}

pub open spec fn trimmed(s: Seq<char>) -> Seq<char> {
    stripped(s, CharClass::Whitespace)
}

/// The decimal digits of `n`, without leading zeros.
pub open spec fn decimal(n: nat) -> Seq<char>
    decreases n,
{
    if n < 10 {
        seq![digit_char(n)]
    } else {
        decimal(n / 10) + seq![digit_char(n % 10)]
    }
}

pub open spec fn digit_char(d: nat) -> char {
    if d < 10 {
        ((d + 48) as u8) as char
    } else {
        '?'
    }
}

/// What `str::to_lowercase` returns for these characters.
pub uninterp spec fn lower_of(s: Seq<char>) -> Seq<char>;

/// Relies on `str::to_lowercase`: the result depends on the characters alone.
#[verifier::external_body]
pub fn to_lower(s: &str) -> (r: String)
    ensures
        r@ == lower_of(s@),
{
    s.to_lowercase()
}

pub fn char_is_ws(c: char) -> (r: bool)
    ensures
        r == is_ws(c),
{
    ('\u{9}' <= c && c <= '\u{d}') || c == ' ' || c == '\u{85}' || c == '\u{a0}' || c
        == '\u{1680}' || ('\u{2000}' <= c && c <= '\u{200a}') || c == '\u{2028}' || c
        == '\u{2029}' || c == '\u{202f}' || c == '\u{205f}' || c == '\u{3000}'
}

fn in_class_exec(m: &CharClass, c: char) -> (r: bool)
    ensures
        r == in_class(*m, c),
{
    match m {
        CharClass::Whitespace => char_is_ws(c),
        CharClass::Only(x) => c == *x,
        CharClass::VersionEnd => c == ' ' || c == ';' || c == ')' || c == '(',
    }
}

/// The first position at or after `k` whose character is in the class, else the length.
pub fn stop_index(s: &str, m: &CharClass, k: usize) -> (r: usize)
    requires
        k <= s@.len(),
    ensures
        r == stop_from(s@, *m, k as int),
        k <= r <= s@.len(),
{
    let n = s.unicode_len();
    let mut i: usize = k;
    while i < n && !in_class_exec(m, s.get_char(i))
        invariant
            n == s@.len(),
            k <= i <= n,
            stop_from(s@, *m, k as int) == stop_from(s@, *m, i as int),
        decreases n - i,
    {
        i += 1;
    }
    i
}

/// A copy of the characters of `s` from `a` up to `b`.
pub fn slice(s: &str, a: usize, b: usize) -> (r: String)
    requires
        a <= b <= s@.len(),
    ensures
        r@ == s@.subrange(a as int, b as int),
{
    String::from_str(s.substring_char(a, b))
}

/// Whether `t` stands in `s` at position `i`.
fn matches_at(s: &str, t: &str, i: usize, n: usize, m: usize) -> (r: bool)
    requires
        n == s@.len(),
        m == t@.len(),
        i + m <= n,
    ensures
        r == occurs_at(s@, t@, i as int),
{
    let mut j: usize = 0;
    while j < m
        invariant
            n == s@.len(),
            m == t@.len(),
            i + m <= n,
            j <= m,
            forall|k: int| 0 <= k < j ==> s@[i + k] == t@[k],
        decreases m - j,
    {
        if s.get_char(i + j) != t.get_char(j) {
            assert(s@.subrange(i as int, i + m)[j as int] != t@[j as int]);
            return false;
        }
        j += 1;
    }
    assert(s@.subrange(i as int, i + m) =~= t@);
    true
}

/// The first position where `t` occurs in `s`, counted in characters.
pub fn find_str(s: &str, t: &str) -> (r: Option<usize>)
    ensures
        match r {
            Some(i) => find_first(s@, t@) == Some(i as int),
            None => find_first(s@, t@) is None,
        },
{
    let n = s.unicode_len();
    let m = t.unicode_len();
    if m > n {
        return None;
    }
    let mut i: usize = 0;
    loop
        invariant
            n == s@.len(),
            m == t@.len(),
            m <= n,
            i <= n - m,
            find_first(s@, t@) == find_from(s@, t@, i as int),
        decreases n - m - i,
    {
        if matches_at(s, t, i, n, m) {
            return Some(i);
        }
        if i == n - m {
            assert(find_from(s@, t@, i + 1) is None);
            return None;
        }
        i += 1;
    }
}

pub fn str_contains(s: &str, t: &str) -> (r: bool)
    ensures
        r == contains(s@, t@),
{
    find_str(s, t).is_some()
}

pub fn str_ends_with(s: &str, t: &str) -> (r: bool)
    ensures
        r == ends_with(s@, t@),
{
    let n = s.unicode_len();
    let m = t.unicode_len();
    if m > n {
        return false;
    }
    let r = matches_at(s, t, n - m, n, m);
    r
}

/// The first position whose character is not in the class, else the length.
pub fn kept_index(s: &str, m: &CharClass) -> (r: usize)
    ensures
        r == kept_from(s@, *m, 0),
        r <= s@.len(),
{
    let n = s.unicode_len();
    let mut a: usize = 0;
    while a < n && in_class_exec(m, s.get_char(a))
        invariant
            n == s@.len(),
            a <= n,
            kept_from(s@, *m, 0) == kept_from(s@, *m, a as int),
        decreases n - a,
    {
        a += 1;
    }
    a
}

/// A copy of `s` without the leading and trailing characters of the class `m`.
pub fn strip(s: &str, m: CharClass) -> (r: String)
    ensures
        r@ == stripped(s@, m),
{
    let n = s.unicode_len();
    let a = kept_index(s, &m);
    let mut b: usize = n;
    while b > 0 && in_class_exec(&m, s.get_char(b - 1))
        invariant
            n == s@.len(),
            b <= n,
            kept_until(s@, m, n as int) == kept_until(s@, m, b as int),
        decreases b,
    {
        b -= 1;
    }
    if a < b {
        String::from_str(s.substring_char(a, b))
    } else {
        String::new()
    }
}

pub fn trim(s: &str) -> (r: String)
    ensures
        r@ == trimmed(s@),
{
    strip(s, CharClass::Whitespace)
}

fn digit_str(d: u16) -> (r: &'static str)
    requires
        d < 10,
    ensures
        r@ == seq![digit_char(d as nat)],
{
    proof {
        reveal_strlit("0");
        reveal_strlit("1");
        reveal_strlit("2");
        reveal_strlit("3");
        reveal_strlit("4");
        reveal_strlit("5");
        reveal_strlit("6");
        reveal_strlit("7");
        reveal_strlit("8");
        reveal_strlit("9");
    }
    let r = match d {
        0 => "0",
        1 => "1",
        2 => "2",
        3 => "3",
        4 => "4",
        5 => "5",
        6 => "6",
        7 => "7",
        8 => "8",
        _ => "9",
    };
    assert(r@ =~= seq![digit_char(d as nat)]);
    r
}

/// `n` written in decimal.
pub fn u16_to_decimal(n: u16) -> (r: String)
    ensures
        r@ == decimal(n as nat),
    decreases n,
{
    if n < 10 {
        String::from_str(digit_str(n))
    } else {
        let head = u16_to_decimal(n / 10);
        head.concat(digit_str(n % 10))
    }
}

} // verus!
