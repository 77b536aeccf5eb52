//! Character and text primitives shared by the whole library.
//!
//! Strings are modelled by their view, a `Seq<char>`. Everything here is
//! proved against spec functions over those sequences, except the Unicode
//! case mappings, which are named results of std's own functions.
use vstd::prelude::*;

verus! {

/// `String::push` appends one character to the end of the string.
pub assume_specification[ String::push ](s: &mut String, ch: char)
    ensures
        final(s)@ == old(s)@.push(ch),
;

// ---------------------------------------------------------------------------
// Whitespace and trimming
// ---------------------------------------------------------------------------

/// Unicode `White_Space`, the set that `char::is_whitespace` recognises.
pub open spec fn is_ws(c: char) -> bool {
    ||| ('\u{9}' <= c && c <= '\u{d}')
    ||| c == ' '
    ||| c == '\u{85}'
    ||| c == '\u{a0}'
    ||| c == '\u{1680}'
    ||| ('\u{2000}' <= c && c <= '\u{200a}')
    ||| c == '\u{2028}'
    ||| c == '\u{2029}'
    ||| c == '\u{202f}'
    ||| c == '\u{205f}'
    ||| c == '\u{3000}'
}

pub fn is_whitespace_char(c: char) -> (r: bool)
    ensures
        r == is_ws(c),
{
    ('\u{9}' <= c && c <= '\u{d}') || c == ' ' || c == '\u{85}' || c == '\u{a0}' || c == '\u{1680}'
        || ('\u{2000}' <= c && c <= '\u{200a}') || c == '\u{2028}' || c == '\u{2029}' || c
        == '\u{202f}' || c == '\u{205f}' || c == '\u{3000}'
}

/// The sequence without its leading whitespace.
pub open spec fn trim_start(s: Seq<char>) -> Seq<char>
    decreases s.len(),
{
    if s.len() > 0 && is_ws(s[0]) {
        trim_start(s.drop_first())
    } else {
        s
    }
}

/// The sequence without its trailing whitespace.
pub open spec fn trim_end(s: Seq<char>) -> Seq<char>
    decreases s.len(),
{
    if s.len() > 0 && is_ws(s.last()) {
        trim_end(s.drop_last())
    } else {
        s
    }
}

/// What `str::trim` gives: no whitespace at either end.
pub open spec fn trim(s: Seq<char>) -> Seq<char> {
    trim_end(trim_start(s))
}

/// Every character of the sequence is whitespace.
pub open spec fn all_ws(s: Seq<char>) -> bool {
    forall|k: int| 0 <= k < s.len() ==> is_ws(#[trigger] s[k])
}

/// Trimming leaves nothing: the text is empty or only whitespace.
pub open spec fn is_blank(s: Seq<char>) -> bool {
    trim(s).len() == 0
}

pub proof fn lemma_trim_start_at(s: Seq<char>, i: int)
    requires
        0 <= i <= s.len(),
        forall|k: int| 0 <= k < i ==> is_ws(#[trigger] s[k]),
        i == s.len() || !is_ws(s[i]),
    ensures
        trim_start(s) == s.subrange(i, s.len() as int),
    decreases i,
{
    if i == 0 {
        assert(s.subrange(0, s.len() as int) =~= s);
    } else {
        let t = s.drop_first();
        assert forall|k: int| 0 <= k < i - 1 implies is_ws(#[trigger] t[k]) by {
            assert(t[k] == s[k + 1]);
        }
        if i - 1 < t.len() {
            assert(t[i - 1] == s[i]);
        }
        lemma_trim_start_at(t, i - 1);
        assert(t.subrange(i - 1, t.len() as int) =~= s.subrange(i, s.len() as int));
    }
}

pub proof fn lemma_trim_end_at(s: Seq<char>, j: int)
    requires
        0 <= j <= s.len(),
        forall|k: int| j <= k < s.len() ==> is_ws(#[trigger] s[k]),
        j == 0 || !is_ws(s[j - 1]),
    ensures
        trim_end(s) == s.subrange(0, j),
    decreases s.len() - j,
{
    if j == s.len() {
        assert(s.subrange(0, j) =~= s);
    } else {
        let t = s.drop_last();
        assert forall|k: int| j <= k < t.len() implies is_ws(#[trigger] t[k]) by {
            assert(t[k] == s[k]);
        }
        if j > 0 {
            assert(t[j - 1] == s[j - 1]);
        }
        lemma_trim_end_at(t, j);
        assert(t.subrange(0, j) =~= s.subrange(0, j));
    }
}

/// Trimming is the subrange between the first and the last non-whitespace.
pub proof fn lemma_trim_at(s: Seq<char>, i: int, j: int)
    requires
        0 <= i <= j <= s.len(),
        forall|k: int| 0 <= k < i ==> is_ws(#[trigger] s[k]),
        forall|k: int| j <= k < s.len() ==> is_ws(#[trigger] s[k]),
        i == j || (!is_ws(s[i]) && !is_ws(s[j - 1])),
    ensures
        trim(s) == s.subrange(i, j),
{
    if i == j {
        // Then every character is whitespace, and i is where the first scan stops.
        assert forall|k: int| 0 <= k < s.len() implies is_ws(#[trigger] s[k]) by {
            if k >= i {
                assert(k >= j);
            }
        }
        lemma_trim_start_at(s, s.len() as int);
        let t = s.subrange(s.len() as int, s.len() as int);
        assert(t.len() == 0);
        lemma_trim_end_at(t, 0);
        assert(t.subrange(0, 0) =~= s.subrange(i, j));
    } else {
        lemma_trim_start_at(s, i);
        let t = s.subrange(i, s.len() as int);
        assert forall|k: int| j - i <= k < t.len() implies is_ws(#[trigger] t[k]) by {
            assert(t[k] == s[k + i]);
        }
        assert(t[j - i - 1] == s[j - 1]);
        lemma_trim_end_at(t, j - i);
        assert(t.subrange(0, j - i) =~= s.subrange(i, j));
    }
}

/// The trimmed text is empty exactly when every character is whitespace.
pub proof fn lemma_blank_iff_all_ws(s: Seq<char>)
    ensures
        is_blank(s) <==> all_ws(s),
{
    if all_ws(s) {
        lemma_trim_at(s, s.len() as int, s.len() as int);
    } else {
        let k = choose|k: int| 0 <= k < s.len() && !is_ws(#[trigger] s[k]);
        let (i, j) = first_last_non_ws(s, k);
        lemma_trim_at(s, i, j);
    }
}

/// The first non-whitespace character at or after `i`, given one at `k`.
proof fn first_non_ws_from(s: Seq<char>, k: int, i: int) -> (r: int)
    requires
        0 <= i <= k < s.len(),
        !is_ws(s[k]),
        forall|m: int| 0 <= m < i ==> is_ws(#[trigger] s[m]),
    ensures
        0 <= r <= k,
        !is_ws(s[r]),
        forall|m: int| 0 <= m < r ==> is_ws(#[trigger] s[m]),
    decreases k - i,
{
    if !is_ws(s[i]) {
        i
    } else {
        first_non_ws_from(s, k, i + 1)
    }
}

/// One past the last non-whitespace character at or before `j - 1`, given one at `k`.
proof fn last_non_ws_from(s: Seq<char>, k: int, j: int) -> (r: int)
    requires
        0 <= k < j <= s.len(),
        !is_ws(s[k]),
        forall|m: int| j <= m < s.len() ==> is_ws(#[trigger] s[m]),
    ensures
        k < r <= s.len(),
        !is_ws(s[r - 1]),
        forall|m: int| r <= m < s.len() ==> is_ws(#[trigger] s[m]),
    decreases j - k,
{
    if !is_ws(s[j - 1]) {
        j
    } else {
        last_non_ws_from(s, k, j - 1)
    }
}

/// Locates the first and one past the last non-whitespace character,
/// given that one exists at `k`.
proof fn first_last_non_ws(s: Seq<char>, k: int) -> (r: (int, int))
    requires
        0 <= k < s.len(),
        !is_ws(s[k]),
    ensures
        0 <= r.0 <= k < r.1 <= s.len(),
        forall|m: int| 0 <= m < r.0 ==> is_ws(#[trigger] s[m]),
        forall|m: int| r.1 <= m < s.len() ==> is_ws(#[trigger] s[m]),
        !is_ws(s[r.0]),
        !is_ws(s[r.1 - 1]),
{
    let i = first_non_ws_from(s, k, 0);
    let j = last_non_ws_from(s, k, s.len() as int);
    (i, j)
}

// ---------------------------------------------------------------------------
// Moving between strings and character vectors
// ---------------------------------------------------------------------------

/// The characters of a string, in order.
pub fn chars_of(s: &str) -> (res: Vec<char>)
    ensures
        res@ == s@,
{
    let mut out: Vec<char> = Vec::new();
    for c in it: s.chars()
        invariant
            out@ == it.seq().take(it.index() as int),
            it.seq() == s@,
    {
        out.push(c);
    }
    out
}

/// The string made of `v[i..j]`.
pub fn string_of_range(v: &Vec<char>, i: usize, j: usize) -> (res: String)
    requires
        i <= j <= v.len(),
    ensures
        res@ == v@.subrange(i as int, j as int),
{
    let mut s = String::new();
    let mut k: usize = i;
    while k < j
        invariant
            i <= k <= j <= v.len(),
            s@ == v@.subrange(i as int, k as int),
        decreases j - k,
    {
        s.push(v[k]);
        k = k + 1;
        assert(v@.subrange(i as int, k as int) =~= v@.subrange(i as int, k - 1).push(v@[k - 1]));
    }
    s
}

/// The string made of all of `v`.
pub fn string_of(v: &Vec<char>) -> (res: String)
    ensures
        res@ == v@,
{
    let r = string_of_range(v, 0, v.len());
    assert(v@.subrange(0, v@.len() as int) =~= v@);
    r
}

/// A fresh `String` holding the same text.
pub fn to_owned_string(s: &str) -> (res: String)
    ensures
        res@ == s@,
{
    s.to_owned()
}

/// Appends every character of `t` to `s`.
pub fn push_str(s: &mut String, t: &str)
    ensures
        final(s)@ == old(s)@ + t@,
{
    let v = chars_of(t);
    let mut k: usize = 0;
    while k < v.len()
        invariant
            k <= v.len(),
            v@ == t@,
            s@ == old(s)@ + v@.take(k as int),
        decreases v.len() - k,
    {
        s.push(v[k]);
        k = k + 1;
        assert(v@.take(k as int) =~= v@.take(k - 1).push(v@[k - 1]));
    }
    assert(v@.take(v.len() as int) =~= v@);
}

/// Concatenation of two strings into a new one.
pub fn concat2(a: &str, b: &str) -> (res: String)
    ensures
        res@ == a@ + b@,
{
    let mut s = to_owned_string(a);
    push_str(&mut s, b);
    s
}

// ---------------------------------------------------------------------------
// Trimming, blankness and equality
// ---------------------------------------------------------------------------

/// `str::trim`: the text without leading and trailing whitespace.
pub fn trim_str(s: &str) -> (res: String)
    ensures
        res@ == trim(s@),
{
    let v = chars_of(s);
    let n = v.len();
    let mut i: usize = 0;
    while i < n && is_whitespace_char(v[i])
        invariant
            i <= n == v.len(),
            v@ == s@,
            forall|k: int| 0 <= k < i ==> is_ws(#[trigger] v@[k]),
        decreases n - i,
    {
        i = i + 1;
    }
    let mut j: usize = n;
    while j > i && is_whitespace_char(v[j - 1])
        invariant
            i <= j <= n == v.len(),
            v@ == s@,
            forall|k: int| 0 <= k < i ==> is_ws(#[trigger] v@[k]),
            i == n || !is_ws(v@[i as int]),
            forall|k: int| j <= k < n ==> is_ws(#[trigger] v@[k]),
        decreases j,
    {
        j = j - 1;
    }
    proof {
        if i < j {
            assert(!is_ws(v@[j - 1]));
        }
        lemma_trim_at(s@, i as int, j as int);
    }
    string_of_range(&v, i, j)
}

/// `s.trim().is_empty()`: the text is empty or only whitespace.
pub fn is_blank_str(s: &str) -> (r: bool)
    ensures
        r == is_blank(s@),
{
    let v = chars_of(s);
    let mut i: usize = 0;
    while i < v.len()
        invariant
            i <= v.len(),
            v@ == s@,
            forall|k: int| 0 <= k < i ==> is_ws(#[trigger] v@[k]),
        decreases v.len() - i,
    {
        if !is_whitespace_char(v[i]) {
            proof {
                lemma_blank_iff_all_ws(s@);
                assert(!is_ws(s@[i as int]));
            }
            return false;
        }
        i = i + 1;
    }
    proof {
        lemma_blank_iff_all_ws(s@);
    }
    true
}

/// Equality of two character vectors.
pub fn chars_eq(a: &Vec<char>, b: &Vec<char>) -> (r: bool)
    ensures
        r == (a@ == b@),
{
    if a.len() != b.len() {
        return false;
    }
    let mut i: usize = 0;
    while i < a.len()
        invariant
            i <= a.len() == b.len(),
            forall|k: int| 0 <= k < i ==> a@[k] == b@[k],
        decreases a.len() - i,
    {
        if a[i] != b[i] {
            return false;
        }
        i = i + 1;
    }
    assert(a@ =~= b@);
    true
}

/// Equality of two strings, character by character.
pub fn str_eq(a: &str, b: &str) -> (r: bool)
    ensures
        r == (a@ == b@),
{
    let va = chars_of(a);
    let vb = chars_of(b);
    chars_eq(&va, &vb)
}

/// The text starts with the given prefix.
pub fn starts_with(s: &str, prefix: &str) -> (r: bool)
    ensures
        r == (prefix@.len() <= s@.len() && s@.subrange(0, prefix@.len() as int) == prefix@),
{
    let v = chars_of(s);
    let p = chars_of(prefix);
    if p.len() > v.len() {
        return false;
    }
    let mut i: usize = 0;
    while i < p.len()
        invariant
            i <= p.len() <= v.len(),
            v@ == s@,
            p@ == prefix@,
            forall|k: int| 0 <= k < i ==> v@[k] == p@[k],
        decreases p.len() - i,
    {
        if v[i] != p[i] {
            assert(s@.subrange(0, prefix@.len() as int)[i as int] != prefix@[i as int]);
            return false;
        }
        i = i + 1;
    }
    assert(s@.subrange(0, prefix@.len() as int) =~= prefix@);
    true
}

/// The text holds the character somewhere.
pub fn contains_char(s: &str, c: char) -> (r: bool)
    ensures
        r == s@.contains(c),
{
    let v = chars_of(s);
    let mut i: usize = 0;
    while i < v.len()
        invariant
            i <= v.len(),
            v@ == s@,
            forall|k: int| 0 <= k < i ==> v@[k] != c,
        decreases v.len() - i,
    {
        if v[i] == c {
            assert(s@[i as int] == c);
            return true;
        }
        i = i + 1;
    }
    false
}

// ---------------------------------------------------------------------------
// ASCII classification and case
// ---------------------------------------------------------------------------

pub open spec fn is_ascii_digit(c: char) -> bool {
    '0' <= c && c <= '9'
}

pub open spec fn is_ascii_upper(c: char) -> bool {
    'A' <= c && c <= 'Z'
}

pub open spec fn is_ascii_lower(c: char) -> bool {
    'a' <= c && c <= 'z'
}

pub open spec fn is_ascii_alnum(c: char) -> bool {
    is_ascii_digit(c) || is_ascii_upper(c) || is_ascii_lower(c)
}

/// `char::to_ascii_uppercase`: only `a..=z` change.
pub open spec fn ascii_upper(c: char) -> char {
    if is_ascii_lower(c) {
        ((c as u32) - 32) as char
    } else {
        c
    }
}

/// `char::to_ascii_lowercase`: only `A..=Z` change.
pub open spec fn ascii_lower(c: char) -> char {
    if is_ascii_upper(c) {
        ((c as u32) + 32) as char
    } else {
        c
    }
}

pub fn is_digit_char(c: char) -> (r: bool)
    ensures
        r == is_ascii_digit(c),
{
    '0' <= c && c <= '9'
}

pub fn is_alnum_char(c: char) -> (r: bool)
    ensures
        r == is_ascii_alnum(c),
{
    ('0' <= c && c <= '9') || ('A' <= c && c <= 'Z') || ('a' <= c && c <= 'z')
}

pub fn to_ascii_upper_char(c: char) -> (r: char)
    ensures
        r == ascii_upper(c),
{
    if 'a' <= c && c <= 'z' {
        let code: u32 = c as u32;
        assert(97 <= code <= 122);
        let up: u8 = (code - 32) as u8;
        up as char
    } else {
        c
    }
}

pub fn to_ascii_lower_char(c: char) -> (r: char)
    ensures
        r == ascii_lower(c),
{
    if 'A' <= c && c <= 'Z' {
        let code: u32 = c as u32;
        let low: u8 = (code + 32) as u8;
        low as char
    } else {
        c
    }
}

/// The text with `a..=z` mapped to upper case, as `str::to_ascii_uppercase`.
pub open spec fn ascii_upper_seq(s: Seq<char>) -> Seq<char> {
    s.map_values(|c: char| ascii_upper(c))
}

pub fn to_ascii_uppercase(s: &str) -> (res: String)
    ensures
        res@ == ascii_upper_seq(s@),
{
    let v = chars_of(s);
    let mut out = String::new();
    let mut i: usize = 0;
    while i < v.len()
        invariant
            i <= v.len(),
            v@ == s@,
            out@ == ascii_upper_seq(s@.take(i as int)),
        decreases v.len() - i,
    {
        let c = to_ascii_upper_char(v[i]);
        out.push(c);
        i = i + 1;
        assert(ascii_upper_seq(s@.take(i as int)) =~= ascii_upper_seq(s@.take(i - 1)).push(c));
    }
    assert(s@.take(v.len() as int) =~= s@);
    out
}

/// `str::eq_ignore_ascii_case`.
pub fn eq_ignore_ascii_case(a: &str, b: &str) -> (r: bool)
    ensures
        r == (ascii_upper_seq(a@) == ascii_upper_seq(b@)),
{
    let ua = to_ascii_uppercase(a);
    let ub = to_ascii_uppercase(b);
    str_eq(ua.as_str(), ub.as_str())
}

// ---------------------------------------------------------------------------
// Unicode case mapping (std)
// ---------------------------------------------------------------------------

/// What `str::to_uppercase` returns for a text: the Unicode upper-case mapping.
pub uninterp spec fn unicode_upper(s: Seq<char>) -> Seq<char>;

/// What `str::to_lowercase` returns for a text: the Unicode lower-case mapping.
pub uninterp spec fn unicode_lower(s: Seq<char>) -> Seq<char>;

/// Every character is ASCII.
pub open spec fn all_ascii(s: Seq<char>) -> bool {
    forall|k: int| 0 <= k < s.len() ==> (#[trigger] s[k] as u32) < 128
}

/// `str::to_ascii_lowercase` on a sequence.
pub open spec fn ascii_lower_seq(s: Seq<char>) -> Seq<char> {
    s.map_values(|c: char| ascii_lower(c))
}

/// Calls `str::to_uppercase`; its result is named `unicode_upper` of the
/// text. Of an ASCII text, the Unicode upper-case mapping changes only
/// `a..=z`, as `to_ascii_uppercase` does.
#[verifier::external_body]
pub(crate) fn to_uppercase(s: &str) -> (res: String)
    ensures
        res@ == unicode_upper(s@),
        all_ascii(s@) ==> res@ == ascii_upper_seq(s@),
{
    s.to_uppercase()
}

/// Calls `str::to_lowercase`; its result is named `unicode_lower` of the
/// text. Of an ASCII text, the Unicode lower-case mapping changes only
/// `A..=Z`, as `to_ascii_lowercase` does.
#[verifier::external_body]
pub(crate) fn to_lowercase(s: &str) -> (res: String)
    ensures
        res@ == unicode_lower(s@),
        all_ascii(s@) ==> res@ == ascii_lower_seq(s@),
{
    s.to_lowercase()
}

// ---------------------------------------------------------------------------
// Optional texts
// ---------------------------------------------------------------------------

/// The view of an optional string.
pub open spec fn opt_seq(o: Option<String>) -> Option<Seq<char>> {
    match o {
        Some(s) => Some(s@),
        None => None,
    }
}

/// The view of an optional borrowed string.
pub open spec fn opt_ref_seq(o: Option<&String>) -> Option<Seq<char>> {
    match o {
        Some(s) => Some(s@),
        None => None,
    }
}

// ---------------------------------------------------------------------------
// Substrings
// ---------------------------------------------------------------------------

/// `t` occurs in `s` starting at position `i`.
pub open spec fn occurs_at(s: Seq<char>, t: Seq<char>, i: int) -> bool {
    0 <= i && i + t.len() <= s.len() && s.subrange(i, i + t.len()) == t
}

/// `t` occurs somewhere in `s` (`str::contains` with a text pattern).
pub open spec fn has_infix(s: Seq<char>, t: Seq<char>) -> bool {
    exists|i: int| occurs_at(s, t, i)
}

fn matches_at(v: &Vec<char>, p: &Vec<char>, i: usize) -> (r: bool)
    requires
        i + p.len() <= v.len(),
    ensures
        r == occurs_at(v@, p@, i as int),
{
    let mut k: usize = 0;
    while k < p.len()
        invariant
            k <= p.len(),
            i + p.len() <= v.len(),
            forall|m: int| 0 <= m < k ==> v@[i + m] == p@[m],
        decreases p.len() - k,
    {
        if v[i + k] != p[k] {
            assert(v@.subrange(i as int, i + p.len())[k as int] != p@[k as int]);
            return false;
        }
        k = k + 1;
    }
    assert(v@.subrange(i as int, i + p.len()) =~= p@);
    true
}

pub fn contains_str(s: &str, t: &str) -> (r: bool)
    ensures
        r == has_infix(s@, t@),
{
    let v = chars_of(s);
    let p = chars_of(t);
    if p.len() > v.len() {
        return false;
    }
    let last = v.len() - p.len();
    let mut i: usize = 0;
    loop
        invariant
            i <= last,
            last + p.len() == v.len(),
            v@ == s@,
            p@ == t@,
            forall|j: int| 0 <= j < i ==> !occurs_at(s@, t@, j),
        decreases last - i,
    {
        if matches_at(&v, &p, i) {
            return true;
        }
        if i == last {
            assert forall|j: int| !occurs_at(s@, t@, j) by {
                if 0 <= j && j + t@.len() <= s@.len() {
                    assert(j <= i);
                }
            }
            return false;
        }
        i = i + 1;
    }
}

// ---------------------------------------------------------------------------
// Numbers written out
// ---------------------------------------------------------------------------

pub open spec fn digit_char(d: nat) -> char {
    ((d + 48) as u32) as char
}

/// The decimal digits of a number, most significant first, without sign
/// or leading zeros (`to_string` of an unsigned integer).
pub open spec fn decimal(n: nat) -> Seq<char>
    decreases n,
{
    if n < 10 {
        seq![digit_char(n)]
    } else {
        decimal(n / 10).push(digit_char(n % 10))
    }
}

/// `n.to_string()` for an unsigned integer.
pub fn u64_to_decimal(n: u64) -> (r: String)
    ensures
        r@ == decimal(n as nat),
{
    // Digits, least significant first.
    let mut digits: Vec<char> = Vec::new();
    let mut m: u64 = n;
    while m >= 10
        invariant
            decimal(n as nat) == decimal(m as nat) + digits@.reverse(),
        decreases m,
    {
        let d: u8 = (m % 10) as u8;
        let c: char = (d + 48) as char;
        let ghost old_digits = digits@;
        digits.push(c);
        proof {
            assert(c == digit_char((m % 10) as nat));
            assert(digits@.reverse() =~= seq![c] + old_digits.reverse());
            assert(decimal(m as nat) == decimal((m / 10) as nat).push(c));
            assert(decimal(m as nat) + old_digits.reverse() =~= decimal((m / 10) as nat)
                + digits@.reverse());
        }
        m = m / 10;
    }
    let d: u8 = m as u8;
    let c: char = (d + 48) as char;
    let ghost old_digits = digits@;
    digits.push(c);
    proof {
        assert(c == digit_char(m as nat));
        assert(digits@.reverse() =~= seq![c] + old_digits.reverse());
        assert(decimal(m as nat) =~= seq![c]);
    }
    let mut out = String::new();
    let mut i: usize = digits.len();
    while i > 0
        invariant
            i <= digits.len(),
            out@ == digits@.reverse().take((digits.len() - i) as int),
        decreases i,
    {
        i = i - 1;
        out.push(digits[i]);
        assert(out@ =~= digits@.reverse().take((digits.len() - i) as int));
    }
    assert(digits@.reverse().take(digits.len() as int) =~= digits@.reverse());
    out
}

/// `to_string` of a signed integer: a `-` before the digits of a negative one.
pub open spec fn int_decimal(n: int) -> Seq<char> {
    if n < 0 {
        seq!['-'] + decimal((-n) as nat)
    } else {
        decimal(n as nat)
    }
}

/// `n.to_string()` for a signed integer.
pub fn i64_to_decimal(n: i64) -> (r: String)
    ensures
        r@ == int_decimal(n as int),
{
    if n < 0 {
        let magnitude: u64 = if n == i64::MIN {
            0x8000_0000_0000_0000u64
        } else {
            (-n) as u64
        };
        let digits = u64_to_decimal(magnitude);
        let mut out = String::new();
        out.push('-');
        push_str(&mut out, digits.as_str());
        assert(out@ =~= seq!['-'] + decimal((-n) as nat));
        out
    } else {
        u64_to_decimal(n as u64)
    }
}

// ---------------------------------------------------------------------------
// Joining and stripping
// ---------------------------------------------------------------------------

/// The texts joined with the separator between each two.
pub open spec fn join_with(ws: Seq<Seq<char>>, sep: Seq<char>) -> Seq<char>
    decreases ws.len(),
{
    if ws.len() == 0 {
        Seq::empty()
    } else if ws.len() == 1 {
        ws[0]
    } else {
        join_with(ws.drop_last(), sep) + sep + ws.last()
    }
}

pub open spec fn views(v: Seq<String>) -> Seq<Seq<char>> {
    v.map_values(|s: String| s@)
}

/// The first place of `c` in the text.
pub open spec fn first_index(s: Seq<char>, c: char) -> Option<int>
    decreases s.len(),
{
    if s.len() == 0 {
        None
    } else {
        match first_index(s.drop_last(), c) {
            Some(i) => Some(i),
            None => if s.last() == c {
                Some(s.len() - 1)
            } else {
                None
            },
        }
    }
}

pub proof fn lemma_first_index(s: Seq<char>, c: char)
    ensures
        match first_index(s, c) {
            Some(i) => 0 <= i < s.len() && s[i] == c && forall|k: int| 0 <= k < i ==> s[k] != c,
            None => forall|k: int| 0 <= k < s.len() ==> s[k] != c,
        },
    decreases s.len(),
{
    if s.len() > 0 {
        lemma_first_index(s.drop_last(), c);
        assert forall|k: int| 0 <= k < s.len() - 1 implies s.drop_last()[k] == s[k] by {}
    }
}

/// Whether one of the strings equals `s`.
pub fn contains_string(items: &[String], s: &str) -> (r: bool)
    ensures
        r == views(items@).contains(s@),
{
    let mut i: usize = 0;
    while i < items.len()
        invariant
            i <= items@.len(),
            forall|k: int| 0 <= k < i ==> views(items@)[k] != s@,
        decreases items@.len() - i,
    {
        if str_eq(items[i].as_str(), s) {
            assert(views(items@)[i as int] == s@);
            return true;
        }
        i = i + 1;
    }
    false
}

/// `slice.join(sep)` for strings.
pub fn join_strings(items: &[String], sep: &str) -> (r: String)
    ensures
        r@ == join_with(views(items@), sep@),
{
    let mut out = String::new();
    let mut i: usize = 0;
    while i < items.len()
        invariant
            i <= items@.len(),
            out@ == join_with(views(items@.take(i as int)), sep@),
        decreases items@.len() - i,
    {
        let ghost prev = views(items@.take(i as int));
        if i > 0 {
            push_str(&mut out, sep);
        }
        push_str(&mut out, items[i].as_str());
        i = i + 1;
        proof {
            let cur = views(items@.take(i as int));
            assert(cur.drop_last() =~= prev);
            assert(cur.last() == items@[i - 1]@);
            if i == 1 {
                assert(cur.len() == 1);
                assert(out@ =~= cur[0]);
            }
        }
    }
    assert(items@.take(items@.len() as int) =~= items@);
    out
}

/// The text without any run of `c` at its end (`trim_end_matches(c)`).
pub open spec fn strip_end_char(s: Seq<char>, c: char) -> Seq<char>
    decreases s.len(),
{
    if s.len() > 0 && s.last() == c {
        strip_end_char(s.drop_last(), c)
    } else {
        s
    }
}

/// The text without any repetition of `p` at its end (`trim_end_matches(p)`).
pub open spec fn strip_end_seq(s: Seq<char>, p: Seq<char>) -> Seq<char>
    decreases s.len(),
{
    if p.len() > 0 && p.len() <= s.len() && s.subrange(s.len() - p.len(), s.len() as int) == p {
        strip_end_seq(s.subrange(0, s.len() - p.len()), p)
    } else {
        s
    }
}

pub fn trim_end_char(s: &str, c: char) -> (r: String)
    ensures
        r@ == strip_end_char(s@, c),
{
    let v = chars_of(s);
    let mut j: usize = v.len();
    assert(v@.subrange(0, j as int) =~= v@);
    while j > 0 && v[j - 1] == c
        invariant
            j <= v.len(),
            v@ == s@,
            strip_end_char(s@, c) == strip_end_char(v@.subrange(0, j as int), c),
        decreases j,
    {
        assert(v@.subrange(0, j as int).drop_last() =~= v@.subrange(0, j - 1));
        j = j - 1;
    }
    string_of_range(&v, 0, j)
}

pub fn trim_end_str(s: &str, p: &str) -> (r: String)
    ensures
        r@ == strip_end_seq(s@, p@),
{
    let v = chars_of(s);
    let pv = chars_of(p);
    let m = pv.len();
    let mut j: usize = v.len();
    assert(v@.subrange(0, j as int) =~= v@);
    loop
        invariant
            j <= v.len(),
            v@ == s@,
            pv@ == p@,
            m == pv.len(),
            strip_end_seq(s@, p@) == strip_end_seq(v@.subrange(0, j as int), p@),
        ensures
            j <= v.len(),
            strip_end_seq(s@, p@) == v@.subrange(0, j as int),
        decreases j,
    {
        if m == 0 || m > j {
            break;
        }
        let start = j - m;
        let ends = matches_at(&v, &pv, start);
        if !ends {
            assert(v@.subrange(0, j as int).subrange(start as int, j as int) =~= v@.subrange(
                start as int,
                start + m,
            ));
            break;
        }
        assert(v@.subrange(0, j as int).subrange(start as int, j as int) =~= v@.subrange(
            start as int,
            start + m,
        ));
        assert(v@.subrange(0, j as int).subrange(0, start as int) =~= v@.subrange(0, start as int));
        j = start;
    }
    string_of_range(&v, 0, j)
}

/// The text ends with the given suffix.
pub fn ends_with(s: &str, suffix: &str) -> (r: bool)
    ensures
        r == (suffix@.len() <= s@.len() && s@.subrange(s@.len() - suffix@.len(), s@.len() as int)
            == suffix@),
{
    let v = chars_of(s);
    let p = chars_of(suffix);
    if p.len() > v.len() {
        return false;
    }
    let start = v.len() - p.len();
    matches_at(&v, &p, start)
}

// ---------------------------------------------------------------------------
// Character removal, replacement and search
// ---------------------------------------------------------------------------

/// The text without any occurrence of `c` (`replace(c, "")`).
pub open spec fn without_char(s: Seq<char>, c: char) -> Seq<char> {
    s.filter(|x: char| x != c)
}

/// The text with every `from` turned into `to` (`replace(from, to)`).
pub open spec fn replace_char(s: Seq<char>, from: char, to: char) -> Seq<char> {
    s.map_values(|x: char| if x == from { to } else { x })
}

/// The position of the last `c`, or -1 when there is none. Positions compare
/// as byte offsets do, and "none" below any position, as `rfind` results do.
pub open spec fn last_index(s: Seq<char>, c: char) -> int
    decreases s.len(),
{
    if s.len() == 0 {
        -1
    } else if s.last() == c {
        s.len() - 1
    } else {
        last_index(s.drop_last(), c)
    }
}

pub fn remove_char(s: &str, c: char) -> (r: String)
    ensures
        r@ == without_char(s@, c),
{
    let v = chars_of(s);
    let mut out = String::new();
    let mut i: usize = 0;
    proof {
        reveal_with_fuel(Seq::filter, 1);
        assert(without_char(s@.take(0), c) =~= Seq::<char>::empty());
    }
    while i < v.len()
        invariant
            i <= v.len(),
            v@ == s@,
            out@ == without_char(s@.take(i as int), c),
        decreases v.len() - i,
    {
        proof {
            reveal_with_fuel(Seq::filter, 1);
            assert(s@.take(i + 1).drop_last() =~= s@.take(i as int));
        }
        if v[i] != c {
            out.push(v[i]);
        }
        i = i + 1;
    }
    assert(s@.take(v.len() as int) =~= s@);
    out
}

pub fn replace_char_str(s: &str, from: char, to: char) -> (r: String)
    ensures
        r@ == replace_char(s@, from, to),
{
    let v = chars_of(s);
    let mut out = String::new();
    let mut i: usize = 0;
    while i < v.len()
        invariant
            i <= v.len(),
            v@ == s@,
            out@ == replace_char(s@.take(i as int), from, to),
        decreases v.len() - i,
    {
        let c = if v[i] == from { to } else { v[i] };
        out.push(c);
        i = i + 1;
        assert(replace_char(s@.take(i as int), from, to) =~= replace_char(s@.take(i - 1), from, to).push(c));
    }
    assert(s@.take(v.len() as int) =~= s@);
    out
}

pub proof fn lemma_last_index_bound(s: Seq<char>, c: char)
    ensures
        -1 <= last_index(s, c) < s.len(),
        last_index(s, c) >= 0 ==> s[last_index(s, c)] == c,
    decreases s.len(),
{
    if s.len() > 0 && s.last() != c {
        lemma_last_index_bound(s.drop_last(), c);
    }
}

/// Whether the last `a` of the text comes after its last `b` (`rfind(a) >
/// rfind(b)`, with "none" below any position).
pub fn last_is_after(s: &str, a: char, b: char) -> (r: bool)
    requires
        a != b,
    ensures
        r == (last_index(s@, a) > last_index(s@, b)),
{
    let v = chars_of(s);
    let mut j: usize = v.len();
    assert(v@.subrange(0, j as int) =~= v@);
    while j > 0
        invariant
            j <= v.len(),
            v@ == s@,
            a != b,
            last_index(s@, a) == last_index(v@.subrange(0, j as int), a),
            last_index(s@, b) == last_index(v@.subrange(0, j as int), b),
        decreases j,
    {
        let ghost sub = v@.subrange(0, j as int);
        assert(sub.drop_last() =~= v@.subrange(0, j - 1));
        if v[j - 1] == a {
            proof {
                lemma_last_index_bound(sub.drop_last(), b);
            }
            return true;
        }
        if v[j - 1] == b {
            proof {
                lemma_last_index_bound(sub.drop_last(), a);
            }
            return false;
        }
        j = j - 1;
    }
    false
}

} // verus!
