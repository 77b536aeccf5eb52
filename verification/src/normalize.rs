//! Normalisation of free text typed by users or read from imports.
use vstd::prelude::*;
use crate::text::{
    ascii_lower, ascii_upper, chars_of, is_alnum_char, is_ascii_alnum, is_whitespace_char, is_ws, push_str,
    str_eq, string_of, to_ascii_lower_char, to_ascii_upper_char, to_lowercase, to_owned_string,
    to_uppercase, trim, trim_str, trim_start, trim_end, is_ascii_upper, is_ascii_lower, is_ascii_digit, ascii_lower_seq, ascii_upper_seq, all_ascii, unicode_lower, unicode_upper, opt_seq, opt_ref_seq,
};

verus! {

// ---------------------------------------------------------------------------
// Words and single spaces
// ---------------------------------------------------------------------------

/// The maximal runs of non-whitespace characters, in order
/// (what `str::split_whitespace` yields).
pub open spec fn words(s: Seq<char>) -> Seq<Seq<char>>
    decreases s.len(),
{
    if s.len() == 0 {
        Seq::empty()
    } else {
        let p = s.drop_last();
        let c = s.last();
        let w = words(p);
        if is_ws(c) {
            w
        } else if p.len() > 0 && !is_ws(p.last()) {
            w.update(w.len() - 1, w.last().push(c))
        } else {
            w.push(seq![c])
        }
    }
}

/// The words joined by one space each (`join(" ")`).
pub open spec fn join_words(ws: Seq<Seq<char>>) -> Seq<char>
    decreases ws.len(),
{
    if ws.len() == 0 {
        Seq::empty()
    } else if ws.len() == 1 {
        ws[0]
    } else {
        join_words(ws.drop_last()) + seq![' '] + ws.last()
    }
}

/// The text with every run of whitespace turned into one space and none at
/// either end.
pub open spec fn single_spaced(s: Seq<char>) -> Seq<char> {
    join_words(words(s))
}

proof fn lemma_words_nonempty(p: Seq<char>)
    requires
        p.len() > 0,
        !is_ws(p.last()),
    ensures
        words(p).len() > 0,
    decreases p.len(),
{
    let pp = p.drop_last();
    if pp.len() > 0 && !is_ws(pp.last()) {
        lemma_words_nonempty(pp);
    }
}

proof fn lemma_join_extend(ws: Seq<Seq<char>>, c: char)
    requires
        ws.len() > 0,
    ensures
        join_words(ws.update(ws.len() - 1, ws.last().push(c))) == join_words(ws).push(c),
{
    let ws2 = ws.update(ws.len() - 1, ws.last().push(c));
    if ws.len() == 1 {
    } else {
        assert(ws2.drop_last() =~= ws.drop_last());
        assert(join_words(ws2) =~= join_words(ws).push(c));
    }
}

proof fn lemma_join_push(ws: Seq<Seq<char>>, w: Seq<char>)
    ensures
        join_words(ws.push(w)) == (if ws.len() == 0 {
            w
        } else {
            join_words(ws) + seq![' '] + w
        }),
{
    assert(ws.push(w).drop_last() =~= ws);
    if ws.len() == 0 {
        assert(ws.push(w)[0] == w);
    }
}

/// A word: not empty, without whitespace.
pub open spec fn is_word(w: Seq<char>) -> bool {
    w.len() > 0 && forall|k: int| 0 <= k < w.len() ==> !is_ws(#[trigger] w[k])
}

proof fn lemma_words_are_words(s: Seq<char>)
    ensures
        forall|i: int| 0 <= i < words(s).len() ==> is_word(#[trigger] words(s)[i]),
    decreases s.len(),
{
    if s.len() > 0 {
        let p = s.drop_last();
        let c = s.last();
        lemma_words_are_words(p);
        let w = words(p);
        if !is_ws(c) && p.len() > 0 && !is_ws(p.last()) {
            lemma_words_nonempty(p);
            let last = w.last().push(c);
            assert(is_word(w[w.len() - 1]));
            assert forall|k: int| 0 <= k < last.len() implies !is_ws(#[trigger] last[k]) by {
                if k < last.len() - 1 {
                    assert(last[k] == w[w.len() - 1][k]);
                }
            }
            assert(is_word(last));
        } else if !is_ws(c) {
            assert(is_word(seq![c]));
        }
    }
}

/// The words of a text that ends with a word after a whitespace character.
proof fn lemma_words_after_space(s: Seq<char>, w: Seq<char>)
    requires
        is_word(w),
        s.len() > 0,
        is_ws(s.last()),
    ensures
        words(s + w) == words(s).push(w),
    decreases w.len(),
{
    let t = s + w;
    let c = w.last();
    assert(t.last() == c);
    assert(!is_ws(c));
    if w.len() == 1 {
        assert(t.drop_last() =~= s);
        assert(w =~= seq![c]);
    } else {
        let w2 = w.drop_last();
        assert(is_word(w2)) by {
            assert forall|k: int| 0 <= k < w2.len() implies !is_ws(#[trigger] w2[k]) by {
                assert(w2[k] == w[k]);
            }
        }
        lemma_words_after_space(s, w2);
        assert(t.drop_last() =~= s + w2);
        assert((s + w2).last() == w2.last());
        assert(!is_ws(w2[w2.len() - 1]));
        assert(w2.push(c) =~= w);
        assert(words(s).push(w2).update(words(s).len() as int, w2.push(c)) =~= words(s).push(w));
    }
}

/// The words of a single word.
proof fn lemma_words_of_word(w: Seq<char>)
    requires
        is_word(w),
    ensures
        words(w) == seq![w],
    decreases w.len(),
{
    let c = w.last();
    assert(!is_ws(c));
    if w.len() == 1 {
        assert(w.drop_last() =~= Seq::<char>::empty());
        assert(words(w.drop_last()) =~= Seq::<Seq<char>>::empty());
        assert(w =~= seq![c]);
        assert(words(w) == Seq::<Seq<char>>::empty().push(seq![c]));
        assert(Seq::<Seq<char>>::empty().push(seq![c]) =~= seq![w]);
    } else {
        let w2 = w.drop_last();
        assert(is_word(w2)) by {
            assert forall|k: int| 0 <= k < w2.len() implies !is_ws(#[trigger] w2[k]) by {
                assert(w2[k] == w[k]);
            }
        }
        lemma_words_of_word(w2);
        assert(w2.last() == w[w.len() - 2]);
        assert(!is_ws(w2[w2.len() - 1]));
        assert(w2.push(c) =~= w);
        assert(seq![w2].update(0, w2.push(c)) =~= seq![w]);
    }
}

proof fn lemma_words_of_joined(ws: Seq<Seq<char>>)
    requires
        forall|i: int| 0 <= i < ws.len() ==> is_word(#[trigger] ws[i]),
    ensures
        words(join_words(ws)) == ws,
    decreases ws.len(),
{
    if ws.len() == 0 {
        assert(words(Seq::<char>::empty()) =~= ws);
    } else if ws.len() == 1 {
        lemma_words_of_word(ws[0]);
        assert(seq![ws[0]] =~= ws);
    } else {
        let init = ws.drop_last();
        assert forall|i: int| 0 <= i < init.len() implies is_word(#[trigger] init[i]) by {
            assert(init[i] == ws[i]);
        }
        lemma_words_of_joined(init);
        let a = join_words(init) + seq![' '];
        assert(a.last() == ' ');
        assert(is_word(ws[ws.len() - 1]));
        lemma_words_after_space(a, ws.last());
        assert(a + ws.last() =~= join_words(init) + seq![' '] + ws.last());
        assert(a.drop_last() =~= join_words(init));
        assert(words(a) == words(join_words(init)));
        assert(init.push(ws.last()) =~= ws);
    }
}

/// Single-spacing a text that is already single-spaced changes nothing, so a
/// name stored normalised compares equal to itself normalised again.
pub proof fn law_single_spacing_idempotent(s: Seq<char>)
    ensures
        single_spaced(single_spaced(s)) == single_spaced(s),
{
    lemma_words_are_words(s);
    lemma_words_of_joined(words(s));
}

/// `split_whitespace().collect::<Vec<_>>().join(" ")`.
pub fn normalize_spaces(value: &str) -> (res: String)
    ensures
        res@ == single_spaced(value@),
{
    let v = chars_of(value);
    let mut out = String::new();
    let mut have_word = false;
    let mut i: usize = 0;
    while i < v.len()
        invariant
            i <= v.len(),
            v@ == value@,
            out@ == join_words(words(value@.take(i as int))),
            have_word == (words(value@.take(i as int)).len() > 0),
        decreases v.len() - i,
    {
        let c = v[i];
        let ghost p = value@.take(i as int);
        let ghost q = value@.take(i + 1);
        proof {
            assert(q.drop_last() =~= p);
            assert(q.last() == c);
        }
        if is_whitespace_char(c) {
        } else if i > 0 && !is_whitespace_char(v[i - 1]) {
            proof {
                assert(p.last() == v@[i - 1]);
                lemma_words_nonempty(p);
                lemma_join_extend(words(p), c);
            }
            out.push(c);
        } else {
            proof {
                if i > 0 {
                    assert(p.last() == v@[i - 1]);
                }
                lemma_join_push(words(p), seq![c]);
            }
            if have_word {
                out.push(' ');
            }
            out.push(c);
            have_word = true;
            proof {
                assert(seq![' '] + seq![c] =~= seq![' ', c]);
                if words(p).len() == 0 {
                    assert(out@ =~= seq![c]);
                } else {
                    assert(out@ =~= join_words(words(p)) + seq![' '] + seq![c]);
                }
            }
        }
        i = i + 1;
    }
    assert(value@.take(v.len() as int) =~= value@);
    out
}

/// Trimmed and lower-cased e-mail address.
pub fn normalize_email(email: &str) -> (res: String)
    ensures
        res@ == unicode_lower(trim(email@)),
        all_ascii(email@) ==> res@ == ascii_lower_seq(trim(email@)),
{
    let t = trim_str(email);
    proof {
        lemma_trim_ascii(email@);
    }
    to_lowercase(t.as_str())
}

/// Trimmed and lower-cased text.
pub fn normalize_email_trim(value: &str) -> (res: String)
    ensures
        res@ == unicode_lower(trim(value@)),
        all_ascii(value@) ==> res@ == ascii_lower_seq(trim(value@)),
{
    let t = trim_str(value);
    proof {
        lemma_trim_ascii(value@);
    }
    to_lowercase(t.as_str())
}

/// Trimmed and upper-cased text (codes, keys).
pub fn normalize_upper_trim(value: &str) -> (res: String)
    ensures
        res@ == unicode_upper(trim(value@)),
        all_ascii(value@) ==> res@ == ascii_upper_seq(trim(value@)),
{
    let t = trim_str(value);
    proof {
        lemma_trim_ascii(value@);
    }
    to_uppercase(t.as_str())
}

/// Single-spaced and upper-cased text (names and descriptions).
pub fn normalize_title_trim(value: &str) -> (res: String)
    ensures
        res@ == unicode_upper(single_spaced(value@)),
        all_ascii(value@) ==> res@ == ascii_upper_seq(single_spaced(value@)),
{
    let t = normalize_spaces(value);
    proof {
        lemma_single_spaced_ascii(value@);
    }
    to_uppercase(t.as_str())
}

/// Single-spaced text.
pub fn normalize_plain_trim(value: &str) -> (res: String)
    ensures
        res@ == single_spaced(value@),
{
    normalize_spaces(value)
}

// ---------------------------------------------------------------------------
// Names
// ---------------------------------------------------------------------------

/// The trimmed parts that are not empty, joined by one space.
pub open spec fn full_name(a: Seq<char>, b: Seq<char>, c: Seq<char>) -> Seq<char> {
    join_words(seq![trim(a), trim(b), trim(c)].filter(|w: Seq<char>| w.len() > 0))
}

pub fn build_full_name(nombres: &str, apellido_paterno: &str, apellido_materno: &str) -> (res: String)
    ensures
        res@ == full_name(nombres@, apellido_paterno@, apellido_materno@),
{
    let a = trim_str(nombres);
    let b = trim_str(apellido_paterno);
    let c = trim_str(apellido_materno);
    let ghost parts = seq![a@, b@, c@];
    let ghost pred = |w: Seq<char>| w.len() > 0;
    let mut out = String::new();
    let mut any = false;
    proof {
        reveal_with_fuel(Seq::filter, 4);
        assert(parts.take(0).filter(pred) =~= Seq::<Seq<char>>::empty());
    }
    // first part
    if !a.as_str().is_empty() {
        push_str(&mut out, a.as_str());
        any = true;
    }
    proof {
        assert(parts.take(1).drop_last() =~= parts.take(0));
        assert(parts.take(1).last() == a@);
        lemma_join_push(parts.take(0).filter(pred), a@);
        assert(out@ == join_words(parts.take(1).filter(pred)));
        assert(any == (parts.take(1).filter(pred).len() > 0));
    }
    if !b.as_str().is_empty() {
        if any {
            out.push(' ');
        }
        push_str(&mut out, b.as_str());
        any = true;
    }
    proof {
        assert(parts.take(2).drop_last() =~= parts.take(1));
        assert(parts.take(2).last() == b@);
        lemma_join_push(parts.take(1).filter(pred), b@);
        assert(seq![' '] + b@ =~= seq![' '].add(b@));
        assert(out@ =~= join_words(parts.take(2).filter(pred)));
        assert(any == (parts.take(2).filter(pred).len() > 0));
    }
    if !c.as_str().is_empty() {
        if any {
            out.push(' ');
        }
        push_str(&mut out, c.as_str());
    }
    proof {
        assert(parts.take(3).drop_last() =~= parts.take(2));
        assert(parts.take(3).last() == c@);
        lemma_join_push(parts.take(2).filter(pred), c@);
        assert(out@ =~= join_words(parts.take(3).filter(pred)));
        assert(parts.take(3) =~= parts);
    }
    out
}

/// A name read from an import: single-spaced and upper-cased, absent when
/// nothing is left.
pub open spec fn optional_name(value: Option<Seq<char>>) -> Option<Seq<char>> {
    match value {
        Some(v) => if unicode_upper(single_spaced(v)).len() > 0 {
            Some(unicode_upper(single_spaced(v)))
        } else {
            None
        },
        None => None,
    }
}

pub fn optional_normalized_name(value: Option<&String>) -> (res: Option<String>)
    ensures
        opt_seq(res) == optional_name(opt_ref_seq(value)),
{
    match value {
        Some(v) => {
            let n = normalize_title_trim(v.as_str());
            if !n.as_str().is_empty() {
                Some(n)
            } else {
                None
            }
        },
        None => None,
    }
}

/// The trimmed filter value, absent when nothing is left.
pub open spec fn filter_value(value: Option<Seq<char>>) -> Option<Seq<char>> {
    match value {
        Some(v) => if trim(v).len() > 0 {
            Some(trim(v))
        } else {
            None
        },
        None => None,
    }
}

pub fn normalize_filter(value: &Option<String>) -> (res: Option<String>)
    ensures
        opt_seq(res) == filter_value(opt_seq(*value)),
{
    match value {
        Some(item) => {
            let t = trim_str(item.as_str());
            if !t.as_str().is_empty() {
                Some(t)
            } else {
                None
            }
        },
        None => None,
    }
}

// ---------------------------------------------------------------------------
// Legacy catalogue identifiers
// ---------------------------------------------------------------------------

/// What one character of a legacy name contributes to its identifier.
pub open spec fn catalog_piece(c: char) -> Seq<char> {
    if is_ascii_alnum(c) {
        seq![ascii_upper(c)]
    } else if c == ' ' || c == '-' || c == '_' || c == '/' {
        seq!['_']
    } else {
        Seq::empty()
    }
}

pub open spec fn catalog_chars(s: Seq<char>) -> Seq<char>
    decreases s.len(),
{
    if s.len() == 0 {
        Seq::empty()
    } else {
        catalog_chars(s.drop_last()) + catalog_piece(s.last())
    }
}

/// The text with every run of underscores reduced to one underscore.
pub open spec fn collapse_underscores(s: Seq<char>) -> Seq<char>
    decreases s.len(),
{
    if s.len() == 0 {
        Seq::empty()
    } else {
        let p = collapse_underscores(s.drop_last());
        if s.last() == '_' && p.len() > 0 && p.last() == '_' {
            p
        } else {
            p.push(s.last())
        }
    }
}

pub open spec fn strip_start_underscores(s: Seq<char>) -> Seq<char>
    decreases s.len(),
{
    if s.len() > 0 && s[0] == '_' {
        strip_start_underscores(s.drop_first())
    } else {
        s
    }
}

pub open spec fn strip_end_underscores(s: Seq<char>) -> Seq<char>
    decreases s.len(),
{
    if s.len() > 0 && s.last() == '_' {
        strip_end_underscores(s.drop_last())
    } else {
        s
    }
}

/// The body of a legacy catalogue identifier.
pub open spec fn catalog_core(raw: Seq<char>) -> Seq<char> {
    strip_end_underscores(strip_start_underscores(collapse_underscores(catalog_chars(trim(raw)))))
}

/// `PREFIX-BODY`, or `PREFIX-GEN` when the body is empty.
pub open spec fn catalog_id(prefix: Seq<char>, raw: Seq<char>) -> Seq<char> {
    if catalog_core(raw).len() == 0 {
        prefix + "-GEN"@
    } else {
        prefix + seq!['-'] + catalog_core(raw)
    }
}

/// Maps the characters of `raw` and collapses underscores in one pass.
fn catalog_collapsed(raw: &Vec<char>) -> (res: Vec<char>)
    ensures
        res@ == collapse_underscores(catalog_chars(raw@)),
{
    let mut out: Vec<char> = Vec::new();
    let mut i: usize = 0;
    while i < raw.len()
        invariant
            i <= raw.len(),
            out@ == collapse_underscores(catalog_chars(raw@.take(i as int))),
        decreases raw.len() - i,
    {
        let c = raw[i];
        let ghost p = raw@.take(i as int);
        proof {
            assert(raw@.take(i + 1).drop_last() =~= p);
            assert(raw@.take(i + 1).last() == c);
        }
        if is_alnum_char(c) {
            let u = to_ascii_upper_char(c);
            proof {
                assert(catalog_chars(p) + seq![u] =~= catalog_chars(p).push(u));
                assert(catalog_chars(p).push(u).drop_last() =~= catalog_chars(p));
                assert(u != '_');
            }
            out.push(u);
        } else if c == ' ' || c == '-' || c == '_' || c == '/' {
            proof {
                assert(catalog_chars(p) + seq!['_'] =~= catalog_chars(p).push('_'));
                assert(catalog_chars(p).push('_').drop_last() =~= catalog_chars(p));
            }
            if out.len() > 0 && out[out.len() - 1] == '_' {
            } else {
                out.push('_');
            }
        } else {
            proof {
                assert(catalog_chars(p) + Seq::<char>::empty() =~= catalog_chars(p));
            }
        }
        i = i + 1;
    }
    assert(raw@.take(raw.len() as int) =~= raw@);
    out
}

/// `trim_matches('_')` over a character vector.
fn strip_underscores(v: &Vec<char>) -> (res: Vec<char>)
    ensures
        res@ == strip_end_underscores(strip_start_underscores(v@)),
{
    let n = v.len();
    let mut i: usize = 0;
    assert(v@.subrange(0, n as int) =~= v@);
    while i < n && v[i] == '_'
        invariant
            i <= n == v.len(),
            strip_start_underscores(v@) == strip_start_underscores(v@.subrange(i as int, n as int)),
        decreases n - i,
    {
        assert(v@.subrange(i as int, n as int).drop_first() =~= v@.subrange(i + 1, n as int));
        i = i + 1;
    }
    let ghost mid = v@.subrange(i as int, n as int);
    assert(strip_start_underscores(v@) == mid);
    let mut j: usize = n;
    while j > i && v[j - 1] == '_'
        invariant
            i <= j <= n == v.len(),
            mid == v@.subrange(i as int, n as int),
            strip_end_underscores(mid) == strip_end_underscores(v@.subrange(i as int, j as int)),
        decreases j,
    {
        assert(v@.subrange(i as int, j as int).drop_last() =~= v@.subrange(i as int, j - 1));
        j = j - 1;
    }
    let mut out: Vec<char> = Vec::new();
    let mut k: usize = i;
    while k < j
        invariant
            i <= k <= j <= n == v.len(),
            out@ == v@.subrange(i as int, k as int),
        decreases j - k,
    {
        out.push(v[k]);
        k = k + 1;
        assert(v@.subrange(i as int, k as int) =~= v@.subrange(i as int, k - 1).push(v@[k - 1]));
    }
    out
}

/// Identifier for a catalogue entry created from a legacy name:
/// `PREFIX-` followed by the upper-cased letters and digits of the name,
/// separators as single underscores.
pub fn legacy_catalog_id(prefix: &str, raw: &str) -> (res: String)
    ensures
        res@ == catalog_id(prefix@, raw@),
{
    let t = trim_str(raw);
    let chars = chars_of(t.as_str());
    let collapsed = catalog_collapsed(&chars);
    let core = strip_underscores(&collapsed);
    let mut out = to_owned_string(prefix);
    if core.len() == 0 {
        push_str(&mut out, "-GEN");
    } else {
        out.push('-');
        let body = string_of(&core);
        push_str(&mut out, body.as_str());
    }
    out
}

/// The name an imported catalogue entry is filed under: the single-spaced,
/// upper-cased name, or the catalogue's default when nothing is left.
pub open spec fn catalog_import_name(table: Seq<char>, name: Seq<char>) -> Seq<char> {
    let clean = unicode_upper(single_spaced(name));
    if clean.len() > 0 {
        clean
    } else if table == "marcas"@ {
        "SIN MARCA"@
    } else if table == "unidades"@ {
        "PIEZA"@
    } else {
        "GENERAL"@
    }
}

/// The name (and so the identifier) under which an import files a brand,
/// category or unit.
pub fn import_catalog_name(table: &str, name: &str) -> (r: String)
    ensures
        r@ == catalog_import_name(table@, name@),
{
    let clean = normalize_title_trim(name);
    if !clean.as_str().is_empty() {
        clean
    } else if str_eq(table, "marcas") {
        to_owned_string("SIN MARCA")
    } else if str_eq(table, "unidades") {
        to_owned_string("PIEZA")
    } else {
        to_owned_string("GENERAL")
    }
}

// ---------------------------------------------------------------------------
// Flags and keys read from imports
// ---------------------------------------------------------------------------

/// The normalised text of a legacy flag: trimmed, upper-cased, with `Í` read as `I`.
pub open spec fn fold_i_acute(s: Seq<char>) -> Seq<char> {
    s.map_values(|c: char| if c == 'Í' { 'I' } else { c })
}

pub open spec fn truthy_text(value: Option<Seq<char>>) -> Seq<char> {
    match value {
        Some(v) => fold_i_acute(unicode_upper(trim(v))),
        None => Seq::empty(),
    }
}

/// The spellings of "yes" that legacy data uses.
pub open spec fn is_truthy_word(t: Seq<char>) -> bool {
    ||| t == "1"@
    ||| t == "SI"@
    ||| t == "S"@
    ||| t == "TRUE"@
    ||| t == "VERDADERO"@
    ||| t == "YES"@
    ||| t == "Y"@
    ||| t == "X"@
}

/// Of an ASCII text, the upper case is the ASCII upper case and no `Í` is
/// left to fold.
proof fn lemma_truthy_ascii(v: Seq<char>)
    requires
        all_ascii(v),
    ensures
        all_ascii(ascii_upper_seq(trim(v))),
        fold_i_acute(ascii_upper_seq(trim(v))) == ascii_upper_seq(trim(v)),
{
    lemma_trim_ascii(v);
    let t = trim(v);
    let u = ascii_upper_seq(t);
    assert forall|k: int| 0 <= k < u.len() implies (#[trigger] u[k] as u32) < 128 by {
        assert(u[k] == ascii_upper(t[k]));
        assert((t[k] as u32) < 128);
        lemma_upper_ws(t[k]);
    }
    assert forall|k: int| 0 <= k < u.len() implies #[trigger] fold_i_acute(u)[k] == u[k] by {
        assert((u[k] as u32) < 128);
        assert(('Í' as u32) == 205);
    }
    assert(fold_i_acute(u) =~= u);
}

pub fn legacy_truthy(value: Option<&String>) -> (res: i64)
    ensures
        res == (if is_truthy_word(truthy_text(opt_ref_seq(value))) { 1i64 } else { 0i64 }),
        value matches Some(v) ==> (all_ascii(v@) ==> res == (if is_truthy_word(ascii_upper_seq(trim(v@))) {
            1i64
        } else {
            0i64
        })),
{
    proof {
        match value {
            Some(v) => if all_ascii(v@) {
                lemma_truthy_ascii(v@);
            },
            None => {},
        }
    }
    let normalized: Vec<char> = match value {
        Some(v) => {
            let up = normalize_upper_trim(v.as_str());
            let cs = chars_of(up.as_str());
            let mut out: Vec<char> = Vec::new();
            let mut i: usize = 0;
            while i < cs.len()
                invariant
                    i <= cs.len(),
                    out@ == fold_i_acute(cs@.take(i as int)),
                decreases cs.len() - i,
            {
                let c = cs[i];
                out.push(if c == 'Í' { 'I' } else { c });
                i = i + 1;
                assert(fold_i_acute(cs@.take(i as int)) =~= fold_i_acute(cs@.take(i - 1)).push(
                    if c == 'Í' { 'I' } else { c },
                ));
            }
            assert(cs@.take(cs.len() as int) =~= cs@);
            out
        },
        None => Vec::new(),
    };
    let t = string_of(&normalized);
    let s = t.as_str();
    if str_eq(s, "1") || str_eq(s, "SI") || str_eq(s, "S") || str_eq(s, "TRUE") || str_eq(
        s,
        "VERDADERO",
    ) || str_eq(s, "YES") || str_eq(s, "Y") || str_eq(s, "X") {
        1
    } else {
        0
    }
}

/// The ASCII letters and digits of a column name, lower-cased.
pub open spec fn import_key(s: Seq<char>) -> Seq<char> {
    s.filter(|c: char| is_ascii_alnum(c)).map_values(|c: char| ascii_lower(c))
}

pub fn normalize_import_key(value: &str) -> (res: String)
    ensures
        res@ == import_key(value@),
{
    let v = chars_of(value);
    let mut out = String::new();
    let mut i: usize = 0;
    proof {
        reveal_with_fuel(Seq::filter, 1);
        assert(value@.take(0) =~= Seq::<char>::empty());
        assert(import_key(Seq::<char>::empty()) =~= Seq::<char>::empty());
    }
    while i < v.len()
        invariant
            i <= v.len(),
            v@ == value@,
            out@ == import_key(value@.take(i as int)),
        decreases v.len() - i,
    {
        let c = v[i];
        proof {
            let p = value@.take(i as int);
            assert(value@.take(i + 1) =~= p.push(c));
            reveal_with_fuel(Seq::filter, 1);
            assert(p.push(c).drop_last() =~= p);
        }
        if is_alnum_char(c) {
            let l = to_ascii_lower_char(c);
            out.push(l);
            proof {
                let p = value@.take(i as int);
                assert(p.push(c).filter(|c: char| is_ascii_alnum(c)) == p.filter(
                    |c: char| is_ascii_alnum(c),
                ).push(c));
                assert(import_key(p.push(c)) =~= import_key(p).push(l));
            }
        } else {
            proof {
                let p = value@.take(i as int);
                assert(p.push(c).filter(|c: char| is_ascii_alnum(c)) == p.filter(
                    |c: char| is_ascii_alnum(c),
                ));
            }
        }
        i = i + 1;
    }
    assert(value@.take(v.len() as int) =~= value@);
    out
}

// ---------------------------------------------------------------------------
// Paging
// ---------------------------------------------------------------------------

/// Page index no lower than 0; page size within 10..=100.
pub fn normalize_page_args(page: i64, page_size: i64) -> (res: (i64, i64))
    ensures
        res.0 == (if page < 0 { 0 } else { page }),
        res.1 == (if page_size < 10 { 10 } else if page_size > 100 { 100 } else { page_size }),
{
    let safe_page_size = if page_size < 10 {
        10
    } else if page_size > 100 {
        100
    } else {
        page_size
    };
    let safe_page = if page < 0 {
        0
    } else {
        page
    };
    (safe_page, safe_page_size)
}


// ---------------------------------------------------------------------------
// What a legacy catalogue identifier looks like
// ---------------------------------------------------------------------------

/// A character of an identifier body: `A..=Z`, `0..=9` or `_`.
pub open spec fn id_body_char(c: char) -> bool {
    is_ascii_upper(c) || is_ascii_digit(c) || c == '_'
}

/// A well-formed identifier body: not empty, only body characters, no `__`,
/// and no `_` at either end.
pub open spec fn id_body(s: Seq<char>) -> bool {
    &&& s.len() > 0
    &&& forall|k: int| 0 <= k < s.len() ==> id_body_char(#[trigger] s[k])
    &&& forall|k: int| 0 <= k < s.len() - 1 ==> !(#[trigger] s[k] == '_' && s[k + 1] == '_')
    &&& s[0] != '_'
    &&& s.last() != '_'
}

/// Every character is a body character, and no two underscores touch.
pub open spec fn body_chars_no_double(s: Seq<char>) -> bool {
    &&& forall|k: int| 0 <= k < s.len() ==> id_body_char(#[trigger] s[k])
    &&& forall|k: int| 0 <= k < s.len() - 1 ==> !(#[trigger] s[k] == '_' && s[k + 1] == '_')
}

proof fn lemma_catalog_chars_set(s: Seq<char>)
    ensures
        forall|k: int| 0 <= k < catalog_chars(s).len() ==> id_body_char(#[trigger] catalog_chars(s)[k]),
    decreases s.len(),
{
    if s.len() > 0 {
        lemma_catalog_chars_set(s.drop_last());
        let p = catalog_chars(s.drop_last());
        let e = catalog_piece(s.last());
        let c = s.last();
        if is_ascii_lower(c) {
            assert(((c as u32) - 32) as char as u32 == (c as u32) - 32);
        }
        assert(forall|k: int| 0 <= k < e.len() ==> id_body_char(#[trigger] e[k]));
        assert forall|k: int| 0 <= k < catalog_chars(s).len() implies id_body_char(#[trigger] catalog_chars(s)[k]) by {
            if k < p.len() {
                assert(catalog_chars(s)[k] == p[k]);
            } else {
                assert(catalog_chars(s)[k] == e[k - p.len()]);
            }
        }
    }
}

proof fn lemma_collapse_shape(s: Seq<char>)
    requires
        forall|k: int| 0 <= k < s.len() ==> id_body_char(#[trigger] s[k]),
    ensures
        body_chars_no_double(collapse_underscores(s)),
    decreases s.len(),
{
    if s.len() > 0 {
        let d = s.drop_last();
        assert forall|k: int| 0 <= k < d.len() implies id_body_char(#[trigger] d[k]) by {
            assert(d[k] == s[k]);
        }
        lemma_collapse_shape(d);
        let p = collapse_underscores(d);
        let c = s.last();
        assert(id_body_char(s[s.len() - 1]));
        if !(c == '_' && p.len() > 0 && p.last() == '_') {
            let q = p.push(c);
            assert(q =~= collapse_underscores(s));
            assert forall|k: int| 0 <= k < q.len() implies id_body_char(#[trigger] q[k]) by {
                if k < p.len() {
                    assert(q[k] == p[k]);
                }
            }
            assert forall|k: int| 0 <= k < q.len() - 1 implies !(#[trigger] q[k] == '_' && q[k + 1] == '_') by {
                if k < p.len() - 1 {
                    assert(q[k] == p[k] && q[k + 1] == p[k + 1]);
                } else {
                    assert(k == p.len() - 1);
                    assert(q[k] == p.last());
                }
            }
        }
    }
}

proof fn lemma_strip_start_sub(s: Seq<char>) -> (i: int)
    ensures
        0 <= i <= s.len(),
        strip_start_underscores(s) == s.subrange(i, s.len() as int),
        forall|k: int| 0 <= k < i ==> s[k] == '_',
        i < s.len() ==> s[i] != '_',
    decreases s.len(),
{
    if s.len() > 0 && s[0] == '_' {
        let j = lemma_strip_start_sub(s.drop_first());
        assert(s.drop_first().subrange(j, s.len() - 1) =~= s.subrange(j + 1, s.len() as int));
        assert forall|k: int| 0 <= k < j + 1 implies s[k] == '_' by {
            if k > 0 {
                assert(s[k] == s.drop_first()[k - 1]);
            }
        }
        if j + 1 < s.len() {
            assert(s[j + 1] == s.drop_first()[j]);
        }
        j + 1
    } else {
        assert(s.subrange(0, s.len() as int) =~= s);
        0
    }
}

proof fn lemma_strip_end_sub(s: Seq<char>) -> (j: int)
    ensures
        0 <= j <= s.len(),
        strip_end_underscores(s) == s.subrange(0, j),
        forall|k: int| j <= k < s.len() ==> s[k] == '_',
        j > 0 ==> s[j - 1] != '_',
    decreases s.len(),
{
    if s.len() > 0 && s.last() == '_' {
        let j = lemma_strip_end_sub(s.drop_last());
        assert(s.drop_last().subrange(0, j) =~= s.subrange(0, j));
        assert forall|k: int| j <= k < s.len() implies s[k] == '_' by {
            if k < s.len() - 1 {
                assert(s[k] == s.drop_last()[k]);
            }
        }
        if j > 0 {
            assert(s[j - 1] == s.drop_last()[j - 1]);
        }
        j
    } else {
        assert(s.subrange(0, s.len() as int) =~= s);
        s.len() as int
    }
}

proof fn lemma_sub_keeps_shape(s: Seq<char>, i: int, j: int)
    requires
        0 <= i <= j <= s.len(),
        body_chars_no_double(s),
    ensures
        body_chars_no_double(s.subrange(i, j)),
{
    let t = s.subrange(i, j);
    assert forall|k: int| 0 <= k < t.len() implies id_body_char(#[trigger] t[k]) by {
        assert(t[k] == s[k + i]);
    }
    assert forall|k: int| 0 <= k < t.len() - 1 implies !(#[trigger] t[k] == '_' && t[k + 1] == '_') by {
        assert(t[k] == s[k + i] && t[k + 1] == s[k + i + 1]);
    }
}

proof fn lemma_trim_start_sub(s: Seq<char>) -> (i: int)
    ensures
        0 <= i <= s.len(),
        trim_start(s) == s.subrange(i, s.len() as int),
    decreases s.len(),
{
    if s.len() > 0 && is_ws(s[0]) {
        let j = lemma_trim_start_sub(s.drop_first());
        assert(s.drop_first().subrange(j, s.len() - 1) =~= s.subrange(j + 1, s.len() as int));
        j + 1
    } else {
        assert(s.subrange(0, s.len() as int) =~= s);
        0
    }
}

proof fn lemma_trim_end_sub(s: Seq<char>) -> (j: int)
    ensures
        0 <= j <= s.len(),
        trim_end(s) == s.subrange(0, j),
    decreases s.len(),
{
    if s.len() > 0 && is_ws(s.last()) {
        let j = lemma_trim_end_sub(s.drop_last());
        assert(s.drop_last().subrange(0, j) =~= s.subrange(0, j));
        j
    } else {
        assert(s.subrange(0, s.len() as int) =~= s);
        s.len() as int
    }
}

/// The trimmed text is a stretch of the text.
proof fn trim_bounds(s: Seq<char>) -> (r: (int, int))
    ensures
        0 <= r.0 <= r.1 <= s.len(),
        trim(s) == s.subrange(r.0, r.1),
{
    let i = lemma_trim_start_sub(s);
    let a = trim_start(s);
    let j = lemma_trim_end_sub(a);
    assert(a.subrange(0, j) =~= s.subrange(i, i + j));
    (i, i + j)
}

/// The body of an identifier, when not empty, is well formed.
proof fn lemma_core_shape(raw: Seq<char>)
    ensures
        catalog_core(raw).len() > 0 ==> id_body(catalog_core(raw)),
{
    let cc = catalog_chars(trim(raw));
    lemma_catalog_chars_set(trim(raw));
    let co = collapse_underscores(cc);
    lemma_collapse_shape(cc);
    let i = lemma_strip_start_sub(co);
    let a = strip_start_underscores(co);
    lemma_sub_keeps_shape(co, i, co.len() as int);
    let j = lemma_strip_end_sub(a);
    lemma_sub_keeps_shape(a, 0, j);
    let core = a.subrange(0, j);
    assert(core == catalog_core(raw));
    if core.len() > 0 {
        assert(core[0] == a[0]);
        assert(a[0] == co[i]);
        assert(core.last() == a[j - 1]);
    }
}

/// Characters that are not ASCII letters or digits add only underscores.
proof fn lemma_no_alnum_all_underscores(s: Seq<char>)
    requires
        forall|k: int| 0 <= k < s.len() ==> !is_ascii_alnum(#[trigger] s[k]),
    ensures
        forall|k: int| 0 <= k < catalog_chars(s).len() ==> #[trigger] catalog_chars(s)[k] == '_',
    decreases s.len(),
{
    if s.len() > 0 {
        let d = s.drop_last();
        assert forall|k: int| 0 <= k < d.len() implies !is_ascii_alnum(#[trigger] d[k]) by {
            assert(d[k] == s[k]);
        }
        lemma_no_alnum_all_underscores(d);
        let p = catalog_chars(d);
        let e = catalog_piece(s.last());
        assert(!is_ascii_alnum(s[s.len() - 1]));
        assert forall|k: int| 0 <= k < catalog_chars(s).len() implies #[trigger] catalog_chars(s)[k] == '_' by {
            if k < p.len() {
                assert(catalog_chars(s)[k] == p[k]);
            } else {
                assert(catalog_chars(s)[k] == e[k - p.len()]);
            }
        }
    }
}

proof fn lemma_collapse_all_underscores(s: Seq<char>)
    requires
        forall|k: int| 0 <= k < s.len() ==> #[trigger] s[k] == '_',
    ensures
        forall|k: int| 0 <= k < collapse_underscores(s).len() ==> #[trigger] collapse_underscores(s)[k] == '_',
    decreases s.len(),
{
    if s.len() > 0 {
        let d = s.drop_last();
        assert forall|k: int| 0 <= k < d.len() implies #[trigger] d[k] == '_' by {
            assert(d[k] == s[k]);
        }
        lemma_collapse_all_underscores(d);
        assert(s[s.len() - 1] == '_');
        let p = collapse_underscores(d);
        assert forall|k: int| 0 <= k < collapse_underscores(s).len() implies #[trigger] collapse_underscores(s)[k] == '_' by {
            if k < p.len() {
                assert(p.push(s.last())[k] == p[k]);
            }
        }
    }
}

proof fn lemma_trim_start_map(s: Seq<char>)
    ensures
        trim_start(ascii_lower_seq(s)) == ascii_lower_seq(trim_start(s)),
    decreases s.len(),
{
    if s.len() > 0 {
        let c = s[0];
        assert(ascii_lower_seq(s)[0] == ascii_lower(c));
        lemma_ascii_lower_ws(c);
        assert(ascii_lower_seq(s).drop_first() =~= ascii_lower_seq(s.drop_first()));
        lemma_trim_start_map(s.drop_first());
    } else {
        assert(ascii_lower_seq(s) =~= s);
    }
}

proof fn lemma_trim_end_map(s: Seq<char>)
    ensures
        trim_end(ascii_lower_seq(s)) == ascii_lower_seq(trim_end(s)),
    decreases s.len(),
{
    if s.len() > 0 {
        let c = s.last();
        assert(ascii_lower_seq(s).last() == ascii_lower(c));
        lemma_ascii_lower_ws(c);
        assert(ascii_lower_seq(s).drop_last() =~= ascii_lower_seq(s.drop_last()));
        lemma_trim_end_map(s.drop_last());
    } else {
        assert(ascii_lower_seq(s) =~= s);
    }
}

proof fn lemma_ascii_lower_ws(c: char)
    ensures
        is_ws(ascii_lower(c)) == is_ws(c),
        catalog_piece(ascii_lower(c)) == catalog_piece(c),
        is_ascii_alnum(ascii_lower(c)) == is_ascii_alnum(c),
{
    if is_ascii_upper(c) {
        let l = ((c as u32) + 32) as char;
        assert(l as u32 == (c as u32) + 32);
        assert(is_ascii_lower(l));
        assert(((l as u32) - 32) as char as u32 == c as u32);
        assert(ascii_upper(l) == c);
    }
}

proof fn lemma_catalog_chars_lower(s: Seq<char>)
    ensures
        catalog_chars(ascii_lower_seq(s)) == catalog_chars(s),
    decreases s.len(),
{
    if s.len() > 0 {
        let l = ascii_lower_seq(s);
        assert(l.drop_last() =~= ascii_lower_seq(s.drop_last()));
        assert(l.last() == ascii_lower(s.last()));
        lemma_ascii_lower_ws(s.last());
        lemma_catalog_chars_lower(s.drop_last());
    }
}

/// A legacy catalogue identifier is the prefix, `-`, and a body made only of
/// `A..=Z`, `0..=9` and `_`, never with two underscores together nor one at
/// either end; the body is `GEN` for a name without ASCII letters or digits;
/// and the case of the ASCII letters of the name does not change it.
pub proof fn law_legacy_catalog_id_shape(prefix: Seq<char>, raw: Seq<char>)
    ensures
        exists|body: Seq<char>| #[trigger] id_body(body) && catalog_id(prefix, raw) == prefix + "-"@ + body,
        (forall|k: int| 0 <= k < raw.len() ==> !is_ascii_alnum(#[trigger] raw[k])) ==> catalog_id(prefix, raw)
            == prefix + "-GEN"@,
        catalog_id(prefix, ascii_lower_seq(raw)) == catalog_id(prefix, raw),
{
    reveal_strlit("-GEN");
    reveal_strlit("-");
    reveal_strlit("GEN");
    lemma_core_shape(raw);
    let core = catalog_core(raw);
    if core.len() == 0 {
        let g = "GEN"@;
        assert(id_body(g));
        assert(prefix + "-GEN"@ =~= prefix + "-"@ + g);
    } else {
        assert(prefix + seq!['-'] + core =~= prefix + "-"@ + core);
    }
    // A name without ASCII letters or digits.
    if forall|k: int| 0 <= k < raw.len() ==> !is_ascii_alnum(#[trigger] raw[k]) {
        let t = trim(raw);
        let (i, j) = trim_bounds(raw);
        assert(t == raw.subrange(i, j));
        assert forall|k: int| 0 <= k < t.len() implies !is_ascii_alnum(#[trigger] t[k]) by {
            assert(t[k] == raw[k + i]);
        }
        lemma_no_alnum_all_underscores(t);
        lemma_collapse_all_underscores(catalog_chars(t));
        let co = collapse_underscores(catalog_chars(t));
        let i2 = lemma_strip_start_sub(co);
        assert(i2 == co.len()) by {
            if i2 < co.len() {
                assert(co[i2] == '_');
            }
        }
        assert(strip_start_underscores(co).len() == 0);
        assert(catalog_core(raw).len() == 0);
    }
    // Lower-casing the ASCII letters.
    lemma_trim_start_map(raw);
    lemma_trim_end_map(trim_start(raw));
    assert(trim(ascii_lower_seq(raw)) == ascii_lower_seq(trim(raw)));
    lemma_catalog_chars_lower(trim(raw));
    assert(catalog_core(ascii_lower_seq(raw)) == catalog_core(raw));
}


// ---------------------------------------------------------------------------
// ASCII texts under normalisation
// ---------------------------------------------------------------------------

proof fn lemma_trim_ascii(s: Seq<char>)
    ensures
        all_ascii(s) ==> all_ascii(trim(s)),
{
    let (i, j) = trim_bounds(s);
    if all_ascii(s) {
        assert forall|k: int| 0 <= k < trim(s).len() implies (#[trigger] trim(s)[k] as u32) < 128 by {
            assert(trim(s)[k] == s[k + i]);
        }
    }
}

/// The words of a text hold only characters of the text.
proof fn lemma_words_ascii(s: Seq<char>)
    requires
        all_ascii(s),
    ensures
        forall|i: int| 0 <= i < words(s).len() ==> all_ascii(#[trigger] words(s)[i]),
    decreases s.len(),
{
    if s.len() > 0 {
        let p = s.drop_last();
        let c = s.last();
        assert(all_ascii(p)) by {
            assert forall|k: int| 0 <= k < p.len() implies (#[trigger] p[k] as u32) < 128 by {
                assert(p[k] == s[k]);
            }
        }
        lemma_words_ascii(p);
        let w = words(p);
        assert((s[s.len() - 1] as u32) < 128);
        if !is_ws(c) && p.len() > 0 && !is_ws(p.last()) {
            lemma_words_nonempty(p);
            let last = w.last().push(c);
            assert(all_ascii(w[w.len() - 1]));
            assert forall|k: int| 0 <= k < last.len() implies (#[trigger] last[k] as u32) < 128 by {
                if k < last.len() - 1 {
                    assert(last[k] == w[w.len() - 1][k]);
                }
            }
        }
    }
}

proof fn lemma_join_ascii(ws: Seq<Seq<char>>)
    requires
        forall|i: int| 0 <= i < ws.len() ==> all_ascii(#[trigger] ws[i]),
    ensures
        all_ascii(join_words(ws)),
    decreases ws.len(),
{
    if ws.len() == 1 {
        assert(all_ascii(ws[0]));
    } else if ws.len() > 1 {
        let init = ws.drop_last();
        assert forall|i: int| 0 <= i < init.len() implies all_ascii(#[trigger] init[i]) by {
            assert(init[i] == ws[i]);
        }
        lemma_join_ascii(init);
        let a = join_words(init);
        let b = ws.last();
        assert(all_ascii(ws[ws.len() - 1]));
        let j = a + seq![' '] + b;
        assert forall|k: int| 0 <= k < j.len() implies (#[trigger] j[k] as u32) < 128 by {
            if k < a.len() {
                assert(j[k] == a[k]);
            } else if k == a.len() {
                assert(j[k] == ' ');
            } else {
                assert(j[k] == b[k - a.len() - 1]);
            }
        }
    }
}

proof fn lemma_single_spaced_ascii(s: Seq<char>)
    ensures
        all_ascii(s) ==> all_ascii(single_spaced(s)),
{
    if all_ascii(s) {
        lemma_words_ascii(s);
        lemma_join_ascii(words(s));
    }
}

proof fn lemma_upper_ws(c: char)
    ensures
        is_ws(ascii_upper(c)) == is_ws(c),
        ascii_upper(ascii_upper(c)) == ascii_upper(c),
        (c as u32) < 128 ==> (ascii_upper(c) as u32) < 128,
{
    if is_ascii_lower(c) {
        let u = ((c as u32) - 32) as char;
        assert(u as u32 == (c as u32) - 32);
    }
}

/// Upper-casing the ASCII letters of a text keeps its words apart in the
/// same places.
proof fn lemma_words_upper(s: Seq<char>)
    ensures
        words(ascii_upper_seq(s)) == words(s).map_values(|w: Seq<char>| ascii_upper_seq(w)),
    decreases s.len(),
{
    let f = |w: Seq<char>| ascii_upper_seq(w);
    if s.len() == 0 {
        assert(words(ascii_upper_seq(s)) =~= words(s).map_values(f));
    } else {
        let u = ascii_upper_seq(s);
        let p = s.drop_last();
        let c = s.last();
        assert(u.drop_last() =~= ascii_upper_seq(p));
        assert(u.last() == ascii_upper(c));
        lemma_upper_ws(c);
        lemma_words_upper(p);
        if p.len() > 0 {
            assert(ascii_upper_seq(p).last() == ascii_upper(p.last()));
            lemma_upper_ws(p.last());
        }
        let w = words(p);
        if is_ws(c) {
        } else if p.len() > 0 && !is_ws(p.last()) {
            lemma_words_nonempty(p);
            assert(w.update(w.len() - 1, w.last().push(c)).map_values(f) =~= w.map_values(f).update(
                w.len() - 1,
                w.map_values(f).last().push(ascii_upper(c)),
            )) by {
                assert(ascii_upper_seq(w.last().push(c)) =~= ascii_upper_seq(w.last()).push(ascii_upper(c)));
            }
        } else {
            assert(w.push(seq![c]).map_values(f) =~= w.map_values(f).push(seq![ascii_upper(c)])) by {
                assert(ascii_upper_seq(seq![c]) =~= seq![ascii_upper(c)]);
            }
        }
    }
}

proof fn lemma_join_upper(ws: Seq<Seq<char>>)
    ensures
        join_words(ws.map_values(|w: Seq<char>| ascii_upper_seq(w))) == ascii_upper_seq(join_words(ws)),
    decreases ws.len(),
{
    let f = |w: Seq<char>| ascii_upper_seq(w);
    let m = ws.map_values(f);
    if ws.len() == 0 {
        assert(ascii_upper_seq(join_words(ws)) =~= Seq::<char>::empty());
    } else if ws.len() == 1 {
        assert(m[0] == ascii_upper_seq(ws[0]));
    } else {
        lemma_join_upper(ws.drop_last());
        assert(m.drop_last() =~= ws.drop_last().map_values(f));
        assert(m.last() == ascii_upper_seq(ws.last()));
        let a = join_words(ws.drop_last());
        assert(ascii_upper_seq(a + seq![' '] + ws.last()) =~= ascii_upper_seq(a) + seq![' '] + ascii_upper_seq(
            ws.last(),
        ));
    }
}

/// Normalising an ASCII name as a title twice gives what once gives: the
/// result is ASCII again, single-spaced and upper-cased, so a second pass
/// changes nothing.
pub proof fn law_ascii_title_idempotent(value: Seq<char>)
    requires
        all_ascii(value),
    ensures
        all_ascii(ascii_upper_seq(single_spaced(value))),
        ascii_upper_seq(single_spaced(ascii_upper_seq(single_spaced(value)))) == ascii_upper_seq(
            single_spaced(value),
        ),
{
    let t = single_spaced(value);
    lemma_single_spaced_ascii(value);
    let u = ascii_upper_seq(t);
    assert forall|k: int| 0 <= k < u.len() implies (#[trigger] u[k] as u32) < 128 by {
        assert(u[k] == ascii_upper(t[k]));
        assert((t[k] as u32) < 128);
        lemma_upper_ws(t[k]);
    }
    lemma_words_upper(t);
    lemma_join_upper(words(t));
    law_single_spacing_idempotent(value);
    assert(single_spaced(u) == ascii_upper_seq(t));
    assert forall|k: int| 0 <= k < u.len() implies #[trigger] ascii_upper_seq(u)[k] == u[k] by {
        lemma_upper_ws(t[k]);
    }
    assert(ascii_upper_seq(u) =~= u);
}

} // verus!
