//! Field delimiters of CSV files to import.
use vstd::prelude::*;
use crate::text::{
    all_ascii, ascii_upper, ascii_upper_seq, is_ascii_upper, is_ws, lemma_trim_at, chars_of, is_blank, is_blank_str, last_index, last_is_after, remove_char, replace_char,
    replace_char_str, str_eq, string_of, to_owned_string, trim, trim_str, unicode_upper,
    without_char,
};
use crate::normalize::normalize_upper_trim;

verus! {

/// The text cut at every line feed (the pieces between line feeds).
pub open spec fn segments(s: Seq<char>) -> Seq<Seq<char>>
    decreases s.len(),
{
    if s.len() == 0 {
        seq![Seq::empty()]
    } else {
        let p = segments(s.drop_last());
        if s.last() == '\n' {
            p.push(Seq::empty())
        } else {
            p.update(p.len() - 1, p.last().push(s.last()))
        }
    }
}

proof fn lemma_segments_nonempty(s: Seq<char>)
    ensures
        segments(s).len() > 0,
    decreases s.len(),
{
    if s.len() > 0 {
        lemma_segments_nonempty(s.drop_last());
    }
}

/// The first piece that is not blank, or nothing.
pub open spec fn first_nonblank(segs: Seq<Seq<char>>) -> Seq<char>
    decreases segs.len(),
{
    if segs.len() == 0 {
        Seq::empty()
    } else if !is_blank(segs[0]) {
        segs[0]
    } else {
        first_nonblank(segs.drop_first())
    }
}

/// How many times the character occurs.
pub open spec fn count_char(s: Seq<char>, c: char) -> nat {
    s.filter(|x: char| x == c).len()
}

/// The delimiter that the first non-blank line of a file suggests: `;` or a
/// tab when it occurs at least as often as each other one (and at all),
/// `;` winning a tie, and `,` otherwise. (Carriage returns do not change
/// this: they are whitespace and no delimiter.)
pub open spec fn sniffed_delimiter(sample: Seq<char>) -> u8 {
    let line = first_nonblank(segments(sample));
    let comma = count_char(line, ',');
    let semicolon = count_char(line, ';');
    let tab = count_char(line, '\t');
    if semicolon >= comma && semicolon >= tab && semicolon > 0 {
        59
    } else if tab >= comma && tab >= semicolon && tab > 0 {
        9
    } else {
        44
    }
}

pub open spec fn seg_views(v: Seq<Vec<char>>) -> Seq<Seq<char>> {
    v.map_values(|x: Vec<char>| x@)
}

fn split_segments(s: &Vec<char>) -> (r: Vec<Vec<char>>)
    ensures
        seg_views(r@) == segments(s@),
{
    let mut segs: Vec<Vec<char>> = Vec::new();
    segs.push(Vec::new());
    assert(seg_views(segs@) =~= segments(s@.take(0)));
    let mut i: usize = 0;
    while i < s.len()
        invariant
            i <= s.len(),
            segs@.len() > 0,
            seg_views(segs@) == segments(s@.take(i as int)),
        decreases s.len() - i,
    {
        let c = s[i];
        let ghost p = segments(s@.take(i as int));
        assert(s@.take(i + 1).drop_last() =~= s@.take(i as int));
        if c == '\n' {
            segs.push(Vec::new());
            assert(seg_views(segs@) =~= p.push(Seq::empty()));
        } else {
            let n = segs.len();
            let mut last = segs.pop().unwrap();
            last.push(c);
            segs.push(last);
            assert(seg_views(segs@) =~= p.update(p.len() - 1, p.last().push(c)));
        }
        i = i + 1;
    }
    assert(s@.take(s.len() as int) =~= s@);
    segs
}

fn count_in(v: &Vec<char>, c: char) -> (r: usize)
    ensures
        r == count_char(v@, c),
{
    let mut n: usize = 0;
    let mut i: usize = 0;
    proof {
        reveal_with_fuel(Seq::filter, 1);
        assert(v@.take(0).filter(|x: char| x == c) =~= Seq::<char>::empty());
    }
    while i < v.len()
        invariant
            i <= v.len(),
            n == count_char(v@.take(i as int), c),
            n <= i,
        decreases v.len() - i,
    {
        proof {
            reveal_with_fuel(Seq::filter, 1);
            assert(v@.take(i + 1).drop_last() =~= v@.take(i as int));
        }
        if v[i] == c {
            n = n + 1;
        }
        i = i + 1;
    }
    assert(v@.take(v.len() as int) =~= v@);
    n
}

fn first_nonblank_segment(segs: &Vec<Vec<char>>) -> (r: Vec<char>)
    ensures
        r@ == first_nonblank(seg_views(segs@)),
{
    let mut k: usize = 0;
    assert(seg_views(segs@).subrange(0, segs@.len() as int) =~= seg_views(segs@));
    while k < segs.len()
        invariant
            k <= segs@.len(),
            first_nonblank(seg_views(segs@)) == first_nonblank(
                seg_views(segs@).subrange(k as int, segs@.len() as int),
            ),
        decreases segs@.len() - k,
    {
        let ghost rest = seg_views(segs@).subrange(k as int, segs@.len() as int);
        assert(rest[0] == segs@[k as int]@);
        let text = string_of(&segs[k]);
        if !is_blank_str(text.as_str()) {
            return chars_of(text.as_str());
        }
        assert(rest.drop_first() =~= seg_views(segs@).subrange(k + 1, segs@.len() as int));
        k = k + 1;
    }
    assert(seg_views(segs@).subrange(k as int, segs@.len() as int).len() == 0);
    Vec::new()
}

/// The delimiter suggested by the start of a file, given as text.
pub fn sniff_csv_delimiter(sample: &str) -> (r: u8)
    ensures
        r == sniffed_delimiter(sample@),
{
    let chars = chars_of(sample);
    let segs = split_segments(&chars);
    let line = first_nonblank_segment(&segs);
    let comma = count_in(&line, ',');
    let semicolon = count_in(&line, ';');
    let tab = count_in(&line, '\t');
    if semicolon >= comma && semicolon >= tab && semicolon > 0 {
        59u8
    } else if tab >= comma && tab >= semicolon && tab > 0 {
        9u8
    } else {
        44u8
    }
}

/// The delimiter chosen by name, or the one the file suggests when the name
/// is not one of the known ones.
pub open spec fn resolved_delimiter(delimiter: Seq<char>, sample: Seq<char>) -> u8 {
    let d = unicode_upper(trim(delimiter));
    if d == "PUNTO_COMA"@ || d == "SEMICOLON"@ || d == ";"@ {
        59
    } else if d == "TAB"@ || d == "TABULADOR"@ {
        9
    } else if d == "COMA"@ || d == "COMMA"@ || d == ","@ {
        44
    } else {
        sniffed_delimiter(sample)
    }
}

/// `resolved_delimiter` for a name written in ASCII, whose upper-case form
/// is its ASCII upper-case form.
pub open spec fn resolved_ascii_delimiter(delimiter: Seq<char>, sample: Seq<char>) -> u8 {
    let d = ascii_upper_seq(trim(delimiter));
    if d == "PUNTO_COMA"@ || d == "SEMICOLON"@ || d == ";"@ {
        59
    } else if d == "TAB"@ || d == "TABULADOR"@ {
        9
    } else if d == "COMA"@ || d == "COMMA"@ || d == ","@ {
        44
    } else {
        sniffed_delimiter(sample)
    }
}

/// `muestra` is the start of the file (its first 8 KiB read as text).
pub fn resolve_csv_delimiter(muestra: &str, delimiter: &str) -> (r: u8)
    ensures
        r == resolved_delimiter(delimiter@, muestra@),
        all_ascii(delimiter@) ==> r == resolved_ascii_delimiter(delimiter@, muestra@),
{
    let d = normalize_upper_trim(delimiter);
    let s = d.as_str();
    if str_eq(s, "PUNTO_COMA") || str_eq(s, "SEMICOLON") || str_eq(s, ";") {
        59u8
    } else if str_eq(s, "TAB") || str_eq(s, "TABULADOR") {
        9u8
    } else if str_eq(s, "COMA") || str_eq(s, "COMMA") || str_eq(s, ",") {
        44u8
    } else {
        sniff_csv_delimiter(muestra)
    }
}

/// The name under which a delimiter is shown and remembered.
pub open spec fn delimiter_name(delimiter: u8) -> Seq<char> {
    if delimiter == 59 {
        "PUNTO_COMA"@
    } else if delimiter == 9 {
        "TAB"@
    } else {
        "COMA"@
    }
}

pub fn delimiter_label(delimiter: u8) -> (r: String)
    ensures
        r@ == delimiter_name(delimiter),
{
    if delimiter == 59u8 {
        to_owned_string("PUNTO_COMA")
    } else if delimiter == 9u8 {
        to_owned_string("TAB")
    } else {
        to_owned_string("COMA")
    }
}

// ---------------------------------------------------------------------------
// Amounts written by people
// ---------------------------------------------------------------------------

/// A number as typed in an imported row, ready to be read as a decimal:
/// without `$` and spaces; when its last `,` comes after its last `.` the
/// comma is the decimal mark (dots are dropped and the comma becomes a dot),
/// otherwise commas are thousands separators and are dropped.
pub open spec fn json_number_text(text: Seq<char>) -> Seq<char> {
    let clean = without_char(without_char(text, '$'), ' ');
    if last_index(clean, ',') > last_index(clean, '.') {
        replace_char(without_char(clean, '.'), ',', '.')
    } else {
        without_char(clean, ',')
    }
}

/// The text of an imported number before it is read as a decimal
/// (the part of reading a number from an imported row that is not arithmetic).
pub fn json_value_number_text(text: &str) -> (r: String)
    ensures
        r@ == json_number_text(text@),
{
    let a = remove_char(text, '$');
    let clean = remove_char(a.as_str(), ' ');
    if last_is_after(clean.as_str(), ',', '.') {
        let b = remove_char(clean.as_str(), '.');
        replace_char_str(b.as_str(), ',', '.')
    } else {
        remove_char(clean.as_str(), ',')
    }
}

/// A money amount as found in a CSV cell, ready to be read as a decimal:
/// the decimal mark decided as for imported numbers, then without `$`, trimmed.
pub open spec fn csv_money_text(raw: Seq<char>) -> Seq<char> {
    let marked = if last_index(raw, ',') > last_index(raw, '.') {
        replace_char(without_char(raw, '.'), ',', '.')
    } else {
        without_char(raw, ',')
    };
    trim(without_char(marked, '$'))
}

/// The text of a money cell before it is read as a decimal.
pub fn csv_money_value_text(raw: &str) -> (r: String)
    ensures
        r@ == csv_money_text(raw@),
{
    let marked = if last_is_after(raw, ',', '.') {
        let b = remove_char(raw, '.');
        replace_char_str(b.as_str(), ',', '.')
    } else {
        remove_char(raw, ',')
    };
    let c = remove_char(marked.as_str(), '$');
    trim_str(c.as_str())
}


proof fn lemma_upper_name(name: Seq<char>)
    requires
        name.len() > 0,
        forall|k: int| 0 <= k < name.len() ==> (#[trigger] is_ascii_upper(name[k]) || name[k] == '_'),
    ensures
        all_ascii(name),
        ascii_upper_seq(trim(name)) == name,
{
    assert forall|k: int| 0 <= k < name.len() implies !is_ws(#[trigger] name[k]) && (name[k] as u32) < 128
        && ascii_upper(name[k]) == name[k] by {
        let c = name[k];
        assert(is_ascii_upper(c) || c == '_');
        assert((c as u32) <= 95);
    }
    assert(!is_ws(name[0]) && !is_ws(name[name.len() - 1]));
    lemma_trim_at(name, 0, name.len() as int);
    assert(name.subrange(0, name.len() as int) =~= name);
    assert(ascii_upper_seq(name) =~= name);
}

/// The name a delimiter is remembered under resolves back to it: `PUNTO_COMA`
/// to `;`, `TAB` to a tab and `COMA` to `,`, whatever the file; every other
/// byte is remembered as `COMA`. The names are ASCII, so `resolve_csv_delimiter`
/// gives `resolved_ascii_delimiter` of them.
pub proof fn law_delimiter_label_round_trip(d: u8, sample: Seq<char>)
    ensures
        all_ascii(delimiter_name(d)),
        (d == 59 || d == 9 || d == 44) ==> resolved_ascii_delimiter(delimiter_name(d), sample) == d,
        !(d == 59 || d == 9) ==> delimiter_name(d) == "COMA"@,
{
    reveal_strlit("PUNTO_COMA");
    reveal_strlit("TAB");
    reveal_strlit("COMA");
    reveal_strlit("SEMICOLON");
    reveal_strlit(";");
    reveal_strlit("TABULADOR");
    reveal_strlit("COMMA");
    reveal_strlit(",");
    let n = delimiter_name(d);
    assert forall|k: int| 0 <= k < n.len() implies (#[trigger] is_ascii_upper(n[k]) || n[k] == '_') by {
    }
    lemma_upper_name(n);
    assert("TAB"@.len() == 3 && "COMA"@.len() == 4 && "PUNTO_COMA"@.len() == 10 && "SEMICOLON"@.len() == 9);
    assert(";"@.len() == 1 && "TABULADOR"@.len() == 9);
    assert("TAB"@ != "PUNTO_COMA"@ && "TAB"@ != "SEMICOLON"@ && "TAB"@ != ";"@);
    assert("COMA"@ != "PUNTO_COMA"@ && "COMA"@ != "SEMICOLON"@ && "COMA"@ != ";"@);
    assert("COMA"@ != "TAB"@ && "COMA"@ != "TABULADOR"@);
}


// ---------------------------------------------------------------------------
// Reading the records of a CSV file
// ---------------------------------------------------------------------------

/// What the `csv` crate reads from the bytes of a file with a header row,
/// rows of any length and the given delimiter: each data record in order,
/// as its fields, or the text of the error that record gave.
pub uninterp spec fn csv_records(contenido: Seq<u8>, delimitador: u8) -> Seq<Result<Seq<Seq<char>>, Seq<char>>>;

pub open spec fn vista_registros(r: Seq<Result<Vec<String>, String>>) -> Seq<Result<Seq<Seq<char>>, Seq<char>>> {
    r.map_values(
        |x: Result<Vec<String>, String>|
            match x {
                Ok(v) => Ok(v@.map_values(|c: String| c@)),
                Err(e) => Err(e@),
            },
    )
}

/// Calls `csv::ReaderBuilder` (flexible, with the delimiter) on the bytes
/// and reads every record; the records, and the text of each record's
/// error, are named `csv_records` of the bytes and the delimiter.
#[verifier::external_body]
fn leer_registros(contenido: &[u8], delimitador: u8) -> (r: Vec<Result<Vec<String>, String>>)
    ensures
        vista_registros(r@) == csv_records(contenido@, delimitador),
{
    let mut lector = csv::ReaderBuilder::new().flexible(true).delimiter(delimitador).from_reader(contenido);
    lector
        .records()
        .map(|registro| match registro {
            Ok(campos) => Ok(campos.iter().map(|campo| campo.to_string()).collect()),
            Err(error) => Err(error.to_string()),
        })
        .collect()
}

/// The data records of a CSV file to import, read from its bytes with the
/// delimiter resolved for it.
pub fn registros_csv(contenido: &[u8], delimitador: u8) -> (r: Vec<Result<Vec<String>, String>>)
    ensures
        vista_registros(r@) == csv_records(contenido@, delimitador),
{
    leer_registros(contenido, delimitador)
}

} // verus!
