//! The exchange of rows with the cloud copy: which pulled rows are written
//! and which local edits win, how a row is keyed, the statements that write
//! and mark rows, and what the upload reports.
use vstd::prelude::*;
use crate::sync::{
    local_column, map_backup_column_to_local, safe_identifier, is_safe_identifier, str_views,
};
use crate::importacion::ValorImportado;
use crate::model::{SupabaseConfig, SyncStatus, SyncTableStatus};
use crate::text::{
    chars_of, contains_string, first_index, i64_to_decimal, int_decimal, join_strings, join_with,
    lemma_first_index, opt_seq, push_str, str_eq, string_of_range, to_owned_string, views,
    is_blank, is_blank_str, strip_end_char, trim_end_char,
};

verus! {

// ---------------------------------------------------------------------------
// Where a key column stands among a row's columns
// ---------------------------------------------------------------------------

/// The first place where `key` stands among `cols` (`Iterator::position`).
pub open spec fn first_position(cols: Seq<Seq<char>>, key: Seq<char>) -> Option<int>
    decreases cols.len(),
{
    if cols.len() == 0 {
        None
    } else {
        match first_position(cols.drop_last(), key) {
            Some(p) => Some(p),
            None => if cols.last() == key {
                Some(cols.len() - 1)
            } else {
                None
            },
        }
    }
}

pub proof fn lemma_first_position(cols: Seq<Seq<char>>, key: Seq<char>)
    ensures
        match first_position(cols, key) {
            Some(p) => 0 <= p < cols.len() && cols[p] == key && forall|k: int|
                0 <= k < p ==> cols[k] != key,
            None => forall|k: int| 0 <= k < cols.len() ==> cols[k] != key,
        },
    decreases cols.len(),
{
    if cols.len() > 0 {
        lemma_first_position(cols.drop_last(), key);
        assert forall|k: int| 0 <= k < cols.len() - 1 implies cols.drop_last()[k] == cols[k] by {}
    }
}

/// The first column equal to `key`.
pub fn column_position(columns: &[String], key: &str) -> (r: Option<usize>)
    ensures
        match r {
            Some(p) => first_position(views(columns@), key@) == Some(p as int),
            None => first_position(views(columns@), key@) is None,
        },
{
    let ghost cols = views(columns@);
    let mut i: usize = 0;
    while i < columns.len()
        invariant
            i <= columns@.len(),
            cols == views(columns@),
            forall|k: int| 0 <= k < i ==> cols[k] != key@,
        decreases columns@.len() - i,
    {
        if str_eq(columns[i].as_str(), key) {
            proof {
                lemma_first_position(cols, key@);
                assert(cols[i as int] == key@);
            }
            return Some(i);
        }
        i = i + 1;
    }
    proof {
        lemma_first_position(cols, key@);
    }
    None
}

/// Every key column stands among the row's columns.
pub open spec fn all_keys_found(conflict: Seq<Seq<char>>, cols: Seq<Seq<char>>) -> bool {
    forall|i: int| 0 <= i < conflict.len() ==> (#[trigger] first_position(cols, conflict[i])) is Some
}

pub fn has_all_keys(conflict: &[&str], columns: &[String]) -> (r: bool)
    ensures
        r == all_keys_found(str_views(conflict@), views(columns@)),
{
    let ghost keys = str_views(conflict@);
    let mut i: usize = 0;
    while i < conflict.len()
        invariant
            i <= conflict@.len(),
            keys == str_views(conflict@),
            forall|k: int| 0 <= k < i ==> (#[trigger] first_position(views(columns@), keys[k])) is Some,
        decreases conflict@.len() - i,
    {
        if column_position(columns, conflict[i]).is_none() {
            assert(first_position(views(columns@), keys[i as int]) is None);
            return false;
        }
        i = i + 1;
    }
    true
}

// ---------------------------------------------------------------------------
// Which version of a row wins
// ---------------------------------------------------------------------------

/// Whether a pulled row overwrites the local one. It is written only when
/// every key column came with it; then it is written unless the local row is
/// still waiting for upload (`sincronizado = 0`) and was changed after the
/// pulled version. `local` is the local row's `sincronizado` and whether its
/// `updated_at` is later than the pulled one, or nothing when there is no
/// local row with that key.
pub open spec fn remote_row_applies(
    conflict: Seq<Seq<char>>,
    cols: Seq<Seq<char>>,
    local: Option<(i64, bool)>,
) -> bool {
    if conflict.len() == 0 || !all_keys_found(conflict, cols) {
        false
    } else {
        match local {
            None => true,
            Some((sincronizado, local_is_newer)) => !(sincronizado == 0 && local_is_newer),
        }
    }
}

/// Decides whether a pulled row is written over the local copy, from the
/// state of the local row with the same key.
pub fn should_apply_remote_row(
    conflict_columns: &[&str],
    columns: &[String],
    local_state: Option<(i64, bool)>,
) -> (r: bool)
    ensures
        r == remote_row_applies(str_views(conflict_columns@), views(columns@), local_state),
{
    if conflict_columns.len() == 0 || !has_all_keys(conflict_columns, columns) {
        return false;
    }
    match local_state {
        None => true,
        Some((sincronizado, local_is_newer)) => !(sincronizado == 0 && local_is_newer),
    }
}

/// A pull never overwrites a local change that is still waiting for upload
/// and is more recent than the pulled version; a keyed row that is new
/// locally, already uploaded, or older than the pulled one is written.
pub proof fn law_pull_keeps_pending_newer_edits(
    conflict: Seq<Seq<char>>,
    cols: Seq<Seq<char>>,
    sincronizado: i64,
    local_is_newer: bool,
)
    requires
        conflict.len() > 0,
        all_keys_found(conflict, cols),
    ensures
        !remote_row_applies(conflict, cols, Some((0, true))),
        remote_row_applies(conflict, cols, None),
        (sincronizado != 0 || !local_is_newer) ==> remote_row_applies(
            conflict,
            cols,
            Some((sincronizado, local_is_newer)),
        ),
{
}

/// A row that lacks one of its key columns is never written.
pub proof fn law_unkeyed_row_never_written(
    conflict: Seq<Seq<char>>,
    cols: Seq<Seq<char>>,
    i: int,
    local: Option<(i64, bool)>,
)
    requires
        0 <= i < conflict.len(),
        first_position(cols, conflict[i]) is None,
    ensures
        !remote_row_applies(conflict, cols, local),
{
}


// ---------------------------------------------------------------------------
// Keys and statements
// ---------------------------------------------------------------------------

/// The pieces `key=value` of a row's key, for the key columns that it has,
/// in the order of the key columns.
pub open spec fn sync_key_parts(
    conflict: Seq<Seq<char>>,
    cols: Seq<Seq<char>>,
    vals: Seq<Seq<char>>,
) -> Seq<Seq<char>>
    decreases conflict.len(),
{
    if conflict.len() == 0 {
        Seq::empty()
    } else {
        let rest = sync_key_parts(conflict.drop_last(), cols, vals);
        match first_position(cols, conflict.last()) {
            Some(p) => rest.push(conflict.last() + "="@ + vals[p]),
            None => rest,
        }
    }
}

/// Each key column found among the columns has a value beside it.
pub open spec fn key_values_present(conflict: Seq<Seq<char>>, cols: Seq<Seq<char>>, n_values: int) -> bool {
    forall|i: int|
        0 <= i < conflict.len() ==> match #[trigger] first_position(cols, conflict[i]) {
            Some(p) => p < n_values,
            None => true,
        }
}

pub fn to_strings(items: &[&str]) -> (r: Vec<String>)
    ensures
        views(r@) == str_views(items@),
{
    let mut out: Vec<String> = Vec::new();
    let mut i: usize = 0;
    while i < items.len()
        invariant
            i <= items@.len(),
            out@.len() == i,
            forall|k: int| 0 <= k < i ==> out@[k]@ == items@[k]@,
        decreases items@.len() - i,
    {
        out.push(to_owned_string(items[i]));
        i = i + 1;
    }
    assert(views(out@) =~= str_views(items@));
    out
}

/// The key of a row as shown to the user: `key=value` for each key column,
/// joined with `|`. `values` holds the text of each column's value.
pub fn sync_key_from_values(conflict_columns: &[&str], columns: &[String], values: &[String]) -> (r: String)
    requires
        key_values_present(str_views(conflict_columns@), views(columns@), values@.len() as int),
    ensures
        r@ == join_with(
            sync_key_parts(str_views(conflict_columns@), views(columns@), views(values@)),
            "|"@,
        ),
{
    let ghost keys = str_views(conflict_columns@);
    let ghost cols = views(columns@);
    let ghost vals = views(values@);
    let mut parts: Vec<String> = Vec::new();
    let mut i: usize = 0;
    while i < conflict_columns.len()
        invariant
            i <= conflict_columns@.len(),
            keys == str_views(conflict_columns@),
            cols == views(columns@),
            vals == views(values@),
            key_values_present(keys, cols, values@.len() as int),
            views(parts@) == sync_key_parts(keys.take(i as int), cols, vals),
        decreases conflict_columns@.len() - i,
    {
        let key = conflict_columns[i];
        let ghost prev = keys.take(i as int);
        assert(keys.take(i + 1).drop_last() =~= prev);
        assert(keys.take(i + 1).last() == key@);
        match column_position(columns, key) {
            Some(p) => {
                assert(first_position(cols, keys[i as int]) == Some(p as int));
                let mut piece = to_owned_string(key);
                push_str(&mut piece, "=");
                push_str(&mut piece, values[p].as_str());
                parts.push(piece);
            },
            None => {},
        }
        i = i + 1;
        assert(views(parts@) =~= sync_key_parts(keys.take(i as int), cols, vals));
    }
    assert(keys.take(conflict_columns@.len() as int) =~= keys);
    join_strings(&parts, "|")
}

/// `column = excluded.column` for each column that is not a key column.
pub open spec fn update_assignments(cols: Seq<Seq<char>>, conflict: Seq<Seq<char>>) -> Seq<Seq<char>>
    decreases cols.len(),
{
    if cols.len() == 0 {
        Seq::empty()
    } else {
        let rest = update_assignments(cols.drop_last(), conflict);
        if conflict.contains(cols.last()) {
            rest
        } else {
            rest.push(cols.last() + " = excluded."@ + cols.last())
        }
    }
}

/// The statement that writes a pulled row: an insert that updates the
/// non-key columns of an existing row, or leaves it alone when every column
/// is a key column.
pub open spec fn upsert_sql(table: Seq<char>, cols: Seq<Seq<char>>, conflict: Seq<Seq<char>>) -> Seq<char> {
    let head = "INSERT INTO "@ + table + " ("@ + join_with(cols, ", "@) + ") VALUES ("@ + join_with(
        Seq::new(cols.len(), |k: int| "?"@),
        ", "@,
    ) + ") ON CONFLICT("@ + join_with(conflict, ", "@) + ")"@;
    let updates = update_assignments(cols, conflict);
    if updates.len() == 0 {
        head + " DO NOTHING"@
    } else {
        head + " DO UPDATE SET "@ + join_with(updates, ", "@)
    }
}

fn contains_key(conflict: &[&str], column: &str) -> (r: bool)
    ensures
        r == str_views(conflict@).contains(column@),
{
    let mut i: usize = 0;
    while i < conflict.len()
        invariant
            i <= conflict@.len(),
            forall|k: int| 0 <= k < i ==> str_views(conflict@)[k] != column@,
        decreases conflict@.len() - i,
    {
        if str_eq(conflict[i], column) {
            assert(str_views(conflict@)[i as int] == column@);
            return true;
        }
        i = i + 1;
    }
    false
}

pub fn remote_upsert_sql(table: &str, columns: &[String], conflict_columns: &[&str]) -> (r: String)
    ensures
        r@ == upsert_sql(table@, views(columns@), str_views(conflict_columns@)),
{
    let ghost cols = views(columns@);
    let ghost keys = str_views(conflict_columns@);
    let mut updates: Vec<String> = Vec::new();
    let mut marks: Vec<String> = Vec::new();
    let mut i: usize = 0;
    while i < columns.len()
        invariant
            i <= columns@.len(),
            cols == views(columns@),
            keys == str_views(conflict_columns@),
            views(updates@) == update_assignments(cols.take(i as int), keys),
            marks@.len() == i,
            forall|k: int| 0 <= k < i ==> marks@[k]@ == "?"@,
        decreases columns@.len() - i,
    {
        let column = columns[i].as_str();
        assert(cols.take(i + 1).drop_last() =~= cols.take(i as int));
        assert(cols.take(i + 1).last() == column@);
        if !contains_key(conflict_columns, column) {
            let mut assignment = to_owned_string(column);
            push_str(&mut assignment, " = excluded.");
            push_str(&mut assignment, column);
            updates.push(assignment);
        }
        marks.push(to_owned_string("?"));
        i = i + 1;
        assert(views(updates@) =~= update_assignments(cols.take(i as int), keys));
    }
    assert(cols.take(columns@.len() as int) =~= cols);
    assert(views(marks@) =~= Seq::new(cols.len(), |k: int| "?"@));
    let keys_v = to_strings(conflict_columns);
    let mut sql = to_owned_string("INSERT INTO ");
    push_str(&mut sql, table);
    push_str(&mut sql, " (");
    let joined_cols = join_strings(columns, ", ");
    push_str(&mut sql, joined_cols.as_str());
    push_str(&mut sql, ") VALUES (");
    let joined_marks = join_strings(&marks, ", ");
    push_str(&mut sql, joined_marks.as_str());
    push_str(&mut sql, ") ON CONFLICT(");
    let joined_keys = join_strings(&keys_v, ", ");
    push_str(&mut sql, joined_keys.as_str());
    push_str(&mut sql, ")");
    if updates.len() == 0 {
        push_str(&mut sql, " DO NOTHING");
    } else {
        push_str(&mut sql, " DO UPDATE SET ");
        let joined_updates = join_strings(&updates, ", ");
        push_str(&mut sql, joined_updates.as_str());
    }
    sql
}


/// `key = ?` for each key column that the row has.
pub open spec fn key_where_parts(conflict: Seq<Seq<char>>, cols: Seq<Seq<char>>) -> Seq<Seq<char>>
    decreases conflict.len(),
{
    if conflict.len() == 0 {
        Seq::empty()
    } else {
        let rest = key_where_parts(conflict.drop_last(), cols);
        match first_position(cols, conflict.last()) {
            Some(p) => rest.push(conflict.last() + " = ?"@),
            None => rest,
        }
    }
}

/// Where the value of each of those key columns stands in the row.
pub open spec fn key_positions(conflict: Seq<Seq<char>>, cols: Seq<Seq<char>>) -> Seq<int>
    decreases conflict.len(),
{
    if conflict.len() == 0 {
        Seq::empty()
    } else {
        let rest = key_positions(conflict.drop_last(), cols);
        match first_position(cols, conflict.last()) {
            Some(p) => rest.push(p),
            None => rest,
        }
    }
}

pub proof fn lemma_key_parts_len(conflict: Seq<Seq<char>>, cols: Seq<Seq<char>>)
    ensures
        key_where_parts(conflict, cols).len() == key_positions(conflict, cols).len(),
    decreases conflict.len(),
{
    if conflict.len() > 0 {
        lemma_key_parts_len(conflict.drop_last(), cols);
    }
}

/// The statement that marks a written row as in step with the cloud copy,
/// setting its `updated_at` to the pulled one when the table has that column.
pub open spec fn mark_synced_sql(table: Seq<char>, where_parts: Seq<Seq<char>>, with_updated_at: bool) -> Seq<char> {
    "UPDATE "@ + table + (if with_updated_at {
        " SET sincronizado = ?, updated_at = ? WHERE "@
    } else {
        " SET sincronizado = ? WHERE "@
    }) + join_with(where_parts, " AND "@)
}

/// The statement that marks a written row as synchronised, with the
/// positions of the key values that it takes after the new state; nothing
/// when the row has none of its key columns.
pub fn mark_synced_statement(
    table: &str,
    conflict_columns: &[&str],
    columns: &[String],
    with_updated_at: bool,
) -> (r: Option<(String, Vec<usize>)>)
    ensures
        key_positions(str_views(conflict_columns@), views(columns@)).len() == 0 ==> r is None,
        key_positions(str_views(conflict_columns@), views(columns@)).len() > 0 ==> (r matches Some(
            (sql, positions),
        ) && sql@ == mark_synced_sql(
            table@,
            key_where_parts(str_views(conflict_columns@), views(columns@)),
            with_updated_at,
        ) && positions@.len() == key_positions(str_views(conflict_columns@), views(columns@)).len()
            && forall|k: int|
            0 <= k < positions@.len() ==> positions@[k] as int == #[trigger] key_positions(
                str_views(conflict_columns@),
                views(columns@),
            )[k]),
{
    let ghost keys = str_views(conflict_columns@);
    let ghost cols = views(columns@);
    let mut parts: Vec<String> = Vec::new();
    let mut positions: Vec<usize> = Vec::new();
    let mut i: usize = 0;
    while i < conflict_columns.len()
        invariant
            i <= conflict_columns@.len(),
            keys == str_views(conflict_columns@),
            cols == views(columns@),
            views(parts@) == key_where_parts(keys.take(i as int), cols),
            positions@.len() == key_positions(keys.take(i as int), cols).len(),
            forall|k: int|
                0 <= k < positions@.len() ==> positions@[k] as int == #[trigger] key_positions(
                    keys.take(i as int),
                    cols,
                )[k],
        decreases conflict_columns@.len() - i,
    {
        let key = conflict_columns[i];
        let ghost prev = keys.take(i as int);
        assert(keys.take(i + 1).drop_last() =~= prev);
        assert(keys.take(i + 1).last() == key@);
        match column_position(columns, key) {
            Some(p) => {
                let mut part = to_owned_string(key);
                push_str(&mut part, " = ?");
                parts.push(part);
                positions.push(p);
            },
            None => {},
        }
        i = i + 1;
        assert(views(parts@) =~= key_where_parts(keys.take(i as int), cols));
    }
    assert(keys.take(conflict_columns@.len() as int) =~= keys);
    proof {
        lemma_key_parts_len(keys, cols);
    }
    if parts.len() == 0 {
        return None;
    }
    let mut sql = to_owned_string("UPDATE ");
    push_str(&mut sql, table);
    if with_updated_at {
        push_str(&mut sql, " SET sincronizado = ?, updated_at = ? WHERE ");
    } else {
        push_str(&mut sql, " SET sincronizado = ? WHERE ");
    }
    let joined = join_strings(&parts, " AND ");
    push_str(&mut sql, joined.as_str());
    Some((sql, positions))
}

/// The local column that a pulled column is written into: its counterpart in
/// a cloud backup, when that is a plain identifier the local table has.
pub open spec fn remote_target_column(table: Seq<char>, column: Seq<char>, local_cols: Seq<Seq<char>>) -> Option<Seq<char>> {
    match local_column(table, column, true) {
        Some(c) => if safe_identifier(c) && local_cols.contains(c) {
            Some(c)
        } else {
            None
        },
        None => None,
    }
}

pub fn remote_column_target(table: &str, column: &str, local_columns: &[String]) -> (r: Option<String>)
    ensures
        opt_seq(r) == remote_target_column(table@, column@, views(local_columns@)),
{
    match map_backup_column_to_local(table, column, true) {
        Some(local) => {
            if is_safe_identifier(local.as_str()) && contains_string(local_columns, local.as_str()) {
                Some(local)
            } else {
                None
            }
        },
        None => None,
    }
}

/// The `updated_at` that a pulled row carries, or the start of the epoch.
pub fn remote_updated_at(value: Option<&str>) -> (r: String)
    ensures
        r@ == match value {
            Some(v) => v@,
            None => "1970-01-01"@,
        },
{
    match value {
        Some(v) => to_owned_string(v),
        None => to_owned_string("1970-01-01"),
    }
}

/// The notice left when a local change wins over a pulled one, and the key
/// that keeps it from being repeated.
pub fn conflict_notification(table: &str, sync_key: &str, remote_updated: &str) -> (r: (String, String))
    ensures
        r.0@ == "Se conservó el cambio local pendiente en "@ + table@ + " ("@ + sync_key@
            + ") porque es más reciente que la versión recibida de Supabase."@,
        r.1@ == "sync:conflict:"@ + table@ + ":"@ + sync_key@ + ":"@ + remote_updated@,
{
    let mut message = to_owned_string("Se conservó el cambio local pendiente en ");
    push_str(&mut message, table);
    push_str(&mut message, " (");
    push_str(&mut message, sync_key);
    push_str(&mut message, ") porque es más reciente que la versión recibida de Supabase.");
    let mut key = to_owned_string("sync:conflict:");
    push_str(&mut key, table);
    push_str(&mut key, ":");
    push_str(&mut key, sync_key);
    push_str(&mut key, ":");
    push_str(&mut key, remote_updated);
    (message, key)
}


// ---------------------------------------------------------------------------
// Rows returned by an upload
// ---------------------------------------------------------------------------

/// The value under a name in a row (the first entry with that name).
pub open spec fn entry_value(row: Seq<(String, ValorImportado)>, key: Seq<char>) -> Option<ValorImportado>
    decreases row.len(),
{
    if row.len() == 0 {
        None
    } else if row[0].0@ == key {
        Some(row[0].1)
    } else {
        entry_value(row.drop_first(), key)
    }
}

/// The text of a value that is text (`as_str`).
pub open spec fn as_text(v: Option<ValorImportado>) -> Option<Seq<char>> {
    match v {
        Some(ValorImportado::Texto(t)) => Some(t@),
        _ => None,
    }
}

fn value_of<'a>(row: &'a [(String, ValorImportado)], key: &str) -> (r: Option<&'a ValorImportado>)
    ensures
        match r {
            Some(v) => entry_value(row@, key@) == Some(*v),
            None => entry_value(row@, key@) is None,
        },
{
    let mut i: usize = 0;
    assert(row@.skip(0) =~= row@);
    while i < row.len()
        invariant
            i <= row@.len(),
            entry_value(row@, key@) == entry_value(row@.skip(i as int), key@),
        decreases row@.len() - i,
    {
        assert(row@.skip(i as int)[0] == row@[i as int]);
        assert(row@.skip(i as int).drop_first() =~= row@.skip(i + 1));
        if str_eq(row[i].0.as_str(), key) {
            return Some(&row[i].1);
        }
        i = i + 1;
    }
    assert(row@.skip(i as int) =~= Seq::<(String, ValorImportado)>::empty());
    None
}

fn text_of(row: &[(String, ValorImportado)], key: &str) -> (r: Option<String>)
    ensures
        opt_seq(r) == as_text(entry_value(row@, key@)),
{
    match value_of(row, key) {
        Some(ValorImportado::Texto(t)) => Some(to_owned_string(t.as_str())),
        _ => None,
    }
}

/// `a|b` when both parts are there.
pub open spec fn pair_id(a: Option<Seq<char>>, b: Option<Seq<char>>) -> Option<Seq<char>> {
    match (a, b) {
        (Some(x), Some(y)) => Some(x + "|"@ + y),
        _ => None,
    }
}

/// The local identifier of a row sent back by the cloud copy: the product
/// and branch (or promotion and branch) joined with `|` for the tables keyed
/// by two columns, the customer for fiscal data, the company record's number
/// or text, the movement's `uuid`, and `id` elsewhere. `row` is nothing when
/// what came back is not an object.
pub open spec fn remote_local_id(table: Seq<char>, row: Option<Seq<(String, ValorImportado)>>) -> Option<Seq<char>> {
    match row {
        None => None,
        Some(o) => if table == "inventario_sucursal"@ {
            pair_id(as_text(entry_value(o, "producto_id"@)), as_text(entry_value(o, "sucursal_id"@)))
        } else if table == "promocion_sucursales"@ {
            pair_id(as_text(entry_value(o, "promocion_id"@)), as_text(entry_value(o, "sucursal_id"@)))
        } else if table == "clientes_datos_fiscales"@ {
            as_text(entry_value(o, "cliente_id"@))
        } else if table == "empresa_config_fiscal"@ {
            match entry_value(o, "id"@) {
                None => None,
                Some(ValorImportado::Entero(n)) => Some(int_decimal(n as int)),
                Some(ValorImportado::Texto(t)) => Some(t@),
                Some(_) => Some(Seq::empty()),
            }
        } else if table == "movimientos_inventario"@ {
            as_text(entry_value(o, "uuid"@))
        } else {
            as_text(entry_value(o, "id"@))
        },
    }
}

fn pair_of(row: &[(String, ValorImportado)], first: &str, second: &str) -> (r: Option<String>)
    ensures
        opt_seq(r) == pair_id(as_text(entry_value(row@, first@)), as_text(entry_value(row@, second@))),
{
    match text_of(row, first) {
        Some(a) => match text_of(row, second) {
            Some(b) => {
                let mut out = a;
                push_str(&mut out, "|");
                push_str(&mut out, b.as_str());
                Some(out)
            },
            None => None,
        },
        None => None,
    }
}

pub fn remote_row_local_id(table: &str, row: Option<&[(String, ValorImportado)]>) -> (r: Option<String>)
    ensures
        opt_seq(r) == remote_local_id(
            table@,
            match row {
                Some(o) => Some(o@),
                None => None,
            },
        ),
{
    let o = match row {
        Some(o) => o,
        None => {
            return None;
        },
    };
    if str_eq(table, "inventario_sucursal") {
        pair_of(o, "producto_id", "sucursal_id")
    } else if str_eq(table, "promocion_sucursales") {
        pair_of(o, "promocion_id", "sucursal_id")
    } else if str_eq(table, "clientes_datos_fiscales") {
        text_of(o, "cliente_id")
    } else if str_eq(table, "empresa_config_fiscal") {
        match value_of(o, "id") {
            None => None,
            Some(ValorImportado::Entero(n)) => Some(i64_to_decimal(*n)),
            Some(ValorImportado::Texto(t)) => Some(to_owned_string(t.as_str())),
            Some(_) => Some(String::new()),
        }
    } else if str_eq(table, "movimientos_inventario") {
        text_of(o, "uuid")
    } else {
        text_of(o, "id")
    }
}

/// The `updated_at` text of a row sent back by the cloud copy.
pub fn remote_row_updated_at(row: Option<&[(String, ValorImportado)]>) -> (r: Option<String>)
    ensures
        opt_seq(r) == match row {
            Some(o) => as_text(entry_value(o@, "updated_at"@)),
            None => None,
        },
{
    match row {
        Some(o) => text_of(o, "updated_at"),
        None => None,
    }
}

/// A two-part identifier split at its first `|` (`split_once('|')`).
pub open spec fn split_pair(s: Seq<char>) -> Option<(Seq<char>, Seq<char>)> {
    match first_index(s, '|') {
        Some(i) => Some((s.take(i), s.skip(i + 1))),
        None => None,
    }
}

pub fn split_composite_id(id: &str) -> (r: Option<(String, String)>)
    ensures
        match r {
            Some((a, b)) => split_pair(id@) == Some((a@, b@)),
            None => split_pair(id@) is None,
        },
{
    let v = chars_of(id);
    let mut i: usize = 0;
    while i < v.len()
        invariant
            i <= v@.len(),
            v@ == id@,
            forall|k: int| 0 <= k < i ==> v@[k] != '|',
        decreases v@.len() - i,
    {
        if v[i] == '|' {
            proof {
                lemma_first_index(id@, '|');
            }
            let a = string_of_range(&v, 0, i);
            let b = string_of_range(&v, i + 1, v.len());
            assert(a@ =~= id@.take(i as int));
            assert(b@ =~= id@.skip(i + 1));
            return Some((a, b));
        }
        i = i + 1;
    }
    proof {
        lemma_first_index(id@, '|');
    }
    None
}

/// The identifier that pairs two keys splits back into the same two keys,
/// when the first has no `|`.
pub proof fn law_pair_id_splits_back(a: Seq<char>, b: Seq<char>)
    requires
        !a.contains('|'),
    ensures
        split_pair(a + "|"@ + b) == Some((a, b)),
{
    reveal_strlit("|");
    let s = a + "|"@ + b;
    lemma_first_index(s, '|');
    assert(s[a.len() as int] == '|');
    assert forall|k: int| 0 <= k < a.len() implies s[k] != '|' by {
        assert(s[k] == a[k]);
    }
    assert(s.take(a.len() as int) =~= a);
    assert(s.skip(a.len() as int + 1) =~= b);
}

/// The column that identifies a row of a table keyed by one column.
pub open spec fn single_key_column(table: Seq<char>) -> Seq<char> {
    if table == "clientes_datos_fiscales"@ {
        "cliente_id"@
    } else if table == "movimientos_inventario"@ {
        "uuid"@
    } else {
        "id"@
    }
}

/// The statement that marks uploaded rows of a table keyed by one column as
/// synchronised, for `n` identifiers after the new `updated_at`.
pub open spec fn mark_ids_sql(table: Seq<char>, n: nat) -> Seq<char> {
    "UPDATE "@ + table + " SET sincronizado = 1, updated_at = ? WHERE "@ + single_key_column(table)
        + " IN ("@ + join_with(Seq::new(n, |k: int| "?"@), ", "@) + ")"@
}

pub fn mark_ids_synced_sql(table: &str, n: usize) -> (r: String)
    ensures
        r@ == mark_ids_sql(table@, n as nat),
{
    let mut marks: Vec<String> = Vec::new();
    let mut i: usize = 0;
    while i < n
        invariant
            i <= n,
            marks@.len() == i,
            forall|k: int| 0 <= k < i ==> marks@[k]@ == "?"@,
        decreases n - i,
    {
        marks.push(to_owned_string("?"));
        i = i + 1;
    }
    assert(views(marks@) =~= Seq::new(n as nat, |k: int| "?"@));
    let key = if str_eq(table, "clientes_datos_fiscales") {
        "cliente_id"
    } else if str_eq(table, "movimientos_inventario") {
        "uuid"
    } else {
        "id"
    };
    let mut sql = to_owned_string("UPDATE ");
    push_str(&mut sql, table);
    push_str(&mut sql, " SET sincronizado = 1, updated_at = ? WHERE ");
    push_str(&mut sql, key);
    push_str(&mut sql, " IN (");
    let joined = join_strings(&marks, ", ");
    push_str(&mut sql, joined.as_str());
    push_str(&mut sql, ")");
    sql
}


// ---------------------------------------------------------------------------
// What is waiting for upload
// ---------------------------------------------------------------------------

/// The rows waiting for upload over the tables counted so far.
pub open spec fn total_pendientes(c: Seq<(String, i64)>) -> int
    decreases c.len(),
{
    if c.len() == 0 {
        0
    } else {
        total_pendientes(c.drop_last()) + c.last().1
    }
}

/// The rows of sales waiting for upload (the count given for `ventas`).
pub open spec fn ventas_pendientes(c: Seq<(String, i64)>) -> i64
    decreases c.len(),
{
    if c.len() == 0 {
        0
    } else if c.last().0@ == "ventas"@ {
        c.last().1
    } else {
        ventas_pendientes(c.drop_last())
    }
}

/// The tables with rows waiting for upload, in the order counted.
pub open spec fn tablas_pendientes(c: Seq<(String, i64)>) -> Seq<(Seq<char>, i64)>
    decreases c.len(),
{
    if c.len() == 0 {
        Seq::empty()
    } else if c.last().1 > 0 {
        tablas_pendientes(c.drop_last()).push((c.last().0@, c.last().1))
    } else {
        tablas_pendientes(c.drop_last())
    }
}

/// Every running total fits in `i64`.
pub open spec fn sumas_caben(c: Seq<(String, i64)>) -> bool {
    forall|i: int| 0 <= i <= c.len() ==> i64::MIN <= #[trigger] total_pendientes(c.take(i)) <= i64::MAX
}

/// The state of the synchronisation shown to the user, from the rows waiting
/// in each table and the times and error of the last attempts.
pub fn resumen_sincronizacion(
    conteos: &[(String, i64)],
    ultimo_intento_at: Option<String>,
    ultimo_exito_at: Option<String>,
    ultimo_error_at: Option<String>,
    ultimo_error: Option<String>,
) -> (r: SyncStatus)
    requires
        sumas_caben(conteos@),
    ensures
        r.pendientes == total_pendientes(conteos@),
        r.ventas_pendientes == ventas_pendientes(conteos@),
        r.tablas_pendientes@.len() == tablas_pendientes(conteos@).len(),
        forall|k: int|
            0 <= k < r.tablas_pendientes@.len() ==> (#[trigger] r.tablas_pendientes@[k]).tabla@ == tablas_pendientes(
                conteos@,
            )[k].0 && r.tablas_pendientes@[k].pendientes == tablas_pendientes(conteos@)[k].1,
        r.ultimo_intento_at == ultimo_intento_at,
        r.ultimo_exito_at == ultimo_exito_at,
        r.ultimo_error_at == ultimo_error_at,
        r.ultimo_error == ultimo_error,
{
    let ghost c = conteos@;
    let mut pendientes: i64 = 0;
    let mut ventas: i64 = 0;
    let mut tablas: Vec<SyncTableStatus> = Vec::new();
    let mut i: usize = 0;
    assert(c.take(0) =~= Seq::<(String, i64)>::empty());
    while i < conteos.len()
        invariant
            i <= c.len(),
            c == conteos@,
            sumas_caben(c),
            pendientes == total_pendientes(c.take(i as int)),
            ventas == ventas_pendientes(c.take(i as int)),
            tablas@.len() == tablas_pendientes(c.take(i as int)).len(),
            forall|k: int|
                0 <= k < tablas@.len() ==> (#[trigger] tablas@[k]).tabla@ == tablas_pendientes(
                    c.take(i as int),
                )[k].0 && tablas@[k].pendientes == tablas_pendientes(c.take(i as int))[k].1,
        decreases c.len() - i,
    {
        let ghost prev = c.take(i as int);
        assert(c.take(i + 1).drop_last() =~= prev);
        assert(c.take(i + 1).last() == c[i as int]);
        let count = conteos[i].1;
        assert(i64::MIN <= total_pendientes(c.take(i + 1)) <= i64::MAX);
        pendientes = pendientes + count;
        if str_eq(conteos[i].0.as_str(), "ventas") {
            ventas = count;
        }
        if count > 0 {
            tablas.push(SyncTableStatus { tabla: to_owned_string(conteos[i].0.as_str()), pendientes: count });
        }
        i = i + 1;
    }
    assert(c.take(c.len() as int) =~= c);
    SyncStatus {
        pendientes,
        ventas_pendientes: ventas,
        tablas_pendientes: tablas,
        ultimo_intento_at,
        ultimo_exito_at,
        ultimo_error_at,
        ultimo_error,
    }
}


// ---------------------------------------------------------------------------
// Uploads
// ---------------------------------------------------------------------------

/// The cloud copy is used only when it is marked connected and has a URL
/// and a key.
pub open spec fn supabase_listo(c: SupabaseConfig) -> bool {
    c.is_connected && !is_blank(c.url@) && !is_blank(c.anon_key@)
}

pub fn supabase_conectado(config: &SupabaseConfig) -> (r: bool)
    ensures
        r == supabase_listo(*config),
{
    config.is_connected && !is_blank_str(config.url.as_str()) && !is_blank_str(config.anon_key.as_str())
}

/// Where a batch of a table is upserted: the project URL without trailing
/// `/`, the table, and the columns that identify its rows.
pub fn upload_endpoint(url: &str, table: &str, conflict_target: &str) -> (r: String)
    ensures
        r@ == strip_end_char(url@, '/') + "/rest/v1/"@ + table@ + "?on_conflict="@ + conflict_target@,
{
    let mut e = trim_end_char(url, '/');
    push_str(&mut e, "/rest/v1/");
    push_str(&mut e, table);
    push_str(&mut e, "?on_conflict=");
    push_str(&mut e, conflict_target);
    e
}

/// The notice of a background upload that sent rows: how many changes went
/// up (the drop in pending rows, and at least the rows sent) and, when sales
/// were waiting, how many. Nothing when nothing was sent or nothing was
/// waiting. `marca` keeps each notice apart.
pub open spec fn subidos(antes: i64, despues: i64, total: int) -> int {
    let diff = antes - despues;
    let bajada = if diff > i64::MAX {
        i64::MAX as int
    } else if diff < i64::MIN {
        i64::MIN as int
    } else {
        diff
    };
    if bajada > total {
        bajada
    } else {
        total
    }
}

pub fn aviso_subida(
    pendientes_antes: i64,
    pendientes_despues: i64,
    total: usize,
    ventas_antes: i64,
    marca: &str,
) -> (r: Option<(String, String)>)
    requires
        total <= i64::MAX,
    ensures
        !(total > 0 && pendientes_antes > 0) ==> r is None,
        total > 0 && pendientes_antes > 0 ==> (r matches Some((m, k)) && m@ == "Se subieron con éxito "@
            + int_decimal(subidos(pendientes_antes, pendientes_despues, total as int))
            + " cambios locales a Supabase."@ + (if ventas_antes > 0 {
            " Incluye hasta "@ + int_decimal(ventas_antes as int) + " ventas pendientes."@
        } else {
            Seq::empty()
        }) && k@ == "sync:upload-ok:"@ + marca@),
{
    if !(total > 0 && pendientes_antes > 0) {
        return None;
    }
    let d: i128 = (pendientes_antes as i128) - (pendientes_despues as i128);
    let bajada: i64 = if d > (i64::MAX as i128) {
        i64::MAX
    } else if d < (i64::MIN as i128) {
        i64::MIN
    } else {
        d as i64
    };
    let t = total as i64;
    let n = if bajada > t {
        bajada
    } else {
        t
    };
    let mut m = to_owned_string("Se subieron con éxito ");
    let digits = i64_to_decimal(n);
    push_str(&mut m, digits.as_str());
    push_str(&mut m, " cambios locales a Supabase.");
    if ventas_antes > 0 {
        push_str(&mut m, " Incluye hasta ");
        let v = i64_to_decimal(ventas_antes);
        push_str(&mut m, v.as_str());
        push_str(&mut m, " ventas pendientes.");
    }
    let mut k = to_owned_string("sync:upload-ok:");
    push_str(&mut k, marca);
    Some((m, k))
}

/// What a round of the background synchronisation reports: the rows sent
/// and received, or the errors of the directions that failed, each named,
/// joined with ` | `.
pub open spec fn ronda_correcta(
    subida: Result<usize, String>,
    bajada: Result<usize, String>,
    r: Result<(usize, usize), String>,
) -> bool {
    match (subida, bajada) {
        (Ok(u), Ok(d)) => r == Ok::<(usize, usize), String>((u, d)),
        (Err(e), Ok(_)) => r matches Err(m) && m@ == "subida: "@ + e@,
        (Ok(_), Err(e)) => r matches Err(m) && m@ == "bajada: "@ + e@,
        (Err(e1), Err(e2)) => r matches Err(m) && m@ == "subida: "@ + e1@ + " | "@ + "bajada: "@ + e2@,
    }
}

pub fn resultado_ronda_sync(subida: Result<usize, String>, bajada: Result<usize, String>) -> (r: Result<
    (usize, usize),
    String,
>)
    ensures
        ronda_correcta(subida, bajada, r),
{
    match (subida, bajada) {
        (Ok(u), Ok(d)) => Ok((u, d)),
        (Err(e), Ok(_)) => {
            let mut m = to_owned_string("subida: ");
            push_str(&mut m, e.as_str());
            Err(m)
        },
        (Ok(_), Err(e)) => {
            let mut m = to_owned_string("bajada: ");
            push_str(&mut m, e.as_str());
            Err(m)
        },
        (Err(e1), Err(e2)) => {
            let mut m = to_owned_string("subida: ");
            push_str(&mut m, e1.as_str());
            push_str(&mut m, " | ");
            push_str(&mut m, "bajada: ");
            push_str(&mut m, e2.as_str());
            Err(m)
        },
    }
}


/// What a manual exchange with the cloud copy needs: a configuration (else
/// `sin_configurar`, which names the exchange) that is connected.
pub fn check_supabase_manual(config: Option<&SupabaseConfig>, sin_configurar: &str) -> (r: Result<(), String>)
    ensures
        config is None ==> (r matches Err(m) && m@ == sin_configurar@),
        config matches Some(c) && !supabase_listo(*c) ==> (r matches Err(m) && m@ == "Supabase no está conectado."@),
        config matches Some(c) && supabase_listo(*c) ==> r is Ok,
{
    match config {
        None => Err(to_owned_string(sin_configurar)),
        Some(c) => {
            if !supabase_conectado(c) {
                Err(to_owned_string("Supabase no está conectado."))
            } else {
                Ok(())
            }
        },
    }
}

/// The request that checks that a project answers: one branch identifier.
pub fn health_url(url: &str) -> (r: String)
    ensures
        r@ == url@ + "/rest/v1/sucursales?select=id&limit=1"@,
{
    let mut u = to_owned_string(url);
    push_str(&mut u, "/rest/v1/sucursales?select=id&limit=1");
    u
}


/// The query that reads the local state of the row a pulled row would
/// overwrite, with the positions of the key values it takes; nothing when
/// the row has none of its key columns.
pub fn local_state_query(table: &str, conflict_columns: &[&str], columns: &[String]) -> (r: Option<(String, Vec<usize>)>)
    ensures
        key_positions(str_views(conflict_columns@), views(columns@)).len() == 0 ==> r is None,
        key_positions(str_views(conflict_columns@), views(columns@)).len() > 0 ==> (r matches Some(
            (sql, positions),
        ) && sql@ == "SELECT sincronizado, updated_at FROM "@ + table@ + " WHERE "@ + join_with(
            key_where_parts(str_views(conflict_columns@), views(columns@)),
            " AND "@,
        ) && positions@.len() == key_positions(str_views(conflict_columns@), views(columns@)).len()
            && forall|k: int|
            0 <= k < positions@.len() ==> positions@[k] as int == #[trigger] key_positions(
                str_views(conflict_columns@),
                views(columns@),
            )[k]),
{
    let ghost keys = str_views(conflict_columns@);
    let ghost cols = views(columns@);
    let mut parts: Vec<String> = Vec::new();
    let mut positions: Vec<usize> = Vec::new();
    let mut i: usize = 0;
    while i < conflict_columns.len()
        invariant
            i <= conflict_columns@.len(),
            keys == str_views(conflict_columns@),
            cols == views(columns@),
            views(parts@) == key_where_parts(keys.take(i as int), cols),
            positions@.len() == key_positions(keys.take(i as int), cols).len(),
            forall|k: int|
                0 <= k < positions@.len() ==> positions@[k] as int == #[trigger] key_positions(
                    keys.take(i as int),
                    cols,
                )[k],
        decreases conflict_columns@.len() - i,
    {
        let key = conflict_columns[i];
        assert(keys.take(i + 1).drop_last() =~= keys.take(i as int));
        assert(keys.take(i + 1).last() == key@);
        match column_position(columns, key) {
            Some(p) => {
                let mut part = to_owned_string(key);
                push_str(&mut part, " = ?");
                parts.push(part);
                positions.push(p);
            },
            None => {},
        }
        i = i + 1;
        assert(views(parts@) =~= key_where_parts(keys.take(i as int), cols));
    }
    assert(keys.take(conflict_columns@.len() as int) =~= keys);
    proof {
        lemma_key_parts_len(keys, cols);
    }
    if parts.len() == 0 {
        return None;
    }
    let mut sql = to_owned_string("SELECT sincronizado, updated_at FROM ");
    push_str(&mut sql, table);
    push_str(&mut sql, " WHERE ");
    let joined = join_strings(&parts, " AND ");
    push_str(&mut sql, joined.as_str());
    Some((sql, positions))
}


/// The error kept of a failed round: its first seven hundred characters.
pub fn error_recortado(error: &str) -> (r: String)
    ensures
        r@ == (if error@.len() <= 700 {
            error@
        } else {
            error@.take(700)
        }),
{
    let v = chars_of(error);
    let n: usize = if v.len() <= 700 {
        v.len()
    } else {
        700
    };
    let out = string_of_range(&v, 0, n);
    assert(v@.subrange(0, n as int) =~= (if error@.len() <= 700 { error@ } else { error@.take(700) }));
    out
}

} // verus!
