//! Restoring a backup over the local database: the order in which tables
//! are emptied and filled, the columns a backed-up row is written into, and
//! the statements that write it.
use vstd::prelude::*;
use crate::error::{is_validation, AppError};
use crate::sync::{
    backup_table_names, backup_tables, local_column, map_backup_column_to_local, safe_identifier,
    is_safe_identifier, str_views,
};
use crate::text::{
    contains_string, i64_to_decimal, int_decimal, join_strings, join_with, opt_seq, push_str,
    str_eq, to_owned_string, views,
};

verus! {

/// A backup taken from the cloud copy (rather than a local one).
pub open spec fn remote_backup(version: Seq<char>) -> bool {
    version == "supabase-rest-v1"@
}

pub fn es_respaldo_remoto(version: &str) -> (r: bool)
    ensures
        r == remote_backup(version@),
{
    str_eq(version, "supabase-rest-v1")
}

/// The tables a local backup carries besides the synchronised ones.
pub open spec fn local_only_tables() -> Seq<Seq<char>> {
    seq!["notificaciones"@]
}

/// The order in which a restore fills the tables: the synchronised tables,
/// parents first, then, for a local backup, the local-only ones.
pub open spec fn fill_order(remote: bool) -> Seq<Seq<char>> {
    if remote {
        backup_tables()
    } else {
        backup_tables() + local_only_tables()
    }
}

/// The order in which a restore empties the tables: the local-only ones
/// first (for a local backup), then the synchronised tables, children first.
pub open spec fn empty_order(remote: bool) -> Seq<Seq<char>> {
    if remote {
        backup_tables().reverse()
    } else {
        local_only_tables() + backup_tables().reverse()
    }
}

/// The tables a restore empties and then fills, in order.
pub fn orden_restauracion(remote: bool) -> (r: (Vec<&'static str>, Vec<&'static str>))
    ensures
        str_views(r.0@) == empty_order(remote),
        str_views(r.1@) == fill_order(remote),
{
    let tables = backup_table_names();
    let mut vaciar: Vec<&'static str> = Vec::new();
    if !remote {
        vaciar.push("notificaciones");
    }
    let ghost base = str_views(vaciar@);
    let mut i: usize = tables.len();
    while i > 0
        invariant
            i <= tables@.len(),
            str_views(tables@) == backup_tables(),
            base == (if remote { Seq::<Seq<char>>::empty() } else { local_only_tables() }),
            str_views(vaciar@) == base + backup_tables().subrange(i as int, tables@.len() as int).reverse(),
        decreases i,
    {
        i = i - 1;
        let ghost prev = str_views(vaciar@);
        vaciar.push(tables[i]);
        assert(str_views(vaciar@) =~= prev.push(tables@[i as int]@));
        assert(tables@[i as int]@ == str_views(tables@)[i as int]);
        assert(backup_tables().subrange(i as int, tables@.len() as int).reverse() =~= backup_tables().subrange(
            i + 1,
            tables@.len() as int,
        ).reverse().push(backup_tables()[i as int]));
        assert(str_views(vaciar@) =~= base + backup_tables().subrange(i as int, tables@.len() as int).reverse());
    }
    assert(backup_tables().subrange(0, tables@.len() as int) =~= backup_tables());
    let mut llenar = tables;
    if !remote {
        llenar.push("notificaciones");
    }
    assert(str_views(vaciar@) =~= empty_order(remote));
    assert(str_views(llenar@) =~= fill_order(remote));
    (vaciar, llenar)
}

/// A restore empties the tables in exactly the reverse of the order in which
/// it fills them, so children are emptied before their parents and parents
/// are filled before their children.
pub proof fn law_restore_empties_in_reverse_fill_order(remote: bool)
    ensures
        empty_order(remote) == fill_order(remote).reverse(),
{
    if !remote {
        assert((backup_tables() + local_only_tables()).reverse() =~= local_only_tables().reverse()
            + backup_tables().reverse());
        assert(local_only_tables().reverse() =~= local_only_tables());
    } else {
        assert(backup_tables().reverse() =~= backup_tables().reverse());
    }
}

/// Where a backed-up column is written: its local counterpart when the table
/// has it; nothing for a column without counterpart or that the table lacks;
/// and a refusal when the counterpart is not a plain identifier.
pub open spec fn backup_target(table: Seq<char>, column: Seq<char>, remote: bool, local_cols: Seq<Seq<char>>) -> Result<
    Option<Seq<char>>,
    Seq<char>,
> {
    match local_column(table, column, remote) {
        None => Ok(None),
        Some(c) => if !safe_identifier(c) {
            Err("El respaldo contiene una columna inválida: "@ + c + "."@)
        } else if local_cols.contains(c) {
            Ok(Some(c))
        } else {
            Ok(None)
        },
    }
}

pub fn columna_de_respaldo(table: &str, column: &str, remote: bool, local_columns: &[String]) -> (r: Result<
    Option<String>,
    AppError,
>)
    ensures
        match backup_target(table@, column@, remote, views(local_columns@)) {
            Ok(t) => r matches Ok(x) && opt_seq(x) == t,
            Err(m) => r matches Err(e) && is_validation(e, m),
        },
{
    match map_backup_column_to_local(table, column, remote) {
        None => Ok(None),
        Some(local) => {
            if !is_safe_identifier(local.as_str()) {
                let mut m = to_owned_string("El respaldo contiene una columna inválida: ");
                push_str(&mut m, local.as_str());
                push_str(&mut m, ".");
                return Err(AppError::Validation(m));
            }
            if contains_string(local_columns, local.as_str()) {
                Ok(Some(local))
            } else {
                Ok(None)
            }
        },
    }
}

/// The statement that writes a backed-up row.
pub open spec fn restore_insert_sql(table: Seq<char>, cols: Seq<Seq<char>>) -> Seq<char> {
    "INSERT OR REPLACE INTO "@ + table + " ("@ + join_with(cols, ", "@) + ") VALUES ("@ + join_with(
        Seq::new(cols.len(), |k: int| "?"@),
        ", "@,
    ) + ")"@
}

pub fn sql_insertar_respaldo(table: &str, columns: &[String]) -> (r: String)
    ensures
        r@ == restore_insert_sql(table@, views(columns@)),
{
    let mut marks: Vec<String> = Vec::new();
    let mut i: usize = 0;
    while i < columns.len()
        invariant
            i <= columns@.len(),
            marks@.len() == i,
            forall|k: int| 0 <= k < i ==> marks@[k]@ == "?"@,
        decreases columns@.len() - i,
    {
        marks.push(to_owned_string("?"));
        i = i + 1;
    }
    assert(views(marks@) =~= Seq::new(views(columns@).len(), |k: int| "?"@));
    let mut sql = to_owned_string("INSERT OR REPLACE INTO ");
    push_str(&mut sql, table);
    push_str(&mut sql, " (");
    let joined = join_strings(columns, ", ");
    push_str(&mut sql, joined.as_str());
    push_str(&mut sql, ") VALUES (");
    let joined_marks = join_strings(&marks, ", ");
    push_str(&mut sql, joined_marks.as_str());
    push_str(&mut sql, ")");
    sql
}

/// A backed-up row that is not an object is refused.
pub fn renglon_invalido(table: &str) -> (r: AppError)
    ensures
        is_validation(r, "La tabla "@ + table@ + " contiene un renglón inválido en el respaldo."@),
{
    let mut m = to_owned_string("La tabla ");
    push_str(&mut m, table);
    push_str(&mut m, " contiene un renglón inválido en el respaldo.");
    AppError::Validation(m)
}

/// A restore that leaves broken references is not kept.
pub fn check_referencias_respaldo(violaciones: i64) -> (r: Result<(), AppError>)
    ensures
        violaciones > 0 ==> (r matches Err(e) && is_validation(
            e,
            "El respaldo no se aplicó porque contiene "@ + int_decimal(violaciones as int)
                + " referencias inválidas."@,
        )),
        violaciones <= 0 ==> r is Ok,
{
    if violaciones > 0 {
        let mut m = to_owned_string("El respaldo no se aplicó porque contiene ");
        let n = i64_to_decimal(violaciones);
        push_str(&mut m, n.as_str());
        push_str(&mut m, " referencias inválidas.");
        return Err(AppError::Validation(m));
    }
    Ok(())
}


/// Nothing is restored or overwritten while a cash register is open.
pub fn check_sin_cajas_abiertas(abiertas: i64) -> (r: Result<(), String>)
    ensures
        abiertas > 0 ==> (r matches Err(m) && m@
            == "No se puede restaurar o sobrescribir datos mientras existan cajas abiertas. Cierra los turnos primero."@),
        abiertas <= 0 ==> r is Ok,
{
    if abiertas > 0 {
        return Err(
            to_owned_string(
                "No se puede restaurar o sobrescribir datos mientras existan cajas abiertas. Cierra los turnos primero.",
            ),
        );
    }
    Ok(())
}

} // verus!
