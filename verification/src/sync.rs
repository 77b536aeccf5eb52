//! Planning of the synchronisation with the cloud copy and of local backups:
//! which tables travel, how rows are keyed, and the requests that carry them.
use vstd::prelude::*;
use vstd::utf8::encode_utf8;
use crate::error::{validation, validation_outcome, AppError};
use crate::model::SupabaseConfig;
use crate::text::{
    chars_of, concat2, decimal, digit_char, ends_with, is_alnum_char, is_ascii_alnum, join_strings,
    join_with, push_str, starts_with, str_eq, strip_end_char, strip_end_seq, to_owned_string, trim,
    trim_end_char, trim_end_str, trim_str, u64_to_decimal, views,
};

verus! {

// ---------------------------------------------------------------------------
// Tables
// ---------------------------------------------------------------------------

/// Tables whose rows travel with a generated `sync_uuid`.
pub open spec fn uuid_sync_table(t: Seq<char>) -> bool {
    ||| t == "compras"@
    ||| t == "detalle_compras"@
    ||| t == "ventas"@
    ||| t == "detalle_ventas"@
    ||| t == "creditos_abonos"@
    ||| t == "cajas_sesiones"@
    ||| t == "caja_movimientos"@
    ||| t == "traspasos"@
    ||| t == "detalle_traspasos"@
    ||| t == "mermas_ajustes"@
    ||| t == "facturas_emitidas"@
}

pub fn is_uuid_sync_table(t: &str) -> (r: bool)
    ensures
        r == uuid_sync_table(t@),
{
    str_eq(t, "compras") || str_eq(t, "detalle_compras") || str_eq(t, "ventas") || str_eq(
        t,
        "detalle_ventas",
    ) || str_eq(t, "creditos_abonos") || str_eq(t, "cajas_sesiones") || str_eq(
        t,
        "caja_movimientos",
    ) || str_eq(t, "traspasos") || str_eq(t, "detalle_traspasos") || str_eq(t, "mermas_ajustes")
        || str_eq(t, "facturas_emitidas")
}

/// The tables a complete backup must hold.
pub open spec fn backup_tables() -> Seq<Seq<char>> {
    seq![
        "sucursales"@, "empresa_config_fiscal"@, "usuarios"@, "proveedores"@, "marcas"@,
        "categorias"@, "unidades"@, "productos"@, "inventario_sucursal"@, "clientes"@,
        "clientes_datos_fiscales"@, "compras"@, "detalle_compras"@, "ventas"@, "detalle_ventas"@,
        "creditos_abonos"@, "cajas_sesiones"@, "caja_movimientos"@, "traspasos"@,
        "detalle_traspasos"@, "mermas_ajustes"@, "movimientos_inventario"@, "facturas_emitidas"@,
        "promociones"@, "promocion_sucursales"@,
    ]
}

pub open spec fn str_views(v: Seq<&str>) -> Seq<Seq<char>> {
    v.map_values(|s: &str| s@)
}

pub fn backup_table_names() -> (r: Vec<&'static str>)
    ensures
        str_views(r@) == backup_tables(),
{
    let mut v: Vec<&'static str> = Vec::new();
    v.push("sucursales");
    v.push("empresa_config_fiscal");
    v.push("usuarios");
    v.push("proveedores");
    v.push("marcas");
    v.push("categorias");
    v.push("unidades");
    v.push("productos");
    v.push("inventario_sucursal");
    v.push("clientes");
    v.push("clientes_datos_fiscales");
    v.push("compras");
    v.push("detalle_compras");
    v.push("ventas");
    v.push("detalle_ventas");
    v.push("creditos_abonos");
    v.push("cajas_sesiones");
    v.push("caja_movimientos");
    v.push("traspasos");
    v.push("detalle_traspasos");
    v.push("mermas_ajustes");
    v.push("movimientos_inventario");
    v.push("facturas_emitidas");
    v.push("promociones");
    v.push("promocion_sucursales");
    assert(str_views(v@) =~= backup_tables());
    v
}

// ---------------------------------------------------------------------------
// Row identity
// ---------------------------------------------------------------------------

/// The condition that singles out the row touched by an update, for the
/// trigger that marks it as pending synchronisation.
pub open spec fn dirty_predicate(table: Seq<char>) -> Seq<char> {
    if table == "inventario_sucursal"@ {
        "producto_id = NEW.producto_id AND sucursal_id = NEW.sucursal_id"@
    } else if table == "promocion_sucursales"@ {
        "promocion_id = NEW.promocion_id AND sucursal_id = NEW.sucursal_id"@
    } else if table == "clientes_datos_fiscales"@ {
        "cliente_id = NEW.cliente_id"@
    } else if table == "movimientos_inventario"@ {
        "uuid = NEW.uuid"@
    } else {
        "id = NEW.id"@
    }
}

pub fn sync_dirty_predicate(table: &str) -> (r: Option<&'static str>)
    ensures
        r matches Some(p) && p@ == dirty_predicate(table@),
{
    if str_eq(table, "inventario_sucursal") {
        Some("producto_id = NEW.producto_id AND sucursal_id = NEW.sucursal_id")
    } else if str_eq(table, "promocion_sucursales") {
        Some("promocion_id = NEW.promocion_id AND sucursal_id = NEW.sucursal_id")
    } else if str_eq(table, "clientes_datos_fiscales") {
        Some("cliente_id = NEW.cliente_id")
    } else if str_eq(table, "movimientos_inventario") {
        Some("uuid = NEW.uuid")
    } else {
        Some("id = NEW.id")
    }
}

/// The columns that identify a row of a table when pulled from the cloud.
pub open spec fn conflict_columns(table: Seq<char>) -> Seq<Seq<char>> {
    if table == "inventario_sucursal"@ {
        seq!["producto_id"@, "sucursal_id"@]
    } else if table == "promocion_sucursales"@ {
        seq!["promocion_id"@, "sucursal_id"@]
    } else if table == "clientes_datos_fiscales"@ {
        seq!["cliente_id"@]
    } else if table == "movimientos_inventario"@ {
        seq!["uuid"@]
    } else {
        seq!["id"@]
    }
}

pub fn pull_conflict_columns(table: &str) -> (r: Vec<&'static str>)
    ensures
        str_views(r@) == conflict_columns(table@),
{
    let mut v: Vec<&'static str> = Vec::new();
    if str_eq(table, "inventario_sucursal") {
        v.push("producto_id");
        v.push("sucursal_id");
    } else if str_eq(table, "promocion_sucursales") {
        v.push("promocion_id");
        v.push("sucursal_id");
    } else if str_eq(table, "clientes_datos_fiscales") {
        v.push("cliente_id");
    } else if str_eq(table, "movimientos_inventario") {
        v.push("uuid");
    } else {
        v.push("id");
    }
    assert(str_views(v@) =~= conflict_columns(table@));
    v
}

/// `column = NEW.column`, the condition that a row has the key of the row
/// just updated.
pub open spec fn key_equation(c: Seq<char>) -> Seq<char> {
    c + " = NEW."@ + c
}

/// The row a local update marks as pending is singled out by the same key
/// columns that identify it when it is pulled back from the cloud.
pub proof fn law_dirty_marking_uses_pull_key(table: Seq<char>)
    ensures
        dirty_predicate(table) == join_with(conflict_columns(table).map_values(|c: Seq<char>| key_equation(c)), " AND "@),
{
    let cols = conflict_columns(table);
    let eqs = cols.map_values(|c: Seq<char>| key_equation(c));
    reveal_strlit(" = NEW.");
    reveal_strlit(" AND ");
    if table == "inventario_sucursal"@ {
        reveal_strlit("producto_id");
        reveal_strlit("sucursal_id");
        reveal_strlit("producto_id = NEW.producto_id AND sucursal_id = NEW.sucursal_id");
        assert(eqs.len() == 2);
        assert(eqs.drop_last() =~= seq![key_equation("producto_id"@)]);
        assert(join_with(eqs.drop_last(), " AND "@) == key_equation("producto_id"@));
        assert(eqs.last() == key_equation("sucursal_id"@));
        assert(dirty_predicate(table) =~= key_equation("producto_id"@) + " AND "@ + key_equation("sucursal_id"@));
    } else if table == "promocion_sucursales"@ {
        reveal_strlit("promocion_id");
        reveal_strlit("sucursal_id");
        reveal_strlit("promocion_id = NEW.promocion_id AND sucursal_id = NEW.sucursal_id");
        assert(eqs.len() == 2);
        assert(eqs.drop_last() =~= seq![key_equation("promocion_id"@)]);
        assert(join_with(eqs.drop_last(), " AND "@) == key_equation("promocion_id"@));
        assert(eqs.last() == key_equation("sucursal_id"@));
        assert(dirty_predicate(table) =~= key_equation("promocion_id"@) + " AND "@ + key_equation("sucursal_id"@));
    } else if table == "clientes_datos_fiscales"@ {
        reveal_strlit("cliente_id");
        reveal_strlit("cliente_id = NEW.cliente_id");
        assert(eqs.len() == 1 && eqs[0] == key_equation("cliente_id"@));
        assert(dirty_predicate(table) =~= key_equation("cliente_id"@));
    } else if table == "movimientos_inventario"@ {
        reveal_strlit("uuid");
        reveal_strlit("uuid = NEW.uuid");
        assert(eqs.len() == 1 && eqs[0] == key_equation("uuid"@));
        assert(dirty_predicate(table) =~= key_equation("uuid"@));
    } else {
        reveal_strlit("id");
        reveal_strlit("id = NEW.id");
        assert(eqs.len() == 1 && eqs[0] == key_equation("id"@));
        assert(dirty_predicate(table) =~= key_equation("id"@));
    }
}

/// The trigger that marks a row of `table` as pending upload (with the time
/// of the change) after any update that did not itself set its
/// synchronisation flag.
pub open spec fn dirty_trigger_sql(table: Seq<char>) -> Seq<char> {
    "DROP TRIGGER IF EXISTS trg_"@ + table + "_mark_dirty; CREATE TRIGGER trg_"@ + table
        + "_mark_dirty AFTER UPDATE ON "@ + table
        + " WHEN NEW.sincronizado = OLD.sincronizado BEGIN UPDATE "@ + table
        + " SET sincronizado = 0, updated_at = datetime('now') WHERE "@ + dirty_predicate(table)
        + "; END;"@
}

/// The trigger of a synchronised table; nothing for a name that is not a
/// plain identifier.
pub fn sync_dirty_trigger_sql(table: &str) -> (r: Option<String>)
    ensures
        !safe_identifier(table@) ==> r is None,
        safe_identifier(table@) ==> (r matches Some(q) && q@ == dirty_trigger_sql(table@)),
{
    if !is_safe_identifier(table) {
        return None;
    }
    let predicate = match sync_dirty_predicate(table) {
        Some(p) => p,
        None => "id = NEW.id",
    };
    let mut q = to_owned_string("DROP TRIGGER IF EXISTS trg_");
    push_str(&mut q, table);
    push_str(&mut q, "_mark_dirty; CREATE TRIGGER trg_");
    push_str(&mut q, table);
    push_str(&mut q, "_mark_dirty AFTER UPDATE ON ");
    push_str(&mut q, table);
    push_str(&mut q, " WHEN NEW.sincronizado = OLD.sincronizado BEGIN UPDATE ");
    push_str(&mut q, table);
    push_str(&mut q, " SET sincronizado = 0, updated_at = datetime('now') WHERE ");
    push_str(&mut q, predicate);
    push_str(&mut q, "; END;");
    Some(q)
}

/// A name made only of ASCII letters, digits and `_`, and not empty.
pub open spec fn safe_identifier(s: Seq<char>) -> bool {
    s.len() > 0 && forall|k: int| 0 <= k < s.len() ==> (is_ascii_alnum(#[trigger] s[k]) || s[k] == '_')
}

pub fn is_safe_identifier(identifier: &str) -> (r: bool)
    ensures
        r == safe_identifier(identifier@),
{
    let v = chars_of(identifier);
    if v.len() == 0 {
        return false;
    }
    let mut i: usize = 0;
    while i < v.len()
        invariant
            i <= v.len(),
            v@ == identifier@,
            forall|k: int| 0 <= k < i ==> (is_ascii_alnum(#[trigger] v@[k]) || v@[k] == '_'),
        decreases v.len() - i,
    {
        if !(is_alnum_char(v[i]) || v[i] == '_') {
            assert(!(is_ascii_alnum(identifier@[i as int]) || identifier@[i as int] == '_'));
            return false;
        }
        i = i + 1;
    }
    true
}

/// The local column that a backup column is restored into, if any: in a
/// cloud backup the `uuid` of a synced table is the local `sync_uuid`, the
/// SAT `uuid_sat` of an invoice is its local `uuid`, and other `*_uuid`
/// columns have no local counterpart.
pub open spec fn local_column(table: Seq<char>, column: Seq<char>, is_remote_backup: bool) -> Option<Seq<char>> {
    if is_remote_backup && uuid_sync_table(table) && column == "uuid"@ {
        Some("sync_uuid"@)
    } else if is_remote_backup && table == "facturas_emitidas"@ && column == "uuid_sat"@ {
        Some("uuid"@)
    } else if is_remote_backup && "_uuid"@.len() <= column.len() && column.subrange(
        column.len() - "_uuid"@.len(),
        column.len() as int,
    ) == "_uuid"@ {
        None
    } else {
        Some(column)
    }
}

pub fn map_backup_column_to_local(table: &str, column: &str, is_remote_backup: bool) -> (r: Option<String>)
    ensures
        crate::text::opt_seq(r) == local_column(table@, column@, is_remote_backup),
{
    if is_remote_backup && is_uuid_sync_table(table) && str_eq(column, "uuid") {
        return Some(to_owned_string("sync_uuid"));
    }
    if is_remote_backup && str_eq(table, "facturas_emitidas") && str_eq(column, "uuid_sat") {
        return Some(to_owned_string("uuid"));
    }
    if is_remote_backup && ends_with(column, "_uuid") {
        return None;
    }
    Some(to_owned_string(column))
}

// ---------------------------------------------------------------------------
// Requests to the cloud
// ---------------------------------------------------------------------------

/// Bytes that travel unescaped in a URL component.
pub open spec fn unreserved_byte(b: u8) -> bool {
    (48 <= b && b <= 57) || (65 <= b && b <= 90) || (97 <= b && b <= 122) || b == 45 || b == 95
        || b == 46 || b == 126
}

/// An upper-case hexadecimal digit.
pub open spec fn hex_digit(n: nat) -> char {
    if n < 10 {
        digit_char(n)
    } else {
        ((n + 55) as u32) as char
    }
}

pub open spec fn encode_byte(b: u8) -> Seq<char> {
    if unreserved_byte(b) {
        seq![(b as u32) as char]
    } else {
        seq!['%', hex_digit((b / 16) as nat), hex_digit((b % 16) as nat)]
    }
}

/// Percent-encoding of the bytes of a URL component.
pub open spec fn percent_encoded(bytes: Seq<u8>) -> Seq<char>
    decreases bytes.len(),
{
    if bytes.len() == 0 {
        Seq::empty()
    } else {
        percent_encoded(bytes.drop_last()) + encode_byte(bytes.last())
    }
}

fn hex_digit_char(n: u8) -> (r: char)
    requires
        n < 16,
    ensures
        r == hex_digit(n as nat),
{
    if n < 10 {
        (n + 48) as char
    } else {
        (n + 55) as char
    }
}

/// Percent-encodes the UTF-8 bytes of `value`, leaving letters, digits and
/// `-_.~` as they are.
pub fn url_encode_component(value: &str) -> (r: String)
    ensures
        r@ == percent_encoded(encode_utf8(value@)),
{
    let bytes = value.as_bytes();
    let mut out = String::new();
    let mut i: usize = 0;
    while i < bytes.len()
        invariant
            i <= bytes@.len(),
            bytes@ == encode_utf8(value@),
            out@ == percent_encoded(bytes@.take(i as int)),
        decreases bytes@.len() - i,
    {
        let b = bytes[i];
        let ghost prev = out@;
        if (48 <= b && b <= 57) || (65 <= b && b <= 90) || (97 <= b && b <= 122) || b == 45 || b
            == 95 || b == 46 || b == 126 {
            out.push(b as char);
        } else {
            out.push('%');
            out.push(hex_digit_char(b / 16));
            out.push(hex_digit_char(b % 16));
        }
        assert(bytes@.take(i + 1).drop_last() =~= bytes@.take(i as int));
        assert(out@ =~= prev + encode_byte(b));
        i = i + 1;
    }
    assert(bytes@.take(bytes@.len() as int) =~= bytes@);
    out
}

/// Tables whose pulled rows are limited to the branches held locally.
pub open spec fn branch_scoped_table(t: Seq<char>) -> bool {
    ||| t == "inventario_sucursal"@
    ||| t == "usuarios"@
    ||| t == "compras"@
    ||| t == "detalle_compras"@
    ||| t == "ventas"@
    ||| t == "detalle_ventas"@
    ||| t == "creditos_abonos"@
    ||| t == "cajas_sesiones"@
    ||| t == "caja_movimientos"@
    ||| t == "mermas_ajustes"@
    ||| t == "movimientos_inventario"@
    ||| t == "facturas_emitidas"@
}

fn is_branch_scoped_table(t: &str) -> (r: bool)
    ensures
        r == branch_scoped_table(t@),
{
    str_eq(t, "inventario_sucursal") || str_eq(t, "usuarios") || str_eq(t, "compras") || str_eq(
        t,
        "detalle_compras",
    ) || str_eq(t, "ventas") || str_eq(t, "detalle_ventas") || str_eq(t, "creditos_abonos")
        || str_eq(t, "cajas_sesiones") || str_eq(t, "caja_movimientos") || str_eq(
        t,
        "mermas_ajustes",
    ) || str_eq(t, "movimientos_inventario") || str_eq(t, "facturas_emitidas")
}

/// The branch filter of a pull: transfers match either end, branch-scoped
/// tables their own branch, anything else is not filtered.
pub open spec fn delta_filter(table: Seq<char>, ids: Seq<Seq<char>>) -> Seq<char> {
    let f = "in.("@ + join_with(ids, ","@) + ")"@;
    if ids.len() == 0 {
        Seq::empty()
    } else if branch_scoped_table(table) {
        "&sucursal_id="@ + percent_encoded(encode_utf8(f))
    } else if table == "traspasos"@ {
        "&or="@ + percent_encoded(
            encode_utf8("(sucursal_origen_id."@ + f + ",sucursal_destino_id."@ + f + ")"@),
        )
    } else {
        Seq::empty()
    }
}

/// The REST request for the rows of `table` changed after `since`, oldest
/// first, at most `limit` of them.
pub open spec fn delta_endpoint(url: Seq<char>, table: Seq<char>, since: Seq<char>, ids: Seq<Seq<char>>, limit: nat) -> Seq<char> {
    strip_end_char(url, '/') + "/rest/v1/"@ + table + "?select=*&updated_at="@ + percent_encoded(
        encode_utf8("gt."@ + since),
    ) + "&order=updated_at.asc&limit="@ + decimal(limit) + delta_filter(table, ids)
}

pub fn build_delta_pull_endpoint(
    config: &SupabaseConfig,
    table: &str,
    since: &str,
    sucursal_ids: &[String],
    limit: usize,
) -> (r: String)
    ensures
        r@ == delta_endpoint(config.url@, table@, since@, views(sucursal_ids@), limit as nat),
{
    let mut endpoint = trim_end_char(config.url.as_str(), '/');
    push_str(&mut endpoint, "/rest/v1/");
    push_str(&mut endpoint, table);
    push_str(&mut endpoint, "?select=*&updated_at=");
    let gt = concat2("gt.", since);
    push_str(&mut endpoint, url_encode_component(gt.as_str()).as_str());
    push_str(&mut endpoint, "&order=updated_at.asc&limit=");
    push_str(&mut endpoint, u64_to_decimal(limit as u64).as_str());
    let ghost base = endpoint@;
    if sucursal_ids.len() > 0 {
        let joined = join_strings(sucursal_ids, ",");
        let mut f = concat2("in.(", joined.as_str());
        push_str(&mut f, ")");
        if is_branch_scoped_table(table) {
            push_str(&mut endpoint, "&sucursal_id=");
            push_str(&mut endpoint, url_encode_component(f.as_str()).as_str());
        } else if str_eq(table, "traspasos") {
            let mut both = concat2("(sucursal_origen_id.", f.as_str());
            push_str(&mut both, ",sucursal_destino_id.");
            push_str(&mut both, f.as_str());
            push_str(&mut both, ")");
            push_str(&mut endpoint, "&or=");
            push_str(&mut endpoint, url_encode_component(both.as_str()).as_str());
        } else {
            assert(endpoint@ =~= base + Seq::<char>::empty());
        }
    } else {
        assert(endpoint@ =~= base + Seq::<char>::empty());
    }
    endpoint
}

/// The project URL as stored: trimmed, without trailing `/` nor `/rest/v1`.
pub open spec fn supabase_url(url: Seq<char>) -> Seq<char> {
    strip_end_char(strip_end_seq(strip_end_char(trim(url), '/'), "/rest/v1"@), '/')
}

pub fn normalize_supabase_url(url: &str) -> (r: String)
    ensures
        r@ == supabase_url(url@),
{
    let t = trim_str(url);
    let a = trim_end_char(t.as_str(), '/');
    let b = trim_end_str(a.as_str(), "/rest/v1");
    trim_end_char(b.as_str(), '/')
}

pub open spec fn supabase_config_check(url: Seq<char>, anon_key: Seq<char>) -> Option<Seq<char>> {
    let u = supabase_url(url);
    if u.len() == 0 || trim(anon_key).len() == 0 {
        Some("Project URL y Anon Public Key son obligatorios."@)
    } else if !("https://"@.len() <= u.len() && u.subrange(0, "https://"@.len() as int)
        == "https://"@) {
        Some("La URL de Supabase debe iniciar con https://."@)
    } else {
        None
    }
}

/// The cleaned project URL and key, or why they cannot be used.
pub fn assert_supabase_config_values(url: &str, anon_key: &str) -> (r: Result<(String, String), AppError>)
    ensures
        match supabase_config_check(url@, anon_key@) {
            Some(msg) => r matches Err(e) && crate::error::is_validation(e, msg),
            None => r matches Ok(pair) && pair.0@ == supabase_url(url@) && pair.1@ == trim(
                anon_key@,
            ),
        },
{
    let u = normalize_supabase_url(url);
    let k = trim_str(anon_key);
    if u.as_str().is_empty() || k.as_str().is_empty() {
        return Err(validation("Project URL y Anon Public Key son obligatorios."));
    }
    if !starts_with(u.as_str(), "https://") {
        return Err(validation("La URL de Supabase debe iniciar con https://."));
    }
    Ok((u, k))
}

/// The headers that authenticate a request: the key always, and a bearer
/// token unless the key is a publishable one.
pub open spec fn auth_headers(key: Seq<char>) -> Seq<(Seq<char>, Seq<char>)> {
    if "sb_publishable_"@.len() <= key.len() && key.subrange(0, "sb_publishable_"@.len() as int)
        == "sb_publishable_"@ {
        seq![("apikey"@, key)]
    } else {
        seq![("apikey"@, key), ("Authorization"@, "Bearer "@ + key)]
    }
}

pub open spec fn header_views(v: Seq<(String, String)>) -> Seq<(Seq<char>, Seq<char>)> {
    v.map_values(|h: (String, String)| (h.0@, h.1@))
}

pub fn supabase_auth_headers(key: &str) -> (r: Vec<(String, String)>)
    ensures
        header_views(r@) == auth_headers(key@),
{
    let mut v: Vec<(String, String)> = Vec::new();
    v.push((to_owned_string("apikey"), to_owned_string(key)));
    if !starts_with(key, "sb_publishable_") {
        v.push((to_owned_string("Authorization"), concat2("Bearer ", key)));
    }
    assert(header_views(v@) =~= auth_headers(key@));
    v
}

// ---------------------------------------------------------------------------
// Backups
// ---------------------------------------------------------------------------

/// The backup tables that the given list lacks, in backup order.
pub open spec fn missing_tables(present: Seq<Seq<char>>) -> Seq<Seq<char>> {
    backup_tables().filter(|t: Seq<char>| !present.contains(t))
}

pub open spec fn backup_check(version: Seq<char>, present: Seq<Seq<char>>) -> Option<Seq<char>> {
    if !(version == "1"@ || version == "supabase-rest-v1"@) {
        Some("Versión de respaldo no compatible: "@ + version + "."@)
    } else if missing_tables(present).len() > 0 {
        Some(
            "El respaldo está incompleto. Faltan tablas críticas: "@ + join_with(
                missing_tables(present),
                ", "@,
            ) + "."@,
        )
    } else {
        None
    }
}

fn contains_string(items: &[String], t: &str) -> (r: bool)
    ensures
        r == views(items@).contains(t@),
{
    let mut i: usize = 0;
    while i < items.len()
        invariant
            i <= items@.len(),
            forall|k: int| 0 <= k < i ==> items@[k]@ != t@,
        decreases items@.len() - i,
    {
        if str_eq(items[i].as_str(), t) {
            assert(views(items@)[i as int] == t@);
            return true;
        }
        i = i + 1;
    }
    assert(!views(items@).contains(t@)) by {
        if views(items@).contains(t@) {
            let k = choose|k: int| 0 <= k < views(items@).len() && views(items@)[k] == t@;
            assert(items@[k]@ == t@);
        }
    }
    false
}

/// Checks that a backup has a known version and every table a restore needs;
/// `tablas` are the names of the tables the backup holds.
pub fn validate_backup_payload(version: &str, tablas: &[String]) -> (r: Result<(), AppError>)
    ensures
        validation_outcome(r, backup_check(version@, views(tablas@))),
{
    if !(str_eq(version, "1") || str_eq(version, "supabase-rest-v1")) {
        let mut m = concat2("Versión de respaldo no compatible: ", version);
        push_str(&mut m, ".");
        return Err(AppError::Validation(m));
    }
    let names = backup_table_names();
    let ghost present = views(tablas@);
    let ghost pred = |t: Seq<char>| !present.contains(t);
    let mut missing: Vec<String> = Vec::new();
    let mut i: usize = 0;
    proof {
        reveal_with_fuel(Seq::filter, 1);
        assert(backup_tables().take(0).filter(pred) =~= Seq::<Seq<char>>::empty());
        assert(views(missing@) =~= Seq::<Seq<char>>::empty());
    }
    while i < names.len()
        invariant
            i <= names@.len(),
            str_views(names@) == backup_tables(),
            present == views(tablas@),
            pred == (|t: Seq<char>| !present.contains(t)),
            views(missing@) == backup_tables().take(i as int).filter(pred),
        decreases names@.len() - i,
    {
        let name = names[i];
        let ghost before = views(missing@);
        proof {
            reveal_with_fuel(Seq::filter, 1);
            assert(backup_tables().take(i + 1).drop_last() =~= backup_tables().take(i as int));
            assert(str_views(names@)[i as int] == name@);
        }
        if !contains_string(tablas, name) {
            missing.push(to_owned_string(name));
            assert(views(missing@) =~= before.push(name@));
        }
        i = i + 1;
    }
    assert(backup_tables().take(names@.len() as int) =~= backup_tables());
    if missing.len() > 0 {
        let joined = join_strings(missing.as_slice(), ", ");
        let mut m = concat2("El respaldo está incompleto. Faltan tablas críticas: ", joined.as_str());
        push_str(&mut m, ".");
        return Err(AppError::Validation(m));
    }
    Ok(())
}

// ---------------------------------------------------------------------------
// Upload plans
// ---------------------------------------------------------------------------

/// For each synchronised table, in upload order: its name, the key the cloud
/// matches rows by, the query that selects its rows for upload, and the
/// alias (with its dot) of the table in that query.
pub open spec fn upload_templates() -> Seq<(Seq<char>, Seq<char>, Seq<char>, Seq<char>)> {
    seq![
        ("sucursales"@, "id"@, "SELECT id AS __local_id, id, nombre, direccion, telefono, codigo_postal, eliminado, 1 AS sincronizado, updated_at FROM sucursales"@, ""@),
        ("empresa_config_fiscal"@, "id"@, "SELECT id AS __local_id, id, rfc, razon_social, regimen_fiscal, registro_patronal, actualizado_at, 1 AS sincronizado, updated_at FROM empresa_config_fiscal"@, ""@),
        ("proveedores"@, "id"@, "SELECT id AS __local_id, id, nombre, contacto_nombre, telefono, email, direccion, eliminado, 1 AS sincronizado, updated_at FROM proveedores"@, ""@),
        ("marcas"@, "id"@, "SELECT id AS __local_id, id, nombre, eliminado, 1 AS sincronizado, updated_at FROM marcas"@, ""@),
        ("categorias"@, "id"@, "SELECT id AS __local_id, id, nombre, eliminado, 1 AS sincronizado, updated_at FROM categorias"@, ""@),
        ("unidades"@, "id"@, "SELECT id AS __local_id, id, nombre, clave_sat, eliminado, 1 AS sincronizado, updated_at FROM unidades"@, ""@),
        ("usuarios"@, "id"@, "SELECT id AS __local_id, id, email, nombre, role, sucursal_id, password_hash, eliminado, 1 AS sincronizado, updated_at FROM usuarios"@, ""@),
        ("productos"@, "id"@, "SELECT id AS __local_id, id, codigo_barras, codigo_proveedor, proveedor_id, clave_producto, descripcion, marca, categoria, unidad, precio_costo, costo_promedio, precio_venta, sat_clave_prod_serv, sat_clave_unidad, precio_1, precio_2, precio_3, precio_4, mayoreo_apartir, a_granel, no_en_catalogo, ventas_negativas, caducidad, fotos, descripcion_catalogo, eliminado, 1 AS sincronizado, updated_at FROM productos"@, ""@),
        ("inventario_sucursal"@, "producto_id,sucursal_id"@, "SELECT producto_id || '|' || sucursal_id AS __local_id, producto_id, sucursal_id, stock, stock_minimo, costo_promedio, precio_venta, 1 AS sincronizado, updated_at FROM inventario_sucursal"@, ""@),
        ("promociones"@, "id"@, "SELECT id AS __local_id, id, nombre, tipo_descuento, valor, fecha_inicio, fecha_fin, activo, producto_id, categoria_id, marca, eliminado, 1 AS sincronizado, updated_at FROM promociones"@, ""@),
        ("promocion_sucursales"@, "promocion_id,sucursal_id"@, "SELECT promocion_id || '|' || sucursal_id AS __local_id, promocion_id, sucursal_id, eliminado, 1 AS sincronizado, updated_at FROM promocion_sucursales"@, ""@),
        ("clientes"@, "id"@, "SELECT id AS __local_id, id, nombre, telefono, direccion, limite_credito, saldo_deudor, eliminado, 1 AS sincronizado, updated_at FROM clientes"@, ""@),
        ("clientes_datos_fiscales"@, "cliente_id"@, "SELECT cliente_id AS __local_id, cliente_id, rfc, razon_social, regimen_fiscal, codigo_postal, 1 AS sincronizado, updated_at FROM clientes_datos_fiscales"@, ""@),
        ("compras"@, "uuid"@, "SELECT id AS __local_id, sync_uuid AS uuid, id, proveedor_id, sucursal_id, fecha, total, 1 AS sincronizado, updated_at FROM compras"@, ""@),
        ("detalle_compras"@, "uuid"@, "SELECT dc.id AS __local_id, dc.sync_uuid AS uuid, dc.id, dc.compra_id, c.sucursal_id, dc.producto_id, dc.cantidad, dc.precio_costo_pactado, dc.costo_promedio_resultante, 1 AS sincronizado, dc.updated_at FROM detalle_compras dc INNER JOIN compras c ON c.id = dc.compra_id"@, "dc."@),
        ("ventas"@, "uuid"@, "SELECT id AS __local_id, sync_uuid AS uuid, id, usuario_id, sucursal_id, fecha, total, metodo_pago, efectivo_recibido, cambio_entregado, cliente_id, cliente_rapido_nombre, cliente_rapido_telefono, cliente_rapido_domicilio, requiere_factura, usuario_autorizo_cancelacion_id, motivo_cancelacion, fecha_cancelacion, estado, 1 AS sincronizado, updated_at FROM ventas"@, ""@),
        ("detalle_ventas"@, "uuid"@, "SELECT dv.id AS __local_id, dv.sync_uuid AS uuid, dv.id, dv.venta_id, v.sucursal_id, dv.producto_id, dv.cantidad, dv.precio_venta_pactado, dv.costo_unitario_pactado, dv.tipo_precio_vendido, dv.precio_original, dv.descuento_aplicado, 1 AS sincronizado, dv.updated_at FROM detalle_ventas dv INNER JOIN ventas v ON v.id = dv.venta_id"@, "dv."@),
        ("creditos_abonos"@, "uuid"@, "SELECT ca.id AS __local_id, ca.sync_uuid AS uuid, ca.id, ca.cliente_id, ca.monto, ca.fecha, ca.usuario_id, u.sucursal_id, 1 AS sincronizado, ca.updated_at FROM creditos_abonos ca INNER JOIN usuarios u ON u.id = ca.usuario_id"@, "ca."@),
        ("cajas_sesiones"@, "uuid"@, "SELECT id AS __local_id, sync_uuid AS uuid, id, usuario_id, sucursal_id, fecha_apertura, monto_inicial, fecha_cierre, monto_final_real, monto_esperado, estado, 1 AS sincronizado, updated_at FROM cajas_sesiones"@, ""@),
        ("caja_movimientos"@, "uuid"@, "SELECT cm.id AS __local_id, cm.sync_uuid AS uuid, cm.id, cm.sesion_id, cs.sucursal_id, cm.tipo, cm.monto, cm.motivo, 1 AS sincronizado, cm.updated_at FROM caja_movimientos cm INNER JOIN cajas_sesiones cs ON cs.id = cm.sesion_id"@, "cm."@),
        ("traspasos"@, "uuid"@, "SELECT id AS __local_id, sync_uuid AS uuid, id, sucursal_origen_id, sucursal_destino_id, usuario_id, fecha, estado, usuario_recibio_id, fecha_recepcion, observaciones_recepcion, 1 AS sincronizado, updated_at FROM traspasos"@, ""@),
        ("detalle_traspasos"@, "uuid"@, "SELECT dt.id AS __local_id, dt.sync_uuid AS uuid, dt.id, dt.traspaso_id, t.sucursal_origen_id, dt.producto_id, dt.cantidad, 1 AS sincronizado, dt.updated_at FROM detalle_traspasos dt INNER JOIN traspasos t ON t.id = dt.traspaso_id"@, "dt."@),
        ("mermas_ajustes"@, "uuid"@, "SELECT id AS __local_id, sync_uuid AS uuid, id, producto_id, sucursal_id, usuario_id, cantidad, tipo_movimiento, motivo, fecha, 1 AS sincronizado, updated_at FROM mermas_ajustes"@, ""@),
        ("facturas_emitidas"@, "uuid"@, "SELECT fe.id AS __local_id, fe.sync_uuid AS uuid, fe.id, fe.venta_id, v.sucursal_id, fe.uuid AS uuid_sat, fe.rfc_receptor, fe.monto_total, fe.estado, fe.fecha_emision, fe.pdf_path, fe.xml_path, 1 AS sincronizado, fe.updated_at FROM facturas_emitidas fe INNER JOIN ventas v ON v.id = fe.venta_id"@, "fe."@),
        ("movimientos_inventario"@, "uuid"@, "SELECT uuid AS __local_id, uuid, producto_id, sucursal_id, tipo, referencia_tipo, referencia_id, cantidad, costo_unitario, usuario_id, fecha, 1 AS sincronizado, updated_at FROM movimientos_inventario"@, ""@)
    ]
}

pub open spec fn template_views(v: Seq<(&str, &str, &str, &str)>) -> Seq<(Seq<char>, Seq<char>, Seq<char>, Seq<char>)> {
    v.map_values(|t: (&str, &str, &str, &str)| (t.0@, t.1@, t.2@, t.3@))
}

fn upload_template_rows() -> (r: Vec<(&'static str, &'static str, &'static str, &'static str)>)
    ensures
        template_views(r@) == upload_templates(),
{
    let mut v: Vec<(&'static str, &'static str, &'static str, &'static str)> = Vec::new();
    v.push(("sucursales", "id", "SELECT id AS __local_id, id, nombre, direccion, telefono, codigo_postal, eliminado, 1 AS sincronizado, updated_at FROM sucursales", ""));
    v.push(("empresa_config_fiscal", "id", "SELECT id AS __local_id, id, rfc, razon_social, regimen_fiscal, registro_patronal, actualizado_at, 1 AS sincronizado, updated_at FROM empresa_config_fiscal", ""));
    v.push(("proveedores", "id", "SELECT id AS __local_id, id, nombre, contacto_nombre, telefono, email, direccion, eliminado, 1 AS sincronizado, updated_at FROM proveedores", ""));
    v.push(("marcas", "id", "SELECT id AS __local_id, id, nombre, eliminado, 1 AS sincronizado, updated_at FROM marcas", ""));
    v.push(("categorias", "id", "SELECT id AS __local_id, id, nombre, eliminado, 1 AS sincronizado, updated_at FROM categorias", ""));
    v.push(("unidades", "id", "SELECT id AS __local_id, id, nombre, clave_sat, eliminado, 1 AS sincronizado, updated_at FROM unidades", ""));
    v.push(("usuarios", "id", "SELECT id AS __local_id, id, email, nombre, role, sucursal_id, password_hash, eliminado, 1 AS sincronizado, updated_at FROM usuarios", ""));
    v.push(("productos", "id", "SELECT id AS __local_id, id, codigo_barras, codigo_proveedor, proveedor_id, clave_producto, descripcion, marca, categoria, unidad, precio_costo, costo_promedio, precio_venta, sat_clave_prod_serv, sat_clave_unidad, precio_1, precio_2, precio_3, precio_4, mayoreo_apartir, a_granel, no_en_catalogo, ventas_negativas, caducidad, fotos, descripcion_catalogo, eliminado, 1 AS sincronizado, updated_at FROM productos", ""));
    v.push(("inventario_sucursal", "producto_id,sucursal_id", "SELECT producto_id || '|' || sucursal_id AS __local_id, producto_id, sucursal_id, stock, stock_minimo, costo_promedio, precio_venta, 1 AS sincronizado, updated_at FROM inventario_sucursal", ""));
    v.push(("promociones", "id", "SELECT id AS __local_id, id, nombre, tipo_descuento, valor, fecha_inicio, fecha_fin, activo, producto_id, categoria_id, marca, eliminado, 1 AS sincronizado, updated_at FROM promociones", ""));
    v.push(("promocion_sucursales", "promocion_id,sucursal_id", "SELECT promocion_id || '|' || sucursal_id AS __local_id, promocion_id, sucursal_id, eliminado, 1 AS sincronizado, updated_at FROM promocion_sucursales", ""));
    v.push(("clientes", "id", "SELECT id AS __local_id, id, nombre, telefono, direccion, limite_credito, saldo_deudor, eliminado, 1 AS sincronizado, updated_at FROM clientes", ""));
    v.push(("clientes_datos_fiscales", "cliente_id", "SELECT cliente_id AS __local_id, cliente_id, rfc, razon_social, regimen_fiscal, codigo_postal, 1 AS sincronizado, updated_at FROM clientes_datos_fiscales", ""));
    v.push(("compras", "uuid", "SELECT id AS __local_id, sync_uuid AS uuid, id, proveedor_id, sucursal_id, fecha, total, 1 AS sincronizado, updated_at FROM compras", ""));
    v.push(("detalle_compras", "uuid", "SELECT dc.id AS __local_id, dc.sync_uuid AS uuid, dc.id, dc.compra_id, c.sucursal_id, dc.producto_id, dc.cantidad, dc.precio_costo_pactado, dc.costo_promedio_resultante, 1 AS sincronizado, dc.updated_at FROM detalle_compras dc INNER JOIN compras c ON c.id = dc.compra_id", "dc."));
    v.push(("ventas", "uuid", "SELECT id AS __local_id, sync_uuid AS uuid, id, usuario_id, sucursal_id, fecha, total, metodo_pago, efectivo_recibido, cambio_entregado, cliente_id, cliente_rapido_nombre, cliente_rapido_telefono, cliente_rapido_domicilio, requiere_factura, usuario_autorizo_cancelacion_id, motivo_cancelacion, fecha_cancelacion, estado, 1 AS sincronizado, updated_at FROM ventas", ""));
    v.push(("detalle_ventas", "uuid", "SELECT dv.id AS __local_id, dv.sync_uuid AS uuid, dv.id, dv.venta_id, v.sucursal_id, dv.producto_id, dv.cantidad, dv.precio_venta_pactado, dv.costo_unitario_pactado, dv.tipo_precio_vendido, dv.precio_original, dv.descuento_aplicado, 1 AS sincronizado, dv.updated_at FROM detalle_ventas dv INNER JOIN ventas v ON v.id = dv.venta_id", "dv."));
    v.push(("creditos_abonos", "uuid", "SELECT ca.id AS __local_id, ca.sync_uuid AS uuid, ca.id, ca.cliente_id, ca.monto, ca.fecha, ca.usuario_id, u.sucursal_id, 1 AS sincronizado, ca.updated_at FROM creditos_abonos ca INNER JOIN usuarios u ON u.id = ca.usuario_id", "ca."));
    v.push(("cajas_sesiones", "uuid", "SELECT id AS __local_id, sync_uuid AS uuid, id, usuario_id, sucursal_id, fecha_apertura, monto_inicial, fecha_cierre, monto_final_real, monto_esperado, estado, 1 AS sincronizado, updated_at FROM cajas_sesiones", ""));
    v.push(("caja_movimientos", "uuid", "SELECT cm.id AS __local_id, cm.sync_uuid AS uuid, cm.id, cm.sesion_id, cs.sucursal_id, cm.tipo, cm.monto, cm.motivo, 1 AS sincronizado, cm.updated_at FROM caja_movimientos cm INNER JOIN cajas_sesiones cs ON cs.id = cm.sesion_id", "cm."));
    v.push(("traspasos", "uuid", "SELECT id AS __local_id, sync_uuid AS uuid, id, sucursal_origen_id, sucursal_destino_id, usuario_id, fecha, estado, usuario_recibio_id, fecha_recepcion, observaciones_recepcion, 1 AS sincronizado, updated_at FROM traspasos", ""));
    v.push(("detalle_traspasos", "uuid", "SELECT dt.id AS __local_id, dt.sync_uuid AS uuid, dt.id, dt.traspaso_id, t.sucursal_origen_id, dt.producto_id, dt.cantidad, 1 AS sincronizado, dt.updated_at FROM detalle_traspasos dt INNER JOIN traspasos t ON t.id = dt.traspaso_id", "dt."));
    v.push(("mermas_ajustes", "uuid", "SELECT id AS __local_id, sync_uuid AS uuid, id, producto_id, sucursal_id, usuario_id, cantidad, tipo_movimiento, motivo, fecha, 1 AS sincronizado, updated_at FROM mermas_ajustes", ""));
    v.push(("facturas_emitidas", "uuid", "SELECT fe.id AS __local_id, fe.sync_uuid AS uuid, fe.id, fe.venta_id, v.sucursal_id, fe.uuid AS uuid_sat, fe.rfc_receptor, fe.monto_total, fe.estado, fe.fecha_emision, fe.pdf_path, fe.xml_path, 1 AS sincronizado, fe.updated_at FROM facturas_emitidas fe INNER JOIN ventas v ON v.id = fe.venta_id", "fe."));
    v.push(("movimientos_inventario", "uuid", "SELECT uuid AS __local_id, uuid, producto_id, sucursal_id, tipo, referencia_tipo, referencia_id, cantidad, costo_unitario, usuario_id, fecha, 1 AS sincronizado, updated_at FROM movimientos_inventario", ""));
    assert(template_views(v@) =~= upload_templates());
    v
}

/// The upload query of a table: its selection, only the rows pending
/// synchronisation when asked, oldest change first, at most `limit` rows.
pub open spec fn upload_sql(select: Seq<char>, alias: Seq<char>, only_pending: bool, limit: Option<usize>) -> Seq<char> {
    select + (if only_pending {
        " WHERE "@ + alias + "sincronizado = 0"@
    } else {
        Seq::empty()
    }) + " ORDER BY "@ + alias + "updated_at"@ + (match limit {
        Some(n) => " LIMIT "@ + decimal(n as nat),
        None => Seq::empty(),
    })
}

pub open spec fn plan_views(v: Seq<(&str, &str, String)>) -> Seq<(Seq<char>, Seq<char>, Seq<char>)> {
    v.map_values(|p: (&str, &str, String)| (p.0@, p.1@, p.2@))
}

pub open spec fn upload_plans(limit: Option<usize>, only_pending: bool) -> Seq<(Seq<char>, Seq<char>, Seq<char>)> {
    upload_templates().map_values(
        |t: (Seq<char>, Seq<char>, Seq<char>, Seq<char>)|
            (t.0, t.1, upload_sql(t.2, t.3, only_pending, limit)),
    )
}

fn upload_query(select: &str, alias: &str, only_pending: bool, limit: Option<usize>) -> (r: String)
    ensures
        r@ == upload_sql(select@, alias@, only_pending, limit),
{
    let mut sql = to_owned_string(select);
    let ghost s0 = sql@;
    if only_pending {
        push_str(&mut sql, " WHERE ");
        push_str(&mut sql, alias);
        push_str(&mut sql, "sincronizado = 0");
    }
    assert(sql@ =~= s0 + (if only_pending {
        " WHERE "@ + alias@ + "sincronizado = 0"@
    } else {
        Seq::empty()
    }));
    push_str(&mut sql, " ORDER BY ");
    push_str(&mut sql, alias);
    push_str(&mut sql, "updated_at");
    let ghost s1 = sql@;
    match limit {
        Some(n) => {
            push_str(&mut sql, " LIMIT ");
            push_str(&mut sql, u64_to_decimal(n as u64).as_str());
        },
        None => {},
    }
    assert(sql@ =~= s1 + (match limit {
        Some(n) => " LIMIT "@ + decimal(n as nat),
        None => Seq::empty(),
    }));
    sql
}

/// Every synchronised table with its cloud key and its upload query.
pub fn sync_upload_plans(limit: Option<usize>, only_pending: bool) -> (r: Vec<(&'static str, &'static str, String)>)
    ensures
        plan_views(r@) == upload_plans(limit, only_pending),
{
    let rows = upload_template_rows();
    let mut plans: Vec<(&'static str, &'static str, String)> = Vec::new();
    let mut i: usize = 0;
    while i < rows.len()
        invariant
            i <= rows@.len(),
            template_views(rows@) == upload_templates(),
            plans@.len() == i,
            forall|k: int| 0 <= k < i ==> #[trigger] plan_views(plans@)[k] == upload_plans(limit, only_pending)[k],
        decreases rows@.len() - i,
    {
        let (table, key, select, alias) = rows[i];
        proof {
            assert(template_views(rows@)[i as int] == (table@, key@, select@, alias@));
        }
        let sql = upload_query(select, alias, only_pending, limit);
        let ghost before = plans@;
        plans.push((table, key, sql));
        proof {
            assert forall|k: int| 0 <= k < i + 1 implies #[trigger] plan_views(plans@)[k]
                == upload_plans(limit, only_pending)[k] by {
                if k < i {
                    assert(plans@[k] == before[k]);
                    assert(plan_views(before)[k] == upload_plans(limit, only_pending)[k]);
                }
            }
        }
        i = i + 1;
    }
    assert(plan_views(plans@) =~= upload_plans(limit, only_pending));
    plans
}


// ---------------------------------------------------------------------------
// What the upload plans keep
// ---------------------------------------------------------------------------

/// The key a table's rows are uploaded under: `uuid` for the tables that
/// travel with a generated `sync_uuid`, otherwise the key columns that
/// identify a row when it is pulled, joined by commas.
pub open spec fn upload_key(t: Seq<char>) -> Seq<char> {
    if uuid_sync_table(t) {
        "uuid"@
    } else {
        join_with(conflict_columns(t), ","@)
    }
}

proof fn lemma_template_keys()
    ensures
        forall|i: int|
            0 <= i < upload_templates().len() ==> #[trigger] upload_templates()[i].1 == upload_key(upload_templates()[i].0),
{
    reveal_strlit(",");
    reveal_strlit("caja_movimientos");
    reveal_strlit("cajas_sesiones");
    reveal_strlit("categorias");
    reveal_strlit("cliente_id");
    reveal_strlit("clientes");
    reveal_strlit("clientes_datos_fiscales");
    reveal_strlit("compras");
    reveal_strlit("creditos_abonos");
    reveal_strlit("detalle_compras");
    reveal_strlit("detalle_traspasos");
    reveal_strlit("detalle_ventas");
    reveal_strlit("empresa_config_fiscal");
    reveal_strlit("facturas_emitidas");
    reveal_strlit("id");
    reveal_strlit("inventario_sucursal");
    reveal_strlit("marcas");
    reveal_strlit("mermas_ajustes");
    reveal_strlit("movimientos_inventario");
    reveal_strlit("producto_id");
    reveal_strlit("producto_id,sucursal_id");
    reveal_strlit("productos");
    reveal_strlit("promocion_id");
    reveal_strlit("promocion_id,sucursal_id");
    reveal_strlit("promocion_sucursales");
    reveal_strlit("promociones");
    reveal_strlit("proveedores");
    reveal_strlit("sucursal_id");
    reveal_strlit("sucursales");
    reveal_strlit("traspasos");
    reveal_strlit("unidades");
    reveal_strlit("usuarios");
    reveal_strlit("uuid");
    reveal_strlit("ventas");
    let t = upload_templates();
    assert(t[0].0 == "sucursales"@ && t[0].1 == "id"@);
    assert(upload_key("sucursales"@) == "id"@);
    assert(t[1].0 == "empresa_config_fiscal"@ && t[1].1 == "id"@);
    assert(upload_key("empresa_config_fiscal"@) == "id"@);
    assert(t[2].0 == "proveedores"@ && t[2].1 == "id"@);
    assert(upload_key("proveedores"@) == "id"@);
    assert(t[3].0 == "marcas"@ && t[3].1 == "id"@);
    assert("marcas"@[0] != "ventas"@[0]);
    assert(upload_key("marcas"@) == "id"@);
    assert(t[4].0 == "categorias"@ && t[4].1 == "id"@);
    assert(upload_key("categorias"@) == "id"@);
    assert(t[5].0 == "unidades"@ && t[5].1 == "id"@);
    assert(upload_key("unidades"@) == "id"@);
    assert(t[6].0 == "usuarios"@ && t[6].1 == "id"@);
    assert(upload_key("usuarios"@) == "id"@);
    assert(t[7].0 == "productos"@ && t[7].1 == "id"@);
    assert("productos"@[0] != "traspasos"@[0]);
    assert(upload_key("productos"@) == "id"@);
    assert(t[8].0 == "inventario_sucursal"@ && t[8].1 == "producto_id,sucursal_id"@);
    assert(conflict_columns("inventario_sucursal"@) =~= seq!["producto_id"@, "sucursal_id"@]);
    assert(conflict_columns("inventario_sucursal"@).drop_last() =~= seq!["producto_id"@]);
    assert("producto_id,sucursal_id"@ =~= "producto_id"@ + ","@ + "sucursal_id"@);
    assert(!uuid_sync_table("inventario_sucursal"@));
    assert(join_with(seq!["producto_id"@], ","@) == "producto_id"@);
    assert(join_with(conflict_columns("inventario_sucursal"@), ","@) == join_with(seq!["producto_id"@], ","@) + ","@ + "sucursal_id"@);
    assert(upload_key("inventario_sucursal"@) == "producto_id,sucursal_id"@);
    assert(t[9].0 == "promociones"@ && t[9].1 == "id"@);
    assert(upload_key("promociones"@) == "id"@);
    assert(t[10].0 == "promocion_sucursales"@ && t[10].1 == "promocion_id,sucursal_id"@);
    assert(conflict_columns("promocion_sucursales"@) =~= seq!["promocion_id"@, "sucursal_id"@]);
    assert(conflict_columns("promocion_sucursales"@).drop_last() =~= seq!["promocion_id"@]);
    assert("promocion_id,sucursal_id"@ =~= "promocion_id"@ + ","@ + "sucursal_id"@);
    assert(!uuid_sync_table("promocion_sucursales"@));
    assert(join_with(seq!["promocion_id"@], ","@) == "promocion_id"@);
    assert(join_with(conflict_columns("promocion_sucursales"@), ","@) == join_with(seq!["promocion_id"@], ","@) + ","@ + "sucursal_id"@);
    assert(upload_key("promocion_sucursales"@) == "promocion_id,sucursal_id"@);
    assert(t[11].0 == "clientes"@ && t[11].1 == "id"@);
    assert(upload_key("clientes"@) == "id"@);
    assert(t[12].0 == "clientes_datos_fiscales"@ && t[12].1 == "cliente_id"@);
    assert(upload_key("clientes_datos_fiscales"@) == "cliente_id"@);
    assert(t[13].0 == "compras"@ && t[13].1 == "uuid"@);
    assert(upload_key("compras"@) == "uuid"@);
    assert(t[14].0 == "detalle_compras"@ && t[14].1 == "uuid"@);
    assert(upload_key("detalle_compras"@) == "uuid"@);
    assert(t[15].0 == "ventas"@ && t[15].1 == "uuid"@);
    assert(upload_key("ventas"@) == "uuid"@);
    assert(t[16].0 == "detalle_ventas"@ && t[16].1 == "uuid"@);
    assert(upload_key("detalle_ventas"@) == "uuid"@);
    assert(t[17].0 == "creditos_abonos"@ && t[17].1 == "uuid"@);
    assert(upload_key("creditos_abonos"@) == "uuid"@);
    assert(t[18].0 == "cajas_sesiones"@ && t[18].1 == "uuid"@);
    assert(upload_key("cajas_sesiones"@) == "uuid"@);
    assert(t[19].0 == "caja_movimientos"@ && t[19].1 == "uuid"@);
    assert(upload_key("caja_movimientos"@) == "uuid"@);
    assert(t[20].0 == "traspasos"@ && t[20].1 == "uuid"@);
    assert(upload_key("traspasos"@) == "uuid"@);
    assert(t[21].0 == "detalle_traspasos"@ && t[21].1 == "uuid"@);
    assert(upload_key("detalle_traspasos"@) == "uuid"@);
    assert(t[22].0 == "mermas_ajustes"@ && t[22].1 == "uuid"@);
    assert(upload_key("mermas_ajustes"@) == "uuid"@);
    assert(t[23].0 == "facturas_emitidas"@ && t[23].1 == "uuid"@);
    assert(upload_key("facturas_emitidas"@) == "uuid"@);
    assert(t[24].0 == "movimientos_inventario"@ && t[24].1 == "uuid"@);
    assert(upload_key("movimientos_inventario"@) == "uuid"@);
    assert forall|i: int| 0 <= i < t.len() implies #[trigger] t[i].1 == upload_key(t[i].0) by {
        if i == 0 {}
        if i == 1 {}
        if i == 2 {}
        if i == 3 {}
        if i == 4 {}
        if i == 5 {}
        if i == 6 {}
        if i == 7 {}
        if i == 8 {}
        if i == 9 {}
        if i == 10 {}
        if i == 11 {}
        if i == 12 {}
        if i == 13 {}
        if i == 14 {}
        if i == 15 {}
        if i == 16 {}
        if i == 17 {}
        if i == 18 {}
        if i == 19 {}
        if i == 20 {}
        if i == 21 {}
        if i == 22 {}
        if i == 23 {}
        if i == 24 {}
    }
}

/// Each table's rows are uploaded under the same key they are pulled back
/// by: `uuid` for the tables keyed by their synchronisation identifier, and
/// the pull's key columns for every other table.
pub proof fn law_upload_key_is_pull_key(limit: Option<usize>, only_pending: bool)
    ensures
        forall|i: int|
            0 <= i < upload_plans(limit, only_pending).len() ==> #[trigger] upload_plans(limit, only_pending)[i].1
                == upload_key(upload_plans(limit, only_pending)[i].0),
{
    lemma_template_keys();
    let p = upload_plans(limit, only_pending);
    assert forall|i: int| 0 <= i < p.len() implies #[trigger] p[i].1 == upload_key(p[i].0) by {
        assert(upload_templates()[i].1 == upload_key(upload_templates()[i].0));
    }
}


/// `a` is uploaded before `b` in the plans.
pub open spec fn uploaded_before(p: Seq<(Seq<char>, Seq<char>, Seq<char>)>, a: Seq<char>, b: Seq<char>) -> bool {
    exists|i: int, j: int| 0 <= i < j < p.len() && #[trigger] p[i].0 == a && #[trigger] p[j].0 == b
}

/// The upload plans take every synchronised table (as many plans as tables),
/// and each parent table before the tables whose rows point to it, so the
/// cloud copy never receives a row before the row it refers to.
pub proof fn law_parents_uploaded_first(limit: Option<usize>, only_pending: bool)
    ensures
        upload_plans(limit, only_pending).len() == backup_tables().len(),
        forall|k: int|
            0 <= k < backup_tables().len() ==> exists|i: int|
                0 <= i < upload_plans(limit, only_pending).len() && #[trigger] upload_plans(limit, only_pending)[i].0
                    == #[trigger] backup_tables()[k],
        uploaded_before(upload_plans(limit, only_pending), "sucursales"@, "usuarios"@),
        uploaded_before(upload_plans(limit, only_pending), "sucursales"@, "inventario_sucursal"@),
        uploaded_before(upload_plans(limit, only_pending), "proveedores"@, "productos"@),
        uploaded_before(upload_plans(limit, only_pending), "marcas"@, "productos"@),
        uploaded_before(upload_plans(limit, only_pending), "categorias"@, "productos"@),
        uploaded_before(upload_plans(limit, only_pending), "unidades"@, "productos"@),
        uploaded_before(upload_plans(limit, only_pending), "productos"@, "inventario_sucursal"@),
        uploaded_before(upload_plans(limit, only_pending), "promociones"@, "promocion_sucursales"@),
        uploaded_before(upload_plans(limit, only_pending), "clientes"@, "clientes_datos_fiscales"@),
        uploaded_before(upload_plans(limit, only_pending), "compras"@, "detalle_compras"@),
        uploaded_before(upload_plans(limit, only_pending), "ventas"@, "detalle_ventas"@),
        uploaded_before(upload_plans(limit, only_pending), "detalle_ventas"@, "facturas_emitidas"@),
        uploaded_before(upload_plans(limit, only_pending), "usuarios"@, "creditos_abonos"@),
        uploaded_before(upload_plans(limit, only_pending), "cajas_sesiones"@, "caja_movimientos"@),
        uploaded_before(upload_plans(limit, only_pending), "traspasos"@, "detalle_traspasos"@),
{
    let p = upload_plans(limit, only_pending);
    let t = upload_templates();
    let bt = backup_tables();
    assert(p[0].0 == "sucursales"@);
    assert(p[1].0 == "empresa_config_fiscal"@);
    assert(p[2].0 == "proveedores"@);
    assert(p[3].0 == "marcas"@);
    assert(p[4].0 == "categorias"@);
    assert(p[5].0 == "unidades"@);
    assert(p[6].0 == "usuarios"@);
    assert(p[7].0 == "productos"@);
    assert(p[8].0 == "inventario_sucursal"@);
    assert(p[9].0 == "promociones"@);
    assert(p[10].0 == "promocion_sucursales"@);
    assert(p[11].0 == "clientes"@);
    assert(p[12].0 == "clientes_datos_fiscales"@);
    assert(p[13].0 == "compras"@);
    assert(p[14].0 == "detalle_compras"@);
    assert(p[15].0 == "ventas"@);
    assert(p[16].0 == "detalle_ventas"@);
    assert(p[17].0 == "creditos_abonos"@);
    assert(p[18].0 == "cajas_sesiones"@);
    assert(p[19].0 == "caja_movimientos"@);
    assert(p[20].0 == "traspasos"@);
    assert(p[21].0 == "detalle_traspasos"@);
    assert(p[22].0 == "mermas_ajustes"@);
    assert(p[23].0 == "facturas_emitidas"@);
    assert(p[24].0 == "movimientos_inventario"@);
    assert(bt[0] == "sucursales"@);
    assert(bt[1] == "empresa_config_fiscal"@);
    assert(bt[2] == "usuarios"@);
    assert(bt[3] == "proveedores"@);
    assert(bt[4] == "marcas"@);
    assert(bt[5] == "categorias"@);
    assert(bt[6] == "unidades"@);
    assert(bt[7] == "productos"@);
    assert(bt[8] == "inventario_sucursal"@);
    assert(bt[9] == "clientes"@);
    assert(bt[10] == "clientes_datos_fiscales"@);
    assert(bt[11] == "compras"@);
    assert(bt[12] == "detalle_compras"@);
    assert(bt[13] == "ventas"@);
    assert(bt[14] == "detalle_ventas"@);
    assert(bt[15] == "creditos_abonos"@);
    assert(bt[16] == "cajas_sesiones"@);
    assert(bt[17] == "caja_movimientos"@);
    assert(bt[18] == "traspasos"@);
    assert(bt[19] == "detalle_traspasos"@);
    assert(bt[20] == "mermas_ajustes"@);
    assert(bt[21] == "movimientos_inventario"@);
    assert(bt[22] == "facturas_emitidas"@);
    assert(bt[23] == "promociones"@);
    assert(bt[24] == "promocion_sucursales"@);
    assert forall|k: int| 0 <= k < bt.len() implies exists|i: int|
        0 <= i < p.len() && #[trigger] p[i].0 == #[trigger] bt[k] by {
        if k == 0 { assert(p[0].0 == bt[0]); }
        if k == 1 { assert(p[1].0 == bt[1]); }
        if k == 2 { assert(p[6].0 == bt[2]); }
        if k == 3 { assert(p[2].0 == bt[3]); }
        if k == 4 { assert(p[3].0 == bt[4]); }
        if k == 5 { assert(p[4].0 == bt[5]); }
        if k == 6 { assert(p[5].0 == bt[6]); }
        if k == 7 { assert(p[7].0 == bt[7]); }
        if k == 8 { assert(p[8].0 == bt[8]); }
        if k == 9 { assert(p[11].0 == bt[9]); }
        if k == 10 { assert(p[12].0 == bt[10]); }
        if k == 11 { assert(p[13].0 == bt[11]); }
        if k == 12 { assert(p[14].0 == bt[12]); }
        if k == 13 { assert(p[15].0 == bt[13]); }
        if k == 14 { assert(p[16].0 == bt[14]); }
        if k == 15 { assert(p[17].0 == bt[15]); }
        if k == 16 { assert(p[18].0 == bt[16]); }
        if k == 17 { assert(p[19].0 == bt[17]); }
        if k == 18 { assert(p[20].0 == bt[18]); }
        if k == 19 { assert(p[21].0 == bt[19]); }
        if k == 20 { assert(p[22].0 == bt[20]); }
        if k == 21 { assert(p[24].0 == bt[21]); }
        if k == 22 { assert(p[23].0 == bt[22]); }
        if k == 23 { assert(p[9].0 == bt[23]); }
        if k == 24 { assert(p[10].0 == bt[24]); }
    }
    assert(0 <= 0 < 6 < p.len() && p[0].0 == "sucursales"@ && p[6].0 == "usuarios"@);
    assert(0 <= 0 < 8 < p.len() && p[0].0 == "sucursales"@ && p[8].0 == "inventario_sucursal"@);
    assert(0 <= 2 < 7 < p.len() && p[2].0 == "proveedores"@ && p[7].0 == "productos"@);
    assert(0 <= 3 < 7 < p.len() && p[3].0 == "marcas"@ && p[7].0 == "productos"@);
    assert(0 <= 4 < 7 < p.len() && p[4].0 == "categorias"@ && p[7].0 == "productos"@);
    assert(0 <= 5 < 7 < p.len() && p[5].0 == "unidades"@ && p[7].0 == "productos"@);
    assert(0 <= 7 < 8 < p.len() && p[7].0 == "productos"@ && p[8].0 == "inventario_sucursal"@);
    assert(0 <= 9 < 10 < p.len() && p[9].0 == "promociones"@ && p[10].0 == "promocion_sucursales"@);
    assert(0 <= 11 < 12 < p.len() && p[11].0 == "clientes"@ && p[12].0 == "clientes_datos_fiscales"@);
    assert(0 <= 13 < 14 < p.len() && p[13].0 == "compras"@ && p[14].0 == "detalle_compras"@);
    assert(0 <= 15 < 16 < p.len() && p[15].0 == "ventas"@ && p[16].0 == "detalle_ventas"@);
    assert(0 <= 16 < 23 < p.len() && p[16].0 == "detalle_ventas"@ && p[23].0 == "facturas_emitidas"@);
    assert(0 <= 6 < 17 < p.len() && p[6].0 == "usuarios"@ && p[17].0 == "creditos_abonos"@);
    assert(0 <= 18 < 19 < p.len() && p[18].0 == "cajas_sesiones"@ && p[19].0 == "caja_movimientos"@);
    assert(0 <= 20 < 21 < p.len() && p[20].0 == "traspasos"@ && p[21].0 == "detalle_traspasos"@);
}

/// Every upload query is its table's selection, then (only when pending rows
/// are asked for) the condition on the synchronisation flag, then the order
/// by time of change, and ends with the row limit when there is one.
pub proof fn law_upload_query_shape(limit: Option<usize>, only_pending: bool, i: int)
    requires
        0 <= i < upload_plans(limit, only_pending).len(),
    ensures
        ({
            let q = upload_plans(limit, only_pending)[i].2;
            let sel = upload_templates()[i].2;
            let alias = upload_templates()[i].3;
            let w = " WHERE "@ + alias + "sincronizado = 0"@;
            &&& q.subrange(0, sel.len() as int) == sel
            &&& only_pending ==> q.subrange(sel.len() as int, (sel.len() + w.len()) as int) == w
            &&& !only_pending ==> q.subrange(sel.len() as int, (sel.len() + 10) as int) == " ORDER BY "@
            &&& limit matches Some(n) ==> q.subrange(q.len() - (" LIMIT "@ + decimal(n as nat)).len(), q.len() as int)
                == " LIMIT "@ + decimal(n as nat)
            &&& limit is None ==> q.subrange(q.len() - 10, q.len() as int) == "updated_at"@
        }),
{
    let q = upload_plans(limit, only_pending)[i].2;
    let sel = upload_templates()[i].2;
    let alias = upload_templates()[i].3;
    let w = " WHERE "@ + alias + "sincronizado = 0"@;
    let mid = (if only_pending { w } else { Seq::<char>::empty() });
    let ord = " ORDER BY "@ + alias + "updated_at"@;
    let lim = match limit {
        Some(n) => " LIMIT "@ + decimal(n as nat),
        None => Seq::<char>::empty(),
    };
    reveal_strlit(" ORDER BY ");
    reveal_strlit("updated_at");
    assert(q == sel + mid + ord + lim);
    assert(q.subrange(0, sel.len() as int) =~= sel);
    if only_pending {
        assert(q.subrange(sel.len() as int, (sel.len() + w.len()) as int) =~= w);
    } else {
        assert(q.subrange(sel.len() as int, (sel.len() + 10) as int) =~= " ORDER BY "@);
    }
    match limit {
        Some(n) => {
            assert(q.subrange(q.len() - lim.len(), q.len() as int) =~= lim);
        },
        None => {
            assert(q.subrange(q.len() - 10, q.len() as int) =~= "updated_at"@);
        },
    }
}


// ---------------------------------------------------------------------------
// Decoding what was percent-encoded
// ---------------------------------------------------------------------------

/// The value of a hexadecimal digit (either case); 0 for anything else.
pub open spec fn hex_value(c: char) -> int {
    let v = c as u32;
    if 48 <= v && v <= 57 {
        v - 48
    } else if 65 <= v && v <= 70 {
        v - 55
    } else if 97 <= v && v <= 102 {
        v - 87
    } else {
        0
    }
}

/// Percent-decoding, from the front: `%` followed by two characters gives
/// the byte their hexadecimal digits spell; any other character gives its
/// own code.
pub open spec fn percent_decoded(s: Seq<char>) -> Seq<u8>
    decreases s.len(),
{
    if s.len() == 0 {
        Seq::empty()
    } else if s[0] == '%' && s.len() >= 3 {
        seq![(hex_value(s[1]) * 16 + hex_value(s[2])) as u8] + percent_decoded(s.subrange(3, s.len() as int))
    } else {
        seq![(s[0] as u32) as u8] + percent_decoded(s.drop_first())
    }
}

/// The characters an encoded component may hold: ASCII letters and digits,
/// `-`, `_`, `.`, `~`, and the `%` of an escape.
pub open spec fn url_safe_char(c: char) -> bool {
    let v = c as u32;
    (48 <= v && v <= 57) || (65 <= v && v <= 90) || (97 <= v && v <= 122) || v == 45 || v == 95 || v == 46
        || v == 126 || v == 37
}

proof fn lemma_encoded_front(bytes: Seq<u8>)
    requires
        bytes.len() > 0,
    ensures
        percent_encoded(bytes) == encode_byte(bytes[0]) + percent_encoded(bytes.drop_first()),
    decreases bytes.len(),
{
    if bytes.len() == 1 {
        assert(bytes.drop_last() =~= Seq::<u8>::empty());
        assert(bytes.drop_first() =~= Seq::<u8>::empty());
        assert(percent_encoded(bytes) =~= encode_byte(bytes[0]) + percent_encoded(bytes.drop_first()));
    } else {
        let dl = bytes.drop_last();
        lemma_encoded_front(dl);
        assert(dl.drop_first() =~= bytes.drop_first().drop_last());
        assert(bytes.drop_first().last() == bytes.last());
        assert(dl[0] == bytes[0]);
        assert(percent_encoded(bytes) =~= encode_byte(bytes[0]) + percent_encoded(bytes.drop_first()));
    }
}

proof fn lemma_hex_digit_value(n: nat)
    requires
        n < 16,
    ensures
        hex_value(hex_digit(n)) == n,
        url_safe_char(hex_digit(n)),
        hex_digit(n) != '%',
{
    if n < 10 {
        assert((((n + 48) as u32) as char) as u32 == n + 48);
    } else {
        assert((((n + 55) as u32) as char) as u32 == n + 55);
    }
}

proof fn lemma_decode_byte(b: u8, rest: Seq<char>)
    ensures
        percent_decoded(encode_byte(b) + rest) == seq![b] + percent_decoded(rest),
{
    let e = encode_byte(b);
    let s = e + rest;
    if unreserved_byte(b) {
        let c = (b as u32) as char;
        assert(c as u32 == b as u32);
        assert(s[0] == c);
        assert(c != '%');
        assert(s.drop_first() =~= rest);
        assert(((c as u32) as u8) == b);
        assert(percent_decoded(s) =~= seq![b] + percent_decoded(rest));
    } else {
        let hi = (b / 16) as nat;
        let lo = (b % 16) as nat;
        lemma_hex_digit_value(hi);
        lemma_hex_digit_value(lo);
        assert(s[0] == '%' && s[1] == hex_digit(hi) && s[2] == hex_digit(lo));
        assert(s.subrange(3, s.len() as int) =~= rest);
        assert((hi * 16 + lo) as u8 == b);
        assert(percent_decoded(s) =~= seq![b] + percent_decoded(rest));
    }
}

proof fn lemma_decode_encoded(bytes: Seq<u8>)
    ensures
        percent_decoded(percent_encoded(bytes)) == bytes,
    decreases bytes.len(),
{
    if bytes.len() == 0 {
        assert(percent_encoded(bytes) =~= Seq::<char>::empty());
    } else {
        lemma_encoded_front(bytes);
        lemma_decode_encoded(bytes.drop_first());
        lemma_decode_byte(bytes[0], percent_encoded(bytes.drop_first()));
        assert(seq![bytes[0]] + bytes.drop_first() =~= bytes);
    }
}

proof fn lemma_encoded_safe(bytes: Seq<u8>)
    ensures
        forall|k: int| 0 <= k < percent_encoded(bytes).len() ==> url_safe_char(#[trigger] percent_encoded(bytes)[k]),
    decreases bytes.len(),
{
    if bytes.len() > 0 {
        let b = bytes.last();
        lemma_encoded_safe(bytes.drop_last());
        let prev = percent_encoded(bytes.drop_last());
        let e = encode_byte(b);
        if unreserved_byte(b) {
            assert((((b as u32) as char) as u32) == b as u32);
        } else {
            lemma_hex_digit_value((b / 16) as nat);
            lemma_hex_digit_value((b % 16) as nat);
        }
        assert(forall|k: int| 0 <= k < e.len() ==> url_safe_char(#[trigger] e[k]));
        assert forall|k: int| 0 <= k < percent_encoded(bytes).len() implies url_safe_char(
            #[trigger] percent_encoded(bytes)[k],
        ) by {
            if k < prev.len() {
                assert(percent_encoded(bytes)[k] == prev[k]);
            } else {
                assert(percent_encoded(bytes)[k] == e[k - prev.len()]);
            }
        }
    }
}

/// An encoded component holds only URL-safe characters, and decoding it
/// gives back exactly the UTF-8 bytes of the value that was encoded.
pub proof fn law_url_decoding_gives_value_back(value: Seq<char>)
    ensures
        percent_decoded(percent_encoded(encode_utf8(value))) == encode_utf8(value),
        forall|k: int|
            0 <= k < percent_encoded(encode_utf8(value)).len() ==> url_safe_char(
                #[trigger] percent_encoded(encode_utf8(value))[k],
            ),
{
    lemma_decode_encoded(encode_utf8(value));
    lemma_encoded_safe(encode_utf8(value));
}


// ---------------------------------------------------------------------------
// The pending-rows condition appears only when asked for
// ---------------------------------------------------------------------------

/// `t` occurs somewhere in `s`.
pub open spec fn occurs_in(t: Seq<char>, s: Seq<char>) -> bool {
    exists|i: int| 0 <= i && i + t.len() <= s.len() && #[trigger] s.subrange(i, i + t.len()) == t
}

/// No character of the text is the digit `0`.
pub open spec fn without_zero(s: Seq<char>) -> bool {
    forall|k: int| 0 <= k < s.len() ==> #[trigger] s[k] != '0'
}

proof fn lemma_concat_without_zero(x: Seq<char>, y: Seq<char>)
    requires
        without_zero(x),
        without_zero(y),
    ensures
        without_zero(x + y),
{
    assert forall|k: int| 0 <= k < (x + y).len() implies #[trigger] (x + y)[k] != '0' by {
        if k < x.len() {
            assert((x + y)[k] == x[k]);
        } else {
            assert((x + y)[k] == y[k - x.len()]);
        }
    }
}

proof fn lemma_templates_without_zero()
    ensures
        forall|i: int|
            0 <= i < upload_templates().len() ==> without_zero(#[trigger] upload_templates()[i].2) && without_zero(
                upload_templates()[i].3,
            ),
{
    let t = upload_templates();
    reveal_strlit("");
    reveal_strlit("SELECT ca.id AS __local_id, ca.sync_uuid AS uuid, ca.id, ca.cliente_id, ca.monto, ca.fecha, ca.usuario_id, u.sucursal_id, 1 AS sincronizado, ca.updated_at FROM creditos_abonos ca INNER JOIN usuarios u ON u.id = ca.usuario_id");
    reveal_strlit("SELECT cliente_id AS __local_id, cliente_id, rfc, razon_social, regimen_fiscal, codigo_postal, 1 AS sincronizado, updated_at FROM clientes_datos_fiscales");
    reveal_strlit("SELECT cm.id AS __local_id, cm.sync_uuid AS uuid, cm.id, cm.sesion_id, cs.sucursal_id, cm.tipo, cm.monto, cm.motivo, 1 AS sincronizado, cm.updated_at FROM caja_movimientos cm INNER JOIN cajas_sesiones cs ON cs.id = cm.sesion_id");
    reveal_strlit("SELECT dc.id AS __local_id, dc.sync_uuid AS uuid, dc.id, dc.compra_id, c.sucursal_id, dc.producto_id, dc.cantidad, dc.precio_costo_pactado, dc.costo_promedio_resultante, 1 AS sincronizado, dc.updated_at FROM detalle_compras dc INNER JOIN compras c ON c.id = dc.compra_id");
    reveal_strlit("SELECT dt.id AS __local_id, dt.sync_uuid AS uuid, dt.id, dt.traspaso_id, t.sucursal_origen_id, dt.producto_id, dt.cantidad, 1 AS sincronizado, dt.updated_at FROM detalle_traspasos dt INNER JOIN traspasos t ON t.id = dt.traspaso_id");
    reveal_strlit("SELECT dv.id AS __local_id, dv.sync_uuid AS uuid, dv.id, dv.venta_id, v.sucursal_id, dv.producto_id, dv.cantidad, dv.precio_venta_pactado, dv.costo_unitario_pactado, dv.tipo_precio_vendido, dv.precio_original, dv.descuento_aplicado, 1 AS sincronizado, dv.updated_at FROM detalle_ventas dv INNER JOIN ventas v ON v.id = dv.venta_id");
    reveal_strlit("SELECT fe.id AS __local_id, fe.sync_uuid AS uuid, fe.id, fe.venta_id, v.sucursal_id, fe.uuid AS uuid_sat, fe.rfc_receptor, fe.monto_total, fe.estado, fe.fecha_emision, fe.pdf_path, fe.xml_path, 1 AS sincronizado, fe.updated_at FROM facturas_emitidas fe INNER JOIN ventas v ON v.id = fe.venta_id");
    reveal_strlit("SELECT id AS __local_id, id, codigo_barras, codigo_proveedor, proveedor_id, clave_producto, descripcion, marca, categoria, unidad, precio_costo, costo_promedio, precio_venta, sat_clave_prod_serv, sat_clave_unidad, precio_1, precio_2, precio_3, precio_4, mayoreo_apartir, a_granel, no_en_catalogo, ventas_negativas, caducidad, fotos, descripcion_catalogo, eliminado, 1 AS sincronizado, updated_at FROM productos");
    reveal_strlit("SELECT id AS __local_id, id, email, nombre, role, sucursal_id, password_hash, eliminado, 1 AS sincronizado, updated_at FROM usuarios");
    reveal_strlit("SELECT id AS __local_id, id, nombre, clave_sat, eliminado, 1 AS sincronizado, updated_at FROM unidades");
    reveal_strlit("SELECT id AS __local_id, id, nombre, contacto_nombre, telefono, email, direccion, eliminado, 1 AS sincronizado, updated_at FROM proveedores");
    reveal_strlit("SELECT id AS __local_id, id, nombre, direccion, telefono, codigo_postal, eliminado, 1 AS sincronizado, updated_at FROM sucursales");
    reveal_strlit("SELECT id AS __local_id, id, nombre, eliminado, 1 AS sincronizado, updated_at FROM categorias");
    reveal_strlit("SELECT id AS __local_id, id, nombre, eliminado, 1 AS sincronizado, updated_at FROM marcas");
    reveal_strlit("SELECT id AS __local_id, id, nombre, telefono, direccion, limite_credito, saldo_deudor, eliminado, 1 AS sincronizado, updated_at FROM clientes");
    reveal_strlit("SELECT id AS __local_id, id, nombre, tipo_descuento, valor, fecha_inicio, fecha_fin, activo, producto_id, categoria_id, marca, eliminado, 1 AS sincronizado, updated_at FROM promociones");
    reveal_strlit("SELECT id AS __local_id, id, rfc, razon_social, regimen_fiscal, registro_patronal, actualizado_at, 1 AS sincronizado, updated_at FROM empresa_config_fiscal");
    reveal_strlit("SELECT id AS __local_id, sync_uuid AS uuid, id, producto_id, sucursal_id, usuario_id, cantidad, tipo_movimiento, motivo, fecha, 1 AS sincronizado, updated_at FROM mermas_ajustes");
    reveal_strlit("SELECT id AS __local_id, sync_uuid AS uuid, id, proveedor_id, sucursal_id, fecha, total, 1 AS sincronizado, updated_at FROM compras");
    reveal_strlit("SELECT id AS __local_id, sync_uuid AS uuid, id, sucursal_origen_id, sucursal_destino_id, usuario_id, fecha, estado, usuario_recibio_id, fecha_recepcion, observaciones_recepcion, 1 AS sincronizado, updated_at FROM traspasos");
    reveal_strlit("SELECT id AS __local_id, sync_uuid AS uuid, id, usuario_id, sucursal_id, fecha, total, metodo_pago, efectivo_recibido, cambio_entregado, cliente_id, cliente_rapido_nombre, cliente_rapido_telefono, cliente_rapido_domicilio, requiere_factura, usuario_autorizo_cancelacion_id, motivo_cancelacion, fecha_cancelacion, estado, 1 AS sincronizado, updated_at FROM ventas");
    reveal_strlit("SELECT id AS __local_id, sync_uuid AS uuid, id, usuario_id, sucursal_id, fecha_apertura, monto_inicial, fecha_cierre, monto_final_real, monto_esperado, estado, 1 AS sincronizado, updated_at FROM cajas_sesiones");
    reveal_strlit("SELECT producto_id || '|' || sucursal_id AS __local_id, producto_id, sucursal_id, stock, stock_minimo, costo_promedio, precio_venta, 1 AS sincronizado, updated_at FROM inventario_sucursal");
    reveal_strlit("SELECT promocion_id || '|' || sucursal_id AS __local_id, promocion_id, sucursal_id, eliminado, 1 AS sincronizado, updated_at FROM promocion_sucursales");
    reveal_strlit("SELECT uuid AS __local_id, uuid, producto_id, sucursal_id, tipo, referencia_tipo, referencia_id, cantidad, costo_unitario, usuario_id, fecha, 1 AS sincronizado, updated_at FROM movimientos_inventario");
    reveal_strlit("ca.");
    reveal_strlit("cm.");
    reveal_strlit("dc.");
    reveal_strlit("dt.");
    reveal_strlit("dv.");
    reveal_strlit("fe.");
    assert(t[0].2 == "SELECT id AS __local_id, id, nombre, direccion, telefono, codigo_postal, eliminado, 1 AS sincronizado, updated_at FROM sucursales"@ && t[0].3 == ""@);
    assert forall|k: int| 0 <= k < t[0].2.len() implies #[trigger] t[0].2[k] != '0' by {}
    assert forall|k: int| 0 <= k < t[0].3.len() implies #[trigger] t[0].3[k] != '0' by {}
    assert(t[1].2 == "SELECT id AS __local_id, id, rfc, razon_social, regimen_fiscal, registro_patronal, actualizado_at, 1 AS sincronizado, updated_at FROM empresa_config_fiscal"@ && t[1].3 == ""@);
    assert forall|k: int| 0 <= k < t[1].2.len() implies #[trigger] t[1].2[k] != '0' by {}
    assert forall|k: int| 0 <= k < t[1].3.len() implies #[trigger] t[1].3[k] != '0' by {}
    assert(t[2].2 == "SELECT id AS __local_id, id, nombre, contacto_nombre, telefono, email, direccion, eliminado, 1 AS sincronizado, updated_at FROM proveedores"@ && t[2].3 == ""@);
    assert forall|k: int| 0 <= k < t[2].2.len() implies #[trigger] t[2].2[k] != '0' by {}
    assert forall|k: int| 0 <= k < t[2].3.len() implies #[trigger] t[2].3[k] != '0' by {}
    assert(t[3].2 == "SELECT id AS __local_id, id, nombre, eliminado, 1 AS sincronizado, updated_at FROM marcas"@ && t[3].3 == ""@);
    assert forall|k: int| 0 <= k < t[3].2.len() implies #[trigger] t[3].2[k] != '0' by {}
    assert forall|k: int| 0 <= k < t[3].3.len() implies #[trigger] t[3].3[k] != '0' by {}
    assert(t[4].2 == "SELECT id AS __local_id, id, nombre, eliminado, 1 AS sincronizado, updated_at FROM categorias"@ && t[4].3 == ""@);
    assert forall|k: int| 0 <= k < t[4].2.len() implies #[trigger] t[4].2[k] != '0' by {}
    assert forall|k: int| 0 <= k < t[4].3.len() implies #[trigger] t[4].3[k] != '0' by {}
    assert(t[5].2 == "SELECT id AS __local_id, id, nombre, clave_sat, eliminado, 1 AS sincronizado, updated_at FROM unidades"@ && t[5].3 == ""@);
    assert forall|k: int| 0 <= k < t[5].2.len() implies #[trigger] t[5].2[k] != '0' by {}
    assert forall|k: int| 0 <= k < t[5].3.len() implies #[trigger] t[5].3[k] != '0' by {}
    assert(t[6].2 == "SELECT id AS __local_id, id, email, nombre, role, sucursal_id, password_hash, eliminado, 1 AS sincronizado, updated_at FROM usuarios"@ && t[6].3 == ""@);
    assert forall|k: int| 0 <= k < t[6].2.len() implies #[trigger] t[6].2[k] != '0' by {}
    assert forall|k: int| 0 <= k < t[6].3.len() implies #[trigger] t[6].3[k] != '0' by {}
    assert(t[7].2 == "SELECT id AS __local_id, id, codigo_barras, codigo_proveedor, proveedor_id, clave_producto, descripcion, marca, categoria, unidad, precio_costo, costo_promedio, precio_venta, sat_clave_prod_serv, sat_clave_unidad, precio_1, precio_2, precio_3, precio_4, mayoreo_apartir, a_granel, no_en_catalogo, ventas_negativas, caducidad, fotos, descripcion_catalogo, eliminado, 1 AS sincronizado, updated_at FROM productos"@ && t[7].3 == ""@);
    assert forall|k: int| 0 <= k < t[7].2.len() implies #[trigger] t[7].2[k] != '0' by {}
    assert forall|k: int| 0 <= k < t[7].3.len() implies #[trigger] t[7].3[k] != '0' by {}
    assert(t[8].2 == "SELECT producto_id || '|' || sucursal_id AS __local_id, producto_id, sucursal_id, stock, stock_minimo, costo_promedio, precio_venta, 1 AS sincronizado, updated_at FROM inventario_sucursal"@ && t[8].3 == ""@);
    assert forall|k: int| 0 <= k < t[8].2.len() implies #[trigger] t[8].2[k] != '0' by {}
    assert forall|k: int| 0 <= k < t[8].3.len() implies #[trigger] t[8].3[k] != '0' by {}
    assert(t[9].2 == "SELECT id AS __local_id, id, nombre, tipo_descuento, valor, fecha_inicio, fecha_fin, activo, producto_id, categoria_id, marca, eliminado, 1 AS sincronizado, updated_at FROM promociones"@ && t[9].3 == ""@);
    assert forall|k: int| 0 <= k < t[9].2.len() implies #[trigger] t[9].2[k] != '0' by {}
    assert forall|k: int| 0 <= k < t[9].3.len() implies #[trigger] t[9].3[k] != '0' by {}
    assert(t[10].2 == "SELECT promocion_id || '|' || sucursal_id AS __local_id, promocion_id, sucursal_id, eliminado, 1 AS sincronizado, updated_at FROM promocion_sucursales"@ && t[10].3 == ""@);
    assert forall|k: int| 0 <= k < t[10].2.len() implies #[trigger] t[10].2[k] != '0' by {}
    assert forall|k: int| 0 <= k < t[10].3.len() implies #[trigger] t[10].3[k] != '0' by {}
    assert(t[11].2 == "SELECT id AS __local_id, id, nombre, telefono, direccion, limite_credito, saldo_deudor, eliminado, 1 AS sincronizado, updated_at FROM clientes"@ && t[11].3 == ""@);
    assert forall|k: int| 0 <= k < t[11].2.len() implies #[trigger] t[11].2[k] != '0' by {}
    assert forall|k: int| 0 <= k < t[11].3.len() implies #[trigger] t[11].3[k] != '0' by {}
    assert(t[12].2 == "SELECT cliente_id AS __local_id, cliente_id, rfc, razon_social, regimen_fiscal, codigo_postal, 1 AS sincronizado, updated_at FROM clientes_datos_fiscales"@ && t[12].3 == ""@);
    assert forall|k: int| 0 <= k < t[12].2.len() implies #[trigger] t[12].2[k] != '0' by {}
    assert forall|k: int| 0 <= k < t[12].3.len() implies #[trigger] t[12].3[k] != '0' by {}
    assert(t[13].2 == "SELECT id AS __local_id, sync_uuid AS uuid, id, proveedor_id, sucursal_id, fecha, total, 1 AS sincronizado, updated_at FROM compras"@ && t[13].3 == ""@);
    assert forall|k: int| 0 <= k < t[13].2.len() implies #[trigger] t[13].2[k] != '0' by {}
    assert forall|k: int| 0 <= k < t[13].3.len() implies #[trigger] t[13].3[k] != '0' by {}
    assert(t[14].2 == "SELECT dc.id AS __local_id, dc.sync_uuid AS uuid, dc.id, dc.compra_id, c.sucursal_id, dc.producto_id, dc.cantidad, dc.precio_costo_pactado, dc.costo_promedio_resultante, 1 AS sincronizado, dc.updated_at FROM detalle_compras dc INNER JOIN compras c ON c.id = dc.compra_id"@ && t[14].3 == "dc."@);
    assert forall|k: int| 0 <= k < t[14].2.len() implies #[trigger] t[14].2[k] != '0' by {}
    assert forall|k: int| 0 <= k < t[14].3.len() implies #[trigger] t[14].3[k] != '0' by {}
    assert(t[15].2 == "SELECT id AS __local_id, sync_uuid AS uuid, id, usuario_id, sucursal_id, fecha, total, metodo_pago, efectivo_recibido, cambio_entregado, cliente_id, cliente_rapido_nombre, cliente_rapido_telefono, cliente_rapido_domicilio, requiere_factura, usuario_autorizo_cancelacion_id, motivo_cancelacion, fecha_cancelacion, estado, 1 AS sincronizado, updated_at FROM ventas"@ && t[15].3 == ""@);
    assert forall|k: int| 0 <= k < t[15].2.len() implies #[trigger] t[15].2[k] != '0' by {}
    assert forall|k: int| 0 <= k < t[15].3.len() implies #[trigger] t[15].3[k] != '0' by {}
    assert(t[16].2 == "SELECT dv.id AS __local_id, dv.sync_uuid AS uuid, dv.id, dv.venta_id, v.sucursal_id, dv.producto_id, dv.cantidad, dv.precio_venta_pactado, dv.costo_unitario_pactado, dv.tipo_precio_vendido, dv.precio_original, dv.descuento_aplicado, 1 AS sincronizado, dv.updated_at FROM detalle_ventas dv INNER JOIN ventas v ON v.id = dv.venta_id"@ && t[16].3 == "dv."@);
    assert forall|k: int| 0 <= k < t[16].2.len() implies #[trigger] t[16].2[k] != '0' by {}
    assert forall|k: int| 0 <= k < t[16].3.len() implies #[trigger] t[16].3[k] != '0' by {}
    assert(t[17].2 == "SELECT ca.id AS __local_id, ca.sync_uuid AS uuid, ca.id, ca.cliente_id, ca.monto, ca.fecha, ca.usuario_id, u.sucursal_id, 1 AS sincronizado, ca.updated_at FROM creditos_abonos ca INNER JOIN usuarios u ON u.id = ca.usuario_id"@ && t[17].3 == "ca."@);
    assert forall|k: int| 0 <= k < t[17].2.len() implies #[trigger] t[17].2[k] != '0' by {}
    assert forall|k: int| 0 <= k < t[17].3.len() implies #[trigger] t[17].3[k] != '0' by {}
    assert(t[18].2 == "SELECT id AS __local_id, sync_uuid AS uuid, id, usuario_id, sucursal_id, fecha_apertura, monto_inicial, fecha_cierre, monto_final_real, monto_esperado, estado, 1 AS sincronizado, updated_at FROM cajas_sesiones"@ && t[18].3 == ""@);
    assert forall|k: int| 0 <= k < t[18].2.len() implies #[trigger] t[18].2[k] != '0' by {}
    assert forall|k: int| 0 <= k < t[18].3.len() implies #[trigger] t[18].3[k] != '0' by {}
    assert(t[19].2 == "SELECT cm.id AS __local_id, cm.sync_uuid AS uuid, cm.id, cm.sesion_id, cs.sucursal_id, cm.tipo, cm.monto, cm.motivo, 1 AS sincronizado, cm.updated_at FROM caja_movimientos cm INNER JOIN cajas_sesiones cs ON cs.id = cm.sesion_id"@ && t[19].3 == "cm."@);
    assert forall|k: int| 0 <= k < t[19].2.len() implies #[trigger] t[19].2[k] != '0' by {}
    assert forall|k: int| 0 <= k < t[19].3.len() implies #[trigger] t[19].3[k] != '0' by {}
    assert(t[20].2 == "SELECT id AS __local_id, sync_uuid AS uuid, id, sucursal_origen_id, sucursal_destino_id, usuario_id, fecha, estado, usuario_recibio_id, fecha_recepcion, observaciones_recepcion, 1 AS sincronizado, updated_at FROM traspasos"@ && t[20].3 == ""@);
    assert forall|k: int| 0 <= k < t[20].2.len() implies #[trigger] t[20].2[k] != '0' by {}
    assert forall|k: int| 0 <= k < t[20].3.len() implies #[trigger] t[20].3[k] != '0' by {}
    assert(t[21].2 == "SELECT dt.id AS __local_id, dt.sync_uuid AS uuid, dt.id, dt.traspaso_id, t.sucursal_origen_id, dt.producto_id, dt.cantidad, 1 AS sincronizado, dt.updated_at FROM detalle_traspasos dt INNER JOIN traspasos t ON t.id = dt.traspaso_id"@ && t[21].3 == "dt."@);
    assert forall|k: int| 0 <= k < t[21].2.len() implies #[trigger] t[21].2[k] != '0' by {}
    assert forall|k: int| 0 <= k < t[21].3.len() implies #[trigger] t[21].3[k] != '0' by {}
    assert(t[22].2 == "SELECT id AS __local_id, sync_uuid AS uuid, id, producto_id, sucursal_id, usuario_id, cantidad, tipo_movimiento, motivo, fecha, 1 AS sincronizado, updated_at FROM mermas_ajustes"@ && t[22].3 == ""@);
    assert forall|k: int| 0 <= k < t[22].2.len() implies #[trigger] t[22].2[k] != '0' by {}
    assert forall|k: int| 0 <= k < t[22].3.len() implies #[trigger] t[22].3[k] != '0' by {}
    assert(t[23].2 == "SELECT fe.id AS __local_id, fe.sync_uuid AS uuid, fe.id, fe.venta_id, v.sucursal_id, fe.uuid AS uuid_sat, fe.rfc_receptor, fe.monto_total, fe.estado, fe.fecha_emision, fe.pdf_path, fe.xml_path, 1 AS sincronizado, fe.updated_at FROM facturas_emitidas fe INNER JOIN ventas v ON v.id = fe.venta_id"@ && t[23].3 == "fe."@);
    assert forall|k: int| 0 <= k < t[23].2.len() implies #[trigger] t[23].2[k] != '0' by {}
    assert forall|k: int| 0 <= k < t[23].3.len() implies #[trigger] t[23].3[k] != '0' by {}
    assert(t[24].2 == "SELECT uuid AS __local_id, uuid, producto_id, sucursal_id, tipo, referencia_tipo, referencia_id, cantidad, costo_unitario, usuario_id, fecha, 1 AS sincronizado, updated_at FROM movimientos_inventario"@ && t[24].3 == ""@);
    assert forall|k: int| 0 <= k < t[24].2.len() implies #[trigger] t[24].2[k] != '0' by {}
    assert forall|k: int| 0 <= k < t[24].3.len() implies #[trigger] t[24].3[k] != '0' by {}
    assert forall|i: int| 0 <= i < t.len() implies without_zero(#[trigger] t[i].2) && without_zero(t[i].3) by {
        if i == 0 {}
        if i == 1 {}
        if i == 2 {}
        if i == 3 {}
        if i == 4 {}
        if i == 5 {}
        if i == 6 {}
        if i == 7 {}
        if i == 8 {}
        if i == 9 {}
        if i == 10 {}
        if i == 11 {}
        if i == 12 {}
        if i == 13 {}
        if i == 14 {}
        if i == 15 {}
        if i == 16 {}
        if i == 17 {}
        if i == 18 {}
        if i == 19 {}
        if i == 20 {}
        if i == 21 {}
        if i == 22 {}
        if i == 23 {}
        if i == 24 {}
    }
}

proof fn lemma_decimal_digits(n: nat)
    ensures
        forall|k: int| 0 <= k < decimal(n).len() ==> 48 <= (#[trigger] decimal(n)[k] as u32) <= 57,
    decreases n,
{
    if n < 10 {
        assert(((n + 48) as u32) as char as u32 == n + 48);
    } else {
        lemma_decimal_digits(n / 10);
        let d = decimal(n / 10);
        let c = digit_char(n % 10);
        assert(((n % 10 + 48) as u32) as char as u32 == n % 10 + 48);
        assert forall|k: int| 0 <= k < decimal(n).len() implies 48 <= (#[trigger] decimal(n)[k] as u32) <= 57 by {
            if k < d.len() {
                assert(decimal(n)[k] == d[k]);
            } else {
                assert(decimal(n)[k] == c);
            }
        }
    }
}

/// An upload query asks for the rows still pending synchronisation
/// (`sincronizado = 0`) exactly when pending rows were asked for: without
/// that request the condition occurs nowhere in the query, whatever the
/// limit.
pub proof fn law_pending_condition_only_when_asked(limit: Option<usize>, only_pending: bool, i: int)
    requires
        0 <= i < upload_plans(limit, only_pending).len(),
    ensures
        only_pending <==> occurs_in("sincronizado = 0"@, upload_plans(limit, only_pending)[i].2),
{
    let q = upload_plans(limit, only_pending)[i].2;
    let sel = upload_templates()[i].2;
    let alias = upload_templates()[i].3;
    let t = "sincronizado = 0"@;
    reveal_strlit("sincronizado = 0");
    reveal_strlit(" WHERE ");
    reveal_strlit(" ORDER BY ");
    reveal_strlit("updated_at");
    reveal_strlit(" LIMIT ");
    let w = " WHERE "@ + alias;
    let mid = if only_pending { w + t } else { Seq::<char>::empty() };
    let lim = match limit {
        Some(n) => " LIMIT "@ + decimal(n as nat),
        None => Seq::<char>::empty(),
    };
    let a = sel + mid + " ORDER BY "@ + alias + "updated_at"@;
    assert(q == a + lim);
    if only_pending {
        let j = (sel.len() + w.len()) as int;
        assert(q.subrange(j, j + t.len()) =~= t);
    } else {
        lemma_templates_without_zero();
        assert(without_zero(sel) && without_zero(alias));
        assert(without_zero(Seq::<char>::empty()));
        assert(without_zero(" ORDER BY "@));
        assert(without_zero("updated_at"@));
        lemma_concat_without_zero(sel, mid);
        lemma_concat_without_zero(sel + mid, " ORDER BY "@);
        lemma_concat_without_zero(sel + mid + " ORDER BY "@, alias);
        lemma_concat_without_zero(sel + mid + " ORDER BY "@ + alias, "updated_at"@);
        if occurs_in(t, q) {
            let j = choose|j: int| 0 <= j && j + t.len() <= q.len() && #[trigger] q.subrange(j, j + t.len()) == t;
            let p = j + 15;
            assert(q.subrange(j, j + t.len())[15] == t[15]);
            assert(q[p] == '0');
            assert(q.subrange(j, j + t.len())[13] == t[13]);
            assert(q[p - 2] == '=');
            assert(p >= a.len()) by {
                if p < a.len() {
                    assert(q[p] == a[p]);
                }
            }
            match limit {
                Some(n) => {
                    let d = decimal(n as nat);
                    lemma_decimal_digits(n as nat);
                    let m = a.len() as int;
                    assert(q[p] == lim[p - m]);
                    assert(p - m >= 7) by {
                        if p - m < 7 {
                            assert(lim[p - m] == " LIMIT "@[p - m]);
                        }
                    }
                    assert(q[p - 2] == lim[p - 2 - m]);
                    if p - 2 - m < 7 {
                        assert(lim[p - 2 - m] == " LIMIT "@[p - 2 - m]);
                    } else {
                        assert(lim[p - 2 - m] == d[p - 2 - m - 7]);
                    }
                },
                None => {
                    assert(false);
                },
            }
        }
    }
}

// ---------------------------------------------------------------------------
// The columns each upload carries
// ---------------------------------------------------------------------------

/// For each synchronised table, in upload order, the columns of its rows
/// that the cloud copy keeps.
pub open spec fn synced_columns() -> Seq<(Seq<char>, Seq<Seq<char>>)> {
    seq![
        ("sucursales"@, seq!["id"@, "nombre"@, "direccion"@, "telefono"@, "codigo_postal"@, "eliminado"@, "sincronizado"@, "updated_at"@]),
        ("empresa_config_fiscal"@, seq!["id"@, "rfc"@, "razon_social"@, "regimen_fiscal"@, "registro_patronal"@, "actualizado_at"@, "sincronizado"@, "updated_at"@]),
        ("proveedores"@, seq!["id"@, "nombre"@, "contacto_nombre"@, "telefono"@, "email"@, "direccion"@, "eliminado"@, "sincronizado"@, "updated_at"@]),
        ("marcas"@, seq!["id"@, "nombre"@, "eliminado"@, "sincronizado"@, "updated_at"@]),
        ("categorias"@, seq!["id"@, "nombre"@, "eliminado"@, "sincronizado"@, "updated_at"@]),
        ("unidades"@, seq!["id"@, "nombre"@, "clave_sat"@, "eliminado"@, "sincronizado"@, "updated_at"@]),
        ("usuarios"@, seq!["id"@, "email"@, "nombre"@, "role"@, "sucursal_id"@, "password_hash"@, "eliminado"@, "sincronizado"@, "updated_at"@]),
        ("productos"@, seq!["id"@, "codigo_barras"@, "codigo_proveedor"@, "proveedor_id"@, "clave_producto"@, "descripcion"@, "marca"@, "categoria"@, "unidad"@, "precio_costo"@, "costo_promedio"@, "precio_venta"@, "sat_clave_prod_serv"@, "sat_clave_unidad"@, "precio_1"@, "precio_2"@, "precio_3"@, "precio_4"@, "mayoreo_apartir"@, "a_granel"@, "no_en_catalogo"@, "ventas_negativas"@, "caducidad"@, "fotos"@, "descripcion_catalogo"@, "eliminado"@, "sincronizado"@, "updated_at"@]),
        ("inventario_sucursal"@, seq!["producto_id"@, "sucursal_id"@, "stock"@, "stock_minimo"@, "costo_promedio"@, "precio_venta"@, "sincronizado"@, "updated_at"@]),
        ("promociones"@, seq!["id"@, "nombre"@, "tipo_descuento"@, "valor"@, "fecha_inicio"@, "fecha_fin"@, "activo"@, "producto_id"@, "categoria_id"@, "marca"@, "eliminado"@, "sincronizado"@, "updated_at"@]),
        ("promocion_sucursales"@, seq!["promocion_id"@, "sucursal_id"@, "eliminado"@, "sincronizado"@, "updated_at"@]),
        ("clientes"@, seq!["id"@, "nombre"@, "telefono"@, "direccion"@, "limite_credito"@, "saldo_deudor"@, "eliminado"@, "sincronizado"@, "updated_at"@]),
        ("clientes_datos_fiscales"@, seq!["cliente_id"@, "rfc"@, "razon_social"@, "regimen_fiscal"@, "codigo_postal"@, "sincronizado"@, "updated_at"@]),
        ("compras"@, seq!["uuid"@, "id"@, "proveedor_id"@, "sucursal_id"@, "fecha"@, "total"@, "sincronizado"@, "updated_at"@]),
        ("detalle_compras"@, seq!["uuid"@, "id"@, "compra_id"@, "sucursal_id"@, "producto_id"@, "cantidad"@, "precio_costo_pactado"@, "costo_promedio_resultante"@, "sincronizado"@, "updated_at"@]),
        ("ventas"@, seq!["uuid"@, "id"@, "usuario_id"@, "sucursal_id"@, "fecha"@, "total"@, "metodo_pago"@, "efectivo_recibido"@, "cambio_entregado"@, "cliente_id"@, "cliente_rapido_nombre"@, "cliente_rapido_telefono"@, "cliente_rapido_domicilio"@, "requiere_factura"@, "usuario_autorizo_cancelacion_id"@, "motivo_cancelacion"@, "fecha_cancelacion"@, "estado"@, "sincronizado"@, "updated_at"@]),
        ("detalle_ventas"@, seq!["uuid"@, "id"@, "venta_id"@, "sucursal_id"@, "producto_id"@, "cantidad"@, "precio_venta_pactado"@, "costo_unitario_pactado"@, "tipo_precio_vendido"@, "precio_original"@, "descuento_aplicado"@, "sincronizado"@, "updated_at"@]),
        ("creditos_abonos"@, seq!["uuid"@, "id"@, "cliente_id"@, "monto"@, "fecha"@, "usuario_id"@, "sucursal_id"@, "sincronizado"@, "updated_at"@]),
        ("cajas_sesiones"@, seq!["uuid"@, "id"@, "usuario_id"@, "sucursal_id"@, "fecha_apertura"@, "monto_inicial"@, "fecha_cierre"@, "monto_final_real"@, "monto_esperado"@, "estado"@, "sincronizado"@, "updated_at"@]),
        ("caja_movimientos"@, seq!["uuid"@, "id"@, "sesion_id"@, "sucursal_id"@, "tipo"@, "monto"@, "motivo"@, "sincronizado"@, "updated_at"@]),
        ("traspasos"@, seq!["uuid"@, "id"@, "sucursal_origen_id"@, "sucursal_destino_id"@, "usuario_id"@, "fecha"@, "estado"@, "usuario_recibio_id"@, "fecha_recepcion"@, "observaciones_recepcion"@, "sincronizado"@, "updated_at"@]),
        ("detalle_traspasos"@, seq!["uuid"@, "id"@, "traspaso_id"@, "sucursal_origen_id"@, "producto_id"@, "cantidad"@, "sincronizado"@, "updated_at"@]),
        ("mermas_ajustes"@, seq!["uuid"@, "id"@, "producto_id"@, "sucursal_id"@, "usuario_id"@, "cantidad"@, "tipo_movimiento"@, "motivo"@, "fecha"@, "sincronizado"@, "updated_at"@]),
        ("facturas_emitidas"@, seq!["uuid"@, "id"@, "venta_id"@, "sucursal_id"@, "uuid_sat"@, "rfc_receptor"@, "monto_total"@, "estado"@, "fecha_emision"@, "pdf_path"@, "xml_path"@, "sincronizado"@, "updated_at"@]),
        ("movimientos_inventario"@, seq!["uuid"@, "producto_id"@, "sucursal_id"@, "tipo"@, "referencia_tipo"@, "referencia_id"@, "cantidad"@, "costo_unitario"@, "usuario_id"@, "fecha"@, "sincronizado"@, "updated_at"@])
    ]
}

/// The query names the column `c` as a column of its own: after a space or
/// a table alias, and before the comma that ends it or the `FROM` that
/// closes the selection.
pub open spec fn selects_column(q: Seq<char>, c: Seq<char>) -> bool {
    ||| occurs_in(" "@ + c + ","@, q)
    ||| occurs_in("."@ + c + ","@, q)
    ||| occurs_in(" "@ + c + " FROM"@, q)
    ||| occurs_in("."@ + c + " FROM"@, q)
}

/// The query names every one of the columns.
pub open spec fn selects_all(q: Seq<char>, cols: Seq<Seq<char>>) -> bool {
    forall|k: int| 0 <= k < cols.len() ==> selects_column(q, #[trigger] cols[k])
}

proof fn lemma_selects_sucursales()
    ensures
        selects_all(upload_templates()[0].2, synced_columns()[0].1),
{
    let sel = upload_templates()[0].2;
    let cols = synced_columns()[0].1;
    reveal_strlit("SELECT id AS __local_id, id, nombre, direccion, telefono, codigo_postal, eliminado, 1 AS sincronizado, updated_at FROM sucursales");
    reveal_strlit(" ");
    reveal_strlit(",");
    reveal_strlit(".");
    reveal_strlit(" FROM");
    reveal_strlit("codigo_postal");
    reveal_strlit("direccion");
    reveal_strlit("eliminado");
    reveal_strlit("id");
    reveal_strlit("nombre");
    reveal_strlit("sincronizado");
    reveal_strlit("telefono");
    reveal_strlit("updated_at");
    assert(sel == "SELECT id AS __local_id, id, nombre, direccion, telefono, codigo_postal, eliminado, 1 AS sincronizado, updated_at FROM sucursales"@);
    assert(cols == seq!["id"@, "nombre"@, "direccion"@, "telefono"@, "codigo_postal"@, "eliminado"@, "sincronizado"@, "updated_at"@]);
    assert(sel.subrange(24int, 24int + (" "@ + "id"@ + ","@).len()) =~= " "@ + "id"@ + ","@);
    assert(sel.subrange(28int, 28int + (" "@ + "nombre"@ + ","@).len()) =~= " "@ + "nombre"@ + ","@);
    assert(sel.subrange(36int, 36int + (" "@ + "direccion"@ + ","@).len()) =~= " "@ + "direccion"@ + ","@);
    assert(sel.subrange(47int, 47int + (" "@ + "telefono"@ + ","@).len()) =~= " "@ + "telefono"@ + ","@);
    assert(sel.subrange(57int, 57int + (" "@ + "codigo_postal"@ + ","@).len()) =~= " "@ + "codigo_postal"@ + ","@);
    assert(sel.subrange(72int, 72int + (" "@ + "eliminado"@ + ","@).len()) =~= " "@ + "eliminado"@ + ","@);
    assert(sel.subrange(88int, 88int + (" "@ + "sincronizado"@ + ","@).len()) =~= " "@ + "sincronizado"@ + ","@);
    assert(sel.subrange(102int, 102int + (" "@ + "updated_at"@ + " FROM"@).len()) =~= " "@ + "updated_at"@ + " FROM"@);
    assert forall|k: int| 0 <= k < cols.len() implies selects_column(sel, #[trigger] cols[k]) by {
        if k == 0 {}
        if k == 1 {}
        if k == 2 {}
        if k == 3 {}
        if k == 4 {}
        if k == 5 {}
        if k == 6 {}
        if k == 7 {}
    }
}

proof fn lemma_selects_empresa_config_fiscal()
    ensures
        selects_all(upload_templates()[1].2, synced_columns()[1].1),
{
    let sel = upload_templates()[1].2;
    let cols = synced_columns()[1].1;
    reveal_strlit("SELECT id AS __local_id, id, rfc, razon_social, regimen_fiscal, registro_patronal, actualizado_at, 1 AS sincronizado, updated_at FROM empresa_config_fiscal");
    reveal_strlit(" ");
    reveal_strlit(",");
    reveal_strlit(".");
    reveal_strlit(" FROM");
    reveal_strlit("actualizado_at");
    reveal_strlit("id");
    reveal_strlit("razon_social");
    reveal_strlit("regimen_fiscal");
    reveal_strlit("registro_patronal");
    reveal_strlit("rfc");
    reveal_strlit("sincronizado");
    reveal_strlit("updated_at");
    assert(sel == "SELECT id AS __local_id, id, rfc, razon_social, regimen_fiscal, registro_patronal, actualizado_at, 1 AS sincronizado, updated_at FROM empresa_config_fiscal"@);
    assert(cols == seq!["id"@, "rfc"@, "razon_social"@, "regimen_fiscal"@, "registro_patronal"@, "actualizado_at"@, "sincronizado"@, "updated_at"@]);
    assert(sel.subrange(24int, 24int + (" "@ + "id"@ + ","@).len()) =~= " "@ + "id"@ + ","@);
    assert(sel.subrange(28int, 28int + (" "@ + "rfc"@ + ","@).len()) =~= " "@ + "rfc"@ + ","@);
    assert(sel.subrange(33int, 33int + (" "@ + "razon_social"@ + ","@).len()) =~= " "@ + "razon_social"@ + ","@);
    assert(sel.subrange(47int, 47int + (" "@ + "regimen_fiscal"@ + ","@).len()) =~= " "@ + "regimen_fiscal"@ + ","@);
    assert(sel.subrange(63int, 63int + (" "@ + "registro_patronal"@ + ","@).len()) =~= " "@ + "registro_patronal"@ + ","@);
    assert(sel.subrange(82int, 82int + (" "@ + "actualizado_at"@ + ","@).len()) =~= " "@ + "actualizado_at"@ + ","@);
    assert(sel.subrange(103int, 103int + (" "@ + "sincronizado"@ + ","@).len()) =~= " "@ + "sincronizado"@ + ","@);
    assert(sel.subrange(117int, 117int + (" "@ + "updated_at"@ + " FROM"@).len()) =~= " "@ + "updated_at"@ + " FROM"@);
    assert forall|k: int| 0 <= k < cols.len() implies selects_column(sel, #[trigger] cols[k]) by {
        if k == 0 {}
        if k == 1 {}
        if k == 2 {}
        if k == 3 {}
        if k == 4 {}
        if k == 5 {}
        if k == 6 {}
        if k == 7 {}
    }
}

proof fn lemma_selects_proveedores()
    ensures
        selects_all(upload_templates()[2].2, synced_columns()[2].1),
{
    let sel = upload_templates()[2].2;
    let cols = synced_columns()[2].1;
    reveal_strlit("SELECT id AS __local_id, id, nombre, contacto_nombre, telefono, email, direccion, eliminado, 1 AS sincronizado, updated_at FROM proveedores");
    reveal_strlit(" ");
    reveal_strlit(",");
    reveal_strlit(".");
    reveal_strlit(" FROM");
    reveal_strlit("contacto_nombre");
    reveal_strlit("direccion");
    reveal_strlit("eliminado");
    reveal_strlit("email");
    reveal_strlit("id");
    reveal_strlit("nombre");
    reveal_strlit("sincronizado");
    reveal_strlit("telefono");
    reveal_strlit("updated_at");
    assert(sel == "SELECT id AS __local_id, id, nombre, contacto_nombre, telefono, email, direccion, eliminado, 1 AS sincronizado, updated_at FROM proveedores"@);
    assert(cols == seq!["id"@, "nombre"@, "contacto_nombre"@, "telefono"@, "email"@, "direccion"@, "eliminado"@, "sincronizado"@, "updated_at"@]);
    assert(sel.subrange(24int, 24int + (" "@ + "id"@ + ","@).len()) =~= " "@ + "id"@ + ","@);
    assert(sel.subrange(28int, 28int + (" "@ + "nombre"@ + ","@).len()) =~= " "@ + "nombre"@ + ","@);
    assert(sel.subrange(36int, 36int + (" "@ + "contacto_nombre"@ + ","@).len()) =~= " "@ + "contacto_nombre"@ + ","@);
    assert(sel.subrange(53int, 53int + (" "@ + "telefono"@ + ","@).len()) =~= " "@ + "telefono"@ + ","@);
    assert(sel.subrange(63int, 63int + (" "@ + "email"@ + ","@).len()) =~= " "@ + "email"@ + ","@);
    assert(sel.subrange(70int, 70int + (" "@ + "direccion"@ + ","@).len()) =~= " "@ + "direccion"@ + ","@);
    assert(sel.subrange(81int, 81int + (" "@ + "eliminado"@ + ","@).len()) =~= " "@ + "eliminado"@ + ","@);
    assert(sel.subrange(97int, 97int + (" "@ + "sincronizado"@ + ","@).len()) =~= " "@ + "sincronizado"@ + ","@);
    assert(sel.subrange(111int, 111int + (" "@ + "updated_at"@ + " FROM"@).len()) =~= " "@ + "updated_at"@ + " FROM"@);
    assert forall|k: int| 0 <= k < cols.len() implies selects_column(sel, #[trigger] cols[k]) by {
        if k == 0 {}
        if k == 1 {}
        if k == 2 {}
        if k == 3 {}
        if k == 4 {}
        if k == 5 {}
        if k == 6 {}
        if k == 7 {}
        if k == 8 {}
    }
}

proof fn lemma_selects_marcas()
    ensures
        selects_all(upload_templates()[3].2, synced_columns()[3].1),
{
    let sel = upload_templates()[3].2;
    let cols = synced_columns()[3].1;
    reveal_strlit("SELECT id AS __local_id, id, nombre, eliminado, 1 AS sincronizado, updated_at FROM marcas");
    reveal_strlit(" ");
    reveal_strlit(",");
    reveal_strlit(".");
    reveal_strlit(" FROM");
    reveal_strlit("eliminado");
    reveal_strlit("id");
    reveal_strlit("nombre");
    reveal_strlit("sincronizado");
    reveal_strlit("updated_at");
    assert(sel == "SELECT id AS __local_id, id, nombre, eliminado, 1 AS sincronizado, updated_at FROM marcas"@);
    assert(cols == seq!["id"@, "nombre"@, "eliminado"@, "sincronizado"@, "updated_at"@]);
    assert(sel.subrange(24int, 24int + (" "@ + "id"@ + ","@).len()) =~= " "@ + "id"@ + ","@);
    assert(sel.subrange(28int, 28int + (" "@ + "nombre"@ + ","@).len()) =~= " "@ + "nombre"@ + ","@);
    assert(sel.subrange(36int, 36int + (" "@ + "eliminado"@ + ","@).len()) =~= " "@ + "eliminado"@ + ","@);
    assert(sel.subrange(52int, 52int + (" "@ + "sincronizado"@ + ","@).len()) =~= " "@ + "sincronizado"@ + ","@);
    assert(sel.subrange(66int, 66int + (" "@ + "updated_at"@ + " FROM"@).len()) =~= " "@ + "updated_at"@ + " FROM"@);
    assert forall|k: int| 0 <= k < cols.len() implies selects_column(sel, #[trigger] cols[k]) by {
        if k == 0 {}
        if k == 1 {}
        if k == 2 {}
        if k == 3 {}
        if k == 4 {}
    }
}

proof fn lemma_selects_categorias()
    ensures
        selects_all(upload_templates()[4].2, synced_columns()[4].1),
{
    let sel = upload_templates()[4].2;
    let cols = synced_columns()[4].1;
    reveal_strlit("SELECT id AS __local_id, id, nombre, eliminado, 1 AS sincronizado, updated_at FROM categorias");
    reveal_strlit(" ");
    reveal_strlit(",");
    reveal_strlit(".");
    reveal_strlit(" FROM");
    reveal_strlit("eliminado");
    reveal_strlit("id");
    reveal_strlit("nombre");
    reveal_strlit("sincronizado");
    reveal_strlit("updated_at");
    assert(sel == "SELECT id AS __local_id, id, nombre, eliminado, 1 AS sincronizado, updated_at FROM categorias"@);
    assert(cols == seq!["id"@, "nombre"@, "eliminado"@, "sincronizado"@, "updated_at"@]);
    assert(sel.subrange(24int, 24int + (" "@ + "id"@ + ","@).len()) =~= " "@ + "id"@ + ","@);
    assert(sel.subrange(28int, 28int + (" "@ + "nombre"@ + ","@).len()) =~= " "@ + "nombre"@ + ","@);
    assert(sel.subrange(36int, 36int + (" "@ + "eliminado"@ + ","@).len()) =~= " "@ + "eliminado"@ + ","@);
    assert(sel.subrange(52int, 52int + (" "@ + "sincronizado"@ + ","@).len()) =~= " "@ + "sincronizado"@ + ","@);
    assert(sel.subrange(66int, 66int + (" "@ + "updated_at"@ + " FROM"@).len()) =~= " "@ + "updated_at"@ + " FROM"@);
    assert forall|k: int| 0 <= k < cols.len() implies selects_column(sel, #[trigger] cols[k]) by {
        if k == 0 {}
        if k == 1 {}
        if k == 2 {}
        if k == 3 {}
        if k == 4 {}
    }
}

proof fn lemma_selects_unidades()
    ensures
        selects_all(upload_templates()[5].2, synced_columns()[5].1),
{
    let sel = upload_templates()[5].2;
    let cols = synced_columns()[5].1;
    reveal_strlit("SELECT id AS __local_id, id, nombre, clave_sat, eliminado, 1 AS sincronizado, updated_at FROM unidades");
    reveal_strlit(" ");
    reveal_strlit(",");
    reveal_strlit(".");
    reveal_strlit(" FROM");
    reveal_strlit("clave_sat");
    reveal_strlit("eliminado");
    reveal_strlit("id");
    reveal_strlit("nombre");
    reveal_strlit("sincronizado");
    reveal_strlit("updated_at");
    assert(sel == "SELECT id AS __local_id, id, nombre, clave_sat, eliminado, 1 AS sincronizado, updated_at FROM unidades"@);
    assert(cols == seq!["id"@, "nombre"@, "clave_sat"@, "eliminado"@, "sincronizado"@, "updated_at"@]);
    assert(sel.subrange(24int, 24int + (" "@ + "id"@ + ","@).len()) =~= " "@ + "id"@ + ","@);
    assert(sel.subrange(28int, 28int + (" "@ + "nombre"@ + ","@).len()) =~= " "@ + "nombre"@ + ","@);
    assert(sel.subrange(36int, 36int + (" "@ + "clave_sat"@ + ","@).len()) =~= " "@ + "clave_sat"@ + ","@);
    assert(sel.subrange(47int, 47int + (" "@ + "eliminado"@ + ","@).len()) =~= " "@ + "eliminado"@ + ","@);
    assert(sel.subrange(63int, 63int + (" "@ + "sincronizado"@ + ","@).len()) =~= " "@ + "sincronizado"@ + ","@);
    assert(sel.subrange(77int, 77int + (" "@ + "updated_at"@ + " FROM"@).len()) =~= " "@ + "updated_at"@ + " FROM"@);
    assert forall|k: int| 0 <= k < cols.len() implies selects_column(sel, #[trigger] cols[k]) by {
        if k == 0 {}
        if k == 1 {}
        if k == 2 {}
        if k == 3 {}
        if k == 4 {}
        if k == 5 {}
    }
}

proof fn lemma_selects_usuarios()
    ensures
        selects_all(upload_templates()[6].2, synced_columns()[6].1),
{
    let sel = upload_templates()[6].2;
    let cols = synced_columns()[6].1;
    reveal_strlit("SELECT id AS __local_id, id, email, nombre, role, sucursal_id, password_hash, eliminado, 1 AS sincronizado, updated_at FROM usuarios");
    reveal_strlit(" ");
    reveal_strlit(",");
    reveal_strlit(".");
    reveal_strlit(" FROM");
    reveal_strlit("eliminado");
    reveal_strlit("email");
    reveal_strlit("id");
    reveal_strlit("nombre");
    reveal_strlit("password_hash");
    reveal_strlit("role");
    reveal_strlit("sincronizado");
    reveal_strlit("sucursal_id");
    reveal_strlit("updated_at");
    assert(sel == "SELECT id AS __local_id, id, email, nombre, role, sucursal_id, password_hash, eliminado, 1 AS sincronizado, updated_at FROM usuarios"@);
    assert(cols == seq!["id"@, "email"@, "nombre"@, "role"@, "sucursal_id"@, "password_hash"@, "eliminado"@, "sincronizado"@, "updated_at"@]);
    assert(sel.subrange(24int, 24int + (" "@ + "id"@ + ","@).len()) =~= " "@ + "id"@ + ","@);
    assert(sel.subrange(28int, 28int + (" "@ + "email"@ + ","@).len()) =~= " "@ + "email"@ + ","@);
    assert(sel.subrange(35int, 35int + (" "@ + "nombre"@ + ","@).len()) =~= " "@ + "nombre"@ + ","@);
    assert(sel.subrange(43int, 43int + (" "@ + "role"@ + ","@).len()) =~= " "@ + "role"@ + ","@);
    assert(sel.subrange(49int, 49int + (" "@ + "sucursal_id"@ + ","@).len()) =~= " "@ + "sucursal_id"@ + ","@);
    assert(sel.subrange(62int, 62int + (" "@ + "password_hash"@ + ","@).len()) =~= " "@ + "password_hash"@ + ","@);
    assert(sel.subrange(77int, 77int + (" "@ + "eliminado"@ + ","@).len()) =~= " "@ + "eliminado"@ + ","@);
    assert(sel.subrange(93int, 93int + (" "@ + "sincronizado"@ + ","@).len()) =~= " "@ + "sincronizado"@ + ","@);
    assert(sel.subrange(107int, 107int + (" "@ + "updated_at"@ + " FROM"@).len()) =~= " "@ + "updated_at"@ + " FROM"@);
    assert forall|k: int| 0 <= k < cols.len() implies selects_column(sel, #[trigger] cols[k]) by {
        if k == 0 {}
        if k == 1 {}
        if k == 2 {}
        if k == 3 {}
        if k == 4 {}
        if k == 5 {}
        if k == 6 {}
        if k == 7 {}
        if k == 8 {}
    }
}

proof fn lemma_selects_productos()
    ensures
        selects_all(upload_templates()[7].2, synced_columns()[7].1),
{
    let sel = upload_templates()[7].2;
    let cols = synced_columns()[7].1;
    reveal_strlit("SELECT id AS __local_id, id, codigo_barras, codigo_proveedor, proveedor_id, clave_producto, descripcion, marca, categoria, unidad, precio_costo, costo_promedio, precio_venta, sat_clave_prod_serv, sat_clave_unidad, precio_1, precio_2, precio_3, precio_4, mayoreo_apartir, a_granel, no_en_catalogo, ventas_negativas, caducidad, fotos, descripcion_catalogo, eliminado, 1 AS sincronizado, updated_at FROM productos");
    reveal_strlit(" ");
    reveal_strlit(",");
    reveal_strlit(".");
    reveal_strlit(" FROM");
    reveal_strlit("a_granel");
    reveal_strlit("caducidad");
    reveal_strlit("categoria");
    reveal_strlit("clave_producto");
    reveal_strlit("codigo_barras");
    reveal_strlit("codigo_proveedor");
    reveal_strlit("costo_promedio");
    reveal_strlit("descripcion");
    reveal_strlit("descripcion_catalogo");
    reveal_strlit("eliminado");
    reveal_strlit("fotos");
    reveal_strlit("id");
    reveal_strlit("marca");
    reveal_strlit("mayoreo_apartir");
    reveal_strlit("no_en_catalogo");
    reveal_strlit("precio_1");
    reveal_strlit("precio_2");
    reveal_strlit("precio_3");
    reveal_strlit("precio_4");
    reveal_strlit("precio_costo");
    reveal_strlit("precio_venta");
    reveal_strlit("proveedor_id");
    reveal_strlit("sat_clave_prod_serv");
    reveal_strlit("sat_clave_unidad");
    reveal_strlit("sincronizado");
    reveal_strlit("unidad");
    reveal_strlit("updated_at");
    reveal_strlit("ventas_negativas");
    assert(sel == "SELECT id AS __local_id, id, codigo_barras, codigo_proveedor, proveedor_id, clave_producto, descripcion, marca, categoria, unidad, precio_costo, costo_promedio, precio_venta, sat_clave_prod_serv, sat_clave_unidad, precio_1, precio_2, precio_3, precio_4, mayoreo_apartir, a_granel, no_en_catalogo, ventas_negativas, caducidad, fotos, descripcion_catalogo, eliminado, 1 AS sincronizado, updated_at FROM productos"@);
    assert(cols == seq!["id"@, "codigo_barras"@, "codigo_proveedor"@, "proveedor_id"@, "clave_producto"@, "descripcion"@, "marca"@, "categoria"@, "unidad"@, "precio_costo"@, "costo_promedio"@, "precio_venta"@, "sat_clave_prod_serv"@, "sat_clave_unidad"@, "precio_1"@, "precio_2"@, "precio_3"@, "precio_4"@, "mayoreo_apartir"@, "a_granel"@, "no_en_catalogo"@, "ventas_negativas"@, "caducidad"@, "fotos"@, "descripcion_catalogo"@, "eliminado"@, "sincronizado"@, "updated_at"@]);
    assert(sel.subrange(24int, 24int + (" "@ + "id"@ + ","@).len()) =~= " "@ + "id"@ + ","@);
    assert(sel.subrange(28int, 28int + (" "@ + "codigo_barras"@ + ","@).len()) =~= " "@ + "codigo_barras"@ + ","@);
    assert(sel.subrange(43int, 43int + (" "@ + "codigo_proveedor"@ + ","@).len()) =~= " "@ + "codigo_proveedor"@ + ","@);
    assert(sel.subrange(61int, 61int + (" "@ + "proveedor_id"@ + ","@).len()) =~= " "@ + "proveedor_id"@ + ","@);
    assert(sel.subrange(75int, 75int + (" "@ + "clave_producto"@ + ","@).len()) =~= " "@ + "clave_producto"@ + ","@);
    assert(sel.subrange(91int, 91int + (" "@ + "descripcion"@ + ","@).len()) =~= " "@ + "descripcion"@ + ","@);
    assert(sel.subrange(104int, 104int + (" "@ + "marca"@ + ","@).len()) =~= " "@ + "marca"@ + ","@);
    assert(sel.subrange(111int, 111int + (" "@ + "categoria"@ + ","@).len()) =~= " "@ + "categoria"@ + ","@);
    assert(sel.subrange(122int, 122int + (" "@ + "unidad"@ + ","@).len()) =~= " "@ + "unidad"@ + ","@);
    assert(sel.subrange(130int, 130int + (" "@ + "precio_costo"@ + ","@).len()) =~= " "@ + "precio_costo"@ + ","@);
    assert(sel.subrange(144int, 144int + (" "@ + "costo_promedio"@ + ","@).len()) =~= " "@ + "costo_promedio"@ + ","@);
    assert(sel.subrange(160int, 160int + (" "@ + "precio_venta"@ + ","@).len()) =~= " "@ + "precio_venta"@ + ","@);
    assert(sel.subrange(174int, 174int + (" "@ + "sat_clave_prod_serv"@ + ","@).len()) =~= " "@ + "sat_clave_prod_serv"@ + ","@);
    assert(sel.subrange(195int, 195int + (" "@ + "sat_clave_unidad"@ + ","@).len()) =~= " "@ + "sat_clave_unidad"@ + ","@);
    assert(sel.subrange(213int, 213int + (" "@ + "precio_1"@ + ","@).len()) =~= " "@ + "precio_1"@ + ","@);
    assert(sel.subrange(223int, 223int + (" "@ + "precio_2"@ + ","@).len()) =~= " "@ + "precio_2"@ + ","@);
    assert(sel.subrange(233int, 233int + (" "@ + "precio_3"@ + ","@).len()) =~= " "@ + "precio_3"@ + ","@);
    assert(sel.subrange(243int, 243int + (" "@ + "precio_4"@ + ","@).len()) =~= " "@ + "precio_4"@ + ","@);
    assert(sel.subrange(253int, 253int + (" "@ + "mayoreo_apartir"@ + ","@).len()) =~= " "@ + "mayoreo_apartir"@ + ","@);
    assert(sel.subrange(270int, 270int + (" "@ + "a_granel"@ + ","@).len()) =~= " "@ + "a_granel"@ + ","@);
    assert(sel.subrange(280int, 280int + (" "@ + "no_en_catalogo"@ + ","@).len()) =~= " "@ + "no_en_catalogo"@ + ","@);
    assert(sel.subrange(296int, 296int + (" "@ + "ventas_negativas"@ + ","@).len()) =~= " "@ + "ventas_negativas"@ + ","@);
    assert(sel.subrange(314int, 314int + (" "@ + "caducidad"@ + ","@).len()) =~= " "@ + "caducidad"@ + ","@);
    assert(sel.subrange(325int, 325int + (" "@ + "fotos"@ + ","@).len()) =~= " "@ + "fotos"@ + ","@);
    assert(sel.subrange(332int, 332int + (" "@ + "descripcion_catalogo"@ + ","@).len()) =~= " "@ + "descripcion_catalogo"@ + ","@);
    assert(sel.subrange(354int, 354int + (" "@ + "eliminado"@ + ","@).len()) =~= " "@ + "eliminado"@ + ","@);
    assert(sel.subrange(370int, 370int + (" "@ + "sincronizado"@ + ","@).len()) =~= " "@ + "sincronizado"@ + ","@);
    assert(sel.subrange(384int, 384int + (" "@ + "updated_at"@ + " FROM"@).len()) =~= " "@ + "updated_at"@ + " FROM"@);
    assert forall|k: int| 0 <= k < cols.len() implies selects_column(sel, #[trigger] cols[k]) by {
        if k == 0 {}
        if k == 1 {}
        if k == 2 {}
        if k == 3 {}
        if k == 4 {}
        if k == 5 {}
        if k == 6 {}
        if k == 7 {}
        if k == 8 {}
        if k == 9 {}
        if k == 10 {}
        if k == 11 {}
        if k == 12 {}
        if k == 13 {}
        if k == 14 {}
        if k == 15 {}
        if k == 16 {}
        if k == 17 {}
        if k == 18 {}
        if k == 19 {}
        if k == 20 {}
        if k == 21 {}
        if k == 22 {}
        if k == 23 {}
        if k == 24 {}
        if k == 25 {}
        if k == 26 {}
        if k == 27 {}
    }
}

proof fn lemma_selects_inventario_sucursal()
    ensures
        selects_all(upload_templates()[8].2, synced_columns()[8].1),
{
    let sel = upload_templates()[8].2;
    let cols = synced_columns()[8].1;
    reveal_strlit("SELECT producto_id || '|' || sucursal_id AS __local_id, producto_id, sucursal_id, stock, stock_minimo, costo_promedio, precio_venta, 1 AS sincronizado, updated_at FROM inventario_sucursal");
    reveal_strlit(" ");
    reveal_strlit(",");
    reveal_strlit(".");
    reveal_strlit(" FROM");
    reveal_strlit("costo_promedio");
    reveal_strlit("precio_venta");
    reveal_strlit("producto_id");
    reveal_strlit("sincronizado");
    reveal_strlit("stock");
    reveal_strlit("stock_minimo");
    reveal_strlit("sucursal_id");
    reveal_strlit("updated_at");
    assert(sel == "SELECT producto_id || '|' || sucursal_id AS __local_id, producto_id, sucursal_id, stock, stock_minimo, costo_promedio, precio_venta, 1 AS sincronizado, updated_at FROM inventario_sucursal"@);
    assert(cols == seq!["producto_id"@, "sucursal_id"@, "stock"@, "stock_minimo"@, "costo_promedio"@, "precio_venta"@, "sincronizado"@, "updated_at"@]);
    assert(sel.subrange(55int, 55int + (" "@ + "producto_id"@ + ","@).len()) =~= " "@ + "producto_id"@ + ","@);
    assert(sel.subrange(68int, 68int + (" "@ + "sucursal_id"@ + ","@).len()) =~= " "@ + "sucursal_id"@ + ","@);
    assert(sel.subrange(81int, 81int + (" "@ + "stock"@ + ","@).len()) =~= " "@ + "stock"@ + ","@);
    assert(sel.subrange(88int, 88int + (" "@ + "stock_minimo"@ + ","@).len()) =~= " "@ + "stock_minimo"@ + ","@);
    assert(sel.subrange(102int, 102int + (" "@ + "costo_promedio"@ + ","@).len()) =~= " "@ + "costo_promedio"@ + ","@);
    assert(sel.subrange(118int, 118int + (" "@ + "precio_venta"@ + ","@).len()) =~= " "@ + "precio_venta"@ + ","@);
    assert(sel.subrange(137int, 137int + (" "@ + "sincronizado"@ + ","@).len()) =~= " "@ + "sincronizado"@ + ","@);
    assert(sel.subrange(151int, 151int + (" "@ + "updated_at"@ + " FROM"@).len()) =~= " "@ + "updated_at"@ + " FROM"@);
    assert forall|k: int| 0 <= k < cols.len() implies selects_column(sel, #[trigger] cols[k]) by {
        if k == 0 {}
        if k == 1 {}
        if k == 2 {}
        if k == 3 {}
        if k == 4 {}
        if k == 5 {}
        if k == 6 {}
        if k == 7 {}
    }
}

proof fn lemma_selects_promociones()
    ensures
        selects_all(upload_templates()[9].2, synced_columns()[9].1),
{
    let sel = upload_templates()[9].2;
    let cols = synced_columns()[9].1;
    reveal_strlit("SELECT id AS __local_id, id, nombre, tipo_descuento, valor, fecha_inicio, fecha_fin, activo, producto_id, categoria_id, marca, eliminado, 1 AS sincronizado, updated_at FROM promociones");
    reveal_strlit(" ");
    reveal_strlit(",");
    reveal_strlit(".");
    reveal_strlit(" FROM");
    reveal_strlit("activo");
    reveal_strlit("categoria_id");
    reveal_strlit("eliminado");
    reveal_strlit("fecha_fin");
    reveal_strlit("fecha_inicio");
    reveal_strlit("id");
    reveal_strlit("marca");
    reveal_strlit("nombre");
    reveal_strlit("producto_id");
    reveal_strlit("sincronizado");
    reveal_strlit("tipo_descuento");
    reveal_strlit("updated_at");
    reveal_strlit("valor");
    assert(sel == "SELECT id AS __local_id, id, nombre, tipo_descuento, valor, fecha_inicio, fecha_fin, activo, producto_id, categoria_id, marca, eliminado, 1 AS sincronizado, updated_at FROM promociones"@);
    assert(cols == seq!["id"@, "nombre"@, "tipo_descuento"@, "valor"@, "fecha_inicio"@, "fecha_fin"@, "activo"@, "producto_id"@, "categoria_id"@, "marca"@, "eliminado"@, "sincronizado"@, "updated_at"@]);
    assert(sel.subrange(24int, 24int + (" "@ + "id"@ + ","@).len()) =~= " "@ + "id"@ + ","@);
    assert(sel.subrange(28int, 28int + (" "@ + "nombre"@ + ","@).len()) =~= " "@ + "nombre"@ + ","@);
    assert(sel.subrange(36int, 36int + (" "@ + "tipo_descuento"@ + ","@).len()) =~= " "@ + "tipo_descuento"@ + ","@);
    assert(sel.subrange(52int, 52int + (" "@ + "valor"@ + ","@).len()) =~= " "@ + "valor"@ + ","@);
    assert(sel.subrange(59int, 59int + (" "@ + "fecha_inicio"@ + ","@).len()) =~= " "@ + "fecha_inicio"@ + ","@);
    assert(sel.subrange(73int, 73int + (" "@ + "fecha_fin"@ + ","@).len()) =~= " "@ + "fecha_fin"@ + ","@);
    assert(sel.subrange(84int, 84int + (" "@ + "activo"@ + ","@).len()) =~= " "@ + "activo"@ + ","@);
    assert(sel.subrange(92int, 92int + (" "@ + "producto_id"@ + ","@).len()) =~= " "@ + "producto_id"@ + ","@);
    assert(sel.subrange(105int, 105int + (" "@ + "categoria_id"@ + ","@).len()) =~= " "@ + "categoria_id"@ + ","@);
    assert(sel.subrange(119int, 119int + (" "@ + "marca"@ + ","@).len()) =~= " "@ + "marca"@ + ","@);
    assert(sel.subrange(126int, 126int + (" "@ + "eliminado"@ + ","@).len()) =~= " "@ + "eliminado"@ + ","@);
    assert(sel.subrange(142int, 142int + (" "@ + "sincronizado"@ + ","@).len()) =~= " "@ + "sincronizado"@ + ","@);
    assert(sel.subrange(156int, 156int + (" "@ + "updated_at"@ + " FROM"@).len()) =~= " "@ + "updated_at"@ + " FROM"@);
    assert forall|k: int| 0 <= k < cols.len() implies selects_column(sel, #[trigger] cols[k]) by {
        if k == 0 {}
        if k == 1 {}
        if k == 2 {}
        if k == 3 {}
        if k == 4 {}
        if k == 5 {}
        if k == 6 {}
        if k == 7 {}
        if k == 8 {}
        if k == 9 {}
        if k == 10 {}
        if k == 11 {}
        if k == 12 {}
    }
}

proof fn lemma_selects_promocion_sucursales()
    ensures
        selects_all(upload_templates()[10].2, synced_columns()[10].1),
{
    let sel = upload_templates()[10].2;
    let cols = synced_columns()[10].1;
    reveal_strlit("SELECT promocion_id || '|' || sucursal_id AS __local_id, promocion_id, sucursal_id, eliminado, 1 AS sincronizado, updated_at FROM promocion_sucursales");
    reveal_strlit(" ");
    reveal_strlit(",");
    reveal_strlit(".");
    reveal_strlit(" FROM");
    reveal_strlit("eliminado");
    reveal_strlit("promocion_id");
    reveal_strlit("sincronizado");
    reveal_strlit("sucursal_id");
    reveal_strlit("updated_at");
    assert(sel == "SELECT promocion_id || '|' || sucursal_id AS __local_id, promocion_id, sucursal_id, eliminado, 1 AS sincronizado, updated_at FROM promocion_sucursales"@);
    assert(cols == seq!["promocion_id"@, "sucursal_id"@, "eliminado"@, "sincronizado"@, "updated_at"@]);
    assert(sel.subrange(56int, 56int + (" "@ + "promocion_id"@ + ","@).len()) =~= " "@ + "promocion_id"@ + ","@);
    assert(sel.subrange(70int, 70int + (" "@ + "sucursal_id"@ + ","@).len()) =~= " "@ + "sucursal_id"@ + ","@);
    assert(sel.subrange(83int, 83int + (" "@ + "eliminado"@ + ","@).len()) =~= " "@ + "eliminado"@ + ","@);
    assert(sel.subrange(99int, 99int + (" "@ + "sincronizado"@ + ","@).len()) =~= " "@ + "sincronizado"@ + ","@);
    assert(sel.subrange(113int, 113int + (" "@ + "updated_at"@ + " FROM"@).len()) =~= " "@ + "updated_at"@ + " FROM"@);
    assert forall|k: int| 0 <= k < cols.len() implies selects_column(sel, #[trigger] cols[k]) by {
        if k == 0 {}
        if k == 1 {}
        if k == 2 {}
        if k == 3 {}
        if k == 4 {}
    }
}

proof fn lemma_selects_clientes()
    ensures
        selects_all(upload_templates()[11].2, synced_columns()[11].1),
{
    let sel = upload_templates()[11].2;
    let cols = synced_columns()[11].1;
    reveal_strlit("SELECT id AS __local_id, id, nombre, telefono, direccion, limite_credito, saldo_deudor, eliminado, 1 AS sincronizado, updated_at FROM clientes");
    reveal_strlit(" ");
    reveal_strlit(",");
    reveal_strlit(".");
    reveal_strlit(" FROM");
    reveal_strlit("direccion");
    reveal_strlit("eliminado");
    reveal_strlit("id");
    reveal_strlit("limite_credito");
    reveal_strlit("nombre");
    reveal_strlit("saldo_deudor");
    reveal_strlit("sincronizado");
    reveal_strlit("telefono");
    reveal_strlit("updated_at");
    assert(sel == "SELECT id AS __local_id, id, nombre, telefono, direccion, limite_credito, saldo_deudor, eliminado, 1 AS sincronizado, updated_at FROM clientes"@);
    assert(cols == seq!["id"@, "nombre"@, "telefono"@, "direccion"@, "limite_credito"@, "saldo_deudor"@, "eliminado"@, "sincronizado"@, "updated_at"@]);
    assert(sel.subrange(24int, 24int + (" "@ + "id"@ + ","@).len()) =~= " "@ + "id"@ + ","@);
    assert(sel.subrange(28int, 28int + (" "@ + "nombre"@ + ","@).len()) =~= " "@ + "nombre"@ + ","@);
    assert(sel.subrange(36int, 36int + (" "@ + "telefono"@ + ","@).len()) =~= " "@ + "telefono"@ + ","@);
    assert(sel.subrange(46int, 46int + (" "@ + "direccion"@ + ","@).len()) =~= " "@ + "direccion"@ + ","@);
    assert(sel.subrange(57int, 57int + (" "@ + "limite_credito"@ + ","@).len()) =~= " "@ + "limite_credito"@ + ","@);
    assert(sel.subrange(73int, 73int + (" "@ + "saldo_deudor"@ + ","@).len()) =~= " "@ + "saldo_deudor"@ + ","@);
    assert(sel.subrange(87int, 87int + (" "@ + "eliminado"@ + ","@).len()) =~= " "@ + "eliminado"@ + ","@);
    assert(sel.subrange(103int, 103int + (" "@ + "sincronizado"@ + ","@).len()) =~= " "@ + "sincronizado"@ + ","@);
    assert(sel.subrange(117int, 117int + (" "@ + "updated_at"@ + " FROM"@).len()) =~= " "@ + "updated_at"@ + " FROM"@);
    assert forall|k: int| 0 <= k < cols.len() implies selects_column(sel, #[trigger] cols[k]) by {
        if k == 0 {}
        if k == 1 {}
        if k == 2 {}
        if k == 3 {}
        if k == 4 {}
        if k == 5 {}
        if k == 6 {}
        if k == 7 {}
        if k == 8 {}
    }
}

proof fn lemma_selects_clientes_datos_fiscales()
    ensures
        selects_all(upload_templates()[12].2, synced_columns()[12].1),
{
    let sel = upload_templates()[12].2;
    let cols = synced_columns()[12].1;
    reveal_strlit("SELECT cliente_id AS __local_id, cliente_id, rfc, razon_social, regimen_fiscal, codigo_postal, 1 AS sincronizado, updated_at FROM clientes_datos_fiscales");
    reveal_strlit(" ");
    reveal_strlit(",");
    reveal_strlit(".");
    reveal_strlit(" FROM");
    reveal_strlit("cliente_id");
    reveal_strlit("codigo_postal");
    reveal_strlit("razon_social");
    reveal_strlit("regimen_fiscal");
    reveal_strlit("rfc");
    reveal_strlit("sincronizado");
    reveal_strlit("updated_at");
    assert(sel == "SELECT cliente_id AS __local_id, cliente_id, rfc, razon_social, regimen_fiscal, codigo_postal, 1 AS sincronizado, updated_at FROM clientes_datos_fiscales"@);
    assert(cols == seq!["cliente_id"@, "rfc"@, "razon_social"@, "regimen_fiscal"@, "codigo_postal"@, "sincronizado"@, "updated_at"@]);
    assert(sel.subrange(32int, 32int + (" "@ + "cliente_id"@ + ","@).len()) =~= " "@ + "cliente_id"@ + ","@);
    assert(sel.subrange(44int, 44int + (" "@ + "rfc"@ + ","@).len()) =~= " "@ + "rfc"@ + ","@);
    assert(sel.subrange(49int, 49int + (" "@ + "razon_social"@ + ","@).len()) =~= " "@ + "razon_social"@ + ","@);
    assert(sel.subrange(63int, 63int + (" "@ + "regimen_fiscal"@ + ","@).len()) =~= " "@ + "regimen_fiscal"@ + ","@);
    assert(sel.subrange(79int, 79int + (" "@ + "codigo_postal"@ + ","@).len()) =~= " "@ + "codigo_postal"@ + ","@);
    assert(sel.subrange(99int, 99int + (" "@ + "sincronizado"@ + ","@).len()) =~= " "@ + "sincronizado"@ + ","@);
    assert(sel.subrange(113int, 113int + (" "@ + "updated_at"@ + " FROM"@).len()) =~= " "@ + "updated_at"@ + " FROM"@);
    assert forall|k: int| 0 <= k < cols.len() implies selects_column(sel, #[trigger] cols[k]) by {
        if k == 0 {}
        if k == 1 {}
        if k == 2 {}
        if k == 3 {}
        if k == 4 {}
        if k == 5 {}
        if k == 6 {}
    }
}

proof fn lemma_selects_compras()
    ensures
        selects_all(upload_templates()[13].2, synced_columns()[13].1),
{
    let sel = upload_templates()[13].2;
    let cols = synced_columns()[13].1;
    reveal_strlit("SELECT id AS __local_id, sync_uuid AS uuid, id, proveedor_id, sucursal_id, fecha, total, 1 AS sincronizado, updated_at FROM compras");
    reveal_strlit(" ");
    reveal_strlit(",");
    reveal_strlit(".");
    reveal_strlit(" FROM");
    reveal_strlit("fecha");
    reveal_strlit("id");
    reveal_strlit("proveedor_id");
    reveal_strlit("sincronizado");
    reveal_strlit("sucursal_id");
    reveal_strlit("total");
    reveal_strlit("updated_at");
    reveal_strlit("uuid");
    assert(sel == "SELECT id AS __local_id, sync_uuid AS uuid, id, proveedor_id, sucursal_id, fecha, total, 1 AS sincronizado, updated_at FROM compras"@);
    assert(cols == seq!["uuid"@, "id"@, "proveedor_id"@, "sucursal_id"@, "fecha"@, "total"@, "sincronizado"@, "updated_at"@]);
    assert(sel.subrange(37int, 37int + (" "@ + "uuid"@ + ","@).len()) =~= " "@ + "uuid"@ + ","@);
    assert(sel.subrange(43int, 43int + (" "@ + "id"@ + ","@).len()) =~= " "@ + "id"@ + ","@);
    assert(sel.subrange(47int, 47int + (" "@ + "proveedor_id"@ + ","@).len()) =~= " "@ + "proveedor_id"@ + ","@);
    assert(sel.subrange(61int, 61int + (" "@ + "sucursal_id"@ + ","@).len()) =~= " "@ + "sucursal_id"@ + ","@);
    assert(sel.subrange(74int, 74int + (" "@ + "fecha"@ + ","@).len()) =~= " "@ + "fecha"@ + ","@);
    assert(sel.subrange(81int, 81int + (" "@ + "total"@ + ","@).len()) =~= " "@ + "total"@ + ","@);
    assert(sel.subrange(93int, 93int + (" "@ + "sincronizado"@ + ","@).len()) =~= " "@ + "sincronizado"@ + ","@);
    assert(sel.subrange(107int, 107int + (" "@ + "updated_at"@ + " FROM"@).len()) =~= " "@ + "updated_at"@ + " FROM"@);
    assert forall|k: int| 0 <= k < cols.len() implies selects_column(sel, #[trigger] cols[k]) by {
        if k == 0 {}
        if k == 1 {}
        if k == 2 {}
        if k == 3 {}
        if k == 4 {}
        if k == 5 {}
        if k == 6 {}
        if k == 7 {}
    }
}

proof fn lemma_selects_detalle_compras()
    ensures
        selects_all(upload_templates()[14].2, synced_columns()[14].1),
{
    let sel = upload_templates()[14].2;
    let cols = synced_columns()[14].1;
    reveal_strlit("SELECT dc.id AS __local_id, dc.sync_uuid AS uuid, dc.id, dc.compra_id, c.sucursal_id, dc.producto_id, dc.cantidad, dc.precio_costo_pactado, dc.costo_promedio_resultante, 1 AS sincronizado, dc.updated_at FROM detalle_compras dc INNER JOIN compras c ON c.id = dc.compra_id");
    reveal_strlit(" ");
    reveal_strlit(",");
    reveal_strlit(".");
    reveal_strlit(" FROM");
    reveal_strlit("cantidad");
    reveal_strlit("compra_id");
    reveal_strlit("costo_promedio_resultante");
    reveal_strlit("id");
    reveal_strlit("precio_costo_pactado");
    reveal_strlit("producto_id");
    reveal_strlit("sincronizado");
    reveal_strlit("sucursal_id");
    reveal_strlit("updated_at");
    reveal_strlit("uuid");
    assert(sel == "SELECT dc.id AS __local_id, dc.sync_uuid AS uuid, dc.id, dc.compra_id, c.sucursal_id, dc.producto_id, dc.cantidad, dc.precio_costo_pactado, dc.costo_promedio_resultante, 1 AS sincronizado, dc.updated_at FROM detalle_compras dc INNER JOIN compras c ON c.id = dc.compra_id"@);
    assert(cols == seq!["uuid"@, "id"@, "compra_id"@, "sucursal_id"@, "producto_id"@, "cantidad"@, "precio_costo_pactado"@, "costo_promedio_resultante"@, "sincronizado"@, "updated_at"@]);
    assert(sel.subrange(43int, 43int + (" "@ + "uuid"@ + ","@).len()) =~= " "@ + "uuid"@ + ","@);
    assert(sel.subrange(52int, 52int + ("."@ + "id"@ + ","@).len()) =~= "."@ + "id"@ + ","@);
    assert(sel.subrange(59int, 59int + ("."@ + "compra_id"@ + ","@).len()) =~= "."@ + "compra_id"@ + ","@);
    assert(sel.subrange(72int, 72int + ("."@ + "sucursal_id"@ + ","@).len()) =~= "."@ + "sucursal_id"@ + ","@);
    assert(sel.subrange(88int, 88int + ("."@ + "producto_id"@ + ","@).len()) =~= "."@ + "producto_id"@ + ","@);
    assert(sel.subrange(104int, 104int + ("."@ + "cantidad"@ + ","@).len()) =~= "."@ + "cantidad"@ + ","@);
    assert(sel.subrange(117int, 117int + ("."@ + "precio_costo_pactado"@ + ","@).len()) =~= "."@ + "precio_costo_pactado"@ + ","@);
    assert(sel.subrange(142int, 142int + ("."@ + "costo_promedio_resultante"@ + ","@).len()) =~= "."@ + "costo_promedio_resultante"@ + ","@);
    assert(sel.subrange(174int, 174int + (" "@ + "sincronizado"@ + ","@).len()) =~= " "@ + "sincronizado"@ + ","@);
    assert(sel.subrange(191int, 191int + ("."@ + "updated_at"@ + " FROM"@).len()) =~= "."@ + "updated_at"@ + " FROM"@);
    assert forall|k: int| 0 <= k < cols.len() implies selects_column(sel, #[trigger] cols[k]) by {
        if k == 0 {}
        if k == 1 {}
        if k == 2 {}
        if k == 3 {}
        if k == 4 {}
        if k == 5 {}
        if k == 6 {}
        if k == 7 {}
        if k == 8 {}
        if k == 9 {}
    }
}

proof fn lemma_selects_ventas()
    ensures
        selects_all(upload_templates()[15].2, synced_columns()[15].1),
{
    let sel = upload_templates()[15].2;
    let cols = synced_columns()[15].1;
    reveal_strlit("SELECT id AS __local_id, sync_uuid AS uuid, id, usuario_id, sucursal_id, fecha, total, metodo_pago, efectivo_recibido, cambio_entregado, cliente_id, cliente_rapido_nombre, cliente_rapido_telefono, cliente_rapido_domicilio, requiere_factura, usuario_autorizo_cancelacion_id, motivo_cancelacion, fecha_cancelacion, estado, 1 AS sincronizado, updated_at FROM ventas");
    reveal_strlit(" ");
    reveal_strlit(",");
    reveal_strlit(".");
    reveal_strlit(" FROM");
    reveal_strlit("cambio_entregado");
    reveal_strlit("cliente_id");
    reveal_strlit("cliente_rapido_domicilio");
    reveal_strlit("cliente_rapido_nombre");
    reveal_strlit("cliente_rapido_telefono");
    reveal_strlit("efectivo_recibido");
    reveal_strlit("estado");
    reveal_strlit("fecha");
    reveal_strlit("fecha_cancelacion");
    reveal_strlit("id");
    reveal_strlit("metodo_pago");
    reveal_strlit("motivo_cancelacion");
    reveal_strlit("requiere_factura");
    reveal_strlit("sincronizado");
    reveal_strlit("sucursal_id");
    reveal_strlit("total");
    reveal_strlit("updated_at");
    reveal_strlit("usuario_autorizo_cancelacion_id");
    reveal_strlit("usuario_id");
    reveal_strlit("uuid");
    assert(sel == "SELECT id AS __local_id, sync_uuid AS uuid, id, usuario_id, sucursal_id, fecha, total, metodo_pago, efectivo_recibido, cambio_entregado, cliente_id, cliente_rapido_nombre, cliente_rapido_telefono, cliente_rapido_domicilio, requiere_factura, usuario_autorizo_cancelacion_id, motivo_cancelacion, fecha_cancelacion, estado, 1 AS sincronizado, updated_at FROM ventas"@);
    assert(cols == seq!["uuid"@, "id"@, "usuario_id"@, "sucursal_id"@, "fecha"@, "total"@, "metodo_pago"@, "efectivo_recibido"@, "cambio_entregado"@, "cliente_id"@, "cliente_rapido_nombre"@, "cliente_rapido_telefono"@, "cliente_rapido_domicilio"@, "requiere_factura"@, "usuario_autorizo_cancelacion_id"@, "motivo_cancelacion"@, "fecha_cancelacion"@, "estado"@, "sincronizado"@, "updated_at"@]);
    assert(sel.subrange(37int, 37int + (" "@ + "uuid"@ + ","@).len()) =~= " "@ + "uuid"@ + ","@);
    assert(sel.subrange(43int, 43int + (" "@ + "id"@ + ","@).len()) =~= " "@ + "id"@ + ","@);
    assert(sel.subrange(47int, 47int + (" "@ + "usuario_id"@ + ","@).len()) =~= " "@ + "usuario_id"@ + ","@);
    assert(sel.subrange(59int, 59int + (" "@ + "sucursal_id"@ + ","@).len()) =~= " "@ + "sucursal_id"@ + ","@);
    assert(sel.subrange(72int, 72int + (" "@ + "fecha"@ + ","@).len()) =~= " "@ + "fecha"@ + ","@);
    assert(sel.subrange(79int, 79int + (" "@ + "total"@ + ","@).len()) =~= " "@ + "total"@ + ","@);
    assert(sel.subrange(86int, 86int + (" "@ + "metodo_pago"@ + ","@).len()) =~= " "@ + "metodo_pago"@ + ","@);
    assert(sel.subrange(99int, 99int + (" "@ + "efectivo_recibido"@ + ","@).len()) =~= " "@ + "efectivo_recibido"@ + ","@);
    assert(sel.subrange(118int, 118int + (" "@ + "cambio_entregado"@ + ","@).len()) =~= " "@ + "cambio_entregado"@ + ","@);
    assert(sel.subrange(136int, 136int + (" "@ + "cliente_id"@ + ","@).len()) =~= " "@ + "cliente_id"@ + ","@);
    assert(sel.subrange(148int, 148int + (" "@ + "cliente_rapido_nombre"@ + ","@).len()) =~= " "@ + "cliente_rapido_nombre"@ + ","@);
    assert(sel.subrange(171int, 171int + (" "@ + "cliente_rapido_telefono"@ + ","@).len()) =~= " "@ + "cliente_rapido_telefono"@ + ","@);
    assert(sel.subrange(196int, 196int + (" "@ + "cliente_rapido_domicilio"@ + ","@).len()) =~= " "@ + "cliente_rapido_domicilio"@ + ","@);
    assert(sel.subrange(222int, 222int + (" "@ + "requiere_factura"@ + ","@).len()) =~= " "@ + "requiere_factura"@ + ","@);
    assert(sel.subrange(240int, 240int + (" "@ + "usuario_autorizo_cancelacion_id"@ + ","@).len()) =~= " "@ + "usuario_autorizo_cancelacion_id"@ + ","@);
    assert(sel.subrange(273int, 273int + (" "@ + "motivo_cancelacion"@ + ","@).len()) =~= " "@ + "motivo_cancelacion"@ + ","@);
    assert(sel.subrange(293int, 293int + (" "@ + "fecha_cancelacion"@ + ","@).len()) =~= " "@ + "fecha_cancelacion"@ + ","@);
    assert(sel.subrange(312int, 312int + (" "@ + "estado"@ + ","@).len()) =~= " "@ + "estado"@ + ","@);
    assert(sel.subrange(325int, 325int + (" "@ + "sincronizado"@ + ","@).len()) =~= " "@ + "sincronizado"@ + ","@);
    assert(sel.subrange(339int, 339int + (" "@ + "updated_at"@ + " FROM"@).len()) =~= " "@ + "updated_at"@ + " FROM"@);
    assert forall|k: int| 0 <= k < cols.len() implies selects_column(sel, #[trigger] cols[k]) by {
        if k == 0 {}
        if k == 1 {}
        if k == 2 {}
        if k == 3 {}
        if k == 4 {}
        if k == 5 {}
        if k == 6 {}
        if k == 7 {}
        if k == 8 {}
        if k == 9 {}
        if k == 10 {}
        if k == 11 {}
        if k == 12 {}
        if k == 13 {}
        if k == 14 {}
        if k == 15 {}
        if k == 16 {}
        if k == 17 {}
        if k == 18 {}
        if k == 19 {}
    }
}

proof fn lemma_selects_detalle_ventas()
    ensures
        selects_all(upload_templates()[16].2, synced_columns()[16].1),
{
    let sel = upload_templates()[16].2;
    let cols = synced_columns()[16].1;
    reveal_strlit("SELECT dv.id AS __local_id, dv.sync_uuid AS uuid, dv.id, dv.venta_id, v.sucursal_id, dv.producto_id, dv.cantidad, dv.precio_venta_pactado, dv.costo_unitario_pactado, dv.tipo_precio_vendido, dv.precio_original, dv.descuento_aplicado, 1 AS sincronizado, dv.updated_at FROM detalle_ventas dv INNER JOIN ventas v ON v.id = dv.venta_id");
    reveal_strlit(" ");
    reveal_strlit(",");
    reveal_strlit(".");
    reveal_strlit(" FROM");
    reveal_strlit("cantidad");
    reveal_strlit("costo_unitario_pactado");
    reveal_strlit("descuento_aplicado");
    reveal_strlit("id");
    reveal_strlit("precio_original");
    reveal_strlit("precio_venta_pactado");
    reveal_strlit("producto_id");
    reveal_strlit("sincronizado");
    reveal_strlit("sucursal_id");
    reveal_strlit("tipo_precio_vendido");
    reveal_strlit("updated_at");
    reveal_strlit("uuid");
    reveal_strlit("venta_id");
    assert(sel == "SELECT dv.id AS __local_id, dv.sync_uuid AS uuid, dv.id, dv.venta_id, v.sucursal_id, dv.producto_id, dv.cantidad, dv.precio_venta_pactado, dv.costo_unitario_pactado, dv.tipo_precio_vendido, dv.precio_original, dv.descuento_aplicado, 1 AS sincronizado, dv.updated_at FROM detalle_ventas dv INNER JOIN ventas v ON v.id = dv.venta_id"@);
    assert(cols == seq!["uuid"@, "id"@, "venta_id"@, "sucursal_id"@, "producto_id"@, "cantidad"@, "precio_venta_pactado"@, "costo_unitario_pactado"@, "tipo_precio_vendido"@, "precio_original"@, "descuento_aplicado"@, "sincronizado"@, "updated_at"@]);
    assert(sel.subrange(43int, 43int + (" "@ + "uuid"@ + ","@).len()) =~= " "@ + "uuid"@ + ","@);
    assert(sel.subrange(52int, 52int + ("."@ + "id"@ + ","@).len()) =~= "."@ + "id"@ + ","@);
    assert(sel.subrange(59int, 59int + ("."@ + "venta_id"@ + ","@).len()) =~= "."@ + "venta_id"@ + ","@);
    assert(sel.subrange(71int, 71int + ("."@ + "sucursal_id"@ + ","@).len()) =~= "."@ + "sucursal_id"@ + ","@);
    assert(sel.subrange(87int, 87int + ("."@ + "producto_id"@ + ","@).len()) =~= "."@ + "producto_id"@ + ","@);
    assert(sel.subrange(103int, 103int + ("."@ + "cantidad"@ + ","@).len()) =~= "."@ + "cantidad"@ + ","@);
    assert(sel.subrange(116int, 116int + ("."@ + "precio_venta_pactado"@ + ","@).len()) =~= "."@ + "precio_venta_pactado"@ + ","@);
    assert(sel.subrange(141int, 141int + ("."@ + "costo_unitario_pactado"@ + ","@).len()) =~= "."@ + "costo_unitario_pactado"@ + ","@);
    assert(sel.subrange(168int, 168int + ("."@ + "tipo_precio_vendido"@ + ","@).len()) =~= "."@ + "tipo_precio_vendido"@ + ","@);
    assert(sel.subrange(192int, 192int + ("."@ + "precio_original"@ + ","@).len()) =~= "."@ + "precio_original"@ + ","@);
    assert(sel.subrange(212int, 212int + ("."@ + "descuento_aplicado"@ + ","@).len()) =~= "."@ + "descuento_aplicado"@ + ","@);
    assert(sel.subrange(237int, 237int + (" "@ + "sincronizado"@ + ","@).len()) =~= " "@ + "sincronizado"@ + ","@);
    assert(sel.subrange(254int, 254int + ("."@ + "updated_at"@ + " FROM"@).len()) =~= "."@ + "updated_at"@ + " FROM"@);
    assert forall|k: int| 0 <= k < cols.len() implies selects_column(sel, #[trigger] cols[k]) by {
        if k == 0 {}
        if k == 1 {}
        if k == 2 {}
        if k == 3 {}
        if k == 4 {}
        if k == 5 {}
        if k == 6 {}
        if k == 7 {}
        if k == 8 {}
        if k == 9 {}
        if k == 10 {}
        if k == 11 {}
        if k == 12 {}
    }
}

proof fn lemma_selects_creditos_abonos()
    ensures
        selects_all(upload_templates()[17].2, synced_columns()[17].1),
{
    let sel = upload_templates()[17].2;
    let cols = synced_columns()[17].1;
    reveal_strlit("SELECT ca.id AS __local_id, ca.sync_uuid AS uuid, ca.id, ca.cliente_id, ca.monto, ca.fecha, ca.usuario_id, u.sucursal_id, 1 AS sincronizado, ca.updated_at FROM creditos_abonos ca INNER JOIN usuarios u ON u.id = ca.usuario_id");
    reveal_strlit(" ");
    reveal_strlit(",");
    reveal_strlit(".");
    reveal_strlit(" FROM");
    reveal_strlit("cliente_id");
    reveal_strlit("fecha");
    reveal_strlit("id");
    reveal_strlit("monto");
    reveal_strlit("sincronizado");
    reveal_strlit("sucursal_id");
    reveal_strlit("updated_at");
    reveal_strlit("usuario_id");
    reveal_strlit("uuid");
    assert(sel == "SELECT ca.id AS __local_id, ca.sync_uuid AS uuid, ca.id, ca.cliente_id, ca.monto, ca.fecha, ca.usuario_id, u.sucursal_id, 1 AS sincronizado, ca.updated_at FROM creditos_abonos ca INNER JOIN usuarios u ON u.id = ca.usuario_id"@);
    assert(cols == seq!["uuid"@, "id"@, "cliente_id"@, "monto"@, "fecha"@, "usuario_id"@, "sucursal_id"@, "sincronizado"@, "updated_at"@]);
    assert(sel.subrange(43int, 43int + (" "@ + "uuid"@ + ","@).len()) =~= " "@ + "uuid"@ + ","@);
    assert(sel.subrange(52int, 52int + ("."@ + "id"@ + ","@).len()) =~= "."@ + "id"@ + ","@);
    assert(sel.subrange(59int, 59int + ("."@ + "cliente_id"@ + ","@).len()) =~= "."@ + "cliente_id"@ + ","@);
    assert(sel.subrange(74int, 74int + ("."@ + "monto"@ + ","@).len()) =~= "."@ + "monto"@ + ","@);
    assert(sel.subrange(84int, 84int + ("."@ + "fecha"@ + ","@).len()) =~= "."@ + "fecha"@ + ","@);
    assert(sel.subrange(94int, 94int + ("."@ + "usuario_id"@ + ","@).len()) =~= "."@ + "usuario_id"@ + ","@);
    assert(sel.subrange(108int, 108int + ("."@ + "sucursal_id"@ + ","@).len()) =~= "."@ + "sucursal_id"@ + ","@);
    assert(sel.subrange(126int, 126int + (" "@ + "sincronizado"@ + ","@).len()) =~= " "@ + "sincronizado"@ + ","@);
    assert(sel.subrange(143int, 143int + ("."@ + "updated_at"@ + " FROM"@).len()) =~= "."@ + "updated_at"@ + " FROM"@);
    assert forall|k: int| 0 <= k < cols.len() implies selects_column(sel, #[trigger] cols[k]) by {
        if k == 0 {}
        if k == 1 {}
        if k == 2 {}
        if k == 3 {}
        if k == 4 {}
        if k == 5 {}
        if k == 6 {}
        if k == 7 {}
        if k == 8 {}
    }
}

proof fn lemma_selects_cajas_sesiones()
    ensures
        selects_all(upload_templates()[18].2, synced_columns()[18].1),
{
    let sel = upload_templates()[18].2;
    let cols = synced_columns()[18].1;
    reveal_strlit("SELECT id AS __local_id, sync_uuid AS uuid, id, usuario_id, sucursal_id, fecha_apertura, monto_inicial, fecha_cierre, monto_final_real, monto_esperado, estado, 1 AS sincronizado, updated_at FROM cajas_sesiones");
    reveal_strlit(" ");
    reveal_strlit(",");
    reveal_strlit(".");
    reveal_strlit(" FROM");
    reveal_strlit("estado");
    reveal_strlit("fecha_apertura");
    reveal_strlit("fecha_cierre");
    reveal_strlit("id");
    reveal_strlit("monto_esperado");
    reveal_strlit("monto_final_real");
    reveal_strlit("monto_inicial");
    reveal_strlit("sincronizado");
    reveal_strlit("sucursal_id");
    reveal_strlit("updated_at");
    reveal_strlit("usuario_id");
    reveal_strlit("uuid");
    assert(sel == "SELECT id AS __local_id, sync_uuid AS uuid, id, usuario_id, sucursal_id, fecha_apertura, monto_inicial, fecha_cierre, monto_final_real, monto_esperado, estado, 1 AS sincronizado, updated_at FROM cajas_sesiones"@);
    assert(cols == seq!["uuid"@, "id"@, "usuario_id"@, "sucursal_id"@, "fecha_apertura"@, "monto_inicial"@, "fecha_cierre"@, "monto_final_real"@, "monto_esperado"@, "estado"@, "sincronizado"@, "updated_at"@]);
    assert(sel.subrange(37int, 37int + (" "@ + "uuid"@ + ","@).len()) =~= " "@ + "uuid"@ + ","@);
    assert(sel.subrange(43int, 43int + (" "@ + "id"@ + ","@).len()) =~= " "@ + "id"@ + ","@);
    assert(sel.subrange(47int, 47int + (" "@ + "usuario_id"@ + ","@).len()) =~= " "@ + "usuario_id"@ + ","@);
    assert(sel.subrange(59int, 59int + (" "@ + "sucursal_id"@ + ","@).len()) =~= " "@ + "sucursal_id"@ + ","@);
    assert(sel.subrange(72int, 72int + (" "@ + "fecha_apertura"@ + ","@).len()) =~= " "@ + "fecha_apertura"@ + ","@);
    assert(sel.subrange(88int, 88int + (" "@ + "monto_inicial"@ + ","@).len()) =~= " "@ + "monto_inicial"@ + ","@);
    assert(sel.subrange(103int, 103int + (" "@ + "fecha_cierre"@ + ","@).len()) =~= " "@ + "fecha_cierre"@ + ","@);
    assert(sel.subrange(117int, 117int + (" "@ + "monto_final_real"@ + ","@).len()) =~= " "@ + "monto_final_real"@ + ","@);
    assert(sel.subrange(135int, 135int + (" "@ + "monto_esperado"@ + ","@).len()) =~= " "@ + "monto_esperado"@ + ","@);
    assert(sel.subrange(151int, 151int + (" "@ + "estado"@ + ","@).len()) =~= " "@ + "estado"@ + ","@);
    assert(sel.subrange(164int, 164int + (" "@ + "sincronizado"@ + ","@).len()) =~= " "@ + "sincronizado"@ + ","@);
    assert(sel.subrange(178int, 178int + (" "@ + "updated_at"@ + " FROM"@).len()) =~= " "@ + "updated_at"@ + " FROM"@);
    assert forall|k: int| 0 <= k < cols.len() implies selects_column(sel, #[trigger] cols[k]) by {
        if k == 0 {}
        if k == 1 {}
        if k == 2 {}
        if k == 3 {}
        if k == 4 {}
        if k == 5 {}
        if k == 6 {}
        if k == 7 {}
        if k == 8 {}
        if k == 9 {}
        if k == 10 {}
        if k == 11 {}
    }
}

proof fn lemma_selects_caja_movimientos()
    ensures
        selects_all(upload_templates()[19].2, synced_columns()[19].1),
{
    let sel = upload_templates()[19].2;
    let cols = synced_columns()[19].1;
    reveal_strlit("SELECT cm.id AS __local_id, cm.sync_uuid AS uuid, cm.id, cm.sesion_id, cs.sucursal_id, cm.tipo, cm.monto, cm.motivo, 1 AS sincronizado, cm.updated_at FROM caja_movimientos cm INNER JOIN cajas_sesiones cs ON cs.id = cm.sesion_id");
    reveal_strlit(" ");
    reveal_strlit(",");
    reveal_strlit(".");
    reveal_strlit(" FROM");
    reveal_strlit("id");
    reveal_strlit("monto");
    reveal_strlit("motivo");
    reveal_strlit("sesion_id");
    reveal_strlit("sincronizado");
    reveal_strlit("sucursal_id");
    reveal_strlit("tipo");
    reveal_strlit("updated_at");
    reveal_strlit("uuid");
    assert(sel == "SELECT cm.id AS __local_id, cm.sync_uuid AS uuid, cm.id, cm.sesion_id, cs.sucursal_id, cm.tipo, cm.monto, cm.motivo, 1 AS sincronizado, cm.updated_at FROM caja_movimientos cm INNER JOIN cajas_sesiones cs ON cs.id = cm.sesion_id"@);
    assert(cols == seq!["uuid"@, "id"@, "sesion_id"@, "sucursal_id"@, "tipo"@, "monto"@, "motivo"@, "sincronizado"@, "updated_at"@]);
    assert(sel.subrange(43int, 43int + (" "@ + "uuid"@ + ","@).len()) =~= " "@ + "uuid"@ + ","@);
    assert(sel.subrange(52int, 52int + ("."@ + "id"@ + ","@).len()) =~= "."@ + "id"@ + ","@);
    assert(sel.subrange(59int, 59int + ("."@ + "sesion_id"@ + ","@).len()) =~= "."@ + "sesion_id"@ + ","@);
    assert(sel.subrange(73int, 73int + ("."@ + "sucursal_id"@ + ","@).len()) =~= "."@ + "sucursal_id"@ + ","@);
    assert(sel.subrange(89int, 89int + ("."@ + "tipo"@ + ","@).len()) =~= "."@ + "tipo"@ + ","@);
    assert(sel.subrange(98int, 98int + ("."@ + "monto"@ + ","@).len()) =~= "."@ + "monto"@ + ","@);
    assert(sel.subrange(108int, 108int + ("."@ + "motivo"@ + ","@).len()) =~= "."@ + "motivo"@ + ","@);
    assert(sel.subrange(121int, 121int + (" "@ + "sincronizado"@ + ","@).len()) =~= " "@ + "sincronizado"@ + ","@);
    assert(sel.subrange(138int, 138int + ("."@ + "updated_at"@ + " FROM"@).len()) =~= "."@ + "updated_at"@ + " FROM"@);
    assert forall|k: int| 0 <= k < cols.len() implies selects_column(sel, #[trigger] cols[k]) by {
        if k == 0 {}
        if k == 1 {}
        if k == 2 {}
        if k == 3 {}
        if k == 4 {}
        if k == 5 {}
        if k == 6 {}
        if k == 7 {}
        if k == 8 {}
    }
}

proof fn lemma_selects_traspasos()
    ensures
        selects_all(upload_templates()[20].2, synced_columns()[20].1),
{
    let sel = upload_templates()[20].2;
    let cols = synced_columns()[20].1;
    reveal_strlit("SELECT id AS __local_id, sync_uuid AS uuid, id, sucursal_origen_id, sucursal_destino_id, usuario_id, fecha, estado, usuario_recibio_id, fecha_recepcion, observaciones_recepcion, 1 AS sincronizado, updated_at FROM traspasos");
    reveal_strlit(" ");
    reveal_strlit(",");
    reveal_strlit(".");
    reveal_strlit(" FROM");
    reveal_strlit("estado");
    reveal_strlit("fecha");
    reveal_strlit("fecha_recepcion");
    reveal_strlit("id");
    reveal_strlit("observaciones_recepcion");
    reveal_strlit("sincronizado");
    reveal_strlit("sucursal_destino_id");
    reveal_strlit("sucursal_origen_id");
    reveal_strlit("updated_at");
    reveal_strlit("usuario_id");
    reveal_strlit("usuario_recibio_id");
    reveal_strlit("uuid");
    assert(sel == "SELECT id AS __local_id, sync_uuid AS uuid, id, sucursal_origen_id, sucursal_destino_id, usuario_id, fecha, estado, usuario_recibio_id, fecha_recepcion, observaciones_recepcion, 1 AS sincronizado, updated_at FROM traspasos"@);
    assert(cols == seq!["uuid"@, "id"@, "sucursal_origen_id"@, "sucursal_destino_id"@, "usuario_id"@, "fecha"@, "estado"@, "usuario_recibio_id"@, "fecha_recepcion"@, "observaciones_recepcion"@, "sincronizado"@, "updated_at"@]);
    assert(sel.subrange(37int, 37int + (" "@ + "uuid"@ + ","@).len()) =~= " "@ + "uuid"@ + ","@);
    assert(sel.subrange(43int, 43int + (" "@ + "id"@ + ","@).len()) =~= " "@ + "id"@ + ","@);
    assert(sel.subrange(47int, 47int + (" "@ + "sucursal_origen_id"@ + ","@).len()) =~= " "@ + "sucursal_origen_id"@ + ","@);
    assert(sel.subrange(67int, 67int + (" "@ + "sucursal_destino_id"@ + ","@).len()) =~= " "@ + "sucursal_destino_id"@ + ","@);
    assert(sel.subrange(88int, 88int + (" "@ + "usuario_id"@ + ","@).len()) =~= " "@ + "usuario_id"@ + ","@);
    assert(sel.subrange(100int, 100int + (" "@ + "fecha"@ + ","@).len()) =~= " "@ + "fecha"@ + ","@);
    assert(sel.subrange(107int, 107int + (" "@ + "estado"@ + ","@).len()) =~= " "@ + "estado"@ + ","@);
    assert(sel.subrange(115int, 115int + (" "@ + "usuario_recibio_id"@ + ","@).len()) =~= " "@ + "usuario_recibio_id"@ + ","@);
    assert(sel.subrange(135int, 135int + (" "@ + "fecha_recepcion"@ + ","@).len()) =~= " "@ + "fecha_recepcion"@ + ","@);
    assert(sel.subrange(152int, 152int + (" "@ + "observaciones_recepcion"@ + ","@).len()) =~= " "@ + "observaciones_recepcion"@ + ","@);
    assert(sel.subrange(182int, 182int + (" "@ + "sincronizado"@ + ","@).len()) =~= " "@ + "sincronizado"@ + ","@);
    assert(sel.subrange(196int, 196int + (" "@ + "updated_at"@ + " FROM"@).len()) =~= " "@ + "updated_at"@ + " FROM"@);
    assert forall|k: int| 0 <= k < cols.len() implies selects_column(sel, #[trigger] cols[k]) by {
        if k == 0 {}
        if k == 1 {}
        if k == 2 {}
        if k == 3 {}
        if k == 4 {}
        if k == 5 {}
        if k == 6 {}
        if k == 7 {}
        if k == 8 {}
        if k == 9 {}
        if k == 10 {}
        if k == 11 {}
    }
}

proof fn lemma_selects_detalle_traspasos()
    ensures
        selects_all(upload_templates()[21].2, synced_columns()[21].1),
{
    let sel = upload_templates()[21].2;
    let cols = synced_columns()[21].1;
    reveal_strlit("SELECT dt.id AS __local_id, dt.sync_uuid AS uuid, dt.id, dt.traspaso_id, t.sucursal_origen_id, dt.producto_id, dt.cantidad, 1 AS sincronizado, dt.updated_at FROM detalle_traspasos dt INNER JOIN traspasos t ON t.id = dt.traspaso_id");
    reveal_strlit(" ");
    reveal_strlit(",");
    reveal_strlit(".");
    reveal_strlit(" FROM");
    reveal_strlit("cantidad");
    reveal_strlit("id");
    reveal_strlit("producto_id");
    reveal_strlit("sincronizado");
    reveal_strlit("sucursal_origen_id");
    reveal_strlit("traspaso_id");
    reveal_strlit("updated_at");
    reveal_strlit("uuid");
    assert(sel == "SELECT dt.id AS __local_id, dt.sync_uuid AS uuid, dt.id, dt.traspaso_id, t.sucursal_origen_id, dt.producto_id, dt.cantidad, 1 AS sincronizado, dt.updated_at FROM detalle_traspasos dt INNER JOIN traspasos t ON t.id = dt.traspaso_id"@);
    assert(cols == seq!["uuid"@, "id"@, "traspaso_id"@, "sucursal_origen_id"@, "producto_id"@, "cantidad"@, "sincronizado"@, "updated_at"@]);
    assert(sel.subrange(43int, 43int + (" "@ + "uuid"@ + ","@).len()) =~= " "@ + "uuid"@ + ","@);
    assert(sel.subrange(52int, 52int + ("."@ + "id"@ + ","@).len()) =~= "."@ + "id"@ + ","@);
    assert(sel.subrange(59int, 59int + ("."@ + "traspaso_id"@ + ","@).len()) =~= "."@ + "traspaso_id"@ + ","@);
    assert(sel.subrange(74int, 74int + ("."@ + "sucursal_origen_id"@ + ","@).len()) =~= "."@ + "sucursal_origen_id"@ + ","@);
    assert(sel.subrange(97int, 97int + ("."@ + "producto_id"@ + ","@).len()) =~= "."@ + "producto_id"@ + ","@);
    assert(sel.subrange(113int, 113int + ("."@ + "cantidad"@ + ","@).len()) =~= "."@ + "cantidad"@ + ","@);
    assert(sel.subrange(128int, 128int + (" "@ + "sincronizado"@ + ","@).len()) =~= " "@ + "sincronizado"@ + ","@);
    assert(sel.subrange(145int, 145int + ("."@ + "updated_at"@ + " FROM"@).len()) =~= "."@ + "updated_at"@ + " FROM"@);
    assert forall|k: int| 0 <= k < cols.len() implies selects_column(sel, #[trigger] cols[k]) by {
        if k == 0 {}
        if k == 1 {}
        if k == 2 {}
        if k == 3 {}
        if k == 4 {}
        if k == 5 {}
        if k == 6 {}
        if k == 7 {}
    }
}

proof fn lemma_selects_mermas_ajustes()
    ensures
        selects_all(upload_templates()[22].2, synced_columns()[22].1),
{
    let sel = upload_templates()[22].2;
    let cols = synced_columns()[22].1;
    reveal_strlit("SELECT id AS __local_id, sync_uuid AS uuid, id, producto_id, sucursal_id, usuario_id, cantidad, tipo_movimiento, motivo, fecha, 1 AS sincronizado, updated_at FROM mermas_ajustes");
    reveal_strlit(" ");
    reveal_strlit(",");
    reveal_strlit(".");
    reveal_strlit(" FROM");
    reveal_strlit("cantidad");
    reveal_strlit("fecha");
    reveal_strlit("id");
    reveal_strlit("motivo");
    reveal_strlit("producto_id");
    reveal_strlit("sincronizado");
    reveal_strlit("sucursal_id");
    reveal_strlit("tipo_movimiento");
    reveal_strlit("updated_at");
    reveal_strlit("usuario_id");
    reveal_strlit("uuid");
    assert(sel == "SELECT id AS __local_id, sync_uuid AS uuid, id, producto_id, sucursal_id, usuario_id, cantidad, tipo_movimiento, motivo, fecha, 1 AS sincronizado, updated_at FROM mermas_ajustes"@);
    assert(cols == seq!["uuid"@, "id"@, "producto_id"@, "sucursal_id"@, "usuario_id"@, "cantidad"@, "tipo_movimiento"@, "motivo"@, "fecha"@, "sincronizado"@, "updated_at"@]);
    assert(sel.subrange(37int, 37int + (" "@ + "uuid"@ + ","@).len()) =~= " "@ + "uuid"@ + ","@);
    assert(sel.subrange(43int, 43int + (" "@ + "id"@ + ","@).len()) =~= " "@ + "id"@ + ","@);
    assert(sel.subrange(47int, 47int + (" "@ + "producto_id"@ + ","@).len()) =~= " "@ + "producto_id"@ + ","@);
    assert(sel.subrange(60int, 60int + (" "@ + "sucursal_id"@ + ","@).len()) =~= " "@ + "sucursal_id"@ + ","@);
    assert(sel.subrange(73int, 73int + (" "@ + "usuario_id"@ + ","@).len()) =~= " "@ + "usuario_id"@ + ","@);
    assert(sel.subrange(85int, 85int + (" "@ + "cantidad"@ + ","@).len()) =~= " "@ + "cantidad"@ + ","@);
    assert(sel.subrange(95int, 95int + (" "@ + "tipo_movimiento"@ + ","@).len()) =~= " "@ + "tipo_movimiento"@ + ","@);
    assert(sel.subrange(112int, 112int + (" "@ + "motivo"@ + ","@).len()) =~= " "@ + "motivo"@ + ","@);
    assert(sel.subrange(120int, 120int + (" "@ + "fecha"@ + ","@).len()) =~= " "@ + "fecha"@ + ","@);
    assert(sel.subrange(132int, 132int + (" "@ + "sincronizado"@ + ","@).len()) =~= " "@ + "sincronizado"@ + ","@);
    assert(sel.subrange(146int, 146int + (" "@ + "updated_at"@ + " FROM"@).len()) =~= " "@ + "updated_at"@ + " FROM"@);
    assert forall|k: int| 0 <= k < cols.len() implies selects_column(sel, #[trigger] cols[k]) by {
        if k == 0 {}
        if k == 1 {}
        if k == 2 {}
        if k == 3 {}
        if k == 4 {}
        if k == 5 {}
        if k == 6 {}
        if k == 7 {}
        if k == 8 {}
        if k == 9 {}
        if k == 10 {}
    }
}

proof fn lemma_selects_facturas_emitidas()
    ensures
        selects_all(upload_templates()[23].2, synced_columns()[23].1),
{
    let sel = upload_templates()[23].2;
    let cols = synced_columns()[23].1;
    reveal_strlit("SELECT fe.id AS __local_id, fe.sync_uuid AS uuid, fe.id, fe.venta_id, v.sucursal_id, fe.uuid AS uuid_sat, fe.rfc_receptor, fe.monto_total, fe.estado, fe.fecha_emision, fe.pdf_path, fe.xml_path, 1 AS sincronizado, fe.updated_at FROM facturas_emitidas fe INNER JOIN ventas v ON v.id = fe.venta_id");
    reveal_strlit(" ");
    reveal_strlit(",");
    reveal_strlit(".");
    reveal_strlit(" FROM");
    reveal_strlit("estado");
    reveal_strlit("fecha_emision");
    reveal_strlit("id");
    reveal_strlit("monto_total");
    reveal_strlit("pdf_path");
    reveal_strlit("rfc_receptor");
    reveal_strlit("sincronizado");
    reveal_strlit("sucursal_id");
    reveal_strlit("updated_at");
    reveal_strlit("uuid");
    reveal_strlit("uuid_sat");
    reveal_strlit("venta_id");
    reveal_strlit("xml_path");
    assert(sel == "SELECT fe.id AS __local_id, fe.sync_uuid AS uuid, fe.id, fe.venta_id, v.sucursal_id, fe.uuid AS uuid_sat, fe.rfc_receptor, fe.monto_total, fe.estado, fe.fecha_emision, fe.pdf_path, fe.xml_path, 1 AS sincronizado, fe.updated_at FROM facturas_emitidas fe INNER JOIN ventas v ON v.id = fe.venta_id"@);
    assert(cols == seq!["uuid"@, "id"@, "venta_id"@, "sucursal_id"@, "uuid_sat"@, "rfc_receptor"@, "monto_total"@, "estado"@, "fecha_emision"@, "pdf_path"@, "xml_path"@, "sincronizado"@, "updated_at"@]);
    assert(sel.subrange(43int, 43int + (" "@ + "uuid"@ + ","@).len()) =~= " "@ + "uuid"@ + ","@);
    assert(sel.subrange(52int, 52int + ("."@ + "id"@ + ","@).len()) =~= "."@ + "id"@ + ","@);
    assert(sel.subrange(59int, 59int + ("."@ + "venta_id"@ + ","@).len()) =~= "."@ + "venta_id"@ + ","@);
    assert(sel.subrange(71int, 71int + ("."@ + "sucursal_id"@ + ","@).len()) =~= "."@ + "sucursal_id"@ + ","@);
    assert(sel.subrange(95int, 95int + (" "@ + "uuid_sat"@ + ","@).len()) =~= " "@ + "uuid_sat"@ + ","@);
    assert(sel.subrange(108int, 108int + ("."@ + "rfc_receptor"@ + ","@).len()) =~= "."@ + "rfc_receptor"@ + ","@);
    assert(sel.subrange(125int, 125int + ("."@ + "monto_total"@ + ","@).len()) =~= "."@ + "monto_total"@ + ","@);
    assert(sel.subrange(141int, 141int + ("."@ + "estado"@ + ","@).len()) =~= "."@ + "estado"@ + ","@);
    assert(sel.subrange(152int, 152int + ("."@ + "fecha_emision"@ + ","@).len()) =~= "."@ + "fecha_emision"@ + ","@);
    assert(sel.subrange(170int, 170int + ("."@ + "pdf_path"@ + ","@).len()) =~= "."@ + "pdf_path"@ + ","@);
    assert(sel.subrange(183int, 183int + ("."@ + "xml_path"@ + ","@).len()) =~= "."@ + "xml_path"@ + ","@);
    assert(sel.subrange(198int, 198int + (" "@ + "sincronizado"@ + ","@).len()) =~= " "@ + "sincronizado"@ + ","@);
    assert(sel.subrange(215int, 215int + ("."@ + "updated_at"@ + " FROM"@).len()) =~= "."@ + "updated_at"@ + " FROM"@);
    assert forall|k: int| 0 <= k < cols.len() implies selects_column(sel, #[trigger] cols[k]) by {
        if k == 0 {}
        if k == 1 {}
        if k == 2 {}
        if k == 3 {}
        if k == 4 {}
        if k == 5 {}
        if k == 6 {}
        if k == 7 {}
        if k == 8 {}
        if k == 9 {}
        if k == 10 {}
        if k == 11 {}
        if k == 12 {}
    }
}

proof fn lemma_selects_movimientos_inventario()
    ensures
        selects_all(upload_templates()[24].2, synced_columns()[24].1),
{
    let sel = upload_templates()[24].2;
    let cols = synced_columns()[24].1;
    reveal_strlit("SELECT uuid AS __local_id, uuid, producto_id, sucursal_id, tipo, referencia_tipo, referencia_id, cantidad, costo_unitario, usuario_id, fecha, 1 AS sincronizado, updated_at FROM movimientos_inventario");
    reveal_strlit(" ");
    reveal_strlit(",");
    reveal_strlit(".");
    reveal_strlit(" FROM");
    reveal_strlit("cantidad");
    reveal_strlit("costo_unitario");
    reveal_strlit("fecha");
    reveal_strlit("producto_id");
    reveal_strlit("referencia_id");
    reveal_strlit("referencia_tipo");
    reveal_strlit("sincronizado");
    reveal_strlit("sucursal_id");
    reveal_strlit("tipo");
    reveal_strlit("updated_at");
    reveal_strlit("usuario_id");
    reveal_strlit("uuid");
    assert(sel == "SELECT uuid AS __local_id, uuid, producto_id, sucursal_id, tipo, referencia_tipo, referencia_id, cantidad, costo_unitario, usuario_id, fecha, 1 AS sincronizado, updated_at FROM movimientos_inventario"@);
    assert(cols == seq!["uuid"@, "producto_id"@, "sucursal_id"@, "tipo"@, "referencia_tipo"@, "referencia_id"@, "cantidad"@, "costo_unitario"@, "usuario_id"@, "fecha"@, "sincronizado"@, "updated_at"@]);
    assert(sel.subrange(26int, 26int + (" "@ + "uuid"@ + ","@).len()) =~= " "@ + "uuid"@ + ","@);
    assert(sel.subrange(32int, 32int + (" "@ + "producto_id"@ + ","@).len()) =~= " "@ + "producto_id"@ + ","@);
    assert(sel.subrange(45int, 45int + (" "@ + "sucursal_id"@ + ","@).len()) =~= " "@ + "sucursal_id"@ + ","@);
    assert(sel.subrange(58int, 58int + (" "@ + "tipo"@ + ","@).len()) =~= " "@ + "tipo"@ + ","@);
    assert(sel.subrange(64int, 64int + (" "@ + "referencia_tipo"@ + ","@).len()) =~= " "@ + "referencia_tipo"@ + ","@);
    assert(sel.subrange(81int, 81int + (" "@ + "referencia_id"@ + ","@).len()) =~= " "@ + "referencia_id"@ + ","@);
    assert(sel.subrange(96int, 96int + (" "@ + "cantidad"@ + ","@).len()) =~= " "@ + "cantidad"@ + ","@);
    assert(sel.subrange(106int, 106int + (" "@ + "costo_unitario"@ + ","@).len()) =~= " "@ + "costo_unitario"@ + ","@);
    assert(sel.subrange(122int, 122int + (" "@ + "usuario_id"@ + ","@).len()) =~= " "@ + "usuario_id"@ + ","@);
    assert(sel.subrange(134int, 134int + (" "@ + "fecha"@ + ","@).len()) =~= " "@ + "fecha"@ + ","@);
    assert(sel.subrange(146int, 146int + (" "@ + "sincronizado"@ + ","@).len()) =~= " "@ + "sincronizado"@ + ","@);
    assert(sel.subrange(160int, 160int + (" "@ + "updated_at"@ + " FROM"@).len()) =~= " "@ + "updated_at"@ + " FROM"@);
    assert forall|k: int| 0 <= k < cols.len() implies selects_column(sel, #[trigger] cols[k]) by {
        if k == 0 {}
        if k == 1 {}
        if k == 2 {}
        if k == 3 {}
        if k == 4 {}
        if k == 5 {}
        if k == 6 {}
        if k == 7 {}
        if k == 8 {}
        if k == 9 {}
        if k == 10 {}
        if k == 11 {}
    }
}

/// Where a text occurs in the start of a query, it occurs in the query.
proof fn lemma_occurs_in_prefix(t: Seq<char>, a: Seq<char>, q: Seq<char>)
    requires
        a.len() <= q.len(),
        q.subrange(0, a.len() as int) == a,
        occurs_in(t, a),
    ensures
        occurs_in(t, q),
{
    let j = choose|j: int| 0 <= j && j + t.len() <= a.len() && #[trigger] a.subrange(j, j + t.len()) == t;
    assert(q.subrange(j, j + t.len()) =~= a.subrange(j, j + t.len()));
}

proof fn lemma_selects_all_prefix(a: Seq<char>, q: Seq<char>, cols: Seq<Seq<char>>)
    requires
        a.len() <= q.len(),
        q.subrange(0, a.len() as int) == a,
        selects_all(a, cols),
    ensures
        selects_all(q, cols),
{
    assert forall|k: int| 0 <= k < cols.len() implies selects_column(q, #[trigger] cols[k]) by {
        let c = cols[k];
        assert(selects_column(a, c));
        if occurs_in(" "@ + c + ","@, a) {
            lemma_occurs_in_prefix(" "@ + c + ","@, a, q);
        } else if occurs_in("."@ + c + ","@, a) {
            lemma_occurs_in_prefix("."@ + c + ","@, a, q);
        } else if occurs_in(" "@ + c + " FROM"@, a) {
            lemma_occurs_in_prefix(" "@ + c + " FROM"@, a, q);
        } else {
            lemma_occurs_in_prefix("."@ + c + " FROM"@, a, q);
        }
    }
}

/// Every upload query selects each column that its table keeps in the
/// cloud copy (among them the stock of each branch, the sale's state and
/// totals, and the time of change), so no synchronised field stays behind
/// when a row is uploaded.
pub proof fn law_upload_selects_synced_columns(limit: Option<usize>, only_pending: bool)
    ensures
        upload_plans(limit, only_pending).len() == synced_columns().len(),
        forall|i: int|
            0 <= i < synced_columns().len() ==> #[trigger] upload_plans(limit, only_pending)[i].0 == synced_columns()[i].0
                && selects_all(upload_plans(limit, only_pending)[i].2, synced_columns()[i].1),
{
    let p = upload_plans(limit, only_pending);
    let t = upload_templates();
    let s = synced_columns();
    assert forall|i: int| 0 <= i < s.len() implies #[trigger] p[i].0 == s[i].0 && selects_all(p[i].2, s[i].1) by {
        if i == 0 {
            lemma_selects_sucursales();
        }
        if i == 1 {
            lemma_selects_empresa_config_fiscal();
        }
        if i == 2 {
            lemma_selects_proveedores();
        }
        if i == 3 {
            lemma_selects_marcas();
        }
        if i == 4 {
            lemma_selects_categorias();
        }
        if i == 5 {
            lemma_selects_unidades();
        }
        if i == 6 {
            lemma_selects_usuarios();
        }
        if i == 7 {
            lemma_selects_productos();
        }
        if i == 8 {
            lemma_selects_inventario_sucursal();
        }
        if i == 9 {
            lemma_selects_promociones();
        }
        if i == 10 {
            lemma_selects_promocion_sucursales();
        }
        if i == 11 {
            lemma_selects_clientes();
        }
        if i == 12 {
            lemma_selects_clientes_datos_fiscales();
        }
        if i == 13 {
            lemma_selects_compras();
        }
        if i == 14 {
            lemma_selects_detalle_compras();
        }
        if i == 15 {
            lemma_selects_ventas();
        }
        if i == 16 {
            lemma_selects_detalle_ventas();
        }
        if i == 17 {
            lemma_selects_creditos_abonos();
        }
        if i == 18 {
            lemma_selects_cajas_sesiones();
        }
        if i == 19 {
            lemma_selects_caja_movimientos();
        }
        if i == 20 {
            lemma_selects_traspasos();
        }
        if i == 21 {
            lemma_selects_detalle_traspasos();
        }
        if i == 22 {
            lemma_selects_mermas_ajustes();
        }
        if i == 23 {
            lemma_selects_facturas_emitidas();
        }
        if i == 24 {
            lemma_selects_movimientos_inventario();
        }
        law_upload_query_shape(limit, only_pending, i);
        lemma_selects_all_prefix(t[i].2, p[i].2, s[i].1);
    }
}

} // verus!
