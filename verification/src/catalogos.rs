//! The catalogues kept beside the products (suppliers, brands, categories,
//! units) and the other records that are deleted by marking them: when a
//! name may be used, when a deletion is refused, and what is said when the
//! record is not there.
use vstd::prelude::*;
use crate::error::{command_outcome, is_validation, AppError};
use crate::text::{push_str, str_eq, to_owned_string, trim, trim_str};

verus! {

/// The tables whose names must be unique among active entries.
pub open spec fn unique_name_table(table: Seq<char>) -> bool {
    table == "proveedores"@ || table == "marcas"@ || table == "categorias"@ || table == "unidades"@
}

/// Before a catalogue name is looked up for uniqueness: the table must be a
/// catalogue and the name, trimmed, must not be empty. `label` names the
/// kind of entry in the message.
pub fn preparar_nombre_unico(table: &str, label: &str, name: &str) -> (r: Result<String, AppError>)
    ensures
        !unique_name_table(table@) ==> (r matches Err(e) && is_validation(e, "Catálogo inválido."@)),
        unique_name_table(table@) && trim(name@).len() == 0 ==> (r matches Err(e) && is_validation(
            e,
            "El "@ + label@ + " necesita nombre."@,
        )),
        unique_name_table(table@) && trim(name@).len() > 0 ==> (r matches Ok(n) && n@ == trim(name@)),
{
    if !(str_eq(table, "proveedores") || str_eq(table, "marcas") || str_eq(table, "categorias") || str_eq(
        table,
        "unidades",
    )) {
        return Err(AppError::Validation(to_owned_string("Catálogo inválido.")));
    }
    let normalized = trim_str(name);
    if normalized.as_str().is_empty() {
        let mut m = to_owned_string("El ");
        push_str(&mut m, label);
        push_str(&mut m, " necesita nombre.");
        return Err(AppError::Validation(m));
    }
    Ok(normalized)
}

/// The count of active entries with the same name (ignoring case), leaving
/// out the entry being edited when there is one.
pub open spec fn unique_name_count_sql(table: Seq<char>, editing: bool) -> Seq<char> {
    "SELECT COUNT(*) FROM "@ + table + (if editing {
        " WHERE eliminado = 0 AND nombre = ?1 COLLATE NOCASE AND id <> ?2"@
    } else {
        " WHERE eliminado = 0 AND nombre = ?1 COLLATE NOCASE"@
    })
}

pub fn sql_nombre_repetido(table: &str, editing: bool) -> (r: String)
    ensures
        r@ == unique_name_count_sql(table@, editing),
{
    let mut sql = to_owned_string("SELECT COUNT(*) FROM ");
    push_str(&mut sql, table);
    if editing {
        push_str(&mut sql, " WHERE eliminado = 0 AND nombre = ?1 COLLATE NOCASE AND id <> ?2");
    } else {
        push_str(&mut sql, " WHERE eliminado = 0 AND nombre = ?1 COLLATE NOCASE");
    }
    sql
}

/// A name already used by another active entry is refused.
pub fn check_nombre_unico(label: &str, repetidos: i64) -> (r: Result<(), AppError>)
    ensures
        repetidos > 0 ==> (r matches Err(e) && is_validation(e, "Ya existe un "@ + label@ + " activo con ese nombre."@)),
        repetidos <= 0 ==> r is Ok,
{
    if repetidos > 0 {
        let mut m = to_owned_string("Ya existe un ");
        push_str(&mut m, label);
        push_str(&mut m, " activo con ese nombre.");
        return Err(AppError::Validation(m));
    }
    Ok(())
}

/// The catalogues a product's brand, category and unit are chosen from.
pub open spec fn product_catalog_table(table: Seq<char>) -> bool {
    table == "marcas"@ || table == "categorias"@ || table == "unidades"@
}

/// Before a product's brand, category or unit is looked up in its catalogue:
/// the table must be one of those, and the value, trimmed, must not be empty.
pub fn preparar_valor_catalogo(table: &str, label: &str, name: &str) -> (r: Result<String, AppError>)
    ensures
        !product_catalog_table(table@) ==> (r matches Err(e) && is_validation(e, "Catálogo inválido."@)),
        product_catalog_table(table@) && trim(name@).len() == 0 ==> (r matches Err(e) && is_validation(
            e,
            "Selecciona una "@ + label@ + " válida de la lista."@,
        )),
        product_catalog_table(table@) && trim(name@).len() > 0 ==> (r matches Ok(n) && n@ == trim(name@)),
{
    if !(str_eq(table, "marcas") || str_eq(table, "categorias") || str_eq(table, "unidades")) {
        return Err(AppError::Validation(to_owned_string("Catálogo inválido.")));
    }
    let normalized = trim_str(name);
    if normalized.as_str().is_empty() {
        return Err(AppError::Validation(valor_no_valido(label)));
    }
    Ok(normalized)
}

fn valor_no_valido(label: &str) -> (r: String)
    ensures
        r@ == "Selecciona una "@ + label@ + " válida de la lista."@,
{
    let mut m = to_owned_string("Selecciona una ");
    push_str(&mut m, label);
    push_str(&mut m, " válida de la lista.");
    m
}

/// The catalogue's own spelling of the value, which must be there.
pub fn valor_catalogo_encontrado(label: &str, stored: Option<String>) -> (r: Result<String, AppError>)
    ensures
        stored is None ==> (r matches Err(e) && is_validation(e, "Selecciona una "@ + label@ + " válida de la lista."@)),
        stored matches Some(s) ==> (r matches Ok(n) && n@ == s@),
{
    match stored {
        Some(s) => Ok(s),
        None => Err(AppError::Validation(valor_no_valido(label))),
    }
}

/// Records deleted by marking them.
pub enum Eliminable {
    Marca,
    Categoria,
    Unidad,
    Proveedor,
    Sucursal,
    Cliente,
    Producto,
    Usuario,
}

/// What is said when the record to delete is not there.
pub open spec fn no_encontrado(e: Eliminable) -> Seq<char> {
    match e {
        Eliminable::Marca => "No se encontró la marca que intentas eliminar."@,
        Eliminable::Categoria => "No se encontró la categoría que intentas eliminar."@,
        Eliminable::Unidad => "No se encontró la unidad que intentas eliminar."@,
        Eliminable::Proveedor => "No se encontró el proveedor que intentas eliminar."@,
        Eliminable::Sucursal => "No se encontró la sucursal que intentas eliminar."@,
        Eliminable::Cliente => "No se encontró el cliente que intentas eliminar."@,
        Eliminable::Producto => "No se encontró el producto que intentas eliminar."@,
        Eliminable::Usuario => "No se encontró el usuario que intentas eliminar."@,
    }
}

/// What is said when the record is still in use: catalogue entries and
/// suppliers used by active products, branches with active users, customers
/// who still owe money. Products and users are never refused for this.
pub open spec fn en_uso(e: Eliminable) -> Option<Seq<char>> {
    match e {
        Eliminable::Marca => Some("No se puede eliminar la marca porque tiene productos asociados."@),
        Eliminable::Categoria => Some("No se puede eliminar la categoría porque tiene productos asociados."@),
        Eliminable::Unidad => Some("No se puede eliminar la unidad porque tiene productos asociados."@),
        Eliminable::Proveedor => Some("No se puede eliminar el proveedor porque tiene productos asociados."@),
        Eliminable::Sucursal => Some("No se puede eliminar la sucursal porque tiene usuarios activos."@),
        Eliminable::Cliente => Some("No se puede eliminar cliente con saldo deudor pendiente."@),
        _ => None,
    }
}

pub fn mensaje_no_encontrado(e: &Eliminable) -> (r: String)
    ensures
        r@ == no_encontrado(*e),
{
    match e {
        Eliminable::Marca => to_owned_string("No se encontró la marca que intentas eliminar."),
        Eliminable::Categoria => to_owned_string("No se encontró la categoría que intentas eliminar."),
        Eliminable::Unidad => to_owned_string("No se encontró la unidad que intentas eliminar."),
        Eliminable::Proveedor => to_owned_string("No se encontró el proveedor que intentas eliminar."),
        Eliminable::Sucursal => to_owned_string("No se encontró la sucursal que intentas eliminar."),
        Eliminable::Cliente => to_owned_string("No se encontró el cliente que intentas eliminar."),
        Eliminable::Producto => to_owned_string("No se encontró el producto que intentas eliminar."),
        Eliminable::Usuario => to_owned_string("No se encontró el usuario que intentas eliminar."),
    }
}

/// A record still in use is not deleted. `en_uso_ahora` says whether it is:
/// active products that use the entry, active users of the branch, or a
/// debt of the customer above zero.
pub open spec fn eliminacion_check(e: Eliminable, en_uso_ahora: bool) -> Option<Seq<char>> {
    if en_uso_ahora {
        en_uso(e)
    } else {
        None
    }
}

pub fn check_eliminacion(e: &Eliminable, en_uso_ahora: bool) -> (r: Result<(), String>)
    ensures
        command_outcome(r, eliminacion_check(*e, en_uso_ahora)),
{
    if !en_uso_ahora {
        return Ok(());
    }
    match e {
        Eliminable::Marca => Err(to_owned_string("No se puede eliminar la marca porque tiene productos asociados.")),
        Eliminable::Categoria => Err(
            to_owned_string("No se puede eliminar la categoría porque tiene productos asociados."),
        ),
        Eliminable::Unidad => Err(to_owned_string("No se puede eliminar la unidad porque tiene productos asociados.")),
        Eliminable::Proveedor => Err(
            to_owned_string("No se puede eliminar el proveedor porque tiene productos asociados."),
        ),
        Eliminable::Sucursal => Err(to_owned_string("No se puede eliminar la sucursal porque tiene usuarios activos.")),
        Eliminable::Cliente => Err(to_owned_string("No se puede eliminar cliente con saldo deudor pendiente.")),
        _ => Ok(()),
    }
}

/// A deletion that marked no row did not find the record.
pub fn check_eliminado(e: &Eliminable, filas_marcadas: usize) -> (r: Result<(), String>)
    ensures
        command_outcome(
            r,
            if filas_marcadas == 0 {
                Some(no_encontrado(*e))
            } else {
                None
            },
        ),
{
    if filas_marcadas == 0 {
        return Err(mensaje_no_encontrado(e));
    }
    Ok(())
}

/// A catalogue entry or supplier that active products use, a branch with
/// active users and a customer who owes money are never deleted.
pub proof fn law_records_in_use_kept(e: Eliminable)
    requires
        !(e is Producto) && !(e is Usuario),
    ensures
        eliminacion_check(e, true) is Some,
        eliminacion_check(e, false) is None,
{
}

} // verus!
