//! Rows handed over by the importers: a value looked up by any of the names a
//! column may carry, and the record that a row of each kind becomes.
use vstd::prelude::*;
use crate::csvimport::{json_number_text, json_value_number_text};
use crate::normalize::{
    catalog_id, import_key, legacy_catalog_id, normalize_email_trim, normalize_import_key,
    normalize_plain_trim, normalize_title_trim, normalize_upper_trim, single_spaced,
};
use crate::error::command_outcome;
use crate::model::CsvImportIssue;
use crate::sync::str_views;
use crate::text::{
    ascii_upper_seq, contains_string, decimal, eq_ignore_ascii_case, i64_to_decimal, int_decimal,
    is_blank, is_blank_str, push_str, str_eq, to_owned_string, trim, trim_str, u64_to_decimal,
    unicode_lower, unicode_upper, views,
};
use crate::validate::{byte_len, byte_len_capped};

verus! {

// ---------------------------------------------------------------------------
// Values of an imported row
// ---------------------------------------------------------------------------

/// A value of an imported row, as the importer reads it.
pub enum ValorImportado {
    /// Text.
    Texto(String),
    /// A whole number that fits in `i64`.
    Entero(i64),
    /// Any other number, as it is written out.
    Numero(String),
    /// `true` or `false`.
    Logico(bool),
    /// Nothing, a list or an object.
    Otro,
}

/// The text a value gives: text trimmed, a number written out, a flag as
/// `true`/`false`, and nothing for anything else.
pub open spec fn texto_valor(v: ValorImportado) -> Seq<char> {
    match v {
        ValorImportado::Texto(t) => trim(t@),
        ValorImportado::Entero(n) => int_decimal(n as int),
        ValorImportado::Numero(t) => t@,
        ValorImportado::Logico(b) => if b {
            "true"@
        } else {
            "false"@
        },
        ValorImportado::Otro => Seq::empty(),
    }
}

pub fn valor_texto(v: &ValorImportado) -> (r: String)
    ensures
        r@ == texto_valor(*v),
{
    match v {
        ValorImportado::Texto(t) => trim_str(t.as_str()),
        ValorImportado::Entero(n) => i64_to_decimal(*n),
        ValorImportado::Numero(t) => to_owned_string(t.as_str()),
        ValorImportado::Logico(b) => if *b {
            to_owned_string("true")
        } else {
            to_owned_string("false")
        },
        ValorImportado::Otro => String::new(),
    }
}

/// A row as column names beside the texts of their values.
pub open spec fn fila_vista(row: Seq<(String, ValorImportado)>) -> Seq<(Seq<char>, Seq<char>)> {
    row.map_values(|e: (String, ValorImportado)| (e.0@, texto_valor(e.1)))
}

/// The text under the column named exactly `key` (the first such column),
/// or nothing.
pub open spec fn entry_text(f: Seq<(Seq<char>, Seq<char>)>, key: Seq<char>) -> Seq<char>
    decreases f.len(),
{
    if f.len() == 0 {
        Seq::empty()
    } else if f[0].0 == key {
        f[0].1
    } else {
        entry_text(f.drop_first(), key)
    }
}

/// The first name, in order, that names a column with a non-empty text.
pub open spec fn exact_lookup(f: Seq<(Seq<char>, Seq<char>)>, aliases: Seq<Seq<char>>) -> Option<Seq<char>>
    decreases aliases.len(),
{
    if aliases.len() == 0 {
        None
    } else if entry_text(f, aliases[0]).len() > 0 {
        Some(entry_text(f, aliases[0]))
    } else {
        exact_lookup(f, aliases.drop_first())
    }
}

/// The first column, in row order, whose name reduces to `key` (letters and
/// digits, lower-cased) and whose text is not empty.
pub open spec fn loose_entry(f: Seq<(Seq<char>, Seq<char>)>, key: Seq<char>) -> Option<Seq<char>>
    decreases f.len(),
{
    if f.len() == 0 {
        None
    } else if import_key(f[0].0) == key && f[0].1.len() > 0 {
        Some(f[0].1)
    } else {
        loose_entry(f.drop_first(), key)
    }
}

pub open spec fn loose_lookup(f: Seq<(Seq<char>, Seq<char>)>, aliases: Seq<Seq<char>>) -> Option<Seq<char>>
    decreases aliases.len(),
{
    if aliases.len() == 0 {
        None
    } else {
        match loose_entry(f, import_key(aliases[0])) {
            Some(t) => Some(t),
            None => loose_lookup(f, aliases.drop_first()),
        }
    }
}

/// The text of a row under the first of its names that has one: names
/// matched exactly first, then matched on their letters and digits alone;
/// empty when none has.
pub open spec fn import_text(f: Seq<(Seq<char>, Seq<char>)>, aliases: Seq<Seq<char>>) -> Seq<char> {
    match exact_lookup(f, aliases) {
        Some(t) => t,
        None => match loose_lookup(f, aliases) {
            Some(t) => t,
            None => Seq::empty(),
        },
    }
}

fn exact_text(row: &[(String, ValorImportado)], key: &str) -> (r: String)
    ensures
        r@ == entry_text(fila_vista(row@), key@),
{
    let ghost f = fila_vista(row@);
    let mut i: usize = 0;
    assert(f.skip(0) =~= f);
    while i < row.len()
        invariant
            i <= row@.len(),
            f == fila_vista(row@),
            entry_text(f, key@) == entry_text(f.skip(i as int), key@),
        decreases row@.len() - i,
    {
        assert(f.skip(i as int)[0] == f[i as int]);
        assert(f.skip(i as int).drop_first() =~= f.skip(i + 1));
        if str_eq(row[i].0.as_str(), key) {
            return valor_texto(&row[i].1);
        }
        i = i + 1;
    }
    assert(f.skip(i as int) =~= Seq::<(Seq<char>, Seq<char>)>::empty());
    String::new()
}

fn loose_text(row: &[(String, ValorImportado)], key: &str) -> (r: Option<String>)
    ensures
        match r {
            Some(t) => loose_entry(fila_vista(row@), import_key(key@)) == Some(t@),
            None => loose_entry(fila_vista(row@), import_key(key@)) is None,
        },
{
    let ghost f = fila_vista(row@);
    let wanted = normalize_import_key(key);
    let mut i: usize = 0;
    assert(f.skip(0) =~= f);
    while i < row.len()
        invariant
            i <= row@.len(),
            f == fila_vista(row@),
            wanted@ == import_key(key@),
            loose_entry(f, wanted@) == loose_entry(f.skip(i as int), wanted@),
        decreases row@.len() - i,
    {
        assert(f.skip(i as int)[0] == f[i as int]);
        assert(f.skip(i as int).drop_first() =~= f.skip(i + 1));
        let name = normalize_import_key(row[i].0.as_str());
        if str_eq(name.as_str(), wanted.as_str()) {
            let text = valor_texto(&row[i].1);
            if !text.as_str().is_empty() {
                return Some(text);
            }
        }
        i = i + 1;
    }
    assert(f.skip(i as int) =~= Seq::<(Seq<char>, Seq<char>)>::empty());
    None
}

/// The text of a row under the first of the given names that has one (see
/// `import_text`).
pub fn json_value_text(row: &[(String, ValorImportado)], aliases: &[&str]) -> (r: String)
    ensures
        r@ == import_text(fila_vista(row@), str_views(aliases@)),
{
    let ghost f = fila_vista(row@);
    let ghost names = str_views(aliases@);
    let mut i: usize = 0;
    assert(names.skip(0) =~= names);
    while i < aliases.len()
        invariant
            i <= aliases@.len(),
            f == fila_vista(row@),
            names == str_views(aliases@),
            exact_lookup(f, names) == exact_lookup(f, names.skip(i as int)),
        decreases aliases@.len() - i,
    {
        assert(names.skip(i as int)[0] == aliases@[i as int]@);
        assert(names.skip(i as int).drop_first() =~= names.skip(i + 1));
        let text = exact_text(row, aliases[i]);
        if !text.as_str().is_empty() {
            return text;
        }
        i = i + 1;
    }
    assert(names.skip(i as int) =~= Seq::<Seq<char>>::empty());
    let mut j: usize = 0;
    while j < aliases.len()
        invariant
            j <= aliases@.len(),
            f == fila_vista(row@),
            names == str_views(aliases@),
            exact_lookup(f, names) is None,
            loose_lookup(f, names) == loose_lookup(f, names.skip(j as int)),
        decreases aliases@.len() - j,
    {
        assert(names.skip(j as int)[0] == aliases@[j as int]@);
        assert(names.skip(j as int).drop_first() =~= names.skip(j + 1));
        match loose_text(row, aliases[j]) {
            Some(t) => {
                return t;
            },
            None => {},
        }
        j = j + 1;
    }
    assert(names.skip(j as int) =~= Seq::<Seq<char>>::empty());
    String::new()
}


// ---------------------------------------------------------------------------
// The universal importer
// ---------------------------------------------------------------------------

/// What a universal import writes into.
pub enum DestinoUniversal {
    Clientes,
    Proveedores,
    Marcas,
    Categorias,
    Unidades,
}

/// The destination named by an upper-cased, trimmed destination text.
pub open spec fn destino_de(d: Seq<char>) -> Option<DestinoUniversal> {
    if d == "CLIENTES"@ {
        Some(DestinoUniversal::Clientes)
    } else if d == "PROVEEDORES"@ {
        Some(DestinoUniversal::Proveedores)
    } else if d == "MARCAS"@ {
        Some(DestinoUniversal::Marcas)
    } else if d == "CATEGORIAS"@ {
        Some(DestinoUniversal::Categorias)
    } else if d == "UNIDADES"@ {
        Some(DestinoUniversal::Unidades)
    } else {
        None
    }
}

/// The destination text normalised (trimmed, upper-cased) and what it names.
pub fn destino_universal(destino: &str) -> (r: (String, Option<DestinoUniversal>))
    ensures
        r.0@ == unicode_upper(trim(destino@)),
        r.1 == destino_de(r.0@),
{
    let d = normalize_upper_trim(destino);
    let s = d.as_str();
    let which = if str_eq(s, "CLIENTES") {
        Some(DestinoUniversal::Clientes)
    } else if str_eq(s, "PROVEEDORES") {
        Some(DestinoUniversal::Proveedores)
    } else if str_eq(s, "MARCAS") {
        Some(DestinoUniversal::Marcas)
    } else if str_eq(s, "CATEGORIAS") {
        Some(DestinoUniversal::Categorias)
    } else if str_eq(s, "UNIDADES") {
        Some(DestinoUniversal::Unidades)
    } else {
        None
    };
    (d, which)
}

/// A customer read from an imported row; the amounts are still text, ready
/// to be read as decimals.
pub struct ClienteImportado {
    pub id: String,
    pub nombre: String,
    pub telefono: String,
    pub direccion: String,
    pub limite_credito: String,
    pub saldo_deudor: String,
}

/// A supplier read from an imported row.
pub struct ProveedorImportado {
    pub id: String,
    pub nombre: String,
    pub contacto_nombre: String,
    pub telefono: String,
    pub email: String,
    pub direccion: String,
}

/// A brand or category read from an imported row.
pub struct CatalogoImportado {
    pub id: String,
    pub nombre: String,
}

/// A unit of measure read from an imported row.
pub struct UnidadImportada {
    pub id: String,
    pub nombre: String,
    pub clave_sat: String,
}

/// What one row of a universal import becomes.
pub enum RegistroImportado {
    Cliente(ClienteImportado),
    Proveedor(ProveedorImportado),
    Marca(CatalogoImportado),
    Categoria(CatalogoImportado),
    Unidad(UnidadImportada),
}

/// The names under which a row may carry its name.
pub open spec fn alias_nombre(d: DestinoUniversal) -> Seq<Seq<char>> {
    match d {
        DestinoUniversal::Clientes => seq!["nombre"@, "cliente"@, "razonSocial"@, "razon_social"@],
        DestinoUniversal::Proveedores => seq!["nombre"@, "proveedor"@, "razonSocial"@, "razon_social"@],
        DestinoUniversal::Unidades => seq!["nombre"@, "unidad"@, "descripcion"@],
        _ => seq!["nombre"@, "marca"@, "categoria"@, "descripcion"@],
    }
}

/// The names under which a row may carry its own identifier.
pub open spec fn alias_id(d: DestinoUniversal) -> Seq<Seq<char>> {
    match d {
        DestinoUniversal::Clientes => seq!["id"@, "clienteId"@, "cliente_id"@, "clave"@],
        DestinoUniversal::Proveedores => seq!["id"@, "proveedorId"@, "proveedor_id"@, "clave"@],
        _ => seq!["id"@, "clave"@],
    }
}

pub open spec fn prefijo_id(d: DestinoUniversal) -> Seq<char> {
    match d {
        DestinoUniversal::Clientes => "IMPORT-CLI"@,
        DestinoUniversal::Proveedores => "IMPORT-PROV"@,
        DestinoUniversal::Marcas => "IMPORT-MARCA"@,
        DestinoUniversal::Categorias => "IMPORT-CAT"@,
        DestinoUniversal::Unidades => "IMPORT-UNI"@,
    }
}

/// The identifier of an imported record: from the identifier it carries,
/// or, without one, from its name (customers and suppliers add the row's
/// number counted from 1, so that two rows with one name stay apart).
pub open spec fn id_importado(d: DestinoUniversal, f: Seq<(Seq<char>, Seq<char>)>, index: int) -> Seq<char> {
    let nombre = import_text(f, alias_nombre(d));
    let raw = import_text(f, alias_id(d));
    if !is_blank(raw) {
        catalog_id(prefijo_id(d), raw)
    } else {
        match d {
            DestinoUniversal::Clientes => catalog_id(prefijo_id(d), nombre + "-"@ + decimal((index + 1) as nat)),
            DestinoUniversal::Proveedores => catalog_id(prefijo_id(d), nombre + "-"@ + decimal((index + 1) as nat)),
            _ => catalog_id(prefijo_id(d), nombre),
        }
    }
}

pub open spec fn titulo(s: Seq<char>) -> Seq<char> {
    unicode_upper(single_spaced(s))
}

/// A SAT unit key of three bytes, or `H87`.
pub open spec fn clave_sat_o_pieza(c: Seq<char>) -> Seq<char> {
    if byte_len(c) == 3 {
        c
    } else {
        "H87"@
    }
}

/// What a row of a universal import becomes: nothing when it has no name,
/// otherwise the record of the destination with its fields read under
/// their usual names and normalised.
pub open spec fn registro_correcto(
    d: DestinoUniversal,
    f: Seq<(Seq<char>, Seq<char>)>,
    index: int,
    r: Option<RegistroImportado>,
) -> bool {
    let nombre = import_text(f, alias_nombre(d));
    if is_blank(nombre) {
        r is None
    } else {
        match r {
            None => false,
            Some(reg) => match reg {
                RegistroImportado::Cliente(c) => {
                    &&& d is Clientes
                    &&& c.id@ == id_importado(d, f, index)
                    &&& c.nombre@ == titulo(nombre)
                    &&& c.telefono@ == single_spaced(
                        import_text(f, seq!["telefono"@, "tel"@, "celular"@, "phone"@]),
                    )
                    &&& c.direccion@ == titulo(
                        import_text(f, seq!["direccion"@, "domicilio"@, "address"@]),
                    )
                    &&& c.limite_credito@ == json_number_text(
                        import_text(f, seq!["limiteCredito"@, "limite_credito"@, "credito"@]),
                    )
                    &&& c.saldo_deudor@ == json_number_text(
                        import_text(f, seq!["saldoDeudor"@, "saldo_deudor"@, "saldo"@]),
                    )
                },
                RegistroImportado::Proveedor(p) => {
                    &&& d is Proveedores
                    &&& p.id@ == id_importado(d, f, index)
                    &&& p.nombre@ == titulo(nombre)
                    &&& p.contacto_nombre@ == titulo(
                        import_text(
                            f,
                            seq!["contactoNombre"@, "contacto_nombre"@, "contacto"@, "encargado"@],
                        ),
                    )
                    &&& p.telefono@ == single_spaced(
                        import_text(f, seq!["telefono"@, "tel"@, "celular"@, "phone"@]),
                    )
                    &&& p.email@ == unicode_lower(
                        trim(import_text(f, seq!["email"@, "correo"@, "mail"@])),
                    )
                    &&& p.direccion@ == titulo(
                        import_text(f, seq!["direccion"@, "domicilio"@, "address"@]),
                    )
                },
                RegistroImportado::Marca(c) => {
                    &&& d is Marcas
                    &&& c.id@ == id_importado(d, f, index)
                    &&& c.nombre@ == titulo(nombre)
                },
                RegistroImportado::Categoria(c) => {
                    &&& d is Categorias
                    &&& c.id@ == id_importado(d, f, index)
                    &&& c.nombre@ == titulo(nombre)
                },
                RegistroImportado::Unidad(u) => {
                    &&& d is Unidades
                    &&& u.id@ == id_importado(d, f, index)
                    &&& u.nombre@ == titulo(nombre)
                    &&& u.clave_sat@ == clave_sat_o_pieza(
                        unicode_upper(
                            trim(
                                import_text(
                                    f,
                                    seq![
                                        "claveSat"@,
                                        "clave_sat"@,
                                        "satClaveUnidad"@,
                                        "sat_clave_unidad"@,
                                    ],
                                ),
                            ),
                        ),
                    )
                },
            },
        }
    }
}

fn id_de_fila(d: &DestinoUniversal, row: &[(String, ValorImportado)], nombre: &str, index: usize) -> (r: String)
    requires
        index < usize::MAX,
        nombre@ == import_text(fila_vista(row@), alias_nombre(*d)),
    ensures
        r@ == id_importado(*d, fila_vista(row@), index as int),
{
    let (aliases, prefix): (Vec<&str>, &str) = match d {
        DestinoUniversal::Clientes => (vec!["id", "clienteId", "cliente_id", "clave"], "IMPORT-CLI"),
        DestinoUniversal::Proveedores => (vec!["id", "proveedorId", "proveedor_id", "clave"], "IMPORT-PROV"),
        DestinoUniversal::Marcas => (vec!["id", "clave"], "IMPORT-MARCA"),
        DestinoUniversal::Categorias => (vec!["id", "clave"], "IMPORT-CAT"),
        DestinoUniversal::Unidades => (vec!["id", "clave"], "IMPORT-UNI"),
    };
    assert(str_views(aliases@) =~= alias_id(*d));
    let raw = json_value_text(row, aliases.as_slice());
    if !is_blank_str(raw.as_str()) {
        return legacy_catalog_id(prefix, raw.as_str());
    }
    match d {
        DestinoUniversal::Clientes | DestinoUniversal::Proveedores => {
            let mut base = to_owned_string(nombre);
            push_str(&mut base, "-");
            let n = u64_to_decimal((index + 1) as u64);
            push_str(&mut base, n.as_str());
            legacy_catalog_id(prefix, base.as_str())
        },
        _ => legacy_catalog_id(prefix, nombre),
    }
}

/// What one row of a universal import becomes (see `registro_correcto`);
/// `index` is the row's place in the import, counted from 0.
pub fn importar_fila_universal(d: &DestinoUniversal, row: &[(String, ValorImportado)], index: usize) -> (r: Option<
    RegistroImportado,
>)
    requires
        index < usize::MAX,
    ensures
        registro_correcto(*d, fila_vista(row@), index as int, r),
{
    let ghost f = fila_vista(row@);
    let nombre_aliases: Vec<&str> = match d {
        DestinoUniversal::Clientes => vec!["nombre", "cliente", "razonSocial", "razon_social"],
        DestinoUniversal::Proveedores => vec!["nombre", "proveedor", "razonSocial", "razon_social"],
        DestinoUniversal::Unidades => vec!["nombre", "unidad", "descripcion"],
        _ => vec!["nombre", "marca", "categoria", "descripcion"],
    };
    assert(str_views(nombre_aliases@) =~= alias_nombre(*d));
    let nombre = json_value_text(row, nombre_aliases.as_slice());
    if is_blank_str(nombre.as_str()) {
        return None;
    }
    let id = id_de_fila(d, row, nombre.as_str(), index);
    let nombre_final = normalize_title_trim(nombre.as_str());
    match d {
        DestinoUniversal::Clientes => {
            let tel_a = vec!["telefono", "tel", "celular", "phone"];
            assert(str_views(tel_a@) =~= seq!["telefono"@, "tel"@, "celular"@, "phone"@]);
            let tel = json_value_text(row, tel_a.as_slice());
            let dir_a = vec!["direccion", "domicilio", "address"];
            assert(str_views(dir_a@) =~= seq!["direccion"@, "domicilio"@, "address"@]);
            let dir = json_value_text(row, dir_a.as_slice());
            let lim_a = vec!["limiteCredito", "limite_credito", "credito"];
            assert(str_views(lim_a@) =~= seq!["limiteCredito"@, "limite_credito"@, "credito"@]);
            let lim = json_value_text(row, lim_a.as_slice());
            let sal_a = vec!["saldoDeudor", "saldo_deudor", "saldo"];
            assert(str_views(sal_a@) =~= seq!["saldoDeudor"@, "saldo_deudor"@, "saldo"@]);
            let sal = json_value_text(row, sal_a.as_slice());
            Some(
                RegistroImportado::Cliente(
                    ClienteImportado {
                        id,
                        nombre: nombre_final,
                        telefono: normalize_plain_trim(tel.as_str()),
                        direccion: normalize_title_trim(dir.as_str()),
                        limite_credito: json_value_number_text(lim.as_str()),
                        saldo_deudor: json_value_number_text(sal.as_str()),
                    },
                ),
            )
        },
        DestinoUniversal::Proveedores => {
            let con_a = vec!["contactoNombre", "contacto_nombre", "contacto", "encargado"];
            assert(str_views(con_a@) =~= seq!["contactoNombre"@, "contacto_nombre"@, "contacto"@, "encargado"@]);
            let con = json_value_text(row, con_a.as_slice());
            let tel_a = vec!["telefono", "tel", "celular", "phone"];
            assert(str_views(tel_a@) =~= seq!["telefono"@, "tel"@, "celular"@, "phone"@]);
            let tel = json_value_text(row, tel_a.as_slice());
            let mail_a = vec!["email", "correo", "mail"];
            assert(str_views(mail_a@) =~= seq!["email"@, "correo"@, "mail"@]);
            let mail = json_value_text(row, mail_a.as_slice());
            let dir_a = vec!["direccion", "domicilio", "address"];
            assert(str_views(dir_a@) =~= seq!["direccion"@, "domicilio"@, "address"@]);
            let dir = json_value_text(row, dir_a.as_slice());
            Some(
                RegistroImportado::Proveedor(
                    ProveedorImportado {
                        id,
                        nombre: nombre_final,
                        contacto_nombre: normalize_title_trim(con.as_str()),
                        telefono: normalize_plain_trim(tel.as_str()),
                        email: normalize_email_trim(mail.as_str()),
                        direccion: normalize_title_trim(dir.as_str()),
                    },
                ),
            )
        },
        DestinoUniversal::Marcas => Some(RegistroImportado::Marca(CatalogoImportado { id, nombre: nombre_final })),
        DestinoUniversal::Categorias => Some(
            RegistroImportado::Categoria(CatalogoImportado { id, nombre: nombre_final }),
        ),
        DestinoUniversal::Unidades => {
            let sat_a = vec!["claveSat", "clave_sat", "satClaveUnidad", "sat_clave_unidad"];
            assert(str_views(sat_a@) =~= seq!["claveSat"@, "clave_sat"@, "satClaveUnidad"@, "sat_clave_unidad"@]);
            let sat = json_value_text(row, sat_a.as_slice());
            let clave = normalize_upper_trim(sat.as_str());
            let clave_sat = if byte_len_capped(clave.as_str(), 4) == 3 {
                clave
            } else {
                to_owned_string("H87")
            };
            Some(RegistroImportado::Unidad(UnidadImportada { id, nombre: nombre_final, clave_sat }))
        },
    }
}


/// A universal import read through: the destination as normalised, how many
/// rows came, and what each row becomes (nothing for a row without a name).
pub struct PlanImportacionUniversal {
    pub destino: String,
    pub total_leidos: usize,
    pub filas: Vec<Option<RegistroImportado>>,
}

/// Reads every row of a universal import into the records it writes. An
/// import without rows, or into an unknown destination, is refused.
pub fn planear_importacion_universal(destino: &str, rows: &[Vec<(String, ValorImportado)>]) -> (r: Result<
    PlanImportacionUniversal,
    String,
>)
    ensures
        rows@.len() == 0 ==> (r matches Err(e) && e@ == "No hay filas para importar."@),
        rows@.len() > 0 ==> match destino_de(unicode_upper(trim(destino@))) {
            None => r matches Err(e) && e@ == "Destino no soportado por el importador universal."@,
            Some(d) => r matches Ok(p) && p.destino@ == unicode_upper(trim(destino@)) && p.total_leidos
                == rows@.len() && p.filas@.len() == rows@.len() && forall|i: int|
                0 <= i < rows@.len() ==> registro_correcto(d, fila_vista(rows@[i]@), i, #[trigger] p.filas@[i]),
        },
{
    if rows.len() == 0 {
        return Err(to_owned_string("No hay filas para importar."));
    }
    let (normalizado, which) = destino_universal(destino);
    let d = match which {
        Some(d) => d,
        None => {
            return Err(to_owned_string("Destino no soportado por el importador universal."));
        },
    };
    let mut filas: Vec<Option<RegistroImportado>> = Vec::new();
    let mut i: usize = 0;
    while i < rows.len()
        invariant
            i <= rows@.len(),
            filas@.len() == i,
            forall|k: int| 0 <= k < i ==> registro_correcto(d, fila_vista(rows@[k]@), k, #[trigger] filas@[k]),
        decreases rows@.len() - i,
    {
        let fila = importar_fila_universal(&d, rows[i].as_slice(), i);
        filas.push(fila);
        i = i + 1;
    }
    Ok(PlanImportacionUniversal { destino: normalizado, total_leidos: rows.len(), filas })
}


// ---------------------------------------------------------------------------
// Products from a CSV file whose columns the user mapped
// ---------------------------------------------------------------------------

/// The text of a CSV cell as the importer reads it: single-spaced, or empty
/// when the column is not mapped or the row is shorter.
pub fn csv_cell_text(cell: Option<&str>) -> (r: String)
    ensures
        r@ == match cell {
            Some(c) => single_spaced(c@),
            None => Seq::empty(),
        },
{
    match cell {
        Some(c) => normalize_plain_trim(c),
        None => String::new(),
    }
}

/// Why a mapped import cannot start: no file, or one of the fields it needs
/// (code, description, sale price, supplier) is not mapped to a column.
pub open spec fn importacion_mapeada_check(file_path: Seq<char>, campos: Seq<Seq<char>>) -> Option<Seq<char>> {
    if trim(file_path).len() == 0 {
        Some("Selecciona un archivo CSV válido para importar."@)
    } else if !campos.contains("codigo"@) {
        Some("Falta mapear el campo obligatorio: codigo."@)
    } else if !campos.contains("descripcion"@) {
        Some("Falta mapear el campo obligatorio: descripcion."@)
    } else if !campos.contains("precioVenta"@) {
        Some("Falta mapear el campo obligatorio: precioVenta."@)
    } else if !campos.contains("proveedorId"@) {
        Some("Falta mapear el campo obligatorio: proveedorId."@)
    } else {
        None
    }
}

/// Checks a mapped import before any row is read; `campos` are the fields
/// mapped to a column.
pub fn validar_importacion_mapeada(file_path: &str, campos: &[String]) -> (r: Result<(), String>)
    ensures
        command_outcome(r, importacion_mapeada_check(file_path@, views(campos@))),
{
    if is_blank_str(file_path) {
        return Err(to_owned_string("Selecciona un archivo CSV válido para importar."));
    }
    if !contains_string(campos, "codigo") {
        return Err(to_owned_string("Falta mapear el campo obligatorio: codigo."));
    }
    if !contains_string(campos, "descripcion") {
        return Err(to_owned_string("Falta mapear el campo obligatorio: descripcion."));
    }
    if !contains_string(campos, "precioVenta") {
        return Err(to_owned_string("Falta mapear el campo obligatorio: precioVenta."));
    }
    if !contains_string(campos, "proveedorId") {
        return Err(to_owned_string("Falta mapear el campo obligatorio: proveedorId."));
    }
    Ok(())
}

/// Why a row of a mapped import is skipped.
pub enum MotivoOmision {
    /// The CSV reader could not read the row.
    FilaIlegible,
    /// The row has no code or no description.
    SinCodigoODescripcion,
    /// The supplier is empty or `null` once mapped.
    ProveedorSinHomologar,
    /// The mapped supplier is not an active supplier.
    ProveedorInexistente(String),
    /// The sale price is not above zero.
    PrecioInvalido,
}

pub open spec fn motivo_texto(m: MotivoOmision) -> Seq<char> {
    match m {
        MotivoOmision::FilaIlegible => "No se pudo leer la fila CSV."@,
        MotivoOmision::SinCodigoODescripcion => "Falta código o descripción."@,
        MotivoOmision::ProveedorSinHomologar => "Proveedor vacío o sin homologar."@,
        MotivoOmision::ProveedorInexistente(id) => "El proveedor homologado no existe o está eliminado: "@
            + id@ + "."@,
        MotivoOmision::PrecioInvalido => "Precio de venta inválido o en cero."@,
    }
}

/// The issue reported for a skipped row (`fila` counts the header as row 1).
pub fn incidencia_csv(fila: usize, motivo: &MotivoOmision, codigo: String, descripcion: String) -> (r: CsvImportIssue)
    ensures
        r.fila == fila,
        r.motivo@ == motivo_texto(*motivo),
        r.codigo@ == codigo@,
        r.descripcion@ == descripcion@,
{
    let texto = match motivo {
        MotivoOmision::FilaIlegible => to_owned_string("No se pudo leer la fila CSV."),
        MotivoOmision::SinCodigoODescripcion => to_owned_string("Falta código o descripción."),
        MotivoOmision::ProveedorSinHomologar => to_owned_string("Proveedor vacío o sin homologar."),
        MotivoOmision::ProveedorInexistente(id) => {
            let mut t = to_owned_string("El proveedor homologado no existe o está eliminado: ");
            push_str(&mut t, id.as_str());
            push_str(&mut t, ".");
            t
        },
        MotivoOmision::PrecioInvalido => to_owned_string("Precio de venta inválido o en cero."),
    };
    CsvImportIssue { fila, motivo: texto, codigo, descripcion }
}

/// A row of a mapped import that has what a product needs.
pub struct FilaMapeada {
    pub producto_id: String,
    pub codigo: String,
    pub descripcion: String,
    pub proveedor_id: String,
}

/// What a row of a mapped import gives, from its code and description cells
/// and its supplier once mapped: the code upper-cased, the description
/// single-spaced and upper-cased, the supplier trimmed and the product's
/// identifier made from the code; or the issue that skips it.
pub open spec fn fila_mapeada_correcta(
    fila: int,
    codigo: Seq<char>,
    descripcion: Seq<char>,
    proveedor: Seq<char>,
    r: Result<FilaMapeada, CsvImportIssue>,
) -> bool {
    let c = unicode_upper(trim(codigo));
    let d = unicode_upper(single_spaced(descripcion));
    if c.len() == 0 || d.len() == 0 {
        r matches Err(i) && i.fila == fila && i.motivo@ == motivo_texto(MotivoOmision::SinCodigoODescripcion)
            && i.codigo@ == c && i.descripcion@ == d
    } else if is_blank(proveedor) || ascii_upper_seq(proveedor) == "NULL"@ {
        r matches Err(i) && i.fila == fila && i.motivo@ == motivo_texto(MotivoOmision::ProveedorSinHomologar)
            && i.codigo@ == c && i.descripcion@ == d
    } else {
        r matches Ok(m) && m.codigo@ == c && m.descripcion@ == d && m.proveedor_id@ == trim(proveedor)
            && m.producto_id@ == catalog_id("CSV-PROD"@, c)
    }
}

pub fn revisar_fila_mapeada(fila: usize, codigo: &str, descripcion: &str, proveedor: &str) -> (r: Result<
    FilaMapeada,
    CsvImportIssue,
>)
    ensures
        fila_mapeada_correcta(fila as int, codigo@, descripcion@, proveedor@, r),
{
    let c = normalize_upper_trim(codigo);
    let d = normalize_title_trim(descripcion);
    if c.as_str().is_empty() || d.as_str().is_empty() {
        return Err(incidencia_csv(fila, &MotivoOmision::SinCodigoODescripcion, c, d));
    }
    proof {
        reveal_strlit("null");
        reveal_strlit("NULL");
        assert(ascii_upper_seq("null"@) =~= "NULL"@);
    }
    if is_blank_str(proveedor) || eq_ignore_ascii_case(proveedor, "null") {
        return Err(incidencia_csv(fila, &MotivoOmision::ProveedorSinHomologar, c, d));
    }
    let producto_id = legacy_catalog_id("CSV-PROD", c.as_str());
    Ok(FilaMapeada { producto_id, codigo: c, descripcion: d, proveedor_id: trim_str(proveedor) })
}

/// The bar code of a product, upper-cased, or nothing when the cell is empty.
pub fn codigo_barras_opcional(cell: &str) -> (r: Option<String>)
    ensures
        opt_seq_nonempty(r, unicode_upper(trim(cell@))),
{
    let c = normalize_upper_trim(cell);
    if c.as_str().is_empty() {
        None
    } else {
        Some(c)
    }
}

/// `Some(t)` when `t` is not empty, nothing otherwise.
pub open spec fn opt_seq_nonempty(r: Option<String>, t: Seq<char>) -> bool {
    if t.len() == 0 {
        r is None
    } else {
        r matches Some(s) && s@ == t
    }
}

/// A unit's SAT key when it has three bytes, otherwise `H87` (piece).
pub fn clave_sat_o_h87(clave: String) -> (r: String)
    ensures
        r@ == clave_sat_o_pieza(clave@),
{
    if byte_len_capped(clave.as_str(), 4) == 3 {
        clave
    } else {
        to_owned_string("H87")
    }
}

/// The issues kept by a mapped import as rows are skipped: the first fifty,
/// in order.
pub open spec fn issues_kept(issues: Seq<CsvImportIssue>) -> Seq<CsvImportIssue>
    decreases issues.len(),
{
    if issues.len() == 0 {
        Seq::empty()
    } else {
        let kept = issues_kept(issues.drop_last());
        if kept.len() < 50 {
            kept.push(issues.last())
        } else {
            kept
        }
    }
}

/// The skipped rows of a mapped import: how many, and the first fifty issues.
pub struct BitacoraImportacion {
    pub filas_omitidas: usize,
    pub errores: Vec<CsvImportIssue>,
}

impl BitacoraImportacion {
    /// At most fifty issues, and no more issues than skipped rows.
    pub open spec fn bien_formada(&self) -> bool {
        self.errores@.len() <= 50 && self.errores@.len() <= self.filas_omitidas
    }

    pub fn nueva() -> (r: Self)
        ensures
            r.filas_omitidas == 0,
            r.errores@.len() == 0,
            r.bien_formada(),
    {
        BitacoraImportacion { filas_omitidas: 0, errores: Vec::new() }
    }

    /// Counts a skipped row and keeps its issue while fewer than fifty are kept.
    pub fn omitir(&mut self, issue: CsvImportIssue)
        requires
            old(self).filas_omitidas < usize::MAX,
        ensures
            final(self).filas_omitidas == old(self).filas_omitidas + 1,
            final(self).errores@ == (if old(self).errores@.len() < 50 {
                old(self).errores@.push(issue)
            } else {
                old(self).errores@
            }),
            old(self).bien_formada() ==> final(self).bien_formada(),
    {
        self.filas_omitidas = self.filas_omitidas + 1;
        if self.errores.len() < 50 {
            self.errores.push(issue);
        }
    }
}

/// Of the issues of the skipped rows, a mapped import keeps exactly the first
/// fifty, in the order the rows came.
pub proof fn law_first_fifty_issues_kept(issues: Seq<CsvImportIssue>)
    ensures
        issues_kept(issues) == issues.take(if issues.len() < 50 { issues.len() as int } else { 50 }),
    decreases issues.len(),
{
    if issues.len() > 0 {
        law_first_fifty_issues_kept(issues.drop_last());
        let n = issues.len() as int;
        if n <= 50 {
            assert(issues.drop_last().take(n - 1).push(issues.last()) =~= issues.take(n));
        } else {
            assert(issues.drop_last().take(50) =~= issues.take(50));
        }
    } else {
        assert(issues.take(0) =~= Seq::<CsvImportIssue>::empty());
    }
}


// ---------------------------------------------------------------------------
// Looking through a CSV file before importing it
// ---------------------------------------------------------------------------

/// No value appears twice.
pub open spec fn sin_repetidos(v: Seq<Seq<char>>) -> bool {
    forall|i: int, j: int| 0 <= i < j < v.len() ==> v[i] != v[j]
}

/// Notes a cell of a relation column (supplier, brand, category, unit) among
/// the distinct values of that column, kept in the order they were first
/// met; empty cells and values already met leave the list as it was.
pub fn registrar_valor_unico(distintos: &mut Vec<String>, valor: String)
    ensures
        views(final(distintos)@) == (if valor@.len() == 0 || views(old(distintos)@).contains(valor@) {
            views(old(distintos)@)
        } else {
            views(old(distintos)@).push(valor@)
        }),
        sin_repetidos(views(old(distintos)@)) ==> sin_repetidos(views(final(distintos)@)),
{
    if valor.as_str().is_empty() {
        return;
    }
    let mut i: usize = 0;
    while i < distintos.len()
        invariant
            i <= distintos@.len(),
            distintos@ == old(distintos)@,
            forall|k: int| 0 <= k < i ==> views(distintos@)[k] != valor@,
        decreases distintos@.len() - i,
    {
        if distintos[i] == valor {
            assert(views(distintos@)[i as int] == valor@);
            return;
        }
        i = i + 1;
    }
    let ghost before = views(distintos@);
    distintos.push(valor);
    assert(views(distintos@) =~= before.push(valor@));
}

/// The distinct values shown to the user for a column: the first five
/// hundred.
pub fn valores_mostrados(distintos: &Vec<String>) -> (r: Vec<String>)
    ensures
        views(r@) == views(distintos@).take(if distintos@.len() < 500 { distintos@.len() as int } else { 500 }),
{
    let n: usize = if distintos.len() < 500 {
        distintos.len()
    } else {
        500
    };
    let mut out: Vec<String> = Vec::new();
    let mut i: usize = 0;
    while i < n
        invariant
            i <= n <= distintos@.len(),
            out@.len() == i,
            forall|k: int| 0 <= k < i ==> out@[k]@ == distintos@[k]@,
        decreases n - i,
    {
        out.push(to_owned_string(distintos[i].as_str()));
        i = i + 1;
    }
    assert(views(out@) =~= views(distintos@).take(n as int));
    out
}

/// The warning given when a column has more distinct values than are shown.
pub fn aviso_valores_unicos(campo: &str, total_unicos: usize) -> (r: Option<String>)
    ensures
        total_unicos <= 500 ==> r is None,
        total_unicos > 500 ==> (r matches Some(m) && m@ == campo@ + ": se detectaron "@ + decimal(
            total_unicos as nat,
        ) + " valores únicos; se muestran 500. Divide el archivo o depura catálogos para una homologación más segura."@),
{
    if total_unicos <= 500 {
        return None;
    }
    let mut m = to_owned_string(campo);
    push_str(&mut m, ": se detectaron ");
    let n = u64_to_decimal(total_unicos as u64);
    push_str(&mut m, n.as_str());
    push_str(
        &mut m,
        " valores únicos; se muestran 500. Divide el archivo o depura catálogos para una homologación más segura.",
    );
    Some(m)
}

/// The warning for a row the CSV reader could not read; `filas_leidas`
/// rows were read before it, and the header is row 1.
pub fn aviso_fila_ilegible(filas_leidas: usize, error: &str) -> (r: String)
    requires
        filas_leidas + 2 <= usize::MAX,
    ensures
        r@ == "Fila "@ + decimal((filas_leidas + 2) as nat) + " no se pudo leer: "@ + error@,
{
    let mut m = to_owned_string("Fila ");
    let n = u64_to_decimal((filas_leidas + 2) as u64);
    push_str(&mut m, n.as_str());
    push_str(&mut m, " no se pudo leer: ");
    push_str(&mut m, error);
    m
}

/// Each contact field of an imported supplier or customer is read from the
/// column that carries that field's name, whatever the row's other columns
/// hold: the address from `direccion` (then `domicilio`, then `address` when
/// the earlier ones are empty or missing), title-cased; the contact's name
/// from `contactoNombre`, title-cased; the phone from `telefono`, single
/// spaced; the e-mail from `email`, trimmed and in lower case; and a
/// customer's credit limit and debt from `limiteCredito` and `saldoDeudor`.
pub proof fn law_imported_fields_read_from_their_columns(
    d: DestinoUniversal,
    f: Seq<(Seq<char>, Seq<char>)>,
    index: int,
    r: Option<RegistroImportado>,
)
    requires
        registro_correcto(d, f, index, r),
    ensures
        r matches Some(RegistroImportado::Proveedor(p)) ==> {
            &&& entry_text(f, "direccion"@).len() > 0 ==> p.direccion@ == titulo(entry_text(f, "direccion"@))
            &&& entry_text(f, "direccion"@).len() == 0 && entry_text(f, "domicilio"@).len() > 0 ==> p.direccion@
                == titulo(entry_text(f, "domicilio"@))
            &&& entry_text(f, "direccion"@).len() == 0 && entry_text(f, "domicilio"@).len() == 0 && entry_text(
                f,
                "address"@,
            ).len() > 0 ==> p.direccion@ == titulo(entry_text(f, "address"@))
            &&& entry_text(f, "contactoNombre"@).len() > 0 ==> p.contacto_nombre@ == titulo(
                entry_text(f, "contactoNombre"@),
            )
            &&& entry_text(f, "telefono"@).len() > 0 ==> p.telefono@ == single_spaced(entry_text(f, "telefono"@))
            &&& entry_text(f, "email"@).len() > 0 ==> p.email@ == unicode_lower(trim(entry_text(f, "email"@)))
        },
        r matches Some(RegistroImportado::Cliente(c)) ==> {
            &&& entry_text(f, "direccion"@).len() > 0 ==> c.direccion@ == titulo(entry_text(f, "direccion"@))
            &&& entry_text(f, "direccion"@).len() == 0 && entry_text(f, "domicilio"@).len() > 0 ==> c.direccion@
                == titulo(entry_text(f, "domicilio"@))
            &&& entry_text(f, "direccion"@).len() == 0 && entry_text(f, "domicilio"@).len() == 0 && entry_text(
                f,
                "address"@,
            ).len() > 0 ==> c.direccion@ == titulo(entry_text(f, "address"@))
            &&& entry_text(f, "telefono"@).len() > 0 ==> c.telefono@ == single_spaced(entry_text(f, "telefono"@))
            &&& entry_text(f, "limiteCredito"@).len() > 0 ==> c.limite_credito@ == json_number_text(
                entry_text(f, "limiteCredito"@),
            )
            &&& entry_text(f, "saldoDeudor"@).len() > 0 ==> c.saldo_deudor@ == json_number_text(
                entry_text(f, "saldoDeudor"@),
            )
        },
{
    let dir = seq!["direccion"@, "domicilio"@, "address"@];
    assert(dir.drop_first() =~= seq!["domicilio"@, "address"@]);
    assert(dir.drop_first().drop_first() =~= seq!["address"@]);
    let con = seq!["contactoNombre"@, "contacto_nombre"@, "contacto"@, "encargado"@];
    let tel = seq!["telefono"@, "tel"@, "celular"@, "phone"@];
    let mail = seq!["email"@, "correo"@, "mail"@];
    let lim = seq!["limiteCredito"@, "limite_credito"@, "credito"@];
    let sal = seq!["saldoDeudor"@, "saldo_deudor"@, "saldo"@];
    assert(entry_text(f, con[0]).len() > 0 ==> import_text(f, con) == entry_text(f, con[0]));
    assert(entry_text(f, tel[0]).len() > 0 ==> import_text(f, tel) == entry_text(f, tel[0]));
    assert(entry_text(f, mail[0]).len() > 0 ==> import_text(f, mail) == entry_text(f, mail[0]));
    assert(entry_text(f, lim[0]).len() > 0 ==> import_text(f, lim) == entry_text(f, lim[0]));
    assert(entry_text(f, sal[0]).len() > 0 ==> import_text(f, sal) == entry_text(f, sal[0]));
    assert(entry_text(f, dir[0]).len() > 0 ==> import_text(f, dir) == entry_text(f, dir[0]));
    if entry_text(f, dir[0]).len() == 0 {
        assert(exact_lookup(f, dir) == exact_lookup(f, dir.drop_first()));
        if entry_text(f, dir[1]).len() == 0 {
            assert(exact_lookup(f, dir.drop_first()) == exact_lookup(f, dir.drop_first().drop_first()));
        }
    }
}

/// A row is imported under the name in its `nombre` column: a row whose
/// `nombre` is not blank always becomes a record, of the kind of the
/// destination, named by that text title-cased; and a unit takes its SAT
/// key from `claveSat`, trimmed and in upper case, when it has three bytes
/// (`H87`, the piece, otherwise).
pub proof fn law_imported_name_read_from_its_column(
    d: DestinoUniversal,
    f: Seq<(Seq<char>, Seq<char>)>,
    index: int,
    r: Option<RegistroImportado>,
)
    requires
        registro_correcto(d, f, index, r),
    ensures
        !is_blank(entry_text(f, "nombre"@)) ==> r is Some,
        entry_text(f, "nombre"@).len() > 0 ==> match r {
            Some(RegistroImportado::Cliente(c)) => d is Clientes && c.nombre@ == titulo(entry_text(f, "nombre"@)),
            Some(RegistroImportado::Proveedor(p)) => d is Proveedores && p.nombre@ == titulo(entry_text(f, "nombre"@)),
            Some(RegistroImportado::Marca(c)) => d is Marcas && c.nombre@ == titulo(entry_text(f, "nombre"@)),
            Some(RegistroImportado::Categoria(c)) => d is Categorias && c.nombre@ == titulo(entry_text(f, "nombre"@)),
            Some(RegistroImportado::Unidad(u)) => d is Unidades && u.nombre@ == titulo(entry_text(f, "nombre"@)),
            None => true,
        },
        r matches Some(RegistroImportado::Unidad(u)) ==> (entry_text(f, "claveSat"@).len() > 0 ==> u.clave_sat@
            == if byte_len(unicode_upper(trim(entry_text(f, "claveSat"@)))) == 3 {
            unicode_upper(trim(entry_text(f, "claveSat"@)))
        } else {
            "H87"@
        }),
{
    let n = alias_nombre(d);
    assert(n[0] == "nombre"@);
    assert(entry_text(f, n[0]).len() > 0 ==> import_text(f, n) == entry_text(f, n[0]));
    let sat = seq!["claveSat"@, "clave_sat"@, "satClaveUnidad"@, "sat_clave_unidad"@];
    assert(entry_text(f, sat[0]).len() > 0 ==> import_text(f, sat) == entry_text(f, sat[0]));
}

} // verus!
