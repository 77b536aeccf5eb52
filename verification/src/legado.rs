//! Articles brought over from the legacy system: the identifiers, names and
//! catalogue entries that a legacy article row is filed under.
use vstd::prelude::*;
use crate::normalize::{
    catalog_id, legacy_catalog_id, legacy_truthy, is_truthy_word, normalize_plain_trim,
    normalize_title_trim, normalize_upper_trim, optional_name, optional_normalized_name,
    single_spaced, truthy_text,
};
use crate::text::{
    decimal, i64_to_decimal, int_decimal, opt_ref_seq, opt_seq, push_str, to_owned_string, trim,
    trim_str, u64_to_decimal, unicode_upper,
};

verus! {

/// `PREFIX-n`.
pub open spec fn numbered(prefix: Seq<char>, n: int) -> Seq<char> {
    prefix + "-"@ + int_decimal(n)
}

fn numbered_id(prefix: &str, n: i64) -> (r: String)
    ensures
        r@ == numbered(prefix@, n as int),
{
    let mut s = to_owned_string(prefix);
    push_str(&mut s, "-");
    let d = i64_to_decimal(n);
    push_str(&mut s, d.as_str());
    s
}

fn row_number_id(prefix: &str, index: usize) -> (r: String)
    requires
        index < usize::MAX,
    ensures
        r@ == prefix@ + "-"@ + decimal((index + 1) as nat),
{
    let mut s = to_owned_string(prefix);
    push_str(&mut s, "-");
    let d = u64_to_decimal((index + 1) as u64);
    push_str(&mut s, d.as_str());
    s
}

/// The supplier that articles without one are filed under.
pub fn proveedor_por_defecto(proveedor_default_id: &str) -> (r: String)
    ensures
        r@ == (if trim(proveedor_default_id@).len() == 0 {
            "PROV-SIN-ASIGNAR"@
        } else {
            trim(proveedor_default_id@)
        }),
{
    let t = trim_str(proveedor_default_id);
    if t.as_str().is_empty() {
        to_owned_string("PROV-SIN-ASIGNAR")
    } else {
        t
    }
}

/// The identifier of a legacy article: from its legacy number, else from
/// its key, else from its place in the import (counted from 1).
pub open spec fn producto_legacy_id(id: Option<i64>, clave: Option<Seq<char>>, index: int) -> Seq<char> {
    match id {
        Some(n) => numbered("LEGACY-ART"@, n as int),
        None => match clave {
            Some(c) => if trim(c).len() == 0 {
                "LEGACY-ART-AUTO-"@ + decimal((index + 1) as nat)
            } else {
                catalog_id("LEGACY-ART"@, trim(c))
            },
            None => "LEGACY-ART-AUTO-"@ + decimal((index + 1) as nat),
        },
    }
}

pub fn legacy_producto_id(id: Option<i64>, clave: Option<&String>, index: usize) -> (r: String)
    requires
        index < usize::MAX,
    ensures
        r@ == producto_legacy_id(id, opt_ref_seq(clave), index as int),
{
    proof {
        reveal_strlit("LEGACY-ART-AUTO");
        reveal_strlit("LEGACY-ART-AUTO-");
        reveal_strlit("-");
        assert("LEGACY-ART-AUTO"@ + "-"@ =~= "LEGACY-ART-AUTO-"@);
    }
    match id {
        Some(n) => numbered_id("LEGACY-ART", n),
        None => match clave {
            Some(c) => {
                let clean = trim_str(c.as_str());
                if clean.as_str().is_empty() {
                    row_number_id("LEGACY-ART-AUTO", index)
                } else {
                    legacy_catalog_id("LEGACY-ART", clean.as_str())
                }
            },
            None => row_number_id("LEGACY-ART-AUTO", index),
        },
    }
}

/// The supplier's code of a legacy article: its key upper-cased, or one made
/// from its place in the import.
pub open spec fn codigo_proveedor_legacy(clave: Option<Seq<char>>, index: int) -> Seq<char> {
    match clave {
        Some(c) => if unicode_upper(trim(c)).len() > 0 {
            unicode_upper(trim(c))
        } else {
            "LEGACY-COD-"@ + decimal((index + 1) as nat)
        },
        None => "LEGACY-COD-"@ + decimal((index + 1) as nat),
    }
}

pub fn legacy_codigo_proveedor(clave: Option<&String>, index: usize) -> (r: String)
    requires
        index < usize::MAX,
    ensures
        r@ == codigo_proveedor_legacy(opt_ref_seq(clave), index as int),
{
    proof {
        reveal_strlit("LEGACY-COD");
        reveal_strlit("LEGACY-COD-");
        reveal_strlit("-");
        assert("LEGACY-COD"@ + "-"@ =~= "LEGACY-COD-"@);
    }
    match clave {
        Some(c) => {
            let up = normalize_upper_trim(c.as_str());
            if !up.as_str().is_empty() {
                up
            } else {
                row_number_id("LEGACY-COD", index)
            }
        },
        None => row_number_id("LEGACY-COD", index),
    }
}

/// Where the supplier of a legacy article comes from.
pub enum ProveedorLegacy {
    /// The row names its supplier: it is written under this identifier.
    Nombrado { id: String, nombre: String },
    /// The row only has the legacy supplier number: an existing supplier
    /// with that number is looked for.
    PorNumero(i64),
    /// The row has no supplier: the import's default one is used.
    PorDefecto,
}

/// The supplier of a legacy article: named (its identifier from its legacy
/// number when there is one, else from its name), looked up by number, or
/// the default.
pub open spec fn proveedor_legacy_correcto(numero: Option<i64>, nombre: Option<Seq<char>>, r: ProveedorLegacy) -> bool {
    match optional_name(nombre) {
        Some(n) => r matches ProveedorLegacy::Nombrado { id, nombre } && nombre@ == n && id@ == match numero {
            Some(k) => numbered("LEGACY-PROV"@, k as int),
            None => catalog_id("LEGACY-PROV"@, n),
        },
        None => match numero {
            Some(k) => r == ProveedorLegacy::PorNumero(k),
            None => r is PorDefecto,
        },
    }
}

pub fn plan_proveedor_legacy(numero: Option<i64>, nombre: Option<&String>) -> (r: ProveedorLegacy)
    ensures
        proveedor_legacy_correcto(numero, opt_ref_seq(nombre), r),
{
    match optional_normalized_name(nombre) {
        Some(n) => {
            let id = match numero {
                Some(k) => numbered_id("LEGACY-PROV", k),
                None => legacy_catalog_id("LEGACY-PROV", n.as_str()),
            };
            ProveedorLegacy::Nombrado { id, nombre: n }
        },
        None => match numero {
            Some(k) => ProveedorLegacy::PorNumero(k),
            None => ProveedorLegacy::PorDefecto,
        },
    }
}

/// The supplier created for a legacy number that no supplier carries.
pub fn proveedor_legacy_nuevo(numero: i64) -> (r: (String, String))
    ensures
        r.0@ == numbered("LEGACY-PROV"@, numero as int),
        r.1@ == "PROVEEDOR LEGACY #"@ + int_decimal(numero as int),
{
    let id = numbered_id("LEGACY-PROV", numero);
    let mut nombre = to_owned_string("PROVEEDOR LEGACY #");
    let d = i64_to_decimal(numero);
    push_str(&mut nombre, d.as_str());
    (id, nombre)
}

/// The identifiers under which an earlier import may have filed a legacy
/// number: `PREFIX-n` for each prefix, in order.
pub fn legacy_candidate_ids(prefixes: &[&str], numero: i64) -> (r: Vec<String>)
    ensures
        r@.len() == prefixes@.len(),
        forall|k: int| 0 <= k < prefixes@.len() ==> #[trigger] r@[k]@ == numbered(prefixes@[k]@, numero as int),
{
    let mut out: Vec<String> = Vec::new();
    let mut i: usize = 0;
    while i < prefixes.len()
        invariant
            i <= prefixes@.len(),
            out@.len() == i,
            forall|k: int| 0 <= k < i ==> #[trigger] out@[k]@ == numbered(prefixes@[k]@, numero as int),
        decreases prefixes@.len() - i,
    {
        out.push(numbered_id(prefixes[i], numero));
        i = i + 1;
    }
    out
}

/// Where the brand of a legacy article comes from.
pub enum MarcaLegacy {
    /// The row names its brand.
    Nombrada { id: String, nombre: String },
    /// The row only has the legacy brand number: an existing brand with that
    /// number is looked for.
    PorNumero(i64),
    /// No brand.
    SinMarca,
}

pub open spec fn marca_legacy_correcta(numero: Option<i64>, nombre: Option<Seq<char>>, r: MarcaLegacy) -> bool {
    match optional_name(nombre) {
        Some(n) => r matches MarcaLegacy::Nombrada { id, nombre } && nombre@ == n && id@ == match numero {
            Some(k) => numbered("LEGACY-MARCA"@, k as int),
            None => catalog_id("LEGACY-MARCA"@, n),
        },
        None => match numero {
            Some(k) => r == MarcaLegacy::PorNumero(k),
            None => r is SinMarca,
        },
    }
}

pub fn plan_marca_legacy(numero: Option<i64>, nombre: Option<&String>) -> (r: MarcaLegacy)
    ensures
        marca_legacy_correcta(numero, opt_ref_seq(nombre), r),
{
    match optional_normalized_name(nombre) {
        Some(n) => {
            let id = match numero {
                Some(k) => numbered_id("LEGACY-MARCA", k),
                None => legacy_catalog_id("LEGACY-MARCA", n.as_str()),
            };
            MarcaLegacy::Nombrada { id, nombre: n }
        },
        None => match numero {
            Some(k) => MarcaLegacy::PorNumero(k),
            None => MarcaLegacy::SinMarca,
        },
    }
}

/// The brand of an article without one.
pub fn marca_sin_marca() -> (r: (String, String))
    ensures
        r.0@ == "LEGACY-MARCA-SIN_MARCA"@,
        r.1@ == "SIN MARCA"@,
{
    (to_owned_string("LEGACY-MARCA-SIN_MARCA"), to_owned_string("SIN MARCA"))
}

/// A legacy category or unit: its name single-spaced and upper-cased, or the
/// default name; its identifier made from that name.
pub open spec fn catalogo_legacy(prefix: Seq<char>, default: Seq<char>, value: Option<Seq<char>>) -> (Seq<char>, Seq<char>) {
    let nombre = match optional_name(value) {
        Some(n) => n,
        None => default,
    };
    (catalog_id(prefix, nombre), nombre)
}

fn catalogo_legacy_exec(prefix: &str, default: &str, value: Option<&String>) -> (r: (String, String))
    ensures
        r.0@ == catalogo_legacy(prefix@, default@, opt_ref_seq(value)).0,
        r.1@ == catalogo_legacy(prefix@, default@, opt_ref_seq(value)).1,
{
    let nombre = match optional_normalized_name(value) {
        Some(n) => n,
        None => to_owned_string(default),
    };
    let id = legacy_catalog_id(prefix, nombre.as_str());
    (id, nombre)
}

/// The category of a legacy article (`GENERAL` when it has none).
pub fn categoria_legacy(categoria: Option<&String>) -> (r: (String, String))
    ensures
        r.0@ == catalogo_legacy("LEGACY-CAT"@, "GENERAL"@, opt_ref_seq(categoria)).0,
        r.1@ == catalogo_legacy("LEGACY-CAT"@, "GENERAL"@, opt_ref_seq(categoria)).1,
{
    catalogo_legacy_exec("LEGACY-CAT", "GENERAL", categoria)
}

/// The unit of a legacy article (`PIEZA` when it has none).
pub fn unidad_legacy(unidad: Option<&String>) -> (r: (String, String))
    ensures
        r.0@ == catalogo_legacy("LEGACY-UNI"@, "PIEZA"@, opt_ref_seq(unidad)).0,
        r.1@ == catalogo_legacy("LEGACY-UNI"@, "PIEZA"@, opt_ref_seq(unidad)).1,
{
    catalogo_legacy_exec("LEGACY-UNI", "PIEZA", unidad)
}

/// An optional text single-spaced, absent when nothing is left.
pub open spec fn plain_optional(value: Option<Seq<char>>) -> Option<Seq<char>> {
    match value {
        Some(v) => if single_spaced(v).len() > 0 {
            Some(single_spaced(v))
        } else {
            None
        },
        None => None,
    }
}

pub fn texto_plano_opcional(value: Option<&String>) -> (r: Option<String>)
    ensures
        opt_seq(r) == plain_optional(opt_ref_seq(value)),
{
    match value {
        Some(v) => {
            let t = normalize_plain_trim(v.as_str());
            if t.as_str().is_empty() {
                None
            } else {
                Some(t)
            }
        },
        None => None,
    }
}

/// An optional code trimmed and upper-cased, absent when nothing is left.
pub open spec fn code_optional(value: Option<Seq<char>>) -> Option<Seq<char>> {
    match value {
        Some(v) => if unicode_upper(trim(v)).len() > 0 {
            Some(unicode_upper(trim(v)))
        } else {
            None
        },
        None => None,
    }
}

pub fn codigo_opcional(value: Option<&String>) -> (r: Option<String>)
    ensures
        opt_seq(r) == code_optional(opt_ref_seq(value)),
{
    match value {
        Some(v) => {
            let t = normalize_upper_trim(v.as_str());
            if t.as_str().is_empty() {
                None
            } else {
                Some(t)
            }
        },
        None => None,
    }
}


/// The fields of a legacy article row that decide how it is filed (its
/// amounts are read apart).
pub struct ArticuloLegacy {
    pub id: Option<i64>,
    pub clave: Option<String>,
    pub descripcion_articulo: Option<String>,
    pub unidad: Option<String>,
    pub codigo_barra: Option<String>,
    pub caducidad: Option<String>,
    pub provedor: Option<i64>,
    pub proveedor_nombre: Option<String>,
    pub categoria: Option<String>,
    pub marca: Option<i64>,
    pub marca_nombre: Option<String>,
    pub fotos: Option<String>,
    pub descripcion_catalogo: Option<String>,
    pub a_granel: Option<String>,
    pub no_en_catalogo: Option<String>,
    pub ventas_negativas: Option<String>,
}

/// How a legacy article is filed.
pub struct ArticuloLegacyPlan {
    pub producto_id: String,
    pub descripcion: String,
    pub codigo_proveedor: String,
    pub proveedor: ProveedorLegacy,
    pub marca: MarcaLegacy,
    pub categoria_id: String,
    pub categoria: String,
    pub unidad_id: String,
    pub unidad: String,
    pub codigo_barras: Option<String>,
    pub caducidad: Option<String>,
    pub fotos: Option<String>,
    pub descripcion_catalogo: Option<String>,
    pub a_granel: i64,
    pub no_en_catalogo: i64,
    pub ventas_negativas: i64,
}

pub open spec fn flag(value: Option<Seq<char>>) -> i64 {
    if is_truthy_word(truthy_text(value)) {
        1
    } else {
        0
    }
}

/// How the `index`-th row (counted from 0) of a legacy import is filed:
/// skipped when it has no description, otherwise under the identifiers,
/// names and flags described by the functions above.
pub open spec fn plan_legacy_correcto(a: ArticuloLegacy, index: int, r: Option<ArticuloLegacyPlan>) -> bool {
    let descripcion = match opt_seq(a.descripcion_articulo) {
        Some(d) => unicode_upper(single_spaced(d)),
        None => Seq::empty(),
    };
    if descripcion.len() == 0 {
        r is None
    } else {
        r matches Some(p) && {
            &&& p.producto_id@ == producto_legacy_id(a.id, opt_seq(a.clave), index)
            &&& p.descripcion@ == descripcion
            &&& p.codigo_proveedor@ == codigo_proveedor_legacy(opt_seq(a.clave), index)
            &&& proveedor_legacy_correcto(a.provedor, opt_seq(a.proveedor_nombre), p.proveedor)
            &&& marca_legacy_correcta(a.marca, opt_seq(a.marca_nombre), p.marca)
            &&& p.categoria_id@ == catalogo_legacy("LEGACY-CAT"@, "GENERAL"@, opt_seq(a.categoria)).0
            &&& p.categoria@ == catalogo_legacy("LEGACY-CAT"@, "GENERAL"@, opt_seq(a.categoria)).1
            &&& p.unidad_id@ == catalogo_legacy("LEGACY-UNI"@, "PIEZA"@, opt_seq(a.unidad)).0
            &&& p.unidad@ == catalogo_legacy("LEGACY-UNI"@, "PIEZA"@, opt_seq(a.unidad)).1
            &&& opt_seq(p.codigo_barras) == code_optional(opt_seq(a.codigo_barra))
            &&& opt_seq(p.caducidad) == plain_optional(opt_seq(a.caducidad))
            &&& opt_seq(p.fotos) == plain_optional(opt_seq(a.fotos))
            &&& opt_seq(p.descripcion_catalogo) == optional_name(opt_seq(a.descripcion_catalogo))
            &&& p.a_granel == flag(opt_seq(a.a_granel))
            &&& p.no_en_catalogo == flag(opt_seq(a.no_en_catalogo))
            &&& p.ventas_negativas == flag(opt_seq(a.ventas_negativas))
        }
    }
}

/// How a row of a legacy article import is filed (see `plan_legacy_correcto`).
pub fn planear_articulo_legacy(a: &ArticuloLegacy, index: usize) -> (r: Option<ArticuloLegacyPlan>)
    requires
        index < usize::MAX,
    ensures
        plan_legacy_correcto(*a, index as int, r),
{
    let descripcion = match &a.descripcion_articulo {
        Some(d) => normalize_title_trim(d.as_str()),
        None => String::new(),
    };
    if descripcion.as_str().is_empty() {
        return None;
    }
    let (categoria_id, categoria) = categoria_legacy(a.categoria.as_ref());
    let (unidad_id, unidad) = unidad_legacy(a.unidad.as_ref());
    Some(
        ArticuloLegacyPlan {
            producto_id: legacy_producto_id(a.id, a.clave.as_ref(), index),
            descripcion,
            codigo_proveedor: legacy_codigo_proveedor(a.clave.as_ref(), index),
            proveedor: plan_proveedor_legacy(a.provedor, a.proveedor_nombre.as_ref()),
            marca: plan_marca_legacy(a.marca, a.marca_nombre.as_ref()),
            categoria_id,
            categoria,
            unidad_id,
            unidad,
            codigo_barras: codigo_opcional(a.codigo_barra.as_ref()),
            caducidad: texto_plano_opcional(a.caducidad.as_ref()),
            fotos: texto_plano_opcional(a.fotos.as_ref()),
            descripcion_catalogo: optional_normalized_name(a.descripcion_catalogo.as_ref()),
            a_granel: legacy_truthy(a.a_granel.as_ref()),
            no_en_catalogo: legacy_truthy(a.no_en_catalogo.as_ref()),
            ventas_negativas: legacy_truthy(a.ventas_negativas.as_ref()),
        },
    )
}

} // verus!
