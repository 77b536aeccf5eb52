//! Promotions: how they are cleaned up and what makes one acceptable.
use vstd::prelude::*;
use crate::text::{
    chars_of, contains_char, join_strings, join_with, opt_seq, push_str, str_eq, to_owned_string, trim,
    trim_str, unicode_upper, views,
};
use crate::normalize::normalize_upper_trim;

verus! {

/// A promotion as entered. The discount value itself is a decimal number;
/// `valor_no_positivo` is `!valor.is_finite() || valor <= 0.0` and
/// `valor_sobre_cien` is `valor > 100.0`.
#[derive(Debug)]
pub struct PromocionRevision {
    pub id: String,
    pub nombre: String,
    pub tipo_descuento: String,
    pub valor_no_positivo: bool,
    pub valor_sobre_cien: bool,
    pub fecha_inicio: String,
    pub fecha_fin: String,
    pub activo: bool,
    pub producto_id: Option<String>,
    pub categoria_id: Option<String>,
    pub marca: Option<String>,
    pub sucursal_ids: Vec<String>,
}

/// The trimmed text, absent when nothing is left.
pub open spec fn trimmed_opt(v: Option<Seq<char>>) -> Option<Seq<char>> {
    match v {
        Some(s) => if trim(s).len() > 0 { Some(trim(s)) } else { None },
        None => None,
    }
}

/// The trimmed branch ids that are not empty.
pub open spec fn clean_ids(ids: Seq<Seq<char>>) -> Seq<Seq<char>> {
    ids.map_values(|s: Seq<char>| trim(s)).filter(|s: Seq<char>| s.len() > 0)
}

fn trimmed_option(v: &Option<String>) -> (r: Option<String>)
    ensures
        opt_seq(r) == trimmed_opt(opt_seq(*v)),
{
    match v {
        Some(s) => {
            let t = trim_str(s.as_str());
            if t.as_str().is_empty() {
                None
            } else {
                Some(t)
            }
        },
        None => None,
    }
}

fn clean_id_list(ids: &Vec<String>) -> (r: Vec<String>)
    ensures
        views(r@) == clean_ids(views(ids@)),
{
    let mut out: Vec<String> = Vec::new();
    let mut i: usize = 0;
    proof {
        reveal_with_fuel(Seq::filter, 1);
        assert(clean_ids(views(ids@.take(0))) =~= Seq::<Seq<char>>::empty());
    }
    while i < ids.len()
        invariant
            i <= ids@.len(),
            views(out@) == clean_ids(views(ids@.take(i as int))),
        decreases ids@.len() - i,
    {
        let t = trim_str(ids[i].as_str());
        let ghost prev = views(ids@.take(i as int));
        proof {
            reveal_with_fuel(Seq::filter, 1);
            let cur = views(ids@.take(i + 1));
            assert(cur =~= prev.push(ids@[i as int]@));
            assert(cur.map_values(|s: Seq<char>| trim(s)) =~= prev.map_values(|s: Seq<char>| trim(s)).push(t@));
            assert(cur.map_values(|s: Seq<char>| trim(s)).drop_last() =~= prev.map_values(|s: Seq<char>| trim(s)));
        }
        if !t.as_str().is_empty() {
            out.push(t);
            assert(views(out@) =~= clean_ids(prev).push(t@));
        }
        i = i + 1;
    }
    assert(ids@.take(ids@.len() as int) =~= ids@);
    out
}

/// Trims every text of a promotion, upper-cases its discount type, drops
/// empty targets and empty branch ids.
pub fn normalize_promocion_input(input: PromocionRevision) -> (r: PromocionRevision)
    ensures
        r.id@ == trim(input.id@),
        r.nombre@ == trim(input.nombre@),
        r.tipo_descuento@ == unicode_upper(trim(input.tipo_descuento@)),
        r.valor_no_positivo == input.valor_no_positivo,
        r.valor_sobre_cien == input.valor_sobre_cien,
        r.fecha_inicio@ == trim(input.fecha_inicio@),
        r.fecha_fin@ == trim(input.fecha_fin@),
        r.activo == input.activo,
        opt_seq(r.producto_id) == trimmed_opt(opt_seq(input.producto_id)),
        opt_seq(r.categoria_id) == trimmed_opt(opt_seq(input.categoria_id)),
        opt_seq(r.marca) == trimmed_opt(opt_seq(input.marca)),
        views(r.sucursal_ids@) == clean_ids(views(input.sucursal_ids@)),
{
    PromocionRevision {
        id: trim_str(input.id.as_str()),
        nombre: trim_str(input.nombre.as_str()),
        tipo_descuento: normalize_upper_trim(input.tipo_descuento.as_str()),
        valor_no_positivo: input.valor_no_positivo,
        valor_sobre_cien: input.valor_sobre_cien,
        fecha_inicio: trim_str(input.fecha_inicio.as_str()),
        fecha_fin: trim_str(input.fecha_fin.as_str()),
        activo: input.activo,
        producto_id: trimmed_option(&input.producto_id),
        categoria_id: trimmed_option(&input.categoria_id),
        marca: trimmed_option(&input.marca),
        sucursal_ids: clean_id_list(&input.sucursal_ids),
    }
}

/// `a < b` in the order of `String` (code point by code point).
pub open spec fn text_lt(a: Seq<char>, b: Seq<char>) -> bool
    decreases a.len(),
{
    if a.len() == 0 {
        b.len() > 0
    } else if b.len() == 0 {
        false
    } else if a[0] != b[0] {
        (a[0] as u32) < (b[0] as u32)
    } else {
        text_lt(a.drop_first(), b.drop_first())
    }
}

pub fn str_lt(a: &str, b: &str) -> (r: bool)
    ensures
        r == text_lt(a@, b@),
{
    let va = chars_of(a);
    let vb = chars_of(b);
    let mut i: usize = 0;
    assert(va@.subrange(0, va@.len() as int) =~= va@);
    assert(vb@.subrange(0, vb@.len() as int) =~= vb@);
    loop
        invariant
            i <= va.len(),
            i <= vb.len(),
            va@ == a@,
            vb@ == b@,
            text_lt(a@, b@) == text_lt(
                va@.subrange(i as int, va@.len() as int),
                vb@.subrange(i as int, vb@.len() as int),
            ),
        decreases va.len() - i,
    {
        let ghost sa = va@.subrange(i as int, va@.len() as int);
        let ghost sb = vb@.subrange(i as int, vb@.len() as int);
        if i == va.len() {
            return i < vb.len();
        }
        if i == vb.len() {
            return false;
        }
        let ca = va[i];
        let cb = vb[i];
        assert(sa[0] == ca && sb[0] == cb);
        if ca != cb {
            return (ca as u32) < (cb as u32);
        }
        assert(sa.drop_first() =~= va@.subrange(i + 1, va@.len() as int));
        assert(sb.drop_first() =~= vb@.subrange(i + 1, vb@.len() as int));
        i = i + 1;
    }
}

/// How many of the three targets a promotion names.
pub open spec fn target_count(p: PromocionRevision) -> int {
    (if p.producto_id is Some { 1int } else { 0int }) + (if p.categoria_id is Some {
        1int
    } else {
        0int
    }) + (if p.marca is Some { 1int } else { 0int })
}

pub open spec fn promocion_check(p: PromocionRevision) -> Option<Seq<char>> {
    if p.id@.len() == 0 || p.nombre@.len() == 0 {
        Some("La promoción necesita identificador y nombre."@)
    } else if !(p.tipo_descuento@ == "PORCENTAJE"@ || p.tipo_descuento@ == "MONTO_FIJO"@) {
        Some("El tipo de descuento debe ser PORCENTAJE o MONTO_FIJO."@)
    } else if p.valor_no_positivo {
        Some("El valor del descuento debe ser mayor que cero."@)
    } else if p.tipo_descuento@ == "PORCENTAJE"@ && p.valor_sobre_cien {
        Some("El porcentaje de descuento no puede ser mayor a 100%."@)
    } else if p.fecha_inicio@.len() == 0 || p.fecha_fin@.len() == 0 {
        Some("La promoción necesita fecha de inicio y fecha fin."@)
    } else if !p.fecha_inicio@.contains('T') || !p.fecha_fin@.contains('T') {
        Some("Las fechas de la promoción deben incluir fecha y hora."@)
    } else if !text_lt(p.fecha_inicio@, p.fecha_fin@) {
        Some("La fecha fin de la promoción debe ser posterior a la fecha de inicio."@)
    } else if target_count(p) == 0 {
        Some("Selecciona un producto, una categoría o una marca para la promoción."@)
    } else if target_count(p) > 1 {
        Some(
            "La promoción debe aplicar a producto, categoría o marca, pero solo a uno a la vez."@,
        )
    } else if p.sucursal_ids@.len() == 0 {
        Some("Selecciona al menos una sucursal para la promoción."@)
    } else {
        None
    }
}

/// Checks a promotion that has been normalised.
pub fn validate_promocion_input(input: &PromocionRevision) -> (r: Result<(), String>)
    ensures
        crate::error::command_outcome(r, promocion_check(*input)),
{
    if input.id.as_str().is_empty() || input.nombre.as_str().is_empty() {
        return Err(to_owned_string("La promoción necesita identificador y nombre."));
    }
    let tipo = input.tipo_descuento.as_str();
    if !(str_eq(tipo, "PORCENTAJE") || str_eq(tipo, "MONTO_FIJO")) {
        return Err(to_owned_string("El tipo de descuento debe ser PORCENTAJE o MONTO_FIJO."));
    }
    if input.valor_no_positivo {
        return Err(to_owned_string("El valor del descuento debe ser mayor que cero."));
    }
    if str_eq(tipo, "PORCENTAJE") && input.valor_sobre_cien {
        return Err(to_owned_string("El porcentaje de descuento no puede ser mayor a 100%."));
    }
    if input.fecha_inicio.as_str().is_empty() || input.fecha_fin.as_str().is_empty() {
        return Err(to_owned_string("La promoción necesita fecha de inicio y fecha fin."));
    }
    if !contains_char(input.fecha_inicio.as_str(), 'T') || !contains_char(
        input.fecha_fin.as_str(),
        'T',
    ) {
        return Err(to_owned_string("Las fechas de la promoción deben incluir fecha y hora."));
    }
    if !str_lt(input.fecha_inicio.as_str(), input.fecha_fin.as_str()) {
        return Err(
            to_owned_string(
                "La fecha fin de la promoción debe ser posterior a la fecha de inicio.",
            ),
        );
    }
    let has_producto = input.producto_id.is_some();
    let has_categoria = input.categoria_id.is_some();
    let has_marca = input.marca.is_some();
    if !has_producto && !has_categoria && !has_marca {
        return Err(
            to_owned_string("Selecciona un producto, una categoría o una marca para la promoción."),
        );
    }
    let active: u8 = (if has_producto { 1u8 } else { 0u8 }) + (if has_categoria { 1u8 } else { 0u8 })
        + (if has_marca { 1u8 } else { 0u8 });
    if active > 1 {
        return Err(
            to_owned_string(
                "La promoción debe aplicar a producto, categoría o marca, pero solo a uno a la vez.",
            ),
        );
    }
    if input.sucursal_ids.len() == 0 {
        return Err(to_owned_string("Selecciona al menos una sucursal para la promoción."));
    }
    Ok(())
}

/// A promotion that passes validation applies to exactly one target and at
/// least one branch, and ends after it starts.
pub proof fn law_valid_promotion_shape(p: PromocionRevision)
    requires
        promocion_check(p) is None,
    ensures
        target_count(p) == 1,
        p.sucursal_ids@.len() > 0,
        text_lt(p.fecha_inicio@, p.fecha_fin@),
{
}

// ---------------------------------------------------------------------------
// Selling below cost
// ---------------------------------------------------------------------------

/// The column a promotion's target is matched on, and the value it is
/// matched against: the product if one is named, else the category, else the
/// brand (empty when none is named).
pub open spec fn objetivo_promocion(p: PromocionRevision) -> (Seq<char>, Seq<char>) {
    match p.producto_id {
        Some(x) => ("p.id = ?"@, x@),
        None => match p.categoria_id {
            Some(c) => ("p.categoria = ?"@, c@),
            None => (
                "p.marca = ?"@,
                match p.marca {
                    Some(m) => m@,
                    None => Seq::empty(),
                },
            ),
        },
    }
}

/// The condition selecting the stocked products a promotion reaches at its
/// branches: one placeholder per branch, then the target.
pub open spec fn condicion_sin_perdida(p: PromocionRevision, n: nat) -> Seq<char> {
    "i.sucursal_id IN ("@ + join_with(Seq::new(n, |k: int| "?"@), ", "@) + ") AND "@
        + objetivo_promocion(p).0
}

/// The condition, and the values of its placeholders in order, that select
/// every product priced at `sucursal_ids` that the promotion would discount,
/// so that each can be checked against its cost.
pub fn consulta_sin_perdida(input: &PromocionRevision, sucursal_ids: &[String]) -> (r: (String, Vec<String>))
    ensures
        r.0@ == condicion_sin_perdida(*input, sucursal_ids@.len()),
        views(r.1@) == views(sucursal_ids@).push(objetivo_promocion(*input).1),
{
    let n = sucursal_ids.len();
    let mut marks: Vec<String> = Vec::new();
    let mut params: Vec<String> = Vec::new();
    let mut k: usize = 0;
    while k < n
        invariant
            k <= n,
            n == sucursal_ids@.len(),
            marks@.len() == k,
            forall|j: int| 0 <= j < k ==> marks@[j]@ == "?"@,
            views(params@) == views(sucursal_ids@.take(k as int)),
        decreases n - k,
    {
        marks.push(to_owned_string("?"));
        let ghost before = views(params@);
        params.push(to_owned_string(sucursal_ids[k].as_str()));
        assert(views(sucursal_ids@.take(k + 1)) =~= before.push(sucursal_ids@[k as int]@));
        assert(views(params@) =~= before.push(sucursal_ids@[k as int]@));
        k = k + 1;
    }
    assert(views(marks@) =~= Seq::new(n as nat, |j: int| "?"@));
    assert(sucursal_ids@.take(n as int) =~= sucursal_ids@);
    let mut sql = to_owned_string("i.sucursal_id IN (");
    let joined = join_strings(&marks, ", ");
    push_str(&mut sql, joined.as_str());
    push_str(&mut sql, ") AND ");
    let objetivo = match &input.producto_id {
        Some(x) => {
            push_str(&mut sql, "p.id = ?");
            to_owned_string(x.as_str())
        },
        None => match &input.categoria_id {
            Some(c) => {
                push_str(&mut sql, "p.categoria = ?");
                to_owned_string(c.as_str())
            },
            None => {
                push_str(&mut sql, "p.marca = ?");
                match &input.marca {
                    Some(m) => to_owned_string(m.as_str()),
                    None => String::new(),
                }
            },
        },
    };
    let ghost before = views(params@);
    params.push(objetivo);
    assert(views(params@) =~= before.push(objetivo_promocion(*input).1));
    (sql, params)
}

/// A promotion must reach at least one stocked product at its branches.
pub fn check_promocion_con_productos(revisados: usize) -> (r: Result<(), String>)
    ensures
        crate::error::command_outcome(
            r,
            if revisados == 0 {
                Some("La promoción no coincide con productos activos en las sucursales seleccionadas."@)
            } else {
                None
            },
        ),
{
    if revisados == 0 {
        return Err(
            to_owned_string("La promoción no coincide con productos activos en las sucursales seleccionadas."),
        );
    }
    Ok(())
}

/// The products checked for selling below cost are those of the promotion's
/// one target: after a promotion passes validation, the value matched is the
/// product, category or brand it names, on the matching column.
pub proof fn law_cost_check_follows_target(p: PromocionRevision)
    requires
        promocion_check(p) is None,
    ensures
        p.producto_id matches Some(x) ==> objetivo_promocion(p) == ("p.id = ?"@, x@),
        p.categoria_id matches Some(c) ==> objetivo_promocion(p) == ("p.categoria = ?"@, c@),
        p.marca matches Some(m) ==> objetivo_promocion(p) == ("p.marca = ?"@, m@),
{
}

} // verus!
