//! The listings shown to users: the conditions each listing is filtered by,
//! the values those conditions take, and the page that is read.
use vstd::prelude::*;
use crate::auth::{read_scope, scoped_sucursal_for_read, superadmin_role};
use crate::model::{DashboardFiltroInput, HistorialVentasFiltro, Usuario};
use crate::normalize::{filter_value, normalize_filter};
use crate::sync::occurs_in;
use crate::text::{
    ascii_upper_seq, i64_to_decimal, int_decimal, join_strings, join_with, opt_seq, push_str,
    to_ascii_uppercase, to_owned_string, to_uppercase, trim, trim_str, unicode_upper, views,
};

verus! {

/// The conditions of a listing (`WHERE ...`, or nothing) and the values of
/// its placeholders, in order.
pub struct FiltroConsulta {
    pub where_sql: String,
    pub params: Vec<String>,
}

// ---------------------------------------------------------------------------
// Pages
// ---------------------------------------------------------------------------

/// The page read: `page_size` rows after `page * page_size` rows, the page
/// no lower than 0 and its size within 10..=100.
pub open spec fn page_window(page: i64, page_size: i64) -> (int, int) {
    let p = if page < 0 {
        0
    } else {
        page as int
    };
    let s = if page_size < 10 {
        10
    } else if page_size > 100 {
        100
    } else {
        page_size as int
    };
    (s, p * s)
}

/// The `LIMIT` and `OFFSET` values of a page, as text. A page whose offset
/// does not fit in `i64` is out of range.
pub fn ventana_pagina(page: i64, page_size: i64) -> (r: (String, String))
    requires
        page_window(page, page_size).1 <= i64::MAX,
    ensures
        r.0@ == int_decimal(page_window(page, page_size).0),
        r.1@ == int_decimal(page_window(page, page_size).1),
{
    let (p, s) = crate::normalize::normalize_page_args(page, page_size);
    assert(p * s == page_window(page, page_size).1) by (nonlinear_arith)
        requires
            p == (if page < 0 { 0 } else { page as int }),
            s == page_window(page, page_size).0,
            page_window(page, page_size).1 == (if page < 0 { 0 } else { page as int }) * page_window(page, page_size).0,
    ;
    let offset = p * s;
    (i64_to_decimal(s), i64_to_decimal(offset))
}

// ---------------------------------------------------------------------------
// Sales history
// ---------------------------------------------------------------------------

pub open spec fn campo(o: Option<String>) -> Option<Seq<char>> {
    filter_value(opt_seq(o))
}

pub open spec fn sql_si(cond: bool, sql: Seq<char>) -> Seq<char> {
    if cond {
        sql
    } else {
        Seq::empty()
    }
}

pub open spec fn param_si(v: Option<Seq<char>>) -> Seq<Seq<char>> {
    match v {
        Some(x) => seq![x],
        None => Seq::empty(),
    }
}

/// The filters of the sales history, each trimmed and absent when blank;
/// the branch is the one the user may read.
pub open spec fn ventas_campos(user: Usuario, f: Option<HistorialVentasFiltro>) -> (
    Option<Seq<char>>,
    Option<Seq<char>>,
    Option<Seq<char>>,
    Option<Seq<char>>,
    Option<Seq<char>>,
    Option<Seq<char>>,
) {
    match f {
        Some(x) => (
            campo(x.fecha_inicio),
            campo(x.fecha_fin),
            read_scope(user, campo(x.sucursal_id)),
            campo(x.usuario_id),
            campo(x.folio),
            campo(x.estado),
        ),
        None => (None, None, read_scope(user, None), None, None, None),
    }
}

/// The conditions of the sales history: the date range (from the start of
/// the calendar to its end when not given), then the branch, the user, the
/// folio (when the listing searches by it) and the state.
pub open spec fn ventas_where(user: Usuario, f: Option<HistorialVentasFiltro>, con_folio: bool) -> Seq<char> {
    let (fi, ff, sid, uid, folio, estado) = ventas_campos(user, f);
    " WHERE v.fecha >= ? AND v.fecha <= ?"@ + sql_si(sid is Some, " AND v.sucursal_id = ?"@) + sql_si(
        uid is Some,
        " AND v.usuario_id = ?"@,
    ) + sql_si(con_folio && folio is Some, " AND v.id LIKE ? COLLATE NOCASE"@) + sql_si(
        estado is Some,
        " AND v.estado = ?"@,
    )
}

/// The values of those conditions: the folio as a pattern found anywhere in
/// the sale's identifier, the state in upper case.
pub open spec fn ventas_params(user: Usuario, f: Option<HistorialVentasFiltro>, con_folio: bool) -> Seq<Seq<char>> {
    let (fi, ff, sid, uid, folio, estado) = ventas_campos(user, f);
    seq![
        match fi {
            Some(x) => x,
            None => "0001-01-01T00:00:00.000Z"@,
        },
        match ff {
            Some(x) => x,
            None => "9999-12-31T23:59:59.999Z"@,
        },
    ] + param_si(sid) + param_si(uid) + (if con_folio {
        param_si(
            match folio {
                Some(x) => Some("%"@ + trim(x) + "%"@),
                None => None,
            },
        )
    } else {
        Seq::empty()
    }) + param_si(
        match estado {
            Some(x) => Some(ascii_upper_seq(x)),
            None => None,
        },
    )
}

fn field_of(f: Option<&HistorialVentasFiltro>, k: u8) -> (r: Option<String>)
    ensures
        opt_seq(r) == match f {
            Some(x) => campo(
                if k == 0 {
                    x.fecha_inicio
                } else if k == 1 {
                    x.fecha_fin
                } else if k == 2 {
                    x.sucursal_id
                } else if k == 3 {
                    x.usuario_id
                } else if k == 4 {
                    x.folio
                } else {
                    x.estado
                },
            ),
            None => None,
        },
{
    match f {
        Some(x) => {
            if k == 0 {
                normalize_filter(&x.fecha_inicio)
            } else if k == 1 {
                normalize_filter(&x.fecha_fin)
            } else if k == 2 {
                normalize_filter(&x.sucursal_id)
            } else if k == 3 {
                normalize_filter(&x.usuario_id)
            } else if k == 4 {
                normalize_filter(&x.folio)
            } else {
                normalize_filter(&x.estado)
            }
        },
        None => None,
    }
}

/// The filter of the sales history for a user (see `ventas_where` and
/// `ventas_params`).
pub fn filtro_historial_ventas(user: &Usuario, filtro: Option<&HistorialVentasFiltro>, con_folio: bool) -> (r:
    FiltroConsulta)
    ensures
        r.where_sql@ == ventas_where(
            *user,
            match filtro {
                Some(x) => Some(*x),
                None => None,
            },
            con_folio,
        ),
        views(r.params@) == ventas_params(
            *user,
            match filtro {
                Some(x) => Some(*x),
                None => None,
            },
            con_folio,
        ),
{
    let ghost f = match filtro {
        Some(x) => Some(*x),
        None => None,
    };
    let fi = field_of(filtro, 0);
    let ff = field_of(filtro, 1);
    let sid = scoped_sucursal_for_read(user, field_of(filtro, 2));
    let uid = field_of(filtro, 3);
    let folio = field_of(filtro, 4);
    let estado = field_of(filtro, 5);
    let ghost (sfi, sff, ssid, suid, sfolio, sestado) = ventas_campos(*user, f);
    assert(opt_seq(fi) == sfi && opt_seq(ff) == sff && opt_seq(sid) == ssid);
    assert(opt_seq(uid) == suid && opt_seq(folio) == sfolio && opt_seq(estado) == sestado);
    let mut where_sql = to_owned_string(" WHERE v.fecha >= ? AND v.fecha <= ?");
    let mut params: Vec<String> = Vec::new();
    params.push(
        match fi {
            Some(x) => x,
            None => to_owned_string("0001-01-01T00:00:00.000Z"),
        },
    );
    params.push(
        match ff {
            Some(x) => x,
            None => to_owned_string("9999-12-31T23:59:59.999Z"),
        },
    );
    let ghost p0 = views(params@);
    match sid {
        Some(v) => {
            push_str(&mut where_sql, " AND v.sucursal_id = ?");
            params.push(v);
        },
        None => {},
    }
    assert(views(params@) =~= p0 + param_si(ssid));
    let ghost p1 = views(params@);
    match uid {
        Some(v) => {
            push_str(&mut where_sql, " AND v.usuario_id = ?");
            params.push(v);
        },
        None => {},
    }
    assert(views(params@) =~= p1 + param_si(suid));
    let ghost p2 = views(params@);
    if con_folio {
        match folio {
            Some(v) => {
                push_str(&mut where_sql, " AND v.id LIKE ? COLLATE NOCASE");
                let mut pattern = to_owned_string("%");
                let t = trim_str(v.as_str());
                push_str(&mut pattern, t.as_str());
                push_str(&mut pattern, "%");
                params.push(pattern);
            },
            None => {},
        }
    }
    let ghost folio_param: Seq<Seq<char>> = if con_folio {
        param_si(
            match sfolio {
                Some(x) => Some("%"@ + trim(x) + "%"@),
                None => None,
            },
        )
    } else {
        Seq::empty()
    };
    assert(views(params@) =~= p2 + folio_param);
    let ghost p3 = views(params@);
    match estado {
        Some(v) => {
            push_str(&mut where_sql, " AND v.estado = ?");
            params.push(to_ascii_uppercase(v.as_str()));
        },
        None => {},
    }
    assert(views(params@) =~= p3 + param_si(
        match sestado {
            Some(x) => Some(ascii_upper_seq(x)),
            None => None,
        },
    ));
    assert(p0 =~= seq![
        match sfi {
            Some(x) => x,
            None => "0001-01-01T00:00:00.000Z"@,
        },
        match sff {
            Some(x) => x,
            None => "9999-12-31T23:59:59.999Z"@,
        },
    ]);
    FiltroConsulta { where_sql, params }
}

// ---------------------------------------------------------------------------
// Transfers, adjustments and invoices
// ---------------------------------------------------------------------------

/// The transfer history: those leaving or reaching the user's branch (every
/// transfer for a superadmin), and of the given state when one is given
/// (trimmed and upper-cased).
pub open spec fn traspasos_condiciones(user: Usuario, estado: Option<Seq<char>>) -> Seq<Seq<char>> {
    (match read_scope(user, None) {
        Some(s) => seq!["(t.sucursal_origen_id = ? OR t.sucursal_destino_id = ?)"@],
        None => Seq::empty(),
    }) + (match estado {
        Some(e) => if unicode_upper(trim(e)).len() > 0 {
            seq!["t.estado = ?"@]
        } else {
            Seq::empty()
        },
        None => Seq::empty(),
    })
}

pub open spec fn traspasos_params(user: Usuario, estado: Option<Seq<char>>) -> Seq<Seq<char>> {
    (match read_scope(user, None) {
        Some(s) => seq![s, s],
        None => Seq::empty(),
    }) + (match estado {
        Some(e) => if unicode_upper(trim(e)).len() > 0 {
            seq![unicode_upper(trim(e))]
        } else {
            Seq::empty()
        },
        None => Seq::empty(),
    })
}

pub open spec fn where_de(condiciones: Seq<Seq<char>>) -> Seq<char> {
    if condiciones.len() == 0 {
        Seq::empty()
    } else {
        " WHERE "@ + join_with(condiciones, " AND "@)
    }
}

pub fn filtro_historial_traspasos(user: &Usuario, estado: Option<String>) -> (r: FiltroConsulta)
    ensures
        r.where_sql@ == where_de(traspasos_condiciones(*user, opt_seq(estado))),
        views(r.params@) == traspasos_params(*user, opt_seq(estado)),
{
    let ghost e = opt_seq(estado);
    let sucursal = scoped_sucursal_for_read(user, None);
    let mut condiciones: Vec<String> = Vec::new();
    let mut params: Vec<String> = Vec::new();
    match sucursal {
        Some(v) => {
            condiciones.push(to_owned_string("(t.sucursal_origen_id = ? OR t.sucursal_destino_id = ?)"));
            params.push(to_owned_string(v.as_str()));
            params.push(v);
        },
        None => {},
    }
    let ghost c0 = views(condiciones@);
    let ghost q0 = views(params@);
    match estado {
        Some(value) => {
            let t = trim_str(value.as_str());
            let up = to_uppercase(t.as_str());
            if !up.as_str().is_empty() {
                condiciones.push(to_owned_string("t.estado = ?"));
                params.push(up);
            }
        },
        None => {},
    }
    assert(views(condiciones@) =~= traspasos_condiciones(*user, e));
    assert(views(params@) =~= traspasos_params(*user, e));
    let where_sql = if condiciones.len() == 0 {
        String::new()
    } else {
        let mut w = to_owned_string(" WHERE ");
        let joined = join_strings(&condiciones, " AND ");
        push_str(&mut w, joined.as_str());
        w
    };
    FiltroConsulta { where_sql, params }
}

/// A listing filtered only by branch: the rows of the user's branch (all
/// rows for a superadmin), compared on the given column.
pub open spec fn sucursal_where(user: Usuario, columna: Seq<char>) -> Seq<char> {
    match read_scope(user, None) {
        Some(s) => " WHERE "@ + columna + " = ?"@,
        None => Seq::empty(),
    }
}

pub fn filtro_por_sucursal(user: &Usuario, columna: &str) -> (r: FiltroConsulta)
    ensures
        r.where_sql@ == sucursal_where(*user, columna@),
        views(r.params@) == param_si(read_scope(*user, None)),
{
    let mut params: Vec<String> = Vec::new();
    match scoped_sucursal_for_read(user, None) {
        Some(v) => {
            let mut w = to_owned_string(" WHERE ");
            push_str(&mut w, columna);
            push_str(&mut w, " = ?");
            params.push(v);
            assert(views(params@) =~= param_si(read_scope(*user, None)));
            FiltroConsulta { where_sql: w, params }
        },
        None => {
            assert(views(params@) =~= param_si(read_scope(*user, None)));
            FiltroConsulta { where_sql: String::new(), params }
        },
    }
}

// ---------------------------------------------------------------------------
// Dashboard
// ---------------------------------------------------------------------------

/// What the dashboard adds up: today's completed sales, or those within a
/// range of dates (from the start of the calendar to its end when a bound
/// is missing); of one branch, or of every branch when the branch is empty
/// or not given.
pub enum ConsultaDashboard {
    HoyTodas,
    HoySucursal(String),
    RangoTodas { desde: String, hasta: String },
    RangoSucursal { sucursal: String, desde: String, hasta: String },
}

pub open spec fn dashboard_campo(f: Option<DashboardFiltroInput>, k: int) -> Option<Seq<char>> {
    match f {
        Some(x) => campo(
            if k == 0 {
                x.sucursal_id
            } else if k == 1 {
                x.fecha_inicio
            } else {
                x.fecha_fin
            },
        ),
        None => None,
    }
}

pub open spec fn dashboard_correcto(user: Usuario, f: Option<DashboardFiltroInput>, r: ConsultaDashboard) -> bool {
    let sid = read_scope(user, dashboard_campo(f, 0));
    let fi = dashboard_campo(f, 1);
    let ff = dashboard_campo(f, 2);
    if fi is None && ff is None {
        match sid {
            None => r is HoyTodas,
            Some(s) => r matches ConsultaDashboard::HoySucursal(x) && x@ == s,
        }
    } else {
        let desde = match fi {
            Some(x) => x,
            None => "0001-01-01T00:00:00.000Z"@,
        };
        let hasta = match ff {
            Some(x) => x,
            None => "9999-12-31T23:59:59.999Z"@,
        };
        match sid {
            Some(s) => if s.len() > 0 {
                r matches ConsultaDashboard::RangoSucursal { sucursal, desde: d, hasta: h } && sucursal@ == s
                    && d@ == desde && h@ == hasta
            } else {
                r matches ConsultaDashboard::RangoTodas { desde: d, hasta: h } && d@ == desde && h@ == hasta
            },
            None => r matches ConsultaDashboard::RangoTodas { desde: d, hasta: h } && d@ == desde && h@
                == hasta,
        }
    }
}

fn dashboard_field(f: Option<&DashboardFiltroInput>, k: u8) -> (r: Option<String>)
    ensures
        opt_seq(r) == dashboard_campo(
            match f {
                Some(x) => Some(*x),
                None => None,
            },
            k as int,
        ),
{
    match f {
        Some(x) => {
            if k == 0 {
                normalize_filter(&x.sucursal_id)
            } else if k == 1 {
                normalize_filter(&x.fecha_inicio)
            } else {
                normalize_filter(&x.fecha_fin)
            }
        },
        None => None,
    }
}

pub fn consulta_dashboard(user: &Usuario, filtro: Option<&DashboardFiltroInput>) -> (r: ConsultaDashboard)
    ensures
        dashboard_correcto(
            *user,
            match filtro {
                Some(x) => Some(*x),
                None => None,
            },
            r,
        ),
{
    let sid = scoped_sucursal_for_read(user, dashboard_field(filtro, 0));
    let fi = dashboard_field(filtro, 1);
    let ff = dashboard_field(filtro, 2);
    if fi.is_none() && ff.is_none() {
        return match sid {
            None => ConsultaDashboard::HoyTodas,
            Some(s) => ConsultaDashboard::HoySucursal(s),
        };
    }
    let desde = match fi {
        Some(x) => x,
        None => to_owned_string("0001-01-01T00:00:00.000Z"),
    };
    let hasta = match ff {
        Some(x) => x,
        None => to_owned_string("9999-12-31T23:59:59.999Z"),
    };
    match sid {
        Some(s) => {
            if s.as_str().is_empty() {
                ConsultaDashboard::RangoTodas { desde, hasta }
            } else {
                ConsultaDashboard::RangoSucursal { sucursal: s, desde, hasta }
            }
        },
        None => ConsultaDashboard::RangoTodas { desde, hasta },
    }
}


// ---------------------------------------------------------------------------
// Product searches
// ---------------------------------------------------------------------------

/// The patterns a product search is made with: the query trimmed, to match a
/// code exactly; the query followed by anything, to match a code or name
/// that starts with it; and the query anywhere, to match inside a
/// description. A blank query searches for nothing (or lists everything,
/// where the listing allows it).
pub struct PatronesBusqueda {
    pub exacto: String,
    pub prefijo: String,
    pub contiene: String,
}

pub open spec fn patrones_correctos(query: Seq<char>, r: Option<PatronesBusqueda>) -> bool {
    if trim(query).len() == 0 {
        r is None
    } else {
        r matches Some(p) && p.exacto@ == trim(query) && p.prefijo@ == trim(query) + "%"@ && p.contiene@
            == "%"@ + trim(query) + "%"@
    }
}

pub fn patrones_busqueda(query: &str) -> (r: Option<PatronesBusqueda>)
    ensures
        patrones_correctos(query@, r),
{
    let exacto = trim_str(query);
    if exacto.as_str().is_empty() {
        return None;
    }
    let mut prefijo = to_owned_string(exacto.as_str());
    push_str(&mut prefijo, "%");
    let mut contiene = to_owned_string("%");
    push_str(&mut contiene, exacto.as_str());
    push_str(&mut contiene, "%");
    Some(PatronesBusqueda { exacto, prefijo, contiene })
}


// ---------------------------------------------------------------------------
// Notifications
// ---------------------------------------------------------------------------

/// The condition that keeps a branch user to the notifications of their
/// branch: about the branch itself, keyed by it, about one of its cash
/// register sessions, or about an invoice of one of its sales.
pub open spec fn notificaciones_de_sucursal() -> Seq<char> {
    " AND ((entidad_tipo = 'sucursal' AND entidad_id = ?1) OR event_key LIKE ?2 OR (entidad_tipo = 'caja_sesion' AND entidad_id IN (SELECT id FROM cajas_sesiones WHERE sucursal_id = ?3)) OR (entidad_tipo = 'factura' AND entidad_id IN (SELECT fe.id FROM facturas_emitidas fe INNER JOIN ventas v ON v.id = fe.venta_id WHERE v.sucursal_id = ?4)))"@
}

/// The conditions of the notification list: only unread ones when asked,
/// and for a user who is not a superadmin, only those of their branch.
pub open spec fn notificaciones_where(user: Usuario, solo_no_leidas: Option<bool>) -> Seq<char> {
    " WHERE 1 = 1"@ + sql_si(solo_no_leidas == Some(true), " AND leida = 0"@) + sql_si(
        !superadmin_role(user.role@),
        notificaciones_de_sucursal(),
    )
}

pub open spec fn notificaciones_params(user: Usuario) -> Seq<Seq<char>> {
    if superadmin_role(user.role@) {
        Seq::empty()
    } else {
        seq![user.sucursal_id@, "%:"@ + user.sucursal_id@, user.sucursal_id@, user.sucursal_id@]
    }
}

pub fn filtro_notificaciones(user: &Usuario, solo_no_leidas: Option<bool>) -> (r: FiltroConsulta)
    ensures
        r.where_sql@ == notificaciones_where(*user, solo_no_leidas),
        views(r.params@) == notificaciones_params(*user),
{
    let mut where_sql = to_owned_string(" WHERE 1 = 1");
    let solo = match solo_no_leidas {
        Some(b) => b,
        None => false,
    };
    if solo {
        push_str(&mut where_sql, " AND leida = 0");
    }
    let mut params: Vec<String> = Vec::new();
    if !crate::auth::is_superadmin(user) {
        push_str(
            &mut where_sql,
            " AND ((entidad_tipo = 'sucursal' AND entidad_id = ?1) OR event_key LIKE ?2 OR (entidad_tipo = 'caja_sesion' AND entidad_id IN (SELECT id FROM cajas_sesiones WHERE sucursal_id = ?3)) OR (entidad_tipo = 'factura' AND entidad_id IN (SELECT fe.id FROM facturas_emitidas fe INNER JOIN ventas v ON v.id = fe.venta_id WHERE v.sucursal_id = ?4)))",
        );
        let s = user.sucursal_id.as_str();
        params.push(to_owned_string(s));
        let mut pattern = to_owned_string("%:");
        push_str(&mut pattern, s);
        params.push(pattern);
        params.push(to_owned_string(s));
        params.push(to_owned_string(s));
    }
    assert(views(params@) =~= notificaciones_params(*user));
    FiltroConsulta { where_sql, params }
}


// ---------------------------------------------------------------------------
// Indicators
// ---------------------------------------------------------------------------

/// What the indicators are computed over: the branch the user may read (all
/// branches when nothing is returned), and the range of dates, from the
/// start of the calendar to its end when a bound is missing.
pub fn alcance_indicadores(user: &Usuario, filtro: Option<&DashboardFiltroInput>) -> (r: (Option<String>, String, String))
    ensures
        opt_seq(r.0) == read_scope(
            *user,
            dashboard_campo(
                match filtro {
                    Some(x) => Some(*x),
                    None => None,
                },
                0,
            ),
        ),
        r.1@ == match dashboard_campo(
            match filtro {
                Some(x) => Some(*x),
                None => None,
            },
            1,
        ) {
            Some(x) => x,
            None => "0001-01-01T00:00:00.000Z"@,
        },
        r.2@ == match dashboard_campo(
            match filtro {
                Some(x) => Some(*x),
                None => None,
            },
            2,
        ) {
            Some(x) => x,
            None => "9999-12-31T23:59:59.999Z"@,
        },
{
    let sucursal = scoped_sucursal_for_read(user, dashboard_field(filtro, 0));
    let desde = match dashboard_field(filtro, 1) {
        Some(x) => x,
        None => to_owned_string("0001-01-01T00:00:00.000Z"),
    };
    let hasta = match dashboard_field(filtro, 2) {
        Some(x) => x,
        None => to_owned_string("9999-12-31T23:59:59.999Z"),
    };
    (sucursal, desde, hasta)
}


/// A statement and the values of its placeholders, in order.
pub struct Sentencia {
    pub sql: String,
    pub params: Vec<String>,
}

/// Marking every unread notification as read: all of them for a
/// superadmin, those of the user's branch for anyone else.
pub open spec fn marcar_todas_sql(user: Usuario) -> Seq<char> {
    "UPDATE notificaciones SET leida = 1 WHERE leida = 0"@ + sql_si(
        !superadmin_role(user.role@),
        notificaciones_de_sucursal(),
    )
}

pub fn sentencia_marcar_todas_leidas(user: &Usuario) -> (r: Sentencia)
    ensures
        r.sql@ == marcar_todas_sql(*user),
        views(r.params@) == notificaciones_params(*user),
{
    let f = filtro_notificaciones(user, None);
    let mut sql = to_owned_string("UPDATE notificaciones SET leida = 1 WHERE leida = 0");
    if !crate::auth::is_superadmin(user) {
        push_str(
            &mut sql,
            " AND ((entidad_tipo = 'sucursal' AND entidad_id = ?1) OR event_key LIKE ?2 OR (entidad_tipo = 'caja_sesion' AND entidad_id IN (SELECT id FROM cajas_sesiones WHERE sucursal_id = ?3)) OR (entidad_tipo = 'factura' AND entidad_id IN (SELECT fe.id FROM facturas_emitidas fe INNER JOIN ventas v ON v.id = fe.venta_id WHERE v.sucursal_id = ?4)))",
        );
    }
    Sentencia { sql, params: f.params }
}

/// Marking one notification as read: any for a superadmin, only one of the
/// user's branch for anyone else.
pub open spec fn marcar_una_sql(user: Usuario) -> Seq<char> {
    "UPDATE notificaciones SET leida = 1 WHERE id = ?1"@ + sql_si(
        !superadmin_role(user.role@),
        " AND ((entidad_tipo = 'sucursal' AND entidad_id = ?2) OR event_key LIKE ?3 OR (entidad_tipo = 'caja_sesion' AND entidad_id IN (SELECT id FROM cajas_sesiones WHERE sucursal_id = ?4)) OR (entidad_tipo = 'factura' AND entidad_id IN (SELECT fe.id FROM facturas_emitidas fe INNER JOIN ventas v ON v.id = fe.venta_id WHERE v.sucursal_id = ?5)))"@,
    )
}

pub fn sentencia_marcar_leida(user: &Usuario, id: &str) -> (r: Sentencia)
    ensures
        r.sql@ == marcar_una_sql(*user),
        views(r.params@) == seq![id@] + notificaciones_params(*user),
{
    let f = filtro_notificaciones(user, None);
    let mut sql = to_owned_string("UPDATE notificaciones SET leida = 1 WHERE id = ?1");
    if !crate::auth::is_superadmin(user) {
        push_str(
            &mut sql,
            " AND ((entidad_tipo = 'sucursal' AND entidad_id = ?2) OR event_key LIKE ?3 OR (entidad_tipo = 'caja_sesion' AND entidad_id IN (SELECT id FROM cajas_sesiones WHERE sucursal_id = ?4)) OR (entidad_tipo = 'factura' AND entidad_id IN (SELECT fe.id FROM facturas_emitidas fe INNER JOIN ventas v ON v.id = fe.venta_id WHERE v.sucursal_id = ?5)))",
        );
    }
    let mut params: Vec<String> = Vec::new();
    params.push(to_owned_string(id));
    let mut i: usize = 0;
    while i < f.params.len()
        invariant
            i <= f.params@.len(),
            params@.len() == i + 1,
            params@[0]@ == id@,
            forall|k: int| 0 <= k < i ==> params@[k + 1]@ == f.params@[k]@,
        decreases f.params@.len() - i,
    {
        params.push(to_owned_string(f.params[i].as_str()));
        i = i + 1;
    }
    assert(views(params@) =~= seq![id@] + views(f.params@));
    Sentencia { sql, params }
}

// ---------------------------------------------------------------------------
// Invoices of a set of sales
// ---------------------------------------------------------------------------

/// The sale identifiers asked for, trimmed, without blanks.
pub open spec fn ids_no_vacios(v: Seq<Seq<char>>) -> Seq<Seq<char>>
    decreases v.len(),
{
    if v.len() == 0 {
        Seq::empty()
    } else if trim(v.last()).len() > 0 {
        ids_no_vacios(v.drop_last()).push(trim(v.last()))
    } else {
        ids_no_vacios(v.drop_last())
    }
}

pub open spec fn primeros_cien(v: Seq<Seq<char>>) -> Seq<Seq<char>> {
    if v.len() <= 100 {
        v
    } else {
        v.take(100)
    }
}

/// The query of the invoices of some sales: at most the first hundred
/// identifiers given (trimmed, blanks dropped), and only sales of the
/// user's branch unless the user is a superadmin. Nothing when no
/// identifier is left.
pub open spec fn facturas_por_ventas_where(n: nat, user: Usuario) -> Seq<char> {
    " WHERE fe.venta_id IN ("@ + join_with(Seq::new(n, |k: int| "?"@), ","@) + ")"@ + sql_si(
        read_scope(user, None) is Some,
        " AND v.sucursal_id = ?"@,
    )
}

pub fn filtro_facturas_por_ventas(user: &Usuario, venta_ids: &[String]) -> (r: Option<FiltroConsulta>)
    ensures
        primeros_cien(ids_no_vacios(views(venta_ids@))).len() == 0 ==> r is None,
        primeros_cien(ids_no_vacios(views(venta_ids@))).len() > 0 ==> (r matches Some(f) && f.where_sql@
            == facturas_por_ventas_where(primeros_cien(ids_no_vacios(views(venta_ids@))).len(), *user)
            && views(f.params@) == primeros_cien(ids_no_vacios(views(venta_ids@))) + param_si(
            read_scope(*user, None),
        )),
{
    let ghost all = views(venta_ids@);
    let mut ids: Vec<String> = Vec::new();
    let mut i: usize = 0;
    while i < venta_ids.len()
        invariant
            i <= venta_ids@.len(),
            all == views(venta_ids@),
            views(ids@) == primeros_cien(ids_no_vacios(all.take(i as int))),
        decreases venta_ids@.len() - i,
    {
        let ghost prev_full = ids_no_vacios(all.take(i as int));
        assert(all.take(i + 1).drop_last() =~= all.take(i as int));
        assert(all.take(i + 1).last() == venta_ids@[i as int]@);
        let t = trim_str(venta_ids[i].as_str());
        if !t.as_str().is_empty() {
            assert(ids_no_vacios(all.take(i + 1)) == prev_full.push(t@));
            if ids.len() < 100 {
                assert(views(ids@) == prev_full);
                let ghost before = views(ids@);
                ids.push(t);
                assert(views(ids@) =~= before.push(t@));
            } else {
                assert(primeros_cien(prev_full.push(t@)) =~= primeros_cien(prev_full));
            }
        }
        i = i + 1;
    }
    assert(all.take(venta_ids@.len() as int) =~= all);
    if ids.len() == 0 {
        return None;
    }
    let n = ids.len();
    let mut marks: Vec<String> = Vec::new();
    let mut k: usize = 0;
    while k < n
        invariant
            k <= n,
            marks@.len() == k,
            forall|j: int| 0 <= j < k ==> marks@[j]@ == "?"@,
        decreases n - k,
    {
        marks.push(to_owned_string("?"));
        k = k + 1;
    }
    assert(views(marks@) =~= Seq::new(n as nat, |j: int| "?"@));
    let mut where_sql = to_owned_string(" WHERE fe.venta_id IN (");
    let joined = join_strings(&marks, ",");
    push_str(&mut where_sql, joined.as_str());
    push_str(&mut where_sql, ")");
    let ghost before = views(ids@);
    match scoped_sucursal_for_read(user, None) {
        Some(s) => {
            push_str(&mut where_sql, " AND v.sucursal_id = ?");
            ids.push(s);
        },
        None => {},
    }
    assert(views(ids@) =~= before + param_si(read_scope(*user, None)));
    Some(FiltroConsulta { where_sql, params: ids })
}

// ---------------------------------------------------------------------------
// What a branch user sees
// ---------------------------------------------------------------------------

/// A user who is not a superadmin sees only their own branch: the sales
/// history, the transfers, the adjustments and invoices, the notifications
/// (and the ones they mark as read) and the dashboard are all filtered by
/// that branch, whatever branch the filter asks for.
pub proof fn law_listings_confined_to_branch(
    user: Usuario,
    f: Option<HistorialVentasFiltro>,
    con_folio: bool,
    estado: Option<Seq<char>>,
    columna: Seq<char>,
    d: Option<DashboardFiltroInput>,
    r: ConsultaDashboard,
)
    requires
        !superadmin_role(user.role@),
        user.sucursal_id@.len() > 0,
    ensures
        ventas_params(user, f, con_folio)[2] == user.sucursal_id@,
        traspasos_params(user, estado)[0] == user.sucursal_id@,
        traspasos_params(user, estado)[1] == user.sucursal_id@,
        traspasos_condiciones(user, estado)[0] == "(t.sucursal_origen_id = ? OR t.sucursal_destino_id = ?)"@,
        sucursal_where(user, columna) == " WHERE "@ + columna + " = ?"@,
        param_si(read_scope(user, None)) == seq![user.sucursal_id@],
        notificaciones_params(user) == seq![user.sucursal_id@, "%:"@ + user.sucursal_id@, user.sucursal_id@, user.sucursal_id@],
        notificaciones_where(user, None) == " WHERE 1 = 1"@ + notificaciones_de_sucursal(),
        marcar_todas_sql(user) == "UPDATE notificaciones SET leida = 1 WHERE leida = 0"@
            + notificaciones_de_sucursal(),
        sql_si(read_scope(user, None) is Some, " AND v.sucursal_id = ?"@) == " AND v.sucursal_id = ?"@,
        dashboard_correcto(user, d, r) ==> match r {
            ConsultaDashboard::HoySucursal(s) => s@ == user.sucursal_id@,
            ConsultaDashboard::RangoSucursal { sucursal, desde, hasta } => sucursal@ == user.sucursal_id@,
            _ => false,
        },
{
    let (fi, ff, sid, uid, folio, estado_v) = ventas_campos(user, f);
    assert(sid == Some(user.sucursal_id@));
}

/// The sales history is narrowed by each filter that is given and not
/// blank: a cashier adds the condition on the sale's user, with the trimmed
/// cashier among the values; a state adds the condition on the state, with
/// the state trimmed and in upper case; a folio, where the listing searches
/// by it, adds the pattern condition on the sale's identifier; and the date
/// range, always present first, takes the trimmed dates given.
pub proof fn law_sales_history_honours_filters(user: Usuario, x: HistorialVentasFiltro, con_folio: bool)
    ensures
        ventas_where(user, Some(x), con_folio).subrange(0, 36) == " WHERE v.fecha >= ? AND v.fecha <= ?"@,
        x.usuario_id matches Some(u) ==> (trim(u@).len() > 0 ==> occurs_in(
            " AND v.usuario_id = ?"@,
            ventas_where(user, Some(x), con_folio),
        ) && ventas_params(user, Some(x), con_folio).contains(trim(u@))),
        x.estado matches Some(e) ==> (trim(e@).len() > 0 ==> occurs_in(
            " AND v.estado = ?"@,
            ventas_where(user, Some(x), con_folio),
        ) && ventas_params(user, Some(x), con_folio).contains(ascii_upper_seq(trim(e@)))),
        x.folio matches Some(o) ==> (con_folio && trim(o@).len() > 0 ==> occurs_in(
            " AND v.id LIKE ? COLLATE NOCASE"@,
            ventas_where(user, Some(x), con_folio),
        ) && ventas_params(user, Some(x), con_folio).contains("%"@ + trim(trim(o@)) + "%"@)),
        x.fecha_inicio matches Some(a) ==> (trim(a@).len() > 0 ==> ventas_params(user, Some(x), con_folio)[0] == trim(a@)),
        x.fecha_fin matches Some(b) ==> (trim(b@).len() > 0 ==> ventas_params(user, Some(x), con_folio)[1] == trim(b@)),
{
    let f = Some(x);
    let (fi, ff, sid, uid, folio, estado) = ventas_campos(user, f);
    reveal_strlit(" WHERE v.fecha >= ? AND v.fecha <= ?");
    let w0 = " WHERE v.fecha >= ? AND v.fecha <= ?"@;
    let w1 = sql_si(sid is Some, " AND v.sucursal_id = ?"@);
    let w2 = sql_si(uid is Some, " AND v.usuario_id = ?"@);
    let w3 = sql_si(con_folio && folio is Some, " AND v.id LIKE ? COLLATE NOCASE"@);
    let w4 = sql_si(estado is Some, " AND v.estado = ?"@);
    let w = ventas_where(user, f, con_folio);
    assert(w == w0 + w1 + w2 + w3 + w4);
    assert(w.subrange(0, 36) =~= w0);
    let p0 = seq![
        match fi {
            Some(v) => v,
            None => "0001-01-01T00:00:00.000Z"@,
        },
        match ff {
            Some(v) => v,
            None => "9999-12-31T23:59:59.999Z"@,
        },
    ];
    let p1 = param_si(sid);
    let p2 = param_si(uid);
    let p3: Seq<Seq<char>> = if con_folio {
        param_si(
            match folio {
                Some(v) => Some("%"@ + trim(v) + "%"@),
                None => None,
            },
        )
    } else {
        Seq::empty()
    };
    let p4 = param_si(
        match estado {
            Some(v) => Some(ascii_upper_seq(v)),
            None => None,
        },
    );
    let p = ventas_params(user, f, con_folio);
    assert(p == p0 + p1 + p2 + p3 + p4);
    if uid is Some {
        let j = (w0 + w1).len() as int;
        assert(w.subrange(j, j + w2.len()) =~= w2);
        assert(p[(p0.len() + p1.len()) as int] == p2[0]);
    }
    if con_folio && folio is Some {
        let j = (w0 + w1 + w2).len() as int;
        assert(w.subrange(j, j + w3.len()) =~= w3);
        assert(p[(p0.len() + p1.len() + p2.len()) as int] == p3[0]);
    }
    if estado is Some {
        let j = (w0 + w1 + w2 + w3).len() as int;
        assert(w.subrange(j, j + w4.len()) =~= w4);
        assert(p[(p0.len() + p1.len() + p2.len() + p3.len()) as int] == p4[0]);
    }
}

/// The transfers listing asked for a state keeps only the transfers in that
/// state: the last condition compares the transfer's state, and its value,
/// the last one, is the state asked for, trimmed and in upper case.
pub proof fn law_transfers_filtered_by_state(user: Usuario, estado: Seq<char>)
    requires
        unicode_upper(trim(estado)).len() > 0,
    ensures
        traspasos_condiciones(user, Some(estado)).len() > 0,
        traspasos_condiciones(user, Some(estado)).last() == "t.estado = ?"@,
        traspasos_params(user, Some(estado)).len() > 0,
        traspasos_params(user, Some(estado)).last() == unicode_upper(trim(estado)),
{
}

} // verus!
