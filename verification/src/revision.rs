//! Validation of operations whose amounts are decimal numbers.
//!
//! Quantities and money are floating point in the records that the user
//! interface sends; the comparisons on them are made where those records are
//! read, and reach this module as the flags below, each the exact condition
//! that makes the amount unacceptable. Everything else about the
//! operations is checked here.
use vstd::prelude::*;
use crate::error::{validation, validation_outcome, AppError};
use crate::text::{
    eq_ignore_ascii_case, is_blank, is_blank_str, opt_seq, str_eq, ascii_upper_seq, trim, trim_str,
};
use crate::validate::{digits_exact_check, validate_digits_exact, validate_exact_len};
use crate::normalize::{
    normalize_plain_trim, normalize_title_trim, normalize_upper_trim, single_spaced,
};
use crate::text::{unicode_upper};

verus! {

// ---------------------------------------------------------------------------
// Detail lines
// ---------------------------------------------------------------------------

/// One line of a purchase, sale or transfer, as far as validation reads it.
#[derive(Debug)]
pub struct DetalleRevision {
    pub id: String,
    pub producto_id: String,
    /// The quantity is not acceptable (see each operation for the rule).
    pub cantidad_rechazada: bool,
    /// The agreed price is not acceptable (see each operation for the rule).
    pub precio_rechazado: bool,
}

pub open spec fn opt_str(o: Option<&str>) -> Option<Seq<char>> {
    match o {
        Some(s) => Some(s@),
        None => None,
    }
}

/// The first problem of one line, if any.
pub open spec fn detalle_check(
    d: DetalleRevision,
    id_msg: Seq<char>,
    prod_msg: Seq<char>,
    cant_msg: Seq<char>,
    precio_msg: Option<Seq<char>>,
) -> Option<Seq<char>> {
    if is_blank(d.id@) {
        Some(id_msg)
    } else if is_blank(d.producto_id@) {
        Some(prod_msg)
    } else if d.cantidad_rechazada {
        Some(cant_msg)
    } else if precio_msg is Some && d.precio_rechazado {
        precio_msg
    } else {
        None
    }
}

/// The problem of the first line that has one.
pub open spec fn detalles_check(
    ds: Seq<DetalleRevision>,
    id_msg: Seq<char>,
    prod_msg: Seq<char>,
    cant_msg: Seq<char>,
    precio_msg: Option<Seq<char>>,
) -> Option<Seq<char>>
    decreases ds.len(),
{
    if ds.len() == 0 {
        None
    } else if detalle_check(ds[0], id_msg, prod_msg, cant_msg, precio_msg) is Some {
        detalle_check(ds[0], id_msg, prod_msg, cant_msg, precio_msg)
    } else {
        detalles_check(ds.drop_first(), id_msg, prod_msg, cant_msg, precio_msg)
    }
}

fn check_detalles(
    ds: &Vec<DetalleRevision>,
    id_msg: &str,
    prod_msg: &str,
    cant_msg: &str,
    precio_msg: Option<&str>,
) -> (r: Result<(), AppError>)
    ensures
        validation_outcome(
            r,
            detalles_check(ds@, id_msg@, prod_msg@, cant_msg@, opt_str(precio_msg)),
        ),
{
    let ghost pm = opt_str(precio_msg);
    let mut i: usize = 0;
    assert(ds@.subrange(0, ds@.len() as int) =~= ds@);
    while i < ds.len()
        invariant
            i <= ds@.len(),
            pm == opt_str(precio_msg),
            detalles_check(ds@, id_msg@, prod_msg@, cant_msg@, pm) == detalles_check(
                ds@.subrange(i as int, ds@.len() as int),
                id_msg@,
                prod_msg@,
                cant_msg@,
                pm,
            ),
        decreases ds@.len() - i,
    {
        let d = &ds[i];
        let ghost rest = ds@.subrange(i as int, ds@.len() as int);
        assert(rest[0] == ds@[i as int]);
        assert(rest.drop_first() =~= ds@.subrange(i + 1, ds@.len() as int));
        if is_blank_str(d.id.as_str()) {
            return Err(validation(id_msg));
        }
        if is_blank_str(d.producto_id.as_str()) {
            return Err(validation(prod_msg));
        }
        if d.cantidad_rechazada {
            return Err(validation(cant_msg));
        }
        match precio_msg {
            Some(m) => {
                if d.precio_rechazado {
                    return Err(validation(m));
                }
            },
            None => {},
        }
        i = i + 1;
    }
    Ok(())
}

// ---------------------------------------------------------------------------
// Purchases
// ---------------------------------------------------------------------------

/// A purchase to register. For each line, `cantidad_rechazada` is
/// `!cantidad.is_finite() || cantidad <= 0.0` and `precio_rechazado` is
/// `!precio_costo_pactado.is_finite() || precio_costo_pactado <= 0.0`.
#[derive(Debug)]
pub struct CompraRevision {
    pub id: String,
    pub proveedor_id: String,
    pub sucursal_id: String,
    pub fecha: String,
    pub detalles: Vec<DetalleRevision>,
}

pub open spec fn compra_check(c: CompraRevision) -> Option<Seq<char>> {
    if is_blank(c.id@) {
        Some("La compra necesita identificador interno."@)
    } else if is_blank(c.proveedor_id@) {
        Some("Selecciona un proveedor."@)
    } else if is_blank(c.sucursal_id@) {
        Some("Falta la sucursal de la compra."@)
    } else if is_blank(c.fecha@) {
        Some("La compra necesita fecha."@)
    } else if c.detalles@.len() == 0 {
        Some("Agrega al menos un producto al detalle de compra."@)
    } else {
        detalles_check(
            c.detalles@,
            "Un detalle de compra no tiene identificador."@,
            "Un detalle de compra no tiene producto."@,
            "La cantidad debe ser mayor que cero."@,
            Some("El precio costo pactado debe ser mayor que cero."@),
        )
    }
}

pub fn validate_registrar_compra_input(compra: &CompraRevision) -> (r: Result<(), AppError>)
    ensures
        validation_outcome(r, compra_check(*compra)),
{
    if is_blank_str(compra.id.as_str()) {
        return Err(validation("La compra necesita identificador interno."));
    }
    if is_blank_str(compra.proveedor_id.as_str()) {
        return Err(validation("Selecciona un proveedor."));
    }
    if is_blank_str(compra.sucursal_id.as_str()) {
        return Err(validation("Falta la sucursal de la compra."));
    }
    if is_blank_str(compra.fecha.as_str()) {
        return Err(validation("La compra necesita fecha."));
    }
    if compra.detalles.len() == 0 {
        return Err(validation("Agrega al menos un producto al detalle de compra."));
    }
    check_detalles(
        &compra.detalles,
        "Un detalle de compra no tiene identificador.",
        "Un detalle de compra no tiene producto.",
        "La cantidad debe ser mayor que cero.",
        Some("El precio costo pactado debe ser mayor que cero."),
    )
}

// ---------------------------------------------------------------------------
// Sales
// ---------------------------------------------------------------------------

/// The payment methods a sale can use.
pub open spec fn metodo_pago_valido(m: Seq<char>) -> bool {
    m == "EFECTIVO"@ || m == "TARJETA"@ || m == "TRANSFERENCIA"@ || m == "CREDITO"@
}

/// A sale to register. For each line, `cantidad_rechazada` is
/// `cantidad <= 0.0` and `precio_rechazado` is `precio_venta_pactado < 0.0`.
#[derive(Debug)]
pub struct VentaRevision {
    pub id: String,
    pub usuario_id: String,
    pub sucursal_id: String,
    pub fecha: String,
    pub metodo_pago: String,
    pub cliente_id: Option<String>,
    pub detalles: Vec<DetalleRevision>,
}

pub open spec fn venta_check(v: VentaRevision) -> Option<Seq<char>> {
    if is_blank(v.id@) {
        Some("La venta necesita identificador interno."@)
    } else if is_blank(v.usuario_id@) {
        Some("La venta necesita usuario."@)
    } else if is_blank(v.sucursal_id@) {
        Some("La venta necesita sucursal."@)
    } else if is_blank(v.fecha@) {
        Some("La venta necesita fecha."@)
    } else if is_blank(v.metodo_pago@) {
        Some("Selecciona un método de pago."@)
    } else if !metodo_pago_valido(v.metodo_pago@) {
        Some("Método de pago inválido."@)
    } else if v.metodo_pago@ == "CREDITO"@ && (match opt_seq(v.cliente_id) {
        Some(c) => is_blank(c),
        None => true,
    }) {
        Some("Selecciona un cliente para venta a crédito."@)
    } else if v.detalles@.len() == 0 {
        Some("Agrega al menos un producto al carrito."@)
    } else {
        detalles_check(
            v.detalles@,
            "Un detalle de venta no tiene identificador."@,
            "Un detalle de venta no tiene producto."@,
            "La cantidad de venta debe ser mayor a cero."@,
            Some("El precio de venta pactado no puede ser negativo."@),
        )
    }
}

pub fn validate_registrar_venta_input(venta: &VentaRevision) -> (r: Result<(), AppError>)
    ensures
        validation_outcome(r, venta_check(*venta)),
{
    if is_blank_str(venta.id.as_str()) {
        return Err(validation("La venta necesita identificador interno."));
    }
    if is_blank_str(venta.usuario_id.as_str()) {
        return Err(validation("La venta necesita usuario."));
    }
    if is_blank_str(venta.sucursal_id.as_str()) {
        return Err(validation("La venta necesita sucursal."));
    }
    if is_blank_str(venta.fecha.as_str()) {
        return Err(validation("La venta necesita fecha."));
    }
    let m = venta.metodo_pago.as_str();
    if is_blank_str(m) {
        return Err(validation("Selecciona un método de pago."));
    }
    if !(str_eq(m, "EFECTIVO") || str_eq(m, "TARJETA") || str_eq(m, "TRANSFERENCIA") || str_eq(
        m,
        "CREDITO",
    )) {
        return Err(validation("Método de pago inválido."));
    }
    if str_eq(m, "CREDITO") {
        let sin_cliente = match &venta.cliente_id {
            Some(id) => is_blank_str(id.as_str()),
            None => true,
        };
        if sin_cliente {
            return Err(validation("Selecciona un cliente para venta a crédito."));
        }
    }
    if venta.detalles.len() == 0 {
        return Err(validation("Agrega al menos un producto al carrito."));
    }
    check_detalles(
        &venta.detalles,
        "Un detalle de venta no tiene identificador.",
        "Un detalle de venta no tiene producto.",
        "La cantidad de venta debe ser mayor a cero.",
        Some("El precio de venta pactado no puede ser negativo."),
    )
}

// ---------------------------------------------------------------------------
// Transfers between branches
// ---------------------------------------------------------------------------

/// A transfer to register. For each line, `cantidad_rechazada` is
/// `!cantidad.is_finite() || cantidad <= 0.0`; `precio_rechazado` is not read.
#[derive(Debug)]
pub struct TraspasoRevision {
    pub id: String,
    pub sucursal_origen_id: String,
    pub sucursal_destino_id: String,
    pub usuario_id: String,
    pub fecha: String,
    pub detalles: Vec<DetalleRevision>,
}

pub open spec fn traspaso_check(t: TraspasoRevision) -> Option<Seq<char>> {
    if is_blank(t.id@) || is_blank(t.sucursal_origen_id@) || is_blank(t.sucursal_destino_id@)
        || is_blank(t.usuario_id@) || is_blank(t.fecha@) {
        Some("Datos incompletos para registrar traspaso."@)
    } else if t.sucursal_origen_id@ == t.sucursal_destino_id@ {
        Some("La sucursal origen y destino no pueden ser la misma."@)
    } else if t.detalles@.len() == 0 {
        Some("Agrega al menos un producto al traspaso."@)
    } else {
        detalles_check(
            t.detalles@,
            "Un detalle de traspaso está incompleto."@,
            "Un detalle de traspaso está incompleto."@,
            "La cantidad de traspaso debe ser mayor que cero."@,
            None,
        )
    }
}

pub fn validate_registrar_traspaso_input(input: &TraspasoRevision) -> (r: Result<(), AppError>)
    ensures
        validation_outcome(r, traspaso_check(*input)),
{
    if is_blank_str(input.id.as_str()) || is_blank_str(input.sucursal_origen_id.as_str())
        || is_blank_str(input.sucursal_destino_id.as_str()) || is_blank_str(
        input.usuario_id.as_str(),
    ) || is_blank_str(input.fecha.as_str()) {
        return Err(validation("Datos incompletos para registrar traspaso."));
    }
    if str_eq(input.sucursal_origen_id.as_str(), input.sucursal_destino_id.as_str()) {
        return Err(validation("La sucursal origen y destino no pueden ser la misma."));
    }
    if input.detalles.len() == 0 {
        return Err(validation("Agrega al menos un producto al traspaso."));
    }
    check_detalles(
        &input.detalles,
        "Un detalle de traspaso está incompleto.",
        "Un detalle de traspaso está incompleto.",
        "La cantidad de traspaso debe ser mayor que cero.",
        None,
    )
}

// ---------------------------------------------------------------------------
// Shrinkage and adjustments
// ---------------------------------------------------------------------------

/// A shrinkage or adjustment to register; `cantidad_rechazada` is
/// `!cantidad.is_finite() || cantidad <= 0.0`.
#[derive(Debug)]
pub struct MermaAjusteRevision {
    pub id: String,
    pub producto_id: String,
    pub sucursal_id: String,
    pub usuario_id: String,
    pub motivo: String,
    pub fecha: String,
    pub tipo_movimiento: String,
    pub cantidad_rechazada: bool,
}

/// The kinds of stock movement a shrinkage or adjustment can be.
pub open spec fn tipo_merma_valido(t: Seq<char>) -> bool {
    t == "MERMA"@ || t == "AJUSTE"@ || t == "AJUSTE_ENTRADA"@ || t == "AJUSTE_SALIDA"@
}

pub open spec fn merma_check(m: MermaAjusteRevision) -> Option<Seq<char>> {
    if is_blank(m.id@) || is_blank(m.producto_id@) || is_blank(m.sucursal_id@) || is_blank(
        m.usuario_id@,
    ) || is_blank(m.motivo@) || is_blank(m.fecha@) {
        Some("Datos incompletos para registrar merma/ajuste."@)
    } else if !tipo_merma_valido(m.tipo_movimiento@) {
        Some("Tipo de movimiento inválido. Usa MERMA, AJUSTE_ENTRADA o AJUSTE_SALIDA."@)
    } else if m.cantidad_rechazada {
        Some("La cantidad debe ser mayor que cero."@)
    } else {
        None
    }
}

pub fn validate_registrar_merma_ajuste_input(input: &MermaAjusteRevision) -> (r: Result<(), AppError>)
    ensures
        validation_outcome(r, merma_check(*input)),
{
    if is_blank_str(input.id.as_str()) || is_blank_str(input.producto_id.as_str())
        || is_blank_str(input.sucursal_id.as_str()) || is_blank_str(input.usuario_id.as_str())
        || is_blank_str(input.motivo.as_str()) || is_blank_str(input.fecha.as_str()) {
        return Err(validation("Datos incompletos para registrar merma/ajuste."));
    }
    let t = input.tipo_movimiento.as_str();
    if !(str_eq(t, "MERMA") || str_eq(t, "AJUSTE") || str_eq(t, "AJUSTE_ENTRADA") || str_eq(
        t,
        "AJUSTE_SALIDA",
    )) {
        return Err(
            validation("Tipo de movimiento inválido. Usa MERMA, AJUSTE_ENTRADA o AJUSTE_SALIDA."),
        );
    }
    if input.cantidad_rechazada {
        return Err(validation("La cantidad debe ser mayor que cero."));
    }
    Ok(())
}

// ---------------------------------------------------------------------------
// Credit payments and the cash register
// ---------------------------------------------------------------------------

/// A payment towards a customer's credit; `monto_rechazado` is
/// `!monto.is_finite() || monto <= 0.0`.
#[derive(Debug)]
pub struct AbonoRevision {
    pub id: String,
    pub cliente_id: String,
    pub fecha: String,
    pub usuario_id: String,
    pub monto_rechazado: bool,
}

pub open spec fn abono_check(a: AbonoRevision) -> Option<Seq<char>> {
    if is_blank(a.id@) || is_blank(a.cliente_id@) || is_blank(a.fecha@) || is_blank(
        a.usuario_id@,
    ) {
        Some("Datos incompletos para registrar abono."@)
    } else if a.monto_rechazado {
        Some("El abono debe ser mayor que cero."@)
    } else {
        None
    }
}

pub fn validate_abono_credito(input: &AbonoRevision) -> (r: Result<(), AppError>)
    ensures
        validation_outcome(r, abono_check(*input)),
{
    if is_blank_str(input.id.as_str()) || is_blank_str(input.cliente_id.as_str())
        || is_blank_str(input.fecha.as_str()) || is_blank_str(input.usuario_id.as_str()) {
        return Err(validation("Datos incompletos para registrar abono."));
    }
    if input.monto_rechazado {
        return Err(validation("El abono debe ser mayor que cero."));
    }
    Ok(())
}

/// Opening a cash register; `monto_rechazado` is
/// `!monto_inicial.is_finite() || monto_inicial < 0.0`.
#[derive(Debug)]
pub struct AbrirCajaRevision {
    pub id: String,
    pub usuario_id: String,
    pub sucursal_id: String,
    pub fecha_apertura: String,
    pub monto_rechazado: bool,
}

pub open spec fn abrir_caja_check(a: AbrirCajaRevision) -> Option<Seq<char>> {
    if is_blank(a.id@) || is_blank(a.usuario_id@) || is_blank(a.sucursal_id@) || is_blank(
        a.fecha_apertura@,
    ) {
        Some("Datos incompletos para abrir caja."@)
    } else if a.monto_rechazado {
        Some("El fondo inicial no puede ser negativo."@)
    } else {
        None
    }
}

pub fn validate_abrir_caja_input(input: &AbrirCajaRevision) -> (r: Result<(), AppError>)
    ensures
        validation_outcome(r, abrir_caja_check(*input)),
{
    if is_blank_str(input.id.as_str()) || is_blank_str(input.usuario_id.as_str())
        || is_blank_str(input.sucursal_id.as_str()) || is_blank_str(input.fecha_apertura.as_str()) {
        return Err(validation("Datos incompletos para abrir caja."));
    }
    if input.monto_rechazado {
        return Err(validation("El fondo inicial no puede ser negativo."));
    }
    Ok(())
}

/// A cash movement; `monto_rechazado` is `!monto.is_finite() || monto <= 0.0`.
#[derive(Debug)]
pub struct MovimientoCajaRevision {
    pub id: String,
    pub sesion_id: String,
    pub tipo: String,
    pub monto_rechazado: bool,
    pub motivo: String,
}

pub open spec fn movimiento_caja_check(m: MovimientoCajaRevision) -> Option<Seq<char>> {
    if is_blank(m.id@) || is_blank(m.sesion_id@) {
        Some("Datos incompletos para el movimiento de caja."@)
    } else if m.tipo@ != "INGRESO"@ && m.tipo@ != "EGRESO"@ {
        Some("El tipo de movimiento debe ser INGRESO o EGRESO."@)
    } else if m.monto_rechazado {
        Some("El monto del movimiento debe ser mayor que cero."@)
    } else if is_blank(m.motivo@) {
        Some("El motivo del movimiento es obligatorio."@)
    } else {
        None
    }
}

pub fn validate_movimiento_caja_input(input: &MovimientoCajaRevision) -> (r: Result<(), AppError>)
    ensures
        validation_outcome(r, movimiento_caja_check(*input)),
{
    if is_blank_str(input.id.as_str()) || is_blank_str(input.sesion_id.as_str()) {
        return Err(validation("Datos incompletos para el movimiento de caja."));
    }
    if !str_eq(input.tipo.as_str(), "INGRESO") && !str_eq(input.tipo.as_str(), "EGRESO") {
        return Err(validation("El tipo de movimiento debe ser INGRESO o EGRESO."));
    }
    if input.monto_rechazado {
        return Err(validation("El monto del movimiento debe ser mayor que cero."));
    }
    if is_blank_str(input.motivo.as_str()) {
        return Err(validation("El motivo del movimiento es obligatorio."));
    }
    Ok(())
}

/// Closing a cash register; `monto_rechazado` is
/// `!monto_final_real.is_finite() || monto_final_real < 0.0`.
#[derive(Debug)]
pub struct CerrarCajaRevision {
    pub sesion_id: String,
    pub fecha_cierre: String,
    pub monto_rechazado: bool,
}

pub open spec fn cerrar_caja_check(c: CerrarCajaRevision) -> Option<Seq<char>> {
    if is_blank(c.sesion_id@) || is_blank(c.fecha_cierre@) {
        Some("Datos incompletos para cerrar caja."@)
    } else if c.monto_rechazado {
        Some("El monto final real no puede ser negativo."@)
    } else {
        None
    }
}

pub fn validate_cerrar_caja_input(input: &CerrarCajaRevision) -> (r: Result<(), AppError>)
    ensures
        validation_outcome(r, cerrar_caja_check(*input)),
{
    if is_blank_str(input.sesion_id.as_str()) || is_blank_str(input.fecha_cierre.as_str()) {
        return Err(validation("Datos incompletos para cerrar caja."));
    }
    if input.monto_rechazado {
        return Err(validation("El monto final real no puede ser negativo."));
    }
    Ok(())
}

// ---------------------------------------------------------------------------
// Customers, stock and products
// ---------------------------------------------------------------------------

/// A customer record. `montos_no_finitos` is
/// `!limite_credito.is_finite() || !saldo_deudor.is_finite()`, and
/// `montos_negativos` is `limite_credito < 0.0 || saldo_deudor < 0.0`.
#[derive(Debug)]
pub struct ClienteRevision {
    pub id: String,
    pub nombre: String,
    pub montos_no_finitos: bool,
    pub montos_negativos: bool,
}

pub open spec fn cliente_check(c: ClienteRevision) -> Option<Seq<char>> {
    if is_blank(c.id@) {
        Some("El cliente necesita identificador interno."@)
    } else if is_blank(c.nombre@) {
        Some("El cliente necesita nombre."@)
    } else if c.montos_no_finitos {
        Some("Límite de crédito y saldo deben ser números válidos."@)
    } else if c.montos_negativos {
        Some("Límite de crédito y saldo no pueden ser negativos."@)
    } else {
        None
    }
}

pub fn validate_cliente(cliente: &ClienteRevision) -> (r: Result<(), AppError>)
    ensures
        validation_outcome(r, cliente_check(*cliente)),
{
    if is_blank_str(cliente.id.as_str()) {
        return Err(validation("El cliente necesita identificador interno."));
    }
    if is_blank_str(cliente.nombre.as_str()) {
        return Err(validation("El cliente necesita nombre."));
    }
    if cliente.montos_no_finitos {
        return Err(validation("Límite de crédito y saldo deben ser números válidos."));
    }
    if cliente.montos_negativos {
        return Err(validation("Límite de crédito y saldo no pueden ser negativos."));
    }
    Ok(())
}

/// The stock of a product at a branch; `stock_negativo` is
/// `stock < 0.0 || stock_minimo < 0.0`.
#[derive(Debug)]
pub struct InventarioRevision {
    pub sucursal_id: String,
    pub stock_negativo: bool,
}

pub open spec fn inventario_check(i: InventarioRevision) -> Option<Seq<char>> {
    if is_blank(i.sucursal_id@) {
        Some("La sucursal del inventario es obligatoria."@)
    } else if i.stock_negativo {
        Some("Stock y stock mínimo no pueden ser negativos."@)
    } else {
        None
    }
}

pub fn validate_inventario_input(inventario: &InventarioRevision) -> (r: Result<(), AppError>)
    ensures
        validation_outcome(r, inventario_check(*inventario)),
{
    if is_blank_str(inventario.sucursal_id.as_str()) {
        return Err(validation("La sucursal del inventario es obligatoria."));
    }
    if inventario.stock_negativo {
        return Err(validation("Stock y stock mínimo no pueden ser negativos."));
    }
    Ok(())
}

/// A product record. `precios_no_finitos` is `!precio_costo.is_finite() ||
/// !costo_promedio.is_finite() || !precio_venta.is_finite()`, and
/// `precios_negativos` is `precio_costo < 0.0 || precio_venta < 0.0`.
#[derive(Debug)]
pub struct ProductoRevision {
    pub id: String,
    pub descripcion: String,
    pub proveedor_id: String,
    pub marca: String,
    pub categoria: String,
    pub unidad: String,
    pub precios_no_finitos: bool,
    pub precios_negativos: bool,
    pub sat_clave_prod_serv: String,
    pub sat_clave_unidad: String,
}

pub open spec fn sat_claves_check(prod_serv: Seq<char>, unidad: Seq<char>) -> Option<Seq<char>> {
    if digits_exact_check(
        trim(prod_serv),
        8,
        "La Clave de Producto/Servicio SAT debe tener exactamente 8 dígitos (Ej: 27111700)."@,
    ) is Some {
        Some("La Clave de Producto/Servicio SAT debe tener exactamente 8 dígitos (Ej: 27111700)."@)
    } else if trim(unidad).len() != 3 {
        Some("La Clave de Unidad SAT debe tener exactamente 3 caracteres (Ej: H87)."@)
    } else {
        None
    }
}

/// The SAT keys of a product: an 8-digit product/service key and a
/// 3-character unit key, both trimmed.
pub fn validate_producto_sat_claves(producto: &ProductoRevision) -> (r: Result<(), AppError>)
    ensures
        validation_outcome(
            r,
            sat_claves_check(producto.sat_clave_prod_serv@, producto.sat_clave_unidad@),
        ),
{
    let ps = trim_str(producto.sat_clave_prod_serv.as_str());
    validate_digits_exact(
        ps.as_str(),
        8,
        "La Clave de Producto/Servicio SAT debe tener exactamente 8 dígitos (Ej: 27111700).",
    )?;
    let cu = trim_str(producto.sat_clave_unidad.as_str());
    validate_exact_len(
        cu.as_str(),
        3,
        "La Clave de Unidad SAT debe tener exactamente 3 caracteres (Ej: H87).",
    )?;
    Ok(())
}

pub open spec fn producto_check(p: ProductoRevision) -> Option<Seq<char>> {
    if is_blank(p.id@) {
        Some("El producto necesita identificador interno."@)
    } else if is_blank(p.descripcion@) {
        Some("El producto necesita descripción."@)
    } else if trim(p.proveedor_id@).len() == 0 || ascii_upper_seq(trim(p.proveedor_id@))
        == ascii_upper_seq("null"@) {
        Some(
            "Error: Debes seleccionar un proveedor válido de la lista para poder registrar el producto."@,
        )
    } else if is_blank(p.marca@) {
        Some("Selecciona una marca válida de la lista."@)
    } else if is_blank(p.categoria@) {
        Some("Selecciona una categoría válida de la lista."@)
    } else if is_blank(p.unidad@) {
        Some("Selecciona una unidad válida de la lista."@)
    } else if p.precios_no_finitos {
        Some("Los precios deben ser números válidos."@)
    } else if p.precios_negativos {
        Some("Los precios no pueden ser negativos."@)
    } else {
        sat_claves_check(p.sat_clave_prod_serv@, p.sat_clave_unidad@)
    }
}

pub fn validate_producto(producto: &ProductoRevision) -> (r: Result<(), AppError>)
    ensures
        validation_outcome(r, producto_check(*producto)),
{
    if is_blank_str(producto.id.as_str()) {
        return Err(validation("El producto necesita identificador interno."));
    }
    if is_blank_str(producto.descripcion.as_str()) {
        return Err(validation("El producto necesita descripción."));
    }
    let proveedor_id = trim_str(producto.proveedor_id.as_str());
    if proveedor_id.as_str().is_empty() || eq_ignore_ascii_case(proveedor_id.as_str(), "null") {
        return Err(
            validation(
                "Error: Debes seleccionar un proveedor válido de la lista para poder registrar el producto.",
            ),
        );
    }
    if is_blank_str(producto.marca.as_str()) {
        return Err(validation("Selecciona una marca válida de la lista."));
    }
    if is_blank_str(producto.categoria.as_str()) {
        return Err(validation("Selecciona una categoría válida de la lista."));
    }
    if is_blank_str(producto.unidad.as_str()) {
        return Err(validation("Selecciona una unidad válida de la lista."));
    }
    if producto.precios_no_finitos {
        return Err(validation("Los precios deben ser números válidos."));
    }
    if producto.precios_negativos {
        return Err(validation("Los precios no pueden ser negativos."));
    }
    validate_producto_sat_claves(producto)
}


// ---------------------------------------------------------------------------
// Product records as entered
// ---------------------------------------------------------------------------

/// The texts of a product record (its prices are cleaned where they are
/// read: negative prices become zero and are rounded to cents).
#[derive(Debug)]
pub struct ProductoTextos {
    pub codigo_barras: String,
    pub codigo_proveedor: String,
    pub proveedor_id: String,
    pub clave_producto: String,
    pub descripcion: String,
    pub marca: String,
    pub categoria: String,
    pub unidad: String,
    pub sat_clave_prod_serv: String,
    pub sat_clave_unidad: String,
    pub fotos: String,
    pub descripcion_catalogo: String,
    pub caducidad: Option<String>,
}

/// A product's texts cleaned before they are checked and stored: codes and
/// SAT keys trimmed and upper-cased, names single-spaced and upper-cased,
/// the supplier trimmed, photos single-spaced, and an expiry date that is
/// blank dropped.
pub open spec fn producto_limpio(p: ProductoTextos, r: ProductoTextos) -> bool {
    &&& r.codigo_barras@ == unicode_upper(trim(p.codigo_barras@))
    &&& r.codigo_proveedor@ == unicode_upper(trim(p.codigo_proveedor@))
    &&& r.proveedor_id@ == trim(p.proveedor_id@)
    &&& r.clave_producto@ == unicode_upper(trim(p.clave_producto@))
    &&& r.descripcion@ == unicode_upper(single_spaced(p.descripcion@))
    &&& r.marca@ == unicode_upper(single_spaced(p.marca@))
    &&& r.categoria@ == unicode_upper(single_spaced(p.categoria@))
    &&& r.unidad@ == unicode_upper(single_spaced(p.unidad@))
    &&& r.sat_clave_prod_serv@ == unicode_upper(trim(p.sat_clave_prod_serv@))
    &&& r.sat_clave_unidad@ == unicode_upper(trim(p.sat_clave_unidad@))
    &&& r.fotos@ == single_spaced(p.fotos@)
    &&& r.descripcion_catalogo@ == unicode_upper(single_spaced(p.descripcion_catalogo@))
    &&& opt_seq(r.caducidad) == match p.caducidad {
        Some(c) => if single_spaced(c@).len() > 0 {
            Some(single_spaced(c@))
        } else {
            None
        },
        None => None,
    }
}

pub fn sanitize_producto_textos(p: &ProductoTextos) -> (r: ProductoTextos)
    ensures
        producto_limpio(*p, r),
{
    let caducidad = match &p.caducidad {
        Some(c) => {
            let t = normalize_plain_trim(c.as_str());
            if t.as_str().is_empty() {
                None
            } else {
                Some(t)
            }
        },
        None => None,
    };
    ProductoTextos {
        codigo_barras: normalize_upper_trim(p.codigo_barras.as_str()),
        codigo_proveedor: normalize_upper_trim(p.codigo_proveedor.as_str()),
        proveedor_id: trim_str(p.proveedor_id.as_str()),
        clave_producto: normalize_upper_trim(p.clave_producto.as_str()),
        descripcion: normalize_title_trim(p.descripcion.as_str()),
        marca: normalize_title_trim(p.marca.as_str()),
        categoria: normalize_title_trim(p.categoria.as_str()),
        unidad: normalize_title_trim(p.unidad.as_str()),
        sat_clave_prod_serv: normalize_upper_trim(p.sat_clave_prod_serv.as_str()),
        sat_clave_unidad: normalize_upper_trim(p.sat_clave_unidad.as_str()),
        fotos: normalize_plain_trim(p.fotos.as_str()),
        descripcion_catalogo: normalize_title_trim(p.descripcion_catalogo.as_str()),
        caducidad,
    }
}

/// The supplier a product is filed under: given, trimmed, not `null` in any
/// case, and an active supplier (`existe`, looked up with the trimmed text).
pub open spec fn proveedor_producto_check(proveedor_id: Seq<char>, existe: bool) -> Option<Seq<char>> {
    if trim(proveedor_id).len() == 0 || ascii_upper_seq(trim(proveedor_id)) == ascii_upper_seq("null"@)
        || !existe {
        Some(
            "Error: Debes seleccionar un proveedor válido de la lista para poder registrar el producto."@,
        )
    } else {
        None
    }
}

/// The trimmed supplier text to look up, or the error when it cannot name a
/// supplier.
pub fn proveedor_producto_candidato(proveedor_id: &str) -> (r: Result<String, AppError>)
    ensures
        match proveedor_producto_check(proveedor_id@, true) {
            None => r matches Ok(c) && c@ == trim(proveedor_id@),
            Some(m) => r matches Err(e) && crate::error::is_validation(e, m),
        },
{
    let candidate = trim_str(proveedor_id);
    if candidate.as_str().is_empty() || eq_ignore_ascii_case(candidate.as_str(), "null") {
        return Err(
            validation(
                "Error: Debes seleccionar un proveedor válido de la lista para poder registrar el producto.",
            ),
        );
    }
    Ok(candidate)
}

/// The supplier once looked up: it must be an active one.
pub fn proveedor_producto_resuelto(candidato: String, existe: bool) -> (r: Result<String, AppError>)
    ensures
        existe ==> (r matches Ok(c) && c@ == candidato@),
        !existe ==> (r matches Err(e) && crate::error::is_validation(
            e,
            "Error: Debes seleccionar un proveedor válido de la lista para poder registrar el producto."@,
        )),
{
    if existe {
        Ok(candidato)
    } else {
        Err(
            validation(
                "Error: Debes seleccionar un proveedor válido de la lista para poder registrar el producto.",
            ),
        )
    }
}

/// A sale is refused before anything is written when it cannot be charged:
/// an empty cart, a payment method other than cash, card, bank transfer or
/// credit, or a credit sale without a customer.
pub proof fn law_sale_refused_when_it_cannot_be_charged(v: VentaRevision)
    ensures
        v.detalles@.len() == 0 ==> venta_check(v) is Some,
        !(v.metodo_pago@ == "EFECTIVO"@ || v.metodo_pago@ == "TARJETA"@ || v.metodo_pago@ == "TRANSFERENCIA"@
            || v.metodo_pago@ == "CREDITO"@) ==> venta_check(v) is Some,
        v.metodo_pago@ == "CREDITO"@ && v.cliente_id is None ==> venta_check(v) is Some,
{
}

} // verus!
