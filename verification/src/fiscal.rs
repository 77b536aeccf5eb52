//! Electronic invoices (CFDI 4.0): payment codes, what must hold before a
//! sale is invoiced, and what must hold before an invoice is stamped.
use vstd::prelude::*;
use crate::error::{command_outcome, to_command_error};
use crate::model::{
    ActualizarEstadoFacturaInput, CfdiEmisor, CfdiReceptor, ClienteDatosFiscales,
    EmpresaConfigFiscal,
};
use crate::normalize::normalize_upper_trim;
use crate::text::{is_blank, is_blank_str, str_eq, to_owned_string, trim, trim_str, unicode_upper};
use crate::validate::{uuid_check, validate_uuid_sat_like};

verus! {

/// The SAT payment form for a sale's payment method: cash `01`, card `04`,
/// transfer `03`, credit and anything else `99` (to be defined).
pub open spec fn forma_pago(metodo: Seq<char>) -> Seq<char> {
    if metodo == "EFECTIVO"@ {
        "01"@
    } else if metodo == "TARJETA"@ {
        "04"@
    } else if metodo == "TRANSFERENCIA"@ {
        "03"@
    } else {
        "99"@
    }
}

/// The SAT payment method: paid later (`PPD`) for credit sales, paid in one
/// go (`PUE`) otherwise.
pub open spec fn metodo_pago_sat(metodo: Seq<char>) -> Seq<char> {
    if metodo == "CREDITO"@ {
        "PPD"@
    } else {
        "PUE"@
    }
}

pub fn cfdi_forma_pago(metodo_pago: &str) -> (r: String)
    ensures
        r@ == forma_pago(metodo_pago@),
{
    if str_eq(metodo_pago, "EFECTIVO") {
        to_owned_string("01")
    } else if str_eq(metodo_pago, "TARJETA") {
        to_owned_string("04")
    } else if str_eq(metodo_pago, "TRANSFERENCIA") {
        to_owned_string("03")
    } else {
        to_owned_string("99")
    }
}

pub fn cfdi_metodo_pago(metodo_pago: &str) -> (r: String)
    ensures
        r@ == metodo_pago_sat(metodo_pago@),
{
    if str_eq(metodo_pago, "CREDITO") {
        to_owned_string("PPD")
    } else {
        to_owned_string("PUE")
    }
}

/// A credit sale is invoiced as `PPD` with payment form `99`; a cash, card or
/// transfer sale as `PUE` with the form that matches how it was paid.
pub proof fn law_cfdi_payment_codes(metodo: Seq<char>)
    ensures
        metodo == "CREDITO"@ ==> metodo_pago_sat(metodo) == "PPD"@ && forma_pago(metodo) == "99"@,
        metodo == "EFECTIVO"@ ==> metodo_pago_sat(metodo) == "PUE"@ && forma_pago(metodo) == "01"@,
        metodo == "TARJETA"@ ==> metodo_pago_sat(metodo) == "PUE"@ && forma_pago(metodo) == "04"@,
        metodo == "TRANSFERENCIA"@ ==> metodo_pago_sat(metodo) == "PUE"@ && forma_pago(metodo)
            == "03"@,
{
    reveal_strlit("CREDITO");
    reveal_strlit("EFECTIVO");
    reveal_strlit("TARJETA");
    reveal_strlit("TRANSFERENCIA");
    assert("TARJETA"@.len() != "EFECTIVO"@.len());
    assert("TRANSFERENCIA"@.len() != "EFECTIVO"@.len());
    assert("TRANSFERENCIA"@.len() != "TARJETA"@.len());
    assert("EFECTIVO"@.len() != "CREDITO"@.len());
    assert("TRANSFERENCIA"@.len() != "CREDITO"@.len());
    assert("TARJETA"@[0] != "CREDITO"@[0]);
    assert("EFECTIVO"@ != "CREDITO"@);
    assert("TARJETA"@ != "CREDITO"@);
    assert("TRANSFERENCIA"@ != "CREDITO"@);
}


// ---------------------------------------------------------------------------
// Before a sale is invoiced
// ---------------------------------------------------------------------------

/// The sale to invoice must be named.
pub fn check_venta_id_factura(venta_id: &str) -> (r: Result<(), String>)
    ensures
        command_outcome(
            r,
            if is_blank(venta_id@) {
                Some("Falta el identificador de la venta a facturar."@)
            } else {
                None
            },
        ),
{
    if is_blank_str(venta_id) {
        return Err(to_owned_string("Falta el identificador de la venta a facturar."));
    }
    Ok(())
}

/// Only a completed sale is invoiced.
pub fn check_venta_facturable(estado: &str) -> (r: Result<(), String>)
    ensures
        command_outcome(
            r,
            if estado@ != "COMPLETADA"@ {
                Some("Solo se pueden facturar ventas COMPLETADAS."@)
            } else {
                None
            },
        ),
{
    if !str_eq(estado, "COMPLETADA") {
        return Err(to_owned_string("Solo se pueden facturar ventas COMPLETADAS."));
    }
    Ok(())
}

/// A sale whose latest invoice is stamped is not invoiced again.
pub fn check_sin_factura_timbrada(estado_factura: Option<&str>) -> (r: Result<(), String>)
    ensures
        command_outcome(
            r,
            if estado_factura matches Some(e) && e@ == "TIMBRADA"@ {
                Some("Esta venta ya tiene una factura TIMBRADA."@)
            } else {
                None
            },
        ),
{
    match estado_factura {
        Some(e) => {
            if str_eq(e, "TIMBRADA") {
                return Err(to_owned_string("Esta venta ya tiene una factura TIMBRADA."));
            }
            Ok(())
        },
        None => Ok(()),
    }
}

/// The issuer's tax data must exist, with RFC, business name and tax regime.
pub open spec fn emisor_check(config: Option<EmpresaConfigFiscal>) -> Option<Seq<char>> {
    match config {
        None => Some("Configura los datos fiscales de la empresa emisora antes de facturar."@),
        Some(c) => if is_blank(c.rfc@) || is_blank(c.razon_social@) || is_blank(c.regimen_fiscal@) {
            Some("La configuración fiscal de la empresa está incompleta."@)
        } else {
            None
        },
    }
}

pub fn check_emisor_fiscal(config: Option<&EmpresaConfigFiscal>) -> (r: Result<(), String>)
    ensures
        command_outcome(
            r,
            emisor_check(match config {
                Some(c) => Some(*c),
                None => None,
            }),
        ),
{
    match config {
        None => Err(to_owned_string("Configura los datos fiscales de la empresa emisora antes de facturar.")),
        Some(c) => {
            if is_blank_str(c.rfc.as_str()) || is_blank_str(c.razon_social.as_str()) || is_blank_str(
                c.regimen_fiscal.as_str(),
            ) {
                Err(to_owned_string("La configuración fiscal de la empresa está incompleta."))
            } else {
                Ok(())
            }
        },
    }
}

/// The issuer of the invoice: the company's tax data and the postal code of
/// the branch where the sale was made, which must not be blank.
pub fn emisor_cfdi(config: &EmpresaConfigFiscal, lugar_expedicion: String) -> (r: Result<CfdiEmisor, String>)
    ensures
        is_blank(lugar_expedicion@) ==> (r matches Err(e) && e@
            == "La sucursal de la venta no tiene código postal para LugarExpedicion."@),
        !is_blank(lugar_expedicion@) ==> (r matches Ok(em) && em.rfc@ == config.rfc@ && em.nombre@
            == config.razon_social@ && em.regimen_fiscal@ == config.regimen_fiscal@
            && em.lugar_expedicion@ == lugar_expedicion@),
{
    if is_blank_str(lugar_expedicion.as_str()) {
        return Err(to_owned_string("La sucursal de la venta no tiene código postal para LugarExpedicion."));
    }
    Ok(
        CfdiEmisor {
            rfc: to_owned_string(config.rfc.as_str()),
            nombre: to_owned_string(config.razon_social.as_str()),
            regimen_fiscal: to_owned_string(config.regimen_fiscal.as_str()),
            lugar_expedicion,
        },
    )
}

/// An invoiced sale must have a customer.
pub fn check_cliente_factura(cliente_id: Option<String>) -> (r: Result<String, String>)
    ensures
        cliente_id is None ==> (r matches Err(e) && e@
            == "La venta no tiene cliente asociado. Asigna cliente antes de generar CFDI."@),
        cliente_id matches Some(c) ==> (r matches Ok(id) && id@ == c@),
{
    match cliente_id {
        Some(c) => Ok(c),
        None => Err(to_owned_string("La venta no tiene cliente asociado. Asigna cliente antes de generar CFDI.")),
    }
}

/// The receiver of the invoice, from the customer's tax data, which must
/// exist; the CFDI use is always `G03` (general expenses).
pub fn receptor_cfdi(datos: Option<ClienteDatosFiscales>) -> (r: Result<CfdiReceptor, String>)
    ensures
        datos is None ==> (r matches Err(e) && e@ == "El cliente no tiene datos fiscales registrados."@),
        datos matches Some(d) ==> (r matches Ok(rc) && rc.cliente_id@ == d.cliente_id@ && rc.rfc@ == d.rfc@
            && rc.nombre@ == d.razon_social@ && rc.regimen_fiscal@ == d.regimen_fiscal@
            && rc.domicilio_fiscal_receptor@ == d.codigo_postal@ && rc.uso_cfdi@ == "G03"@),
{
    match datos {
        None => Err(to_owned_string("El cliente no tiene datos fiscales registrados.")),
        Some(d) => Ok(
            CfdiReceptor {
                cliente_id: d.cliente_id,
                rfc: d.rfc,
                nombre: d.razon_social,
                regimen_fiscal: d.regimen_fiscal,
                domicilio_fiscal_receptor: d.codigo_postal,
                uso_cfdi: to_owned_string("G03"),
            },
        ),
    }
}

/// An invoice needs at least one line.
pub fn check_conceptos_factura(conceptos: usize) -> (r: Result<(), String>)
    ensures
        command_outcome(
            r,
            if conceptos == 0 {
                Some("La venta no tiene conceptos para facturar."@)
            } else {
                None
            },
        ),
{
    if conceptos == 0 {
        return Err(to_owned_string("La venta no tiene conceptos para facturar."));
    }
    Ok(())
}

// ---------------------------------------------------------------------------
// Before an invoice is stamped
// ---------------------------------------------------------------------------

/// The invoice and its official UUID (trimmed and upper-cased) must be given,
/// and the UUID must look like one.
pub open spec fn timbrado_check(factura_id: Seq<char>, uuid: Seq<char>) -> Option<Seq<char>> {
    if trim(factura_id).len() == 0 || unicode_upper(trim(uuid)).len() == 0 {
        Some("La factura y el UUID oficial son obligatorios."@)
    } else {
        uuid_check(unicode_upper(trim(uuid)))
    }
}

/// The invoice identifier and the UUID to stamp it with, normalised; or why
/// they cannot be used.
pub fn preparar_timbrado(input: &ActualizarEstadoFacturaInput) -> (r: Result<(String, String), String>)
    ensures
        match timbrado_check(input.factura_id@, input.uuid@) {
            None => r matches Ok((f, u)) && f@ == trim(input.factura_id@) && u@ == unicode_upper(
                trim(input.uuid@),
            ),
            Some(m) => r matches Err(e) && e@ == m,
        },
{
    let factura_id = trim_str(input.factura_id.as_str());
    let uuid = normalize_upper_trim(input.uuid.as_str());
    if factura_id.as_str().is_empty() || uuid.as_str().is_empty() {
        return Err(to_owned_string("La factura y el UUID oficial son obligatorios."));
    }
    match validate_uuid_sat_like(uuid.as_str()) {
        Ok(()) => Ok((factura_id, uuid)),
        Err(e) => Err(to_command_error(e)),
    }
}

/// The invoice of a cancelled sale is not stamped.
pub fn check_timbrado_venta(venta_estado: &str) -> (r: Result<(), String>)
    ensures
        command_outcome(
            r,
            if venta_estado@ != "COMPLETADA"@ {
                Some("No se puede timbrar una factura cuya venta ya fue cancelada."@)
            } else {
                None
            },
        ),
{
    if !str_eq(venta_estado, "COMPLETADA") {
        return Err(to_owned_string("No se puede timbrar una factura cuya venta ya fue cancelada."));
    }
    Ok(())
}

/// A UUID already given to another invoice is not given again.
pub fn check_uuid_unico(otras_con_uuid: i64) -> (r: Result<(), String>)
    ensures
        command_outcome(
            r,
            if otras_con_uuid > 0 {
                Some("El UUID indicado ya está asignado a otra factura."@)
            } else {
                None
            },
        ),
{
    if otras_con_uuid > 0 {
        return Err(to_owned_string("El UUID indicado ya está asignado a otra factura."));
    }
    Ok(())
}

/// Only a pending invoice is stamped: the update must have found one.
pub fn check_factura_pendiente_actualizada(filas_actualizadas: usize) -> (r: Result<(), String>)
    ensures
        command_outcome(
            r,
            if filas_actualizadas == 0 {
                Some("No se encontró una factura PENDIENTE para timbrar."@)
            } else {
                None
            },
        ),
{
    if filas_actualizadas == 0 {
        return Err(to_owned_string("No se encontró una factura PENDIENTE para timbrar."));
    }
    Ok(())
}

/// Stamping is refused for a UUID that does not look like one, whatever the
/// invoice.
pub proof fn law_stamping_guards(factura_id: Seq<char>, uuid: Seq<char>)
    requires
        uuid_check(unicode_upper(trim(uuid))) is Some,
    ensures
        timbrado_check(factura_id, uuid) is Some,
{
}

} // verus!
