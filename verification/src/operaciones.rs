//! The permission steps of operations that otherwise read and write the
//! database: each function here is one decision, taking what was read.
use vstd::prelude::*;
use crate::model::{RecibirTraspasoInput, Usuario};
use crate::auth::{
    admin_role, ensure_can_read_sucursal, ensure_superadmin, is_admin_or_superadmin_role,
    is_superadmin, superadmin_role,
};
use crate::error::command_outcome;
use crate::text::{concat2, is_blank, is_blank_str, push_str, str_eq, to_owned_string, trim};

verus! {

// ---------------------------------------------------------------------------
// First configuration
// ---------------------------------------------------------------------------

pub open spec fn setup_decision(sesion: Option<Usuario>, active_users: int) -> Option<Seq<char>> {
    match sesion {
        Some(u) => if superadmin_role(u.role@) {
            None
        } else {
            Some("Esta operación requiere permisos de SUPERADMIN."@)
        },
        None => if active_users == 0 {
            None
        } else {
            Some("Esta operación requiere una sesión activa de SUPERADMIN."@)
        },
    }
}

/// Operations of the first configuration: allowed to a superadmin in
/// session, or to anyone while the system has no active user.
pub fn require_superadmin_or_initial_setup(sesion: Option<&Usuario>, active_users: i64) -> (r: Result<(), String>)
    ensures
        command_outcome(r, setup_decision(crate::auth::opt_user(sesion), active_users as int)),
{
    match sesion {
        Some(user) => ensure_superadmin(user),
        None => {
            if active_users == 0 {
                Ok(())
            } else {
                Err(to_owned_string("Esta operación requiere una sesión activa de SUPERADMIN."))
            }
        },
    }
}

/// Without a session, the first configuration is open only while no user
/// exists.
pub proof fn law_setup_only_when_empty(active_users: int)
    ensures
        setup_decision(None, active_users) is None <==> active_users == 0,
{
}

// ---------------------------------------------------------------------------
// Sales
// ---------------------------------------------------------------------------

pub open spec fn venta_actor_decision(actor: Usuario, usuario_id: Seq<char>, sucursal_id: Seq<char>) -> Option<Seq<char>> {
    if actor.id@ != usuario_id || actor.sucursal_id@ != sucursal_id {
        Some("No puedes registrar ventas para otro usuario o sucursal."@)
    } else {
        None
    }
}

/// A sale is registered only in the name and at the branch of the user in
/// session.
pub fn check_venta_actor(actor: &Usuario, usuario_id: &str, sucursal_id: &str) -> (r: Result<(), String>)
    ensures
        command_outcome(r, venta_actor_decision(*actor, usuario_id@, sucursal_id@)),
{
    if !str_eq(actor.id.as_str(), usuario_id) || !str_eq(actor.sucursal_id.as_str(), sucursal_id) {
        return Err(to_owned_string("No puedes registrar ventas para otro usuario o sucursal."));
    }
    Ok(())
}

// ---------------------------------------------------------------------------
// Cancelling a sale
// ---------------------------------------------------------------------------

pub open spec fn solicitud_cancelacion_check(
    venta_id: Seq<char>,
    usuario_autorizo_id: Seq<char>,
    clave: Seq<char>,
    motivo: Seq<char>,
    fecha: Seq<char>,
) -> Option<Seq<char>> {
    if is_blank(venta_id) {
        Some("Falta el identificador de la venta."@)
    } else if is_blank(usuario_autorizo_id) || is_blank(clave) || is_blank(motivo) || is_blank(fecha) {
        Some("La cancelación requiere usuario autorizador, contraseña/PIN, motivo y fecha."@)
    } else {
        None
    }
}

/// A cancellation names the sale, who authorises it, their password or PIN,
/// the reason and the date.
pub fn validar_solicitud_cancelacion(
    venta_id: &str,
    usuario_autorizo_id: &str,
    usuario_autorizo_clave: &str,
    motivo_cancelacion: &str,
    fecha_cancelacion: &str,
) -> (r: Result<(), String>)
    ensures
        command_outcome(
            r,
            solicitud_cancelacion_check(
                venta_id@,
                usuario_autorizo_id@,
                usuario_autorizo_clave@,
                motivo_cancelacion@,
                fecha_cancelacion@,
            ),
        ),
{
    if is_blank_str(venta_id) {
        return Err(to_owned_string("Falta el identificador de la venta."));
    }
    if is_blank_str(usuario_autorizo_id) || is_blank_str(usuario_autorizo_clave) || is_blank_str(
        motivo_cancelacion,
    ) || is_blank_str(fecha_cancelacion) {
        return Err(
            to_owned_string(
                "La cancelación requiere usuario autorizador, contraseña/PIN, motivo y fecha.",
            ),
        );
    }
    Ok(())
}

pub open spec fn venta_cancelable_check(actor: Usuario, sucursal_id: Seq<char>, estado: Seq<char>) -> Option<Seq<char>> {
    if estado == "CANCELADA"@ {
        Some("La venta ya fue cancelada previamente."@)
    } else if !(superadmin_role(actor.role@) || actor.sucursal_id@ == sucursal_id) {
        Some("No tienes permisos para consultar información de otra sucursal."@)
    } else {
        None
    }
}

/// The sale, as read, can still be cancelled by the user in session.
pub fn check_venta_cancelable(actor: &Usuario, sucursal_id: &str, estado: &str) -> (r: Result<(), String>)
    ensures
        command_outcome(r, venta_cancelable_check(*actor, sucursal_id@, estado@)),
{
    if str_eq(estado, "CANCELADA") {
        return Err(to_owned_string("La venta ya fue cancelada previamente."));
    }
    ensure_can_read_sucursal(actor, sucursal_id)
}

pub open spec fn factura_cancelable_check(factura_estado: Option<Seq<char>>) -> Option<Seq<char>> {
    if factura_estado == Some("TIMBRADA"@) {
        Some(
            "No puedes cancelar una venta con factura TIMBRADA. Primero cancela el CFDI ante el SAT/PAC."@,
        )
    } else {
        None
    }
}

/// `factura_estado` is the state of the sale's latest invoice, if any.
pub fn check_factura_no_timbrada(factura_estado: Option<&str>) -> (r: Result<(), String>)
    ensures
        command_outcome(
            r,
            factura_cancelable_check(
                match factura_estado {
                    Some(s) => Some(s@),
                    None => None,
                },
            ),
        ),
{
    match factura_estado {
        Some(e) => {
            if str_eq(e, "TIMBRADA") {
                return Err(
                    to_owned_string(
                        "No puedes cancelar una venta con factura TIMBRADA. Primero cancela el CFDI ante el SAT/PAC.",
                    ),
                );
            }
            Ok(())
        },
        None => Ok(()),
    }
}

pub open spec fn autorizador_check(role: Seq<char>, autorizador_sucursal: Seq<char>, venta_sucursal: Seq<char>) -> Option<Seq<char>> {
    if !(role == "ADMIN"@ || role == "SUPERADMIN"@) {
        Some("Solo un ADMIN o SUPERADMIN puede autorizar cancelaciones."@)
    } else if role != "SUPERADMIN"@ && autorizador_sucursal != venta_sucursal {
        Some("El ADMIN autorizador solo puede cancelar ventas de su propia sucursal."@)
    } else {
        None
    }
}

/// The user who authorises a cancellation is an administrator of the sale's
/// branch, or a superadmin.
pub fn check_autorizador_cancelacion(role: &str, autorizador_sucursal_id: &str, venta_sucursal_id: &str) -> (r: Result<(), String>)
    ensures
        command_outcome(r, autorizador_check(role@, autorizador_sucursal_id@, venta_sucursal_id@)),
{
    if !(str_eq(role, "ADMIN") || str_eq(role, "SUPERADMIN")) {
        return Err(to_owned_string("Solo un ADMIN o SUPERADMIN puede autorizar cancelaciones."));
    }
    if !str_eq(role, "SUPERADMIN") && !str_eq(autorizador_sucursal_id, venta_sucursal_id) {
        return Err(
            to_owned_string("El ADMIN autorizador solo puede cancelar ventas de su propia sucursal."),
        );
    }
    Ok(())
}

/// A sale whose invoice was stamped cannot be cancelled, and only an
/// administrator of its branch or a superadmin can authorise a cancellation.
pub proof fn law_cancellation_guards(
    factura_estado: Option<Seq<char>>,
    role: Seq<char>,
    autorizador_sucursal: Seq<char>,
    venta_sucursal: Seq<char>,
)
    ensures
        factura_estado == Some("TIMBRADA"@) ==> factura_cancelable_check(factura_estado) is Some,
        autorizador_check(role, autorizador_sucursal, venta_sucursal) is None ==> (role == "SUPERADMIN"@
            || (role == "ADMIN"@ && autorizador_sucursal == venta_sucursal)),
{
}

// ---------------------------------------------------------------------------
// Transfers
// ---------------------------------------------------------------------------

pub open spec fn traspaso_actor_check(actor: Usuario, usuario_id: Seq<char>, sucursal_origen_id: Seq<char>) -> Option<Seq<char>> {
    if actor.id@ != usuario_id {
        Some("No puedes registrar traspasos a nombre de otro usuario."@)
    } else if !superadmin_role(actor.role@) && actor.sucursal_id@ != sucursal_origen_id {
        Some("Operación inválida: solo puedes traspasar mercancía desde tu sucursal."@)
    } else {
        None
    }
}

/// A transfer is sent by the user in session, from their own branch unless
/// they are a superadmin.
pub fn check_traspaso_actor(actor: &Usuario, usuario_id: &str, sucursal_origen_id: &str) -> (r: Result<(), String>)
    ensures
        command_outcome(r, traspaso_actor_check(*actor, usuario_id@, sucursal_origen_id@)),
{
    if !str_eq(actor.id.as_str(), usuario_id) {
        return Err(to_owned_string("No puedes registrar traspasos a nombre de otro usuario."));
    }
    if !is_superadmin(actor) && !str_eq(actor.sucursal_id.as_str(), sucursal_origen_id) {
        return Err(
            to_owned_string("Operación inválida: solo puedes traspasar mercancía desde tu sucursal."),
        );
    }
    Ok(())
}

pub open spec fn recepcion_input_check(input: RecibirTraspasoInput, sesion_id: Seq<char>) -> Option<Seq<char>> {
    if is_blank(input.traspaso_id@) || is_blank(input.usuario_recibio_id@) || is_blank(
        input.fecha_recepcion@,
    ) {
        Some("Datos incompletos para recibir el traspaso."@)
    } else if sesion_id != input.usuario_recibio_id@ {
        Some("Operación inválida: el usuario receptor debe coincidir con la sesión activa."@)
    } else {
        None
    }
}

/// A reception names the transfer, who receives it and when; who receives it
/// is the user in session (`sesion_usuario_id`).
pub fn validar_recepcion_traspaso(input: &RecibirTraspasoInput, sesion_usuario_id: &str) -> (r: Result<(), String>)
    ensures
        command_outcome(r, recepcion_input_check(*input, sesion_usuario_id@)),
{
    if is_blank_str(input.traspaso_id.as_str()) || is_blank_str(input.usuario_recibio_id.as_str())
        || is_blank_str(input.fecha_recepcion.as_str()) {
        return Err(to_owned_string("Datos incompletos para recibir el traspaso."));
    }
    if !str_eq(sesion_usuario_id, input.usuario_recibio_id.as_str()) {
        return Err(
            to_owned_string(
                "Operación inválida: el usuario receptor debe coincidir con la sesión activa.",
            ),
        );
    }
    Ok(())
}

pub open spec fn recepcion_check(actor: Usuario, destino_id: Seq<char>, estado: Seq<char>) -> Option<Seq<char>> {
    if estado != "EN_TRANSITO"@ {
        Some("El traspaso no puede recibirse porque está en estado "@ + estado + "."@)
    } else if !superadmin_role(actor.role@) && actor.sucursal_id@ != destino_id {
        Some("Operación inválida: solo la sucursal destino puede recibir este traspaso."@)
    } else {
        None
    }
}

/// The transfer, as read, can be received by the user in session.
pub fn check_recepcion_traspaso(actor: &Usuario, sucursal_destino_id: &str, estado: &str) -> (r: Result<(), String>)
    ensures
        command_outcome(r, recepcion_check(*actor, sucursal_destino_id@, estado@)),
{
    if !str_eq(estado, "EN_TRANSITO") {
        let mut m = concat2("El traspaso no puede recibirse porque está en estado ", estado);
        push_str(&mut m, ".");
        return Err(m);
    }
    if !is_superadmin(actor) && !str_eq(actor.sucursal_id.as_str(), sucursal_destino_id) {
        return Err(
            to_owned_string(
                "Operación inválida: solo la sucursal destino puede recibir este traspaso.",
            ),
        );
    }
    Ok(())
}

/// A transfer in transit is received by its destination branch, or by a
/// superadmin from anywhere; nobody else.
pub proof fn law_reception_by_destination(actor: Usuario, destino_id: Seq<char>)
    ensures
        recepcion_check(actor, destino_id, "EN_TRANSITO"@) is None <==> (superadmin_role(actor.role@)
            || actor.sucursal_id@ == destino_id),
{
}


// ---------------------------------------------------------------------------
// Promotions and quick sales
// ---------------------------------------------------------------------------

/// Every branch of the promotion is the actor's own.
pub open spec fn all_own_branch(actor: Usuario, sucursales: Seq<String>) -> bool {
    forall|k: int| 0 <= k < sucursales.len() ==> (#[trigger] sucursales[k])@ == actor.sucursal_id@
}

fn all_equal_to(items: &[String], s: &str) -> (r: bool)
    ensures
        r == forall|k: int| 0 <= k < items@.len() ==> (#[trigger] items@[k])@ == s@,
{
    let mut i: usize = 0;
    while i < items.len()
        invariant
            i <= items@.len(),
            forall|k: int| 0 <= k < i ==> (#[trigger] items@[k])@ == s@,
        decreases items@.len() - i,
    {
        if !str_eq(items[i].as_str(), s) {
            return false;
        }
        i = i + 1;
    }
    true
}

/// Who may change a promotion: a superadmin any; anyone else only one that
/// is new or reaches no branch but theirs. `sucursales` are the branches the
/// promotion reaches now.
pub open spec fn modificar_promocion_check(actor: Usuario, sucursales: Seq<String>) -> Option<Seq<char>> {
    if !superadmin_role(actor.role@) && sucursales.len() > 0 && !all_own_branch(actor, sucursales) {
        Some("Operación inválida: un administrador solo puede modificar promociones de su sucursal."@)
    } else {
        None
    }
}

pub fn check_modificar_promocion(actor: &Usuario, sucursales_actuales: &[String]) -> (r: Result<(), String>)
    ensures
        command_outcome(r, modificar_promocion_check(*actor, sucursales_actuales@)),
{
    if !is_superadmin(actor) && sucursales_actuales.len() > 0 && !all_equal_to(
        sucursales_actuales,
        actor.sucursal_id.as_str(),
    ) {
        return Err(
            to_owned_string(
                "Operación inválida: un administrador solo puede modificar promociones de su sucursal.",
            ),
        );
    }
    Ok(())
}

/// Who may delete a promotion: a superadmin any; anyone else only one that
/// reaches some branch and no branch but theirs.
pub open spec fn eliminar_promocion_check(actor: Usuario, sucursales: Seq<String>) -> Option<Seq<char>> {
    if !superadmin_role(actor.role@) && (sucursales.len() == 0 || !all_own_branch(actor, sucursales)) {
        Some("Operación inválida: un administrador solo puede eliminar promociones de su sucursal."@)
    } else {
        None
    }
}

pub fn check_eliminar_promocion(actor: &Usuario, sucursales_actuales: &[String]) -> (r: Result<(), String>)
    ensures
        command_outcome(r, eliminar_promocion_check(*actor, sucursales_actuales@)),
{
    if !is_superadmin(actor) && (sucursales_actuales.len() == 0 || !all_equal_to(
        sucursales_actuales,
        actor.sucursal_id.as_str(),
    )) {
        return Err(
            to_owned_string(
                "Operación inválida: un administrador solo puede eliminar promociones de su sucursal.",
            ),
        );
    }
    Ok(())
}

/// A user who is not a superadmin never changes or deletes a promotion that
/// reaches another branch.
pub proof fn law_promotions_of_other_branches_untouched(actor: Usuario, sucursales: Seq<String>, k: int)
    requires
        !superadmin_role(actor.role@),
        0 <= k < sucursales.len(),
        sucursales[k]@ != actor.sucursal_id@,
    ensures
        modificar_promocion_check(actor, sucursales) is Some,
        eliminar_promocion_check(actor, sucursales) is Some,
{
}

/// A quick sale is opened only at the user's branch, unless the user is a
/// superadmin.
pub fn check_venta_diversa(actor: &Usuario, sucursal_id: &str) -> (r: Result<(), String>)
    ensures
        command_outcome(
            r,
            if !superadmin_role(actor.role@) && actor.sucursal_id@ != sucursal_id@ {
                Some("No puedes crear venta rápida para otra sucursal."@)
            } else {
                None
            },
        ),
{
    if !is_superadmin(actor) && !str_eq(actor.sucursal_id.as_str(), sucursal_id) {
        return Err(to_owned_string("No puedes crear venta rápida para otra sucursal."));
    }
    Ok(())
}


// ---------------------------------------------------------------------------
// Cash registers
// ---------------------------------------------------------------------------

/// A user acts on a cash register of their own, at their own branch.
pub open spec fn own_register(actor: Usuario, usuario_id: Seq<char>, sucursal_id: Seq<char>) -> bool {
    actor.id@ == usuario_id && actor.sucursal_id@ == sucursal_id
}

fn is_own_register(actor: &Usuario, usuario_id: &str, sucursal_id: &str) -> (r: bool)
    ensures
        r == own_register(*actor, usuario_id@, sucursal_id@),
{
    str_eq(actor.id.as_str(), usuario_id) && str_eq(actor.sucursal_id.as_str(), sucursal_id)
}

/// A register is opened only by its user, at their branch.
pub fn check_apertura_propia(actor: &Usuario, usuario_id: &str, sucursal_id: &str) -> (r: Result<(), String>)
    ensures
        command_outcome(
            r,
            if own_register(*actor, usuario_id@, sucursal_id@) {
                None
            } else {
                Some("No puedes abrir caja para otro usuario o sucursal."@)
            },
        ),
{
    if !is_own_register(actor, usuario_id, sucursal_id) {
        return Err(to_owned_string("No puedes abrir caja para otro usuario o sucursal."));
    }
    Ok(())
}

/// A user looks only at their own register at their branch.
pub fn check_consulta_caja(actor: &Usuario, usuario_id: &str, sucursal_id: &str) -> (r: Result<(), String>)
    ensures
        command_outcome(
            r,
            if own_register(*actor, usuario_id@, sucursal_id@) {
                None
            } else {
                Some("No puedes consultar la caja de otro usuario o sucursal."@)
            },
        ),
{
    if !is_own_register(actor, usuario_id, sucursal_id) {
        return Err(to_owned_string("No puedes consultar la caja de otro usuario o sucursal."));
    }
    Ok(())
}

/// The count of the registers open at a branch (parameter: the branch),
/// whoever opened them.
pub open spec fn cajas_abiertas_sql() -> Seq<char> {
    "SELECT COUNT(*) FROM cajas_sesiones WHERE sucursal_id = ?1 AND estado = 'ABIERTA'"@
}

pub fn sql_cajas_abiertas() -> (r: String)
    ensures
        r@ == cajas_abiertas_sql(),
{
    to_owned_string("SELECT COUNT(*) FROM cajas_sesiones WHERE sucursal_id = ?1 AND estado = 'ABIERTA'")
}

pub open spec fn sin_caja_abierta_check(abiertas: int) -> Option<Seq<char>> {
    if abiertas > 0 {
        Some("Ya existe una caja ABIERTA en esta sucursal."@)
    } else {
        None
    }
}

/// A branch has at most one open register: a register is opened only when
/// `abiertas`, the count of `cajas_abiertas_sql` for the branch, is zero.
pub fn check_sin_caja_abierta(abiertas: i64) -> (r: Result<(), String>)
    ensures
        command_outcome(r, sin_caja_abierta_check(abiertas as int)),
{
    if abiertas > 0 {
        return Err(to_owned_string("Ya existe una caja ABIERTA en esta sucursal."));
    }
    Ok(())
}

/// A second register is never opened at a branch: the count that opening
/// checks is taken over the whole branch, by branch and state alone, and any
/// open register found refuses the opening.
pub proof fn law_one_open_register_per_branch(abiertas: int)
    requires
        abiertas > 0,
    ensures
        sin_caja_abierta_check(abiertas) is Some,
        cajas_abiertas_sql() == "SELECT COUNT(*) FROM cajas_sesiones WHERE sucursal_id = ?1 AND estado = 'ABIERTA'"@,
{
}

/// A register is closed only while open, and only by its user at their
/// branch.
pub open spec fn cierre_caja_check(actor: Usuario, estado: Seq<char>, usuario_id: Seq<char>, sucursal_id: Seq<char>) -> Option<Seq<char>> {
    if estado != "ABIERTA"@ {
        Some("La caja seleccionada ya está cerrada."@)
    } else if !own_register(actor, usuario_id, sucursal_id) {
        Some("No puedes cerrar una caja que no pertenece a tu sesión."@)
    } else {
        None
    }
}

pub fn check_caja_para_cerrar(actor: &Usuario, estado: &str, usuario_id: &str, sucursal_id: &str) -> (r: Result<(), String>)
    ensures
        command_outcome(r, cierre_caja_check(*actor, estado@, usuario_id@, sucursal_id@)),
{
    if !str_eq(estado, "ABIERTA") {
        return Err(to_owned_string("La caja seleccionada ya está cerrada."));
    }
    if !is_own_register(actor, usuario_id, sucursal_id) {
        return Err(to_owned_string("No puedes cerrar una caja que no pertenece a tu sesión."));
    }
    Ok(())
}

/// A register with cash expected in it is not closed with nothing counted.
/// `esperado_positivo` is `monto_esperado > 0.0` and `contado_no_positivo`
/// is `monto_final_real <= 0.0`.
pub fn check_cierre_con_efectivo(esperado_positivo: bool, contado_no_positivo: bool) -> (r: Result<(), String>)
    ensures
        command_outcome(
            r,
            if esperado_positivo && contado_no_positivo {
                Some("No puedes cerrar la caja en $0.00 cuando el monto esperado es mayor a cero."@)
            } else {
                None
            },
        ),
{
    if esperado_positivo && contado_no_positivo {
        return Err(
            to_owned_string("No puedes cerrar la caja en $0.00 cuando el monto esperado es mayor a cero."),
        );
    }
    Ok(())
}

/// The close must have found the register still open.
pub fn check_cierre_aplicado(filas: usize) -> (r: Result<(), String>)
    ensures
        command_outcome(
            r,
            if filas != 1 {
                Some("La caja ya no está ABIERTA. No se aplicó el cierre."@)
            } else {
                None
            },
        ),
{
    if filas != 1 {
        return Err(to_owned_string("La caja ya no está ABIERTA. No se aplicó el cierre."));
    }
    Ok(())
}

/// Cash comes in or goes out only through an open register of the user's
/// own, at their branch.
pub open spec fn movimiento_caja_check(actor: Usuario, estado: Seq<char>, usuario_id: Seq<char>, sucursal_id: Seq<char>) -> Option<Seq<char>> {
    if estado != "ABIERTA"@ {
        Some("Solo se pueden registrar movimientos en una caja ABIERTA."@)
    } else if !own_register(actor, usuario_id, sucursal_id) {
        Some("No puedes registrar movimientos en una caja que no pertenece a tu sesión."@)
    } else {
        None
    }
}

pub fn check_caja_para_movimiento(actor: &Usuario, estado: &str, usuario_id: &str, sucursal_id: &str) -> (r: Result<(), String>)
    ensures
        command_outcome(r, movimiento_caja_check(*actor, estado@, usuario_id@, sucursal_id@)),
{
    if !str_eq(estado, "ABIERTA") {
        return Err(to_owned_string("Solo se pueden registrar movimientos en una caja ABIERTA."));
    }
    if !is_own_register(actor, usuario_id, sucursal_id) {
        return Err(to_owned_string("No puedes registrar movimientos en una caja que no pertenece a tu sesión."));
    }
    Ok(())
}

// ---------------------------------------------------------------------------
// Sales
// ---------------------------------------------------------------------------

/// A sale is made at a branch that still exists.
pub fn check_sucursal_de_venta(existe: i64) -> (r: Result<(), String>)
    ensures
        command_outcome(
            r,
            if existe == 0 {
                Some("La sucursal de la venta ya no existe."@)
            } else {
                None
            },
        ),
{
    if existe == 0 {
        return Err(to_owned_string("La sucursal de la venta ya no existe."));
    }
    Ok(())
}

/// Nothing is sold without an open register.
pub fn check_caja_abierta_para_vender(abiertas: i64) -> (r: Result<(), String>)
    ensures
        command_outcome(
            r,
            if abiertas == 0 {
                Some("No puedes vender sin una caja ABIERTA. Abre caja para continuar."@)
            } else {
                None
            },
        ),
{
    if abiertas == 0 {
        return Err(to_owned_string("No puedes vender sin una caja ABIERTA. Abre caja para continuar."));
    }
    Ok(())
}

/// What is said when a sold product is not stocked at the branch.
pub fn producto_fuera_de_inventario(producto_id: &str) -> (r: String)
    ensures
        r@ == "El producto "@ + producto_id@ + " no existe en el inventario de la sucursal."@,
{
    let mut m = to_owned_string("El producto ");
    push_str(&mut m, producto_id);
    push_str(&mut m, " no existe en el inventario de la sucursal.");
    m
}

/// The quick-sale article, sold at a price typed in at the counter.
pub fn es_articulo_diverso(clave_producto: &str) -> (r: bool)
    ensures
        r == (clave_producto@ == "VENTA_DIVERSA"@),
{
    str_eq(clave_producto, "VENTA_DIVERSA")
}

/// Only an administrator or superadmin (in any ASCII case) charges the
/// quick-sale article.
pub fn check_rol_articulo_diverso(role: &str) -> (r: Result<(), String>)
    ensures
        command_outcome(
            r,
            if admin_role(role@) {
                None
            } else {
                Some("Solo ADMIN o SUPERADMIN pueden cobrar artículo diverso."@)
            },
        ),
{
    if !is_admin_or_superadmin_role(role) {
        return Err(to_owned_string("Solo ADMIN o SUPERADMIN pueden cobrar artículo diverso."));
    }
    Ok(())
}

/// The kind of price a line was sold at: the price tier, marked `+PROMO`
/// when a promotion applied.
pub fn tipo_precio_vendido(tipo_base: &str, con_promocion: bool) -> (r: String)
    ensures
        r@ == (if con_promocion {
            tipo_base@ + "+PROMO"@
        } else {
            tipo_base@
        }),
{
    let mut t = to_owned_string(tipo_base);
    if con_promocion {
        push_str(&mut t, "+PROMO");
    }
    t
}

/// How a sale is settled: cash (the cash received and the change are
/// checked and recorded), credit (the customer's balance carries it, and a
/// cancellation gives it back), or any other means, which touches neither.
#[derive(PartialEq, Eq, Structural, Debug, Clone, Copy)]
pub enum CobroDeVenta {
    Efectivo,
    Credito,
    Otro,
}

pub open spec fn cobro_de(metodo_pago: Seq<char>) -> CobroDeVenta {
    if metodo_pago == "EFECTIVO"@ {
        CobroDeVenta::Efectivo
    } else if metodo_pago == "CREDITO"@ {
        CobroDeVenta::Credito
    } else {
        CobroDeVenta::Otro
    }
}

/// The settlement of a sale by its payment method, as written.
pub fn cobro_de_venta(metodo_pago: &str) -> (r: CobroDeVenta)
    ensures
        r == cobro_de(metodo_pago@),
{
    if str_eq(metodo_pago, "EFECTIVO") {
        CobroDeVenta::Efectivo
    } else if str_eq(metodo_pago, "CREDITO") {
        CobroDeVenta::Credito
    } else {
        CobroDeVenta::Otro
    }
}

/// A sale carried by the customer's credit is exactly the one invoiced as
/// paid later (`PPD`).
pub proof fn law_credit_sales_paid_later(metodo_pago: Seq<char>)
    ensures
        (cobro_de(metodo_pago) == CobroDeVenta::Credito) <==> (crate::fiscal::metodo_pago_sat(metodo_pago)
            == "PPD"@),
{
    reveal_strlit("EFECTIVO");
    reveal_strlit("CREDITO");
    reveal_strlit("PPD");
    reveal_strlit("PUE");
    assert("EFECTIVO"@.len() != "CREDITO"@.len());
    assert("PUE"@[1] != "PPD"@[1]);
}

/// Only a user whose role reads exactly `ADMIN` or `SUPERADMIN` sells on
/// credit, and only to a named customer (the identifier, trimmed).
pub open spec fn venta_credito_check(role: Seq<char>, cliente_id: Option<Seq<char>>) -> Result<Seq<char>, Seq<char>> {
    if !(role == "ADMIN"@ || role == "SUPERADMIN"@) {
        Err("Solo ADMIN o SUPERADMIN pueden registrar ventas a crédito."@)
    } else {
        match cliente_id {
            Some(c) => if trim(c).len() > 0 {
                Ok(trim(c))
            } else {
                Err("Selecciona un cliente para venta a crédito."@)
            },
            None => Err("Selecciona un cliente para venta a crédito."@),
        }
    }
}

pub fn cliente_de_venta_a_credito(role: &str, cliente_id: Option<&String>) -> (r: Result<String, String>)
    ensures
        match venta_credito_check(role@, crate::text::opt_ref_seq(cliente_id)) {
            Ok(c) => r matches Ok(x) && x@ == c,
            Err(m) => r matches Err(x) && x@ == m,
        },
{
    if !(str_eq(role, "ADMIN") || str_eq(role, "SUPERADMIN")) {
        return Err(to_owned_string("Solo ADMIN o SUPERADMIN pueden registrar ventas a crédito."));
    }
    match cliente_id {
        Some(c) => {
            let t = crate::text::trim_str(c.as_str());
            if t.as_str().is_empty() {
                Err(to_owned_string("Selecciona un cliente para venta a crédito."))
            } else {
                Ok(t)
            }
        },
        None => Err(to_owned_string("Selecciona un cliente para venta a crédito.")),
    }
}

/// The credit was granted only if the customer's balance was updated.
pub fn check_credito_aplicado(filas: usize) -> (r: Result<(), String>)
    ensures
        command_outcome(
            r,
            if filas != 1 {
                Some(
                    "No se pudo autorizar el crédito porque el saldo del cliente cambió. Actualiza e intenta de nuevo."@,
                )
            } else {
                None
            },
        ),
{
    if filas != 1 {
        return Err(
            to_owned_string(
                "No se pudo autorizar el crédito porque el saldo del cliente cambió. Actualiza e intenta de nuevo.",
            ),
        );
    }
    Ok(())
}

/// The update that takes a sold quantity out of a branch's stock. Unless the
/// product allows negative sales it only applies where the stock covers the
/// quantity (parameters: quantity, product, branch).
pub open spec fn descuento_stock_sql(permite_ventas_negativas: bool) -> Seq<char> {
    if permite_ventas_negativas {
        "UPDATE inventario_sucursal SET stock = stock - ?1, sincronizado = 0, updated_at = datetime('now') WHERE producto_id = ?2 AND sucursal_id = ?3"@
    } else {
        "UPDATE inventario_sucursal SET stock = stock - ?1, sincronizado = 0, updated_at = datetime('now') WHERE producto_id = ?2 AND sucursal_id = ?3 AND stock >= ?1"@
    }
}

pub fn sql_descuento_stock(permite_ventas_negativas: bool) -> (r: String)
    ensures
        r@ == descuento_stock_sql(permite_ventas_negativas),
{
    if permite_ventas_negativas {
        to_owned_string(
            "UPDATE inventario_sucursal SET stock = stock - ?1, sincronizado = 0, updated_at = datetime('now') WHERE producto_id = ?2 AND sucursal_id = ?3",
        )
    } else {
        to_owned_string(
            "UPDATE inventario_sucursal SET stock = stock - ?1, sincronizado = 0, updated_at = datetime('now') WHERE producto_id = ?2 AND sucursal_id = ?3 AND stock >= ?1",
        )
    }
}

pub open spec fn stock_descontado_check(filas: int, producto_id: Seq<char>) -> Option<Seq<char>> {
    if filas != 1 {
        Some("Stock insuficiente para producto "@ + producto_id + ". Operación cancelada."@)
    } else {
        None
    }
}

/// A sold line goes through only when its stock update touched its one
/// inventory row; otherwise the whole sale is cancelled.
pub fn check_stock_descontado(filas: usize, producto_id: &str) -> (r: Result<(), String>)
    ensures
        command_outcome(r, stock_descontado_check(filas as int, producto_id@)),
{
    if filas != 1 {
        let mut m = to_owned_string("Stock insuficiente para producto ");
        push_str(&mut m, producto_id);
        push_str(&mut m, ". Operación cancelada.");
        return Err(m);
    }
    Ok(())
}

pub open spec fn salida_traspaso_check(filas: int, producto_id: Seq<char>) -> Option<Seq<char>> {
    if filas != 1 {
        Some(
            "Stock insuficiente para producto "@ + producto_id
                + " en sucursal origen. Operación cancelada."@,
        )
    } else {
        None
    }
}

/// A transferred line leaves the origin branch only when the guarded stock
/// update touched its one row; otherwise the whole transfer is cancelled.
pub fn check_salida_traspaso(filas: usize, producto_id: &str) -> (r: Result<(), String>)
    ensures
        command_outcome(r, salida_traspaso_check(filas as int, producto_id@)),
{
    if filas != 1 {
        let mut m = to_owned_string("Stock insuficiente para producto ");
        push_str(&mut m, producto_id);
        push_str(&mut m, " en sucursal origen. Operación cancelada.");
        return Err(m);
    }
    Ok(())
}

/// Selling or transferring more than the stock is refused: for a product
/// without negative sales (and for every transfer) the stock update is the
/// unguarded one restricted to rows whose stock covers the quantity, and an
/// update that touched no row cancels the sale or the transfer.
pub proof fn law_oversell_refused(producto_id: Seq<char>)
    ensures
        descuento_stock_sql(false) == descuento_stock_sql(true) + " AND stock >= ?1"@,
        stock_descontado_check(0, producto_id) is Some,
        salida_traspaso_check(0, producto_id) is Some,
{
    reveal_strlit(
        "UPDATE inventario_sucursal SET stock = stock - ?1, sincronizado = 0, updated_at = datetime('now') WHERE producto_id = ?2 AND sucursal_id = ?3",
    );
    reveal_strlit(
        "UPDATE inventario_sucursal SET stock = stock - ?1, sincronizado = 0, updated_at = datetime('now') WHERE producto_id = ?2 AND sucursal_id = ?3 AND stock >= ?1",
    );
    reveal_strlit(" AND stock >= ?1");
    assert(descuento_stock_sql(false) =~= descuento_stock_sql(true) + " AND stock >= ?1"@);
}

/// A sale takes the sold quantity out of the branch's stock: whether or not
/// negative stock is allowed, the update sets the stock to itself minus the
/// quantity (`?1`), marks the row pending synchronisation, and touches only
/// the row of the sold product (`?2`) at the selling branch (`?3`).
pub proof fn law_sale_subtracts_sold_quantity(permite_ventas_negativas: bool)
    ensures
        descuento_stock_sql(permite_ventas_negativas).subrange(0, 49)
            == "UPDATE inventario_sucursal SET stock = stock - ?1"@,
        descuento_stock_sql(permite_ventas_negativas).subrange(51, 67) == "sincronizado = 0"@,
        descuento_stock_sql(permite_ventas_negativas).subrange(97, 141)
            == " WHERE producto_id = ?2 AND sucursal_id = ?3"@,
{
    reveal_strlit(
        "UPDATE inventario_sucursal SET stock = stock - ?1, sincronizado = 0, updated_at = datetime('now') WHERE producto_id = ?2 AND sucursal_id = ?3",
    );
    reveal_strlit(
        "UPDATE inventario_sucursal SET stock = stock - ?1, sincronizado = 0, updated_at = datetime('now') WHERE producto_id = ?2 AND sucursal_id = ?3 AND stock >= ?1",
    );
    reveal_strlit("UPDATE inventario_sucursal SET stock = stock - ?1");
    reveal_strlit("sincronizado = 0");
    reveal_strlit(" WHERE producto_id = ?2 AND sucursal_id = ?3");
    let q = descuento_stock_sql(permite_ventas_negativas);
    assert(q.subrange(0, 49) =~= "UPDATE inventario_sucursal SET stock = stock - ?1"@);
    assert(q.subrange(51, 67) =~= "sincronizado = 0"@);
    assert(q.subrange(97, 141) =~= " WHERE producto_id = ?2 AND sucursal_id = ?3"@);
}

/// How a loss or adjustment is recorded: the movement type stored with it,
/// the stock-card type, and whether it adds to the stock.
pub struct AjusteClasificado {
    pub tipo_movimiento: String,
    pub tipo_kardex: String,
    pub entrada: bool,
}

/// `AJUSTE` alone is an outgoing adjustment; every other type is stored as
/// given. Only `AJUSTE_ENTRADA` adds stock; what is neither kind of adjustment
/// is a loss (`MERMA`) on the stock card.
pub open spec fn movimiento_de_ajuste(tipo: Seq<char>) -> Seq<char> {
    if tipo == "AJUSTE"@ {
        "AJUSTE_SALIDA"@
    } else {
        tipo
    }
}

pub open spec fn kardex_de_ajuste(tipo: Seq<char>) -> Seq<char> {
    let t = movimiento_de_ajuste(tipo);
    if t == "AJUSTE_ENTRADA"@ {
        "AJUSTE_ENTRADA"@
    } else if t == "AJUSTE_SALIDA"@ {
        "AJUSTE_SALIDA"@
    } else {
        "MERMA"@
    }
}

pub fn clasificar_ajuste(tipo_movimiento: &str) -> (r: AjusteClasificado)
    ensures
        r.tipo_movimiento@ == movimiento_de_ajuste(tipo_movimiento@),
        r.tipo_kardex@ == kardex_de_ajuste(tipo_movimiento@),
        r.entrada == (kardex_de_ajuste(tipo_movimiento@) == "AJUSTE_ENTRADA"@),
{
    let movimiento = if str_eq(tipo_movimiento, "AJUSTE") {
        to_owned_string("AJUSTE_SALIDA")
    } else {
        to_owned_string(tipo_movimiento)
    };
    let (kardex, entrada) = if str_eq(movimiento.as_str(), "AJUSTE_ENTRADA") {
        (to_owned_string("AJUSTE_ENTRADA"), true)
    } else if str_eq(movimiento.as_str(), "AJUSTE_SALIDA") {
        (to_owned_string("AJUSTE_SALIDA"), false)
    } else {
        (to_owned_string("MERMA"), false)
    };
    proof {
        reveal_strlit("AJUSTE_ENTRADA");
        reveal_strlit("AJUSTE_SALIDA");
        reveal_strlit("MERMA");
        assert("AJUSTE_SALIDA"@[7] != "AJUSTE_ENTRADA"@[7]);
        assert("MERMA"@.len() != "AJUSTE_ENTRADA"@.len());
    }
    AjusteClasificado { tipo_movimiento: movimiento, tipo_kardex: kardex, entrada }
}

pub open spec fn merma_descontada_check(filas: int, producto_id: Seq<char>) -> Option<Seq<char>> {
    if filas != 1 {
        Some("Stock insuficiente. Operación cancelada para producto "@ + producto_id + "."@)
    } else {
        None
    }
}

/// A loss or outgoing adjustment goes through only when the guarded stock
/// update touched its one row.
pub fn check_merma_descontada(filas: usize, producto_id: &str) -> (r: Result<(), String>)
    ensures
        command_outcome(r, merma_descontada_check(filas as int, producto_id@)),
{
    if filas != 1 {
        let mut m = to_owned_string("Stock insuficiente. Operación cancelada para producto ");
        push_str(&mut m, producto_id);
        push_str(&mut m, ".");
        return Err(m);
    }
    Ok(())
}

/// Only an incoming adjustment adds stock: every loss or other adjustment
/// takes stock out, and is refused when its guarded update touched no row.
pub proof fn law_losses_never_overdraw(tipo: Seq<char>, producto_id: Seq<char>)
    ensures
        kardex_de_ajuste(tipo) == "AJUSTE_ENTRADA"@ <==> tipo == "AJUSTE_ENTRADA"@,
        merma_descontada_check(0, producto_id) is Some,
{
    reveal_strlit("AJUSTE_ENTRADA");
    reveal_strlit("AJUSTE_SALIDA");
    reveal_strlit("AJUSTE");
    reveal_strlit("MERMA");
    assert("AJUSTE_SALIDA"@[7] != "AJUSTE_ENTRADA"@[7]);
    assert("MERMA"@.len() != "AJUSTE_ENTRADA"@.len());
}

// ---------------------------------------------------------------------------
// What a register's cash movements say
// ---------------------------------------------------------------------------

/// Refunds of cancelled sales are recorded as register expenses whose reason
/// starts with this text.
pub open spec fn prefijo_devolucion() -> Seq<char> {
    "DEVOLUCIÓN EN VENTA #"@
}

pub open spec fn motivo_devolucion_spec(venta_id: Seq<char>, motivo: Seq<char>) -> Seq<char> {
    prefijo_devolucion() + venta_id + " - "@ + motivo
}

/// The reason recorded with the refund of a cancelled sale.
pub fn motivo_devolucion(venta_id: &str, motivo: &str) -> (r: String)
    ensures
        r@ == motivo_devolucion_spec(venta_id@, motivo@),
{
    let mut m = to_owned_string("DEVOLUCIÓN EN VENTA #");
    push_str(&mut m, venta_id);
    push_str(&mut m, " - ");
    push_str(&mut m, motivo);
    m
}

/// The identifier of the refund movement of a sale cancelled on a date.
pub fn id_devolucion(venta_id: &str, fecha_cancelacion: &str) -> (r: String)
    ensures
        r@ == "DEV-"@ + venta_id@ + "-"@ + fecha_cancelacion@,
{
    let mut m = to_owned_string("DEV-");
    push_str(&mut m, venta_id);
    push_str(&mut m, "-");
    push_str(&mut m, fecha_cancelacion);
    m
}

/// The reason and the identifier of the income a credit payment brings into
/// the register.
pub fn movimiento_abono(abono_id: &str, cliente_id: &str) -> (r: (String, String))
    ensures
        r.0@ == "ABONO-"@ + abono_id@,
        r.1@ == "ABONO A CRÉDITO CLIENTE #"@ + cliente_id@,
{
    let mut id = to_owned_string("ABONO-");
    push_str(&mut id, abono_id);
    let mut motivo = to_owned_string("ABONO A CRÉDITO CLIENTE #");
    push_str(&mut motivo, cliente_id);
    (id, motivo)
}

/// The query of a register's expenses (parameter: the register session):
/// every `EGRESO` except refunds, whose sales already left the cash sales
/// when they were cancelled.
pub open spec fn egresos_caja_sql() -> Seq<char> {
    "SELECT COALESCE(SUM(monto), 0) FROM caja_movimientos WHERE sesion_id = ?1 AND tipo = 'EGRESO' AND motivo NOT LIKE '"@
        + prefijo_devolucion() + "%'"@
}

pub fn sql_egresos_caja() -> (r: String)
    ensures
        r@ == egresos_caja_sql(),
{
    let mut q = to_owned_string(
        "SELECT COALESCE(SUM(monto), 0) FROM caja_movimientos WHERE sesion_id = ?1 AND tipo = 'EGRESO' AND motivo NOT LIKE '",
    );
    push_str(&mut q, "DEVOLUCIÓN EN VENTA #");
    push_str(&mut q, "%'");
    q
}

/// A refund is never counted twice: its reason always starts with the text
/// whose movements the expense query leaves out.
pub proof fn law_refunds_not_counted_as_expenses(venta_id: Seq<char>, motivo: Seq<char>)
    ensures
        motivo_devolucion_spec(venta_id, motivo).subrange(0, prefijo_devolucion().len() as int)
            == prefijo_devolucion(),
        egresos_caja_sql().subrange(
            egresos_caja_sql().len() - prefijo_devolucion().len() - 2,
            egresos_caja_sql().len() - 2,
        ) == prefijo_devolucion(),
{
    let p = prefijo_devolucion();
    assert(motivo_devolucion_spec(venta_id, motivo).subrange(0, p.len() as int) =~= p);
    let head = "SELECT COALESCE(SUM(monto), 0) FROM caja_movimientos WHERE sesion_id = ?1 AND tipo = 'EGRESO' AND motivo NOT LIKE '"@;
    let tail = "%'"@;
    reveal_strlit("%'");
    assert(tail.len() == 2);
    assert(egresos_caja_sql() == head + p + tail);
    assert(egresos_caja_sql().subrange(head.len() as int, (head.len() + p.len()) as int) =~= p);
}

/// A register that is not open takes no cash movement and cannot be closed
/// (again), whoever asks.
pub proof fn law_cash_register_guards(actor: Usuario, estado: Seq<char>, usuario_id: Seq<char>, sucursal_id: Seq<char>)
    requires
        estado != "ABIERTA"@,
    ensures
        movimiento_caja_check(actor, estado, usuario_id, sucursal_id) is Some,
        cierre_caja_check(actor, estado, usuario_id, sucursal_id) is Some,
{
}


// ---------------------------------------------------------------------------
// What an operation must find before it writes
// ---------------------------------------------------------------------------

/// A record an operation reads before it writes, and must find.
pub enum Requisito {
    /// The supplier of a purchase.
    ProveedorDeCompra,
    /// The branch of a purchase.
    SucursalDeCompra,
    /// A product of a purchase, by its identifier.
    ProductoDeCompra(String),
    /// The origin and destination branches of a transfer.
    SucursalesDeTraspaso,
    /// The user who records a transfer.
    UsuarioDeTraspaso,
    /// The product of a stock adjustment or of an inventory record.
    ProductoSeleccionado,
    /// The branch of a stock adjustment or of an inventory record.
    SucursalSeleccionada,
    /// The user who records an adjustment.
    UsuarioDeAjuste,
    /// The user who receives a transfer.
    UsuarioReceptor,
    /// The open register a credit payment goes into.
    CajaParaAbono,
    /// The open register of the user who cancels a sale.
    CajaParaCancelar,
    /// The customer being edited.
    ClienteAActualizar,
    /// The customer whose tax data is saved.
    ClienteFiscal,
    /// The inventory record being removed.
    InventarioAEliminar,
    /// The promotion being deleted.
    PromocionAEliminar,
    /// The branch an import fills.
    SucursalDeImportacion,
    /// A branch a promotion reaches, by its identifier.
    SucursalDePromocion(String),
}

/// What is said when the record is not found.
pub open spec fn requisito_faltante(r: Requisito) -> Seq<char> {
    match r {
        Requisito::ProveedorDeCompra => "El proveedor seleccionado ya no existe."@,
        Requisito::SucursalDeCompra => "La sucursal seleccionada ya no existe."@,
        Requisito::ProductoDeCompra(id) => "El producto "@ + id@ + " no existe o fue eliminado."@,
        Requisito::SucursalesDeTraspaso => "Sucursal origen o destino no existe."@,
        Requisito::UsuarioDeTraspaso => "El usuario que registra el traspaso no existe."@,
        Requisito::ProductoSeleccionado => "El producto seleccionado no existe."@,
        Requisito::SucursalSeleccionada => "La sucursal seleccionada no existe."@,
        Requisito::UsuarioDeAjuste => "El usuario que registra el ajuste no existe."@,
        Requisito::UsuarioReceptor => "El usuario receptor no existe."@,
        Requisito::CajaParaAbono => "No puedes registrar abonos sin una caja ABIERTA."@,
        Requisito::CajaParaCancelar => "No se puede cancelar una venta sin caja ABIERTA para el usuario en sesión."@,
        Requisito::ClienteAActualizar => "No se encontró el cliente que intentas actualizar."@,
        Requisito::ClienteFiscal => "El cliente no existe."@,
        Requisito::InventarioAEliminar => "No se encontró el producto en el inventario de esta sucursal."@,
        Requisito::PromocionAEliminar => "No se encontró la promoción indicada."@,
        Requisito::SucursalDeImportacion => "La sucursal seleccionada no existe o está eliminada."@,
        Requisito::SucursalDePromocion(id) => "La sucursal "@ + id@ + " no existe o está eliminada."@,
    }
}

/// An operation goes on only when the record it needs was found.
pub fn check_requisito(requisito: &Requisito, encontrado: bool) -> (r: Result<(), String>)
    ensures
        command_outcome(
            r,
            if encontrado {
                None
            } else {
                Some(requisito_faltante(*requisito))
            },
        ),
{
    if encontrado {
        return Ok(());
    }
    let m = match requisito {
        Requisito::ProveedorDeCompra => to_owned_string("El proveedor seleccionado ya no existe."),
        Requisito::SucursalDeCompra => to_owned_string("La sucursal seleccionada ya no existe."),
        Requisito::ProductoDeCompra(id) => {
            let mut t = to_owned_string("El producto ");
            push_str(&mut t, id.as_str());
            push_str(&mut t, " no existe o fue eliminado.");
            t
        },
        Requisito::SucursalesDeTraspaso => to_owned_string("Sucursal origen o destino no existe."),
        Requisito::UsuarioDeTraspaso => to_owned_string("El usuario que registra el traspaso no existe."),
        Requisito::ProductoSeleccionado => to_owned_string("El producto seleccionado no existe."),
        Requisito::SucursalSeleccionada => to_owned_string("La sucursal seleccionada no existe."),
        Requisito::UsuarioDeAjuste => to_owned_string("El usuario que registra el ajuste no existe."),
        Requisito::UsuarioReceptor => to_owned_string("El usuario receptor no existe."),
        Requisito::CajaParaAbono => to_owned_string("No puedes registrar abonos sin una caja ABIERTA."),
        Requisito::CajaParaCancelar => to_owned_string(
            "No se puede cancelar una venta sin caja ABIERTA para el usuario en sesión.",
        ),
        Requisito::ClienteAActualizar => to_owned_string("No se encontró el cliente que intentas actualizar."),
        Requisito::ClienteFiscal => to_owned_string("El cliente no existe."),
        Requisito::InventarioAEliminar => to_owned_string(
            "No se encontró el producto en el inventario de esta sucursal.",
        ),
        Requisito::PromocionAEliminar => to_owned_string("No se encontró la promoción indicada."),
        Requisito::SucursalDeImportacion => to_owned_string("La sucursal seleccionada no existe o está eliminada."),
        Requisito::SucursalDePromocion(id) => {
            let mut t = to_owned_string("La sucursal ");
            push_str(&mut t, id.as_str());
            push_str(&mut t, " no existe o está eliminada.");
            t
        },
    };
    Err(m)
}

/// A guarded write that found its row changed by someone else.
pub enum Carrera {
    /// The transfer was no longer in transit when its reception was written.
    RecepcionDeTraspaso,
    /// The sale was no longer completed when its cancellation was written.
    CancelacionDeVenta,
    /// The customer's balance changed before the payment was written.
    Abono,
    /// The register was no longer open when a cash movement was applied to it.
    MovimientoDeCaja,
}

pub open spec fn carrera_mensaje(c: Carrera) -> Seq<char> {
    match c {
        Carrera::RecepcionDeTraspaso => "El traspaso cambió de estado antes de confirmar la recepción. Actualiza e intenta de nuevo."@,
        Carrera::CancelacionDeVenta => "La venta cambió de estado antes de cancelar. Actualiza e intenta de nuevo."@,
        Carrera::Abono => "No se pudo aplicar el abono porque el saldo del cliente cambió. Actualiza e intenta de nuevo."@,
        Carrera::MovimientoDeCaja => "La caja cambió de estado antes de confirmar el movimiento. Intenta de nuevo."@,
    }
}

/// A guarded write that did not touch exactly its one row is reported, so
/// nothing is applied on a stale read.
pub fn check_escritura_vigente(carrera: &Carrera, filas: usize) -> (r: Result<(), String>)
    ensures
        command_outcome(
            r,
            if filas != 1 {
                Some(carrera_mensaje(*carrera))
            } else {
                None
            },
        ),
{
    if filas == 1 {
        return Ok(());
    }
    let m = match carrera {
        Carrera::RecepcionDeTraspaso => to_owned_string(
            "El traspaso cambió de estado antes de confirmar la recepción. Actualiza e intenta de nuevo.",
        ),
        Carrera::CancelacionDeVenta => to_owned_string(
            "La venta cambió de estado antes de cancelar. Actualiza e intenta de nuevo.",
        ),
        Carrera::Abono => to_owned_string(
            "No se pudo aplicar el abono porque el saldo del cliente cambió. Actualiza e intenta de nuevo.",
        ),
        Carrera::MovimientoDeCaja => to_owned_string(
            "La caja cambió de estado antes de confirmar el movimiento. Intenta de nuevo.",
        ),
    };
    Err(m)
}

/// Adjustments and credit payments are recorded only under the user's own
/// name.
pub fn check_ajuste_propio(actor: &Usuario, usuario_id: &str) -> (r: Result<(), String>)
    ensures
        command_outcome(
            r,
            if actor.id@ == usuario_id@ {
                None
            } else {
                Some("No puedes registrar ajustes a nombre de otro usuario."@)
            },
        ),
{
    if !str_eq(actor.id.as_str(), usuario_id) {
        return Err(to_owned_string("No puedes registrar ajustes a nombre de otro usuario."));
    }
    Ok(())
}

pub fn check_abono_propio(actor: &Usuario, usuario_id: &str) -> (r: Result<(), String>)
    ensures
        command_outcome(
            r,
            if actor.id@ == usuario_id@ {
                None
            } else {
                Some("No puedes registrar abonos a nombre de otro usuario."@)
            },
        ),
{
    if !str_eq(actor.id.as_str(), usuario_id) {
        return Err(to_owned_string("No puedes registrar abonos a nombre de otro usuario."));
    }
    Ok(())
}

/// An inventory record is saved for a named product.
pub fn check_producto_de_inventario(producto_id: &str) -> (r: Result<(), String>)
    ensures
        command_outcome(
            r,
            if is_blank(producto_id@) {
                Some("Selecciona un producto válido."@)
            } else {
                None
            },
        ),
{
    if is_blank_str(producto_id) {
        return Err(to_owned_string("Selecciona un producto válido."));
    }
    Ok(())
}

/// An inventory record is removed by naming both its product and branch.
pub fn check_baja_de_inventario(producto_id: &str, sucursal_id: &str) -> (r: Result<(), String>)
    ensures
        command_outcome(
            r,
            if is_blank(producto_id@) || is_blank(sucursal_id@) {
                Some("Falta el producto o la sucursal a eliminar del inventario."@)
            } else {
                None
            },
        ),
{
    if is_blank_str(producto_id) || is_blank_str(sucursal_id) {
        return Err(to_owned_string("Falta el producto o la sucursal a eliminar del inventario."));
    }
    Ok(())
}

} // verus!
