use ferre_pos::auth::{
    ensure_admin_or_superadmin, ensure_can_manage_usuario, ensure_can_read_sucursal, ensure_superadmin,
    is_admin_or_superadmin_role, is_superadmin, is_valid_role, scoped_promocion_sucursales,
    scoped_sucursal_for_read,
};
use ferre_pos::model::{RecibirTraspasoInput, Usuario};
use ferre_pos::operaciones::{
    check_autorizador_cancelacion, check_factura_no_timbrada, check_recepcion_traspaso,
    check_traspaso_actor, check_venta_actor, check_venta_cancelable, require_superadmin_or_initial_setup,
    validar_recepcion_traspaso, validar_solicitud_cancelacion,
};

fn u(id: &str, role: &str, sucursal: &str) -> Usuario {
    Usuario { id: id.into(), email: format!("{id}@x.mx"), nombre: id.into(), role: role.into(), sucursal_id: sucursal.into() }
}

#[test]
fn roles() {
    assert!(is_valid_role("SUPERADMIN") && is_valid_role("ADMIN") && is_valid_role("USUARIO"));
    assert!(!is_valid_role("admin"));
    assert!(is_superadmin(&u("a", "superadmin", "S1")));
    assert!(!is_superadmin(&u("a", "ADMIN", "S1")));
    assert!(is_admin_or_superadmin_role("Admin"));
    assert!(!is_admin_or_superadmin_role("USUARIO"));
    assert_eq!(ensure_admin_or_superadmin(&u("a", "USUARIO", "S1")), Err(String::from("No tienes permisos para realizar esta operación.")));
    assert_eq!(ensure_admin_or_superadmin(&u("a", "SUPERADMIN", "S1")), Ok(()));
    assert_eq!(ensure_superadmin(&u("a", "ADMIN", "S1")), Err(String::from("Esta operación requiere permisos de SUPERADMIN.")));
}

#[test]
fn admins_read_only_their_branch() {
    let admin = u("a", "ADMIN", "S1");
    assert_eq!(scoped_sucursal_for_read(&admin, Some(String::from("S2"))), Some(String::from("S1")));
    assert_eq!(scoped_sucursal_for_read(&admin, None), Some(String::from("S1")));
    let root = u("r", "SUPERADMIN", "S1");
    assert_eq!(scoped_sucursal_for_read(&root, Some(String::from("S2"))), Some(String::from("S2")));
    assert_eq!(scoped_sucursal_for_read(&root, None), None);
    assert_eq!(ensure_can_read_sucursal(&admin, "S1"), Ok(()));
    assert_eq!(
        ensure_can_read_sucursal(&admin, "S2"),
        Err(String::from("No tienes permisos para consultar información de otra sucursal."))
    );
    assert_eq!(ensure_can_read_sucursal(&root, "S9"), Ok(()));
    let req = vec![String::from("S2"), String::from("S3")];
    assert_eq!(scoped_promocion_sucursales(&admin, &req), vec![String::from("S1")]);
    assert_eq!(scoped_promocion_sucursales(&root, &req), req);
}

#[test]
fn nobody_manages_their_own_account() {
    let root = u("r", "SUPERADMIN", "S1");
    assert_eq!(
        ensure_can_manage_usuario(&root, Some(&root.clone()), None, 3),
        Err(String::from("Operación inválida: No puedes eliminar ni modificar tu propia cuenta."))
    );
}

#[test]
fn last_superadmin_is_kept() {
    let root = u("r", "SUPERADMIN", "S1");
    let other = u("o", "SUPERADMIN", "S1");
    let demoted = u("o", "ADMIN", "S1");
    let msg = Err(String::from("Operación inválida: El sistema no puede quedarse sin un Superadmin activo."));
    assert_eq!(ensure_can_manage_usuario(&root, Some(&other), None, 1), msg);
    assert_eq!(ensure_can_manage_usuario(&root, Some(&other), Some(&demoted), 1), msg);
    assert_eq!(ensure_can_manage_usuario(&root, Some(&other), None, 2), Ok(()));
    assert_eq!(ensure_can_manage_usuario(&root, Some(&other), Some(&other.clone()), 1), Ok(()));
}

#[test]
fn admins_manage_only_plain_users_of_their_branch() {
    let admin = u("a", "ADMIN", "S1");
    let mine = u("m", "USUARIO", "S1");
    let theirs = u("t", "USUARIO", "S2");
    let boss = u("b", "ADMIN", "S1");
    assert_eq!(ensure_can_manage_usuario(&admin, None, Some(&mine), 1), Ok(()));
    assert_eq!(ensure_can_manage_usuario(&admin, Some(&mine), Some(&mine.clone()), 1), Ok(()));
    assert_eq!(ensure_can_manage_usuario(&admin, Some(&mine), None, 1), Ok(()));
    assert_eq!(
        ensure_can_manage_usuario(&admin, None, Some(&boss), 1),
        Err(String::from("Operación inválida: Un administrador solo puede crear o modificar usuarios de rol USUARIO en su propia sucursal."))
    );
    assert_eq!(
        ensure_can_manage_usuario(&admin, None, Some(&theirs), 1),
        Err(String::from("Operación inválida: Un administrador solo puede crear o modificar usuarios de rol USUARIO en su propia sucursal."))
    );
    assert_eq!(
        ensure_can_manage_usuario(&admin, Some(&theirs), None, 1),
        Err(String::from("Operación inválida: Solo puedes administrar usuarios de tu sucursal."))
    );
    assert_eq!(
        ensure_can_manage_usuario(&admin, Some(&boss), None, 1),
        Err(String::from("Operación inválida: Un administrador solo puede modificar usuarios operativos."))
    );
    assert_eq!(
        ensure_can_manage_usuario(&admin, None, None, 1),
        Err(String::from("Operación inválida: No se encontró el usuario indicado."))
    );
}

#[test]
fn initial_setup_is_open_only_without_users() {
    assert_eq!(require_superadmin_or_initial_setup(None, 0), Ok(()));
    assert_eq!(
        require_superadmin_or_initial_setup(None, 2),
        Err(String::from("Esta operación requiere una sesión activa de SUPERADMIN."))
    );
    let admin = u("a", "ADMIN", "S1");
    assert_eq!(
        require_superadmin_or_initial_setup(Some(&admin), 0),
        Err(String::from("Esta operación requiere permisos de SUPERADMIN."))
    );
    assert_eq!(require_superadmin_or_initial_setup(Some(&u("r", "SUPERADMIN", "S1")), 5), Ok(()));
}

#[test]
fn sales_are_registered_by_the_session_user() {
    let cajero = u("c", "USUARIO", "S1");
    assert_eq!(check_venta_actor(&cajero, "c", "S1"), Ok(()));
    assert_eq!(check_venta_actor(&cajero, "x", "S1"), Err(String::from("No puedes registrar ventas para otro usuario o sucursal.")));
    assert_eq!(check_venta_actor(&cajero, "c", "S2"), Err(String::from("No puedes registrar ventas para otro usuario o sucursal.")));
}

#[test]
fn cancellations_need_data_an_unstamped_invoice_and_an_admin() {
    assert_eq!(validar_solicitud_cancelacion(" ", "a", "k", "m", "f"), Err(String::from("Falta el identificador de la venta.")));
    assert_eq!(
        validar_solicitud_cancelacion("v", "a", " ", "m", "f"),
        Err(String::from("La cancelación requiere usuario autorizador, contraseña/PIN, motivo y fecha."))
    );
    assert_eq!(validar_solicitud_cancelacion("v", "a", "k", "m", "f"), Ok(()));
    let admin = u("a", "ADMIN", "S1");
    assert_eq!(check_venta_cancelable(&admin, "S1", "CANCELADA"), Err(String::from("La venta ya fue cancelada previamente.")));
    assert_eq!(
        check_venta_cancelable(&admin, "S2", "COMPLETADA"),
        Err(String::from("No tienes permisos para consultar información de otra sucursal."))
    );
    assert_eq!(check_venta_cancelable(&admin, "S1", "COMPLETADA"), Ok(()));
    assert_eq!(
        check_factura_no_timbrada(Some("TIMBRADA")),
        Err(String::from("No puedes cancelar una venta con factura TIMBRADA. Primero cancela el CFDI ante el SAT/PAC."))
    );
    assert_eq!(check_factura_no_timbrada(Some("PENDIENTE")), Ok(()));
    assert_eq!(check_factura_no_timbrada(None), Ok(()));
    assert_eq!(
        check_autorizador_cancelacion("USUARIO", "S1", "S1"),
        Err(String::from("Solo un ADMIN o SUPERADMIN puede autorizar cancelaciones."))
    );
    assert_eq!(
        check_autorizador_cancelacion("ADMIN", "S2", "S1"),
        Err(String::from("El ADMIN autorizador solo puede cancelar ventas de su propia sucursal."))
    );
    assert_eq!(check_autorizador_cancelacion("ADMIN", "S1", "S1"), Ok(()));
    assert_eq!(check_autorizador_cancelacion("SUPERADMIN", "S2", "S1"), Ok(()));
}

#[test]
fn transfers_leave_from_own_branch_and_arrive_at_destination() {
    let admin = u("a", "ADMIN", "S1");
    let root = u("r", "SUPERADMIN", "S9");
    assert_eq!(check_traspaso_actor(&admin, "a", "S1"), Ok(()));
    assert_eq!(check_traspaso_actor(&admin, "b", "S1"), Err(String::from("No puedes registrar traspasos a nombre de otro usuario.")));
    assert_eq!(
        check_traspaso_actor(&admin, "a", "S2"),
        Err(String::from("Operación inválida: solo puedes traspasar mercancía desde tu sucursal."))
    );
    assert_eq!(check_traspaso_actor(&root, "r", "S2"), Ok(()));
    let input = RecibirTraspasoInput {
        traspaso_id: "t1".into(),
        usuario_recibio_id: "a".into(),
        fecha_recepcion: "2024-05-01".into(),
        observaciones_recepcion: None,
    };
    assert_eq!(validar_recepcion_traspaso(&input, "a"), Ok(()));
    assert_eq!(
        validar_recepcion_traspaso(&input, "z"),
        Err(String::from("Operación inválida: el usuario receptor debe coincidir con la sesión activa."))
    );
    let blank = RecibirTraspasoInput { fecha_recepcion: " ".into(), ..input };
    assert_eq!(validar_recepcion_traspaso(&blank, "a"), Err(String::from("Datos incompletos para recibir el traspaso.")));
    assert_eq!(check_recepcion_traspaso(&admin, "S1", "EN_TRANSITO"), Ok(()));
    assert_eq!(
        check_recepcion_traspaso(&admin, "S2", "EN_TRANSITO"),
        Err(String::from("Operación inválida: solo la sucursal destino puede recibir este traspaso."))
    );
    assert_eq!(check_recepcion_traspaso(&root, "S2", "EN_TRANSITO"), Ok(()));
    assert_eq!(
        check_recepcion_traspaso(&root, "S2", "RECIBIDO"),
        Err(String::from("El traspaso no puede recibirse porque está en estado RECIBIDO."))
    );
}
