use ferre_pos::consultas::{alcance_indicadores, filtro_facturas_por_ventas, sentencia_marcar_leida, sentencia_marcar_todas_leidas};
use ferre_pos::cuentas::{sesion_activa, verificar_autorizador};
use ferre_pos::error::AppError;
use ferre_pos::model::{DashboardFiltroInput, PerifericosConfigInput, Usuario};
use ferre_pos::operaciones::{check_requisito, Requisito};
use ferre_pos::password::PasswordCheck;
use ferre_pos::pull::error_recortado;
use ferre_pos::respaldo::check_sin_cajas_abiertas;
use ferre_pos::ticket::{
    check_impresion_texto, check_impresora_raw, comando_impresion_windows, mensaje_impresora_no_disponible,
    mensaje_ticket_rechazado,
};
use ferre_pos::validate::normalizar_perifericos;

fn admin() -> Usuario {
    Usuario {
        id: "U1".to_string(),
        email: "a@x.mx".to_string(),
        nombre: "A".to_string(),
        role: "ADMIN".to_string(),
        sucursal_id: "S1".to_string(),
    }
}

#[test]
fn print_job_checks_and_messages() {
    assert_eq!(check_impresion_texto("  EPSON ", "hola"), Ok("EPSON".to_string()));
    assert_eq!(check_impresion_texto(" ", "hola"), Err("Debes indicar el nombre de la impresora.".to_string()));
    assert_eq!(check_impresion_texto("EPSON", " \n"), Err("No hay contenido para imprimir.".to_string()));
    assert_eq!(check_impresora_raw("  "), Err("Debes indicar el nombre o ruta de la impresora.".to_string()));
    assert_eq!(check_impresora_raw(" /dev/usb/lp0 "), Ok("/dev/usb/lp0".to_string()));
    assert_eq!(
        comando_impresion_windows("C:\\tmp\\a.txt", "Caja's"),
        "Get-Content -Raw -LiteralPath 'C:\\tmp\\a.txt' | Out-Printer -Name 'Caja''s'"
    );
    assert_eq!(
        mensaje_impresora_no_disponible("EPSON", " salida \n", " fallo "),
        "La impresora EPSON no está conectada o no se encuentra disponible. salida fallo"
    );
    assert_eq!(mensaje_ticket_rechazado("", "  "), "La impresora rechazó el ticket. ");
}

#[test]
fn indicator_scope_and_session() {
    let filtro = DashboardFiltroInput {
        sucursal_id: Some("S9".to_string()),
        fecha_inicio: None,
        fecha_fin: Some(" 2024-12-31 ".to_string()),
        marca: None,
        categoria: None,
        proveedor_id: None,
        metodo_pago: None,
        usuario_id: None,
    };
    let (sucursal, desde, hasta) = alcance_indicadores(&admin(), Some(&filtro));
    assert_eq!(sucursal, Some("S1".to_string()));
    assert_eq!(desde, "0001-01-01T00:00:00.000Z");
    assert_eq!(hasta, "2024-12-31");
    assert_eq!(sesion_activa(None).err(), Some("No hay una sesión activa.".to_string()));
    assert_eq!(sesion_activa(Some(admin())).ok().map(|u| u.id), Some("U1".to_string()));
}

#[test]
fn authoriser_password_and_small_checks() {
    assert_eq!(
        verificar_autorizador(Ok(PasswordCheck::Rejected)),
        Err("Contraseña/PIN de autorización inválido.".to_string())
    );
    assert_eq!(
        verificar_autorizador(Err(AppError::Crypto("hash roto".to_string()))),
        Err("Error de seguridad al procesar contraseña: hash roto".to_string())
    );
    assert_eq!(verificar_autorizador(Ok(PasswordCheck::Accepted)), Ok(None));
    assert_eq!(
        check_requisito(&Requisito::SucursalDePromocion("S4".to_string()), false),
        Err("La sucursal S4 no existe o está eliminada.".to_string())
    );
    assert_eq!(
        check_sin_cajas_abiertas(2),
        Err("No se puede restaurar o sobrescribir datos mientras existan cajas abiertas. Cierra los turnos primero.".to_string())
    );
    assert_eq!(check_sin_cajas_abiertas(0), Ok(()));
    let largo = "é".repeat(800);
    assert_eq!(error_recortado(&largo).chars().count(), 700);
    assert_eq!(error_recortado("corto"), "corto");
    let p = normalizar_perifericos(&PerifericosConfigInput {
        impresora_tickets: " EPSON ".to_string(),
        impresora_etiquetas: "".to_string(),
    });
    assert_eq!(p.impresora_tickets, "EPSON");
    assert_eq!(p.impresora_etiquetas, "");
}

#[test]
fn notifications_marked_read_by_branch() {
    let u = admin();
    let todas = sentencia_marcar_todas_leidas(&u);
    assert!(todas.sql.starts_with("UPDATE notificaciones SET leida = 1 WHERE leida = 0 AND ((entidad_tipo = 'sucursal' AND entidad_id = ?1)"));
    assert_eq!(todas.params, vec!["S1", "%:S1", "S1", "S1"]);
    let una = sentencia_marcar_leida(&u, "N7");
    assert!(una.sql.contains("entidad_id = ?2) OR event_key LIKE ?3"));
    assert_eq!(una.params, vec!["N7", "S1", "%:S1", "S1", "S1"]);
    let mut root = admin();
    root.role = "SUPERADMIN".to_string();
    let r = sentencia_marcar_leida(&root, "N7");
    assert_eq!(r.sql, "UPDATE notificaciones SET leida = 1 WHERE id = ?1");
    assert_eq!(r.params, vec!["N7"]);
    assert_eq!(sentencia_marcar_todas_leidas(&root).sql, "UPDATE notificaciones SET leida = 1 WHERE leida = 0");
}

#[test]
fn invoices_of_sales_query() {
    let ids = vec![" V1 ".to_string(), "  ".to_string(), "V2".to_string()];
    let f = filtro_facturas_por_ventas(&admin(), &ids).unwrap();
    assert_eq!(f.where_sql, " WHERE fe.venta_id IN (?,?) AND v.sucursal_id = ?");
    assert_eq!(f.params, vec!["V1", "V2", "S1"]);
    assert!(filtro_facturas_por_ventas(&admin(), &["".to_string()]).is_none());
    let many: Vec<String> = (0..150).map(|i| format!("V{i}")).collect();
    let mut root = admin();
    root.role = "SUPERADMIN".to_string();
    let g = filtro_facturas_por_ventas(&root, &many).unwrap();
    assert_eq!(g.params.len(), 100);
    assert_eq!(g.params[99], "V99");
    assert!(g.where_sql.ends_with("?)"));
}
