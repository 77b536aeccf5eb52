use ferre_pos::model::Usuario;
use ferre_pos::operaciones::{
    check_abono_propio, check_ajuste_propio, check_apertura_propia, check_baja_de_inventario,
    check_caja_abierta_para_vender, check_caja_para_cerrar, check_caja_para_movimiento, check_cierre_aplicado,
    check_cierre_con_efectivo, check_consulta_caja, check_credito_aplicado, check_escritura_vigente,
    check_producto_de_inventario, check_requisito, check_rol_articulo_diverso, check_sin_caja_abierta,
    check_sucursal_de_venta, cliente_de_venta_a_credito, es_articulo_diverso, producto_fuera_de_inventario,
    tipo_precio_vendido, Carrera, Requisito,
};
use ferre_pos::operaciones::{
    cobro_de_venta, CobroDeVenta, sql_cajas_abiertas, id_devolucion, motivo_devolucion, movimiento_abono, sql_egresos_caja,
};
use ferre_pos::operaciones::{check_merma_descontada, check_salida_traspaso, check_stock_descontado, clasificar_ajuste, sql_descuento_stock};

fn cajero() -> Usuario {
    Usuario {
        id: "U7".to_string(),
        email: "c@x.mx".to_string(),
        nombre: "Caja".to_string(),
        role: "USUARIO".to_string(),
        sucursal_id: "S1".to_string(),
    }
}

#[test]
fn registers_belong_to_their_user() {
    let u = cajero();
    assert_eq!(check_apertura_propia(&u, "U7", "S1"), Ok(()));
    assert_eq!(
        check_apertura_propia(&u, "U8", "S1"),
        Err("No puedes abrir caja para otro usuario o sucursal.".to_string())
    );
    assert_eq!(
        check_consulta_caja(&u, "U7", "S2"),
        Err("No puedes consultar la caja de otro usuario o sucursal.".to_string())
    );
    assert_eq!(
        check_sin_caja_abierta(1),
        Err("Ya existe una caja ABIERTA en esta sucursal.".to_string())
    );
    assert_eq!(check_sin_caja_abierta(0), Ok(()));
}

#[test]
fn closed_registers_take_nothing() {
    let u = cajero();
    assert_eq!(check_caja_para_cerrar(&u, "CERRADA", "U7", "S1"), Err("La caja seleccionada ya está cerrada.".to_string()));
    assert_eq!(
        check_caja_para_cerrar(&u, "ABIERTA", "U9", "S1"),
        Err("No puedes cerrar una caja que no pertenece a tu sesión.".to_string())
    );
    assert_eq!(check_caja_para_cerrar(&u, "ABIERTA", "U7", "S1"), Ok(()));
    assert_eq!(
        check_caja_para_movimiento(&u, "CERRADA", "U7", "S1"),
        Err("Solo se pueden registrar movimientos en una caja ABIERTA.".to_string())
    );
    assert_eq!(
        check_caja_para_movimiento(&u, "ABIERTA", "U7", "S2"),
        Err("No puedes registrar movimientos en una caja que no pertenece a tu sesión.".to_string())
    );
    assert_eq!(
        check_cierre_con_efectivo(true, true),
        Err("No puedes cerrar la caja en $0.00 cuando el monto esperado es mayor a cero.".to_string())
    );
    assert_eq!(check_cierre_con_efectivo(false, true), Ok(()));
    assert_eq!(
        check_cierre_aplicado(0),
        Err("La caja ya no está ABIERTA. No se aplicó el cierre.".to_string())
    );
    assert_eq!(
        check_caja_abierta_para_vender(0),
        Err("No puedes vender sin una caja ABIERTA. Abre caja para continuar.".to_string())
    );
    assert_eq!(check_caja_abierta_para_vender(1), Ok(()));
    assert_eq!(
        check_requisito(&Requisito::CajaParaCancelar, false),
        Err("No se puede cancelar una venta sin caja ABIERTA para el usuario en sesión.".to_string())
    );
    assert_eq!(
        check_requisito(&Requisito::CajaParaAbono, false),
        Err("No puedes registrar abonos sin una caja ABIERTA.".to_string())
    );
}

#[test]
fn sale_decisions() {
    assert_eq!(check_sucursal_de_venta(0), Err("La sucursal de la venta ya no existe.".to_string()));
    assert_eq!(
        producto_fuera_de_inventario("P-3"),
        "El producto P-3 no existe en el inventario de la sucursal."
    );
    assert!(es_articulo_diverso("VENTA_DIVERSA"));
    assert!(!es_articulo_diverso("venta_diversa"));
    assert_eq!(check_rol_articulo_diverso("admin"), Ok(()));
    assert_eq!(
        check_rol_articulo_diverso("USUARIO"),
        Err("Solo ADMIN o SUPERADMIN pueden cobrar artículo diverso.".to_string())
    );
    assert_eq!(tipo_precio_vendido("MAYOREO_1", true), "MAYOREO_1+PROMO");
    assert_eq!(tipo_precio_vendido("MOSTRADOR", false), "MOSTRADOR");
    let cliente = " C-1 ".to_string();
    assert_eq!(cliente_de_venta_a_credito("ADMIN", Some(&cliente)), Ok("C-1".to_string()));
    assert_eq!(
        cliente_de_venta_a_credito("admin", Some(&cliente)),
        Err("Solo ADMIN o SUPERADMIN pueden registrar ventas a crédito.".to_string())
    );
    assert_eq!(
        cliente_de_venta_a_credito("SUPERADMIN", None),
        Err("Selecciona un cliente para venta a crédito.".to_string())
    );
    assert_eq!(
        check_credito_aplicado(0),
        Err("No se pudo autorizar el crédito porque el saldo del cliente cambió. Actualiza e intenta de nuevo.".to_string())
    );
}

#[test]
fn lookups_and_stale_writes() {
    assert_eq!(
        check_requisito(&Requisito::ProductoDeCompra("P-1".to_string()), false),
        Err("El producto P-1 no existe o fue eliminado.".to_string())
    );
    assert_eq!(check_requisito(&Requisito::ProveedorDeCompra, true), Ok(()));
    assert_eq!(
        check_requisito(&Requisito::SucursalesDeTraspaso, false),
        Err("Sucursal origen o destino no existe.".to_string())
    );
    assert_eq!(
        check_escritura_vigente(&Carrera::RecepcionDeTraspaso, 0),
        Err("El traspaso cambió de estado antes de confirmar la recepción. Actualiza e intenta de nuevo.".to_string())
    );
    assert_eq!(check_escritura_vigente(&Carrera::Abono, 1), Ok(()));
    assert!(check_escritura_vigente(&Carrera::CancelacionDeVenta, 2).is_err());
    assert_eq!(
        check_escritura_vigente(&Carrera::MovimientoDeCaja, 0),
        Err("La caja cambió de estado antes de confirmar el movimiento. Intenta de nuevo.".to_string())
    );
    let u = cajero();
    assert_eq!(
        check_ajuste_propio(&u, "U1"),
        Err("No puedes registrar ajustes a nombre de otro usuario.".to_string())
    );
    assert_eq!(check_abono_propio(&u, "U7"), Ok(()));
    assert_eq!(check_producto_de_inventario("  "), Err("Selecciona un producto válido.".to_string()));
    assert_eq!(
        check_baja_de_inventario("P1", " "),
        Err("Falta el producto o la sucursal a eliminar del inventario.".to_string())
    );
}

#[test]
fn stock_update_is_guarded_unless_negative_sales_allowed() {
    let libre = sql_descuento_stock(true);
    let guardado = sql_descuento_stock(false);
    assert_eq!(guardado, format!("{libre} AND stock >= ?1"));
    assert!(libre.ends_with("WHERE producto_id = ?2 AND sucursal_id = ?3"));
}

#[test]
fn overselling_cancels_the_sale() {
    assert_eq!(check_stock_descontado(1, "P1"), Ok(()));
    assert_eq!(
        check_stock_descontado(0, "P1"),
        Err("Stock insuficiente para producto P1. Operación cancelada.".to_string())
    );
}

#[test]
fn adjustments_are_classified() {
    let a = clasificar_ajuste("AJUSTE");
    assert_eq!((a.tipo_movimiento.as_str(), a.tipo_kardex.as_str(), a.entrada), ("AJUSTE_SALIDA", "AJUSTE_SALIDA", false));
    let e = clasificar_ajuste("AJUSTE_ENTRADA");
    assert_eq!((e.tipo_movimiento.as_str(), e.tipo_kardex.as_str(), e.entrada), ("AJUSTE_ENTRADA", "AJUSTE_ENTRADA", true));
    let m = clasificar_ajuste("MERMA");
    assert_eq!((m.tipo_movimiento.as_str(), m.tipo_kardex.as_str(), m.entrada), ("MERMA", "MERMA", false));
    let s = clasificar_ajuste("AJUSTE_SALIDA");
    assert_eq!((s.tipo_kardex.as_str(), s.entrada), ("AJUSTE_SALIDA", false));
}

#[test]
fn losses_never_overdraw_stock() {
    assert_eq!(check_merma_descontada(1, "P9"), Ok(()));
    assert_eq!(
        check_merma_descontada(0, "P9"),
        Err("Stock insuficiente. Operación cancelada para producto P9.".to_string())
    );
}

#[test]
fn transfers_never_overdraw_the_origin() {
    assert_eq!(check_salida_traspaso(1, "P2"), Ok(()));
    assert_eq!(
        check_salida_traspaso(0, "P2"),
        Err("Stock insuficiente para producto P2 en sucursal origen. Operación cancelada.".to_string())
    );
}

#[test]
fn refunds_are_left_out_of_register_expenses() {
    let motivo = motivo_devolucion("V-10", "Producto dañado");
    assert_eq!(motivo, "DEVOLUCIÓN EN VENTA #V-10 - Producto dañado");
    assert_eq!(id_devolucion("V-10", "2024-06-01T10:00"), "DEV-V-10-2024-06-01T10:00");
    let q = sql_egresos_caja();
    assert!(q.ends_with("AND tipo = 'EGRESO' AND motivo NOT LIKE 'DEVOLUCIÓN EN VENTA #%'"));
    let prefijo = q.rsplit("NOT LIKE '").next().unwrap().trim_end_matches("%'");
    assert!(motivo.starts_with(prefijo));
}

#[test]
fn credit_payments_enter_the_register_as_income() {
    let (id, motivo) = movimiento_abono("A1", "C9");
    assert_eq!(id, "ABONO-A1");
    assert_eq!(motivo, "ABONO A CRÉDITO CLIENTE #C9");
}

#[test]
fn opening_counts_every_open_register_of_the_branch() {
    assert_eq!(
        sql_cajas_abiertas(),
        "SELECT COUNT(*) FROM cajas_sesiones WHERE sucursal_id = ?1 AND estado = 'ABIERTA'"
    );
}

#[test]
fn sales_are_settled_by_payment_method() {
    assert_eq!(cobro_de_venta("EFECTIVO"), CobroDeVenta::Efectivo);
    assert_eq!(cobro_de_venta("CREDITO"), CobroDeVenta::Credito);
    assert_eq!(cobro_de_venta("TARJETA"), CobroDeVenta::Otro);
    assert_eq!(cobro_de_venta("efectivo"), CobroDeVenta::Otro);
}
