use ferre_pos::error::AppError;
use ferre_pos::promo::{
    check_promocion_con_productos, consulta_sin_perdida, normalize_promocion_input, str_lt, validate_promocion_input,
    PromocionRevision,
};
use ferre_pos::revision::{
    validate_abono_credito, validate_abrir_caja_input, validate_cerrar_caja_input, validate_cliente,
    validate_inventario_input, validate_movimiento_caja_input, validate_producto,
    validate_registrar_compra_input, validate_registrar_merma_ajuste_input,
    validate_registrar_traspaso_input, validate_registrar_venta_input, AbonoRevision,
    AbrirCajaRevision, CerrarCajaRevision, ClienteRevision, CompraRevision, DetalleRevision,
    InventarioRevision, MermaAjusteRevision, MovimientoCajaRevision, ProductoRevision,
    TraspasoRevision, VentaRevision,
};

fn msg(r: Result<(), AppError>) -> String {
    match r {
        Ok(()) => String::from("OK"),
        Err(AppError::Validation(m)) => m,
        Err(other) => panic!("{other:?}"),
    }
}

fn det(id: &str, p: &str, cant_bad: bool, precio_bad: bool) -> DetalleRevision {
    DetalleRevision { id: id.into(), producto_id: p.into(), cantidad_rechazada: cant_bad, precio_rechazado: precio_bad }
}

#[test]
fn purchases() {
    let c = |detalles: Vec<DetalleRevision>| CompraRevision { id: "c1".into(), proveedor_id: "p".into(), sucursal_id: "s".into(), fecha: "f".into(), detalles };
    assert_eq!(msg(validate_registrar_compra_input(&c(vec![det("d", "p", false, false)]))), "OK");
    assert_eq!(msg(validate_registrar_compra_input(&c(vec![]))), "Agrega al menos un producto al detalle de compra.");
    assert_eq!(
        msg(validate_registrar_compra_input(&c(vec![det("d", "p", false, false), det("d2", " ", false, false)]))),
        "Un detalle de compra no tiene producto."
    );
    assert_eq!(msg(validate_registrar_compra_input(&c(vec![det("", "p", true, true)]))), "Un detalle de compra no tiene identificador.");
    assert_eq!(msg(validate_registrar_compra_input(&c(vec![det("d", "p", true, true)]))), "La cantidad debe ser mayor que cero.");
    assert_eq!(msg(validate_registrar_compra_input(&c(vec![det("d", "p", false, true)]))), "El precio costo pactado debe ser mayor que cero.");
    let sin_fecha = CompraRevision { fecha: " ".into(), ..c(vec![]) };
    assert_eq!(msg(validate_registrar_compra_input(&sin_fecha)), "La compra necesita fecha.");
    let sin_prov = CompraRevision { proveedor_id: "".into(), ..c(vec![]) };
    assert_eq!(msg(validate_registrar_compra_input(&sin_prov)), "Selecciona un proveedor.");
}

fn venta(metodo: &str, cliente: Option<&str>, detalles: Vec<DetalleRevision>) -> VentaRevision {
    VentaRevision {
        id: "v".into(), usuario_id: "u".into(), sucursal_id: "s".into(), fecha: "f".into(),
        metodo_pago: metodo.into(), cliente_id: cliente.map(|c| c.to_string()), detalles,
    }
}

#[test]
fn sales() {
    let ok = vec![det("d", "p", false, false)];
    assert_eq!(msg(validate_registrar_venta_input(&venta("EFECTIVO", None, ok))), "OK");
    assert_eq!(msg(validate_registrar_venta_input(&venta(" ", None, vec![]))), "Selecciona un método de pago.");
    assert_eq!(msg(validate_registrar_venta_input(&venta("efectivo", None, vec![]))), "Método de pago inválido.");
    assert_eq!(msg(validate_registrar_venta_input(&venta("CREDITO", Some(" "), vec![]))), "Selecciona un cliente para venta a crédito.");
    assert_eq!(msg(validate_registrar_venta_input(&venta("CREDITO", None, vec![]))), "Selecciona un cliente para venta a crédito.");
    assert_eq!(msg(validate_registrar_venta_input(&venta("CREDITO", Some("c"), vec![]))), "Agrega al menos un producto al carrito.");
    assert_eq!(msg(validate_registrar_venta_input(&venta("TARJETA", None, vec![det("d", "p", true, false)]))), "La cantidad de venta debe ser mayor a cero.");
    assert_eq!(
        msg(validate_registrar_venta_input(&venta("TRANSFERENCIA", None, vec![det("d", "p", false, true)]))),
        "El precio de venta pactado no puede ser negativo."
    );
}

#[test]
fn transfers() {
    let t = |o: &str, d: &str, detalles: Vec<DetalleRevision>| TraspasoRevision {
        id: "t".into(), sucursal_origen_id: o.into(), sucursal_destino_id: d.into(), usuario_id: "u".into(), fecha: "f".into(), detalles,
    };
    assert_eq!(msg(validate_registrar_traspaso_input(&t("S1", "S2", vec![det("d", "p", false, true)]))), "OK");
    assert_eq!(msg(validate_registrar_traspaso_input(&t("S1", "S1", vec![]))), "La sucursal origen y destino no pueden ser la misma.");
    assert_eq!(msg(validate_registrar_traspaso_input(&t("S1", "", vec![]))), "Datos incompletos para registrar traspaso.");
    assert_eq!(msg(validate_registrar_traspaso_input(&t("S1", "S2", vec![]))), "Agrega al menos un producto al traspaso.");
    assert_eq!(msg(validate_registrar_traspaso_input(&t("S1", "S2", vec![det("d", "", false, false)]))), "Un detalle de traspaso está incompleto.");
    assert_eq!(msg(validate_registrar_traspaso_input(&t("S1", "S2", vec![det("d", "p", true, false)]))), "La cantidad de traspaso debe ser mayor que cero.");
}

#[test]
fn shrinkage_payments_and_cash() {
    let m = |tipo: &str, bad: bool| MermaAjusteRevision {
        id: "m".into(), producto_id: "p".into(), sucursal_id: "s".into(), usuario_id: "u".into(), motivo: "rota".into(), fecha: "f".into(),
        tipo_movimiento: tipo.into(), cantidad_rechazada: bad,
    };
    assert_eq!(msg(validate_registrar_merma_ajuste_input(&m("AJUSTE_SALIDA", false))), "OK");
    assert_eq!(msg(validate_registrar_merma_ajuste_input(&m("ROBO", false))), "Tipo de movimiento inválido. Usa MERMA, AJUSTE_ENTRADA o AJUSTE_SALIDA.");
    assert_eq!(msg(validate_registrar_merma_ajuste_input(&m("MERMA", true))), "La cantidad debe ser mayor que cero.");
    assert_eq!(msg(validate_registrar_merma_ajuste_input(&MermaAjusteRevision { motivo: " ".into(), ..m("MERMA", false) })), "Datos incompletos para registrar merma/ajuste.");
    let a = |bad: bool| AbonoRevision { id: "a".into(), cliente_id: "c".into(), fecha: "f".into(), usuario_id: "u".into(), monto_rechazado: bad };
    assert_eq!(msg(validate_abono_credito(&a(false))), "OK");
    assert_eq!(msg(validate_abono_credito(&a(true))), "El abono debe ser mayor que cero.");
    assert_eq!(msg(validate_abono_credito(&AbonoRevision { cliente_id: "".into(), ..a(false) })), "Datos incompletos para registrar abono.");
    let ab = |bad: bool| AbrirCajaRevision { id: "c".into(), usuario_id: "u".into(), sucursal_id: "s".into(), fecha_apertura: "f".into(), monto_rechazado: bad };
    assert_eq!(msg(validate_abrir_caja_input(&ab(false))), "OK");
    assert_eq!(msg(validate_abrir_caja_input(&ab(true))), "El fondo inicial no puede ser negativo.");
    assert_eq!(msg(validate_abrir_caja_input(&AbrirCajaRevision { id: " ".into(), ..ab(false) })), "Datos incompletos para abrir caja.");
    let mv = |tipo: &str, bad: bool, motivo: &str| MovimientoCajaRevision { id: "m".into(), sesion_id: "s".into(), tipo: tipo.into(), monto_rechazado: bad, motivo: motivo.into() };
    assert_eq!(msg(validate_movimiento_caja_input(&mv("INGRESO", false, "cambio"))), "OK");
    assert_eq!(msg(validate_movimiento_caja_input(&mv("RETIRO", false, "x"))), "El tipo de movimiento debe ser INGRESO o EGRESO.");
    assert_eq!(msg(validate_movimiento_caja_input(&mv("EGRESO", true, "x"))), "El monto del movimiento debe ser mayor que cero.");
    assert_eq!(msg(validate_movimiento_caja_input(&mv("EGRESO", false, ""))), "El motivo del movimiento es obligatorio.");
    assert_eq!(msg(validate_movimiento_caja_input(&MovimientoCajaRevision { sesion_id: "".into(), ..mv("EGRESO", false, "x") })), "Datos incompletos para el movimiento de caja.");
    let ce = |bad: bool| CerrarCajaRevision { sesion_id: "s".into(), fecha_cierre: "f".into(), monto_rechazado: bad };
    assert_eq!(msg(validate_cerrar_caja_input(&ce(false))), "OK");
    assert_eq!(msg(validate_cerrar_caja_input(&ce(true))), "El monto final real no puede ser negativo.");
    assert_eq!(msg(validate_cerrar_caja_input(&CerrarCajaRevision { fecha_cierre: "".into(), ..ce(false) })), "Datos incompletos para cerrar caja.");
}

#[test]
fn customers_stock_products() {
    let c = |nf: bool, neg: bool| ClienteRevision { id: "c".into(), nombre: "Ana".into(), montos_no_finitos: nf, montos_negativos: neg };
    assert_eq!(msg(validate_cliente(&c(false, false))), "OK");
    assert_eq!(msg(validate_cliente(&c(true, true))), "Límite de crédito y saldo deben ser números válidos.");
    assert_eq!(msg(validate_cliente(&c(false, true))), "Límite de crédito y saldo no pueden ser negativos.");
    assert_eq!(msg(validate_cliente(&ClienteRevision { nombre: "".into(), ..c(false, false) })), "El cliente necesita nombre.");
    assert_eq!(msg(validate_inventario_input(&InventarioRevision { sucursal_id: "s".into(), stock_negativo: true })), "Stock y stock mínimo no pueden ser negativos.");
    assert_eq!(msg(validate_inventario_input(&InventarioRevision { sucursal_id: " ".into(), stock_negativo: false })), "La sucursal del inventario es obligatoria.");
    let p = |prov: &str, ps: &str, cu: &str| ProductoRevision {
        id: "p".into(), descripcion: "Martillo".into(), proveedor_id: prov.into(), marca: "Truper".into(), categoria: "Herr".into(),
        unidad: "Pieza".into(), precios_no_finitos: false, precios_negativos: false, sat_clave_prod_serv: ps.into(), sat_clave_unidad: cu.into(),
    };
    assert_eq!(msg(validate_producto(&p("PRV-1", " 27111700 ", " H87 "))), "OK");
    assert_eq!(
        msg(validate_producto(&p(" NULL ", "27111700", "H87"))),
        "Error: Debes seleccionar un proveedor válido de la lista para poder registrar el producto."
    );
    assert_eq!(
        msg(validate_producto(&p("PRV-1", "2711170", "H87"))),
        "La Clave de Producto/Servicio SAT debe tener exactamente 8 dígitos (Ej: 27111700)."
    );
    assert_eq!(msg(validate_producto(&p("PRV-1", "27111700", "H8"))), "La Clave de Unidad SAT debe tener exactamente 3 caracteres (Ej: H87).");
    assert_eq!(msg(validate_producto(&ProductoRevision { precios_negativos: true, ..p("PRV-1", "27111700", "H87") })), "Los precios no pueden ser negativos.");
    assert_eq!(msg(validate_producto(&ProductoRevision { marca: " ".into(), ..p("PRV-1", "27111700", "H87") })), "Selecciona una marca válida de la lista.");
}

fn promo() -> PromocionRevision {
    PromocionRevision {
        id: " p1 ".into(),
        nombre: " Verano ".into(),
        tipo_descuento: " porcentaje ".into(),
        valor_no_positivo: false,
        valor_sobre_cien: false,
        fecha_inicio: "2024-06-01T00:00".into(),
        fecha_fin: "2024-06-30T23:59".into(),
        activo: true,
        producto_id: Some(" ".into()),
        categoria_id: Some(" CAT-1 ".into()),
        marca: None,
        sucursal_ids: vec![" S1 ".into(), "  ".into(), "S2".into()],
    }
}

#[test]
fn promotions() {
    let n = normalize_promocion_input(promo());
    assert_eq!(n.id, "p1");
    assert_eq!(n.tipo_descuento, "PORCENTAJE");
    assert_eq!(n.producto_id, None);
    assert_eq!(n.categoria_id, Some(String::from("CAT-1")));
    assert_eq!(n.sucursal_ids, vec![String::from("S1"), String::from("S2")]);
    assert_eq!(validate_promocion_input(&n), Ok(()));
    let sobre = PromocionRevision { valor_sobre_cien: true, ..normalize_promocion_input(promo()) };
    assert_eq!(validate_promocion_input(&sobre), Err(String::from("El porcentaje de descuento no puede ser mayor a 100%.")));
    let fijo = PromocionRevision { tipo_descuento: "MONTO_FIJO".into(), valor_sobre_cien: true, ..normalize_promocion_input(promo()) };
    assert_eq!(validate_promocion_input(&fijo), Ok(()));
    let al_reves = PromocionRevision { fecha_fin: "2024-05-01T00:00".into(), ..normalize_promocion_input(promo()) };
    assert_eq!(validate_promocion_input(&al_reves), Err(String::from("La fecha fin de la promoción debe ser posterior a la fecha de inicio.")));
    let sin_hora = PromocionRevision { fecha_fin: "2024-07-01".into(), ..normalize_promocion_input(promo()) };
    assert_eq!(validate_promocion_input(&sin_hora), Err(String::from("Las fechas de la promoción deben incluir fecha y hora.")));
    let dos = PromocionRevision { marca: Some("TRUPER".into()), ..normalize_promocion_input(promo()) };
    assert_eq!(
        validate_promocion_input(&dos),
        Err(String::from("La promoción debe aplicar a producto, categoría o marca, pero solo a uno a la vez."))
    );
    let ninguno = PromocionRevision { categoria_id: None, ..normalize_promocion_input(promo()) };
    assert_eq!(validate_promocion_input(&ninguno), Err(String::from("Selecciona un producto, una categoría o una marca para la promoción.")));
    let sin_suc = PromocionRevision { sucursal_ids: vec![], ..normalize_promocion_input(promo()) };
    assert_eq!(validate_promocion_input(&sin_suc), Err(String::from("Selecciona al menos una sucursal para la promoción.")));
    let tipo = PromocionRevision { tipo_descuento: "2X1".into(), ..normalize_promocion_input(promo()) };
    assert_eq!(validate_promocion_input(&tipo), Err(String::from("El tipo de descuento debe ser PORCENTAJE o MONTO_FIJO.")));
    let cero = PromocionRevision { valor_no_positivo: true, ..normalize_promocion_input(promo()) };
    assert_eq!(validate_promocion_input(&cero), Err(String::from("El valor del descuento debe ser mayor que cero.")));
    let sin_id = PromocionRevision { id: "".into(), ..normalize_promocion_input(promo()) };
    assert_eq!(validate_promocion_input(&sin_id), Err(String::from("La promoción necesita identificador y nombre.")));
    let sin_fecha = PromocionRevision { fecha_inicio: "".into(), ..normalize_promocion_input(promo()) };
    assert_eq!(validate_promocion_input(&sin_fecha), Err(String::from("La promoción necesita fecha de inicio y fecha fin.")));
    assert!(str_lt("2024-01-01T10", "2024-01-01T11"));
    assert!(!str_lt("b", "a"));
    assert!(str_lt("a", "ab"));
    assert!(!str_lt("a", "a"));
}

#[test]
fn cost_check_reaches_the_promotion_target() {
    let n = normalize_promocion_input(promo());
    let (sql, params) = consulta_sin_perdida(&n, &n.sucursal_ids);
    assert_eq!(sql, "i.sucursal_id IN (?, ?) AND p.categoria = ?");
    assert_eq!(params, vec!["S1".to_string(), "S2".to_string(), "CAT-1".to_string()]);
    let por_producto = PromocionRevision { producto_id: Some("P7".into()), categoria_id: None, ..normalize_promocion_input(promo()) };
    let (sql, params) = consulta_sin_perdida(&por_producto, &["S9".to_string()]);
    assert_eq!(sql, "i.sucursal_id IN (?) AND p.id = ?");
    assert_eq!(params, vec!["S9".to_string(), "P7".to_string()]);
    let por_marca = PromocionRevision { categoria_id: None, marca: Some("TRUPER".into()), ..normalize_promocion_input(promo()) };
    assert_eq!(consulta_sin_perdida(&por_marca, &[]).0, "i.sucursal_id IN () AND p.marca = ?");
}

#[test]
fn promotion_without_products_is_refused() {
    assert_eq!(check_promocion_con_productos(3), Ok(()));
    assert_eq!(
        check_promocion_con_productos(0),
        Err("La promoción no coincide con productos activos en las sucursales seleccionadas.".to_string())
    );
}
