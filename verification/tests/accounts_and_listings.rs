use ferre_pos::alertas::{aviso_apertura_fuera_de_horario, aviso_producto_agotado, etiqueta_producto, hora_apertura};
use ferre_pos::catalogos::{
    check_eliminacion, check_eliminado, check_nombre_unico, preparar_nombre_unico, preparar_valor_catalogo,
    sql_nombre_repetido, valor_catalogo_encontrado, Eliminable,
};
use ferre_pos::consultas::{
    consulta_dashboard, filtro_historial_traspasos, filtro_historial_ventas, filtro_por_sucursal, ventana_pagina,
    ConsultaDashboard,
};
use ferre_pos::cuentas::{
    autenticar, check_cierre_sesion, check_sistema_sin_usuarios, check_usuario_actualizado, preparar_perfil,
    resultado_verificacion, validar_alta_usuario, validar_configuracion_inicial,
};
use ferre_pos::error::AppError;
use ferre_pos::fiscal::{
    check_cliente_factura, check_conceptos_factura, check_emisor_fiscal, check_factura_pendiente_actualizada,
    check_sin_factura_timbrada, check_timbrado_venta, check_uuid_unico, check_venta_facturable,
    check_venta_id_factura, emisor_cfdi, preparar_timbrado, receptor_cfdi,
};
use ferre_pos::model::{
    ActualizarEstadoFacturaInput, ClienteDatosFiscales, DashboardFiltroInput, EmpresaConfigFiscal,
    HistorialVentasFiltro, PerfilUpdate, Sucursal, Usuario,
};
use ferre_pos::operaciones::{check_eliminar_promocion, check_modificar_promocion, check_venta_diversa};
use ferre_pos::password::{hash_password, PasswordCheck};

fn user(role: &str, sucursal: &str) -> Usuario {
    Usuario {
        id: "U1".to_string(),
        email: "u@x.mx".to_string(),
        nombre: "Ana".to_string(),
        role: role.to_string(),
        sucursal_id: sucursal.to_string(),
    }
}

fn validation_text(e: AppError) -> String {
    match e {
        AppError::Validation(m) => m,
        other => panic!("expected a validation error, got {:?}", other),
    }
}

#[test]
fn opening_hour_alerts() {
    assert_eq!(hora_apertura("2024-05-01T23:10:00"), Some(23));
    assert_eq!(hora_apertura("2024-05-01 05:59:00"), Some(5));
    assert_eq!(hora_apertura("2024-05-01T+7:00"), Some(7));
    assert_eq!(hora_apertura("2024-05-01T7:00"), None);
    assert_eq!(hora_apertura("2024-05-01"), None);
    assert_eq!(aviso_apertura_fuera_de_horario("Centro", "2024-05-01 12:00:00", "S1"), None);
    let (mensaje, clave) = aviso_apertura_fuera_de_horario("Centro", "2024-05-01T22:00:00", "S1").unwrap();
    assert_eq!(
        mensaje,
        "La caja de Centro fue abierta a las 2024-05-01T22:00:00. Verifica si corresponde a una operación autorizada."
    );
    assert_eq!(clave, "caja:fuera-horario:S1");
    assert!(aviso_apertura_fuera_de_horario("Centro", "2024-05-01 06:00:00", "S1").is_none());
}

#[test]
fn product_alerts() {
    assert_eq!(etiqueta_producto("Martillo", "  "), "Martillo");
    assert_eq!(etiqueta_producto("Martillo", "Truper"), "Martillo Truper");
    let (mensaje, clave) = aviso_producto_agotado("Martillo Truper", "Centro", "P1", "S1");
    assert_eq!(mensaje, "'Martillo Truper' llegó a 0 piezas en Centro. Se sugiere generar orden de compra.");
    assert_eq!(clave, "inventario:agotado:P1:S1");
}

fn empresa(rfc: &str) -> EmpresaConfigFiscal {
    EmpresaConfigFiscal {
        rfc: rfc.to_string(),
        razon_social: "Ferre SA".to_string(),
        regimen_fiscal: "601".to_string(),
        registro_patronal: None,
        actualizado_at: String::new(),
    }
}

#[test]
fn invoice_preconditions() {
    assert_eq!(check_venta_id_factura(" "), Err("Falta el identificador de la venta a facturar.".to_string()));
    assert_eq!(check_venta_facturable("CANCELADA"), Err("Solo se pueden facturar ventas COMPLETADAS.".to_string()));
    assert_eq!(check_venta_facturable("COMPLETADA"), Ok(()));
    assert_eq!(check_sin_factura_timbrada(Some("TIMBRADA")), Err("Esta venta ya tiene una factura TIMBRADA.".to_string()));
    assert_eq!(check_sin_factura_timbrada(Some("PENDIENTE")), Ok(()));
    assert_eq!(
        check_emisor_fiscal(None),
        Err("Configura los datos fiscales de la empresa emisora antes de facturar.".to_string())
    );
    assert_eq!(
        check_emisor_fiscal(Some(&empresa(" "))),
        Err("La configuración fiscal de la empresa está incompleta.".to_string())
    );
    assert_eq!(check_emisor_fiscal(Some(&empresa("FER010101AAA"))), Ok(()));
    let emisor = emisor_cfdi(&empresa("FER010101AAA"), "06000".to_string()).ok().unwrap();
    assert_eq!(emisor.nombre, "Ferre SA");
    assert_eq!(emisor.lugar_expedicion, "06000");
    assert_eq!(
        emisor_cfdi(&empresa("FER010101AAA"), " ".to_string()).err(),
        Some("La sucursal de la venta no tiene código postal para LugarExpedicion.".to_string())
    );
    assert_eq!(
        check_cliente_factura(None),
        Err("La venta no tiene cliente asociado. Asigna cliente antes de generar CFDI.".to_string())
    );
    assert_eq!(check_cliente_factura(Some("C1".to_string())), Ok("C1".to_string()));
    assert_eq!(receptor_cfdi(None).err(), Some("El cliente no tiene datos fiscales registrados.".to_string()));
    let receptor = receptor_cfdi(Some(ClienteDatosFiscales {
        cliente_id: "C1".to_string(),
        rfc: "XAXX010101000".to_string(),
        razon_social: "PUBLICO".to_string(),
        regimen_fiscal: "616".to_string(),
        codigo_postal: "01000".to_string(),
    }))
    .ok()
    .unwrap();
    assert_eq!(receptor.uso_cfdi, "G03");
    assert_eq!(receptor.nombre, "PUBLICO");
    assert_eq!(receptor.domicilio_fiscal_receptor, "01000");
    assert_eq!(check_conceptos_factura(0), Err("La venta no tiene conceptos para facturar.".to_string()));
    assert_eq!(check_conceptos_factura(2), Ok(()));
}

fn timbrado(factura: &str, uuid: &str) -> ActualizarEstadoFacturaInput {
    ActualizarEstadoFacturaInput {
        factura_id: factura.to_string(),
        uuid: uuid.to_string(),
        pdf_path: None,
        xml_path: None,
    }
}

#[test]
fn stamping_preconditions() {
    assert_eq!(
        preparar_timbrado(&timbrado(" FAC-1 ", " abcd-1234-ef ")),
        Ok(("FAC-1".to_string(), "ABCD-1234-EF".to_string()))
    );
    assert_eq!(
        preparar_timbrado(&timbrado("FAC-1", "  ")),
        Err("La factura y el UUID oficial son obligatorios.".to_string())
    );
    assert_eq!(
        preparar_timbrado(&timbrado("FAC-1", "short")),
        Err("El UUID de la factura no tiene una longitud válida.".to_string())
    );
    assert_eq!(
        preparar_timbrado(&timbrado("FAC-1", "abcd_1234_efgh")),
        Err("El UUID de la factura contiene caracteres inválidos.".to_string())
    );
    assert_eq!(
        check_timbrado_venta("CANCELADA"),
        Err("No se puede timbrar una factura cuya venta ya fue cancelada.".to_string())
    );
    assert_eq!(check_uuid_unico(1), Err("El UUID indicado ya está asignado a otra factura.".to_string()));
    assert_eq!(check_uuid_unico(0), Ok(()));
    assert_eq!(
        check_factura_pendiente_actualizada(0),
        Err("No se encontró una factura PENDIENTE para timbrar.".to_string())
    );
}

#[test]
fn signing_in() {
    let msg = "Credenciales inválidas o usuario no encontrado.";
    assert_eq!(autenticar(None, "x").err(), Some(msg.to_string()));
    let u = user("ADMIN", "S1");
    let (who, upgrade) = autenticar(Some((u.clone(), "secreta".to_string())), "secreta").ok().unwrap();
    assert_eq!(who.id, "U1");
    let new_hash = upgrade.unwrap();
    assert!(new_hash.starts_with("$2b$"));
    assert_eq!(autenticar(Some((u.clone(), "secreta".to_string())), "otra").err(), Some(msg.to_string()));
    let stored = hash_password("clave1").ok().unwrap();
    let (_, none) = autenticar(Some((u.clone(), stored.clone())), "clave1").ok().unwrap();
    assert!(none.is_none());
    assert_eq!(autenticar(Some((u, stored)), "clave2").err(), Some(msg.to_string()));
    assert_eq!(resultado_verificacion(Ok(PasswordCheck::Rejected), "no"), Err("no".to_string()));
    assert_eq!(resultado_verificacion(Ok(PasswordCheck::Accepted), "no"), Ok(None));
}

#[test]
fn sessions_and_accounts() {
    assert_eq!(
        check_cierre_sesion(1),
        Err("No puedes cerrar sesión mientras tu caja esté ABIERTA. Realiza el corte de caja primero.".to_string())
    );
    assert_eq!(check_cierre_sesion(0), Ok(()));
    let sucursal = Sucursal {
        id: "S1".to_string(),
        nombre: "Centro".to_string(),
        direccion: "Calle 1".to_string(),
        telefono: "555".to_string(),
        codigo_postal: "06000".to_string(),
    };
    let admin = user("SUPERADMIN", "S1");
    assert_eq!(validar_configuracion_inicial(&sucursal, &admin, "clave"), Ok(()));
    assert_eq!(
        validar_configuracion_inicial(&sucursal, &admin, "  "),
        Err("El primer usuario necesita contraseña.".to_string())
    );
    assert_eq!(
        validar_configuracion_inicial(&sucursal, &user("SUPERADMIN", "S2"), "clave"),
        Err("El usuario inicial debe estar asociado a la sucursal creada.".to_string())
    );
    assert_eq!(check_sistema_sin_usuarios(3), Err("El sistema ya tiene usuarios registrados.".to_string()));
    assert_eq!(validar_alta_usuario(&user("USUARIO", "S1"), ""), Err("El usuario necesita contraseña.".to_string()));
    assert_eq!(validar_alta_usuario(&user("USUARIO", "S1"), "x"), Ok(()));
    assert_eq!(
        check_usuario_actualizado(0),
        Err("No se encontró el usuario que intentas actualizar.".to_string())
    );
    let perfil = PerfilUpdate {
        nombres: " Ana ".to_string(),
        apellido_paterno: "".to_string(),
        apellido_materno: "Lopez".to_string(),
        email: " Ana@X.MX ".to_string(),
        password_actual: "vieja".to_string(),
        nueva_password: Some("  nueva ".to_string()),
    };
    let p = preparar_perfil(&perfil);
    assert_eq!(p.nombre, "Ana Lopez");
    assert_eq!(p.email, "ana@x.mx");
    assert_eq!(p.nueva_password, Some("nueva".to_string()));
}

#[test]
fn listings_filtered_by_branch() {
    let admin = user("ADMIN", "S1");
    let filtro = HistorialVentasFiltro {
        fecha_inicio: Some(" 2024-01-01 ".to_string()),
        fecha_fin: None,
        sucursal_id: Some("S9".to_string()),
        usuario_id: Some("  ".to_string()),
        folio: Some("v-1".to_string()),
        estado: Some("completada".to_string()),
    };
    let f = filtro_historial_ventas(&admin, Some(&filtro), true);
    assert_eq!(
        f.where_sql,
        " WHERE v.fecha >= ? AND v.fecha <= ? AND v.sucursal_id = ? AND v.id LIKE ? COLLATE NOCASE AND v.estado = ?"
    );
    assert_eq!(
        f.params,
        vec!["2024-01-01", "9999-12-31T23:59:59.999Z", "S1", "%v-1%", "COMPLETADA"]
    );
    let sin_folio = filtro_historial_ventas(&admin, Some(&filtro), false);
    assert_eq!(sin_folio.params.len(), 4);
    let root = user("SUPERADMIN", "S1");
    let todo = filtro_historial_ventas(&root, None, true);
    assert_eq!(todo.where_sql, " WHERE v.fecha >= ? AND v.fecha <= ?");
    assert_eq!(todo.params, vec!["0001-01-01T00:00:00.000Z", "9999-12-31T23:59:59.999Z"]);
    let t = filtro_historial_traspasos(&admin, Some(" en_transito ".to_string()));
    assert_eq!(t.where_sql, " WHERE (t.sucursal_origen_id = ? OR t.sucursal_destino_id = ?) AND t.estado = ?");
    assert_eq!(t.params, vec!["S1", "S1", "EN_TRANSITO"]);
    let t2 = filtro_historial_traspasos(&root, Some("  ".to_string()));
    assert_eq!(t2.where_sql, "");
    assert!(t2.params.is_empty());
    let m = filtro_por_sucursal(&admin, "m.sucursal_id");
    assert_eq!(m.where_sql, " WHERE m.sucursal_id = ?");
    assert_eq!(m.params, vec!["S1"]);
    assert_eq!(filtro_por_sucursal(&root, "v.sucursal_id").where_sql, "");
    assert_eq!(ventana_pagina(-3, 500), ("100".to_string(), "0".to_string()));
    assert_eq!(ventana_pagina(2, 5), ("10".to_string(), "20".to_string()));
}

#[test]
fn dashboard_scope() {
    let admin = user("ADMIN", "S1");
    match consulta_dashboard(&admin, None) {
        ConsultaDashboard::HoySucursal(s) => assert_eq!(s, "S1"),
        _ => panic!("expected today at the admin's branch"),
    }
    let root = user("SUPERADMIN", "S1");
    assert!(matches!(consulta_dashboard(&root, None), ConsultaDashboard::HoyTodas));
    let filtro = DashboardFiltroInput {
        sucursal_id: None,
        fecha_inicio: Some("2024-01-01".to_string()),
        fecha_fin: None,
        marca: None,
        categoria: None,
        proveedor_id: None,
        metodo_pago: None,
        usuario_id: None,
    };
    match consulta_dashboard(&root, Some(&filtro)) {
        ConsultaDashboard::RangoTodas { desde, hasta } => {
            assert_eq!(desde, "2024-01-01");
            assert_eq!(hasta, "9999-12-31T23:59:59.999Z");
        }
        _ => panic!("expected a range over every branch"),
    }
    match consulta_dashboard(&admin, Some(&filtro)) {
        ConsultaDashboard::RangoSucursal { sucursal, .. } => assert_eq!(sucursal, "S1"),
        _ => panic!("expected a range at the admin's branch"),
    }
}

#[test]
fn catalogue_names_and_deletions() {
    assert_eq!(preparar_nombre_unico("marcas", "marca", "  Truper ").ok(), Some("Truper".to_string()));
    assert_eq!(validation_text(preparar_nombre_unico("ventas", "marca", "x").err().unwrap()), "Catálogo inválido.");
    assert_eq!(
        validation_text(preparar_nombre_unico("proveedores", "proveedor", " ").err().unwrap()),
        "El proveedor necesita nombre."
    );
    assert_eq!(
        sql_nombre_repetido("marcas", true),
        "SELECT COUNT(*) FROM marcas WHERE eliminado = 0 AND nombre = ?1 COLLATE NOCASE AND id <> ?2"
    );
    assert_eq!(
        validation_text(check_nombre_unico("marca", 1).err().unwrap()),
        "Ya existe un marca activo con ese nombre."
    );
    assert!(check_nombre_unico("marca", 0).is_ok());
    assert_eq!(
        validation_text(preparar_valor_catalogo("unidades", "unidad", "").err().unwrap()),
        "Selecciona una unidad válida de la lista."
    );
    assert_eq!(
        validation_text(valor_catalogo_encontrado("marca", None).err().unwrap()),
        "Selecciona una marca válida de la lista."
    );
    assert_eq!(valor_catalogo_encontrado("marca", Some("TRUPER".to_string())).ok(), Some("TRUPER".to_string()));
    assert_eq!(
        check_eliminacion(&Eliminable::Marca, true),
        Err("No se puede eliminar la marca porque tiene productos asociados.".to_string())
    );
    assert_eq!(
        check_eliminacion(&Eliminable::Sucursal, true),
        Err("No se puede eliminar la sucursal porque tiene usuarios activos.".to_string())
    );
    assert_eq!(check_eliminacion(&Eliminable::Producto, true), Ok(()));
    assert_eq!(check_eliminacion(&Eliminable::Cliente, false), Ok(()));
    assert_eq!(
        check_eliminado(&Eliminable::Categoria, 0),
        Err("No se encontró la categoría que intentas eliminar.".to_string())
    );
    assert_eq!(check_eliminado(&Eliminable::Usuario, 1), Ok(()));
}

#[test]
fn promotions_and_quick_sales_by_branch() {
    let admin = user("ADMIN", "S1");
    let root = user("SUPERADMIN", "S1");
    let propias = vec!["S1".to_string()];
    let ajenas = vec!["S1".to_string(), "S2".to_string()];
    assert_eq!(check_modificar_promocion(&admin, &[]), Ok(()));
    assert_eq!(check_modificar_promocion(&admin, &propias), Ok(()));
    assert_eq!(
        check_modificar_promocion(&admin, &ajenas),
        Err("Operación inválida: un administrador solo puede modificar promociones de su sucursal.".to_string())
    );
    assert_eq!(check_modificar_promocion(&root, &ajenas), Ok(()));
    assert_eq!(
        check_eliminar_promocion(&admin, &[]),
        Err("Operación inválida: un administrador solo puede eliminar promociones de su sucursal.".to_string())
    );
    assert_eq!(check_eliminar_promocion(&admin, &propias), Ok(()));
    assert_eq!(check_eliminar_promocion(&root, &[]), Ok(()));
    assert_eq!(
        check_venta_diversa(&admin, "S2"),
        Err("No puedes crear venta rápida para otra sucursal.".to_string())
    );
    assert_eq!(check_venta_diversa(&admin, "S1"), Ok(()));
    assert_eq!(check_venta_diversa(&root, "S2"), Ok(()));
}
