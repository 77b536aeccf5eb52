use ferre_pos::consultas::{filtro_notificaciones, patrones_busqueda};
use ferre_pos::error::AppError;
use ferre_pos::model::{SupabaseConfig, Usuario};
use ferre_pos::pull::{
    aviso_subida, check_supabase_manual, health_url, resultado_ronda_sync, resumen_sincronizacion,
    supabase_conectado, upload_endpoint,
};
use ferre_pos::respaldo::{
    check_referencias_respaldo, columna_de_respaldo, es_respaldo_remoto, orden_restauracion, renglon_invalido,
    sql_insertar_respaldo,
};
use ferre_pos::revision::{
    proveedor_producto_candidato, proveedor_producto_resuelto, sanitize_producto_textos, ProductoTextos,
};

fn text_of(e: AppError) -> String {
    match e {
        AppError::Validation(m) => m,
        other => panic!("expected a validation error, got {:?}", other),
    }
}

#[test]
fn restore_order_is_reverse_of_fill_order() {
    assert!(es_respaldo_remoto("supabase-rest-v1"));
    assert!(!es_respaldo_remoto("1"));
    let (vaciar, llenar) = orden_restauracion(false);
    assert_eq!(llenar[0], "sucursales");
    assert_eq!(*llenar.last().unwrap(), "notificaciones");
    assert_eq!(vaciar[0], "notificaciones");
    let mut reversed = llenar.clone();
    reversed.reverse();
    assert_eq!(vaciar, reversed);
    let (vaciar_r, llenar_r) = orden_restauracion(true);
    assert!(!llenar_r.contains(&"notificaciones"));
    let mut reversed_r = llenar_r.clone();
    reversed_r.reverse();
    assert_eq!(vaciar_r, reversed_r);
}

#[test]
fn restored_columns_and_statements() {
    let local = vec!["id".to_string(), "sync_uuid".to_string(), "uuid".to_string()];
    assert_eq!(columna_de_respaldo("ventas", "uuid", true, &local).ok(), Some(Some("sync_uuid".to_string())));
    assert_eq!(columna_de_respaldo("ventas", "uuid", false, &local).ok(), Some(Some("uuid".to_string())));
    assert_eq!(columna_de_respaldo("ventas", "venta_uuid", true, &local).ok(), Some(None));
    assert_eq!(columna_de_respaldo("ventas", "total", false, &local).ok(), Some(None));
    assert_eq!(
        text_of(columna_de_respaldo("ventas", "x; DROP", false, &local).err().unwrap()),
        "El respaldo contiene una columna inválida: x; DROP."
    );
    assert_eq!(
        sql_insertar_respaldo("marcas", &["id".to_string(), "nombre".to_string()]),
        "INSERT OR REPLACE INTO marcas (id, nombre) VALUES (?, ?)"
    );
    assert_eq!(text_of(renglon_invalido("marcas")), "La tabla marcas contiene un renglón inválido en el respaldo.");
    assert_eq!(
        text_of(check_referencias_respaldo(3).err().unwrap()),
        "El respaldo no se aplicó porque contiene 3 referencias inválidas."
    );
    assert!(check_referencias_respaldo(0).is_ok());
}

#[test]
fn pending_upload_summary() {
    let conteos = vec![
        ("sucursales".to_string(), 0),
        ("ventas".to_string(), 4),
        ("clientes".to_string(), 2),
    ];
    let status = resumen_sincronizacion(&conteos, Some("t1".to_string()), None, None, Some("boom".to_string()));
    assert_eq!(status.pendientes, 6);
    assert_eq!(status.ventas_pendientes, 4);
    assert_eq!(status.tablas_pendientes.len(), 2);
    assert_eq!(status.tablas_pendientes[0].tabla, "ventas");
    assert_eq!(status.tablas_pendientes[1].pendientes, 2);
    assert_eq!(status.ultimo_intento_at, Some("t1".to_string()));
    assert_eq!(status.ultimo_error, Some("boom".to_string()));
}

#[test]
fn upload_reports_and_connection() {
    let listo = SupabaseConfig { url: "https://x.supabase.co".to_string(), anon_key: "k".to_string(), is_connected: true };
    let apagado = SupabaseConfig { url: "https://x.supabase.co".to_string(), anon_key: "k".to_string(), is_connected: false };
    assert!(supabase_conectado(&listo));
    assert!(!supabase_conectado(&apagado));
    assert_eq!(check_supabase_manual(None, "Configura Supabase antes de sincronizar hacia la nube."), Err("Configura Supabase antes de sincronizar hacia la nube.".to_string()));
    assert_eq!(check_supabase_manual(Some(&apagado), "x"), Err("Supabase no está conectado.".to_string()));
    assert_eq!(check_supabase_manual(Some(&listo), "x"), Ok(()));
    assert_eq!(
        upload_endpoint("https://x.supabase.co//", "ventas", "id"),
        "https://x.supabase.co/rest/v1/ventas?on_conflict=id"
    );
    assert_eq!(health_url("https://x.supabase.co"), "https://x.supabase.co/rest/v1/sucursales?select=id&limit=1");
    assert_eq!(aviso_subida(10, 4, 3, 0, "99"), Some((
        "Se subieron con éxito 6 cambios locales a Supabase.".to_string(),
        "sync:upload-ok:99".to_string()
    )));
    assert_eq!(aviso_subida(10, 9, 3, 2, "99").unwrap().0, "Se subieron con éxito 3 cambios locales a Supabase. Incluye hasta 2 ventas pendientes.");
    assert_eq!(aviso_subida(0, 0, 3, 0, "99"), None);
    assert_eq!(aviso_subida(5, 0, 0, 0, "99"), None);
    assert_eq!(resultado_ronda_sync(Ok(2), Ok(3)), Ok((2, 3)));
    assert_eq!(resultado_ronda_sync(Err("red".to_string()), Ok(3)), Err("subida: red".to_string()));
    assert_eq!(
        resultado_ronda_sync(Err("a".to_string()), Err("b".to_string())),
        Err("subida: a | bajada: b".to_string())
    );
}

#[test]
fn notification_listing_and_search_patterns() {
    let admin = Usuario {
        id: "U1".to_string(),
        email: "a@x.mx".to_string(),
        nombre: "A".to_string(),
        role: "ADMIN".to_string(),
        sucursal_id: "S1".to_string(),
    };
    let f = filtro_notificaciones(&admin, Some(true));
    assert!(f.where_sql.starts_with(" WHERE 1 = 1 AND leida = 0 AND ((entidad_tipo = 'sucursal'"));
    assert_eq!(f.params, vec!["S1", "%:S1", "S1", "S1"]);
    let mut root = admin.clone();
    root.role = "SUPERADMIN".to_string();
    let g = filtro_notificaciones(&root, None);
    assert_eq!(g.where_sql, " WHERE 1 = 1");
    assert!(g.params.is_empty());
    let p = patrones_busqueda("  750 ").unwrap();
    assert_eq!(p.exacto, "750");
    assert_eq!(p.prefijo, "750%");
    assert_eq!(p.contiene, "%750%");
    assert!(patrones_busqueda("   ").is_none());
}

#[test]
fn product_texts_cleaned() {
    let p = ProductoTextos {
        codigo_barras: " 75abc ".to_string(),
        codigo_proveedor: "tr-1".to_string(),
        proveedor_id: " P1 ".to_string(),
        clave_producto: "k".to_string(),
        descripcion: "martillo   grande".to_string(),
        marca: "truper".to_string(),
        categoria: "herramienta".to_string(),
        unidad: "pieza".to_string(),
        sat_clave_prod_serv: " 27111700 ".to_string(),
        sat_clave_unidad: "h87".to_string(),
        fotos: " a.jpg   b.jpg ".to_string(),
        descripcion_catalogo: "x".to_string(),
        caducidad: Some("   ".to_string()),
    };
    let c = sanitize_producto_textos(&p);
    assert_eq!(c.codigo_barras, "75ABC");
    assert_eq!(c.proveedor_id, "P1");
    assert_eq!(c.descripcion, "MARTILLO GRANDE");
    assert_eq!(c.sat_clave_unidad, "H87");
    assert_eq!(c.fotos, "a.jpg b.jpg");
    assert_eq!(c.caducidad, None);
    assert_eq!(proveedor_producto_candidato(" P1 ").ok(), Some("P1".to_string()));
    assert_eq!(
        text_of(proveedor_producto_candidato(" NULL ").err().unwrap()),
        "Error: Debes seleccionar un proveedor válido de la lista para poder registrar el producto."
    );
    assert!(proveedor_producto_resuelto("P1".to_string(), false).is_err());
    assert_eq!(proveedor_producto_resuelto("P1".to_string(), true).ok(), Some("P1".to_string()));
}
