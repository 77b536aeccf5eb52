use ferre_pos::model::SupabaseConfig;
use ferre_pos::sync::{
    sync_dirty_trigger_sql,
    assert_supabase_config_values, backup_table_names, build_delta_pull_endpoint, is_safe_identifier,
    is_uuid_sync_table, map_backup_column_to_local, normalize_supabase_url, pull_conflict_columns,
    supabase_auth_headers, sync_dirty_predicate, sync_upload_plans, url_encode_component,
    validate_backup_payload,
};
use ferre_pos::error::AppError;

#[test]
fn row_identity() {
    assert_eq!(sync_dirty_predicate("inventario_sucursal"), Some("producto_id = NEW.producto_id AND sucursal_id = NEW.sucursal_id"));
    assert_eq!(sync_dirty_predicate("movimientos_inventario"), Some("uuid = NEW.uuid"));
    assert_eq!(sync_dirty_predicate("ventas"), Some("id = NEW.id"));
    assert_eq!(pull_conflict_columns("promocion_sucursales"), vec!["promocion_id", "sucursal_id"]);
    assert_eq!(pull_conflict_columns("clientes_datos_fiscales"), vec!["cliente_id"]);
    assert_eq!(pull_conflict_columns("productos"), vec!["id"]);
    assert!(is_safe_identifier("detalle_ventas"));
    assert!(!is_safe_identifier("x; DROP TABLE"));
    assert!(!is_safe_identifier(""));
    assert!(is_uuid_sync_table("ventas"));
    assert!(!is_uuid_sync_table("productos"));
}

#[test]
fn backup_columns_map_to_local_names() {
    assert_eq!(map_backup_column_to_local("ventas", "uuid", true), Some(String::from("sync_uuid")));
    assert_eq!(map_backup_column_to_local("facturas_emitidas", "uuid_sat", true), Some(String::from("uuid")));
    assert_eq!(map_backup_column_to_local("ventas", "venta_uuid", true), None);
    assert_eq!(map_backup_column_to_local("ventas", "venta_uuid", false), Some(String::from("venta_uuid")));
    assert_eq!(map_backup_column_to_local("productos", "uuid", true), Some(String::from("uuid")));
}

#[test]
fn url_encoding() {
    assert_eq!(url_encode_component("gt.2024-01-01 10:00:00"), "gt.2024-01-01%2010%3A00%3A00");
    assert_eq!(url_encode_component("in.(a,b)"), "in.%28a%2Cb%29");
    assert_eq!(url_encode_component("ñ~_"), "%C3%B1~_");
}

fn config(url: &str) -> SupabaseConfig {
    SupabaseConfig { url: url.into(), anon_key: "k".into(), is_connected: true }
}

#[test]
fn delta_endpoints() {
    let ids = vec![String::from("S1"), String::from("S2")];
    assert_eq!(
        build_delta_pull_endpoint(&config("https://p.supabase.co/"), "ventas", "2024-01-01", &ids, 50),
        "https://p.supabase.co/rest/v1/ventas?select=*&updated_at=gt.2024-01-01&order=updated_at.asc&limit=50&sucursal_id=in.%28S1%2CS2%29"
    );
    assert_eq!(
        build_delta_pull_endpoint(&config("https://p"), "traspasos", "x", &ids, 10),
        "https://p/rest/v1/traspasos?select=*&updated_at=gt.x&order=updated_at.asc&limit=10&or=%28sucursal_origen_id.in.%28S1%2CS2%29%2Csucursal_destino_id.in.%28S1%2CS2%29%29"
    );
    assert_eq!(
        build_delta_pull_endpoint(&config("https://p"), "detalle_traspasos", "x", &ids, 10),
        "https://p/rest/v1/detalle_traspasos?select=*&updated_at=gt.x&order=updated_at.asc&limit=10"
    );
    assert_eq!(
        build_delta_pull_endpoint(&config("https://p"), "ventas", "x", &[], 10),
        "https://p/rest/v1/ventas?select=*&updated_at=gt.x&order=updated_at.asc&limit=10"
    );
}

#[test]
fn supabase_settings() {
    assert_eq!(normalize_supabase_url("  https://p.supabase.co/rest/v1/  "), "https://p.supabase.co");
    assert_eq!(normalize_supabase_url("https://p.supabase.co///"), "https://p.supabase.co");
    match assert_supabase_config_values(" https://p.supabase.co/ ", "  key ") {
        Ok((u, k)) => {
            assert_eq!(u, "https://p.supabase.co");
            assert_eq!(k, "key");
        }
        Err(e) => panic!("{e:?}"),
    }
    assert!(matches!(assert_supabase_config_values("", "k"), Err(AppError::Validation(m)) if m == "Project URL y Anon Public Key son obligatorios."));
    assert!(matches!(assert_supabase_config_values("http://p", "k"), Err(AppError::Validation(m)) if m == "La URL de Supabase debe iniciar con https://."));
    assert_eq!(supabase_auth_headers("sb_publishable_x"), vec![(String::from("apikey"), String::from("sb_publishable_x"))]);
    assert_eq!(
        supabase_auth_headers("eyJ"),
        vec![(String::from("apikey"), String::from("eyJ")), (String::from("Authorization"), String::from("Bearer eyJ"))]
    );
}

#[test]
fn backups_need_every_critical_table() {
    let all: Vec<String> = backup_table_names().iter().map(|s| s.to_string()).collect();
    assert_eq!(all.len(), 25);
    assert!(validate_backup_payload("1", &all).is_ok());
    assert!(validate_backup_payload("supabase-rest-v1", &all).is_ok());
    assert!(matches!(validate_backup_payload("2", &all), Err(AppError::Validation(m)) if m == "Versión de respaldo no compatible: 2."));
    let partial: Vec<String> = all.iter().filter(|t| *t != "ventas" && *t != "marcas").cloned().collect();
    assert!(matches!(
        validate_backup_payload("1", &partial),
        Err(AppError::Validation(m)) if m == "El respaldo está incompleto. Faltan tablas críticas: marcas, ventas."
    ));
}

#[test]
fn upload_plans() {
    let plans = sync_upload_plans(Some(50), true);
    assert_eq!(plans.len(), 25);
    assert_eq!(plans[0].0, "sucursales");
    assert_eq!(plans[0].1, "id");
    assert_eq!(
        plans[0].2,
        "SELECT id AS __local_id, id, nombre, direccion, telefono, codigo_postal, eliminado, 1 AS sincronizado, updated_at FROM sucursales WHERE sincronizado = 0 ORDER BY updated_at LIMIT 50"
    );
    let dc = plans.iter().find(|p| p.0 == "detalle_compras").unwrap();
    assert_eq!(dc.1, "uuid");
    assert!(dc.2.ends_with("INNER JOIN compras c ON c.id = dc.compra_id WHERE dc.sincronizado = 0 ORDER BY dc.updated_at LIMIT 50"));
    let all = sync_upload_plans(None, false);
    assert!(all[24].2.ends_with("FROM movimientos_inventario ORDER BY updated_at"));
    assert_eq!(all[8].1, "producto_id,sucursal_id");
}

#[test]
fn updated_rows_are_marked_pending() {
    let q = sync_dirty_trigger_sql("inventario_sucursal").unwrap();
    assert_eq!(
        q,
        "DROP TRIGGER IF EXISTS trg_inventario_sucursal_mark_dirty; CREATE TRIGGER trg_inventario_sucursal_mark_dirty AFTER UPDATE ON inventario_sucursal WHEN NEW.sincronizado = OLD.sincronizado BEGIN UPDATE inventario_sucursal SET sincronizado = 0, updated_at = datetime('now') WHERE producto_id = NEW.producto_id AND sucursal_id = NEW.sucursal_id; END;"
    );
    assert!(sync_dirty_trigger_sql("ventas").unwrap().ends_with("WHERE id = NEW.id; END;"));
    assert_eq!(sync_dirty_trigger_sql("ventas; DROP TABLE x"), None);
}

fn percent_decode(s: &str) -> Vec<u8> {
    let b = s.as_bytes();
    let mut out = Vec::new();
    let mut i = 0;
    while i < b.len() {
        if b[i] == b'%' && i + 2 < b.len() {
            out.push(u8::from_str_radix(&s[i + 1..i + 3], 16).unwrap());
            i += 3;
        } else {
            out.push(b[i]);
            i += 1;
        }
    }
    out
}

#[test]
fn url_encoding_decodes_back() {
    assert_eq!(url_encode_component("gt.2024-01-01 10:00:00"), "gt.2024-01-01%2010%3A00%3A00");
    for v in ["gt.2024-01-01 10:00:00", "ñandú/ß?&=%", "", "a~b_c-d.e"] {
        let e = url_encode_component(v);
        assert!(e.chars().all(|c| c.is_ascii_alphanumeric() || "-_.~%".contains(c)));
        assert_eq!(percent_decode(&e), v.as_bytes());
    }
}

#[test]
fn parents_are_uploaded_first() {
    let plans = sync_upload_plans(Some(50), true);
    let pos = |t: &str| plans.iter().position(|p| p.0 == t).unwrap();
    assert_eq!(plans.len(), backup_table_names().len());
    for t in backup_table_names() {
        assert!(plans.iter().any(|p| p.0 == t));
    }
    for (a, b) in [
        ("sucursales", "usuarios"),
        ("productos", "inventario_sucursal"),
        ("compras", "detalle_compras"),
        ("ventas", "detalle_ventas"),
        ("detalle_ventas", "facturas_emitidas"),
        ("cajas_sesiones", "caja_movimientos"),
        ("traspasos", "detalle_traspasos"),
        ("promociones", "promocion_sucursales"),
    ] {
        assert!(pos(a) < pos(b));
    }
    for p in &plans {
        assert!(p.2.contains(" WHERE ") && p.2.ends_with(" LIMIT 50"));
    }
    for p in sync_upload_plans(None, false) {
        assert!(!p.2.contains("sincronizado = 0") && p.2.ends_with("updated_at"));
    }
}

#[test]
fn rows_are_uploaded_under_their_pull_key() {
    for (t, key, _) in sync_upload_plans(None, true) {
        let expected = if is_uuid_sync_table(t) { "uuid".to_string() } else { pull_conflict_columns(t).join(",") };
        assert_eq!(key, expected);
    }
    assert_eq!(pull_conflict_columns("inventario_sucursal"), vec!["producto_id", "sucursal_id"]);
    assert_eq!(pull_conflict_columns("movimientos_inventario"), vec!["uuid"]);
}

#[test]
fn pending_condition_only_when_asked() {
    for limit in [None, Some(0), Some(50), Some(500)] {
        for p in sync_upload_plans(limit, false) {
            assert!(!p.2.contains("sincronizado = 0"), "{}", p.0);
        }
        for p in sync_upload_plans(limit, true) {
            assert!(p.2.contains("sincronizado = 0"), "{}", p.0);
        }
    }
}
