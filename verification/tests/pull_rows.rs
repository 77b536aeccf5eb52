use ferre_pos::importacion::ValorImportado;
use ferre_pos::pull::{
    column_position, conflict_notification, has_all_keys, mark_ids_synced_sql, mark_synced_statement,
    remote_column_target, remote_row_local_id, remote_row_updated_at, remote_updated_at,
    remote_upsert_sql, should_apply_remote_row, split_composite_id, sync_key_from_values,
};

fn cols(names: &[&str]) -> Vec<String> {
    names.iter().map(|n| n.to_string()).collect()
}

fn texto(s: &str) -> ValorImportado {
    ValorImportado::Texto(s.to_string())
}

#[test]
fn key_columns_are_found_by_first_position() {
    let c = cols(&["id", "nombre", "id"]);
    assert_eq!(column_position(&c, "id"), Some(0));
    assert_eq!(column_position(&c, "nombre"), Some(1));
    assert_eq!(column_position(&c, "sincronizado"), None);
    assert!(has_all_keys(&["producto_id", "sucursal_id"], &cols(&["stock", "sucursal_id", "producto_id"])));
    assert!(!has_all_keys(&["producto_id", "sucursal_id"], &cols(&["stock", "producto_id"])));
}

#[test]
fn pending_newer_local_edit_wins_over_pull() {
    let c = cols(&["id", "nombre", "updated_at"]);
    // No local row: the pulled one is written.
    assert!(should_apply_remote_row(&["id"], &c, None));
    // Local change still waiting for upload and newer: kept.
    assert!(!should_apply_remote_row(&["id"], &c, Some((0, true))));
    // Waiting for upload but older than the pulled version: overwritten.
    assert!(should_apply_remote_row(&["id"], &c, Some((0, false))));
    // Already uploaded: overwritten even when its timestamp is later.
    assert!(should_apply_remote_row(&["id"], &c, Some((1, true))));
    // A row missing its key is never written.
    assert!(!should_apply_remote_row(&["producto_id", "sucursal_id"], &cols(&["producto_id"]), None));
    assert!(!should_apply_remote_row(&[], &c, None));
}

#[test]
fn sync_key_lists_found_keys() {
    let c = cols(&["stock", "producto_id", "sucursal_id"]);
    let v = cols(&["4", "P-1", "S-2"]);
    assert_eq!(sync_key_from_values(&["producto_id", "sucursal_id"], &c, &v), "producto_id=P-1|sucursal_id=S-2");
    assert_eq!(sync_key_from_values(&["uuid", "sucursal_id"], &c, &v), "sucursal_id=S-2");
    assert_eq!(sync_key_from_values(&["uuid"], &c, &v), "");
}

#[test]
fn upsert_statement_updates_non_key_columns() {
    let sql = remote_upsert_sql("marcas", &cols(&["id", "nombre", "sincronizado"]), &["id"]);
    assert_eq!(
        sql,
        "INSERT INTO marcas (id, nombre, sincronizado) VALUES (?, ?, ?) ON CONFLICT(id) DO UPDATE SET nombre = excluded.nombre, sincronizado = excluded.sincronizado"
    );
    let only_keys = remote_upsert_sql(
        "inventario_sucursal",
        &cols(&["producto_id", "sucursal_id"]),
        &["producto_id", "sucursal_id"],
    );
    assert_eq!(
        only_keys,
        "INSERT INTO inventario_sucursal (producto_id, sucursal_id) VALUES (?, ?) ON CONFLICT(producto_id, sucursal_id) DO NOTHING"
    );
}

#[test]
fn written_rows_are_marked_synced() {
    let c = cols(&["stock", "sucursal_id", "producto_id"]);
    let (sql, positions) = mark_synced_statement("inventario_sucursal", &["producto_id", "sucursal_id"], &c, true).unwrap();
    assert_eq!(
        sql,
        "UPDATE inventario_sucursal SET sincronizado = ?, updated_at = ? WHERE producto_id = ? AND sucursal_id = ?"
    );
    assert_eq!(positions, vec![2, 1]);
    let (sql2, positions2) = mark_synced_statement("clientes", &["id"], &cols(&["id"]), false).unwrap();
    assert_eq!(sql2, "UPDATE clientes SET sincronizado = ? WHERE id = ?");
    assert_eq!(positions2, vec![0]);
    assert!(mark_synced_statement("clientes", &["id"], &cols(&["nombre"]), true).is_none());
}

#[test]
fn pulled_columns_map_to_local_ones() {
    let local = cols(&["id", "sync_uuid", "nombre"]);
    assert_eq!(remote_column_target("ventas", "uuid", &local), Some("sync_uuid".to_string()));
    assert_eq!(remote_column_target("ventas", "nombre", &local), Some("nombre".to_string()));
    assert_eq!(remote_column_target("ventas", "cliente_uuid", &local), None);
    assert_eq!(remote_column_target("ventas", "total", &local), None);
    assert_eq!(remote_updated_at(Some("2024-05-01 10:00:00")), "2024-05-01 10:00:00");
    assert_eq!(remote_updated_at(None), "1970-01-01");
}

#[test]
fn conflict_notice_texts() {
    let (mensaje, clave) = conflict_notification("clientes", "id=C1", "2024-01-01");
    assert_eq!(
        mensaje,
        "Se conservó el cambio local pendiente en clientes (id=C1) porque es más reciente que la versión recibida de Supabase."
    );
    assert_eq!(clave, "sync:conflict:clientes:id=C1:2024-01-01");
}

#[test]
fn uploaded_rows_are_identified_locally() {
    let inv = vec![
        ("producto_id".to_string(), texto("P-9")),
        ("sucursal_id".to_string(), texto("S-1")),
        ("updated_at".to_string(), texto("2024-03-03 08:00:00")),
    ];
    let id = remote_row_local_id("inventario_sucursal", Some(inv.as_slice())).unwrap();
    assert_eq!(id, "P-9|S-1");
    assert_eq!(split_composite_id(&id), Some(("P-9".to_string(), "S-1".to_string())));
    assert_eq!(remote_row_updated_at(Some(inv.as_slice())), Some("2024-03-03 08:00:00".to_string()));
    let empresa = vec![("id".to_string(), ValorImportado::Entero(1))];
    assert_eq!(remote_row_local_id("empresa_config_fiscal", Some(empresa.as_slice())), Some("1".to_string()));
    let empresa_raro = vec![("id".to_string(), ValorImportado::Logico(true))];
    assert_eq!(remote_row_local_id("empresa_config_fiscal", Some(empresa_raro.as_slice())), Some(String::new()));
    let sin_sucursal = vec![("producto_id".to_string(), texto("P-9"))];
    assert_eq!(remote_row_local_id("inventario_sucursal", Some(sin_sucursal.as_slice())), None);
    let mov = vec![("uuid".to_string(), texto("u-1")), ("id".to_string(), texto("M1"))];
    assert_eq!(remote_row_local_id("movimientos_inventario", Some(mov.as_slice())), Some("u-1".to_string()));
    assert_eq!(remote_row_local_id("ventas", Some(mov.as_slice())), Some("M1".to_string()));
    let numero = vec![("id".to_string(), ValorImportado::Entero(7))];
    assert_eq!(remote_row_local_id("ventas", Some(numero.as_slice())), None);
    assert_eq!(remote_row_local_id("ventas", None), None);
    assert_eq!(split_composite_id("sin-separador"), None);
    assert_eq!(split_composite_id("a|b|c"), Some(("a".to_string(), "b|c".to_string())));
}

#[test]
fn single_key_tables_marked_by_id_list() {
    assert_eq!(
        mark_ids_synced_sql("clientes_datos_fiscales", 2),
        "UPDATE clientes_datos_fiscales SET sincronizado = 1, updated_at = ? WHERE cliente_id IN (?, ?)"
    );
    assert_eq!(
        mark_ids_synced_sql("movimientos_inventario", 1),
        "UPDATE movimientos_inventario SET sincronizado = 1, updated_at = ? WHERE uuid IN (?)"
    );
    assert_eq!(mark_ids_synced_sql("ventas", 1), "UPDATE ventas SET sincronizado = 1, updated_at = ? WHERE id IN (?)");
}
