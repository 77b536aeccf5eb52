use ferre_pos::importacion::{
    aviso_fila_ilegible, aviso_valores_unicos, clave_sat_o_h87, codigo_barras_opcional, csv_cell_text,
    destino_universal, importar_fila_universal, incidencia_csv, json_value_text,
    planear_importacion_universal, registrar_valor_unico, revisar_fila_mapeada,
    validar_importacion_mapeada, valor_texto, valores_mostrados, BitacoraImportacion,
    DestinoUniversal, MotivoOmision, RegistroImportado, ValorImportado,
};
use ferre_pos::legado::{
    categoria_legacy, legacy_candidate_ids, legacy_codigo_proveedor, legacy_producto_id,
    marca_sin_marca, plan_marca_legacy, plan_proveedor_legacy, planear_articulo_legacy,
    proveedor_legacy_nuevo, proveedor_por_defecto, unidad_legacy, ArticuloLegacy, MarcaLegacy,
    ProveedorLegacy,
};
use ferre_pos::model::CsvImportIssue;

fn fila(pairs: &[(&str, ValorImportado)]) -> Vec<(String, ValorImportado)> {
    pairs.iter().map(|(k, v)| (k.to_string(), clone_valor(v))).collect()
}

fn clone_valor(v: &ValorImportado) -> ValorImportado {
    match v {
        ValorImportado::Texto(t) => ValorImportado::Texto(t.clone()),
        ValorImportado::Entero(n) => ValorImportado::Entero(*n),
        ValorImportado::Numero(t) => ValorImportado::Numero(t.clone()),
        ValorImportado::Logico(b) => ValorImportado::Logico(*b),
        ValorImportado::Otro => ValorImportado::Otro,
    }
}

fn t(s: &str) -> ValorImportado {
    ValorImportado::Texto(s.to_string())
}

#[test]
fn values_read_as_text() {
    assert_eq!(valor_texto(&t("  hola  ")), "hola");
    assert_eq!(valor_texto(&ValorImportado::Entero(-42)), "-42");
    assert_eq!(valor_texto(&ValorImportado::Entero(i64::MIN)), "-9223372036854775808");
    assert_eq!(valor_texto(&ValorImportado::Numero("12.5".to_string())), "12.5");
    assert_eq!(valor_texto(&ValorImportado::Logico(true)), "true");
    assert_eq!(valor_texto(&ValorImportado::Otro), "");
}

#[test]
fn column_found_by_exact_then_loose_name() {
    let row = fila(&[("Razon Social", t("ACME")), ("nombre", t("   ")), ("tel", ValorImportado::Entero(5551234))]);
    // The exact name has only blanks, so the loose match on "razon_social" wins.
    assert_eq!(json_value_text(&row, &["nombre", "cliente", "razonSocial", "razon_social"]), "ACME");
    assert_eq!(json_value_text(&row, &["telefono", "tel"]), "5551234");
    assert_eq!(json_value_text(&row, &["direccion"]), "");
    let exact_first = fila(&[("CLIENTE", t("Loose")), ("cliente", t("Exact"))]);
    assert_eq!(json_value_text(&exact_first, &["cliente"]), "Exact");
}

#[test]
fn universal_destination_is_normalised() {
    let (d, which) = destino_universal("  clientes ");
    assert_eq!(d, "CLIENTES");
    assert!(matches!(which, Some(DestinoUniversal::Clientes)));
    assert!(destino_universal("facturas").1.is_none());
}

#[test]
fn universal_customer_row() {
    let row = fila(&[
        ("nombre", t("juan   perez")),
        ("telefono", t(" 55  1234 ")),
        ("domicilio", t("calle 1")),
        ("limite_credito", t("$1,500.50")),
    ]);
    match importar_fila_universal(&DestinoUniversal::Clientes, &row, 2) {
        Some(RegistroImportado::Cliente(c)) => {
            assert_eq!(c.id, "IMPORT-CLI-JUAN_PEREZ_3");
            assert_eq!(c.nombre, "JUAN PEREZ");
            assert_eq!(c.telefono, "55 1234");
            assert_eq!(c.direccion, "CALLE 1");
            assert_eq!(c.limite_credito, "1500.50");
            assert_eq!(c.saldo_deudor, "");
        }
        _ => panic!("expected a customer"),
    }
    let with_id = fila(&[("nombre", t("Ana")), ("clienteId", t("c-07"))]);
    match importar_fila_universal(&DestinoUniversal::Clientes, &with_id, 0) {
        Some(RegistroImportado::Cliente(c)) => assert_eq!(c.id, "IMPORT-CLI-C_07"),
        _ => panic!("expected a customer"),
    }
    let nameless = fila(&[("telefono", t("1"))]);
    assert!(importar_fila_universal(&DestinoUniversal::Clientes, &nameless, 0).is_none());
}

#[test]
fn universal_supplier_unit_and_brand_rows() {
    let prov = fila(&[("proveedor", t("Tornillos SA")), ("correo", t(" Ventas@Tornillos.MX "))]);
    match importar_fila_universal(&DestinoUniversal::Proveedores, &prov, 0) {
        Some(RegistroImportado::Proveedor(p)) => {
            assert_eq!(p.id, "IMPORT-PROV-TORNILLOS_SA_1");
            assert_eq!(p.nombre, "TORNILLOS SA");
            assert_eq!(p.email, "ventas@tornillos.mx");
        }
        _ => panic!("expected a supplier"),
    }
    let unidad = fila(&[("unidad", t("kilo")), ("claveSat", t("kgm"))]);
    match importar_fila_universal(&DestinoUniversal::Unidades, &unidad, 0) {
        Some(RegistroImportado::Unidad(u)) => {
            assert_eq!(u.id, "IMPORT-UNI-KILO");
            assert_eq!(u.nombre, "KILO");
            assert_eq!(u.clave_sat, "KGM");
        }
        _ => panic!("expected a unit"),
    }
    let unidad_mala = fila(&[("nombre", t("caja")), ("clave_sat", t("XX"))]);
    match importar_fila_universal(&DestinoUniversal::Unidades, &unidad_mala, 0) {
        Some(RegistroImportado::Unidad(u)) => assert_eq!(u.clave_sat, "H87"),
        _ => panic!("expected a unit"),
    }
    let marca = fila(&[("marca", t("truper")), ("id", t("7"))]);
    match importar_fila_universal(&DestinoUniversal::Marcas, &marca, 4) {
        Some(RegistroImportado::Marca(m)) => {
            assert_eq!(m.id, "IMPORT-MARCA-7");
            assert_eq!(m.nombre, "TRUPER");
        }
        _ => panic!("expected a brand"),
    }
}

#[test]
fn universal_import_plan() {
    assert_eq!(planear_importacion_universal("clientes", &[]).err(), Some("No hay filas para importar.".to_string()));
    let rows = vec![fila(&[("nombre", t("A"))]), fila(&[("nombre", t(""))])];
    assert_eq!(
        planear_importacion_universal("ventas", &rows).err(),
        Some("Destino no soportado por el importador universal.".to_string())
    );
    let plan = planear_importacion_universal(" categorias", &rows).ok().unwrap();
    assert_eq!(plan.destino, "CATEGORIAS");
    assert_eq!(plan.total_leidos, 2);
    assert!(matches!(plan.filas[0], Some(RegistroImportado::Categoria(_))));
    assert!(plan.filas[1].is_none());
}

#[test]
fn mapped_import_needs_file_and_fields() {
    let all = vec!["codigo".to_string(), "descripcion".to_string(), "precioVenta".to_string(), "proveedorId".to_string()];
    assert_eq!(validar_importacion_mapeada("/tmp/a.csv", &all), Ok(()));
    assert_eq!(
        validar_importacion_mapeada("  ", &all),
        Err("Selecciona un archivo CSV válido para importar.".to_string())
    );
    assert_eq!(
        validar_importacion_mapeada("/tmp/a.csv", &all[..3]),
        Err("Falta mapear el campo obligatorio: proveedorId.".to_string())
    );
    assert_eq!(
        validar_importacion_mapeada("/tmp/a.csv", &all[1..]),
        Err("Falta mapear el campo obligatorio: codigo.".to_string())
    );
}

#[test]
fn mapped_rows_reviewed() {
    assert_eq!(csv_cell_text(Some("  tornillo   1/4 ")), "tornillo 1/4");
    assert_eq!(csv_cell_text(None), "");
    let ok = revisar_fila_mapeada(2, "ab-1", "tornillo  1/4", " PROV-1 ").ok().unwrap();
    assert_eq!(ok.codigo, "AB-1");
    assert_eq!(ok.descripcion, "TORNILLO 1/4");
    assert_eq!(ok.proveedor_id, "PROV-1");
    assert_eq!(ok.producto_id, "CSV-PROD-AB_1");
    let sin_codigo = revisar_fila_mapeada(3, " ", "algo", "P").err().unwrap();
    assert_eq!(sin_codigo.fila, 3);
    assert_eq!(sin_codigo.motivo, "Falta código o descripción.");
    let nulo = revisar_fila_mapeada(4, "x", "y", "NuLl").err().unwrap();
    assert_eq!(nulo.motivo, "Proveedor vacío o sin homologar.");
    assert_eq!(nulo.codigo, "X");
    assert_eq!(codigo_barras_opcional(" 750abc "), Some("750ABC".to_string()));
    assert_eq!(codigo_barras_opcional("   "), None);
    assert_eq!(clave_sat_o_h87("KGM".to_string()), "KGM");
    assert_eq!(clave_sat_o_h87("".to_string()), "H87");
}

#[test]
fn skipped_rows_keep_first_fifty_issues() {
    let mut log = BitacoraImportacion::nueva();
    for fila in 0..60usize {
        log.omitir(incidencia_csv(fila + 2, &MotivoOmision::PrecioInvalido, String::new(), String::new()));
    }
    assert_eq!(log.filas_omitidas, 60);
    assert_eq!(log.errores.len(), 50);
    assert_eq!(log.errores[0].fila, 2);
    assert_eq!(log.errores[49].fila, 51);
    let issue: CsvImportIssue = incidencia_csv(
        9,
        &MotivoOmision::ProveedorInexistente("PROV-X".to_string()),
        "C".to_string(),
        "D".to_string(),
    );
    assert_eq!(issue.motivo, "El proveedor homologado no existe o está eliminado: PROV-X.");
    assert_eq!(
        incidencia_csv(2, &MotivoOmision::FilaIlegible, String::new(), String::new()).motivo,
        "No se pudo leer la fila CSV."
    );
}

#[test]
fn distinct_relation_values() {
    let mut distintos: Vec<String> = Vec::new();
    for v in ["TRUPER", "", "URREA", "TRUPER", "urrea"] {
        registrar_valor_unico(&mut distintos, v.to_string());
    }
    assert_eq!(distintos, vec!["TRUPER".to_string(), "URREA".to_string(), "urrea".to_string()]);
    assert_eq!(valores_mostrados(&distintos).len(), 3);
    let many: Vec<String> = (0..620).map(|i| format!("M{i}")).collect();
    let shown = valores_mostrados(&many);
    assert_eq!(shown.len(), 500);
    assert_eq!(shown[499], "M499");
    assert_eq!(aviso_valores_unicos("marca", 500), None);
    assert_eq!(
        aviso_valores_unicos("marca", 620),
        Some("marca: se detectaron 620 valores únicos; se muestran 500. Divide el archivo o depura catálogos para una homologación más segura.".to_string())
    );
    assert_eq!(aviso_fila_ilegible(3, "campo roto"), "Fila 5 no se pudo leer: campo roto");
}

fn articulo() -> ArticuloLegacy {
    ArticuloLegacy {
        id: None,
        clave: None,
        descripcion_articulo: Some("  martillo  de uña ".to_string()),
        unidad: None,
        codigo_barra: Some(" 7501 ".to_string()),
        caducidad: Some("   ".to_string()),
        provedor: None,
        proveedor_nombre: None,
        categoria: Some("herramienta".to_string()),
        marca: Some(12),
        marca_nombre: None,
        fotos: Some(" a.jpg ".to_string()),
        descripcion_catalogo: None,
        a_granel: Some("sí".to_string()),
        no_en_catalogo: Some("x".to_string()),
        ventas_negativas: None,
    }
}

#[test]
fn legacy_article_identifiers() {
    assert_eq!(proveedor_por_defecto("  "), "PROV-SIN-ASIGNAR");
    assert_eq!(proveedor_por_defecto(" P1 "), "P1");
    assert_eq!(legacy_producto_id(Some(-5), None, 0), "LEGACY-ART--5");
    let clave = " ab 12 ".to_string();
    assert_eq!(legacy_producto_id(None, Some(&clave), 0), "LEGACY-ART-AB_12");
    let blank = "  ".to_string();
    assert_eq!(legacy_producto_id(None, Some(&blank), 6), "LEGACY-ART-AUTO-7");
    assert_eq!(legacy_producto_id(None, None, 0), "LEGACY-ART-AUTO-1");
    assert_eq!(legacy_codigo_proveedor(Some(&clave), 0), "AB 12");
    assert_eq!(legacy_codigo_proveedor(None, 9), "LEGACY-COD-10");
    let nombre = "ferretera  del centro".to_string();
    match plan_proveedor_legacy(Some(3), Some(&nombre)) {
        ProveedorLegacy::Nombrado { id, nombre } => {
            assert_eq!(id, "LEGACY-PROV-3");
            assert_eq!(nombre, "FERRETERA DEL CENTRO");
        }
        _ => panic!("expected a named supplier"),
    }
    match plan_proveedor_legacy(None, Some(&nombre)) {
        ProveedorLegacy::Nombrado { id, .. } => assert_eq!(id, "LEGACY-PROV-FERRETERA_DEL_CENTRO"),
        _ => panic!("expected a named supplier"),
    }
    assert!(matches!(plan_proveedor_legacy(Some(8), None), ProveedorLegacy::PorNumero(8)));
    assert!(matches!(plan_proveedor_legacy(None, Some(&blank)), ProveedorLegacy::PorDefecto));
    assert_eq!(proveedor_legacy_nuevo(8), ("LEGACY-PROV-8".to_string(), "PROVEEDOR LEGACY #8".to_string()));
    assert_eq!(
        legacy_candidate_ids(&["IMPORT-PROV", "LEGACY-PROV"], 4),
        vec!["IMPORT-PROV-4".to_string(), "LEGACY-PROV-4".to_string()]
    );
    assert!(matches!(plan_marca_legacy(Some(2), None), MarcaLegacy::PorNumero(2)));
    assert!(matches!(plan_marca_legacy(None, None), MarcaLegacy::SinMarca));
    assert_eq!(marca_sin_marca(), ("LEGACY-MARCA-SIN_MARCA".to_string(), "SIN MARCA".to_string()));
    assert_eq!(categoria_legacy(None), ("LEGACY-CAT-GENERAL".to_string(), "GENERAL".to_string()));
    let kg = "kilo gramo".to_string();
    assert_eq!(unidad_legacy(Some(&kg)), ("LEGACY-UNI-KILO_GRAMO".to_string(), "KILO GRAMO".to_string()));
}

#[test]
fn legacy_article_plan() {
    let plan = planear_articulo_legacy(&articulo(), 0).unwrap();
    assert_eq!(plan.producto_id, "LEGACY-ART-AUTO-1");
    assert_eq!(plan.descripcion, "MARTILLO DE UÑA");
    assert_eq!(plan.codigo_proveedor, "LEGACY-COD-1");
    assert!(matches!(plan.proveedor, ProveedorLegacy::PorDefecto));
    assert!(matches!(plan.marca, MarcaLegacy::PorNumero(12)));
    assert_eq!(plan.categoria_id, "LEGACY-CAT-HERRAMIENTA");
    assert_eq!(plan.unidad, "PIEZA");
    assert_eq!(plan.codigo_barras, Some("7501".to_string()));
    assert_eq!(plan.caducidad, None);
    assert_eq!(plan.fotos, Some("a.jpg".to_string()));
    assert_eq!(plan.a_granel, 1);
    assert_eq!(plan.no_en_catalogo, 1);
    assert_eq!(plan.ventas_negativas, 0);
    let mut sin_descripcion = articulo();
    sin_descripcion.descripcion_articulo = Some("   ".to_string());
    assert!(planear_articulo_legacy(&sin_descripcion, 0).is_none());
}
