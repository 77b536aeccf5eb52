use ferre_pos::normalize::{
    build_full_name, import_catalog_name, legacy_catalog_id, legacy_truthy, normalize_email,
    normalize_email_trim, normalize_filter, normalize_import_key, normalize_page_args,
    normalize_plain_trim, normalize_spaces, normalize_title_trim, normalize_upper_trim,
    optional_normalized_name,
};
use ferre_pos::text::{concat2, contains_str, ends_with, eq_ignore_ascii_case, is_blank_str, starts_with, trim_str, u64_to_decimal};

#[test]
fn trims_unicode_whitespace_at_both_ends() {
    assert_eq!(trim_str("  \t hola mundo \n"), "hola mundo");
    assert_eq!(trim_str("\u{a0}\u{3000}x\u{2009}"), "x");
    assert_eq!(trim_str("   "), "");
    assert!(is_blank_str(" \r\n\t"));
    assert!(!is_blank_str(" a "));
}

#[test]
fn string_helpers_behave_like_std() {
    assert!(starts_with("https://x", "https://"));
    assert!(!starts_with("http", "https://"));
    assert!(ends_with("venta_uuid", "_uuid"));
    assert!(!ends_with("uuid", "_uuid"));
    assert!(contains_str("UNIQUE constraint failed", "UNIQUE"));
    assert!(!contains_str("CHECK constraint failed", "UNIQUE"));
    assert!(eq_ignore_ascii_case("SuperAdmin", "SUPERADMIN"));
    assert_eq!(concat2("ab", "cd"), "abcd");
    assert_eq!(u64_to_decimal(0), "0");
    assert_eq!(u64_to_decimal(50), "50");
    assert_eq!(u64_to_decimal(18446744073709551615), "18446744073709551615");
}

#[test]
fn single_spacing_collapses_runs() {
    assert_eq!(normalize_spaces("  martillo   de\tuña \n 16 oz  "), "martillo de uña 16 oz");
    assert_eq!(normalize_spaces(""), "");
    assert_eq!(normalize_spaces(" \t "), "");
    assert_eq!(normalize_plain_trim("a  b"), "a b");
}

#[test]
fn case_normalisations() {
    assert_eq!(normalize_email("  Ana.Perez@Correo.MX "), "ana.perez@correo.mx");
    assert_eq!(normalize_email_trim(" X@Y.COM"), "x@y.com");
    assert_eq!(normalize_upper_trim(" h87 "), "H87");
    assert_eq!(normalize_title_trim("  pinzas   de  presión "), "PINZAS DE PRESIÓN");
}

#[test]
fn full_name_skips_empty_parts() {
    assert_eq!(build_full_name(" Ana ", " Pérez ", " López "), "Ana Pérez López");
    assert_eq!(build_full_name("Ana", "  ", "López"), "Ana López");
    assert_eq!(build_full_name("", "", ""), "");
    assert_eq!(build_full_name("", "Pérez", ""), "Pérez");
}

#[test]
fn legacy_ids_are_upper_case_with_single_underscores() {
    assert_eq!(legacy_catalog_id("MAR", "  truper / pretul  "), "MAR-TRUPER_PRETUL");
    assert_eq!(legacy_catalog_id("CAT", "__a--b__"), "CAT-A_B");
    assert_eq!(legacy_catalog_id("UNI", "ñ!?"), "UNI-GEN");
    assert_eq!(legacy_catalog_id("UNI", ""), "UNI-GEN");
    assert_eq!(legacy_catalog_id("PRV", "abc123"), "PRV-ABC123");
}

#[test]
fn optional_names_and_filters() {
    let some = String::from("  tornillos  hex ");
    assert_eq!(optional_normalized_name(Some(&some)), Some(String::from("TORNILLOS HEX")));
    let blank = String::from("   ");
    assert_eq!(optional_normalized_name(Some(&blank)), None);
    assert_eq!(optional_normalized_name(None), None);
    assert_eq!(normalize_filter(&Some(String::from(" S1 "))), Some(String::from("S1")));
    assert_eq!(normalize_filter(&Some(String::from("  "))), None);
    assert_eq!(normalize_filter(&None), None);
}

#[test]
fn legacy_flags() {
    for yes in ["1", "si", " Sí ", "S", "true", "Verdadero", "yes", "y", "x"] {
        let v = String::from(yes);
        assert_eq!(legacy_truthy(Some(&v)), 1, "{yes}");
    }
    for no in ["0", "no", "", "falso", "N"] {
        let v = String::from(no);
        assert_eq!(legacy_truthy(Some(&v)), 0, "{no}");
    }
    assert_eq!(legacy_truthy(None), 0);
}

#[test]
fn import_keys_keep_ascii_letters_and_digits() {
    assert_eq!(normalize_import_key("Código de Barras #1"), "cdigodebarras1");
    assert_eq!(normalize_import_key("PRECIO_VENTA"), "precioventa");
    assert_eq!(normalize_import_key("¿?"), "");
}

#[test]
fn import_catalog_names_fall_back_per_table() {
    assert_eq!(import_catalog_name("marcas", "   "), "SIN MARCA");
    assert_eq!(import_catalog_name("unidades", ""), "PIEZA");
    assert_eq!(import_catalog_name("categorias", ""), "GENERAL");
    assert_eq!(import_catalog_name("otra", ""), "GENERAL");
    assert_eq!(import_catalog_name("marcas", " truper  "), "TRUPER");
}

#[test]
fn page_arguments_are_clamped() {
    assert_eq!(normalize_page_args(-3, 5), (0, 10));
    assert_eq!(normalize_page_args(2, 500), (2, 100));
    assert_eq!(normalize_page_args(1, 25), (1, 25));
    assert_eq!(normalize_page_args(0, 10), (0, 10));
    assert_eq!(normalize_page_args(0, 100), (0, 100));
}

#[test]
fn single_spacing_twice_is_single_spacing_once() {
    for texto in ["  Tornillo \t de  acero\n", "", "   ", "MARTILLO", " a  b   c "] {
        let una = normalize_plain_trim(texto);
        assert_eq!(normalize_plain_trim(&una), una);
    }
}

#[test]
fn legacy_catalog_ids_are_well_formed() {
    assert_eq!(legacy_catalog_id("LEGACY-CAT", " Tornillos  y/Tuercas "), "LEGACY-CAT-TORNILLOS_Y_TUERCAS");
    assert_eq!(legacy_catalog_id("LEGACY-CAT", " ¿¡! "), "LEGACY-CAT-GEN");
    assert_eq!(legacy_catalog_id("LEGACY-MAR", "__--//"), "LEGACY-MAR-GEN");
    for raw in ["Pinturas _ Comex", "-a--b//c-", "Ñandú 2"] {
        let id = legacy_catalog_id("P", raw);
        let body = id.strip_prefix("P-").unwrap();
        assert!(!body.is_empty() && !body.contains("__") && !body.starts_with('_') && !body.ends_with('_'));
        assert!(body.chars().all(|c| c.is_ascii_uppercase() || c.is_ascii_digit() || c == '_'));
        assert_eq!(legacy_catalog_id("P", &raw.to_ascii_lowercase()), id);
    }
}

#[test]
fn ascii_titles_normalise_once() {
    let una = normalize_title_trim("  martillo   de\tbola ");
    assert_eq!(una, "MARTILLO DE BOLA");
    assert_eq!(normalize_title_trim(&una), una);
}
