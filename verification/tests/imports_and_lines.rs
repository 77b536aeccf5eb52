use ferre_pos::csvimport::{csv_money_value_text, delimiter_label, registros_csv, json_value_number_text, resolve_csv_delimiter, sniff_csv_delimiter};
use ferre_pos::detalles::agrupar_detalles_por_producto;
use ferre_pos::fiscal::{cfdi_forma_pago, cfdi_metodo_pago};

#[test]
fn delimiters() {
    assert_eq!(sniff_csv_delimiter("\n  \nclave;descripcion;precio\n1;a;2"), b';');
    assert_eq!(sniff_csv_delimiter("a\tb\tc"), b'\t');
    assert_eq!(sniff_csv_delimiter("a,b;c,d"), b',');
    assert_eq!(sniff_csv_delimiter("a;b,c"), b';');
    assert_eq!(sniff_csv_delimiter(""), b',');
    assert_eq!(resolve_csv_delimiter("a,b,c", " punto_coma "), b';');
    assert_eq!(resolve_csv_delimiter("a;b;c", "COMMA"), b',');
    assert_eq!(resolve_csv_delimiter("a;b;c", "tabulador"), b'\t');
    assert_eq!(resolve_csv_delimiter("a;b;c", ""), b';');
    assert_eq!(delimiter_label(b';'), "PUNTO_COMA");
    assert_eq!(delimiter_label(b'\t'), "TAB");
    assert_eq!(delimiter_label(b','), "COMA");
    assert_eq!(delimiter_label(b'|'), "COMA");
}

#[test]
fn typed_numbers() {
    assert_eq!(json_value_number_text("$ 1,234.50"), "1234.50");
    assert_eq!(json_value_number_text("1.234,50"), "1234.50");
    assert_eq!(json_value_number_text("12,5"), "12.5");
    assert_eq!(json_value_number_text("99"), "99");
    assert_eq!(csv_money_value_text("$1,250.00"), "1250.00");
    assert_eq!(csv_money_value_text("1.250,75 $"), "1250.75");
    assert_eq!(csv_money_value_text(" 7 "), "7");
}

#[test]
fn repeated_products_share_a_line() {
    let ids = vec![String::from("P1"), String::from(" P2 "), String::from("P1 "), String::from("P3"), String::from("P2")];
    let g = agrupar_detalles_por_producto(&ids);
    assert_eq!(g.productos, vec![String::from("P1"), String::from("P2"), String::from("P3")]);
    assert_eq!(g.grupo_de_linea, vec![0, 1, 0, 2, 1]);
    let empty = agrupar_detalles_por_producto(&[]);
    assert!(empty.productos.is_empty() && empty.grupo_de_linea.is_empty());
}

#[test]
fn cfdi_payment_codes() {
    assert_eq!(cfdi_forma_pago("EFECTIVO"), "01");
    assert_eq!(cfdi_forma_pago("TARJETA"), "04");
    assert_eq!(cfdi_forma_pago("TRANSFERENCIA"), "03");
    assert_eq!(cfdi_forma_pago("CREDITO"), "99");
    assert_eq!(cfdi_forma_pago("OTRO"), "99");
    assert_eq!(cfdi_metodo_pago("CREDITO"), "PPD");
    assert_eq!(cfdi_metodo_pago("EFECTIVO"), "PUE");
}

#[test]
fn delimiter_labels_resolve_back() {
    for d in [b',', b';', b'\t'] {
        assert_eq!(resolve_csv_delimiter("x;y;z", &delimiter_label(d)), d);
        assert_eq!(resolve_csv_delimiter("", &delimiter_label(d)), d);
    }
    assert_eq!(delimiter_label(b'|'), "COMA");
}

#[test]
fn csv_records_are_read_after_the_header() {
    let registros = registros_csv(b"codigo;descripcion\nA1; Tornillo \nB2\n", b';');
    assert_eq!(
        registros,
        vec![Ok(vec!["A1".to_string(), " Tornillo ".to_string()]), Ok(vec!["B2".to_string()])]
    );
    let invalido = registros_csv(b"a,b\n\xff\xfe,c\n", b',');
    assert_eq!(invalido.len(), 1);
    assert!(invalido[0].is_err());
}
