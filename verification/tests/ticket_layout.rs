use ferre_pos::ticket::{
    build_ticket_escpos, cp850_byte, encode_cp850, escape_powershell_single, escpos_text_line, fit_text,
    optional_ticket_text, ticket_two_columns, TicketLineaTexto, TicketTexto,
};

#[test]
fn code_page_850() {
    assert_eq!(cp850_byte('ñ'), 0xA4);
    assert_eq!(cp850_byte('Á'), 0xB5);
    assert_eq!(cp850_byte('A'), b'A');
    assert_eq!(cp850_byte('€'), b' ');
    assert_eq!(encode_cp850("Año $5"), vec![b'A', 0xA4, b'o', b' ', b'$', b'5']);
    let mut buf = vec![1u8];
    escpos_text_line(&mut buf, "é");
    assert_eq!(buf, vec![1, 0x82, b'\n']);
}

#[test]
fn fitting_and_columns() {
    assert_eq!(fit_text("  hola\nmundo  ", 20), "hola mundo");
    assert_eq!(fit_text("abcdefghij", 8), "abcde...");
    assert_eq!(fit_text("abcdefghij", 2), "...");
    assert_eq!(fit_text("abc", 3), "abc");
    assert_eq!(ticket_two_columns("Fecha", "2024-01-01", 20), "Fecha     2024-01-01");
    assert_eq!(ticket_two_columns("Descripcion larga", "$10.00", 16), "Descri... $10.00");
    assert_eq!(ticket_two_columns("Descripcion larga", "$10.00", 16).chars().count(), 16);
    assert_eq!(ticket_two_columns("Pago", "EFECTIVO", 32).chars().count(), 32);
    assert_eq!(optional_ticket_text(&Some(String::from("  Ferre  ")), "X"), "Ferre");
    assert_eq!(optional_ticket_text(&Some(String::from("   ")), "X"), "X");
    assert_eq!(optional_ticket_text(&None, "N/D"), "N/D");
    assert_eq!(escape_powershell_single("it's"), "it''s");
}

fn ticket(metodo: &str, productos: Vec<TicketLineaTexto>) -> TicketTexto {
    TicketTexto {
        folio: "V-1".into(),
        fecha: "2024-05-01".into(),
        cajero: "Ana".into(),
        sucursal: "Centro".into(),
        logo_bytes: None,
        empresa_nombre: None,
        rfc: Some("XAXX010101000".into()),
        regimen_fiscal: None,
        codigo_postal: None,
        metodo_pago: metodo.into(),
        estado: None,
        productos,
        subtotal: "$86.21".into(),
        descuento: None,
        iva: "$13.79".into(),
        total: "$100.00".into(),
        recibido: Some("$200.00".into()),
        cambio: Some("$100.00".into()),
        mensaje: Some("  Gracias  ".into()),
    }
}

fn linea() -> TicketLineaTexto {
    TicketLineaTexto { descripcion: "Martillo".into(), marca: Some("Truper".into()), cantidad_precio: "1.000 x $100.00".into(), importe: "$100.00".into() }
}

#[test]
fn ticket_errors() {
    assert_eq!(
        build_ticket_escpos(&ticket("EFECTIVO", vec![linea()]), 40, false),
        Err(String::from("El ancho de papel debe ser 32, 42 o 48 caracteres."))
    );
    assert_eq!(build_ticket_escpos(&ticket("EFECTIVO", vec![]), 42, false), Err(String::from("El ticket no contiene productos.")));
}

#[test]
fn ticket_layout() {
    let bytes = build_ticket_escpos(&ticket(" efectivo ", vec![linea()]), 32, true).unwrap();
    // Drawer pulse and printer setup first.
    assert_eq!(&bytes[..16], &[0x1B, 0x70, 0x00, 0x19, 0xFA, 0x1B, 0x40, 0x1B, 0x74, 0x02, 0x1B, 0x47, 0x01, 0x1B, 0x21, 0x00]);
    // Partial cut last.
    assert_eq!(&bytes[bytes.len() - 7..], &[b'\n', b'\n', b'\n', 0x1D, 0x56, 0x42, 0x00]);
    let text: String = bytes.iter().filter(|b| b.is_ascii_graphic() || **b == b' ' || **b == b'\n').map(|b| *b as char).collect();
    assert!(text.contains("FERRE-POS\n"));
    assert!(text.contains("RFC: XAXX010101000\n"));
    assert!(text.contains("Regimen Fiscal: N/D\n"));
    assert!(text.contains("FOLIO: V-1\n"));
    assert!(text.contains(&format!("Pago{}EFECTIVO\n", " ".repeat(32 - 12))));
    assert!(text.contains(&format!("{}\n", "-".repeat(32))));
    assert!(text.contains("Martillo\nTruper\n"));
    assert!(text.contains("Gracias\n"));
    assert!(!text.contains("AVISO DE CREDITO"));
    let credit = build_ticket_escpos(&ticket("CREDITO", vec![linea()]), 42, false).unwrap();
    let credit_text: String = credit.iter().map(|b| *b as char).collect();
    assert!(credit_text.contains("AVISO DE CREDITO: Este comprobante\n"));
    assert!(credit_text.contains("       Firma de Conformidad\n"));
    assert_eq!(&credit[..2], &[0x1B, 0x40]);
}
