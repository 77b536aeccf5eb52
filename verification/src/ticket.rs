//! Layout of sale tickets for ESC/POS thermal printers, and what is checked
//! and said around sending a job to a printer.
use vstd::prelude::*;
use crate::text::{
    chars_of, is_blank, is_blank_str, opt_seq, push_str, string_of, to_owned_string, trim, trim_str,
    unicode_upper,
};

verus! {

// ---------------------------------------------------------------------------
// Code page 850
// ---------------------------------------------------------------------------

/// The byte for a character in code page 850: the accented Spanish letters
/// and a few signs have their own codes, other ASCII stays as is, and
/// anything else prints as a space.
pub open spec fn cp850(ch: char) -> u8 {
    if ch == 'á' { 0xA0 }
    else if ch == 'é' { 0x82 }
    else if ch == 'í' { 0xA1 }
    else if ch == 'ó' { 0xA2 }
    else if ch == 'ú' { 0xA3 }
    else if ch == 'Á' { 0xB5 }
    else if ch == 'É' { 0x90 }
    else if ch == 'Í' { 0xD6 }
    else if ch == 'Ó' { 0xE0 }
    else if ch == 'Ú' { 0xE9 }
    else if ch == 'ñ' { 0xA4 }
    else if ch == 'Ñ' { 0xA5 }
    else if ch == 'ü' { 0x81 }
    else if ch == 'Ü' { 0x9A }
    else if ch == '¿' { 0xA8 }
    else if ch == '¡' { 0xAD }
    else if ch == '°' { 0xF8 }
    else if ch == 'ç' { 0x87 }
    else if ch == 'Ç' { 0x80 }
    else if (ch as u32) < 0x80 { (ch as u32) as u8 }
    else { 0x20 }
}

pub fn cp850_byte(ch: char) -> (r: u8)
    ensures
        r == cp850(ch),
{
    if ch == 'á' { 0xA0 }
    else if ch == 'é' { 0x82 }
    else if ch == 'í' { 0xA1 }
    else if ch == 'ó' { 0xA2 }
    else if ch == 'ú' { 0xA3 }
    else if ch == 'Á' { 0xB5 }
    else if ch == 'É' { 0x90 }
    else if ch == 'Í' { 0xD6 }
    else if ch == 'Ó' { 0xE0 }
    else if ch == 'Ú' { 0xE9 }
    else if ch == 'ñ' { 0xA4 }
    else if ch == 'Ñ' { 0xA5 }
    else if ch == 'ü' { 0x81 }
    else if ch == 'Ü' { 0x9A }
    else if ch == '¿' { 0xA8 }
    else if ch == '¡' { 0xAD }
    else if ch == '°' { 0xF8 }
    else if ch == 'ç' { 0x87 }
    else if ch == 'Ç' { 0x80 }
    else {
        let code: u32 = ch as u32;
        if code < 0x80 {
            code as u8
        } else {
            0x20
        }
    }
}

/// The text in code page 850, one byte per character.
pub open spec fn cp850_text(s: Seq<char>) -> Seq<u8> {
    s.map_values(|c: char| cp850(c))
}

pub fn encode_cp850(text: &str) -> (r: Vec<u8>)
    ensures
        r@ == cp850_text(text@),
{
    let v = chars_of(text);
    let mut out: Vec<u8> = Vec::new();
    let mut i: usize = 0;
    while i < v.len()
        invariant
            i <= v.len(),
            v@ == text@,
            out@ == cp850_text(text@.take(i as int)),
        decreases v.len() - i,
    {
        let b = cp850_byte(v[i]);
        out.push(b);
        i = i + 1;
        assert(cp850_text(text@.take(i as int)) =~= cp850_text(text@.take(i - 1)).push(b));
    }
    assert(text@.take(v.len() as int) =~= text@);
    out
}

/// Appends all of `bytes` to the buffer.
pub fn extend_bytes(buffer: &mut Vec<u8>, bytes: &[u8])
    ensures
        final(buffer)@ == old(buffer)@ + bytes@,
{
    let mut i: usize = 0;
    while i < bytes.len()
        invariant
            i <= bytes@.len(),
            buffer@ == old(buffer)@ + bytes@.take(i as int),
        decreases bytes@.len() - i,
    {
        buffer.push(bytes[i]);
        i = i + 1;
        assert(bytes@.take(i as int) =~= bytes@.take(i - 1).push(bytes@[i - 1]));
    }
    assert(bytes@.take(bytes@.len() as int) =~= bytes@);
}

/// One printed line: the text in code page 850 and a line feed.
pub open spec fn text_line(text: Seq<char>) -> Seq<u8> {
    cp850_text(text).push(0x0A)
}

pub fn escpos_text_line(buffer: &mut Vec<u8>, text: &str)
    ensures
        final(buffer)@ == old(buffer)@ + text_line(text@),
{
    let encoded = encode_cp850(text);
    extend_bytes(buffer, encoded.as_slice());
    buffer.push(0x0A);
    assert(old(buffer)@ + encoded@ + seq![0x0Au8] =~= old(buffer)@ + text_line(text@));
}

// ---------------------------------------------------------------------------
// Fitting text into columns
// ---------------------------------------------------------------------------

/// The text with line feeds turned into spaces.
pub open spec fn one_line(s: Seq<char>) -> Seq<char> {
    s.map_values(|c: char| if c == '\n' { ' ' } else { c })
}

/// `width - n`, or 0 when `n` is larger.
pub open spec fn sat_sub(width: int, n: int) -> int {
    if width > n { width - n } else { 0 }
}

/// The trimmed text on one line, cut to `width` characters with `...`
/// at the end when it is longer.
pub open spec fn fitted(value: Seq<char>, width: int) -> Seq<char> {
    let t = one_line(trim(value));
    if t.len() > width {
        t.take(sat_sub(width, 3)) + "..."@
    } else {
        t
    }
}

pub fn fit_text(value: &str, width: usize) -> (r: String)
    ensures
        r@ == fitted(value@, width as int),
{
    let t = trim_str(value);
    let v = chars_of(t.as_str());
    let mut line: Vec<char> = Vec::new();
    let mut i: usize = 0;
    while i < v.len()
        invariant
            i <= v.len(),
            v@ == trim(value@),
            line@ == one_line(v@.take(i as int)),
        decreases v.len() - i,
    {
        let c = if v[i] == '\n' { ' ' } else { v[i] };
        line.push(c);
        i = i + 1;
        assert(one_line(v@.take(i as int)) =~= one_line(v@.take(i - 1)).push(c));
    }
    assert(v@.take(v.len() as int) =~= v@);
    if line.len() > width {
        let keep = if width > 3 { width - 3 } else { 0 };
        let mut out = crate::text::string_of_range(&line, 0, keep);
        push_str(&mut out, "...");
        assert(line@.subrange(0, keep as int) =~= line@.take(keep as int));
        out
    } else {
        string_of(&line)
    }
}

/// A ticket line with `left` at the start and `right` flush at the end.
pub open spec fn two_columns(left: Seq<char>, right: Seq<char>, width: int) -> Seq<char> {
    let l = fitted(left, sat_sub(width, right.len() + 1int));
    let spaces = sat_sub(width, l.len() + right.len() + 0int);
    l + Seq::new(spaces as nat, |i: int| ' ') + right
}

pub fn ticket_two_columns(left: &str, right: &str, width: usize) -> (r: String)
    ensures
        r@ == two_columns(left@, right@, width as int),
{
    let rv = chars_of(right);
    let right_len = rv.len();
    let max_left: usize = if width > right_len && width - right_len > 1 {
        width - right_len - 1
    } else {
        0
    };
    let l = fit_text(left, max_left);
    let lv = chars_of(l.as_str());
    let left_len = lv.len();
    let spaces: usize = if width > left_len && width - left_len > right_len {
        width - left_len - right_len
    } else {
        0
    };
    let mut out = l;
    let mut k: usize = 0;
    while k < spaces
        invariant
            k <= spaces,
            out@ == lv@ + Seq::new(k as nat, |i: int| ' '),
        decreases spaces - k,
    {
        out.push(' ');
        k = k + 1;
        assert(out@ =~= lv@ + Seq::new(k as nat, |i: int| ' '));
    }
    push_str(&mut out, right);
    out
}

/// The trimmed value when it has text, the fallback otherwise.
pub open spec fn ticket_text(value: Option<Seq<char>>, fallback: Seq<char>) -> Seq<char> {
    match value {
        Some(v) => if trim(v).len() > 0 { trim(v) } else { fallback },
        None => fallback,
    }
}

pub fn optional_ticket_text(value: &Option<String>, fallback: &str) -> (r: String)
    ensures
        r@ == ticket_text(opt_seq(*value), fallback@),
{
    match value {
        Some(item) => {
            let t = trim_str(item.as_str());
            if !t.as_str().is_empty() {
                t
            } else {
                to_owned_string(fallback)
            }
        },
        None => to_owned_string(fallback),
    }
}

// ---------------------------------------------------------------------------
// Print jobs
// ---------------------------------------------------------------------------

/// A text print job needs a printer and something to print; the printer's
/// name comes back trimmed.
pub fn check_impresion_texto(printer_name: &str, contenido: &str) -> (r: Result<String, String>)
    ensures
        trim(printer_name@).len() == 0 ==> (r matches Err(m) && m@ == "Debes indicar el nombre de la impresora."@),
        trim(printer_name@).len() > 0 && is_blank(contenido@) ==> (r matches Err(m) && m@
            == "No hay contenido para imprimir."@),
        trim(printer_name@).len() > 0 && !is_blank(contenido@) ==> (r matches Ok(p) && p@ == trim(
            printer_name@,
        )),
{
    let printer = trim_str(printer_name);
    if printer.as_str().is_empty() {
        return Err(to_owned_string("Debes indicar el nombre de la impresora."));
    }
    if is_blank_str(contenido) {
        return Err(to_owned_string("No hay contenido para imprimir."));
    }
    Ok(printer)
}

/// A raw ticket needs a printer name or path, which comes back trimmed.
pub fn check_impresora_raw(printer_name: &str) -> (r: Result<String, String>)
    ensures
        trim(printer_name@).len() == 0 ==> (r matches Err(m) && m@
            == "Debes indicar el nombre o ruta de la impresora."@),
        trim(printer_name@).len() > 0 ==> (r matches Ok(p) && p@ == trim(printer_name@)),
{
    let printer = trim_str(printer_name);
    if printer.as_str().is_empty() {
        return Err(to_owned_string("Debes indicar el nombre o ruta de la impresora."));
    }
    Ok(printer)
}

/// The PowerShell command that prints a text file on a named printer, both
/// quoted as single-quoted strings.
pub fn comando_impresion_windows(path: &str, printer_name: &str) -> (r: String)
    ensures
        r@ == "Get-Content -Raw -LiteralPath '"@ + powershell_single(path@) + "' | Out-Printer -Name '"@
            + powershell_single(printer_name@) + "'"@,
{
    let mut c = to_owned_string("Get-Content -Raw -LiteralPath '");
    let p = escape_powershell_single(path);
    push_str(&mut c, p.as_str());
    push_str(&mut c, "' | Out-Printer -Name '");
    let n = escape_powershell_single(printer_name);
    push_str(&mut c, n.as_str());
    push_str(&mut c, "'");
    c
}

/// What the spooler printed, trimmed, with what it complained about after a
/// space when it complained.
pub open spec fn salida_spooler(stdout: Seq<char>, stderr: Seq<char>) -> Seq<char> {
    trim(stdout) + (if trim(stderr).len() == 0 {
        Seq::empty()
    } else {
        " "@ + trim(stderr)
    })
}

fn salida_spooler_exec(stdout: &str, stderr: &str) -> (r: String)
    ensures
        r@ == salida_spooler(stdout@, stderr@),
{
    let mut out = trim_str(stdout);
    let err = trim_str(stderr);
    if !err.as_str().is_empty() {
        push_str(&mut out, " ");
        push_str(&mut out, err.as_str());
    }
    out
}

/// The message when the spooler refuses a text job.
pub fn mensaje_impresora_no_disponible(printer_name: &str, stdout: &str, stderr: &str) -> (r: String)
    ensures
        r@ == "La impresora "@ + printer_name@ + " no está conectada o no se encuentra disponible. "@
            + salida_spooler(stdout@, stderr@),
{
    let mut m = to_owned_string("La impresora ");
    push_str(&mut m, printer_name);
    push_str(&mut m, " no está conectada o no se encuentra disponible. ");
    let tail = salida_spooler_exec(stdout, stderr);
    push_str(&mut m, tail.as_str());
    m
}

/// The message when the spooler refuses a raw ticket.
pub fn mensaje_ticket_rechazado(stdout: &str, stderr: &str) -> (r: String)
    ensures
        r@ == "La impresora rechazó el ticket. "@ + salida_spooler(stdout@, stderr@),
{
    let mut m = to_owned_string("La impresora rechazó el ticket. ");
    let tail = salida_spooler_exec(stdout, stderr);
    push_str(&mut m, tail.as_str());
    m
}

/// The text with every `'` doubled, as PowerShell single-quoted strings need.
pub open spec fn powershell_single(s: Seq<char>) -> Seq<char>
    decreases s.len(),
{
    if s.len() == 0 {
        Seq::empty()
    } else if s.last() == '\'' {
        powershell_single(s.drop_last()) + seq!['\'', '\'']
    } else {
        powershell_single(s.drop_last()).push(s.last())
    }
}

pub fn escape_powershell_single(value: &str) -> (r: String)
    ensures
        r@ == powershell_single(value@),
{
    let v = chars_of(value);
    let mut out = String::new();
    let mut i: usize = 0;
    while i < v.len()
        invariant
            i <= v.len(),
            v@ == value@,
            out@ == powershell_single(value@.take(i as int)),
        decreases v.len() - i,
    {
        let c = v[i];
        assert(value@.take(i + 1).drop_last() =~= value@.take(i as int));
        if c == '\'' {
            out.push('\'');
            out.push('\'');
            assert(out@ =~= powershell_single(value@.take(i as int)) + seq!['\'', '\'']);
        } else {
            out.push(c);
        }
        i = i + 1;
    }
    assert(value@.take(v.len() as int) =~= value@);
    out
}

// ---------------------------------------------------------------------------
// The whole ticket
// ---------------------------------------------------------------------------

/// One product of a ticket, with its amounts already written out.
#[derive(Debug)]
pub struct TicketLineaTexto {
    pub descripcion: String,
    pub marca: Option<String>,
    /// Quantity and unit price, as `"2.000 x $10.00"`.
    pub cantidad_precio: String,
    /// Line amount, as `"$20.00"`.
    pub importe: String,
}

/// A ticket whose amounts are already written out as text.
#[derive(Debug)]
pub struct TicketTexto {
    pub folio: String,
    pub fecha: String,
    pub cajero: String,
    pub sucursal: String,
    pub logo_bytes: Option<Vec<u8>>,
    pub empresa_nombre: Option<String>,
    pub rfc: Option<String>,
    pub regimen_fiscal: Option<String>,
    pub codigo_postal: Option<String>,
    pub metodo_pago: String,
    pub estado: Option<String>,
    pub productos: Vec<TicketLineaTexto>,
    /// Subtotal before VAT.
    pub subtotal: String,
    /// The discount, present only when there is one.
    pub descuento: Option<String>,
    /// The VAT included in the total.
    pub iva: String,
    pub total: String,
    pub recibido: Option<String>,
    pub cambio: Option<String>,
    pub mensaje: Option<String>,
}

/// A row of `-` as wide as the paper.
pub open spec fn separator(width: int) -> Seq<char> {
    Seq::new(width as nat, |i: int| '-')
}

/// The printed line for an optional text that is printed only when it has
/// text, trimmed and fitted to the paper.
pub open spec fn optional_fitted_line(value: Option<Seq<char>>, width: int) -> Seq<u8> {
    match value {
        Some(v) => if trim(v).len() > 0 {
            text_line(fitted(trim(v), width))
        } else {
            Seq::empty()
        },
        None => Seq::empty(),
    }
}

/// A two-column line printed only when the value is present.
pub open spec fn optional_two_columns(label: Seq<char>, value: Option<Seq<char>>, width: int) -> Seq<u8> {
    match value {
        Some(v) => text_line(two_columns(label, v, width)),
        None => Seq::empty(),
    }
}

/// Opening the cash drawer (`ESC p 0 25 250`) when asked, then resetting
/// the printer, choosing code page 850, double strike and normal print.
pub open spec fn ticket_prelude(abrir_cajon: bool) -> Seq<u8> {
    (if abrir_cajon {
        seq![0x1Bu8, 0x70, 0x00, 0x19, 0xFA]
    } else {
        Seq::empty()
    }) + seq![0x1Bu8, 0x40, 0x1B, 0x74, 0x02, 0x1B, 0x47, 0x01, 0x1B, 0x21, 0x00]
}

pub open spec fn logo_part(logo: Option<Vec<u8>>) -> Seq<u8> {
    match logo {
        Some(l) => if l@.len() > 0 {
            l@.push(0x0A)
        } else {
            Seq::empty()
        },
        None => Seq::empty(),
    }
}

/// The centred header: logo, company, tax data, branch, folio.
pub open spec fn ticket_header(t: TicketTexto, width: int) -> Seq<u8> {
    seq![0x1Bu8, 0x61, 0x01] + logo_part(t.logo_bytes) + text_line(
        fitted(ticket_text(opt_seq(t.empresa_nombre), "FERRE-POS"@), width),
    ) + text_line(fitted("RFC: "@ + ticket_text(opt_seq(t.rfc), "SIN RFC CONFIGURADO"@), width))
        + text_line(
        fitted("Regimen Fiscal: "@ + ticket_text(opt_seq(t.regimen_fiscal), "N/D"@), width),
    ) + text_line(fitted("C.P.: "@ + ticket_text(opt_seq(t.codigo_postal), "N/D"@), width))
        + text_line(fitted(t.sucursal@, width)) + text_line(fitted("FOLIO: "@ + t.folio@, width))
        + text_line(separator(width))
}

/// Date, cashier, payment method and state, left aligned.
pub open spec fn ticket_info(t: TicketTexto, width: int, metodo: Seq<char>) -> Seq<u8> {
    seq![0x1Bu8, 0x61, 0x00] + text_line(two_columns("Fecha"@, t.fecha@, width)) + text_line(
        two_columns("Cajero"@, t.cajero@, width),
    ) + text_line(two_columns("Pago"@, metodo, width)) + (match opt_seq(t.estado) {
        Some(e) => if trim(e).len() > 0 {
            text_line(two_columns("Estado"@, trim(e), width))
        } else {
            Seq::empty()
        },
        None => Seq::empty(),
    }) + text_line(separator(width))
}

pub open spec fn product_lines(p: TicketLineaTexto, width: int) -> Seq<u8> {
    text_line(fitted(p.descripcion@, width)) + optional_fitted_line(opt_seq(p.marca), width)
        + text_line(two_columns(p.cantidad_precio@, p.importe@, width))
}

pub open spec fn products_part(ps: Seq<TicketLineaTexto>, width: int) -> Seq<u8>
    decreases ps.len(),
{
    if ps.len() == 0 {
        Seq::empty()
    } else {
        products_part(ps.drop_last(), width) + product_lines(ps.last(), width)
    }
}

pub open spec fn opt_minus(v: Option<Seq<char>>) -> Option<Seq<char>> {
    match v {
        Some(d) => Some(seq!['-'] + d),
        None => None,
    }
}

/// Subtotal, discount, VAT, total, cash received and change.
pub open spec fn ticket_totals(t: TicketTexto, width: int) -> Seq<u8> {
    text_line(separator(width)) + text_line(two_columns("Subtotal"@, t.subtotal@, width))
        + optional_two_columns("Descuento"@, opt_minus(opt_seq(t.descuento)), width) + text_line(
        two_columns("IVA 16%"@, t.iva@, width),
    ) + text_line(two_columns("TOTAL"@, t.total@, width)) + optional_two_columns(
        "Efectivo recibido"@,
        opt_seq(t.recibido),
        width,
    ) + optional_two_columns("Cambio"@, opt_seq(t.cambio), width)
}

/// The credit notice and signature line, printed for credit sales only.
pub open spec fn credit_notice(metodo: Seq<char>) -> Seq<u8> {
    if metodo == "CREDITO"@ {
        text_line("AVISO DE CREDITO: Este comprobante"@) + text_line(
            "expira a los 30 dias naturales de su"@,
        ) + text_line("expedicion. Pasada la fecha limite de"@) + text_line(
            "pago, se aplicara una penalizacion de"@,
        ) + text_line("interes moratorio mensual sobre saldo."@) + text_line(""@) + seq![
            0x1Bu8,
            0x61,
            0x01,
        ] + text_line("__________________________________"@) + text_line(
            "       Firma de Conformidad"@,
        ) + seq![0x1Bu8, 0x61, 0x00] + text_line(""@)
    } else {
        Seq::empty()
    }
}

/// The centred closing text, the paper feed and the partial cut (`GS V B 0`).
pub open spec fn ticket_footer(t: TicketTexto, width: int) -> Seq<u8> {
    text_line(separator(width)) + credit_notice(unicode_upper(trim(t.metodo_pago@))) + seq![
        0x1Bu8,
        0x61,
        0x01,
    ] + text_line(fitted("Este ticket forma parte de la venta"@, width)) + text_line(
        fitted("global del dia."@, width),
    ) + optional_fitted_line(opt_seq(t.mensaje), width) + seq![0x1Bu8, 0x61, 0x00] + seq![
        0x0Au8,
        0x0A,
        0x0A,
    ] + seq![0x1Du8, 0x56, 0x42, 0x00]
}

/// Every byte sent to the printer for a ticket.
pub open spec fn ticket_bytes(t: TicketTexto, width: int, abrir_cajon: bool) -> Seq<u8> {
    ticket_prelude(abrir_cajon) + ticket_header(t, width) + ticket_info(
        t,
        width,
        unicode_upper(trim(t.metodo_pago@)),
    ) + products_part(t.productos@, width) + ticket_totals(t, width) + ticket_footer(t, width)
}

/// The paper widths, in characters, that tickets can be laid out for.
pub open spec fn supported_width(width: int) -> bool {
    width == 32 || width == 42 || width == 48
}

fn push_bytes3(buffer: &mut Vec<u8>, a: u8, b: u8, c: u8)
    ensures
        final(buffer)@ == old(buffer)@ + seq![a, b, c],
{
    buffer.push(a);
    buffer.push(b);
    buffer.push(c);
    assert(buffer@ =~= old(buffer)@ + seq![a, b, c]);
}

fn separator_text(width: usize) -> (r: String)
    ensures
        r@ == separator(width as int),
{
    let mut s = String::new();
    let mut k: usize = 0;
    while k < width
        invariant
            k <= width,
            s@ == Seq::new(k as nat, |i: int| '-'),
        decreases width - k,
    {
        s.push('-');
        k = k + 1;
        assert(s@ =~= Seq::new(k as nat, |i: int| '-'));
    }
    s
}

fn prelude_bytes(abrir_cajon: bool) -> (r: Vec<u8>)
    ensures
        r@ == ticket_prelude(abrir_cajon),
{
    let mut b: Vec<u8> = Vec::new();
    if abrir_cajon {
        b.push(0x1B);
        b.push(0x70);
        b.push(0x00);
        b.push(0x19);
        b.push(0xFA);
    }
    let ghost first = b@;
    b.push(0x1B);
    b.push(0x40);
    b.push(0x1B);
    b.push(0x74);
    b.push(0x02);
    b.push(0x1B);
    b.push(0x47);
    b.push(0x01);
    b.push(0x1B);
    b.push(0x21);
    b.push(0x00);
    assert(b@ =~= ticket_prelude(abrir_cajon));
    b
}

fn header_bytes(t: &TicketTexto, width: usize) -> (r: Vec<u8>)
    ensures
        r@ == ticket_header(*t, width as int),
{
    let mut b: Vec<u8> = Vec::new();
    push_bytes3(&mut b, 0x1B, 0x61, 0x01);
    assert(b@ =~= seq![0x1Bu8, 0x61, 0x01]);
    match &t.logo_bytes {
        Some(logo) => {
            if logo.len() > 0 {
                extend_bytes(&mut b, logo.as_slice());
                b.push(0x0A);
            }
        },
        None => {},
    }
    assert(b@ =~= seq![0x1Bu8, 0x61, 0x01] + logo_part(t.logo_bytes));
    let empresa = optional_ticket_text(&t.empresa_nombre, "FERRE-POS");
    escpos_text_line(&mut b, fit_text(empresa.as_str(), width).as_str());
    let rfc = concat_text("RFC: ", optional_ticket_text(&t.rfc, "SIN RFC CONFIGURADO").as_str());
    escpos_text_line(&mut b, fit_text(rfc.as_str(), width).as_str());
    let regimen = concat_text(
        "Regimen Fiscal: ",
        optional_ticket_text(&t.regimen_fiscal, "N/D").as_str(),
    );
    escpos_text_line(&mut b, fit_text(regimen.as_str(), width).as_str());
    let cp = concat_text("C.P.: ", optional_ticket_text(&t.codigo_postal, "N/D").as_str());
    escpos_text_line(&mut b, fit_text(cp.as_str(), width).as_str());
    escpos_text_line(&mut b, fit_text(t.sucursal.as_str(), width).as_str());
    let folio = concat_text("FOLIO: ", t.folio.as_str());
    escpos_text_line(&mut b, fit_text(folio.as_str(), width).as_str());
    escpos_text_line(&mut b, separator_text(width).as_str());
    b
}

fn concat_text(a: &str, b: &str) -> (r: String)
    ensures
        r@ == a@ + b@,
{
    crate::text::concat2(a, b)
}

fn info_bytes(t: &TicketTexto, width: usize, metodo: &str) -> (r: Vec<u8>)
    ensures
        r@ == ticket_info(*t, width as int, metodo@),
{
    let mut b: Vec<u8> = Vec::new();
    push_bytes3(&mut b, 0x1B, 0x61, 0x00);
    assert(b@ =~= seq![0x1Bu8, 0x61, 0x00]);
    escpos_text_line(&mut b, ticket_two_columns("Fecha", t.fecha.as_str(), width).as_str());
    escpos_text_line(&mut b, ticket_two_columns("Cajero", t.cajero.as_str(), width).as_str());
    escpos_text_line(&mut b, ticket_two_columns("Pago", metodo, width).as_str());
    let ghost before = b@;
    match &t.estado {
        Some(e) => {
            let te = trim_str(e.as_str());
            if !te.as_str().is_empty() {
                escpos_text_line(&mut b, ticket_two_columns("Estado", te.as_str(), width).as_str());
            }
        },
        None => {},
    }
    escpos_text_line(&mut b, separator_text(width).as_str());
    b
}

fn optional_fitted_bytes(b: &mut Vec<u8>, value: &Option<String>, width: usize)
    ensures
        final(b)@ == old(b)@ + optional_fitted_line(opt_seq(*value), width as int),
{
    match value {
        Some(v) => {
            let tv = trim_str(v.as_str());
            if !tv.as_str().is_empty() {
                escpos_text_line(b, fit_text(tv.as_str(), width).as_str());
            } else {
                assert(b@ =~= old(b)@ + Seq::<u8>::empty());
            }
        },
        None => {
            assert(b@ =~= old(b)@ + Seq::<u8>::empty());
        },
    }
}

fn optional_two_columns_bytes(b: &mut Vec<u8>, label: &str, value: &Option<String>, width: usize)
    ensures
        final(b)@ == old(b)@ + optional_two_columns(label@, opt_seq(*value), width as int),
{
    match value {
        Some(v) => {
            escpos_text_line(b, ticket_two_columns(label, v.as_str(), width).as_str());
        },
        None => {
            assert(b@ =~= old(b)@ + Seq::<u8>::empty());
        },
    }
}

fn products_bytes(ps: &Vec<TicketLineaTexto>, width: usize) -> (r: Vec<u8>)
    ensures
        r@ == products_part(ps@, width as int),
{
    let mut b: Vec<u8> = Vec::new();
    let mut i: usize = 0;
    while i < ps.len()
        invariant
            i <= ps.len(),
            b@ == products_part(ps@.take(i as int), width as int),
        decreases ps.len() - i,
    {
        let p = &ps[i];
        let ghost before = b@;
        escpos_text_line(&mut b, fit_text(p.descripcion.as_str(), width).as_str());
        optional_fitted_bytes(&mut b, &p.marca, width);
        escpos_text_line(
            &mut b,
            ticket_two_columns(p.cantidad_precio.as_str(), p.importe.as_str(), width).as_str(),
        );
        assert(ps@.take(i + 1).drop_last() =~= ps@.take(i as int));
        assert(b@ =~= before + product_lines(ps@[i as int], width as int));
        i = i + 1;
    }
    assert(ps@.take(ps.len() as int) =~= ps@);
    b
}

fn totals_bytes(t: &TicketTexto, width: usize) -> (r: Vec<u8>)
    ensures
        r@ == ticket_totals(*t, width as int),
{
    let mut b: Vec<u8> = Vec::new();
    escpos_text_line(&mut b, separator_text(width).as_str());
    assert(b@ =~= text_line(separator(width as int)));
    escpos_text_line(&mut b, ticket_two_columns("Subtotal", t.subtotal.as_str(), width).as_str());
    let minus: Option<String> = match &t.descuento {
        Some(d) => Some(concat_text("-", d.as_str())),
        None => None,
    };
    proof {
        reveal_strlit("-");
        assert(opt_seq(minus) =~= opt_minus(opt_seq(t.descuento)));
    }
    optional_two_columns_bytes(&mut b, "Descuento", &minus, width);
    escpos_text_line(&mut b, ticket_two_columns("IVA 16%", t.iva.as_str(), width).as_str());
    escpos_text_line(&mut b, ticket_two_columns("TOTAL", t.total.as_str(), width).as_str());
    optional_two_columns_bytes(&mut b, "Efectivo recibido", &t.recibido, width);
    optional_two_columns_bytes(&mut b, "Cambio", &t.cambio, width);
    b
}

fn credit_bytes(metodo: &str) -> (r: Vec<u8>)
    ensures
        r@ == credit_notice(metodo@),
{
    let mut b: Vec<u8> = Vec::new();
    if crate::text::str_eq(metodo, "CREDITO") {
        escpos_text_line(&mut b, "AVISO DE CREDITO: Este comprobante");
        assert(b@ =~= text_line("AVISO DE CREDITO: Este comprobante"@));
        escpos_text_line(&mut b, "expira a los 30 dias naturales de su");
        escpos_text_line(&mut b, "expedicion. Pasada la fecha limite de");
        escpos_text_line(&mut b, "pago, se aplicara una penalizacion de");
        escpos_text_line(&mut b, "interes moratorio mensual sobre saldo.");
        escpos_text_line(&mut b, "");
        push_bytes3(&mut b, 0x1B, 0x61, 0x01);
        escpos_text_line(&mut b, "__________________________________");
        escpos_text_line(&mut b, "       Firma de Conformidad");
        push_bytes3(&mut b, 0x1B, 0x61, 0x00);
        escpos_text_line(&mut b, "");
    }
    b
}

fn footer_bytes(t: &TicketTexto, width: usize, metodo: &str) -> (r: Vec<u8>)
    requires
        metodo@ == unicode_upper(trim(t.metodo_pago@)),
    ensures
        r@ == ticket_footer(*t, width as int),
{
    let mut b: Vec<u8> = Vec::new();
    escpos_text_line(&mut b, separator_text(width).as_str());
    assert(b@ =~= text_line(separator(width as int)));
    let credit = credit_bytes(metodo);
    extend_bytes(&mut b, credit.as_slice());
    push_bytes3(&mut b, 0x1B, 0x61, 0x01);
    escpos_text_line(&mut b, fit_text("Este ticket forma parte de la venta", width).as_str());
    escpos_text_line(&mut b, fit_text("global del dia.", width).as_str());
    optional_fitted_bytes(&mut b, &t.mensaje, width);
    push_bytes3(&mut b, 0x1B, 0x61, 0x00);
    push_bytes3(&mut b, 0x0A, 0x0A, 0x0A);
    let ghost before = b@;
    b.push(0x1D);
    b.push(0x56);
    b.push(0x42);
    b.push(0x00);
    assert(b@ =~= before + seq![0x1Du8, 0x56, 0x42, 0x00]);
    b
}

/// The error for a paper width other than 32, 42 or 48 characters.
pub open spec fn ticket_error(t: TicketTexto, paper_width: int) -> Option<Seq<char>> {
    if !supported_width(paper_width) {
        Some("El ancho de papel debe ser 32, 42 o 48 caracteres."@)
    } else if t.productos@.len() == 0 {
        Some("El ticket no contiene productos."@)
    } else {
        None
    }
}

/// Lays out a ticket for a 32, 42 or 48 character printer.
pub fn build_ticket_escpos(ticket: &TicketTexto, paper_width: usize, abrir_cajon: bool) -> (r: Result<Vec<u8>, String>)
    ensures
        match ticket_error(*ticket, paper_width as int) {
            Some(msg) => r matches Err(e) && e@ == msg,
            None => r matches Ok(bytes) && bytes@ == ticket_bytes(
                *ticket,
                paper_width as int,
                abrir_cajon,
            ),
        },
{
    if !(paper_width == 32 || paper_width == 42 || paper_width == 48) {
        return Err(to_owned_string("El ancho de papel debe ser 32, 42 o 48 caracteres."));
    }
    if ticket.productos.len() == 0 {
        return Err(to_owned_string("El ticket no contiene productos."));
    }
    let width = paper_width;
    let metodo = crate::normalize::normalize_upper_trim(ticket.metodo_pago.as_str());
    let mut buffer = prelude_bytes(abrir_cajon);
    let header = header_bytes(ticket, width);
    extend_bytes(&mut buffer, header.as_slice());
    let info = info_bytes(ticket, width, metodo.as_str());
    extend_bytes(&mut buffer, info.as_slice());
    let products = products_bytes(&ticket.productos, width);
    extend_bytes(&mut buffer, products.as_slice());
    let totals = totals_bytes(ticket, width);
    extend_bytes(&mut buffer, totals.as_slice());
    let footer = footer_bytes(ticket, width, metodo.as_str());
    extend_bytes(&mut buffer, footer.as_slice());
    Ok(buffer)
}

// ---------------------------------------------------------------------------
// Laws
// ---------------------------------------------------------------------------

/// A fitted text never runs past the column, once the column can hold `...`.
pub proof fn law_fitted_within_width(value: Seq<char>, width: int)
    requires
        width >= 3,
    ensures
        fitted(value, width).len() <= width,
        one_line(trim(value)).len() <= width ==> fitted(value, width) == one_line(trim(value)),
{
    reveal_strlit("...");
}

/// A two-column line fills the paper width exactly when the right column
/// leaves room for the left one.
pub proof fn law_two_columns_fill_width(left: Seq<char>, right: Seq<char>, width: int)
    requires
        right.len() + 4 <= width,
    ensures
        two_columns(left, right, width).len() == width,
{
    law_fitted_within_width(left, width - right.len() - 1);
}

/// The bytes hold the piece `x` somewhere.
pub open spec fn bytes_contain(b: Seq<u8>, x: Seq<u8>) -> bool {
    exists|i: int| 0 <= i && i + x.len() <= b.len() && #[trigger] b.subrange(i, i + x.len()) == x
}

proof fn lemma_contain_self(x: Seq<u8>)
    ensures
        bytes_contain(x, x),
{
    assert(x.subrange(0, x.len() as int) =~= x);
    lemma_contain_at(x, x, 0);
}

proof fn lemma_contain_at(b: Seq<u8>, x: Seq<u8>, i: int)
    requires
        0 <= i,
        i + x.len() <= b.len(),
        b.subrange(i, i + x.len()) == x,
    ensures
        bytes_contain(b, x),
{
}

proof fn lemma_contain_before(s: Seq<u8>, y: Seq<u8>, x: Seq<u8>)
    requires
        bytes_contain(s, x),
    ensures
        bytes_contain(s + y, x),
{
    let i = choose|i: int| 0 <= i && i + x.len() <= s.len() && #[trigger] s.subrange(i, i + x.len()) == x;
    assert((s + y).subrange(i, i + x.len()) =~= s.subrange(i, i + x.len()));
}

proof fn lemma_contain_after(y: Seq<u8>, s: Seq<u8>, x: Seq<u8>)
    requires
        bytes_contain(s, x),
    ensures
        bytes_contain(y + s, x),
{
    let i = choose|i: int| 0 <= i && i + x.len() <= s.len() && #[trigger] s.subrange(i, i + x.len()) == x;
    let j = i + y.len();
    assert((y + s).subrange(j, j + x.len()) =~= s.subrange(i, i + x.len()));
}

/// A piece of the totals is printed: the totals lie between the products
/// and the footer of the ticket.
proof fn lemma_totals_printed(t: TicketTexto, width: int, abrir_cajon: bool, x: Seq<u8>)
    requires
        bytes_contain(ticket_totals(t, width), x),
    ensures
        bytes_contain(ticket_bytes(t, width, abrir_cajon), x),
{
    let a = ticket_prelude(abrir_cajon) + ticket_header(t, width) + ticket_info(
        t,
        width,
        unicode_upper(trim(t.metodo_pago@)),
    ) + products_part(t.productos@, width);
    lemma_contain_after(a, ticket_totals(t, width), x);
    lemma_contain_before(a + ticket_totals(t, width), ticket_footer(t, width), x);
}

/// A piece of the sale's details is printed: they follow the header.
proof fn lemma_info_printed(t: TicketTexto, width: int, abrir_cajon: bool, x: Seq<u8>)
    requires
        bytes_contain(ticket_info(t, width, unicode_upper(trim(t.metodo_pago@))), x),
    ensures
        bytes_contain(ticket_bytes(t, width, abrir_cajon), x),
{
    let a = ticket_prelude(abrir_cajon) + ticket_header(t, width);
    let info = ticket_info(t, width, unicode_upper(trim(t.metodo_pago@)));
    lemma_contain_after(a, info, x);
    lemma_contain_before(a + info, products_part(t.productos@, width), x);
    lemma_contain_before(a + info + products_part(t.productos@, width), ticket_totals(t, width), x);
    lemma_contain_before(
        a + info + products_part(t.productos@, width) + ticket_totals(t, width),
        ticket_footer(t, width),
        x,
    );
}

/// The change printed on a ticket is the ticket's own change: when the
/// ticket carries a change, its bytes hold the line `Cambio` with that
/// change flush right, and the totals end with it, right after the line of
/// the cash received when there is one.
pub proof fn law_ticket_prints_its_change(t: TicketTexto, width: int, abrir_cajon: bool)
    ensures
        t.cambio matches Some(c) ==> bytes_contain(
            ticket_bytes(t, width, abrir_cajon),
            text_line(two_columns("Cambio"@, c@, width)),
        ),
        t.cambio matches Some(c) ==> {
            let line = text_line(two_columns("Cambio"@, c@, width));
            let tot = ticket_totals(t, width);
            tot.subrange(tot.len() - line.len(), tot.len() as int) == line
        },
        t.cambio matches Some(c) ==> (t.recibido matches Some(r) ==> {
            let line = text_line(two_columns("Efectivo recibido"@, r@, width)) + text_line(
                two_columns("Cambio"@, c@, width),
            );
            let tot = ticket_totals(t, width);
            tot.subrange(tot.len() - line.len(), tot.len() as int) == line
        }),
{
    let head = text_line(separator(width)) + text_line(two_columns("Subtotal"@, t.subtotal@, width))
        + optional_two_columns("Descuento"@, opt_minus(opt_seq(t.descuento)), width) + text_line(
        two_columns("IVA 16%"@, t.iva@, width),
    ) + text_line(two_columns("TOTAL"@, t.total@, width));
    let rec = optional_two_columns("Efectivo recibido"@, opt_seq(t.recibido), width);
    let cam = optional_two_columns("Cambio"@, opt_seq(t.cambio), width);
    let tot = ticket_totals(t, width);
    assert(tot == head + rec + cam);
    match t.cambio {
        Some(c) => {
            let line = text_line(two_columns("Cambio"@, c@, width));
            assert(cam == line);
            lemma_contain_self(line);
            lemma_contain_after(head + rec, line, line);
            lemma_totals_printed(t, width, abrir_cajon, line);
            assert(tot.subrange(tot.len() - line.len(), tot.len() as int) =~= line);
            match t.recibido {
                Some(r) => {
                    let both = text_line(two_columns("Efectivo recibido"@, r@, width)) + line;
                    assert(rec + cam == both);
                    assert(tot =~= head + both);
                    assert(tot.subrange(tot.len() - both.len(), tot.len() as int) =~= both);
                },
                None => {},
            }
        },
        None => {},
    }
}

/// Each amount and detail of a ticket is printed on the line of its own
/// label: the date, the cashier and the payment method (trimmed, in upper
/// case), the subtotal, the VAT, the total, the discount (with a minus sign)
/// and the cash received when there are any.
pub proof fn law_ticket_shows_its_amounts(t: TicketTexto, width: int, abrir_cajon: bool)
    ensures
        bytes_contain(ticket_bytes(t, width, abrir_cajon), text_line(two_columns("Fecha"@, t.fecha@, width))),
        bytes_contain(ticket_bytes(t, width, abrir_cajon), text_line(two_columns("Cajero"@, t.cajero@, width))),
        bytes_contain(
            ticket_bytes(t, width, abrir_cajon),
            text_line(two_columns("Pago"@, unicode_upper(trim(t.metodo_pago@)), width)),
        ),
        bytes_contain(ticket_bytes(t, width, abrir_cajon), text_line(two_columns("Subtotal"@, t.subtotal@, width))),
        bytes_contain(ticket_bytes(t, width, abrir_cajon), text_line(two_columns("IVA 16%"@, t.iva@, width))),
        bytes_contain(ticket_bytes(t, width, abrir_cajon), text_line(two_columns("TOTAL"@, t.total@, width))),
        t.descuento matches Some(d) ==> bytes_contain(
            ticket_bytes(t, width, abrir_cajon),
            text_line(two_columns("Descuento"@, seq!['-'] + d@, width)),
        ),
        t.recibido matches Some(r) ==> bytes_contain(
            ticket_bytes(t, width, abrir_cajon),
            text_line(two_columns("Efectivo recibido"@, r@, width)),
        ),
{
    lemma_info_lines_printed(t, width, abrir_cajon);
    lemma_total_lines_printed(t, width, abrir_cajon);
}

proof fn lemma_info_lines_printed(t: TicketTexto, width: int, abrir_cajon: bool)
    ensures
        bytes_contain(ticket_bytes(t, width, abrir_cajon), text_line(two_columns("Fecha"@, t.fecha@, width))),
        bytes_contain(ticket_bytes(t, width, abrir_cajon), text_line(two_columns("Cajero"@, t.cajero@, width))),
        bytes_contain(
            ticket_bytes(t, width, abrir_cajon),
            text_line(two_columns("Pago"@, unicode_upper(trim(t.metodo_pago@)), width)),
        ),
{
    let metodo = unicode_upper(trim(t.metodo_pago@));
    let esc = seq![0x1Bu8, 0x61, 0x00];
    let fecha = text_line(two_columns("Fecha"@, t.fecha@, width));
    let cajero = text_line(two_columns("Cajero"@, t.cajero@, width));
    let pago = text_line(two_columns("Pago"@, metodo, width));
    let estado = match opt_seq(t.estado) {
        Some(e) => if trim(e).len() > 0 {
            text_line(two_columns("Estado"@, trim(e), width))
        } else {
            Seq::empty()
        },
        None => Seq::empty(),
    };
    let sep = text_line(separator(width));
    assert(ticket_info(t, width, metodo) == esc + fecha + cajero + pago + estado + sep);
    lemma_contain_self(fecha);
    lemma_contain_after(esc, fecha, fecha);
    lemma_contain_before(esc + fecha, cajero, fecha);
    lemma_contain_before(esc + fecha + cajero, pago, fecha);
    lemma_contain_before(esc + fecha + cajero + pago, estado, fecha);
    lemma_contain_before(esc + fecha + cajero + pago + estado, sep, fecha);
    lemma_info_printed(t, width, abrir_cajon, fecha);
    lemma_contain_self(cajero);
    lemma_contain_after(esc + fecha, cajero, cajero);
    lemma_contain_before(esc + fecha + cajero, pago, cajero);
    lemma_contain_before(esc + fecha + cajero + pago, estado, cajero);
    lemma_contain_before(esc + fecha + cajero + pago + estado, sep, cajero);
    lemma_info_printed(t, width, abrir_cajon, cajero);
    lemma_contain_self(pago);
    lemma_contain_after(esc + fecha + cajero, pago, pago);
    lemma_contain_before(esc + fecha + cajero + pago, estado, pago);
    lemma_contain_before(esc + fecha + cajero + pago + estado, sep, pago);
    lemma_info_printed(t, width, abrir_cajon, pago);
}

proof fn lemma_total_lines_printed(t: TicketTexto, width: int, abrir_cajon: bool)
    ensures
        bytes_contain(ticket_bytes(t, width, abrir_cajon), text_line(two_columns("Subtotal"@, t.subtotal@, width))),
        bytes_contain(ticket_bytes(t, width, abrir_cajon), text_line(two_columns("IVA 16%"@, t.iva@, width))),
        bytes_contain(ticket_bytes(t, width, abrir_cajon), text_line(two_columns("TOTAL"@, t.total@, width))),
        t.descuento matches Some(d) ==> bytes_contain(
            ticket_bytes(t, width, abrir_cajon),
            text_line(two_columns("Descuento"@, seq!['-'] + d@, width)),
        ),
        t.recibido matches Some(r) ==> bytes_contain(
            ticket_bytes(t, width, abrir_cajon),
            text_line(two_columns("Efectivo recibido"@, r@, width)),
        ),
{
    let sep = text_line(separator(width));
    let sub = text_line(two_columns("Subtotal"@, t.subtotal@, width));
    let desc = optional_two_columns("Descuento"@, opt_minus(opt_seq(t.descuento)), width);
    let iva = text_line(two_columns("IVA 16%"@, t.iva@, width));
    let total = text_line(two_columns("TOTAL"@, t.total@, width));
    let rec = optional_two_columns("Efectivo recibido"@, opt_seq(t.recibido), width);
    let cam = optional_two_columns("Cambio"@, opt_seq(t.cambio), width);
    assert(ticket_totals(t, width) == sep + sub + desc + iva + total + rec + cam);
    lemma_contain_self(sub);
    lemma_contain_after(sep, sub, sub);
    lemma_contain_before(sep + sub, desc, sub);
    lemma_contain_before(sep + sub + desc, iva, sub);
    lemma_contain_before(sep + sub + desc + iva, total, sub);
    lemma_contain_before(sep + sub + desc + iva + total, rec, sub);
    lemma_contain_before(sep + sub + desc + iva + total + rec, cam, sub);
    lemma_totals_printed(t, width, abrir_cajon, sub);
    lemma_contain_self(iva);
    lemma_contain_after(sep + sub + desc, iva, iva);
    lemma_contain_before(sep + sub + desc + iva, total, iva);
    lemma_contain_before(sep + sub + desc + iva + total, rec, iva);
    lemma_contain_before(sep + sub + desc + iva + total + rec, cam, iva);
    lemma_totals_printed(t, width, abrir_cajon, iva);
    lemma_contain_self(total);
    lemma_contain_after(sep + sub + desc + iva, total, total);
    lemma_contain_before(sep + sub + desc + iva + total, rec, total);
    lemma_contain_before(sep + sub + desc + iva + total + rec, cam, total);
    lemma_totals_printed(t, width, abrir_cajon, total);
    match t.descuento {
        Some(d) => {
            assert(desc == text_line(two_columns("Descuento"@, seq!['-'] + d@, width)));
            lemma_contain_self(desc);
            lemma_contain_after(sep + sub, desc, desc);
            lemma_contain_before(sep + sub + desc, iva, desc);
            lemma_contain_before(sep + sub + desc + iva, total, desc);
            lemma_contain_before(sep + sub + desc + iva + total, rec, desc);
            lemma_contain_before(sep + sub + desc + iva + total + rec, cam, desc);
            lemma_totals_printed(t, width, abrir_cajon, desc);
        },
        None => {},
    }
    match t.recibido {
        Some(r) => {
            lemma_contain_self(rec);
            lemma_contain_after(sep + sub + desc + iva + total, rec, rec);
            lemma_contain_before(sep + sub + desc + iva + total + rec, cam, rec);
            lemma_totals_printed(t, width, abrir_cajon, rec);
        },
        None => {},
    }
}
} // verus!
