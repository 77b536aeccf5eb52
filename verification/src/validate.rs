//! Validation of the records that users create and edit.
use vstd::prelude::*;
use crate::model::{
    Categoria, ClienteDatosFiscales, EmpresaConfigFiscal, Marca, PerfilUpdate, PerifericosConfigInput,
    Proveedor, Sucursal, UnidadMedida, Usuario,
};
use crate::error::{validation, validation_outcome, AppError};
use crate::auth::{is_valid_role, valid_role};
use crate::text::{
    chars_of, concat2, is_alnum_char, is_ascii_alnum, is_ascii_digit, is_blank, is_blank_str,
    is_digit_char, push_str, trim, trim_str, unicode_upper,
};
use crate::normalize::normalize_upper_trim;

verus! {

// ---------------------------------------------------------------------------
// Lengths and character classes
// ---------------------------------------------------------------------------

/// The number of bytes a character takes in UTF-8.
pub open spec fn utf8_width(c: char) -> nat {
    if (c as u32) < 0x80 {
        1
    } else if (c as u32) < 0x800 {
        2
    } else if (c as u32) < 0x10000 {
        3
    } else {
        4
    }
}

/// The number of bytes of the text in UTF-8 (what `str::len` counts).
pub open spec fn byte_len(s: Seq<char>) -> nat
    decreases s.len(),
{
    if s.len() == 0 {
        0
    } else {
        byte_len(s.drop_last()) + utf8_width(s.last())
    }
}

/// `min(s.len(), cap)` for a string, where the length counts UTF-8 bytes.
pub fn byte_len_capped(s: &str, cap: usize) -> (r: usize)
    ensures
        r == (if byte_len(s@) < cap { byte_len(s@) } else { cap as nat }),
{
    if cap == 0 {
        return 0;
    }
    let v = chars_of(s);
    let mut total: usize = 0;
    let mut i: usize = 0;
    while i < v.len()
        invariant
            i <= v.len(),
            v@ == s@,
            total == byte_len(s@.take(i as int)),
            total < cap,
        decreases v.len() - i,
    {
        let c = v[i];
        let code: u32 = c as u32;
        let w: usize = if code < 0x80 {
            1
        } else if code < 0x800 {
            2
        } else if code < 0x10000 {
            3
        } else {
            4
        };
        proof {
            assert(s@.take(i + 1).drop_last() =~= s@.take(i as int));
        }
        i = i + 1;
        if w >= cap - total {
            proof {
                lemma_byte_len_prefix(s@, i as int);
            }
            return cap;
        }
        total = total + w;
    }
    assert(s@.take(v.len() as int) =~= s@);
    total
}

/// A prefix never takes more bytes than the whole text.
pub proof fn lemma_byte_len_prefix(s: Seq<char>, i: int)
    requires
        0 <= i <= s.len(),
    ensures
        byte_len(s.take(i)) <= byte_len(s),
    decreases s.len() - i,
{
    if i < s.len() {
        lemma_byte_len_prefix(s, i + 1);
        assert(s.take(i + 1).drop_last() =~= s.take(i));
    } else {
        assert(s.take(i) =~= s);
    }
}

/// Every character is an ASCII digit.
pub open spec fn all_digits(s: Seq<char>) -> bool {
    forall|k: int| 0 <= k < s.len() ==> is_ascii_digit(#[trigger] s[k])
}

pub fn all_digits_str(s: &str) -> (r: bool)
    ensures
        r == all_digits(s@),
{
    let v = chars_of(s);
    let mut i: usize = 0;
    while i < v.len()
        invariant
            i <= v.len(),
            v@ == s@,
            forall|k: int| 0 <= k < i ==> is_ascii_digit(#[trigger] s@[k]),
        decreases v.len() - i,
    {
        if !is_digit_char(v[i]) {
            return false;
        }
        i = i + 1;
    }
    true
}

pub fn validate_exact_len(value: &str, expected: usize, message: &str) -> (r: Result<(), AppError>)
    ensures
        validation_outcome(
            r,
            if value@.len() != expected {
                Some(message@)
            } else {
                None
            },
        ),
{
    let v = chars_of(value);
    if v.len() != expected {
        return Err(validation(message));
    }
    Ok(())
}

pub open spec fn digits_exact_check(value: Seq<char>, expected: nat, message: Seq<char>) -> Option<Seq<char>> {
    if value.len() != expected || !all_digits(value) {
        Some(message)
    } else {
        None
    }
}

pub fn validate_digits_exact(value: &str, expected: usize, message: &str) -> (r: Result<(), AppError>)
    ensures
        validation_outcome(r, digits_exact_check(value@, expected as nat, message@)),
{
    validate_exact_len(value, expected, message)?;
    if !all_digits_str(value) {
        return Err(validation(message));
    }
    Ok(())
}

// ---------------------------------------------------------------------------
// Tax identifiers
// ---------------------------------------------------------------------------

pub open spec fn rfc_check(rfc: Seq<char>) -> Option<Seq<char>> {
    if !(12 <= rfc.len() && rfc.len() <= 13) {
        Some("El RFC debe tener entre 12 y 13 caracteres."@)
    } else {
        None
    }
}

/// An RFC has 12 or 13 characters.
pub fn validate_rfc_sat(rfc: &str) -> (r: Result<(), AppError>)
    ensures
        validation_outcome(r, rfc_check(rfc@)),
{
    let v = chars_of(rfc);
    let len = v.len();
    if !(12 <= len && len <= 13) {
        return Err(validation("El RFC debe tener entre 12 y 13 caracteres."));
    }
    Ok(())
}

pub open spec fn regimen_check(regimen: Seq<char>) -> Option<Seq<char>> {
    digits_exact_check(regimen, 3, "El Régimen Fiscal debe tener exactamente 3 dígitos."@)
}

/// A tax regime is three digits.
pub fn validate_regimen_fiscal_sat(regimen_fiscal: &str) -> (r: Result<(), AppError>)
    ensures
        validation_outcome(r, regimen_check(regimen_fiscal@)),
{
    validate_digits_exact(regimen_fiscal, 3, "El Régimen Fiscal debe tener exactamente 3 dígitos.")
}

pub open spec fn codigo_postal_check(cp: Seq<char>) -> Option<Seq<char>> {
    digits_exact_check(cp, 5, "El Código Postal fiscal debe tener exactamente 5 dígitos."@)
}

/// A fiscal postal code is five digits.
pub fn validate_codigo_postal_sat(codigo_postal: &str) -> (r: Result<(), AppError>)
    ensures
        validation_outcome(r, codigo_postal_check(codigo_postal@)),
{
    validate_digits_exact(
        codigo_postal,
        5,
        "El Código Postal fiscal debe tener exactamente 5 dígitos.",
    )
}

/// ASCII letters, digits and `-` only.
pub open spec fn uuid_chars(s: Seq<char>) -> bool {
    forall|k: int| 0 <= k < s.len() ==> (is_ascii_alnum(#[trigger] s[k]) || s[k] == '-')
}

pub open spec fn uuid_check(uuid: Seq<char>) -> Option<Seq<char>> {
    let t = trim(uuid);
    if byte_len(t) < 10 || byte_len(t) > 64 {
        Some("El UUID de la factura no tiene una longitud válida."@)
    } else if !uuid_chars(t) {
        Some("El UUID de la factura contiene caracteres inválidos."@)
    } else {
        None
    }
}

/// An invoice UUID, trimmed: 10 to 64 bytes of letters, digits and dashes.
pub fn validate_uuid_sat_like(uuid: &str) -> (r: Result<(), AppError>)
    ensures
        validation_outcome(r, uuid_check(uuid@)),
{
    let t = trim_str(uuid);
    let n = byte_len_capped(t.as_str(), 65);
    if n < 10 || n > 64 {
        return Err(validation("El UUID de la factura no tiene una longitud válida."));
    }
    let v = chars_of(t.as_str());
    let mut i: usize = 0;
    while i < v.len()
        invariant
            i <= v.len(),
            v@ == t@,
            t@ == trim(uuid@),
            !(byte_len(t@) < 10 || byte_len(t@) > 64),
            forall|k: int| 0 <= k < i ==> (is_ascii_alnum(#[trigger] v@[k]) || v@[k] == '-'),
        decreases v.len() - i,
    {
        if !(is_alnum_char(v[i]) || v[i] == '-') {
            assert(!(is_ascii_alnum(t@[i as int]) || t@[i as int] == '-'));
            return Err(validation("El UUID de la factura contiene caracteres inválidos."));
        }
        i = i + 1;
    }
    Ok(())
}

pub open spec fn cliente_datos_fiscales_check(input: ClienteDatosFiscales) -> Option<Seq<char>> {
    if is_blank(input.cliente_id@) || is_blank(input.rfc@) || is_blank(input.razon_social@)
        || is_blank(input.regimen_fiscal@) || is_blank(input.codigo_postal@) {
        Some("Completa todos los datos fiscales del cliente."@)
    } else if rfc_check(unicode_upper(trim(input.rfc@))) is Some {
        rfc_check(unicode_upper(trim(input.rfc@)))
    } else if regimen_check(trim(input.regimen_fiscal@)) is Some {
        regimen_check(trim(input.regimen_fiscal@))
    } else {
        codigo_postal_check(trim(input.codigo_postal@))
    }
}

pub fn validate_cliente_datos_fiscales(input: &ClienteDatosFiscales) -> (r: Result<(), AppError>)
    ensures
        validation_outcome(r, cliente_datos_fiscales_check(*input)),
{
    if is_blank_str(input.cliente_id.as_str()) || is_blank_str(input.rfc.as_str()) || is_blank_str(
        input.razon_social.as_str(),
    ) || is_blank_str(input.regimen_fiscal.as_str()) || is_blank_str(input.codigo_postal.as_str()) {
        return Err(validation("Completa todos los datos fiscales del cliente."));
    }
    let rfc = normalize_upper_trim(input.rfc.as_str());
    validate_rfc_sat(rfc.as_str())?;
    let regimen = trim_str(input.regimen_fiscal.as_str());
    validate_regimen_fiscal_sat(regimen.as_str())?;
    let cp = trim_str(input.codigo_postal.as_str());
    validate_codigo_postal_sat(cp.as_str())?;
    Ok(())
}

pub open spec fn empresa_config_fiscal_check(input: EmpresaConfigFiscal) -> Option<Seq<char>> {
    if is_blank(input.rfc@) || is_blank(input.razon_social@) || is_blank(input.regimen_fiscal@)
        || is_blank(input.actualizado_at@) {
        Some(
            "RFC, razón social, régimen fiscal y fecha de actualización son obligatorios."@,
        )
    } else if rfc_check(unicode_upper(trim(input.rfc@))) is Some {
        rfc_check(unicode_upper(trim(input.rfc@)))
    } else {
        regimen_check(trim(input.regimen_fiscal@))
    }
}

pub fn validate_empresa_config_fiscal(input: &EmpresaConfigFiscal) -> (r: Result<(), AppError>)
    ensures
        validation_outcome(r, empresa_config_fiscal_check(*input)),
{
    if is_blank_str(input.rfc.as_str()) || is_blank_str(input.razon_social.as_str())
        || is_blank_str(input.regimen_fiscal.as_str()) || is_blank_str(
        input.actualizado_at.as_str(),
    ) {
        return Err(
            validation(
                "RFC, razón social, régimen fiscal y fecha de actualización son obligatorios.",
            ),
        );
    }
    let rfc = normalize_upper_trim(input.rfc.as_str());
    validate_rfc_sat(rfc.as_str())?;
    let regimen = trim_str(input.regimen_fiscal.as_str());
    validate_regimen_fiscal_sat(regimen.as_str())?;
    Ok(())
}

pub open spec fn sat_concept_check(clave_prod_serv: Seq<char>, clave_unidad: Seq<char>, descripcion: Seq<char>) -> Option<Seq<char>> {
    let ps = trim(clave_prod_serv);
    let cu = trim(clave_unidad);
    if byte_len(ps) != 8 || !all_digits(ps) {
        Some(
            "El producto '"@ + descripcion
                + "' debe tener Clave Producto/Servicio SAT de 8 digitos."@,
        )
    } else if byte_len(cu) != 3 {
        Some(
            "El producto '"@ + descripcion
                + "' debe tener Clave Unidad SAT de exactamente 3 caracteres."@,
        )
    } else {
        None
    }
}

/// The SAT keys of an invoiced product: an 8-digit product/service key and a
/// 3-byte unit key.
pub fn validate_sat_concept_keys(clave_prod_serv: &str, clave_unidad: &str, descripcion: &str) -> (r: Result<(), String>)
    ensures
        crate::error::command_outcome(
            r,
            sat_concept_check(clave_prod_serv@, clave_unidad@, descripcion@),
        ),
{
    let ps = trim_str(clave_prod_serv);
    let cu = trim_str(clave_unidad);
    if byte_len_capped(ps.as_str(), 9) != 8 || !all_digits_str(ps.as_str()) {
        let mut m = concat2("El producto '", descripcion);
        push_str(&mut m, "' debe tener Clave Producto/Servicio SAT de 8 digitos.");
        return Err(m);
    }
    if byte_len_capped(cu.as_str(), 4) != 3 {
        let mut m = concat2("El producto '", descripcion);
        push_str(&mut m, "' debe tener Clave Unidad SAT de exactamente 3 caracteres.");
        return Err(m);
    }
    Ok(())
}

// ---------------------------------------------------------------------------
// People, branches and catalogues
// ---------------------------------------------------------------------------

pub open spec fn usuario_check(u: Usuario, require_admin_role: bool) -> Option<Seq<char>> {
    if is_blank(u.id@) {
        Some("El usuario necesita un identificador interno."@)
    } else if is_blank(u.nombre@) {
        Some("El usuario necesita nombre."@)
    } else if is_blank(u.email@) {
        Some("El usuario necesita correo electrónico."@)
    } else if !valid_role(u.role@) {
        Some("El rol del usuario no es válido."@)
    } else if require_admin_role && u.role@ != "SUPERADMIN"@ && u.role@ != "ADMIN"@ {
        Some("El primer usuario debe ser Administrador o Super Administrador."@)
    } else if is_blank(u.sucursal_id@) {
        Some("El usuario debe estar asociado a una sucursal."@)
    } else {
        None
    }
}

pub fn validate_usuario(usuario: &Usuario, require_admin_role: bool) -> (r: Result<(), AppError>)
    ensures
        validation_outcome(r, usuario_check(*usuario, require_admin_role)),
{
    if is_blank_str(usuario.id.as_str()) {
        return Err(validation("El usuario necesita un identificador interno."));
    }
    if is_blank_str(usuario.nombre.as_str()) {
        return Err(validation("El usuario necesita nombre."));
    }
    if is_blank_str(usuario.email.as_str()) {
        return Err(validation("El usuario necesita correo electrónico."));
    }
    if !is_valid_role(usuario.role.as_str()) {
        return Err(validation("El rol del usuario no es válido."));
    }
    if require_admin_role && !crate::text::str_eq(usuario.role.as_str(), "SUPERADMIN")
        && !crate::text::str_eq(usuario.role.as_str(), "ADMIN") {
        return Err(validation("El primer usuario debe ser Administrador o Super Administrador."));
    }
    if is_blank_str(usuario.sucursal_id.as_str()) {
        return Err(validation("El usuario debe estar asociado a una sucursal."));
    }
    Ok(())
}

pub open spec fn perfil_check(p: PerfilUpdate) -> Option<Seq<char>> {
    if is_blank(p.nombres@) {
        Some("Ingresa tus nombres."@)
    } else if is_blank(p.apellido_paterno@) {
        Some("Ingresa tu apellido paterno."@)
    } else if is_blank(p.email@) {
        Some("Ingresa tu correo electrónico."@)
    } else if is_blank(p.password_actual@) {
        Some("Ingresa tu contraseña actual para guardar cambios."@)
    } else if p.nueva_password matches Some(n) && !is_blank(n@) && byte_len(trim(n@)) < 4 {
        Some("La nueva contraseña debe tener al menos 4 caracteres."@)
    } else {
        None
    }
}

pub fn validate_perfil_update(perfil: &PerfilUpdate) -> (r: Result<(), AppError>)
    ensures
        validation_outcome(r, perfil_check(*perfil)),
{
    if is_blank_str(perfil.nombres.as_str()) {
        return Err(validation("Ingresa tus nombres."));
    }
    if is_blank_str(perfil.apellido_paterno.as_str()) {
        return Err(validation("Ingresa tu apellido paterno."));
    }
    if is_blank_str(perfil.email.as_str()) {
        return Err(validation("Ingresa tu correo electrónico."));
    }
    if is_blank_str(perfil.password_actual.as_str()) {
        return Err(validation("Ingresa tu contraseña actual para guardar cambios."));
    }
    if let Some(nueva_password) = &perfil.nueva_password {
        let t = trim_str(nueva_password.as_str());
        if !is_blank_str(nueva_password.as_str()) && byte_len_capped(t.as_str(), 4) < 4 {
            return Err(validation("La nueva contraseña debe tener al menos 4 caracteres."));
        }
    }
    Ok(())
}

pub open spec fn sucursal_check(s: Sucursal) -> Option<Seq<char>> {
    if is_blank(s.id@) {
        Some("La sucursal necesita un identificador interno."@)
    } else if is_blank(s.nombre@) {
        Some("La sucursal necesita nombre."@)
    } else if is_blank(s.direccion@) {
        Some("La sucursal necesita dirección."@)
    } else if !is_blank(s.codigo_postal@) && byte_len(trim(s.codigo_postal@)) != 5 {
        Some("El código postal de la sucursal debe tener 5 dígitos."@)
    } else {
        None
    }
}

pub fn validate_sucursal(sucursal: &Sucursal) -> (r: Result<(), AppError>)
    ensures
        validation_outcome(r, sucursal_check(*sucursal)),
{
    if is_blank_str(sucursal.id.as_str()) {
        return Err(validation("La sucursal necesita un identificador interno."));
    }
    if is_blank_str(sucursal.nombre.as_str()) {
        return Err(validation("La sucursal necesita nombre."));
    }
    if is_blank_str(sucursal.direccion.as_str()) {
        return Err(validation("La sucursal necesita dirección."));
    }
    let cp = trim_str(sucursal.codigo_postal.as_str());
    if !is_blank_str(sucursal.codigo_postal.as_str()) && byte_len_capped(cp.as_str(), 6) != 5 {
        return Err(validation("El código postal de la sucursal debe tener 5 dígitos."));
    }
    Ok(())
}

/// The id and name of a catalogue entry must not be blank.
pub open spec fn id_name_check(id: Seq<char>, nombre: Seq<char>, id_msg: Seq<char>, name_msg: Seq<char>) -> Option<Seq<char>> {
    if is_blank(id) {
        Some(id_msg)
    } else if is_blank(nombre) {
        Some(name_msg)
    } else {
        None
    }
}

fn check_id_name(id: &str, nombre: &str, id_msg: &str, name_msg: &str) -> (r: Result<(), AppError>)
    ensures
        validation_outcome(r, id_name_check(id@, nombre@, id_msg@, name_msg@)),
{
    if is_blank_str(id) {
        return Err(validation(id_msg));
    }
    if is_blank_str(nombre) {
        return Err(validation(name_msg));
    }
    Ok(())
}

pub fn validate_proveedor(proveedor: &Proveedor) -> (r: Result<(), AppError>)
    ensures
        validation_outcome(
            r,
            id_name_check(
                proveedor.id@,
                proveedor.nombre@,
                "El proveedor necesita identificador interno."@,
                "El proveedor necesita nombre."@,
            ),
        ),
{
    check_id_name(
        proveedor.id.as_str(),
        proveedor.nombre.as_str(),
        "El proveedor necesita identificador interno.",
        "El proveedor necesita nombre.",
    )
}

pub fn validate_marca(marca: &Marca) -> (r: Result<(), AppError>)
    ensures
        validation_outcome(
            r,
            id_name_check(
                marca.id@,
                marca.nombre@,
                "La marca necesita identificador interno."@,
                "La marca necesita nombre."@,
            ),
        ),
{
    check_id_name(
        marca.id.as_str(),
        marca.nombre.as_str(),
        "La marca necesita identificador interno.",
        "La marca necesita nombre.",
    )
}

pub fn validate_categoria(categoria: &Categoria) -> (r: Result<(), AppError>)
    ensures
        validation_outcome(
            r,
            id_name_check(
                categoria.id@,
                categoria.nombre@,
                "La categoría necesita identificador interno."@,
                "La categoría necesita nombre."@,
            ),
        ),
{
    check_id_name(
        categoria.id.as_str(),
        categoria.nombre.as_str(),
        "La categoría necesita identificador interno.",
        "La categoría necesita nombre.",
    )
}

pub open spec fn unidad_check(u: UnidadMedida) -> Option<Seq<char>> {
    if is_blank(u.id@) {
        Some("La unidad necesita identificador interno."@)
    } else if is_blank(u.nombre@) {
        Some("La unidad necesita nombre."@)
    } else if !is_blank(u.clave_sat@) && unicode_upper(trim(u.clave_sat@)).len() != 3 {
        Some("La Clave de Unidad SAT debe tener exactamente 3 caracteres (Ej: H87)."@)
    } else {
        None
    }
}

pub fn validate_unidad(unidad: &UnidadMedida) -> (r: Result<(), AppError>)
    ensures
        validation_outcome(r, unidad_check(*unidad)),
{
    check_id_name(
        unidad.id.as_str(),
        unidad.nombre.as_str(),
        "La unidad necesita identificador interno.",
        "La unidad necesita nombre.",
    )?;
    if !is_blank_str(unidad.clave_sat.as_str()) {
        let clave = normalize_upper_trim(unidad.clave_sat.as_str());
        validate_exact_len(
            clave.as_str(),
            3,
            "La Clave de Unidad SAT debe tener exactamente 3 caracteres (Ej: H87).",
        )?;
    }
    Ok(())
}


/// The printers chosen for tickets and labels, trimmed.
pub fn normalizar_perifericos(config: &PerifericosConfigInput) -> (r: PerifericosConfigInput)
    ensures
        r.impresora_tickets@ == trim(config.impresora_tickets@),
        r.impresora_etiquetas@ == trim(config.impresora_etiquetas@),
{
    PerifericosConfigInput {
        impresora_tickets: trim_str(config.impresora_tickets.as_str()),
        impresora_etiquetas: trim_str(config.impresora_etiquetas.as_str()),
    }
}

} // verus!
