use ferre_pos::error::{map_write_error, to_command_error, AppError};
use ferre_pos::model::{
    Categoria, ClienteDatosFiscales, EmpresaConfigFiscal, Marca, PerfilUpdate, Proveedor, Sucursal,
    UnidadMedida, Usuario,
};
use ferre_pos::validate::{
    byte_len_capped, validate_categoria, validate_cliente_datos_fiscales, validate_codigo_postal_sat,
    validate_digits_exact, validate_empresa_config_fiscal, validate_exact_len, validate_marca,
    validate_perfil_update, validate_proveedor, validate_regimen_fiscal_sat, validate_rfc_sat,
    validate_sat_concept_keys, validate_sucursal, validate_unidad, validate_usuario,
    validate_uuid_sat_like,
};

fn msg(r: Result<(), AppError>) -> String {
    match r {
        Ok(()) => String::from("OK"),
        Err(AppError::Validation(m)) => m,
        Err(other) => panic!("unexpected error kind: {other:?}"),
    }
}

fn usuario(id: &str, nombre: &str, email: &str, role: &str, sucursal: &str) -> Usuario {
    Usuario {
        id: id.to_string(),
        email: email.to_string(),
        nombre: nombre.to_string(),
        role: role.to_string(),
        sucursal_id: sucursal.to_string(),
    }
}

#[test]
fn error_messages_carry_their_prefix() {
    assert_eq!(to_command_error(AppError::Db(String::from("x"))), "Error de base de datos: x");
    assert_eq!(
        to_command_error(AppError::Pool(String::from("y"))),
        "No se pudo obtener conexión a la base de datos: y"
    );
    assert_eq!(to_command_error(AppError::Auth(String::from("z"))), "z");
    assert_eq!(to_command_error(AppError::Conflict(String::from("c"))), "c");
    assert_eq!(
        to_command_error(AppError::Crypto(String::from("k"))),
        "Error de seguridad al procesar contraseña: k"
    );
}

#[test]
fn write_errors_become_conflicts() {
    let e = map_write_error(Some("UNIQUE constraint failed: marcas.nombre"), "marca", AppError::Db(String::from("x")));
    assert!(matches!(e, AppError::Conflict(ref m) if m == "Ya existe un registro de marca con esos datos."));
    let e = map_write_error(Some("FOREIGN KEY constraint failed"), "usuario", AppError::Db(String::from("x")));
    assert!(matches!(e, AppError::Conflict(ref m) if m == "La operación viola la relación entre sucursales y usuarios."));
    let e = map_write_error(Some("disk I/O error"), "usuario", AppError::Db(String::from("disk I/O error")));
    assert!(matches!(e, AppError::Db(ref m) if m == "disk I/O error"));
    let e = map_write_error(None, "usuario", AppError::Auth(String::from("a")));
    assert!(matches!(e, AppError::Auth(_)));
}

#[test]
fn usuario_checks_in_order() {
    assert_eq!(msg(validate_usuario(&usuario("u1", "Ana", "a@b.mx", "ADMIN", "S1"), true)), "OK");
    assert_eq!(msg(validate_usuario(&usuario(" ", "Ana", "a@b.mx", "ADMIN", "S1"), false)), "El usuario necesita un identificador interno.");
    assert_eq!(msg(validate_usuario(&usuario("u1", "", "a@b.mx", "ADMIN", "S1"), false)), "El usuario necesita nombre.");
    assert_eq!(msg(validate_usuario(&usuario("u1", "Ana", " ", "ADMIN", "S1"), false)), "El usuario necesita correo electrónico.");
    assert_eq!(msg(validate_usuario(&usuario("u1", "Ana", "a@b.mx", "admin", "S1"), false)), "El rol del usuario no es válido.");
    assert_eq!(
        msg(validate_usuario(&usuario("u1", "Ana", "a@b.mx", "USUARIO", "S1"), true)),
        "El primer usuario debe ser Administrador o Super Administrador."
    );
    assert_eq!(msg(validate_usuario(&usuario("u1", "Ana", "a@b.mx", "USUARIO", "S1"), false)), "OK");
    assert_eq!(msg(validate_usuario(&usuario("u1", "Ana", "a@b.mx", "USUARIO", ""), false)), "El usuario debe estar asociado a una sucursal.");
}

fn perfil(n: &str, ap: &str, e: &str, p: &str, nueva: Option<&str>) -> PerfilUpdate {
    PerfilUpdate {
        nombres: n.to_string(),
        apellido_paterno: ap.to_string(),
        apellido_materno: String::new(),
        email: e.to_string(),
        password_actual: p.to_string(),
        nueva_password: nueva.map(|s| s.to_string()),
    }
}

#[test]
fn perfil_checks() {
    assert_eq!(msg(validate_perfil_update(&perfil("Ana", "P", "a@b", "1234", None))), "OK");
    assert_eq!(msg(validate_perfil_update(&perfil("", "P", "a@b", "1234", None))), "Ingresa tus nombres.");
    assert_eq!(msg(validate_perfil_update(&perfil("A", "", "a@b", "1234", None))), "Ingresa tu apellido paterno.");
    assert_eq!(msg(validate_perfil_update(&perfil("A", "P", "", "1234", None))), "Ingresa tu correo electrónico.");
    assert_eq!(msg(validate_perfil_update(&perfil("A", "P", "e", " ", None))), "Ingresa tu contraseña actual para guardar cambios.");
    assert_eq!(
        msg(validate_perfil_update(&perfil("A", "P", "e", "x", Some(" abc ")))),
        "La nueva contraseña debe tener al menos 4 caracteres."
    );
    // Length counts UTF-8 bytes: two accented letters already make four.
    assert_eq!(msg(validate_perfil_update(&perfil("A", "P", "e", "x", Some("ññ")))), "OK");
    assert_eq!(msg(validate_perfil_update(&perfil("A", "P", "e", "x", Some("   ")))), "OK");
}

fn sucursal(id: &str, nombre: &str, dir: &str, cp: &str) -> Sucursal {
    Sucursal { id: id.into(), nombre: nombre.into(), direccion: dir.into(), telefono: String::new(), codigo_postal: cp.into() }
}

#[test]
fn sucursal_checks() {
    assert_eq!(msg(validate_sucursal(&sucursal("s", "Centro", "Av 1", "06000"))), "OK");
    assert_eq!(msg(validate_sucursal(&sucursal("s", "Centro", "Av 1", ""))), "OK");
    assert_eq!(msg(validate_sucursal(&sucursal("", "Centro", "Av 1", ""))), "La sucursal necesita un identificador interno.");
    assert_eq!(msg(validate_sucursal(&sucursal("s", "", "Av 1", ""))), "La sucursal necesita nombre.");
    assert_eq!(msg(validate_sucursal(&sucursal("s", "C", " ", ""))), "La sucursal necesita dirección.");
    assert_eq!(msg(validate_sucursal(&sucursal("s", "C", "D", "0600"))), "El código postal de la sucursal debe tener 5 dígitos.");
}

#[test]
fn catalogue_checks() {
    let p = Proveedor { id: "p".into(), nombre: "".into(), contacto_nombre: String::new(), telefono: String::new(), email: String::new(), direccion: String::new() };
    assert_eq!(msg(validate_proveedor(&p)), "El proveedor necesita nombre.");
    let p = Proveedor { id: " ".into(), nombre: "X".into(), ..p };
    assert_eq!(msg(validate_proveedor(&p)), "El proveedor necesita identificador interno.");
    assert_eq!(msg(validate_marca(&Marca { id: "m".into(), nombre: "Truper".into() })), "OK");
    assert_eq!(msg(validate_marca(&Marca { id: "".into(), nombre: "Truper".into() })), "La marca necesita identificador interno.");
    assert_eq!(msg(validate_categoria(&Categoria { id: "c".into(), nombre: " ".into() })), "La categoría necesita nombre.");
    let u = |id: &str, n: &str, c: &str| UnidadMedida { id: id.into(), nombre: n.into(), clave_sat: c.into() };
    assert_eq!(msg(validate_unidad(&u("u", "Pieza", " h87 "))), "OK");
    assert_eq!(msg(validate_unidad(&u("u", "Pieza", ""))), "OK");
    assert_eq!(msg(validate_unidad(&u("u", "Pieza", "H8"))), "La Clave de Unidad SAT debe tener exactamente 3 caracteres (Ej: H87).");
    assert_eq!(msg(validate_unidad(&u("", "Pieza", "H87"))), "La unidad necesita identificador interno.");
    assert_eq!(msg(validate_unidad(&u("u", "", "H87"))), "La unidad necesita nombre.");
}

#[test]
fn tax_identifier_checks() {
    assert_eq!(msg(validate_exact_len("abc", 3, "m")), "OK");
    assert_eq!(msg(validate_exact_len("ñbc", 3, "m")), "OK");
    assert_eq!(msg(validate_exact_len("ab", 3, "m")), "m");
    assert_eq!(msg(validate_digits_exact("123", 3, "d")), "OK");
    assert_eq!(msg(validate_digits_exact("12a", 3, "d")), "d");
    assert_eq!(msg(validate_rfc_sat("XAXX010101000")), "OK");
    assert_eq!(msg(validate_rfc_sat("ABC010101AB")), "El RFC debe tener entre 12 y 13 caracteres.");
    assert_eq!(msg(validate_regimen_fiscal_sat("601")), "OK");
    assert_eq!(msg(validate_regimen_fiscal_sat("60A")), "El Régimen Fiscal debe tener exactamente 3 dígitos.");
    assert_eq!(msg(validate_codigo_postal_sat("06000")), "OK");
    assert_eq!(msg(validate_codigo_postal_sat("6000")), "El Código Postal fiscal debe tener exactamente 5 dígitos.");
}

#[test]
fn invoice_uuid_checks() {
    assert_eq!(msg(validate_uuid_sat_like(" 6F9619FF-8B86-D011-B42D-00CF4FC964FF ")), "OK");
    assert_eq!(msg(validate_uuid_sat_like("short")), "El UUID de la factura no tiene una longitud válida.");
    assert_eq!(msg(validate_uuid_sat_like(&"a".repeat(65))), "El UUID de la factura no tiene una longitud válida.");
    assert_eq!(msg(validate_uuid_sat_like(&"a".repeat(64))), "OK");
    assert_eq!(msg(validate_uuid_sat_like("1234567890_abc")), "El UUID de la factura contiene caracteres inválidos.");
    assert_eq!(byte_len_capped("ñandú", 100), 7);
    assert_eq!(byte_len_capped("abcdef", 4), 4);
    assert_eq!(byte_len_capped("abcdef", 0), 0);
    assert_eq!(byte_len_capped("ñandú", usize::MAX), 7);
    assert_eq!(byte_len_capped("ñandú", 6), 6);
}

#[test]
fn customer_and_company_tax_data() {
    let d = |c: &str, rfc: &str, rs: &str, rf: &str, cp: &str| ClienteDatosFiscales {
        cliente_id: c.into(), rfc: rfc.into(), razon_social: rs.into(), regimen_fiscal: rf.into(), codigo_postal: cp.into(),
    };
    assert_eq!(msg(validate_cliente_datos_fiscales(&d("c1", " xaxx010101000 ", "Público", " 616 ", " 06000 "))), "OK");
    assert_eq!(msg(validate_cliente_datos_fiscales(&d("c1", "", "R", "616", "06000"))), "Completa todos los datos fiscales del cliente.");
    assert_eq!(msg(validate_cliente_datos_fiscales(&d("c1", "ABC", "R", "616", "06000"))), "El RFC debe tener entre 12 y 13 caracteres.");
    assert_eq!(msg(validate_cliente_datos_fiscales(&d("c1", "XAXX010101000", "R", "6160", "06000"))), "El Régimen Fiscal debe tener exactamente 3 dígitos.");
    assert_eq!(msg(validate_cliente_datos_fiscales(&d("c1", "XAXX010101000", "R", "616", "0600A"))), "El Código Postal fiscal debe tener exactamente 5 dígitos.");
    let e = |rfc: &str, rf: &str, at: &str| EmpresaConfigFiscal {
        rfc: rfc.into(), razon_social: "Ferre".into(), regimen_fiscal: rf.into(), registro_patronal: None, actualizado_at: at.into(),
    };
    assert_eq!(msg(validate_empresa_config_fiscal(&e("AAA010101AAA", "601", "2024-01-01"))), "OK");
    assert_eq!(msg(validate_empresa_config_fiscal(&e("AAA010101AAA", "601", ""))), "RFC, razón social, régimen fiscal y fecha de actualización son obligatorios.");
    assert_eq!(msg(validate_empresa_config_fiscal(&e("AAA", "601", "x"))), "El RFC debe tener entre 12 y 13 caracteres.");
    assert_eq!(msg(validate_empresa_config_fiscal(&e("AAA010101AAA", "6x1", "x"))), "El Régimen Fiscal debe tener exactamente 3 dígitos.");
}

#[test]
fn invoice_concept_keys_block_invoicing() {
    assert_eq!(validate_sat_concept_keys(" 27111700 ", "H87", "Martillo"), Ok(()));
    assert_eq!(
        validate_sat_concept_keys("2711170", "H87", "Martillo"),
        Err(String::from("El producto 'Martillo' debe tener Clave Producto/Servicio SAT de 8 digitos."))
    );
    assert_eq!(
        validate_sat_concept_keys("2711170A", "H87", "M"),
        Err(String::from("El producto 'M' debe tener Clave Producto/Servicio SAT de 8 digitos."))
    );
    assert_eq!(
        validate_sat_concept_keys("27111700", "H8", "M"),
        Err(String::from("El producto 'M' debe tener Clave Unidad SAT de exactamente 3 caracteres."))
    );
}
