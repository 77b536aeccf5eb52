//! User accounts and sessions: signing in, the first set-up, new users and
//! the user's own profile.
use vstd::prelude::*;
use crate::error::{app_error_text, command_outcome, to_command_error, AppError};
use crate::model::{PerfilUpdate, Sucursal, Usuario};
use crate::normalize::{build_full_name, full_name, normalize_email};
use crate::password::{
    bcrypt_like, bcrypt_verify_result, hashed_at_usual_cost, verify_password_and_migrate, PasswordCheck,
};
use crate::text::{
    is_blank, is_blank_str, opt_seq, str_eq, to_owned_string, trim, trim_str, unicode_lower,
};
use crate::validate::{sucursal_check, usuario_check, validate_sucursal, validate_usuario};

verus! {

/// What a password check means to the caller: refused with the given
/// message when bcrypt failed or the password does not match; accepted
/// otherwise, with the hash that must replace a plain-text record.
pub fn resultado_verificacion(check: Result<PasswordCheck, AppError>, mensaje: &str) -> (r: Result<Option<String>, String>)
    ensures
        match check {
            Err(_) => r matches Err(m) && m@ == mensaje@,
            Ok(PasswordCheck::Rejected) => r matches Err(m) && m@ == mensaje@,
            Ok(PasswordCheck::Accepted) => r matches Ok(None),
            Ok(PasswordCheck::AcceptedWithNewHash(h)) => r matches Ok(Some(x)) && x@ == h@,
        },
{
    match check {
        Err(_) => Err(to_owned_string(mensaje)),
        Ok(PasswordCheck::Rejected) => Err(to_owned_string(mensaje)),
        Ok(PasswordCheck::Accepted) => Ok(None),
        Ok(PasswordCheck::AcceptedWithNewHash(h)) => Ok(Some(h)),
    }
}

/// The user who signs in, with the hash that must replace a password still
/// stored in plain text. `registro` is the active user found under the
/// e-mail, with the stored password; every refusal gives the same message.
pub fn autenticar(registro: Option<(Usuario, String)>, clave: &str) -> (r: Result<(Usuario, Option<String>), String>)
    ensures
        registro is None ==> (r matches Err(m) && m@ == "Credenciales inválidas o usuario no encontrado."@),
        registro matches Some((u, stored)) ==> {
            &&& bcrypt_like(stored@) ==> (match bcrypt_verify_result(clave@, stored@) {
                Some(true) => r matches Ok((v, None)) && v == u,
                _ => r matches Err(m) && m@ == "Credenciales inválidas o usuario no encontrado."@,
            })
            &&& !bcrypt_like(stored@) && stored@ != clave@ ==> (r matches Err(m) && m@
                == "Credenciales inválidas o usuario no encontrado."@)
            &&& !bcrypt_like(stored@) && stored@ == clave@ ==> ((r matches Ok((v, Some(h))) && v == u
                && bcrypt_like(h@) && hashed_at_usual_cost(h@) && bcrypt_verify_result(clave@, h@) == Some(true)) || (r matches Err(m) && m@
                == "Credenciales inválidas o usuario no encontrado."@))
        },
{
    match registro {
        None => Err(to_owned_string("Credenciales inválidas o usuario no encontrado.")),
        Some((usuario, stored)) => {
            let check = verify_password_and_migrate(clave, stored.as_str());
            match resultado_verificacion(check, "Credenciales inválidas o usuario no encontrado.") {
                Ok(nuevo_hash) => Ok((usuario, nuevo_hash)),
                Err(m) => Err(m),
            }
        },
    }
}

/// No one signs out while their cash register is open.
pub fn check_cierre_sesion(cajas_abiertas: i64) -> (r: Result<(), String>)
    ensures
        command_outcome(
            r,
            if cajas_abiertas > 0 {
                Some(
                    "No puedes cerrar sesión mientras tu caja esté ABIERTA. Realiza el corte de caja primero."@,
                )
            } else {
                None
            },
        ),
{
    if cajas_abiertas > 0 {
        return Err(
            to_owned_string(
                "No puedes cerrar sesión mientras tu caja esté ABIERTA. Realiza el corte de caja primero.",
            ),
        );
    }
    Ok(())
}

/// What stops the first set-up: an invalid branch or first user, a blank
/// password, or a first user of another branch.
pub open spec fn configuracion_inicial_check(sucursal: Sucursal, usuario: Usuario, password: Seq<char>) -> Option<Seq<char>> {
    match sucursal_check(sucursal) {
        Some(m) => Some(m),
        None => match usuario_check(usuario, true) {
            Some(m) => Some(m),
            None => if is_blank(password) {
                Some("El primer usuario necesita contraseña."@)
            } else if usuario.sucursal_id@ != sucursal.id@ {
                Some("El usuario inicial debe estar asociado a la sucursal creada."@)
            } else {
                None
            },
        },
    }
}

pub fn validar_configuracion_inicial(sucursal: &Sucursal, usuario: &Usuario, password: &str) -> (r: Result<(), String>)
    ensures
        command_outcome(r, configuracion_inicial_check(*sucursal, *usuario, password@)),
{
    match validate_sucursal(sucursal) {
        Ok(()) => {},
        Err(e) => {
            return Err(to_command_error(e));
        },
    }
    match validate_usuario(usuario, true) {
        Ok(()) => {},
        Err(e) => {
            return Err(to_command_error(e));
        },
    }
    if is_blank_str(password) {
        return Err(to_owned_string("El primer usuario necesita contraseña."));
    }
    if !str_eq(usuario.sucursal_id.as_str(), sucursal.id.as_str()) {
        return Err(to_owned_string("El usuario inicial debe estar asociado a la sucursal creada."));
    }
    Ok(())
}

/// The first set-up runs only on a system without active users.
pub fn check_sistema_sin_usuarios(usuarios_activos: i64) -> (r: Result<(), String>)
    ensures
        command_outcome(
            r,
            if usuarios_activos > 0 {
                Some("El sistema ya tiene usuarios registrados."@)
            } else {
                None
            },
        ),
{
    if usuarios_activos > 0 {
        return Err(to_owned_string("El sistema ya tiene usuarios registrados."));
    }
    Ok(())
}

/// What stops a new user: invalid data or a blank password.
pub open spec fn alta_usuario_check(usuario: Usuario, password: Seq<char>) -> Option<Seq<char>> {
    match usuario_check(usuario, false) {
        Some(m) => Some(m),
        None => if is_blank(password) {
            Some("El usuario necesita contraseña."@)
        } else {
            None
        },
    }
}

pub fn validar_alta_usuario(usuario: &Usuario, password: &str) -> (r: Result<(), String>)
    ensures
        command_outcome(r, alta_usuario_check(*usuario, password@)),
{
    match validate_usuario(usuario, false) {
        Ok(()) => {},
        Err(e) => {
            return Err(to_command_error(e));
        },
    }
    if is_blank_str(password) {
        return Err(to_owned_string("El usuario necesita contraseña."));
    }
    Ok(())
}

/// An update must have found the user.
pub fn check_usuario_actualizado(filas_actualizadas: usize) -> (r: Result<(), String>)
    ensures
        command_outcome(
            r,
            if filas_actualizadas == 0 {
                Some("No se encontró el usuario que intentas actualizar."@)
            } else {
                None
            },
        ),
{
    if filas_actualizadas == 0 {
        return Err(to_owned_string("No se encontró el usuario que intentas actualizar."));
    }
    Ok(())
}

/// What the user's own profile is saved as: the full name from its parts,
/// the e-mail trimmed and lower-cased, and the new password, trimmed, when
/// one was typed.
pub struct PerfilPreparado {
    pub nombre: String,
    pub email: String,
    pub nueva_password: Option<String>,
}

pub fn preparar_perfil(perfil: &PerfilUpdate) -> (r: PerfilPreparado)
    ensures
        r.nombre@ == full_name(perfil.nombres@, perfil.apellido_paterno@, perfil.apellido_materno@),
        r.email@ == unicode_lower(trim(perfil.email@)),
        opt_seq(r.nueva_password) == match perfil.nueva_password {
            Some(p) => if trim(p@).len() > 0 {
                Some(trim(p@))
            } else {
                None
            },
            None => None,
        },
{
    let nombre = build_full_name(
        perfil.nombres.as_str(),
        perfil.apellido_paterno.as_str(),
        perfil.apellido_materno.as_str(),
    );
    let email = normalize_email(perfil.email.as_str());
    let nueva_password = match &perfil.nueva_password {
        Some(p) => {
            let t = trim_str(p.as_str());
            if t.as_str().is_empty() {
                None
            } else {
                Some(t)
            }
        },
        None => None,
    };
    PerfilPreparado { nombre, email, nueva_password }
}


/// The password of the user who authorises a cancellation: a failure of
/// bcrypt is reported as such, a wrong password as an invalid PIN; when it
/// is accepted, the hash that must replace a plain-text record comes back.
pub fn verificar_autorizador(check: Result<PasswordCheck, AppError>) -> (r: Result<Option<String>, String>)
    ensures
        match check {
            Err(e) => r matches Err(m) && m@ == app_error_text(e),
            Ok(PasswordCheck::Rejected) => r matches Err(m) && m@ == "Contraseña/PIN de autorización inválido."@,
            Ok(PasswordCheck::Accepted) => r matches Ok(None),
            Ok(PasswordCheck::AcceptedWithNewHash(h)) => r matches Ok(Some(x)) && x@ == h@,
        },
{
    match check {
        Err(e) => Err(to_command_error(e)),
        Ok(PasswordCheck::Rejected) => Err(to_owned_string("Contraseña/PIN de autorización inválido.")),
        Ok(PasswordCheck::Accepted) => Ok(None),
        Ok(PasswordCheck::AcceptedWithNewHash(h)) => Ok(Some(h)),
    }
}


/// The user of the current session, which must exist.
pub fn sesion_activa(sesion: Option<Usuario>) -> (r: Result<Usuario, String>)
    ensures
        sesion is None ==> (r matches Err(m) && m@ == "No hay una sesión activa."@),
        sesion matches Some(u) ==> r == Ok::<Usuario, String>(u),
{
    match sesion {
        Some(u) => Ok(u),
        None => Err(to_owned_string("No hay una sesión activa.")),
    }
}

} // verus!
