//! The library's error type and its user-facing messages.
use vstd::prelude::*;
use crate::text::{concat2, contains_str, has_infix, push_str, to_owned_string};

verus! {

/// Errors of the back office, each with the message shown to the user.
#[derive(Debug)]
pub enum AppError {
    Db(String),
    Pool(String),
    Auth(String),
    Validation(String),
    Conflict(String),
    Crypto(String),
}

/// The text a user sees for an error.
pub open spec fn app_error_text(e: AppError) -> Seq<char> {
    match e {
        AppError::Db(m) => "Error de base de datos: "@ + m@,
        AppError::Pool(m) => "No se pudo obtener conexión a la base de datos: "@ + m@,
        AppError::Auth(m) => m@,
        AppError::Validation(m) => m@,
        AppError::Conflict(m) => m@,
        AppError::Crypto(m) => "Error de seguridad al procesar contraseña: "@ + m@,
    }
}

/// The error is a validation error with the given message.
pub open spec fn is_validation(e: AppError, msg: Seq<char>) -> bool {
    e matches AppError::Validation(m) && m@ == msg
}

/// A unit result that is `Ok` when no message is expected and otherwise a
/// validation error with that message.
pub open spec fn validation_outcome(r: Result<(), AppError>, expected: Option<Seq<char>>) -> bool {
    match expected {
        None => r is Ok,
        Some(msg) => r matches Err(e) && is_validation(e, msg),
    }
}

/// A unit result of a permission check: `Ok` when no message is expected,
/// otherwise that message.
pub open spec fn command_outcome(r: Result<(), String>, expected: Option<Seq<char>>) -> bool {
    match expected {
        None => r is Ok,
        Some(msg) => r matches Err(e) && e@ == msg,
    }
}

impl AppError {
    /// The message shown to the user.
    pub fn message(&self) -> (r: String)
        ensures
            r@ == app_error_text(*self),
    {
        match self {
            AppError::Db(m) => concat2("Error de base de datos: ", m.as_str()),
            AppError::Pool(m) => concat2(
                "No se pudo obtener conexión a la base de datos: ",
                m.as_str(),
            ),
            AppError::Auth(m) => to_owned_string(m.as_str()),
            AppError::Validation(m) => to_owned_string(m.as_str()),
            AppError::Conflict(m) => to_owned_string(m.as_str()),
            AppError::Crypto(m) => concat2(
                "Error de seguridad al procesar contraseña: ",
                m.as_str(),
            ),
        }
    }
}

/// A validation error carrying the given message.
pub fn validation(msg: &str) -> (e: AppError)
    ensures
        is_validation(e, msg@),
{
    AppError::Validation(to_owned_string(msg))
}

/// The message handed back to the user interface for an error.
pub fn to_command_error(error: AppError) -> (r: String)
    ensures
        r@ == app_error_text(error),
{
    error.message()
}

/// What a failed write becomes: a unique-key violation or a broken relation
/// is a conflict, anything else stays as it was.
pub open spec fn write_error(failure_message: Option<Seq<char>>, entity: Seq<char>, otherwise: AppError) -> Seq<char> {
    match failure_message {
        Some(m) => if has_infix(m, "UNIQUE"@) {
            "Ya existe un registro de "@ + entity + " con esos datos."@
        } else if has_infix(m, "FOREIGN KEY"@) {
            "La operación viola la relación entre sucursales y usuarios."@
        } else {
            app_error_text(otherwise)
        },
        None => app_error_text(otherwise),
    }
}

/// Maps a failed insert or update. `failure_message` is the database's
/// message when the failure carried one; `otherwise` is the error that the
/// failure converts to in general.
pub fn map_write_error(failure_message: Option<&str>, entity: &str, otherwise: AppError) -> (r: AppError)
    ensures
        app_error_text(r) == write_error(
            match failure_message {
                Some(m) => Some(m@),
                None => None,
            },
            entity@,
            otherwise,
        ),
        failure_message matches Some(m) && (has_infix(m@, "UNIQUE"@) || has_infix(m@, "FOREIGN KEY"@)) ==> r is Conflict,
        !(failure_message matches Some(m) && (has_infix(m@, "UNIQUE"@) || has_infix(m@, "FOREIGN KEY"@))) ==> r == otherwise,
{
    match failure_message {
        Some(m) => {
            if contains_str(m, "UNIQUE") {
                let mut s = concat2("Ya existe un registro de ", entity);
                push_str(&mut s, " con esos datos.");
                AppError::Conflict(s)
            } else if contains_str(m, "FOREIGN KEY") {
                AppError::Conflict(
                    to_owned_string("La operación viola la relación entre sucursales y usuarios."),
                )
            } else {
                otherwise
            }
        },
        None => otherwise,
    }
}

} // verus!
