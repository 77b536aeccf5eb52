//! Roles and the permission rules that guard every operation.
use vstd::prelude::*;
use crate::model::Usuario;
use crate::text::{
    ascii_upper_seq, eq_ignore_ascii_case, str_eq, to_ascii_uppercase, to_owned_string,
};
use crate::error::command_outcome;

verus! {

/// The three roles of the system.
pub open spec fn valid_role(role: Seq<char>) -> bool {
    role == "SUPERADMIN"@ || role == "ADMIN"@ || role == "USUARIO"@
}

pub fn is_valid_role(role: &str) -> (r: bool)
    ensures
        r == valid_role(role@),
{
    str_eq(role, "SUPERADMIN") || str_eq(role, "ADMIN") || str_eq(role, "USUARIO")
}

/// The role names, upper-cased letter by letter, are their own upper case.
pub proof fn lemma_role_names_upper()
    ensures
        ascii_upper_seq("SUPERADMIN"@) == "SUPERADMIN"@,
        ascii_upper_seq("ADMIN"@) == "ADMIN"@,
{
    reveal_strlit("SUPERADMIN");
    reveal_strlit("ADMIN");
    assert(ascii_upper_seq("SUPERADMIN"@) =~= "SUPERADMIN"@);
    assert(ascii_upper_seq("ADMIN"@) =~= "ADMIN"@);
}

/// The role reads `SUPERADMIN`, ignoring ASCII case.
pub open spec fn superadmin_role(role: Seq<char>) -> bool {
    ascii_upper_seq(role) == "SUPERADMIN"@
}

/// The role reads `ADMIN` or `SUPERADMIN`, ignoring ASCII case.
pub open spec fn admin_role(role: Seq<char>) -> bool {
    ascii_upper_seq(role) == "ADMIN"@ || ascii_upper_seq(role) == "SUPERADMIN"@
}

pub fn is_superadmin(user: &Usuario) -> (r: bool)
    ensures
        r == superadmin_role(user.role@),
{
    proof {
        lemma_role_names_upper();
    }
    eq_ignore_ascii_case(user.role.as_str(), "SUPERADMIN")
}

pub fn is_admin_or_superadmin_role(role: &str) -> (r: bool)
    ensures
        r == admin_role(role@),
{
    let up = to_ascii_uppercase(role);
    str_eq(up.as_str(), "ADMIN") || str_eq(up.as_str(), "SUPERADMIN")
}

pub fn ensure_admin_or_superadmin(user: &Usuario) -> (r: Result<(), String>)
    ensures
        command_outcome(
            r,
            if admin_role(user.role@) {
                None
            } else {
                Some("No tienes permisos para realizar esta operación."@)
            },
        ),
{
    if is_admin_or_superadmin_role(user.role.as_str()) {
        Ok(())
    } else {
        Err(to_owned_string("No tienes permisos para realizar esta operación."))
    }
}

pub fn ensure_superadmin(user: &Usuario) -> (r: Result<(), String>)
    ensures
        command_outcome(
            r,
            if superadmin_role(user.role@) {
                None
            } else {
                Some("Esta operación requiere permisos de SUPERADMIN."@)
            },
        ),
{
    if is_superadmin(user) {
        Ok(())
    } else {
        Err(to_owned_string("Esta operación requiere permisos de SUPERADMIN."))
    }
}

/// The branch a read is limited to: what was asked for a superadmin,
/// the user's own branch for anyone else.
pub open spec fn read_scope(user: Usuario, requested: Option<Seq<char>>) -> Option<Seq<char>> {
    if superadmin_role(user.role@) {
        requested
    } else {
        Some(user.sucursal_id@)
    }
}

pub fn scoped_sucursal_for_read(user: &Usuario, requested_sucursal_id: Option<String>) -> (r: Option<String>)
    ensures
        crate::text::opt_seq(r) == read_scope(*user, crate::text::opt_seq(requested_sucursal_id)),
{
    if is_superadmin(user) {
        requested_sucursal_id
    } else {
        Some(user.sucursal_id.clone())
    }
}

pub fn ensure_can_read_sucursal(user: &Usuario, sucursal_id: &str) -> (r: Result<(), String>)
    ensures
        command_outcome(
            r,
            if superadmin_role(user.role@) || user.sucursal_id@ == sucursal_id@ {
                None
            } else {
                Some("No tienes permisos para consultar información de otra sucursal."@)
            },
        ),
{
    if is_superadmin(user) || str_eq(user.sucursal_id.as_str(), sucursal_id) {
        Ok(())
    } else {
        Err(to_owned_string("No tienes permisos para consultar información de otra sucursal."))
    }
}

/// The branches a promotion is saved for: those asked for by a superadmin,
/// only the actor's own branch otherwise.
pub open spec fn promotion_scope(actor: Usuario, requested: Seq<String>) -> Seq<Seq<char>> {
    if superadmin_role(actor.role@) {
        requested.map_values(|s: String| s@)
    } else {
        seq![actor.sucursal_id@]
    }
}

pub fn scoped_promocion_sucursales(actor: &Usuario, requested: &[String]) -> (r: Vec<String>)
    ensures
        r@.map_values(|s: String| s@) == promotion_scope(*actor, requested@),
{
    if is_superadmin(actor) {
        let mut out: Vec<String> = Vec::new();
        let mut i: usize = 0;
        while i < requested.len()
            invariant
                i <= requested@.len(),
                out@.len() == i,
                forall|k: int| 0 <= k < i ==> out@[k]@ == requested@[k]@,
            decreases requested@.len() - i,
        {
            let item = requested[i].clone();
            out.push(item);
            i = i + 1;
        }
        assert(out@.map_values(|s: String| s@) =~= requested@.map_values(|s: String| s@));
        out
    } else {
        let mut out: Vec<String> = Vec::new();
        out.push(actor.sucursal_id.clone());
        assert(out@.map_values(|s: String| s@) =~= seq![actor.sucursal_id@]);
        out
    }
}

/// The answer to an administrative change of users: `None` when allowed,
/// otherwise the reason.
///
/// `target` is the user being changed or removed, `nuevo` its new state (or
/// the user being created), and `active_superadmins` how many active
/// superadmins the system has.
pub open spec fn manage_usuario_decision(
    actor: Usuario,
    target: Option<Usuario>,
    nuevo: Option<Usuario>,
    active_superadmins: int,
) -> Option<Seq<char>> {
    if target matches Some(t) && actor.id@ == t.id@ {
        Some("Operación inválida: No puedes eliminar ni modificar tu propia cuenta."@)
    } else if nuevo matches Some(n) && !superadmin_role(actor.role@) && (n.role@ != "USUARIO"@
        || n.sucursal_id@ != actor.sucursal_id@) {
        Some(
            "Operación inválida: Un administrador solo puede crear o modificar usuarios de rol USUARIO en su propia sucursal."@,
        )
    } else if target matches Some(t) && t.role@ == "SUPERADMIN"@ && (match nuevo {
        Some(n) => n.role@ != "SUPERADMIN"@,
        None => true,
    }) && active_superadmins <= 1 {
        Some("Operación inválida: El sistema no puede quedarse sin un Superadmin activo."@)
    } else if !superadmin_role(actor.role@) && (target matches Some(t) && t.sucursal_id@
        != actor.sucursal_id@) {
        Some("Operación inválida: Solo puedes administrar usuarios de tu sucursal."@)
    } else if !superadmin_role(actor.role@) && (target matches Some(t) && t.role@ != "USUARIO"@) {
        Some("Operación inválida: Un administrador solo puede modificar usuarios operativos."@)
    } else if !superadmin_role(actor.role@) && target is None && nuevo is None {
        Some("Operación inválida: No se encontró el usuario indicado."@)
    } else {
        None
    }
}

pub open spec fn opt_user(u: Option<&Usuario>) -> Option<Usuario> {
    match u {
        Some(x) => Some(*x),
        None => None,
    }
}

/// Decides whether `actor` may create, change or remove a user.
pub fn ensure_can_manage_usuario(
    actor: &Usuario,
    target: Option<&Usuario>,
    nuevo_usuario: Option<&Usuario>,
    active_superadmins: i64,
) -> (r: Result<(), String>)
    ensures
        command_outcome(
            r,
            manage_usuario_decision(
                *actor,
                opt_user(target),
                opt_user(nuevo_usuario),
                active_superadmins as int,
            ),
        ),
{
    if let Some(target_user) = target {
        if str_eq(actor.id.as_str(), target_user.id.as_str()) {
            return Err(
                to_owned_string(
                    "Operación inválida: No puedes eliminar ni modificar tu propia cuenta.",
                ),
            );
        }
    }
    let actor_is_superadmin = is_superadmin(actor);
    if let Some(new_user) = nuevo_usuario {
        if !actor_is_superadmin {
            if !str_eq(new_user.role.as_str(), "USUARIO") || !str_eq(
                new_user.sucursal_id.as_str(),
                actor.sucursal_id.as_str(),
            ) {
                return Err(
                    to_owned_string(
                        "Operación inválida: Un administrador solo puede crear o modificar usuarios de rol USUARIO en su propia sucursal.",
                    ),
                );
            }
        }
        if let Some(target_user) = target {
            if str_eq(target_user.role.as_str(), "SUPERADMIN") && !str_eq(
                new_user.role.as_str(),
                "SUPERADMIN",
            ) && active_superadmins <= 1 {
                return Err(
                    to_owned_string(
                        "Operación inválida: El sistema no puede quedarse sin un Superadmin activo.",
                    ),
                );
            }
        }
    } else if let Some(target_user) = target {
        if str_eq(target_user.role.as_str(), "SUPERADMIN") && active_superadmins <= 1 {
            return Err(
                to_owned_string(
                    "Operación inválida: El sistema no puede quedarse sin un Superadmin activo.",
                ),
            );
        }
    }
    if !actor_is_superadmin {
        if let Some(target_user) = target {
            if !str_eq(target_user.sucursal_id.as_str(), actor.sucursal_id.as_str()) {
                return Err(
                    to_owned_string(
                        "Operación inválida: Solo puedes administrar usuarios de tu sucursal.",
                    ),
                );
            }
            if !str_eq(target_user.role.as_str(), "USUARIO") {
                return Err(
                    to_owned_string(
                        "Operación inválida: Un administrador solo puede modificar usuarios operativos.",
                    ),
                );
            }
        } else if nuevo_usuario.is_none() {
            return Err(
                to_owned_string("Operación inválida: No se encontró el usuario indicado."),
            );
        }
    }
    Ok(())
}

// ---------------------------------------------------------------------------
// Laws
// ---------------------------------------------------------------------------

/// Nobody may change or remove their own account.
pub proof fn law_no_self_management(actor: Usuario, target: Usuario, nuevo: Option<Usuario>, active_superadmins: int)
    requires
        actor.id@ == target.id@,
    ensures
        manage_usuario_decision(actor, Some(target), nuevo, active_superadmins) is Some,
{
}

/// The last active superadmin can neither be removed nor demoted.
pub proof fn law_last_superadmin_kept(actor: Usuario, target: Usuario, nuevo: Option<Usuario>, active_superadmins: int)
    requires
        target.role@ == "SUPERADMIN"@,
        active_superadmins <= 1,
        match nuevo {
            Some(n) => n.role@ != "SUPERADMIN"@,
            None => true,
        },
    ensures
        manage_usuario_decision(actor, Some(target), nuevo, active_superadmins) is Some,
{
}

/// Whatever a non-superadmin is allowed to do to users stays within plain
/// users of their own branch.
pub proof fn law_admin_confined_to_own_branch(
    actor: Usuario,
    target: Option<Usuario>,
    nuevo: Option<Usuario>,
    active_superadmins: int,
)
    requires
        !superadmin_role(actor.role@),
        manage_usuario_decision(actor, target, nuevo, active_superadmins) is None,
    ensures
        nuevo matches Some(n) ==> (n.role@ == "USUARIO"@ && n.sucursal_id@ == actor.sucursal_id@),
        target matches Some(t) ==> (t.role@ == "USUARIO"@ && t.sucursal_id@ == actor.sucursal_id@),
        target is Some || nuevo is Some,
{
}

/// A user who is not a superadmin reads only their own branch, whatever
/// branch was asked for.
pub proof fn law_read_scope_confined(user: Usuario, requested: Option<Seq<char>>, sucursal: Seq<char>)
    requires
        !superadmin_role(user.role@),
    ensures
        read_scope(user, requested) == Some(user.sucursal_id@),
        (superadmin_role(user.role@) || user.sucursal_id@ == sucursal) ==> sucursal == user.sucursal_id@,
{
}

/// Every superadmin passes the admin-or-superadmin check.
pub proof fn law_superadmin_is_admin(role: Seq<char>)
    requires
        superadmin_role(role),
    ensures
        admin_role(role),
{
}

} // verus!
