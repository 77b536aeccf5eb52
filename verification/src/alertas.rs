//! Alerts raised for the managers: the out-of-hours opening of a cash
//! register and the notices about products that ran out.
use vstd::prelude::*;
use crate::text::{
    chars_of, first_index, lemma_first_index, is_ascii_digit, is_blank, is_blank_str, push_str,
    string_of_range, to_owned_string,
};

verus! {

/// The second piece of the text split at `c` (`split(c).nth(1)`): what
/// follows the first `c` up to the next one; nothing when there is no `c`.
pub open spec fn second_piece(s: Seq<char>, c: char) -> Option<Seq<char>> {
    match first_index(s, c) {
        None => None,
        Some(i) => {
            let rest = s.skip(i + 1);
            match first_index(rest, c) {
                Some(j) => Some(rest.take(j)),
                None => Some(rest),
            }
        },
    }
}

/// The first occurrence of `c` at or after `from` in the characters.
fn find_from(v: &Vec<char>, c: char, from: usize) -> (r: usize)
    requires
        from <= v@.len(),
    ensures
        from <= r <= v@.len(),
        r < v@.len() ==> v@[r as int] == c,
        forall|k: int| from <= k < r ==> v@[k] != c,
{
    let mut i = from;
    while i < v.len()
        invariant
            from <= i <= v@.len(),
            forall|k: int| from <= k < i ==> v@[k] != c,
        decreases v@.len() - i,
    {
        if v[i] == c {
            return i;
        }
        i = i + 1;
    }
    i
}

fn second_piece_exec(v: &Vec<char>, c: char) -> (r: Option<String>)
    ensures
        match r {
            Some(t) => second_piece(v@, c) == Some(t@),
            None => second_piece(v@, c) is None,
        },
{
    let i = find_from(v, c, 0);
    proof {
        lemma_first_index(v@, c);
    }
    if i == v.len() {
        return None;
    }
    assert(first_index(v@, c) == Some(i as int));
    let j = find_from(v, c, i + 1);
    let ghost rest = v@.skip(i + 1);
    proof {
        lemma_first_index(rest, c);
        assert forall|k: int| 0 <= k < rest.len() implies rest[k] == v@[i + 1 + k] by {}
        if j < v.len() {
            assert(rest[j - i - 1] == c);
            assert(first_index(rest, c) == Some(j - i - 1));
            assert(v@.subrange(i + 1, j as int) =~= rest.take(j - i - 1));
        } else {
            assert(first_index(rest, c) is None);
            assert(v@.subrange(i + 1, j as int) =~= rest);
        }
    }
    Some(string_of_range(v, i + 1, j))
}

pub open spec fn digit_value(c: char) -> u32 {
    (c as u32 - '0' as u32) as u32
}

/// The hour read from the first two characters of a time (`get(0..2)` then
/// read as a whole number): two digits, or `+` and a digit.
pub open spec fn hour_of(t: Seq<char>) -> Option<u32> {
    if t.len() >= 2 && is_ascii_digit(t[1]) && is_ascii_digit(t[0]) {
        Some((10 * digit_value(t[0]) + digit_value(t[1])) as u32)
    } else if t.len() >= 2 && is_ascii_digit(t[1]) && t[0] == '+' {
        Some(digit_value(t[1]))
    } else {
        None
    }
}

/// The hour at which a cash register was opened, read from its opening
/// timestamp: from the time after `T`, or, without any `T`, after the space.
pub open spec fn opening_hour(fecha: Seq<char>) -> Option<u32> {
    match second_piece(fecha, 'T') {
        Some(t) => hour_of(t),
        None => match second_piece(fecha, ' ') {
            Some(t) => hour_of(t),
            None => None,
        },
    }
}

fn hour_of_exec(t: &str) -> (r: Option<u32>)
    ensures
        r == hour_of(t@),
{
    let v = chars_of(t);
    if v.len() >= 2 && '0' <= v[1] && v[1] <= '9' {
        if '0' <= v[0] && v[0] <= '9' {
            let tens = (v[0] as u32) - ('0' as u32);
            let units = (v[1] as u32) - ('0' as u32);
            return Some(10 * tens + units);
        }
        if v[0] == '+' {
            return Some((v[1] as u32) - ('0' as u32));
        }
    }
    None
}

pub fn hora_apertura(fecha_apertura: &str) -> (r: Option<u32>)
    ensures
        r == opening_hour(fecha_apertura@),
{
    let v = chars_of(fecha_apertura);
    match second_piece_exec(&v, 'T') {
        Some(t) => hour_of_exec(t.as_str()),
        None => match second_piece_exec(&v, ' ') {
            Some(t) => hour_of_exec(t.as_str()),
            None => None,
        },
    }
}

/// An opening before six in the morning or from ten at night on.
pub open spec fn out_of_hours(fecha: Seq<char>) -> bool {
    match opening_hour(fecha) {
        Some(h) => h < 6 || h >= 22,
        None => false,
    }
}

/// The alert for a cash register opened out of hours: its message and the
/// key that keeps it from repeating; nothing when the opening hour is within
/// hours or cannot be read.
pub fn aviso_apertura_fuera_de_horario(
    sucursal_nombre: &str,
    fecha_apertura: &str,
    sesion_id: &str,
) -> (r: Option<(String, String)>)
    ensures
        !out_of_hours(fecha_apertura@) ==> r is None,
        out_of_hours(fecha_apertura@) ==> (r matches Some((mensaje, clave)) && mensaje@ == "La caja de "@
            + sucursal_nombre@ + " fue abierta a las "@ + fecha_apertura@
            + ". Verifica si corresponde a una operación autorizada."@ && clave@ == "caja:fuera-horario:"@
            + sesion_id@),
{
    match hora_apertura(fecha_apertura) {
        Some(h) => {
            if h < 6 || h >= 22 {
                let mut mensaje = to_owned_string("La caja de ");
                push_str(&mut mensaje, sucursal_nombre);
                push_str(&mut mensaje, " fue abierta a las ");
                push_str(&mut mensaje, fecha_apertura);
                push_str(&mut mensaje, ". Verifica si corresponde a una operación autorizada.");
                let mut clave = to_owned_string("caja:fuera-horario:");
                push_str(&mut clave, sesion_id);
                Some((mensaje, clave))
            } else {
                None
            }
        },
        None => None,
    }
}

/// How a product is named in an alert: its description, followed by its
/// brand when it has one.
pub open spec fn product_label(descripcion: Seq<char>, marca: Seq<char>) -> Seq<char> {
    if is_blank(marca) {
        descripcion
    } else {
        descripcion + " "@ + marca
    }
}

pub fn etiqueta_producto(descripcion: &str, marca: &str) -> (r: String)
    ensures
        r@ == product_label(descripcion@, marca@),
{
    let mut out = to_owned_string(descripcion);
    if !is_blank_str(marca) {
        push_str(&mut out, " ");
        push_str(&mut out, marca);
    }
    out
}

/// The alert for a product that ran out at a branch: its message and the key
/// that keeps it from repeating.
pub fn aviso_producto_agotado(
    producto: &str,
    sucursal_nombre: &str,
    producto_id: &str,
    sucursal_id: &str,
) -> (r: (String, String))
    ensures
        r.0@ == "'"@ + producto@ + "' llegó a 0 piezas en "@ + sucursal_nombre@
            + ". Se sugiere generar orden de compra."@,
        r.1@ == "inventario:agotado:"@ + producto_id@ + ":"@ + sucursal_id@,
{
    let mut mensaje = to_owned_string("'");
    push_str(&mut mensaje, producto);
    push_str(&mut mensaje, "' llegó a 0 piezas en ");
    push_str(&mut mensaje, sucursal_nombre);
    push_str(&mut mensaje, ". Se sugiere generar orden de compra.");
    let mut clave = to_owned_string("inventario:agotado:");
    push_str(&mut clave, producto_id);
    push_str(&mut clave, ":");
    push_str(&mut clave, sucursal_id);
    (mensaje, clave)
}

} // verus!
