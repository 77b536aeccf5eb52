//! Grouping of repeated products in the lines of a sale, purchase or transfer.
use vstd::prelude::*;
use crate::text::{str_eq, trim, trim_str, views};

verus! {

/// The distinct texts of a sequence, in order of first appearance.
pub open spec fn dedup(s: Seq<Seq<char>>) -> Seq<Seq<char>>
    decreases s.len(),
{
    if s.len() == 0 {
        Seq::empty()
    } else {
        let d = dedup(s.drop_last());
        if d.contains(s.last()) {
            d
        } else {
            d.push(s.last())
        }
    }
}

/// Each text trimmed.
pub open spec fn trimmed(s: Seq<Seq<char>>) -> Seq<Seq<char>> {
    s.map_values(|x: Seq<char>| trim(x))
}

/// The products of the lines and which of them each line belongs to.
#[derive(Debug)]
pub struct AgrupacionDetalles {
    /// For each line, the position of its product in `productos`.
    pub grupo_de_linea: Vec<usize>,
    /// The distinct trimmed product ids, in order of first appearance.
    pub productos: Vec<String>,
}

/// No text occurs twice.
pub open spec fn distinct(s: Seq<Seq<char>>) -> bool {
    forall|i: int, j: int| 0 <= i < j < s.len() ==> s[i] != s[j]
}

pub proof fn lemma_dedup_distinct(s: Seq<Seq<char>>)
    ensures
        distinct(dedup(s)),
        forall|x: Seq<char>| dedup(s).contains(x) <==> s.contains(x),
    decreases s.len(),
{
    if s.len() > 0 {
        let p = s.drop_last();
        lemma_dedup_distinct(p);
        let d = dedup(p);
        let last = s.last();
        assert forall|x: Seq<char>| dedup(s).contains(x) implies s.contains(x) by {
            if d.contains(x) {
                assert(p.contains(x));
                let m = choose|m: int| 0 <= m < p.len() && p[m] == x;
                assert(s[m] == x);
                assert(s.contains(x));
            } else {
                assert(!d.contains(last));
                assert(dedup(s) == d.push(last));
                let m = choose|m: int| 0 <= m < dedup(s).len() && dedup(s)[m] == x;
                assert(m == d.len());
                assert(s[s.len() - 1] == x);
            }
        }
        assert forall|x: Seq<char>| s.contains(x) implies dedup(s).contains(x) by {
            let k = choose|k: int| 0 <= k < s.len() && s[k] == x;
            if k < s.len() - 1 {
                assert(p[k] == x);
                assert(p.contains(x));
                assert(d.contains(x));
                let m = choose|m: int| 0 <= m < d.len() && d[m] == x;
                if !d.contains(last) {
                    assert(d.push(last)[m] == x);
                }
            } else {
                if !d.contains(last) {
                    assert(d.push(last)[d.len() as int] == x);
                }
            }
        }
        if !d.contains(last) {
            let e = d.push(last);
            assert forall|i: int, j: int| 0 <= i < j < e.len() implies e[i] != e[j] by {
                if j == d.len() {
                    assert(e[i] == d[i]);
                } else {
                    assert(e[i] == d[i] && e[j] == d[j]);
                }
            }
        }
    }
}

/// Where the text stands in the list, if it is there.
fn position_of(items: &Vec<String>, t: &str) -> (r: Option<usize>)
    ensures
        match r {
            Some(j) => j < items@.len() && items@[j as int]@ == t@,
            None => forall|m: int| 0 <= m < items@.len() ==> items@[m]@ != t@,
        },
{
    let mut j: usize = 0;
    while j < items.len()
        invariant
            j <= items@.len(),
            forall|m: int| 0 <= m < j ==> items@[m]@ != t@,
        decreases items@.len() - j,
    {
        if str_eq(items[j].as_str(), t) {
            return Some(j);
        }
        j = j + 1;
    }
    None
}

/// Groups the lines by trimmed product id. Lines of the same product share
/// one group; groups follow the order in which products first appear.
pub fn agrupar_detalles_por_producto(producto_ids: &[String]) -> (r: AgrupacionDetalles)
    ensures
        views(r.productos@) == dedup(trimmed(views(producto_ids@))),
        distinct(views(r.productos@)),
        r.grupo_de_linea@.len() == producto_ids@.len(),
        forall|i: int|
            0 <= i < producto_ids@.len() ==> (#[trigger] r.grupo_de_linea@[i]) < r.productos@.len()
                && r.productos@[r.grupo_de_linea@[i] as int]@ == trim(producto_ids@[i]@),
{
    let mut grupos: Vec<usize> = Vec::new();
    let mut productos: Vec<String> = Vec::new();
    let mut i: usize = 0;
    while i < producto_ids.len()
        invariant
            i <= producto_ids@.len(),
            views(productos@) == dedup(trimmed(views(producto_ids@.take(i as int)))),
            grupos@.len() == i,
            forall|k: int|
                0 <= k < i ==> (#[trigger] grupos@[k]) < productos@.len()
                    && productos@[grupos@[k] as int]@ == trim(producto_ids@[k]@),
        decreases producto_ids@.len() - i,
    {
        let t = trim_str(producto_ids[i].as_str());
        let ghost prev = trimmed(views(producto_ids@.take(i as int)));
        let ghost cur = trimmed(views(producto_ids@.take(i + 1)));
        proof {
            assert(cur.drop_last() =~= prev);
            assert(cur.last() == t@);
        }
        match position_of(&productos, t.as_str()) {
            Some(j) => {
                proof {
                    assert(views(productos@)[j as int] == t@);
                    assert(dedup(prev).contains(t@));
                }
                grupos.push(j);
            },
            None => {
                proof {
                    assert(!dedup(prev).contains(t@)) by {
                        if dedup(prev).contains(t@) {
                            let m = choose|m: int|
                                0 <= m < dedup(prev).len() && dedup(prev)[m] == t@;
                            assert(productos@[m]@ == t@);
                        }
                    }
                }
                let n = productos.len();
                let ghost before = productos@;
                productos.push(t);
                grupos.push(n);
                assert(views(productos@) =~= dedup(prev).push(t@));
                assert forall|k: int| 0 <= k < i implies (#[trigger] grupos@[k]) < productos@.len()
                    && productos@[grupos@[k] as int]@ == trim(producto_ids@[k]@) by {
                    assert(productos@[grupos@[k] as int] == before[grupos@[k] as int]);
                }
            },
        }
        i = i + 1;
    }
    proof {
        assert(producto_ids@.take(producto_ids@.len() as int) =~= producto_ids@);
        lemma_dedup_distinct(trimmed(views(producto_ids@)));
    }
    AgrupacionDetalles { grupo_de_linea: grupos, productos }
}

} // verus!
