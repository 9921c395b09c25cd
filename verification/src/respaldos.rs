//! Respaldos de la base de datos: el nombre de cada copia y la regla de una copia
//! automática por día.

use vstd::prelude::*;
use crate::texto::{agregar_texto, contiene, contiene_texto};

verus! {

broadcast use vstd::string::group_string_axioms;

/// Nombre de la copia automática del día `hoy` (`AAAAMMDD`) hecha a la hora `hora`
/// (`HHMMSS`).
pub open spec fn nombre_respaldo_automatico(hoy: Seq<char>, hora: Seq<char>) -> Seq<char> {
    "contabilidad_"@ + hoy + "_"@ + hora + ".db"@
}

/// Ya hay una copia del día: algún archivo de la carpeta de respaldos menciona la fecha.
pub open spec fn hay_respaldo_de(nombres: Seq<Seq<char>>, hoy: Seq<char>) -> bool {
    exists|i: int| 0 <= i < nombres.len() && contiene(#[trigger] nombres[i], hoy)
}

/// Copia automática que toca hacer: ninguna si ya hay una del día; si no, la del día
/// a esa hora.
pub open spec fn respaldo_automatico_de(nombres: Seq<Seq<char>>, hoy: Seq<char>, hora: Seq<char>) -> Option<Seq<char>> {
    if hay_respaldo_de(nombres, hoy) {
        None
    } else {
        Some(nombre_respaldo_automatico(hoy, hora))
    }
}

/// Decide la copia automática a partir de los nombres de archivo que hay en la
/// carpeta de respaldos.
pub fn respaldo_automatico(nombres: &Vec<String>, hoy: &str, hora: &str) -> (r: Option<String>)
    ensures
        match r {
            Some(n) => respaldo_automatico_de(nombres@.map_values(|t: String| t@), hoy@, hora@) == Some(n@),
            None => respaldo_automatico_de(nombres@.map_values(|t: String| t@), hoy@, hora@) is None,
        },
{
    let ghost vs = nombres@.map_values(|t: String| t@);
    let mut i: usize = 0;
    while i < nombres.len()
        invariant
            0 <= i <= nombres.len(),
            vs == nombres@.map_values(|t: String| t@),
            forall|j: int| 0 <= j < i ==> !contiene(#[trigger] vs[j], hoy@),
        decreases nombres.len() - i,
    {
        if contiene_texto(nombres[i].as_str(), hoy) {
            assert(vs[i as int] == nombres@[i as int]@);
            return None;
        }
        i += 1;
    }
    let mut r = String::new();
    agregar_texto(&mut r, "contabilidad_");
    agregar_texto(&mut r, hoy);
    agregar_texto(&mut r, "_");
    agregar_texto(&mut r, hora);
    agregar_texto(&mut r, ".db");
    Some(r)
}

/// La copia automática menciona el día en su nombre.
pub proof fn lema_respaldo_menciona_el_dia(hoy: Seq<char>, hora: Seq<char>)
    ensures
        contiene(nombre_respaldo_automatico(hoy, hora), hoy),
{
    reveal_strlit("contabilidad_");
    let n = nombre_respaldo_automatico(hoy, hora);
    assert("contabilidad_"@.len() == 13);
    assert(n.subrange(13, 13 + hoy.len() as int) =~= hoy);
    assert(crate::texto::aparece_en(n, hoy, 13));
}

/// Como mucho una copia automática por día: tras hacer la del día, ninguna otra
/// llamada de ese mismo día hace otra, sea cual sea la hora.
pub proof fn ley_un_respaldo_por_dia(nombres: Seq<Seq<char>>, hoy: Seq<char>, hora: Seq<char>, otra_hora: Seq<char>)
    requires
        respaldo_automatico_de(nombres, hoy, hora) is Some,
    ensures
        respaldo_automatico_de(nombres.push(nombre_respaldo_automatico(hoy, hora)), hoy, otra_hora) is None,
{
    lema_respaldo_menciona_el_dia(hoy, hora);
    let ns = nombres.push(nombre_respaldo_automatico(hoy, hora));
    assert(ns[nombres.len() as int] == nombre_respaldo_automatico(hoy, hora));
    assert(contiene(ns[nombres.len() as int], hoy));
}

/// No se hace copia automática exactamente cuando algún nombre de la carpeta, esté
/// donde esté en la lista, tiene la fecha de hoy en alguna posición; si no, se hace
/// `contabilidad_<hoy>_<hora>.db`. Cambiar el orden de los nombres no cambia nada.
pub proof fn ley_respaldo_mira_todos_los_nombres(
    nombres: Seq<Seq<char>>,
    hoy: Seq<char>,
    hora: Seq<char>,
)
    ensures
        respaldo_automatico_de(nombres, hoy, hora) is None <==> exists|i: int, k: int|
            0 <= i < nombres.len() && 0 <= k && k + hoy.len() <= nombres[i].len()
                && #[trigger] nombres[i].subrange(k, k + hoy.len()) == hoy,
        respaldo_automatico_de(nombres, hoy, hora) is Some ==> respaldo_automatico_de(nombres, hoy, hora)
            == Some("contabilidad_"@ + hoy + "_"@ + hora + ".db"@),
        forall|otros: Seq<Seq<char>>| #[trigger] otros.to_multiset() == nombres.to_multiset()
            ==> respaldo_automatico_de(otros, hoy, hora) == respaldo_automatico_de(nombres, hoy, hora),
{
    let hay = exists|i: int, k: int|
        0 <= i < nombres.len() && 0 <= k && k + hoy.len() <= nombres[i].len()
            && #[trigger] nombres[i].subrange(k, k + hoy.len()) == hoy;
    if hay {
        let (i, k) = choose|i: int, k: int|
            0 <= i < nombres.len() && 0 <= k && k + hoy.len() <= nombres[i].len()
                && #[trigger] nombres[i].subrange(k, k + hoy.len()) == hoy;
        assert(crate::texto::aparece_en(nombres[i], hoy, k));
        assert(contiene(nombres[i], hoy));
    }
    if hay_respaldo_de(nombres, hoy) {
        let i = choose|i: int| 0 <= i < nombres.len() && contiene(#[trigger] nombres[i], hoy);
        let k = choose|k: int| crate::texto::aparece_en(nombres[i], hoy, k);
        assert(nombres[i].subrange(k, k + hoy.len()) == hoy);
    }
    assert forall|otros: Seq<Seq<char>>| #[trigger] otros.to_multiset() == nombres.to_multiset()
        implies respaldo_automatico_de(otros, hoy, hora) == respaldo_automatico_de(nombres, hoy, hora) by {
        if hay_respaldo_de(otros, hoy) {
            lema_misma_carpeta(otros, nombres, hoy);
        }
        if hay_respaldo_de(nombres, hoy) {
            lema_misma_carpeta(nombres, otros, hoy);
        }
    }
}

/// Si dos listas tienen los mismos nombres (en otro orden), y una tiene uno con la
/// fecha, la otra también.
proof fn lema_misma_carpeta(a: Seq<Seq<char>>, b: Seq<Seq<char>>, hoy: Seq<char>)
    requires
        a.to_multiset() == b.to_multiset(),
        hay_respaldo_de(a, hoy),
    ensures
        hay_respaldo_de(b, hoy),
{
    broadcast use vstd::seq_lib::group_to_multiset_ensures;
    let i = choose|i: int| 0 <= i < a.len() && contiene(#[trigger] a[i], hoy);
    assert(a.contains(a[i]));
    assert(a.to_multiset().count(a[i]) > 0);
    assert(b.contains(a[i]));
    let j = choose|j: int| 0 <= j < b.len() && b[j] == a[i];
    assert(contiene(b[j], hoy));
}

/// Nombre de la copia manual con la marca `AAAAMMDD_HHMMSS`.
pub open spec fn nombre_respaldo_manual(marca: Seq<char>) -> Seq<char> {
    "contabilidad_"@ + marca + ".db"@
}

/// Escribe el nombre de la copia manual.
pub fn respaldo_manual(marca: &str) -> (r: String)
    ensures
        r@ == nombre_respaldo_manual(marca@),
{
    let mut r = String::new();
    agregar_texto(&mut r, "contabilidad_");
    agregar_texto(&mut r, marca);
    agregar_texto(&mut r, ".db");
    r
}

} // verus!
