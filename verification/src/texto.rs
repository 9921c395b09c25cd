//! Utilidades de texto sobre `Vec<char>` y `String` con especificación.

use vstd::prelude::*;
use vstd::std_specs::iter::IteratorSpec;

verus! {

broadcast use vstd::string::group_string_axioms;

/// Añade un carácter al final de la cadena (`String::push`).
#[verifier::external_body]
pub(crate) fn agregar_caracter(s: &mut String, c: char)
    ensures
        final(s)@ == old(s)@.push(c),
{
    s.push(c);
}

/// Devuelve los caracteres de `s` en orden.
pub fn caracteres(s: &str) -> (v: Vec<char>)
    ensures
        v@ == s@,
{
    let mut it = s.chars();
    let mut v: Vec<char> = Vec::new();
    loop
        invariant
            IteratorSpec::remaining(&it).len() + v@.len() == s@.len(),
            v@ + IteratorSpec::remaining(&it) == s@,
            IteratorSpec::decrease(&it) is Some,
        decreases IteratorSpec::decrease(&it)->0,
    {
        let ghost antes = IteratorSpec::remaining(&it);
        match it.next() {
            Some(c) => {
                assert(v@.push(c) + antes.drop_first() =~= v@ + antes);
                v.push(c);
            },
            None => {
                assert(v@ =~= s@);
                return v;
            },
        }
    }
}

/// Construye una cadena con los caracteres de `v` entre `desde` y `hasta`.
pub fn cadena_de_rango(v: &Vec<char>, desde: usize, hasta: usize) -> (s: String)
    requires
        desde <= hasta <= v.len(),
    ensures
        s@ == v@.subrange(desde as int, hasta as int),
{
    let mut s = String::new();
    let mut i = desde;
    while i < hasta
        invariant
            desde <= i <= hasta <= v.len(),
            s@ == v@.subrange(desde as int, i as int),
        decreases hasta - i,
    {
        agregar_caracter(&mut s, v[i]);
        assert(v@.subrange(desde as int, i + 1) =~= v@.subrange(desde as int, i as int).push(v@[i as int]));
        i += 1;
    }
    s
}

/// Construye una cadena con todos los caracteres de `v`.
pub fn cadena_de(v: &Vec<char>) -> (s: String)
    ensures
        s@ == v@,
{
    let s = cadena_de_rango(v, 0, v.len());
    assert(v@.subrange(0, v@.len() as int) =~= v@);
    s
}

/// Añade todos los caracteres de `t` al final de `s`.
pub fn agregar_texto(s: &mut String, t: &str)
    ensures
        final(s)@ == old(s)@ + t@,
{
    let v = caracteres(t);
    let mut i: usize = 0;
    while i < v.len()
        invariant
            0 <= i <= v.len(),
            v@ == t@,
            s@ == old(s)@ + v@.subrange(0, i as int),
        decreases v.len() - i,
    {
        agregar_caracter(s, v[i]);
        assert(v@.subrange(0, i + 1) =~= v@.subrange(0, i as int).push(v@[i as int]));
        i += 1;
    }
    assert(v@.subrange(0, v@.len() as int) =~= v@);
}

/// Propiedad Unicode `White_Space` de un carácter (la que decide `char::is_whitespace`):
/// de tabulación a retorno de carro, el espacio, U+0085, U+00A0, U+1680, U+2000 a
/// U+200A, U+2028, U+2029, U+202F, U+205F y U+3000.
pub open spec fn es_espacio(c: char) -> bool {
    let v = c as u32;
    ||| 0x09 <= v <= 0x0D
    ||| v == 0x20
    ||| v == 0x85
    ||| v == 0xA0
    ||| v == 0x1680
    ||| 0x2000 <= v <= 0x200A
    ||| v == 0x2028
    ||| v == 0x2029
    ||| v == 0x202F
    ||| v == 0x205F
    ||| v == 0x3000
}

/// Indica si `c` es un espacio Unicode, como `char::is_whitespace`.
pub(crate) fn es_espacio_exec(c: char) -> (r: bool)
    ensures
        r == es_espacio(c),
        (c as u32) < 128 ==> (r <==> (c == ' ' || ('\t' <= c <= '\r'))),
{
    let v = c as u32;
    (0x09 <= v && v <= 0x0D) || v == 0x20 || v == 0x85 || v == 0xA0 || v == 0x1680
        || (0x2000 <= v && v <= 0x200A) || v == 0x2028 || v == 0x2029 || v == 0x202F
        || v == 0x205F || v == 0x3000
}

/// Quita los espacios del comienzo.
pub open spec fn recortar_inicio(s: Seq<char>) -> Seq<char>
    decreases s.len(),
{
    if s.len() > 0 && es_espacio(s[0]) {
        recortar_inicio(s.drop_first())
    } else {
        s
    }
}

/// Quita los espacios del final.
pub open spec fn recortar_final(s: Seq<char>) -> Seq<char>
    decreases s.len(),
{
    if s.len() > 0 && es_espacio(s.last()) {
        recortar_final(s.drop_last())
    } else {
        s
    }
}

/// Quita los espacios de ambos extremos (lo que hace `str::trim`).
pub open spec fn recortar(s: Seq<char>) -> Seq<char> {
    recortar_final(recortar_inicio(s))
}

/// Posiciones `[ini, fin)` de `v` que quedan tras quitar los espacios de los extremos.
pub fn limites_recortados(v: &Vec<char>) -> (r: (usize, usize))
    ensures
        r.0 <= r.1 <= v@.len(),
        v@.subrange(r.0 as int, r.1 as int) == recortar(v@),
{
    let n = v.len();
    let mut ini: usize = 0;
    assert(v@.subrange(0, n as int) =~= v@);
    while ini < n && es_espacio_exec(v[ini])
        invariant
            0 <= ini <= n,
            n == v@.len(),
            recortar_inicio(v@) == recortar_inicio(v@.subrange(ini as int, n as int)),
        decreases n - ini,
    {
        assert(v@.subrange(ini as int, n as int).drop_first() =~= v@.subrange(ini + 1, n as int));
        ini += 1;
    }
    let mut fin: usize = n;
    proof {
        let t = v@.subrange(ini as int, n as int);
        if ini < n {
            assert(t[0] == v@[ini as int]);
        }
        assert(recortar_inicio(t) == t);
    }
    while fin > ini && es_espacio_exec(v[fin - 1])
        invariant
            ini <= fin <= n,
            n == v@.len(),
            recortar(v@) == recortar_final(v@.subrange(ini as int, fin as int)),
        decreases fin,
    {
        assert(v@.subrange(ini as int, fin as int).drop_last() =~= v@.subrange(ini as int, fin - 1));
        fin -= 1;
    }
    proof {
        let t = v@.subrange(ini as int, fin as int);
        if fin > ini {
            assert(t.last() == v@[fin - 1]);
        }
        assert(recortar_final(t) == t);
    }
    (ini, fin)
}

/// `s` sin los espacios de los extremos, como `str::trim`.
pub fn recortar_texto(s: &str) -> (r: String)
    ensures
        r@ == recortar(s@),
{
    let v = caracteres(s);
    let (ini, fin) = limites_recortados(&v);
    cadena_de_rango(&v, ini, fin)
}

/// Indica si `s` queda vacío al quitar los espacios de los extremos (`s.trim().is_empty()`).
pub fn vacio_al_recortar(s: &str) -> (r: bool)
    ensures
        r == (recortar(s@).len() == 0),
{
    let v = caracteres(s);
    let (ini, fin) = limites_recortados(&v);
    ini == fin
}

/// Copia de un texto como `String`.
pub fn copiar(s: &str) -> (r: String)
    ensures
        r@ == s@,
{
    s.to_owned()
}

/// Propiedades Unicode `Alphabetic` o de categoría numérica (lo que decide
/// `char::is_alphanumeric`).
pub uninterp spec fn es_alfanumerico(c: char) -> bool;

/// Llama a `char::is_alphanumeric`. En ASCII son alfanuméricos exactamente las letras
/// y los dígitos; fuera de ASCII el resultado queda nombrado por `es_alfanumerico`.
#[verifier::external_body]
pub(crate) fn es_alfanumerico_exec(c: char) -> (r: bool)
    ensures
        r == es_alfanumerico(c),
        (c as u32) < 128 ==> (r <==> (('0' <= c <= '9') || ('a' <= c <= 'z') || ('A' <= c <= 'Z'))),
{
    c.is_alphanumeric()
}

/// Propiedad Unicode `Alphabetic` (lo que decide `char::is_alphabetic`).
pub uninterp spec fn es_alfabetico(c: char) -> bool;

/// Llama a `char::is_alphabetic`. En ASCII son alfabéticas exactamente las letras;
/// fuera de ASCII el resultado queda nombrado por `es_alfabetico`.
#[verifier::external_body]
pub(crate) fn es_alfabetico_exec(c: char) -> (r: bool)
    ensures
        r == es_alfabetico(c),
        (c as u32) < 128 ==> (r <==> (('a' <= c <= 'z') || ('A' <= c <= 'Z'))),
{
    c.is_alphabetic()
}

/// Primer carácter de la forma mayúscula Unicode de un carácter (lo que da
/// `char::to_uppercase` en su primer elemento).
pub uninterp spec fn mayuscula(c: char) -> char;

/// Primer carácter de `c.to_uppercase()` (o `c` si no diera ninguno). En ASCII las
/// minúsculas pasan a su mayúscula y el resto queda igual; fuera de ASCII el
/// resultado queda nombrado por `mayuscula`.
#[verifier::external_body]
pub(crate) fn mayuscula_exec(c: char) -> (r: char)
    ensures
        r == mayuscula(c),
        ('a' <= c <= 'z') ==> r as u32 == (c as u32) - 32,
        ((c as u32) < 128 && !('a' <= c <= 'z')) ==> r == c,
{
    c.to_uppercase().next().unwrap_or(c)
}

/// Forma mayúscula Unicode de un texto (lo que da `str::to_uppercase`).
pub uninterp spec fn mayusculas(s: Seq<char>) -> Seq<char>;

/// Llama a `str::to_uppercase`. Un texto todo ASCII queda con la misma longitud, sus
/// minúsculas `a`–`z` pasan a mayúscula y el resto de caracteres no cambia; fuera de
/// ASCII el resultado queda nombrado por `mayusculas` sin más detalle.
#[verifier::external_body]
pub(crate) fn a_mayusculas(s: &str) -> (r: String)
    ensures
        r@ == mayusculas(s@),
        (forall|i: int| 0 <= i < s@.len() ==> (s@[i] as u32) < 128) ==> {
            &&& r@.len() == s@.len()
            &&& forall|i: int|
                0 <= i < s@.len() ==> {
                    &&& ('a' <= s@[i] <= 'z') ==> r@[i] as u32 == (s@[i] as u32) - 32
                    &&& !('a' <= s@[i] <= 'z') ==> r@[i] == s@[i]
                }
        },
{
    s.to_uppercase()
}

/// `p` aparece en `s` a partir de la posición `i`.
pub open spec fn aparece_en(s: Seq<char>, p: Seq<char>, i: int) -> bool {
    0 <= i && i + p.len() <= s.len() && s.subrange(i, i + p.len()) == p
}

/// `p` aparece en algún lugar de `s` (lo que responde `str::contains` con un texto).
pub open spec fn contiene(s: Seq<char>, p: Seq<char>) -> bool {
    exists|i: int| aparece_en(s, p, i)
}

/// Indica si `p` aparece en `s`.
pub fn contiene_texto(s: &str, p: &str) -> (r: bool)
    ensures
        r == contiene(s@, p@),
{
    let v = caracteres(s);
    let w = caracteres(p);
    if w.len() > v.len() {
        return false;
    }
    let mut i: usize = 0;
    while w.len() <= v.len() - i
        invariant
            v@ == s@,
            w@ == p@,
            i <= v.len(),
            forall|j: int| 0 <= j < i ==> !aparece_en(s@, p@, j),
        decreases v.len() - i,
    {
        let mut k: usize = 0;
        while k < w.len() && v[i + k] == w[k]
            invariant
                v@ == s@,
                w@ == p@,
                i <= v.len(),
                w.len() <= v.len() - i,
                0 <= k <= w.len(),
                forall|kk: int| 0 <= kk < k ==> v@[i + kk] == w@[kk],
            decreases w.len() - k,
        {
            k += 1;
        }
        if k == w.len() {
            assert(s@.subrange(i as int, i + p@.len()) =~= p@);
            assert(aparece_en(s@, p@, i as int));
            return true;
        }
        assert(s@.subrange(i as int, i + p@.len())[k as int] != p@[k as int]);
        i += 1;
    }
    false
}

/// Forma minúscula Unicode de un texto (lo que da `str::to_lowercase`).
pub uninterp spec fn minusculas(s: Seq<char>) -> Seq<char>;

/// Llama a `str::to_lowercase`. Un texto todo ASCII queda con la misma longitud, sus
/// mayúsculas `A`–`Z` pasan a minúscula y el resto de caracteres no cambia; fuera de
/// ASCII el resultado queda nombrado por `minusculas` sin más detalle.
#[verifier::external_body]
pub(crate) fn a_minusculas(s: &str) -> (r: String)
    ensures
        r@ == minusculas(s@),
        (forall|i: int| 0 <= i < s@.len() ==> (s@[i] as u32) < 128) ==> {
            &&& r@.len() == s@.len()
            &&& forall|i: int|
                0 <= i < s@.len() ==> {
                    &&& ('A' <= s@[i] <= 'Z') ==> r@[i] as u32 == (s@[i] as u32) + 32
                    &&& !('A' <= s@[i] <= 'Z') ==> r@[i] == s@[i]
                }
        },
{
    s.to_lowercase()
}

/// Indica si dos textos son iguales.
pub fn mismo_texto(a: &str, b: &str) -> (r: bool)
    ensures
        r == (a@ == b@),
{
    let x = caracteres(a);
    let y = caracteres(b);
    if x.len() != y.len() {
        return false;
    }
    let mut i: usize = 0;
    while i < x.len()
        invariant
            x@ == a@,
            y@ == b@,
            x.len() == y.len(),
            0 <= i <= x.len(),
            forall|k: int| 0 <= k < i ==> x@[k] == y@[k],
        decreases x.len() - i,
    {
        if x[i] != y[i] {
            return false;
        }
        i += 1;
    }
    assert(x@ =~= y@);
    true
}

/// Trozos de `s` separados por `sep`, en orden (siempre al menos uno).
pub open spec fn trozos(s: Seq<char>, sep: char) -> Seq<Seq<char>>
    decreases s.len(),
{
    if s.len() == 0 {
        seq![Seq::empty()]
    } else {
        let d = trozos(s.drop_last(), sep);
        if s.last() == sep {
            d.push(Seq::empty())
        } else {
            d.update(d.len() - 1, d.last().push(s.last()))
        }
    }
}

/// Vista de una lista de textos como secuencia de secuencias de caracteres.
pub open spec fn vista_textos(v: Seq<String>) -> Seq<Seq<char>> {
    v.map_values(|t: String| t@)
}

/// Parte `s` en los trozos separados por `sep` (como `str::split` con un carácter).
pub fn partir(s: &str, sep: char) -> (r: Vec<String>)
    ensures
        vista_textos(r@) == trozos(s@, sep),
{
    let v = caracteres(s);
    let mut r: Vec<String> = Vec::new();
    let mut actual = String::new();
    let mut i: usize = 0;
    proof {
        assert(v@.take(0) =~= Seq::<char>::empty());
        assert(trozos(v@.take(0), sep).drop_last() =~= Seq::<Seq<char>>::empty());
    }
    while i < v.len()
        invariant
            0 <= i <= v.len(),
            v@ == s@,
            trozos(v@.take(i as int), sep).len() >= 1,
            actual@ == trozos(v@.take(i as int), sep).last(),
            vista_textos(r@) == trozos(v@.take(i as int), sep).drop_last(),
        decreases v.len() - i,
    {
        let c = v[i];
        let ghost t0 = trozos(v@.take(i as int), sep);
        proof {
            assert(v@.take(i + 1).drop_last() =~= v@.take(i as int));
            assert(v@.take(i + 1).last() == c);
        }
        if c == sep {
            let ghost r0 = vista_textos(r@);
            let hecho = actual;
            r.push(hecho);
            actual = String::new();
            proof {
                let t1 = trozos(v@.take(i + 1), sep);
                assert(t1 == t0.push(Seq::<char>::empty()));
                assert(vista_textos(r@) =~= r0.push(t0.last()));
                assert(t1.drop_last() =~= t0);
                assert(t0 =~= t0.drop_last().push(t0.last()));
            }
        } else {
            agregar_caracter(&mut actual, c);
            proof {
                let t1 = trozos(v@.take(i + 1), sep);
                assert(t1 == t0.update(t0.len() - 1, t0.last().push(c)));
                assert(t1.drop_last() =~= t0.drop_last());
            }
        }
        i += 1;
    }
    proof {
        assert(v@.take(v@.len() as int) =~= v@);
    }
    let ghost r0 = vista_textos(r@);
    r.push(actual);
    proof {
        let t = trozos(v@, sep);
        assert(vista_textos(r@) =~= r0.push(t.last()));
        assert(t =~= t.drop_last().push(t.last()));
    }
    r
}

/// Última posición de `c` en `s`, si aparece.
pub open spec fn ultima_posicion(s: Seq<char>, c: char) -> Option<int>
    decreases s.len(),
{
    if s.len() == 0 {
        None
    } else if s.last() == c {
        Some(s.len() - 1)
    } else {
        ultima_posicion(s.drop_last(), c)
    }
}

/// Busca la última aparición de `c` en `v` (como `str::rfind` con un carácter, en
/// posiciones de carácter).
pub fn buscar_ultima(v: &Vec<char>, c: char) -> (r: Option<usize>)
    ensures
        match r {
            Some(i) => ultima_posicion(v@, c) == Some(i as int) && i < v.len(),
            None => ultima_posicion(v@, c) is None,
        },
{
    let mut k: usize = v.len();
    assert(v@.take(k as int) =~= v@);
    while k > 0
        invariant
            k <= v.len(),
            ultima_posicion(v@, c) == ultima_posicion(v@.take(k as int), c),
        decreases k,
    {
        assert(v@.take(k as int).last() == v@[k - 1]);
        if v[k - 1] == c {
            return Some(k - 1);
        }
        assert(v@.take(k as int).drop_last() =~= v@.take(k - 1));
        k -= 1;
    }
    None
}

} // verus!
