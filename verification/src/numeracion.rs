//! Numeración de los registros: el siguiente número de comprobante de retención,
//! los códigos de cliente y los folios con marca de tiempo, y el día de cobro de una
//! máquina a partir de su fecha de instalación.

use vstd::prelude::*;
use crate::texto::{agregar_caracter, agregar_texto, caracteres, cadena_de_rango, copiar, recortar, vacio_al_recortar};
use crate::numeros::{decimal, es_digito, lema_con_ceros_se_lee, lema_decimal_se_lee, con_ceros, escribir_con_ceros, parse_i64, parse_i64_spec, parse_i32, parse_i32_spec};

verus! {

broadcast use vstd::string::group_string_axioms;

/// El texto sin todas las repeticiones iniciales de `R-` (como `trim_start_matches("R-")`).
pub open spec fn sin_prefijos_r(s: Seq<char>) -> Seq<char>
    decreases s.len(),
{
    if s.len() >= 2 && s[0] == 'R' && s[1] == '-' {
        sin_prefijos_r(s.skip(2))
    } else {
        s
    }
}

/// Número del último comprobante: lo que sigue a los `R-` iniciales leído como entero,
/// o 0 si no hay comprobante o no se puede leer.
pub open spec fn numero_de_retencion(ultimo: Option<Seq<char>>) -> int {
    match ultimo {
        Some(s) => match parse_i64_spec(sin_prefijos_r(s)) {
            Some(n) => n as int,
            None => 0,
        },
        None => 0,
    }
}

/// Número del siguiente comprobante: `R-` y el número anterior más uno con al menos cuatro cifras.
pub open spec fn siguiente_retencion(ultimo: Option<Seq<char>>) -> Seq<char> {
    seq!['R', '-'] + con_ceros(numero_de_retencion(ultimo) + 1, 4)
}

/// Cada comprobante de retención lleva el número siguiente al del último: leer el
/// número de `siguiente_retencion(u)` da el de `u` más uno.
pub proof fn ley_retencion_consecutiva(u: Option<Seq<char>>)
    requires
        numero_de_retencion(u) < i64::MAX,
    ensures
        numero_de_retencion(Some(siguiente_retencion(u))) == numero_de_retencion(u) + 1,
{
    let m = numero_de_retencion(u) + 1;
    let x = con_ceros(m, 4);
    lema_con_ceros_se_lee(m, 4);
    let s = siguiente_retencion(u);
    assert(s.skip(2) =~= x);
    assert(x.len() >= 1 && (x[0] == '-' || es_digito(x[0]))) by {
        if m < 0 {
            assert(x[0] == '-');
        } else {
            lema_decimal_se_lee(m as nat);
            let d = decimal(m as nat);
            if d.len() < 4 {
                assert(x[0] == '0');
            } else {
                assert(x =~= d);
                assert(es_digito(d[0]));
            }
        }
    }
    assert(sin_prefijos_r(x) == x);
    assert(sin_prefijos_r(s) == sin_prefijos_r(s.skip(2)));
    assert(i64::MIN <= numero_de_retencion(u)) by {
        match u {
            Some(t) => {},
            None => {},
        }
    }
}

/// Vista de un texto opcional.
pub open spec fn vista_opcional(s: Option<&str>) -> Option<Seq<char>> {
    match s {
        Some(t) => Some(t@),
        None => None,
    }
}

/// Posición donde termina la racha inicial de `R-` en `v`.
fn fin_prefijos_r(v: &Vec<char>) -> (i: usize)
    ensures
        i <= v@.len(),
        sin_prefijos_r(v@) == v@.skip(i as int),
{
    let mut i: usize = 0;
    assert(v@.skip(0) =~= v@);
    while v.len() - i >= 2 && v[i] == 'R' && v[i + 1] == '-'
        invariant
            0 <= i <= v@.len(),
            sin_prefijos_r(v@) == sin_prefijos_r(v@.skip(i as int)),
        decreases v@.len() - i,
    {
        assert(v@.skip(i as int).skip(2) =~= v@.skip(i + 2));
        i += 2;
    }
    i
}

/// Número del último comprobante de retención según `numero_de_retencion`.
fn numero_retencion_anterior(ultimo: Option<&str>) -> (n: i64)
    ensures
        n as int == numero_de_retencion(vista_opcional(ultimo)),
{
    match ultimo {
        Some(s) => {
            let v = caracteres(s);
            let i = fin_prefijos_r(&v);
            let resto = cadena_de_rango(&v, i, v.len());
            assert(resto@ =~= v@.skip(i as int));
            match parse_i64(resto.as_str()) {
                Some(x) => x,
                None => 0,
            }
        },
        None => 0,
    }
}

/// Número que corresponde al siguiente comprobante de retención, dado el número del
/// último comprobante registrado (si lo hay).
pub fn proximo_numero_retencion(ultimo: Option<&str>) -> (r: String)
    requires
        numero_de_retencion(vista_opcional(ultimo)) < i64::MAX,
    ensures
        r@ == siguiente_retencion(vista_opcional(ultimo)),
{
    let n = numero_retencion_anterior(ultimo);
    let mut r = String::new();
    agregar_caracter(&mut r, 'R');
    agregar_caracter(&mut r, '-');
    escribir_con_ceros(&mut r, n + 1, 4);
    assert(r@ =~= siguiente_retencion(vista_opcional(ultimo)));
    r
}

/// Formatos de fecha y hora con que se marcan folios, códigos y archivos. Todos se
/// componen de especificadores de `chrono` que una fecha y hora local siempre puede
/// escribir (uno desconocido haría fallar la escritura).
pub open spec fn formato_de_marca(f: Seq<char>) -> bool {
    ||| f == "%Y%m%d%H%M%S"@
    ||| f == "%Y%m%d%H%M%S%3f"@
    ||| f == "%Y%m%d_%H%M%S"@
    ||| f == "%Y%m%d"@
    ||| f == "%H%M%S"@
    ||| f == "%Y-%m"@
    ||| f == "%Y-%m-%d"@
}

/// Año como lo escribe `%Y`: cuatro cifras, o con signo delante (`+` o `-`) y al
/// menos cuatro cifras fuera de los años 0 a 9999.
pub open spec fn anio_escrito(y: Seq<char>) -> bool {
    &&& y.len() >= 4
    &&& es_digito(y[0]) || y[0] == '+' || y[0] == '-'
    &&& forall|i: int| 1 <= i < y.len() ==> es_digito(#[trigger] y[i])
}

/// El texto sigue el patrón: un `9` del patrón es un dígito cualquiera y todo otro
/// carácter del patrón aparece tal cual.
pub open spec fn sigue_patron(s: Seq<char>, p: Seq<char>) -> bool {
    &&& s.len() == p.len()
    &&& forall|i: int| 0 <= i < s.len() ==> if p[i] == '9' { es_digito(#[trigger] s[i]) } else { s[i] == p[i] }
}

/// Un año escrito seguido de un texto que sigue el patrón `resto`.
pub open spec fn con_anio(m: Seq<char>, resto: Seq<char>) -> bool {
    exists|k: int| 4 <= k <= m.len() && #[trigger] anio_escrito(m.take(k)) && sigue_patron(m.skip(k), resto)
}

/// Lo que escribe cada formato de marca: `%Y` como en `anio_escrito`, `%m`, `%d`,
/// `%H`, `%M` y `%S` con dos cifras, `%3f` con tres, y el resto tal cual.
pub open spec fn marca_de_formato(f: Seq<char>, m: Seq<char>) -> bool {
    &&& f == "%Y%m%d%H%M%S"@ ==> con_anio(m, "9999999999"@)
    &&& f == "%Y%m%d%H%M%S%3f"@ ==> con_anio(m, "9999999999999"@)
    &&& f == "%Y%m%d_%H%M%S"@ ==> con_anio(m, "9999_999999"@)
    &&& f == "%Y%m%d"@ ==> con_anio(m, "9999"@)
    &&& f == "%H%M%S"@ ==> sigue_patron(m, "999999"@)
    &&& f == "%Y-%m"@ ==> con_anio(m, "-99"@)
    &&& f == "%Y-%m-%d"@ ==> con_anio(m, "-99-99"@)
}

/// Lo que escribe un formato de marca nunca es vacío.
pub proof fn lema_marca_no_vacia(f: Seq<char>, m: Seq<char>)
    requires
        formato_de_marca(f),
        marca_de_formato(f, m),
    ensures
        m.len() > 0,
{
    if f == "%H%M%S"@ {
        reveal_strlit("999999");
        assert(m.len() == 6);
    } else {
        let resto = if f == "%Y%m%d%H%M%S"@ {
            "9999999999"@
        } else if f == "%Y%m%d%H%M%S%3f"@ {
            "9999999999999"@
        } else if f == "%Y%m%d_%H%M%S"@ {
            "9999_999999"@
        } else if f == "%Y%m%d"@ {
            "9999"@
        } else if f == "%Y-%m"@ {
            "-99"@
        } else {
            "-99-99"@
        };
        assert(con_anio(m, resto));
        let k = choose|k: int| 4 <= k <= m.len() && #[trigger] anio_escrito(m.take(k)) && sigue_patron(m.skip(k), resto);
        assert(m.len() >= 4);
    }
}

/// Fecha y hora local del sistema escritas con un formato de `chrono` (llama a
/// `chrono::Local::now().format(formato).to_string()`). Solo se admiten los formatos
/// de `formato_de_marca`, con los que la escritura no falla. El momento depende del
/// reloj; de la forma del texto se promete lo que `marca_de_formato` dice de cada
/// formato (el ancho y las cifras de cada campo), y nada más.
#[verifier::external_body]
pub(crate) fn fecha_hora_local(formato: &str) -> (r: String)
    requires
        formato_de_marca(formato@),
    ensures
        marca_de_formato(formato@, r@),
{
    chrono::Local::now().format(formato).to_string()
}

/// Código de un cliente: el que trae si no está en blanco, si no `CLI-` seguido de la marca de tiempo.
pub open spec fn codigo_de_cliente(codigo: Option<Seq<char>>, marca: Seq<char>) -> Seq<char> {
    match codigo {
        Some(c) => if recortar(c).len() > 0 { c } else { "CLI-"@ + marca },
        None => "CLI-"@ + marca,
    }
}

/// Código con que se registra un cliente, dada la marca de tiempo del momento.
pub fn codigo_cliente(codigo: Option<&str>, marca: &str) -> (r: String)
    ensures
        r@ == codigo_de_cliente(vista_opcional(codigo), marca@),
{
    match codigo {
        Some(c) => {
            if !vacio_al_recortar(c) {
                return copiar(c);
            }
        },
        None => {},
    }
    let mut r = copiar("CLI-");
    agregar_texto(&mut r, marca);
    r
}

/// Código para un cliente nuevo: el dado si no está en blanco, si no `CLI-` y la fecha
/// y hora locales (`%Y%m%d%H%M%S`).
pub fn nuevo_codigo_cliente(codigo: Option<&str>) -> (r: String)
    ensures
        exists|marca: Seq<char>|
            #![trigger codigo_de_cliente(vista_opcional(codigo), marca)]
            marca.len() > 0 && marca_de_formato("%Y%m%d%H%M%S"@, marca)
                && r@ == codigo_de_cliente(vista_opcional(codigo), marca),
{
    let marca = fecha_hora_local("%Y%m%d%H%M%S");
    proof {
        lema_marca_no_vacia("%Y%m%d%H%M%S"@, marca@);
    }
    codigo_cliente(codigo, marca.as_str())
}

/// Folio de un registro nuevo: el prefijo y la fecha y hora locales con el formato dado
/// (`V-` y `%Y%m%d%H%M%S%3f` para ventas, `C-` para compras, `COT-` para cotizaciones,
/// `DEU-` y `%Y%m%d%H%M%S` para deudas).
pub fn nuevo_folio(prefijo: &str, formato: &str) -> (r: String)
    requires
        formato_de_marca(formato@),
    ensures
        exists|marca: Seq<char>|
            #![trigger prefijo@ + marca]
            marca.len() > 0 && marca_de_formato(formato@, marca) && r@ == prefijo@ + marca,
{
    let marca = fecha_hora_local(formato);
    proof {
        lema_marca_no_vacia(formato@, marca@);
    }
    let mut r = copiar(prefijo);
    agregar_texto(&mut r, marca.as_str());
    r
}

/// El tercer fragmento del texto separado por `-`, si lo hay (`split('-').nth(2)`).
pub open spec fn tercer_fragmento(s: Seq<char>) -> Option<Seq<char>> {
    if exists|i: int, j: int| 0 <= i < j < s.len() && s[i] == '-' && s[j] == '-' {
        let i = choose|i: int| 0 <= i < s.len() && s[i] == '-' && (forall|k: int| 0 <= k < i ==> s[k] != '-');
        let t = s.skip(i + 1);
        let j = choose|j: int| 0 <= j < t.len() && t[j] == '-' && (forall|k: int| 0 <= k < j ==> t[k] != '-');
        let u = t.skip(j + 1);
        if exists|k: int| 0 <= k < u.len() && u[k] == '-' {
            let k = choose|k: int| 0 <= k < u.len() && u[k] == '-' && (forall|m: int| 0 <= m < k ==> u[m] != '-');
            Some(u.take(k))
        } else {
            Some(u)
        }
    } else {
        None
    }
}

/// Día de cobro de una máquina: el día de la fecha de instalación `AAAA-MM-DD` sin espacios
/// en los extremos, si se lee como entero entre 1 y 31; si no, el 1.
pub open spec fn dia_de_cobro(fecha: Seq<char>) -> i32 {
    match tercer_fragmento(recortar(fecha)) {
        Some(d) => match parse_i32_spec(d) {
            Some(n) => if 1 <= n <= 31 { n } else { 1 },
            None => 1,
        },
        None => 1,
    }
}

/// Posición del primer `-` desde `desde`, o la longitud si no hay ninguno.
fn siguiente_guion(v: &Vec<char>, desde: usize) -> (r: usize)
    requires
        desde <= v@.len(),
    ensures
        desde <= r <= v@.len(),
        r < v@.len() ==> v@[r as int] == '-',
        forall|k: int| desde <= k < r ==> v@[k] != '-',
{
    let mut i = desde;
    while i < v.len() && v[i] != '-'
        invariant
            desde <= i <= v@.len(),
            forall|k: int| desde <= k < i ==> v@[k] != '-',
        decreases v@.len() - i,
    {
        i += 1;
    }
    i
}

/// Día del mes en que se cobra la comisión de una máquina, según su fecha de instalación.
pub fn dia_cobro(fecha_instalacion: &str) -> (r: i32)
    ensures
        r == dia_de_cobro(fecha_instalacion@),
        1 <= r <= 31,
{
    let t = crate::texto::recortar_texto(fecha_instalacion);
    let v = caracteres(t.as_str());
    let n = v.len();
    let i = siguiente_guion(&v, 0);
    if i >= n {
        proof { lema_sin_dos_guiones(v@, i as int); }
        return 1;
    }
    let j = siguiente_guion(&v, i + 1);
    if j >= n {
        proof { lema_sin_dos_guiones_despues(v@, i as int); }
        return 1;
    }
    let k = siguiente_guion(&v, j + 1);
    let d = cadena_de_rango(&v, j + 1, k);
    proof { lema_tercer_fragmento(v@, i as int, j as int, k as int); }
    assert(d@ =~= v@.subrange(j + 1, k as int));
    match parse_i32(d.as_str()) {
        Some(x) => if 1 <= x && x <= 31 { x } else { 1 },
        None => 1,
    }
}

proof fn lema_sin_dos_guiones(s: Seq<char>, i: int)
    requires
        i == s.len(),
        forall|k: int| 0 <= k < i ==> s[k] != '-',
    ensures
        tercer_fragmento(s) is None,
{
}

proof fn lema_sin_dos_guiones_despues(s: Seq<char>, i: int)
    requires
        0 <= i < s.len(),
        s[i] == '-',
        forall|k: int| 0 <= k < i ==> s[k] != '-',
        forall|k: int| i + 1 <= k < s.len() ==> s[k] != '-',
    ensures
        tercer_fragmento(s) is None,
{
    if exists|a: int, b: int| 0 <= a < b < s.len() && s[a] == '-' && s[b] == '-' {
        let (a, b) = choose|a: int, b: int| 0 <= a < b < s.len() && s[a] == '-' && s[b] == '-';
        assert(a >= i);
        assert(false);
    }
}

proof fn lema_tercer_fragmento(s: Seq<char>, i: int, j: int, k: int)
    requires
        0 <= i < j < s.len(),
        j < k <= s.len(),
        s[i] == '-',
        s[j] == '-',
        forall|m: int| 0 <= m < i ==> s[m] != '-',
        forall|m: int| i + 1 <= m < j ==> s[m] != '-',
        forall|m: int| j + 1 <= m < k ==> s[m] != '-',
        k < s.len() ==> s[k] == '-',
    ensures
        tercer_fragmento(s) == Some(s.subrange(j + 1, k)),
{
    assert(0 <= i < j < s.len() && s[i] == '-' && s[j] == '-');
    let i2 = choose|i2: int| 0 <= i2 < s.len() && s[i2] == '-' && (forall|m: int| 0 <= m < i2 ==> s[m] != '-');
    assert(i2 == i) by {
        if i2 < i {
            assert(s[i2] != '-');
        }
        if i2 > i {
            assert(s[i] != '-');
        }
    }
    let t = s.skip(i + 1);
    assert(t[j - i - 1] == '-');
    let j2 = choose|j2: int| 0 <= j2 < t.len() && t[j2] == '-' && (forall|m: int| 0 <= m < j2 ==> t[m] != '-');
    assert(j2 == j - i - 1) by {
        if j2 < j - i - 1 {
            assert(t[j2] == s[j2 + i + 1]);
        }
        if j2 > j - i - 1 {
            assert(t[j - i - 1] != '-');
        }
    }
    let u = t.skip(j2 + 1);
    assert(u =~= s.skip(j + 1));
    if k < s.len() {
        assert(u[k - j - 1] == '-');
        let k2 = choose|k2: int| 0 <= k2 < u.len() && u[k2] == '-' && (forall|m: int| 0 <= m < k2 ==> u[m] != '-');
        assert(k2 == k - j - 1) by {
            if k2 < k - j - 1 {
                assert(u[k2] == s[k2 + j + 1]);
            }
            if k2 > k - j - 1 {
                assert(u[k - j - 1] != '-');
            }
        }
        assert(u.take(k2) =~= s.subrange(j + 1, k));
    } else {
        if exists|m: int| 0 <= m < u.len() && u[m] == '-' {
            let m = choose|m: int| 0 <= m < u.len() && u[m] == '-';
            assert(u[m] == s[m + j + 1]);
        }
        assert(u =~= s.subrange(j + 1, k));
    }
}

} // verus!
