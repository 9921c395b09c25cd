//! Escritura y lectura de enteros en base diez, con las reglas de `format!`
//! (`{}`, `{:0N}`, `{:>N}`) y de `str::parse` para enteros con signo.

use vstd::prelude::*;
use crate::texto::{agregar_caracter, caracteres};

verus! {

/// Carácter del dígito decimal `d` (entre 0 y 9).
pub open spec fn digito(d: int) -> char {
    (('0' as int) + d) as char
}

/// Escritura decimal de un natural, sin ceros a la izquierda ("0" para el cero).
pub open spec fn decimal(n: nat) -> Seq<char>
    decreases n,
{
    if n < 10 {
        seq![digito(n as int)]
    } else {
        decimal(n / 10).push(digito((n % 10) as int))
    }
}

/// Escritura decimal de un entero con signo, como `{}`.
pub open spec fn decimal_con_signo(n: int) -> Seq<char> {
    if n < 0 {
        seq!['-'] + decimal((-n) as nat)
    } else {
        decimal(n as nat)
    }
}

/// `n` caracteres `c` seguidos.
pub open spec fn repetido(c: char, n: nat) -> Seq<char> {
    Seq::new(n, |_i: int| c)
}

/// Completa `s` por la izquierda con `c` hasta tener al menos `ancho` caracteres.
pub open spec fn rellenar_izquierda(s: Seq<char>, c: char, ancho: nat) -> Seq<char> {
    if s.len() < ancho {
        repetido(c, (ancho - s.len()) as nat) + s
    } else {
        s
    }
}

/// Completa `s` por la derecha con espacios hasta tener al menos `ancho` caracteres (`{:N}` de texto).
pub open spec fn rellenar_derecha(s: Seq<char>, ancho: nat) -> Seq<char> {
    if s.len() < ancho {
        s + repetido(' ', (ancho - s.len()) as nat)
    } else {
        s
    }
}

/// Entero con ceros a la izquierda hasta `ancho` caracteres contando el signo (`{:0N}`).
pub open spec fn con_ceros(n: int, ancho: nat) -> Seq<char> {
    if n < 0 {
        seq!['-'] + rellenar_izquierda(decimal((-n) as nat), '0', if ancho >= 1 { (ancho - 1) as nat } else { 0 })
    } else {
        rellenar_izquierda(decimal(n as nat), '0', ancho)
    }
}

/// Dígito decimal ASCII.
pub open spec fn es_digito(c: char) -> bool {
    '0' <= c <= '9'
}

/// Todos los caracteres son dígitos decimales ASCII.
pub open spec fn todos_digitos(s: Seq<char>) -> bool {
    forall|i: int| 0 <= i < s.len() ==> es_digito(#[trigger] s[i])
}

/// Valor de una secuencia de dígitos decimales.
pub open spec fn valor_digitos(s: Seq<char>) -> nat
    decreases s.len(),
{
    if s.len() == 0 {
        0
    } else {
        valor_digitos(s.drop_last()) * 10 + ((s.last() as int) - ('0' as int)) as nat
    }
}

/// El entero que denota un texto según `str::parse` de enteros con signo: un `+` o `-`
/// opcional seguido de al menos un dígito y nada más.
pub open spec fn entero_de_texto(s: Seq<char>) -> Option<int> {
    let neg = s.len() > 0 && s[0] == '-';
    let con_signo = s.len() > 0 && (s[0] == '-' || s[0] == '+');
    let d = if con_signo { s.skip(1) } else { s };
    if d.len() == 0 || !todos_digitos(d) {
        None
    } else if neg {
        Some(-(valor_digitos(d) as int))
    } else {
        Some(valor_digitos(d) as int)
    }
}

/// Resultado de `str::parse::<i64>()`: el entero si el texto es válido y cabe en `i64`.
pub open spec fn parse_i64_spec(s: Seq<char>) -> Option<i64> {
    match entero_de_texto(s) {
        Some(v) => if i64::MIN <= v <= i64::MAX { Some(v as i64) } else { None },
        None => None,
    }
}

/// Resultado de `str::parse::<i32>()`: el entero si el texto es válido y cabe en `i32`.
pub open spec fn parse_i32_spec(s: Seq<char>) -> Option<i32> {
    match entero_de_texto(s) {
        Some(v) => if i32::MIN <= v <= i32::MAX { Some(v as i32) } else { None },
        None => None,
    }
}

/// Añade a `s` la escritura decimal de `n`.
pub fn escribir_decimal(s: &mut String, n: u64)
    ensures
        final(s)@ == old(s)@ + decimal(n as nat),
    decreases n,
{
    if n >= 10 {
        escribir_decimal(s, n / 10);
    }
    let d = ((48u64 + n % 10) as u8) as char;
    agregar_caracter(s, d);
    assert(decimal(n as nat) == if n < 10 { seq![d] } else { decimal((n / 10) as nat).push(d) });
    if n >= 10 {
        assert(old(s)@ + decimal((n / 10) as nat) + seq![d] =~= old(s)@ + decimal(n as nat));
    } else {
        assert(old(s)@.push(d) =~= old(s)@ + decimal(n as nat));
    }
}

/// Diez elevado a `k`.
pub open spec fn potencia10(k: nat) -> nat
    decreases k,
{
    if k == 0 { 1 } else { 10 * potencia10((k - 1) as nat) }
}

/// Un natural menor que 10^k se escribe con a lo sumo `k` dígitos.
pub proof fn lema_longitud_acotada(n: nat, k: nat)
    requires
        k >= 1,
        n < potencia10(k),
    ensures
        decimal(n).len() <= k,
    decreases k,
{
    if n >= 10 {
        assert(k >= 2) by {
            if k == 1 {
                assert(potencia10(1) == 10) by {
                    reveal_with_fuel(potencia10, 2);
                }
            }
        }
        assert(n / 10 < potencia10((k - 1) as nat)) by (nonlinear_arith)
            requires
                n < potencia10(k),
                potencia10(k) == 10 * potencia10((k - 1) as nat),
        ;
        lema_longitud_acotada(n / 10, (k - 1) as nat);
    }
}

/// Valor absoluto de un `i64` como `u64`.
pub fn valor_absoluto(n: i64) -> (r: u64)
    ensures
        r as int == if n < 0 { -(n as int) } else { n as int },
{
    if n < 0 {
        ((-(n + 1)) as u64) + 1
    } else {
        n as u64
    }
}

/// Longitud de la escritura decimal de `n`.
pub fn longitud_decimal(n: u64) -> (r: usize)
    ensures
        r == decimal(n as nat).len(),
        1 <= r <= 20,
    decreases n,
{
    if n < 10 {
        1
    } else {
        let r = longitud_decimal(n / 10);
        assert(decimal(n as nat).len() == decimal((n / 10) as nat).len() + 1);
        proof {
            assert(potencia10(20) == 100000000000000000000nat) by {
                reveal_with_fuel(potencia10, 21);
            }
            lema_longitud_acotada(n as nat, 20);
        }
        r + 1
    }
}

/// Añade `n` veces el carácter `c`.
pub fn escribir_repetido(s: &mut String, c: char, n: usize)
    ensures
        final(s)@ == old(s)@ + repetido(c, n as nat),
{
    let mut i: usize = 0;
    while i < n
        invariant
            0 <= i <= n,
            s@ == old(s)@ + repetido(c, i as nat),
        decreases n - i,
    {
        agregar_caracter(s, c);
        assert(old(s)@ + repetido(c, i as nat) + seq![c] =~= old(s)@ + repetido(c, (i + 1) as nat));
        i += 1;
    }
}

/// Añade `n` con ceros a la izquierda hasta `ancho` caracteres, como `{:0N}`.
pub fn escribir_con_ceros(s: &mut String, n: i64, ancho: usize)
    ensures
        final(s)@ == old(s)@ + con_ceros(n as int, ancho as nat),
{
    let a = valor_absoluto(n);
    let len = longitud_decimal(a);
    let ancho_digitos: usize = if n < 0 { if ancho >= 1 { ancho - 1 } else { 0 } } else { ancho };
    if n < 0 {
        agregar_caracter(s, '-');
    }
    let ghost s1 = s@;
    if len < ancho_digitos {
        escribir_repetido(s, '0', ancho_digitos - len);
    }
    escribir_decimal(s, a);
    proof {
        let d = decimal(a as nat);
        assert(rellenar_izquierda(d, '0', ancho_digitos as nat) == if len < ancho_digitos {
            repetido('0', (ancho_digitos - len) as nat) + d
        } else {
            d
        });
        if n < 0 {
            assert(s1 == old(s)@.push('-'));
            if len < ancho_digitos {
                assert(s@ =~= old(s)@ + (seq!['-'] + rellenar_izquierda(d, '0', ancho_digitos as nat)));
            } else {
                assert(s@ =~= old(s)@ + (seq!['-'] + rellenar_izquierda(d, '0', ancho_digitos as nat)));
            }
        } else {
            assert(s@ =~= old(s)@ + rellenar_izquierda(d, '0', ancho_digitos as nat));
        }
    }
}

/// Añade la escritura decimal con signo de `n`, como `{}`.
pub fn escribir_entero(s: &mut String, n: i64)
    ensures
        final(s)@ == old(s)@ + decimal_con_signo(n as int),
{
    let a = valor_absoluto(n);
    if n < 0 {
        agregar_caracter(s, '-');
    }
    let ghost s1 = s@;
    escribir_decimal(s, a);
    assert(s@ =~= old(s)@ + decimal_con_signo(n as int));
}

/// Añade `n` alineado a la derecha con espacios hasta `ancho` caracteres (`{:>N}`).
pub fn escribir_derecha(s: &mut String, n: i64, ancho: usize)
    ensures
        final(s)@ == old(s)@ + rellenar_izquierda(decimal_con_signo(n as int), ' ', ancho as nat),
{
    let a = valor_absoluto(n);
    let len = longitud_decimal(a) + if n < 0 { 1usize } else { 0usize };
    let ghost d = decimal_con_signo(n as int);
    assert(d.len() == len);
    if len < ancho {
        escribir_repetido(s, ' ', ancho - len);
    }
    let ghost s1 = s@;
    if n < 0 {
        agregar_caracter(s, '-');
    }
    escribir_decimal(s, a);
    proof {
        if n < 0 {
            assert(s@ =~= s1 + d);
        } else {
            assert(s@ =~= s1 + d);
        }
        assert(s@ =~= old(s)@ + rellenar_izquierda(d, ' ', ancho as nat));
    }
}

/// El valor de un prefijo de dígitos no supera el valor del texto completo.
pub proof fn lema_valor_prefijo(s: Seq<char>, i: int)
    requires
        0 <= i <= s.len(),
        todos_digitos(s),
    ensures
        valor_digitos(s.take(i)) <= valor_digitos(s),
    decreases s.len(),
{
    if i < s.len() {
        assert(s.drop_last().take(i) =~= s.take(i));
        assert(es_digito(s[s.len() - 1]));
        lema_valor_prefijo(s.drop_last(), i);
    } else {
        assert(s.take(i) =~= s);
    }
}

/// 2^63, el mayor valor absoluto que admite un `i64` (el de `i64::MIN`).
pub const DOS_A_LA_63: u128 = 0x8000_0000_0000_0000;

/// Lee un entero con signo como `str::parse::<i64>()`.
pub fn parse_i64(texto: &str) -> (r: Option<i64>)
    ensures
        r == parse_i64_spec(texto@),
{
    let v = caracteres(texto);
    let n = v.len();
    let neg = n > 0 && v[0] == '-';
    let con_signo = n > 0 && (v[0] == '-' || v[0] == '+');
    let inicio: usize = if con_signo { 1 } else { 0 };
    let ghost d = if con_signo { texto@.skip(1) } else { texto@ };
    assert(d =~= v@.subrange(inicio as int, n as int));
    if inicio >= n {
        return None;
    }
    let mut acc: u128 = 0;
    let mut i: usize = inicio;
    while i < n
        invariant
            inicio <= i <= n,
            n == v@.len(),
            v@ == texto@,
            d == v@.subrange(inicio as int, n as int),
            neg == (texto@.len() > 0 && texto@[0] == '-'),
            con_signo == (texto@.len() > 0 && (texto@[0] == '-' || texto@[0] == '+')),
            d == if con_signo { texto@.skip(1) } else { texto@ },
            inicio == if con_signo { 1usize } else { 0usize },
            d.len() > 0,
            forall|j: int| 0 <= j < i - inicio ==> es_digito(#[trigger] d[j]),
            acc as nat == valor_digitos(d.take(i - inicio)),
            acc <= DOS_A_LA_63,
        decreases n - i,
    {
        let c = v[i];
        if !('0' <= c && c <= '9') {
            assert(!es_digito(d[i - inicio]));
            return None;
        }
        let ghost k: int = i - inicio;
        assert(d.take(k + 1).drop_last() =~= d.take(k));
        assert(d.take(k + 1).last() == c);
        acc = acc * 10 + ((c as u32) - 48) as u128;
        i += 1;
        if acc > DOS_A_LA_63 {
            proof {
                if todos_digitos(d) {
                    lema_valor_prefijo(d, i - inicio);
                }
            }
            return None;
        }
    }
    assert(d.take(n - inicio) =~= d);
    assert(todos_digitos(d));
    if neg {
        let r: i64 = if acc == DOS_A_LA_63 { i64::MIN } else { -(acc as i64) };
        Some(r)
    } else {
        if acc == DOS_A_LA_63 {
            None
        } else {
            Some(acc as i64)
        }
    }
}

/// Lee un entero con signo como `str::parse::<i32>()`.
pub fn parse_i32(texto: &str) -> (r: Option<i32>)
    ensures
        r == parse_i32_spec(texto@),
{
    match parse_i64(texto) {
        Some(x) => if -2147483648 <= x && x <= 2147483647 { Some(x as i32) } else { None },
        None => None,
    }
}

/// El carácter de un dígito tiene el código de `'0'` más el dígito.
pub proof fn lema_codigo_digito(d: int)
    requires
        0 <= d < 10,
    ensures
        digito(d) as int == ('0' as int) + d,
{
    assert(('0' as int) == 48);
}

/// La escritura decimal de `n` son dígitos y se lee como `n`.
pub proof fn lema_decimal_se_lee(n: nat)
    ensures
        todos_digitos(decimal(n)),
        valor_digitos(decimal(n)) == n,
        decimal(n).len() >= 1,
    decreases n,
{
    if n < 10 {
        let d = decimal(n);
        assert(d.drop_last() =~= Seq::<char>::empty());
        assert(d.last() == digito(n as int));
        lema_codigo_digito(n as int);
        assert(valor_digitos(d.drop_last()) == 0);
        assert(valor_digitos(d) == valor_digitos(d.drop_last()) * 10 + ((d.last() as int) - ('0' as int)) as nat);
    } else {
        lema_decimal_se_lee(n / 10);
        let d = decimal(n);
        assert(d.drop_last() =~= decimal(n / 10));
        assert(d.last() == digito((n % 10) as int));
        lema_codigo_digito((n % 10) as int);
        assert forall|i: int| 0 <= i < d.len() implies es_digito(#[trigger] d[i]) by {
            if i < d.len() - 1 {
                assert(d[i] == decimal(n / 10)[i]);
            }
        }
        assert((n / 10) * 10 + n % 10 == n) by (nonlinear_arith);
        assert(valor_digitos(d) == valor_digitos(d.drop_last()) * 10 + ((d.last() as int) - ('0' as int)) as nat);
        assert(valor_digitos(d) == (n / 10) * 10 + n % 10);
    }
}

/// Una racha de ceros vale cero.
pub proof fn lema_ceros_valen_cero(k: nat)
    ensures
        todos_digitos(repetido('0', k)),
        valor_digitos(repetido('0', k)) == 0,
    decreases k,
{
    if k > 0 {
        lema_ceros_valen_cero((k - 1) as nat);
        assert(repetido('0', k).drop_last() =~= repetido('0', (k - 1) as nat));
    }
}

/// Los ceros a la izquierda no cambian el valor de una secuencia de dígitos.
pub proof fn lema_ceros_izquierda(k: nat, s: Seq<char>)
    requires
        todos_digitos(s),
    ensures
        todos_digitos(repetido('0', k) + s),
        valor_digitos(repetido('0', k) + s) == valor_digitos(s),
    decreases s.len(),
{
    let z = repetido('0', k);
    lema_ceros_valen_cero(k);
    assert forall|i: int| 0 <= i < (z + s).len() implies es_digito(#[trigger] (z + s)[i]) by {
        if i < z.len() {
            assert((z + s)[i] == z[i]);
        } else {
            assert((z + s)[i] == s[i - z.len()]);
        }
    }
    if s.len() == 0 {
        assert(z + s =~= z);
    } else {
        lema_ceros_izquierda(k, s.drop_last());
        assert((z + s).drop_last() =~= z + s.drop_last());
        assert((z + s).last() == s.last());
    }
}

/// Lo escrito con `{:0N}` se lee con `str::parse` como el mismo entero.
pub proof fn lema_con_ceros_se_lee(m: int, ancho: nat)
    ensures
        entero_de_texto(con_ceros(m, ancho)) == Some(m),
{
    if m < 0 {
        let d = decimal((-m) as nat);
        lema_decimal_se_lee((-m) as nat);
        let a = if ancho >= 1 { (ancho - 1) as nat } else { 0nat };
        let r = rellenar_izquierda(d, '0', a);
        if d.len() < a {
            lema_ceros_izquierda((a - d.len()) as nat, d);
        }
        let s = con_ceros(m, ancho);
        assert(s == seq!['-'] + r);
        assert(s.skip(1) =~= r);
        assert(r.len() >= 1);
    } else {
        let d = decimal(m as nat);
        lema_decimal_se_lee(m as nat);
        let r = rellenar_izquierda(d, '0', ancho);
        if d.len() < ancho {
            lema_ceros_izquierda((ancho - d.len()) as nat, d);
        }
        assert(con_ceros(m, ancho) == r);
        assert(es_digito(r[0]));
    }
}

} // verus!
