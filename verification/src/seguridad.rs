//! Contraseñas y tokens de sesión: el hash FNV-1a con sal con que se guardan
//! las contraseñas, la representación hexadecimal de 16 dígitos, la
//! generación de tokens de acceso y el almacén de tokens que autoriza las
//! peticiones a la API.

use vstd::prelude::*;
use vstd::string::StringSliceAdditionalSpecFns;
use crate::texto::{agregar_texto, caracteres, cadena_de_rango};

verus! {

broadcast use vstd::string::group_string_axioms;

/// Valor inicial (base de desplazamiento) de FNV-1a de 64 bits.
pub const FNV_BASE: u64 = 0xcbf29ce484222325;

/// Primo de FNV-1a de 64 bits.
pub const FNV_PRIMO: u64 = 0x100000001b3;

/// Un paso de FNV-1a: combina el byte con `^` y multiplica por el primo módulo 2^64.
pub open spec fn fnv1a_paso(h: u64, b: u8) -> u64 {
    (h ^ (b as u64)).wrapping_mul(FNV_PRIMO)
}

/// FNV-1a de 64 bits de una secuencia de bytes.
pub open spec fn fnv1a(datos: Seq<u8>) -> u64
    decreases datos.len(),
{
    if datos.len() == 0 {
        FNV_BASE
    } else {
        fnv1a_paso(fnv1a(datos.drop_last()), datos.last())
    }
}

/// Dígito hexadecimal en minúscula para un valor entre 0 y 15.
pub open spec fn digito_hex(v: int) -> char {
    if v < 10 {
        (('0' as int) + v) as char
    } else {
        (('a' as int) + v - 10) as char
    }
}

/// Los `n` dígitos hexadecimales de menor peso de `v`, del más significativo al menos.
pub open spec fn hex_digitos(v: nat, n: nat) -> Seq<char>
    decreases n,
{
    if n == 0 {
        Seq::empty()
    } else {
        hex_digitos(v / 16, (n - 1) as nat).push(digito_hex((v % 16) as int))
    }
}

/// Representación de `v` con 16 dígitos hexadecimales en minúscula (formato `{:016x}`).
pub open spec fn hex16(v: u64) -> Seq<char> {
    hex_digitos(v as nat, 16)
}

/// La sal que precede a la contraseña antes de calcular el hash.
pub open spec fn sal() -> Seq<u8> {
    "contab_ec_2026".spec_bytes()
}

/// El hash con que se guarda una contraseña: FNV-1a sobre los bytes UTF-8 de la sal
/// seguida de la contraseña, en 16 dígitos hexadecimales.
pub open spec fn hash_contrasena(contrasena: Seq<u8>) -> Seq<char> {
    hex16(fnv1a(sal() + contrasena))
}

/// Carácter que es un dígito hexadecimal en minúscula.
pub open spec fn es_hex_minuscula(c: char) -> bool {
    ('0' <= c <= '9') || ('a' <= c <= 'f')
}

/// Devuelve el dígito hexadecimal en minúscula de `v`.
fn digito_hex_exec(v: u64) -> (c: char)
    requires
        v < 16,
    ensures
        c == digito_hex(v as int),
{
    if v < 10 {
        ((48u64 + v) as u8) as char
    } else {
        ((87u64 + v) as u8) as char
    }
}

/// Escribe `v` como 16 dígitos hexadecimales en minúscula, con ceros a la izquierda.
pub fn hex16_exec(v: u64) -> (s: String)
    ensures
        s@ == hex16(v),
{
    let mut digitos: Vec<char> = vec!['0'; 16];
    let mut w: u64 = v;
    let mut k: usize = 0;
    while k < 16
        invariant
            0 <= k <= 16,
            digitos@.len() == 16,
            hex16(v) == hex_digitos(w as nat, (16 - k) as nat) + digitos@.subrange(16 - k, 16),
        decreases 16 - k,
    {
        let d = digito_hex_exec(w % 16);
        let ghost antes = digitos@;
        digitos.set(15 - k, d);
        assert(digitos@.subrange(15 - k, 16) =~= seq![d] + antes.subrange(16 - k, 16));
        assert(hex_digitos(w as nat, (16 - k) as nat) == hex_digitos((w / 16) as nat, (15 - k) as nat).push(d));
        assert(hex_digitos((w / 16) as nat, (15 - k) as nat).push(d) + antes.subrange(16 - k, 16)
            =~= hex_digitos((w / 16) as nat, (15 - k) as nat) + digitos@.subrange(15 - k, 16));
        w = w / 16;
        k += 1;
    }
    assert(hex_digitos(w as nat, 0) =~= Seq::<char>::empty());
    assert(digitos@.subrange(0, 16) =~= digitos@);
    let s = cadena_de_rango(&digitos, 0, 16);
    s
}

/// Continúa FNV-1a desde `h` con los bytes de `datos`.
fn fnv1a_continuar(h: u64, previos: Ghost<Seq<u8>>, datos: &[u8]) -> (r: u64)
    requires
        h == fnv1a(previos@),
    ensures
        r == fnv1a(previos@ + datos@),
{
    let mut h = h;
    let mut i: usize = 0;
    while i < datos.len()
        invariant
            0 <= i <= datos@.len(),
            h == fnv1a(previos@ + datos@.subrange(0, i as int)),
        decreases datos@.len() - i,
    {
        let b = datos[i];
        assert((previos@ + datos@.subrange(0, i + 1)).drop_last() =~= previos@ + datos@.subrange(0, i as int));
        h = (h ^ (b as u64)).wrapping_mul(FNV_PRIMO);
        i += 1;
    }
    assert(datos@.subrange(0, datos@.len() as int) =~= datos@);
    h
}

/// Hash con que se guarda y se verifica una contraseña: FNV-1a de 64 bits sobre la
/// sal `contab_ec_2026` seguida de los bytes UTF-8 de la contraseña, escrito con
/// 16 dígitos hexadecimales en minúscula.
pub fn hash_password(contrasena: &str) -> (r: String)
    ensures
        r@ == hash_contrasena(contrasena.spec_bytes()),
{
    let sal_bytes = "contab_ec_2026".as_bytes();
    assert(Seq::<u8>::empty() + sal_bytes@ =~= sal_bytes@);
    let h = fnv1a_continuar(FNV_BASE, Ghost(Seq::empty()), sal_bytes);
    let h = fnv1a_continuar(h, Ghost(sal_bytes@), contrasena.as_bytes());
    hex16_exec(h)
}

/// FNV-1a de 64 bits escrito como pliegue de izquierda a derecha: desde la base
/// `0xcbf29ce484222325`, cada byte se combina con `^` y el resultado se multiplica
/// por `0x100000001b3` módulo 2^64.
pub open spec fn fnv1a_pliegue(datos: Seq<u8>) -> u64 {
    datos.fold_left(
        0xcbf29ce484222325u64,
        |h: u64, b: u8| (h ^ (b as u64)).wrapping_mul(0x100000001b3u64),
    )
}

/// `fnv1a` y el pliegue byte a byte dan lo mismo sobre cualquier secuencia.
pub proof fn lema_fnv1a_es_pliegue(datos: Seq<u8>)
    ensures
        fnv1a(datos) == fnv1a_pliegue(datos),
    decreases datos.len(),
{
    if datos.len() > 0 {
        lema_fnv1a_es_pliegue(datos.drop_last());
    }
}

/// El hash de una contraseña depende de todos sus bytes: es el FNV-1a, byte a byte,
/// de la sal `contab_ec_2026` seguida de la contraseña entera, en 16 dígitos
/// hexadecimales; y añadir un byte `b` a la contraseña da el paso de FNV-1a con `b`
/// sobre el estado de la contraseña sin él.
pub proof fn ley_hash_usa_toda_la_contrasena(contrasena: Seq<u8>, b: u8)
    ensures
        hash_contrasena(contrasena) == hex16(fnv1a_pliegue("contab_ec_2026".spec_bytes() + contrasena)),
        hash_contrasena(contrasena.push(b))
            == hex16(fnv1a_paso(fnv1a_pliegue("contab_ec_2026".spec_bytes() + contrasena), b)),
{
    let d = "contab_ec_2026".spec_bytes() + contrasena;
    lema_fnv1a_es_pliegue(d);
    assert((d.push(b)).drop_last() =~= d);
    assert("contab_ec_2026".spec_bytes() + contrasena.push(b) =~= d.push(b));
}

/// Número aleatorio de 64 bits: llama a `rand::random::<u64>()`. El resultado
/// depende del generador del hilo, así que no se promete nada de su valor.
#[verifier::external_body]
fn numero_aleatorio() -> u64 {
    rand::random::<u64>()
}

/// Un token de sesión: dos números de 64 bits escritos con 16 dígitos hexadecimales cada uno.
pub open spec fn es_token(t: Seq<char>) -> bool {
    exists|a: u64, b: u64| t == #[trigger] hex16(a) + #[trigger] hex16(b)
}

/// Token formado por dos números de 64 bits (formato `{:016x}{:016x}`).
pub fn token_con(a: u64, b: u64) -> (t: String)
    ensures
        t@ == hex16(a) + hex16(b),
        es_token(t@),
        t@.len() == 32,
{
    let mut t = hex16_exec(a);
    let sb = hex16_exec(b);
    agregar_texto(&mut t, sb.as_str());
    proof {
        lema_hex_longitud(a as nat, 16);
        lema_hex_longitud(b as nat, 16);
    }
    t
}

/// Genera un token de acceso de 32 dígitos hexadecimales a partir de dos números
/// aleatorios de 64 bits.
pub fn generar_token() -> (t: String)
    ensures
        es_token(t@),
        t@.len() == 32,
{
    let a = numero_aleatorio();
    let b = numero_aleatorio();
    token_con(a, b)
}

/// Los dígitos de `hex_digitos` son tantos como se piden.
pub proof fn lema_hex_longitud(v: nat, n: nat)
    ensures
        hex_digitos(v, n).len() == n,
    decreases n,
{
    if n > 0 {
        lema_hex_longitud(v / 16, (n - 1) as nat);
    }
}

/// Valor de un dígito hexadecimal en minúscula.
pub open spec fn valor_digito_hex(c: char) -> int {
    if '0' <= c <= '9' {
        (c as int) - ('0' as int)
    } else {
        (c as int) - ('a' as int) + 10
    }
}

/// Valor de un texto hexadecimal, leído del dígito más significativo al menos.
pub open spec fn valor_hex(s: Seq<char>) -> int
    decreases s.len(),
{
    if s.len() == 0 {
        0
    } else {
        valor_hex(s.drop_last()) * 16 + valor_digito_hex(s.last())
    }
}

/// 16 elevado a `n`.
pub open spec fn potencia16(n: nat) -> int
    decreases n,
{
    if n == 0 {
        1
    } else {
        16 * potencia16((n - 1) as nat)
    }
}

/// Los `n` dígitos de `hex_digitos` son hexadecimales en minúscula y se leen como
/// `v` módulo 16^n.
proof fn lema_hex_digitos_se_leen(v: nat, n: nat)
    ensures
        hex_digitos(v, n).len() == n,
        forall|i: int| 0 <= i < n ==> es_hex_minuscula(#[trigger] hex_digitos(v, n)[i]),
        valor_hex(hex_digitos(v, n)) == (v as int) % potencia16(n),
        potencia16(n) > 0,
    decreases n,
{
    if n == 0 {
        assert((v as int) % 1 == 0) by (nonlinear_arith);
    } else {
        let m = (n - 1) as nat;
        lema_hex_digitos_se_leen(v / 16, m);
        let d = (v % 16) as int;
        let c = digito_hex(d);
        assert(valor_digito_hex(c) == d && es_hex_minuscula(c));
        let h = hex_digitos(v, n);
        assert(h == hex_digitos(v / 16, m).push(c));
        assert(h.drop_last() =~= hex_digitos(v / 16, m));
        vstd::arithmetic::div_mod::lemma_breakdown(v as int, 16, potencia16(m));
        assert(valor_hex(h) == ((v / 16) as int % potencia16(m)) * 16 + d);
        assert(((v / 16) as int % potencia16(m)) * 16 == 16 * (((v as int) / 16) % potencia16(m)));
        assert(potencia16(n) == 16 * potencia16(m));
    }
}

/// `hex16` escribe exactamente 16 dígitos hexadecimales en minúscula que, leídos en
/// base 16, devuelven el número: dos números distintos nunca dan el mismo texto.
pub proof fn ley_hex16_se_lee(v: u64, w: u64)
    ensures
        hex16(v).len() == 16,
        forall|i: int| 0 <= i < 16 ==> es_hex_minuscula(#[trigger] hex16(v)[i]),
        valor_hex(hex16(v)) == v,
        hex16(v) == hex16(w) ==> v == w,
{
    lema_hex_digitos_se_leen(v as nat, 16);
    lema_hex_digitos_se_leen(w as nat, 16);
    reveal_with_fuel(potencia16, 17);
    assert(potencia16(16) == 0x10000000000000000);
    vstd::arithmetic::div_mod::lemma_small_mod(v as nat, 0x10000000000000000nat);
    vstd::arithmetic::div_mod::lemma_small_mod(w as nat, 0x10000000000000000nat);
}

/// Prefijo del esquema de autorización `Bearer` en la cabecera HTTP.
pub open spec fn prefijo_bearer() -> Seq<char> {
    seq!['B', 'e', 'a', 'r', 'e', 'r', ' ']
}

/// El token que lleva una cabecera `Authorization`: lo que sigue a `Bearer `, si la
/// cabecera existe y empieza así.
pub open spec fn token_de_cabecera(cabecera: Option<Seq<char>>) -> Option<Seq<char>> {
    match cabecera {
        Some(h) => if h.len() >= 7 && h.subrange(0, 7) == prefijo_bearer() {
            Some(h.skip(7))
        } else {
            None
        },
        None => None,
    }
}

/// Vista de una cabecera opcional como secuencia de caracteres.
pub open spec fn vista_cabecera(cabecera: Option<&str>) -> Option<Seq<char>> {
    match cabecera {
        Some(h) => Some(h@),
        None => None,
    }
}

/// Extrae el token de una cabecera `Authorization: Bearer <token>`.
pub fn extraer_token_bearer(cabecera: Option<&str>) -> (r: Option<String>)
    ensures
        match r {
            Some(t) => token_de_cabecera(vista_cabecera(cabecera)) == Some(t@),
            None => token_de_cabecera(vista_cabecera(cabecera)) is None,
        },
{
    match cabecera {
        None => None,
        Some(h) => {
            let v = caracteres(h);
            if v.len() < 7 {
                return None;
            }
            let esperado: [char; 7] = ['B', 'e', 'a', 'r', 'e', 'r', ' '];
            let mut i: usize = 0;
            while i < 7
                invariant
                    0 <= i <= 7,
                    cabecera == Some(h),
                    v@ == h@,
                    v@.len() >= 7,
                    esperado@ == prefijo_bearer(),
                    forall|j: int| 0 <= j < i ==> v@[j] == prefijo_bearer()[j],
                decreases 7 - i,
            {
                if v[i] != esperado[i] {
                    assert(v@.subrange(0, 7)[i as int] != prefijo_bearer()[i as int]);
                    assert(h@.subrange(0, 7) != prefijo_bearer());
                    return None;
                }
                i += 1;
            }
            assert(v@.subrange(0, 7) =~= prefijo_bearer());
            let t = cadena_de_rango(&v, 7, v.len());
            assert(t@ =~= h@.skip(7));
            Some(t)
        },
    }
}

/// Los tokens de sesión emitidos por el servidor en orden de emisión.
pub struct AlmacenTokens {
    tokens: Vec<String>,
}

impl View for AlmacenTokens {
    type V = Seq<Seq<char>>;

    closed spec fn view(&self) -> Seq<Seq<char>> {
        self.tokens@.map_values(|t: String| t@)
    }
}

impl AlmacenTokens {
    /// Un almacén sin tokens.
    pub fn new() -> (a: AlmacenTokens)
        ensures
            a@ == Seq::<Seq<char>>::empty(),
    {
        let a = AlmacenTokens { tokens: Vec::new() };
        assert(a@ =~= Seq::<Seq<char>>::empty());
        a
    }

    /// Guarda un token recién emitido.
    pub fn registrar(&mut self, token: String)
        ensures
            final(self)@ == old(self)@.push(token@),
    {
        self.tokens.push(token);
        assert(self@ =~= old(self)@.push(token@));
    }

    /// Cantidad de tokens guardados.
    pub fn len(&self) -> (n: usize)
        ensures
            n == self@.len(),
    {
        self.tokens.len()
    }

    /// Indica si `token` fue emitido y guardado.
    pub fn es_valido(&self, token: &str) -> (r: bool)
        ensures
            r == self@.contains(token@),
    {
        let buscado = token.to_owned();
        let mut i: usize = 0;
        while i < self.tokens.len()
            invariant
                0 <= i <= self.tokens@.len(),
                buscado@ == token@,
                forall|j: int| 0 <= j < i ==> self@[j] != token@,
            decreases self.tokens@.len() - i,
        {
            if self.tokens[i] == buscado {
                assert(self@[i as int] == token@);
                return true;
            }
            assert(self@[i as int] != token@);
            i += 1;
        }
        proof {
            if self@.contains(token@) {
                let k = choose|k: int| 0 <= k < self@.len() && self@[k] == token@;
                assert(self@[k] == token@);
            }
        }
        false
    }

    /// Decide si una petición con esta cabecera `Authorization` está autorizada:
    /// debe traer `Bearer <token>` con un token guardado.
    pub fn autorizar(&self, cabecera: Option<&str>) -> (r: bool)
        ensures
            r == match token_de_cabecera(vista_cabecera(cabecera)) {
                Some(t) => self@.contains(t),
                None => false,
            },
    {
        match extraer_token_bearer(cabecera) {
            Some(t) => self.es_valido(t.as_str()),
            None => false,
        }
    }
}

/// Un token registrado queda válido: tras `registrar(t)`, `es_valido(t)` es verdadero.
pub proof fn ley_token_registrado_es_valido(tokens: Seq<Seq<char>>, t: Seq<char>)
    ensures
        tokens.push(t).contains(t),
{
    assert(tokens.push(t)[tokens.len() as int] == t);
}

/// Registrar un token no invalida ninguno de los ya emitidos.
pub proof fn ley_registro_conserva_tokens(tokens: Seq<Seq<char>>, t: Seq<char>, u: Seq<char>)
    requires
        tokens.contains(u),
    ensures
        tokens.push(t).contains(u),
{
    let k = choose|k: int| 0 <= k < tokens.len() && tokens[k] == u;
    assert(tokens.push(t)[k] == u);
}

/// Una cabecera `Bearer <t>` lleva exactamente el token `t`.
pub proof fn ley_cabecera_bearer(t: Seq<char>)
    ensures
        token_de_cabecera(Some(prefijo_bearer() + t)) == Some(t),
{
    let h = prefijo_bearer() + t;
    assert(h.subrange(0, 7) =~= prefijo_bearer());
    assert(h.skip(7) =~= t);
}

} // verus!
