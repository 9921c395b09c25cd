//! Antigüedad de un saldo: los días que pasaron desde la fecha de un documento.

use vstd::prelude::*;
use vstd::string::StringSliceAdditionalSpecFns;
use vstd::utf8::{decode_utf8, encode_utf8, encode_utf8_decode_utf8, is_char_boundary};
use chrono::Datelike;

verus! {

/// Número de día (contado desde el 1 de enero del año 1 de la era común) de la fecha
/// que `chrono` lee en el texto con el formato `%Y-%m-%d`, si la lee.
pub uninterp spec fn dia_de_fecha(texto: Seq<char>) -> Option<int>;

/// Lee una fecha `AAAA-MM-DD`: llama a `chrono::NaiveDate::parse_from_str(texto,
/// "%Y-%m-%d")` y da `num_days_from_ce()` de la fecha leída. El resultado solo
/// depende del texto y queda nombrado por `dia_de_fecha`.
#[verifier::external_body]
fn leer_dia(texto: &str) -> (r: Option<i32>)
    ensures
        match r {
            Some(d) => dia_de_fecha(texto@) == Some(d as int),
            None => dia_de_fecha(texto@) is None,
        },
{
    chrono::NaiveDate::parse_from_str(texto, "%Y-%m-%d").ok().map(|f| f.num_days_from_ce())
}

/// Número de día de hoy según el reloj local: llama a
/// `chrono::Local::now().date_naive().num_days_from_ce()`. Depende del reloj: no se
/// promete nada de su valor.
#[verifier::external_body]
fn dia_de_hoy() -> i32 {
    chrono::Local::now().date_naive().num_days_from_ce()
}

/// Los primeros diez bytes del texto si terminan en un límite de carácter; si no, el
/// texto entero (`texto.get(0..10).unwrap_or(texto)`).
pub open spec fn diez_primeros(texto: Seq<char>) -> Seq<char> {
    let b = encode_utf8(texto);
    if b.len() >= 10 && is_char_boundary(b, 10) {
        decode_utf8(b.subrange(0, 10))
    } else {
        texto
    }
}

/// Días transcurridos desde el día `fecha` hasta el día `hoy`, nunca negativos; si no
/// hay fecha, cero.
pub open spec fn dias_desde(fecha: Option<int>, hoy: int) -> int {
    match fecha {
        Some(d) => if hoy - d > 0 { hoy - d } else { 0 },
        None => 0,
    }
}

/// Días que pasaron desde el día `dia_fecha` hasta el día `dia_hoy`.
pub fn dias_transcurridos(dia_fecha: Option<i32>, dia_hoy: i32) -> (r: i64)
    ensures
        r == dias_desde(
            match dia_fecha {
                Some(d) => Some(d as int),
                None => None,
            },
            dia_hoy as int,
        ),
{
    match dia_fecha {
        Some(d) => {
            let dif: i64 = dia_hoy as i64 - d as i64;
            if dif > 0 {
                dif
            } else {
                0
            }
        },
        None => 0,
    }
}

/// El texto de los diez primeros bytes, si terminan en un límite de carácter.
fn diez_primeros_bytes(texto: &str) -> (r: &str)
    ensures
        r@ == diez_primeros(texto@),
{
    if texto.as_bytes().len() >= 10 && texto.is_char_boundary(10) {
        let (a, _b) = texto.split_at(10);
        proof {
            encode_utf8_decode_utf8(a@);
            assert(a.spec_bytes() =~= encode_utf8(texto@).subrange(0, 10));
        }
        a
    } else {
        texto
    }
}

/// Días que pasaron desde la fecha `AAAA-MM-DD` con que empieza el texto hasta hoy;
/// cero si la fecha no se puede leer o es futura.
pub fn fecha_dias_desde(fecha: &str) -> (r: i64)
    ensures
        exists|hoy: int| r == dias_desde(dia_de_fecha(diez_primeros(fecha@)), hoy),
{
    let texto = diez_primeros_bytes(fecha);
    let d = leer_dia(texto);
    let hoy = dia_de_hoy();
    let r = dias_transcurridos(d, hoy);
    assert(r == dias_desde(dia_de_fecha(diez_primeros(fecha@)), hoy as int));
    r
}

} // verus!
