//! Tokens de acceso de un solo uso que el celular lee del código QR: cuándo
//! vencen, cuándo sirven y cuándo se pueden borrar.

use vstd::prelude::*;
use crate::seguridad::{generar_token, es_token};
use crate::texto::{recortar, recortar_texto};

verus! {

/// Un token QR guardado: el texto, el usuario al que da acceso, el instante (en
/// segundos) en que vence y si ya se usó.
pub struct TokenQr {
    pub token: String,
    pub usuario: String,
    pub expira: i64,
    pub usado: bool,
}

/// Un token sirve si no se ha usado y aún no vence.
pub open spec fn vigente(t: TokenQr, ahora: i64) -> bool {
    !t.usado && t.expira > ahora
}

/// Un token se puede borrar si ya se usó o ya venció.
pub open spec fn descartable(t: TokenQr, ahora: i64) -> bool {
    t.usado || t.expira < ahora
}

/// Crea un token QR para `usuario` que vence `expira_segundos` después de `ahora`.
pub fn emitir_token_qr(usuario: &str, ahora: i64, expira_segundos: i64) -> (t: TokenQr)
    requires
        i64::MIN <= ahora + expira_segundos <= i64::MAX,
    ensures
        es_token(t.token@),
        t.usuario@ == recortar(usuario@),
        t.expira == ahora + expira_segundos,
        !t.usado,
{
    TokenQr {
        token: generar_token(),
        usuario: recortar_texto(usuario),
        expira: ahora + expira_segundos,
        usado: false,
    }
}

/// Indica si el token sirve en el instante `ahora`.
pub fn token_vigente(t: &TokenQr, ahora: i64) -> (r: bool)
    ensures
        r == vigente(*t, ahora),
{
    !t.usado && t.expira > ahora
}

/// Indica si el token se puede borrar en el instante `ahora`.
pub fn token_descartable(t: &TokenQr, ahora: i64) -> (r: bool)
    ensures
        r == descartable(*t, ahora),
{
    t.usado || t.expira < ahora
}

/// Canjea el token en el instante `ahora`: si sirve, queda usado y se devuelve el
/// usuario al que da acceso; si no, no cambia y no da acceso.
pub fn canjear_token_qr(t: &mut TokenQr, ahora: i64) -> (r: Option<String>)
    ensures
        vigente(*old(t), ahora) ==> {
            &&& r matches Some(u) && u@ == old(t).usuario@
            &&& final(t).usado
            &&& final(t).token@ == old(t).token@
            &&& final(t).usuario@ == old(t).usuario@
            &&& final(t).expira == old(t).expira
        },
        !vigente(*old(t), ahora) ==> r is None && *final(t) == *old(t),
{
    if token_vigente(t, ahora) {
        t.usado = true;
        Some(t.usuario.clone())
    } else {
        None
    }
}

/// Un token solo da acceso una vez: tras canjearlo ya no sirve en ningún instante.
pub proof fn ley_un_solo_uso(t: TokenQr, ahora: i64)
    requires
        t.usado,
    ensures
        !vigente(t, ahora),
        descartable(t, ahora),
{
}

/// Un token que sirve nunca se borra en ese mismo instante.
pub proof fn ley_vigente_no_se_descarta(t: TokenQr, ahora: i64)
    requires
        vigente(t, ahora),
    ensures
        !descartable(t, ahora),
{
}

} // verus!
