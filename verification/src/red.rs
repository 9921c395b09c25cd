//! Conexión del celular con la PC: la dirección IPv4 de la red local que informa
//! `ipconfig` y la dirección a la que se conecta el celular.

use vstd::prelude::*;
use crate::texto::{
    agregar_texto, caracteres, cadena_de_rango, contiene, contiene_texto, minusculas, a_minusculas,
    mismo_texto, partir, trozos, vista_textos, recortar, recortar_texto, ultima_posicion, buscar_ultima,
    copiar,
};
use crate::modelos::vista_opcion;

verus! {

broadcast use vstd::string::group_string_axioms;

/// Línea de `ipconfig` que anuncia una dirección IPv4 (en inglés o en castellano).
pub open spec fn anuncia_ipv4(linea: Seq<char>) -> bool {
    let baja = minusculas(linea);
    contiene(linea, "IPv4"@) || contiene(baja, "dirección ipv4"@) || contiene(baja, "dir. ipv4"@)
}

/// Dirección que da una línea de `ipconfig`: lo que sigue a su último `:`, recortado,
/// si la línea anuncia una IPv4 y la dirección no es vacía ni la de bucle local.
pub open spec fn ip_de_linea(linea: Seq<char>) -> Option<Seq<char>> {
    let l = recortar(linea);
    if anuncia_ipv4(l) {
        match ultima_posicion(l, ':') {
            Some(i) => {
                let ip = recortar(l.skip(i + 1));
                if ip.len() > 0 && ip != "127.0.0.1"@ {
                    Some(ip)
                } else {
                    None
                }
            },
            None => None,
        }
    } else {
        None
    }
}

/// Primera dirección que dan las líneas, en orden.
pub open spec fn primera_ip(lineas: Seq<Seq<char>>) -> Option<Seq<char>>
    decreases lineas.len(),
{
    if lineas.len() == 0 {
        None
    } else {
        match ip_de_linea(lineas[0]) {
            Some(ip) => Some(ip),
            None => primera_ip(lineas.drop_first()),
        }
    }
}

/// Dirección IPv4 de la red local según la salida de `ipconfig`.
pub open spec fn ip_lan_de(salida: Seq<char>) -> Option<Seq<char>> {
    primera_ip(trozos(salida, '\n'))
}

/// Dirección de una línea de `ipconfig`, si la anuncia.
fn ip_en_linea(linea: &str) -> (r: Option<String>)
    ensures
        match r {
            Some(ip) => ip_de_linea(linea@) == Some(ip@),
            None => ip_de_linea(linea@) is None,
        },
{
    let l = recortar_texto(linea);
    let baja = a_minusculas(l.as_str());
    let anuncia = contiene_texto(l.as_str(), "IPv4") || contiene_texto(baja.as_str(), "dirección ipv4")
        || contiene_texto(baja.as_str(), "dir. ipv4");
    if !anuncia {
        return None;
    }
    let v = caracteres(l.as_str());
    match buscar_ultima(&v, ':') {
        Some(i) => {
            let resto = cadena_de_rango(&v, i + 1, v.len());
            assert(resto@ =~= l@.skip(i + 1));
            let ip = recortar_texto(resto.as_str());
            let vacia = caracteres(ip.as_str()).len() == 0;
            if !vacia && !mismo_texto(ip.as_str(), "127.0.0.1") {
                Some(ip)
            } else {
                None
            }
        },
        None => None,
    }
}

/// Busca la dirección IPv4 de la red local en la salida de `ipconfig`.
pub fn ip_lan(salida: &str) -> (r: Option<String>)
    ensures
        match r {
            Some(ip) => ip_lan_de(salida@) == Some(ip@),
            None => ip_lan_de(salida@) is None,
        },
{
    let lineas = partir(salida, '\n');
    let ghost ls = vista_textos(lineas@);
    let mut i: usize = 0;
    assert(ls.skip(0) =~= ls);
    while i < lineas.len()
        invariant
            0 <= i <= lineas.len(),
            ls == vista_textos(lineas@),
            ls == trozos(salida@, '\n'),
            primera_ip(ls) == primera_ip(ls.skip(i as int)),
        decreases lineas.len() - i,
    {
        assert(ls.skip(i as int)[0] == lineas@[i as int]@);
        match ip_en_linea(lineas[i].as_str()) {
            Some(ip) => {
                return Some(ip);
            },
            None => {},
        }
        assert(ls.skip(i as int).drop_first() =~= ls.skip(i + 1));
        i += 1;
    }
    None
}

/// Dirección de la PC en la red local para el celular.
pub open spec fn url_local_de(ip: Seq<char>) -> Seq<char> {
    "http://"@ + ip + ":8095"@
}

/// Escribe la dirección de la PC en la red local.
pub fn url_local(ip: &str) -> (r: String)
    ensures
        r@ == url_local_de(ip@),
{
    let mut r = String::new();
    agregar_texto(&mut r, "http://");
    agregar_texto(&mut r, ip);
    agregar_texto(&mut r, ":8095");
    r
}

/// Aviso cuando el celular no tiene por dónde conectarse.
pub open spec fn aviso_sin_conexion() -> Seq<char> {
    "No se obtuvo la URL del túnel ni la IP local. Conecte el celular a la misma Wi-Fi de la PC o revise su conexión a internet."@
}

/// Dirección a la que se conecta el celular: la del túnel si se obtuvo; si no, la
/// de la red local; si tampoco, el aviso de que no hay conexión.
pub open spec fn conexion_de(url_tunel: Option<Seq<char>>, ip: Option<Seq<char>>) -> Result<Seq<char>, Seq<char>> {
    match url_tunel {
        Some(u) => Ok(u),
        None => match ip {
            Some(i) => Ok(url_local_de(i)),
            None => Err(aviso_sin_conexion()),
        },
    }
}

/// Elige la dirección para el celular.
pub fn conexion_celular(url_tunel: Option<String>, ip: Option<String>) -> (r: Result<String, String>)
    ensures
        match r {
            Ok(u) => conexion_de(vista_opcion(url_tunel), vista_opcion(ip)) == Ok::<Seq<char>, Seq<char>>(u@),
            Err(e) => conexion_de(vista_opcion(url_tunel), vista_opcion(ip)) == Err::<Seq<char>, Seq<char>>(e@),
        },
{
    match url_tunel {
        Some(u) => Ok(u),
        None => match ip {
            Some(i) => Ok(url_local(i.as_str())),
            None => Err(copiar("No se obtuvo la URL del túnel ni la IP local. Conecte el celular a la misma Wi-Fi de la PC o revise su conexión a internet.")),
        },
    }
}

/// Lecturas del registro del túnel antes de recurrir a la red local.
pub const INTENTOS_TUNEL: u32 = 60;

/// Milisegundos de espera tras cada lectura sin dirección.
pub const ESPERA_TUNEL_MS: u64 = 500;

/// Qué hacer tras leer el registro del túnel.
#[derive(Debug, PartialEq, Eq)]
pub enum EsperaTunel {
    /// Se encontró la dirección del túnel.
    Encontrada(String),
    /// Esperar y volver a leer.
    EsperarYLeer,
    /// Esperar y dejar de buscar: se usa la red local.
    EsperarYRendirse,
}

/// Decide qué hacer tras la lectura número `lectura` (desde 0) del registro del túnel,
/// que dio `url` si la encontró.
pub fn tras_lectura_tunel(lectura: u32, url: Option<String>) -> (r: EsperaTunel)
    requires
        lectura < INTENTOS_TUNEL,
    ensures
        url matches Some(u) ==> r == EsperaTunel::Encontrada(u),
        url is None && lectura + 1 < INTENTOS_TUNEL ==> r == EsperaTunel::EsperarYLeer,
        url is None && lectura + 1 == INTENTOS_TUNEL ==> r == EsperaTunel::EsperarYRendirse,
{
    match url {
        Some(u) => EsperaTunel::Encontrada(u),
        None => if lectura + 1 < INTENTOS_TUNEL {
            EsperaTunel::EsperarYLeer
        } else {
            EsperaTunel::EsperarYRendirse
        },
    }
}

} // verus!
