//! Datos de la empresa y de la sesión en la aplicación de escritorio: iniciales y
//! nombre corto de la empresa, título de la ventana según la fase, paso de una
//! fase a otra y validación de los formularios de instalación y de ingreso.

use vstd::prelude::*;
use crate::texto::{
    agregar_caracter, agregar_texto, caracteres, copiar, recortar, vacio_al_recortar,
    es_espacio, es_espacio_exec, es_alfabetico, es_alfabetico_exec, mayuscula, mayuscula_exec,
};

verus! {

broadcast use vstd::string::group_string_axioms;

/// Las letras iniciales (en mayúscula) de las palabras de `s`, en orden: una palabra es
/// una racha de caracteres que no son espacio, y cuenta solo si su primer carácter es alfabético.
pub open spec fn letras_iniciales(s: Seq<char>) -> Seq<char>
    decreases s.len(),
{
    if s.len() == 0 {
        Seq::empty()
    } else {
        let r = letras_iniciales(s.drop_last());
        let i = s.len() - 1;
        let c = s[i];
        if !es_espacio(c) && (i == 0 || es_espacio(s[i - 1])) && es_alfabetico(c) {
            r.push(mayuscula(c))
        } else {
            r
        }
    }
}

/// Iniciales de la empresa: las tres primeras letras iniciales de sus palabras, o `SC`
/// si ninguna palabra empieza con letra.
pub open spec fn iniciales_de(nombre: Seq<char>) -> Seq<char> {
    let l = letras_iniciales(nombre);
    if l.len() == 0 {
        seq!['S', 'C']
    } else if l.len() > 3 {
        l.take(3)
    } else {
        l
    }
}

/// Iniciales con que se identifica a la empresa.
pub fn iniciales(empresa_nombre: &str) -> (r: String)
    ensures
        r@ == iniciales_de(empresa_nombre@),
{
    let v = caracteres(empresa_nombre);
    let mut letras: Vec<char> = Vec::new();
    let mut anterior_es_espacio = true;
    let mut i: usize = 0;
    while i < v.len()
        invariant
            0 <= i <= v@.len(),
            v@ == empresa_nombre@,
            letras@ == letras_iniciales(v@.take(i as int)),
            anterior_es_espacio == (i == 0 || es_espacio(v@[i - 1])),
        decreases v@.len() - i,
    {
        let c = v[i];
        let es_esp = es_espacio_exec(c);
        assert(v@.take(i + 1).drop_last() =~= v@.take(i as int));
        assert(v@.take(i + 1)[i as int] == c);
        if i > 0 {
            assert(v@.take(i + 1)[i - 1] == v@[i - 1]);
        }
        if !es_esp && anterior_es_espacio && es_alfabetico_exec(c) {
            letras.push(mayuscula_exec(c));
        }
        anterior_es_espacio = es_esp;
        i += 1;
    }
    assert(v@.take(v@.len() as int) =~= v@);
    let mut r = String::new();
    if letras.len() == 0 {
        agregar_caracter(&mut r, 'S');
        agregar_caracter(&mut r, 'C');
        assert(r@ =~= seq!['S', 'C']);
    } else {
        let n: usize = if letras.len() > 3 { 3 } else { letras.len() };
        let mut k: usize = 0;
        while k < n
            invariant
                0 <= k <= n <= letras@.len(),
                r@ == letras@.take(k as int),
            decreases n - k,
        {
            agregar_caracter(&mut r, letras[k]);
            assert(letras@.take(k + 1) =~= letras@.take(k as int).push(letras@[k as int]));
            k += 1;
        }
        assert(letras@.take(letras@.len() as int) =~= letras@);
    }
    r
}

/// Nombre corto del sistema: `Sistema <empresa>`, o `Sistema Contabilidad` si el nombre está en blanco.
pub open spec fn nombre_corto_de(nombre: Seq<char>) -> Seq<char> {
    if recortar(nombre).len() == 0 {
        "Sistema Contabilidad"@
    } else {
        "Sistema "@ + nombre
    }
}

/// Nombre corto con que el sistema se presenta.
pub fn nombre_corto(empresa_nombre: &str) -> (r: String)
    ensures
        r@ == nombre_corto_de(empresa_nombre@),
{
    if vacio_al_recortar(empresa_nombre) {
        copiar("Sistema Contabilidad")
    } else {
        let mut r = copiar("Sistema ");
        agregar_texto(&mut r, empresa_nombre);
        r
    }
}

/// Fase de la aplicación de escritorio.
#[derive(Debug, Clone, Copy, PartialEq, Eq, Structural)]
pub enum Fase {
    Presentacion,
    Instalacion,
    Login,
    Principal,
}

/// Fase con que arranca la aplicación: el inicio de sesión si ya hay usuarios, la
/// presentación de la primera instalación si no.
pub fn fase_inicial(hay_usuarios: bool) -> (f: Fase)
    ensures
        f == if hay_usuarios { Fase::Login } else { Fase::Presentacion },
{
    if hay_usuarios {
        Fase::Login
    } else {
        Fase::Presentacion
    }
}

/// Sucesos que cambian la fase de la aplicación.
#[derive(Debug, Clone, Copy, PartialEq, Eq, Structural)]
pub enum EventoSesion {
    /// Terminó la presentación de la primera instalación.
    FinPresentacion,
    /// Se guardaron la configuración y el primer usuario.
    ConfiguracionGuardada,
    /// El usuario ingresó con credenciales correctas.
    IngresoCorrecto,
    /// El usuario cerró la sesión.
    CerrarSesion,
}

/// Fase a la que lleva cada suceso.
pub open spec fn fase_tras(e: EventoSesion) -> Fase {
    match e {
        EventoSesion::FinPresentacion => Fase::Instalacion,
        EventoSesion::ConfiguracionGuardada => Fase::Login,
        EventoSesion::IngresoCorrecto => Fase::Principal,
        EventoSesion::CerrarSesion => Fase::Login,
    }
}

/// Fase en que queda la aplicación tras un suceso.
pub fn siguiente_fase(e: &EventoSesion) -> (f: Fase)
    ensures
        f == fase_tras(*e),
{
    match e {
        EventoSesion::FinPresentacion => Fase::Instalacion,
        EventoSesion::ConfiguracionGuardada => Fase::Login,
        EventoSesion::IngresoCorrecto => Fase::Principal,
        EventoSesion::CerrarSesion => Fase::Login,
    }
}

/// Solo un ingreso correcto lleva a la pantalla principal, y cerrar la sesión siempre
/// vuelve al inicio de sesión.
pub proof fn ley_acceso_principal(e: EventoSesion)
    ensures
        (fase_tras(e) == Fase::Principal) <==> (e == EventoSesion::IngresoCorrecto),
        e == EventoSesion::CerrarSesion ==> fase_tras(e) == Fase::Login,
{
}

/// Título de la ventana en cada fase.
pub open spec fn titulo_de(fase: Fase, nombre: Seq<char>) -> Seq<char> {
    match fase {
        Fase::Presentacion => "Sistema de Contabilidad"@,
        Fase::Instalacion => "Instalación - Sistema de Contabilidad"@,
        Fase::Login => "Iniciar sesión - "@ + nombre_corto_de(nombre),
        Fase::Principal => nombre_corto_de(nombre),
    }
}

/// Título de la ventana de la aplicación según la fase y el nombre de la empresa.
pub fn titulo_ventana(fase: &Fase, empresa_nombre: &str) -> (r: String)
    ensures
        r@ == titulo_de(*fase, empresa_nombre@),
{
    match fase {
        Fase::Presentacion => copiar("Sistema de Contabilidad"),
        Fase::Instalacion => copiar("Instalación - Sistema de Contabilidad"),
        Fase::Login => {
            let mut r = copiar("Iniciar sesión - ");
            let n = nombre_corto(empresa_nombre);
            agregar_texto(&mut r, n.as_str());
            r
        },
        Fase::Principal => nombre_corto(empresa_nombre),
    }
}

/// Datos del formulario de la primera instalación, tal como se escribieron.
pub struct FormularioInstalacion {
    pub empresa_nombre: String,
    pub ruc: String,
    pub direccion: String,
    pub telefono: String,
    pub email: String,
    pub ciudad: String,
    pub iva: String,
    pub usuario: String,
    pub contrasena: String,
    pub confirmar: String,
}

/// Un error de validación: el campo y el mensaje que se le muestra al usuario.
pub type ErrorCampo = (String, String);

/// Vista de una lista de errores como pares de textos.
pub open spec fn vista_errores(e: Seq<ErrorCampo>) -> Seq<(Seq<char>, Seq<char>)> {
    e.map_values(|p: ErrorCampo| (p.0@, p.1@))
}

/// Añade el error al final de la lista si se cumple la condición.
pub open spec fn con_error(
    e: Seq<(Seq<char>, Seq<char>)>,
    cond: bool,
    campo: Seq<char>,
    mensaje: Seq<char>,
) -> Seq<(Seq<char>, Seq<char>)> {
    if cond {
        e.push((campo, mensaje))
    } else {
        e
    }
}

/// Los errores del formulario de instalación, en este orden: nombre de la empresa, RUC,
/// teléfono y usuario en blanco, contraseña vacía y contraseñas distintas.
pub open spec fn errores_instalacion(f: FormularioInstalacion) -> Seq<(Seq<char>, Seq<char>)> {
    let e0 = Seq::empty();
    let e1 = con_error(e0, recortar(f.empresa_nombre@).len() == 0, "empresa"@, "El nombre de la empresa es obligatorio"@);
    let e2 = con_error(e1, recortar(f.ruc@).len() == 0, "ruc"@, "El RUC es obligatorio"@);
    let e3 = con_error(e2, recortar(f.telefono@).len() == 0, "telefono"@, "El teléfono es obligatorio"@);
    let e4 = con_error(e3, recortar(f.usuario@).len() == 0, "usuario"@, "Cree un nombre de usuario"@);
    let e5 = con_error(e4, f.contrasena@.len() == 0, "contrasena"@, "La contraseña es obligatoria"@);
    con_error(e5, f.contrasena@ != f.confirmar@, "confirmar"@, "Las contraseñas no coinciden"@)
}

/// Añade un error a la lista si `cond` se cumple.
fn agregar_error(errores: &mut Vec<ErrorCampo>, cond: bool, campo: &str, mensaje: &str)
    ensures
        vista_errores(final(errores)@) == con_error(vista_errores(old(errores)@), cond, campo@, mensaje@),
{
    if cond {
        errores.push((copiar(campo), copiar(mensaje)));
        assert(vista_errores(errores@) =~= vista_errores(old(errores)@).push((campo@, mensaje@)));
    }
}

/// Valida el formulario de la primera instalación; la lista vacía indica que se puede guardar.
pub fn validar_instalacion(f: &FormularioInstalacion) -> (errores: Vec<ErrorCampo>)
    ensures
        vista_errores(errores@) == errores_instalacion(*f),
{
    let mut errores: Vec<ErrorCampo> = Vec::new();
    assert(vista_errores(errores@) =~= Seq::<(Seq<char>, Seq<char>)>::empty());
    agregar_error(&mut errores, vacio_al_recortar(f.empresa_nombre.as_str()), "empresa", "El nombre de la empresa es obligatorio");
    agregar_error(&mut errores, vacio_al_recortar(f.ruc.as_str()), "ruc", "El RUC es obligatorio");
    agregar_error(&mut errores, vacio_al_recortar(f.telefono.as_str()), "telefono", "El teléfono es obligatorio");
    agregar_error(&mut errores, vacio_al_recortar(f.usuario.as_str()), "usuario", "Cree un nombre de usuario");
    agregar_error(&mut errores, f.contrasena.as_str().is_empty(), "contrasena", "La contraseña es obligatoria");
    agregar_error(&mut errores, f.contrasena != f.confirmar, "confirmar", "Las contraseñas no coinciden");
    errores
}

/// Falta algún dato para intentar el ingreso: usuario en blanco o contraseña vacía.
pub open spec fn faltan_credenciales_spec(usuario: Seq<char>, contrasena: Seq<char>) -> bool {
    recortar(usuario).len() == 0 || contrasena.len() == 0
}

/// Indica si el formulario de ingreso está incompleto (se pide "Ingrese su usuario y contraseña").
pub fn faltan_credenciales(usuario: &str, contrasena: &str) -> (r: bool)
    ensures
        r == faltan_credenciales_spec(usuario@, contrasena@),
{
    vacio_al_recortar(usuario) || contrasena.is_empty()
}

/// Primer error del formulario del plan de cuentas: código en blanco y, si no, nombre en blanco.
pub open spec fn error_cuenta(codigo: Seq<char>, nombre: Seq<char>) -> Option<(Seq<char>, Seq<char>)> {
    if recortar(codigo).len() == 0 {
        Some(("codigo"@, "El código es obligatorio"@))
    } else if recortar(nombre).len() == 0 {
        Some(("nombre"@, "El nombre es obligatorio"@))
    } else {
        None
    }
}

/// Valida el formulario de una cuenta contable; `None` indica que se puede guardar.
pub fn validar_cuenta(codigo: &str, nombre: &str) -> (r: Option<ErrorCampo>)
    ensures
        match r {
            Some(e) => error_cuenta(codigo@, nombre@) == Some((e.0@, e.1@)),
            None => error_cuenta(codigo@, nombre@) is None,
        },
{
    if vacio_al_recortar(codigo) {
        Some((copiar("codigo"), copiar("El código es obligatorio")))
    } else if vacio_al_recortar(nombre) {
        Some((copiar("nombre"), copiar("El nombre es obligatorio")))
    } else {
        None
    }
}

} // verus!
