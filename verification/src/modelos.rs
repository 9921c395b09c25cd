//! Registros del sistema que no llevan importes, y su armado a partir de los
//! formularios de la aplicación.

use vstd::prelude::*;
use crate::texto::copiar;
use crate::numeros::{decimal_con_signo, escribir_entero, parse_i32, parse_i32_spec, parse_i64, parse_i64_spec};

verus! {

/// Una cuenta del plan de cuentas.
#[derive(Debug, Clone)]
pub struct PlanCuentas {
    pub id: i64,
    pub codigo: String,
    pub nombre: String,
    pub tipo: String,
    pub naturaleza: String,
    pub nivel: i32,
    pub padre_id: Option<i64>,
    pub activo: bool,
}

/// Un usuario del sistema.
#[derive(Debug, Clone)]
pub struct Usuario {
    pub id: i64,
    pub nombre_usuario: String,
    pub activo: bool,
}

/// Una categoría de gastos.
#[derive(Debug, Clone)]
pub struct CategoriaGasto {
    pub id: i64,
    pub nombre: String,
    pub descripcion: String,
}

/// Una categoría de productos.
#[derive(Debug, Clone)]
pub struct CategoriaProducto {
    pub id: i64,
    pub nombre: String,
    pub descripcion: String,
}

/// Datos de un proveedor nuevo o editado.
#[derive(Debug, Clone)]
pub struct ProveedorNuevo {
    pub codigo: Option<String>,
    pub nombre: String,
    pub contacto: String,
    pub rfc: String,
    pub email: String,
    pub telefono: String,
    pub direccion: String,
    pub ciudad: String,
}

/// Una ubicación donde se instalan máquinas.
#[derive(Debug, Clone)]
pub struct Ubicacion {
    pub id: i64,
    pub nombre: String,
    pub encargado: Option<String>,
    pub cedula: Option<String>,
    pub telefono: String,
    pub ciudad: String,
    pub direccion: String,
    pub activo: bool,
}

/// Datos de una ubicación nueva o editada.
#[derive(Debug, Clone)]
pub struct UbicacionNueva {
    pub nombre: String,
    pub encargado: Option<String>,
    pub cedula: Option<String>,
    pub telefono: String,
    pub ciudad: String,
    pub direccion: String,
}

/// Un movimiento de inventario (entrada, salida o ajuste).
#[derive(Debug, Clone)]
pub struct MovimientoInventario {
    pub id: i64,
    pub producto_id: Option<i64>,
    pub producto_nombre: String,
    pub tipo: String,
    pub cantidad: i32,
    pub motivo: Option<String>,
    pub referencia: Option<String>,
    pub fecha: String,
}

/// La venta que resultó de convertir una cotización.
#[derive(Debug, Clone)]
pub struct VentaDesdeCotizacion {
    pub cotizacion_id: i64,
    pub venta_id: i64,
    pub folio: String,
}

/// Datos para generar el cierre contable de un año.
#[derive(Debug, Clone)]
pub struct CierreContableNuevo {
    pub anio: i32,
    pub notas: String,
}

/// Un texto opcional que se guarda solo si no está vacío (`Some(t).filter(|s| !s.is_empty())`).
pub open spec fn si_no_vacio(t: Seq<char>) -> Option<Seq<char>> {
    if t.len() > 0 { Some(t) } else { None }
}

/// Vista de un texto opcional.
pub open spec fn vista_opcion(t: Option<String>) -> Option<Seq<char>> {
    match t {
        Some(s) => Some(s@),
        None => None,
    }
}

/// Copia de `t` si no está vacío.
pub fn opcional_si_no_vacio(t: &str) -> (r: Option<String>)
    ensures
        vista_opcion(r) == si_no_vacio(t@),
{
    if t.is_empty() { None } else { Some(copiar(t)) }
}

/// Nivel de una cuenta escrito en el formulario: el entero leído, o 1.
pub open spec fn nivel_de(texto: Seq<char>) -> i32 {
    match parse_i32_spec(texto) {
        Some(n) => n,
        None => 1,
    }
}

/// Cuenta padre escrita en el formulario: el identificador leído si es positivo.
pub open spec fn padre_de(texto: Seq<char>) -> Option<i64> {
    match parse_i64_spec(texto) {
        Some(n) => if n > 0 { Some(n) } else { None },
        None => None,
    }
}

impl PlanCuentas {
    /// Cuenta armada con los datos del formulario: el nivel se lee como entero (1 si no
    /// se puede), la cuenta padre solo si se lee un identificador positivo.
    pub fn desde_formulario(
        codigo: &str,
        nombre: &str,
        tipo: &str,
        naturaleza: &str,
        nivel: &str,
        padre_id: &str,
        activo: bool,
    ) -> (c: PlanCuentas)
        ensures
            c.id == 0,
            c.codigo@ == codigo@,
            c.nombre@ == nombre@,
            c.tipo@ == tipo@,
            c.naturaleza@ == naturaleza@,
            c.nivel == nivel_de(nivel@),
            c.padre_id == padre_de(padre_id@),
            c.activo == activo,
    {
        let n = match parse_i32(nivel) {
            Some(n) => n,
            None => 1,
        };
        let p = match parse_i64(padre_id) {
            Some(x) => if x > 0 { Some(x) } else { None },
            None => None,
        };
        PlanCuentas {
            id: 0,
            codigo: copiar(codigo),
            nombre: copiar(nombre),
            tipo: copiar(tipo),
            naturaleza: copiar(naturaleza),
            nivel: n,
            padre_id: p,
            activo,
        }
    }
}

impl UbicacionNueva {
    /// Ubicación armada con los datos del formulario; encargado y cédula solo si no están vacíos.
    pub fn desde_formulario(
        nombre: &str,
        direccion: &str,
        ciudad: &str,
        encargado: &str,
        cedula: &str,
        telefono: &str,
    ) -> (u: UbicacionNueva)
        ensures
            u.nombre@ == nombre@,
            u.direccion@ == direccion@,
            u.ciudad@ == ciudad@,
            vista_opcion(u.encargado) == si_no_vacio(encargado@),
            vista_opcion(u.cedula) == si_no_vacio(cedula@),
            u.telefono@ == telefono@,
    {
        UbicacionNueva {
            nombre: copiar(nombre),
            encargado: opcional_si_no_vacio(encargado),
            cedula: opcional_si_no_vacio(cedula),
            telefono: copiar(telefono),
            ciudad: copiar(ciudad),
            direccion: copiar(direccion),
        }
    }
}

impl ProveedorNuevo {
    /// Proveedor armado con los datos del formulario: el código solo si no está vacío y
    /// la ciudad en blanco (el formulario no la pide).
    pub fn desde_formulario(
        codigo: &str,
        nombre: &str,
        contacto: &str,
        rfc: &str,
        email: &str,
        telefono: &str,
        direccion: &str,
    ) -> (p: ProveedorNuevo)
        ensures
            vista_opcion(p.codigo) == si_no_vacio(codigo@),
            p.nombre@ == nombre@,
            p.contacto@ == contacto@,
            p.rfc@ == rfc@,
            p.email@ == email@,
            p.telefono@ == telefono@,
            p.direccion@ == direccion@,
            p.ciudad@ == Seq::<char>::empty(),
    {
        ProveedorNuevo {
            codigo: opcional_si_no_vacio(codigo),
            nombre: copiar(nombre),
            contacto: copiar(contacto),
            rfc: copiar(rfc),
            email: copiar(email),
            telefono: copiar(telefono),
            direccion: copiar(direccion),
            ciudad: String::new(),
        }
    }
}

impl CierreContableNuevo {
    /// Cierre armado con los datos del formulario: el año leído como entero, o el año
    /// en curso si no se puede leer.
    pub fn desde_formulario(anio: &str, anio_actual: i32, notas: &str) -> (c: CierreContableNuevo)
        ensures
            c.anio == match parse_i32_spec(anio@) {
                Some(a) => a,
                None => anio_actual,
            },
            c.notas@ == notas@,
    {
        let a = match parse_i32(anio) {
            Some(a) => a,
            None => anio_actual,
        };
        CierreContableNuevo { anio: a, notas: copiar(notas) }
    }
}

/// Nota de la venta que se genera al convertir una cotización.
pub open spec fn nota_desde_cotizacion(cotizacion_id: i64) -> Seq<char> {
    "Venta generada desde cotizacion COT-"@ + decimal_con_signo(cotizacion_id as int)
}

/// Escribe la nota de la venta generada desde la cotización `cotizacion_id`.
pub fn nota_venta_desde_cotizacion(cotizacion_id: i64) -> (r: String)
    ensures
        r@ == nota_desde_cotizacion(cotizacion_id),
{
    let mut r = copiar("Venta generada desde cotizacion COT-");
    escribir_entero(&mut r, cotizacion_id);
    r
}

/// Estado con que se registra un gasto: pendiente si tiene fecha de vencimiento,
/// pagado si no.
pub open spec fn estado_de_gasto(tiene_vencimiento: bool) -> Seq<char> {
    if tiene_vencimiento {
        "pendiente"@
    } else {
        "pagado"@
    }
}

/// Escribe el estado con que se registra un gasto.
pub fn estado_gasto(tiene_vencimiento: bool) -> (r: String)
    ensures
        r@ == estado_de_gasto(tiene_vencimiento),
{
    if tiene_vencimiento {
        copiar("pendiente")
    } else {
        copiar("pagado")
    }
}

} // verus!
