//! Reglas de los formularios de ventas, compras y cotizaciones: qué se rechaza,
//! con qué aviso, y cómo se leen los campos numéricos y el proveedor elegido.

use vstd::prelude::*;
use crate::texto::{caracteres, copiar, recortar, recortar_texto, vacio_al_recortar};
use crate::numeros::{parse_i32, parse_i32_spec};
use crate::modelos::vista_opcion;

verus! {

broadcast use vstd::string::group_string_axioms;

/// Entero escrito en `texto`, o `defecto` si no es un `i32` válido
/// (`texto.parse().unwrap_or(defecto)`).
pub open spec fn entero_o_spec(texto: Seq<char>, defecto: i32) -> i32 {
    match parse_i32_spec(texto) {
        Some(n) => n,
        None => defecto,
    }
}

/// Lee un entero de un campo de texto; si no se puede, da `defecto`.
pub fn entero_o(texto: &str, defecto: i32) -> (r: i32)
    ensures
        r == entero_o_spec(texto@, defecto),
{
    match parse_i32(texto) {
        Some(n) => n,
        None => defecto,
    }
}

/// Identificador elegido en una lista: uno no positivo significa que no se eligió
/// ninguno (`id.filter(|&id| id > 0)`).
pub open spec fn id_elegido(id: Option<i64>) -> Option<i64> {
    match id {
        Some(i) => if i > 0 { Some(i) } else { None },
        None => None,
    }
}

/// El identificador elegido, si es positivo.
pub fn id_valido(id: Option<i64>) -> (r: Option<i64>)
    ensures
        r == id_elegido(id),
{
    match id {
        Some(i) => if i > 0 { Some(i) } else { None },
        None => None,
    }
}

/// Aviso si se pide crear un cliente nuevo sin nombre.
pub open spec fn error_cliente_nuevo_spec(nuevo_cliente: bool, nombre: Seq<char>) -> Option<Seq<char>> {
    if nuevo_cliente && recortar(nombre).len() == 0 {
        Some("El nombre del nuevo cliente es obligatorio"@)
    } else {
        None
    }
}

/// Comprueba el cliente nuevo de una venta antes de crearlo.
pub fn error_cliente_nuevo(nuevo_cliente: bool, nc_nombre: &str) -> (r: Option<String>)
    ensures
        vista_opcion(r) == error_cliente_nuevo_spec(nuevo_cliente, nc_nombre@),
{
    if nuevo_cliente && vacio_al_recortar(nc_nombre) {
        Some(copiar("El nombre del nuevo cliente es obligatorio"))
    } else {
        None
    }
}

/// Primer aviso de una venta: sin cliente elegido (si no es uno nuevo) y, si no,
/// sin productos.
pub open spec fn error_venta_spec(nuevo_cliente: bool, cliente_nombre: Seq<char>, items: nat) -> Option<Seq<char>> {
    if recortar(cliente_nombre).len() == 0 && !nuevo_cliente {
        Some("Seleccione un cliente de la lista"@)
    } else if items == 0 {
        Some("Agregue al menos un producto a la venta"@)
    } else {
        None
    }
}

/// Comprueba una venta con `n_items` productos; `None` indica que se puede guardar.
pub fn error_venta(nuevo_cliente: bool, cliente_nombre: &str, n_items: usize) -> (r: Option<String>)
    ensures
        vista_opcion(r) == error_venta_spec(nuevo_cliente, cliente_nombre@, n_items as nat),
{
    if vacio_al_recortar(cliente_nombre) && !nuevo_cliente {
        Some(copiar("Seleccione un cliente de la lista"))
    } else if n_items == 0 {
        Some(copiar("Agregue al menos un producto a la venta"))
    } else {
        None
    }
}

/// Aviso de una compra sin productos.
pub open spec fn error_compra_spec(items: nat) -> Option<Seq<char>> {
    if items == 0 {
        Some("Agregue al menos un producto a la compra"@)
    } else {
        None
    }
}

/// Comprueba una compra con `n_items` productos.
pub fn error_compra(n_items: usize) -> (r: Option<String>)
    ensures
        vista_opcion(r) == error_compra_spec(n_items as nat),
{
    if n_items == 0 {
        Some(copiar("Agregue al menos un producto a la compra"))
    } else {
        None
    }
}

/// Primer aviso de una cotización: sin productos y, si no, sin cliente elegido ni
/// nombre escrito.
pub open spec fn error_cotizacion_spec(items: nat, cliente_id: Option<i64>, cliente_nombre: Seq<char>) -> Option<Seq<char>> {
    if items == 0 {
        Some("Agregue al menos un producto a la cotización"@)
    } else if id_elegido(cliente_id) is None && recortar(cliente_nombre).len() == 0 {
        Some("Seleccione un cliente o escriba el nombre"@)
    } else {
        None
    }
}

/// Comprueba una cotización con `n_items` productos.
pub fn error_cotizacion(n_items: usize, cliente_id: Option<i64>, cliente_nombre: &str) -> (r: Option<String>)
    ensures
        vista_opcion(r) == error_cotizacion_spec(n_items as nat, cliente_id, cliente_nombre@),
{
    if n_items == 0 {
        Some(copiar("Agregue al menos un producto a la cotización"))
    } else if id_valido(cliente_id).is_none() && vacio_al_recortar(cliente_nombre) {
        Some(copiar("Seleccione un cliente o escriba el nombre"))
    } else {
        None
    }
}

/// Código de un carácter con las mayúsculas ASCII pasadas a minúscula.
pub open spec fn plegado_ascii(c: char) -> int {
    if 'A' <= c <= 'Z' {
        c as int + 32
    } else {
        c as int
    }
}

/// Dos textos iguales sin distinguir mayúsculas de minúsculas ASCII
/// (lo que responde `str::eq_ignore_ascii_case`).
pub open spec fn iguales_sin_caso(a: Seq<char>, b: Seq<char>) -> bool {
    a.len() == b.len() && forall|i: int| 0 <= i < a.len() ==> plegado_ascii(a[i]) == plegado_ascii(b[i])
}

/// Código plegado de un carácter.
fn plegar(c: char) -> (r: u32)
    ensures
        r == plegado_ascii(c),
{
    if 'A' <= c && c <= 'Z' {
        (c as u32) + 32
    } else {
        c as u32
    }
}

/// Compara dos textos sin distinguir mayúsculas de minúsculas ASCII.
pub fn iguales_ignorando_caso(a: &str, b: &str) -> (r: bool)
    ensures
        r == iguales_sin_caso(a@, b@),
{
    let x = caracteres(a);
    let y = caracteres(b);
    if x.len() != y.len() {
        return false;
    }
    let mut i: usize = 0;
    while i < x.len()
        invariant
            x@ == a@,
            y@ == b@,
            x.len() == y.len(),
            0 <= i <= x.len(),
            forall|k: int| 0 <= k < i ==> plegado_ascii(x@[k]) == plegado_ascii(y@[k]),
        decreases x.len() - i,
    {
        if plegar(x[i]) != plegar(y[i]) {
            return false;
        }
        i += 1;
    }
    true
}

/// Proveedor ya registrado: su identificador y su nombre.
pub struct ProveedorConocido {
    pub id: i64,
    pub nombre: String,
}

/// Proveedor de una compra: uno ya registrado (o ninguno), o uno nuevo que hay que
/// crear con el nombre dado.
pub enum ProveedorDeCompra {
    Registrado(Option<i64>),
    Crear(String),
}

/// Identificador del primer proveedor cuyo nombre coincide con `nombre` sin
/// distinguir mayúsculas ASCII.
pub open spec fn primero_con_nombre(ps: Seq<ProveedorConocido>, nombre: Seq<char>) -> Option<i64>
    decreases ps.len(),
{
    if ps.len() == 0 {
        None
    } else if iguales_sin_caso(ps[0].nombre@, nombre) {
        Some(ps[0].id)
    } else {
        primero_con_nombre(ps.drop_first(), nombre)
    }
}

/// Busca el primer proveedor con ese nombre.
fn buscar_proveedor(proveedores: &Vec<ProveedorConocido>, nombre: &str) -> (r: Option<i64>)
    ensures
        r == primero_con_nombre(proveedores@, nombre@),
{
    let mut i: usize = 0;
    assert(proveedores@.skip(0) =~= proveedores@);
    while i < proveedores.len()
        invariant
            0 <= i <= proveedores.len(),
            primero_con_nombre(proveedores@, nombre@) == primero_con_nombre(proveedores@.skip(i as int), nombre@),
        decreases proveedores.len() - i,
    {
        let p = &proveedores[i];
        assert(proveedores@.skip(i as int)[0] == proveedores@[i as int]);
        if iguales_ignorando_caso(p.nombre.as_str(), nombre) {
            return Some(p.id);
        }
        assert(proveedores@.skip(i as int).drop_first() =~= proveedores@.skip(i + 1));
        i += 1;
    }
    None
}

/// Proveedor que corresponde a una compra: el elegido en la lista si lo hay; si no
/// y se escribió un nombre, el primero registrado con ese nombre o, si no hay
/// ninguno, uno nuevo con el nombre recortado.
pub open spec fn proveedor_de_compra_spec(
    proveedor_id: Option<i64>,
    nombre: Seq<char>,
    ps: Seq<ProveedorConocido>,
) -> (Option<i64>, Option<Seq<char>>) {
    let elegido = id_elegido(proveedor_id);
    let n = recortar(nombre);
    if elegido is None && n.len() > 0 {
        match primero_con_nombre(ps, n) {
            Some(id) => (Some(id), None),
            None => (None, Some(n)),
        }
    } else {
        (elegido, None)
    }
}

/// Vista de la decisión: el proveedor registrado, o el nombre del que hay que crear.
pub open spec fn vista_proveedor(d: ProveedorDeCompra) -> (Option<i64>, Option<Seq<char>>) {
    match d {
        ProveedorDeCompra::Registrado(id) => (id, None),
        ProveedorDeCompra::Crear(n) => (None, Some(n@)),
    }
}

/// Decide el proveedor de una compra.
pub fn proveedor_de_compra(
    proveedor_id: Option<i64>,
    proveedor_nombre: &str,
    proveedores: &Vec<ProveedorConocido>,
) -> (r: ProveedorDeCompra)
    ensures
        vista_proveedor(r) == proveedor_de_compra_spec(proveedor_id, proveedor_nombre@, proveedores@),
{
    let elegido = id_valido(proveedor_id);
    if elegido.is_none() && !vacio_al_recortar(proveedor_nombre) {
        let nombre = recortar_texto(proveedor_nombre);
        match buscar_proveedor(proveedores, nombre.as_str()) {
            Some(id) => ProveedorDeCompra::Registrado(Some(id)),
            None => ProveedorDeCompra::Crear(nombre),
        }
    } else {
        ProveedorDeCompra::Registrado(elegido)
    }
}

/// Ajuste manual de stock pedido en el formulario: el nuevo stock leído como entero
/// (`-1` si no se puede leer) debe ser 0 o mayor; el motivo es el escrito, recortado,
/// o `ajuste manual` si está en blanco.
pub open spec fn ajuste_de_stock_spec(texto: Seq<char>, motivo: Seq<char>) -> Result<(i32, Seq<char>), Seq<char>> {
    let nuevo = entero_o_spec(texto, -1i32);
    if nuevo < 0 {
        Err("Ingrese un stock válido (0 o mayor)"@)
    } else if recortar(motivo).len() == 0 {
        Ok((nuevo, "ajuste manual"@))
    } else {
        Ok((nuevo, recortar(motivo)))
    }
}

/// Comprueba un ajuste manual de stock y da el nuevo stock y el motivo, o el aviso.
pub fn ajuste_de_stock(texto: &str, motivo: &str) -> (r: Result<(i32, String), String>)
    ensures
        match r {
            Ok((n, m)) => ajuste_de_stock_spec(texto@, motivo@) == Ok::<(i32, Seq<char>), Seq<char>>((n, m@)),
            Err(e) => ajuste_de_stock_spec(texto@, motivo@) == Err::<(i32, Seq<char>), Seq<char>>(e@),
        },
{
    let nuevo = entero_o(texto, -1);
    if nuevo < 0 {
        Err(copiar("Ingrese un stock válido (0 o mayor)"))
    } else if vacio_al_recortar(motivo) {
        Ok((nuevo, copiar("ajuste manual")))
    } else {
        Ok((nuevo, recortar_texto(motivo)))
    }
}

/// Quita del formulario la línea `i`, si existe; si no, la lista queda igual.
pub fn quitar_item<T>(items: &mut Vec<T>, i: usize)
    ensures
        i < old(items)@.len() ==> final(items)@ == old(items)@.remove(i as int),
        i >= old(items)@.len() ==> final(items)@ == old(items)@,
{
    if i < items.len() {
        items.remove(i);
    }
}

} // verus!
