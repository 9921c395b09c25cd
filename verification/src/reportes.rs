//! Exportación de los libros de ventas y compras y del resumen del ATS como texto
//! separado por `;`. Los importes llegan ya escritos con dos decimales.

use vstd::prelude::*;
use crate::texto::{agregar_caracter, agregar_texto, caracteres};
use crate::numeracion::{fecha_hora_local, lema_marca_no_vacia, marca_de_formato};

verus! {

broadcast use vstd::string::group_string_axioms;

/// Una fila de un libro: documento, tercero (cliente o proveedor), fecha e importes.
pub struct FilaLibro {
    pub documento: String,
    pub tercero: String,
    pub fecha: String,
    pub subtotal: String,
    pub iva: String,
    pub total: String,
}

/// Totales del resumen del ATS.
pub struct ResumenAtsTexto {
    pub ventas: String,
    pub iva_ventas: String,
    pub compras: String,
    pub iva_compras: String,
}

/// El texto con cada `;` cambiado por `,`, para que no rompa las columnas.
pub open spec fn sin_separador(s: Seq<char>) -> Seq<char> {
    s.map_values(|c: char| if c == ';' { ',' } else { c })
}

/// Una fila del libro como línea del archivo.
pub open spec fn linea_libro(f: FilaLibro) -> Seq<char> {
    f.documento@ + ";"@ + sin_separador(f.tercero@) + ";"@ + f.fecha@ + ";"@ + f.subtotal@ + ";"@
        + f.iva@ + ";"@ + f.total@ + "\n"@
}

/// Las filas de un libro, en orden.
pub open spec fn lineas_libro(fs: Seq<FilaLibro>) -> Seq<char>
    decreases fs.len(),
{
    if fs.len() == 0 {
        Seq::empty()
    } else {
        lineas_libro(fs.drop_last()) + linea_libro(fs.last())
    }
}

/// Contenido del archivo del ATS: libro de ventas, libro de compras y resumen.
pub open spec fn contenido_ats_de(ventas: Seq<FilaLibro>, compras: Seq<FilaLibro>, r: ResumenAtsTexto) -> Seq<char> {
    "=== LIBRO DE VENTAS ===\n"@ + "Folio;Cliente;Fecha;Subtotal;IVA;Total\n"@ + lineas_libro(ventas)
        + "\n=== LIBRO DE COMPRAS ===\n"@ + "Numero;Proveedor;Fecha;Subtotal;IVA;Total\n"@ + lineas_libro(compras)
        + "\n=== RESUMEN ATS ===\nVentas;"@ + r.ventas@ + "\nIVA Ventas;"@ + r.iva_ventas@ + "\nCompras;"@
        + r.compras@ + "\nIVA Compras;"@ + r.iva_compras@ + "\n"@
}

/// El nombre del tercero no rompe las columnas: conserva su largo, cada `;` pasa a
/// ser `,`, los demás caracteres quedan como estaban y no queda ningún `;`.
pub proof fn ley_tercero_sin_separador(t: Seq<char>)
    ensures
        sin_separador(t).len() == t.len(),
        forall|i: int| 0 <= i < t.len() ==> {
            &&& #[trigger] sin_separador(t)[i] != ';'
            &&& t[i] == ';' ==> sin_separador(t)[i] == ','
            &&& t[i] != ';' ==> sin_separador(t)[i] == t[i]
        },
{
}

/// Las líneas de las filas de un libro, una por fila y en su orden.
pub open spec fn lineas_por_fila(fs: Seq<FilaLibro>) -> Seq<Seq<char>> {
    fs.map_values(|f: FilaLibro| linea_libro(f))
}

/// Las filas de un libro se escriben una tras otra, cada una en su línea.
pub proof fn lema_libro_es_concatenacion(fs: Seq<FilaLibro>)
    ensures
        lineas_libro(fs) == lineas_por_fila(fs).flatten(),
    decreases fs.len(),
{
    if fs.len() == 0 {
        assert(lineas_por_fila(fs) =~= Seq::<Seq<char>>::empty());
    } else {
        let ant = fs.drop_last();
        lema_libro_es_concatenacion(ant);
        assert(lineas_por_fila(fs) =~= lineas_por_fila(ant).push(linea_libro(fs.last())));
        lineas_por_fila(ant).lemma_flatten_push(linea_libro(fs.last()));
    }
}

/// El archivo del ATS tiene este orden: el encabezado y la cabecera del libro de
/// ventas, una línea por venta en su orden, el encabezado y la cabecera del libro
/// de compras, una línea por compra en su orden, y el resumen. Ninguna compra cae
/// en el libro de ventas ni ninguna venta en el de compras.
pub proof fn ley_libros_en_su_seccion(ventas: Seq<FilaLibro>, compras: Seq<FilaLibro>, r: ResumenAtsTexto)
    ensures
        contenido_ats_de(ventas, compras, r) == "=== LIBRO DE VENTAS ===\n"@
            + "Folio;Cliente;Fecha;Subtotal;IVA;Total\n"@
            + lineas_por_fila(ventas).flatten()
            + "\n=== LIBRO DE COMPRAS ===\n"@
            + "Numero;Proveedor;Fecha;Subtotal;IVA;Total\n"@
            + lineas_por_fila(compras).flatten()
            + "\n=== RESUMEN ATS ===\nVentas;"@ + r.ventas@ + "\nIVA Ventas;"@ + r.iva_ventas@
            + "\nCompras;"@ + r.compras@ + "\nIVA Compras;"@ + r.iva_compras@ + "\n"@,
{
    lema_libro_es_concatenacion(ventas);
    lema_libro_es_concatenacion(compras);
}

/// Añade `t` con cada `;` cambiado por `,`.
fn agregar_sin_separador(s: &mut String, t: &str)
    ensures
        final(s)@ == old(s)@ + sin_separador(t@),
{
    let v = caracteres(t);
    let mut i: usize = 0;
    while i < v.len()
        invariant
            0 <= i <= v.len(),
            v@ == t@,
            s@ == old(s)@ + sin_separador(v@.take(i as int)),
        decreases v.len() - i,
    {
        let c = v[i];
        if c == ';' {
            agregar_caracter(s, ',');
        } else {
            agregar_caracter(s, c);
        }
        assert(sin_separador(v@.take(i + 1)) =~= sin_separador(v@.take(i as int)).push(if c == ';' { ',' } else { c }));
        i += 1;
    }
    assert(v@.take(v@.len() as int) =~= v@);
}

/// Añade las filas de un libro.
fn agregar_libro(s: &mut String, filas: &Vec<FilaLibro>)
    ensures
        final(s)@ == old(s)@ + lineas_libro(filas@),
{
    let mut i: usize = 0;
    assert(filas@.take(0) =~= Seq::<FilaLibro>::empty());
    while i < filas.len()
        invariant
            0 <= i <= filas.len(),
            s@ == old(s)@ + lineas_libro(filas@.take(i as int)),
        decreases filas.len() - i,
    {
        let f = &filas[i];
        let ghost antes = s@;
        agregar_texto(s, f.documento.as_str());
        agregar_texto(s, ";");
        agregar_sin_separador(s, f.tercero.as_str());
        agregar_texto(s, ";");
        agregar_texto(s, f.fecha.as_str());
        agregar_texto(s, ";");
        agregar_texto(s, f.subtotal.as_str());
        agregar_texto(s, ";");
        agregar_texto(s, f.iva.as_str());
        agregar_texto(s, ";");
        agregar_texto(s, f.total.as_str());
        agregar_texto(s, "\n");
        proof {
            assert(s@ =~= antes + linea_libro(filas@[i as int]));
            assert(filas@.take(i + 1).drop_last() =~= filas@.take(i as int));
            assert(filas@.take(i + 1).last() == filas@[i as int]);
        }
        i += 1;
    }
    assert(filas@.take(filas@.len() as int) =~= filas@);
}

/// Redacta el archivo del ATS con los libros de ventas y compras y el resumen.
pub fn contenido_ats(ventas: &Vec<FilaLibro>, compras: &Vec<FilaLibro>, resumen: &ResumenAtsTexto) -> (r: String)
    ensures
        r@ == contenido_ats_de(ventas@, compras@, *resumen),
{
    let mut s = String::new();
    agregar_texto(&mut s, "=== LIBRO DE VENTAS ===\n");
    agregar_texto(&mut s, "Folio;Cliente;Fecha;Subtotal;IVA;Total\n");
    agregar_libro(&mut s, ventas);
    agregar_texto(&mut s, "\n=== LIBRO DE COMPRAS ===\n");
    agregar_texto(&mut s, "Numero;Proveedor;Fecha;Subtotal;IVA;Total\n");
    agregar_libro(&mut s, compras);
    agregar_texto(&mut s, "\n=== RESUMEN ATS ===\nVentas;");
    agregar_texto(&mut s, resumen.ventas.as_str());
    agregar_texto(&mut s, "\nIVA Ventas;");
    agregar_texto(&mut s, resumen.iva_ventas.as_str());
    agregar_texto(&mut s, "\nCompras;");
    agregar_texto(&mut s, resumen.compras.as_str());
    agregar_texto(&mut s, "\nIVA Compras;");
    agregar_texto(&mut s, resumen.iva_compras.as_str());
    agregar_texto(&mut s, "\n");
    assert(s@ =~= contenido_ats_de(ventas@, compras@, *resumen));
    s
}

/// Nombre del archivo del ATS para la marca de tiempo `marca`.
pub open spec fn nombre_ats_de(marca: Seq<char>) -> Seq<char> {
    "ats_libros_"@ + marca + ".csv"@
}

/// Escribe el nombre del archivo del ATS para la marca de tiempo `marca`.
pub fn nombre_ats(marca: &str) -> (r: String)
    ensures
        r@ == nombre_ats_de(marca@),
{
    let mut r = String::new();
    agregar_texto(&mut r, "ats_libros_");
    agregar_texto(&mut r, marca);
    agregar_texto(&mut r, ".csv");
    r
}

/// Nombre del archivo del ATS con la fecha y hora local actuales
/// (`%Y%m%d_%H%M%S`). La marca depende del reloj; el resto es fijo.
pub fn nuevo_nombre_ats() -> (r: String)
    ensures
        exists|marca: Seq<char>|
            #![trigger nombre_ats_de(marca)]
            marca.len() > 0 && marca_de_formato("%Y%m%d_%H%M%S"@, marca) && r@ == nombre_ats_de(marca),
{
    let marca = fecha_hora_local("%Y%m%d_%H%M%S");
    proof {
        lema_marca_no_vacia("%Y%m%d_%H%M%S"@, marca@);
    }
    nombre_ats(marca.as_str())
}

} // verus!
