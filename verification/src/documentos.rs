//! Textos de los documentos que emite el sistema: el escapado XML, el nombre de
//! archivo de cada documento y el XML de la factura electrónica.

use vstd::prelude::*;
use vstd::string::StringSliceAdditionalSpecFns;
use crate::texto::{agregar_caracter, agregar_texto, caracteres, cadena_de, copiar, recortar, recortar_texto, es_alfanumerico, es_alfanumerico_exec};
use crate::numeros::{con_ceros, decimal_con_signo, repetido, escribir_con_ceros, escribir_entero, escribir_repetido, es_digito};


verus! {

broadcast use vstd::string::group_string_axioms;

/// Escapado XML de un carácter: las cinco entidades predefinidas, o el propio carácter.
pub open spec fn escape_caracter(c: char) -> Seq<char> {
    if c == '&' {
        seq!['&', 'a', 'm', 'p', ';']
    } else if c == '<' {
        seq!['&', 'l', 't', ';']
    } else if c == '>' {
        seq!['&', 'g', 't', ';']
    } else if c == '"' {
        seq!['&', 'q', 'u', 'o', 't', ';']
    } else if c == '\'' {
        seq!['&', 'a', 'p', 'o', 's', ';']
    } else {
        seq![c]
    }
}

/// Texto con cada carácter escapado para XML.
pub open spec fn xml_escapado(s: Seq<char>) -> Seq<char>
    decreases s.len(),
{
    if s.len() == 0 {
        Seq::empty()
    } else {
        escape_caracter(s[0]) + xml_escapado(s.drop_first())
    }
}

/// Escapar un texto alargado con un carácter es escapar el texto y añadir el escapado del carácter.
pub proof fn lema_escapado_push(s: Seq<char>, c: char)
    ensures
        xml_escapado(s.push(c)) == xml_escapado(s) + escape_caracter(c),
    decreases s.len(),
{
    if s.len() == 0 {
        assert(s.push(c).drop_first() =~= Seq::<char>::empty());
        assert(s.push(c)[0] == c);
        assert(xml_escapado(s.push(c).drop_first()) == Seq::<char>::empty());
        assert(xml_escapado(s) == Seq::<char>::empty());
        assert(xml_escapado(s.push(c)) =~= escape_caracter(c) + Seq::<char>::empty());
        assert(xml_escapado(s.push(c)) =~= xml_escapado(s) + escape_caracter(c));
    } else {
        assert(s.push(c).drop_first() =~= s.drop_first().push(c));
        lema_escapado_push(s.drop_first(), c);
        assert(xml_escapado(s.push(c)) =~= xml_escapado(s) + escape_caracter(c));
    }
}

/// Añade a `s` el escapado de `c`.
fn agregar_escapado(s: &mut String, c: char)
    ensures
        final(s)@ == old(s)@ + escape_caracter(c),
{
    if c == '&' {
        agregar_caracter(s, '&');
        agregar_caracter(s, 'a');
        agregar_caracter(s, 'm');
        agregar_caracter(s, 'p');
        agregar_caracter(s, ';');
    } else if c == '<' {
        agregar_caracter(s, '&');
        agregar_caracter(s, 'l');
        agregar_caracter(s, 't');
        agregar_caracter(s, ';');
    } else if c == '>' {
        agregar_caracter(s, '&');
        agregar_caracter(s, 'g');
        agregar_caracter(s, 't');
        agregar_caracter(s, ';');
    } else if c == '"' {
        agregar_caracter(s, '&');
        agregar_caracter(s, 'q');
        agregar_caracter(s, 'u');
        agregar_caracter(s, 'o');
        agregar_caracter(s, 't');
        agregar_caracter(s, ';');
    } else if c == '\'' {
        agregar_caracter(s, '&');
        agregar_caracter(s, 'a');
        agregar_caracter(s, 'p');
        agregar_caracter(s, 'o');
        agregar_caracter(s, 's');
        agregar_caracter(s, ';');
    } else {
        agregar_caracter(s, c);
    }
    assert(final(s)@ =~= old(s)@ + escape_caracter(c));
}

/// Añade a `s` el texto `t` escapado para XML.
pub fn agregar_xml_escapado(s: &mut String, t: &str)
    ensures
        final(s)@ == old(s)@ + xml_escapado(t@),
{
    let v = caracteres(t);
    let mut i: usize = 0;
    assert(v@.take(0) =~= Seq::<char>::empty());
    assert(old(s)@ + xml_escapado(Seq::<char>::empty()) =~= old(s)@);
    while i < v.len()
        invariant
            0 <= i <= v@.len(),
            v@ == t@,
            s@ == old(s)@ + xml_escapado(v@.take(i as int)),
        decreases v@.len() - i,
    {
        let c = v[i];
        agregar_escapado(s, c);
        proof {
            assert(v@.take(i + 1) =~= v@.take(i as int).push(c));
            lema_escapado_push(v@.take(i as int), c);
        }
        i += 1;
    }
    assert(v@.take(v@.len() as int) =~= v@);
}

/// Escapa `&`, `<`, `>`, `"` y `'` con sus entidades XML.
pub fn xml_escape(s: &str) -> (r: String)
    ensures
        r@ == xml_escapado(s@),
{
    let mut r = String::new();
    agregar_xml_escapado(&mut r, s);
    assert(Seq::<char>::empty() + xml_escapado(s@) =~= xml_escapado(s@));
    r
}

/// Carácter que no puede ir literal dentro de un valor XML.
pub open spec fn es_marcado(c: char) -> bool {
    c == '<' || c == '>' || c == '"' || c == '\''
}

/// El texto escapado no contiene `<`, `>`, `"` ni `'`: todo carácter de marcado queda como entidad.
pub proof fn ley_escapado_sin_marcado(s: Seq<char>)
    ensures
        forall|i: int| 0 <= i < xml_escapado(s).len() ==> !es_marcado(#[trigger] xml_escapado(s)[i]),
    decreases s.len(),
{
    if s.len() > 0 {
        ley_escapado_sin_marcado(s.drop_first());
        let e = escape_caracter(s[0]);
        let r = xml_escapado(s.drop_first());
        assert forall|i: int| 0 <= i < xml_escapado(s).len() implies !es_marcado(#[trigger] xml_escapado(s)[i]) by {
            if i < e.len() {
                assert(xml_escapado(s)[i] == e[i]);
            } else {
                assert(xml_escapado(s)[i] == r[i - e.len()]);
            }
        }
    }
}

/// El escapado nunca acorta el texto.
pub proof fn lema_escapado_longitud(s: Seq<char>)
    ensures
        xml_escapado(s).len() >= s.len(),
    decreases s.len(),
{
    if s.len() > 0 {
        lema_escapado_longitud(s.drop_first());
    }
}

/// Dos escapados que empiezan igual vienen del mismo carácter.
proof fn lema_escape_caracter_inyectivo(a: char, b: char, x: Seq<char>, y: Seq<char>)
    requires
        escape_caracter(a) + x == escape_caracter(b) + y,
    ensures
        a == b,
{
    let ea = escape_caracter(a);
    let eb = escape_caracter(b);
    let w = ea + x;
    assert(w[0] == ea[0]);
    assert(w[0] == eb[0]);
    if ea.len() >= 4 && eb.len() >= 4 {
        assert(w[1] == ea[1] && w[1] == eb[1]);
        assert(w[2] == ea[2] && w[2] == eb[2]);
    }
}

/// Escapar es inyectivo: textos distintos dan escapados distintos.
pub proof fn ley_escapado_inyectivo(a: Seq<char>, b: Seq<char>)
    requires
        xml_escapado(a) == xml_escapado(b),
    ensures
        a == b,
    decreases a.len(),
{
    if a.len() == 0 {
        if b.len() > 0 {
            lema_escapado_longitud(b);
        }
        assert(a =~= b);
    } else {
        lema_escapado_longitud(a);
        if b.len() == 0 {
            assert(false);
        }
        let ea = escape_caracter(a[0]);
        let eb = escape_caracter(b[0]);
        lema_escape_caracter_inyectivo(a[0], b[0], xml_escapado(a.drop_first()), xml_escapado(b.drop_first()));
        assert(ea == eb);
        let w = xml_escapado(a);
        assert(w.subrange(ea.len() as int, w.len() as int) =~= xml_escapado(a.drop_first()));
        assert(w.subrange(ea.len() as int, w.len() as int) =~= xml_escapado(b.drop_first()));
        ley_escapado_inyectivo(a.drop_first(), b.drop_first());
        assert(a =~= seq![a[0]] + a.drop_first());
        assert(b =~= seq![b[0]] + b.drop_first());
    }
}

/// El folio con cada carácter no alfanumérico cambiado por `_`.
pub open spec fn folio_limpio(folio: Seq<char>) -> Seq<char> {
    folio.map_values(|c: char| if es_alfanumerico(c) { c } else { '_' })
}

/// Nombre del archivo PDF de un documento: `<prefijo>_<folio limpio>.pdf`.
pub open spec fn nombre_documento(prefijo: Seq<char>, folio: Seq<char>) -> Seq<char> {
    prefijo + seq!['_'] + folio_limpio(folio) + seq!['.', 'p', 'd', 'f']
}

/// Añade el folio con lo que no es letra ni dígito cambiado por `_`.
fn agregar_folio_limpio(r: &mut String, folio: &str)
    ensures
        final(r)@ == old(r)@ + folio_limpio(folio@),
{
    let v = caracteres(folio);
    let mut i: usize = 0;
    while i < v.len()
        invariant
            0 <= i <= v@.len(),
            v@ == folio@,
            r@ == old(r)@ + folio_limpio(v@.take(i as int)),
        decreases v@.len() - i,
    {
        let c = v[i];
        let l = if es_alfanumerico_exec(c) { c } else { '_' };
        agregar_caracter(r, l);
        assert(folio_limpio(v@.take(i + 1)) =~= folio_limpio(v@.take(i as int)).push(l));
        i += 1;
    }
    assert(v@.take(v@.len() as int) =~= v@);
}

/// Nombre del archivo con que se guarda un documento: el prefijo, `_`, el folio con
/// lo que no es letra ni dígito cambiado por `_`, y la extensión `.pdf`.
pub fn nombre_archivo(prefijo: &str, folio: &str) -> (r: String)
    ensures
        r@ == nombre_documento(prefijo@, folio@),
{
    let mut r = copiar(prefijo);
    agregar_caracter(&mut r, '_');
    agregar_folio_limpio(&mut r, folio);
    agregar_texto(&mut r, ".pdf");
    assert(".pdf"@ == seq!['.', 'p', 'd', 'f']) by {
        reveal_strlit(".pdf");
    }
    assert(r@ =~= nombre_documento(prefijo@, folio@));
    r
}

/// Nombre del archivo del XML de una factura: el del PDF con prefijo `XML_Factura` y
/// la extensión cambiada a `.xml`.
pub open spec fn nombre_xml(folio: Seq<char>) -> Seq<char> {
    "XML_Factura_"@ + folio_limpio(folio) + ".xml"@
}

/// Escribe el nombre del archivo del XML de la factura con ese folio.
pub fn nombre_archivo_xml(folio: &str) -> (r: String)
    ensures
        r@ == nombre_xml(folio@),
{
    let mut r = String::new();
    agregar_texto(&mut r, "XML_Factura_");
    agregar_folio_limpio(&mut r, folio);
    agregar_texto(&mut r, ".xml");
    r
}

/// Los dígitos decimales ASCII de un texto, en orden.
pub open spec fn digitos_de(s: Seq<char>) -> Seq<char>
    decreases s.len(),
{
    if s.len() == 0 {
        s
    } else if es_digito(s.last()) {
        digitos_de(s.drop_last()).push(s.last())
    } else {
        digitos_de(s.drop_last())
    }
}

/// Número secuencial de nueve dígitos de la factura: los dígitos del folio; si son
/// nueve o más, los nueve últimos, y si no, completados con ceros a la izquierda.
pub open spec fn secuencial_de(folio: Seq<char>) -> Seq<char> {
    let d = digitos_de(folio);
    if d.len() >= 9 {
        d.subrange(d.len() - 9, d.len() as int)
    } else {
        repetido('0', (9 - d.len()) as nat) + d
    }
}

/// Secuencial de nueve dígitos que la factura electrónica toma del folio.
pub fn secuencial_factura(folio: &str) -> (r: String)
    ensures
        r@ == secuencial_de(folio@),
        r@.len() == 9,
{
    let v = caracteres(folio);
    let mut d: Vec<char> = Vec::new();
    let mut i: usize = 0;
    while i < v.len()
        invariant
            0 <= i <= v@.len(),
            v@ == folio@,
            d@ == digitos_de(v@.take(i as int)),
            d@.len() <= i,
        decreases v@.len() - i,
    {
        let c = v[i];
        assert(v@.take(i + 1).drop_last() =~= v@.take(i as int));
        assert(v@.take(i + 1).last() == c);
        if '0' <= c && c <= '9' {
            d.push(c);
        }
        i += 1;
    }
    assert(v@.take(v@.len() as int) =~= v@);
    let n = d.len();
    if n >= 9 {
        let mut r = String::new();
        let mut k: usize = n - 9;
        while k < n
            invariant
                n >= 9,
                n - 9 <= k <= n,
                n == d@.len(),
                r@ == d@.subrange(n - 9, k as int),
            decreases n - k,
        {
            agregar_caracter(&mut r, d[k]);
            assert(d@.subrange(n - 9, k + 1) =~= d@.subrange(n - 9, k as int).push(d@[k as int]));
            k += 1;
        }
        r
    } else {
        let mut r = String::new();
        escribir_repetido(&mut r, '0', 9 - n);
        let t = cadena_de(&d);
        agregar_texto(&mut r, t.as_str());
        assert(r@ =~= repetido('0', (9 - n) as nat) + d@);
        r
    }
}

/// Tipo de identificación del comprador: `04` si la cédula sin espacios en los extremos
/// ocupa 13 bytes o más (RUC), `05` si no está vacía (cédula), `07` si lo está (consumidor final).
pub open spec fn tipo_identificacion(cedula: Seq<char>) -> Seq<char> {
    let t = recortar(cedula);
    if vstd::utf8::encode_utf8(t).len() >= 13 {
        seq!['0', '4']
    } else if t.len() > 0 {
        seq!['0', '5']
    } else {
        seq!['0', '7']
    }
}

/// Código del tipo de identificación del comprador en la factura electrónica.
pub fn tipo_identificacion_comprador(cedula: &str) -> (r: String)
    ensures
        r@ == tipo_identificacion(cedula@),
{
    let t = recortar_texto(cedula);
    let mut r = String::new();
    agregar_caracter(&mut r, '0');
    if t.as_str().as_bytes().len() >= 13 {
        agregar_caracter(&mut r, '4');
    } else if !t.as_str().is_empty() {
        agregar_caracter(&mut r, '5');
    } else {
        agregar_caracter(&mut r, '7');
    }
    assert(r@ =~= tipo_identificacion(cedula@));
    r
}

/// Identificación del comprador: la cédula tal como viene, o trece nueves si está vacía.
pub open spec fn identificacion(cedula: Seq<char>) -> Seq<char> {
    if recortar(cedula).len() == 0 {
        repetido('9', 13)
    } else {
        cedula
    }
}

/// Identificación que la factura electrónica da al comprador.
pub fn identificacion_comprador(cedula: &str) -> (r: String)
    ensures
        r@ == identificacion(cedula@),
{
    let t = recortar_texto(cedula);
    if t.as_str().is_empty() {
        let mut r = String::new();
        escribir_repetido(&mut r, '9', 13);
        assert(r@ =~= repetido('9', 13));
        r
    } else {
        copiar(cedula)
    }
}

/// Código principal de un producto: `P` y el identificador con cinco cifras (`P{:05}`), o vacío.
pub open spec fn codigo_de_producto(producto_id: Option<i64>) -> Seq<char> {
    match producto_id {
        Some(i) => seq!['P'] + con_ceros(i as int, 5),
        None => Seq::empty(),
    }
}

/// Código principal con que un producto figura en el detalle de la factura electrónica.
pub fn codigo_producto(producto_id: Option<i64>) -> (r: String)
    ensures
        r@ == codigo_de_producto(producto_id),
{
    let mut r = String::new();
    match producto_id {
        Some(i) => {
            agregar_caracter(&mut r, 'P');
            escribir_con_ceros(&mut r, i, 5);
            assert(r@ =~= seq!['P'] + con_ceros(i as int, 5));
        },
        None => {},
    }
    r
}

/// Datos de contacto de un cliente que usan los documentos.
pub struct ContactoCliente {
    pub rfc: String,
    pub telefono: String,
    pub direccion: String,
    pub ciudad: String,
}

/// Dirección de contacto: dirección y ciudad separadas por un espacio, sin espacios en los extremos.
pub open spec fn direccion_de_contacto(direccion: Seq<char>, ciudad: Seq<char>) -> Seq<char> {
    recortar(direccion + seq![' '] + ciudad)
}

/// Cédula, teléfono y dirección de contacto de un cliente, o tres textos vacíos si no hay cliente.
pub open spec fn contacto_de(cliente: Option<ContactoCliente>) -> (Seq<char>, Seq<char>, Seq<char>) {
    match cliente {
        Some(c) => (c.rfc@, c.telefono@, direccion_de_contacto(c.direccion@, c.ciudad@)),
        None => (Seq::empty(), Seq::empty(), Seq::empty()),
    }
}

/// Cédula, teléfono y dirección (dirección y ciudad, sin espacios en los extremos) del cliente.
pub fn datos_contacto(cliente: &Option<ContactoCliente>) -> (r: (String, String, String))
    ensures
        (r.0@, r.1@, r.2@) == contacto_de(*cliente),
{
    match cliente {
        Some(c) => {
            let mut d = copiar(c.direccion.as_str());
            agregar_caracter(&mut d, ' ');
            agregar_texto(&mut d, c.ciudad.as_str());
            assert(d@ =~= c.direccion@ + seq![' '] + c.ciudad@);
            let dir = recortar_texto(d.as_str());
            (copiar(c.rfc.as_str()), copiar(c.telefono.as_str()), dir)
        },
        None => (String::new(), String::new(), String::new()),
    }
}

/// Una línea de detalle de la factura electrónica, con los importes ya escritos con dos decimales.
pub struct LineaFacturaXml {
    pub producto_id: Option<i64>,
    pub descripcion: String,
    pub cantidad: i32,
    pub precio_unitario: String,
    pub descuento: String,
    pub precio_total: String,
}

/// El impuesto de la factura electrónica, con los importes ya escritos con dos decimales.
pub struct ImpuestoFacturaXml {
    pub codigo_porcentaje: String,
    pub base_imponible: String,
    pub valor: String,
}

/// Los datos de una factura que entran en su XML, con los importes ya escritos con dos decimales.
pub struct FacturaXml {
    pub razon_social: String,
    pub ruc: String,
    pub dir_matriz: String,
    pub folio: String,
    pub fecha_emision: String,
    pub cliente_nombre: String,
    pub cliente: Option<ContactoCliente>,
    pub total_sin_impuestos: String,
    pub total_descuento: String,
    pub impuesto: Option<ImpuestoFacturaXml>,
    pub importe_total: String,
    pub lineas: Vec<LineaFacturaXml>,
}

/// Cabecera del XML y bloque `infoTributaria`, a continuación de `p`.
pub open spec fn xml_info_tributaria(p: Seq<char>, f: FacturaXml) -> Seq<char> {
    p + "<?xml version=\"1.0\" encoding=\"UTF-8\"?>\n"@
        + "<factura id=\"comprobante\" version=\"1.0.0\">\n"@
        + "  <infoTributaria>\n"@
        + "    <ambiente>1</ambiente>\n"@
        + "    <tipoEmision>1</tipoEmision>\n"@
        + "    <razonSocial>"@ + xml_escapado(f.razon_social@) + "</razonSocial>\n"@
        + "    <ruc>"@ + xml_escapado(f.ruc@) + "</ruc>\n"@
        + "    <codDoc>01</codDoc>\n"@
        + "    <estab>001</estab>\n"@
        + "    <ptoEmi>001</ptoEmi>\n"@
        + "    <secuencial>"@ + secuencial_de(f.folio@) + "</secuencial>\n"@
        + "    <dirMatriz>"@ + xml_escapado(f.dir_matriz@) + "</dirMatriz>\n"@
        + "  </infoTributaria>\n"@
}

/// Datos del comprador dentro de `infoFactura`, a continuación de `p`.
pub open spec fn xml_comprador(p: Seq<char>, f: FacturaXml) -> Seq<char> {
    let (cedula, _telefono, direccion) = contacto_de(f.cliente);
    let q = p + "  <infoFactura>\n"@
        + "    <fechaEmision>"@ + f.fecha_emision@ + "</fechaEmision>\n"@
        + "    <obligadoContabilidad>SI</obligadoContabilidad>\n"@
        + "    <tipoIdentificacionComprador>"@ + tipo_identificacion(cedula) + "</tipoIdentificacionComprador>\n"@
        + "    <razonSocialComprador>"@ + xml_escapado(f.cliente_nombre@) + "</razonSocialComprador>\n"@
        + "    <identificacionComprador>"@ + xml_escapado(identificacion(cedula)) + "</identificacionComprador>\n"@;
    if direccion.len() > 0 {
        q + "    <direccionComprador>"@ + xml_escapado(direccion) + "</direccionComprador>\n"@
    } else {
        q
    }
}

/// Totales de `infoFactura`, a continuación de `p`.
pub open spec fn xml_totales(p: Seq<char>, f: FacturaXml) -> Seq<char> {
    let q = p + "    <totalSinImpuestos>"@ + f.total_sin_impuestos@ + "</totalSinImpuestos>\n"@
        + "    <totalDescuento>"@ + f.total_descuento@ + "</totalDescuento>\n"@
        + "    <totalConImpuestos>\n"@;
    let r = match f.impuesto {
        Some(i) => q + "      <totalImpuesto>\n"@
            + "        <codigo>2</codigo>\n"@
            + "        <codigoPorcentaje>"@ + i.codigo_porcentaje@ + "</codigoPorcentaje>\n"@
            + "        <baseImponible>"@ + i.base_imponible@ + "</baseImponible>\n"@
            + "        <valor>"@ + i.valor@ + "</valor>\n"@
            + "      </totalImpuesto>\n"@,
        None => q,
    };
    r + "    </totalConImpuestos>\n"@
        + "    <propina>0.00</propina>\n"@
        + "    <importeTotal>"@ + f.importe_total@ + "</importeTotal>\n"@
        + "    <moneda>DOLAR</moneda>\n"@
        + "  </infoFactura>\n"@
        + "  <detalles>\n"@
}

/// Un elemento `detalle`, a continuación de `p`.
pub open spec fn xml_detalle(p: Seq<char>, l: LineaFacturaXml) -> Seq<char> {
    p + "    <detalle>\n"@
        + "      <codigoPrincipal>"@ + xml_escapado(codigo_de_producto(l.producto_id)) + "</codigoPrincipal>\n"@
        + "      <descripcion>"@ + xml_escapado(l.descripcion@) + "</descripcion>\n"@
        + "      <cantidad>"@ + decimal_con_signo(l.cantidad as int) + "</cantidad>\n"@
        + "      <precioUnitario>"@ + l.precio_unitario@ + "</precioUnitario>\n"@
        + "      <descuento>"@ + l.descuento@ + "</descuento>\n"@
        + "      <precioTotalSinImpuesto>"@ + l.precio_total@ + "</precioTotalSinImpuesto>\n"@
        + "    </detalle>\n"@
}

/// Los elementos `detalle` de las líneas, en orden, a continuación de `p`.
pub open spec fn xml_detalles(p: Seq<char>, lineas: Seq<LineaFacturaXml>) -> Seq<char>
    decreases lineas.len(),
{
    if lineas.len() == 0 {
        p
    } else {
        xml_detalle(xml_detalles(p, lineas.drop_last()), lineas.last())
    }
}

/// Cierre del documento con la información adicional, a continuación de `p`.
pub open spec fn xml_cierre(p: Seq<char>, f: FacturaXml) -> Seq<char> {
    let (_cedula, telefono, _direccion) = contacto_de(f.cliente);
    let q = p + "  </detalles>\n"@ + "  <infoAdicional>\n"@;
    let r = if telefono.len() > 0 {
        q + "    <campoAdicional nombre=\"Telefono\">"@ + xml_escapado(telefono) + "</campoAdicional>\n"@
    } else {
        q
    };
    r + "  </infoAdicional>\n"@ + "</factura>\n"@
}

/// El XML completo de la factura electrónica.
pub open spec fn xml_factura(f: FacturaXml) -> Seq<char> {
    xml_cierre(
        xml_detalles(xml_totales(xml_comprador(xml_info_tributaria(Seq::empty(), f), f), f), f.lineas@),
        f,
    )
}

fn escribir_info_tributaria(x: &mut String, f: &FacturaXml)
    ensures
        final(x)@ == xml_info_tributaria(old(x)@, *f),
{
    agregar_texto(x, "<?xml version=\"1.0\" encoding=\"UTF-8\"?>\n");
    agregar_texto(x, "<factura id=\"comprobante\" version=\"1.0.0\">\n");
    agregar_texto(x, "  <infoTributaria>\n");
    agregar_texto(x, "    <ambiente>1</ambiente>\n");
    agregar_texto(x, "    <tipoEmision>1</tipoEmision>\n");
    agregar_texto(x, "    <razonSocial>");
    agregar_xml_escapado(x, f.razon_social.as_str());
    agregar_texto(x, "</razonSocial>\n");
    agregar_texto(x, "    <ruc>");
    agregar_xml_escapado(x, f.ruc.as_str());
    agregar_texto(x, "</ruc>\n");
    agregar_texto(x, "    <codDoc>01</codDoc>\n");
    agregar_texto(x, "    <estab>001</estab>\n");
    agregar_texto(x, "    <ptoEmi>001</ptoEmi>\n");
    agregar_texto(x, "    <secuencial>");
    let sec = secuencial_factura(f.folio.as_str());
    agregar_texto(x, sec.as_str());
    agregar_texto(x, "</secuencial>\n");
    agregar_texto(x, "    <dirMatriz>");
    agregar_xml_escapado(x, f.dir_matriz.as_str());
    agregar_texto(x, "</dirMatriz>\n");
    agregar_texto(x, "  </infoTributaria>\n");
}

fn escribir_comprador(x: &mut String, f: &FacturaXml)
    ensures
        final(x)@ == xml_comprador(old(x)@, *f),
{
    let (cedula, _telefono, direccion) = datos_contacto(&f.cliente);
    agregar_texto(x, "  <infoFactura>\n");
    agregar_texto(x, "    <fechaEmision>");
    agregar_texto(x, f.fecha_emision.as_str());
    agregar_texto(x, "</fechaEmision>\n");
    agregar_texto(x, "    <obligadoContabilidad>SI</obligadoContabilidad>\n");
    agregar_texto(x, "    <tipoIdentificacionComprador>");
    let tipo = tipo_identificacion_comprador(cedula.as_str());
    agregar_texto(x, tipo.as_str());
    agregar_texto(x, "</tipoIdentificacionComprador>\n");
    agregar_texto(x, "    <razonSocialComprador>");
    agregar_xml_escapado(x, f.cliente_nombre.as_str());
    agregar_texto(x, "</razonSocialComprador>\n");
    agregar_texto(x, "    <identificacionComprador>");
    let ident = identificacion_comprador(cedula.as_str());
    agregar_xml_escapado(x, ident.as_str());
    agregar_texto(x, "</identificacionComprador>\n");
    if !direccion.as_str().is_empty() {
        agregar_texto(x, "    <direccionComprador>");
        agregar_xml_escapado(x, direccion.as_str());
        agregar_texto(x, "</direccionComprador>\n");
    }
}

fn escribir_totales(x: &mut String, f: &FacturaXml)
    ensures
        final(x)@ == xml_totales(old(x)@, *f),
{
    agregar_texto(x, "    <totalSinImpuestos>");
    agregar_texto(x, f.total_sin_impuestos.as_str());
    agregar_texto(x, "</totalSinImpuestos>\n");
    agregar_texto(x, "    <totalDescuento>");
    agregar_texto(x, f.total_descuento.as_str());
    agregar_texto(x, "</totalDescuento>\n");
    agregar_texto(x, "    <totalConImpuestos>\n");
    match &f.impuesto {
        Some(i) => {
            agregar_texto(x, "      <totalImpuesto>\n");
            agregar_texto(x, "        <codigo>2</codigo>\n");
            agregar_texto(x, "        <codigoPorcentaje>");
            agregar_texto(x, i.codigo_porcentaje.as_str());
            agregar_texto(x, "</codigoPorcentaje>\n");
            agregar_texto(x, "        <baseImponible>");
            agregar_texto(x, i.base_imponible.as_str());
            agregar_texto(x, "</baseImponible>\n");
            agregar_texto(x, "        <valor>");
            agregar_texto(x, i.valor.as_str());
            agregar_texto(x, "</valor>\n");
            agregar_texto(x, "      </totalImpuesto>\n");
        },
        None => {},
    }
    agregar_texto(x, "    </totalConImpuestos>\n");
    agregar_texto(x, "    <propina>0.00</propina>\n");
    agregar_texto(x, "    <importeTotal>");
    agregar_texto(x, f.importe_total.as_str());
    agregar_texto(x, "</importeTotal>\n");
    agregar_texto(x, "    <moneda>DOLAR</moneda>\n");
    agregar_texto(x, "  </infoFactura>\n");
    agregar_texto(x, "  <detalles>\n");
}

fn escribir_detalle(x: &mut String, l: &LineaFacturaXml)
    ensures
        final(x)@ == xml_detalle(old(x)@, *l),
{
    agregar_texto(x, "    <detalle>\n");
    agregar_texto(x, "      <codigoPrincipal>");
    let codigo = codigo_producto(l.producto_id);
    agregar_xml_escapado(x, codigo.as_str());
    agregar_texto(x, "</codigoPrincipal>\n");
    agregar_texto(x, "      <descripcion>");
    agregar_xml_escapado(x, l.descripcion.as_str());
    agregar_texto(x, "</descripcion>\n");
    agregar_texto(x, "      <cantidad>");
    escribir_entero(x, l.cantidad as i64);
    agregar_texto(x, "</cantidad>\n");
    agregar_texto(x, "      <precioUnitario>");
    agregar_texto(x, l.precio_unitario.as_str());
    agregar_texto(x, "</precioUnitario>\n");
    agregar_texto(x, "      <descuento>");
    agregar_texto(x, l.descuento.as_str());
    agregar_texto(x, "</descuento>\n");
    agregar_texto(x, "      <precioTotalSinImpuesto>");
    agregar_texto(x, l.precio_total.as_str());
    agregar_texto(x, "</precioTotalSinImpuesto>\n");
    agregar_texto(x, "    </detalle>\n");
}

fn escribir_cierre(x: &mut String, f: &FacturaXml)
    ensures
        final(x)@ == xml_cierre(old(x)@, *f),
{
    let (_cedula, telefono, _direccion) = datos_contacto(&f.cliente);
    agregar_texto(x, "  </detalles>\n");
    agregar_texto(x, "  <infoAdicional>\n");
    if !telefono.as_str().is_empty() {
        agregar_texto(x, "    <campoAdicional nombre=\"Telefono\">");
        agregar_xml_escapado(x, telefono.as_str());
        agregar_texto(x, "</campoAdicional>\n");
    }
    agregar_texto(x, "  </infoAdicional>\n");
    agregar_texto(x, "</factura>\n");
}

/// Texto del XML de la factura electrónica (SRI, versión 1.0.0) de una venta.
pub fn contenido_xml_factura(f: &FacturaXml) -> (r: String)
    ensures
        r@ == xml_factura(*f),
{
    let mut x = String::new();
    escribir_info_tributaria(&mut x, f);
    escribir_comprador(&mut x, f);
    escribir_totales(&mut x, f);
    let ghost inicio = x@;
    let mut i: usize = 0;
    assert(f.lineas@.take(0) =~= Seq::<LineaFacturaXml>::empty());
    while i < f.lineas.len()
        invariant
            0 <= i <= f.lineas@.len(),
            x@ == xml_detalles(inicio, f.lineas@.take(i as int)),
        decreases f.lineas@.len() - i,
    {
        escribir_detalle(&mut x, &f.lineas[i]);
        assert(f.lineas@.take(i + 1).drop_last() =~= f.lineas@.take(i as int));
        i += 1;
    }
    assert(f.lineas@.take(f.lineas@.len() as int) =~= f.lineas@);
    escribir_cierre(&mut x, f);
    x
}

/// Un elemento `detalle` suelto, sin nada delante: el de la línea `l`.
pub open spec fn bloque_detalle(l: LineaFacturaXml) -> Seq<char> {
    xml_detalle(Seq::empty(), l)
}

/// Los bloques `detalle` de las líneas, uno por línea y en su orden.
pub open spec fn bloques_detalle(lineas: Seq<LineaFacturaXml>) -> Seq<Seq<char>> {
    lineas.map_values(|l: LineaFacturaXml| bloque_detalle(l))
}

/// Cada elemento `detalle` se añade tal cual detrás de lo que ya había.
pub proof fn lema_detalle_se_anade(p: Seq<char>, l: LineaFacturaXml)
    ensures
        xml_detalle(p, l) == p + bloque_detalle(l),
{
    assert(xml_detalle(p, l) =~= p + bloque_detalle(l));
}

/// Los detalles de varias líneas son, detrás de lo que ya había, los bloques de
/// cada línea concatenados en el orden de las líneas.
pub proof fn lema_detalles_concatenados(p: Seq<char>, lineas: Seq<LineaFacturaXml>)
    ensures
        xml_detalles(p, lineas) == p + bloques_detalle(lineas).flatten(),
    decreases lineas.len(),
{
    if lineas.len() == 0 {
        assert(bloques_detalle(lineas) =~= Seq::<Seq<char>>::empty());
        assert(p + Seq::<char>::empty() =~= p);
    } else {
        let ant = lineas.drop_last();
        lema_detalles_concatenados(p, ant);
        lema_detalle_se_anade(xml_detalles(p, ant), lineas.last());
        assert(bloques_detalle(lineas) =~= bloques_detalle(ant).push(bloque_detalle(lineas.last())));
        bloques_detalle(ant).lemma_flatten_push(bloque_detalle(lineas.last()));
        assert(p + bloques_detalle(ant).flatten() + bloque_detalle(lineas.last())
            =~= p + (bloques_detalle(ant).flatten() + bloque_detalle(lineas.last())));
    }
}

/// El cierre se añade tal cual detrás de lo que ya había.
pub proof fn lema_cierre_se_anade(p: Seq<char>, f: FacturaXml)
    ensures
        xml_cierre(p, f) == p + xml_cierre(Seq::empty(), f),
{
    let (_cedula, telefono, _direccion) = contacto_de(f.cliente);
    if telefono.len() > 0 {
        assert(xml_cierre(p, f) =~= p + xml_cierre(Seq::empty(), f));
    } else {
        assert(xml_cierre(p, f) =~= p + xml_cierre(Seq::empty(), f));
    }
}

/// La factura lleva exactamente un elemento `detalle` por línea y en el orden de
/// las líneas: tras la cabecera, el comprador y los totales vienen los bloques
/// de `f.lineas[0]`, `f.lineas[1]`, ..., cada uno con el código, la descripción,
/// la cantidad y los importes de su línea, y después el cierre.
pub proof fn ley_un_detalle_por_linea(f: FacturaXml)
    ensures
        xml_factura(f) == xml_totales(xml_comprador(xml_info_tributaria(Seq::empty(), f), f), f)
            + bloques_detalle(f.lineas@).flatten()
            + xml_cierre(Seq::empty(), f),
        bloques_detalle(f.lineas@).len() == f.lineas@.len(),
        forall|k: int| 0 <= k < f.lineas@.len() ==>
            #[trigger] bloques_detalle(f.lineas@)[k] == bloque_detalle(f.lineas@[k]),
{
    let cab = xml_totales(xml_comprador(xml_info_tributaria(Seq::empty(), f), f), f);
    lema_detalles_concatenados(cab, f.lineas@);
    lema_cierre_se_anade(xml_detalles(cab, f.lineas@), f);
}

/// El bloque `detalle` de una línea lleva, en este orden, el código del producto,
/// la descripción escapada y la cantidad de esa línea, cada uno en su elemento.
pub proof fn ley_detalle_lleva_su_linea(l: LineaFacturaXml)
    ensures
        ({
            let codigo = "<codigoPrincipal>"@ + xml_escapado(codigo_de_producto(l.producto_id))
                + "</codigoPrincipal>\n"@;
            let descripcion = "<descripcion>"@ + xml_escapado(l.descripcion@) + "</descripcion>\n"@;
            let cantidad = "<cantidad>"@ + decimal_con_signo(l.cantidad as int) + "</cantidad>\n"@;
            let i: int = ("    <detalle>\n"@.len() + "      "@.len()) as int;
            let j: int = i + codigo.len() + "      "@.len();
            let k: int = j + descripcion.len() + "      "@.len();
            &&& crate::texto::aparece_en(bloque_detalle(l), codigo, i)
            &&& crate::texto::aparece_en(bloque_detalle(l), descripcion, j)
            &&& crate::texto::aparece_en(bloque_detalle(l), cantidad, k)
        }),
{
    let codigo = "<codigoPrincipal>"@ + xml_escapado(codigo_de_producto(l.producto_id))
        + "</codigoPrincipal>\n"@;
    let descripcion = "<descripcion>"@ + xml_escapado(l.descripcion@) + "</descripcion>\n"@;
    let cantidad = "<cantidad>"@ + decimal_con_signo(l.cantidad as int) + "</cantidad>\n"@;
    let a = "    <detalle>\n"@ + "      "@;
    let resto = "      <precioUnitario>"@ + l.precio_unitario@ + "</precioUnitario>\n"@
        + "      <descuento>"@ + l.descuento@ + "</descuento>\n"@
        + "      <precioTotalSinImpuesto>"@ + l.precio_total@ + "</precioTotalSinImpuesto>\n"@
        + "    </detalle>\n"@;
    reveal_strlit("      <codigoPrincipal>");
    reveal_strlit("<codigoPrincipal>");
    reveal_strlit("      <descripcion>");
    reveal_strlit("<descripcion>");
    reveal_strlit("      <cantidad>");
    reveal_strlit("<cantidad>");
    reveal_strlit("      ");
    let b = bloque_detalle(l);
    assert(b =~= a + codigo + "      "@ + descripcion + "      "@ + cantidad + resto);
    let i = a.len() as int;
    let j = i + codigo.len() + "      "@.len();
    let k = j + descripcion.len() + "      "@.len();
    assert(b.subrange(i, i + codigo.len()) =~= codigo);
    assert(b.subrange(j, j + descripcion.len()) =~= descripcion);
    assert(b.subrange(k, k + cantidad.len()) =~= cantidad);
}

} // verus!
