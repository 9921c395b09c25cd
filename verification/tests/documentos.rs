use sistema_contabilidad::documentos::{
    codigo_producto, contenido_xml_factura, datos_contacto, identificacion_comprador, nombre_archivo, nombre_archivo_xml,
    secuencial_factura, tipo_identificacion_comprador, xml_escape, ContactoCliente, FacturaXml,
    ImpuestoFacturaXml, LineaFacturaXml,
};
use sistema_contabilidad::reportes::{contenido_ats, nombre_ats, nuevo_nombre_ats, FilaLibro, ResumenAtsTexto};

#[test]
fn escapado_de_las_cinco_entidades() {
    assert_eq!(xml_escape("a & b < c > d \" e ' f"), "a &amp; b &lt; c &gt; d &quot; e &apos; f");
    assert_eq!(xml_escape(""), "");
    assert_eq!(xml_escape("Café Ñandú"), "Café Ñandú");
    assert_eq!(xml_escape("&amp;"), "&amp;amp;");
}

#[test]
fn escapado_no_deja_marcado() {
    let e = xml_escape("<x a='1'>\"&\"</x>");
    assert!(!e.contains('<') && !e.contains('>') && !e.contains('"') && !e.contains('\''));
    assert_ne!(xml_escape("<"), xml_escape("&lt;"));
}

#[test]
fn nombre_de_archivo_limpia_el_folio() {
    assert_eq!(nombre_archivo("factura", "V-20240101-001"), "factura_V_20240101_001.pdf");
    assert_eq!(nombre_archivo("garantia", "a/b c"), "garantia_a_b_c.pdf");
    assert_eq!(nombre_archivo("retencion", "Ñ1"), "retencion_Ñ1.pdf");
    assert_eq!(nombre_archivo("x", ""), "x_.pdf");
    assert_eq!(nombre_archivo_xml("V-2024.01"), "XML_Factura_V_2024_01.xml");
    let pdf = std::path::PathBuf::from(nombre_archivo("XML_Factura", "V-2024.01")).with_extension("xml");
    assert_eq!(pdf.to_string_lossy(), nombre_archivo_xml("V-2024.01"));
}

#[test]
fn secuencial_de_nueve_digitos() {
    assert_eq!(secuencial_factura("V-20240101123045001"), "123045001");
    assert_eq!(secuencial_factura("V-12"), "000000012");
    assert_eq!(secuencial_factura("SIN"), "000000000");
    assert_eq!(secuencial_factura("1234567890"), "234567890");
}

#[test]
fn tipo_e_identificacion_del_comprador() {
    assert_eq!(tipo_identificacion_comprador("1790012345001"), "04");
    assert_eq!(tipo_identificacion_comprador("1712345678"), "05");
    assert_eq!(tipo_identificacion_comprador("   "), "07");
    assert_eq!(tipo_identificacion_comprador(""), "07");
    assert_eq!(identificacion_comprador(""), "9999999999999");
    assert_eq!(identificacion_comprador("  "), "9999999999999");
    assert_eq!(identificacion_comprador("1712345678"), "1712345678");
}

#[test]
fn codigo_de_producto_con_cinco_cifras() {
    assert_eq!(codigo_producto(Some(7)), "P00007");
    assert_eq!(codigo_producto(Some(123456)), "P123456");
    assert_eq!(codigo_producto(None), "");
}

#[test]
fn contacto_del_cliente() {
    let c = ContactoCliente {
        rfc: "0102".to_string(),
        telefono: "0999".to_string(),
        direccion: " Av. Siempre Viva".to_string(),
        ciudad: "Quito ".to_string(),
    };
    assert_eq!(
        datos_contacto(&Some(c)),
        ("0102".to_string(), "0999".to_string(), "Av. Siempre Viva Quito".to_string())
    );
    let sin_dir = ContactoCliente { rfc: String::new(), telefono: String::new(), direccion: String::new(), ciudad: String::new() };
    assert_eq!(datos_contacto(&Some(sin_dir)), (String::new(), String::new(), String::new()));
    assert_eq!(datos_contacto(&None), (String::new(), String::new(), String::new()));
}

#[test]
fn xml_de_factura_completo() {
    let f = FacturaXml {
        razon_social: "Mi Negocio & Cía".to_string(),
        ruc: "1790012345001".to_string(),
        dir_matriz: "Quito".to_string(),
        folio: "V-001".to_string(),
        fecha_emision: "2024-05-01".to_string(),
        cliente_nombre: "Juan <Pérez>".to_string(),
        cliente: Some(ContactoCliente {
            rfc: "1712345678".to_string(),
            telefono: "0999999999".to_string(),
            direccion: "Calle 1".to_string(),
            ciudad: "Quito".to_string(),
        }),
        total_sin_impuestos: "10.00".to_string(),
        total_descuento: "0.00".to_string(),
        impuesto: Some(ImpuestoFacturaXml {
            codigo_porcentaje: "3".to_string(),
            base_imponible: "10.00".to_string(),
            valor: "1.50".to_string(),
        }),
        importe_total: "11.50".to_string(),
        lineas: vec![LineaFacturaXml {
            producto_id: Some(3),
            descripcion: "Tinta".to_string(),
            cantidad: 2,
            precio_unitario: "5.00".to_string(),
            descuento: "0.00".to_string(),
            precio_total: "10.00".to_string(),
        }],
    };
    let esperado = [
        "<?xml version=\"1.0\" encoding=\"UTF-8\"?>",
        "<factura id=\"comprobante\" version=\"1.0.0\">",
        "  <infoTributaria>",
        "    <ambiente>1</ambiente>",
        "    <tipoEmision>1</tipoEmision>",
        "    <razonSocial>Mi Negocio &amp; Cía</razonSocial>",
        "    <ruc>1790012345001</ruc>",
        "    <codDoc>01</codDoc>",
        "    <estab>001</estab>",
        "    <ptoEmi>001</ptoEmi>",
        "    <secuencial>000000001</secuencial>",
        "    <dirMatriz>Quito</dirMatriz>",
        "  </infoTributaria>",
        "  <infoFactura>",
        "    <fechaEmision>2024-05-01</fechaEmision>",
        "    <obligadoContabilidad>SI</obligadoContabilidad>",
        "    <tipoIdentificacionComprador>05</tipoIdentificacionComprador>",
        "    <razonSocialComprador>Juan &lt;Pérez&gt;</razonSocialComprador>",
        "    <identificacionComprador>1712345678</identificacionComprador>",
        "    <direccionComprador>Calle 1 Quito</direccionComprador>",
        "    <totalSinImpuestos>10.00</totalSinImpuestos>",
        "    <totalDescuento>0.00</totalDescuento>",
        "    <totalConImpuestos>",
        "      <totalImpuesto>",
        "        <codigo>2</codigo>",
        "        <codigoPorcentaje>3</codigoPorcentaje>",
        "        <baseImponible>10.00</baseImponible>",
        "        <valor>1.50</valor>",
        "      </totalImpuesto>",
        "    </totalConImpuestos>",
        "    <propina>0.00</propina>",
        "    <importeTotal>11.50</importeTotal>",
        "    <moneda>DOLAR</moneda>",
        "  </infoFactura>",
        "  <detalles>",
        "    <detalle>",
        "      <codigoPrincipal>P00003</codigoPrincipal>",
        "      <descripcion>Tinta</descripcion>",
        "      <cantidad>2</cantidad>",
        "      <precioUnitario>5.00</precioUnitario>",
        "      <descuento>0.00</descuento>",
        "      <precioTotalSinImpuesto>10.00</precioTotalSinImpuesto>",
        "    </detalle>",
        "  </detalles>",
        "  <infoAdicional>",
        "    <campoAdicional nombre=\"Telefono\">0999999999</campoAdicional>",
        "  </infoAdicional>",
        "</factura>",
    ]
    .iter()
    .map(|l| format!("{}\n", l))
    .collect::<String>();
    assert_eq!(contenido_xml_factura(&f), esperado);
}

#[test]
fn xml_de_factura_sin_cliente_ni_impuesto() {
    let f = FacturaXml {
        razon_social: "X".to_string(),
        ruc: "1".to_string(),
        dir_matriz: "".to_string(),
        folio: "V-1234567890123".to_string(),
        fecha_emision: "2024-01-02".to_string(),
        cliente_nombre: "Consumidor final".to_string(),
        cliente: None,
        total_sin_impuestos: "1.00".to_string(),
        total_descuento: "0.00".to_string(),
        impuesto: None,
        importe_total: "1.00".to_string(),
        lineas: vec![],
    };
    let x = contenido_xml_factura(&f);
    assert!(x.contains("    <secuencial>567890123</secuencial>\n"));
    assert!(x.contains("    <tipoIdentificacionComprador>07</tipoIdentificacionComprador>\n"));
    assert!(x.contains("    <identificacionComprador>9999999999999</identificacionComprador>\n"));
    assert!(!x.contains("direccionComprador"));
    assert!(!x.contains("totalImpuesto"));
    assert!(x.contains("    <totalConImpuestos>\n    </totalConImpuestos>\n"));
    assert!(x.contains("  <detalles>\n  </detalles>\n  <infoAdicional>\n  </infoAdicional>\n</factura>\n"));
}

#[test]
fn archivo_ats() {
    let ventas = vec![FilaLibro {
        documento: "V-1".to_string(),
        tercero: "Pérez; Juan".to_string(),
        fecha: "2024-05-01".to_string(),
        subtotal: "10.00".to_string(),
        iva: "1.50".to_string(),
        total: "11.50".to_string(),
    }];
    let compras: Vec<FilaLibro> = vec![];
    let r = ResumenAtsTexto {
        ventas: "10.00".to_string(),
        iva_ventas: "1.50".to_string(),
        compras: "0.00".to_string(),
        iva_compras: "0.00".to_string(),
    };
    let esperado = "=== LIBRO DE VENTAS ===\n\
Folio;Cliente;Fecha;Subtotal;IVA;Total\n\
V-1;Pérez, Juan;2024-05-01;10.00;1.50;11.50\n\
\n=== LIBRO DE COMPRAS ===\n\
Numero;Proveedor;Fecha;Subtotal;IVA;Total\n\
\n=== RESUMEN ATS ===\n\
Ventas;10.00\n\
IVA Ventas;1.50\n\
Compras;0.00\n\
IVA Compras;0.00\n";
    assert_eq!(contenido_ats(&ventas, &compras, &r), esperado);
}

#[test]
fn nombre_del_archivo_ats() {
    assert_eq!(nombre_ats("20240501_101500"), "ats_libros_20240501_101500.csv");
    let n = nuevo_nombre_ats();
    assert!(n.starts_with("ats_libros_") && n.ends_with(".csv"));
    assert_eq!(n.len(), "ats_libros_".len() + 15 + ".csv".len());
    assert!(n["ats_libros_".len()..][..15].chars().enumerate().all(|(i, c)| if i == 8 { c == '_' } else { c.is_ascii_digit() }));
}

#[test]
fn xml_de_la_venta_de_prueba() {
    let f = FacturaXml {
        razon_social: "MI NEGOCIO CIA. LTDA.".to_string(),
        ruc: "1700000000001".to_string(),
        dir_matriz: "Av. Principal, Edif. Central, Piso 1".to_string(),
        folio: "V-0001".to_string(),
        fecha_emision: "2026-08-01".to_string(),
        cliente_nombre: "Cliente Test".to_string(),
        cliente: None,
        total_sin_impuestos: format!("{:.2}", 100.0f64),
        total_descuento: format!("{:.2}", 0.0f64),
        impuesto: Some(ImpuestoFacturaXml {
            codigo_porcentaje: "3".to_string(),
            base_imponible: format!("{:.2}", 100.0f64),
            valor: format!("{:.2}", 15.0f64),
        }),
        importe_total: format!("{:.2}", 115.0f64),
        lineas: vec![LineaFacturaXml {
            producto_id: None,
            descripcion: "Producto & Co <test>".to_string(),
            cantidad: 2,
            precio_unitario: format!("{:.2}", 50.0f64),
            descuento: format!("{:.2}", 0.0f64),
            precio_total: format!("{:.2}", 100.0f64),
        }],
    };
    let contenido = contenido_xml_factura(&f);
    assert!(contenido.contains("<factura id=\"comprobante\" version=\"1.0.0\">"));
    assert!(contenido.contains("Producto &amp; Co &lt;test&gt;"));
    assert!(contenido.contains("<importeTotal>115.00</importeTotal>"));
    assert!(contenido.contains("<codigoPrincipal></codigoPrincipal>"));
    assert!(contenido.contains("<secuencial>000000001</secuencial>"));
}
