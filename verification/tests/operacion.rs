use sistema_contabilidad::alertas::{cobro_vencido, contar_vencidos, mensaje_bienvenida, mensajes_alertas};
use sistema_contabilidad::respaldos::{respaldo_automatico, respaldo_manual};
use sistema_contabilidad::formularios::{
    error_cliente_nuevo, error_compra, error_cotizacion, error_venta, id_valido, iguales_ignorando_caso,
    proveedor_de_compra, ProveedorConocido, ProveedorDeCompra,
};
use sistema_contabilidad::red::{conexion_celular, ip_lan, tras_lectura_tunel, url_local, EsperaTunel, ESPERA_TUNEL_MS, INTENTOS_TUNEL};
use sistema_contabilidad::inventario::{aplicar_movimiento, cantidad_ajuste, cantidad_movimiento, delta_venta};
use sistema_contabilidad::modelos::{estado_gasto, nota_venta_desde_cotizacion, opcional_si_no_vacio, CierreContableNuevo, PlanCuentas, ProveedorNuevo, UbicacionNueva};

#[test]
fn cobros_vencidos() {
    assert!(cobro_vencido(3, 10));
    assert!(!cobro_vencido(10, 10));
    assert_eq!(contar_vencidos(&vec![1, 10, 15, 9, 31], 10), 2);
    assert_eq!(contar_vencidos(&vec![], 10), 0);
}

#[test]
fn mensajes_de_alerta() {
    assert_eq!(
        mensajes_alertas(3, 1, 2, 4),
        vec![
            "3 cobros de comisiones pendientes de cobrar".to_string(),
            "1 cobros ya vencidos, ¡cóbralos!".to_string(),
            "2 créditos vencidos".to_string(),
            "4 productos con stock bajo".to_string(),
        ]
    );
    assert_eq!(mensajes_alertas(0, 0, 1, 0), vec!["1 créditos vencidos".to_string()]);
    assert!(mensajes_alertas(0, 0, 0, 0).is_empty());
}

#[test]
fn avisos_de_venta() {
    assert_eq!(error_cliente_nuevo(true, "  "), Some("El nombre del nuevo cliente es obligatorio".to_string()));
    assert_eq!(error_cliente_nuevo(true, "Ana"), None);
    assert_eq!(error_cliente_nuevo(false, ""), None);
    assert_eq!(error_venta(false, " ", 3), Some("Seleccione un cliente de la lista".to_string()));
    assert_eq!(error_venta(true, "", 0), Some("Agregue al menos un producto a la venta".to_string()));
    assert_eq!(error_venta(false, "Ana", 0), Some("Agregue al menos un producto a la venta".to_string()));
    assert_eq!(error_venta(false, "Ana", 1), None);
}

#[test]
fn avisos_de_compra_y_cotizacion() {
    assert_eq!(error_compra(0), Some("Agregue al menos un producto a la compra".to_string()));
    assert_eq!(error_compra(2), None);
    assert_eq!(error_cotizacion(0, Some(1), "Ana"), Some("Agregue al menos un producto a la cotización".to_string()));
    assert_eq!(error_cotizacion(1, None, " "), Some("Seleccione un cliente o escriba el nombre".to_string()));
    assert_eq!(error_cotizacion(1, Some(0), ""), Some("Seleccione un cliente o escriba el nombre".to_string()));
    assert_eq!(error_cotizacion(1, Some(4), ""), None);
    assert_eq!(error_cotizacion(1, None, "Ana"), None);
    assert_eq!(id_valido(Some(0)), None);
    assert_eq!(id_valido(Some(-3)), None);
    assert_eq!(id_valido(Some(8)), Some(8));
}

#[test]
fn comparacion_sin_mayusculas() {
    assert!(iguales_ignorando_caso("Ferreteria ABC", "ferreteria abc"));
    assert!(!iguales_ignorando_caso("Ñandú", "ñandú"));
    assert!(iguales_ignorando_caso("", ""));
    assert!(!iguales_ignorando_caso("ab", "abc"));
    for (a, b) in [("Hola", "hOLA"), ("Ñ", "ñ"), ("a1", "A1"), ("x", "y")] {
        assert_eq!(iguales_ignorando_caso(a, b), a.eq_ignore_ascii_case(b));
    }
}

fn registrados() -> Vec<ProveedorConocido> {
    vec![
        ProveedorConocido { id: 4, nombre: "Distribuidora Sur".to_string() },
        ProveedorConocido { id: 9, nombre: "IMPORTADORA NORTE".to_string() },
        ProveedorConocido { id: 11, nombre: "importadora norte".to_string() },
    ]
}

#[test]
fn proveedor_de_una_compra() {
    let p = registrados();
    assert!(matches!(proveedor_de_compra(Some(4), "Otro", &p), ProveedorDeCompra::Registrado(Some(4))));
    assert!(matches!(proveedor_de_compra(None, "  Importadora Norte ", &p), ProveedorDeCompra::Registrado(Some(9))));
    assert!(matches!(proveedor_de_compra(Some(0), "distribuidora sur", &p), ProveedorDeCompra::Registrado(Some(4))));
    match proveedor_de_compra(None, " Nuevo Proveedor ", &p) {
        ProveedorDeCompra::Crear(n) => assert_eq!(n, "Nuevo Proveedor"),
        _ => panic!("se esperaba crear el proveedor"),
    }
    assert!(matches!(proveedor_de_compra(None, "   ", &p), ProveedorDeCompra::Registrado(None)));
    assert!(matches!(proveedor_de_compra(Some(-1), "", &p), ProveedorDeCompra::Registrado(None)));
}

#[test]
fn ip_de_la_red_local() {
    let en = "Windows IP Configuration\r\n\r\nEthernet adapter:\r\n   IPv4 Address. . . . . . . . . . . : 192.168.1.20\r\n   Subnet Mask . . . : 255.255.255.0\r\n";
    assert_eq!(ip_lan(en), Some("192.168.1.20".to_string()));
    let es = "Adaptador:\n   Dirección IPv4. . . . . . . . . . . . . . : 10.0.0.5(Preferido)\n";
    assert_eq!(ip_lan(es), Some("10.0.0.5(Preferido)".to_string()));
    let abreviado = "   Dir. IPv4 . . . : 172.16.0.9\n";
    assert_eq!(ip_lan(abreviado), Some("172.16.0.9".to_string()));
    let bucle = "   IPv4 Address : 127.0.0.1\n   IPv4 Address : 192.168.0.2\n";
    assert_eq!(ip_lan(bucle), Some("192.168.0.2".to_string()));
    assert_eq!(ip_lan("   IPv4 Address :   \n"), None);
    assert_eq!(ip_lan("IPv4 sin dos puntos\n"), None);
    assert_eq!(ip_lan(""), None);
    assert_eq!(ip_lan("   DIRECCIÓN IPV4 . . : 10.1.1.1\n"), Some("10.1.1.1".to_string()));
    assert_eq!(ip_lan("   DIR. IPV4 : 10.2.2.2\n"), Some("10.2.2.2".to_string()));
}

#[test]
fn direccion_para_el_celular() {
    assert_eq!(url_local("192.168.1.20"), "http://192.168.1.20:8095");
    assert_eq!(
        conexion_celular(Some("https://abc.trycloudflare.com".to_string()), Some("10.0.0.1".to_string())),
        Ok("https://abc.trycloudflare.com".to_string())
    );
    assert_eq!(conexion_celular(None, Some("10.0.0.1".to_string())), Ok("http://10.0.0.1:8095".to_string()));
    assert_eq!(
        conexion_celular(None, None),
        Err("No se obtuvo la URL del túnel ni la IP local. Conecte el celular a la misma Wi-Fi de la PC o revise su conexión a internet.".to_string())
    );
}

#[test]
fn modelos_desde_formularios() {
    assert_eq!(opcional_si_no_vacio(""), None);
    assert_eq!(opcional_si_no_vacio("x"), Some("x".to_string()));
    let c = PlanCuentas::desde_formulario("1.1.01", "Caja", "activo", "deudora", "3", "12", true);
    assert_eq!((c.id, c.nivel, c.padre_id, c.activo), (0, 3, Some(12), true));
    assert_eq!(c.codigo, "1.1.01");
    let d = PlanCuentas::desde_formulario("1", "Activo", "activo", "deudora", "x", "0", false);
    assert_eq!((d.nivel, d.padre_id), (1, None));
    let u = UbicacionNueva::desde_formulario("Local 1", "Av. 1", "Quito", "", "0102", "099");
    assert_eq!(u.encargado, None);
    assert_eq!(u.cedula, Some("0102".to_string()));
    let p = ProveedorNuevo::desde_formulario("", "Prov", "Ana", "179", "a@b.c", "02", "Calle");
    assert_eq!(p.codigo, None);
    assert_eq!(p.ciudad, "");
    let k = CierreContableNuevo::desde_formulario("2025", 2026, "notas");
    assert_eq!(k.anio, 2025);
    let k2 = CierreContableNuevo::desde_formulario("abc", 2026, "");
    assert_eq!(k2.anio, 2026);
}

#[test]
fn movimientos_de_stock() {
    assert_eq!(aplicar_movimiento(10, -3), 7);
    assert_eq!(aplicar_movimiento(2, -5), 0);
    assert_eq!(aplicar_movimiento(0, 4), 4);
    assert_eq!(delta_venta(3), -3);
    assert_eq!(cantidad_movimiento(-3), 3);
    assert_eq!(cantidad_movimiento(4), 4);
    assert_eq!(cantidad_ajuste(10, 4), 6);
    assert_eq!(cantidad_ajuste(4, 10), 6);
    let vendido = aplicar_movimiento(10, delta_venta(4));
    assert_eq!(aplicar_movimiento(vendido, 4), 10);
}

#[test]
fn nota_de_venta_desde_cotizacion() {
    assert_eq!(nota_venta_desde_cotizacion(12), "Venta generada desde cotizacion COT-12");
}

#[test]
fn saludo_al_ingresar() {
    assert_eq!(
        mensaje_bienvenida(2, "35.50", "ana"),
        ("\u{1F514} 2 cobro(s) de comisión vencido(s) hoy ($35.50). ¡Bienvenido, ana!".to_string(), true)
    );
    assert_eq!(mensaje_bienvenida(0, "0.00", "ana"), ("Bienvenido, ana".to_string(), false));
}

#[test]
fn una_copia_automatica_por_dia() {
    let mut nombres = vec!["contabilidad_20240430_235959.db".to_string(), "leeme.txt".to_string()];
    let primera = respaldo_automatico(&nombres, "20240501", "080000");
    assert_eq!(primera, Some("contabilidad_20240501_080000.db".to_string()));
    nombres.push(primera.unwrap());
    assert_eq!(respaldo_automatico(&nombres, "20240501", "170000"), None);
    assert_eq!(respaldo_automatico(&vec![], "20240502", "090000"), Some("contabilidad_20240502_090000.db".to_string()));
    assert_eq!(respaldo_manual("20240501_101010"), "contabilidad_20240501_101010.db");
}

#[test]
fn estado_de_un_gasto() {
    assert_eq!(estado_gasto(true), "pendiente");
    assert_eq!(estado_gasto(false), "pagado");
}

#[test]
fn ajuste_manual_de_stock() {
    assert_eq!(sistema_contabilidad::formularios::ajuste_de_stock("12", "  conteo "), Ok((12, "conteo".to_string())));
    assert_eq!(sistema_contabilidad::formularios::ajuste_de_stock("0", " "), Ok((0, "ajuste manual".to_string())));
    assert_eq!(
        sistema_contabilidad::formularios::ajuste_de_stock("-3", "x"),
        Err("Ingrese un stock válido (0 o mayor)".to_string())
    );
    assert_eq!(
        sistema_contabilidad::formularios::ajuste_de_stock("abc", "x"),
        Err("Ingrese un stock válido (0 o mayor)".to_string())
    );
}

#[test]
fn quitar_una_linea() {
    let mut v = vec!["a", "b", "c"];
    sistema_contabilidad::formularios::quitar_item(&mut v, 1);
    assert_eq!(v, vec!["a", "c"]);
    sistema_contabilidad::formularios::quitar_item(&mut v, 5);
    assert_eq!(v, vec!["a", "c"]);
}

#[test]
fn espera_del_tunel() {
    assert_eq!(tras_lectura_tunel(0, Some("https://x".to_string())), EsperaTunel::Encontrada("https://x".to_string()));
    assert_eq!(tras_lectura_tunel(0, None), EsperaTunel::EsperarYLeer);
    assert_eq!(tras_lectura_tunel(58, None), EsperaTunel::EsperarYLeer);
    assert_eq!(tras_lectura_tunel(INTENTOS_TUNEL - 1, None), EsperaTunel::EsperarYRendirse);
    assert_eq!(INTENTOS_TUNEL as u64 * ESPERA_TUNEL_MS, 30_000);
}
