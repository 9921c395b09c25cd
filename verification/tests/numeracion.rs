use sistema_contabilidad::numeracion::{codigo_cliente, dia_cobro, nuevo_codigo_cliente, nuevo_folio, proximo_numero_retencion};
use sistema_contabilidad::numeros::{escribir_con_ceros, escribir_derecha, escribir_entero, parse_i32, parse_i64};
use sistema_contabilidad::formularios::entero_o;

#[test]
fn primera_y_siguientes_retenciones() {
    assert_eq!(proximo_numero_retencion(None), "R-0001");
    assert_eq!(proximo_numero_retencion(Some("R-0001")), "R-0002");
    assert_eq!(proximo_numero_retencion(Some("R-0099")), "R-0100");
    assert_eq!(proximo_numero_retencion(Some("R-9999")), "R-10000");
    assert_eq!(proximo_numero_retencion(Some("R-R-0005")), "R-0006");
    assert_eq!(proximo_numero_retencion(Some("basura")), "R-0001");
    assert_eq!(proximo_numero_retencion(Some("R--5")), "R--004");
}

#[test]
fn retenciones_consecutivas() {
    let mut n = proximo_numero_retencion(None);
    for esperado in ["R-0002", "R-0003", "R-0004"] {
        n = proximo_numero_retencion(Some(&n));
        assert_eq!(n, esperado);
    }
}

#[test]
fn codigos_de_cliente() {
    assert_eq!(codigo_cliente(Some("C-01"), "20240101120000"), "C-01");
    assert_eq!(codigo_cliente(Some("  "), "20240101120000"), "CLI-20240101120000");
    assert_eq!(codigo_cliente(None, "20240101120000"), "CLI-20240101120000");
    assert_eq!(nuevo_codigo_cliente(Some("X")), "X");
    let c = nuevo_codigo_cliente(None);
    assert!(c.starts_with("CLI-"));
    assert_eq!(c.len(), 4 + 14);
}

#[test]
fn folios_con_marca_de_tiempo() {
    let f = nuevo_folio("DEU-", "%Y%m%d%H%M%S");
    assert!(f.starts_with("DEU-"));
    assert_eq!(f.len(), 4 + 14);
    assert!(f[4..].chars().all(|c| c.is_ascii_digit()));
}

#[test]
fn dia_de_cobro_de_la_fecha() {
    assert_eq!(dia_cobro("2024-03-15"), 15);
    assert_eq!(dia_cobro(" 2024-03-07 "), 7);
    assert_eq!(dia_cobro("2024-03-31"), 31);
    assert_eq!(dia_cobro("2024-03-32"), 1);
    assert_eq!(dia_cobro("2024-03-00"), 1);
    assert_eq!(dia_cobro("2024-03"), 1);
    assert_eq!(dia_cobro("2024-03-1x"), 1);
    assert_eq!(dia_cobro("2024-03-09-extra"), 9);
    assert_eq!(dia_cobro(""), 1);
}

#[test]
fn lectura_de_enteros_como_parse() {
    for t in ["0", "42", "-42", "+7", "007", "", "-", "+", "1 2", " 1", "9223372036854775807",
              "9223372036854775808", "-9223372036854775808", "-9223372036854775809", "12a", "٣"] {
        assert_eq!(parse_i64(t), t.parse::<i64>().ok(), "texto {:?}", t);
        assert_eq!(parse_i32(t), t.parse::<i32>().ok(), "texto {:?}", t);
    }
    assert_eq!(parse_i32("2147483647"), Some(i32::MAX));
    assert_eq!(parse_i32("2147483648"), None);
    assert_eq!(entero_o("12", 1), 12);
    assert_eq!(entero_o("doce", 1), 1);
    assert_eq!(entero_o("", 7), 7);
}

#[test]
fn escritura_de_enteros_como_format() {
    for n in [0i64, 5, -5, 42, -42, 12345, -123456, i64::MAX, i64::MIN] {
        let mut a = String::new();
        escribir_entero(&mut a, n);
        assert_eq!(a, format!("{}", n));
        let mut b = String::new();
        escribir_con_ceros(&mut b, n, 4);
        assert_eq!(b, format!("{:04}", n));
        let mut c = String::new();
        escribir_derecha(&mut c, n, 5);
        assert_eq!(c, format!("{:>5}", n));
    }
}

#[test]
fn marcas_de_tiempo_con_cifras() {
    let v = nuevo_folio("V-", "%Y%m%d%H%M%S%3f");
    assert!(v.starts_with("V-"));
    assert_eq!(v.len(), 2 + 17);
    assert!(v[2..].chars().all(|c| c.is_ascii_digit()));
    let h = nuevo_folio("", "%H%M%S");
    assert_eq!(h.len(), 6);
    assert!(h.chars().all(|c| c.is_ascii_digit()));
    let m = nuevo_folio("P", "%Y-%m-%d");
    assert_eq!(m.len(), 11);
    assert_eq!(&m[5..6], "-");
    assert_eq!(&m[8..9], "-");
}
