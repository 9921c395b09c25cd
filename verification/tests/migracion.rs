use sistema_contabilidad::migracion::{
    auto_migrar, es_columna_texto, resultado_arranque, informe_conteos, resultado_migracion, resultado_migracion_en_caliente,
    sentencias_esquema, sql_columnas, sql_conteo, sql_vaciar_nulos, total_migrado, ConteoTabla, MigracionResultado,
    PasosMigracion, ResumenCopia,
};

#[test]
fn migracion_automatica() {
    assert_eq!(auto_migrar(true, Some("viejo.db".to_string())), None);
    assert_eq!(auto_migrar(false, None), None);
    assert_eq!(auto_migrar(false, Some("viejo.db".to_string())), Some("viejo.db".to_string()));
}

#[test]
fn consultas_de_conteo() {
    assert_eq!(sql_conteo("ventas", Some("folio")), "SELECT COUNT(DISTINCT \"folio\") FROM \"ventas\"");
    assert_eq!(sql_conteo("clientes", None), "SELECT COUNT(*) FROM \"clientes\"");
    assert_eq!(sql_columnas("productos"), "PRAGMA table_info(productos)");
    assert_eq!(sql_vaciar_nulos("clientes", "rfc"), "UPDATE clientes SET \"rfc\" = '' WHERE \"rfc\" IS NULL");
}

fn conteo(o: &str, d: &str, a: i64, b: i64) -> ConteoTabla {
    ConteoTabla { tabla_origen: o.to_string(), tabla_destino: d.to_string(), en_origen: a, en_destino: b }
}

fn informe_esperado(filas: &[(&str, &str, i64, i64)]) -> String {
    let mut s = String::from("\n=== Verificación de conteos (origen → destino) ===\n");
    let mut hay_error = false;
    for (o, d, oc, dc) in filas {
        let estado = if oc == dc { "OK" } else { "DIFERENCIA!" };
        if oc != dc {
            hay_error = true;
        }
        s.push_str(&format!("  {:26} {:>5} → {:>5}  {}\n", format!("{}.{}", o, d), oc, dc, estado));
    }
    if hay_error {
        s.push_str("\n  !! HAY DIFERENCIAS DE CONTEO. Revisar arriba.\n");
    } else {
        s.push_str("\n  Todos los conteos coinciden.\n");
    }
    s
}

#[test]
fn informe_de_conteos_que_coinciden() {
    let filas = [("plan_cuentas", "plan_cuentas", 40, 40), ("clientes", "clientes", 3, 3)];
    let v: Vec<ConteoTabla> = filas.iter().map(|(o, d, a, b)| conteo(o, d, *a, *b)).collect();
    let r = informe_conteos(&v);
    assert_eq!(r, informe_esperado(&filas));
    assert!(r.ends_with("\n  Todos los conteos coinciden.\n"));
    assert!(r.contains("  plan_cuentas.plan_cuentas     40 →    40  OK\n"));
}

#[test]
fn informe_de_conteos_con_diferencias() {
    let filas = [
        ("categorias_producto", "categorias_productos", 5, 5),
        ("ventas", "ventas", 123456, -1),
        ("venta_detalles", "ventas_detalles", 0, 0),
    ];
    let v: Vec<ConteoTabla> = filas.iter().map(|(o, d, a, b)| conteo(o, d, *a, *b)).collect();
    let r = informe_conteos(&v);
    assert_eq!(r, informe_esperado(&filas));
    assert!(r.ends_with("\n  !! HAY DIFERENCIAS DE CONTEO. Revisar arriba.\n"));
    assert_eq!(informe_conteos(&vec![]), informe_esperado(&[]));
}

#[test]
fn columnas_de_texto() {
    assert!(es_columna_texto("TEXT"));
    assert!(es_columna_texto("text"));
    assert!(es_columna_texto("varchar(20)"));
    assert!(es_columna_texto("Clob"));
    assert!(es_columna_texto(""));
    assert!(!es_columna_texto("INTEGER"));
    assert!(!es_columna_texto("real"));
}

#[test]
fn sentencias_de_un_guion() {
    let g = "\nPRAGMA a=1;\n  CREATE TABLE t (x);  ;\n\n;CREATE TABLE u (y)\n";
    assert_eq!(sentencias_esquema(g), vec!["PRAGMA a=1".to_string(), "CREATE TABLE t (x)".to_string(), "CREATE TABLE u (y)".to_string()]);
    assert!(sentencias_esquema("").is_empty());
    assert!(sentencias_esquema(" ; ;\n").is_empty());
    let esperado: Vec<String> = g.split(';').map(|s| s.trim()).filter(|s| !s.is_empty()).map(|s| s.to_string()).collect();
    assert_eq!(sentencias_esquema(g), esperado);
}

#[test]
fn resumen_de_copia_de_una_tabla() {
    let mut r = ResumenCopia::nuevo();
    assert!(!r.registrar(Some(1)));
    assert!(r.registrar(Some(0)));
    assert!(r.registrar(None));
    assert!(!r.registrar(Some(2)));
    for _ in 0..3 {
        assert!(r.registrar(None));
    }
    assert!(!r.registrar(None));
    assert_eq!(r.ok, 2);
    assert_eq!(r.omitidas, 6);
    assert_eq!(r.ok + r.omitidas, 8);
    assert_eq!(r.linea("clientes", 8), format!("  {:30} {} filas ({} ok, {} omitidas)", "clientes", 8, 2, 6));
}

fn pasos() -> PasosMigracion {
    PasosMigracion {
        filas_por_tabla: vec![10, 0, 5],
        hay_ahorro: true,
        filas_ahorro: 4,
        ventas_recalculadas: true,
        clientes_recalculados: false,
        proveedores_recalculados: true,
        creditos_recalculados: false,
        deudas_generadas: 2,
    }
}

#[test]
fn total_de_filas_migradas() {
    assert_eq!(total_migrado(&pasos()), 20);
    let mut p = pasos();
    p.hay_ahorro = false;
    assert_eq!(total_migrado(&p), 15);
    p.filas_por_tabla = vec![];
    assert_eq!(total_migrado(&p), 0);
}

#[test]
fn informe_de_migracion_completa() {
    let c = vec![conteo("clientes", "clientes", 3, 3)];
    let r: MigracionResultado = resultado_migracion("viejo.db", "nuevo.db", &pasos(), "0.25", &c);
    assert_eq!(r.filas_migradas, 20);
    let esperado = [
        "=== Migración: Python → Rust ===\n",
        "Origen:  viejo.db\n",
        "Destino: nuevo.db\n\n",
        "  ahorros                         cuenta general creada\n",
        "  saldos recalculados en ventas\n",
        "  saldos recalculados en proveedores\n",
        "  deudas_empresa generadas: 2\n",
        "\n=== Migración completada ===\n",
        "  Filas migradas: 20\n",
        "  Tiempo: 0.25s\n",
    ]
    .concat()
        + &informe_esperado(&[("clientes", "clientes", 3, 3)]);
    assert_eq!(r.mensaje, esperado);
}

#[test]
fn informe_de_migracion_en_caliente() {
    let mut p = pasos();
    p.clientes_recalculados = true;
    p.creditos_recalculados = true;
    let r = resultado_migracion_en_caliente("legacy.db", &p, "1.00", &vec![]);
    assert_eq!(r.filas_migradas, 20);
    let esperado = [
        "=== Migración en caliente: legacy.db → contabilidad_rust.db ===\n",
        "  saldos recalculados en ventas\n",
        "  saldos recalculados en clientes\n",
        "  saldos recalculados en proveedores\n",
        "  saldos recalculados en cuentas_credito\n",
        "\n=== Migración completada ===\n",
        "  Filas migradas: 20\n",
        "  Tiempo: 1.00s\n",
    ]
    .concat()
        + &informe_esperado(&[]);
    assert_eq!(r.mensaje, esperado);
}

fn resultado(n: u64) -> MigracionResultado {
    MigracionResultado { filas_migradas: n, mensaje: format!("{} filas", n) }
}

#[test]
fn arranque_con_y_sin_migracion() {
    let plan = auto_migrar(false, Some("viejo.db".to_string()));
    match resultado_arranque(&plan, Some(Ok(resultado(7)))) {
        Ok(Some(r)) => {
            assert_eq!(r.filas_migradas, 7);
            assert_eq!(r.mensaje, "7 filas");
        }
        _ => panic!("se esperaba la migración"),
    }
    assert!(matches!(resultado_arranque(&plan, Some(Err("falló".to_string()))), Err(e) if e == "falló"));
    let sin = auto_migrar(true, Some("viejo.db".to_string()));
    assert!(matches!(resultado_arranque(&sin, None), Ok(None)));
}
