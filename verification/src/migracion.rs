//! Migración desde la base de datos del sistema anterior: qué hacer, qué
//! consultas lanzar y qué informe entregar. La lectura y escritura de las bases
//! la hace quien llama; aquí se decide y se redacta.

use vstd::prelude::*;
use crate::texto::{agregar_texto, caracteres, partir, trozos, vista_textos, recortar, recortar_texto, vacio_al_recortar, mayusculas, a_mayusculas, contiene, contiene_texto};
use crate::numeros::{decimal, escribir_decimal, decimal_con_signo, rellenar_derecha, rellenar_izquierda, escribir_derecha, escribir_repetido};
use crate::numeracion::vista_opcional;
use crate::modelos::vista_opcion;

verus! {

broadcast use vstd::string::group_string_axioms;

/// Resultado de una migración: filas copiadas y el informe para el usuario.
pub struct MigracionResultado {
    pub filas_migradas: u64,
    pub mensaje: String,
}

/// Origen desde el que migra el arranque: ninguno si la base de destino ya existe;
/// si no, la base antigua encontrada, si la hay.
pub open spec fn plan_migracion(destino_existe: bool, origen: Option<Seq<char>>) -> Option<Seq<char>> {
    if destino_existe {
        None
    } else {
        origen
    }
}

/// Decide la migración automática del arranque. Si la base de destino ya existe
/// no se migra nada; si no, se migra desde la base antigua encontrada, si la hay.
/// Devuelve la ruta de origen desde la que hay que migrar.
pub fn auto_migrar(destino_existe: bool, origen: Option<String>) -> (r: Option<String>)
    ensures
        destino_existe ==> r is None,
        !destino_existe ==> r == origen,
        vista_opcion(r) == plan_migracion(destino_existe, vista_opcion(origen)),
{
    if destino_existe {
        None
    } else {
        origen
    }
}

/// Resultado del arranque: sin plan no hay nada que migrar (`Ok(None)`); con plan, el
/// de la migración desde ese origen, con su informe si salió bien o su error si no.
pub open spec fn arranque_de(
    plan: Option<Seq<char>>,
    migracion: Result<MigracionResultado, String>,
) -> Result<Option<MigracionResultado>, String> {
    match plan {
        None => Ok(None),
        Some(_) => match migracion {
            Ok(m) => Ok(Some(m)),
            Err(e) => Err(e),
        },
    }
}

/// Da el resultado de la migración automática a partir del plan decidido por
/// `auto_migrar` y, si había plan, del resultado de migrar desde ese origen.
pub fn resultado_arranque(
    plan: &Option<String>,
    migracion: Option<Result<MigracionResultado, String>>,
) -> (r: Result<Option<MigracionResultado>, String>)
    requires
        plan.is_some() == migracion.is_some(),
    ensures
        plan is None ==> r == Ok::<Option<MigracionResultado>, String>(None),
        migracion matches Some(m) ==> r == arranque_de(vista_opcion(*plan), m),
{
    match migracion {
        None => Ok(None),
        Some(Ok(m)) => Ok(Some(m)),
        Some(Err(e)) => Err(e),
    }
}

/// La migración automática equivale a migrar desde la base antigua encontrada cuando
/// la base de destino no existe: se migra desde ese origen, y el arranque da el mismo
/// informe si la migración sale bien o el mismo error si falla. Si la base de destino
/// existe, o no se encuentra base antigua, no se migra nada.
pub proof fn ley_auto_migracion_es_migrar(
    destino_existe: bool,
    origen: Option<Seq<char>>,
    migracion: Result<MigracionResultado, String>,
)
    ensures
        !destino_existe && origen is Some ==> {
            &&& plan_migracion(destino_existe, origen) == origen
            &&& arranque_de(plan_migracion(destino_existe, origen), migracion) == match migracion {
                Ok(m) => Ok::<Option<MigracionResultado>, String>(Some(m)),
                Err(e) => Err(e),
            }
        },
        destino_existe || origen is None ==> arranque_de(plan_migracion(destino_existe, origen), migracion)
            == Ok::<Option<MigracionResultado>, String>(None),
{
}

/// Consulta que cuenta las filas de una tabla, o los valores distintos de una columna.
pub open spec fn consulta_conteo(tabla: Seq<char>, clave: Option<Seq<char>>) -> Seq<char> {
    match clave {
        Some(k) => "SELECT COUNT(DISTINCT \""@ + k + "\") FROM \""@ + tabla + "\""@,
        None => "SELECT COUNT(*) FROM \""@ + tabla + "\""@,
    }
}

/// Escribe la consulta de conteo de `tabla` (por valores distintos de `clave` si se da).
pub fn sql_conteo(tabla: &str, clave: Option<&str>) -> (r: String)
    ensures
        r@ == consulta_conteo(tabla@, vista_opcional(clave)),
{
    let mut r = String::new();
    match clave {
        Some(k) => {
            agregar_texto(&mut r, "SELECT COUNT(DISTINCT \"");
            agregar_texto(&mut r, k);
            agregar_texto(&mut r, "\") FROM \"");
        },
        None => {
            agregar_texto(&mut r, "SELECT COUNT(*) FROM \"");
        },
    }
    agregar_texto(&mut r, tabla);
    agregar_texto(&mut r, "\"");
    r
}

/// Añade `t` completado con espacios por la derecha hasta `ancho` caracteres (`{:N}`).
pub fn escribir_izquierda(s: &mut String, t: &str, ancho: usize)
    ensures
        final(s)@ == old(s)@ + rellenar_derecha(t@, ancho as nat),
{
    let v = caracteres(t);
    agregar_texto(s, t);
    if v.len() < ancho {
        escribir_repetido(s, ' ', ancho - v.len());
    }
    assert(s@ =~= old(s)@ + rellenar_derecha(t@, ancho as nat));
}

/// Conteo de una tabla en la base de origen y de su par en la de destino.
pub struct ConteoTabla {
    pub tabla_origen: String,
    pub tabla_destino: String,
    pub en_origen: i64,
    pub en_destino: i64,
}

/// Línea del informe para un par de tablas.
pub open spec fn linea_conteo(c: ConteoTabla) -> Seq<char> {
    "  "@ + rellenar_derecha(c.tabla_origen@ + "."@ + c.tabla_destino@, 26) + " "@
        + rellenar_izquierda(decimal_con_signo(c.en_origen as int), ' ', 5) + " → "@
        + rellenar_izquierda(decimal_con_signo(c.en_destino as int), ' ', 5) + "  "@
        + (if c.en_origen == c.en_destino { "OK"@ } else { "DIFERENCIA!"@ }) + "\n"@
}

/// Líneas del informe para todos los pares, en orden.
pub open spec fn lineas_conteo(cs: Seq<ConteoTabla>) -> Seq<char>
    decreases cs.len(),
{
    if cs.len() == 0 {
        Seq::empty()
    } else {
        lineas_conteo(cs.drop_last()) + linea_conteo(cs.last())
    }
}

/// Algún par de tablas no tiene el mismo conteo en origen y destino.
pub open spec fn hay_diferencias(cs: Seq<ConteoTabla>) -> bool {
    exists|i: int| 0 <= i < cs.len() && cs[i].en_origen != cs[i].en_destino
}

/// Informe completo de verificación de conteos.
pub open spec fn informe_de_conteos(cs: Seq<ConteoTabla>) -> Seq<char> {
    "\n=== Verificación de conteos (origen → destino) ===\n"@ + lineas_conteo(cs) + if hay_diferencias(cs) {
        "\n  !! HAY DIFERENCIAS DE CONTEO. Revisar arriba.\n"@
    } else {
        "\n  Todos los conteos coinciden.\n"@
    }
}

/// Añade la línea del informe de un par de tablas.
fn escribir_linea_conteo(s: &mut String, c: &ConteoTabla)
    ensures
        final(s)@ == old(s)@ + linea_conteo(*c),
{
    let mut etiqueta = String::new();
    agregar_texto(&mut etiqueta, c.tabla_origen.as_str());
    agregar_texto(&mut etiqueta, ".");
    agregar_texto(&mut etiqueta, c.tabla_destino.as_str());
    agregar_texto(s, "  ");
    escribir_izquierda(s, etiqueta.as_str(), 26);
    agregar_texto(s, " ");
    escribir_derecha(s, c.en_origen, 5);
    agregar_texto(s, " → ");
    escribir_derecha(s, c.en_destino, 5);
    agregar_texto(s, "  ");
    if c.en_origen == c.en_destino {
        agregar_texto(s, "OK");
    } else {
        agregar_texto(s, "DIFERENCIA!");
    }
    agregar_texto(s, "\n");
    assert(s@ =~= old(s)@ + linea_conteo(*c));
}

/// Redacta el informe de verificación de conteos entre origen y destino.
pub fn informe_conteos(conteos: &Vec<ConteoTabla>) -> (r: String)
    ensures
        r@ == informe_de_conteos(conteos@),
{
    let mut s = String::new();
    agregar_texto(&mut s, "\n=== Verificación de conteos (origen → destino) ===\n");
    let ghost inicio = s@;
    let mut hay_error = false;
    let mut i: usize = 0;
    while i < conteos.len()
        invariant
            0 <= i <= conteos.len(),
            inicio == "\n=== Verificación de conteos (origen → destino) ===\n"@,
            s@ == inicio + lineas_conteo(conteos@.take(i as int)),
            hay_error == hay_diferencias(conteos@.take(i as int)),
        decreases conteos.len() - i,
    {
        let c = &conteos[i];
        escribir_linea_conteo(&mut s, c);
        proof {
            let t = conteos@.take(i as int);
            let t1 = conteos@.take(i + 1);
            assert(t1.drop_last() =~= t);
            assert(t1.last() == conteos@[i as int]);
            assert(lineas_conteo(t1) == lineas_conteo(t) + linea_conteo(conteos@[i as int]));
            if hay_diferencias(t) {
                let j = choose|j: int| 0 <= j < t.len() && t[j].en_origen != t[j].en_destino;
                assert(t1[j] == t[j]);
            }
            if conteos@[i as int].en_origen != conteos@[i as int].en_destino {
                assert(t1[i as int] == conteos@[i as int]);
            }
            if hay_diferencias(t1) {
                let j = choose|j: int| 0 <= j < t1.len() && t1[j].en_origen != t1[j].en_destino;
                if j < i {
                    assert(t[j] == t1[j]);
                }
            }
        }
        if c.en_origen != c.en_destino {
            hay_error = true;
        }
        i += 1;
    }
    assert(conteos@.take(conteos@.len() as int) =~= conteos@);
    if hay_error {
        agregar_texto(&mut s, "\n  !! HAY DIFERENCIAS DE CONTEO. Revisar arriba.\n");
    } else {
        agregar_texto(&mut s, "\n  Todos los conteos coinciden.\n");
    }
    s
}

/// Una columna de tipo declarado `tipo` guarda texto: su tipo en mayúsculas menciona
/// `TEXT`, `CHAR` o `CLOB`, o no tiene tipo.
pub open spec fn es_tipo_texto(tipo: Seq<char>) -> bool {
    let t = mayusculas(tipo);
    contiene(t, "TEXT"@) || contiene(t, "CHAR"@) || contiene(t, "CLOB"@) || t.len() == 0
}

/// Indica si una columna de tipo declarado `tipo` guarda texto.
pub fn es_columna_texto(tipo: &str) -> (r: bool)
    ensures
        r == es_tipo_texto(tipo@),
{
    let t = a_mayusculas(tipo);
    let a = contiene_texto(t.as_str(), "TEXT");
    let b = contiene_texto(t.as_str(), "CHAR");
    let c = contiene_texto(t.as_str(), "CLOB");
    let v = caracteres(t.as_str());
    a || b || c || v.len() == 0
}

/// Consulta que lista las columnas de una tabla.
pub open spec fn consulta_columnas(tabla: Seq<char>) -> Seq<char> {
    "PRAGMA table_info("@ + tabla + ")"@
}

/// Escribe la consulta que lista las columnas de `tabla`.
pub fn sql_columnas(tabla: &str) -> (r: String)
    ensures
        r@ == consulta_columnas(tabla@),
{
    let mut r = String::new();
    agregar_texto(&mut r, "PRAGMA table_info(");
    agregar_texto(&mut r, tabla);
    agregar_texto(&mut r, ")");
    r
}

/// Sentencia que cambia los nulos de una columna de texto por el texto vacío.
pub open spec fn sentencia_vaciar_nulos(tabla: Seq<char>, columna: Seq<char>) -> Seq<char> {
    "UPDATE "@ + tabla + " SET \""@ + columna + "\" = '' WHERE \""@ + columna + "\" IS NULL"@
}

/// Escribe la sentencia que cambia los nulos de `columna` en `tabla` por el texto vacío.
pub fn sql_vaciar_nulos(tabla: &str, columna: &str) -> (r: String)
    ensures
        r@ == sentencia_vaciar_nulos(tabla@, columna@),
{
    let mut r = String::new();
    agregar_texto(&mut r, "UPDATE ");
    agregar_texto(&mut r, tabla);
    agregar_texto(&mut r, " SET \"");
    agregar_texto(&mut r, columna);
    agregar_texto(&mut r, "\" = '' WHERE \"");
    agregar_texto(&mut r, columna);
    agregar_texto(&mut r, "\" IS NULL");
    r
}

/// Los trozos recortados que no quedan vacíos, en orden.
pub open spec fn no_vacios(ps: Seq<Seq<char>>) -> Seq<Seq<char>>
    decreases ps.len(),
{
    if ps.len() == 0 {
        Seq::empty()
    } else {
        let r = no_vacios(ps.drop_last());
        let t = recortar(ps.last());
        if t.len() > 0 {
            r.push(t)
        } else {
            r
        }
    }
}

/// Sentencias de un guion SQL: sus trozos entre `;`, recortados, sin los vacíos.
pub open spec fn sentencias_de(s: Seq<char>) -> Seq<Seq<char>> {
    no_vacios(trozos(s, ';'))
}

/// Parte un guion SQL en sus sentencias, recortadas y sin las vacías.
pub fn sentencias_esquema(guion: &str) -> (r: Vec<String>)
    ensures
        vista_textos(r@) == sentencias_de(guion@),
{
    let partes = partir(guion, ';');
    let mut r: Vec<String> = Vec::new();
    let mut i: usize = 0;
    assert(vista_textos(partes@).take(0) =~= Seq::<Seq<char>>::empty());
    while i < partes.len()
        invariant
            0 <= i <= partes.len(),
            vista_textos(partes@) == trozos(guion@, ';'),
            vista_textos(r@) == no_vacios(vista_textos(partes@).take(i as int)),
        decreases partes.len() - i,
    {
        let ghost ps = vista_textos(partes@);
        let ghost r0 = vista_textos(r@);
        proof {
            assert(ps.take(i + 1).drop_last() =~= ps.take(i as int));
            assert(ps.take(i + 1).last() == partes@[i as int]@);
        }
        if !vacio_al_recortar(partes[i].as_str()) {
            let limpio = recortar_texto(partes[i].as_str());
            r.push(limpio);
            assert(vista_textos(r@) =~= r0.push(limpio@));
        }
        i += 1;
    }
    assert(vista_textos(partes@).take(partes.len() as int) =~= vista_textos(partes@));
    r
}

/// Cuenta de las filas copiadas y omitidas al pasar una tabla.
pub struct ResumenCopia {
    pub ok: u64,
    pub omitidas: u64,
}

impl ResumenCopia {
    /// Resumen sin filas.
    pub fn nuevo() -> (r: Self)
        ensures
            r.ok == 0,
            r.omitidas == 0,
    {
        ResumenCopia { ok: 0, omitidas: 0 }
    }

    /// Anota el resultado de insertar una fila: `Some(n)` si la sentencia afectó a `n`
    /// filas, `None` si falló. Una fila que no se insertó cuenta como omitida.
    /// Devuelve si hay que avisar de la omisión (solo de las cinco primeras).
    pub fn registrar(&mut self, afectadas: Option<usize>) -> (avisar: bool)
        requires
            old(self).ok < u64::MAX,
            old(self).omitidas < u64::MAX,
        ensures
            final(self).ok + final(self).omitidas == old(self).ok + old(self).omitidas + 1,
            (afectadas matches Some(n) && n > 0) ==> {
                &&& final(self).ok == old(self).ok + 1
                &&& final(self).omitidas == old(self).omitidas
                &&& !avisar
            },
            !(afectadas matches Some(n) && n > 0) ==> {
                &&& final(self).ok == old(self).ok
                &&& final(self).omitidas == old(self).omitidas + 1
                &&& avisar == (final(self).omitidas <= 5)
            },
    {
        match afectadas {
            Some(n) if n > 0 => {
                self.ok = self.ok + 1;
                false
            },
            _ => {
                self.omitidas = self.omitidas + 1;
                self.omitidas <= 5
            },
        }
    }

    /// Línea del resumen de una tabla con `total` filas en origen.
    pub open spec fn linea_de(self, nombre: Seq<char>, total: u64) -> Seq<char> {
        "  "@ + rellenar_derecha(nombre, 30) + " "@ + decimal(total as nat) + " filas ("@
            + decimal(self.ok as nat) + " ok, "@ + decimal(self.omitidas as nat) + " omitidas)"@
    }

    /// Escribe la línea del resumen de la tabla `nombre`, que tenía `total` filas.
    pub fn linea(&self, nombre: &str, total: u64) -> (r: String)
        ensures
            r@ == self.linea_de(nombre@, total),
    {
        let mut r = String::new();
        agregar_texto(&mut r, "  ");
        escribir_izquierda(&mut r, nombre, 30);
        agregar_texto(&mut r, " ");
        escribir_decimal(&mut r, total);
        agregar_texto(&mut r, " filas (");
        escribir_decimal(&mut r, self.ok);
        agregar_texto(&mut r, " ok, ");
        escribir_decimal(&mut r, self.omitidas);
        agregar_texto(&mut r, " omitidas)");
        assert(r@ =~= self.linea_de(nombre@, total));
        r
    }
}

/// Lo que pasó durante una migración, tal como lo observó quien la ejecutó.
pub struct PasosMigracion {
    /// Filas copiadas por cada tabla, en el orden en que se copiaron.
    pub filas_por_tabla: Vec<u64>,
    /// La base antigua tenía movimientos de ahorro: se creó la cuenta general.
    pub hay_ahorro: bool,
    /// Movimientos de ahorro copiados.
    pub filas_ahorro: u64,
    pub ventas_recalculadas: bool,
    pub clientes_recalculados: bool,
    pub proveedores_recalculados: bool,
    pub creditos_recalculados: bool,
    /// Deudas de la empresa generadas a partir de los créditos con saldo.
    pub deudas_generadas: u64,
}

/// Suma de una secuencia de cantidades.
pub open spec fn suma(s: Seq<u64>) -> int
    decreases s.len(),
{
    if s.len() == 0 {
        0
    } else {
        suma(s.drop_last()) + s.last()
    }
}

/// Filas migradas en total: las de cada tabla y, si había ahorro, la cuenta general
/// y sus movimientos.
pub open spec fn total_de(p: PasosMigracion) -> int {
    suma(p.filas_por_tabla@) + if p.hay_ahorro { 1 + p.filas_ahorro } else { 0int }
}

/// La suma de cantidades no negativas no decrece al alargar la secuencia.
pub proof fn lema_suma_prefijo(s: Seq<u64>, i: int)
    requires
        0 <= i <= s.len(),
    ensures
        0 <= suma(s.take(i)) <= suma(s),
    decreases s.len() - i,
{
    if i < s.len() {
        lema_suma_prefijo(s, i + 1);
        assert(s.take(i + 1).drop_last() =~= s.take(i));
        assert(s.take(i + 1).last() == s[i]);
        lema_suma_no_negativa(s.take(i));
    } else {
        assert(s.take(i) =~= s);
        lema_suma_no_negativa(s);
    }
}

/// La suma de cantidades no negativas es no negativa.
pub proof fn lema_suma_no_negativa(s: Seq<u64>)
    ensures
        suma(s) >= 0,
    decreases s.len(),
{
    if s.len() > 0 {
        lema_suma_no_negativa(s.drop_last());
    }
}

/// Calcula el total de filas migradas.
pub fn total_migrado(p: &PasosMigracion) -> (r: u64)
    requires
        total_de(*p) <= u64::MAX,
    ensures
        r == total_de(*p),
{
    let mut total: u64 = 0;
    let mut i: usize = 0;
    proof {
        lema_suma_prefijo(p.filas_por_tabla@, 0);
        assert(p.filas_por_tabla@.take(0) =~= Seq::<u64>::empty());
    }
    while i < p.filas_por_tabla.len()
        invariant
            0 <= i <= p.filas_por_tabla.len(),
            total_de(*p) <= u64::MAX,
            total == suma(p.filas_por_tabla@.take(i as int)),
        decreases p.filas_por_tabla.len() - i,
    {
        proof {
            let s = p.filas_por_tabla@;
            assert(s.take(i + 1).drop_last() =~= s.take(i as int));
            lema_suma_prefijo(s, i + 1);
            lema_suma_no_negativa(s);
        }
        total = total + p.filas_por_tabla[i];
        i += 1;
    }
    assert(p.filas_por_tabla@.take(p.filas_por_tabla@.len() as int) =~= p.filas_por_tabla@);
    if p.hay_ahorro {
        total = total + 1 + p.filas_ahorro;
    }
    total
}

/// Avisos de los saldos que se recalcularon, en orden.
pub open spec fn lineas_recalculo(p: PasosMigracion) -> Seq<char> {
    (if p.ventas_recalculadas { "  saldos recalculados en ventas\n"@ } else { Seq::empty() })
        + (if p.clientes_recalculados { "  saldos recalculados en clientes\n"@ } else { Seq::empty() })
        + (if p.proveedores_recalculados { "  saldos recalculados en proveedores\n"@ } else { Seq::empty() })
        + (if p.creditos_recalculados { "  saldos recalculados en cuentas_credito\n"@ } else { Seq::empty() })
}

/// Cierre del informe: filas migradas y tiempo empleado (ya escrito, en segundos).
pub open spec fn cierre_migracion(total: u64, tiempo: Seq<char>) -> Seq<char> {
    "\n=== Migración completada ===\n"@ + "  Filas migradas: "@ + decimal(total as nat) + "\n"@
        + "  Tiempo: "@ + tiempo + "s\n"@
}

/// Informe de la migración completa desde la base antigua a una base nueva.
pub open spec fn informe_migracion(
    origen: Seq<char>,
    destino: Seq<char>,
    p: PasosMigracion,
    total: u64,
    tiempo: Seq<char>,
    conteos: Seq<ConteoTabla>,
) -> Seq<char> {
    "=== Migración: Python → Rust ===\nOrigen:  "@ + origen + "\nDestino: "@ + destino + "\n\n"@
        + (if p.hay_ahorro { "  ahorros                         cuenta general creada\n"@ } else { Seq::empty() })
        + lineas_recalculo(p)
        + (if p.deudas_generadas > 0 {
            "  deudas_empresa generadas: "@ + decimal(p.deudas_generadas as nat) + "\n"@
        } else {
            Seq::empty()
        })
        + cierre_migracion(total, tiempo) + informe_de_conteos(conteos)
}

/// Informe de la migración en caliente sobre la base activa.
pub open spec fn informe_migracion_en_caliente(
    origen: Seq<char>,
    p: PasosMigracion,
    total: u64,
    tiempo: Seq<char>,
    conteos: Seq<ConteoTabla>,
) -> Seq<char> {
    "=== Migración en caliente: "@ + origen + " → contabilidad_rust.db ===\n"@ + lineas_recalculo(p)
        + cierre_migracion(total, tiempo) + informe_de_conteos(conteos)
}

/// Añade los avisos de saldos recalculados.
fn escribir_recalculos(s: &mut String, p: &PasosMigracion)
    ensures
        final(s)@ == old(s)@ + lineas_recalculo(*p),
{
    if p.ventas_recalculadas {
        agregar_texto(s, "  saldos recalculados en ventas\n");
    }
    let ghost s1 = s@;
    if p.clientes_recalculados {
        agregar_texto(s, "  saldos recalculados en clientes\n");
    }
    let ghost s2 = s@;
    if p.proveedores_recalculados {
        agregar_texto(s, "  saldos recalculados en proveedores\n");
    }
    let ghost s3 = s@;
    if p.creditos_recalculados {
        agregar_texto(s, "  saldos recalculados en cuentas_credito\n");
    }
    assert(s@ =~= old(s)@ + lineas_recalculo(*p));
}

/// Añade el cierre del informe.
fn escribir_cierre(s: &mut String, total: u64, tiempo: &str)
    ensures
        final(s)@ == old(s)@ + cierre_migracion(total, tiempo@),
{
    agregar_texto(s, "\n=== Migración completada ===\n");
    agregar_texto(s, "  Filas migradas: ");
    escribir_decimal(s, total);
    agregar_texto(s, "\n");
    agregar_texto(s, "  Tiempo: ");
    agregar_texto(s, tiempo);
    agregar_texto(s, "s\n");
    assert(s@ =~= old(s)@ + cierre_migracion(total, tiempo@));
}

/// Resultado de la migración completa de `origen` a `destino`: el total de filas y
/// el informe con los pasos, el tiempo (`tiempo`, ya escrito en segundos) y la
/// verificación de conteos.
pub fn resultado_migracion(
    origen: &str,
    destino: &str,
    pasos: &PasosMigracion,
    tiempo: &str,
    conteos: &Vec<ConteoTabla>,
) -> (r: MigracionResultado)
    requires
        total_de(*pasos) <= u64::MAX,
    ensures
        r.filas_migradas == total_de(*pasos),
        r.mensaje@ == informe_migracion(origen@, destino@, *pasos, r.filas_migradas, tiempo@, conteos@),
{
    let total = total_migrado(pasos);
    let mut m = String::new();
    agregar_texto(&mut m, "=== Migración: Python → Rust ===\nOrigen:  ");
    agregar_texto(&mut m, origen);
    agregar_texto(&mut m, "\nDestino: ");
    agregar_texto(&mut m, destino);
    agregar_texto(&mut m, "\n\n");
    let ghost m1 = m@;
    if pasos.hay_ahorro {
        agregar_texto(&mut m, "  ahorros                         cuenta general creada\n");
    }
    let ghost m2 = m@;
    escribir_recalculos(&mut m, pasos);
    let ghost m3 = m@;
    if pasos.deudas_generadas > 0 {
        agregar_texto(&mut m, "  deudas_empresa generadas: ");
        escribir_decimal(&mut m, pasos.deudas_generadas);
        agregar_texto(&mut m, "\n");
    }
    let ghost m4 = m@;
    escribir_cierre(&mut m, total, tiempo);
    let informe = informe_conteos(conteos);
    agregar_texto(&mut m, informe.as_str());
    assert(m@ =~= informe_migracion(origen@, destino@, *pasos, total, tiempo@, conteos@));
    MigracionResultado { filas_migradas: total, mensaje: m }
}

/// Resultado de la migración en caliente desde `origen` sobre la base activa.
pub fn resultado_migracion_en_caliente(
    origen: &str,
    pasos: &PasosMigracion,
    tiempo: &str,
    conteos: &Vec<ConteoTabla>,
) -> (r: MigracionResultado)
    requires
        total_de(*pasos) <= u64::MAX,
    ensures
        r.filas_migradas == total_de(*pasos),
        r.mensaje@ == informe_migracion_en_caliente(origen@, *pasos, r.filas_migradas, tiempo@, conteos@),
{
    let total = total_migrado(pasos);
    let mut m = String::new();
    agregar_texto(&mut m, "=== Migración en caliente: ");
    agregar_texto(&mut m, origen);
    agregar_texto(&mut m, " → contabilidad_rust.db ===\n");
    escribir_recalculos(&mut m, pasos);
    escribir_cierre(&mut m, total, tiempo);
    let informe = informe_conteos(conteos);
    agregar_texto(&mut m, informe.as_str());
    assert(m@ =~= informe_migracion_en_caliente(origen@, *pasos, total, tiempo@, conteos@));
    MigracionResultado { filas_migradas: total, mensaje: m }
}

} // verus!
