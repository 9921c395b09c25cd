//! Alertas para las notificaciones del celular: cuántos cobros están vencidos y
//! qué mensajes mostrar.

use vstd::prelude::*;
use crate::texto::agregar_texto;
use crate::numeros::{decimal, decimal_con_signo, escribir_decimal, escribir_entero};

verus! {

broadcast use vstd::string::group_string_axioms;

/// Cantidad de días de cobro anteriores a `dia`.
pub open spec fn vencidos_en(dias: Seq<i32>, dia: i32) -> nat
    decreases dias.len(),
{
    if dias.len() == 0 {
        0
    } else {
        vencidos_en(dias.drop_last(), dia) + if dias.last() < dia { 1nat } else { 0nat }
    }
}

/// Un cobro cuyo día de cobro ya pasó en el mes está vencido.
pub fn cobro_vencido(dia_cobro: i32, dia: i32) -> (r: bool)
    ensures
        r == (dia_cobro < dia),
{
    dia_cobro < dia
}

/// Cuenta los cobros pendientes cuyo día de cobro es anterior a `dia`.
pub fn contar_vencidos(dias_cobro: &Vec<i32>, dia: i32) -> (r: usize)
    ensures
        r == vencidos_en(dias_cobro@, dia),
        r <= dias_cobro.len(),
{
    let mut n: usize = 0;
    let mut i: usize = 0;
    assert(dias_cobro@.take(0) =~= Seq::<i32>::empty());
    while i < dias_cobro.len()
        invariant
            0 <= i <= dias_cobro.len(),
            n == vencidos_en(dias_cobro@.take(i as int), dia),
            n <= i,
        decreases dias_cobro.len() - i,
    {
        assert(dias_cobro@.take(i + 1).drop_last() =~= dias_cobro@.take(i as int));
        if cobro_vencido(dias_cobro[i], dia) {
            n += 1;
        }
        i += 1;
    }
    assert(dias_cobro@.take(dias_cobro@.len() as int) =~= dias_cobro@);
    n
}

/// Los cobros vencidos son exactamente los de la lista con día anterior a `dia`:
/// su número es el largo de la lista filtrada por `< dia`, ninguno si la lista está
/// vacía, y añadir un cobro suma uno si y solo si ese cobro es anterior a `dia`.
pub proof fn ley_cuenta_todos_los_vencidos(dias: Seq<i32>, dia: i32, x: i32)
    ensures
        vencidos_en(dias, dia) == dias.filter(|d: i32| d < dia).len(),
        vencidos_en(Seq::<i32>::empty(), dia) == 0,
        vencidos_en(dias.push(x), dia) == vencidos_en(dias, dia) + if x < dia { 1int } else { 0int },
    decreases dias.len(),
{
    reveal(Seq::filter);
    if dias.len() > 0 {
        ley_cuenta_todos_los_vencidos(dias.drop_last(), dia, x);
    }
    assert(dias.push(x).drop_last() =~= dias);
}

/// Mensaje con una cantidad delante.
pub open spec fn con_cantidad(n: nat, texto: Seq<char>) -> Seq<char> {
    decimal(n) + texto
}

/// Mensajes de alerta, en orden: cobros pendientes, cobros vencidos, créditos
/// vencidos y productos con stock bajo, cada uno solo si hay alguno.
pub open spec fn mensajes_de(pendientes: nat, vencidos: nat, creditos: nat, stock: nat) -> Seq<Seq<char>> {
    let a = if pendientes > 0 {
        seq![con_cantidad(pendientes, " cobros de comisiones pendientes de cobrar"@)]
    } else {
        Seq::empty()
    };
    let b = if vencidos > 0 {
        seq![con_cantidad(vencidos, " cobros ya vencidos, ¡cóbralos!"@)]
    } else {
        Seq::empty()
    };
    let c = if creditos > 0 {
        seq![con_cantidad(creditos, " créditos vencidos"@)]
    } else {
        Seq::empty()
    };
    let d = if stock > 0 {
        seq![con_cantidad(stock, " productos con stock bajo"@)]
    } else {
        Seq::empty()
    };
    a + b + c + d
}

/// Texto con la cantidad `n` delante de `texto`.
fn mensaje_con_cantidad(n: usize, texto: &str) -> (r: String)
    ensures
        r@ == con_cantidad(n as nat, texto@),
{
    let mut r = String::new();
    escribir_decimal(&mut r, n as u64);
    agregar_texto(&mut r, texto);
    r
}

/// Arma los mensajes de alerta a partir de las cantidades de cada tipo.
pub fn mensajes_alertas(pendientes: usize, vencidos: usize, creditos: usize, stock: usize) -> (r: Vec<String>)
    ensures
        r@.map_values(|m: String| m@) == mensajes_de(pendientes as nat, vencidos as nat, creditos as nat, stock as nat),
{
    let mut r: Vec<String> = Vec::new();
    let ghost v0 = r@.map_values(|m: String| m@);
    if pendientes > 0 {
        r.push(mensaje_con_cantidad(pendientes, " cobros de comisiones pendientes de cobrar"));
    }
    let ghost v1 = r@.map_values(|m: String| m@);
    if vencidos > 0 {
        r.push(mensaje_con_cantidad(vencidos, " cobros ya vencidos, ¡cóbralos!"));
    }
    let ghost v2 = r@.map_values(|m: String| m@);
    if creditos > 0 {
        r.push(mensaje_con_cantidad(creditos, " créditos vencidos"));
    }
    let ghost v3 = r@.map_values(|m: String| m@);
    if stock > 0 {
        r.push(mensaje_con_cantidad(stock, " productos con stock bajo"));
    }
    assert(r@.map_values(|m: String| m@) =~= mensajes_de(pendientes as nat, vencidos as nat, creditos as nat, stock as nat));
    r
}

/// Saludo al ingresar: con aviso de los cobros de comisión vencidos hoy (`n` cobros
/// por `monto`, ya escrito con dos decimales) si los hay.
pub open spec fn bienvenida_de(n: i64, monto: Seq<char>, usuario: Seq<char>) -> (Seq<char>, bool) {
    if n > 0 {
        ("\u{1F514} "@ + decimal_con_signo(n as int) + " cobro(s) de comisión vencido(s) hoy ($"@ + monto
            + "). ¡Bienvenido, "@ + usuario + "!"@, true)
    } else {
        ("Bienvenido, "@ + usuario, false)
    }
}

/// Arma el saludo al ingresar y dice si es un aviso.
pub fn mensaje_bienvenida(n: i64, monto: &str, usuario: &str) -> (r: (String, bool))
    ensures
        (r.0@, r.1) == bienvenida_de(n, monto@, usuario@),
{
    let mut s = String::new();
    if n > 0 {
        agregar_texto(&mut s, "\u{1F514} ");
        escribir_entero(&mut s, n);
        agregar_texto(&mut s, " cobro(s) de comisión vencido(s) hoy ($");
        agregar_texto(&mut s, monto);
        agregar_texto(&mut s, "). ¡Bienvenido, ");
        agregar_texto(&mut s, usuario);
        agregar_texto(&mut s, "!");
        (s, true)
    } else {
        agregar_texto(&mut s, "Bienvenido, ");
        agregar_texto(&mut s, usuario);
        (s, false)
    }
}

} // verus!
