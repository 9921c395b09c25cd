//! Existencias de los productos: cómo cambia el stock con cada movimiento y qué
//! cantidad se anota en el registro de movimientos.

use vstd::prelude::*;

verus! {

/// Stock tras sumar `delta` (negativo en una salida); nunca queda por debajo de cero.
pub open spec fn stock_tras(stock: int, delta: int) -> int {
    if stock + delta < 0 {
        0
    } else {
        stock + delta
    }
}

/// Aplica un movimiento de `delta` unidades al stock de un producto.
pub fn aplicar_movimiento(stock: i32, delta: i32) -> (r: i32)
    requires
        stock + delta <= i32::MAX,
    ensures
        r == stock_tras(stock as int, delta as int),
        r >= 0,
{
    let s: i64 = stock as i64 + delta as i64;
    if s < 0 {
        0
    } else {
        s as i32
    }
}

/// Cantidad que se anota en el registro de movimientos: el valor absoluto del cambio.
pub fn cantidad_movimiento(delta: i32) -> (r: i32)
    requires
        delta > i32::MIN,
    ensures
        r as int == if delta < 0 { -(delta as int) } else { delta as int },
        r >= 0,
{
    if delta < 0 {
        -delta
    } else {
        delta
    }
}

/// Cambio de stock que produce vender `cantidad` unidades.
pub fn delta_venta(cantidad: i32) -> (r: i32)
    requires
        cantidad > i32::MIN,
    ensures
        r == -cantidad,
{
    -cantidad
}

/// Cantidad que se anota al ajustar a mano el stock de `actual` a `nuevo`: la
/// diferencia en valor absoluto.
pub fn cantidad_ajuste(actual: i32, nuevo: i32) -> (r: i32)
    requires
        i32::MIN < nuevo - actual <= i32::MAX,
    ensures
        r as int == if nuevo >= actual { nuevo - actual } else { actual - nuevo },
{
    if nuevo >= actual {
        nuevo - actual
    } else {
        actual - nuevo
    }
}

/// El stock nunca queda negativo tras un movimiento.
pub proof fn ley_stock_no_negativo(stock: int, delta: int)
    ensures
        stock_tras(stock, delta) >= 0,
{
}

/// Vender `q` unidades de las que hay en existencia y cancelar luego la venta deja el
/// stock como estaba.
pub proof fn ley_cancelar_venta_restituye(stock: int, q: int)
    requires
        0 <= q <= stock,
    ensures
        stock_tras(stock_tras(stock, -q), q) == stock,
{
}

} // verus!
