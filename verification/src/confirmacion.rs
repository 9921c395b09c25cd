//! Diálogo de confirmación antes de eliminar un registro: qué se pidió borrar,
//! qué se borra al confirmar y qué se hace después.

use vstd::prelude::*;
use crate::texto::copiar;

verus! {

/// Tipo de registro que se pide eliminar.
#[derive(Debug, Clone, Copy, PartialEq, Eq, Structural)]
pub enum ConfirmTarget {
    Cliente,
    Proveedor,
    Producto,
    Venta,
    Gasto,
    Ubicacion,
    Maquina,
    Cuenta,
    Garantia,
    Credito,
    Ahorro,
    Asiento,
    PagoRecibido,
    PagoRealizado,
    Comision,
    Deuda,
    DeudaPago,
    Compra,
    Cotizacion,
    Retencion,
    Empleado,
    Rol,
    Activo,
    Depreciacion,
    Cierre,
    CuentaBancaria,
    MovimientoBancario,
    Arqueo,
}

/// Eliminación pendiente de confirmar: el registro y su tipo, si hay una.
pub struct Confirmacion {
    pub pendiente: Option<(i64, ConfirmTarget)>,
}

/// Qué hacer después de intentar una eliminación confirmada.
pub struct TrasEliminar {
    /// Volver a cargar la sección activa.
    pub recargar: bool,
    /// Volver a mostrar el detalle de la deuda seleccionada.
    pub ver_detalle_deuda: bool,
    /// Aviso para el usuario.
    pub aviso: Option<String>,
}

/// Eliminación pendiente tras pedir la del registro `id` de tipo `objetivo`.
pub open spec fn tras_pedir(id: i64, objetivo: ConfirmTarget) -> Option<(i64, ConfirmTarget)> {
    Some((id, objetivo))
}

/// Al confirmar se elimina lo pendiente, si lo hay, y no queda nada pendiente:
/// (lo que se elimina, lo que queda pendiente).
pub open spec fn tras_confirmar(p: Option<(i64, ConfirmTarget)>) -> (Option<(i64, ConfirmTarget)>, Option<(i64, ConfirmTarget)>) {
    (p, None)
}

/// Al cancelar no queda nada pendiente.
pub open spec fn tras_cancelar(p: Option<(i64, ConfirmTarget)>) -> Option<(i64, ConfirmTarget)> {
    None
}

impl Confirmacion {
    /// Sin nada pendiente.
    pub fn nueva() -> (r: Self)
        ensures
            r.pendiente is None,
    {
        Confirmacion { pendiente: None }
    }

    /// Pide confirmar la eliminación del registro `id` de tipo `objetivo`; reemplaza
    /// cualquier petición anterior.
    pub fn pedir(&mut self, id: i64, objetivo: ConfirmTarget)
        ensures
            final(self).pendiente == tras_pedir(id, objetivo),
    {
        self.pendiente = Some((id, objetivo));
    }

    /// El usuario responde que no: se olvida la petición.
    pub fn cancelar(&mut self)
        ensures
            final(self).pendiente == tras_cancelar(old(self).pendiente),
    {
        self.pendiente = None;
    }

    /// El usuario responde que sí: devuelve lo que hay que eliminar, si había algo
    /// pendiente, y deja de haberlo.
    pub fn confirmar(&mut self) -> (r: Option<(i64, ConfirmTarget)>)
        ensures
            (r, final(self).pendiente) == tras_confirmar(old(self).pendiente),
    {
        let r = self.pendiente;
        self.pendiente = None;
        r
    }
}

/// Tras eliminar un registro de tipo `objetivo`: si salió bien se recarga la sección,
/// se avisa y, si era un pago de una deuda, se vuelve a su detalle; si falló no se
/// hace nada.
pub fn tras_eliminar(objetivo: ConfirmTarget, exito: bool) -> (r: TrasEliminar)
    ensures
        r.recargar == exito,
        r.ver_detalle_deuda == (exito && objetivo == ConfirmTarget::DeudaPago),
        exito ==> (r.aviso matches Some(a) && a@ == "Registro eliminado correctamente"@),
        !exito ==> r.aviso is None,
{
    if exito {
        let deuda = match objetivo {
            ConfirmTarget::DeudaPago => true,
            _ => false,
        };
        TrasEliminar {
            recargar: true,
            ver_detalle_deuda: deuda,
            aviso: Some(copiar("Registro eliminado correctamente")),
        }
    } else {
        TrasEliminar { recargar: false, ver_detalle_deuda: false, aviso: None }
    }
}

/// Confirmar tras pedir elimina exactamente lo pedido; tras confirmar o cancelar,
/// una nueva confirmación no elimina nada.
pub proof fn ley_confirmar_lo_pedido(p: Option<(i64, ConfirmTarget)>, id: i64, objetivo: ConfirmTarget)
    ensures
        tras_confirmar(tras_pedir(id, objetivo)).0 == Some((id, objetivo)),
        tras_confirmar(tras_confirmar(p).1).0 is None,
        tras_confirmar(tras_cancelar(p)).0 is None,
{
}

} // verus!
