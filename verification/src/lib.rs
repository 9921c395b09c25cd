use vstd::prelude::*;

pub mod seguridad;
pub mod texto;
pub mod numeros;
pub mod documentos;
pub mod empresa;
pub mod numeracion;
pub mod modelos;
pub mod migracion;
pub mod alertas;
pub mod confirmacion;
pub mod formularios;
pub mod red;
pub mod reportes;
pub mod acceso_qr;
pub mod inventario;
pub mod respaldos;
pub mod fechas;

verus! {

} // verus!
