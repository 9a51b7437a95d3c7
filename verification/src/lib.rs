//! Verified core of the Moto Refaccionaria point of sale.

pub mod texto;
pub mod numero;
pub mod lww;
pub mod sincronizacion;
pub mod intercambio;
pub mod escpos;
pub mod impresoras;
pub mod externos;
pub mod emparejamiento;
pub mod autenticacion;
pub mod movil;
pub mod remoto;
pub mod caja;
pub mod ventas;
pub mod catalogo;
pub mod mantenimiento;
