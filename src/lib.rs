//! Núcleo transaccional de un punto de venta: ventas con sus renglones y
//! descuentos, devoluciones parciales validadas contra lo comprado y lo ya
//! devuelto, y folios consecutivos por tipo de documento y por día. Incluye
//! los códigos de activación de la licencia y la ruta de la base local.

pub mod devolucion;
pub mod error;
pub mod fecha;
pub mod folio;
pub mod licencia;
pub mod modelos;
pub mod ruta;
pub mod texto;
pub mod venta;
