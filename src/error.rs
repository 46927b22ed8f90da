//! Los errores de las operaciones de venta y devolución.
use vstd::prelude::*;

verus! {

/// Por qué una solicitud está mal formada.
#[derive(Clone, Debug, PartialEq, Eq)]
pub enum MotivoInvalido {
    /// La solicitud no trae ningún producto.
    SinProductos,
    /// El renglón `indice` pide una cantidad de cero o menos.
    CantidadNoPositiva { indice: usize },
    /// El renglón `indice` trae un descuento de más del cien por ciento.
    DescuentoExcesivo { indice: usize },
    /// El producto no forma parte de la venta.
    ProductoAjeno { producto_id: i32 },
    /// Los importes no caben en `u64` centavos.
    MontoExcesivo,
}

/// Los errores del núcleo de ventas y devoluciones.
#[derive(Clone, Debug, PartialEq, Eq)]
pub enum ErrorPos {
    /// No se pudo llegar al almacén de datos; la operación no empezó.
    Conexion { detalle: String },
    /// La solicitud está mal formada; se rechaza antes de escribir nada.
    SolicitudInvalida(MotivoInvalido),
    /// La devolución pediría más unidades de las que quedan por devolver.
    Politica {
        producto_id: i32,
        comprada: i32,
        ya_devuelta: i128,
        solicitada: i128,
        disponible: i128,
    },
    /// La venta no existe o no admite devoluciones.
    NoEncontrada,
    /// La serie de folios del día ya no tiene número siguiente.
    FoliosAgotados,
    /// Una escritura falló a medio camino; la transacción se revierte.
    Persistencia { detalle: String, folio_duplicado: bool },
}

/// Cuántas veces se repite una operación cuyo folio chocó con otro ya guardado.
pub const REINTENTOS_POR_FOLIO: u32 = 3;

impl ErrorPos {
    /// Si la operación que falló con este error, tras `intentos` intentos, se
    /// vuelve a intentar entera: solo cuando su folio chocó con otro ya
    /// guardado, y no más de `REINTENTOS_POR_FOLIO` veces.
    pub fn reintentable(&self, intentos: u32) -> (r: bool)
        ensures
            r == (*self matches ErrorPos::Persistencia { folio_duplicado: true, .. }
                && intentos <= REINTENTOS_POR_FOLIO),
    {
        match self {
            ErrorPos::Persistencia { folio_duplicado, .. } => *folio_duplicado && intentos
                <= REINTENTOS_POR_FOLIO,
            _ => false,
        }
    }
}

} // verus!
