//! Ventas: importes de cada renglón del carrito, totales de la venta y el
//! registro completo que se guarda de una sola vez.
//!
//! Los importes van en centavos; los descuentos, en centésimas de punto
//! porcentual (1000 es el diez por ciento).
use vstd::prelude::*;
use crate::error::{ErrorPos, MotivoInvalido};
use crate::fecha::Fecha;
use crate::folio::{TipoDocumento, folio_siguiente, prefijo_del_dia, siguiente_folio};
use crate::texto::vistas;

verus! {

/// El descuento máximo: el cien por ciento, en centésimas de punto porcentual.
pub const DESCUENTO_MAXIMO: u32 = 10000;

/// Un renglón del carrito.
#[derive(Clone, Debug, PartialEq, Eq)]
pub struct ProductoVenta {
    pub id: i32,
    pub nombre: String,
    pub codigo: String,
    /// Precio unitario, en centavos.
    pub precio: u64,
    pub cantidad: i32,
    /// Descuento del renglón, en centésimas de punto porcentual.
    pub descuento_porcentaje: Option<u32>,
}

/// La forma de pago de una venta.
#[derive(Clone, Copy, Debug, PartialEq, Eq, Structural)]
pub enum MetodoPago {
    Efectivo,
    Tarjeta,
    Transferencia,
}

/// Un renglón de venta tal como se guarda.
#[derive(Clone, Copy, Debug, PartialEq, Eq, Structural)]
pub struct DetalleVenta {
    pub producto_id: i32,
    pub cantidad: i32,
    pub precio_unitario: u64,
    pub subtotal: u64,
    pub descuento_linea: u64,
    pub total_linea: u64,
}

/// Una venta completa, lista para guardarse de una sola vez con sus renglones.
/// Su estado es siempre el de venta completada.
#[derive(Clone, Debug, PartialEq, Eq)]
pub struct VentaNueva {
    pub folio: String,
    pub subtotal: u64,
    pub descuento: u64,
    /// El total que dio quien llamó; se guarda tal cual.
    pub total: u64,
    pub metodo_pago: MetodoPago,
    pub monto_recibido: Option<u64>,
    pub cambio: Option<u64>,
    pub usuario_id: i32,
    pub detalles: Vec<DetalleVenta>,
}

/// El descuento del renglón; cero si no trae.
pub open spec fn descuento_de(p: ProductoVenta) -> int {
    match p.descuento_porcentaje {
        Some(d) => d as int,
        None => 0,
    }
}

/// Precio unitario por cantidad.
pub open spec fn subtotal_linea(p: ProductoVenta) -> int {
    p.precio * p.cantidad
}

/// La parte descontada del subtotal, redondeada hacia abajo al centavo.
pub open spec fn descuento_linea(p: ProductoVenta) -> int {
    subtotal_linea(p) * descuento_de(p) / (DESCUENTO_MAXIMO as int)
}

/// Lo que se cobra por el renglón.
pub open spec fn total_linea(p: ProductoVenta) -> int {
    subtotal_linea(p) - descuento_linea(p)
}

/// El renglón guardado que corresponde a un renglón del carrito.
pub open spec fn detalle_de(d: DetalleVenta, p: ProductoVenta) -> bool {
    &&& d.producto_id == p.id
    &&& d.cantidad == p.cantidad
    &&& d.precio_unitario == p.precio
    &&& d.subtotal == subtotal_linea(p)
    &&& d.descuento_linea == descuento_linea(p)
    &&& d.total_linea == total_linea(p)
}

pub open spec fn suma_subtotales(ps: Seq<ProductoVenta>) -> int
    decreases ps.len(),
{
    if ps.len() == 0 {
        0
    } else {
        suma_subtotales(ps.drop_last()) + subtotal_linea(ps.last())
    }
}

pub open spec fn suma_descuentos(ps: Seq<ProductoVenta>) -> int
    decreases ps.len(),
{
    if ps.len() == 0 {
        0
    } else {
        suma_descuentos(ps.drop_last()) + descuento_linea(ps.last())
    }
}

pub open spec fn suma_totales(ps: Seq<ProductoVenta>) -> int
    decreases ps.len(),
{
    if ps.len() == 0 {
        0
    } else {
        suma_totales(ps.drop_last()) + total_linea(ps.last())
    }
}

/// La suma de lo que se cobra en los renglones guardados.
pub open spec fn suma_total_detalles(ds: Seq<DetalleVenta>) -> int
    decreases ds.len(),
{
    if ds.len() == 0 {
        0
    } else {
        suma_total_detalles(ds.drop_last()) + ds.last().total_linea
    }
}

/// Un renglón pide al menos una unidad y no descuenta más del cien por ciento.
pub open spec fn renglon_valido(p: ProductoVenta) -> bool {
    p.cantidad > 0 && descuento_de(p) <= DESCUENTO_MAXIMO
}

/// Por qué el renglón `i` no es válido.
pub open spec fn motivo_renglon(p: ProductoVenta, i: int) -> MotivoInvalido {
    if p.cantidad <= 0 {
        MotivoInvalido::CantidadNoPositiva { indice: i as usize }
    } else {
        MotivoInvalido::DescuentoExcesivo { indice: i as usize }
    }
}

/// El primer renglón no válido a partir de `desde`, si lo hay.
pub open spec fn primer_invalido(ps: Seq<ProductoVenta>, desde: int) -> Option<int>
    decreases ps.len() - desde,
{
    if desde < 0 || desde >= ps.len() {
        None
    } else if !renglon_valido(ps[desde]) {
        Some(desde)
    } else {
        primer_invalido(ps, desde + 1)
    }
}

/// Lo que se comprueba del carrito antes de calcular nada: que traiga renglones
/// y que todos sean válidos; si no, el motivo del rechazo.
pub open spec fn defecto_carrito(ps: Seq<ProductoVenta>) -> Option<MotivoInvalido> {
    if ps.len() == 0 {
        Some(MotivoInvalido::SinProductos)
    } else {
        match primer_invalido(ps, 0) {
            Some(i) => Some(motivo_renglon(ps[i], i)),
            None => None,
        }
    }
}

proof fn lema_primer_invalido(ps: Seq<ProductoVenta>, desde: int)
    requires
        0 <= desde <= ps.len(),
    ensures
        primer_invalido(ps, desde) is None <==> forall|k: int|
            desde <= k < ps.len() ==> renglon_valido(#[trigger] ps[k]),
        primer_invalido(ps, desde) matches Some(i) ==> desde <= i < ps.len() && !renglon_valido(
            ps[i],
        ),
    decreases ps.len() - desde,
{
    if desde < ps.len() {
        lema_primer_invalido(ps, desde + 1);
    }
}

proof fn lema_renglon(p: ProductoVenta)
    requires
        renglon_valido(p),
    ensures
        0 <= subtotal_linea(p),
        0 <= descuento_linea(p) <= subtotal_linea(p),
        0 <= total_linea(p) <= subtotal_linea(p),
{
    let s = subtotal_linea(p);
    let d = descuento_de(p);
    assert(0 <= s) by (nonlinear_arith)
        requires
            s == p.precio * p.cantidad,
            p.cantidad > 0,
    ;
    assert(0 <= s * d <= s * 10000) by (nonlinear_arith)
        requires
            0 <= s,
            0 <= d <= 10000,
    ;
    assert(s * d / 10000 <= s) by (nonlinear_arith)
        requires
            0 <= s * d <= s * 10000,
    ;
}

proof fn lema_sumas_prefijo(ps: Seq<ProductoVenta>, i: int)
    requires
        0 <= i <= ps.len(),
        forall|k: int| 0 <= k < ps.len() ==> renglon_valido(#[trigger] ps[k]),
    ensures
        0 <= suma_descuentos(ps.subrange(0, i)) <= suma_subtotales(ps.subrange(0, i)),
        suma_subtotales(ps.subrange(0, i)) <= suma_subtotales(ps),
    decreases ps.len(),
{
    if ps.len() > 0 {
        let c = ps.drop_last();
        lema_renglon(ps.last());
        if i < ps.len() {
            lema_sumas_prefijo(c, i);
            assert(c.subrange(0, i) =~= ps.subrange(0, i));
        } else {
            assert(ps.subrange(0, i) =~= ps);
            lema_sumas_prefijo(c, c.len() as int);
            assert(c.subrange(0, c.len() as int) =~= c);
        }
    } else {
        assert(ps.subrange(0, i) =~= ps);
    }
}

/// En toda venta, lo que se cobra en los renglones suma el subtotal menos el
/// descuento.
pub proof fn ley_totales_de_venta(ps: Seq<ProductoVenta>)
    ensures
        suma_totales(ps) == suma_subtotales(ps) - suma_descuentos(ps),
    decreases ps.len(),
{
    if ps.len() > 0 {
        ley_totales_de_venta(ps.drop_last());
    }
}

/// Los renglones guardados de un carrito suman lo mismo que sus totales.
proof fn lema_suma_detalles(ds: Seq<DetalleVenta>, ps: Seq<ProductoVenta>)
    requires
        ds.len() == ps.len(),
        forall|k: int| 0 <= k < ps.len() ==> detalle_de(#[trigger] ds[k], ps[k]),
    ensures
        suma_total_detalles(ds) == suma_totales(ps),
    decreases ps.len(),
{
    if ps.len() > 0 {
        lema_suma_detalles(ds.drop_last(), ps.drop_last());
        assert(detalle_de(ds[ds.len() - 1], ps[ps.len() - 1]));
    }
}

/// Calcula el renglón guardado de un renglón válido del carrito; `None` si su
/// subtotal no cabe en `u64`.
pub fn calcular_detalle(p: &ProductoVenta) -> (r: Option<DetalleVenta>)
    requires
        renglon_valido(*p),
    ensures
        subtotal_linea(*p) <= u64::MAX <==> r is Some,
        r matches Some(d) ==> detalle_de(d, *p),
{
    proof {
        lema_renglon(*p);
    }
    let precio = p.precio as u128;
    let cantidad = p.cantidad as u128;
    assert(precio * cantidad <= 0xffff_ffff_ffff_ffffu128 * 0x7fff_ffffu128) by (nonlinear_arith)
        requires
            precio <= 0xffff_ffff_ffff_ffffu128,
            cantidad <= 0x7fff_ffffu128,
    ;
    let subtotal: u128 = precio * cantidad;
    if subtotal > u64::MAX as u128 {
        return None;
    }
    let d: u128 = match p.descuento_porcentaje {
        Some(x) => x as u128,
        None => 0,
    };
    assert(subtotal * d <= subtotal * 10000) by (nonlinear_arith)
        requires
            d <= 10000,
    ;
    let descuento: u128 = subtotal * d / (DESCUENTO_MAXIMO as u128);
    Some(
        DetalleVenta {
            producto_id: p.id,
            cantidad: p.cantidad,
            precio_unitario: p.precio,
            subtotal: subtotal as u64,
            descuento_linea: descuento as u64,
            total_linea: (subtotal - descuento) as u64,
        },
    )
}

/// El primer motivo por el que se rechaza el carrito, si lo hay.
pub fn revisar_carrito(productos: &Vec<ProductoVenta>) -> (r: Option<MotivoInvalido>)
    ensures
        r == defecto_carrito(productos@),
{
    if productos.len() == 0 {
        return Some(MotivoInvalido::SinProductos);
    }
    let mut i: usize = 0;
    while i < productos.len()
        invariant
            0 <= i <= productos@.len(),
            primer_invalido(productos@, 0) == primer_invalido(productos@, i as int),
        decreases productos.len() - i,
    {
        let p = &productos[i];
        let fuera = match p.descuento_porcentaje {
            Some(x) => x > DESCUENTO_MAXIMO,
            None => false,
        };
        if p.cantidad <= 0 {
            return Some(MotivoInvalido::CantidadNoPositiva { indice: i });
        }
        if fuera {
            return Some(MotivoInvalido::DescuentoExcesivo { indice: i });
        }
        i = i + 1;
    }
    None
}

/// Arma la venta de un carrito.
///
/// Se rechaza, por este orden: el carrito vacío o con un renglón no válido
/// (el primero); los importes que no caben en `u64` centavos; el día cuya serie
/// de folios ya no tiene número siguiente. Si no, la venta lleva el folio que
/// sigue a los `folios_del_dia` de venta de `fecha`, un renglón guardado por
/// cada renglón del carrito y en su orden, el subtotal y el descuento sumados
/// de los renglones, y lo demás tal como se dio.
pub fn procesar_venta(
    productos: &Vec<ProductoVenta>,
    total: u64,
    metodo_pago: MetodoPago,
    monto_recibido: Option<u64>,
    cambio: Option<u64>,
    usuario_id: i32,
    fecha: &Fecha,
    folios_del_dia: &Vec<String>,
) -> (r: Result<VentaNueva, ErrorPos>)
    ensures
        defecto_carrito(productos@) matches Some(m) ==> r == Err::<VentaNueva, ErrorPos>(
            ErrorPos::SolicitudInvalida(m),
        ),
        defecto_carrito(productos@) is None && suma_subtotales(productos@) > u64::MAX ==> r
            == Err::<VentaNueva, ErrorPos>(ErrorPos::SolicitudInvalida(
            MotivoInvalido::MontoExcesivo,
        )),
        defecto_carrito(productos@) is None && suma_subtotales(productos@) <= u64::MAX
            && folio_siguiente(vistas(folios_del_dia@), prefijo_del_dia(TipoDocumento::Venta, *fecha))
            is None ==> r == Err::<VentaNueva, ErrorPos>(ErrorPos::FoliosAgotados),
        r is Ok <==> (defecto_carrito(productos@) is None && suma_subtotales(productos@)
            <= u64::MAX && folio_siguiente(
            vistas(folios_del_dia@),
            prefijo_del_dia(TipoDocumento::Venta, *fecha),
        ) is Some),
        r matches Ok(v) ==> {
            &&& v.folio@ == folio_siguiente(
                vistas(folios_del_dia@),
                prefijo_del_dia(TipoDocumento::Venta, *fecha),
            )->0
            &&& v.detalles@.len() == productos@.len()
            &&& forall|k: int|
                0 <= k < productos@.len() ==> detalle_de(#[trigger] v.detalles@[k], productos@[k])
            &&& v.subtotal == suma_subtotales(productos@)
            &&& v.descuento == suma_descuentos(productos@)
            &&& suma_total_detalles(v.detalles@) == v.subtotal - v.descuento
            &&& v.total == total
            &&& v.metodo_pago == metodo_pago
            &&& v.monto_recibido == monto_recibido
            &&& v.cambio == cambio
            &&& v.usuario_id == usuario_id
        },
{
    if let Some(m) = revisar_carrito(productos) {
        return Err(ErrorPos::SolicitudInvalida(m));
    }
    proof {
        lema_primer_invalido(productos@, 0);
    }
    let ghost ps = productos@;
    let mut detalles: Vec<DetalleVenta> = Vec::new();
    let mut subtotal: u64 = 0;
    let mut descuento: u64 = 0;
    let mut i: usize = 0;
    while i < productos.len()
        invariant
            ps == productos@,
            defecto_carrito(ps) is None,
            0 <= i <= ps.len(),
            forall|k: int| 0 <= k < ps.len() ==> renglon_valido(#[trigger] ps[k]),
            detalles@.len() == i,
            forall|k: int| 0 <= k < i ==> detalle_de(#[trigger] detalles@[k], ps[k]),
            subtotal == suma_subtotales(ps.subrange(0, i as int)),
            descuento == suma_descuentos(ps.subrange(0, i as int)),
        decreases ps.len() - i,
    {
        let ghost antes = ps.subrange(0, i as int);
        let ghost ahora = ps.subrange(0, i + 1);
        assert(ahora.drop_last() =~= antes);
        proof {
            lema_sumas_prefijo(ps, i + 1);
            lema_sumas_prefijo(ps, i as int);
        }
        let d = match calcular_detalle(&productos[i]) {
            Some(d) => d,
            None => {
                proof {
                    lema_renglon(ps[i as int]);
                }
                return Err(ErrorPos::SolicitudInvalida(MotivoInvalido::MontoExcesivo));
            },
        };
        if d.subtotal > u64::MAX - subtotal {
            return Err(ErrorPos::SolicitudInvalida(MotivoInvalido::MontoExcesivo));
        }
        subtotal = subtotal + d.subtotal;
        descuento = descuento + d.descuento_linea;
        detalles.push(d);
        i = i + 1;
    }
    assert(ps.subrange(0, ps.len() as int) =~= ps);
    let folio = match siguiente_folio(TipoDocumento::Venta, fecha, folios_del_dia) {
        Some(f) => f,
        None => {
            return Err(ErrorPos::FoliosAgotados);
        },
    };
    proof {
        lema_suma_detalles(detalles@, ps);
        ley_totales_de_venta(ps);
    }
    Ok(
        VentaNueva {
            folio,
            subtotal,
            descuento,
            total,
            metodo_pago,
            monto_recibido,
            cambio,
            usuario_id,
            detalles,
        },
    )
}

} // verus!
