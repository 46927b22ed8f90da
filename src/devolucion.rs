//! Devoluciones: validación de lo que se pide devolver contra lo comprado y lo
//! ya devuelto, cálculo del reembolso y el registro completo que se guarda de
//! una sola vez.
//!
//! Por cada renglón de una devolución aceptada se guarda el renglón, se suma
//! su cantidad a las existencias del producto y se anota el movimiento de
//! inventario con el folio de la devolución.
use vstd::prelude::*;
use crate::error::{ErrorPos, MotivoInvalido};
use crate::fecha::Fecha;
use crate::folio::{TipoDocumento, folio_siguiente, prefijo_del_dia, siguiente_folio};
use crate::texto::vistas;

verus! {

/// La venta original, tal como está guardada.
#[derive(Clone, Debug, PartialEq, Eq)]
pub struct VentaRegistrada {
    pub id: i32,
    pub folio: String,
    pub fecha_hora: String,
    /// Total de la venta, en centavos.
    pub total: u64,
    pub metodo_pago: String,
    /// Si la venta está completada; solo entonces admite devoluciones.
    pub completada: bool,
}

/// Un renglón de la venta original.
#[derive(Clone, Debug, PartialEq, Eq)]
pub struct LineaVendida {
    pub producto_id: i32,
    pub nombre: String,
    pub cantidad: i32,
    /// Precio unitario con que se vendió, en centavos.
    pub precio_unitario: u64,
    /// Lo que se cobró por el renglón, en centavos.
    pub total_linea: u64,
}

/// Un renglón de una devolución ya procesada contra la venta.
#[derive(Clone, Copy, Debug, PartialEq, Eq, Structural)]
pub struct LineaDevuelta {
    pub producto_id: i32,
    pub cantidad: i32,
}

/// Un producto que se pide devolver.
#[derive(Clone, Copy, Debug, PartialEq, Eq, Structural)]
pub struct ProductoDevolver {
    pub producto_id: i32,
    pub cantidad: i32,
}

/// Lo que hay guardado cuando se procesa una devolución: la venta buscada por
/// su folio (si existe), sus renglones, los renglones de las devoluciones ya
/// procesadas contra ella y los folios de devolución del día.
#[derive(Clone, Debug, PartialEq, Eq)]
pub struct ContextoDevolucion {
    pub venta: Option<VentaRegistrada>,
    pub lineas: Vec<LineaVendida>,
    pub devueltas: Vec<LineaDevuelta>,
    pub folios_del_dia: Vec<String>,
}

/// Un renglón de devolución tal como se guarda.
#[derive(Clone, Copy, Debug, PartialEq, Eq, Structural)]
pub struct DetalleDevolucion {
    pub producto_id: i32,
    pub cantidad_devuelta: i32,
    /// El precio unitario de la venta original, en centavos.
    pub precio_unitario: u64,
    pub subtotal: u64,
}

/// Una devolución completa, lista para guardarse de una sola vez. Su estado es
/// siempre el de devolución procesada.
#[derive(Clone, Debug, PartialEq, Eq)]
pub struct DevolucionNueva {
    pub venta_id: i32,
    pub folio_devolucion: String,
    /// La suma de los subtotales de los renglones, en centavos.
    pub monto_reembolsado: u64,
    pub motivo: String,
    pub usuario_id: i32,
    pub detalles: Vec<DetalleDevolucion>,
}

/// Un renglón de la venta visto para devolver: lo comprado y lo que aún se
/// puede devolver.
#[derive(Clone, Debug, PartialEq, Eq)]
pub struct ProductoVentaDetalle {
    pub producto_id: i32,
    pub nombre: String,
    pub cantidad: i32,
    pub precio_unitario: u64,
    pub subtotal: u64,
    /// Lo comprado menos lo ya devuelto del producto.
    pub disponible: i128,
}

/// Una venta vista para devolver.
#[derive(Clone, Debug, PartialEq, Eq)]
pub struct VentaParaDevolucion {
    pub venta_id: i32,
    pub folio: String,
    pub fecha_hora: String,
    pub total: u64,
    pub metodo_pago: String,
    pub productos: Vec<ProductoVentaDetalle>,
}

/// El renglón visto para devolver que corresponde a un renglón de la venta.
pub open spec fn detalle_para_devolver(
    d: ProductoVentaDetalle,
    l: LineaVendida,
    devueltas: Seq<LineaDevuelta>,
) -> bool {
    &&& d.producto_id == l.producto_id
    &&& d.nombre@ == l.nombre@
    &&& d.cantidad == l.cantidad
    &&& d.precio_unitario == l.precio_unitario
    &&& d.subtotal == l.total_linea
    &&& d.disponible == l.cantidad - devuelto(devueltas, l.producto_id)
}

/// El primer renglón de la venta, a partir de `desde`, que es del producto.
pub open spec fn linea_de(lineas: Seq<LineaVendida>, producto_id: i32, desde: int) -> Option<int>
    decreases lineas.len() - desde,
{
    if desde < 0 || desde >= lineas.len() {
        None
    } else if lineas[desde].producto_id == producto_id {
        Some(desde)
    } else {
        linea_de(lineas, producto_id, desde + 1)
    }
}

/// Cuántas unidades del producto se compraron: las del primer renglón suyo.
pub open spec fn comprada(lineas: Seq<LineaVendida>, producto_id: i32) -> Option<int> {
    match linea_de(lineas, producto_id, 0) {
        Some(k) => Some(lineas[k].cantidad as int),
        None => None,
    }
}

/// El precio unitario con que se vendió el producto: el de su primer renglón.
pub open spec fn precio_vendido(lineas: Seq<LineaVendida>, producto_id: i32) -> int {
    match linea_de(lineas, producto_id, 0) {
        Some(k) => lineas[k].precio_unitario as int,
        None => 0,
    }
}

/// Cuántas unidades del producto se han devuelto ya.
pub open spec fn devuelto(ds: Seq<LineaDevuelta>, producto_id: i32) -> int
    decreases ds.len(),
{
    if ds.len() == 0 {
        0
    } else {
        devuelto(ds.drop_last(), producto_id) + if ds.last().producto_id == producto_id {
            ds.last().cantidad as int
        } else {
            0
        }
    }
}

/// Cuántas unidades del producto se piden en `ps`.
pub open spec fn solicitado(ps: Seq<ProductoDevolver>, producto_id: i32) -> int
    decreases ps.len(),
{
    if ps.len() == 0 {
        0
    } else {
        solicitado(ps.drop_last(), producto_id) + if ps.last().producto_id == producto_id {
            ps.last().cantidad as int
        } else {
            0
        }
    }
}

/// El primer renglón pedido, a partir de `desde`, con cantidad de cero o menos.
pub open spec fn primera_no_positiva(ps: Seq<ProductoDevolver>, desde: int) -> Option<int>
    decreases ps.len() - desde,
{
    if desde < 0 || desde >= ps.len() {
        None
    } else if ps[desde].cantidad <= 0 {
        Some(desde)
    } else {
        primera_no_positiva(ps, desde + 1)
    }
}

/// Lo que se comprueba de la solicitud antes de leer nada: que traiga
/// productos y que cada uno pida al menos una unidad.
pub open spec fn defecto_solicitud(ps: Seq<ProductoDevolver>) -> Option<MotivoInvalido> {
    if ps.len() == 0 {
        Some(MotivoInvalido::SinProductos)
    } else {
        match primera_no_positiva(ps, 0) {
            Some(i) => Some(MotivoInvalido::CantidadNoPositiva { indice: i as usize }),
            None => None,
        }
    }
}

/// Por qué se rechaza el renglón `i` de lo pedido, si se rechaza: el producto
/// no es de la venta, o lo ya devuelto más lo pedido hasta ese renglón pasa de
/// lo comprado.
pub open spec fn rechazo_renglon(
    lineas: Seq<LineaVendida>,
    devueltas: Seq<LineaDevuelta>,
    ps: Seq<ProductoDevolver>,
    i: int,
) -> Option<ErrorPos> {
    let id = ps[i].producto_id;
    match comprada(lineas, id) {
        None => Some(ErrorPos::SolicitudInvalida(MotivoInvalido::ProductoAjeno { producto_id: id })),
        Some(c) => {
            let ya = devuelto(devueltas, id);
            let pedida = solicitado(ps.subrange(0, i + 1), id);
            if ya + pedida > c {
                Some(
                    ErrorPos::Politica {
                        producto_id: id,
                        comprada: c as i32,
                        ya_devuelta: ya as i128,
                        solicitada: pedida as i128,
                        disponible: (c - ya) as i128,
                    },
                )
            } else {
                None
            }
        },
    }
}

/// El rechazo del primer renglón rechazado a partir de `desde`, si lo hay.
pub open spec fn primer_rechazo(
    lineas: Seq<LineaVendida>,
    devueltas: Seq<LineaDevuelta>,
    ps: Seq<ProductoDevolver>,
    desde: int,
) -> Option<ErrorPos>
    decreases ps.len() - desde,
{
    if desde < 0 || desde >= ps.len() {
        None
    } else if rechazo_renglon(lineas, devueltas, ps, desde) is Some {
        rechazo_renglon(lineas, devueltas, ps, desde)
    } else {
        primer_rechazo(lineas, devueltas, ps, desde + 1)
    }
}

/// Por qué lo pedido no se puede devolver de esa venta, si no se puede:
/// solicitud mal formada, producto ajeno a la venta o más de lo que queda.
pub open spec fn rechazo_devolucion(
    lineas: Seq<LineaVendida>,
    devueltas: Seq<LineaDevuelta>,
    ps: Seq<ProductoDevolver>,
) -> Option<ErrorPos> {
    match defecto_solicitud(ps) {
        Some(m) => Some(ErrorPos::SolicitudInvalida(m)),
        None => primer_rechazo(lineas, devueltas, ps, 0),
    }
}

/// Lo que se reembolsa por lo pedido: precio de venta por cantidad, sumado.
pub open spec fn reembolso(lineas: Seq<LineaVendida>, ps: Seq<ProductoDevolver>) -> int
    decreases ps.len(),
{
    if ps.len() == 0 {
        0
    } else {
        reembolso(lineas, ps.drop_last()) + precio_vendido(lineas, ps.last().producto_id)
            * ps.last().cantidad
    }
}

/// El renglón guardado que corresponde a un producto pedido.
pub open spec fn detalle_devuelto(
    d: DetalleDevolucion,
    lineas: Seq<LineaVendida>,
    p: ProductoDevolver,
) -> bool {
    &&& d.producto_id == p.producto_id
    &&& d.cantidad_devuelta == p.cantidad
    &&& d.precio_unitario == precio_vendido(lineas, p.producto_id)
    &&& d.subtotal == precio_vendido(lineas, p.producto_id) * p.cantidad
}

/// Si la venta existe y admite devoluciones.
pub open spec fn venta_devolvible(venta: Option<VentaRegistrada>) -> bool {
    venta matches Some(v) && v.completada
}

proof fn lema_primera_no_positiva(ps: Seq<ProductoDevolver>, desde: int)
    requires
        0 <= desde <= ps.len(),
    ensures
        primera_no_positiva(ps, desde) is None <==> forall|k: int|
            desde <= k < ps.len() ==> (#[trigger] ps[k]).cantidad > 0,
    decreases ps.len() - desde,
{
    if desde < ps.len() {
        lema_primera_no_positiva(ps, desde + 1);
    }
}

proof fn lema_primer_rechazo(
    lineas: Seq<LineaVendida>,
    devueltas: Seq<LineaDevuelta>,
    ps: Seq<ProductoDevolver>,
    desde: int,
)
    requires
        0 <= desde <= ps.len(),
    ensures
        primer_rechazo(lineas, devueltas, ps, desde) is None <==> forall|k: int|
            desde <= k < ps.len() ==> (#[trigger] rechazo_renglon(lineas, devueltas, ps, k)) is None,
    decreases ps.len() - desde,
{
    if desde < ps.len() {
        lema_primer_rechazo(lineas, devueltas, ps, desde + 1);
    }
}

proof fn lema_linea_de(lineas: Seq<LineaVendida>, producto_id: i32, desde: int)
    requires
        0 <= desde,
    ensures
        linea_de(lineas, producto_id, desde) matches Some(k) ==> desde <= k < lineas.len()
            && lineas[k].producto_id == producto_id,
        linea_de(lineas, producto_id, desde) is None ==> forall|k: int|
            desde <= k < lineas.len() ==> (#[trigger] lineas[k]).producto_id != producto_id,
    decreases lineas.len() - desde,
{
    if desde < lineas.len() {
        lema_linea_de(lineas, producto_id, desde + 1);
    }
}

proof fn lema_reembolso_prefijo(lineas: Seq<LineaVendida>, ps: Seq<ProductoDevolver>, i: int)
    requires
        0 <= i <= ps.len(),
        forall|k: int| 0 <= k < ps.len() ==> (#[trigger] ps[k]).cantidad > 0,
    ensures
        0 <= reembolso(lineas, ps.subrange(0, i)) <= reembolso(lineas, ps),
    decreases ps.len(),
{
    if ps.len() > 0 {
        let c = ps.drop_last();
        let t = precio_vendido(lineas, ps.last().producto_id) * ps.last().cantidad;
        assert(t >= 0) by (nonlinear_arith)
            requires
                t == precio_vendido(lineas, ps.last().producto_id) * ps.last().cantidad,
                precio_vendido(lineas, ps.last().producto_id) >= 0,
                ps.last().cantidad > 0,
        ;
        if i < ps.len() {
            lema_reembolso_prefijo(lineas, c, i);
            assert(c.subrange(0, i) =~= ps.subrange(0, i));
        } else {
            assert(ps.subrange(0, i) =~= ps);
            lema_reembolso_prefijo(lineas, c, c.len() as int);
            assert(c.subrange(0, c.len() as int) =~= c);
        }
    } else {
        assert(ps.subrange(0, i) =~= ps);
    }
}

/// Lo devuelto de la venta está en regla: de ningún producto suyo se ha
/// devuelto más de lo comprado, y nada de lo que no es suyo.
pub open spec fn devoluciones_en_regla(lineas: Seq<LineaVendida>, devueltas: Seq<LineaDevuelta>) -> bool {
    forall|id: i32|
        match #[trigger] comprada(lineas, id) {
            Some(c) => devuelto(devueltas, id) <= c,
            None => devuelto(devueltas, id) == 0,
        }
}

/// Los renglones devueltos que deja una devolución de `ps`.
pub open spec fn como_devueltas(ps: Seq<ProductoDevolver>) -> Seq<LineaDevuelta> {
    ps.map_values(|p: ProductoDevolver| LineaDevuelta { producto_id: p.producto_id, cantidad: p.cantidad })
}

/// Lo devuelto tras intentar devolver `ps`: si se acepta, sus renglones se
/// suman a los devueltos; si se rechaza, todo queda igual.
pub open spec fn tras_devolucion(
    lineas: Seq<LineaVendida>,
    devueltas: Seq<LineaDevuelta>,
    ps: Seq<ProductoDevolver>,
) -> Seq<LineaDevuelta> {
    if rechazo_devolucion(lineas, devueltas, ps) is None {
        devueltas + como_devueltas(ps)
    } else {
        devueltas
    }
}

/// Lo devuelto tras una serie de intentos de devolución contra la venta, uno
/// tras otro.
pub open spec fn tras_intentos(
    lineas: Seq<LineaVendida>,
    devueltas: Seq<LineaDevuelta>,
    intentos: Seq<Seq<ProductoDevolver>>,
) -> Seq<LineaDevuelta>
    decreases intentos.len(),
{
    if intentos.len() == 0 {
        devueltas
    } else {
        tras_devolucion(lineas, tras_intentos(lineas, devueltas, intentos.drop_last()), intentos.last())
    }
}

proof fn lema_devuelto_concat(a: Seq<LineaDevuelta>, b: Seq<LineaDevuelta>, id: i32)
    ensures
        devuelto(a + b, id) == devuelto(a, id) + devuelto(b, id),
    decreases b.len(),
{
    if b.len() == 0 {
        assert(a + b =~= a);
    } else {
        lema_devuelto_concat(a, b.drop_last(), id);
        assert((a + b).drop_last() =~= a + b.drop_last());
        assert((a + b).last() == b.last());
    }
}

proof fn lema_devuelto_de_solicitud(ps: Seq<ProductoDevolver>, id: i32)
    ensures
        devuelto(como_devueltas(ps), id) == solicitado(ps, id),
    decreases ps.len(),
{
    if ps.len() > 0 {
        lema_devuelto_de_solicitud(ps.drop_last(), id);
        assert(como_devueltas(ps).drop_last() =~= como_devueltas(ps.drop_last()));
    }
}

/// Si ningún renglón de `ps` se rechaza, lo ya devuelto más lo pedido en los
/// primeros `n` renglones queda, producto por producto, dentro de lo comprado.
proof fn lema_prefijo_en_regla(
    lineas: Seq<LineaVendida>,
    devueltas: Seq<LineaDevuelta>,
    ps: Seq<ProductoDevolver>,
    n: int,
    id: i32,
)
    requires
        devoluciones_en_regla(lineas, devueltas),
        forall|k: int|
            0 <= k < ps.len() ==> (#[trigger] rechazo_renglon(lineas, devueltas, ps, k)) is None,
        0 <= n <= ps.len(),
    ensures
        match comprada(lineas, id) {
            Some(c) => devuelto(devueltas, id) + solicitado(ps.subrange(0, n), id) <= c,
            None => solicitado(ps.subrange(0, n), id) == 0,
        },
    decreases n,
{
    if n == 0 {
        assert(ps.subrange(0, 0) =~= Seq::<ProductoDevolver>::empty());
        assert(match comprada(lineas, id) {
            Some(c) => devuelto(devueltas, id) <= c,
            None => devuelto(devueltas, id) == 0,
        });
    } else {
        lema_prefijo_en_regla(lineas, devueltas, ps, n - 1, id);
        assert(ps.subrange(0, n).drop_last() =~= ps.subrange(0, n - 1));
        assert(rechazo_renglon(lineas, devueltas, ps, n - 1) is None);
    }
}

/// Una devolución, aceptada o rechazada, deja en regla lo devuelto de una
/// venta que estaba en regla.
pub proof fn ley_devolucion_en_regla(
    lineas: Seq<LineaVendida>,
    devueltas: Seq<LineaDevuelta>,
    ps: Seq<ProductoDevolver>,
)
    requires
        devoluciones_en_regla(lineas, devueltas),
    ensures
        devoluciones_en_regla(lineas, tras_devolucion(lineas, devueltas, ps)),
{
    if rechazo_devolucion(lineas, devueltas, ps) is None {
        lema_primer_rechazo(lineas, devueltas, ps, 0);
        let nuevas = devueltas + como_devueltas(ps);
        assert forall|id: i32|
            match #[trigger] comprada(lineas, id) {
                Some(c) => devuelto(nuevas, id) <= c,
                None => devuelto(nuevas, id) == 0,
            } by {
            lema_prefijo_en_regla(lineas, devueltas, ps, ps.len() as int, id);
            assert(ps.subrange(0, ps.len() as int) =~= ps);
            lema_devuelto_concat(devueltas, como_devueltas(ps), id);
            lema_devuelto_de_solicitud(ps, id);
            assert(match comprada(lineas, id) {
                Some(c) => devuelto(devueltas, id) <= c,
                None => devuelto(devueltas, id) == 0,
            });
        }
    }
}

/// Por larga que sea la serie de devoluciones contra una venta, de ningún
/// producto se devuelve en total más de lo comprado.
pub proof fn ley_intentos_en_regla(
    lineas: Seq<LineaVendida>,
    devueltas: Seq<LineaDevuelta>,
    intentos: Seq<Seq<ProductoDevolver>>,
)
    requires
        devoluciones_en_regla(lineas, devueltas),
    ensures
        devoluciones_en_regla(lineas, tras_intentos(lineas, devueltas, intentos)),
    decreases intentos.len(),
{
    if intentos.len() > 0 {
        ley_intentos_en_regla(lineas, devueltas, intentos.drop_last());
        ley_devolucion_en_regla(
            lineas,
            tras_intentos(lineas, devueltas, intentos.drop_last()),
            intentos.last(),
        );
    }
}

proof fn lema_primer_rechazo_es(
    lineas: Seq<LineaVendida>,
    devueltas: Seq<LineaDevuelta>,
    ps: Seq<ProductoDevolver>,
    desde: int,
) -> (k: int)
    requires
        0 <= desde,
        primer_rechazo(lineas, devueltas, ps, desde) is Some,
    ensures
        desde <= k < ps.len(),
        primer_rechazo(lineas, devueltas, ps, desde) == rechazo_renglon(lineas, devueltas, ps, k),
    decreases ps.len() - desde,
{
    if rechazo_renglon(lineas, devueltas, ps, desde) is Some {
        desde
    } else {
        lema_primer_rechazo_es(lineas, devueltas, ps, desde + 1)
    }
}

/// Pedir de un producto de la venta más de lo que queda por devolver se
/// rechaza siempre por la política de devoluciones, y lo devuelto queda igual.
pub proof fn ley_exceso_rechazado(
    lineas: Seq<LineaVendida>,
    devueltas: Seq<LineaDevuelta>,
    ps: Seq<ProductoDevolver>,
    id: i32,
)
    requires
        devoluciones_en_regla(lineas, devueltas),
        defecto_solicitud(ps) is None,
        forall|k: int| 0 <= k < ps.len() ==> (#[trigger] comprada(lineas, ps[k].producto_id)) is Some,
        comprada(lineas, id) is Some,
        devuelto(devueltas, id) + solicitado(ps, id) > comprada(lineas, id)->0,
    ensures
        rechazo_devolucion(lineas, devueltas, ps) matches Some(ErrorPos::Politica { .. }),
        tras_devolucion(lineas, devueltas, ps) == devueltas,
{
    if primer_rechazo(lineas, devueltas, ps, 0) is None {
        lema_primer_rechazo(lineas, devueltas, ps, 0);
        lema_prefijo_en_regla(lineas, devueltas, ps, ps.len() as int, id);
        assert(ps.subrange(0, ps.len() as int) =~= ps);
    } else {
        let k = lema_primer_rechazo_es(lineas, devueltas, ps, 0);
        assert(comprada(lineas, ps[k].producto_id) is Some);
    }
}

/// El primer motivo por el que la solicitud está mal formada, si lo hay.
pub fn revisar_solicitud(productos: &Vec<ProductoDevolver>) -> (r: Option<MotivoInvalido>)
    ensures
        r == defecto_solicitud(productos@),
{
    if productos.len() == 0 {
        return Some(MotivoInvalido::SinProductos);
    }
    let mut i: usize = 0;
    while i < productos.len()
        invariant
            0 <= i <= productos@.len(),
            primera_no_positiva(productos@, 0) == primera_no_positiva(productos@, i as int),
        decreases productos.len() - i,
    {
        if productos[i].cantidad <= 0 {
            return Some(MotivoInvalido::CantidadNoPositiva { indice: i });
        }
        i = i + 1;
    }
    None
}

/// El primer renglón de la venta que es del producto.
pub fn buscar_linea(lineas: &Vec<LineaVendida>, producto_id: i32) -> (r: Option<usize>)
    ensures
        r matches Some(k) ==> linea_de(lineas@, producto_id, 0) == Some(k as int) && k
            < lineas@.len() && lineas@[k as int].producto_id == producto_id,
        r is None ==> linea_de(lineas@, producto_id, 0) is None,
{
    proof {
        lema_linea_de(lineas@, producto_id, 0);
    }
    let mut i: usize = 0;
    while i < lineas.len()
        invariant
            0 <= i <= lineas@.len(),
            linea_de(lineas@, producto_id, 0) == linea_de(lineas@, producto_id, i as int),
        decreases lineas.len() - i,
    {
        if lineas[i].producto_id == producto_id {
            return Some(i);
        }
        i = i + 1;
    }
    None
}

/// Cuántas unidades del producto se han devuelto ya.
pub fn contar_devuelto(devueltas: &Vec<LineaDevuelta>, producto_id: i32) -> (r: i128)
    ensures
        r == devuelto(devueltas@, producto_id),
        -0x8000_0000_0000_0000_0000_0000 <= r <= 0x8000_0000_0000_0000_0000_0000,
{
    let mut acc: i128 = 0;
    let mut i: usize = 0;
    while i < devueltas.len()
        invariant
            0 <= i <= devueltas@.len(),
            acc == devuelto(devueltas@.subrange(0, i as int), producto_id),
            -(i as int) * 0x8000_0000 <= acc <= (i as int) * 0x8000_0000,
        decreases devueltas.len() - i,
    {
        assert(devueltas@.subrange(0, i + 1).drop_last() =~= devueltas@.subrange(0, i as int));
        assert((i as int) * 0x8000_0000 < 0x8000_0000_0000_0000_0000_0000) by (nonlinear_arith)
            requires
                i < 0x1_0000_0000_0000_0000int,
        ;
        let l = devueltas[i];
        if l.producto_id == producto_id {
            acc = acc + l.cantidad as i128;
        }
        i = i + 1;
    }
    assert(devueltas@.subrange(0, i as int) =~= devueltas@);
    assert((i as int) * 0x8000_0000 <= 0x8000_0000_0000_0000_0000_0000) by (nonlinear_arith)
        requires
            i < 0x1_0000_0000_0000_0000int,
    ;
    acc
}

/// Cuántas unidades del producto se piden en los primeros `hasta` renglones.
pub fn contar_solicitado(productos: &Vec<ProductoDevolver>, hasta: usize, producto_id: i32) -> (r:
    i128)
    requires
        hasta <= productos@.len(),
    ensures
        r == solicitado(productos@.subrange(0, hasta as int), producto_id),
        -0x8000_0000_0000_0000_0000_0000 <= r <= 0x8000_0000_0000_0000_0000_0000,
{
    let mut acc: i128 = 0;
    let mut i: usize = 0;
    while i < hasta
        invariant
            0 <= i <= hasta <= productos@.len(),
            acc == solicitado(productos@.subrange(0, i as int), producto_id),
            -(i as int) * 0x8000_0000 <= acc <= (i as int) * 0x8000_0000,
        decreases hasta - i,
    {
        assert(productos@.subrange(0, i + 1).drop_last() =~= productos@.subrange(0, i as int));
        assert((i as int) * 0x8000_0000 < 0x8000_0000_0000_0000_0000_0000) by (nonlinear_arith)
            requires
                i < 0x1_0000_0000_0000_0000int,
        ;
        let p = productos[i];
        if p.producto_id == producto_id {
            acc = acc + p.cantidad as i128;
        }
        i = i + 1;
    }
    assert((i as int) * 0x8000_0000 <= 0x8000_0000_0000_0000_0000_0000) by (nonlinear_arith)
        requires
            i < 0x1_0000_0000_0000_0000int,
    ;
    acc
}

/// El primer rechazo de los renglones pedidos frente a la venta y a lo ya
/// devuelto, si lo hay.
pub fn revisar_renglones(
    lineas: &Vec<LineaVendida>,
    devueltas: &Vec<LineaDevuelta>,
    productos: &Vec<ProductoDevolver>,
) -> (r: Option<ErrorPos>)
    ensures
        r == primer_rechazo(lineas@, devueltas@, productos@, 0),
{
    let mut i: usize = 0;
    while i < productos.len()
        invariant
            0 <= i <= productos@.len(),
            primer_rechazo(lineas@, devueltas@, productos@, 0) == primer_rechazo(
                lineas@,
                devueltas@,
                productos@,
                i as int,
            ),
        decreases productos.len() - i,
    {
        let id = productos[i].producto_id;
        match buscar_linea(lineas, id) {
            None => {
                return Some(
                    ErrorPos::SolicitudInvalida(MotivoInvalido::ProductoAjeno { producto_id: id }),
                );
            },
            Some(k) => {
                let c = lineas[k].cantidad;
                let ya = contar_devuelto(devueltas, id);
                let pedida = contar_solicitado(productos, i + 1, id);
                if ya + pedida > c as i128 {
                    return Some(
                        ErrorPos::Politica {
                            producto_id: id,
                            comprada: c,
                            ya_devuelta: ya,
                            solicitada: pedida,
                            disponible: c as i128 - ya,
                        },
                    );
                }
            },
        }
        i = i + 1;
    }
    None
}

/// Arma la devolución de `productos` contra la venta del `contexto`.
///
/// Se rechaza, por este orden: la solicitud sin productos o con una cantidad de
/// cero o menos (la primera); la venta que no existe o no está completada; el
/// primer renglón cuyo producto no es de la venta, o con el que lo ya devuelto
/// más lo pedido de ese producto hasta ese renglón pasaría de lo comprado; el
/// reembolso que no cabe en `u64` centavos; el día cuya serie de folios de
/// devolución ya no tiene número siguiente. Si no, la devolución lleva el folio
/// que sigue a los del día, un renglón por producto pedido y en su orden con el
/// precio de la venta original, y el reembolso sumado de esos renglones.
pub fn procesar_devolucion(
    contexto: &ContextoDevolucion,
    productos: &Vec<ProductoDevolver>,
    motivo: &String,
    usuario_id: i32,
    fecha: &Fecha,
) -> (r: Result<DevolucionNueva, ErrorPos>)
    ensures
        defecto_solicitud(productos@) matches Some(m) ==> r == Err::<DevolucionNueva, ErrorPos>(
            ErrorPos::SolicitudInvalida(m),
        ),
        defecto_solicitud(productos@) is None && !venta_devolvible(contexto.venta) ==> r == Err::<
            DevolucionNueva,
            ErrorPos,
        >(ErrorPos::NoEncontrada),
        defecto_solicitud(productos@) is None && venta_devolvible(contexto.venta) && primer_rechazo(
            contexto.lineas@,
            contexto.devueltas@,
            productos@,
            0,
        ) is Some ==> r == Err::<DevolucionNueva, ErrorPos>(
            primer_rechazo(contexto.lineas@, contexto.devueltas@, productos@, 0)->0,
        ),
        rechazo_devolucion(contexto.lineas@, contexto.devueltas@, productos@) is None
            && venta_devolvible(contexto.venta) && reembolso(contexto.lineas@, productos@)
            > u64::MAX ==> r == Err::<DevolucionNueva, ErrorPos>(
            ErrorPos::SolicitudInvalida(MotivoInvalido::MontoExcesivo),
        ),
        rechazo_devolucion(contexto.lineas@, contexto.devueltas@, productos@) is None
            && venta_devolvible(contexto.venta) && reembolso(contexto.lineas@, productos@)
            <= u64::MAX && folio_siguiente(
            vistas(contexto.folios_del_dia@),
            prefijo_del_dia(TipoDocumento::Devolucion, *fecha),
        ) is None ==> r == Err::<DevolucionNueva, ErrorPos>(ErrorPos::FoliosAgotados),
        r is Ok <==> (rechazo_devolucion(contexto.lineas@, contexto.devueltas@, productos@) is None
            && venta_devolvible(contexto.venta) && reembolso(contexto.lineas@, productos@)
            <= u64::MAX && folio_siguiente(
            vistas(contexto.folios_del_dia@),
            prefijo_del_dia(TipoDocumento::Devolucion, *fecha),
        ) is Some),
        r matches Ok(d) ==> {
            &&& d.venta_id == contexto.venta->0.id
            &&& d.folio_devolucion@ == folio_siguiente(
                vistas(contexto.folios_del_dia@),
                prefijo_del_dia(TipoDocumento::Devolucion, *fecha),
            )->0
            &&& d.detalles@.len() == productos@.len()
            &&& forall|k: int|
                0 <= k < productos@.len() ==> detalle_devuelto(
                    #[trigger] d.detalles@[k],
                    contexto.lineas@,
                    productos@[k],
                )
            &&& d.monto_reembolsado == reembolso(contexto.lineas@, productos@)
            &&& d.motivo@ == motivo@
            &&& d.usuario_id == usuario_id
        },
{
    if let Some(m) = revisar_solicitud(productos) {
        return Err(ErrorPos::SolicitudInvalida(m));
    }
    let venta_id = match &contexto.venta {
        Some(v) => {
            if !v.completada {
                return Err(ErrorPos::NoEncontrada);
            }
            v.id
        },
        None => {
            return Err(ErrorPos::NoEncontrada);
        },
    };
    if let Some(e) = revisar_renglones(&contexto.lineas, &contexto.devueltas, productos) {
        return Err(e);
    }
    let ghost lineas = contexto.lineas@;
    let ghost ps = productos@;
    proof {
        lema_primera_no_positiva(ps, 0);
        lema_primer_rechazo(lineas, contexto.devueltas@, ps, 0);
    }
    let mut detalles: Vec<DetalleDevolucion> = Vec::new();
    let mut monto: u64 = 0;
    let mut i: usize = 0;
    while i < productos.len()
        invariant
            ps == productos@,
            lineas == contexto.lineas@,
            venta_devolvible(contexto.venta),
            venta_id == contexto.venta->0.id,
            rechazo_devolucion(lineas, contexto.devueltas@, ps) is None,
            forall|k: int| 0 <= k < ps.len() ==> (#[trigger] ps[k]).cantidad > 0,
            forall|k: int|
                0 <= k < ps.len() ==> (#[trigger] rechazo_renglon(
                    lineas,
                    contexto.devueltas@,
                    ps,
                    k,
                )) is None,
            0 <= i <= ps.len(),
            detalles@.len() == i,
            forall|k: int|
                0 <= k < i ==> detalle_devuelto(#[trigger] detalles@[k], lineas, ps[k]),
            monto == reembolso(lineas, ps.subrange(0, i as int)),
        decreases ps.len() - i,
    {
        let p = productos[i];
        assert(rechazo_renglon(lineas, contexto.devueltas@, ps, i as int) is None);
        let k = match buscar_linea(&contexto.lineas, p.producto_id) {
            Some(k) => k,
            None => {
                return Err(ErrorPos::SolicitudInvalida(MotivoInvalido::MontoExcesivo));
            },
        };
        let precio = contexto.lineas[k].precio_unitario;
        let ghost antes = ps.subrange(0, i as int);
        let ghost ahora = ps.subrange(0, i + 1);
        assert(ahora.drop_last() =~= antes);
        proof {
            lema_reembolso_prefijo(lineas, ps, i + 1);
            lema_reembolso_prefijo(lineas, ps, i as int);
        }
        let a = precio as u128;
        let b = p.cantidad as u128;
        assert(a * b <= 0xffff_ffff_ffff_ffffu128 * 0x7fff_ffffu128) by (nonlinear_arith)
            requires
                a <= 0xffff_ffff_ffff_ffffu128,
                b <= 0x7fff_ffffu128,
        ;
        let subtotal: u128 = a * b;
        if subtotal > u64::MAX as u128 {
            return Err(ErrorPos::SolicitudInvalida(MotivoInvalido::MontoExcesivo));
        }
        let subtotal = subtotal as u64;
        if subtotal > u64::MAX - monto {
            return Err(ErrorPos::SolicitudInvalida(MotivoInvalido::MontoExcesivo));
        }
        monto = monto + subtotal;
        detalles.push(
            DetalleDevolucion {
                producto_id: p.producto_id,
                cantidad_devuelta: p.cantidad,
                precio_unitario: precio,
                subtotal,
            },
        );
        i = i + 1;
    }
    assert(ps.subrange(0, ps.len() as int) =~= ps);
    let folio = match siguiente_folio(TipoDocumento::Devolucion, fecha, &contexto.folios_del_dia) {
        Some(f) => f,
        None => {
            return Err(ErrorPos::FoliosAgotados);
        },
    };
    Ok(
        DevolucionNueva {
            venta_id,
            folio_devolucion: folio,
            monto_reembolsado: monto,
            motivo: motivo.clone(),
            usuario_id,
            detalles,
        },
    )
}

/// La venta buscada por su folio, con sus renglones y lo que aún se puede
/// devolver de cada uno; `NoEncontrada` si no existe o no está completada.
pub fn buscar_venta_para_devolucion(
    venta: &Option<VentaRegistrada>,
    lineas: &Vec<LineaVendida>,
    devueltas: &Vec<LineaDevuelta>,
) -> (r: Result<VentaParaDevolucion, ErrorPos>)
    ensures
        !venta_devolvible(*venta) ==> r == Err::<VentaParaDevolucion, ErrorPos>(
            ErrorPos::NoEncontrada,
        ),
        venta_devolvible(*venta) ==> r is Ok,
        r matches Ok(v) ==> {
            &&& v.venta_id == venta->0.id
            &&& v.folio@ == venta->0.folio@
            &&& v.fecha_hora@ == venta->0.fecha_hora@
            &&& v.total == venta->0.total
            &&& v.metodo_pago@ == venta->0.metodo_pago@
            &&& v.productos@.len() == lineas@.len()
            &&& forall|k: int|
                0 <= k < lineas@.len() ==> detalle_para_devolver(
                    #[trigger] v.productos@[k],
                    lineas@[k],
                    devueltas@,
                )
        },
{
    let v = match venta {
        Some(v) => {
            if !v.completada {
                return Err(ErrorPos::NoEncontrada);
            }
            v
        },
        None => {
            return Err(ErrorPos::NoEncontrada);
        },
    };
    let mut productos: Vec<ProductoVentaDetalle> = Vec::new();
    let mut i: usize = 0;
    while i < lineas.len()
        invariant
            0 <= i <= lineas@.len(),
            productos@.len() == i,
            forall|k: int|
                0 <= k < i ==> detalle_para_devolver(
                    #[trigger] productos@[k],
                    lineas@[k],
                    devueltas@,
                ),
        decreases lineas.len() - i,
    {
        let l = &lineas[i];
        let ya = contar_devuelto(devueltas, l.producto_id);
        productos.push(
            ProductoVentaDetalle {
                producto_id: l.producto_id,
                nombre: l.nombre.clone(),
                cantidad: l.cantidad,
                precio_unitario: l.precio_unitario,
                subtotal: l.total_linea,
                disponible: l.cantidad as i128 - ya,
            },
        );
        i = i + 1;
    }
    Ok(
        VentaParaDevolucion {
            venta_id: v.id,
            folio: v.folio.clone(),
            fecha_hora: v.fecha_hora.clone(),
            total: v.total,
            metodo_pago: v.metodo_pago.clone(),
            productos,
        },
    )
}

} // verus!
