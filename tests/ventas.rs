use sistema_pos::error::{ErrorPos, MotivoInvalido};
use sistema_pos::fecha::Fecha;
use sistema_pos::venta::{calcular_detalle, procesar_venta, revisar_carrito, MetodoPago, ProductoVenta};

fn hoy() -> Fecha {
    Fecha { anio: 2024, mes: 3, dia: 5 }
}

fn renglon(id: i32, precio: u64, cantidad: i32, descuento: Option<u32>) -> ProductoVenta {
    ProductoVenta {
        id,
        nombre: format!("Producto {}", id),
        codigo: format!("C{}", id),
        precio,
        cantidad,
        descuento_porcentaje: descuento,
    }
}

#[test]
fn primera_venta_del_dia_en_efectivo() {
    let carrito = vec![renglon(1, 1000, 2, Some(1000))];
    let v = procesar_venta(&carrito, 1800, MetodoPago::Efectivo, Some(2000), Some(200), 7, &hoy(), &vec![])
        .unwrap();
    assert_eq!(v.subtotal, 2000);
    assert_eq!(v.descuento, 200);
    assert_eq!(v.folio, "V-20240305-0001");
    assert_eq!(v.total, 1800);
    assert_eq!(v.metodo_pago, MetodoPago::Efectivo);
    assert_eq!(v.monto_recibido, Some(2000));
    assert_eq!(v.cambio, Some(200));
    assert_eq!(v.usuario_id, 7);
    assert_eq!(v.detalles.len(), 1);
    let d = v.detalles[0];
    assert_eq!(d.producto_id, 1);
    assert_eq!(d.cantidad, 2);
    assert_eq!(d.precio_unitario, 1000);
    assert_eq!(d.subtotal, 2000);
    assert_eq!(d.descuento_linea, 200);
    assert_eq!(d.total_linea, 1800);
}

#[test]
fn renglones_suman_subtotal_menos_descuento() {
    let carrito = vec![
        renglon(1, 1999, 3, Some(1250)),
        renglon(2, 50, 7, None),
        renglon(3, 333, 1, Some(10000)),
        renglon(4, 1001, 9, Some(1)),
    ];
    let v = procesar_venta(&carrito, 0, MetodoPago::Tarjeta, None, None, 1, &hoy(), &vec![]).unwrap();
    let suma: u64 = v.detalles.iter().map(|d| d.total_linea).sum();
    assert_eq!(suma, v.subtotal - v.descuento);
    assert_eq!(v.subtotal, 5997 + 350 + 333 + 9009);
    // 5997 * 12.5% = 749.625 -> 749; 333 * 100% = 333; 9009 * 0.01% = 0.9009 -> 0
    assert_eq!(v.descuento, 749 + 333);
    assert_eq!(v.detalles[2].total_linea, 0);
    assert_eq!(v.total, 0);
}

#[test]
fn folio_sigue_al_mayor_del_dia() {
    let folios = vec![
        "V-20240305-0001".to_string(),
        "V-20240305-0007".to_string(),
        "V-20240304-0099".to_string(),
        "V-20240305-0003".to_string(),
    ];
    let v = procesar_venta(&vec![renglon(1, 10, 1, None)], 10, MetodoPago::Transferencia, None, None, 1, &hoy(), &folios)
        .unwrap();
    assert_eq!(v.folio, "V-20240305-0008");
}

#[test]
fn folio_pasa_de_cuatro_cifras() {
    let folios = vec!["V-20240305-9999".to_string()];
    let v = procesar_venta(&vec![renglon(1, 10, 1, None)], 10, MetodoPago::Efectivo, None, None, 1, &hoy(), &folios)
        .unwrap();
    assert_eq!(v.folio, "V-20240305-10000");
}

#[test]
fn carrito_vacio_se_rechaza() {
    let r = procesar_venta(&vec![], 0, MetodoPago::Efectivo, None, None, 1, &hoy(), &vec![]);
    assert_eq!(r, Err(ErrorPos::SolicitudInvalida(MotivoInvalido::SinProductos)));
}

#[test]
fn cantidad_cero_se_rechaza() {
    let carrito = vec![renglon(1, 10, 1, None), renglon(2, 10, 0, None), renglon(3, 10, -1, None)];
    let r = procesar_venta(&carrito, 0, MetodoPago::Efectivo, None, None, 1, &hoy(), &vec![]);
    assert_eq!(r, Err(ErrorPos::SolicitudInvalida(MotivoInvalido::CantidadNoPositiva { indice: 1 })));
}

#[test]
fn descuento_de_mas_del_cien_se_rechaza() {
    let carrito = vec![renglon(1, 10, 1, Some(10001))];
    assert_eq!(revisar_carrito(&carrito), Some(MotivoInvalido::DescuentoExcesivo { indice: 0 }));
    let r = procesar_venta(&carrito, 0, MetodoPago::Efectivo, None, None, 1, &hoy(), &vec![]);
    assert_eq!(r, Err(ErrorPos::SolicitudInvalida(MotivoInvalido::DescuentoExcesivo { indice: 0 })));
}

#[test]
fn importes_que_no_caben_se_rechazan() {
    let carrito = vec![renglon(1, u64::MAX, 2, None)];
    assert_eq!(calcular_detalle(&carrito[0]), None);
    let r = procesar_venta(&carrito, 0, MetodoPago::Efectivo, None, None, 1, &hoy(), &vec![]);
    assert_eq!(r, Err(ErrorPos::SolicitudInvalida(MotivoInvalido::MontoExcesivo)));
    let carrito = vec![renglon(1, u64::MAX / 2, 1, None), renglon(2, u64::MAX / 2, 1, None), renglon(3, 2, 1, None)];
    let r = procesar_venta(&carrito, 0, MetodoPago::Efectivo, None, None, 1, &hoy(), &vec![]);
    assert_eq!(r, Err(ErrorPos::SolicitudInvalida(MotivoInvalido::MontoExcesivo)));
}

#[test]
fn serie_agotada_no_da_folio() {
    let folios = vec![format!("V-20240305-{}", u64::MAX)];
    let r = procesar_venta(&vec![renglon(1, 10, 1, None)], 10, MetodoPago::Efectivo, None, None, 1, &hoy(), &folios);
    assert_eq!(r, Err(ErrorPos::FoliosAgotados));
}

#[test]
fn solo_se_reintenta_por_folio_duplicado() {
    let choque = ErrorPos::Persistencia { detalle: "dup".to_string(), folio_duplicado: true };
    let otro = ErrorPos::Persistencia { detalle: "x".to_string(), folio_duplicado: false };
    assert!(choque.reintentable(1));
    assert!(choque.reintentable(3));
    assert!(!choque.reintentable(4));
    assert!(!otro.reintentable(1));
    assert!(!ErrorPos::NoEncontrada.reintentable(1));
}
