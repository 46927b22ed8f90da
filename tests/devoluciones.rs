use sistema_pos::devolucion::{
    buscar_venta_para_devolucion, procesar_devolucion, revisar_solicitud, ContextoDevolucion, LineaDevuelta,
    LineaVendida, ProductoDevolver, VentaRegistrada,
};
use sistema_pos::error::{ErrorPos, MotivoInvalido};
use sistema_pos::fecha::Fecha;

fn hoy() -> Fecha {
    Fecha { anio: 2024, mes: 3, dia: 5 }
}

fn venta(completada: bool) -> VentaRegistrada {
    VentaRegistrada {
        id: 41,
        folio: "V-20240305-0001".to_string(),
        fecha_hora: "2024-03-05 10:00:00".to_string(),
        total: 1800,
        metodo_pago: "EFECTIVO".to_string(),
        completada,
    }
}

fn linea(producto_id: i32, cantidad: i32, precio: u64) -> LineaVendida {
    LineaVendida {
        producto_id,
        nombre: format!("Producto {}", producto_id),
        cantidad,
        precio_unitario: precio,
        total_linea: precio * cantidad as u64,
    }
}

fn contexto(devueltas: Vec<LineaDevuelta>) -> ContextoDevolucion {
    ContextoDevolucion {
        venta: Some(venta(true)),
        lineas: vec![linea(1, 2, 1000), linea(2, 5, 250)],
        devueltas,
        folios_del_dia: vec![],
    }
}

fn pedir(producto_id: i32, cantidad: i32) -> ProductoDevolver {
    ProductoDevolver { producto_id, cantidad }
}

#[test]
fn devolucion_de_una_unidad() {
    let motivo = "defect".to_string();
    let d = procesar_devolucion(&contexto(vec![]), &vec![pedir(1, 1)], &motivo, 9, &hoy()).unwrap();
    assert_eq!(d.venta_id, 41);
    assert_eq!(d.monto_reembolsado, 1000);
    assert_eq!(d.folio_devolucion, "DEV-20240305-0001");
    assert_eq!(d.motivo, "defect");
    assert_eq!(d.usuario_id, 9);
    assert_eq!(d.detalles.len(), 1);
    assert_eq!(d.detalles[0].producto_id, 1);
    assert_eq!(d.detalles[0].cantidad_devuelta, 1);
    assert_eq!(d.detalles[0].precio_unitario, 1000);
    assert_eq!(d.detalles[0].subtotal, 1000);
}

#[test]
fn devolver_mas_de_lo_que_queda_viola_la_politica() {
    let ctx = contexto(vec![LineaDevuelta { producto_id: 1, cantidad: 1 }]);
    let r = procesar_devolucion(&ctx, &vec![pedir(1, 2)], &"defect".to_string(), 9, &hoy());
    assert_eq!(
        r,
        Err(ErrorPos::Politica { producto_id: 1, comprada: 2, ya_devuelta: 1, solicitada: 2, disponible: 1 })
    );
}

#[test]
fn venta_inexistente_no_se_encuentra() {
    let mut ctx = contexto(vec![]);
    ctx.venta = None;
    let r = procesar_devolucion(&ctx, &vec![pedir(1, 1)], &"x".to_string(), 9, &hoy());
    assert_eq!(r, Err(ErrorPos::NoEncontrada));
}

#[test]
fn venta_no_completada_no_admite_devolucion() {
    let mut ctx = contexto(vec![]);
    ctx.venta = Some(venta(false));
    let r = procesar_devolucion(&ctx, &vec![pedir(1, 1)], &"x".to_string(), 9, &hoy());
    assert_eq!(r, Err(ErrorPos::NoEncontrada));
    assert_eq!(buscar_venta_para_devolucion(&ctx.venta, &ctx.lineas, &ctx.devueltas), Err(ErrorPos::NoEncontrada));
}

#[test]
fn solicitud_vacia_o_sin_cantidad() {
    assert_eq!(revisar_solicitud(&vec![]), Some(MotivoInvalido::SinProductos));
    let r = procesar_devolucion(&contexto(vec![]), &vec![], &"x".to_string(), 9, &hoy());
    assert_eq!(r, Err(ErrorPos::SolicitudInvalida(MotivoInvalido::SinProductos)));
    let r = procesar_devolucion(&contexto(vec![]), &vec![pedir(1, 1), pedir(2, 0)], &"x".to_string(), 9, &hoy());
    assert_eq!(r, Err(ErrorPos::SolicitudInvalida(MotivoInvalido::CantidadNoPositiva { indice: 1 })));
}

#[test]
fn producto_ajeno_a_la_venta() {
    let r = procesar_devolucion(&contexto(vec![]), &vec![pedir(1, 1), pedir(3, 1)], &"x".to_string(), 9, &hoy());
    assert_eq!(r, Err(ErrorPos::SolicitudInvalida(MotivoInvalido::ProductoAjeno { producto_id: 3 })));
}

#[test]
fn renglones_repetidos_se_acumulan() {
    let r = procesar_devolucion(&contexto(vec![]), &vec![pedir(2, 3), pedir(2, 3)], &"x".to_string(), 9, &hoy());
    assert_eq!(
        r,
        Err(ErrorPos::Politica { producto_id: 2, comprada: 5, ya_devuelta: 0, solicitada: 6, disponible: 5 })
    );
    let d = procesar_devolucion(&contexto(vec![]), &vec![pedir(2, 3), pedir(1, 2), pedir(2, 2)], &"x".to_string(), 9, &hoy())
        .unwrap();
    assert_eq!(d.monto_reembolsado, 750 + 2000 + 500);
    assert_eq!(d.detalles.len(), 3);
}

#[test]
fn devoluciones_sucesivas_no_pasan_de_lo_comprado() {
    let mut devueltas: Vec<LineaDevuelta> = vec![];
    let mut folios: Vec<String> = vec![];
    let intentos = vec![vec![pedir(2, 2)], vec![pedir(2, 2)], vec![pedir(2, 2)], vec![pedir(2, 1)], vec![pedir(2, 1)]];
    let mut aceptadas = 0;
    for intento in &intentos {
        let mut ctx = contexto(devueltas.clone());
        ctx.folios_del_dia = folios.clone();
        match procesar_devolucion(&ctx, intento, &"x".to_string(), 9, &hoy()) {
            Ok(d) => {
                aceptadas += 1;
                folios.push(d.folio_devolucion.clone());
                for det in &d.detalles {
                    devueltas.push(LineaDevuelta { producto_id: det.producto_id, cantidad: det.cantidad_devuelta });
                }
            }
            Err(e) => {
                assert!(matches!(e, ErrorPos::Politica { .. }));
            }
        }
        let total: i32 = devueltas.iter().filter(|l| l.producto_id == 2).map(|l| l.cantidad).sum();
        assert!(total <= 5);
    }
    assert_eq!(aceptadas, 3);
    assert_eq!(folios, vec!["DEV-20240305-0001", "DEV-20240305-0002", "DEV-20240305-0003"]);
}

#[test]
fn reembolso_que_no_cabe() {
    let mut ctx = contexto(vec![]);
    ctx.lineas = vec![LineaVendida {
        producto_id: 1,
        nombre: "caro".to_string(),
        cantidad: 3,
        precio_unitario: u64::MAX,
        total_linea: 0,
    }];
    let r = procesar_devolucion(&ctx, &vec![pedir(1, 2)], &"x".to_string(), 9, &hoy());
    assert_eq!(r, Err(ErrorPos::SolicitudInvalida(MotivoInvalido::MontoExcesivo)));
}

#[test]
fn serie_de_devoluciones_agotada() {
    let mut ctx = contexto(vec![]);
    ctx.folios_del_dia = vec![format!("DEV-20240305-{}", u64::MAX)];
    let r = procesar_devolucion(&ctx, &vec![pedir(1, 1)], &"x".to_string(), 9, &hoy());
    assert_eq!(r, Err(ErrorPos::FoliosAgotados));
}

#[test]
fn venta_vista_para_devolver() {
    let ctx = contexto(vec![LineaDevuelta { producto_id: 2, cantidad: 4 }, LineaDevuelta { producto_id: 1, cantidad: 1 }]);
    let v = buscar_venta_para_devolucion(&ctx.venta, &ctx.lineas, &ctx.devueltas).unwrap();
    assert_eq!(v.venta_id, 41);
    assert_eq!(v.folio, "V-20240305-0001");
    assert_eq!(v.total, 1800);
    assert_eq!(v.metodo_pago, "EFECTIVO");
    assert_eq!(v.productos.len(), 2);
    assert_eq!(v.productos[0].disponible, 1);
    assert_eq!(v.productos[1].disponible, 1);
    assert_eq!(v.productos[1].subtotal, 1250);
}
