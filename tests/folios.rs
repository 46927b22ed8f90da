use sistema_pos::fecha::Fecha;
use sistema_pos::folio::{leer_sufijo, prefijo_folio, siguiente_folio, siguiente_numero, Sufijo, TipoDocumento};

#[test]
fn fecha_compacta() {
    assert_eq!(Fecha { anio: 2024, mes: 3, dia: 5 }.compacta(), "20240305");
    assert_eq!(Fecha { anio: 999, mes: 12, dia: 31 }.compacta(), "09991231");
}

#[test]
fn prefijos_por_tipo() {
    let f = Fecha { anio: 2025, mes: 11, dia: 9 };
    assert_eq!(prefijo_folio(TipoDocumento::Venta, &f), "V-20251109-");
    assert_eq!(prefijo_folio(TipoDocumento::Devolucion, &f), "DEV-20251109-");
}

#[test]
fn lectura_de_sufijos() {
    let p = "V-20240305-".to_string();
    assert_eq!(leer_sufijo(&"V-20240305-0042".to_string(), &p), Sufijo::Numero(42));
    assert_eq!(leer_sufijo(&"V-20240305-123456".to_string(), &p), Sufijo::Numero(123456));
    assert_eq!(leer_sufijo(&"V-20240305-".to_string(), &p), Sufijo::Ajeno);
    assert_eq!(leer_sufijo(&"V-20240305-00a1".to_string(), &p), Sufijo::Ajeno);
    assert_eq!(leer_sufijo(&"V-20240306-0001".to_string(), &p), Sufijo::Ajeno);
    assert_eq!(leer_sufijo(&"DEV-20240305-0001".to_string(), &p), Sufijo::Ajeno);
    assert_eq!(leer_sufijo(&"V-20240305-18446744073709551615".to_string(), &p), Sufijo::Numero(u64::MAX));
    assert_eq!(leer_sufijo(&"V-20240305-18446744073709551616".to_string(), &p), Sufijo::Excesivo);
    assert_eq!(leer_sufijo(&"V-20240305-000000000000000000000007".to_string(), &p), Sufijo::Numero(7));
}

#[test]
fn numero_siguiente() {
    let p = "DEV-20240305-".to_string();
    assert_eq!(siguiente_numero(&vec![], &p), Some(1));
    let fs = vec!["DEV-20240305-0002".to_string(), "V-20240305-0050".to_string(), "DEV-20240305-0010".to_string()];
    assert_eq!(siguiente_numero(&fs, &p), Some(11));
    let fs = vec!["DEV-20240305-99999999999999999999".to_string()];
    assert_eq!(siguiente_numero(&fs, &p), None);
}

#[test]
fn folios_asignados_uno_tras_otro_no_se_repiten() {
    let f = Fecha { anio: 2024, mes: 3, dia: 5 };
    let mut folios = vec!["V-20240305-0003".to_string(), "V-20240305-0001".to_string()];
    for _ in 0..25 {
        let nuevo = siguiente_folio(TipoDocumento::Venta, &f, &folios).unwrap();
        assert!(!folios.contains(&nuevo));
        folios.push(nuevo);
    }
    let mut unicos = folios.clone();
    unicos.sort();
    unicos.dedup();
    assert_eq!(unicos.len(), folios.len());
    assert_eq!(folios.last().unwrap(), "V-20240305-0028");
}
