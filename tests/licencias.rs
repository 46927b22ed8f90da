use sistema_pos::licencia::{
    armar_estado_licencia, calcular_checksum_simple, dias_de_licencia, estado_segun_dias, extraer_tipo_licencia,
    normalizar_codigo, partir, puede_operar, revisar_codigo_activacion, validar_checksum, validar_codigo_activacion,
    validar_formato_codigo, FallaActivacion, ResultadoActivacion,
};

#[test]
fn checksum_en_base_36() {
    assert_eq!(calcular_checksum_simple("ABCD1234"), "01J8");
    assert_eq!(calcular_checksum_simple(""), "0000");
    assert_eq!(calcular_checksum_simple("Z"), "002I");
    assert_eq!(calcular_checksum_simple("K7Q2M9XW"), "0223");
}

#[test]
fn partir_por_guiones() {
    assert_eq!(partir("POS-M-AB"), vec!["POS", "M", "AB"]);
    assert_eq!(partir(""), vec![""]);
    assert_eq!(partir("-a-"), vec!["", "a", ""]);
}

#[test]
fn formato_del_codigo() {
    assert!(validar_formato_codigo("POS-M-ABCD-1234-01J8"));
    assert!(validar_formato_codigo("POS-A-abcd-1234-ZZZZ"));
    assert!(!validar_formato_codigo("POS-X-ABCD-1234-01J8"));
    assert!(!validar_formato_codigo("PAS-M-ABCD-1234-01J8"));
    assert!(!validar_formato_codigo("POS-M-ABC-1234-01J8"));
    assert!(!validar_formato_codigo("POS-M-AB!D-1234-01J8"));
    assert!(!validar_formato_codigo("POS-M-ABCD-1234"));
    // cuatro bytes en UTF-8: la "Á" ocupa dos
    assert!(validar_formato_codigo("POS-M-ÁBC-1234-01J8"));
    assert!(!validar_formato_codigo("POS-M-ÁBCD-1234-01J8"));
}

#[test]
fn checksum_del_codigo() {
    assert!(validar_checksum("POS-M-ABCD-1234-01J8"));
    assert!(!validar_checksum("POS-M-ABCD-1234-01J9"));
    assert!(!validar_checksum("POS-M-ABCD-1234"));
}

#[test]
fn tipo_y_dias() {
    assert_eq!(extraer_tipo_licencia("POS-M-ABCD"), Ok("MENSUAL".to_string()));
    assert_eq!(extraer_tipo_licencia("POS-A"), Ok("ANUAL".to_string()));
    assert_eq!(extraer_tipo_licencia("POS"), Err("Código inválido".to_string()));
    assert_eq!(extraer_tipo_licencia("POS-Q-1"), Err("Tipo de licencia no reconocido".to_string()));
    assert_eq!(dias_de_licencia(&"MENSUAL".to_string()), Some(30));
    assert_eq!(dias_de_licencia(&"ANUAL".to_string()), Some(365));
    assert_eq!(dias_de_licencia(&"TRIAL".to_string()), None);
}

#[test]
fn normalizacion_del_codigo() {
    assert_eq!(normalizar_codigo("\t pos-m-abcd - 1234-01j8 \n"), "POS-M-ABCD-1234-01J8");
    assert!(validar_codigo_activacion("  pos-m-abcd-1234-01j8 "));
    assert!(!validar_codigo_activacion("pos-m-abcd-1234-01j9"));
}

#[test]
fn revision_de_la_activacion() {
    let a = revisar_codigo_activacion("POS-A-ABCD-1234-01J8").unwrap();
    assert_eq!(a.tipo_licencia, "ANUAL");
    assert_eq!(a.dias, 365);
    assert_eq!(revisar_codigo_activacion("POS-M-ABCD-1234-0000").unwrap_err(), FallaActivacion::Verificacion);
    assert_eq!(revisar_codigo_activacion("POS-M-ABCD").unwrap_err(), FallaActivacion::Formato);
}

#[test]
fn estado_por_dias_restantes() {
    assert_eq!(estado_segun_dias(10), "ACTIVO");
    assert_eq!(estado_segun_dias(1), "ACTIVO");
    assert_eq!(estado_segun_dias(0), "GRACIA");
    assert_eq!(estado_segun_dias(-3), "GRACIA");
    assert_eq!(estado_segun_dias(-4), "EXPIRADO");
    assert!(puede_operar(&"GRACIA".to_string()));
    assert!(!puede_operar(&"EXPIRADO".to_string()));
}

#[test]
fn estado_armado() {
    let e = armar_estado_licencia(
        "TRIAL".to_string(),
        "EXPIRADO".to_string(),
        "2024-01-01".to_string(),
        "2024-01-16".to_string(),
        -20,
        None,
    );
    assert!(!e.puede_operar);
    assert!(e.modo_solo_lectura);
    assert_eq!(e.dias_restantes, -20);
    let e = armar_estado_licencia("ANUAL".to_string(), "ACTIVO".to_string(), "a".to_string(), "b".to_string(), 200, Some("c".to_string()));
    assert!(e.puede_operar);
    assert!(!e.modo_solo_lectura);
}

#[test]
fn resultados_de_activacion() {
    let r = ResultadoActivacion::exitosa("MENSUAL".to_string(), "2024-04-04".to_string());
    assert!(r.success);
    assert_eq!(r.mensaje, "¡Licencia MENSUAL activada exitosamente!");
    let r = ResultadoActivacion::por_falla(FallaActivacion::Verificacion);
    assert!(!r.success);
    assert_eq!(r.mensaje, "Código inválido. Verificación falló.");
    assert_eq!(r.tipo_licencia, None);
}
