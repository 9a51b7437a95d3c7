use moto_pos::caja::{
    autorizar_movimiento, dia_de, dispositivo_a_consultar, filtro_origen, modo_de, modo_guardado,
    permitir_cambio_modo, validar_apertura, validar_cambio_modo, validar_corte_unico,
    validar_movimiento, validar_tipo_corte, ModoCaja,
};
use moto_pos::ventas::{
    busqueda_ventas, concepto_devolucion, descripcion_anulacion, descripcion_venta, partida_no_encontrada,
    siguiente_folio, validar_anulacion, validar_autorizacion_devolucion, validar_devolucion,
    validar_merma, validar_partida, Parametro,
};

#[test]
fn modos_de_caja() {
    assert!(matches!(modo_de("espejo"), ModoCaja::Espejo));
    assert!(matches!(modo_de("individual"), ModoCaja::Individual));
    assert!(matches!(modo_de("otro"), ModoCaja::Individual));
    assert_eq!(filtro_origen("espejo", "m."), "");
    assert_eq!(filtro_origen("individual", "m."), "AND m.origen = 'web'");
    assert_eq!(filtro_origen("individual", ""), "AND origen = 'web'");
    assert_eq!(dispositivo_a_consultar(None), None);
    assert_eq!(dispositivo_a_consultar(Some("  ")), None);
    assert_eq!(dispositivo_a_consultar(Some("abc")), Some("abc".to_string()));
    assert_eq!(modo_guardado(None), "individual");
}

#[test]
fn cambio_de_modo() {
    assert_eq!(
        validar_cambio_modo("mixto", true),
        Err("Modo inválido: usa 'espejo' o 'individual'".to_string())
    );
    assert!(validar_cambio_modo("espejo", false).is_err());
    assert_eq!(validar_cambio_modo("espejo", true), Ok(()));
    assert!(permitir_cambio_modo("individual", "espejo", 2).is_err());
    assert_eq!(permitir_cambio_modo("espejo", "espejo", 2), Ok(()));
    assert_eq!(permitir_cambio_modo("individual", "espejo", 0), Ok(()));
}

#[test]
fn movimientos_de_caja() {
    assert_eq!(validar_movimiento(false, "x", "ENTRADA"), Err("El monto debe ser mayor a cero".to_string()));
    assert_eq!(validar_movimiento(true, "  ", "ENTRADA"), Err("El concepto es obligatorio".to_string()));
    assert_eq!(
        validar_movimiento(true, "cambio", "PAGO"),
        Err("Tipo inválido (debe ser ENTRADA o RETIRO)".to_string())
    );
    assert_eq!(validar_movimiento(true, "cambio", "RETIRO"), Ok(()));
}

#[test]
fn autorizacion_de_retiros() {
    let duenos = vec![(1, bcrypt::hash("9999", 4).unwrap())];
    // Small withdrawal: keeps the authoriser it came with.
    assert_eq!(autorizar_movimiento("RETIRO", false, false, 5, Some(3), None, &duenos), Ok(Some(3)));
    assert_eq!(autorizar_movimiento("ENTRADA", true, false, 5, None, None, &duenos), Ok(None));
    // Large withdrawal by an administrator: authorised by themselves.
    assert_eq!(autorizar_movimiento("RETIRO", true, true, 5, None, None, &duenos), Ok(Some(5)));
    // Large withdrawal by a cashier: needs an owner's PIN.
    assert_eq!(
        autorizar_movimiento("RETIRO", true, false, 5, None, Some("  "), &duenos),
        Err("Retiros mayores a $500 requieren PIN del dueño".to_string())
    );
    assert_eq!(
        autorizar_movimiento("RETIRO", true, false, 5, None, Some("1111"), &duenos),
        Err("PIN del dueño incorrecto".to_string())
    );
    assert_eq!(autorizar_movimiento("RETIRO", true, false, 5, None, Some(" 9999 "), &duenos), Ok(Some(1)));
}

#[test]
fn aperturas_y_cortes() {
    assert_eq!(validar_apertura(true, 0, false), Err("El fondo no puede ser negativo".to_string()));
    assert_eq!(validar_apertura(false, 1, false), Err("Ya existe una apertura de caja web para hoy".to_string()));
    assert_eq!(
        validar_apertura(false, 1, true),
        Err("Ya existe una apertura de caja para hoy (compartida con el POS desktop)".to_string())
    );
    assert_eq!(validar_apertura(false, 0, true), Ok(()));
    assert_eq!(validar_tipo_corte("DIA"), Ok(true));
    assert_eq!(validar_tipo_corte("PARCIAL"), Ok(false));
    assert_eq!(validar_tipo_corte("SEMANA"), Err("Tipo inválido (PARCIAL o DIA)".to_string()));
    assert!(validar_corte_unico(true, 1, false).is_err());
    assert_eq!(validar_corte_unico(false, 1, false), Ok(()));
    assert_eq!(dia_de("2024-05-06 10:11:12"), "2024-05-06");
    assert_eq!(dia_de("2024"), "");
}

#[test]
fn folios_consecutivos_y_unicos() {
    assert_eq!(siguiente_folio("V-", 0), (1, "V-000001".to_string()));
    assert_eq!(siguiente_folio("D-", 41), (42, "D-000042".to_string()));
    assert_eq!(siguiente_folio("V-", 999_999), (1_000_000, "V-1000000".to_string()));
    assert_ne!(siguiente_folio("V-", 9).1, siguiente_folio("V-", 10).1);
}

#[test]
fn anulaciones() {
    assert_eq!(validar_anulacion("2024-05-06 10:00:00", "2024-05-06", 0), Ok(()));
    assert_eq!(
        validar_anulacion("2024-05-05 10:00:00", "2024-05-06", 0),
        Err("Solo se puede anular una venta del día en curso. Para ventas anteriores, usa el flujo de devolución.".to_string())
    );
    assert_eq!(
        validar_anulacion("2024-05-06 10:00:00", "2024-05-06", 1),
        Err("La venta tiene devoluciones parciales registradas. No se puede anular completa.".to_string())
    );
    assert_eq!(descripcion_anulacion("V-000001", "error"), "Venta V-000001 anulada — Motivo: error");
    assert_eq!(
        descripcion_venta("V-000002", "150.50", "efectivo", 3),
        "Venta V-000002 — $150.50 — efectivo — 3 productos"
    );
}

#[test]
fn devoluciones() {
    assert_eq!(validar_devolucion(" ", 1, true), Err("El motivo es obligatorio".to_string()));
    assert_eq!(validar_devolucion("roto", 0, true), Err("Debe incluir al menos un producto a devolver".to_string()));
    assert_eq!(validar_devolucion("roto", 2, false), Err("Las cantidades deben ser mayores a 0".to_string()));
    assert_eq!(validar_devolucion("roto", 2, true), Ok(()));
    assert!(validar_autorizacion_devolucion(0, None).is_err());
    assert_eq!(validar_autorizacion_devolucion(0, Some(1)), Ok(()));
    assert_eq!(validar_autorizacion_devolucion(1, None), Ok(()));
    assert_eq!(validar_partida(3, 4), Err("Una de las partidas no pertenece a la venta".to_string()));
    assert_eq!(partida_no_encontrada(9), "Partida de venta no encontrada: id=9");
    assert_eq!(
        concepto_devolucion("D-000001", "V-000010", "defecto"),
        "Devolución D-000001 de venta V-000010 — defecto"
    );
    assert_eq!(validar_merma(false, "x"), Err("La cantidad debe ser mayor a 0".to_string()));
    assert_eq!(validar_merma(true, ""), Err("El motivo es obligatorio".to_string()));
}

#[test]
fn busqueda_de_ventas() {
    let (sql, ps) = busqueda_ventas(&None, &None, &None, &None, &None, None);
    assert!(sql.ends_with("WHERE 1=1 ORDER BY v.fecha DESC LIMIT ?"));
    assert_eq!(ps.len(), 1);
    assert!(matches!(ps[0], Parametro::Entero(100)));
    let (sql, ps) = busqueda_ventas(
        &Some(" V-01 ".into()),
        &Some(" 2024-01-01".into()),
        &Some("  ".into()),
        &Some("Ana".into()),
        &Some("BUJÍA".into()),
        Some(10),
    );
    assert!(sql.contains(" AND v.folio LIKE ? AND date(v.fecha) >= date(?) AND (cl.nombre LIKE ? OR cl.telefono LIKE ?) AND EXISTS ("));
    assert!(!sql.contains("date(v.fecha) <= date(?)"));
    let textos: Vec<String> = ps
        .iter()
        .filter_map(|p| match p {
            Parametro::Texto(t) => Some(t.clone()),
            Parametro::Entero(_) => None,
        })
        .collect();
    assert_eq!(textos, vec!["%V-01%", " 2024-01-01", "%Ana%", "%Ana%", "%BUJÍA%", "%bujia%"]);
    assert!(matches!(ps[ps.len() - 1], Parametro::Entero(10)));
}
