use moto_pos::intercambio::{seleccionar_pull, EntradaCursor, LOTE_PULL};
use moto_pos::lww::{menor_lex_exec, pos_acepta, servidor_acepta};
use moto_pos::sincronizacion::{
    falta_sucursal, hijos_de, requiere_sucursal, sql_borrar_hijos_servidor, sql_lww_servidor,
    sql_upsert_pos, sql_upsert_servidor, tabla_valida,
};
use moto_pos::intercambio::{
    conciliar_push, credenciales_ciclo, cursor_inicial, es_borrado, login_rechazado, operacion_pull,
    resumir_lote, revisar_cambio, sucursal_final, texto_cursor, url_login, CambioPendiente,
    PushResponse, Rechazado, ResultadoAplicar, Revision, SyncConfig,
};

fn cols(v: &[&str]) -> Vec<String> {
    v.iter().map(|s| s.to_string()).collect()
}

#[test]
fn lww_el_mas_reciente_gana() {
    assert!(servidor_acepta(Some("2024-01-01 10:00:00"), "2024-01-02 09:00:00"));
    assert!(!servidor_acepta(Some("2024-01-02 09:00:00"), "2024-01-01 10:00:00"));
    // Same time: the server keeps its copy.
    assert!(!servidor_acepta(Some("2024-01-01 10:00:00"), "2024-01-01 10:00:00"));
    // An incoming row without a time is applied by the server.
    assert!(servidor_acepta(Some("2024-01-01 10:00:00"), ""));
    assert!(servidor_acepta(None, "2024-01-01 10:00:00"));
    assert!(pos_acepta(None, ""));
    assert!(!pos_acepta(Some("2024-01-01"), ""));
    assert!(pos_acepta(Some("2024-01-01"), "2024-01-02"));
}

#[test]
fn lww_entrega_repetida_no_cambia_nada() {
    // Offering the same row twice: the second time it is refused.
    let t = "2024-03-05 12:00:00";
    assert!(pos_acepta(Some("2024-03-01 00:00:00"), t));
    assert!(!pos_acepta(Some(t), t));
}

#[test]
fn comparacion_lexicografica() {
    assert!(menor_lex_exec("abc", "abd"));
    assert!(menor_lex_exec("ab", "abc"));
    assert!(!menor_lex_exec("b", "abc"));
    assert!(!menor_lex_exec("abc", "abc"));
}

#[test]
fn tablas_sincronizables() {
    assert!(tabla_valida("productos"));
    assert!(tabla_valida("ventas"));
    assert!(!tabla_valida("sqlite_sequence"));
    assert!(requiere_sucursal("ventas"));
    assert!(!requiere_sucursal("productos"));
    assert!(falta_sucursal("ventas", false));
    assert!(!falta_sucursal("ventas", true));
    assert_eq!(hijos_de("ventas"), vec![("venta_detalle".to_string(), "venta_id".to_string())]);
    assert!(hijos_de("productos").is_empty());
}

#[test]
fn sql_del_servidor() {
    assert_eq!(sql_lww_servidor("productos"), "SELECT updated_at AS ts FROM productos WHERE uuid = $1 LIMIT 1");
    assert_eq!(sql_borrar_hijos_servidor("venta_detalle", "venta_id"), "DELETE FROM venta_detalle WHERE venta_id = $1");
    let (sql, usadas) = sql_upsert_servidor("categorias", &cols(&["id", "uuid", "nombre", "synced_at"])).unwrap();
    assert_eq!(sql, "INSERT INTO categorias (uuid,nombre) VALUES ($1,$2) ON CONFLICT(uuid) DO UPDATE SET nombre=excluded.nombre");
    assert_eq!(usadas, cols(&["uuid", "nombre"]));
    let (sql, _) = sql_upsert_servidor("categorias", &cols(&["id", "uuid"])).unwrap();
    assert_eq!(sql, "INSERT INTO categorias (uuid) VALUES ($1) ON CONFLICT(uuid) DO NOTHING");
    assert!(sql_upsert_servidor("categorias", &cols(&["id", "synced_at"])).is_none());
}

#[test]
fn sql_del_pos() {
    let (sql, usadas) = sql_upsert_pos("categorias", &cols(&["id", "uuid", "nombre"])).unwrap();
    assert_eq!(sql, "INSERT INTO categorias (uuid,nombre) VALUES (?,?) ON CONFLICT(uuid) DO UPDATE SET nombre=excluded.nombre");
    assert_eq!(usadas, cols(&["uuid", "nombre"]));
    assert!(sql_upsert_pos("categorias", &cols(&["id"])).is_none());
}

#[test]
fn revision_de_cambios_entrantes() {
    match revisar_cambio("inventada", Some("u1")) {
        Revision::Rechazar(r) => {
            assert_eq!(r.uuid, "u1");
            assert_eq!(r.motivo, "tabla desconocida: inventada");
        }
        Revision::Aplicar(_) => panic!("debió rechazarse"),
    }
    match revisar_cambio("productos", None) {
        Revision::Rechazar(r) => assert_eq!(r.motivo, "falta uuid"),
        Revision::Aplicar(_) => panic!("debió rechazarse"),
    }
    match revisar_cambio("productos", Some("u2")) {
        Revision::Aplicar(u) => assert_eq!(u, "u2"),
        Revision::Rechazar(_) => panic!("debió aplicarse"),
    }
}

#[test]
fn respuesta_de_push() {
    let mut r = PushResponse::nueva();
    r.registrar_resultado("a".to_string(), ResultadoAplicar::Aplicado);
    r.registrar_resultado("b".to_string(), ResultadoAplicar::RemotoMasNuevo);
    r.registrar_resultado("c".to_string(), ResultadoAplicar::Fallo("x".to_string()));
    r.registrar_rechazo(Rechazado { uuid: "d".to_string(), motivo: "falta uuid".to_string() });
    assert_eq!(r.aceptados, vec!["a".to_string()]);
    assert_eq!(r.rechazados.len(), 3);
    assert_eq!(r.rechazados[0].motivo, "remoto_mas_nuevo");
    assert_eq!(r.rechazados[1].motivo, "error: x");
}

#[test]
fn lotes_de_pull() {
    let ids: Vec<i64> = (1..=250).collect();
    let l = resumir_lote(0, &ids);
    assert!(l.hay_mas);
    assert_eq!(l.tomar, 200);
    assert_eq!(l.next_cursor, 200);
    let l = resumir_lote(300, &vec![]);
    assert!(!l.hay_mas);
    assert_eq!(l.next_cursor, 300);
    assert_eq!(cursor_inicial("42"), 42);
    assert_eq!(cursor_inicial("abc"), 0);
    assert_eq!(texto_cursor(1234), "1234");
    assert_eq!(operacion_pull(false, false), "DELETE");
    assert_eq!(operacion_pull(true, true), "DELETE");
    assert_eq!(operacion_pull(true, false), "UPSERT");
}

fn pendiente(id: i64, uuid: &str, op: &str) -> CambioPendiente {
    CambioPendiente {
        id,
        tabla: "productos".to_string(),
        uuid: uuid.to_string(),
        operacion: op.to_string(),
        created_at: String::new(),
        intentos: 0,
    }
}

#[test]
fn conciliacion_de_outbox() {
    let ps = vec![pendiente(1, "a", "UPDATE"), pendiente(2, "b", "DELETE"), pendiente(3, "c", "UPDATE")];
    assert!(es_borrado(&ps[1]));
    assert!(!es_borrado(&ps[0]));
    let resp = PushResponse {
        aceptados: vec!["c".to_string(), "a".to_string()],
        rechazados: vec![Rechazado { uuid: "b".to_string(), motivo: "remoto_mas_nuevo".to_string() },
                         Rechazado { uuid: "zz".to_string(), motivo: "x".to_string() }],
    };
    let (ok, errores) = conciliar_push(&ps, &resp);
    assert_eq!(ok, vec![1, 3]);
    assert_eq!(errores, vec![(2, "remoto_mas_nuevo".to_string())]);
}

#[test]
fn configuracion_de_sync() {
    let cfg = SyncConfig {
        device_uuid: "d".to_string(),
        sucursal_id: 1,
        remote_url: Some("https://x".to_string()),
        remote_token: Some("t".to_string()),
        last_push_at: None,
        last_pull_cursor: None,
        last_pull_at: None,
        activo: true,
    };
    assert_eq!(credenciales_ciclo(&Some(cfg)), Some(("https://x".to_string(), "t".to_string())));
    assert_eq!(credenciales_ciclo(&None), None);
    assert_eq!(url_login("https://srv.mx//"), "https://srv.mx/auth/login");
    assert_eq!(sucursal_final(None, 4), 4);
    assert_eq!(sucursal_final(Some(2), 4), 2);
    assert_eq!(login_rechazado("401 Unauthorized", "no"), "Login rechazado (401 Unauthorized): no");
}

#[test]
fn pull_sin_eco_ni_otra_sucursal() {
    let e = |id: i64, suc: Option<i64>, dev: Option<&str>| EntradaCursor {
        id,
        sucursal_id: suc,
        origen_device: dev.map(|d| d.to_string()),
    };
    let entradas = vec![
        e(5, Some(1), Some("otro")),  // at the cursor: not read
        e(6, Some(1), Some("yo")),    // own change: not echoed
        e(7, Some(2), Some("otro")),  // another branch
        e(8, None, Some("otro")),     // no branch: read
        e(9, Some(1), None),          // unknown origin: read
        e(10, Some(1), Some("otro")), // read
    ];
    assert_eq!(seleccionar_pull(&entradas, 5, 1, &Some("yo".to_string())), vec![3, 4, 5]);
    // Without a device, nothing is excluded for its origin.
    assert_eq!(seleccionar_pull(&entradas, 5, 1, &None), vec![1, 3, 4, 5]);
}

#[test]
fn pull_corta_en_una_pagina_mas_uno() {
    let entradas: Vec<EntradaCursor> = (1..=(LOTE_PULL as i64 + 10))
        .map(|id| EntradaCursor { id, sucursal_id: None, origen_device: None })
        .collect();
    let r = seleccionar_pull(&entradas, 0, 1, &None);
    assert_eq!(r.len(), LOTE_PULL + 1);
    assert_eq!(r, (0..=LOTE_PULL).collect::<Vec<usize>>());
}
