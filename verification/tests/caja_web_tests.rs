use moto_pos::autenticacion::{
    credencial_nueva, preparar_usuario_inicial, preparar_usuario_nuevo, validar_credencial_web,
    validar_usuario_web, NuevoUsuario,
};
use moto_pos::caja::{autorizar_movimiento, ModoCaja};
use moto_pos::texto::normalizar_texto;
use moto_pos::escpos::png_de_base64;
use moto_pos::intercambio::{pagina_pull, EntradaCursor, LOTE_PULL};
use moto_pos::remoto::{decidir_login_admin, AdminCandidato, FalloLogin};
use moto_pos::ventas::{folio_web, validar_caja_de_venta, validar_items_web, DocumentoWeb, OperacionVenta};

#[test]
fn folios_web_por_dia() {
    assert_eq!(folio_web("V", "20240506", 0), "V-20240506-0001");
    assert_eq!(folio_web("D", "20240506", 41), "D-20240506-0042");
    assert_eq!(folio_web("V", "20240506", 12344), "V-20240506-12345");
}

#[test]
fn documentos_web_sin_items() {
    assert_eq!(validar_items_web(DocumentoWeb::Venta, 0), Err("La venta no tiene items".to_string()));
    assert_eq!(validar_items_web(DocumentoWeb::Recepcion, 0), Err("La recepción no tiene items".to_string()));
    assert_eq!(validar_items_web(DocumentoWeb::Pedido, 0), Err("El pedido no tiene items".to_string()));
    assert_eq!(validar_items_web(DocumentoWeb::Venta, 3), Ok(()));
}

#[test]
fn venta_de_otra_caja() {
    let r = validar_caja_de_venta(ModoCaja::Individual, "desktop", OperacionVenta::Anular);
    assert_eq!(
        r,
        Err("Esta venta pertenece a otra caja (POS desktop). Anúlala desde allá o cambia tu modo a 'espejo'.".to_string())
    );
    let r = validar_caja_de_venta(ModoCaja::Individual, "desktop", OperacionVenta::Devolver);
    assert!(r.unwrap_err().contains("La devolución debe hacerse desde allá"));
    assert_eq!(validar_caja_de_venta(ModoCaja::Individual, "web", OperacionVenta::Anular), Ok(()));
    assert_eq!(validar_caja_de_venta(ModoCaja::Espejo, "desktop", OperacionVenta::Devolver), Ok(()));
}

#[test]
fn usuario_web_valida_en_orden() {
    assert_eq!(validar_usuario_web(" ", "ana", "1234", "abcd"), Err("Nombre completo obligatorio".to_string()));
    assert_eq!(validar_usuario_web("Ana", "", "1234", "abcd"), Err("Nombre de usuario obligatorio".to_string()));
    assert_eq!(
        validar_usuario_web("Ana", "ana", "123", "abcd"),
        Err("El PIN debe tener al menos 4 caracteres".to_string())
    );
    assert_eq!(
        validar_usuario_web("Ana", "ana", "1234", "abc"),
        Err("La contraseña debe tener al menos 4 caracteres".to_string())
    );
    assert_eq!(validar_usuario_web("Ana", "ana", "1234", "abcd"), Ok(()));
    // Bytes, not characters: "ñé" is four bytes.
    assert_eq!(validar_usuario_web("Ana", "ana", "ñé", "abcd"), Ok(()));
}

#[test]
fn credencial_web_de_reemplazo() {
    assert_eq!(validar_credencial_web(None, true), Ok(()));
    assert_eq!(validar_credencial_web(Some(""), true), Ok(()));
    assert_eq!(validar_credencial_web(Some("12"), true), Err("El PIN debe tener al menos 4 caracteres".to_string()));
    assert_eq!(
        validar_credencial_web(Some("12"), false),
        Err("La contraseña debe tener al menos 4 caracteres".to_string())
    );
    assert_eq!(validar_credencial_web(Some("1234"), false), Ok(()));
}

#[test]
fn hashes_con_su_costo() {
    let (ph, wh) = preparar_usuario_inicial(0, "1234", "secreta").unwrap();
    assert!(ph.starts_with("$2b$12$") && wh.starts_with("$2b$12$"));
    assert_eq!(preparar_usuario_inicial(1, "1234", "x"), Err("Ya existen usuarios en el sistema".to_string()));
    let u = NuevoUsuario {
        nombre_completo: "Ana".to_string(),
        nombre_usuario: "ana".to_string(),
        pin: "1234".to_string(),
        password: "abcd".to_string(),
        rol_id: 2,
    };
    let (ph, wh) = preparar_usuario_nuevo(false, &u).unwrap();
    assert!(ph.starts_with("$2b$10$") && wh.starts_with("$2b$10$"));
    let h = credencial_nueva(&Some("7777".to_string())).unwrap().unwrap();
    assert!(h.starts_with("$2b$10$"));
    assert_eq!(h.len(), 60);
}

#[test]
fn login_panel_clave_incorrecta_no_es_error_interno() {
    let fila = AdminCandidato {
        id: 1,
        email: "a@b.mx".into(),
        password_hash: bcrypt::hash("clave", 4).unwrap(),
        nombre: "Admin".into(),
        sucursal_id: None,
        es_super_admin: false,
        activo: true,
    };
    assert!(matches!(decidir_login_admin(&Some(fila), "otra"), Err(FalloLogin::NoAutorizado)));
    let mala = AdminCandidato {
        id: 1,
        email: "a@b.mx".into(),
        password_hash: "basura".into(),
        nombre: "Admin".into(),
        sucursal_id: None,
        es_super_admin: false,
        activo: true,
    };
    match decidir_login_admin(&Some(mala), "clave") {
        Err(FalloLogin::Interno(e)) => assert!(e.starts_with("Invalid hash: ")),
        _ => panic!("un hash ilegible es un error interno"),
    }
}

#[test]
fn pagina_pull_y_cursor() {
    let entradas: Vec<EntradaCursor> = (1..=(LOTE_PULL as i64 + 5))
        .map(|id| EntradaCursor { id: id * 10, sucursal_id: None, origen_device: None })
        .collect();
    let (pagina, lote) = pagina_pull(&entradas, 0, 1, &None);
    assert_eq!(pagina.len(), LOTE_PULL);
    assert!(lote.hay_mas);
    assert_eq!(lote.next_cursor, LOTE_PULL as i64 * 10);
    let (resto, lote2) = pagina_pull(&entradas, lote.next_cursor, 1, &None);
    assert_eq!(resto, (LOTE_PULL..LOTE_PULL + 5).collect::<Vec<usize>>());
    assert!(!lote2.hay_mas);
    assert!(pagina.iter().all(|p| !resto.contains(p)));
}

#[test]
fn imagen_en_base64() {
    assert_eq!(png_de_base64("iVBORw=="), Ok(vec![0x89, 0x50, 0x4E, 0x47]));
    let e = png_de_base64("no es base64!").unwrap_err();
    assert!(e.starts_with("Error decodificando base64: "));
}

#[test]
fn retiro_lo_autoriza_el_primer_dueno() {
    let duenos = vec![
        (7, bcrypt::hash("0000", 4).unwrap()),
        (3, bcrypt::hash("4242", 4).unwrap()),
        (9, bcrypt::hash("4242", 4).unwrap()),
    ];
    assert_eq!(autorizar_movimiento("RETIRO", true, false, 5, None, Some("4242"), &duenos), Ok(Some(3)));
}

#[test]
fn normalizar_dos_veces_es_normalizar_una() {
    let t = "ÁRBOL Ñandú Güero, 10-W";
    let n = normalizar_texto(t);
    assert_eq!(n, "arbol nandu guero, 10-w");
    assert_eq!(normalizar_texto(&n), n);
}
