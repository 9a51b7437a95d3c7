use moto_pos::movil::{
    acceso_permitido, consulta_productos, descripcion_recepcion_movil, descripcion_revocado,
    dispositivo_vigente, emitir_claims, extraer_bearer, solo_abiertas, usuario_por_pin,
    validar_recepcion_movil, AuthContext, Claims, ConsultaProductos, DispositivoRow, ServerInfoApi,
};
use moto_pos::remoto::{
    comando_de, decidir_login_admin, decidir_login_web, dispositivo_utilizable, emitir_claims as claims_remoto,
    mensaje_no_disponible, modo_configurado, rol_token, ruta_rpc, AdminCandidato, Comando, Config,
    FalloLogin, ListQuery, Ruta,
};
use moto_pos::autenticacion::CandidatoLogin;

#[test]
fn claims_del_telefono() {
    let c = Claims::nuevas(1, 2, "j".to_string(), 1000);
    assert_eq!(c.exp, 1000 + 30 * 86400);
    let c = emitir_claims(5, 9);
    assert_eq!(c.sub, 5);
    assert_eq!(c.device_id, 9);
    assert_eq!(c.jti.len(), 36);
    assert_eq!(c.exp - c.iat, 2_592_000);
    let ctx = AuthContext::de_claims(c);
    assert_eq!(ctx.usuario_id, 5);
}

#[test]
fn cabecera_bearer() {
    assert_eq!(extraer_bearer(Some("Bearer abc.def")), Some("abc.def".to_string()));
    assert_eq!(extraer_bearer(Some("bearer abc")), None);
    assert_eq!(extraer_bearer(None), None);
}

#[test]
fn dispositivos_revocados() {
    assert!(acceso_permitido(Some(0)));
    assert!(!acceso_permitido(Some(1)));
    assert!(!acceso_permitido(None));
    assert_eq!(dispositivo_vigente(None), Err("Dispositivo no registrado".to_string()));
    assert_eq!(dispositivo_vigente(Some(1)), Err("Dispositivo revocado".to_string()));
    assert_eq!(dispositivo_vigente(Some(0)), Ok(()));
    let d = DispositivoRow::de_fila(1, "Tel".into(), None, 2, None, None, None, "x".into(), 3);
    assert_eq!(d.usuario_nombre, "—");
    assert!(d.revocado);
    assert_eq!(descripcion_revocado(4), "Dispositivo #4 revocado");
}

#[test]
fn pin_desde_telefono() {
    let c = CandidatoLogin {
        id: 1,
        nombre_completo: "A".into(),
        nombre_usuario: "a".into(),
        hash: bcrypt::hash("5555", 4).unwrap(),
        rol_id: 1,
        rol_nombre: "Dueño".into(),
        es_admin: true,
    };
    assert_eq!(usuario_por_pin("5555", &vec![c]), Ok(0));
    assert_eq!(usuario_por_pin("1", &vec![]), Err("PIN incorrecto".to_string()));
}

#[test]
fn busqueda_de_productos() {
    assert!(matches!(consulta_productos("   ", None), ConsultaProductos::Todos));
    assert!(matches!(consulta_productos("", Some(3)), ConsultaProductos::PorProveedor(3)));
    match consulta_productos("  FILTRO ", None) {
        ConsultaProductos::PorTexto(t) => assert_eq!(t, "filtro"),
        _ => panic!("esperaba búsqueda por texto"),
    }
    match consulta_productos("Bujía", Some(7)) {
        ConsultaProductos::PorTextoYProveedor(t, p) => {
            assert_eq!(t, "bujía");
            assert_eq!(p, 7);
        }
        _ => panic!("esperaba texto y proveedor"),
    }
    assert!(solo_abiertas(Some("1")));
    assert!(!solo_abiertas(Some("0")));
    assert!(!solo_abiertas(None));
}

#[test]
fn recepciones_desde_telefono() {
    assert_eq!(validar_recepcion_movil(0), Err("Sin items".to_string()));
    assert_eq!(validar_recepcion_movil(2), Ok(()));
    assert_eq!(descripcion_recepcion_movil(12, 3), "Recepción #12 desde móvil · 3 items");
    let i = ServerInfoApi::de_estado(None, vec!["1.2.3.4".into()]);
    assert!(!i.activo && i.port == 0 && i.ips.is_empty());
}

#[test]
fn filtros_de_listados() {
    let q = ListQuery { q: Some("Bujía".into()), limit: Some(1000), offset: Some(-5), sucursal_id: None };
    assert_eq!(q.limit(), 500);
    assert_eq!(q.offset(), 0);
    assert_eq!(q.q_like(), Some("%bujía%".to_string()));
    let q = ListQuery { q: None, limit: None, offset: None, sucursal_id: None };
    assert_eq!(q.limit(), 100);
    assert_eq!(q.offset(), 0);
    assert_eq!(q.q_like(), None);
    let q = ListQuery { q: None, limit: Some(0), offset: Some(20), sucursal_id: None };
    assert_eq!(q.limit(), 1);
    assert_eq!(q.offset(), 20);
}

#[test]
fn configuracion_del_servidor() {
    let c = Config::desde_variables(None, Some("x".repeat(16)), None);
    assert_eq!(c.err(), Some("DATABASE_URL no está definida".to_string()));
    let c = Config::desde_variables(Some("pg://".into()), None, None);
    assert_eq!(c.err(), Some("JWT_SECRET no está definida".to_string()));
    let c = Config::desde_variables(Some("pg://".into()), Some("corta".into()), None);
    assert_eq!(c.err(), Some("JWT_SECRET demasiado corta (mínimo 16 chars)".to_string()));
    let c = Config::desde_variables(Some("pg://".into()), Some("x".repeat(16)), Some("abc".into())).unwrap();
    assert_eq!(c.port, 3000);
    let c = Config::desde_variables(Some("pg://".into()), Some("x".repeat(16)), Some("8080".into())).unwrap();
    assert_eq!(c.port, 8080);
    // Sixteen bytes made of eight two-byte characters are enough.
    assert!(Config::desde_variables(Some("pg://".into()), Some("ñ".repeat(8)), None).is_ok());
}

#[test]
fn login_del_panel() {
    let fila = |activo: bool, sucursal: Option<i64>| AdminCandidato {
        id: 1,
        email: "a@b.mx".into(),
        password_hash: bcrypt::hash("clave", 4).unwrap(),
        nombre: "Admin".into(),
        sucursal_id: sucursal,
        es_super_admin: true,
        activo,
    };
    assert!(matches!(decidir_login_admin(&None, "x"), Err(FalloLogin::NoAutorizado)));
    assert!(matches!(decidir_login_admin(&Some(fila(false, None)), "clave"), Err(FalloLogin::Prohibido)));
    assert!(matches!(decidir_login_admin(&Some(fila(true, None)), "otra"), Err(FalloLogin::NoAutorizado)));
    assert!(matches!(decidir_login_admin(&Some(fila(true, None)), "clave"), Ok(1)));
    assert!(matches!(decidir_login_admin(&Some(fila(true, Some(4))), "clave"), Ok(4)));
    let mut mala = fila(true, None);
    mala.password_hash = "basura".into();
    assert!(matches!(decidir_login_admin(&Some(mala), "clave"), Err(FalloLogin::Interno(_))));
}

#[test]
fn sesiones_del_pos_web() {
    assert_eq!(rol_token(true), "admin");
    assert_eq!(rol_token(false), "device");
    assert_eq!(decidir_login_web(None, "x"), Err("Credenciales incorrectas".to_string()));
    let h = bcrypt::hash("pw", 4).unwrap();
    assert_eq!(decidir_login_web(Some(&h), "pw"), Ok(()));
    assert_eq!(decidir_login_web(Some(&h), "no"), Err("Credenciales incorrectas".to_string()));
    assert!(dispositivo_utilizable(Some("abc")));
    assert!(!dispositivo_utilizable(Some("  ")));
    assert!(!dispositivo_utilizable(None));
    assert!(modo_configurado(false, false));
    assert!(!modo_configurado(false, true));
    let (c, iat) = claims_remoto(1, "a@b.mx", "admin", 1, None, 604800);
    assert_eq!(c.exp, iat + 604800);
    assert_eq!(c.role, "admin");
}

#[test]
fn ruteo_de_comandos() {
    assert!(matches!(ruta_rpc("login_pin"), Ruta::LoginPin));
    assert!(matches!(ruta_rpc("login_password"), Ruta::LoginPassword));
    assert!(matches!(ruta_rpc("logout"), Ruta::Logout));
    assert!(matches!(ruta_rpc("crear_venta"), Ruta::Protegida(Some(Comando::CrearVenta))));
    assert!(matches!(ruta_rpc("listar_productos"), Ruta::Protegida(Some(Comando::ListarProductos))));
    assert!(matches!(ruta_rpc("resolver_dueno_por_pin"), Ruta::Protegida(Some(Comando::ResolverDuenoPorPin))));
    assert!(matches!(ruta_rpc("borrar_todo"), Ruta::Protegida(None)));
    assert!(comando_de("login_pin").is_none());
    assert_eq!(mensaje_no_disponible("borrar_todo"), "RPC 'borrar_todo' no disponible en modo web");
}
