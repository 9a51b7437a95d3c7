use moto_pos::autenticacion::{
    autenticar_password, autenticar_pin, bitacora_cambio_activo, buscar_por_pin, credencial_nueva,
    descripcion_login, pin_formato_valido, resolver_dueno_por_pin, validar_cambio_activo,
    validar_edicion, verificar_pin_dueno, CandidatoLogin, LoginResult, NuevoUsuario, UsuarioInfo,
    UsuarioSesion,
};
use moto_pos::externos::bcrypt_verifica;

fn candidato(id: i64, clave: &str) -> CandidatoLogin {
    CandidatoLogin {
        id,
        nombre_completo: format!("Usuario {}", id),
        nombre_usuario: format!("u{}", id),
        hash: bcrypt::hash(clave, 4).unwrap(),
        rol_id: 2,
        rol_nombre: "Cajero".to_string(),
        es_admin: false,
    }
}

#[test]
fn formato_de_pin() {
    assert!(pin_formato_valido("1234"));
    assert!(!pin_formato_valido("123"));
    assert!(!pin_formato_valido("12a4"));
    assert!(!pin_formato_valido("١٢٣٤"));
    assert!(!pin_formato_valido("12345"));
}

#[test]
fn login_por_pin() {
    let cs = vec![candidato(1, "1111"), candidato(2, "2222"), candidato(3, "2222")];
    assert_eq!(autenticar_pin("12", &cs), Err("PIN inválido".to_string()));
    assert_eq!(autenticar_pin("9999", &cs), Err("PIN incorrecto".to_string()));
    assert_eq!(autenticar_pin("2222", &cs), Ok(1));
    assert_eq!(buscar_por_pin(&cs, "1111"), Some(0));
}

#[test]
fn login_por_password() {
    let c = candidato(7, "secreto");
    assert_eq!(autenticar_password("x", &None), Err("Usuario no encontrado".to_string()));
    assert_eq!(autenticar_password("malo", &Some(candidato(7, "secreto"))), Err("Contraseña incorrecta".to_string()));
    assert_eq!(autenticar_password("secreto", &Some(c)), Ok(()));
}

#[test]
fn hash_ilegible_no_acepta() {
    assert!(!bcrypt_verifica("1234", "no-es-un-hash"));
}

#[test]
fn pin_del_dueno() {
    let hashes = vec![bcrypt::hash("4321", 4).unwrap(), bcrypt::hash("1234", 4).unwrap()];
    assert!(verificar_pin_dueno("1234", &hashes));
    assert!(!verificar_pin_dueno("0000", &hashes));
    let duenos = vec![(10, hashes[0].clone()), (20, hashes[1].clone())];
    assert_eq!(resolver_dueno_por_pin("1234", &duenos), Some(20));
    assert_eq!(resolver_dueno_por_pin("0000", &duenos), None);
}

#[test]
fn resultados_de_login() {
    let c = candidato(1, "1111");
    let u = UsuarioSesion::de_candidato(c, 55, vec![]);
    assert_eq!(u.sesion_id, 55);
    assert_eq!(u.nombre_usuario, "u1");
    let r = LoginResult::exitoso(u);
    assert!(r.ok && r.error.is_none());
    let r = LoginResult::fallido("PIN incorrecto".to_string());
    assert!(!r.ok && r.usuario.is_none());
    assert_eq!(descripcion_login(true, "ana"), "Inicio de sesión (PIN): ana");
    assert_eq!(descripcion_login(false, "ana"), "Inicio de sesión (contraseña): ana");
}

#[test]
fn reglas_de_usuarios() {
    assert_eq!(validar_cambio_activo(3, false, 3), Err("No puedes desactivarte a ti mismo".to_string()));
    assert_eq!(validar_cambio_activo(3, true, 3), Ok(()));
    assert_eq!(validar_cambio_activo(4, false, 3), Ok(()));
    assert_eq!(validar_edicion(true), Err("Ya existe otro usuario con ese nombre".to_string()));
    assert_eq!(validar_edicion(false), Ok(()));
    assert_eq!(
        bitacora_cambio_activo("Ana", false),
        ("USUARIO_DESACTIVADO".to_string(), "Usuario Ana desactivado".to_string())
    );
    assert_eq!(credencial_nueva(&None), Ok(None));
    assert_eq!(credencial_nueva(&Some(String::new())), Ok(None));
}

#[test]
fn credencial_nueva_se_verifica() {
    let h = credencial_nueva(&Some("7777".to_string())).unwrap().unwrap();
    assert!(bcrypt_verifica("7777", &h));
    assert!(!bcrypt_verifica("7778", &h));
}

#[test]
fn usuario_creado_sin_rol() {
    let u = NuevoUsuario {
        nombre_completo: "Ana".to_string(),
        nombre_usuario: "ana".to_string(),
        pin: "1234".to_string(),
        password: "x".to_string(),
        rol_id: 9,
    };
    let info = UsuarioInfo::creado(5, u, None, "2024-01-01 00:00:00".to_string());
    assert_eq!(info.rol_nombre, "Desconocido");
    assert!(!info.es_admin && info.activo && info.ultimo_login.is_none());
}
