//! Logging in at the point of sale (four-digit PIN or user and password),
//! the owner's PIN for sensitive operations, and the rules for managing
//! users. The database reads and writes stay outside; what is decided on
//! the rows read is here.

use vstd::prelude::*;
use crate::texto::{a_cadena, caracteres, empieza_con, es_blanco, largo_bytes, recortar_spec, unir};
use crate::numero::es_digito;
use crate::externos::{bcrypt_acepta, bcrypt_hash, bcrypt_verifica, error_de_hash, prefijo_bcrypt};

verus! {

/// bcrypt's default cost, used for the first user.
pub const COSTO_INICIAL: u32 = 12;

/// The cost used for users created or edited later.
pub const COSTO_USUARIOS: u32 = 10;

/// An active user as the login query returns it, with the hash to check
/// (the PIN's or the password's, depending on the screen).
pub struct CandidatoLogin {
    pub id: i64,
    pub nombre_completo: String,
    pub nombre_usuario: String,
    pub hash: String,
    pub rol_id: i64,
    pub rol_nombre: String,
    pub es_admin: bool,
}

/// One permission of a role.
pub struct Permiso {
    pub modulo: String,
    pub accion: String,
    pub permitido: bool,
}

/// The user of an open session.
pub struct UsuarioSesion {
    pub id: i64,
    pub nombre_completo: String,
    pub nombre_usuario: String,
    pub rol_id: i64,
    pub rol_nombre: String,
    pub es_admin: bool,
    pub sesion_id: i64,
    pub permisos: Vec<Permiso>,
}

/// What a login screen gets back.
pub struct LoginResult {
    pub ok: bool,
    pub usuario: Option<UsuarioSesion>,
    pub error: Option<String>,
}

/// A user as the management screen lists it.
pub struct UsuarioInfo {
    pub id: i64,
    pub nombre_completo: String,
    pub nombre_usuario: String,
    pub rol_id: i64,
    pub rol_nombre: String,
    pub es_admin: bool,
    pub activo: bool,
    pub ultimo_login: Option<String>,
    pub created_at: String,
}

/// A role.
pub struct RolInfo {
    pub id: i64,
    pub nombre: String,
    pub es_admin: bool,
}

/// The form for a new user.
pub struct NuevoUsuario {
    pub nombre_completo: String,
    pub nombre_usuario: String,
    pub pin: String,
    pub password: String,
    pub rol_id: i64,
}

/// The form for editing a user; an absent or empty PIN or password keeps
/// the old one.
pub struct ActualizarUsuario {
    pub id: i64,
    pub nombre_completo: String,
    pub nombre_usuario: String,
    pub rol_id: i64,
    pub nuevo_pin: Option<String>,
    pub nuevo_password: Option<String>,
}

/// Four characters, each a decimal digit.
pub open spec fn pin_bien_formado(p: Seq<char>) -> bool {
    p.len() == 4 && forall|i: int| 0 <= i < 4 ==> es_digito(#[trigger] p[i])
}

/// The `i`-th candidate's hash accepts `pin`.
pub open spec fn acepta(c: Seq<CandidatoLogin>, pin: Seq<char>, i: int) -> bool {
    bcrypt_acepta(pin, c[i].hash@)
}

/// `i` is the first candidate whose hash accepts `pin`.
pub open spec fn primero_que_acepta(c: Seq<CandidatoLogin>, pin: Seq<char>, i: int) -> bool {
    &&& 0 <= i < c.len()
    &&& acepta(c, pin, i)
    &&& forall|j: int| 0 <= j < i ==> !acepta(c, pin, j)
}

/// No candidate's hash accepts `pin`.
pub open spec fn ninguno_acepta(c: Seq<CandidatoLogin>, pin: Seq<char>) -> bool {
    forall|j: int| 0 <= j < c.len() ==> !acepta(c, pin, j)
}

/// Whether a PIN has the accepted shape: exactly four ASCII digits.
pub fn pin_formato_valido(pin: &str) -> (r: bool)
    ensures
        r == pin_bien_formado(pin@),
{
    let v = caracteres(pin);
    if v.len() != 4 {
        return false;
    }
    let mut i: usize = 0;
    while i < 4
        invariant
            v@ == pin@,
            v.len() == 4,
            i <= 4,
            forall|j: int| 0 <= j < i ==> es_digito(#[trigger] v@[j]),
        decreases 4 - i,
    {
        if !('0' <= v[i] && v[i] <= '9') {
            return false;
        }
        i = i + 1;
    }
    true
}

/// The first candidate whose hash accepts `pin`, in the order given.
pub fn buscar_por_pin(candidatos: &Vec<CandidatoLogin>, pin: &str) -> (r: Option<usize>)
    ensures
        r matches Some(i) ==> primero_que_acepta(candidatos@, pin@, i as int),
        r is None ==> ninguno_acepta(candidatos@, pin@),
{
    let mut i: usize = 0;
    while i < candidatos.len()
        invariant
            i <= candidatos.len(),
            forall|j: int| 0 <= j < i ==> !acepta(candidatos@, pin@, j),
        decreases candidatos.len() - i,
    {
        if bcrypt_verifica(pin, candidatos[i].hash.as_str()) {
            return Some(i);
        }
        i = i + 1;
    }
    None
}

/// The PIN login's decision: a malformed PIN is refused as invalid,
/// otherwise the first active user whose PIN hash accepts it is the one
/// logged in, and with none the PIN is wrong.
pub fn autenticar_pin(pin: &str, candidatos: &Vec<CandidatoLogin>) -> (r: Result<usize, String>)
    ensures
        !pin_bien_formado(pin@) ==> (r matches Err(e) && e@ == "PIN inválido"@),
        pin_bien_formado(pin@) ==> match r {
            Ok(i) => primero_que_acepta(candidatos@, pin@, i as int),
            Err(e) => ninguno_acepta(candidatos@, pin@) && e@ == "PIN incorrecto"@,
        },
{
    if !pin_formato_valido(pin) {
        return Err(a_cadena("PIN inválido"));
    }
    match buscar_por_pin(candidatos, pin) {
        Some(i) => Ok(i),
        None => Err(a_cadena("PIN incorrecto")),
    }
}

/// The password login's decision on the active user found by name (if
/// any): unknown user, wrong password, or accepted.
pub fn autenticar_password(password: &str, candidato: &Option<CandidatoLogin>) -> (r: Result<(), String>)
    ensures
        candidato is None ==> (r matches Err(e) && e@ == "Usuario no encontrado"@),
        candidato matches Some(c) ==> (r is Ok <==> bcrypt_acepta(password@, c.hash@)),
        candidato is Some && r is Err ==> (r matches Err(e) && e@ == "Contraseña incorrecta"@),
{
    match candidato {
        None => Err(a_cadena("Usuario no encontrado")),
        Some(c) => {
            if bcrypt_verifica(password, c.hash.as_str()) {
                Ok(())
            } else {
                Err(a_cadena("Contraseña incorrecta"))
            }
        },
    }
}

impl UsuarioSesion {
    /// The session user built from the candidate that logged in.
    pub fn de_candidato(c: CandidatoLogin, sesion_id: i64, permisos: Vec<Permiso>) -> (u: UsuarioSesion)
        ensures
            u.id == c.id,
            u.nombre_completo == c.nombre_completo,
            u.nombre_usuario == c.nombre_usuario,
            u.rol_id == c.rol_id,
            u.rol_nombre == c.rol_nombre,
            u.es_admin == c.es_admin,
            u.sesion_id == sesion_id,
            u.permisos == permisos,
    {
        UsuarioSesion {
            id: c.id,
            nombre_completo: c.nombre_completo,
            nombre_usuario: c.nombre_usuario,
            rol_id: c.rol_id,
            rol_nombre: c.rol_nombre,
            es_admin: c.es_admin,
            sesion_id,
            permisos,
        }
    }
}

impl LoginResult {
    /// A successful login.
    pub fn exitoso(usuario: UsuarioSesion) -> (r: LoginResult)
        ensures
            r.ok,
            r.usuario == Some(usuario),
            r.error is None,
    {
        LoginResult { ok: true, usuario: Some(usuario), error: None }
    }

    /// A refused login, with its reason.
    pub fn fallido(error: String) -> (r: LoginResult)
        ensures
            !r.ok,
            r.usuario is None,
            r.error == Some(error),
    {
        LoginResult { ok: false, usuario: None, error: Some(error) }
    }
}

/// The audit text of a login: by PIN or by password, and the user name.
pub fn descripcion_login(por_pin: bool, nombre_usuario: &str) -> (r: String)
    ensures
        por_pin ==> r@ == "Inicio de sesión (PIN): "@ + nombre_usuario@,
        !por_pin ==> r@ == "Inicio de sesión (contraseña): "@ + nombre_usuario@,
{
    if por_pin {
        unir("Inicio de sesión (PIN): ", nombre_usuario)
    } else {
        unir("Inicio de sesión (contraseña): ", nombre_usuario)
    }
}

/// Some owner's PIN hash accepts `pin`.
pub fn verificar_pin_dueno(pin: &str, hashes: &Vec<String>) -> (r: bool)
    ensures
        r == exists|i: int| 0 <= i < hashes@.len() && bcrypt_acepta(pin@, #[trigger] hashes@[i]@),
{
    let mut i: usize = 0;
    while i < hashes.len()
        invariant
            i <= hashes.len(),
            forall|j: int| 0 <= j < i ==> !bcrypt_acepta(pin@, #[trigger] hashes@[j]@),
        decreases hashes.len() - i,
    {
        if bcrypt_verifica(pin, hashes[i].as_str()) {
            return true;
        }
        i = i + 1;
    }
    false
}

/// The id of the first owner (id, PIN hash) whose hash accepts `pin`.
pub fn resolver_dueno_por_pin(pin: &str, duenos: &Vec<(i64, String)>) -> (r: Option<i64>)
    ensures
        r matches Some(id) ==> exists|i: int|
            0 <= i < duenos@.len() && (#[trigger] duenos@[i]).0 == id && bcrypt_acepta(pin@, duenos@[i].1@)
                && forall|j: int| 0 <= j < i ==> !bcrypt_acepta(pin@, (#[trigger] duenos@[j]).1@),
        r is None ==> forall|j: int| 0 <= j < duenos@.len() ==> !bcrypt_acepta(pin@, (#[trigger] duenos@[j]).1@),
{
    let mut i: usize = 0;
    while i < duenos.len()
        invariant
            i <= duenos.len(),
            forall|j: int| 0 <= j < i ==> !bcrypt_acepta(pin@, (#[trigger] duenos@[j]).1@),
        decreases duenos.len() - i,
    {
        if bcrypt_verifica(pin, duenos[i].1.as_str()) {
            assert(duenos@[i as int].0 == duenos[i as int].0);
            return Some(duenos[i].0);
        }
        i = i + 1;
    }
    None
}

/// A failure of bcrypt's hashing is never the refusal of a second first
/// user: that text begins otherwise.
proof fn lema_error_de_hash_no_es_refusal(e: Seq<char>, cost: u32)
    requires
        4 <= cost <= 31,
        error_de_hash(e, cost),
    ensures
        e != "Ya existen usuarios en el sistema"@,
{
    reveal_strlit("Rand error: ");
    reveal_strlit("Ya existen usuarios en el sistema");
    assert(e[0] == e.subrange(0, 12)[0]);
}

/// The hashes for the first user: refused when users already exist
/// (`existentes` is how many the count found), otherwise the PIN and the
/// password hashed with cost 12. A hash returned carries that cost and
/// accepts its clear text; whether hashing succeeds rests on bcrypt and
/// the system's randomness, and its failure is answered with bcrypt's text.
pub fn preparar_usuario_inicial(existentes: i64, pin: &str, password: &str) -> (r: Result<(String, String), String>)
    ensures
        existentes > 0 <==> (r matches Err(e) && e@ == "Ya existen usuarios en el sistema"@),
        existentes <= 0 ==> (r matches Err(e) ==> error_de_hash(e@, COSTO_INICIAL)),
        r matches Ok((ph, wh)) ==> existentes <= 0 && bcrypt_acepta(pin@, ph@) && bcrypt_acepta(password@, wh@)
            && ph@.len() == 60 && wh@.len() == 60
            && ph@.subrange(0, 7) == prefijo_bcrypt(COSTO_INICIAL)
            && wh@.subrange(0, 7) == prefijo_bcrypt(COSTO_INICIAL),
{
    if existentes > 0 {
        return Err(a_cadena("Ya existen usuarios en el sistema"));
    }
    let pin_hash = match bcrypt_hash(pin, COSTO_INICIAL) {
        Ok(h) => h,
        Err(e) => {
            proof {
                lema_error_de_hash_no_es_refusal(e@, COSTO_INICIAL);
            }
            return Err(e);
        },
    };
    let password_hash = match bcrypt_hash(password, COSTO_INICIAL) {
        Ok(h) => h,
        Err(e) => {
            proof {
                lema_error_de_hash_no_es_refusal(e@, COSTO_INICIAL);
            }
            return Err(e);
        },
    };
    Ok((pin_hash, password_hash))
}

/// The hashes for a new user: refused when the user name is taken,
/// otherwise the PIN and the password hashed with cost 10; a hashing error
/// is reported with what was being hashed.
pub fn preparar_usuario_nuevo(nombre_ocupado: bool, u: &NuevoUsuario) -> (r: Result<(String, String), String>)
    ensures
        nombre_ocupado ==> (r matches Err(e) && e@ == "Ya existe un usuario con ese nombre"@),
        r matches Ok((ph, wh)) ==> !nombre_ocupado && bcrypt_acepta(u.pin@, ph@) && bcrypt_acepta(
            u.password@,
            wh@,
        ) && ph@.len() == 60 && wh@.len() == 60
            && ph@.subrange(0, 7) == prefijo_bcrypt(COSTO_USUARIOS)
            && wh@.subrange(0, 7) == prefijo_bcrypt(COSTO_USUARIOS),
        !nombre_ocupado ==> (r matches Err(e) ==> exists|he: Seq<char>|
            #![trigger error_de_hash(he, COSTO_USUARIOS)]
            error_de_hash(he, COSTO_USUARIOS) && (e@ == "Error al hashear PIN: "@ + he
                || e@ == "Error al hashear contraseña: "@ + he)),
        !nombre_ocupado && r is Err ==> (r matches Err(e) && (empieza_con(e@, "Error al hashear PIN: "@)
            || empieza_con(e@, "Error al hashear contraseña: "@))),
{
    if nombre_ocupado {
        return Err(a_cadena("Ya existe un usuario con ese nombre"));
    }
    let pin_hash = match bcrypt_hash(u.pin.as_str(), COSTO_USUARIOS) {
        Ok(h) => h,
        Err(e) => {
            let m = unir("Error al hashear PIN: ", e.as_str());
            assert(m@.subrange(0, "Error al hashear PIN: "@.len() as int) =~= "Error al hashear PIN: "@);
            return Err(m);
        },
    };
    let password_hash = match bcrypt_hash(u.password.as_str(), COSTO_USUARIOS) {
        Ok(h) => h,
        Err(e) => {
            let m = unir("Error al hashear contraseña: ", e.as_str());
            assert(m@.subrange(0, "Error al hashear contraseña: "@.len() as int) =~= "Error al hashear contraseña: "@);
            return Err(m);
        },
    };
    Ok((pin_hash, password_hash))
}

/// A replacement credential: none when the field is absent or empty,
/// otherwise its hash with cost 10 (or bcrypt's failure, with its text).
pub fn credencial_nueva(valor: &Option<String>) -> (r: Result<Option<String>, String>)
    ensures
        (valor is None || (valor matches Some(v) && v@.len() == 0)) ==> r == Ok::<Option<String>, String>(None),
        valor matches Some(v) ==> (v@.len() > 0 && r is Ok ==> (r matches Ok(Some(h)) && bcrypt_acepta(
            v@,
            h@,
        ) && h@.len() == 60 && h@.subrange(0, 7) == prefijo_bcrypt(COSTO_USUARIOS))),
        r matches Err(e) ==> (valor matches Some(v) && v@.len() > 0 && error_de_hash(e@, COSTO_USUARIOS)),
{
    match valor {
        None => Ok(None),
        Some(v) => {
            if v.unicode_len() == 0 {
                Ok(None)
            } else {
                match bcrypt_hash(v.as_str(), COSTO_USUARIOS) {
                    Ok(h) => Ok(Some(h)),
                    Err(e) => Err(e),
                }
            }
        },
    }
}

/// The shortest PIN or password, in bytes, the web point of sale takes.
pub const LARGO_MINIMO_WEB: usize = 4;

/// The web point of sale's checks on a new user, in order: a full name and
/// a user name that are not blank, and a PIN and a password of at least
/// four bytes each.
pub fn validar_usuario_web(nombre_completo: &str, nombre_usuario: &str, pin: &str, password: &str) -> (r: Result<(), String>)
    ensures
        recortar_spec(nombre_completo@).len() == 0 ==> (r matches Err(e) && e@ == "Nombre completo obligatorio"@),
        recortar_spec(nombre_completo@).len() > 0 && recortar_spec(nombre_usuario@).len() == 0 ==> (r matches Err(e)
            && e@ == "Nombre de usuario obligatorio"@),
        recortar_spec(nombre_completo@).len() > 0 && recortar_spec(nombre_usuario@).len() > 0 && largo_bytes(pin@)
            < 4 ==> (r matches Err(e) && e@ == "El PIN debe tener al menos 4 caracteres"@),
        recortar_spec(nombre_completo@).len() > 0 && recortar_spec(nombre_usuario@).len() > 0 && largo_bytes(pin@)
            >= 4 && largo_bytes(password@) < 4 ==> (r matches Err(e) && e@
            == "La contraseña debe tener al menos 4 caracteres"@),
        r is Ok <==> recortar_spec(nombre_completo@).len() > 0 && recortar_spec(nombre_usuario@).len() > 0
            && largo_bytes(pin@) >= 4 && largo_bytes(password@) >= 4,
{
    if es_blanco(nombre_completo) {
        return Err(a_cadena("Nombre completo obligatorio"));
    }
    if es_blanco(nombre_usuario) {
        return Err(a_cadena("Nombre de usuario obligatorio"));
    }
    if pin.len() < LARGO_MINIMO_WEB {
        return Err(a_cadena("El PIN debe tener al menos 4 caracteres"));
    }
    if password.len() < LARGO_MINIMO_WEB {
        return Err(a_cadena("La contraseña debe tener al menos 4 caracteres"));
    }
    Ok(())
}

/// The web point of sale's check on a replacement PIN (`es_pin`) or
/// password: absent or empty leaves it unchanged; otherwise it needs at
/// least four bytes.
pub fn validar_credencial_web(valor: Option<&str>, es_pin: bool) -> (r: Result<(), String>)
    ensures
        (valor matches Some(v) && 0 < largo_bytes(v@) < 4) <==> r is Err,
        r matches Err(e) ==> (es_pin ==> e@ == "El PIN debe tener al menos 4 caracteres"@) && (!es_pin ==> e@
            == "La contraseña debe tener al menos 4 caracteres"@),
{
    match valor {
        None => Ok(()),
        Some(v) => {
            let n = v.len();
            if n == 0 || n >= LARGO_MINIMO_WEB {
                Ok(())
            } else if es_pin {
                Err(a_cadena("El PIN debe tener al menos 4 caracteres"))
            } else {
                Err(a_cadena("La contraseña debe tener al menos 4 caracteres"))
            }
        },
    }
}

/// Editing a user is refused when the new user name belongs to another.
pub fn validar_edicion(nombre_de_otro: bool) -> (r: Result<(), String>)
    ensures
        nombre_de_otro <==> (r matches Err(e) && e@ == "Ya existe otro usuario con ese nombre"@),
        !nombre_de_otro ==> r is Ok,
{
    if nombre_de_otro {
        Err(a_cadena("Ya existe otro usuario con ese nombre"))
    } else {
        Ok(())
    }
}

/// An administrator may not deactivate their own account.
pub fn validar_cambio_activo(usuario_id: i64, activo: bool, admin_id: i64) -> (r: Result<(), String>)
    ensures
        (usuario_id == admin_id && !activo) <==> (r matches Err(e) && e@ == "No puedes desactivarte a ti mismo"@),
        !(usuario_id == admin_id && !activo) ==> r is Ok,
{
    if usuario_id == admin_id && !activo {
        Err(a_cadena("No puedes desactivarte a ti mismo"))
    } else {
        Ok(())
    }
}

/// The audit action and text of activating or deactivating a user.
pub fn bitacora_cambio_activo(nombre: &str, activo: bool) -> (r: (String, String))
    ensures
        activo ==> r.0@ == "USUARIO_ACTIVADO"@ && r.1@ == "Usuario "@ + nombre@ + " activado"@,
        !activo ==> r.0@ == "USUARIO_DESACTIVADO"@ && r.1@ == "Usuario "@ + nombre@ + " desactivado"@,
{
    let mut texto = unir("Usuario ", nombre);
    if activo {
        texto.append(" activado");
        (a_cadena("USUARIO_ACTIVADO"), texto)
    } else {
        texto.append(" desactivado");
        (a_cadena("USUARIO_DESACTIVADO"), texto)
    }
}

impl UsuarioInfo {
    /// The listing entry of a user just created: active, never logged in,
    /// with the role's name and flag as read, or "Desconocido" and not an
    /// administrator when the role was not found.
    pub fn creado(id: i64, u: NuevoUsuario, rol: Option<(String, bool)>, ahora: String) -> (r: UsuarioInfo)
        ensures
            r.id == id,
            r.nombre_completo == u.nombre_completo,
            r.nombre_usuario == u.nombre_usuario,
            r.rol_id == u.rol_id,
            rol matches Some((n, a)) ==> r.rol_nombre == n && r.es_admin == a,
            rol is None ==> r.rol_nombre@ == "Desconocido"@ && !r.es_admin,
            r.activo,
            r.ultimo_login is None,
            r.created_at == ahora,
    {
        let (rol_nombre, es_admin) = match rol {
            Some((n, a)) => (n, a),
            None => (a_cadena("Desconocido"), false),
        };
        UsuarioInfo {
            id,
            nombre_completo: u.nombre_completo,
            nombre_usuario: u.nombre_usuario,
            rol_id: u.rol_id,
            rol_nombre,
            es_admin,
            activo: true,
            ultimo_login: None,
            created_at: ahora,
        }
    }
}

/// The audit text of the first user created.
pub fn descripcion_usuario_inicial(nombre_usuario: &str) -> (r: String)
    ensures
        r@ == "Usuario inicial creado: "@ + nombre_usuario@,
{
    unir("Usuario inicial creado: ", nombre_usuario)
}

/// The audit text of a user created.
pub fn descripcion_usuario_creado(nombre_completo: &str, nombre_usuario: &str) -> (r: String)
    ensures
        r@ == "Usuario creado: "@ + nombre_completo@ + " ("@ + nombre_usuario@ + ")"@,
{
    let mut r = unir("Usuario creado: ", nombre_completo);
    r.append(" (");
    r.append(nombre_usuario);
    r.append(")");
    r
}

/// The audit text of a user edited.
pub fn descripcion_usuario_editado(nombre_completo: &str) -> (r: String)
    ensures
        r@ == "Usuario editado: "@ + nombre_completo@,
{
    unir("Usuario editado: ", nombre_completo)
}

/// A PIN of the right shape that some active user's hash accepts always
/// logs in, and it logs in that user or one listed before.
pub proof fn ley_pin_valido_entra(c: Seq<CandidatoLogin>, pin: Seq<char>, k: int)
    requires
        pin_bien_formado(pin),
        0 <= k < c.len(),
        acepta(c, pin, k),
    ensures
        !ninguno_acepta(c, pin),
        forall|i: int| primero_que_acepta(c, pin, i) ==> i <= k,
{
}

/// The first accepting candidate is unique: two logins with the same PIN
/// and the same rows pick the same user.
pub proof fn ley_login_determinista(c: Seq<CandidatoLogin>, pin: Seq<char>, i: int, j: int)
    requires
        primero_que_acepta(c, pin, i),
        primero_que_acepta(c, pin, j),
    ensures
        i == j,
{
}

} // verus!
