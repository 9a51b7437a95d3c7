//! The point of sale's HTTPS server for phones on the local network: what
//! its handlers decide about tokens, devices, searches and receptions.
//! Sockets, TLS and the database stay outside.

use vstd::prelude::*;
use crate::texto::{a_cadena, iguales, minusculas, quitar_prefijo, recortar, recortar_spec, empieza_con, unir};
use crate::numero::{texto_entero, texto_i64};
use crate::externos::{ahora_unix, uuid_v4};
use crate::autenticacion::{CandidatoLogin, buscar_por_pin, primero_que_acepta, ninguno_acepta};
use crate::emparejamiento::{PairingStore, canjeable};

verus! {

/// How long a phone's token lives, in days.
pub const JWT_DURATION_DAYS: i64 = 30;

/// Seconds in a day.
pub const SEGUNDOS_DIA: i64 = 86400;

/// The claims of a phone's token.
pub struct Claims {
    /// The user.
    pub sub: i64,
    /// The paired device.
    pub device_id: i64,
    /// The token's unique id.
    pub jti: String,
    pub iat: i64,
    pub exp: i64,
}

/// Who is calling, once the token checked out.
pub struct AuthContext {
    pub usuario_id: i64,
    pub device_id: i64,
    pub jti: String,
}

/// The body of a pairing request from a phone.
pub struct PairingRedeem {
    pub token: String,
    pub pin: String,
    pub device_name: String,
    pub user_agent: Option<String>,
}

/// The body of a PIN login from a phone already paired.
pub struct LoginPinBody {
    pub pin: String,
    pub device_id: i64,
}

/// A user as the phone sees it.
pub struct UsuarioPublico {
    pub id: i64,
    pub nombre_completo: String,
    pub nombre_usuario: String,
    pub rol: String,
    pub es_admin: bool,
}

/// What a successful pairing or login answers.
pub struct AuthResponse {
    pub jwt: String,
    pub usuario: UsuarioPublico,
    pub device_id: i64,
}

/// A supplier in the phone's list.
pub struct ProveedorApi {
    pub id: i64,
    pub nombre: String,
}

/// A purchase order in the phone's list.
pub struct OrdenResumenApi {
    pub id: i64,
    pub folio: String,
    pub proveedor_id: Option<i64>,
    pub proveedor_nombre: Option<String>,
    pub estado: String,
    pub fecha_pedido: String,
    pub total_items: i64,
}

/// What recording a reception answers.
pub struct RecepcionResp {
    pub id: i64,
    pub total_items: i64,
}

/// What the point of sale shows about its server.
pub struct ServerInfoApi {
    pub activo: bool,
    pub port: u16,
    pub ips: Vec<String>,
}

/// A paired device as the point of sale lists it.
pub struct DispositivoRow {
    pub id: i64,
    pub nombre: String,
    pub user_agent: Option<String>,
    pub usuario_id: i64,
    pub usuario_nombre: String,
    pub ultimo_ping: Option<String>,
    pub ip_ultima: Option<String>,
    pub created_at: String,
    pub revocado: bool,
}

/// The largest issue time whose expiry still fits in an `i64`.
pub open spec fn emision_valida(iat: i64) -> bool {
    iat <= i64::MAX - JWT_DURATION_DAYS * SEGUNDOS_DIA
}

impl Claims {
    /// The claims of a token issued at `iat`: valid thirty days.
    pub fn nuevas(sub: i64, device_id: i64, jti: String, iat: i64) -> (c: Claims)
        requires
            emision_valida(iat),
        ensures
            c.sub == sub,
            c.device_id == device_id,
            c.jti == jti,
            c.iat == iat,
            c.exp == iat + JWT_DURATION_DAYS * SEGUNDOS_DIA,
    {
        Claims { sub, device_id, jti, iat, exp: iat + JWT_DURATION_DAYS * SEGUNDOS_DIA }
    }
}

/// The claims for a new token of `usuario_id` on `device_id`: a fresh
/// random id (36 characters) and the current time; whatever the clock
/// says, the token expires thirty days after it was issued.
pub fn emitir_claims(usuario_id: i64, device_id: i64) -> (c: Claims)
    ensures
        c.sub == usuario_id,
        c.device_id == device_id,
        c.jti@.len() == 36,
        c.iat >= 0,
        c.exp == c.iat + JWT_DURATION_DAYS * SEGUNDOS_DIA,
{
    let ahora = ahora_unix();
    let jti = uuid_v4();
    Claims::nuevas(usuario_id, device_id, jti, ahora)
}

impl AuthContext {
    /// The context of a request whose token carried `c`.
    pub fn de_claims(c: Claims) -> (r: AuthContext)
        ensures
            r.usuario_id == c.sub,
            r.device_id == c.device_id,
            r.jti == c.jti,
    {
        AuthContext { usuario_id: c.sub, device_id: c.device_id, jti: c.jti }
    }
}

/// The token of an `Authorization` header: what follows `Bearer `, or
/// nothing when the header is missing or has another form.
pub fn extraer_bearer(cabecera: Option<&str>) -> (r: Option<String>)
    ensures
        cabecera is None ==> r is None,
        cabecera matches Some(h) ==> (r is Some <==> empieza_con(h@, "Bearer "@)),
        cabecera matches Some(h) ==> (r matches Some(t) ==> t@ == h@.subrange(7, h@.len() as int)),
{
    match cabecera {
        None => None,
        Some(h) => {
            let r = quitar_prefijo(h, "Bearer ");
            proof {
                reveal_strlit("Bearer ");
            }
            r
        },
    }
}

/// A request goes on only when its token's device is known and not
/// revoked; an unknown token counts as revoked.
pub fn acceso_permitido(revocado: Option<i64>) -> (r: bool)
    ensures
        r <==> revocado == Some(0i64),
{
    match revocado {
        Some(v) => v == 0,
        None => false,
    }
}

/// A PIN login from a paired phone needs its device registered and not
/// revoked.
pub fn dispositivo_vigente(revocado: Option<i64>) -> (r: Result<(), String>)
    ensures
        revocado is None ==> (r matches Err(e) && e@ == "Dispositivo no registrado"@),
        revocado matches Some(v) ==> (v == 0 <==> r is Ok),
        revocado matches Some(v) ==> (v != 0 ==> (r matches Err(e) && e@ == "Dispositivo revocado"@)),
{
    match revocado {
        None => Err(a_cadena("Dispositivo no registrado")),
        Some(v) => {
            if v != 0 {
                Err(a_cadena("Dispositivo revocado"))
            } else {
                Ok(())
            }
        },
    }
}

/// The user whose PIN a phone sent: the first active user whose hash
/// accepts it, or "PIN incorrecto".
pub fn usuario_por_pin(pin: &str, candidatos: &Vec<CandidatoLogin>) -> (r: Result<usize, String>)
    ensures
        r matches Ok(i) ==> primero_que_acepta(candidatos@, pin@, i as int),
        r is Err ==> ninguno_acepta(candidatos@, pin@) && (r matches Err(e) && e@ == "PIN incorrecto"@),
{
    match buscar_por_pin(candidatos, pin) {
        Some(i) => Ok(i),
        None => Err(a_cadena("PIN incorrecto")),
    }
}

/// The phone's view of the candidate that logged in.
pub fn usuario_publico(c: &CandidatoLogin) -> (u: UsuarioPublico)
    ensures
        u.id == c.id,
        u.nombre_completo@ == c.nombre_completo@,
        u.nombre_usuario@ == c.nombre_usuario@,
        u.rol@ == c.rol_nombre@,
        u.es_admin == c.es_admin,
{
    UsuarioPublico {
        id: c.id,
        nombre_completo: c.nombre_completo.clone(),
        nombre_usuario: c.nombre_usuario.clone(),
        rol: c.rol_nombre.clone(),
        es_admin: c.es_admin,
    }
}

/// Closes a pairing attempt: the token is spent only when the pairing
/// went through; a failed attempt leaves it for another try.
pub fn cerrar_canje(tokens: &mut PairingStore, token: &str, exito: bool)
    requires
        old(tokens).bien_formado(),
    ensures
        final(tokens).bien_formado(),
        exito ==> final(tokens)@ == old(tokens)@.remove(token@),
        exito ==> forall|t: i64| !canjeable(final(tokens)@, token@, t),
        !exito ==> final(tokens)@ == old(tokens)@,
{
    if exito {
        tokens.quitar(token);
    }
}

/// The product search a phone asked for.
pub enum ConsultaProductos {
    /// No text, no supplier: the first fifty active products.
    Todos,
    /// Only a supplier: up to a hundred of its products.
    PorProveedor(i64),
    /// Only a text (already trimmed and lower-cased): exact code first,
    /// then codes or names that contain it, fifty at most.
    PorTexto(String),
    /// Text and supplier together.
    PorTextoYProveedor(String, i64),
}

/// Chooses the product search from the query's `q` and `proveedor_id`
/// parameters: `q` is trimmed and lower-cased, and an empty one means no
/// text.
pub fn consulta_productos(q: &str, proveedor_id: Option<i64>) -> (r: ConsultaProductos)
    ensures
        ({
            let n = minusculas(recortar_spec(q@));
            match r {
                ConsultaProductos::Todos => n.len() == 0 && proveedor_id is None,
                ConsultaProductos::PorProveedor(p) => n.len() == 0 && proveedor_id == Some(p),
                ConsultaProductos::PorTexto(t) => n.len() > 0 && proveedor_id is None && t@ == n,
                ConsultaProductos::PorTextoYProveedor(t, p) => n.len() > 0 && proveedor_id == Some(p)
                    && t@ == n,
            }
        }),
{
    let t = recortar(q);
    let n = t.as_str().to_lowercase();
    if n.unicode_len() == 0 {
        match proveedor_id {
            None => ConsultaProductos::Todos,
            Some(p) => ConsultaProductos::PorProveedor(p),
        }
    } else {
        match proveedor_id {
            None => ConsultaProductos::PorTexto(n),
            Some(p) => ConsultaProductos::PorTextoYProveedor(n, p),
        }
    }
}

/// The purchase-order list shows only open orders when `abiertas` is `1`.
pub fn solo_abiertas(abiertas: Option<&str>) -> (r: bool)
    ensures
        r <==> (abiertas matches Some(a) && a@ == "1"@),
{
    match abiertas {
        Some(a) => iguales(a, "1"),
        None => false,
    }
}

/// A reception from a phone needs at least one item.
pub fn validar_recepcion_movil(num_items: usize) -> (r: Result<(), String>)
    ensures
        num_items == 0 <==> (r matches Err(e) && e@ == "Sin items"@),
        num_items > 0 ==> r is Ok,
{
    if num_items == 0 {
        Err(a_cadena("Sin items"))
    } else {
        Ok(())
    }
}

/// The audit text of a reception recorded from a phone.
pub fn descripcion_recepcion_movil(recepcion_id: i64, total_items: i64) -> (r: String)
    ensures
        r@ == "Recepción #"@ + texto_entero(recepcion_id as int) + " desde móvil · "@ + texto_entero(
            total_items as int,
        ) + " items"@,
{
    let mut r = a_cadena("Recepción #");
    r.append(texto_i64(recepcion_id).as_str());
    r.append(" desde móvil · ");
    r.append(texto_i64(total_items).as_str());
    r.append(" items");
    r
}

/// The audit text of a device paired.
pub fn descripcion_emparejado(nombre: &str) -> (r: String)
    ensures
        r@ == "Dispositivo emparejado: "@ + nombre@,
{
    unir("Dispositivo emparejado: ", nombre)
}

/// The audit text of a device revoked.
pub fn descripcion_revocado(id: i64) -> (r: String)
    ensures
        r@ == "Dispositivo #"@ + texto_entero(id as int) + " revocado"@,
{
    let mut r = a_cadena("Dispositivo #");
    r.append(texto_i64(id).as_str());
    r.append(" revocado");
    r
}

impl DispositivoRow {
    /// A listed device from its row: a user without a name shows as "—",
    /// and any non-zero flag means revoked.
    pub fn de_fila(
        id: i64,
        nombre: String,
        user_agent: Option<String>,
        usuario_id: i64,
        usuario_nombre: Option<String>,
        ultimo_ping: Option<String>,
        ip_ultima: Option<String>,
        created_at: String,
        revocado: i64,
    ) -> (d: DispositivoRow)
        ensures
            d.id == id,
            d.nombre == nombre,
            d.user_agent == user_agent,
            d.usuario_id == usuario_id,
            usuario_nombre matches Some(n) ==> d.usuario_nombre == n,
            usuario_nombre is None ==> d.usuario_nombre@ == "—"@,
            d.ultimo_ping == ultimo_ping,
            d.ip_ultima == ip_ultima,
            d.created_at == created_at,
            d.revocado == (revocado != 0),
    {
        let usuario_nombre = match usuario_nombre {
            Some(n) => n,
            None => a_cadena("—"),
        };
        DispositivoRow {
            id,
            nombre,
            user_agent,
            usuario_id,
            usuario_nombre,
            ultimo_ping,
            ip_ultima,
            created_at,
            revocado: revocado != 0,
        }
    }
}

impl ServerInfoApi {
    /// The server as shown when it is running, or stopped (port 0, no
    /// addresses) when it is not.
    pub fn de_estado(puerto: Option<u16>, ips: Vec<String>) -> (r: ServerInfoApi)
        ensures
            puerto matches Some(p) ==> r.activo && r.port == p && r.ips == ips,
            puerto is None ==> !r.activo && r.port == 0 && r.ips@.len() == 0,
    {
        match puerto {
            Some(p) => ServerInfoApi { activo: true, port: p, ips },
            None => ServerInfoApi { activo: false, port: 0, ips: Vec::new() },
        }
    }
}

} // verus!
