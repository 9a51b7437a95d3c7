//! The remote server: the admin panel's login and listings, the web point
//! of sale's command routing and its sessions, and the server's settings.
//! Postgres and HTTP stay outside.

use vstd::prelude::*;
use crate::texto::{a_cadena, iguales, largo_bytes, minusculas, recortar_spec, unir, es_blanco};
use crate::numero::{parse_u16, parse_u16_spec};
use crate::externos::{
    ahora_unix, bcrypt_acepta, bcrypt_verifica_resultado, bcrypt_verificacion, error_de_verificacion,
};

verus! {

/// How long an admin panel token lives, in seconds (thirty days).
pub const TTL_ADMIN: i64 = 2592000;

/// How long a web point of sale token lives, in seconds (seven days).
pub const TTL_POS_WEB: i64 = 604800;

/// The port used when `PORT` is missing or not a port number.
pub const PUERTO_POR_DEFECTO: u16 = 3000;

/// The fewest bytes a token secret may have.
pub const SECRETO_MINIMO: usize = 16;

/// The common filters of the admin panel's listings.
pub struct ListQuery {
    pub q: Option<String>,
    pub limit: Option<i64>,
    pub offset: Option<i64>,
    pub sucursal_id: Option<i64>,
}

impl ListQuery {
    /// The page size: 100 by default, kept between 1 and 500.
    pub fn limit(&self) -> (r: i64)
        ensures
            self.limit is None ==> r == 100,
            self.limit matches Some(l) ==> r == (if l < 1 { 1 } else if l > 500 { 500 } else { l }),
    {
        let l = match self.limit {
            Some(l) => l,
            None => 100,
        };
        if l < 1 {
            1
        } else if l > 500 {
            500
        } else {
            l
        }
    }

    /// The rows skipped: 0 by default and never negative.
    pub fn offset(&self) -> (r: i64)
        ensures
            self.offset is None ==> r == 0,
            self.offset matches Some(o) ==> r == (if o < 0 { 0 } else { o }),
    {
        match self.offset {
            Some(o) => if o < 0 {
                0
            } else {
                o
            },
            None => 0,
        }
    }

    /// The `LIKE` pattern of the search text: lower-cased, between `%`.
    pub fn q_like(&self) -> (r: Option<String>)
        ensures
            self.q is None ==> r is None,
            self.q matches Some(q) ==> (r matches Some(p) && p@ == "%"@ + minusculas(q@) + "%"@),
    {
        match &self.q {
            None => None,
            Some(q) => {
                let bajo = q.as_str().to_lowercase();
                let mut p = unir("%", bajo.as_str());
                p.append("%");
                Some(p)
            },
        }
    }
}

/// The claims of a remote server token.
pub struct Claims {
    pub sub: i64,
    pub email: String,
    pub role: String,
    pub sucursal: i64,
    /// The browser's device id, when the web point of sale sent one.
    pub device: Option<String>,
    pub exp: i64,
}

impl Claims {
    /// The claims of a token issued at `ahora` that lives `ttl` seconds.
    pub fn nuevas(sub: i64, email: &str, role: &str, sucursal: i64, device: Option<String>, ahora: i64, ttl: i64) -> (c: Claims)
        requires
            i64::MIN <= ahora + ttl <= i64::MAX,
        ensures
            c.sub == sub,
            c.email@ == email@,
            c.role@ == role@,
            c.sucursal == sucursal,
            c.device == device,
            c.exp == ahora + ttl,
    {
        Claims { sub, email: a_cadena(email), role: a_cadena(role), sucursal, device, exp: ahora + ttl }
    }
}

/// The claims of a token issued now that lives `ttl` seconds (short of the
/// largest timestamp by more than the clock can read): whatever the clock
/// says, it expires `ttl` seconds after it.
pub fn emitir_claims(sub: i64, email: &str, role: &str, sucursal: i64, device: Option<String>, ttl: i64) -> (r: (Claims, i64))
    requires
        ttl <= i64::MAX - 8_400_000_000_000,
    ensures
        r.1 >= 0,
        r.0.exp == r.1 + ttl,
        r.0.sub == sub,
        r.0.email@ == email@,
        r.0.role@ == role@,
        r.0.sucursal == sucursal,
        r.0.device == device,
{
    let ahora = ahora_unix();
    (Claims::nuevas(sub, email, role, sucursal, device, ahora, ttl), ahora)
}

/// The admin panel's login form.
pub struct LoginInput {
    pub email: String,
    pub password: String,
}

/// What the admin panel's login answers.
pub struct LoginOutput {
    pub token: String,
    pub sucursal_id: i64,
    pub nombre: String,
    pub es_super_admin: bool,
}

/// An admin user as the login query finds it by e-mail.
pub struct AdminCandidato {
    pub id: i64,
    pub email: String,
    pub password_hash: String,
    pub nombre: String,
    pub sucursal_id: Option<i64>,
    pub es_super_admin: bool,
    pub activo: bool,
}

/// Why the admin panel refused a login.
pub enum FalloLogin {
    /// Unknown e-mail or wrong password.
    NoAutorizado,
    /// The account is disabled.
    Prohibido,
    /// The stored hash could not be read.
    Interno(String),
}

/// The admin login's decision: an unknown e-mail or a wrong password is
/// unauthorised, a disabled account forbidden, a hash bcrypt cannot read an
/// internal error with bcrypt's text; otherwise the branch is the user's,
/// or 1.
pub fn decidir_login_admin(fila: &Option<AdminCandidato>, password: &str) -> (r: Result<i64, FalloLogin>)
    ensures
        fila is None ==> r matches Err(FalloLogin::NoAutorizado),
        fila matches Some(a) ==> (!a.activo ==> r matches Err(FalloLogin::Prohibido)),
        fila matches Some(a) ==> (a.activo ==> (r is Ok <==> bcrypt_acepta(password@, a.password_hash@))),
        fila matches Some(a) ==> (a.activo && bcrypt_verificacion(password@, a.password_hash@) == Some(false)
            ==> r matches Err(FalloLogin::NoAutorizado)),
        fila matches Some(a) ==> (a.activo && bcrypt_verificacion(password@, a.password_hash@) is None
            ==> (r matches Err(FalloLogin::Interno(e)) && error_de_verificacion(e@))),
        fila matches Some(a) ==> (r matches Ok(s) ==> s == (match a.sucursal_id {
            Some(x) => x,
            None => 1,
        })),
{
    match fila {
        None => Err(FalloLogin::NoAutorizado),
        Some(a) => {
            if !a.activo {
                return Err(FalloLogin::Prohibido);
            }
            match bcrypt_verifica_resultado(password, a.password_hash.as_str()) {
                Err(e) => Err(FalloLogin::Interno(e)),
                Ok(false) => Err(FalloLogin::NoAutorizado),
                Ok(true) => Ok(
                    match a.sucursal_id {
                        Some(x) => x,
                        None => 1,
                    },
                ),
            }
        },
    }
}

/// The role a web point of sale token carries.
pub fn rol_token(es_admin: bool) -> (r: String)
    ensures
        es_admin ==> r@ == "admin"@,
        !es_admin ==> r@ == "device"@,
{
    if es_admin {
        a_cadena("admin")
    } else {
        a_cadena("device")
    }
}

/// The web point of sale's password login: one refusal text for an unknown
/// user and for a wrong password.
pub fn decidir_login_web(hash: Option<&str>, password: &str) -> (r: Result<(), String>)
    ensures
        hash is None ==> (r matches Err(e) && e@ == "Credenciales incorrectas"@),
        hash matches Some(h) ==> (r is Ok <==> bcrypt_acepta(password@, h@)),
        r matches Err(e) ==> e@ == "Credenciales incorrectas"@,
{
    match hash {
        None => Err(a_cadena("Credenciales incorrectas")),
        Some(h) => {
            if crate::externos::bcrypt_verifica(password, h) {
                Ok(())
            } else {
                Err(a_cadena("Credenciales incorrectas"))
            }
        },
    }
}

/// The device id a web login registers: one that is present and not blank.
pub fn dispositivo_utilizable(device: Option<&str>) -> (r: bool)
    ensures
        r <==> (device matches Some(d) && recortar_spec(d@).len() > 0),
{
    match device {
        Some(d) => !es_blanco(d),
        None => false,
    }
}

/// Whether the web point of sale should skip its welcome dialog: the device
/// was seen before, or no device was sent.
pub fn modo_configurado(visto_antes: bool, hay_device: bool) -> (r: bool)
    ensures
        r == (visto_antes || !hay_device),
{
    visto_antes || !hay_device
}

/// The server's settings.
pub struct Config {
    pub database_url: String,
    pub jwt_secret: String,
    pub port: u16,
}

impl Config {
    /// The settings from the environment's values (absent when unset): the
    /// database URL and a secret of 16 bytes or more are required, and the
    /// port is `PORT` when it parses, else 3000.
    pub fn desde_variables(database_url: Option<String>, jwt_secret: Option<String>, port: Option<String>) -> (r: Result<Config, String>)
        ensures
            database_url is None ==> (r matches Err(e) && e@ == "DATABASE_URL no está definida"@),
            database_url is Some && jwt_secret is None ==> (r matches Err(e) && e@ == "JWT_SECRET no está definida"@),
            database_url is Some ==> (jwt_secret matches Some(s) ==> (largo_bytes(s@) < 16 <==> (
            r matches Err(e) && e@ == "JWT_SECRET demasiado corta (mínimo 16 chars)"@))),
            database_url is Some ==> (jwt_secret matches Some(s) ==> (largo_bytes(s@) >= 16 <==> r is Ok)),
            r matches Ok(c) ==> database_url == Some(c.database_url) && jwt_secret == Some(c.jwt_secret) && (
            match port {
                Some(p) => match parse_u16_spec(p@) {
                    Some(n) => c.port == n,
                    None => c.port == 3000,
                },
                None => c.port == 3000,
            }),
    {
        let database_url = match database_url {
            Some(u) => u,
            None => {
                return Err(a_cadena("DATABASE_URL no está definida"));
            },
        };
        let jwt_secret = match jwt_secret {
            Some(s) => s,
            None => {
                return Err(a_cadena("JWT_SECRET no está definida"));
            },
        };
        if jwt_secret.as_str().len() < SECRETO_MINIMO {
            return Err(a_cadena("JWT_SECRET demasiado corta (mínimo 16 chars)"));
        }
        let port = match port {
            Some(p) => match parse_u16(p.as_str()) {
                Some(n) => n,
                None => PUERTO_POR_DEFECTO,
            },
            None => PUERTO_POR_DEFECTO,
        };
        Ok(Config { database_url, jwt_secret, port })
    }
}

/// Where a request to `/rpc/{cmd}` goes: the three commands open without a
/// session, or a command that needs one (none when the name is unknown,
/// which is refused once the session checked out).
pub enum Ruta {
    LoginPin,
    LoginPassword,
    Logout,
    Protegida(Option<Comando>),
}

/// The route of a command name.
pub open spec fn ruta_spec(cmd: Seq<char>) -> Ruta {
    if cmd == "login_pin"@ {
        Ruta::LoginPin
    } else if cmd == "login_password"@ {
        Ruta::LoginPassword
    } else if cmd == "logout"@ {
        Ruta::Logout
    } else {
        Ruta::Protegida(comando_spec(cmd))
    }
}

/// Routes a command name.
pub fn ruta_rpc(cmd: &str) -> (r: Ruta)
    ensures
        r == ruta_spec(cmd@),
{
    if iguales(cmd, "login_pin") {
        Ruta::LoginPin
    } else if iguales(cmd, "login_password") {
        Ruta::LoginPassword
    } else if iguales(cmd, "logout") {
        Ruta::Logout
    } else {
        Ruta::Protegida(comando_de(cmd))
    }
}

/// The refusal of a command the web point of sale does not offer.
pub fn mensaje_no_disponible(cmd: &str) -> (r: String)
    ensures
        r@ == "RPC '"@ + cmd@ + "' no disponible en modo web"@,
{
    let mut r = unir("RPC '", cmd);
    r.append("' no disponible en modo web");
    r
}

/// A command of the web point of sale that needs a session.
pub enum Comando {
    ListarProductos,
    ListarProductosStockBajo,
    ObtenerProductoPorCodigo,
    ListarCategorias,
    ListarProveedores,
    ListarClientes,
    CrearCliente,
    ActualizarCliente,
    ToggleClienteActivo,
    ListarUsuarios,
    CrearUsuario,
    ActualizarUsuario,
    ToggleUsuarioActivo,
    ListarRoles,
    CrearProducto,
    ActualizarProducto,
    EliminarProducto,
    AjustarStock,
    GenerarCodigoInterno,
    HistorialPreciosProducto,
    ObtenerConfigNegocio,
    ObtenerConfigDescuentos,
    ActualizarConfigNegocio,
    ListarImpresoras,
    ObtenerInfoBd,
    ObtenerInfoServidor,
    ListarDispositivos,
    ObtenerEstadoSync,
    ConfigurarSync,
    DesactivarSync,
    ProbarConexionRemota,
    ReenviarPendientes,
    RespaldoAutoSiNecesario,
    ListarRespaldos,
    CrearRespaldo,
    ObtenerModoCaja,
    ConfigurarModoCaja,
    ObtenerAperturaHoy,
    CrearAperturaCaja,
    VerificarCorteDiaPendiente,
    ListarMovimientosSinCorte,
    ListarCortes,
    ObtenerDetalleCorte,
    ObtenerFondoSugerido,
    CrearMovimientoCaja,
    CalcularDatosCorte,
    CrearCorte,
    BuscarVentas,
    ObtenerDetalleVenta,
    CrearVenta,
    ListarVentasDia,
    AnularVenta,
    ObtenerEstadisticasDia,
    ListarBitacora,
    ListarPresupuestos,
    ListarDevoluciones,
    ObtenerDetalleDevolucion,
    CrearDevolucion,
    ListarRecepciones,
    ObtenerDetalleRecepcion,
    CrearRecepcion,
    ListarOrdenesPedido,
    ObtenerDetalleOrden,
    CrearOrdenPedido,
    CambiarEstadoOrden,
    VerificarPinDueno,
    ResolverDuenoPorPin,
}

/// The command a name stands for, if any.
pub open spec fn comando_spec(cmd: Seq<char>) -> Option<Comando> {
    if cmd == "listar_productos"@ {
        Some(Comando::ListarProductos)
    } else if cmd == "listar_productos_stock_bajo"@ {
        Some(Comando::ListarProductosStockBajo)
    } else if cmd == "obtener_producto_por_codigo"@ {
        Some(Comando::ObtenerProductoPorCodigo)
    } else if cmd == "listar_categorias"@ {
        Some(Comando::ListarCategorias)
    } else if cmd == "listar_proveedores"@ {
        Some(Comando::ListarProveedores)
    } else if cmd == "listar_clientes"@ {
        Some(Comando::ListarClientes)
    } else if cmd == "crear_cliente"@ {
        Some(Comando::CrearCliente)
    } else if cmd == "actualizar_cliente"@ {
        Some(Comando::ActualizarCliente)
    } else if cmd == "toggle_cliente_activo"@ {
        Some(Comando::ToggleClienteActivo)
    } else if cmd == "listar_usuarios"@ {
        Some(Comando::ListarUsuarios)
    } else if cmd == "crear_usuario"@ {
        Some(Comando::CrearUsuario)
    } else if cmd == "actualizar_usuario"@ {
        Some(Comando::ActualizarUsuario)
    } else if cmd == "toggle_usuario_activo"@ {
        Some(Comando::ToggleUsuarioActivo)
    } else if cmd == "listar_roles"@ {
        Some(Comando::ListarRoles)
    } else if cmd == "crear_producto"@ {
        Some(Comando::CrearProducto)
    } else if cmd == "actualizar_producto"@ {
        Some(Comando::ActualizarProducto)
    } else if cmd == "eliminar_producto"@ {
        Some(Comando::EliminarProducto)
    } else if cmd == "ajustar_stock"@ {
        Some(Comando::AjustarStock)
    } else if cmd == "generar_codigo_interno"@ {
        Some(Comando::GenerarCodigoInterno)
    } else if cmd == "historial_precios_producto"@ {
        Some(Comando::HistorialPreciosProducto)
    } else if cmd == "obtener_config_negocio"@ {
        Some(Comando::ObtenerConfigNegocio)
    } else if cmd == "obtener_config_descuentos"@ {
        Some(Comando::ObtenerConfigDescuentos)
    } else if cmd == "actualizar_config_negocio"@ {
        Some(Comando::ActualizarConfigNegocio)
    } else if cmd == "listar_impresoras"@ {
        Some(Comando::ListarImpresoras)
    } else if cmd == "obtener_info_bd"@ {
        Some(Comando::ObtenerInfoBd)
    } else if cmd == "obtener_info_servidor"@ {
        Some(Comando::ObtenerInfoServidor)
    } else if cmd == "listar_dispositivos"@ {
        Some(Comando::ListarDispositivos)
    } else if cmd == "obtener_estado_sync"@ {
        Some(Comando::ObtenerEstadoSync)
    } else if cmd == "configurar_sync"@ {
        Some(Comando::ConfigurarSync)
    } else if cmd == "desactivar_sync"@ {
        Some(Comando::DesactivarSync)
    } else if cmd == "probar_conexion_remota"@ {
        Some(Comando::ProbarConexionRemota)
    } else if cmd == "reenviar_pendientes"@ {
        Some(Comando::ReenviarPendientes)
    } else if cmd == "respaldo_auto_si_necesario"@ {
        Some(Comando::RespaldoAutoSiNecesario)
    } else if cmd == "listar_respaldos"@ {
        Some(Comando::ListarRespaldos)
    } else if cmd == "crear_respaldo"@ {
        Some(Comando::CrearRespaldo)
    } else if cmd == "obtener_modo_caja"@ {
        Some(Comando::ObtenerModoCaja)
    } else if cmd == "configurar_modo_caja"@ {
        Some(Comando::ConfigurarModoCaja)
    } else if cmd == "obtener_apertura_hoy"@ {
        Some(Comando::ObtenerAperturaHoy)
    } else if cmd == "crear_apertura_caja"@ {
        Some(Comando::CrearAperturaCaja)
    } else if cmd == "verificar_corte_dia_pendiente"@ {
        Some(Comando::VerificarCorteDiaPendiente)
    } else if cmd == "listar_movimientos_sin_corte"@ {
        Some(Comando::ListarMovimientosSinCorte)
    } else if cmd == "listar_cortes"@ {
        Some(Comando::ListarCortes)
    } else if cmd == "obtener_detalle_corte"@ {
        Some(Comando::ObtenerDetalleCorte)
    } else if cmd == "obtener_fondo_sugerido"@ {
        Some(Comando::ObtenerFondoSugerido)
    } else if cmd == "crear_movimiento_caja"@ {
        Some(Comando::CrearMovimientoCaja)
    } else if cmd == "calcular_datos_corte"@ {
        Some(Comando::CalcularDatosCorte)
    } else if cmd == "crear_corte"@ {
        Some(Comando::CrearCorte)
    } else if cmd == "buscar_ventas"@ {
        Some(Comando::BuscarVentas)
    } else if cmd == "obtener_detalle_venta"@ {
        Some(Comando::ObtenerDetalleVenta)
    } else if cmd == "crear_venta"@ {
        Some(Comando::CrearVenta)
    } else if cmd == "listar_ventas_dia"@ {
        Some(Comando::ListarVentasDia)
    } else if cmd == "anular_venta"@ {
        Some(Comando::AnularVenta)
    } else if cmd == "obtener_estadisticas_dia"@ {
        Some(Comando::ObtenerEstadisticasDia)
    } else if cmd == "listar_bitacora"@ {
        Some(Comando::ListarBitacora)
    } else if cmd == "listar_presupuestos"@ {
        Some(Comando::ListarPresupuestos)
    } else if cmd == "listar_devoluciones"@ {
        Some(Comando::ListarDevoluciones)
    } else if cmd == "obtener_detalle_devolucion"@ {
        Some(Comando::ObtenerDetalleDevolucion)
    } else if cmd == "crear_devolucion"@ {
        Some(Comando::CrearDevolucion)
    } else if cmd == "listar_recepciones"@ {
        Some(Comando::ListarRecepciones)
    } else if cmd == "obtener_detalle_recepcion"@ {
        Some(Comando::ObtenerDetalleRecepcion)
    } else if cmd == "crear_recepcion"@ {
        Some(Comando::CrearRecepcion)
    } else if cmd == "listar_ordenes_pedido"@ {
        Some(Comando::ListarOrdenesPedido)
    } else if cmd == "obtener_detalle_orden"@ {
        Some(Comando::ObtenerDetalleOrden)
    } else if cmd == "crear_orden_pedido"@ {
        Some(Comando::CrearOrdenPedido)
    } else if cmd == "cambiar_estado_orden"@ {
        Some(Comando::CambiarEstadoOrden)
    } else if cmd == "verificar_pin_dueno"@ {
        Some(Comando::VerificarPinDueno)
    } else if cmd == "resolver_dueno_por_pin"@ {
        Some(Comando::ResolverDuenoPorPin)
    } else {
        None
    }
}

/// The command a name stands for, if any.
pub fn comando_de(cmd: &str) -> (r: Option<Comando>)
    ensures
        r == comando_spec(cmd@),
{
    if iguales(cmd, "listar_productos") {
        Some(Comando::ListarProductos)
    } else if iguales(cmd, "listar_productos_stock_bajo") {
        Some(Comando::ListarProductosStockBajo)
    } else if iguales(cmd, "obtener_producto_por_codigo") {
        Some(Comando::ObtenerProductoPorCodigo)
    } else if iguales(cmd, "listar_categorias") {
        Some(Comando::ListarCategorias)
    } else if iguales(cmd, "listar_proveedores") {
        Some(Comando::ListarProveedores)
    } else if iguales(cmd, "listar_clientes") {
        Some(Comando::ListarClientes)
    } else if iguales(cmd, "crear_cliente") {
        Some(Comando::CrearCliente)
    } else if iguales(cmd, "actualizar_cliente") {
        Some(Comando::ActualizarCliente)
    } else if iguales(cmd, "toggle_cliente_activo") {
        Some(Comando::ToggleClienteActivo)
    } else if iguales(cmd, "listar_usuarios") {
        Some(Comando::ListarUsuarios)
    } else if iguales(cmd, "crear_usuario") {
        Some(Comando::CrearUsuario)
    } else if iguales(cmd, "actualizar_usuario") {
        Some(Comando::ActualizarUsuario)
    } else if iguales(cmd, "toggle_usuario_activo") {
        Some(Comando::ToggleUsuarioActivo)
    } else if iguales(cmd, "listar_roles") {
        Some(Comando::ListarRoles)
    } else if iguales(cmd, "crear_producto") {
        Some(Comando::CrearProducto)
    } else if iguales(cmd, "actualizar_producto") {
        Some(Comando::ActualizarProducto)
    } else if iguales(cmd, "eliminar_producto") {
        Some(Comando::EliminarProducto)
    } else if iguales(cmd, "ajustar_stock") {
        Some(Comando::AjustarStock)
    } else if iguales(cmd, "generar_codigo_interno") {
        Some(Comando::GenerarCodigoInterno)
    } else if iguales(cmd, "historial_precios_producto") {
        Some(Comando::HistorialPreciosProducto)
    } else if iguales(cmd, "obtener_config_negocio") {
        Some(Comando::ObtenerConfigNegocio)
    } else if iguales(cmd, "obtener_config_descuentos") {
        Some(Comando::ObtenerConfigDescuentos)
    } else if iguales(cmd, "actualizar_config_negocio") {
        Some(Comando::ActualizarConfigNegocio)
    } else if iguales(cmd, "listar_impresoras") {
        Some(Comando::ListarImpresoras)
    } else if iguales(cmd, "obtener_info_bd") {
        Some(Comando::ObtenerInfoBd)
    } else if iguales(cmd, "obtener_info_servidor") {
        Some(Comando::ObtenerInfoServidor)
    } else if iguales(cmd, "listar_dispositivos") {
        Some(Comando::ListarDispositivos)
    } else if iguales(cmd, "obtener_estado_sync") {
        Some(Comando::ObtenerEstadoSync)
    } else if iguales(cmd, "configurar_sync") {
        Some(Comando::ConfigurarSync)
    } else if iguales(cmd, "desactivar_sync") {
        Some(Comando::DesactivarSync)
    } else if iguales(cmd, "probar_conexion_remota") {
        Some(Comando::ProbarConexionRemota)
    } else if iguales(cmd, "reenviar_pendientes") {
        Some(Comando::ReenviarPendientes)
    } else if iguales(cmd, "respaldo_auto_si_necesario") {
        Some(Comando::RespaldoAutoSiNecesario)
    } else if iguales(cmd, "listar_respaldos") {
        Some(Comando::ListarRespaldos)
    } else if iguales(cmd, "crear_respaldo") {
        Some(Comando::CrearRespaldo)
    } else if iguales(cmd, "obtener_modo_caja") {
        Some(Comando::ObtenerModoCaja)
    } else if iguales(cmd, "configurar_modo_caja") {
        Some(Comando::ConfigurarModoCaja)
    } else if iguales(cmd, "obtener_apertura_hoy") {
        Some(Comando::ObtenerAperturaHoy)
    } else if iguales(cmd, "crear_apertura_caja") {
        Some(Comando::CrearAperturaCaja)
    } else if iguales(cmd, "verificar_corte_dia_pendiente") {
        Some(Comando::VerificarCorteDiaPendiente)
    } else if iguales(cmd, "listar_movimientos_sin_corte") {
        Some(Comando::ListarMovimientosSinCorte)
    } else if iguales(cmd, "listar_cortes") {
        Some(Comando::ListarCortes)
    } else if iguales(cmd, "obtener_detalle_corte") {
        Some(Comando::ObtenerDetalleCorte)
    } else if iguales(cmd, "obtener_fondo_sugerido") {
        Some(Comando::ObtenerFondoSugerido)
    } else if iguales(cmd, "crear_movimiento_caja") {
        Some(Comando::CrearMovimientoCaja)
    } else if iguales(cmd, "calcular_datos_corte") {
        Some(Comando::CalcularDatosCorte)
    } else if iguales(cmd, "crear_corte") {
        Some(Comando::CrearCorte)
    } else if iguales(cmd, "buscar_ventas") {
        Some(Comando::BuscarVentas)
    } else if iguales(cmd, "obtener_detalle_venta") {
        Some(Comando::ObtenerDetalleVenta)
    } else if iguales(cmd, "crear_venta") {
        Some(Comando::CrearVenta)
    } else if iguales(cmd, "listar_ventas_dia") {
        Some(Comando::ListarVentasDia)
    } else if iguales(cmd, "anular_venta") {
        Some(Comando::AnularVenta)
    } else if iguales(cmd, "obtener_estadisticas_dia") {
        Some(Comando::ObtenerEstadisticasDia)
    } else if iguales(cmd, "listar_bitacora") {
        Some(Comando::ListarBitacora)
    } else if iguales(cmd, "listar_presupuestos") {
        Some(Comando::ListarPresupuestos)
    } else if iguales(cmd, "listar_devoluciones") {
        Some(Comando::ListarDevoluciones)
    } else if iguales(cmd, "obtener_detalle_devolucion") {
        Some(Comando::ObtenerDetalleDevolucion)
    } else if iguales(cmd, "crear_devolucion") {
        Some(Comando::CrearDevolucion)
    } else if iguales(cmd, "listar_recepciones") {
        Some(Comando::ListarRecepciones)
    } else if iguales(cmd, "obtener_detalle_recepcion") {
        Some(Comando::ObtenerDetalleRecepcion)
    } else if iguales(cmd, "crear_recepcion") {
        Some(Comando::CrearRecepcion)
    } else if iguales(cmd, "listar_ordenes_pedido") {
        Some(Comando::ListarOrdenesPedido)
    } else if iguales(cmd, "obtener_detalle_orden") {
        Some(Comando::ObtenerDetalleOrden)
    } else if iguales(cmd, "crear_orden_pedido") {
        Some(Comando::CrearOrdenPedido)
    } else if iguales(cmd, "cambiar_estado_orden") {
        Some(Comando::CambiarEstadoOrden)
    } else if iguales(cmd, "verificar_pin_dueno") {
        Some(Comando::VerificarPinDueno)
    } else if iguales(cmd, "resolver_dueno_por_pin") {
        Some(Comando::ResolverDuenoPorPin)
    } else {
        None
    }
}

/// The name under which the web point of sale sends each command.
pub open spec fn nombre_comando(c: Comando) -> Seq<char> {
    match c {
        Comando::ListarProductos => "listar_productos"@,
        Comando::ListarProductosStockBajo => "listar_productos_stock_bajo"@,
        Comando::ObtenerProductoPorCodigo => "obtener_producto_por_codigo"@,
        Comando::ListarCategorias => "listar_categorias"@,
        Comando::ListarProveedores => "listar_proveedores"@,
        Comando::ListarClientes => "listar_clientes"@,
        Comando::CrearCliente => "crear_cliente"@,
        Comando::ActualizarCliente => "actualizar_cliente"@,
        Comando::ToggleClienteActivo => "toggle_cliente_activo"@,
        Comando::ListarUsuarios => "listar_usuarios"@,
        Comando::CrearUsuario => "crear_usuario"@,
        Comando::ActualizarUsuario => "actualizar_usuario"@,
        Comando::ToggleUsuarioActivo => "toggle_usuario_activo"@,
        Comando::ListarRoles => "listar_roles"@,
        Comando::CrearProducto => "crear_producto"@,
        Comando::ActualizarProducto => "actualizar_producto"@,
        Comando::EliminarProducto => "eliminar_producto"@,
        Comando::AjustarStock => "ajustar_stock"@,
        Comando::GenerarCodigoInterno => "generar_codigo_interno"@,
        Comando::HistorialPreciosProducto => "historial_precios_producto"@,
        Comando::ObtenerConfigNegocio => "obtener_config_negocio"@,
        Comando::ObtenerConfigDescuentos => "obtener_config_descuentos"@,
        Comando::ActualizarConfigNegocio => "actualizar_config_negocio"@,
        Comando::ListarImpresoras => "listar_impresoras"@,
        Comando::ObtenerInfoBd => "obtener_info_bd"@,
        Comando::ObtenerInfoServidor => "obtener_info_servidor"@,
        Comando::ListarDispositivos => "listar_dispositivos"@,
        Comando::ObtenerEstadoSync => "obtener_estado_sync"@,
        Comando::ConfigurarSync => "configurar_sync"@,
        Comando::DesactivarSync => "desactivar_sync"@,
        Comando::ProbarConexionRemota => "probar_conexion_remota"@,
        Comando::ReenviarPendientes => "reenviar_pendientes"@,
        Comando::RespaldoAutoSiNecesario => "respaldo_auto_si_necesario"@,
        Comando::ListarRespaldos => "listar_respaldos"@,
        Comando::CrearRespaldo => "crear_respaldo"@,
        Comando::ObtenerModoCaja => "obtener_modo_caja"@,
        Comando::ConfigurarModoCaja => "configurar_modo_caja"@,
        Comando::ObtenerAperturaHoy => "obtener_apertura_hoy"@,
        Comando::CrearAperturaCaja => "crear_apertura_caja"@,
        Comando::VerificarCorteDiaPendiente => "verificar_corte_dia_pendiente"@,
        Comando::ListarMovimientosSinCorte => "listar_movimientos_sin_corte"@,
        Comando::ListarCortes => "listar_cortes"@,
        Comando::ObtenerDetalleCorte => "obtener_detalle_corte"@,
        Comando::ObtenerFondoSugerido => "obtener_fondo_sugerido"@,
        Comando::CrearMovimientoCaja => "crear_movimiento_caja"@,
        Comando::CalcularDatosCorte => "calcular_datos_corte"@,
        Comando::CrearCorte => "crear_corte"@,
        Comando::BuscarVentas => "buscar_ventas"@,
        Comando::ObtenerDetalleVenta => "obtener_detalle_venta"@,
        Comando::CrearVenta => "crear_venta"@,
        Comando::ListarVentasDia => "listar_ventas_dia"@,
        Comando::AnularVenta => "anular_venta"@,
        Comando::ObtenerEstadisticasDia => "obtener_estadisticas_dia"@,
        Comando::ListarBitacora => "listar_bitacora"@,
        Comando::ListarPresupuestos => "listar_presupuestos"@,
        Comando::ListarDevoluciones => "listar_devoluciones"@,
        Comando::ObtenerDetalleDevolucion => "obtener_detalle_devolucion"@,
        Comando::CrearDevolucion => "crear_devolucion"@,
        Comando::ListarRecepciones => "listar_recepciones"@,
        Comando::ObtenerDetalleRecepcion => "obtener_detalle_recepcion"@,
        Comando::CrearRecepcion => "crear_recepcion"@,
        Comando::ListarOrdenesPedido => "listar_ordenes_pedido"@,
        Comando::ObtenerDetalleOrden => "obtener_detalle_orden"@,
        Comando::CrearOrdenPedido => "crear_orden_pedido"@,
        Comando::CambiarEstadoOrden => "cambiar_estado_orden"@,
        Comando::VerificarPinDueno => "verificar_pin_dueno"@,
        Comando::ResolverDuenoPorPin => "resolver_dueno_por_pin"@,
    }
}

/// Every command the web point of sale offers is routed, under its name,
/// to that command and to no other; and a name routed to a command is that
/// command's name. So no command of the list is ever answered as
/// unavailable, and two names never reach the same command.
pub proof fn ley_comandos_web()
    ensures
        forall|c: Comando| #[trigger] comando_spec(nombre_comando(c)) == Some(c),
        forall|c: Comando| #[trigger] ruta_spec(nombre_comando(c)) == Ruta::Protegida(Some(c)),
        forall|n: Seq<char>, c: Comando| #![trigger comando_spec(n), nombre_comando(c)] comando_spec(n) == Some(c) ==> n == nombre_comando(c),
{
    reveal_strlit("listar_productos");
    assert("listar_productos"@.len() == 16 && "listar_productos"@[0] == 'l' && "listar_productos"@[6] == '_' && "listar_productos"@[11] == 'u');
    reveal_strlit("listar_productos_stock_bajo");
    assert("listar_productos_stock_bajo"@.len() == 27 && "listar_productos_stock_bajo"@[0] == 'l' && "listar_productos_stock_bajo"@[6] == '_' && "listar_productos_stock_bajo"@[11] == 'u' && "listar_productos_stock_bajo"@[16] == '_');
    reveal_strlit("obtener_producto_por_codigo");
    assert("obtener_producto_por_codigo"@.len() == 27 && "obtener_producto_por_codigo"@[0] == 'o' && "obtener_producto_por_codigo"@[6] == 'r' && "obtener_producto_por_codigo"@[11] == 'd' && "obtener_producto_por_codigo"@[16] == '_');
    reveal_strlit("listar_categorias");
    assert("listar_categorias"@.len() == 17 && "listar_categorias"@[0] == 'l' && "listar_categorias"@[6] == '_' && "listar_categorias"@[11] == 'g' && "listar_categorias"@[16] == 's');
    reveal_strlit("listar_proveedores");
    assert("listar_proveedores"@.len() == 18 && "listar_proveedores"@[0] == 'l' && "listar_proveedores"@[6] == '_' && "listar_proveedores"@[11] == 'e' && "listar_proveedores"@[16] == 'e');
    reveal_strlit("listar_clientes");
    assert("listar_clientes"@.len() == 15 && "listar_clientes"@[0] == 'l' && "listar_clientes"@[6] == '_' && "listar_clientes"@[11] == 'n');
    reveal_strlit("crear_cliente");
    assert("crear_cliente"@.len() == 13 && "crear_cliente"@[0] == 'c' && "crear_cliente"@[6] == 'c' && "crear_cliente"@[11] == 't');
    reveal_strlit("actualizar_cliente");
    assert("actualizar_cliente"@.len() == 18 && "actualizar_cliente"@[0] == 'a' && "actualizar_cliente"@[6] == 'i' && "actualizar_cliente"@[11] == 'c' && "actualizar_cliente"@[16] == 't');
    reveal_strlit("toggle_cliente_activo");
    assert("toggle_cliente_activo"@.len() == 21 && "toggle_cliente_activo"@[0] == 't' && "toggle_cliente_activo"@[6] == '_' && "toggle_cliente_activo"@[11] == 'n' && "toggle_cliente_activo"@[16] == 'c');
    reveal_strlit("listar_usuarios");
    assert("listar_usuarios"@.len() == 15 && "listar_usuarios"@[0] == 'l' && "listar_usuarios"@[6] == '_' && "listar_usuarios"@[11] == 'r');
    reveal_strlit("crear_usuario");
    assert("crear_usuario"@.len() == 13 && "crear_usuario"@[0] == 'c' && "crear_usuario"@[6] == 'u' && "crear_usuario"@[11] == 'i');
    reveal_strlit("actualizar_usuario");
    assert("actualizar_usuario"@.len() == 18 && "actualizar_usuario"@[0] == 'a' && "actualizar_usuario"@[6] == 'i' && "actualizar_usuario"@[11] == 'u' && "actualizar_usuario"@[16] == 'i');
    reveal_strlit("toggle_usuario_activo");
    assert("toggle_usuario_activo"@.len() == 21 && "toggle_usuario_activo"@[0] == 't' && "toggle_usuario_activo"@[6] == '_' && "toggle_usuario_activo"@[11] == 'r' && "toggle_usuario_activo"@[16] == 'c');
    reveal_strlit("listar_roles");
    assert("listar_roles"@.len() == 12 && "listar_roles"@[0] == 'l' && "listar_roles"@[6] == '_' && "listar_roles"@[11] == 's');
    reveal_strlit("crear_producto");
    assert("crear_producto"@.len() == 14 && "crear_producto"@[0] == 'c' && "crear_producto"@[6] == 'p' && "crear_producto"@[11] == 'c');
    reveal_strlit("actualizar_producto");
    assert("actualizar_producto"@.len() == 19 && "actualizar_producto"@[0] == 'a' && "actualizar_producto"@[6] == 'i' && "actualizar_producto"@[11] == 'p' && "actualizar_producto"@[16] == 'c');
    reveal_strlit("eliminar_producto");
    assert("eliminar_producto"@.len() == 17 && "eliminar_producto"@[0] == 'e' && "eliminar_producto"@[6] == 'a' && "eliminar_producto"@[11] == 'o' && "eliminar_producto"@[16] == 'o');
    reveal_strlit("ajustar_stock");
    assert("ajustar_stock"@.len() == 13 && "ajustar_stock"@[0] == 'a' && "ajustar_stock"@[6] == 'r' && "ajustar_stock"@[11] == 'c');
    reveal_strlit("generar_codigo_interno");
    assert("generar_codigo_interno"@.len() == 22 && "generar_codigo_interno"@[0] == 'g' && "generar_codigo_interno"@[6] == 'r' && "generar_codigo_interno"@[11] == 'i' && "generar_codigo_interno"@[16] == 'n');
    reveal_strlit("historial_precios_producto");
    assert("historial_precios_producto"@.len() == 26 && "historial_precios_producto"@[0] == 'h' && "historial_precios_producto"@[6] == 'i' && "historial_precios_producto"@[11] == 'r' && "historial_precios_producto"@[16] == 's');
    reveal_strlit("obtener_config_negocio");
    assert("obtener_config_negocio"@.len() == 22 && "obtener_config_negocio"@[0] == 'o' && "obtener_config_negocio"@[6] == 'r' && "obtener_config_negocio"@[11] == 'f' && "obtener_config_negocio"@[16] == 'e');
    reveal_strlit("obtener_config_descuentos");
    assert("obtener_config_descuentos"@.len() == 25 && "obtener_config_descuentos"@[0] == 'o' && "obtener_config_descuentos"@[6] == 'r' && "obtener_config_descuentos"@[11] == 'f' && "obtener_config_descuentos"@[16] == 'e');
    reveal_strlit("actualizar_config_negocio");
    assert("actualizar_config_negocio"@.len() == 25 && "actualizar_config_negocio"@[0] == 'a' && "actualizar_config_negocio"@[6] == 'i' && "actualizar_config_negocio"@[11] == 'c' && "actualizar_config_negocio"@[16] == 'g');
    reveal_strlit("listar_impresoras");
    assert("listar_impresoras"@.len() == 17 && "listar_impresoras"@[0] == 'l' && "listar_impresoras"@[6] == '_' && "listar_impresoras"@[11] == 'e' && "listar_impresoras"@[16] == 's');
    reveal_strlit("obtener_info_bd");
    assert("obtener_info_bd"@.len() == 15 && "obtener_info_bd"@[0] == 'o' && "obtener_info_bd"@[6] == 'r' && "obtener_info_bd"@[11] == 'o');
    reveal_strlit("obtener_info_servidor");
    assert("obtener_info_servidor"@.len() == 21 && "obtener_info_servidor"@[0] == 'o' && "obtener_info_servidor"@[6] == 'r' && "obtener_info_servidor"@[11] == 'o' && "obtener_info_servidor"@[16] == 'v');
    reveal_strlit("listar_dispositivos");
    assert("listar_dispositivos"@.len() == 19 && "listar_dispositivos"@[0] == 'l' && "listar_dispositivos"@[6] == '_' && "listar_dispositivos"@[11] == 'o' && "listar_dispositivos"@[16] == 'v');
    reveal_strlit("obtener_estado_sync");
    assert("obtener_estado_sync"@.len() == 19 && "obtener_estado_sync"@[0] == 'o' && "obtener_estado_sync"@[6] == 'r' && "obtener_estado_sync"@[11] == 'a' && "obtener_estado_sync"@[16] == 'y');
    reveal_strlit("configurar_sync");
    assert("configurar_sync"@.len() == 15 && "configurar_sync"@[0] == 'c' && "configurar_sync"@[6] == 'u' && "configurar_sync"@[11] == 's');
    reveal_strlit("desactivar_sync");
    assert("desactivar_sync"@.len() == 15 && "desactivar_sync"@[0] == 'd' && "desactivar_sync"@[6] == 'i' && "desactivar_sync"@[11] == 's');
    reveal_strlit("probar_conexion_remota");
    assert("probar_conexion_remota"@.len() == 22 && "probar_conexion_remota"@[0] == 'p' && "probar_conexion_remota"@[6] == '_' && "probar_conexion_remota"@[11] == 'x' && "probar_conexion_remota"@[16] == 'r');
    reveal_strlit("reenviar_pendientes");
    assert("reenviar_pendientes"@.len() == 19 && "reenviar_pendientes"@[0] == 'r' && "reenviar_pendientes"@[6] == 'a' && "reenviar_pendientes"@[11] == 'n' && "reenviar_pendientes"@[16] == 't');
    reveal_strlit("respaldo_auto_si_necesario");
    assert("respaldo_auto_si_necesario"@.len() == 26 && "respaldo_auto_si_necesario"@[0] == 'r' && "respaldo_auto_si_necesario"@[6] == 'd' && "respaldo_auto_si_necesario"@[11] == 't' && "respaldo_auto_si_necesario"@[16] == '_');
    reveal_strlit("listar_respaldos");
    assert("listar_respaldos"@.len() == 16 && "listar_respaldos"@[0] == 'l' && "listar_respaldos"@[6] == '_' && "listar_respaldos"@[11] == 'a');
    reveal_strlit("crear_respaldo");
    assert("crear_respaldo"@.len() == 14 && "crear_respaldo"@[0] == 'c' && "crear_respaldo"@[6] == 'r' && "crear_respaldo"@[11] == 'l');
    reveal_strlit("obtener_modo_caja");
    assert("obtener_modo_caja"@.len() == 17 && "obtener_modo_caja"@[0] == 'o' && "obtener_modo_caja"@[6] == 'r' && "obtener_modo_caja"@[11] == 'o' && "obtener_modo_caja"@[16] == 'a');
    reveal_strlit("configurar_modo_caja");
    assert("configurar_modo_caja"@.len() == 20 && "configurar_modo_caja"@[0] == 'c' && "configurar_modo_caja"@[6] == 'u' && "configurar_modo_caja"@[11] == 'm' && "configurar_modo_caja"@[16] == 'c');
    reveal_strlit("obtener_apertura_hoy");
    assert("obtener_apertura_hoy"@.len() == 20 && "obtener_apertura_hoy"@[0] == 'o' && "obtener_apertura_hoy"@[6] == 'r' && "obtener_apertura_hoy"@[11] == 'r' && "obtener_apertura_hoy"@[16] == '_');
    reveal_strlit("crear_apertura_caja");
    assert("crear_apertura_caja"@.len() == 19 && "crear_apertura_caja"@[0] == 'c' && "crear_apertura_caja"@[6] == 'a' && "crear_apertura_caja"@[11] == 'u' && "crear_apertura_caja"@[16] == 'a');
    reveal_strlit("verificar_corte_dia_pendiente");
    assert("verificar_corte_dia_pendiente"@.len() == 29 && "verificar_corte_dia_pendiente"@[0] == 'v' && "verificar_corte_dia_pendiente"@[6] == 'c' && "verificar_corte_dia_pendiente"@[11] == 'o' && "verificar_corte_dia_pendiente"@[16] == 'd');
    reveal_strlit("listar_movimientos_sin_corte");
    assert("listar_movimientos_sin_corte"@.len() == 28 && "listar_movimientos_sin_corte"@[0] == 'l' && "listar_movimientos_sin_corte"@[6] == '_' && "listar_movimientos_sin_corte"@[11] == 'm' && "listar_movimientos_sin_corte"@[16] == 'o');
    reveal_strlit("listar_cortes");
    assert("listar_cortes"@.len() == 13 && "listar_cortes"@[0] == 'l' && "listar_cortes"@[6] == '_' && "listar_cortes"@[11] == 'e');
    reveal_strlit("obtener_detalle_corte");
    assert("obtener_detalle_corte"@.len() == 21 && "obtener_detalle_corte"@[0] == 'o' && "obtener_detalle_corte"@[6] == 'r' && "obtener_detalle_corte"@[11] == 'a' && "obtener_detalle_corte"@[16] == 'c');
    reveal_strlit("obtener_fondo_sugerido");
    assert("obtener_fondo_sugerido"@.len() == 22 && "obtener_fondo_sugerido"@[0] == 'o' && "obtener_fondo_sugerido"@[6] == 'r' && "obtener_fondo_sugerido"@[11] == 'd' && "obtener_fondo_sugerido"@[16] == 'g');
    reveal_strlit("crear_movimiento_caja");
    assert("crear_movimiento_caja"@.len() == 21 && "crear_movimiento_caja"@[0] == 'c' && "crear_movimiento_caja"@[6] == 'm' && "crear_movimiento_caja"@[11] == 'i' && "crear_movimiento_caja"@[16] == '_');
    reveal_strlit("calcular_datos_corte");
    assert("calcular_datos_corte"@.len() == 20 && "calcular_datos_corte"@[0] == 'c' && "calcular_datos_corte"@[6] == 'a' && "calcular_datos_corte"@[11] == 't' && "calcular_datos_corte"@[16] == 'o');
    reveal_strlit("crear_corte");
    assert("crear_corte"@.len() == 11 && "crear_corte"@[0] == 'c' && "crear_corte"@[6] == 'c');
    reveal_strlit("buscar_ventas");
    assert("buscar_ventas"@.len() == 13 && "buscar_ventas"@[0] == 'b' && "buscar_ventas"@[6] == '_' && "buscar_ventas"@[11] == 'a');
    reveal_strlit("obtener_detalle_venta");
    assert("obtener_detalle_venta"@.len() == 21 && "obtener_detalle_venta"@[0] == 'o' && "obtener_detalle_venta"@[6] == 'r' && "obtener_detalle_venta"@[11] == 'a' && "obtener_detalle_venta"@[16] == 'v');
    reveal_strlit("crear_venta");
    assert("crear_venta"@.len() == 11 && "crear_venta"@[0] == 'c' && "crear_venta"@[6] == 'v');
    reveal_strlit("listar_ventas_dia");
    assert("listar_ventas_dia"@.len() == 17 && "listar_ventas_dia"@[0] == 'l' && "listar_ventas_dia"@[6] == '_' && "listar_ventas_dia"@[11] == 'a' && "listar_ventas_dia"@[16] == 'a');
    reveal_strlit("anular_venta");
    assert("anular_venta"@.len() == 12 && "anular_venta"@[0] == 'a' && "anular_venta"@[6] == '_' && "anular_venta"@[11] == 'a');
    reveal_strlit("obtener_estadisticas_dia");
    assert("obtener_estadisticas_dia"@.len() == 24 && "obtener_estadisticas_dia"@[0] == 'o' && "obtener_estadisticas_dia"@[6] == 'r' && "obtener_estadisticas_dia"@[11] == 'a' && "obtener_estadisticas_dia"@[16] == 'i');
    reveal_strlit("listar_bitacora");
    assert("listar_bitacora"@.len() == 15 && "listar_bitacora"@[0] == 'l' && "listar_bitacora"@[6] == '_' && "listar_bitacora"@[11] == 'c');
    reveal_strlit("listar_presupuestos");
    assert("listar_presupuestos"@.len() == 19 && "listar_presupuestos"@[0] == 'l' && "listar_presupuestos"@[6] == '_' && "listar_presupuestos"@[11] == 'u' && "listar_presupuestos"@[16] == 't');
    reveal_strlit("listar_devoluciones");
    assert("listar_devoluciones"@.len() == 19 && "listar_devoluciones"@[0] == 'l' && "listar_devoluciones"@[6] == '_' && "listar_devoluciones"@[11] == 'l' && "listar_devoluciones"@[16] == 'n');
    reveal_strlit("obtener_detalle_devolucion");
    assert("obtener_detalle_devolucion"@.len() == 26 && "obtener_detalle_devolucion"@[0] == 'o' && "obtener_detalle_devolucion"@[6] == 'r' && "obtener_detalle_devolucion"@[11] == 'a' && "obtener_detalle_devolucion"@[16] == 'd');
    reveal_strlit("crear_devolucion");
    assert("crear_devolucion"@.len() == 16 && "crear_devolucion"@[0] == 'c' && "crear_devolucion"@[6] == 'd' && "crear_devolucion"@[11] == 'u');
    reveal_strlit("listar_recepciones");
    assert("listar_recepciones"@.len() == 18 && "listar_recepciones"@[0] == 'l' && "listar_recepciones"@[6] == '_' && "listar_recepciones"@[11] == 'p' && "listar_recepciones"@[16] == 'e');
    reveal_strlit("obtener_detalle_recepcion");
    assert("obtener_detalle_recepcion"@.len() == 25 && "obtener_detalle_recepcion"@[0] == 'o' && "obtener_detalle_recepcion"@[6] == 'r' && "obtener_detalle_recepcion"@[11] == 'a' && "obtener_detalle_recepcion"@[16] == 'r');
    reveal_strlit("crear_recepcion");
    assert("crear_recepcion"@.len() == 15 && "crear_recepcion"@[0] == 'c' && "crear_recepcion"@[6] == 'r' && "crear_recepcion"@[11] == 'c');
    reveal_strlit("listar_ordenes_pedido");
    assert("listar_ordenes_pedido"@.len() == 21 && "listar_ordenes_pedido"@[0] == 'l' && "listar_ordenes_pedido"@[6] == '_' && "listar_ordenes_pedido"@[11] == 'n' && "listar_ordenes_pedido"@[16] == 'e');
    reveal_strlit("obtener_detalle_orden");
    assert("obtener_detalle_orden"@.len() == 21 && "obtener_detalle_orden"@[0] == 'o' && "obtener_detalle_orden"@[6] == 'r' && "obtener_detalle_orden"@[11] == 'a' && "obtener_detalle_orden"@[16] == 'o');
    reveal_strlit("crear_orden_pedido");
    assert("crear_orden_pedido"@.len() == 18 && "crear_orden_pedido"@[0] == 'c' && "crear_orden_pedido"@[6] == 'o' && "crear_orden_pedido"@[11] == '_' && "crear_orden_pedido"@[16] == 'd');
    reveal_strlit("cambiar_estado_orden");
    assert("cambiar_estado_orden"@.len() == 20 && "cambiar_estado_orden"@[0] == 'c' && "cambiar_estado_orden"@[6] == 'r' && "cambiar_estado_orden"@[11] == 'a' && "cambiar_estado_orden"@[16] == 'r');
    reveal_strlit("verificar_pin_dueno");
    assert("verificar_pin_dueno"@.len() == 19 && "verificar_pin_dueno"@[0] == 'v' && "verificar_pin_dueno"@[6] == 'c' && "verificar_pin_dueno"@[11] == 'i' && "verificar_pin_dueno"@[16] == 'e');
    reveal_strlit("resolver_dueno_por_pin");
    assert("resolver_dueno_por_pin"@.len() == 22 && "resolver_dueno_por_pin"@[0] == 'r' && "resolver_dueno_por_pin"@[6] == 'e' && "resolver_dueno_por_pin"@[11] == 'e' && "resolver_dueno_por_pin"@[16] == 'o');
    reveal_strlit("login_pin");
    assert("login_pin"@.len() == 9 && "login_pin"@[0] == 'l' && "login_pin"@[6] == 'p');
    reveal_strlit("login_password");
    assert("login_password"@.len() == 14 && "login_password"@[0] == 'l' && "login_password"@[6] == 'p' && "login_password"@[11] == 'o');
    reveal_strlit("logout");
    assert("logout"@.len() == 6 && "logout"@[0] == 'l');
}

} // verus!
