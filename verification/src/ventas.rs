//! Sales, voids, returns and waste: their folios, the checks made before
//! the database is touched, the searches' SQL and the audit texts. Amounts
//! of money are the caller's (floating point); this module receives the
//! comparisons made on them.

use vstd::prelude::*;
use crate::texto::{a_cadena, iguales, empieza_con, empieza_con_exec, es_blanco, normalizar_spec, normalizar_texto, recortar, recortar_spec, unir};
use crate::numero::{formato_entero, formato_i64, texto_entero, texto_i64};
use crate::caja::ModoCaja;

verus! {

/// The width of a folio's number.
pub const ANCHO_FOLIO: usize = 6;

/// The folio of number `n` with a prefix such as `V-`: the number
/// zero-padded to six digits.
pub open spec fn folio_spec(prefijo: Seq<char>, n: int) -> Seq<char> {
    prefijo + formato_entero(n, 6)
}

/// The next folio of a sequence whose last value was `ultimo`: the new
/// value and its text.
pub fn siguiente_folio(prefijo: &str, ultimo: i64) -> (r: (i64, String))
    requires
        ultimo < i64::MAX,
    ensures
        r.0 == ultimo + 1,
        r.1@ == folio_spec(prefijo@, ultimo + 1),
{
    let n = ultimo + 1;
    let num = formato_i64(n, ANCHO_FOLIO);
    (n, unir(prefijo, num.as_str()))
}

/// Two different non-negative numbers of one sequence never share a folio.
pub proof fn ley_folio_unico(prefijo: Seq<char>, a: nat, b: nat)
    requires
        a != b,
    ensures
        folio_spec(prefijo, a as int) != folio_spec(prefijo, b as int),
{
    crate::numero::ley_folios_distintos(a, b, 6);
    if folio_spec(prefijo, a as int) == folio_spec(prefijo, b as int) {
        let fa = formato_entero(a as int, 6);
        let fb = formato_entero(b as int, 6);
        assert(fa =~= folio_spec(prefijo, a as int).subrange(prefijo.len() as int, folio_spec(prefijo, a as int).len() as int));
        assert(fb =~= folio_spec(prefijo, b as int).subrange(prefijo.len() as int, folio_spec(prefijo, b as int).len() as int));
    }
}

/// The audit text of a sale; the total comes already written with two
/// decimals.
pub fn descripcion_venta(folio: &str, total: &str, metodo_pago: &str, num_productos: usize) -> (r: String)
    ensures
        r@ == "Venta "@ + folio@ + " — $"@ + total@ + " — "@ + metodo_pago@ + " — "@ + texto_entero(
            num_productos as int,
        ) + " productos"@,
{
    let mut r = unir("Venta ", folio);
    r.append(" — $");
    r.append(total);
    r.append(" — ");
    r.append(metodo_pago);
    r.append(" — ");
    r.append(crate::numero::formato_u64(num_productos as u64, 0).as_str());
    r.append(" productos");
    proof {
        assert(crate::numero::formato_entero(num_productos as int, 0) == crate::numero::rellenar_ceros(
            crate::numero::digitos(num_productos as nat),
            0,
        ));
    }
    r
}

/// A sale may be voided only on the day it was made (its timestamp starts
/// with today's date) and only when no return was recorded against it.
pub fn validar_anulacion(fecha_venta: &str, hoy: &str, num_devoluciones: i64) -> (r: Result<(), String>)
    ensures
        !empieza_con(fecha_venta@, hoy@) ==> (r matches Err(e) && e@
            == "Solo se puede anular una venta del día en curso. Para ventas anteriores, usa el flujo de devolución."@),
        empieza_con(fecha_venta@, hoy@) && num_devoluciones > 0 ==> (r matches Err(e) && e@
            == "La venta tiene devoluciones parciales registradas. No se puede anular completa."@),
        r is Ok <==> empieza_con(fecha_venta@, hoy@) && num_devoluciones <= 0,
{
    if !empieza_con_exec(fecha_venta, hoy) {
        return Err(a_cadena("Solo se puede anular una venta del día en curso. Para ventas anteriores, usa el flujo de devolución."));
    }
    if num_devoluciones > 0 {
        return Err(a_cadena("La venta tiene devoluciones parciales registradas. No se puede anular completa."));
    }
    Ok(())
}

/// The audit text of a void.
pub fn descripcion_anulacion(folio: &str, motivo: &str) -> (r: String)
    ensures
        r@ == "Venta "@ + folio@ + " anulada — Motivo: "@ + motivo@,
{
    let mut r = unir("Venta ", folio);
    r.append(" anulada — Motivo: ");
    r.append(motivo);
    r
}

/// The checks on a return before anything is read: a reason that is not
/// blank, at least one line, and every quantity positive (the caller's
/// comparison); the first failing check names the error.
pub fn validar_devolucion(motivo: &str, num_items: usize, cantidades_positivas: bool) -> (r: Result<(), String>)
    ensures
        recortar_spec(motivo@).len() == 0 ==> (r matches Err(e) && e@ == "El motivo es obligatorio"@),
        recortar_spec(motivo@).len() > 0 && num_items == 0 ==> (r matches Err(e) && e@
            == "Debe incluir al menos un producto a devolver"@),
        recortar_spec(motivo@).len() > 0 && num_items > 0 && !cantidades_positivas ==> (r matches Err(e) && e@
            == "Las cantidades deben ser mayores a 0"@),
        r is Ok <==> recortar_spec(motivo@).len() > 0 && num_items > 0 && cantidades_positivas,
{
    if es_blanco(motivo) {
        return Err(a_cadena("El motivo es obligatorio"));
    }
    if num_items == 0 {
        return Err(a_cadena("Debe incluir al menos un producto a devolver"));
    }
    if !cantidades_positivas {
        return Err(a_cadena("Las cantidades deben ser mayores a 0"));
    }
    Ok(())
}

/// Someone who is not an owner needs an owner's authorisation to record a
/// return.
pub fn validar_autorizacion_devolucion(es_admin: i64, autorizado_por: Option<i64>) -> (r: Result<(), String>)
    ensures
        (es_admin == 0 && autorizado_por is None) <==> (r matches Err(e) && e@
            == "Se requiere autorización del dueño para registrar devoluciones"@),
        !(es_admin == 0 && autorizado_por is None) ==> r is Ok,
{
    if es_admin == 0 && autorizado_por.is_none() {
        Err(a_cadena("Se requiere autorización del dueño para registrar devoluciones"))
    } else {
        Ok(())
    }
}

/// Every line of a return must belong to the sale being returned.
pub fn validar_partida(venta_de_partida: i64, venta_id: i64) -> (r: Result<(), String>)
    ensures
        venta_de_partida != venta_id <==> (r matches Err(e) && e@ == "Una de las partidas no pertenece a la venta"@),
        venta_de_partida == venta_id ==> r is Ok,
{
    if venta_de_partida != venta_id {
        Err(a_cadena("Una de las partidas no pertenece a la venta"))
    } else {
        Ok(())
    }
}

/// The error of a return line that does not exist.
pub fn partida_no_encontrada(id: i64) -> (r: String)
    ensures
        r@ == "Partida de venta no encontrada: id="@ + texto_entero(id as int),
{
    unir("Partida de venta no encontrada: id=", texto_i64(id).as_str())
}

/// The concept of the cash withdrawal that pays a return.
pub fn concepto_devolucion(folio: &str, venta_folio: &str, motivo: &str) -> (r: String)
    ensures
        r@ == "Devolución "@ + folio@ + " de venta "@ + venta_folio@ + " — "@ + motivo@,
{
    let mut r = unir("Devolución ", folio);
    r.append(" de venta ");
    r.append(venta_folio);
    r.append(" — ");
    r.append(motivo);
    r
}

/// Waste needs a positive quantity (the caller's comparison) and a reason
/// that is not blank.
pub fn validar_merma(cantidad_positiva: bool, motivo: &str) -> (r: Result<(), String>)
    ensures
        !cantidad_positiva ==> (r matches Err(e) && e@ == "La cantidad debe ser mayor a 0"@),
        cantidad_positiva && recortar_spec(motivo@).len() == 0 ==> (r matches Err(e) && e@
            == "El motivo es obligatorio"@),
        r is Ok <==> cantidad_positiva && recortar_spec(motivo@).len() > 0,
{
    if !cantidad_positiva {
        return Err(a_cadena("La cantidad debe ser mayor a 0"));
    }
    if es_blanco(motivo) {
        return Err(a_cadena("El motivo es obligatorio"));
    }
    Ok(())
}

/// A value bound to a `?` of a query.
pub enum Parametro {
    Texto(String),
    Entero(i64),
}

/// What a bound value holds.
pub enum ValorSql {
    Texto(Seq<char>),
    Entero(i64),
}

/// The value of a parameter.
pub open spec fn valor_de(p: Parametro) -> ValorSql {
    match p {
        Parametro::Texto(s) => ValorSql::Texto(s@),
        Parametro::Entero(n) => ValorSql::Entero(n),
    }
}

/// The values of a list of parameters.
pub open spec fn valores(ps: Seq<Parametro>) -> Seq<ValorSql> {
    ps.map_values(|p: Parametro| valor_de(p))
}

/// A search filter is used when it is present and not blank.
pub open spec fn activo(f: Option<String>) -> bool {
    f matches Some(s) && recortar_spec(s@).len() > 0
}

/// The trimmed text of a filter.
pub open spec fn recortado(f: Option<String>) -> Seq<char> {
    match f {
        Some(s) => recortar_spec(s@),
        None => Seq::empty(),
    }
}

/// The text of a filter as given.
pub open spec fn crudo(f: Option<String>) -> Seq<char> {
    match f {
        Some(s) => s@,
        None => Seq::empty(),
    }
}

/// `%text%`.
pub open spec fn patron(s: Seq<char>) -> Seq<char> {
    "%"@ + s + "%"@
}

/// The start of the sales search.
pub const SQL_BUSCAR_VENTAS: &'static str = "SELECT v.id, v.folio, u.nombre_completo, cl.nombre,
                  v.total, v.metodo_pago, v.anulada, v.fecha,
                  (SELECT COUNT(*) FROM venta_detalle vd WHERE vd.venta_id = v.id)
           FROM ventas v
           JOIN usuarios u ON u.id = v.usuario_id
           LEFT JOIN clientes cl ON cl.id = v.cliente_id
           WHERE 1=1";

/// The condition on the articles of a sale.
pub const SQL_ARTICULO: &'static str = " AND EXISTS (
            SELECT 1 FROM venta_detalle vd
            JOIN productos p ON p.id = vd.producto_id
            WHERE vd.venta_id = v.id AND (p.codigo LIKE ? OR p.search_text LIKE ?)
        )";

/// The SQL of a sales search with the filters that are used.
pub open spec fn sql_busqueda(
    folio: Option<String>,
    fecha_inicio: Option<String>,
    fecha_fin: Option<String>,
    cliente: Option<String>,
    articulo: Option<String>,
) -> Seq<char> {
    SQL_BUSCAR_VENTAS@ + (if activo(folio) { " AND v.folio LIKE ?"@ } else { Seq::empty() }) + (if activo(
        fecha_inicio,
    ) {
        " AND date(v.fecha) >= date(?)"@
    } else {
        Seq::empty()
    }) + (if activo(fecha_fin) { " AND date(v.fecha) <= date(?)"@ } else { Seq::empty() }) + (if activo(
        cliente,
    ) {
        " AND (cl.nombre LIKE ? OR cl.telefono LIKE ?)"@
    } else {
        Seq::empty()
    }) + (if activo(articulo) { SQL_ARTICULO@ } else { Seq::empty() }) + " ORDER BY v.fecha DESC LIMIT ?"@
}

/// The values bound to a sales search, in order: folio pattern, dates as
/// given, the client pattern twice, the article's code pattern and its
/// normalised pattern, and the limit (100 by default).
pub open spec fn parametros_busqueda(
    folio: Option<String>,
    fecha_inicio: Option<String>,
    fecha_fin: Option<String>,
    cliente: Option<String>,
    articulo: Option<String>,
    limite: Option<i64>,
) -> Seq<ValorSql> {
    (if activo(folio) { seq![ValorSql::Texto(patron(recortado(folio)))] } else { Seq::empty() }) + (if activo(
        fecha_inicio,
    ) {
        seq![ValorSql::Texto(crudo(fecha_inicio))]
    } else {
        Seq::empty()
    }) + (if activo(fecha_fin) { seq![ValorSql::Texto(crudo(fecha_fin))] } else { Seq::empty() }) + (
    if activo(cliente) {
        seq![ValorSql::Texto(patron(recortado(cliente))), ValorSql::Texto(patron(recortado(cliente)))]
    } else {
        Seq::empty()
    }) + (if activo(articulo) {
        seq![
            ValorSql::Texto(patron(recortado(articulo))),
            ValorSql::Texto(patron(normalizar_spec(recortado(articulo)))),
        ]
    } else {
        Seq::empty()
    }) + seq![
        ValorSql::Entero(
            match limite {
                Some(l) => l,
                None => 100,
            },
        ),
    ]
}

/// How many `?` placeholders a text of SQL holds.
pub open spec fn preguntas(s: Seq<char>) -> nat
    decreases s.len(),
{
    if s.len() == 0 {
        0
    } else {
        preguntas(s.drop_last()) + if s.last() == '?' { 1nat } else { 0nat }
    }
}

proof fn lema_preguntas_suma(a: Seq<char>, b: Seq<char>)
    ensures
        preguntas(a + b) == preguntas(a) + preguntas(b),
    decreases b.len(),
{
    if b.len() == 0 {
        assert(a + b =~= a);
    } else {
        lema_preguntas_suma(a, b.drop_last());
        assert((a + b).drop_last() =~= a + b.drop_last());
    }
}

proof fn lema_preguntas_clausulas()
    ensures
        preguntas(" AND v.folio LIKE ?"@) == 1,
        preguntas(" AND date(v.fecha) >= date(?)"@) == 1,
{
    reveal_strlit(" AND v.folio LIKE ?");
    reveal_strlit(" AND date(v.fecha) >= date(?)");
    reveal_with_fuel(preguntas, 32);
}

/// The end date of a sales search is an upper bound on the sale's date:
/// when it is used, the query compares `date(v.fecha) <= date(?)`, and the
/// value bound to that placeholder (counting the placeholders after the
/// query's fixed start) is the end date as given.
pub proof fn ley_busqueda_hasta_fecha(
    folio: Option<String>,
    fecha_inicio: Option<String>,
    fecha_fin: Option<String>,
    cliente: Option<String>,
    articulo: Option<String>,
    limite: Option<i64>,
) -> (r: (Seq<char>, Seq<char>))
    requires
        activo(fecha_fin),
    ensures
        sql_busqueda(folio, fecha_inicio, fecha_fin, cliente, articulo) == SQL_BUSCAR_VENTAS@ + r.0
            + " AND date(v.fecha) <= date(?)"@ + r.1,
        preguntas(r.0) < parametros_busqueda(folio, fecha_inicio, fecha_fin, cliente, articulo, limite).len(),
        parametros_busqueda(folio, fecha_inicio, fecha_fin, cliente, articulo, limite)[preguntas(r.0) as int]
            == ValorSql::Texto(crudo(fecha_fin)),
{
    let a: Seq<char> = if activo(folio) { " AND v.folio LIKE ?"@ } else { Seq::empty() };
    let b: Seq<char> = if activo(fecha_inicio) { " AND date(v.fecha) >= date(?)"@ } else { Seq::empty() };
    let y = (if activo(cliente) { " AND (cl.nombre LIKE ? OR cl.telefono LIKE ?)"@ } else { Seq::empty() }) + (
    if activo(articulo) {
        SQL_ARTICULO@
    } else {
        Seq::empty()
    }) + " ORDER BY v.fecha DESC LIMIT ?"@;
    assert(sql_busqueda(folio, fecha_inicio, fecha_fin, cliente, articulo) =~= SQL_BUSCAR_VENTAS@ + (a + b)
        + " AND date(v.fecha) <= date(?)"@ + y);
    lema_preguntas_clausulas();
    lema_preguntas_suma(a, b);
    assert(preguntas(Seq::<char>::empty()) == 0);
    (a + b, y)
}

/// The trimmed text of a filter when it is used.
fn filtro(f: &Option<String>) -> (r: Option<String>)
    ensures
        r is Some <==> activo(*f),
        r matches Some(t) ==> t@ == recortado(*f),
{
    match f {
        Some(s) => {
            let t = recortar(s.as_str());
            if t.unicode_len() == 0 {
                None
            } else {
                Some(t)
            }
        },
        None => None,
    }
}

fn patron_exec(s: &str) -> (r: String)
    ensures
        r@ == patron(s@),
{
    let mut r = unir("%", s);
    r.append("%");
    r
}

/// Builds the sales search: the SQL, with a condition for each filter that
/// is used, and the values to bind to it.
pub fn busqueda_ventas(
    folio: &Option<String>,
    fecha_inicio: &Option<String>,
    fecha_fin: &Option<String>,
    cliente: &Option<String>,
    articulo: &Option<String>,
    limite: Option<i64>,
) -> (r: (String, Vec<Parametro>))
    ensures
        r.0@ == sql_busqueda(*folio, *fecha_inicio, *fecha_fin, *cliente, *articulo),
        valores(r.1@) == parametros_busqueda(*folio, *fecha_inicio, *fecha_fin, *cliente, *articulo, limite),
{
    let mut sql = a_cadena(SQL_BUSCAR_VENTAS);
    let mut ps: Vec<Parametro> = Vec::new();
    let ghost p0 = ps@;
    if let Some(f) = filtro(folio) {
        sql.append(" AND v.folio LIKE ?");
        ps.push(Parametro::Texto(patron_exec(f.as_str())));
    }
    let ghost p1 = ps@;
    assert(valores(p1) =~= (if activo(*folio) { seq![ValorSql::Texto(patron(recortado(*folio)))] } else { Seq::empty() }));
    if filtro(fecha_inicio).is_some() {
        sql.append(" AND date(v.fecha) >= date(?)");
        match fecha_inicio {
            Some(x) => ps.push(Parametro::Texto(x.clone())),
            None => {},
        }
    }
    let ghost p2 = ps@;
    assert(valores(p2) =~= valores(p1) + (if activo(*fecha_inicio) { seq![ValorSql::Texto(crudo(*fecha_inicio))] } else { Seq::empty() }));
    if filtro(fecha_fin).is_some() {
        sql.append(" AND date(v.fecha) <= date(?)");
        match fecha_fin {
            Some(x) => ps.push(Parametro::Texto(x.clone())),
            None => {},
        }
    }
    let ghost p3 = ps@;
    assert(valores(p3) =~= valores(p2) + (if activo(*fecha_fin) { seq![ValorSql::Texto(crudo(*fecha_fin))] } else { Seq::empty() }));
    if let Some(c) = filtro(cliente) {
        sql.append(" AND (cl.nombre LIKE ? OR cl.telefono LIKE ?)");
        ps.push(Parametro::Texto(patron_exec(c.as_str())));
        ps.push(Parametro::Texto(patron_exec(c.as_str())));
    }
    let ghost p4 = ps@;
    assert(valores(p4) =~= valores(p3) + (if activo(*cliente) {
        seq![ValorSql::Texto(patron(recortado(*cliente))), ValorSql::Texto(patron(recortado(*cliente)))]
    } else {
        Seq::empty()
    }));
    if let Some(a) = filtro(articulo) {
        sql.append(SQL_ARTICULO);
        ps.push(Parametro::Texto(patron_exec(a.as_str())));
        let n = normalizar_texto(a.as_str());
        ps.push(Parametro::Texto(patron_exec(n.as_str())));
    }
    let ghost p5 = ps@;
    assert(valores(p5) =~= valores(p4) + (if activo(*articulo) {
        seq![
            ValorSql::Texto(patron(recortado(*articulo))),
            ValorSql::Texto(patron(normalizar_spec(recortado(*articulo)))),
        ]
    } else {
        Seq::empty()
    }));
    sql.append(" ORDER BY v.fecha DESC LIMIT ?");
    let lim = match limite {
        Some(l) => l,
        None => 100,
    };
    ps.push(Parametro::Entero(lim));
    assert(valores(ps@) =~= valores(p5) + seq![ValorSql::Entero(lim)]);
    (sql, ps)
}

// ----------------------------------------------------------------------------
// The web point of sale (remote server)
// ----------------------------------------------------------------------------

/// The width of a web folio's daily number.
pub const ANCHO_FOLIO_WEB: usize = 4;

/// A web folio: the letter (`V` sale, `D` return), the day as `YYYYMMDD`,
/// and the day's number `n` zero-padded to four digits, as in
/// `V-20240506-0001`.
pub open spec fn folio_web_spec(letra: Seq<char>, dia: Seq<char>, n: int) -> Seq<char> {
    letra + "-"@ + dia + "-"@ + formato_entero(n, 4)
}

/// The next web folio of a day on which `cuenta_hoy` folios of that letter
/// already exist.
pub fn folio_web(letra: &str, dia: &str, cuenta_hoy: i64) -> (r: String)
    requires
        cuenta_hoy < i64::MAX,
    ensures
        r@ == folio_web_spec(letra@, dia@, cuenta_hoy + 1),
{
    let mut r = unir(letra, "-");
    r.append(dia);
    r.append("-");
    let num = formato_i64(cuenta_hoy + 1, ANCHO_FOLIO_WEB);
    r.append(num.as_str());
    r
}

/// Two different non-negative numbers of one letter and one day never
/// share a web folio.
pub proof fn ley_folio_web_unico(letra: Seq<char>, dia: Seq<char>, a: nat, b: nat)
    requires
        a != b,
    ensures
        folio_web_spec(letra, dia, a as int) != folio_web_spec(letra, dia, b as int),
{
    crate::numero::ley_folios_distintos(a, b, 4);
    let p = letra + "-"@ + dia + "-"@;
    let fa = folio_web_spec(letra, dia, a as int);
    let fb = folio_web_spec(letra, dia, b as int);
    assert(fa =~= p + formato_entero(a as int, 4));
    assert(fb =~= p + formato_entero(b as int, 4));
    if fa == fb {
        assert(formato_entero(a as int, 4) =~= fa.subrange(p.len() as int, fa.len() as int));
        assert(formato_entero(b as int, 4) =~= fb.subrange(p.len() as int, fb.len() as int));
    }
}

/// A document the web point of sale records with lines.
pub enum DocumentoWeb {
    Venta,
    Recepcion,
    Pedido,
}

/// The refusal of a document without lines.
pub open spec fn sin_items_spec(d: DocumentoWeb) -> Seq<char> {
    match d {
        DocumentoWeb::Venta => "La venta no tiene items"@,
        DocumentoWeb::Recepcion => "La recepción no tiene items"@,
        DocumentoWeb::Pedido => "El pedido no tiene items"@,
    }
}

/// A sale, a reception or a purchase order needs at least one line.
pub fn validar_items_web(d: DocumentoWeb, num_items: usize) -> (r: Result<(), String>)
    ensures
        num_items == 0 <==> (r matches Err(e) && e@ == sin_items_spec(d)),
        num_items > 0 <==> r is Ok,
{
    if num_items > 0 {
        return Ok(());
    }
    match d {
        DocumentoWeb::Venta => Err(a_cadena("La venta no tiene items")),
        DocumentoWeb::Recepcion => Err(a_cadena("La recepción no tiene items")),
        DocumentoWeb::Pedido => Err(a_cadena("El pedido no tiene items")),
    }
}

/// What the web point of sale does with a recorded sale.
pub enum OperacionVenta {
    Anular,
    Devolver,
}

/// The refusal of touching a sale of the desktop's drawer.
pub open spec fn otra_caja_spec(op: OperacionVenta) -> Seq<char> {
    match op {
        OperacionVenta::Anular =>
            "Esta venta pertenece a otra caja (POS desktop). Anúlala desde allá o cambia tu modo a 'espejo'."@,
        OperacionVenta::Devolver =>
            "Esta venta pertenece a otra caja (POS desktop). La devolución debe hacerse desde allá, o cambia tu modo a 'espejo'."@,
    }
}

/// In individual mode the web drawer may void or take returns only of the
/// sales made on the web; in mirror mode of any.
pub fn validar_caja_de_venta(modo: ModoCaja, origen_venta: &str, op: OperacionVenta) -> (r: Result<(), String>)
    ensures
        (modo is Individual && origen_venta@ != "web"@) <==> (r matches Err(e) && e@ == otra_caja_spec(op)),
        !(modo is Individual && origen_venta@ != "web"@) <==> r is Ok,
{
    let ajena = match modo {
        ModoCaja::Individual => !iguales(origen_venta, "web"),
        ModoCaja::Espejo => false,
    };
    if !ajena {
        return Ok(());
    }
    match op {
        OperacionVenta::Anular => Err(a_cadena(
            "Esta venta pertenece a otra caja (POS desktop). Anúlala desde allá o cambia tu modo a 'espejo'.",
        )),
        OperacionVenta::Devolver => Err(a_cadena(
            "Esta venta pertenece a otra caja (POS desktop). La devolución debe hacerse desde allá, o cambia tu modo a 'espejo'.",
        )),
    }
}

} // verus!
