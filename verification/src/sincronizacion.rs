//! The synchronisation protocol between the point of sale and the remote
//! server: which tables travel, how aggregates carry their children, and the
//! SQL both sides build from a table name and a row's columns.

use vstd::prelude::*;
use crate::texto::{a_cadena, filtrar, iguales, unir, unir_con, unir_lista, vistas};
use crate::numero::{digitos, digitos_exec};

verus! {

/// The tables that may travel through `/sync/push` and `/sync/pull`.
pub open spec fn tabla_sincronizable(t: Seq<char>) -> bool {
    ||| t == "sucursales"@
    ||| t == "categorias"@
    ||| t == "proveedores"@
    ||| t == "productos"@
    ||| t == "clientes"@
    ||| t == "usuarios"@
    ||| t == "stock_sucursal"@
    ||| t == "ventas"@
    ||| t == "recepciones"@
    ||| t == "ordenes_pedido"@
    ||| t == "presupuestos"@
    ||| t == "cortes"@
    ||| t == "devoluciones"@
    ||| t == "transferencias"@
    ||| t == "movimientos_caja"@
    ||| t == "aperturas_caja"@
    ||| t == "audit_log"@
    ||| t == "venta_detalle"@
    ||| t == "recepcion_detalle"@
    ||| t == "orden_pedido_detalle"@
    ||| t == "presupuesto_detalle"@
    ||| t == "corte_denominaciones"@
    ||| t == "corte_vendedores"@
    ||| t == "devolucion_detalle"@
    ||| t == "transferencia_detalle"@
}

/// The tables whose rows need `sucursal_id` on the server.
pub open spec fn tabla_con_sucursal(t: Seq<char>) -> bool {
    ||| t == "ventas"@
    ||| t == "recepciones"@
    ||| t == "ordenes_pedido"@
    ||| t == "presupuestos"@
    ||| t == "cortes"@
    ||| t == "movimientos_caja"@
    ||| t == "aperturas_caja"@
    ||| t == "devoluciones"@
}

/// The children of an aggregate: pairs (child table, foreign key column).
pub open spec fn hijos_spec(t: Seq<char>) -> Seq<(Seq<char>, Seq<char>)> {
    if t == "ventas"@ {
        seq![("venta_detalle"@, "venta_id"@)]
    } else if t == "presupuestos"@ {
        seq![("presupuesto_detalle"@, "presupuesto_id"@)]
    } else if t == "ordenes_pedido"@ {
        seq![("orden_pedido_detalle"@, "orden_id"@)]
    } else if t == "recepciones"@ {
        seq![("recepcion_detalle"@, "recepcion_id"@)]
    } else if t == "cortes"@ {
        seq![("corte_denominaciones"@, "corte_id"@), ("corte_vendedores"@, "corte_id"@)]
    } else if t == "devoluciones"@ {
        seq![("devolucion_detalle"@, "devolucion_id"@)]
    } else if t == "transferencias"@ {
        seq![("transferencia_detalle"@, "transferencia_id"@)]
    } else {
        Seq::empty()
    }
}

pub open spec fn vistas_pares(v: Seq<(String, String)>) -> Seq<(Seq<char>, Seq<char>)> {
    v.map_values(|p: (String, String)| (p.0@, p.1@))
}

/// Whether a table may be synchronised.
pub fn tabla_valida(t: &str) -> (r: bool)
    ensures
        r == tabla_sincronizable(t@),
{
    iguales(t, "sucursales") || iguales(t, "categorias") || iguales(t, "proveedores")
        || iguales(t, "productos") || iguales(t, "clientes") || iguales(t, "usuarios")
        || iguales(t, "stock_sucursal") || iguales(t, "ventas") || iguales(t, "recepciones")
        || iguales(t, "ordenes_pedido") || iguales(t, "presupuestos") || iguales(t, "cortes")
        || iguales(t, "devoluciones") || iguales(t, "transferencias") || iguales(
        t,
        "movimientos_caja",
    ) || iguales(t, "aperturas_caja") || iguales(t, "audit_log") || iguales(t, "venta_detalle")
        || iguales(t, "recepcion_detalle") || iguales(t, "orden_pedido_detalle") || iguales(
        t,
        "presupuesto_detalle",
    ) || iguales(t, "corte_denominaciones") || iguales(t, "corte_vendedores") || iguales(
        t,
        "devolucion_detalle",
    ) || iguales(t, "transferencia_detalle")
}

/// Whether rows of the table carry `sucursal_id` on the server.
pub fn requiere_sucursal(t: &str) -> (r: bool)
    ensures
        r == tabla_con_sucursal(t@),
{
    iguales(t, "ventas") || iguales(t, "recepciones") || iguales(t, "ordenes_pedido")
        || iguales(t, "presupuestos") || iguales(t, "cortes") || iguales(t, "movimientos_caja")
        || iguales(t, "aperturas_caja") || iguales(t, "devoluciones")
}

fn par(a: &str, b: &str) -> (r: (String, String))
    ensures
        r.0@ == a@,
        r.1@ == b@,
{
    (a_cadena(a), a_cadena(b))
}

/// The children of an aggregate table; empty for any other table.
pub fn hijos_de(tabla: &str) -> (r: Vec<(String, String)>)
    ensures
        vistas_pares(r@) == hijos_spec(tabla@),
{
    let mut r: Vec<(String, String)> = Vec::new();
    if iguales(tabla, "ventas") {
        r.push(par("venta_detalle", "venta_id"));
    } else if iguales(tabla, "presupuestos") {
        r.push(par("presupuesto_detalle", "presupuesto_id"));
    } else if iguales(tabla, "ordenes_pedido") {
        r.push(par("orden_pedido_detalle", "orden_id"));
    } else if iguales(tabla, "recepciones") {
        r.push(par("recepcion_detalle", "recepcion_id"));
    } else if iguales(tabla, "cortes") {
        r.push(par("corte_denominaciones", "corte_id"));
        r.push(par("corte_vendedores", "corte_id"));
    } else if iguales(tabla, "devoluciones") {
        r.push(par("devolucion_detalle", "devolucion_id"));
    } else if iguales(tabla, "transferencias") {
        r.push(par("transferencia_detalle", "transferencia_id"));
    }
    assert(vistas_pares(r@) =~= hijos_spec(tabla@));
    r
}

/// The server fills in `sucursal_id` from the device when the table needs it
/// and the row lacks it (absent or null).
pub fn falta_sucursal(tabla: &str, sucursal_presente: bool) -> (r: bool)
    ensures
        r == (tabla_con_sucursal(tabla@) && !sucursal_presente),
{
    requiere_sucursal(tabla) && !sucursal_presente
}

// ----------------------------------------------------------------------------
// SQL built from names
// ----------------------------------------------------------------------------

pub open spec fn sql_lww_servidor_spec(t: Seq<char>) -> Seq<char> {
    "SELECT updated_at AS ts FROM "@ + t + " WHERE uuid = $1 LIMIT 1"@
}

/// The server's query for the `updated_at` it holds of a row.
pub fn sql_lww_servidor(tabla: &str) -> (r: String)
    ensures
        r@ == sql_lww_servidor_spec(tabla@),
{
    let a = unir("SELECT updated_at AS ts FROM ", tabla);
    unir(a.as_str(), " WHERE uuid = $1 LIMIT 1")
}

pub open spec fn ahora_texto() -> Seq<char> {
    "to_char(now() AT TIME ZONE 'America/Mexico_City', 'YYYY-MM-DD HH24:MI:SS')"@
}

pub open spec fn sql_borrado_logico_spec(t: Seq<char>) -> Seq<char> {
    "UPDATE "@ + t + " SET deleted_at = "@ + ahora_texto() + ", updated_at = "@ + ahora_texto()
        + " WHERE uuid = $1"@
}

/// The server's soft delete: a tombstone in `deleted_at`, never a `DELETE`.
pub fn sql_borrado_logico(tabla: &str) -> (r: String)
    ensures
        r@ == sql_borrado_logico_spec(tabla@),
{
    let ahora = "to_char(now() AT TIME ZONE 'America/Mexico_City', 'YYYY-MM-DD HH24:MI:SS')";
    let mut r = unir("UPDATE ", tabla);
    r.append(" SET deleted_at = ");
    r.append(ahora);
    r.append(", updated_at = ");
    r.append(ahora);
    r.append(" WHERE uuid = $1");
    r
}

pub open spec fn sql_id_servidor_spec(t: Seq<char>) -> Seq<char> {
    "SELECT id FROM "@ + t + " WHERE uuid = $1"@
}

/// The server's lookup of a parent row's id.
pub fn sql_id_servidor(tabla: &str) -> (r: String)
    ensures
        r@ == sql_id_servidor_spec(tabla@),
{
    let a = unir("SELECT id FROM ", tabla);
    unir(a.as_str(), " WHERE uuid = $1")
}

pub open spec fn sql_borrar_hijos_servidor_spec(hijo: Seq<char>, fk: Seq<char>) -> Seq<char> {
    "DELETE FROM "@ + hijo + " WHERE "@ + fk + " = $1"@
}

/// The server replaces an aggregate's children: first it deletes them.
pub fn sql_borrar_hijos_servidor(hijo: &str, fk: &str) -> (r: String)
    ensures
        r@ == sql_borrar_hijos_servidor_spec(hijo@, fk@),
{
    let mut r = unir("DELETE FROM ", hijo);
    r.append(" WHERE ");
    r.append(fk);
    r.append(" = $1");
    r
}

pub open spec fn sql_fila_json_spec(t: Seq<char>) -> Seq<char> {
    "SELECT row_to_json(t)::text AS j FROM "@ + t + " t WHERE uuid = $1"@
}

/// The server's query for a whole row as JSON text.
pub fn sql_fila_json(tabla: &str) -> (r: String)
    ensures
        r@ == sql_fila_json_spec(tabla@),
{
    let a = unir("SELECT row_to_json(t)::text AS j FROM ", tabla);
    unir(a.as_str(), " t WHERE uuid = $1")
}

pub open spec fn sql_hijos_json_spec(hijo: Seq<char>, fk: Seq<char>) -> Seq<char> {
    "SELECT COALESCE(json_agg(row_to_json(t)), '[]'::json)::text AS j FROM "@ + hijo
        + " t WHERE "@ + fk + " = $1"@
}

/// The server's query for an aggregate's children as a JSON array.
pub fn sql_hijos_json(hijo: &str, fk: &str) -> (r: String)
    ensures
        r@ == sql_hijos_json_spec(hijo@, fk@),
{
    let mut r = unir("SELECT COALESCE(json_agg(row_to_json(t)), '[]'::json)::text AS j FROM ", hijo);
    r.append(" t WHERE ");
    r.append(fk);
    r.append(" = $1");
    r
}

/// Columns the server never writes from a pushed row.
pub open spec fn columna_servidor(c: Seq<char>) -> bool {
    c != "id"@ && c != "synced_at"@
}

/// Columns the point of sale never writes from a pulled row.
pub open spec fn columna_pos(c: Seq<char>) -> bool {
    c != "id"@
}

pub open spec fn no_es_uuid(c: Seq<char>) -> bool {
    c != "uuid"@
}

/// `c=excluded.c` for each column but `uuid`.
pub open spec fn asignaciones(cols: Seq<Seq<char>>) -> Seq<Seq<char>>
    decreases cols.len(),
{
    if cols.len() == 0 {
        Seq::empty()
    } else if no_es_uuid(cols.last()) {
        asignaciones(cols.drop_last()).push(cols.last() + "=excluded."@ + cols.last())
    } else {
        asignaciones(cols.drop_last())
    }
}

/// `$1`, `$2`, ... as Postgres numbers its parameters.
pub open spec fn marcadores_pg(n: nat) -> Seq<Seq<char>> {
    Seq::new(n, |i: int| seq!['$'] + digitos((i + 1) as nat))
}

/// One `?` per column, as SQLite takes positional parameters.
pub open spec fn marcadores_sqlite(n: nat) -> Seq<Seq<char>> {
    Seq::new(n, |i: int| seq!['?'])
}

/// The server's upsert of a pushed row, over the columns it keeps; no
/// statement when it keeps none.
pub open spec fn sql_upsert_servidor_spec(t: Seq<char>, cols: Seq<Seq<char>>) -> Option<Seq<char>> {
    let cs = filtrar(cols, |c: Seq<char>| columna_servidor(c));
    let ups = asignaciones(cs);
    if cs.len() == 0 {
        None
    } else if ups.len() == 0 {
        Some(
            "INSERT INTO "@ + t + " ("@ + unir_con(cs, ","@) + ") VALUES ("@ + unir_con(
                marcadores_pg(cs.len()),
                ","@,
            ) + ") ON CONFLICT(uuid) DO NOTHING"@,
        )
    } else {
        Some(
            "INSERT INTO "@ + t + " ("@ + unir_con(cs, ","@) + ") VALUES ("@ + unir_con(
                marcadores_pg(cs.len()),
                ","@,
            ) + ") ON CONFLICT(uuid) DO UPDATE SET "@ + unir_con(ups, ","@),
        )
    }
}

/// The point of sale's upsert of a pulled row; no statement when no column
/// remains.
pub open spec fn sql_upsert_pos_spec(t: Seq<char>, cols: Seq<Seq<char>>) -> Option<Seq<char>> {
    let cs = filtrar(cols, |c: Seq<char>| columna_pos(c));
    if cs.len() == 0 {
        None
    } else {
        Some(
            "INSERT INTO "@ + t + " ("@ + unir_con(cs, ","@) + ") VALUES ("@ + unir_con(
                marcadores_sqlite(cs.len()),
                ","@,
            ) + ") ON CONFLICT(uuid) DO UPDATE SET "@ + unir_con(asignaciones(cs), ","@),
        )
    }
}

/// The columns of `cols` that `p` keeps, in order.
fn filtrar_columnas(cols: &Vec<String>, servidor: bool) -> (r: Vec<String>)
    ensures
        servidor ==> vistas(r@) == filtrar(vistas(cols@), |c: Seq<char>| columna_servidor(c)),
        !servidor ==> vistas(r@) == filtrar(vistas(cols@), |c: Seq<char>| columna_pos(c)),
{
    let ghost p: spec_fn(Seq<char>) -> bool = if servidor {
        |c: Seq<char>| columna_servidor(c)
    } else {
        |c: Seq<char>| columna_pos(c)
    };
    let ghost vs = vistas(cols@);
    let mut r: Vec<String> = Vec::new();
    let mut i: usize = 0;
    while i < cols.len()
        invariant
            vs == vistas(cols@),
            i <= cols.len(),
            p == (if servidor {
                |c: Seq<char>| columna_servidor(c)
            } else {
                |c: Seq<char>| columna_pos(c)
            }),
            vistas(r@) == filtrar(vs.take(i as int), p),
        decreases cols.len() - i,
    {
        let c = &cols[i];
        assert(vs.take(i + 1).drop_last() =~= vs.take(i as int));
        assert(vs.take(i + 1).last() == c@);
        let queda = if servidor {
            !iguales(c.as_str(), "id") && !iguales(c.as_str(), "synced_at")
        } else {
            !iguales(c.as_str(), "id")
        };
        if queda {
            r.push(c.clone());
            assert(vistas(r@) =~= filtrar(vs.take(i as int), p).push(c@));
        }
        i = i + 1;
    }
    assert(vs.take(cols.len() as int) =~= vs);
    r
}

/// `c=excluded.c` for each column but `uuid`.
fn asignaciones_exec(cols: &Vec<String>) -> (r: Vec<String>)
    ensures
        vistas(r@) == asignaciones(vistas(cols@)),
{
    let ghost vs = vistas(cols@);
    let mut r: Vec<String> = Vec::new();
    let mut i: usize = 0;
    while i < cols.len()
        invariant
            vs == vistas(cols@),
            i <= cols.len(),
            vistas(r@) == asignaciones(vs.take(i as int)),
        decreases cols.len() - i,
    {
        let c = cols[i].as_str();
        assert(vs.take(i + 1).drop_last() =~= vs.take(i as int));
        assert(vs.take(i + 1).last() == c@);
        if !iguales(c, "uuid") {
            let mut a = unir(c, "=excluded.");
            a.append(c);
            r.push(a);
            assert(vistas(r@) =~= asignaciones(vs.take(i as int)).push(c@ + "=excluded."@ + c@));
        }
        i = i + 1;
    }
    assert(vs.take(cols.len() as int) =~= vs);
    r
}

fn marcadores(n: usize, pg: bool) -> (r: Vec<String>)
    ensures
        pg ==> vistas(r@) == marcadores_pg(n as nat),
        !pg ==> vistas(r@) == marcadores_sqlite(n as nat),
{
    let mut r: Vec<String> = Vec::new();
    let ghost objetivo = if pg { marcadores_pg(n as nat) } else { marcadores_sqlite(n as nat) };
    let mut i: usize = 0;
    while i < n
        invariant
            i <= n,
            objetivo == (if pg { marcadores_pg(n as nat) } else { marcadores_sqlite(n as nat) }),
            r@.len() == i,
            forall|k: int| 0 <= k < i ==> (#[trigger] r@[k])@ == objetivo[k],
        decreases n - i,
    {
        let m = if pg {
            let d = digitos_exec((i + 1) as u64);
            let m = unir("$", d.as_str());
            assert(m@ == seq!['$'] + digitos((i + 1) as nat)) by {
                reveal_strlit("$");
            }
            m
        } else {
            let m = a_cadena("?");
            assert(m@ == seq!['?']) by {
                reveal_strlit("?");
            }
            m
        };
        assert(m@ == objetivo[i as int]);
        r.push(m);
        i = i + 1;
    }
    assert(vistas(r@) =~= objetivo);
    r
}

/// The server's upsert of a pushed row whose keys are `columnas`, and the
/// columns it binds, in order. `None` when no column is kept.
pub fn sql_upsert_servidor(tabla: &str, columnas: &Vec<String>) -> (r: Option<(String, Vec<String>)>)
    ensures
        r is Some <==> sql_upsert_servidor_spec(tabla@, vistas(columnas@)) is Some,
        r matches Some(p) ==> Some(p.0@) == sql_upsert_servidor_spec(tabla@, vistas(columnas@))
            && vistas(p.1@) == filtrar(vistas(columnas@), |c: Seq<char>| columna_servidor(c)),
{
    let cs = filtrar_columnas(columnas, true);
    if cs.len() == 0 {
        return None;
    }
    let ups = asignaciones_exec(&cs);
    let marcas = marcadores(cs.len(), true);
    let mut r = unir("INSERT INTO ", tabla);
    r.append(" (");
    r.append(unir_lista(&cs, ",").as_str());
    r.append(") VALUES (");
    r.append(unir_lista(&marcas, ",").as_str());
    if ups.len() == 0 {
        r.append(") ON CONFLICT(uuid) DO NOTHING");
    } else {
        r.append(") ON CONFLICT(uuid) DO UPDATE SET ");
        r.append(unir_lista(&ups, ",").as_str());
    }
    Some((r, cs))
}

/// The point of sale's upsert of a pulled row whose keys are `columnas`,
/// and the columns it binds, in order. `None` when no column remains.
pub fn sql_upsert_pos(tabla: &str, columnas: &Vec<String>) -> (r: Option<(String, Vec<String>)>)
    ensures
        r is Some <==> sql_upsert_pos_spec(tabla@, vistas(columnas@)) is Some,
        r matches Some(p) ==> Some(p.0@) == sql_upsert_pos_spec(tabla@, vistas(columnas@))
            && vistas(p.1@) == filtrar(vistas(columnas@), |c: Seq<char>| columna_pos(c)),
{
    let cs = filtrar_columnas(columnas, false);
    if cs.len() == 0 {
        return None;
    }
    let ups = asignaciones_exec(&cs);
    let marcas = marcadores(cs.len(), false);
    let mut r = unir("INSERT INTO ", tabla);
    r.append(" (");
    r.append(unir_lista(&cs, ",").as_str());
    r.append(") VALUES (");
    r.append(unir_lista(&marcas, ",").as_str());
    r.append(") ON CONFLICT(uuid) DO UPDATE SET ");
    r.append(unir_lista(&ups, ",").as_str());
    Some((r, cs))
}

pub open spec fn sql_lww_pos_spec(t: Seq<char>) -> Seq<char> {
    "SELECT updated_at FROM "@ + t + " WHERE uuid = ? LIMIT 1"@
}

/// The point of sale's query for the `updated_at` it holds of a row.
pub fn sql_lww_pos(tabla: &str) -> (r: String)
    ensures
        r@ == sql_lww_pos_spec(tabla@),
{
    let a = unir("SELECT updated_at FROM ", tabla);
    unir(a.as_str(), " WHERE uuid = ? LIMIT 1")
}

pub open spec fn sql_borrar_pos_spec(t: Seq<char>) -> Seq<char> {
    "DELETE FROM "@ + t + " WHERE uuid = ?"@
}

/// The point of sale deletes a row that the server reports deleted.
pub fn sql_borrar_pos(tabla: &str) -> (r: String)
    ensures
        r@ == sql_borrar_pos_spec(tabla@),
{
    let a = unir("DELETE FROM ", tabla);
    unir(a.as_str(), " WHERE uuid = ?")
}

pub open spec fn sql_id_pos_spec(t: Seq<char>) -> Seq<char> {
    "SELECT id FROM "@ + t + " WHERE uuid = ?"@
}

/// The point of sale's lookup of a parent row's id.
pub fn sql_id_pos(tabla: &str) -> (r: String)
    ensures
        r@ == sql_id_pos_spec(tabla@),
{
    let a = unir("SELECT id FROM ", tabla);
    unir(a.as_str(), " WHERE uuid = ?")
}

pub open spec fn sql_borrar_hijos_pos_spec(hijo: Seq<char>, fk: Seq<char>) -> Seq<char> {
    "DELETE FROM "@ + hijo + " WHERE "@ + fk + " = ?"@
}

/// The point of sale replaces an aggregate's children: first it deletes them.
pub fn sql_borrar_hijos_pos(hijo: &str, fk: &str) -> (r: String)
    ensures
        r@ == sql_borrar_hijos_pos_spec(hijo@, fk@),
{
    let mut r = unir("DELETE FROM ", hijo);
    r.append(" WHERE ");
    r.append(fk);
    r.append(" = ?");
    r
}

pub open spec fn sql_fila_pos_spec(t: Seq<char>) -> Seq<char> {
    "SELECT * FROM "@ + t + " WHERE uuid = ? LIMIT 1"@
}

/// The point of sale reads a whole row to push it.
pub fn sql_fila_pos(tabla: &str) -> (r: String)
    ensures
        r@ == sql_fila_pos_spec(tabla@),
{
    let a = unir("SELECT * FROM ", tabla);
    unir(a.as_str(), " WHERE uuid = ? LIMIT 1")
}

pub open spec fn sql_hijos_pos_spec(hijo: Seq<char>, fk: Seq<char>) -> Seq<char> {
    "SELECT * FROM "@ + hijo + " WHERE "@ + fk + " = ?"@
}

/// The point of sale reads the children of an aggregate to push them.
pub fn sql_hijos_pos(hijo: &str, fk: &str) -> (r: String)
    ensures
        r@ == sql_hijos_pos_spec(hijo@, fk@),
{
    let mut r = unir("SELECT * FROM ", hijo);
    r.append(" WHERE ");
    r.append(fk);
    r.append(" = ?");
    r
}

} // verus!
