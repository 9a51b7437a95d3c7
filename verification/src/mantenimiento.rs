//! Keeping the local database healthy: backups (their names, which to keep,
//! the daily automatic one), the weekly compaction, schema migrations still
//! to run, and the audit log's listing.

use vstd::prelude::*;
use crate::texto::{a_cadena, empieza_con, empieza_con_exec, escapar_apostrofes, escapar_apostrofes_spec, unir};
use crate::numero::{texto_entero, texto_i64};
use crate::lww::{lema_menor_total, lema_menor_transitivo, menor_lex, menor_lex_exec};

verus! {

/// How many backups are kept.
pub const RETENCION_MAX: usize = 30;

/// Days between compactions.
pub const VACUUM_INTERVAL_DAYS: i64 = 7;

/// The prefix of every backup's file name.
pub const PREFIJO_RESPALDO: &'static str = "pos_backup_";

/// A backup file.
pub struct Respaldo {
    pub nombre: String,
    pub ruta: String,
    pub tamanio_bytes: u64,
    pub created_at: String,
}

/// An entry of the audit log.
pub struct EntradaBitacora {
    pub id: i64,
    pub usuario_nombre: Option<String>,
    pub accion: String,
    pub tabla_afectada: Option<String>,
    pub registro_id: Option<i64>,
    pub descripcion_legible: String,
    pub origen: String,
    pub fecha: String,
}

/// The file name of a backup taken at `stamp` (`%Y%m%d_%H%M%S`).
pub fn nombre_respaldo(stamp: &str) -> (r: String)
    ensures
        r@ == "pos_backup_"@ + stamp@ + ".db"@,
{
    let mut r = unir(PREFIJO_RESPALDO, stamp);
    r.append(".db");
    r
}

/// The statement that copies the database into `destino`, the path quoted
/// with its apostrophes doubled.
pub fn sql_vacuum_into(destino: &str) -> (r: String)
    ensures
        r@ == "VACUUM INTO '"@ + escapar_apostrofes_spec(destino@) + "'"@,
{
    let mut r = a_cadena("VACUUM INTO '");
    r.append(escapar_apostrofes(destino).as_str());
    r.append("'");
    r
}

/// A file in the backups folder is a backup when its extension is `db` and
/// its name starts with `pos_backup_`.
pub fn es_respaldo(nombre: &str, extension: Option<&str>) -> (r: bool)
    ensures
        r <==> (extension matches Some(e) && e@ == "db"@) && empieza_con(nombre@, "pos_backup_"@),
{
    let ext_db = match extension {
        Some(e) => crate::texto::iguales(e, "db"),
        None => false,
    };
    ext_db && empieza_con_exec(nombre, PREFIJO_RESPALDO)
}

/// How many of `nombres` sort after `n`.
pub open spec fn mayores_que(nombres: Seq<String>, n: Seq<char>) -> nat
    decreases nombres.len(),
{
    if nombres.len() == 0 {
        0
    } else {
        mayores_que(nombres.drop_last(), n) + (if menor_lex(n, nombres.last()@) { 1nat } else { 0nat })
    }
}

/// Names are all different.
pub open spec fn distintos(nombres: Seq<String>) -> bool {
    forall|i: int, j: int| 0 <= i < j < nombres.len() ==> nombres[i]@ != nombres[j]@
}

fn contar_mayores(nombres: &Vec<String>, n: &str) -> (r: usize)
    ensures
        r == mayores_que(nombres@, n@),
{
    let mut c: usize = 0;
    let mut i: usize = 0;
    while i < nombres.len()
        invariant
            i <= nombres.len(),
            c == mayores_que(nombres@.take(i as int), n@),
            c <= i,
        decreases nombres.len() - i,
    {
        assert(nombres@.take(i + 1).drop_last() =~= nombres@.take(i as int));
        if menor_lex_exec(n, nombres[i].as_str()) {
            c = c + 1;
        }
        i = i + 1;
    }
    assert(nombres@.take(nombres@.len() as int) =~= nombres@);
    c
}

/// The backups rotation removes: with the names sorted from newest (the
/// greatest name) to oldest, all past the first thirty, that is, those
/// with at least thirty names after them.
pub fn a_eliminar(nombres: &Vec<String>) -> (r: Vec<usize>)
    requires
        distintos(nombres@),
    ensures
        forall|k: int| 0 <= k < r@.len() ==> (#[trigger] r@[k]) < nombres@.len(),
        forall|i: int|
            0 <= i < nombres@.len() ==> (mayores_que(nombres@, #[trigger] nombres@[i]@) >= 30 <==> r@.contains(
                i as usize,
            )),
        forall|a: int, b: int| 0 <= a < b < r@.len() ==> r@[a] < r@[b],
{
    let mut r: Vec<usize> = Vec::new();
    let mut i: usize = 0;
    while i < nombres.len()
        invariant
            i <= nombres.len(),
            forall|k: int| 0 <= k < r@.len() ==> (#[trigger] r@[k]) < i,
            forall|j: int|
                0 <= j < i ==> (mayores_que(nombres@, #[trigger] nombres@[j]@) >= 30 <==> r@.contains(
                    j as usize,
                )),
            forall|a: int, b: int| 0 <= a < b < r@.len() ==> r@[a] < r@[b],
        decreases nombres.len() - i,
    {
        let c = contar_mayores(nombres, nombres[i].as_str());
        let ghost antes = r@;
        if c >= RETENCION_MAX {
            r.push(i);
            assert(r@[r@.len() - 1] == i);
        }
        assert forall|j: int|
            0 <= j < i + 1 implies (mayores_que(nombres@, #[trigger] nombres@[j]@) >= 30 <==> r@.contains(
                j as usize,
            )) by {
            if j < i {
                if antes.contains(j as usize) {
                    let k = choose|k: int| 0 <= k < antes.len() && antes[k] == j as usize;
                    assert(r@[k] == j as usize);
                }
                if r@.contains(j as usize) {
                    let k = choose|k: int| 0 <= k < r@.len() && r@[k] == j as usize;
                    if k < antes.len() {
                        assert(antes[k] == j as usize);
                    }
                }
            } else {
                if r@.contains(j as usize) {
                    let k = choose|k: int| 0 <= k < r@.len() && r@[k] == j as usize;
                    if k < antes.len() {
                        assert(antes[k] < i);
                    }
                }
                if c >= RETENCION_MAX {
                    assert(r@[r@.len() - 1] == j as usize);
                }
            }
        }
        i = i + 1;
    }
    r
}

/// The start of today's backups' names (`hoy` as `%Y%m%d`).
pub open spec fn prefijo_hoy(hoy: Seq<char>) -> Seq<char> {
    "pos_backup_"@ + hoy + "_"@
}

/// Whether an automatic backup is due: automatic backups are on (a stored
/// flag of 0 turns them off) and no backup was taken today.
pub fn respaldo_auto_toca(activo: i64, nombres: &Vec<String>, hoy: &str) -> (r: bool)
    ensures
        r <==> activo != 0 && forall|i: int|
            0 <= i < nombres@.len() ==> !empieza_con((#[trigger] nombres@[i])@, prefijo_hoy(hoy@)),
{
    if activo == 0 {
        return false;
    }
    let mut p = unir(PREFIJO_RESPALDO, hoy);
    p.append("_");
    let mut i: usize = 0;
    while i < nombres.len()
        invariant
            i <= nombres.len(),
            p@ == prefijo_hoy(hoy@),
            forall|j: int| 0 <= j < i ==> !empieza_con((#[trigger] nombres@[j])@, prefijo_hoy(hoy@)),
        decreases nombres.len() - i,
    {
        if empieza_con_exec(nombres[i].as_str(), p.as_str()) {
            return false;
        }
        i = i + 1;
    }
    true
}

/// Nanoseconds in the interval between compactions.
pub open spec fn intervalo_vacuum_ns() -> int {
    VACUUM_INTERVAL_DAYS * 86400 * 1_000_000_000
}

/// Whether the weekly compaction is due: never done (or its record is
/// unreadable), or seven days or more have passed (times in nanoseconds).
pub fn toca_vacuum(ultima_ns: Option<i64>, ahora_ns: i64) -> (r: bool)
    ensures
        ultima_ns is None ==> r,
        ultima_ns matches Some(u) ==> (r <==> ahora_ns - u >= intervalo_vacuum_ns()),
{
    match ultima_ns {
        None => true,
        Some(u) => {
            let dif: i128 = ahora_ns as i128 - u as i128;
            dif >= 604_800_000_000_000i128
        },
    }
}

/// The versions of the migrations still to run on a database at schema
/// version `version` when `total` exist: those after it, in order.
pub open spec fn pendientes_spec(version: int, total: int) -> Seq<int> {
    let base = if version < 0 { 0 } else { version };
    let n = if version >= total { 0 } else { total - base };
    Seq::new(n as nat, |k: int| base + k + 1)
}

/// The schema version after the pending migrations ran.
pub open spec fn version_tras(version: int, total: int) -> int {
    let p = pendientes_spec(version, total);
    if p.len() == 0 {
        version
    } else {
        p.last()
    }
}

/// Running migrations twice changes nothing: each pending version runs
/// once, in increasing order, the database ends at the newest version (or
/// stays where it was), and at that version nothing is pending.
pub proof fn ley_migraciones_una_vez(version: int, total: int)
    requires
        total >= 0,
    ensures
        forall|a: int, b: int|
            0 <= a < b < pendientes_spec(version, total).len() ==> #[trigger] pendientes_spec(version, total)[a]
                < #[trigger] pendientes_spec(version, total)[b],
        version_tras(version, total) >= version,
        version >= 0 ==> version_tras(version, total) == (if version >= total { version } else { total }),
        pendientes_spec(version_tras(version, total), total).len() == 0,
{
}

/// The migrations still to run on a database at schema version `version`
/// when `total` exist: the versions after it, in order.
pub fn migraciones_pendientes(version: i64, total: usize) -> (r: Vec<i64>)
    requires
        total < i64::MAX,
    ensures
        r@.len() == (if version >= total { 0 } else if version < 0 { total as int } else { total - version }),
        forall|k: int| 0 <= k < r@.len() ==> r@[k] == (if version < 0 { 0 } else { version as int }) + k + 1,
        r@.len() == pendientes_spec(version as int, total as int).len(),
        forall|k: int| 0 <= k < r@.len() ==> r@[k] == pendientes_spec(version as int, total as int)[k],
{
    let mut r: Vec<i64> = Vec::new();
    let mut idx: usize = 0;
    while idx < total
        invariant
            0 <= idx <= total,
            total < i64::MAX,
            r@.len() == (if version < 0 { idx as int } else if idx <= version { 0 } else { idx - version }),
            forall|k: int| 0 <= k < r@.len() ==> r@[k] == (if version < 0 { 0 } else { version as int }) + k + 1,
        decreases total - idx,
    {
        let v = idx + 1;
        if (v as i64) > version {
            r.push(v as i64);
        }
        idx = v;
    }
    r
}

/// The text with every apostrophe taken out.
pub open spec fn sin_apostrofes(s: Seq<char>) -> Seq<char>
    decreases s.len(),
{
    if s.len() == 0 {
        s
    } else if s.last() == '\'' {
        sin_apostrofes(s.drop_last())
    } else {
        sin_apostrofes(s.drop_last()).push(s.last())
    }
}

fn quitar_apostrofes(s: &str) -> (r: String)
    ensures
        r@ == sin_apostrofes(s@),
{
    let mut r = String::new();
    for c in it: s.chars()
        invariant
            it.seq() == s@,
            r@ == sin_apostrofes(s@.take(it.index() as int)),
    {
        let ghost i = it.index() as int;
        assert(s@.take(i + 1).drop_last() =~= s@.take(i));
        if c != '\'' {
            r.push(c);
        }
    }
    assert(s@.take(s@.len() as int) =~= s@);
    r
}

/// The columns and joins of the audit log's listing.
pub const SQL_BITACORA: &'static str = "SELECT a.id, u.nombre_completo, a.accion, a.tabla_afectada,
                      a.registro_id, a.descripcion_legible, a.origen, a.fecha
               FROM audit_log a
               LEFT JOIN usuarios u ON u.id = a.usuario_id";

/// The audit log's query: newest first, 200 entries unless another limit
/// is given, optionally only actions containing a text, from which the
/// apostrophes are removed so that it cannot close the SQL literal.
pub open spec fn sql_bitacora_spec(limite: Option<i64>, filtro: Option<Seq<char>>) -> Seq<char> {
    let lim = texto_entero(
        match limite {
            Some(l) => l as int,
            None => 200,
        },
    );
    match filtro {
        Some(f) => SQL_BITACORA@ + "
               WHERE a.accion LIKE '%"@ + sin_apostrofes(f) + "%'
               ORDER BY a.fecha DESC
               LIMIT "@ + lim,
        None => SQL_BITACORA@ + "
               ORDER BY a.fecha DESC
               LIMIT "@ + lim,
    }
}

/// Builds the audit log's query.
pub fn sql_bitacora(limite: Option<i64>, filtro: Option<&str>) -> (r: String)
    ensures
        r@ == sql_bitacora_spec(
            limite,
            match filtro {
                Some(f) => Some(f@),
                None => None,
            },
        ),
{
    let lim = match limite {
        Some(l) => l,
        None => 200,
    };
    let mut r = a_cadena(SQL_BITACORA);
    match filtro {
        Some(f) => {
            r.append("
               WHERE a.accion LIKE '%");
            r.append(quitar_apostrofes(f).as_str());
            r.append("%'
               ORDER BY a.fecha DESC
               LIMIT ");
        },
        None => {
            r.append("
               ORDER BY a.fecha DESC
               LIMIT ");
        },
    }
    r.append(texto_i64(lim).as_str());
    r
}

/// No apostrophe of a filter survives into the audit log's query.
pub proof fn ley_filtro_sin_apostrofes(f: Seq<char>)
    ensures
        !sin_apostrofes(f).contains('\''),
    decreases f.len(),
{
    if f.len() > 0 {
        ley_filtro_sin_apostrofes(f.drop_last());
        if f.last() != '\'' {
            assert forall|i: int| 0 <= i < sin_apostrofes(f).len() implies sin_apostrofes(f)[i] != '\'' by {
                if i < sin_apostrofes(f.drop_last()).len() {
                    assert(sin_apostrofes(f)[i] == sin_apostrofes(f.drop_last())[i]);
                }
            }
        }
    }
}

/// How many flags are set.
pub open spec fn cuantos(s: Seq<bool>) -> nat
    decreases s.len(),
{
    if s.len() == 0 {
        0
    } else {
        cuantos(s.drop_last()) + (if s.last() { 1nat } else { 0nat })
    }
}

proof fn lema_cuantos_update(s: Seq<bool>, m: int)
    requires
        0 <= m < s.len(),
        !s[m],
    ensures
        cuantos(s.update(m, true)) == cuantos(s) + 1,
    decreases s.len(),
{
    let t = s.update(m, true);
    if m < s.len() - 1 {
        assert(t.drop_last() =~= s.drop_last().update(m, true));
        lema_cuantos_update(s.drop_last(), m);
    } else {
        assert(t.drop_last() =~= s.drop_last());
    }
}

proof fn lema_cuantos_cota(s: Seq<bool>)
    ensures
        cuantos(s) <= s.len(),
        cuantos(s) == s.len() ==> forall|i: int| 0 <= i < s.len() ==> s[i],
    decreases s.len(),
{
    if s.len() > 0 {
        lema_cuantos_cota(s.drop_last());
        if cuantos(s) == s.len() {
            assert forall|i: int| 0 <= i < s.len() implies s[i] by {
                if i < s.len() - 1 {
                    assert(s.drop_last()[i] == s[i]);
                }
            }
        }
    }
}

proof fn lema_hay_libre(s: Seq<bool>)
    requires
        cuantos(s) < s.len(),
    ensures
        exists|i: int| 0 <= i < s.len() && !s[i],
    decreases s.len(),
{
    if !s.last() {
        assert(!s[s.len() - 1]);
    } else {
        lema_hay_libre(s.drop_last());
        let i = choose|i: int| 0 <= i < s.drop_last().len() && !s.drop_last()[i];
        assert(!s[i]);
    }
}

/// The backups from newest to oldest: the positions of `nombres` ordered
/// by name, greatest first (`sort_by` on the reversed comparison).
pub fn orden_descendente(nombres: &Vec<String>) -> (r: Vec<usize>)
    requires
        distintos(nombres@),
    ensures
        r@.len() == nombres@.len(),
        forall|k: int| 0 <= k < r@.len() ==> (#[trigger] r@[k]) < nombres@.len(),
        forall|a: int, b: int| 0 <= a < b < r@.len() ==> r@[a] != r@[b],
        forall|a: int, b: int|
            0 <= a < b < r@.len() ==> menor_lex(nombres@[r@[b] as int]@, nombres@[r@[a] as int]@),
        forall|i: int| 0 <= i < nombres@.len() ==> #[trigger] r@.contains(i as usize),
{
    let n = nombres.len();
    let mut tomado: Vec<bool> = Vec::new();
    let mut i: usize = 0;
    while i < n
        invariant
            n == nombres@.len(),
            i <= n,
            tomado@.len() == i,
            forall|k: int| 0 <= k < i ==> !tomado@[k],
        decreases n - i,
    {
        tomado.push(false);
        i = i + 1;
    }
    proof {
        assert(cuantos(tomado@) == 0) by {
            lema_cuantos_cero(tomado@);
        }
    }
    let mut r: Vec<usize> = Vec::new();
    while r.len() < n
        invariant
            n == nombres@.len(),
            distintos(nombres@),
            tomado@.len() == n,
            r@.len() <= n,
            cuantos(tomado@) == r@.len(),
            forall|k: int| 0 <= k < r@.len() ==> (#[trigger] r@[k]) < n && tomado@[r@[k] as int],
            forall|j: int| 0 <= j < n && #[trigger] tomado@[j] ==> r@.contains(j as usize),
            forall|a: int, b: int| 0 <= a < b < r@.len() ==> r@[a] != r@[b],
            forall|a: int, b: int|
                0 <= a < b < r@.len() ==> menor_lex(nombres@[r@[b] as int]@, nombres@[r@[a] as int]@),
            forall|k: int, j: int|
                0 <= k < r@.len() && 0 <= j < n && !tomado@[j] ==> menor_lex(
                    nombres@[j]@,
                    nombres@[r@[k] as int]@,
                ),
        decreases n - r@.len(),
    {
        proof {
            lema_hay_libre(tomado@);
        }
        let mut mejor: usize = n;
        let mut j: usize = 0;
        while j < n
            invariant
                n == nombres@.len(),
                tomado@.len() == n,
                j <= n,
                mejor == n || (mejor < n && mejor < j && !tomado@[mejor as int]),
                mejor == n ==> forall|x: int| 0 <= x < j ==> tomado@[x],
                mejor < n ==> forall|x: int|
                    0 <= x < j && !tomado@[x] && x != mejor ==> menor_lex(
                        nombres@[x]@,
                        nombres@[mejor as int]@,
                    ),
                distintos(nombres@),
            decreases n - j,
        {
            if !tomado[j] {
                if mejor == n {
                    mejor = j;
                } else if menor_lex_exec(nombres[mejor].as_str(), nombres[j].as_str()) {
                    proof {
                        assert forall|x: int|
                            0 <= x < j + 1 && !tomado@[x] && x != j implies menor_lex(
                                nombres@[x]@,
                                nombres@[j as int]@,
                            ) by {
                            if x != mejor {
                                lema_menor_transitivo(nombres@[x]@, nombres@[mejor as int]@, nombres@[j as int]@);
                            }
                        }
                    }
                    mejor = j;
                } else {
                    proof {
                        assert(nombres@[mejor as int]@ != nombres@[j as int]@);
                        lema_menor_total(nombres@[j as int]@, nombres@[mejor as int]@);
                    }
                }
            }
            j = j + 1;
        }
        proof {
            if mejor == n {
                let x = choose|x: int| 0 <= x < tomado@.len() && !tomado@[x];
                assert(tomado@[x]);
            }
        }
        let m = mejor;
        let ghost antes_t = tomado@;
        let ghost antes_r = r@;
        proof {
            lema_cuantos_update(tomado@, m as int);
        }
        tomado.set(m, true);
        r.push(m);
        proof {
            assert forall|x: int| 0 <= x < n && #[trigger] tomado@[x] implies r@.contains(x as usize) by {
                if x == m {
                    assert(r@[r@.len() - 1] == m);
                } else {
                    assert(antes_t[x]);
                    let k = choose|k: int| 0 <= k < antes_r.len() && antes_r[k] == x as usize;
                    assert(r@[k] == x as usize);
                }
            }
            assert forall|a: int, b: int| 0 <= a < b < r@.len() implies r@[a] != r@[b] by {
                if b == r@.len() - 1 {
                    assert(tomado@[r@[a] as int] == antes_t[r@[a] as int] || r@[a] == m);
                    assert(antes_t[antes_r[a] as int]);
                }
            }
            assert forall|a: int, b: int|
                0 <= a < b < r@.len() implies menor_lex(nombres@[r@[b] as int]@, nombres@[r@[a] as int]@) by {
                if b == r@.len() - 1 {
                    assert(!antes_t[m as int]);
                    assert(r@[a] == antes_r[a]);
                }
            }
            assert forall|k: int, x: int|
                0 <= k < r@.len() && 0 <= x < n && !tomado@[x] implies menor_lex(
                    nombres@[x]@,
                    nombres@[r@[k] as int]@,
                ) by {
                assert(x != m);
                assert(!antes_t[x]);
                if k < r@.len() - 1 {
                    assert(r@[k] == antes_r[k]);
                }
            }
        }
    }
    proof {
        lema_cuantos_cota(tomado@);
        assert forall|x: int| 0 <= x < nombres@.len() implies #[trigger] r@.contains(x as usize) by {
            assert(tomado@[x]);
        }
    }
    r
}

proof fn lema_cuantos_cero(s: Seq<bool>)
    requires
        forall|k: int| 0 <= k < s.len() ==> !s[k],
    ensures
        cuantos(s) == 0,
    decreases s.len(),
{
    if s.len() > 0 {
        assert forall|k: int| 0 <= k < s.drop_last().len() implies !s.drop_last()[k] by {
            assert(s.drop_last()[k] == s[k]);
        }
        lema_cuantos_cero(s.drop_last());
    }
}

} // verus!
