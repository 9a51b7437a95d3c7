//! The bookkeeping around one push or one pull: which incoming changes are
//! refused before touching the database, how each outcome is answered, how a
//! pull page is cut and where its cursor moves, and how the point of sale
//! settles its outbox with the server's answer.

use vstd::prelude::*;
use crate::texto::{a_cadena, iguales, sin_final, sin_final_exec, unir, unir_con, unir_lista, vistas};
use crate::numero::{parse_i64, parse_i64_spec, texto_entero, texto_i64};
use crate::sincronizacion::{tabla_sincronizable, tabla_valida};

verus! {

/// A change the server did not apply, with the reason.
pub struct Rechazado {
    pub uuid: String,
    pub motivo: String,
}

/// The server's answer to a push: the uuids applied and those refused.
pub struct PushResponse {
    pub aceptados: Vec<String>,
    pub rechazados: Vec<Rechazado>,
}

/// A pull request: from which cursor, for which branch, and which device
/// asks (its own changes are not echoed back).
pub struct PullQuery {
    pub cursor: String,
    pub sucursal_id: i64,
    pub device_uuid: Option<String>,
}

/// What the server does with one incoming change before the database.
pub enum Revision {
    Rechazar(Rechazado),
    Aplicar(String),
}

/// How applying one change ended.
pub enum ResultadoAplicar {
    Aplicado,
    RemotoMasNuevo,
    Fallo(String),
}

pub open spec fn opcion_vista(o: Option<&str>) -> Option<Seq<char>> {
    match o {
        Some(s) => Some(s@),
        None => None,
    }
}

impl PushResponse {
    /// Number of changes answered so far.
    pub open spec fn respondidos(&self) -> nat {
        self.aceptados@.len() + self.rechazados@.len()
    }

    pub fn nueva() -> (r: PushResponse)
        ensures
            r.aceptados@.len() == 0,
            r.rechazados@.len() == 0,
    {
        PushResponse { aceptados: Vec::new(), rechazados: Vec::new() }
    }

    /// Records a change refused before the database.
    pub fn registrar_rechazo(&mut self, r: Rechazado)
        ensures
            final(self).aceptados@ == old(self).aceptados@,
            final(self).rechazados@ == old(self).rechazados@.push(r),
            final(self).respondidos() == old(self).respondidos() + 1,
    {
        self.rechazados.push(r);
    }

    /// Records how applying the change with `uuid` ended: applied, refused
    /// because the server's copy is newer, or failed with an error text.
    pub fn registrar_resultado(&mut self, uuid: String, resultado: ResultadoAplicar)
        ensures
            final(self).respondidos() == old(self).respondidos() + 1,
            resultado is Aplicado ==> final(self).aceptados@ == old(self).aceptados@.push(uuid)
                && final(self).rechazados@ == old(self).rechazados@,
            resultado is RemotoMasNuevo ==> final(self).aceptados@ == old(self).aceptados@
                && final(self).rechazados@.len() == old(self).rechazados@.len() + 1
                && final(self).rechazados@.drop_last() == old(self).rechazados@
                && final(self).rechazados@.last().uuid == uuid
                && final(self).rechazados@.last().motivo@ == "remoto_mas_nuevo"@,
            resultado matches ResultadoAplicar::Fallo(e) ==> final(self).aceptados@ == old(self).aceptados@
                && final(self).rechazados@.len() == old(self).rechazados@.len() + 1
                && final(self).rechazados@.drop_last() == old(self).rechazados@
                && final(self).rechazados@.last().uuid == uuid
                && final(self).rechazados@.last().motivo@ == "error: "@ + e@,
    {
        match resultado {
            ResultadoAplicar::Aplicado => {
                self.aceptados.push(uuid);
            },
            ResultadoAplicar::RemotoMasNuevo => {
                self.rechazados.push(Rechazado { uuid, motivo: a_cadena("remoto_mas_nuevo") });
                assert(self.rechazados@.drop_last() =~= old(self).rechazados@);
            },
            ResultadoAplicar::Fallo(e) => {
                self.rechazados.push(Rechazado { uuid, motivo: unir("error: ", e.as_str()) });
                assert(self.rechazados@.drop_last() =~= old(self).rechazados@);
            },
        }
    }
}

/// The check of one pushed change before the database: an unknown table is
/// refused (with the row's uuid if any), then a row without uuid.
pub fn revisar_cambio(tabla: &str, uuid: Option<&str>) -> (r: Revision)
    ensures
        !tabla_sincronizable(tabla@) ==> (r matches Revision::Rechazar(x) && x.uuid@ == (match uuid {
            Some(u) => u@,
            None => Seq::empty(),
        }) && x.motivo@ == "tabla desconocida: "@ + tabla@),
        tabla_sincronizable(tabla@) && uuid is None ==> (r matches Revision::Rechazar(x)
            && x.uuid@ == Seq::<char>::empty() && x.motivo@ == "falta uuid"@),
        tabla_sincronizable(tabla@) && uuid is Some ==> (r matches Revision::Aplicar(u) && u@
            == uuid->0@),
{
    if !tabla_valida(tabla) {
        let u = match uuid {
            Some(u) => a_cadena(u),
            None => String::new(),
        };
        return Revision::Rechazar(Rechazado { uuid: u, motivo: unir("tabla desconocida: ", tabla) });
    }
    match uuid {
        Some(u) => Revision::Aplicar(a_cadena(u)),
        None => Revision::Rechazar(Rechazado { uuid: String::new(), motivo: a_cadena("falta uuid") }),
    }
}

/// How many rows a pull page holds at most.
pub const LOTE_PULL: usize = 200;

/// A pull page: how many of the fetched rows it returns, whether more
/// remain, and the cursor for the next page.
pub struct LotePull {
    pub tomar: usize,
    pub hay_mas: bool,
    pub next_cursor: i64,
}

/// The largest of `cursor` and the first `n` ids.
pub open spec fn max_ids(cursor: i64, ids: Seq<i64>, n: int) -> i64
    decreases n,
{
    if n <= 0 {
        cursor
    } else {
        let m = max_ids(cursor, ids, n - 1);
        if ids[n - 1] > m {
            ids[n - 1]
        } else {
            m
        }
    }
}

proof fn lema_max_ids(cursor: i64, ids: Seq<i64>, n: int)
    requires
        0 <= n <= ids.len(),
    ensures
        max_ids(cursor, ids, n) >= cursor,
        forall|k: int| 0 <= k < n ==> max_ids(cursor, ids, n) >= #[trigger] ids[k],
        max_ids(cursor, ids, n) == cursor || exists|k: int| 0 <= k < n && max_ids(cursor, ids, n) == ids[k],
    decreases n,
{
    if n > 0 {
        lema_max_ids(cursor, ids, n - 1);
    }
}

/// The cursor a pull request starts from: its text as a number, 0 when it
/// is not one.
pub fn cursor_inicial(cursor: &str) -> (r: i64)
    ensures
        parse_i64_spec(cursor@) matches Some(x) ==> r == x,
        parse_i64_spec(cursor@) is None ==> r == 0,
{
    match parse_i64(cursor) {
        Some(x) => x,
        None => 0,
    }
}

/// Cuts a pull page from the ids fetched past `cursor` (fetched one more
/// than a page, to know whether more remain). The next cursor is the largest
/// id returned, and never goes back.
pub fn resumir_lote(cursor: i64, ids: &Vec<i64>) -> (r: LotePull)
    ensures
        r.hay_mas == (ids.len() > LOTE_PULL),
        r.tomar == (if ids.len() > LOTE_PULL { LOTE_PULL } else { ids.len() }),
        r.next_cursor == max_ids(cursor, ids@, r.tomar as int),
        r.next_cursor >= cursor,
        forall|k: int| 0 <= k < r.tomar ==> r.next_cursor >= #[trigger] ids@[k],
{
    let hay_mas = ids.len() > LOTE_PULL;
    let tomar = if hay_mas { LOTE_PULL } else { ids.len() };
    let mut m = cursor;
    let mut i: usize = 0;
    while i < tomar
        invariant
            tomar <= ids.len(),
            i <= tomar,
            m == max_ids(cursor, ids@, i as int),
        decreases tomar - i,
    {
        if ids[i] > m {
            m = ids[i];
        }
        i = i + 1;
    }
    proof {
        lema_max_ids(cursor, ids@, tomar as int);
    }
    LotePull { tomar, hay_mas, next_cursor: m }
}

/// The text of the next cursor, as the server answers it.
pub fn texto_cursor(c: i64) -> (r: String)
    ensures
        r@ == texto_entero(c as int),
{
    texto_i64(c)
}

/// What a pulled row means: a row that no longer exists, or carries a
/// `deleted_at`, travels as a deletion.
pub fn operacion_pull(fila_existe: bool, borrada: bool) -> (r: String)
    ensures
        r@ == (if !fila_existe || borrada { "DELETE"@ } else { "UPSERT"@ }),
{
    if !fila_existe || borrada {
        a_cadena("DELETE")
    } else {
        a_cadena("UPSERT")
    }
}

/// An entry of the server's change log, as a pull reads it.
pub struct EntradaCursor {
    pub id: i64,
    pub sucursal_id: Option<i64>,
    pub origen_device: Option<String>,
}

/// Whether a pull from `cursor`, for branch `sucursal_id`, asked by `device`,
/// reads the entry: it is newer than the cursor, belongs to no branch or to
/// that one, and was not written by the asking device.
pub open spec fn entra_en_pull(e: EntradaCursor, cursor: i64, sucursal_id: i64, device: Option<String>) -> bool {
    &&& e.id > cursor
    &&& (e.sucursal_id is None || e.sucursal_id == Some(sucursal_id))
    &&& match (device, e.origen_device) {
        (Some(d), Some(o)) => o@ != d@,
        _ => true,
    }
}

/// The positions, among the first `n` entries of the log, that such a pull
/// reads, in log order.
pub open spec fn posiciones_pull(s: Seq<EntradaCursor>, cursor: i64, sucursal_id: i64, device: Option<String>, n: int) -> Seq<int>
    decreases n,
{
    if n <= 0 {
        Seq::empty()
    } else if entra_en_pull(s[n - 1], cursor, sucursal_id, device) {
        posiciones_pull(s, cursor, sucursal_id, device, n - 1).push(n - 1)
    } else {
        posiciones_pull(s, cursor, sucursal_id, device, n - 1)
    }
}

proof fn lema_posiciones_prefijo(s: Seq<EntradaCursor>, cursor: i64, sucursal_id: i64, device: Option<String>, k: int, n: int)
    requires
        0 <= k <= n,
    ensures
        posiciones_pull(s, cursor, sucursal_id, device, k).len() <= posiciones_pull(s, cursor, sucursal_id, device, n).len(),
        posiciones_pull(s, cursor, sucursal_id, device, n).take(
            posiciones_pull(s, cursor, sucursal_id, device, k).len() as int,
        ) == posiciones_pull(s, cursor, sucursal_id, device, k),
    decreases n - k,
{
    if k < n {
        lema_posiciones_prefijo(s, cursor, sucursal_id, device, k, n - 1);
        let a = posiciones_pull(s, cursor, sucursal_id, device, k);
        let b = posiciones_pull(s, cursor, sucursal_id, device, n - 1);
        let c = posiciones_pull(s, cursor, sucursal_id, device, n);
        if entra_en_pull(s[n - 1], cursor, sucursal_id, device) {
            assert(c.take(a.len() as int) =~= b.take(a.len() as int));
        }
    } else {
        let a = posiciones_pull(s, cursor, sucursal_id, device, k);
        assert(a.take(a.len() as int) =~= a);
    }
}

proof fn lema_posiciones_validas(s: Seq<EntradaCursor>, cursor: i64, sucursal_id: i64, device: Option<String>, n: int)
    requires
        0 <= n <= s.len(),
    ensures
        forall|j: int| 0 <= j < posiciones_pull(s, cursor, sucursal_id, device, n).len() ==> {
            let p = #[trigger] posiciones_pull(s, cursor, sucursal_id, device, n)[j];
            0 <= p < n && entra_en_pull(s[p], cursor, sucursal_id, device)
        },
    decreases n,
{
    if n > 0 {
        lema_posiciones_validas(s, cursor, sucursal_id, device, n - 1);
        let a = posiciones_pull(s, cursor, sucursal_id, device, n - 1);
        let b = posiciones_pull(s, cursor, sucursal_id, device, n);
        assert forall|j: int| 0 <= j < b.len() implies {
            let p = #[trigger] b[j];
            0 <= p < n && entra_en_pull(s[p], cursor, sucursal_id, device)
        } by {
            if j < a.len() {
                assert(b[j] == a[j]);
            }
        }
    }
}

/// The entries one pull page reads: the positions, in log order, of the
/// entries `entra_en_pull` admits, one more than a page at most (the extra
/// one only tells that more remain).
pub fn seleccionar_pull(entradas: &Vec<EntradaCursor>, cursor: i64, sucursal_id: i64, device: &Option<String>) -> (r: Vec<usize>)
    ensures
        ({
            let todas = posiciones_pull(entradas@, cursor, sucursal_id, *device, entradas@.len() as int);
            &&& r@.len() == (if todas.len() > LOTE_PULL + 1 { LOTE_PULL + 1 } else { todas.len() as int })
            &&& forall|j: int| 0 <= j < r@.len() ==> #[trigger] r@[j] as int == todas[j]
        }),
{
    let n = entradas.len();
    let mut r: Vec<usize> = Vec::new();
    let mut k: usize = 0;
    while k < n && r.len() < LOTE_PULL + 1
        invariant
            k <= n == entradas@.len(),
            r@.len() <= LOTE_PULL + 1,
            r@.len() == posiciones_pull(entradas@, cursor, sucursal_id, *device, k as int).len(),
            forall|j: int| 0 <= j < r@.len() ==> #[trigger] r@[j] as int
                == posiciones_pull(entradas@, cursor, sucursal_id, *device, k as int)[j],
        decreases n - k,
    {
        let e = &entradas[k];
        let por_sucursal = match e.sucursal_id {
            None => true,
            Some(s) => s == sucursal_id,
        };
        let por_origen = match (device, &e.origen_device) {
            (Some(d), Some(o)) => !iguales(o.as_str(), d.as_str()),
            _ => true,
        };
        if e.id > cursor && por_sucursal && por_origen {
            r.push(k);
        }
        k = k + 1;
    }
    proof {
        let todas = posiciones_pull(entradas@, cursor, sucursal_id, *device, n as int);
        let hasta = posiciones_pull(entradas@, cursor, sucursal_id, *device, k as int);
        lema_posiciones_prefijo(entradas@, cursor, sucursal_id, *device, k as int, n as int);
        assert(todas.take(hasta.len() as int) == hasta);
        if k == n {
            assert(hasta == todas);
        } else {
            assert(hasta.len() == LOTE_PULL + 1);
        }
        assert forall|j: int| 0 <= j < r@.len() implies #[trigger] r@[j] as int == todas[j] by {
            assert(todas.take(hasta.len() as int)[j] == todas[j]);
        }
    }
    r
}

/// A device never reads back its own changes, nor changes of another
/// branch, nor changes at or before its cursor: every position a pull page
/// holds is of an entry `entra_en_pull` admits.
pub proof fn ley_sin_eco(entradas: Seq<EntradaCursor>, cursor: i64, sucursal_id: i64, device: Option<String>, j: int)
    requires
        0 <= j < posiciones_pull(entradas, cursor, sucursal_id, device, entradas.len() as int).len(),
    ensures
        ({
            let p = posiciones_pull(entradas, cursor, sucursal_id, device, entradas.len() as int)[j];
            &&& 0 <= p < entradas.len()
            &&& entradas[p].id > cursor
            &&& (entradas[p].sucursal_id is None || entradas[p].sucursal_id == Some(sucursal_id))
            &&& (device matches Some(d) ==> (entradas[p].origen_device matches Some(o) ==> o@ != d@))
        }),
{
    lema_posiciones_validas(entradas, cursor, sucursal_id, device, entradas.len() as int);
    let p = posiciones_pull(entradas, cursor, sucursal_id, device, entradas.len() as int)[j];
    assert(entra_en_pull(entradas[p], cursor, sucursal_id, device));
}

/// The ids of the entries at the given positions of the log.
pub open spec fn ids_en(entradas: Seq<EntradaCursor>, pos: Seq<int>) -> Seq<i64> {
    Seq::new(pos.len(), |j: int| entradas[pos[j]].id)
}

/// One pull page over the change log: the positions it returns (those
/// `seleccionar_pull` picks, cut to a page) and how the page is summed up.
/// The next cursor is at least the old one and at least every returned id,
/// so no returned entry is read again by a pull from it.
pub fn pagina_pull(entradas: &Vec<EntradaCursor>, cursor: i64, sucursal_id: i64, device: &Option<String>) -> (r: (
    Vec<usize>,
    LotePull,
))
    ensures
        ({
            let todas = posiciones_pull(entradas@, cursor, sucursal_id, *device, entradas@.len() as int);
            let pagina = Seq::new(r.0@.len(), |j: int| r.0@[j] as int);
            &&& r.1.hay_mas == (todas.len() > LOTE_PULL)
            &&& r.1.tomar == r.0@.len()
            &&& r.0@.len() == (if todas.len() > LOTE_PULL { LOTE_PULL as int } else { todas.len() as int })
            &&& forall|j: int| 0 <= j < r.0@.len() ==> #[trigger] r.0@[j] as int == todas[j]
            &&& r.1.next_cursor == max_ids(cursor, ids_en(entradas@, pagina), r.1.tomar as int)
            &&& r.1.next_cursor >= cursor
            &&& forall|j: int| 0 <= j < r.0@.len() ==> entradas@[#[trigger] r.0@[j] as int].id <= r.1.next_cursor
        }),
{
    let sel = seleccionar_pull(entradas, cursor, sucursal_id, device);
    let ghost todas = posiciones_pull(entradas@, cursor, sucursal_id, *device, entradas@.len() as int);
    proof {
        lema_posiciones_validas(entradas@, cursor, sucursal_id, *device, entradas@.len() as int);
    }
    let mut ids: Vec<i64> = Vec::new();
    let mut i: usize = 0;
    while i < sel.len()
        invariant
            i <= sel@.len(),
            ids@.len() == i,
            forall|j: int| 0 <= j < sel@.len() ==> (#[trigger] sel@[j]) < entradas@.len(),
            forall|j: int| 0 <= j < i ==> #[trigger] ids@[j] == entradas@[sel@[j] as int].id,
        decreases sel.len() - i,
    {
        ids.push(entradas[sel[i]].id);
        i = i + 1;
    }
    let lote = resumir_lote(cursor, &ids);
    let mut pagina: Vec<usize> = Vec::new();
    let mut k: usize = 0;
    while k < lote.tomar
        invariant
            lote.tomar <= sel@.len(),
            k <= lote.tomar,
            pagina@ == sel@.subrange(0, k as int),
        decreases lote.tomar - k,
    {
        pagina.push(sel[k]);
        k = k + 1;
    }
    proof {
        let pag = Seq::new(pagina@.len(), |j: int| pagina@[j] as int);
        assert(ids_en(entradas@, pag).subrange(0, lote.tomar as int) =~= ids@.subrange(0, lote.tomar as int));
        lema_max_ids_prefijo(cursor, ids_en(entradas@, pag), ids@, lote.tomar as int);
        assert forall|j: int| 0 <= j < pagina@.len() implies entradas@[#[trigger] pagina@[j] as int].id <= lote.next_cursor by {
            assert(ids@[j] == entradas@[sel@[j] as int].id);
        }
    }
    (pagina, lote)
}

proof fn lema_max_ids_prefijo(cursor: i64, a: Seq<i64>, b: Seq<i64>, n: int)
    requires
        0 <= n <= a.len(),
        n <= b.len(),
        a.subrange(0, n) == b.subrange(0, n),
    ensures
        max_ids(cursor, a, n) == max_ids(cursor, b, n),
    decreases n,
{
    if n > 0 {
        assert(a.subrange(0, n - 1) =~= a.subrange(0, n).subrange(0, n - 1));
        assert(b.subrange(0, n - 1) =~= b.subrange(0, n).subrange(0, n - 1));
        assert(a[n - 1] == a.subrange(0, n)[n - 1]);
        assert(b[n - 1] == b.subrange(0, n)[n - 1]);
        lema_max_ids_prefijo(cursor, a, b, n - 1);
    }
}

/// A pull from the cursor a page left never returns what that page
/// returned: no entry whose id is at or before the cursor is read again.
pub proof fn ley_pull_no_repite(
    entradas: Seq<EntradaCursor>,
    sucursal_id: i64,
    device: Option<String>,
    siguiente: i64,
    pagina: Seq<int>,
)
    requires
        forall|j: int| 0 <= j < pagina.len() ==> 0 <= #[trigger] pagina[j] < entradas.len() && entradas[pagina[j]].id
            <= siguiente,
    ensures
        forall|j: int, k: int|
            0 <= j < pagina.len() && 0 <= k < posiciones_pull(entradas, siguiente, sucursal_id, device, entradas.len() as int).len()
                ==> #[trigger] posiciones_pull(entradas, siguiente, sucursal_id, device, entradas.len() as int)[k]
                != #[trigger] pagina[j],
{
    lema_posiciones_validas(entradas, siguiente, sucursal_id, device, entradas.len() as int);
}

// ----------------------------------------------------------------------------
// Point of sale side
// ----------------------------------------------------------------------------

/// A change waiting in the point of sale's outbox.
pub struct CambioPendiente {
    pub id: i64,
    pub tabla: String,
    pub uuid: String,
    pub operacion: String,
    pub created_at: String,
    pub intentos: i64,
}

/// The single `sync_state` row of the point of sale.
pub struct SyncConfig {
    pub device_uuid: String,
    pub sucursal_id: i64,
    pub remote_url: Option<String>,
    pub remote_token: Option<String>,
    pub last_push_at: Option<String>,
    pub last_pull_cursor: Option<String>,
    pub last_pull_at: Option<String>,
    pub activo: bool,
}

/// A synchronisation cycle runs only with an active configuration that has
/// both a server URL and a token; it then uses those two.
pub fn credenciales_ciclo(cfg: &Option<SyncConfig>) -> (r: Option<(String, String)>)
    ensures
        r is Some <==> (cfg matches Some(c) && c.activo && c.remote_url is Some && c.remote_token is Some),
        r matches Some(p) ==> (p.0@ == cfg->0.remote_url->0@ && p.1@ == cfg->0.remote_token->0@),
{
    match cfg {
        Some(c) => {
            if !c.activo {
                return None;
            }
            match (&c.remote_url, &c.remote_token) {
                (Some(u), Some(t)) => Some((u.clone(), t.clone())),
                _ => None,
            }
        },
        None => None,
    }
}

/// The cursor the point of sale pulls from: the saved one, or empty.
pub fn cursor_guardado(cfg: &SyncConfig) -> (r: String)
    ensures
        r@ == (match cfg.last_pull_cursor {
            Some(c) => c@,
            None => Seq::empty(),
        }),
{
    match &cfg.last_pull_cursor {
        Some(c) => c.clone(),
        None => String::new(),
    }
}

/// A pending change that travels as a deletion (no payload is read).
pub fn es_borrado(p: &CambioPendiente) -> (r: bool)
    ensures
        r == (p.operacion@ == "DELETE"@),
{
    iguales(p.operacion.as_str(), "DELETE")
}

pub open spec fn contiene_texto(xs: Seq<String>, u: Seq<char>) -> bool {
    exists|k: int| 0 <= k < xs.len() && xs[k]@ == u
}

/// Ids of the pending changes whose uuid the server accepted, in order.
pub open spec fn ids_aceptados(ps: Seq<CambioPendiente>, aceptados: Seq<String>) -> Seq<i64>
    decreases ps.len(),
{
    if ps.len() == 0 {
        Seq::empty()
    } else if contiene_texto(aceptados, ps.last().uuid@) {
        ids_aceptados(ps.drop_last(), aceptados).push(ps.last().id)
    } else {
        ids_aceptados(ps.drop_last(), aceptados)
    }
}

/// The id of the first pending change with uuid `u`.
pub open spec fn primera_con_uuid(ps: Seq<CambioPendiente>, u: Seq<char>) -> Option<i64>
    decreases ps.len(),
{
    if ps.len() == 0 {
        None
    } else if ps[0].uuid@ == u {
        Some(ps[0].id)
    } else {
        primera_con_uuid(ps.drop_first(), u)
    }
}

/// For each refusal that names a pending change, that change's id and the
/// reason, in the order of the refusals.
pub open spec fn errores_rechazo(ps: Seq<CambioPendiente>, rs: Seq<Rechazado>) -> Seq<(i64, Seq<char>)>
    decreases rs.len(),
{
    if rs.len() == 0 {
        Seq::empty()
    } else {
        let antes = errores_rechazo(ps, rs.drop_last());
        match primera_con_uuid(ps, rs.last().uuid@) {
            Some(id) => antes.push((id, rs.last().motivo@)),
            None => antes,
        }
    }
}

fn contiene_exec(xs: &Vec<String>, u: &str) -> (r: bool)
    ensures
        r == contiene_texto(xs@, u@),
{
    let mut i: usize = 0;
    while i < xs.len()
        invariant
            i <= xs.len(),
            forall|k: int| 0 <= k < i ==> xs@[k]@ != u@,
        decreases xs.len() - i,
    {
        if iguales(xs[i].as_str(), u) {
            return true;
        }
        i = i + 1;
    }
    false
}

fn primera_exec(ps: &Vec<CambioPendiente>, u: &str) -> (r: Option<i64>)
    ensures
        r == primera_con_uuid(ps@, u@),
{
    let mut i: usize = 0;
    assert(ps@.subrange(0, ps@.len() as int) =~= ps@);
    while i < ps.len()
        invariant
            i <= ps.len(),
            primera_con_uuid(ps@, u@) == primera_con_uuid(ps@.subrange(i as int, ps@.len() as int), u@),
        decreases ps.len() - i,
    {
        assert(ps@.subrange(i as int, ps@.len() as int).drop_first() =~= ps@.subrange(i + 1, ps@.len() as int));
        if iguales(ps[i].uuid.as_str(), u) {
            return Some(ps[i].id);
        }
        i = i + 1;
    }
    None
}

/// Settles the outbox with the server's answer: the ids to mark as
/// synchronised, and the (id, reason) pairs to mark as failed.
pub fn conciliar_push(pendientes: &Vec<CambioPendiente>, resp: &PushResponse) -> (r: (Vec<i64>, Vec<(i64, String)>))
    ensures
        r.0@ == ids_aceptados(pendientes@, resp.aceptados@),
        r.1@.map_values(|e: (i64, String)| (e.0, e.1@)) == errores_rechazo(pendientes@, resp.rechazados@),
{
    let mut ok: Vec<i64> = Vec::new();
    let mut i: usize = 0;
    while i < pendientes.len()
        invariant
            i <= pendientes.len(),
            ok@ == ids_aceptados(pendientes@.take(i as int), resp.aceptados@),
        decreases pendientes.len() - i,
    {
        assert(pendientes@.take(i + 1).drop_last() =~= pendientes@.take(i as int));
        if contiene_exec(&resp.aceptados, pendientes[i].uuid.as_str()) {
            ok.push(pendientes[i].id);
        }
        i = i + 1;
    }
    assert(pendientes@.take(pendientes.len() as int) =~= pendientes@);
    let mut errores: Vec<(i64, String)> = Vec::new();
    let mut j: usize = 0;
    assert(pendientes@.subrange(0, pendientes@.len() as int) =~= pendientes@);
    while j < resp.rechazados.len()
        invariant
            j <= resp.rechazados.len(),
            errores@.map_values(|e: (i64, String)| (e.0, e.1@)) == errores_rechazo(
                pendientes@,
                resp.rechazados@.take(j as int),
            ),
        decreases resp.rechazados.len() - j,
    {
        let rj = &resp.rechazados[j];
        assert(resp.rechazados@.take(j + 1).drop_last() =~= resp.rechazados@.take(j as int));
        match primera_exec(pendientes, rj.uuid.as_str()) {
            Some(id) => {
                let ghost antes = errores@;
                errores.push((id, rj.motivo.clone()));
                assert(errores@.map_values(|e: (i64, String)| (e.0, e.1@)) =~= antes.map_values(
                    |e: (i64, String)| (e.0, e.1@),
                ).push((id, rj.motivo@)));
            },
            None => {},
        }
        j = j + 1;
    }
    assert(resp.rechazados@.take(resp.rechazados.len() as int) =~= resp.rechazados@);
    (ok, errores)
}

pub open spec fn sql_marcar_sincronizados_spec(n: nat) -> Seq<char> {
    "UPDATE sync_outbox SET synced_at = datetime('now') WHERE id IN ("@ + unir_con(
        Seq::new(n, |i: int| "?"@),
        ","@,
    ) + ")"@
}

/// The statement that marks `n` outbox entries as synchronised; none for
/// an empty batch.
pub fn sql_marcar_sincronizados(n: usize) -> (r: Option<String>)
    ensures
        n == 0 ==> r is None,
        n > 0 ==> (r matches Some(s) && s@ == sql_marcar_sincronizados_spec(n as nat)),
{
    if n == 0 {
        return None;
    }
    let mut marcas: Vec<String> = Vec::new();
    let mut i: usize = 0;
    while i < n
        invariant
            i <= n,
            marcas@.len() == i,
            forall|k: int| 0 <= k < i ==> (#[trigger] marcas@[k])@ == "?"@,
        decreases n - i,
    {
        marcas.push(a_cadena("?"));
        i = i + 1;
    }
    assert(vistas(marcas@) =~= Seq::new(n as nat, |k: int| "?"@));
    let mut r = a_cadena("UPDATE sync_outbox SET synced_at = datetime('now') WHERE id IN (");
    r.append(unir_lista(&marcas, ",").as_str());
    r.append(")");
    Some(r)
}

pub open spec fn sql_limpiar_antiguos_spec(dias: int) -> Seq<char> {
    "DELETE FROM sync_outbox WHERE synced_at IS NOT NULL AND synced_at < datetime('now', '-"@
        + texto_entero(dias) + " days')"@
}

/// The statement that drops synchronised entries older than `dias` days.
pub fn sql_limpiar_antiguos(dias: i64) -> (r: String)
    ensures
        r@ == sql_limpiar_antiguos_spec(dias as int),
{
    let mut r = a_cadena(
        "DELETE FROM sync_outbox WHERE synced_at IS NOT NULL AND synced_at < datetime('now', '-",
    );
    r.append(texto_i64(dias).as_str());
    r.append(" days')");
    r
}

/// The tables whose rows a backfill queues again.
pub open spec fn tablas_backfill_spec() -> Seq<Seq<char>> {
    seq![
        "productos"@,
        "proveedores"@,
        "clientes"@,
        "usuarios"@,
        "categorias"@,
        "sucursales"@,
        "stock_sucursal"@,
        "ventas"@,
        "presupuestos"@,
        "ordenes_pedido"@,
        "recepciones"@,
        "cortes"@,
        "devoluciones"@,
        "transferencias"@,
        "movimientos_caja"@,
        "aperturas_caja"@,
    ]
}

/// The tables whose rows a backfill queues again, in order.
pub fn tablas_backfill() -> (r: Vec<String>)
    ensures
        vistas(r@) == tablas_backfill_spec(),
{
    let mut r: Vec<String> = Vec::new();
    r.push(a_cadena("productos"));
    r.push(a_cadena("proveedores"));
    r.push(a_cadena("clientes"));
    r.push(a_cadena("usuarios"));
    r.push(a_cadena("categorias"));
    r.push(a_cadena("sucursales"));
    r.push(a_cadena("stock_sucursal"));
    r.push(a_cadena("ventas"));
    r.push(a_cadena("presupuestos"));
    r.push(a_cadena("ordenes_pedido"));
    r.push(a_cadena("recepciones"));
    r.push(a_cadena("cortes"));
    r.push(a_cadena("devoluciones"));
    r.push(a_cadena("transferencias"));
    r.push(a_cadena("movimientos_caja"));
    r.push(a_cadena("aperturas_caja"));
    assert(vistas(r@) =~= tablas_backfill_spec());
    r
}

pub open spec fn sql_backfill_spec(t: Seq<char>) -> Seq<char> {
    "INSERT INTO sync_outbox (tabla, uuid, operacion) SELECT '"@ + t + "', uuid, 'UPDATE' FROM "@ + t
        + " WHERE uuid IS NOT NULL ON CONFLICT(tabla, uuid) WHERE synced_at IS NULL DO UPDATE SET created_at = datetime('now'), intentos = 0, ultimo_error = NULL"@
}

/// The statement that queues every row of a table again.
pub fn sql_backfill(tabla: &str) -> (r: String)
    ensures
        r@ == sql_backfill_spec(tabla@),
{
    let mut r = a_cadena("INSERT INTO sync_outbox (tabla, uuid, operacion) SELECT '");
    r.append(tabla);
    r.append("', uuid, 'UPDATE' FROM ");
    r.append(tabla);
    r.append(
        " WHERE uuid IS NOT NULL ON CONFLICT(tabla, uuid) WHERE synced_at IS NULL DO UPDATE SET created_at = datetime('now'), intentos = 0, ultimo_error = NULL",
    );
    r
}

/// A pulled change deletes its row when its operation says so.
pub fn operacion_es_borrado(operacion: &str) -> (r: bool)
    ensures
        r == (operacion@ == "DELETE"@),
{
    iguales(operacion, "DELETE")
}

/// What the point of sale shows about synchronisation.
pub struct EstadoSync {
    pub activo: bool,
    pub remote_url: Option<String>,
    pub device_uuid: String,
    pub sucursal_id: i64,
    pub last_push_at: Option<String>,
    pub last_pull_at: Option<String>,
    pub pendientes: i64,
}

impl EstadoSync {
    /// The state shown for a configuration and the changes still queued.
    pub fn de_config(cfg: SyncConfig, pendientes: i64) -> (r: EstadoSync)
        ensures
            r.activo == cfg.activo,
            r.remote_url == cfg.remote_url,
            r.device_uuid == cfg.device_uuid,
            r.sucursal_id == cfg.sucursal_id,
            r.last_push_at == cfg.last_push_at,
            r.last_pull_at == cfg.last_pull_at,
            r.pendientes == pendientes,
    {
        EstadoSync {
            activo: cfg.activo,
            remote_url: cfg.remote_url,
            device_uuid: cfg.device_uuid,
            sucursal_id: cfg.sucursal_id,
            last_push_at: cfg.last_push_at,
            last_pull_at: cfg.last_pull_at,
            pendientes,
        }
    }
}

/// The form that connects the point of sale to a server.
pub struct ConfigurarSyncInput {
    pub remote_url: String,
    pub email: String,
    pub password: String,
    pub sucursal_id: Option<i64>,
}

/// The server's address without trailing slashes.
pub fn url_base(remote_url: &str) -> (r: String)
    ensures
        r@ == sin_final(remote_url@, '/'),
{
    sin_final_exec(remote_url, '/')
}

/// The login address of a server.
pub fn url_login(remote_url: &str) -> (r: String)
    ensures
        r@ == sin_final(remote_url@, '/') + "/auth/login"@,
{
    let mut r = url_base(remote_url);
    r.append("/auth/login");
    r
}

/// The branch a configured point of sale belongs to: the one chosen in the
/// form, else the one the server gave at login.
pub fn sucursal_final(elegida: Option<i64>, del_servidor: i64) -> (r: i64)
    ensures
        elegida matches Some(s) ==> r == s,
        elegida is None ==> r == del_servidor,
{
    match elegida {
        Some(s) => s,
        None => del_servidor,
    }
}

/// The error of a login the server refused, with its status and body.
pub fn login_rechazado(estado: &str, cuerpo: &str) -> (r: String)
    ensures
        r@ == "Login rechazado ("@ + estado@ + "): "@ + cuerpo@,
{
    let mut r = unir("Login rechazado (", estado);
    r.append("): ");
    r.append(cuerpo);
    r
}

/// `id` is the id of a pending change whose uuid the server accepted.
pub open spec fn de_cambio_aceptado(ps: Seq<CambioPendiente>, aceptados: Seq<String>, id: i64) -> bool {
    exists|j: int| 0 <= j < ps.len() && (#[trigger] ps[j]).id == id && contiene_texto(aceptados, ps[j].uuid@)
}

/// Every pending change the server accepted is marked synchronised,
/// whatever its operation (an accepted deletion too): its id is among the
/// ids that settling the outbox marks.
pub proof fn ley_todo_aceptado_se_marca(ps: Seq<CambioPendiente>, aceptados: Seq<String>)
    ensures
        forall|j: int|
            0 <= j < ps.len() && contiene_texto(aceptados, (#[trigger] ps[j]).uuid@) ==> ids_aceptados(
                ps,
                aceptados,
            ).contains(ps[j].id),
    decreases ps.len(),
{
    if ps.len() > 0 {
        let previos = ps.drop_last();
        ley_todo_aceptado_se_marca(previos, aceptados);
        assert forall|j: int|
            0 <= j < ps.len() && contiene_texto(aceptados, (#[trigger] ps[j]).uuid@) implies ids_aceptados(
                ps,
                aceptados,
            ).contains(ps[j].id) by {
            let r = ids_aceptados(ps, aceptados);
            let a = ids_aceptados(previos, aceptados);
            if j < ps.len() - 1 {
                assert(previos[j] == ps[j]);
                let k = choose|k: int| 0 <= k < a.len() && a[k] == ps[j].id;
                if contiene_texto(aceptados, ps.last().uuid@) {
                    assert(r[k] == a[k]);
                } else {
                    assert(r[k] == a[k]);
                }
            } else {
                assert(r[r.len() - 1] == ps[j].id);
            }
        }
    }
}

/// A pending change is marked synchronised only when the server accepted
/// its uuid: every id that settling the outbox marks belongs to a pending
/// change whose uuid is among the accepted ones.
pub proof fn ley_solo_aceptados(ps: Seq<CambioPendiente>, aceptados: Seq<String>)
    ensures
        forall|k: int|
            0 <= k < ids_aceptados(ps, aceptados).len() ==> de_cambio_aceptado(
                ps,
                aceptados,
                #[trigger] ids_aceptados(ps, aceptados)[k],
            ),
    decreases ps.len(),
{
    if ps.len() > 0 {
        ley_solo_aceptados(ps.drop_last(), aceptados);
        let previos = ids_aceptados(ps.drop_last(), aceptados);
        assert forall|k: int| 0 <= k < ids_aceptados(ps, aceptados).len() implies de_cambio_aceptado(
            ps,
            aceptados,
            #[trigger] ids_aceptados(ps, aceptados)[k],
        ) by {
            if k < previos.len() {
                assert(ids_aceptados(ps, aceptados)[k] == previos[k]);
                assert(de_cambio_aceptado(ps.drop_last(), aceptados, previos[k]));
                let j = choose|j: int|
                    0 <= j < ps.drop_last().len() && (#[trigger] ps.drop_last()[j]).id == previos[k]
                        && contiene_texto(aceptados, ps.drop_last()[j].uuid@);
                assert(ps[j] == ps.drop_last()[j]);
            } else {
                let j = ps.len() - 1;
                assert(ps[j] == ps.last());
            }
        }
    }
}

} // verus!
