//! Last-write-wins between replicas, decided on the `updated_at` text
//! (`YYYY-MM-DD HH:MM:SS`) compared as strings, as both the point of sale
//! (SQLite) and the remote server (Postgres) do.

use vstd::prelude::*;

verus! {

/// Strict lexicographic order of two texts by character value. For UTF-8
/// text this is the order of `str`'s comparison, which goes by bytes.
pub open spec fn menor_lex(a: Seq<char>, b: Seq<char>) -> bool
    decreases a.len(),
{
    if a.len() == 0 {
        b.len() > 0
    } else if b.len() == 0 {
        false
    } else if a[0] != b[0] {
        a[0] < b[0]
    } else {
        menor_lex(a.drop_first(), b.drop_first())
    }
}

/// `a >= b` on texts.
pub open spec fn mayor_o_igual(a: Seq<char>, b: Seq<char>) -> bool {
    !menor_lex(a, b)
}

/// Whether the remote server applies an incoming row: it refuses only when
/// its own copy is at least as new and the incoming row carries a time.
pub open spec fn servidor_acepta_spec(local: Option<Seq<char>>, entrante: Seq<char>) -> bool {
    match local {
        Some(l) => !(mayor_o_igual(l, entrante) && entrante.len() > 0),
        None => true,
    }
}

/// Whether the point of sale applies a pulled row: it refuses whenever its
/// own copy is at least as new.
pub open spec fn pos_acepta_spec(local: Option<Seq<char>>, entrante: Seq<char>) -> bool {
    match local {
        Some(l) => !mayor_o_igual(l, entrante),
        None => true,
    }
}

/// The `updated_at` a replica holds after it is offered one row.
pub open spec fn tras_recibir(local: Option<Seq<char>>, entrante: Seq<char>) -> Option<Seq<char>> {
    if pos_acepta_spec(local, entrante) {
        Some(entrante)
    } else {
        local
    }
}

/// Exact comparison `a < b` of two texts.
pub fn menor_lex_exec(a: &str, b: &str) -> (r: bool)
    ensures
        r == menor_lex(a@, b@),
{
    let va = crate::texto::caracteres(a);
    let vb = crate::texto::caracteres(b);
    let mut i: usize = 0;
    assert(a@.subrange(0, a@.len() as int) =~= a@);
    assert(b@.subrange(0, b@.len() as int) =~= b@);
    while i < va.len() && i < vb.len() && va[i] == vb[i]
        invariant
            va@ == a@,
            vb@ == b@,
            i <= va.len(),
            i <= vb.len(),
            menor_lex(a@, b@) == menor_lex(a@.subrange(i as int, a@.len() as int), b@.subrange(i as int, b@.len() as int)),
        decreases va.len() - i,
    {
        assert(a@.subrange(i as int, a@.len() as int).drop_first() =~= a@.subrange(i + 1, a@.len() as int));
        assert(b@.subrange(i as int, b@.len() as int).drop_first() =~= b@.subrange(i + 1, b@.len() as int));
        i = i + 1;
    }
    if i == va.len() {
        i < vb.len()
    } else if i == vb.len() {
        false
    } else {
        va[i] < vb[i]
    }
}

/// The server's last-write-wins decision for one pushed row.
pub fn servidor_acepta(local: Option<&str>, entrante: &str) -> (r: bool)
    ensures
        r == servidor_acepta_spec(
            match local {
                Some(l) => Some(l@),
                None => None,
            },
            entrante@,
        ),
{
    match local {
        Some(l) => !(!menor_lex_exec(l, entrante) && entrante.unicode_len() > 0),
        None => true,
    }
}

/// The point of sale's last-write-wins decision for one pulled row.
pub fn pos_acepta(local: Option<&str>, entrante: &str) -> (r: bool)
    ensures
        r == pos_acepta_spec(
            match local {
                Some(l) => Some(l@),
                None => None,
            },
            entrante@,
        ),
{
    match local {
        Some(l) => menor_lex_exec(l, entrante),
        None => true,
    }
}

proof fn lema_asimetrico(a: Seq<char>, b: Seq<char>)
    requires
        menor_lex(a, b),
    ensures
        !menor_lex(b, a),
    decreases a.len(),
{
    if a.len() > 0 && b.len() > 0 && a[0] == b[0] {
        lema_asimetrico(a.drop_first(), b.drop_first());
    }
}

/// A row that was just applied is refused when it arrives again: delivering
/// the same change twice leaves the replica as one delivery did.
pub proof fn ley_entrega_repetida(local: Option<Seq<char>>, entrante: Seq<char>)
    ensures
        !pos_acepta_spec(Some(entrante), entrante),
        tras_recibir(tras_recibir(local, entrante), entrante) == tras_recibir(local, entrante),
        entrante.len() > 0 ==> !servidor_acepta_spec(Some(entrante), entrante),
{
    lema_menor_irreflexivo(entrante);
}

/// A row replaces an existing copy only when it is strictly newer.
pub proof fn ley_gana_el_mas_reciente(local: Seq<char>, entrante: Seq<char>)
    ensures
        pos_acepta_spec(Some(local), entrante) <==> menor_lex(local, entrante),
        servidor_acepta_spec(Some(local), entrante) && entrante.len() > 0 ==> menor_lex(local, entrante),
{
}

/// The newer of two `updated_at` texts.
pub open spec fn mas_reciente(a: Seq<char>, b: Seq<char>) -> Seq<char> {
    if menor_lex(a, b) {
        b
    } else {
        a
    }
}

/// The order facts about two texts that the replica's decisions rest on.
proof fn lema_par(x: Seq<char>, y: Seq<char>)
    ensures
        !menor_lex(x, x),
        menor_lex(x, y) ==> !menor_lex(y, x),
        x != y ==> menor_lex(x, y) || menor_lex(y, x),
{
    lema_menor_irreflexivo(x);
    if menor_lex(x, y) {
        lema_asimetrico(x, y);
    }
    if x != y {
        lema_menor_total(x, y);
    }
}

/// Two versions of a row reach a replica, whatever it held before, in
/// either order; it ends with the same one: the newest of what it held and
/// the two.
pub proof fn ley_convergencia(inicial: Option<Seq<char>>, a: Seq<char>, b: Seq<char>)
    ensures
        tras_recibir(tras_recibir(inicial, a), b) == tras_recibir(tras_recibir(inicial, b), a),
        tras_recibir(tras_recibir(inicial, a), b) == Some(match inicial {
            None => mas_reciente(a, b),
            Some(l) => mas_reciente(mas_reciente(l, a), b),
        }),
{
    lema_par(a, b);
    lema_par(b, a);
    match inicial {
        None => {},
        Some(l) => {
            lema_par(l, a);
            lema_par(a, l);
            lema_par(l, b);
            lema_par(b, l);
            if menor_lex(l, a) && menor_lex(a, b) {
                lema_menor_transitivo(l, a, b);
            }
            if menor_lex(l, b) && menor_lex(b, a) {
                lema_menor_transitivo(l, b, a);
            }
            if menor_lex(a, l) && menor_lex(l, b) {
                lema_menor_transitivo(a, l, b);
            }
            if menor_lex(b, l) && menor_lex(l, a) {
                lema_menor_transitivo(b, l, a);
            }
            if menor_lex(a, b) && menor_lex(b, l) {
                lema_menor_transitivo(a, b, l);
            }
            if menor_lex(b, a) && menor_lex(a, l) {
                lema_menor_transitivo(b, a, l);
            }
        },
    }
}

/// No text is before itself.
pub proof fn lema_menor_irreflexivo(a: Seq<char>)
    ensures
        !menor_lex(a, a),
    decreases a.len(),
{
    if a.len() > 0 {
        lema_menor_irreflexivo(a.drop_first());
    }
}

/// The order of texts is transitive.
pub proof fn lema_menor_transitivo(a: Seq<char>, b: Seq<char>, c: Seq<char>)
    requires
        menor_lex(a, b),
        menor_lex(b, c),
    ensures
        menor_lex(a, c),
    decreases a.len(),
{
    if a.len() > 0 && b.len() > 0 && c.len() > 0 && a[0] == b[0] && b[0] == c[0] {
        lema_menor_transitivo(a.drop_first(), b.drop_first(), c.drop_first());
    }
}

/// Two different texts are ordered one way or the other.
pub proof fn lema_menor_total(a: Seq<char>, b: Seq<char>)
    requires
        a != b,
    ensures
        menor_lex(a, b) || menor_lex(b, a),
    decreases a.len(),
{
    if a.len() == 0 && b.len() == 0 {
        assert(a =~= b);
    }
    if a.len() > 0 && b.len() > 0 && a[0] == b[0] {
        if a.drop_first() == b.drop_first() {
            assert(a =~= seq![a[0]] + a.drop_first());
            assert(b =~= seq![b[0]] + b.drop_first());
        }
        lema_menor_total(a.drop_first(), b.drop_first());
    }
}

} // verus!
