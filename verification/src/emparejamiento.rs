//! Pairing a phone with the point of sale: one-time tokens that live five
//! minutes in memory, the pairing URL and its QR code.

use vstd::prelude::*;
use crate::texto::{a_cadena, iguales, unir};
use crate::numero::{digitos, digitos_exec};
use crate::externos::{ahora_unix, bytes_aleatorios, generar_qr_svg, qr_svg};

verus! {

/// How long a pairing token lives, in seconds.
pub const VIGENCIA_EMPAREJAMIENTO: i64 = 300;

/// The smallest side, in pixels, of a pairing QR code.
pub const LADO_QR: u32 = 280;

/// A pairing token and the Unix time at which it expires.
pub struct PairingEntry {
    pub token: String,
    pub expires_at: i64,
}

/// What the point of sale shows to pair a phone.
pub struct PairingQr {
    pub token: String,
    /// `https://<ip>:<port>/pairing?token=...`
    pub url: String,
    /// The URL as an SVG QR code.
    pub qr_svg: String,
    /// Seconds the token lives.
    pub expires_in: i64,
}

/// The pairing tokens in memory, by token.
pub struct PairingStore {
    entradas: Vec<PairingEntry>,
    vista: Ghost<Map<Seq<char>, i64>>,
}

/// A token may be redeemed at time `ahora`: it is known and not past its
/// expiry.
pub open spec fn canjeable(m: Map<Seq<char>, i64>, token: Seq<char>, ahora: i64) -> bool {
    m.contains_key(token) && m[token] >= ahora
}

/// The tokens a purge at time `ahora` keeps: those expiring after it.
pub open spec fn purgado(m: Map<Seq<char>, i64>, ahora: i64) -> Map<Seq<char>, i64> {
    Map::new(|t: Seq<char>| m.contains_key(t) && m[t] > ahora, |t: Seq<char>| m[t])
}

impl View for PairingStore {
    type V = Map<Seq<char>, i64>;

    closed spec fn view(&self) -> Map<Seq<char>, i64> {
        self.vista@
    }
}

impl PairingStore {
    /// The entries and the map agree, one entry per token.
    pub closed spec fn bien_formado(&self) -> bool {
        &&& forall|i: int|
            0 <= i < self.entradas@.len() ==> self.vista@.contains_key(#[trigger] self.entradas@[i].token@)
                && self.vista@[self.entradas@[i].token@] == self.entradas@[i].expires_at
        &&& forall|t: Seq<char>|
            self.vista@.contains_key(t) ==> exists|i: int|
                0 <= i < self.entradas@.len() && #[trigger] self.entradas@[i].token@ == t
        &&& forall|i: int, j: int|
            0 <= i < j < self.entradas@.len() ==> (#[trigger] self.entradas@[i]).token@ != (
            #[trigger] self.entradas@[j]).token@
    }

    pub fn nuevo() -> (r: PairingStore)
        ensures
            r.bien_formado(),
            r@ == Map::<Seq<char>, i64>::empty(),
    {
        PairingStore { entradas: Vec::new(), vista: Ghost(Map::empty()) }
    }

    fn buscar(&self, token: &str) -> (r: Option<usize>)
        requires
            self.bien_formado(),
        ensures
            r matches Some(i) ==> i < self.entradas@.len() && self.entradas@[i as int].token@ == token@,
            r is None ==> !self@.contains_key(token@),
    {
        let mut i: usize = 0;
        while i < self.entradas.len()
            invariant
                i <= self.entradas.len(),
                forall|k: int| 0 <= k < i ==> self.entradas@[k].token@ != token@,
            decreases self.entradas.len() - i,
        {
            if iguales(self.entradas[i].token.as_str(), token) {
                return Some(i);
            }
            i = i + 1;
        }
        None
    }

    /// Stores a token and its expiry, replacing an earlier one with the same
    /// text.
    pub fn insertar(&mut self, token: String, expires_at: i64)
        requires
            old(self).bien_formado(),
        ensures
            final(self).bien_formado(),
            final(self)@ == old(self)@.insert(token@, expires_at),
    {
        let ghost t = token@;
        let ghost mut k: int = 0;
        match self.buscar(token.as_str()) {
            Some(i) => {
                self.entradas.set(i, PairingEntry { token, expires_at });
                proof {
                    k = i as int;
                }
            },
            None => {
                self.entradas.push(PairingEntry { token, expires_at });
                proof {
                    k = self.entradas@.len() - 1;
                }
            },
        }
        self.vista = Ghost(self.vista@.insert(t, expires_at));
        assert(self.entradas@[k].token@ == t);
        assert forall|x: Seq<char>| self.vista@.contains_key(x) implies exists|i: int|
            0 <= i < self.entradas@.len() && #[trigger] self.entradas@[i].token@ == x by {
            if x != t {
                let i = choose|i: int| 0 <= i < old(self).entradas@.len() && #[trigger] old(self).entradas@[i].token@ == x;
                assert(self.entradas@[i].token@ == x);
            } else {
                assert(self.entradas@[k].token@ == x);
            }
        }
    }

    /// Forgets a token.
    pub fn quitar(&mut self, token: &str)
        requires
            old(self).bien_formado(),
        ensures
            final(self).bien_formado(),
            final(self)@ == old(self)@.remove(token@),
    {
        match self.buscar(token) {
            Some(i) => {
                self.entradas.remove(i);
            },
            None => {},
        }
        self.vista = Ghost(self.vista@.remove(token@));
        assert forall|i: int| 0 <= i < self.entradas@.len() implies self.vista@.contains_key(
            #[trigger] self.entradas@[i].token@,
        ) && self.vista@[self.entradas@[i].token@] == self.entradas@[i].expires_at by {
            let j = if self.entradas@.len() < old(self).entradas@.len() {
                let k = choose|k: int| 0 <= k < old(self).entradas@.len() && old(self).entradas@[k].token@ == token@;
                if i < k { i } else { i + 1 }
            } else {
                i
            };
            assert(self.entradas@[i] == old(self).entradas@[j]);
        }
        assert forall|x: Seq<char>| self.vista@.contains_key(x) implies exists|i: int|
            0 <= i < self.entradas@.len() && #[trigger] self.entradas@[i].token@ == x by {
            let j = choose|i: int| 0 <= i < old(self).entradas@.len() && #[trigger] old(self).entradas@[i].token@ == x;
            if self.entradas@.len() < old(self).entradas@.len() {
                let k = choose|k: int| 0 <= k < old(self).entradas@.len() && old(self).entradas@[k].token@ == token@;
                if j < k {
                    assert(self.entradas@[j].token@ == x);
                } else {
                    assert(self.entradas@[j - 1].token@ == x);
                }
            } else {
                assert(self.entradas@[j].token@ == x);
            }
        }
        assert forall|i: int, j: int| 0 <= i < j < self.entradas@.len() implies (
        #[trigger] self.entradas@[i]).token@ != (#[trigger] self.entradas@[j]).token@ by {
            if self.entradas@.len() < old(self).entradas@.len() {
                let k = choose|k: int| 0 <= k < old(self).entradas@.len() && old(self).entradas@[k].token@ == token@;
                let i0 = if i < k { i } else { i + 1 };
                let j0 = if j < k { j } else { j + 1 };
                assert(self.entradas@[i] == old(self).entradas@[i0]);
                assert(self.entradas@[j] == old(self).entradas@[j0]);
            } else {
                assert(self.entradas@[i] == old(self).entradas@[i]);
                assert(self.entradas@[j] == old(self).entradas@[j]);
            }
        }
    }

    /// Whether a phone may redeem `token` at time `ahora`; the error names
    /// the reason: unknown, or expired.
    pub fn validar(&self, token: &str, ahora: i64) -> (r: Result<(), String>)
        requires
            self.bien_formado(),
        ensures
            r is Ok <==> canjeable(self@, token@, ahora),
            !self@.contains_key(token@) ==> (r matches Err(e) && e@ == "Token inválido o expirado"@),
            self@.contains_key(token@) && self@[token@] < ahora ==> (r matches Err(e) && e@
                == "Token expirado"@),
    {
        match self.buscar(token) {
            None => Err(a_cadena("Token inválido o expirado")),
            Some(i) => {
                if self.entradas[i].expires_at < ahora {
                    Err(a_cadena("Token expirado"))
                } else {
                    Ok(())
                }
            },
        }
    }

    /// Drops the tokens that expire at `ahora` or before.
    pub fn purgar(&mut self, ahora: i64)
        requires
            old(self).bien_formado(),
        ensures
            final(self).bien_formado(),
            final(self)@ == purgado(old(self)@, ahora),
    {
        let ghost m = self.vista@;
        let ghost viejas = self.entradas@;
        let mut nuevas: Vec<PairingEntry> = Vec::new();
        let mut i: usize = 0;
        let n = self.entradas.len();
        while i < n
            invariant
                n == self.entradas.len(),
                self.entradas@ == viejas,
                self.vista@ == m,
                self.bien_formado(),
                i <= n,
                forall|k: int| 0 <= k < nuevas@.len() ==> proviene(#[trigger] nuevas@[k], viejas, i as int, ahora),
                forall|j: int| 0 <= j < i && viejas[j].expires_at > ahora ==> exists|k: int| 0 <= k < nuevas@.len() && #[trigger] nuevas@[k] == viejas[j],
                forall|a: int, b: int| 0 <= a < b < nuevas@.len() ==> (#[trigger] nuevas@[a]).token@ != (#[trigger] nuevas@[b]).token@,
            decreases n - i,
        {
            if self.entradas[i].expires_at > ahora {
                let e = PairingEntry {
                    token: self.entradas[i].token.clone(),
                    expires_at: self.entradas[i].expires_at,
                };
                assert(e == viejas[i as int]);
                assert forall|k: int| 0 <= k < nuevas@.len() implies (#[trigger] nuevas@[k]).token@ != e.token@ by {
                    assert(proviene(nuevas@[k], viejas, i as int, ahora));
                    let j = choose|j: int| 0 <= j < i && nuevas@[k] == #[trigger] viejas[j] && viejas[j].expires_at > ahora;
                    assert(viejas[j].token@ != viejas[i as int].token@);
                }
                let ghost antes = nuevas@;
                nuevas.push(e);
                assert forall|j: int| 0 <= j < i + 1 && viejas[j].expires_at > ahora implies exists|k: int|
                    0 <= k < nuevas@.len() && #[trigger] nuevas@[k] == viejas[j] by {
                    if j < i {
                        let k = choose|k: int| 0 <= k < antes.len() && #[trigger] antes[k] == viejas[j];
                        assert(nuevas@[k] == antes[k]);
                    } else {
                        assert(nuevas@[antes.len() as int] == viejas[j]);
                    }
                }
                assert forall|k: int| 0 <= k < nuevas@.len() implies proviene(#[trigger] nuevas@[k], viejas, i + 1, ahora) by {
                    if k < antes.len() {
                        assert(proviene(antes[k], viejas, i as int, ahora));
                        let j = choose|j: int| 0 <= j < i && antes[k] == #[trigger] viejas[j] && viejas[j].expires_at > ahora;
                        assert(nuevas@[k] == viejas[j]);
                    } else {
                        assert(nuevas@[k] == viejas[i as int]);
                    }
                }
            } else {
                assert forall|k: int| 0 <= k < nuevas@.len() implies proviene(#[trigger] nuevas@[k], viejas, i + 1, ahora) by {
                    assert(proviene(nuevas@[k], viejas, i as int, ahora));
                    let j = choose|j: int| 0 <= j < i && nuevas@[k] == #[trigger] viejas[j] && viejas[j].expires_at > ahora;
                    assert(nuevas@[k] == viejas[j]);
                }
            }
            i = i + 1;
        }
        self.entradas = nuevas;
        self.vista = Ghost(purgado(m, ahora));
        assert forall|x: Seq<char>| self.vista@.contains_key(x) implies exists|k: int|
            0 <= k < self.entradas@.len() && #[trigger] self.entradas@[k].token@ == x by {
            let j = choose|j: int| 0 <= j < viejas.len() && #[trigger] viejas[j].token@ == x;
            let k = choose|k: int| 0 <= k < self.entradas@.len() && #[trigger] self.entradas@[k] == viejas[j];
            assert(self.entradas@[k].token@ == x);
        }
        assert forall|k: int| 0 <= k < self.entradas@.len() implies self.vista@.contains_key(
            #[trigger] self.entradas@[k].token@,
        ) && self.vista@[self.entradas@[k].token@] == self.entradas@[k].expires_at by {
            assert(proviene(self.entradas@[k], viejas, n as int, ahora));
            let j = choose|j: int| 0 <= j < n && self.entradas@[k] == #[trigger] viejas[j] && viejas[j].expires_at > ahora;
            assert(m.contains_key(viejas[j].token@));
        }
    }
}

/// `e` is one of the first `hasta` entries of `viejas`, one that expires
/// after `ahora`.
spec fn proviene(e: PairingEntry, viejas: Seq<PairingEntry>, hasta: int, ahora: i64) -> bool {
    exists|j: int| 0 <= j < hasta && e == #[trigger] viejas[j] && viejas[j].expires_at > ahora
}

/// A lower-case hexadecimal digit.
pub open spec fn digito_hex(d: int) -> char {
    if d < 10 {
        crate::numero::digito(d)
    } else if d == 10 {
        'a'
    } else if d == 11 {
        'b'
    } else if d == 12 {
        'c'
    } else if d == 13 {
        'd'
    } else if d == 14 {
        'e'
    } else {
        'f'
    }
}

/// Bytes as lower-case hexadecimal, two digits each (`{:02x}`).
pub open spec fn hex(b: Seq<u8>) -> Seq<char>
    decreases b.len(),
{
    if b.len() == 0 {
        Seq::empty()
    } else {
        hex(b.drop_last()) + seq![digito_hex(b.last() as int / 16), digito_hex(b.last() as int % 16)]
    }
}

fn digito_hex_exec(d: u8) -> (c: char)
    requires
        d < 16,
    ensures
        c == digito_hex(d as int),
{
    if d == 0 {
        '0'
    } else if d == 1 {
        '1'
    } else if d == 2 {
        '2'
    } else if d == 3 {
        '3'
    } else if d == 4 {
        '4'
    } else if d == 5 {
        '5'
    } else if d == 6 {
        '6'
    } else if d == 7 {
        '7'
    } else if d == 8 {
        '8'
    } else if d == 9 {
        '9'
    } else if d == 10 {
        'a'
    } else if d == 11 {
        'b'
    } else if d == 12 {
        'c'
    } else if d == 13 {
        'd'
    } else if d == 14 {
        'e'
    } else {
        'f'
    }
}

/// Bytes as lower-case hexadecimal.
pub fn a_hex(b: &Vec<u8>) -> (r: String)
    ensures
        r@ == hex(b@),
{
    let mut r = String::new();
    let mut i: usize = 0;
    while i < b.len()
        invariant
            i <= b.len(),
            r@ == hex(b@.take(i as int)),
        decreases b.len() - i,
    {
        assert(b@.take(i + 1).drop_last() =~= b@.take(i as int));
        let x = b[i];
        r.push(digito_hex_exec(x / 16));
        r.push(digito_hex_exec(x % 16));
        assert(r@ =~= hex(b@.take(i + 1)));
        i = i + 1;
    }
    assert(b@.take(b.len() as int) =~= b@);
    r
}

/// The pairing URL a phone opens.
pub open spec fn url_emparejamiento(ip: Seq<char>, port: u16, token: Seq<char>) -> Seq<char> {
    "https://"@ + ip + ":"@ + digitos(port as nat) + "/pairing?token="@ + token
}

/// Issues the pairing token drawn from `bytes` at time `ahora`: the token is
/// the bytes in hexadecimal, it is stored with expiry `ahora + 300` before
/// its URL is drawn as a QR code, and the result is an error exactly when the
/// URL does not fit in a QR code (the token stays stored then too).
pub fn emitir_emparejamiento(
    tokens: &mut PairingStore,
    bytes: &Vec<u8>,
    ahora: i64,
    ip: &str,
    port: u16,
) -> (r: Result<PairingQr, String>)
    requires
        old(tokens).bien_formado(),
        ahora <= i64::MAX - VIGENCIA_EMPAREJAMIENTO,
    ensures
        final(tokens).bien_formado(),
        final(tokens)@ == old(tokens)@.insert(hex(bytes@), (ahora + VIGENCIA_EMPAREJAMIENTO) as i64),
        r is Ok <==> qr_svg(url_emparejamiento(ip@, port, hex(bytes@)), LADO_QR) is Some,
        r matches Ok(q) ==> q.token@ == hex(bytes@) && q.url@ == url_emparejamiento(ip@, port, hex(bytes@))
            && Some(q.qr_svg@) == qr_svg(q.url@, LADO_QR) && q.expires_in == VIGENCIA_EMPAREJAMIENTO,
{
    let token = a_hex(bytes);
    let expires_at = ahora + VIGENCIA_EMPAREJAMIENTO;
    tokens.insertar(token.clone(), expires_at);
    let mut url = unir("https://", ip);
    url.append(":");
    url.append(digitos_exec(port as u64).as_str());
    url.append("/pairing?token=");
    url.append(token.as_str());
    assert(url@ =~= url_emparejamiento(ip@, port, hex(bytes@)));
    match generar_qr_svg(url.as_str(), LADO_QR) {
        Ok(svg) => Ok(PairingQr { token, url, qr_svg: svg, expires_in: VIGENCIA_EMPAREJAMIENTO }),
        Err(e) => Err(e),
    }
}

/// Issues a pairing token: 32 random bytes in hexadecimal, valid for five
/// minutes from now. Whatever the bytes and the clock gave, the store gains
/// one 64-character token expiring at least five minutes after the epoch,
/// and the result is as `emitir_emparejamiento` states for that token.
pub fn generar_emparejamiento(tokens: &mut PairingStore, ip: &str, port: u16) -> (r: Result<PairingQr, String>)
    requires
        old(tokens).bien_formado(),
    ensures
        final(tokens).bien_formado(),
        exists|t: Seq<char>, exp: i64|
            #![trigger old(tokens)@.insert(t, exp)]
            t.len() == 64 && VIGENCIA_EMPAREJAMIENTO <= exp && final(tokens)@ == old(tokens)@.insert(t, exp)
            && (r is Ok <==> qr_svg(url_emparejamiento(ip@, port, t), LADO_QR) is Some) && (r matches Ok(q) ==> (
            q.token@ == t && q.url@ == url_emparejamiento(ip@, port, t) && Some(q.qr_svg@) == qr_svg(
                q.url@,
                LADO_QR,
            ) && q.expires_in == VIGENCIA_EMPAREJAMIENTO)),
{
    let bytes = bytes_aleatorios(32);
    proof {
        lema_largo_hex(bytes@);
    }
    let ahora = ahora_unix();
    let r = emitir_emparejamiento(tokens, &bytes, ahora, ip, port);
    assert(tokens@ == old(tokens)@.insert(hex(bytes@), (ahora + VIGENCIA_EMPAREJAMIENTO) as i64));
    r
}

proof fn lema_largo_hex(b: Seq<u8>)
    ensures
        hex(b).len() == 2 * b.len(),
    decreases b.len(),
{
    if b.len() > 0 {
        lema_largo_hex(b.drop_last());
    }
}

/// A token just issued can be redeemed until its expiry, and not after.
pub proof fn ley_canje_tras_emision(m: Map<Seq<char>, i64>, token: Seq<char>, expira: i64, ahora: i64)
    ensures
        canjeable(m.insert(token, expira), token, ahora) <==> ahora <= expira,
{
}

/// A token that was redeemed (and so removed) cannot be redeemed again.
pub proof fn ley_un_solo_uso(m: Map<Seq<char>, i64>, token: Seq<char>, ahora: i64)
    ensures
        !canjeable(m.remove(token), token, ahora),
{
}

/// A purge keeps every token still redeemable after `ahora`, drops every
/// token already expired, and never adds one.
pub proof fn ley_purga(m: Map<Seq<char>, i64>, token: Seq<char>, ahora: i64)
    ensures
        canjeable(m, token, ahora) && m[token] != ahora ==> canjeable(purgado(m, ahora), token, ahora),
        m.contains_key(token) && m[token] < ahora ==> !purgado(m, ahora).contains_key(token),
        purgado(m, ahora).contains_key(token) ==> m.contains_key(token) && purgado(m, ahora)[token]
            == m[token],
{
}

} // verus!
