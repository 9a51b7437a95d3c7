//! Decimal numbers as text: formatting with zero padding, and parsing in the
//! way `str::parse` does for integers.

use vstd::prelude::*;
use vstd::string::*;

verus! {

/// The character of a decimal digit.
pub open spec fn digito(d: int) -> char {
    if d == 0 {
        '0'
    } else if d == 1 {
        '1'
    } else if d == 2 {
        '2'
    } else if d == 3 {
        '3'
    } else if d == 4 {
        '4'
    } else if d == 5 {
        '5'
    } else if d == 6 {
        '6'
    } else if d == 7 {
        '7'
    } else if d == 8 {
        '8'
    } else {
        '9'
    }
}

/// The decimal digits of `n`, without leading zeros.
pub open spec fn digitos(n: nat) -> Seq<char>
    decreases n,
{
    if n < 10 {
        seq![digito(n as int)]
    } else {
        digitos(n / 10).push(digito((n % 10) as int))
    }
}

/// `s` padded on the left with zeros up to `ancho` characters.
pub open spec fn rellenar_ceros(s: Seq<char>, ancho: nat) -> Seq<char> {
    if s.len() < ancho {
        Seq::new((ancho - s.len()) as nat, |i: int| '0') + s
    } else {
        s
    }
}

/// What `format!("{:0ancho$}", n)` writes for an integer `n`.
pub open spec fn formato_entero(n: int, ancho: nat) -> Seq<char> {
    if n >= 0 {
        rellenar_ceros(digitos(n as nat), ancho)
    } else {
        seq!['-'] + rellenar_ceros(digitos((-n) as nat), if ancho >= 1 { (ancho - 1) as nat } else { 0 })
    }
}

/// What `n.to_string()` writes.
pub open spec fn texto_entero(n: int) -> Seq<char> {
    formato_entero(n, 0)
}

pub open spec fn es_digito(c: char) -> bool {
    '0' <= c && c <= '9'
}

pub open spec fn valor_digito(c: char) -> int {
    (c as int) - ('0' as int)
}

/// The value of a string of decimal digits.
pub open spec fn valor_digitos(s: Seq<char>) -> int
    decreases s.len(),
{
    if s.len() == 0 {
        0
    } else {
        valor_digitos(s.drop_last()) * 10 + valor_digito(s.last())
    }
}

pub open spec fn solo_digitos(s: Seq<char>) -> bool {
    s.len() > 0 && forall|i: int| 0 <= i < s.len() ==> es_digito(#[trigger] s[i])
}

/// What `str::parse` gives for an integer type whose values run from `min`
/// to `max`; `con_signo` tells whether the type is signed (accepts `-`).
pub open spec fn parse_entero_spec(s: Seq<char>, con_signo: bool, min: int, max: int) -> Option<int> {
    if s.len() > 0 && s[0] == '-' && con_signo {
        let resto = s.drop_first();
        if solo_digitos(resto) && -valor_digitos(resto) >= min {
            Some(-valor_digitos(resto))
        } else {
            None
        }
    } else if s.len() > 0 && s[0] == '+' {
        let resto = s.drop_first();
        if solo_digitos(resto) && valor_digitos(resto) <= max {
            Some(valor_digitos(resto))
        } else {
            None
        }
    } else if solo_digitos(s) && valor_digitos(s) <= max {
        Some(valor_digitos(s))
    } else {
        None
    }
}

pub open spec fn parse_i64_spec(s: Seq<char>) -> Option<int> {
    parse_entero_spec(s, true, i64::MIN as int, i64::MAX as int)
}

pub open spec fn parse_u16_spec(s: Seq<char>) -> Option<int> {
    parse_entero_spec(s, false, 0, u16::MAX as int)
}

proof fn lema_digitos_no_vacios(n: nat)
    ensures
        digitos(n).len() >= 1,
    decreases n,
{
    if n >= 10 {
        lema_digitos_no_vacios(n / 10);
    }
}

proof fn lema_valor_no_negativo(s: Seq<char>)
    requires
        forall|i: int| 0 <= i < s.len() ==> es_digito(#[trigger] s[i]),
    ensures
        valor_digitos(s) >= 0,
    decreases s.len(),
{
    if s.len() > 0 {
        assert forall|i: int| 0 <= i < s.drop_last().len() implies es_digito(#[trigger] s.drop_last()[i]) by {
            assert(s.drop_last()[i] == s[i]);
        }
        lema_valor_no_negativo(s.drop_last());
        assert(es_digito(s[s.len() - 1]));
    }
}

/// A prefix of a digit string never has a larger value than the whole.
proof fn lema_valor_prefijo(s: Seq<char>, k: int)
    requires
        0 <= k <= s.len(),
        forall|i: int| 0 <= i < s.len() ==> es_digito(#[trigger] s[i]),
    ensures
        valor_digitos(s.subrange(0, k)) <= valor_digitos(s),
    decreases s.len() - k,
{
    if k < s.len() {
        let t = s.subrange(0, k + 1);
        assert forall|i: int| 0 <= i < t.len() implies es_digito(#[trigger] t[i]) by {
            assert(t[i] == s[i]);
        }
        lema_valor_prefijo(s, k + 1);
        assert(t.drop_last() =~= s.subrange(0, k));
        assert(es_digito(t.last()));
        assert forall|i: int| 0 <= i < t.drop_last().len() implies es_digito(#[trigger] t.drop_last()[i]) by {
            assert(t.drop_last()[i] == s[i]);
        }
        lema_valor_no_negativo(t.drop_last());
    } else {
        assert(s.subrange(0, k) =~= s);
    }
}

proof fn lema_valor_digito(d: int)
    requires
        0 <= d < 10,
    ensures
        valor_digito(digito(d)) == d,
        es_digito(digito(d)),
{
}

/// The digits of `n` read back as a number give `n`.
proof fn lema_valor_de_digitos(n: nat)
    ensures
        valor_digitos(digitos(n)) == n,
    decreases n,
{
    if n < 10 {
        lema_valor_digito(n as int);
        let s = seq![digito(n as int)];
        assert(s.drop_last() =~= Seq::<char>::empty());
        assert(valor_digitos(s) == valor_digitos(s.drop_last()) * 10 + valor_digito(s.last()));
    } else {
        lema_valor_de_digitos(n / 10);
        lema_valor_digito((n % 10) as int);
        let s = digitos(n / 10).push(digito((n % 10) as int));
        assert(s.drop_last() =~= digitos(n / 10));
        assert(s.last() == digito((n % 10) as int));
        assert(valor_digitos(s) == valor_digitos(digitos(n / 10)) * 10 + valor_digito(s.last()));
        assert((n / 10) * 10 + n % 10 == n) by (nonlinear_arith);
    }
}

/// Leading zeros do not change the value of a digit string.
proof fn lema_ceros_a_la_izquierda(k: nat, s: Seq<char>)
    ensures
        valor_digitos(Seq::new(k, |i: int| '0') + s) == valor_digitos(s),
    decreases s.len(), k,
{
    let z = Seq::new(k, |i: int| '0');
    if s.len() == 0 {
        assert(z + s =~= z);
        if k > 0 {
            let z1 = Seq::new((k - 1) as nat, |i: int| '0');
            assert(z.drop_last() =~= z1 + s);
            lema_ceros_a_la_izquierda((k - 1) as nat, s);
            assert(valor_digito(z.last()) == 0);
        }
    } else {
        assert((z + s).drop_last() =~= z + s.drop_last());
        assert((z + s).last() == s.last());
        lema_ceros_a_la_izquierda(k, s.drop_last());
    }
}

/// The value of a number written with at least `ancho` digits.
proof fn lema_valor_formato(n: nat, ancho: nat)
    ensures
        valor_digitos(formato_entero(n as int, ancho)) == n,
{
    lema_valor_de_digitos(n);
    let d = digitos(n);
    if d.len() < ancho {
        lema_ceros_a_la_izquierda((ancho - d.len()) as nat, d);
    }
}

/// Folios never repeat: two different numbers, written zero-padded to the
/// same width, give different texts.
pub proof fn ley_folios_distintos(a: nat, b: nat, ancho: nat)
    requires
        a != b,
    ensures
        formato_entero(a as int, ancho) != formato_entero(b as int, ancho),
{
    lema_valor_formato(a, ancho);
    lema_valor_formato(b, ancho);
}

fn digito_exec(d: u64) -> (c: char)
    requires
        d < 10,
    ensures
        c == digito(d as int),
{
    if d == 0 {
        '0'
    } else if d == 1 {
        '1'
    } else if d == 2 {
        '2'
    } else if d == 3 {
        '3'
    } else if d == 4 {
        '4'
    } else if d == 5 {
        '5'
    } else if d == 6 {
        '6'
    } else if d == 7 {
        '7'
    } else if d == 8 {
        '8'
    } else {
        '9'
    }
}

fn agregar_digitos(r: &mut String, n: u64)
    ensures
        final(r)@ == old(r)@ + digitos(n as nat),
    decreases n,
{
    if n >= 10 {
        agregar_digitos(r, n / 10);
        r.push(digito_exec(n % 10));
    } else {
        r.push(digito_exec(n));
    }
}

/// The decimal digits of `n`.
pub fn digitos_exec(n: u64) -> (r: String)
    ensures
        r@ == digitos(n as nat),
{
    let mut r = String::new();
    agregar_digitos(&mut r, n);
    r
}

/// `format!("{:0ancho$}", n)` for an unsigned value.
pub fn formato_u64(n: u64, ancho: usize) -> (r: String)
    ensures
        r@ == rellenar_ceros(digitos(n as nat), ancho as nat),
{
    let d = digitos_exec(n);
    let largo = d.unicode_len();
    let mut r = String::new();
    if largo < ancho {
        let mut i: usize = 0;
        while i < ancho - largo
            invariant
                largo < ancho,
                i <= ancho - largo,
                r@ == Seq::new(i as nat, |k: int| '0'),
            decreases ancho - largo - i,
        {
            r.push('0');
            assert(r@ =~= Seq::new((i + 1) as nat, |k: int| '0'));
            i = i + 1;
        }
    }
    r.append(d.as_str());
    r
}

/// `format!("{:0ancho$}", n)` for a signed value.
pub fn formato_i64(n: i64, ancho: usize) -> (r: String)
    ensures
        r@ == formato_entero(n as int, ancho as nat),
{
    if n >= 0 {
        formato_u64(n as u64, ancho)
    } else {
        let m: u64 = if n == i64::MIN {
            9223372036854775808u64
        } else {
            (-n) as u64
        };
        let resto = formato_u64(m, if ancho >= 1 { ancho - 1 } else { 0 });
        let mut r = String::new();
        r.push('-');
        r.append(resto.as_str());
        assert(r@ =~= seq!['-'] + resto@);
        r
    }
}

/// `n.to_string()` for a signed value.
pub fn texto_i64(n: i64) -> (r: String)
    ensures
        r@ == texto_entero(n as int),
{
    formato_i64(n, 0)
}

fn valor_digito_exec(c: char) -> (r: u64)
    requires
        es_digito(c),
    ensures
        r == valor_digito(c),
{
    (c as u32 - '0' as u32) as u64
}

/// Value of `v[desde..]` as digits, or `None` when a character is not a
/// digit, the part is empty, or the value passes `tope`.
fn valor_acotado(v: &Vec<char>, desde: usize, tope: u64) -> (r: Option<u64>)
    requires
        desde <= v.len(),
        tope <= 9223372036854775808u64,
    ensures
        r is Some <==> (solo_digitos(v@.subrange(desde as int, v.len() as int)) && valor_digitos(
            v@.subrange(desde as int, v.len() as int),
        ) <= tope),
        r matches Some(x) ==> x == valor_digitos(v@.subrange(desde as int, v.len() as int)),
{
    let ghost s = v@.subrange(desde as int, v.len() as int);
    if desde == v.len() {
        return None;
    }
    let mut acc: u64 = 0;
    let mut i = desde;
    while i < v.len()
        invariant
            desde <= i <= v.len(),
            tope <= 9223372036854775808u64,
            s == v@.subrange(desde as int, v.len() as int),
            forall|k: int| desde <= k < i ==> es_digito(#[trigger] v@[k]),
            acc == valor_digitos(v@.subrange(desde as int, i as int)),
            acc <= tope,
        decreases v.len() - i,
    {
        let c = v[i];
        if !('0' <= c && c <= '9') {
            assert(!es_digito(s[i - desde]));
            return None;
        }
        let d = valor_digito_exec(c);
        assert(v@.subrange(desde as int, i + 1).drop_last() =~= v@.subrange(desde as int, i as int));
        if acc > tope / 10 || (acc == tope / 10 && d > tope % 10) {
            proof {
                assert(acc * 10 + d > tope) by (nonlinear_arith)
                    requires
                        acc > tope / 10 || (acc == tope / 10 && d > tope % 10),
                        0 <= d < 10,
                        tope >= 0,
                ;
                let t = v@.subrange(desde as int, i + 1);
                assert(valor_digitos(t) == acc * 10 + d);
                if forall|k: int| 0 <= k < s.len() ==> es_digito(#[trigger] s[k]) {
                    assert(s.subrange(0, i + 1 - desde) =~= t);
                    lema_valor_prefijo(s, i + 1 - desde);
                }
            }
            return None;
        }
        proof {
            assert(acc * 10 + d <= tope) by (nonlinear_arith)
                requires
                    !(acc > tope / 10 || (acc == tope / 10 && d > tope % 10)),
                    0 <= d < 10,
                    tope >= 0,
            ;
        }
        acc = acc * 10 + d;
        i = i + 1;
    }
    assert(v@.subrange(desde as int, i as int) =~= s);
    Some(acc)
}

/// `s.parse::<i64>()`, with `None` for every input that `parse` refuses.
pub fn parse_i64(s: &str) -> (r: Option<i64>)
    ensures
        r is Some <==> parse_i64_spec(s@) is Some,
        r matches Some(x) ==> parse_i64_spec(s@) == Some(x as int),
{
    let v = crate::texto::caracteres(s);
    if v.len() > 0 && v[0] == '-' {
        assert(v@.subrange(1, v@.len() as int) =~= s@.drop_first());
        match valor_acotado(&v, 1, 9223372036854775808u64) {
            Some(x) => {
                if x == 9223372036854775808u64 {
                    Some(i64::MIN)
                } else {
                    Some(-(x as i64))
                }
            },
            None => None,
        }
    } else if v.len() > 0 && v[0] == '+' {
        assert(v@.subrange(1, v@.len() as int) =~= s@.drop_first());
        match valor_acotado(&v, 1, 9223372036854775807u64) {
            Some(x) => Some(x as i64),
            None => None,
        }
    } else {
        assert(v@.subrange(0, v@.len() as int) =~= s@);
        match valor_acotado(&v, 0, 9223372036854775807u64) {
            Some(x) => Some(x as i64),
            None => None,
        }
    }
}

/// `s.parse::<u16>()`, with `None` for every input that `parse` refuses.
pub fn parse_u16(s: &str) -> (r: Option<u16>)
    ensures
        r is Some <==> parse_u16_spec(s@) is Some,
        r matches Some(x) ==> parse_u16_spec(s@) == Some(x as int),
{
    let v = crate::texto::caracteres(s);
    if v.len() > 0 && v[0] == '+' {
        assert(v@.subrange(1, v@.len() as int) =~= s@.drop_first());
        match valor_acotado(&v, 1, 65535u64) {
            Some(x) => Some(x as u16),
            None => None,
        }
    } else {
        assert(v@.subrange(0, v@.len() as int) =~= s@);
        if v.len() > 0 && v[0] == '-' {
            assert(!solo_digitos(s@)) by {
                assert(!es_digito(s@[0]));
            }
            return None;
        }
        match valor_acotado(&v, 0, 65535u64) {
            Some(x) => Some(x as u16),
            None => None,
        }
    }
}

} // verus!
