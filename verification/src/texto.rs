//! Text handling shared by the whole point of sale: search normalisation,
//! Unicode whitespace trimming, prefixes, truncation and small escapes.

use vstd::prelude::*;
use vstd::string::*;

verus! {

/// `String::push` appends one character.
pub assume_specification[ String::push ](s: &mut String, ch: char)
    ensures
        final(s)@ == old(s)@.push(ch),
;

/// What `str::to_lowercase` returns: the Unicode lowercase mapping of a
/// string, which depends on the characters alone.
pub uninterp spec fn minusculas(s: Seq<char>) -> Seq<char>;

/// The characters whose lowercase is stated: ASCII, and the Spanish
/// accented letters and `ñ`, `ü` in both cases.
pub open spec fn letra_conocida(c: char) -> bool {
    ||| (c as int) < 128
    ||| c == 'á' || c == 'é' || c == 'í' || c == 'ó' || c == 'ú' || c == 'ñ' || c == 'ü'
    ||| c == 'Á' || c == 'É' || c == 'Í' || c == 'Ó' || c == 'Ú' || c == 'Ñ' || c == 'Ü'
}

/// The Unicode lowercase of a `letra_conocida`: `A`..`Z` become `a`..`z`,
/// the accented capitals their small letters, and the rest stays.
pub open spec fn minuscula_de(c: char) -> char {
    if 'A' <= c && c <= 'Z' {
        ((c as int) + 32) as char
    } else if c == 'Á' {
        'á'
    } else if c == 'É' {
        'é'
    } else if c == 'Í' {
        'í'
    } else if c == 'Ó' {
        'ó'
    } else if c == 'Ú' {
        'ú'
    } else if c == 'Ñ' {
        'ñ'
    } else if c == 'Ü' {
        'ü'
    } else {
        c
    }
}

/// `str::to_lowercase` is taken as the named mapping `minusculas`. Its
/// documentation defines lowercase by Unicode's Lowercase property; for a
/// text made only of `letra_conocida` characters Unicode maps each one by
/// itself (`A`..`Z` to `a`..`z`, `Á` to `á` and so on, the rest unchanged),
/// and that much is stated. Nothing more is claimed of the Unicode tables.
pub assume_specification[ str::to_lowercase ](s: &str) -> (r: String)
    ensures
        r@ == minusculas(s@),
        (forall|i: int| 0 <= i < s@.len() ==> letra_conocida(#[trigger] s@[i])) ==> r@ == s@.map_values(
            |c: char| minuscula_de(c),
        ),
;

/// What `str::to_uppercase` returns: the Unicode uppercase mapping of a
/// string, which depends on the characters alone.
pub uninterp spec fn mayusculas(s: Seq<char>) -> Seq<char>;

/// `str::to_uppercase` is taken as the named mapping `mayusculas`; nothing
/// more is claimed of the Unicode tables it uses.
pub assume_specification[ str::to_uppercase ](s: &str) -> (r: String)
    ensures
        r@ == mayusculas(s@),
;

/// The length in bytes of a text, as `str::len` reports it.
pub open spec fn largo_bytes(s: Seq<char>) -> usize {
    vstd::utf8::encode_utf8(s).len() as usize
}

/// The accents that the search text folds away.
pub open spec fn sin_acento(c: char) -> char {
    if c == 'á' {
        'a'
    } else if c == 'é' {
        'e'
    } else if c == 'í' {
        'i'
    } else if c == 'ó' {
        'o'
    } else if c == 'ú' {
        'u'
    } else if c == 'ñ' {
        'n'
    } else if c == 'ü' {
        'u'
    } else {
        c
    }
}

pub open spec fn quitar_acentos_spec(s: Seq<char>) -> Seq<char> {
    s.map_values(|c: char| sin_acento(c))
}

/// The normalised search form of a text: lowercase, then accents folded.
pub open spec fn normalizar_spec(s: Seq<char>) -> Seq<char> {
    quitar_acentos_spec(minusculas(s))
}

/// Unicode `White_Space`, the set that `str::trim` removes.
pub open spec fn es_espacio(c: char) -> bool {
    ||| ('\u{0009}' <= c && c <= '\u{000D}')
    ||| c == ' '
    ||| c == '\u{0085}'
    ||| c == '\u{00A0}'
    ||| c == '\u{1680}'
    ||| ('\u{2000}' <= c && c <= '\u{200A}')
    ||| c == '\u{2028}'
    ||| c == '\u{2029}'
    ||| c == '\u{202F}'
    ||| c == '\u{205F}'
    ||| c == '\u{3000}'
}

pub open spec fn recortar_inicio(s: Seq<char>) -> Seq<char>
    decreases s.len(),
{
    if s.len() > 0 && es_espacio(s[0]) {
        recortar_inicio(s.drop_first())
    } else {
        s
    }
}

pub open spec fn recortar_fin(s: Seq<char>) -> Seq<char>
    decreases s.len(),
{
    if s.len() > 0 && es_espacio(s.last()) {
        recortar_fin(s.drop_last())
    } else {
        s
    }
}

/// What `str::trim` leaves: the text without leading or trailing whitespace.
pub open spec fn recortar_spec(s: Seq<char>) -> Seq<char> {
    recortar_fin(recortar_inicio(s))
}

/// `p` is a prefix of `s`.
pub open spec fn empieza_con(s: Seq<char>, p: Seq<char>) -> bool {
    p.len() <= s.len() && s.subrange(0, p.len() as int) == p
}

/// What `trim_end_matches(c)` leaves.
pub open spec fn sin_final(s: Seq<char>, c: char) -> Seq<char>
    decreases s.len(),
{
    if s.len() > 0 && s.last() == c {
        sin_final(s.drop_last(), c)
    } else {
        s
    }
}

/// Each double quote preceded by a backslash.
pub open spec fn escapar_comillas_spec(s: Seq<char>) -> Seq<char>
    decreases s.len(),
{
    if s.len() == 0 {
        s
    } else if s.last() == '"' {
        escapar_comillas_spec(s.drop_last()) + seq!['\\', '"']
    } else {
        escapar_comillas_spec(s.drop_last()).push(s.last())
    }
}

/// Each single quote doubled, as an SQL string literal needs.
pub open spec fn escapar_apostrofes_spec(s: Seq<char>) -> Seq<char>
    decreases s.len(),
{
    if s.len() == 0 {
        s
    } else if s.last() == '\'' {
        escapar_apostrofes_spec(s.drop_last()) + seq!['\'', '\'']
    } else {
        escapar_apostrofes_spec(s.drop_last()).push(s.last())
    }
}

/// A product name cut to `max` characters, ending in an ellipsis when cut.
pub open spec fn truncar_spec(s: Seq<char>, max: nat) -> Seq<char> {
    if s.len() <= max {
        s
    } else {
        s.take(if max >= 1 { max - 1 } else { 0 }).push('…')
    }
}

/// The characters of a string, in order.
pub fn caracteres(s: &str) -> (v: Vec<char>)
    ensures
        v@ == s@,
{
    let mut v: Vec<char> = Vec::new();
    for c in it: s.chars()
        invariant
            it.seq() == s@,
            v@ == s@.subrange(0, it.index() as int),
    {
        v.push(c);
    }
    v
}

/// A string holding the characters `v[desde..hasta]`.
pub fn cadena_de(v: &Vec<char>, desde: usize, hasta: usize) -> (r: String)
    requires
        desde <= hasta <= v.len(),
    ensures
        r@ == v@.subrange(desde as int, hasta as int),
{
    let mut r = String::new();
    let mut i = desde;
    while i < hasta
        invariant
            desde <= i <= hasta <= v.len(),
            r@ == v@.subrange(desde as int, i as int),
        decreases hasta - i,
    {
        r.push(v[i]);
        assert(v@.subrange(desde as int, i + 1) == v@.subrange(desde as int, i as int).push(v@[i as int]));
        i = i + 1;
    }
    r
}

/// A copy of a string slice.
pub fn a_cadena(s: &str) -> (r: String)
    ensures
        r@ == s@,
{
    String::from_str(s)
}

/// The two strings hold the same characters.
pub fn iguales(a: &str, b: &str) -> (r: bool)
    ensures
        r == (a@ == b@),
{
    let x = String::from_str(a);
    let y = String::from_str(b);
    x == y
}

/// `a` followed by `b`.
pub fn unir(a: &str, b: &str) -> (r: String)
    ensures
        r@ == a@ + b@,
{
    String::from_str(a).concat(b)
}

/// Whether `c` is Unicode whitespace.
pub fn es_espacio_exec(c: char) -> (r: bool)
    ensures
        r == es_espacio(c),
{
    ('\u{0009}' <= c && c <= '\u{000D}') || c == ' ' || c == '\u{0085}' || c == '\u{00A0}'
        || c == '\u{1680}' || ('\u{2000}' <= c && c <= '\u{200A}') || c == '\u{2028}'
        || c == '\u{2029}' || c == '\u{202F}' || c == '\u{205F}' || c == '\u{3000}'
}

/// The text without leading or trailing Unicode whitespace (`str::trim`).
pub fn recortar(s: &str) -> (r: String)
    ensures
        r@ == recortar_spec(s@),
{
    let v = caracteres(s);
    let n = v.len();
    let mut i: usize = 0;
    assert(s@.subrange(0, n as int) =~= s@);
    while i < n && es_espacio_exec(v[i])
        invariant
            v@ == s@,
            n == v.len(),
            i <= n,
            recortar_inicio(s@) == recortar_inicio(s@.subrange(i as int, n as int)),
        decreases n - i,
    {
        assert(s@.subrange(i as int, n as int).drop_first() == s@.subrange(i + 1, n as int));
        i = i + 1;
    }
    assert(recortar_inicio(s@) == s@.subrange(i as int, n as int)) by {
        if i < n {
            assert(!es_espacio(s@.subrange(i as int, n as int)[0]));
        } else {
            assert(s@.subrange(i as int, n as int).len() == 0);
        }
    }
    let mut j: usize = n;
    while j > i && es_espacio_exec(v[j - 1])
        invariant
            v@ == s@,
            n == v.len(),
            i <= j <= n,
            recortar_spec(s@) == recortar_fin(s@.subrange(i as int, j as int)),
        decreases j - i,
    {
        assert(s@.subrange(i as int, j as int).drop_last() == s@.subrange(i as int, j - 1));
        j = j - 1;
    }
    assert(recortar_spec(s@) == s@.subrange(i as int, j as int)) by {
        if j > i {
            assert(!es_espacio(s@.subrange(i as int, j as int).last()));
        } else {
            assert(s@.subrange(i as int, j as int).len() == 0);
        }
    }
    cadena_de(&v, i, j)
}

/// The text is empty once trimmed (`s.trim().is_empty()`).
pub fn es_blanco(s: &str) -> (r: bool)
    ensures
        r == (recortar_spec(s@).len() == 0),
{
    let t = recortar(s);
    t.unicode_len() == 0
}

/// The text with its accents folded (`á é í ó ú ñ ü`).
pub fn quitar_acentos(s: &str) -> (r: String)
    ensures
        r@ == quitar_acentos_spec(s@),
{
    let mut r = String::new();
    for c in it: s.chars()
        invariant
            it.seq() == s@,
            r@ == quitar_acentos_spec(s@.subrange(0, it.index() as int)),
    {
        let d = if c == 'á' {
            'a'
        } else if c == 'é' {
            'e'
        } else if c == 'í' {
            'i'
        } else if c == 'ó' {
            'o'
        } else if c == 'ú' {
            'u'
        } else if c == 'ñ' {
            'n'
        } else if c == 'ü' {
            'u'
        } else {
            c
        };
        r.push(d);
        assert(quitar_acentos_spec(s@.subrange(0, it.index() + 1)) == quitar_acentos_spec(
            s@.subrange(0, it.index() as int),
        ).push(sin_acento(c)));
    }
    assert(s@.subrange(0, s@.len() as int) == s@);
    r
}

/// All characters of `s` are `letra_conocida`.
pub open spec fn solo_letras_conocidas(s: Seq<char>) -> bool {
    forall|i: int| 0 <= i < s.len() ==> letra_conocida(#[trigger] s[i])
}

/// The search form of one known character: lowercase, accent folded.
pub open spec fn normal_de(c: char) -> char {
    sin_acento(minuscula_de(c))
}

/// Search form of a text: lowercase with accents folded. For a text of
/// known characters it is that, character by character.
pub fn normalizar_texto(texto: &str) -> (r: String)
    ensures
        r@ == normalizar_spec(texto@),
        solo_letras_conocidas(texto@) ==> r@ == texto@.map_values(|c: char| normal_de(c)),
{
    let bajo = texto.to_lowercase();
    let r = quitar_acentos(bajo.as_str());
    proof {
        if solo_letras_conocidas(texto@) {
            assert(r@ =~= texto@.map_values(|c: char| normal_de(c)));
        }
    }
    r
}

proof fn lema_normal_de(c: char)
    requires
        letra_conocida(c),
    ensures
        letra_conocida(normal_de(c)),
        normal_de(normal_de(c)) == normal_de(c),
{
}

/// Normalising twice is normalising once, for a text of ASCII and Spanish
/// letters: the search form that `normalizar_texto` states for such a text
/// is again such a text, and normalising it changes nothing.
pub proof fn ley_normalizar_idempotente(s: Seq<char>)
    requires
        solo_letras_conocidas(s),
    ensures
        solo_letras_conocidas(s.map_values(|c: char| normal_de(c))),
        s.map_values(|c: char| normal_de(c)).map_values(|c: char| normal_de(c)) == s.map_values(
            |c: char| normal_de(c),
        ),
{
    let n = s.map_values(|c: char| normal_de(c));
    assert forall|i: int| 0 <= i < n.len() implies letra_conocida(#[trigger] n[i]) by {
        lema_normal_de(s[i]);
    }
    let m = n.map_values(|c: char| normal_de(c));
    assert forall|i: int| 0 <= i < n.len() implies #[trigger] m[i] == n[i] by {
        lema_normal_de(s[i]);
    }
    assert(m =~= n);
}

/// Whether `s` starts with `p`.
pub fn empieza_con_exec(s: &str, p: &str) -> (r: bool)
    ensures
        r == empieza_con(s@, p@),
{
    let vs = caracteres(s);
    let vp = caracteres(p);
    if vp.len() > vs.len() {
        return false;
    }
    let mut i: usize = 0;
    while i < vp.len()
        invariant
            vs@ == s@,
            vp@ == p@,
            vp.len() <= vs.len(),
            i <= vp.len(),
            forall|k: int| 0 <= k < i ==> vs@[k] == vp@[k],
        decreases vp.len() - i,
    {
        if vs[i] != vp[i] {
            assert(s@.subrange(0, p@.len() as int)[i as int] != p@[i as int]);
            return false;
        }
        i = i + 1;
    }
    assert(s@.subrange(0, p@.len() as int) =~= p@);
    true
}

/// The rest of `s` after the prefix `p`, when `s` starts with it.
pub fn quitar_prefijo(s: &str, p: &str) -> (r: Option<String>)
    ensures
        r is Some <==> empieza_con(s@, p@),
        r matches Some(t) ==> t@ == s@.subrange(p@.len() as int, s@.len() as int),
{
    if empieza_con_exec(s, p) {
        let v = caracteres(s);
        let n = p.unicode_len();
        Some(cadena_de(&v, n, v.len()))
    } else {
        None
    }
}

/// The text without every trailing `c` (`trim_end_matches(c)`).
pub fn sin_final_exec(s: &str, c: char) -> (r: String)
    ensures
        r@ == sin_final(s@, c),
{
    let v = caracteres(s);
    let mut j = v.len();
    assert(s@.subrange(0, j as int) =~= s@);
    while j > 0 && v[j - 1] == c
        invariant
            v@ == s@,
            j <= v.len(),
            sin_final(s@, c) == sin_final(s@.subrange(0, j as int), c),
        decreases j,
    {
        assert(s@.subrange(0, j as int).drop_last() == s@.subrange(0, j - 1));
        j = j - 1;
    }
    assert(sin_final(s@, c) == s@.subrange(0, j as int)) by {
        if j > 0 {
            assert(s@.subrange(0, j as int).last() != c);
        }
    }
    cadena_de(&v, 0, j)
}

/// Every `"` preceded by a backslash (`replace('"', "\\\"")`).
pub fn escapar_comillas(s: &str) -> (r: String)
    ensures
        r@ == escapar_comillas_spec(s@),
{
    let mut r = String::new();
    for c in it: s.chars()
        invariant
            it.seq() == s@,
            r@ == escapar_comillas_spec(s@.subrange(0, it.index() as int)),
    {
        let ghost antes = s@.subrange(0, it.index() as int);
        assert(s@.subrange(0, it.index() + 1).drop_last() == antes);
        if c == '"' {
            r.push('\\');
            r.push('"');
        } else {
            r.push(c);
        }
    }
    assert(s@.subrange(0, s@.len() as int) == s@);
    r
}

/// Every `'` doubled (`replace('\'', "''")`).
pub fn escapar_apostrofes(s: &str) -> (r: String)
    ensures
        r@ == escapar_apostrofes_spec(s@),
{
    let mut r = String::new();
    for c in it: s.chars()
        invariant
            it.seq() == s@,
            r@ == escapar_apostrofes_spec(s@.subrange(0, it.index() as int)),
    {
        let ghost antes = s@.subrange(0, it.index() as int);
        assert(s@.subrange(0, it.index() + 1).drop_last() == antes);
        if c == '\'' {
            r.push('\'');
            r.push('\'');
        } else {
            r.push(c);
        }
    }
    assert(s@.subrange(0, s@.len() as int) == s@);
    r
}

/// Cuts a product name to `max` characters; a cut name ends in `…`.
pub fn truncar(s: &str, max: usize) -> (r: String)
    ensures
        r@ == truncar_spec(s@, max as nat),
{
    let v = caracteres(s);
    if v.len() <= max {
        a_cadena(s)
    } else {
        let corte = if max >= 1 { max - 1 } else { 0 };
        let mut r = cadena_de(&v, 0, corte);
        r.push('…');
        r
    }
}


/// The texts of a list of strings.
pub open spec fn vistas(v: Seq<String>) -> Seq<Seq<char>> {
    v.map_values(|s: String| s@)
}

/// The texts joined with `sep` between each two (`join(sep)`).
pub open spec fn unir_con(xs: Seq<Seq<char>>, sep: Seq<char>) -> Seq<char>
    decreases xs.len(),
{
    if xs.len() == 0 {
        Seq::empty()
    } else if xs.len() == 1 {
        xs[0]
    } else {
        unir_con(xs.drop_last(), sep) + sep + xs.last()
    }
}

/// The texts of `s` for which `p` holds, in order.
pub open spec fn filtrar(s: Seq<Seq<char>>, p: spec_fn(Seq<char>) -> bool) -> Seq<Seq<char>>
    decreases s.len(),
{
    if s.len() == 0 {
        s
    } else if p(s.last()) {
        filtrar(s.drop_last(), p).push(s.last())
    } else {
        filtrar(s.drop_last(), p)
    }
}

/// `list.join(sep)`.
pub fn unir_lista(list: &Vec<String>, sep: &str) -> (r: String)
    ensures
        r@ == unir_con(vistas(list@), sep@),
{
    let mut r = String::new();
    let ghost vs = vistas(list@);
    let mut i: usize = 0;
    while i < list.len()
        invariant
            vs == vistas(list@),
            i <= list.len(),
            r@ == unir_con(vs.take(i as int), sep@),
        decreases list.len() - i,
    {
        assert(vs.take(i + 1).drop_last() =~= vs.take(i as int));
        assert(vs.take(i + 1).last() == list@[i as int]@);
        if i != 0 {
            r.append(sep);
        } else {
            assert(vs.take(1) =~= seq![list@[0]@]);
        }
        r.append(list[i].as_str());
        i = i + 1;
    }
    assert(vs.take(list.len() as int) =~= vs);
    r
}

/// The pieces of `s` between occurrences of `sep` (`split(sep)`): always at
/// least one, empty pieces included.
pub open spec fn partes(s: Seq<char>, sep: char) -> Seq<Seq<char>>
    decreases s.len(),
{
    if s.len() == 0 {
        seq![Seq::empty()]
    } else {
        let previas = partes(s.drop_last(), sep);
        if s.last() == sep {
            previas.push(Seq::empty())
        } else {
            previas.update(previas.len() - 1, previas.last().push(s.last()))
        }
    }
}

proof fn lema_partes_no_vacias(s: Seq<char>, sep: char)
    ensures
        partes(s, sep).len() >= 1,
    decreases s.len(),
{
    if s.len() > 0 {
        lema_partes_no_vacias(s.drop_last(), sep);
    }
}

/// Splits `s` at each `sep`.
pub fn dividir(s: &str, sep: char) -> (r: Vec<String>)
    ensures
        vistas(r@) == partes(s@, sep),
{
    let mut r: Vec<String> = Vec::new();
    let mut actual = String::new();
    for c in it: s.chars()
        invariant
            it.seq() == s@,
            vistas(r@).push(actual@) == partes(s@.take(it.index() as int), sep),
    {
        let ghost i = it.index() as int;
        proof {
            assert(s@.take(i + 1).drop_last() =~= s@.take(i));
            assert(s@.take(i + 1).last() == c);
            lema_partes_no_vacias(s@.take(i), sep);
        }
        if c == sep {
            r.push(actual);
            actual = String::new();
            assert(vistas(r@).push(actual@) =~= partes(s@.take(i + 1), sep));
        } else {
            let ghost antes = actual@;
            actual.push(c);
            assert(vistas(r@).push(actual@) =~= partes(s@.take(i + 1), sep));
        }
    }
    assert(s@.take(s@.len() as int) =~= s@);
    r.push(actual);
    assert(vistas(r@) =~= partes(s@, sep));
    r
}

/// A carriage return at the end removed.
pub open spec fn sin_cr(s: Seq<char>) -> Seq<char> {
    if s.len() > 0 && s.last() == '\r' {
        s.drop_last()
    } else {
        s
    }
}

/// The lines of a text as `str::lines` gives them: split at `\n`, no line
/// after a final `\n`, and a `\r` before each `\n` removed.
pub open spec fn lineas_spec(s: Seq<char>) -> Seq<Seq<char>> {
    let p = partes(s, '\n');
    let n: int = if p.last().len() == 0 { p.len() - 1 } else { p.len() as int };
    Seq::new(n as nat, |i: int| if i < p.len() - 1 { sin_cr(p[i]) } else { p[i] })
}

/// The lines of a text.
pub fn lineas(s: &str) -> (r: Vec<String>)
    ensures
        vistas(r@) == lineas_spec(s@),
{
    let p = dividir(s, '\n');
    proof {
        lema_partes_no_vacias(s@, '\n');
    }
    let ghost ps = partes(s@, '\n');
    assert(p@.len() == ps.len());
    let ultimo_vacio = p[p.len() - 1].unicode_len() == 0;
    let n = if ultimo_vacio { p.len() - 1 } else { p.len() };
    let mut r: Vec<String> = Vec::new();
    let mut i: usize = 0;
    while i < n
        invariant
            vistas(p@) == ps,
            ps.len() >= 1,
            p@.len() == ps.len(),
            n <= p@.len(),
            n == (if ps.last().len() == 0 { ps.len() - 1 } else { ps.len() as int }),
            i <= n,
            r@.len() == i,
            forall|k: int| 0 <= k < i ==> (#[trigger] r@[k])@ == (if k < ps.len() - 1 { sin_cr(ps[k]) } else { ps[k] }),
        decreases n - i,
    {
        assert(p@[i as int]@ == ps[i as int]);
        if i + 1 < p.len() {
            let v = caracteres(p[i].as_str());
            let mut fin = v.len();
            if fin > 0 && v[fin - 1] == '\r' {
                fin = fin - 1;
            }
            let linea = cadena_de(&v, 0, fin);
            assert(linea@ =~= sin_cr(ps[i as int]));
            r.push(linea);
        } else {
            let linea = p[i].clone();
            r.push(linea);
        }
        i = i + 1;
    }
    assert(vistas(r@) =~= lineas_spec(s@));
    r
}

/// The text that an SQL literal with doubled apostrophes stands for: each
/// `''` read as one apostrophe.
pub open spec fn desescapar_apostrofes(s: Seq<char>) -> Seq<char>
    decreases s.len(),
{
    if s.len() >= 2 && s[0] == '\'' && s[1] == '\'' {
        seq!['\''] + desescapar_apostrofes(s.subrange(2, s.len() as int))
    } else if s.len() >= 1 {
        seq![s[0]] + desescapar_apostrofes(s.drop_first())
    } else {
        s
    }
}

proof fn lema_escapar_concat(a: Seq<char>, b: Seq<char>)
    ensures
        escapar_apostrofes_spec(a + b) == escapar_apostrofes_spec(a) + escapar_apostrofes_spec(b),
    decreases b.len(),
{
    if b.len() == 0 {
        assert(a + b =~= a);
        assert(escapar_apostrofes_spec(a) + escapar_apostrofes_spec(b) =~= escapar_apostrofes_spec(a));
    } else {
        lema_escapar_concat(a, b.drop_last());
        assert((a + b).drop_last() =~= a + b.drop_last());
        assert((a + b).last() == b.last());
        if b.last() == '\'' {
            assert(escapar_apostrofes_spec(a) + escapar_apostrofes_spec(b) =~= escapar_apostrofes_spec(a)
                + escapar_apostrofes_spec(b.drop_last()) + seq!['\'', '\'']);
        } else {
            assert(escapar_apostrofes_spec(a) + escapar_apostrofes_spec(b) =~= escapar_apostrofes_spec(a)
                + escapar_apostrofes_spec(b.drop_last()) + seq![b.last()]);
        }
    }
}

/// Doubling apostrophes loses nothing: reading the literal back gives the
/// original text, so no value can close the quote it is written in.
pub proof fn ley_escape_reversible(s: Seq<char>)
    ensures
        desescapar_apostrofes(escapar_apostrofes_spec(s)) == s,
    decreases s.len(),
{
    if s.len() > 0 {
        let c = s[0];
        let resto = s.drop_first();
        ley_escape_reversible(resto);
        assert(s =~= seq![c] + resto);
        lema_escapar_concat(seq![c], resto);
        let e1 = escapar_apostrofes_spec(seq![c]);
        assert(seq![c].drop_last() =~= Seq::<char>::empty());
        assert(seq![c].last() == c);
        assert(escapar_apostrofes_spec(Seq::<char>::empty()) == Seq::<char>::empty());
        assert(escapar_apostrofes_spec(seq![c].drop_last()) == Seq::<char>::empty());
        if c == '\'' {
            assert(e1 =~= seq!['\'', '\'']);
            let t = e1 + escapar_apostrofes_spec(resto);
            assert(t.subrange(2, t.len() as int) =~= escapar_apostrofes_spec(resto));
            assert(desescapar_apostrofes(t) =~= seq!['\''] + resto);
        } else {
            assert(e1 =~= seq![c]);
            let t = e1 + escapar_apostrofes_spec(resto);
            assert(t.drop_first() =~= escapar_apostrofes_spec(resto));
            assert(desescapar_apostrofes(t) =~= seq![c] + resto);
        }
    }
}

} // verus!
