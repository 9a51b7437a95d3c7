//! Printers: which one to use, the list the system reports (CUPS `lpstat`
//! or Windows `Get-Printer`), and printer names as UTF-16 for the Windows
//! spooler.

use vstd::prelude::*;
use crate::texto::{a_cadena, caracteres, es_espacio, es_espacio_exec, iguales, recortar, recortar_spec, vistas};

verus! {

/// A printer installed on the system, and whether it is the default one.
pub struct ImpresoraInfo {
    pub nombre: String,
    pub default: bool,
}

/// The pieces of a text between newlines, every piece kept.
pub open spec fn trozos(s: Seq<char>) -> Seq<Seq<char>>
    decreases s.len(),
{
    if s.len() == 0 {
        seq![Seq::empty()]
    } else {
        let t = trozos(s.drop_last());
        if s.last() == '\n' {
            t.push(Seq::empty())
        } else {
            t.update(t.len() - 1, t.last().push(s.last()))
        }
    }
}

/// The words of a text: maximal runs without whitespace (`split_whitespace`).
pub open spec fn palabras(s: Seq<char>) -> Seq<Seq<char>>
    decreases s.len(),
{
    if s.len() == 0 {
        Seq::empty()
    } else {
        let p = palabras(s.drop_last());
        let c = s.last();
        if es_espacio(c) {
            p
        } else if s.len() >= 2 && !es_espacio(s[s.len() - 2]) {
            p.update(p.len() - 1, p.last().push(c))
        } else {
            p.push(seq![c])
        }
    }
}

/// The printer a `lpstat -p` line names: `printer NAME ...`.
pub open spec fn nombre_lpstat(linea: Seq<char>) -> Option<Seq<char>> {
    let ps = palabras(linea);
    if ps.len() >= 2 && ps[0] == "printer"@ {
        Some(ps[1])
    } else {
        None
    }
}

pub open spec fn nombres_lpstat(lineas: Seq<Seq<char>>) -> Seq<Seq<char>>
    decreases lineas.len(),
{
    if lineas.len() == 0 {
        Seq::empty()
    } else {
        match nombre_lpstat(lineas.last()) {
            Some(n) => nombres_lpstat(lineas.drop_last()).push(n),
            None => nombres_lpstat(lineas.drop_last()),
        }
    }
}

/// The default printer in `lpstat -d`'s output: its last word.
pub open spec fn predeterminada_lpstat(salida: Option<Seq<char>>) -> Seq<char> {
    match salida {
        Some(s) => if palabras(s).len() > 0 {
            palabras(s).last()
        } else {
            Seq::empty()
        },
        None => Seq::empty(),
    }
}

/// The names in `Get-Printer`'s output: each line trimmed, empty ones left out.
pub open spec fn nombres_windows(lineas: Seq<Seq<char>>) -> Seq<Seq<char>>
    decreases lineas.len(),
{
    if lineas.len() == 0 {
        Seq::empty()
    } else if recortar_spec(lineas.last()).len() > 0 {
        nombres_windows(lineas.drop_last()).push(recortar_spec(lineas.last()))
    } else {
        nombres_windows(lineas.drop_last())
    }
}

/// The list of printers: each name, marked default when it equals `pred`.
pub open spec fn lista_impresoras(r: Seq<ImpresoraInfo>, nombres: Seq<Seq<char>>, pred: Seq<char>) -> bool {
    &&& r.len() == nombres.len()
    &&& forall|i: int| 0 <= i < r.len() ==> (#[trigger] r[i]).nombre@ == nombres[i] && r[i].default == (nombres[i] == pred)
}

proof fn lema_trozos_no_vacio(s: Seq<char>)
    ensures
        trozos(s).len() >= 1,
    decreases s.len(),
{
    if s.len() > 0 {
        lema_trozos_no_vacio(s.drop_last());
    }
}

/// The pieces of a text between newlines.
pub fn trozos_exec(s: &str) -> (r: Vec<String>)
    ensures
        vistas(r@) == trozos(s@),
{
    let mut r: Vec<String> = Vec::new();
    let mut actual = String::new();
    for c in it: s.chars()
        invariant
            it.seq() == s@,
            vistas(r@).push(actual@) == trozos(s@.subrange(0, it.index() as int)),
    {
        let ghost pre = s@.subrange(0, it.index() as int);
        assert(s@.subrange(0, it.index() + 1).drop_last() =~= pre);
        proof {
            lema_trozos_no_vacio(pre);
        }
        if c == '\n' {
            let ghost antes = vistas(r@);
            r.push(actual);
            actual = String::new();
            assert(vistas(r@) =~= antes.push(old_actual_view(antes, trozos(pre))));
            assert(vistas(r@).push(actual@) =~= trozos(pre).push(Seq::empty()));
        } else {
            let ghost antes = vistas(r@);
            let ghost a0 = actual@;
            actual.push(c);
            assert(vistas(r@).push(actual@) =~= antes.push(a0).update(antes.len() as int, a0.push(c)));
        }
    }
    assert(s@.subrange(0, s@.len() as int) =~= s@);
    r.push(actual);
    r
}

/// The last piece named in `t`, written so the proof can refer to it.
spec fn old_actual_view(antes: Seq<Seq<char>>, t: Seq<Seq<char>>) -> Seq<char> {
    t[antes.len() as int]
}

/// The words of a text (`split_whitespace`).
pub fn palabras_exec(s: &str) -> (r: Vec<String>)
    ensures
        vistas(r@) == palabras(s@),
{
    let mut r: Vec<String> = Vec::new();
    let mut actual = String::new();
    let mut en_palabra = false;
    for c in it: s.chars()
        invariant
            it.seq() == s@,
            en_palabra == (it.index() > 0 && !es_espacio(s@[it.index() - 1])),
            palabras(s@.subrange(0, it.index() as int)) == (if en_palabra {
                vistas(r@).push(actual@)
            } else {
                vistas(r@)
            }),
    {
        let ghost pre = s@.subrange(0, it.index() as int);
        let ghost pos = s@.subrange(0, it.index() + 1);
        assert(pos.drop_last() =~= pre);
        assert(pos.last() == c);
        if es_espacio_exec(c) {
            if en_palabra {
                r.push(actual);
                actual = String::new();
            }
            en_palabra = false;
        } else if en_palabra {
            assert(pos[pos.len() - 2] == s@[it.index() - 1]);
            let ghost antes = vistas(r@);
            let ghost a0 = actual@;
            actual.push(c);
            assert(antes.push(a0).update(antes.len() as int, a0.push(c)) =~= antes.push(actual@));
        } else {
            proof {
                if it.index() > 0 {
                    assert(pos[pos.len() - 2] == s@[it.index() - 1]);
                }
            }
            actual = String::new();
            actual.push(c);
            assert(actual@ =~= seq![c]);
            en_palabra = true;
        }
    }
    assert(s@.subrange(0, s@.len() as int) =~= s@);
    if en_palabra {
        r.push(actual);
    }
    r
}

fn marcar(nombres: Vec<String>, pred: &str) -> (r: Vec<ImpresoraInfo>)
    ensures
        lista_impresoras(r@, vistas(nombres@), pred@),
{
    let mut r: Vec<ImpresoraInfo> = Vec::new();
    let mut i: usize = 0;
    while i < nombres.len()
        invariant
            i <= nombres.len(),
            r@.len() == i,
            forall|k: int| 0 <= k < i ==> (#[trigger] r@[k]).nombre@ == nombres@[k]@ && r@[k].default == (
            nombres@[k]@ == pred@),
        decreases nombres.len() - i,
    {
        let n = nombres[i].clone();
        let d = iguales(n.as_str(), pred);
        r.push(ImpresoraInfo { nombre: n, default: d });
        i = i + 1;
    }
    r
}

/// The printers that CUPS reports: `salida` is `lpstat -p`'s output and
/// `salida_default` that of `lpstat -d`, when it ran and was UTF-8.
pub fn impresoras_lpstat(salida: &str, salida_default: Option<&str>) -> (r: Vec<ImpresoraInfo>)
    ensures
        lista_impresoras(
            r@,
            nombres_lpstat(trozos(salida@)),
            predeterminada_lpstat(
                match salida_default {
                    Some(s) => Some(s@),
                    None => None,
                },
            ),
        ),
{
    let pred = match salida_default {
        Some(s) => {
            let ps = palabras_exec(s);
            if ps.len() > 0 {
                ps[ps.len() - 1].clone()
            } else {
                String::new()
            }
        },
        None => String::new(),
    };
    let lineas = trozos_exec(salida);
    let ghost ls = vistas(lineas@);
    let mut nombres: Vec<String> = Vec::new();
    let mut i: usize = 0;
    while i < lineas.len()
        invariant
            ls == vistas(lineas@),
            i <= lineas.len(),
            vistas(nombres@) == nombres_lpstat(ls.take(i as int)),
        decreases lineas.len() - i,
    {
        assert(ls.take(i + 1).drop_last() =~= ls.take(i as int));
        assert(ls.take(i + 1).last() == lineas@[i as int]@);
        let ps = palabras_exec(lineas[i].as_str());
        if ps.len() >= 2 && iguales(ps[0].as_str(), "printer") {
            let ghost antes = vistas(nombres@);
            nombres.push(ps[1].clone());
            assert(vistas(nombres@) =~= antes.push(ps@[1]@));
        }
        i = i + 1;
    }
    assert(ls.take(lineas.len() as int) =~= ls);
    marcar(nombres, pred.as_str())
}

/// The printers that Windows reports: `salida` is the list of names, one
/// per line, and `salida_default` the default printer's name, when known.
pub fn impresoras_windows(salida: &str, salida_default: Option<&str>) -> (r: Vec<ImpresoraInfo>)
    ensures
        lista_impresoras(
            r@,
            nombres_windows(trozos(salida@)),
            match salida_default {
                Some(s) => recortar_spec(s@),
                None => Seq::empty(),
            },
        ),
{
    let pred = match salida_default {
        Some(s) => recortar(s),
        None => String::new(),
    };
    let lineas = trozos_exec(salida);
    let ghost ls = vistas(lineas@);
    let mut nombres: Vec<String> = Vec::new();
    let mut i: usize = 0;
    while i < lineas.len()
        invariant
            ls == vistas(lineas@),
            i <= lineas.len(),
            vistas(nombres@) == nombres_windows(ls.take(i as int)),
        decreases lineas.len() - i,
    {
        assert(ls.take(i + 1).drop_last() =~= ls.take(i as int));
        assert(ls.take(i + 1).last() == lineas@[i as int]@);
        let t = recortar(lineas[i].as_str());
        if t.unicode_len() > 0 {
            let ghost antes = vistas(nombres@);
            nombres.push(t);
            assert(vistas(nombres@) =~= antes.push(recortar_spec(lineas@[i as int]@)));
        }
        i = i + 1;
    }
    assert(ls.take(lineas.len() as int) =~= ls);
    marcar(nombres, pred.as_str())
}

/// The printer to use, trimmed; refused when blank.
pub fn validar_impresora(impresora: &str) -> (r: Result<String, String>)
    ensures
        recortar_spec(impresora@).len() == 0 ==> (r matches Err(e) && e@ == "Debes especificar una impresora"@),
        recortar_spec(impresora@).len() > 0 ==> (r matches Ok(n) && n@ == recortar_spec(impresora@)),
{
    let t = recortar(impresora);
    if t.unicode_len() == 0 {
        Err(a_cadena("Debes especificar una impresora"))
    } else {
        Ok(t)
    }
}

/// The UTF-16 code units of one character.
pub open spec fn utf16_char(c: char) -> Seq<u16> {
    let v = c as u32 as int;
    if v < 0x10000 {
        seq![v as u16]
    } else {
        seq![(0xD800 + (v - 0x10000) / 0x400) as u16, (0xDC00 + (v - 0x10000) % 0x400) as u16]
    }
}

/// A text in UTF-16.
pub open spec fn utf16(s: Seq<char>) -> Seq<u16>
    decreases s.len(),
{
    if s.len() == 0 {
        Seq::empty()
    } else {
        utf16(s.drop_last()) + utf16_char(s.last())
    }
}

/// A text in UTF-16 with a terminating zero, as the Windows API takes it.
pub fn wide(s: &str) -> (r: Vec<u16>)
    ensures
        r@ == utf16(s@).push(0u16),
{
    let mut r: Vec<u16> = Vec::new();
    for c in it: s.chars()
        invariant
            it.seq() == s@,
            r@ == utf16(s@.subrange(0, it.index() as int)),
    {
        assert(s@.subrange(0, it.index() + 1).drop_last() =~= s@.subrange(0, it.index() as int));
        let v = c as u32;
        if v < 0x10000 {
            r.push(v as u16);
        } else {
            let w = v - 0x10000;
            r.push((0xD800 + w / 0x400) as u16);
            r.push((0xDC00 + w % 0x400) as u16);
        }
    }
    assert(s@.subrange(0, s@.len() as int) =~= s@);
    r.push(0u16);
    r
}

/// The script that makes a ticket print itself once the browser loads it.
pub open spec fn script_autoimpresion() -> Seq<char> {
    "<script>window.onload=function(){window.print();}</script>"@
}

/// `p` occurs in `s` starting at `i`.
pub open spec fn aparece_en(s: Seq<char>, p: Seq<char>, i: int) -> bool {
    0 <= i && i + p.len() <= s.len() && s.subrange(i, i + p.len()) == p
}

/// `s` with every occurrence of the non-empty `p`, from left to right and
/// without overlaps, replaced by `r` (`str::replace`).
pub open spec fn reemplazar(s: Seq<char>, p: Seq<char>, r: Seq<char>) -> Seq<char>
    decreases s.len(),
{
    if p.len() == 0 || s.len() == 0 {
        s
    } else if aparece_en(s, p, 0) {
        r + reemplazar(s.subrange(p.len() as int, s.len() as int), p, r)
    } else {
        seq![s[0]] + reemplazar(s.drop_first(), p, r)
    }
}

/// The HTML sent to the browser to print: the script goes just before each
/// `</body>`, or at the end when there is none.
pub open spec fn con_autoimpresion_spec(html: Seq<char>) -> Seq<char> {
    if exists|i: int| aparece_en(html, "</body>"@, i) {
        reemplazar(html, "</body>"@, script_autoimpresion() + "</body>"@)
    } else {
        html + script_autoimpresion()
    }
}

pub(crate) fn aparece_exec(v: &Vec<char>, p: &Vec<char>, i: usize) -> (r: bool)
    requires
        i <= v@.len(),
    ensures
        r == aparece_en(v@, p@, i as int),
{
    if p.len() > v.len() - i {
        return false;
    }
    let n = v.len();
    let mut k: usize = 0;
    while k < p.len()
        invariant
            n == v@.len(),
            i + p@.len() <= v@.len(),
            k <= p@.len(),
            forall|j: int| 0 <= j < k ==> v@[i + j] == p@[j],
        decreases p.len() - k,
    {
        assert(i + k < n);
        if v[i + k] != p[k] {
            assert(v@.subrange(i as int, i + p@.len())[k as int] != p@[k as int]);
            return false;
        }
        k = k + 1;
    }
    assert(v@.subrange(i as int, i + p@.len()) =~= p@);
    true
}

fn contiene_exec(v: &Vec<char>, p: &Vec<char>) -> (r: bool)
    ensures
        r == exists|i: int| aparece_en(v@, p@, i),
{
    if p.len() == 0 {
        assert(v@.subrange(0, 0) =~= p@);
        assert(aparece_en(v@, p@, 0));
        return true;
    }
    let mut i: usize = 0;
    while i < v.len()
        invariant
            p@.len() > 0,
            i <= v@.len(),
            forall|j: int| 0 <= j < i ==> !aparece_en(v@, p@, j),
        decreases v.len() - i,
    {
        if aparece_exec(v, p, i) {
            return true;
        }
        i = i + 1;
    }
    assert forall|j: int| !aparece_en(v@, p@, j) by {
        if 0 <= j && j + p@.len() <= v@.len() {
            assert(j < i);
        }
    }
    false
}

/// Makes a ticket's HTML print itself when opened.
pub fn con_autoimpresion(html: &str) -> (r: String)
    ensures
        r@ == con_autoimpresion_spec(html@),
{
    let v = caracteres(html);
    let p = caracteres("</body>");
    proof {
        reveal_strlit("</body>");
        reveal_strlit("<script>window.onload=function(){window.print();}</script></body>");
        reveal_strlit("<script>window.onload=function(){window.print();}</script>");
    }
    let ghost rep = script_autoimpresion() + p@;
    assert(rep =~= "<script>window.onload=function(){window.print();}</script></body>"@);
    if !contiene_exec(&v, &p) {
        let mut s = a_cadena(html);
        s.append("<script>window.onload=function(){window.print();}</script>");
        return s;
    }
    let mut r = String::new();
    let mut i: usize = 0;
    assert(v@.subrange(0, v@.len() as int) =~= v@);
    while i < v.len()
        invariant
            v@ == html@,
            p@ == "</body>"@,
            p@.len() == 7,
            rep == script_autoimpresion() + p@,
            rep == "<script>window.onload=function(){window.print();}</script></body>"@,
            i <= v@.len(),
            r@ + reemplazar(v@.subrange(i as int, v@.len() as int), p@, rep) == reemplazar(html@, p@, rep),
        decreases v.len() - i,
    {
        let ghost resto = v@.subrange(i as int, v@.len() as int);
        let ghost antes = r@;
        if aparece_exec(&v, &p, i) {
            assert(aparece_en(resto, p@, 0)) by {
                assert(resto.subrange(0, 7) =~= v@.subrange(i as int, i + 7));
            }
            assert(resto.subrange(7, resto.len() as int) =~= v@.subrange(i + 7, v@.len() as int));
            r.append("<script>window.onload=function(){window.print();}</script></body>");
            assert(r@ + reemplazar(v@.subrange(i + 7, v@.len() as int), p@, rep) =~= antes + reemplazar(resto, p@, rep));
            i = i + 7;
        } else {
            assert(!aparece_en(resto, p@, 0)) by {
                if aparece_en(resto, p@, 0) {
                    assert(resto.subrange(0, 7) =~= v@.subrange(i as int, i + 7));
                }
            }
            assert(resto.drop_first() =~= v@.subrange(i + 1, v@.len() as int));
            assert(resto[0] == v@[i as int]);
            r.push(v[i]);
            assert(r@ + reemplazar(v@.subrange(i + 1, v@.len() as int), p@, rep) =~= antes + reemplazar(resto, p@, rep));
            i = i + 1;
        }
    }
    assert(v@.subrange(i as int, v@.len() as int) =~= Seq::<char>::empty());
    assert(r@ + Seq::<char>::empty() =~= r@);
    r
}

} // verus!
