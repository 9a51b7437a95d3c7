//! The web point of sale's cash drawer: whether it shares the desktop's
//! drawer ("espejo") or keeps its own ("individual"), and the rules for
//! opening the day, cash movements and closings. Sums of money stay with
//! the caller, which hands over the comparisons it made on them.

use vstd::prelude::*;
use vstd::utf8::{encode_utf8, is_char_boundary};
use crate::texto::{a_cadena, iguales, es_blanco, largo_bytes, recortar, recortar_spec, unir};
use crate::externos::bcrypt_acepta;
use crate::autenticacion::resolver_dueno_por_pin;

verus! {

/// How a browser's cash drawer relates to the desktop's.
pub enum ModoCaja {
    /// The browser is another window on the desktop's drawer: nothing is
    /// filtered by origin.
    Espejo,
    /// The browser is a drawer of its own: only records made from the web
    /// count.
    Individual,
}

/// The mode a stored text means: only `espejo` shares the drawer.
pub open spec fn modo_spec(s: Seq<char>) -> ModoCaja {
    if s == "espejo"@ {
        ModoCaja::Espejo
    } else {
        ModoCaja::Individual
    }
}

/// The mode a stored text means.
pub fn modo_de(s: &str) -> (r: ModoCaja)
    ensures
        r == modo_spec(s@),
{
    if iguales(s, "espejo") {
        ModoCaja::Espejo
    } else {
        ModoCaja::Individual
    }
}

/// The device whose mode must be looked up: none (so `individual`) when
/// the session carries no device or a blank one.
pub fn dispositivo_a_consultar(device: Option<&str>) -> (r: Option<String>)
    ensures
        device is None ==> r is None,
        device matches Some(d) ==> (recortar_spec(d@).len() == 0 <==> r is None),
        device matches Some(d) ==> (r matches Some(x) ==> x@ == d@),
{
    match device {
        None => None,
        Some(d) => {
            if es_blanco(d) {
                None
            } else {
                Some(a_cadena(d))
            }
        },
    }
}

/// The mode stored for a device, `individual` when it has none.
pub fn modo_guardado(fila: Option<String>) -> (r: String)
    ensures
        fila matches Some(m) ==> r == m,
        fila is None ==> r@ == "individual"@,
{
    match fila {
        Some(m) => m,
        None => a_cadena("individual"),
    }
}

/// The SQL condition that keeps a query to the web's own records: nothing
/// in `espejo` mode, else the origin test on the column of `alias` (an
/// alias such as `m.`, or empty).
pub fn filtro_origen(modo: &str, alias: &str) -> (r: String)
    ensures
        modo_spec(modo@) == ModoCaja::Espejo ==> r@.len() == 0,
        modo_spec(modo@) == ModoCaja::Individual ==> r@ == "AND "@ + alias@ + "origen = 'web'"@,
{
    match modo_de(modo) {
        ModoCaja::Espejo => String::new(),
        ModoCaja::Individual => {
            let mut r = unir("AND ", alias);
            r.append("origen = 'web'");
            r
        },
    }
}

/// A mode change names one of the two modes, and the session must carry a
/// device.
pub fn validar_cambio_modo(modo: &str, hay_device: bool) -> (r: Result<(), String>)
    ensures
        !(modo@ == "espejo"@ || modo@ == "individual"@) ==> (r matches Err(e) && e@
            == "Modo inválido: usa 'espejo' o 'individual'"@),
        (modo@ == "espejo"@ || modo@ == "individual"@) && !hay_device ==> (r matches Err(e) && e@
            == "Esta sesión no tiene un dispositivo registrado. Cierra sesión y vuelve a entrar."@),
        (modo@ == "espejo"@ || modo@ == "individual"@) && hay_device ==> r is Ok,
{
    if !iguales(modo, "espejo") && !iguales(modo, "individual") {
        return Err(a_cadena("Modo inválido: usa 'espejo' o 'individual'"));
    }
    if !hay_device {
        return Err(a_cadena("Esta sesión no tiene un dispositivo registrado. Cierra sesión y vuelve a entrar."));
    }
    Ok(())
}

/// Whether the drawer's pending movements must be counted before a change:
/// only when the mode really changes.
pub fn requiere_revision(modo_actual: &str, modo_nuevo: &str) -> (r: bool)
    ensures
        r <==> modo_actual@ != modo_nuevo@,
{
    !iguales(modo_actual, modo_nuevo)
}

/// A real change of mode is refused while movements of the current mode
/// wait for a closing.
pub fn permitir_cambio_modo(modo_actual: &str, modo_nuevo: &str, pendientes: i64) -> (r: Result<(), String>)
    ensures
        (modo_actual@ != modo_nuevo@ && pendientes > 0) <==> (r matches Err(e) && e@
            == "No puedes cambiar el modo: hay movimientos de caja sin corte. Haz un corte parcial primero."@),
        !(modo_actual@ != modo_nuevo@ && pendientes > 0) ==> r is Ok,
{
    if requiere_revision(modo_actual, modo_nuevo) && pendientes > 0 {
        Err(a_cadena("No puedes cambiar el modo: hay movimientos de caja sin corte. Haz un corte parcial primero."))
    } else {
        Ok(())
    }
}

/// A cash movement needs a positive amount (the caller's comparison), a
/// concept that is not blank, and the type ENTRADA or RETIRO; the first
/// failing check names the error.
pub fn validar_movimiento(monto_positivo: bool, concepto: &str, tipo: &str) -> (r: Result<(), String>)
    ensures
        !monto_positivo ==> (r matches Err(e) && e@ == "El monto debe ser mayor a cero"@),
        monto_positivo && recortar_spec(concepto@).len() == 0 ==> (r matches Err(e) && e@
            == "El concepto es obligatorio"@),
        monto_positivo && recortar_spec(concepto@).len() > 0 && !(tipo@ == "ENTRADA"@ || tipo@ == "RETIRO"@)
            ==> (r matches Err(e) && e@ == "Tipo inválido (debe ser ENTRADA o RETIRO)"@),
        r is Ok <==> monto_positivo && recortar_spec(concepto@).len() > 0 && (tipo@ == "ENTRADA"@ || tipo@
            == "RETIRO"@),
{
    if !monto_positivo {
        return Err(a_cadena("El monto debe ser mayor a cero"));
    }
    if es_blanco(concepto) {
        return Err(a_cadena("El concepto es obligatorio"));
    }
    if !iguales(tipo, "ENTRADA") && !iguales(tipo, "RETIRO") {
        return Err(a_cadena("Tipo inválido (debe ser ENTRADA o RETIRO)"));
    }
    Ok(())
}

/// The owner authorising a cash movement. A withdrawal over the limit
/// (`excede_limite`, the caller's comparison with 500) by someone who is
/// not an administrator needs an owner's PIN, trimmed, that some owner's
/// hash accepts, and is authorised by the first such owner in row order; over the limit an
/// administrator authorises it themselves; otherwise the movement keeps
/// the authoriser it came with.
pub fn autorizar_movimiento(
    tipo: &str,
    excede_limite: bool,
    es_admin: bool,
    usuario_id: i64,
    autorizado_por: Option<i64>,
    pin: Option<&str>,
    duenos: &Vec<(i64, String)>,
) -> (r: Result<Option<i64>, String>)
    ensures
        !(tipo@ == "RETIRO"@ && excede_limite) ==> r == Ok::<Option<i64>, String>(autorizado_por),
        tipo@ == "RETIRO"@ && excede_limite && es_admin ==> r == Ok::<Option<i64>, String>(Some(usuario_id)),
        tipo@ == "RETIRO"@ && excede_limite && !es_admin ==> ({
            let p = match pin {
                Some(x) => recortar_spec(x@),
                None => Seq::<char>::empty(),
            };
            &&& p.len() == 0 ==> (r matches Err(e) && e@ == "Retiros mayores a $500 requieren PIN del dueño"@)
            &&& p.len() > 0 ==> match r {
                Ok(Some(id)) => exists|i: int|
                    0 <= i < duenos@.len() && (#[trigger] duenos@[i]).0 == id && bcrypt_acepta(p, duenos@[i].1@)
                        && forall|j: int| 0 <= j < i ==> !bcrypt_acepta(p, (#[trigger] duenos@[j]).1@),
                Ok(None) => false,
                Err(e) => e@ == "PIN del dueño incorrecto"@ && forall|j: int|
                    0 <= j < duenos@.len() ==> !bcrypt_acepta(p, (#[trigger] duenos@[j]).1@),
            }
        }),
{
    let retiro_grande = iguales(tipo, "RETIRO") && excede_limite;
    if retiro_grande && !es_admin {
        let p = match pin {
            Some(x) => recortar(x),
            None => String::new(),
        };
        if p.unicode_len() == 0 {
            return Err(a_cadena("Retiros mayores a $500 requieren PIN del dueño"));
        }
        match resolver_dueno_por_pin(p.as_str(), duenos) {
            Some(id) => Ok(Some(id)),
            None => Err(a_cadena("PIN del dueño incorrecto")),
        }
    } else if retiro_grande && es_admin {
        Ok(Some(usuario_id))
    } else {
        Ok(autorizado_por)
    }
}

/// The day of a timestamp: its first ten bytes (`YYYY-MM-DD`), or nothing
/// when it is shorter.
pub fn dia_de(fecha: &str) -> (r: String)
    requires
        largo_bytes(fecha@) >= 10 ==> is_char_boundary(encode_utf8(fecha@), 10),
    ensures
        largo_bytes(fecha@) >= 10 ==> encode_utf8(r@) == encode_utf8(fecha@).subrange(0, 10),
        largo_bytes(fecha@) < 10 ==> r@.len() == 0,
{
    if fecha.len() >= 10 {
        let (a, _b) = fecha.split_at(10);
        a_cadena(a)
    } else {
        String::new()
    }
}

/// Opening the day's drawer: the declared float may not be negative (the
/// caller's comparison), and there may be no opening yet today (`existentes`
/// counted with the mode's filter); the message says whether the drawer is
/// shared.
pub fn validar_apertura(fondo_negativo: bool, existentes: i64, espejo: bool) -> (r: Result<(), String>)
    ensures
        fondo_negativo ==> (r matches Err(e) && e@ == "El fondo no puede ser negativo"@),
        !fondo_negativo && existentes > 0 && espejo ==> (r matches Err(e) && e@
            == "Ya existe una apertura de caja para hoy (compartida con el POS desktop)"@),
        !fondo_negativo && existentes > 0 && !espejo ==> (r matches Err(e) && e@
            == "Ya existe una apertura de caja web para hoy"@),
        r is Ok <==> !fondo_negativo && existentes <= 0,
        r is Ok <==> apertura_permitida(fondo_negativo, existentes as int),
{
    if fondo_negativo {
        return Err(a_cadena("El fondo no puede ser negativo"));
    }
    if existentes > 0 {
        if espejo {
            return Err(a_cadena("Ya existe una apertura de caja para hoy (compartida con el POS desktop)"));
        } else {
            return Err(a_cadena("Ya existe una apertura de caja web para hoy"));
        }
    }
    Ok(())
}

/// Whether an opening is accepted: a float that is not negative, on a day
/// (and in a scope) without one yet.
pub open spec fn apertura_permitida(fondo_negativo: bool, existentes: int) -> bool {
    !fondo_negativo && existentes <= 0
}

/// How many openings a day's scope holds after attempts, one after another,
/// whose floats are negative or not as `negativos` says: each attempt that
/// `validar_apertura` accepts records one more.
pub open spec fn aperturas_tras(existentes: int, negativos: Seq<bool>) -> int
    decreases negativos.len(),
{
    if negativos.len() == 0 {
        existentes
    } else {
        let antes = aperturas_tras(existentes, negativos.drop_last());
        if apertura_permitida(negativos.last(), antes) {
            antes + 1
        } else {
            antes
        }
    }
}

/// However many openings are attempted in a row, a day's scope that had at
/// most one keeps at most one, and one that had none gains one exactly
/// when some attempt declared a float that is not negative.
pub proof fn ley_una_apertura_por_dia(existentes: int, negativos: Seq<bool>)
    requires
        0 <= existentes <= 1,
    ensures
        0 <= aperturas_tras(existentes, negativos) <= 1,
        existentes == 0 ==> (aperturas_tras(existentes, negativos) == 1 <==> exists|i: int|
            0 <= i < negativos.len() && !#[trigger] negativos[i]),
    decreases negativos.len(),
{
    if negativos.len() > 0 {
        let previos = negativos.drop_last();
        ley_una_apertura_por_dia(existentes, previos);
        if existentes == 0 {
            if aperturas_tras(existentes, previos) == 1 {
                let i = choose|i: int| 0 <= i < previos.len() && !#[trigger] previos[i];
                assert(negativos[i] == previos[i]);
            } else {
                assert forall|i: int| 0 <= i < negativos.len() - 1 implies #[trigger] negativos[i] by {
                    assert(negativos[i] == previos[i]);
                }
                if !negativos.last() {
                    assert(!negativos[negativos.len() - 1]);
                }
            }
        }
    }
}

/// The kinds of closing: a partial one or the day's.
pub fn validar_tipo_corte(tipo: &str) -> (r: Result<bool, String>)
    ensures
        tipo@ == "DIA"@ ==> r == Ok::<bool, String>(true),
        tipo@ == "PARCIAL"@ ==> r == Ok::<bool, String>(false),
        !(tipo@ == "DIA"@ || tipo@ == "PARCIAL"@) ==> (r matches Err(e) && e@ == "Tipo inválido (PARCIAL o DIA)"@),
{
    proof {
        reveal_strlit("DIA");
        reveal_strlit("PARCIAL");
        assert("DIA"@.len() != "PARCIAL"@.len());
    }
    if iguales(tipo, "PARCIAL") {
        Ok(false)
    } else if iguales(tipo, "DIA") {
        Ok(true)
    } else {
        Err(a_cadena("Tipo inválido (PARCIAL o DIA)"))
    }
}

/// Only one day's closing per date (`existentes` counted with the mode's
/// filter); partial closings are not limited.
pub fn validar_corte_unico(es_dia: bool, existentes: i64, espejo: bool) -> (r: Result<(), String>)
    ensures
        es_dia && existentes > 0 && espejo ==> (r matches Err(e) && e@
            == "Ya existe un corte del día para esta fecha (caja compartida con desktop)"@),
        es_dia && existentes > 0 && !espejo ==> (r matches Err(e) && e@
            == "Ya existe un corte del día (web) para esta fecha"@),
        r is Ok <==> !(es_dia && existentes > 0),
{
    if es_dia && existentes > 0 {
        if espejo {
            Err(a_cadena("Ya existe un corte del día para esta fecha (caja compartida con desktop)"))
        } else {
            Err(a_cadena("Ya existe un corte del día (web) para esta fecha"))
        }
    } else {
        Ok(())
    }
}

} // verus!
