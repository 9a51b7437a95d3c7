//! ESC/POS bytes for an 80 mm thermal printer: control sequences, text
//! lines, the sale ticket, the test ticket, and raster images.

use vstd::prelude::*;
use vstd::utf8::encode_utf8;
use vstd::string::StrSliceExecFns;
use crate::texto::{truncar, truncar_spec, unir};
use crate::externos::{base64_estandar, decodificar_base64};

verus! {

pub const ESC: u8 = 0x1B;
pub const GS: u8 = 0x1D;

/// Width of a ticket line, in characters, for 80 mm paper.
pub const ANCHO_TICKET: usize = 48;

pub open spec fn utf8(s: Seq<char>) -> Seq<u8> {
    encode_utf8(s)
}

/// `n` copies of the byte `b`.
pub open spec fn repetir(b: u8, n: nat) -> Seq<u8> {
    Seq::new(n, |i: int| b)
}

/// `a - b`, or 0 when `b` is larger (`saturating_sub`).
pub open spec fn resta_sat(a: int, b: nat) -> nat {
    if a > b {
        (a - b) as nat
    } else {
        0
    }
}

/// A text written as one line (`writeln!`).
pub open spec fn linea(s: Seq<char>) -> Seq<u8> {
    utf8(s).push(10u8)
}

/// `prefijo` and `s` written as one line.
pub open spec fn linea_con(prefijo: Seq<char>, s: Seq<char>) -> Seq<u8> {
    utf8(prefijo) + utf8(s) + seq![10u8]
}

pub open spec fn seq_init() -> Seq<u8> {
    seq![ESC, 0x40u8]
}

pub open spec fn seq_centrado() -> Seq<u8> {
    seq![ESC, 0x61u8, 1u8]
}

pub open spec fn seq_izquierda() -> Seq<u8> {
    seq![ESC, 0x61u8, 0u8]
}

pub open spec fn seq_negrita_on() -> Seq<u8> {
    seq![ESC, 0x45u8, 1u8]
}

pub open spec fn seq_negrita_off() -> Seq<u8> {
    seq![ESC, 0x45u8, 0u8]
}

pub open spec fn seq_doble() -> Seq<u8> {
    seq![GS, 0x21u8, 0x11u8]
}

pub open spec fn seq_normal() -> Seq<u8> {
    seq![GS, 0x21u8, 0x00u8]
}

pub open spec fn seq_corte() -> Seq<u8> {
    seq![GS, 0x56u8, 0x42u8, 0u8]
}

/// A line of `ancho` dashes.
pub open spec fn divisoria(ancho: nat) -> Seq<u8> {
    repetir(0x2Du8, ancho).push(10u8)
}

/// A label and a value on one line, the value pushed to the right edge;
/// widths are counted in bytes.
pub open spec fn linea_kv_spec(etiqueta: Seq<char>, valor: Seq<char>, ancho: nat) -> Seq<u8> {
    utf8(etiqueta) + repetir(0x20u8, resta_sat(ancho as int, utf8(etiqueta).len() + utf8(valor).len()))
        + utf8(valor) + seq![10u8]
}

fn agregar(b: &mut Vec<u8>, bytes: &[u8])
    ensures
        final(b)@ == old(b)@ + bytes@,
{
    let mut i: usize = 0;
    let ghost inicio = b@;
    let ghost extra = bytes@;
    while i < bytes.len()
        invariant
            inicio == old(b)@,
            i <= bytes.len(),
            b@ == inicio + extra.take(i as int),
            bytes@ == extra,
        decreases bytes.len() - i,
    {
        b.push(bytes[i]);
        assert(extra.take(i + 1) =~= extra.take(i as int).push(extra[i as int]));
        i = i + 1;
    }
    assert(extra.take(bytes.len() as int) =~= extra);
}

/// Centre alignment (`ESC a 1`).
pub fn centrado(b: &mut Vec<u8>)
    ensures
        final(b)@ == old(b)@ + seq_centrado(),
{
    let bytes: [u8; 3] = [ESC, 0x61, 1];
    agregar(b, &bytes);
    assert(bytes@ =~= seq_centrado());
}

/// Left alignment (`ESC a 0`).
pub fn izquierda(b: &mut Vec<u8>)
    ensures
        final(b)@ == old(b)@ + seq_izquierda(),
{
    let bytes: [u8; 3] = [ESC, 0x61, 0];
    agregar(b, &bytes);
    assert(bytes@ =~= seq_izquierda());
}

/// Bold on (`ESC E 1`).
pub fn negrita_on(b: &mut Vec<u8>)
    ensures
        final(b)@ == old(b)@ + seq_negrita_on(),
{
    let bytes: [u8; 3] = [ESC, 0x45, 1];
    agregar(b, &bytes);
    assert(bytes@ =~= seq_negrita_on());
}

/// Bold off (`ESC E 0`).
pub fn negrita_off(b: &mut Vec<u8>)
    ensures
        final(b)@ == old(b)@ + seq_negrita_off(),
{
    let bytes: [u8; 3] = [ESC, 0x45, 0];
    agregar(b, &bytes);
    assert(bytes@ =~= seq_negrita_off());
}

/// Double width and height (`GS ! 0x11`).
pub fn doble_tamano(b: &mut Vec<u8>)
    ensures
        final(b)@ == old(b)@ + seq_doble(),
{
    let bytes: [u8; 3] = [GS, 0x21, 0x11];
    agregar(b, &bytes);
    assert(bytes@ =~= seq_doble());
}

/// Normal size (`GS ! 0`).
pub fn tamano_normal(b: &mut Vec<u8>)
    ensures
        final(b)@ == old(b)@ + seq_normal(),
{
    let bytes: [u8; 3] = [GS, 0x21, 0x00];
    agregar(b, &bytes);
    assert(bytes@ =~= seq_normal());
}

/// Partial paper cut (`GS V 0x42 0`).
pub fn cortar_papel(b: &mut Vec<u8>)
    ensures
        final(b)@ == old(b)@ + seq_corte(),
{
    let bytes: [u8; 4] = [GS, 0x56, 0x42, 0];
    agregar(b, &bytes);
    assert(bytes@ =~= seq_corte());
}

/// Printer reset (`ESC @`).
pub fn init(b: &mut Vec<u8>)
    ensures
        final(b)@ == old(b)@ + seq_init(),
{
    let bytes: [u8; 2] = [ESC, 0x40];
    agregar(b, &bytes);
    assert(bytes@ =~= seq_init());
}

/// The UTF-8 bytes of a text.
pub fn escribir(b: &mut Vec<u8>, s: &str)
    ensures
        final(b)@ == old(b)@ + utf8(s@),
{
    agregar(b, s.as_bytes());
}

/// A newline.
pub fn salto(b: &mut Vec<u8>)
    ensures
        final(b)@ == old(b)@ + seq![10u8],
{
    b.push(10u8);
}

/// A text as one line.
pub fn escribir_linea(b: &mut Vec<u8>, s: &str)
    ensures
        final(b)@ == old(b)@ + linea(s@),
{
    escribir(b, s);
    salto(b);
    assert(b@ =~= old(b)@ + linea(s@));
}

/// A prefix and a text as one line.
pub fn escribir_linea_con(b: &mut Vec<u8>, prefijo: &str, s: &str)
    ensures
        final(b)@ == old(b)@ + linea_con(prefijo@, s@),
{
    escribir(b, prefijo);
    escribir(b, s);
    salto(b);
    assert(b@ =~= old(b)@ + linea_con(prefijo@, s@));
}

/// `n` copies of the byte `x`.
pub fn repetir_byte(b: &mut Vec<u8>, x: u8, n: usize)
    ensures
        final(b)@ == old(b)@ + repetir(x, n as nat),
{
    let mut i: usize = 0;
    while i < n
        invariant
            i <= n,
            b@ == old(b)@ + repetir(x, i as nat),
        decreases n - i,
    {
        b.push(x);
        assert(repetir(x, (i + 1) as nat) =~= repetir(x, i as nat).push(x));
        i = i + 1;
    }
}

/// A line of `ancho` dashes.
pub fn linea_divisoria(b: &mut Vec<u8>, ancho: usize)
    ensures
        final(b)@ == old(b)@ + divisoria(ancho as nat),
{
    repetir_byte(b, 0x2D, ancho);
    salto(b);
    assert(b@ =~= old(b)@ + divisoria(ancho as nat));
}

/// A label and a value on one line, the value pushed to the right edge.
pub fn linea_kv(b: &mut Vec<u8>, etiqueta: &str, valor: &str, ancho: usize)
    requires
        utf8(etiqueta@).len() + utf8(valor@).len() <= usize::MAX,
    ensures
        final(b)@ == old(b)@ + linea_kv_spec(etiqueta@, valor@, ancho as nat),
{
    let usado = etiqueta.len() + valor.len();
    let espacio = if ancho > usado { ancho - usado } else { 0 };
    escribir(b, etiqueta);
    repetir_byte(b, 0x20, espacio);
    escribir(b, valor);
    salto(b);
    assert(b@ =~= old(b)@ + linea_kv_spec(etiqueta@, valor@, ancho as nat));
}

/// One item of a sale ticket, with its amounts already written as text.
pub struct ItemTicket {
    /// `"{cantidad} x "`.
    pub prefijo: String,
    pub nombre: String,
    /// The item's subtotal, `"${:.2}"`.
    pub precio: String,
    /// `"  @ ${:.2} c/u"`, present when more than one unit was sold.
    pub unitario: Option<String>,
}

/// What a sale ticket shows, with its amounts already written as text.
pub struct DatosTicketTermico {
    pub negocio_nombre: String,
    pub negocio_direccion: String,
    pub negocio_telefono: String,
    pub negocio_rfc: String,
    pub mensaje_pie: String,
    pub folio: String,
    pub fecha: String,
    pub usuario: String,
    pub cliente: Option<String>,
    pub items: Vec<ItemTicket>,
    /// `"${:.2}"`.
    pub subtotal: String,
    /// `"-${:.2}"`, present when there is a discount.
    pub descuento: Option<String>,
    /// `"+${:.2}"`, present when the total was rounded up.
    pub redondeo: Option<String>,
    /// `"${:.2}"`.
    pub total: String,
    pub metodo_pago: String,
}

/// How many characters of an item's name fit beside its prefix and price.
pub open spec fn max_nombre(it: ItemTicket) -> nat {
    resta_sat(ANCHO_TICKET as int, utf8(it.prefijo@).len() + utf8(it.precio@).len() + 1)
}

pub open spec fn nombre_item(it: ItemTicket) -> Seq<char> {
    truncar_spec(it.nombre@, max_nombre(it))
}

/// The lines of one item: quantity, name (cut to fit), padding and price;
/// then the unit price when present.
pub open spec fn item_spec(it: ItemTicket) -> Seq<u8> {
    utf8(it.prefijo@) + utf8(nombre_item(it)) + repetir(
        0x20u8,
        resta_sat(ANCHO_TICKET as int, utf8(it.prefijo@).len() + nombre_item(it).len() + utf8(it.precio@).len()),
    ) + utf8(it.precio@) + seq![10u8] + (match it.unitario {
        Some(u) => linea(u@),
        None => Seq::empty(),
    })
}

pub open spec fn items_spec(items: Seq<ItemTicket>) -> Seq<u8>
    decreases items.len(),
{
    if items.len() == 0 {
        Seq::empty()
    } else {
        items_spec(items.drop_last()) + item_spec(items.last())
    }
}

/// Lengths that let the ticket's width arithmetic fit in `usize`.
pub open spec fn item_acotado(it: ItemTicket) -> bool {
    &&& utf8(it.prefijo@).len() + utf8(it.precio@).len() + 1 <= usize::MAX
    &&& utf8(it.prefijo@).len() + it.nombre@.len() + utf8(it.precio@).len() <= usize::MAX
}

pub open spec fn ticket_acotado(d: DatosTicketTermico) -> bool {
    &&& forall|i: int| 0 <= i < d.items@.len() ==> item_acotado(#[trigger] d.items@[i])
    &&& utf8("Subtotal:"@).len() + utf8(d.subtotal@).len() <= usize::MAX
    &&& utf8("TOTAL:"@).len() + utf8(d.total@).len() <= usize::MAX
    &&& utf8("Pago:"@).len() + utf8(d.metodo_pago@).len() <= usize::MAX
    &&& (d.descuento matches Some(x) ==> utf8("Descuento:"@).len() + utf8(x@).len() <= usize::MAX)
    &&& (d.redondeo matches Some(x) ==> utf8("Redondeo:"@).len() + utf8(x@).len() <= usize::MAX)
}

pub open spec fn si_no_vacio(s: Seq<char>, bytes: Seq<u8>) -> Seq<u8> {
    if s.len() > 0 {
        bytes
    } else {
        Seq::empty()
    }
}

pub open spec fn encabezado_spec(d: DatosTicketTermico) -> Seq<u8> {
    seq_init() + seq_centrado() + seq_negrita_on() + seq_doble() + linea(d.negocio_nombre@) + seq_normal()
        + seq_negrita_off() + si_no_vacio(d.negocio_direccion@, linea(d.negocio_direccion@))
        + si_no_vacio(d.negocio_telefono@, linea_con("Tel: "@, d.negocio_telefono@))
        + si_no_vacio(d.negocio_rfc@, linea_con("RFC: "@, d.negocio_rfc@))
}

pub open spec fn datos_venta_spec(d: DatosTicketTermico) -> Seq<u8> {
    seq_izquierda() + divisoria(ANCHO_TICKET as nat) + seq_negrita_on() + linea_con("Folio: "@, d.folio@)
        + linea_con("Fecha: "@, d.fecha@) + linea_con("Cajero: "@, d.usuario@) + (match d.cliente {
        Some(c) => linea_con("Cliente: "@, c@),
        None => Seq::empty(),
    }) + divisoria(ANCHO_TICKET as nat)
}

pub open spec fn totales_spec(d: DatosTicketTermico) -> Seq<u8> {
    divisoria(ANCHO_TICKET as nat) + linea_kv_spec("Subtotal:"@, d.subtotal@, ANCHO_TICKET as nat) + (
    match d.descuento {
        Some(x) => linea_kv_spec("Descuento:"@, x@, ANCHO_TICKET as nat),
        None => Seq::empty(),
    }) + (match d.redondeo {
        Some(x) => linea_kv_spec("Redondeo:"@, x@, ANCHO_TICKET as nat),
        None => Seq::empty(),
    }) + seq_doble() + linea_kv_spec("TOTAL:"@, d.total@, (ANCHO_TICKET / 2) as nat) + seq_normal()
        + seq_negrita_on() + linea_kv_spec("Pago:"@, d.metodo_pago@, ANCHO_TICKET as nat)
}

pub open spec fn pie_spec(d: DatosTicketTermico) -> Seq<u8> {
    divisoria(ANCHO_TICKET as nat) + seq_centrado() + si_no_vacio(d.mensaje_pie@, linea(d.mensaje_pie@))
        + seq![10u8, 10u8, 10u8] + seq_corte()
}

/// The bytes of a sale ticket.
pub open spec fn ticket_spec(d: DatosTicketTermico) -> Seq<u8> {
    encabezado_spec(d) + datos_venta_spec(d) + items_spec(d.items@) + totales_spec(d) + pie_spec(d)
}

fn escribir_item(b: &mut Vec<u8>, it: &ItemTicket)
    requires
        item_acotado(*it),
    ensures
        final(b)@ == old(b)@ + item_spec(*it),
{
    let ancho = ANCHO_TICKET;
    let maximo = if ancho > it.prefijo.as_str().len() + it.precio.as_str().len() + 1 {
        ancho - (it.prefijo.as_str().len() + it.precio.as_str().len() + 1)
    } else {
        0
    };
    let nombre = truncar(it.nombre.as_str(), maximo);
    let largo_nombre = nombre.unicode_len();
    assert(nombre@.len() <= it.nombre@.len());
    let usado = it.prefijo.as_str().len() + largo_nombre + it.precio.as_str().len();
    let relleno = if ancho > usado { ancho - usado } else { 0 };
    escribir(b, it.prefijo.as_str());
    escribir(b, nombre.as_str());
    repetir_byte(b, 0x20, relleno);
    escribir(b, it.precio.as_str());
    salto(b);
    match &it.unitario {
        Some(u) => escribir_linea(b, u.as_str()),
        None => {},
    }
    assert(b@ =~= old(b)@ + item_spec(*it));
}

fn escribir_encabezado(b: &mut Vec<u8>, datos: &DatosTicketTermico)
    ensures
        final(b)@ == old(b)@ + encabezado_spec(*datos),
{
    init(b);
    centrado(b);
    negrita_on(b);
    doble_tamano(b);
    escribir_linea(b, datos.negocio_nombre.as_str());
    tamano_normal(b);
    negrita_off(b);
    let ghost base = b@;
    if datos.negocio_direccion.unicode_len() > 0 {
        escribir_linea(b, datos.negocio_direccion.as_str());
    }
    let ghost b1 = b@;
    assert(b1 == base + si_no_vacio(datos.negocio_direccion@, linea(datos.negocio_direccion@)));
    if datos.negocio_telefono.unicode_len() > 0 {
        escribir_linea_con(b, "Tel: ", datos.negocio_telefono.as_str());
    }
    let ghost b2 = b@;
    assert(b2 == b1 + si_no_vacio(datos.negocio_telefono@, linea_con("Tel: "@, datos.negocio_telefono@)));
    if datos.negocio_rfc.unicode_len() > 0 {
        escribir_linea_con(b, "RFC: ", datos.negocio_rfc.as_str());
    }
    assert(b@ == b2 + si_no_vacio(datos.negocio_rfc@, linea_con("RFC: "@, datos.negocio_rfc@)));
    assert(b@ =~= old(b)@ + encabezado_spec(*datos));
}

fn escribir_datos_venta(b: &mut Vec<u8>, datos: &DatosTicketTermico)
    ensures
        final(b)@ == old(b)@ + datos_venta_spec(*datos),
{
    izquierda(b);
    linea_divisoria(b, ANCHO_TICKET);
    negrita_on(b);
    escribir_linea_con(b, "Folio: ", datos.folio.as_str());
    escribir_linea_con(b, "Fecha: ", datos.fecha.as_str());
    escribir_linea_con(b, "Cajero: ", datos.usuario.as_str());
    let ghost base = b@;
    match &datos.cliente {
        Some(c) => escribir_linea_con(b, "Cliente: ", c.as_str()),
        None => {},
    }
    assert(b@ == base + (match datos.cliente {
        Some(c) => linea_con("Cliente: "@, c@),
        None => Seq::empty(),
    }));
    linea_divisoria(b, ANCHO_TICKET);
    assert(b@ =~= old(b)@ + datos_venta_spec(*datos));
}

fn escribir_items(b: &mut Vec<u8>, datos: &DatosTicketTermico)
    requires
        ticket_acotado(*datos),
    ensures
        final(b)@ == old(b)@ + items_spec(datos.items@),
{
    let mut i: usize = 0;
    while i < datos.items.len()
        invariant
            i <= datos.items.len(),
            ticket_acotado(*datos),
            b@ == old(b)@ + items_spec(datos.items@.take(i as int)),
        decreases datos.items.len() - i,
    {
        assert(item_acotado(datos.items@[i as int]));
        escribir_item(b, &datos.items[i]);
        assert(datos.items@.take(i + 1).drop_last() =~= datos.items@.take(i as int));
        assert(b@ =~= old(b)@ + items_spec(datos.items@.take(i + 1)));
        i = i + 1;
    }
    assert(datos.items@.take(datos.items.len() as int) =~= datos.items@);
}

#[verifier::rlimit(40)]
fn escribir_totales(b: &mut Vec<u8>, datos: &DatosTicketTermico)
    requires
        ticket_acotado(*datos),
    ensures
        final(b)@ == old(b)@ + totales_spec(*datos),
{
    let ancho = ANCHO_TICKET;
    linea_divisoria(b, ancho);
    linea_kv(b, "Subtotal:", datos.subtotal.as_str(), ancho);
    let ghost b0 = b@;
    match &datos.descuento {
        Some(x) => linea_kv(b, "Descuento:", x.as_str(), ancho),
        None => {},
    }
    let ghost b1 = b@;
    assert(b1 == b0 + match datos.descuento {
        Some(x) => linea_kv_spec("Descuento:"@, x@, ANCHO_TICKET as nat),
        None => Seq::empty(),
    });
    match &datos.redondeo {
        Some(x) => linea_kv(b, "Redondeo:", x.as_str(), ancho),
        None => {},
    }
    assert(b@ == b1 + match datos.redondeo {
        Some(x) => linea_kv_spec("Redondeo:"@, x@, ANCHO_TICKET as nat),
        None => Seq::empty(),
    });
    doble_tamano(b);
    linea_kv(b, "TOTAL:", datos.total.as_str(), ancho / 2);
    tamano_normal(b);
    negrita_on(b);
    linea_kv(b, "Pago:", datos.metodo_pago.as_str(), ancho);
    assert(b@ =~= old(b)@ + totales_spec(*datos));
}

fn escribir_pie(b: &mut Vec<u8>, datos: &DatosTicketTermico)
    ensures
        final(b)@ == old(b)@ + pie_spec(*datos),
{
    linea_divisoria(b, ANCHO_TICKET);
    centrado(b);
    let ghost base = b@;
    if datos.mensaje_pie.unicode_len() > 0 {
        escribir_linea(b, datos.mensaje_pie.as_str());
    }
    assert(b@ == base + si_no_vacio(datos.mensaje_pie@, linea(datos.mensaje_pie@)));
    salto(b);
    salto(b);
    salto(b);
    cortar_papel(b);
    assert(b@ =~= old(b)@ + pie_spec(*datos));
}

/// The ESC/POS bytes of a sale ticket: header, sale data, items, totals and
/// footer, ending in a paper cut.
pub fn generar_ticket_venta(datos: &DatosTicketTermico) -> (b: Vec<u8>)
    requires
        ticket_acotado(*datos),
    ensures
        b@ == ticket_spec(*datos),
{
    let mut b: Vec<u8> = Vec::new();
    escribir_encabezado(&mut b, datos);
    escribir_datos_venta(&mut b, datos);
    escribir_items(&mut b, datos);
    escribir_totales(&mut b, datos);
    escribir_pie(&mut b, datos);
    assert(b@ =~= ticket_spec(*datos));
    b
}

/// `t` occurs in `s` as a contiguous run of bytes.
pub open spec fn contiene_bytes(s: Seq<u8>, t: Seq<u8>) -> bool {
    exists|k: int| 0 <= k && k + t.len() <= s.len() && #[trigger] s.subrange(k, k + t.len()) == t
}

/// The total's line as the customer sees it: the double-size command,
/// `TOTAL:`, spaces up to 24 columns (counted in bytes), the total, a new
/// line.
pub open spec fn linea_total_doble(total: Seq<char>) -> Seq<u8> {
    let etiqueta = encode_utf8("TOTAL:"@);
    let valor = encode_utf8(total);
    let relleno: int = if 24 > etiqueta.len() + valor.len() { 24 - etiqueta.len() - valor.len() } else { 0 };
    seq![0x1Du8, 0x21u8, 0x11u8] + etiqueta + Seq::new(relleno as nat, |i: int| 0x20u8) + valor + seq![0x0Au8]
}

proof fn lema_contiene_medio(a: Seq<u8>, b: Seq<u8>, c: Seq<u8>)
    ensures
        contiene_bytes(a + b + c, b),
{
    let k = a.len() as int;
    assert((a + b + c).subrange(k, k + b.len()) =~= b);
}

proof fn lema_linea_total(total: Seq<char>)
    ensures
        seq_doble() + linea_kv_spec("TOTAL:"@, total, (ANCHO_TICKET / 2) as nat) =~= linea_total_doble(total),
{
}

proof fn lema_totales_partidos(d: DatosTicketTermico) -> (r: (Seq<u8>, Seq<u8>))
    ensures
        totales_spec(d) == r.0 + (seq_doble() + linea_kv_spec("TOTAL:"@, d.total@, (ANCHO_TICKET / 2) as nat))
            + r.1,
{
    let n = ANCHO_TICKET as nat;
    let x = divisoria(n) + linea_kv_spec("Subtotal:"@, d.subtotal@, n) + (match d.descuento {
        Some(v) => linea_kv_spec("Descuento:"@, v@, n),
        None => Seq::empty(),
    }) + (match d.redondeo {
        Some(v) => linea_kv_spec("Redondeo:"@, v@, n),
        None => Seq::empty(),
    });
    let y = seq_normal() + seq_negrita_on() + linea_kv_spec("Pago:"@, d.metodo_pago@, n);
    assert(totales_spec(d) =~= x + (seq_doble() + linea_kv_spec("TOTAL:"@, d.total@, (ANCHO_TICKET / 2) as nat))
        + y);
    (x, y)
}

/// Every sale ticket shows the amount due: its bytes hold the total's line
/// in double size.
pub proof fn ley_ticket_muestra_total(d: DatosTicketTermico)
    ensures
        contiene_bytes(ticket_spec(d), linea_total_doble(d.total@)),
{
    let linea = seq_doble() + linea_kv_spec("TOTAL:"@, d.total@, (ANCHO_TICKET / 2) as nat);
    lema_linea_total(d.total@);
    let (x, y) = lema_totales_partidos(d);
    let antes = encabezado_spec(d) + datos_venta_spec(d) + items_spec(d.items@);
    let p = pie_spec(d);
    assert(ticket_spec(d) == antes + totales_spec(d) + p);
    assert(antes + (x + linea + y) + p =~= (antes + x) + linea + (y + p));
    lema_contiene_medio(antes + x, linea, y + p);
}

/// The bytes of the test ticket for printer `impresora` at time `fecha`.
pub open spec fn ticket_prueba_spec(impresora: Seq<char>, fecha: Seq<char>) -> Seq<u8> {
    seq_init() + seq_centrado() + seq_negrita_on() + seq_doble() + linea("PRUEBA"@) + seq_normal()
        + seq_negrita_off() + divisoria(ANCHO_TICKET as nat) + linea("Paulin Premium Fruits"@)
        + linea_con("Impresora: "@, impresora) + linea_con("Fecha: "@, fecha) + divisoria(
        ANCHO_TICKET as nat,
    ) + seq_centrado() + linea("Si puedes leer esto,"@) + linea("la impresora funciona!"@) + seq![
        10u8,
        10u8,
        10u8,
    ] + seq_corte()
}

/// The test ticket that checks a printer prints.
pub fn ticket_prueba(impresora: &str, fecha: &str) -> (b: Vec<u8>)
    ensures
        b@ == ticket_prueba_spec(impresora@, fecha@),
{
    let mut b: Vec<u8> = Vec::new();
    init(&mut b);
    centrado(&mut b);
    negrita_on(&mut b);
    doble_tamano(&mut b);
    escribir_linea(&mut b, "PRUEBA");
    tamano_normal(&mut b);
    negrita_off(&mut b);
    linea_divisoria(&mut b, ANCHO_TICKET);
    escribir_linea(&mut b, "Paulin Premium Fruits");
    escribir_linea_con(&mut b, "Impresora: ", impresora);
    escribir_linea_con(&mut b, "Fecha: ", fecha);
    linea_divisoria(&mut b, ANCHO_TICKET);
    centrado(&mut b);
    escribir_linea(&mut b, "Si puedes leer esto,");
    escribir_linea(&mut b, "la impresora funciona!");
    salto(&mut b);
    salto(&mut b);
    salto(&mut b);
    cortar_papel(&mut b);
    assert(b@ =~= ticket_prueba_spec(impresora@, fecha@));
    b
}


/// Place value of bit `k` of a raster byte, leftmost pixel first.
pub open spec fn peso(k: nat) -> nat {
    if k == 0 {
        128
    } else if k == 1 {
        64
    } else if k == 2 {
        32
    } else if k == 3 {
        16
    } else if k == 4 {
        8
    } else if k == 5 {
        4
    } else if k == 6 {
        2
    } else {
        1
    }
}

/// The pixel at column `x` of row `y` is black (columns past the width are
/// white).
pub open spec fn negro(negros: Seq<bool>, ancho: nat, y: nat, x: nat) -> bool {
    x < ancho && negros[(y * ancho + x) as int]
}

/// The first `k` bits of the raster byte for columns `8*xb ..`: the sum of
/// the place values of its black pixels.
pub open spec fn byte_raster(negros: Seq<bool>, ancho: nat, y: nat, xb: nat, k: nat) -> nat
    decreases k,
{
    if k == 0 {
        0
    } else {
        byte_raster(negros, ancho, y, xb, (k - 1) as nat) + if negro(negros, ancho, y, (xb * 8 + (k - 1)) as nat) {
            peso((k - 1) as nat)
        } else {
            0
        }
    }
}

/// Bytes per raster row.
pub open spec fn bytes_fila(ancho: nat) -> nat {
    (ancho + 7) / 8
}

/// The `GS v 0` header for an image of `ancho` by `alto` pixels, after a
/// reset.
pub open spec fn encabezado_raster(ancho: nat, alto: nat) -> Seq<u8> {
    seq![
        ESC,
        0x40u8,
        GS,
        0x76u8,
        0x30u8,
        0u8,
        (bytes_fila(ancho) % 256) as u8,
        ((bytes_fila(ancho) / 256) % 256) as u8,
        (alto % 256) as u8,
        ((alto / 256) % 256) as u8,
    ]
}

/// The raster data, row by row.
pub open spec fn datos_raster(negros: Seq<bool>, ancho: nat, alto: nat) -> Seq<u8> {
    Seq::new(
        alto * bytes_fila(ancho),
        |i: int| byte_raster(negros, ancho, (i / bytes_fila(ancho) as int) as nat, (i % bytes_fila(ancho) as int) as nat, 8) as u8,
    )
}

/// A black-and-white image as ESC/POS: reset, raster header, rows, three
/// line feeds and a cut.
pub open spec fn raster_spec(negros: Seq<bool>, ancho: nat, alto: nat) -> Seq<u8> {
    encabezado_raster(ancho, alto) + datos_raster(negros, ancho, alto) + seq![10u8, 10u8, 10u8]
        + seq_corte()
}

proof fn lema_cota_byte(negros: Seq<bool>, ancho: nat, y: nat, xb: nat, k: nat)
    requires
        k <= 8,
    ensures
        byte_raster(negros, ancho, y, xb, k) <= 256 - (if k == 0 { 256 } else { peso((k - 1) as nat) }),
    decreases k,
{
    if k > 0 {
        lema_cota_byte(negros, ancho, y, xb, (k - 1) as nat);
    }
}

fn peso_exec(k: usize) -> (r: u8)
    requires
        k < 8,
    ensures
        r == peso(k as nat),
{
    if k == 0 {
        128
    } else if k == 1 {
        64
    } else if k == 2 {
        32
    } else if k == 3 {
        16
    } else if k == 4 {
        8
    } else if k == 5 {
        4
    } else if k == 6 {
        2
    } else {
        1
    }
}

proof fn lema_indice(y: int, x: int, ancho: int, alto: int)
    requires
        0 <= y < alto,
        0 <= x < ancho,
    ensures
        0 <= y * ancho + x < ancho * alto,
{
    assert(0 <= y * ancho + x < ancho * alto) by (nonlinear_arith)
        requires
            0 <= y < alto,
            0 <= x < ancho,
    ;
}

proof fn lema_fila(i: int, wb: int, alto: int, ancho: int)
    requires
        0 <= i < alto * wb,
        wb > 0,
        wb == (ancho + 7) / 8,
        ancho >= 0,
    ensures
        0 <= i / wb < alto,
        0 <= i % wb < wb,
        (i % wb) * 8 < ancho,
{
    assert(i / wb < alto) by (nonlinear_arith)
        requires
            0 <= i < alto * wb,
            wb > 0,
    ;
    assert((i % wb) * 8 < ancho) by (nonlinear_arith)
        requires
            0 <= i % wb < wb,
            wb == (ancho + 7) / 8,
            ancho >= 0,
    ;
}

/// One raster byte: the black pixels among 8 columns of a row.
fn byte_de(negros: &Vec<bool>, ancho: usize, alto: usize, y: usize, xb: usize) -> (r: u8)
    requires
        negros@.len() == ancho * alto,
        y < alto,
        xb * 8 < ancho,
    ensures
        r as nat == byte_raster(negros@, ancho as nat, y as nat, xb as nat, 8),
{
    let n = negros.len();
    let base = xb * 8;
    let mut byte: u8 = 0;
    let mut bit: usize = 0;
    while bit < 8
        invariant
            n == negros@.len(),
            negros@.len() == ancho * alto,
            y < alto,
            base == xb * 8,
            base < ancho,
            bit <= 8,
            byte as nat == byte_raster(negros@, ancho as nat, y as nat, xb as nat, bit as nat),
        decreases 8 - bit,
    {
        proof {
            lema_cota_byte(negros@, ancho as nat, y as nat, xb as nat, (bit + 1) as nat);
        }
        if bit < ancho - base {
            let x = base + bit;
            proof {
                lema_indice(y as int, x as int, ancho as int, alto as int);
            }
            if negros[y * ancho + x] {
                byte = byte + peso_exec(bit);
            }
        }
        bit = bit + 1;
    }
    byte
}

/// A black-and-white image of `ancho` by `alto` pixels (row by row, `true`
/// for black) as ESC/POS raster bytes, ready to print and cut.
pub fn raster_escpos(negros: &Vec<bool>, ancho: u32, alto: u32) -> (b: Vec<u8>)
    requires
        negros@.len() == ancho * alto,
    ensures
        b@ == raster_spec(negros@, ancho as nat, alto as nat),
{
    let n = negros.len();
    let w = ancho as usize;
    let h = alto as usize;
    let wb: u32 = ancho / 8 + if ancho % 8 == 0 { 0 } else { 1 };
    assert(wb as nat == bytes_fila(ancho as nat));
    let mut b: Vec<u8> = Vec::new();
    b.push(ESC);
    b.push(0x40);
    b.push(GS);
    b.push(0x76);
    b.push(0x30);
    b.push(0);
    b.push((wb % 256) as u8);
    b.push(((wb / 256) % 256) as u8);
    b.push((alto % 256) as u8);
    b.push(((alto / 256) % 256) as u8);
    assert(b@ =~= encabezado_raster(ancho as nat, alto as nat));
    let ghost cab = b@;
    if wb > 0 {
        let wbu = wb as usize;
        assert(h * wbu <= n) by (nonlinear_arith)
            requires
                n == w * h,
                wbu as int == (w as int + 7) / 8,
                wbu > 0,
        ;
        let total: usize = h * wbu;
        let mut i: usize = 0;
        while i < total
            invariant
                negros@.len() == w * h,
                w == ancho,
                h == alto,
                wbu == wb,
                wb as nat == bytes_fila(ancho as nat),
                wbu > 0,
                total == h * wbu,
                i <= total,
                cab == encabezado_raster(ancho as nat, alto as nat),
                b@ == cab + datos_raster(negros@, ancho as nat, alto as nat).take(i as int),
            decreases total - i,
        {
            proof {
                lema_fila(i as int, wbu as int, h as int, w as int);
            }
            let y = i / wbu;
            let xb = i % wbu;
            let byte = byte_de(negros, w, h, y, xb);
            b.push(byte);
            assert(datos_raster(negros@, ancho as nat, alto as nat).take(i + 1) =~= datos_raster(
                negros@,
                ancho as nat,
                alto as nat,
            ).take(i as int).push(byte));
            i = i + 1;
        }
        assert(datos_raster(negros@, ancho as nat, alto as nat).take(total as int) =~= datos_raster(
            negros@,
            ancho as nat,
            alto as nat,
        ));
    } else {
        assert(datos_raster(negros@, ancho as nat, alto as nat) =~= Seq::<u8>::empty());
        assert(datos_raster(negros@, ancho as nat, alto as nat).take(0) =~= Seq::<u8>::empty());
    }
    b.push(10u8);
    b.push(10u8);
    b.push(10u8);
    cortar_papel(&mut b);
    assert(b@ =~= raster_spec(negros@, ancho as nat, alto as nat));
    b
}

/// An item's line fills the paper: when the quantity and the price leave
/// room for at least the ellipsis, the quantity, the (possibly cut) name,
/// the padding and the price take exactly the ticket's 48 columns, the
/// name counted in characters.
pub proof fn ley_linea_item_llena_el_ancho(it: ItemTicket)
    requires
        utf8(it.prefijo@).len() + utf8(it.precio@).len() + 1 <= ANCHO_TICKET,
    ensures
        utf8(it.prefijo@).len() + nombre_item(it).len() + resta_sat(
            ANCHO_TICKET as int,
            utf8(it.prefijo@).len() + nombre_item(it).len() + utf8(it.precio@).len(),
        ) + utf8(it.precio@).len() == ANCHO_TICKET,
{
    let m = max_nombre(it);
    let n = nombre_item(it);
    if it.nombre@.len() > m {
        let corte: nat = if m >= 1 { (m - 1) as nat } else { 0 };
        assert(n.len() == corte + 1);
    }
}

/// The PNG bytes of a ticket image sent as base64; a text that is not
/// base64 is refused with the decoder's message.
pub fn png_de_base64(imagen_base64: &str) -> (r: Result<Vec<u8>, String>)
    ensures
        r is Ok <==> base64_estandar(imagen_base64@) is Some,
        r matches Ok(b) ==> base64_estandar(imagen_base64@) == Some(b@),
        r matches Err(e) ==> exists|m: Seq<char>| e@ == "Error decodificando base64: "@ + m,
{
    match decodificar_base64(imagen_base64) {
        Ok(b) => Ok(b),
        Err(e) => {
            let m = unir("Error decodificando base64: ", e.as_str());
            assert(m@ == "Error decodificando base64: "@ + e@);
            Err(m)
        },
    }
}

} // verus!
