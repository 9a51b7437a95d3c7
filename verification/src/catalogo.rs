//! The product catalogue: internal codes, search text, the business
//! settings shown on tickets, and the importer of pipe-separated catalogues
//! (code | name | price | stock | supplier).

use vstd::prelude::*;
use crate::texto::{
    a_cadena, cadena_de, caracteres, dividir, iguales, mayusculas, normalizar_spec, normalizar_texto, partes, recortar,
    recortar_fin, recortar_inicio, recortar_spec, es_espacio, unir, vistas,
};
use crate::impresoras::{aparece_en, aparece_exec};
use crate::numero::{formato_entero, formato_i64, formato_u64, texto_entero};

verus! {

/// The columns a catalogue line must have.
pub const COLUMNAS_CATALOGO: usize = 5;

/// The most errors an import reports one by one.
pub const MAX_ERRORES: usize = 50;

/// The internal code of number `n`: `MR-` and five digits at least.
pub open spec fn codigo_interno_spec(n: int) -> Seq<char> {
    "MR-"@ + formato_entero(n, 5)
}

/// The next internal code after the sequence's last value `ultimo`.
pub fn codigo_interno(ultimo: i64) -> (r: (i64, String))
    requires
        ultimo < i64::MAX,
    ensures
        r.0 == ultimo + 1,
        r.1@ == codigo_interno_spec(ultimo + 1),
{
    let n = ultimo + 1;
    (n, unir("MR-", formato_i64(n, 5).as_str()))
}

/// The code a new product keeps: the one given, unless it is absent or
/// empty (then a new internal code is needed).
pub fn codigo_dado(codigo: Option<String>) -> (r: Option<String>)
    ensures
        r is Some <==> (codigo matches Some(c) && c@.len() > 0),
        r matches Some(c) ==> codigo == Some(c),
{
    match codigo {
        Some(c) => {
            if c.unicode_len() > 0 {
                Some(c)
            } else {
                None
            }
        },
        None => None,
    }
}

/// The code type of a new product, `INTERNO` unless given.
pub fn tipo_codigo(tipo: Option<String>) -> (r: String)
    ensures
        tipo matches Some(t) ==> r == t,
        tipo is None ==> r@ == "INTERNO"@,
{
    match tipo {
        Some(t) => t,
        None => a_cadena("INTERNO"),
    }
}

/// The text a product is searched by: code, name and description joined
/// by spaces, normalised.
pub fn texto_busqueda(codigo: &str, nombre: &str, descripcion: Option<&str>) -> (r: String)
    ensures
        r@ == normalizar_spec(codigo@ + " "@ + nombre@ + " "@ + (match descripcion {
            Some(d) => d@,
            None => Seq::<char>::empty(),
        })),
{
    let mut t = unir(codigo, " ");
    t.append(nombre);
    t.append(" ");
    match descripcion {
        Some(d) => t.append(d),
        None => {},
    }
    normalizar_texto(t.as_str())
}

/// The business data printed on tickets.
pub struct ConfigNegocio {
    pub nombre: String,
    pub direccion: String,
    pub telefono: String,
    pub rfc: String,
    pub mensaje_pie: String,
    pub respaldo_auto_activo: bool,
    pub respaldo_auto_hora: String,
    /// The thermal printer's system name; empty means the HTML ticket.
    pub impresora_termica: String,
}

impl ConfigNegocio {
    /// The settings used when none are stored.
    pub fn por_defecto() -> (c: ConfigNegocio)
        ensures
            c.nombre@ == "Moto Refaccionaria"@,
            c.direccion@.len() == 0,
            c.telefono@.len() == 0,
            c.rfc@.len() == 0,
            c.mensaje_pie@ == "¡Gracias por su compra!"@,
            c.respaldo_auto_activo,
            c.respaldo_auto_hora@ == "23:00"@,
            c.impresora_termica@.len() == 0,
    {
        ConfigNegocio {
            nombre: a_cadena("Moto Refaccionaria"),
            direccion: String::new(),
            telefono: String::new(),
            rfc: String::new(),
            mensaje_pie: a_cadena("¡Gracias por su compra!"),
            respaldo_auto_activo: true,
            respaldo_auto_hora: a_cadena("23:00"),
            impresora_termica: String::new(),
        }
    }

    /// The stored flag of automatic backups (any non-zero value is on).
    pub fn flag_respaldo(&self) -> (r: i64)
        ensures
            self.respaldo_auto_activo ==> r == 1,
            !self.respaldo_auto_activo ==> r == 0,
    {
        if self.respaldo_auto_activo {
            1
        } else {
            0
        }
    }
}

/// The columns of a usable catalogue line; price and stock are kept as
/// written, for the caller to read as numbers.
pub struct FilaCatalogo {
    pub codigo: String,
    pub nombre: String,
    pub precio: String,
    pub stock: String,
    pub proveedor: String,
}

/// What a catalogue line is.
pub enum LineaCatalogo {
    /// Blank: not counted.
    Vacia,
    /// Fewer than five columns; how many it has.
    Incompleta(usize),
    /// Five columns, but no code or no name: skipped.
    SinDatos,
    /// A product to insert or update.
    Producto(FilaCatalogo),
}

/// `r` is the reading of the catalogue line `l`.
pub open spec fn lectura_de(l: Seq<char>, r: LineaCatalogo) -> bool {
    let t = recortar_spec(l);
    let cols = partes(t, '|');
    if t.len() == 0 {
        r is Vacia
    } else if cols.len() < 5 {
        r == LineaCatalogo::Incompleta(cols.len() as usize)
    } else if recortar_spec(cols[0]).len() == 0 || recortar_spec(cols[1]).len() == 0 {
        r is SinDatos
    } else {
        r matches LineaCatalogo::Producto(f) && f.codigo@ == recortar_spec(cols[0]) && f.nombre@
            == recortar_spec(cols[1]) && f.precio@ == cols[2] && f.stock@ == cols[3] && f.proveedor@
            == recortar_spec(cols[4])
    }
}

/// Reads one catalogue line: trimmed, split at `|`, with code, name and
/// supplier trimmed.
pub fn leer_linea(linea: &str) -> (r: LineaCatalogo)
    ensures
        lectura_de(linea@, r),
{
    let t = recortar(linea);
    if t.unicode_len() == 0 {
        return LineaCatalogo::Vacia;
    }
    let cols = dividir(t.as_str(), '|');
    proof {
        assert(vistas(cols@).len() == cols@.len());
    }
    if cols.len() < COLUMNAS_CATALOGO {
        return LineaCatalogo::Incompleta(cols.len());
    }
    assert(cols@[0]@ == partes(t@, '|')[0]);
    assert(cols@[1]@ == partes(t@, '|')[1]);
    assert(cols@[2]@ == partes(t@, '|')[2]);
    assert(cols@[3]@ == partes(t@, '|')[3]);
    assert(cols@[4]@ == partes(t@, '|')[4]);
    let codigo = recortar(cols[0].as_str());
    let nombre = recortar(cols[1].as_str());
    if codigo.unicode_len() == 0 || nombre.unicode_len() == 0 {
        return LineaCatalogo::SinDatos;
    }
    let proveedor = recortar(cols[4].as_str());
    LineaCatalogo::Producto(
        FilaCatalogo {
            codigo,
            nombre,
            precio: cols[2].clone(),
            stock: cols[3].clone(),
            proveedor,
        },
    )
}

/// The text has a character that is not whitespace.
pub open spec fn no_en_blanco(s: Seq<char>) -> bool {
    exists|i: int| 0 <= i < s.len() && !es_espacio(#[trigger] s[i])
}

proof fn lema_fin_no_espacio(s: Seq<char>)
    ensures
        recortar_fin(s).len() > 0 ==> !es_espacio(recortar_fin(s).last()),
    decreases s.len(),
{
    if s.len() > 0 && es_espacio(s.last()) {
        lema_fin_no_espacio(s.drop_last());
    }
}

proof fn lema_recortado_no_en_blanco(s: Seq<char>)
    requires
        recortar_spec(s).len() > 0,
    ensures
        no_en_blanco(recortar_spec(s)),
{
    let t = recortar_spec(s);
    lema_fin_no_espacio(recortar_inicio(s));
    assert(!es_espacio(t[t.len() - 1]));
}

/// A catalogue line is imported as a product only with a code and a name
/// that are not blank; a line missing either is never a product.
pub proof fn ley_producto_con_codigo_y_nombre(l: Seq<char>, r: LineaCatalogo)
    requires
        lectura_de(l, r),
    ensures
        r matches LineaCatalogo::Producto(f) ==> no_en_blanco(f.codigo@) && no_en_blanco(f.nombre@),
{
    let t = recortar_spec(l);
    let cols = partes(t, '|');
    if let LineaCatalogo::Producto(f) = r {
        lema_recortado_no_en_blanco(cols[0]);
        lema_recortado_no_en_blanco(cols[1]);
    }
}

/// What resolving a line's supplier gave.
pub enum ResultadoProveedor {
    /// The line names no supplier.
    SinProveedor,
    /// A known supplier.
    Existente(i64),
    /// A supplier created for this line.
    Creado(i64),
    /// Creating the supplier failed, with the database's message.
    Fallido(String),
}

/// What saving a line's product gave.
pub enum ResultadoFila {
    Insertado,
    Actualizado,
    /// With the database's message.
    Fallido(String),
}

/// The outcome of an import.
pub struct ResultadoImportacion {
    pub total_lineas: usize,
    pub insertados: usize,
    pub actualizados: usize,
    pub omitidos: usize,
    pub proveedores_creados: usize,
    pub errores: Vec<String>,
}

/// A product category.
pub struct Categoria {
    pub id: i64,
    pub nombre: String,
    pub descripcion: Option<String>,
}

/// A supplier.
pub struct Proveedor {
    pub id: i64,
    pub nombre: String,
    pub contacto: Option<String>,
    pub telefono: Option<String>,
    pub email: Option<String>,
    pub notas: Option<String>,
    pub activo: bool,
}

/// The new data of a supplier being edited.
pub struct ActualizarProveedor {
    pub id: i64,
    pub nombre: String,
    pub contacto: Option<String>,
    pub telefono: Option<String>,
    pub email: Option<String>,
    pub notas: Option<String>,
}

/// The text of a count.
pub open spec fn num(n: usize) -> Seq<char> {
    texto_entero(n as int)
}

fn num_exec(n: usize) -> (r: String)
    ensures
        r@ == num(n),
{
    formato_u64(n as u64, 0)
}

impl ResultadoImportacion {
    /// Every counted line was inserted, updated or skipped.
    pub open spec fn cuadra(&self) -> bool {
        self.total_lineas == self.insertados + self.actualizados + self.omitidos
    }

    /// An import that has read nothing yet.
    pub fn nuevo() -> (r: ResultadoImportacion)
        ensures
            r.cuadra(),
            r.total_lineas == 0,
            r.insertados == 0,
            r.actualizados == 0,
            r.omitidos == 0,
            r.proveedores_creados == 0,
            r.errores@.len() == 0,
    {
        ResultadoImportacion {
            total_lineas: 0,
            insertados: 0,
            actualizados: 0,
            omitidos: 0,
            proveedores_creados: 0,
            errores: Vec::new(),
        }
    }

    /// Accounts for line number `numero` (counting from 1): a blank line
    /// changes nothing; a line without five columns is an error and is
    /// skipped; a line without code or name is skipped; a product line
    /// counts a supplier created, reports a supplier that could not be
    /// created (the product is still saved, without supplier), and counts
    /// the product inserted or updated, or reports it and skips it.
    pub fn registrar(
        &mut self,
        numero: usize,
        linea: &LineaCatalogo,
        proveedor: &ResultadoProveedor,
        fila: &ResultadoFila,
    )
        requires
            old(self).cuadra(),
            old(self).total_lineas < usize::MAX,
            old(self).proveedores_creados < usize::MAX,
        ensures
            final(self).cuadra(),
            linea is Vacia ==> *final(self) == *old(self),
            !(linea is Vacia) ==> final(self).total_lineas == old(self).total_lineas + 1,
            linea matches LineaCatalogo::Incompleta(n) ==> final(self).omitidos == old(self).omitidos + 1
                && vistas(final(self).errores@) == vistas(old(self).errores@).push(
                "Línea "@ + num(numero) + ": se esperaban 5 columnas, hay "@ + num(*n),
            ) && final(self).insertados == old(self).insertados && final(self).actualizados
                == old(self).actualizados && final(self).proveedores_creados == old(self).proveedores_creados,
            linea is SinDatos ==> final(self).omitidos == old(self).omitidos + 1 && final(self).errores
                == old(self).errores && final(self).insertados == old(self).insertados
                && final(self).actualizados == old(self).actualizados
                && final(self).proveedores_creados == old(self).proveedores_creados,
            linea matches LineaCatalogo::Producto(f) ==> ({
                let con_prov = match *proveedor {
                    ResultadoProveedor::Fallido(e) => vistas(old(self).errores@).push(
                        "Línea "@ + num(numero) + " proveedor '"@ + f.proveedor@ + "': "@ + e@,
                    ),
                    _ => vistas(old(self).errores@),
                };
                &&& final(self).proveedores_creados == old(self).proveedores_creados + (if proveedor is Creado {
                    1int
                } else {
                    0int
                })
                &&& match *fila {
                    ResultadoFila::Insertado => final(self).insertados == old(self).insertados + 1
                        && final(self).actualizados == old(self).actualizados && final(self).omitidos
                        == old(self).omitidos && vistas(final(self).errores@) == con_prov,
                    ResultadoFila::Actualizado => final(self).actualizados == old(self).actualizados
                        + 1 && final(self).insertados == old(self).insertados && final(self).omitidos
                        == old(self).omitidos && vistas(final(self).errores@) == con_prov,
                    ResultadoFila::Fallido(e) => final(self).omitidos == old(self).omitidos + 1
                        && final(self).insertados == old(self).insertados && final(self).actualizados
                        == old(self).actualizados && vistas(final(self).errores@) == con_prov.push(
                        "Línea "@ + num(numero) + " ("@ + f.codigo@ + "): "@ + e@,
                    ),
                }
            }),
    {
        match linea {
            LineaCatalogo::Vacia => {},
            LineaCatalogo::Incompleta(n) => {
                self.total_lineas = self.total_lineas + 1;
                let mut m = unir("Línea ", num_exec(numero).as_str());
                m.append(": se esperaban 5 columnas, hay ");
                m.append(num_exec(*n).as_str());
                self.errores.push(m);
                self.omitidos = self.omitidos + 1;
            },
            LineaCatalogo::SinDatos => {
                self.total_lineas = self.total_lineas + 1;
                self.omitidos = self.omitidos + 1;
            },
            LineaCatalogo::Producto(f) => {
                self.total_lineas = self.total_lineas + 1;
                match proveedor {
                    ResultadoProveedor::Creado(_) => {
                        self.proveedores_creados = self.proveedores_creados + 1;
                    },
                    ResultadoProveedor::Fallido(e) => {
                        let mut m = unir("Línea ", num_exec(numero).as_str());
                        m.append(" proveedor '");
                        m.append(f.proveedor.as_str());
                        m.append("': ");
                        m.append(e.as_str());
                        self.errores.push(m);
                    },
                    _ => {},
                }
                match fila {
                    ResultadoFila::Insertado => {
                        self.insertados = self.insertados + 1;
                    },
                    ResultadoFila::Actualizado => {
                        self.actualizados = self.actualizados + 1;
                    },
                    ResultadoFila::Fallido(e) => {
                        let mut m = unir("Línea ", num_exec(numero).as_str());
                        m.append(" (");
                        m.append(f.codigo.as_str());
                        m.append("): ");
                        m.append(e.as_str());
                        self.errores.push(m);
                        self.omitidos = self.omitidos + 1;
                    },
                }
            },
        }
    }

    /// Ends an import: more than fifty errors are cut to the first fifty
    /// and a note that the list was cut.
    pub fn cerrar(&mut self)
        ensures
            final(self).total_lineas == old(self).total_lineas,
            final(self).insertados == old(self).insertados,
            final(self).actualizados == old(self).actualizados,
            final(self).omitidos == old(self).omitidos,
            final(self).proveedores_creados == old(self).proveedores_creados,
            old(self).errores@.len() <= 50 ==> final(self).errores == old(self).errores,
            old(self).errores@.len() > 50 ==> vistas(final(self).errores@) == vistas(
                old(self).errores@.take(50),
            ).push("... (truncado)"@),
            final(self).errores@.len() <= 51,
    {
        if self.errores.len() > MAX_ERRORES {
            self.errores.truncate(MAX_ERRORES);
            self.errores.push(a_cadena("... (truncado)"));
            assert(vistas(self.errores@) =~= vistas(old(self).errores@.take(50)).push("... (truncado)"@));
        }
    }
}

/// The supplier names already known, by upper-cased name.
pub struct CacheProveedores {
    entradas: Vec<(String, i64)>,
}

/// The map that a list of (key, id) pairs builds when each pair is
/// inserted in turn.
pub open spec fn mapa_de(s: Seq<(String, i64)>) -> Map<Seq<char>, i64>
    decreases s.len(),
{
    if s.len() == 0 {
        Map::empty()
    } else {
        mapa_de(s.drop_last()).insert(s.last().0@, s.last().1)
    }
}

proof fn lema_mapa_sin_cola(s: Seq<(String, i64)>, i: int, k: Seq<char>)
    requires
        0 <= i <= s.len(),
        forall|j: int| i <= j < s.len() ==> (#[trigger] s[j]).0@ != k,
    ensures
        mapa_de(s).contains_key(k) == mapa_de(s.take(i)).contains_key(k),
        mapa_de(s).contains_key(k) ==> mapa_de(s)[k] == mapa_de(s.take(i))[k],
    decreases s.len() - i,
{
    if i < s.len() {
        assert(s.drop_last().take(i) =~= s.take(i));
        assert forall|j: int| i <= j < s.drop_last().len() implies (#[trigger] s.drop_last()[j]).0@ != k by {
            assert(s.drop_last()[j] == s[j]);
        }
        lema_mapa_sin_cola(s.drop_last(), i, k);
        assert(s[s.len() - 1].0@ != k);
    } else {
        assert(s.take(i) =~= s);
    }
}

impl View for CacheProveedores {
    type V = Map<Seq<char>, i64>;

    closed spec fn view(&self) -> Map<Seq<char>, i64> {
        mapa_de(self.entradas@)
    }
}

impl CacheProveedores {
    /// An empty cache.
    pub fn nuevo() -> (r: CacheProveedores)
        ensures
            r@ == Map::<Seq<char>, i64>::empty(),
    {
        CacheProveedores { entradas: Vec::new() }
    }

    /// Records a supplier under its upper-cased name (a later one with the
    /// same key replaces an earlier one).
    pub fn agregar(&mut self, nombre: &str, id: i64)
        ensures
            final(self)@ == old(self)@.insert(mayusculas(nombre@), id),
    {
        let clave = nombre.to_uppercase();
        self.entradas.push((clave, id));
        assert(self.entradas@.drop_last() =~= old(self).entradas@);
    }

    /// The id known for a supplier name, compared upper-cased.
    pub fn buscar(&self, nombre: &str) -> (r: Option<i64>)
        ensures
            self@.contains_key(mayusculas(nombre@)) ==> r == Some(self@[mayusculas(nombre@)]),
            !self@.contains_key(mayusculas(nombre@)) ==> r is None,
    {
        let clave = nombre.to_uppercase();
        let mut i = self.entradas.len();
        while i > 0
            invariant
                i <= self.entradas@.len(),
                clave@ == mayusculas(nombre@),
                forall|j: int| i <= j < self.entradas@.len() ==> (#[trigger] self.entradas@[j]).0@ != clave@,
            decreases i,
        {
            if iguales(self.entradas[i - 1].0.as_str(), clave.as_str()) {
                proof {
                    let s = self.entradas@;
                    lema_mapa_sin_cola(s, i as int, clave@);
                    assert(s.take(i as int).drop_last() =~= s.take(i - 1));
                    assert(s.take(i as int).last() == s[i - 1]);
                }
                return Some(self.entradas[i - 1].1);
            }
            i = i - 1;
        }
        proof {
            lema_mapa_sin_cola(self.entradas@, 0, clave@);
            assert(self.entradas@.take(0) =~= Seq::<(String, i64)>::empty());
        }
        None
    }
}

/// A purchase order to a supplier.
pub struct OrdenPedido {
    pub id: i64,
    pub proveedor_nombre: Option<String>,
    pub usuario_nombre: String,
    pub estado: String,
    pub notas: Option<String>,
    pub fecha: String,
    pub total_items: i64,
}

/// A reception of goods.
pub struct Recepcion {
    pub id: i64,
    pub usuario_nombre: String,
    pub proveedor_nombre: Option<String>,
    pub fecha: String,
    pub notas: Option<String>,
    pub total_items: i64,
}

/// The name shown for a user the query did not find.
pub fn nombre_o_guion(nombre: Option<String>) -> (r: String)
    ensures
        nombre matches Some(n) ==> r == n,
        nombre is None ==> r@ == "—"@,
{
    match nombre {
        Some(n) => n,
        None => a_cadena("—"),
    }
}

/// The first place at or after `i` where `p` occurs in `s`, or -1.
pub open spec fn primera_desde(s: Seq<char>, p: Seq<char>, i: int) -> int
    decreases s.len() - i,
{
    if i < 0 || i + p.len() > s.len() {
        -1
    } else if aparece_en(s, p, i) {
        i
    } else {
        proof {
            if p.len() == 0 {
                assert(s.subrange(i, i + p.len()) =~= p);
            }
        }
        primera_desde(s, p, i + 1)
    }
}

/// Where the value that starts at `i` ends: the first comma or closing brace
/// at or after `i`, or the end of `s`.
pub open spec fn fin_valor(s: Seq<char>, i: int) -> int
    decreases s.len() - i,
{
    if i < 0 || i >= s.len() {
        s.len() as int
    } else if s[i] == ',' || s[i] == '}' {
        i
    } else {
        fin_valor(s, i + 1)
    }
}

/// The key under which an audit record keeps a sale price.
pub open spec fn clave_precio() -> Seq<char> {
    "\"precio_venta\":"@
}

/// The text of the sale price in an audit record such as
/// `{"precio_venta":12.50}`: what follows the first `"precio_venta":` up to
/// the next comma or closing brace, trimmed; `None` without that key.
pub open spec fn texto_precio_spec(json: Seq<char>) -> Option<Seq<char>> {
    let i = primera_desde(json, clave_precio(), 0);
    if i < 0 {
        None
    } else {
        let resto = json.subrange(i + clave_precio().len(), json.len() as int);
        Some(recortar_spec(resto.subrange(0, fin_valor(resto, 0))))
    }
}

/// The first place where `p` occurs in `v`.
fn primera_exec(v: &Vec<char>, p: &Vec<char>) -> (r: Option<usize>)
    ensures
        match r {
            Some(i) => primera_desde(v@, p@, 0) == i && i + p@.len() <= v@.len(),
            None => primera_desde(v@, p@, 0) == -1,
        },
{
    let n = v.len();
    let pl = p.len();
    if pl > n {
        return None;
    }
    if pl == 0 {
        assert(v@.subrange(0, 0) =~= p@);
        return Some(0);
    }
    let mut i: usize = 0;
    while i <= n - pl
        invariant
            n == v@.len(),
            pl == p@.len(),
            1 <= pl <= n,
            i <= n - pl + 1,
            primera_desde(v@, p@, 0) == primera_desde(v@, p@, i as int),
        decreases n - pl + 1 - i,
    {
        if aparece_exec(v, p, i) {
            return Some(i);
        }
        i = i + 1;
    }
    None
}

/// The sale price's text in an audit record (see `texto_precio_spec`); the
/// caller reads the number from it.
pub fn texto_precio(json: &str) -> (r: Option<String>)
    ensures
        texto_precio_spec(json@) == (match r {
            Some(t) => Some(t@),
            None => None::<Seq<char>>,
        }),
{
    let v = caracteres(json);
    let k = caracteres("\"precio_venta\":");
    proof {
        reveal_strlit("\"precio_venta\":");
    }
    assert(k@ == clave_precio());
    let n = v.len();
    let kl = k.len();
    let i = match primera_exec(&v, &k) {
        Some(i) => i,
        None => return None,
    };
    let a = i + kl;
    let ghost resto = v@.subrange(a as int, n as int);
    let mut j: usize = a;
    while j < n && v[j] != ',' && v[j] != '}'
        invariant
            a <= j <= n,
            n == v@.len(),
            resto == v@.subrange(a as int, n as int),
            fin_valor(resto, 0) == fin_valor(resto, j - a),
        decreases n - j,
    {
        j = j + 1;
    }
    assert(fin_valor(resto, j - a) == j - a);
    let crudo = cadena_de(&v, a, j);
    assert(crudo@ == resto.subrange(0, (j - a) as int));
    Some(recortar(crudo.as_str()))
}

impl OrdenPedido {
    /// A purchase order just created: always a draft.
    pub fn creada(
        id: i64,
        proveedor_nombre: Option<String>,
        usuario_nombre: Option<String>,
        notas: Option<String>,
        fecha: String,
        total_items: i64,
    ) -> (o: OrdenPedido)
        ensures
            o.id == id,
            o.proveedor_nombre == proveedor_nombre,
            usuario_nombre matches Some(n) ==> o.usuario_nombre == n,
            usuario_nombre is None ==> o.usuario_nombre@ == "—"@,
            o.estado@ == "borrador"@,
            o.notas == notas,
            o.fecha == fecha,
            o.total_items == total_items,
    {
        OrdenPedido {
            id,
            proveedor_nombre,
            usuario_nombre: nombre_o_guion(usuario_nombre),
            estado: a_cadena("borrador"),
            notas,
            fecha,
            total_items,
        }
    }
}

/// The folio of a purchase order: `P-` and the order's number, six digits
/// at least.
pub fn folio_pedido(siguiente_id: i64) -> (r: String)
    ensures
        r@ == "P-"@ + formato_entero(siguiente_id as int, 6),
{
    unir("P-", formato_i64(siguiente_id, 6).as_str())
}

/// The audit text of a purchase order created.
pub fn descripcion_pedido(id: i64, total_items: i64) -> (r: String)
    ensures
        r@ == "Pedido #"@ + texto_entero(id as int) + " creado | "@ + texto_entero(total_items as int) + " items"@,
{
    let mut r = unir("Pedido #", crate::numero::texto_i64(id).as_str());
    r.append(" creado | ");
    r.append(crate::numero::texto_i64(total_items).as_str());
    r.append(" items");
    r
}

/// The audit text of an order's state changed.
pub fn descripcion_estado_pedido(id: i64, estado: &str) -> (r: String)
    ensures
        r@ == "Pedido #"@ + texto_entero(id as int) + " → "@ + estado@,
{
    let mut r = unir("Pedido #", crate::numero::texto_i64(id).as_str());
    r.append(" → ");
    r.append(estado);
    r
}

/// The state of an order after a reception: complete when nothing is
/// missing any more (the caller's comparison of the quantities).
pub fn estado_tras_recepcion(sin_faltante: bool) -> (r: String)
    ensures
        sin_faltante ==> r@ == "recibida_completa"@,
        !sin_faltante ==> r@ == "recibida_parcial"@,
{
    if sin_faltante {
        a_cadena("recibida_completa")
    } else {
        a_cadena("recibida_parcial")
    }
}

/// The audit text of a reception at the point of sale.
pub fn descripcion_recepcion(id: i64, total_items: i64, proveedor_id: Option<i64>) -> (r: String)
    ensures
        r@ == "Recepción #"@ + texto_entero(id as int) + " | "@ + texto_entero(total_items as int)
            + " items | Proveedor: "@ + (match proveedor_id {
            Some(p) => texto_entero(p as int),
            None => "N/A"@,
        }),
{
    let mut r = unir("Recepción #", crate::numero::texto_i64(id).as_str());
    r.append(" | ");
    r.append(crate::numero::texto_i64(total_items).as_str());
    r.append(" items | Proveedor: ");
    match proveedor_id {
        Some(p) => r.append(crate::numero::texto_i64(p).as_str()),
        None => r.append("N/A"),
    }
    r
}

impl Recepcion {
    /// A reception just recorded.
    pub fn registrada(
        id: i64,
        usuario_nombre: Option<String>,
        proveedor_nombre: Option<String>,
        fecha: String,
        notas: Option<String>,
        total_items: i64,
    ) -> (r: Recepcion)
        ensures
            r.id == id,
            usuario_nombre matches Some(n) ==> r.usuario_nombre == n,
            usuario_nombre is None ==> r.usuario_nombre@ == "—"@,
            r.proveedor_nombre == proveedor_nombre,
            r.fecha == fecha,
            r.notas == notas,
            r.total_items == total_items,
    {
        Recepcion {
            id,
            usuario_nombre: nombre_o_guion(usuario_nombre),
            proveedor_nombre,
            fecha,
            notas,
            total_items,
        }
    }
}

} // verus!
