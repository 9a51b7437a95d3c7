//! The calls the library makes into other crates: password hashing, QR
//! codes, base64, randomness, the clock and unique ids. Each item states what the
//! called crate guarantees, and nothing more.

use vstd::prelude::*;
use rand::RngCore;
use base64::Engine;

verus! {

/// What `bcrypt::verify(password, hash)` answers: `None` for an error (a
/// hash that does not parse, or whose cost lies outside 4..=31), otherwise
/// `Some` of whether the password, hashed with the hash's cost and salt,
/// gives the same digest. It depends on the two texts alone.
pub uninterp spec fn bcrypt_verificacion(password: Seq<char>, hash: Seq<char>) -> Option<bool>;

/// The hash accepts the password: `bcrypt::verify` answers `Ok(true)`.
pub open spec fn bcrypt_acepta(password: Seq<char>, hash: Seq<char>) -> bool {
    bcrypt_verificacion(password, hash) == Some(true)
}

/// The digit character of `d` (0..=9).
pub open spec fn digito(d: int) -> char {
    (d + 48) as char
}

/// How a hash made by `bcrypt::hash` with `cost` begins: version `2b`, the
/// cost in two digits, and the separator, as in `$2b$12$`.
pub open spec fn prefijo_bcrypt(cost: u32) -> Seq<char> {
    "$2b$"@ + seq![digito(cost as int / 10), digito(cost as int % 10)] + "$"@
}

/// The texts of `BcryptError` that `bcrypt::hash` can give: a failure of
/// the system's randomness, or a cost outside 4..=31.
pub open spec fn error_de_hash(e: Seq<char>, cost: u32) -> bool {
    ||| e.len() >= 12 && e.subrange(0, 12) == "Rand error: "@
    ||| (!(4 <= cost <= 31) && e.len() >= 39 && e.subrange(0, 39) == "Cost needs to be between 4 and 31, got "@)
}

/// The texts of `BcryptError` that `bcrypt::verify` can give: a malformed
/// hash, or a cost in it outside 4..=31.
pub open spec fn error_de_verificacion(e: Seq<char>) -> bool {
    ||| e.len() >= 14 && e.subrange(0, 14) == "Invalid hash: "@
    ||| e.len() >= 39 && e.subrange(0, 39) == "Cost needs to be between 4 and 31, got "@
}

/// `bcrypt::verify`, with an error read as a mismatch (`unwrap_or(false)`).
/// The result is `bcrypt_acepta`; besides, the crate refuses (with an error,
/// hence `false`) any hash that is not exactly 60 ASCII bytes.
#[verifier::external_body]
pub fn bcrypt_verifica(password: &str, hash: &str) -> (r: bool)
    ensures
        r == bcrypt_acepta(password@, hash@),
        r ==> hash@.len() == 60,
{
    bcrypt::verify(password, hash).unwrap_or(false)
}

/// `bcrypt::verify(password, hash)` with its error kept as its text: `Ok(b)`
/// where `bcrypt_verificacion` is `Some(b)`, and an error (malformed hash or
/// cost out of range) where it is `None`.
#[verifier::external_body]
pub fn bcrypt_verifica_resultado(password: &str, hash: &str) -> (r: Result<bool, String>)
    ensures
        r matches Ok(b) ==> bcrypt_verificacion(password@, hash@) == Some(b),
        r matches Err(e) ==> bcrypt_verificacion(password@, hash@) is None && error_de_verificacion(e@),
{
    bcrypt::verify(password, hash).map_err(|e| e.to_string())
}

/// `bcrypt::hash(password, cost)`: with a fresh random salt, so two calls
/// differ. It fails for a cost outside 4..=31 and when the system gives no
/// randomness, with the error's text. A hash it returns is 60 characters,
/// begins `$2b$`, the cost in two digits and `$`, and verifying the same
/// password against it succeeds, since `verify` recomputes with the salt and
/// cost that the hash carries.
#[verifier::external_body]
pub fn bcrypt_hash(password: &str, cost: u32) -> (r: Result<String, String>)
    ensures
        !(4 <= cost <= 31) ==> r is Err,
        r matches Err(e) ==> error_de_hash(e@, cost),
        r matches Ok(h) ==> h@.len() == 60 && h@.subrange(0, 7) == prefijo_bcrypt(cost) && bcrypt_acepta(password@, h@),
{
    bcrypt::hash(password, cost).map_err(|e| e.to_string())
}

/// What the `qrcode` crate draws for some data: the SVG of
/// `QrCode::new(data)` rendered at `lado`x`lado` at least, or `None` when
/// the data does not fit in a QR code. It depends on the data and the size
/// alone.
pub uninterp spec fn qr_svg(datos: Seq<char>, lado: u32) -> Option<Seq<char>>;

/// `QrCode::new(datos)` rendered as SVG with minimum dimensions
/// `lado`x`lado`; the renderer's sizes are `u32` sums and products that
/// overflow near `u32::MAX`, so `lado` is kept well below. The error's text
/// is not stated.
#[verifier::external_body]
pub fn generar_qr_svg(datos: &str, lado: u32) -> (r: Result<String, String>)
    requires
        lado <= 1_000_000,
    ensures
        r is Ok <==> qr_svg(datos@, lado) is Some,
        r matches Ok(s) ==> qr_svg(datos@, lado) == Some(s@),
{
    match qrcode::QrCode::new(datos.as_bytes()) {
        Ok(code) => Ok(code.render::<qrcode::render::svg::Color>().min_dimensions(lado, lado).build()),
        Err(e) => Err(e.to_string()),
    }
}

/// What `base64`'s standard engine (`general_purpose::STANDARD`, padded)
/// decodes a text to, or `None` when the text is not valid base64. It
/// depends on the text alone.
pub uninterp spec fn base64_estandar(texto: Seq<char>) -> Option<Seq<u8>>;

/// `general_purpose::STANDARD.decode(texto)`. The error's text is not
/// stated.
#[verifier::external_body]
pub fn decodificar_base64(texto: &str) -> (r: Result<Vec<u8>, String>)
    ensures
        r is Ok <==> base64_estandar(texto@) is Some,
        r matches Ok(b) ==> base64_estandar(texto@) == Some(b@),
{
    base64::engine::general_purpose::STANDARD.decode(texto).map_err(|e| e.to_string())
}

/// `n` bytes from `rand`'s thread generator (`RngCore::fill_bytes`); only
/// their number is stated.
#[verifier::external_body]
pub fn bytes_aleatorios(n: usize) -> (r: Vec<u8>)
    ensures
        r@.len() == n,
{
    let mut v = vec![0u8; n];
    rand::thread_rng().fill_bytes(&mut v);
    v
}

/// `chrono::Utc::now().timestamp()`: seconds since the Unix epoch. Chrono
/// builds the time from the system clock since the epoch (it stops the
/// program for a clock before 1970) and refuses dates past the year 262142,
/// so the value lies between 0 and 8.4e12; nothing else is stated.
#[verifier::external_body]
pub fn ahora_unix() -> (r: i64)
    ensures
        0 <= r <= 8_400_000_000_000,
{
    chrono::Utc::now().timestamp()
}

/// `uuid::Uuid::new_v4().to_string()`: a random id in its hyphenated form,
/// which has 36 characters.
#[verifier::external_body]
pub fn uuid_v4() -> (r: String)
    ensures
        r@.len() == 36,
{
    uuid::Uuid::new_v4().to_string()
}

} // verus!
