use moto_pos::emparejamiento::{a_hex, emitir_emparejamiento, generar_emparejamiento, PairingStore};
use moto_pos::movil::cerrar_canje;

#[test]
fn hexadecimal_en_minusculas() {
    assert_eq!(a_hex(&vec![0x00, 0xAB, 0x7F, 0xFF]), "00ab7fff");
    assert_eq!(a_hex(&vec![]), "");
}

#[test]
fn token_emitido_se_canjea_hasta_expirar() {
    let mut s = PairingStore::nuevo();
    let bytes: Vec<u8> = (0u8..32).collect();
    let qr = emitir_emparejamiento(&mut s, &bytes, 1_000, "192.168.1.5", 8787).unwrap();
    assert_eq!(qr.token, a_hex(&bytes));
    assert_eq!(qr.url, format!("https://192.168.1.5:8787/pairing?token={}", qr.token));
    assert_eq!(qr.expires_in, 300);
    assert!(qr.qr_svg.starts_with("<?xml") || qr.qr_svg.contains("<svg"));
    assert_eq!(s.validar(&qr.token, 1_300), Ok(()));
    assert_eq!(s.validar(&qr.token, 1_301), Err("Token expirado".to_string()));
    assert_eq!(s.validar("otro", 1_000), Err("Token inválido o expirado".to_string()));
}

#[test]
fn token_canjeado_no_se_reusa() {
    let mut s = PairingStore::nuevo();
    s.insertar("abc".to_string(), 500);
    cerrar_canje(&mut s, "abc", false);
    assert_eq!(s.validar("abc", 100), Ok(()));
    cerrar_canje(&mut s, "abc", true);
    assert_eq!(s.validar("abc", 100), Err("Token inválido o expirado".to_string()));
}

#[test]
fn purga_de_tokens_expirados() {
    let mut s = PairingStore::nuevo();
    s.insertar("viejo".to_string(), 100);
    s.insertar("justo".to_string(), 200);
    s.insertar("nuevo".to_string(), 300);
    s.purgar(200);
    assert!(s.validar("viejo", 0).is_err());
    assert!(s.validar("justo", 0).is_err());
    assert_eq!(s.validar("nuevo", 250), Ok(()));
}

#[test]
fn reemplazo_de_token_repetido() {
    let mut s = PairingStore::nuevo();
    s.insertar("t".to_string(), 100);
    s.insertar("t".to_string(), 900);
    assert_eq!(s.validar("t", 800), Ok(()));
    s.quitar("t");
    assert!(s.validar("t", 0).is_err());
}

#[test]
fn emparejamiento_aleatorio() {
    let mut s = PairingStore::nuevo();
    let qr = generar_emparejamiento(&mut s, "10.0.0.2", 8788).unwrap();
    assert_eq!(qr.token.len(), 64);
    assert!(qr.token.chars().all(|c| c.is_ascii_hexdigit() && !c.is_ascii_uppercase()));
    assert!(qr.url.starts_with("https://10.0.0.2:8788/pairing?token="));
    let ahora = chrono::Utc::now().timestamp();
    assert_eq!(s.validar(&qr.token, ahora), Ok(()));
}
