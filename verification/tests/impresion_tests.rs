use moto_pos::escpos::{
    centrado, cortar_papel, init, linea_divisoria, linea_kv, negrita_on, raster_escpos, ticket_prueba,
};
use moto_pos::impresoras::{impresoras_lpstat, impresoras_windows, validar_impresora, wide};

#[test]
fn comandos_escpos() {
    let mut b = Vec::new();
    init(&mut b);
    centrado(&mut b);
    negrita_on(&mut b);
    cortar_papel(&mut b);
    assert_eq!(b, vec![0x1B, 0x40, 0x1B, 0x61, 1, 0x1B, 0x45, 1, 0x1D, 0x56, 0x42, 0]);
}

#[test]
fn lineas_de_ticket() {
    let mut b = Vec::new();
    linea_divisoria(&mut b, 5);
    assert_eq!(b, b"-----\n".to_vec());
    let mut b = Vec::new();
    linea_kv(&mut b, "TOTAL:", "$10.00", 16);
    assert_eq!(b, b"TOTAL:    $10.00\n".to_vec());
    let mut b = Vec::new();
    linea_kv(&mut b, "ETIQUETA-LARGA:", "$1.00", 10);
    assert_eq!(b, b"ETIQUETA-LARGA:$1.00\n".to_vec());
}

#[test]
fn ticket_de_prueba_empieza_y_corta() {
    let b = ticket_prueba("EPSON", "2024-01-01 10:00");
    assert_eq!(&b[..2], &[0x1B, 0x40]);
    assert_eq!(&b[b.len() - 4..], &[0x1D, 0x56, 0x42, 0]);
    let texto = String::from_utf8_lossy(&b);
    assert!(texto.contains("EPSON"));
}

#[test]
fn raster_de_imagen() {
    // 9 x 1 image: first and last pixel black.
    let mut negros = vec![false; 9];
    negros[0] = true;
    negros[8] = true;
    let b = raster_escpos(&negros, 9, 1);
    // Reset, GS v 0, mode 0, width in bytes (2), height (1), the row, three
    // line feeds and the cut.
    assert_eq!(
        b,
        vec![0x1B, 0x40, 0x1D, 0x76, 0x30, 0x00, 2, 0, 1, 0, 0x80, 0x80, 10, 10, 10, 0x1D, 0x56, 0x42, 0]
    );
}

#[test]
fn impresoras_de_cups() {
    let salida = "printer EPSON is idle.  enabled since x\nprinter HP is idle.\n";
    let v = impresoras_lpstat(salida, Some("system default destination: HP\n"));
    assert_eq!(v.len(), 2);
    assert_eq!(v[0].nombre, "EPSON");
    assert!(!v[0].default);
    assert_eq!(v[1].nombre, "HP");
    assert!(v[1].default);
}

#[test]
fn impresoras_de_windows() {
    let v = impresoras_windows("EPSON TM\r\n\r\nPDF\r\n", Some("PDF"));
    assert_eq!(v.len(), 2);
    assert_eq!(v[0].nombre, "EPSON TM");
    assert!(v[1].default);
}

#[test]
fn impresora_requerida() {
    assert_eq!(validar_impresora("  EPSON "), Ok("EPSON".to_string()));
    assert_eq!(validar_impresora("  "), Err("Debes especificar una impresora".to_string()));
}

#[test]
fn utf16_con_cero_final() {
    assert_eq!(wide("Añ"), vec![0x41, 0xF1, 0]);
    assert_eq!(wide("😀"), vec![0xD83D, 0xDE00, 0]);
}
