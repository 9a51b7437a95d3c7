use moto_pos::texto::{
    dividir, es_blanco, escapar_apostrofes, escapar_comillas, lineas, normalizar_texto, quitar_prefijo,
    recortar, truncar, unir_lista,
};
use moto_pos::numero::{formato_i64, formato_u64, parse_i64, parse_u16, texto_i64};

#[test]
fn normalizar_quita_mayusculas_y_acentos() {
    assert_eq!(normalizar_texto("ÁRBOL Ñandú"), "arbol nandu");
    assert_eq!(normalizar_texto("Pingüino ÉXITO"), "pinguino exito");
}

#[test]
fn recortar_quita_espacios_unicode() {
    assert_eq!(recortar("  hola \t\n"), "hola");
    assert_eq!(recortar("\u{3000}x\u{00A0}"), "x");
    assert!(es_blanco(" \t "));
    assert!(!es_blanco(" a "));
}

#[test]
fn truncar_con_puntos_suspensivos() {
    assert_eq!(truncar("abcdef", 4), "abc…");
    assert_eq!(truncar("abc", 5), "abc");
    assert_eq!(truncar("abc", 3), "abc");
}

#[test]
fn escapes_de_comillas() {
    assert_eq!(escapar_apostrofes("O'Brien"), "O''Brien");
    assert_eq!(escapar_comillas("di \"hola\""), "di \\\"hola\\\"");
}

#[test]
fn dividir_conserva_piezas_vacias() {
    assert_eq!(dividir("a|b||c", '|'), vec!["a", "b", "", "c"]);
    assert_eq!(dividir("", '|'), vec![""]);
}

#[test]
fn lineas_como_str_lines() {
    assert_eq!(lineas("uno\r\ndos\n\ntres\n"), vec!["uno", "dos", "", "tres"]);
    assert_eq!(lineas(""), Vec::<String>::new());
    assert_eq!(lineas("solo"), vec!["solo"]);
    let texto = "a\r\nb\r";
    let esperado: Vec<String> = texto.lines().map(|s| s.to_string()).collect();
    assert_eq!(lineas(texto), esperado);
}

#[test]
fn quitar_prefijo_bearer() {
    assert_eq!(quitar_prefijo("Bearer abc", "Bearer "), Some("abc".to_string()));
    assert_eq!(quitar_prefijo("Basic abc", "Bearer "), None);
}

#[test]
fn unir_lista_con_separador() {
    let v = vec!["a".to_string(), "b".to_string(), "c".to_string()];
    assert_eq!(unir_lista(&v, ", "), "a, b, c");
    assert_eq!(unir_lista(&Vec::new(), ", "), "");
}

#[test]
fn formatos_de_enteros() {
    assert_eq!(formato_i64(42, 6), "000042");
    assert_eq!(formato_i64(-5, 3), "-05");
    assert_eq!(formato_i64(1234567, 6), "1234567");
    assert_eq!(formato_u64(7, 0), "7");
    assert_eq!(texto_i64(-120), "-120");
    assert_eq!(formato_i64(42, 6), format!("{:06}", 42));
    assert_eq!(formato_i64(-5, 3), format!("{:03}", -5));
}

#[test]
fn parseo_de_enteros() {
    assert_eq!(parse_i64("-17"), Some(-17));
    assert_eq!(parse_i64("+5"), Some(5));
    assert_eq!(parse_i64("12a"), None);
    assert_eq!(parse_i64(""), None);
    assert_eq!(parse_i64("9223372036854775808"), None);
    assert_eq!(parse_u16("8080"), Some(8080));
    assert_eq!(parse_u16("65536"), None);
    assert_eq!(parse_u16("-0"), None);
}
