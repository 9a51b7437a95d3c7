use moto_pos::autenticacion::{descripcion_usuario_creado, descripcion_usuario_editado, descripcion_usuario_inicial};
use moto_pos::impresoras::con_autoimpresion;
use moto_pos::intercambio::operacion_es_borrado;
use moto_pos::mantenimiento::orden_descendente;

const SCRIPT: &str = "<script>window.onload=function(){window.print();}</script>";

#[test]
fn autoimpresion_antes_del_cierre_de_body() {
    let html = "<html><body><p>Ticket</p></body></html>";
    let esperado = format!("<html><body><p>Ticket</p>{}</body></html>", SCRIPT);
    assert_eq!(con_autoimpresion(html), esperado);
}

#[test]
fn autoimpresion_sin_body_se_agrega_al_final() {
    let html = "<p>Ticket</p>";
    assert_eq!(con_autoimpresion(html), format!("<p>Ticket</p>{}", SCRIPT));
    assert_eq!(con_autoimpresion(""), SCRIPT.to_string());
}

#[test]
fn autoimpresion_en_cada_cierre_de_body() {
    let html = "a</body>b</body>";
    let esperado = format!("a{s}</body>b{s}</body>", s = SCRIPT);
    assert_eq!(con_autoimpresion(html), esperado);
}

#[test]
fn respaldos_del_mas_nuevo_al_mas_viejo() {
    let nombres: Vec<String> = vec![
        "pos_backup_20240102_000000.db".to_string(),
        "pos_backup_20240305_120000.db".to_string(),
        "pos_backup_20231231_235959.db".to_string(),
        "pos_backup_20240305_090000.db".to_string(),
    ];
    let orden = orden_descendente(&nombres);
    assert_eq!(orden, vec![1, 3, 0, 2]);
}

#[test]
fn orden_de_lista_vacia_y_de_uno() {
    assert_eq!(orden_descendente(&Vec::new()), Vec::<usize>::new());
    assert_eq!(orden_descendente(&vec!["x".to_string()]), vec![0]);
}

#[test]
fn textos_de_bitacora_de_usuarios() {
    assert_eq!(descripcion_usuario_inicial("admin"), "Usuario inicial creado: admin");
    assert_eq!(descripcion_usuario_creado("Ana Pérez", "ana"), "Usuario creado: Ana Pérez (ana)");
    assert_eq!(descripcion_usuario_editado("Ana Pérez"), "Usuario editado: Ana Pérez");
}

#[test]
fn solo_delete_es_borrado() {
    assert!(operacion_es_borrado("DELETE"));
    assert!(!operacion_es_borrado("delete"));
    assert!(!operacion_es_borrado("UPDATE"));
    assert!(!operacion_es_borrado("INSERT"));
    assert!(!operacion_es_borrado(""));
}
