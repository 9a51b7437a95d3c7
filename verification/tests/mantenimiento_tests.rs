use moto_pos::mantenimiento::{
    a_eliminar, es_respaldo, migraciones_pendientes, nombre_respaldo, respaldo_auto_toca, sql_bitacora,
    sql_vacuum_into, toca_vacuum,
};

#[test]
fn nombres_de_respaldo() {
    assert_eq!(nombre_respaldo("20240506_101112"), "pos_backup_20240506_101112.db");
    assert!(es_respaldo("pos_backup_1.db", Some("db")));
    assert!(!es_respaldo("otro.db", Some("db")));
    assert!(!es_respaldo("pos_backup_1.txt", Some("txt")));
    assert!(!es_respaldo("pos_backup_1", None));
    assert_eq!(sql_vacuum_into("/tmp/d'Ana/x.db"), "VACUUM INTO '/tmp/d''Ana/x.db'");
}

#[test]
fn rotacion_conserva_los_treinta_mas_nuevos() {
    let nombres: Vec<String> = (1..=33).map(|i| format!("pos_backup_202401{:02}_000000.db", i)).collect();
    let borrar = a_eliminar(&nombres);
    // The three oldest (days 01, 02, 03) go.
    assert_eq!(borrar, vec![0, 1, 2]);
    assert!(a_eliminar(&nombres[..30].to_vec()).is_empty());
}

#[test]
fn respaldo_automatico_diario() {
    let v = vec!["pos_backup_20240505_230000.db".to_string()];
    assert!(respaldo_auto_toca(1, &v, "20240506"));
    assert!(!respaldo_auto_toca(1, &v, "20240505"));
    assert!(!respaldo_auto_toca(0, &v, "20240506"));
}

#[test]
fn vacuum_semanal() {
    let dia: i64 = 86_400_000_000_000;
    assert!(toca_vacuum(None, 0));
    assert!(toca_vacuum(Some(0), 7 * dia));
    assert!(!toca_vacuum(Some(0), 7 * dia - 1));
}

#[test]
fn migraciones_por_aplicar() {
    assert_eq!(migraciones_pendientes(0, 3), vec![1, 2, 3]);
    assert_eq!(migraciones_pendientes(2, 5), vec![3, 4, 5]);
    assert_eq!(migraciones_pendientes(5, 5), Vec::<i64>::new());
    assert_eq!(migraciones_pendientes(9, 5), Vec::<i64>::new());
    assert_eq!(migraciones_pendientes(-1, 2), vec![1, 2]);
}

#[test]
fn consulta_de_bitacora() {
    let s = sql_bitacora(None, None);
    assert!(s.ends_with("ORDER BY a.fecha DESC\n               LIMIT 200"));
    let s = sql_bitacora(Some(5), Some("VENTA' OR '1'='1"));
    assert!(s.contains("LIKE '%VENTA OR 1=1%'"));
    assert!(s.ends_with("LIMIT 5"));
}
