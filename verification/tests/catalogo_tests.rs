use moto_pos::catalogo::texto_precio;
use moto_pos::catalogo::{
    codigo_dado, codigo_interno, descripcion_estado_pedido, descripcion_pedido, descripcion_recepcion,
    estado_tras_recepcion, folio_pedido, leer_linea, texto_busqueda, tipo_codigo, CacheProveedores,
    ConfigNegocio, LineaCatalogo, OrdenPedido, Recepcion, ResultadoFila, ResultadoImportacion,
    ResultadoProveedor,
};
use moto_pos::texto::lineas;

#[test]
fn codigos_internos() {
    assert_eq!(codigo_interno(0), (1, "MR-00001".to_string()));
    assert_eq!(codigo_interno(123456), (123457, "MR-123457".to_string()));
    assert_eq!(codigo_dado(Some("ABC".into())), Some("ABC".to_string()));
    assert_eq!(codigo_dado(Some(String::new())), None);
    assert_eq!(codigo_dado(None), None);
    assert_eq!(tipo_codigo(None), "INTERNO");
    assert_eq!(texto_busqueda("MR-1", "Bujía NGK", Some("Élite")), "mr-1 bujia ngk elite");
    assert_eq!(texto_busqueda("A", "B", None), "a b ");
}

#[test]
fn configuracion_por_defecto() {
    let c = ConfigNegocio::por_defecto();
    assert_eq!(c.nombre, "Moto Refaccionaria");
    assert_eq!(c.mensaje_pie, "¡Gracias por su compra!");
    assert!(c.respaldo_auto_activo);
    assert_eq!(c.respaldo_auto_hora, "23:00");
    assert_eq!(c.flag_respaldo(), 1);
}

#[test]
fn lectura_de_lineas_del_catalogo() {
    assert!(matches!(leer_linea("   "), LineaCatalogo::Vacia));
    assert!(matches!(leer_linea("A|B|1"), LineaCatalogo::Incompleta(3)));
    assert!(matches!(leer_linea(" |Nombre|1|2|P"), LineaCatalogo::SinDatos));
    match leer_linea("  MR-1 | Bujía | 35.5 | 10 |  NGK  ") {
        LineaCatalogo::Producto(f) => {
            assert_eq!(f.codigo, "MR-1");
            assert_eq!(f.nombre, "Bujía");
            assert_eq!(f.precio, " 35.5 ");
            assert_eq!(f.stock, " 10 ");
            assert_eq!(f.proveedor, "NGK");
        }
        _ => panic!("esperaba un producto"),
    }
}

#[test]
fn contabilidad_de_importacion() {
    let contenido = "A|B|1|2|P\n\nsolo|dos\n |x|1|1|\nC|D|3|4|\n";
    let mut r = ResultadoImportacion::nuevo();
    for (idx, l) in lineas(contenido).iter().enumerate() {
        let linea = leer_linea(l);
        let (prov, fila) = match &linea {
            LineaCatalogo::Producto(f) if f.codigo == "A" => (ResultadoProveedor::Creado(1), ResultadoFila::Insertado),
            LineaCatalogo::Producto(_) => (ResultadoProveedor::SinProveedor, ResultadoFila::Fallido("UNIQUE".into())),
            _ => (ResultadoProveedor::SinProveedor, ResultadoFila::Insertado),
        };
        r.registrar(idx + 1, &linea, &prov, &fila);
    }
    r.cerrar();
    assert_eq!(r.total_lineas, 4);
    assert_eq!(r.insertados, 1);
    assert_eq!(r.actualizados, 0);
    assert_eq!(r.omitidos, 3);
    assert_eq!(r.proveedores_creados, 1);
    assert_eq!(r.total_lineas, r.insertados + r.actualizados + r.omitidos);
    assert_eq!(
        r.errores,
        vec![
            "Línea 3: se esperaban 5 columnas, hay 2".to_string(),
            "Línea 5 (C): UNIQUE".to_string(),
        ]
    );
}

#[test]
fn error_de_proveedor_no_omite_el_producto() {
    let mut r = ResultadoImportacion::nuevo();
    let linea = leer_linea("X|Y|1|1|Prov");
    r.registrar(7, &linea, &ResultadoProveedor::Fallido("falla".into()), &ResultadoFila::Actualizado);
    assert_eq!(r.actualizados, 1);
    assert_eq!(r.omitidos, 0);
    assert_eq!(r.errores, vec!["Línea 7 proveedor 'Prov': falla".to_string()]);
}

#[test]
fn errores_truncados_a_cincuenta() {
    let mut r = ResultadoImportacion::nuevo();
    for i in 0..60 {
        r.registrar(i + 1, &LineaCatalogo::Incompleta(1), &ResultadoProveedor::SinProveedor, &ResultadoFila::Insertado);
    }
    r.cerrar();
    assert_eq!(r.errores.len(), 51);
    assert_eq!(r.errores[50], "... (truncado)");
    assert_eq!(r.errores[0], "Línea 1: se esperaban 5 columnas, hay 1");
    assert_eq!(r.omitidos, 60);
}

#[test]
fn cache_de_proveedores() {
    let mut c = CacheProveedores::nuevo();
    assert_eq!(c.buscar("ngk"), None);
    c.agregar("NGK", 1);
    c.agregar("Bosch", 2);
    assert_eq!(c.buscar("ngk"), Some(1));
    assert_eq!(c.buscar("BOSCH"), Some(2));
    c.agregar("ngk", 3);
    assert_eq!(c.buscar("Ngk"), Some(3));
}

#[test]
fn pedidos_y_recepciones() {
    assert_eq!(folio_pedido(12), "P-000012");
    assert_eq!(descripcion_pedido(3, 5), "Pedido #3 creado | 5 items");
    assert_eq!(descripcion_estado_pedido(3, "enviada"), "Pedido #3 → enviada");
    assert_eq!(estado_tras_recepcion(true), "recibida_completa");
    assert_eq!(estado_tras_recepcion(false), "recibida_parcial");
    assert_eq!(descripcion_recepcion(8, 2, None), "Recepción #8 | 2 items | Proveedor: N/A");
    assert_eq!(descripcion_recepcion(8, 2, Some(4)), "Recepción #8 | 2 items | Proveedor: 4");
    let o = OrdenPedido::creada(1, None, None, None, "f".into(), 2);
    assert_eq!(o.estado, "borrador");
    assert_eq!(o.usuario_nombre, "—");
    let r = Recepcion::registrada(1, Some("Ana".into()), None, "f".into(), None, 0);
    assert_eq!(r.usuario_nombre, "Ana");
}

#[test]
fn precio_en_registro_de_bitacora() {
    assert_eq!(texto_precio("{\"precio_venta\":12.50}"), Some("12.50".to_string()));
    assert_eq!(texto_precio("{\"precio_costo\":3,\"precio_venta\": 99 ,\"stock\":1}"), Some("99".to_string()));
    assert_eq!(texto_precio("{\"precio_venta\":7"), Some("7".to_string()));
    assert_eq!(texto_precio("{\"precio_costo\":3}"), None);
    assert_eq!(texto_precio(""), None);
}
