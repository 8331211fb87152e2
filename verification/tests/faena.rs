use faena_etiquetas::app::{App, Startup};
use faena_etiquetas::config::Config;
use faena_etiquetas::estado::{AppStatus, QueryError, RemoteError};
use faena_etiquetas::tabla::Etiquetas;

fn fila(id: u8, enable: bool, etiqueta: &str, label: &str, color: &str) -> Etiquetas {
    Etiquetas {
        id,
        enable,
        etiqueta: etiqueta.to_string(),
        label: label.to_string(),
        color: color.to_string(),
    }
}

/// Cinco filas, tres habilitadas.
fn cinco_filas() -> Vec<Etiquetas> {
    vec![
        fila(1, true, "A1", "Etiqueta A1", "#ff0000"),
        fila(2, false, "B2", "Etiqueta B2", "#00ff00"),
        fila(3, true, "C3", "Etiqueta C3", "#0000ff"),
        fila(4, false, "D4", "Etiqueta D4", "#123456"),
        fila(5, true, "E5", "Etiqueta E5", "#abcdef78"),
    ]
}

fn app_conectada() -> App {
    App::new(
        Config { is_dpi300: true },
        Startup::Connected {
            table: Ok(cinco_filas()),
            ids: Ok("11,12,13".to_string()),
        },
    )
}

fn fallo_lectura() -> QueryError {
    QueryError {
        detalle: "lectura fallida".to_string(),
    }
}

#[test]
fn arranque_conectado_cuenta_habilitadas() {
    let app = app_conectada();
    assert_eq!(app.enables_count, 3);
    assert_eq!(app.status, AppStatus::Idle);
    assert!(app.connected);
    assert!(!app.pending);
    assert_eq!(app.faena_ids, "11,12,13");
    assert_eq!(app.table.as_ref().map(|t| t.len()), Some(5));
}

#[test]
fn arranque_con_lectura_fallida() {
    let app = App::new(
        Config { is_dpi300: true },
        Startup::Connected {
            table: Err(fallo_lectura()),
            ids: Err(fallo_lectura()),
        },
    );
    assert_eq!(app.status, AppStatus::Error);
    assert_eq!(app.enables_count, 0);
    assert!(app.table.is_none());
    assert_eq!(app.faena_ids, "");
    assert!(app.connected);
}

#[test]
fn proyeccion_exactamente_las_habilitadas_en_orden() {
    let app = app_conectada();
    let botones = app.grid_buttons();
    assert_eq!(botones.len(), 3);
    assert_eq!(botones[0].etiqueta, "A1");
    assert_eq!(botones[1].etiqueta, "C3");
    assert_eq!(botones[2].etiqueta, "E5");
    assert_eq!(botones[0].label, "Etiqueta A1");
    assert!(botones.iter().all(|b| b.activo));
    let c = botones[2].color.unwrap();
    assert_eq!((c.r, c.g, c.b, c.a), (0xAB, 0xCD, 0xEF, 0x78));
}

#[test]
fn contador_coincide_con_proyeccion() {
    let app = app_conectada();
    assert_eq!(app.enables_count, app.grid_buttons().len());
    let vacia = App::new(
        Config { is_dpi300: false },
        Startup::Connected {
            table: Ok(vec![fila(1, false, "A1", "A1", "#ff0000")]),
            ids: Ok("9".to_string()),
        },
    );
    assert_eq!(vacia.enables_count, 0);
    assert_eq!(vacia.enables_count, vacia.grid_buttons().len());
}

#[test]
fn click_despacha_con_token_y_lote() {
    let mut app = app_conectada();
    let cmd = app.click_label("A1").expect("debe despachar");
    assert_eq!(cmd.etiqueta, "A1");
    assert_eq!(cmd.ids, "11,12,13");
    assert_eq!(app.status, AppStatus::Loading);
    assert!(app.pending);
}

#[test]
fn un_solo_vuelo_segundo_click_es_noop() {
    let mut app = app_conectada();
    assert!(app.click_label("A1").is_some());
    assert!(app.pending);
    let segundo = app.click_label("C3");
    assert!(segundo.is_none());
    assert_eq!(app.status, AppStatus::Loading);
    assert!(app.pending);
}

#[test]
fn click_sobre_fila_deshabilitada_es_noop() {
    let mut app = app_conectada();
    assert!(app.click_label("B2").is_none());
    assert_eq!(app.status, AppStatus::Idle);
    assert!(!app.pending);
}

#[test]
fn click_sobre_token_inexistente_es_noop() {
    let mut app = app_conectada();
    assert!(app.click_label("Z9").is_none());
    assert_eq!(app.status, AppStatus::Idle);
}

#[test]
fn click_sobre_color_malformado_es_noop() {
    let mut app = App::new(
        Config { is_dpi300: true },
        Startup::Connected {
            table: Ok(vec![fila(1, true, "A1", "A1", "no-color")]),
            ids: Ok("1".to_string()),
        },
    );
    let botones = app.grid_buttons();
    assert_eq!(botones.len(), 1);
    assert!(botones[0].color.is_none());
    assert!(!botones[0].activo);
    assert!(app.click_label("A1").is_none());
    assert_eq!(app.status, AppStatus::Idle);
}

#[test]
fn exito_pide_refresco() {
    let mut app = app_conectada();
    app.click_label("A1").unwrap();
    let refrescar = app.update(Some(Ok(())));
    assert!(refrescar);
    assert_eq!(app.status, AppStatus::Okay);
    assert!(!app.pending);
}

#[test]
fn rechazo_esperado_avisa_y_refresca() {
    let mut app = app_conectada();
    app.click_label("A1").unwrap();
    let refrescar = app.update(Some(Err(RemoteError { code: Some(57450) })));
    assert!(refrescar);
    assert_eq!(app.status, AppStatus::Warn);
    assert!(!app.pending);
    let nuevas = vec![fila(1, true, "A1", "A1", "#ff0000")];
    app.apply_refresh(Ok(nuevas));
    assert_eq!(app.enables_count, 1);
    assert_eq!(app.status, AppStatus::Warn);
}

#[test]
fn fallo_no_reconocido_no_refresca() {
    let mut app = app_conectada();
    app.click_label("A1").unwrap();
    let tabla_previa = app.table.clone();
    let refrescar = app.update(Some(Err(RemoteError { code: Some(1) })));
    assert!(!refrescar);
    assert_eq!(app.status, AppStatus::Error);
    assert_eq!(app.table, tabla_previa);
    assert!(!app.pending);
}

#[test]
fn fallo_sin_codigo_no_refresca() {
    let mut app = app_conectada();
    app.click_label("A1").unwrap();
    let refrescar = app.update(Some(Err(RemoteError { code: None })));
    assert!(!refrescar);
    assert_eq!(app.status, AppStatus::Error);
}

#[test]
fn cuadro_sin_desenlace_no_cambia_nada() {
    let mut app = app_conectada();
    app.click_label("A1").unwrap();
    let refrescar = app.update(None);
    assert!(!refrescar);
    assert_eq!(app.status, AppStatus::Loading);
    assert!(app.pending);
}

#[test]
fn refresco_reemplaza_la_instantanea_entera() {
    let mut app = app_conectada();
    let nuevas = vec![
        fila(1, true, "A1", "A1", "#ff0000"),
        fila(2, true, "B2", "B2", "#00ff00"),
    ];
    app.apply_refresh(Ok(nuevas));
    assert_eq!(app.enables_count, 2);
    assert_eq!(app.table.as_ref().map(|t| t.len()), Some(2));
    assert_eq!(app.status, AppStatus::Idle);
}

#[test]
fn refresco_fallido_conserva_lo_anterior() {
    let mut app = app_conectada();
    let tabla_previa = app.table.clone();
    app.apply_refresh(Err(fallo_lectura()));
    assert_eq!(app.table, tabla_previa);
    assert_eq!(app.enables_count, 3);
    assert_eq!(app.status, AppStatus::Error);
}

#[test]
fn refresco_idempotente() {
    let mut una = app_conectada();
    let mut dos = app_conectada();
    let nuevas = vec![
        fila(7, true, "F7", "F7", "#777777"),
        fila(8, false, "G8", "G8", "#888888"),
    ];
    una.apply_refresh(Ok(nuevas.clone()));
    dos.apply_refresh(Ok(nuevas.clone()));
    dos.apply_refresh(Ok(nuevas));
    assert_eq!(una.table, dos.table);
    assert_eq!(una.enables_count, dos.enables_count);
}

#[test]
fn cerrar_el_cartel_vuelve_al_reposo() {
    let mut app = app_conectada();
    app.click_label("A1").unwrap();
    app.update(Some(Err(RemoteError { code: Some(57450) })));
    assert_eq!(app.status, AppStatus::Warn);
    app.dismiss();
    assert_eq!(app.status, AppStatus::Idle);
}

#[test]
fn cerrar_el_cartel_durante_la_espera_es_noop() {
    let mut app = app_conectada();
    app.click_label("A1").unwrap();
    app.dismiss();
    assert_eq!(app.status, AppStatus::Loading);
    assert!(app.pending);
}

#[test]
fn botones_inertes_durante_la_espera() {
    let mut app = app_conectada();
    app.click_label("A1").unwrap();
    let botones = app.grid_buttons();
    assert_eq!(botones.len(), 3);
    assert!(botones.iter().all(|b| !b.activo));
}

#[test]
fn alternar_modo_persiste_y_refresca() {
    let mut app = app_conectada();
    assert!(app.config.is_dpi300);
    let refrescar = app.toggle_mode();
    assert!(refrescar);
    assert!(!app.config.is_dpi300);
    let refrescar = app.toggle_mode();
    assert!(refrescar);
    assert!(app.config.is_dpi300);
}

#[test]
fn arranque_desconectado_degrada_todo() {
    let mut app = App::new(Config { is_dpi300: true }, Startup::Disconnected);
    assert_eq!(app.status, AppStatus::Error);
    assert!(!app.connected);
    assert!(app.table.is_none());
    assert_eq!(app.enables_count, 0);
    assert_eq!(app.faena_ids, "");
    assert!(app.grid_buttons().is_empty());
    assert!(!app.click_refresh());
    assert!(app.click_label("A1").is_none());
    assert_eq!(app.status, AppStatus::Error);
    let refrescar = app.toggle_mode();
    assert!(!refrescar);
    assert!(!app.config.is_dpi300);
    app.apply_refresh(Err(fallo_lectura()));
    assert!(app.table.is_none());
}

#[test]
fn configuracion_por_defecto() {
    let c: Config = Default::default();
    assert!(c.is_dpi300);
}

#[test]
fn ciclo_completo_de_transiciones() {
    let mut app = app_conectada();
    assert_eq!(app.status, AppStatus::Idle);
    app.click_label("C3").unwrap();
    assert_eq!(app.status, AppStatus::Loading);
    assert!(app.update(Some(Ok(()))));
    assert_eq!(app.status, AppStatus::Okay);
    app.dismiss();
    assert_eq!(app.status, AppStatus::Idle);
    app.click_label("E5").unwrap();
    assert!(!app.update(Some(Err(RemoteError { code: Some(2) }))));
    assert_eq!(app.status, AppStatus::Error);
    app.dismiss();
    assert_eq!(app.status, AppStatus::Idle);
}
