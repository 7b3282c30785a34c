use omegactrl::ajustes::{
    guardar_ancho_panel_ayuda, guardar_dispositivo_mouse, guardar_dispositivo_teclado,
    guardar_iniciar_con_perfil, guardar_iniciar_con_windows, guardar_iniciar_minimizado,
    guardar_minimizar_a_bandeja, guardar_modo_motor, guardar_mostrar_en_bandeja, guardar_tema_aplicado,
    guardar_visible_panel_ayuda, leer_ancho_panel_ayuda, leer_dispositivo_mouse,
    leer_dispositivo_teclado, leer_iniciar_con_perfil, leer_iniciar_con_windows,
    leer_iniciar_minimizado, leer_minimizar_a_bandeja, leer_modo_motor, leer_mostrar_en_bandeja,
    leer_visible_panel_ayuda, perfil_a_validar, primer_inicio, validar_iniciar_con_perfil,
};
use omegactrl::mapa::MapaUsuario;

fn par(a: &str, b: &str) -> (String, String) {
    (a.to_string(), b.to_string())
}

#[test]
fn dispositivos_se_leen_como_se_guardan() {
    let mut m = MapaUsuario::nuevo();
    assert_eq!(leer_dispositivo_teclado(&m), None);
    guardar_dispositivo_teclado(&mut m, -3);
    guardar_dispositivo_mouse(&mut m, i32::MAX);
    assert_eq!(leer_dispositivo_teclado(&m), Some(-3));
    assert_eq!(leer_dispositivo_mouse(&m), Some(i32::MAX));
    assert_eq!(
        m.entradas(),
        vec![par("dispositivo.mouse", "2147483647"), par("dispositivo.teclado", "-3")]
    );
}

#[test]
fn dispositivo_ilegible_es_ninguno() {
    let mut m = MapaUsuario::nuevo();
    m.insertar("dispositivo.teclado".to_string(), "abc".to_string());
    assert_eq!(leer_dispositivo_teclado(&m), None);
    m.insertar("dispositivo.teclado".to_string(), " 12 ".to_string());
    assert_eq!(leer_dispositivo_teclado(&m), Some(12));
}

#[test]
fn modo_motor_recortado() {
    let mut m = MapaUsuario::nuevo();
    guardar_modo_motor(&mut m, " portable ");
    assert_eq!(m.obtener("motor.modo"), Some(" portable ".to_string()));
    assert_eq!(leer_modo_motor(&m), Some("portable".to_string()));
}

#[test]
fn panel_de_ayuda() {
    let mut m = MapaUsuario::nuevo();
    assert_eq!(leer_ancho_panel_ayuda(&m), None);
    guardar_ancho_panel_ayuda(&mut m, 320);
    guardar_visible_panel_ayuda(&mut m, false);
    assert_eq!(leer_ancho_panel_ayuda(&m), Some(320));
    assert_eq!(leer_visible_panel_ayuda(&m), Some(false));
    assert_eq!(m.obtener("ayuda.visible"), Some("false".to_string()));
}

#[test]
fn opciones_de_inicio_y_bandeja() {
    let mut m = MapaUsuario::nuevo();
    guardar_iniciar_con_windows(&mut m, true);
    guardar_iniciar_minimizado(&mut m, false);
    guardar_mostrar_en_bandeja(&mut m, true);
    guardar_minimizar_a_bandeja(&mut m, true);
    assert_eq!(leer_iniciar_con_windows(&m), Some(true));
    assert_eq!(leer_iniciar_minimizado(&m), Some(false));
    assert_eq!(leer_mostrar_en_bandeja(&m), Some(true));
    assert_eq!(leer_minimizar_a_bandeja(&m), Some(true));
    m.insertar("inicio.con_windows".to_string(), "si".to_string());
    assert_eq!(leer_iniciar_con_windows(&m), None);
}

#[test]
fn perfil_de_inicio() {
    let mut m = MapaUsuario::nuevo();
    assert_eq!(perfil_a_validar(&m), None);
    guardar_iniciar_con_perfil(&mut m, "ultimo");
    assert_eq!(perfil_a_validar(&m), None);
    guardar_iniciar_con_perfil(&mut m, " Juegos ");
    assert_eq!(leer_iniciar_con_perfil(&m), Some("Juegos".to_string()));
    assert_eq!(perfil_a_validar(&m), Some("Juegos".to_string()));
    validar_iniciar_con_perfil(&mut m, true);
    assert_eq!(leer_iniciar_con_perfil(&m), Some("Juegos".to_string()));
    validar_iniciar_con_perfil(&mut m, false);
    assert_eq!(leer_iniciar_con_perfil(&m), Some("ultimo".to_string()));
}

#[test]
fn primer_inicio_sin_archivo() {
    assert!(primer_inicio(Ok(false)));
    assert!(!primer_inicio(Ok(true)));
    assert!(primer_inicio(Err("sin APPDATA".to_string())));
}

#[test]
fn tema_aplicado_queda_registrado() {
    let mut m = MapaUsuario::nuevo();
    guardar_tema_aplicado(&mut m, "Oscuro", "usuario");
    assert_eq!(m.entradas(), vec![par("tema.nombre", "Oscuro"), par("tema.origen", "usuario")]);
}
