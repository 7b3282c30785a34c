use omegactrl::formato::{contenido_archivo, leer_mapa, pares_de_texto, ENCABEZADO_USUARIO};
use omegactrl::mapa::MapaUsuario;

fn par(a: &str, b: &str) -> (String, String) {
    (a.to_string(), b.to_string())
}

#[test]
fn leer_archivo_de_usuario() {
    let texto = "# comentario\n\n tiempo_doble = 250 \r\nsin_igual\ncss.fondo=#FFFFFF=x\n  # otro\nclave=\n";
    let m = leer_mapa(texto);
    assert_eq!(
        m.entradas(),
        vec![par("clave", ""), par("css.fondo", "#FFFFFF=x"), par("tiempo_doble", "250")]
    );
}

#[test]
fn la_ultima_linea_de_una_clave_gana() {
    let m = leer_mapa("a=1\na=2\n");
    assert_eq!(m.entradas(), vec![par("a", "2")]);
    assert_eq!(pares_de_texto("a=1\na=2\n"), vec![par("a", "1"), par("a", "2")]);
}

#[test]
fn escribir_archivo_de_usuario() {
    let mut m = MapaUsuario::nuevo();
    m.insertar("z".to_string(), "1".to_string());
    m.insertar("a".to_string(), "dos".to_string());
    let texto = contenido_archivo(&m);
    assert_eq!(texto, format!("{}a=dos\nz=1\n", ENCABEZADO_USUARIO));
    assert!(texto.starts_with("# Configuracion_Usuario.txt"));
}

#[test]
fn escribir_y_leer_da_el_mismo_mapa() {
    let mut m = MapaUsuario::nuevo();
    m.insertar("css.fondo".to_string(), "#112233".to_string());
    m.insertar("tema.nombre".to_string(), "Mi tema".to_string());
    m.insertar("tiempo_doble".to_string(), "300".to_string());
    let leido = leer_mapa(&contenido_archivo(&m));
    assert_eq!(leido.entradas(), m.entradas());
}

#[test]
fn valores_sin_recortar_se_leen_recortados() {
    let mut m = MapaUsuario::nuevo();
    omegactrl::ajustes::guardar_modo_motor(&mut m, "  portable\t");
    omegactrl::ajustes::guardar_iniciar_con_perfil(&mut m, " Juegos\r");
    m.insertar("vacio".to_string(), "   ".to_string());
    let leido = leer_mapa(&contenido_archivo(&m));
    assert_eq!(
        leido.entradas(),
        vec![par("inicio.con_perfil", "Juegos"), par("motor.modo", "portable"), par("vacio", "")]
    );
}

#[test]
fn lote_de_pulsadores_releido_del_archivo() {
    let mut m = MapaUsuario::nuevo();
    m.insertar("pulsador.A".to_string(), "Vieja".to_string());
    m.insertar("tiempo_doble".to_string(), "300".to_string());
    let cambios = vec![par("B", "  Tecla B "), par("A", "Nueva ")];
    assert_eq!(omegactrl::lotes::guardar_lote_pulsadores(&mut m, &cambios, &[true, true]), Ok(()));
    let releido = omegactrl::lotes::leer_overrides_pulsador(&leer_mapa(&contenido_archivo(&m)));
    assert_eq!(releido.entradas(), vec![par("A", "Nueva"), par("B", "Tecla B")]);
}
