use omegactrl::catalogo::{cargar_catalogo_css, EntradaCatalogoCss};
use omegactrl::mapa::MapaUsuario;
use omegactrl::sesion::{
    aplicado_tras_eliminar, aplicado_tras_renombrar, aplicar_apariencia,
    cargar_tema_aplicado_desde_config, establecer_sesion_apariencia,
    establecer_tema_aplicado_en_memoria, limpiar_overrides_css, restablecer_claves_css,
    sesion_apariencia_reiniciar, sesion_guardada, tema_aplicado_actual, tema_configurado,
    tema_sesion_cargar, tras_aplicar, EstadoApariencia,
};

fn par(a: &str, b: &str) -> (String, String) {
    (a.to_string(), b.to_string())
}

const APARIENCIA: &str = "nivel\tid\tnombre_ui\tvalor_defecto\ttipo\n\
1\tcolor-tema\tColor de tema\t\t\n\
0\tfondo\tFondo\t#112233\tcolor\n\
0\ttexto\tTexto\t#FFFFFF\tcolor\n\
1\totros\tOtros\t\t\n\
0\tborde\tBorde\t#112233\tcolor\n\
0\ttam\tTamaño\t16px\tpixeles\n";

fn catalogo() -> Vec<EntradaCatalogoCss> {
    match cargar_catalogo_css(APARIENCIA) {
        Ok(c) => c,
        Err(_) => panic!("catálogo de prueba inválido"),
    }
}

fn base() -> MapaUsuario {
    let mut b = MapaUsuario::nuevo();
    b.insertar("fondo".to_string(), "#112233".to_string());
    b.insertar("texto".to_string(), "#FFFFFF".to_string());
    b.insertar("borde".to_string(), "#112233".to_string());
    b.insertar("tam".to_string(), "16px".to_string());
    b
}

fn mapa() -> MapaUsuario {
    let mut m = MapaUsuario::nuevo();
    m.insertar("tiempo_doble".to_string(), "300".to_string());
    m.insertar("css.tam".to_string(), "20px".to_string());
    m
}

#[test]
fn aplicar_sigue_los_vinculos_y_guarda_solo_diferencias() {
    let c = catalogo();
    let mut m = mapa();
    let sesion = Ok(("Oscuro".to_string(), "usuario".to_string(), base()));
    let r = aplicar_apariencia(&c, &mut m, sesion, &[par("fondo", " #445566 ")]);
    match r {
        Ok((n, o, b)) => {
            assert_eq!(n, "Oscuro");
            assert_eq!(o, "usuario");
            assert_eq!(b.entradas(), base().entradas());
        },
        Err(e) => panic!("{:?}", e),
    }
    assert_eq!(
        m.entradas(),
        vec![
            par("css.borde", "#445566"),
            par("css.fondo", "#445566"),
            par("css.tam", "20px"),
            par("tema.nombre", "Oscuro"),
            par("tema.origen", "usuario"),
            par("tiempo_doble", "300"),
        ]
    );
}

#[test]
fn un_color_editado_aparte_no_sigue_al_vinculo() {
    let c = catalogo();
    let mut m = mapa();
    m.insertar("css.borde".to_string(), "#999999".to_string());
    let sesion = Ok(("Default".to_string(), "predefinido".to_string(), base()));
    assert!(aplicar_apariencia(&c, &mut m, sesion, &[par("fondo", "#445566")]).is_ok());
    assert_eq!(m.obtener("css.borde"), Some("#999999".to_string()));
    assert_eq!(m.obtener("css.fondo"), Some("#445566".to_string()));
}

#[test]
fn un_valor_igual_al_de_fabrica_no_se_guarda() {
    let c = catalogo();
    let mut m = mapa();
    let sesion = Ok(("Default".to_string(), "predefinido".to_string(), base()));
    assert!(aplicar_apariencia(&c, &mut m, sesion, &[par("tam", "16px"), par("texto", "#ffffff")]).is_ok());
    assert_eq!(
        m.entradas(),
        vec![
            par("tema.nombre", "Default"),
            par("tema.origen", "predefinido"),
            par("tiempo_doble", "300"),
        ]
    );
}

#[test]
fn aplicar_rechaza_sin_tocar_nada() {
    let c = catalogo();
    let mut m = mapa();
    let antes = m.entradas();
    let sesion = Ok(("Default".to_string(), "predefinido".to_string(), base()));
    assert_eq!(
        aplicar_apariencia(&c, &mut m, sesion, &[par("fondo", "rojo")]).err(),
        Some(vec![par("fondo", "Color inválido, debe tener el formato #RRGGBB: \"rojo\"")])
    );
    assert_eq!(m.entradas(), antes);
    let sin_sesion = Err("El tema \"X\" no existe".to_string());
    assert_eq!(
        aplicar_apariencia(&c, &mut m, sin_sesion, &[par("fondo", "#000000")]).err(),
        Some(vec![par("", "El tema \"X\" no existe")])
    );
    assert_eq!(m.entradas(), antes);
}

#[test]
fn quitar_override_deja_el_valor_del_tema() {
    let c = catalogo();
    let mut m = mapa();
    m.insertar("css.fondo".to_string(), "#000000".to_string());
    let mut b = base();
    b.insertar("fondo".to_string(), "#ABCDEF".to_string());
    restablecer_claves_css(
        &c,
        &mut m,
        Some(&b),
        &["fondo".to_string(), "tam".to_string(), "nada".to_string()],
    );
    assert_eq!(
        m.entradas(),
        vec![par("css.fondo", "#ABCDEF"), par("tiempo_doble", "300")]
    );
    restablecer_claves_css(&c, &mut m, None, &["fondo".to_string()]);
    assert_eq!(m.entradas(), vec![par("tiempo_doble", "300")]);
}

#[test]
fn estado_del_tema_aplicado() {
    let mut e = EstadoApariencia::nuevo();
    assert_eq!(tema_aplicado_actual(&e), par("Default", "predefinido"));
    establecer_tema_aplicado_en_memoria(&mut e, "Mio", "usuario");
    assert_eq!(tema_aplicado_actual(&e), par("Mio", "usuario"));
    assert_eq!(aplicado_tras_renombrar(&e, "Mio", "Nuevo"), Some(par("Nuevo", "usuario")));
    assert_eq!(aplicado_tras_renombrar(&e, "Otro", "Nuevo"), None);
    assert_eq!(aplicado_tras_eliminar(&e, "Mio"), Some(par("Default", "predefinido")));
    assert_eq!(aplicado_tras_eliminar(&e, "Otro"), None);
    establecer_tema_aplicado_en_memoria(&mut e, "Mio", "predefinido");
    assert_eq!(aplicado_tras_eliminar(&e, "Mio"), None);
}

#[test]
fn sesion_de_apariencia() {
    let mut e = EstadoApariencia::nuevo();
    assert!(sesion_guardada(&e).is_none());
    let mut m = mapa();
    let v = tema_sesion_cargar(&mut e, &mut m, "Claro", "predefinido", base());
    assert_eq!(v.entradas(), base().entradas());
    assert_eq!(m.entradas(), vec![par("tiempo_doble", "300")]);
    match sesion_guardada(&e) {
        Some((n, o, b)) => {
            assert_eq!((n, o), par("Claro", "predefinido"));
            assert_eq!(b.entradas(), base().entradas());
        },
        None => panic!("sin sesión"),
    }
    assert_eq!(sesion_apariencia_reiniciar(&mut e), par("Default", "predefinido"));
    assert!(sesion_guardada(&e).is_none());
    tras_aplicar(&mut e, ("Claro".to_string(), "predefinido".to_string(), base()));
    assert_eq!(tema_aplicado_actual(&e), par("Claro", "predefinido"));
    assert!(sesion_guardada(&e).is_some());
    establecer_sesion_apariencia(&mut e, None);
    assert!(sesion_guardada(&e).is_none());
    let mut m2 = mapa();
    limpiar_overrides_css(&mut m2);
    assert_eq!(m2.entradas(), vec![par("tiempo_doble", "300")]);
}

#[test]
fn tema_aplicado_desde_la_configuracion() {
    let mut m = MapaUsuario::nuevo();
    assert_eq!(tema_configurado(&m), None);
    m.insertar("tema.nombre".to_string(), "  ".to_string());
    m.insertar("tema.origen".to_string(), "usuario".to_string());
    assert_eq!(tema_configurado(&m), None);
    m.insertar("tema.nombre".to_string(), " Mio ".to_string());
    assert_eq!(tema_configurado(&m), Some(par("Mio", "usuario")));
    let mut e = EstadoApariencia::nuevo();
    cargar_tema_aplicado_desde_config(&mut e, tema_configurado(&m), true);
    assert_eq!(tema_aplicado_actual(&e), par("Mio", "usuario"));
    cargar_tema_aplicado_desde_config(&mut e, tema_configurado(&m), false);
    assert_eq!(tema_aplicado_actual(&e), par("Default", "predefinido"));
    establecer_tema_aplicado_en_memoria(&mut e, "Mio", "usuario");
    cargar_tema_aplicado_desde_config(&mut e, None, true);
    assert_eq!(tema_aplicado_actual(&e), par("Default", "predefinido"));
}

#[test]
fn el_tema_registrado_se_encuentra_al_iniciar() {
    let mut m = MapaUsuario::nuevo();
    omegactrl::ajustes::guardar_tema_aplicado(&mut m, " Mio ", "usuario ");
    assert_eq!(tema_configurado(&m), Some(par("Mio", "usuario")));
    omegactrl::ajustes::guardar_tema_aplicado(&mut m, "", "usuario");
    assert_eq!(tema_configurado(&m), None);
}
