use omegactrl::catalogo::{cargar_catalogo, cargar_catalogo_css, EntradaCatalogo, ErrorCatalogo};
use omegactrl::lotes::{
    aplicar_valor, guardar_lote, guardar_lote_css, guardar_lote_pulsadores, leer_overrides,
    leer_overrides_css, leer_overrides_pulsador, restablecer_claves, restablecer_seccion, validar_lote,
    valores_de_fabrica, ValorAjuste,
};
use omegactrl::mapa::MapaUsuario;
use omegactrl::valores::{TipoValor, TipoValorCss};

fn par(a: &str, b: &str) -> (String, String) {
    (a.to_string(), b.to_string())
}

const GENERAL: &str = "nivel\tclave\tnombre_ui\tvalor_defecto\ttipo\r\n\
# comentario\n\
1\t\tTiempo (ms)\t\t\n\
0\ttiempo_doble\tDoble clic\t250\tnumero\n\
0\tmenu_boton_pequeno\tBotón\t80,30\tnumero_par\n\
\n\
1\t\tTeclas\t\t\n\
0\ttecla_toggle_perfil\tActivar perfil\tCtrl+F1\ttrigger\n\
0\tnombre\tNombre\t x \ttexto\n";

fn catalogo() -> Vec<EntradaCatalogo> {
    match cargar_catalogo(GENERAL) {
        Ok(c) => c,
        Err(_) => panic!("catálogo de prueba inválido"),
    }
}

#[test]
fn catalogo_general_leido() {
    let c = catalogo();
    assert_eq!(c.len(), 4);
    assert_eq!(c[0].clave, "tiempo_doble");
    assert_eq!(c[0].nombre_ui, "Doble clic");
    assert_eq!(c[0].valor_defecto, "250");
    assert_eq!(c[0].tipo, TipoValor::Numero);
    assert_eq!(c[0].grupo, "Tiempo (ms)");
    assert_eq!(c[1].tipo, TipoValor::NumeroPar);
    assert_eq!(c[2].grupo, "Teclas");
    assert_eq!(c[2].tipo, TipoValor::Trigger);
    assert_eq!(c[3].valor_defecto, "x");
}

#[test]
fn errores_del_catalogo_general() {
    assert!(matches!(cargar_catalogo("1\tx\n"), Err(ErrorCatalogo::Columnas { linea: 1 })));
    assert!(matches!(
        cargar_catalogo("# c\n2\ta\tb\tc\td\n"),
        Err(ErrorCatalogo::NivelDesconocido { ref nivel, linea: 2 }) if nivel == "2"
    ));
    assert!(matches!(
        cargar_catalogo("0\ta\tb\tc\tnumero\n"),
        Err(ErrorCatalogo::SinGrupo { linea: 1 })
    ));
    assert!(matches!(
        cargar_catalogo("1\t\tG\t\t\n0\t \tb\tc\tnumero\n"),
        Err(ErrorCatalogo::SinClave { linea: 2 })
    ));
    assert!(matches!(
        cargar_catalogo("1\t\tG\t\t\n0\ta.b\tb\tc\tnumero\n"),
        Err(ErrorCatalogo::ClaveConPunto { ref clave }) if clave == "a.b"
    ));
    assert!(matches!(
        cargar_catalogo("1\t\tG\t\t\n0\ta\tb\tc\tbooleano\n"),
        Err(ErrorCatalogo::TipoDesconocido { ref tipo, linea: 2 }) if tipo == "booleano"
    ));
    assert!(matches!(
        cargar_catalogo("1\t\tG\t\t\n0\ta\tb\tc\tnumero\n0\ta\tb\tc\ttexto\n"),
        Err(ErrorCatalogo::ClaveDuplicada { ref clave }) if clave == "a"
    ));
}

const APARIENCIA: &str = "nivel\tid\tnombre_ui\tvalor_defecto\ttipo\n\
1\tcolor-tema\tColor de tema\t\t\n\
0\tfondo\tFondo\t#112233\tcolor\n\
0\ttexto\tTexto\t#FFFFFF\tcolor\n\
1\totros\tOtros\t\t\n\
2\tsub\tSub\t\t\n\
0\tborde\tBorde\t#112233\tcolor\n\
0\ttam\tTamaño\t16px\tpixeles\n";

#[test]
fn catalogo_de_apariencia_leido() {
    let c = match cargar_catalogo_css(APARIENCIA) {
        Ok(c) => c,
        Err(_) => panic!("catálogo de prueba inválido"),
    };
    assert_eq!(c.len(), 7);
    assert_eq!(c[0].id, "color-tema");
    assert_eq!(c[0].nivel, 1);
    assert_eq!(c[1].tipo, TipoValorCss::Color);
    assert_eq!(c[6].tipo, TipoValorCss::Pixeles);
    assert_eq!(c[4].nivel, 2);
}

#[test]
fn errores_del_catalogo_de_apariencia() {
    assert!(matches!(cargar_catalogo_css("0\ta\tb\n"), Err(ErrorCatalogo::Columnas { linea: 1 })));
    assert!(matches!(
        cargar_catalogo_css("4\ta\tb\tc\tcolor\n"),
        Err(ErrorCatalogo::NivelInvalido { ref nivel, linea: 1 }) if nivel == "4"
    ));
    assert!(matches!(
        cargar_catalogo_css("0\t\tb\tc\tcolor\n"),
        Err(ErrorCatalogo::SinClave { linea: 1 })
    ));
    assert!(matches!(
        cargar_catalogo_css("0\ta\tb\tc\t\n"),
        Err(ErrorCatalogo::SinTipo { linea: 1 })
    ));
    assert!(matches!(
        cargar_catalogo_css("0\ta\tb\tc\tfuente\n"),
        Err(ErrorCatalogo::TipoDesconocido { ref tipo, linea: 1 }) if tipo == "fuente"
    ));
    assert!(matches!(
        cargar_catalogo_css("0\ta\tb\tc\tcolor\n0\ta\tb\tc\tcolor\n"),
        Err(ErrorCatalogo::ClaveDuplicada { ref clave }) if clave == "a"
    ));
    assert!(cargar_catalogo_css("0\ta\tb\tc\tcolor\n1\ta\tb\tc\t\n").is_ok());
}

fn mapa_de_prueba() -> MapaUsuario {
    let mut m = MapaUsuario::nuevo();
    m.insertar("tiempo_doble".to_string(), "300".to_string());
    m.insertar("css.fondo".to_string(), "#000000".to_string());
    m.insertar("pulsador.A".to_string(), "Tecla A".to_string());
    m.insertar("dispositivo.teclado".to_string(), "5".to_string());
    m
}

#[test]
fn lecturas_por_seccion() {
    let m = mapa_de_prueba();
    assert_eq!(leer_overrides(&m).entradas(), vec![par("tiempo_doble", "300")]);
    assert_eq!(leer_overrides_css(&m).entradas(), vec![par("fondo", "#000000")]);
    assert_eq!(leer_overrides_pulsador(&m).entradas(), vec![par("A", "Tecla A")]);
}

#[test]
fn lote_general_todo_o_nada() {
    let c = catalogo();
    let mut m = mapa_de_prueba();
    let antes = m.entradas();
    let malos = vec![
        par("tiempo_doble", "abc"),
        par("desconocida", "1"),
        par("tecla_toggle_perfil", "??"),
        par("nombre", "ok"),
    ];
    let r = guardar_lote(&c, &mut m, &malos, &[true, true, false, true]);
    assert_eq!(
        r,
        Err(vec![
            par("tiempo_doble", "Valor no numérico: \"abc\""),
            par("desconocida", "Clave de configuración desconocida: \"desconocida\""),
            par("tecla_toggle_perfil", "Formato de atajo inválido: \"??\""),
        ])
    );
    assert_eq!(m.entradas(), antes);
    let buenos = vec![
        par("tiempo_doble", " 400 "),
        par("mostrar_notificaciones", "false"),
        par("duracion_notificacion_ms", "1500"),
    ];
    assert_eq!(validar_lote(&c, &buenos, &[true, true, true]), vec![]);
    assert_eq!(guardar_lote(&c, &mut m, &buenos, &[true, true, true]), Ok(()));
    assert_eq!(m.obtener("tiempo_doble"), Some(" 400 ".to_string()));
    assert_eq!(m.obtener("mostrar_notificaciones"), Some("false".to_string()));
}

#[test]
fn lote_de_pulsadores() {
    let mut m = mapa_de_prueba();
    let antes = m.entradas();
    let r = guardar_lote_pulsadores(&mut m, &[par("X", "a"), par("A", "  ")], &[false, true]);
    assert_eq!(
        r,
        Err(vec![
            par("X", "Pulsador interno desconocido: \"X\""),
            par("A", "El nombre no puede estar vacío"),
        ])
    );
    assert_eq!(m.entradas(), antes);
    assert_eq!(guardar_lote_pulsadores(&mut m, &[par("B", " Tecla B ")], &[true]), Ok(()));
    assert_eq!(m.obtener("pulsador.B"), Some("Tecla B".to_string()));
}

#[test]
fn lote_de_apariencia() {
    let c = match cargar_catalogo_css(APARIENCIA) {
        Ok(c) => c,
        Err(_) => panic!("catálogo de prueba inválido"),
    };
    let mut m = mapa_de_prueba();
    let antes = m.entradas();
    let r = guardar_lote_css(&c, &mut m, &[par("sub", "x"), par("tam", "3")]);
    assert_eq!(
        r,
        Err(vec![
            par("sub", "Variable CSS desconocida: \"sub\""),
            par("tam", "Debe ser un tamaño en píxeles, ej. \"16px\": \"3\""),
        ])
    );
    assert_eq!(m.entradas(), antes);
    assert_eq!(guardar_lote_css(&c, &mut m, &[par("tam", " 18px ")]), Ok(()));
    assert_eq!(m.obtener("css.tam"), Some("18px".to_string()));
}

#[test]
fn restablecer_secciones_y_claves() {
    let mut m = mapa_de_prueba();
    restablecer_seccion(&mut m, Some("css."));
    assert_eq!(m.obtener("css.fondo"), None);
    assert_eq!(m.obtener("tiempo_doble"), Some("300".to_string()));
    restablecer_seccion(&mut m, None);
    assert_eq!(
        m.entradas(),
        vec![par("dispositivo.teclado", "5"), par("pulsador.A", "Tecla A")]
    );
    restablecer_claves(&mut m, &["pulsador.A", "no_existe"]);
    assert_eq!(m.entradas(), vec![par("dispositivo.teclado", "5")]);
}

#[test]
fn valores_de_fabrica_para_reaplicar() {
    let c = catalogo();
    assert_eq!(
        valores_de_fabrica(&c, None),
        vec![
            par("tiempo_doble", "250"),
            par("menu_boton_pequeno", "80,30"),
            par("tecla_toggle_perfil", "Ctrl+F1"),
            par("nombre", "x"),
        ]
    );
    assert_eq!(
        valores_de_fabrica(&c, Some(&["nombre", "otra", "tiempo_doble"])),
        vec![par("nombre", "x"), par("tiempo_doble", "250")]
    );
}

#[test]
fn aplicar_valor_por_tipo_de_ajuste() {
    assert_eq!(aplicar_valor("tiempo_doble", " 250", false), Ok(Some(ValorAjuste::Numero(250))));
    assert_eq!(aplicar_valor("menu_boton_grande", "120,40", false), Ok(Some(ValorAjuste::Par(120, 40))));
    assert_eq!(
        aplicar_valor("mostrar_notificaciones", "true", false),
        Ok(Some(ValorAjuste::Booleano(true)))
    );
    assert_eq!(aplicar_valor("tecla_grabar_macro", "F9", true), Ok(Some(ValorAjuste::Atajo)));
    assert_eq!(
        aplicar_valor("tecla_grabar_macro", "F99x", false),
        Err("Formato de atajo inválido: \"F99x\"".to_string())
    );
    assert_eq!(aplicar_valor("css.fondo", "#000000", false), Ok(None));
    assert_eq!(aplicar_valor("otra", "x", false), Ok(None));
    assert_eq!(aplicar_valor("delta_volumen", "x", true), Err("Valor no numérico: \"x\"".to_string()));
    assert_eq!(
        aplicar_valor("portapapeles_boton_pequeno", "1", true),
        Err("Se esperaban dos números separados por coma: \"1\"".to_string())
    );
}
