use omegactrl::apariencia::{
    cargar_tema_por_nombre, contenido_tema, eliminar_tema, guardar_tema, guardar_tema_como,
    guardar_tema_editado, igual_sin_mayusculas_exec, importar_tema, listar_temas, renombrar_tema,
    validar_nombre_tema, vinculos_color, ENCABEZADO_TEMA,
};
use omegactrl::catalogo::{cargar_catalogo_css, EntradaCatalogoCss};
use omegactrl::mapa::MapaUsuario;

fn par(a: &str, b: &str) -> (String, String) {
    (a.to_string(), b.to_string())
}

const APARIENCIA: &str = "nivel\tid\tnombre_ui\tvalor_defecto\ttipo\n\
1\tcolor-tema\tColor de tema\t\t\n\
0\tfondo\tFondo\t#112233\tcolor\n\
0\ttexto\tTexto\t#FFFFFF\tcolor\n\
1\totros\tOtros\t\t\n\
0\tborde\tBorde\t#112233\tcolor\n\
0\tlinea\tLínea\t#ffffff\tcolor\n\
0\ttam\tTamaño\t16px\tpixeles\n";

fn catalogo() -> Vec<EntradaCatalogoCss> {
    match cargar_catalogo_css(APARIENCIA) {
        Ok(c) => c,
        Err(_) => panic!("catálogo de prueba inválido"),
    }
}

#[test]
fn comparar_sin_mayusculas() {
    assert!(igual_sin_mayusculas_exec("#AbCdEf", "#aBcDeF"));
    assert!(!igual_sin_mayusculas_exec("#AbCdEf", "#aBcDe"));
    assert!(!igual_sin_mayusculas_exec("Ñ", "ñ"));
}

#[test]
fn vinculos_de_colores_de_tema() {
    let v = vinculos_color(&catalogo());
    assert_eq!(
        v,
        vec![
            ("fondo".to_string(), vec!["borde".to_string()]),
            ("texto".to_string(), vec!["linea".to_string()]),
        ]
    );
    let sin_seccion = cargar_catalogo_css("0\tfondo\tFondo\t#112233\tcolor\n0\tb\tB\t#112233\tcolor\n");
    match sin_seccion {
        Ok(c) => assert_eq!(vinculos_color(&c), vec![]),
        Err(_) => panic!("catálogo de prueba inválido"),
    }
}

#[test]
fn contenido_de_un_tema() {
    let c = catalogo();
    let mut ov = MapaUsuario::nuevo();
    ov.insertar("tam".to_string(), "20px".to_string());
    let con = contenido_tema(&c, &ov, true);
    assert_eq!(
        con,
        format!(
            "{}fondo=#112233\ntexto=#FFFFFF\nborde=#112233\nlinea=#ffffff\ntam=20px\n",
            ENCABEZADO_TEMA
        )
    );
    let fabrica = contenido_tema(&c, &ov, false);
    assert!(fabrica.ends_with("tam=16px\n"));
}

#[test]
fn guardar_y_cargar_un_tema() {
    let c = catalogo();
    let mut ov = MapaUsuario::nuevo();
    ov.insertar("fondo".to_string(), "#000000".to_string());
    let texto = contenido_tema(&c, &ov, true);
    let cargado = match cargar_tema_por_nombre(&c, "Mio", Some(&texto)) {
        Ok(v) => v,
        Err(e) => panic!("{}", e),
    };
    assert_eq!(
        cargado.entradas(),
        vec![
            par("borde", "#112233"),
            par("fondo", "#000000"),
            par("linea", "#ffffff"),
            par("tam", "16px"),
            par("texto", "#FFFFFF"),
        ]
    );
}

#[test]
fn cargar_tema_parcial_o_inexistente() {
    let c = catalogo();
    let parcial = "# tema\nfondo = #010101\nextra=1\n";
    let cargado = match cargar_tema_por_nombre(&c, "P", Some(parcial)) {
        Ok(v) => v,
        Err(e) => panic!("{}", e),
    };
    assert_eq!(cargado.obtener("fondo"), Some("#010101".to_string()));
    assert_eq!(cargado.obtener("tam"), Some("16px".to_string()));
    assert_eq!(cargado.obtener("extra"), None);
    assert_eq!(
        cargar_tema_por_nombre(&c, "Nada", None).err(),
        Some("El tema \"Nada\" no existe".to_string())
    );
}

#[test]
fn importar_un_tema() {
    let c = catalogo();
    let mut m = MapaUsuario::nuevo();
    m.insertar("tiempo_doble".to_string(), "300".to_string());
    assert_eq!(
        importar_tema(&c, &mut m, "# solo comentarios\n\n"),
        Err(vec![par("", "El archivo de tema no contiene variables válidas")])
    );
    assert_eq!(
        importar_tema(&c, &mut m, "fondo=#12\ntam=10px\n"),
        Err(vec![par("fondo", "Color inválido, debe tener el formato #RRGGBB: \"#12\"")])
    );
    assert_eq!(m.entradas(), vec![par("tiempo_doble", "300")]);
    assert_eq!(importar_tema(&c, &mut m, "fondo = #121212\ntam=10px\n"), Ok(()));
    assert_eq!(
        m.entradas(),
        vec![par("css.fondo", "#121212"), par("css.tam", "10px"), par("tiempo_doble", "300")]
    );
}

#[test]
fn nombres_de_tema() {
    assert_eq!(validar_nombre_tema(" Oscuro "), Ok(()));
    assert_eq!(validar_nombre_tema("  "), Err("El nombre del tema está vacío".to_string()));
    assert_eq!(validar_nombre_tema("a/b"), Err("Nombre de tema inválido".to_string()));
    assert_eq!(validar_nombre_tema("a\\b"), Err("Nombre de tema inválido".to_string()));
    assert_eq!(validar_nombre_tema(" .. "), Err("Nombre de tema inválido".to_string()));
    assert_eq!(guardar_tema("  "), "tema.theme");
    assert_eq!(guardar_tema(" Claro "), "Claro.theme");
    assert_eq!(guardar_tema_como(" Claro "), Ok("Claro.theme".to_string()));
    assert_eq!(guardar_tema_como("."), Err("Nombre de tema inválido".to_string()));
    assert_eq!(guardar_tema_editado(" Claro", true), Ok("Claro.theme".to_string()));
    assert_eq!(
        guardar_tema_editado(" Claro", false),
        Err("El tema \" Claro\" no existe".to_string())
    );
}

#[test]
fn renombrar_y_eliminar_temas() {
    assert_eq!(
        renombrar_tema(true, "Default", "X", true, false),
        Err("No se puede renombrar un tema predefinido".to_string())
    );
    assert_eq!(
        renombrar_tema(false, "Viejo", " ", true, false),
        Err("El nombre del tema está vacío".to_string())
    );
    assert_eq!(
        renombrar_tema(false, "Viejo", "Nuevo", false, false),
        Err("El tema \"Viejo\" no existe".to_string())
    );
    assert_eq!(
        renombrar_tema(false, "Viejo", " Nuevo ", true, true),
        Err("Ya existe un tema llamado \"Nuevo\"".to_string())
    );
    assert_eq!(renombrar_tema(false, "Viejo", " Nuevo ", true, false), Ok("Nuevo".to_string()));
    assert_eq!(
        eliminar_tema(true, "Default", true),
        Err("No se puede eliminar un tema predefinido".to_string())
    );
    assert_eq!(eliminar_tema(false, "X", false), Err("El tema \"X\" no existe".to_string()));
    assert_eq!(eliminar_tema(false, "X", true), Ok(()));
}

#[test]
fn listado_de_temas() {
    let programa = vec!["Default".to_string(), "Oscuro".to_string()];
    let usuario = vec!["Mio".to_string(), "oscuro".to_string(), "Zeta".to_string()];
    // "oscuro" names a program theme file where file names ignore case.
    let l: Vec<(String, String)> = listar_temas(&programa, &usuario, &[false, true, false])
        .into_iter()
        .map(|t| (t.nombre, t.origen))
        .collect();
    assert_eq!(
        l,
        vec![
            par("Default", "predefinido"),
            par("Oscuro", "predefinido"),
            par("Mio", "usuario"),
            par("Zeta", "usuario"),
        ]
    );
    let todos: Vec<String> = listar_temas(&programa, &usuario, &[false, false, false])
        .into_iter()
        .map(|t| t.nombre)
        .collect();
    assert_eq!(todos.len(), 5);
}
