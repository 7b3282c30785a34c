use omegactrl::usuario::{
    es_carpeta_sistema, es_perfil, nombre_actual, nombre_desde_ruta, ordenar, perfil_actual,
    perfil_default, perfiles, ruta_perfil, temas,
};

fn textos(v: &[&str]) -> Vec<String> {
    v.iter().map(|s| s.to_string()).collect()
}

#[test]
fn archivos_de_perfil() {
    assert!(es_perfil("perfil_Juegos.json"));
    assert!(es_perfil("perfil_.json"));
    assert!(!es_perfil("Perfil_Juegos.json"));
    assert!(!es_perfil("perfil_Juegos.json.bak"));
    assert_eq!(nombre_desde_ruta("perfil_Juegos.json"), Some("Juegos".to_string()));
    assert_eq!(nombre_desde_ruta("perfil_.json"), Some("".to_string()));
    assert_eq!(nombre_desde_ruta("perfil_x.txt"), None);
    assert_eq!(nombre_desde_ruta("otro.json"), None);
}

#[test]
fn ruta_de_un_perfil() {
    assert_eq!(ruta_perfil("Juegos"), Ok("perfil_Juegos.json".to_string()));
    assert_eq!(ruta_perfil(" Juegos "), Ok("perfil_ Juegos .json".to_string()));
    assert_eq!(ruta_perfil(" \t"), Err("El nombre del perfil está vacío".to_string()));
    assert_eq!(ruta_perfil("a/b"), Err("Nombre de perfil inválido".to_string()));
    assert_eq!(ruta_perfil(".."), Err("Nombre de perfil inválido".to_string()));
    assert_eq!(ruta_perfil(" .."), Ok("perfil_ ...json".to_string()));
    assert_eq!(perfil_default(), "perfil_Default.json");
}

#[test]
fn listado_de_perfiles_ordenado() {
    let archivos = textos(&["perfil_b.json", "nota.txt", "perfil_A.json", "perfil_a.json", "Perfil_c.json"]);
    assert_eq!(perfiles(&archivos), textos(&["A", "a", "b"]));
    assert_eq!(perfiles(&[]), Vec::<String>::new());
}

#[test]
fn ordenar_como_sort() {
    let v = textos(&["zeta", "Árbol", "alfa", "alfa", "Beta", ""]);
    let mut esperado = v.clone();
    esperado.sort();
    assert_eq!(ordenar(v), esperado);
}

#[test]
fn perfil_actual_es_el_ultimo_modificado() {
    let archivos = vec![
        ("perfil_A.json".to_string(), 10i128),
        ("perfil_B.json".to_string(), 30),
        ("nota.txt".to_string(), 99),
        ("perfil_C.json".to_string(), 30),
        ("perfil_D.json".to_string(), 5),
    ];
    assert_eq!(perfil_actual(&archivos), "perfil_C.json");
    assert_eq!(perfil_actual(&[("x.txt".to_string(), 1)]), "perfil_Default.json");
    assert_eq!(perfil_actual(&[]), "perfil_Default.json");
}

#[test]
fn nombre_del_perfil_actual() {
    assert_eq!(nombre_actual("perfil_Default.json"), Ok("Default".to_string()));
    assert_eq!(
        nombre_actual("raro.json"),
        Err("No se pudo determinar el nombre del perfil".to_string())
    );
}

#[test]
fn temas_de_una_carpeta() {
    let archivos = textos(&["Oscuro.theme", "leeme.txt", "Claro.theme", ".theme", "x.theme.bak"]);
    assert_eq!(temas(&archivos), textos(&["", "Claro", "Oscuro"]));
}

#[test]
fn carpetas_de_sistema() {
    let sistema = textos(&["C:\\Program Files", "C:\\WINDOWS"]);
    assert!(es_carpeta_sistema("c:\\program files\\OmegaCtrl", &sistema));
    assert!(es_carpeta_sistema("C:\\Windows\\Temp", &sistema));
    assert!(!es_carpeta_sistema("D:\\Juegos", &sistema));
    assert!(!es_carpeta_sistema("C:\\Program", &sistema));
}

#[test]
fn ruta_y_nombre_de_perfil_se_corresponden() {
    for nombre in ["Juegos", "Mis juegos", "perfil_x.json", " x "] {
        let archivo = ruta_perfil(nombre).unwrap();
        assert!(es_perfil(&archivo));
        assert_eq!(nombre_desde_ruta(&archivo), Some(nombre.to_string()));
    }
}

#[test]
fn perfil_si_y_solo_si_tiene_nombre() {
    for archivo in ["perfil_A.json", "perfil_.json", "perfil.json", "perfil_json", "x.json", "perfil_a.jso", ""] {
        assert_eq!(es_perfil(archivo), nombre_desde_ruta(archivo).is_some());
    }
}
