use omegactrl::mapa::{Filtro, MapaUsuario};
use omegactrl::numeros::{parse_bool, parse_i32, parse_u32, parse_u64, parse_u8};
use omegactrl::texto::{
    a_cadena, a_caracteres, comparar, dividir_en, dividir_lineas, recortar_cadena, Comparacion,
};

fn cs(s: &str) -> Vec<char> {
    s.chars().collect()
}

fn entradas(m: &MapaUsuario) -> Vec<(String, String)> {
    m.entradas()
}

fn par(a: &str, b: &str) -> (String, String) {
    (a.to_string(), b.to_string())
}

#[test]
fn recortar_quita_espacios_unicode() {
    assert_eq!(recortar_cadena("  hola \t\n"), "hola");
    assert_eq!(recortar_cadena("\u{3000}x\u{a0}"), "x");
    assert_eq!(recortar_cadena("   "), "");
}

#[test]
fn caracteres_ida_y_vuelta() {
    let v = a_caracteres("año ✓");
    assert_eq!(v, cs("año ✓"));
    assert_eq!(a_cadena(&v), "año ✓");
}

#[test]
fn lineas_como_str_lines() {
    let ls: Vec<String> = dividir_lineas(&cs("a\r\nb\n\nc"))
        .iter()
        .map(|l| l.iter().collect())
        .collect();
    assert_eq!(ls, vec!["a", "b", "", "c"]);
    let ls2 = dividir_lineas(&cs("x\n"));
    assert_eq!(ls2.len(), 1);
    assert_eq!(dividir_lineas(&cs("")).len(), 0);
}

#[test]
fn partes_como_split() {
    let ps: Vec<String> = dividir_en(&cs("a\t\tb"), '\t').iter().map(|p| p.iter().collect()).collect();
    assert_eq!(ps, vec!["a", "", "b"]);
}

#[test]
fn comparar_orden_de_string() {
    assert_eq!(comparar(&cs("abc"), &cs("abd")), Comparacion::Antes);
    assert_eq!(comparar(&cs("ab"), &cs("abc")), Comparacion::Antes);
    assert_eq!(comparar(&cs("b"), &cs("abc")), Comparacion::Despues);
    assert_eq!(comparar(&cs("x"), &cs("x")), Comparacion::Igual);
}

#[test]
fn numeros_como_parse() {
    assert_eq!(parse_u64(&cs("18446744073709551615")), Some(u64::MAX));
    assert_eq!(parse_u64(&cs("18446744073709551616")), None);
    assert_eq!(parse_u64(&cs("+7")), Some(7));
    assert_eq!(parse_u64(&cs("")), None);
    assert_eq!(parse_u64(&cs("-1")), None);
    assert_eq!(parse_u32(&cs("4294967296")), None);
    assert_eq!(parse_u8(&cs("255")), Some(255));
    assert_eq!(parse_u8(&cs("256")), None);
    assert_eq!(parse_i32(&cs("-2147483648")), Some(i32::MIN));
    assert_eq!(parse_i32(&cs("2147483648")), None);
    assert_eq!(parse_bool(&cs("true")), Some(true));
    assert_eq!(parse_bool(&cs("True")), None);
}

#[test]
fn mapa_insertar_obtener_quitar() {
    let mut m = MapaUsuario::nuevo();
    m.insertar("b".to_string(), "2".to_string());
    m.insertar("a".to_string(), "1".to_string());
    m.insertar("b".to_string(), "3".to_string());
    assert_eq!(m.len(), 2);
    assert_eq!(m.obtener("b"), Some("3".to_string()));
    assert_eq!(m.obtener("c"), None);
    assert_eq!(entradas(&m), vec![par("a", "1"), par("b", "3")]);
    m.quitar("a");
    m.quitar("zz");
    assert_eq!(entradas(&m), vec![par("b", "3")]);
}

#[test]
fn mapa_filtros_y_prefijos() {
    let mut m = MapaUsuario::nuevo();
    m.insertar("tiempo".to_string(), "1".to_string());
    m.insertar("css.fondo".to_string(), "#000000".to_string());
    m.insertar("pulsador.A".to_string(), "Tecla A".to_string());
    assert_eq!(entradas(&m.filtrar(Filtro::SinPunto, "")), vec![par("tiempo", "1")]);
    assert_eq!(
        entradas(&m.filtrar(Filtro::SinPrefijo, "css.")),
        vec![par("pulsador.A", "Tecla A"), par("tiempo", "1")]
    );
    assert_eq!(entradas(&m.quitar_prefijo("css.")), vec![par("fondo", "#000000")]);
    assert_eq!(entradas(&m.copia()), entradas(&m));
}
