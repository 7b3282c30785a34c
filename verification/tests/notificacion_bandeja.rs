use omegactrl::bandeja::{
    formatear_atajo, manejar_evento_menu, ocultar_en_bandeja, reconstruir_menu, texto_toggle_perfil,
    AccionMenu, ElementoMenu, Marca,
};
use omegactrl::notificacion::{
    codificar_query, notificar_estado_perfil, url_notificacion_real, url_notificacion_ubicacion,
};

#[test]
fn query_codificada() {
    assert_eq!(codificar_query("Juegos-1_a.b~"), "Juegos-1_a.b~");
    assert_eq!(codificar_query("Mis juegos/ñ&="), "Mis%20juegos%2F%C3%B1%26%3D");
    assert_eq!(codificar_query(""), "");
    assert_eq!(codificar_query("✓"), "%E2%9C%93");
}

#[test]
fn direcciones_de_la_notificacion() {
    assert_eq!(
        url_notificacion_real("Mis juegos", true),
        "notificacion.html?modo=real&perfil=Mis%20juegos&activado=true"
    );
    assert_eq!(
        url_notificacion_real("A", false),
        "notificacion.html?modo=real&perfil=A&activado=false"
    );
    assert_eq!(url_notificacion_ubicacion(), "notificacion.html?modo=ubicar");
}

#[test]
fn cuando_notificar() {
    assert_eq!(notificar_estado_perfil(false, Ok("A".to_string()), true), Ok(None));
    assert_eq!(
        notificar_estado_perfil(true, Err("sin perfil".to_string()), true),
        Err("sin perfil".to_string())
    );
    assert_eq!(
        notificar_estado_perfil(true, Ok("A b".to_string()), false),
        Ok(Some("notificacion.html?modo=real&perfil=A%20b&activado=false".to_string()))
    );
}

#[test]
fn textos_del_menu() {
    assert_eq!(texto_toggle_perfil(true, "Ctrl+F1"), "Activar Perfil (Ctrl+F1)");
    assert_eq!(texto_toggle_perfil(false, "F2"), "Desactivar Perfil (F2)");
    let partes = vec!["Ctrl".to_string(), "Alt".to_string(), "F1".to_string()];
    assert_eq!(formatear_atajo(&partes), "Ctrl+Alt+F1");
    assert_eq!(formatear_atajo(&["F5".to_string()]), "F5");
    assert_eq!(formatear_atajo(&[]), "");
}

fn describir(e: &ElementoMenu) -> String {
    match e {
        ElementoMenu::Item { id, texto, habilitado } => format!("{}|{}|{}", id, texto, habilitado),
        ElementoMenu::Perfil { id, nombre, marca } => format!("{}|{}|{:?}", id, nombre, marca),
        ElementoMenu::Separador => "---".to_string(),
    }
}

#[test]
fn menu_completo() {
    let perfiles = vec!["Default".to_string(), "Juegos".to_string()];
    let menu: Vec<String> =
        reconstruir_menu(&perfiles, Some("Juegos"), false, "Ctrl+F1").iter().map(describir).collect();
    assert_eq!(
        menu,
        vec![
            "abrir|Abrir Omega Ctrl|true",
            "toggle_perfil|Desactivar Perfil (Ctrl+F1)|true",
            "---",
            "titulo_perfiles|Perfiles:|false",
            "perfil::Default|Default|Ninguna",
            "perfil::Juegos|Juegos|Verde",
            "---",
            "salir|Salir|true",
        ]
    );
    let inactivo: Vec<String> =
        reconstruir_menu(&perfiles, Some("Default"), true, "F1").iter().map(describir).collect();
    assert_eq!(inactivo[4], format!("perfil::Default|Default|{:?}", Marca::Rojo));
    let sin_actual = reconstruir_menu(&perfiles, None, true, "F1");
    assert_eq!(sin_actual.len(), 8);
    assert_eq!(describir(&sin_actual[5]), "perfil::Juegos|Juegos|Ninguna");
}

#[test]
fn acciones_del_menu() {
    assert_eq!(manejar_evento_menu("abrir"), AccionMenu::Abrir);
    assert_eq!(manejar_evento_menu("toggle_perfil"), AccionMenu::TogglePerfil);
    assert_eq!(manejar_evento_menu("salir"), AccionMenu::Salir);
    assert_eq!(
        manejar_evento_menu("perfil::Mis juegos"),
        AccionMenu::CambiarPerfil("Mis juegos".to_string())
    );
    assert_eq!(manejar_evento_menu("perfil::"), AccionMenu::CambiarPerfil("".to_string()));
    assert_eq!(manejar_evento_menu("titulo_perfiles"), AccionMenu::Ninguna);
}

#[test]
fn minimizar_a_la_bandeja() {
    assert!(ocultar_en_bandeja(Some(true), Some(true)));
    assert!(!ocultar_en_bandeja(Some(true), Some(false)));
    assert!(!ocultar_en_bandeja(None, Some(true)));
    assert!(!ocultar_en_bandeja(Some(true), None));
}

fn decodificar(s: &str) -> Vec<u8> {
    let cs: Vec<char> = s.chars().collect();
    let mut bytes = Vec::new();
    let mut i = 0;
    while i < cs.len() {
        if cs[i] == '%' {
            let alto = cs[i + 1].to_digit(16).unwrap() as u8;
            let bajo = cs[i + 2].to_digit(16).unwrap() as u8;
            bytes.push(alto * 16 + bajo);
            i += 3;
        } else {
            bytes.push(cs[i] as u8);
            i += 1;
        }
    }
    bytes
}

#[test]
fn la_query_se_puede_decodificar() {
    for texto in ["Perfil 100% & más", "a=b#c", "~ok~", "日本語"] {
        let codificado = codificar_query(texto);
        assert!(codificado
            .chars()
            .all(|c| c.is_ascii_alphanumeric() || "-_.~%".contains(c)));
        assert_eq!(decodificar(&codificado), texto.as_bytes());
    }
}
