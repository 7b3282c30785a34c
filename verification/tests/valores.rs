use omegactrl::valores::{
    parsear_booleano, parsear_numero, parsear_numero_par, parsear_trigger, texto_booleano, texto_entero,
    texto_natural, validar_css_segun_tipo, validar_segun_tipo, TipoValor, TipoValorCss,
};

#[test]
fn numero_recortado() {
    assert_eq!(parsear_numero(" 42 "), Ok(42));
    assert_eq!(parsear_numero("4x"), Err("Valor no numérico: \"4x\"".to_string()));
    assert_eq!(parsear_numero(" -1"), Err("Valor no numérico: \" -1\"".to_string()));
}

#[test]
fn booleano_recortado() {
    assert_eq!(parsear_booleano(" false"), Ok(false));
    assert_eq!(parsear_booleano("sí"), Err("Valor no booleano: \"sí\"".to_string()));
}

#[test]
fn numero_par_y_sus_errores() {
    assert_eq!(parsear_numero_par(" 120 , 40"), Ok((120, 40)));
    assert_eq!(
        parsear_numero_par("1,2,3"),
        Err("Se esperaban dos números separados por coma: \"1,2,3\"".to_string())
    );
    assert_eq!(
        parsear_numero_par("12"),
        Err("Se esperaban dos números separados por coma: \"12\"".to_string())
    );
    assert_eq!(parsear_numero_par("a, 2"), Err("Valor no numérico: \"a\"".to_string()));
    assert_eq!(parsear_numero_par("1, b"), Err("Valor no numérico: \" b\"".to_string()));
}

#[test]
fn validar_por_tipo_general() {
    assert_eq!(validar_segun_tipo(TipoValor::Numero, "10", false), Ok(()));
    assert_eq!(validar_segun_tipo(TipoValor::NumeroPar, "1,2", false), Ok(()));
    assert_eq!(
        validar_segun_tipo(TipoValor::Texto, "  ", false),
        Err("El valor no puede estar vacío".to_string())
    );
    assert_eq!(validar_segun_tipo(TipoValor::Texto, " x ", false), Ok(()));
    assert_eq!(validar_segun_tipo(TipoValor::Booleano, "true", false), Ok(()));
    assert_eq!(validar_segun_tipo(TipoValor::Trigger, "Ctrl+F1", true), Ok(()));
    assert_eq!(
        validar_segun_tipo(TipoValor::Trigger, "Ctrl+", false),
        Err("Formato de atajo inválido: \"Ctrl+\"".to_string())
    );
    assert_eq!(parsear_trigger("F2", true), Ok(()));
}

#[test]
fn validar_por_tipo_css() {
    assert_eq!(validar_css_segun_tipo(TipoValorCss::Color, " #a1B2c3 "), Ok(()));
    assert_eq!(
        validar_css_segun_tipo(TipoValorCss::Color, " #12345 "),
        Err("Color inválido, debe tener el formato #RRGGBB: \"#12345\"".to_string())
    );
    assert_eq!(
        validar_css_segun_tipo(TipoValorCss::Color, "#12345g"),
        Err("Color inválido, debe tener el formato #RRGGBB: \"#12345g\"".to_string())
    );
    assert_eq!(validar_css_segun_tipo(TipoValorCss::Pixeles, "16px"), Ok(()));
    assert_eq!(
        validar_css_segun_tipo(TipoValorCss::Pixeles, "16 px"),
        Err("Debe ser un tamaño en píxeles, ej. \"16px\": \"16 px\"".to_string())
    );
    assert_eq!(
        validar_css_segun_tipo(TipoValorCss::Pixeles, "16"),
        Err("Debe ser un tamaño en píxeles, ej. \"16px\": \"16\"".to_string())
    );
    assert_eq!(
        validar_css_segun_tipo(TipoValorCss::Texto, ""),
        Err("El valor no puede estar vacío".to_string())
    );
    assert_eq!(validar_css_segun_tipo(TipoValorCss::Porcentaje, "100%"), Ok(()));
    assert_eq!(validar_css_segun_tipo(TipoValorCss::Porcentaje, "0%"), Ok(()));
    assert_eq!(
        validar_css_segun_tipo(TipoValorCss::Porcentaje, "101%"),
        Err("Debe ser un porcentaje entre 0% y 100%, ej. \"45%\": \"101%\"".to_string())
    );
    assert_eq!(
        validar_css_segun_tipo(TipoValorCss::Porcentaje, "45"),
        Err("Debe ser un porcentaje entre 0% y 100%, ej. \"45%\": \"45\"".to_string())
    );
    assert_eq!(validar_css_segun_tipo(TipoValorCss::Modo, " degradado"), Ok(()));
    assert_eq!(
        validar_css_segun_tipo(TipoValorCss::Modo, "Plano"),
        Err("Debe ser \"plano\" o \"degradado\": \"Plano\"".to_string())
    );
}

#[test]
fn textos_de_numeros() {
    assert_eq!(texto_natural(0), "0");
    assert_eq!(texto_natural(u64::MAX), u64::MAX.to_string());
    assert_eq!(texto_entero(i32::MIN), i32::MIN.to_string());
    assert_eq!(texto_entero(-45), "-45");
    assert_eq!(texto_entero(7), "7");
    assert_eq!(texto_booleano(true), "true");
    assert_eq!(texto_booleano(false), "false");
}
