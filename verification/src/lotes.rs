//! Sections of the settings store and all-or-nothing batch saving.
//!
//! Keys without a `.` are general settings, keys under `css.` appearance
//! variables and keys under `pulsador.` custom key names. A batch of
//! changes is first validated as a whole; when any change is rejected the
//! store is left untouched and every rejection is reported, in the order of
//! the changes; otherwise all changes are stored.

use vstd::prelude::*;
use crate::catalogo::{
    vista_catalogo, vista_css, EntradaCatalogo, EntradaCatalogoCss, FilaCatalogo, FilaCss,
};
use crate::mapa::{filtrado, sin_prefijo, vista_entradas, Filtro, MapaUsuario};
use crate::texto::{a_caracteres, recortar, recortar_cadena, recortar_vec};
use crate::valores::{
    citado, mensaje, parsear_booleano, parsear_numero, parsear_numero_par, resultado_booleano,
    resultado_numero, resultado_numero_par, validacion, validacion_css, validar_css_segun_tipo,
    validar_segun_tipo, vista_resultado, TipoValor, TipoValorCss,
};

verus! {

pub const PREFIJO_PULSADOR: &'static str = "pulsador.";

pub const PREFIJO_CSS: &'static str = "css.";

pub type Par = (Seq<char>, Seq<char>);

pub type MapaTexto = Map<Seq<char>, Seq<char>>;

// ------------------------------------------------------------------
// Reading a section
// ------------------------------------------------------------------

/// General settings: the entries whose key has no `.`.
pub fn leer_overrides(mapa: &MapaUsuario) -> (r: MapaUsuario)
    ensures
        r@ == filtrado(mapa@, Filtro::SinPunto, Seq::empty()),
{
    mapa.filtrar(Filtro::SinPunto, "")
}

/// Custom key names: the entries under `pulsador.`, keyed by the rest of
/// the key.
pub fn leer_overrides_pulsador(mapa: &MapaUsuario) -> (r: MapaUsuario)
    ensures
        r@ == sin_prefijo(mapa@, PREFIJO_PULSADOR@),
{
    mapa.quitar_prefijo(PREFIJO_PULSADOR)
}

/// Appearance variables: the entries under `css.`, keyed by the variable.
pub fn leer_overrides_css(mapa: &MapaUsuario) -> (r: MapaUsuario)
    ensures
        r@ == sin_prefijo(mapa@, PREFIJO_CSS@),
{
    mapa.quitar_prefijo(PREFIJO_CSS)
}

/// Removes a whole section: the general settings (`None`) or the entries
/// under a prefix.
pub fn restablecer_seccion(mapa: &mut MapaUsuario, prefijo: Option<&str>)
    ensures
        match prefijo {
            None => final(mapa)@ == filtrado(old(mapa)@, Filtro::ConPunto, Seq::empty()),
            Some(p) => final(mapa)@ == filtrado(old(mapa)@, Filtro::SinPrefijo, p@),
        },
{
    let nuevo = match prefijo {
        None => mapa.filtrar(Filtro::ConPunto, ""),
        Some(p) => mapa.filtrar(Filtro::SinPrefijo, p),
    };
    *mapa = nuevo;
}

/// `m` without the keys listed in `cs`.
pub open spec fn sin_claves(m: MapaTexto, cs: Seq<Seq<char>>) -> MapaTexto
    decreases cs.len(),
{
    if cs.len() == 0 {
        m
    } else {
        sin_claves(m, cs.drop_last()).remove(cs.last())
    }
}

pub open spec fn vista_claves(cs: Seq<&str>) -> Seq<Seq<char>> {
    Seq::new(cs.len(), |i: int| cs[i]@)
}

/// Removes the listed keys.
pub fn restablecer_claves(mapa: &mut MapaUsuario, claves: &[&str])
    ensures
        final(mapa)@ == sin_claves(old(mapa)@, vista_claves(claves@)),
{
    let ghost inicial = mapa@;
    let n = claves.len();
    assert(vista_claves(claves@).take(0) == Seq::<Seq<char>>::empty());
    for i in 0..n
        invariant
            n == claves@.len(),
            mapa@ == sin_claves(inicial, vista_claves(claves@).take(i as int)),
    {
        mapa.quitar(claves[i]);
        assert(vista_claves(claves@).take(i + 1).drop_last() == vista_claves(claves@).take(i as int));
    }
    assert(vista_claves(claves@).take(n as int) == vista_claves(claves@));
}

// ------------------------------------------------------------------
// General settings
// ------------------------------------------------------------------

/// Type of `k` in the catalog (the first row with that key).
pub open spec fn tipo_en_catalogo(cat: Seq<FilaCatalogo>, k: Seq<char>) -> Option<TipoValor>
    decreases cat.len(),
{
    if cat.len() == 0 {
        None
    } else if cat[0].0 == k {
        Some(cat[0].3)
    } else {
        tipo_en_catalogo(cat.drop_first(), k)
    }
}

/// The notification settings, saved through the general batch although they
/// have no catalog row.
pub open spec fn tipo_fuera_de_catalogo(k: Seq<char>) -> Option<TipoValor> {
    if k == "mostrar_notificaciones"@ {
        Some(TipoValor::Booleano)
    } else if k == "duracion_notificacion_ms"@ {
        Some(TipoValor::Numero)
    } else {
        None
    }
}

pub open spec fn tipo_para_lote(cat: Seq<FilaCatalogo>, k: Seq<char>) -> Option<TipoValor> {
    match tipo_en_catalogo(cat, k) {
        Some(t) => Some(t),
        None => tipo_fuera_de_catalogo(k),
    }
}

/// Why a change of the general batch is rejected, if it is.
pub open spec fn error_general(cat: Seq<FilaCatalogo>, c: Par, atajo_valido: bool) -> Option<
    Seq<char>,
> {
    match tipo_para_lote(cat, c.0) {
        Some(t) => match validacion(t, c.1, atajo_valido) {
            Ok(_) => None,
            Err(m) => Some(m),
        },
        None => Some(citado("Clave de configuración desconocida: \""@, c.0)),
    }
}

/// Rejections of a general batch, in order (`atajos[i]` is whether the key
/// binding parser accepts `cs[i]`'s value).
pub open spec fn errores_general(cat: Seq<FilaCatalogo>, cs: Seq<Par>, atajos: Seq<bool>) -> Seq<
    Par,
>
    decreases cs.len(),
{
    if cs.len() == 0 {
        seq![]
    } else {
        let previos = errores_general(cat, cs.drop_last(), atajos);
        match error_general(cat, cs.last(), atajos[cs.len() - 1]) {
            Some(m) => previos.push((cs.last().0, m)),
            None => previos,
        }
    }
}

/// `m` with every change stored, a later change of a key winning.
pub open spec fn con_cambios(m: MapaTexto, cs: Seq<Par>) -> MapaTexto
    decreases cs.len(),
{
    if cs.len() == 0 {
        m
    } else {
        con_cambios(m, cs.drop_last()).insert(cs.last().0, cs.last().1)
    }
}

fn tipo_de_clave(catalogo: &[EntradaCatalogo], clave: &String) -> (r: Option<TipoValor>)
    ensures
        r == tipo_para_lote(vista_catalogo(catalogo@), clave@),
{
    let ghost cat = vista_catalogo(catalogo@);
    let n = catalogo.len();
    let mut j: usize = 0;
    assert(cat.skip(0) == cat);
    while j < n
        invariant
            j <= n == cat.len(),
            cat == vista_catalogo(catalogo@),
            tipo_en_catalogo(cat, clave@) == tipo_en_catalogo(cat.skip(j as int), clave@),
        decreases n - j,
    {
        assert(cat.skip(j as int)[0] == cat[j as int]);
        assert(cat.skip(j as int).drop_first() == cat.skip(j + 1));
        if catalogo[j].clave == *clave {
            return Some(catalogo[j].tipo);
        }
        j += 1;
    }
    assert(cat.skip(n as int).len() == 0);
    let mostrar = String::from_str("mostrar_notificaciones");
    let duracion = String::from_str("duracion_notificacion_ms");
    if *clave == mostrar {
        Some(TipoValor::Booleano)
    } else if *clave == duracion {
        Some(TipoValor::Numero)
    } else {
        None
    }
}

/// Rejections of a general batch, without storing anything.
pub fn validar_lote(
    catalogo: &[EntradaCatalogo],
    cambios: &[(String, String)],
    atajos_validos: &[bool],
) -> (r: Vec<(String, String)>)
    requires
        atajos_validos.len() == cambios.len(),
    ensures
        vista_entradas(r@) == errores_general(
            vista_catalogo(catalogo@),
            vista_entradas(cambios@),
            atajos_validos@,
        ),
{
    let ghost cat = vista_catalogo(catalogo@);
    let ghost cs = vista_entradas(cambios@);
    let mut errores: Vec<(String, String)> = Vec::new();
    let n = cambios.len();
    assert(cs.take(0) == Seq::<Par>::empty());
    assert(vista_entradas(errores@) == Seq::<Par>::empty());
    for i in 0..n
        invariant
            n == cs.len() == atajos_validos@.len(),
            cat == vista_catalogo(catalogo@),
            cs == vista_entradas(cambios@),
            vista_entradas(errores@) == errores_general(cat, cs.take(i as int), atajos_validos@),
    {
        let clave = &cambios[i].0;
        let valor = &cambios[i].1;
        assert(cs.take(i + 1).drop_last() == cs.take(i as int));
        assert(cs.take(i + 1).last() == (clave@, valor@));
        let ghost antes = errores@;
        match tipo_de_clave(catalogo, clave) {
            Some(t) => {
                if let Err(m) = validar_segun_tipo(t, valor.as_str(), atajos_validos[i]) {
                    errores.push((clave.clone(), m));
                    assert(vista_entradas(errores@) =~= vista_entradas(antes).push(
                        (clave@, vista_resultado::<()>(Err(m))->Err_0),
                    ));
                }
            },
            None => {
                let m = mensaje("Clave de configuración desconocida: \"", clave.as_str(), "\"");
                errores.push((clave.clone(), m));
                assert(vista_entradas(errores@) =~= vista_entradas(antes).push((clave@, m@)));
            },
        }
    }
    assert(cs.take(n as int) == cs);
    errores
}

/// Validates every change of the general batch; stores them all only when
/// none is rejected.
pub fn guardar_lote(
    catalogo: &[EntradaCatalogo],
    mapa: &mut MapaUsuario,
    cambios: &[(String, String)],
    atajos_validos: &[bool],
) -> (r: Result<(), Vec<(String, String)>>)
    requires
        atajos_validos.len() == cambios.len(),
    ensures
        ({
            let es = errores_general(
                vista_catalogo(catalogo@),
                vista_entradas(cambios@),
                atajos_validos@,
            );
            &&& r is Ok <==> es.len() == 0
            &&& r matches Err(v) ==> vista_entradas(v@) == es && final(mapa)@ == old(mapa)@
            &&& r is Ok ==> final(mapa)@ == con_cambios(old(mapa)@, vista_entradas(cambios@))
        }),
{
    let errores = validar_lote(catalogo, cambios, atajos_validos);
    if errores.len() > 0 {
        return Err(errores);
    }
    guardar_cambios(mapa, cambios);
    Ok(())
}

pub(crate) fn guardar_cambios(mapa: &mut MapaUsuario, cambios: &[(String, String)])
    ensures
        final(mapa)@ == con_cambios(old(mapa)@, vista_entradas(cambios@)),
{
    let ghost inicial = mapa@;
    let ghost cs = vista_entradas(cambios@);
    let n = cambios.len();
    assert(cs.take(0) == Seq::<Par>::empty());
    for i in 0..n
        invariant
            n == cs.len(),
            cs == vista_entradas(cambios@),
            mapa@ == con_cambios(inicial, cs.take(i as int)),
    {
        assert(cs.take(i + 1).drop_last() == cs.take(i as int));
        mapa.insertar(cambios[i].0.clone(), cambios[i].1.clone());
    }
    assert(cs.take(n as int) == cs);
}

// ------------------------------------------------------------------
// Custom key names
// ------------------------------------------------------------------

/// Why a change of a key name batch is rejected (`existe` is whether the
/// key is a known internal key name).
pub open spec fn error_pulsador(c: Par, existe: bool) -> Option<Seq<char>> {
    if !existe {
        Some(citado("Pulsador interno desconocido: \""@, c.0))
    } else if recortar(c.1).len() == 0 {
        Some("El nombre no puede estar vacío"@)
    } else {
        None
    }
}

pub open spec fn errores_pulsadores(cs: Seq<Par>, existen: Seq<bool>) -> Seq<Par>
    decreases cs.len(),
{
    if cs.len() == 0 {
        seq![]
    } else {
        let previos = errores_pulsadores(cs.drop_last(), existen);
        match error_pulsador(cs.last(), existen[cs.len() - 1]) {
            Some(m) => previos.push((cs.last().0, m)),
            None => previos,
        }
    }
}

/// `m` with each change stored under `prefijo` + key, its value trimmed.
pub open spec fn con_cambios_prefijo(m: MapaTexto, p: Seq<char>, cs: Seq<Par>) -> MapaTexto
    decreases cs.len(),
{
    if cs.len() == 0 {
        m
    } else {
        con_cambios_prefijo(m, p, cs.drop_last()).insert(p + cs.last().0, recortar(cs.last().1))
    }
}

fn guardar_con_prefijo(mapa: &mut MapaUsuario, prefijo: &str, cambios: &[(String, String)])
    ensures
        final(mapa)@ == con_cambios_prefijo(old(mapa)@, prefijo@, vista_entradas(cambios@)),
{
    let ghost inicial = mapa@;
    let ghost cs = vista_entradas(cambios@);
    let n = cambios.len();
    assert(cs.take(0) == Seq::<Par>::empty());
    for i in 0..n
        invariant
            n == cs.len(),
            cs == vista_entradas(cambios@),
            mapa@ == con_cambios_prefijo(inicial, prefijo@, cs.take(i as int)),
    {
        assert(cs.take(i + 1).drop_last() == cs.take(i as int));
        let mut clave = String::from_str(prefijo);
        clave.append(cambios[i].0.as_str());
        let valor = recortar_cadena(cambios[i].1.as_str());
        mapa.insertar(clave, valor);
    }
    assert(cs.take(n as int) == cs);
}

/// Rejections of a batch of custom key names (`existen[i]` is whether
/// `cambios[i]`'s key is a known internal key name), without storing
/// anything.
pub fn validar_lote_pulsadores(cambios: &[(String, String)], existen: &[bool]) -> (r: Vec<(String, String)>)
    requires
        existen.len() == cambios.len(),
    ensures
        vista_entradas(r@) == errores_pulsadores(vista_entradas(cambios@), existen@),
{
    let ghost cs = vista_entradas(cambios@);
    let mut errores: Vec<(String, String)> = Vec::new();
    let n = cambios.len();
    assert(cs.take(0) == Seq::<Par>::empty());
    assert(vista_entradas(errores@) == Seq::<Par>::empty());
    for i in 0..n
        invariant
            n == cs.len() == existen@.len(),
            cs == vista_entradas(cambios@),
            vista_entradas(errores@) == errores_pulsadores(cs.take(i as int), existen@),
    {
        let interno = &cambios[i].0;
        let valor = &cambios[i].1;
        assert(cs.take(i + 1).drop_last() == cs.take(i as int));
        assert(cs.take(i + 1).last() == (interno@, valor@));
        let ghost antes = errores@;
        if !existen[i] {
            let m = mensaje("Pulsador interno desconocido: \"", interno.as_str(), "\"");
            errores.push((interno.clone(), m));
            assert(vista_entradas(errores@) =~= vista_entradas(antes).push((interno@, m@)));
        } else {
            let v = a_caracteres(valor.as_str());
            if recortar_vec(v.as_slice()).len() == 0 {
                let m = String::from_str("El nombre no puede estar vacío");
                errores.push((interno.clone(), m));
                assert(vista_entradas(errores@) =~= vista_entradas(antes).push((interno@, m@)));
            }
        }
    }
    assert(cs.take(n as int) == cs);
    errores
}

/// Validates a batch of custom key names (`existen[i]` is whether
/// `cambios[i]`'s key is a known internal key name); stores them all, values
/// trimmed, only when none is rejected.
pub fn guardar_lote_pulsadores(
    mapa: &mut MapaUsuario,
    cambios: &[(String, String)],
    existen: &[bool],
) -> (r: Result<(), Vec<(String, String)>>)
    requires
        existen.len() == cambios.len(),
    ensures
        ({
            let es = errores_pulsadores(vista_entradas(cambios@), existen@);
            &&& r is Ok <==> es.len() == 0
            &&& r matches Err(v) ==> vista_entradas(v@) == es && final(mapa)@ == old(mapa)@
            &&& r is Ok ==> final(mapa)@ == con_cambios_prefijo(
                old(mapa)@,
                PREFIJO_PULSADOR@,
                vista_entradas(cambios@),
            )
        }),
{
    let errores = validar_lote_pulsadores(cambios, existen);
    if errores.len() > 0 {
        return Err(errores);
    }
    guardar_con_prefijo(mapa, PREFIJO_PULSADOR, cambios);
    Ok(())
}

// ------------------------------------------------------------------
// Appearance variables
// ------------------------------------------------------------------

/// Type of the appearance variable `k` (the first level 0 row with that id).
pub open spec fn tipo_variable(cat: Seq<FilaCss>, k: Seq<char>) -> Option<TipoValorCss>
    decreases cat.len(),
{
    if cat.len() == 0 {
        None
    } else if cat[0].1 == 0 && cat[0].0 == k {
        Some(cat[0].4)
    } else {
        tipo_variable(cat.drop_first(), k)
    }
}

/// Why a change of an appearance batch is rejected, if it is.
pub open spec fn error_css(cat: Seq<FilaCss>, c: Par) -> Option<Seq<char>> {
    match tipo_variable(cat, c.0) {
        None => Some(citado("Variable CSS desconocida: \""@, c.0)),
        Some(t) => match validacion_css(t, c.1) {
            Ok(_) => None,
            Err(m) => Some(m),
        },
    }
}

pub open spec fn errores_css(cat: Seq<FilaCss>, cs: Seq<Par>) -> Seq<Par>
    decreases cs.len(),
{
    if cs.len() == 0 {
        seq![]
    } else {
        let previos = errores_css(cat, cs.drop_last());
        match error_css(cat, cs.last()) {
            Some(m) => previos.push((cs.last().0, m)),
            None => previos,
        }
    }
}

pub fn tipo_de_variable(catalogo: &[EntradaCatalogoCss], clave: &String) -> (r: Option<
    TipoValorCss,
>)
    ensures
        r == tipo_variable(vista_css(catalogo@), clave@),
{
    let ghost cat = vista_css(catalogo@);
    let n = catalogo.len();
    let mut j: usize = 0;
    assert(cat.skip(0) == cat);
    while j < n
        invariant
            j <= n == cat.len(),
            cat == vista_css(catalogo@),
            tipo_variable(cat, clave@) == tipo_variable(cat.skip(j as int), clave@),
        decreases n - j,
    {
        assert(cat.skip(j as int)[0] == cat[j as int]);
        assert(cat.skip(j as int).drop_first() == cat.skip(j + 1));
        if catalogo[j].nivel == 0 && catalogo[j].id == *clave {
            return Some(catalogo[j].tipo);
        }
        j += 1;
    }
    None
}

/// Rejections of an appearance batch, without storing anything.
pub fn validar_lote_css(catalogo: &[EntradaCatalogoCss], cambios: &[(String, String)]) -> (r: Vec<
    (String, String),
>)
    ensures
        vista_entradas(r@) == errores_css(vista_css(catalogo@), vista_entradas(cambios@)),
{
    let ghost cat = vista_css(catalogo@);
    let ghost cs = vista_entradas(cambios@);
    let mut errores: Vec<(String, String)> = Vec::new();
    let n = cambios.len();
    assert(cs.take(0) == Seq::<Par>::empty());
    assert(vista_entradas(errores@) == Seq::<Par>::empty());
    for i in 0..n
        invariant
            n == cs.len(),
            cat == vista_css(catalogo@),
            cs == vista_entradas(cambios@),
            vista_entradas(errores@) == errores_css(cat, cs.take(i as int)),
    {
        let clave = &cambios[i].0;
        let valor = &cambios[i].1;
        assert(cs.take(i + 1).drop_last() == cs.take(i as int));
        assert(cs.take(i + 1).last() == (clave@, valor@));
        let ghost antes = errores@;
        match tipo_de_variable(catalogo, clave) {
            None => {
                let m = mensaje("Variable CSS desconocida: \"", clave.as_str(), "\"");
                errores.push((clave.clone(), m));
                assert(vista_entradas(errores@) =~= vista_entradas(antes).push((clave@, m@)));
            },
            Some(t) => {
                if let Err(m) = validar_css_segun_tipo(t, valor.as_str()) {
                    errores.push((clave.clone(), m));
                    assert(vista_entradas(errores@) =~= vista_entradas(antes).push((clave@, m@)));
                }
            },
        }
    }
    assert(cs.take(n as int) == cs);
    errores
}

/// Validates a batch of appearance values against the appearance catalog;
/// stores them all under `css.`, values trimmed, only when none is rejected.
pub fn guardar_lote_css(
    catalogo: &[EntradaCatalogoCss],
    mapa: &mut MapaUsuario,
    cambios: &[(String, String)],
) -> (r: Result<(), Vec<(String, String)>>)
    ensures
        ({
            let es = errores_css(vista_css(catalogo@), vista_entradas(cambios@));
            &&& r is Ok <==> es.len() == 0
            &&& r matches Err(v) ==> vista_entradas(v@) == es && final(mapa)@ == old(mapa)@
            &&& r is Ok ==> final(mapa)@ == con_cambios_prefijo(
                old(mapa)@,
                PREFIJO_CSS@,
                vista_entradas(cambios@),
            )
        }),
{
    let errores = validar_lote_css(catalogo, cambios);
    if errores.len() > 0 {
        return Err(errores);
    }
    guardar_con_prefijo(mapa, PREFIJO_CSS, cambios);
    Ok(())
}

// ------------------------------------------------------------------
// Applying a general setting
// ------------------------------------------------------------------

/// A general setting value ready for its setter.
#[derive(PartialEq, Eq, Structural, Clone, Copy, Debug)]
pub enum ValorAjuste {
    Numero(u64),
    Par(u64, u64),
    Booleano(bool),
    /// A key binding that its parser accepts.
    Atajo,
}

/// The general settings that have a setter, with the type of their value.
pub open spec fn tabla_ajustes() -> Seq<(Seq<char>, TipoValor)> {
    seq![
        ("tiempo_doble"@, TipoValor::Numero),
        ("tiempo_mantenido"@, TipoValor::Numero),
        ("sensibilidad_rueda"@, TipoValor::Numero),
        ("tiempo_repeticion"@, TipoValor::Numero),
        ("tiempo_espera_normal"@, TipoValor::Numero),
        ("tiempo_maximo_retenido"@, TipoValor::Numero),
        ("tiempo_inactividad_captura"@, TipoValor::Numero),
        ("tecla_guardar_coordenada"@, TipoValor::Trigger),
        ("tecla_toggle_perfil"@, TipoValor::Trigger),
        ("tecla_grabar_macro"@, TipoValor::Trigger),
        ("intervalo_captura_coordenada"@, TipoValor::Numero),
        ("delay_entre_salida_doble"@, TipoValor::Numero),
        ("delay_rueda_repeticion"@, TipoValor::Numero),
        ("tiempo_simple_teclas"@, TipoValor::Numero),
        ("pausa_minima_entre_pasos_macro"@, TipoValor::Numero),
        ("mostrar_notificaciones"@, TipoValor::Booleano),
        ("duracion_notificacion_ms"@, TipoValor::Numero),
        ("delta_volumen"@, TipoValor::Numero),
        ("menu_boton_pequeno"@, TipoValor::NumeroPar),
        ("menu_boton_mediano"@, TipoValor::NumeroPar),
        ("menu_boton_grande"@, TipoValor::NumeroPar),
        ("menu_texto_pequeno"@, TipoValor::Numero),
        ("menu_texto_mediano"@, TipoValor::Numero),
        ("menu_texto_grande"@, TipoValor::Numero),
        ("portapapeles_boton_pequeno"@, TipoValor::NumeroPar),
        ("portapapeles_boton_mediano"@, TipoValor::NumeroPar),
        ("portapapeles_boton_grande"@, TipoValor::NumeroPar),
        ("tiempo_ignorar_cambio_portapapeles"@, TipoValor::Numero),
        ("tiempo_espera_pegado_imagen"@, TipoValor::Numero),
        ("tiempo_espera_pegado_texto"@, TipoValor::Numero),
        ("delay_imagen_photoshop"@, TipoValor::Numero),
    ]
}

/// First type listed for `k` in a table.
pub open spec fn tipo_en_tabla(t: Seq<(Seq<char>, TipoValor)>, k: Seq<char>) -> Option<TipoValor>
    decreases t.len(),
{
    if t.len() == 0 {
        None
    } else if t[0].0 == k {
        Some(t[0].1)
    } else {
        tipo_en_tabla(t.drop_first(), k)
    }
}

/// Type of the setter for `k`, if `k` has one.
pub open spec fn tipo_ajuste(k: Seq<char>) -> Option<TipoValor> {
    tipo_en_tabla(tabla_ajustes(), k)
}

/// Outcome of applying `v` to the setting `k`: `None` for a key without a
/// setter (ignored).
pub open spec fn resultado_ajuste(k: Seq<char>, v: Seq<char>, atajo_reconocido: bool) -> Result<
    Option<ValorAjuste>,
    Seq<char>,
> {
    match tipo_ajuste(k) {
        None => Ok(None),
        Some(TipoValor::Numero) => match resultado_numero(v) {
            Ok(n) => Ok(Some(ValorAjuste::Numero(n))),
            Err(m) => Err(m),
        },
        Some(TipoValor::NumeroPar) => match resultado_numero_par(v) {
            Ok((a, b)) => Ok(Some(ValorAjuste::Par(a, b))),
            Err(m) => Err(m),
        },
        Some(TipoValor::Booleano) => match resultado_booleano(v) {
            Ok(b) => Ok(Some(ValorAjuste::Booleano(b))),
            Err(m) => Err(m),
        },
        Some(_) => if atajo_reconocido {
            Ok(Some(ValorAjuste::Atajo))
        } else {
            Err(crate::valores::mensaje_atajo(v))
        },
    }
}

fn tabla_ajustes_exec() -> (r: Vec<(&'static str, TipoValor)>)
    ensures
        r@.len() == tabla_ajustes().len(),
        forall|i: int| 0 <= i < r@.len() ==> (#[trigger] r@[i]).0@ == tabla_ajustes()[i].0 && r@[i].1 == tabla_ajustes()[i].1,
{
    let r = vec![
        ("tiempo_doble", TipoValor::Numero),
        ("tiempo_mantenido", TipoValor::Numero),
        ("sensibilidad_rueda", TipoValor::Numero),
        ("tiempo_repeticion", TipoValor::Numero),
        ("tiempo_espera_normal", TipoValor::Numero),
        ("tiempo_maximo_retenido", TipoValor::Numero),
        ("tiempo_inactividad_captura", TipoValor::Numero),
        ("tecla_guardar_coordenada", TipoValor::Trigger),
        ("tecla_toggle_perfil", TipoValor::Trigger),
        ("tecla_grabar_macro", TipoValor::Trigger),
        ("intervalo_captura_coordenada", TipoValor::Numero),
        ("delay_entre_salida_doble", TipoValor::Numero),
        ("delay_rueda_repeticion", TipoValor::Numero),
        ("tiempo_simple_teclas", TipoValor::Numero),
        ("pausa_minima_entre_pasos_macro", TipoValor::Numero),
        ("mostrar_notificaciones", TipoValor::Booleano),
        ("duracion_notificacion_ms", TipoValor::Numero),
        ("delta_volumen", TipoValor::Numero),
        ("menu_boton_pequeno", TipoValor::NumeroPar),
        ("menu_boton_mediano", TipoValor::NumeroPar),
        ("menu_boton_grande", TipoValor::NumeroPar),
        ("menu_texto_pequeno", TipoValor::Numero),
        ("menu_texto_mediano", TipoValor::Numero),
        ("menu_texto_grande", TipoValor::Numero),
        ("portapapeles_boton_pequeno", TipoValor::NumeroPar),
        ("portapapeles_boton_mediano", TipoValor::NumeroPar),
        ("portapapeles_boton_grande", TipoValor::NumeroPar),
        ("tiempo_ignorar_cambio_portapapeles", TipoValor::Numero),
        ("tiempo_espera_pegado_imagen", TipoValor::Numero),
        ("tiempo_espera_pegado_texto", TipoValor::Numero),
        ("delay_imagen_photoshop", TipoValor::Numero),
    ];
    r
}

/// Reads `valor` for the general setting `clave`. `Ok(None)` for a key
/// without a setter (another section's, or left over from an older
/// version), which is ignored. Whether a key binding parses is the key
/// binding parser's verdict, `atajo_reconocido`.
pub fn aplicar_valor(clave: &str, valor: &str, atajo_reconocido: bool) -> (r: Result<
    Option<ValorAjuste>,
    String,
>)
    ensures
        vista_resultado(r) == resultado_ajuste(clave@, valor@, atajo_reconocido),
{
    let tabla = tabla_ajustes_exec();
    let ghost t = tabla_ajustes();
    let k = String::from_str(clave);
    let n = tabla.len();
    let mut tipo: Option<TipoValor> = None;
    let mut i: usize = 0;
    assert(t.skip(0) == t);
    while i < n && tipo.is_none()
        invariant
            n == tabla@.len() == t.len(),
            t == tabla_ajustes(),
            k@ == clave@,
            forall|j: int| 0 <= j < tabla@.len() ==> (#[trigger] tabla@[j]).0@ == t[j].0 && tabla@[j].1 == t[j].1,
            i <= n,
            tipo is None ==> tipo_en_tabla(t, clave@) == tipo_en_tabla(t.skip(i as int), clave@),
            tipo is Some ==> tipo_en_tabla(t, clave@) == tipo,
        decreases n - i + (if tipo is None { 1int } else { 0int }),
    {
        assert(t.skip(i as int)[0] == t[i as int]);
        assert(t.skip(i as int).drop_first() == t.skip(i + 1));
        let nombre = String::from_str(tabla[i].0);
        if nombre == k {
            assert(t[i as int].0 == clave@);
            tipo = Some(tabla[i].1);
        } else {
            i += 1;
        }
    }
    if tipo.is_none() {
        assert(t.skip(i as int).len() == 0);
    }
    match tipo {
        None => Ok(None),
        Some(TipoValor::Numero) => match parsear_numero(valor) {
            Ok(x) => Ok(Some(ValorAjuste::Numero(x))),
            Err(m) => Err(m),
        },
        Some(TipoValor::NumeroPar) => match parsear_numero_par(valor) {
            Ok((a, b)) => Ok(Some(ValorAjuste::Par(a, b))),
            Err(m) => Err(m),
        },
        Some(TipoValor::Booleano) => match parsear_booleano(valor) {
            Ok(b) => Ok(Some(ValorAjuste::Booleano(b))),
            Err(m) => Err(m),
        },
        Some(_) => match crate::valores::parsear_trigger(valor, atajo_reconocido) {
            Ok(()) => Ok(Some(ValorAjuste::Atajo)),
            Err(m) => Err(m),
        },
    }
}

// ------------------------------------------------------------------
// Laws
// ------------------------------------------------------------------

/// `m` with each change stored under its own key, value trimmed.
pub open spec fn con_cambios_recortados(m: MapaTexto, cs: Seq<Par>) -> MapaTexto
    decreases cs.len(),
{
    if cs.len() == 0 {
        m
    } else {
        con_cambios_recortados(m, cs.drop_last()).insert(cs.last().0, recortar(cs.last().1))
    }
}

pub proof fn lema_sin_prefijo_insertar(m: MapaTexto, p: Seq<char>, k: Seq<char>, v: Seq<char>)
    ensures
        sin_prefijo(m.insert(p + k, v), p) == sin_prefijo(m, p).insert(k, v),
{
    let a = sin_prefijo(m.insert(p + k, v), p);
    let b = sin_prefijo(m, p).insert(k, v);
    assert forall|y: Seq<char>| #[trigger] a.dom().contains(y) <==> b.dom().contains(y) by {
        if p + y == p + k {
            assert(y == (p + y).skip(p.len() as int));
            assert(k == (p + k).skip(p.len() as int));
        }
    }
    assert forall|y: Seq<char>| #[trigger] a.dom().contains(y) implies a[y] == b[y] by {
        if p + y == p + k {
            assert(y == (p + y).skip(p.len() as int));
            assert(k == (p + k).skip(p.len() as int));
        }
    }
    assert(a =~= b);
}

/// Reading a section after saving a batch into it gives the section as it
/// was, with each change stored under its key and its value trimmed.
pub proof fn ley_lote_leido(m: MapaTexto, p: Seq<char>, cs: Seq<Par>)
    ensures
        sin_prefijo(con_cambios_prefijo(m, p, cs), p) == con_cambios_recortados(sin_prefijo(m, p), cs),
    decreases cs.len(),
{
    if cs.len() > 0 {
        ley_lote_leido(m, p, cs.drop_last());
        lema_sin_prefijo_insertar(
            con_cambios_prefijo(m, p, cs.drop_last()),
            p,
            cs.last().0,
            recortar(cs.last().1),
        );
    }
}

proof fn lema_css_tiene_punto(k: Seq<char>)
    requires
        crate::texto::es_prefijo(PREFIJO_CSS@, k),
    ensures
        crate::texto::contiene(k, '.'),
{
    reveal_strlit("css.");
    assert(k.take(4)[3] == '.');
    assert(k[3] == '.');
}

/// Resetting the appearance section leaves the general settings as they
/// were.
pub proof fn ley_restablecer_css_conserva_generales(m: MapaTexto)
    ensures
        filtrado(filtrado(m, Filtro::SinPrefijo, PREFIJO_CSS@), Filtro::SinPunto, Seq::empty())
            == filtrado(m, Filtro::SinPunto, Seq::empty()),
{
    let a = filtrado(filtrado(m, Filtro::SinPrefijo, PREFIJO_CSS@), Filtro::SinPunto, Seq::empty());
    let b = filtrado(m, Filtro::SinPunto, Seq::empty());
    assert forall|k: Seq<char>| #[trigger] a.dom().contains(k) <==> b.dom().contains(k) by {
        if crate::texto::es_prefijo(PREFIJO_CSS@, k) {
            lema_css_tiene_punto(k);
        }
    }
    assert(a =~= b);
}

/// Resetting the general settings empties that section and leaves the
/// appearance section as it was.
pub proof fn ley_restablecer_generales(m: MapaTexto)
    ensures
        filtrado(filtrado(m, Filtro::ConPunto, Seq::empty()), Filtro::SinPunto, Seq::empty())
            == Map::<Seq<char>, Seq<char>>::empty(),
        sin_prefijo(filtrado(m, Filtro::ConPunto, Seq::empty()), PREFIJO_CSS@) == sin_prefijo(
            m,
            PREFIJO_CSS@,
        ),
{
    let a = filtrado(filtrado(m, Filtro::ConPunto, Seq::empty()), Filtro::SinPunto, Seq::empty());
    assert(a =~= Map::<Seq<char>, Seq<char>>::empty());
    let c = sin_prefijo(filtrado(m, Filtro::ConPunto, Seq::empty()), PREFIJO_CSS@);
    let d = sin_prefijo(m, PREFIJO_CSS@);
    assert forall|y: Seq<char>| #[trigger] c.dom().contains(y) <==> d.dom().contains(y) by {
        let k = PREFIJO_CSS@ + y;
        assert(k.take(PREFIJO_CSS@.len() as int) == PREFIJO_CSS@);
        lema_css_tiene_punto(k);
    }
    assert(c =~= d);
}

/// Storing the entries of a store one by one is taking their union, the
/// stored entries winning.
pub proof fn lema_con_cambios_union(m: MapaTexto, s: Seq<Par>)
    requires
        crate::mapa::ordenada(s),
    ensures
        con_cambios(m, s) == m.union_prefer_right(crate::mapa::como_mapa(s)),
    decreases s.len(),
{
    if s.len() == 0 {
        crate::mapa::lema_vacia();
        assert(m.union_prefer_right(Map::empty()) =~= m);
    } else {
        let previa = s.drop_last();
        assert(crate::mapa::ordenada(previa));
        lema_con_cambios_union(m, previa);
        assert forall|j: int| 0 <= j < previa.len() implies crate::texto::precede(
            #[trigger] previa[j].0,
            s.last().0,
        ) by {
            assert(previa[j] == s[j]);
        }
        crate::mapa::lema_insertar_nueva(previa, previa.len() as int, s.last());
        assert(previa.insert(previa.len() as int, s.last()) == s);
        assert(m.union_prefer_right(crate::mapa::como_mapa(previa)).insert(s.last().0, s.last().1)
            =~= m.union_prefer_right(crate::mapa::como_mapa(previa).insert(s.last().0, s.last().1)));
    }
}

// ------------------------------------------------------------------
// Factory values to apply again
// ------------------------------------------------------------------

/// Factory value of `k` in the catalog (the first row with that key).
pub open spec fn defecto_en_catalogo(cat: Seq<FilaCatalogo>, k: Seq<char>) -> Option<Seq<char>>
    decreases cat.len(),
{
    if cat.len() == 0 {
        None
    } else if cat[0].0 == k {
        Some(cat[0].2)
    } else {
        defecto_en_catalogo(cat.drop_first(), k)
    }
}

/// For each listed key found in the catalog, in order, the key and its
/// factory value.
pub open spec fn defectos_de(cat: Seq<FilaCatalogo>, ks: Seq<Seq<char>>) -> Seq<Par>
    decreases ks.len(),
{
    if ks.len() == 0 {
        seq![]
    } else {
        let previos = defectos_de(cat, ks.drop_last());
        match defecto_en_catalogo(cat, ks.last()) {
            Some(d) => previos.push((ks.last(), d)),
            None => previos,
        }
    }
}

fn defecto_de_clave(catalogo: &[EntradaCatalogo], clave: &str) -> (r: Option<String>)
    ensures
        match r {
            Some(d) => defecto_en_catalogo(vista_catalogo(catalogo@), clave@) == Some(d@),
            None => defecto_en_catalogo(vista_catalogo(catalogo@), clave@) is None,
        },
{
    let ghost cat = vista_catalogo(catalogo@);
    let c = String::from_str(clave);
    let n = catalogo.len();
    let mut j: usize = 0;
    assert(cat.skip(0) == cat);
    while j < n
        invariant
            j <= n == cat.len(),
            cat == vista_catalogo(catalogo@),
            c@ == clave@,
            defecto_en_catalogo(cat, clave@) == defecto_en_catalogo(cat.skip(j as int), clave@),
        decreases n - j,
    {
        assert(cat.skip(j as int)[0] == cat[j as int]);
        assert(cat.skip(j as int).drop_first() == cat.skip(j + 1));
        if catalogo[j].clave == c {
            return Some(catalogo[j].valor_defecto.clone());
        }
        j += 1;
    }
    None
}

/// The general settings to apply again after a reset: every catalog row
/// (`None`, the whole section) or the listed keys found in the catalog,
/// each with its factory value.
pub fn valores_de_fabrica(catalogo: &[EntradaCatalogo], claves: Option<&[&str]>) -> (r: Vec<
    (String, String),
>)
    ensures
        match claves {
            None => vista_entradas(r@) == Seq::new(
                catalogo@.len(),
                |i: int| (catalogo@[i].clave@, catalogo@[i].valor_defecto@),
            ),
            Some(ks) => vista_entradas(r@) == defectos_de(vista_catalogo(catalogo@), vista_claves(ks@)),
        },
{
    let mut r: Vec<(String, String)> = Vec::new();
    match claves {
        None => {
            let n = catalogo.len();
            let mut i: usize = 0;
            while i < n
                invariant
                    i <= n == catalogo@.len(),
                    r@.len() == i,
                    forall|j: int|
                        0 <= j < i ==> (#[trigger] r@[j]).0@ == catalogo@[j].clave@ && r@[j].1@
                            == catalogo@[j].valor_defecto@,
                decreases n - i,
            {
                r.push((catalogo[i].clave.clone(), catalogo[i].valor_defecto.clone()));
                i += 1;
            }
            assert(vista_entradas(r@) =~= Seq::new(
                catalogo@.len(),
                |i: int| (catalogo@[i].clave@, catalogo@[i].valor_defecto@),
            ));
        },
        Some(ks) => {
            let ghost cat = vista_catalogo(catalogo@);
            let ghost kv = vista_claves(ks@);
            let n = ks.len();
            assert(kv.take(0) =~= Seq::<Seq<char>>::empty());
            for i in 0..n
                invariant
                    n == ks@.len(),
                    cat == vista_catalogo(catalogo@),
                    kv == vista_claves(ks@),
                    vista_entradas(r@) == defectos_de(cat, kv.take(i as int)),
            {
                assert(kv.take(i + 1).drop_last() =~= kv.take(i as int));
                assert(kv.take(i + 1).last() == ks@[i as int]@);
                match defecto_de_clave(catalogo, ks[i]) {
                    Some(d) => {
                        let ghost antes = r@;
                        let k = String::from_str(ks[i]);
                        r.push((k, d));
                        assert(vista_entradas(r@) =~= vista_entradas(antes).push((ks@[i as int]@, d@)));
                    },
                    None => {},
                }
            }
            assert(kv.take(n as int) =~= kv);
        },
    }
    r
}

proof fn lema_recortar_cambios_recortados(x: MapaTexto, cs: Seq<Par>)
    ensures
        crate::formato::recortar_valores(con_cambios_recortados(x, cs)) == con_cambios_recortados(
            crate::formato::recortar_valores(x),
            cs,
        ),
    decreases cs.len(),
{
    if cs.len() == 0 {
    } else {
        lema_recortar_cambios_recortados(x, cs.drop_last());
        crate::formato::lema_recortado_sin_bordes(cs.last().1);
        assert(crate::formato::recortar_valores(
            con_cambios_recortados(x, cs.drop_last()).insert(cs.last().0, recortar(cs.last().1)),
        ) =~= crate::formato::recortar_valores(con_cambios_recortados(x, cs.drop_last())).insert(
            cs.last().0,
            recortar(cs.last().1),
        ));
    }
}

/// Reading a section back from the written settings file after saving a
/// batch into it gives the section as it was read before, with each change
/// stored under its key and its value trimmed. (`formato::contenido_archivo`
/// states that reading the written file gives the store with its values
/// trimmed, for a store the file can hold.)
pub proof fn ley_lote_releido(m: MapaTexto, p: Seq<char>, cs: Seq<Par>)
    ensures
        sin_prefijo(crate::formato::recortar_valores(con_cambios_prefijo(m, p, cs)), p)
            == con_cambios_recortados(crate::formato::recortar_valores(sin_prefijo(m, p)), cs),
{
    let g = con_cambios_prefijo(m, p, cs);
    assert(sin_prefijo(crate::formato::recortar_valores(g), p) =~= crate::formato::recortar_valores(
        sin_prefijo(g, p),
    ));
    ley_lote_leido(m, p, cs);
    lema_recortar_cambios_recortados(sin_prefijo(m, p), cs);
}

/// Key names through the settings file: when the store after a key name
/// batch (entries `s`, sorted) is one the file can hold, writing it and
/// reading the file back gives, under `pulsador.` and without the prefix,
/// exactly the key names as they were read before with each saved name
/// stored under its key and trimmed.
pub proof fn ley_nombres_por_archivo(s: Seq<Par>, m: MapaTexto, cs: Seq<Par>)
    requires
        crate::mapa::ordenada(s),
        crate::mapa::como_mapa(s) == con_cambios_prefijo(m, PREFIJO_PULSADOR@, cs),
        crate::formato::mapa_escribible(crate::mapa::como_mapa(s)),
    ensures
        sin_prefijo(
            crate::formato::mapa_de_texto(crate::formato::texto_archivo(s)),
            PREFIJO_PULSADOR@,
        ) == con_cambios_recortados(
            crate::formato::recortar_valores(sin_prefijo(m, PREFIJO_PULSADOR@)),
            cs,
        ),
{
    crate::formato::lema_entradas_escribibles(s);
    crate::formato::ley_ida_y_vuelta_recortada(s);
    ley_lote_releido(m, PREFIJO_PULSADOR@, cs);
}

proof fn lema_tipo_en_tabla(t: Seq<(Seq<char>, TipoValor)>, i: int, k: Seq<char>)
    requires
        0 <= i < t.len(),
        t[i].0 == k,
        forall|j: int| 0 <= j < i ==> t[j].0 != k,
    ensures
        tipo_en_tabla(t, k) == Some(t[i].1),
    decreases i,
{
    if i > 0 {
        let d = t.drop_first();
        assert(t[0].0 != k);
        assert forall|j: int| 0 <= j < i - 1 implies d[j].0 != k by {
            assert(d[j] == t[j + 1]);
        }
        lema_tipo_en_tabla(d, i - 1, k);
    }
}

/// The general settings that have a setter: each numeric one reads its value
/// as a number, each size as a pair, `mostrar_notificaciones` as a boolean
/// and each key binding through its parser; none of them is ignored.
pub proof fn ley_ajustes_con_setter(k: Seq<char>, v: Seq<char>, atajo_reconocido: bool)
    ensures
        (k == "tiempo_doble"@
            || k == "tiempo_mantenido"@
            || k == "sensibilidad_rueda"@
            || k == "tiempo_repeticion"@
            || k == "tiempo_espera_normal"@
            || k == "tiempo_maximo_retenido"@
            || k == "tiempo_inactividad_captura"@
            || k == "intervalo_captura_coordenada"@
            || k == "delay_entre_salida_doble"@
            || k == "delay_rueda_repeticion"@
            || k == "tiempo_simple_teclas"@
            || k == "pausa_minima_entre_pasos_macro"@
            || k == "duracion_notificacion_ms"@
            || k == "delta_volumen"@
            || k == "menu_texto_pequeno"@
            || k == "menu_texto_mediano"@
            || k == "menu_texto_grande"@
            || k == "tiempo_ignorar_cambio_portapapeles"@
            || k == "tiempo_espera_pegado_imagen"@
            || k == "tiempo_espera_pegado_texto"@
            || k == "delay_imagen_photoshop"@) ==> resultado_ajuste(k, v, atajo_reconocido) == match resultado_numero(v) {
            Ok(n) => Ok(Some(ValorAjuste::Numero(n))),
            Err(m) => Err(m),
        },
        (k == "menu_boton_pequeno"@
            || k == "menu_boton_mediano"@
            || k == "menu_boton_grande"@
            || k == "portapapeles_boton_pequeno"@
            || k == "portapapeles_boton_mediano"@
            || k == "portapapeles_boton_grande"@) ==> resultado_ajuste(k, v, atajo_reconocido) == match resultado_numero_par(v) {
            Ok((a, b)) => Ok(Some(ValorAjuste::Par(a, b))),
            Err(m) => Err(m),
        },
        k == "mostrar_notificaciones"@ ==> resultado_ajuste(k, v, atajo_reconocido) == match resultado_booleano(v) {
            Ok(b) => Ok(Some(ValorAjuste::Booleano(b))),
            Err(m) => Err(m),
        },
        (k == "tecla_guardar_coordenada"@
            || k == "tecla_toggle_perfil"@
            || k == "tecla_grabar_macro"@) ==> resultado_ajuste(k, v, atajo_reconocido) == if atajo_reconocido {
            Ok(Some(ValorAjuste::Atajo))
        } else {
            Err(crate::valores::mensaje_atajo(v))
        },
{
    assert(tipo_ajuste("tiempo_doble"@) == Some(TipoValor::Numero)) by {
        reveal_strlit("tiempo_doble");
        lema_tipo_en_tabla(tabla_ajustes(), 0, "tiempo_doble"@);
    }
    assert(tipo_ajuste("tiempo_mantenido"@) == Some(TipoValor::Numero)) by {
        reveal_strlit("tiempo_mantenido");
        reveal_strlit("tiempo_doble");
        assert("tiempo_doble"@.len() != "tiempo_mantenido"@.len());
        lema_tipo_en_tabla(tabla_ajustes(), 1, "tiempo_mantenido"@);
    }
    assert(tipo_ajuste("sensibilidad_rueda"@) == Some(TipoValor::Numero)) by {
        reveal_strlit("sensibilidad_rueda");
        reveal_strlit("tiempo_doble");
        assert("tiempo_doble"@.len() != "sensibilidad_rueda"@.len());
        reveal_strlit("tiempo_mantenido");
        assert("tiempo_mantenido"@.len() != "sensibilidad_rueda"@.len());
        lema_tipo_en_tabla(tabla_ajustes(), 2, "sensibilidad_rueda"@);
    }
    assert(tipo_ajuste("tiempo_repeticion"@) == Some(TipoValor::Numero)) by {
        reveal_strlit("tiempo_repeticion");
        reveal_strlit("tiempo_doble");
        assert("tiempo_doble"@.len() != "tiempo_repeticion"@.len());
        reveal_strlit("tiempo_mantenido");
        assert("tiempo_mantenido"@.len() != "tiempo_repeticion"@.len());
        reveal_strlit("sensibilidad_rueda");
        assert("sensibilidad_rueda"@.len() != "tiempo_repeticion"@.len());
        lema_tipo_en_tabla(tabla_ajustes(), 3, "tiempo_repeticion"@);
    }
    assert(tipo_ajuste("tiempo_espera_normal"@) == Some(TipoValor::Numero)) by {
        reveal_strlit("tiempo_espera_normal");
        reveal_strlit("tiempo_doble");
        assert("tiempo_doble"@.len() != "tiempo_espera_normal"@.len());
        reveal_strlit("tiempo_mantenido");
        assert("tiempo_mantenido"@.len() != "tiempo_espera_normal"@.len());
        reveal_strlit("sensibilidad_rueda");
        assert("sensibilidad_rueda"@.len() != "tiempo_espera_normal"@.len());
        reveal_strlit("tiempo_repeticion");
        assert("tiempo_repeticion"@.len() != "tiempo_espera_normal"@.len());
        lema_tipo_en_tabla(tabla_ajustes(), 4, "tiempo_espera_normal"@);
    }
    assert(tipo_ajuste("tiempo_maximo_retenido"@) == Some(TipoValor::Numero)) by {
        reveal_strlit("tiempo_maximo_retenido");
        reveal_strlit("tiempo_doble");
        assert("tiempo_doble"@.len() != "tiempo_maximo_retenido"@.len());
        reveal_strlit("tiempo_mantenido");
        assert("tiempo_mantenido"@.len() != "tiempo_maximo_retenido"@.len());
        reveal_strlit("sensibilidad_rueda");
        assert("sensibilidad_rueda"@.len() != "tiempo_maximo_retenido"@.len());
        reveal_strlit("tiempo_repeticion");
        assert("tiempo_repeticion"@.len() != "tiempo_maximo_retenido"@.len());
        reveal_strlit("tiempo_espera_normal");
        assert("tiempo_espera_normal"@.len() != "tiempo_maximo_retenido"@.len());
        lema_tipo_en_tabla(tabla_ajustes(), 5, "tiempo_maximo_retenido"@);
    }
    assert(tipo_ajuste("tiempo_inactividad_captura"@) == Some(TipoValor::Numero)) by {
        reveal_strlit("tiempo_inactividad_captura");
        reveal_strlit("tiempo_doble");
        assert("tiempo_doble"@.len() != "tiempo_inactividad_captura"@.len());
        reveal_strlit("tiempo_mantenido");
        assert("tiempo_mantenido"@.len() != "tiempo_inactividad_captura"@.len());
        reveal_strlit("sensibilidad_rueda");
        assert("sensibilidad_rueda"@.len() != "tiempo_inactividad_captura"@.len());
        reveal_strlit("tiempo_repeticion");
        assert("tiempo_repeticion"@.len() != "tiempo_inactividad_captura"@.len());
        reveal_strlit("tiempo_espera_normal");
        assert("tiempo_espera_normal"@.len() != "tiempo_inactividad_captura"@.len());
        reveal_strlit("tiempo_maximo_retenido");
        assert("tiempo_maximo_retenido"@.len() != "tiempo_inactividad_captura"@.len());
        lema_tipo_en_tabla(tabla_ajustes(), 6, "tiempo_inactividad_captura"@);
    }
    assert(tipo_ajuste("tecla_guardar_coordenada"@) == Some(TipoValor::Trigger)) by {
        reveal_strlit("tecla_guardar_coordenada");
        reveal_strlit("tiempo_doble");
        assert("tiempo_doble"@.len() != "tecla_guardar_coordenada"@.len());
        reveal_strlit("tiempo_mantenido");
        assert("tiempo_mantenido"@.len() != "tecla_guardar_coordenada"@.len());
        reveal_strlit("sensibilidad_rueda");
        assert("sensibilidad_rueda"@.len() != "tecla_guardar_coordenada"@.len());
        reveal_strlit("tiempo_repeticion");
        assert("tiempo_repeticion"@.len() != "tecla_guardar_coordenada"@.len());
        reveal_strlit("tiempo_espera_normal");
        assert("tiempo_espera_normal"@.len() != "tecla_guardar_coordenada"@.len());
        reveal_strlit("tiempo_maximo_retenido");
        assert("tiempo_maximo_retenido"@.len() != "tecla_guardar_coordenada"@.len());
        reveal_strlit("tiempo_inactividad_captura");
        assert("tiempo_inactividad_captura"@.len() != "tecla_guardar_coordenada"@.len());
        lema_tipo_en_tabla(tabla_ajustes(), 7, "tecla_guardar_coordenada"@);
    }
    assert(tipo_ajuste("tecla_toggle_perfil"@) == Some(TipoValor::Trigger)) by {
        reveal_strlit("tecla_toggle_perfil");
        reveal_strlit("tiempo_doble");
        assert("tiempo_doble"@.len() != "tecla_toggle_perfil"@.len());
        reveal_strlit("tiempo_mantenido");
        assert("tiempo_mantenido"@.len() != "tecla_toggle_perfil"@.len());
        reveal_strlit("sensibilidad_rueda");
        assert("sensibilidad_rueda"@.len() != "tecla_toggle_perfil"@.len());
        reveal_strlit("tiempo_repeticion");
        assert("tiempo_repeticion"@.len() != "tecla_toggle_perfil"@.len());
        reveal_strlit("tiempo_espera_normal");
        assert("tiempo_espera_normal"@.len() != "tecla_toggle_perfil"@.len());
        reveal_strlit("tiempo_maximo_retenido");
        assert("tiempo_maximo_retenido"@.len() != "tecla_toggle_perfil"@.len());
        reveal_strlit("tiempo_inactividad_captura");
        assert("tiempo_inactividad_captura"@.len() != "tecla_toggle_perfil"@.len());
        reveal_strlit("tecla_guardar_coordenada");
        assert("tecla_guardar_coordenada"@.len() != "tecla_toggle_perfil"@.len());
        lema_tipo_en_tabla(tabla_ajustes(), 8, "tecla_toggle_perfil"@);
    }
    assert(tipo_ajuste("tecla_grabar_macro"@) == Some(TipoValor::Trigger)) by {
        reveal_strlit("tecla_grabar_macro");
        reveal_strlit("tiempo_doble");
        assert("tiempo_doble"@.len() != "tecla_grabar_macro"@.len());
        reveal_strlit("tiempo_mantenido");
        assert("tiempo_mantenido"@.len() != "tecla_grabar_macro"@.len());
        reveal_strlit("sensibilidad_rueda");
        assert("sensibilidad_rueda"@[0] != "tecla_grabar_macro"@[0]);
        reveal_strlit("tiempo_repeticion");
        assert("tiempo_repeticion"@.len() != "tecla_grabar_macro"@.len());
        reveal_strlit("tiempo_espera_normal");
        assert("tiempo_espera_normal"@.len() != "tecla_grabar_macro"@.len());
        reveal_strlit("tiempo_maximo_retenido");
        assert("tiempo_maximo_retenido"@.len() != "tecla_grabar_macro"@.len());
        reveal_strlit("tiempo_inactividad_captura");
        assert("tiempo_inactividad_captura"@.len() != "tecla_grabar_macro"@.len());
        reveal_strlit("tecla_guardar_coordenada");
        assert("tecla_guardar_coordenada"@.len() != "tecla_grabar_macro"@.len());
        reveal_strlit("tecla_toggle_perfil");
        assert("tecla_toggle_perfil"@.len() != "tecla_grabar_macro"@.len());
        lema_tipo_en_tabla(tabla_ajustes(), 9, "tecla_grabar_macro"@);
    }
    assert(tipo_ajuste("intervalo_captura_coordenada"@) == Some(TipoValor::Numero)) by {
        reveal_strlit("intervalo_captura_coordenada");
        reveal_strlit("tiempo_doble");
        assert("tiempo_doble"@.len() != "intervalo_captura_coordenada"@.len());
        reveal_strlit("tiempo_mantenido");
        assert("tiempo_mantenido"@.len() != "intervalo_captura_coordenada"@.len());
        reveal_strlit("sensibilidad_rueda");
        assert("sensibilidad_rueda"@.len() != "intervalo_captura_coordenada"@.len());
        reveal_strlit("tiempo_repeticion");
        assert("tiempo_repeticion"@.len() != "intervalo_captura_coordenada"@.len());
        reveal_strlit("tiempo_espera_normal");
        assert("tiempo_espera_normal"@.len() != "intervalo_captura_coordenada"@.len());
        reveal_strlit("tiempo_maximo_retenido");
        assert("tiempo_maximo_retenido"@.len() != "intervalo_captura_coordenada"@.len());
        reveal_strlit("tiempo_inactividad_captura");
        assert("tiempo_inactividad_captura"@.len() != "intervalo_captura_coordenada"@.len());
        reveal_strlit("tecla_guardar_coordenada");
        assert("tecla_guardar_coordenada"@.len() != "intervalo_captura_coordenada"@.len());
        reveal_strlit("tecla_toggle_perfil");
        assert("tecla_toggle_perfil"@.len() != "intervalo_captura_coordenada"@.len());
        reveal_strlit("tecla_grabar_macro");
        assert("tecla_grabar_macro"@.len() != "intervalo_captura_coordenada"@.len());
        lema_tipo_en_tabla(tabla_ajustes(), 10, "intervalo_captura_coordenada"@);
    }
    assert(tipo_ajuste("delay_entre_salida_doble"@) == Some(TipoValor::Numero)) by {
        reveal_strlit("delay_entre_salida_doble");
        reveal_strlit("tiempo_doble");
        assert("tiempo_doble"@.len() != "delay_entre_salida_doble"@.len());
        reveal_strlit("tiempo_mantenido");
        assert("tiempo_mantenido"@.len() != "delay_entre_salida_doble"@.len());
        reveal_strlit("sensibilidad_rueda");
        assert("sensibilidad_rueda"@.len() != "delay_entre_salida_doble"@.len());
        reveal_strlit("tiempo_repeticion");
        assert("tiempo_repeticion"@.len() != "delay_entre_salida_doble"@.len());
        reveal_strlit("tiempo_espera_normal");
        assert("tiempo_espera_normal"@.len() != "delay_entre_salida_doble"@.len());
        reveal_strlit("tiempo_maximo_retenido");
        assert("tiempo_maximo_retenido"@.len() != "delay_entre_salida_doble"@.len());
        reveal_strlit("tiempo_inactividad_captura");
        assert("tiempo_inactividad_captura"@.len() != "delay_entre_salida_doble"@.len());
        reveal_strlit("tecla_guardar_coordenada");
        assert("tecla_guardar_coordenada"@[0] != "delay_entre_salida_doble"@[0]);
        reveal_strlit("tecla_toggle_perfil");
        assert("tecla_toggle_perfil"@.len() != "delay_entre_salida_doble"@.len());
        reveal_strlit("tecla_grabar_macro");
        assert("tecla_grabar_macro"@.len() != "delay_entre_salida_doble"@.len());
        reveal_strlit("intervalo_captura_coordenada");
        assert("intervalo_captura_coordenada"@.len() != "delay_entre_salida_doble"@.len());
        lema_tipo_en_tabla(tabla_ajustes(), 11, "delay_entre_salida_doble"@);
    }
    assert(tipo_ajuste("delay_rueda_repeticion"@) == Some(TipoValor::Numero)) by {
        reveal_strlit("delay_rueda_repeticion");
        reveal_strlit("tiempo_doble");
        assert("tiempo_doble"@.len() != "delay_rueda_repeticion"@.len());
        reveal_strlit("tiempo_mantenido");
        assert("tiempo_mantenido"@.len() != "delay_rueda_repeticion"@.len());
        reveal_strlit("sensibilidad_rueda");
        assert("sensibilidad_rueda"@.len() != "delay_rueda_repeticion"@.len());
        reveal_strlit("tiempo_repeticion");
        assert("tiempo_repeticion"@.len() != "delay_rueda_repeticion"@.len());
        reveal_strlit("tiempo_espera_normal");
        assert("tiempo_espera_normal"@.len() != "delay_rueda_repeticion"@.len());
        reveal_strlit("tiempo_maximo_retenido");
        assert("tiempo_maximo_retenido"@[0] != "delay_rueda_repeticion"@[0]);
        reveal_strlit("tiempo_inactividad_captura");
        assert("tiempo_inactividad_captura"@.len() != "delay_rueda_repeticion"@.len());
        reveal_strlit("tecla_guardar_coordenada");
        assert("tecla_guardar_coordenada"@.len() != "delay_rueda_repeticion"@.len());
        reveal_strlit("tecla_toggle_perfil");
        assert("tecla_toggle_perfil"@.len() != "delay_rueda_repeticion"@.len());
        reveal_strlit("tecla_grabar_macro");
        assert("tecla_grabar_macro"@.len() != "delay_rueda_repeticion"@.len());
        reveal_strlit("intervalo_captura_coordenada");
        assert("intervalo_captura_coordenada"@.len() != "delay_rueda_repeticion"@.len());
        reveal_strlit("delay_entre_salida_doble");
        assert("delay_entre_salida_doble"@.len() != "delay_rueda_repeticion"@.len());
        lema_tipo_en_tabla(tabla_ajustes(), 12, "delay_rueda_repeticion"@);
    }
    assert(tipo_ajuste("tiempo_simple_teclas"@) == Some(TipoValor::Numero)) by {
        reveal_strlit("tiempo_simple_teclas");
        reveal_strlit("tiempo_doble");
        assert("tiempo_doble"@.len() != "tiempo_simple_teclas"@.len());
        reveal_strlit("tiempo_mantenido");
        assert("tiempo_mantenido"@.len() != "tiempo_simple_teclas"@.len());
        reveal_strlit("sensibilidad_rueda");
        assert("sensibilidad_rueda"@.len() != "tiempo_simple_teclas"@.len());
        reveal_strlit("tiempo_repeticion");
        assert("tiempo_repeticion"@.len() != "tiempo_simple_teclas"@.len());
        reveal_strlit("tiempo_espera_normal");
        assert("tiempo_espera_normal"@[7] != "tiempo_simple_teclas"@[7]);
        reveal_strlit("tiempo_maximo_retenido");
        assert("tiempo_maximo_retenido"@.len() != "tiempo_simple_teclas"@.len());
        reveal_strlit("tiempo_inactividad_captura");
        assert("tiempo_inactividad_captura"@.len() != "tiempo_simple_teclas"@.len());
        reveal_strlit("tecla_guardar_coordenada");
        assert("tecla_guardar_coordenada"@.len() != "tiempo_simple_teclas"@.len());
        reveal_strlit("tecla_toggle_perfil");
        assert("tecla_toggle_perfil"@.len() != "tiempo_simple_teclas"@.len());
        reveal_strlit("tecla_grabar_macro");
        assert("tecla_grabar_macro"@.len() != "tiempo_simple_teclas"@.len());
        reveal_strlit("intervalo_captura_coordenada");
        assert("intervalo_captura_coordenada"@.len() != "tiempo_simple_teclas"@.len());
        reveal_strlit("delay_entre_salida_doble");
        assert("delay_entre_salida_doble"@.len() != "tiempo_simple_teclas"@.len());
        reveal_strlit("delay_rueda_repeticion");
        assert("delay_rueda_repeticion"@.len() != "tiempo_simple_teclas"@.len());
        lema_tipo_en_tabla(tabla_ajustes(), 13, "tiempo_simple_teclas"@);
    }
    assert(tipo_ajuste("pausa_minima_entre_pasos_macro"@) == Some(TipoValor::Numero)) by {
        reveal_strlit("pausa_minima_entre_pasos_macro");
        reveal_strlit("tiempo_doble");
        assert("tiempo_doble"@.len() != "pausa_minima_entre_pasos_macro"@.len());
        reveal_strlit("tiempo_mantenido");
        assert("tiempo_mantenido"@.len() != "pausa_minima_entre_pasos_macro"@.len());
        reveal_strlit("sensibilidad_rueda");
        assert("sensibilidad_rueda"@.len() != "pausa_minima_entre_pasos_macro"@.len());
        reveal_strlit("tiempo_repeticion");
        assert("tiempo_repeticion"@.len() != "pausa_minima_entre_pasos_macro"@.len());
        reveal_strlit("tiempo_espera_normal");
        assert("tiempo_espera_normal"@.len() != "pausa_minima_entre_pasos_macro"@.len());
        reveal_strlit("tiempo_maximo_retenido");
        assert("tiempo_maximo_retenido"@.len() != "pausa_minima_entre_pasos_macro"@.len());
        reveal_strlit("tiempo_inactividad_captura");
        assert("tiempo_inactividad_captura"@.len() != "pausa_minima_entre_pasos_macro"@.len());
        reveal_strlit("tecla_guardar_coordenada");
        assert("tecla_guardar_coordenada"@.len() != "pausa_minima_entre_pasos_macro"@.len());
        reveal_strlit("tecla_toggle_perfil");
        assert("tecla_toggle_perfil"@.len() != "pausa_minima_entre_pasos_macro"@.len());
        reveal_strlit("tecla_grabar_macro");
        assert("tecla_grabar_macro"@.len() != "pausa_minima_entre_pasos_macro"@.len());
        reveal_strlit("intervalo_captura_coordenada");
        assert("intervalo_captura_coordenada"@.len() != "pausa_minima_entre_pasos_macro"@.len());
        reveal_strlit("delay_entre_salida_doble");
        assert("delay_entre_salida_doble"@.len() != "pausa_minima_entre_pasos_macro"@.len());
        reveal_strlit("delay_rueda_repeticion");
        assert("delay_rueda_repeticion"@.len() != "pausa_minima_entre_pasos_macro"@.len());
        reveal_strlit("tiempo_simple_teclas");
        assert("tiempo_simple_teclas"@.len() != "pausa_minima_entre_pasos_macro"@.len());
        lema_tipo_en_tabla(tabla_ajustes(), 14, "pausa_minima_entre_pasos_macro"@);
    }
    assert(tipo_ajuste("mostrar_notificaciones"@) == Some(TipoValor::Booleano)) by {
        reveal_strlit("mostrar_notificaciones");
        reveal_strlit("tiempo_doble");
        assert("tiempo_doble"@.len() != "mostrar_notificaciones"@.len());
        reveal_strlit("tiempo_mantenido");
        assert("tiempo_mantenido"@.len() != "mostrar_notificaciones"@.len());
        reveal_strlit("sensibilidad_rueda");
        assert("sensibilidad_rueda"@.len() != "mostrar_notificaciones"@.len());
        reveal_strlit("tiempo_repeticion");
        assert("tiempo_repeticion"@.len() != "mostrar_notificaciones"@.len());
        reveal_strlit("tiempo_espera_normal");
        assert("tiempo_espera_normal"@.len() != "mostrar_notificaciones"@.len());
        reveal_strlit("tiempo_maximo_retenido");
        assert("tiempo_maximo_retenido"@[0] != "mostrar_notificaciones"@[0]);
        reveal_strlit("tiempo_inactividad_captura");
        assert("tiempo_inactividad_captura"@.len() != "mostrar_notificaciones"@.len());
        reveal_strlit("tecla_guardar_coordenada");
        assert("tecla_guardar_coordenada"@.len() != "mostrar_notificaciones"@.len());
        reveal_strlit("tecla_toggle_perfil");
        assert("tecla_toggle_perfil"@.len() != "mostrar_notificaciones"@.len());
        reveal_strlit("tecla_grabar_macro");
        assert("tecla_grabar_macro"@.len() != "mostrar_notificaciones"@.len());
        reveal_strlit("intervalo_captura_coordenada");
        assert("intervalo_captura_coordenada"@.len() != "mostrar_notificaciones"@.len());
        reveal_strlit("delay_entre_salida_doble");
        assert("delay_entre_salida_doble"@.len() != "mostrar_notificaciones"@.len());
        reveal_strlit("delay_rueda_repeticion");
        assert("delay_rueda_repeticion"@[0] != "mostrar_notificaciones"@[0]);
        reveal_strlit("tiempo_simple_teclas");
        assert("tiempo_simple_teclas"@.len() != "mostrar_notificaciones"@.len());
        reveal_strlit("pausa_minima_entre_pasos_macro");
        assert("pausa_minima_entre_pasos_macro"@.len() != "mostrar_notificaciones"@.len());
        lema_tipo_en_tabla(tabla_ajustes(), 15, "mostrar_notificaciones"@);
    }
    assert(tipo_ajuste("duracion_notificacion_ms"@) == Some(TipoValor::Numero)) by {
        reveal_strlit("duracion_notificacion_ms");
        reveal_strlit("tiempo_doble");
        assert("tiempo_doble"@.len() != "duracion_notificacion_ms"@.len());
        reveal_strlit("tiempo_mantenido");
        assert("tiempo_mantenido"@.len() != "duracion_notificacion_ms"@.len());
        reveal_strlit("sensibilidad_rueda");
        assert("sensibilidad_rueda"@.len() != "duracion_notificacion_ms"@.len());
        reveal_strlit("tiempo_repeticion");
        assert("tiempo_repeticion"@.len() != "duracion_notificacion_ms"@.len());
        reveal_strlit("tiempo_espera_normal");
        assert("tiempo_espera_normal"@.len() != "duracion_notificacion_ms"@.len());
        reveal_strlit("tiempo_maximo_retenido");
        assert("tiempo_maximo_retenido"@.len() != "duracion_notificacion_ms"@.len());
        reveal_strlit("tiempo_inactividad_captura");
        assert("tiempo_inactividad_captura"@.len() != "duracion_notificacion_ms"@.len());
        reveal_strlit("tecla_guardar_coordenada");
        assert("tecla_guardar_coordenada"@[0] != "duracion_notificacion_ms"@[0]);
        reveal_strlit("tecla_toggle_perfil");
        assert("tecla_toggle_perfil"@.len() != "duracion_notificacion_ms"@.len());
        reveal_strlit("tecla_grabar_macro");
        assert("tecla_grabar_macro"@.len() != "duracion_notificacion_ms"@.len());
        reveal_strlit("intervalo_captura_coordenada");
        assert("intervalo_captura_coordenada"@.len() != "duracion_notificacion_ms"@.len());
        reveal_strlit("delay_entre_salida_doble");
        assert("delay_entre_salida_doble"@[1] != "duracion_notificacion_ms"@[1]);
        reveal_strlit("delay_rueda_repeticion");
        assert("delay_rueda_repeticion"@.len() != "duracion_notificacion_ms"@.len());
        reveal_strlit("tiempo_simple_teclas");
        assert("tiempo_simple_teclas"@.len() != "duracion_notificacion_ms"@.len());
        reveal_strlit("pausa_minima_entre_pasos_macro");
        assert("pausa_minima_entre_pasos_macro"@.len() != "duracion_notificacion_ms"@.len());
        reveal_strlit("mostrar_notificaciones");
        assert("mostrar_notificaciones"@.len() != "duracion_notificacion_ms"@.len());
        lema_tipo_en_tabla(tabla_ajustes(), 16, "duracion_notificacion_ms"@);
    }
    assert(tipo_ajuste("delta_volumen"@) == Some(TipoValor::Numero)) by {
        reveal_strlit("delta_volumen");
        reveal_strlit("tiempo_doble");
        assert("tiempo_doble"@.len() != "delta_volumen"@.len());
        reveal_strlit("tiempo_mantenido");
        assert("tiempo_mantenido"@.len() != "delta_volumen"@.len());
        reveal_strlit("sensibilidad_rueda");
        assert("sensibilidad_rueda"@.len() != "delta_volumen"@.len());
        reveal_strlit("tiempo_repeticion");
        assert("tiempo_repeticion"@.len() != "delta_volumen"@.len());
        reveal_strlit("tiempo_espera_normal");
        assert("tiempo_espera_normal"@.len() != "delta_volumen"@.len());
        reveal_strlit("tiempo_maximo_retenido");
        assert("tiempo_maximo_retenido"@.len() != "delta_volumen"@.len());
        reveal_strlit("tiempo_inactividad_captura");
        assert("tiempo_inactividad_captura"@.len() != "delta_volumen"@.len());
        reveal_strlit("tecla_guardar_coordenada");
        assert("tecla_guardar_coordenada"@.len() != "delta_volumen"@.len());
        reveal_strlit("tecla_toggle_perfil");
        assert("tecla_toggle_perfil"@.len() != "delta_volumen"@.len());
        reveal_strlit("tecla_grabar_macro");
        assert("tecla_grabar_macro"@.len() != "delta_volumen"@.len());
        reveal_strlit("intervalo_captura_coordenada");
        assert("intervalo_captura_coordenada"@.len() != "delta_volumen"@.len());
        reveal_strlit("delay_entre_salida_doble");
        assert("delay_entre_salida_doble"@.len() != "delta_volumen"@.len());
        reveal_strlit("delay_rueda_repeticion");
        assert("delay_rueda_repeticion"@.len() != "delta_volumen"@.len());
        reveal_strlit("tiempo_simple_teclas");
        assert("tiempo_simple_teclas"@.len() != "delta_volumen"@.len());
        reveal_strlit("pausa_minima_entre_pasos_macro");
        assert("pausa_minima_entre_pasos_macro"@.len() != "delta_volumen"@.len());
        reveal_strlit("mostrar_notificaciones");
        assert("mostrar_notificaciones"@.len() != "delta_volumen"@.len());
        reveal_strlit("duracion_notificacion_ms");
        assert("duracion_notificacion_ms"@.len() != "delta_volumen"@.len());
        lema_tipo_en_tabla(tabla_ajustes(), 17, "delta_volumen"@);
    }
    assert(tipo_ajuste("menu_boton_pequeno"@) == Some(TipoValor::NumeroPar)) by {
        reveal_strlit("menu_boton_pequeno");
        reveal_strlit("tiempo_doble");
        assert("tiempo_doble"@.len() != "menu_boton_pequeno"@.len());
        reveal_strlit("tiempo_mantenido");
        assert("tiempo_mantenido"@.len() != "menu_boton_pequeno"@.len());
        reveal_strlit("sensibilidad_rueda");
        assert("sensibilidad_rueda"@[0] != "menu_boton_pequeno"@[0]);
        reveal_strlit("tiempo_repeticion");
        assert("tiempo_repeticion"@.len() != "menu_boton_pequeno"@.len());
        reveal_strlit("tiempo_espera_normal");
        assert("tiempo_espera_normal"@.len() != "menu_boton_pequeno"@.len());
        reveal_strlit("tiempo_maximo_retenido");
        assert("tiempo_maximo_retenido"@.len() != "menu_boton_pequeno"@.len());
        reveal_strlit("tiempo_inactividad_captura");
        assert("tiempo_inactividad_captura"@.len() != "menu_boton_pequeno"@.len());
        reveal_strlit("tecla_guardar_coordenada");
        assert("tecla_guardar_coordenada"@.len() != "menu_boton_pequeno"@.len());
        reveal_strlit("tecla_toggle_perfil");
        assert("tecla_toggle_perfil"@.len() != "menu_boton_pequeno"@.len());
        reveal_strlit("tecla_grabar_macro");
        assert("tecla_grabar_macro"@[0] != "menu_boton_pequeno"@[0]);
        reveal_strlit("intervalo_captura_coordenada");
        assert("intervalo_captura_coordenada"@.len() != "menu_boton_pequeno"@.len());
        reveal_strlit("delay_entre_salida_doble");
        assert("delay_entre_salida_doble"@.len() != "menu_boton_pequeno"@.len());
        reveal_strlit("delay_rueda_repeticion");
        assert("delay_rueda_repeticion"@.len() != "menu_boton_pequeno"@.len());
        reveal_strlit("tiempo_simple_teclas");
        assert("tiempo_simple_teclas"@.len() != "menu_boton_pequeno"@.len());
        reveal_strlit("pausa_minima_entre_pasos_macro");
        assert("pausa_minima_entre_pasos_macro"@.len() != "menu_boton_pequeno"@.len());
        reveal_strlit("mostrar_notificaciones");
        assert("mostrar_notificaciones"@.len() != "menu_boton_pequeno"@.len());
        reveal_strlit("duracion_notificacion_ms");
        assert("duracion_notificacion_ms"@.len() != "menu_boton_pequeno"@.len());
        reveal_strlit("delta_volumen");
        assert("delta_volumen"@.len() != "menu_boton_pequeno"@.len());
        lema_tipo_en_tabla(tabla_ajustes(), 18, "menu_boton_pequeno"@);
    }
    assert(tipo_ajuste("menu_boton_mediano"@) == Some(TipoValor::NumeroPar)) by {
        reveal_strlit("menu_boton_mediano");
        reveal_strlit("tiempo_doble");
        assert("tiempo_doble"@.len() != "menu_boton_mediano"@.len());
        reveal_strlit("tiempo_mantenido");
        assert("tiempo_mantenido"@.len() != "menu_boton_mediano"@.len());
        reveal_strlit("sensibilidad_rueda");
        assert("sensibilidad_rueda"@[0] != "menu_boton_mediano"@[0]);
        reveal_strlit("tiempo_repeticion");
        assert("tiempo_repeticion"@.len() != "menu_boton_mediano"@.len());
        reveal_strlit("tiempo_espera_normal");
        assert("tiempo_espera_normal"@.len() != "menu_boton_mediano"@.len());
        reveal_strlit("tiempo_maximo_retenido");
        assert("tiempo_maximo_retenido"@.len() != "menu_boton_mediano"@.len());
        reveal_strlit("tiempo_inactividad_captura");
        assert("tiempo_inactividad_captura"@.len() != "menu_boton_mediano"@.len());
        reveal_strlit("tecla_guardar_coordenada");
        assert("tecla_guardar_coordenada"@.len() != "menu_boton_mediano"@.len());
        reveal_strlit("tecla_toggle_perfil");
        assert("tecla_toggle_perfil"@.len() != "menu_boton_mediano"@.len());
        reveal_strlit("tecla_grabar_macro");
        assert("tecla_grabar_macro"@[0] != "menu_boton_mediano"@[0]);
        reveal_strlit("intervalo_captura_coordenada");
        assert("intervalo_captura_coordenada"@.len() != "menu_boton_mediano"@.len());
        reveal_strlit("delay_entre_salida_doble");
        assert("delay_entre_salida_doble"@.len() != "menu_boton_mediano"@.len());
        reveal_strlit("delay_rueda_repeticion");
        assert("delay_rueda_repeticion"@.len() != "menu_boton_mediano"@.len());
        reveal_strlit("tiempo_simple_teclas");
        assert("tiempo_simple_teclas"@.len() != "menu_boton_mediano"@.len());
        reveal_strlit("pausa_minima_entre_pasos_macro");
        assert("pausa_minima_entre_pasos_macro"@.len() != "menu_boton_mediano"@.len());
        reveal_strlit("mostrar_notificaciones");
        assert("mostrar_notificaciones"@.len() != "menu_boton_mediano"@.len());
        reveal_strlit("duracion_notificacion_ms");
        assert("duracion_notificacion_ms"@.len() != "menu_boton_mediano"@.len());
        reveal_strlit("delta_volumen");
        assert("delta_volumen"@.len() != "menu_boton_mediano"@.len());
        reveal_strlit("menu_boton_pequeno");
        assert("menu_boton_pequeno"@[11] != "menu_boton_mediano"@[11]);
        lema_tipo_en_tabla(tabla_ajustes(), 19, "menu_boton_mediano"@);
    }
    assert(tipo_ajuste("menu_boton_grande"@) == Some(TipoValor::NumeroPar)) by {
        reveal_strlit("menu_boton_grande");
        reveal_strlit("tiempo_doble");
        assert("tiempo_doble"@.len() != "menu_boton_grande"@.len());
        reveal_strlit("tiempo_mantenido");
        assert("tiempo_mantenido"@.len() != "menu_boton_grande"@.len());
        reveal_strlit("sensibilidad_rueda");
        assert("sensibilidad_rueda"@.len() != "menu_boton_grande"@.len());
        reveal_strlit("tiempo_repeticion");
        assert("tiempo_repeticion"@[0] != "menu_boton_grande"@[0]);
        reveal_strlit("tiempo_espera_normal");
        assert("tiempo_espera_normal"@.len() != "menu_boton_grande"@.len());
        reveal_strlit("tiempo_maximo_retenido");
        assert("tiempo_maximo_retenido"@.len() != "menu_boton_grande"@.len());
        reveal_strlit("tiempo_inactividad_captura");
        assert("tiempo_inactividad_captura"@.len() != "menu_boton_grande"@.len());
        reveal_strlit("tecla_guardar_coordenada");
        assert("tecla_guardar_coordenada"@.len() != "menu_boton_grande"@.len());
        reveal_strlit("tecla_toggle_perfil");
        assert("tecla_toggle_perfil"@.len() != "menu_boton_grande"@.len());
        reveal_strlit("tecla_grabar_macro");
        assert("tecla_grabar_macro"@.len() != "menu_boton_grande"@.len());
        reveal_strlit("intervalo_captura_coordenada");
        assert("intervalo_captura_coordenada"@.len() != "menu_boton_grande"@.len());
        reveal_strlit("delay_entre_salida_doble");
        assert("delay_entre_salida_doble"@.len() != "menu_boton_grande"@.len());
        reveal_strlit("delay_rueda_repeticion");
        assert("delay_rueda_repeticion"@.len() != "menu_boton_grande"@.len());
        reveal_strlit("tiempo_simple_teclas");
        assert("tiempo_simple_teclas"@.len() != "menu_boton_grande"@.len());
        reveal_strlit("pausa_minima_entre_pasos_macro");
        assert("pausa_minima_entre_pasos_macro"@.len() != "menu_boton_grande"@.len());
        reveal_strlit("mostrar_notificaciones");
        assert("mostrar_notificaciones"@.len() != "menu_boton_grande"@.len());
        reveal_strlit("duracion_notificacion_ms");
        assert("duracion_notificacion_ms"@.len() != "menu_boton_grande"@.len());
        reveal_strlit("delta_volumen");
        assert("delta_volumen"@.len() != "menu_boton_grande"@.len());
        reveal_strlit("menu_boton_pequeno");
        assert("menu_boton_pequeno"@.len() != "menu_boton_grande"@.len());
        reveal_strlit("menu_boton_mediano");
        assert("menu_boton_mediano"@.len() != "menu_boton_grande"@.len());
        lema_tipo_en_tabla(tabla_ajustes(), 20, "menu_boton_grande"@);
    }
    assert(tipo_ajuste("menu_texto_pequeno"@) == Some(TipoValor::Numero)) by {
        reveal_strlit("menu_texto_pequeno");
        reveal_strlit("tiempo_doble");
        assert("tiempo_doble"@.len() != "menu_texto_pequeno"@.len());
        reveal_strlit("tiempo_mantenido");
        assert("tiempo_mantenido"@.len() != "menu_texto_pequeno"@.len());
        reveal_strlit("sensibilidad_rueda");
        assert("sensibilidad_rueda"@[0] != "menu_texto_pequeno"@[0]);
        reveal_strlit("tiempo_repeticion");
        assert("tiempo_repeticion"@.len() != "menu_texto_pequeno"@.len());
        reveal_strlit("tiempo_espera_normal");
        assert("tiempo_espera_normal"@.len() != "menu_texto_pequeno"@.len());
        reveal_strlit("tiempo_maximo_retenido");
        assert("tiempo_maximo_retenido"@.len() != "menu_texto_pequeno"@.len());
        reveal_strlit("tiempo_inactividad_captura");
        assert("tiempo_inactividad_captura"@.len() != "menu_texto_pequeno"@.len());
        reveal_strlit("tecla_guardar_coordenada");
        assert("tecla_guardar_coordenada"@.len() != "menu_texto_pequeno"@.len());
        reveal_strlit("tecla_toggle_perfil");
        assert("tecla_toggle_perfil"@.len() != "menu_texto_pequeno"@.len());
        reveal_strlit("tecla_grabar_macro");
        assert("tecla_grabar_macro"@[0] != "menu_texto_pequeno"@[0]);
        reveal_strlit("intervalo_captura_coordenada");
        assert("intervalo_captura_coordenada"@.len() != "menu_texto_pequeno"@.len());
        reveal_strlit("delay_entre_salida_doble");
        assert("delay_entre_salida_doble"@.len() != "menu_texto_pequeno"@.len());
        reveal_strlit("delay_rueda_repeticion");
        assert("delay_rueda_repeticion"@.len() != "menu_texto_pequeno"@.len());
        reveal_strlit("tiempo_simple_teclas");
        assert("tiempo_simple_teclas"@.len() != "menu_texto_pequeno"@.len());
        reveal_strlit("pausa_minima_entre_pasos_macro");
        assert("pausa_minima_entre_pasos_macro"@.len() != "menu_texto_pequeno"@.len());
        reveal_strlit("mostrar_notificaciones");
        assert("mostrar_notificaciones"@.len() != "menu_texto_pequeno"@.len());
        reveal_strlit("duracion_notificacion_ms");
        assert("duracion_notificacion_ms"@.len() != "menu_texto_pequeno"@.len());
        reveal_strlit("delta_volumen");
        assert("delta_volumen"@.len() != "menu_texto_pequeno"@.len());
        reveal_strlit("menu_boton_pequeno");
        assert("menu_boton_pequeno"@[5] != "menu_texto_pequeno"@[5]);
        reveal_strlit("menu_boton_mediano");
        assert("menu_boton_mediano"@[5] != "menu_texto_pequeno"@[5]);
        reveal_strlit("menu_boton_grande");
        assert("menu_boton_grande"@.len() != "menu_texto_pequeno"@.len());
        lema_tipo_en_tabla(tabla_ajustes(), 21, "menu_texto_pequeno"@);
    }
    assert(tipo_ajuste("menu_texto_mediano"@) == Some(TipoValor::Numero)) by {
        reveal_strlit("menu_texto_mediano");
        reveal_strlit("tiempo_doble");
        assert("tiempo_doble"@.len() != "menu_texto_mediano"@.len());
        reveal_strlit("tiempo_mantenido");
        assert("tiempo_mantenido"@.len() != "menu_texto_mediano"@.len());
        reveal_strlit("sensibilidad_rueda");
        assert("sensibilidad_rueda"@[0] != "menu_texto_mediano"@[0]);
        reveal_strlit("tiempo_repeticion");
        assert("tiempo_repeticion"@.len() != "menu_texto_mediano"@.len());
        reveal_strlit("tiempo_espera_normal");
        assert("tiempo_espera_normal"@.len() != "menu_texto_mediano"@.len());
        reveal_strlit("tiempo_maximo_retenido");
        assert("tiempo_maximo_retenido"@.len() != "menu_texto_mediano"@.len());
        reveal_strlit("tiempo_inactividad_captura");
        assert("tiempo_inactividad_captura"@.len() != "menu_texto_mediano"@.len());
        reveal_strlit("tecla_guardar_coordenada");
        assert("tecla_guardar_coordenada"@.len() != "menu_texto_mediano"@.len());
        reveal_strlit("tecla_toggle_perfil");
        assert("tecla_toggle_perfil"@.len() != "menu_texto_mediano"@.len());
        reveal_strlit("tecla_grabar_macro");
        assert("tecla_grabar_macro"@[0] != "menu_texto_mediano"@[0]);
        reveal_strlit("intervalo_captura_coordenada");
        assert("intervalo_captura_coordenada"@.len() != "menu_texto_mediano"@.len());
        reveal_strlit("delay_entre_salida_doble");
        assert("delay_entre_salida_doble"@.len() != "menu_texto_mediano"@.len());
        reveal_strlit("delay_rueda_repeticion");
        assert("delay_rueda_repeticion"@.len() != "menu_texto_mediano"@.len());
        reveal_strlit("tiempo_simple_teclas");
        assert("tiempo_simple_teclas"@.len() != "menu_texto_mediano"@.len());
        reveal_strlit("pausa_minima_entre_pasos_macro");
        assert("pausa_minima_entre_pasos_macro"@.len() != "menu_texto_mediano"@.len());
        reveal_strlit("mostrar_notificaciones");
        assert("mostrar_notificaciones"@.len() != "menu_texto_mediano"@.len());
        reveal_strlit("duracion_notificacion_ms");
        assert("duracion_notificacion_ms"@.len() != "menu_texto_mediano"@.len());
        reveal_strlit("delta_volumen");
        assert("delta_volumen"@.len() != "menu_texto_mediano"@.len());
        reveal_strlit("menu_boton_pequeno");
        assert("menu_boton_pequeno"@[5] != "menu_texto_mediano"@[5]);
        reveal_strlit("menu_boton_mediano");
        assert("menu_boton_mediano"@[5] != "menu_texto_mediano"@[5]);
        reveal_strlit("menu_boton_grande");
        assert("menu_boton_grande"@.len() != "menu_texto_mediano"@.len());
        reveal_strlit("menu_texto_pequeno");
        assert("menu_texto_pequeno"@[11] != "menu_texto_mediano"@[11]);
        lema_tipo_en_tabla(tabla_ajustes(), 22, "menu_texto_mediano"@);
    }
    assert(tipo_ajuste("menu_texto_grande"@) == Some(TipoValor::Numero)) by {
        reveal_strlit("menu_texto_grande");
        reveal_strlit("tiempo_doble");
        assert("tiempo_doble"@.len() != "menu_texto_grande"@.len());
        reveal_strlit("tiempo_mantenido");
        assert("tiempo_mantenido"@.len() != "menu_texto_grande"@.len());
        reveal_strlit("sensibilidad_rueda");
        assert("sensibilidad_rueda"@.len() != "menu_texto_grande"@.len());
        reveal_strlit("tiempo_repeticion");
        assert("tiempo_repeticion"@[0] != "menu_texto_grande"@[0]);
        reveal_strlit("tiempo_espera_normal");
        assert("tiempo_espera_normal"@.len() != "menu_texto_grande"@.len());
        reveal_strlit("tiempo_maximo_retenido");
        assert("tiempo_maximo_retenido"@.len() != "menu_texto_grande"@.len());
        reveal_strlit("tiempo_inactividad_captura");
        assert("tiempo_inactividad_captura"@.len() != "menu_texto_grande"@.len());
        reveal_strlit("tecla_guardar_coordenada");
        assert("tecla_guardar_coordenada"@.len() != "menu_texto_grande"@.len());
        reveal_strlit("tecla_toggle_perfil");
        assert("tecla_toggle_perfil"@.len() != "menu_texto_grande"@.len());
        reveal_strlit("tecla_grabar_macro");
        assert("tecla_grabar_macro"@.len() != "menu_texto_grande"@.len());
        reveal_strlit("intervalo_captura_coordenada");
        assert("intervalo_captura_coordenada"@.len() != "menu_texto_grande"@.len());
        reveal_strlit("delay_entre_salida_doble");
        assert("delay_entre_salida_doble"@.len() != "menu_texto_grande"@.len());
        reveal_strlit("delay_rueda_repeticion");
        assert("delay_rueda_repeticion"@.len() != "menu_texto_grande"@.len());
        reveal_strlit("tiempo_simple_teclas");
        assert("tiempo_simple_teclas"@.len() != "menu_texto_grande"@.len());
        reveal_strlit("pausa_minima_entre_pasos_macro");
        assert("pausa_minima_entre_pasos_macro"@.len() != "menu_texto_grande"@.len());
        reveal_strlit("mostrar_notificaciones");
        assert("mostrar_notificaciones"@.len() != "menu_texto_grande"@.len());
        reveal_strlit("duracion_notificacion_ms");
        assert("duracion_notificacion_ms"@.len() != "menu_texto_grande"@.len());
        reveal_strlit("delta_volumen");
        assert("delta_volumen"@.len() != "menu_texto_grande"@.len());
        reveal_strlit("menu_boton_pequeno");
        assert("menu_boton_pequeno"@.len() != "menu_texto_grande"@.len());
        reveal_strlit("menu_boton_mediano");
        assert("menu_boton_mediano"@.len() != "menu_texto_grande"@.len());
        reveal_strlit("menu_boton_grande");
        assert("menu_boton_grande"@[5] != "menu_texto_grande"@[5]);
        reveal_strlit("menu_texto_pequeno");
        assert("menu_texto_pequeno"@.len() != "menu_texto_grande"@.len());
        reveal_strlit("menu_texto_mediano");
        assert("menu_texto_mediano"@.len() != "menu_texto_grande"@.len());
        lema_tipo_en_tabla(tabla_ajustes(), 23, "menu_texto_grande"@);
    }
    assert(tipo_ajuste("portapapeles_boton_pequeno"@) == Some(TipoValor::NumeroPar)) by {
        reveal_strlit("portapapeles_boton_pequeno");
        reveal_strlit("tiempo_doble");
        assert("tiempo_doble"@.len() != "portapapeles_boton_pequeno"@.len());
        reveal_strlit("tiempo_mantenido");
        assert("tiempo_mantenido"@.len() != "portapapeles_boton_pequeno"@.len());
        reveal_strlit("sensibilidad_rueda");
        assert("sensibilidad_rueda"@.len() != "portapapeles_boton_pequeno"@.len());
        reveal_strlit("tiempo_repeticion");
        assert("tiempo_repeticion"@.len() != "portapapeles_boton_pequeno"@.len());
        reveal_strlit("tiempo_espera_normal");
        assert("tiempo_espera_normal"@.len() != "portapapeles_boton_pequeno"@.len());
        reveal_strlit("tiempo_maximo_retenido");
        assert("tiempo_maximo_retenido"@.len() != "portapapeles_boton_pequeno"@.len());
        reveal_strlit("tiempo_inactividad_captura");
        assert("tiempo_inactividad_captura"@[0] != "portapapeles_boton_pequeno"@[0]);
        reveal_strlit("tecla_guardar_coordenada");
        assert("tecla_guardar_coordenada"@.len() != "portapapeles_boton_pequeno"@.len());
        reveal_strlit("tecla_toggle_perfil");
        assert("tecla_toggle_perfil"@.len() != "portapapeles_boton_pequeno"@.len());
        reveal_strlit("tecla_grabar_macro");
        assert("tecla_grabar_macro"@.len() != "portapapeles_boton_pequeno"@.len());
        reveal_strlit("intervalo_captura_coordenada");
        assert("intervalo_captura_coordenada"@.len() != "portapapeles_boton_pequeno"@.len());
        reveal_strlit("delay_entre_salida_doble");
        assert("delay_entre_salida_doble"@.len() != "portapapeles_boton_pequeno"@.len());
        reveal_strlit("delay_rueda_repeticion");
        assert("delay_rueda_repeticion"@.len() != "portapapeles_boton_pequeno"@.len());
        reveal_strlit("tiempo_simple_teclas");
        assert("tiempo_simple_teclas"@.len() != "portapapeles_boton_pequeno"@.len());
        reveal_strlit("pausa_minima_entre_pasos_macro");
        assert("pausa_minima_entre_pasos_macro"@.len() != "portapapeles_boton_pequeno"@.len());
        reveal_strlit("mostrar_notificaciones");
        assert("mostrar_notificaciones"@.len() != "portapapeles_boton_pequeno"@.len());
        reveal_strlit("duracion_notificacion_ms");
        assert("duracion_notificacion_ms"@.len() != "portapapeles_boton_pequeno"@.len());
        reveal_strlit("delta_volumen");
        assert("delta_volumen"@.len() != "portapapeles_boton_pequeno"@.len());
        reveal_strlit("menu_boton_pequeno");
        assert("menu_boton_pequeno"@.len() != "portapapeles_boton_pequeno"@.len());
        reveal_strlit("menu_boton_mediano");
        assert("menu_boton_mediano"@.len() != "portapapeles_boton_pequeno"@.len());
        reveal_strlit("menu_boton_grande");
        assert("menu_boton_grande"@.len() != "portapapeles_boton_pequeno"@.len());
        reveal_strlit("menu_texto_pequeno");
        assert("menu_texto_pequeno"@.len() != "portapapeles_boton_pequeno"@.len());
        reveal_strlit("menu_texto_mediano");
        assert("menu_texto_mediano"@.len() != "portapapeles_boton_pequeno"@.len());
        reveal_strlit("menu_texto_grande");
        assert("menu_texto_grande"@.len() != "portapapeles_boton_pequeno"@.len());
        lema_tipo_en_tabla(tabla_ajustes(), 24, "portapapeles_boton_pequeno"@);
    }
    assert(tipo_ajuste("portapapeles_boton_mediano"@) == Some(TipoValor::NumeroPar)) by {
        reveal_strlit("portapapeles_boton_mediano");
        reveal_strlit("tiempo_doble");
        assert("tiempo_doble"@.len() != "portapapeles_boton_mediano"@.len());
        reveal_strlit("tiempo_mantenido");
        assert("tiempo_mantenido"@.len() != "portapapeles_boton_mediano"@.len());
        reveal_strlit("sensibilidad_rueda");
        assert("sensibilidad_rueda"@.len() != "portapapeles_boton_mediano"@.len());
        reveal_strlit("tiempo_repeticion");
        assert("tiempo_repeticion"@.len() != "portapapeles_boton_mediano"@.len());
        reveal_strlit("tiempo_espera_normal");
        assert("tiempo_espera_normal"@.len() != "portapapeles_boton_mediano"@.len());
        reveal_strlit("tiempo_maximo_retenido");
        assert("tiempo_maximo_retenido"@.len() != "portapapeles_boton_mediano"@.len());
        reveal_strlit("tiempo_inactividad_captura");
        assert("tiempo_inactividad_captura"@[0] != "portapapeles_boton_mediano"@[0]);
        reveal_strlit("tecla_guardar_coordenada");
        assert("tecla_guardar_coordenada"@.len() != "portapapeles_boton_mediano"@.len());
        reveal_strlit("tecla_toggle_perfil");
        assert("tecla_toggle_perfil"@.len() != "portapapeles_boton_mediano"@.len());
        reveal_strlit("tecla_grabar_macro");
        assert("tecla_grabar_macro"@.len() != "portapapeles_boton_mediano"@.len());
        reveal_strlit("intervalo_captura_coordenada");
        assert("intervalo_captura_coordenada"@.len() != "portapapeles_boton_mediano"@.len());
        reveal_strlit("delay_entre_salida_doble");
        assert("delay_entre_salida_doble"@.len() != "portapapeles_boton_mediano"@.len());
        reveal_strlit("delay_rueda_repeticion");
        assert("delay_rueda_repeticion"@.len() != "portapapeles_boton_mediano"@.len());
        reveal_strlit("tiempo_simple_teclas");
        assert("tiempo_simple_teclas"@.len() != "portapapeles_boton_mediano"@.len());
        reveal_strlit("pausa_minima_entre_pasos_macro");
        assert("pausa_minima_entre_pasos_macro"@.len() != "portapapeles_boton_mediano"@.len());
        reveal_strlit("mostrar_notificaciones");
        assert("mostrar_notificaciones"@.len() != "portapapeles_boton_mediano"@.len());
        reveal_strlit("duracion_notificacion_ms");
        assert("duracion_notificacion_ms"@.len() != "portapapeles_boton_mediano"@.len());
        reveal_strlit("delta_volumen");
        assert("delta_volumen"@.len() != "portapapeles_boton_mediano"@.len());
        reveal_strlit("menu_boton_pequeno");
        assert("menu_boton_pequeno"@.len() != "portapapeles_boton_mediano"@.len());
        reveal_strlit("menu_boton_mediano");
        assert("menu_boton_mediano"@.len() != "portapapeles_boton_mediano"@.len());
        reveal_strlit("menu_boton_grande");
        assert("menu_boton_grande"@.len() != "portapapeles_boton_mediano"@.len());
        reveal_strlit("menu_texto_pequeno");
        assert("menu_texto_pequeno"@.len() != "portapapeles_boton_mediano"@.len());
        reveal_strlit("menu_texto_mediano");
        assert("menu_texto_mediano"@.len() != "portapapeles_boton_mediano"@.len());
        reveal_strlit("menu_texto_grande");
        assert("menu_texto_grande"@.len() != "portapapeles_boton_mediano"@.len());
        reveal_strlit("portapapeles_boton_pequeno");
        assert("portapapeles_boton_pequeno"@[19] != "portapapeles_boton_mediano"@[19]);
        lema_tipo_en_tabla(tabla_ajustes(), 25, "portapapeles_boton_mediano"@);
    }
    assert(tipo_ajuste("portapapeles_boton_grande"@) == Some(TipoValor::NumeroPar)) by {
        reveal_strlit("portapapeles_boton_grande");
        reveal_strlit("tiempo_doble");
        assert("tiempo_doble"@.len() != "portapapeles_boton_grande"@.len());
        reveal_strlit("tiempo_mantenido");
        assert("tiempo_mantenido"@.len() != "portapapeles_boton_grande"@.len());
        reveal_strlit("sensibilidad_rueda");
        assert("sensibilidad_rueda"@.len() != "portapapeles_boton_grande"@.len());
        reveal_strlit("tiempo_repeticion");
        assert("tiempo_repeticion"@.len() != "portapapeles_boton_grande"@.len());
        reveal_strlit("tiempo_espera_normal");
        assert("tiempo_espera_normal"@.len() != "portapapeles_boton_grande"@.len());
        reveal_strlit("tiempo_maximo_retenido");
        assert("tiempo_maximo_retenido"@.len() != "portapapeles_boton_grande"@.len());
        reveal_strlit("tiempo_inactividad_captura");
        assert("tiempo_inactividad_captura"@.len() != "portapapeles_boton_grande"@.len());
        reveal_strlit("tecla_guardar_coordenada");
        assert("tecla_guardar_coordenada"@.len() != "portapapeles_boton_grande"@.len());
        reveal_strlit("tecla_toggle_perfil");
        assert("tecla_toggle_perfil"@.len() != "portapapeles_boton_grande"@.len());
        reveal_strlit("tecla_grabar_macro");
        assert("tecla_grabar_macro"@.len() != "portapapeles_boton_grande"@.len());
        reveal_strlit("intervalo_captura_coordenada");
        assert("intervalo_captura_coordenada"@.len() != "portapapeles_boton_grande"@.len());
        reveal_strlit("delay_entre_salida_doble");
        assert("delay_entre_salida_doble"@.len() != "portapapeles_boton_grande"@.len());
        reveal_strlit("delay_rueda_repeticion");
        assert("delay_rueda_repeticion"@.len() != "portapapeles_boton_grande"@.len());
        reveal_strlit("tiempo_simple_teclas");
        assert("tiempo_simple_teclas"@.len() != "portapapeles_boton_grande"@.len());
        reveal_strlit("pausa_minima_entre_pasos_macro");
        assert("pausa_minima_entre_pasos_macro"@.len() != "portapapeles_boton_grande"@.len());
        reveal_strlit("mostrar_notificaciones");
        assert("mostrar_notificaciones"@.len() != "portapapeles_boton_grande"@.len());
        reveal_strlit("duracion_notificacion_ms");
        assert("duracion_notificacion_ms"@.len() != "portapapeles_boton_grande"@.len());
        reveal_strlit("delta_volumen");
        assert("delta_volumen"@.len() != "portapapeles_boton_grande"@.len());
        reveal_strlit("menu_boton_pequeno");
        assert("menu_boton_pequeno"@.len() != "portapapeles_boton_grande"@.len());
        reveal_strlit("menu_boton_mediano");
        assert("menu_boton_mediano"@.len() != "portapapeles_boton_grande"@.len());
        reveal_strlit("menu_boton_grande");
        assert("menu_boton_grande"@.len() != "portapapeles_boton_grande"@.len());
        reveal_strlit("menu_texto_pequeno");
        assert("menu_texto_pequeno"@.len() != "portapapeles_boton_grande"@.len());
        reveal_strlit("menu_texto_mediano");
        assert("menu_texto_mediano"@.len() != "portapapeles_boton_grande"@.len());
        reveal_strlit("menu_texto_grande");
        assert("menu_texto_grande"@.len() != "portapapeles_boton_grande"@.len());
        reveal_strlit("portapapeles_boton_pequeno");
        assert("portapapeles_boton_pequeno"@.len() != "portapapeles_boton_grande"@.len());
        reveal_strlit("portapapeles_boton_mediano");
        assert("portapapeles_boton_mediano"@.len() != "portapapeles_boton_grande"@.len());
        lema_tipo_en_tabla(tabla_ajustes(), 26, "portapapeles_boton_grande"@);
    }
    assert(tipo_ajuste("tiempo_ignorar_cambio_portapapeles"@) == Some(TipoValor::Numero)) by {
        reveal_strlit("tiempo_ignorar_cambio_portapapeles");
        reveal_strlit("tiempo_doble");
        assert("tiempo_doble"@.len() != "tiempo_ignorar_cambio_portapapeles"@.len());
        reveal_strlit("tiempo_mantenido");
        assert("tiempo_mantenido"@.len() != "tiempo_ignorar_cambio_portapapeles"@.len());
        reveal_strlit("sensibilidad_rueda");
        assert("sensibilidad_rueda"@.len() != "tiempo_ignorar_cambio_portapapeles"@.len());
        reveal_strlit("tiempo_repeticion");
        assert("tiempo_repeticion"@.len() != "tiempo_ignorar_cambio_portapapeles"@.len());
        reveal_strlit("tiempo_espera_normal");
        assert("tiempo_espera_normal"@.len() != "tiempo_ignorar_cambio_portapapeles"@.len());
        reveal_strlit("tiempo_maximo_retenido");
        assert("tiempo_maximo_retenido"@.len() != "tiempo_ignorar_cambio_portapapeles"@.len());
        reveal_strlit("tiempo_inactividad_captura");
        assert("tiempo_inactividad_captura"@.len() != "tiempo_ignorar_cambio_portapapeles"@.len());
        reveal_strlit("tecla_guardar_coordenada");
        assert("tecla_guardar_coordenada"@.len() != "tiempo_ignorar_cambio_portapapeles"@.len());
        reveal_strlit("tecla_toggle_perfil");
        assert("tecla_toggle_perfil"@.len() != "tiempo_ignorar_cambio_portapapeles"@.len());
        reveal_strlit("tecla_grabar_macro");
        assert("tecla_grabar_macro"@.len() != "tiempo_ignorar_cambio_portapapeles"@.len());
        reveal_strlit("intervalo_captura_coordenada");
        assert("intervalo_captura_coordenada"@.len() != "tiempo_ignorar_cambio_portapapeles"@.len());
        reveal_strlit("delay_entre_salida_doble");
        assert("delay_entre_salida_doble"@.len() != "tiempo_ignorar_cambio_portapapeles"@.len());
        reveal_strlit("delay_rueda_repeticion");
        assert("delay_rueda_repeticion"@.len() != "tiempo_ignorar_cambio_portapapeles"@.len());
        reveal_strlit("tiempo_simple_teclas");
        assert("tiempo_simple_teclas"@.len() != "tiempo_ignorar_cambio_portapapeles"@.len());
        reveal_strlit("pausa_minima_entre_pasos_macro");
        assert("pausa_minima_entre_pasos_macro"@.len() != "tiempo_ignorar_cambio_portapapeles"@.len());
        reveal_strlit("mostrar_notificaciones");
        assert("mostrar_notificaciones"@.len() != "tiempo_ignorar_cambio_portapapeles"@.len());
        reveal_strlit("duracion_notificacion_ms");
        assert("duracion_notificacion_ms"@.len() != "tiempo_ignorar_cambio_portapapeles"@.len());
        reveal_strlit("delta_volumen");
        assert("delta_volumen"@.len() != "tiempo_ignorar_cambio_portapapeles"@.len());
        reveal_strlit("menu_boton_pequeno");
        assert("menu_boton_pequeno"@.len() != "tiempo_ignorar_cambio_portapapeles"@.len());
        reveal_strlit("menu_boton_mediano");
        assert("menu_boton_mediano"@.len() != "tiempo_ignorar_cambio_portapapeles"@.len());
        reveal_strlit("menu_boton_grande");
        assert("menu_boton_grande"@.len() != "tiempo_ignorar_cambio_portapapeles"@.len());
        reveal_strlit("menu_texto_pequeno");
        assert("menu_texto_pequeno"@.len() != "tiempo_ignorar_cambio_portapapeles"@.len());
        reveal_strlit("menu_texto_mediano");
        assert("menu_texto_mediano"@.len() != "tiempo_ignorar_cambio_portapapeles"@.len());
        reveal_strlit("menu_texto_grande");
        assert("menu_texto_grande"@.len() != "tiempo_ignorar_cambio_portapapeles"@.len());
        reveal_strlit("portapapeles_boton_pequeno");
        assert("portapapeles_boton_pequeno"@.len() != "tiempo_ignorar_cambio_portapapeles"@.len());
        reveal_strlit("portapapeles_boton_mediano");
        assert("portapapeles_boton_mediano"@.len() != "tiempo_ignorar_cambio_portapapeles"@.len());
        reveal_strlit("portapapeles_boton_grande");
        assert("portapapeles_boton_grande"@.len() != "tiempo_ignorar_cambio_portapapeles"@.len());
        lema_tipo_en_tabla(tabla_ajustes(), 27, "tiempo_ignorar_cambio_portapapeles"@);
    }
    assert(tipo_ajuste("tiempo_espera_pegado_imagen"@) == Some(TipoValor::Numero)) by {
        reveal_strlit("tiempo_espera_pegado_imagen");
        reveal_strlit("tiempo_doble");
        assert("tiempo_doble"@.len() != "tiempo_espera_pegado_imagen"@.len());
        reveal_strlit("tiempo_mantenido");
        assert("tiempo_mantenido"@.len() != "tiempo_espera_pegado_imagen"@.len());
        reveal_strlit("sensibilidad_rueda");
        assert("sensibilidad_rueda"@.len() != "tiempo_espera_pegado_imagen"@.len());
        reveal_strlit("tiempo_repeticion");
        assert("tiempo_repeticion"@.len() != "tiempo_espera_pegado_imagen"@.len());
        reveal_strlit("tiempo_espera_normal");
        assert("tiempo_espera_normal"@.len() != "tiempo_espera_pegado_imagen"@.len());
        reveal_strlit("tiempo_maximo_retenido");
        assert("tiempo_maximo_retenido"@.len() != "tiempo_espera_pegado_imagen"@.len());
        reveal_strlit("tiempo_inactividad_captura");
        assert("tiempo_inactividad_captura"@.len() != "tiempo_espera_pegado_imagen"@.len());
        reveal_strlit("tecla_guardar_coordenada");
        assert("tecla_guardar_coordenada"@.len() != "tiempo_espera_pegado_imagen"@.len());
        reveal_strlit("tecla_toggle_perfil");
        assert("tecla_toggle_perfil"@.len() != "tiempo_espera_pegado_imagen"@.len());
        reveal_strlit("tecla_grabar_macro");
        assert("tecla_grabar_macro"@.len() != "tiempo_espera_pegado_imagen"@.len());
        reveal_strlit("intervalo_captura_coordenada");
        assert("intervalo_captura_coordenada"@.len() != "tiempo_espera_pegado_imagen"@.len());
        reveal_strlit("delay_entre_salida_doble");
        assert("delay_entre_salida_doble"@.len() != "tiempo_espera_pegado_imagen"@.len());
        reveal_strlit("delay_rueda_repeticion");
        assert("delay_rueda_repeticion"@.len() != "tiempo_espera_pegado_imagen"@.len());
        reveal_strlit("tiempo_simple_teclas");
        assert("tiempo_simple_teclas"@.len() != "tiempo_espera_pegado_imagen"@.len());
        reveal_strlit("pausa_minima_entre_pasos_macro");
        assert("pausa_minima_entre_pasos_macro"@.len() != "tiempo_espera_pegado_imagen"@.len());
        reveal_strlit("mostrar_notificaciones");
        assert("mostrar_notificaciones"@.len() != "tiempo_espera_pegado_imagen"@.len());
        reveal_strlit("duracion_notificacion_ms");
        assert("duracion_notificacion_ms"@.len() != "tiempo_espera_pegado_imagen"@.len());
        reveal_strlit("delta_volumen");
        assert("delta_volumen"@.len() != "tiempo_espera_pegado_imagen"@.len());
        reveal_strlit("menu_boton_pequeno");
        assert("menu_boton_pequeno"@.len() != "tiempo_espera_pegado_imagen"@.len());
        reveal_strlit("menu_boton_mediano");
        assert("menu_boton_mediano"@.len() != "tiempo_espera_pegado_imagen"@.len());
        reveal_strlit("menu_boton_grande");
        assert("menu_boton_grande"@.len() != "tiempo_espera_pegado_imagen"@.len());
        reveal_strlit("menu_texto_pequeno");
        assert("menu_texto_pequeno"@.len() != "tiempo_espera_pegado_imagen"@.len());
        reveal_strlit("menu_texto_mediano");
        assert("menu_texto_mediano"@.len() != "tiempo_espera_pegado_imagen"@.len());
        reveal_strlit("menu_texto_grande");
        assert("menu_texto_grande"@.len() != "tiempo_espera_pegado_imagen"@.len());
        reveal_strlit("portapapeles_boton_pequeno");
        assert("portapapeles_boton_pequeno"@.len() != "tiempo_espera_pegado_imagen"@.len());
        reveal_strlit("portapapeles_boton_mediano");
        assert("portapapeles_boton_mediano"@.len() != "tiempo_espera_pegado_imagen"@.len());
        reveal_strlit("portapapeles_boton_grande");
        assert("portapapeles_boton_grande"@.len() != "tiempo_espera_pegado_imagen"@.len());
        reveal_strlit("tiempo_ignorar_cambio_portapapeles");
        assert("tiempo_ignorar_cambio_portapapeles"@.len() != "tiempo_espera_pegado_imagen"@.len());
        lema_tipo_en_tabla(tabla_ajustes(), 28, "tiempo_espera_pegado_imagen"@);
    }
    assert(tipo_ajuste("tiempo_espera_pegado_texto"@) == Some(TipoValor::Numero)) by {
        reveal_strlit("tiempo_espera_pegado_texto");
        reveal_strlit("tiempo_doble");
        assert("tiempo_doble"@.len() != "tiempo_espera_pegado_texto"@.len());
        reveal_strlit("tiempo_mantenido");
        assert("tiempo_mantenido"@.len() != "tiempo_espera_pegado_texto"@.len());
        reveal_strlit("sensibilidad_rueda");
        assert("sensibilidad_rueda"@.len() != "tiempo_espera_pegado_texto"@.len());
        reveal_strlit("tiempo_repeticion");
        assert("tiempo_repeticion"@.len() != "tiempo_espera_pegado_texto"@.len());
        reveal_strlit("tiempo_espera_normal");
        assert("tiempo_espera_normal"@.len() != "tiempo_espera_pegado_texto"@.len());
        reveal_strlit("tiempo_maximo_retenido");
        assert("tiempo_maximo_retenido"@.len() != "tiempo_espera_pegado_texto"@.len());
        reveal_strlit("tiempo_inactividad_captura");
        assert("tiempo_inactividad_captura"@[7] != "tiempo_espera_pegado_texto"@[7]);
        reveal_strlit("tecla_guardar_coordenada");
        assert("tecla_guardar_coordenada"@.len() != "tiempo_espera_pegado_texto"@.len());
        reveal_strlit("tecla_toggle_perfil");
        assert("tecla_toggle_perfil"@.len() != "tiempo_espera_pegado_texto"@.len());
        reveal_strlit("tecla_grabar_macro");
        assert("tecla_grabar_macro"@.len() != "tiempo_espera_pegado_texto"@.len());
        reveal_strlit("intervalo_captura_coordenada");
        assert("intervalo_captura_coordenada"@.len() != "tiempo_espera_pegado_texto"@.len());
        reveal_strlit("delay_entre_salida_doble");
        assert("delay_entre_salida_doble"@.len() != "tiempo_espera_pegado_texto"@.len());
        reveal_strlit("delay_rueda_repeticion");
        assert("delay_rueda_repeticion"@.len() != "tiempo_espera_pegado_texto"@.len());
        reveal_strlit("tiempo_simple_teclas");
        assert("tiempo_simple_teclas"@.len() != "tiempo_espera_pegado_texto"@.len());
        reveal_strlit("pausa_minima_entre_pasos_macro");
        assert("pausa_minima_entre_pasos_macro"@.len() != "tiempo_espera_pegado_texto"@.len());
        reveal_strlit("mostrar_notificaciones");
        assert("mostrar_notificaciones"@.len() != "tiempo_espera_pegado_texto"@.len());
        reveal_strlit("duracion_notificacion_ms");
        assert("duracion_notificacion_ms"@.len() != "tiempo_espera_pegado_texto"@.len());
        reveal_strlit("delta_volumen");
        assert("delta_volumen"@.len() != "tiempo_espera_pegado_texto"@.len());
        reveal_strlit("menu_boton_pequeno");
        assert("menu_boton_pequeno"@.len() != "tiempo_espera_pegado_texto"@.len());
        reveal_strlit("menu_boton_mediano");
        assert("menu_boton_mediano"@.len() != "tiempo_espera_pegado_texto"@.len());
        reveal_strlit("menu_boton_grande");
        assert("menu_boton_grande"@.len() != "tiempo_espera_pegado_texto"@.len());
        reveal_strlit("menu_texto_pequeno");
        assert("menu_texto_pequeno"@.len() != "tiempo_espera_pegado_texto"@.len());
        reveal_strlit("menu_texto_mediano");
        assert("menu_texto_mediano"@.len() != "tiempo_espera_pegado_texto"@.len());
        reveal_strlit("menu_texto_grande");
        assert("menu_texto_grande"@.len() != "tiempo_espera_pegado_texto"@.len());
        reveal_strlit("portapapeles_boton_pequeno");
        assert("portapapeles_boton_pequeno"@[0] != "tiempo_espera_pegado_texto"@[0]);
        reveal_strlit("portapapeles_boton_mediano");
        assert("portapapeles_boton_mediano"@[0] != "tiempo_espera_pegado_texto"@[0]);
        reveal_strlit("portapapeles_boton_grande");
        assert("portapapeles_boton_grande"@.len() != "tiempo_espera_pegado_texto"@.len());
        reveal_strlit("tiempo_ignorar_cambio_portapapeles");
        assert("tiempo_ignorar_cambio_portapapeles"@.len() != "tiempo_espera_pegado_texto"@.len());
        reveal_strlit("tiempo_espera_pegado_imagen");
        assert("tiempo_espera_pegado_imagen"@.len() != "tiempo_espera_pegado_texto"@.len());
        lema_tipo_en_tabla(tabla_ajustes(), 29, "tiempo_espera_pegado_texto"@);
    }
    assert(tipo_ajuste("delay_imagen_photoshop"@) == Some(TipoValor::Numero)) by {
        reveal_strlit("delay_imagen_photoshop");
        reveal_strlit("tiempo_doble");
        assert("tiempo_doble"@.len() != "delay_imagen_photoshop"@.len());
        reveal_strlit("tiempo_mantenido");
        assert("tiempo_mantenido"@.len() != "delay_imagen_photoshop"@.len());
        reveal_strlit("sensibilidad_rueda");
        assert("sensibilidad_rueda"@.len() != "delay_imagen_photoshop"@.len());
        reveal_strlit("tiempo_repeticion");
        assert("tiempo_repeticion"@.len() != "delay_imagen_photoshop"@.len());
        reveal_strlit("tiempo_espera_normal");
        assert("tiempo_espera_normal"@.len() != "delay_imagen_photoshop"@.len());
        reveal_strlit("tiempo_maximo_retenido");
        assert("tiempo_maximo_retenido"@[0] != "delay_imagen_photoshop"@[0]);
        reveal_strlit("tiempo_inactividad_captura");
        assert("tiempo_inactividad_captura"@.len() != "delay_imagen_photoshop"@.len());
        reveal_strlit("tecla_guardar_coordenada");
        assert("tecla_guardar_coordenada"@.len() != "delay_imagen_photoshop"@.len());
        reveal_strlit("tecla_toggle_perfil");
        assert("tecla_toggle_perfil"@.len() != "delay_imagen_photoshop"@.len());
        reveal_strlit("tecla_grabar_macro");
        assert("tecla_grabar_macro"@.len() != "delay_imagen_photoshop"@.len());
        reveal_strlit("intervalo_captura_coordenada");
        assert("intervalo_captura_coordenada"@.len() != "delay_imagen_photoshop"@.len());
        reveal_strlit("delay_entre_salida_doble");
        assert("delay_entre_salida_doble"@.len() != "delay_imagen_photoshop"@.len());
        reveal_strlit("delay_rueda_repeticion");
        assert("delay_rueda_repeticion"@[6] != "delay_imagen_photoshop"@[6]);
        reveal_strlit("tiempo_simple_teclas");
        assert("tiempo_simple_teclas"@.len() != "delay_imagen_photoshop"@.len());
        reveal_strlit("pausa_minima_entre_pasos_macro");
        assert("pausa_minima_entre_pasos_macro"@.len() != "delay_imagen_photoshop"@.len());
        reveal_strlit("mostrar_notificaciones");
        assert("mostrar_notificaciones"@[0] != "delay_imagen_photoshop"@[0]);
        reveal_strlit("duracion_notificacion_ms");
        assert("duracion_notificacion_ms"@.len() != "delay_imagen_photoshop"@.len());
        reveal_strlit("delta_volumen");
        assert("delta_volumen"@.len() != "delay_imagen_photoshop"@.len());
        reveal_strlit("menu_boton_pequeno");
        assert("menu_boton_pequeno"@.len() != "delay_imagen_photoshop"@.len());
        reveal_strlit("menu_boton_mediano");
        assert("menu_boton_mediano"@.len() != "delay_imagen_photoshop"@.len());
        reveal_strlit("menu_boton_grande");
        assert("menu_boton_grande"@.len() != "delay_imagen_photoshop"@.len());
        reveal_strlit("menu_texto_pequeno");
        assert("menu_texto_pequeno"@.len() != "delay_imagen_photoshop"@.len());
        reveal_strlit("menu_texto_mediano");
        assert("menu_texto_mediano"@.len() != "delay_imagen_photoshop"@.len());
        reveal_strlit("menu_texto_grande");
        assert("menu_texto_grande"@.len() != "delay_imagen_photoshop"@.len());
        reveal_strlit("portapapeles_boton_pequeno");
        assert("portapapeles_boton_pequeno"@.len() != "delay_imagen_photoshop"@.len());
        reveal_strlit("portapapeles_boton_mediano");
        assert("portapapeles_boton_mediano"@.len() != "delay_imagen_photoshop"@.len());
        reveal_strlit("portapapeles_boton_grande");
        assert("portapapeles_boton_grande"@.len() != "delay_imagen_photoshop"@.len());
        reveal_strlit("tiempo_ignorar_cambio_portapapeles");
        assert("tiempo_ignorar_cambio_portapapeles"@.len() != "delay_imagen_photoshop"@.len());
        reveal_strlit("tiempo_espera_pegado_imagen");
        assert("tiempo_espera_pegado_imagen"@.len() != "delay_imagen_photoshop"@.len());
        reveal_strlit("tiempo_espera_pegado_texto");
        assert("tiempo_espera_pegado_texto"@.len() != "delay_imagen_photoshop"@.len());
        lema_tipo_en_tabla(tabla_ajustes(), 30, "delay_imagen_photoshop"@);
    }
}

} // verus!
