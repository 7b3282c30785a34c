//! Appearance themes: theme files (`.theme`, the appearance variables as
//! `variable=valor` lines), their names and listing, and the colour links
//! between theme colours and the colours that share their factory value.

use vstd::prelude::*;
use crate::ajustes::{guardar_tema_aplicado, CLAVE_TEMA_NOMBRE, CLAVE_TEMA_ORIGEN};
use crate::catalogo::{
    catalogo_css_de_texto, id_usado, paso_css, procesar_css, vista_css, EntradaCatalogoCss, FilaCss,
};
use crate::formato::{
    cuerpo, entradas_canonicas, lema_procesar_concat, leer_mapa, linea_entrada, mapa_de_texto,
    procesar,
};
use crate::lotes::{con_cambios, errores_css, validar_lote_css, Par, MapaTexto, PREFIJO_CSS};
use crate::mapa::{filtrado, vista_entradas, Filtro, MapaUsuario};
use crate::texto::{a_caracteres, anexar, contiene, contiene_exec, empujar, iguales, recortar, recortar_vec};
use crate::valores::{mensaje, vista_resultado, TipoValorCss};

verus! {

// ------------------------------------------------------------------
// ASCII case-insensitive comparison
// ------------------------------------------------------------------

/// `char::to_ascii_lowercase`.
pub open spec fn minuscula(c: char) -> char {
    if c == 'A' { 'a' } else if c == 'B' { 'b' } else if c == 'C' { 'c' } else if c == 'D' { 'd' }
    else if c == 'E' { 'e' } else if c == 'F' { 'f' } else if c == 'G' { 'g' } else if c == 'H' { 'h' }
    else if c == 'I' { 'i' } else if c == 'J' { 'j' } else if c == 'K' { 'k' } else if c == 'L' { 'l' }
    else if c == 'M' { 'm' } else if c == 'N' { 'n' } else if c == 'O' { 'o' } else if c == 'P' { 'p' }
    else if c == 'Q' { 'q' } else if c == 'R' { 'r' } else if c == 'S' { 's' } else if c == 'T' { 't' }
    else if c == 'U' { 'u' } else if c == 'V' { 'v' } else if c == 'W' { 'w' } else if c == 'X' { 'x' }
    else if c == 'Y' { 'y' } else if c == 'Z' { 'z' } else { c }
}

pub fn minuscula_exec(c: char) -> (r: char)
    ensures
        r == minuscula(c),
{
    match c {
        'A' => 'a', 'B' => 'b', 'C' => 'c', 'D' => 'd', 'E' => 'e', 'F' => 'f', 'G' => 'g',
        'H' => 'h', 'I' => 'i', 'J' => 'j', 'K' => 'k', 'L' => 'l', 'M' => 'm', 'N' => 'n',
        'O' => 'o', 'P' => 'p', 'Q' => 'q', 'R' => 'r', 'S' => 's', 'T' => 't', 'U' => 'u',
        'V' => 'v', 'W' => 'w', 'X' => 'x', 'Y' => 'y', 'Z' => 'z', _ => c,
    }
}

/// `str::eq_ignore_ascii_case`.
pub open spec fn igual_sin_mayusculas(a: Seq<char>, b: Seq<char>) -> bool {
    a.len() == b.len() && forall|i: int| 0 <= i < a.len() ==> minuscula(#[trigger] a[i]) == minuscula(b[i])
}

pub fn igual_sin_mayusculas_exec(a: &str, b: &str) -> (r: bool)
    ensures
        r == igual_sin_mayusculas(a@, b@),
{
    let x = a_caracteres(a);
    let y = a_caracteres(b);
    if x.len() != y.len() {
        return false;
    }
    let n = x.len();
    for i in 0..n
        invariant
            n == x@.len() == y@.len(),
            x@ == a@,
            y@ == b@,
            forall|k: int| 0 <= k < i ==> minuscula(#[trigger] x@[k]) == minuscula(y@[k]),
    {
        if minuscula_exec(x[i]) != minuscula_exec(y[i]) {
            return false;
        }
    }
    true
}

// ------------------------------------------------------------------
// Colour links
// ------------------------------------------------------------------

pub open spec fn es_color_nivel0(e: FilaCss) -> bool {
    e.1 == 0 && e.4 == TipoValorCss::Color
}

/// First index at or after `desde` whose row opens a section (level 1),
/// and whose id is `id` when `id` is given; `cat.len()` when none.
pub open spec fn siguiente_seccion(cat: Seq<FilaCss>, desde: int, id: Option<Seq<char>>) -> int
    decreases cat.len() - desde,
{
    if desde < 0 || desde >= cat.len() {
        cat.len() as int
    } else if cat[desde].1 == 1 && (id is None || cat[desde].0 == id->0) {
        desde
    } else {
        siguiente_seccion(cat, desde + 1, id)
    }
}

/// Ids, in catalog order among the first `n` rows, of the level 0 colours
/// other than `f` whose factory value equals `f`'s ignoring ASCII case.
pub open spec fn dependientes(cat: Seq<FilaCss>, f: FilaCss, n: int) -> Seq<Seq<char>>
    decreases n,
{
    if n <= 0 {
        seq![]
    } else {
        let previos = dependientes(cat, f, n - 1);
        let e = cat[n - 1];
        if es_color_nivel0(e) && e.0 != f.0 && igual_sin_mayusculas(e.3, f.3) {
            previos.push(e.0)
        } else {
            previos
        }
    }
}

/// Links of the source colours among rows `a..b`.
pub open spec fn vinculos_entre(cat: Seq<FilaCss>, a: int, b: int) -> Seq<(Seq<char>, Seq<Seq<char>>)>
    decreases b - a,
{
    if b <= a {
        seq![]
    } else {
        let previos = vinculos_entre(cat, a, b - 1);
        let f = cat[b - 1];
        let ds = dependientes(cat, f, cat.len() as int);
        if es_color_nivel0(f) && ds.len() > 0 {
            previos.push((f.0, ds))
        } else {
            previos
        }
    }
}

/// The colour links: each level 0 colour of the "Color de tema" section
/// (from its level 1 row `color-tema` to the next level 1 row), with the
/// other level 0 colours whose factory value matches its own; sources
/// without dependents are left out.
pub open spec fn vinculos(cat: Seq<FilaCss>) -> Seq<(Seq<char>, Seq<Seq<char>>)> {
    let inicio = siguiente_seccion(cat, 0, Some("color-tema"@));
    if inicio >= cat.len() {
        seq![]
    } else {
        let fin = siguiente_seccion(cat, inicio + 1, None);
        vinculos_entre(cat, inicio, fin)
    }
}

pub open spec fn vista_vinculos(v: Seq<(String, Vec<String>)>) -> Seq<(Seq<char>, Seq<Seq<char>>)> {
    Seq::new(v.len(), |i: int| (v[i].0@, vista_textos(v[i].1@)))
}

pub open spec fn vista_textos(v: Seq<String>) -> Seq<Seq<char>> {
    Seq::new(v.len(), |i: int| v[i]@)
}

fn buscar_seccion(catalogo: &[EntradaCatalogoCss], desde: usize, id: Option<&str>) -> (r: usize)
    requires
        desde <= catalogo.len(),
    ensures
        r as int == siguiente_seccion(
            vista_css(catalogo@),
            desde as int,
            match id {
                Some(s) => Some(s@),
                None => None,
            },
        ),
        desde <= r <= catalogo.len(),
    decreases catalogo.len() - desde,
{
    if desde >= catalogo.len() {
        return catalogo.len();
    }
    let e = &catalogo[desde];
    assert(vista_css(catalogo@)[desde as int] == e@);
    let coincide = match id {
        None => true,
        Some(s) => e.id == String::from_str(s),
    };
    if e.nivel == 1 && coincide {
        desde
    } else {
        buscar_seccion(catalogo, desde + 1, id)
    }
}

fn dependientes_exec(catalogo: &[EntradaCatalogoCss], f: &EntradaCatalogoCss) -> (r: Vec<String>)
    ensures
        vista_textos(r@) == dependientes(vista_css(catalogo@), f@, catalogo@.len() as int),
{
    let ghost cat = vista_css(catalogo@);
    let mut r: Vec<String> = Vec::new();
    let n = catalogo.len();
    assert(vista_textos(r@) == Seq::<Seq<char>>::empty());
    for j in 0..n
        invariant
            n == cat.len(),
            cat == vista_css(catalogo@),
            vista_textos(r@) == dependientes(cat, f@, j as int),
    {
        let e = &catalogo[j];
        assert(cat[j as int] == e@);
        let ghost antes = r@;
        if e.nivel == 0 && e.tipo == TipoValorCss::Color && e.id != f.id && igual_sin_mayusculas_exec(
            e.valor_defecto.as_str(),
            f.valor_defecto.as_str(),
        ) {
            r.push(e.id.clone());
            assert(vista_textos(r@) =~= vista_textos(antes).push(e.id@));
        }
    }
    r
}

/// The colour links of the appearance catalog.
pub fn vinculos_color(catalogo: &[EntradaCatalogoCss]) -> (r: Vec<(String, Vec<String>)>)
    ensures
        vista_vinculos(r@) == vinculos(vista_css(catalogo@)),
{
    let ghost cat = vista_css(catalogo@);
    let mut r: Vec<(String, Vec<String>)> = Vec::new();
    let inicio = buscar_seccion(catalogo, 0, Some("color-tema"));
    if inicio >= catalogo.len() {
        assert(vista_vinculos(r@) =~= Seq::<(Seq<char>, Seq<Seq<char>>)>::empty());
        return r;
    }
    let fin = buscar_seccion(catalogo, inicio + 1, None);
    assert(vista_vinculos(r@) =~= Seq::<(Seq<char>, Seq<Seq<char>>)>::empty());
    let mut j = inicio;
    while j < fin
        invariant
            inicio <= j <= fin <= catalogo@.len(),
            cat == vista_css(catalogo@),
            vista_vinculos(r@) == vinculos_entre(cat, inicio as int, j as int),
        decreases fin - j,
    {
        let f = &catalogo[j];
        assert(cat[j as int] == f@);
        let ghost antes = r@;
        if f.nivel == 0 && f.tipo == TipoValorCss::Color {
            let ds = dependientes_exec(catalogo, f);
            if ds.len() > 0 {
                r.push((f.id.clone(), ds));
                assert(vista_vinculos(r@) =~= vista_vinculos(antes).push((f.id@, vista_textos(ds@))));
            }
        }
        j += 1;
    }
    r
}

// ------------------------------------------------------------------
// Theme files
// ------------------------------------------------------------------

/// The comment block at the top of a theme file.
pub const ENCABEZADO_TEMA: &'static str = "# Tema de Apariencia — OmegaCtrl.\n\
         # Generado desde la Ventana de Configuración (pestaña Apariencia).\n\
         # Formato: variable=valor (una línea por variable CSS, sin el\n\
         # prefijo \"css.\" que usa Configuracion_Usuario.txt).\n\n";

/// The value of a variable: its override if there is one, else its factory
/// value.
pub open spec fn valor_efectivo(ov: MapaTexto, e: FilaCss) -> Seq<char> {
    if ov.dom().contains(e.0) {
        ov[e.0]
    } else {
        e.3
    }
}

/// `(variable, value)` for each level 0 row, in catalog order.
pub open spec fn entradas_tema(cat: Seq<FilaCss>, ov: MapaTexto) -> Seq<Par>
    decreases cat.len(),
{
    if cat.len() == 0 {
        seq![]
    } else {
        let previas = entradas_tema(cat.drop_last(), ov);
        let e = cat.last();
        if e.1 == 0 {
            previas.push((e.0, valor_efectivo(ov, e)))
        } else {
            previas
        }
    }
}

/// Text of a theme file.
pub open spec fn texto_tema(cat: Seq<FilaCss>, ov: MapaTexto) -> Seq<char> {
    ENCABEZADO_TEMA@ + cuerpo(entradas_tema(cat, ov))
}

/// A theme as a map: every variable with its value.
pub open spec fn tema_completo(cat: Seq<FilaCss>, ov: MapaTexto) -> MapaTexto {
    con_cambios(Map::empty(), entradas_tema(cat, ov))
}

/// Text of a theme file: with `usar_overrides` each variable's value in
/// effect (`overrides_css` holds the appearance overrides), otherwise the
/// factory values.
pub fn contenido_tema(
    catalogo: &[EntradaCatalogoCss],
    overrides_css: &MapaUsuario,
    usar_overrides: bool,
) -> (r: String)
    ensures
        r@ == texto_tema(
            vista_css(catalogo@),
            if usar_overrides {
                overrides_css@
            } else {
                Map::empty()
            },
        ),
{
    let ghost cat = vista_css(catalogo@);
    let ghost ov: MapaTexto = if usar_overrides {
        overrides_css@
    } else {
        Map::empty()
    };
    let mut r = String::from_str(ENCABEZADO_TEMA);
    let n = catalogo.len();
    assert(cat.take(0) == Seq::<FilaCss>::empty());
    for i in 0..n
        invariant
            n == cat.len(),
            cat == vista_css(catalogo@),
            ov == (if usar_overrides {
                overrides_css@
            } else {
                Map::<Seq<char>, Seq<char>>::empty()
            }),
            r@ == ENCABEZADO_TEMA@ + cuerpo(entradas_tema(cat.take(i as int), ov)),
    {
        let e = &catalogo[i];
        assert(cat[i as int] == e@);
        assert(cat.take(i + 1).drop_last() == cat.take(i as int));
        assert(cat.take(i + 1).last() == e@);
        if e.nivel == 0 {
            let valor = if usar_overrides {
                match overrides_css.obtener(e.id.as_str()) {
                    Some(v) => v,
                    None => e.valor_defecto.clone(),
                }
            } else {
                e.valor_defecto.clone()
            };
            assert(valor@ == valor_efectivo(ov, e@));
            let k = a_caracteres(e.id.as_str());
            let v = a_caracteres(valor.as_str());
            anexar(&mut r, k.as_slice());
            empujar(&mut r, '=');
            anexar(&mut r, v.as_slice());
            empujar(&mut r, '\n');
            proof {
                let es = entradas_tema(cat.take(i + 1), ov);
                assert(es.drop_last() == entradas_tema(cat.take(i as int), ov));
                assert(es.last() == (e.id@, valor@));
            }
        }
    }
    assert(cat.take(n as int) == cat);
    r
}

/// Values of theme `nombre` from its file text (`None`: there is no such
/// theme file): every level 0 variable, with the file's value when it has
/// one and the factory value otherwise.
pub fn cargar_tema_por_nombre(catalogo: &[EntradaCatalogoCss], nombre: &str, texto: Option<&str>) -> (r:
    Result<MapaUsuario, String>)
    ensures
        match texto {
            None => r matches Err(m) && m@ == "El tema \""@ + nombre@ + "\" no existe"@,
            Some(t) => r matches Ok(v) && v@ == tema_completo(vista_css(catalogo@), mapa_de_texto(t@)),
        },
{
    match texto {
        None => Err(mensaje("El tema \"", nombre, "\" no existe")),
        Some(t) => Ok(valores_de_tema(catalogo, t)),
    }
}

fn valores_de_tema(catalogo: &[EntradaCatalogoCss], texto: &str) -> (r: MapaUsuario)
    ensures
        r@ == tema_completo(vista_css(catalogo@), mapa_de_texto(texto@)),
{
    let ghost cat = vista_css(catalogo@);
    let archivo = leer_mapa(texto);
    let mut r = MapaUsuario::nuevo();
    let n = catalogo.len();
    assert(cat.take(0) == Seq::<FilaCss>::empty());
    for i in 0..n
        invariant
            n == cat.len(),
            cat == vista_css(catalogo@),
            archivo@ == mapa_de_texto(texto@),
            r@ == con_cambios(Map::empty(), entradas_tema(cat.take(i as int), archivo@)),
    {
        let e = &catalogo[i];
        assert(cat[i as int] == e@);
        assert(cat.take(i + 1).drop_last() == cat.take(i as int));
        assert(cat.take(i + 1).last() == e@);
        if e.nivel == 0 {
            let valor = match archivo.obtener(e.id.as_str()) {
                Some(v) => v,
                None => e.valor_defecto.clone(),
            };
            r.insertar(e.id.clone(), valor);
            proof {
                let es = entradas_tema(cat.take(i + 1), archivo@);
                assert(es.drop_last() == entradas_tema(cat.take(i as int), archivo@));
            }
        }
    }
    assert(cat.take(n as int) == cat);
    r
}

/// Imports a theme file text: its `variable=valor` lines, in order, saved
/// as an appearance batch (all or nothing); a file without any such line is
/// rejected.
pub fn importar_tema(
    catalogo: &[EntradaCatalogoCss],
    mapa: &mut MapaUsuario,
    texto: &str,
) -> (r: Result<(), Vec<(String, String)>>)
    ensures
        crate::formato::pares_texto(texto@).len() == 0 ==> (r matches Err(v) && vista_entradas(v@)
            == seq![(Seq::<char>::empty(), "El archivo de tema no contiene variables válidas"@)]
            && final(mapa)@ == old(mapa)@),
        crate::formato::pares_texto(texto@).len() > 0 ==> ({
            let es = errores_css(vista_css(catalogo@), crate::formato::pares_texto(texto@));
            &&& r is Ok <==> es.len() == 0
            &&& r matches Err(v) ==> vista_entradas(v@) == es && final(mapa)@ == old(mapa)@
            &&& r is Ok ==> final(mapa)@ == crate::lotes::con_cambios_prefijo(
                old(mapa)@,
                PREFIJO_CSS@,
                crate::formato::pares_texto(texto@),
            )
        }),
{
    let cambios = crate::formato::pares_de_texto(texto);
    if cambios.len() == 0 {
        let mut v: Vec<(String, String)> = Vec::new();
        v.push((String::new(), String::from_str("El archivo de tema no contiene variables válidas")));
        assert(vista_entradas(v@) =~= seq![
            (Seq::<char>::empty(), "El archivo de tema no contiene variables válidas"@),
        ]);
        return Err(v);
    }
    crate::lotes::guardar_lote_css(catalogo, mapa, cambios.as_slice())
}

// ------------------------------------------------------------------
// Theme names
// ------------------------------------------------------------------

/// A usable theme name: not blank once trimmed, no `/` or `\`, not `.` or
/// `..`.
pub open spec fn validacion_nombre_tema(nombre: Seq<char>) -> Result<(), Seq<char>> {
    let t = recortar(nombre);
    if t.len() == 0 {
        Err("El nombre del tema está vacío"@)
    } else if contiene(t, '/') || contiene(t, '\\') || t == "."@ || t == ".."@ {
        Err("Nombre de tema inválido"@)
    } else {
        Ok(())
    }
}

pub fn validar_nombre_tema(nombre: &str) -> (r: Result<(), String>)
    ensures
        vista_resultado(r) == validacion_nombre_tema(nombre@),
{
    let v = a_caracteres(nombre);
    let t = recortar_vec(v.as_slice());
    if t.len() == 0 {
        return Err(String::from_str("El nombre del tema está vacío"));
    }
    let punto = a_caracteres(".");
    let dos_puntos = a_caracteres("..");
    if contiene_exec(t.as_slice(), '/') || contiene_exec(t.as_slice(), '\\') || iguales(
        t.as_slice(),
        punto.as_slice(),
    ) || iguales(t.as_slice(), dos_puntos.as_slice()) {
        return Err(String::from_str("Nombre de tema inválido"));
    }
    Ok(())
}

/// File name `nombre` + `.theme`, the name trimmed.
pub open spec fn archivo_tema(nombre: Seq<char>) -> Seq<char> {
    recortar(nombre) + ".theme"@
}

fn nombre_archivo(nombre: &str) -> (r: String)
    ensures
        r@ == archivo_tema(nombre@),
{
    let mut r = crate::texto::recortar_cadena(nombre);
    r.append(".theme");
    r
}

/// File name for "save theme": the suggested name (trimmed) with `.theme`,
/// or `tema.theme` when the suggestion is blank.
pub fn guardar_tema(nombre_sugerido: &str) -> (r: String)
    ensures
        r@ == if recortar(nombre_sugerido@).len() == 0 {
            "tema.theme"@
        } else {
            archivo_tema(nombre_sugerido@)
        },
{
    let v = a_caracteres(nombre_sugerido);
    if recortar_vec(v.as_slice()).len() == 0 {
        String::from_str("tema.theme")
    } else {
        nombre_archivo(nombre_sugerido)
    }
}

/// File name for "save theme as" / "save edited theme", once the name is
/// accepted.
pub fn guardar_tema_como(nombre: &str) -> (r: Result<String, String>)
    ensures
        match r {
            Ok(f) => validacion_nombre_tema(nombre@) is Ok && f@ == archivo_tema(nombre@),
            Err(m) => validacion_nombre_tema(nombre@) == Err::<(), Seq<char>>(m@),
        },
{
    match validar_nombre_tema(nombre) {
        Ok(()) => Ok(nombre_archivo(nombre)),
        Err(m) => Err(m),
    }
}

/// File name for "save edited theme": the name must be accepted and the
/// user theme must exist (`existe`).
pub fn guardar_tema_editado(nombre: &str, existe: bool) -> (r: Result<String, String>)
    ensures
        validacion_nombre_tema(nombre@) is Err ==> (r matches Err(m) && validacion_nombre_tema(nombre@)
            == Err::<(), Seq<char>>(m@)),
        validacion_nombre_tema(nombre@) is Ok && !existe ==> (r matches Err(m) && m@ == "El tema \""@
            + nombre@ + "\" no existe"@),
        validacion_nombre_tema(nombre@) is Ok && existe ==> (r matches Ok(f) && f@ == archivo_tema(
            nombre@,
        )),
{
    match validar_nombre_tema(nombre) {
        Err(m) => Err(m),
        Ok(()) => {
            if !existe {
                Err(mensaje("El tema \"", nombre, "\" no existe"))
            } else {
                Ok(nombre_archivo(nombre))
            }
        },
    }
}

/// Checks before renaming a user theme (`predefinido`: the current name is
/// a program theme; `existe_actual` / `existe_nuevo`: whether the user theme
/// files exist). On success gives the new name, trimmed.
pub fn renombrar_tema(
    predefinido: bool,
    nombre_actual: &str,
    nombre_nuevo: &str,
    existe_actual: bool,
    existe_nuevo: bool,
) -> (r: Result<String, String>)
    ensures
        predefinido ==> (r matches Err(m) && m@ == "No se puede renombrar un tema predefinido"@),
        !predefinido && validacion_nombre_tema(nombre_nuevo@) is Err ==> (r matches Err(m)
            && validacion_nombre_tema(nombre_nuevo@) == Err::<(), Seq<char>>(m@)),
        !predefinido && validacion_nombre_tema(nombre_nuevo@) is Ok && !existe_actual ==> (r matches Err(m)
            && m@ == "El tema \""@ + nombre_actual@ + "\" no existe"@),
        !predefinido && validacion_nombre_tema(nombre_nuevo@) is Ok && existe_actual && existe_nuevo
            ==> (r matches Err(m) && m@ == "Ya existe un tema llamado \""@ + recortar(nombre_nuevo@)
            + "\""@),
        !predefinido && validacion_nombre_tema(nombre_nuevo@) is Ok && existe_actual && !existe_nuevo
            ==> (r matches Ok(n) && n@ == recortar(nombre_nuevo@)),
{
    if predefinido {
        return Err(String::from_str("No se puede renombrar un tema predefinido"));
    }
    if let Err(m) = validar_nombre_tema(nombre_nuevo) {
        return Err(m);
    }
    let nuevo = crate::texto::recortar_cadena(nombre_nuevo);
    if !existe_actual {
        return Err(mensaje("El tema \"", nombre_actual, "\" no existe"));
    }
    if existe_nuevo {
        return Err(mensaje("Ya existe un tema llamado \"", nuevo.as_str(), "\""));
    }
    Ok(nuevo)
}

/// Checks before deleting a user theme.
pub fn eliminar_tema(predefinido: bool, nombre: &str, existe: bool) -> (r: Result<(), String>)
    ensures
        predefinido ==> (r matches Err(m) && m@ == "No se puede eliminar un tema predefinido"@),
        !predefinido && !existe ==> (r matches Err(m) && m@ == "El tema \""@ + nombre@ + "\" no existe"@),
        !predefinido && existe ==> r is Ok,
{
    if predefinido {
        return Err(String::from_str("No se puede eliminar un tema predefinido"));
    }
    if !existe {
        return Err(mensaje("El tema \"", nombre, "\" no existe"));
    }
    Ok(())
}

/// A theme offered for loading.
pub struct TemaListado {
    pub nombre: String,
    pub origen: String,
}

/// The user themes, in order, but for those that are program themes
/// (`predefinidos[i]`: a program theme file of that name exists).
pub open spec fn temas_de_usuario(usuario: Seq<Seq<char>>, predefinidos: Seq<bool>) -> Seq<Seq<char>>
    decreases usuario.len(),
{
    if usuario.len() == 0 {
        seq![]
    } else {
        let previos = temas_de_usuario(usuario.drop_last(), predefinidos);
        if predefinidos[usuario.len() - 1] {
            previos
        } else {
            previos.push(usuario.last())
        }
    }
}

pub open spec fn vista_listado(v: Seq<TemaListado>) -> Seq<(Seq<char>, Seq<char>)> {
    Seq::new(v.len(), |i: int| (v[i].nombre@, v[i].origen@))
}

/// The program themes (origin `predefinido`), then the user themes
/// (origin `usuario`) that are not program themes: `predefinidos[i]` is
/// whether a program theme file named like `usuario[i]` exists.
pub fn listar_temas(programa: &[String], usuario: &[String], predefinidos: &[bool]) -> (r: Vec<
    TemaListado,
>)
    requires
        predefinidos.len() == usuario.len(),
    ensures
        vista_listado(r@) == Seq::new(programa@.len(), |i: int| (programa@[i]@, "predefinido"@))
            + Seq::new(
            temas_de_usuario(vista_textos(usuario@), predefinidos@).len(),
            |i: int| (temas_de_usuario(vista_textos(usuario@), predefinidos@)[i], "usuario"@),
        ),
{
    let ghost uv = vista_textos(usuario@);
    let ghost pd = predefinidos@;
    let mut r: Vec<TemaListado> = Vec::new();
    let n = programa.len();
    let mut i: usize = 0;
    while i < n
        invariant
            i <= n,
            n == programa@.len(),
            r@.len() == i,
            forall|j: int|
                0 <= j < i ==> #[trigger] r@[j].nombre@ == programa@[j]@ && r@[j].origen@
                    == "predefinido"@,
        decreases n - i,
    {
        r.push(TemaListado { nombre: programa[i].clone(), origen: String::from_str("predefinido") });
        i = i + 1;
    }
    let m = usuario.len();
    assert(uv.take(0) =~= Seq::<Seq<char>>::empty());
    for i in 0..m
        invariant
            n == programa@.len(),
            m == usuario@.len() == pd.len(),
            uv == vista_textos(usuario@),
            pd == predefinidos@,
            r@.len() == n + temas_de_usuario(uv.take(i as int), pd).len(),
            forall|j: int|
                0 <= j < n ==> #[trigger] r@[j].nombre@ == programa@[j]@ && r@[j].origen@
                    == "predefinido"@,
            forall|j: int|
                0 <= j < temas_de_usuario(uv.take(i as int), pd).len() ==> #[trigger] r@[n
                    + j].nombre@ == temas_de_usuario(uv.take(i as int), pd)[j] && r@[n + j].origen@
                    == "usuario"@,
    {
        assert(uv.take(i + 1).drop_last() =~= uv.take(i as int));
        assert(uv.take(i + 1).last() == usuario@[i as int]@);
        let ghost previos = temas_de_usuario(uv.take(i as int), pd);
        if !predefinidos[i] {
            let ghost antes = r@;
            r.push(TemaListado { nombre: usuario[i].clone(), origen: String::from_str("usuario") });
            let ghost nuevos = temas_de_usuario(uv.take(i + 1), pd);
            assert(nuevos == previos.push(usuario@[i as int]@));
            assert forall|j: int| 0 <= j < nuevos.len() implies #[trigger] r@[n + j].nombre@ == nuevos[j]
                && r@[n + j].origen@ == "usuario"@ by {
                if j < previos.len() {
                    assert(r@[n + j] == antes[n + j]);
                    assert(antes[n + j].nombre@ == previos[j]);
                }
            }
            assert forall|j: int| 0 <= j < n implies #[trigger] r@[j].nombre@ == programa@[j]@
                && r@[j].origen@ == "predefinido"@ by {
                assert(r@[j] == antes[j]);
                assert(antes[j].nombre@ == programa@[j]@);
            }
        } else {
            assert(temas_de_usuario(uv.take(i + 1), pd) == previos);
        }
    }
    assert(uv.take(m as int) =~= uv);
    let ghost t = temas_de_usuario(uv, pd);
    assert(r@.len() == n + t.len());
    assert forall|j: int| 0 <= j < r@.len() implies #[trigger] vista_listado(r@)[j] == (Seq::new(
        programa@.len(),
        |i: int| (programa@[i]@, "predefinido"@),
    ) + Seq::new(t.len(), |i: int| (t[i], "usuario"@)))[j] by {
        if j >= n {
            assert(r@[n + (j - n)].nombre@ == t[j - n]);
        }
    }
    assert(vista_listado(r@) =~= Seq::new(programa@.len(), |i: int| (programa@[i]@, "predefinido"@))
        + Seq::new(t.len(), |i: int| (t[i], "usuario"@)));
    r
}

// ------------------------------------------------------------------
// Saving and loading a theme
// ------------------------------------------------------------------

/// No two level 0 rows share an id (the appearance catalog reader rejects
/// such a catalog).
pub open spec fn ids_unicos(cat: Seq<FilaCss>) -> bool {
    forall|i: int, j: int|
        0 <= i < j < cat.len() && #[trigger] cat[i].1 == 0 && #[trigger] cat[j].1 == 0 ==> cat[i].0
            != cat[j].0
}

/// The variables of a theme survive being written to a theme file: ids that
/// are canonical keys and values in effect that are canonical values.
pub open spec fn tema_canonico(cat: Seq<FilaCss>, ov: MapaTexto) -> bool {
    forall|i: int|
        0 <= i < cat.len() && #[trigger] cat[i].1 == 0 ==> crate::formato::clave_canonica(cat[i].0)
            && crate::formato::valor_canonico(valor_efectivo(ov, cat[i]))
}

pub proof fn lema_encabezado_tema()
    ensures
        crate::formato::bloque_comentarios(ENCABEZADO_TEMA@),
{
    reveal_strlit(
        "# Tema de Apariencia — OmegaCtrl.\n\
         # Generado desde la Ventana de Configuración (pestaña Apariencia).\n\
         # Formato: variable=valor (una línea por variable CSS, sin el\n\
         # prefijo \"css.\" que usa Configuracion_Usuario.txt).\n\n",
    );
}

proof fn lema_entradas_canonicas(cat: Seq<FilaCss>, ov: MapaTexto)
    requires
        tema_canonico(cat, ov),
    ensures
        entradas_canonicas(entradas_tema(cat, ov)),
    decreases cat.len(),
{
    if cat.len() > 0 {
        let c = cat.drop_last();
        assert(tema_canonico(c, ov)) by {
            assert forall|i: int| 0 <= i < c.len() && #[trigger] c[i].1 == 0 implies crate::formato::clave_canonica(c[i].0)
                && crate::formato::valor_canonico(valor_efectivo(ov, c[i])) by {
                assert(c[i] == cat[i]);
            }
        }
        lema_entradas_canonicas(c, ov);
        let es = entradas_tema(cat, ov);
        assert(cat.last() == cat[cat.len() - 1]);
        assert forall|i: int| 0 <= i < es.len() implies crate::formato::clave_canonica(#[trigger] es[i].0)
            && crate::formato::valor_canonico(es[i].1) by {
            if i < entradas_tema(c, ov).len() {
                assert(es[i] == entradas_tema(c, ov)[i]);
            }
        }
    }
}

/// Every level 0 variable is in the theme map, with its value in effect.
pub proof fn lema_tema_completo(cat: Seq<FilaCss>, ov: MapaTexto)
    requires
        ids_unicos(cat),
    ensures
        forall|i: int|
            0 <= i < cat.len() && #[trigger] cat[i].1 == 0 ==> tema_completo(cat, ov).dom().contains(
                cat[i].0,
            ) && tema_completo(cat, ov)[cat[i].0] == valor_efectivo(ov, cat[i]),
    decreases cat.len(),
{
    if cat.len() > 0 {
        let c = cat.drop_last();
        let e = cat.last();
        assert(ids_unicos(c)) by {
            assert forall|i: int, j: int|
                0 <= i < j < c.len() && #[trigger] c[i].1 == 0 && #[trigger] c[j].1 == 0 implies c[i].0
                != c[j].0 by {
                assert(c[i] == cat[i] && c[j] == cat[j]);
            }
        }
        lema_tema_completo(c, ov);
        let es = entradas_tema(cat, ov);
        if e.1 == 0 {
            assert(es.drop_last() == entradas_tema(c, ov));
        }
        assert forall|i: int|
            0 <= i < cat.len() && #[trigger] cat[i].1 == 0 implies tema_completo(cat, ov).dom().contains(
            cat[i].0,
        ) && tema_completo(cat, ov)[cat[i].0] == valor_efectivo(ov, cat[i]) by {
            if i < c.len() {
                assert(c[i] == cat[i]);
                if e.1 == 0 {
                    assert(cat[i].0 != cat[cat.len() - 1].0);
                }
            }
        }
    }
}

proof fn lema_entradas_iguales(cat: Seq<FilaCss>, a: MapaTexto, b: MapaTexto)
    requires
        forall|i: int|
            0 <= i < cat.len() && #[trigger] cat[i].1 == 0 ==> valor_efectivo(a, cat[i])
                == valor_efectivo(b, cat[i]),
    ensures
        entradas_tema(cat, a) == entradas_tema(cat, b),
    decreases cat.len(),
{
    if cat.len() > 0 {
        let c = cat.drop_last();
        assert forall|i: int| 0 <= i < c.len() && #[trigger] c[i].1 == 0 implies valor_efectivo(a, c[i])
            == valor_efectivo(b, c[i]) by {
            assert(c[i] == cat[i]);
        }
        lema_entradas_iguales(c, a, b);
        assert(cat.last() == cat[cat.len() - 1]);
    }
}

/// Saving a theme and loading the file back gives every variable its value
/// in effect when the theme was saved.
pub proof fn ley_tema_guardado_cargado(cat: Seq<FilaCss>, ov: MapaTexto)
    requires
        ids_unicos(cat),
        tema_canonico(cat, ov),
    ensures
        mapa_de_texto(texto_tema(cat, ov)) == tema_completo(cat, ov),
        tema_completo(cat, mapa_de_texto(texto_tema(cat, ov))) == tema_completo(cat, ov),
{
    let es = entradas_tema(cat, ov);
    let h = ENCABEZADO_TEMA@;
    lema_encabezado_tema();
    lema_entradas_canonicas(cat, ov);
    crate::formato::lema_lineas_concat(h, cuerpo(es));
    lema_procesar_concat(Map::empty(), crate::texto::lineas(h), crate::texto::lineas(cuerpo(es)));
    crate::formato::lema_comentarios(Map::empty(), h);
    crate::formato::lema_cuerpo_cambios(Map::empty(), es);
    let t = tema_completo(cat, ov);
    lema_tema_completo(cat, ov);
    assert forall|i: int| 0 <= i < cat.len() && #[trigger] cat[i].1 == 0 implies valor_efectivo(t, cat[i])
        == valor_efectivo(ov, cat[i]) by {}
    lema_entradas_iguales(cat, t, ov);
}

proof fn lema_procesar_css_unicos(ls: Seq<Seq<char>>)
    ensures
        procesar_css(ls) matches Ok(cat) ==> ids_unicos(cat),
    decreases ls.len(),
{
    if ls.len() > 0 {
        lema_procesar_css_unicos(ls.drop_last());
        match procesar_css(ls.drop_last()) {
            Ok(es) => {
                match paso_css(es, ls.last(), ls.len()) {
                    Ok(cat) => {
                        if cat.len() > es.len() {
                            assert(cat == es.push(cat.last()));
                            assert forall|i: int, j: int|
                                0 <= i < j < cat.len() && #[trigger] cat[i].1 == 0 && #[trigger] cat[j].1
                                    == 0 implies cat[i].0 != cat[j].0 by {
                                if j < es.len() {
                                    assert(cat[i] == es[i] && cat[j] == es[j]);
                                } else {
                                    assert(cat[i] == es[i]);
                                    assert(!id_usado(es, cat[j].0));
                                }
                            }
                        } else {
                            assert(cat == es);
                        }
                    },
                    Err(_) => {},
                }
            },
            Err(_) => {},
        }
    }
}

/// The appearance catalog reader never gives two level 0 rows one id.
pub proof fn ley_catalogo_css_ids_unicos(t: Seq<char>)
    ensures
        catalogo_css_de_texto(t) matches Ok(cat) ==> ids_unicos(cat),
{
    lema_procesar_css_unicos(crate::texto::lineas(t));
}

/// A theme name is accepted exactly when, trimmed, it is not blank, holds
/// no `/` or `\\` and is neither `.` nor `..` (dots elsewhere are fine, as
/// in `v1.2`); its file is then the trimmed name with `.theme`.
pub proof fn ley_nombre_tema_aceptado(nombre: Seq<char>)
    ensures
        validacion_nombre_tema(nombre) is Ok <==> ({
            let t = recortar(nombre);
            &&& t.len() > 0
            &&& !contiene(t, '/')
            &&& !contiene(t, '\\')
            &&& t != "."@
            &&& t != ".."@
        }),
        recortar(nombre).len() == 0 ==> validacion_nombre_tema(nombre) == Err::<(), Seq<char>>(
            "El nombre del tema está vacío"@,
        ),
        archivo_tema(nombre) == recortar(nombre) + ".theme"@,
{
}

} // verus!
