//! The appearance session: which theme is applied, which theme the settings
//! window shows as its base while it is open, and applying the edited
//! appearance to the settings store.
//!
//! Applying stores the whole theme as sparse overrides: every appearance
//! variable whose value in effect differs from its factory value (ignoring
//! ASCII case) is stored under `css.`, and the others are left to the
//! factory cascade. Colours linked to a theme colour follow it while their
//! value still matches the colour's old value.

use vstd::prelude::*;
use crate::ajustes::{guardar_tema_aplicado, CLAVE_TEMA_NOMBRE, CLAVE_TEMA_ORIGEN};
use crate::apariencia::{igual_sin_mayusculas, igual_sin_mayusculas_exec, vinculos, vinculos_color, vista_textos};
use crate::catalogo::{vista_css, EntradaCatalogoCss, FilaCss};
use crate::lotes::{con_cambios, errores_css, validar_lote_css, MapaTexto, Par, PREFIJO_CSS};
use crate::mapa::{filtrado, sin_prefijo, vista_entradas, Filtro, MapaUsuario};
use crate::texto::{recortar, recortar_cadena};

verus! {

// ------------------------------------------------------------------
// Changes and colour links
// ------------------------------------------------------------------

/// The changes with their values trimmed.
pub open spec fn recortados(cs: Seq<Par>) -> Seq<Par> {
    Seq::new(cs.len(), |i: int| (cs[i].0, recortar(cs[i].1)))
}

/// Whether some change is for key `k`.
pub open spec fn tiene_cambio(cs: Seq<Par>, k: Seq<char>) -> bool {
    exists|i: int| 0 <= i < cs.len() && #[trigger] cs[i].0 == k
}

/// The value of the first change for key `k`.
pub open spec fn primer_cambio(cs: Seq<Par>, k: Seq<char>) -> Option<Seq<char>>
    decreases cs.len(),
{
    if cs.len() == 0 {
        None
    } else if cs[0].0 == k {
        Some(cs[0].1)
    } else {
        primer_cambio(cs.drop_first(), k)
    }
}

/// The dependents `ds`, in order, of a colour going from `viejo` to
/// `nuevo`: each one not changed yet whose value in `vals` still matches
/// `viejo` (ignoring ASCII case) gets the change `(dependiente, nuevo)`.
pub open spec fn arrastrar(
    vals: MapaTexto,
    ds: Seq<Seq<char>>,
    viejo: Seq<char>,
    nuevo: Seq<char>,
    cs: Seq<Par>,
) -> Seq<Par>
    decreases ds.len(),
{
    if ds.len() == 0 {
        cs
    } else {
        let previos = arrastrar(vals, ds.drop_last(), viejo, nuevo, cs);
        let d = ds.last();
        if !tiene_cambio(previos, d) && vals.dom().contains(d) && igual_sin_mayusculas(vals[d], viejo) {
            previos.push((d, nuevo))
        } else {
            previos
        }
    }
}

/// One colour link: when the source colour is changed and has a value in
/// effect, its dependents follow it.
pub open spec fn paso_vinculo(vals: MapaTexto, v: (Seq<char>, Seq<Seq<char>>), cs: Seq<Par>) -> Seq<
    Par,
> {
    match primer_cambio(cs, v.0) {
        None => cs,
        Some(nuevo) => if vals.dom().contains(v.0) {
            arrastrar(vals, v.1, vals[v.0], nuevo, cs)
        } else {
            cs
        },
    }
}

/// The changes after following every colour link, in order.
pub open spec fn propagar(vals: MapaTexto, vs: Seq<(Seq<char>, Seq<Seq<char>>)>, cs: Seq<Par>) -> Seq<
    Par,
>
    decreases vs.len(),
{
    if vs.len() == 0 {
        cs
    } else {
        paso_vinculo(vals, vs.last(), propagar(vals, vs.drop_last(), cs))
    }
}

// ------------------------------------------------------------------
// Applying
// ------------------------------------------------------------------

/// `m` with, for each level 0 row in order, the row's value in `vals`
/// stored under `css.` when it differs from its factory value ignoring
/// ASCII case.
pub open spec fn con_dispersos(m: MapaTexto, cat: Seq<FilaCss>, vals: MapaTexto) -> MapaTexto
    decreases cat.len(),
{
    if cat.len() == 0 {
        m
    } else {
        let previo = con_dispersos(m, cat.drop_last(), vals);
        let e = cat.last();
        if e.1 == 0 && vals.dom().contains(e.0) && !igual_sin_mayusculas(vals[e.0], e.3) {
            previo.insert(PREFIJO_CSS@ + e.0, vals[e.0])
        } else {
            previo
        }
    }
}

/// Values in effect before applying: the session base theme with the
/// stored overrides on top.
pub open spec fn valores_vigentes(base: MapaTexto, m: MapaTexto) -> MapaTexto {
    base.union_prefer_right(sin_prefijo(m, PREFIJO_CSS@))
}

/// The changes to apply: trimmed, then followed by the linked colours.
pub open spec fn cambios_aplicados(cat: Seq<FilaCss>, base: MapaTexto, m: MapaTexto, cs: Seq<Par>) -> Seq<
    Par,
> {
    propagar(valores_vigentes(base, m), vinculos(cat), recortados(cs))
}

/// Values in effect after applying.
pub open spec fn valores_aplicados(cat: Seq<FilaCss>, base: MapaTexto, m: MapaTexto, cs: Seq<Par>) -> MapaTexto {
    con_cambios(valores_vigentes(base, m), cambios_aplicados(cat, base, m, cs))
}

/// The store after applying: the old appearance overrides replaced by the
/// sparse overrides of the values in effect, and the applied theme recorded.
pub open spec fn mapa_aplicado(
    cat: Seq<FilaCss>,
    base: MapaTexto,
    m: MapaTexto,
    cs: Seq<Par>,
    nombre: Seq<char>,
    origen: Seq<char>,
) -> MapaTexto {
    con_dispersos(
        filtrado(m, Filtro::SinPrefijo, PREFIJO_CSS@),
        cat,
        valores_aplicados(cat, base, m, cs),
    ).insert(CLAVE_TEMA_NOMBRE@, nombre).insert(CLAVE_TEMA_ORIGEN@, origen)
}

fn recortar_cambios(cambios: &[(String, String)]) -> (r: Vec<(String, String)>)
    ensures
        vista_entradas(r@) == recortados(vista_entradas(cambios@)),
{
    let mut r: Vec<(String, String)> = Vec::new();
    let n = cambios.len();
    let mut i: usize = 0;
    while i < n
        invariant
            i <= n == cambios@.len(),
            r@.len() == i,
            forall|j: int|
                0 <= j < i ==> (#[trigger] r@[j]).0@ == cambios@[j].0@ && r@[j].1@ == recortar(
                    cambios@[j].1@,
                ),
        decreases n - i,
    {
        let v = recortar_cadena(cambios[i].1.as_str());
        r.push((cambios[i].0.clone(), v));
        i += 1;
    }
    assert(vista_entradas(r@) =~= recortados(vista_entradas(cambios@)));
    r
}

fn tiene_cambio_exec(cs: &Vec<(String, String)>, k: &String) -> (r: bool)
    ensures
        r == tiene_cambio(vista_entradas(cs@), k@),
{
    let ghost s = vista_entradas(cs@);
    let n = cs.len();
    for i in 0..n
        invariant
            n == s.len(),
            s == vista_entradas(cs@),
            forall|j: int| 0 <= j < i ==> #[trigger] s[j].0 != k@,
    {
        assert(s[i as int].0 == cs@[i as int].0@);
        if cs[i].0 == *k {
            return true;
        }
    }
    false
}

fn primer_cambio_exec(cs: &Vec<(String, String)>, k: &String) -> (r: Option<String>)
    ensures
        match r {
            None => primer_cambio(vista_entradas(cs@), k@) is None,
            Some(v) => primer_cambio(vista_entradas(cs@), k@) == Some(v@),
        },
{
    let ghost s = vista_entradas(cs@);
    let n = cs.len();
    let mut i: usize = 0;
    assert(s.skip(0) =~= s);
    while i < n
        invariant
            i <= n == s.len(),
            s == vista_entradas(cs@),
            primer_cambio(s, k@) == primer_cambio(s.skip(i as int), k@),
        decreases n - i,
    {
        assert(s.skip(i as int)[0] == s[i as int]);
        assert(s.skip(i as int).drop_first() =~= s.skip(i + 1));
        if cs[i].0 == *k {
            return Some(cs[i].1.clone());
        }
        i += 1;
    }
    assert(s.skip(n as int).len() == 0);
    None
}

fn arrastrar_exec(
    vals: &MapaUsuario,
    ds: &Vec<String>,
    viejo: &String,
    nuevo: &String,
    cs: &mut Vec<(String, String)>,
)
    ensures
        vista_entradas(final(cs)@) == arrastrar(
            vals@,
            vista_textos(ds@),
            viejo@,
            nuevo@,
            vista_entradas(old(cs)@),
        ),
{
    let ghost inicial = vista_entradas(cs@);
    let ghost dv = vista_textos(ds@);
    let n = ds.len();
    assert(dv.take(0) =~= Seq::<Seq<char>>::empty());
    for i in 0..n
        invariant
            n == ds@.len(),
            dv == vista_textos(ds@),
            vista_entradas(cs@) == arrastrar(vals@, dv.take(i as int), viejo@, nuevo@, inicial),
    {
        let d = &ds[i];
        assert(dv.take(i + 1).drop_last() =~= dv.take(i as int));
        assert(dv.take(i + 1).last() == d@);
        let ya = tiene_cambio_exec(cs, d);
        if !ya {
            match vals.obtener(d.as_str()) {
                Some(v) => {
                    if igual_sin_mayusculas_exec(v.as_str(), viejo.as_str()) {
                        let ghost antes = cs@;
                        cs.push((d.clone(), nuevo.clone()));
                        assert(vista_entradas(cs@) =~= vista_entradas(antes).push((d@, nuevo@)));
                    }
                },
                None => {},
            }
        }
    }
    assert(dv.take(n as int) =~= dv);
}

fn propagar_exec(
    vals: &MapaUsuario,
    vs: &Vec<(String, Vec<String>)>,
    cs: &mut Vec<(String, String)>,
)
    ensures
        vista_entradas(final(cs)@) == propagar(
            vals@,
            crate::apariencia::vista_vinculos(vs@),
            vista_entradas(old(cs)@),
        ),
{
    let ghost inicial = vista_entradas(cs@);
    let ghost vv = crate::apariencia::vista_vinculos(vs@);
    let n = vs.len();
    assert(vv.take(0) =~= Seq::<(Seq<char>, Seq<Seq<char>>)>::empty());
    for i in 0..n
        invariant
            n == vs@.len(),
            vv == crate::apariencia::vista_vinculos(vs@),
            vista_entradas(cs@) == propagar(vals@, vv.take(i as int), inicial),
    {
        let fuente = &vs[i].0;
        let ds = &vs[i].1;
        assert(vv.take(i + 1).drop_last() =~= vv.take(i as int));
        assert(vv.take(i + 1).last() == (fuente@, vista_textos(ds@)));
        match primer_cambio_exec(cs, fuente) {
            None => {},
            Some(nuevo) => {
                match vals.obtener(fuente.as_str()) {
                    None => {},
                    Some(viejo) => {
                        arrastrar_exec(vals, ds, &viejo, &nuevo, cs);
                    },
                }
            },
        }
    }
    assert(vv.take(n as int) =~= vv);
}

fn guardar_dispersos(mapa: &mut MapaUsuario, catalogo: &[EntradaCatalogoCss], vals: &MapaUsuario)
    ensures
        final(mapa)@ == con_dispersos(old(mapa)@, vista_css(catalogo@), vals@),
{
    let ghost inicial = mapa@;
    let ghost cat = vista_css(catalogo@);
    let n = catalogo.len();
    assert(cat.take(0) =~= Seq::<FilaCss>::empty());
    for i in 0..n
        invariant
            n == cat.len(),
            cat == vista_css(catalogo@),
            mapa@ == con_dispersos(inicial, cat.take(i as int), vals@),
    {
        let e = &catalogo[i];
        assert(cat[i as int] == e@);
        assert(cat.take(i + 1).drop_last() =~= cat.take(i as int));
        assert(cat.take(i + 1).last() == e@);
        if e.nivel == 0 {
            match vals.obtener(e.id.as_str()) {
                Some(v) => {
                    if !igual_sin_mayusculas_exec(v.as_str(), e.valor_defecto.as_str()) {
                        let mut k = String::from_str(PREFIJO_CSS);
                        k.append(e.id.as_str());
                        mapa.insertar(k, v);
                    }
                },
                None => {},
            }
        }
    }
    assert(cat.take(n as int) =~= cat);
}

/// Applies the edited appearance. `sesion` is the session's theme (name,
/// origin and values, keys without `css.`) or why it could not be read.
/// A batch with a rejected change, or a missing session theme, leaves the
/// store untouched. Otherwise the values in effect are the session theme
/// with the stored overrides and then the changes (trimmed, linked colours
/// following their source) on top; the store keeps its other sections, gets
/// the sparse overrides of those values, and records the session theme as
/// the applied one. The session is handed back on success.
pub fn aplicar_apariencia(
    catalogo: &[EntradaCatalogoCss],
    mapa: &mut MapaUsuario,
    sesion: Result<(String, String, MapaUsuario), String>,
    cambios: &[(String, String)],
) -> (r: Result<(String, String, MapaUsuario), Vec<(String, String)>>)
    ensures
        ({
            let cat = vista_css(catalogo@);
            let cs = vista_entradas(cambios@);
            let es = errores_css(cat, cs);
            &&& es.len() > 0 ==> (r matches Err(v) && vista_entradas(v@) == es && final(mapa)@
                == old(mapa)@)
            &&& es.len() == 0 && sesion is Err ==> (r matches Err(v) && vista_entradas(v@) == seq![
                (Seq::<char>::empty(), sesion->Err_0@),
            ] && final(mapa)@ == old(mapa)@)
            &&& es.len() == 0 && sesion is Ok ==> (r matches Ok(t) && t.0@ == sesion->Ok_0.0@ && t.1@
                == sesion->Ok_0.1@ && t.2@ == sesion->Ok_0.2@ && final(mapa)@ == mapa_aplicado(
                cat,
                sesion->Ok_0.2@,
                old(mapa)@,
                cs,
                sesion->Ok_0.0@,
                sesion->Ok_0.1@,
            ))
        }),
{
    let ghost cat = vista_css(catalogo@);
    let ghost cs = vista_entradas(cambios@);
    let errores = validar_lote_css(catalogo, cambios);
    if errores.len() > 0 {
        return Err(errores);
    }
    let (nombre, origen, base) = match sesion {
        Ok(t) => t,
        Err(e) => {
            let mut v: Vec<(String, String)> = Vec::new();
            v.push((String::new(), e));
            assert(vista_entradas(v@) =~= seq![(Seq::<char>::empty(), e@)]);
            return Err(v);
        },
    };
    let ghost m0 = mapa@;
    let vigentes = mapa.quitar_prefijo(PREFIJO_CSS);
    let mut vals = base.copia();
    let entradas = vigentes.entradas();
    proof {
        crate::lotes::lema_con_cambios_union(base@, vista_entradas(entradas@));
    }
    crate::lotes::guardar_cambios(&mut vals, entradas.as_slice());
    assert(vals@ == valores_vigentes(base@, m0));
    let ghost vals0 = vals@;
    let mut finales = recortar_cambios(cambios);
    let vs = vinculos_color(catalogo);
    propagar_exec(&vals, &vs, &mut finales);
    assert(vista_entradas(finales@) == cambios_aplicados(cat, base@, m0, cs));
    crate::lotes::guardar_cambios(&mut vals, finales.as_slice());
    let sin_css = mapa.filtrar(Filtro::SinPrefijo, PREFIJO_CSS);
    *mapa = sin_css;
    guardar_dispersos(mapa, catalogo, &vals);
    guardar_tema_aplicado(mapa, nombre.as_str(), origen.as_str());
    Ok((nombre, origen, base))
}

// ------------------------------------------------------------------
// Removing appearance overrides
// ------------------------------------------------------------------

/// Factory value of the appearance variable `k` (the first level 0 row with
/// that id).
pub open spec fn defecto_variable(cat: Seq<FilaCss>, k: Seq<char>) -> Option<Seq<char>>
    decreases cat.len(),
{
    if cat.len() == 0 {
        None
    } else if cat[0].1 == 0 && cat[0].0 == k {
        Some(cat[0].3)
    } else {
        defecto_variable(cat.drop_first(), k)
    }
}

/// Removing the override of `k`: when the session theme gives `k` a value
/// other than its factory value (ignoring ASCII case), that value is stored
/// as the override instead, so the variable keeps the theme's value.
pub open spec fn sin_override(
    cat: Seq<FilaCss>,
    base: Option<MapaTexto>,
    m: MapaTexto,
    k: Seq<char>,
) -> MapaTexto {
    let m1 = m.remove(PREFIJO_CSS@ + k);
    match defecto_variable(cat, k) {
        None => m1,
        Some(d) => match base {
            Some(b) => if b.dom().contains(k) && !igual_sin_mayusculas(b[k], d) {
                m1.insert(PREFIJO_CSS@ + k, b[k])
            } else {
                m1
            },
            None => m1,
        },
    }
}

pub open spec fn sin_overrides(
    cat: Seq<FilaCss>,
    base: Option<MapaTexto>,
    m: MapaTexto,
    ks: Seq<Seq<char>>,
) -> MapaTexto
    decreases ks.len(),
{
    if ks.len() == 0 {
        m
    } else {
        sin_override(cat, base, sin_overrides(cat, base, m, ks.drop_last()), ks.last())
    }
}

pub open spec fn vista_base(base: Option<&MapaUsuario>) -> Option<MapaTexto> {
    match base {
        Some(b) => Some(b@),
        None => None,
    }
}

fn defecto_de_variable(catalogo: &[EntradaCatalogoCss], clave: &String) -> (r: Option<String>)
    ensures
        match r {
            None => defecto_variable(vista_css(catalogo@), clave@) is None,
            Some(d) => defecto_variable(vista_css(catalogo@), clave@) == Some(d@),
        },
{
    let ghost cat = vista_css(catalogo@);
    let n = catalogo.len();
    let mut j: usize = 0;
    assert(cat.skip(0) == cat);
    while j < n
        invariant
            j <= n == cat.len(),
            cat == vista_css(catalogo@),
            defecto_variable(cat, clave@) == defecto_variable(cat.skip(j as int), clave@),
        decreases n - j,
    {
        assert(cat.skip(j as int)[0] == cat[j as int]);
        assert(cat.skip(j as int).drop_first() == cat.skip(j + 1));
        if catalogo[j].nivel == 0 && catalogo[j].id == *clave {
            return Some(catalogo[j].valor_defecto.clone());
        }
        j += 1;
    }
    None
}

/// Removes the appearance overrides of `claves`, in order; `base` is the
/// session theme's values, when it could be read.
pub fn restablecer_claves_css(
    catalogo: &[EntradaCatalogoCss],
    mapa: &mut MapaUsuario,
    base: Option<&MapaUsuario>,
    claves: &[String],
)
    ensures
        final(mapa)@ == sin_overrides(
            vista_css(catalogo@),
            vista_base(base),
            old(mapa)@,
            vista_textos(claves@),
        ),
{
    let ghost inicial = mapa@;
    let ghost cat = vista_css(catalogo@);
    let ghost ks = vista_textos(claves@);
    let n = claves.len();
    assert(ks.take(0) =~= Seq::<Seq<char>>::empty());
    for i in 0..n
        invariant
            n == claves@.len(),
            cat == vista_css(catalogo@),
            ks == vista_textos(claves@),
            mapa@ == sin_overrides(cat, vista_base(base), inicial, ks.take(i as int)),
    {
        let clave = &claves[i];
        assert(ks.take(i + 1).drop_last() =~= ks.take(i as int));
        assert(ks.take(i + 1).last() == clave@);
        let mut k = String::from_str(PREFIJO_CSS);
        k.append(clave.as_str());
        mapa.quitar(k.as_str());
        match defecto_de_variable(catalogo, clave) {
            None => {},
            Some(d) => {
                match base {
                    None => {},
                    Some(b) => {
                        match b.obtener(clave.as_str()) {
                            None => {},
                            Some(v) => {
                                if !igual_sin_mayusculas_exec(v.as_str(), d.as_str()) {
                                    mapa.insertar(k, v);
                                }
                            },
                        }
                    },
                }
            },
        }
    }
    assert(ks.take(n as int) =~= ks);
}

// ------------------------------------------------------------------
// Session state
// ------------------------------------------------------------------

/// The theme in effect and the settings window's session theme.
pub struct EstadoApariencia {
    aplicado: (String, String),
    sesion: Option<(String, String, MapaUsuario)>,
}

/// A session theme: name, origin and values.
pub type VistaSesion = (Seq<char>, Seq<char>, MapaTexto);

pub open spec fn vista_sesion(s: Option<(String, String, MapaUsuario)>) -> Option<VistaSesion> {
    match s {
        Some(t) => Some((t.0@, t.1@, t.2@)),
        None => None,
    }
}

/// The applied theme as shown: `Default` (a program theme) until one is
/// recorded.
pub open spec fn aplicado_efectivo(nombre: Seq<char>, origen: Seq<char>) -> (Seq<char>, Seq<char>) {
    if nombre.len() == 0 {
        ("Default"@, "predefinido"@)
    } else {
        (nombre, origen)
    }
}

fn copiar_sesion(s: &Option<(String, String, MapaUsuario)>) -> (r: Option<(String, String, MapaUsuario)>)
    ensures
        vista_sesion(r) == vista_sesion(*s),
{
    match s {
        Some(t) => Some((t.0.clone(), t.1.clone(), t.2.copia())),
        None => None,
    }
}

impl View for EstadoApariencia {
    type V = (Seq<char>, Seq<char>, Option<VistaSesion>);

    closed spec fn view(&self) -> Self::V {
        (self.aplicado.0@, self.aplicado.1@, vista_sesion(self.sesion))
    }
}

impl EstadoApariencia {
    /// Nothing applied yet, no session.
    pub fn nuevo() -> (r: EstadoApariencia)
        ensures
            r@ == (Seq::<char>::empty(), Seq::<char>::empty(), None::<VistaSesion>),
    {
        EstadoApariencia { aplicado: (String::new(), String::new()), sesion: None }
    }
}

/// The applied theme (name, origin).
pub fn tema_aplicado_actual(estado: &EstadoApariencia) -> (r: (String, String))
    ensures
        (r.0@, r.1@) == aplicado_efectivo(estado@.0, estado@.1),
{
    if estado.aplicado.0.as_str().unicode_len() == 0 {
        (String::from_str("Default"), String::from_str("predefinido"))
    } else {
        (estado.aplicado.0.clone(), estado.aplicado.1.clone())
    }
}

pub fn establecer_tema_aplicado_en_memoria(estado: &mut EstadoApariencia, nombre: &str, origen: &str)
    ensures
        final(estado)@ == (nombre@, origen@, old(estado)@.2),
{
    estado.aplicado = (String::from_str(nombre), String::from_str(origen));
}

/// The session theme, when one is set.
pub fn sesion_guardada(estado: &EstadoApariencia) -> (r: Option<(String, String, MapaUsuario)>)
    ensures
        vista_sesion(r) == estado@.2,
{
    copiar_sesion(&estado.sesion)
}

pub fn establecer_sesion_apariencia(
    estado: &mut EstadoApariencia,
    valor: Option<(String, String, MapaUsuario)>,
)
    ensures
        final(estado)@ == (old(estado)@.0, old(estado)@.1, vista_sesion(valor)),
{
    estado.sesion = valor;
}

/// Drops the session theme and gives the applied theme.
pub fn sesion_apariencia_reiniciar(estado: &mut EstadoApariencia) -> (r: (String, String))
    ensures
        final(estado)@ == (old(estado)@.0, old(estado)@.1, None::<VistaSesion>),
        (r.0@, r.1@) == aplicado_efectivo(old(estado)@.0, old(estado)@.1),
{
    estado.sesion = None;
    tema_aplicado_actual(estado)
}

/// Drops every appearance override from the store.
pub fn limpiar_overrides_css(mapa: &mut MapaUsuario)
    ensures
        final(mapa)@ == filtrado(old(mapa)@, Filtro::SinPrefijo, PREFIJO_CSS@),
{
    let sin_css = mapa.filtrar(Filtro::SinPrefijo, PREFIJO_CSS);
    *mapa = sin_css;
}

/// Loads a theme into the session: every appearance override is dropped
/// from the store and the theme becomes the session theme; its values are
/// handed back.
pub fn tema_sesion_cargar(
    estado: &mut EstadoApariencia,
    mapa: &mut MapaUsuario,
    nombre: &str,
    origen: &str,
    valores: MapaUsuario,
) -> (r: MapaUsuario)
    ensures
        r@ == valores@,
        final(mapa)@ == filtrado(old(mapa)@, Filtro::SinPrefijo, PREFIJO_CSS@),
        final(estado)@ == (old(estado)@.0, old(estado)@.1, Some((nombre@, origen@, valores@))),
{
    limpiar_overrides_css(mapa);
    let r = valores.copia();
    estado.sesion = Some((String::from_str(nombre), String::from_str(origen), valores));
    r
}

/// After applying: the session theme is the applied theme and stays the
/// session theme.
pub fn tras_aplicar(estado: &mut EstadoApariencia, sesion: (String, String, MapaUsuario))
    ensures
        final(estado)@ == (sesion.0@, sesion.1@, Some((sesion.0@, sesion.1@, sesion.2@))),
{
    estado.aplicado = (sesion.0.clone(), sesion.1.clone());
    estado.sesion = Some(sesion);
}

/// The applied theme to record after renaming user theme `actual` to
/// `nuevo`: the new name when `actual` was the applied user theme.
pub fn aplicado_tras_renombrar(estado: &EstadoApariencia, actual: &str, nuevo: &str) -> (r: Option<
    (String, String),
>)
    ensures
        ({
            let (n, o) = aplicado_efectivo(estado@.0, estado@.1);
            &&& (n == actual@ && o == "usuario"@) ==> (r matches Some(t) && t.0@ == nuevo@ && t.1@
                == "usuario"@)
            &&& !(n == actual@ && o == "usuario"@) ==> r is None
        }),
{
    let (n, o) = tema_aplicado_actual(estado);
    if n == String::from_str(actual) && o == String::from_str("usuario") {
        Some((String::from_str(nuevo), String::from_str("usuario")))
    } else {
        None
    }
}

/// The applied theme to record after deleting user theme `nombre`:
/// `Default` when `nombre` was the applied user theme.
pub fn aplicado_tras_eliminar(estado: &EstadoApariencia, nombre: &str) -> (r: Option<(String, String)>)
    ensures
        ({
            let (n, o) = aplicado_efectivo(estado@.0, estado@.1);
            &&& (n == nombre@ && o == "usuario"@) ==> (r matches Some(t) && t.0@ == "Default"@ && t.1@
                == "predefinido"@)
            &&& !(n == nombre@ && o == "usuario"@) ==> r is None
        }),
{
    let (n, o) = tema_aplicado_actual(estado);
    if n == String::from_str(nombre) && o == String::from_str("usuario") {
        Some((String::from_str("Default"), String::from_str("predefinido")))
    } else {
        None
    }
}

/// At start-up: the theme recorded in the settings (see `tema_configurado`)
/// when its file exists (`existe`: as a user theme or a program theme),
/// `Default` otherwise.
pub fn cargar_tema_aplicado_desde_config(
    estado: &mut EstadoApariencia,
    configurado: Option<(String, String)>,
    existe: bool,
)
    ensures
        match configurado {
            Some(t) => if existe {
                final(estado)@ == (t.0@, t.1@, old(estado)@.2)
            } else {
                final(estado)@ == ("Default"@, "predefinido"@, old(estado)@.2)
            },
            None => final(estado)@ == ("Default"@, "predefinido"@, old(estado)@.2),
        },
{
    match configurado {
        Some(t) => {
            if existe {
                estado.aplicado = t;
            } else {
                establecer_tema_aplicado_en_memoria(estado, "Default", "predefinido");
            }
        },
        None => {
            establecer_tema_aplicado_en_memoria(estado, "Default", "predefinido");
        },
    }
}

/// The applied theme recorded in the settings: name and origin, trimmed,
/// when both are there and the name is not blank.
pub open spec fn tema_en_configuracion(m: MapaTexto) -> Option<(Seq<char>, Seq<char>)> {
    if m.dom().contains(CLAVE_TEMA_NOMBRE@) && m.dom().contains(CLAVE_TEMA_ORIGEN@) && recortar(
        m[CLAVE_TEMA_NOMBRE@],
    ).len() > 0 {
        Some((recortar(m[CLAVE_TEMA_NOMBRE@]), recortar(m[CLAVE_TEMA_ORIGEN@])))
    } else {
        None
    }
}

pub fn tema_configurado(mapa: &MapaUsuario) -> (r: Option<(String, String)>)
    ensures
        match r {
            Some(t) => tema_en_configuracion(mapa@) == Some((t.0@, t.1@)),
            None => tema_en_configuracion(mapa@) is None,
        },
{
    let nombre = mapa.obtener(CLAVE_TEMA_NOMBRE);
    let origen = mapa.obtener(CLAVE_TEMA_ORIGEN);
    match (nombre, origen) {
        (Some(n), Some(o)) => {
            let n2 = recortar_cadena(n.as_str());
            if n2.as_str().unicode_len() == 0 {
                None
            } else {
                Some((n2, recortar_cadena(o.as_str())))
            }
        },
        _ => None,
    }
}

// ------------------------------------------------------------------
// Laws
// ------------------------------------------------------------------

/// The value a variable has in a store: its override under `css.` when
/// there is one, else its factory value.
pub open spec fn valor_en_mapa(m: MapaTexto, e: FilaCss) -> Seq<char> {
    crate::apariencia::valor_efectivo(sin_prefijo(m, PREFIJO_CSS@), e)
}

proof fn lema_sin_css(m: MapaTexto)
    ensures
        sin_prefijo(filtrado(m, Filtro::SinPrefijo, PREFIJO_CSS@), PREFIJO_CSS@) =~= Map::<
            Seq<char>,
            Seq<char>,
        >::empty(),
{
    let p = PREFIJO_CSS@;
    assert forall|k: Seq<char>| !#[trigger] sin_prefijo(filtrado(m, Filtro::SinPrefijo, p), p).dom().contains(k) by {
        assert((p + k).take(p.len() as int) =~= p);
    }
}

proof fn lema_dispersos_filtrado(m: MapaTexto, cat: Seq<FilaCss>, vals: MapaTexto)
    ensures
        filtrado(con_dispersos(m, cat, vals), Filtro::SinPrefijo, PREFIJO_CSS@) =~= filtrado(
            m,
            Filtro::SinPrefijo,
            PREFIJO_CSS@,
        ),
    decreases cat.len(),
{
    if cat.len() > 0 {
        lema_dispersos_filtrado(m, cat.drop_last(), vals);
        let p = PREFIJO_CSS@;
        let e = cat.last();
        assert((p + e.0).take(p.len() as int) =~= p);
    }
}

proof fn lema_dispersos(m: MapaTexto, cat: Seq<FilaCss>, vals: MapaTexto)
    requires
        crate::apariencia::ids_unicos(cat),
        sin_prefijo(m, PREFIJO_CSS@) =~= Map::<Seq<char>, Seq<char>>::empty(),
    ensures
        ({
            let s = sin_prefijo(con_dispersos(m, cat, vals), PREFIJO_CSS@);
            &&& forall|k: Seq<char>|
                #[trigger] s.dom().contains(k) ==> exists|i: int|
                    0 <= i < cat.len() && #[trigger] cat[i].1 == 0 && cat[i].0 == k
            &&& forall|i: int|
                0 <= i < cat.len() && #[trigger] cat[i].1 == 0 && vals.dom().contains(cat[i].0) ==> (
                if s.dom().contains(cat[i].0) {
                    s[cat[i].0] == vals[cat[i].0]
                } else {
                    igual_sin_mayusculas(vals[cat[i].0], cat[i].3)
                })
        }),
    decreases cat.len(),
{
    let p = PREFIJO_CSS@;
    if cat.len() > 0 {
        let c = cat.drop_last();
        let e = cat.last();
        assert(crate::apariencia::ids_unicos(c)) by {
            assert forall|i: int, j: int|
                0 <= i < j < c.len() && #[trigger] c[i].1 == 0 && #[trigger] c[j].1 == 0 implies c[i].0
                != c[j].0 by {
                assert(c[i] == cat[i] && c[j] == cat[j]);
            }
        }
        lema_dispersos(m, c, vals);
        let previo = con_dispersos(m, c, vals);
        let s0 = sin_prefijo(previo, p);
        let s = sin_prefijo(con_dispersos(m, cat, vals), p);
        assert(e == cat[cat.len() - 1]);
        if e.1 == 0 && vals.dom().contains(e.0) && !igual_sin_mayusculas(vals[e.0], e.3) {
            crate::lotes::lema_sin_prefijo_insertar(previo, p, e.0, vals[e.0]);
            assert(s == s0.insert(e.0, vals[e.0]));
        } else {
            assert(s == s0);
        }
        assert forall|k: Seq<char>| #[trigger] s.dom().contains(k) implies exists|i: int|
            0 <= i < cat.len() && #[trigger] cat[i].1 == 0 && cat[i].0 == k by {
            if s0.dom().contains(k) {
                let i = choose|i: int| 0 <= i < c.len() && #[trigger] c[i].1 == 0 && c[i].0 == k;
                assert(cat[i] == c[i]);
            } else {
                assert(cat[cat.len() - 1].1 == 0);
            }
        }
        assert forall|i: int|
            0 <= i < cat.len() && #[trigger] cat[i].1 == 0 && vals.dom().contains(cat[i].0) implies (
            if s.dom().contains(cat[i].0) {
                s[cat[i].0] == vals[cat[i].0]
            } else {
                igual_sin_mayusculas(vals[cat[i].0], cat[i].3)
            }) by {
            if i < c.len() {
                assert(c[i] == cat[i]);
                if e.1 == 0 {
                    assert(cat[i].0 != cat[cat.len() - 1].0);
                }
            } else if e.1 == 0 && vals.dom().contains(e.0) && igual_sin_mayusculas(vals[e.0], e.3) {
                if s0.dom().contains(e.0) {
                    let j = choose|j: int| 0 <= j < c.len() && #[trigger] c[j].1 == 0 && c[j].0 == e.0;
                    assert(cat[j] == c[j]);
                }
            }
        }
    }
}

proof fn lema_igual_simetrico(a: Seq<char>, b: Seq<char>)
    requires
        igual_sin_mayusculas(a, b),
    ensures
        igual_sin_mayusculas(b, a),
{
    assert forall|i: int| 0 <= i < b.len() implies crate::apariencia::minuscula(#[trigger] b[i])
        == crate::apariencia::minuscula(a[i]) by {
        assert(crate::apariencia::minuscula(a[i]) == crate::apariencia::minuscula(b[i]));
    }
}

/// Applying the appearance keeps the general settings and key names, records
/// the session theme as the applied one, and leaves every variable of the
/// catalog with the applied value in effect (up to ASCII case: a value equal
/// to the factory value is left to the factory default).
pub proof fn ley_aplicar_apariencia(
    cat: Seq<FilaCss>,
    base: MapaTexto,
    m: MapaTexto,
    cs: Seq<Par>,
    nombre: Seq<char>,
    origen: Seq<char>,
)
    requires
        crate::apariencia::ids_unicos(cat),
    ensures
        ({
            let r = mapa_aplicado(cat, base, m, cs, nombre, origen);
            let v = valores_aplicados(cat, base, m, cs);
            &&& filtrado(r, Filtro::SinPrefijo, PREFIJO_CSS@) == filtrado(
                m,
                Filtro::SinPrefijo,
                PREFIJO_CSS@,
            ).insert(CLAVE_TEMA_NOMBRE@, nombre).insert(CLAVE_TEMA_ORIGEN@, origen)
            &&& r[CLAVE_TEMA_NOMBRE@] == nombre
            &&& r[CLAVE_TEMA_ORIGEN@] == origen
            &&& forall|i: int|
                0 <= i < cat.len() && #[trigger] cat[i].1 == 0 && v.dom().contains(cat[i].0)
                    ==> igual_sin_mayusculas(valor_en_mapa(r, cat[i]), v[cat[i].0])
        }),
{
    let p = PREFIJO_CSS@;
    let v = valores_aplicados(cat, base, m, cs);
    let f = filtrado(m, Filtro::SinPrefijo, p);
    let d = con_dispersos(f, cat, v);
    let r = mapa_aplicado(cat, base, m, cs, nombre, origen);
    reveal_strlit("tema.nombre");
    reveal_strlit("tema.origen");
    reveal_strlit("css.");
    assert(!crate::texto::es_prefijo(p, CLAVE_TEMA_NOMBRE@)) by {
        assert(CLAVE_TEMA_NOMBRE@.take(p.len() as int)[0] != p[0]);
    }
    assert(!crate::texto::es_prefijo(p, CLAVE_TEMA_ORIGEN@)) by {
        assert(CLAVE_TEMA_ORIGEN@.take(p.len() as int)[0] != p[0]);
    }
    assert(CLAVE_TEMA_NOMBRE@ != CLAVE_TEMA_ORIGEN@) by {
        assert(CLAVE_TEMA_NOMBRE@[5] != CLAVE_TEMA_ORIGEN@[5]);
    }
    lema_dispersos_filtrado(f, cat, v);
    assert(filtrado(f, Filtro::SinPrefijo, p) =~= f);
    assert(filtrado(r, Filtro::SinPrefijo, p) =~= f.insert(CLAVE_TEMA_NOMBRE@, nombre).insert(
        CLAVE_TEMA_ORIGEN@,
        origen,
    ));
    assert(sin_prefijo(r, p) =~= sin_prefijo(d, p)) by {
        assert forall|k: Seq<char>| #[trigger] sin_prefijo(r, p).dom().contains(k) <==> sin_prefijo(
            d,
            p,
        ).dom().contains(k) by {
            assert((p + k)[0] == 'c');
            assert(CLAVE_TEMA_NOMBRE@[0] == 't');
            assert(CLAVE_TEMA_ORIGEN@[0] == 't');
        }
        assert forall|k: Seq<char>| #[trigger] sin_prefijo(r, p).dom().contains(k) implies sin_prefijo(
            r,
            p,
        )[k] == sin_prefijo(d, p)[k] by {
            assert((p + k)[0] == 'c');
            assert(CLAVE_TEMA_NOMBRE@[0] == 't');
            assert(CLAVE_TEMA_ORIGEN@[0] == 't');
        }
    }
    lema_sin_css(m);
    lema_dispersos(f, cat, v);
    assert forall|i: int|
        0 <= i < cat.len() && #[trigger] cat[i].1 == 0 && v.dom().contains(cat[i].0) implies igual_sin_mayusculas(
        valor_en_mapa(r, cat[i]),
        v[cat[i].0],
    ) by {
        let s = sin_prefijo(d, p);
        if s.dom().contains(cat[i].0) {
            assert(valor_en_mapa(r, cat[i]) == v[cat[i].0]);
        } else {
            lema_igual_simetrico(v[cat[i].0], cat[i].3);
        }
    }
}

proof fn lema_defecto(cat: Seq<FilaCss>, i: int)
    requires
        crate::apariencia::ids_unicos(cat),
        0 <= i < cat.len(),
        cat[i].1 == 0,
    ensures
        defecto_variable(cat, cat[i].0) == Some(cat[i].3),
    decreases cat.len(),
{
    if !(cat[0].1 == 0 && cat[0].0 == cat[i].0) {
        let c = cat.drop_first();
        assert(crate::apariencia::ids_unicos(c)) by {
            assert forall|a: int, b: int|
                0 <= a < b < c.len() && #[trigger] c[a].1 == 0 && #[trigger] c[b].1 == 0 implies c[a].0
                != c[b].0 by {
                assert(c[a] == cat[a + 1] && c[b] == cat[b + 1]);
            }
        }
        assert(c[i - 1] == cat[i]);
        lema_defecto(c, i - 1);
    } else if i > 0 {
        assert(cat[0].0 != cat[i].0);
    }
}

/// Removing a variable's override while a session theme gives it a value
/// leaves the variable with the theme's value in effect (up to ASCII case),
/// not with its factory value.
pub proof fn ley_restablecer_css_tema(cat: Seq<FilaCss>, b: MapaTexto, m: MapaTexto, i: int)
    requires
        crate::apariencia::ids_unicos(cat),
        0 <= i < cat.len(),
        cat[i].1 == 0,
        b.dom().contains(cat[i].0),
    ensures
        igual_sin_mayusculas(valor_en_mapa(sin_override(cat, Some(b), m, cat[i].0), cat[i]), b[cat[i].0]),
{
    let k = cat[i].0;
    let p = PREFIJO_CSS@;
    lema_defecto(cat, i);
    let m1 = m.remove(p + k);
    if !igual_sin_mayusculas(b[k], cat[i].3) {
        crate::lotes::lema_sin_prefijo_insertar(m1, p, k, b[k]);
    } else {
        assert(!sin_prefijo(m1, p).dom().contains(k));
        lema_igual_simetrico(b[k], cat[i].3);
    }
}

/// The applied theme recorded in the settings is the one found there at the
/// next start, trimmed (a blank name records none).
pub proof fn ley_tema_aplicado_registrado(m: MapaTexto, nombre: Seq<char>, origen: Seq<char>)
    ensures
        recortar(nombre).len() > 0 ==> tema_en_configuracion(
            m.insert(CLAVE_TEMA_NOMBRE@, nombre).insert(CLAVE_TEMA_ORIGEN@, origen),
        ) == Some((recortar(nombre), recortar(origen))),
        recortar(nombre).len() == 0 ==> tema_en_configuracion(
            m.insert(CLAVE_TEMA_NOMBRE@, nombre).insert(CLAVE_TEMA_ORIGEN@, origen),
        ) is None,
{
    reveal_strlit("tema.nombre");
    reveal_strlit("tema.origen");
    assert(CLAVE_TEMA_NOMBRE@ != CLAVE_TEMA_ORIGEN@) by {
        assert(CLAVE_TEMA_NOMBRE@[5] != CLAVE_TEMA_ORIGEN@[5]);
    }
}

/// Following links only adds changes, after the given ones, for keys the
/// given changes do not hold.
proof fn lema_arrastrar_extiende(
    vals: MapaTexto,
    ds: Seq<Seq<char>>,
    viejo: Seq<char>,
    nuevo: Seq<char>,
    cs: Seq<Par>,
)
    ensures
        ({
            let p = arrastrar(vals, ds, viejo, nuevo, cs);
            &&& p.len() >= cs.len()
            &&& p.take(cs.len() as int) == cs
            &&& forall|j: int| cs.len() <= j < p.len() ==> !tiene_cambio(cs, #[trigger] p[j].0)
        }),
    decreases ds.len(),
{
    if ds.len() > 0 {
        lema_arrastrar_extiende(vals, ds.drop_last(), viejo, nuevo, cs);
        let previos = arrastrar(vals, ds.drop_last(), viejo, nuevo, cs);
        let d = ds.last();
        if !tiene_cambio(previos, d) && vals.dom().contains(d) && igual_sin_mayusculas(vals[d], viejo) {
            let p = previos.push((d, nuevo));
            assert(p.take(cs.len() as int) =~= previos.take(cs.len() as int));
            assert forall|j: int| cs.len() <= j < p.len() implies !tiene_cambio(cs, #[trigger] p[j].0) by {
                if j < previos.len() {
                    assert(p[j] == previos[j]);
                } else if tiene_cambio(cs, d) {
                    let q = choose|q: int| 0 <= q < cs.len() && #[trigger] cs[q].0 == d;
                    assert(previos[q] == previos.take(cs.len() as int)[q]);
                    assert(tiene_cambio(previos, d));
                }
            }
        }
    }
}

proof fn lema_propagar_extiende(vals: MapaTexto, vs: Seq<(Seq<char>, Seq<Seq<char>>)>, cs: Seq<Par>)
    ensures
        ({
            let p = propagar(vals, vs, cs);
            &&& p.len() >= cs.len()
            &&& p.take(cs.len() as int) == cs
            &&& forall|j: int| cs.len() <= j < p.len() ==> !tiene_cambio(cs, #[trigger] p[j].0)
        }),
    decreases vs.len(),
{
    if vs.len() > 0 {
        lema_propagar_extiende(vals, vs.drop_last(), cs);
        let p1 = propagar(vals, vs.drop_last(), cs);
        let v = vs.last();
        let p = propagar(vals, vs, cs);
        assert(p == paso_vinculo(vals, v, p1));
        let hay = match primer_cambio(p1, v.0) {
            None => false,
            Some(nuevo) => vals.dom().contains(v.0),
        };
        if hay {
            let nuevo = primer_cambio(p1, v.0)->Some_0;
            lema_arrastrar_extiende(vals, v.1, vals[v.0], nuevo, p1);
        }
        assert(p.len() >= p1.len() && p.take(p1.len() as int) == p1 && forall|j: int|
            p1.len() <= j < p.len() ==> !tiene_cambio(p1, #[trigger] p[j].0));
        assert(p.take(cs.len() as int) =~= p1.take(cs.len() as int));
        assert forall|j: int| cs.len() <= j < p.len() implies !tiene_cambio(cs, #[trigger] p[j].0) by {
            if j < p1.len() {
                assert(p[j] == p1[j]);
            } else if tiene_cambio(cs, p[j].0) {
                let q = choose|q: int| 0 <= q < cs.len() && #[trigger] cs[q].0 == p[j].0;
                assert(p1[q] == p1.take(cs.len() as int)[q]);
                assert(p1[q].0 == p[j].0);
                assert(tiene_cambio(p1, p[j].0));
            }
        }
    }
}

/// The last change of a key stored in order is the key's value.
proof fn lema_con_cambios_ultimo(m: MapaTexto, s: Seq<Par>, i: int)
    requires
        0 <= i < s.len(),
        forall|j: int| i < j < s.len() ==> #[trigger] s[j].0 != s[i].0,
    ensures
        con_cambios(m, s).dom().contains(s[i].0),
        con_cambios(m, s)[s[i].0] == s[i].1,
    decreases s.len(),
{
    if i < s.len() - 1 {
        let d = s.drop_last();
        assert forall|j: int| i < j < d.len() implies #[trigger] d[j].0 != d[i].0 by {
            assert(d[j] == s[j]);
        }
        assert(s[s.len() - 1].0 != s[i].0);
        lema_con_cambios_ultimo(m, d, i);
    }
}

/// A variable changed directly in the batch ends with that change's value,
/// trimmed (the last change, when the batch changes it more than once): a
/// linked colour changed in the same batch as its theme colour keeps its own
/// value. In the stored settings its value in effect is that value, up to
/// ASCII case.
pub proof fn ley_cambio_directo_prevalece(
    cat: Seq<FilaCss>,
    base: MapaTexto,
    m: MapaTexto,
    cs: Seq<Par>,
    nombre: Seq<char>,
    origen: Seq<char>,
    i: int,
)
    requires
        0 <= i < cs.len(),
        forall|j: int| i < j < cs.len() ==> #[trigger] cs[j].0 != cs[i].0,
    ensures
        valores_aplicados(cat, base, m, cs).dom().contains(cs[i].0),
        valores_aplicados(cat, base, m, cs)[cs[i].0] == recortar(cs[i].1),
        forall|r: int|
            crate::apariencia::ids_unicos(cat) && 0 <= r < cat.len() && #[trigger] cat[r].1 == 0
                && cat[r].0 == cs[i].0 ==> igual_sin_mayusculas(
                valor_en_mapa(mapa_aplicado(cat, base, m, cs, nombre, origen), cat[r]),
                recortar(cs[i].1),
            ),
{
    let vals = valores_vigentes(base, m);
    let rc = recortados(cs);
    let p = propagar(vals, vinculos(cat), rc);
    lema_propagar_extiende(vals, vinculos(cat), rc);
    assert(p[i] == rc[i]);
    assert forall|j: int| i < j < p.len() implies #[trigger] p[j].0 != p[i].0 by {
        if j < rc.len() {
            assert(p[j] == rc[j]);
        } else {
            assert(!tiene_cambio(rc, p[j].0));
            assert(rc[i].0 == cs[i].0);
        }
    }
    lema_con_cambios_ultimo(vals, p, i);
    assert forall|r: int|
        crate::apariencia::ids_unicos(cat) && 0 <= r < cat.len() && #[trigger] cat[r].1 == 0
            && cat[r].0 == cs[i].0 implies igual_sin_mayusculas(
        valor_en_mapa(mapa_aplicado(cat, base, m, cs, nombre, origen), cat[r]),
        recortar(cs[i].1),
    ) by {
        ley_aplicar_apariencia(cat, base, m, cs, nombre, origen);
    }
}

} // verus!
