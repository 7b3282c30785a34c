//! The two factory catalogs, read from their tab-separated text: general
//! settings (`nivel clave nombre_ui valor_defecto tipo`, level 1 rows open a
//! group) and appearance variables (`nivel id nombre_ui valor_defecto tipo`,
//! levels 0 to 3, only level 0 rows carry a type).

use vstd::prelude::*;
use crate::numeros::{leer_u8, parse_u8};
use crate::texto::{
    a_caracteres, a_cadena, contiene, contiene_exec, dividir_en, dividir_lineas, es_espacio_exec,
    iguales, lineas, partes, recortar, recortar_vec, sin_espacios_iniciales,
};
use crate::valores::{TipoValor, TipoValorCss};

verus! {

/// A general setting of the factory catalog.
pub struct EntradaCatalogo {
    pub clave: String,
    pub nombre_ui: String,
    pub valor_defecto: String,
    pub tipo: TipoValor,
    /// Title of the level 1 row above it.
    pub grupo: String,
}

/// `(clave, nombre_ui, valor_defecto, tipo, grupo)`.
pub type FilaCatalogo = (Seq<char>, Seq<char>, Seq<char>, TipoValor, Seq<char>);

impl View for EntradaCatalogo {
    type V = FilaCatalogo;

    open spec fn view(&self) -> FilaCatalogo {
        (self.clave@, self.nombre_ui@, self.valor_defecto@, self.tipo, self.grupo@)
    }
}

/// An appearance variable (level 0) or a tree row (levels 1 to 3).
pub struct EntradaCatalogoCss {
    pub id: String,
    pub nivel: u8,
    pub nombre_ui: String,
    pub valor_defecto: String,
    pub tipo: TipoValorCss,
}

/// `(id, nivel, nombre_ui, valor_defecto, tipo)`.
pub type FilaCss = (Seq<char>, u8, Seq<char>, Seq<char>, TipoValorCss);

impl View for EntradaCatalogoCss {
    type V = FilaCss;

    open spec fn view(&self) -> FilaCss {
        (self.id@, self.nivel, self.nombre_ui@, self.valor_defecto@, self.tipo)
    }
}

/// Why a catalog text is rejected; `linea` counts from 1.
pub enum ErrorCatalogo {
    /// A row without exactly five tab-separated columns.
    Columnas { linea: usize },
    /// A general row whose level is neither 0 nor 1.
    NivelDesconocido { nivel: String, linea: usize },
    /// An appearance row whose level is not a number from 0 to 3.
    NivelInvalido { nivel: String, linea: usize },
    /// A level 0 general row before any level 1 row.
    SinGrupo { linea: usize },
    /// A row with an empty key or id.
    SinClave { linea: usize },
    /// A key or id holding a `.`.
    ClaveConPunto { clave: String },
    /// A level 0 appearance row with an empty type.
    SinTipo { linea: usize },
    /// An unknown type name.
    TipoDesconocido { tipo: String, linea: usize },
    /// A key (or level 0 id) that appeared before.
    ClaveDuplicada { clave: String },
}

/// `ErrorCatalogo` with its texts as characters.
pub enum FalloCatalogo {
    Columnas(nat),
    NivelDesconocido(Seq<char>, nat),
    NivelInvalido(Seq<char>, nat),
    SinGrupo(nat),
    SinClave(nat),
    ClaveConPunto(Seq<char>),
    SinTipo(nat),
    TipoDesconocido(Seq<char>, nat),
    ClaveDuplicada(Seq<char>),
}

impl View for ErrorCatalogo {
    type V = FalloCatalogo;

    open spec fn view(&self) -> FalloCatalogo {
        match self {
            ErrorCatalogo::Columnas { linea } => FalloCatalogo::Columnas(*linea as nat),
            ErrorCatalogo::NivelDesconocido { nivel, linea } => FalloCatalogo::NivelDesconocido(
                nivel@,
                *linea as nat,
            ),
            ErrorCatalogo::NivelInvalido { nivel, linea } => FalloCatalogo::NivelInvalido(
                nivel@,
                *linea as nat,
            ),
            ErrorCatalogo::SinGrupo { linea } => FalloCatalogo::SinGrupo(*linea as nat),
            ErrorCatalogo::SinClave { linea } => FalloCatalogo::SinClave(*linea as nat),
            ErrorCatalogo::ClaveConPunto { clave } => FalloCatalogo::ClaveConPunto(clave@),
            ErrorCatalogo::SinTipo { linea } => FalloCatalogo::SinTipo(*linea as nat),
            ErrorCatalogo::TipoDesconocido { tipo, linea } => FalloCatalogo::TipoDesconocido(
                tipo@,
                *linea as nat,
            ),
            ErrorCatalogo::ClaveDuplicada { clave } => FalloCatalogo::ClaveDuplicada(clave@),
        }
    }
}

/// A line with one trailing `\r` removed, as `strip_suffix('\r')` does.
pub open spec fn sin_cr(l: Seq<char>) -> Seq<char> {
    if l.len() > 0 && l.last() == '\r' {
        l.drop_last()
    } else {
        l
    }
}

/// Blank or `#` comment.
pub open spec fn linea_ignorada(l: Seq<char>) -> bool {
    recortar(l).len() == 0 || sin_espacios_iniciales(l)[0] == '#'
}

pub open spec fn tipo_general(t: Seq<char>) -> Option<TipoValor> {
    if t == "numero"@ {
        Some(TipoValor::Numero)
    } else if t == "numero_par"@ {
        Some(TipoValor::NumeroPar)
    } else if t == "texto"@ {
        Some(TipoValor::Texto)
    } else if t == "trigger"@ {
        Some(TipoValor::Trigger)
    } else {
        None
    }
}

pub open spec fn tipo_css(t: Seq<char>) -> Option<TipoValorCss> {
    if t == "color"@ {
        Some(TipoValorCss::Color)
    } else if t == "pixeles"@ {
        Some(TipoValorCss::Pixeles)
    } else if t == "texto"@ {
        Some(TipoValorCss::Texto)
    } else if t == "porcentaje"@ {
        Some(TipoValorCss::Porcentaje)
    } else if t == "modo"@ {
        Some(TipoValorCss::Modo)
    } else {
        None
    }
}

pub open spec fn clave_usada(es: Seq<FilaCatalogo>, k: Seq<char>) -> bool {
    exists|i: int| 0 <= i < es.len() && #[trigger] es[i].0 == k
}

/// Rows read so far and the open group.
pub type EstadoCatalogo = (Seq<FilaCatalogo>, Option<Seq<char>>);

/// Effect of line number `n` on the general catalog.
pub open spec fn paso_catalogo(e: EstadoCatalogo, l0: Seq<char>, n: nat) -> Result<
    EstadoCatalogo,
    FalloCatalogo,
> {
    let l = sin_cr(l0);
    if linea_ignorada(l) {
        Ok(e)
    } else {
        let cs = partes(l, '\t');
        if cs.len() != 5 {
            Err(FalloCatalogo::Columnas(n))
        } else {
            let nivel = recortar(cs[0]);
            if nivel == "nivel"@ {
                Ok(e)
            } else if nivel == "1"@ {
                Ok((e.0, Some(recortar(cs[2]))))
            } else if nivel != "0"@ {
                Err(FalloCatalogo::NivelDesconocido(nivel, n))
            } else {
                match e.1 {
                    None => Err(FalloCatalogo::SinGrupo(n)),
                    Some(g) => {
                        let clave = recortar(cs[1]);
                        let tipo_texto = recortar(cs[4]);
                        if clave.len() == 0 {
                            Err(FalloCatalogo::SinClave(n))
                        } else if contiene(clave, '.') {
                            Err(FalloCatalogo::ClaveConPunto(clave))
                        } else {
                            match tipo_general(tipo_texto) {
                                None => Err(FalloCatalogo::TipoDesconocido(tipo_texto, n)),
                                Some(tipo) => if clave_usada(e.0, clave) {
                                    Err(FalloCatalogo::ClaveDuplicada(clave))
                                } else {
                                    Ok(
                                        (
                                            e.0.push(
                                                (
                                                    clave,
                                                    recortar(cs[2]),
                                                    recortar(cs[3]),
                                                    tipo,
                                                    g,
                                                ),
                                            ),
                                            e.1,
                                        ),
                                    )
                                },
                            }
                        }
                    },
                }
            }
        }
    }
}

/// The general catalog after the given lines (line `i` is number `i + 1`).
pub open spec fn procesar_catalogo(ls: Seq<Seq<char>>) -> Result<EstadoCatalogo, FalloCatalogo>
    decreases ls.len(),
{
    if ls.len() == 0 {
        Ok((seq![], None))
    } else {
        match procesar_catalogo(ls.drop_last()) {
            Err(f) => Err(f),
            Ok(e) => paso_catalogo(e, ls.last(), ls.len()),
        }
    }
}

/// The general catalog that a text holds.
pub open spec fn catalogo_de_texto(t: Seq<char>) -> Result<Seq<FilaCatalogo>, FalloCatalogo> {
    match procesar_catalogo(lineas(t)) {
        Ok(e) => Ok(e.0),
        Err(f) => Err(f),
    }
}

pub open spec fn id_usado(es: Seq<FilaCss>, id: Seq<char>) -> bool {
    exists|i: int| 0 <= i < es.len() && #[trigger] es[i].1 == 0 && es[i].0 == id
}

/// Effect of line number `n` on the appearance catalog.
pub open spec fn paso_css(es: Seq<FilaCss>, l0: Seq<char>, n: nat) -> Result<
    Seq<FilaCss>,
    FalloCatalogo,
> {
    let l = sin_cr(l0);
    if linea_ignorada(l) {
        Ok(es)
    } else {
        let cs = partes(l, '\t');
        if cs.len() != 5 {
            Err(FalloCatalogo::Columnas(n))
        } else {
            let nivel_texto = recortar(cs[0]);
            if nivel_texto == "nivel"@ {
                Ok(es)
            } else {
                match leer_u8(nivel_texto) {
                    Some(nivel) if nivel <= 3 => {
                        let id = recortar(cs[1]);
                        let tipo_texto = recortar(cs[4]);
                        if id.len() == 0 {
                            Err(FalloCatalogo::SinClave(n))
                        } else if contiene(id, '.') {
                            Err(FalloCatalogo::ClaveConPunto(id))
                        } else {
                            let tipo = if nivel == 0 {
                                if tipo_texto.len() == 0 {
                                    Err(FalloCatalogo::SinTipo(n))
                                } else {
                                    match tipo_css(tipo_texto) {
                                        Some(t) => Ok(t),
                                        None => Err(FalloCatalogo::TipoDesconocido(tipo_texto, n)),
                                    }
                                }
                            } else {
                                Ok(TipoValorCss::Texto)
                            };
                            match tipo {
                                Err(f) => Err(f),
                                Ok(t) => if nivel == 0 && id_usado(es, id) {
                                    Err(FalloCatalogo::ClaveDuplicada(id))
                                } else {
                                    Ok(es.push((id, nivel, recortar(cs[2]), recortar(cs[3]), t)))
                                },
                            }
                        }
                    },
                    _ => Err(FalloCatalogo::NivelInvalido(nivel_texto, n)),
                }
            }
        }
    }
}

pub open spec fn procesar_css(ls: Seq<Seq<char>>) -> Result<Seq<FilaCss>, FalloCatalogo>
    decreases ls.len(),
{
    if ls.len() == 0 {
        Ok(seq![])
    } else {
        match procesar_css(ls.drop_last()) {
            Err(f) => Err(f),
            Ok(es) => paso_css(es, ls.last(), ls.len()),
        }
    }
}

/// The appearance catalog that a text holds.
pub open spec fn catalogo_css_de_texto(t: Seq<char>) -> Result<Seq<FilaCss>, FalloCatalogo> {
    procesar_css(lineas(t))
}

proof fn lema_error_persiste(ls: Seq<Seq<char>>, i: int)
    requires
        0 <= i <= ls.len(),
        procesar_catalogo(ls.take(i)) is Err,
    ensures
        procesar_catalogo(ls) == procesar_catalogo(ls.take(i)),
    decreases ls.len() - i,
{
    if i < ls.len() {
        assert(ls.take(i + 1).drop_last() == ls.take(i));
        lema_error_persiste(ls, i + 1);
    } else {
        assert(ls.take(i) == ls);
    }
}

proof fn lema_error_persiste_css(ls: Seq<Seq<char>>, i: int)
    requires
        0 <= i <= ls.len(),
        procesar_css(ls.take(i)) is Err,
    ensures
        procesar_css(ls) == procesar_css(ls.take(i)),
    decreases ls.len() - i,
{
    if i < ls.len() {
        assert(ls.take(i + 1).drop_last() == ls.take(i));
        lema_error_persiste_css(ls, i + 1);
    } else {
        assert(ls.take(i) == ls);
    }
}

// ------------------------------------------------------------------
// Line helpers
// ------------------------------------------------------------------

fn quitar_cr_final(l: &Vec<char>) -> (r: Vec<char>)
    ensures
        r@ == sin_cr(l@),
{
    let mut r = l.clone();
    assert(r@ == l@);
    if r.len() > 0 && r[r.len() - 1] == '\r' {
        r.pop();
    }
    r
}

fn es_ignorada(l: &Vec<char>) -> (r: bool)
    ensures
        r == linea_ignorada(l@),
{
    let t = recortar_vec(l.as_slice());
    if t.len() == 0 {
        return true;
    }
    let n = l.len();
    let mut i: usize = 0;
    assert(l@.subrange(0, n as int) == l@);
    while i < n && es_espacio_exec(l[i])
        invariant
            i <= n == l@.len(),
            sin_espacios_iniciales(l@) == sin_espacios_iniciales(l@.subrange(i as int, n as int)),
        decreases n - i,
    {
        assert(l@.subrange(i as int, n as int).drop_first() == l@.subrange(i + 1, n as int));
        i += 1;
    }
    if i == n {
        assert(sin_espacios_iniciales(l@.subrange(n as int, n as int)).len() == 0);
        assert(crate::texto::sin_espacios_finales(Seq::<char>::empty()) == Seq::<char>::empty());
        assert(false);
        return true;
    }
    assert(sin_espacios_iniciales(l@.subrange(i as int, n as int)) == l@.subrange(i as int, n as int));
    l[i] == '#'
}

/// The five trimmed columns, or `None` when the line does not have five.
fn columnas(l: &Vec<char>) -> (r: Option<Vec<Vec<char>>>)
    ensures
        match r {
            Some(cs) => partes(l@, '\t').len() == 5 && cs@.len() == 5 && forall|k: int|
                0 <= k < 5 ==> #[trigger] cs@[k]@ == recortar(partes(l@, '\t')[k]),
            None => partes(l@, '\t').len() != 5,
        },
{
    let ps = dividir_en(l.as_slice(), '\t');
    if ps.len() != 5 {
        return None;
    }
    let mut cs: Vec<Vec<char>> = Vec::new();
    for k in 0..5
        invariant
            ps@.len() == 5,
            partes(l@, '\t').len() == 5,
            forall|j: int| 0 <= j < ps@.len() ==> #[trigger] ps@[j]@ == partes(l@, '\t')[j],
            cs@.len() == k,
            forall|j: int| 0 <= j < k ==> #[trigger] cs@[j]@ == recortar(partes(l@, '\t')[j]),
    {
        cs.push(recortar_vec(ps[k].as_slice()));
    }
    Some(cs)
}

fn es_literal(v: &Vec<char>, s: &str) -> (r: bool)
    ensures
        r == (v@ == s@),
{
    let c = a_caracteres(s);
    iguales(v.as_slice(), c.as_slice())
}

fn tipo_general_exec(t: &Vec<char>) -> (r: Option<TipoValor>)
    ensures
        r == tipo_general(t@),
{
    if es_literal(t, "numero") {
        Some(TipoValor::Numero)
    } else if es_literal(t, "numero_par") {
        Some(TipoValor::NumeroPar)
    } else if es_literal(t, "texto") {
        Some(TipoValor::Texto)
    } else if es_literal(t, "trigger") {
        Some(TipoValor::Trigger)
    } else {
        None
    }
}

fn tipo_css_exec(t: &Vec<char>) -> (r: Option<TipoValorCss>)
    ensures
        r == tipo_css(t@),
{
    if es_literal(t, "color") {
        Some(TipoValorCss::Color)
    } else if es_literal(t, "pixeles") {
        Some(TipoValorCss::Pixeles)
    } else if es_literal(t, "texto") {
        Some(TipoValorCss::Texto)
    } else if es_literal(t, "porcentaje") {
        Some(TipoValorCss::Porcentaje)
    } else if es_literal(t, "modo") {
        Some(TipoValorCss::Modo)
    } else {
        None
    }
}

pub open spec fn vista_opcion(o: Option<String>) -> Option<Seq<char>> {
    match o {
        Some(g) => Some(g@),
        None => None,
    }
}

pub open spec fn vista_catalogo(v: Seq<EntradaCatalogo>) -> Seq<FilaCatalogo> {
    Seq::new(v.len(), |i: int| v[i]@)
}

pub open spec fn vista_css(v: Seq<EntradaCatalogoCss>) -> Seq<FilaCss> {
    Seq::new(v.len(), |i: int| v[i]@)
}

// ------------------------------------------------------------------
// Reading the catalogs
// ------------------------------------------------------------------

/// Reads the general catalog (`configuracion.tsv`).
pub fn cargar_catalogo(texto: &str) -> (r: Result<Vec<EntradaCatalogo>, ErrorCatalogo>)
    ensures
        match r {
            Ok(es) => catalogo_de_texto(texto@) == Ok::<Seq<FilaCatalogo>, FalloCatalogo>(
                vista_catalogo(es@),
            ),
            Err(e) => catalogo_de_texto(texto@) == Err::<Seq<FilaCatalogo>, FalloCatalogo>(e@),
        },
{
    let v = a_caracteres(texto);
    let ls = dividir_lineas(v.as_slice());
    let ghost lt = lineas(v@);
    let n = ls.len();
    let mut catalogo: Vec<EntradaCatalogo> = Vec::new();
    let mut grupo: Option<String> = None;
    assert(lt.take(0) == Seq::<Seq<char>>::empty());
    assert(vista_catalogo(catalogo@) =~= Seq::<FilaCatalogo>::empty());
    let mut i: usize = 0;
    while i < n
        invariant
            i <= n,
            n == ls@.len() == lt.len(),
            lt == lineas(texto@),
            forall|k: int| 0 <= k < ls@.len() ==> #[trigger] ls@[k]@ == lt[k],
            procesar_catalogo(lt.take(i as int)) == Ok::<EstadoCatalogo, FalloCatalogo>(
                (
                    vista_catalogo(catalogo@),
                    vista_opcion(grupo),
                ),
            ),
        decreases n - i,
    {
        let k = i;
        i = i + 1;
        let ghost estado: EstadoCatalogo = (
            vista_catalogo(catalogo@),
            vista_opcion(grupo),
        );
        let ghost numero = i as nat;
        assert(lt.take(k + 1).drop_last() == lt.take(k as int));
        assert(lt.take(k + 1).last() == lt[k as int]);
        assert(procesar_catalogo(lt.take(k + 1)) == paso_catalogo(estado, lt[k as int], numero));
        let l = quitar_cr_final(&ls[k]);
        if es_ignorada(&l) {
            continue;
        }
        let cs = match columnas(&l) {
            None => {
                proof {
                    lema_error_persiste(lt, i as int);
                }
                return Err(ErrorCatalogo::Columnas { linea: i });
            },
            Some(cs) => cs,
        };
        let ghost ps = partes(l@, '\t');
        assert(cs@[0]@ == recortar(ps[0]));
        assert(cs@[1]@ == recortar(ps[1]));
        assert(cs@[2]@ == recortar(ps[2]));
        assert(cs@[3]@ == recortar(ps[3]));
        assert(cs@[4]@ == recortar(ps[4]));
        if es_literal(&cs[0], "nivel") {
            continue;
        }
        if es_literal(&cs[0], "1") {
            grupo = Some(a_cadena(cs[2].as_slice()));
            continue;
        }
        if !es_literal(&cs[0], "0") {
            proof {
                lema_error_persiste(lt, i as int);
            }
            return Err(ErrorCatalogo::NivelDesconocido { nivel: a_cadena(cs[0].as_slice()), linea: i });
        }
        let g = match &grupo {
            None => {
                proof {
                    lema_error_persiste(lt, i as int);
                }
                return Err(ErrorCatalogo::SinGrupo { linea: i });
            },
            Some(g) => g.clone(),
        };
        if cs[1].len() == 0 {
            proof {
                lema_error_persiste(lt, i as int);
            }
            return Err(ErrorCatalogo::SinClave { linea: i });
        }
        let clave = a_cadena(cs[1].as_slice());
        if contiene_exec(cs[1].as_slice(), '.') {
            proof {
                lema_error_persiste(lt, i as int);
            }
            return Err(ErrorCatalogo::ClaveConPunto { clave });
        }
        let tipo = match tipo_general_exec(&cs[4]) {
            None => {
                proof {
                    lema_error_persiste(lt, i as int);
                }
                return Err(ErrorCatalogo::TipoDesconocido { tipo: a_cadena(cs[4].as_slice()), linea: i });
            },
            Some(t) => t,
        };
        let m = catalogo.len();
        #[verifier::loop_isolation(false)]
        for j in 0..m
            invariant
                m == catalogo@.len(),
                clave@ == cs@[1]@,
                forall|k: int| 0 <= k < j ==> catalogo@[k].clave@ != clave@,
        {
            if catalogo[j].clave == clave {
                proof {
                    assert(vista_catalogo(catalogo@)[j as int].0 == clave@);
                    assert(clave_usada(estado.0, clave@));
                    lema_error_persiste(lt, i as int);
                }
                return Err(ErrorCatalogo::ClaveDuplicada { clave });
            }
        }
        proof {
            assert(!clave_usada(estado.0, clave@)) by {
                if clave_usada(estado.0, clave@) {
                    let k = choose|k: int| 0 <= k < estado.0.len() && #[trigger] estado.0[k].0 == clave@;
                    assert(catalogo@[k].clave@ == clave@);
                }
            }
        }
        let ghost antes = catalogo@;
        catalogo.push(
            EntradaCatalogo {
                clave,
                nombre_ui: a_cadena(cs[2].as_slice()),
                valor_defecto: a_cadena(cs[3].as_slice()),
                tipo,
                grupo: g,
            },
        );
        assert(vista_catalogo(catalogo@) =~= vista_catalogo(antes).push(catalogo@[m as int]@));
    }
    assert(lt.take(n as int) == lt);
    Ok(catalogo)
}

/// Reads the appearance catalog (`apariencia.tsv`).
pub fn cargar_catalogo_css(texto: &str) -> (r: Result<Vec<EntradaCatalogoCss>, ErrorCatalogo>)
    ensures
        match r {
            Ok(es) => catalogo_css_de_texto(texto@) == Ok::<Seq<FilaCss>, FalloCatalogo>(
                vista_css(es@),
            ),
            Err(e) => catalogo_css_de_texto(texto@) == Err::<Seq<FilaCss>, FalloCatalogo>(e@),
        },
{
    let v = a_caracteres(texto);
    let ls = dividir_lineas(v.as_slice());
    let ghost lt = lineas(v@);
    let n = ls.len();
    let mut catalogo: Vec<EntradaCatalogoCss> = Vec::new();
    assert(lt.take(0) == Seq::<Seq<char>>::empty());
    assert(vista_css(catalogo@) =~= Seq::<FilaCss>::empty());
    let mut i: usize = 0;
    while i < n
        invariant
            i <= n,
            n == ls@.len() == lt.len(),
            lt == lineas(texto@),
            forall|k: int| 0 <= k < ls@.len() ==> #[trigger] ls@[k]@ == lt[k],
            procesar_css(lt.take(i as int)) == Ok::<Seq<FilaCss>, FalloCatalogo>(
                vista_css(catalogo@),
            ),
        decreases n - i,
    {
        let k = i;
        i = i + 1;
        let ghost es = vista_css(catalogo@);
        let ghost numero = i as nat;
        assert(lt.take(k + 1).drop_last() == lt.take(k as int));
        assert(lt.take(k + 1).last() == lt[k as int]);
        assert(procesar_css(lt.take(k + 1)) == paso_css(es, lt[k as int], numero));
        let l = quitar_cr_final(&ls[k]);
        if es_ignorada(&l) {
            continue;
        }
        let cs = match columnas(&l) {
            None => {
                proof {
                    lema_error_persiste_css(lt, i as int);
                }
                return Err(ErrorCatalogo::Columnas { linea: i });
            },
            Some(cs) => cs,
        };
        let ghost ps = partes(l@, '\t');
        assert(cs@[0]@ == recortar(ps[0]));
        assert(cs@[1]@ == recortar(ps[1]));
        assert(cs@[2]@ == recortar(ps[2]));
        assert(cs@[3]@ == recortar(ps[3]));
        assert(cs@[4]@ == recortar(ps[4]));
        if es_literal(&cs[0], "nivel") {
            continue;
        }
        let nivel = match parse_u8(cs[0].as_slice()) {
            Some(x) if x <= 3 => x,
            _ => {
                proof {
                    lema_error_persiste_css(lt, i as int);
                }
                return Err(ErrorCatalogo::NivelInvalido { nivel: a_cadena(cs[0].as_slice()), linea: i });
            },
        };
        if cs[1].len() == 0 {
            proof {
                lema_error_persiste_css(lt, i as int);
            }
            return Err(ErrorCatalogo::SinClave { linea: i });
        }
        let id = a_cadena(cs[1].as_slice());
        if contiene_exec(cs[1].as_slice(), '.') {
            proof {
                lema_error_persiste_css(lt, i as int);
            }
            return Err(ErrorCatalogo::ClaveConPunto { clave: id });
        }
        let tipo = if nivel == 0 {
            if cs[4].len() == 0 {
                proof {
                    lema_error_persiste_css(lt, i as int);
                }
                return Err(ErrorCatalogo::SinTipo { linea: i });
            }
            match tipo_css_exec(&cs[4]) {
                Some(t) => t,
                None => {
                    proof {
                        lema_error_persiste_css(lt, i as int);
                    }
                    return Err(ErrorCatalogo::TipoDesconocido { tipo: a_cadena(cs[4].as_slice()), linea: i });
                },
            }
        } else {
            TipoValorCss::Texto
        };
        if nivel == 0 {
            let m = catalogo.len();
            #[verifier::loop_isolation(false)]
            for j in 0..m
                invariant
                    m == catalogo@.len(),
                    id@ == cs@[1]@,
                    forall|k: int| 0 <= k < j ==> !(catalogo@[k].nivel == 0 && catalogo@[k].id@ == id@),
            {
                if catalogo[j].nivel == 0 && catalogo[j].id == id {
                    proof {
                        assert(vista_css(catalogo@)[j as int].1 == 0);
                        assert(id_usado(es, id@));
                        lema_error_persiste_css(lt, i as int);
                    }
                    return Err(ErrorCatalogo::ClaveDuplicada { clave: id });
                }
            }
            proof {
                assert(!id_usado(es, id@)) by {
                    if id_usado(es, id@) {
                        let k = choose|k: int| 0 <= k < es.len() && #[trigger] es[k].1 == 0 && es[k].0 == id@;
                        assert(catalogo@[k].nivel == 0 && catalogo@[k].id@ == id@);
                    }
                }
            }
        }
        let ghost antes = catalogo@;
        catalogo.push(
            EntradaCatalogoCss {
                id,
                nivel,
                nombre_ui: a_cadena(cs[2].as_slice()),
                valor_defecto: a_cadena(cs[3].as_slice()),
                tipo,
            },
        );
        assert(vista_css(catalogo@) =~= vista_css(antes).push(catalogo@[antes.len() as int]@));
    }
    assert(lt.take(n as int) == lt);
    Ok(catalogo)
}

// ------------------------------------------------------------------
// Laws
// ------------------------------------------------------------------

/// No two rows share a key.
pub open spec fn claves_unicas(cat: Seq<FilaCatalogo>) -> bool {
    forall|i: int, j: int| 0 <= i < j < cat.len() ==> #[trigger] cat[i].0 != #[trigger] cat[j].0
}

proof fn lema_procesar_catalogo_unicas(ls: Seq<Seq<char>>)
    ensures
        procesar_catalogo(ls) matches Ok(e) ==> claves_unicas(e.0),
    decreases ls.len(),
{
    if ls.len() > 0 {
        lema_procesar_catalogo_unicas(ls.drop_last());
        match procesar_catalogo(ls.drop_last()) {
            Ok(e) => {
                match paso_catalogo(e, ls.last(), ls.len()) {
                    Ok(e2) => {
                        if e2.0.len() > e.0.len() {
                            let cat = e2.0;
                            assert(cat == e.0.push(cat.last()));
                            assert forall|i: int, j: int| 0 <= i < j < cat.len() implies #[trigger] cat[i].0
                                != #[trigger] cat[j].0 by {
                                if j < e.0.len() {
                                    assert(cat[i] == e.0[i] && cat[j] == e.0[j]);
                                } else {
                                    assert(cat[i] == e.0[i]);
                                    assert(!clave_usada(e.0, cat[j].0));
                                }
                            }
                        } else {
                            assert(e2.0 == e.0);
                        }
                    },
                    Err(_) => {},
                }
            },
            Err(_) => {},
        }
    }
}

/// The general catalog reader never gives two rows one key.
pub proof fn ley_catalogo_claves_unicas(t: Seq<char>)
    ensures
        catalogo_de_texto(t) matches Ok(cat) ==> claves_unicas(cat),
{
    lema_procesar_catalogo_unicas(lineas(t));
}

/// The columns of a catalog line: `\r` dropped, split on tabs.
pub open spec fn columnas_de(l: Seq<char>) -> Seq<Seq<char>> {
    partes(sin_cr(l), '\t')
}

/// A row of five columns whose first column, trimmed, is `nivel`.
pub open spec fn es_fila_de_nivel(l: Seq<char>, nivel: Seq<char>) -> bool {
    !linea_ignorada(sin_cr(l)) && columnas_de(l).len() == 5 && recortar(columnas_de(l)[0]) == nivel
}

/// The group open after the lines `ls`: the name of the nearest level 1
/// row, if any.
pub open spec fn grupo_tras(ls: Seq<Seq<char>>) -> Option<Seq<char>>
    decreases ls.len(),
{
    if ls.len() == 0 {
        None
    } else if es_fila_de_nivel(ls.last(), "1"@) {
        Some(recortar(columnas_de(ls.last())[2]))
    } else {
        grupo_tras(ls.drop_last())
    }
}

/// The entry of a level 0 row under group `g`: each column trimmed.
pub open spec fn entrada_general(l: Seq<char>, g: Option<Seq<char>>) -> FilaCatalogo {
    let c = columnas_de(l);
    (
        recortar(c[1]),
        recortar(c[2]),
        recortar(c[3]),
        tipo_general(recortar(c[4])).unwrap(),
        g.unwrap(),
    )
}

/// One entry per level 0 row, in file order, each under the nearest level 1
/// row above it.
pub open spec fn filas_generales(ls: Seq<Seq<char>>) -> Seq<FilaCatalogo>
    decreases ls.len(),
{
    if ls.len() == 0 {
        seq![]
    } else {
        let previas = filas_generales(ls.drop_last());
        if es_fila_de_nivel(ls.last(), "0"@) {
            previas.push(entrada_general(ls.last(), grupo_tras(ls.drop_last())))
        } else {
            previas
        }
    }
}

proof fn lema_procesar_catalogo_filas(ls: Seq<Seq<char>>)
    ensures
        procesar_catalogo(ls) matches Ok(e) ==> e.0 == filas_generales(ls) && e.1 == grupo_tras(ls),
    decreases ls.len(),
{
    reveal_strlit("0");
    reveal_strlit("1");
    reveal_strlit("nivel");
    if ls.len() > 0 {
        let previas = ls.drop_last();
        lema_procesar_catalogo_filas(previas);
        assert("0"@ != "1"@ && "0"@ != "nivel"@ && "1"@ != "nivel"@) by {
            assert("0"@[0] != "1"@[0]);
            assert("0"@.len() != "nivel"@.len());
            assert("1"@.len() != "nivel"@.len());
        }
        match procesar_catalogo(previas) {
            Ok(e) => {
                let l = ls.last();
                let c = columnas_de(l);
                if !linea_ignorada(sin_cr(l)) && c.len() == 5 {
                    let nivel = recortar(c[0]);
                    if nivel == "1"@ {
                        assert(es_fila_de_nivel(l, "1"@));
                        assert(!es_fila_de_nivel(l, "0"@));
                    } else if nivel == "0"@ {
                        assert(es_fila_de_nivel(l, "0"@));
                        assert(!es_fila_de_nivel(l, "1"@));
                    } else {
                        assert(!es_fila_de_nivel(l, "0"@));
                        assert(!es_fila_de_nivel(l, "1"@));
                    }
                } else {
                    assert(!es_fila_de_nivel(l, "0"@));
                    assert(!es_fila_de_nivel(l, "1"@));
                }
            },
            Err(_) => {},
        }
    }
}

/// What the general catalog reader gives on success: one entry per level 0
/// row (blank, `#` and header lines skipped, `\r` dropped, columns split on
/// tabs), in file order, each column trimmed, the type named by the fifth
/// column, and the group of the nearest level 1 row above it.
pub proof fn ley_catalogo_por_filas(t: Seq<char>)
    ensures
        catalogo_de_texto(t) matches Ok(cat) ==> cat == filas_generales(lineas(t)),
{
    lema_procesar_catalogo_filas(lineas(t));
}

/// The entry of an appearance row: each column trimmed, its level, and its
/// type (text for the rows above level 0).
pub open spec fn entrada_css(l: Seq<char>) -> FilaCss {
    let c = columnas_de(l);
    let nivel = leer_u8(recortar(c[0])).unwrap();
    (
        recortar(c[1]),
        nivel,
        recortar(c[2]),
        recortar(c[3]),
        if nivel == 0 {
            tipo_css(recortar(c[4])).unwrap()
        } else {
            TipoValorCss::Texto
        },
    )
}

/// A row of the appearance catalog: not blank, not a comment, not the
/// header.
pub open spec fn es_fila_css(l: Seq<char>) -> bool {
    !linea_ignorada(sin_cr(l)) && columnas_de(l).len() == 5 && recortar(columnas_de(l)[0]) != "nivel"@
}

/// One entry per row, in file order, levels 0 to 3 all kept.
pub open spec fn filas_css(ls: Seq<Seq<char>>) -> Seq<FilaCss>
    decreases ls.len(),
{
    if ls.len() == 0 {
        seq![]
    } else {
        let previas = filas_css(ls.drop_last());
        if es_fila_css(ls.last()) {
            previas.push(entrada_css(ls.last()))
        } else {
            previas
        }
    }
}

proof fn lema_procesar_css_filas(ls: Seq<Seq<char>>)
    ensures
        procesar_css(ls) matches Ok(es) ==> es == filas_css(ls),
    decreases ls.len(),
{
    reveal_strlit("nivel");
    if ls.len() > 0 {
        lema_procesar_css_filas(ls.drop_last());
    }
}

/// What the appearance catalog reader gives on success: one entry per row
/// that is not blank, a `#` comment or the header (`\r` dropped, columns
/// split on tabs), in file order, levels 0 to 3 all kept, each column
/// trimmed, the type named by the fifth column for level 0 and text for the
/// other levels.
pub proof fn ley_catalogo_css_por_filas(t: Seq<char>)
    ensures
        catalogo_css_de_texto(t) matches Ok(cat) ==> cat == filas_css(lineas(t)),
{
    lema_procesar_css_filas(lineas(t));
}

/// A well formed line of the appearance catalog: blank or a comment, or
/// five columns holding the header, or a row whose level is 0 to 3, whose
/// id is not empty and holds no `.`, and whose type is known at level 0.
pub open spec fn linea_css_valida(l: Seq<char>) -> bool {
    let c = columnas_de(l);
    ||| linea_ignorada(sin_cr(l))
    ||| c.len() == 5 && recortar(c[0]) == "nivel"@
    ||| c.len() == 5 && leer_u8(recortar(c[0])) is Some && leer_u8(recortar(c[0])).unwrap() <= 3
        && recortar(c[1]).len() > 0 && !contiene(recortar(c[1]), '.') && (leer_u8(
        recortar(c[0]),
    ).unwrap() == 0 ==> tipo_css(recortar(c[4])) is Some)
}

/// No two level 0 rows of the lines share an id (rows of other levels may
/// share any id).
pub open spec fn ids_nivel0_distintos(ls: Seq<Seq<char>>) -> bool {
    forall|i: int, j: int|
        0 <= i < j < ls.len() && es_fila_css(#[trigger] ls[i]) && es_fila_css(#[trigger] ls[j])
            && entrada_css(ls[i]).1 == 0 && entrada_css(ls[j]).1 == 0 ==> entrada_css(ls[i]).0
            != entrada_css(ls[j]).0
}

/// `e` is the entry of one of the rows of `ls`.
pub open spec fn viene_de_fila(ls: Seq<Seq<char>>, e: FilaCss) -> bool {
    exists|j: int| 0 <= j < ls.len() && es_fila_css(#[trigger] ls[j]) && e == entrada_css(ls[j])
}

proof fn lema_filas_css_origen(ls: Seq<Seq<char>>)
    ensures
        forall|k: int| 0 <= k < filas_css(ls).len() ==> #[trigger] viene_de_fila(ls, filas_css(ls)[k]),
    decreases ls.len(),
{
    if ls.len() > 0 {
        let d = ls.drop_last();
        lema_filas_css_origen(d);
        let f = filas_css(ls);
        assert forall|k: int| 0 <= k < f.len() implies #[trigger] viene_de_fila(ls, f[k]) by {
            if k < filas_css(d).len() {
                assert(f[k] == filas_css(d)[k]);
                assert(viene_de_fila(d, filas_css(d)[k]));
                let j = choose|j: int|
                    0 <= j < d.len() && es_fila_css(#[trigger] d[j]) && filas_css(d)[k] == entrada_css(
                        d[j],
                    );
                assert(ls[j] == d[j]);
                assert(es_fila_css(ls[j]) && f[k] == entrada_css(ls[j]));
            } else {
                assert(es_fila_css(ls.last()));
                assert(ls[ls.len() - 1] == ls.last());
                assert(es_fila_css(ls[ls.len() - 1]) && f[k] == entrada_css(ls[ls.len() - 1]));
            }
        }
    }
}

proof fn lema_css_acepta(ls: Seq<Seq<char>>)
    requires
        forall|i: int| 0 <= i < ls.len() ==> linea_css_valida(#[trigger] ls[i]),
        ids_nivel0_distintos(ls),
    ensures
        procesar_css(ls) == Ok::<Seq<FilaCss>, FalloCatalogo>(filas_css(ls)),
    decreases ls.len(),
{
    reveal_strlit("nivel");
    reveal_strlit("color");
    reveal_strlit("pixeles");
    reveal_strlit("texto");
    reveal_strlit("porcentaje");
    reveal_strlit("modo");
    if ls.len() > 0 {
        let d = ls.drop_last();
        let l = ls.last();
        assert forall|i: int| 0 <= i < d.len() implies linea_css_valida(#[trigger] d[i]) by {
            assert(d[i] == ls[i]);
        }
        assert(ids_nivel0_distintos(d)) by {
            assert forall|i: int, j: int|
                0 <= i < j < d.len() && es_fila_css(#[trigger] d[i]) && es_fila_css(#[trigger] d[j])
                    && entrada_css(d[i]).1 == 0 && entrada_css(d[j]).1 == 0 implies entrada_css(d[i]).0
                != entrada_css(d[j]).0 by {
                assert(d[i] == ls[i] && d[j] == ls[j]);
            }
        }
        lema_css_acepta(d);
        let es = filas_css(d);
        assert(linea_css_valida(ls[ls.len() - 1]));
        let c = columnas_de(l);
        if !linea_ignorada(sin_cr(l)) && recortar(c[0]) != "nivel"@ {
            let nivel = leer_u8(recortar(c[0])).unwrap();
            let id = recortar(c[1]);
            if nivel == 0 && id_usado(es, id) {
                let k = choose|k: int| 0 <= k < es.len() && #[trigger] es[k].1 == 0 && es[k].0 == id;
                lema_filas_css_origen(d);
                assert(viene_de_fila(d, filas_css(d)[k]));
                let j = choose|j: int|
                    0 <= j < d.len() && es_fila_css(#[trigger] d[j]) && filas_css(d)[k] == entrada_css(
                        d[j],
                    );
                assert(d[j] == ls[j]);
                assert(es_fila_css(ls[ls.len() - 1]));
                assert(entrada_css(ls[ls.len() - 1]).0 == id);
                assert(false);
            }
            assert(!id_usado(es, id) || nivel != 0);
            assert(es_fila_css(l));
            assert(paso_css(es, l, ls.len()) == Ok::<Seq<FilaCss>, FalloCatalogo>(es.push(entrada_css(l))));
        } else {
            assert(!es_fila_css(l));
            assert(paso_css(es, l, ls.len()) == Ok::<Seq<FilaCss>, FalloCatalogo>(es));
        }
    }
}

/// The appearance catalog reader accepts every text whose lines are all
/// well formed and whose level 0 ids are pairwise distinct, whatever ids its
/// rows of levels 1 to 3 have (a level 0 row may share the id of its own
/// title row).
pub proof fn ley_catalogo_css_acepta(t: Seq<char>)
    requires
        forall|i: int| 0 <= i < lineas(t).len() ==> linea_css_valida(#[trigger] lineas(t)[i]),
        ids_nivel0_distintos(lineas(t)),
    ensures
        catalogo_css_de_texto(t) == Ok::<Seq<FilaCss>, FalloCatalogo>(filas_css(lineas(t))),
{
    lema_css_acepta(lineas(t));
}

} // verus!
