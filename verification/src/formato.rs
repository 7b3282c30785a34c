//! The text format of the user settings file: one `clave=valor` per line,
//! `#` comments and blank lines ignored, keys and values trimmed, a later
//! line overriding an earlier one; written back as a fixed comment header
//! followed by the entries in increasing key order.

use vstd::prelude::*;
use crate::lotes::con_cambios;
use crate::mapa::{
    como_mapa, lema_insertar_nueva, lema_vacia, ordenada, vista_entradas, Entrada, MapaUsuario,
};
use crate::texto::{
    a_caracteres, a_cadena, anexar, buscar, contiene, copiar_rango, dividir_lineas, empujar,
    es_espacio, lema_posicion, precede, lema_posicion_unica, lineas, posicion, quitar_cr, recortar,
    recortar_vec, sin_espacios_finales, sin_espacios_iniciales,
};

verus! {

/// The comment block at the top of the written settings file.
pub const ENCABEZADO_USUARIO: &'static str = "# Configuracion_Usuario.txt — overrides de la Ventana de Configuración.\n\
         # Se reescribe por completo cada vez que se guarda un cambio: no editar\n\
         # a mano mientras OmegaCtrl está abierto.\n\
         #\n\
         # Formato: clave=valor (una línea por override).\n\
         # Sin prefijo   → variable de config.rs (ver configuracion.tsv).\n\
         # Prefijo css.  → variable de styl_variables.css.\n\
         # Prefijo pulsador. → nombre visible de pulsadores.tsv.\n\
         # Prefijo dispositivo. → teclado/mouse primario aprendido por\n\
         #   back_interception.rs (no editable desde la Ventana de\n\
         #   Configuración).\n\n";

/// Effect of one line of the settings file on the map read so far.
pub open spec fn aplicar_linea(m: Map<Seq<char>, Seq<char>>, l: Seq<char>) -> Map<
    Seq<char>,
    Seq<char>,
> {
    let t = recortar(l);
    if t.len() == 0 || t[0] == '#' {
        m
    } else {
        let p = posicion(t, '=');
        if p >= t.len() {
            m
        } else {
            m.insert(recortar(t.take(p as int)), recortar(t.skip(p + 1int)))
        }
    }
}

/// Lines applied in order, starting from `m`.
pub open spec fn procesar(m: Map<Seq<char>, Seq<char>>, ls: Seq<Seq<char>>) -> Map<
    Seq<char>,
    Seq<char>,
>
    decreases ls.len(),
{
    if ls.len() == 0 {
        m
    } else {
        aplicar_linea(procesar(m, ls.drop_last()), ls.last())
    }
}

/// The map that the text of a settings file holds.
pub open spec fn mapa_de_texto(s: Seq<char>) -> Map<Seq<char>, Seq<char>> {
    procesar(Map::empty(), lineas(s))
}

pub open spec fn linea_entrada(e: Entrada) -> Seq<char> {
    e.0 + seq!['='] + e.1
}

/// The entry lines, each ended by `\n`.
pub open spec fn cuerpo(s: Seq<Entrada>) -> Seq<char>
    decreases s.len(),
{
    if s.len() == 0 {
        seq![]
    } else {
        cuerpo(s.drop_last()) + linea_entrada(s.last()) + seq!['\n']
    }
}

/// The full text written for the entries `s`.
pub open spec fn texto_archivo(s: Seq<Entrada>) -> Seq<char> {
    ENCABEZADO_USUARIO@ + cuerpo(s)
}

/// No whitespace at either end.
pub open spec fn sin_bordes(s: Seq<char>) -> bool {
    s.len() == 0 || (!es_espacio(s[0]) && !es_espacio(s.last()))
}

/// A key that survives a write and a read unchanged.
pub open spec fn clave_canonica(k: Seq<char>) -> bool {
    &&& sin_bordes(k)
    &&& !contiene(k, '=')
    &&& !contiene(k, '\n')
    &&& (k.len() > 0 ==> k[0] != '#')
}

/// A value that survives a write and a read unchanged.
pub open spec fn valor_canonico(v: Seq<char>) -> bool {
    sin_bordes(v) && !contiene(v, '\n')
}

pub open spec fn entradas_canonicas(s: Seq<Entrada>) -> bool {
    forall|i: int| 0 <= i < s.len() ==> clave_canonica(#[trigger] s[i].0) && valor_canonico(s[i].1)
}

/// Text whose every line is blank or a `#` comment, ending with `\n`.
pub open spec fn bloque_comentarios(h: Seq<char>) -> bool {
    &&& h.len() > 0
    &&& h.last() == '\n'
    &&& (h[0] == '#' || h[0] == '\n')
    &&& forall|i: int| 0 <= i < h.len() - 1 && #[trigger] h[i] == '\n' ==> (h[i + 1] == '#' || h[i + 1] == '\n')
}

// ------------------------------------------------------------------
// Lemmas
// ------------------------------------------------------------------

pub proof fn lema_recortar_sin_bordes(s: Seq<char>)
    requires
        sin_bordes(s),
    ensures
        recortar(s) == s,
{
    if s.len() > 0 {
        assert(sin_espacios_iniciales(s) == s);
    }
}

proof fn lema_finales_primero(s: Seq<char>)
    requires
        s.len() > 0,
        !es_espacio(s[0]),
    ensures
        sin_espacios_finales(s).len() > 0,
        sin_espacios_finales(s)[0] == s[0],
    decreases s.len(),
{
    if s.len() > 1 && es_espacio(s.last()) {
        lema_finales_primero(s.drop_last());
    }
}

proof fn lema_recortar_primero(s: Seq<char>)
    requires
        s.len() > 0,
        !es_espacio(s[0]),
    ensures
        recortar(s).len() > 0,
        recortar(s)[0] == s[0],
{
    assert(sin_espacios_iniciales(s) == s);
    lema_finales_primero(s);
}

pub proof fn lema_procesar_concat(m: Map<Seq<char>, Seq<char>>, a: Seq<Seq<char>>, b: Seq<Seq<char>>)
    ensures
        procesar(m, a + b) == procesar(procesar(m, a), b),
    decreases b.len(),
{
    if b.len() == 0 {
        assert(a + b == a);
    } else {
        assert((a + b).drop_last() == a + b.drop_last());
        lema_procesar_concat(m, a, b.drop_last());
    }
}

pub proof fn lema_lineas_concat(a: Seq<char>, b: Seq<char>)
    requires
        a.len() == 0 || a.last() == '\n',
    ensures
        lineas(a + b) == lineas(a) + lineas(b),
    decreases a.len(),
{
    if a.len() == 0 {
        assert(a + b == b);
        assert(lineas(a) == Seq::<Seq<char>>::empty());
        assert(lineas(a) + lineas(b) == lineas(b));
    } else {
        let ab = a + b;
        lema_posicion(a, '\n');
        assert(a[a.len() - 1] == '\n');
        assert(contiene(a, '\n'));
        let p = posicion(a, '\n') as int;
        assert forall|k: int| 0 <= k < p implies ab[k] != '\n' by {
            assert(ab[k] == a[k]);
        }
        lema_posicion_unica(ab, '\n', p);
        assert(ab.take(p) == a.take(p));
        let resto = a.skip(p + 1);
        assert(ab.skip(p + 1) == resto + b);
        if resto.len() > 0 {
            assert(resto.last() == a.last());
        }
        lema_lineas_concat(resto, b);
    }
}

pub proof fn lema_comentarios(m: Map<Seq<char>, Seq<char>>, h: Seq<char>)
    requires
        bloque_comentarios(h),
    ensures
        procesar(m, lineas(h)) == m,
    decreases h.len(),
{
    lema_posicion(h, '\n');
    assert(h[h.len() - 1] == '\n');
    assert(contiene(h, '\n'));
    let p = posicion(h, '\n') as int;
    let f = quitar_cr(h.take(p));
    let resto = h.skip(p + 1);
    assert(lineas(h) == seq![f] + lineas(resto));
    if p > 0 {
        assert(h[0] == '#');
        assert(h.take(p)[0] == '#');
        assert(f[0] == '#');
        lema_recortar_primero(f);
    } else {
        assert(f.len() == 0);
        assert(recortar(f) == f);
    }
    assert(aplicar_linea(m, f) == m);
    assert(procesar(m, seq![f]) == aplicar_linea(procesar(m, seq![f].drop_last()), f));
    assert(seq![f].drop_last() == Seq::<Seq<char>>::empty());
    lema_procesar_concat(m, seq![f], lineas(resto));
    if resto.len() > 0 {
        assert(resto.last() == h.last());
        assert(resto[0] == h[p + 1]);
        assert forall|i: int| 0 <= i < resto.len() - 1 && #[trigger] resto[i] == '\n' implies (resto[i + 1]
            == '#' || resto[i + 1] == '\n') by {
            assert(resto[i] == h[p + 1 + i]);
            assert(resto[i + 1] == h[p + 2 + i]);
        }
        lema_comentarios(m, resto);
    } else {
        assert(lineas(resto) == Seq::<Seq<char>>::empty());
    }
}

pub proof fn lema_encabezado()
    ensures
        bloque_comentarios(ENCABEZADO_USUARIO@),
{
    reveal_strlit(
        "# Configuracion_Usuario.txt — overrides de la Ventana de Configuración.\n\
         # Se reescribe por completo cada vez que se guarda un cambio: no editar\n\
         # a mano mientras OmegaCtrl está abierto.\n\
         #\n\
         # Formato: clave=valor (una línea por override).\n\
         # Sin prefijo   → variable de config.rs (ver configuracion.tsv).\n\
         # Prefijo css.  → variable de styl_variables.css.\n\
         # Prefijo pulsador. → nombre visible de pulsadores.tsv.\n\
         # Prefijo dispositivo. → teclado/mouse primario aprendido por\n\
         #   back_interception.rs (no editable desde la Ventana de\n\
         #   Configuración).\n\n",
    );
}

pub proof fn lema_linea_entrada(e: Entrada)
    requires
        clave_canonica(e.0),
        valor_canonico(e.1),
    ensures
        lineas(linea_entrada(e) + seq!['\n']) == seq![linea_entrada(e)],
        forall|m: Map<Seq<char>, Seq<char>>|
            aplicar_linea(m, #[trigger] linea_entrada(e)) == m.insert(e.0, e.1),
{
    let l = linea_entrada(e);
    let k = e.0;
    let v = e.1;
    let ln = l + seq!['\n'];
    assert forall|i: int| 0 <= i < l.len() implies ln[i] != '\n' by {
        if i < k.len() {
            assert(ln[i] == k[i]);
        } else if i > k.len() {
            assert(ln[i] == v[i - k.len() - 1]);
        }
    }
    lema_posicion_unica(ln, '\n', l.len() as int);
    assert(ln.take(l.len() as int) == l);
    assert(l.last() != '\r') by {
        if v.len() > 0 {
            assert(l.last() == v.last());
        }
    }
    assert(quitar_cr(l) == l);
    assert(ln.skip(l.len() + 1int) == Seq::<char>::empty());
    assert(lineas(Seq::<char>::empty()) == Seq::<Seq<char>>::empty());
    assert(lineas(ln) == seq![l] + Seq::<Seq<char>>::empty());
    assert(sin_bordes(l)) by {
        if k.len() > 0 {
            assert(l[0] == k[0]);
        }
        if v.len() > 0 {
            assert(l.last() == v.last());
        }
    }
    lema_recortar_sin_bordes(l);
    assert(l[0] != '#') by {
        if k.len() > 0 {
            assert(l[0] == k[0]);
        }
    }
    assert forall|i: int| 0 <= i < k.len() implies l[i] != '=' by {
        assert(l[i] == k[i]);
        if k[i] == '=' {
            assert(contiene(k, '='));
        }
    }
    lema_posicion_unica(l, '=', k.len() as int);
    assert(l.take(k.len() as int) == k);
    assert(l.skip(k.len() + 1int) == v);
    lema_recortar_sin_bordes(k);
    lema_recortar_sin_bordes(v);
}

proof fn lema_cuerpo(s: Seq<Entrada>)
    requires
        ordenada(s),
        entradas_canonicas(s),
    ensures
        procesar(Map::empty(), lineas(cuerpo(s))) == como_mapa(s),
        cuerpo(s).len() == 0 || cuerpo(s).last() == '\n',
    decreases s.len(),
{
    if s.len() == 0 {
        assert(lineas(Seq::<char>::empty()) == Seq::<Seq<char>>::empty());
        lema_vacia();
    } else {
        let previa = s.drop_last();
        let e = s.last();
        assert(ordenada(previa));
        assert(entradas_canonicas(previa)) by {
            assert forall|i: int| 0 <= i < previa.len() implies clave_canonica(#[trigger] previa[i].0)
                && valor_canonico(previa[i].1) by {
                assert(previa[i] == s[i]);
            }
        }
        lema_cuerpo(previa);
        assert(clave_canonica(s[s.len() - 1].0));
        lema_linea_entrada(e);
        let c = cuerpo(previa);
        let ln = linea_entrada(e) + seq!['\n'];
        assert(cuerpo(s) == c + ln);
        lema_lineas_concat(c, ln);
        lema_procesar_concat(Map::empty(), lineas(c), lineas(ln));
        assert(procesar(como_mapa(previa), seq![linea_entrada(e)]) == aplicar_linea(
            procesar(como_mapa(previa), seq![linea_entrada(e)].drop_last()),
            linea_entrada(e),
        ));
        assert(seq![linea_entrada(e)].drop_last() == Seq::<Seq<char>>::empty());
        assert forall|j: int| 0 <= j < previa.len() implies precede(#[trigger] previa[j].0, e.0) by {
            assert(previa[j] == s[j]);
        }
        lema_insertar_nueva(previa, previa.len() as int, e);
        assert(previa.insert(previa.len() as int, e) == s);
    }
}

/// Writing the entries and reading the text back gives the same map, for
/// keys and values without surrounding whitespace, newlines, and (for keys)
/// `=` or a leading `#`.
pub proof fn ley_ida_y_vuelta(s: Seq<Entrada>)
    requires
        ordenada(s),
        entradas_canonicas(s),
    ensures
        mapa_de_texto(texto_archivo(s)) == como_mapa(s),
{
    lema_encabezado();
    let h = ENCABEZADO_USUARIO@;
    lema_lineas_concat(h, cuerpo(s));
    lema_procesar_concat(Map::empty(), lineas(h), lineas(cuerpo(s)));
    lema_comentarios(Map::empty(), h);
    lema_cuerpo(s);
}

// ------------------------------------------------------------------
// Values that are not trimmed
// ------------------------------------------------------------------

/// Entries with keys that survive a write and a read and values without a
/// line break.
pub open spec fn entradas_escribibles(s: Seq<Entrada>) -> bool {
    forall|i: int| 0 <= i < s.len() ==> clave_canonica(#[trigger] s[i].0) && !contiene(s[i].1, '\n')
}

/// `m` with every value trimmed.
pub open spec fn recortar_valores(m: Map<Seq<char>, Seq<char>>) -> Map<Seq<char>, Seq<char>> {
    Map::new(|k: Seq<char>| m.dom().contains(k), |k: Seq<char>| recortar(m[k]))
}

/// A store that the settings file can hold: keys that survive a write and a
/// read, values without a line break.
pub open spec fn mapa_escribible(m: Map<Seq<char>, Seq<char>>) -> bool {
    forall|k: Seq<char>| #[trigger] m.dom().contains(k) ==> clave_canonica(k) && !contiene(m[k], '\n')
}

proof fn lema_finales_concat(a: Seq<char>, c: char, v: Seq<char>)
    requires
        !es_espacio(c),
    ensures
        sin_espacios_finales(a + seq![c] + v) == a + seq![c] + sin_espacios_finales(v),
    decreases v.len(),
{
    let x = a + seq![c] + v;
    if v.len() == 0 {
        assert(x == a + seq![c]);
        assert(x.last() == c);
    } else if es_espacio(v.last()) {
        assert(x.last() == v.last());
        assert(x.drop_last() =~= a + seq![c] + v.drop_last());
        lema_finales_concat(a, c, v.drop_last());
    } else {
        assert(x.last() == v.last());
    }
}

proof fn lema_iniciales_sin_ultimo(v: Seq<char>)
    requires
        v.len() > 0,
        es_espacio(v.last()),
    ensures
        sin_espacios_iniciales(v).len() == 0 ==> sin_espacios_iniciales(v.drop_last()).len() == 0,
        sin_espacios_iniciales(v).len() > 0 ==> sin_espacios_iniciales(v).last() == v.last()
            && sin_espacios_iniciales(v).drop_last() == sin_espacios_iniciales(v.drop_last()),
    decreases v.len(),
{
    if es_espacio(v[0]) {
        let d = v.drop_first();
        if d.len() == 0 {
            assert(v.drop_last().len() == 0);
        } else {
            assert(d.last() == v.last());
            lema_iniciales_sin_ultimo(d);
            let w = v.drop_last();
            assert(w[0] == v[0]);
            assert(w.drop_first() =~= d.drop_last());
            assert(sin_espacios_iniciales(v) == sin_espacios_iniciales(d));
            assert(sin_espacios_iniciales(w) == sin_espacios_iniciales(w.drop_first()));
        }
    } else {
        assert(v.len() > 1);
        let w = v.drop_last();
        assert(w[0] == v[0]);
        assert(sin_espacios_iniciales(v) == v);
        assert(sin_espacios_iniciales(w) == w);
    }
}

proof fn lema_recortar_sin_ultimo(v: Seq<char>)
    requires
        v.len() > 0,
        es_espacio(v.last()),
    ensures
        recortar(v) == recortar(v.drop_last()),
{
    lema_iniciales_sin_ultimo(v);
    let i = sin_espacios_iniciales(v);
    if i.len() > 0 {
        assert(sin_espacios_finales(i) == sin_espacios_finales(i.drop_last()));
    }
}

/// Trimming the trailing whitespace first changes nothing.
proof fn lema_recortar_finales(v: Seq<char>)
    ensures
        recortar(sin_espacios_finales(v)) == recortar(v),
    decreases v.len(),
{
    if v.len() > 0 && es_espacio(v.last()) {
        lema_recortar_finales(v.drop_last());
        lema_recortar_sin_ultimo(v);
    }
}

/// The line of an entry, as `str::lines` gives it back, stores the entry's
/// key with its value trimmed.
proof fn lema_linea_recortada(e: Entrada)
    requires
        clave_canonica(e.0),
        !contiene(e.1, '\n'),
    ensures
        lineas(linea_entrada(e) + seq!['\n']) == seq![quitar_cr(linea_entrada(e))],
        forall|m: Map<Seq<char>, Seq<char>>|
            aplicar_linea(m, #[trigger] quitar_cr(linea_entrada(e))) == m.insert(e.0, recortar(e.1)),
{
    let l = linea_entrada(e);
    let k = e.0;
    let v = e.1;
    let ln = l + seq!['\n'];
    assert forall|i: int| 0 <= i < l.len() implies ln[i] != '\n' by {
        if i < k.len() {
            assert(ln[i] == k[i]);
            if k[i] == '\n' {
                assert(contiene(k, '\n'));
            }
        } else if i > k.len() {
            assert(ln[i] == v[i - k.len() - 1]);
            if v[i - k.len() - 1] == '\n' {
                assert(contiene(v, '\n'));
            }
        }
    }
    lema_posicion_unica(ln, '\n', l.len() as int);
    assert(ln.take(l.len() as int) == l);
    assert(ln.skip(l.len() + 1int) == Seq::<char>::empty());
    assert(lineas(Seq::<char>::empty()) == Seq::<Seq<char>>::empty());
    assert(lineas(ln) == seq![quitar_cr(l)] + Seq::<Seq<char>>::empty());
    // The line without a final `\r`: the key, `=`, and the value or the
    // value less its last character.
    let v2 = if v.len() > 0 && v.last() == '\r' {
        v.drop_last()
    } else {
        v
    };
    let l2 = quitar_cr(l);
    assert(l2 =~= k + seq!['='] + v2) by {
        if v.len() > 0 {
            assert(l.last() == v.last());
        } else {
            assert(l.last() == '=');
        }
    }
    assert(sin_espacios_finales(v2) == sin_espacios_finales(v)) by {
        if v.len() > 0 && v.last() == '\r' {
            assert(es_espacio('\r'));
        }
    }
    assert(sin_espacios_iniciales(l2) == l2) by {
        if k.len() > 0 {
            assert(l2[0] == k[0]);
        } else {
            assert(l2[0] == '=');
        }
    }
    lema_finales_concat(k, '=', v2);
    let w = sin_espacios_finales(v);
    let t = k + seq!['='] + w;
    assert(recortar(l2) == t);
    assert(t.len() > 0 && t[0] != '#') by {
        if k.len() > 0 {
            assert(t[0] == k[0]);
        } else {
            assert(t[0] == '=');
        }
    }
    assert forall|i: int| 0 <= i < k.len() implies t[i] != '=' by {
        assert(t[i] == k[i]);
        if k[i] == '=' {
            assert(contiene(k, '='));
        }
    }
    assert(t[k.len() as int] == '=');
    lema_posicion_unica(t, '=', k.len() as int);
    assert(t.take(k.len() as int) =~= k);
    assert(t.skip(k.len() + 1int) =~= w);
    lema_recortar_sin_bordes(k);
    lema_recortar_finales(v);
}

proof fn lema_cuerpo_recortado(s: Seq<Entrada>)
    requires
        ordenada(s),
        entradas_escribibles(s),
    ensures
        procesar(Map::empty(), lineas(cuerpo(s))) == recortar_valores(como_mapa(s)),
        cuerpo(s).len() == 0 || cuerpo(s).last() == '\n',
    decreases s.len(),
{
    if s.len() == 0 {
        assert(lineas(Seq::<char>::empty()) == Seq::<Seq<char>>::empty());
        lema_vacia();
        assert(recortar_valores(como_mapa(s)) =~= Map::<Seq<char>, Seq<char>>::empty());
    } else {
        let previa = s.drop_last();
        let e = s.last();
        assert(ordenada(previa));
        assert forall|i: int| 0 <= i < previa.len() implies clave_canonica(#[trigger] previa[i].0)
            && !contiene(previa[i].1, '\n') by {
            assert(previa[i] == s[i]);
        }
        assert(entradas_escribibles(previa));
        lema_cuerpo_recortado(previa);
        assert(clave_canonica(s[s.len() - 1].0));
        lema_linea_recortada(e);
        let c = cuerpo(previa);
        let ln = linea_entrada(e) + seq!['\n'];
        assert(cuerpo(s) == c + ln);
        lema_lineas_concat(c, ln);
        lema_procesar_concat(Map::empty(), lineas(c), lineas(ln));
        let l2 = quitar_cr(linea_entrada(e));
        let r0 = recortar_valores(como_mapa(previa));
        assert(procesar(r0, seq![l2]) == aplicar_linea(procesar(r0, seq![l2].drop_last()), l2));
        assert(seq![l2].drop_last() == Seq::<Seq<char>>::empty());
        assert forall|j: int| 0 <= j < previa.len() implies precede(#[trigger] previa[j].0, e.0) by {
            assert(previa[j] == s[j]);
        }
        lema_insertar_nueva(previa, previa.len() as int, e);
        assert(previa.insert(previa.len() as int, e) == s);
        assert(recortar_valores(como_mapa(previa).insert(e.0, e.1)) =~= r0.insert(e.0, recortar(e.1)));
    }
}

/// Each entry of a sorted list whose map the file can hold can be written.
pub proof fn lema_entradas_escribibles(s: Seq<Entrada>)
    requires
        ordenada(s),
        mapa_escribible(como_mapa(s)),
    ensures
        entradas_escribibles(s),
{
    assert forall|i: int| 0 <= i < s.len() implies (clave_canonica(#[trigger] s[i].0) && !contiene(
        s[i].1,
        '\n',
    )) by {
        lema_entrada_escribible(s, i);
    }
    assert(entradas_escribibles(s));
}

proof fn lema_entrada_escribible(s: Seq<Entrada>, i: int)
    requires
        ordenada(s),
        mapa_escribible(como_mapa(s)),
        0 <= i < s.len(),
    ensures
        clave_canonica(s[i].0),
        !contiene(s[i].1, '\n'),
{
    crate::mapa::lema_consulta(s, i);
    let k = s[i].0;
    assert(como_mapa(s).dom().contains(k));
}

/// Writing the entries and reading the text back gives each key its value
/// trimmed, for keys without surrounding whitespace, a line break, `=` or a
/// leading `#`, and values without a line break.
pub proof fn ley_ida_y_vuelta_recortada(s: Seq<Entrada>)
    requires
        ordenada(s),
        entradas_escribibles(s),
    ensures
        mapa_de_texto(texto_archivo(s)) == recortar_valores(como_mapa(s)),
{
    lema_encabezado();
    let h = ENCABEZADO_USUARIO@;
    lema_lineas_concat(h, cuerpo(s));
    lema_procesar_concat(Map::empty(), lineas(h), lineas(cuerpo(s)));
    lema_comentarios(Map::empty(), h);
    lema_cuerpo_recortado(s);
}

/// A trimmed text has no whitespace at either end.
pub proof fn lema_recortado_sin_bordes(v: Seq<char>)
    ensures
        sin_bordes(recortar(v)),
        recortar(recortar(v)) == recortar(v),
    decreases v.len(),
{
    let i = sin_espacios_iniciales(v);
    assert(i.len() == 0 || !es_espacio(i[0])) by {
        lema_iniciales_primero(v);
    }
    let t = sin_espacios_finales(i);
    assert(t.len() == 0 || !es_espacio(t.last())) by {
        lema_finales_ultimo(i);
    }
    if i.len() > 0 {
        lema_finales_primero(i);
    }
    lema_recortar_sin_bordes(t);
}

proof fn lema_iniciales_primero(v: Seq<char>)
    ensures
        sin_espacios_iniciales(v).len() == 0 || !es_espacio(sin_espacios_iniciales(v)[0]),
    decreases v.len(),
{
    if v.len() > 0 && es_espacio(v[0]) {
        lema_iniciales_primero(v.drop_first());
    }
}

proof fn lema_finales_ultimo(v: Seq<char>)
    ensures
        sin_espacios_finales(v).len() == 0 || !es_espacio(sin_espacios_finales(v).last()),
    decreases v.len(),
{
    if v.len() > 0 && es_espacio(v.last()) {
        lema_finales_ultimo(v.drop_last());
    }
}

/// A value saved under a key is read back from the written file trimmed,
/// and saving keeps the store writable: for a key that survives a write and
/// a read and a value without a line break.
pub proof fn ley_valor_guardado_leido(m: Map<Seq<char>, Seq<char>>, k: Seq<char>, v: Seq<char>)
    requires
        mapa_escribible(m),
        clave_canonica(k),
        !contiene(v, '\n'),
    ensures
        mapa_escribible(m.insert(k, v)),
        recortar_valores(m.insert(k, v)).dom().contains(k),
        recortar_valores(m.insert(k, v))[k] == recortar(v),
        recortar_valores(m.insert(k, v)) == recortar_valores(m).insert(k, recortar(v)),
{
    assert(recortar_valores(m.insert(k, v)) =~= recortar_valores(m).insert(k, recortar(v)));
}

// ------------------------------------------------------------------
// Reading and writing
// ------------------------------------------------------------------

/// Reads the text of a settings file.
pub fn leer_mapa(texto: &str) -> (m: MapaUsuario)
    ensures
        m@ == mapa_de_texto(texto@),
{
    let v = a_caracteres(texto);
    let ls = dividir_lineas(v.as_slice());
    let ghost lineas_t = lineas(v@);
    let mut m = MapaUsuario::nuevo();
    let n = ls.len();
    assert(lineas_t.take(0) == Seq::<Seq<char>>::empty());
    for i in 0..n
        invariant
            n == ls@.len() == lineas_t.len(),
            lineas_t == lineas(texto@),
            forall|k: int| 0 <= k < ls@.len() ==> #[trigger] ls@[k]@ == lineas_t[k],
            m@ == procesar(Map::empty(), lineas_t.take(i as int)),
    {
        let linea = &ls[i];
        assert(linea@ == lineas_t[i as int]);
        assert(lineas_t.take(i + 1).drop_last() == lineas_t.take(i as int));
        let t = recortar_vec(linea.as_slice());
        if t.len() > 0 && t[0] != '#' {
            let p = buscar(t.as_slice(), '=', 0);
            assert(t@.subrange(0, t@.len() as int) == t@);
            if p < t.len() {
                let k = copiar_rango(t.as_slice(), 0, p);
                let val = copiar_rango(t.as_slice(), p + 1, t.len());
                assert(k@ == t@.take(p as int));
                assert(val@ == t@.skip(p + 1));
                let kr = recortar_vec(k.as_slice());
                let vr = recortar_vec(val.as_slice());
                m.insertar(a_cadena(kr.as_slice()), a_cadena(vr.as_slice()));
            }
        }
    }
    assert(lineas_t.take(n as int) == lineas_t);
    m
}

/// The full text written for `m`: the comment header, then one
/// `clave=valor` line per entry in increasing key order.
pub fn contenido_archivo(m: &MapaUsuario) -> (r: String)
    ensures
        r@ == texto_archivo(m.lista()),
        ordenada(m.lista()),
        entradas_canonicas(m.lista()) ==> mapa_de_texto(r@) == m@,
        mapa_escribible(m@) ==> mapa_de_texto(r@) == recortar_valores(m@),
{
    let es = m.entradas();
    let mut r = String::from_str(ENCABEZADO_USUARIO);
    let n = es.len();
    let ghost s = m.lista();
    assert(s.take(0) == Seq::<Entrada>::empty());
    for i in 0..n
        invariant
            n == es@.len() == s.len(),
            s == m.lista(),
            s == crate::mapa::vista_entradas(es@),
            r@ == ENCABEZADO_USUARIO@ + cuerpo(s.take(i as int)),
    {
        let e = &es[i];
        let k = a_caracteres(e.0.as_str());
        let v = a_caracteres(e.1.as_str());
        anexar(&mut r, k.as_slice());
        empujar(&mut r, '=');
        anexar(&mut r, v.as_slice());
        empujar(&mut r, '\n');
        proof {
            assert(s.take(i + 1).drop_last() == s.take(i as int));
            assert(s.take(i + 1).last() == s[i as int]);
            assert(s[i as int] == (e.0@, e.1@));
        }
    }
    assert(s.take(n as int) == s);
    proof {
        if entradas_canonicas(s) {
            ley_ida_y_vuelta(s);
        }
        if mapa_escribible(m@) {
            lema_entradas_escribibles(s);
            ley_ida_y_vuelta_recortada(s);
        }
    }
    r
}

// ------------------------------------------------------------------
// Lines as a list of pairs
// ------------------------------------------------------------------

/// The `clave=valor` pair of a line, if it holds one.
pub open spec fn par_de_linea(l: Seq<char>) -> Option<Entrada> {
    let t = recortar(l);
    if t.len() == 0 || t[0] == '#' {
        None
    } else {
        let p = posicion(t, '=');
        if p >= t.len() {
            None
        } else {
            Some((recortar(t.take(p as int)), recortar(t.skip(p + 1int))))
        }
    }
}

pub open spec fn pares_de_lineas(ls: Seq<Seq<char>>) -> Seq<Entrada>
    decreases ls.len(),
{
    if ls.len() == 0 {
        seq![]
    } else {
        let previos = pares_de_lineas(ls.drop_last());
        match par_de_linea(ls.last()) {
            Some(x) => previos.push(x),
            None => previos,
        }
    }
}

/// The pairs of a text in the settings format, in order, repeats kept.
pub open spec fn pares_texto(s: Seq<char>) -> Seq<Entrada> {
    pares_de_lineas(lineas(s))
}

/// Reading lines into a map is storing their pairs in order.
pub proof fn lema_procesar_pares(m: Map<Seq<char>, Seq<char>>, ls: Seq<Seq<char>>)
    ensures
        procesar(m, ls) == con_cambios(m, pares_de_lineas(ls)),
    decreases ls.len(),
{
    if ls.len() > 0 {
        lema_procesar_pares(m, ls.drop_last());
        let previos = pares_de_lineas(ls.drop_last());
        match par_de_linea(ls.last()) {
            Some(x) => {
                assert(previos.push(x).drop_last() == previos);
            },
            None => {},
        }
    }
}

/// Writing canonical entries as lines and reading them back stores them
/// in order.
pub proof fn lema_cuerpo_cambios(m: Map<Seq<char>, Seq<char>>, s: Seq<Entrada>)
    requires
        entradas_canonicas(s),
    ensures
        procesar(m, lineas(cuerpo(s))) == con_cambios(m, s),
        cuerpo(s).len() == 0 || cuerpo(s).last() == '\n',
    decreases s.len(),
{
    if s.len() == 0 {
        assert(lineas(Seq::<char>::empty()) == Seq::<Seq<char>>::empty());
    } else {
        let previa = s.drop_last();
        let e = s.last();
        assert(entradas_canonicas(previa)) by {
            assert forall|i: int| 0 <= i < previa.len() implies clave_canonica(#[trigger] previa[i].0)
                && valor_canonico(previa[i].1) by {
                assert(previa[i] == s[i]);
            }
        }
        lema_cuerpo_cambios(m, previa);
        assert(clave_canonica(s[s.len() - 1].0));
        lema_linea_entrada(e);
        let c = cuerpo(previa);
        let ln = linea_entrada(e) + seq!['\n'];
        assert(cuerpo(s) == c + ln);
        lema_lineas_concat(c, ln);
        lema_procesar_concat(m, lineas(c), lineas(ln));
        assert(procesar(con_cambios(m, previa), seq![linea_entrada(e)]) == aplicar_linea(
            procesar(con_cambios(m, previa), seq![linea_entrada(e)].drop_last()),
            linea_entrada(e),
        ));
        assert(seq![linea_entrada(e)].drop_last() == Seq::<Seq<char>>::empty());
    }
}

/// The pairs of a text in the settings format, in order.
pub fn pares_de_texto(texto: &str) -> (r: Vec<(String, String)>)
    ensures
        vista_entradas(r@) == pares_texto(texto@),
{
    let v = a_caracteres(texto);
    let ls = dividir_lineas(v.as_slice());
    let ghost lineas_t = lineas(v@);
    let mut r: Vec<(String, String)> = Vec::new();
    let n = ls.len();
    assert(lineas_t.take(0) == Seq::<Seq<char>>::empty());
    assert(vista_entradas(r@) == Seq::<Entrada>::empty());
    for i in 0..n
        invariant
            n == ls@.len() == lineas_t.len(),
            lineas_t == lineas(texto@),
            forall|k: int| 0 <= k < ls@.len() ==> #[trigger] ls@[k]@ == lineas_t[k],
            vista_entradas(r@) == pares_de_lineas(lineas_t.take(i as int)),
    {
        let linea = &ls[i];
        assert(linea@ == lineas_t[i as int]);
        assert(lineas_t.take(i + 1).drop_last() == lineas_t.take(i as int));
        let ghost antes = r@;
        let t = recortar_vec(linea.as_slice());
        if t.len() > 0 && t[0] != '#' {
            let p = buscar(t.as_slice(), '=', 0);
            assert(t@.subrange(0, t@.len() as int) == t@);
            if p < t.len() {
                let k = copiar_rango(t.as_slice(), 0, p);
                let val = copiar_rango(t.as_slice(), p + 1, t.len());
                assert(k@ == t@.take(p as int));
                assert(val@ == t@.skip(p + 1));
                let kr = recortar_vec(k.as_slice());
                let vr = recortar_vec(val.as_slice());
                let par = (a_cadena(kr.as_slice()), a_cadena(vr.as_slice()));
                r.push(par);
                assert(vista_entradas(r@) =~= vista_entradas(antes).push((kr@, vr@)));
            }
        }
    }
    assert(lineas_t.take(n as int) == lineas_t);
    r
}

} // verus!
