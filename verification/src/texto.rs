//! Text primitives shared by the settings, catalog and theme formats:
//! conversion between `str`/`String` and character vectors, Unicode
//! whitespace trimming, searching, splitting into lines and fields, and a
//! code-point lexicographic order on character sequences.

use vstd::prelude::*;

verus! {

/// Unicode `White_Space` property, the set that `char::is_whitespace` uses.
pub open spec fn es_espacio(c: char) -> bool {
    let n = c as u32;
    (9 <= n <= 13) || n == 32 || n == 0x85 || n == 0xA0 || n == 0x1680 || (0x2000 <= n <= 0x200A)
        || n == 0x2028 || n == 0x2029 || n == 0x202F || n == 0x205F || n == 0x3000
}

pub fn es_espacio_exec(c: char) -> (r: bool)
    ensures
        r == es_espacio(c),
{
    let n = c as u32;
    (9 <= n && n <= 13) || n == 32 || n == 0x85 || n == 0xA0 || n == 0x1680 || (0x2000 <= n && n
        <= 0x200A) || n == 0x2028 || n == 0x2029 || n == 0x202F || n == 0x205F || n == 0x3000
}

/// `s` without its leading whitespace.
pub open spec fn sin_espacios_iniciales(s: Seq<char>) -> Seq<char>
    decreases s.len(),
{
    if s.len() > 0 && es_espacio(s[0]) {
        sin_espacios_iniciales(s.drop_first())
    } else {
        s
    }
}

/// `s` without its trailing whitespace.
pub open spec fn sin_espacios_finales(s: Seq<char>) -> Seq<char>
    decreases s.len(),
{
    if s.len() > 0 && es_espacio(s.last()) {
        sin_espacios_finales(s.drop_last())
    } else {
        s
    }
}

/// `str::trim`: whitespace removed from both ends.
pub open spec fn recortar(s: Seq<char>) -> Seq<char> {
    sin_espacios_finales(sin_espacios_iniciales(s))
}

/// Index of the first occurrence of `c` in `s`, or `s.len()` when absent.
pub open spec fn posicion(s: Seq<char>, c: char) -> nat
    decreases s.len(),
{
    if s.len() == 0 {
        0
    } else if s[0] == c {
        0
    } else {
        1 + posicion(s.drop_first(), c)
    }
}

pub open spec fn contiene(s: Seq<char>, c: char) -> bool {
    exists|i: int| 0 <= i < s.len() && s[i] == c
}

/// `p` is a prefix of `s`.
pub open spec fn es_prefijo(p: Seq<char>, s: Seq<char>) -> bool {
    p.len() <= s.len() && s.take(p.len() as int) == p
}

/// `p` is a suffix of `s`.
pub open spec fn es_sufijo(p: Seq<char>, s: Seq<char>) -> bool {
    p.len() <= s.len() && s.skip(s.len() - p.len()) == p
}

/// A line as `str::lines` yields it: a `\r` right before the `\n` is dropped.
pub open spec fn quitar_cr(l: Seq<char>) -> Seq<char> {
    if l.len() > 0 && l.last() == '\r' {
        l.drop_last()
    } else {
        l
    }
}

/// `str::lines`: pieces between `\n`, with a `\r` before each `\n`
/// dropped; a final line ending is optional and yields no empty line.
pub open spec fn lineas(s: Seq<char>) -> Seq<Seq<char>>
    decreases s.len(),
{
    if s.len() == 0 {
        seq![]
    } else {
        let p = posicion(s, '\n');
        if p >= s.len() {
            seq![s]
        } else {
            seq![quitar_cr(s.take(p as int))] + lineas(s.skip(p + 1int))
        }
    }
}

/// `str::split(c)`: the pieces between occurrences of `c` (always at least one).
pub open spec fn partes(s: Seq<char>, c: char) -> Seq<Seq<char>>
    decreases s.len(),
{
    let p = posicion(s, c);
    if p >= s.len() {
        seq![s]
    } else {
        seq![s.take(p as int)] + partes(s.skip(p + 1int), c)
    }
}

/// Strict order of `String` comparison: lexicographic by code point.
pub open spec fn precede(a: Seq<char>, b: Seq<char>) -> bool
    decreases a.len(),
{
    if a.len() == 0 {
        b.len() > 0
    } else if b.len() == 0 {
        false
    } else if a[0] != b[0] {
        a[0] < b[0]
    } else {
        precede(a.drop_first(), b.drop_first())
    }
}

pub proof fn lema_posicion(s: Seq<char>, c: char)
    ensures
        posicion(s, c) <= s.len(),
        forall|k: int| 0 <= k < posicion(s, c) ==> s[k] != c,
        posicion(s, c) < s.len() ==> s[posicion(s, c) as int] == c,
        posicion(s, c) == s.len() <==> !contiene(s, c),
    decreases s.len(),
{
    if s.len() > 0 && s[0] != c {
        lema_posicion(s.drop_first(), c);
        assert forall|k: int| 0 <= k < posicion(s, c) implies s[k] != c by {
            if k > 0 {
                assert(s[k] == s.drop_first()[k - 1]);
            }
        }
        if contiene(s, c) {
            let k = choose|k: int| 0 <= k < s.len() && s[k] == c;
            assert(s.drop_first()[k - 1] == c);
        }
        if contiene(s.drop_first(), c) {
            let k = choose|k: int| 0 <= k < s.drop_first().len() && s.drop_first()[k] == c;
            assert(s[k + 1] == c);
        }
    }
}

pub proof fn lema_posicion_unica(s: Seq<char>, c: char, p: int)
    requires
        0 <= p <= s.len(),
        forall|k: int| 0 <= k < p ==> s[k] != c,
        p < s.len() ==> s[p] == c,
    ensures
        posicion(s, c) == p,
    decreases p,
{
    if p > 0 {
        assert(s[0] != c);
        let t = s.drop_first();
        assert forall|k: int| 0 <= k < p - 1 implies t[k] != c by {
            assert(t[k] == s[k + 1]);
        }
        lema_posicion_unica(t, c, p - 1);
    }
}

// ------------------------------------------------------------------
// Conversions
// ------------------------------------------------------------------

/// `String::push`: appends `c` at the end of `s`. The contract claims what
/// the std documentation says: the text afterwards is the text before with
/// `c` added at its end.
#[verifier::external_body]
pub(crate) fn empujar(s: &mut String, c: char)
    ensures
        final(s)@ == old(s)@.push(c),
{
    s.push(c);
}

pub fn a_caracteres(s: &str) -> (v: Vec<char>)
    ensures
        v@ == s@,
{
    let mut v: Vec<char> = Vec::new();
    for c in it: s.chars()
        invariant
            v@ == it.seq().take(it.index() as int),
            it.seq() == s@,
    {
        v.push(c);
    }
    v
}

pub fn a_cadena(v: &[char]) -> (s: String)
    ensures
        s@ == v@,
{
    let mut s = String::new();
    let n = v.len();
    for i in 0..n
        invariant
            n == v@.len(),
            s@ == v@.take(i as int),
    {
        empujar(&mut s, v[i]);
        assert(v@.take(i + 1) == v@.take(i as int).push(v@[i as int]));
    }
    assert(v@.take(n as int) == v@);
    s
}

/// Appends the characters of `v` to `s`.
pub fn anexar(s: &mut String, v: &[char])
    ensures
        final(s)@ == old(s)@ + v@,
{
    let n = v.len();
    let ghost inicial = s@;
    for i in 0..n
        invariant
            n == v@.len(),
            s@ == inicial + v@.take(i as int),
    {
        empujar(s, v[i]);
        assert(v@.take(i + 1) == v@.take(i as int).push(v@[i as int]));
    }
    assert(v@.take(n as int) == v@);
}

pub fn copiar_rango(v: &[char], a: usize, b: usize) -> (r: Vec<char>)
    requires
        a <= b <= v.len(),
    ensures
        r@ == v@.subrange(a as int, b as int),
{
    let mut r: Vec<char> = Vec::new();
    let mut i = a;
    while i < b
        invariant
            a <= i <= b <= v.len(),
            r@ == v@.subrange(a as int, i as int),
        decreases b - i,
    {
        r.push(v[i]);
        assert(v@.subrange(a as int, i + 1) == v@.subrange(a as int, i as int).push(v@[i as int]));
        i += 1;
    }
    r
}

pub fn iguales(a: &[char], b: &[char]) -> (r: bool)
    ensures
        r == (a@ == b@),
{
    if a.len() != b.len() {
        return false;
    }
    let n = a.len();
    for i in 0..n
        invariant
            n == a@.len(),
            n == b@.len(),
            forall|k: int| 0 <= k < i ==> a@[k] == b@[k],
    {
        if a[i] != b[i] {
            return false;
        }
    }
    assert(a@ =~= b@);
    true
}

// ------------------------------------------------------------------
// Trimming
// ------------------------------------------------------------------

/// Indices `(i, j)` with `recortar(v) == v[i..j]`.
pub fn limites_recorte(v: &[char]) -> (r: (usize, usize))
    ensures
        r.0 <= r.1 <= v.len(),
        v@.subrange(r.0 as int, r.1 as int) == recortar(v@),
{
    let n = v.len();
    let mut i: usize = 0;
    assert(v@.subrange(0, n as int) == v@);
    while i < n && es_espacio_exec(v[i])
        invariant
            i <= n == v@.len(),
            sin_espacios_iniciales(v@) == sin_espacios_iniciales(v@.subrange(i as int, n as int)),
        decreases n - i,
    {
        let ghost t = v@.subrange(i as int, n as int);
        assert(t.drop_first() == v@.subrange(i + 1, n as int));
        i += 1;
    }
    assert(sin_espacios_iniciales(v@.subrange(i as int, n as int)) == v@.subrange(
        i as int,
        n as int,
    ));
    let mut j: usize = n;
    while j > i && es_espacio_exec(v[j - 1])
        invariant
            i <= j <= n == v@.len(),
            recortar(v@) == sin_espacios_finales(v@.subrange(i as int, j as int)),
        decreases j,
    {
        let ghost t = v@.subrange(i as int, j as int);
        assert(t.drop_last() == v@.subrange(i as int, j - 1));
        j -= 1;
    }
    (i, j)
}

pub fn recortar_vec(v: &[char]) -> (r: Vec<char>)
    ensures
        r@ == recortar(v@),
{
    let (i, j) = limites_recorte(v);
    copiar_rango(v, i, j)
}

/// `str::trim` followed by `to_string`.
pub fn recortar_cadena(s: &str) -> (r: String)
    ensures
        r@ == recortar(s@),
{
    let v = a_caracteres(s);
    let t = recortar_vec(v.as_slice());
    a_cadena(t.as_slice())
}

// ------------------------------------------------------------------
// Searching and splitting
// ------------------------------------------------------------------

/// First index at or after `desde` holding `c`, or `v.len()`.
pub fn buscar(v: &[char], c: char, desde: usize) -> (r: usize)
    requires
        desde <= v.len(),
    ensures
        desde <= r <= v.len(),
        r - desde == posicion(v@.subrange(desde as int, v.len() as int), c),
{
    let n = v.len();
    let mut i = desde;
    while i < n && v[i] != c
        invariant
            desde <= i <= n == v@.len(),
            forall|k: int| desde <= k < i ==> v@[k] != c,
        decreases n - i,
    {
        i += 1;
    }
    let ghost t = v@.subrange(desde as int, n as int);
    assert forall|k: int| 0 <= k < i - desde implies t[k] != c by {
        assert(t[k] == v@[desde + k]);
    }
    proof {
        lema_posicion_unica(t, c, i - desde);
    }
    i
}

pub fn contiene_exec(v: &[char], c: char) -> (r: bool)
    ensures
        r == contiene(v@, c),
{
    let p = buscar(v, c, 0);
    proof {
        assert(v@.subrange(0, v@.len() as int) == v@);
        lema_posicion(v@, c);
    }
    p < v.len()
}

/// Lines of `v` as `str::lines` yields them.
pub fn dividir_lineas(v: &[char]) -> (r: Vec<Vec<char>>)
    ensures
        r@.len() == lineas(v@).len(),
        forall|k: int| 0 <= k < r@.len() ==> #[trigger] r@[k]@ == lineas(v@)[k],
{
    let n = v.len();
    let mut r: Vec<Vec<char>> = Vec::new();
    let mut i: usize = 0;
    let ghost hechas: Seq<Seq<char>> = seq![];
    assert(v@.subrange(0, n as int) == v@);
    while i < n
        invariant
            i <= n == v@.len(),
            r@.len() == hechas.len(),
            forall|k: int| 0 <= k < r@.len() ==> #[trigger] r@[k]@ == hechas[k],
            lineas(v@) == hechas + lineas(v@.subrange(i as int, n as int)),
        decreases n - i,
    {
        let ghost t = v@.subrange(i as int, n as int);
        let j = buscar(v, '\n', i);
        if j == n {
            let linea = copiar_rango(v, i, n);
            proof {
                assert(lineas(t) == seq![t]);
                hechas = hechas.push(t);
                assert(lineas(v@.subrange(n as int, n as int)) == Seq::<Seq<char>>::empty());
            }
            r.push(linea);
            i = n;
        } else {
            let mut linea = copiar_rango(v, i, j);
            if linea.len() > 0 && linea[linea.len() - 1] == '\r' {
                linea.pop();
            }
            proof {
                assert(t.take(j - i) == v@.subrange(i as int, j as int));
                assert(t.skip(j - i + 1) == v@.subrange(j + 1, n as int));
                assert(lineas(t) == seq![quitar_cr(t.take(j - i))] + lineas(t.skip(j - i + 1)));
                hechas = hechas.push(quitar_cr(t.take(j - i)));
                assert(lineas(v@) == hechas + lineas(v@.subrange(j + 1, n as int)));
            }
            r.push(linea);
            i = j + 1;
        }
    }
    assert(lineas(v@.subrange(n as int, n as int)) == Seq::<Seq<char>>::empty());
    assert(hechas + Seq::<Seq<char>>::empty() == hechas);
    r
}

/// Fields of `v` separated by `c`, as `str::split(c)` yields them.
pub fn dividir_en(v: &[char], c: char) -> (r: Vec<Vec<char>>)
    ensures
        r@.len() == partes(v@, c).len(),
        forall|k: int| 0 <= k < r@.len() ==> #[trigger] r@[k]@ == partes(v@, c)[k],
{
    let n = v.len();
    let mut r: Vec<Vec<char>> = Vec::new();
    let mut i: usize = 0;
    let ghost hechas: Seq<Seq<char>> = seq![];
    assert(v@.subrange(0, n as int) == v@);
    loop
        invariant
            i <= n == v@.len(),
            r@.len() == hechas.len(),
            forall|k: int| 0 <= k < r@.len() ==> #[trigger] r@[k]@ == hechas[k],
            partes(v@, c) == hechas + partes(v@.subrange(i as int, n as int), c),
        ensures
            r@.len() == partes(v@, c).len(),
            forall|k: int| 0 <= k < r@.len() ==> #[trigger] r@[k]@ == partes(v@, c)[k],
        decreases n - i,
    {
        let ghost t = v@.subrange(i as int, n as int);
        let j = buscar(v, c, i);
        if j == n {
            let pieza = copiar_rango(v, i, n);
            proof {
                assert(partes(t, c) == seq![t]);
                hechas = hechas.push(t);
            }
            r.push(pieza);
            return r;
        } else {
            let pieza = copiar_rango(v, i, j);
            proof {
                assert(t.take(j - i) == v@.subrange(i as int, j as int));
                assert(t.skip(j - i + 1) == v@.subrange(j + 1, n as int));
                assert(partes(t, c) == seq![t.take(j - i)] + partes(t.skip(j - i + 1), c));
                hechas = hechas.push(t.take(j - i));
                assert(partes(v@, c) == hechas + partes(v@.subrange(j + 1, n as int), c));
            }
            r.push(pieza);
            i = j + 1;
        }
    }
}

pub fn empieza_con(s: &[char], p: &[char]) -> (r: bool)
    ensures
        r == es_prefijo(p@, s@),
{
    if p.len() > s.len() {
        return false;
    }
    let n = p.len();
    for i in 0..n
        invariant
            n == p@.len() <= s@.len(),
            forall|k: int| 0 <= k < i ==> s@[k] == p@[k],
    {
        if s[i] != p[i] {
            assert(s@.take(n as int)[i as int] != p@[i as int]);
            return false;
        }
    }
    assert(s@.take(n as int) =~= p@);
    true
}

pub fn termina_con(s: &[char], p: &[char]) -> (r: bool)
    ensures
        r == es_sufijo(p@, s@),
{
    if p.len() > s.len() {
        return false;
    }
    let n = p.len();
    let total = s.len();
    let d = total - n;
    let mut i: usize = 0;
    while i < n
        invariant
            n == p@.len(),
            total == s@.len(),
            d + n == total,
            i <= n,
            forall|k: int| 0 <= k < i ==> s@[d + k] == p@[k],
        decreases n - i,
    {
        if s[d + i] != p[i] {
            assert(s@.skip(d as int)[i as int] != p@[i as int]);
            return false;
        }
        i += 1;
    }
    assert(s@.skip(d as int) =~= p@);
    true
}

// ------------------------------------------------------------------
// Order
// ------------------------------------------------------------------

pub proof fn lema_precede_irreflexivo(a: Seq<char>)
    ensures
        !precede(a, a),
    decreases a.len(),
{
    if a.len() > 0 {
        lema_precede_irreflexivo(a.drop_first());
    }
}

pub proof fn lema_precede_transitivo(a: Seq<char>, b: Seq<char>, c: Seq<char>)
    requires
        precede(a, b),
        precede(b, c),
    ensures
        precede(a, c),
    decreases a.len(),
{
    if a.len() > 0 && b.len() > 0 && c.len() > 0 {
        if a[0] == b[0] && b[0] == c[0] {
            lema_precede_transitivo(a.drop_first(), b.drop_first(), c.drop_first());
        }
    }
}

pub proof fn lema_precede_total(a: Seq<char>, b: Seq<char>)
    requires
        a != b,
    ensures
        precede(a, b) || precede(b, a),
    decreases a.len(),
{
    if a.len() > 0 && b.len() > 0 && a[0] == b[0] {
        if a.drop_first() == b.drop_first() {
            assert(a =~= seq![a[0]] + a.drop_first());
            assert(b =~= seq![b[0]] + b.drop_first());
        }
        lema_precede_total(a.drop_first(), b.drop_first());
    } else if a.len() == 0 && b.len() == 0 {
        assert(a =~= b);
    }
}

pub proof fn lema_precede_asimetrico(a: Seq<char>, b: Seq<char>)
    requires
        precede(a, b),
    ensures
        !precede(b, a),
{
    if precede(b, a) {
        lema_precede_transitivo(a, b, a);
        lema_precede_irreflexivo(a);
    }
}

/// Result of comparing two character sequences.
#[derive(PartialEq, Eq, Structural, Clone, Copy, Debug)]
pub enum Comparacion {
    Antes,
    Igual,
    Despues,
}

pub fn comparar(a: &[char], b: &[char]) -> (r: Comparacion)
    ensures
        r == Comparacion::Antes <==> precede(a@, b@),
        r == Comparacion::Igual <==> a@ == b@,
        r == Comparacion::Despues <==> precede(b@, a@),
{
    let mut i: usize = 0;
    assert(a@.skip(0) =~= a@);
    assert(b@.skip(0) =~= b@);
    while i < a.len() && i < b.len() && a[i] == b[i]
        invariant
            i <= a@.len(),
            i <= b@.len(),
            a@.take(i as int) == b@.take(i as int),
            precede(a@, b@) == precede(a@.skip(i as int), b@.skip(i as int)),
            precede(b@, a@) == precede(b@.skip(i as int), a@.skip(i as int)),
        decreases a.len() - i,
    {
        assert(a@.skip(i as int).drop_first() == a@.skip(i + 1));
        assert(b@.skip(i as int).drop_first() == b@.skip(i + 1));
        assert(a@.take(i + 1) == a@.take(i as int).push(a@[i as int]));
        assert(b@.take(i + 1) == b@.take(i as int).push(b@[i as int]));
        i += 1;
    }
    proof {
        lema_precede_irreflexivo(a@);
        if precede(a@, b@) {
            lema_precede_asimetrico(a@, b@);
        }
    }
    if i == a.len() && i == b.len() {
        assert(a@ =~= a@.take(i as int));
        assert(b@ =~= b@.take(i as int));
        Comparacion::Igual
    } else if i == a.len() {
        assert(a@.skip(i as int).len() == 0);
        assert(a@ != b@);
        Comparacion::Antes
    } else if i == b.len() {
        assert(b@.skip(i as int).len() == 0);
        assert(a@ != b@);
        Comparacion::Despues
    } else {
        assert(a@.skip(i as int)[0] == a@[i as int]);
        assert(b@.skip(i as int)[0] == b@[i as int]);
        assert(a@[i as int] != b@[i as int]);
        if a[i] < b[i] {
            Comparacion::Antes
        } else {
            Comparacion::Despues
        }
    }
}

} // verus!
