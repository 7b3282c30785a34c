//! The user settings store: a map from key to value, kept sorted by key,
//! read from and written to the `clave=valor` text format of the user
//! settings file.

use vstd::prelude::*;
use crate::texto::{
    a_caracteres, a_cadena, comparar, contiene, contiene_exec, copiar_rango, empieza_con, es_prefijo,
    lema_precede_irreflexivo, lema_precede_transitivo, precede, Comparacion,
};

verus! {

pub type Entrada = (Seq<char>, Seq<char>);

/// Keys strictly increasing (hence unique).
pub open spec fn ordenada(s: Seq<Entrada>) -> bool {
    forall|i: int, j: int| 0 <= i < j < s.len() ==> precede(#[trigger] s[i].0, #[trigger] s[j].0)
}

pub open spec fn tiene_clave(s: Seq<Entrada>, k: Seq<char>) -> bool {
    exists|i: int| 0 <= i < s.len() && #[trigger] s[i].0 == k
}

/// The map that a list of entries with unique keys denotes.
pub open spec fn como_mapa(s: Seq<Entrada>) -> Map<Seq<char>, Seq<char>> {
    Map::new(
        |k: Seq<char>| tiene_clave(s, k),
        |k: Seq<char>| s[choose|i: int| 0 <= i < s.len() && #[trigger] s[i].0 == k].1,
    )
}

pub proof fn lema_unica(s: Seq<Entrada>, i: int, j: int)
    requires
        ordenada(s),
        0 <= i < s.len(),
        0 <= j < s.len(),
        i != j,
    ensures
        s[i].0 != s[j].0,
{
    if i < j {
        assert(precede(s[i].0, s[j].0));
        lema_precede_irreflexivo(s[i].0);
    } else {
        assert(precede(s[j].0, s[i].0));
        lema_precede_irreflexivo(s[j].0);
    }
}

pub proof fn lema_consulta(s: Seq<Entrada>, i: int)
    requires
        ordenada(s),
        0 <= i < s.len(),
    ensures
        como_mapa(s).dom().contains(s[i].0),
        como_mapa(s)[s[i].0] == s[i].1,
{
    assert(tiene_clave(s, s[i].0));
    let j = choose|j: int| 0 <= j < s.len() && #[trigger] s[j].0 == s[i].0;
    if j != i {
        lema_unica(s, i, j);
    }
}

pub proof fn lema_ausente(s: Seq<Entrada>, k: Seq<char>)
    requires
        forall|i: int| 0 <= i < s.len() ==> s[i].0 != k,
    ensures
        !como_mapa(s).dom().contains(k),
{
}

/// Inserting a new key at its sorted position.
pub proof fn lema_insertar_nueva(s: Seq<Entrada>, i: int, e: Entrada)
    requires
        ordenada(s),
        0 <= i <= s.len(),
        forall|j: int| 0 <= j < i ==> precede(#[trigger] s[j].0, e.0),
        forall|j: int| i <= j < s.len() ==> precede(e.0, #[trigger] s[j].0),
    ensures
        ordenada(s.insert(i, e)),
        como_mapa(s.insert(i, e)) == como_mapa(s).insert(e.0, e.1),
{
    let t = s.insert(i, e);
    assert forall|a: int, b: int| 0 <= a < b < t.len() implies precede(
        #[trigger] t[a].0,
        #[trigger] t[b].0,
    ) by {
        if b < i {
        } else if a < i && b == i {
        } else if a < i && b > i {
            assert(t[b] == s[b - 1]);
            lema_precede_transitivo(s[a].0, e.0, s[b - 1].0);
        } else if a == i {
            assert(t[b] == s[b - 1]);
        } else {
            assert(t[a] == s[a - 1]);
            assert(t[b] == s[b - 1]);
        }
    }
    let m1 = como_mapa(t);
    let m2 = como_mapa(s).insert(e.0, e.1);
    assert forall|k: Seq<char>| #[trigger] m1.dom().contains(k) <==> m2.dom().contains(k) by {
        if k == e.0 {
            assert(t[i].0 == k);
        }
        if tiene_clave(s, k) {
            let j = choose|j: int| 0 <= j < s.len() && #[trigger] s[j].0 == k;
            if j < i {
                assert(t[j].0 == k);
            } else {
                assert(t[j + 1].0 == k);
            }
        }
        if tiene_clave(t, k) {
            let j = choose|j: int| 0 <= j < t.len() && #[trigger] t[j].0 == k;
            if j < i {
                assert(s[j].0 == k);
            } else if j > i {
                assert(s[j - 1].0 == k);
            }
        }
    }
    assert forall|k: Seq<char>| #[trigger] m1.dom().contains(k) implies m1[k] == m2[k] by {
        let j = choose|j: int| 0 <= j < t.len() && #[trigger] t[j].0 == k;
        lema_consulta(t, j);
        if j < i {
            lema_consulta(s, j);
            lema_precede_irreflexivo(e.0);
        } else if j > i {
            lema_consulta(s, j - 1);
            lema_precede_irreflexivo(e.0);
        }
    }
    assert(m1 =~= m2);
}

/// Replacing the value of an existing key.
pub proof fn lema_reemplazar(s: Seq<Entrada>, i: int, v: Seq<char>)
    requires
        ordenada(s),
        0 <= i < s.len(),
    ensures
        ordenada(s.update(i, (s[i].0, v))),
        como_mapa(s.update(i, (s[i].0, v))) == como_mapa(s).insert(s[i].0, v),
{
    let t = s.update(i, (s[i].0, v));
    assert forall|a: int, b: int| 0 <= a < b < t.len() implies precede(
        #[trigger] t[a].0,
        #[trigger] t[b].0,
    ) by {
        assert(t[a].0 == s[a].0);
        assert(t[b].0 == s[b].0);
    }
    let m1 = como_mapa(t);
    let m2 = como_mapa(s).insert(s[i].0, v);
    assert forall|k: Seq<char>| #[trigger] m1.dom().contains(k) <==> m2.dom().contains(k) by {
        if tiene_clave(s, k) {
            let j = choose|j: int| 0 <= j < s.len() && #[trigger] s[j].0 == k;
            assert(t[j].0 == k);
        }
        if tiene_clave(t, k) {
            let j = choose|j: int| 0 <= j < t.len() && #[trigger] t[j].0 == k;
            assert(s[j].0 == k);
        }
    }
    assert forall|k: Seq<char>| #[trigger] m1.dom().contains(k) implies m1[k] == m2[k] by {
        let j = choose|j: int| 0 <= j < t.len() && #[trigger] t[j].0 == k;
        lema_consulta(t, j);
        lema_consulta(s, j);
        if j != i {
            lema_unica(s, i, j);
        }
    }
    assert(m1 =~= m2);
}

/// Removing the entry at `i`.
pub proof fn lema_quitar(s: Seq<Entrada>, i: int)
    requires
        ordenada(s),
        0 <= i < s.len(),
    ensures
        ordenada(s.remove(i)),
        como_mapa(s.remove(i)) == como_mapa(s).remove(s[i].0),
{
    let t = s.remove(i);
    assert forall|a: int, b: int| 0 <= a < b < t.len() implies precede(
        #[trigger] t[a].0,
        #[trigger] t[b].0,
    ) by {
        let a2 = if a < i { a } else { a + 1 };
        let b2 = if b < i { b } else { b + 1 };
        assert(t[a] == s[a2]);
        assert(t[b] == s[b2]);
    }
    let m1 = como_mapa(t);
    let m2 = como_mapa(s).remove(s[i].0);
    assert forall|k: Seq<char>| #[trigger] m1.dom().contains(k) <==> m2.dom().contains(k) by {
        if tiene_clave(s, k) && k != s[i].0 {
            let j = choose|j: int| 0 <= j < s.len() && #[trigger] s[j].0 == k;
            if j < i {
                assert(t[j].0 == k);
            } else {
                assert(t[j - 1].0 == k);
            }
        }
        if tiene_clave(t, k) {
            let j = choose|j: int| 0 <= j < t.len() && #[trigger] t[j].0 == k;
            let j2 = if j < i { j } else { j + 1 };
            assert(s[j2].0 == k);
            lema_unica(s, i, j2);
        }
    }
    assert forall|k: Seq<char>| #[trigger] m1.dom().contains(k) implies m1[k] == m2[k] by {
        let j = choose|j: int| 0 <= j < t.len() && #[trigger] t[j].0 == k;
        lema_consulta(t, j);
        let j2 = if j < i { j } else { j + 1 };
        assert(s[j2] == t[j]);
        lema_consulta(s, j2);
    }
    assert(m1 =~= m2);
}

pub proof fn lema_vacia()
    ensures
        como_mapa(Seq::<Entrada>::empty()) == Map::<Seq<char>, Seq<char>>::empty(),
{
    assert(como_mapa(Seq::<Entrada>::empty()) =~= Map::<Seq<char>, Seq<char>>::empty());
}

/// Which keys a filtered copy of the store keeps.
#[derive(PartialEq, Eq, Structural, Clone, Copy, Debug)]
pub enum Filtro {
    /// Keys without a `.`.
    SinPunto,
    /// Keys with a `.`.
    ConPunto,
    /// Keys that start with the given prefix.
    ConPrefijo,
    /// Keys that do not start with the given prefix.
    SinPrefijo,
}

pub open spec fn pasa(f: Filtro, p: Seq<char>, k: Seq<char>) -> bool {
    match f {
        Filtro::SinPunto => !contiene(k, '.'),
        Filtro::ConPunto => contiene(k, '.'),
        Filtro::ConPrefijo => es_prefijo(p, k),
        Filtro::SinPrefijo => !es_prefijo(p, k),
    }
}

/// The part of `m` whose keys pass the filter.
pub open spec fn filtrado(m: Map<Seq<char>, Seq<char>>, f: Filtro, p: Seq<char>) -> Map<
    Seq<char>,
    Seq<char>,
> {
    Map::new(|k: Seq<char>| m.dom().contains(k) && pasa(f, p, k), |k: Seq<char>| m[k])
}

/// The entries of `m` whose key starts with `p`, keyed by the rest of the key.
pub open spec fn sin_prefijo(m: Map<Seq<char>, Seq<char>>, p: Seq<char>) -> Map<
    Seq<char>,
    Seq<char>,
> {
    Map::new(|k: Seq<char>| m.dom().contains(p + k), |k: Seq<char>| m[p + k])
}

fn pasa_exec(f: Filtro, p: &[char], k: &[char]) -> (r: bool)
    ensures
        r == pasa(f, p@, k@),
{
    match f {
        Filtro::SinPunto => !contiene_exec(k, '.'),
        Filtro::ConPunto => contiene_exec(k, '.'),
        Filtro::ConPrefijo => empieza_con(k, p),
        Filtro::SinPrefijo => !empieza_con(k, p),
    }
}

proof fn lema_precede_prefijo(p: Seq<char>, a: Seq<char>, b: Seq<char>)
    ensures
        precede(p + a, p + b) == precede(a, b),
    decreases p.len(),
{
    if p.len() == 0 {
        assert(p + a == a);
        assert(p + b == b);
    } else {
        assert((p + a).drop_first() == p.drop_first() + a);
        assert((p + b).drop_first() == p.drop_first() + b);
        lema_precede_prefijo(p.drop_first(), a, b);
    }
}

/// The map of a sorted list grows by its next entry.
proof fn lema_prefijo_siguiente(s: Seq<Entrada>, i: int)
    requires
        ordenada(s),
        0 <= i < s.len(),
    ensures
        ordenada(s.take(i)),
        ordenada(s.take(i + 1)),
        como_mapa(s.take(i + 1)) == como_mapa(s.take(i)).insert(s[i].0, s[i].1),
{
    let t = s.take(i);
    assert(ordenada(t));
    assert forall|j: int| 0 <= j < i implies precede(#[trigger] t[j].0, s[i].0) by {
        assert(t[j] == s[j]);
    }
    lema_insertar_nueva(t, i, s[i]);
    assert(t.insert(i, s[i]) == s.take(i + 1));
}

/// The settings store. Entries are kept in increasing key order, which is
/// also the order in which they are written to the file.
pub struct MapaUsuario {
    entradas: Vec<(String, String)>,
}

pub open spec fn vista_entradas(v: Seq<(String, String)>) -> Seq<Entrada> {
    Seq::new(v.len(), |i: int| (v[i].0@, v[i].1@))
}

impl MapaUsuario {
    /// The entries in key order.
    pub closed spec fn lista(&self) -> Seq<Entrada> {
        vista_entradas(self.entradas@)
    }

    #[verifier::type_invariant]
    closed spec fn bien_formado(&self) -> bool {
        ordenada(self.lista())
    }

    pub fn nuevo() -> (m: MapaUsuario)
        ensures
            m@ == Map::<Seq<char>, Seq<char>>::empty(),
            m.lista().len() == 0,
    {
        let m = MapaUsuario { entradas: Vec::new() };
        proof {
            lema_vacia();
            assert(m.lista() =~= Seq::<Entrada>::empty());
        }
        m
    }

    pub fn len(&self) -> (n: usize)
        ensures
            n == self.lista().len(),
    {
        self.entradas.len()
    }

    /// Position of `clave`, if present.
    fn indice(&self, clave: &String) -> (r: Option<usize>)
        ensures
            r matches Some(i) ==> i < self.lista().len() && self.lista()[i as int].0 == clave@,
            r is None ==> forall|i: int| 0 <= i < self.lista().len() ==> self.lista()[i].0 != clave@,
    {
        let n = self.entradas.len();
        for i in 0..n
            invariant
                n == self.entradas@.len(),
                forall|j: int| 0 <= j < i ==> self.lista()[j].0 != clave@,
        {
            if self.entradas[i].0 == *clave {
                return Some(i);
            }
        }
        None
    }

    /// Value stored under `clave`.
    pub fn obtener(&self, clave: &str) -> (r: Option<String>)
        ensures
            r is Some <==> self@.dom().contains(clave@),
            r matches Some(v) ==> v@ == self@[clave@],
    {
        proof {
            use_type_invariant(self);
        }
        let c = String::from_str(clave);
        match self.indice(&c) {
            Some(i) => {
                proof {
                    lema_consulta(self.lista(), i as int);
                }
                Some(self.entradas[i].1.clone())
            },
            None => {
                proof {
                    lema_ausente(self.lista(), clave@);
                }
                None
            },
        }
    }

    /// Stores `valor` under `clave`, replacing any previous value.
    pub fn insertar(&mut self, clave: String, valor: String)
        ensures
            final(self)@ == old(self)@.insert(clave@, valor@),
    {
        proof {
            use_type_invariant(&*self);
        }
        let ghost s = self.lista();
        let kc = a_caracteres(clave.as_str());
        let n = self.entradas.len();
        let mut i: usize = 0;
        let mut igual = false;
        let mut mayor = false;
        while i < n && !igual && !mayor
            invariant
                n == self.entradas@.len() == s.len(),
                s == self.lista(),
                ordenada(s),
                kc@ == clave@,
                i <= n,
                forall|j: int| 0 <= j < i ==> precede(#[trigger] s[j].0, clave@),
                igual ==> i < n && s[i as int].0 == clave@,
                mayor ==> i < n && precede(clave@, s[i as int].0),
                !(igual && mayor),
            decreases n - i + (if !igual && !mayor { 1int } else { 0int }),
        {
            let ki = a_caracteres(self.entradas[i].0.as_str());
            assert(ki@ == s[i as int].0);
            match comparar(ki.as_slice(), kc.as_slice()) {
                Comparacion::Antes => {
                    i += 1;
                },
                Comparacion::Igual => {
                    igual = true;
                },
                Comparacion::Despues => {
                    mayor = true;
                },
            }
        }
        let mut nuevas = self.entradas();
        if igual {
            nuevas.set(i, (clave, valor));
            proof {
                lema_reemplazar(s, i as int, valor@);
                assert(vista_entradas(nuevas@) =~= s.update(i as int, (s[i as int].0, valor@)));
            }
        } else {
            proof {
                assert forall|j: int| i <= j < s.len() implies precede(clave@, #[trigger] s[j].0) by {
                    if j > i {
                        assert(precede(s[i as int].0, s[j].0));
                        lema_precede_transitivo(clave@, s[i as int].0, s[j].0);
                    }
                }
                lema_insertar_nueva(s, i as int, (clave@, valor@));
            }
            nuevas.insert(i, (clave, valor));
            proof {
                assert(vista_entradas(nuevas@) =~= s.insert(i as int, (clave@, valor@)));
            }
        }
        self.entradas = nuevas;
    }

    /// Removes `clave` (nothing happens when absent).
    pub fn quitar(&mut self, clave: &str)
        ensures
            final(self)@ == old(self)@.remove(clave@),
    {
        proof {
            use_type_invariant(&*self);
        }
        let ghost s = self.lista();
        let c = String::from_str(clave);
        match self.indice(&c) {
            Some(i) => {
                let mut nuevas = self.entradas();
                proof {
                    lema_quitar(s, i as int);
                }
                nuevas.remove(i);
                proof {
                    assert(vista_entradas(nuevas@) =~= s.remove(i as int));
                }
                self.entradas = nuevas;
            },
            None => {
                proof {
                    lema_ausente(s, clave@);
                    assert(como_mapa(s).remove(clave@) =~= como_mapa(s));
                }
            },
        }
    }

    /// A copy holding only the entries whose key passes the filter.
    pub fn filtrar(&self, f: Filtro, prefijo: &str) -> (r: MapaUsuario)
        ensures
            r@ == filtrado(self@, f, prefijo@),
    {
        proof {
            use_type_invariant(self);
        }
        let p = a_caracteres(prefijo);
        let ghost s = self.lista();
        let mut nuevas: Vec<(String, String)> = Vec::new();
        let n = self.entradas.len();
        proof {
            assert(s.take(0) == Seq::<Entrada>::empty());
            lema_vacia();
            assert(vista_entradas(nuevas@) == Seq::<Entrada>::empty());
            assert(filtrado(Map::empty(), f, prefijo@) == Map::<Seq<char>, Seq<char>>::empty());
        }
        for i in 0..n
            invariant
                n == s.len(),
                s == self.lista(),
                ordenada(s),
                p@ == prefijo@,
                ordenada(vista_entradas(nuevas@)),
                forall|a: int, j: int|
                    0 <= a < nuevas@.len() && i <= j < n ==> precede(
                        #[trigger] vista_entradas(nuevas@)[a].0,
                        #[trigger] s[j].0,
                    ),
                como_mapa(vista_entradas(nuevas@)) == filtrado(
                    como_mapa(s.take(i as int)),
                    f,
                    prefijo@,
                ),
        {
            let ghost r = vista_entradas(nuevas@);
            let ghost m_antes = como_mapa(s.take(i as int));
            proof {
                lema_prefijo_siguiente(s, i as int);
            }
            let e = &self.entradas[i];
            assert(s[i as int] == (e.0@, e.1@));
            let k = a_caracteres(e.0.as_str());
            if pasa_exec(f, p.as_slice(), k.as_slice()) {
                let c0 = e.0.clone();
                let c1 = e.1.clone();
                proof {
                    assert forall|j: int| 0 <= j < r.len() implies precede(#[trigger] r[j].0, s[i as int].0) by {
                    }
                    assert forall|j: int| r.len() <= j < r.len() implies precede(s[i as int].0, #[trigger] r[j].0) by {
                    }
                    lema_insertar_nueva(r, r.len() as int, s[i as int]);
                }
                nuevas.push((c0, c1));
                proof {
                    assert(vista_entradas(nuevas@) =~= r.insert(r.len() as int, s[i as int]));
                    assert(filtrado(m_antes.insert(s[i as int].0, s[i as int].1), f, prefijo@) =~= filtrado(m_antes, f, prefijo@).insert(s[i as int].0, s[i as int].1));
                    assert forall|a: int, j: int|
                        0 <= a < nuevas@.len() && i + 1 <= j < n implies precede(
                            #[trigger] vista_entradas(nuevas@)[a].0,
                            #[trigger] s[j].0,
                        ) by {
                        if a < r.len() {
                            assert(vista_entradas(nuevas@)[a] == r[a]);
                        } else {
                            assert(vista_entradas(nuevas@)[a] == s[i as int]);
                        }
                    }
                }
            } else {
                proof {
                    assert(filtrado(m_antes.insert(s[i as int].0, s[i as int].1), f, prefijo@) =~= filtrado(m_antes, f, prefijo@));
                }
            }
        }
        assert(s.take(n as int) == s);
        MapaUsuario { entradas: nuevas }
    }

    /// The entries whose key starts with `prefijo`, keyed by the rest of
    /// the key.
    pub fn quitar_prefijo(&self, prefijo: &str) -> (r: MapaUsuario)
        ensures
            r@ == sin_prefijo(self@, prefijo@),
    {
        proof {
            use_type_invariant(self);
        }
        let p = a_caracteres(prefijo);
        let ghost s = self.lista();
        let mut nuevas: Vec<(String, String)> = Vec::new();
        let n = self.entradas.len();
        proof {
            assert(s.take(0) == Seq::<Entrada>::empty());
            lema_vacia();
            assert(vista_entradas(nuevas@) == Seq::<Entrada>::empty());
            assert(sin_prefijo(Map::empty(), prefijo@) =~= Map::<Seq<char>, Seq<char>>::empty());
        }
        for i in 0..n
            invariant
                n == s.len(),
                s == self.lista(),
                ordenada(s),
                p@ == prefijo@,
                ordenada(vista_entradas(nuevas@)),
                forall|a: int, j: int|
                    0 <= a < nuevas@.len() && i <= j < n && es_prefijo(prefijo@, s[j].0) ==> precede(
                        #[trigger] vista_entradas(nuevas@)[a].0,
                        (#[trigger] s[j].0).skip(prefijo@.len() as int),
                    ),
                como_mapa(vista_entradas(nuevas@)) == sin_prefijo(
                    como_mapa(s.take(i as int)),
                    prefijo@,
                ),
        {
            let ghost r = vista_entradas(nuevas@);
            let ghost m_antes = como_mapa(s.take(i as int));
            proof {
                lema_prefijo_siguiente(s, i as int);
            }
            let e = &self.entradas[i];
            assert(s[i as int] == (e.0@, e.1@));
            let k = a_caracteres(e.0.as_str());
            let ghost pl = prefijo@.len() as int;
            if empieza_con(k.as_slice(), p.as_slice()) {
                let resto = copiar_rango(k.as_slice(), p.len(), k.len());
                let c0 = a_cadena(resto.as_slice());
                let c1 = e.1.clone();
                let ghost ki = s[i as int].0;
                let ghost x = ki.skip(pl);
                proof {
                    assert(resto@ == x);
                    assert(prefijo@ + x =~= ki);
                    assert forall|j: int| 0 <= j < r.len() implies precede(#[trigger] r[j].0, x) by {
                    }
                    assert forall|j: int| r.len() <= j < r.len() implies precede(x, #[trigger] r[j].0) by {
                    }
                    lema_insertar_nueva(r, r.len() as int, (x, s[i as int].1));
                }
                nuevas.push((c0, c1));
                proof {
                    assert(vista_entradas(nuevas@) =~= r.insert(r.len() as int, (x, s[i as int].1)));
                    let m1 = sin_prefijo(m_antes.insert(ki, s[i as int].1), prefijo@);
                    let m2 = sin_prefijo(m_antes, prefijo@).insert(x, s[i as int].1);
                    assert forall|y: Seq<char>| #[trigger] m1.dom().contains(y) <==> m2.dom().contains(y) by {
                        if prefijo@ + y == ki {
                            assert((prefijo@ + y).skip(pl) =~= y);
                        }
                    }
                    assert forall|y: Seq<char>| #[trigger] m1.dom().contains(y) implies m1[y] == m2[y] by {
                        if prefijo@ + y == ki {
                            assert((prefijo@ + y).skip(pl) =~= y);
                        }
                    }
                    assert(m1 =~= m2);
                    assert forall|a: int, j: int|
                        0 <= a < nuevas@.len() && i + 1 <= j < n && es_prefijo(prefijo@, s[j].0) implies precede(
                            #[trigger] vista_entradas(nuevas@)[a].0,
                            (#[trigger] s[j].0).skip(pl),
                        ) by {
                        if a < r.len() {
                            assert(vista_entradas(nuevas@)[a] == r[a]);
                        } else {
                            assert(vista_entradas(nuevas@)[a].0 == x);
                            assert(precede(ki, s[j].0));
                            assert(prefijo@ + s[j].0.skip(pl) =~= s[j].0);
                            lema_precede_prefijo(prefijo@, x, s[j].0.skip(pl));
                        }
                    }
                }
            } else {
                proof {
                    let m1 = sin_prefijo(m_antes.insert(s[i as int].0, s[i as int].1), prefijo@);
                    let m2 = sin_prefijo(m_antes, prefijo@);
                    assert forall|y: Seq<char>| #[trigger] m1.dom().contains(y) <==> m2.dom().contains(y) by {
                        if prefijo@ + y == s[i as int].0 {
                            assert((prefijo@ + y).take(pl) =~= prefijo@);
                        }
                    }
                    assert forall|y: Seq<char>| #[trigger] m1.dom().contains(y) implies m1[y] == m2[y] by {
                        if prefijo@ + y == s[i as int].0 {
                            assert((prefijo@ + y).take(pl) =~= prefijo@);
                        }
                    }
                    assert(m1 =~= m2);
                }
            }
        }
        assert(s.take(n as int) == s);
        MapaUsuario { entradas: nuevas }
    }

    /// An independent copy of the store.
    pub fn copia(&self) -> (r: MapaUsuario)
        ensures
            r@ == self@,
            r.lista() == self.lista(),
    {
        proof {
            use_type_invariant(self);
        }
        let es = self.entradas();
        MapaUsuario { entradas: es }
    }

    /// A copy of the entries, in increasing key order.
    pub fn entradas(&self) -> (r: Vec<(String, String)>)
        ensures
            vista_entradas(r@) == self.lista(),
            ordenada(self.lista()),
    {
        proof {
            use_type_invariant(self);
        }
        let mut r: Vec<(String, String)> = Vec::new();
        let n = self.entradas.len();
        for i in 0..n
            invariant
                n == self.entradas@.len(),
                r@.len() == i,
                vista_entradas(r@) == vista_entradas(self.entradas@).take(i as int),
        {
            let e = &self.entradas[i];
            let c0 = e.0.clone();
            let c1 = e.1.clone();
            let ghost antes = r@;
            r.push((c0, c1));
            assert(r@ == antes.push((c0, c1)));
            assert forall|k: int| 0 <= k < i + 1 implies #[trigger] vista_entradas(r@)[k]
                == vista_entradas(self.entradas@)[k] by {
                if k < i {
                    assert(vista_entradas(r@)[k] == vista_entradas(antes)[k]);
                }
            }
            assert(vista_entradas(r@) =~= vista_entradas(self.entradas@).take(i + 1));
        }
        assert(vista_entradas(self.entradas@).take(n as int) =~= vista_entradas(self.entradas@));
        r
    }
}

impl View for MapaUsuario {
    type V = Map<Seq<char>, Seq<char>>;

    open spec fn view(&self) -> Map<Seq<char>, Seq<char>> {
        como_mapa(self.lista())
    }
}

} // verus!
