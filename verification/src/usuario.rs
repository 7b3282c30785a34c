//! Naming rules of the user folder: profile files `perfil_<nombre>.json`,
//! theme files `<nombre>.theme`, which profile is the current one (the most
//! recently modified profile file, `Default` when there is none), and
//! whether a folder lies inside a system folder.

use vstd::prelude::*;
use crate::apariencia::vista_textos;
use crate::texto::{
    a_caracteres, comparar, contiene, contiene_exec, empieza_con, es_prefijo, es_sufijo, iguales,
    lema_precede_asimetrico, lema_precede_transitivo, precede, recortar, recortar_vec, Comparacion,
};
use crate::valores::mensaje;

verus! {

// ------------------------------------------------------------------
// Sorting names
// ------------------------------------------------------------------

/// In increasing `String` order.
pub open spec fn ordenados(s: Seq<Seq<char>>) -> bool {
    forall|i: int, j: int| 0 <= i < j < s.len() ==> !precede(#[trigger] s[j], #[trigger] s[i])
}

proof fn lema_insertar_ordenado(s: Seq<Seq<char>>, j: int, x: Seq<char>)
    requires
        ordenados(s),
        0 <= j <= s.len(),
        forall|k: int| 0 <= k < j ==> !precede(x, #[trigger] s[k]),
        j < s.len() ==> precede(x, s[j]),
    ensures
        ordenados(s.insert(j, x)),
{
    let t = s.insert(j, x);
    assert forall|k: int| j <= k < s.len() implies precede(x, #[trigger] s[k]) by {
        if k > j && s[j] != s[k] {
            crate::texto::lema_precede_total(s[j], s[k]);
            assert(!precede(s[k], s[j]));
            lema_precede_transitivo(x, s[j], s[k]);
        }
    }
    assert forall|p: int, q: int| 0 <= p < q < t.len() implies !precede(#[trigger] t[q], #[trigger] t[p]) by {
        if q < j {
            assert(t[p] == s[p] && t[q] == s[q]);
        } else if q == j {
            assert(t[p] == s[p]);
        } else if p == j {
            assert(t[q] == s[q - 1]);
            if precede(s[q - 1], x) {
                lema_precede_asimetrico(x, s[q - 1]);
            }
        } else if p < j {
            assert(t[p] == s[p] && t[q] == s[q - 1]);
        } else {
            assert(t[p] == s[p - 1] && t[q] == s[q - 1]);
        }
    }
}

/// The names in increasing `String` order.
pub fn ordenar(v: Vec<String>) -> (r: Vec<String>)
    ensures
        ordenados(vista_textos(r@)),
        vista_textos(r@).to_multiset() == vista_textos(v@).to_multiset(),
{
    let mut r: Vec<String> = Vec::new();
    let n = v.len();
    let ghost entrada = vista_textos(v@);
    assert(entrada.take(0) =~= Seq::<Seq<char>>::empty());
    assert(vista_textos(r@) =~= Seq::<Seq<char>>::empty());
    for i in 0..n
        invariant
            n == v@.len(),
            entrada == vista_textos(v@),
            ordenados(vista_textos(r@)),
            vista_textos(r@).to_multiset() == entrada.take(i as int).to_multiset(),
    {
        let x = v[i].clone();
        let xc = a_caracteres(x.as_str());
        let ghost s = vista_textos(r@);
        let mut j: usize = 0;
        let mut encontrado = false;
        while j < r.len() && !encontrado
            invariant
                j <= r@.len(),
                s == vista_textos(r@),
                xc@ == x@,
                forall|k: int| 0 <= k < j ==> !precede(x@, #[trigger] s[k]),
                encontrado ==> j < s.len() && precede(x@, s[j as int]),
            decreases r@.len() - j + (if encontrado { 0int } else { 1int }),
        {
            let yc = a_caracteres(r[j].as_str());
            assert(s[j as int] == r@[j as int]@);
            if comparar(xc.as_slice(), yc.as_slice()) == Comparacion::Antes {
                encontrado = true;
            } else {
                j += 1;
            }
        }
        proof {
            if j < s.len() {
                assert(s[j as int] == r@[j as int]@);
            }
            lema_insertar_ordenado(s, j as int, x@);
            vstd::seq_lib::to_multiset_insert(s, j as int, x@);
            assert(entrada.take(i + 1) =~= entrada.take(i as int).push(x@));
            vstd::seq_lib::to_multiset_build(entrada.take(i as int), x@);
        }
        r.insert(j, x);
        assert(vista_textos(r@) =~= s.insert(j as int, x@));
    }
    assert(entrada.take(n as int) =~= entrada);
    r
}

// ------------------------------------------------------------------
// Profiles
// ------------------------------------------------------------------

/// A profile file name: `perfil_` … `.json`.
pub open spec fn es_perfil_spec(f: Seq<char>) -> bool {
    es_prefijo("perfil_"@, f) && es_sufijo(".json"@, f)
}

/// The profile name of a file name: without `perfil_` and then `.json`.
pub open spec fn nombre_de_archivo(f: Seq<char>) -> Option<Seq<char>> {
    if es_prefijo("perfil_"@, f) && es_sufijo(".json"@, f.skip(7)) {
        Some(f.subrange(7, f.len() - 5))
    } else {
        None
    }
}

pub fn es_perfil(nombre_archivo: &str) -> (r: bool)
    ensures
        r == es_perfil_spec(nombre_archivo@),
{
    let f = a_caracteres(nombre_archivo);
    let p = a_caracteres("perfil_");
    let s = a_caracteres(".json");
    empieza_con(f.as_slice(), p.as_slice()) && crate::texto::termina_con(f.as_slice(), s.as_slice())
}

pub fn nombre_desde_ruta(nombre_archivo: &str) -> (r: Option<String>)
    ensures
        match r {
            Some(n) => nombre_de_archivo(nombre_archivo@) == Some(n@),
            None => nombre_de_archivo(nombre_archivo@) is None,
        },
{
    proof {
        reveal_strlit("perfil_");
        reveal_strlit(".json");
    }
    let f = a_caracteres(nombre_archivo);
    let p = a_caracteres("perfil_");
    let s = a_caracteres(".json");
    if !empieza_con(f.as_slice(), p.as_slice()) {
        return None;
    }
    let resto = crate::texto::copiar_rango(f.as_slice(), 7, f.len());
    assert(resto@ =~= f@.skip(7));
    if !crate::texto::termina_con(resto.as_slice(), s.as_slice()) {
        return None;
    }
    let nombre = crate::texto::copiar_rango(f.as_slice(), 7, f.len() - 5);
    Some(crate::texto::a_cadena(nombre.as_slice()))
}

/// The file name of profile `nombre`, once the name is accepted.
pub fn ruta_perfil(nombre: &str) -> (r: Result<String, String>)
    ensures
        recortar(nombre@).len() == 0 ==> (r matches Err(m) && m@ == "El nombre del perfil está vacío"@),
        recortar(nombre@).len() > 0 && (contiene(nombre@, '/') || contiene(nombre@, '\\')
            || nombre@ == "."@ || nombre@ == ".."@) ==> (r matches Err(m) && m@
            == "Nombre de perfil inválido"@),
        recortar(nombre@).len() > 0 && !(contiene(nombre@, '/') || contiene(nombre@, '\\')
            || nombre@ == "."@ || nombre@ == ".."@) ==> (r matches Ok(f) && f@ == "perfil_"@
            + nombre@ + ".json"@),
{
    let v = a_caracteres(nombre);
    if recortar_vec(v.as_slice()).len() == 0 {
        return Err(String::from_str("El nombre del perfil está vacío"));
    }
    let punto = a_caracteres(".");
    let dos_puntos = a_caracteres("..");
    if contiene_exec(v.as_slice(), '/') || contiene_exec(v.as_slice(), '\\') || iguales(
        v.as_slice(),
        punto.as_slice(),
    ) || iguales(v.as_slice(), dos_puntos.as_slice()) {
        return Err(String::from_str("Nombre de perfil inválido"));
    }
    Ok(mensaje("perfil_", nombre, ".json"))
}

/// The file name of the `Default` profile.
pub fn perfil_default() -> (r: String)
    ensures
        r@ == "perfil_Default.json"@,
{
    String::from_str("perfil_Default.json")
}

/// Names of the profiles among the files of the profiles folder.
pub open spec fn nombres_de_perfiles(fs: Seq<Seq<char>>) -> Seq<Seq<char>>
    decreases fs.len(),
{
    if fs.len() == 0 {
        seq![]
    } else {
        let previos = nombres_de_perfiles(fs.drop_last());
        let f = fs.last();
        if es_perfil_spec(f) && nombre_de_archivo(f) is Some {
            previos.push(nombre_de_archivo(f)->0)
        } else {
            previos
        }
    }
}

/// The profile names of the files of the profiles folder, sorted.
pub fn perfiles(archivos: &[String]) -> (r: Vec<String>)
    ensures
        ordenados(vista_textos(r@)),
        vista_textos(r@).to_multiset() == nombres_de_perfiles(vista_textos(archivos@)).to_multiset(),
{
    let ghost fs = vista_textos(archivos@);
    let mut nombres: Vec<String> = Vec::new();
    let n = archivos.len();
    assert(fs.take(0) =~= Seq::<Seq<char>>::empty());
    assert(vista_textos(nombres@) =~= Seq::<Seq<char>>::empty());
    for i in 0..n
        invariant
            n == archivos@.len(),
            fs == vista_textos(archivos@),
            vista_textos(nombres@) == nombres_de_perfiles(fs.take(i as int)),
    {
        let f = archivos[i].as_str();
        assert(fs.take(i + 1).drop_last() =~= fs.take(i as int));
        assert(fs.take(i + 1).last() == f@);
        if es_perfil(f) {
            match nombre_desde_ruta(f) {
                Some(x) => {
                    let ghost antes = nombres@;
                    nombres.push(x);
                    assert(vista_textos(nombres@) =~= vista_textos(antes).push(x@));
                },
                None => {},
            }
        }
    }
    assert(fs.take(n as int) =~= fs);
    ordenar(nombres)
}

/// The current profile: among the profile files (name, modification time),
/// the one modified last, the later one in the list among equals;
/// `perfil_Default.json` when there is no profile file.
pub fn perfil_actual(archivos: &[(String, i128)]) -> (r: String)
    ensures
        (forall|j: int| 0 <= j < archivos@.len() ==> !es_perfil_spec(#[trigger] archivos@[j].0@))
            ==> r@ == "perfil_Default.json"@,
        (exists|j: int| 0 <= j < archivos@.len() && es_perfil_spec(#[trigger] archivos@[j].0@))
            ==> exists|i: int|
            0 <= i < archivos@.len() && es_perfil_spec(#[trigger] archivos@[i].0@) && r@
                == archivos@[i].0@ && (forall|j: int|
                0 <= j < archivos@.len() && es_perfil_spec(#[trigger] archivos@[j].0@)
                    ==> archivos@[j].1 <= archivos@[i].1) && (forall|j: int|
                i < j < archivos@.len() && es_perfil_spec(#[trigger] archivos@[j].0@)
                    ==> archivos@[j].1 < archivos@[i].1),
{
    let n = archivos.len();
    let mut mejor: Option<usize> = None;
    for k in 0..n
        invariant
            n == archivos@.len(),
            mejor is None ==> forall|j: int| 0 <= j < k ==> !es_perfil_spec(#[trigger] archivos@[j].0@),
            mejor matches Some(i) ==> i < k && es_perfil_spec(archivos@[i as int].0@) && (forall|j: int|
                0 <= j < k && es_perfil_spec(#[trigger] archivos@[j].0@) ==> archivos@[j].1
                    <= archivos@[i as int].1) && (forall|j: int|
                i < j < k && es_perfil_spec(#[trigger] archivos@[j].0@) ==> archivos@[j].1
                    < archivos@[i as int].1),
    {
        if es_perfil(archivos[k].0.as_str()) {
            match mejor {
                None => {
                    mejor = Some(k);
                },
                Some(i) => {
                    if archivos[k].1 >= archivos[i].1 {
                        mejor = Some(k);
                    }
                },
            }
        }
    }
    match mejor {
        None => perfil_default(),
        Some(i) => archivos[i].0.clone(),
    }
}

/// The name of the current profile, from its file name.
pub fn nombre_actual(archivo: &str) -> (r: Result<String, String>)
    ensures
        match r {
            Ok(n) => nombre_de_archivo(archivo@) == Some(n@),
            Err(m) => nombre_de_archivo(archivo@) is None && m@
                == "No se pudo determinar el nombre del perfil"@,
        },
{
    match nombre_desde_ruta(archivo) {
        Some(n) => Ok(n),
        None => Err(String::from_str("No se pudo determinar el nombre del perfil")),
    }
}

// ------------------------------------------------------------------
// Themes
// ------------------------------------------------------------------

/// Names of the themes among the files of a themes folder: the file names
/// ending in `.theme`, without it.
pub open spec fn nombres_de_temas(fs: Seq<Seq<char>>) -> Seq<Seq<char>>
    decreases fs.len(),
{
    if fs.len() == 0 {
        seq![]
    } else {
        let previos = nombres_de_temas(fs.drop_last());
        let f = fs.last();
        if es_sufijo(".theme"@, f) {
            previos.push(f.take(f.len() - 6))
        } else {
            previos
        }
    }
}

/// The theme names of the files of a themes folder, sorted.
pub fn temas(archivos: &[String]) -> (r: Vec<String>)
    ensures
        ordenados(vista_textos(r@)),
        vista_textos(r@).to_multiset() == nombres_de_temas(vista_textos(archivos@)).to_multiset(),
{
    proof {
        reveal_strlit(".theme");
    }
    let ghost fs = vista_textos(archivos@);
    let sufijo = a_caracteres(".theme");
    let mut nombres: Vec<String> = Vec::new();
    let n = archivos.len();
    assert(fs.take(0) =~= Seq::<Seq<char>>::empty());
    assert(vista_textos(nombres@) =~= Seq::<Seq<char>>::empty());
    for i in 0..n
        invariant
            n == archivos@.len(),
            fs == vista_textos(archivos@),
            sufijo@ == ".theme"@,
            sufijo@.len() == 6,
            vista_textos(nombres@) == nombres_de_temas(fs.take(i as int)),
    {
        let f = a_caracteres(archivos[i].as_str());
        assert(fs.take(i + 1).drop_last() =~= fs.take(i as int));
        assert(fs.take(i + 1).last() == f@);
        if crate::texto::termina_con(f.as_slice(), sufijo.as_slice()) {
            assert(f@.len() >= 6);
            let x = crate::texto::a_cadena(crate::texto::copiar_rango(f.as_slice(), 0, f.len() - 6).as_slice());
            let ghost antes = nombres@;
            nombres.push(x);
            assert(vista_textos(nombres@) =~= vista_textos(antes).push(x@));
        }
    }
    assert(fs.take(n as int) =~= fs);
    ordenar(nombres)
}

// ------------------------------------------------------------------
// System folders
// ------------------------------------------------------------------

/// What `str::to_lowercase` gives for a text.
pub uninterp spec fn minusculas(s: Seq<char>) -> Seq<char>;

/// `str::to_lowercase`: the text with each character replaced by its
/// Unicode lowercase mapping, the same for a given text on every machine
/// (no locale); what that mapping is is left to the name.
#[verifier::external_body]
fn a_minusculas(s: &str) -> (r: String)
    ensures
        r@ == minusculas(s@),
{
    s.to_lowercase()
}

/// Whether `carpeta` lies under one of the system folders (Program Files,
/// Windows, as the environment gives them), comparing lowercased texts.
pub fn es_carpeta_sistema(carpeta: &str, carpetas_sistema: &[String]) -> (r: bool)
    ensures
        r == exists|i: int|
            0 <= i < carpetas_sistema@.len() && es_prefijo(
                minusculas(#[trigger] carpetas_sistema@[i]@),
                minusculas(carpeta@),
            ),
{
    let objetivo = a_minusculas(carpeta);
    let oc = a_caracteres(objetivo.as_str());
    let n = carpetas_sistema.len();
    for i in 0..n
        invariant
            n == carpetas_sistema@.len(),
            oc@ == minusculas(carpeta@),
            forall|j: int|
                0 <= j < i ==> !es_prefijo(minusculas(#[trigger] carpetas_sistema@[j]@), minusculas(carpeta@)),
    {
        let ruta = a_minusculas(carpetas_sistema[i].as_str());
        let rc = a_caracteres(ruta.as_str());
        if empieza_con(oc.as_slice(), rc.as_slice()) {
            return true;
        }
    }
    false
}

// ------------------------------------------------------------------
// Laws
// ------------------------------------------------------------------

/// The file of an accepted profile name is a profile file, and reading its
/// name back gives the name.
pub proof fn ley_ruta_y_nombre_de_perfil(nombre: Seq<char>)
    ensures
        es_perfil_spec("perfil_"@ + nombre + ".json"@),
        nombre_de_archivo("perfil_"@ + nombre + ".json"@) == Some(nombre),
{
    reveal_strlit("perfil_");
    reveal_strlit(".json");
    let f = "perfil_"@ + nombre + ".json"@;
    assert(f.take(7) =~= "perfil_"@);
    assert(f.skip(f.len() - 5) =~= ".json"@);
    let r = f.skip(7);
    assert(r =~= nombre + ".json"@);
    assert(r.skip(r.len() - 5) =~= ".json"@);
    assert(f.subrange(7, f.len() - 5) =~= nombre);
}

/// A file is a profile file exactly when a profile name can be read from
/// it.
pub proof fn ley_perfil_si_y_solo_si_nombre(f: Seq<char>)
    ensures
        es_perfil_spec(f) <==> nombre_de_archivo(f) is Some,
{
    reveal_strlit("perfil_");
    reveal_strlit(".json");
    if es_perfil_spec(f) {
        assert(f.take(7) == "perfil_"@);
        assert(f.skip(f.len() - 5) == ".json"@);
        if f.len() < 12 {
            let q = f.len() - 5;
            assert(f[q] == f.skip(f.len() - 5)[0]);
            assert(f[q] == f.take(7)[q]);
            assert(false);
        }
        let r = f.skip(7);
        assert(r.skip(r.len() - 5) =~= f.skip(f.len() - 5));
    }
    if nombre_de_archivo(f) is Some {
        let r = f.skip(7);
        assert(r.skip(r.len() - 5) == ".json"@);
        assert(f.skip(f.len() - 5) =~= r.skip(r.len() - 5));
    }
}

} // verus!
