//! The system tray menu: its entries, built from the real state each time
//! (profiles, current profile, whether a profile is active, the toggle key
//! binding), what a click on an entry asks for, and when minimising hides
//! the main window in the tray.

use vstd::prelude::*;
use crate::apariencia::vista_textos;
use crate::texto::{a_caracteres, empieza_con, copiar_rango, a_cadena};

verus! {

/// The text of the profile toggle entry: `Activar Perfil` when no profile
/// is active (`cache_vacia`), `Desactivar Perfil` otherwise, followed by
/// the key binding in brackets.
pub fn texto_toggle_perfil(cache_vacia: bool, atajo: &str) -> (r: String)
    ensures
        r@ == (if cache_vacia {
            "Activar Perfil"@
        } else {
            "Desactivar Perfil"@
        }) + " ("@ + atajo@ + ")"@,
{
    let mut r = if cache_vacia {
        String::from_str("Activar Perfil")
    } else {
        String::from_str("Desactivar Perfil")
    };
    r.append(" (");
    r.append(atajo);
    r.append(")");
    r
}

/// The names joined by `+`.
pub open spec fn unidos(ps: Seq<Seq<char>>) -> Seq<char>
    decreases ps.len(),
{
    if ps.len() == 0 {
        seq![]
    } else if ps.len() == 1 {
        ps[0]
    } else {
        unidos(ps.drop_last()) + "+"@ + ps.last()
    }
}

/// A key binding as text, such as `Ctrl+F1`: the display names of its
/// modifiers and then of its trigger, joined by `+`.
pub fn formatear_atajo(nombres: &[String]) -> (r: String)
    ensures
        r@ == unidos(vista_textos(nombres@)),
{
    let ghost ps = vista_textos(nombres@);
    let mut r = String::new();
    let n = nombres.len();
    assert(ps.take(0) =~= Seq::<Seq<char>>::empty());
    for i in 0..n
        invariant
            n == nombres@.len(),
            ps == vista_textos(nombres@),
            r@ == unidos(ps.take(i as int)),
    {
        assert(ps.take(i + 1).drop_last() =~= ps.take(i as int));
        assert(ps.take(i + 1).last() == nombres@[i as int]@);
        if i > 0 {
            r.append("+");
        } else {
            assert(ps.take(1) =~= seq![nombres@[0]@]);
        }
        r.append(nombres[i].as_str());
    }
    assert(ps.take(n as int) =~= ps);
    r
}

/// The dot drawn before a profile entry.
#[derive(PartialEq, Eq, Structural, Clone, Copy, Debug)]
pub enum Marca {
    /// Not the current profile.
    Ninguna,
    /// The current profile, inactive.
    Rojo,
    /// The current profile, active.
    Verde,
}

pub open spec fn marca_de(es_actual: bool, cache_vacia: bool) -> Marca {
    if !es_actual {
        Marca::Ninguna
    } else if cache_vacia {
        Marca::Rojo
    } else {
        Marca::Verde
    }
}

/// An entry of the tray menu.
pub enum ElementoMenu {
    /// A plain entry: id, text, enabled.
    Item { id: String, texto: String, habilitado: bool },
    /// A profile: id `perfil::<nombre>`, its name and its dot.
    Perfil { id: String, nombre: String, marca: Marca },
    Separador,
}

/// What an entry of the menu is, as plain values.
pub enum VistaElemento {
    Item(Seq<char>, Seq<char>, bool),
    Perfil(Seq<char>, Seq<char>, Marca),
    Separador,
}

impl View for ElementoMenu {
    type V = VistaElemento;

    open spec fn view(&self) -> VistaElemento {
        match self {
            ElementoMenu::Item { id, texto, habilitado } => VistaElemento::Item(id@, texto@, *habilitado),
            ElementoMenu::Perfil { id, nombre, marca } => VistaElemento::Perfil(id@, nombre@, *marca),
            ElementoMenu::Separador => VistaElemento::Separador,
        }
    }
}

pub open spec fn vista_menu(v: Seq<ElementoMenu>) -> Seq<VistaElemento> {
    Seq::new(v.len(), |i: int| v[i]@)
}

/// The profile entries, in the order of the names.
pub open spec fn elementos_perfiles(ps: Seq<Seq<char>>, actual: Option<Seq<char>>, cache_vacia: bool) -> Seq<
    VistaElemento,
> {
    Seq::new(
        ps.len(),
        |i: int|
            VistaElemento::Perfil(
                "perfil::"@ + ps[i],
                ps[i],
                marca_de(actual == Some(ps[i]), cache_vacia),
            ),
    )
}

/// The whole menu: open, the profile toggle, a separator, the `Perfiles:`
/// title (disabled), the profiles, a separator, quit.
pub open spec fn menu_spec(ps: Seq<Seq<char>>, actual: Option<Seq<char>>, cache_vacia: bool, atajo: Seq<char>) -> Seq<
    VistaElemento,
> {
    seq![
        VistaElemento::Item("abrir"@, "Abrir Omega Ctrl"@, true),
        VistaElemento::Item(
            "toggle_perfil"@,
            (if cache_vacia {
                "Activar Perfil"@
            } else {
                "Desactivar Perfil"@
            }) + " ("@ + atajo + ")"@,
            true,
        ),
        VistaElemento::Separador,
        VistaElemento::Item("titulo_perfiles"@, "Perfiles:"@, false),
    ] + elementos_perfiles(ps, actual, cache_vacia) + seq![
        VistaElemento::Separador,
        VistaElemento::Item("salir"@, "Salir"@, true),
    ]
}

pub open spec fn vista_opcion_texto(o: Option<&str>) -> Option<Seq<char>> {
    match o {
        Some(s) => Some(s@),
        None => None,
    }
}

/// The tray menu for the profiles `perfiles`, the current profile
/// `nombre_actual` (when it could be read), whether no profile is active
/// and the toggle key binding as text.
pub fn reconstruir_menu(
    perfiles: &[String],
    nombre_actual: Option<&str>,
    cache_vacia: bool,
    atajo: &str,
) -> (r: Vec<ElementoMenu>)
    ensures
        vista_menu(r@) == menu_spec(
            vista_textos(perfiles@),
            vista_opcion_texto(nombre_actual),
            cache_vacia,
            atajo@,
        ),
{
    let ghost ps = vista_textos(perfiles@);
    let ghost actual = vista_opcion_texto(nombre_actual);
    let mut r: Vec<ElementoMenu> = Vec::new();
    r.push(
        ElementoMenu::Item {
            id: String::from_str("abrir"),
            texto: String::from_str("Abrir Omega Ctrl"),
            habilitado: true,
        },
    );
    r.push(
        ElementoMenu::Item {
            id: String::from_str("toggle_perfil"),
            texto: texto_toggle_perfil(cache_vacia, atajo),
            habilitado: true,
        },
    );
    r.push(ElementoMenu::Separador);
    r.push(
        ElementoMenu::Item {
            id: String::from_str("titulo_perfiles"),
            texto: String::from_str("Perfiles:"),
            habilitado: false,
        },
    );
    let ghost cabecera = vista_menu(r@);
    assert(cabecera =~= menu_spec(ps, actual, cache_vacia, atajo@).take(4));
    let n = perfiles.len();
    for i in 0..n
        invariant
            n == perfiles@.len(),
            ps == vista_textos(perfiles@),
            actual == vista_opcion_texto(nombre_actual),
            r@.len() == 4 + i,
            forall|k: int| 0 <= k < 4 ==> #[trigger] vista_menu(r@)[k] == cabecera[k],
            forall|k: int|
                0 <= k < i ==> #[trigger] vista_menu(r@)[4 + k] == elementos_perfiles(
                    ps,
                    actual,
                    cache_vacia,
                )[k],
    {
        let nombre = &perfiles[i];
        let es_actual = match nombre_actual {
            Some(a) => *nombre == String::from_str(a),
            None => false,
        };
        let marca = if !es_actual {
            Marca::Ninguna
        } else if cache_vacia {
            Marca::Rojo
        } else {
            Marca::Verde
        };
        let mut id = String::from_str("perfil::");
        id.append(nombre.as_str());
        let ghost antes = r@;
        r.push(ElementoMenu::Perfil { id, nombre: nombre.clone(), marca });
        assert forall|k: int| 0 <= k < 4 implies #[trigger] vista_menu(r@)[k] == cabecera[k] by {
            assert(r@[k] == antes[k]);
            assert(vista_menu(antes)[k] == cabecera[k]);
        }
        assert forall|k: int| 0 <= k < i + 1 implies #[trigger] vista_menu(r@)[4 + k] == elementos_perfiles(
            ps,
            actual,
            cache_vacia,
        )[k] by {
            if k < i {
                assert(r@[4 + k] == antes[4 + k]);
                assert(vista_menu(antes)[4 + k] == elementos_perfiles(ps, actual, cache_vacia)[k]);
            }
        }
    }
    let ghost tras = r@;
    r.push(ElementoMenu::Separador);
    r.push(
        ElementoMenu::Item { id: String::from_str("salir"), texto: String::from_str("Salir"), habilitado: true },
    );
    let ghost esperado = menu_spec(ps, actual, cache_vacia, atajo@);
    assert(r@.len() == esperado.len());
    assert forall|k: int| 0 <= k < r@.len() implies #[trigger] vista_menu(r@)[k] == esperado[k] by {
        if k < 4 {
            assert(r@[k] == tras[k]);
            assert(vista_menu(tras)[k] == cabecera[k]);
        } else if k < 4 + n {
            assert(r@[k] == tras[k]);
            assert(vista_menu(tras)[4 + (k - 4)] == elementos_perfiles(ps, actual, cache_vacia)[k - 4]);
        }
    }
    assert(vista_menu(r@) =~= esperado);
    r
}

/// What a click on a menu entry asks for.
#[derive(PartialEq, Eq, Debug)]
pub enum AccionMenu {
    /// Show the main window and have it resynchronise.
    Abrir,
    /// Switch the current profile on or off, then rebuild the menu.
    TogglePerfil,
    /// Quit the program.
    Salir,
    /// Ask the main window to switch to this profile.
    CambiarPerfil(String),
    Ninguna,
}

/// The action of the entry with id `id`.
pub fn manejar_evento_menu(id: &str) -> (r: AccionMenu)
    ensures
        id@ == "abrir"@ ==> r == AccionMenu::Abrir,
        id@ == "toggle_perfil"@ ==> r == AccionMenu::TogglePerfil,
        id@ == "salir"@ ==> r == AccionMenu::Salir,
        id@ != "abrir"@ && id@ != "toggle_perfil"@ && id@ != "salir"@ ==> if crate::texto::es_prefijo(
            "perfil::"@,
            id@,
        ) {
            r matches AccionMenu::CambiarPerfil(n) && n@ == id@.skip(8)
        } else {
            r == AccionMenu::Ninguna
        },
{
    proof {
        reveal_strlit("perfil::");
        reveal_strlit("abrir");
        reveal_strlit("toggle_perfil");
        reveal_strlit("salir");
    }
    assert("abrir"@ != "toggle_perfil"@) by {
        assert("abrir"@.len() != "toggle_perfil"@.len());
    }
    assert("abrir"@ != "salir"@) by {
        assert("abrir"@[0] != "salir"@[0]);
    }
    assert("toggle_perfil"@ != "salir"@) by {
        assert("toggle_perfil"@.len() != "salir"@.len());
    }
    let v = a_caracteres(id);
    let abrir = a_caracteres("abrir");
    let toggle = a_caracteres("toggle_perfil");
    let salir = a_caracteres("salir");
    let prefijo = a_caracteres("perfil::");
    if crate::texto::iguales(v.as_slice(), abrir.as_slice()) {
        AccionMenu::Abrir
    } else if crate::texto::iguales(v.as_slice(), toggle.as_slice()) {
        AccionMenu::TogglePerfil
    } else if crate::texto::iguales(v.as_slice(), salir.as_slice()) {
        AccionMenu::Salir
    } else if empieza_con(v.as_slice(), prefijo.as_slice()) {
        let resto = copiar_rango(v.as_slice(), 8, v.len());
        assert(resto@ =~= id@.skip(8));
        AccionMenu::CambiarPerfil(a_cadena(resto.as_slice()))
    } else {
        AccionMenu::Ninguna
    }
}

/// Whether minimising the main window sends it to the tray: only when both
/// "show in tray" and "minimise to tray" are on (missing values count as
/// off).
pub fn ocultar_en_bandeja(mostrar_en_bandeja: Option<bool>, minimizar_a_bandeja: Option<bool>) -> (r: bool)
    ensures
        r == (mostrar_en_bandeja == Some(true) && minimizar_a_bandeja == Some(true)),
{
    let mostrar = match mostrar_en_bandeja {
        Some(b) => b,
        None => false,
    };
    let minimizar = match minimizar_a_bandeja {
        Some(b) => b,
        None => false,
    };
    mostrar && minimizar
}

} // verus!
