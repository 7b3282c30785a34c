//! Single settings stored in the user settings store under fixed keys:
//! primary input devices, engine mode, help panel, start-up options and
//! the applied theme. Each setter writes one key (two for the theme) and
//! leaves every other entry as it was; each getter reads its key back with
//! the same parsing the program applies (trimmed, then `str::parse`).

use vstd::prelude::*;
use crate::formato::{lema_recortar_sin_bordes, sin_bordes};
use crate::mapa::MapaUsuario;
use crate::numeros::{
    entero_decimal, es_digito, leer_bool, leer_i32, leer_u32, natural_decimal, parse_bool,
    parse_i32, parse_u32, digitos_decimal,
};
use crate::texto::{a_caracteres, recortar, recortar_cadena, recortar_vec};
use crate::valores::{
    decimal, decimal_entero, lema_decimal, ley_booleano_texto, texto_bool, texto_booleano,
    texto_entero, texto_natural,
};

verus! {

pub const CLAVE_DISPOSITIVO_TECLADO: &'static str = "dispositivo.teclado";

pub const CLAVE_DISPOSITIVO_MOUSE: &'static str = "dispositivo.mouse";

pub const CLAVE_MODO_MOTOR: &'static str = "motor.modo";

pub const CLAVE_AYUDA_ANCHO: &'static str = "ayuda.ancho";

pub const CLAVE_AYUDA_VISIBLE: &'static str = "ayuda.visible";

pub const CLAVE_INICIAR_CON_WINDOWS: &'static str = "inicio.con_windows";

pub const CLAVE_INICIAR_MINIMIZADO: &'static str = "inicio.minimizado";

pub const CLAVE_MOSTRAR_EN_BANDEJA: &'static str = "programa.mostrar_en_bandeja";

pub const CLAVE_MINIMIZAR_A_BANDEJA: &'static str = "programa.minimizar_a_bandeja";

pub const CLAVE_INICIAR_CON_PERFIL: &'static str = "inicio.con_perfil";

pub const CLAVE_TEMA_NOMBRE: &'static str = "tema.nombre";

pub const CLAVE_TEMA_ORIGEN: &'static str = "tema.origen";

pub type MapaTexto = Map<Seq<char>, Seq<char>>;

/// The stored value of `k`, trimmed.
pub open spec fn texto_en(m: MapaTexto, k: Seq<char>) -> Option<Seq<char>> {
    if m.dom().contains(k) {
        Some(recortar(m[k]))
    } else {
        None
    }
}

/// The stored value of `k` read as an `i32`.
pub open spec fn entero_en(m: MapaTexto, k: Seq<char>) -> Option<i32> {
    match texto_en(m, k) {
        Some(t) => leer_i32(t),
        None => None,
    }
}

/// The stored value of `k` read as a `u32`.
pub open spec fn natural_en(m: MapaTexto, k: Seq<char>) -> Option<u32> {
    match texto_en(m, k) {
        Some(t) => leer_u32(t),
        None => None,
    }
}

/// The stored value of `k` read as a `bool`.
pub open spec fn booleano_en(m: MapaTexto, k: Seq<char>) -> Option<bool> {
    match texto_en(m, k) {
        Some(t) => leer_bool(t),
        None => None,
    }
}

fn leer_texto(mapa: &MapaUsuario, clave: &str) -> (r: Option<String>)
    ensures
        match r {
            Some(s) => texto_en(mapa@, clave@) == Some(s@),
            None => texto_en(mapa@, clave@) is None,
        },
{
    match mapa.obtener(clave) {
        Some(v) => Some(recortar_cadena(v.as_str())),
        None => None,
    }
}

fn leer_entero(mapa: &MapaUsuario, clave: &str) -> (r: Option<i32>)
    ensures
        r == entero_en(mapa@, clave@),
{
    match mapa.obtener(clave) {
        Some(v) => {
            let c = a_caracteres(v.as_str());
            parse_i32(recortar_vec(c.as_slice()).as_slice())
        },
        None => None,
    }
}

fn leer_natural(mapa: &MapaUsuario, clave: &str) -> (r: Option<u32>)
    ensures
        r == natural_en(mapa@, clave@),
{
    match mapa.obtener(clave) {
        Some(v) => {
            let c = a_caracteres(v.as_str());
            parse_u32(recortar_vec(c.as_slice()).as_slice())
        },
        None => None,
    }
}

fn leer_booleano(mapa: &MapaUsuario, clave: &str) -> (r: Option<bool>)
    ensures
        r == booleano_en(mapa@, clave@),
{
    match mapa.obtener(clave) {
        Some(v) => {
            let c = a_caracteres(v.as_str());
            parse_bool(recortar_vec(c.as_slice()).as_slice())
        },
        None => None,
    }
}

fn guardar_texto(mapa: &mut MapaUsuario, clave: &str, valor: &str)
    ensures
        final(mapa)@ == old(mapa)@.insert(clave@, valor@),
{
    mapa.insertar(String::from_str(clave), String::from_str(valor));
}

// ------------------------------------------------------------------
// Primary devices
// ------------------------------------------------------------------

fn leer_dispositivo(mapa: &MapaUsuario, clave: &str) -> (r: Option<i32>)
    ensures
        r == entero_en(mapa@, clave@),
{
    leer_entero(mapa, clave)
}

fn guardar_dispositivo(mapa: &mut MapaUsuario, clave: &str, device: i32)
    ensures
        final(mapa)@ == old(mapa)@.insert(clave@, decimal_entero(device as int)),
{
    mapa.insertar(String::from_str(clave), texto_entero(device));
}

/// Keyboard device number saved in a previous session.
pub fn leer_dispositivo_teclado(mapa: &MapaUsuario) -> (r: Option<i32>)
    ensures
        r == entero_en(mapa@, CLAVE_DISPOSITIVO_TECLADO@),
{
    leer_dispositivo(mapa, CLAVE_DISPOSITIVO_TECLADO)
}

/// Mouse device number saved in a previous session.
pub fn leer_dispositivo_mouse(mapa: &MapaUsuario) -> (r: Option<i32>)
    ensures
        r == entero_en(mapa@, CLAVE_DISPOSITIVO_MOUSE@),
{
    leer_dispositivo(mapa, CLAVE_DISPOSITIVO_MOUSE)
}

pub fn guardar_dispositivo_teclado(mapa: &mut MapaUsuario, device: i32)
    ensures
        final(mapa)@ == old(mapa)@.insert(CLAVE_DISPOSITIVO_TECLADO@, decimal_entero(device as int)),
{
    guardar_dispositivo(mapa, CLAVE_DISPOSITIVO_TECLADO, device)
}

pub fn guardar_dispositivo_mouse(mapa: &mut MapaUsuario, device: i32)
    ensures
        final(mapa)@ == old(mapa)@.insert(CLAVE_DISPOSITIVO_MOUSE@, decimal_entero(device as int)),
{
    guardar_dispositivo(mapa, CLAVE_DISPOSITIVO_MOUSE, device)
}

// ------------------------------------------------------------------
// Engine mode
// ------------------------------------------------------------------

pub fn guardar_modo_motor(mapa: &mut MapaUsuario, modo: &str)
    ensures
        final(mapa)@ == old(mapa)@.insert(CLAVE_MODO_MOTOR@, modo@),
{
    guardar_texto(mapa, CLAVE_MODO_MOTOR, modo)
}

pub fn leer_modo_motor(mapa: &MapaUsuario) -> (r: Option<String>)
    ensures
        match r {
            Some(s) => texto_en(mapa@, CLAVE_MODO_MOTOR@) == Some(s@),
            None => texto_en(mapa@, CLAVE_MODO_MOTOR@) is None,
        },
{
    leer_texto(mapa, CLAVE_MODO_MOTOR)
}

// ------------------------------------------------------------------
// Help panel
// ------------------------------------------------------------------

pub fn guardar_ancho_panel_ayuda(mapa: &mut MapaUsuario, ancho: u32)
    ensures
        final(mapa)@ == old(mapa)@.insert(CLAVE_AYUDA_ANCHO@, decimal(ancho as nat)),
{
    mapa.insertar(String::from_str(CLAVE_AYUDA_ANCHO), texto_natural(ancho as u64));
}

pub fn leer_ancho_panel_ayuda(mapa: &MapaUsuario) -> (r: Option<u32>)
    ensures
        r == natural_en(mapa@, CLAVE_AYUDA_ANCHO@),
{
    leer_natural(mapa, CLAVE_AYUDA_ANCHO)
}

pub fn guardar_visible_panel_ayuda(mapa: &mut MapaUsuario, visible: bool)
    ensures
        final(mapa)@ == old(mapa)@.insert(CLAVE_AYUDA_VISIBLE@, texto_bool(visible)),
{
    mapa.insertar(String::from_str(CLAVE_AYUDA_VISIBLE), texto_booleano(visible));
}

pub fn leer_visible_panel_ayuda(mapa: &MapaUsuario) -> (r: Option<bool>)
    ensures
        r == booleano_en(mapa@, CLAVE_AYUDA_VISIBLE@),
{
    leer_booleano(mapa, CLAVE_AYUDA_VISIBLE)
}

// ------------------------------------------------------------------
// Start-up options
// ------------------------------------------------------------------

pub fn guardar_iniciar_con_windows(mapa: &mut MapaUsuario, activo: bool)
    ensures
        final(mapa)@ == old(mapa)@.insert(CLAVE_INICIAR_CON_WINDOWS@, texto_bool(activo)),
{
    mapa.insertar(String::from_str(CLAVE_INICIAR_CON_WINDOWS), texto_booleano(activo));
}

pub fn leer_iniciar_con_windows(mapa: &MapaUsuario) -> (r: Option<bool>)
    ensures
        r == booleano_en(mapa@, CLAVE_INICIAR_CON_WINDOWS@),
{
    leer_booleano(mapa, CLAVE_INICIAR_CON_WINDOWS)
}

pub fn guardar_iniciar_minimizado(mapa: &mut MapaUsuario, activo: bool)
    ensures
        final(mapa)@ == old(mapa)@.insert(CLAVE_INICIAR_MINIMIZADO@, texto_bool(activo)),
{
    mapa.insertar(String::from_str(CLAVE_INICIAR_MINIMIZADO), texto_booleano(activo));
}

pub fn leer_iniciar_minimizado(mapa: &MapaUsuario) -> (r: Option<bool>)
    ensures
        r == booleano_en(mapa@, CLAVE_INICIAR_MINIMIZADO@),
{
    leer_booleano(mapa, CLAVE_INICIAR_MINIMIZADO)
}

pub fn guardar_minimizar_a_bandeja(mapa: &mut MapaUsuario, activo: bool)
    ensures
        final(mapa)@ == old(mapa)@.insert(CLAVE_MINIMIZAR_A_BANDEJA@, texto_bool(activo)),
{
    mapa.insertar(String::from_str(CLAVE_MINIMIZAR_A_BANDEJA), texto_booleano(activo));
}

pub fn leer_minimizar_a_bandeja(mapa: &MapaUsuario) -> (r: Option<bool>)
    ensures
        r == booleano_en(mapa@, CLAVE_MINIMIZAR_A_BANDEJA@),
{
    leer_booleano(mapa, CLAVE_MINIMIZAR_A_BANDEJA)
}

pub fn guardar_mostrar_en_bandeja(mapa: &mut MapaUsuario, activo: bool)
    ensures
        final(mapa)@ == old(mapa)@.insert(CLAVE_MOSTRAR_EN_BANDEJA@, texto_bool(activo)),
{
    mapa.insertar(String::from_str(CLAVE_MOSTRAR_EN_BANDEJA), texto_booleano(activo));
}

pub fn leer_mostrar_en_bandeja(mapa: &MapaUsuario) -> (r: Option<bool>)
    ensures
        r == booleano_en(mapa@, CLAVE_MOSTRAR_EN_BANDEJA@),
{
    leer_booleano(mapa, CLAVE_MOSTRAR_EN_BANDEJA)
}

pub fn guardar_iniciar_con_perfil(mapa: &mut MapaUsuario, valor: &str)
    ensures
        final(mapa)@ == old(mapa)@.insert(CLAVE_INICIAR_CON_PERFIL@, valor@),
{
    guardar_texto(mapa, CLAVE_INICIAR_CON_PERFIL, valor)
}

pub fn leer_iniciar_con_perfil(mapa: &MapaUsuario) -> (r: Option<String>)
    ensures
        match r {
            Some(s) => texto_en(mapa@, CLAVE_INICIAR_CON_PERFIL@) == Some(s@),
            None => texto_en(mapa@, CLAVE_INICIAR_CON_PERFIL@) is None,
        },
{
    leer_texto(mapa, CLAVE_INICIAR_CON_PERFIL)
}

/// The start-up profile that still has to be checked against the saved
/// profiles: the stored name, unless absent or `ultimo`.
pub open spec fn perfil_pendiente(m: MapaTexto) -> Option<Seq<char>> {
    match texto_en(m, CLAVE_INICIAR_CON_PERFIL@) {
        Some(n) => if n == "ultimo"@ {
            None
        } else {
            Some(n)
        },
        None => None,
    }
}

/// Name of the start-up profile to check, if any.
pub fn perfil_a_validar(mapa: &MapaUsuario) -> (r: Option<String>)
    ensures
        match r {
            Some(s) => perfil_pendiente(mapa@) == Some(s@),
            None => perfil_pendiente(mapa@) is None,
        },
{
    match leer_iniciar_con_perfil(mapa) {
        Some(n) => {
            let ultimo = String::from_str("ultimo");
            if n == ultimo {
                None
            } else {
                Some(n)
            }
        },
        None => None,
    }
}

/// Falls back to `ultimo` when the start-up profile is a specific profile
/// that does not exist or does not load (`existe_y_carga` is the outcome of
/// that check for `perfil_a_validar`'s name).
pub fn validar_iniciar_con_perfil(mapa: &mut MapaUsuario, existe_y_carga: bool)
    ensures
        perfil_pendiente(old(mapa)@) is Some && !existe_y_carga ==> final(mapa)@ == old(mapa)@.insert(
            CLAVE_INICIAR_CON_PERFIL@,
            "ultimo"@,
        ),
        !(perfil_pendiente(old(mapa)@) is Some && !existe_y_carga) ==> final(mapa)@ == old(mapa)@,
{
    if perfil_a_validar(mapa).is_some() && !existe_y_carga {
        guardar_iniciar_con_perfil(mapa, "ultimo");
    }
}

/// `true` when there is no settings file yet (`archivo_existe` is whether
/// it exists, or the error resolving its folder).
pub fn primer_inicio(archivo_existe: Result<bool, String>) -> (r: bool)
    ensures
        r == match archivo_existe {
            Ok(existe) => !existe,
            Err(_) => true,
        },
{
    match archivo_existe {
        Ok(existe) => !existe,
        Err(_) => true,
    }
}

/// Records the applied theme (name and origin).
pub fn guardar_tema_aplicado(mapa: &mut MapaUsuario, nombre: &str, origen: &str)
    ensures
        final(mapa)@ == old(mapa)@.insert(CLAVE_TEMA_NOMBRE@, nombre@).insert(
            CLAVE_TEMA_ORIGEN@,
            origen@,
        ),
{
    guardar_texto(mapa, CLAVE_TEMA_NOMBRE, nombre);
    guardar_texto(mapa, CLAVE_TEMA_ORIGEN, origen);
}

// ------------------------------------------------------------------
// Laws
// ------------------------------------------------------------------

/// A signed number written with `to_string` is read back unchanged.
pub proof fn ley_entero_texto(n: i32)
    ensures
        leer_i32(recortar(decimal_entero(n as int))) == Some(n),
{
    let t = decimal_entero(n as int);
    if n < 0 {
        let d = decimal((-n) as nat);
        lema_decimal((-n) as nat);
        assert(t.drop_first() == d);
        assert(sin_bordes(t)) by {
            assert(t.last() == d.last());
            assert(es_digito(d[d.len() - 1]));
        }
    } else {
        let d = decimal(n as nat);
        lema_decimal(n as nat);
        assert(sin_bordes(t)) by {
            assert(es_digito(d[d.len() - 1]));
        }
    }
    lema_recortar_sin_bordes(t);
}

/// An unsigned number written with `to_string` is read back unchanged.
pub proof fn ley_natural_texto(n: u32)
    ensures
        leer_u32(recortar(decimal(n as nat))) == Some(n),
{
    let d = decimal(n as nat);
    lema_decimal(n as nat);
    assert(sin_bordes(d)) by {
        assert(es_digito(d[d.len() - 1]));
    }
    lema_recortar_sin_bordes(d);
}

/// Reading a setting right after writing it gives the written value, and
/// writing one setting leaves the others readable as before.
pub proof fn ley_guardar_leer(
    m: MapaTexto,
    k: Seq<char>,
    otra: Seq<char>,
    v: Seq<char>,
    d: i32,
    a: u32,
    b: bool,
)
    requires
        k != otra,
    ensures
        entero_en(m.insert(k, decimal_entero(d as int)), k) == Some(d),
        natural_en(m.insert(k, decimal(a as nat)), k) == Some(a),
        booleano_en(m.insert(k, texto_bool(b)), k) == Some(b),
        texto_en(m.insert(k, v), otra) == texto_en(m, otra),
{
    ley_entero_texto(d);
    ley_natural_texto(a);
    ley_booleano_texto(b);
}

} // verus!
