//! Value types of the two catalogs and the rules that accept or reject a
//! value of each type, with the error message shown for a rejected value.

use vstd::prelude::*;
use crate::numeros::{
    es_digito, leer_bool, leer_u64, leer_u8, parse_bool, parse_u64, parse_u8, todos_digitos,
    valor_digitos, valor_digito,
};
use crate::texto::{
    a_caracteres, a_cadena, copiar_rango, dividir_en, empujar, es_sufijo, iguales, partes, recortar,
    recortar_vec, termina_con,
};

verus! {

/// Type of a general setting.
#[derive(PartialEq, Eq, Structural, Clone, Copy, Debug)]
pub enum TipoValor {
    Numero,
    NumeroPar,
    Texto,
    Trigger,
    Booleano,
}

/// Type of an appearance (CSS) variable.
#[derive(PartialEq, Eq, Structural, Clone, Copy, Debug)]
pub enum TipoValorCss {
    Color,
    Pixeles,
    Texto,
    Porcentaje,
    Modo,
}

/// A `Result` with its error text as characters.
pub open spec fn vista_resultado<T>(r: Result<T, String>) -> Result<T, Seq<char>> {
    match r {
        Ok(x) => Ok(x),
        Err(m) => Err(m@),
    }
}

/// `a`, then `b`, then `c`.
pub fn mensaje(a: &str, b: &str, c: &str) -> (r: String)
    ensures
        r@ == a@ + b@ + c@,
{
    let mut r = String::from_str(a);
    r.append(b);
    r.append(c);
    r
}

/// `prefijo` (which ends with an opening quote), `s`, and a closing quote.
pub open spec fn citado(prefijo: Seq<char>, s: Seq<char>) -> Seq<char> {
    prefijo + s + "\""@
}

// ------------------------------------------------------------------
// General settings
// ------------------------------------------------------------------

/// Outcome of reading a number setting.
pub open spec fn resultado_numero(v: Seq<char>) -> Result<u64, Seq<char>> {
    match leer_u64(recortar(v)) {
        Some(n) => Ok(n),
        None => Err(citado("Valor no numérico: \""@, v)),
    }
}

/// Outcome of reading a boolean setting.
pub open spec fn resultado_booleano(v: Seq<char>) -> Result<bool, Seq<char>> {
    match leer_bool(recortar(v)) {
        Some(b) => Ok(b),
        None => Err(citado("Valor no booleano: \""@, v)),
    }
}

/// Outcome of reading a "width,height" setting.
pub open spec fn resultado_numero_par(v: Seq<char>) -> Result<(u64, u64), Seq<char>> {
    let ps = partes(v, ',');
    if ps.len() != 2 {
        Err(citado("Se esperaban dos números separados por coma: \""@, v))
    } else {
        match (leer_u64(recortar(ps[0])), leer_u64(recortar(ps[1]))) {
            (Some(a), Some(b)) => Ok((a, b)),
            (None, _) => Err(citado("Valor no numérico: \""@, ps[0])),
            (Some(_), None) => Err(citado("Valor no numérico: \""@, ps[1])),
        }
    }
}

pub fn parsear_numero(valor: &str) -> (r: Result<u64, String>)
    ensures
        vista_resultado(r) == resultado_numero(valor@),
{
    let v = a_caracteres(valor);
    let t = recortar_vec(v.as_slice());
    match parse_u64(t.as_slice()) {
        Some(n) => Ok(n),
        None => Err(mensaje("Valor no numérico: \"", valor, "\"")),
    }
}

pub fn parsear_booleano(valor: &str) -> (r: Result<bool, String>)
    ensures
        vista_resultado(r) == resultado_booleano(valor@),
{
    let v = a_caracteres(valor);
    let t = recortar_vec(v.as_slice());
    match parse_bool(t.as_slice()) {
        Some(b) => Ok(b),
        None => Err(mensaje("Valor no booleano: \"", valor, "\"")),
    }
}

pub fn parsear_numero_par(valor: &str) -> (r: Result<(u64, u64), String>)
    ensures
        vista_resultado(r) == resultado_numero_par(valor@),
{
    let v = a_caracteres(valor);
    let ps = dividir_en(v.as_slice(), ',');
    if ps.len() != 2 {
        return Err(mensaje("Se esperaban dos números separados por coma: \"", valor, "\""));
    }
    let ghost p = partes(v@, ',');
    assert(ps[0]@ == p[0]);
    assert(ps[1]@ == p[1]);
    let a = parse_u64(recortar_vec(ps[0].as_slice()).as_slice());
    let b = parse_u64(recortar_vec(ps[1].as_slice()).as_slice());
    match (a, b) {
        (Some(x), Some(y)) => Ok((x, y)),
        (None, _) => {
            let s0 = a_cadena(ps[0].as_slice());
            Err(mensaje("Valor no numérico: \"", s0.as_str(), "\""))
        },
        (Some(_), None) => {
            let s1 = a_cadena(ps[1].as_slice());
            Err(mensaje("Valor no numérico: \"", s1.as_str(), "\""))
        },
    }
}

/// Message for a key binding that does not parse.
pub open spec fn mensaje_atajo(v: Seq<char>) -> Seq<char> {
    citado("Formato de atajo inválido: \""@, v)
}

/// Outcome of validating a general setting value. The format of a
/// `Trigger` value belongs to the key binding model: `atajo_valido` is
/// whether its parser accepts the value.
pub open spec fn validacion(tipo: TipoValor, v: Seq<char>, atajo_valido: bool) -> Result<
    (),
    Seq<char>,
> {
    match tipo {
        TipoValor::Numero => match resultado_numero(v) {
            Ok(_) => Ok(()),
            Err(m) => Err(m),
        },
        TipoValor::NumeroPar => match resultado_numero_par(v) {
            Ok(_) => Ok(()),
            Err(m) => Err(m),
        },
        TipoValor::Texto => if recortar(v).len() == 0 {
            Err("El valor no puede estar vacío"@)
        } else {
            Ok(())
        },
        TipoValor::Booleano => match resultado_booleano(v) {
            Ok(_) => Ok(()),
            Err(m) => Err(m),
        },
        TipoValor::Trigger => if atajo_valido {
            Ok(())
        } else {
            Err(mensaje_atajo(v))
        },
    }
}

/// Outcome of reading a key binding; the key binding parser's own verdict
/// is `reconocido`.
pub fn parsear_trigger(valor: &str, reconocido: bool) -> (r: Result<(), String>)
    ensures
        reconocido ==> r is Ok,
        !reconocido ==> (r matches Err(m) && m@ == mensaje_atajo(valor@)),
{
    if reconocido {
        Ok(())
    } else {
        Err(mensaje("Formato de atajo inválido: \"", valor, "\""))
    }
}

/// Validates `valor` against `tipo` without applying it.
pub fn validar_segun_tipo(tipo: TipoValor, valor: &str, atajo_valido: bool) -> (r: Result<
    (),
    String,
>)
    ensures
        vista_resultado(r) == validacion(tipo, valor@, atajo_valido),
{
    match tipo {
        TipoValor::Numero => match parsear_numero(valor) {
            Ok(_) => Ok(()),
            Err(m) => Err(m),
        },
        TipoValor::NumeroPar => match parsear_numero_par(valor) {
            Ok(_) => Ok(()),
            Err(m) => Err(m),
        },
        TipoValor::Texto => {
            let v = a_caracteres(valor);
            let t = recortar_vec(v.as_slice());
            if t.len() == 0 {
                Err(String::from_str("El valor no puede estar vacío"))
            } else {
                Ok(())
            }
        },
        TipoValor::Trigger => parsear_trigger(valor, atajo_valido),
        TipoValor::Booleano => match parsear_booleano(valor) {
            Ok(_) => Ok(()),
            Err(m) => Err(m),
        },
    }
}

// ------------------------------------------------------------------
// Appearance variables
// ------------------------------------------------------------------

pub open spec fn es_hex(c: char) -> bool {
    es_digito(c) || c == 'a' || c == 'b' || c == 'c' || c == 'd' || c == 'e' || c == 'f' || c == 'A'
        || c == 'B' || c == 'C' || c == 'D' || c == 'E' || c == 'F'
}

pub fn es_hex_exec(c: char) -> (r: bool)
    ensures
        r == es_hex(c),
{
    match c {
        '0' | '1' | '2' | '3' | '4' | '5' | '6' | '7' | '8' | '9' => true,
        'a' | 'b' | 'c' | 'd' | 'e' | 'f' => true,
        'A' | 'B' | 'C' | 'D' | 'E' | 'F' => true,
        _ => false,
    }
}

/// `#RRGGBB`.
pub open spec fn es_color(v: Seq<char>) -> bool {
    v.len() == 7 && v[0] == '#' && forall|i: int| 1 <= i < 7 ==> es_hex(#[trigger] v[i])
}

/// `Npx`, `N` a `u64` as `str::parse` reads it.
pub open spec fn es_pixeles(v: Seq<char>) -> bool {
    es_sufijo(seq!['p', 'x'], v) && leer_u64(v.take(v.len() - 2)) is Some
}

/// `N%` with `N` a `u8` no larger than 100.
pub open spec fn es_porcentaje(v: Seq<char>) -> bool {
    es_sufijo(seq!['%'], v) && match leer_u8(v.take(v.len() - 1)) {
        Some(n) => n <= 100,
        None => false,
    }
}

pub open spec fn es_modo(v: Seq<char>) -> bool {
    v == "plano"@ || v == "degradado"@
}

/// Outcome of validating an appearance value.
pub open spec fn validacion_css(tipo: TipoValorCss, valor: Seq<char>) -> Result<(), Seq<char>> {
    let v = recortar(valor);
    match tipo {
        TipoValorCss::Color => if es_color(v) {
            Ok(())
        } else {
            Err(citado("Color inválido, debe tener el formato #RRGGBB: \""@, v))
        },
        TipoValorCss::Pixeles => if es_pixeles(v) {
            Ok(())
        } else {
            Err(citado("Debe ser un tamaño en píxeles, ej. \"16px\": \""@, v))
        },
        TipoValorCss::Texto => if v.len() == 0 {
            Err("El valor no puede estar vacío"@)
        } else {
            Ok(())
        },
        TipoValorCss::Porcentaje => if es_porcentaje(v) {
            Ok(())
        } else {
            Err(citado("Debe ser un porcentaje entre 0% y 100%, ej. \"45%\": \""@, v))
        },
        TipoValorCss::Modo => if es_modo(v) {
            Ok(())
        } else {
            Err(citado("Debe ser \"plano\" o \"degradado\": \""@, v))
        },
    }
}

fn es_color_exec(v: &[char]) -> (r: bool)
    ensures
        r == es_color(v@),
{
    if v.len() != 7 || v[0] != '#' {
        return false;
    }
    for i in 1..7
        invariant
            v@.len() == 7,
            forall|k: int| 1 <= k < i ==> es_hex(#[trigger] v@[k]),
    {
        if !es_hex_exec(v[i]) {
            return false;
        }
    }
    true
}

pub fn validar_css_segun_tipo(tipo: TipoValorCss, valor: &str) -> (r: Result<(), String>)
    ensures
        vista_resultado(r) == validacion_css(tipo, valor@),
{
    let vc = a_caracteres(valor);
    let v = recortar_vec(vc.as_slice());
    let vs = a_cadena(v.as_slice());
    match tipo {
        TipoValorCss::Color => {
            if es_color_exec(v.as_slice()) {
                Ok(())
            } else {
                Err(mensaje("Color inválido, debe tener el formato #RRGGBB: \"", vs.as_str(), "\""))
            }
        },
        TipoValorCss::Pixeles => {
            let sufijo = vec!['p', 'x'];
            assert(sufijo@ == seq!['p', 'x']);
            let ok = if termina_con(v.as_slice(), sufijo.as_slice()) {
                let numero = copiar_rango(v.as_slice(), 0, v.len() - 2);
                parse_u64(numero.as_slice()).is_some()
            } else {
                false
            };
            if ok {
                Ok(())
            } else {
                Err(
                    mensaje(
                        "Debe ser un tamaño en píxeles, ej. \"16px\": \"",
                        vs.as_str(),
                        "\"",
                    ),
                )
            }
        },
        TipoValorCss::Texto => {
            if v.len() == 0 {
                Err(String::from_str("El valor no puede estar vacío"))
            } else {
                Ok(())
            }
        },
        TipoValorCss::Porcentaje => {
            let sufijo = vec!['%'];
            assert(sufijo@ == seq!['%']);
            let ok = if termina_con(v.as_slice(), sufijo.as_slice()) {
                let numero = copiar_rango(v.as_slice(), 0, v.len() - 1);
                match parse_u8(numero.as_slice()) {
                    Some(n) => n <= 100,
                    None => false,
                }
            } else {
                false
            };
            if ok {
                Ok(())
            } else {
                Err(
                    mensaje(
                        "Debe ser un porcentaje entre 0% y 100%, ej. \"45%\": \"",
                        vs.as_str(),
                        "\"",
                    ),
                )
            }
        },
        TipoValorCss::Modo => {
            let plano = a_caracteres("plano");
            let degradado = a_caracteres("degradado");
            if iguales(v.as_slice(), plano.as_slice()) || iguales(
                v.as_slice(),
                degradado.as_slice(),
            ) {
                Ok(())
            } else {
                Err(mensaje("Debe ser \"plano\" o \"degradado\": \"", vs.as_str(), "\""))
            }
        },
    }
}

// ------------------------------------------------------------------
// Numbers and booleans as text
// ------------------------------------------------------------------

pub open spec fn caracter_digito(d: nat) -> char {
    if d == 0 {
        '0'
    } else if d == 1 {
        '1'
    } else if d == 2 {
        '2'
    } else if d == 3 {
        '3'
    } else if d == 4 {
        '4'
    } else if d == 5 {
        '5'
    } else if d == 6 {
        '6'
    } else if d == 7 {
        '7'
    } else if d == 8 {
        '8'
    } else {
        '9'
    }
}

/// Decimal digits of `n`, as `to_string` writes them.
pub open spec fn decimal(n: nat) -> Seq<char>
    decreases n,
{
    if n < 10 {
        seq![caracter_digito(n)]
    } else {
        decimal(n / 10).push(caracter_digito(n % 10))
    }
}

/// Decimal text of a signed integer, as `to_string` writes it.
pub open spec fn decimal_entero(n: int) -> Seq<char> {
    if n < 0 {
        seq!['-'] + decimal((-n) as nat)
    } else {
        decimal(n as nat)
    }
}

/// `bool::to_string`.
pub open spec fn texto_bool(b: bool) -> Seq<char> {
    if b {
        seq!['t', 'r', 'u', 'e']
    } else {
        seq!['f', 'a', 'l', 's', 'e']
    }
}

fn caracter_digito_exec(d: u64) -> (c: char)
    requires
        d < 10,
    ensures
        c == caracter_digito(d as nat),
{
    if d == 0 {
        '0'
    } else if d == 1 {
        '1'
    } else if d == 2 {
        '2'
    } else if d == 3 {
        '3'
    } else if d == 4 {
        '4'
    } else if d == 5 {
        '5'
    } else if d == 6 {
        '6'
    } else if d == 7 {
        '7'
    } else if d == 8 {
        '8'
    } else {
        '9'
    }
}

fn anexar_decimal(s: &mut String, n: u64)
    ensures
        final(s)@ == old(s)@ + decimal(n as nat),
    decreases n,
{
    if n < 10 {
        empujar(s, caracter_digito_exec(n));
    } else {
        anexar_decimal(s, n / 10);
        empujar(s, caracter_digito_exec(n % 10));
    }
}

/// `n.to_string()`.
pub fn texto_natural(n: u64) -> (r: String)
    ensures
        r@ == decimal(n as nat),
{
    let mut s = String::new();
    anexar_decimal(&mut s, n);
    s
}

/// `n.to_string()` for a signed `n`.
pub fn texto_entero(n: i32) -> (r: String)
    ensures
        r@ == decimal_entero(n as int),
{
    let mut s = String::new();
    if n < 0 {
        empujar(&mut s, '-');
        let m: u64 = if n == i32::MIN {
            2147483648u64
        } else {
            (-n) as u64
        };
        anexar_decimal(&mut s, m);
    } else {
        anexar_decimal(&mut s, n as u64);
    }
    s
}

/// `b.to_string()`.
pub fn texto_booleano(b: bool) -> (r: String)
    ensures
        r@ == texto_bool(b),
{
    let v = if b {
        vec!['t', 'r', 'u', 'e']
    } else {
        vec!['f', 'a', 'l', 's', 'e']
    };
    a_cadena(v.as_slice())
}

proof fn lema_digito_caracter(d: nat)
    requires
        d < 10,
    ensures
        es_digito(caracter_digito(d)),
        valor_digito(caracter_digito(d)) == d,
{
}

/// The decimal text of `n` is read back as `n`.
pub proof fn lema_decimal(n: nat)
    ensures
        decimal(n).len() > 0,
        todos_digitos(decimal(n)),
        valor_digitos(decimal(n)) == n,
        es_digito(decimal(n)[0]),
    decreases n,
{
    if n < 10 {
        lema_digito_caracter(n);
        assert(decimal(n).drop_last() == Seq::<char>::empty());
        assert(valor_digitos(Seq::<char>::empty()) == 0);
        assert(valor_digitos(decimal(n)) == valor_digitos(decimal(n).drop_last()) * 10
            + valor_digito(decimal(n).last()));
    } else {
        lema_decimal(n / 10);
        lema_digito_caracter(n % 10);
        let d = decimal(n);
        assert(d.drop_last() == decimal(n / 10));
        assert forall|i: int| 0 <= i < d.len() implies es_digito(#[trigger] d[i]) by {
            if i < d.len() - 1 {
                assert(d[i] == decimal(n / 10)[i]);
            }
        }
        assert(d[0] == decimal(n / 10)[0]);
        assert((n / 10) * 10 + n % 10 == n) by (nonlinear_arith);
        assert(d.last() == caracter_digito(n % 10));
        assert(valor_digitos(d) == valor_digitos(d.drop_last()) * 10 + valor_digito(d.last()));
    }
}

/// Booleans written with `to_string` read back unchanged.
pub proof fn ley_booleano_texto(b: bool)
    ensures
        leer_bool(texto_bool(b)) == Some(b),
        recortar(texto_bool(b)) == texto_bool(b),
{
    let t = texto_bool(b);
    assert(crate::texto::sin_espacios_iniciales(t) == t);
    assert(crate::texto::sin_espacios_finales(t) == t);
}

/// A display mode is accepted exactly when, trimmed, it is `plano` or
/// `degradado`; otherwise the message quotes the trimmed value.
pub proof fn ley_modo_aceptado(v: Seq<char>)
    ensures
        validacion_css(TipoValorCss::Modo, v) is Ok <==> (recortar(v) == "plano"@ || recortar(v)
            == "degradado"@),
        validacion_css(TipoValorCss::Modo, v) is Err ==> validacion_css(TipoValorCss::Modo, v)
            == Err::<(), Seq<char>>("Debe ser \"plano\" o \"degradado\": \""@ + recortar(v) + "\""@),
{
}

} // verus!
