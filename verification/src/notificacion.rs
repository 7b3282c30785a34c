//! The profile notification: the address its window is opened at, with the
//! profile name percent-encoded as a query parameter.

use vstd::prelude::*;
use crate::texto::{anexar, empujar};

verus! {

/// Bytes written as themselves: ASCII letters, digits, `-`, `_`, `.`, `~`.
pub open spec fn no_reservado(b: u8) -> bool {
    (65 <= b <= 90) || (97 <= b <= 122) || (48 <= b <= 57) || b == 45 || b == 95 || b == 46 || b == 126
}

/// Upper-case hexadecimal digit of `n` (`n < 16`).
pub open spec fn digito_hex(n: u8) -> char {
    if n < 10 {
        (48 + n) as char
    } else {
        (55 + n) as char
    }
}

/// One byte: itself when not reserved, else `%` and two upper-case
/// hexadecimal digits.
pub open spec fn codificar_byte(b: u8) -> Seq<char> {
    if no_reservado(b) {
        seq![b as char]
    } else {
        seq!['%', digito_hex(b / 16), digito_hex(b % 16)]
    }
}

pub open spec fn codificar_bytes(bs: Seq<u8>) -> Seq<char>
    decreases bs.len(),
{
    if bs.len() == 0 {
        seq![]
    } else {
        codificar_bytes(bs.drop_last()) + codificar_byte(bs.last())
    }
}

fn digito_hex_exec(n: u8) -> (c: char)
    requires
        n < 16,
    ensures
        c == digito_hex(n),
{
    if n < 10 {
        (48 + n) as char
    } else {
        (55 + n) as char
    }
}

/// Percent-encodes a text for a query parameter, byte by byte of its UTF-8
/// form.
pub fn codificar_query(texto: &str) -> (r: String)
    ensures
        r@ == codificar_bytes(vstd::utf8::encode_utf8(texto@)),
{
    let bytes = texto.as_bytes();
    let ghost bs = bytes@;
    let mut salida = String::new();
    let n = bytes.len();
    assert(bs.take(0) =~= Seq::<u8>::empty());
    for i in 0..n
        invariant
            n == bs.len(),
            bs == bytes@,
            salida@ == codificar_bytes(bs.take(i as int)),
    {
        let b = bytes[i];
        assert(bs.take(i + 1).drop_last() =~= bs.take(i as int));
        assert(bs.take(i + 1).last() == b);
        if (65 <= b && b <= 90) || (97 <= b && b <= 122) || (48 <= b && b <= 57) || b == 45 || b == 95
            || b == 46 || b == 126 {
            empujar(&mut salida, b as char);
        } else {
            empujar(&mut salida, '%');
            empujar(&mut salida, digito_hex_exec(b / 16));
            empujar(&mut salida, digito_hex_exec(b % 16));
        }
        assert(salida@ =~= codificar_bytes(bs.take(i + 1)));
    }
    assert(bs.take(n as int) =~= bs);
    salida
}

/// The address of the notification shown when a profile is switched on
/// (`activado`) or off.
pub fn url_notificacion_real(nombre_perfil: &str, activado: bool) -> (r: String)
    ensures
        r@ == "notificacion.html?modo=real&perfil="@ + codificar_bytes(vstd::utf8::encode_utf8(nombre_perfil@))
            + "&activado="@ + (if activado {
            "true"@
        } else {
            "false"@
        }),
{
    let mut r = String::from_str("notificacion.html?modo=real&perfil=");
    let q = codificar_query(nombre_perfil);
    r.append(q.as_str());
    r.append("&activado=");
    if activado {
        r.append("true");
    } else {
        r.append("false");
    }
    r
}

/// The address of the notification opened to move it.
pub fn url_notificacion_ubicacion() -> (r: String)
    ensures
        r@ == "notificacion.html?modo=ubicar"@,
{
    String::from_str("notificacion.html?modo=ubicar")
}

/// What to show when a profile is switched on or off: nothing when
/// notifications are off, the notification for the current profile's name
/// when it could be read, and why not otherwise.
pub fn notificar_estado_perfil(
    mostrar_notificaciones: bool,
    nombre_perfil: Result<String, String>,
    activado: bool,
) -> (r: Result<Option<String>, String>)
    ensures
        !mostrar_notificaciones ==> r == Ok::<Option<String>, String>(None),
        mostrar_notificaciones && nombre_perfil is Err ==> (r matches Err(m) && m@ == nombre_perfil->Err_0@),
        mostrar_notificaciones && nombre_perfil is Ok ==> (r matches Ok(Some(u)) && u@
            == "notificacion.html?modo=real&perfil="@ + codificar_bytes(
            vstd::utf8::encode_utf8(nombre_perfil->Ok_0@),
        ) + "&activado="@ + (if activado {
            "true"@
        } else {
            "false"@
        })),
{
    if !mostrar_notificaciones {
        return Ok(None);
    }
    match nombre_perfil {
        Err(e) => Err(e),
        Ok(n) => Ok(Some(url_notificacion_real(n.as_str(), activado))),
    }
}

// ------------------------------------------------------------------
// Laws
// ------------------------------------------------------------------

/// A character that cannot end or split a query parameter.
pub open spec fn caracter_de_query(c: char) -> bool {
    ('A' <= c <= 'Z') || ('a' <= c <= 'z') || ('0' <= c <= '9') || c == '-' || c == '_' || c == '.'
        || c == '~' || c == '%'
}

/// Every encoded text is made of letters, digits, `-`, `_`, `.`, `~` and
/// `%` alone: no `&`, `=`, `#`, space or other character that would end or
/// split the parameter.
pub proof fn ley_query_segura(bs: Seq<u8>)
    ensures
        forall|i: int| 0 <= i < codificar_bytes(bs).len() ==> caracter_de_query(#[trigger] codificar_bytes(bs)[i]),
    decreases bs.len(),
{
    if bs.len() > 0 {
        ley_query_segura(bs.drop_last());
        let a = codificar_bytes(bs.drop_last());
        let b = codificar_byte(bs.last());
        let x = bs.last();
        assert(x / 16 < 16 && x % 16 < 16);
        assert forall|i: int| 0 <= i < (a + b).len() implies caracter_de_query(#[trigger] (a + b)[i]) by {
            if i >= a.len() {
                assert((a + b)[i] == b[i - a.len()]);
            }
        }
    }
}

/// Bytes that need no escaping come out unchanged.
pub proof fn ley_sin_reservados(bs: Seq<u8>)
    requires
        forall|i: int| 0 <= i < bs.len() ==> no_reservado(#[trigger] bs[i]),
    ensures
        codificar_bytes(bs) == Seq::new(bs.len(), |i: int| bs[i] as char),
    decreases bs.len(),
{
    if bs.len() > 0 {
        ley_sin_reservados(bs.drop_last());
        assert(no_reservado(bs[bs.len() - 1]));
        assert(codificar_bytes(bs) =~= Seq::new(bs.len(), |i: int| bs[i] as char));
    }
}

/// Value of an upper-case hexadecimal digit.
pub open spec fn valor_hex(c: char) -> int {
    if '0' <= c <= '9' {
        c as int - 48
    } else {
        c as int - 55
    }
}

/// Undoes the encoding: `%` and two hexadecimal digits give one byte, any
/// other character gives its own code as a byte.
pub open spec fn decodificar(s: Seq<char>) -> Seq<u8>
    decreases s.len(),
{
    if s.len() == 0 {
        seq![]
    } else if s.len() >= 3 && s[s.len() - 3] == '%' {
        decodificar(s.take(s.len() - 3)).push(
            (valor_hex(s[s.len() - 2]) * 16 + valor_hex(s[s.len() - 1])) as u8,
        )
    } else {
        decodificar(s.drop_last()).push(s.last() as u8)
    }
}

proof fn lema_digito_hex(n: u8)
    requires
        n < 16,
    ensures
        valor_hex(digito_hex(n)) == n,
        digito_hex(n) != '%',
{
}

proof fn lema_porcentajes(bs: Seq<u8>)
    ensures
        forall|p: int|
            0 <= p < codificar_bytes(bs).len() && #[trigger] codificar_bytes(bs)[p] == '%' ==> p + 2
                < codificar_bytes(bs).len(),
    decreases bs.len(),
{
    if bs.len() > 0 {
        lema_porcentajes(bs.drop_last());
        let a = codificar_bytes(bs.drop_last());
        let x = bs.last();
        let t = codificar_byte(x);
        lema_digito_hex(x / 16);
        lema_digito_hex(x % 16);
        assert forall|p: int| 0 <= p < (a + t).len() && #[trigger] (a + t)[p] == '%' implies p + 2 < (a
            + t).len() by {
            if p < a.len() {
                assert((a + t)[p] == a[p]);
            } else {
                assert((a + t)[p] == t[p - a.len()]);
            }
        }
    }
}

/// The encoding can be undone: decoding an encoded text gives back its
/// bytes.
pub proof fn ley_query_reversible(bs: Seq<u8>)
    ensures
        decodificar(codificar_bytes(bs)) == bs,
    decreases bs.len(),
{
    if bs.len() > 0 {
        let previos = bs.drop_last();
        ley_query_reversible(previos);
        lema_porcentajes(previos);
        let a = codificar_bytes(previos);
        let x = bs.last();
        let t = codificar_byte(x);
        let s = a + t;
        assert(codificar_bytes(bs) == s);
        if no_reservado(x) {
            assert(s.drop_last() =~= a);
            if s.len() >= 3 {
                assert(s[s.len() - 3] == a[a.len() - 2]);
                if a[a.len() - 2] == '%' {
                    assert(a.len() - 2 + 2 < a.len());
                }
            }
            assert(s.last() == x as char);
            assert((x as char) as u8 == x);
        } else {
            lema_digito_hex(x / 16);
            lema_digito_hex(x % 16);
            assert(s[s.len() - 3] == '%');
            assert(s.take(s.len() - 3) =~= a);
            assert((x / 16) * 16 + x % 16 == x);
        }
        assert(previos.push(x) =~= bs);
    }
}

} // verus!
