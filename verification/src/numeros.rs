//! Decimal number and boolean parsing with the exact acceptance rules of
//! `str::parse` for `u64`, `u32`, `u8`, `i32` and `bool`: an optional sign,
//! then one or more ASCII digits, nothing else, value in range.

use vstd::prelude::*;

verus! {

pub open spec fn es_digito(c: char) -> bool {
    c == '0' || c == '1' || c == '2' || c == '3' || c == '4' || c == '5' || c == '6' || c == '7'
        || c == '8' || c == '9'
}

pub open spec fn valor_digito(c: char) -> nat {
    if c == '1' {
        1
    } else if c == '2' {
        2
    } else if c == '3' {
        3
    } else if c == '4' {
        4
    } else if c == '5' {
        5
    } else if c == '6' {
        6
    } else if c == '7' {
        7
    } else if c == '8' {
        8
    } else if c == '9' {
        9
    } else {
        0
    }
}

pub open spec fn todos_digitos(s: Seq<char>) -> bool {
    forall|i: int| 0 <= i < s.len() ==> es_digito(#[trigger] s[i])
}

/// Value of a digit string, most significant digit first.
pub open spec fn valor_digitos(s: Seq<char>) -> nat
    decreases s.len(),
{
    if s.len() == 0 {
        0
    } else {
        valor_digitos(s.drop_last()) * 10 + valor_digito(s.last())
    }
}

/// One or more digits and nothing else.
pub open spec fn digitos_decimal(s: Seq<char>) -> Option<nat> {
    if s.len() > 0 && todos_digitos(s) {
        Some(valor_digitos(s))
    } else {
        None
    }
}

/// Unsigned decimal text: an optional `+`, then digits.
pub open spec fn natural_decimal(s: Seq<char>) -> Option<nat> {
    if s.len() > 0 && s[0] == '+' {
        digitos_decimal(s.drop_first())
    } else {
        digitos_decimal(s)
    }
}

/// Signed decimal text: an optional `+` or `-`, then digits.
pub open spec fn entero_decimal(s: Seq<char>) -> Option<int> {
    if s.len() > 0 && s[0] == '-' {
        match digitos_decimal(s.drop_first()) {
            Some(n) => Some(-n),
            None => None,
        }
    } else {
        match natural_decimal(s) {
            Some(n) => Some(n as int),
            None => None,
        }
    }
}

pub open spec fn acotado(o: Option<nat>, tope: nat) -> Option<u64> {
    match o {
        Some(n) => if n <= tope && n <= u64::MAX {
            Some(n as u64)
        } else {
            None
        },
        None => None,
    }
}

/// `s.parse::<u64>()`.
pub open spec fn leer_u64(s: Seq<char>) -> Option<u64> {
    acotado(natural_decimal(s), u64::MAX as nat)
}

/// `s.parse::<u32>()`.
pub open spec fn leer_u32(s: Seq<char>) -> Option<u32> {
    match natural_decimal(s) {
        Some(n) => if n <= u32::MAX {
            Some(n as u32)
        } else {
            None
        },
        None => None,
    }
}

/// `s.parse::<u8>()`.
pub open spec fn leer_u8(s: Seq<char>) -> Option<u8> {
    match natural_decimal(s) {
        Some(n) => if n <= u8::MAX {
            Some(n as u8)
        } else {
            None
        },
        None => None,
    }
}

/// `s.parse::<i32>()`.
pub open spec fn leer_i32(s: Seq<char>) -> Option<i32> {
    match entero_decimal(s) {
        Some(n) => if i32::MIN <= n <= i32::MAX {
            Some(n as i32)
        } else {
            None
        },
        None => None,
    }
}

/// `s.parse::<bool>()`: exactly `true` or `false`.
pub open spec fn leer_bool(s: Seq<char>) -> Option<bool> {
    if s == seq!['t', 'r', 'u', 'e'] {
        Some(true)
    } else if s == seq!['f', 'a', 'l', 's', 'e'] {
        Some(false)
    } else {
        None
    }
}

pub fn digito(c: char) -> (r: Option<u8>)
    ensures
        r is Some <==> es_digito(c),
        r matches Some(d) ==> d == valor_digito(c) && d <= 9,
{
    match c {
        '0' => Some(0),
        '1' => Some(1),
        '2' => Some(2),
        '3' => Some(3),
        '4' => Some(4),
        '5' => Some(5),
        '6' => Some(6),
        '7' => Some(7),
        '8' => Some(8),
        '9' => Some(9),
        _ => None,
    }
}

proof fn lema_valor_prefijo(s: Seq<char>, k: int)
    requires
        0 <= k <= s.len(),
    ensures
        valor_digitos(s.take(k)) <= valor_digitos(s),
    decreases s.len(),
{
    if k < s.len() {
        assert(s.drop_last().take(k) == s.take(k));
        lema_valor_prefijo(s.drop_last(), k);
    } else {
        assert(s.take(k) == s);
    }
}

/// Digits of `v` from `desde` to the end, read as a number no larger than `tope`.
pub fn leer_digitos(v: &[char], desde: usize, tope: u64) -> (r: Option<u64>)
    requires
        desde <= v.len(),
    ensures
        r == acotado(digitos_decimal(v@.skip(desde as int)), tope as nat),
{
    let n = v.len();
    let ghost d = v@.skip(desde as int);
    if desde == n {
        return None;
    }
    let mut acc: u128 = 0;
    let mut i = desde;
    while i < n
        invariant
            desde <= i <= n == v@.len(),
            d == v@.skip(desde as int),
            acc == valor_digitos(d.take(i - desde)),
            acc <= tope,
            todos_digitos(d.take(i - desde)),
        decreases n - i,
    {
        assert(d.take(i - desde + 1).drop_last() == d.take(i - desde));
        assert(d[i - desde] == v@[i as int]);
        match digito(v[i]) {
            None => {
                assert(!es_digito(d[i - desde]));
                return None;
            },
            Some(x) => {
                let nuevo: u128 = acc * 10 + x as u128;
                if nuevo > tope as u128 {
                    proof {
                        if todos_digitos(d) {
                            lema_valor_prefijo(d, i - desde + 1);
                        }
                    }
                    return None;
                }
                acc = nuevo;
                assert forall|k: int| 0 <= k < i - desde + 1 implies es_digito(
                    #[trigger] d.take(i - desde + 1)[k],
                ) by {
                    if k < i - desde {
                        assert(d.take(i - desde + 1)[k] == d.take(i - desde)[k]);
                    }
                }
            },
        }
        i += 1;
    }
    assert(d.take(n - desde) == d);
    Some(acc as u64)
}

/// Unsigned decimal text read as a number no larger than `tope`.
pub fn leer_natural(v: &[char], tope: u64) -> (r: Option<u64>)
    ensures
        r == acotado(natural_decimal(v@), tope as nat),
{
    if v.len() > 0 && v[0] == '+' {
        assert(v@.drop_first() == v@.skip(1));
        leer_digitos(v, 1, tope)
    } else {
        assert(v@.skip(0) == v@);
        leer_digitos(v, 0, tope)
    }
}

pub fn parse_u64(v: &[char]) -> (r: Option<u64>)
    ensures
        r == leer_u64(v@),
{
    leer_natural(v, u64::MAX)
}

pub fn parse_u32(v: &[char]) -> (r: Option<u32>)
    ensures
        r == leer_u32(v@),
{
    match leer_natural(v, 4294967295u64) {
        Some(x) => Some(x as u32),
        None => None,
    }
}

pub fn parse_u8(v: &[char]) -> (r: Option<u8>)
    ensures
        r == leer_u8(v@),
{
    match leer_natural(v, 255u64) {
        Some(x) => Some(x as u8),
        None => None,
    }
}

pub fn parse_i32(v: &[char]) -> (r: Option<i32>)
    ensures
        r == leer_i32(v@),
{
    if v.len() > 0 && v[0] == '-' {
        assert(v@.drop_first() == v@.skip(1));
        match leer_digitos(v, 1, 2147483648u64) {
            Some(x) => {
                if x == 2147483648u64 {
                    Some(-2147483648i32)
                } else {
                    Some(-(x as i32))
                }
            },
            None => None,
        }
    } else {
        match leer_natural(v, 2147483647u64) {
            Some(x) => Some(x as i32),
            None => None,
        }
    }
}

pub fn parse_bool(v: &[char]) -> (r: Option<bool>)
    ensures
        r == leer_bool(v@),
{
    let verdadero = vec!['t', 'r', 'u', 'e'];
    let falso = vec!['f', 'a', 'l', 's', 'e'];
    assert(verdadero@ == seq!['t', 'r', 'u', 'e']);
    assert(falso@ == seq!['f', 'a', 'l', 's', 'e']);
    if crate::texto::iguales(v, verdadero.as_slice()) {
        Some(true)
    } else if crate::texto::iguales(v, falso.as_slice()) {
        Some(false)
    } else {
        None
    }
}

} // verus!
