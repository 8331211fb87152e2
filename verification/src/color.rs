use vstd::prelude::*;

verus! {

/// Color decodificado de la cadena hexadecimal de una fila.
#[derive(Debug, Clone, Copy, PartialEq, Eq, Structural)]
pub struct Rgba {
    pub r: u8,
    pub g: u8,
    pub b: u8,
    pub a: u8,
}

/// Valor de un digito hexadecimal, o -1 si el caracter no lo es.
pub open spec fn hex_digit_val(c: char) -> int {
    let v = c as int;
    if 48 <= v && v <= 57 {
        v - 48
    } else if 97 <= v && v <= 102 {
        v - 97 + 10
    } else if 65 <= v && v <= 70 {
        v - 65 + 10
    } else {
        -1
    }
}

pub open spec fn is_hex_digit(c: char) -> bool {
    hex_digit_val(c) >= 0
}

/// Byte formado por el par de digitos en las posiciones `i` e `i + 1`.
pub open spec fn hex_pair(s: Seq<char>, i: int) -> int {
    16 * hex_digit_val(s[i]) + hex_digit_val(s[i + 1])
}

/// La cadena sin el '#' inicial, si lo lleva.
pub open spec fn hex_body(s: Seq<char>) -> Seq<char> {
    if s.len() >= 1 && s[0] == '#' {
        s.skip(1)
    } else {
        s
    }
}

pub open spec fn all_hex(s: Seq<char>) -> bool {
    forall|i: int| 0 <= i < s.len() ==> is_hex_digit(#[trigger] s[i])
}

/// Interpretacion de la cadena de color de una fila: un '#' inicial
/// opcional seguido de 6 u 8 digitos hexadecimales; con 6 digitos la
/// componente alfa queda implicita en 255. Cualquier otra forma es un
/// color mal formado.
pub open spec fn spec_parse_color(s: Seq<char>) -> Option<Rgba> {
    let cuerpo = hex_body(s);
    if (cuerpo.len() == 6 || cuerpo.len() == 8) && all_hex(cuerpo) {
        Some(
            Rgba {
                r: hex_pair(cuerpo, 0) as u8,
                g: hex_pair(cuerpo, 2) as u8,
                b: hex_pair(cuerpo, 4) as u8,
                a: if cuerpo.len() == 8 {
                    hex_pair(cuerpo, 6) as u8
                } else {
                    255u8
                },
            },
        )
    } else {
        None
    }
}

/// Valor de un digito hexadecimal.
fn hex_val(c: char) -> (r: Option<u8>)
    ensures
        match r {
            Some(v) => v as int == hex_digit_val(c) && v < 16,
            None => !is_hex_digit(c),
        },
{
    let v = c as u32;
    if 48 <= v && v <= 57 {
        Some((v - 48) as u8)
    } else if 97 <= v && v <= 102 {
        Some((v - 97 + 10) as u8)
    } else if 65 <= v && v <= 70 {
        Some((v - 65 + 10) as u8)
    } else {
        None
    }
}

/// Byte leido de los dos digitos en `i` e `i + 1`.
fn hex_byte(s: &str, i: usize) -> (r: Option<u8>)
    requires
        i < usize::MAX,
        i + 1 < s@.len(),
    ensures
        match r {
            Some(v) => is_hex_digit(s@[i as int]) && is_hex_digit(s@[i as int + 1]) && v as int
                == hex_pair(s@, i as int),
            None => !(is_hex_digit(s@[i as int]) && is_hex_digit(s@[i as int + 1])),
        },
{
    let hi = hex_val(s.get_char(i));
    let lo = hex_val(s.get_char(i + 1));
    match (hi, lo) {
        (Some(h), Some(l)) => Some(16 * h + l),
        _ => None,
    }
}

/// Decodifica la cadena de color de una fila. Un color mal formado no es
/// fatal: devuelve `None` y la fila se dibuja apagada e inerte.
pub fn parse_color(s: &str) -> (r: Option<Rgba>)
    ensures
        r == spec_parse_color(s@),
{
    let n = s.unicode_len();
    let off: usize = if n >= 1 && s.get_char(0) == '#' {
        1
    } else {
        0
    };
    let ghost cuerpo = hex_body(s@);
    proof {
        assert(cuerpo =~= s@.skip(off as int));
    }
    let m = n - off;
    if m != 6 && m != 8 {
        return None;
    }
    let b0 = hex_byte(s, off);
    let b1 = hex_byte(s, off + 2);
    let b2 = hex_byte(s, off + 4);
    let b3 = if m == 8 {
        hex_byte(s, off + 6)
    } else {
        None
    };
    proof {
        assert(forall|j: int| 0 <= j < m ==> #[trigger] cuerpo[j] == s@[off + j]);
    }
    if b0.is_none() || b1.is_none() || b2.is_none() || (m == 8 && b3.is_none()) {
        proof {
            assert(!all_hex(cuerpo)) by {
                if all_hex(cuerpo) {
                    assert(is_hex_digit(cuerpo[0]));
                    assert(is_hex_digit(cuerpo[1]));
                    assert(is_hex_digit(cuerpo[2]));
                    assert(is_hex_digit(cuerpo[3]));
                    assert(is_hex_digit(cuerpo[4]));
                    assert(is_hex_digit(cuerpo[5]));
                    if m == 8 {
                        assert(is_hex_digit(cuerpo[6]));
                        assert(is_hex_digit(cuerpo[7]));
                    }
                }
            }
        }
        return None;
    }
    let r0 = b0.unwrap();
    let g0 = b1.unwrap();
    let bl0 = b2.unwrap();
    proof {
        assert(is_hex_digit(cuerpo[0]) && is_hex_digit(cuerpo[1]) && is_hex_digit(cuerpo[2])
            && is_hex_digit(cuerpo[3]) && is_hex_digit(cuerpo[4]) && is_hex_digit(cuerpo[5]));
        assert forall|i: int| 0 <= i < cuerpo.len() implies is_hex_digit(#[trigger] cuerpo[i]) by {
            assert(cuerpo[i] == s@[off + i]);
        }
        assert(hex_pair(cuerpo, 0) == hex_pair(s@, off as int));
        assert(hex_pair(cuerpo, 2) == hex_pair(s@, off as int + 2));
        assert(hex_pair(cuerpo, 4) == hex_pair(s@, off as int + 4));
    }
    if m == 8 {
        let a0 = b3.unwrap();
        proof {
            assert(hex_pair(cuerpo, 6) == hex_pair(s@, off as int + 6));
        }
        Some(Rgba { r: r0, g: g0, b: bl0, a: a0 })
    } else {
        Some(Rgba { r: r0, g: g0, b: bl0, a: 255 })
    }
}

} // verus!
