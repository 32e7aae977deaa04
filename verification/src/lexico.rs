use vstd::prelude::*;
use crate::lexer::Token;
use crate::texto::agregar_caracter;

verus! {

// ---------------------------------------------------------------------
// Clases de caracteres
// ---------------------------------------------------------------------

pub open spec fn en(cs: Seq<char>, i: int, c: char) -> bool {
    0 <= i < cs.len() && cs[i] == c
}

/// Caracteres que pueden empezar un identificador: letras ASCII, vocales
/// acentuadas, `ñ`, `Ñ` y `_`.
pub open spec fn es_letra_ident(c: char) -> bool {
    ('a' <= c && c <= 'z') || ('A' <= c && c <= 'Z') || c == 'á' || c == 'é' || c == 'í'
        || c == 'ó' || c == 'ú' || c == 'Á' || c == 'É' || c == 'Í' || c == 'Ó' || c == 'Ú'
        || c == 'ñ' || c == 'Ñ' || c == '_'
}

pub open spec fn es_digito(c: char) -> bool {
    '0' <= c && c <= '9'
}

pub open spec fn es_cont_ident(c: char) -> bool {
    es_letra_ident(c) || es_digito(c)
}

/// Espacio que el lexer salta: espacio, tabulador, retorno de carro, salto de línea.
pub open spec fn es_espacio(c: char) -> bool {
    c == ' ' || c == '\t' || c == '\r' || c == '\n'
}

fn letra_ident(c: char) -> (r: bool)
    ensures
        r == es_letra_ident(c),
{
    ('a' <= c && c <= 'z') || ('A' <= c && c <= 'Z') || c == 'á' || c == 'é' || c == 'í'
        || c == 'ó' || c == 'ú' || c == 'Á' || c == 'É' || c == 'Í' || c == 'Ó' || c == 'Ú'
        || c == 'ñ' || c == 'Ñ' || c == '_'
}

fn digito(c: char) -> (r: bool)
    ensures
        r == es_digito(c),
{
    '0' <= c && c <= '9'
}

pub fn espacio(c: char) -> (r: bool)
    ensures
        r == es_espacio(c),
{
    c == ' ' || c == '\t' || c == '\r' || c == '\n'
}

// ---------------------------------------------------------------------
// Tramos: dónde termina cada secuencia
// ---------------------------------------------------------------------

/// Fin del tramo de caracteres de identificador que empieza en `i`.
pub open spec fn fin_ident(cs: Seq<char>, i: int) -> int
    decreases cs.len() - i,
{
    if 0 <= i < cs.len() && es_cont_ident(cs[i]) {
        fin_ident(cs, i + 1)
    } else {
        i
    }
}

/// Fin del tramo de dígitos que empieza en `i`.
pub open spec fn fin_digitos(cs: Seq<char>, i: int) -> int
    decreases cs.len() - i,
{
    if 0 <= i < cs.len() && es_digito(cs[i]) {
        fin_digitos(cs, i + 1)
    } else {
        i
    }
}

/// Fin del tramo de espacios que empieza en `i`.
pub open spec fn fin_espacios(cs: Seq<char>, i: int) -> int
    decreases cs.len() - i,
{
    if 0 <= i < cs.len() && es_espacio(cs[i]) {
        fin_espacios(cs, i + 1)
    } else {
        i
    }
}

/// Fin de un comentario de línea que empieza en `i`: el salto de línea (que no forma parte
/// del comentario) o el fin del texto.
pub open spec fn fin_comentario(cs: Seq<char>, i: int) -> int
    decreases cs.len() - i,
{
    if 0 <= i < cs.len() && cs[i] != '\n' {
        fin_comentario(cs, i + 1)
    } else {
        i
    }
}

/// Cierre de un literal de cadena cuyo contenido empieza en `i`: `(true, fin)` con `fin` justo
/// después de las comillas de cierre, o `(false, k)` si en `k` el texto se acaba o hay una
/// barra invertida sin carácter escapable (fin del texto o salto de línea).
pub open spec fn fin_cadena(cs: Seq<char>, i: int) -> (bool, int)
    decreases cs.len() - i,
{
    if i < 0 || i >= cs.len() {
        (false, i)
    } else if cs[i] == '"' {
        (true, i + 1)
    } else if cs[i] == '\\' {
        if i + 1 < cs.len() && cs[i + 1] != '\n' {
            fin_cadena(cs, i + 2)
        } else {
            (false, i)
        }
    } else {
        fin_cadena(cs, i + 1)
    }
}

pub proof fn lema_fin_ident(cs: Seq<char>, i: int)
    requires
        0 <= i <= cs.len(),
    ensures
        i <= fin_ident(cs, i) <= cs.len(),
        forall|k: int| i <= k < fin_ident(cs, i) ==> es_cont_ident(#[trigger] cs[k]),
    decreases cs.len() - i,
{
    if i < cs.len() && es_cont_ident(cs[i]) {
        lema_fin_ident(cs, i + 1);
    }
}

pub proof fn lema_fin_digitos(cs: Seq<char>, i: int)
    requires
        0 <= i <= cs.len(),
    ensures
        i <= fin_digitos(cs, i) <= cs.len(),
        forall|k: int| i <= k < fin_digitos(cs, i) ==> es_digito(#[trigger] cs[k]),
    decreases cs.len() - i,
{
    if i < cs.len() && es_digito(cs[i]) {
        lema_fin_digitos(cs, i + 1);
    }
}

pub proof fn lema_fin_espacios(cs: Seq<char>, i: int)
    requires
        0 <= i <= cs.len(),
    ensures
        i <= fin_espacios(cs, i) <= cs.len(),
    decreases cs.len() - i,
{
    if i < cs.len() && es_espacio(cs[i]) {
        lema_fin_espacios(cs, i + 1);
    }
}

pub proof fn lema_fin_comentario(cs: Seq<char>, i: int)
    requires
        0 <= i <= cs.len(),
    ensures
        i <= fin_comentario(cs, i) <= cs.len(),
    decreases cs.len() - i,
{
    if i < cs.len() && cs[i] != '\n' {
        lema_fin_comentario(cs, i + 1);
    }
}

pub proof fn lema_fin_cadena(cs: Seq<char>, i: int)
    requires
        0 <= i <= cs.len(),
    ensures
        i <= fin_cadena(cs, i).1 <= cs.len(),
        fin_cadena(cs, i).0 ==> i + 1 <= fin_cadena(cs, i).1 && cs[fin_cadena(cs, i).1 - 1] == '"',
    decreases cs.len() - i,
{
    if i < cs.len() && cs[i] != '"' {
        if cs[i] == '\\' {
            if i + 1 < cs.len() && cs[i + 1] != '\n' {
                lema_fin_cadena(cs, i + 2);
            }
        } else {
            lema_fin_cadena(cs, i + 1);
        }
    }
}

fn tramo_ident(cs: &Vec<char>, i: usize) -> (r: usize)
    requires
        i <= cs@.len(),
    ensures
        r == fin_ident(cs@, i as int),
{
    let mut j = i;
    while j < cs.len() && (letra_ident(cs[j]) || digito(cs[j]))
        invariant
            i <= j <= cs@.len(),
            fin_ident(cs@, i as int) == fin_ident(cs@, j as int),
        decreases cs@.len() - j,
    {
        j = j + 1;
    }
    j
}

fn tramo_digitos(cs: &Vec<char>, i: usize) -> (r: usize)
    requires
        i <= cs@.len(),
    ensures
        r == fin_digitos(cs@, i as int),
{
    let mut j = i;
    while j < cs.len() && digito(cs[j])
        invariant
            i <= j <= cs@.len(),
            fin_digitos(cs@, i as int) == fin_digitos(cs@, j as int),
        decreases cs@.len() - j,
    {
        j = j + 1;
    }
    j
}

pub fn tramo_espacios(cs: &Vec<char>, i: usize) -> (r: usize)
    requires
        i <= cs@.len(),
    ensures
        r == fin_espacios(cs@, i as int),
{
    let mut j = i;
    while j < cs.len() && espacio(cs[j])
        invariant
            i <= j <= cs@.len(),
            fin_espacios(cs@, i as int) == fin_espacios(cs@, j as int),
        decreases cs@.len() - j,
    {
        j = j + 1;
    }
    j
}

pub fn tramo_comentario(cs: &Vec<char>, i: usize) -> (r: usize)
    requires
        i <= cs@.len(),
    ensures
        r == fin_comentario(cs@, i as int),
{
    let mut j = i;
    while j < cs.len() && cs[j] != '\n'
        invariant
            i <= j <= cs@.len(),
            fin_comentario(cs@, i as int) == fin_comentario(cs@, j as int),
        decreases cs@.len() - j,
    {
        j = j + 1;
    }
    j
}

fn tramo_cadena(cs: &Vec<char>, i: usize) -> (r: (bool, usize))
    requires
        i <= cs@.len(),
    ensures
        r.0 == fin_cadena(cs@, i as int).0,
        r.1 as int == fin_cadena(cs@, i as int).1,
{
    let mut j = i;
    loop
        invariant
            i <= j <= cs@.len(),
            fin_cadena(cs@, i as int) == fin_cadena(cs@, j as int),
        decreases cs@.len() - j,
    {
        if j >= cs.len() {
            return (false, j);
        }
        if cs[j] == '"' {
            return (true, j + 1);
        }
        if cs[j] == '\\' {
            if j + 1 < cs.len() && cs[j + 1] != '\n' {
                j = j + 2;
            } else {
                return (false, j);
            }
        } else {
            j = j + 1;
        }
    }
}

// ---------------------------------------------------------------------
// Valores de los literales
// ---------------------------------------------------------------------

pub open spec fn valor_digito(c: char) -> int {
    (c as int) - ('0' as int)
}

/// Valor del número escrito en decimal por los dígitos `s`.
pub open spec fn valor_decimal(s: Seq<char>) -> int
    decreases s.len(),
{
    if s.len() == 0 {
        0
    } else {
        10 * valor_decimal(s.drop_last()) + valor_digito(s.last())
    }
}

/// Valor de un literal entero: `None` si no cabe en un `i64`.
pub open spec fn valor_entero(s: Seq<char>) -> Option<i64> {
    if valor_decimal(s) <= i64::MAX {
        Some(valor_decimal(s) as i64)
    } else {
        None
    }
}

pub proof fn lema_valor_decimal_no_negativo(s: Seq<char>)
    requires
        forall|k: int| 0 <= k < s.len() ==> es_digito(#[trigger] s[k]),
    ensures
        valor_decimal(s) >= 0,
    decreases s.len(),
{
    if s.len() > 0 {
        lema_valor_decimal_no_negativo(s.drop_last());
    }
}

/// Valor de un literal entero formado por `cs[i..j]` (todos dígitos).
fn leer_entero(cs: &Vec<char>, i: usize, j: usize) -> (r: Option<i64>)
    requires
        i <= j <= cs@.len(),
        forall|k: int| i <= k < j ==> es_digito(#[trigger] cs@[k]),
    ensures
        r == valor_entero(cs@.subrange(i as int, j as int)),
{
    let mut acc: i64 = 0;
    let mut desborde = false;
    let mut k = i;
    while k < j
        invariant
            i <= k <= j <= cs@.len(),
            forall|m: int| i <= m < j ==> es_digito(#[trigger] cs@[m]),
            !desborde ==> acc as int == valor_decimal(cs@.subrange(i as int, k as int)),
            desborde ==> valor_decimal(cs@.subrange(i as int, k as int)) > i64::MAX,
            acc >= 0,
        decreases j - k,
    {
        let ghost previo = cs@.subrange(i as int, k as int);
        let d = (cs[k] as u32 - '0' as u32) as i64;
        assert(cs@.subrange(i as int, k + 1).drop_last() =~= previo);
        proof {
            lema_valor_decimal_no_negativo(previo);
        }
        if !desborde {
            if acc > (i64::MAX - d) / 10 {
                desborde = true;
            } else {
                acc = acc * 10 + d;
            }
        }
        k = k + 1;
    }
    if desborde {
        None
    } else {
        Some(acc)
    }
}

// ---------------------------------------------------------------------
// Secuencias de escape
// ---------------------------------------------------------------------

/// Valor de un dígito hexadecimal.
pub open spec fn valor_hex(c: char) -> Option<int> {
    if '0' <= c && c <= '9' {
        Some((c as int) - ('0' as int))
    } else if 'a' <= c && c <= 'f' {
        Some((c as int) - ('a' as int) + 10)
    } else if 'A' <= c && c <= 'F' {
        Some((c as int) - ('A' as int) + 10)
    } else {
        None
    }
}

/// Valor del par de caracteres que sigue a `\x`, leído en base 16 como un byte
/// (se admite un signo `+` inicial, como hace `u8::from_str_radix`).
pub open spec fn valor_par_hex(h1: char, h2: char) -> Option<int> {
    if h1 == '+' {
        valor_hex(h2)
    } else {
        match (valor_hex(h1), valor_hex(h2)) {
            (Some(a), Some(b)) => Some(16 * a + b),
            _ => None,
        }
    }
}

/// Carácter del byte `v` (U+0000..U+00FF).
pub open spec fn caracter_de_byte(v: int) -> char {
    (v as u8) as char
}

/// Contenido de un literal de cadena con sus secuencias de escape resueltas:
/// `\n`, `\t`, `\r`, `\0`, `\\`, `\"`, `\xNN`; un escape desconocido deja el carácter
/// escapado, un `\x` sin dos dígitos hexadecimales se conserva tal cual y una barra
/// al final se conserva.
pub open spec fn desescapar(s: Seq<char>) -> Seq<char>
    decreases s.len(),
{
    if s.len() == 0 {
        Seq::empty()
    } else if s[0] != '\\' {
        seq![s[0]] + desescapar(s.skip(1))
    } else if s.len() == 1 {
        seq!['\\']
    } else if s[1] == 'n' {
        seq!['\n'] + desescapar(s.skip(2))
    } else if s[1] == 't' {
        seq!['\t'] + desescapar(s.skip(2))
    } else if s[1] == 'r' {
        seq!['\r'] + desescapar(s.skip(2))
    } else if s[1] == '0' {
        seq!['\0'] + desescapar(s.skip(2))
    } else if s[1] == 'x' {
        if s.len() >= 4 && valor_par_hex(s[2], s[3]) is Some {
            seq![caracter_de_byte(valor_par_hex(s[2], s[3])->0)] + desescapar(s.skip(4))
        } else if s.len() >= 4 {
            seq!['\\', 'x', s[2], s[3]] + desescapar(s.skip(4))
        } else {
            seq!['\\', 'x'] + s.skip(2)
        }
    } else {
        seq![s[1]] + desescapar(s.skip(2))
    }
}

fn hex(c: char) -> (r: Option<u32>)
    ensures
        match r {
            Some(v) => valor_hex(c) == Some(v as int) && v < 16,
            None => valor_hex(c) is None,
        },
{
    if '0' <= c && c <= '9' {
        Some(c as u32 - '0' as u32)
    } else if 'a' <= c && c <= 'f' {
        Some(c as u32 - 'a' as u32 + 10)
    } else if 'A' <= c && c <= 'F' {
        Some(c as u32 - 'A' as u32 + 10)
    } else {
        None
    }
}

fn par_hex(h1: char, h2: char) -> (r: Option<u8>)
    ensures
        match r {
            Some(v) => valor_par_hex(h1, h2) == Some(v as int),
            None => valor_par_hex(h1, h2) is None,
        },
{
    if h1 == '+' {
        match hex(h2) {
            Some(b) => Some(b as u8),
            None => None,
        }
    } else {
        match (hex(h1), hex(h2)) {
            (Some(a), Some(b)) => Some((16 * a + b) as u8),
            _ => None,
        }
    }
}

/// Resuelve las secuencias de escape de `cs[desde..hasta]`.
pub fn desescapar_tramo(cs: &Vec<char>, desde: usize, hasta: usize) -> (r: String)
    requires
        desde <= hasta <= cs@.len(),
    ensures
        r@ == desescapar(cs@.subrange(desde as int, hasta as int)),
{
    let ghost total = cs@.subrange(desde as int, hasta as int);
    let mut r = String::new();
    let mut k = desde;
    while k < hasta
        invariant
            desde <= k <= hasta <= cs@.len(),
            total == cs@.subrange(desde as int, hasta as int),
            r@ + desescapar(cs@.subrange(k as int, hasta as int)) == desescapar(total),
        decreases hasta - k,
    {
        let ghost s = cs@.subrange(k as int, hasta as int);
        let ghost r0 = r@;
        let c = cs[k];
        if c != '\\' {
            agregar_caracter(&mut r, c);
            assert(s.skip(1) =~= cs@.subrange(k + 1, hasta as int));
            assert(r@ + desescapar(cs@.subrange(k + 1, hasta as int)) =~= r0 + desescapar(s));
            k = k + 1;
        } else if k + 1 == hasta {
            agregar_caracter(&mut r, '\\');
            assert(r@ + desescapar(cs@.subrange(k + 1, hasta as int)) =~= r0 + desescapar(s));
            k = k + 1;
        } else {
            let e = cs[k + 1];
            assert(s.skip(2) =~= cs@.subrange(k + 2, hasta as int));
            if e == 'x' {
                if hasta - k > 3 {
                    let h1 = cs[k + 2];
                    let h2 = cs[k + 3];
                    assert(s.skip(4) =~= cs@.subrange(k + 4, hasta as int));
                    match par_hex(h1, h2) {
                        Some(v) => {
                            agregar_caracter(&mut r, v as char);
                        },
                        None => {
                            agregar_caracter(&mut r, '\\');
                            agregar_caracter(&mut r, 'x');
                            agregar_caracter(&mut r, h1);
                            agregar_caracter(&mut r, h2);
                        },
                    }
                    assert(r@ + desescapar(cs@.subrange(k + 4, hasta as int)) =~= r0 + desescapar(s));
                    k = k + 4;
                } else {
                    agregar_caracter(&mut r, '\\');
                    agregar_caracter(&mut r, 'x');
                    let mut m = k + 2;
                    while m < hasta
                        invariant
                            k + 2 <= m <= hasta <= cs@.len(),
                            r@ == r0 + seq!['\\', 'x'] + cs@.subrange(k + 2, m as int),
                        decreases hasta - m,
                    {
                        agregar_caracter(&mut r, cs[m]);
                        m = m + 1;
                        assert(r@ =~= r0 + seq!['\\', 'x'] + cs@.subrange(k + 2, m as int));
                    }
                    assert(cs@.subrange(hasta as int, hasta as int) =~= Seq::<char>::empty());
                    assert(r@ + desescapar(cs@.subrange(hasta as int, hasta as int)) =~= r0 + desescapar(s));
                    k = hasta;
                }
            } else {
                let d = if e == 'n' {
                    '\n'
                } else if e == 't' {
                    '\t'
                } else if e == 'r' {
                    '\r'
                } else if e == '0' {
                    '\0'
                } else {
                    e
                };
                agregar_caracter(&mut r, d);
                assert(r@ + desescapar(cs@.subrange(k + 2, hasta as int)) =~= r0 + desescapar(s));
                k = k + 2;
            }
        }
    }
    assert(cs@.subrange(hasta as int, hasta as int) =~= Seq::<char>::empty());
    r
}

// ---------------------------------------------------------------------
// Lexemas
// ---------------------------------------------------------------------

/// Clase de un lexema.
pub enum Clase {
    /// Identificador o palabra clave.
    Palabra,
    Entero,
    Flotante,
    Cadena,
    Caracter,
    Simbolo(Token),
    /// Texto que no empieza ningún token válido.
    Invalido,
}

/// Lexema que empieza en `i` (que no es espacio ni comentario): su clase y dónde termina.
/// Identificadores, números y símbolos toman el tramo más largo posible.
pub open spec fn lexema(cs: Seq<char>, i: int) -> (Clase, int) {
    let c = cs[i];
    if es_letra_ident(c) {
        (Clase::Palabra, fin_ident(cs, i + 1))
    } else if es_digito(c) {
        let j = fin_digitos(cs, i + 1);
        if en(cs, j, '.') && j + 1 < cs.len() && es_digito(cs[j + 1]) {
            (Clase::Flotante, fin_digitos(cs, j + 2))
        } else {
            (Clase::Entero, j)
        }
    } else if c == '"' {
        let (cerrada, j) = fin_cadena(cs, i + 1);
        if cerrada {
            (Clase::Cadena, j)
        } else {
            (Clase::Invalido, j)
        }
    } else if c == '\'' {
        if i + 2 < cs.len() && cs[i + 1] != '\'' && cs[i + 2] == '\'' {
            (Clase::Caracter, i + 3)
        } else {
            (Clase::Invalido, i + 1)
        }
    } else {
        match simbolo(cs, i) {
            Some((t, l)) => (Clase::Simbolo(t), i + l),
            None => (Clase::Invalido, i + 1),
        }
    }
}

pub proof fn lema_simbolo(cs: Seq<char>, i: int)
    requires
        0 <= i < cs.len(),
    ensures
        simbolo(cs, i) matches Some((t, l)) ==> 1 <= l && i + l <= cs.len(),
{
}

pub proof fn lema_lexema(cs: Seq<char>, i: int)
    requires
        0 <= i < cs.len(),
    ensures
        i < lexema(cs, i).1 <= cs.len(),
{
    lema_fin_ident(cs, i + 1);
    lema_fin_digitos(cs, i + 1);
    let j = fin_digitos(cs, i + 1);
    if 0 <= j + 2 <= cs.len() {
        lema_fin_digitos(cs, j + 2);
    }
    lema_fin_cadena(cs, i + 1);
    lema_simbolo(cs, i);
}

/// Piezas léxicas del texto a partir de `i`: clase, inicio y fin de cada lexema, en orden.
/// Los espacios (`[ \t\r\n]+`) y los comentarios de línea (`//` hasta el fin de línea) se saltan.
pub open spec fn piezas(cs: Seq<char>, i: int) -> Seq<(Clase, int, int)>
    decreases cs.len() - i,
{
    if i < 0 || i >= cs.len() {
        Seq::empty()
    } else if es_espacio(cs[i]) {
        proof {
            lema_fin_espacios(cs, i + 1);
        }
        piezas(cs, fin_espacios(cs, i + 1))
    } else if cs[i] == '/' && en(cs, i + 1, '/') {
        proof {
            lema_fin_comentario(cs, i + 2);
        }
        piezas(cs, fin_comentario(cs, i + 2))
    } else {
        proof {
            lema_lexema(cs, i);
        }
        seq![(lexema(cs, i).0, i, lexema(cs, i).1)] + piezas(cs, lexema(cs, i).1)
    }
}

/// El token `t` es el que corresponde al lexema `p` del texto `cs`.
pub open spec fn token_de_pieza(t: Token, cs: Seq<char>, p: (Clase, int, int)) -> bool {
    let (clase, i, j) = p;
    let s = cs.subrange(i, j);
    match clase {
        Clase::Palabra => match palabra_clave(s) {
            Some(k) => t == k,
            None => t matches Token::Identificador(n) && n@ == s,
        },
        Clase::Entero => t == Token::EnteroLiteral(valor_entero(s)),
        Clase::Flotante => t matches Token::FlotanteLiteral(Some(f)) && f@ == s,
        Clase::Cadena => t matches Token::PalabraLiteral(Some(v)) && v@ == desescapar(
            cs.subrange(i + 1, j - 1),
        ),
        Clase::Caracter => t == Token::CaracterLiteral(Some(cs[i + 1])),
        Clase::Simbolo(k) => t == k,
        Clase::Invalido => t == Token::Error,
    }
}

/// Texto formado por `cs[i..j]`.
fn texto_tramo(cs: &Vec<char>, i: usize, j: usize) -> (r: String)
    requires
        i <= j <= cs@.len(),
    ensures
        r@ == cs@.subrange(i as int, j as int),
{
    let mut r = String::new();
    let mut k = i;
    while k < j
        invariant
            i <= k <= j <= cs@.len(),
            r@ == cs@.subrange(i as int, k as int),
        decreases j - k,
    {
        agregar_caracter(&mut r, cs[k]);
        k = k + 1;
        assert(r@ =~= cs@.subrange(i as int, k as int));
    }
    r
}

/// Lee el lexema que empieza en `i` y construye su token.
pub fn leer_lexema(cs: &Vec<char>, i: usize) -> (r: (Token, usize))
    requires
        i < cs@.len(),
    ensures
        r.1 as int == lexema(cs@, i as int).1,
        token_de_pieza(r.0, cs@, (lexema(cs@, i as int).0, i as int, r.1 as int)),
{
    proof {
        lema_lexema(cs@, i as int);
    }
    let n = cs.len();
    let c = cs[i];
    if letra_ident(c) {
        let j = tramo_ident(cs, i + 1);
        match buscar_palabra_clave(cs, i, j) {
            Some(t) => (t, j),
            None => (Token::Identificador(texto_tramo(cs, i, j)), j),
        }
    } else if digito(c) {
        let j = tramo_digitos(cs, i + 1);
        proof {
            lema_fin_digitos(cs@, i as int + 1);
        }
        if j < cs.len() && cs[j] == '.' && j + 1 < cs.len() && digito(cs[j + 1]) {
            let k = tramo_digitos(cs, j + 2);
            (Token::FlotanteLiteral(Some(texto_tramo(cs, i, k))), k)
        } else {
            (Token::EnteroLiteral(leer_entero(cs, i, j)), j)
        }
    } else if c == '"' {
        let (cerrada, j) = tramo_cadena(cs, i + 1);
        proof {
            lema_fin_cadena(cs@, i as int + 1);
        }
        if cerrada {
            (Token::PalabraLiteral(Some(desescapar_tramo(cs, i + 1, j - 1))), j)
        } else {
            (Token::Error, j)
        }
    } else if c == '\'' {
        if n - i > 2 && cs[i + 1] != '\'' && cs[i + 2] == '\'' {
            (Token::CaracterLiteral(Some(cs[i + 1])), i + 3)
        } else {
            (Token::Error, i + 1)
        }
    } else {
        match reconocer_simbolo(cs, i) {
            Some((t, l)) => (t, i + l),
            None => (Token::Error, i + 1),
        }
    }
}

// ---------------------------------------------------------------------
// Tablas: palabras clave y símbolos
// ---------------------------------------------------------------------

/// Palabra clave que forma exactamente el lexema `s`, si la hay.
pub open spec fn palabra_clave(s: Seq<char>) -> Option<Token> {
    if s.len() == 2 {
        palabra_clave_2(s)
    } else if s.len() == 3 {
        palabra_clave_3(s)
    } else if s.len() == 4 {
        palabra_clave_4(s)
    } else if s.len() == 5 {
        palabra_clave_5(s)
    } else if s.len() == 6 {
        palabra_clave_6(s)
    } else if s.len() == 7 {
        palabra_clave_7(s)
    } else if s.len() == 8 {
        palabra_clave_8(s)
    } else if s.len() == 9 {
        palabra_clave_9(s)
    } else if s.len() == 10 {
        palabra_clave_10(s)
    } else if s.len() == 11 {
        palabra_clave_11(s)
    } else if s.len() == 12 {
        palabra_clave_12(s)
    } else {
        None
    }
}

pub open spec fn palabra_clave_2(s: Seq<char>) -> Option<Token> {
    if s[0] == 'f' && s[1] == 'n' {
        Some(Token::Funcion)
    } else if s[0] == 's' && s[1] == 'i' {
        Some(Token::Si)
    } else if s[0] == 'e' && s[1] == 's' {
        Some(Token::Es)
    } else if s[0] == 'e' && s[1] == 'n' {
        Some(Token::En)
    } else if s[0] == 'y' && s[1] == 'o' {
        Some(Token::SelfKw)
    } else if s[0] == 'e' && s[1] == 'l' {
        Some(Token::ArticuloEl)
    } else if s[0] == 'l' && s[1] == 'a' {
        Some(Token::ArticuloLa)
    } else if s[0] == 'u' && s[1] == 'n' {
        Some(Token::ArticuloUn)
    } else {
        None
    }
}

pub open spec fn palabra_clave_3(s: Seq<char>) -> Option<Token> {
    if s[0] == 'm' && s[1] == 'u' && s[2] == 't' {
        Some(Token::Mut)
    } else if s[0] == 'l' && s[1] == 'e' && s[2] == 'e' {
        Some(Token::Lee)
    } else if s[0] == 'f' && s[1] == 'u' && s[2] == 't' {
        Some(Token::Fut)
    } else if s[0] == 'l' && s[1] == 'o' && s[2] == 's' {
        Some(Token::ArticuloLos)
    } else if s[0] == 'l' && s[1] == 'a' && s[2] == 's' {
        Some(Token::ArticuloLas)
    } else {
        None
    }
}

pub open spec fn palabra_clave_4(s: Seq<char>) -> Option<Token> {
    if s[0] == 's' && s[1] == 'i' && s[2] == 'n' && s[3] == 'o' {
        Some(Token::Sino)
    } else if s[0] == 'e' && s[1] == 's' && s[2] == 't' && s[3] == 'á' {
        Some(Token::Esta)
    } else if s[0] == 'p' && s[1] == 'a' && s[2] == 'r' && s[3] == 'a' {
        Some(Token::Para)
    } else if s[0] == 'u' && s[1] == 's' && s[2] == 'a' && s[3] == 'r' {
        Some(Token::Usar)
    } else if s[0] == 'c' && s[1] == 'o' && s[2] == 'm' && s[3] == 'o' {
        Some(Token::Como)
    } else if s[0] == 't' && s[1] == 'i' && s[2] == 'p' && s[3] == 'o' {
        Some(Token::Tipo)
    } else if s[0] == 'p' && s[1] == 'u' && s[2] == 'r' && s[3] == 'o' {
        Some(Token::Puro)
    } else if s[0] == 'm' && s[1] == 'u' && s[2] == 't' && s[3] == 'a' {
        Some(Token::Muta)
    } else {
        None
    }
}

pub open spec fn palabra_clave_5(s: Seq<char>) -> Option<Token> {
    if s[0] == 'f' && s[1] == 'u' && s[2] == 'e' && s[3] == 's' && s[4] == 'e' {
        Some(Token::Fuese)
    } else if s[0] == 't' && s[1] == 'o' && s[2] == 'd' && s[3] == 'o' && s[4] == 's' {
        Some(Token::Todos)
    } else if s[0] == 'm' && s[1] == 'o' && s[2] == 'v' && s[3] == 'e' && s[4] == 'r' {
        Some(Token::Mover)
    } else if s[0] == 'r' && s[1] == 'a' && s[2] == 's' && s[3] == 'g' && s[4] == 'o' {
        Some(Token::Rasgo)
    } else if s[0] == 'T' && s[1] == 'e' && s[2] == 'x' && s[3] == 't' && s[4] == 'o' {
        Some(Token::Texto)
    } else if s[0] == 'V' && s[1] == 'a' && s[2] == 'c' && s[3] == 'í' && s[4] == 'o' {
        Some(Token::Vacio)
    } else if s[0] == 'f' && s[1] == 'a' && s[2] == 'l' && s[3] == 's' && s[4] == 'o' {
        Some(Token::Falso)
    } else {
        None
    }
}

pub open spec fn palabra_clave_6(s: Seq<char>) -> Option<Token> {
    if s[0] == 'm' && s[1] == 'ó' && s[2] == 'd' && s[3] == 'u' && s[4] == 'l' && s[5] == 'o' {
        Some(Token::Modulo)
    } else if s[0] == 'c' && s[1] == 'o' && s[2] == 'p' && s[3] == 'i' && s[4] == 'a' && s[5] == 'r' {
        Some(Token::Copiar)
    } else if s[0] == 'r' && s[1] == 'e' && s[2] == 'g' && s[3] == 'i' && s[4] == 'ó' && s[5] == 'n' {
        Some(Token::Region)
    } else if s[0] == 'r' && s[1] == 'e' && s[2] == 'g' && s[3] == 'i' && s[4] == 'o' && s[5] == 'n' {
        Some(Token::Region)
    } else if s[0] == 'p' && s[1] == 'r' && s[2] == 'u' && s[3] == 'e' && s[4] == 'b' && s[5] == 'a' {
        Some(Token::Prueba)
    } else if s[0] == 'l' && s[1] == 'a' && s[2] == 'n' && s[3] == 'z' && s[4] == 'a' && s[5] == 'r' {
        Some(Token::Lanzar)
    } else if s[0] == 'd' && s[1] == 'i' && s[2] == 'r' && s[3] == '_' && s[4] == 'd' && s[5] == 'e' {
        Some(Token::DirDe)
    } else {
        None
    }
}

pub open spec fn palabra_clave_7(s: Seq<char>) -> Option<Token> {
    if s[0] == 'f' && s[1] == 'u' && s[2] == 'n' && s[3] == 'c' && s[4] == 'i' && s[5] == 'ó' && s[6] == 'n' {
        Some(Token::Funcion)
    } else if s[0] == 'f' && s[1] == 'u' && s[2] == 'n' && s[3] == 'c' && s[4] == 'i' && s[5] == 'o' && s[6] == 'n' {
        Some(Token::Funcion)
    } else if s[0] == 'p' && s[1] == 'r' && s[2] == 'e' && s[3] == 's' && s[4] == 't' && s[5] == 'a' && s[6] == 'r' {
        Some(Token::Prestar)
    } else if s[0] == 'e' && s[1] == 's' && s[2] == 'p' && s[3] == 'e' && s[4] == 'r' && s[5] == 'a' && s[6] == 'r' {
        Some(Token::Esperar)
    } else if s[0] == 'E' && s[1] == 'n' && s[2] == 't' && s[3] == 'e' && s[4] == 'r' && s[5] == 'o' && s[6] == '8' {
        Some(Token::Entero8)
    } else if s[0] == 'P' && s[1] == 'a' && s[2] == 'l' && s[3] == 'a' && s[4] == 'b' && s[5] == 'r' && s[6] == 'a' {
        Some(Token::Palabra)
    } else {
        None
    }
}

pub open spec fn palabra_clave_8(s: Seq<char>) -> Option<Token> {
    if s[0] == 'r' && s[1] == 'e' && s[2] == 't' && s[3] == 'o' && s[4] == 'r' && s[5] == 'n' && s[6] == 'a' && s[7] == 'r' {
        Some(Token::Retornar)
    } else if s[0] == 'd' && s[1] == 'e' && s[2] == 'v' && s[3] == 'o' && s[4] == 'l' && s[5] == 'v' && s[6] == 'e' && s[7] == 'r' {
        Some(Token::Retornar)
    } else if s[0] == 'e' && s[1] == 'n' && s[2] == 't' && s[3] == 'o' && s[4] == 'n' && s[5] == 'c' && s[6] == 'e' && s[7] == 's' {
        Some(Token::Entonces)
    } else if s[0] == 'm' && s[1] == 'i' && s[2] == 'e' && s[3] == 'n' && s[4] == 't' && s[5] == 'r' && s[6] == 'a' && s[7] == 's' {
        Some(Token::Mientras)
    } else if s[0] == 'i' && s[1] == 'n' && s[2] == 's' && s[3] == 'e' && s[4] == 'g' && s[5] == 'u' && s[6] == 'r' && s[7] == 'o' {
        Some(Token::Inseguro)
    } else if s[0] == 'e' && s[1] == 's' && s[2] == 't' && s[3] == 'r' && s[4] == 'i' && s[5] == 'c' && s[6] == 't' && s[7] == 'o' {
        Some(Token::Estricto)
    } else if s[0] == 'b' && s[1] == 'l' && s[2] == 'o' && s[3] == 'q' && s[4] == 'u' && s[5] == 'e' && s[6] == 'a' && s[7] == 'r' {
        Some(Token::Bloquear)
    } else if s[0] == 'E' && s[1] == 'n' && s[2] == 't' && s[3] == 'e' && s[4] == 'r' && s[5] == 'o' && s[6] == '1' && s[7] == '6' {
        Some(Token::Entero16)
    } else if s[0] == 'E' && s[1] == 'n' && s[2] == 't' && s[3] == 'e' && s[4] == 'r' && s[5] == 'o' && s[6] == '3' && s[7] == '2' {
        Some(Token::Entero32)
    } else if s[0] == 'E' && s[1] == 'n' && s[2] == 't' && s[3] == 'e' && s[4] == 'r' && s[5] == 'o' && s[6] == '6' && s[7] == '4' {
        Some(Token::Entero64)
    } else if s[0] == 'N' && s[1] == 'a' && s[2] == 't' && s[3] == 'u' && s[4] == 'r' && s[5] == 'a' && s[6] == 'l' && s[7] == '8' {
        Some(Token::Natural8)
    } else if s[0] == 'B' && s[1] == 'o' && s[2] == 'o' && s[3] == 'l' && s[4] == 'e' && s[5] == 'a' && s[6] == 'n' && s[7] == 'o' {
        Some(Token::Booleano)
    } else if s[0] == 'C' && s[1] == 'a' && s[2] == 'r' && s[3] == 'a' && s[4] == 'c' && s[5] == 't' && s[6] == 'e' && s[7] == 'r' {
        Some(Token::Caracter)
    } else {
        None
    }
}

pub open spec fn palabra_clave_9(s: Seq<char>) -> Option<Token> {
    if s[0] == 'c' && s[1] == 'o' && s[2] == 'i' && s[3] == 'n' && s[4] == 'c' && s[5] == 'i' && s[6] == 'd' && s[7] == 'i' && s[8] == 'r' {
        Some(Token::Coincidir)
    } else if s[0] == 'e' && s[1] == 'm' && s[2] == 'p' && s[3] == 'a' && s[4] == 'r' && s[5] == 'e' && s[6] == 'j' && s[7] == 'a' && s[8] == 'r' {
        Some(Token::Coincidir)
    } else if s[0] == 'N' && s[1] == 'a' && s[2] == 't' && s[3] == 'u' && s[4] == 'r' && s[5] == 'a' && s[6] == 'l' && s[7] == '1' && s[8] == '6' {
        Some(Token::Natural16)
    } else if s[0] == 'N' && s[1] == 'a' && s[2] == 't' && s[3] == 'u' && s[4] == 'r' && s[5] == 'a' && s[6] == 'l' && s[7] == '3' && s[8] == '2' {
        Some(Token::Natural32)
    } else if s[0] == 'N' && s[1] == 'a' && s[2] == 't' && s[3] == 'u' && s[4] == 'r' && s[5] == 'a' && s[6] == 'l' && s[7] == '6' && s[8] == '4' {
        Some(Token::Natural64)
    } else if s[0] == 'R' && s[1] == 'e' && s[2] == 's' && s[3] == 'u' && s[4] == 'l' && s[5] == 't' && s[6] == 'a' && s[7] == 'd' && s[8] == 'o' {
        Some(Token::Resultado)
    } else if s[0] == 'v' && s[1] == 'e' && s[2] == 'r' && s[3] == 'd' && s[4] == 'a' && s[5] == 'd' && s[6] == 'e' && s[7] == 'r' && s[8] == 'o' {
        Some(Token::Verdadero)
    } else {
        None
    }
}

pub open spec fn palabra_clave_10(s: Seq<char>) -> Option<Token> {
    if s[0] == 'v' && s[1] == 'e' && s[2] == 'r' && s[3] == 'i' && s[4] == 'f' && s[5] == 'i' && s[6] == 'c' && s[7] == 'a' && s[8] == 'd' && s[9] == 'o' {
        Some(Token::Verificado)
    } else if s[0] == 'F' && s[1] == 'l' && s[2] == 'o' && s[3] == 't' && s[4] == 'a' && s[5] == 'n' && s[6] == 't' && s[7] == 'e' && s[8] == '3' && s[9] == '2' {
        Some(Token::Flotante32)
    } else if s[0] == 'F' && s[1] == 'l' && s[2] == 'o' && s[3] == 't' && s[4] == 'a' && s[5] == 'n' && s[6] == 't' && s[7] == 'e' && s[8] == '6' && s[9] == '4' {
        Some(Token::Flotante64)
    } else {
        None
    }
}

pub open spec fn palabra_clave_11(s: Seq<char>) -> Option<Token> {
    if s[0] == 'e' && s[1] == 's' && s[2] == 't' && s[3] == 'r' && s[4] == 'u' && s[5] == 'c' && s[6] == 't' && s[7] == 'u' && s[8] == 'r' && s[9] == 'a' && s[10] == 'l' {
        Some(Token::Estructural)
    } else if s[0] == 'e' && s[1] == 'n' && s[2] == 'u' && s[3] == 'm' && s[4] == 'e' && s[5] == 'r' && s[6] == 'a' && s[7] == 'c' && s[8] == 'i' && s[9] == 'ó' && s[10] == 'n' {
        Some(Token::Enumeracion)
    } else if s[0] == 'i' && s[1] == 'm' && s[2] == 'p' && s[3] == 'l' && s[4] == 'e' && s[5] == 'm' && s[6] == 'e' && s[7] == 'n' && s[8] == 't' && s[9] == 'a' && s[10] == 'r' {
        Some(Token::Implementar)
    } else if s[0] == 's' && s[1] == 'e' && s[2] == 'l' && s[3] == 'e' && s[4] == 'c' && s[5] == 'c' && s[6] == 'i' && s[7] == 'o' && s[8] == 'n' && s[9] == 'a' && s[10] == 'r' {
        Some(Token::Seleccionar)
    } else {
        None
    }
}

pub open spec fn palabra_clave_12(s: Seq<char>) -> Option<Token> {
    if s[0] == 'd' && s[1] == 'i' && s[2] == 'r' && s[3] == 'e' && s[4] == 'c' && s[5] == 'c' && s[6] == 'i' && s[7] == 'o' && s[8] == 'n' && s[9] == '_' && s[10] == 'd' && s[11] == 'e' {
        Some(Token::DireccionDe)
    } else if s[0] == 'c' && s[1] == 'o' && s[2] == 'n' && s[3] == '_' && s[4] == 'e' && s[5] == 'x' && s[6] == 'e' && s[7] == 'c' && s[8] == 'u' && s[9] == 't' && s[10] == 'o' && s[11] == 'r' {
        Some(Token::ConExecutor)
    } else {
        None
    }
}

/// Busca la palabra clave que forma el lexema `cs[i..j]`.
pub fn buscar_palabra_clave(cs: &Vec<char>, i: usize, j: usize) -> (r: Option<Token>)
    requires
        i <= j <= cs@.len(),
    ensures
        r == palabra_clave(cs@.subrange(i as int, j as int)),
{
    let n = j - i;
    let ghost s = cs@.subrange(i as int, j as int);
    if n == 2 {
        if cs[i] == 'f' && cs[i + 1] == 'n' {
            Some(Token::Funcion)
        } else if cs[i] == 's' && cs[i + 1] == 'i' {
            Some(Token::Si)
        } else if cs[i] == 'e' && cs[i + 1] == 's' {
            Some(Token::Es)
        } else if cs[i] == 'e' && cs[i + 1] == 'n' {
            Some(Token::En)
        } else if cs[i] == 'y' && cs[i + 1] == 'o' {
            Some(Token::SelfKw)
        } else if cs[i] == 'e' && cs[i + 1] == 'l' {
            Some(Token::ArticuloEl)
        } else if cs[i] == 'l' && cs[i + 1] == 'a' {
            Some(Token::ArticuloLa)
        } else if cs[i] == 'u' && cs[i + 1] == 'n' {
            Some(Token::ArticuloUn)
        } else {
            None
        }
    } else if n == 3 {
        if cs[i] == 'm' && cs[i + 1] == 'u' && cs[i + 2] == 't' {
            Some(Token::Mut)
        } else if cs[i] == 'l' && cs[i + 1] == 'e' && cs[i + 2] == 'e' {
            Some(Token::Lee)
        } else if cs[i] == 'f' && cs[i + 1] == 'u' && cs[i + 2] == 't' {
            Some(Token::Fut)
        } else if cs[i] == 'l' && cs[i + 1] == 'o' && cs[i + 2] == 's' {
            Some(Token::ArticuloLos)
        } else if cs[i] == 'l' && cs[i + 1] == 'a' && cs[i + 2] == 's' {
            Some(Token::ArticuloLas)
        } else {
            None
        }
    } else if n == 4 {
        if cs[i] == 's' && cs[i + 1] == 'i' && cs[i + 2] == 'n' && cs[i + 3] == 'o' {
            Some(Token::Sino)
        } else if cs[i] == 'e' && cs[i + 1] == 's' && cs[i + 2] == 't' && cs[i + 3] == 'á' {
            Some(Token::Esta)
        } else if cs[i] == 'p' && cs[i + 1] == 'a' && cs[i + 2] == 'r' && cs[i + 3] == 'a' {
            Some(Token::Para)
        } else if cs[i] == 'u' && cs[i + 1] == 's' && cs[i + 2] == 'a' && cs[i + 3] == 'r' {
            Some(Token::Usar)
        } else if cs[i] == 'c' && cs[i + 1] == 'o' && cs[i + 2] == 'm' && cs[i + 3] == 'o' {
            Some(Token::Como)
        } else if cs[i] == 't' && cs[i + 1] == 'i' && cs[i + 2] == 'p' && cs[i + 3] == 'o' {
            Some(Token::Tipo)
        } else if cs[i] == 'p' && cs[i + 1] == 'u' && cs[i + 2] == 'r' && cs[i + 3] == 'o' {
            Some(Token::Puro)
        } else if cs[i] == 'm' && cs[i + 1] == 'u' && cs[i + 2] == 't' && cs[i + 3] == 'a' {
            Some(Token::Muta)
        } else {
            None
        }
    } else if n == 5 {
        if cs[i] == 'f' && cs[i + 1] == 'u' && cs[i + 2] == 'e' && cs[i + 3] == 's' && cs[i + 4] == 'e' {
            Some(Token::Fuese)
        } else if cs[i] == 't' && cs[i + 1] == 'o' && cs[i + 2] == 'd' && cs[i + 3] == 'o' && cs[i + 4] == 's' {
            Some(Token::Todos)
        } else if cs[i] == 'm' && cs[i + 1] == 'o' && cs[i + 2] == 'v' && cs[i + 3] == 'e' && cs[i + 4] == 'r' {
            Some(Token::Mover)
        } else if cs[i] == 'r' && cs[i + 1] == 'a' && cs[i + 2] == 's' && cs[i + 3] == 'g' && cs[i + 4] == 'o' {
            Some(Token::Rasgo)
        } else if cs[i] == 'T' && cs[i + 1] == 'e' && cs[i + 2] == 'x' && cs[i + 3] == 't' && cs[i + 4] == 'o' {
            Some(Token::Texto)
        } else if cs[i] == 'V' && cs[i + 1] == 'a' && cs[i + 2] == 'c' && cs[i + 3] == 'í' && cs[i + 4] == 'o' {
            Some(Token::Vacio)
        } else if cs[i] == 'f' && cs[i + 1] == 'a' && cs[i + 2] == 'l' && cs[i + 3] == 's' && cs[i + 4] == 'o' {
            Some(Token::Falso)
        } else {
            None
        }
    } else if n == 6 {
        if cs[i] == 'm' && cs[i + 1] == 'ó' && cs[i + 2] == 'd' && cs[i + 3] == 'u' && cs[i + 4] == 'l' && cs[i + 5] == 'o' {
            Some(Token::Modulo)
        } else if cs[i] == 'c' && cs[i + 1] == 'o' && cs[i + 2] == 'p' && cs[i + 3] == 'i' && cs[i + 4] == 'a' && cs[i + 5] == 'r' {
            Some(Token::Copiar)
        } else if cs[i] == 'r' && cs[i + 1] == 'e' && cs[i + 2] == 'g' && cs[i + 3] == 'i' && cs[i + 4] == 'ó' && cs[i + 5] == 'n' {
            Some(Token::Region)
        } else if cs[i] == 'r' && cs[i + 1] == 'e' && cs[i + 2] == 'g' && cs[i + 3] == 'i' && cs[i + 4] == 'o' && cs[i + 5] == 'n' {
            Some(Token::Region)
        } else if cs[i] == 'p' && cs[i + 1] == 'r' && cs[i + 2] == 'u' && cs[i + 3] == 'e' && cs[i + 4] == 'b' && cs[i + 5] == 'a' {
            Some(Token::Prueba)
        } else if cs[i] == 'l' && cs[i + 1] == 'a' && cs[i + 2] == 'n' && cs[i + 3] == 'z' && cs[i + 4] == 'a' && cs[i + 5] == 'r' {
            Some(Token::Lanzar)
        } else if cs[i] == 'd' && cs[i + 1] == 'i' && cs[i + 2] == 'r' && cs[i + 3] == '_' && cs[i + 4] == 'd' && cs[i + 5] == 'e' {
            Some(Token::DirDe)
        } else {
            None
        }
    } else if n == 7 {
        if cs[i] == 'f' && cs[i + 1] == 'u' && cs[i + 2] == 'n' && cs[i + 3] == 'c' && cs[i + 4] == 'i' && cs[i + 5] == 'ó' && cs[i + 6] == 'n' {
            Some(Token::Funcion)
        } else if cs[i] == 'f' && cs[i + 1] == 'u' && cs[i + 2] == 'n' && cs[i + 3] == 'c' && cs[i + 4] == 'i' && cs[i + 5] == 'o' && cs[i + 6] == 'n' {
            Some(Token::Funcion)
        } else if cs[i] == 'p' && cs[i + 1] == 'r' && cs[i + 2] == 'e' && cs[i + 3] == 's' && cs[i + 4] == 't' && cs[i + 5] == 'a' && cs[i + 6] == 'r' {
            Some(Token::Prestar)
        } else if cs[i] == 'e' && cs[i + 1] == 's' && cs[i + 2] == 'p' && cs[i + 3] == 'e' && cs[i + 4] == 'r' && cs[i + 5] == 'a' && cs[i + 6] == 'r' {
            Some(Token::Esperar)
        } else if cs[i] == 'E' && cs[i + 1] == 'n' && cs[i + 2] == 't' && cs[i + 3] == 'e' && cs[i + 4] == 'r' && cs[i + 5] == 'o' && cs[i + 6] == '8' {
            Some(Token::Entero8)
        } else if cs[i] == 'P' && cs[i + 1] == 'a' && cs[i + 2] == 'l' && cs[i + 3] == 'a' && cs[i + 4] == 'b' && cs[i + 5] == 'r' && cs[i + 6] == 'a' {
            Some(Token::Palabra)
        } else {
            None
        }
    } else if n == 8 {
        if cs[i] == 'r' && cs[i + 1] == 'e' && cs[i + 2] == 't' && cs[i + 3] == 'o' && cs[i + 4] == 'r' && cs[i + 5] == 'n' && cs[i + 6] == 'a' && cs[i + 7] == 'r' {
            Some(Token::Retornar)
        } else if cs[i] == 'd' && cs[i + 1] == 'e' && cs[i + 2] == 'v' && cs[i + 3] == 'o' && cs[i + 4] == 'l' && cs[i + 5] == 'v' && cs[i + 6] == 'e' && cs[i + 7] == 'r' {
            Some(Token::Retornar)
        } else if cs[i] == 'e' && cs[i + 1] == 'n' && cs[i + 2] == 't' && cs[i + 3] == 'o' && cs[i + 4] == 'n' && cs[i + 5] == 'c' && cs[i + 6] == 'e' && cs[i + 7] == 's' {
            Some(Token::Entonces)
        } else if cs[i] == 'm' && cs[i + 1] == 'i' && cs[i + 2] == 'e' && cs[i + 3] == 'n' && cs[i + 4] == 't' && cs[i + 5] == 'r' && cs[i + 6] == 'a' && cs[i + 7] == 's' {
            Some(Token::Mientras)
        } else if cs[i] == 'i' && cs[i + 1] == 'n' && cs[i + 2] == 's' && cs[i + 3] == 'e' && cs[i + 4] == 'g' && cs[i + 5] == 'u' && cs[i + 6] == 'r' && cs[i + 7] == 'o' {
            Some(Token::Inseguro)
        } else if cs[i] == 'e' && cs[i + 1] == 's' && cs[i + 2] == 't' && cs[i + 3] == 'r' && cs[i + 4] == 'i' && cs[i + 5] == 'c' && cs[i + 6] == 't' && cs[i + 7] == 'o' {
            Some(Token::Estricto)
        } else if cs[i] == 'b' && cs[i + 1] == 'l' && cs[i + 2] == 'o' && cs[i + 3] == 'q' && cs[i + 4] == 'u' && cs[i + 5] == 'e' && cs[i + 6] == 'a' && cs[i + 7] == 'r' {
            Some(Token::Bloquear)
        } else if cs[i] == 'E' && cs[i + 1] == 'n' && cs[i + 2] == 't' && cs[i + 3] == 'e' && cs[i + 4] == 'r' && cs[i + 5] == 'o' && cs[i + 6] == '1' && cs[i + 7] == '6' {
            Some(Token::Entero16)
        } else if cs[i] == 'E' && cs[i + 1] == 'n' && cs[i + 2] == 't' && cs[i + 3] == 'e' && cs[i + 4] == 'r' && cs[i + 5] == 'o' && cs[i + 6] == '3' && cs[i + 7] == '2' {
            Some(Token::Entero32)
        } else if cs[i] == 'E' && cs[i + 1] == 'n' && cs[i + 2] == 't' && cs[i + 3] == 'e' && cs[i + 4] == 'r' && cs[i + 5] == 'o' && cs[i + 6] == '6' && cs[i + 7] == '4' {
            Some(Token::Entero64)
        } else if cs[i] == 'N' && cs[i + 1] == 'a' && cs[i + 2] == 't' && cs[i + 3] == 'u' && cs[i + 4] == 'r' && cs[i + 5] == 'a' && cs[i + 6] == 'l' && cs[i + 7] == '8' {
            Some(Token::Natural8)
        } else if cs[i] == 'B' && cs[i + 1] == 'o' && cs[i + 2] == 'o' && cs[i + 3] == 'l' && cs[i + 4] == 'e' && cs[i + 5] == 'a' && cs[i + 6] == 'n' && cs[i + 7] == 'o' {
            Some(Token::Booleano)
        } else if cs[i] == 'C' && cs[i + 1] == 'a' && cs[i + 2] == 'r' && cs[i + 3] == 'a' && cs[i + 4] == 'c' && cs[i + 5] == 't' && cs[i + 6] == 'e' && cs[i + 7] == 'r' {
            Some(Token::Caracter)
        } else {
            None
        }
    } else if n == 9 {
        if cs[i] == 'c' && cs[i + 1] == 'o' && cs[i + 2] == 'i' && cs[i + 3] == 'n' && cs[i + 4] == 'c' && cs[i + 5] == 'i' && cs[i + 6] == 'd' && cs[i + 7] == 'i' && cs[i + 8] == 'r' {
            Some(Token::Coincidir)
        } else if cs[i] == 'e' && cs[i + 1] == 'm' && cs[i + 2] == 'p' && cs[i + 3] == 'a' && cs[i + 4] == 'r' && cs[i + 5] == 'e' && cs[i + 6] == 'j' && cs[i + 7] == 'a' && cs[i + 8] == 'r' {
            Some(Token::Coincidir)
        } else if cs[i] == 'N' && cs[i + 1] == 'a' && cs[i + 2] == 't' && cs[i + 3] == 'u' && cs[i + 4] == 'r' && cs[i + 5] == 'a' && cs[i + 6] == 'l' && cs[i + 7] == '1' && cs[i + 8] == '6' {
            Some(Token::Natural16)
        } else if cs[i] == 'N' && cs[i + 1] == 'a' && cs[i + 2] == 't' && cs[i + 3] == 'u' && cs[i + 4] == 'r' && cs[i + 5] == 'a' && cs[i + 6] == 'l' && cs[i + 7] == '3' && cs[i + 8] == '2' {
            Some(Token::Natural32)
        } else if cs[i] == 'N' && cs[i + 1] == 'a' && cs[i + 2] == 't' && cs[i + 3] == 'u' && cs[i + 4] == 'r' && cs[i + 5] == 'a' && cs[i + 6] == 'l' && cs[i + 7] == '6' && cs[i + 8] == '4' {
            Some(Token::Natural64)
        } else if cs[i] == 'R' && cs[i + 1] == 'e' && cs[i + 2] == 's' && cs[i + 3] == 'u' && cs[i + 4] == 'l' && cs[i + 5] == 't' && cs[i + 6] == 'a' && cs[i + 7] == 'd' && cs[i + 8] == 'o' {
            Some(Token::Resultado)
        } else if cs[i] == 'v' && cs[i + 1] == 'e' && cs[i + 2] == 'r' && cs[i + 3] == 'd' && cs[i + 4] == 'a' && cs[i + 5] == 'd' && cs[i + 6] == 'e' && cs[i + 7] == 'r' && cs[i + 8] == 'o' {
            Some(Token::Verdadero)
        } else {
            None
        }
    } else if n == 10 {
        if cs[i] == 'v' && cs[i + 1] == 'e' && cs[i + 2] == 'r' && cs[i + 3] == 'i' && cs[i + 4] == 'f' && cs[i + 5] == 'i' && cs[i + 6] == 'c' && cs[i + 7] == 'a' && cs[i + 8] == 'd' && cs[i + 9] == 'o' {
            Some(Token::Verificado)
        } else if cs[i] == 'F' && cs[i + 1] == 'l' && cs[i + 2] == 'o' && cs[i + 3] == 't' && cs[i + 4] == 'a' && cs[i + 5] == 'n' && cs[i + 6] == 't' && cs[i + 7] == 'e' && cs[i + 8] == '3' && cs[i + 9] == '2' {
            Some(Token::Flotante32)
        } else if cs[i] == 'F' && cs[i + 1] == 'l' && cs[i + 2] == 'o' && cs[i + 3] == 't' && cs[i + 4] == 'a' && cs[i + 5] == 'n' && cs[i + 6] == 't' && cs[i + 7] == 'e' && cs[i + 8] == '6' && cs[i + 9] == '4' {
            Some(Token::Flotante64)
        } else {
            None
        }
    } else if n == 11 {
        if cs[i] == 'e' && cs[i + 1] == 's' && cs[i + 2] == 't' && cs[i + 3] == 'r' && cs[i + 4] == 'u' && cs[i + 5] == 'c' && cs[i + 6] == 't' && cs[i + 7] == 'u' && cs[i + 8] == 'r' && cs[i + 9] == 'a' && cs[i + 10] == 'l' {
            Some(Token::Estructural)
        } else if cs[i] == 'e' && cs[i + 1] == 'n' && cs[i + 2] == 'u' && cs[i + 3] == 'm' && cs[i + 4] == 'e' && cs[i + 5] == 'r' && cs[i + 6] == 'a' && cs[i + 7] == 'c' && cs[i + 8] == 'i' && cs[i + 9] == 'ó' && cs[i + 10] == 'n' {
            Some(Token::Enumeracion)
        } else if cs[i] == 'i' && cs[i + 1] == 'm' && cs[i + 2] == 'p' && cs[i + 3] == 'l' && cs[i + 4] == 'e' && cs[i + 5] == 'm' && cs[i + 6] == 'e' && cs[i + 7] == 'n' && cs[i + 8] == 't' && cs[i + 9] == 'a' && cs[i + 10] == 'r' {
            Some(Token::Implementar)
        } else if cs[i] == 's' && cs[i + 1] == 'e' && cs[i + 2] == 'l' && cs[i + 3] == 'e' && cs[i + 4] == 'c' && cs[i + 5] == 'c' && cs[i + 6] == 'i' && cs[i + 7] == 'o' && cs[i + 8] == 'n' && cs[i + 9] == 'a' && cs[i + 10] == 'r' {
            Some(Token::Seleccionar)
        } else {
            None
        }
    } else if n == 12 {
        if cs[i] == 'd' && cs[i + 1] == 'i' && cs[i + 2] == 'r' && cs[i + 3] == 'e' && cs[i + 4] == 'c' && cs[i + 5] == 'c' && cs[i + 6] == 'i' && cs[i + 7] == 'o' && cs[i + 8] == 'n' && cs[i + 9] == '_' && cs[i + 10] == 'd' && cs[i + 11] == 'e' {
            Some(Token::DireccionDe)
        } else if cs[i] == 'c' && cs[i + 1] == 'o' && cs[i + 2] == 'n' && cs[i + 3] == '_' && cs[i + 4] == 'e' && cs[i + 5] == 'x' && cs[i + 6] == 'e' && cs[i + 7] == 'c' && cs[i + 8] == 'u' && cs[i + 9] == 't' && cs[i + 10] == 'o' && cs[i + 11] == 'r' {
            Some(Token::ConExecutor)
        } else {
            None
        }
    } else {
        None
    }
}

/// Símbolo más largo que empieza en la posición `i` y su largo.
pub open spec fn simbolo(cs: Seq<char>, i: int) -> Option<(Token, int)> {
    if en(cs, i + 0, '>') && en(cs, i + 1, '>') && en(cs, i + 2, '>') {
        Some((Token::TripleMayor, 3))
    } else if en(cs, i + 0, '.') && en(cs, i + 1, '.') && en(cs, i + 2, '=') {
        Some((Token::PuntoPuntoIgual, 3))
    } else if en(cs, i + 0, '=') && en(cs, i + 1, '=') {
        Some((Token::IgualIgual, 2))
    } else if en(cs, i + 0, '!') && en(cs, i + 1, '=') {
        Some((Token::Distinto, 2))
    } else if en(cs, i + 0, '&') && en(cs, i + 1, '&') {
        Some((Token::YLogico, 2))
    } else if en(cs, i + 0, '|') && en(cs, i + 1, '|') {
        Some((Token::OLogico, 2))
    } else if en(cs, i + 0, '<') && en(cs, i + 1, '<') {
        Some((Token::DobleMenor, 2))
    } else if en(cs, i + 0, '>') && en(cs, i + 1, '>') {
        Some((Token::DobleMayor, 2))
    } else if en(cs, i + 0, '<') && en(cs, i + 1, '=') {
        Some((Token::MenorIgual, 2))
    } else if en(cs, i + 0, '>') && en(cs, i + 1, '=') {
        Some((Token::MayorIgual, 2))
    } else if en(cs, i + 0, '.') && en(cs, i + 1, '.') {
        Some((Token::DoblePunto, 2))
    } else if en(cs, i + 0, '-') && en(cs, i + 1, '>') {
        Some((Token::Flecha, 2))
    } else if en(cs, i + 0, '=') && en(cs, i + 1, '>') {
        Some((Token::FlechaGruesa, 2))
    } else if en(cs, i + 0, '(') {
        Some((Token::ParenAbre, 1))
    } else if en(cs, i + 0, ')') {
        Some((Token::ParenCierra, 1))
    } else if en(cs, i + 0, '{') {
        Some((Token::LlaveAbre, 1))
    } else if en(cs, i + 0, '}') {
        Some((Token::LlaveCierra, 1))
    } else if en(cs, i + 0, '[') {
        Some((Token::CorcheteAbre, 1))
    } else if en(cs, i + 0, ']') {
        Some((Token::CorcheteCierra, 1))
    } else if en(cs, i + 0, ',') {
        Some((Token::Coma, 1))
    } else if en(cs, i + 0, ';') {
        Some((Token::PuntoYComa, 1))
    } else if en(cs, i + 0, ':') {
        Some((Token::DosPuntos, 1))
    } else if en(cs, i + 0, '=') {
        Some((Token::Igual, 1))
    } else if en(cs, i + 0, '+') {
        Some((Token::Mas, 1))
    } else if en(cs, i + 0, '-') {
        Some((Token::Menos, 1))
    } else if en(cs, i + 0, '*') {
        Some((Token::Asterisco, 1))
    } else if en(cs, i + 0, '/') {
        Some((Token::Barra, 1))
    } else if en(cs, i + 0, '%') {
        Some((Token::Porcentaje, 1))
    } else if en(cs, i + 0, '|') {
        Some((Token::Pipe, 1))
    } else if en(cs, i + 0, '^') {
        Some((Token::Caret, 1))
    } else if en(cs, i + 0, '~') {
        Some((Token::Tilde, 1))
    } else if en(cs, i + 0, '&') {
        Some((Token::Ampersand, 1))
    } else if en(cs, i + 0, '!') {
        Some((Token::Exclamacion, 1))
    } else if en(cs, i + 0, '<') {
        Some((Token::MenorQue, 1))
    } else if en(cs, i + 0, '>') {
        Some((Token::MayorQue, 1))
    } else if en(cs, i + 0, '.') {
        Some((Token::Punto, 1))
    } else if en(cs, i + 0, '?') {
        Some((Token::Interrogacion, 1))
    } else {
        None
    }
}

/// Reconoce el símbolo más largo que empieza en `i`.
pub fn reconocer_simbolo(cs: &Vec<char>, i: usize) -> (r: Option<(Token, usize)>)
    requires
        i < cs@.len(),
    ensures
        match r {
            Some((t, l)) => simbolo(cs@, i as int) == Some((t, l as int)),
            None => simbolo(cs@, i as int) is None,
        },
{
    let n = cs.len();
    if cs[i] == '>' && (i + 1 < n && cs[i + 1] == '>') && (i + 2 < n && cs[i + 2] == '>') {
        Some((Token::TripleMayor, 3))
    } else if cs[i] == '.' && (i + 1 < n && cs[i + 1] == '.') && (i + 2 < n && cs[i + 2] == '=') {
        Some((Token::PuntoPuntoIgual, 3))
    } else if cs[i] == '=' && (i + 1 < n && cs[i + 1] == '=') {
        Some((Token::IgualIgual, 2))
    } else if cs[i] == '!' && (i + 1 < n && cs[i + 1] == '=') {
        Some((Token::Distinto, 2))
    } else if cs[i] == '&' && (i + 1 < n && cs[i + 1] == '&') {
        Some((Token::YLogico, 2))
    } else if cs[i] == '|' && (i + 1 < n && cs[i + 1] == '|') {
        Some((Token::OLogico, 2))
    } else if cs[i] == '<' && (i + 1 < n && cs[i + 1] == '<') {
        Some((Token::DobleMenor, 2))
    } else if cs[i] == '>' && (i + 1 < n && cs[i + 1] == '>') {
        Some((Token::DobleMayor, 2))
    } else if cs[i] == '<' && (i + 1 < n && cs[i + 1] == '=') {
        Some((Token::MenorIgual, 2))
    } else if cs[i] == '>' && (i + 1 < n && cs[i + 1] == '=') {
        Some((Token::MayorIgual, 2))
    } else if cs[i] == '.' && (i + 1 < n && cs[i + 1] == '.') {
        Some((Token::DoblePunto, 2))
    } else if cs[i] == '-' && (i + 1 < n && cs[i + 1] == '>') {
        Some((Token::Flecha, 2))
    } else if cs[i] == '=' && (i + 1 < n && cs[i + 1] == '>') {
        Some((Token::FlechaGruesa, 2))
    } else if cs[i] == '(' {
        Some((Token::ParenAbre, 1))
    } else if cs[i] == ')' {
        Some((Token::ParenCierra, 1))
    } else if cs[i] == '{' {
        Some((Token::LlaveAbre, 1))
    } else if cs[i] == '}' {
        Some((Token::LlaveCierra, 1))
    } else if cs[i] == '[' {
        Some((Token::CorcheteAbre, 1))
    } else if cs[i] == ']' {
        Some((Token::CorcheteCierra, 1))
    } else if cs[i] == ',' {
        Some((Token::Coma, 1))
    } else if cs[i] == ';' {
        Some((Token::PuntoYComa, 1))
    } else if cs[i] == ':' {
        Some((Token::DosPuntos, 1))
    } else if cs[i] == '=' {
        Some((Token::Igual, 1))
    } else if cs[i] == '+' {
        Some((Token::Mas, 1))
    } else if cs[i] == '-' {
        Some((Token::Menos, 1))
    } else if cs[i] == '*' {
        Some((Token::Asterisco, 1))
    } else if cs[i] == '/' {
        Some((Token::Barra, 1))
    } else if cs[i] == '%' {
        Some((Token::Porcentaje, 1))
    } else if cs[i] == '|' {
        Some((Token::Pipe, 1))
    } else if cs[i] == '^' {
        Some((Token::Caret, 1))
    } else if cs[i] == '~' {
        Some((Token::Tilde, 1))
    } else if cs[i] == '&' {
        Some((Token::Ampersand, 1))
    } else if cs[i] == '!' {
        Some((Token::Exclamacion, 1))
    } else if cs[i] == '<' {
        Some((Token::MenorQue, 1))
    } else if cs[i] == '>' {
        Some((Token::MayorQue, 1))
    } else if cs[i] == '.' {
        Some((Token::Punto, 1))
    } else if cs[i] == '?' {
        Some((Token::Interrogacion, 1))
    } else {
        None
    }
}


// ---------------------------------------------------------------------
// Tabla de palabras clave del lenguaje
// ---------------------------------------------------------------------

/// Entrada `k` de la tabla de palabras clave de Mejia: la palabra y el token que denota.
pub open spec fn entrada_palabra_clave(k: int) -> (Seq<char>, Token) {
    if k == 0 {
        ("función"@, Token::Funcion)
    } else if k == 1 {
        ("funcion"@, Token::Funcion)
    } else if k == 2 {
        ("fn"@, Token::Funcion)
    } else if k == 3 {
        ("retornar"@, Token::Retornar)
    } else if k == 4 {
        ("devolver"@, Token::Retornar)
    } else if k == 5 {
        ("si"@, Token::Si)
    } else if k == 6 {
        ("entonces"@, Token::Entonces)
    } else if k == 7 {
        ("sino"@, Token::Sino)
    } else if k == 8 {
        ("es"@, Token::Es)
    } else if k == 9 {
        ("está"@, Token::Esta)
    } else if k == 10 {
        ("fuese"@, Token::Fuese)
    } else if k == 11 {
        ("mientras"@, Token::Mientras)
    } else if k == 12 {
        ("para"@, Token::Para)
    } else if k == 13 {
        ("en"@, Token::En)
    } else if k == 14 {
        ("estructural"@, Token::Estructural)
    } else if k == 15 {
        ("enumeración"@, Token::Enumeracion)
    } else if k == 16 {
        ("usar"@, Token::Usar)
    } else if k == 17 {
        ("módulo"@, Token::Modulo)
    } else if k == 18 {
        ("todos"@, Token::Todos)
    } else if k == 19 {
        ("inseguro"@, Token::Inseguro)
    } else if k == 20 {
        ("mover"@, Token::Mover)
    } else if k == 21 {
        ("copiar"@, Token::Copiar)
    } else if k == 22 {
        ("prestar"@, Token::Prestar)
    } else if k == 23 {
        ("verificado"@, Token::Verificado)
    } else if k == 24 {
        ("estricto"@, Token::Estricto)
    } else if k == 25 {
        ("mut"@, Token::Mut)
    } else if k == 26 {
        ("como"@, Token::Como)
    } else if k == 27 {
        ("tipo"@, Token::Tipo)
    } else if k == 28 {
        ("región"@, Token::Region)
    } else if k == 29 {
        ("region"@, Token::Region)
    } else if k == 30 {
        ("yo"@, Token::SelfKw)
    } else if k == 31 {
        ("puro"@, Token::Puro)
    } else if k == 32 {
        ("muta"@, Token::Muta)
    } else if k == 33 {
        ("lee"@, Token::Lee)
    } else if k == 34 {
        ("rasgo"@, Token::Rasgo)
    } else if k == 35 {
        ("implementar"@, Token::Implementar)
    } else if k == 36 {
        ("coincidir"@, Token::Coincidir)
    } else if k == 37 {
        ("emparejar"@, Token::Coincidir)
    } else if k == 38 {
        ("prueba"@, Token::Prueba)
    } else if k == 39 {
        ("fut"@, Token::Fut)
    } else if k == 40 {
        ("esperar"@, Token::Esperar)
    } else if k == 41 {
        ("lanzar"@, Token::Lanzar)
    } else if k == 42 {
        ("bloquear"@, Token::Bloquear)
    } else if k == 43 {
        ("seleccionar"@, Token::Seleccionar)
    } else if k == 44 {
        ("direccion_de"@, Token::DireccionDe)
    } else if k == 45 {
        ("dir_de"@, Token::DirDe)
    } else if k == 46 {
        ("con_executor"@, Token::ConExecutor)
    } else if k == 47 {
        ("el"@, Token::ArticuloEl)
    } else if k == 48 {
        ("la"@, Token::ArticuloLa)
    } else if k == 49 {
        ("un"@, Token::ArticuloUn)
    } else if k == 50 {
        ("los"@, Token::ArticuloLos)
    } else if k == 51 {
        ("las"@, Token::ArticuloLas)
    } else if k == 52 {
        ("Entero8"@, Token::Entero8)
    } else if k == 53 {
        ("Entero16"@, Token::Entero16)
    } else if k == 54 {
        ("Entero32"@, Token::Entero32)
    } else if k == 55 {
        ("Entero64"@, Token::Entero64)
    } else if k == 56 {
        ("Natural8"@, Token::Natural8)
    } else if k == 57 {
        ("Natural16"@, Token::Natural16)
    } else if k == 58 {
        ("Natural32"@, Token::Natural32)
    } else if k == 59 {
        ("Natural64"@, Token::Natural64)
    } else if k == 60 {
        ("Flotante32"@, Token::Flotante32)
    } else if k == 61 {
        ("Flotante64"@, Token::Flotante64)
    } else if k == 62 {
        ("Booleano"@, Token::Booleano)
    } else if k == 63 {
        ("Caracter"@, Token::Caracter)
    } else if k == 64 {
        ("Palabra"@, Token::Palabra)
    } else if k == 65 {
        ("Texto"@, Token::Texto)
    } else if k == 66 {
        ("Resultado"@, Token::Resultado)
    } else if k == 67 {
        ("Vacío"@, Token::Vacio)
    } else if k == 68 {
        ("verdadero"@, Token::Verdadero)
    } else {
        ("falso"@, Token::Falso)
    }
}

/// Las palabras clave de Mejia con su token: `función`, `funcion` y `fn` son `Funcion`,
/// `verdadero` y `falso` son los literales booleanos, los nombres de tipo primitivo son sus
/// tipos, y así cada una.
pub open spec fn tabla_palabras_clave() -> Seq<(Seq<char>, Token)> {
    Seq::new(70, |k: int| entrada_palabra_clave(k))
}

/// Cada palabra de la tabla se reconoce como el token que denota (y no como identificador):
/// por ejemplo, `verdadero` da `Token::Verdadero` y `falso` da `Token::Falso`.
pub proof fn ley_tabla_palabras_clave(k: int)
    requires
        0 <= k < tabla_palabras_clave().len(),
    ensures
        palabra_clave(tabla_palabras_clave()[k].0) == Some(tabla_palabras_clave()[k].1),
{
    if k == 0 {
        reveal_strlit("función");
    } else if k == 1 {
        reveal_strlit("funcion");
    } else if k == 2 {
        reveal_strlit("fn");
    } else if k == 3 {
        reveal_strlit("retornar");
    } else if k == 4 {
        reveal_strlit("devolver");
    } else if k == 5 {
        reveal_strlit("si");
    } else if k == 6 {
        reveal_strlit("entonces");
    } else if k == 7 {
        reveal_strlit("sino");
    } else if k == 8 {
        reveal_strlit("es");
    } else if k == 9 {
        reveal_strlit("está");
    } else if k == 10 {
        reveal_strlit("fuese");
    } else if k == 11 {
        reveal_strlit("mientras");
    } else if k == 12 {
        reveal_strlit("para");
    } else if k == 13 {
        reveal_strlit("en");
    } else if k == 14 {
        reveal_strlit("estructural");
    } else if k == 15 {
        reveal_strlit("enumeración");
    } else if k == 16 {
        reveal_strlit("usar");
    } else if k == 17 {
        reveal_strlit("módulo");
    } else if k == 18 {
        reveal_strlit("todos");
    } else if k == 19 {
        reveal_strlit("inseguro");
    } else if k == 20 {
        reveal_strlit("mover");
    } else if k == 21 {
        reveal_strlit("copiar");
    } else if k == 22 {
        reveal_strlit("prestar");
    } else if k == 23 {
        reveal_strlit("verificado");
    } else if k == 24 {
        reveal_strlit("estricto");
    } else if k == 25 {
        reveal_strlit("mut");
    } else if k == 26 {
        reveal_strlit("como");
    } else if k == 27 {
        reveal_strlit("tipo");
    } else if k == 28 {
        reveal_strlit("región");
    } else if k == 29 {
        reveal_strlit("region");
    } else if k == 30 {
        reveal_strlit("yo");
    } else if k == 31 {
        reveal_strlit("puro");
    } else if k == 32 {
        reveal_strlit("muta");
    } else if k == 33 {
        reveal_strlit("lee");
    } else if k == 34 {
        reveal_strlit("rasgo");
    } else if k == 35 {
        reveal_strlit("implementar");
    } else if k == 36 {
        reveal_strlit("coincidir");
    } else if k == 37 {
        reveal_strlit("emparejar");
    } else if k == 38 {
        reveal_strlit("prueba");
    } else if k == 39 {
        reveal_strlit("fut");
    } else if k == 40 {
        reveal_strlit("esperar");
    } else if k == 41 {
        reveal_strlit("lanzar");
    } else if k == 42 {
        reveal_strlit("bloquear");
    } else if k == 43 {
        reveal_strlit("seleccionar");
    } else if k == 44 {
        reveal_strlit("direccion_de");
    } else if k == 45 {
        reveal_strlit("dir_de");
    } else if k == 46 {
        reveal_strlit("con_executor");
    } else if k == 47 {
        reveal_strlit("el");
    } else if k == 48 {
        reveal_strlit("la");
    } else if k == 49 {
        reveal_strlit("un");
    } else if k == 50 {
        reveal_strlit("los");
    } else if k == 51 {
        reveal_strlit("las");
    } else if k == 52 {
        reveal_strlit("Entero8");
    } else if k == 53 {
        reveal_strlit("Entero16");
    } else if k == 54 {
        reveal_strlit("Entero32");
    } else if k == 55 {
        reveal_strlit("Entero64");
    } else if k == 56 {
        reveal_strlit("Natural8");
    } else if k == 57 {
        reveal_strlit("Natural16");
    } else if k == 58 {
        reveal_strlit("Natural32");
    } else if k == 59 {
        reveal_strlit("Natural64");
    } else if k == 60 {
        reveal_strlit("Flotante32");
    } else if k == 61 {
        reveal_strlit("Flotante64");
    } else if k == 62 {
        reveal_strlit("Booleano");
    } else if k == 63 {
        reveal_strlit("Caracter");
    } else if k == 64 {
        reveal_strlit("Palabra");
    } else if k == 65 {
        reveal_strlit("Texto");
    } else if k == 66 {
        reveal_strlit("Resultado");
    } else if k == 67 {
        reveal_strlit("Vacío");
    } else if k == 68 {
        reveal_strlit("verdadero");
    } else if k == 69 {
        reveal_strlit("falso");
    }
}

/// Solo las palabras de la tabla son palabras clave: cualquier otro lexema es un
/// identificador, y el token de una palabra clave es el que le da la tabla.
#[verifier::rlimit(100)]
pub proof fn ley_solo_palabras_de_la_tabla(s: Seq<char>)
    requires
        palabra_clave(s) is Some,
    ensures
        exists|k: int|
            0 <= k < tabla_palabras_clave().len() && #[trigger] tabla_palabras_clave()[k].0 == s
                && Some(tabla_palabras_clave()[k].1) == palabra_clave(s),
{
    if s.len() == 7 && s[0] == 'f' && s[1] == 'u' && s[2] == 'n' && s[3] == 'c' && s[4] == 'i' && s[5] == 'ó' && s[6] == 'n' {
        reveal_strlit("función");
        assert(s =~= "función"@);
        assert(tabla_palabras_clave()[0].0 == s);
    }
    if s.len() == 7 && s[0] == 'f' && s[1] == 'u' && s[2] == 'n' && s[3] == 'c' && s[4] == 'i' && s[5] == 'o' && s[6] == 'n' {
        reveal_strlit("funcion");
        assert(s =~= "funcion"@);
        assert(tabla_palabras_clave()[1].0 == s);
    }
    if s.len() == 2 && s[0] == 'f' && s[1] == 'n' {
        reveal_strlit("fn");
        assert(s =~= "fn"@);
        assert(tabla_palabras_clave()[2].0 == s);
    }
    if s.len() == 8 && s[0] == 'r' && s[1] == 'e' && s[2] == 't' && s[3] == 'o' && s[4] == 'r' && s[5] == 'n' && s[6] == 'a' && s[7] == 'r' {
        reveal_strlit("retornar");
        assert(s =~= "retornar"@);
        assert(tabla_palabras_clave()[3].0 == s);
    }
    if s.len() == 8 && s[0] == 'd' && s[1] == 'e' && s[2] == 'v' && s[3] == 'o' && s[4] == 'l' && s[5] == 'v' && s[6] == 'e' && s[7] == 'r' {
        reveal_strlit("devolver");
        assert(s =~= "devolver"@);
        assert(tabla_palabras_clave()[4].0 == s);
    }
    if s.len() == 2 && s[0] == 's' && s[1] == 'i' {
        reveal_strlit("si");
        assert(s =~= "si"@);
        assert(tabla_palabras_clave()[5].0 == s);
    }
    if s.len() == 8 && s[0] == 'e' && s[1] == 'n' && s[2] == 't' && s[3] == 'o' && s[4] == 'n' && s[5] == 'c' && s[6] == 'e' && s[7] == 's' {
        reveal_strlit("entonces");
        assert(s =~= "entonces"@);
        assert(tabla_palabras_clave()[6].0 == s);
    }
    if s.len() == 4 && s[0] == 's' && s[1] == 'i' && s[2] == 'n' && s[3] == 'o' {
        reveal_strlit("sino");
        assert(s =~= "sino"@);
        assert(tabla_palabras_clave()[7].0 == s);
    }
    if s.len() == 2 && s[0] == 'e' && s[1] == 's' {
        reveal_strlit("es");
        assert(s =~= "es"@);
        assert(tabla_palabras_clave()[8].0 == s);
    }
    if s.len() == 4 && s[0] == 'e' && s[1] == 's' && s[2] == 't' && s[3] == 'á' {
        reveal_strlit("está");
        assert(s =~= "está"@);
        assert(tabla_palabras_clave()[9].0 == s);
    }
    if s.len() == 5 && s[0] == 'f' && s[1] == 'u' && s[2] == 'e' && s[3] == 's' && s[4] == 'e' {
        reveal_strlit("fuese");
        assert(s =~= "fuese"@);
        assert(tabla_palabras_clave()[10].0 == s);
    }
    if s.len() == 8 && s[0] == 'm' && s[1] == 'i' && s[2] == 'e' && s[3] == 'n' && s[4] == 't' && s[5] == 'r' && s[6] == 'a' && s[7] == 's' {
        reveal_strlit("mientras");
        assert(s =~= "mientras"@);
        assert(tabla_palabras_clave()[11].0 == s);
    }
    if s.len() == 4 && s[0] == 'p' && s[1] == 'a' && s[2] == 'r' && s[3] == 'a' {
        reveal_strlit("para");
        assert(s =~= "para"@);
        assert(tabla_palabras_clave()[12].0 == s);
    }
    if s.len() == 2 && s[0] == 'e' && s[1] == 'n' {
        reveal_strlit("en");
        assert(s =~= "en"@);
        assert(tabla_palabras_clave()[13].0 == s);
    }
    if s.len() == 11 && s[0] == 'e' && s[1] == 's' && s[2] == 't' && s[3] == 'r' && s[4] == 'u' && s[5] == 'c' && s[6] == 't' && s[7] == 'u' && s[8] == 'r' && s[9] == 'a' && s[10] == 'l' {
        reveal_strlit("estructural");
        assert(s =~= "estructural"@);
        assert(tabla_palabras_clave()[14].0 == s);
    }
    if s.len() == 11 && s[0] == 'e' && s[1] == 'n' && s[2] == 'u' && s[3] == 'm' && s[4] == 'e' && s[5] == 'r' && s[6] == 'a' && s[7] == 'c' && s[8] == 'i' && s[9] == 'ó' && s[10] == 'n' {
        reveal_strlit("enumeración");
        assert(s =~= "enumeración"@);
        assert(tabla_palabras_clave()[15].0 == s);
    }
    if s.len() == 4 && s[0] == 'u' && s[1] == 's' && s[2] == 'a' && s[3] == 'r' {
        reveal_strlit("usar");
        assert(s =~= "usar"@);
        assert(tabla_palabras_clave()[16].0 == s);
    }
    if s.len() == 6 && s[0] == 'm' && s[1] == 'ó' && s[2] == 'd' && s[3] == 'u' && s[4] == 'l' && s[5] == 'o' {
        reveal_strlit("módulo");
        assert(s =~= "módulo"@);
        assert(tabla_palabras_clave()[17].0 == s);
    }
    if s.len() == 5 && s[0] == 't' && s[1] == 'o' && s[2] == 'd' && s[3] == 'o' && s[4] == 's' {
        reveal_strlit("todos");
        assert(s =~= "todos"@);
        assert(tabla_palabras_clave()[18].0 == s);
    }
    if s.len() == 8 && s[0] == 'i' && s[1] == 'n' && s[2] == 's' && s[3] == 'e' && s[4] == 'g' && s[5] == 'u' && s[6] == 'r' && s[7] == 'o' {
        reveal_strlit("inseguro");
        assert(s =~= "inseguro"@);
        assert(tabla_palabras_clave()[19].0 == s);
    }
    if s.len() == 5 && s[0] == 'm' && s[1] == 'o' && s[2] == 'v' && s[3] == 'e' && s[4] == 'r' {
        reveal_strlit("mover");
        assert(s =~= "mover"@);
        assert(tabla_palabras_clave()[20].0 == s);
    }
    if s.len() == 6 && s[0] == 'c' && s[1] == 'o' && s[2] == 'p' && s[3] == 'i' && s[4] == 'a' && s[5] == 'r' {
        reveal_strlit("copiar");
        assert(s =~= "copiar"@);
        assert(tabla_palabras_clave()[21].0 == s);
    }
    if s.len() == 7 && s[0] == 'p' && s[1] == 'r' && s[2] == 'e' && s[3] == 's' && s[4] == 't' && s[5] == 'a' && s[6] == 'r' {
        reveal_strlit("prestar");
        assert(s =~= "prestar"@);
        assert(tabla_palabras_clave()[22].0 == s);
    }
    if s.len() == 10 && s[0] == 'v' && s[1] == 'e' && s[2] == 'r' && s[3] == 'i' && s[4] == 'f' && s[5] == 'i' && s[6] == 'c' && s[7] == 'a' && s[8] == 'd' && s[9] == 'o' {
        reveal_strlit("verificado");
        assert(s =~= "verificado"@);
        assert(tabla_palabras_clave()[23].0 == s);
    }
    if s.len() == 8 && s[0] == 'e' && s[1] == 's' && s[2] == 't' && s[3] == 'r' && s[4] == 'i' && s[5] == 'c' && s[6] == 't' && s[7] == 'o' {
        reveal_strlit("estricto");
        assert(s =~= "estricto"@);
        assert(tabla_palabras_clave()[24].0 == s);
    }
    if s.len() == 3 && s[0] == 'm' && s[1] == 'u' && s[2] == 't' {
        reveal_strlit("mut");
        assert(s =~= "mut"@);
        assert(tabla_palabras_clave()[25].0 == s);
    }
    if s.len() == 4 && s[0] == 'c' && s[1] == 'o' && s[2] == 'm' && s[3] == 'o' {
        reveal_strlit("como");
        assert(s =~= "como"@);
        assert(tabla_palabras_clave()[26].0 == s);
    }
    if s.len() == 4 && s[0] == 't' && s[1] == 'i' && s[2] == 'p' && s[3] == 'o' {
        reveal_strlit("tipo");
        assert(s =~= "tipo"@);
        assert(tabla_palabras_clave()[27].0 == s);
    }
    if s.len() == 6 && s[0] == 'r' && s[1] == 'e' && s[2] == 'g' && s[3] == 'i' && s[4] == 'ó' && s[5] == 'n' {
        reveal_strlit("región");
        assert(s =~= "región"@);
        assert(tabla_palabras_clave()[28].0 == s);
    }
    if s.len() == 6 && s[0] == 'r' && s[1] == 'e' && s[2] == 'g' && s[3] == 'i' && s[4] == 'o' && s[5] == 'n' {
        reveal_strlit("region");
        assert(s =~= "region"@);
        assert(tabla_palabras_clave()[29].0 == s);
    }
    if s.len() == 2 && s[0] == 'y' && s[1] == 'o' {
        reveal_strlit("yo");
        assert(s =~= "yo"@);
        assert(tabla_palabras_clave()[30].0 == s);
    }
    if s.len() == 4 && s[0] == 'p' && s[1] == 'u' && s[2] == 'r' && s[3] == 'o' {
        reveal_strlit("puro");
        assert(s =~= "puro"@);
        assert(tabla_palabras_clave()[31].0 == s);
    }
    if s.len() == 4 && s[0] == 'm' && s[1] == 'u' && s[2] == 't' && s[3] == 'a' {
        reveal_strlit("muta");
        assert(s =~= "muta"@);
        assert(tabla_palabras_clave()[32].0 == s);
    }
    if s.len() == 3 && s[0] == 'l' && s[1] == 'e' && s[2] == 'e' {
        reveal_strlit("lee");
        assert(s =~= "lee"@);
        assert(tabla_palabras_clave()[33].0 == s);
    }
    if s.len() == 5 && s[0] == 'r' && s[1] == 'a' && s[2] == 's' && s[3] == 'g' && s[4] == 'o' {
        reveal_strlit("rasgo");
        assert(s =~= "rasgo"@);
        assert(tabla_palabras_clave()[34].0 == s);
    }
    if s.len() == 11 && s[0] == 'i' && s[1] == 'm' && s[2] == 'p' && s[3] == 'l' && s[4] == 'e' && s[5] == 'm' && s[6] == 'e' && s[7] == 'n' && s[8] == 't' && s[9] == 'a' && s[10] == 'r' {
        reveal_strlit("implementar");
        assert(s =~= "implementar"@);
        assert(tabla_palabras_clave()[35].0 == s);
    }
    if s.len() == 9 && s[0] == 'c' && s[1] == 'o' && s[2] == 'i' && s[3] == 'n' && s[4] == 'c' && s[5] == 'i' && s[6] == 'd' && s[7] == 'i' && s[8] == 'r' {
        reveal_strlit("coincidir");
        assert(s =~= "coincidir"@);
        assert(tabla_palabras_clave()[36].0 == s);
    }
    if s.len() == 9 && s[0] == 'e' && s[1] == 'm' && s[2] == 'p' && s[3] == 'a' && s[4] == 'r' && s[5] == 'e' && s[6] == 'j' && s[7] == 'a' && s[8] == 'r' {
        reveal_strlit("emparejar");
        assert(s =~= "emparejar"@);
        assert(tabla_palabras_clave()[37].0 == s);
    }
    if s.len() == 6 && s[0] == 'p' && s[1] == 'r' && s[2] == 'u' && s[3] == 'e' && s[4] == 'b' && s[5] == 'a' {
        reveal_strlit("prueba");
        assert(s =~= "prueba"@);
        assert(tabla_palabras_clave()[38].0 == s);
    }
    if s.len() == 3 && s[0] == 'f' && s[1] == 'u' && s[2] == 't' {
        reveal_strlit("fut");
        assert(s =~= "fut"@);
        assert(tabla_palabras_clave()[39].0 == s);
    }
    if s.len() == 7 && s[0] == 'e' && s[1] == 's' && s[2] == 'p' && s[3] == 'e' && s[4] == 'r' && s[5] == 'a' && s[6] == 'r' {
        reveal_strlit("esperar");
        assert(s =~= "esperar"@);
        assert(tabla_palabras_clave()[40].0 == s);
    }
    if s.len() == 6 && s[0] == 'l' && s[1] == 'a' && s[2] == 'n' && s[3] == 'z' && s[4] == 'a' && s[5] == 'r' {
        reveal_strlit("lanzar");
        assert(s =~= "lanzar"@);
        assert(tabla_palabras_clave()[41].0 == s);
    }
    if s.len() == 8 && s[0] == 'b' && s[1] == 'l' && s[2] == 'o' && s[3] == 'q' && s[4] == 'u' && s[5] == 'e' && s[6] == 'a' && s[7] == 'r' {
        reveal_strlit("bloquear");
        assert(s =~= "bloquear"@);
        assert(tabla_palabras_clave()[42].0 == s);
    }
    if s.len() == 11 && s[0] == 's' && s[1] == 'e' && s[2] == 'l' && s[3] == 'e' && s[4] == 'c' && s[5] == 'c' && s[6] == 'i' && s[7] == 'o' && s[8] == 'n' && s[9] == 'a' && s[10] == 'r' {
        reveal_strlit("seleccionar");
        assert(s =~= "seleccionar"@);
        assert(tabla_palabras_clave()[43].0 == s);
    }
    if s.len() == 12 && s[0] == 'd' && s[1] == 'i' && s[2] == 'r' && s[3] == 'e' && s[4] == 'c' && s[5] == 'c' && s[6] == 'i' && s[7] == 'o' && s[8] == 'n' && s[9] == '_' && s[10] == 'd' && s[11] == 'e' {
        reveal_strlit("direccion_de");
        assert(s =~= "direccion_de"@);
        assert(tabla_palabras_clave()[44].0 == s);
    }
    if s.len() == 6 && s[0] == 'd' && s[1] == 'i' && s[2] == 'r' && s[3] == '_' && s[4] == 'd' && s[5] == 'e' {
        reveal_strlit("dir_de");
        assert(s =~= "dir_de"@);
        assert(tabla_palabras_clave()[45].0 == s);
    }
    if s.len() == 12 && s[0] == 'c' && s[1] == 'o' && s[2] == 'n' && s[3] == '_' && s[4] == 'e' && s[5] == 'x' && s[6] == 'e' && s[7] == 'c' && s[8] == 'u' && s[9] == 't' && s[10] == 'o' && s[11] == 'r' {
        reveal_strlit("con_executor");
        assert(s =~= "con_executor"@);
        assert(tabla_palabras_clave()[46].0 == s);
    }
    if s.len() == 2 && s[0] == 'e' && s[1] == 'l' {
        reveal_strlit("el");
        assert(s =~= "el"@);
        assert(tabla_palabras_clave()[47].0 == s);
    }
    if s.len() == 2 && s[0] == 'l' && s[1] == 'a' {
        reveal_strlit("la");
        assert(s =~= "la"@);
        assert(tabla_palabras_clave()[48].0 == s);
    }
    if s.len() == 2 && s[0] == 'u' && s[1] == 'n' {
        reveal_strlit("un");
        assert(s =~= "un"@);
        assert(tabla_palabras_clave()[49].0 == s);
    }
    if s.len() == 3 && s[0] == 'l' && s[1] == 'o' && s[2] == 's' {
        reveal_strlit("los");
        assert(s =~= "los"@);
        assert(tabla_palabras_clave()[50].0 == s);
    }
    if s.len() == 3 && s[0] == 'l' && s[1] == 'a' && s[2] == 's' {
        reveal_strlit("las");
        assert(s =~= "las"@);
        assert(tabla_palabras_clave()[51].0 == s);
    }
    if s.len() == 7 && s[0] == 'E' && s[1] == 'n' && s[2] == 't' && s[3] == 'e' && s[4] == 'r' && s[5] == 'o' && s[6] == '8' {
        reveal_strlit("Entero8");
        assert(s =~= "Entero8"@);
        assert(tabla_palabras_clave()[52].0 == s);
    }
    if s.len() == 8 && s[0] == 'E' && s[1] == 'n' && s[2] == 't' && s[3] == 'e' && s[4] == 'r' && s[5] == 'o' && s[6] == '1' && s[7] == '6' {
        reveal_strlit("Entero16");
        assert(s =~= "Entero16"@);
        assert(tabla_palabras_clave()[53].0 == s);
    }
    if s.len() == 8 && s[0] == 'E' && s[1] == 'n' && s[2] == 't' && s[3] == 'e' && s[4] == 'r' && s[5] == 'o' && s[6] == '3' && s[7] == '2' {
        reveal_strlit("Entero32");
        assert(s =~= "Entero32"@);
        assert(tabla_palabras_clave()[54].0 == s);
    }
    if s.len() == 8 && s[0] == 'E' && s[1] == 'n' && s[2] == 't' && s[3] == 'e' && s[4] == 'r' && s[5] == 'o' && s[6] == '6' && s[7] == '4' {
        reveal_strlit("Entero64");
        assert(s =~= "Entero64"@);
        assert(tabla_palabras_clave()[55].0 == s);
    }
    if s.len() == 8 && s[0] == 'N' && s[1] == 'a' && s[2] == 't' && s[3] == 'u' && s[4] == 'r' && s[5] == 'a' && s[6] == 'l' && s[7] == '8' {
        reveal_strlit("Natural8");
        assert(s =~= "Natural8"@);
        assert(tabla_palabras_clave()[56].0 == s);
    }
    if s.len() == 9 && s[0] == 'N' && s[1] == 'a' && s[2] == 't' && s[3] == 'u' && s[4] == 'r' && s[5] == 'a' && s[6] == 'l' && s[7] == '1' && s[8] == '6' {
        reveal_strlit("Natural16");
        assert(s =~= "Natural16"@);
        assert(tabla_palabras_clave()[57].0 == s);
    }
    if s.len() == 9 && s[0] == 'N' && s[1] == 'a' && s[2] == 't' && s[3] == 'u' && s[4] == 'r' && s[5] == 'a' && s[6] == 'l' && s[7] == '3' && s[8] == '2' {
        reveal_strlit("Natural32");
        assert(s =~= "Natural32"@);
        assert(tabla_palabras_clave()[58].0 == s);
    }
    if s.len() == 9 && s[0] == 'N' && s[1] == 'a' && s[2] == 't' && s[3] == 'u' && s[4] == 'r' && s[5] == 'a' && s[6] == 'l' && s[7] == '6' && s[8] == '4' {
        reveal_strlit("Natural64");
        assert(s =~= "Natural64"@);
        assert(tabla_palabras_clave()[59].0 == s);
    }
    if s.len() == 10 && s[0] == 'F' && s[1] == 'l' && s[2] == 'o' && s[3] == 't' && s[4] == 'a' && s[5] == 'n' && s[6] == 't' && s[7] == 'e' && s[8] == '3' && s[9] == '2' {
        reveal_strlit("Flotante32");
        assert(s =~= "Flotante32"@);
        assert(tabla_palabras_clave()[60].0 == s);
    }
    if s.len() == 10 && s[0] == 'F' && s[1] == 'l' && s[2] == 'o' && s[3] == 't' && s[4] == 'a' && s[5] == 'n' && s[6] == 't' && s[7] == 'e' && s[8] == '6' && s[9] == '4' {
        reveal_strlit("Flotante64");
        assert(s =~= "Flotante64"@);
        assert(tabla_palabras_clave()[61].0 == s);
    }
    if s.len() == 8 && s[0] == 'B' && s[1] == 'o' && s[2] == 'o' && s[3] == 'l' && s[4] == 'e' && s[5] == 'a' && s[6] == 'n' && s[7] == 'o' {
        reveal_strlit("Booleano");
        assert(s =~= "Booleano"@);
        assert(tabla_palabras_clave()[62].0 == s);
    }
    if s.len() == 8 && s[0] == 'C' && s[1] == 'a' && s[2] == 'r' && s[3] == 'a' && s[4] == 'c' && s[5] == 't' && s[6] == 'e' && s[7] == 'r' {
        reveal_strlit("Caracter");
        assert(s =~= "Caracter"@);
        assert(tabla_palabras_clave()[63].0 == s);
    }
    if s.len() == 7 && s[0] == 'P' && s[1] == 'a' && s[2] == 'l' && s[3] == 'a' && s[4] == 'b' && s[5] == 'r' && s[6] == 'a' {
        reveal_strlit("Palabra");
        assert(s =~= "Palabra"@);
        assert(tabla_palabras_clave()[64].0 == s);
    }
    if s.len() == 5 && s[0] == 'T' && s[1] == 'e' && s[2] == 'x' && s[3] == 't' && s[4] == 'o' {
        reveal_strlit("Texto");
        assert(s =~= "Texto"@);
        assert(tabla_palabras_clave()[65].0 == s);
    }
    if s.len() == 9 && s[0] == 'R' && s[1] == 'e' && s[2] == 's' && s[3] == 'u' && s[4] == 'l' && s[5] == 't' && s[6] == 'a' && s[7] == 'd' && s[8] == 'o' {
        reveal_strlit("Resultado");
        assert(s =~= "Resultado"@);
        assert(tabla_palabras_clave()[66].0 == s);
    }
    if s.len() == 5 && s[0] == 'V' && s[1] == 'a' && s[2] == 'c' && s[3] == 'í' && s[4] == 'o' {
        reveal_strlit("Vacío");
        assert(s =~= "Vacío"@);
        assert(tabla_palabras_clave()[67].0 == s);
    }
    if s.len() == 9 && s[0] == 'v' && s[1] == 'e' && s[2] == 'r' && s[3] == 'd' && s[4] == 'a' && s[5] == 'd' && s[6] == 'e' && s[7] == 'r' && s[8] == 'o' {
        reveal_strlit("verdadero");
        assert(s =~= "verdadero"@);
        assert(tabla_palabras_clave()[68].0 == s);
    }
    if s.len() == 5 && s[0] == 'f' && s[1] == 'a' && s[2] == 'l' && s[3] == 's' && s[4] == 'o' {
        reveal_strlit("falso");
        assert(s =~= "falso"@);
        assert(tabla_palabras_clave()[69].0 == s);
    }
}

} // verus!
