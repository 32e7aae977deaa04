use vstd::prelude::*;

verus! {

/// Carácter del dígito decimal `d` (0..=9).
pub open spec fn digito(d: nat) -> char {
    if d == 0 { '0' }
    else if d == 1 { '1' }
    else if d == 2 { '2' }
    else if d == 3 { '3' }
    else if d == 4 { '4' }
    else if d == 5 { '5' }
    else if d == 6 { '6' }
    else if d == 7 { '7' }
    else if d == 8 { '8' }
    else { '9' }
}

/// Escritura decimal de un natural, sin ceros a la izquierda.
pub open spec fn decimal(n: nat) -> Seq<char>
    decreases n,
{
    if n < 10 {
        seq![digito(n)]
    } else {
        decimal(n / 10).push(digito(n % 10))
    }
}

/// `n` ceros.
pub open spec fn ceros(n: nat) -> Seq<char>
    decreases n,
{
    if n == 0 { Seq::empty() } else { ceros((n - 1) as nat).push('0') }
}

/// Escritura decimal de `n` rellenada con ceros hasta al menos `ancho` dígitos.
pub open spec fn decimal_relleno(n: nat, ancho: nat) -> Seq<char> {
    if decimal(n).len() < ancho {
        ceros((ancho - decimal(n).len()) as nat) + decimal(n)
    } else {
        decimal(n)
    }
}

pub proof fn lema_decimal_no_vacio(n: nat)
    ensures
        decimal(n).len() >= 1,
    decreases n,
{
    if n >= 10 {
        lema_decimal_no_vacio(n / 10);
    }
}

/// String::push: agrega un carácter al final del texto.
#[verifier::external_body]
pub(crate) fn agregar_caracter(s: &mut String, c: char)
    ensures
        final(s)@ == old(s)@.push(c),
{
    s.push(c);
}

fn caracter_digito(d: u64) -> (c: char)
    requires
        d < 10,
    ensures
        c == digito(d as nat),
{
    if d == 0 { '0' }
    else if d == 1 { '1' }
    else if d == 2 { '2' }
    else if d == 3 { '3' }
    else if d == 4 { '4' }
    else if d == 5 { '5' }
    else if d == 6 { '6' }
    else if d == 7 { '7' }
    else if d == 8 { '8' }
    else { '9' }
}

/// Agrega al texto la escritura decimal de `n`.
pub fn agregar_decimal(s: &mut String, n: u64)
    ensures
        final(s)@ == old(s)@ + decimal(n as nat),
    decreases n,
{
    if n < 10 {
        agregar_caracter(s, caracter_digito(n));
        assert(old(s)@.push(digito(n as nat)) =~= old(s)@ + decimal(n as nat));
    } else {
        agregar_decimal(s, n / 10);
        agregar_caracter(s, caracter_digito(n % 10));
        assert(old(s)@ + decimal((n / 10) as nat) + seq![digito((n % 10) as nat)] =~= old(s)@
            + decimal(n as nat));
    }
}

/// Agrega al texto la escritura decimal de `n` rellenada con ceros hasta `ancho` dígitos.
pub fn agregar_decimal_relleno(s: &mut String, n: u32, ancho: u32)
    ensures
        final(s)@ == old(s)@ + decimal_relleno(n as nat, ancho as nat),
{
    let mut d = String::new();
    agregar_decimal(&mut d, n as u64);
    let l = d.as_str().unicode_len();
    let ghost inicial = s@;
    if l < ancho as usize {
        let faltan = ancho as usize - l;
        let mut i: usize = 0;
        while i < faltan
            invariant
                i <= faltan,
                s@ == inicial + ceros(i as nat),
            decreases faltan - i,
        {
            agregar_caracter(s, '0');
            i = i + 1;
        }
    }
    s.append(d.as_str());
    assert(s@ =~= inicial + decimal_relleno(n as nat, ancho as nat));
}

/// Texto formado por los caracteres dados.
pub fn texto_de_caracteres(cs: &[char]) -> (r: String)
    ensures
        r@ == cs@,
{
    let mut r = String::new();
    let mut i: usize = 0;
    while i < cs.len()
        invariant
            i <= cs@.len(),
            r@ == cs@.subrange(0, i as int),
        decreases cs.len() - i,
    {
        agregar_caracter(&mut r, cs[i]);
        i = i + 1;
        assert(r@ =~= cs@.subrange(0, i as int));
    }
    assert(cs@.subrange(0, cs@.len() as int) =~= cs@);
    r
}

/// Texto a partir de un literal.
pub fn texto(s: &str) -> (r: String)
    ensures
        r@ == s@,
{
    String::from_str(s)
}

/// Primer carácter del texto, si lo tiene.
pub fn primer_caracter(s: &str) -> (r: Option<char>)
    ensures
        r == (if s@.len() > 0 {
            Some(s@[0])
        } else {
            None::<char>
        }),
{
    broadcast use vstd::string::group_string_axioms;

    let mut it = s.chars();
    it.next()
}

/// Nombre para lo que decide `char::is_uppercase`: si el carácter tiene la propiedad
/// Unicode `Uppercase`.
pub uninterp spec fn mayuscula(c: char) -> bool;

/// Llama a `char::is_uppercase`; su resultado depende solo del carácter.
#[verifier::external_body]
pub(crate) fn es_mayuscula(c: char) -> (r: bool)
    ensures
        r == mayuscula(c),
{
    c.is_uppercase()
}

/// ¿El texto es exactamente el literal dado?
pub fn es_texto(s: &String, lit: &str) -> (r: bool)
    ensures
        r == (s@ == lit@),
{
    let t = texto(lit);
    s.eq(&t)
}

/// Concatena un fragmento al final del texto.
pub fn agregar(s: &mut String, t: &str)
    ensures
        final(s)@ == old(s)@ + t@,
{
    s.append(t);
}

/// El carácter tiene la propiedad Unicode `White_Space` (la que consulta
/// `char::is_whitespace`): U+0009 a U+000D, U+0020, U+0085, U+00A0, U+1680, U+2000 a U+200A,
/// U+2028, U+2029, U+202F, U+205F y U+3000.
pub open spec fn espacio_blanco(c: char) -> bool {
    let v = c as u32;
    ||| 0x09 <= v <= 0x0D
    ||| v == 0x20
    ||| v == 0x85
    ||| v == 0xA0
    ||| v == 0x1680
    ||| 0x2000 <= v <= 0x200A
    ||| v == 0x2028
    ||| v == 0x2029
    ||| v == 0x202F
    ||| v == 0x205F
    ||| v == 0x3000
}

/// ¿Es el carácter un espacio en blanco de Unicode?
pub(crate) fn es_espacio(c: char) -> (r: bool)
    ensures
        r == espacio_blanco(c),
{
    let v = c as u32;
    (0x09 <= v && v <= 0x0D) || v == 0x20 || v == 0x85 || v == 0xA0 || v == 0x1680 || (0x2000
        <= v && v <= 0x200A) || v == 0x2028 || v == 0x2029 || v == 0x202F || v == 0x205F || v
        == 0x3000
}

/// Nombre para lo que decide `char::is_alphanumeric`: si el carácter tiene la propiedad
/// Unicode `Alphabetic` o la categoría general numérica.
pub uninterp spec fn alfanumerico(c: char) -> bool;

/// Llama a `char::is_alphanumeric`; su resultado depende solo del carácter.
#[verifier::external_body]
pub(crate) fn es_alfanumerico(c: char) -> (r: bool)
    ensures
        r == alfanumerico(c),
{
    c.is_alphanumeric()
}

} // verus!
