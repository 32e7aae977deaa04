use vstd::prelude::*;
use crate::ast::{Articulo, Tipo};
use crate::lexer::{Token, TokenConSpan};
use crate::texto::{texto, es_texto};
use crate::parser::{ParserCursor, token_de};
use crate::parser::errores::ErrorSintaxis;

verus! {

/// Artículo que escribe el token, si es uno.
pub open spec fn articulo_de(t: Token) -> Option<Articulo> {
    match t {
        Token::ArticuloEl => Some(Articulo::El),
        Token::ArticuloLa => Some(Articulo::La),
        Token::ArticuloUn => Some(Articulo::Un),
        Token::ArticuloLos => Some(Articulo::Los),
        Token::ArticuloLas => Some(Articulo::Las),
        _ => None,
    }
}

/// Tipo primitivo que nombra el token por sí solo, si es uno.
pub open spec fn tipo_simple(t: Token) -> Option<Tipo> {
    match t {
        Token::Entero8 => Some(Tipo::Entero8),
        Token::Entero16 => Some(Tipo::Entero16),
        Token::Entero32 => Some(Tipo::Entero32),
        Token::Entero64 => Some(Tipo::Entero64),
        Token::Natural8 => Some(Tipo::Natural8),
        Token::Natural16 => Some(Tipo::Natural16),
        Token::Natural32 => Some(Tipo::Natural32),
        Token::Natural64 => Some(Tipo::Natural64),
        Token::Flotante32 => Some(Tipo::Flotante32),
        Token::Flotante64 => Some(Tipo::Flotante64),
        Token::Booleano => Some(Tipo::Booleano),
        Token::Caracter => Some(Tipo::Caracter),
        Token::Palabra => Some(Tipo::Palabra),
        Token::Texto => Some(Tipo::Texto),
        Token::Vacio => Some(Tipo::Vacio),
        _ => None,
    }
}

/// Tokens con los que puede empezar un tipo.
pub open spec fn inicia_tipo(t: Token) -> bool {
    ||| tipo_simple(t) is Some
    ||| t is Ampersand
    ||| t is Resultado
    ||| t is Identificador
    ||| t is CorcheteAbre
}

/// Tokens que, tras `&nombre` o `&mut nombre`, hacen de `nombre` un lifetime léxico.
pub open spec fn sigue_tipo_tras_lifetime(t: Token) -> bool {
    ||| t is Identificador
    ||| t is Entero8
    ||| t is Entero16
    ||| t is Entero32
    ||| t is Entero64
    ||| t is Texto
    ||| t is Booleano
    ||| t is Ampersand
}

/// El nombre está entre los parámetros genéricos de tipo activos.
pub open spec fn es_generico_activo(gens: Seq<String>, n: Seq<char>) -> bool {
    exists|k: int| 0 <= k < gens.len() && (#[trigger] gens[k])@ == n
}

/// `r` es el error «esperaba un tipo» en el token actual de `antes`, sin avanzar.
pub open spec fn error_de_tipo(
    antes: &ParserCursor,
    despues: &ParserCursor,
    r: Result<Tipo, ErrorSintaxis>,
) -> bool {
    r matches Err(e) && despues.pos() == antes.pos() && antes.span_actual_es(e.error.span) && e.es(
        6,
        e.error.span,
        "esperaba un tipo"@,
    ) && e.sugiere(
        "los tipos válidos son: Entero8-64, Natural8-64, Flotante32/64, Booleano, Caracter, Palabra, Texto, Vector<T>, Vacío"@,
    )
}

/// El token en la posición `k` de `ts` es `t` (comparando con `Token::igual`).
pub open spec fn hay_token(ts: Seq<TokenConSpan>, k: int, t: Token) -> bool {
    token_de(ts, k) matches Some(a) && a.igual(t)
}

/// El identificador en `k` es un lifetime léxico: lo sigue un token que empieza otro tipo.
pub open spec fn lifetime_en(ts: Seq<TokenConSpan>, k: int) -> bool {
    &&& token_de(ts, k) matches Some(Token::Identificador(_))
    &&& token_de(ts, k + 1) matches Some(s) && sigue_tipo_tras_lifetime(s)
}

/// Tokens que ocupa el prefijo de una referencia que empieza en el `&` de `i`: `&`, `&mut`,
/// `&self`, `&mut self`, `&nombre` o `&mut nombre` (con `nombre` un lifetime).
pub open spec fn prefijo_referencia(ts: Seq<TokenConSpan>, i: int) -> int {
    if hay_token(ts, i + 1, Token::Mut) {
        if hay_token(ts, i + 2, Token::SelfKw) || lifetime_en(ts, i + 2) {
            3
        } else {
            2
        }
    } else if hay_token(ts, i + 1, Token::SelfKw) || lifetime_en(ts, i + 1) {
        2
    } else {
        1
    }
}

/// Sintaxis de los tipos: dónde termina (posición siguiente al último token) el tipo que
/// empieza en `i`; `None` si ahí los tokens no forman un tipo.
pub open spec fn fin_tipo(ts: Seq<TokenConSpan>, i: int) -> Option<int>
    decreases ts.len() - i, 0nat,
{
    if i < 0 || i >= ts.len() {
        None
    } else if tipo_simple(ts[i].token) is Some {
        Some(i + 1)
    } else {
        match ts[i].token {
            Token::Ampersand => fin_tipo(ts, i + prefijo_referencia(ts, i)),
            Token::Resultado => if hay_token(ts, i + 1, Token::MenorQue) {
                match fin_tipo(ts, i + 2) {
                    Some(k) => if i < k && hay_token(ts, k, Token::Coma) {
                        match fin_tipo(ts, k + 1) {
                            Some(e) => if hay_token(ts, e, Token::MayorQue) {
                                Some(e + 1)
                            } else {
                                None
                            },
                            None => None,
                        }
                    } else {
                        None
                    },
                    None => None,
                }
            } else {
                None
            },
            Token::Identificador(_) => if !hay_token(ts, i + 1, Token::MenorQue) {
                Some(i + 1)
            } else {
                match fin_lista_tipos(ts, i + 2) {
                    Some(e) => if hay_token(ts, e, Token::MayorQue) {
                        Some(e + 1)
                    } else {
                        None
                    },
                    None => None,
                }
            },
            Token::CorcheteAbre => match fin_tipo(ts, i + 1) {
                Some(k) => if hay_token(ts, k, Token::PuntoYComa) && (token_de(ts, k + 1) matches Some(
                    Token::EnteroLiteral(Some(_)),
                ) || token_de(ts, k + 1) matches Some(Token::Identificador(_))) && hay_token(
                    ts,
                    k + 2,
                    Token::CorcheteCierra,
                ) {
                    Some(k + 3)
                } else {
                    None
                },
                None => None,
            },
            _ => None,
        }
    }
}

/// Sintaxis de una lista de argumentos de tipo separados por comas (admite una coma final):
/// la posición del `>` que la cierra o el final de los tokens, donde termina la lista que
/// empieza en `i`; `None` si ahí no hay tal lista.
pub open spec fn fin_lista_tipos(ts: Seq<TokenConSpan>, i: int) -> Option<int>
    decreases ts.len() - i, 1nat,
{
    if i < 0 || i > ts.len() {
        None
    } else if i == ts.len() || hay_token(ts, i, Token::MayorQue) {
        Some(i)
    } else {
        match fin_tipo(ts, i) {
            Some(k) => if i < k && hay_token(ts, k, Token::Coma) {
                fin_lista_tipos(ts, k + 1)
            } else if i < k {
                Some(k)
            } else {
                None
            },
            None => None,
        }
    }
}

/// El tipo que se lee en `ts` desde `i` es `t` (`gens`: parámetros genéricos de tipo activos).
pub open spec fn forma_tipo(ts: Seq<TokenConSpan>, gens: Seq<String>, i: int, t: Tipo) -> bool
    decreases ts.len() - i, 0nat,
{
    if i < 0 || i >= ts.len() {
        false
    } else if tipo_simple(ts[i].token) is Some {
        t == tipo_simple(ts[i].token)->0
    } else {
        match ts[i].token {
            Token::Ampersand => {
                let d = prefijo_referencia(ts, i);
                &&& forma_tipo(ts, gens, i + d, tipo_referido(t))
                &&& if hay_token(ts, i + 1, Token::Mut) {
                    if hay_token(ts, i + 2, Token::SelfKw) {
                        t is ReferenciaMutSelf
                    } else if lifetime_en(ts, i + 2) {
                        t matches Tipo::ReferenciaMutConLifetime(n, _) && ts[i + 2].token
                            == Token::Identificador(n)
                    } else {
                        t is ReferenciaMut
                    }
                } else if hay_token(ts, i + 1, Token::SelfKw) {
                    t is ReferenciaSelf
                } else if lifetime_en(ts, i + 1) {
                    t matches Tipo::ReferenciaConLifetime(n, _) && ts[i + 1].token
                        == Token::Identificador(n)
                } else {
                    t is Referencia
                }
            },
            Token::Resultado => match fin_tipo(ts, i + 2) {
                Some(k) => {
                    &&& i < k < ts.len()
                    &&& t matches Tipo::Resultado(te, ee) && forma_tipo(ts, gens, i + 2, *te)
                        && forma_tipo(ts, gens, k + 1, *ee)
                },
                None => false,
            },
            Token::Identificador(n) => if !hay_token(ts, i + 1, Token::MenorQue) {
                if es_generico_activo(gens, n@) {
                    t == Tipo::Generico(n)
                } else {
                    t == Tipo::Nombre(n)
                }
            } else if es_generico_activo(gens, n@) {
                t matches Tipo::NombreGenerico(m, w) && m == n && forma_lista_tipos(ts, gens, i + 2, w@)
            } else if n@ == "Vector"@ {
                ||| t matches Tipo::Vector(b) && forma_lista_tipos(ts, gens, i + 2, seq![*b])
                ||| t matches Tipo::NombreGenerico(m, w) && m == n && w@.len() != 1
                    && forma_lista_tipos(ts, gens, i + 2, w@)
            } else {
                t matches Tipo::NombreGenerico(m, w) && m == n && forma_lista_tipos(ts, gens, i + 2, w@)
            },
            Token::CorcheteAbre => match fin_tipo(ts, i + 1) {
                Some(k) => {
                    &&& forma_tipo(ts, gens, i + 1, tipo_elemento(t))
                    &&& match (t, token_de(ts, k + 1)) {
                        (Tipo::Array(_, n), Some(Token::EnteroLiteral(Some(x)))) => n
                            == #[verifier::truncate] (x as usize),
                        (Tipo::ArrayGenerico(_, m), Some(Token::Identificador(x))) => m == x,
                        _ => false,
                    }
                },
                None => false,
            },
            _ => false,
        }
    }
}

/// Los argumentos de tipo que se leen en `ts` desde `i` son `v`.
pub open spec fn forma_lista_tipos(ts: Seq<TokenConSpan>, gens: Seq<String>, i: int, v: Seq<Tipo>) -> bool
    decreases ts.len() - i, 1nat,
{
    if i < 0 || i > ts.len() {
        false
    } else if i == ts.len() || hay_token(ts, i, Token::MayorQue) {
        v.len() == 0
    } else {
        match fin_tipo(ts, i) {
            Some(k) => {
                &&& i < k
                &&& v.len() > 0
                &&& forma_tipo(ts, gens, i, v[0])
                &&& if hay_token(ts, k, Token::Coma) {
                    forma_lista_tipos(ts, gens, k + 1, v.drop_first())
                } else {
                    v.len() == 1
                }
            },
            None => false,
        }
    }
}

/// Tipo de los elementos de un array (fijo o de tamaño genérico).
pub open spec fn tipo_elemento(t: Tipo) -> Tipo {
    match t {
        Tipo::Array(e, _) => *e,
        Tipo::ArrayGenerico(e, _) => *e,
        _ => t,
    }
}

/// Tipo interior de una referencia.
pub open spec fn tipo_referido(t: Tipo) -> Tipo {
    match t {
        Tipo::Referencia(s) => *s,
        Tipo::ReferenciaMut(s) => *s,
        Tipo::ReferenciaSelf(s) => *s,
        Tipo::ReferenciaMutSelf(s) => *s,
        Tipo::ReferenciaConLifetime(_, s) => *s,
        Tipo::ReferenciaMutConLifetime(_, s) => *s,
        _ => t,
    }
}

/// Parsea un artículo: el, la, un, los, las
pub fn parse_articulo(cursor: &mut ParserCursor) -> (r: Result<Articulo, ErrorSintaxis>)
    requires
        old(cursor).valido(),
    ensures
        final(cursor).valido(),
        final(cursor).toks() == old(cursor).toks(),
        final(cursor).gens() == old(cursor).gens(),
        match old(cursor).actual_spec() {
            Some(t) if articulo_de(t) is Some => r == Ok::<Articulo, ErrorSintaxis>(
                articulo_de(t)->0,
            ) && final(cursor).pos() == old(cursor).pos() + 1,
            _ => r matches Err(e) && final(cursor).pos() == old(cursor).pos() && old(cursor).span_actual_es(e.error.span) && e.es(
                7,
                e.error.span,
                "esperaba artículo (el, la, un, los, las)"@,
            ) && e.sugiere("recuerda: 'el'=mutable, 'la'=inmutable, 'un'=opcional"@),
        },
{
    let a = match cursor.actual() {
        Some(Token::ArticuloEl) => Some(Articulo::El),
        Some(Token::ArticuloLa) => Some(Articulo::La),
        Some(Token::ArticuloUn) => Some(Articulo::Un),
        Some(Token::ArticuloLos) => Some(Articulo::Los),
        Some(Token::ArticuloLas) => Some(Articulo::Las),
        _ => None,
    };
    match a {
        Some(a) => {
            cursor.avanzar();
            Ok(a)
        },
        None => {
            let span = cursor.span_actual();
            Err(ErrorSintaxis::articulo_esperado(span))
        },
    }
}

/// `despues` y `r` son el resultado de leer un tipo desde `antes`: éxito exactamente cuando
/// los tokens forman ahí un tipo, que es el devuelto, y el cursor queda tras él.
pub open spec fn tipo_parseado(
    antes: &ParserCursor,
    despues: &ParserCursor,
    r: Result<Tipo, ErrorSintaxis>,
) -> bool {
    &&& despues.valido()
    &&& despues.toks() == antes.toks()
    &&& despues.gens() == antes.gens()
    &&& antes.pos() <= despues.pos()
    &&& r is Ok ==> antes.pos() < despues.pos()
    &&& r is Ok <==> fin_tipo(antes.toks(), antes.pos()) is Some
    &&& r matches Ok(t) ==> fin_tipo(antes.toks(), antes.pos()) == Some(despues.pos()) && forma_tipo(
        antes.toks(),
        antes.gens(),
        antes.pos(),
        t,
    )
}

/// Parsea los argumentos de un tipo genérico, separados por comas, hasta el `>` que los
/// cierra (sin consumirlo) o el final de los tokens.
pub(crate) fn parse_lista_tipos(cursor: &mut ParserCursor) -> (r: Result<Vec<Tipo>, ErrorSintaxis>)
    requires
        old(cursor).valido(),
    ensures
        final(cursor).valido(),
        final(cursor).toks() == old(cursor).toks(),
        final(cursor).gens() == old(cursor).gens(),
        old(cursor).pos() <= final(cursor).pos(),
        r is Ok <==> fin_lista_tipos(old(cursor).toks(), old(cursor).pos()) is Some,
        r matches Ok(v) ==> fin_lista_tipos(old(cursor).toks(), old(cursor).pos()) == Some(
            final(cursor).pos(),
        ) && forma_lista_tipos(old(cursor).toks(), old(cursor).gens(), old(cursor).pos(), v@),
    decreases old(cursor).restantes(), 3nat,
{
    if cursor.es_actual(&Token::MayorQue) || cursor.esta_vacio() {
        return Ok(Vec::new());
    }
    let primero = parse_tipo(cursor)?;
    let mut resto = if cursor.es_actual(&Token::Coma) {
        cursor.avanzar();
        parse_lista_tipos(cursor)?
    } else {
        Vec::new()
    };
    let ghost previo = resto@;
    resto.insert(0, primero);
    assert(resto@.drop_first() =~= previo);
    Ok(resto)
}

/// Parsea una referencia: `&T`, `&mut T`, `&self T`, `&mut self T`, `&nombre T` o
/// `&mut nombre T` (con `nombre` un lifetime léxico cuando lo sigue otro tipo).
fn parse_referencia(cursor: &mut ParserCursor) -> (r: Result<Tipo, ErrorSintaxis>)
    requires
        old(cursor).valido(),
        old(cursor).actual_spec() == Some(Token::Ampersand),
    ensures
        tipo_parseado(old(cursor), final(cursor), r),
    decreases old(cursor).restantes(), 1nat,
{
    cursor.avanzar();  // &
    if cursor.es_actual(&Token::Mut) {
        cursor.avanzar();  // mut
        if cursor.es_actual(&Token::SelfKw) {
            cursor.avanzar();  // self
            let tipo = parse_tipo(cursor)?;
            return Ok(Tipo::ReferenciaMutSelf(Box::new(tipo)));
        }
        if let Some(Token::Identificador(nombre)) = cursor.actual() {
            let nombre = nombre.clone();
            if es_lifetime(cursor) {
                cursor.avanzar();  // nombre (lifetime)
                let tipo = parse_tipo(cursor)?;
                return Ok(Tipo::ReferenciaMutConLifetime(nombre, Box::new(tipo)));
            }
        }
        let tipo = parse_tipo(cursor)?;
        Ok(Tipo::ReferenciaMut(Box::new(tipo)))
    } else {
        if cursor.es_actual(&Token::SelfKw) {
            cursor.avanzar();  // self
            let tipo = parse_tipo(cursor)?;
            return Ok(Tipo::ReferenciaSelf(Box::new(tipo)));
        }
        if let Some(Token::Identificador(nombre)) = cursor.actual() {
            let nombre = nombre.clone();
            if es_lifetime(cursor) {
                cursor.avanzar();  // nombre (lifetime)
                let tipo = parse_tipo(cursor)?;
                return Ok(Tipo::ReferenciaConLifetime(nombre, Box::new(tipo)));
            }
        }
        let tipo = parse_tipo(cursor)?;
        Ok(Tipo::Referencia(Box::new(tipo)))
    }
}

/// Tras `&` o `&mut`, ¿el token siguiente al actual empieza otro tipo, de modo que el
/// identificador actual es un lifetime?
fn es_lifetime(cursor: &ParserCursor) -> (r: bool)
    ensures
        r == (cursor.siguiente_spec(1) matches Some(s) && sigue_tipo_tras_lifetime(s)),
{
    match cursor.peek(1) {
        Some(Token::Identificador(_)) | Some(Token::Entero8) | Some(Token::Entero16) | Some(
            Token::Entero32,
        ) | Some(Token::Entero64) | Some(Token::Texto) | Some(Token::Booleano) | Some(
            Token::Ampersand,
        ) => true,
        _ => false,
    }
}

/// Parsea `Resultado<T, E>`.
fn parse_resultado(cursor: &mut ParserCursor) -> (r: Result<Tipo, ErrorSintaxis>)
    requires
        old(cursor).valido(),
        old(cursor).actual_spec() == Some(Token::Resultado),
    ensures
        tipo_parseado(old(cursor), final(cursor), r),
    decreases old(cursor).restantes(), 1nat,
{
    cursor.avanzar();
    cursor.esperar(Token::MenorQue)?;
    let tipo_exito = parse_tipo(cursor)?;
    cursor.esperar(Token::Coma)?;
    let tipo_error = parse_tipo(cursor)?;
    cursor.esperar(Token::MayorQue)?;
    Ok(Tipo::Resultado(Box::new(tipo_exito), Box::new(tipo_error)))
}

/// Parsea un tipo nombrado: un parámetro genérico activo, un nombre de tipo o un tipo
/// genérico instanciado `Nombre<T1, T2>` (`Vector<T>` da el tipo vector).
fn parse_nombrado(cursor: &mut ParserCursor) -> (r: Result<Tipo, ErrorSintaxis>)
    requires
        old(cursor).valido(),
        old(cursor).actual_spec() matches Some(Token::Identificador(_)),
    ensures
        tipo_parseado(old(cursor), final(cursor), r),
    decreases old(cursor).restantes(), 1nat,
{
    let nombre = match cursor.actual() {
        Some(Token::Identificador(n)) => n.clone(),
        _ => {
            return Err(ErrorSintaxis::tipo_esperado(cursor.span_actual()));
        },
    };
    cursor.avanzar();
    let es_generico = cursor.es_generico(&nombre);
    if !cursor.es_actual(&Token::MenorQue) {
        if es_generico {
            return Ok(Tipo::Generico(nombre));
        } else {
            return Ok(Tipo::Nombre(nombre));
        }
    }
    // Tipo genérico instanciado: Nombre<Tipo1, Tipo2>
    cursor.avanzar();  // <
    let mut argumentos = parse_lista_tipos(cursor)?;
    cursor.esperar(Token::MayorQue)?;
    if es_generico {
        return Ok(Tipo::NombreGenerico(nombre, argumentos));
    }
    if es_texto(&nombre, "Vector") && argumentos.len() == 1 {
        let ghost previo = argumentos@;
        let unico = argumentos.remove(0);
        assert(previo =~= seq![unico]);
        return Ok(Tipo::Vector(Box::new(unico)));
    }
    Ok(Tipo::NombreGenerico(nombre, argumentos))
}

/// Parsea un array `[T; N]`, con `N` un literal entero o un parámetro genérico const.
fn parse_array(cursor: &mut ParserCursor) -> (r: Result<Tipo, ErrorSintaxis>)
    requires
        old(cursor).valido(),
        old(cursor).actual_spec() == Some(Token::CorcheteAbre),
    ensures
        tipo_parseado(old(cursor), final(cursor), r),
    decreases old(cursor).restantes(), 1nat,
{
    cursor.avanzar();  // [
    let tipo = parse_tipo(cursor)?;
    cursor.esperar(Token::PuntoYComa)?;
    match cursor.actual() {
        Some(Token::EnteroLiteral(Some(n))) => {
            let n = *n as usize;
            cursor.avanzar();
            cursor.esperar(Token::CorcheteCierra)?;
            Ok(Tipo::Array(Box::new(tipo), n))
        },
        Some(Token::Identificador(n)) => {
            // Parámetro genérico const en tamaño de array (ej: [Entero32; N])
            let nombre = n.clone();
            cursor.avanzar();
            cursor.esperar(Token::CorcheteCierra)?;
            Ok(Tipo::ArrayGenerico(Box::new(tipo), nombre))
        },
        _ => {
            let span = cursor.span_actual();
            Err(ErrorSintaxis::nuevo(14, span, texto("esperaba longitud del array")))
        },
    }
}

/// Parsea un tipo primitivo, una referencia, `Resultado<T, E>`, un array o un tipo nombrado
/// (con argumentos genéricos opcionales).
pub fn parse_tipo(cursor: &mut ParserCursor) -> (r: Result<Tipo, ErrorSintaxis>)
    requires
        old(cursor).valido(),
    ensures
        tipo_parseado(old(cursor), final(cursor), r),
        match old(cursor).actual_spec() {
            Some(t) => !inicia_tipo(t) ==> error_de_tipo(old(cursor), final(cursor), r),
            None => error_de_tipo(old(cursor), final(cursor), r),
        },
    decreases old(cursor).restantes(), 2nat,
{
    let span = cursor.span_actual();
    let simple = match cursor.actual() {
        Some(Token::Entero8) => Some(Tipo::Entero8),
        Some(Token::Entero16) => Some(Tipo::Entero16),
        Some(Token::Entero32) => Some(Tipo::Entero32),
        Some(Token::Entero64) => Some(Tipo::Entero64),
        Some(Token::Natural8) => Some(Tipo::Natural8),
        Some(Token::Natural16) => Some(Tipo::Natural16),
        Some(Token::Natural32) => Some(Tipo::Natural32),
        Some(Token::Natural64) => Some(Tipo::Natural64),
        Some(Token::Flotante32) => Some(Tipo::Flotante32),
        Some(Token::Flotante64) => Some(Tipo::Flotante64),
        Some(Token::Booleano) => Some(Tipo::Booleano),
        Some(Token::Caracter) => Some(Tipo::Caracter),
        Some(Token::Palabra) => Some(Tipo::Palabra),
        Some(Token::Texto) => Some(Tipo::Texto),
        Some(Token::Vacio) => Some(Tipo::Vacio),
        _ => None,
    };
    if let Some(t) = simple {
        cursor.avanzar();
        return Ok(t);
    }
    match cursor.actual() {
        Some(Token::Ampersand) => parse_referencia(cursor),
        Some(Token::Resultado) => parse_resultado(cursor),
        Some(Token::Identificador(_)) => parse_nombrado(cursor),
        Some(Token::CorcheteAbre) => parse_array(cursor),
        _ => Err(ErrorSintaxis::tipo_esperado(span)),
    }
}

} // verus!
