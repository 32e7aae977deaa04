use vstd::prelude::*;
use crate::ast::{BrazoMatch, Expresion, Literal, Llamada, OperadorBinario, OperadorUnario, PatronMatch, Tipo};
use crate::lexer::{Token, TokenConSpan};
use crate::span::Span;
use crate::texto::{texto, agregar, es_texto, primer_caracter, es_mayuscula};
use crate::parser::{ParserCursor, avance, conserva, token_de};
use crate::parser::errores::ErrorSintaxis;
use crate::parser::tipos::{parse_tipo, parse_lista_tipos, forma_tipo, forma_lista_tipos};
use crate::parser::sintaxis::{
    lee, fin_expresion, fin_precedencia, fin_operadores, fin_postfijo, fin_args_metodo, fin_atomo,
    fin_closure, fin_params_closure, fin_elementos, fin_lista_args, fin_args_llamada,
    fin_lista_constructor, fin_args_constructor, fin_args_tipo, fin_identificador, fin_patron,
    fin_coincidir, fin_brazos, hay_identificador, fin_tras_nombre, fin_variante_patron,
};
use crate::parser::tipos::hay_token;
use crate::parser::arbol::{
    expr_arbol, prec_arbol, binop_arbol, derecha_arbol, postfijos_arbol, lista_arbol, atomo_arbol,
    pasos_postfijos, pasos_operadores, inicios_args_metodo, inicios_lista_args,
    inicios_lista_constructor, inicios_elementos, PasoPostfijo, lema_fin_actual,
    lema_lista_desde, lema_paso_indice, lema_paso_campo, lema_paso_metodo, lema_paso_propagacion,
    lema_postfijos_base, lema_binop_base, lema_binop_paso, lema_derecha, lema_prec, lema_expr_simple,
    lema_expr_rango, lema_atomo, atomo_caso, brazos_pos, coincidir_arbol, patron_arbol,
    closure_arbol, params_closure, identificador_arbol, llamada_arbol,
};
use crate::parser::declaraciones::nombre_en;
use crate::parser::arbol::{span_union, span_hasta};
use crate::parser::sentencias::parse_bloque;

verus! {

/// Operador binario que escribe el token y su precedencia (mayor número, mayor precedencia):
/// 1 `||`, 2 `&&`, 3 `|`, 4 `^`, 5 `&`, 6 `==` `!=`, 7 `<` `>` `<=` `>=`,
/// 8 `<<` `>>` `>>>`, 9 `+` `-`, 10 `*` `/` `%`.
pub open spec fn operador_de(t: Token) -> Option<(OperadorBinario, u8)> {
    match t {
        Token::OLogico => Some((OperadorBinario::O, 1)),
        Token::YLogico => Some((OperadorBinario::Y, 2)),
        Token::Pipe => Some((OperadorBinario::BitOr, 3)),
        Token::Caret => Some((OperadorBinario::BitXor, 4)),
        Token::Ampersand => Some((OperadorBinario::BitAnd, 5)),
        Token::IgualIgual => Some((OperadorBinario::Igual, 6)),
        Token::Distinto => Some((OperadorBinario::Distinto, 6)),
        Token::MenorQue => Some((OperadorBinario::Menor, 7)),
        Token::MayorQue => Some((OperadorBinario::Mayor, 7)),
        Token::MenorIgual => Some((OperadorBinario::MenorIgual, 7)),
        Token::MayorIgual => Some((OperadorBinario::MayorIgual, 7)),
        Token::DobleMenor => Some((OperadorBinario::ShiftLeft, 8)),
        Token::DobleMayor => Some((OperadorBinario::ShiftRight, 8)),
        Token::TripleMayor => Some((OperadorBinario::ShiftRightLogico, 8)),
        Token::Mas => Some((OperadorBinario::Suma, 9)),
        Token::Menos => Some((OperadorBinario::Resta, 9)),
        Token::Asterisco => Some((OperadorBinario::Multiplicacion, 10)),
        Token::Barra => Some((OperadorBinario::Division, 10)),
        Token::Porcentaje => Some((OperadorBinario::Modulo, 10)),
        _ => None,
    }
}

/// Operador binario del token actual y su precedencia, si lo es.
fn operador_binario(cursor: &ParserCursor) -> (r: Option<(OperadorBinario, u8)>)
    ensures
        r == (match cursor.actual_spec() {
            Some(t) => operador_de(t),
            None => None,
        }),
{
    match cursor.actual() {
        Some(Token::OLogico) => Some((OperadorBinario::O, 1)),
        Some(Token::YLogico) => Some((OperadorBinario::Y, 2)),
        Some(Token::Pipe) => Some((OperadorBinario::BitOr, 3)),
        Some(Token::Caret) => Some((OperadorBinario::BitXor, 4)),
        Some(Token::Ampersand) => Some((OperadorBinario::BitAnd, 5)),
        Some(Token::IgualIgual) => Some((OperadorBinario::Igual, 6)),
        Some(Token::Distinto) => Some((OperadorBinario::Distinto, 6)),
        Some(Token::MenorQue) => Some((OperadorBinario::Menor, 7)),
        Some(Token::MayorQue) => Some((OperadorBinario::Mayor, 7)),
        Some(Token::MenorIgual) => Some((OperadorBinario::MenorIgual, 7)),
        Some(Token::MayorIgual) => Some((OperadorBinario::MayorIgual, 7)),
        Some(Token::DobleMenor) => Some((OperadorBinario::ShiftLeft, 8)),
        Some(Token::DobleMayor) => Some((OperadorBinario::ShiftRight, 8)),
        Some(Token::TripleMayor) => Some((OperadorBinario::ShiftRightLogico, 8)),
        Some(Token::Mas) => Some((OperadorBinario::Suma, 9)),
        Some(Token::Menos) => Some((OperadorBinario::Resta, 9)),
        Some(Token::Asterisco) => Some((OperadorBinario::Multiplicacion, 10)),
        Some(Token::Barra) => Some((OperadorBinario::Division, 10)),
        Some(Token::Porcentaje) => Some((OperadorBinario::Modulo, 10)),
        _ => None,
    }
}

/// Literal que escribe un token de número entero, carácter o booleano, con su span.
pub open spec fn literal_de(t: Option<Token>, sp: Span) -> Option<Literal> {
    match t {
        Some(Token::EnteroLiteral(Some(n))) => Some(Literal::Entero(n, sp)),
        Some(Token::CaracterLiteral(Some(c))) => Some(Literal::Caracter(c, sp)),
        Some(Token::Verdadero) => Some(Literal::Booleano(true, sp)),
        Some(Token::Falso) => Some(Literal::Booleano(false, sp)),
        _ => None,
    }
}

/// Tras el token actual no sigue nada que prolongue una expresión: ni postfijo (`[`, `.`,
/// `?`), ni operador binario, ni rango.
pub open spec fn nada_continua(c: &ParserCursor) -> bool {
    &&& !c.siguiente_es(1, Token::CorcheteAbre)
    &&& !c.siguiente_es(1, Token::Punto)
    &&& !c.siguiente_es(1, Token::Interrogacion)
    &&& !c.siguiente_es(1, Token::DoblePunto)
    &&& !c.siguiente_es(1, Token::PuntoPuntoIgual)
    &&& match c.siguiente_spec(1) {
        Some(t) => operador_de(t) is None,
        None => true,
    }
}

/// El token actual es un literal y tras él no sigue nada que prolongue la expresión.
pub open spec fn literal_suelto(c: &ParserCursor) -> bool {
    literal_de(c.actual_spec(), c.toks()[c.pos()].span) is Some && nada_continua(c)
}

/// Con un literal suelto el resultado es ese literal y se consume solo su token; si el
/// token actual no puede empezar una expresión, el error de expresión esperada.
pub open spec fn inicio_de_expresion(antes: &ParserCursor, despues: &ParserCursor, r: Result<Expresion, ErrorSintaxis>) -> bool {
    &&& match literal_de(antes.actual_spec(), antes.toks()[antes.pos()].span) {
        Some(lit) => nada_continua(antes) ==> literal_en(antes, despues, r, lit),
        None => true,
    }
    &&& match antes.actual_spec() {
        Some(t) => !inicia_atomo(t) ==> error_de_expresion(antes, despues, r),
        None => error_de_expresion(antes, despues, r),
    }
}

/// Parsea una expresión completa: operadores con precedencia y, con la precedencia más
/// baja, rangos `a..b` y `a..=b`. Consume todos los operadores binarios que siguen.
pub fn parse_expresion(cursor: &mut ParserCursor) -> (r: Result<Expresion, ErrorSintaxis>)
    requires
        old(cursor).valido(),
    ensures
        avance(old(cursor), final(cursor), r),
        inicio_de_expresion(old(cursor), final(cursor), r),
        r is Ok ==> match final(cursor).actual_spec() {
            Some(t) => operador_de(t) is None,
            None => true,
        },
        lee(old(cursor), final(cursor), r, fin_expresion(old(cursor).toks(), old(cursor).pos())),
        r matches Ok(e) ==> expr_arbol(old(cursor).toks(), old(cursor).gens(), old(cursor).pos(), e),
    decreases old(cursor).restantes(), 7nat,
{
    let ghost ts = cursor.toks();
    let ghost gens = cursor.gens();
    let ghost i0 = cursor.pos();
    let izquierda = parse_expresion_precedencia(cursor, 0)?;
    let ghost p = cursor.pos();
    if cursor.es_actual(&Token::DoblePunto) || cursor.es_actual(&Token::PuntoPuntoIgual) {
        let inclusivo = cursor.es_actual(&Token::PuntoPuntoIgual);
        let span_inicio = izquierda.span().copia();
        cursor.avanzar();
        let derecha = parse_expresion_precedencia(cursor, 0)?;
        let span = Span::combinar(&span_inicio, derecha.span());
        proof {
            lema_expr_rango(ts, gens, i0, p, izquierda, derecha, inclusivo);
        }
        Ok(Expresion::Rango(Box::new(izquierda), Box::new(derecha), inclusivo, span))
    } else {
        proof {
            lema_expr_simple(ts, gens, i0, p, izquierda);
        }
        Ok(izquierda)
    }
}

/// Parser de expresiones con precedencia (Pratt): solo combina operadores de precedencia
/// `min_precedencia` o mayor; asocia a la izquierda.
fn parse_expresion_precedencia(cursor: &mut ParserCursor, min_precedencia: u8) -> (r: Result<
    Expresion,
    ErrorSintaxis,
>)
    requires
        old(cursor).valido(),
    ensures
        avance(old(cursor), final(cursor), r),
        r is Ok ==> match final(cursor).actual_spec() {
            Some(t) => operador_de(t) matches Some(o) ==> o.1 < min_precedencia,
            None => true,
        },
        inicio_de_expresion(old(cursor), final(cursor), r),
        lee(old(cursor), final(cursor), r, fin_precedencia(old(cursor).toks(), old(cursor).pos(), min_precedencia)),
        r matches Ok(e) ==> prec_arbol(old(cursor).toks(), old(cursor).gens(), old(cursor).pos(), min_precedencia, e),
    decreases old(cursor).restantes(), 6nat,
{
    let ghost ts = cursor.toks();
    let ghost gens = cursor.gens();
    let ghost i0 = cursor.pos();
    let atomo = parse_atom(cursor)?;
    let ghost a = cursor.pos();
    proof {
        lema_postfijos_base(ts, gens, i0, 0, false, atomo);
    }
    let mut izquierda = parse_postfix(cursor, atomo, Ghost(i0), Ghost(0u8), Ghost(false))?;
    let ghost p0 = cursor.pos();
    let ghost mut ops: Seq<(OperadorBinario, u8, int)> = Seq::empty();
    proof {
        lema_binop_base(ts, gens, i0, a, izquierda);
    }
    assert(pasos_operadores(ts, p0, min_precedencia) =~= ops + pasos_operadores(ts, p0, min_precedencia));
    assert(fin_precedencia(old(cursor).toks(), old(cursor).pos(), min_precedencia) == fin_operadores(cursor.toks(), p0, min_precedencia));
    let ghost iz0 = izquierda;
    loop
        invariant
            conserva(old(cursor), cursor),
            old(cursor).pos() < cursor.pos(),
            p0 <= cursor.pos(),
            cursor.pos() == p0 ==> izquierda == iz0,
            literal_suelto(old(cursor)) ==> cursor.pos() == p0 && p0 == old(cursor).pos() + 1,
            old(cursor).actual_spec() matches Some(t) && inicia_atomo(t),
            fin_precedencia(old(cursor).toks(), old(cursor).pos(), min_precedencia) == fin_operadores(cursor.toks(), cursor.pos(), min_precedencia),
            ts == cursor.toks(),
            gens == cursor.gens(),
            i0 == old(cursor).pos(),
            fin_atomo(ts, i0) == Some(a),
            fin_postfijo(ts, a) == Some(p0),
            pasos_operadores(ts, p0, min_precedencia) == ops + pasos_operadores(ts, cursor.pos(), min_precedencia),
            binop_arbol(ts, gens, i0, ops, izquierda),
        ensures
            fin_precedencia(old(cursor).toks(), old(cursor).pos(), min_precedencia) == Some(cursor.pos()),
            pasos_operadores(ts, p0, min_precedencia) == ops,
            binop_arbol(ts, gens, i0, ops, izquierda),
            ts == cursor.toks(),
            fin_atomo(ts, i0) == Some(a),
            fin_postfijo(ts, a) == Some(p0),
            conserva(old(cursor), cursor),
            old(cursor).pos() < cursor.pos(),
            cursor.pos() == p0 ==> izquierda == iz0,
            literal_suelto(old(cursor)) ==> cursor.pos() == p0 && p0 == old(cursor).pos() + 1,
            match cursor.actual_spec() {
                Some(t) => operador_de(t) matches Some(o) ==> o.1 < min_precedencia,
                None => true,
            },
        decreases cursor.restantes(),
    {
        let info = operador_binario(cursor);
        let ghost k = cursor.pos();
        let (op, precedencia) = match info {
            Some(par) => par,
            None => {
                assert(pasos_operadores(ts, k, min_precedencia) =~= Seq::empty());
                assert(ops + pasos_operadores(ts, k, min_precedencia) =~= ops);
                break ;
            },
        };
        if precedencia < min_precedencia {
            assert(pasos_operadores(ts, k, min_precedencia) =~= Seq::empty());
            assert(ops + pasos_operadores(ts, k, min_precedencia) =~= ops);
            break ;
        }
        assert(!literal_suelto(old(cursor)));
        cursor.avanzar();
        let derecha = parse_expresion_precedencia(cursor, precedencia + 1)?;
        let ghost c = cursor.pos();
        proof {
            lema_postfijos_base(ts, gens, k + 1, (precedencia + 1) as u8, true, derecha);
        }
        let derecha = parse_postfix(cursor, derecha, Ghost(k + 1), Ghost((precedencia + 1) as u8), Ghost(true))?;
        let span = Span::combinar(izquierda.span(), derecha.span());
        proof {
            let paso = (op, precedencia, k + 1);
            let d = cursor.pos();
            assert(pasos_operadores(ts, k, min_precedencia) == seq![paso] + pasos_operadores(ts, d, min_precedencia));
            assert((ops + seq![paso]) + pasos_operadores(ts, d, min_precedencia) =~= ops + (seq![paso] + pasos_operadores(ts, d, min_precedencia)));
            assert(ops + seq![paso] =~= ops.push(paso));
            assert(ops.push(paso).drop_last() =~= ops);
            lema_derecha(ts, gens, k + 1, (precedencia + 1) as u8, c, derecha);
            lema_binop_paso(ts, gens, i0, ops, izquierda, op, precedencia, k + 1, derecha);
            ops = ops.push(paso);
        }
        izquierda = Expresion::Binaria(Box::new(izquierda), op, Box::new(derecha), span);
    }
    proof {
        lema_prec(ts, gens, i0, min_precedencia, a, p0, izquierda);
    }
    Ok(izquierda)
}

/// Parsea operadores postfix: `expr[índice]`, `expr.campo`, `expr.metodo(args)`, `expr?`.
/// `base` es lo leído desde `i` (un átomo o, con `sobre_prec`, una expresión de precedencia
/// `min`); el resultado le aplica los postfijos que siguen.
#[verifier::spinoff_prover]
#[verifier::rlimit(40)]
fn parse_postfix(
    cursor: &mut ParserCursor,
    base: Expresion,
    Ghost(i): Ghost<int>,
    Ghost(min): Ghost<u8>,
    Ghost(sobre_prec): Ghost<bool>,
) -> (r: Result<Expresion, ErrorSintaxis>)
    requires
        old(cursor).valido(),
        0 <= i < old(cursor).pos(),
        postfijos_arbol(old(cursor).toks(), old(cursor).gens(), i, min, sobre_prec, Seq::empty(), base),
    ensures
        conserva(old(cursor), final(cursor)),
        r is Ok ==> !final(cursor).actual_es(Token::CorcheteAbre) && !final(cursor).actual_es(
            Token::Punto,
        ) && !final(cursor).actual_es(Token::Interrogacion),
        !old(cursor).actual_es(Token::CorcheteAbre) && !old(cursor).actual_es(Token::Punto)
            && !old(cursor).actual_es(Token::Interrogacion) ==> r == Ok::<Expresion, ErrorSintaxis>(base)
            && final(cursor).pos() == old(cursor).pos(),
        lee(old(cursor), final(cursor), r, fin_postfijo(old(cursor).toks(), old(cursor).pos())),
        r matches Ok(e) ==> postfijos_arbol(
            old(cursor).toks(),
            old(cursor).gens(),
            i,
            min,
            sobre_prec,
            pasos_postfijos(old(cursor).toks(), old(cursor).pos()),
            e,
        ),
    decreases old(cursor).restantes(), 3nat,
{
    let ghost ts = cursor.toks();
    let ghost gens = cursor.gens();
    let ghost p0 = cursor.pos();
    let ghost mut pref: Seq<PasoPostfijo> = Seq::empty();
    let mut resultado = base;
    assert(pasos_postfijos(ts, p0) =~= pref + pasos_postfijos(ts, p0));
    loop
        invariant
            conserva(old(cursor), cursor),
            ts == cursor.toks(),
            gens == cursor.gens(),
            p0 == old(cursor).pos(),
            0 <= i < p0,
            cursor.pos() == old(cursor).pos() ==> resultado == base,
            !old(cursor).actual_es(Token::CorcheteAbre) && !old(cursor).actual_es(Token::Punto)
                && !old(cursor).actual_es(Token::Interrogacion) ==> cursor.pos() == old(cursor).pos(),
            fin_postfijo(cursor.toks(), cursor.pos()) == fin_postfijo(old(cursor).toks(), old(cursor).pos()),
            pasos_postfijos(ts, p0) == pref + pasos_postfijos(ts, cursor.pos()),
            postfijos_arbol(ts, gens, i, min, sobre_prec, pref, resultado),
        ensures
            fin_postfijo(old(cursor).toks(), old(cursor).pos()) == Some(cursor.pos()),
            conserva(old(cursor), cursor),
            cursor.pos() == old(cursor).pos() ==> resultado == base,
            !cursor.actual_es(Token::CorcheteAbre) && !cursor.actual_es(Token::Punto)
                && !cursor.actual_es(Token::Interrogacion),
            pasos_postfijos(ts, p0) == pref,
            postfijos_arbol(ts, gens, i, min, sobre_prec, pref, resultado),
        decreases cursor.restantes(),
    {
        let ghost k = cursor.pos();
        if cursor.es_actual(&Token::CorcheteAbre) {
            let span_inicio = resultado.span().copia();
            cursor.avanzar();  // [
            let indice = parse_expresion(cursor)?;
            let ghost f = cursor.pos();
            cursor.esperar(Token::CorcheteCierra)?;
            let span_fin = cursor.span_actual();
            let span = Span::combinar(&span_inicio, &span_fin);
            proof {
                lema_fin_actual(cursor, span_fin);
                let paso = PasoPostfijo::Indice(k, f);
                assert(pasos_postfijos(ts, k) == seq![paso] + pasos_postfijos(ts, f + 1));
                assert(pref.push(paso).drop_last() =~= pref);
                assert((pref + seq![paso]) + pasos_postfijos(ts, f + 1) =~= pref + (seq![paso] + pasos_postfijos(ts, f + 1)));
                assert(pref + seq![paso] =~= pref.push(paso));
                lema_paso_indice(ts, gens, i, min, sobre_prec, pref, resultado, indice, k, f);
                pref = pref.push(paso);
            }
            resultado = Expresion::AccesoArray(Box::new(resultado), Box::new(indice), span);
        } else if cursor.es_actual(&Token::Punto) {
            let ghost inicio = cursor.pos();
            let span_inicio = resultado.span().copia();
            cursor.avanzar();  // .
            let nombre_campo = match cursor.actual() {
                Some(Token::Identificador(n)) => {
                    let n = n.clone();
                    cursor.avanzar();
                    n
                },
                _ => {
                    let span = cursor.span_actual();
                    return Err(
                        ErrorSintaxis::identificador_esperado(
                            span,
                            "nombre de campo después de '.'",
                        ),
                    );
                },
            };
            assert(nombre_campo == nombre_en(ts, k + 1));
            if cursor.es_actual(&Token::ParenAbre) {
                // Método: x.metodo(args)
                cursor.avanzar();  // (
                let ghost inicios: Seq<int> = if hay_token(ts, k + 3, Token::ParenCierra) {
                    Seq::empty()
                } else {
                    inicios_args_metodo(ts, k + 3)
                };
                let args = parse_args_metodo(cursor)?;
                proof {
                    lema_lista_desde(ts, gens, i, k + 2, inicios, args@);
                }
                let ghost j = cursor.pos();
                cursor.esperar(Token::ParenCierra)?;
                let span_fin = cursor.span_actual();
                let span = Span::combinar(&span_inicio, &span_fin);
                proof {
                    lema_fin_actual(cursor, span_fin);
                    let paso = PasoPostfijo::Metodo(k, inicios, j);
                    assert(pasos_postfijos(ts, k) == seq![paso] + pasos_postfijos(ts, j + 1));
                    assert(pref.push(paso).drop_last() =~= pref);
                    assert((pref + seq![paso]) + pasos_postfijos(ts, j + 1) =~= pref + (seq![paso] + pasos_postfijos(ts, j + 1)));
                    assert(pref + seq![paso] =~= pref.push(paso));
                    lema_paso_metodo(ts, gens, i, min, sobre_prec, pref, resultado, k, inicios, j, nombre_campo, args);
                    pref = pref.push(paso);
                }
                resultado = Expresion::Metodo(Box::new(resultado), nombre_campo, args, span);
            } else {
                let span_fin = cursor.span_actual();
                let span = Span::combinar(&span_inicio, &span_fin);
                proof {
                    lema_fin_actual(cursor, span_fin);
                    let paso = PasoPostfijo::Campo(k);
                    assert(pasos_postfijos(ts, k) == seq![paso] + pasos_postfijos(ts, k + 2));
                    assert(pref.push(paso).drop_last() =~= pref);
                    assert((pref + seq![paso]) + pasos_postfijos(ts, k + 2) =~= pref + (seq![paso] + pasos_postfijos(ts, k + 2)));
                    assert(pref + seq![paso] =~= pref.push(paso));
                    lema_paso_campo(ts, gens, i, min, sobre_prec, pref, resultado, k, nombre_campo);
                    pref = pref.push(paso);
                }
                resultado = Expresion::AccesoCampo(Box::new(resultado), nombre_campo, span);
            }
        } else if cursor.es_actual(&Token::Interrogacion) {
            let span_inicio = resultado.span().copia();
            cursor.avanzar();  // ?
            let span_fin = cursor.span_actual();
            let span = Span::combinar(&span_inicio, &span_fin);
            proof {
                lema_fin_actual(cursor, span_fin);
                let paso = PasoPostfijo::Propagacion(k);
                assert(pasos_postfijos(ts, k) == seq![paso] + pasos_postfijos(ts, k + 1));
                assert(pref.push(paso).drop_last() =~= pref);
                assert((pref + seq![paso]) + pasos_postfijos(ts, k + 1) =~= pref + (seq![paso] + pasos_postfijos(ts, k + 1)));
                assert(pref + seq![paso] =~= pref.push(paso));
                lema_paso_propagacion(ts, gens, i, min, sobre_prec, pref, resultado, k);
                pref = pref.push(paso);
            }
            resultado = Expresion::Propagacion(Box::new(resultado), span);
        } else {
            assert(pasos_postfijos(ts, k) =~= Seq::empty());
            assert(pref + pasos_postfijos(ts, k) =~= pref);
            break ;
        }
    }
    Ok(resultado)
}

/// Parsea los argumentos de una llamada a método, tras el `(` y sin consumir el `)`:
/// ninguno si el actual es `)`, o expresiones separadas por comas.
fn parse_args_metodo(cursor: &mut ParserCursor) -> (r: Result<Vec<Expresion>, ErrorSintaxis>)
    requires
        old(cursor).valido(),
    ensures
        conserva(old(cursor), final(cursor)),
        lee(
            old(cursor),
            final(cursor),
            r,
            if hay_token(old(cursor).toks(), old(cursor).pos(), Token::ParenCierra) {
                Some(old(cursor).pos())
            } else {
                fin_args_metodo(old(cursor).toks(), old(cursor).pos())
            },
        ),
        r matches Ok(v) ==> lista_arbol(
            old(cursor).toks(),
            old(cursor).gens(),
            old(cursor).pos() - 1,
            if hay_token(old(cursor).toks(), old(cursor).pos(), Token::ParenCierra) {
                Seq::empty()
            } else {
                inicios_args_metodo(old(cursor).toks(), old(cursor).pos())
            },
            v@,
        ),
    decreases old(cursor).restantes(), 8nat,
{
    let ghost ts = cursor.toks();
    let ghost gens = cursor.gens();
    let ghost p = cursor.pos();
    let mut args: Vec<Expresion> = Vec::new();
    if cursor.es_actual(&Token::ParenCierra) {
        return Ok(args);
    }
    let ghost mut previos: Seq<int> = seq![p];
    let primero = parse_expresion(cursor)?;
    args.push(primero);
    assert(args@ =~= seq![primero]);
    while cursor.es_actual(&Token::Coma)
        invariant
            conserva(old(cursor), cursor),
            ts == cursor.toks(),
            gens == cursor.gens(),
            p == old(cursor).pos(),
            p < cursor.pos(),
            !hay_token(ts, p, Token::ParenCierra),
            fin_args_metodo(ts, p) == if hay_token(ts, cursor.pos(), Token::Coma) {
                fin_args_metodo(ts, cursor.pos() + 1)
            } else {
                Some(cursor.pos())
            },
            inicios_args_metodo(ts, p) == previos + if hay_token(ts, cursor.pos(), Token::Coma) {
                inicios_args_metodo(ts, cursor.pos() + 1)
            } else {
                Seq::empty()
            },
            args@.len() == previos.len(),
            forall|m: int| 0 <= m < previos.len() ==> p <= #[trigger] previos[m] < cursor.pos(),
            forall|m: int| 0 <= m < previos.len() ==> expr_arbol(ts, gens, previos[m], #[trigger] args@[m]),
        decreases cursor.restantes(),
    {
        cursor.avanzar();  // ,
        let ghost s1 = cursor.pos();
        let arg = parse_expresion(cursor)?;
        args.push(arg);
        proof {
            let resto = if hay_token(ts, cursor.pos(), Token::Coma) {
                inicios_args_metodo(ts, cursor.pos() + 1)
            } else {
                Seq::empty()
            };
            assert(inicios_args_metodo(ts, s1) == seq![s1] + resto);
            assert(previos + (seq![s1] + resto) =~= previos.push(s1) + resto);
            previos = previos.push(s1);
        }
    }
    assert(inicios_args_metodo(ts, p) =~= previos);
    Ok(args)
}

/// Posición siguiente al `>` que cierra los ángulos abiertos, buscando desde `j` con
/// `prof` ángulos abiertos; `>>` y `>>>` cierran dos y tres. `None` si antes se acaban los
/// tokens o aparece un token de error, o si un `>>` o `>>>` cierra más de los abiertos.
pub open spec fn cierre_angular(ts: Seq<TokenConSpan>, j: int, prof: nat) -> Option<int>
    decreases ts.len() - j,
{
    if j < 0 || j >= ts.len() || prof == 0 {
        None
    } else {
        match ts[j].token {
            Token::MenorQue => cierre_angular(ts, j + 1, prof + 1),
            Token::MayorQue => if prof == 1 {
                Some(j + 1)
            } else {
                cierre_angular(ts, j + 1, (prof - 1) as nat)
            },
            Token::DobleMayor => if prof < 2 {
                None
            } else if prof == 2 {
                Some(j + 1)
            } else {
                cierre_angular(ts, j + 1, (prof - 2) as nat)
            },
            Token::TripleMayor => if prof < 3 {
                None
            } else if prof == 3 {
                Some(j + 1)
            } else {
                cierre_angular(ts, j + 1, (prof - 3) as nat)
            },
            Token::Error => None,
            _ => cierre_angular(ts, j + 1, prof),
        }
    }
}

/// En la posición `p` empieza una llamada genérica: `<` tipos balanceados `>` seguido de `(`.
pub open spec fn llamada_generica_en(ts: Seq<TokenConSpan>, p: int) -> bool {
    &&& token_de(ts, p) matches Some(Token::MenorQue)
    &&& match cierre_angular(ts, p + 1, 1) {
        Some(k) => token_de(ts, k) matches Some(Token::ParenAbre),
        None => false,
    }
}

/// Determina si a partir del token `<` actual hay una llamada genérica:
/// `< tipo [, tipo]* > (`, balanceando `<` y `>` (y `>>`, `>>>`) para admitir tipos
/// anidados.
fn es_llamada_generica(cursor: &ParserCursor) -> (r: bool)
    requires
        cursor.valido(),
    ensures
        r == llamada_generica_en(cursor.toks(), cursor.pos()),
{
    if !cursor.es_actual(&Token::MenorQue) {
        return false;
    }
    let mut profundidad: usize = 1;
    let mut i: usize = 1;
    while profundidad > 0
        invariant
            cursor.valido(),
            cursor.pos() < cursor.toks().len(),
            1 <= i,
            cursor.pos() + i <= cursor.toks().len(),
            profundidad <= i,
            token_de(cursor.toks(), cursor.pos()) matches Some(Token::MenorQue),
            profundidad > 0 ==> cierre_angular(cursor.toks(), cursor.pos() + i, profundidad as nat)
                == cierre_angular(cursor.toks(), cursor.pos() + 1, 1),
            profundidad == 0 ==> cierre_angular(cursor.toks(), cursor.pos() + 1, 1) == Some(
                cursor.pos() + i,
            ),
        decreases cursor.toks().len() - (cursor.pos() + i), profundidad,
    {
        let ghost j = cursor.pos() + i;
        match cursor.peek(i) {
            Some(Token::MenorQue) => {
                profundidad = profundidad + 1;
            },
            Some(Token::MayorQue) => {
                profundidad = profundidad - 1;
            },
            Some(Token::DobleMayor) => {
                if profundidad < 2 {
                    return false;
                }
                profundidad = profundidad - 2;
            },
            Some(Token::TripleMayor) => {
                if profundidad < 3 {
                    return false;
                }
                profundidad = profundidad - 3;
            },
            Some(Token::Error) => {
                return false;
            },
            None => {
                return false;
            },
            _ => {},
        }
        i = i + 1;
    }
    match cursor.peek(i) {
        Some(Token::ParenAbre) => true,
        _ => false,
    }
}

/// Parsea argumentos de tipo para una llamada genérica: `<Tipo1, Tipo2>`.
/// El cursor debe apuntar a `<`; se consume hasta el `>` inclusive.
#[verifier::loop_isolation(false)]
fn parse_tipo_args(cursor: &mut ParserCursor) -> (r: Result<Vec<Tipo>, ErrorSintaxis>)
    requires
        old(cursor).valido(),
    ensures
        avance(old(cursor), final(cursor), r),
        r is Ok ==> old(cursor).actual_es(Token::MenorQue) && final(cursor).toks()[final(cursor).pos() - 1].token is MayorQue,
        lee(old(cursor), final(cursor), r, fin_args_tipo(old(cursor).toks(), old(cursor).pos())),
        r matches Ok(v) ==> forma_lista_tipos(old(cursor).toks(), old(cursor).gens(), old(cursor).pos() + 1, v@),
{
    cursor.esperar(Token::MenorQue)?;
    let args = parse_lista_tipos(cursor)?;
    cursor.esperar(Token::MayorQue)?;
    Ok(args)
}

/// Parsea los argumentos de una llamada hasta `)` inclusive (el `(` ya fue consumido); las
/// comas entre argumentos son opcionales.
#[verifier::spinoff_prover]
#[verifier::rlimit(30)]
fn parse_argumentos(cursor: &mut ParserCursor) -> (r: Result<Vec<Expresion>, ErrorSintaxis>)
    requires
        old(cursor).valido(),
    ensures
        avance(old(cursor), final(cursor), r),
        r is Ok ==> final(cursor).toks()[final(cursor).pos() - 1].token is ParenCierra,
        lee(old(cursor), final(cursor), r, fin_args_llamada(old(cursor).toks(), old(cursor).pos())),
        r matches Ok(v) ==> lista_arbol(
            old(cursor).toks(),
            old(cursor).gens(),
            old(cursor).pos() - 1,
            inicios_lista_args(old(cursor).toks(), old(cursor).pos()),
            v@,
        ),
    decreases old(cursor).restantes(), 8nat,
{
    let ghost ts = cursor.toks();
    let ghost gens = cursor.gens();
    let ghost p = cursor.pos();
    let ghost mut previos: Seq<int> = Seq::empty();
    let mut argumentos: Vec<Expresion> = Vec::new();
    assert(inicios_lista_args(ts, p) =~= previos + inicios_lista_args(ts, p));
    while !cursor.es_actual(&Token::ParenCierra) && !cursor.esta_vacio()
        invariant
            conserva(old(cursor), cursor),
            ts == cursor.toks(),
            gens == cursor.gens(),
            p == old(cursor).pos(),
            fin_lista_args(cursor.toks(), cursor.pos()) == fin_lista_args(old(cursor).toks(), old(cursor).pos()),
            inicios_lista_args(ts, p) == previos + inicios_lista_args(ts, cursor.pos()),
            argumentos@.len() == previos.len(),
            forall|m: int| 0 <= m < previos.len() ==> p <= #[trigger] previos[m] < cursor.pos(),
            forall|m: int| 0 <= m < previos.len() ==> expr_arbol(ts, gens, previos[m], #[trigger] argumentos@[m]),
        decreases cursor.restantes(),
    {
        let ghost k = cursor.pos();
        let arg = parse_expresion(cursor)?;
        argumentos.push(arg);
        let ghost e = cursor.pos();
        if cursor.es_actual(&Token::Coma) {
            cursor.avanzar();
        }
        proof {
            assert(inicios_lista_args(ts, k) == seq![k] + inicios_lista_args(ts, cursor.pos()));
            assert(previos + (seq![k] + inicios_lista_args(ts, cursor.pos())) =~= previos.push(k) + inicios_lista_args(ts, cursor.pos()));
            previos = previos.push(k);
        }
    }
    assert(inicios_lista_args(ts, cursor.pos()) =~= Seq::<int>::empty());
    assert(inicios_lista_args(ts, p) =~= previos);
    cursor.esperar(Token::ParenCierra)?;
    Ok(argumentos)
}

/// Parsea los argumentos de un constructor de enum hasta `)` inclusive (el `(` ya fue
/// consumido): expresiones separadas por comas.
fn parse_argumentos_constructor(cursor: &mut ParserCursor) -> (r: Result<
    Vec<Expresion>,
    ErrorSintaxis,
>)
    requires
        old(cursor).valido(),
    ensures
        avance(old(cursor), final(cursor), r),
        r is Ok ==> final(cursor).toks()[final(cursor).pos() - 1].token is ParenCierra,
        lee(old(cursor), final(cursor), r, fin_args_constructor(old(cursor).toks(), old(cursor).pos())),
        r matches Ok(v) ==> lista_arbol(
            old(cursor).toks(),
            old(cursor).gens(),
            old(cursor).pos() - 1,
            inicios_lista_constructor(old(cursor).toks(), old(cursor).pos()),
            v@,
        ),
    decreases old(cursor).restantes(), 8nat,
{
    let ghost ts = cursor.toks();
    let ghost gens = cursor.gens();
    let ghost p = cursor.pos();
    let ghost mut previos: Seq<int> = Seq::empty();
    let mut argumentos: Vec<Expresion> = Vec::new();
    assert(inicios_lista_constructor(ts, p) =~= previos + inicios_lista_constructor(ts, p));
    while !cursor.es_actual(&Token::ParenCierra) && !cursor.esta_vacio()
        invariant_except_break
            fin_lista_constructor(cursor.toks(), cursor.pos()) == fin_lista_constructor(old(cursor).toks(), old(cursor).pos()),
            inicios_lista_constructor(ts, p) == previos + inicios_lista_constructor(ts, cursor.pos()),
        invariant
            conserva(old(cursor), cursor),
            ts == cursor.toks(),
            gens == cursor.gens(),
            p == old(cursor).pos(),
            argumentos@.len() == previos.len(),
            forall|m: int| 0 <= m < previos.len() ==> p <= #[trigger] previos[m] < cursor.pos(),
            forall|m: int| 0 <= m < previos.len() ==> expr_arbol(ts, gens, previos[m], #[trigger] argumentos@[m]),
        ensures
            conserva(old(cursor), cursor),
            fin_lista_constructor(old(cursor).toks(), old(cursor).pos()) == Some(cursor.pos()),
            inicios_lista_constructor(ts, p) == previos,
            argumentos@.len() == previos.len(),
            forall|m: int| 0 <= m < previos.len() ==> p <= #[trigger] previos[m] < cursor.pos(),
            forall|m: int| 0 <= m < previos.len() ==> expr_arbol(ts, gens, previos[m], #[trigger] argumentos@[m]),
        decreases cursor.restantes(),
    {
        let ghost k = cursor.pos();
        let arg = parse_expresion(cursor)?;
        argumentos.push(arg);
        if cursor.es_actual(&Token::Coma) {
            cursor.avanzar();
            proof {
                assert(inicios_lista_constructor(ts, k) == seq![k] + inicios_lista_constructor(ts, cursor.pos()));
                assert(previos + (seq![k] + inicios_lista_constructor(ts, cursor.pos())) =~= previos.push(k) + inicios_lista_constructor(ts, cursor.pos()));
                previos = previos.push(k);
            }
        } else {
            proof {
                assert(inicios_lista_constructor(ts, k) == seq![k]);
                assert(previos + seq![k] =~= previos.push(k));
                previos = previos.push(k);
            }
            break ;
        }
    }
    cursor.esperar(Token::ParenCierra)?;
    Ok(argumentos)
}

/// Tokens con los que puede empezar un átomo.
pub open spec fn inicia_atomo(t: Token) -> bool {
    match t {
        Token::Pipe | Token::Menos | Token::Exclamacion | Token::Tilde | Token::Ampersand
        | Token::Asterisco | Token::Esperar | Token::Lanzar | Token::Bloquear | Token::DireccionDe
        | Token::DirDe | Token::Verdadero | Token::Falso | Token::CorcheteAbre | Token::LlaveAbre
        | Token::Todos | Token::Mover | Token::Copiar | Token::Resultado | Token::Identificador(_)
        | Token::ParenAbre | Token::Coincidir => true,
        Token::EnteroLiteral(v) => v is Some,
        Token::FlotanteLiteral(v) => v is Some,
        Token::PalabraLiteral(v) => v is Some,
        Token::CaracterLiteral(v) => v is Some,
        _ => false,
    }
}

/// `r` es el error «esperaba una expresión» en el token actual de `antes`, sin avanzar.
pub open spec fn error_de_expresion(
    antes: &ParserCursor,
    despues: &ParserCursor,
    r: Result<Expresion, ErrorSintaxis>,
) -> bool {
    r matches Err(e) && despues.pos() == antes.pos() && antes.span_actual_es(e.error.span) && e.es(
        5,
        e.error.span,
        "esperaba una expresión"@,
    ) && e.sugiere("verifica que la expresión esté completa"@)
}

/// `r` es el literal `lit` que ocupa exactamente el token actual de `antes`.
pub open spec fn literal_en(
    antes: &ParserCursor,
    despues: &ParserCursor,
    r: Result<Expresion, ErrorSintaxis>,
    lit: Literal,
) -> bool {
    &&& despues.pos() == antes.pos() + 1
    &&& r == Ok::<Expresion, ErrorSintaxis>(Expresion::Literal(lit))
}

/// Parsea un átomo: literal, identificador, llamada, constructor de enum, paréntesis,
/// operador unario, closure, array literal, bloque, `todos`, `mover`, `copiar`,
/// `coincidir` y las formas async.
#[verifier::spinoff_prover]
#[verifier::rlimit(50)]
pub fn parse_atom(cursor: &mut ParserCursor) -> (r: Result<Expresion, ErrorSintaxis>)
    requires
        old(cursor).valido(),
    ensures
        avance(old(cursor), final(cursor), r),
        match old(cursor).actual_spec() {
            Some(Token::EnteroLiteral(Some(n))) => literal_en(
                old(cursor),
                final(cursor),
                r,
                Literal::Entero(n, old(cursor).toks()[old(cursor).pos()].span),
            ),
            Some(Token::CaracterLiteral(Some(c))) => literal_en(
                old(cursor),
                final(cursor),
                r,
                Literal::Caracter(c, old(cursor).toks()[old(cursor).pos()].span),
            ),
            Some(Token::Verdadero) => literal_en(
                old(cursor),
                final(cursor),
                r,
                Literal::Booleano(true, old(cursor).toks()[old(cursor).pos()].span),
            ),
            Some(Token::Falso) => literal_en(
                old(cursor),
                final(cursor),
                r,
                Literal::Booleano(false, old(cursor).toks()[old(cursor).pos()].span),
            ),
            Some(t) => !inicia_atomo(t) ==> error_de_expresion(old(cursor), final(cursor), r),
            None => error_de_expresion(old(cursor), final(cursor), r),
        },
        lee(old(cursor), final(cursor), r, fin_atomo(old(cursor).toks(), old(cursor).pos())),
        r matches Ok(e) ==> atomo_arbol(old(cursor).toks(), old(cursor).gens(), old(cursor).pos(), e),
    decreases old(cursor).restantes(), 5nat,
{
    let ghost ts = cursor.toks();
    let ghost gens = cursor.gens();
    let ghost i = cursor.pos();
    let span_inicio = cursor.span_actual();
    match cursor.actual() {
        Some(Token::Pipe) => {
            let e = parse_closure(cursor)?;
            proof {
                lema_atomo(ts, gens, i, cursor.pos(), e);
            }
            Ok(e)
        },
        Some(Token::Menos) => {
            cursor.avanzar();
            let expr = parse_atom(cursor)?;
            let span = Span::combinar(&span_inicio, expr.span());
            let e = Expresion::Unaria(OperadorUnario::Negacion, Box::new(expr), span);
            proof {
                lema_atomo(ts, gens, i, cursor.pos(), e);
            }
            Ok(e)
        },
        Some(Token::Exclamacion) => {
            cursor.avanzar();
            let expr = parse_atom(cursor)?;
            let span = Span::combinar(&span_inicio, expr.span());
            let e = Expresion::Unaria(OperadorUnario::NegacionLogica, Box::new(expr), span);
            proof {
                lema_atomo(ts, gens, i, cursor.pos(), e);
            }
            Ok(e)
        },
        Some(Token::Tilde) => {
            cursor.avanzar();
            let expr = parse_atom(cursor)?;
            let span = Span::combinar(&span_inicio, expr.span());
            let e = Expresion::Unaria(OperadorUnario::BitNot, Box::new(expr), span);
            proof {
                lema_atomo(ts, gens, i, cursor.pos(), e);
            }
            Ok(e)
        },
        Some(Token::Ampersand) => {
            cursor.avanzar();  // &
            let op = if cursor.es_actual(&Token::Mut) {
                cursor.avanzar();  // mut
                OperadorUnario::ReferenciaMut
            } else {
                OperadorUnario::Referencia
            };
            let expr = parse_expresion(cursor)?;
            let span = Span::combinar(&span_inicio, expr.span());
            let e = Expresion::Unaria(op, Box::new(expr), span);
            proof {
                lema_atomo(ts, gens, i, cursor.pos(), e);
            }
            Ok(e)
        },
        Some(Token::Asterisco) => {
            // *expr — dereferencia
            cursor.avanzar();
            let expr = parse_expresion(cursor)?;
            let span = Span::combinar(&span_inicio, expr.span());
            let e = Expresion::Unaria(OperadorUnario::Desreferencia, Box::new(expr), span);
            proof {
                lema_atomo(ts, gens, i, cursor.pos(), e);
            }
            Ok(e)
        },
        Some(Token::Esperar) => {
            cursor.avanzar();
            let expr = parse_expresion(cursor)?;
            let span = Span::combinar(&span_inicio, expr.span());
            let e = Expresion::Esperar(Box::new(expr), span);
            proof {
                lema_atomo(ts, gens, i, cursor.pos(), e);
            }
            Ok(e)
        },
        Some(Token::Lanzar) => {
            cursor.avanzar();
            let expr = parse_expresion(cursor)?;
            let span = Span::combinar(&span_inicio, expr.span());
            let e = Expresion::Lanzar(Box::new(expr), span);
            proof {
                lema_atomo(ts, gens, i, cursor.pos(), e);
            }
            Ok(e)
        },
        Some(Token::Bloquear) => {
            cursor.avanzar();
            cursor.esperar(Token::ParenAbre)?;
            let expr = parse_expresion(cursor)?;
            cursor.esperar(Token::ParenCierra)?;
            let span = Span::combinar(&span_inicio, expr.span());
            let e = Expresion::Bloquear(Box::new(expr), span);
            proof {
                lema_atomo(ts, gens, i, cursor.pos(), e);
            }
            Ok(e)
        },
        Some(Token::DireccionDe) | Some(Token::DirDe) => {
            cursor.avanzar();
            cursor.esperar(Token::ParenAbre)?;
            let nombre = match cursor.actual() {
                Some(Token::Identificador(n)) => {
                    let n = n.clone();
                    cursor.avanzar();
                    n
                },
                _ => {
                    let span = cursor.span_actual();
                    return Err(
                        ErrorSintaxis::identificador_esperado(
                            span,
                            "nombre de función después de 'direccion_de('",
                        ),
                    );
                },
            };
            cursor.esperar(Token::ParenCierra)?;
            let span_fin = cursor.span_actual();
            let span = Span::combinar(&span_inicio, &span_fin);
            let e = Expresion::DireccionDe(nombre, span);
            proof {
                lema_fin_actual(cursor, span_fin);
                lema_atomo(ts, gens, i, cursor.pos(), e);
            }
            Ok(e)
        },
        Some(Token::EnteroLiteral(Some(n))) => {
            let val = *n;
            cursor.avanzar();
            let e = Expresion::Literal(Literal::Entero(val, span_inicio));
            proof {
                lema_atomo(ts, gens, i, cursor.pos(), e);
            }
            Ok(e)
        },
        Some(Token::FlotanteLiteral(Some(f))) => {
            let val = f.clone();
            cursor.avanzar();
            let e = Expresion::Literal(Literal::Flotante(val, span_inicio));
            proof {
                lema_atomo(ts, gens, i, cursor.pos(), e);
            }
            Ok(e)
        },
        Some(Token::PalabraLiteral(Some(s))) => {
            let val = s.clone();
            cursor.avanzar();
            let e = Expresion::Literal(Literal::Palabra(val, span_inicio));
            proof {
                lema_atomo(ts, gens, i, cursor.pos(), e);
            }
            Ok(e)
        },
        Some(Token::CaracterLiteral(Some(c))) => {
            let val = *c;
            cursor.avanzar();
            let e = Expresion::Literal(Literal::Caracter(val, span_inicio));
            proof {
                lema_atomo(ts, gens, i, cursor.pos(), e);
            }
            Ok(e)
        },
        Some(Token::Verdadero) => {
            cursor.avanzar();
            let e = Expresion::Literal(Literal::Booleano(true, span_inicio));
            proof {
                lema_atomo(ts, gens, i, cursor.pos(), e);
            }
            Ok(e)
        },
        Some(Token::Falso) => {
            cursor.avanzar();
            let e = Expresion::Literal(Literal::Booleano(false, span_inicio));
            proof {
                lema_atomo(ts, gens, i, cursor.pos(), e);
            }
            Ok(e)
        },
        Some(Token::CorcheteAbre) => parse_array_literal(cursor),
        Some(Token::LlaveAbre) => {
            // Bloque como expresión: { sentencia; expresión }
            let bloque = parse_bloque(cursor)?;
            let e = Expresion::Bloque(bloque);
            proof {
                lema_atomo(ts, gens, i, cursor.pos(), e);
            }
            Ok(e)
        },
        Some(Token::Todos) => {
            // todos expr — inicialización de array con valor repetido
            cursor.avanzar();
            let valor = parse_expresion(cursor)?;
            let span = Span::combinar(&span_inicio, valor.span());
            let e = Expresion::ArrayRelleno(Box::new(valor), 0, span);
            proof {
                lema_atomo(ts, gens, i, cursor.pos(), e);
            }
            Ok(e)
        },
        Some(Token::Mover) => {
            // mover x [a destino] — transferencia de ownership
            cursor.avanzar();
            let nombre = match cursor.actual() {
                Some(Token::Identificador(n)) => {
                    let n = n.clone();
                    cursor.avanzar();
                    n
                },
                _ => {
                    let span = cursor.span_actual();
                    return Err(
                        ErrorSintaxis::identificador_esperado(span, "variable después de 'mover'"),
                    );
                },
            };
            let hay_destino = match cursor.actual() {
                Some(Token::Identificador(a)) => es_texto(a, "a"),
                _ => false,
            };
            let destino = if hay_destino {
                cursor.avanzar();  // a
                let d = parse_expresion(cursor)?;
                Some(Box::new(d))
            } else {
                None
            };
            let span_fin = cursor.span_actual();
            let span = Span::combinar(&span_inicio, &span_fin);
            let e = Expresion::Mover(nombre, destino, span);
            proof {
                lema_fin_actual(cursor, span_fin);
                lema_atomo(ts, gens, i, cursor.pos(), e);
            }
            Ok(e)
        },
        Some(Token::Copiar) => {
            // copiar expr — clone explícito
            cursor.avanzar();
            let expr = parse_expresion(cursor)?;
            let span = Span::combinar(&span_inicio, expr.span());
            let e = Expresion::Copiar(Box::new(expr), span);
            proof {
                lema_atomo(ts, gens, i, cursor.pos(), e);
            }
            Ok(e)
        },
        Some(Token::Resultado) => {
            // Constructor de Resultado: Resultado.Exito(...) o Resultado.Error(...)
            cursor.avanzar();
            if cursor.es_actual(&Token::Punto) {
                if let Some(Token::Identificador(v)) = cursor.peek(1) {
                    let variante = v.clone();
                    cursor.avanzar();  // .
                    cursor.avanzar();  // variante
                    let mut argumentos: Vec<Expresion> = Vec::new();
                    if cursor.es_actual(&Token::ParenAbre) {
                        cursor.avanzar();  // (
                        argumentos = parse_argumentos_constructor(cursor)?;
                        proof {
                            lema_lista_desde(ts, gens, i, i + 3, inicios_lista_constructor(ts, i + 4), argumentos@);
                        }
                    }
                    let span_fin = cursor.span_actual();
                    let span = Span::combinar(&span_inicio, &span_fin);
                    let e = Expresion::ConstructorEnum(texto("Resultado"), variante, argumentos, span);
                    proof {
                        lema_fin_actual(cursor, span_fin);
                        lema_atomo(ts, gens, i, cursor.pos(), e);
                    }
                    return Ok(e);
                }
            }
            let span = cursor.span_actual();
            Err(
                ErrorSintaxis::nuevo(
                    15,
                    span,
                    texto("esperaba '.Exito' o '.Error' después de 'Resultado'"),
                ),
            )
        },
        Some(Token::Identificador(_)) => {
            let e = parse_identificador(cursor)?;
            proof {
                lema_atomo(ts, gens, i, cursor.pos(), e);
            }
            Ok(e)
        },
        Some(Token::ParenAbre) => {
            cursor.avanzar();
            let expr = parse_expresion(cursor)?;
            cursor.esperar(Token::ParenCierra)?;
            proof {
                lema_atomo(ts, gens, i, cursor.pos(), expr);
            }
            Ok(expr)
        },
        Some(Token::Coincidir) => {
            let e = parse_coincidir(cursor)?;
            proof {
                lema_atomo(ts, gens, i, cursor.pos(), e);
            }
            Ok(e)
        },
        _ => Err(ErrorSintaxis::expresion_esperada(span_inicio)),
    }
}

/// Parsea un closure `|params| cuerpo`: parámetros con tipo opcional y, como cuerpo, una
/// expresión o un bloque (un bloque queda como el literal `0`).
#[verifier::loop_isolation(false)]
fn parse_closure(cursor: &mut ParserCursor) -> (r: Result<Expresion, ErrorSintaxis>)
    requires
        old(cursor).valido(),
        old(cursor).actual_es(Token::Pipe),
    ensures
        avance(old(cursor), final(cursor), r),
        r matches Ok(e) ==> e is Closure,
        lee(old(cursor), final(cursor), r, fin_closure(old(cursor).toks(), old(cursor).pos())),
        r matches Ok(e) ==> closure_arbol(old(cursor).toks(), old(cursor).gens(), old(cursor).pos(), e),
    decreases old(cursor).restantes(), 4nat,
{
    let ghost ts = cursor.toks();
    let ghost gens = cursor.gens();
    let ghost i = cursor.pos();
    let span_inicio = cursor.span_actual();
    cursor.avanzar();  // |
    let mut params: Vec<(String, Option<Tipo>)> = Vec::new();
    let ghost mut previos: Seq<(int, Option<int>)> = Seq::empty();
    assert(params_closure(ts, i + 1) =~= previos + params_closure(ts, i + 1));
    while !cursor.es_actual(&Token::Pipe) && !cursor.esta_vacio()
        invariant
            conserva(old(cursor), cursor),
            old(cursor).pos() < cursor.pos(),
            fin_params_closure(cursor.toks(), cursor.pos()) == fin_params_closure(cursor.toks(), old(cursor).pos() + 1),
            ts == cursor.toks(),
            gens == cursor.gens(),
            i == old(cursor).pos(),
            params_closure(ts, i + 1) == previos + params_closure(ts, cursor.pos()),
            params@.len() == previos.len(),
            forall|m: int|
                0 <= m < previos.len() ==> (#[trigger] params@[m]).0 == nombre_en(ts, previos[m].0) && match (
                    previos[m].1,
                    params@[m].1,
                ) {
                    (Some(k), Some(t)) => forma_tipo(ts, gens, k, t),
                    (None, None) => true,
                    _ => false,
                },
        decreases cursor.restantes(),
    {
        let ghost k = cursor.pos();
        let nombre = match cursor.actual() {
            Some(Token::Identificador(n)) => {
                let n = n.clone();
                cursor.avanzar();
                n
            },
            _ => {
                let span = cursor.span_actual();
                return Err(ErrorSintaxis::identificador_esperado(span, "parámetro de closure"));
            },
        };
        let tipo = if cursor.es_actual(&Token::DosPuntos) {
            cursor.avanzar();
            let t = parse_tipo(cursor)?;
            Some(t)
        } else {
            None
        };
        let ghost tp: Option<int> = if hay_token(ts, k + 1, Token::DosPuntos) {
            Some(k + 2)
        } else {
            None
        };
        params.push((nombre, tipo));
        if cursor.es_actual(&Token::Coma) {
            cursor.avanzar();
        }
        proof {
            let par = (k, tp);
            assert(params_closure(ts, k) == seq![par] + params_closure(ts, cursor.pos()));
            assert(previos + (seq![par] + params_closure(ts, cursor.pos())) =~= previos.push(par) + params_closure(ts, cursor.pos()));
            previos = previos.push(par);
        }
    }
    assert(params_closure(ts, cursor.pos()) =~= Seq::<(int, Option<int>)>::empty());
    assert(params_closure(ts, i + 1) =~= previos);
    cursor.esperar(Token::Pipe)?;  // | de cierre
    if cursor.es_actual(&Token::LlaveAbre) {
        // Bloque: |x| { ... } — el cuerpo queda como el literal 0
        let _bloque = parse_bloque(cursor)?;
        let span_fin = cursor.span_actual();
        let span_bloque = Span::combinar(&span_inicio, &span_fin);
        proof {
            lema_fin_actual(cursor, span_fin);
        }
        let cero = Expresion::Literal(Literal::Entero(0, span_bloque.copia()));
        Ok(Expresion::Closure(params, Box::new(cero), span_bloque))
    } else {
        let cuerpo = parse_expresion(cursor)?;
        let span = Span::combinar(&span_inicio, cuerpo.span());
        Ok(Expresion::Closure(params, Box::new(cuerpo), span))
    }
}

/// Parsea un array literal: `[1, 2, 3]`.
fn parse_array_literal(cursor: &mut ParserCursor) -> (r: Result<Expresion, ErrorSintaxis>)
    requires
        old(cursor).valido(),
        old(cursor).actual_es(Token::CorcheteAbre),
    ensures
        avance(old(cursor), final(cursor), r),
        r matches Ok(e) ==> e is LiteralArray,
        lee(old(cursor), final(cursor), r, fin_atomo(old(cursor).toks(), old(cursor).pos())),
        r matches Ok(e) ==> atomo_arbol(old(cursor).toks(), old(cursor).gens(), old(cursor).pos(), e),
    decreases old(cursor).restantes(), 4nat,
{
    let ghost ts = cursor.toks();
    let ghost gens = cursor.gens();
    let ghost i = cursor.pos();
    let span_inicio = cursor.span_actual();
    cursor.avanzar();  // [
    let ghost mut previos: Seq<int> = Seq::empty();
    let mut elementos: Vec<Expresion> = Vec::new();
    assert(inicios_elementos(ts, i + 1) =~= previos + inicios_elementos(ts, i + 1));
    while !cursor.es_actual(&Token::CorcheteCierra) && !cursor.esta_vacio()
        invariant_except_break
            fin_elementos(cursor.toks(), cursor.pos()) == fin_elementos(cursor.toks(), old(cursor).pos() + 1),
            inicios_elementos(ts, i + 1) == previos + inicios_elementos(ts, cursor.pos()),
        invariant
            conserva(old(cursor), cursor),
            old(cursor).pos() < cursor.pos(),
            old(cursor).actual_es(Token::CorcheteAbre),
            ts == cursor.toks(),
            gens == cursor.gens(),
            i == old(cursor).pos(),
            elementos@.len() == previos.len(),
            forall|m: int| 0 <= m < previos.len() ==> i < #[trigger] previos[m] < cursor.pos(),
            forall|m: int| 0 <= m < previos.len() ==> expr_arbol(ts, gens, previos[m], #[trigger] elementos@[m]),
        ensures
            conserva(old(cursor), cursor),
            old(cursor).pos() < cursor.pos(),
            fin_elementos(cursor.toks(), old(cursor).pos() + 1) == Some(cursor.pos()),
            inicios_elementos(ts, i + 1) == previos,
            elementos@.len() == previos.len(),
            forall|m: int| 0 <= m < previos.len() ==> i < #[trigger] previos[m] < cursor.pos(),
            forall|m: int| 0 <= m < previos.len() ==> expr_arbol(ts, gens, previos[m], #[trigger] elementos@[m]),
        decreases cursor.restantes(),
    {
        let ghost k = cursor.pos();
        let e = parse_expresion(cursor)?;
        elementos.push(e);
        if cursor.es_actual(&Token::Coma) {
            cursor.avanzar();
            proof {
                assert(inicios_elementos(ts, k) == seq![k] + inicios_elementos(ts, cursor.pos()));
                assert(previos + (seq![k] + inicios_elementos(ts, cursor.pos())) =~= previos.push(k) + inicios_elementos(ts, cursor.pos()));
                previos = previos.push(k);
            }
        } else {
            proof {
                assert(inicios_elementos(ts, k) == seq![k]);
                assert(previos + seq![k] =~= previos.push(k));
                previos = previos.push(k);
            }
            break ;
        }
    }
    cursor.esperar(Token::CorcheteCierra)?;
    let span_fin = cursor.span_actual();
    let span = Span::combinar(&span_inicio, &span_fin);
    proof {
        lema_fin_actual(cursor, span_fin);
    }
    let r = Expresion::LiteralArray(elementos, span);
    proof {
        lema_atomo(ts, gens, i, cursor.pos(), r);
    }
    Ok(r)
}

/// Parsea lo que empieza con un identificador: constructor de enum `Enum.Variante(args)`
/// (si el nombre empieza en mayúscula), ruta `modulo::simbolo`, llamada cualificada o
/// genérica, llamada simple o identificador.
#[verifier::spinoff_prover]
#[verifier::rlimit(40)]
fn parse_identificador(cursor: &mut ParserCursor) -> (r: Result<Expresion, ErrorSintaxis>)
    requires
        old(cursor).valido(),
        old(cursor).actual_spec() matches Some(Token::Identificador(_)),
    ensures
        avance(old(cursor), final(cursor), r),
        lee(old(cursor), final(cursor), r, fin_identificador(old(cursor).toks(), old(cursor).pos())),
        r matches Ok(e) ==> identificador_arbol(old(cursor).toks(), old(cursor).gens(), old(cursor).pos(), e),
    decreases old(cursor).restantes(), 4nat,
{
    let ghost ts = cursor.toks();
    let ghost gens = cursor.gens();
    let ghost i = cursor.pos();
    let span_inicio = cursor.span_actual();
    let nombre = match cursor.actual() {
        Some(Token::Identificador(n)) => n.clone(),
        _ => String::new(),
    };
    assert(nombre == nombre_en(ts, i));
    cursor.avanzar();
    // Constructor de enum: el nombre empieza con mayúscula y sigue `.Variante`
    let es_posible_enum = match primer_caracter(nombre.as_str()) {
        Some(c) => es_mayuscula(c),
        None => false,
    };
    if es_posible_enum && cursor.es_actual(&Token::Punto) {
        if let Some(Token::Identificador(v)) = cursor.peek(1) {
            let variante = v.clone();
            cursor.avanzar();  // .
            cursor.avanzar();  // variante
            let mut argumentos: Vec<Expresion> = Vec::new();
            if cursor.es_actual(&Token::ParenAbre) {
                cursor.avanzar();  // (
                argumentos = parse_argumentos_constructor(cursor)?;
                proof {
                    lema_lista_desde(ts, gens, i, i + 3, inicios_lista_constructor(ts, i + 4), argumentos@);
                }
            }
            let span_fin = cursor.span_actual();
            let span = Span::combinar(&span_inicio, &span_fin);
            proof {
                lema_fin_actual(cursor, span_fin);
            }
            return Ok(Expresion::ConstructorEnum(nombre, variante, argumentos, span));
        }
    }
    // Ruta cualificada: modulo::funcion (dos `:` seguidos)

    if cursor.es_actual(&Token::DosPuntos) {
        cursor.avanzar();  // primer :
        if cursor.es_actual(&Token::DosPuntos) {
            cursor.avanzar();  // segundo :
            // nombre::<T>(...) — llamada genérica directa
            if es_llamada_generica(cursor) {
                let tipo_args = parse_tipo_args(cursor)?;
                let ghost a = cursor.pos();
                cursor.esperar(Token::ParenAbre)?;
                let argumentos = parse_argumentos(cursor)?;
                let span_fin = cursor.span_actual();
                let span = Span::combinar(&span_inicio, &span_fin);
                proof {
                    lema_fin_actual(cursor, span_fin);
                    lema_lista_desde(ts, gens, i, a, inicios_lista_args(ts, a + 1), argumentos@);
                }
                return Ok(
                    Expresion::Llamada(Llamada { funcion: nombre, tipo_args, argumentos, span }),
                );
            }
            let segundo = match cursor.actual() {
                Some(Token::Identificador(s)) => {
                    let s = s.clone();
                    cursor.avanzar();
                    s
                },
                _ => {
                    let span = cursor.span_actual();
                    return Err(
                        ErrorSintaxis::identificador_esperado(span, "nombre después de '::'"),
                    );
                },
            };
            assert(segundo == nombre_en(ts, i + 3));
            let mut ruta = nombre.clone();
            agregar(&mut ruta, "::");
            agregar(&mut ruta, segundo.as_str());
            let span_fin = cursor.span_actual();
            let span_ruta = Span::combinar(&span_inicio, &span_fin);
            proof {
                lema_fin_actual(cursor, span_fin);
            }
            // modulo::funcion<T>(...)
            if es_llamada_generica(cursor) {
                let tipo_args = parse_tipo_args(cursor)?;
                let ghost a = cursor.pos();
                cursor.esperar(Token::ParenAbre)?;
                let argumentos = parse_argumentos(cursor)?;
                let span_fin = cursor.span_actual();
                let span = Span::combinar(&span_inicio, &span_fin);
                proof {
                    lema_fin_actual(cursor, span_fin);
                    lema_lista_desde(ts, gens, i, a, inicios_lista_args(ts, a + 1), argumentos@);
                }
                return Ok(
                    Expresion::Llamada(Llamada { funcion: ruta, tipo_args, argumentos, span }),
                );
            }
            // modulo::funcion(...)

            if cursor.es_actual(&Token::ParenAbre) {
                cursor.avanzar();
                let argumentos = parse_argumentos(cursor)?;
                let span_fin = cursor.span_actual();
                let span = Span::combinar(&span_inicio, &span_fin);
                proof {
                    lema_fin_actual(cursor, span_fin);
                    lema_lista_desde(ts, gens, i, i + 4, inicios_lista_args(ts, i + 5), argumentos@);
                }
                return Ok(
                    Expresion::Llamada(
                        Llamada { funcion: ruta, tipo_args: Vec::new(), argumentos, span },
                    ),
                );
            }
            let partes = vec![nombre, segundo];
            assert(partes@ =~= seq![nombre_en(ts, i), nombre_en(ts, i + 3)]);
            return Ok(Expresion::Ruta(partes, span_ruta));
        }
    }
    // funcion<T>(args)

    let ghost k = cursor.pos();
    if es_llamada_generica(cursor) {
        let tipo_args = parse_tipo_args(cursor)?;
        let ghost a = cursor.pos();
        cursor.esperar(Token::ParenAbre)?;
        let argumentos = parse_argumentos(cursor)?;
        let span_fin = cursor.span_actual();
        let span = Span::combinar(&span_inicio, &span_fin);
        proof {
            lema_fin_actual(cursor, span_fin);
            lema_lista_desde(ts, gens, i, a, inicios_lista_args(ts, a + 1), argumentos@);
        }
        return Ok(Expresion::Llamada(Llamada { funcion: nombre, tipo_args, argumentos, span }));
    }
    // funcion(args)

    if cursor.es_actual(&Token::ParenAbre) {
        cursor.avanzar();
        let argumentos = parse_argumentos(cursor)?;
        let span_fin = cursor.span_actual();
        let span = Span::combinar(&span_inicio, &span_fin);
        proof {
            lema_fin_actual(cursor, span_fin);
            lema_lista_desde(ts, gens, i, k, inicios_lista_args(ts, k + 1), argumentos@);
        }
        Ok(Expresion::Llamada(Llamada { funcion: nombre, tipo_args: Vec::new(), argumentos, span }))
    } else {
        Ok(Expresion::Identificador(nombre, span_inicio))
    }
}

/// Parsea `coincidir sujeto { patron => expr, ... }` (comas entre brazos opcionales).
#[verifier::loop_isolation(false)]
#[verifier::spinoff_prover]
#[verifier::rlimit(40)]
fn parse_coincidir(cursor: &mut ParserCursor) -> (r: Result<Expresion, ErrorSintaxis>)
    requires
        old(cursor).valido(),
        old(cursor).actual_es(Token::Coincidir),
    ensures
        avance(old(cursor), final(cursor), r),
        r matches Ok(e) ==> e is Coincidir,
        lee(old(cursor), final(cursor), r, fin_coincidir(old(cursor).toks(), old(cursor).pos())),
        r matches Ok(e) ==> coincidir_arbol(old(cursor).toks(), old(cursor).gens(), old(cursor).pos(), e),
    decreases old(cursor).restantes(), 4nat,
{
    let ghost ts = cursor.toks();
    let ghost gens = cursor.gens();
    let ghost i = cursor.pos();
    let span_inicio = cursor.span_actual();
    cursor.avanzar();  // coincidir
    let sujeto = parse_expresion(cursor)?;
    let ghost a = cursor.pos();
    cursor.esperar(Token::LlaveAbre)?;
    let mut brazos: Vec<BrazoMatch> = Vec::new();
    let ghost mut previos: Seq<(int, int)> = Seq::empty();
    assert(brazos_pos(ts, a + 1) =~= previos + brazos_pos(ts, a + 1));
    while !cursor.es_actual(&Token::LlaveCierra) && !cursor.esta_vacio()
        invariant
            conserva(old(cursor), cursor),
            old(cursor).pos() < cursor.pos(),
            fin_coincidir(cursor.toks(), old(cursor).pos()) == match fin_brazos(cursor.toks(), cursor.pos()) {
                Some(j) => if hay_token(cursor.toks(), j, Token::LlaveCierra) {
                    Some(j + 1)
                } else {
                    None
                },
                None => None,
            },
            ts == cursor.toks(),
            gens == cursor.gens(),
            i < a < cursor.pos(),
            brazos_pos(ts, a + 1) == previos + brazos_pos(ts, cursor.pos()),
            brazos@.len() == previos.len(),
            forall|m: int| 0 <= m < previos.len() ==> i < #[trigger] previos[m].0 && previos[m].0 < previos[m].1 <= ts.len(),
            forall|m: int|
                0 <= m < previos.len() ==> {
                    let b = #[trigger] brazos@[m];
                    &&& patron_arbol(ts, previos[m].0, b.patron)
                    &&& expr_arbol(ts, gens, previos[m].1, b.cuerpo)
                    &&& b.span == span_union(ts[previos[m].0].span, b.cuerpo.span_de())
                },
        decreases cursor.restantes(),
    {
        let ghost k = cursor.pos();
        let span_brazo_inicio = cursor.span_actual();
        let patron = parse_patron(cursor)?;
        let ghost pp = cursor.pos();
        cursor.esperar(Token::FlechaGruesa)?;  // =>
        let cuerpo = parse_expresion(cursor)?;
        let span_brazo = Span::combinar(&span_brazo_inicio, cuerpo.span());
        brazos.push(BrazoMatch { patron, cuerpo, span: span_brazo });
        if cursor.es_actual(&Token::Coma) {
            cursor.avanzar();
        }
        proof {
            let par = (k, pp + 1);
            assert(i < k < pp + 1 <= ts.len());
            assert(brazos_pos(ts, k) == seq![par] + brazos_pos(ts, cursor.pos()));
            assert(previos + (seq![par] + brazos_pos(ts, cursor.pos())) =~= previos.push(par) + brazos_pos(ts, cursor.pos()));
            previos = previos.push(par);
        }
    }
    assert(brazos_pos(ts, cursor.pos()) =~= Seq::<(int, int)>::empty());
    assert(brazos_pos(ts, a + 1) =~= previos);
    cursor.esperar(Token::LlaveCierra)?;
    let span_fin = cursor.span_actual();
    let span = Span::combinar(&span_inicio, &span_fin);
    proof {
        lema_fin_actual(cursor, span_fin);
    }
    Ok(Expresion::Coincidir(Box::new(sujeto), brazos, span))
}

/// Parsea la cola `.Variante` o `.Variante(binding)` de un patrón de variante de enum, con
/// el cursor en el `.`; `nombre` es el enum y `span` el de su token.
fn parse_variante_patron(cursor: &mut ParserCursor, nombre: String, span: Span) -> (r: Result<PatronMatch, ErrorSintaxis>)
    requires
        old(cursor).valido(),
        old(cursor).actual_es(Token::Punto),
    ensures
        conserva(old(cursor), final(cursor)),
        r is Ok ==> old(cursor).pos() < final(cursor).pos(),
        lee(old(cursor), final(cursor), r, fin_variante_patron(old(cursor).toks(), old(cursor).pos())),
        r matches Ok(p) ==> {
            let ts = old(cursor).toks();
            let d = old(cursor).pos();
            &&& p matches PatronMatch::VarianteEnum(e, v, b, s)
            &&& e == nombre
            &&& v == nombre_en(ts, d + 1)
            &&& b == if hay_token(ts, d + 2, Token::ParenAbre) {
                Some(nombre_en(ts, d + 3))
            } else {
                None
            }
            &&& s == span_hasta(span, ts, final(cursor).pos())
        },
{
    cursor.avanzar();  // .
    let variante = match cursor.actual() {
        Some(Token::Identificador(v)) => {
            let v = v.clone();
            cursor.avanzar();
            v
        },
        _ => {
            let span = cursor.span_actual();
            return Err(
                ErrorSintaxis::identificador_esperado(span, "nombre de variante después de '.'"),
            );
        },
    };
    // Binding opcional: Variante(x)
    let binding = if cursor.es_actual(&Token::ParenAbre) {
        cursor.avanzar();  // (
        let b = match cursor.actual() {
            Some(Token::Identificador(b)) => {
                let b = b.clone();
                cursor.avanzar();
                b
            },
            _ => {
                let span = cursor.span_actual();
                return Err(ErrorSintaxis::identificador_esperado(span, "nombre de binding en patrón"));
            },
        };
        cursor.esperar(Token::ParenCierra)?;
        Some(b)
    } else {
        None
    };
    let span_fin = cursor.span_actual();
    let span_total = Span::combinar(&span, &span_fin);
    proof {
        lema_fin_actual(cursor, span_fin);
    }
    Ok(PatronMatch::VarianteEnum(nombre, variante, binding, span_total))
}

/// Parsea un patrón de match: `_`, un literal entero, `Enum.Variante` o
/// `Enum.Variante(binding)` (también `Resultado.Exito(x)`); un identificador suelto es un
/// comodín.
fn parse_patron(cursor: &mut ParserCursor) -> (r: Result<PatronMatch, ErrorSintaxis>)
    requires
        old(cursor).valido(),
    ensures
        avance(old(cursor), final(cursor), r),
        match old(cursor).actual_spec() {
            Some(Token::EnteroLiteral(Some(n))) => final(cursor).pos() == old(cursor).pos() + 1
                && r == Ok::<PatronMatch, ErrorSintaxis>(
                PatronMatch::Literal(
                    Literal::Entero(n, old(cursor).toks()[old(cursor).pos()].span),
                ),
            ),
            Some(Token::Identificador(n)) => n@ == "_"@ ==> final(cursor).pos() == old(cursor).pos() + 1 && r == Ok::<PatronMatch, ErrorSintaxis>(
                PatronMatch::Comodin(old(cursor).toks()[old(cursor).pos()].span),
            ),
            Some(Token::Resultado) => !old(cursor).siguiente_es(1, Token::Punto) ==> error_de_patron(old(cursor), final(cursor), r),
            _ => error_de_patron(old(cursor), final(cursor), r),
        },
        lee(old(cursor), final(cursor), r, fin_patron(old(cursor).toks(), old(cursor).pos())),
        r matches Ok(p) ==> patron_arbol(old(cursor).toks(), old(cursor).pos(), p),
{
    let ghost ts = cursor.toks();
    let span = cursor.span_actual();
    match cursor.actual() {
        Some(Token::EnteroLiteral(Some(val))) => {
            let val = *val;
            cursor.avanzar();
            Ok(PatronMatch::Literal(Literal::Entero(val, span)))
        },
        Some(Token::Resultado) => {
            let sigue_punto = match cursor.peek(1) {
                Some(Token::Punto) => true,
                _ => false,
            };
            if !sigue_punto {
                return Err(
                    ErrorSintaxis::nuevo(
                        16,
                        span,
                        texto("esperaba patrón de match (literal, Enum.Variante, o _)"),
                    ),
                );
            }
            cursor.avanzar();
            parse_variante_patron(cursor, texto("Resultado"), span)
        },
        Some(Token::Identificador(n)) => {
            if es_texto(n, "_") {
                cursor.avanzar();
                return Ok(PatronMatch::Comodin(span));
            }
            let nombre = n.clone();
            cursor.avanzar();
            if cursor.es_actual(&Token::Punto) {
                parse_variante_patron(cursor, nombre, span)
            } else {
                // Un identificador suelto captura cualquier valor: comodín
                Ok(PatronMatch::Comodin(span))
            }
        },
        _ => Err(
            ErrorSintaxis::nuevo(
                16,
                span,
                texto("esperaba patrón de match (literal, Enum.Variante, o _)"),
            ),
        ),
    }
}

/// `r` es el error «esperaba patrón de match» en el token actual de `antes`, sin avanzar.
pub open spec fn error_de_patron(antes: &ParserCursor, despues: &ParserCursor, r: Result<PatronMatch, ErrorSintaxis>) -> bool {
    r matches Err(e) && despues.pos() == antes.pos() && antes.span_actual_es(e.error.span) && e.es(
        16,
        e.error.span,
        "esperaba patrón de match (literal, Enum.Variante, o _)"@,
    )
}

} // verus!
