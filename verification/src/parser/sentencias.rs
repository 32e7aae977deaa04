use vstd::prelude::*;
use crate::ast::{
    Asignacion, Bloque, BucleMientras, BuclePara, Condicional, DeclaracionVariable, Expresion,
    Literal, Lugar, ModoVerbal, OperadorBinario, RamaSeleccionar, Seleccionar, Sentencia,
};
use crate::lexer::{Token, TokenConSpan};
use crate::span::Span;
use crate::texto::{texto, es_texto};
use crate::parser::{ParserCursor, avance, conserva, token_de};
use crate::parser::errores::ErrorSintaxis;
use crate::parser::tipos::{parse_articulo, parse_tipo, articulo_de};
use crate::parser::expresiones::parse_expresion;
use crate::parser::sintaxis::{
    lee, fin_sentencia, fin_sentencias, fin_bloque, fin_expresion, fin_expresion_sentencia,
    fin_condicional, fin_asignacion, fin_declaracion_variable, fin_campos_struct, fin_ramas,
    fin_condicion, fin_inicializacion_struct,
    hay_identificador, identificador_es,
};
use crate::parser::tipos::hay_token;
use crate::parser::declaraciones::{span_entre, nombre_en};
use crate::parser::arbol::{
    expr_arbol, sentencia_arbol, bloque_arbol, sentencias_en, condicion_arbol, condicional_arbol,
    seleccionar_arbol, inicializacion_arbol, declaracion_variable_arbol, asignacion_arbol,
    inicios_sentencias, ramas_pos, campos_struct_pos, lema_fin_actual, lema_sentencias_desde,
    span_hasta, span_union, lema_bloque, lema_de_bloque,
};

verus! {

/// Posición siguiente al `]` que cierra los corchetes abiertos, buscando desde `j` con
/// `prof` corchetes abiertos; `None` si antes se acaban los tokens.
pub open spec fn cierre_corchete(ts: Seq<TokenConSpan>, j: int, prof: nat) -> Option<int>
    decreases ts.len() - j,
{
    if j < 0 || j >= ts.len() || prof == 0 {
        None
    } else {
        match ts[j].token {
            Token::CorcheteAbre => cierre_corchete(ts, j + 1, prof + 1),
            Token::CorcheteCierra => if prof == 1 {
                Some(j + 1)
            } else {
                cierre_corchete(ts, j + 1, (prof - 1) as nat)
            },
            _ => cierre_corchete(ts, j + 1, prof),
        }
    }
}

/// En la posición `p` empieza una asignación: un identificador seguido de `=`, de
/// `[...] =` (corchetes balanceados) o de `.campo =`.
pub open spec fn asignacion_en(ts: Seq<TokenConSpan>, p: int) -> bool {
    &&& token_de(ts, p) matches Some(Token::Identificador(_))
    &&& match token_de(ts, p + 1) {
        Some(Token::CorcheteAbre) => match cierre_corchete(ts, p + 2, 1) {
            Some(k) => token_de(ts, k) matches Some(Token::Igual),
            None => false,
        },
        Some(Token::Punto) => token_de(ts, p + 2) matches Some(Token::Identificador(_))
            && token_de(ts, p + 3) matches Some(Token::Igual),
        _ => token_de(ts, p + 1) matches Some(Token::Igual),
    }
}

/// Parsea una sentencia.
pub fn parse_sentencia(cursor: &mut ParserCursor) -> (r: Result<Sentencia, ErrorSintaxis>)
    requires
        old(cursor).valido(),
    ensures
        avance(old(cursor), final(cursor), r),
        r matches Ok(s) ==> match old(cursor).actual_spec() {
            Some(Token::Retornar) => s is Retornar,
            Some(Token::Si) => s is Condicional,
            Some(Token::Mientras) => s is BucleMientras,
            Some(Token::Para) => s is BuclePara,
            Some(Token::Region) => s is Region,
            Some(Token::Seleccionar) => s is Seleccionar,
            Some(Token::ConExecutor) => s is ConExecutor,
            Some(t) => if articulo_de(t) is Some {
                s is DeclaracionVariable
            } else if asignacion_en(old(cursor).toks(), old(cursor).pos()) {
                s is Asignacion
            } else {
                s is Expresion
            },
            None => false,
        },
        lee(old(cursor), final(cursor), r, fin_sentencia(old(cursor).toks(), old(cursor).pos())),
        r matches Ok(s) ==> sentencia_arbol(old(cursor).toks(), old(cursor).gens(), old(cursor).pos(), s),
    decreases old(cursor).restantes(), 9nat,
{
    let ghost ts = cursor.toks();
    let ghost gens = cursor.gens();
    let ghost i = cursor.pos();
    match cursor.actual() {
        Some(Token::Retornar) => parse_retornar(cursor),
        Some(Token::Si) => parse_condicional(cursor),
        Some(Token::Mientras) => parse_bucle_mientras(cursor),
        Some(Token::Para) => parse_bucle_para(cursor),
        Some(Token::Region) => parse_region(cursor),
        Some(Token::Seleccionar) => parse_seleccionar(cursor),
        Some(Token::ConExecutor) => parse_con_executor(cursor),
        Some(Token::ArticuloEl) | Some(Token::ArticuloLa) | Some(Token::ArticuloUn) | Some(
            Token::ArticuloLos,
        ) | Some(Token::ArticuloLas) => parse_declaracion_variable(cursor),
        _ => {
            if es_asignacion(cursor) {
                parse_asignacion(cursor)
            } else {
                let expr = parse_expresion(cursor)?;
                cursor.esperar(Token::PuntoYComa)?;
                Ok(Sentencia::Expresion(expr))
            }
        },
    }
}

/// Verifica si el token actual es un identificador seguido de `=`, `[...] =` o `.campo =`.
fn es_asignacion(cursor: &ParserCursor) -> (r: bool)
    requires
        cursor.valido(),
    ensures
        r == asignacion_en(cursor.toks(), cursor.pos()),
{
    match cursor.actual() {
        Some(Token::Identificador(_)) => {},
        _ => {
            return false;
        },
    }
    let mut offset: usize = 1;
    match cursor.peek(1) {
        Some(Token::CorcheteAbre) => {
            offset = 2;
            let mut profundidad: usize = 1;
            while profundidad > 0
                invariant
                    cursor.valido(),
                    cursor.pos() + 1 < cursor.toks().len(),
                    token_de(cursor.toks(), cursor.pos()) matches Some(Token::Identificador(_)),
                    token_de(cursor.toks(), cursor.pos() + 1) matches Some(Token::CorcheteAbre),
                    2 <= offset,
                    cursor.pos() + offset <= cursor.toks().len(),
                    profundidad <= offset,
                    profundidad > 0 ==> cierre_corchete(
                        cursor.toks(),
                        cursor.pos() + offset,
                        profundidad as nat,
                    ) == cierre_corchete(cursor.toks(), cursor.pos() + 2, 1),
                    profundidad == 0 ==> cierre_corchete(cursor.toks(), cursor.pos() + 2, 1)
                        == Some(cursor.pos() + offset),
                decreases cursor.toks().len() - (cursor.pos() + offset), profundidad,
            {
                match cursor.peek(offset) {
                    Some(Token::CorcheteAbre) => {
                        profundidad = profundidad + 1;
                    },
                    Some(Token::CorcheteCierra) => {
                        profundidad = profundidad - 1;
                    },
                    Some(_) => {},
                    None => {
                        return false;
                    },
                }
                offset = offset + 1;
            }
        },
        Some(Token::Punto) => {
            match cursor.peek(2) {
                Some(Token::Identificador(_)) => {
                    offset = 3;
                },
                _ => {
                    return false;
                },
            }
        },
        _ => {},
    }
    match cursor.peek(offset) {
        Some(Token::Igual) => true,
        _ => false,
    }
}

/// Parsea una asignación: `x = expr;`, `x[i] = expr;` o `x.campo = expr;`.
fn parse_asignacion(cursor: &mut ParserCursor) -> (r: Result<Sentencia, ErrorSintaxis>)
    requires
        old(cursor).valido(),
    ensures
        avance(old(cursor), final(cursor), r),
        r matches Ok(s) ==> s is Asignacion,
        lee(old(cursor), final(cursor), r, fin_asignacion(old(cursor).toks(), old(cursor).pos())),
        r matches Ok(s) ==> asignacion_arbol(
            old(cursor).toks(),
            old(cursor).gens(),
            old(cursor).pos(),
            final(cursor).pos(),
            s,
        ),
    decreases old(cursor).restantes(), 8nat,
{
    let ghost ts = cursor.toks();
    let span_inicio = cursor.span_actual();
    let nombre = match cursor.actual() {
        Some(Token::Identificador(n)) => {
            let n = n.clone();
            cursor.avanzar();
            n
        },
        _ => {
            let span = cursor.span_actual();
            return Err(ErrorSintaxis::identificador_esperado(span, "asignación"));
        },
    };
    let lugar = if cursor.es_actual(&Token::CorcheteAbre) {
        cursor.avanzar();  // [
        let indice = parse_expresion(cursor)?;
        cursor.esperar(Token::CorcheteCierra)?;
        let base = Expresion::Identificador(nombre, span_inicio.copia());
        Lugar::Array(Box::new(base), Box::new(indice))
    } else if cursor.es_actual(&Token::Punto) {
        cursor.avanzar();  // .
        let nombre_campo = match cursor.actual() {
            Some(Token::Identificador(n)) => {
                let n = n.clone();
                cursor.avanzar();
                n
            },
            _ => {
                let span = cursor.span_actual();
                return Err(
                    ErrorSintaxis::identificador_esperado(span, "nombre de campo después de '.'"),
                );
            },
        };
        let base = Expresion::Identificador(nombre, span_inicio.copia());
        Lugar::Campo(Box::new(base), nombre_campo)
    } else {
        Lugar::Identificador(nombre)
    };
    cursor.esperar(Token::Igual)?;
    let valor = parse_expresion(cursor)?;
    cursor.esperar(Token::PuntoYComa)?;
    let span_fin = cursor.span_actual();
    let span = Span::combinar(&span_inicio, &span_fin);
    proof {
        lema_fin_actual(cursor, span_fin);
    }
    Ok(Sentencia::Asignacion(Asignacion { lugar, valor, span }))
}

/// Parsea un retorno: `retornar [expresion];`
fn parse_retornar(cursor: &mut ParserCursor) -> (r: Result<Sentencia, ErrorSintaxis>)
    requires
        old(cursor).valido(),
    ensures
        avance(old(cursor), final(cursor), r),
        r matches Ok(s) ==> s is Retornar,
        old(cursor).actual_spec() == Some(Token::Retornar) ==> lee(old(cursor), final(cursor), r, fin_sentencia(old(cursor).toks(), old(cursor).pos())),
        r matches Ok(s) ==> sentencia_arbol(old(cursor).toks(), old(cursor).gens(), old(cursor).pos(), s),
    decreases old(cursor).restantes(), 8nat,
{
    let span_inicio = cursor.span_actual();
    cursor.esperar(Token::Retornar)?;
    let expr = if !cursor.es_actual(&Token::PuntoYComa) {
        let e = parse_expresion(cursor)?;
        Some(e)
    } else {
        None
    };
    cursor.esperar(Token::PuntoYComa)?;
    let span_fin = cursor.span_actual();
    let span = Span::combinar(&span_inicio, &span_fin);
    proof {
        lema_fin_actual(cursor, span_fin);
    }
    Ok(Sentencia::Retornar(expr, span))
}

/// Parsea la condición de un `si` tras su primera expresión `expr_izq`: `fuese` opcional y,
/// después, `es Enum.Variante [como x]`, `es expresión`, `está [expresión]` o nada; devuelve
/// la condición y el modo verbal.
#[verifier::spinoff_prover]
#[verifier::rlimit(80)]
fn parse_condicion(cursor: &mut ParserCursor, expr_izq: Expresion, Ghost(s): Ghost<int>) -> (r: Result<(Expresion, ModoVerbal), ErrorSintaxis>)
    requires
        old(cursor).valido(),
        0 <= s < old(cursor).pos(),
        expr_arbol(old(cursor).toks(), old(cursor).gens(), s, expr_izq),
    ensures
        conserva(old(cursor), final(cursor)),
        lee(old(cursor), final(cursor), r, fin_condicion(old(cursor).toks(), old(cursor).pos())),
        r matches Ok((c, m)) ==> condicion_arbol(old(cursor).toks(), old(cursor).gens(), s, old(cursor).pos(), c, m),
    decreases old(cursor).restantes(), 8nat,
{
    let ghost ts = cursor.toks();
    let mut modo = ModoVerbal::Indicativo;
    if cursor.es_actual(&Token::Fuese) {
        cursor.avanzar();
        modo = ModoVerbal::Subjuntivo;
    }
    let condicion = if cursor.es_actual(&Token::Es) {
        cursor.avanzar();
        // Patrón de enum: Estado.Activo [como variable] (también Resultado.Exito)
        let enum_nombre: Option<String> = match cursor.actual() {
            Some(Token::Identificador(n)) => Some(n.clone()),
            Some(Token::Resultado) => Some(texto("Resultado")),
            _ => None,
        };
        let variante: Option<String> = match (cursor.peek(1), cursor.peek(2)) {
            (Some(Token::Punto), Some(Token::Identificador(v))) => Some(v.clone()),
            _ => None,
        };
        match (enum_nombre, variante) {
            (Some(enum_nombre), Some(variante_nombre)) => {
                cursor.avanzar();  // enum
                cursor.avanzar();  // .
                cursor.avanzar();  // variante
                let binding = if cursor.es_actual(&Token::Como) {
                    cursor.avanzar();  // como
                    match cursor.actual() {
                        Some(Token::Identificador(n)) => {
                            let n = n.clone();
                            cursor.avanzar();
                            Some(n)
                        },
                        _ => {
                            let span = cursor.span_actual();
                            return Err(
                                ErrorSintaxis::identificador_esperado(
                                    span,
                                    "nombre de variable después de 'como'",
                                ),
                            );
                        },
                    }
                } else {
                    None
                };
                let span_fin = cursor.span_actual();
                let span = Span::combinar(expr_izq.span(), &span_fin);
                proof {
                    lema_fin_actual(cursor, span_fin);
                }
                Expresion::EsVariante(
                    Box::new(expr_izq),
                    enum_nombre,
                    variante_nombre,
                    binding,
                    span,
                )
            },
            _ => {
                let expr_der = parse_expresion(cursor)?;
                let span = Span::combinar(expr_izq.span(), expr_der.span());
                Expresion::Binaria(
                    Box::new(expr_izq),
                    OperadorBinario::Igual,
                    Box::new(expr_der),
                    span,
                )
            },
        }
    } else if cursor.es_actual(&Token::Esta) {
        cursor.avanzar();
        modo = ModoVerbal::Estativo;
        if cursor.es_actual(&Token::LlaveAbre) {
            // `está` sin lado derecho: comprobación de verdad del valor
            expr_izq
        } else {
            let expr_der = parse_expresion(cursor)?;
            let span = Span::combinar(expr_izq.span(), expr_der.span());
            Expresion::Binaria(Box::new(expr_izq), OperadorBinario::Igual, Box::new(expr_der), span)
        }
    } else {
        expr_izq
    };
    Ok((condicion, modo))
}

/// Parsea un condicional con ser/estar y subjuntivo:
/// `si expr { }`, `si expr es expr { }`, `si expr es Enum.Variante [como x] { }`,
/// `si expr está [expr] { }`, `si expr fuese ... { }`, con `sino { }` opcional.
#[verifier::spinoff_prover]
#[verifier::rlimit(30)]
fn parse_condicional(cursor: &mut ParserCursor) -> (r: Result<Sentencia, ErrorSintaxis>)
    requires
        old(cursor).valido(),
    ensures
        avance(old(cursor), final(cursor), r),
        r matches Ok(s) ==> s is Condicional,
        lee(old(cursor), final(cursor), r, fin_condicional(old(cursor).toks(), old(cursor).pos())),
        r matches Ok(s) ==> condicional_arbol(
            old(cursor).toks(),
            old(cursor).gens(),
            old(cursor).pos(),
            final(cursor).pos(),
            s,
        ),
    decreases old(cursor).restantes(), 8nat,
{
    let ghost i = cursor.pos();
    let span_inicio = cursor.span_actual();
    cursor.esperar(Token::Si)?;
    let expr_izq = parse_expresion(cursor)?;
    let (condicion, modo) = parse_condicion(cursor, expr_izq, Ghost(i + 1))?;
    let bloque_entonces = parse_bloque(cursor)?;
    let bloque_sino = if cursor.es_actual(&Token::Sino) {
        cursor.avanzar();
        let b = parse_bloque(cursor)?;
        Some(b)
    } else {
        None
    };
    let span_fin = cursor.span_actual();
    let span = Span::combinar(&span_inicio, &span_fin);
    proof {
        lema_fin_actual(cursor, span_fin);
    }
    Ok(Sentencia::Condicional(Condicional { condicion, bloque_entonces, bloque_sino, modo, span }))
}

/// Parsea un bucle mientras: `mientras expresion { bloque }`
fn parse_bucle_mientras(cursor: &mut ParserCursor) -> (r: Result<Sentencia, ErrorSintaxis>)
    requires
        old(cursor).valido(),
    ensures
        avance(old(cursor), final(cursor), r),
        r matches Ok(s) ==> s is BucleMientras,
        old(cursor).actual_spec() == Some(Token::Mientras) ==> lee(old(cursor), final(cursor), r, fin_sentencia(old(cursor).toks(), old(cursor).pos())),
        r matches Ok(s) ==> sentencia_arbol(old(cursor).toks(), old(cursor).gens(), old(cursor).pos(), s),
    decreases old(cursor).restantes(), 8nat,
{
    let span_inicio = cursor.span_actual();
    cursor.esperar(Token::Mientras)?;
    let condicion = parse_expresion(cursor)?;
    let bloque = parse_bloque(cursor)?;
    let span_fin = cursor.span_actual();
    let span = Span::combinar(&span_inicio, &span_fin);
    proof {
        lema_fin_actual(cursor, span_fin);
    }
    Ok(Sentencia::BucleMientras(BucleMientras { condicion, bloque, span }))
}

/// Parsea un bucle para: `para identificador en expresion { bloque }`
fn parse_bucle_para(cursor: &mut ParserCursor) -> (r: Result<Sentencia, ErrorSintaxis>)
    requires
        old(cursor).valido(),
    ensures
        avance(old(cursor), final(cursor), r),
        r matches Ok(s) ==> s is BuclePara,
        old(cursor).actual_spec() == Some(Token::Para) ==> lee(old(cursor), final(cursor), r, fin_sentencia(old(cursor).toks(), old(cursor).pos())),
        r matches Ok(s) ==> sentencia_arbol(old(cursor).toks(), old(cursor).gens(), old(cursor).pos(), s),
    decreases old(cursor).restantes(), 8nat,
{
    let span_inicio = cursor.span_actual();
    cursor.esperar(Token::Para)?;
    let variable = match cursor.actual() {
        Some(Token::Identificador(n)) => {
            let n = n.clone();
            cursor.avanzar();
            n
        },
        _ => {
            let span = cursor.span_actual();
            return Err(ErrorSintaxis::identificador_esperado(span, "variable de iteración"));
        },
    };
    cursor.esperar(Token::En)?;
    let iterable = parse_expresion(cursor)?;
    let bloque = parse_bloque(cursor)?;
    let span_fin = cursor.span_actual();
    let span = Span::combinar(&span_inicio, &span_fin);
    proof {
        lema_fin_actual(cursor, span_fin);
    }
    Ok(Sentencia::BuclePara(BuclePara { variable, iterable, bloque, span }))
}

/// Parsea una inicialización de struct `Nombre { campo: valor, ... }`; el cursor está en
/// `Nombre`, que se recibe ya leído.
#[verifier::spinoff_prover]
#[verifier::rlimit(30)]
fn parse_inicializacion_struct(cursor: &mut ParserCursor, nombre_struct: String) -> (r: Result<Expresion, ErrorSintaxis>)
    requires
        old(cursor).valido(),
        hay_identificador(old(cursor).toks(), old(cursor).pos()),
        hay_token(old(cursor).toks(), old(cursor).pos() + 1, Token::LlaveAbre),
        nombre_struct == nombre_en(old(cursor).toks(), old(cursor).pos()),
    ensures
        conserva(old(cursor), final(cursor)),
        lee(old(cursor), final(cursor), r, fin_inicializacion_struct(old(cursor).toks(), old(cursor).pos())),
        r matches Ok(e) ==> inicializacion_arbol(old(cursor).toks(), old(cursor).gens(), old(cursor).pos(), e),
    decreases old(cursor).restantes(), 8nat,
{
    let ghost ts = cursor.toks();
    let ghost gens = cursor.gens();
    let ghost v = cursor.pos();
    let span_struct = cursor.span_actual();
    cursor.avanzar();  // Nombre
    cursor.avanzar();  // {
    let mut campos: Vec<(String, Expresion)> = Vec::new();
    let ghost inicio_campos = cursor.pos();
    let ghost mut previos: Seq<int> = Seq::empty();
    assert(campos_struct_pos(ts, v + 2) =~= previos + campos_struct_pos(ts, v + 2));
    while !cursor.es_actual(&Token::LlaveCierra) && !cursor.esta_vacio()
        invariant_except_break
            fin_campos_struct(cursor.toks(), cursor.pos()) == fin_campos_struct(cursor.toks(), inicio_campos),
            campos_struct_pos(ts, v + 2) == previos + campos_struct_pos(ts, cursor.pos()),
        invariant
            conserva(old(cursor), cursor),
            old(cursor).pos() < cursor.pos(),
            inicio_campos == old(cursor).pos() + 2,
            hay_token(cursor.toks(), old(cursor).pos() + 1, Token::LlaveAbre),
            ts == cursor.toks(),
            gens == cursor.gens(),
            v == old(cursor).pos(),
            campos@.len() == previos.len(),
            forall|m: int| 0 <= m < previos.len() ==> v < #[trigger] previos[m] && previos[m] + 2 <= ts.len(),
            forall|m: int|
                0 <= m < previos.len() ==> (#[trigger] campos@[m]).0 == nombre_en(ts, previos[m])
                    && expr_arbol(ts, gens, previos[m] + 2, campos@[m].1),
        ensures
            conserva(old(cursor), cursor),
            old(cursor).pos() < cursor.pos(),
            fin_campos_struct(cursor.toks(), inicio_campos) == Some(cursor.pos()),
            campos_struct_pos(ts, v + 2) == previos,
            campos@.len() == previos.len(),
            forall|m: int| 0 <= m < previos.len() ==> v < #[trigger] previos[m] && previos[m] + 2 <= ts.len(),
            forall|m: int|
                0 <= m < previos.len() ==> (#[trigger] campos@[m]).0 == nombre_en(ts, previos[m])
                    && expr_arbol(ts, gens, previos[m] + 2, campos@[m].1),
        decreases cursor.restantes(),
    {
        let ghost k = cursor.pos();
        let nombre_campo = match cursor.actual() {
            Some(Token::Identificador(cn)) => {
                let cn = cn.clone();
                cursor.avanzar();
                cn
            },
            _ => {
                let span = cursor.span_actual();
                return Err(
                    ErrorSintaxis::identificador_esperado(
                        span,
                        "nombre de campo en inicialización de struct",
                    ),
                );
            },
        };
        cursor.esperar(Token::DosPuntos)?;
        let val = parse_expresion(cursor)?;
        campos.push((nombre_campo, val));
        if cursor.es_actual(&Token::Coma) {
            cursor.avanzar();
            proof {
                assert(campos_struct_pos(ts, k) == seq![k] + campos_struct_pos(ts, cursor.pos()));
                assert(previos + (seq![k] + campos_struct_pos(ts, cursor.pos())) =~= previos.push(k)
                    + campos_struct_pos(ts, cursor.pos()));
                previos = previos.push(k);
            }
        } else {
            proof {
                assert(campos_struct_pos(ts, k) == seq![k]);
                assert(previos + seq![k] =~= previos.push(k));
                previos = previos.push(k);
            }
            break ;
        }
    }
    cursor.esperar(Token::LlaveCierra)?;
    let span_fin = cursor.span_actual();
    let span = Span::combinar(&span_struct, &span_fin);
    proof {
        lema_fin_actual(cursor, span_fin);
    }
    Ok(Expresion::InicializacionStruct(nombre_struct, campos, span))
}

/// Parsea una declaración de variable: `articulo nombre [: tipo] = valor;`, donde el valor
/// puede ser una inicialización de struct `Nombre { campo: valor, ... }`.
fn parse_declaracion_variable(cursor: &mut ParserCursor) -> (r: Result<Sentencia, ErrorSintaxis>)
    requires
        old(cursor).valido(),
    ensures
        avance(old(cursor), final(cursor), r),
        r matches Ok(s) ==> s is DeclaracionVariable,
        lee(old(cursor), final(cursor), r, fin_declaracion_variable(old(cursor).toks(), old(cursor).pos())),
        r matches Ok(s) ==> declaracion_variable_arbol(
            old(cursor).toks(),
            old(cursor).gens(),
            old(cursor).pos(),
            final(cursor).pos(),
            s,
        ),
    decreases old(cursor).restantes(), 8nat,
{
    let span_inicio = cursor.span_actual();
    let articulo = parse_articulo(cursor)?;
    let nombre = match cursor.actual() {
        Some(Token::Identificador(n)) => {
            let n = n.clone();
            cursor.avanzar();
            n
        },
        _ => {
            let span = cursor.span_actual();
            return Err(ErrorSintaxis::identificador_esperado(span, "variable"));
        },
    };
    let tipo = if cursor.es_actual(&Token::DosPuntos) {
        cursor.avanzar();
        let t = parse_tipo(cursor)?;
        Some(t)
    } else {
        None
    };
    cursor.esperar(Token::Igual)?;
    // Inicialización de struct: Nombre { campo: valor, ... }
    let nombre_struct: Option<String> = match cursor.actual() {
        Some(Token::Identificador(n)) => match cursor.peek(1) {
            Some(Token::LlaveAbre) => Some(n.clone()),
            _ => None,
        },
        _ => None,
    };
    let valor = match nombre_struct {
        Some(nombre_struct) => parse_inicializacion_struct(cursor, nombre_struct)?,
        None => parse_expresion(cursor)?,
    };
    cursor.esperar(Token::PuntoYComa)?;
    let span_fin = cursor.span_actual();
    let span = Span::combinar(&span_inicio, &span_fin);
    proof {
        lema_fin_actual(cursor, span_fin);
    }
    Ok(Sentencia::DeclaracionVariable(DeclaracionVariable { articulo, nombre, tipo, valor, span }))
}

/// Parsea un bloque: `{ sentencias }`
#[verifier::loop_isolation(false)]
pub fn parse_bloque(cursor: &mut ParserCursor) -> (r: Result<Bloque, ErrorSintaxis>)
    requires
        old(cursor).valido(),
    ensures
        avance(old(cursor), final(cursor), r),
        r is Ok ==> old(cursor).actual_es(Token::LlaveAbre) && final(cursor).toks()[final(cursor).pos() - 1].token is LlaveCierra,
        !old(cursor).actual_es(Token::LlaveAbre) ==> r is Err && final(cursor).pos() == old(cursor).pos(),
        lee(old(cursor), final(cursor), r, fin_bloque(old(cursor).toks(), old(cursor).pos())),
        r matches Ok(b) ==> b.span == span_entre(old(cursor).toks(), old(cursor).pos(), final(cursor).pos()),
        r matches Ok(b) ==> bloque_arbol(old(cursor).toks(), old(cursor).gens(), old(cursor).pos(), b),
    decreases old(cursor).restantes(), 4nat,
{
    let ghost ts = cursor.toks();
    let ghost gens = cursor.gens();
    let ghost i = cursor.pos();
    let span_inicio = cursor.span_actual();
    cursor.esperar(Token::LlaveAbre)?;
    let mut sentencias: Vec<crate::ast::Sentencia> = Vec::new();
    let ghost mut previos: Seq<int> = Seq::empty();
    assert(inicios_sentencias(ts, i + 1) =~= previos + inicios_sentencias(ts, i + 1));
    while !cursor.es_actual(&Token::LlaveCierra) && !cursor.esta_vacio()
        invariant
            conserva(old(cursor), cursor),
            old(cursor).pos() < cursor.pos(),
            old(cursor).actual_es(Token::LlaveAbre),
            fin_sentencias(cursor.toks(), cursor.pos()) == fin_sentencias(cursor.toks(), old(cursor).pos() + 1),
            ts == cursor.toks(),
            gens == cursor.gens(),
            i == old(cursor).pos(),
            inicios_sentencias(ts, i + 1) == previos + inicios_sentencias(ts, cursor.pos()),
            sentencias@.len() == previos.len(),
            forall|m: int| 0 <= m < previos.len() ==> i < #[trigger] previos[m] < cursor.pos(),
            forall|m: int| 0 <= m < previos.len() ==> sentencia_arbol(ts, gens, previos[m], #[trigger] sentencias@[m]),
        decreases cursor.restantes(),
    {
        let ghost k = cursor.pos();
        let s = parse_sentencia(cursor)?;
        sentencias.push(s);
        proof {
            assert(inicios_sentencias(ts, k) == seq![k] + inicios_sentencias(ts, cursor.pos()));
            assert(previos + (seq![k] + inicios_sentencias(ts, cursor.pos())) =~= previos.push(k)
                + inicios_sentencias(ts, cursor.pos()));
            previos = previos.push(k);
        }
    }
    assert(inicios_sentencias(ts, cursor.pos()) =~= Seq::<int>::empty());
    assert(inicios_sentencias(ts, i + 1) =~= previos);
    cursor.esperar(Token::LlaveCierra)?;
    let span_fin = cursor.span_actual();
    let span = Span::combinar(&span_inicio, &span_fin);
    let b = Bloque { sentencias, span };
    proof {
        lema_fin_actual(cursor, span_fin);
        lema_bloque(ts, gens, i, cursor.pos(), b);
    }
    Ok(b)
}

/// Parsea una región: `región nombre { sentencias }`
fn parse_region(cursor: &mut ParserCursor) -> (r: Result<Sentencia, ErrorSintaxis>)
    requires
        old(cursor).valido(),
    ensures
        avance(old(cursor), final(cursor), r),
        r matches Ok(s) ==> s is Region,
        old(cursor).actual_spec() == Some(Token::Region) ==> lee(old(cursor), final(cursor), r, fin_sentencia(old(cursor).toks(), old(cursor).pos())),
        r matches Ok(s) ==> sentencia_arbol(old(cursor).toks(), old(cursor).gens(), old(cursor).pos(), s),
    decreases old(cursor).restantes(), 8nat,
{
    let ghost ts = cursor.toks();
    let ghost gens = cursor.gens();
    let ghost i = cursor.pos();
    let span_inicio = cursor.span_actual();
    cursor.esperar(Token::Region)?;
    let nombre = match cursor.actual() {
        Some(Token::Identificador(n)) => {
            let n = n.clone();
            cursor.avanzar();
            n
        },
        _ => {
            let span = cursor.span_actual();
            return Err(
                ErrorSintaxis::nuevo(
                    50,
                    span,
                    texto("Se esperaba un nombre para la región (ej: región mi_región { ... })"),
                ),
            );
        },
    };
    let bloque = parse_bloque(cursor)?;
    let span = Span::combinar(&span_inicio, &bloque.span);
    proof {
        lema_de_bloque(ts, gens, i + 2, bloque);
        lema_sentencias_desde(ts, gens, i, i + 2, inicios_sentencias(ts, i + 3), bloque.sentencias@);
    }
    Ok(Sentencia::Region { nombre, cuerpo: bloque.sentencias, span })
}

/// Parsea `seleccionar { canal como v => { ... }, _ => { ... } }` (comas opcionales).
#[verifier::loop_isolation(false)]
#[verifier::spinoff_prover]
#[verifier::rlimit(40)]
fn parse_seleccionar(cursor: &mut ParserCursor) -> (r: Result<Sentencia, ErrorSintaxis>)
    requires
        old(cursor).valido(),
    ensures
        avance(old(cursor), final(cursor), r),
        r matches Ok(s) ==> s is Seleccionar,
        old(cursor).actual_spec() == Some(Token::Seleccionar) ==> lee(old(cursor), final(cursor), r, fin_sentencia(old(cursor).toks(), old(cursor).pos())),
        r matches Ok(s) ==> seleccionar_arbol(
            old(cursor).toks(),
            old(cursor).gens(),
            old(cursor).pos(),
            final(cursor).pos(),
            s,
        ),
    decreases old(cursor).restantes(), 8nat,
{
    let ghost ts = cursor.toks();
    let ghost gens = cursor.gens();
    let ghost i = cursor.pos();
    let span_inicio = cursor.span_actual();
    cursor.esperar(Token::Seleccionar)?;
    cursor.esperar(Token::LlaveAbre)?;
    let mut ramas: Vec<RamaSeleccionar> = Vec::new();
    let ghost mut previos: Seq<(int, int)> = Seq::empty();
    assert(ramas_pos(ts, i + 2) =~= previos + ramas_pos(ts, i + 2));
    while !cursor.es_actual(&Token::LlaveCierra)
        invariant
            conserva(old(cursor), cursor),
            old(cursor).pos() < cursor.pos(),
            fin_ramas(cursor.toks(), cursor.pos()) == fin_ramas(cursor.toks(), old(cursor).pos() + 2),
            ts == cursor.toks(),
            gens == cursor.gens(),
            i == old(cursor).pos(),
            i + 2 <= cursor.pos(),
            ramas_pos(ts, i + 2) == previos + ramas_pos(ts, cursor.pos()),
            ramas@.len() == previos.len(),
            forall|m: int| 0 <= m < previos.len() ==> i < #[trigger] previos[m].0 && previos[m].0 < previos[m].1 < ts.len(),
            forall|m: int|
                0 <= m < previos.len() ==> {
                    let r = #[trigger] ramas@[m];
                    let (k, a) = previos[m];
                    &&& if identificador_es(ts, k, "_"@) {
                        r.canal == Expresion::Literal(Literal::Entero(0, ts[k].span)) && r.variable is None
                    } else {
                        expr_arbol(ts, gens, k, r.canal) && r.variable == Some(nombre_en(ts, a - 1))
                    }
                    &&& bloque_arbol(ts, gens, a + 1, r.cuerpo)
                    &&& r.span == span_union(ts[k].span, r.cuerpo.span)
                },
        decreases cursor.restantes(),
    {
        let ghost k = cursor.pos();
        let span_rama = cursor.span_actual();
        let es_default = match cursor.actual() {
            Some(Token::Identificador(n)) => es_texto(n, "_"),
            _ => false,
        };
        let (canal, variable) = if es_default {
            cursor.avanzar();
            (Expresion::Literal(Literal::Entero(0, span_rama.copia())), None)
        } else {
            // canal como variable => { ... }
            let canal_expr = parse_expresion(cursor)?;
            cursor.esperar(Token::Como)?;
            let var_nombre = match cursor.actual() {
                Some(Token::Identificador(n)) => {
                    let n = n.clone();
                    cursor.avanzar();
                    n
                },
                _ => {
                    let span = cursor.span_actual();
                    return Err(
                        ErrorSintaxis::nuevo(
                            51,
                            span,
                            texto(
                                "Se esperaba un nombre de variable después de 'como' en seleccionar",
                            ),
                        ),
                    );
                },
            };
            (canal_expr, Some(var_nombre))
        };
        let ghost a = cursor.pos();
        cursor.esperar(Token::FlechaGruesa)?;
        let cuerpo = parse_bloque(cursor)?;
        let span = Span::combinar(&span_rama, &cuerpo.span);
        ramas.push(RamaSeleccionar { canal, variable, cuerpo, span });
        if cursor.es_actual(&Token::Coma) {
            cursor.avanzar();
        }
        proof {
            let par = (k, a);
            assert(ramas_pos(ts, k) == seq![par] + ramas_pos(ts, cursor.pos()));
            assert(previos + (seq![par] + ramas_pos(ts, cursor.pos())) =~= previos.push(par) + ramas_pos(ts, cursor.pos()));
            previos = previos.push(par);
        }
    }
    assert(ramas_pos(ts, cursor.pos()) =~= Seq::<(int, int)>::empty());
    assert(ramas_pos(ts, i + 2) =~= previos);
    cursor.esperar(Token::LlaveCierra)?;
    let span_fin = cursor.span_actual();
    let span = Span::combinar(&span_inicio, &span_fin);
    proof {
        lema_fin_actual(cursor, span_fin);
    }
    Ok(Sentencia::Seleccionar(Seleccionar { ramas, span }))
}

/// Parsea `con_executor(N) { sentencias }`
fn parse_con_executor(cursor: &mut ParserCursor) -> (r: Result<Sentencia, ErrorSintaxis>)
    requires
        old(cursor).valido(),
    ensures
        avance(old(cursor), final(cursor), r),
        r matches Ok(s) ==> s is ConExecutor,
        old(cursor).actual_spec() == Some(Token::ConExecutor) ==> lee(old(cursor), final(cursor), r, fin_sentencia(old(cursor).toks(), old(cursor).pos())),
        r matches Ok(s) ==> sentencia_arbol(old(cursor).toks(), old(cursor).gens(), old(cursor).pos(), s),
    decreases old(cursor).restantes(), 8nat,
{
    let ghost ts = cursor.toks();
    let ghost gens = cursor.gens();
    let ghost i = cursor.pos();
    let span_inicio = cursor.span_actual();
    cursor.esperar(Token::ConExecutor)?;
    cursor.esperar(Token::ParenAbre)?;
    let hilos = parse_expresion(cursor)?;
    let ghost e = cursor.pos();
    cursor.esperar(Token::ParenCierra)?;
    let bloque = parse_bloque(cursor)?;
    let span = Span::combinar(&span_inicio, &bloque.span);
    proof {
        lema_de_bloque(ts, gens, e + 1, bloque);
        lema_sentencias_desde(ts, gens, i, e + 1, inicios_sentencias(ts, e + 2), bloque.sentencias@);
    }
    Ok(Sentencia::ConExecutor { hilos, cuerpo: bloque.sentencias, span })
}

} // verus!
