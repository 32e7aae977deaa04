use vstd::prelude::*;
use crate::ast::{
    Bloque, Expresion, Literal, Lugar, ModoVerbal, OperadorBinario, OperadorUnario, PatronMatch,
    Sentencia,
};
use crate::lexer::{Token, TokenConSpan};
use crate::span::Span;
use crate::parser::{token_de, ParserCursor};
use crate::parser::tipos::{hay_token, fin_tipo, fin_lista_tipos, forma_tipo, forma_lista_tipos, articulo_de};
use crate::parser::expresiones::{operador_de, llamada_generica_en};
use crate::parser::sentencias::asignacion_en;
use crate::parser::declaraciones::{span_entre, fin_en, nombre_en};
use crate::parser::sintaxis::{
    avanza, en_rango, hay_identificador, identificador_es, posible_enum, fin_expresion,
    fin_precedencia, fin_postfijo, fin_args_metodo, fin_atomo, fin_params_closure, fin_elementos,
    fin_lista_args, fin_lista_constructor, fin_args_tipo, fin_identificador, fin_patron,
    fin_brazos, fin_bloque, fin_sentencias, fin_sentencia, fin_condicion, fin_inicializacion_struct,
    fin_campos_struct, fin_ramas, fin_declaracion_variable, fin_asignacion, fin_tras_nombre,
    fin_coincidir,
};

verus! {

// Árbol que construye el parser para las expresiones, sentencias y bloques: cada relación
// dice qué valor devuelve el parser correspondiente a partir de la posición en que empieza,
// con las posiciones que da la sintaxis de `sintaxis.rs`.

/// Span que empieza donde `a` y acaba donde `b`, en el archivo de `a`.
pub open spec fn span_union(a: Span, b: Span) -> Span {
    Span { inicio: a.inicio, fin: b.fin, archivo: a.archivo }
}

/// El span del token actual acaba donde acaba el token de la posición del cursor.
pub proof fn lema_fin_actual(c: &ParserCursor, s: Span)
    requires
        c.span_actual_es(s),
    ensures
        s.fin == fin_en(c.toks(), c.pos()),
{
}

/// Span que empieza donde `a` y acaba donde acaba el token `k` (o en la posición cero si no
/// hay token `k`).
pub open spec fn span_hasta(a: Span, ts: Seq<TokenConSpan>, k: int) -> Span {
    Span { inicio: a.inicio, fin: fin_en(ts, k), archivo: a.archivo }
}

/// Un operador postfijo y sus posiciones.
pub enum PasoPostfijo {
    /// `[índice]`: el `[` y el `]`.
    Indice(int, int),
    /// `.campo`: el `.`.
    Campo(int),
    /// `.método(args)`: el `.`, el inicio de cada argumento y el `)`.
    Metodo(int, Seq<int>, int),
    /// `?`.
    Propagacion(int),
}

/// Inicio de cada argumento de una llamada a método desde `i` (ver `fin_args_metodo`).
pub open spec fn inicios_args_metodo(ts: Seq<TokenConSpan>, i: int) -> Seq<int>
    decreases ts.len() - i,
{
    if !en_rango(ts, i) {
        Seq::empty()
    } else {
        match fin_expresion(ts, i) {
            Some(e) => if i < e && hay_token(ts, e, Token::Coma) {
                seq![i] + inicios_args_metodo(ts, e + 1)
            } else {
                seq![i]
            },
            None => Seq::empty(),
        }
    }
}

/// Operadores postfijos que siguen en `k` (ver `fin_postfijo`).
pub open spec fn pasos_postfijos(ts: Seq<TokenConSpan>, k: int) -> Seq<PasoPostfijo>
    decreases ts.len() - k,
{
    if !en_rango(ts, k) {
        Seq::empty()
    } else if hay_token(ts, k, Token::CorcheteAbre) {
        match fin_expresion(ts, k + 1) {
            Some(e) => if k < e && hay_token(ts, e, Token::CorcheteCierra) {
                seq![PasoPostfijo::Indice(k, e)] + pasos_postfijos(ts, e + 1)
            } else {
                Seq::empty()
            },
            None => Seq::empty(),
        }
    } else if hay_token(ts, k, Token::Punto) {
        if !hay_identificador(ts, k + 1) {
            Seq::empty()
        } else if hay_token(ts, k + 2, Token::ParenAbre) {
            let (inicios, args) = if hay_token(ts, k + 3, Token::ParenCierra) {
                (Seq::empty(), Some(k + 3))
            } else {
                (inicios_args_metodo(ts, k + 3), fin_args_metodo(ts, k + 3))
            };
            match args {
                Some(j) => if k < j && hay_token(ts, j, Token::ParenCierra) {
                    seq![PasoPostfijo::Metodo(k, inicios, j)] + pasos_postfijos(ts, j + 1)
                } else {
                    Seq::empty()
                },
                None => Seq::empty(),
            }
        } else {
            seq![PasoPostfijo::Campo(k)] + pasos_postfijos(ts, k + 2)
        }
    } else if hay_token(ts, k, Token::Interrogacion) {
        seq![PasoPostfijo::Propagacion(k)] + pasos_postfijos(ts, k + 1)
    } else {
        Seq::empty()
    }
}

/// Operadores binarios que siguen en `k` con precedencia `min` o mayor: el operador, su
/// precedencia y el inicio del operando derecho (ver `fin_operadores`).
pub open spec fn pasos_operadores(ts: Seq<TokenConSpan>, k: int, min: u8) -> Seq<(OperadorBinario, u8, int)>
    decreases ts.len() - k,
{
    if !en_rango(ts, k) {
        Seq::empty()
    } else {
        match token_de(ts, k) {
            Some(t) => match operador_de(t) {
                Some((op, p)) => if p >= min && p < 255 {
                    match fin_precedencia(ts, k + 1, (p + 1) as u8) {
                        Some(c) => if !avanza(ts, k, c) {
                            Seq::empty()
                        } else {
                            match fin_postfijo(ts, c) {
                                Some(d) => if avanza(ts, k, d) {
                                    seq![(op, p, k + 1)] + pasos_operadores(ts, d, min)
                                } else {
                                    Seq::empty()
                                },
                                None => Seq::empty(),
                            }
                        },
                        None => Seq::empty(),
                    }
                } else {
                    Seq::empty()
                },
                None => Seq::empty(),
            },
            None => Seq::empty(),
        }
    }
}

/// Inicio de cada elemento de un array literal desde `k` (ver `fin_elementos`).
pub open spec fn inicios_elementos(ts: Seq<TokenConSpan>, k: int) -> Seq<int>
    decreases ts.len() - k,
{
    if !en_rango(ts, k) || k == ts.len() || hay_token(ts, k, Token::CorcheteCierra) {
        Seq::empty()
    } else {
        match fin_expresion(ts, k) {
            Some(e) => if k < e && hay_token(ts, e, Token::Coma) {
                seq![k] + inicios_elementos(ts, e + 1)
            } else {
                seq![k]
            },
            None => Seq::empty(),
        }
    }
}

/// Inicio de cada argumento de una llamada desde `k` (ver `fin_lista_args`).
pub open spec fn inicios_lista_args(ts: Seq<TokenConSpan>, k: int) -> Seq<int>
    decreases ts.len() - k,
{
    if !en_rango(ts, k) || k == ts.len() || hay_token(ts, k, Token::ParenCierra) {
        Seq::empty()
    } else {
        match fin_expresion(ts, k) {
            Some(e) => if k < e && hay_token(ts, e, Token::Coma) {
                seq![k] + inicios_lista_args(ts, e + 1)
            } else if avanza(ts, k, e) {
                seq![k] + inicios_lista_args(ts, e)
            } else {
                Seq::empty()
            },
            None => Seq::empty(),
        }
    }
}

/// Inicio de cada argumento de un constructor desde `k` (ver `fin_lista_constructor`).
pub open spec fn inicios_lista_constructor(ts: Seq<TokenConSpan>, k: int) -> Seq<int>
    decreases ts.len() - k,
{
    if !en_rango(ts, k) || k == ts.len() || hay_token(ts, k, Token::ParenCierra) {
        Seq::empty()
    } else {
        match fin_expresion(ts, k) {
            Some(e) => if k < e && hay_token(ts, e, Token::Coma) {
                seq![k] + inicios_lista_constructor(ts, e + 1)
            } else {
                seq![k]
            },
            None => Seq::empty(),
        }
    }
}

/// Parámetros de un closure desde `k`: la posición del nombre y, si lo hay, la del tipo
/// (ver `fin_params_closure`).
pub open spec fn params_closure(ts: Seq<TokenConSpan>, k: int) -> Seq<(int, Option<int>)>
    decreases ts.len() - k,
{
    if !en_rango(ts, k) || k == ts.len() || hay_token(ts, k, Token::Pipe) || !hay_identificador(ts, k) {
        Seq::empty()
    } else {
        let (tp, tras_tipo) = if hay_token(ts, k + 1, Token::DosPuntos) {
            (Some(k + 2), fin_tipo(ts, k + 2))
        } else {
            (None, Some(k + 1))
        };
        match tras_tipo {
            Some(a) => if k < a {
                if hay_token(ts, a, Token::Coma) {
                    seq![(k, tp)] + params_closure(ts, a + 1)
                } else if a <= ts.len() {
                    seq![(k, tp)] + params_closure(ts, a)
                } else {
                    Seq::empty()
                }
            } else {
                Seq::empty()
            },
            None => Seq::empty(),
        }
    }
}

/// Brazos de un `coincidir` desde `k`: la posición del patrón y la del cuerpo (ver
/// `fin_brazos`).
pub open spec fn brazos_pos(ts: Seq<TokenConSpan>, k: int) -> Seq<(int, int)>
    decreases ts.len() - k,
{
    if !en_rango(ts, k) || k == ts.len() || hay_token(ts, k, Token::LlaveCierra) {
        Seq::empty()
    } else {
        match fin_patron(ts, k) {
            Some(p) => if k < p && hay_token(ts, p, Token::FlechaGruesa) {
                match fin_expresion(ts, p + 1) {
                    Some(c) => if k < c && hay_token(ts, c, Token::Coma) {
                        seq![(k, p + 1)] + brazos_pos(ts, c + 1)
                    } else if avanza(ts, k, c) {
                        seq![(k, p + 1)] + brazos_pos(ts, c)
                    } else {
                        Seq::empty()
                    },
                    None => Seq::empty(),
                }
            } else {
                Seq::empty()
            },
            None => Seq::empty(),
        }
    }
}

/// Inicio de cada sentencia de un bloque desde `k` (ver `fin_sentencias`).
pub open spec fn inicios_sentencias(ts: Seq<TokenConSpan>, k: int) -> Seq<int>
    decreases ts.len() - k,
{
    if !en_rango(ts, k) || k == ts.len() || hay_token(ts, k, Token::LlaveCierra) {
        Seq::empty()
    } else {
        match fin_sentencia(ts, k) {
            Some(s) => if avanza(ts, k, s) {
                seq![k] + inicios_sentencias(ts, s)
            } else {
                Seq::empty()
            },
            None => Seq::empty(),
        }
    }
}

/// Posición del nombre de cada campo de una inicialización de struct desde `k` (ver
/// `fin_campos_struct`).
pub open spec fn campos_struct_pos(ts: Seq<TokenConSpan>, k: int) -> Seq<int>
    decreases ts.len() - k,
{
    if !en_rango(ts, k) || k == ts.len() || hay_token(ts, k, Token::LlaveCierra) {
        Seq::empty()
    } else if hay_identificador(ts, k) && hay_token(ts, k + 1, Token::DosPuntos) {
        match fin_expresion(ts, k + 2) {
            Some(e) => if k < e && hay_token(ts, e, Token::Coma) {
                seq![k] + campos_struct_pos(ts, e + 1)
            } else {
                seq![k]
            },
            None => Seq::empty(),
        }
    } else {
        Seq::empty()
    }
}

/// Ramas de un `seleccionar` desde `k`: su inicio y la posición de su `=>` (ver
/// `fin_ramas`).
pub open spec fn ramas_pos(ts: Seq<TokenConSpan>, k: int) -> Seq<(int, int)>
    decreases ts.len() - k,
{
    if !en_rango(ts, k) || hay_token(ts, k, Token::LlaveCierra) {
        Seq::empty()
    } else {
        let cabeza = if identificador_es(ts, k, "_"@) {
            Some(k + 1)
        } else {
            match fin_expresion(ts, k) {
                Some(e) => if hay_token(ts, e, Token::Como) && hay_identificador(ts, e + 1) {
                    Some(e + 2)
                } else {
                    None
                },
                None => None,
            }
        };
        match cabeza {
            Some(a) => if k < a && hay_token(ts, a, Token::FlechaGruesa) {
                match fin_bloque(ts, a + 1) {
                    Some(b) => if k < b && hay_token(ts, b, Token::Coma) {
                        seq![(k, a)] + ramas_pos(ts, b + 1)
                    } else if avanza(ts, k, b) {
                        seq![(k, a)] + ramas_pos(ts, b)
                    } else {
                        Seq::empty()
                    },
                    None => Seq::empty(),
                }
            } else {
                Seq::empty()
            },
            None => Seq::empty(),
        }
    }
}

/// `e` es la expresión que el parser lee desde `i`.
pub open spec fn expr_arbol(ts: Seq<TokenConSpan>, gens: Seq<String>, i: int, e: Expresion) -> bool
    decreases ts.len() - i, 11nat, 0nat,
{
    if !en_rango(ts, i) {
        false
    } else {
        match fin_precedencia(ts, i, 0) {
            Some(p) => if i < p && (hay_token(ts, p, Token::DoblePunto) || hay_token(
                ts,
                p,
                Token::PuntoPuntoIgual,
            )) {
                &&& e matches Expresion::Rango(l, r, incl, sp)
                &&& incl == hay_token(ts, p, Token::PuntoPuntoIgual)
                &&& prec_arbol(ts, gens, i, 0, *l)
                &&& prec_arbol(ts, gens, p + 1, 0, *r)
                &&& sp == span_union(l.span_de(), r.span_de())
            } else {
                prec_arbol(ts, gens, i, 0, e)
            },
            None => false,
        }
    }
}

/// `e` es la expresión con operadores de precedencia `min` o mayor que el parser lee desde
/// `i`.
pub open spec fn prec_arbol(ts: Seq<TokenConSpan>, gens: Seq<String>, i: int, min: u8, e: Expresion) -> bool
    decreases ts.len() - i, 8nat, 0nat,
{
    if !en_rango(ts, i) {
        false
    } else {
        match fin_atomo(ts, i) {
            Some(a) => if avanza(ts, i, a) {
                match fin_postfijo(ts, a) {
                    Some(b) => if a <= b <= ts.len() {
                        binop_arbol(ts, gens, i, pasos_operadores(ts, b, min), e)
                    } else {
                        false
                    },
                    None => false,
                }
            } else {
                false
            },
            None => false,
        }
    }
}

/// `e` combina, asociando a la izquierda, el átomo con postfijos que empieza en `i` y los
/// operandos derechos de los operadores `ops`.
pub open spec fn binop_arbol(ts: Seq<TokenConSpan>, gens: Seq<String>, i: int, ops: Seq<(OperadorBinario, u8, int)>, e: Expresion) -> bool
    decreases ts.len() - i, 7nat, ops.len(),
{
    if !en_rango(ts, i) {
        false
    } else if ops.len() == 0 {
        match fin_atomo(ts, i) {
            Some(a) => if avanza(ts, i, a) {
                postfijos_arbol(ts, gens, i, 0, false, pasos_postfijos(ts, a), e)
            } else {
                false
            },
            None => false,
        }
    } else {
        let (op, p, s) = ops.last();
        &&& i < s <= ts.len()
        &&& p < 255
        &&& e matches Expresion::Binaria(l, o, r, sp)
        &&& o == op
        &&& derecha_arbol(ts, gens, s, (p + 1) as u8, *r)
        &&& sp == span_union(l.span_de(), r.span_de())
        &&& binop_arbol(ts, gens, i, ops.drop_last(), *l)
    }
}

/// `r` es el operando derecho de un operador: la expresión de precedencia `p` o mayor que
/// empieza en `s`, con sus postfijos.
pub open spec fn derecha_arbol(ts: Seq<TokenConSpan>, gens: Seq<String>, s: int, p: u8, r: Expresion) -> bool
    decreases ts.len() - s, 10nat, 0nat,
{
    if !en_rango(ts, s) {
        false
    } else {
        match fin_precedencia(ts, s, p) {
            Some(c) => if avanza(ts, s, c) {
                postfijos_arbol(ts, gens, s, p, true, pasos_postfijos(ts, c), r)
            } else {
                false
            },
            None => false,
        }
    }
}

/// `e` aplica los postfijos `pasos` a la base que empieza en `i`: un átomo o, con
/// `sobre_prec`, una expresión de precedencia `min` o mayor.
pub open spec fn postfijos_arbol(
    ts: Seq<TokenConSpan>,
    gens: Seq<String>,
    i: int,
    min: u8,
    sobre_prec: bool,
    pasos: Seq<PasoPostfijo>,
    e: Expresion,
) -> bool
    decreases ts.len() - i, if sobre_prec {
        9nat
    } else {
        6nat
    }, pasos.len(),
{
    if !en_rango(ts, i) {
        false
    } else if pasos.len() == 0 {
        if sobre_prec {
            prec_arbol(ts, gens, i, min, e)
        } else {
            atomo_arbol(ts, gens, i, e)
        }
    } else {
        match pasos.last() {
            PasoPostfijo::Indice(k, f) => {
                &&& i < k < ts.len()
                &&& e matches Expresion::AccesoArray(x, idx, sp)
                &&& expr_arbol(ts, gens, k + 1, *idx)
                &&& sp == span_hasta(x.span_de(), ts, f + 1)
                &&& postfijos_arbol(ts, gens, i, min, sobre_prec, pasos.drop_last(), *x)
            },
            PasoPostfijo::Campo(k) => {
                &&& e matches Expresion::AccesoCampo(x, n, sp)
                &&& n == nombre_en(ts, k + 1)
                &&& sp == span_hasta(x.span_de(), ts, k + 2)
                &&& postfijos_arbol(ts, gens, i, min, sobre_prec, pasos.drop_last(), *x)
            },
            PasoPostfijo::Metodo(k, inicios, j) => {
                &&& e matches Expresion::Metodo(x, n, args, sp)
                &&& n == nombre_en(ts, k + 1)
                &&& lista_arbol(ts, gens, i, inicios, args@)
                &&& sp == span_hasta(x.span_de(), ts, j + 1)
                &&& postfijos_arbol(ts, gens, i, min, sobre_prec, pasos.drop_last(), *x)
            },
            PasoPostfijo::Propagacion(k) => {
                &&& e matches Expresion::Propagacion(x, sp)
                &&& sp == span_hasta(x.span_de(), ts, k + 1)
                &&& postfijos_arbol(ts, gens, i, min, sobre_prec, pasos.drop_last(), *x)
            },
        }
    }
}

/// `v` son las expresiones que el parser lee desde las posiciones `inicios`, todas
/// posteriores a `i`.
pub open spec fn lista_arbol(ts: Seq<TokenConSpan>, gens: Seq<String>, i: int, inicios: Seq<int>, v: Seq<Expresion>) -> bool
    decreases ts.len() - i, 1nat, 0nat,
{
    &&& v.len() == inicios.len()
    &&& forall|m: int| 0 <= m < inicios.len() ==> i < #[trigger] inicios[m] <= ts.len()
    &&& forall|m: int|
        0 <= m < inicios.len() && i < inicios[m] <= ts.len() ==> expr_arbol(
            ts,
            gens,
            inicios[m],
            #[trigger] v[m],
        )
}


/// Lo leído tras una posición anterior lo está tras cualquier otra aún más atrás.
pub proof fn lema_lista_desde(ts: Seq<TokenConSpan>, gens: Seq<String>, i: int, j: int, inicios: Seq<int>, v: Seq<Expresion>)
    requires
        i <= j,
        lista_arbol(ts, gens, j, inicios, v),
    ensures
        lista_arbol(ts, gens, i, inicios, v),
{
}

/// Literal que escribe el token en `i`, con el span de ese token.
pub open spec fn literal_en_pos(ts: Seq<TokenConSpan>, i: int) -> Option<Literal> {
    let sp = ts[i].span;
    match ts[i].token {
        Token::EnteroLiteral(Some(n)) => Some(Literal::Entero(n, sp)),
        Token::FlotanteLiteral(Some(f)) => Some(Literal::Flotante(f, sp)),
        Token::PalabraLiteral(Some(p)) => Some(Literal::Palabra(p, sp)),
        Token::CaracterLiteral(Some(c)) => Some(Literal::Caracter(c, sp)),
        Token::Verdadero => Some(Literal::Booleano(true, sp)),
        Token::Falso => Some(Literal::Booleano(false, sp)),
        _ => None,
    }
}

/// Operador unario que escribe el token en `i` como prefijo de un átomo.
pub open spec fn unario_de(t: Token) -> Option<OperadorUnario> {
    match t {
        Token::Menos => Some(OperadorUnario::Negacion),
        Token::Exclamacion => Some(OperadorUnario::NegacionLogica),
        Token::Tilde => Some(OperadorUnario::BitNot),
        _ => None,
    }
}

/// `e` es el átomo que el parser lee desde `i`.
pub open spec fn atomo_arbol(ts: Seq<TokenConSpan>, gens: Seq<String>, i: int, e: Expresion) -> bool
    decreases ts.len() - i, 5nat, 1nat,
{
    if !(0 <= i < ts.len()) {
        false
    } else {
        match fin_atomo(ts, i) {
            None => false,
            Some(fin) => atomo_caso(ts, gens, i, fin, e),
        }
    }
}

/// `e` es el átomo que el parser lee desde `i`, que acaba en `fin`, según el token en `i`.
pub open spec fn atomo_caso(ts: Seq<TokenConSpan>, gens: Seq<String>, i: int, fin: int, e: Expresion) -> bool
    decreases ts.len() - i, 5nat, 0nat,
{
    if !(0 <= i < ts.len()) {
        false
    } else {
        let sp = ts[i].span;
        match ts[i].token {
                Token::Pipe => closure_arbol(ts, gens, i, e),
                Token::Menos | Token::Exclamacion | Token::Tilde => {
                    &&& e matches Expresion::Unaria(op, x, s)
                    &&& Some(op) == unario_de(ts[i].token)
                    &&& atomo_arbol(ts, gens, i + 1, *x)
                    &&& s == span_union(sp, x.span_de())
                },
                Token::Ampersand => {
                    let muta = hay_token(ts, i + 1, Token::Mut);
                    &&& e matches Expresion::Unaria(op, x, s)
                    &&& op == (if muta {
                        OperadorUnario::ReferenciaMut
                    } else {
                        OperadorUnario::Referencia
                    })
                    &&& expr_arbol(ts, gens, if muta { i + 2 } else { i + 1 }, *x)
                    &&& s == span_union(sp, x.span_de())
                },
                Token::Asterisco => {
                    &&& e matches Expresion::Unaria(op, x, s)
                    &&& op == OperadorUnario::Desreferencia
                    &&& expr_arbol(ts, gens, i + 1, *x)
                    &&& s == span_union(sp, x.span_de())
                },
                Token::Esperar => e matches Expresion::Esperar(x, s) && expr_arbol(ts, gens, i + 1, *x)
                    && s == span_union(sp, x.span_de()),
                Token::Lanzar => e matches Expresion::Lanzar(x, s) && expr_arbol(ts, gens, i + 1, *x)
                    && s == span_union(sp, x.span_de()),
                Token::Todos => e matches Expresion::ArrayRelleno(x, n, s) && n == 0 && expr_arbol(
                    ts,
                    gens,
                    i + 1,
                    *x,
                ) && s == span_union(sp, x.span_de()),
                Token::Copiar => e matches Expresion::Copiar(x, s) && expr_arbol(ts, gens, i + 1, *x)
                    && s == span_union(sp, x.span_de()),
                Token::Bloquear => {
                    &&& hay_token(ts, i + 1, Token::ParenAbre)
                    &&& e matches Expresion::Bloquear(x, s)
                    &&& expr_arbol(ts, gens, i + 2, *x)
                    &&& s == span_union(sp, x.span_de())
                },
                Token::DireccionDe | Token::DirDe => e == Expresion::DireccionDe(
                    nombre_en(ts, i + 2),
                    span_hasta(sp, ts, i + 4),
                ),
                Token::CorcheteAbre => {
                    &&& e matches Expresion::LiteralArray(v, s)
                    &&& lista_arbol(ts, gens, i, inicios_elementos(ts, i + 1), v@)
                    &&& s == span_hasta(sp, ts, fin)
                },
                Token::LlaveAbre => e matches Expresion::Bloque(b) && bloque_arbol(ts, gens, i, b),
                Token::Mover => {
                    &&& e matches Expresion::Mover(n, d, s)
                    &&& n == nombre_en(ts, i + 1)
                    &&& if identificador_es(ts, i + 2, "a"@) {
                        d matches Some(x) && expr_arbol(ts, gens, i + 3, *x)
                    } else {
                        d is None
                    }
                    &&& s == span_hasta(sp, ts, fin)
                },
                Token::Resultado => {
                    &&& e matches Expresion::ConstructorEnum(n, v, args, s)
                    &&& n@ == "Resultado"@
                    &&& v == nombre_en(ts, i + 2)
                    &&& if hay_token(ts, i + 3, Token::ParenAbre) {
                        lista_arbol(ts, gens, i, inicios_lista_constructor(ts, i + 4), args@)
                    } else {
                        args@.len() == 0
                    }
                    &&& s == span_hasta(sp, ts, fin)
                },
                Token::Identificador(_) => identificador_arbol(ts, gens, i, e),
                Token::ParenAbre => expr_arbol(ts, gens, i + 1, e),
                Token::Coincidir => coincidir_arbol(ts, gens, i, e),
                _ => Some(e) == match literal_en_pos(ts, i) {
                    Some(l) => Some(Expresion::Literal(l)),
                    None => None,
                },
        }
    }
}

/// `e` es el closure que el parser lee desde el `|` en `i`: un cuerpo de bloque queda como
/// el literal `0`.
pub open spec fn closure_arbol(ts: Seq<TokenConSpan>, gens: Seq<String>, i: int, e: Expresion) -> bool
    decreases ts.len() - i, 4nat, 0nat,
{
    match fin_params_closure(ts, i + 1) {
        Some(j) => {
            let ps = params_closure(ts, i + 1);
            &&& 0 <= i < j < ts.len()
            &&& e matches Expresion::Closure(params, cuerpo, s)
            &&& params@.len() == ps.len()
            &&& forall|m: int|
                0 <= m < ps.len() ==> (#[trigger] params@[m]).0 == nombre_en(ts, ps[m].0) && match (
                    ps[m].1,
                    params@[m].1,
                ) {
                    (Some(k), Some(t)) => forma_tipo(ts, gens, k, t),
                    (None, None) => true,
                    _ => false,
                }
            &&& if hay_token(ts, j + 1, Token::LlaveAbre) {
                match fin_bloque(ts, j + 1) {
                    Some(b) => {
                        let sb = span_hasta(ts[i].span, ts, b);
                        &&& *cuerpo == Expresion::Literal(Literal::Entero(0, sb))
                        &&& s == sb
                    },
                    None => false,
                }
            } else {
                expr_arbol(ts, gens, j + 1, *cuerpo) && s == span_union(ts[i].span, cuerpo.span_de())
            }
        },
        None => false,
    }
}

/// `e` es la llamada a `funcion` (o, sin argumentos, el identificador) que el parser lee
/// tras el nombre, en `k`, de lo que empieza en `i`.
pub open spec fn llamada_arbol(ts: Seq<TokenConSpan>, gens: Seq<String>, i: int, k: int, funcion: Seq<char>, e: Expresion) -> bool
    decreases ts.len() - i, 2nat, 0nat,
{
    match fin_tras_nombre(ts, k) {
        Some(fin) => if llamada_generica_en(ts, k) {
            match fin_args_tipo(ts, k) {
                Some(a) => {
                    &&& e matches Expresion::Llamada(ll)
                    &&& ll.funcion@ == funcion
                    &&& forma_lista_tipos(ts, gens, k + 1, ll.tipo_args@)
                    &&& lista_arbol(ts, gens, i, inicios_lista_args(ts, a + 1), ll.argumentos@)
                    &&& ll.span == span_hasta(ts[i].span, ts, fin)
                },
                None => false,
            }
        } else if hay_token(ts, k, Token::ParenAbre) {
            &&& e matches Expresion::Llamada(ll)
            &&& ll.funcion@ == funcion
            &&& ll.tipo_args@.len() == 0
            &&& lista_arbol(ts, gens, i, inicios_lista_args(ts, k + 1), ll.argumentos@)
            &&& ll.span == span_hasta(ts[i].span, ts, fin)
        } else {
            e matches Expresion::Identificador(n, s) && n@ == funcion && s == ts[i].span
        },
        None => false,
    }
}

/// `e` es lo que el parser lee desde el identificador en `i`: constructor de enum, ruta,
/// llamada o el identificador solo.
pub open spec fn identificador_arbol(ts: Seq<TokenConSpan>, gens: Seq<String>, i: int, e: Expresion) -> bool
    decreases ts.len() - i, 4nat, 0nat,
{
    let nombre = nombre_en(ts, i);
    match fin_identificador(ts, i) {
        None => false,
        Some(fin) => if posible_enum(ts, i) && hay_token(ts, i + 1, Token::Punto) && hay_identificador(
            ts,
            i + 2,
        ) {
            &&& e matches Expresion::ConstructorEnum(n, v, args, s)
            &&& n == nombre
            &&& v == nombre_en(ts, i + 2)
            &&& if hay_token(ts, i + 3, Token::ParenAbre) {
                lista_arbol(ts, gens, i, inicios_lista_constructor(ts, i + 4), args@)
            } else {
                args@.len() == 0
            }
            &&& s == span_hasta(ts[i].span, ts, fin)
        } else if hay_token(ts, i + 1, Token::DosPuntos) && hay_token(ts, i + 2, Token::DosPuntos) {
            if llamada_generica_en(ts, i + 3) {
                llamada_arbol(ts, gens, i, i + 3, nombre@, e)
            } else {
                let segundo = nombre_en(ts, i + 3);
                if fin == i + 4 {
                    e matches Expresion::Ruta(v, s) && v@ == seq![nombre, segundo] && s == span_hasta(
                        ts[i].span,
                        ts,
                        i + 4,
                    )
                } else {
                    llamada_arbol(ts, gens, i, i + 4, nombre@ + "::"@ + segundo@, e)
                }
            }
        } else if hay_token(ts, i + 1, Token::DosPuntos) {
            llamada_arbol(ts, gens, i, i + 2, nombre@, e)
        } else {
            llamada_arbol(ts, gens, i, i + 1, nombre@, e)
        },
    }
}

/// `p` es el patrón que el parser lee desde `k`.
pub open spec fn patron_arbol(ts: Seq<TokenConSpan>, k: int, p: PatronMatch) -> bool {
    match fin_patron(ts, k) {
        None => false,
        Some(fin) => if token_de(ts, k) matches Some(Token::EnteroLiteral(Some(_))) {
            p == PatronMatch::Literal(Literal::Entero(ts[k].token->EnteroLiteral_0->0, ts[k].span))
        } else if hay_token(ts, k, Token::Resultado) || (!identificador_es(ts, k, "_"@) && hay_token(
            ts,
            k + 1,
            Token::Punto,
        )) {
            &&& p matches PatronMatch::VarianteEnum(e, v, b, s)
            &&& if hay_token(ts, k, Token::Resultado) {
                e@ == "Resultado"@
            } else {
                e == nombre_en(ts, k)
            }
            &&& v == nombre_en(ts, k + 2)
            &&& b == if hay_token(ts, k + 3, Token::ParenAbre) {
                Some(nombre_en(ts, k + 4))
            } else {
                None
            }
            &&& s == span_hasta(ts[k].span, ts, fin)
        } else {
            p == PatronMatch::Comodin(ts[k].span)
        },
    }
}

/// `e` es el `coincidir` que el parser lee desde `i`.
pub open spec fn coincidir_arbol(ts: Seq<TokenConSpan>, gens: Seq<String>, i: int, e: Expresion) -> bool
    decreases ts.len() - i, 4nat, 0nat,
{
    match (fin_coincidir(ts, i), fin_expresion(ts, i + 1)) {
        (Some(fin), Some(a)) => {
            let bs = brazos_pos(ts, a + 1);
            &&& 0 <= i < a
            &&& e matches Expresion::Coincidir(sujeto, brazos, s)
            &&& expr_arbol(ts, gens, i + 1, *sujeto)
            &&& s == span_hasta(ts[i].span, ts, fin)
            &&& brazos@.len() == bs.len()
            &&& forall|m: int|
                0 <= m < bs.len() && i < bs[m].0 < bs[m].1 <= ts.len() ==> {
                    let b = #[trigger] brazos@[m];
                    &&& patron_arbol(ts, bs[m].0, b.patron)
                    &&& expr_arbol(ts, gens, bs[m].1, b.cuerpo)
                    &&& b.span == span_union(ts[bs[m].0].span, b.cuerpo.span_de())
                }
            &&& forall|m: int| 0 <= m < bs.len() ==> i < #[trigger] bs[m].0 && bs[m].0 < bs[m].1 <= ts.len()
        },
        _ => false,
    }
}


/// `v` son las sentencias que el parser lee desde las posiciones `inicios`, todas
/// posteriores a `i`.
pub open spec fn sentencias_en(ts: Seq<TokenConSpan>, gens: Seq<String>, i: int, inicios: Seq<int>, v: Seq<Sentencia>) -> bool
    decreases ts.len() - i, 1nat, 0nat,
{
    &&& v.len() == inicios.len()
    &&& forall|m: int| 0 <= m < inicios.len() ==> i < #[trigger] inicios[m] <= ts.len()
    &&& forall|m: int|
        0 <= m < inicios.len() && i < inicios[m] <= ts.len() ==> sentencia_arbol(
            ts,
            gens,
            inicios[m],
            #[trigger] v[m],
        )
}

/// `b` es el bloque que el parser lee desde la `{` en `i`: sus sentencias y su span, de la
/// `{` al token que sigue a la `}`.
pub closed spec fn bloque_arbol(ts: Seq<TokenConSpan>, gens: Seq<String>, i: int, b: Bloque) -> bool
    decreases ts.len() - i, 3nat, 0nat,
{
    match fin_bloque(ts, i) {
        Some(fin) => {
            &&& 0 <= i < ts.len()
            &&& b.span == span_entre(ts, i, fin)
            &&& sentencias_en(ts, gens, i, inicios_sentencias(ts, i + 1), b.sentencias@)
        },
        None => false,
    }
}

/// `s` es la sentencia que el parser lee desde `i`.
pub open spec fn sentencia_arbol(ts: Seq<TokenConSpan>, gens: Seq<String>, i: int, s: Sentencia) -> bool
    decreases ts.len() - i, 20nat, 0nat,
{
    if !(0 <= i < ts.len()) {
        false
    } else {
        match fin_sentencia(ts, i) {
            None => false,
            Some(fin) => {
                let sp = span_hasta(ts[i].span, ts, fin);
                match ts[i].token {
                    Token::Retornar => {
                        &&& s matches Sentencia::Retornar(x, spr)
                        &&& spr == sp
                        &&& if hay_token(ts, i + 1, Token::PuntoYComa) {
                            x is None
                        } else {
                            x matches Some(e) && expr_arbol(ts, gens, i + 1, e)
                        }
                    },
                    Token::Si => condicional_arbol(ts, gens, i, fin, s),
                    Token::Mientras => match fin_expresion(ts, i + 1) {
                        Some(e) => {
                            &&& s matches Sentencia::BucleMientras(m)
                            &&& expr_arbol(ts, gens, i + 1, m.condicion)
                            &&& i < e && bloque_arbol(ts, gens, e, m.bloque)
                            &&& m.span == sp
                        },
                        None => false,
                    },
                    Token::Para => match fin_expresion(ts, i + 3) {
                        Some(e) => {
                            &&& s matches Sentencia::BuclePara(p)
                            &&& p.variable == nombre_en(ts, i + 1)
                            &&& expr_arbol(ts, gens, i + 3, p.iterable)
                            &&& i < e && bloque_arbol(ts, gens, e, p.bloque)
                            &&& p.span == sp
                        },
                        None => false,
                    },
                    Token::Region => {
                        &&& s matches Sentencia::Region { nombre, cuerpo, span }
                        &&& nombre == nombre_en(ts, i + 1)
                        &&& sentencias_en(ts, gens, i, inicios_sentencias(ts, i + 3), cuerpo@)
                        &&& span == sp
                    },
                    Token::Seleccionar => seleccionar_arbol(ts, gens, i, fin, s),
                    Token::ConExecutor => match fin_expresion(ts, i + 2) {
                        Some(e) => {
                            &&& s matches Sentencia::ConExecutor { hilos, cuerpo, span }
                            &&& expr_arbol(ts, gens, i + 2, hilos)
                            &&& i < e && sentencias_en(ts, gens, i, inicios_sentencias(ts, e + 2), cuerpo@)
                            &&& span == sp
                        },
                        None => false,
                    },
                    t => if articulo_de(t) is Some {
                        declaracion_variable_arbol(ts, gens, i, fin, s)
                    } else if asignacion_en(ts, i) {
                        asignacion_arbol(ts, gens, i, fin, s)
                    } else {
                        s matches Sentencia::Expresion(e) && expr_arbol(ts, gens, i, e)
                    },
                }
            },
        }
    }
}

/// `c` y `modo` son la condición y el modo verbal que el parser lee tras la primera
/// expresión de un `si`, que empieza en `s` y acaba en `e`: `es Enum.Variante [como x]`,
/// `es expresión` (igualdad), `está [expresión]` o nada, con `fuese` (subjuntivo) delante.
pub open spec fn condicion_arbol(ts: Seq<TokenConSpan>, gens: Seq<String>, s: int, e: int, c: Expresion, modo: ModoVerbal) -> bool
    decreases ts.len() - s, 18nat, 0nat,
{
    let fuese = hay_token(ts, e, Token::Fuese);
    let k = if fuese {
        e + 1
    } else {
        e
    };
    &&& 0 <= s < e
    &&& modo == if hay_token(ts, k, Token::Esta) {
        ModoVerbal::Estativo
    } else if fuese {
        ModoVerbal::Subjuntivo
    } else {
        ModoVerbal::Indicativo
    }
    &&& match fin_condicion(ts, e) {
        Some(fin) => if hay_token(ts, k, Token::Es) {
            if (hay_identificador(ts, k + 1) || hay_token(ts, k + 1, Token::Resultado)) && hay_token(
                ts,
                k + 2,
                Token::Punto,
            ) && hay_identificador(ts, k + 3) {
                &&& c matches Expresion::EsVariante(x, en, v, b, sp)
                &&& expr_arbol(ts, gens, s, *x)
                &&& if hay_token(ts, k + 1, Token::Resultado) {
                    en@ == "Resultado"@
                } else {
                    en == nombre_en(ts, k + 1)
                }
                &&& v == nombre_en(ts, k + 3)
                &&& b == if hay_token(ts, k + 4, Token::Como) {
                    Some(nombre_en(ts, k + 5))
                } else {
                    None
                }
                &&& sp == span_hasta(x.span_de(), ts, fin)
            } else {
                &&& c matches Expresion::Binaria(x, op, y, sp)
                &&& op == OperadorBinario::Igual
                &&& expr_arbol(ts, gens, s, *x)
                &&& expr_arbol(ts, gens, k + 1, *y)
                &&& sp == span_union(x.span_de(), y.span_de())
            }
        } else if hay_token(ts, k, Token::Esta) && !hay_token(ts, k + 1, Token::LlaveAbre) {
            &&& c matches Expresion::Binaria(x, op, y, sp)
            &&& op == OperadorBinario::Igual
            &&& expr_arbol(ts, gens, s, *x)
            &&& expr_arbol(ts, gens, k + 1, *y)
            &&& sp == span_union(x.span_de(), y.span_de())
        } else {
            expr_arbol(ts, gens, s, c)
        },
        None => false,
    }
}

/// `s` es el condicional que el parser lee desde el `si` en `i`, que acaba en `fin`.
pub open spec fn condicional_arbol(ts: Seq<TokenConSpan>, gens: Seq<String>, i: int, fin: int, s: Sentencia) -> bool
    decreases ts.len() - i, 19nat, 0nat,
{
    match fin_expresion(ts, i + 1) {
        Some(e) => match fin_condicion(ts, e) {
            Some(c) => match fin_bloque(ts, c) {
                Some(b) => {
                    &&& 0 <= i < e
                    &&& i < c
                    &&& s matches Sentencia::Condicional(cd)
                    &&& condicion_arbol(ts, gens, i + 1, e, cd.condicion, cd.modo)
                    &&& bloque_arbol(ts, gens, c, cd.bloque_entonces)
                    &&& if hay_token(ts, b, Token::Sino) {
                        cd.bloque_sino matches Some(bs) && i < b && bloque_arbol(ts, gens, b + 1, bs)
                    } else {
                        cd.bloque_sino is None
                    }
                    &&& cd.span == span_hasta(ts[i].span, ts, fin)
                },
                None => false,
            },
            None => false,
        },
        None => false,
    }
}

/// `s` es el `seleccionar` que el parser lee desde `i`, que acaba en `fin`: cada rama es
/// `_` (canal `0`, sin variable) o `canal como v`, con su bloque.
pub open spec fn seleccionar_arbol(ts: Seq<TokenConSpan>, gens: Seq<String>, i: int, fin: int, s: Sentencia) -> bool
    decreases ts.len() - i, 19nat, 0nat,
{
    let rs = ramas_pos(ts, i + 2);
    &&& 0 <= i < ts.len()
    &&& s matches Sentencia::Seleccionar(sel)
    &&& sel.span == span_hasta(ts[i].span, ts, fin)
    &&& sel.ramas@.len() == rs.len()
    &&& forall|m: int| 0 <= m < rs.len() ==> i < #[trigger] rs[m].0 && rs[m].0 < rs[m].1 < ts.len()
    &&& forall|m: int|
        0 <= m < rs.len() && i < rs[m].0 < rs[m].1 < ts.len() ==> {
            let r = #[trigger] sel.ramas@[m];
            let (k, a) = rs[m];
            &&& if identificador_es(ts, k, "_"@) {
                r.canal == Expresion::Literal(Literal::Entero(0, ts[k].span)) && r.variable is None
            } else {
                expr_arbol(ts, gens, k, r.canal) && r.variable == Some(nombre_en(ts, a - 1))
            }
            &&& bloque_arbol(ts, gens, a + 1, r.cuerpo)
            &&& r.span == span_union(ts[k].span, r.cuerpo.span)
        }
}

/// `e` es la inicialización de struct `Nombre { campo: valor, ... }` que el parser lee
/// desde `v`.
pub open spec fn inicializacion_arbol(ts: Seq<TokenConSpan>, gens: Seq<String>, v: int, e: Expresion) -> bool
    decreases ts.len() - v, 18nat, 0nat,
{
    let cs = campos_struct_pos(ts, v + 2);
    match fin_inicializacion_struct(ts, v) {
        Some(fin) => {
            &&& 0 <= v < ts.len()
            &&& e matches Expresion::InicializacionStruct(n, campos, sp)
            &&& n == nombre_en(ts, v)
            &&& sp == span_hasta(ts[v].span, ts, fin)
            &&& campos@.len() == cs.len()
            &&& forall|m: int| 0 <= m < cs.len() ==> v < #[trigger] cs[m] && cs[m] + 2 <= ts.len()
            &&& forall|m: int|
                0 <= m < cs.len() && v < cs[m] && cs[m] + 2 <= ts.len() ==> (#[trigger] campos@[m]).0 == nombre_en(ts, cs[m])
                    && expr_arbol(ts, gens, cs[m] + 2, campos@[m].1)
        },
        None => false,
    }
}

/// `s` es la declaración de variable que el parser lee desde el artículo en `i`, que acaba
/// en `fin`.
pub open spec fn declaracion_variable_arbol(ts: Seq<TokenConSpan>, gens: Seq<String>, i: int, fin: int, s: Sentencia) -> bool
    decreases ts.len() - i, 19nat, 0nat,
{
    let con_tipo = hay_token(ts, i + 2, Token::DosPuntos);
    match (if con_tipo {
        fin_tipo(ts, i + 3)
    } else {
        Some(i + 2)
    }) {
        Some(k) => {
            let v = k + 1;
            &&& 0 <= i < k < ts.len()
            &&& s matches Sentencia::DeclaracionVariable(d)
            &&& Some(d.articulo) == articulo_de(ts[i].token)
            &&& d.nombre == nombre_en(ts, i + 1)
            &&& if con_tipo {
                d.tipo matches Some(t) && forma_tipo(ts, gens, i + 3, t)
            } else {
                d.tipo is None
            }
            &&& if hay_identificador(ts, v) && hay_token(ts, v + 1, Token::LlaveAbre) {
                inicializacion_arbol(ts, gens, v, d.valor)
            } else {
                expr_arbol(ts, gens, v, d.valor)
            }
            &&& d.span == span_hasta(ts[i].span, ts, fin)
        },
        None => false,
    }
}

/// `s` es la asignación que el parser lee desde el identificador en `i`, que acaba en
/// `fin`: a una variable, a un elemento `x[i]` o a un campo `x.c`.
pub open spec fn asignacion_arbol(ts: Seq<TokenConSpan>, gens: Seq<String>, i: int, fin: int, s: Sentencia) -> bool
    decreases ts.len() - i, 19nat, 0nat,
{
    let base = Expresion::Identificador(nombre_en(ts, i), ts[i].span);
    let lugar = if hay_token(ts, i + 1, Token::CorcheteAbre) {
        match fin_expresion(ts, i + 2) {
            Some(e) => Some(e + 1),
            None => None,
        }
    } else if hay_token(ts, i + 1, Token::Punto) {
        Some(i + 3)
    } else {
        Some(i + 1)
    };
    match lugar {
        Some(k) => {
            &&& 0 <= i < k < ts.len()
            &&& s matches Sentencia::Asignacion(a)
            &&& if hay_token(ts, i + 1, Token::CorcheteAbre) {
                a.lugar matches Lugar::Array(x, idx) && *x == base && expr_arbol(ts, gens, i + 2, *idx)
            } else if hay_token(ts, i + 1, Token::Punto) {
                a.lugar matches Lugar::Campo(x, c) && *x == base && c == nombre_en(ts, i + 2)
            } else {
                a.lugar == Lugar::Identificador(nombre_en(ts, i))
            }
            &&& expr_arbol(ts, gens, k + 1, a.valor)
            &&& a.span == span_hasta(ts[i].span, ts, fin)
        },
        None => false,
    }
}

// Pasos con los que el parser construye cada relación.

/// La base de los postfijos: el átomo o la expresión de precedencia leída desde `i`.
pub proof fn lema_postfijos_base(ts: Seq<TokenConSpan>, gens: Seq<String>, i: int, min: u8, sobre_prec: bool, e: Expresion)
    requires
        0 <= i <= ts.len(),
        if sobre_prec {
            prec_arbol(ts, gens, i, min, e)
        } else {
            atomo_arbol(ts, gens, i, e)
        },
    ensures
        postfijos_arbol(ts, gens, i, min, sobre_prec, Seq::empty(), e),
{
}

/// Un índice `[idx]` entre las posiciones `k` y `f` sobre lo leído hasta ahora.
pub proof fn lema_paso_indice(
    ts: Seq<TokenConSpan>,
    gens: Seq<String>,
    i: int,
    min: u8,
    sobre_prec: bool,
    pasos: Seq<PasoPostfijo>,
    x: Expresion,
    idx: Expresion,
    k: int,
    f: int,
)
    requires
        0 <= i < k < ts.len(),
        postfijos_arbol(ts, gens, i, min, sobre_prec, pasos, x),
        expr_arbol(ts, gens, k + 1, idx),
    ensures
        postfijos_arbol(
            ts,
            gens,
            i,
            min,
            sobre_prec,
            pasos.push(PasoPostfijo::Indice(k, f)),
            Expresion::AccesoArray(Box::new(x), Box::new(idx), span_hasta(x.span_de(), ts, f + 1)),
        ),
{
    assert(pasos.push(PasoPostfijo::Indice(k, f)).drop_last() =~= pasos);
}

/// Un acceso a campo `.n` en `k` sobre lo leído hasta ahora.
pub proof fn lema_paso_campo(
    ts: Seq<TokenConSpan>,
    gens: Seq<String>,
    i: int,
    min: u8,
    sobre_prec: bool,
    pasos: Seq<PasoPostfijo>,
    x: Expresion,
    k: int,
    n: String,
)
    requires
        0 <= i <= ts.len(),
        postfijos_arbol(ts, gens, i, min, sobre_prec, pasos, x),
        n == nombre_en(ts, k + 1),
    ensures
        postfijos_arbol(
            ts,
            gens,
            i,
            min,
            sobre_prec,
            pasos.push(PasoPostfijo::Campo(k)),
            Expresion::AccesoCampo(Box::new(x), n, span_hasta(x.span_de(), ts, k + 2)),
        ),
{
    assert(pasos.push(PasoPostfijo::Campo(k)).drop_last() =~= pasos);
}

/// Una llamada a método `.n(args)` en `k`, con el `)` en `j`, sobre lo leído hasta ahora.
pub proof fn lema_paso_metodo(
    ts: Seq<TokenConSpan>,
    gens: Seq<String>,
    i: int,
    min: u8,
    sobre_prec: bool,
    pasos: Seq<PasoPostfijo>,
    x: Expresion,
    k: int,
    inicios: Seq<int>,
    j: int,
    n: String,
    args: Vec<Expresion>,
)
    requires
        0 <= i <= ts.len(),
        postfijos_arbol(ts, gens, i, min, sobre_prec, pasos, x),
        n == nombre_en(ts, k + 1),
        lista_arbol(ts, gens, i, inicios, args@),
    ensures
        postfijos_arbol(
            ts,
            gens,
            i,
            min,
            sobre_prec,
            pasos.push(PasoPostfijo::Metodo(k, inicios, j)),
            Expresion::Metodo(Box::new(x), n, args, span_hasta(x.span_de(), ts, j + 1)),
        ),
{
    assert(pasos.push(PasoPostfijo::Metodo(k, inicios, j)).drop_last() =~= pasos);
}

/// Una propagación `?` en `k` sobre lo leído hasta ahora.
pub proof fn lema_paso_propagacion(
    ts: Seq<TokenConSpan>,
    gens: Seq<String>,
    i: int,
    min: u8,
    sobre_prec: bool,
    pasos: Seq<PasoPostfijo>,
    x: Expresion,
    k: int,
)
    requires
        0 <= i <= ts.len(),
        postfijos_arbol(ts, gens, i, min, sobre_prec, pasos, x),
    ensures
        postfijos_arbol(
            ts,
            gens,
            i,
            min,
            sobre_prec,
            pasos.push(PasoPostfijo::Propagacion(k)),
            Expresion::Propagacion(Box::new(x), span_hasta(x.span_de(), ts, k + 1)),
        ),
{
    assert(pasos.push(PasoPostfijo::Propagacion(k)).drop_last() =~= pasos);
}

/// Sin operadores binarios, lo leído es el átomo en `i` (que acaba en `a`) con sus postfijos.
pub proof fn lema_binop_base(ts: Seq<TokenConSpan>, gens: Seq<String>, i: int, a: int, e: Expresion)
    requires
        0 <= i < a <= ts.len(),
        fin_atomo(ts, i) == Some(a),
        postfijos_arbol(ts, gens, i, 0, false, pasos_postfijos(ts, a), e),
    ensures
        binop_arbol(ts, gens, i, Seq::empty(), e),
{
}

/// Un operador binario más: `x op y`, con el operando derecho desde `s`.
pub proof fn lema_binop_paso(
    ts: Seq<TokenConSpan>,
    gens: Seq<String>,
    i: int,
    ops: Seq<(OperadorBinario, u8, int)>,
    x: Expresion,
    op: OperadorBinario,
    p: u8,
    s: int,
    y: Expresion,
)
    requires
        0 <= i < s <= ts.len(),
        p < 255,
        binop_arbol(ts, gens, i, ops, x),
        derecha_arbol(ts, gens, s, (p + 1) as u8, y),
    ensures
        binop_arbol(
            ts,
            gens,
            i,
            ops.push((op, p, s)),
            Expresion::Binaria(Box::new(x), op, Box::new(y), span_union(x.span_de(), y.span_de())),
        ),
{
    assert(ops.push((op, p, s)).drop_last() =~= ops);
}

/// El operando derecho: la expresión de precedencia `p` desde `s`, que acaba en `c`, con sus
/// postfijos.
pub proof fn lema_derecha(ts: Seq<TokenConSpan>, gens: Seq<String>, s: int, p: u8, c: int, y: Expresion)
    requires
        0 <= s < c <= ts.len(),
        fin_precedencia(ts, s, p) == Some(c),
        postfijos_arbol(ts, gens, s, p, true, pasos_postfijos(ts, c), y),
    ensures
        derecha_arbol(ts, gens, s, p, y),
{
}

/// La expresión de precedencia `min` desde `i`: el átomo (hasta `a`), sus postfijos (hasta
/// `b`) y los operadores que siguen.
pub proof fn lema_prec(ts: Seq<TokenConSpan>, gens: Seq<String>, i: int, min: u8, a: int, b: int, e: Expresion)
    requires
        0 <= i < a <= b <= ts.len(),
        fin_atomo(ts, i) == Some(a),
        fin_postfijo(ts, a) == Some(b),
        binop_arbol(ts, gens, i, pasos_operadores(ts, b, min), e),
    ensures
        prec_arbol(ts, gens, i, min, e),
{
}

/// Una expresión sin rango.
pub proof fn lema_expr_simple(ts: Seq<TokenConSpan>, gens: Seq<String>, i: int, p: int, e: Expresion)
    requires
        0 <= i <= ts.len(),
        fin_precedencia(ts, i, 0) == Some(p),
        !(i < p && (hay_token(ts, p, Token::DoblePunto) || hay_token(ts, p, Token::PuntoPuntoIgual))),
        prec_arbol(ts, gens, i, 0, e),
    ensures
        expr_arbol(ts, gens, i, e),
{
}

/// Un rango `l..r` o `l..=r` con el operador en `p`.
pub proof fn lema_expr_rango(ts: Seq<TokenConSpan>, gens: Seq<String>, i: int, p: int, l: Expresion, r: Expresion, incl: bool)
    requires
        0 <= i < p,
        fin_precedencia(ts, i, 0) == Some(p),
        hay_token(ts, p, Token::DoblePunto) || hay_token(ts, p, Token::PuntoPuntoIgual),
        incl == hay_token(ts, p, Token::PuntoPuntoIgual),
        prec_arbol(ts, gens, i, 0, l),
        prec_arbol(ts, gens, p + 1, 0, r),
    ensures
        expr_arbol(
            ts,
            gens,
            i,
            Expresion::Rango(Box::new(l), Box::new(r), incl, span_union(l.span_de(), r.span_de())),
        ),
{
}

/// Un bloque: la `{` en `i`, sus sentencias y su span hasta el token que sigue a la `}` en
/// `fin - 1`.
pub proof fn lema_bloque(ts: Seq<TokenConSpan>, gens: Seq<String>, i: int, fin: int, b: Bloque)
    requires
        0 <= i < ts.len(),
        fin_bloque(ts, i) == Some(fin),
        b.span == span_entre(ts, i, fin),
        sentencias_en(ts, gens, i, inicios_sentencias(ts, i + 1), b.sentencias@),
    ensures
        bloque_arbol(ts, gens, i, b),
{
}

/// Lo que dice de un bloque su relación: la `{`, el span y sus sentencias.
pub proof fn lema_de_bloque(ts: Seq<TokenConSpan>, gens: Seq<String>, i: int, b: Bloque)
    requires
        bloque_arbol(ts, gens, i, b),
    ensures
        0 <= i < ts.len(),
        fin_bloque(ts, i) is Some,
        b.span == span_entre(ts, i, fin_bloque(ts, i)->0),
        sentencias_en(ts, gens, i, inicios_sentencias(ts, i + 1), b.sentencias@),
{
}

/// Lo leído tras una posición anterior lo está tras cualquier otra aún más atrás.
pub proof fn lema_sentencias_desde(ts: Seq<TokenConSpan>, gens: Seq<String>, i: int, j: int, inicios: Seq<int>, v: Seq<Sentencia>)
    requires
        i <= j,
        sentencias_en(ts, gens, j, inicios, v),
    ensures
        sentencias_en(ts, gens, i, inicios, v),
{
}

/// Un átomo: el caso que corresponde al token en `i`.
pub proof fn lema_atomo(ts: Seq<TokenConSpan>, gens: Seq<String>, i: int, fin: int, e: Expresion)
    requires
        0 <= i < ts.len(),
        fin_atomo(ts, i) == Some(fin),
        atomo_caso(ts, gens, i, fin, e),
    ensures
        atomo_arbol(ts, gens, i, e),
{
}

} // verus!
