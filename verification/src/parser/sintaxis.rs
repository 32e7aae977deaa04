use vstd::prelude::*;
use crate::lexer::{Token, TokenConSpan};
use crate::texto::mayuscula;
use crate::parser::{ParserCursor, token_de};
use crate::parser::tipos::{hay_token, fin_tipo, fin_lista_tipos, articulo_de};
use crate::parser::expresiones::{operador_de, llamada_generica_en};
use crate::parser::sentencias::asignacion_en;

verus! {

// Sintaxis de las expresiones, sentencias y bloques: dónde termina (posición siguiente a su
// último token) la construcción que empieza en una posición, o `None` si ahí los tokens no
// la forman. Cada función describe exactamente los tokens que acepta el parser
// correspondiente.

/// `despues` y `r` son el resultado de leer desde `antes` una construcción cuya sintaxis
/// termina en `fin`: éxito exactamente cuando la hay, y el cursor queda tras ella.
pub open spec fn lee<T>(antes: &ParserCursor, despues: &ParserCursor, r: Result<T, crate::parser::errores::ErrorSintaxis>, fin: Option<int>) -> bool {
    &&& r is Ok <==> fin is Some
    &&& r is Ok ==> despues.pos() == fin->0
}

/// El token en `k` es un identificador con el texto `t`.
pub open spec fn identificador_es(ts: Seq<TokenConSpan>, k: int, t: Seq<char>) -> bool {
    token_de(ts, k) matches Some(Token::Identificador(n)) && n@ == t
}

/// El token en `k` es un identificador.
pub open spec fn hay_identificador(ts: Seq<TokenConSpan>, k: int) -> bool {
    token_de(ts, k) matches Some(Token::Identificador(_))
}

/// `b` está más allá de `a` y no pasa del final de los tokens.
pub open spec fn avanza(ts: Seq<TokenConSpan>, a: int, b: int) -> bool {
    a < b <= ts.len()
}

/// `k` está dentro de los tokens o es su final.
pub open spec fn en_rango(ts: Seq<TokenConSpan>, k: int) -> bool {
    0 <= k <= ts.len()
}

/// Fin de una expresión completa: operadores con precedencia y, opcionalmente, un rango
/// `a..b` o `a..=b`.
pub open spec fn fin_expresion(ts: Seq<TokenConSpan>, i: int) -> Option<int>
    decreases ts.len() - i, 15nat,
{
    if !en_rango(ts, i) {
        None
    } else {
        match fin_precedencia(ts, i, 0) {
            Some(p) => if i < p && (hay_token(ts, p, Token::DoblePunto) || hay_token(
                ts,
                p,
                Token::PuntoPuntoIgual,
            )) {
                fin_precedencia(ts, p + 1, 0)
            } else {
                Some(p)
            },
            None => None,
        }
    }
}

/// Fin de una expresión que solo combina operadores binarios de precedencia `min` o mayor.
pub open spec fn fin_precedencia(ts: Seq<TokenConSpan>, i: int, min: u8) -> Option<int>
    decreases ts.len() - i, 14nat,
{
    if !en_rango(ts, i) {
        None
    } else {
        match fin_atomo(ts, i) {
            Some(a) => if avanza(ts, i, a) {
                match fin_postfijo(ts, a) {
                    Some(b) => if a <= b <= ts.len() {
                        fin_operadores(ts, b, min)
                    } else {
                        None
                    },
                    None => None,
                }
            } else {
                None
            },
            None => None,
        }
    }
}

/// Fin de la cadena de operadores binarios (de precedencia `min` o mayor) que sigue en `k`.
pub open spec fn fin_operadores(ts: Seq<TokenConSpan>, k: int, min: u8) -> Option<int>
    decreases ts.len() - k, 13nat,
{
    if !en_rango(ts, k) {
        None
    } else {
        match token_de(ts, k) {
            Some(t) => match operador_de(t) {
                Some((_, p)) => if p >= min && p < 255 {
                    match fin_precedencia(ts, k + 1, (p + 1) as u8) {
                        Some(c) => if !avanza(ts, k, c) {
                            None
                        } else {
                            match fin_postfijo(ts, c) {
                                Some(d) => if avanza(ts, k, d) {
                                    fin_operadores(ts, d, min)
                                } else {
                                    None
                                },
                                None => None,
                            }
                        },
                        None => None,
                    }
                } else {
                    Some(k)
                },
                None => Some(k),
            },
            None => Some(k),
        }
    }
}

/// Fin de los operadores postfijos que siguen en `k`: `[índice]`, `.campo`,
/// `.método(args)` y `?`.
pub open spec fn fin_postfijo(ts: Seq<TokenConSpan>, k: int) -> Option<int>
    decreases ts.len() - k, 12nat,
{
    if !en_rango(ts, k) {
        None
    } else if hay_token(ts, k, Token::CorcheteAbre) {
        match fin_expresion(ts, k + 1) {
            Some(e) => if k < e && hay_token(ts, e, Token::CorcheteCierra) {
                fin_postfijo(ts, e + 1)
            } else {
                None
            },
            None => None,
        }
    } else if hay_token(ts, k, Token::Punto) {
        if !hay_identificador(ts, k + 1) {
            None
        } else if hay_token(ts, k + 2, Token::ParenAbre) {
            let args = if hay_token(ts, k + 3, Token::ParenCierra) {
                Some(k + 3)
            } else {
                fin_args_metodo(ts, k + 3)
            };
            match args {
                Some(j) => if k < j && hay_token(ts, j, Token::ParenCierra) {
                    fin_postfijo(ts, j + 1)
                } else {
                    None
                },
                None => None,
            }
        } else {
            fin_postfijo(ts, k + 2)
        }
    } else if hay_token(ts, k, Token::Interrogacion) {
        fin_postfijo(ts, k + 1)
    } else {
        Some(k)
    }
}

/// Fin de los argumentos de una llamada a método: una expresión y más tras cada coma.
pub open spec fn fin_args_metodo(ts: Seq<TokenConSpan>, i: int) -> Option<int>
    decreases ts.len() - i, 16nat,
{
    if !en_rango(ts, i) {
        None
    } else {
        match fin_expresion(ts, i) {
            Some(e) => if i < e && hay_token(ts, e, Token::Coma) {
                fin_args_metodo(ts, e + 1)
            } else if i < e {
                Some(e)
            } else {
                None
            },
            None => None,
        }
    }
}

/// Fin de un átomo: literal, identificador, llamada, constructor, paréntesis, operador
/// unario, closure, array literal, bloque, `todos`, `mover`, `copiar`, `coincidir` y las
/// formas async.
pub open spec fn fin_atomo(ts: Seq<TokenConSpan>, i: int) -> Option<int>
    decreases ts.len() - i, 11nat,
{
    if !(0 <= i < ts.len()) {
        None
    } else {
        match ts[i].token {
            Token::Pipe => fin_closure(ts, i),
            Token::Menos | Token::Exclamacion | Token::Tilde => fin_atomo(ts, i + 1),
            Token::Ampersand => if hay_token(ts, i + 1, Token::Mut) {
                fin_expresion(ts, i + 2)
            } else {
                fin_expresion(ts, i + 1)
            },
            Token::Asterisco | Token::Esperar | Token::Lanzar | Token::Todos | Token::Copiar => fin_expresion(
                ts,
                i + 1,
            ),
            Token::Bloquear => if hay_token(ts, i + 1, Token::ParenAbre) {
                match fin_expresion(ts, i + 2) {
                    Some(e) => if hay_token(ts, e, Token::ParenCierra) {
                        Some(e + 1)
                    } else {
                        None
                    },
                    None => None,
                }
            } else {
                None
            },
            Token::DireccionDe | Token::DirDe => if hay_token(ts, i + 1, Token::ParenAbre)
                && hay_identificador(ts, i + 2) && hay_token(ts, i + 3, Token::ParenCierra) {
                Some(i + 4)
            } else {
                None
            },
            Token::EnteroLiteral(v) => if v is Some {
                Some(i + 1)
            } else {
                None
            },
            Token::FlotanteLiteral(v) => if v is Some {
                Some(i + 1)
            } else {
                None
            },
            Token::PalabraLiteral(v) => if v is Some {
                Some(i + 1)
            } else {
                None
            },
            Token::CaracterLiteral(v) => if v is Some {
                Some(i + 1)
            } else {
                None
            },
            Token::Verdadero | Token::Falso => Some(i + 1),
            Token::CorcheteAbre => match fin_elementos(ts, i + 1) {
                Some(j) => if hay_token(ts, j, Token::CorcheteCierra) {
                    Some(j + 1)
                } else {
                    None
                },
                None => None,
            },
            Token::LlaveAbre => fin_bloque(ts, i),
            Token::Mover => if !hay_identificador(ts, i + 1) {
                None
            } else if identificador_es(ts, i + 2, "a"@) {
                fin_expresion(ts, i + 3)
            } else {
                Some(i + 2)
            },
            Token::Resultado => if hay_token(ts, i + 1, Token::Punto) && hay_identificador(ts, i + 2) {
                if hay_token(ts, i + 3, Token::ParenAbre) {
                    fin_args_constructor(ts, i + 4)
                } else {
                    Some(i + 3)
                }
            } else {
                None
            },
            Token::Identificador(_) => fin_identificador(ts, i),
            Token::ParenAbre => match fin_expresion(ts, i + 1) {
                Some(e) => if hay_token(ts, e, Token::ParenCierra) {
                    Some(e + 1)
                } else {
                    None
                },
                None => None,
            },
            Token::Coincidir => fin_coincidir(ts, i),
            _ => None,
        }
    }
}

/// Fin de un closure `|params| cuerpo` que empieza en `i`.
pub open spec fn fin_closure(ts: Seq<TokenConSpan>, i: int) -> Option<int>
    decreases ts.len() - i, 10nat,
{
    if !(0 <= i < ts.len()) {
        None
    } else {
        match fin_params_closure(ts, i + 1) {
            Some(j) => if i < j && hay_token(ts, j, Token::Pipe) {
                if hay_token(ts, j + 1, Token::LlaveAbre) {
                    fin_bloque(ts, j + 1)
                } else {
                    fin_expresion(ts, j + 1)
                }
            } else {
                None
            },
            None => None,
        }
    }
}

/// Fin de los parámetros de un closure desde `k`: nombres con tipo opcional, comas
/// opcionales, hasta el `|` de cierre o el final de los tokens.
pub open spec fn fin_params_closure(ts: Seq<TokenConSpan>, k: int) -> Option<int>
    decreases ts.len() - k,
{
    if !en_rango(ts, k) {
        None
    } else if k == ts.len() || hay_token(ts, k, Token::Pipe) {
        Some(k)
    } else if !hay_identificador(ts, k) {
        None
    } else {
        let tras_tipo = if hay_token(ts, k + 1, Token::DosPuntos) {
            fin_tipo(ts, k + 2)
        } else {
            Some(k + 1)
        };
        match tras_tipo {
            Some(a) => if k < a {
                if hay_token(ts, a, Token::Coma) {
                    fin_params_closure(ts, a + 1)
                } else if a <= ts.len() {
                    fin_params_closure(ts, a)
                } else {
                    None
                }
            } else {
                None
            },
            None => None,
        }
    }
}

/// Fin de los elementos de un array literal desde `k`, separados por comas, hasta el `]` o
/// el final de los tokens.
pub open spec fn fin_elementos(ts: Seq<TokenConSpan>, k: int) -> Option<int>
    decreases ts.len() - k, 16nat,
{
    if !en_rango(ts, k) {
        None
    } else if k == ts.len() || hay_token(ts, k, Token::CorcheteCierra) {
        Some(k)
    } else {
        match fin_expresion(ts, k) {
            Some(e) => if k < e && hay_token(ts, e, Token::Coma) {
                fin_elementos(ts, e + 1)
            } else if k < e {
                Some(e)
            } else {
                None
            },
            None => None,
        }
    }
}

/// Fin de los argumentos de una llamada desde `k` (tras el `(`), con comas opcionales,
/// incluido el `)` de cierre.
pub open spec fn fin_args_llamada(ts: Seq<TokenConSpan>, k: int) -> Option<int>
    decreases ts.len() - k, 17nat,
{
    match fin_lista_args(ts, k) {
        Some(j) => if hay_token(ts, j, Token::ParenCierra) {
            Some(j + 1)
        } else {
            None
        },
        None => None,
    }
}

/// Fin de una lista de argumentos con comas opcionales desde `k`, hasta el `)` o el final
/// de los tokens.
pub open spec fn fin_lista_args(ts: Seq<TokenConSpan>, k: int) -> Option<int>
    decreases ts.len() - k, 16nat,
{
    if !en_rango(ts, k) {
        None
    } else if k == ts.len() || hay_token(ts, k, Token::ParenCierra) {
        Some(k)
    } else {
        match fin_expresion(ts, k) {
            Some(e) => if k < e && hay_token(ts, e, Token::Coma) {
                fin_lista_args(ts, e + 1)
            } else if avanza(ts, k, e) {
                fin_lista_args(ts, e)
            } else {
                None
            },
            None => None,
        }
    }
}

/// Fin de los argumentos de un constructor desde `k` (tras el `(`), separados por comas,
/// incluido el `)` de cierre.
pub open spec fn fin_args_constructor(ts: Seq<TokenConSpan>, k: int) -> Option<int>
    decreases ts.len() - k, 17nat,
{
    match fin_lista_constructor(ts, k) {
        Some(j) => if hay_token(ts, j, Token::ParenCierra) {
            Some(j + 1)
        } else {
            None
        },
        None => None,
    }
}

/// Fin de una lista de expresiones separadas por comas desde `k`, hasta el `)` o el final
/// de los tokens.
pub open spec fn fin_lista_constructor(ts: Seq<TokenConSpan>, k: int) -> Option<int>
    decreases ts.len() - k, 16nat,
{
    if !en_rango(ts, k) {
        None
    } else if k == ts.len() || hay_token(ts, k, Token::ParenCierra) {
        Some(k)
    } else {
        match fin_expresion(ts, k) {
            Some(e) => if k < e && hay_token(ts, e, Token::Coma) {
                fin_lista_constructor(ts, e + 1)
            } else if k < e {
                Some(e)
            } else {
                None
            },
            None => None,
        }
    }
}

/// Fin de los argumentos de tipo `<T1, T2>` que empiezan en `k`.
pub open spec fn fin_args_tipo(ts: Seq<TokenConSpan>, k: int) -> Option<int> {
    if hay_token(ts, k, Token::MenorQue) {
        match fin_lista_tipos(ts, k + 1) {
            Some(j) => if hay_token(ts, j, Token::MayorQue) {
                Some(j + 1)
            } else {
                None
            },
            None => None,
        }
    } else {
        None
    }
}

/// Fin de una llamada desde `k`, tras el nombre: genérica `<T>(args)`, simple `(args)`, o
/// nada más (`k`).
pub open spec fn fin_tras_nombre(ts: Seq<TokenConSpan>, k: int) -> Option<int>
    decreases ts.len() - k, 18nat,
{
    if !en_rango(ts, k) {
        None
    } else if llamada_generica_en(ts, k) {
        match fin_args_tipo(ts, k) {
            Some(a) => if k < a && hay_token(ts, a, Token::ParenAbre) {
                fin_args_llamada(ts, a + 1)
            } else {
                None
            },
            None => None,
        }
    } else if hay_token(ts, k, Token::ParenAbre) {
        fin_args_llamada(ts, k + 1)
    } else {
        Some(k)
    }
}

/// El identificador en `i` puede nombrar un enum: empieza en mayúscula.
pub open spec fn posible_enum(ts: Seq<TokenConSpan>, i: int) -> bool {
    token_de(ts, i) matches Some(Token::Identificador(n)) && n@.len() > 0 && mayuscula(n@[0])
}

/// Fin de lo que empieza con el identificador en `i`: constructor `Enum.Variante(args)`,
/// ruta `a::b`, llamada cualificada, genérica o simple, o el identificador solo.
pub open spec fn fin_identificador(ts: Seq<TokenConSpan>, i: int) -> Option<int>
    decreases ts.len() - i, 10nat,
{
    if !(0 <= i < ts.len()) {
        None
    } else if posible_enum(ts, i) && hay_token(ts, i + 1, Token::Punto) && hay_identificador(
        ts,
        i + 2,
    ) {
        if hay_token(ts, i + 3, Token::ParenAbre) {
            fin_args_constructor(ts, i + 4)
        } else {
            Some(i + 3)
        }
    } else if hay_token(ts, i + 1, Token::DosPuntos) {
        if hay_token(ts, i + 2, Token::DosPuntos) {
            if llamada_generica_en(ts, i + 3) {
                fin_tras_nombre(ts, i + 3)
            } else if hay_identificador(ts, i + 3) {
                fin_tras_nombre(ts, i + 4)
            } else {
                None
            }
        } else {
            fin_tras_nombre(ts, i + 2)
        }
    } else {
        fin_tras_nombre(ts, i + 1)
    }
}

/// Fin de la cola `.Variante` o `.Variante(binding)` de un patrón, con el `.` en `d`.
pub open spec fn fin_variante_patron(ts: Seq<TokenConSpan>, d: int) -> Option<int> {
    if !hay_identificador(ts, d + 1) {
        None
    } else if hay_token(ts, d + 2, Token::ParenAbre) {
        if hay_identificador(ts, d + 3) && hay_token(ts, d + 4, Token::ParenCierra) {
            Some(d + 5)
        } else {
            None
        }
    } else {
        Some(d + 2)
    }
}

/// Fin de un patrón de match que empieza en `k`: un entero, `_`, `Enum.Variante[(x)]`
/// (también con `Resultado` como enum) o un identificador suelto.
pub open spec fn fin_patron(ts: Seq<TokenConSpan>, k: int) -> Option<int> {
    if token_de(ts, k) matches Some(Token::EnteroLiteral(Some(_))) {
        Some(k + 1)
    } else if hay_token(ts, k, Token::Resultado) {
        if hay_token(ts, k + 1, Token::Punto) {
            fin_variante_patron(ts, k + 1)
        } else {
            None
        }
    } else if !hay_identificador(ts, k) {
        None
    } else if identificador_es(ts, k, "_"@) {
        Some(k + 1)
    } else if hay_token(ts, k + 1, Token::Punto) {
        fin_variante_patron(ts, k + 1)
    } else {
        Some(k + 1)
    }
}

/// Fin de `coincidir sujeto { brazos }` que empieza en `i`.
pub open spec fn fin_coincidir(ts: Seq<TokenConSpan>, i: int) -> Option<int>
    decreases ts.len() - i, 10nat,
{
    if !(0 <= i < ts.len()) {
        None
    } else {
        match fin_expresion(ts, i + 1) {
            Some(e) => if i < e && hay_token(ts, e, Token::LlaveAbre) {
                match fin_brazos(ts, e + 1) {
                    Some(j) => if hay_token(ts, j, Token::LlaveCierra) {
                        Some(j + 1)
                    } else {
                        None
                    },
                    None => None,
                }
            } else {
                None
            },
            None => None,
        }
    }
}

/// Fin de los brazos `patrón => expresión` de un `coincidir` desde `k` (comas opcionales),
/// hasta la `}` o el final de los tokens.
pub open spec fn fin_brazos(ts: Seq<TokenConSpan>, k: int) -> Option<int>
    decreases ts.len() - k, 16nat,
{
    if !en_rango(ts, k) {
        None
    } else if k == ts.len() || hay_token(ts, k, Token::LlaveCierra) {
        Some(k)
    } else {
        match fin_patron(ts, k) {
            Some(p) => if k < p && hay_token(ts, p, Token::FlechaGruesa) {
                match fin_expresion(ts, p + 1) {
                    Some(c) => if k < c && hay_token(ts, c, Token::Coma) {
                        fin_brazos(ts, c + 1)
                    } else if avanza(ts, k, c) {
                        fin_brazos(ts, c)
                    } else {
                        None
                    },
                    None => None,
                }
            } else {
                None
            },
            None => None,
        }
    }
}

/// Fin de un bloque `{ sentencias }` que empieza en `i`.
pub open spec fn fin_bloque(ts: Seq<TokenConSpan>, i: int) -> Option<int>
    decreases ts.len() - i, 10nat,
{
    if hay_token(ts, i, Token::LlaveAbre) {
        match fin_sentencias(ts, i + 1) {
            Some(j) => if hay_token(ts, j, Token::LlaveCierra) {
                Some(j + 1)
            } else {
                None
            },
            None => None,
        }
    } else {
        None
    }
}

/// Fin de las sentencias de un bloque desde `k`, hasta la `}` o el final de los tokens.
pub open spec fn fin_sentencias(ts: Seq<TokenConSpan>, k: int) -> Option<int>
    decreases ts.len() - k, 21nat,
{
    if !en_rango(ts, k) {
        None
    } else if k == ts.len() || hay_token(ts, k, Token::LlaveCierra) {
        Some(k)
    } else {
        match fin_sentencia(ts, k) {
            Some(s) => if avanza(ts, k, s) {
                fin_sentencias(ts, s)
            } else {
                None
            },
            None => None,
        }
    }
}

/// Fin de una sentencia que empieza en `i`.
pub open spec fn fin_sentencia(ts: Seq<TokenConSpan>, i: int) -> Option<int>
    decreases ts.len() - i, 20nat,
{
    if !(0 <= i < ts.len()) {
        fin_expresion_sentencia(ts, i)
    } else {
        match ts[i].token {
            Token::Retornar => {
                let e = if hay_token(ts, i + 1, Token::PuntoYComa) {
                    Some(i + 1)
                } else {
                    fin_expresion(ts, i + 1)
                };
                match e {
                    Some(e) => if hay_token(ts, e, Token::PuntoYComa) {
                        Some(e + 1)
                    } else {
                        None
                    },
                    None => None,
                }
            },
            Token::Si => fin_condicional(ts, i),
            Token::Mientras => match fin_expresion(ts, i + 1) {
                Some(e) => if avanza(ts, i, e) {
                    fin_bloque(ts, e)
                } else {
                    None
                },
                None => None,
            },
            Token::Para => if hay_identificador(ts, i + 1) && hay_token(ts, i + 2, Token::En) {
                match fin_expresion(ts, i + 3) {
                    Some(e) => if avanza(ts, i, e) {
                        fin_bloque(ts, e)
                    } else {
                        None
                    },
                    None => None,
                }
            } else {
                None
            },
            Token::Region => if hay_identificador(ts, i + 1) {
                fin_bloque(ts, i + 2)
            } else {
                None
            },
            Token::Seleccionar => if hay_token(ts, i + 1, Token::LlaveAbre) {
                match fin_ramas(ts, i + 2) {
                    Some(j) => Some(j + 1),
                    None => None,
                }
            } else {
                None
            },
            Token::ConExecutor => if hay_token(ts, i + 1, Token::ParenAbre) {
                match fin_expresion(ts, i + 2) {
                    Some(e) => if i < e && hay_token(ts, e, Token::ParenCierra) {
                        fin_bloque(ts, e + 1)
                    } else {
                        None
                    },
                    None => None,
                }
            } else {
                None
            },
            t => if articulo_de(t) is Some {
                fin_declaracion_variable(ts, i)
            } else if asignacion_en(ts, i) {
                fin_asignacion(ts, i)
            } else {
                fin_expresion_sentencia(ts, i)
            },
        }
    }
}

/// Fin de una expresión usada como sentencia: la expresión y el `;`.
pub open spec fn fin_expresion_sentencia(ts: Seq<TokenConSpan>, i: int) -> Option<int>
    decreases ts.len() - i, 19nat,
{
    match fin_expresion(ts, i) {
        Some(e) => if hay_token(ts, e, Token::PuntoYComa) {
            Some(e + 1)
        } else {
            None
        },
        None => None,
    }
}

/// Fin de un condicional `si ... { } [sino { }]` que empieza en `i`.
pub open spec fn fin_condicional(ts: Seq<TokenConSpan>, i: int) -> Option<int>
    decreases ts.len() - i, 19nat,
{
    if !(0 <= i < ts.len()) || !hay_token(ts, i, Token::Si) {
        None
    } else {
        match fin_expresion(ts, i + 1) {
            Some(e) => if avanza(ts, i, e) {
                let c = fin_condicion(ts, e);
                match c {
                    Some(c) => if avanza(ts, i, c) {
                        match fin_bloque(ts, c) {
                            Some(b) => if i < b && hay_token(ts, b, Token::Sino) {
                                fin_bloque(ts, b + 1)
                            } else {
                                Some(b)
                            },
                            None => None,
                        }
                    } else {
                        None
                    },
                    None => None,
                }
            } else {
                None
            },
            None => None,
        }
    }
}

/// Fin de la condición de un `si` tras su primera expresión, en `e`: `fuese` opcional y,
/// después, `es Enum.Variante [como x]`, `es expresión`, `está [expresión]` o nada.
pub open spec fn fin_condicion(ts: Seq<TokenConSpan>, e: int) -> Option<int>
    decreases ts.len() - e, 17nat,
{
    let k = if hay_token(ts, e, Token::Fuese) {
        e + 1
    } else {
        e
    };
    if hay_token(ts, k, Token::Es) {
        if (hay_identificador(ts, k + 1) || hay_token(ts, k + 1, Token::Resultado)) && hay_token(
            ts,
            k + 2,
            Token::Punto,
        ) && hay_identificador(ts, k + 3) {
            if hay_token(ts, k + 4, Token::Como) {
                if hay_identificador(ts, k + 5) {
                    Some(k + 6)
                } else {
                    None
                }
            } else {
                Some(k + 4)
            }
        } else {
            fin_expresion(ts, k + 1)
        }
    } else if hay_token(ts, k, Token::Esta) {
        if hay_token(ts, k + 1, Token::LlaveAbre) {
            Some(k + 1)
        } else {
            fin_expresion(ts, k + 1)
        }
    } else {
        Some(k)
    }
}

/// Fin de una asignación `x = e;`, `x[i] = e;` o `x.campo = e;` que empieza en `i`.
pub open spec fn fin_asignacion(ts: Seq<TokenConSpan>, i: int) -> Option<int>
    decreases ts.len() - i, 19nat,
{
    if !(0 <= i < ts.len()) || !hay_identificador(ts, i) {
        None
    } else {
        let lugar = if hay_token(ts, i + 1, Token::CorcheteAbre) {
            match fin_expresion(ts, i + 2) {
                Some(e) => if hay_token(ts, e, Token::CorcheteCierra) {
                    Some(e + 1)
                } else {
                    None
                },
                None => None,
            }
        } else if hay_token(ts, i + 1, Token::Punto) {
            if hay_identificador(ts, i + 2) {
                Some(i + 3)
            } else {
                None
            }
        } else {
            Some(i + 1)
        };
        match lugar {
            Some(k) => if i < k && hay_token(ts, k, Token::Igual) {
                fin_expresion_sentencia(ts, k + 1)
            } else {
                None
            },
            None => None,
        }
    }
}

/// Fin de una declaración de variable `artículo nombre [: Tipo] = valor;` que empieza en
/// `i`; el valor puede ser una inicialización de struct `Nombre { campo: valor, ... }`.
pub open spec fn fin_declaracion_variable(ts: Seq<TokenConSpan>, i: int) -> Option<int>
    decreases ts.len() - i, 19nat,
{
    if !(0 <= i < ts.len()) || articulo_de(ts[i].token) is None || !hay_identificador(ts, i + 1) {
        None
    } else {
        let tras_tipo = if hay_token(ts, i + 2, Token::DosPuntos) {
            fin_tipo(ts, i + 3)
        } else {
            Some(i + 2)
        };
        match tras_tipo {
            Some(k) => if i < k && hay_token(ts, k, Token::Igual) {
                let v = k + 1;
                let valor = if hay_identificador(ts, v) && hay_token(ts, v + 1, Token::LlaveAbre) {
                    fin_inicializacion_struct(ts, v)
                } else {
                    fin_expresion(ts, v)
                };
                match valor {
                    Some(e) => if hay_token(ts, e, Token::PuntoYComa) {
                        Some(e + 1)
                    } else {
                        None
                    },
                    None => None,
                }
            } else {
                None
            },
            None => None,
        }
    }
}

/// Fin de una inicialización de struct `Nombre { campo: valor, ... }` que empieza en `v`.
pub open spec fn fin_inicializacion_struct(ts: Seq<TokenConSpan>, v: int) -> Option<int>
    decreases ts.len() - v, 17nat,
{
    if 0 <= v && hay_token(ts, v + 1, Token::LlaveAbre) {
        match fin_campos_struct(ts, v + 2) {
            Some(j) => if hay_token(ts, j, Token::LlaveCierra) {
                Some(j + 1)
            } else {
                None
            },
            None => None,
        }
    } else {
        None
    }
}

/// Fin de los campos `nombre: valor` de una inicialización de struct desde `k`, separados
/// por comas, hasta la `}` o el final de los tokens.
pub open spec fn fin_campos_struct(ts: Seq<TokenConSpan>, k: int) -> Option<int>
    decreases ts.len() - k, 16nat,
{
    if !en_rango(ts, k) {
        None
    } else if k == ts.len() || hay_token(ts, k, Token::LlaveCierra) {
        Some(k)
    } else if hay_identificador(ts, k) && hay_token(ts, k + 1, Token::DosPuntos) {
        match fin_expresion(ts, k + 2) {
            Some(e) => if k < e && hay_token(ts, e, Token::Coma) {
                fin_campos_struct(ts, e + 1)
            } else if k < e {
                Some(e)
            } else {
                None
            },
            None => None,
        }
    } else {
        None
    }
}

/// Fin de las ramas de un `seleccionar` desde `k`, incluida la `}` que las cierra: `_` o
/// `canal como v`, luego `=> { ... }` y una coma opcional.
pub open spec fn fin_ramas(ts: Seq<TokenConSpan>, k: int) -> Option<int>
    decreases ts.len() - k, 16nat,
{
    if !en_rango(ts, k) {
        None
    } else if hay_token(ts, k, Token::LlaveCierra) {
        Some(k)
    } else {
        let cabeza = if identificador_es(ts, k, "_"@) {
            Some(k + 1)
        } else {
            match fin_expresion(ts, k) {
                Some(e) => if hay_token(ts, e, Token::Como) && hay_identificador(ts, e + 1) {
                    Some(e + 2)
                } else {
                    None
                },
                None => None,
            }
        };
        match cabeza {
            Some(a) => if k < a && hay_token(ts, a, Token::FlechaGruesa) {
                match fin_bloque(ts, a + 1) {
                    Some(b) => if k < b && hay_token(ts, b, Token::Coma) {
                        fin_ramas(ts, b + 1)
                    } else if avanza(ts, k, b) {
                        fin_ramas(ts, b)
                    } else {
                        None
                    },
                    None => None,
                }
            } else {
                None
            },
            None => None,
        }
    }
}

} // verus!
