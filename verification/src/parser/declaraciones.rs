use vstd::prelude::*;
use crate::ast::{
    Articulo, Bloque, Campo, CampoBits, Declaracion, Efecto, EnumeracionDecl, EstructuralDecl,
    FirmaMetodo, FuncionDecl, ImplDecl, ModuloDecl, NivelVerificacion, Parametro, ParametroGenerico,
    PruebaDecl, RasgoDecl, Tipo, UsarDecl, Variante,
};
use crate::lexer::{Token, TokenConSpan, nombre_token};
use crate::span::{Posicion, Span};
use crate::texto::{texto, agregar, es_texto};
use crate::parser::{ParserCursor, avance, conserva, token_de, posicion_cero};
use crate::parser::errores::{ErrorSintaxis, mensaje_esperaba};
use crate::parser::tipos::{parse_articulo, parse_tipo, hay_token, fin_tipo, forma_tipo, articulo_de};
use crate::parser::sentencias::parse_bloque;
use crate::parser::sintaxis::{lee, fin_bloque, hay_identificador};
use crate::parser::arbol::bloque_arbol;

verus! {

/// Lo que garantiza un parser de declaraciones: los tokens no cambian, la posición no
/// retrocede ni pasa del final y, si hay éxito, se consumió al menos un token y los genéricos
/// activos son los de antes. (Tras un error de una función, los genéricos activos pueden ser
/// los de esa función.)
pub open spec fn avance_decl<T>(
    antes: &ParserCursor,
    despues: &ParserCursor,
    r: Result<T, ErrorSintaxis>,
) -> bool {
    &&& despues.valido()
    &&& despues.toks() == antes.toks()
    &&& antes.pos() <= despues.pos()
    &&& r is Ok ==> antes.pos() < despues.pos() && despues.gens() == antes.gens()
}

/// Tokens en los que se retoma el parseo tras un error en una declaración.
pub open spec fn es_de_sincronizacion(t: Token) -> bool {
    ||| t is Funcion
    ||| t is Inseguro
    ||| t is Estructural
    ||| t is Enumeracion
    ||| t is Modulo
    ||| t is Usar
}

/// Mensaje del error por un token que no puede empezar una declaración.
pub open spec fn mensaje_declaracion_inesperada(t: Token) -> Seq<char> {
    "token inesperado en declaración top-level: '"@ + nombre_token(t) + "'"@
}

/// Parsea una declaración top-level.
pub fn parse_declaracion(cursor: &mut ParserCursor) -> (r: Result<Declaracion, ErrorSintaxis>)
    requires
        old(cursor).valido(),
    ensures
        avance_decl(old(cursor), final(cursor), r),
        match old(cursor).actual_spec() {
            Some(t) => {
                &&& es_de_sincronizacion(t) ==> old(cursor).pos() < final(cursor).pos()
                &&& r matches Ok(d) ==> match t {
                    Token::Inseguro | Token::Funcion | Token::Fut | Token::ArticuloEl
                    | Token::ArticuloLa => d is Funcion,
                    Token::Estructural => d is Estructural,
                    Token::Enumeracion => d is Enumeracion,
                    Token::Modulo => d is Modulo,
                    Token::Usar => d is Usar,
                    Token::Rasgo => d is Rasgo,
                    Token::Implementar => d is Implementacion,
                    Token::Prueba => d is Prueba,
                    _ => false,
                }
                &&& match t {
                    Token::Inseguro | Token::Funcion | Token::Fut | Token::ArticuloEl
                    | Token::ArticuloLa | Token::Estructural | Token::Enumeracion | Token::Modulo
                    | Token::Usar | Token::Rasgo | Token::Implementar | Token::Prueba => true,
                    _ => r matches Err(e) && final(cursor).pos() == old(cursor).pos() && e.es(
                        8,
                        old(cursor).toks()[old(cursor).pos()].span,
                        mensaje_declaracion_inesperada(t),
                    ) && e.error.sugerencia is None,
                }
            },
            None => r matches Err(e) && final(cursor).pos() == old(cursor).pos() && e.es(
                2,
                e.error.span,
                "fin de archivo inesperado"@,
            ) && e.error.span.es_vacio(),
        },
        old(cursor).actual_spec() == Some(Token::Estructural) ==> {
            &&& r is Ok <==> estructural_en(old(cursor).toks(), old(cursor).pos()) is Some
            &&& r matches Ok(d) ==> estructural_leido(
                old(cursor).toks(),
                old(cursor).gens(),
                old(cursor).pos(),
                d,
                final(cursor).pos(),
            )
        },
        old(cursor).actual_spec() == Some(Token::Enumeracion) ==> {
            &&& r is Ok <==> enumeracion_en(old(cursor).toks(), old(cursor).pos()) is Some
            &&& r matches Ok(d) ==> enumeracion_leida(
                old(cursor).toks(),
                old(cursor).gens(),
                old(cursor).pos(),
                d,
                final(cursor).pos(),
            )
        },
        old(cursor).actual_spec() == Some(Token::Usar) ==> {
            &&& r is Ok <==> usar_en(old(cursor).toks(), old(cursor).pos()) is Some
            &&& r matches Ok(d) ==> usar_leido(old(cursor).toks(), old(cursor).pos(), d, final(cursor).pos())
        },
        old(cursor).actual_spec() == Some(Token::Rasgo) ==> {
            &&& r is Ok <==> rasgo_en(old(cursor).toks(), old(cursor).pos()) is Some
            &&& r matches Ok(d) ==> rasgo_leido(
                old(cursor).toks(),
                old(cursor).gens(),
                old(cursor).pos(),
                d,
                final(cursor).pos(),
            )
        },
        lee(old(cursor), final(cursor), r, fin_declaracion(old(cursor).toks(), old(cursor).pos())),
        match old(cursor).actual_spec() {
            Some(Token::Inseguro) | Some(Token::Funcion) | Some(Token::Fut) => r matches Ok(d) ==> d matches Declaracion::Funcion(f)
                && f.visibilidad is None && funcion_leida(
                old(cursor).toks(),
                old(cursor).gens(),
                old(cursor).pos(),
                f,
            ),
            Some(Token::ArticuloEl) => r matches Ok(d) ==> d matches Declaracion::Funcion(f) && f.visibilidad
                == Some(Articulo::El) && funcion_leida(
                old(cursor).toks(),
                old(cursor).gens(),
                old(cursor).pos() + 1,
                f,
            ),
            Some(Token::ArticuloLa) => r matches Ok(d) ==> d matches Declaracion::Funcion(f) && f.visibilidad
                == Some(Articulo::La) && funcion_leida(
                old(cursor).toks(),
                old(cursor).gens(),
                old(cursor).pos() + 1,
                f,
            ),
            _ => true,
        },
        r matches Ok(d) ==> declaracion_leida(old(cursor).toks(), old(cursor).gens(), old(cursor).pos(), d),
    decreases old(cursor).restantes(), 1nat,
{
    match cursor.actual() {
        Some(Token::Inseguro) | Some(Token::Funcion) | Some(Token::Fut) => parse_funcion(cursor),
        Some(Token::Estructural) => parse_estructural(cursor),
        Some(Token::Enumeracion) => parse_enumeracion(cursor),
        Some(Token::Modulo) => parse_modulo(cursor),
        Some(Token::Usar) => parse_usar(cursor),
        Some(Token::Rasgo) => parse_rasgo(cursor),
        Some(Token::Implementar) => parse_impl(cursor),
        Some(Token::Prueba) => parse_prueba(cursor),
        // Visibilidad: `el función` o `la función`
        Some(Token::ArticuloEl) | Some(Token::ArticuloLa) => {
            let span_articulo = cursor.span_actual();
            let articulo = if cursor.es_actual(&Token::ArticuloEl) {
                Some(Articulo::El)
            } else {
                Some(Articulo::La)
            };
            cursor.avanzar();  // artículo
            if cursor.es_actual(&Token::Funcion) {
                parse_funcion_con_visibilidad(cursor, articulo)
            } else {
                Err(
                    ErrorSintaxis::nuevo(
                        12,
                        span_articulo,
                        texto(
                            "el artículo 'el'/'la' solo puede preceder a 'función' en contexto de módulo",
                        ),
                    ),
                )
            }
        },
        Some(t) => {
            let nombre = t.nombre();
            let span = cursor.span_actual();
            let mut m = texto("token inesperado en declaración top-level: '");
            agregar(&mut m, nombre.as_str());
            agregar(&mut m, "'");
            Err(ErrorSintaxis::nuevo(8, span, m))
        },
        None => {
            let span = cursor.span_actual();
            Err(ErrorSintaxis::fin_archivo_inesperado(span))
        },
    }
}

/// Fin de la lista de campos de una anotación de efecto desde `k` (tras el `(`): nombres y
/// comas en cualquier orden, hasta el primer token que no es ninguno de los dos, el `)` o el
/// final de los tokens.
pub open spec fn fin_lista_efecto(ts: Seq<TokenConSpan>, k: int) -> int
    decreases ts.len() - k,
{
    if !(0 <= k < ts.len()) || hay_token(ts, k, Token::ParenCierra) {
        k
    } else {
        let a = if hay_identificador(ts, k) {
            k + 1
        } else {
            k
        };
        let b = if hay_token(ts, a, Token::Coma) {
            a + 1
        } else {
            a
        };
        if b == k {
            k
        } else {
            fin_lista_efecto(ts, b)
        }
    }
}

/// Fin de los campos `(campo, ...)` de una anotación de efecto que empiezan en `k`.
pub open spec fn fin_campos_efecto(ts: Seq<TokenConSpan>, k: int) -> Option<int> {
    if hay_token(ts, k, Token::ParenAbre) && hay_token(ts, fin_lista_efecto(ts, k + 1), Token::ParenCierra) {
        Some(fin_lista_efecto(ts, k + 1) + 1)
    } else {
        None
    }
}

/// Fin de la anotación de efecto opcional en `k`: `puro`, `muta(campos)`, `lee(campos)` o
/// nada.
pub open spec fn fin_efecto(ts: Seq<TokenConSpan>, k: int) -> Option<int> {
    if hay_token(ts, k, Token::Puro) {
        Some(k + 1)
    } else if hay_token(ts, k, Token::Muta) || hay_token(ts, k, Token::Lee) {
        fin_campos_efecto(ts, k + 1)
    } else {
        Some(k)
    }
}

/// Fin del nivel de verificación opcional en `k`: `verificado`, `estricto` o nada.
pub open spec fn fin_nivel(ts: Seq<TokenConSpan>, k: int) -> int {
    if hay_token(ts, k, Token::Verificado) || hay_token(ts, k, Token::Estricto) {
        k + 1
    } else {
        k
    }
}

/// Sintaxis de una función desde `p`:
/// `[fut] [inseguro] función nombre[<genéricos>](params) [-> tipo] [efecto] [nivel] cuerpo`,
/// donde el cuerpo es un bloque o, en una función `inseguro`, un `;`.
pub open spec fn fin_funcion(ts: Seq<TokenConSpan>, p: int) -> Option<int> {
    let a = if hay_token(ts, p, Token::Fut) {
        p + 1
    } else {
        p
    };
    let insegura = hay_token(ts, a, Token::Inseguro);
    let b = if insegura {
        a + 1
    } else {
        a
    };
    if !(0 <= p && hay_token(ts, b, Token::Funcion) && hay_identificador(ts, b + 1)) {
        None
    } else {
        let g = if hay_token(ts, b + 2, Token::MenorQue) {
            match genericos_en(ts, b + 2) {
                Some((_, g)) => Some(g),
                None => None,
            }
        } else {
            Some(b + 2)
        };
        match g {
            Some(g) => if !hay_token(ts, g, Token::ParenAbre) {
                None
            } else {
                let x = if hay_token(ts, g + 1, Token::ParenCierra) {
                    Some(g + 1)
                } else {
                    match lista_parametros(ts, g + 1) {
                        Some((_, x)) => Some(x),
                        None => None,
                    }
                };
                match x {
                    Some(x) => if !hay_token(ts, x, Token::ParenCierra) {
                        None
                    } else {
                        let r = if hay_token(ts, x + 1, Token::Flecha) {
                            fin_tipo(ts, x + 2)
                        } else {
                            Some(x + 1)
                        };
                        match r {
                            Some(r) => match fin_efecto(ts, r) {
                                Some(e) => {
                                    let n = fin_nivel(ts, e);
                                    if insegura && hay_token(ts, n, Token::PuntoYComa) {
                                        Some(n + 1)
                                    } else {
                                        fin_bloque(ts, n)
                                    }
                                },
                                None => None,
                            },
                            None => None,
                        }
                    },
                    None => None,
                }
            },
            None => None,
        }
    }
}

/// Nombres que lista una anotación de efecto desde `k` (tras el `(`), en orden.
pub open spec fn nombres_efecto(ts: Seq<TokenConSpan>, k: int) -> Seq<String>
    decreases ts.len() - k,
{
    if !(0 <= k < ts.len()) || hay_token(ts, k, Token::ParenCierra) {
        Seq::empty()
    } else {
        let a = if hay_identificador(ts, k) {
            k + 1
        } else {
            k
        };
        let b = if hay_token(ts, a, Token::Coma) {
            a + 1
        } else {
            a
        };
        if b == k {
            Seq::empty()
        } else if hay_identificador(ts, k) {
            seq![nombre_en(ts, k)] + nombres_efecto(ts, b)
        } else {
            nombres_efecto(ts, b)
        }
    }
}

/// El efecto `ef` es el que anota el token en `k` (con sus campos desde `k + 2`).
pub open spec fn efecto_leido(ts: Seq<TokenConSpan>, k: int, ef: Efecto) -> bool {
    if hay_token(ts, k, Token::Puro) {
        ef is Puro
    } else if hay_token(ts, k, Token::Muta) {
        ef matches Efecto::Muta(cs) && cs@ == nombres_efecto(ts, k + 2)
    } else if hay_token(ts, k, Token::Lee) {
        ef matches Efecto::Lee(cs) && cs@ == nombres_efecto(ts, k + 2)
    } else {
        ef is Conservador
    }
}

/// Nombres de los parámetros genéricos de tipo (los que no llevan tipo), en orden.
pub open spec fn nombres_genericos_de_tipo(ps: Seq<ParametroGenerico>) -> Seq<String>
    decreases ps.len(),
{
    if ps.len() == 0 {
        Seq::empty()
    } else if ps.last().tipo is None {
        nombres_genericos_de_tipo(ps.drop_last()).push(ps.last().nombre)
    } else {
        nombres_genericos_de_tipo(ps.drop_last())
    }
}

/// La cabecera de `f` es la de la función que empieza en `p` (con `gens` como parámetros
/// genéricos activos alrededor), y su cuerpo es el bloque que empieza donde acaba la
/// cabecera (o, en una función `inseguro` terminada en `;`, un bloque vacío).
pub open spec fn funcion_leida(ts: Seq<TokenConSpan>, gens: Seq<String>, p: int, f: FuncionDecl) -> bool {
    let a = if hay_token(ts, p, Token::Fut) {
        p + 1
    } else {
        p
    };
    let insegura = hay_token(ts, a, Token::Inseguro);
    let b = if insegura {
        a + 1
    } else {
        a
    };
    let (pg, g) = if hay_token(ts, b + 2, Token::MenorQue) {
        genericos_en(ts, b + 2)->0
    } else {
        (Seq::empty(), b + 2)
    };
    let activos = nombres_genericos_de_tipo(f.parametros_genericos@);
    let (pp, x) = if hay_token(ts, g + 1, Token::ParenCierra) {
        (Seq::empty(), g + 1)
    } else {
        lista_parametros(ts, g + 1)->0
    };
    let r = if hay_token(ts, x + 1, Token::Flecha) {
        fin_tipo(ts, x + 2)->0
    } else {
        x + 1
    };
    let e = fin_efecto(ts, r)->0;
    let n = fin_nivel(ts, e);
    &&& f.nombre == nombre_en(ts, b + 1)
    &&& f.es_futuro == hay_token(ts, p, Token::Fut)
    &&& f.es_insegura == insegura
    &&& genericos_leidos(ts, gens, pg, f.parametros_genericos@)
    &&& parametros_leidos(ts, activos, pp, f.parametros@)
    &&& if hay_token(ts, x + 1, Token::Flecha) {
        f.retorno matches Some(t) && forma_tipo(ts, activos, x + 2, t)
    } else {
        f.retorno is None
    }
    &&& efecto_leido(ts, r, f.efecto)
    &&& f.nivel_verificacion == (if hay_token(ts, e, Token::Verificado) {
        NivelVerificacion::Verificado
    } else if hay_token(ts, e, Token::Estricto) {
        NivelVerificacion::Estricto
    } else {
        NivelVerificacion::Permisivo
    })
    &&& if insegura && hay_token(ts, n, Token::PuntoYComa) {
        &&& f.cuerpo.sentencias@.len() == 0
        &&& f.cuerpo.span.es_vacio()
        &&& f.span == span_entre(ts, p, n + 1)
    } else {
        &&& f.cuerpo.span == span_entre(ts, n, fin_bloque(ts, n)->0)
        &&& bloque_arbol(ts, activos, n, f.cuerpo)
        &&& f.span == span_entre(ts, p, fin_bloque(ts, n)->0)
    }
}

/// Sintaxis de `implementar Rasgo para Tipo { funciones }` desde `p`.
pub open spec fn fin_impl(ts: Seq<TokenConSpan>, p: int) -> Option<int> {
    if hay_token(ts, p, Token::Implementar) && hay_identificador(ts, p + 1) && hay_token(
        ts,
        p + 2,
        Token::Para,
    ) {
        match fin_tipo(ts, p + 3) {
            Some(t) => if hay_token(ts, t, Token::LlaveAbre) {
                match fin_metodos_impl(ts, t + 1) {
                    Some(j) => if hay_token(ts, j, Token::LlaveCierra) {
                        Some(j + 1)
                    } else {
                        None
                    },
                    None => None,
                }
            } else {
                None
            },
            None => None,
        }
    } else {
        None
    }
}

/// Fin de las funciones de un `implementar` desde `k`: cada una empieza con `función`.
pub open spec fn fin_metodos_impl(ts: Seq<TokenConSpan>, k: int) -> Option<int>
    decreases ts.len() - k,
{
    if !(0 <= k <= ts.len()) {
        None
    } else if hay_token(ts, k, Token::Funcion) {
        match fin_funcion(ts, k) {
            Some(f) => if k < f <= ts.len() {
                fin_metodos_impl(ts, f)
            } else {
                None
            },
            None => None,
        }
    } else {
        Some(k)
    }
}

/// Sintaxis de `prueba "nombre" { ... }` desde `p`.
pub open spec fn fin_prueba(ts: Seq<TokenConSpan>, p: int) -> Option<int> {
    if hay_token(ts, p, Token::Prueba) && (token_de(ts, p + 1) matches Some(
        Token::PalabraLiteral(Some(_)),
    )) {
        fin_bloque(ts, p + 2)
    } else {
        None
    }
}

/// Sintaxis de una declaración top-level desde `p`: dónde termina, o `None` si ahí los
/// tokens no forman una.
pub open spec fn fin_declaracion(ts: Seq<TokenConSpan>, p: int) -> Option<int>
    decreases ts.len() - p, 2nat,
{
    if !(0 <= p < ts.len()) {
        None
    } else {
        match ts[p].token {
            Token::Inseguro | Token::Funcion | Token::Fut => fin_funcion(ts, p),
            Token::ArticuloEl | Token::ArticuloLa => if hay_token(ts, p + 1, Token::Funcion) {
                fin_funcion(ts, p + 1)
            } else {
                None
            },
            Token::Estructural => match estructural_en(ts, p) {
                Some((_, _, e)) => Some(e),
                None => None,
            },
            Token::Enumeracion => match enumeracion_en(ts, p) {
                Some((_, _, e)) => Some(e),
                None => None,
            },
            Token::Modulo => fin_modulo(ts, p),
            Token::Usar => match usar_en(ts, p) {
                Some((_, e)) => Some(e),
                None => None,
            },
            Token::Rasgo => match rasgo_en(ts, p) {
                Some((_, e)) => Some(e),
                None => None,
            },
            Token::Implementar => fin_impl(ts, p),
            Token::Prueba => fin_prueba(ts, p),
            _ => None,
        }
    }
}

/// Sintaxis de `módulo nombre { declaraciones }` desde `p`; si los tokens se acaban antes de
/// la `}`, el módulo termina ahí.
pub open spec fn fin_modulo(ts: Seq<TokenConSpan>, p: int) -> Option<int>
    decreases ts.len() - p, 1nat,
{
    if 0 <= p && hay_identificador(ts, p + 1) && hay_token(ts, p + 2, Token::LlaveAbre) {
        fin_contenido_modulo(ts, p + 3)
    } else {
        None
    }
}

/// Fin del contenido de un módulo desde `k`: declaraciones hasta la `}` (incluida) o el
/// final de los tokens.
pub open spec fn fin_contenido_modulo(ts: Seq<TokenConSpan>, k: int) -> Option<int>
    decreases ts.len() - k, 3nat,
{
    if !(0 <= k <= ts.len()) {
        None
    } else if k == ts.len() {
        Some(k)
    } else if hay_token(ts, k, Token::LlaveCierra) {
        Some(k + 1)
    } else {
        match fin_declaracion(ts, k) {
            Some(d) => if k < d <= ts.len() {
                fin_contenido_modulo(ts, d)
            } else {
                None
            },
            None => None,
        }
    }
}

/// Posiciones donde empiezan las funciones de un `implementar` desde `k`.
pub open spec fn posiciones_metodos(ts: Seq<TokenConSpan>, k: int) -> Seq<int>
    decreases ts.len() - k,
{
    if 0 <= k <= ts.len() && hay_token(ts, k, Token::Funcion) {
        match fin_funcion(ts, k) {
            Some(f) => if k < f <= ts.len() {
                seq![k] + posiciones_metodos(ts, f)
            } else {
                Seq::empty()
            },
            None => Seq::empty(),
        }
    } else {
        Seq::empty()
    }
}

/// Posiciones donde empiezan las declaraciones del contenido de un módulo desde `k`.
pub open spec fn posiciones_contenido(ts: Seq<TokenConSpan>, k: int) -> Seq<int>
    decreases ts.len() - k,
{
    if !(0 <= k < ts.len()) || hay_token(ts, k, Token::LlaveCierra) {
        Seq::empty()
    } else {
        match fin_declaracion(ts, k) {
            Some(d) => if k < d <= ts.len() {
                seq![k] + posiciones_contenido(ts, d)
            } else {
                Seq::empty()
            },
            None => Seq::empty(),
        }
    }
}

/// Posiciones donde empiezan las declaraciones de un programa desde `k`.
pub open spec fn posiciones_programa(ts: Seq<TokenConSpan>, k: int) -> Seq<int>
    decreases ts.len() - k,
{
    if !(0 <= k < ts.len()) {
        Seq::empty()
    } else {
        match fin_declaracion(ts, k) {
            Some(d) => if k < d <= ts.len() {
                seq![k] + posiciones_programa(ts, d)
            } else {
                Seq::empty()
            },
            None => Seq::empty(),
        }
    }
}

/// `d` es la prueba `prueba "nombre" { ... }` que empieza en `p`.
pub open spec fn prueba_leida(ts: Seq<TokenConSpan>, gens: Seq<String>, p: int, d: Declaracion) -> bool {
    let e = fin_prueba(ts, p)->0;
    d matches Declaracion::Prueba(x) && ts[p + 1].token matches Token::PalabraLiteral(Some(n)) && x.nombre
        == n && x.bloque.span == span_entre(ts, p + 2, e) && bloque_arbol(ts, gens, p + 2, x.bloque)
        && x.span == span_entre(ts, p, e)
}

/// `d` es la implementación `implementar Rasgo para Tipo { funciones }` que empieza en `p`.
pub open spec fn impl_leido(ts: Seq<TokenConSpan>, gens: Seq<String>, p: int, d: Declaracion) -> bool {
    let t = fin_tipo(ts, p + 3)->0;
    let ms = posiciones_metodos(ts, t + 1);
    &&& d matches Declaracion::Implementacion(x)
    &&& x.rasgo == nombre_en(ts, p + 1)
    &&& forma_tipo(ts, gens, p + 3, x.tipo)
    &&& x.span == span_entre(ts, p, fin_impl(ts, p)->0)
    &&& x.metodos@.len() == ms.len()
    &&& forall|i: int| 0 <= i < ms.len() ==> funcion_leida(ts, gens, ms[i], #[trigger] x.metodos@[i])
}

/// `d` es la declaración que empieza en `p` (con `gens` como parámetros genéricos activos):
/// su forma completa, con las sentencias de los cuerpos de las funciones y las pruebas.
pub open spec fn declaracion_leida(ts: Seq<TokenConSpan>, gens: Seq<String>, p: int, d: Declaracion) -> bool
    decreases ts.len() - p,
{
    if !(0 <= p < ts.len()) {
        false
    } else {
        match ts[p].token {
            Token::Inseguro | Token::Funcion | Token::Fut => d matches Declaracion::Funcion(f)
                && f.visibilidad is None && funcion_leida(ts, gens, p, f),
            Token::ArticuloEl => d matches Declaracion::Funcion(f) && f.visibilidad == Some(
                Articulo::El,
            ) && funcion_leida(ts, gens, p + 1, f),
            Token::ArticuloLa => d matches Declaracion::Funcion(f) && f.visibilidad == Some(
                Articulo::La,
            ) && funcion_leida(ts, gens, p + 1, f),
            Token::Estructural => estructural_leido(ts, gens, p, d, fin_declaracion(ts, p)->0),
            Token::Enumeracion => enumeracion_leida(ts, gens, p, d, fin_declaracion(ts, p)->0),
            Token::Usar => usar_leido(ts, p, d, fin_declaracion(ts, p)->0),
            Token::Rasgo => rasgo_leido(ts, gens, p, d, fin_declaracion(ts, p)->0),
            Token::Implementar => impl_leido(ts, gens, p, d),
            Token::Prueba => prueba_leida(ts, gens, p, d),
            Token::Modulo => {
                let cs = posiciones_contenido(ts, p + 3);
                &&& d matches Declaracion::Modulo(m)
                &&& m.nombre == nombre_en(ts, p + 1)
                &&& m.span == span_entre(ts, p, fin_modulo(ts, p)->0)
                &&& m.contenido@.len() == cs.len()
                &&& forall|i: int| 0 <= i < cs.len() ==> p < #[trigger] cs[i] <= ts.len()
                &&& forall|i: int|
                    0 <= i < cs.len() && p < cs[i] <= ts.len() ==> declaracion_leida(
                        ts,
                        gens,
                        cs[i],
                        #[trigger] m.contenido@[i],
                    )
            },
            _ => false,
        }
    }
}

/// Las declaraciones `ds` son las que empiezan en las posiciones `ps`.
pub open spec fn declaraciones_leidas(ts: Seq<TokenConSpan>, gens: Seq<String>, ps: Seq<int>, ds: Seq<Declaracion>) -> bool {
    &&& ds.len() == ps.len()
    &&& forall|i: int| 0 <= i < ps.len() ==> declaracion_leida(ts, gens, ps[i], #[trigger] ds[i])
}

/// Sintaxis de un programa desde `k`: declaraciones hasta el final de los tokens.
pub open spec fn programa_desde(ts: Seq<TokenConSpan>, k: int) -> bool
    decreases ts.len() - k,
{
    if !(0 <= k <= ts.len()) {
        false
    } else if k == ts.len() {
        true
    } else {
        match fin_declaracion(ts, k) {
            Some(d) => if k < d <= ts.len() {
                programa_desde(ts, d)
            } else {
                false
            },
            None => false,
        }
    }
}

/// Parsea una función precedida de un artículo de visibilidad (`el función ...` pública,
/// `la función ...` privada); el artículo ya fue consumido.
fn parse_funcion_con_visibilidad(cursor: &mut ParserCursor, articulo: Option<Articulo>) -> (r:
    Result<Declaracion, ErrorSintaxis>)
    requires
        old(cursor).valido(),
    ensures
        avance_decl(old(cursor), final(cursor), r),
        empieza_funcion(old(cursor)) ==> old(cursor).pos() < final(cursor).pos(),
        !empieza_funcion(old(cursor)) ==> error_esperaba_funcion(old(cursor), final(cursor), r),
        r matches Ok(d) ==> d matches Declaracion::Funcion(f) && f.visibilidad == articulo,
        lee(old(cursor), final(cursor), r, fin_funcion(old(cursor).toks(), old(cursor).pos())),
        r matches Ok(d) ==> d matches Declaracion::Funcion(f) && funcion_leida(
            old(cursor).toks(),
            old(cursor).gens(),
            old(cursor).pos(),
            f,
        ),
{
    let func = parse_funcion(cursor)?;
    match func {
        Declaracion::Funcion(mut f) => {
            f.visibilidad = articulo;
            Ok(Declaracion::Funcion(f))
        },
        otra => Ok(otra),
    }
}

/// Parsea los campos de una anotación de efecto: `(campo, campo, ...)`. Un token que no es
/// ni identificador ni coma termina la lista.
fn parse_campos_efecto(cursor: &mut ParserCursor) -> (r: Result<Vec<String>, ErrorSintaxis>)
    requires
        old(cursor).valido(),
    ensures
        avance(old(cursor), final(cursor), r),
        lee(old(cursor), final(cursor), r, fin_campos_efecto(old(cursor).toks(), old(cursor).pos())),
        r matches Ok(cs) ==> cs@ == nombres_efecto(old(cursor).toks(), old(cursor).pos() + 1),
{
    cursor.esperar(Token::ParenAbre)?;
    let mut campos: Vec<String> = Vec::new();
    while !cursor.es_actual(&Token::ParenCierra) && !cursor.esta_vacio()
        invariant_except_break
            fin_lista_efecto(cursor.toks(), cursor.pos()) == fin_lista_efecto(cursor.toks(), old(cursor).pos() + 1),
            campos@ + nombres_efecto(cursor.toks(), cursor.pos()) == nombres_efecto(cursor.toks(), old(cursor).pos() + 1),
        invariant
            conserva(old(cursor), cursor),
            old(cursor).pos() < cursor.pos(),
        ensures
            conserva(old(cursor), cursor),
            old(cursor).pos() < cursor.pos(),
            fin_lista_efecto(cursor.toks(), old(cursor).pos() + 1) == cursor.pos(),
            campos@ == nombres_efecto(cursor.toks(), old(cursor).pos() + 1),
        decreases cursor.restantes(),
    {
        let mut progreso = false;
        if let Some(Token::Identificador(campo)) = cursor.actual() {
            campos.push(campo.clone());
            cursor.avanzar();
            progreso = true;
        }
        if cursor.es_actual(&Token::Coma) {
            cursor.avanzar();
            progreso = true;
        }
        if !progreso {
            break ;
        }
    }
    cursor.esperar(Token::ParenCierra)?;
    Ok(campos)
}

/// Nombres de los parámetros genéricos de tipo (los que no llevan tipo).
fn nombres_de_tipo(params: &Vec<ParametroGenerico>) -> (r: Vec<String>)
    ensures
        r@.len() <= params@.len(),
        r@ == nombres_genericos_de_tipo(params@),
{
    let mut nombres: Vec<String> = Vec::new();
    let mut k: usize = 0;
    while k < params.len()
        invariant
            k <= params@.len(),
            nombres@.len() <= k,
            nombres@ == nombres_genericos_de_tipo(params@.take(k as int)),
        decreases params@.len() - k,
    {
        assert(params@.take(k + 1).drop_last() =~= params@.take(k as int));
        if params[k].tipo.is_none() {
            nombres.push(params[k].nombre.clone());
        }
        k = k + 1;
    }
    assert(params@.take(params@.len() as int) =~= params@);
    nombres
}

/// Parsea la anotación de efecto opcional: `puro`, `muta(campos)` o `lee(campos)`; sin
/// anotación, el efecto es conservador.
fn parse_efecto(cursor: &mut ParserCursor) -> (r: Result<Efecto, ErrorSintaxis>)
    requires
        old(cursor).valido(),
    ensures
        conserva(old(cursor), final(cursor)),
        !(old(cursor).actual_es(Token::Puro) || old(cursor).actual_es(Token::Muta) || old(cursor).actual_es(Token::Lee)) ==> (r matches Ok(Efecto::Conservador) && final(cursor).pos()
            == old(cursor).pos()),
        old(cursor).actual_es(Token::Puro) ==> (r matches Ok(Efecto::Puro) && final(cursor).pos()
            == old(cursor).pos() + 1),
        old(cursor).actual_es(Token::Muta) ==> (r matches Ok(e) ==> e is Muta),
        old(cursor).actual_es(Token::Lee) ==> (r matches Ok(e) ==> e is Lee),
        lee(old(cursor), final(cursor), r, fin_efecto(old(cursor).toks(), old(cursor).pos())),
        r matches Ok(ef) ==> efecto_leido(old(cursor).toks(), old(cursor).pos(), ef),
{
    if cursor.es_actual(&Token::Puro) {
        cursor.avanzar();
        Ok(Efecto::Puro)
    } else if cursor.es_actual(&Token::Muta) {
        cursor.avanzar();
        let campos = parse_campos_efecto(cursor)?;
        Ok(Efecto::Muta(campos))
    } else if cursor.es_actual(&Token::Lee) {
        cursor.avanzar();
        let campos = parse_campos_efecto(cursor)?;
        Ok(Efecto::Lee(campos))
    } else {
        Ok(Efecto::Conservador)
    }
}

/// Parsea el nivel de verificación de ownership opcional: `verificado` o `estricto`; sin
/// anotación, el nivel es permisivo.
fn parse_nivel_verificacion(cursor: &mut ParserCursor) -> (r: NivelVerificacion)
    requires
        old(cursor).valido(),
    ensures
        conserva(old(cursor), final(cursor)),
        r == (if old(cursor).actual_es(Token::Verificado) {
            NivelVerificacion::Verificado
        } else if old(cursor).actual_es(Token::Estricto) {
            NivelVerificacion::Estricto
        } else {
            NivelVerificacion::Permisivo
        }),
        final(cursor).pos() == old(cursor).pos() + (if r == NivelVerificacion::Permisivo {
            0int
        } else {
            1int
        }),
        final(cursor).pos() == fin_nivel(old(cursor).toks(), old(cursor).pos()),
{
    if cursor.es_actual(&Token::Verificado) {
        cursor.avanzar();
        NivelVerificacion::Verificado
    } else if cursor.es_actual(&Token::Estricto) {
        cursor.avanzar();
        NivelVerificacion::Estricto
    } else {
        NivelVerificacion::Permisivo
    }
}

/// `r` es el error «esperaba `función`» en el token actual de `antes`, sin avanzar.
pub open spec fn error_esperaba_funcion(antes: &ParserCursor, despues: &ParserCursor, r: Result<Declaracion, ErrorSintaxis>) -> bool {
    r matches Err(e) && despues.pos() == antes.pos() && antes.span_actual_es(e.error.span) && e.es(
        3,
        e.error.span,
        mensaje_esperaba(
            nombre_token(Token::Funcion),
            match antes.actual_spec() {
                Some(t) => Some(nombre_token(t)),
                None => None,
            },
        ),
    ) && e.error.sugerencia is None
}

/// El token actual empieza una función: `fut`, `inseguro` o `función`.
pub open spec fn empieza_funcion(c: &ParserCursor) -> bool {
    c.actual_es(Token::Fut) || c.actual_es(Token::Inseguro) || c.actual_es(Token::Funcion)
}

/// Parsea una declaración de función:
/// `[fut] [inseguro] función nombre[<genéricos>](params) [-> tipo] [efecto] [nivel] { ... }`;
/// una función `inseguro` puede terminar en `;` sin cuerpo (FFI). Sobre cualquier otro token,
/// el error «esperaba `función`».
#[verifier::spinoff_prover]
#[verifier::rlimit(100)]
pub fn parse_funcion(cursor: &mut ParserCursor) -> (r: Result<Declaracion, ErrorSintaxis>)
    requires
        old(cursor).valido(),
    ensures
        avance_decl(old(cursor), final(cursor), r),
        empieza_funcion(old(cursor)) ==> old(cursor).pos() < final(cursor).pos(),
        !empieza_funcion(old(cursor)) ==> error_esperaba_funcion(old(cursor), final(cursor), r),
        r matches Ok(d) ==> d matches Declaracion::Funcion(f) && f.visibilidad is None
            && f.es_futuro == old(cursor).actual_es(Token::Fut),
        lee(old(cursor), final(cursor), r, fin_funcion(old(cursor).toks(), old(cursor).pos())),
        r matches Ok(d) ==> d matches Declaracion::Funcion(f) && funcion_leida(
            old(cursor).toks(),
            old(cursor).gens(),
            old(cursor).pos(),
            f,
        ),
{
    let span_inicio = cursor.span_actual();
    let es_futuro = if cursor.es_actual(&Token::Fut) {
        cursor.avanzar();
        true
    } else {
        false
    };
    let es_insegura = if cursor.es_actual(&Token::Inseguro) {
        cursor.avanzar();
        true
    } else {
        false
    };
    cursor.esperar(Token::Funcion)?;
    let nombre = match cursor.actual() {
        Some(Token::Identificador(n)) => {
            let n = n.clone();
            cursor.avanzar();
            n
        },
        _ => {
            let span = cursor.span_actual();
            return Err(ErrorSintaxis::identificador_esperado(span, "nombre de función"));
        },
    };
    // Parámetros genéricos opcionales: <T, N: Entero32>
    let parametros_genericos = if cursor.es_actual(&Token::MenorQue) {
        parse_parametros_genericos(cursor)?
    } else {
        Vec::new()
    };
    // Los parámetros de tipo quedan activos para que parse_tipo los reconozca
    let nombres = nombres_de_tipo(&parametros_genericos);
    let anteriores = cursor.fijar_genericos(nombres);
    cursor.esperar(Token::ParenAbre)?;
    let parametros = if cursor.es_actual(&Token::ParenCierra) {
        Vec::new()
    } else {
        parse_parametros(cursor)?
    };
    cursor.esperar(Token::ParenCierra)?;
    let retorno = if cursor.es_actual(&Token::Flecha) {
        cursor.avanzar();
        let t = parse_tipo(cursor)?;
        Some(t)
    } else {
        None
    };
    let efecto = parse_efecto(cursor)?;
    let nivel_verificacion = parse_nivel_verificacion(cursor);
    // FFI (sin cuerpo): termina con punto y coma
    if es_insegura && cursor.es_actual(&Token::PuntoYComa) {
        cursor.avanzar();
        cursor.fijar_genericos(anteriores);
        let span_fin = cursor.span_actual();
        let span = Span::combinar(&span_inicio, &span_fin);
        return Ok(
            Declaracion::Funcion(
                FuncionDecl {
                    nombre,
                    parametros_genericos,
                    parametros,
                    retorno,
                    cuerpo: Bloque { sentencias: Vec::new(), span: Span::vacio() },
                    es_insegura,
                    nivel_verificacion,
                    efecto,
                    visibilidad: None,
                    es_futuro,
                    span,
                },
            ),
        );
    }
    let cuerpo = parse_bloque(cursor)?;
    cursor.fijar_genericos(anteriores);
    let span = Span::combinar(&span_inicio, &cuerpo.span);
    Ok(
        Declaracion::Funcion(
            FuncionDecl {
                nombre,
                parametros_genericos,
                parametros,
                retorno,
                cuerpo,
                es_insegura,
                nivel_verificacion,
                efecto,
                visibilidad: None,
                es_futuro,
                span,
            },
        ),
    )
}

/// Sintaxis de un parámetro `artículo nombre: Tipo` que empieza en `q`: la posición donde
/// termina.
pub open spec fn parametro_en(ts: Seq<TokenConSpan>, q: int) -> Option<int> {
    if 0 <= q < ts.len() && articulo_de(ts[q].token) is Some && (token_de(ts, q + 1) matches Some(
        Token::Identificador(_),
    )) && hay_token(ts, q + 2, Token::DosPuntos) {
        fin_tipo(ts, q + 3)
    } else {
        None
    }
}

/// Sintaxis de una lista de parámetros separados por comas (al menos uno) desde `i`: el
/// inicio y el final de cada uno, y la posición donde termina la lista.
pub open spec fn lista_parametros(ts: Seq<TokenConSpan>, i: int) -> Option<(Seq<(int, int)>, int)>
    decreases ts.len() - i,
{
    if i < 0 || i >= ts.len() {
        None
    } else {
        match parametro_en(ts, i) {
            Some(k) => if i < k && hay_token(ts, k, Token::Coma) {
                match lista_parametros(ts, k + 1) {
                    Some((ps, j)) => Some((seq![(i, k)] + ps, j)),
                    None => None,
                }
            } else {
                Some((seq![(i, k)], k))
            },
            None => None,
        }
    }
}

/// El parámetro `p` es el que ocupa las posiciones de `pp.0` a `pp.1`.
pub open spec fn parametro_leido(ts: Seq<TokenConSpan>, gens: Seq<String>, pp: (int, int), p: Parametro) -> bool {
    &&& p.articulo == articulo_de(ts[pp.0].token)->0
    &&& p.nombre == nombre_en(ts, pp.0 + 1)
    &&& forma_tipo(ts, gens, pp.0 + 3, p.tipo)
    &&& p.span == span_entre(ts, pp.0, pp.1)
}

/// Los parámetros `v` son los que ocupan las posiciones `ps`.
pub open spec fn parametros_leidos(ts: Seq<TokenConSpan>, gens: Seq<String>, ps: Seq<(int, int)>, v: Seq<Parametro>) -> bool {
    &&& v.len() == ps.len()
    &&& forall|k: int| 0 <= k < ps.len() ==> parametro_leido(ts, gens, ps[k], #[trigger] v[k])
}

/// Parsea parámetros de función: `articulo nombre: tipo [, ...]` (al menos uno).
fn parse_parametros(cursor: &mut ParserCursor) -> (r: Result<Vec<Parametro>, ErrorSintaxis>)
    requires
        old(cursor).valido(),
    ensures
        avance(old(cursor), final(cursor), r),
        r matches Ok(ps) ==> ps@.len() > 0,
        r is Ok <==> lista_parametros(old(cursor).toks(), old(cursor).pos()) is Some,
        r matches Ok(v) ==> {
            let l = lista_parametros(old(cursor).toks(), old(cursor).pos())->0;
            &&& final(cursor).pos() == l.1
            &&& parametros_leidos(old(cursor).toks(), old(cursor).gens(), l.0, v@)
        },
    decreases old(cursor).restantes(),
{
    let span_inicio = cursor.span_actual();
    let articulo = parse_articulo(cursor)?;
    let nombre = match cursor.actual() {
        Some(Token::Identificador(n)) => {
            let n = n.clone();
            cursor.avanzar();
            n
        },
        _ => {
            let span = cursor.span_actual();
            return Err(ErrorSintaxis::identificador_esperado(span, "parámetro"));
        },
    };
    cursor.esperar(Token::DosPuntos)?;
    let tipo = parse_tipo(cursor)?;
    let span_fin = cursor.span_actual();
    let span = Span::combinar(&span_inicio, &span_fin);
    let param = Parametro { articulo, nombre, tipo, span };
    if cursor.es_actual(&Token::Coma) {
        cursor.avanzar();
        let mut resto = parse_parametros(cursor)?;
        let ghost previo = resto@;
        resto.insert(0, param);
        assert(resto@ =~= seq![param] + previo);
        Ok(resto)
    } else {
        Ok(vec![param])
    }
}

/// Sintaxis de las restricciones tras `que` desde `c`: los nombres y la posición donde
/// terminan. Cada nombre puede ir seguido de una coma; la lista acaba en el primer token que
/// no es un nombre, tras un nombre sin coma o ante la coma que precede a `>`.
pub open spec fn restricciones_en(ts: Seq<TokenConSpan>, c: int) -> (Seq<String>, int)
    decreases ts.len() - c,
{
    if 0 <= c < ts.len() && ts[c].token is Identificador {
        let b = nombre_en(ts, c);
        if hay_token(ts, c + 1, Token::Coma) {
            if hay_token(ts, c + 2, Token::MayorQue) {
                (seq![b], c + 2)
            } else {
                let (bs, e) = restricciones_en(ts, c + 2);
                (seq![b] + bs, e)
            }
        } else {
            (seq![b], c + 1)
        }
    } else {
        (Seq::empty(), c)
    }
}

/// Posiciones de un parámetro genérico: la del nombre, la del tipo (si es un parámetro
/// const), sus restricciones y su final.
pub struct PosGenerico {
    pub nombre: int,
    pub tipo: Option<int>,
    pub restricciones: Seq<String>,
    pub fin: int,
}

/// Sintaxis de un parámetro genérico que empieza en `q`: `N`, `N: Tipo`, y cualquiera de los
/// dos seguido de `que R1, R2`.
pub open spec fn generico_en(ts: Seq<TokenConSpan>, q: int) -> Option<PosGenerico> {
    if 0 <= q < ts.len() && ts[q].token is Identificador {
        let tras_tipo: Option<(Option<int>, int)> = if hay_token(ts, q + 1, Token::DosPuntos) {
            match fin_tipo(ts, q + 2) {
                Some(k) => Some((Some(q + 2), k)),
                None => None,
            }
        } else {
            Some((None, q + 1))
        };
        match tras_tipo {
            Some((tp, a)) => if 0 <= a < ts.len() && ts[a].token is Identificador && nombre_en(ts, a)@
                == "que"@ {
                let (bs, e) = restricciones_en(ts, a + 1);
                Some(PosGenerico { nombre: q, tipo: tp, restricciones: bs, fin: e })
            } else {
                Some(PosGenerico { nombre: q, tipo: tp, restricciones: Seq::empty(), fin: a })
            },
            None => None,
        }
    } else {
        None
    }
}

/// Sintaxis de la lista de parámetros genéricos desde `i` (tras el `<`): los parámetros y
/// la posición donde termina la lista (el `>` o el final de los tokens).
pub open spec fn lista_genericos(ts: Seq<TokenConSpan>, i: int) -> Option<(Seq<PosGenerico>, int)>
    decreases ts.len() - i,
{
    if i < 0 || i > ts.len() {
        None
    } else if i == ts.len() || hay_token(ts, i, Token::MayorQue) {
        Some((Seq::empty(), i))
    } else {
        match generico_en(ts, i) {
            Some(g) => if i < g.fin && hay_token(ts, g.fin, Token::Coma) {
                match lista_genericos(ts, g.fin + 1) {
                    Some((gs, j)) => Some((seq![g] + gs, j)),
                    None => None,
                }
            } else {
                Some((seq![g], g.fin))
            },
            None => None,
        }
    }
}

/// Sintaxis de `<parámetros genéricos>` desde `p`: los parámetros y la posición siguiente
/// al `>`.
pub open spec fn genericos_en(ts: Seq<TokenConSpan>, p: int) -> Option<(Seq<PosGenerico>, int)> {
    if hay_token(ts, p, Token::MenorQue) {
        match lista_genericos(ts, p + 1) {
            Some((gs, j)) => if hay_token(ts, j, Token::MayorQue) {
                Some((gs, j + 1))
            } else {
                None
            },
            None => None,
        }
    } else {
        None
    }
}

/// El parámetro genérico `g` es el que ocupa las posiciones `pg`.
pub open spec fn generico_leido(ts: Seq<TokenConSpan>, gens: Seq<String>, pg: PosGenerico, g: ParametroGenerico) -> bool {
    &&& g.nombre == nombre_en(ts, pg.nombre)
    &&& match pg.tipo {
        Some(tp) => g.tipo matches Some(t) && forma_tipo(ts, gens, tp, t),
        None => g.tipo is None,
    }
    &&& g.bounds@ == pg.restricciones
    &&& g.span == span_entre(ts, pg.nombre, pg.fin)
}

/// Los parámetros genéricos `v` son los que ocupan las posiciones `ps`.
pub open spec fn genericos_leidos(ts: Seq<TokenConSpan>, gens: Seq<String>, ps: Seq<PosGenerico>, v: Seq<ParametroGenerico>) -> bool {
    &&& v.len() == ps.len()
    &&& forall|k: int| 0 <= k < ps.len() ==> generico_leido(ts, gens, ps[k], #[trigger] v[k])
}

/// Parsea las restricciones tras `que` (ya consumido).
fn parse_restricciones(cursor: &mut ParserCursor) -> (r: Vec<String>)
    requires
        old(cursor).valido(),
    ensures
        conserva(old(cursor), final(cursor)),
        (r@, final(cursor).pos()) == restricciones_en(old(cursor).toks(), old(cursor).pos()),
    decreases old(cursor).restantes(),
{
    let b = match cursor.actual() {
        Some(Token::Identificador(b)) => b.clone(),
        _ => {
            return Vec::new();
        },
    };
    cursor.avanzar();
    if cursor.es_actual(&Token::Coma) {
        cursor.avanzar();
        if cursor.es_actual(&Token::MayorQue) {
            return vec![b];
        }
        let mut resto = parse_restricciones(cursor);
        let ghost previo = resto@;
        resto.insert(0, b);
        assert(resto@ =~= seq![b] + previo);
        resto
    } else {
        vec![b]
    }
}

/// Parsea un parámetro genérico: `N`, `N: Tipo`, con restricciones opcionales `que R1, R2`.
fn parse_generico(cursor: &mut ParserCursor) -> (r: Result<ParametroGenerico, ErrorSintaxis>)
    requires
        old(cursor).valido(),
    ensures
        conserva(old(cursor), final(cursor)),
        r is Ok <==> generico_en(old(cursor).toks(), old(cursor).pos()) is Some,
        r matches Ok(g) ==> {
            let pg = generico_en(old(cursor).toks(), old(cursor).pos())->0;
            &&& final(cursor).pos() == pg.fin
            &&& old(cursor).pos() < pg.fin
            &&& generico_leido(old(cursor).toks(), old(cursor).gens(), pg, g)
        },
    decreases old(cursor).restantes(),
{
    let span_inicio = cursor.span_actual();
    let nombre = match cursor.actual() {
        Some(Token::Identificador(n)) => {
            let n = n.clone();
            cursor.avanzar();
            n
        },
        _ => {
            let span = cursor.span_actual();
            return Err(ErrorSintaxis::identificador_esperado(span, "parámetro genérico"));
        },
    };
    let tipo = if cursor.es_actual(&Token::DosPuntos) {
        cursor.avanzar();
        let t = parse_tipo(cursor)?;
        Some(t)
    } else {
        None
    };
    let hay_que = match cursor.actual() {
        Some(Token::Identificador(s)) => es_texto(s, "que"),
        _ => false,
    };
    let bounds = if hay_que {
        cursor.avanzar();
        parse_restricciones(cursor)
    } else {
        Vec::new()
    };
    let span_fin = cursor.span_actual();
    let span = Span::combinar(&span_inicio, &span_fin);
    Ok(ParametroGenerico { nombre, tipo, bounds, span })
}

/// Parsea la lista de parámetros genéricos (tras el `<`), hasta el `>` sin consumirlo.
fn parse_lista_genericos(cursor: &mut ParserCursor) -> (r: Result<Vec<ParametroGenerico>, ErrorSintaxis>)
    requires
        old(cursor).valido(),
    ensures
        conserva(old(cursor), final(cursor)),
        r is Ok <==> lista_genericos(old(cursor).toks(), old(cursor).pos()) is Some,
        r matches Ok(v) ==> {
            let l = lista_genericos(old(cursor).toks(), old(cursor).pos())->0;
            &&& final(cursor).pos() == l.1
            &&& genericos_leidos(old(cursor).toks(), old(cursor).gens(), l.0, v@)
        },
    decreases old(cursor).restantes(),
{
    if cursor.es_actual(&Token::MayorQue) || cursor.esta_vacio() {
        return Ok(Vec::new());
    }
    let g = parse_generico(cursor)?;
    if cursor.es_actual(&Token::Coma) {
        cursor.avanzar();
        let mut resto = parse_lista_genericos(cursor)?;
        let ghost previo = resto@;
        resto.insert(0, g);
        assert(resto@ =~= seq![g] + previo);
        Ok(resto)
    } else {
        Ok(vec![g])
    }
}

/// Parsea parámetros genéricos: `<T, N: Entero32, T que Comparable, Hashable>`.
fn parse_parametros_genericos(cursor: &mut ParserCursor) -> (r: Result<
    Vec<ParametroGenerico>,
    ErrorSintaxis,
>)
    requires
        old(cursor).valido(),
    ensures
        avance(old(cursor), final(cursor), r),
        r is Ok ==> old(cursor).actual_es(Token::MenorQue) && final(cursor).toks()[final(cursor).pos() - 1].token is MayorQue,
        r is Ok <==> genericos_en(old(cursor).toks(), old(cursor).pos()) is Some,
        r matches Ok(v) ==> {
            let l = genericos_en(old(cursor).toks(), old(cursor).pos())->0;
            &&& final(cursor).pos() == l.1
            &&& genericos_leidos(old(cursor).toks(), old(cursor).gens(), l.0, v@)
        },
{
    cursor.esperar(Token::MenorQue)?;
    let params = parse_lista_genericos(cursor)?;
    cursor.esperar(Token::MayorQue)?;
    Ok(params)
}

/// Ancho en bits de un tipo admitido en un campo de bits: de 8, 16 o 32 bits (un campo de
/// bits tiene de 1 a 32).
fn ancho_de_bits(tipo: &Tipo) -> (r: Option<u32>)
    ensures
        r == (match *tipo {
            Tipo::Natural8 | Tipo::Entero8 => Some(8u32),
            Tipo::Natural16 | Tipo::Entero16 => Some(16u32),
            Tipo::Natural32 | Tipo::Entero32 => Some(32u32),
            _ => None,
        }),
{
    match tipo {
        Tipo::Natural8 | Tipo::Entero8 => Some(8),
        Tipo::Natural16 | Tipo::Entero16 => Some(16),
        Tipo::Natural32 | Tipo::Entero32 => Some(32),
        _ => None,
    }
}

/// Final de un span que acaba en el token `k`: el final de ese token, o la posición cero si
/// no hay token.
pub open spec fn fin_en(ts: Seq<TokenConSpan>, k: int) -> Posicion {
    if 0 <= k < ts.len() {
        ts[k].span.fin
    } else {
        posicion_cero()
    }
}

/// Span que empieza en el token `a` y acaba donde acaba el token `b` (o en la posición
/// cero si no hay token `b`).
pub open spec fn span_entre(ts: Seq<TokenConSpan>, a: int, b: int) -> Span {
    Span { inicio: ts[a].span.inicio, fin: fin_en(ts, b), archivo: ts[a].span.archivo }
}

/// Nombre que lleva el identificador en la posición `k`.
pub open spec fn nombre_en(ts: Seq<TokenConSpan>, k: int) -> String {
    ts[k].token->Identificador_0
}

/// Ancho en bits del tipo que escribe el token, si es un entero admitido en un campo de bits
/// (8, 16 o 32).
pub open spec fn ancho_de_token(t: Option<Token>) -> Option<u32> {
    match t {
        Some(Token::Natural8) | Some(Token::Entero8) => Some(8u32),
        Some(Token::Natural16) | Some(Token::Entero16) => Some(16u32),
        Some(Token::Natural32) | Some(Token::Entero32) => Some(32u32),
        _ => None,
    }
}

/// Siguiente bit libre tras un campo de `ancho` bits en `off` (módulo 2^32).
pub open spec fn bit_siguiente(off: u32, ancho: u32) -> u32 {
    if off + ancho > u32::MAX {
        (off + ancho - 0x1_0000_0000) as u32
    } else {
        (off + ancho) as u32
    }
}

/// Sintaxis de los campos de un bloque `bits { nombre: NaturalN, ... }` desde `i` (tras la
/// `{`), con `off` como siguiente bit libre: los campos, empaquetados en orden, la posición
/// donde termina la lista (la `}` o el final de los tokens) y el siguiente bit libre.
pub open spec fn bloque_bits(ts: Seq<TokenConSpan>, i: int, off: u32) -> Option<(Seq<CampoBits>, int, u32)>
    decreases ts.len() - i,
{
    if i < 0 || i > ts.len() {
        None
    } else if i == ts.len() || hay_token(ts, i, Token::LlaveCierra) {
        Some((Seq::empty(), i, off))
    } else if ts[i].token is Identificador && hay_token(ts, i + 1, Token::DosPuntos) {
        match ancho_de_token(token_de(ts, i + 2)) {
            Some(a) => {
                let campo = CampoBits {
                    nombre: nombre_en(ts, i),
                    ancho_bits: a,
                    offset_bits: off,
                    span: span_entre(ts, i, i + 3),
                };
                if hay_token(ts, i + 3, Token::Coma) {
                    match bloque_bits(ts, i + 4, bit_siguiente(off, a)) {
                        Some((bs, e, o)) => Some((seq![campo] + bs, e, o)),
                        None => None,
                    }
                } else {
                    Some((seq![campo], i + 3, bit_siguiente(off, a)))
                }
            },
            None => None,
        }
    } else {
        None
    }
}

/// Sintaxis de los miembros de un struct desde `i` (tras la `{`), con `off` como siguiente
/// bit libre: los campos ordinarios (posición del nombre, del tipo y del final de cada uno),
/// los campos de bits, la posición donde termina la lista y el siguiente bit libre.
pub open spec fn miembros_struct(ts: Seq<TokenConSpan>, i: int, off: u32) -> Option<
    (Seq<(int, int, int)>, Seq<CampoBits>, int, u32),
>
    decreases ts.len() - i,
{
    if i < 0 || i > ts.len() {
        None
    } else if i == ts.len() || hay_token(ts, i, Token::LlaveCierra) {
        Some((Seq::empty(), Seq::empty(), i, off))
    } else if !(ts[i].token is Identificador) {
        None
    } else if nombre_en(ts, i)@ == "bits"@ && hay_token(ts, i + 1, Token::LlaveAbre) {
        match bloque_bits(ts, i + 2, off) {
            Some((bs, e, o)) => if i < e && hay_token(ts, e, Token::LlaveCierra) {
                let sig = if hay_token(ts, e + 1, Token::Coma) {
                    e + 2
                } else {
                    e + 1
                };
                match miembros_struct(ts, sig, o) {
                    Some((cs, bs2, j, of)) => Some((cs, bs + bs2, j, of)),
                    None => None,
                }
            } else {
                None
            },
            None => None,
        }
    } else if hay_token(ts, i + 1, Token::DosPuntos) {
        match fin_tipo(ts, i + 2) {
            Some(k) => if i < k && hay_token(ts, k, Token::Coma) {
                match miembros_struct(ts, k + 1, off) {
                    Some((cs, bs, j, of)) => Some((seq![(i, i + 2, k)] + cs, bs, j, of)),
                    None => None,
                }
            } else {
                Some((seq![(i, i + 2, k)], Seq::empty(), k, off))
            },
            None => None,
        }
    } else {
        None
    }
}

/// El campo `c` es el que ocupa las posiciones `p` (nombre, tipo y final).
pub open spec fn campo_leido(ts: Seq<TokenConSpan>, gens: Seq<String>, p: (int, int, int), c: Campo) -> bool {
    &&& c.nombre == nombre_en(ts, p.0)
    &&& forma_tipo(ts, gens, p.1, c.tipo)
    &&& c.span == span_entre(ts, p.0, p.2)
}

/// Los campos `cs` son los que ocupan las posiciones `ps`.
pub open spec fn campos_leidos(ts: Seq<TokenConSpan>, gens: Seq<String>, ps: Seq<(int, int, int)>, cs: Seq<Campo>) -> bool {
    &&& cs.len() == ps.len()
    &&& forall|k: int| 0 <= k < ps.len() ==> campo_leido(ts, gens, ps[k], #[trigger] cs[k])
}

/// Sintaxis de `estructural Nombre { miembros }` desde `p`: las posiciones de los campos,
/// los campos de bits y la posición siguiente a la `}`.
pub open spec fn estructural_en(ts: Seq<TokenConSpan>, p: int) -> Option<(Seq<(int, int, int)>, Seq<CampoBits>, int)> {
    if hay_token(ts, p, Token::Estructural) && (token_de(ts, p + 1) matches Some(Token::Identificador(_)))
        && hay_token(ts, p + 2, Token::LlaveAbre) {
        match miembros_struct(ts, p + 3, 0) {
            Some((cs, bs, j, _)) => if hay_token(ts, j, Token::LlaveCierra) {
                Some((cs, bs, j + 1))
            } else {
                None
            },
            None => None,
        }
    } else {
        None
    }
}

/// Los campos de bits están empaquetados en orden desde el bit `off`: cada uno tiene un
/// ancho de 8, 16 o 32 bits y empieza donde acabó el anterior (módulo 2^32).
pub open spec fn empaquetados(bs: Seq<CampoBits>, off: u32) -> bool
    decreases bs.len(),
{
    if bs.len() == 0 {
        true
    } else {
        &&& bs[0].offset_bits == off
        &&& bs[0].ancho_bits == 8 || bs[0].ancho_bits == 16 || bs[0].ancho_bits == 32
        &&& empaquetados(bs.drop_first(), bit_siguiente(off, bs[0].ancho_bits))
    }
}

/// Siguiente bit libre tras empaquetar los campos desde el bit `off`.
pub open spec fn siguiente_libre(bs: Seq<CampoBits>, off: u32) -> u32
    decreases bs.len(),
{
    if bs.len() == 0 {
        off
    } else {
        siguiente_libre(bs.drop_first(), bit_siguiente(off, bs[0].ancho_bits))
    }
}

/// Empaquetar una lista tras otra es empaquetar su concatenación.
proof fn lema_empaquetados_concat(a: Seq<CampoBits>, b: Seq<CampoBits>, off: u32)
    requires
        empaquetados(a, off),
        empaquetados(b, siguiente_libre(a, off)),
    ensures
        empaquetados(a + b, off),
        siguiente_libre(a + b, off) == siguiente_libre(b, siguiente_libre(a, off)),
    decreases a.len(),
{
    if a.len() == 0 {
        assert(a + b =~= b);
    } else {
        assert((a + b).drop_first() =~= a.drop_first() + b);
        lema_empaquetados_concat(a.drop_first(), b, bit_siguiente(off, a[0].ancho_bits));
    }
}

/// Los campos de un bloque `bits` están empaquetados desde `off`, y el bloque deja libre el
/// bit que sigue al último.
proof fn lema_bloque_bits_empaquetado(ts: Seq<TokenConSpan>, i: int, off: u32)
    requires
        bloque_bits(ts, i, off) is Some,
    ensures
        bloque_bits(ts, i, off) matches Some((bs, _, o)) && empaquetados(bs, off) && o
            == siguiente_libre(bs, off),
    decreases ts.len() - i,
{
    if 0 <= i < ts.len() && !hay_token(ts, i, Token::LlaveCierra) {
        let a = ancho_de_token(token_de(ts, i + 2))->0;
        let (bs, _, o) = bloque_bits(ts, i, off)->0;
        assert(bs[0].ancho_bits == a && bs[0].offset_bits == off);
        assert(a == 8 || a == 16 || a == 32);
        if hay_token(ts, i + 3, Token::Coma) {
            lema_bloque_bits_empaquetado(ts, i + 4, bit_siguiente(off, a));
            let (resto, _, o2) = bloque_bits(ts, i + 4, bit_siguiente(off, a))->0;
            assert(bs.drop_first() =~= resto);
            assert(empaquetados(resto, bit_siguiente(off, a)));
            assert(o == o2);
        } else {
            assert(bs.drop_first() =~= Seq::<CampoBits>::empty());
            assert(siguiente_libre(bs.drop_first(), bit_siguiente(off, a)) == bit_siguiente(off, a));
        }
        assert(bs.len() > 0);
        assert(empaquetados(bs.drop_first(), bit_siguiente(off, bs[0].ancho_bits)));
        assert(empaquetados(bs, off));
    }
}

/// Los campos de bits de los miembros de un struct están empaquetados desde `off`.
proof fn lema_miembros_empaquetados(ts: Seq<TokenConSpan>, i: int, off: u32)
    requires
        miembros_struct(ts, i, off) is Some,
    ensures
        miembros_struct(ts, i, off) matches Some((_, bs, _, o)) && empaquetados(bs, off) && o
            == siguiente_libre(bs, off),
    decreases ts.len() - i,
{
    if 0 <= i < ts.len() && !hay_token(ts, i, Token::LlaveCierra) {
        if nombre_en(ts, i)@ == "bits"@ && hay_token(ts, i + 1, Token::LlaveAbre) {
            let (bs, e, o) = bloque_bits(ts, i + 2, off)->0;
            lema_bloque_bits_empaquetado(ts, i + 2, off);
            let sig = if hay_token(ts, e + 1, Token::Coma) {
                e + 2
            } else {
                e + 1
            };
            lema_miembros_empaquetados(ts, sig, o);
            let (_, bs2, _, _) = miembros_struct(ts, sig, o)->0;
            lema_empaquetados_concat(bs, bs2, off);
        } else {
            let k = fin_tipo(ts, i + 2)->0;
            if i < k && hay_token(ts, k, Token::Coma) {
                lema_miembros_empaquetados(ts, k + 1, off);
            }
        }
    }
}

/// Ley de los campos de bits de un struct: cada uno tiene un ancho de 8, 16 o 32 bits (entre
/// 1 y 32) y empieza donde acabó el anterior, desde el bit 0 (módulo 2^32).
pub proof fn ley_campos_de_bits(ts: Seq<TokenConSpan>, p: int)
    requires
        estructural_en(ts, p) is Some,
    ensures
        estructural_en(ts, p) matches Some((_, bs, _)) && empaquetados(bs, 0),
{
    lema_miembros_empaquetados(ts, p + 3, 0);
}

/// `d` es el struct que se lee en `ts` desde `p` y termina antes de `fin`.
pub open spec fn estructural_leido(ts: Seq<TokenConSpan>, gens: Seq<String>, p: int, d: Declaracion, fin: int) -> bool {
    match estructural_en(ts, p) {
        Some((cs, bs, e)) => {
            &&& fin == e
            &&& d matches Declaracion::Estructural(x) && x.nombre == nombre_en(ts, p + 1)
                && campos_leidos(ts, gens, cs, x.campos@) && x.campos_bits@ == bs && x.span
                == span_entre(ts, p, e)
        },
        None => false,
    }
}

/// Parsea los campos de un bloque `bits { ... }` (tras la `{`), hasta la `}` sin consumirla,
/// empaquetándolos en orden desde el bit `off`.
fn parse_bloque_bits(cursor: &mut ParserCursor, off: u32) -> (r: Result<(Vec<CampoBits>, u32), ErrorSintaxis>)
    requires
        old(cursor).valido(),
    ensures
        conserva(old(cursor), final(cursor)),
        r is Ok <==> bloque_bits(old(cursor).toks(), old(cursor).pos(), off) is Some,
        r matches Ok((bs, o)) ==> bloque_bits(old(cursor).toks(), old(cursor).pos(), off) == Some(
            (bs@, final(cursor).pos(), o),
        ),
    decreases old(cursor).restantes(),
{
    if cursor.es_actual(&Token::LlaveCierra) || cursor.esta_vacio() {
        return Ok((Vec::new(), off));
    }
    let span_bit_inicio = cursor.span_actual();
    let nombre_bit = match cursor.actual() {
        Some(Token::Identificador(n)) => {
            let n = n.clone();
            cursor.avanzar();
            n
        },
        _ => {
            let span = cursor.span_actual();
            return Err(ErrorSintaxis::identificador_esperado(span, "nombre de campo de bits"));
        },
    };
    cursor.esperar(Token::DosPuntos)?;
    let tipo = parse_tipo(cursor)?;
    let ancho = match ancho_de_bits(&tipo) {
        Some(a) => a,
        None => {
            let span = cursor.span_actual();
            return Err(
                ErrorSintaxis::nuevo(
                    7,
                    span,
                    texto("Campos de bits requieren tipos Natural8/16/32 o Entero8/16/32"),
                ),
            );
        },
    };
    let span_fin = cursor.span_actual();
    let span_bit = Span::combinar(&span_bit_inicio, &span_fin);
    let campo = CampoBits { nombre: nombre_bit, ancho_bits: ancho, offset_bits: off, span: span_bit };
    let siguiente = off.wrapping_add(ancho);
    if cursor.es_actual(&Token::Coma) {
        cursor.avanzar();
        let (mut bs, o) = parse_bloque_bits(cursor, siguiente)?;
        let ghost previo = bs@;
        bs.insert(0, campo);
        assert(bs@ =~= seq![campo] + previo);
        Ok((bs, o))
    } else {
        Ok((vec![campo], siguiente))
    }
}

/// Parsea los miembros de un struct (tras la `{`), hasta la `}` sin consumirla: campos
/// `nombre: Tipo` y bloques `bits { ... }`, cuyos campos se empaquetan en orden desde el bit
/// `off`.
fn parse_miembros(cursor: &mut ParserCursor, off: u32) -> (r: Result<(Vec<Campo>, Vec<CampoBits>, u32), ErrorSintaxis>)
    requires
        old(cursor).valido(),
    ensures
        conserva(old(cursor), final(cursor)),
        r is Ok <==> miembros_struct(old(cursor).toks(), old(cursor).pos(), off) is Some,
        r matches Ok((cs, bs, o)) ==> {
            let m = miembros_struct(old(cursor).toks(), old(cursor).pos(), off)->0;
            &&& final(cursor).pos() == m.2
            &&& bs@ == m.1
            &&& o == m.3
            &&& campos_leidos(old(cursor).toks(), old(cursor).gens(), m.0, cs@)
        },
    decreases old(cursor).restantes(),
{
    if cursor.es_actual(&Token::LlaveCierra) || cursor.esta_vacio() {
        return Ok((Vec::new(), Vec::new(), off));
    }
    let span_campo_inicio = cursor.span_actual();
    let nombre_campo = match cursor.actual() {
        Some(Token::Identificador(n)) => {
            let n = n.clone();
            cursor.avanzar();
            n
        },
        _ => {
            let span = cursor.span_actual();
            return Err(ErrorSintaxis::identificador_esperado(span, "nombre de campo"));
        },
    };
    // `bits { campo: NaturalN, ... }` — bloque de campos de bits
    if es_texto(&nombre_campo, "bits") && cursor.es_actual(&Token::LlaveAbre) {
        cursor.avanzar();  // {
        let (mut bs, o) = parse_bloque_bits(cursor, off)?;
        cursor.esperar(Token::LlaveCierra)?;
        if cursor.es_actual(&Token::Coma) {
            cursor.avanzar();
        }
        let (cs, mut resto, of) = parse_miembros(cursor, o)?;
        let ghost previo = bs@;
        bs.append(&mut resto);
        return Ok((cs, bs, of));
    }
    cursor.esperar(Token::DosPuntos)?;
    let tipo = parse_tipo(cursor)?;
    let span_fin = cursor.span_actual();
    let span_campo = Span::combinar(&span_campo_inicio, &span_fin);
    let campo = Campo { nombre: nombre_campo, tipo, span: span_campo };
    if cursor.es_actual(&Token::Coma) {
        cursor.avanzar();
        let (mut cs, bs, of) = parse_miembros(cursor, off)?;
        let ghost previo = cs@;
        cs.insert(0, campo);
        assert(cs@ =~= seq![campo] + previo);
        Ok((cs, bs, of))
    } else {
        Ok((vec![campo], Vec::new(), off))
    }
}

/// Parsea una declaración de struct: `estructural Nombre { campo: Tipo, ... }`, con bloques
/// `bits { campo: NaturalN, ... }` cuyos campos se empaquetan en orden desde el bit 0.
pub fn parse_estructural(cursor: &mut ParserCursor) -> (r: Result<Declaracion, ErrorSintaxis>)
    requires
        old(cursor).valido(),
    ensures
        avance(old(cursor), final(cursor), r),
        old(cursor).actual_es(Token::Estructural) ==> old(cursor).pos() < final(cursor).pos(),
        r is Ok <==> estructural_en(old(cursor).toks(), old(cursor).pos()) is Some,
        r matches Ok(d) ==> estructural_leido(old(cursor).toks(), old(cursor).gens(), old(cursor).pos(), d, final(cursor).pos()),
{
    let span_inicio = cursor.span_actual();
    cursor.esperar(Token::Estructural)?;
    let nombre = match cursor.actual() {
        Some(Token::Identificador(n)) => {
            let n = n.clone();
            cursor.avanzar();
            n
        },
        _ => {
            let span = cursor.span_actual();
            return Err(ErrorSintaxis::identificador_esperado(span, "nombre de struct"));
        },
    };
    cursor.esperar(Token::LlaveAbre)?;
    let (campos, campos_bits, _) = parse_miembros(cursor, 0)?;
    cursor.esperar(Token::LlaveCierra)?;
    let span_fin = cursor.span_actual();
    let span = Span::combinar(&span_inicio, &span_fin);
    Ok(Declaracion::Estructural(EstructuralDecl { nombre, campos, campos_bits, span }))
}

/// Sintaxis de los datos de una variante desde `i` (tras el `(`): la posición del nombre y
/// la del tipo de cada dato, y la posición donde termina la lista (el `)` o el final de los
/// tokens).
pub open spec fn datos_variante(ts: Seq<TokenConSpan>, i: int) -> Option<(Seq<(int, int)>, int)>
    decreases ts.len() - i,
{
    if i < 0 || i > ts.len() {
        None
    } else if i == ts.len() || hay_token(ts, i, Token::ParenCierra) {
        Some((Seq::empty(), i))
    } else if ts[i].token is Identificador && hay_token(ts, i + 1, Token::DosPuntos) {
        match fin_tipo(ts, i + 2) {
            Some(k) => if i < k && hay_token(ts, k, Token::Coma) {
                match datos_variante(ts, k + 1) {
                    Some((ds, j)) => Some((seq![(i, i + 2)] + ds, j)),
                    None => None,
                }
            } else {
                Some((seq![(i, i + 2)], k))
            },
            None => None,
        }
    } else {
        None
    }
}

/// Los datos `v` de una variante son los que ocupan las posiciones `ps`.
pub open spec fn datos_leidos(ts: Seq<TokenConSpan>, gens: Seq<String>, ps: Seq<(int, int)>, v: Seq<(String, Tipo)>) -> bool {
    &&& v.len() == ps.len()
    &&& forall|k: int|
        0 <= k < ps.len() ==> (#[trigger] v[k]).0 == nombre_en(ts, ps[k].0) && forma_tipo(
            ts,
            gens,
            ps[k].1,
            v[k].1,
        )
}

/// Posiciones de una variante: su nombre, sus datos (si los tiene) y su final.
pub struct PosVariante {
    pub nombre: int,
    pub datos: Option<Seq<(int, int)>>,
    pub fin: int,
}

/// Sintaxis de una variante que empieza en `q`: `Nombre` o `Nombre(dato: Tipo, ...)`.
pub open spec fn variante_en(ts: Seq<TokenConSpan>, q: int) -> Option<PosVariante> {
    if 0 <= q < ts.len() && ts[q].token is Identificador {
        if hay_token(ts, q + 1, Token::ParenAbre) {
            match datos_variante(ts, q + 2) {
                Some((ds, j)) => if hay_token(ts, j, Token::ParenCierra) {
                    Some(PosVariante { nombre: q, datos: Some(ds), fin: j + 1 })
                } else {
                    None
                },
                None => None,
            }
        } else {
            Some(PosVariante { nombre: q, datos: None, fin: q + 1 })
        }
    } else {
        None
    }
}

/// Sintaxis de la lista de variantes desde `i` (tras la `{`): las variantes y la posición
/// donde termina la lista (la `}` o el final de los tokens).
pub open spec fn lista_variantes(ts: Seq<TokenConSpan>, i: int) -> Option<(Seq<PosVariante>, int)>
    decreases ts.len() - i,
{
    if i < 0 || i > ts.len() {
        None
    } else if i == ts.len() || hay_token(ts, i, Token::LlaveCierra) {
        Some((Seq::empty(), i))
    } else {
        match variante_en(ts, i) {
            Some(v) => if i < v.fin && hay_token(ts, v.fin, Token::Coma) {
                match lista_variantes(ts, v.fin + 1) {
                    Some((vs, j)) => Some((seq![v] + vs, j)),
                    None => None,
                }
            } else {
                Some((seq![v], v.fin))
            },
            None => None,
        }
    }
}

/// La variante `v` es la que ocupa las posiciones `pv`.
pub open spec fn variante_leida(ts: Seq<TokenConSpan>, gens: Seq<String>, pv: PosVariante, v: Variante) -> bool {
    &&& v.nombre == nombre_en(ts, pv.nombre)
    &&& match pv.datos {
        Some(ds) => v.datos matches Some(d) && datos_leidos(ts, gens, ds, d@),
        None => v.datos is None,
    }
    &&& v.span == span_entre(ts, pv.nombre, pv.fin)
}

/// Las variantes `v` son las que ocupan las posiciones `ps`.
pub open spec fn variantes_leidas(ts: Seq<TokenConSpan>, gens: Seq<String>, ps: Seq<PosVariante>, v: Seq<Variante>) -> bool {
    &&& v.len() == ps.len()
    &&& forall|k: int| 0 <= k < ps.len() ==> variante_leida(ts, gens, ps[k], #[trigger] v[k])
}

/// Sintaxis de `enumeración Nombre[<genéricos>] { variantes }` desde `p`: los genéricos, las
/// variantes y la posición siguiente a la `}`.
pub open spec fn enumeracion_en(ts: Seq<TokenConSpan>, p: int) -> Option<(Seq<PosGenerico>, Seq<PosVariante>, int)> {
    if hay_token(ts, p, Token::Enumeracion) && (token_de(ts, p + 1) matches Some(Token::Identificador(_))) {
        let gen: Option<(Seq<PosGenerico>, int)> = if hay_token(ts, p + 2, Token::MenorQue) {
            genericos_en(ts, p + 2)
        } else {
            Some((Seq::empty(), p + 2))
        };
        match gen {
            Some((gs, a)) => if hay_token(ts, a, Token::LlaveAbre) {
                match lista_variantes(ts, a + 1) {
                    Some((vs, j)) => if hay_token(ts, j, Token::LlaveCierra) {
                        Some((gs, vs, j + 1))
                    } else {
                        None
                    },
                    None => None,
                }
            } else {
                None
            },
            None => None,
        }
    } else {
        None
    }
}

/// `d` es la enumeración que se lee en `ts` desde `p` y termina antes de `fin`.
pub open spec fn enumeracion_leida(ts: Seq<TokenConSpan>, gens: Seq<String>, p: int, d: Declaracion, fin: int) -> bool {
    match enumeracion_en(ts, p) {
        Some((gs, vs, e)) => {
            &&& fin == e
            &&& d matches Declaracion::Enumeracion(x) && x.nombre == nombre_en(ts, p + 1)
                && genericos_leidos(ts, gens, gs, x.parametros_genericos@) && variantes_leidas(
                ts,
                gens,
                vs,
                x.variantes@,
            ) && x.span == span_entre(ts, p, e)
        },
        None => false,
    }
}

/// Parsea los datos de una variante: `(nombre: Tipo, ...)` (el `(` ya fue consumido), hasta
/// el `)` sin consumirlo.
fn parse_lista_datos(cursor: &mut ParserCursor) -> (r: Result<Vec<(String, Tipo)>, ErrorSintaxis>)
    requires
        old(cursor).valido(),
    ensures
        conserva(old(cursor), final(cursor)),
        r is Ok <==> datos_variante(old(cursor).toks(), old(cursor).pos()) is Some,
        r matches Ok(v) ==> {
            let l = datos_variante(old(cursor).toks(), old(cursor).pos())->0;
            &&& final(cursor).pos() == l.1
            &&& datos_leidos(old(cursor).toks(), old(cursor).gens(), l.0, v@)
        },
    decreases old(cursor).restantes(),
{
    if cursor.es_actual(&Token::ParenCierra) || cursor.esta_vacio() {
        return Ok(Vec::new());
    }
    let nombre_campo = match cursor.actual() {
        Some(Token::Identificador(n)) => {
            let n = n.clone();
            cursor.avanzar();
            n
        },
        _ => {
            let span = cursor.span_actual();
            return Err(ErrorSintaxis::identificador_esperado(span, "nombre de campo en variante"));
        },
    };
    cursor.esperar(Token::DosPuntos)?;
    let tipo = parse_tipo(cursor)?;
    let dato = (nombre_campo, tipo);
    if cursor.es_actual(&Token::Coma) {
        cursor.avanzar();
        let mut resto = parse_lista_datos(cursor)?;
        let ghost previo = resto@;
        resto.insert(0, dato);
        assert(resto@ =~= seq![dato] + previo);
        Ok(resto)
    } else {
        Ok(vec![dato])
    }
}

/// Parsea una variante: `Nombre` o `Nombre(dato: Tipo, ...)`.
fn parse_variante(cursor: &mut ParserCursor) -> (r: Result<Variante, ErrorSintaxis>)
    requires
        old(cursor).valido(),
    ensures
        conserva(old(cursor), final(cursor)),
        r is Ok <==> variante_en(old(cursor).toks(), old(cursor).pos()) is Some,
        r matches Ok(v) ==> {
            let pv = variante_en(old(cursor).toks(), old(cursor).pos())->0;
            &&& final(cursor).pos() == pv.fin
            &&& variante_leida(old(cursor).toks(), old(cursor).gens(), pv, v)
        },
{
    let span_variante_inicio = cursor.span_actual();
    let nombre_variante = match cursor.actual() {
        Some(Token::Identificador(n)) => {
            let n = n.clone();
            cursor.avanzar();
            n
        },
        _ => {
            let span = cursor.span_actual();
            return Err(ErrorSintaxis::identificador_esperado(span, "nombre de variante"));
        },
    };
    let datos = if cursor.es_actual(&Token::ParenAbre) {
        cursor.avanzar();  // (
        let campos = parse_lista_datos(cursor)?;
        cursor.esperar(Token::ParenCierra)?;
        Some(campos)
    } else {
        None
    };
    let span_fin = cursor.span_actual();
    let span_variante = Span::combinar(&span_variante_inicio, &span_fin);
    Ok(Variante { nombre: nombre_variante, datos, span: span_variante })
}

/// Parsea las variantes de una enumeración (tras la `{`), hasta la `}` sin consumirla.
fn parse_lista_variantes(cursor: &mut ParserCursor) -> (r: Result<Vec<Variante>, ErrorSintaxis>)
    requires
        old(cursor).valido(),
    ensures
        conserva(old(cursor), final(cursor)),
        r is Ok <==> lista_variantes(old(cursor).toks(), old(cursor).pos()) is Some,
        r matches Ok(v) ==> {
            let l = lista_variantes(old(cursor).toks(), old(cursor).pos())->0;
            &&& final(cursor).pos() == l.1
            &&& variantes_leidas(old(cursor).toks(), old(cursor).gens(), l.0, v@)
        },
    decreases old(cursor).restantes(),
{
    if cursor.es_actual(&Token::LlaveCierra) || cursor.esta_vacio() {
        return Ok(Vec::new());
    }
    let v = parse_variante(cursor)?;
    if cursor.es_actual(&Token::Coma) {
        cursor.avanzar();
        let mut resto = parse_lista_variantes(cursor)?;
        let ghost previo = resto@;
        resto.insert(0, v);
        assert(resto@ =~= seq![v] + previo);
        Ok(resto)
    } else {
        Ok(vec![v])
    }
}

/// Parsea una enumeración: `enumeración Nombre[<genéricos>] { Variante, Variante(dato: Tipo), ... }`
fn parse_enumeracion(cursor: &mut ParserCursor) -> (r: Result<Declaracion, ErrorSintaxis>)
    requires
        old(cursor).valido(),
    ensures
        avance(old(cursor), final(cursor), r),
        old(cursor).actual_es(Token::Enumeracion) ==> old(cursor).pos() < final(cursor).pos(),
        r is Ok <==> enumeracion_en(old(cursor).toks(), old(cursor).pos()) is Some,
        r matches Ok(d) ==> enumeracion_leida(old(cursor).toks(), old(cursor).gens(), old(cursor).pos(), d, final(cursor).pos()),
{
    let span_inicio = cursor.span_actual();
    cursor.esperar(Token::Enumeracion)?;
    let nombre = match cursor.actual() {
        Some(Token::Identificador(n)) => {
            let n = n.clone();
            cursor.avanzar();
            n
        },
        _ => {
            let span = cursor.span_actual();
            return Err(ErrorSintaxis::identificador_esperado(span, "nombre de enumeración"));
        },
    };
    let parametros_genericos = if cursor.es_actual(&Token::MenorQue) {
        parse_parametros_genericos(cursor)?
    } else {
        Vec::new()
    };
    cursor.esperar(Token::LlaveAbre)?;
    let variantes = parse_lista_variantes(cursor)?;
    cursor.esperar(Token::LlaveCierra)?;
    let span_fin = cursor.span_actual();
    let span = Span::combinar(&span_inicio, &span_fin);
    Ok(Declaracion::Enumeracion(EnumeracionDecl { nombre, parametros_genericos, variantes, span }))
}

/// Parsea un módulo: `módulo nombre { declaraciones }`. Si los tokens se acaban antes de
/// la llave de cierre, el módulo termina ahí.
#[verifier::spinoff_prover]
#[verifier::rlimit(100)]
fn parse_modulo(cursor: &mut ParserCursor) -> (r: Result<Declaracion, ErrorSintaxis>)
    requires
        old(cursor).valido(),
        old(cursor).actual_es(Token::Modulo),
    ensures
        avance_decl(old(cursor), final(cursor), r),
        old(cursor).pos() < final(cursor).pos(),
        r matches Ok(d) ==> d is Modulo,
        lee(old(cursor), final(cursor), r, fin_modulo(old(cursor).toks(), old(cursor).pos())),
        r matches Ok(d) ==> declaracion_leida(old(cursor).toks(), old(cursor).gens(), old(cursor).pos(), d),
    decreases old(cursor).restantes(), 0nat,
{
    let span_inicio = cursor.span_actual();
    cursor.avanzar();  // módulo
    let nombre = match cursor.actual() {
        Some(Token::Identificador(n)) => {
            let n = n.clone();
            cursor.avanzar();
            n
        },
        _ => {
            let span = cursor.span_actual();
            return Err(ErrorSintaxis::identificador_esperado(span, "nombre de módulo"));
        },
    };
    cursor.esperar(Token::LlaveAbre)?;
    let mut contenido: Vec<Declaracion> = Vec::new();
    let ghost ts = cursor.toks();
    let ghost p = old(cursor).pos();
    let ghost gens = cursor.gens();
    let ghost mut hechas: Seq<int> = Seq::empty();
    while !cursor.esta_vacio()
        invariant_except_break
            fin_contenido_modulo(cursor.toks(), cursor.pos()) == fin_contenido_modulo(cursor.toks(), old(cursor).pos() + 3),
            posiciones_contenido(ts, p + 3) == hechas + posiciones_contenido(ts, cursor.pos()),
        invariant
            cursor.valido(),
            cursor.toks() == old(cursor).toks(),
            cursor.gens() == old(cursor).gens(),
            old(cursor).pos() < cursor.pos(),
            ts == old(cursor).toks(),
            p == old(cursor).pos(),
            gens == old(cursor).gens(),
            contenido@.len() == hechas.len(),
            forall|i: int| 0 <= i < hechas.len() ==> p < #[trigger] hechas[i] <= ts.len(),
            forall|i: int| 0 <= i < hechas.len() ==> declaracion_leida(ts, gens, hechas[i], #[trigger] contenido@[i]),
        ensures
            cursor.valido(),
            cursor.toks() == old(cursor).toks(),
            cursor.gens() == old(cursor).gens(),
            old(cursor).pos() < cursor.pos(),
            fin_contenido_modulo(cursor.toks(), old(cursor).pos() + 3) == Some(cursor.pos()),
            posiciones_contenido(ts, p + 3) == hechas,
            contenido@.len() == hechas.len(),
            forall|i: int| 0 <= i < hechas.len() ==> p < #[trigger] hechas[i] <= ts.len(),
            forall|i: int| 0 <= i < hechas.len() ==> declaracion_leida(ts, gens, hechas[i], #[trigger] contenido@[i]),
        decreases cursor.restantes(),
    {
        if cursor.es_actual(&Token::LlaveCierra) {
            cursor.avanzar();
            break ;
        }
        let ghost k = cursor.pos();
        let d = parse_declaracion(cursor)?;
        proof {
            assert(posiciones_contenido(ts, k) == seq![k] + posiciones_contenido(ts, cursor.pos()));
            assert(hechas + posiciones_contenido(ts, k) == hechas.push(k) + posiciones_contenido(ts, cursor.pos()));
            hechas = hechas.push(k);
        }
        contenido.push(d);
    }
    let span_fin = cursor.span_actual();
    let span = Span::combinar(&span_inicio, &span_fin);
    Ok(Declaracion::Modulo(ModuloDecl { nombre, contenido, span }))
}

/// Sintaxis de la ruta de `usar` desde `i`: nombres separados por `::`, o `*` como último
/// elemento; los elementos (como textos) y la posición donde termina.
pub open spec fn ruta_usar(ts: Seq<TokenConSpan>, i: int) -> Option<(Seq<Seq<char>>, int)>
    decreases ts.len() - i,
{
    if 0 <= i < ts.len() && ts[i].token is Identificador {
        let n = nombre_en(ts, i)@;
        if hay_token(ts, i + 1, Token::DosPuntos) {
            if hay_token(ts, i + 2, Token::DosPuntos) {
                match ruta_usar(ts, i + 3) {
                    Some((r, j)) => Some((seq![n] + r, j)),
                    None => None,
                }
            } else {
                None
            }
        } else {
            Some((seq![n], i + 1))
        }
    } else if hay_token(ts, i, Token::Asterisco) {
        Some((seq!["*"@], i + 1))
    } else {
        None
    }
}

/// Sintaxis de `usar ruta;` desde `p`: la ruta y la posición siguiente al `;`.
pub open spec fn usar_en(ts: Seq<TokenConSpan>, p: int) -> Option<(Seq<Seq<char>>, int)> {
    if hay_token(ts, p, Token::Usar) {
        match ruta_usar(ts, p + 1) {
            Some((r, j)) => if hay_token(ts, j, Token::PuntoYComa) {
                Some((r, j + 1))
            } else {
                None
            },
            None => None,
        }
    } else {
        None
    }
}

/// Textos de una lista de nombres.
pub open spec fn textos(v: Seq<String>) -> Seq<Seq<char>> {
    v.map_values(|s: String| s@)
}

/// `d` es el `usar` que se lee en `ts` desde `p` y termina antes de `fin`.
pub open spec fn usar_leido(ts: Seq<TokenConSpan>, p: int, d: Declaracion, fin: int) -> bool {
    match usar_en(ts, p) {
        Some((r, e)) => {
            &&& fin == e
            &&& d matches Declaracion::Usar(u) && textos(u.ruta@) == r && u.span == span_entre(ts, p, e)
        },
        None => false,
    }
}

/// Parsea la ruta de `usar` (tras la palabra `usar`): `a::b::c` o `a::*`.
fn parse_ruta_usar(cursor: &mut ParserCursor) -> (r: Result<Vec<String>, ErrorSintaxis>)
    requires
        old(cursor).valido(),
    ensures
        conserva(old(cursor), final(cursor)),
        r is Ok <==> ruta_usar(old(cursor).toks(), old(cursor).pos()) is Some,
        r matches Ok(v) ==> ruta_usar(old(cursor).toks(), old(cursor).pos()) == Some(
            (textos(v@), final(cursor).pos()),
        ),
    decreases old(cursor).restantes(),
{
    let es_asterisco = cursor.es_actual(&Token::Asterisco);
    let nombre = match cursor.actual() {
        Some(Token::Identificador(nombre)) => nombre.clone(),
        _ => {
            if es_asterisco {
                // `usar modulo::*`
                cursor.avanzar();
                let estrella = texto("*");
                proof {
                    assert(textos(seq![estrella]) =~= seq!["*"@]);
                }
                return Ok(vec![estrella]);
            }
            let span = cursor.span_actual();
            return Err(ErrorSintaxis::identificador_esperado(span, "nombre de módulo en 'usar'"));
        },
    };
    cursor.avanzar();
    // Sigue `::` o termina
    if cursor.es_actual(&Token::DosPuntos) {
        cursor.avanzar();
        if cursor.es_actual(&Token::DosPuntos) {
            cursor.avanzar();
        } else {
            let span = cursor.span_actual();
            return Err(
                ErrorSintaxis::nuevo(13, span, texto("se esperaba '::' después del nombre del módulo")),
            );
        }
        let mut resto = parse_ruta_usar(cursor)?;
        let ghost previo = resto@;
        resto.insert(0, nombre);
        assert(textos(resto@) =~= seq![nombre@] + textos(previo));
        Ok(resto)
    } else {
        proof {
            assert(textos(seq![nombre]) =~= seq![nombre@]);
        }
        Ok(vec![nombre])
    }
}

/// Parsea `usar modulo::elemento;` o `usar modulo::*;`.
fn parse_usar(cursor: &mut ParserCursor) -> (r: Result<Declaracion, ErrorSintaxis>)
    requires
        old(cursor).valido(),
        old(cursor).actual_es(Token::Usar),
    ensures
        avance(old(cursor), final(cursor), r),
        old(cursor).pos() < final(cursor).pos(),
        r matches Ok(d) ==> d matches Declaracion::Usar(u) && u.ruta@.len() > 0,
        r is Ok <==> usar_en(old(cursor).toks(), old(cursor).pos()) is Some,
        r matches Ok(d) ==> usar_leido(old(cursor).toks(), old(cursor).pos(), d, final(cursor).pos()),
{
    let span_inicio = cursor.span_actual();
    cursor.avanzar();  // usar
    let ruta = parse_ruta_usar(cursor)?;
    assert(textos(ruta@).len() == ruta@.len());
    cursor.esperar(Token::PuntoYComa)?;
    let span_fin = cursor.span_actual();
    let span = Span::combinar(&span_inicio, &span_fin);
    Ok(Declaracion::Usar(UsarDecl { ruta, span }))
}

/// Posiciones de la firma de un método de rasgo: su inicio (la palabra `función`), sus
/// parámetros, su tipo de retorno (si lo tiene) y su final.
pub struct PosMetodo {
    pub inicio: int,
    pub parametros: Seq<(int, int)>,
    pub retorno: Option<int>,
    pub fin: int,
}

/// Sintaxis de `función nombre(parámetros) [-> Tipo];` desde `q`.
pub open spec fn metodo_en(ts: Seq<TokenConSpan>, q: int) -> Option<PosMetodo> {
    if hay_token(ts, q, Token::Funcion) && (token_de(ts, q + 1) matches Some(Token::Identificador(_)))
        && hay_token(ts, q + 2, Token::ParenAbre) {
        let params: Option<(Seq<(int, int)>, int)> = if hay_token(ts, q + 3, Token::ParenCierra) {
            Some((Seq::empty(), q + 3))
        } else {
            lista_parametros(ts, q + 3)
        };
        match params {
            Some((ps, a)) => if hay_token(ts, a, Token::ParenCierra) {
                let ret: Option<(Option<int>, int)> = if hay_token(ts, a + 1, Token::Flecha) {
                    match fin_tipo(ts, a + 2) {
                        Some(b) => Some((Some(a + 2), b)),
                        None => None,
                    }
                } else {
                    Some((None, a + 1))
                };
                match ret {
                    Some((rt, b)) => if hay_token(ts, b, Token::PuntoYComa) {
                        Some(PosMetodo { inicio: q, parametros: ps, retorno: rt, fin: b + 1 })
                    } else {
                        None
                    },
                    None => None,
                }
            } else {
                None
            },
            None => None,
        }
    } else {
        None
    }
}

/// Sintaxis de las firmas de un rasgo desde `i` (tras la `{`): las firmas y la posición
/// donde terminan (la `}` o el final de los tokens).
pub open spec fn lista_metodos(ts: Seq<TokenConSpan>, i: int) -> Option<(Seq<PosMetodo>, int)>
    decreases ts.len() - i,
{
    if i < 0 || i > ts.len() {
        None
    } else if i == ts.len() || hay_token(ts, i, Token::LlaveCierra) {
        Some((Seq::empty(), i))
    } else {
        match metodo_en(ts, i) {
            Some(m) => if i < m.fin {
                match lista_metodos(ts, m.fin) {
                    Some((ms, j)) => Some((seq![m] + ms, j)),
                    None => None,
                }
            } else {
                None
            },
            None => None,
        }
    }
}

/// La firma `f` es la que ocupa las posiciones `pm`.
pub open spec fn metodo_leido(ts: Seq<TokenConSpan>, gens: Seq<String>, pm: PosMetodo, f: FirmaMetodo) -> bool {
    &&& f.nombre == nombre_en(ts, pm.inicio + 1)
    &&& parametros_leidos(ts, gens, pm.parametros, f.parametros@)
    &&& match pm.retorno {
        Some(tp) => f.retorno matches Some(t) && forma_tipo(ts, gens, tp, t),
        None => f.retorno is None,
    }
    &&& f.span == ts[pm.inicio].span
}

/// Las firmas `v` son las que ocupan las posiciones `ps`.
pub open spec fn metodos_leidos(ts: Seq<TokenConSpan>, gens: Seq<String>, ps: Seq<PosMetodo>, v: Seq<FirmaMetodo>) -> bool {
    &&& v.len() == ps.len()
    &&& forall|k: int| 0 <= k < ps.len() ==> metodo_leido(ts, gens, ps[k], #[trigger] v[k])
}

/// Sintaxis de `rasgo Nombre { firmas }` desde `p`: las firmas y la posición siguiente a la
/// `}`.
pub open spec fn rasgo_en(ts: Seq<TokenConSpan>, p: int) -> Option<(Seq<PosMetodo>, int)> {
    if hay_token(ts, p, Token::Rasgo) && (token_de(ts, p + 1) matches Some(Token::Identificador(_)))
        && hay_token(ts, p + 2, Token::LlaveAbre) {
        match lista_metodos(ts, p + 3) {
            Some((ms, j)) => if hay_token(ts, j, Token::LlaveCierra) {
                Some((ms, j + 1))
            } else {
                None
            },
            None => None,
        }
    } else {
        None
    }
}

/// `d` es el rasgo que se lee en `ts` desde `p` y termina antes de `fin`.
pub open spec fn rasgo_leido(ts: Seq<TokenConSpan>, gens: Seq<String>, p: int, d: Declaracion, fin: int) -> bool {
    match rasgo_en(ts, p) {
        Some((ms, e)) => {
            &&& fin == e
            &&& d matches Declaracion::Rasgo(x) && x.nombre == nombre_en(ts, p + 1) && metodos_leidos(
                ts,
                gens,
                ms,
                x.metodos@,
            ) && x.span == span_entre(ts, p, e)
        },
        None => false,
    }
}

/// Parsea la firma de un método de rasgo: `función nombre(params) [-> tipo];`.
fn parse_firma_metodo(cursor: &mut ParserCursor) -> (r: Result<FirmaMetodo, ErrorSintaxis>)
    requires
        old(cursor).valido(),
    ensures
        conserva(old(cursor), final(cursor)),
        r is Ok <==> metodo_en(old(cursor).toks(), old(cursor).pos()) is Some,
        r is Ok ==> old(cursor).pos() < final(cursor).pos(),
        r matches Ok(f) ==> {
            let pm = metodo_en(old(cursor).toks(), old(cursor).pos())->0;
            &&& final(cursor).pos() == pm.fin
            &&& metodo_leido(old(cursor).toks(), old(cursor).gens(), pm, f)
        },
{
    if !cursor.es_actual(&Token::Funcion) {
        let span = cursor.span_actual();
        return Err(ErrorSintaxis::nuevo(72, span, texto("Dentro de rasgo solo se permiten funciones")));
    }
    let span_metodo = cursor.span_actual();
    cursor.avanzar();
    let nombre_met = match cursor.actual() {
        Some(Token::Identificador(n)) => {
            let n = n.clone();
            cursor.avanzar();
            n
        },
        _ => {
            let span = cursor.span_actual();
            return Err(ErrorSintaxis::nuevo(71, span, texto("Se esperaba nombre del método")));
        },
    };
    cursor.esperar(Token::ParenAbre)?;
    let params = if cursor.es_actual(&Token::ParenCierra) {
        Vec::new()
    } else {
        parse_parametros(cursor)?
    };
    cursor.esperar(Token::ParenCierra)?;
    let ret = if cursor.es_actual(&Token::Flecha) {
        cursor.avanzar();
        let t = parse_tipo(cursor)?;
        Some(t)
    } else {
        None
    };
    cursor.esperar(Token::PuntoYComa)?;
    Ok(FirmaMetodo { nombre: nombre_met, parametros: params, retorno: ret, span: span_metodo })
}

/// Parsea las firmas de un rasgo (tras la `{`), hasta la `}` sin consumirla.
fn parse_lista_metodos(cursor: &mut ParserCursor) -> (r: Result<Vec<FirmaMetodo>, ErrorSintaxis>)
    requires
        old(cursor).valido(),
    ensures
        conserva(old(cursor), final(cursor)),
        r is Ok <==> lista_metodos(old(cursor).toks(), old(cursor).pos()) is Some,
        r matches Ok(v) ==> {
            let l = lista_metodos(old(cursor).toks(), old(cursor).pos())->0;
            &&& final(cursor).pos() == l.1
            &&& metodos_leidos(old(cursor).toks(), old(cursor).gens(), l.0, v@)
        },
    decreases old(cursor).restantes(),
{
    if cursor.es_actual(&Token::LlaveCierra) || cursor.esta_vacio() {
        return Ok(Vec::new());
    }
    let m = parse_firma_metodo(cursor)?;
    let mut resto = parse_lista_metodos(cursor)?;
    let ghost previo = resto@;
    resto.insert(0, m);
    assert(resto@ =~= seq![m] + previo);
    Ok(resto)
}

/// Parsea un rasgo: `rasgo Nombre { función metodo(params) [-> tipo]; ... }`
fn parse_rasgo(cursor: &mut ParserCursor) -> (r: Result<Declaracion, ErrorSintaxis>)
    requires
        old(cursor).valido(),
        old(cursor).actual_es(Token::Rasgo),
    ensures
        avance(old(cursor), final(cursor), r),
        r matches Ok(d) ==> d is Rasgo,
        r is Ok <==> rasgo_en(old(cursor).toks(), old(cursor).pos()) is Some,
        r matches Ok(d) ==> rasgo_leido(old(cursor).toks(), old(cursor).gens(), old(cursor).pos(), d, final(cursor).pos()),
{
    let span_inicio = cursor.span_actual();
    cursor.avanzar();  // rasgo
    let nombre = match cursor.actual() {
        Some(Token::Identificador(n)) => {
            let n = n.clone();
            cursor.avanzar();
            n
        },
        _ => {
            let span = cursor.span_actual();
            return Err(ErrorSintaxis::nuevo(70, span, texto("Se esperaba nombre del rasgo")));
        },
    };
    cursor.esperar(Token::LlaveAbre)?;
    let metodos = parse_lista_metodos(cursor)?;
    cursor.esperar(Token::LlaveCierra)?;
    let span_fin = cursor.span_actual();
    let span = Span::combinar(&span_inicio, &span_fin);
    Ok(Declaracion::Rasgo(RasgoDecl { nombre, metodos, span }))
}

/// Parsea una implementación: `implementar Rasgo para Tipo { función ... { ... } ... }`
#[verifier::loop_isolation(false)]
fn parse_impl(cursor: &mut ParserCursor) -> (r: Result<Declaracion, ErrorSintaxis>)
    requires
        old(cursor).valido(),
        old(cursor).actual_es(Token::Implementar),
    ensures
        avance_decl(old(cursor), final(cursor), r),
        r matches Ok(d) ==> d is Implementacion,
        lee(old(cursor), final(cursor), r, fin_impl(old(cursor).toks(), old(cursor).pos())),
        r matches Ok(d) ==> impl_leido(old(cursor).toks(), old(cursor).gens(), old(cursor).pos(), d),
{
    let span_inicio = cursor.span_actual();
    cursor.avanzar();  // implementar
    let rasgo = match cursor.actual() {
        Some(Token::Identificador(n)) => {
            let n = n.clone();
            cursor.avanzar();
            n
        },
        _ => {
            let span = cursor.span_actual();
            return Err(ErrorSintaxis::nuevo(73, span, texto("Se esperaba nombre del rasgo")));
        },
    };
    cursor.esperar(Token::Para)?;
    let tipo = parse_tipo(cursor)?;
    cursor.esperar(Token::LlaveAbre)?;
    let mut metodos: Vec<FuncionDecl> = Vec::new();
    let ghost inicio_metodos = cursor.pos();
    let ghost ts = cursor.toks();
    let ghost gens = cursor.gens();
    let ghost mut hechas: Seq<int> = Seq::empty();
    while cursor.es_actual(&Token::Funcion)
        invariant
            cursor.valido(),
            cursor.toks() == old(cursor).toks(),
            cursor.gens() == old(cursor).gens(),
            old(cursor).pos() < cursor.pos(),
            fin_metodos_impl(cursor.toks(), cursor.pos()) == fin_metodos_impl(cursor.toks(), inicio_metodos),
            ts == old(cursor).toks(),
            gens == old(cursor).gens(),
            posiciones_metodos(ts, inicio_metodos) == hechas + posiciones_metodos(ts, cursor.pos()),
            metodos@.len() == hechas.len(),
            forall|i: int| 0 <= i < hechas.len() ==> funcion_leida(ts, gens, hechas[i], #[trigger] metodos@[i]),
        decreases cursor.restantes(),
    {
        let ghost k = cursor.pos();
        let func = parse_funcion(cursor)?;
        proof {
            assert(posiciones_metodos(ts, k) == seq![k] + posiciones_metodos(ts, cursor.pos()));
            assert(hechas + posiciones_metodos(ts, k) == hechas.push(k) + posiciones_metodos(ts, cursor.pos()));
            hechas = hechas.push(k);
        }
        if let Declaracion::Funcion(f) = func {
            metodos.push(f);
        }
    }
    cursor.esperar(Token::LlaveCierra)?;
    let span_fin = cursor.span_actual();
    let span = Span::combinar(&span_inicio, &span_fin);
    Ok(Declaracion::Implementacion(ImplDecl { rasgo, tipo, metodos, span }))
}

/// Parsea una prueba: `prueba "nombre" { ... }`
fn parse_prueba(cursor: &mut ParserCursor) -> (r: Result<Declaracion, ErrorSintaxis>)
    requires
        old(cursor).valido(),
    ensures
        avance(old(cursor), final(cursor), r),
        r matches Ok(d) ==> d is Prueba,
        lee(old(cursor), final(cursor), r, fin_prueba(old(cursor).toks(), old(cursor).pos())),
        r matches Ok(d) ==> prueba_leida(old(cursor).toks(), old(cursor).gens(), old(cursor).pos(), d),
{
    let span_inicio = cursor.span_actual();
    cursor.esperar(Token::Prueba)?;
    let nombre = match cursor.actual() {
        Some(Token::PalabraLiteral(Some(s))) => {
            let s = s.clone();
            cursor.avanzar();
            s
        },
        _ => {
            let span = cursor.span_actual();
            return Err(
                ErrorSintaxis::nuevo(
                    17,
                    span,
                    texto("esperaba nombre de prueba entre comillas: prueba \"nombre\" { ... }"),
                ),
            );
        },
    };
    let bloque = parse_bloque(cursor)?;
    let span_fin = cursor.span_actual();
    let span = Span::combinar(&span_inicio, &span_fin);
    Ok(Declaracion::Prueba(PruebaDecl { nombre, bloque, span }))
}

} // verus!
