pub mod errores;
pub mod tipos;
pub mod expresiones;
pub mod sentencias;
pub mod declaraciones;
pub mod sintaxis;
pub mod arbol;

use vstd::prelude::*;
use crate::span::{Posicion, Span, archivo_de_prueba};
use crate::lexer::{Token, TokenConSpan, nombre_token};
use crate::parser::errores::{ErrorSintaxis, mensaje_esperaba};
use crate::ast::{Declaracion, Programa};
use crate::parser::declaraciones::{
    parse_declaracion, es_de_sincronizacion, programa_desde, posiciones_programa, declaraciones_leidas,
    declaracion_leida, fin_declaracion, mensaje_declaracion_inesperada,
};

verus! {

/// Cursor de parsing: itera sobre tokens con spans y permite lookahead
pub struct ParserCursor {
    tokens: Vec<TokenConSpan>,
    posicion: usize,
    /// Nombres de parámetros genéricos de tipo activos en el scope actual
    genericos: Vec<String>,
}

/// Token de la posición `i`, si la hay.
pub open spec fn token_de(ts: Seq<TokenConSpan>, i: int) -> Option<Token> {
    if 0 <= i < ts.len() {
        Some(ts[i].token)
    } else {
        None
    }
}

/// El token está en la lista (comparando con `Token::igual`).
pub open spec fn en_lista(t: Token, lista: Seq<Token>) -> bool {
    exists|k: int| 0 <= k < lista.len() && (#[trigger] lista[k]).igual(t)
}

/// Primera posición desde `i` cuyo token está en `lista`, o el final de los tokens
/// (o `i` si ya está más allá).
pub open spec fn primera_sincronizacion(ts: Seq<TokenConSpan>, lista: Seq<Token>, i: int) -> int
    decreases ts.len() - i,
{
    if 0 <= i < ts.len() && !en_lista(ts[i].token, lista) {
        primera_sincronizacion(ts, lista, i + 1)
    } else {
        i
    }
}

/// Lo que todo parser garantiza: los tokens y los genéricos activos no cambian, la posición
/// no retrocede ni pasa del final, y si hay éxito se consumió al menos un token.
pub open spec fn avance<T>(
    antes: &ParserCursor,
    despues: &ParserCursor,
    r: Result<T, ErrorSintaxis>,
) -> bool {
    &&& conserva(antes, despues)
    &&& r is Ok ==> antes.pos() < despues.pos()
}

/// Los tokens y los genéricos activos no cambian y la posición no retrocede ni pasa del
/// final.
pub open spec fn conserva(antes: &ParserCursor, despues: &ParserCursor) -> bool {
    &&& despues.valido()
    &&& despues.toks() == antes.toks()
    &&& despues.gens() == antes.gens()
    &&& antes.pos() <= despues.pos()
}

/// Posición de un span vacío.
pub open spec fn posicion_cero() -> Posicion {
    Posicion { linea: 0, columna: 0, offset: 0 }
}

impl ParserCursor {
    /// Tokens que recorre el cursor.
    pub closed spec fn toks(&self) -> Seq<TokenConSpan> {
        self.tokens@
    }

    /// Posición actual del cursor.
    pub closed spec fn pos(&self) -> int {
        self.posicion as int
    }

    /// Nombres de los parámetros genéricos de tipo activos.
    pub closed spec fn gens(&self) -> Seq<String> {
        self.genericos@
    }

    /// La posición no pasa del final de los tokens.
    pub open spec fn valido(&self) -> bool {
        self.pos() <= self.toks().len() <= usize::MAX
    }

    /// El token actual es igual a `t`.
    pub open spec fn actual_es(&self, t: Token) -> bool {
        match self.actual_spec() {
            Some(a) => a.igual(t),
            None => false,
        }
    }

    /// El token `k` posiciones más adelante es igual a `t`.
    pub open spec fn siguiente_es(&self, k: int, t: Token) -> bool {
        match self.siguiente_spec(k) {
            Some(a) => a.igual(t),
            None => false,
        }
    }

    /// Cantidad de tokens que quedan por leer.
    pub open spec fn restantes(&self) -> nat {
        if self.pos() < self.toks().len() {
            (self.toks().len() - self.pos()) as nat
        } else {
            0
        }
    }

    /// Token en la posición actual, si lo hay.
    pub open spec fn actual_spec(&self) -> Option<Token> {
        token_de(self.toks(), self.pos())
    }

    /// Token `k` posiciones más adelante, si lo hay.
    pub open spec fn siguiente_spec(&self, k: int) -> Option<Token> {
        token_de(self.toks(), self.pos() + k)
    }

    /// Span del token actual; un span vacío cuando no hay token.
    pub open spec fn span_actual_es(&self, s: Span) -> bool {
        if 0 <= self.pos() < self.toks().len() {
            s == self.toks()[self.pos()].span
        } else {
            s.es_vacio()
        }
    }

    pub proof fn lema_acotado(&self)
        ensures
            0 <= self.pos() <= usize::MAX,
            self.toks().len() <= usize::MAX,
    {
        assert(self.tokens@.len() == self.tokens.len());
    }

    pub fn nuevo(tokens: Vec<TokenConSpan>) -> (r: Self)
        ensures
            r.valido(),
            r.toks() == tokens@,
            r.pos() == 0,
            r.gens().len() == 0,
    {
        let r = ParserCursor { tokens, posicion: 0, genericos: Vec::new() };
        proof {
            r.lema_acotado();
        }
        r
    }

    pub fn esta_vacio(&self) -> (r: bool)
        ensures
            r == (self.pos() >= self.toks().len()),
    {
        self.posicion >= self.tokens.len()
    }

    /// Token actual (sin span)
    pub fn actual(&self) -> (r: Option<&Token>)
        ensures
            match r {
                Some(t) => self.actual_spec() == Some(*t),
                None => self.actual_spec() is None,
            },
    {
        if self.posicion < self.tokens.len() {
            Some(&self.tokens[self.posicion].token)
        } else {
            None
        }
    }

    /// Token actual con span
    pub fn actual_con_span(&self) -> (r: Option<&TokenConSpan>)
        ensures
            match r {
                Some(t) => 0 <= self.pos() < self.toks().len() && *t == self.toks()[self.pos()],
                None => self.pos() >= self.toks().len(),
            },
    {
        if self.posicion < self.tokens.len() {
            Some(&self.tokens[self.posicion])
        } else {
            None
        }
    }

    /// Avanza al siguiente token
    pub fn avanzar(&mut self)
        requires
            old(self).pos() < usize::MAX,
        ensures
            final(self).toks() == old(self).toks(),
            final(self).pos() == old(self).pos() + 1,
            final(self).gens() == old(self).gens(),
    {
        self.posicion = self.posicion + 1;
    }

    /// Mira el token `offset` posiciones más adelante sin avanzar
    pub fn peek(&self, offset: usize) -> (r: Option<&Token>)
        ensures
            match r {
                Some(t) => self.siguiente_spec(offset as int) == Some(*t),
                None => self.siguiente_spec(offset as int) is None,
            },
    {
        if offset < self.tokens.len() && self.posicion < self.tokens.len() - offset {
            Some(&self.tokens[self.posicion + offset].token)
        } else {
            None
        }
    }

    /// Espera un token específico y avanza; si no coincide, error
    pub fn esperar(&mut self, token: Token) -> (r: Result<(), ErrorSintaxis>)
        ensures
            final(self).toks() == old(self).toks(),
            final(self).gens() == old(self).gens(),
            match old(self).actual_spec() {
                Some(t) => if t.igual(token) {
                    r is Ok && final(self).pos() == old(self).pos() + 1
                } else {
                    r matches Err(e) && final(self).pos() == old(self).pos() && old(self).span_actual_es(e.error.span) && e.es(
                        3,
                        e.error.span,
                        mensaje_esperaba(nombre_token(token), Some(nombre_token(t))),
                    ) && e.error.sugerencia is None
                },
                None => r matches Err(e) && final(self).pos() == old(self).pos() && old(self).span_actual_es(e.error.span) && e.es(
                    3,
                    e.error.span,
                    mensaje_esperaba(nombre_token(token), None),
                ) && e.error.sugerencia is None,
            },
    {
        match self.actual() {
            Some(t) => {
                if t.es_igual(&token) {
                    proof {
                        self.lema_acotado();
                    }
                    self.avanzar();
                    Ok(())
                } else {
                    let span = self.span_actual();
                    let esperado = token.nombre();
                    let encontrado = t.nombre();
                    Err(ErrorSintaxis::esperaba(span, esperado.as_str(), Some(encontrado.as_str())))
                }
            },
            None => {
                let span = self.span_actual();
                let esperado = token.nombre();
                Err(ErrorSintaxis::esperaba(span, esperado.as_str(), None))
            },
        }
    }

    /// Span del token actual; si no hay token, devuelve span vacío
    pub fn span_actual(&self) -> (r: Span)
        ensures
            self.span_actual_es(r),
    {
        match self.actual_con_span() {
            Some(t) => t.span.copia(),
            None => Span::vacio(),
        }
    }

    /// Span desde una posición anterior hasta el token actual: empieza donde empieza el token
    /// `inicio_pos` y termina donde termina el último token leído.
    pub fn span_desde(&self, inicio_pos: usize) -> (r: Span)
        ensures
            r.inicio == (if inicio_pos < self.toks().len() {
                self.toks()[inicio_pos as int].span.inicio
            } else {
                posicion_cero()
            }),
            r.archivo@ == (if inicio_pos < self.toks().len() {
                self.toks()[inicio_pos as int].span.archivo@
            } else {
                archivo_de_prueba()
            }),
            r.fin == (if (if self.pos() > 0 { self.pos() - 1 } else { 0 }) < self.toks().len() {
                self.toks()[if self.pos() > 0 { self.pos() - 1 } else { 0 }].span.fin
            } else {
                posicion_cero()
            }),
    {
        let inicio = if inicio_pos < self.tokens.len() {
            self.tokens[inicio_pos].span.copia()
        } else {
            Span::vacio()
        };
        let anterior = if self.posicion > 0 { self.posicion - 1 } else { 0 };
        let fin = if anterior < self.tokens.len() {
            self.tokens[anterior].span.copia()
        } else {
            Span::vacio()
        };
        Span::combinar(&inicio, &fin)
    }

    /// ¿El token actual es `t`?
    pub fn es_actual(&self, t: &Token) -> (r: bool)
        ensures
            r == self.actual_es(*t),
    {
        if self.posicion < self.tokens.len() {
            self.tokens[self.posicion].token.es_igual(t)
        } else {
            false
        }
    }

    /// Parámetros genéricos de tipo activos.
    pub fn genericos(&self) -> (r: &Vec<String>)
        ensures
            r@ == self.gens(),
    {
        &self.genericos
    }

    /// Reemplaza los parámetros genéricos activos y devuelve los anteriores.
    pub fn fijar_genericos(&mut self, nuevos: Vec<String>) -> (r: Vec<String>)
        ensures
            final(self).toks() == old(self).toks(),
            final(self).pos() == old(self).pos(),
            final(self).gens() == nuevos@,
            r@ == old(self).gens(),
    {
        let mut anteriores = nuevos;
        std::mem::swap(&mut anteriores, &mut self.genericos);
        anteriores
    }

    /// ¿Es `nombre` un parámetro genérico de tipo activo?
    pub fn es_generico(&self, nombre: &String) -> (r: bool)
        ensures
            r == exists|k: int| 0 <= k < self.gens().len() && (#[trigger] self.gens()[k])@ == nombre@,
    {
        let mut k: usize = 0;
        while k < self.genericos.len()
            invariant
                k <= self.genericos@.len(),
                forall|m: int| 0 <= m < k ==> (#[trigger] self.genericos@[m])@ != nombre@,
            decreases self.genericos@.len() - k,
        {
            if self.genericos[k].eq(nombre) {
                assert(self.gens()[k as int]@ == nombre@);
                return true;
            }
            k = k + 1;
        }
        false
    }

    /// Posición actual en el stream de tokens
    pub fn posicion(&self) -> (r: usize)
        ensures
            r == self.pos(),
    {
        self.posicion
    }

    /// Salta tokens hasta encontrar uno de sincronización (o el final).
    pub fn sincronizar(&mut self, tokens_sinc: &[Token])
        ensures
            final(self).toks() == old(self).toks(),
            final(self).gens() == old(self).gens(),
            final(self).pos() == primera_sincronizacion(old(self).toks(), tokens_sinc@, old(self).pos()),
            old(self).valido() ==> final(self).valido(),
    {
        while self.posicion < self.tokens.len()
            invariant
                self.toks() == old(self).toks(),
                self.gens() == old(self).gens(),
                old(self).pos() <= self.pos(),
                old(self).valido() ==> self.valido(),
                primera_sincronizacion(old(self).toks(), tokens_sinc@, old(self).pos())
                    == primera_sincronizacion(self.toks(), tokens_sinc@, self.pos()),
            decreases self.toks().len() - self.pos(),
        {
            let t = &self.tokens[self.posicion].token;
            let mut k: usize = 0;
            let mut esta = false;
            while k < tokens_sinc.len()
                invariant
                    k <= tokens_sinc@.len(),
                    esta == (exists|m: int| 0 <= m < k && (#[trigger] tokens_sinc@[m]).igual(*t)),
                decreases tokens_sinc@.len() - k,
            {
                if tokens_sinc[k].es_igual(t) {
                    esta = true;
                }
                k = k + 1;
            }
            if esta {
                return;
            }
            self.posicion = self.posicion + 1;
        }
    }
}

/// Posiciones de los tokens de error léxico, en orden.
pub open spec fn posiciones_de_error(ts: Seq<TokenConSpan>) -> Seq<int>
    decreases ts.len(),
{
    if ts.len() == 0 {
        Seq::empty()
    } else {
        let previas = posiciones_de_error(ts.drop_last());
        if ts.last().token is Error {
            previas.push(ts.len() - 1)
        } else {
            previas
        }
    }
}

/// Ningún token es un error léxico.
pub open spec fn sin_errores_lexicos(ts: Seq<TokenConSpan>) -> bool {
    forall|i: int| 0 <= i < ts.len() ==> !(#[trigger] ts[i].token is Error)
}

/// `es` son los errores de sintaxis de los tokens de error léxico de `ts`: uno por cada
/// uno, en orden, con su span.
pub open spec fn errores_lexicos(ts: Seq<TokenConSpan>, es: Seq<ErrorSintaxis>) -> bool {
    let pe = posiciones_de_error(ts);
    &&& es.len() == pe.len()
    &&& forall|k: int|
        0 <= k < es.len() ==> (#[trigger] es[k]).es(
            8,
            ts[pe[k]].span,
            "carácter no válido: 'carácter inválido'"@,
        ) && es[k].sugiere(
            "revisa que no haya símbolos extraños o caracteres no soportados"@,
        )
}

/// Las posiciones de error están en rango y son tokens de error.
pub proof fn lema_posiciones_de_error(ts: Seq<TokenConSpan>)
    ensures
        forall|k: int|
            0 <= k < posiciones_de_error(ts).len() ==> 0 <= #[trigger] posiciones_de_error(ts)[k]
                < ts.len() && ts[posiciones_de_error(ts)[k]].token is Error,
        posiciones_de_error(ts).len() == 0 <==> sin_errores_lexicos(ts),
    decreases ts.len(),
{
    if ts.len() > 0 {
        let previas = ts.drop_last();
        lema_posiciones_de_error(previas);
        assert forall|i: int| 0 <= i < previas.len() implies previas[i] == ts[i] by {}
        if !(ts.last().token is Error) && posiciones_de_error(previas).len() == 0 {
            assert forall|i: int| 0 <= i < ts.len() implies !(#[trigger] ts[i].token is Error) by {
                if i < previas.len() {
                    assert(previas[i] == ts[i]);
                }
            }
        }
        if posiciones_de_error(previas).len() > 0 {
            let k = posiciones_de_error(previas)[0];
            assert(previas[k] == ts[k]);
        }
    }
}

/// La posición de sincronización nunca está antes del punto de partida.
pub proof fn lema_sincronizacion_no_retrocede(ts: Seq<TokenConSpan>, lista: Seq<Token>, i: int)
    requires
        0 <= i,
    ensures
        primera_sincronizacion(ts, lista, i) >= i,
    decreases ts.len() - i,
{
    if 0 <= i < ts.len() && !en_lista(ts[i].token, lista) {
        lema_sincronizacion_no_retrocede(ts, lista, i + 1);
    }
}

/// Tokens en los que el parser retoma el programa tras un error en una declaración.
pub open spec fn lista_sincronizacion() -> Seq<Token> {
    seq![
        Token::Funcion,
        Token::Inseguro,
        Token::Estructural,
        Token::Enumeracion,
        Token::Modulo,
        Token::Usar,
    ]
}

/// Lo que se sabe del error `e` de la declaración que empieza en `a` y falla con el cursor
/// en `q`: sobre un token que no empieza ninguna declaración, es el error «declaración
/// inesperada» de ese token, sin avanzar.
pub open spec fn error_de_intento(ts: Seq<TokenConSpan>, a: int, q: int, e: ErrorSintaxis) -> bool {
    match token_de(ts, a) {
        Some(t) => match t {
            Token::Inseguro | Token::Funcion | Token::Fut | Token::ArticuloEl | Token::ArticuloLa
            | Token::Estructural | Token::Enumeracion | Token::Modulo | Token::Usar | Token::Rasgo
            | Token::Implementar | Token::Prueba => true,
            _ => q == a && e.es(8, ts[a].span, mensaje_declaracion_inesperada(t))
                && e.error.sugerencia is None,
        },
        None => true,
    }
}

/// Recorrido del programa con recuperación de errores desde la posición 0 hasta `c`: se
/// intenta una declaración en cada posición de `inicios`; si se lee (parada `None`), la
/// siguiente empieza donde acaba; si falla con el cursor en `q` (parada `Some(q)`), su error
/// es el siguiente de `es` y se retoma en el primer token de sincronización desde `q`.
#[verifier::opaque]
pub open spec fn recorrido(
    ts: Seq<TokenConSpan>,
    inicios: Seq<int>,
    paradas: Seq<Option<int>>,
    es: Seq<ErrorSintaxis>,
    c: int,
) -> bool
    decreases inicios.len(),
{
    if inicios.len() == 0 {
        c == 0 && es.len() == 0 && paradas.len() == 0
    } else {
        let a = inicios.last();
        &&& paradas.len() == inicios.len()
        &&& 0 <= a < ts.len()
        &&& a < c
        &&& match paradas.last() {
            None => fin_declaracion(ts, a) == Some(c) && recorrido(
                ts,
                inicios.drop_last(),
                paradas.drop_last(),
                es,
                a,
            ),
            Some(q) => {
                &&& fin_declaracion(ts, a) is None
                &&& a <= q <= ts.len()
                &&& es.len() > 0
                &&& error_de_intento(ts, a, q, es.last())
                &&& c == primera_sincronizacion(ts, lista_sincronizacion(), q)
                &&& recorrido(ts, inicios.drop_last(), paradas.drop_last(), es.drop_last(), a)
            },
        }
    }
}

/// Los errores `es` son los de un recorrido con recuperación de todo el programa `ts`.
pub open spec fn errores_de_recorrido(ts: Seq<TokenConSpan>, es: Seq<ErrorSintaxis>) -> bool {
    exists|inicios: Seq<int>, paradas: Seq<Option<int>>|
        #[trigger] recorrido(ts, inicios, paradas, es, ts.len() as int)
}

proof fn lema_recorrido_vacio(ts: Seq<TokenConSpan>)
    ensures
        recorrido(ts, Seq::empty(), Seq::empty(), Seq::empty(), 0),
{
    reveal_with_fuel(recorrido, 1);
}

proof fn lema_recorrido_lee(
    ts: Seq<TokenConSpan>,
    inicios: Seq<int>,
    paradas: Seq<Option<int>>,
    es: Seq<ErrorSintaxis>,
    a: int,
    c: int,
)
    requires
        recorrido(ts, inicios, paradas, es, a),
        0 <= a < ts.len(),
        a < c,
        fin_declaracion(ts, a) == Some(c),
    ensures
        recorrido(ts, inicios.push(a), paradas.push(None), es, c),
{
    reveal_with_fuel(recorrido, 1);
    assert(inicios.push(a).drop_last() =~= inicios);
    assert(paradas.push(None::<int>).drop_last() =~= paradas);
}

proof fn lema_recorrido_falla(
    ts: Seq<TokenConSpan>,
    inicios: Seq<int>,
    paradas: Seq<Option<int>>,
    es: Seq<ErrorSintaxis>,
    e: ErrorSintaxis,
    a: int,
    q: int,
    c: int,
)
    requires
        recorrido(ts, inicios, paradas, es, a),
        0 <= a < ts.len(),
        a < c,
        fin_declaracion(ts, a) is None,
        a <= q <= ts.len(),
        error_de_intento(ts, a, q, e),
        c == primera_sincronizacion(ts, lista_sincronizacion(), q),
    ensures
        recorrido(ts, inicios.push(a), paradas.push(Some(q)), es.push(e), c),
{
    reveal_with_fuel(recorrido, 1);
    assert(inicios.push(a).drop_last() =~= inicios);
    assert(paradas.push(Some(q)).drop_last() =~= paradas);
    assert(es.push(e).drop_last() =~= es);
}

/// Parsea las declaraciones de un programa sin errores léxicos: tras un error en una
/// declaración, salta hasta el siguiente token de sincronización y sigue.
#[verifier::spinoff_prover]
#[verifier::rlimit(40)]
fn parsear_declaraciones(tokens: Vec<TokenConSpan>) -> (r: (Vec<Declaracion>, Vec<ErrorSintaxis>))
    requires
        sin_errores_lexicos(tokens@),
    ensures
        r.1@.len() == 0 <==> programa_desde(tokens@, 0),
        r.1@.len() == 0 ==> declaraciones_leidas(
            tokens@,
            Seq::empty(),
            posiciones_programa(tokens@, 0),
            r.0@,
        ),
        errores_de_recorrido(tokens@, r.1@),
{
        let ghost ts = tokens@;
        let mut cursor = ParserCursor::nuevo(tokens);
        let mut declaraciones: Vec<Declaracion> = Vec::new();
        let ghost mut hechas: Seq<int> = Seq::empty();
        let ghost mut inicios: Seq<int> = Seq::empty();
        let ghost mut paradas: Seq<Option<int>> = Seq::empty();
        let mut errores: Vec<ErrorSintaxis> = Vec::new();
        proof {
            lema_recorrido_vacio(ts);
        }
        let lista = vec![
            Token::Funcion,
            Token::Inseguro,
            Token::Estructural,
            Token::Enumeracion,
            Token::Modulo,
            Token::Usar,
        ];
        while !cursor.esta_vacio()
            invariant
                cursor.valido(),
                cursor.toks() == ts,
                lista@ == seq![
                    Token::Funcion,
                    Token::Inseguro,
                    Token::Estructural,
                    Token::Enumeracion,
                    Token::Modulo,
                    Token::Usar,
                ],
                errores@.len() == 0 ==> sin_errores_lexicos(ts),
                errores@.len() == 0 ==> programa_desde(ts, 0) == programa_desde(ts, cursor.pos()),
                errores@.len() > 0 ==> !programa_desde(ts, 0),
                errores@.len() == 0 ==> cursor.gens() == Seq::<String>::empty(),
                errores@.len() == 0 ==> posiciones_programa(ts, 0) == hechas + posiciones_programa(ts, cursor.pos()),
                errores@.len() == 0 ==> declaraciones@.len() == hechas.len(),
                errores@.len() == 0 ==> forall|i: int| 0 <= i < hechas.len() ==> declaracion_leida(ts, Seq::<String>::empty(), hechas[i], #[trigger] declaraciones@[i]),
                lista@ == lista_sincronizacion(),
                recorrido(ts, inicios, paradas, errores@, cursor.pos()),
            decreases cursor.restantes(),
        {
            let ghost antes = cursor.pos();
            let ghost errores_antes = errores@;
            match parse_declaracion(&mut cursor) {
                Ok(d) => {
                    proof {
                        lema_recorrido_lee(ts, inicios, paradas, errores@, antes, cursor.pos());
                        inicios = inicios.push(antes);
                        paradas = paradas.push(None);
                        if errores@.len() == 0 {
                            assert(posiciones_programa(ts, antes) == seq![antes] + posiciones_programa(ts, cursor.pos()));
                            assert(hechas + posiciones_programa(ts, antes) == hechas.push(antes) + posiciones_programa(ts, cursor.pos()));
                        }
                        hechas = hechas.push(antes);
                    }
                    declaraciones.push(d);
                },
                Err(e) => {
                    let ghost e_copia = e;
                    errores.push(e);
                    let ghost despues = cursor.pos();
                    proof {
                        lema_sincronizacion_no_retrocede(ts, lista@, despues);
                        if despues == antes {
                            let t = ts[antes].token;
                            assert(!es_de_sincronizacion(t));
                            assert(!en_lista(t, lista@)) by {
                                if en_lista(t, lista@) {
                                    let k = choose|k: int| 0 <= k < lista@.len() && (#[trigger] lista@[k]).igual(t);
                                    assert(0 <= k < 6);
                                }
                            }
                            lema_sincronizacion_no_retrocede(ts, lista@, antes + 1);
                        }
                    }
                    cursor.sincronizar(lista.as_slice());
                    proof {
                        lema_recorrido_falla(ts, inicios, paradas, errores_antes, e_copia, antes, despues, cursor.pos());
                        inicios = inicios.push(antes);
                        paradas = paradas.push(Some(despues));
                    }
                },
            }
        }
        proof {
            assert(cursor.pos() == ts.len());
            assert(recorrido(ts, inicios, paradas, errores@, ts.len() as int));
        }
        (declaraciones, errores)
}

/// Parser público de Mejia
pub struct ParserMejia;

impl ParserMejia {
    /// Parsea un programa. Si hay tokens de error léxico, devuelve un error por cada uno y
    /// no parsea. Si no, parsea las declaraciones; tras un error, salta hasta la siguiente
    /// declaración y sigue, y al final devuelve todos los errores o el programa.
    pub fn parse(tokens: Vec<TokenConSpan>) -> (r: Result<Programa, Vec<ErrorSintaxis>>)
        ensures
            !sin_errores_lexicos(tokens@) ==> (r matches Err(es) && errores_lexicos(tokens@, es@)),
            r is Ok ==> sin_errores_lexicos(tokens@),
            r matches Err(es) ==> es@.len() > 0,
            r matches Err(es) ==> (sin_errores_lexicos(tokens@) ==> errores_de_recorrido(tokens@, es@)),
            r matches Ok(p) ==> p.span.es_vacio(),
            r is Ok <==> sin_errores_lexicos(tokens@) && programa_desde(tokens@, 0),
            r matches Ok(p) ==> declaraciones_leidas(
                tokens@,
                Seq::empty(),
                posiciones_programa(tokens@, 0),
                p.declaraciones@,
            ),
    {
        let mut errores: Vec<ErrorSintaxis> = Vec::new();
        // Primera pasada: errores léxicos
        let mut i: usize = 0;
        while i < tokens.len()
            invariant
                i <= tokens@.len(),
                errores_lexicos(tokens@.take(i as int), errores@),
            decreases tokens@.len() - i,
        {
            proof {
                let previo = tokens@.take(i as int);
                let nuevo = tokens@.take(i + 1);
                assert(nuevo.drop_last() =~= previo);
                lema_posiciones_de_error(previo);
            }
            if let Token::Error = tokens[i].token {
                let span = tokens[i].span.copia();
                errores.push(ErrorSintaxis::token_invalido(span, "carácter inválido"));
                proof {
                    reveal_strlit("carácter inválido");
                    reveal_strlit("carácter no válido: '");
                    reveal_strlit("'");
                    reveal_strlit("carácter no válido: 'carácter inválido'");
                    assert("carácter no válido: '"@ + "carácter inválido"@ + "'"@
                        =~= "carácter no válido: 'carácter inválido'"@);
                }
            }
            i = i + 1;
        }
        proof {
            assert(tokens@.take(tokens@.len() as int) =~= tokens@);
            lema_posiciones_de_error(tokens@);
        }
        // Con errores léxicos no tiene sentido parsear
        if errores.len() > 0 {
            return Err(errores);
        }
        let (declaraciones, errores) = parsear_declaraciones(tokens);
        if errores.len() > 0 {
            return Err(errores);
        }
        Ok(Programa { declaraciones, span: Span::vacio() })
    }
}

} // verus!
