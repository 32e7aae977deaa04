//! Emisión de expresiones a una representación intermedia en forma SSA: cada instrucción
//! define un valor, cuyo número es la posición de la instrucción en la secuencia de la
//! función. El backend traduce esta secuencia a instrucciones de máquina.

use vstd::prelude::*;
use crate::ast::{Bloque, Expresion, Literal, Lugar, ModoVerbal, OperadorBinario, OperadorUnario, Sentencia, Tipo};
use crate::codegen::{Codegen, inferido};
use crate::error::{CategoriaError, ErrorCompilador};
use crate::lsp::{claves_unicas, mapa_de, obtener};
use crate::span::Span;
use crate::texto::{agregar, texto};
use crate::codegen::VistaStruct;

verus! {

/// Tipo de máquina de un valor de la representación intermedia.
#[derive(Debug, Clone, Copy, PartialEq, Eq, Structural)]
pub enum TipoIr {
    I8,
    I16,
    I32,
    I64,
    F32,
    F64,
}

/// Instrucción de la representación intermedia. Los operandos son números de valor.
#[derive(Debug, Clone, Copy, PartialEq, Eq, Structural)]
pub enum InstruccionIr {
    /// Constante entera del tipo dado.
    Iconst { tipo: TipoIr, valor: i64 },
    /// Dirección del slot de pila (un puntero de 64 bits).
    DireccionSlot { slot: u32 },
    /// Carga del valor guardado en el slot de pila.
    CargarSlot { tipo: TipoIr, slot: u32 },
    /// Carga desde la dirección del valor `ptr`.
    Cargar { tipo: TipoIr, ptr: usize },
    /// Suma de un inmediato al valor.
    SumaInmediata { valor: usize, inmediato: i64 },
    /// Operación binaria entera sobre dos valores.
    Binaria { op: OperadorBinario, izq: usize, der: usize },
    /// Complemento bit a bit.
    Bnot { valor: usize },
    /// Guarda el valor en el slot de pila.
    GuardarSlot { slot: u32, valor: usize },
    /// Retorno de la función, con o sin valor.
    Retornar { valor: Option<usize> },
    /// Comienzo de un bloque básico; su posición es su número de bloque.
    Bloque,
    /// Salto incondicional al bloque `destino`.
    Saltar { destino: usize },
    /// Salto al bloque `si` cuando el valor `cond` no es cero; si no, al bloque `sino`.
    SaltarSi { cond: usize, si: usize, sino: usize },
}

/// Cómo acaba la emisión de una expresión.
pub enum Emitido {
    /// El valor de la expresión es el número dado.
    Valor(usize),
    /// La expresión no se puede compilar; el error explica por qué.
    Error(ErrorCompilador),
    /// La expresión no se puede compilar y no hay error que informar (una ruta sin llamada).
    Descartada,
    /// La expresión necesita el módulo de salida del backend (llamadas, textos, flotantes,
    /// agregados, closures, control de flujo): la emite el backend, no esta función.
    Externa,
}

/// Desenlace de la emisión en la especificación.
pub enum Desenlace {
    Valor(int),
    Error(CategoriaError, u32, Span, Seq<char>),
    Descartada,
    Externa,
}

/// El resultado de la función corresponde al desenlace de la especificación.
pub open spec fn corresponde(r: Emitido, d: Desenlace) -> bool {
    match (r, d) {
        (Emitido::Valor(v), Desenlace::Valor(w)) => v == w,
        (Emitido::Error(e), Desenlace::Error(c, k, s, m)) => e.categoria == c && e.codigo == k
            && e.span == s && e.mensaje@ == m && e.sugerencia is None,
        (Emitido::Descartada, Desenlace::Descartada) => true,
        (Emitido::Externa, Desenlace::Externa) => true,
        _ => false,
    }
}

/// Tipo de máquina con que se guarda un valor del tipo `t`.
pub open spec fn tipo_ir(t: Tipo) -> TipoIr {
    match t {
        Tipo::Entero8 | Tipo::Natural8 | Tipo::Booleano | Tipo::Caracter | Tipo::Vacio => TipoIr::I8,
        Tipo::Entero16 | Tipo::Natural16 => TipoIr::I16,
        Tipo::Entero32 | Tipo::Natural32 => TipoIr::I32,
        Tipo::Flotante32 => TipoIr::F32,
        Tipo::Flotante64 => TipoIr::F64,
        _ => TipoIr::I64,
    }
}

/// Los valores de estos tipos viven en su slot y la expresión vale su dirección.
pub open spec fn se_lee_por_direccion(t: Tipo) -> bool {
    t is Array || t is Nombre || t is Resultado
}

/// Lectura de una variable guardada en el slot `s` con el tipo `t`.
pub open spec fn lectura(t: Tipo, s: u32, base: int) -> (Seq<InstruccionIr>, Desenlace) {
    if se_lee_por_direccion(t) {
        (seq![InstruccionIr::DireccionSlot { slot: s }], Desenlace::Valor(base))
    } else {
        (seq![InstruccionIr::CargarSlot { tipo: tipo_ir(t), slot: s }], Desenlace::Valor(base))
    }
}

/// Mensaje del error por una variable sin declarar.
pub open spec fn mensaje_variable(n: Seq<char>, sufijo: Seq<char>) -> Seq<char> {
    "Variable '"@ + n + sufijo
}

/// Dirección del campo `campo` de la variable `n`, si es un struct registrado con ese campo.
pub open spec fn direccion_de_campo(
    tipos: Map<Seq<char>, Tipo>,
    slots: Map<Seq<char>, u32>,
    structs: Map<Seq<char>, VistaStruct>,
    n: Seq<char>,
    campo: Seq<char>,
) -> Option<(u32, u32)> {
    if tipos.contains_key(n) {
        match tipos[n] {
            Tipo::Nombre(s) => if structs.contains_key(s@) && structs[s@].3.contains_key(campo) {
                Some((slots[n], structs[s@].3[campo]))
            } else {
                None
            },
            _ => None,
        }
    } else {
        None
    }
}

/// Slot y, para un campo, offset de la expresión a la que se toma referencia sin evaluarla:
/// una variable declarada, o el campo registrado de una variable struct.
pub open spec fn referencia_directa(
    x: Expresion,
    tipos: Map<Seq<char>, Tipo>,
    slots: Map<Seq<char>, u32>,
    structs: Map<Seq<char>, VistaStruct>,
) -> Option<(u32, Option<u32>)> {
    match x {
        Expresion::Identificador(n, _) => if tipos.contains_key(n@) {
            Some((slots[n@], None))
        } else {
            None
        },
        Expresion::AccesoCampo(b, campo, _) => match *b {
            Expresion::Identificador(n, _) => match direccion_de_campo(tipos, slots, structs, n@, campo@) {
                Some((s, o)) => Some((s, Some(o))),
                None => None,
            },
            _ => None,
        },
        _ => None,
    }
}

/// Instrucciones que la emisión de `e` añade tras `base` valores ya definidos, y su desenlace.
/// `tipos` y `slots` dan el tipo y el slot de cada variable; `structs`, los layouts.
pub open spec fn emision(
    e: Expresion,
    tipos: Map<Seq<char>, Tipo>,
    slots: Map<Seq<char>, u32>,
    structs: Map<Seq<char>, VistaStruct>,
    base: int,
) -> (Seq<InstruccionIr>, Desenlace)
    decreases e,
{
    match e {
        Expresion::Literal(lit) => match lit {
            Literal::Entero(n, _) => (
                seq![InstruccionIr::Iconst { tipo: TipoIr::I32, valor: n }],
                Desenlace::Valor(base),
            ),
            Literal::Booleano(b, _) => (
                seq![InstruccionIr::Iconst { tipo: TipoIr::I8, valor: if b { 1 } else { 0 } }],
                Desenlace::Valor(base),
            ),
            Literal::Caracter(_, sp) => (
                Seq::empty(),
                Desenlace::Error(CategoriaError::Interno, 5, sp, "Literal no soportado"@),
            ),
            _ => (Seq::empty(), Desenlace::Externa),
        },
        Expresion::Identificador(n, sp) => if tipos.contains_key(n@) {
            lectura(tipos[n@], slots[n@], base)
        } else {
            (
                Seq::empty(),
                Desenlace::Error(
                    CategoriaError::Interno,
                    6,
                    sp,
                    mensaje_variable(n@, "' no encontrada"@),
                ),
            )
        },
        Expresion::Mover(n, _, sp) => if tipos.contains_key(n@) {
            lectura(tipos[n@], slots[n@], base)
        } else {
            (
                Seq::empty(),
                Desenlace::Error(
                    CategoriaError::Interno,
                    52,
                    sp,
                    mensaje_variable(n@, "' no encontrada en 'mover'"@),
                ),
            )
        },
        Expresion::Copiar(x, _) => emision(*x, tipos, slots, structs, base),
        Expresion::Propagacion(x, _) => {
            let (c, d) = emision(*x, tipos, slots, structs, base);
            match d {
                Desenlace::Valor(v) => (
                    c + seq![
                        InstruccionIr::SumaInmediata { valor: v as usize, inmediato: 4 },
                        InstruccionIr::Cargar { tipo: TipoIr::I32, ptr: (base + c.len()) as usize },
                    ],
                    Desenlace::Valor(base + c.len() + 1),
                ),
                _ => (c, d),
            }
        },
        Expresion::Rango(_, _, _, sp) => (
            Seq::empty(),
            Desenlace::Error(
                CategoriaError::Tipo,
                41,
                sp,
                "Los rangos (..) solo pueden usarse dentro de un bucle 'para'"@,
            ),
        ),
        Expresion::Ruta(_, _) => (Seq::empty(), Desenlace::Descartada),
        Expresion::ArrayRelleno(_, _, sp) => (
            Seq::empty(),
            Desenlace::Error(
                CategoriaError::Interno,
                22,
                sp,
                "'todos' solo puede usarse en inicialización de variable con tipo explícito"@,
            ),
        ),
        Expresion::Binaria(l, op, r, _) => if op == OperadorBinario::Suma && inferido(*l, tipos)
            is Texto {
            (Seq::empty(), Desenlace::Externa)
        } else {
            let (c1, d1) = emision(*l, tipos, slots, structs, base);
            match d1 {
                Desenlace::Valor(v1) => {
                    let (c2, d2) = emision(*r, tipos, slots, structs, base + c1.len());
                    match d2 {
                        Desenlace::Valor(v2) => (
                            c1 + c2 + seq![
                                InstruccionIr::Binaria { op, izq: v1 as usize, der: v2 as usize },
                            ],
                            Desenlace::Valor(base + c1.len() + c2.len()),
                        ),
                        _ => (c1 + c2, d2),
                    }
                },
                _ => (c1, d1),
            }
        },
        Expresion::Unaria(op, x, _) => match op {
            OperadorUnario::Referencia | OperadorUnario::ReferenciaMut => match referencia_directa(
                *x,
                tipos,
                slots,
                structs,
            ) {
                Some((s, None)) => (seq![InstruccionIr::DireccionSlot { slot: s }], Desenlace::Valor(base)),
                Some((s, Some(off))) => (
                    seq![
                        InstruccionIr::DireccionSlot { slot: s },
                        InstruccionIr::SumaInmediata { valor: base as usize, inmediato: off as i64 },
                    ],
                    Desenlace::Valor(base + 1),
                ),
                None => emision(*x, tipos, slots, structs, base),
            },
            _ => {
                let (c, d) = emision(*x, tipos, slots, structs, base);
                match d {
                    Desenlace::Valor(v) => {
                        let k = base + c.len();
                        match op {
                            OperadorUnario::Desreferencia => (
                                c + seq![InstruccionIr::Cargar { tipo: TipoIr::I32, ptr: v as usize }],
                                Desenlace::Valor(k),
                            ),
                            OperadorUnario::Negacion => (
                                c + seq![
                                    InstruccionIr::Iconst { tipo: TipoIr::I32, valor: 0 },
                                    InstruccionIr::Binaria {
                                        op: OperadorBinario::Resta,
                                        izq: k as usize,
                                        der: v as usize,
                                    },
                                ],
                                Desenlace::Valor(k + 1),
                            ),
                            OperadorUnario::NegacionLogica => (
                                c + seq![
                                    InstruccionIr::Iconst { tipo: TipoIr::I8, valor: 1 },
                                    InstruccionIr::Binaria {
                                        op: OperadorBinario::BitXor,
                                        izq: v as usize,
                                        der: k as usize,
                                    },
                                ],
                                Desenlace::Valor(k + 1),
                            ),
                            _ => (c + seq![InstruccionIr::Bnot { valor: v as usize }], Desenlace::Valor(k)),
                        }
                    },
                    _ => (c, d),
                }
            },
        },
        _ => (Seq::empty(), Desenlace::Externa),
    }
}

/// Cómo acaba la emisión de una sentencia.
pub enum SentenciaEmitida {
    /// Sus instrucciones están emitidas.
    Hecha,
    /// Falló la emisión de una de sus expresiones o sentencias.
    Fallo(Emitido),
    /// La sentencia, o una anidada, necesita el backend (declaraciones, bucles `para`,
    /// regiones, `seleccionar`, ejecutores, asignaciones a elementos o campos, retorno de un
    /// valor agregado).
    Externa,
}

/// Desenlace de la emisión de una sentencia en la especificación.
pub enum DesenlaceSentencia {
    Hecha,
    Fallo(Desenlace),
    Externa,
}

/// Un error que se informa sin detener la emisión: categoría, código, span y mensaje.
pub type Aviso = (CategoriaError, u32, Span, Seq<char>);

/// Los errores como avisos.
pub open spec fn avisos_de(es: Seq<ErrorCompilador>) -> Seq<Aviso> {
    es.map_values(|e: ErrorCompilador| (e.categoria, e.codigo, e.span, e.mensaje@))
}

/// El resultado de la función corresponde al desenlace de la especificación.
pub open spec fn corresponde_sentencia(r: SentenciaEmitida, d: DesenlaceSentencia) -> bool {
    match (r, d) {
        (SentenciaEmitida::Hecha, DesenlaceSentencia::Hecha) => true,
        (SentenciaEmitida::Fallo(x), DesenlaceSentencia::Fallo(y)) => !(x is Valor) && corresponde(x, y),
        (SentenciaEmitida::Externa, DesenlaceSentencia::Externa) => true,
        _ => false,
    }
}

/// Alguna sentencia de la secuencia es un `retornar`: el bloque no salta al final.
pub open spec fn termina(xs: Seq<Sentencia>) -> bool {
    exists|i: int| 0 <= i < xs.len() && #[trigger] xs[i] is Retornar
}

/// Salto al bloque `destino` tras una secuencia, salvo que la secuencia retorne.
pub open spec fn salto_final(xs: Seq<Sentencia>, destino: int) -> Seq<InstruccionIr> {
    if termina(xs) {
        Seq::empty()
    } else {
        seq![InstruccionIr::Saltar { destino: destino as usize }]
    }
}

/// `nuevo` empieza por `viejo`.
pub open spec fn extiende(nuevo: Seq<InstruccionIr>, viejo: Seq<InstruccionIr>) -> bool {
    nuevo.len() >= viejo.len() && nuevo.subrange(0, viejo.len() as int) == viejo
}

proof fn lema_extiende(a: Seq<InstruccionIr>, b: Seq<InstruccionIr>, c: Seq<InstruccionIr>)
    requires
        extiende(b, a),
        extiende(c, b),
    ensures
        extiende(c, a),
{
    assert(c.subrange(0, a.len() as int) =~= b.subrange(0, a.len() as int));
}

proof fn lema_extiende_suma(a: Seq<InstruccionIr>, b: Seq<InstruccionIr>)
    ensures
        extiende(a + b, a),
{
    assert((a + b).subrange(0, a.len() as int) =~= a);
}

/// Sentencias de un `sino` opcional.
pub open spec fn sentencias_de(b: Option<Bloque>) -> Seq<Sentencia> {
    match b {
        Some(b) => b.sentencias@,
        None => Seq::empty(),
    }
}

/// Emisión de las `n` primeras sentencias de `xs` tras `base` valores: instrucciones,
/// desenlace y avisos. Se detiene en la primera que no acaba `Hecha`.
pub open spec fn emision_prefijo(
    xs: Seq<Sentencia>,
    n: nat,
    tipos: Map<Seq<char>, Tipo>,
    slots: Map<Seq<char>, u32>,
    structs: Map<Seq<char>, VistaStruct>,
    base: int,
) -> (Seq<InstruccionIr>, DesenlaceSentencia, Seq<Aviso>)
    decreases xs, n,
{
    if n == 0 || n > xs.len() {
        (Seq::empty(), DesenlaceSentencia::Hecha, Seq::empty())
    } else {
        let (c, d, a) = emision_prefijo(xs, (n - 1) as nat, tipos, slots, structs, base);
        match d {
            DesenlaceSentencia::Hecha => {
                let (c2, d2, a2) = emision_sentencia(xs[n - 1], tipos, slots, structs, base + c.len());
                (c + c2, d2, a + a2)
            },
            _ => (c, d, a),
        }
    }
}

/// Emisión de una rama del condicional `st` tras `base` valores: el `entonces` o el `sino`
/// (vacío si no lo tiene).
#[verifier::opaque]
pub open spec fn emision_rama(
    st: Sentencia,
    entonces: bool,
    tipos: Map<Seq<char>, Tipo>,
    slots: Map<Seq<char>, u32>,
    structs: Map<Seq<char>, VistaStruct>,
    base: int,
) -> (Seq<InstruccionIr>, DesenlaceSentencia, Seq<Aviso>)
    decreases st, 0nat,
{
    match st {
        Sentencia::Condicional(cnd) => if entonces {
            emision_prefijo(
                cnd.bloque_entonces.sentencias@,
                cnd.bloque_entonces.sentencias@.len(),
                tipos,
                slots,
                structs,
                base,
            )
        } else {
            match cnd.bloque_sino {
                Some(b) => emision_prefijo(b.sentencias@, b.sentencias@.len(), tipos, slots, structs, base),
                None => (Seq::empty(), DesenlaceSentencia::Hecha, Seq::empty()),
            }
        },
        _ => (Seq::empty(), DesenlaceSentencia::Hecha, Seq::empty()),
    }
}

/// Sentencias de una rama del condicional `st`.
pub open spec fn sentencias_rama(st: Sentencia, entonces: bool) -> Seq<Sentencia> {
    match st {
        Sentencia::Condicional(cnd) => if entonces {
            cnd.bloque_entonces.sentencias@
        } else {
            sentencias_de(cnd.bloque_sino)
        },
        _ => Seq::empty(),
    }
}

/// Emisión de las dos ramas del condicional `st` tras su salto condicional en `p`: la
/// primera (el `sino` en modo subjuntivo, el `entonces` en los demás) en el bloque `p + 1`,
/// la segunda a continuación y luego el bloque de unión. Devuelve las instrucciones desde
/// `p + 1` (con desenlace `Hecha`), el desenlace, los avisos y el número del bloque de la
/// segunda rama.
pub open spec fn emision_ramas(
    st: Sentencia,
    tipos: Map<Seq<char>, Tipo>,
    slots: Map<Seq<char>, u32>,
    structs: Map<Seq<char>, VistaStruct>,
    p: int,
) -> (Seq<InstruccionIr>, DesenlaceSentencia, Seq<Aviso>, int)
    decreases st, 1nat,
{
    let sub = st matches Sentencia::Condicional(cnd) && cnd.modo is Subjuntivo;
    let primero = sentencias_rama(st, !sub);
    let segundo = sentencias_rama(st, sub);
    let (c1, d1, a1) = emision_rama(st, !sub, tipos, slots, structs, p + 2);
    match d1 {
        DesenlaceSentencia::Hecha => {
            let q = p + 2 + c1.len() + salto_final(primero, 0).len();
            let (c2, d2, a2) = emision_rama(st, sub, tipos, slots, structs, q + 1);
            match d2 {
                DesenlaceSentencia::Hecha => {
                    let m = q + 1 + c2.len() + salto_final(segundo, 0).len();
                    (
                        seq![InstruccionIr::Bloque] + c1 + salto_final(primero, m) + seq![InstruccionIr::Bloque]
                            + c2 + salto_final(segundo, m) + seq![InstruccionIr::Bloque],
                        DesenlaceSentencia::Hecha,
                        a1 + a2,
                        q,
                    )
                },
                _ => (Seq::empty(), d2, a1 + a2, q),
            }
        },
        _ => (Seq::empty(), d1, a1, 0),
    }
}

/// Instrucciones que la emisión de la sentencia `st` añade tras `base` valores (con
/// desenlace `Hecha`), su desenlace y los avisos que deja. Las posiciones de los
/// marcadores `Bloque` son los números de bloque de los saltos.
pub open spec fn emision_sentencia(
    st: Sentencia,
    tipos: Map<Seq<char>, Tipo>,
    slots: Map<Seq<char>, u32>,
    structs: Map<Seq<char>, VistaStruct>,
    base: int,
) -> (Seq<InstruccionIr>, DesenlaceSentencia, Seq<Aviso>)
    decreases st, 2nat,
{
    match st {
        Sentencia::Expresion(e) => {
            let (c, d) = emision(e, tipos, slots, structs, base);
            match d {
                Desenlace::Valor(_) => (c, DesenlaceSentencia::Hecha, Seq::empty()),
                _ => (c, DesenlaceSentencia::Fallo(d), Seq::empty()),
            }
        },
        Sentencia::Asignacion(a) => match a.lugar {
            Lugar::Identificador(n) => {
                let (c, d) = emision(a.valor, tipos, slots, structs, base);
                match d {
                    Desenlace::Valor(v) => if tipos.contains_key(n@) {
                        (
                            c + seq![InstruccionIr::GuardarSlot { slot: slots[n@], valor: v as usize }],
                            DesenlaceSentencia::Hecha,
                            Seq::empty(),
                        )
                    } else {
                        (
                            c,
                            DesenlaceSentencia::Hecha,
                            seq![(
                                CategoriaError::Interno,
                                15u32,
                                a.span,
                                mensaje_variable(n@, "' no encontrada para asignación"@),
                            )],
                        )
                    },
                    _ => (c, DesenlaceSentencia::Fallo(d), Seq::empty()),
                }
            },
            _ => (Seq::empty(), DesenlaceSentencia::Externa, Seq::empty()),
        },
        Sentencia::Retornar(None, _) => (
            seq![InstruccionIr::Retornar { valor: None }],
            DesenlaceSentencia::Hecha,
            Seq::empty(),
        ),
        Sentencia::Retornar(Some(e), _) => if e is Identificador && (inferido(e, tipos) is Resultado
            || inferido(e, tipos) is Nombre) {
            (Seq::empty(), DesenlaceSentencia::Externa, Seq::empty())
        } else {
            let (c, d) = emision(e, tipos, slots, structs, base);
            match d {
                Desenlace::Valor(v) => (
                    c + seq![InstruccionIr::Retornar { valor: Some(v as usize) }],
                    DesenlaceSentencia::Hecha,
                    Seq::empty(),
                ),
                _ => (c, DesenlaceSentencia::Fallo(d), Seq::empty()),
            }
        },
        Sentencia::Condicional(cnd) => {
            let (c0, d0) = emision(cnd.condicion, tipos, slots, structs, base);
            match d0 {
                Desenlace::Valor(v) => {
                    let p = base + c0.len();
                    let (c, d, a, q) = emision_ramas(st, tipos, slots, structs, p);
                    if cnd.modo is Subjuntivo {
                        (
                            c0 + seq![InstruccionIr::SaltarSi { cond: v as usize, si: q as usize, sino: (p + 1) as usize }] + c,
                            d,
                            a,
                        )
                    } else {
                        (
                            c0 + seq![InstruccionIr::SaltarSi { cond: v as usize, si: (p + 1) as usize, sino: q as usize }] + c,
                            d,
                            a,
                        )
                    }
                },
                _ => (c0, DesenlaceSentencia::Fallo(d0), Seq::empty()),
            }
        },
        Sentencia::BucleMientras(b) => {
            let h = base + 1;
            let (c0, d0) = emision(b.condicion, tipos, slots, structs, base + 2);
            match d0 {
                Desenlace::Valor(v) => {
                    let p = base + 2 + c0.len();
                    let cuerpo = b.bloque.sentencias@;
                    let (c1, d1, a1) = emision_prefijo(cuerpo, cuerpo.len(), tipos, slots, structs, p + 2);
                    match d1 {
                        DesenlaceSentencia::Hecha => {
                            let x = p + 2 + c1.len() + salto_final(cuerpo, h).len();
                            (
                                seq![InstruccionIr::Saltar { destino: h as usize }, InstruccionIr::Bloque] + c0
                                    + seq![InstruccionIr::SaltarSi { cond: v as usize, si: (p + 1) as usize, sino: x as usize }, InstruccionIr::Bloque]
                                    + c1 + salto_final(cuerpo, h) + seq![InstruccionIr::Bloque],
                                DesenlaceSentencia::Hecha,
                                a1,
                            )
                        },
                        _ => (Seq::empty(), d1, a1),
                    }
                },
                _ => (Seq::empty(), DesenlaceSentencia::Fallo(d0), Seq::empty()),
            }
        },
        _ => (Seq::empty(), DesenlaceSentencia::Externa, Seq::empty()),
    }
}

/// El valor de una expresión emitida es el de su última instrucción: si la emisión de `e`
/// tras `base` valores acaba con el valor `v`, añade al menos una instrucción y `v` es la
/// posición de la última.
pub proof fn ley_valor_de_la_ultima(
    e: Expresion,
    tipos: Map<Seq<char>, Tipo>,
    slots: Map<Seq<char>, u32>,
    structs: Map<Seq<char>, VistaStruct>,
    base: int,
)
    ensures
        ({
            let (c, d) = emision(e, tipos, slots, structs, base);
            d matches Desenlace::Valor(v) ==> c.len() >= 1 && v == base + c.len() - 1
        }),
    decreases e,
{
    match e {
        Expresion::Copiar(x, _) => ley_valor_de_la_ultima(*x, tipos, slots, structs, base),
        Expresion::Propagacion(x, _) => ley_valor_de_la_ultima(*x, tipos, slots, structs, base),
        Expresion::Binaria(l, op, r, _) => {
            ley_valor_de_la_ultima(*l, tipos, slots, structs, base);
            let (c1, d1) = emision(*l, tipos, slots, structs, base);
            ley_valor_de_la_ultima(*r, tipos, slots, structs, base + c1.len());
        },
        Expresion::Unaria(op, x, _) => ley_valor_de_la_ultima(*x, tipos, slots, structs, base),
        _ => {},
    }
}

/// Un literal booleano se emite como una sola constante de 8 bits que vale 1 si el literal es
/// verdadero y 0 si es falso: distinta de cero exactamente cuando es verdadero, que es lo que
/// comprueba un salto condicional.
pub proof fn ley_literal_booleano(
    b: bool,
    sp: Span,
    tipos: Map<Seq<char>, Tipo>,
    slots: Map<Seq<char>, u32>,
    structs: Map<Seq<char>, VistaStruct>,
    base: int,
)
    ensures
        ({
            let (c, d) = emision(Expresion::Literal(Literal::Booleano(b, sp)), tipos, slots, structs, base);
            &&& d matches Desenlace::Valor(v) && v == base
            &&& c.len() == 1
            &&& c[0] is Iconst
            &&& c[0]->Iconst_tipo == TipoIr::I8
            &&& (c[0]->Iconst_valor != 0 <==> b)
            &&& (c[0]->Iconst_valor == 0 || c[0]->Iconst_valor == 1)
        }),
{
}

/// Bloque al que salta la instrucción `k` de `ir` si es un salto condicional sobre una
/// constante: `si` cuando la constante no es cero, `sino` cuando lo es.
pub open spec fn destino_de_salto(ir: Seq<InstruccionIr>, k: int) -> Option<int> {
    if 0 <= k < ir.len() {
        match ir[k] {
            InstruccionIr::SaltarSi { cond, si, sino } => if 0 <= cond < ir.len() {
                match ir[cond as int] {
                    InstruccionIr::Iconst { valor, .. } => if valor != 0 {
                        Some(si as int)
                    } else {
                        Some(sino as int)
                    },
                    _ => None,
                }
            } else {
                None
            },
            _ => None,
        }
    } else {
        None
    }
}

/// Un condicional sobre un literal booleano, emitido tras las instrucciones `previas`, salta
/// al bloque de su rama `entonces` exactamente cuando el literal es verdadero (en cualquier
/// modo verbal: en subjuntivo esa rama va segunda).
pub proof fn ley_condicional_sobre_literal(
    st: Sentencia,
    b: bool,
    sp: Span,
    previas: Seq<InstruccionIr>,
    tipos: Map<Seq<char>, Tipo>,
    slots: Map<Seq<char>, u32>,
    structs: Map<Seq<char>, VistaStruct>,
)
    requires
        st matches Sentencia::Condicional(cnd) && cnd.condicion == Expresion::Literal(Literal::Booleano(b, sp)),
        emision_sentencia(st, tipos, slots, structs, previas.len() as int).1 is Hecha,
        previas.len() + emision_sentencia(st, tipos, slots, structs, previas.len() as int).0.len()
            <= usize::MAX,
    ensures
        ({
            let base = previas.len() as int;
            let (c, _, _) = emision_sentencia(st, tipos, slots, structs, base);
            let sub = st->Condicional_0.modo is Subjuntivo;
            let entonces = if sub { emision_ramas(st, tipos, slots, structs, base + 1).3 } else { base + 2 };
            let otro = if sub { base + 2 } else { emision_ramas(st, tipos, slots, structs, base + 1).3 };
            &&& destino_de_salto(previas + c, base + 1) is Some
            &&& (destino_de_salto(previas + c, base + 1) == Some(entonces) <==> b)
            &&& (destino_de_salto(previas + c, base + 1) == Some(otro) <==> !b)
            &&& entonces != otro
        }),
{
    let base = previas.len() as int;
    let (c, d, a) = emision_sentencia(st, tipos, slots, structs, base);
    let ir = previas + c;
    let (cr, dr, ar, q) = emision_ramas(st, tipos, slots, structs, base + 1);
    let cnd = st->Condicional_0;
    let (c0, d0) = emision(cnd.condicion, tipos, slots, structs, base);
    assert(c0 == seq![InstruccionIr::Iconst { tipo: TipoIr::I8, valor: if b { 1 } else { 0 } }]);
    assert(d0 == Desenlace::Valor(base));
    assert(dr is Hecha);
    assert(q >= base + 3);
    assert(c.len() == 2 + cr.len());
    assert(cr.len() >= 3);
    assert(ir[base] == c[0]);
    assert(ir[base + 1] == c[1]);
    assert(q <= ir.len());
}

/// Valor entero de una operación binaria aritmética o de comparación (las comparaciones dan
/// 1 si se cumplen y 0 si no).
pub open spec fn aplicar(op: OperadorBinario, a: int, b: int) -> int {
    match op {
        OperadorBinario::Suma => a + b,
        OperadorBinario::Resta => a - b,
        OperadorBinario::Multiplicacion => a * b,
        OperadorBinario::Igual => if a == b { 1 } else { 0 },
        OperadorBinario::Distinto => if a != b { 1 } else { 0 },
        OperadorBinario::Menor => if a < b { 1 } else { 0 },
        OperadorBinario::Mayor => if a > b { 1 } else { 0 },
        OperadorBinario::MenorIgual => if a <= b { 1 } else { 0 },
        OperadorBinario::MayorIgual => if a >= b { 1 } else { 0 },
        _ => 0,
    }
}

/// Operadores binarios con valor en `aplicar`.
pub open spec fn es_aritmetico(op: OperadorBinario) -> bool {
    op is Suma || op is Resta || op is Multiplicacion || op is Igual || op is Distinto
        || op is Menor || op is Mayor || op is MenorIgual || op is MayorIgual
}

/// Expresión hecha de literales enteros y booleanos, operadores aritméticos y de
/// comparación y negaciones aritméticas.
pub open spec fn es_aritmetica(e: Expresion) -> bool
    decreases e,
{
    match e {
        Expresion::Literal(Literal::Entero(_, _)) => true,
        Expresion::Literal(Literal::Booleano(_, _)) => true,
        Expresion::Binaria(izq, op, der, _) => es_aritmetico(op) && es_aritmetica(*izq) && es_aritmetica(
            *der,
        ),
        Expresion::Unaria(OperadorUnario::Negacion, x, _) => es_aritmetica(*x),
        _ => false,
    }
}

/// Valor de una expresión aritmética en el lenguaje: un booleano vale 1 si es verdadero y 0
/// si es falso.
pub open spec fn valor_de(e: Expresion) -> int
    decreases e,
{
    match e {
        Expresion::Literal(Literal::Entero(n, _)) => n as int,
        Expresion::Literal(Literal::Booleano(b, _)) => if b { 1 } else { 0 },
        Expresion::Binaria(izq, op, der, _) => aplicar(op, valor_de(*izq), valor_de(*der)),
        Expresion::Unaria(OperadorUnario::Negacion, x, _) => -valor_de(*x),
        _ => 0,
    }
}

/// Valor que calcula la instrucción `k` de una secuencia de constantes y operaciones
/// binarias, cada una sobre valores anteriores.
pub open spec fn valor_ir(ir: Seq<InstruccionIr>, k: int) -> int
    decreases k,
{
    if 0 <= k < ir.len() {
        match ir[k] {
            InstruccionIr::Iconst { valor, .. } => valor as int,
            InstruccionIr::Binaria { op, izq, der } => if izq < k && der < k {
                aplicar(op, valor_ir(ir, izq as int), valor_ir(ir, der as int))
            } else {
                0
            },
            _ => 0,
        }
    } else {
        0
    }
}

proof fn lema_aritmetica_no_es_texto(e: Expresion, tipos: Map<Seq<char>, Tipo>)
    requires
        es_aritmetica(e),
    ensures
        !(inferido(e, tipos) is Texto),
{
    match e {
        Expresion::Literal(lit) => match lit {
            Literal::Entero(_, _) => {},
            Literal::Booleano(_, _) => {},
            _ => {},
        },
        _ => {},
    }
}

proof fn lema_valor_ir_prefijo(ir: Seq<InstruccionIr>, mas: Seq<InstruccionIr>, k: int)
    requires
        0 <= k < ir.len(),
    ensures
        valor_ir(ir + mas, k) == valor_ir(ir, k),
    decreases k,
{
    assert((ir + mas)[k] == ir[k]);
    match ir[k] {
        InstruccionIr::Binaria { op, izq, der } => {
            if izq < k && der < k {
                lema_valor_ir_prefijo(ir, mas, izq as int);
                lema_valor_ir_prefijo(ir, mas, der as int);
            }
        },
        _ => {},
    }
}

/// La emisión conserva el valor: el valor que calcula la representación intermedia de una
/// expresión aritmética (emitida tras cualquier secuencia `previas`) es el valor de la
/// expresión, con los operandos en su orden y los booleanos como 1 y 0.
pub proof fn ley_emision_conserva_el_valor(
    e: Expresion,
    previas: Seq<InstruccionIr>,
    tipos: Map<Seq<char>, Tipo>,
    slots: Map<Seq<char>, u32>,
    structs: Map<Seq<char>, VistaStruct>,
)
    requires
        es_aritmetica(e),
        previas.len() + emision(e, tipos, slots, structs, previas.len() as int).0.len() <= usize::MAX,
    ensures
        ({
            let (c, d) = emision(e, tipos, slots, structs, previas.len() as int);
            d matches Desenlace::Valor(v) && valor_ir(previas + c, v) == valor_de(e)
        }),
    decreases e,
{
    let base = previas.len() as int;
    let (c, d) = emision(e, tipos, slots, structs, base);
    ley_valor_de_la_ultima(e, tipos, slots, structs, base);
    match e {
        Expresion::Literal(_) => {
            assert((previas + c)[base] == c[0]);
        },
        Expresion::Binaria(izq, op, der, _) => {
            let (c1, d1) = emision(*izq, tipos, slots, structs, base);
            lema_aritmetica_no_es_texto(*izq, tipos);
            assert(c1.len() <= c.len());
            ley_emision_conserva_el_valor(*izq, previas, tipos, slots, structs);
            let p1 = previas + c1;
            let (c2, d2) = emision(*der, tipos, slots, structs, p1.len() as int);
            assert(c1.len() + c2.len() <= c.len());
            ley_emision_conserva_el_valor(*der, p1, tipos, slots, structs);
            ley_valor_de_la_ultima(*izq, tipos, slots, structs, base);
            ley_valor_de_la_ultima(*der, tipos, slots, structs, p1.len() as int);
            let v1 = d1->Valor_0;
            let v2 = d2->Valor_0;
            let ir = previas + c;
            let k = base + c1.len() + c2.len();
            assert(c == c1 + c2 + seq![InstruccionIr::Binaria { op, izq: v1 as usize, der: v2 as usize }]);
            assert(ir =~= (p1 + c2) + seq![InstruccionIr::Binaria { op, izq: v1 as usize, der: v2 as usize }]);
            assert(ir[k] == InstruccionIr::Binaria { op, izq: v1 as usize, der: v2 as usize });
            assert(p1 + (c2 + seq![InstruccionIr::Binaria { op, izq: v1 as usize, der: v2 as usize }]) =~= ir);
            lema_valor_ir_prefijo(p1, c2 + seq![InstruccionIr::Binaria { op, izq: v1 as usize, der: v2 as usize }], v1);
            lema_valor_ir_prefijo(p1 + c2, seq![InstruccionIr::Binaria { op, izq: v1 as usize, der: v2 as usize }], v2);
        },
        Expresion::Unaria(_, x, _) => {
            let (c0, d0) = emision(*x, tipos, slots, structs, base);
            assert(c0.len() <= c.len());
            ley_emision_conserva_el_valor(*x, previas, tipos, slots, structs);
            ley_valor_de_la_ultima(*x, tipos, slots, structs, base);
            let v = d0->Valor_0;
            let k = base + c0.len();
            let p = previas + c0;
            let cola = seq![
                InstruccionIr::Iconst { tipo: TipoIr::I32, valor: 0 },
                InstruccionIr::Binaria { op: OperadorBinario::Resta, izq: k as usize, der: v as usize },
            ];
            let ir = previas + c;
            assert(ir =~= p + cola);
            assert(ir[k] == cola[0]);
            assert(ir[k + 1] == cola[1]);
            lema_valor_ir_prefijo(p, cola, v);
            lema_valor_ir_prefijo(p + seq![cola[0]], seq![cola[1]], k);
            assert(p + seq![cola[0]] + seq![cola[1]] =~= ir);
        },
        _ => {},
    }
}

/// Tipo de máquina con que se guarda un valor del tipo dado.
pub fn tipo_a_ir(t: &Tipo) -> (r: TipoIr)
    ensures
        r == tipo_ir(*t),
{
    match t {
        Tipo::Entero8 | Tipo::Natural8 | Tipo::Booleano | Tipo::Caracter | Tipo::Vacio => TipoIr::I8,
        Tipo::Entero16 | Tipo::Natural16 => TipoIr::I16,
        Tipo::Entero32 | Tipo::Natural32 => TipoIr::I32,
        Tipo::Flotante32 => TipoIr::F32,
        Tipo::Flotante64 => TipoIr::F64,
        _ => TipoIr::I64,
    }
}

/// Mensaje «Variable '<n>'» seguido de `sufijo`.
fn mensaje_de_variable(n: &String, sufijo: &str) -> (r: String)
    ensures
        r@ == mensaje_variable(n@, sufijo@),
{
    let mut m = texto("Variable '");
    agregar(&mut m, n.as_str());
    agregar(&mut m, sufijo);
    m
}

/// Lectura de la variable `n`: su dirección o la carga de su slot, según su tipo.
fn emitir_lectura(t: &Tipo, slot: u32, salida: &mut Vec<InstruccionIr>) -> (r: Emitido)
    ensures
        ({
            let (c, d) = lectura(*t, slot, old(salida)@.len() as int);
            final(salida)@ == old(salida)@ + c && corresponde(r, d)
        }),
{
    let v = salida.len();
    match t {
        Tipo::Array(_, _) | Tipo::Nombre(_) | Tipo::Resultado(_, _) => {
            salida.push(InstruccionIr::DireccionSlot { slot });
        },
        _ => {
            salida.push(InstruccionIr::CargarSlot { tipo: tipo_a_ir(t), slot });
        },
    }
    proof {
        let (c, d) = lectura(*t, slot, v as int);
        assert(final(salida)@ =~= old(salida)@ + c);
    }
    Emitido::Valor(v)
}

/// Alguna de las sentencias es un `retornar`.
fn retorna_alguna(xs: &Vec<Sentencia>) -> (r: bool)
    ensures
        r == termina(xs@),
{
    let mut i: usize = 0;
    while i < xs.len()
        invariant
            i <= xs@.len(),
            forall|k: int| 0 <= k < i ==> !(#[trigger] xs@[k] is Retornar),
        decreases xs@.len() - i,
    {
        if let Sentencia::Retornar(_, _) = &xs[i] {
            assert(xs@[i as int] is Retornar);
            return true;
        }
        i = i + 1;
    }
    false
}

/// Un prefijo que no acaba `Hecha` da el desenlace y los avisos de los prefijos más largos.
proof fn lema_prefijo_detenido(
    xs: Seq<Sentencia>,
    n: nat,
    tipos: Map<Seq<char>, Tipo>,
    slots: Map<Seq<char>, u32>,
    structs: Map<Seq<char>, VistaStruct>,
    base: int,
)
    requires
        n <= xs.len(),
        !(emision_prefijo(xs, n, tipos, slots, structs, base).1 is Hecha),
    ensures
        emision_prefijo(xs, xs.len(), tipos, slots, structs, base).1 == emision_prefijo(xs, n, tipos, slots, structs, base).1,
        emision_prefijo(xs, xs.len(), tipos, slots, structs, base).2 == emision_prefijo(xs, n, tipos, slots, structs, base).2,
    decreases xs.len() - n,
{
    if n < xs.len() {
        lema_prefijo_detenido(xs, n + 1, tipos, slots, structs, base);
    }
}

impl Codegen {
    /// Emite las instrucciones de la expresión al final de `salida` y dice qué valor la
    /// contiene. `tipos` y `slots` dan el tipo y el slot de pila de cada variable visible.
    #[verifier::rlimit(60)]
    pub fn compilar_expresion(
        &self,
        expr: &Expresion,
        tipos: &Vec<(String, Tipo)>,
        slots: &Vec<(String, u32)>,
        salida: &mut Vec<InstruccionIr>,
    ) -> (r: Emitido)
        requires
            self.bien_formado(),
            claves_unicas(tipos@),
            claves_unicas(slots@),
            mapa_de(slots@).dom() == mapa_de(tipos@).dom(),
        ensures
            ({
                let (c, d) = emision(
                    *expr,
                    mapa_de(tipos@),
                    mapa_de(slots@),
                    self.structs_map(),
                    old(salida)@.len() as int,
                );
                final(salida)@ == old(salida)@ + c && corresponde(r, d)
            }),
        decreases expr, 0nat,
    {
        let ghost ts = mapa_de(tipos@);
        let ghost ss = mapa_de(slots@);
        let ghost base = salida@.len() as int;
        match expr {
            Expresion::Literal(lit) => match lit {
                Literal::Entero(n, _) => {
                    let v = salida.len();
                    salida.push(InstruccionIr::Iconst { tipo: TipoIr::I32, valor: *n });
                    proof {
                        assert(salida@ =~= old(salida)@ + seq![InstruccionIr::Iconst { tipo: TipoIr::I32, valor: *n }]);
                    }
                    Emitido::Valor(v)
                },
                Literal::Booleano(b, _) => {
                    let v = salida.len();
                    let valor: i64 = if *b { 1 } else { 0 };
                    salida.push(InstruccionIr::Iconst { tipo: TipoIr::I8, valor });
                    proof {
                        assert(salida@ =~= old(salida)@ + seq![InstruccionIr::Iconst { tipo: TipoIr::I8, valor }]);
                    }
                    Emitido::Valor(v)
                },
                Literal::Caracter(_, sp) => {
                    let m = texto("Literal no soportado");
                    proof {
                        assert(salida@ =~= old(salida)@ + Seq::<InstruccionIr>::empty());
                    }
                    Emitido::Error(ErrorCompilador::nuevo(CategoriaError::Interno, 5, sp.copia(), m))
                },
                _ => {
                    proof {
                        assert(salida@ =~= old(salida)@ + Seq::<InstruccionIr>::empty());
                    }
                    Emitido::Externa
                },
            },
            Expresion::Identificador(n, sp) | Expresion::Mover(n, _, sp) => {
                let es_mover = matches!(expr, Expresion::Mover(_, _, _));
                match obtener(tipos, n.as_str()) {
                    Some(t) => {
                        let slot = match obtener(slots, n.as_str()) {
                            Some(s) => *s,
                            None => {
                                proof {
                                    assert(mapa_de(slots@).dom().contains(n@));
                                }
                                0
                            },
                        };
                        emitir_lectura(t, slot, salida)
                    },
                    None => {
                        let m = if es_mover {
                            mensaje_de_variable(n, "' no encontrada en 'mover'")
                        } else {
                            mensaje_de_variable(n, "' no encontrada")
                        };
                        let codigo: u32 = if es_mover { 52 } else { 6 };
                        proof {
                            assert(salida@ =~= old(salida)@ + Seq::<InstruccionIr>::empty());
                        }
                        Emitido::Error(ErrorCompilador::nuevo(CategoriaError::Interno, codigo, sp.copia(), m))
                    },
                }
            },
            Expresion::Copiar(x, _) => self.compilar_expresion(x, tipos, slots, salida),
            Expresion::Propagacion(x, _) => {
                let r = self.compilar_expresion(x, tipos, slots, salida);
                match r {
                    Emitido::Valor(v) => {
                        let k = salida.len();
                        salida.push(InstruccionIr::SumaInmediata { valor: v, inmediato: 4 });
                        salida.push(InstruccionIr::Cargar { tipo: TipoIr::I32, ptr: k });
                        let w = salida.len() - 1;
                        proof {
                            let (c, d) = emision(**x, ts, ss, self.structs_map(), base);
                            assert(salida@ =~= old(salida)@ + (c + seq![
                                InstruccionIr::SumaInmediata { valor: v as usize, inmediato: 4 },
                                InstruccionIr::Cargar { tipo: TipoIr::I32, ptr: (base + c.len()) as usize },
                            ]));
                        }
                        Emitido::Valor(w)
                    },
                    otro => otro,
                }
            },
            Expresion::Rango(_, _, _, sp) => {
                let m = texto("Los rangos (..) solo pueden usarse dentro de un bucle 'para'");
                proof {
                    assert(salida@ =~= old(salida)@ + Seq::<InstruccionIr>::empty());
                }
                Emitido::Error(ErrorCompilador::nuevo(CategoriaError::Tipo, 41, sp.copia(), m))
            },
            Expresion::ArrayRelleno(_, _, sp) => {
                let m = texto("'todos' solo puede usarse en inicialización de variable con tipo explícito");
                proof {
                    assert(salida@ =~= old(salida)@ + Seq::<InstruccionIr>::empty());
                }
                Emitido::Error(ErrorCompilador::nuevo(CategoriaError::Interno, 22, sp.copia(), m))
            },
            Expresion::Ruta(_, _) => {
                proof {
                    assert(salida@ =~= old(salida)@ + Seq::<InstruccionIr>::empty());
                }
                Emitido::Descartada
            },
            Expresion::Binaria(l, op, der, _) => {
                if *op == OperadorBinario::Suma {
                    let t = self.inferir_tipo(l, tipos);
                    if let Tipo::Texto = t {
                        proof {
                            assert(salida@ =~= old(salida)@ + Seq::<InstruccionIr>::empty());
                        }
                        return Emitido::Externa;
                    }
                }
                let r1 = self.compilar_expresion(l, tipos, slots, salida);
                let ghost medio = salida@;
                match r1 {
                    Emitido::Valor(v1) => {
                        let r2 = self.compilar_expresion(der, tipos, slots, salida);
                        match r2 {
                            Emitido::Valor(v2) => {
                                let k = salida.len();
                                salida.push(InstruccionIr::Binaria { op: *op, izq: v1, der: v2 });
                                proof {
                                    let (c1, d1) = emision(**l, ts, ss, self.structs_map(), base);
                                    let (c2, d2) = emision(**der, ts, ss, self.structs_map(), base + c1.len());
                                    assert(salida@ =~= old(salida)@ + (c1 + c2 + seq![
                                        InstruccionIr::Binaria { op: *op, izq: v1, der: v2 },
                                    ]));
                                }
                                Emitido::Valor(k)
                            },
                            otro => {
                                proof {
                                    let (c1, d1) = emision(**l, ts, ss, self.structs_map(), base);
                                    let (c2, d2) = emision(**der, ts, ss, self.structs_map(), base + c1.len());
                                    assert(salida@ =~= old(salida)@ + (c1 + c2));
                                }
                                otro
                            },
                        }
                    },
                    otro => otro,
                }
            },
            Expresion::Unaria(op, x, sp) => self.compilar_unaria(*op, x, sp, tipos, slots, salida),
            _ => {
                proof {
                    assert(salida@ =~= old(salida)@ + Seq::<InstruccionIr>::empty());
                }
                Emitido::Externa
            },
        }
    }

    /// Emite una expresión unaria `op x`: las referencias a una variable o a un campo de una
    /// variable struct dan su dirección; el resto opera sobre el valor de `x`.
    #[verifier::rlimit(60)]
    pub fn compilar_unaria(
        &self,
        op: OperadorUnario,
        x: &Expresion,
        sp: &Span,
        tipos: &Vec<(String, Tipo)>,
        slots: &Vec<(String, u32)>,
        salida: &mut Vec<InstruccionIr>,
    ) -> (r: Emitido)
        requires
            self.bien_formado(),
            claves_unicas(tipos@),
            claves_unicas(slots@),
            mapa_de(slots@).dom() == mapa_de(tipos@).dom(),
        ensures
            ({
                let (c, d) = emision(
                    Expresion::Unaria(op, Box::new(*x), *sp),
                    mapa_de(tipos@),
                    mapa_de(slots@),
                    self.structs_map(),
                    old(salida)@.len() as int,
                );
                final(salida)@ == old(salida)@ + c && corresponde(r, d)
            }),
        decreases x, 1nat,
    {
        let ghost ts = mapa_de(tipos@);
        let ghost ss = mapa_de(slots@);
        let ghost base = salida@.len() as int;
        match op {
            OperadorUnario::Referencia | OperadorUnario::ReferenciaMut => {
                if let Some((slot, off)) = self.direccion_referencia(x, tipos, slots) {
                    let v = salida.len();
                    salida.push(InstruccionIr::DireccionSlot { slot });
                    match off {
                        Some(o) => {
                            salida.push(InstruccionIr::SumaInmediata { valor: v, inmediato: o as i64 });
                            proof {
                                assert(salida@ =~= old(salida)@ + seq![
                                    InstruccionIr::DireccionSlot { slot },
                                    InstruccionIr::SumaInmediata { valor: v, inmediato: o as i64 },
                                ]);
                            }
                            return Emitido::Valor(salida.len() - 1);
                        },
                        None => {
                            proof {
                                assert(salida@ =~= old(salida)@ + seq![InstruccionIr::DireccionSlot { slot }]);
                            }
                            return Emitido::Valor(v);
                        },
                    }
                }
                self.compilar_expresion(x, tipos, slots, salida)
            },
            _ => {
                let r = self.compilar_expresion(x, tipos, slots, salida);
                match r {
                    Emitido::Valor(v) => {
                        let k = salida.len();
                        let ghost (c, d) = emision(*x, ts, ss, self.structs_map(), base);
                        match op {
                            OperadorUnario::Desreferencia => {
                                salida.push(InstruccionIr::Cargar { tipo: TipoIr::I32, ptr: v });
                                proof {
                                    assert(salida@ =~= old(salida)@ + (c + seq![InstruccionIr::Cargar { tipo: TipoIr::I32, ptr: v }]));
                                }
                                Emitido::Valor(k)
                            },
                            OperadorUnario::Negacion => {
                                salida.push(InstruccionIr::Iconst { tipo: TipoIr::I32, valor: 0 });
                                salida.push(InstruccionIr::Binaria { op: OperadorBinario::Resta, izq: k, der: v });
                                proof {
                                    assert(salida@ =~= old(salida)@ + (c + seq![
                                        InstruccionIr::Iconst { tipo: TipoIr::I32, valor: 0 },
                                        InstruccionIr::Binaria { op: OperadorBinario::Resta, izq: k, der: v },
                                    ]));
                                }
                                Emitido::Valor(salida.len() - 1)
                            },
                            OperadorUnario::NegacionLogica => {
                                salida.push(InstruccionIr::Iconst { tipo: TipoIr::I8, valor: 1 });
                                salida.push(InstruccionIr::Binaria { op: OperadorBinario::BitXor, izq: v, der: k });
                                proof {
                                    assert(salida@ =~= old(salida)@ + (c + seq![
                                        InstruccionIr::Iconst { tipo: TipoIr::I8, valor: 1 },
                                        InstruccionIr::Binaria { op: OperadorBinario::BitXor, izq: v, der: k },
                                    ]));
                                }
                                Emitido::Valor(salida.len() - 1)
                            },
                            _ => {
                                salida.push(InstruccionIr::Bnot { valor: v });
                                proof {
                                    assert(salida@ =~= old(salida)@ + (c + seq![InstruccionIr::Bnot { valor: v }]));
                                }
                                Emitido::Valor(k)
                            },
                        }
                    },
                    otro => otro,
                }
            },
        }
    }

    /// Slot y, para un campo, offset de la expresión a la que se toma referencia, cuando es
    /// una variable o el campo de una variable struct registrada.
    fn direccion_referencia(
        &self,
        x: &Expresion,
        tipos: &Vec<(String, Tipo)>,
        slots: &Vec<(String, u32)>,
    ) -> (r: Option<(u32, Option<u32>)>)
        requires
            self.bien_formado(),
            claves_unicas(tipos@),
            claves_unicas(slots@),
            mapa_de(slots@).dom() == mapa_de(tipos@).dom(),
        ensures
            r == referencia_directa(*x, mapa_de(tipos@), mapa_de(slots@), self.structs_map()),
    {
        match x {
            Expresion::Identificador(n, _) => match obtener(slots, n.as_str()) {
                Some(s) => Some((*s, None)),
                None => None,
            },
            Expresion::AccesoCampo(b, campo, _) => match &**b {
                Expresion::Identificador(n, _) => match obtener(tipos, n.as_str()) {
                    Some(Tipo::Nombre(nombre_struct)) => match obtener(&self.structs, nombre_struct.as_str()) {
                        Some(layout) => {
                            proof {
                                let i = choose|i: int| 0 <= i < self.structs@.len() && #[trigger] self.structs@[i].1 == *layout;
                                assert(claves_unicas(self.structs@[i].1.offsets@));
                            }
                            match obtener(&layout.offsets, campo.as_str()) {
                                Some(o) => match obtener(slots, n.as_str()) {
                                    Some(s) => Some((*s, Some(*o))),
                                    None => None,
                                },
                                None => None,
                            }
                        },
                        None => None,
                    },
                    _ => None,
                },
                _ => None,
            },
            _ => None,
        }
    }

    /// Emite la sentencia al final de `salida`; los errores que no detienen la emisión van
    /// a `avisos`. Si no acaba `Hecha`, lo emitido queda incompleto.
    #[verifier::rlimit(60)]
    pub fn compilar_sentencia(
        &self,
        st: &Sentencia,
        tipos: &Vec<(String, Tipo)>,
        slots: &Vec<(String, u32)>,
        salida: &mut Vec<InstruccionIr>,
        avisos: &mut Vec<ErrorCompilador>,
    ) -> (r: SentenciaEmitida)
        requires
            self.bien_formado(),
            claves_unicas(tipos@),
            claves_unicas(slots@),
            mapa_de(slots@).dom() == mapa_de(tipos@).dom(),
        ensures
            ({
                let (c, d, a) = emision_sentencia(
                    *st,
                    mapa_de(tipos@),
                    mapa_de(slots@),
                    self.structs_map(),
                    old(salida)@.len() as int,
                );
                &&& corresponde_sentencia(r, d)
                &&& avisos_de(final(avisos)@) == avisos_de(old(avisos)@) + a
                &&& d is Hecha ==> final(salida)@ == old(salida)@ + c
                &&& extiende(final(salida)@, old(salida)@)
            }),
        decreases st, 3nat,
    {
        let ghost ts = mapa_de(tipos@);
        let ghost ss = mapa_de(slots@);
        let ghost base = salida@.len() as int;
        let ghost s0 = salida@;
        let ghost a0 = avisos@;
        proof {
            assert(avisos_de(a0) + Seq::<Aviso>::empty() =~= avisos_de(a0));
            assert(s0 + Seq::<InstruccionIr>::empty() =~= s0);
            lema_extiende_suma(s0, Seq::empty());
        }
        match st {
            Sentencia::Expresion(e) => {
                let r = self.compilar_expresion(e, tipos, slots, salida);
                proof {
                    let (c, d) = emision(*e, ts, ss, self.structs_map(), base);
                    lema_extiende_suma(s0, c);
                }
                match r {
                    Emitido::Valor(_) => SentenciaEmitida::Hecha,
                    otro => SentenciaEmitida::Fallo(otro),
                }
            },
            Sentencia::Asignacion(a) => match &a.lugar {
                Lugar::Identificador(n) => {
                    let r = self.compilar_expresion(&a.valor, tipos, slots, salida);
                    let ghost (c, d) = emision(a.valor, ts, ss, self.structs_map(), base);
                    proof {
                        lema_extiende_suma(s0, c);
                    }
                    match r {
                        Emitido::Valor(v) => match obtener(slots, n.as_str()) {
                            Some(slot) => {
                                salida.push(InstruccionIr::GuardarSlot { slot: *slot, valor: v });
                                proof {
                                    assert(salida@ =~= s0 + (c + seq![InstruccionIr::GuardarSlot { slot: *slot, valor: v }]));
                                    lema_extiende_suma(s0, c + seq![InstruccionIr::GuardarSlot { slot: *slot, valor: v }]);
                                }
                                SentenciaEmitida::Hecha
                            },
                            None => {
                                let m = mensaje_de_variable(n, "' no encontrada para asignación");
                                let e = ErrorCompilador::nuevo(CategoriaError::Interno, 15, a.span.copia(), m);
                                avisos.push(e);
                                proof {
                                    assert(avisos_de(avisos@) =~= avisos_de(a0) + seq![(
                                        CategoriaError::Interno,
                                        15u32,
                                        a.span,
                                        mensaje_variable(n@, "' no encontrada para asignación"@),
                                    )]);
                                }
                                SentenciaEmitida::Hecha
                            },
                        },
                        otro => SentenciaEmitida::Fallo(otro),
                    }
                },
                _ => SentenciaEmitida::Externa,
            },
            Sentencia::Retornar(None, _) => {
                salida.push(InstruccionIr::Retornar { valor: None });
                proof {
                    assert(salida@ =~= s0 + seq![InstruccionIr::Retornar { valor: None }]);
                    lema_extiende_suma(s0, seq![InstruccionIr::Retornar { valor: None }]);
                }
                SentenciaEmitida::Hecha
            },
            Sentencia::Retornar(Some(e), _) => {
                if let Expresion::Identificador(_, _) = e {
                    let t = self.inferir_tipo(e, tipos);
                    match t {
                        Tipo::Resultado(_, _) | Tipo::Nombre(_) => {
                            return SentenciaEmitida::Externa;
                        },
                        _ => {},
                    }
                }
                let r = self.compilar_expresion(e, tipos, slots, salida);
                let ghost (c, d) = emision(*e, ts, ss, self.structs_map(), base);
                proof {
                    lema_extiende_suma(s0, c);
                }
                match r {
                    Emitido::Valor(v) => {
                        salida.push(InstruccionIr::Retornar { valor: Some(v) });
                        proof {
                            assert(salida@ =~= s0 + (c + seq![InstruccionIr::Retornar { valor: Some(v) }]));
                            lema_extiende_suma(s0, c + seq![InstruccionIr::Retornar { valor: Some(v) }]);
                        }
                        SentenciaEmitida::Hecha
                    },
                    otro => SentenciaEmitida::Fallo(otro),
                }
            },
            Sentencia::Condicional(_) => self.compilar_condicional(st, tipos, slots, salida, avisos),
            Sentencia::BucleMientras(_) => self.compilar_mientras(st, tipos, slots, salida, avisos),
            _ => SentenciaEmitida::Externa,
        }
    }

    /// Emite un condicional: la condición, el salto condicional y las dos ramas.
    #[verifier::spinoff_prover]
    #[verifier::rlimit(100)]
    fn compilar_condicional(
        &self,
        st: &Sentencia,
        tipos: &Vec<(String, Tipo)>,
        slots: &Vec<(String, u32)>,
        salida: &mut Vec<InstruccionIr>,
        avisos: &mut Vec<ErrorCompilador>,
    ) -> (r: SentenciaEmitida)
        requires
            self.bien_formado(),
            claves_unicas(tipos@),
            claves_unicas(slots@),
            mapa_de(slots@).dom() == mapa_de(tipos@).dom(),
            *st is Condicional,
        ensures
            ({
                let (c, d, a) = emision_sentencia(
                    *st,
                    mapa_de(tipos@),
                    mapa_de(slots@),
                    self.structs_map(),
                    old(salida)@.len() as int,
                );
                &&& corresponde_sentencia(r, d)
                &&& avisos_de(final(avisos)@) == avisos_de(old(avisos)@) + a
                &&& d is Hecha ==> final(salida)@ == old(salida)@ + c
                &&& extiende(final(salida)@, old(salida)@)
            }),
        decreases st, 2nat,
    {
        let ghost ts = mapa_de(tipos@);
        let ghost ss = mapa_de(slots@);
        let ghost base = salida@.len() as int;
        let ghost s0 = salida@;
        let ghost a0 = avisos@;
        proof {
            assert(avisos_de(a0) + Seq::<Aviso>::empty() =~= avisos_de(a0));
            assert(s0 + Seq::<InstruccionIr>::empty() =~= s0);
            lema_extiende_suma(s0, Seq::empty());
        }
        match st {
            Sentencia::Condicional(cnd) => {
                let r0 = self.compilar_expresion(&cnd.condicion, tipos, slots, salida);
                let ghost (c0, d0) = emision(cnd.condicion, ts, ss, self.structs_map(), base);
                proof {
                    lema_extiende_suma(s0, c0);
                }
                match r0 {
                    Emitido::Valor(v) => {
                        let p = salida.len();
                        salida.push(InstruccionIr::SaltarSi { cond: v, si: 0, sino: 0 });
                        let ghost s1 = salida@;
                        proof {
                            lema_extiende_suma(s0 + c0, seq![InstruccionIr::SaltarSi { cond: v, si: 0, sino: 0 }]);
                            assert(s1 =~= (s0 + c0) + seq![InstruccionIr::SaltarSi { cond: v, si: 0, sino: 0 }]);
                            lema_extiende(s0, s0 + c0, s1);
                        }
                        let (r, q) = self.compilar_ramas(st, tipos, slots, salida, avisos);
                        proof {
                            lema_extiende(s0, s1, salida@);
                        }
                        match r {
                            SentenciaEmitida::Hecha => {
                                let primer_bloque = p + 1;
                                let instr = if matches!(cnd.modo, ModoVerbal::Subjuntivo) {
                                    InstruccionIr::SaltarSi { cond: v, si: q, sino: primer_bloque }
                                } else {
                                    InstruccionIr::SaltarSi { cond: v, si: primer_bloque, sino: q }
                                };
                                let ghost s2 = salida@;
                                salida.set(p, instr);
                                proof {
                                    let (c, d, a, qq) = emision_ramas(*st, ts, ss, self.structs_map(), p as int);
                                    assert(s2 =~= s1 + c);
                                    assert(salida@ =~= s0 + (c0 + seq![instr] + c));
                                    lema_extiende_suma(s0, c0 + seq![instr] + c);
                                }
                                SentenciaEmitida::Hecha
                            },
                            otro => otro,
                        }
                    },
                    otro => SentenciaEmitida::Fallo(otro),
                }
            },
            _ => SentenciaEmitida::Externa,
        }
    }

    /// Emite un bucle `mientras`: salto a la cabecera, condición, salto condicional, cuerpo con
    /// vuelta a la cabecera y bloque de salida.
    #[verifier::spinoff_prover]
    #[verifier::rlimit(100)]
    fn compilar_mientras(
        &self,
        st: &Sentencia,
        tipos: &Vec<(String, Tipo)>,
        slots: &Vec<(String, u32)>,
        salida: &mut Vec<InstruccionIr>,
        avisos: &mut Vec<ErrorCompilador>,
    ) -> (r: SentenciaEmitida)
        requires
            self.bien_formado(),
            claves_unicas(tipos@),
            claves_unicas(slots@),
            mapa_de(slots@).dom() == mapa_de(tipos@).dom(),
            *st is BucleMientras,
        ensures
            ({
                let (c, d, a) = emision_sentencia(
                    *st,
                    mapa_de(tipos@),
                    mapa_de(slots@),
                    self.structs_map(),
                    old(salida)@.len() as int,
                );
                &&& corresponde_sentencia(r, d)
                &&& avisos_de(final(avisos)@) == avisos_de(old(avisos)@) + a
                &&& d is Hecha ==> final(salida)@ == old(salida)@ + c
                &&& extiende(final(salida)@, old(salida)@)
            }),
        decreases st, 2nat,
    {
        let ghost ts = mapa_de(tipos@);
        let ghost ss = mapa_de(slots@);
        let ghost base = salida@.len() as int;
        let ghost s0 = salida@;
        let ghost a0 = avisos@;
        proof {
            assert(avisos_de(a0) + Seq::<Aviso>::empty() =~= avisos_de(a0));
            assert(s0 + Seq::<InstruccionIr>::empty() =~= s0);
            lema_extiende_suma(s0, Seq::empty());
        }
        match st {
            Sentencia::BucleMientras(b) => {
                let j = salida.len();
                salida.push(InstruccionIr::Saltar { destino: 0 });
                salida.push(InstruccionIr::Bloque);
                let h = salida.len() - 1;
                salida.set(j, InstruccionIr::Saltar { destino: h });
                let ghost s1 = salida@;
                proof {
                    assert(s1 =~= s0 + seq![InstruccionIr::Saltar { destino: h }, InstruccionIr::Bloque]);
                    lema_extiende_suma(s0, seq![InstruccionIr::Saltar { destino: h }, InstruccionIr::Bloque]);
                }
                let r0 = self.compilar_expresion(&b.condicion, tipos, slots, salida);
                let ghost (c0, d0) = emision(b.condicion, ts, ss, self.structs_map(), base + 2);
                proof {
                    lema_extiende_suma(s1, c0);
                    lema_extiende(s0, s1, salida@);
                }
                match r0 {
                    Emitido::Valor(v) => {
                        let p = salida.len();
                        salida.push(InstruccionIr::SaltarSi { cond: v, si: 0, sino: 0 });
                        salida.push(InstruccionIr::Bloque);
                        let cuerpo_inicio = salida.len() - 1;
                        salida.set(p, InstruccionIr::SaltarSi { cond: v, si: cuerpo_inicio, sino: 0 });
                        let ghost s2 = salida@;
                        proof {
                            lema_extiende_suma(s1 + c0, seq![InstruccionIr::SaltarSi { cond: v, si: (p + 1) as usize, sino: 0 }, InstruccionIr::Bloque]);
                            assert(s2 =~= (s1 + c0) + seq![InstruccionIr::SaltarSi { cond: v, si: (p + 1) as usize, sino: 0 }, InstruccionIr::Bloque]);
                            lema_extiende(s0, s1 + c0, s2);
                            assert(decreases_to!(*st => st->BucleMientras_0.bloque.sentencias));
                        }
                        let r1 = self.compilar_bloque(&b.bloque.sentencias, tipos, slots, salida, avisos);
                        proof {
                            lema_extiende(s0, s2, salida@);
                        }
                        match r1 {
                            SentenciaEmitida::Hecha => {
                                let ghost s3 = salida@;
                                let termina_cuerpo = retorna_alguna(&b.bloque.sentencias);
                                if !termina_cuerpo {
                                    salida.push(InstruccionIr::Saltar { destino: h });
                                }
                                let x = salida.len();
                                salida.push(InstruccionIr::Bloque);
                                let ghost s4 = salida@;
                                salida.set(p, InstruccionIr::SaltarSi { cond: v, si: cuerpo_inicio, sino: x });
                                proof {
                                    let cuerpo = b.bloque.sentencias@;
                                    let (c1, d1, a1) = emision_prefijo(cuerpo, cuerpo.len(), ts, ss, self.structs_map(), p + 2);
                                    assert(s3 =~= s2 + c1);
                                    assert(s4 =~= s3 + salto_final(cuerpo, h as int) + seq![InstruccionIr::Bloque]);
                                    let todo = seq![InstruccionIr::Saltar { destino: h }, InstruccionIr::Bloque] + c0
                                        + seq![InstruccionIr::SaltarSi { cond: v, si: (p + 1) as usize, sino: x }, InstruccionIr::Bloque]
                                        + c1 + salto_final(cuerpo, h as int) + seq![InstruccionIr::Bloque];
                                    assert(salida@ =~= s0 + todo);
                                    lema_extiende_suma(s0, todo);
                                }
                                SentenciaEmitida::Hecha
                            },
                            otro => otro,
                        }
                    },
                    otro => SentenciaEmitida::Fallo(otro),
                }
            },
            _ => SentenciaEmitida::Externa,
        }
    }

    /// Emite las dos ramas del condicional `st`, cuyo salto condicional es la última
    /// instrucción de `salida`, y devuelve el número del bloque de la segunda rama.
    #[verifier::spinoff_prover]
    #[verifier::rlimit(100)]
    fn compilar_ramas(
        &self,
        st: &Sentencia,
        tipos: &Vec<(String, Tipo)>,
        slots: &Vec<(String, u32)>,
        salida: &mut Vec<InstruccionIr>,
        avisos: &mut Vec<ErrorCompilador>,
    ) -> (r: (SentenciaEmitida, usize))
        requires
            self.bien_formado(),
            claves_unicas(tipos@),
            claves_unicas(slots@),
            mapa_de(slots@).dom() == mapa_de(tipos@).dom(),
            *st is Condicional,
            old(salida)@.len() >= 1,
        ensures
            ({
                let (c, d, a, q) = emision_ramas(
                    *st,
                    mapa_de(tipos@),
                    mapa_de(slots@),
                    self.structs_map(),
                    old(salida)@.len() - 1,
                );
                &&& corresponde_sentencia(r.0, d)
                &&& avisos_de(final(avisos)@) == avisos_de(old(avisos)@) + a
                &&& d is Hecha ==> final(salida)@ == old(salida)@ + c && r.1 == q
                &&& extiende(final(salida)@, old(salida)@)
            }),
        decreases st, 1nat,
    {
        let ghost ts = mapa_de(tipos@);
        let ghost ss = mapa_de(slots@);
        let ghost p = salida@.len() - 1;
        let ghost s0 = salida@;
        let ghost a0 = avisos@;
        let sub = match st {
            Sentencia::Condicional(cnd) => matches!(cnd.modo, ModoVerbal::Subjuntivo),
            _ => false,
        };
        let ghost primero = sentencias_rama(*st, !sub);
        let ghost segundo = sentencias_rama(*st, sub);
        salida.push(InstruccionIr::Bloque);
        let ghost s1 = salida@;
        proof {
            assert(s1 =~= s0 + seq![InstruccionIr::Bloque]);
            lema_extiende_suma(s0, seq![InstruccionIr::Bloque]);
        }
        let r1 = self.compilar_rama(st, !sub, tipos, slots, salida, avisos);
        let ghost (c1, d1, a1) = emision_rama(*st, !sub, ts, ss, self.structs_map(), p + 2);
        proof {
            lema_extiende(s0, s1, salida@);
        }
        match r1 {
            SentenciaEmitida::Hecha => {},
            otro => {
                return (otro, 0);
            },
        }
        let t1 = self.rama_retorna(st, !sub);
        let j1 = salida.len();
        if !t1 {
            salida.push(InstruccionIr::Saltar { destino: 0 });
        }
        let q = salida.len();
        salida.push(InstruccionIr::Bloque);
        let ghost s2 = salida@;
        proof {
            assert(s2 =~= s0 + (seq![InstruccionIr::Bloque] + c1 + salto_final(primero, 0) + seq![InstruccionIr::Bloque]));
            lema_extiende_suma(s0, seq![InstruccionIr::Bloque] + c1 + salto_final(primero, 0) + seq![InstruccionIr::Bloque]);
        }
        let r2 = self.compilar_rama(st, sub, tipos, slots, salida, avisos);
        let ghost (c2, d2, a2) = emision_rama(*st, sub, ts, ss, self.structs_map(), q + 1);
        proof {
            lema_extiende(s0, s2, salida@);
            assert(avisos_de(a0) + a1 + a2 =~= avisos_de(a0) + (a1 + a2));
        }
        match r2 {
            SentenciaEmitida::Hecha => {},
            otro => {
                return (otro, q);
            },
        }
        let t2 = self.rama_retorna(st, sub);
        let j2 = salida.len();
        if !t2 {
            salida.push(InstruccionIr::Saltar { destino: 0 });
        }
        let m = salida.len();
        salida.push(InstruccionIr::Bloque);
        if !t1 {
            salida.set(j1, InstruccionIr::Saltar { destino: m });
        }
        if !t2 {
            salida.set(j2, InstruccionIr::Saltar { destino: m });
        }
        proof {
            let todo = seq![InstruccionIr::Bloque] + c1 + salto_final(primero, m as int) + seq![InstruccionIr::Bloque]
                + c2 + salto_final(segundo, m as int) + seq![InstruccionIr::Bloque];
            assert(salida@ =~= s0 + todo);
            lema_extiende_suma(s0, todo);
        }
        (SentenciaEmitida::Hecha, q)
    }

    /// Emite una rama del condicional `st`: el `entonces` o el `sino`, si lo tiene.
    fn compilar_rama(
        &self,
        st: &Sentencia,
        entonces: bool,
        tipos: &Vec<(String, Tipo)>,
        slots: &Vec<(String, u32)>,
        salida: &mut Vec<InstruccionIr>,
        avisos: &mut Vec<ErrorCompilador>,
    ) -> (r: SentenciaEmitida)
        requires
            self.bien_formado(),
            claves_unicas(tipos@),
            claves_unicas(slots@),
            mapa_de(slots@).dom() == mapa_de(tipos@).dom(),
            *st is Condicional,
        ensures
            ({
                let (c, d, a) = emision_rama(
                    *st,
                    entonces,
                    mapa_de(tipos@),
                    mapa_de(slots@),
                    self.structs_map(),
                    old(salida)@.len() as int,
                );
                &&& corresponde_sentencia(r, d)
                &&& avisos_de(final(avisos)@) == avisos_de(old(avisos)@) + a
                &&& d is Hecha ==> final(salida)@ == old(salida)@ + c
                &&& extiende(final(salida)@, old(salida)@)
            }),
        decreases st, 0nat,
    {
        proof {
            reveal(emision_rama);
        }
        match st {
            Sentencia::Condicional(cnd) => if entonces {
                proof {
                    assert(decreases_to!(*st => st->Condicional_0.bloque_entonces.sentencias));
                }
                self.compilar_bloque(&cnd.bloque_entonces.sentencias, tipos, slots, salida, avisos)
            } else {
                match &cnd.bloque_sino {
                    Some(b) => {
                        proof {
                            assert(decreases_to!(*st => st->Condicional_0.bloque_sino->0.sentencias));
                        }
                        self.compilar_bloque(&b.sentencias, tipos, slots, salida, avisos)
                    },
                    None => {
                        proof {
                            assert(avisos_de(avisos@) + Seq::<Aviso>::empty() =~= avisos_de(avisos@));
                            assert(salida@ + Seq::<InstruccionIr>::empty() =~= salida@);
                            lema_extiende_suma(salida@, Seq::empty());
                        }
                        SentenciaEmitida::Hecha
                    },
                }
            },
            _ => SentenciaEmitida::Externa,
        }
    }

    /// La rama del condicional `st` tiene un `retornar`.
    fn rama_retorna(&self, st: &Sentencia, entonces: bool) -> (r: bool)
        requires
            *st is Condicional,
        ensures
            r == termina(sentencias_rama(*st, entonces)),
    {
        match st {
            Sentencia::Condicional(cnd) => if entonces {
                retorna_alguna(&cnd.bloque_entonces.sentencias)
            } else {
                match &cnd.bloque_sino {
                    Some(b) => retorna_alguna(&b.sentencias),
                    None => false,
                }
            },
            _ => false,
        }
    }

    /// Emite las sentencias en orden; se detiene en la primera que no acaba `Hecha`.
    #[verifier::rlimit(40)]
    pub fn compilar_bloque(
        &self,
        xs: &Vec<Sentencia>,
        tipos: &Vec<(String, Tipo)>,
        slots: &Vec<(String, u32)>,
        salida: &mut Vec<InstruccionIr>,
        avisos: &mut Vec<ErrorCompilador>,
    ) -> (r: SentenciaEmitida)
        requires
            self.bien_formado(),
            claves_unicas(tipos@),
            claves_unicas(slots@),
            mapa_de(slots@).dom() == mapa_de(tipos@).dom(),
        ensures
            ({
                let (c, d, a) = emision_prefijo(
                    xs@,
                    xs@.len(),
                    mapa_de(tipos@),
                    mapa_de(slots@),
                    self.structs_map(),
                    old(salida)@.len() as int,
                );
                &&& corresponde_sentencia(r, d)
                &&& avisos_de(final(avisos)@) == avisos_de(old(avisos)@) + a
                &&& d is Hecha ==> final(salida)@ == old(salida)@ + c
                &&& extiende(final(salida)@, old(salida)@)
            }),
        decreases xs, 0nat,
    {
        let ghost ts = mapa_de(tipos@);
        let ghost ss = mapa_de(slots@);
        let ghost base = salida@.len() as int;
        let ghost s0 = salida@;
        let ghost a0 = avisos@;
        proof {
            assert(avisos_de(a0) + Seq::<Aviso>::empty() =~= avisos_de(a0));
            assert(s0 + Seq::<InstruccionIr>::empty() =~= s0);
        }
        let mut i: usize = 0;
        while i < xs.len()
            invariant
                i <= xs@.len(),
                self.bien_formado(),
                claves_unicas(tipos@),
                claves_unicas(slots@),
                mapa_de(slots@).dom() == mapa_de(tipos@).dom(),
                ts == mapa_de(tipos@),
                ss == mapa_de(slots@),
                base == s0.len(),
                s0 == old(salida)@,
                a0 == old(avisos)@,
                ({
                    let (c, d, a) = emision_prefijo(xs@, i as nat, ts, ss, self.structs_map(), base);
                    &&& d is Hecha
                    &&& salida@ == s0 + c
                    &&& avisos_de(avisos@) == avisos_de(a0) + a
                }),
            decreases xs@.len() - i,
        {
            let ghost (c, d, a) = emision_prefijo(xs@, i as nat, ts, ss, self.structs_map(), base);
            let ghost si = salida@;
            let ghost ai = avisos@;
            proof {
                vstd::std_specs::vec::axiom_vec_index_decreases(*xs, i as int);
            }
            let x = &xs[i];
            let r = self.compilar_sentencia(x, tipos, slots, salida, avisos);
            proof {
                assert(*x == xs@[i as int]);
                assert(si.len() == base + c.len());
                let (c2, d2, a2) = emision_sentencia(*x, ts, ss, self.structs_map(), si.len() as int);
                assert(emision_prefijo(xs@, (i + 1) as nat, ts, ss, self.structs_map(), base) == (c + c2, d2, a + a2));
                assert(avisos_de(a0) + a + a2 =~= avisos_de(a0) + (a + a2));
                lema_extiende_suma(s0, c);
                lema_extiende(s0, si, salida@);
                if d2 is Hecha {
                    assert(salida@ =~= s0 + (c + c2));
                }
            }
            match r {
                SentenciaEmitida::Hecha => {},
                otro => {
                    proof {
                        lema_prefijo_detenido(xs@, (i + 1) as nat, ts, ss, self.structs_map(), base);
                    }
                    return otro;
                },
            }
            i = i + 1;
        }
        proof {
            lema_extiende_suma(s0, salida@.subrange(s0.len() as int, salida@.len() as int));
            assert(s0 + salida@.subrange(s0.len() as int, salida@.len() as int) =~= salida@);
        }
        SentenciaEmitida::Hecha
    }
}

} // verus!
