use vstd::prelude::*;
use crate::span::Span;

verus! {
/// Programa completo: lista de declaraciones
#[derive(Debug)]
pub struct Programa {
    pub declaraciones: Vec<Declaracion>,
    pub span: Span,
}

/// Declaración top-level
#[derive(Debug)]
pub enum Declaracion {
    Funcion(FuncionDecl),
    Estructural(EstructuralDecl),
    Enumeracion(EnumeracionDecl),
    Modulo(ModuloDecl),
    Usar(UsarDecl),
    Rasgo(RasgoDecl),
    Implementacion(ImplDecl),
    Prueba(PruebaDecl),
}

/// Nivel de verificación de ownership (borrow checker gradual)
#[derive(Debug, Clone, Copy, PartialEq, Eq, Structural)]
pub enum NivelVerificacion {
    Permisivo,   // Nivel 0: sin verificación (default, como C)
    Verificado,  // Nivel 1: moves + use-after-move
    Estricto,    // Nivel 2: moves + borrows + lifetimes
}

/// Anotación de efecto: el compiler razona entre funciones
#[derive(Debug, Clone)]
pub enum Efecto {
    Puro,                    // No muta nada fuera de su scope
    Muta(Vec<String>),       // Solo muta los campos especificados
    Lee(Vec<String>),        // Solo lee los campos especificados
    Conservador,             // Puede mutar cualquier cosa (default)
}

/// Declaración de función
#[derive(Debug)]
pub struct FuncionDecl {
    pub nombre: String,
    pub parametros_genericos: Vec<ParametroGenerico>,
    pub parametros: Vec<Parametro>,
    pub retorno: Option<Tipo>,
    pub cuerpo: Bloque,
    pub es_insegura: bool,
    /// Nivel de verificación de ownership (borrow checker gradual)
    pub nivel_verificacion: NivelVerificacion,
    /// Anotación de efecto (puro, muta(campo), lee(campo))
    pub efecto: Efecto,
    /// Visibilidad basada en artículo:
    /// - `None` o `Some(Articulo::El)` = pública (default)
    /// - `Some(Articulo::La)` = privada (solo accesible dentro del módulo)
    pub visibilidad: Option<Articulo>,
    /// true si es `fut función` (async)
    pub es_futuro: bool,
    pub span: Span,
}

/// Parámetro de función
#[derive(Debug, Clone)]
pub struct Parametro {
    pub articulo: Articulo,
    pub nombre: String,
    pub tipo: Tipo,
    pub span: Span,
}

/// Parámetro genérico: type param (T) o const param (N: Entero32)
#[derive(Debug, Clone)]
pub struct ParametroGenerico {
    pub nombre: String,
    pub tipo: Option<Tipo>, // None = type param (T), Some(t) = const param (N: Entero32)
    pub bounds: Vec<String>, // traits requeridos (ej: "Comparable")
    pub span: Span,
}

/// Artículo: codifica ownership
#[derive(Debug, Clone, Copy, PartialEq, Eq, Structural)]
pub enum Articulo {
    El,   // owned, mutable
    La,   // borrowed, inmutable
    Un,   // optional
    Los,  // colección owned
    Las,  // colección borrowed
}

/// Bloque de código: { sentencias }
#[derive(Debug)]
pub struct Bloque {
    pub sentencias: Vec<Sentencia>,
    pub span: Span,
}

/// Sentencia
#[derive(Debug)]
pub enum Sentencia {
    Expresion(Expresion),
    DeclaracionVariable(DeclaracionVariable),
    Asignacion(Asignacion),
    Retornar(Option<Expresion>, Span),
    Condicional(Condicional),
    BucleMientras(BucleMientras),
    BuclePara(BuclePara),
    Region { nombre: String, cuerpo: Vec<Sentencia>, span: Span },
    Seleccionar(Seleccionar),
    ConExecutor { hilos: Expresion, cuerpo: Vec<Sentencia>, span: Span },
}

/// Rama de un `seleccionar`: canal como variable => { cuerpo }
#[derive(Debug)]
pub struct RamaSeleccionar {
    pub canal: Expresion,
    pub variable: Option<String>, // None para la rama default `_`
    pub cuerpo: Bloque,
    pub span: Span,
}

/// seleccionar { canal como v => { ... }, _ => { ... } }
#[derive(Debug)]
pub struct Seleccionar {
    pub ramas: Vec<RamaSeleccionar>,
    pub span: Span,
}

/// Lugar de asignación: identificador simple o elemento de array
#[derive(Debug)]
pub enum Lugar {
    Identificador(String),
    Array(Box<Expresion>, Box<Expresion>), // array, índice
    Campo(Box<Expresion>, String),         // expr.campo (Fase 15B: bitfield write)
}

/// Asignación: lugar = expresion;
#[derive(Debug)]
pub struct Asignacion {
    pub lugar: Lugar,
    pub valor: Expresion,
    pub span: Span,
}

/// Modo verbal para condicionales (innovación lingüística)
#[derive(Debug, Clone, Copy, PartialEq, Eq, Structural)]
pub enum ModoVerbal {
    Indicativo,   // si x > 0  — hecho verificable, branch normal
    Estativo,     // si x está  — estado temporal, truthiness / state check
    Subjuntivo,   // si x fuese > 0  — hipótesis improbable, cold path
}

/// Condicional: si condicion { bloque } [sino { bloque }]
#[derive(Debug)]
pub struct Condicional {
    pub condicion: Expresion,
    pub bloque_entonces: Bloque,
    pub bloque_sino: Option<Bloque>,
    pub modo: ModoVerbal,
    pub span: Span,
}

/// Bucle mientras: mientras condicion { bloque }
#[derive(Debug)]
pub struct BucleMientras {
    pub condicion: Expresion,
    pub bloque: Bloque,
    pub span: Span,
}

/// Bucle para: para variable en iterable { bloque }
#[derive(Debug)]
pub struct BuclePara {
    pub variable: String,
    pub iterable: Expresion,
    pub bloque: Bloque,
    pub span: Span,
}

/// Declaración de variable: el x: Entero32 = 42;
#[derive(Debug)]
pub struct DeclaracionVariable {
    pub articulo: Articulo,
    pub nombre: String,
    pub tipo: Option<Tipo>,
    pub valor: Expresion,
    pub span: Span,
}

/// Declaración de prueba: prueba "nombre" { ... }
#[derive(Debug)]
pub struct PruebaDecl {
    pub nombre: String,
    pub bloque: Bloque,
    pub span: Span,
}

/// Patrón de match
#[derive(Debug)]
pub enum PatronMatch {
    /// Literal: 0, 1, 42, "hola"
    Literal(Literal),
    /// Variante de enum: Estado.Activo, Resultado.Exito(x)
    VarianteEnum(String, String, Option<String>, Span), // enum_nombre, variante, binding opcional
    /// Wildcard: _
    Comodin(Span),
}

/// Brazo de match: patron => expresion
#[derive(Debug)]
pub struct BrazoMatch {
    pub patron: PatronMatch,
    pub cuerpo: Expresion,
    pub span: Span,
}

/// Expresión
#[derive(Debug)]
pub enum Expresion {
    Literal(Literal),
    Identificador(String, Span),
    Llamada(Llamada),
    Binaria(Box<Expresion>, OperadorBinario, Box<Expresion>, Span),
    Unaria(OperadorUnario, Box<Expresion>, Span),
    AccesoArray(Box<Expresion>, Box<Expresion>, Span),  // array, índice
    LiteralArray(Vec<Expresion>, Span),
    ArrayRelleno(Box<Expresion>, usize, Span), // todos expr, tamaño (rellenado por semántica)
    InicializacionStruct(String, Vec<(String, Expresion)>, Span), // NombreStruct, campos: valores
    AccesoCampo(Box<Expresion>, String, Span), // expr.campo
    ConstructorEnum(String, String, Vec<Expresion>, Span), // enum_nombre, variante_nombre, argumentos
    EsVariante(Box<Expresion>, String, String, Option<String>, Span), // expr, enum_nombre, variante_nombre, binding (como x)
    Propagacion(Box<Expresion>, Span), // expr? — propagación de errores
    Mover(String, Option<Box<Expresion>>, Span), // mover x [a destino] — transferencia de ownership
    Copiar(Box<Expresion>, Span), // copiar expr — clone explícito
    /// Ruta cualificada: modulo::simbolo (pertenencia, no llamado)
    Ruta(Vec<String>, Span),
    /// Rango: inicio..fin (exclusivo) o inicio..=fin (inclusivo)
    Rango(Box<Expresion>, Box<Expresion>, bool, Span), // inicio, fin, inclusivo, span
    /// Closure: |params| cuerpo
    Closure(Vec<(String, Option<Tipo>)>, Box<Expresion>, Span), // params (nombre, tipo opcional), cuerpo, span
    /// Match exhaustivo: coincidir sujeto { patron => expr, ... }
    Coincidir(Box<Expresion>, Vec<BrazoMatch>, Span),
    /// Async (Fase 18): esperar expr — suspende hasta que el futuro complete
    Esperar(Box<Expresion>, Span),
    /// Async (Fase 18): lanzar expr — spawn de tarea independiente
    Lanzar(Box<Expresion>, Span),
    /// Async (Fase 18): bloquear(expr) — bridge sync→async (bloquea thread)
    Bloquear(Box<Expresion>, Span),
    /// Método general: x.metodo(args) — desugarea a llamada built-in según tipo del receptor
    Metodo(Box<Expresion>, String, Vec<Expresion>, Span), // receptor, nombre_método, args, span
    /// Bloque como expresión: { sentencias } — retorna el valor de la última expresión
    Bloque(Bloque),
    /// DireccionDe(nombre) — obtiene la dirección (puntero) de una función
    DireccionDe(String, Span),
}

/// Literal
#[derive(Debug, Clone)]
pub enum Literal {
    Entero(i64, Span),
    /// Texto del literal tal como aparece en el fuente (`1.5`).
    Flotante(String, Span),
    Palabra(String, Span),
    Caracter(char, Span),
    Booleano(bool, Span),
}

/// Llamada a función
#[derive(Debug)]
pub struct Llamada {
    pub funcion: String,
    pub tipo_args: Vec<Tipo>,  // argumentos de tipo para llamadas genéricas: f<T>(args)
    pub argumentos: Vec<Expresion>,
    pub span: Span,
}

/// Operador binario
#[derive(Debug, Clone, Copy, PartialEq, Eq, Structural)]
pub enum OperadorBinario {
    Suma,
    Resta,
    Multiplicacion,
    Division,
    Modulo,
    Igual,
    Distinto,
    Menor,
    Mayor,
    MenorIgual,
    MayorIgual,
    Y,
    O,
    // Bitwise
    BitAnd,       // &
    BitOr,        // |
    BitXor,       // ^
    ShiftLeft,    // <<
    ShiftRight,   // >> (aritmético para signed, lógico para unsigned)
    ShiftRightLogico, // >>> (zero-fill siempre)
}

/// Operador unario
#[derive(Debug, Clone, Copy, PartialEq, Eq, Structural)]
pub enum OperadorUnario {
    Negacion,
    NegacionLogica,
    BitNot,        // ~ (bitwise NOT)
    Referencia,
    ReferenciaMut, // &mut expr — referencia mutable
    Desreferencia,
}

/// Tipo
#[derive(Debug, PartialEq, Eq)]
pub enum Tipo {
    Entero8,
    Entero16,
    Entero32,
    Entero64,
    Natural8,
    Natural16,
    Natural32,
    Natural64,
    Flotante32,
    Flotante64,
    Booleano,
    Caracter,
    Palabra,
    Texto,
    Vacio,
    Puntero(Box<Tipo>),
    Referencia(Box<Tipo>),
    ReferenciaMut(Box<Tipo>), // &mut T — referencia mutable
    ReferenciaConLifetime(String, Box<Tipo>), // &nombre T — referencia con lifetime léxico
    ReferenciaMutConLifetime(String, Box<Tipo>), // &mut nombre T — referencia mutable con lifetime léxico
    ReferenciaSelf(Box<Tipo>), // &self T — referencia self-referential
    ReferenciaMutSelf(Box<Tipo>), // &mut self T — referencia mutable self-referential
    Array(Box<Tipo>, usize),  // tipo, longitud conocida
    ArrayGenerico(Box<Tipo>, String), // tipo, nombre del parámetro const genérico
    Vector(Box<Tipo>),        // vector dinámico heap-allocado
    Resultado(Box<Tipo>, Box<Tipo>), // Resultado<T, E> para manejo de errores
    Diccionario(Box<Tipo>, Box<Tipo>), // Diccionario<K, V> — hash map
    Conjunto(Box<Tipo>), // Conjunto<T> — hash set (wrapper de Diccionario<T, Booleano>)
    Generico(String), // parámetro de tipo genérico (T)
    Nombre(String),
    NombreGenerico(String, Vec<Tipo>), // Enum<Tipo1, Tipo2> → nombre instanciado
}

/// Declaración estructural
#[derive(Debug, Clone)]
pub struct EstructuralDecl {
    pub nombre: String,
    pub campos: Vec<Campo>,
    /// Fase 15B: campos de bits (empaquetados en un entero)
    pub campos_bits: Vec<CampoBits>,
    pub span: Span,
}

#[derive(Debug, Clone)]
pub struct Campo {
    pub nombre: String,
    pub tipo: Tipo,
    pub span: Span,
}

/// Campo de bits dentro de un struct (Fase 15B)
/// `habilitado: Natural1` → 1 bit en offset 0
#[derive(Debug, Clone)]
pub struct CampoBits {
    pub nombre: String,
    pub ancho_bits: u32,   // 1-32
    pub offset_bits: u32,  // calculado por parser (secuencial desde LSB)
    pub span: Span,
}

/// Declaración de enumeración
#[derive(Debug, Clone)]
pub struct EnumeracionDecl {
    pub nombre: String,
    pub parametros_genericos: Vec<ParametroGenerico>,
    pub variantes: Vec<Variante>,
    pub span: Span,
}

#[derive(Debug, Clone)]
pub struct Variante {
    pub nombre: String,
    pub datos: Option<Vec<(String, Tipo)>>, // None = sin datos, Some = campos con nombre y tipo
    pub span: Span,
}

/// Declaración de módulo
#[derive(Debug)]
pub struct ModuloDecl {
    pub nombre: String,
    pub contenido: Vec<Declaracion>,
    pub span: Span,
}

/// Declaración de importación
#[derive(Debug, Clone)]
pub struct UsarDecl {
    pub ruta: Vec<String>,
    pub span: Span,
}

/// Declaración de rasgo (trait): define una interfaz que tipos pueden implementar
#[derive(Debug, Clone)]
pub struct RasgoDecl {
    pub nombre: String,
    /// Firmas de métodos requeridos (sin cuerpo)
    pub metodos: Vec<FirmaMetodo>,
    pub span: Span,
}

/// Firma de un método de rasgo (sin cuerpo)
#[derive(Debug, Clone)]
pub struct FirmaMetodo {
    pub nombre: String,
    pub parametros: Vec<Parametro>,
    pub retorno: Option<Tipo>,
    pub span: Span,
}

/// Implementación de un rasgo para un tipo concreto
#[derive(Debug)]
pub struct ImplDecl {
    pub rasgo: String,
    pub tipo: Tipo,
    /// Métodos implementados (con cuerpo)
    pub metodos: Vec<FuncionDecl>,
    pub span: Span,
}

impl Tipo {
    /// Igualdad de tipos: misma forma, los mismos nombres y los mismos argumentos.
    pub open spec fn equivale(self, otro: Tipo) -> bool
        decreases self,
    {
        match (self, otro) {
            (Tipo::Puntero(a), Tipo::Puntero(b)) => a.equivale(*b),
            (Tipo::Referencia(a), Tipo::Referencia(b)) => a.equivale(*b),
            (Tipo::ReferenciaMut(a), Tipo::ReferenciaMut(b)) => a.equivale(*b),
            (Tipo::ReferenciaConLifetime(n, a), Tipo::ReferenciaConLifetime(m, b)) => n@ == m@
                && a.equivale(*b),
            (Tipo::ReferenciaMutConLifetime(n, a), Tipo::ReferenciaMutConLifetime(m, b)) => n@ == m@
                && a.equivale(*b),
            (Tipo::ReferenciaSelf(a), Tipo::ReferenciaSelf(b)) => a.equivale(*b),
            (Tipo::ReferenciaMutSelf(a), Tipo::ReferenciaMutSelf(b)) => a.equivale(*b),
            (Tipo::Array(a, n), Tipo::Array(b, m)) => n == m && a.equivale(*b),
            (Tipo::ArrayGenerico(a, n), Tipo::ArrayGenerico(b, m)) => n@ == m@ && a.equivale(*b),
            (Tipo::Vector(a), Tipo::Vector(b)) => a.equivale(*b),
            (Tipo::Resultado(a, c), Tipo::Resultado(b, d)) => a.equivale(*b) && c.equivale(*d),
            (Tipo::Diccionario(a, c), Tipo::Diccionario(b, d)) => a.equivale(*b) && c.equivale(*d),
            (Tipo::Conjunto(a), Tipo::Conjunto(b)) => a.equivale(*b),
            (Tipo::Generico(n), Tipo::Generico(m)) => n@ == m@,
            (Tipo::Nombre(n), Tipo::Nombre(m)) => n@ == m@,
            (Tipo::NombreGenerico(n, xs), Tipo::NombreGenerico(m, ys)) => n@ == m@ && xs@.len()
                == ys@.len() && forall|i: int|
                0 <= i < xs@.len() ==> (#[trigger] xs@[i]).equivale(ys@[i]),
            _ => self == otro,
        }
    }
}

impl View for Tipo {
    type V = Tipo;

    open spec fn view(&self) -> Tipo {
        *self
    }
}

impl Clone for Tipo {
    fn clone(&self) -> (r: Self)
        ensures
            r.equivale(*self),
        decreases self,
    {
        match self {
            Tipo::Entero8 => Tipo::Entero8,
            Tipo::Entero16 => Tipo::Entero16,
            Tipo::Entero32 => Tipo::Entero32,
            Tipo::Entero64 => Tipo::Entero64,
            Tipo::Natural8 => Tipo::Natural8,
            Tipo::Natural16 => Tipo::Natural16,
            Tipo::Natural32 => Tipo::Natural32,
            Tipo::Natural64 => Tipo::Natural64,
            Tipo::Flotante32 => Tipo::Flotante32,
            Tipo::Flotante64 => Tipo::Flotante64,
            Tipo::Booleano => Tipo::Booleano,
            Tipo::Caracter => Tipo::Caracter,
            Tipo::Palabra => Tipo::Palabra,
            Tipo::Texto => Tipo::Texto,
            Tipo::Vacio => Tipo::Vacio,
            Tipo::Puntero(t) => Tipo::Puntero(Box::new((**t).clone())),
            Tipo::Referencia(t) => Tipo::Referencia(Box::new((**t).clone())),
            Tipo::ReferenciaMut(t) => Tipo::ReferenciaMut(Box::new((**t).clone())),
            Tipo::ReferenciaConLifetime(n, t) => Tipo::ReferenciaConLifetime(n.clone(), Box::new((**t).clone())),
            Tipo::ReferenciaMutConLifetime(n, t) => Tipo::ReferenciaMutConLifetime(n.clone(), Box::new((**t).clone())),
            Tipo::ReferenciaSelf(t) => Tipo::ReferenciaSelf(Box::new((**t).clone())),
            Tipo::ReferenciaMutSelf(t) => Tipo::ReferenciaMutSelf(Box::new((**t).clone())),
            Tipo::Array(t, n) => Tipo::Array(Box::new((**t).clone()), *n),
            Tipo::ArrayGenerico(t, n) => Tipo::ArrayGenerico(Box::new((**t).clone()), n.clone()),
            Tipo::Vector(t) => Tipo::Vector(Box::new((**t).clone())),
            Tipo::Resultado(a, b) => Tipo::Resultado(Box::new((**a).clone()), Box::new((**b).clone())),
            Tipo::Diccionario(a, b) => Tipo::Diccionario(Box::new((**a).clone()), Box::new((**b).clone())),
            Tipo::Conjunto(t) => Tipo::Conjunto(Box::new((**t).clone())),
            Tipo::Generico(n) => Tipo::Generico(n.clone()),
            Tipo::Nombre(n) => Tipo::Nombre(n.clone()),
            Tipo::NombreGenerico(n, args) => {
                let mut copia: Vec<Tipo> = Vec::new();
                let mut i: usize = 0;
                while i < args.len()
                    invariant
                        i <= args@.len(),
                        copia@.len() == i,
                        forall|k: int| 0 <= k < i ==> (#[trigger] copia@[k]).equivale(args@[k]),
                        *self is NombreGenerico,
                        self->NombreGenerico_1 == *args,
                    decreases args@.len() - i,
                {
                    proof {
                        vstd::std_specs::vec::axiom_vec_index_decreases(*args, i as int);
                        assert(decreases_to!(*self => self->NombreGenerico_1));
                        assert(decreases_to!(*self => args[i as int]));
                    }
                    copia.push(args[i].clone());
                    i = i + 1;
                }
                Tipo::NombreGenerico(n.clone(), copia)
            },
        }
    }
}

impl Literal {
    pub open spec fn span_de(self) -> Span {
        match self {
            Literal::Entero(_, s) => s,
            Literal::Flotante(_, s) => s,
            Literal::Palabra(_, s) => s,
            Literal::Caracter(_, s) => s,
            Literal::Booleano(_, s) => s,
        }
    }

    pub fn span(&self) -> (r: &Span)
        ensures
            *r == self.span_de(),
    {
        match self {
            Literal::Entero(_, s) => s,
            Literal::Flotante(_, s) => s,
            Literal::Palabra(_, s) => s,
            Literal::Caracter(_, s) => s,
            Literal::Booleano(_, s) => s,
        }
    }
}

impl Expresion {
    /// Span de la expresión.
    pub open spec fn span_de(self) -> Span {
        match self {
            Expresion::Literal(lit) => lit.span_de(),
            Expresion::Identificador(_, span) => span,
            Expresion::Llamada(call) => call.span,
            Expresion::Binaria(_, _, _, span) => span,
            Expresion::Unaria(_, _, span) => span,
            Expresion::AccesoArray(_, _, span) => span,
            Expresion::LiteralArray(_, span) => span,
            Expresion::ArrayRelleno(_, _, span) => span,
            Expresion::InicializacionStruct(_, _, span) => span,
            Expresion::AccesoCampo(_, _, span) => span,
            Expresion::ConstructorEnum(_, _, _, span) => span,
            Expresion::EsVariante(_, _, _, _, span) => span,
            Expresion::Propagacion(_, span) => span,
            Expresion::Mover(_, _, span) => span,
            Expresion::Copiar(_, span) => span,
            Expresion::Ruta(_, span) => span,
            Expresion::Rango(_, _, _, span) => span,
            Expresion::Closure(_, _, span) => span,
            Expresion::Coincidir(_, _, span) => span,
            Expresion::Esperar(_, span) => span,
            Expresion::Lanzar(_, span) => span,
            Expresion::Bloquear(_, span) => span,
            Expresion::Metodo(_, _, _, span) => span,
            Expresion::Bloque(bloque) => bloque.span,
            Expresion::DireccionDe(_, span) => span,
        }
    }

    pub fn span(&self) -> (r: &Span)
        ensures
            *r == self.span_de(),
    {
        match self {
            Expresion::Literal(lit) => lit.span(),
            Expresion::Identificador(_, span) => span,
            Expresion::Llamada(call) => &call.span,
            Expresion::Binaria(_, _, _, span) => span,
            Expresion::Unaria(_, _, span) => span,
            Expresion::AccesoArray(_, _, span) => span,
            Expresion::LiteralArray(_, span) => span,
            Expresion::ArrayRelleno(_, _, span) => span,
            Expresion::InicializacionStruct(_, _, span) => span,
            Expresion::AccesoCampo(_, _, span) => span,
            Expresion::ConstructorEnum(_, _, _, span) => span,
            Expresion::EsVariante(_, _, _, _, span) => span,
            Expresion::Propagacion(_, span) => span,
            Expresion::Mover(_, _, span) => span,
            Expresion::Copiar(_, span) => span,
            Expresion::Ruta(_, span) => span,
            Expresion::Rango(_, _, _, span) => span,
            Expresion::Closure(_, _, span) => span,
            Expresion::Coincidir(_, _, span) => span,
            Expresion::Esperar(_, span) => span,
            Expresion::Lanzar(_, span) => span,
            Expresion::Bloquear(_, span) => span,
            Expresion::Metodo(_, _, _, span) => span,
            Expresion::Bloque(bloque) => &bloque.span,
            Expresion::DireccionDe(_, span) => span,
        }
    }
}

/// El identificador `n`, con el span `sp`, aparece en la expresión: es ella misma o aparece
/// en un operando de un operador unario o en cualquiera de los dos de uno binario.
pub open spec fn aparece_en_operandos(e: Expresion, n: Seq<char>, sp: Span) -> bool
    decreases e,
{
    match e {
        Expresion::Identificador(m, s) => m@ == n && s == sp,
        Expresion::Binaria(izq, _, der, _) => aparece_en_operandos(*izq, n, sp)
            || aparece_en_operandos(*der, n, sp),
        Expresion::Unaria(_, x, _) => aparece_en_operandos(*x, n, sp),
        _ => false,
    }
}

/// El identificador `n`, con el span `sp`, aparece en la expresión: es ella misma o aparece
/// en una de sus subexpresiones directas: operandos, base e índice de un acceso, objeto de un
/// acceso a campo, valor de relleno, sujeto de `es`, expresión de `?`, `copiar`, `esperar`,
/// `lanzar` y `bloquear`, destino de `mover`, extremos de un rango, cuerpo de un closure,
/// argumentos de una llamada, de un constructor o de un método, receptor de un método y
/// elementos de un array literal.
pub open spec fn aparece_identificador(e: Expresion, n: Seq<char>, sp: Span) -> bool
    decreases e,
{
    match e {
        Expresion::Identificador(m, s) => m@ == n && s == sp,
        Expresion::Binaria(izq, _, der, _) => aparece_identificador(*izq, n, sp)
            || aparece_identificador(*der, n, sp),
        Expresion::Unaria(_, x, _) => aparece_identificador(*x, n, sp),
        Expresion::AccesoArray(base, indice, _) => aparece_identificador(*base, n, sp)
            || aparece_identificador(*indice, n, sp),
        Expresion::AccesoCampo(base, _, _) => aparece_identificador(*base, n, sp),
        Expresion::ArrayRelleno(x, _, _) => aparece_identificador(*x, n, sp),
        Expresion::EsVariante(x, _, _, _, _) => aparece_identificador(*x, n, sp),
        Expresion::Propagacion(x, _) => aparece_identificador(*x, n, sp),
        Expresion::Copiar(x, _) => aparece_identificador(*x, n, sp),
        Expresion::Esperar(x, _) => aparece_identificador(*x, n, sp),
        Expresion::Lanzar(x, _) => aparece_identificador(*x, n, sp),
        Expresion::Bloquear(x, _) => aparece_identificador(*x, n, sp),
        Expresion::Mover(_, destino, _) => match destino {
            Some(d) => aparece_identificador(*d, n, sp),
            None => false,
        },
        Expresion::Rango(inicio, fin, _, _) => aparece_identificador(*inicio, n, sp)
            || aparece_identificador(*fin, n, sp),
        Expresion::Closure(_, cuerpo, _) => aparece_identificador(*cuerpo, n, sp),
        Expresion::Llamada(ll) => exists|i: int|
            0 <= i < ll.argumentos@.len() && aparece_identificador(#[trigger] ll.argumentos@[i], n, sp),
        Expresion::LiteralArray(es, _) => exists|i: int|
            0 <= i < es@.len() && aparece_identificador(#[trigger] es@[i], n, sp),
        Expresion::ConstructorEnum(_, _, es, _) => exists|i: int|
            0 <= i < es@.len() && aparece_identificador(#[trigger] es@[i], n, sp),
        Expresion::Metodo(receptor, _, es, _) => aparece_identificador(*receptor, n, sp) || exists|i: int|
            0 <= i < es@.len() && aparece_identificador(#[trigger] es@[i], n, sp),
        _ => false,
    }
}

/// El identificador aparece en el valor de la sentencia: la expresión de una sentencia de
/// expresión, el valor inicial de una declaración, el valor asignado o el valor retornado.
pub open spec fn aparece_en_sentencia(s: Sentencia, n: Seq<char>, sp: Span) -> bool {
    match s {
        Sentencia::Expresion(e) => aparece_identificador(e, n, sp),
        Sentencia::DeclaracionVariable(d) => aparece_identificador(d.valor, n, sp),
        Sentencia::Asignacion(a) => aparece_identificador(a.valor, n, sp),
        Sentencia::Retornar(Some(e), _) => aparece_identificador(e, n, sp),
        _ => false,
    }
}

/// El identificador aparece en un operando del valor de la sentencia (la expresión de una
/// sentencia de expresión, el valor inicial de una declaración, el valor asignado o el valor
/// retornado).
pub open spec fn aparece_en_operandos_de_sentencia(s: Sentencia, n: Seq<char>, sp: Span) -> bool {
    match s {
        Sentencia::Expresion(e) => aparece_en_operandos(e, n, sp),
        Sentencia::DeclaracionVariable(d) => aparece_en_operandos(d.valor, n, sp),
        Sentencia::Asignacion(a) => aparece_en_operandos(a.valor, n, sp),
        Sentencia::Retornar(Some(e), _) => aparece_en_operandos(e, n, sp),
        _ => false,
    }
}

} // verus!
