//! Lógica del servidor de lenguaje: rangos, diagnósticos, hover, autocompletado, símbolos,
//! acciones de código y ayuda de firma, calculados a partir del índice semántico y del texto
//! del documento. El transporte (JSON-RPC sobre stdin/stdout) queda fuera del núcleo.

use vstd::prelude::*;
use crate::error::{CategoriaError, ErrorCompilador, codigo_de};
use crate::span::Span;
use crate::lsp::{
    IndiceSemantico, InfoEnumLsp, InfoFuncionLsp, InfoTraitLsp, InfoVariableLsp, InfoStructLsp, mapa_de,
    obtener, unidos, vista_opcion, vistas_pares,
};
use crate::texto::{texto, agregar, agregar_decimal, decimal, es_texto, es_espacio, espacio_blanco, texto_de_caracteres, es_alfanumerico, alfanumerico};
use crate::lexer::caracteres;
use crate::ast::Programa;
use crate::lexer::{LexerMejia, tokens_del_texto};
use crate::parser::{ParserMejia, sin_errores_lexicos, errores_lexicos, errores_de_recorrido};
use crate::parser::errores::ErrorSintaxis;
use crate::parser::declaraciones::programa_desde;
use crate::lsp::{variables_de, funciones_de, structs_de, enums_de, rasgos_de};
use crate::lsp::{buscar_en_funciones, declaracion_en, refs_en_funciones};
use vstd::utf8::{encode_scalar, encode_utf8};

verus! {

/// Posición en el protocolo: línea y carácter, contados desde 0.
#[derive(Debug, Clone, Copy, PartialEq, Eq, Structural)]
pub struct PosicionLsp {
    pub linea: u32,
    pub caracter: u32,
}

/// Rango en el protocolo.
#[derive(Debug, Clone, Copy, PartialEq, Eq, Structural)]
pub struct RangoLsp {
    pub inicio: PosicionLsp,
    pub fin: PosicionLsp,
}

/// `x - 1`, sin bajar de 0.
pub open spec fn menos_uno(x: u32) -> u32 {
    if x == 0 {
        0
    } else {
        (x - 1) as u32
    }
}

/// Rango del protocolo (desde 0) que corresponde a un span (desde 1).
pub open spec fn rango_de(s: Span) -> RangoLsp {
    RangoLsp {
        inicio: PosicionLsp { linea: menos_uno(s.inicio.linea), caracter: menos_uno(s.inicio.columna) },
        fin: PosicionLsp { linea: menos_uno(s.fin.linea), caracter: menos_uno(s.fin.columna) },
    }
}

/// Convierte un span de Mejia a un rango del protocolo.
pub fn span_a_rango(span: &Span) -> (r: RangoLsp)
    ensures
        r == rango_de(*span),
{
    RangoLsp {
        inicio: PosicionLsp {
            linea: span.inicio.linea.saturating_sub(1),
            caracter: span.inicio.columna.saturating_sub(1),
        },
        fin: PosicionLsp {
            linea: span.fin.linea.saturating_sub(1),
            caracter: span.fin.columna.saturating_sub(1),
        },
    }
}

/// ¿Empieza el rango de un diagnóstico entre la primera y la última línea del rango pedido?
pub fn span_en_rango(diag_range: RangoLsp, request_range: &RangoLsp) -> (r: bool)
    ensures
        r == (diag_range.inicio.linea >= request_range.inicio.linea && diag_range.inicio.linea
            <= request_range.fin.linea),
{
    diag_range.inicio.linea >= request_range.inicio.linea && diag_range.inicio.linea
        <= request_range.fin.linea
}

/// Severidad de un diagnóstico.
#[derive(Debug, Clone, Copy, PartialEq, Eq, Structural)]
pub enum SeveridadLsp {
    Error,
    Advertencia,
}

/// Diagnóstico del protocolo: rango, severidad, código, origen y mensaje.
#[derive(Debug)]
pub struct Diagnostico {
    pub rango: RangoLsp,
    pub severidad: SeveridadLsp,
    pub codigo: String,
    pub fuente: String,
    pub mensaje: String,
}

impl Diagnostico {
    /// Copia campo a campo.
    pub fn copia(&self) -> (r: Self)
        ensures
            r == *self,
    {
        Diagnostico {
            rango: self.rango,
            severidad: self.severidad,
            codigo: self.codigo.clone(),
            fuente: self.fuente.clone(),
            mensaje: self.mensaje.clone(),
        }
    }
}

/// Severidad con que se informa un error de cada categoría: las advertencias como
/// advertencia y todo lo demás como error.
pub open spec fn severidad_de(c: CategoriaError) -> SeveridadLsp {
    match c {
        CategoriaError::Warning => SeveridadLsp::Advertencia,
        _ => SeveridadLsp::Error,
    }
}

/// Mensaje de un diagnóstico: `[código] mensaje`, y la sugerencia en otra línea si la hay.
pub open spec fn mensaje_diagnostico(e: ErrorCompilador) -> Seq<char> {
    "["@ + codigo_de(e.categoria, e.codigo) + "] "@ + e.mensaje@ + match e.sugerencia {
        Some(s) => "\n💡 "@ + s@,
        None => Seq::empty(),
    }
}

/// Convierte un error del compilador en un diagnóstico del protocolo.
pub fn error_a_diagnostico(error: &ErrorCompilador) -> (r: Diagnostico)
    ensures
        r.rango == rango_de(error.span),
        r.severidad == severidad_de(error.categoria),
        r.codigo@ == codigo_de(error.categoria, error.codigo),
        r.fuente@ == "mejia"@,
        r.mensaje@ == mensaje_diagnostico(*error),
{
    let severidad = match error.categoria {
        CategoriaError::Warning => SeveridadLsp::Advertencia,
        _ => SeveridadLsp::Error,
    };
    let mut mensaje = texto("[");
    let codigo = error.codigo_str();
    agregar(&mut mensaje, codigo.as_str());
    agregar(&mut mensaje, "] ");
    agregar(&mut mensaje, error.mensaje.as_str());
    if let Some(sug) = &error.sugerencia {
        agregar(&mut mensaje, "\n💡 ");
        agregar(&mut mensaje, sug.as_str());
    }
    Diagnostico {
        rango: span_a_rango(&error.span),
        severidad,
        codigo,
        fuente: texto("mejia"),
        mensaje,
    }
}

/// Qué significa cada artículo para la propiedad del valor.
pub open spec fn explicacion_articulo(a: Seq<char>) -> Seq<char> {
    if a == "el"@ {
        "dueño único, mutable"@
    } else if a == "la"@ {
        "prestado, solo lectura"@
    } else if a == "un"@ {
        "opcional (quizás existe)"@
    } else if a == "los"@ {
        "compartido (ref-counted), múltiples dueños"@
    } else if a == "las"@ {
        "compartido, solo lectura (todos leen)"@
    } else {
        "desconocido"@
    }
}

/// Explica un artículo de propiedad (`el`, `la`, `un`, `los`, `las`).
pub fn explicar_articulo(articulo: &str) -> (r: &'static str)
    ensures
        r@ == explicacion_articulo(articulo@),
{
    let a = texto(articulo);
    if es_texto(&a, "el") {
        "dueño único, mutable"
    } else if es_texto(&a, "la") {
        "prestado, solo lectura"
    } else if es_texto(&a, "un") {
        "opcional (quizás existe)"
    } else if es_texto(&a, "los") {
        "compartido (ref-counted), múltiples dueños"
    } else if es_texto(&a, "las") {
        "compartido, solo lectura (todos leen)"
    } else {
        "desconocido"
    }
}

/// El texto, o el de respaldo si no hay.
pub open spec fn o_bien(o: Option<Seq<char>>, respaldo: Seq<char>) -> Seq<char> {
    match o {
        Some(s) => s,
        None => respaldo,
    }
}

/// Vista de una función del índice.
pub type VistaFuncion = (Seq<char>, Option<Seq<char>>, Seq<Seq<char>>, Seq<(Seq<char>, Seq<char>)>, Span);

/// Vista de una variable del índice.
pub type VistaVariable = (Seq<char>, Seq<char>, Seq<char>, Seq<char>, Span);

/// `nombre(parámetros) -> retorno`, con `Vacío` si no tiene retorno.
pub open spec fn firma_corta(f: VistaFuncion) -> Seq<char> {
    f.0 + "("@ + unidos(f.2, ", "@) + ") -> "@ + o_bien(f.1, "Vacío"@)
}

/// Filas `| `a` | `b` |` de una tabla de dos columnas.
pub open spec fn filas(ps: Seq<(Seq<char>, Seq<char>)>) -> Seq<char>
    decreases ps.len(),
{
    if ps.len() == 0 {
        Seq::empty()
    } else {
        filas(ps.drop_last()) + "| `"@ + ps.last().0 + "` | `"@ + ps.last().1 + "` |\n"@
    }
}

/// Filas de variantes: el dato, o `—` si la variante no lleva.
pub open spec fn filas_variantes(vs: Seq<(Seq<char>, Option<Seq<char>>)>) -> Seq<char> {
    filas(vs.map_values(|v: (Seq<char>, Option<Seq<char>>)| (v.0, o_bien(v.1, "—"@))))
}

/// Filas `| `m` |` de una tabla de una columna.
pub open spec fn filas_simples(ms: Seq<Seq<char>>) -> Seq<char>
    decreases ms.len(),
{
    if ms.len() == 0 {
        Seq::empty()
    } else {
        filas_simples(ms.drop_last()) + "| `"@ + ms.last() + "` |\n"@
    }
}

/// Hover de una variable; si una función tiene el mismo nombre, también su declaración.
pub open spec fn hover_variable(v: VistaVariable, f: Option<VistaFuncion>) -> Seq<char> {
    "**"@ + v.0 + "** | `"@ + v.2 + "`\n\n| Propiedad | Valor |\n|-----------|-------|\n| Artículo | `"@
        + v.3 + "` → "@ + explicacion_articulo(v.3) + " |\n| Tipo | `"@ + v.1 + "` |\n"@ + match f {
        Some(f) => "\n---\n*Declaración*: `"@ + firma_corta(f) + "`\n"@,
        None => Seq::empty(),
    }
}

/// Hover de una función: firma y tabla de parámetros.
pub open spec fn hover_funcion(f: VistaFuncion) -> Seq<char> {
    "**fn** `"@ + firma_corta(f) + "`\n\n| Parámetro | Tipo |\n|-----------|------|\n"@ + filas(f.3)
        + "\n---\n*Función de mejia*"@
}

/// Hover de un struct: tabla de campos.
pub open spec fn hover_struct(s: (Seq<char>, Seq<(Seq<char>, Seq<char>)>, Span)) -> Seq<char> {
    "**estructural** `"@ + s.0 + "`\n\n| Campo | Tipo |\n|-------|------|\n"@ + filas(s.1)
}

/// Hover de un enum: tabla de variantes.
pub open spec fn hover_enum(e: (Seq<char>, Seq<(Seq<char>, Option<Seq<char>>)>, Span)) -> Seq<char> {
    "**enumeración** `"@ + e.0 + "`\n\n| Variante | Dato |\n|----------|------|\n"@ + filas_variantes(e.1)
}

/// Hover de un rasgo: tabla de métodos.
pub open spec fn hover_rasgo(t: (Seq<char>, Seq<Seq<char>>, Span)) -> Seq<char> {
    "**rasgo** `"@ + t.0 + "`\n\n| Método |\n|--------|\n"@ + filas_simples(t.1)
}

/// Contenido (Markdown) del hover de un nombre: se busca como variable, función, struct,
/// enum y rasgo, en ese orden.
pub open spec fn hover_de(ix: IndiceSemantico, n: Seq<char>) -> Option<Seq<char>> {
    let vs = mapa_de(ix.variables@);
    let fs = mapa_de(ix.funciones@);
    let ss = mapa_de(ix.structs@);
    let es = mapa_de(ix.enums@);
    let ts = mapa_de(ix.traits@);
    if vs.contains_key(n) {
        Some(
            hover_variable(
                vs[n],
                if fs.contains_key(n) {
                    Some(fs[n])
                } else {
                    None
                },
            ),
        )
    } else if fs.contains_key(n) {
        Some(hover_funcion(fs[n]))
    } else if ss.contains_key(n) {
        Some(hover_struct(ss[n]))
    } else if es.contains_key(n) {
        Some(hover_enum(es[n]))
    } else if ts.contains_key(n) {
        Some(hover_rasgo(ts[n]))
    } else {
        None
    }
}

/// Une los textos con un separador.
pub fn unir(xs: &Vec<String>, sep: &str) -> (r: String)
    ensures
        r@ == unidos(xs@.map_values(|s: String| s@), sep@),
{
    let ghost vs = xs@.map_values(|s: String| s@);
    let mut r = String::new();
    let mut i: usize = 0;
    proof {
        assert(vs.take(0) =~= Seq::<Seq<char>>::empty());
    }
    while i < xs.len()
        invariant
            vs == xs@.map_values(|s: String| s@),
            i <= xs@.len(),
            r@ == unidos(vs.take(i as int), sep@),
        decreases xs@.len() - i,
    {
        proof {
            assert(vs.take(i + 1).drop_last() =~= vs.take(i as int));
        }
        if i > 0 {
            agregar(&mut r, sep);
        }
        agregar(&mut r, xs[i].as_str());
        proof {
            if i == 0 {
                assert(r@ =~= vs.take(1)[0]);
            } else {
                assert(r@ =~= unidos(vs.take(i as int), sep@) + sep@ + vs.take(i + 1).last());
            }
        }
        i = i + 1;
    }
    proof {
        assert(vs.take(i as int) =~= vs);
    }
    r
}

/// Agrega las filas de una tabla de dos columnas.
fn agregar_filas(s: &mut String, ps: &Vec<(String, String)>)
    ensures
        final(s)@ == old(s)@ + filas(vistas_pares(ps@)),
{
    let ghost vs = vistas_pares(ps@);
    let ghost base = s@;
    let mut i: usize = 0;
    proof {
        assert(vs.take(0) =~= Seq::<(Seq<char>, Seq<char>)>::empty());
        assert(s@ =~= base + filas(vs.take(0)));
    }
    while i < ps.len()
        invariant
            vs == vistas_pares(ps@),
            i <= ps@.len(),
            s@ == base + filas(vs.take(i as int)),
        decreases ps@.len() - i,
    {
        proof {
            assert(vs.take(i + 1).drop_last() =~= vs.take(i as int));
        }
        agregar(s, "| `");
        agregar(s, ps[i].0.as_str());
        agregar(s, "` | `");
        agregar(s, ps[i].1.as_str());
        agregar(s, "` |\n");
        proof {
            assert(s@ =~= base + filas(vs.take(i + 1)));
        }
        i = i + 1;
    }
    proof {
        assert(vs.take(i as int) =~= vs);
    }
}

/// Agrega las filas de variantes, con `—` para las que no llevan dato.
fn agregar_filas_variantes(s: &mut String, vs_exec: &Vec<(String, Option<String>)>)
    ensures
        final(s)@ == old(s)@ + filas_variantes(
            vs_exec@.map_values(|p: (String, Option<String>)| (p.0@, vista_opcion(p.1))),
        ),
{
    let ghost vs = vs_exec@.map_values(|p: (String, Option<String>)| (p.0@, vista_opcion(p.1)));
    let ghost ps = vs.map_values(|v: (Seq<char>, Option<Seq<char>>)| (v.0, o_bien(v.1, "—"@)));
    let ghost base = s@;
    let mut i: usize = 0;
    proof {
        assert(ps.take(0) =~= Seq::<(Seq<char>, Seq<char>)>::empty());
        assert(s@ =~= base + filas(ps.take(0)));
    }
    while i < vs_exec.len()
        invariant
            vs == vs_exec@.map_values(|p: (String, Option<String>)| (p.0@, vista_opcion(p.1))),
            ps == vs.map_values(|v: (Seq<char>, Option<Seq<char>>)| (v.0, o_bien(v.1, "—"@))),
            i <= vs_exec@.len(),
            s@ == base + filas(ps.take(i as int)),
        decreases vs_exec@.len() - i,
    {
        proof {
            assert(ps.take(i + 1).drop_last() =~= ps.take(i as int));
        }
        agregar(s, "| `");
        agregar(s, vs_exec[i].0.as_str());
        agregar(s, "` | `");
        match &vs_exec[i].1 {
            Some(t) => agregar(s, t.as_str()),
            None => agregar(s, "—"),
        }
        agregar(s, "` |\n");
        proof {
            assert(s@ =~= base + filas(ps.take(i + 1)));
        }
        i = i + 1;
    }
    proof {
        assert(ps.take(i as int) =~= ps);
    }
}

/// Agrega las filas de una tabla de una columna.
fn agregar_filas_simples(s: &mut String, ms: &Vec<String>)
    ensures
        final(s)@ == old(s)@ + filas_simples(ms@.map_values(|m: String| m@)),
{
    let ghost vs = ms@.map_values(|m: String| m@);
    let ghost base = s@;
    let mut i: usize = 0;
    proof {
        assert(vs.take(0) =~= Seq::<Seq<char>>::empty());
        assert(s@ =~= base + filas_simples(vs.take(0)));
    }
    while i < ms.len()
        invariant
            vs == ms@.map_values(|m: String| m@),
            i <= ms@.len(),
            s@ == base + filas_simples(vs.take(i as int)),
        decreases ms@.len() - i,
    {
        proof {
            assert(vs.take(i + 1).drop_last() =~= vs.take(i as int));
        }
        agregar(s, "| `");
        agregar(s, ms[i].as_str());
        agregar(s, "` |\n");
        proof {
            assert(s@ =~= base + filas_simples(vs.take(i + 1)));
        }
        i = i + 1;
    }
    proof {
        assert(vs.take(i as int) =~= vs);
    }
}

/// Agrega `nombre(parámetros) -> retorno`.
fn agregar_firma_corta(s: &mut String, f: &InfoFuncionLsp)
    ensures
        final(s)@ == old(s)@ + firma_corta(f@),
{
    agregar(s, f.nombre.as_str());
    agregar(s, "(");
    let params = unir(&f.parametros, ", ");
    agregar(s, params.as_str());
    agregar(s, ") -> ");
    match &f.retorno {
        Some(r) => agregar(s, r.as_str()),
        None => agregar(s, "Vacío"),
    }
}

/// Contenido (Markdown) del hover de un identificador, si el índice lo conoce.
pub fn hover_para_identificador(indice: &IndiceSemantico, nombre: &str) -> (r: Option<String>)
    requires
        indice.bien_formado(),
    ensures
        vista_opcion(r) == hover_de(*indice, nombre@),
{
    // Buscar como variable
    if let Some(var) = obtener(&indice.variables, nombre) {
        let mut contenido = texto("**");
        agregar(&mut contenido, var.nombre.as_str());
        agregar(&mut contenido, "** | `");
        agregar(&mut contenido, var.articulo.as_str());
        agregar(
            &mut contenido,
            "`\n\n| Propiedad | Valor |\n|-----------|-------|\n| Artículo | `",
        );
        agregar(&mut contenido, var.articulo_raw.as_str());
        agregar(&mut contenido, "` → ");
        agregar(&mut contenido, explicar_articulo(var.articulo_raw.as_str()));
        agregar(&mut contenido, " |\n| Tipo | `");
        agregar(&mut contenido, var.tipo.as_str());
        agregar(&mut contenido, "` |\n");
        // Si también es función (mismo nombre), mostrar declaración
        if let Some(func) = obtener(&indice.funciones, nombre) {
            agregar(&mut contenido, "\n---\n*Declaración*: `");
            agregar_firma_corta(&mut contenido, func);
            agregar(&mut contenido, "`\n");
        }
        return Some(contenido);
    }
    // Buscar como función
    if let Some(func) = obtener(&indice.funciones, nombre) {
        let mut contenido = texto("**fn** `");
        agregar_firma_corta(&mut contenido, func);
        agregar(&mut contenido, "`\n\n| Parámetro | Tipo |\n|-----------|------|\n");
        agregar_filas(&mut contenido, &func.parametros_raw);
        agregar(&mut contenido, "\n---\n*Función de mejia*");
        return Some(contenido);
    }
    // Buscar como struct
    if let Some(s) = obtener(&indice.structs, nombre) {
        let mut contenido = texto("**estructural** `");
        agregar(&mut contenido, s.nombre.as_str());
        agregar(&mut contenido, "`\n\n| Campo | Tipo |\n|-------|------|\n");
        agregar_filas(&mut contenido, &s.campos);
        return Some(contenido);
    }
    // Buscar como enum
    if let Some(e) = obtener(&indice.enums, nombre) {
        let mut contenido = texto("**enumeración** `");
        agregar(&mut contenido, e.nombre.as_str());
        agregar(&mut contenido, "`\n\n| Variante | Dato |\n|----------|------|\n");
        agregar_filas_variantes(&mut contenido, &e.variantes);
        return Some(contenido);
    }
    // Buscar como rasgo
    if let Some(t) = obtener(&indice.traits, nombre) {
        let mut contenido = texto("**rasgo** `");
        agregar(&mut contenido, t.nombre.as_str());
        agregar(&mut contenido, "`\n\n| Método |\n|--------|\n");
        agregar_filas_simples(&mut contenido, &t.metodos);
        return Some(contenido);
    }
    None
}

/// Clase de un elemento de autocompletado.
#[derive(Debug, Clone, Copy, PartialEq, Eq, Structural)]
pub enum ClaseCompletado {
    PalabraClave,
    ParametroTipo,
    Constante,
    Funcion,
    Variable,
    Estructura,
    Enumeracion,
    Interfaz,
    Campo,
}

/// Elemento de autocompletado: etiqueta, clase, detalle y si se inserta como texto plano.
#[derive(Debug)]
pub struct ElementoCompletado {
    pub etiqueta: String,
    pub clase: ClaseCompletado,
    pub detalle: String,
    pub texto_plano: bool,
}

impl View for ElementoCompletado {
    type V = (Seq<char>, ClaseCompletado, Seq<char>, bool);

    open spec fn view(&self) -> Self::V {
        (self.etiqueta@, self.clase, self.detalle@, self.texto_plano)
    }
}

/// Vistas de una lista de elementos.
pub open spec fn vistas_elementos(v: Seq<ElementoCompletado>) -> Seq<(Seq<char>, ClaseCompletado, Seq<char>, bool)> {
    v.map_values(|e: ElementoCompletado| e@)
}

/// Agrega un elemento al final.
fn empujar(items: &mut Vec<ElementoCompletado>, etiqueta: &str, detalle: &str, clase: ClaseCompletado, texto_plano: bool)
    ensures
        vistas_elementos(final(items)@) == vistas_elementos(old(items)@).push((etiqueta@, clase, detalle@, texto_plano)),
{
    items.push(ElementoCompletado { etiqueta: texto(etiqueta), clase, detalle: texto(detalle), texto_plano });
    proof {
        assert(vistas_elementos(items@) =~= vistas_elementos(old(items)@).push((etiqueta@, clase, detalle@, texto_plano)));
    }
}
/// Palabras reservadas del lenguaje.
pub open spec fn catalogo_palabras_clave() -> Seq<(Seq<char>, ClaseCompletado, Seq<char>, bool)> {
    seq![
        ("función"@, ClaseCompletado::PalabraClave, "Declara una función"@, true),
        ("fn"@, ClaseCompletado::PalabraClave, "Alias de función"@, true),
        ("retornar"@, ClaseCompletado::PalabraClave, "Retorna un valor"@, true),
        ("devolver"@, ClaseCompletado::PalabraClave, "Alias de retornar"@, true),
        ("si"@, ClaseCompletado::PalabraClave, "Condicional si"@, true),
        ("sino"@, ClaseCompletado::PalabraClave, "Rama alternativa"@, true),
        ("es"@, ClaseCompletado::PalabraClave, "Comparación de identidad (==)"@, true),
        ("está"@, ClaseCompletado::PalabraClave, "Comparación de estado / truthiness"@, true),
        ("fuese"@, ClaseCompletado::PalabraClave, "Subjuntivo — cold path optimization"@, true),
        ("mientras"@, ClaseCompletado::PalabraClave, "Bucle mientras (condición)"@, true),
        ("para"@, ClaseCompletado::PalabraClave, "Bucle para (iteración)"@, true),
        ("en"@, ClaseCompletado::PalabraClave, "Separador para/bucle"@, true),
        ("coincidir"@, ClaseCompletado::PalabraClave, "Pattern matching exhaustivo"@, true),
        ("emparejar"@, ClaseCompletado::PalabraClave, "Alias de coincidir"@, true),
        ("inseguro"@, ClaseCompletado::PalabraClave, "Bloque o función FFI insegura"@, true),
        ("estructural"@, ClaseCompletado::PalabraClave, "Define un struct (layout C)"@, true),
        ("enumeración"@, ClaseCompletado::PalabraClave, "Define un enum (tag+union)"@, true),
        ("rasgo"@, ClaseCompletado::PalabraClave, "Define un trait/interface"@, true),
        ("implementar"@, ClaseCompletado::PalabraClave, "Implementa un trait para un tipo"@, true),
        ("módulo"@, ClaseCompletado::PalabraClave, "Define un módulo"@, true),
        ("usar"@, ClaseCompletado::PalabraClave, "Importa un símbolo de otro módulo"@, true),
        ("mover"@, ClaseCompletado::PalabraClave, "Transfiere ownership explícitamente"@, true),
        ("copiar"@, ClaseCompletado::PalabraClave, "Clona un valor explícitamente"@, true),
        ("prestar"@, ClaseCompletado::PalabraClave, "Presta una referencia explícitamente"@, true),
        ("región"@, ClaseCompletado::PalabraClave, "Bloque de arena allocation"@, true),
        ("puro"@, ClaseCompletado::PalabraClave, "Anotación de efecto: sin side effects"@, true),
        ("muta"@, ClaseCompletado::PalabraClave, "Anotación de efecto: muta campo(s)"@, true),
        ("lee"@, ClaseCompletado::PalabraClave, "Anotación de efecto: lee campo(s)"@, true),
        ("fut"@, ClaseCompletado::PalabraClave, "Función asíncrona (futuro)"@, true),
        ("esperar"@, ClaseCompletado::PalabraClave, "Espera un futuro (await)"@, true),
        ("lanzar"@, ClaseCompletado::PalabraClave, "Lanza un hilo/tarea"@, true),
        ("bloquear"@, ClaseCompletado::PalabraClave, "Bridge sync→async"@, true),
        ("seleccionar"@, ClaseCompletado::PalabraClave, "Select de canales"@, true),
        ("con_executor"@, ClaseCompletado::PalabraClave, "Crea un thread pool"@, true),
        ("cancelar"@, ClaseCompletado::PalabraClave, "Cancelación estructurada"@, true),
        ("prueba"@, ClaseCompletado::PalabraClave, "Define un test"@, true),
        ("afirmar"@, ClaseCompletado::PalabraClave, "Aserción en tests"@, true),
        ("como"@, ClaseCompletado::PalabraClave, "Binding en pattern matching"@, true),
        ("bits"@, ClaseCompletado::PalabraClave, "Campos de bits en struct"@, true),
        ("todos"@, ClaseCompletado::PalabraClave, "Inicialización de arreglo con valor"@, true),
        ("direccion_de"@, ClaseCompletado::PalabraClave, "Obtiene la dirección de una función"@, true),
        ("dir_de"@, ClaseCompletado::PalabraClave, "Obtiene la dirección de una función (abreviatura)"@, true),
        ("tipo"@, ClaseCompletado::PalabraClave, "Keyword de tipo (contextual)"@, true),
    ]
}

/// Elementos de palabras reservadas del lenguaje.
fn elementos_palabras_clave() -> (r: Vec<ElementoCompletado>)
    ensures
        vistas_elementos(r@) == catalogo_palabras_clave(),
{
    let mut v: Vec<ElementoCompletado> = Vec::new();
    proof {
        assert(vistas_elementos(v@) =~= Seq::empty());
    }
    empujar(&mut v, "función", "Declara una función", ClaseCompletado::PalabraClave, true);
    empujar(&mut v, "fn", "Alias de función", ClaseCompletado::PalabraClave, true);
    empujar(&mut v, "retornar", "Retorna un valor", ClaseCompletado::PalabraClave, true);
    empujar(&mut v, "devolver", "Alias de retornar", ClaseCompletado::PalabraClave, true);
    empujar(&mut v, "si", "Condicional si", ClaseCompletado::PalabraClave, true);
    empujar(&mut v, "sino", "Rama alternativa", ClaseCompletado::PalabraClave, true);
    empujar(&mut v, "es", "Comparación de identidad (==)", ClaseCompletado::PalabraClave, true);
    empujar(&mut v, "está", "Comparación de estado / truthiness", ClaseCompletado::PalabraClave, true);
    empujar(&mut v, "fuese", "Subjuntivo — cold path optimization", ClaseCompletado::PalabraClave, true);
    empujar(&mut v, "mientras", "Bucle mientras (condición)", ClaseCompletado::PalabraClave, true);
    empujar(&mut v, "para", "Bucle para (iteración)", ClaseCompletado::PalabraClave, true);
    empujar(&mut v, "en", "Separador para/bucle", ClaseCompletado::PalabraClave, true);
    empujar(&mut v, "coincidir", "Pattern matching exhaustivo", ClaseCompletado::PalabraClave, true);
    empujar(&mut v, "emparejar", "Alias de coincidir", ClaseCompletado::PalabraClave, true);
    empujar(&mut v, "inseguro", "Bloque o función FFI insegura", ClaseCompletado::PalabraClave, true);
    empujar(&mut v, "estructural", "Define un struct (layout C)", ClaseCompletado::PalabraClave, true);
    empujar(&mut v, "enumeración", "Define un enum (tag+union)", ClaseCompletado::PalabraClave, true);
    empujar(&mut v, "rasgo", "Define un trait/interface", ClaseCompletado::PalabraClave, true);
    empujar(&mut v, "implementar", "Implementa un trait para un tipo", ClaseCompletado::PalabraClave, true);
    empujar(&mut v, "módulo", "Define un módulo", ClaseCompletado::PalabraClave, true);
    empujar(&mut v, "usar", "Importa un símbolo de otro módulo", ClaseCompletado::PalabraClave, true);
    empujar(&mut v, "mover", "Transfiere ownership explícitamente", ClaseCompletado::PalabraClave, true);
    empujar(&mut v, "copiar", "Clona un valor explícitamente", ClaseCompletado::PalabraClave, true);
    empujar(&mut v, "prestar", "Presta una referencia explícitamente", ClaseCompletado::PalabraClave, true);
    empujar(&mut v, "región", "Bloque de arena allocation", ClaseCompletado::PalabraClave, true);
    empujar(&mut v, "puro", "Anotación de efecto: sin side effects", ClaseCompletado::PalabraClave, true);
    empujar(&mut v, "muta", "Anotación de efecto: muta campo(s)", ClaseCompletado::PalabraClave, true);
    empujar(&mut v, "lee", "Anotación de efecto: lee campo(s)", ClaseCompletado::PalabraClave, true);
    empujar(&mut v, "fut", "Función asíncrona (futuro)", ClaseCompletado::PalabraClave, true);
    empujar(&mut v, "esperar", "Espera un futuro (await)", ClaseCompletado::PalabraClave, true);
    empujar(&mut v, "lanzar", "Lanza un hilo/tarea", ClaseCompletado::PalabraClave, true);
    empujar(&mut v, "bloquear", "Bridge sync→async", ClaseCompletado::PalabraClave, true);
    empujar(&mut v, "seleccionar", "Select de canales", ClaseCompletado::PalabraClave, true);
    empujar(&mut v, "con_executor", "Crea un thread pool", ClaseCompletado::PalabraClave, true);
    empujar(&mut v, "cancelar", "Cancelación estructurada", ClaseCompletado::PalabraClave, true);
    empujar(&mut v, "prueba", "Define un test", ClaseCompletado::PalabraClave, true);
    empujar(&mut v, "afirmar", "Aserción en tests", ClaseCompletado::PalabraClave, true);
    empujar(&mut v, "como", "Binding en pattern matching", ClaseCompletado::PalabraClave, true);
    empujar(&mut v, "bits", "Campos de bits en struct", ClaseCompletado::PalabraClave, true);
    empujar(&mut v, "todos", "Inicialización de arreglo con valor", ClaseCompletado::PalabraClave, true);
    empujar(&mut v, "direccion_de", "Obtiene la dirección de una función", ClaseCompletado::PalabraClave, true);
    empujar(&mut v, "dir_de", "Obtiene la dirección de una función (abreviatura)", ClaseCompletado::PalabraClave, true);
    empujar(&mut v, "tipo", "Keyword de tipo (contextual)", ClaseCompletado::PalabraClave, true);
    v
}

/// Los cinco artículos de propiedad.
pub open spec fn catalogo_articulos() -> Seq<(Seq<char>, ClaseCompletado, Seq<char>, bool)> {
    seq![
        ("el"@, ClaseCompletado::PalabraClave, "Owned mutable (dueño único, puedes modificar)"@, false),
        ("la"@, ClaseCompletado::PalabraClave, "Borrowed inmutable (prestado, solo lectura)"@, false),
        ("un"@, ClaseCompletado::PalabraClave, "Optional (quizás existe, quizás no)"@, false),
        ("los"@, ClaseCompletado::PalabraClave, "Shared owned (ref-counted, múltiples dueños)"@, false),
        ("las"@, ClaseCompletado::PalabraClave, "Shared borrowed (todos leen, nadie escribe)"@, false),
    ]
}

/// Elementos de los cinco artículos de propiedad.
fn elementos_articulos() -> (r: Vec<ElementoCompletado>)
    ensures
        vistas_elementos(r@) == catalogo_articulos(),
{
    let mut v: Vec<ElementoCompletado> = Vec::new();
    proof {
        assert(vistas_elementos(v@) =~= Seq::empty());
    }
    empujar(&mut v, "el", "Owned mutable (dueño único, puedes modificar)", ClaseCompletado::PalabraClave, false);
    empujar(&mut v, "la", "Borrowed inmutable (prestado, solo lectura)", ClaseCompletado::PalabraClave, false);
    empujar(&mut v, "un", "Optional (quizás existe, quizás no)", ClaseCompletado::PalabraClave, false);
    empujar(&mut v, "los", "Shared owned (ref-counted, múltiples dueños)", ClaseCompletado::PalabraClave, false);
    empujar(&mut v, "las", "Shared borrowed (todos leen, nadie escribe)", ClaseCompletado::PalabraClave, false);
    v
}

/// Tipos primitivos y compuestos.
pub open spec fn catalogo_tipos() -> Seq<(Seq<char>, ClaseCompletado, Seq<char>, bool)> {
    seq![
        ("Entero8"@, ClaseCompletado::ParametroTipo, "Entero de 8 bits con signo"@, false),
        ("Entero16"@, ClaseCompletado::ParametroTipo, "Entero de 16 bits con signo"@, false),
        ("Entero32"@, ClaseCompletado::ParametroTipo, "Entero de 32 bits con signo"@, false),
        ("Entero64"@, ClaseCompletado::ParametroTipo, "Entero de 64 bits con signo"@, false),
        ("Natural8"@, ClaseCompletado::ParametroTipo, "Entero de 8 bits sin signo"@, false),
        ("Natural16"@, ClaseCompletado::ParametroTipo, "Entero de 16 bits sin signo"@, false),
        ("Natural32"@, ClaseCompletado::ParametroTipo, "Entero de 32 bits sin signo"@, false),
        ("Natural64"@, ClaseCompletado::ParametroTipo, "Entero de 64 bits sin signo"@, false),
        ("Flotante32"@, ClaseCompletado::ParametroTipo, "Flotante de 32 bits (f32)"@, false),
        ("Flotante64"@, ClaseCompletado::ParametroTipo, "Flotante de 64 bits (f64)"@, false),
        ("Booleano"@, ClaseCompletado::ParametroTipo, "Booleano: verdadero o falso"@, false),
        ("Caracter"@, ClaseCompletado::ParametroTipo, "Carácter Unicode de 32 bits"@, false),
        ("Palabra"@, ClaseCompletado::ParametroTipo, "String literal inmutable (&str)"@, false),
        ("Texto"@, ClaseCompletado::ParametroTipo, "String heap-allocado growable (24 bytes, ¡liberar!)"@, false),
        ("Vacío"@, ClaseCompletado::ParametroTipo, "Tipo unitario (sin valor)"@, false),
        ("Vector"@, ClaseCompletado::ParametroTipo, "Vector dinámico genérico (heap, ¡liberar!)"@, false),
        ("Resultado"@, ClaseCompletado::ParametroTipo, "Result<T,E> — Exito(valor) o Error(codigo)"@, false),
    ]
}

/// Elementos de tipos primitivos y compuestos.
fn elementos_tipos() -> (r: Vec<ElementoCompletado>)
    ensures
        vistas_elementos(r@) == catalogo_tipos(),
{
    let mut v: Vec<ElementoCompletado> = Vec::new();
    proof {
        assert(vistas_elementos(v@) =~= Seq::empty());
    }
    empujar(&mut v, "Entero8", "Entero de 8 bits con signo", ClaseCompletado::ParametroTipo, false);
    empujar(&mut v, "Entero16", "Entero de 16 bits con signo", ClaseCompletado::ParametroTipo, false);
    empujar(&mut v, "Entero32", "Entero de 32 bits con signo", ClaseCompletado::ParametroTipo, false);
    empujar(&mut v, "Entero64", "Entero de 64 bits con signo", ClaseCompletado::ParametroTipo, false);
    empujar(&mut v, "Natural8", "Entero de 8 bits sin signo", ClaseCompletado::ParametroTipo, false);
    empujar(&mut v, "Natural16", "Entero de 16 bits sin signo", ClaseCompletado::ParametroTipo, false);
    empujar(&mut v, "Natural32", "Entero de 32 bits sin signo", ClaseCompletado::ParametroTipo, false);
    empujar(&mut v, "Natural64", "Entero de 64 bits sin signo", ClaseCompletado::ParametroTipo, false);
    empujar(&mut v, "Flotante32", "Flotante de 32 bits (f32)", ClaseCompletado::ParametroTipo, false);
    empujar(&mut v, "Flotante64", "Flotante de 64 bits (f64)", ClaseCompletado::ParametroTipo, false);
    empujar(&mut v, "Booleano", "Booleano: verdadero o falso", ClaseCompletado::ParametroTipo, false);
    empujar(&mut v, "Caracter", "Carácter Unicode de 32 bits", ClaseCompletado::ParametroTipo, false);
    empujar(&mut v, "Palabra", "String literal inmutable (&str)", ClaseCompletado::ParametroTipo, false);
    empujar(&mut v, "Texto", "String heap-allocado growable (24 bytes, ¡liberar!)", ClaseCompletado::ParametroTipo, false);
    empujar(&mut v, "Vacío", "Tipo unitario (sin valor)", ClaseCompletado::ParametroTipo, false);
    empujar(&mut v, "Vector", "Vector dinámico genérico (heap, ¡liberar!)", ClaseCompletado::ParametroTipo, false);
    empujar(&mut v, "Resultado", "Result<T,E> — Exito(valor) o Error(codigo)", ClaseCompletado::ParametroTipo, false);
    v
}

/// Literales booleanos.
pub open spec fn catalogo_booleanos() -> Seq<(Seq<char>, ClaseCompletado, Seq<char>, bool)> {
    seq![
        ("verdadero"@, ClaseCompletado::Constante, "Literal booleano"@, false),
        ("falso"@, ClaseCompletado::Constante, "Literal booleano"@, false),
    ]
}

/// Elementos de literales booleanos.
fn elementos_booleanos() -> (r: Vec<ElementoCompletado>)
    ensures
        vistas_elementos(r@) == catalogo_booleanos(),
{
    let mut v: Vec<ElementoCompletado> = Vec::new();
    proof {
        assert(vistas_elementos(v@) =~= Seq::empty());
    }
    empujar(&mut v, "verdadero", "Literal booleano", ClaseCompletado::Constante, false);
    empujar(&mut v, "falso", "Literal booleano", ClaseCompletado::Constante, false);
    v
}

/// Funciones integradas más comunes.
pub open spec fn catalogo_funciones_integradas() -> Seq<(Seq<char>, ClaseCompletado, Seq<char>, bool)> {
    seq![
        ("imprimir"@, ClaseCompletado::Funcion, "(mensaje: T) -> Vacío"@, false),
        ("imprimir_linea"@, ClaseCompletado::Funcion, "(mensaje: T) -> Vacío"@, false),
        ("decir"@, ClaseCompletado::Funcion, "(mensaje: T) -> Vacío — alias de imprimir_linea"@, false),
        ("tamaño_de::<T>"@, ClaseCompletado::Funcion, "() -> Entero64 — sizeof comptime"@, false),
        ("dormir"@, ClaseCompletado::Funcion, "(ms: Entero32) -> Vacío — suspende hilo actual"@, false),
        ("abs"@, ClaseCompletado::Funcion, "(x: Entero32) -> Entero32"@, false),
        ("max"@, ClaseCompletado::Funcion, "(a: Entero32, b: Entero32) -> Entero32"@, false),
        ("min"@, ClaseCompletado::Funcion, "(a: Entero32, b: Entero32) -> Entero32"@, false),
        ("raiz"@, ClaseCompletado::Funcion, "(x: Flotante64) -> Flotante64 — sqrt()"@, false),
        ("potencia"@, ClaseCompletado::Funcion, "(base: Flotante64, exp: Flotante64) -> Flotante64 — pow()"@, false),
        ("texto_nuevo"@, ClaseCompletado::Funcion, "() -> Texto"@, false),
        ("texto_desde"@, ClaseCompletado::Funcion, "(s: Palabra) -> Texto"@, false),
        ("texto_agregar"@, ClaseCompletado::Funcion, "(texto: Texto, fragmento: Palabra) -> Vacío"@, false),
        ("texto_concatenar"@, ClaseCompletado::Funcion, "(a: Texto, b: Texto) -> Texto"@, false),
        ("texto_liberar"@, ClaseCompletado::Funcion, "(texto: Texto) -> Vacío"@, false),
        ("vector_nuevo"@, ClaseCompletado::Funcion, "<T>() -> Vector<T>"@, false),
        ("vector_agregar"@, ClaseCompletado::Funcion, "<T>(v: Vector<T>, val: T) -> Vacío"@, false),
        ("vector_liberar"@, ClaseCompletado::Funcion, "<T>(v: Vector<T>) -> Vacío"@, false),
        ("diccionario_nuevo"@, ClaseCompletado::Funcion, "<K,V>() -> Diccionario<K,V>"@, false),
        ("diccionario_insertar"@, ClaseCompletado::Funcion, "<K,V>(d: Diccionario<K,V>, k: K, v: V) -> Vacío"@, false),
        ("archivo_leer"@, ClaseCompletado::Funcion, "(ruta: Palabra) -> Texto"@, false),
        ("archivo_escribir"@, ClaseCompletado::Funcion, "(ruta: Palabra, contenido: Texto) -> Entero32"@, false),
        ("canal_nuevo"@, ClaseCompletado::Funcion, "(capacidad: Entero32) -> Canal"@, false),
        ("canal_enviar"@, ClaseCompletado::Funcion, "(canal: Canal, valor: Entero32) -> Vacío"@, false),
        ("canal_recibir"@, ClaseCompletado::Funcion, "(canal: Canal) -> Entero32"@, false),
    ]
}

/// Elementos de funciones integradas más comunes.
fn elementos_funciones_integradas() -> (r: Vec<ElementoCompletado>)
    ensures
        vistas_elementos(r@) == catalogo_funciones_integradas(),
{
    let mut v: Vec<ElementoCompletado> = Vec::new();
    proof {
        assert(vistas_elementos(v@) =~= Seq::empty());
    }
    empujar(&mut v, "imprimir", "(mensaje: T) -> Vacío", ClaseCompletado::Funcion, false);
    empujar(&mut v, "imprimir_linea", "(mensaje: T) -> Vacío", ClaseCompletado::Funcion, false);
    empujar(&mut v, "decir", "(mensaje: T) -> Vacío — alias de imprimir_linea", ClaseCompletado::Funcion, false);
    empujar(&mut v, "tamaño_de::<T>", "() -> Entero64 — sizeof comptime", ClaseCompletado::Funcion, false);
    empujar(&mut v, "dormir", "(ms: Entero32) -> Vacío — suspende hilo actual", ClaseCompletado::Funcion, false);
    empujar(&mut v, "abs", "(x: Entero32) -> Entero32", ClaseCompletado::Funcion, false);
    empujar(&mut v, "max", "(a: Entero32, b: Entero32) -> Entero32", ClaseCompletado::Funcion, false);
    empujar(&mut v, "min", "(a: Entero32, b: Entero32) -> Entero32", ClaseCompletado::Funcion, false);
    empujar(&mut v, "raiz", "(x: Flotante64) -> Flotante64 — sqrt()", ClaseCompletado::Funcion, false);
    empujar(&mut v, "potencia", "(base: Flotante64, exp: Flotante64) -> Flotante64 — pow()", ClaseCompletado::Funcion, false);
    empujar(&mut v, "texto_nuevo", "() -> Texto", ClaseCompletado::Funcion, false);
    empujar(&mut v, "texto_desde", "(s: Palabra) -> Texto", ClaseCompletado::Funcion, false);
    empujar(&mut v, "texto_agregar", "(texto: Texto, fragmento: Palabra) -> Vacío", ClaseCompletado::Funcion, false);
    empujar(&mut v, "texto_concatenar", "(a: Texto, b: Texto) -> Texto", ClaseCompletado::Funcion, false);
    empujar(&mut v, "texto_liberar", "(texto: Texto) -> Vacío", ClaseCompletado::Funcion, false);
    empujar(&mut v, "vector_nuevo", "<T>() -> Vector<T>", ClaseCompletado::Funcion, false);
    empujar(&mut v, "vector_agregar", "<T>(v: Vector<T>, val: T) -> Vacío", ClaseCompletado::Funcion, false);
    empujar(&mut v, "vector_liberar", "<T>(v: Vector<T>) -> Vacío", ClaseCompletado::Funcion, false);
    empujar(&mut v, "diccionario_nuevo", "<K,V>() -> Diccionario<K,V>", ClaseCompletado::Funcion, false);
    empujar(&mut v, "diccionario_insertar", "<K,V>(d: Diccionario<K,V>, k: K, v: V) -> Vacío", ClaseCompletado::Funcion, false);
    empujar(&mut v, "archivo_leer", "(ruta: Palabra) -> Texto", ClaseCompletado::Funcion, false);
    empujar(&mut v, "archivo_escribir", "(ruta: Palabra, contenido: Texto) -> Entero32", ClaseCompletado::Funcion, false);
    empujar(&mut v, "canal_nuevo", "(capacidad: Entero32) -> Canal", ClaseCompletado::Funcion, false);
    empujar(&mut v, "canal_enviar", "(canal: Canal, valor: Entero32) -> Vacío", ClaseCompletado::Funcion, false);
    empujar(&mut v, "canal_recibir", "(canal: Canal) -> Entero32", ClaseCompletado::Funcion, false);
    v
}

/// Catálogo fijo de autocompletado: palabras clave, artículos, tipos, literales booleanos y
/// funciones integradas, en ese orden.
pub open spec fn catalogo_completado() -> Seq<(Seq<char>, ClaseCompletado, Seq<char>, bool)> {
    catalogo_palabras_clave() + catalogo_articulos() + catalogo_tipos() + catalogo_booleanos()
        + catalogo_funciones_integradas()
}

/// Añade al final los elementos de otra lista.
fn anexar(items: &mut Vec<ElementoCompletado>, otros: Vec<ElementoCompletado>)
    ensures
        vistas_elementos(final(items)@) == vistas_elementos(old(items)@) + vistas_elementos(otros@),
{
    let ghost agregados = otros@;
    let mut otros = otros;
    items.append(&mut otros);
    proof {
        assert(vistas_elementos(items@) =~= vistas_elementos(old(items)@) + vistas_elementos(agregados));
    }
}

/// Elementos fijos de autocompletado: palabras clave, artículos, tipos, literales booleanos y
/// funciones integradas.
pub fn items_autocompletado() -> (r: Vec<ElementoCompletado>)
    ensures
        vistas_elementos(r@) == catalogo_completado(),
{
    let mut items = elementos_palabras_clave();
    anexar(&mut items, elementos_articulos());
    anexar(&mut items, elementos_tipos());
    anexar(&mut items, elementos_booleanos());
    anexar(&mut items, elementos_funciones_integradas());
    items
}

/// Bytes que ocupa el texto en UTF-8.
pub open spec fn bytes_de(s: Seq<char>) -> nat {
    encode_utf8(s).len()
}

/// La codificación de una concatenación es la concatenación de las codificaciones.
proof fn lema_utf8_concat(a: Seq<char>, b: Seq<char>)
    ensures
        encode_utf8(a + b) == encode_utf8(a) + encode_utf8(b),
    decreases a.len(),
{
    if a.len() == 0 {
        assert(a + b =~= b);
        assert(encode_utf8(a) + encode_utf8(b) =~= encode_utf8(b));
    } else {
        lema_utf8_concat(a.drop_first(), b);
        assert((a + b).drop_first() =~= a.drop_first() + b);
        assert((a + b)[0] == a[0]);
        assert(encode_utf8(a + b) =~= encode_utf8(a) + encode_utf8(b));
    }
}

/// Codificación de un solo carácter.
proof fn lema_utf8_uno(c: char)
    ensures
        encode_utf8(seq![c]) == encode_scalar(c as u32),
{
    let s = seq![c];
    assert(s.drop_first() =~= Seq::<char>::empty());
    assert(encode_utf8(s.drop_first()) =~= Seq::<u8>::empty());
    assert(encode_utf8(s) =~= encode_scalar(c as u32));
}

/// Un tramo del texto no ocupa más bytes que el texto entero.
proof fn lema_bytes_tramo(s: Seq<char>, i: int, j: int)
    requires
        0 <= i <= j <= s.len(),
    ensures
        bytes_de(s.subrange(i, j)) <= bytes_de(s),
{
    assert(s =~= s.subrange(0, i) + s.subrange(i, j) + s.subrange(j, s.len() as int));
    lema_utf8_concat(s.subrange(0, i) + s.subrange(i, j), s.subrange(j, s.len() as int));
    lema_utf8_concat(s.subrange(0, i), s.subrange(i, j));
}

/// Bytes de un carácter en UTF-8 (de 1 a 4).
fn ancho_utf8(c: char) -> (r: usize)
    ensures
        r == encode_scalar(c as u32).len(),
        1 <= r <= 4,
{
    proof {
        vstd::utf8::char_is_scalar(c);
    }
    let v = c as u32;
    if v < 0x80 {
        1
    } else if v < 0x800 {
        2
    } else if v < 0x10000 {
        3
    } else {
        4
    }
}

/// Bytes que ocupa un texto en UTF-8.
fn bytes_de_caracteres(cs: &Vec<char>) -> (r: usize)
    requires
        bytes_de(cs@) <= usize::MAX,
    ensures
        r == bytes_de(cs@),
{
    let mut n: usize = 0;
    let mut i: usize = 0;
    while i < cs.len()
        invariant
            i <= cs@.len(),
            bytes_de(cs@) <= usize::MAX,
            n == bytes_de(cs@.take(i as int)),
        decreases cs@.len() - i,
    {
        proof {
            assert(cs@.take(i + 1) =~= cs@.take(i as int) + seq![cs@[i as int]]);
            lema_utf8_concat(cs@.take(i as int), seq![cs@[i as int]]);
            lema_utf8_uno(cs@[i as int]);
            lema_bytes_tramo(cs@, 0, i + 1);
            assert(cs@.subrange(0, i + 1) =~= cs@.take(i + 1));
        }
        n = n + ancho_utf8(cs[i]);
        i = i + 1;
    }
    proof {
        assert(cs@.take(i as int) =~= cs@);
    }
    n
}

/// Índice del primer salto de línea, o la longitud si no hay.
pub open spec fn fin_linea(s: Seq<char>) -> int
    decreases s.len(),
{
    if s.len() == 0 {
        0
    } else if s[0] == '\n' {
        0
    } else {
        1 + fin_linea(s.drop_first())
    }
}

/// `fin_linea` es el primer salto de línea, o el final.
pub proof fn lema_fin_linea(s: Seq<char>)
    ensures
        0 <= fin_linea(s) <= s.len(),
        fin_linea(s) < s.len() ==> s[fin_linea(s)] == '\n',
        forall|j: int| 0 <= j < fin_linea(s) ==> s[j] != '\n',
    decreases s.len(),
{
    if s.len() > 0 && s[0] != '\n' {
        lema_fin_linea(s.drop_first());
        assert forall|j: int| 0 <= j < fin_linea(s) implies s[j] != '\n' by {
            if j > 0 {
                assert(s[j] == s.drop_first()[j - 1]);
            }
        }
    }
}

/// Cualquier índice que cumpla lo de `fin_linea` es `fin_linea`.
proof fn lema_fin_linea_unico(s: Seq<char>, p: int)
    requires
        0 <= p <= s.len(),
        p < s.len() ==> s[p] == '\n',
        forall|j: int| 0 <= j < p ==> s[j] != '\n',
    ensures
        fin_linea(s) == p,
{
    lema_fin_linea(s);
    if fin_linea(s) < p {
        assert(s[fin_linea(s)] == '\n');
    }
    if p < fin_linea(s) {
        assert(s[p] == '\n');
    }
}

/// Una línea sin el `\r` final, si la terminaba un `\n`.
pub open spec fn sin_retorno(l: Seq<char>, terminada: bool) -> Seq<char> {
    if terminada && l.len() > 0 && l.last() == '\r' {
        l.drop_last()
    } else {
        l
    }
}

/// La línea `k` del texto (desde 0), partiendo en `\n` o `\r\n`; el último salto de línea es
/// opcional y un `\r` al final de todo se queda en la última línea.
pub open spec fn linea_n(s: Seq<char>, k: nat) -> Option<Seq<char>>
    decreases s.len(),
{
    if s.len() == 0 {
        None
    } else {
        let i = fin_linea(s);
        proof {
            lema_fin_linea(s);
        }
        if k == 0 {
            Some(sin_retorno(s.take(i), i < s.len()))
        } else if i < s.len() {
            linea_n(s.skip(i + 1), (k - 1) as nat)
        } else {
            None
        }
    }
}

/// Índices `[inicio, fin)` de la línea `k` del texto, si existe.
fn buscar_linea(cs: &Vec<char>, k: usize) -> (r: Option<(usize, usize)>)
    ensures
        match r {
            Some((a, b)) => a <= b <= cs@.len() && linea_n(cs@, k as nat) == Some(
                cs@.subrange(a as int, b as int),
            ),
            None => linea_n(cs@, k as nat) is None,
        },
{
    let mut ini: usize = 0;
    let mut resto: usize = k;
    proof {
        assert(cs@.skip(0) =~= cs@);
    }
    while ini < cs.len()
        invariant
            ini <= cs@.len(),
            linea_n(cs@, k as nat) == linea_n(cs@.skip(ini as int), resto as nat),
        decreases cs@.len() - ini,
    {
        let ghost t = cs@.skip(ini as int);
        let mut p: usize = ini;
        while p < cs.len() && cs[p] != '\n'
            invariant
                ini <= p <= cs@.len(),
                forall|j: int| ini <= j < p ==> cs@[j] != '\n',
            decreases cs@.len() - p,
        {
            p = p + 1;
        }
        proof {
            assert forall|j: int| 0 <= j < p - ini implies t[j] != '\n' by {
                assert(t[j] == cs@[ini + j]);
            }
            lema_fin_linea_unico(t, p - ini);
        }
        if resto == 0 {
            let mut b = p;
            if p < cs.len() && p > ini && cs[p - 1] == '\r' {
                b = p - 1;
            }
            proof {
                assert(t.take(p - ini) =~= cs@.subrange(ini as int, p as int));
                assert(sin_retorno(t.take(p - ini), p < cs@.len()) =~= cs@.subrange(ini as int, b as int));
            }
            return Some((ini, b));
        }
        if p == cs.len() {
            return None;
        }
        proof {
            assert(t.skip(p - ini + 1) =~= cs@.skip(p + 1));
        }
        ini = p + 1;
        resto = resto - 1;
    }
    None
}

/// Los primeros caracteres de la línea que caben en `b` bytes.
pub open spec fn corte(l: Seq<char>, b: nat) -> Seq<char>
    decreases l.len(),
{
    if l.len() == 0 {
        l
    } else if encode_scalar(l[0] as u32).len() <= b {
        seq![l[0]] + corte(l.drop_first(), (b - encode_scalar(l[0] as u32).len()) as nat)
    } else {
        Seq::empty()
    }
}

/// Lo que se toma como texto antes del cursor: la línea entera si su largo en bytes, llevado
/// a `u32`, es menor que 50; si no, sus primeros 50 bytes.
pub open spec fn antes_del_cursor(l: Seq<char>) -> Seq<char> {
    if (bytes_de(l) as u32) < 50 {
        l
    } else {
        corte(l, 50)
    }
}

/// El corte a 50 bytes cae entre dos caracteres (si no, cortar la línea ahí no es posible).
pub open spec fn corte_exacto(l: Seq<char>) -> bool {
    (bytes_de(l) as u32) < 50 || bytes_de(corte(l, 50)) == 50
}

/// Último índice del carácter en el texto.
pub open spec fn ultimo(s: Seq<char>, c: char) -> Option<int>
    decreases s.len(),
{
    if s.len() == 0 {
        None
    } else if s.last() == c {
        Some(s.len() - 1)
    } else {
        ultimo(s.drop_last(), c)
    }
}

/// El texto sin los espacios en blanco del principio.
pub open spec fn sin_espacios_al_inicio(s: Seq<char>) -> Seq<char>
    decreases s.len(),
{
    if s.len() > 0 && espacio_blanco(s[0]) {
        sin_espacios_al_inicio(s.drop_first())
    } else {
        s
    }
}

/// El texto sin los espacios en blanco del final.
pub open spec fn sin_espacios_al_final(s: Seq<char>) -> Seq<char>
    decreases s.len(),
{
    if s.len() > 0 && espacio_blanco(s.last()) {
        sin_espacios_al_final(s.drop_last())
    } else {
        s
    }
}

/// El texto sin espacios en blanco a los lados.
pub open spec fn recortado(s: Seq<char>) -> Seq<char> {
    sin_espacios_al_final(sin_espacios_al_inicio(s))
}

/// Carácter que puede formar parte de un nombre: alfanumérico o `_`.
pub open spec fn de_identificador(c: char) -> bool {
    alfanumerico(c) || c == '_'
}

/// Dónde empieza el nombre con que acaba el texto: la última racha de caracteres de nombre
/// (el largo del texto si no acaba en uno).
pub open spec fn inicio_nombre_final(s: Seq<char>) -> int
    decreases s.len(),
{
    if s.len() > 0 && de_identificador(s.last()) {
        inicio_nombre_final(s.drop_last())
    } else {
        s.len() as int
    }
}

/// El nombre con que acaba el texto (vacío si no acaba en un carácter de nombre).
pub open spec fn nombre_final(s: Seq<char>) -> Seq<char> {
    s.subrange(inicio_nombre_final(s), s.len() as int)
}

/// Los caracteres `[a, b)` como vector.
fn tramo(cs: &Vec<char>, a: usize, b: usize) -> (r: Vec<char>)
    requires
        a <= b <= cs@.len(),
    ensures
        r@ == cs@.subrange(a as int, b as int),
{
    let mut r: Vec<char> = Vec::new();
    let mut i: usize = a;
    while i < b
        invariant
            a <= i <= b <= cs@.len(),
            r@ == cs@.subrange(a as int, i as int),
        decreases b - i,
    {
        r.push(cs[i]);
        proof {
            assert(r@ =~= cs@.subrange(a as int, i + 1));
        }
        i = i + 1;
    }
    r
}

/// Cuántos caracteres del principio caben en `b` bytes.
fn cortar(l: &Vec<char>, b: usize) -> (r: usize)
    ensures
        r <= l@.len(),
        l@.take(r as int) == corte(l@, b as nat),
{
    let mut i: usize = 0;
    let mut usados: usize = 0;
    proof {
        assert(l@.skip(0) =~= l@);
        assert(l@.take(0) + corte(l@.skip(0), b as nat) =~= corte(l@, b as nat));
    }
    while i < l.len()
        invariant
            i <= l@.len(),
            usados <= b,
            l@.take(i as int) + corte(l@.skip(i as int), (b - usados) as nat) == corte(l@, b as nat),
        decreases l@.len() - i,
    {
        let w = ancho_utf8(l[i]);
        let ghost resto = l@.skip(i as int);
        proof {
            assert(resto[0] == l@[i as int]);
            assert(resto.drop_first() =~= l@.skip(i + 1));
        }
        if w > b - usados {
            proof {
                assert(corte(resto, (b - usados) as nat) =~= Seq::<char>::empty());
                assert(l@.take(i as int) + corte(resto, (b - usados) as nat) =~= l@.take(i as int));
            }
            return i;
        }
        proof {
            assert(l@.take(i + 1) =~= l@.take(i as int) + seq![l@[i as int]]);
            assert(l@.take(i + 1) + corte(l@.skip(i + 1), (b - usados - w) as nat) =~= l@.take(
                i as int,
            ) + corte(resto, (b - usados) as nat));
        }
        usados = usados + w;
        i = i + 1;
    }
    proof {
        assert(l@.skip(i as int) =~= Seq::<char>::empty());
        assert(l@.take(i as int) + corte(l@.skip(i as int), (b - usados) as nat) =~= l@.take(i as int));
    }
    i
}

/// Último índice del carácter entre los `n` primeros, si está.
fn ultimo_en(cs: &Vec<char>, n: usize, c: char) -> (r: Option<usize>)
    requires
        n <= cs@.len(),
    ensures
        match r {
            Some(p) => ultimo(cs@.take(n as int), c) == Some(p as int) && p < n,
            None => ultimo(cs@.take(n as int), c) is None,
        },
{
    let mut k: usize = n;
    while k > 0
        invariant
            k <= n <= cs@.len(),
            ultimo(cs@.take(n as int), c) == ultimo(cs@.take(k as int), c),
        decreases k,
    {
        proof {
            assert(cs@.take(k as int).drop_last() =~= cs@.take(k - 1));
            assert(cs@.take(k as int).last() == cs@[k - 1]);
        }
        if cs[k - 1] == c {
            return Some(k - 1);
        }
        k = k - 1;
    }
    None
}

/// Índices `[x, y)` del tramo `[a, b)` sin espacios en blanco a los lados.
fn recortar(cs: &Vec<char>, a: usize, b: usize) -> (r: (usize, usize))
    requires
        a <= b <= cs@.len(),
    ensures
        a <= r.0 <= r.1 <= b,
        cs@.subrange(r.0 as int, r.1 as int) == recortado(cs@.subrange(a as int, b as int)),
{
    let ghost s = cs@.subrange(a as int, b as int);
    let mut x: usize = a;
    proof {
        assert(cs@.subrange(a as int, b as int) =~= s);
    }
    while x < b && es_espacio(cs[x])
        invariant
            a <= x <= b <= cs@.len(),
            s == cs@.subrange(a as int, b as int),
            sin_espacios_al_inicio(s) == sin_espacios_al_inicio(cs@.subrange(x as int, b as int)),
        decreases b - x,
    {
        proof {
            assert(cs@.subrange(x as int, b as int).drop_first() =~= cs@.subrange(x + 1, b as int));
        }
        x = x + 1;
    }
    let ghost t = cs@.subrange(x as int, b as int);
    proof {
        assert(sin_espacios_al_inicio(t) == t);
    }
    let mut y: usize = b;
    proof {
        assert(cs@.subrange(x as int, y as int) =~= t);
    }
    while y > x && es_espacio(cs[y - 1])
        invariant
            a <= x <= y <= b <= cs@.len(),
            t == cs@.subrange(x as int, b as int),
            sin_espacios_al_final(t) == sin_espacios_al_final(cs@.subrange(x as int, y as int)),
        decreases y,
    {
        proof {
            assert(cs@.subrange(x as int, y as int).drop_last() =~= cs@.subrange(x as int, y - 1));
        }
        y = y - 1;
    }
    (x, y)
}

/// Índice donde empieza el nombre con que acaba el texto.
fn buscar_nombre_final(cs: &Vec<char>) -> (r: usize)
    ensures
        r == inicio_nombre_final(cs@),
        r <= cs@.len(),
{
    let mut y: usize = cs.len();
    proof {
        assert(cs@.take(y as int) =~= cs@);
    }
    loop
        invariant
            y <= cs@.len(),
            inicio_nombre_final(cs@.take(y as int)) == inicio_nombre_final(cs@),
        ensures
            y <= cs@.len(),
            y == inicio_nombre_final(cs@),
        decreases y,
    {
        if y == 0 {
            assert(inicio_nombre_final(cs@.take(0)) == 0);
            break;
        }
        let c = cs[y - 1];
        let de_nombre = es_alfanumerico(c) || c == '_';
        if !de_nombre {
            assert(cs@.take(y as int).last() == c);
            assert(inicio_nombre_final(cs@.take(y as int)) == y);
            break;
        }
        proof {
            assert(cs@.take(y as int).drop_last() =~= cs@.take(y - 1));
        }
        y = y - 1;
    }
    y
}

/// Prefijo antes del cursor en la línea `k`: lo que precede al último `.` de los primeros 50
/// bytes de la línea, sin espacios a los lados; vacío si no hay tal línea o no hay punto.
pub open spec fn prefijo_linea(s: Seq<char>, k: nat) -> Seq<char> {
    match linea_n(s, k) {
        Some(l) => {
            let a = antes_del_cursor(l);
            match ultimo(a, '.') {
                Some(p) => recortado(a.take(p)),
                None => Seq::empty(),
            }
        },
        None => Seq::empty(),
    }
}

/// Se puede tomar la línea `k` del texto: cabe en memoria y el corte a 50 bytes, si se hace,
/// cae entre caracteres.
pub open spec fn linea_legible(s: Seq<char>, k: nat) -> bool {
    &&& bytes_de(s) <= usize::MAX
    &&& match linea_n(s, k) {
        Some(l) => corte_exacto(l),
        None => true,
    }
}

/// Prefijo antes del cursor en la línea dada.
fn prefijo_de_linea(cs: &Vec<char>, k: u32) -> (r: Vec<char>)
    requires
        linea_legible(cs@, k as nat),
    ensures
        r@ == prefijo_linea(cs@, k as nat),
{
    match buscar_linea(cs, k as usize) {
        None => Vec::new(),
        Some((a, b)) => {
            let l = tramo(cs, a, b);
            proof {
                lema_bytes_tramo(cs@, a as int, b as int);
            }
            let n = bytes_de_caracteres(&l);
            let largo = if (n as u32) < 50 {
                l.len()
            } else {
                cortar(&l, 50)
            };
            proof {
                if (n as u32) < 50 {
                    assert(l@.take(largo as int) =~= l@);
                }
                assert(l@.take(largo as int) == antes_del_cursor(l@));
            }
            match ultimo_en(&l, largo, '.') {
                None => Vec::new(),
                Some(p) => {
                    let (x, y) = recortar(&l, 0, p);
                    proof {
                        assert(l@.subrange(0, p as int) =~= l@.take(largo as int).take(p as int));
                    }
                    tramo(&l, x, y)
                },
            }
        },
    }
}

/// Vista de un elemento de autocompletado.
pub type VistaElemento = (Seq<char>, ClaseCompletado, Seq<char>, bool);

/// Elemento de una variable del documento: `artículo nombre: Tipo`.
pub open spec fn elemento_variable(p: (String, InfoVariableLsp)) -> VistaElemento {
    (p.0@, ClaseCompletado::Variable, p.1.articulo@ + " "@ + p.0@ + ": "@ + p.1.tipo@, false)
}

/// Elemento de una función del documento: `nombre(parámetros) -> retorno`.
pub open spec fn elemento_funcion(p: (String, InfoFuncionLsp)) -> VistaElemento {
    (
        p.0@,
        ClaseCompletado::Funcion,
        p.0@ + "("@ + unidos(p.1.parametros@.map_values(|s: String| s@), ", "@) + ") -> "@ + o_bien(
            vista_opcion(p.1.retorno),
            "Vacío"@,
        ),
        false,
    )
}

/// Elemento de un struct del documento: `estructural Nombre (n campos)`.
pub open spec fn elemento_struct(p: (String, InfoStructLsp)) -> VistaElemento {
    (
        p.0@,
        ClaseCompletado::Estructura,
        "estructural "@ + p.0@ + " ("@ + decimal(p.1.campos@.len()) + " campos)"@,
        false,
    )
}

/// Elemento de un enum del documento: `enumeración Nombre (n variantes)`.
pub open spec fn elemento_enum(p: (String, InfoEnumLsp)) -> VistaElemento {
    (
        p.0@,
        ClaseCompletado::Enumeracion,
        "enumeración "@ + p.0@ + " ("@ + decimal(p.1.variantes@.len()) + " variantes)"@,
        false,
    )
}

/// Elemento de un rasgo del documento: `rasgo Nombre (n métodos)`.
pub open spec fn elemento_rasgo(p: (String, InfoTraitLsp)) -> VistaElemento {
    (
        p.0@,
        ClaseCompletado::Interfaz,
        "rasgo "@ + p.0@ + " ("@ + decimal(p.1.metodos@.len()) + " métodos)"@,
        false,
    )
}

/// Campos del struct cuyo nombre va justo antes del último `.` de la línea, si lo hay.
pub open spec fn campos_en_contexto(ix: IndiceSemantico, s: Seq<char>, k: nat) -> Seq<VistaElemento> {
    let n = nombre_final(prefijo_linea(s, k));
    let ss = mapa_de(ix.structs@);
    if n.len() > 0 && ss.contains_key(n) {
        ss[n].1.map_values(
            |c: (Seq<char>, Seq<char>)| (c.0, ClaseCompletado::Campo, c.0 + ": "@ + c.1, false),
        )
    } else {
        Seq::empty()
    }
}

/// Elementos de autocompletado del documento: variables, funciones, structs, enums y
/// rasgos del índice, en su orden, y los campos del struct antes de un `.`.
pub open spec fn elementos_de_contexto(ix: IndiceSemantico, s: Seq<char>, k: nat) -> Seq<VistaElemento> {
    ix.variables@.map_values(|p: (String, InfoVariableLsp)| elemento_variable(p))
        + ix.funciones@.map_values(|p: (String, InfoFuncionLsp)| elemento_funcion(p))
        + ix.structs@.map_values(|p: (String, InfoStructLsp)| elemento_struct(p))
        + ix.enums@.map_values(|p: (String, InfoEnumLsp)| elemento_enum(p))
        + ix.traits@.map_values(|p: (String, InfoTraitLsp)| elemento_rasgo(p))
        + campos_en_contexto(ix, s, k)
}

/// Agrega un elemento con etiqueta y detalle dados, sin formato de texto plano.
fn empujar_elemento(items: &mut Vec<ElementoCompletado>, etiqueta: String, clase: ClaseCompletado, detalle: String)
    ensures
        vistas_elementos(final(items)@) == vistas_elementos(old(items)@).push((etiqueta@, clase, detalle@, false)),
{
    let ghost e = (etiqueta@, clase, detalle@, false);
    items.push(ElementoCompletado { etiqueta, clase, detalle, texto_plano: false });
    proof {
        assert(vistas_elementos(items@) =~= vistas_elementos(old(items)@).push(e));
    }
}

/// Elementos de autocompletado sacados del documento: sus variables, funciones, structs,
/// enums y rasgos y, si en la línea del cursor un `Nombre.` nombra un struct, los campos de
/// ese struct.
pub fn items_autocompletado_contexto(indice: &IndiceSemantico, contenido: &str, linea_actual: u32) -> (r: Vec<ElementoCompletado>)
    requires
        indice.bien_formado(),
        linea_legible(contenido@, linea_actual as nat),
    ensures
        vistas_elementos(r@) == elementos_de_contexto(*indice, contenido@, linea_actual as nat),
{
    let mut items: Vec<ElementoCompletado> = Vec::new();
    proof {
        assert(vistas_elementos(items@) =~= Seq::empty());
    }
    let ghost base = vistas_elementos(items@);
    let mut i: usize = 0;
    proof {
        assert(indice.variables@.take(0).map_values(|p: (String, InfoVariableLsp)| elemento_variable(p)) =~= Seq::empty());
    }
    while i < indice.variables.len()
        invariant
            i <= indice.variables@.len(),
            vistas_elementos(items@) == base + indice.variables@.take(i as int).map_values(
                |p: (String, InfoVariableLsp)| elemento_variable(p),
            ),
        decreases indice.variables@.len() - i,
    {
        let nombre = &indice.variables[i].0;
        let info = &indice.variables[i].1;
        let mut detalle = info.articulo.clone();
        agregar(&mut detalle, " ");
        agregar(&mut detalle, nombre.as_str());
        agregar(&mut detalle, ": ");
        agregar(&mut detalle, info.tipo.as_str());
        empujar_elemento(&mut items, nombre.clone(), ClaseCompletado::Variable, detalle);
        proof {
            assert(indice.variables@.take(i + 1).map_values(|p: (String, InfoVariableLsp)| elemento_variable(p)) =~= indice.variables@.take(
                i as int,
            ).map_values(|p: (String, InfoVariableLsp)| elemento_variable(p)).push(elemento_variable(indice.variables@[i as int])));
        }
        i = i + 1;
    }
    proof {
        assert(indice.variables@.take(i as int) =~= indice.variables@);
    }
    let ghost base = vistas_elementos(items@);
    let mut i: usize = 0;
    proof {
        assert(indice.funciones@.take(0).map_values(|p: (String, InfoFuncionLsp)| elemento_funcion(p)) =~= Seq::empty());
    }
    while i < indice.funciones.len()
        invariant
            i <= indice.funciones@.len(),
            vistas_elementos(items@) == base + indice.funciones@.take(i as int).map_values(
                |p: (String, InfoFuncionLsp)| elemento_funcion(p),
            ),
        decreases indice.funciones@.len() - i,
    {
        let nombre = &indice.funciones[i].0;
        let info = &indice.funciones[i].1;
        let mut detalle = nombre.clone();
        agregar(&mut detalle, "(");
        let params = unir(&info.parametros, ", ");
        agregar(&mut detalle, params.as_str());
        agregar(&mut detalle, ") -> ");
        match &info.retorno {
            Some(r) => agregar(&mut detalle, r.as_str()),
            None => agregar(&mut detalle, "Vacío"),
        }
        empujar_elemento(&mut items, nombre.clone(), ClaseCompletado::Funcion, detalle);
        proof {
            assert(indice.funciones@.take(i + 1).map_values(|p: (String, InfoFuncionLsp)| elemento_funcion(p)) =~= indice.funciones@.take(
                i as int,
            ).map_values(|p: (String, InfoFuncionLsp)| elemento_funcion(p)).push(elemento_funcion(indice.funciones@[i as int])));
        }
        i = i + 1;
    }
    proof {
        assert(indice.funciones@.take(i as int) =~= indice.funciones@);
    }
    let ghost base = vistas_elementos(items@);
    let mut i: usize = 0;
    proof {
        assert(indice.structs@.take(0).map_values(|p: (String, InfoStructLsp)| elemento_struct(p)) =~= Seq::empty());
    }
    while i < indice.structs.len()
        invariant
            i <= indice.structs@.len(),
            vistas_elementos(items@) == base + indice.structs@.take(i as int).map_values(
                |p: (String, InfoStructLsp)| elemento_struct(p),
            ),
        decreases indice.structs@.len() - i,
    {
        let nombre = &indice.structs[i].0;
        let info = &indice.structs[i].1;
        let mut detalle = texto("estructural ");
        agregar(&mut detalle, nombre.as_str());
        agregar(&mut detalle, " (");
        agregar_decimal(&mut detalle, info.campos.len() as u64);
        agregar(&mut detalle, " campos)");
        empujar_elemento(&mut items, nombre.clone(), ClaseCompletado::Estructura, detalle);
        proof {
            assert(indice.structs@.take(i + 1).map_values(|p: (String, InfoStructLsp)| elemento_struct(p)) =~= indice.structs@.take(
                i as int,
            ).map_values(|p: (String, InfoStructLsp)| elemento_struct(p)).push(elemento_struct(indice.structs@[i as int])));
        }
        i = i + 1;
    }
    proof {
        assert(indice.structs@.take(i as int) =~= indice.structs@);
    }
    let ghost base = vistas_elementos(items@);
    let mut i: usize = 0;
    proof {
        assert(indice.enums@.take(0).map_values(|p: (String, InfoEnumLsp)| elemento_enum(p)) =~= Seq::empty());
    }
    while i < indice.enums.len()
        invariant
            i <= indice.enums@.len(),
            vistas_elementos(items@) == base + indice.enums@.take(i as int).map_values(
                |p: (String, InfoEnumLsp)| elemento_enum(p),
            ),
        decreases indice.enums@.len() - i,
    {
        let nombre = &indice.enums[i].0;
        let info = &indice.enums[i].1;
        let mut detalle = texto("enumeración ");
        agregar(&mut detalle, nombre.as_str());
        agregar(&mut detalle, " (");
        agregar_decimal(&mut detalle, info.variantes.len() as u64);
        agregar(&mut detalle, " variantes)");
        empujar_elemento(&mut items, nombre.clone(), ClaseCompletado::Enumeracion, detalle);
        proof {
            assert(indice.enums@.take(i + 1).map_values(|p: (String, InfoEnumLsp)| elemento_enum(p)) =~= indice.enums@.take(
                i as int,
            ).map_values(|p: (String, InfoEnumLsp)| elemento_enum(p)).push(elemento_enum(indice.enums@[i as int])));
        }
        i = i + 1;
    }
    proof {
        assert(indice.enums@.take(i as int) =~= indice.enums@);
    }
    let ghost base = vistas_elementos(items@);
    let mut i: usize = 0;
    proof {
        assert(indice.traits@.take(0).map_values(|p: (String, InfoTraitLsp)| elemento_rasgo(p)) =~= Seq::empty());
    }
    while i < indice.traits.len()
        invariant
            i <= indice.traits@.len(),
            vistas_elementos(items@) == base + indice.traits@.take(i as int).map_values(
                |p: (String, InfoTraitLsp)| elemento_rasgo(p),
            ),
        decreases indice.traits@.len() - i,
    {
        let nombre = &indice.traits[i].0;
        let info = &indice.traits[i].1;
        let mut detalle = texto("rasgo ");
        agregar(&mut detalle, nombre.as_str());
        agregar(&mut detalle, " (");
        agregar_decimal(&mut detalle, info.metodos.len() as u64);
        agregar(&mut detalle, " métodos)");
        empujar_elemento(&mut items, nombre.clone(), ClaseCompletado::Interfaz, detalle);
        proof {
            assert(indice.traits@.take(i + 1).map_values(|p: (String, InfoTraitLsp)| elemento_rasgo(p)) =~= indice.traits@.take(
                i as int,
            ).map_values(|p: (String, InfoTraitLsp)| elemento_rasgo(p)).push(elemento_rasgo(indice.traits@[i as int])));
        }
        i = i + 1;
    }
    proof {
        assert(indice.traits@.take(i as int) =~= indice.traits@);
    }
    // Tras un `.`, los campos del struct nombrado antes
    let ghost antes_campos = vistas_elementos(items@);
    let cs = caracteres(contenido);
    let pre = prefijo_de_linea(&cs, linea_actual);
    let inicio = buscar_nombre_final(&pre);
    if inicio < pre.len() {
        let nombre_tipo = texto_de_caracteres(tramo(&pre, inicio, pre.len()).as_slice());
        if let Some(st) = obtener(&indice.structs, nombre_tipo.as_str()) {
            let ghost campos = vistas_pares(st.campos@);
            let ghost f = |c: (Seq<char>, Seq<char>)| (c.0, ClaseCompletado::Campo, c.0 + ": "@ + c.1, false);
            let mut j: usize = 0;
            proof {
                assert(campos.take(0).map_values(f) =~= Seq::empty());
            }
            while j < st.campos.len()
                invariant
                    j <= st.campos@.len(),
                    campos == vistas_pares(st.campos@),
                    f == (|c: (Seq<char>, Seq<char>)| (c.0, ClaseCompletado::Campo, c.0 + ": "@ + c.1, false)),
                    vistas_elementos(items@) == antes_campos + campos.take(j as int).map_values(f),
                decreases st.campos@.len() - j,
            {
                let mut detalle = st.campos[j].0.clone();
                agregar(&mut detalle, ": ");
                agregar(&mut detalle, st.campos[j].1.as_str());
                empujar_elemento(&mut items, st.campos[j].0.clone(), ClaseCompletado::Campo, detalle);
                proof {
                    assert(campos.take(j + 1).map_values(f) =~= campos.take(j as int).map_values(f).push(
                        f(campos[j as int]),
                    ));
                }
                j = j + 1;
            }
            proof {
                assert(campos.take(j as int) =~= campos);
            }
        }
    }
    proof {
        assert(vistas_elementos(items@) =~= elementos_de_contexto(*indice, contenido@, linea_actual as nat));
    }
    items
}

/// Documento abierto: su texto, su índice y su AST si se pudo parsear.
#[derive(Debug)]
pub struct DocumentoLsp {
    pub contenido: String,
    pub indice: IndiceSemantico,
    pub ast: Option<Programa>,
}

/// Span de la declaración de un nombre: como variable, función, struct, enum o rasgo, en
/// ese orden.
pub open spec fn declaracion_de(ix: IndiceSemantico, n: Seq<char>) -> Option<Span> {
    let vs = mapa_de(ix.variables@);
    let fs = mapa_de(ix.funciones@);
    let ss = mapa_de(ix.structs@);
    let es = mapa_de(ix.enums@);
    let ts = mapa_de(ix.traits@);
    if vs.contains_key(n) {
        Some(vs[n].4)
    } else if fs.contains_key(n) {
        Some(fs[n].4)
    } else if ss.contains_key(n) {
        Some(ss[n].2)
    } else if es.contains_key(n) {
        Some(es[n].2)
    } else if ts.contains_key(n) {
        Some(ts[n].2)
    } else {
        None
    }
}

/// Identificador bajo una posición del protocolo (se pasa a líneas y columnas desde 1).
pub open spec fn identificador_bajo(doc: DocumentoLsp, pos: PosicionLsp) -> Option<Seq<char>> {
    match doc.ast {
        Some(p) => buscar_en_funciones(p.declaraciones@, (pos.linea + 1) as u32, (pos.caracter + 1) as u32),
        None => None,
    }
}

/// Posición que se puede pasar a líneas y columnas desde 1 sin desbordar.
pub open spec fn posicion_valida(pos: PosicionLsp) -> bool {
    pos.linea < u32::MAX && pos.caracter < u32::MAX
}

impl DocumentoLsp {
    /// El documento está bien formado si su índice lo está.
    pub open spec fn bien_formado(&self) -> bool {
        self.indice.bien_formado()
    }

    /// Identificador en una posición del protocolo.
    fn identificador_en(&self, pos: PosicionLsp) -> (r: Option<String>)
        requires
            posicion_valida(pos),
        ensures
            vista_opcion(r) == identificador_bajo(*self, pos),
    {
        // Posición del protocolo (desde 0) a la de Mejia (desde 1)
        let linea = pos.linea + 1;
        let columna = pos.caracter + 1;
        match &self.ast {
            Some(ast) => self.indice.identificador_en_posicion(ast, linea, columna),
            None => None,
        }
    }

    /// Rango de la declaración del identificador bajo la posición.
    pub fn definicion(&self, pos: PosicionLsp) -> (r: Option<RangoLsp>)
        requires
            self.bien_formado(),
            posicion_valida(pos),
        ensures
            r == match identificador_bajo(*self, pos) {
                Some(n) => match declaracion_de(self.indice, n) {
                    Some(sp) => Some(rango_de(sp)),
                    None => None,
                },
                None => None,
            },
    {
        let ident = match self.identificador_en(pos) {
            Some(i) => i,
            None => return None,
        };
        let nombre = ident.as_str();
        let span = if let Some(v) = obtener(&self.indice.variables, nombre) {
            &v.span_declaracion
        } else if let Some(f) = obtener(&self.indice.funciones, nombre) {
            &f.span_declaracion
        } else if let Some(s) = obtener(&self.indice.structs, nombre) {
            &s.span_declaracion
        } else if let Some(e) = obtener(&self.indice.enums, nombre) {
            &e.span_declaracion
        } else if let Some(t) = obtener(&self.indice.traits, nombre) {
            &t.span_declaracion
        } else {
            return None;
        };
        Some(span_a_rango(span))
    }

    /// Hover (Markdown) del identificador bajo la posición.
    pub fn hover(&self, pos: PosicionLsp) -> (r: Option<String>)
        requires
            self.bien_formado(),
            posicion_valida(pos),
        ensures
            vista_opcion(r) == match identificador_bajo(*self, pos) {
                Some(n) => hover_de(self.indice, n),
                None => None,
            },
    {
        match self.identificador_en(pos) {
            Some(ident) => hover_para_identificador(&self.indice, ident.as_str()),
            None => None,
        }
    }

    /// Rangos de todas las referencias al identificador bajo la posición.
    pub fn referencias(&self, pos: PosicionLsp) -> (r: Option<Vec<RangoLsp>>)
        requires
            self.bien_formado(),
            posicion_valida(pos),
        ensures
            match identificador_bajo(*self, pos) {
                Some(n) => r matches Some(v) && v@ == (declaracion_en(
                    mapa_de(self.indice.variables@),
                    n,
                    |v: (Seq<char>, Seq<char>, Seq<char>, Seq<char>, Span)| v.4,
                ) + declaracion_en(
                    mapa_de(self.indice.funciones@),
                    n,
                    |f: (Seq<char>, Option<Seq<char>>, Seq<Seq<char>>, Seq<(Seq<char>, Seq<char>)>, Span)|
                        f.4,
                ) + refs_en_funciones(self.ast->Some_0.declaraciones@, n)).map_values(
                    |sp: Span| rango_de(sp),
                ),
                None => r is None,
            },
    {
        let ident = match self.identificador_en(pos) {
            Some(i) => i,
            None => return None,
        };
        let ast = match &self.ast {
            Some(a) => a,
            None => return None,
        };
        let spans = self.indice.encontrar_referencias(ast, ident.as_str());
        let mut rangos: Vec<RangoLsp> = Vec::new();
        let mut i: usize = 0;
        while i < spans.len()
            invariant
                i <= spans@.len(),
                rangos@ == spans@.take(i as int).map_values(|sp: Span| rango_de(sp)),
            decreases spans@.len() - i,
        {
            rangos.push(span_a_rango(&spans[i]));
            proof {
                assert(spans@.take(i + 1).map_values(|sp: Span| rango_de(sp)) =~= spans@.take(
                    i as int,
                ).map_values(|sp: Span| rango_de(sp)).push(rango_de(spans@[i as int])));
            }
            i = i + 1;
        }
        proof {
            assert(spans@.take(i as int) =~= spans@);
        }
        Some(rangos)
    }
}

/// Clase de un símbolo del documento.
#[derive(Debug, Clone, Copy, PartialEq, Eq, Structural)]
pub enum ClaseSimbolo {
    Funcion,
    Campo,
    Estructura,
    MiembroEnum,
    Enumeracion,
    Interfaz,
}

/// Símbolo del documento para el esquema del editor.
#[derive(Debug)]
pub struct SimboloLsp {
    pub nombre: String,
    pub clase: ClaseSimbolo,
    pub rango: RangoLsp,
    pub rango_seleccion: RangoLsp,
    pub detalle: String,
    pub hijos: Option<Vec<SimboloLsp>>,
}

/// Rango vacío al principio del documento (el de los campos y variantes).
pub open spec fn rango_cero() -> RangoLsp {
    RangoLsp { inicio: PosicionLsp { linea: 0, caracter: 0 }, fin: PosicionLsp { linea: 0, caracter: 0 } }
}

/// `nombre: tipo` de cada par, separados por `, `.
pub open spec fn pares_unidos(ps: Seq<(Seq<char>, Seq<char>)>) -> Seq<char> {
    unidos(ps.map_values(|p: (Seq<char>, Seq<char>)| p.0 + ": "@ + p.1), ", "@)
}

/// Símbolo hoja: sin hijos y con ese nombre, clase, rango y detalle.
pub open spec fn es_hoja(s: SimboloLsp, nombre: Seq<char>, clase: ClaseSimbolo, rango: RangoLsp, detalle: Seq<char>) -> bool {
    &&& s.nombre@ == nombre
    &&& s.clase == clase
    &&& s.rango == rango
    &&& s.rango_seleccion == rango
    &&& s.detalle@ == detalle
    &&& s.hijos is None
}

/// Símbolo de una función: `nombre(a: T, ...) -> retorno`.
pub open spec fn simbolo_de_funcion(s: SimboloLsp, f: InfoFuncionLsp) -> bool {
    es_hoja(
        s,
        f.nombre@,
        ClaseSimbolo::Funcion,
        rango_de(f.span_declaracion),
        f.nombre@ + "("@ + pares_unidos(vistas_pares(f.parametros_raw@)) + ") -> "@ + o_bien(
            vista_opcion(f.retorno),
            "Vacío"@,
        ),
    )
}

/// Símbolo de un struct, con un hijo por campo.
pub open spec fn simbolo_de_struct(s: SimboloLsp, e: InfoStructLsp) -> bool {
    &&& s.nombre@ == e.nombre@
    &&& s.clase == ClaseSimbolo::Estructura
    &&& s.rango == rango_de(e.span_declaracion)
    &&& s.rango_seleccion == rango_de(e.span_declaracion)
    &&& s.detalle@ == "estructural ("@ + decimal(e.campos@.len()) + " campos)"@
    &&& s.hijos matches Some(hs) && hs@.len() == e.campos@.len() && forall|j: int|
        0 <= j < hs@.len() ==> es_hoja(
            #[trigger] hs@[j],
            e.campos@[j].0@,
            ClaseSimbolo::Campo,
            rango_cero(),
            e.campos@[j].1@,
        )
}

/// Símbolo de un enum, con un hijo por variante (su dato, o `—`).
pub open spec fn simbolo_de_enum(s: SimboloLsp, e: InfoEnumLsp) -> bool {
    &&& s.nombre@ == e.nombre@
    &&& s.clase == ClaseSimbolo::Enumeracion
    &&& s.rango == rango_de(e.span_declaracion)
    &&& s.rango_seleccion == rango_de(e.span_declaracion)
    &&& s.detalle@ == "enumeración ("@ + decimal(e.variantes@.len()) + " variantes)"@
    &&& s.hijos matches Some(hs) && hs@.len() == e.variantes@.len() && forall|j: int|
        0 <= j < hs@.len() ==> es_hoja(
            #[trigger] hs@[j],
            e.variantes@[j].0@,
            ClaseSimbolo::MiembroEnum,
            rango_cero(),
            o_bien(vista_opcion(e.variantes@[j].1), "—"@),
        )
}

/// Símbolo de un rasgo.
pub open spec fn simbolo_de_rasgo(s: SimboloLsp, t: InfoTraitLsp) -> bool {
    es_hoja(
        s,
        t.nombre@,
        ClaseSimbolo::Interfaz,
        rango_de(t.span_declaracion),
        "rasgo ("@ + decimal(t.metodos@.len()) + " métodos)"@,
    )
}

/// Los símbolos son, en orden, uno por función, struct, enum y rasgo del índice.
pub open spec fn simbolos_del_indice(v: Seq<SimboloLsp>, ix: IndiceSemantico) -> bool {
    let nf = ix.funciones@.len();
    let ns = ix.structs@.len();
    let ne = ix.enums@.len();
    let nt = ix.traits@.len();
    &&& v.len() == nf + ns + ne + nt
    &&& forall|k: int| 0 <= k < nf ==> simbolo_de_funcion(#[trigger] v[k], ix.funciones@[k].1)
    &&& forall|k: int| 0 <= k < ns ==> simbolo_de_struct(#[trigger] v[nf + k], ix.structs@[k].1)
    &&& forall|k: int| 0 <= k < ne ==> simbolo_de_enum(#[trigger] v[nf + ns + k], ix.enums@[k].1)
    &&& forall|k: int| 0 <= k < nt ==> simbolo_de_rasgo(#[trigger] v[nf + ns + ne + k], ix.traits@[k].1)
}

/// Agrega `nombre: tipo` de cada par, separados por `, `.
fn agregar_pares_unidos(s: &mut String, ps: &Vec<(String, String)>)
    ensures
        final(s)@ == old(s)@ + pares_unidos(vistas_pares(ps@)),
{
    let mut textos: Vec<String> = Vec::new();
    let mut i: usize = 0;
    while i < ps.len()
        invariant
            i <= ps@.len(),
            textos@.len() == i,
            forall|k: int| 0 <= k < i ==> (#[trigger] textos@[k])@ == ps@[k].0@ + ": "@ + ps@[k].1@,
        decreases ps@.len() - i,
    {
        let mut t = ps[i].0.clone();
        agregar(&mut t, ": ");
        agregar(&mut t, ps[i].1.as_str());
        textos.push(t);
        i = i + 1;
    }
    let unido = unir(&textos, ", ");
    proof {
        assert(textos@.map_values(|t: String| t@) =~= vistas_pares(ps@).map_values(
            |p: (Seq<char>, Seq<char>)| p.0 + ": "@ + p.1,
        ));
    }
    agregar(s, unido.as_str());
}

/// Símbolos del documento para el esquema: funciones, structs (con sus campos), enums (con
/// sus variantes) y rasgos; nada si el índice está vacío de ellos.
pub fn simbolos_del_documento(indice: &IndiceSemantico) -> (r: Option<Vec<SimboloLsp>>)
    ensures
        match r {
            Some(v) => v@.len() > 0 && simbolos_del_indice(v@, *indice),
            None => indice.funciones@.len() + indice.structs@.len() + indice.enums@.len()
                + indice.traits@.len() == 0,
        },
{
    let mut simbolos: Vec<SimboloLsp> = Vec::new();
    let ghost nf = indice.funciones@.len();
    let ghost ns = indice.structs@.len();
    let ghost ne = indice.enums@.len();
    // Funciones
    let mut i: usize = 0;
    while i < indice.funciones.len()
        invariant
            i <= nf,
            nf == indice.funciones@.len(),
            simbolos@.len() == i,
            forall|k: int| 0 <= k < i ==> simbolo_de_funcion(#[trigger] simbolos@[k], indice.funciones@[k].1),
        decreases nf - i,
    {
        let func = &indice.funciones[i].1;
        let mut detalle = func.nombre.clone();
        agregar(&mut detalle, "(");
        agregar_pares_unidos(&mut detalle, &func.parametros_raw);
        agregar(&mut detalle, ") -> ");
        match &func.retorno {
            Some(r) => agregar(&mut detalle, r.as_str()),
            None => agregar(&mut detalle, "Vacío"),
        }
        let rango = span_a_rango(&func.span_declaracion);
        simbolos.push(
            SimboloLsp {
                nombre: func.nombre.clone(),
                clase: ClaseSimbolo::Funcion,
                rango,
                rango_seleccion: rango,
                detalle,
                hijos: None,
            },
        );
        i = i + 1;
    }
    // Structs
    let mut i: usize = 0;
    while i < indice.structs.len()
        invariant
            i <= ns,
            nf == indice.funciones@.len(),
            ns == indice.structs@.len(),
            simbolos@.len() == nf + i,
            forall|k: int| 0 <= k < nf ==> simbolo_de_funcion(#[trigger] simbolos@[k], indice.funciones@[k].1),
            forall|k: int| 0 <= k < i ==> simbolo_de_struct(#[trigger] simbolos@[nf + k], indice.structs@[k].1),
        decreases ns - i,
    {
        let st = &indice.structs[i].1;
        let mut campos: Vec<SimboloLsp> = Vec::new();
        let mut j: usize = 0;
        while j < st.campos.len()
            invariant
                j <= st.campos@.len(),
                campos@.len() == j,
                forall|q: int|
                    0 <= q < j ==> es_hoja(
                        #[trigger] campos@[q],
                        st.campos@[q].0@,
                        ClaseSimbolo::Campo,
                        rango_cero(),
                        st.campos@[q].1@,
                    ),
            decreases st.campos@.len() - j,
        {
            let cero = RangoLsp {
                inicio: PosicionLsp { linea: 0, caracter: 0 },
                fin: PosicionLsp { linea: 0, caracter: 0 },
            };
            campos.push(
                SimboloLsp {
                    nombre: st.campos[j].0.clone(),
                    clase: ClaseSimbolo::Campo,
                    rango: cero,
                    rango_seleccion: cero,
                    detalle: st.campos[j].1.clone(),
                    hijos: None,
                },
            );
            j = j + 1;
        }
        let mut detalle = texto("estructural (");
        agregar_decimal(&mut detalle, st.campos.len() as u64);
        agregar(&mut detalle, " campos)");
        let rango = span_a_rango(&st.span_declaracion);
        simbolos.push(
            SimboloLsp {
                nombre: st.nombre.clone(),
                clase: ClaseSimbolo::Estructura,
                rango,
                rango_seleccion: rango,
                detalle,
                hijos: Some(campos),
            },
        );
        i = i + 1;
    }
    // Enums
    let mut i: usize = 0;
    while i < indice.enums.len()
        invariant
            i <= ne,
            nf == indice.funciones@.len(),
            ns == indice.structs@.len(),
            ne == indice.enums@.len(),
            simbolos@.len() == nf + ns + i,
            forall|k: int| 0 <= k < nf ==> simbolo_de_funcion(#[trigger] simbolos@[k], indice.funciones@[k].1),
            forall|k: int| 0 <= k < ns ==> simbolo_de_struct(#[trigger] simbolos@[nf + k], indice.structs@[k].1),
            forall|k: int| 0 <= k < i ==> simbolo_de_enum(#[trigger] simbolos@[nf + ns + k], indice.enums@[k].1),
        decreases ne - i,
    {
        let en = &indice.enums[i].1;
        let mut variantes: Vec<SimboloLsp> = Vec::new();
        let mut j: usize = 0;
        while j < en.variantes.len()
            invariant
                j <= en.variantes@.len(),
                variantes@.len() == j,
                forall|q: int|
                    0 <= q < j ==> es_hoja(
                        #[trigger] variantes@[q],
                        en.variantes@[q].0@,
                        ClaseSimbolo::MiembroEnum,
                        rango_cero(),
                        o_bien(vista_opcion(en.variantes@[q].1), "—"@),
                    ),
            decreases en.variantes@.len() - j,
        {
            let cero = RangoLsp {
                inicio: PosicionLsp { linea: 0, caracter: 0 },
                fin: PosicionLsp { linea: 0, caracter: 0 },
            };
            let detalle = match &en.variantes[j].1 {
                Some(t) => t.clone(),
                None => texto("—"),
            };
            variantes.push(
                SimboloLsp {
                    nombre: en.variantes[j].0.clone(),
                    clase: ClaseSimbolo::MiembroEnum,
                    rango: cero,
                    rango_seleccion: cero,
                    detalle,
                    hijos: None,
                },
            );
            j = j + 1;
        }
        let mut detalle = texto("enumeración (");
        agregar_decimal(&mut detalle, en.variantes.len() as u64);
        agregar(&mut detalle, " variantes)");
        let rango = span_a_rango(&en.span_declaracion);
        simbolos.push(
            SimboloLsp {
                nombre: en.nombre.clone(),
                clase: ClaseSimbolo::Enumeracion,
                rango,
                rango_seleccion: rango,
                detalle,
                hijos: Some(variantes),
            },
        );
        i = i + 1;
    }
    // Rasgos
    let mut i: usize = 0;
    while i < indice.traits.len()
        invariant
            i <= indice.traits@.len(),
            nf == indice.funciones@.len(),
            ns == indice.structs@.len(),
            ne == indice.enums@.len(),
            simbolos@.len() == nf + ns + ne + i,
            forall|k: int| 0 <= k < nf ==> simbolo_de_funcion(#[trigger] simbolos@[k], indice.funciones@[k].1),
            forall|k: int| 0 <= k < ns ==> simbolo_de_struct(#[trigger] simbolos@[nf + k], indice.structs@[k].1),
            forall|k: int| 0 <= k < ne ==> simbolo_de_enum(#[trigger] simbolos@[nf + ns + k], indice.enums@[k].1),
            forall|k: int| 0 <= k < i ==> simbolo_de_rasgo(#[trigger] simbolos@[nf + ns + ne + k], indice.traits@[k].1),
        decreases indice.traits@.len() - i,
    {
        let ra = &indice.traits[i].1;
        let mut detalle = texto("rasgo (");
        agregar_decimal(&mut detalle, ra.metodos.len() as u64);
        agregar(&mut detalle, " métodos)");
        let rango = span_a_rango(&ra.span_declaracion);
        simbolos.push(
            SimboloLsp {
                nombre: ra.nombre.clone(),
                clase: ClaseSimbolo::Interfaz,
                rango,
                rango_seleccion: rango,
                detalle,
                hijos: None,
            },
        );
        i = i + 1;
    }
    if simbolos.len() == 0 {
        None
    } else {
        Some(simbolos)
    }
}

/// Acción de código: un título y el diagnóstico al que responde.
#[derive(Debug)]
pub struct AccionCodigo {
    pub titulo: String,
    pub diagnostico: Diagnostico,
}

/// Título de la acción para un diagnóstico, si le corresponde alguna: revisar el tipo en
/// los errores `T001` y `T005`, usar `mover`/`copiar` en `O001`, y en los demás seguir la
/// sugerencia del compilador cuando el mensaje trae una.
pub open spec fn titulo_accion(d: Diagnostico) -> Option<Seq<char>> {
    if d.codigo@ == "T001"@ || d.codigo@ == "T005"@ {
        Some("💡 Revisar tipo (abre hover)"@)
    } else if d.codigo@ == "O001"@ {
        Some("🔧 Usar `mover` / `copiar` antes del uso"@)
    } else if exists|i: int| 0 <= i < d.mensaje@.len() && d.mensaje@[i] == '💡' {
        Some("💡 Seguir sugerencia del compilador"@)
    } else {
        None
    }
}

/// Acciones de los diagnósticos que empiezan en las líneas del rango pedido, en orden.
pub open spec fn acciones_de(ds: Seq<Diagnostico>, pedido: RangoLsp) -> Seq<(Seq<char>, Diagnostico)>
    decreases ds.len(),
{
    if ds.len() == 0 {
        Seq::empty()
    } else {
        let d = ds.last();
        acciones_de(ds.drop_last(), pedido) + if d.rango.inicio.linea >= pedido.inicio.linea
            && d.rango.inicio.linea <= pedido.fin.linea {
            match titulo_accion(d) {
                Some(t) => seq![(t, d)],
                None => Seq::empty(),
            }
        } else {
            Seq::empty()
        }
    }
}

/// ¿Aparece el carácter en el texto?
fn contiene_caracter(s: &String, c: char) -> (r: bool)
    ensures
        r == exists|i: int| 0 <= i < s@.len() && s@[i] == c,
{
    let cs = caracteres(s.as_str());
    let mut i: usize = 0;
    while i < cs.len()
        invariant
            cs@ == s@,
            i <= cs@.len(),
            forall|k: int| 0 <= k < i ==> cs@[k] != c,
        decreases cs@.len() - i,
    {
        if cs[i] == c {
            return true;
        }
        i = i + 1;
    }
    false
}

/// Acciones rápidas para los diagnósticos dentro del rango pedido; nada si no hay ninguna.
pub fn acciones_de_codigo(diagnosticos: &Vec<Diagnostico>, pedido: &RangoLsp) -> (r: Option<Vec<AccionCodigo>>)
    ensures
        match r {
            Some(v) => v@.len() > 0 && v@.map_values(|a: AccionCodigo| (a.titulo@, a.diagnostico))
                == acciones_de(diagnosticos@, *pedido),
            None => acciones_de(diagnosticos@, *pedido).len() == 0,
        },
{
    let mut acciones: Vec<AccionCodigo> = Vec::new();
    let mut i: usize = 0;
    while i < diagnosticos.len()
        invariant
            i <= diagnosticos@.len(),
            acciones@.map_values(|a: AccionCodigo| (a.titulo@, a.diagnostico)) == acciones_de(
                diagnosticos@.take(i as int),
                *pedido,
            ),
        decreases diagnosticos@.len() - i,
    {
        let diag = &diagnosticos[i];
        let ghost antes = acciones@;
        proof {
            assert(diagnosticos@.take(i + 1).drop_last() =~= diagnosticos@.take(i as int));
            assert(diagnosticos@.take(i + 1).last() == *diag);
        }
        // Solo acciones para errores en el rango solicitado
        if span_en_rango(diag.rango, pedido) {
            let titulo = if es_texto(&diag.codigo, "T001") || es_texto(&diag.codigo, "T005") {
                // Error de tipo: sugerencia de revisarlo
                Some(texto("💡 Revisar tipo (abre hover)"))
            } else if es_texto(&diag.codigo, "O001") {
                // Error de ownership (usar después de mover / mutar inmutable)
                Some(texto("🔧 Usar `mover` / `copiar` antes del uso"))
            } else if contiene_caracter(&diag.mensaje, '💡') {
                // Genérico: seguir la sugerencia del compilador
                Some(texto("💡 Seguir sugerencia del compilador"))
            } else {
                None
            };
            if let Some(t) = titulo {
                acciones.push(AccionCodigo { titulo: t, diagnostico: diag.copia() });
            }
        }
        proof {
            assert(acciones@.map_values(|a: AccionCodigo| (a.titulo@, a.diagnostico)) =~= acciones_de(
                diagnosticos@.take(i + 1),
                *pedido,
            ));
        }
        i = i + 1;
    }
    proof {
        assert(diagnosticos@.take(i as int) =~= diagnosticos@);
    }
    if acciones.len() == 0 {
        None
    } else {
        Some(acciones)
    }
}

/// Parámetro de una firma: `nombre: tipo` y, como documentación, el tipo.
#[derive(Debug)]
pub struct ParametroFirma {
    pub etiqueta: String,
    pub documentacion: String,
}

/// Firma de una función para la ayuda de firma.
#[derive(Debug)]
pub struct FirmaLsp {
    pub etiqueta: String,
    pub documentacion: String,
    pub parametros: Vec<ParametroFirma>,
}

/// La línea `k`, o vacío si no existe.
pub open spec fn linea_o_vacia(s: Seq<char>, k: nat) -> Seq<char> {
    match linea_n(s, k) {
        Some(l) => l,
        None => Seq::empty(),
    }
}

/// Último índice de un espacio en blanco.
pub open spec fn ultimo_espacio(s: Seq<char>) -> Option<int>
    decreases s.len(),
{
    if s.len() == 0 {
        None
    } else if espacio_blanco(s.last()) {
        Some(s.len() - 1)
    } else {
        ultimo_espacio(s.drop_last())
    }
}

/// Última palabra separada por espacios en blanco, si hay alguna.
pub open spec fn ultima_palabra(s: Seq<char>) -> Option<Seq<char>> {
    let u = sin_espacios_al_final(s);
    if u.len() == 0 {
        None
    } else {
        match ultimo_espacio(u) {
            Some(q) => Some(u.skip(q + 1)),
            None => Some(u),
        }
    }
}

/// La palabra que precede al último `(` antes del cursor (línea `k`, byte `b`).
pub open spec fn nombre_antes_de_parentesis(s: Seq<char>, k: nat, b: nat) -> Option<Seq<char>> {
    let a = corte(linea_o_vacia(s, k), b);
    match ultimo(a, '(') {
        Some(p) => ultima_palabra(recortado(a.take(p))),
        None => None,
    }
}

/// Un nombre de función: no vacío y hecho de letras, dígitos y `_`.
pub open spec fn nombre_de_funcion(n: Seq<char>) -> bool {
    n.len() > 0 && forall|i: int| 0 <= i < n.len() ==> alfanumerico(#[trigger] n[i]) || n[i] == '_'
}

/// El cursor cae en la línea entre dos caracteres (si no, no se puede cortar la línea ahí).
pub open spec fn cursor_valido(s: Seq<char>, pos: PosicionLsp) -> bool {
    &&& bytes_de(s) <= usize::MAX
    &&& bytes_de(corte(linea_o_vacia(s, pos.linea as nat), pos.caracter as nat)) == pos.caracter
}

/// La firma describe la función: etiqueta `nombre(a: T, ...) -> retorno`, documentación y
/// un parámetro por cada uno de la función.
pub open spec fn firma_de(r: FirmaLsp, f: VistaFuncion) -> bool {
    &&& r.etiqueta@ == f.0 + "("@ + pares_unidos(f.3) + ") -> "@ + o_bien(f.1, "Vacío"@)
    &&& r.documentacion@ == "Función `"@ + f.0 + "` de mejia"@
    &&& r.parametros@.len() == f.3.len()
    &&& forall|j: int|
        0 <= j < f.3.len() ==> (#[trigger] r.parametros@[j]).etiqueta@ == f.3[j].0 + ": "@ + f.3[j].1
            && r.parametros@[j].documentacion@ == f.3[j].1
}

/// Índices de la última palabra de `[x, y)`.
fn ultima_palabra_en(cs: &Vec<char>, x: usize, y: usize) -> (r: Option<(usize, usize)>)
    requires
        x <= y <= cs@.len(),
    ensures
        match r {
            Some((a, b)) => x <= a <= b <= y && ultima_palabra(cs@.subrange(x as int, y as int)) == Some(
                cs@.subrange(a as int, b as int),
            ),
            None => ultima_palabra(cs@.subrange(x as int, y as int)) is None,
        },
{
    let ghost s = cs@.subrange(x as int, y as int);
    let mut b: usize = y;
    proof {
        assert(cs@.subrange(x as int, b as int) =~= s);
    }
    while b > x && es_espacio(cs[b - 1])
        invariant
            x <= b <= y <= cs@.len(),
            s == cs@.subrange(x as int, y as int),
            sin_espacios_al_final(s) == sin_espacios_al_final(cs@.subrange(x as int, b as int)),
        decreases b,
    {
        proof {
            assert(cs@.subrange(x as int, b as int).drop_last() =~= cs@.subrange(x as int, b - 1));
        }
        b = b - 1;
    }
    let ghost u = cs@.subrange(x as int, b as int);
    if b == x {
        return None;
    }
    let mut q: usize = b;
    while q > x && !es_espacio(cs[q - 1])
        invariant
            x <= q <= b,
            b <= y <= cs@.len(),
            u == cs@.subrange(x as int, b as int),
            ultimo_espacio(u) == ultimo_espacio(cs@.subrange(x as int, q as int)),
        decreases q,
    {
        proof {
            assert(cs@.subrange(x as int, q as int).drop_last() =~= cs@.subrange(x as int, q - 1));
        }
        q = q - 1;
    }
    proof {
        if q > x {
            assert(ultimo_espacio(cs@.subrange(x as int, q as int)) == Some(q - 1 - x));
            assert(u.skip(q - x) =~= cs@.subrange(q as int, b as int));
        } else {
            assert(u =~= cs@.subrange(q as int, b as int));
        }
    }
    Some((q, b))
}

impl DocumentoLsp {
    /// Ayuda de firma: la función cuyo nombre precede al último `(` antes del cursor, si el
    /// índice la conoce.
    pub fn ayuda_de_firma(&self, pos: PosicionLsp) -> (r: Option<FirmaLsp>)
        requires
            self.bien_formado(),
            cursor_valido(self.contenido@, pos),
        ensures
            match nombre_antes_de_parentesis(self.contenido@, pos.linea as nat, pos.caracter as nat) {
                Some(n) => if nombre_de_funcion(n) && mapa_de(self.indice.funciones@).contains_key(n) {
                    r matches Some(f) && firma_de(f, mapa_de(self.indice.funciones@)[n])
                } else {
                    r is None
                },
                None => r is None,
            },
    {
        let cs = caracteres(self.contenido.as_str());
        let linea: Vec<char> = match buscar_linea(&cs, pos.linea as usize) {
            Some((a, b)) => tramo(&cs, a, b),
            None => Vec::new(),
        };
        proof {
            assert(linea@ =~= linea_o_vacia(self.contenido@, pos.linea as nat));
        }
        // Lo que hay antes del cursor
        let largo = cortar(&linea, pos.caracter as usize);
        let paren = match ultimo_en(&linea, largo, '(') {
            Some(p) => p,
            None => return None,
        };
        proof {
            assert(linea@.subrange(0, paren as int) =~= linea@.take(largo as int).take(paren as int));
        }
        let (x, y) = recortar(&linea, 0, paren);
        let (a, b) = match ultima_palabra_en(&linea, x, y) {
            Some(r) => r,
            None => return None,
        };
        let palabra = tramo(&linea, a, b);
        proof {
            assert(nombre_antes_de_parentesis(self.contenido@, pos.linea as nat, pos.caracter as nat)
                == Some(palabra@));
        }
        // Solo letras, dígitos y `_`
        if palabra.len() == 0 {
            return None;
        }
        let mut i: usize = 0;
        while i < palabra.len()
            invariant
                i <= palabra@.len(),
                forall|k: int| 0 <= k < i ==> alfanumerico(#[trigger] palabra@[k]) || palabra@[k] == '_',
                nombre_antes_de_parentesis(self.contenido@, pos.linea as nat, pos.caracter as nat)
                    == Some(palabra@),
            decreases palabra@.len() - i,
        {
            if !(es_alfanumerico(palabra[i]) || palabra[i] == '_') {
                proof {
                    assert(!nombre_de_funcion(palabra@));
                }
                return None;
            }
            i = i + 1;
        }
        let nombre = texto_de_caracteres(palabra.as_slice());
        let func = match obtener(&self.indice.funciones, nombre.as_str()) {
            Some(f) => f,
            None => return None,
        };
        let mut parametros: Vec<ParametroFirma> = Vec::new();
        let mut j: usize = 0;
        while j < func.parametros_raw.len()
            invariant
                j <= func.parametros_raw@.len(),
                parametros@.len() == j,
                forall|k: int|
                    0 <= k < j ==> (#[trigger] parametros@[k]).etiqueta@ == func.parametros_raw@[k].0@
                        + ": "@ + func.parametros_raw@[k].1@ && parametros@[k].documentacion@
                        == func.parametros_raw@[k].1@,
            decreases func.parametros_raw@.len() - j,
        {
            let mut etiqueta = func.parametros_raw[j].0.clone();
            agregar(&mut etiqueta, ": ");
            agregar(&mut etiqueta, func.parametros_raw[j].1.as_str());
            parametros.push(
                ParametroFirma { etiqueta, documentacion: func.parametros_raw[j].1.clone() },
            );
            j = j + 1;
        }
        let mut etiqueta = func.nombre.clone();
        agregar(&mut etiqueta, "(");
        agregar_pares_unidos(&mut etiqueta, &func.parametros_raw);
        agregar(&mut etiqueta, ") -> ");
        match &func.retorno {
            Some(r) => agregar(&mut etiqueta, r.as_str()),
            None => agregar(&mut etiqueta, "Vacío"),
        }
        let mut documentacion = texto("Función `");
        agregar(&mut documentacion, func.nombre.as_str());
        agregar(&mut documentacion, "` de mejia");
        Some(FirmaLsp { etiqueta, documentacion, parametros })
    }
}

/// `d` es el diagnóstico que `error_a_diagnostico` da para el error `e`.
pub open spec fn diagnostico_de(d: Diagnostico, e: ErrorCompilador) -> bool {
    &&& d.rango == rango_de(e.span)
    &&& d.severidad == severidad_de(e.categoria)
    &&& d.codigo@ == codigo_de(e.categoria, e.codigo)
    &&& d.fuente@ == "mejia"@
    &&& d.mensaje@ == mensaje_diagnostico(e)
}

/// `ds` son los diagnósticos de los errores `es`, uno por error y en su orden.
pub open spec fn diagnosticos_de(ds: Seq<Diagnostico>, es: Seq<ErrorSintaxis>) -> bool {
    &&& ds.len() == es.len()
    &&& forall|i: int| 0 <= i < ds.len() ==> diagnostico_de(#[trigger] ds[i], es[i].error)
}

/// Analiza un documento: lo tokeniza y lo parsea (con éxito exactamente cuando no hay errores
/// léxicos y los tokens forman un programa); si el parser falla, devuelve un
/// diagnóstico por error del parser, en su orden, un índice vacío y ningún AST (con errores
/// léxicos, uno por cada token inválido); si no, el índice del AST y el AST, sin
/// diagnósticos.
pub fn analizar_documento(archivo: &str, contenido: &str) -> (r: (Vec<Diagnostico>, IndiceSemantico, Option<Programa>))
    requires
        contenido@.len() < u32::MAX,
    ensures
        r.1.bien_formado(),
        forall|i: int| 0 <= i < r.0@.len() ==> (#[trigger] r.0@[i]).fuente@ == "mejia"@,
        match r.2 {
            Some(p) => {
                &&& r.0@.len() == 0
                &&& p.span.es_vacio()
                &&& mapa_de(r.1.variables@) == variables_de(p.declaraciones@)
                &&& mapa_de(r.1.funciones@) == funciones_de(p.declaraciones@)
                &&& mapa_de(r.1.structs@) == structs_de(p.declaraciones@)
                &&& mapa_de(r.1.enums@) == enums_de(p.declaraciones@)
                &&& mapa_de(r.1.traits@) == rasgos_de(p.declaraciones@)
            },
            None => {
                &&& r.0@.len() > 0
                &&& r.1.variables@.len() == 0
                &&& r.1.funciones@.len() == 0
                &&& r.1.structs@.len() == 0
                &&& r.1.enums@.len() == 0
                &&& r.1.traits@.len() == 0
            },
        },
        exists|ts| #[trigger]
            tokens_del_texto(ts, contenido@, archivo@) && (r.2 is Some <==> sin_errores_lexicos(ts)
                && programa_desde(ts, 0)) && (r.2 is None ==> exists|es: Seq<ErrorSintaxis>|
                #[trigger] diagnosticos_de(r.0@, es) && (!sin_errores_lexicos(ts) ==> errores_lexicos(
                ts,
                es,
            )) && (sin_errores_lexicos(ts) ==> errores_de_recorrido(ts, es))),
{
    let mut diagnosticos: Vec<Diagnostico> = Vec::new();
    // 1. Lexer
    let lexer = LexerMejia::nuevo(texto(contenido), texto(archivo));
    let tokens = lexer.tokenizar();
    let ghost ts = tokens@;
    // 2. Parser
    let programa = match ParserMejia::parse(tokens) {
        Ok(p) => p,
        Err(errores) => {
            let mut i: usize = 0;
            while i < errores.len()
                invariant
                    i <= errores@.len(),
                    diagnosticos@.len() == i,
                    forall|k: int| 0 <= k < i ==> (#[trigger] diagnosticos@[k]).fuente@ == "mejia"@,
                    forall|k: int| 0 <= k < i ==> diagnostico_de(#[trigger] diagnosticos@[k], errores@[k].error),
                decreases errores@.len() - i,
            {
                diagnosticos.push(error_a_diagnostico(&errores[i].error));
                i = i + 1;
            }
            let r = (diagnosticos, IndiceSemantico::nuevo(), None);
            assert(diagnosticos_de(r.0@, errores@) && (!sin_errores_lexicos(ts) ==> errores_lexicos(ts, errores@)));

            assert(tokens_del_texto(ts, contenido@, archivo@) && (!sin_errores_lexicos(ts) ==> r.2 is None));
            return r;
        },
    };
    // 3. Índice semántico
    let indice = IndiceSemantico::desde_ast(&programa);
    let r = (diagnosticos, indice, Some(programa));
    assert(tokens_del_texto(ts, contenido@, archivo@) && (!sin_errores_lexicos(ts) ==> r.2 is None));
    r
}

impl DocumentoLsp {
    /// Autocompletado en una línea: el catálogo fijo seguido de los elementos del documento.
    pub fn autocompletado(&self, linea: u32) -> (r: Vec<ElementoCompletado>)
        requires
            self.bien_formado(),
            linea_legible(self.contenido@, linea as nat),
        ensures
            vistas_elementos(r@) == catalogo_completado() + elementos_de_contexto(
                self.indice,
                self.contenido@,
                linea as nat,
            ),
    {
        let mut items = items_autocompletado();
        anexar(&mut items, items_autocompletado_contexto(&self.indice, self.contenido.as_str(), linea));
        items
    }
}

} // verus!
