use vstd::prelude::*;
use vstd::std_specs::convert::FromSpecImpl;
use crate::span::Span;
use crate::error::{CategoriaError, ErrorCompilador};
use crate::texto::{agregar, texto};

verus! {

/// Error específico de parsing con código [S###]
#[derive(Debug, Clone)]
pub struct ErrorSintaxis {
    pub error: ErrorCompilador,
}

/// Mensaje de `ErrorSintaxis::token_inesperado`.
pub open spec fn mensaje_token_inesperado(esperado: Seq<char>, encontrado: Option<Seq<char>>) -> Seq<char> {
    match encontrado {
        Some(t) => "token inesperado: '"@ + t + "', esperaba: '"@ + esperado + "'"@,
        None => "fin de archivo inesperado, esperaba: '"@ + esperado + "'"@,
    }
}

/// Mensaje de `ErrorSintaxis::esperaba`.
pub open spec fn mensaje_esperaba(esperado: Seq<char>, encontrado: Option<Seq<char>>) -> Seq<char> {
    match encontrado {
        Some(t) => "esperaba '"@ + esperado + "', encontrado: '"@ + t + "'"@,
        None => "esperaba '"@ + esperado + "', pero llegó al final del archivo"@,
    }
}

/// Vista de un texto opcional prestado.
pub open spec fn vista_str(o: Option<&str>) -> Option<Seq<char>> {
    match o {
        Some(s) => Some(s@),
        None => None,
    }
}

impl ErrorSintaxis {
    /// El error es de sintaxis, con el código, el span y el mensaje dados, y sin sugerencia.
    pub open spec fn es(self, codigo: u32, span: Span, mensaje: Seq<char>) -> bool {
        &&& self.error.categoria == CategoriaError::Sintaxis
        &&& self.error.codigo == codigo
        &&& self.error.span == span
        &&& self.error.mensaje@ == mensaje
    }

    /// La sugerencia del error es el texto dado.
    pub open spec fn sugiere(self, sugerencia: Seq<char>) -> bool {
        self.error.sugerencia matches Some(s) && s@ == sugerencia
    }

    /// Crea un error de sintaxis genérico
    pub fn nuevo(codigo: u32, span: Span, mensaje: String) -> (r: Self)
        ensures
            r.es(codigo, span, mensaje@),
            r.error.sugerencia is None,
    {
        ErrorSintaxis { error: ErrorCompilador::nuevo(CategoriaError::Sintaxis, codigo, span, mensaje) }
    }

    /// Token inesperado encontrado (S001)
    pub fn token_inesperado(span: Span, esperado: &str, encontrado: Option<&str>) -> (r: Self)
        ensures
            r.es(1, span, mensaje_token_inesperado(esperado@, vista_str(encontrado))),
            r.sugiere("revisa la sintaxis cerca de esta posición"@),
    {
        let msg = match encontrado {
            Some(t) => {
                let mut m = texto("token inesperado: '");
                agregar(&mut m, t);
                agregar(&mut m, "', esperaba: '");
                agregar(&mut m, esperado);
                agregar(&mut m, "'");
                m
            },
            None => {
                let mut m = texto("fin de archivo inesperado, esperaba: '");
                agregar(&mut m, esperado);
                agregar(&mut m, "'");
                m
            },
        };
        Self::nuevo(1, span, msg).con_sugerencia(texto("revisa la sintaxis cerca de esta posición"))
    }

    /// Fin de archivo inesperado (S002)
    pub fn fin_archivo_inesperado(span: Span) -> (r: Self)
        ensures
            r.es(2, span, "fin de archivo inesperado"@),
            r.sugiere("revisa que todas las llaves y paréntesis estén cerrados"@),
    {
        Self::nuevo(2, span, texto("fin de archivo inesperado")).con_sugerencia(
            texto("revisa que todas las llaves y paréntesis estén cerrados"),
        )
    }

    /// Se esperaba un token específico (S003)
    pub fn esperaba(span: Span, esperado: &str, encontrado: Option<&str>) -> (r: Self)
        ensures
            r.es(3, span, mensaje_esperaba(esperado@, vista_str(encontrado))),
            r.error.sugerencia is None,
    {
        let msg = match encontrado {
            Some(t) => {
                let mut m = texto("esperaba '");
                agregar(&mut m, esperado);
                agregar(&mut m, "', encontrado: '");
                agregar(&mut m, t);
                agregar(&mut m, "'");
                m
            },
            None => {
                let mut m = texto("esperaba '");
                agregar(&mut m, esperado);
                agregar(&mut m, "', pero llegó al final del archivo");
                m
            },
        };
        Self::nuevo(3, span, msg)
    }

    /// Identificador esperado (S004)
    pub fn identificador_esperado(span: Span, contexto: &str) -> (r: Self)
        ensures
            r.es(4, span, "esperaba identificador para "@ + contexto@),
            r.error.sugerencia is None,
    {
        let mut m = texto("esperaba identificador para ");
        agregar(&mut m, contexto);
        Self::nuevo(4, span, m)
    }

    /// Expresión esperada (S005)
    pub fn expresion_esperada(span: Span) -> (r: Self)
        ensures
            r.es(5, span, "esperaba una expresión"@),
            r.sugiere("verifica que la expresión esté completa"@),
    {
        Self::nuevo(5, span, texto("esperaba una expresión")).con_sugerencia(
            texto("verifica que la expresión esté completa"),
        )
    }

    /// Tipo esperado (S006)
    pub fn tipo_esperado(span: Span) -> (r: Self)
        ensures
            r.es(6, span, "esperaba un tipo"@),
            r.sugiere(
                "los tipos válidos son: Entero8-64, Natural8-64, Flotante32/64, Booleano, Caracter, Palabra, Texto, Vector<T>, Vacío"@,
            ),
    {
        Self::nuevo(6, span, texto("esperaba un tipo")).con_sugerencia(
            texto(
                "los tipos válidos son: Entero8-64, Natural8-64, Flotante32/64, Booleano, Caracter, Palabra, Texto, Vector<T>, Vacío",
            ),
        )
    }

    /// Artículo esperado (S007)
    pub fn articulo_esperado(span: Span) -> (r: Self)
        ensures
            r.es(7, span, "esperaba artículo (el, la, un, los, las)"@),
            r.sugiere("recuerda: 'el'=mutable, 'la'=inmutable, 'un'=opcional"@),
    {
        Self::nuevo(7, span, texto("esperaba artículo (el, la, un, los, las)")).con_sugerencia(
            texto("recuerda: 'el'=mutable, 'la'=inmutable, 'un'=opcional"),
        )
    }

    /// Carácter/token inválido en el lexer (S008)
    pub fn token_invalido(span: Span, texto_invalido: &str) -> (r: Self)
        ensures
            r.es(8, span, "carácter no válido: '"@ + texto_invalido@ + "'"@),
            r.sugiere("revisa que no haya símbolos extraños o caracteres no soportados"@),
    {
        let mut m = texto("carácter no válido: '");
        agregar(&mut m, texto_invalido);
        agregar(&mut m, "'");
        Self::nuevo(8, span, m).con_sugerencia(
            texto("revisa que no haya símbolos extraños o caracteres no soportados"),
        )
    }

    pub fn con_sugerencia(self, sugerencia: String) -> (r: Self)
        ensures
            r.error.categoria == self.error.categoria,
            r.error.codigo == self.error.codigo,
            r.error.span == self.error.span,
            r.error.mensaje == self.error.mensaje,
            r.error.sugerencia == Some(sugerencia),
    {
        ErrorSintaxis { error: self.error.con_sugerencia(sugerencia) }
    }
}

impl From<ErrorSintaxis> for ErrorCompilador {
    fn from(e: ErrorSintaxis) -> (r: ErrorCompilador) {
        e.error
    }
}

impl FromSpecImpl<ErrorSintaxis> for ErrorCompilador {
    open spec fn obeys_from_spec() -> bool {
        true
    }

    open spec fn from_spec(e: ErrorSintaxis) -> ErrorCompilador {
        e.error
    }
}

} // verus!
