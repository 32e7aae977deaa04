use vstd::prelude::*;
use crate::span::Span;
use crate::texto::{agregar, agregar_decimal, agregar_decimal_relleno, decimal, decimal_relleno, texto};

verus! {

/// Categorías de error
#[derive(Debug, Clone, Copy, PartialEq, Eq, Structural)]
pub enum CategoriaError {
    Sintaxis,    // S001-S099
    Tipo,        // T001-T099
    Ownership,   // O001-O099
    FFI,         // C001-C099
    Modulos,     // M001-M099
    Interno,     // I001-I099
    Warning,     // W001-W099
}

impl CategoriaError {
    /// Letra con la que empieza el código de los errores de esta categoría.
    pub open spec fn letra(self) -> char {
        match self {
            CategoriaError::Sintaxis => 'S',
            CategoriaError::Tipo => 'T',
            CategoriaError::Ownership => 'O',
            CategoriaError::FFI => 'C',
            CategoriaError::Modulos => 'M',
            CategoriaError::Interno => 'I',
            CategoriaError::Warning => 'W',
        }
    }

    pub fn prefijo(self) -> (r: &'static str)
        ensures
            r@ == seq![self.letra()],
    {
        match self {
            CategoriaError::Sintaxis => {
                proof { reveal_strlit("S"); }
                "S"
            },
            CategoriaError::Tipo => {
                proof { reveal_strlit("T"); }
                "T"
            },
            CategoriaError::Ownership => {
                proof { reveal_strlit("O"); }
                "O"
            },
            CategoriaError::FFI => {
                proof { reveal_strlit("C"); }
                "C"
            },
            CategoriaError::Modulos => {
                proof { reveal_strlit("M"); }
                "M"
            },
            CategoriaError::Interno => {
                proof { reveal_strlit("I"); }
                "I"
            },
            CategoriaError::Warning => {
                proof { reveal_strlit("W"); }
                "W"
            },
        }
    }
}

/// Error del compilador con código, span y mensaje
#[derive(Debug, Clone)]
pub struct ErrorCompilador {
    pub categoria: CategoriaError,
    pub codigo: u32,
    pub span: Span,
    pub mensaje: String,
    pub sugerencia: Option<String>,
}

/// Código de error: letra de la categoría y número con al menos tres dígitos (`S001`).
pub open spec fn codigo_de(categoria: CategoriaError, codigo: u32) -> Seq<char> {
    seq![categoria.letra()] + decimal_relleno(codigo as nat, 3)
}

/// Texto de la sugerencia que sigue al mensaje cuando la hay.
pub open spec fn linea_sugerencia(sugerencia: Option<String>) -> Seq<char> {
    match sugerencia {
        Some(s) => "\n       │ sugerencia: "@ + s@,
        None => Seq::empty(),
    }
}

impl ErrorCompilador {
    pub fn nuevo(categoria: CategoriaError, codigo: u32, span: Span, mensaje: String) -> (r: Self)
        ensures
            r.categoria == categoria,
            r.codigo == codigo,
            r.span == span,
            r.mensaje == mensaje,
            r.sugerencia is None,
    {
        ErrorCompilador { categoria, codigo, span, mensaje, sugerencia: None }
    }

    pub fn con_sugerencia(self, sugerencia: String) -> (r: Self)
        ensures
            r.categoria == self.categoria,
            r.codigo == self.codigo,
            r.span == self.span,
            r.mensaje == self.mensaje,
            r.sugerencia == Some(sugerencia),
    {
        let mut e = self;
        e.sugerencia = Some(sugerencia);
        e
    }

    pub fn codigo_str(&self) -> (r: String)
        ensures
            r@ == codigo_de(self.categoria, self.codigo),
    {
        let mut r = texto(self.categoria.prefijo());
        agregar_decimal_relleno(&mut r, self.codigo, 3);
        r
    }

    /// Forma legible del error: `[S001] archivo:línea:columna: mensaje`,
    /// seguida de la sugerencia en una segunda línea cuando la hay.
    pub fn a_texto(&self) -> (r: String)
        ensures
            r@ == seq!['['] + codigo_de(self.categoria, self.codigo) + "] "@ + self.span.archivo@
                + seq![':'] + decimal(self.span.inicio.linea as nat) + seq![':'] + decimal(
                self.span.inicio.columna as nat,
            ) + ": "@ + self.mensaje@ + linea_sugerencia(self.sugerencia),
    {
        let mut r = texto("[");
        let codigo = self.codigo_str();
        agregar(&mut r, codigo.as_str());
        agregar(&mut r, "] ");
        agregar(&mut r, self.span.archivo.as_str());
        agregar(&mut r, ":");
        agregar_decimal(&mut r, self.span.inicio.linea as u64);
        agregar(&mut r, ":");
        agregar_decimal(&mut r, self.span.inicio.columna as u64);
        agregar(&mut r, ": ");
        agregar(&mut r, self.mensaje.as_str());
        proof {
            reveal_strlit("[");
            reveal_strlit(":");
        }
        let ghost antes = r@;
        match &self.sugerencia {
            Some(sug) => {
                agregar(&mut r, "\n       │ sugerencia: ");
                agregar(&mut r, sug.as_str());
                assert(r@ =~= antes + linea_sugerencia(self.sugerencia));
            },
            None => {
                assert(r@ =~= antes + linea_sugerencia(self.sugerencia));
            },
        }
        assert("["@ =~= seq!['[']);
        assert(":"@ =~= seq![':']);
        r
    }
}

/// Colección de errores
#[derive(Debug, Clone)]
pub struct Errores {
    pub errores: Vec<ErrorCompilador>,
}

impl Default for Errores {
    fn default() -> (r: Self)
        ensures
            r.errores@.len() == 0,
    {
        Errores { errores: Vec::new() }
    }
}

impl Errores {
    pub fn nuevo() -> (r: Self)
        ensures
            r.errores@.len() == 0,
    {
        Errores { errores: Vec::new() }
    }

    pub fn agregar(&mut self, error: ErrorCompilador)
        ensures
            final(self).errores@ == old(self).errores@.push(error),
    {
        self.errores.push(error);
    }

    pub fn esta_vacio(&self) -> (r: bool)
        ensures
            r == (self.errores@.len() == 0),
    {
        self.errores.len() == 0
    }

    pub fn hay_errores(&self) -> (r: bool)
        ensures
            r == (self.errores@.len() != 0),
    {
        self.errores.len() != 0
    }

    pub fn cantidad(&self) -> (r: usize)
        ensures
            r == self.errores@.len(),
    {
        self.errores.len()
    }

    /// Forma legible: cada error en su propia línea.
    pub fn a_texto(&self) -> (r: String)
        ensures
            r@ == textos_de_errores(self.errores@),
    {
        let mut r = String::new();
        let mut i: usize = 0;
        while i < self.errores.len()
            invariant
                i <= self.errores@.len(),
                r@ == textos_de_errores(self.errores@.subrange(0, i as int)),
            decreases self.errores.len() - i,
        {
            let t = self.errores[i].a_texto();
            agregar(&mut r, t.as_str());
            agregar(&mut r, "\n");
            assert(self.errores@.subrange(0, i + 1).drop_last() =~= self.errores@.subrange(0, i as int));
            i = i + 1;
        }
        assert(self.errores@.subrange(0, self.errores@.len() as int) =~= self.errores@);
        r
    }
}

/// Forma legible de un error (la de `ErrorCompilador::a_texto`).
pub open spec fn texto_de_error(e: ErrorCompilador) -> Seq<char> {
    seq!['['] + codigo_de(e.categoria, e.codigo) + "] "@ + e.span.archivo@ + seq![':'] + decimal(
        e.span.inicio.linea as nat,
    ) + seq![':'] + decimal(e.span.inicio.columna as nat) + ": "@ + e.mensaje@ + linea_sugerencia(
        e.sugerencia,
    )
}

/// Los errores uno tras otro, cada uno terminado en salto de línea.
pub open spec fn textos_de_errores(es: Seq<ErrorCompilador>) -> Seq<char>
    decreases es.len(),
{
    if es.len() == 0 {
        Seq::empty()
    } else {
        textos_de_errores(es.drop_last()) + texto_de_error(es.last()) + "\n"@
    }
}

// Errores predefinidos (fábricas)

/// Token inesperado (S001)
pub fn token_inesperado(span: Span, token: &str) -> (r: ErrorCompilador)
    ensures
        r.categoria == CategoriaError::Sintaxis,
        r.codigo == 1,
        r.span == span,
        r.mensaje@ == "token inesperado: '"@ + token@ + "'"@,
        r.sugerencia is None,
{
    let mut m = texto("token inesperado: '");
    agregar(&mut m, token);
    agregar(&mut m, "'");
    ErrorCompilador::nuevo(CategoriaError::Sintaxis, 1, span, m)
}

/// Fin de archivo inesperado (S002)
pub fn fin_archivo_inesperado(span: Span) -> (r: ErrorCompilador)
    ensures
        r.categoria == CategoriaError::Sintaxis,
        r.codigo == 2,
        r.span == span,
        r.mensaje@ == "fin de archivo inesperado"@,
        r.sugerencia is None,
{
    ErrorCompilador::nuevo(CategoriaError::Sintaxis, 2, span, texto("fin de archivo inesperado"))
}

/// Tipo no encontrado (T001), con sugerencia.
pub fn tipo_no_encontrado(span: Span, tipo: &str) -> (r: ErrorCompilador)
    ensures
        r.categoria == CategoriaError::Tipo,
        r.codigo == 1,
        r.span == span,
        r.mensaje@ == "no se encontró el tipo '"@ + tipo@ + "'"@,
        r.sugerencia matches Some(s) && s@ == "¿quisiste decir '"@ + tipo@ + "'?"@,
{
    let mut m = texto("no se encontró el tipo '");
    agregar(&mut m, tipo);
    agregar(&mut m, "'");
    let mut s = texto("¿quisiste decir '");
    agregar(&mut s, tipo);
    agregar(&mut s, "'?");
    ErrorCompilador::nuevo(CategoriaError::Tipo, 1, span, m).con_sugerencia(s)
}

/// Función FFI no encontrada (C001)
pub fn funcion_ffi_no_encontrada(span: Span, nombre: &str) -> (r: ErrorCompilador)
    ensures
        r.categoria == CategoriaError::FFI,
        r.codigo == 1,
        r.span == span,
        r.mensaje@ == "función FFI '"@ + nombre@ + "' no encontrada"@,
        r.sugerencia is None,
{
    let mut m = texto("función FFI '");
    agregar(&mut m, nombre);
    agregar(&mut m, "' no encontrada");
    ErrorCompilador::nuevo(CategoriaError::FFI, 1, span, m)
}

} // verus!
