use vstd::prelude::*;

verus! {

/// Ubicación en el código fuente: línea, columna, offset (en bytes)
#[derive(Debug, Clone, Copy, PartialEq, Eq, Structural, Hash)]
pub struct Posicion {
    pub linea: u32,
    pub columna: u32,
    pub offset: u32,
}

impl Posicion {
    pub fn nueva(linea: u32, columna: u32, offset: u32) -> (r: Self)
        ensures
            r.linea == linea,
            r.columna == columna,
            r.offset == offset,
    {
        Posicion { linea, columna, offset }
    }
}

/// Nombre de archivo que llevan los spans sin origen real.
pub open spec fn archivo_de_prueba() -> Seq<char> {
    seq!['<', 't', 'e', 's', 't', '>']
}

/// Span: rango de texto en el código fuente con referencia al archivo
#[derive(Debug, Clone)]
pub struct Span {
    pub inicio: Posicion,
    pub fin: Posicion,
    pub archivo: String,
}

impl Span {
    pub fn nuevo(inicio: Posicion, fin: Posicion, archivo: String) -> (r: Self)
        ensures
            r.inicio == inicio,
            r.fin == fin,
            r.archivo == archivo,
    {
        Span { inicio, fin, archivo }
    }

    /// Predicado: el span no tiene origen real (ambas posiciones en cero, archivo `<test>`).
    pub open spec fn es_vacio(self) -> bool {
        &&& self.inicio == Posicion { linea: 0, columna: 0, offset: 0 }
        &&& self.fin == Posicion { linea: 0, columna: 0, offset: 0 }
        &&& self.archivo@ == archivo_de_prueba()
    }

    /// Span vacío para testing
    pub fn vacio() -> (r: Self)
        ensures
            r.es_vacio(),
    {
        let archivo = String::from_str("<test>");
        proof {
            reveal_strlit("<test>");
            assert("<test>"@ =~= archivo_de_prueba());
        }
        Span { inicio: Posicion::nueva(0, 0, 0), fin: Posicion::nueva(0, 0, 0), archivo }
    }

    /// Combina dos spans: inicio del primero, fin del segundo
    pub fn combinar(a: &Span, b: &Span) -> (r: Self)
        ensures
            r.inicio == a.inicio,
            r.fin == b.fin,
            r.archivo == a.archivo,
    {
        Span { inicio: a.inicio, fin: b.fin, archivo: a.archivo.clone() }
    }

    /// Copia exacta del span.
    pub fn copia(&self) -> (r: Self)
        ensures
            r == *self,
    {
        Span { inicio: self.inicio, fin: self.fin, archivo: self.archivo.clone() }
    }
}

impl Default for Span {
    fn default() -> (r: Self)
        ensures
            r.es_vacio(),
    {
        Span::vacio()
    }
}

} // verus!
