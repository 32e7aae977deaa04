use vstd::prelude::*;
use crate::span::{Posicion, Span};
use vstd::std_specs::iter::IteratorSpec;
use crate::texto::{agregar, agregar_decimal, decimal, texto};
use crate::lexico::{
    es_espacio, en, espacio, fin_comentario, fin_espacios, lema_fin_comentario, lema_fin_espacios,
    lema_lexema, leer_lexema, lexema, piezas, token_de_pieza, tramo_comentario, tramo_espacios,
    Clase, desescapar, desescapar_tramo,
};

verus! {

/// Tokens del lenguaje Mejia
#[derive(Debug, Clone)]
pub enum Token {
    // Keywords
    /// `función`, `funcion`, `fn`
    Funcion,
    /// `retornar`, `devolver`
    Retornar,
    /// `si`
    Si,
    /// `entonces`
    Entonces,
    /// `sino`
    Sino,
    /// `es`
    Es,
    /// `está`
    Esta,
    /// `fuese`
    Fuese,
    /// `mientras`
    Mientras,
    /// `para`
    Para,
    /// `en`
    En,
    /// `estructural`
    Estructural,
    /// `enumeración`
    Enumeracion,
    /// `usar`
    Usar,
    /// `módulo`
    Modulo,
    /// `todos`
    Todos,
    /// `inseguro`
    Inseguro,
    /// `mover`
    Mover,
    /// `copiar`
    Copiar,
    /// `prestar`
    Prestar,
    /// `verificado`
    Verificado,
    /// `estricto`
    Estricto,
    /// `mut`
    Mut,
    /// `como`
    Como,
    /// `tipo`
    Tipo,
    /// `región`, `region`
    Region,
    /// `yo`
    SelfKw,
    /// `puro`
    Puro,
    /// `muta`
    Muta,
    /// `lee`
    Lee,
    /// `rasgo`
    Rasgo,
    /// `implementar`
    Implementar,
    /// `coincidir`, `emparejar`
    Coincidir,
    /// `prueba`
    Prueba,
    // Async (Fase 18)
    /// `fut`
    Fut,
    /// `esperar`
    Esperar,
    /// `lanzar`
    Lanzar,
    /// `bloquear`
    Bloquear,
    /// `seleccionar`
    Seleccionar,
    /// `direccion_de`
    DireccionDe,
    /// `dir_de`
    DirDe,
    /// `con_executor`
    ConExecutor,
    // Artículos (ownership)
    /// `el`
    ArticuloEl,
    /// `la`
    ArticuloLa,
    /// `un`
    ArticuloUn,
    /// `los`
    ArticuloLos,
    /// `las`
    ArticuloLas,
    // Tipos primitivos
    /// `Entero8`
    Entero8,
    /// `Entero16`
    Entero16,
    /// `Entero32`
    Entero32,
    /// `Entero64`
    Entero64,
    /// `Natural8`
    Natural8,
    /// `Natural16`
    Natural16,
    /// `Natural32`
    Natural32,
    /// `Natural64`
    Natural64,
    /// `Flotante32`
    Flotante32,
    /// `Flotante64`
    Flotante64,
    /// `Booleano`
    Booleano,
    /// `Caracter`
    Caracter,
    /// `Palabra`
    Palabra,
    /// `Texto`
    Texto,
    /// `Resultado`
    Resultado,
    /// `Vacío`
    Vacio,
    // Literales
    EnteroLiteral(Option<i64>),
    FlotanteLiteral(Option<String>),
    PalabraLiteral(Option<String>),
    CaracterLiteral(Option<char>),
    // Booleanos
    /// `verdadero`
    Verdadero,
    /// `falso`
    Falso,
    // Identificadores
    Identificador(String),
    // Símbolos
    /// `(`
    ParenAbre,
    /// `)`
    ParenCierra,
    /// `{`
    LlaveAbre,
    /// `}`
    LlaveCierra,
    /// `[`
    CorcheteAbre,
    /// `]`
    CorcheteCierra,
    /// `,`
    Coma,
    /// `;`
    PuntoYComa,
    /// `:`
    DosPuntos,
    /// `=`
    Igual,
    /// `==`
    IgualIgual,
    /// `!=`
    Distinto,
    /// `+`
    Mas,
    /// `-`
    Menos,
    /// `*`
    Asterisco,
    /// `/`
    Barra,
    /// `%`
    Porcentaje,
    /// `&&`
    YLogico,
    /// `||`
    OLogico,
    /// `|`
    Pipe,
    /// `^`
    Caret,
    /// `~`
    Tilde,
    /// `>>>`
    TripleMayor,
    /// `<<`
    DobleMenor,
    /// `>>`
    DobleMayor,
    /// `&`
    Ampersand,
    /// `!`
    Exclamacion,
    /// `<=`
    MenorIgual,
    /// `>=`
    MayorIgual,
    /// `<`
    MenorQue,
    /// `>`
    MayorQue,
    /// `..=`
    PuntoPuntoIgual,
    /// `..`
    DoblePunto,
    /// `.`
    Punto,
    /// `->`
    Flecha,
    /// `=>`
    FlechaGruesa,
    /// `?`
    Interrogacion,
    /// Carácter que no empieza ningún token
    Error,
}


/// Forma de depuración (`{:?}`) de un texto: entre comillas dobles y con los caracteres
/// especiales escapados.
pub uninterp spec fn texto_depurado(s: Seq<char>) -> Seq<char>;

/// Forma de depuración (`{:?}`) de un carácter: entre comillas simples y escapado.
pub uninterp spec fn caracter_depurado(c: char) -> Seq<char>;

/// `<str as Debug>::fmt`: la forma de depuración de un texto.
#[verifier::external_body]
pub(crate) fn depurar_texto(s: &str) -> (r: String)
    ensures
        r@ == texto_depurado(s@),
{
    format!("{:?}", s)
}

/// `<char as Debug>::fmt`: la forma de depuración de un carácter.
#[verifier::external_body]
fn depurar_caracter(c: char) -> (r: String)
    ensures
        r@ == caracter_depurado(c),
{
    format!("{:?}", c)
}

/// Forma de depuración de un entero: su escritura decimal, con `-` si es negativo.
pub open spec fn entero_depurado(v: i64) -> Seq<char> {
    if v < 0 {
        seq!['-'] + decimal((-v) as nat)
    } else {
        decimal(v as nat)
    }
}

pub open spec fn opcion_entero_depurada(v: Option<i64>) -> Seq<char> {
    match v {
        Some(x) => "Some("@ + entero_depurado(x) + ")"@,
        None => "None"@,
    }
}

pub open spec fn opcion_texto_depurada(v: Option<String>) -> Seq<char> {
    match v {
        Some(s) => "Some("@ + texto_depurado(s@) + ")"@,
        None => "None"@,
    }
}

pub open spec fn opcion_caracter_depurada(v: Option<char>) -> Seq<char> {
    match v {
        Some(c) => "Some("@ + caracter_depurado(c) + ")"@,
        None => "None"@,
    }
}

fn agregar_entero(r: &mut String, x: i64)
    ensures
        final(r)@ == old(r)@ + entero_depurado(x),
{
    if x < 0 {
        let m: u64 = ((-(x + 1)) as u64) + 1;
        agregar(r, "-");
        proof {
            reveal_strlit("-");
            assert("-"@ =~= seq!['-']);
        }
        let ghost medio = r@;
        agregar_decimal(r, m);
        assert(r@ =~= old(r)@ + entero_depurado(x));
    } else {
        agregar_decimal(r, x as u64);
    }
}

fn agregar_opcion_texto(r: &mut String, v: &Option<String>)
    ensures
        final(r)@ == old(r)@ + opcion_texto_depurada(*v),
{
    match v {
        Some(s) => {
            agregar(r, "Some(");
            let d = depurar_texto(s.as_str());
            agregar(r, d.as_str());
            agregar(r, ")");
        },
        None => agregar(r, "None"),
    }
}

/// Vista de un texto opcional.
pub open spec fn vista_opcional(o: Option<String>) -> Option<Seq<char>> {
    match o {
        Some(s) => Some(s@),
        None => None,
    }
}

fn opcionales_iguales(a: &Option<String>, b: &Option<String>) -> (r: bool)
    ensures
        r == (vista_opcional(*a) == vista_opcional(*b)),
{
    match (a, b) {
        (Some(x), Some(y)) => *x == *y,
        (None, None) => true,
        _ => false,
    }
}

impl Token {
    /// Igualdad de tokens: la misma variante y, si llevan datos, los mismos datos.
    pub open spec fn igual(self, otro: Token) -> bool {
        match (self, otro) {
            (Token::EnteroLiteral(a), Token::EnteroLiteral(b)) => a == b,
            (Token::FlotanteLiteral(a), Token::FlotanteLiteral(b)) => vista_opcional(a) == vista_opcional(b),
            (Token::PalabraLiteral(a), Token::PalabraLiteral(b)) => vista_opcional(a) == vista_opcional(b),
            (Token::CaracterLiteral(a), Token::CaracterLiteral(b)) => a == b,
            (Token::Identificador(a), Token::Identificador(b)) => a@ == b@,
            _ => self == otro,
        }
    }

    /// Compara dos tokens (ver `igual`).
    pub fn es_igual(&self, otro: &Token) -> (r: bool)
        ensures
            r == self.igual(*otro),
    {
        match (self, otro) {
            (Token::EnteroLiteral(a), Token::EnteroLiteral(b)) => match (a, b) {
                (Some(x), Some(y)) => *x == *y,
                (None, None) => true,
                _ => false,
            },
            (Token::FlotanteLiteral(a), Token::FlotanteLiteral(b)) => opcionales_iguales(a, b),
            (Token::PalabraLiteral(a), Token::PalabraLiteral(b)) => opcionales_iguales(a, b),
            (Token::CaracterLiteral(a), Token::CaracterLiteral(b)) => match (a, b) {
                (Some(x), Some(y)) => *x == *y,
                (None, None) => true,
                _ => false,
            },
            (Token::Identificador(a), Token::Identificador(b)) => *a == *b,
            (Token::Funcion, Token::Funcion) => true,
            (Token::Retornar, Token::Retornar) => true,
            (Token::Si, Token::Si) => true,
            (Token::Entonces, Token::Entonces) => true,
            (Token::Sino, Token::Sino) => true,
            (Token::Es, Token::Es) => true,
            (Token::Esta, Token::Esta) => true,
            (Token::Fuese, Token::Fuese) => true,
            (Token::Mientras, Token::Mientras) => true,
            (Token::Para, Token::Para) => true,
            (Token::En, Token::En) => true,
            (Token::Estructural, Token::Estructural) => true,
            (Token::Enumeracion, Token::Enumeracion) => true,
            (Token::Usar, Token::Usar) => true,
            (Token::Modulo, Token::Modulo) => true,
            (Token::Todos, Token::Todos) => true,
            (Token::Inseguro, Token::Inseguro) => true,
            (Token::Mover, Token::Mover) => true,
            (Token::Copiar, Token::Copiar) => true,
            (Token::Prestar, Token::Prestar) => true,
            (Token::Verificado, Token::Verificado) => true,
            (Token::Estricto, Token::Estricto) => true,
            (Token::Mut, Token::Mut) => true,
            (Token::Como, Token::Como) => true,
            (Token::Tipo, Token::Tipo) => true,
            (Token::Region, Token::Region) => true,
            (Token::SelfKw, Token::SelfKw) => true,
            (Token::Puro, Token::Puro) => true,
            (Token::Muta, Token::Muta) => true,
            (Token::Lee, Token::Lee) => true,
            (Token::Rasgo, Token::Rasgo) => true,
            (Token::Implementar, Token::Implementar) => true,
            (Token::Coincidir, Token::Coincidir) => true,
            (Token::Prueba, Token::Prueba) => true,
            (Token::Fut, Token::Fut) => true,
            (Token::Esperar, Token::Esperar) => true,
            (Token::Lanzar, Token::Lanzar) => true,
            (Token::Bloquear, Token::Bloquear) => true,
            (Token::Seleccionar, Token::Seleccionar) => true,
            (Token::DireccionDe, Token::DireccionDe) => true,
            (Token::DirDe, Token::DirDe) => true,
            (Token::ConExecutor, Token::ConExecutor) => true,
            (Token::ArticuloEl, Token::ArticuloEl) => true,
            (Token::ArticuloLa, Token::ArticuloLa) => true,
            (Token::ArticuloUn, Token::ArticuloUn) => true,
            (Token::ArticuloLos, Token::ArticuloLos) => true,
            (Token::ArticuloLas, Token::ArticuloLas) => true,
            (Token::Entero8, Token::Entero8) => true,
            (Token::Entero16, Token::Entero16) => true,
            (Token::Entero32, Token::Entero32) => true,
            (Token::Entero64, Token::Entero64) => true,
            (Token::Natural8, Token::Natural8) => true,
            (Token::Natural16, Token::Natural16) => true,
            (Token::Natural32, Token::Natural32) => true,
            (Token::Natural64, Token::Natural64) => true,
            (Token::Flotante32, Token::Flotante32) => true,
            (Token::Flotante64, Token::Flotante64) => true,
            (Token::Booleano, Token::Booleano) => true,
            (Token::Caracter, Token::Caracter) => true,
            (Token::Palabra, Token::Palabra) => true,
            (Token::Texto, Token::Texto) => true,
            (Token::Resultado, Token::Resultado) => true,
            (Token::Vacio, Token::Vacio) => true,
            (Token::Verdadero, Token::Verdadero) => true,
            (Token::Falso, Token::Falso) => true,
            (Token::ParenAbre, Token::ParenAbre) => true,
            (Token::ParenCierra, Token::ParenCierra) => true,
            (Token::LlaveAbre, Token::LlaveAbre) => true,
            (Token::LlaveCierra, Token::LlaveCierra) => true,
            (Token::CorcheteAbre, Token::CorcheteAbre) => true,
            (Token::CorcheteCierra, Token::CorcheteCierra) => true,
            (Token::Coma, Token::Coma) => true,
            (Token::PuntoYComa, Token::PuntoYComa) => true,
            (Token::DosPuntos, Token::DosPuntos) => true,
            (Token::Igual, Token::Igual) => true,
            (Token::IgualIgual, Token::IgualIgual) => true,
            (Token::Distinto, Token::Distinto) => true,
            (Token::Mas, Token::Mas) => true,
            (Token::Menos, Token::Menos) => true,
            (Token::Asterisco, Token::Asterisco) => true,
            (Token::Barra, Token::Barra) => true,
            (Token::Porcentaje, Token::Porcentaje) => true,
            (Token::YLogico, Token::YLogico) => true,
            (Token::OLogico, Token::OLogico) => true,
            (Token::Pipe, Token::Pipe) => true,
            (Token::Caret, Token::Caret) => true,
            (Token::Tilde, Token::Tilde) => true,
            (Token::TripleMayor, Token::TripleMayor) => true,
            (Token::DobleMenor, Token::DobleMenor) => true,
            (Token::DobleMayor, Token::DobleMayor) => true,
            (Token::Ampersand, Token::Ampersand) => true,
            (Token::Exclamacion, Token::Exclamacion) => true,
            (Token::MenorIgual, Token::MenorIgual) => true,
            (Token::MayorIgual, Token::MayorIgual) => true,
            (Token::MenorQue, Token::MenorQue) => true,
            (Token::MayorQue, Token::MayorQue) => true,
            (Token::PuntoPuntoIgual, Token::PuntoPuntoIgual) => true,
            (Token::DoblePunto, Token::DoblePunto) => true,
            (Token::Punto, Token::Punto) => true,
            (Token::Flecha, Token::Flecha) => true,
            (Token::FlechaGruesa, Token::FlechaGruesa) => true,
            (Token::Interrogacion, Token::Interrogacion) => true,
            (Token::Error, Token::Error) => true,
            _ => false,
        }
    }
}

/// Nombre de un token tal como lo escribe su forma de depuración (`ParenAbre`,
/// `Identificador("x")`, `EnteroLiteral(Some(10))`).
pub open spec fn nombre_token(t: Token) -> Seq<char> {
    match t {
        Token::Funcion => "Funcion"@,
        Token::Retornar => "Retornar"@,
        Token::Si => "Si"@,
        Token::Entonces => "Entonces"@,
        Token::Sino => "Sino"@,
        Token::Es => "Es"@,
        Token::Esta => "Esta"@,
        Token::Fuese => "Fuese"@,
        Token::Mientras => "Mientras"@,
        Token::Para => "Para"@,
        Token::En => "En"@,
        Token::Estructural => "Estructural"@,
        Token::Enumeracion => "Enumeracion"@,
        Token::Usar => "Usar"@,
        Token::Modulo => "Modulo"@,
        Token::Todos => "Todos"@,
        Token::Inseguro => "Inseguro"@,
        Token::Mover => "Mover"@,
        Token::Copiar => "Copiar"@,
        Token::Prestar => "Prestar"@,
        Token::Verificado => "Verificado"@,
        Token::Estricto => "Estricto"@,
        Token::Mut => "Mut"@,
        Token::Como => "Como"@,
        Token::Tipo => "Tipo"@,
        Token::Region => "Region"@,
        Token::SelfKw => "SelfKw"@,
        Token::Puro => "Puro"@,
        Token::Muta => "Muta"@,
        Token::Lee => "Lee"@,
        Token::Rasgo => "Rasgo"@,
        Token::Implementar => "Implementar"@,
        Token::Coincidir => "Coincidir"@,
        Token::Prueba => "Prueba"@,
        Token::Fut => "Fut"@,
        Token::Esperar => "Esperar"@,
        Token::Lanzar => "Lanzar"@,
        Token::Bloquear => "Bloquear"@,
        Token::Seleccionar => "Seleccionar"@,
        Token::DireccionDe => "DireccionDe"@,
        Token::DirDe => "DirDe"@,
        Token::ConExecutor => "ConExecutor"@,
        Token::ArticuloEl => "ArticuloEl"@,
        Token::ArticuloLa => "ArticuloLa"@,
        Token::ArticuloUn => "ArticuloUn"@,
        Token::ArticuloLos => "ArticuloLos"@,
        Token::ArticuloLas => "ArticuloLas"@,
        Token::Entero8 => "Entero8"@,
        Token::Entero16 => "Entero16"@,
        Token::Entero32 => "Entero32"@,
        Token::Entero64 => "Entero64"@,
        Token::Natural8 => "Natural8"@,
        Token::Natural16 => "Natural16"@,
        Token::Natural32 => "Natural32"@,
        Token::Natural64 => "Natural64"@,
        Token::Flotante32 => "Flotante32"@,
        Token::Flotante64 => "Flotante64"@,
        Token::Booleano => "Booleano"@,
        Token::Caracter => "Caracter"@,
        Token::Palabra => "Palabra"@,
        Token::Texto => "Texto"@,
        Token::Resultado => "Resultado"@,
        Token::Vacio => "Vacio"@,
        Token::Verdadero => "Verdadero"@,
        Token::Falso => "Falso"@,
        Token::ParenAbre => "ParenAbre"@,
        Token::ParenCierra => "ParenCierra"@,
        Token::LlaveAbre => "LlaveAbre"@,
        Token::LlaveCierra => "LlaveCierra"@,
        Token::CorcheteAbre => "CorcheteAbre"@,
        Token::CorcheteCierra => "CorcheteCierra"@,
        Token::Coma => "Coma"@,
        Token::PuntoYComa => "PuntoYComa"@,
        Token::DosPuntos => "DosPuntos"@,
        Token::Igual => "Igual"@,
        Token::IgualIgual => "IgualIgual"@,
        Token::Distinto => "Distinto"@,
        Token::Mas => "Mas"@,
        Token::Menos => "Menos"@,
        Token::Asterisco => "Asterisco"@,
        Token::Barra => "Barra"@,
        Token::Porcentaje => "Porcentaje"@,
        Token::YLogico => "YLogico"@,
        Token::OLogico => "OLogico"@,
        Token::Pipe => "Pipe"@,
        Token::Caret => "Caret"@,
        Token::Tilde => "Tilde"@,
        Token::TripleMayor => "TripleMayor"@,
        Token::DobleMenor => "DobleMenor"@,
        Token::DobleMayor => "DobleMayor"@,
        Token::Ampersand => "Ampersand"@,
        Token::Exclamacion => "Exclamacion"@,
        Token::MenorIgual => "MenorIgual"@,
        Token::MayorIgual => "MayorIgual"@,
        Token::MenorQue => "MenorQue"@,
        Token::MayorQue => "MayorQue"@,
        Token::PuntoPuntoIgual => "PuntoPuntoIgual"@,
        Token::DoblePunto => "DoblePunto"@,
        Token::Punto => "Punto"@,
        Token::Flecha => "Flecha"@,
        Token::FlechaGruesa => "FlechaGruesa"@,
        Token::Interrogacion => "Interrogacion"@,
        Token::Error => "Error"@,
        Token::EnteroLiteral(v) => "EnteroLiteral("@ + opcion_entero_depurada(v) + ")"@,
        Token::FlotanteLiteral(v) => "FlotanteLiteral("@ + opcion_texto_depurada(v) + ")"@,
        Token::PalabraLiteral(v) => "PalabraLiteral("@ + opcion_texto_depurada(v) + ")"@,
        Token::CaracterLiteral(v) => "CaracterLiteral("@ + opcion_caracter_depurada(v) + ")"@,
        Token::Identificador(s) => "Identificador("@ + texto_depurado(s@) + ")"@,
    }
}

impl Token {
    /// Nombre del token en su forma de depuración (ver `nombre_token`).
    pub fn nombre(&self) -> (r: String)
        ensures
            r@ == nombre_token(*self),
    {
        match self {
            Token::Funcion => texto("Funcion"),
            Token::Retornar => texto("Retornar"),
            Token::Si => texto("Si"),
            Token::Entonces => texto("Entonces"),
            Token::Sino => texto("Sino"),
            Token::Es => texto("Es"),
            Token::Esta => texto("Esta"),
            Token::Fuese => texto("Fuese"),
            Token::Mientras => texto("Mientras"),
            Token::Para => texto("Para"),
            Token::En => texto("En"),
            Token::Estructural => texto("Estructural"),
            Token::Enumeracion => texto("Enumeracion"),
            Token::Usar => texto("Usar"),
            Token::Modulo => texto("Modulo"),
            Token::Todos => texto("Todos"),
            Token::Inseguro => texto("Inseguro"),
            Token::Mover => texto("Mover"),
            Token::Copiar => texto("Copiar"),
            Token::Prestar => texto("Prestar"),
            Token::Verificado => texto("Verificado"),
            Token::Estricto => texto("Estricto"),
            Token::Mut => texto("Mut"),
            Token::Como => texto("Como"),
            Token::Tipo => texto("Tipo"),
            Token::Region => texto("Region"),
            Token::SelfKw => texto("SelfKw"),
            Token::Puro => texto("Puro"),
            Token::Muta => texto("Muta"),
            Token::Lee => texto("Lee"),
            Token::Rasgo => texto("Rasgo"),
            Token::Implementar => texto("Implementar"),
            Token::Coincidir => texto("Coincidir"),
            Token::Prueba => texto("Prueba"),
            Token::Fut => texto("Fut"),
            Token::Esperar => texto("Esperar"),
            Token::Lanzar => texto("Lanzar"),
            Token::Bloquear => texto("Bloquear"),
            Token::Seleccionar => texto("Seleccionar"),
            Token::DireccionDe => texto("DireccionDe"),
            Token::DirDe => texto("DirDe"),
            Token::ConExecutor => texto("ConExecutor"),
            Token::ArticuloEl => texto("ArticuloEl"),
            Token::ArticuloLa => texto("ArticuloLa"),
            Token::ArticuloUn => texto("ArticuloUn"),
            Token::ArticuloLos => texto("ArticuloLos"),
            Token::ArticuloLas => texto("ArticuloLas"),
            Token::Entero8 => texto("Entero8"),
            Token::Entero16 => texto("Entero16"),
            Token::Entero32 => texto("Entero32"),
            Token::Entero64 => texto("Entero64"),
            Token::Natural8 => texto("Natural8"),
            Token::Natural16 => texto("Natural16"),
            Token::Natural32 => texto("Natural32"),
            Token::Natural64 => texto("Natural64"),
            Token::Flotante32 => texto("Flotante32"),
            Token::Flotante64 => texto("Flotante64"),
            Token::Booleano => texto("Booleano"),
            Token::Caracter => texto("Caracter"),
            Token::Palabra => texto("Palabra"),
            Token::Texto => texto("Texto"),
            Token::Resultado => texto("Resultado"),
            Token::Vacio => texto("Vacio"),
            Token::Verdadero => texto("Verdadero"),
            Token::Falso => texto("Falso"),
            Token::ParenAbre => texto("ParenAbre"),
            Token::ParenCierra => texto("ParenCierra"),
            Token::LlaveAbre => texto("LlaveAbre"),
            Token::LlaveCierra => texto("LlaveCierra"),
            Token::CorcheteAbre => texto("CorcheteAbre"),
            Token::CorcheteCierra => texto("CorcheteCierra"),
            Token::Coma => texto("Coma"),
            Token::PuntoYComa => texto("PuntoYComa"),
            Token::DosPuntos => texto("DosPuntos"),
            Token::Igual => texto("Igual"),
            Token::IgualIgual => texto("IgualIgual"),
            Token::Distinto => texto("Distinto"),
            Token::Mas => texto("Mas"),
            Token::Menos => texto("Menos"),
            Token::Asterisco => texto("Asterisco"),
            Token::Barra => texto("Barra"),
            Token::Porcentaje => texto("Porcentaje"),
            Token::YLogico => texto("YLogico"),
            Token::OLogico => texto("OLogico"),
            Token::Pipe => texto("Pipe"),
            Token::Caret => texto("Caret"),
            Token::Tilde => texto("Tilde"),
            Token::TripleMayor => texto("TripleMayor"),
            Token::DobleMenor => texto("DobleMenor"),
            Token::DobleMayor => texto("DobleMayor"),
            Token::Ampersand => texto("Ampersand"),
            Token::Exclamacion => texto("Exclamacion"),
            Token::MenorIgual => texto("MenorIgual"),
            Token::MayorIgual => texto("MayorIgual"),
            Token::MenorQue => texto("MenorQue"),
            Token::MayorQue => texto("MayorQue"),
            Token::PuntoPuntoIgual => texto("PuntoPuntoIgual"),
            Token::DoblePunto => texto("DoblePunto"),
            Token::Punto => texto("Punto"),
            Token::Flecha => texto("Flecha"),
            Token::FlechaGruesa => texto("FlechaGruesa"),
            Token::Interrogacion => texto("Interrogacion"),
            Token::Error => texto("Error"),
            Token::EnteroLiteral(v) => {
                let mut r = texto("EnteroLiteral(");
                match v {
                    Some(x) => {
                        agregar(&mut r, "Some(");
                        agregar_entero(&mut r, *x);
                        agregar(&mut r, ")");
                    },
                    None => agregar(&mut r, "None"),
                }
                agregar(&mut r, ")");
                r
            },
            Token::FlotanteLiteral(v) => {
                let mut r = texto("FlotanteLiteral(");
                agregar_opcion_texto(&mut r, v);
                agregar(&mut r, ")");
                r
            },
            Token::PalabraLiteral(v) => {
                let mut r = texto("PalabraLiteral(");
                agregar_opcion_texto(&mut r, v);
                agregar(&mut r, ")");
                r
            },
            Token::CaracterLiteral(v) => {
                let mut r = texto("CaracterLiteral(");
                match v {
                    Some(c) => {
                        agregar(&mut r, "Some(");
                        let d = depurar_caracter(*c);
                        agregar(&mut r, d.as_str());
                        agregar(&mut r, ")");
                    },
                    None => agregar(&mut r, "None"),
                }
                agregar(&mut r, ")");
                r
            },
            Token::Identificador(s) => {
                let mut r = texto("Identificador(");
                let d = depurar_texto(s.as_str());
                agregar(&mut r, d.as_str());
                agregar(&mut r, ")");
                r
            },
        }
    }
}

/// Token con su span asociado
#[derive(Debug, Clone)]
pub struct TokenConSpan {
    pub token: Token,
    pub span: Span,
}

/// Convierte las secuencias de escape del contenido de un literal de cadena en su carácter
/// real (ver `desescapar`).
pub fn desescapar_cadena(entrada: &str) -> (r: String)
    ensures
        r@ == desescapar(entrada@),
{
    let cs = caracteres(entrada);
    let r = desescapar_tramo(&cs, 0, cs.len());
    assert(cs@.subrange(0, cs@.len() as int) =~= entrada@);
    r
}

/// Caracteres de un texto, en orden.
pub fn caracteres(s: &str) -> (r: Vec<char>)
    ensures
        r@ == s@,
{
    broadcast use vstd::string::group_string_axioms;

    let mut it = s.chars();
    let mut v: Vec<char> = Vec::new();
    loop
        invariant
            v@ + it.remaining() == s@,
            it.decrease() is Some,
        ensures
            v@ == s@,
        decreases it.decrease()->0,
    {
        match it.next() {
            Some(c) => {
                v.push(c);
            },
            None => {
                break;
            },
        }
    }
    v
}


/// Bytes que ocupa un carácter en UTF-8.
pub open spec fn ancho_utf8(c: char) -> nat {
    if (c as u32) < 0x80 {
        1
    } else if (c as u32) < 0x800 {
        2
    } else if (c as u32) < 0x10000 {
        3
    } else {
        4
    }
}

/// Línea y columna (desde 1) y offset en bytes del carácter `k` del texto: cada salto de
/// línea anterior suma una línea y vuelve a la columna 1; cualquier otro carácter suma una columna.
pub open spec fn posicion_en(cs: Seq<char>, k: int) -> (nat, nat, nat)
    decreases k,
{
    if k <= 0 {
        (1, 1, 0)
    } else {
        let (l, c, b) = posicion_en(cs, k - 1);
        if cs[k - 1] == '\n' {
            (l + 1, 1, b + ancho_utf8(cs[k - 1]))
        } else {
            (l, c + 1, b + ancho_utf8(cs[k - 1]))
        }
    }
}

/// Posición del carácter `k` (el offset en bytes se guarda truncado a 32 bits).
pub open spec fn posicion_de(cs: Seq<char>, k: int) -> Posicion {
    Posicion {
        linea: posicion_en(cs, k).0 as u32,
        columna: posicion_en(cs, k).1 as u32,
        offset: posicion_en(cs, k).2 as u32,
    }
}

pub proof fn lema_posicion_acotada(cs: Seq<char>, k: int)
    requires
        0 <= k <= cs.len(),
    ensures
        1 <= posicion_en(cs, k).0 <= k + 1,
        1 <= posicion_en(cs, k).1 <= k + 1,
        k <= posicion_en(cs, k).2 <= 4 * k,
    decreases k,
{
    if k > 0 {
        lema_posicion_acotada(cs, k - 1);
    }
}

pub proof fn lema_offset_creciente(cs: Seq<char>, j: int, k: int)
    requires
        0 <= j < k <= cs.len(),
    ensures
        posicion_en(cs, j).2 < posicion_en(cs, k).2,
    decreases k - j,
{
    if j + 1 < k {
        lema_offset_creciente(cs, j, k - 1);
    }
}

/// El token `t` es el del lexema `p` del texto `cs`, con su span (inicio y fin del lexema) en
/// el archivo `archivo`.
pub open spec fn token_en(t: TokenConSpan, cs: Seq<char>, archivo: Seq<char>, p: (Clase, int, int)) -> bool {
    &&& token_de_pieza(t.token, cs, p)
    &&& t.span.inicio == posicion_de(cs, p.1)
    &&& t.span.fin == posicion_de(cs, p.2)
    &&& t.span.archivo@ == archivo
}

/// `ts` es la secuencia de tokens del texto `cs` en el archivo `archivo`: un token por lexema,
/// en orden.
pub open spec fn tokens_del_texto(ts: Seq<TokenConSpan>, cs: Seq<char>, archivo: Seq<char>) -> bool {
    &&& ts.len() == piezas(cs, 0).len()
    &&& forall|k: int| 0 <= k < ts.len() ==> token_en(#[trigger] ts[k], cs, archivo, piezas(cs, 0)[k])
}

/// Primer carácter cuyo offset en bytes (desde `k`) no es menor que `offset`, o el final.
pub open spec fn indice_de_offset(cs: Seq<char>, offset: int, k: int) -> int
    decreases cs.len() - k,
{
    if 0 <= k < cs.len() && posicion_en(cs, k).2 < offset {
        indice_de_offset(cs, offset, k + 1)
    } else {
        k
    }
}

fn ancho(c: char) -> (r: u64)
    ensures
        r == ancho_utf8(c),
{
    let v = c as u32;
    if v < 0x80 {
        1
    } else if v < 0x800 {
        2
    } else if v < 0x10000 {
        3
    } else {
        4
    }
}

/// Avanza la posición del carácter `desde` a la del carácter `hasta`.
fn avanzar_posicion(cs: &Vec<char>, desde: usize, hasta: usize, pos: (u32, u32, u64)) -> (r: (
    u32,
    u32,
    u64,
))
    requires
        desde <= hasta <= cs@.len(),
        cs@.len() < u32::MAX,
        posicion_en(cs@, desde as int) == (pos.0 as nat, pos.1 as nat, pos.2 as nat),
    ensures
        posicion_en(cs@, hasta as int) == (r.0 as nat, r.1 as nat, r.2 as nat),
{
    let (mut l, mut c, mut b) = pos;
    let mut k = desde;
    while k < hasta
        invariant
            desde <= k <= hasta <= cs@.len(),
            cs@.len() < u32::MAX,
            posicion_en(cs@, k as int) == (l as nat, c as nat, b as nat),
        decreases hasta - k,
    {
        proof {
            lema_posicion_acotada(cs@, k as int);
        }
        let ch = cs[k];
        if ch == '\n' {
            l = l + 1;
            c = 1;
        } else {
            c = c + 1;
        }
        b = b + ancho(ch);
        k = k + 1;
    }
    (l, c, b)
}

/// Lexer de Mejia
pub struct LexerMejia {
    fuente: String,
    archivo: String,
}

impl LexerMejia {
    /// Texto fuente que el lexer analiza.
    pub closed spec fn fuente(&self) -> Seq<char> {
        self.fuente@
    }

    /// Nombre del archivo que llevan los spans.
    pub closed spec fn archivo(&self) -> Seq<char> {
        self.archivo@
    }

    pub fn nuevo(fuente: String, archivo: String) -> (r: Self)
        ensures
            r.fuente() == fuente@,
            r.archivo() == archivo@,
    {
        LexerMejia { fuente, archivo }
    }

    /// Divide el fuente en tokens: un token por lexema, con el span de su primer carácter a
    /// su fin. Un carácter con el que no empieza ningún token da un `Token::Error`.
    pub fn tokenizar(&self) -> (r: Vec<TokenConSpan>)
        requires
            self.fuente().len() < u32::MAX,
        ensures
            tokens_del_texto(r@, self.fuente(), self.archivo()),
    {
        let cs = caracteres(self.fuente.as_str());
        let n = cs.len();
        let mut i: usize = 0;
        let mut pos: (u32, u32, u64) = (1, 1, 0);
        let mut r: Vec<TokenConSpan> = Vec::new();
        let ghost mut hechas: Seq<(Clase, int, int)> = Seq::empty();
        while i < n
            invariant
                i <= n == cs@.len() < u32::MAX,
                cs@ == self.fuente(),
                posicion_en(cs@, i as int) == (pos.0 as nat, pos.1 as nat, pos.2 as nat),
                piezas(cs@, 0) == hechas + piezas(cs@, i as int),
                r@.len() == hechas.len(),
                forall|k: int|
                    0 <= k < r@.len() ==> token_en(#[trigger] r@[k], cs@, self.archivo(), hechas[k]),
            decreases n - i,
        {
            let c = cs[i];
            if espacio(c) {
                let j = tramo_espacios(&cs, i + 1);
                proof {
                    lema_fin_espacios(cs@, i as int + 1);
                }
                pos = avanzar_posicion(&cs, i, j, pos);
                i = j;
            } else if c == '/' && n - i > 1 && cs[i + 1] == '/' {
                let j = tramo_comentario(&cs, i + 2);
                proof {
                    lema_fin_comentario(cs@, i as int + 2);
                }
                pos = avanzar_posicion(&cs, i, j, pos);
                i = j;
            } else {
                let (t, j) = leer_lexema(&cs, i);
                proof {
                    lema_lexema(cs@, i as int);
                }
                let inicio = Posicion::nueva(pos.0, pos.1, pos.2 as u32);
                pos = avanzar_posicion(&cs, i, j, pos);
                let fin = Posicion::nueva(pos.0, pos.1, pos.2 as u32);
                let ghost pieza = (lexema(cs@, i as int).0, i as int, j as int);
                r.push(TokenConSpan { token: t, span: Span::nuevo(inicio, fin, self.archivo.clone()) });
                proof {
                    assert(piezas(cs@, i as int) == seq![pieza] + piezas(cs@, j as int));
                    assert(hechas.push(pieza) + piezas(cs@, j as int) =~= hechas + piezas(cs@, i as int));
                    hechas = hechas.push(pieza);
                }
                i = j;
            }
        }
        assert(hechas =~= piezas(cs@, 0));
        r
    }

    /// Posición (línea y columna) del carácter en el offset de bytes dado: se cuentan los
    /// caracteres que empiezan antes de ese offset.
    pub fn offset_a_posicion(&self, offset: usize) -> (r: Posicion)
        requires
            self.fuente().len() < u32::MAX,
        ensures
            r.linea == posicion_en(self.fuente(), indice_de_offset(self.fuente(), offset as int, 0)).0,
            r.columna == posicion_en(self.fuente(), indice_de_offset(self.fuente(), offset as int, 0)).1,
            r.offset == offset as u32,
    {
        let cs = caracteres(self.fuente.as_str());
        let n = cs.len();
        let mut k: usize = 0;
        let mut pos: (u32, u32, u64) = (1, 1, 0);
        while k < n && pos.2 < offset as u64
            invariant
                k <= n == cs@.len() < u32::MAX,
                cs@ == self.fuente(),
                posicion_en(cs@, k as int) == (pos.0 as nat, pos.1 as nat, pos.2 as nat),
                indice_de_offset(cs@, offset as int, 0) == indice_de_offset(cs@, offset as int, k as int),
            decreases n - k,
        {
            pos = avanzar_posicion(&cs, k, k + 1, pos);
            k = k + 1;
        }
        Posicion::nueva(pos.0, pos.1, offset as u32)
    }
}

/// El span de cada token empieza en la posición que `offset_a_posicion` da para el offset en
/// bytes de su primer carácter: el carácter `k` es el primero cuyo offset alcanza el suyo.
pub proof fn ley_offset_de_token(cs: Seq<char>, k: int)
    requires
        0 <= k <= cs.len(),
    ensures
        indice_de_offset(cs, posicion_en(cs, k).2 as int, 0) == k,
{
    lema_indice_desde(cs, k, 0);
}

proof fn lema_indice_desde(cs: Seq<char>, k: int, j: int)
    requires
        0 <= j <= k <= cs.len(),
    ensures
        indice_de_offset(cs, posicion_en(cs, k).2 as int, j) == k,
    decreases k - j,
{
    if j < k {
        lema_offset_creciente(cs, j, k);
        lema_indice_desde(cs, k, j + 1);
    }
}


/// Las piezas desde `i` están en orden, no se solapan y caen dentro del texto: cada una
/// empieza en o tras `i`, termina tras empezar y no más allá del final, y la siguiente
/// empieza donde terminó la anterior o después.
pub proof fn lema_piezas_ordenadas(cs: Seq<char>, i: int)
    requires
        0 <= i,
    ensures
        forall|k: int| 0 <= k < piezas(cs, i).len() ==> i <= #[trigger] piezas(cs, i)[k].1
            && piezas(cs, i)[k].1 < piezas(cs, i)[k].2 <= cs.len(),
        forall|k: int| 0 <= k < piezas(cs, i).len() - 1 ==> #[trigger] piezas(cs, i)[k].2
            <= piezas(cs, i)[k + 1].1,
    decreases cs.len() - i,
{
    if i < cs.len() {
        if es_espacio(cs[i]) {
            lema_fin_espacios(cs, i + 1);
            let f = fin_espacios(cs, i + 1);
            lema_piezas_ordenadas(cs, f);
            assert(piezas(cs, i) == piezas(cs, f));
        } else if cs[i] == '/' && crate::lexico::en(cs, i + 1, '/') {
            lema_fin_comentario(cs, i + 2);
            let f = fin_comentario(cs, i + 2);
            lema_piezas_ordenadas(cs, f);
            assert(piezas(cs, i) == piezas(cs, f));
        } else {
            lema_lexema(cs, i);
            let j = lexema(cs, i).1;
            lema_piezas_ordenadas(cs, j);
            let resto = piezas(cs, j);
            let ps = piezas(cs, i);
            assert(ps == seq![(lexema(cs, i).0, i, j)] + resto);
            assert forall|k: int| 0 <= k < ps.len() implies i <= #[trigger] ps[k].1 && ps[k].1 < ps[k].2
                <= cs.len() by {
                if k > 0 {
                    assert(ps[k] == resto[k - 1]);
                }
            }
            assert forall|k: int| 0 <= k < ps.len() - 1 implies #[trigger] ps[k].2 <= ps[k + 1].1 by {
                assert(ps[k + 1] == resto[k]);
                if k > 0 {
                    assert(ps[k] == resto[k - 1]);
                }
            }
        }
    }
}

/// El offset en bytes no decrece al avanzar en el texto.
pub proof fn lema_offset_monotono(cs: Seq<char>, j: int, k: int)
    requires
        0 <= j <= k <= cs.len(),
    ensures
        posicion_en(cs, j).2 <= posicion_en(cs, k).2,
{
    if j < k {
        lema_offset_creciente(cs, j, k);
    }
}

/// Ley de los spans de los tokens: con un texto de a lo sumo `u32::MAX` bytes, cada token
/// lleva el archivo del lexer, su span empieza antes de terminar y termina dentro del texto,
/// y cada token termina en o antes del inicio del siguiente.
pub proof fn ley_spans_de_tokens(ts: Seq<TokenConSpan>, cs: Seq<char>, archivo: Seq<char>, k: int)
    requires
        tokens_del_texto(ts, cs, archivo),
        posicion_en(cs, cs.len() as int).2 <= u32::MAX,
        0 <= k < ts.len(),
    ensures
        ts[k].span.archivo@ == archivo,
        ts[k].span.inicio.offset < ts[k].span.fin.offset,
        ts[k].span.fin.offset <= posicion_en(cs, cs.len() as int).2,
        k + 1 < ts.len() ==> ts[k].span.fin.offset <= ts[k + 1].span.inicio.offset,
{
    let ps = piezas(cs, 0);
    lema_piezas_ordenadas(cs, 0);
    assert(token_en(ts[k], cs, archivo, ps[k]));
    lema_offset_creciente(cs, ps[k].1, ps[k].2);
    lema_offset_monotono(cs, ps[k].2, cs.len() as int);
    lema_offset_monotono(cs, ps[k].1, ps[k].2);
    if k + 1 < ts.len() {
        assert(token_en(ts[k + 1], cs, archivo, ps[k + 1]));
        lema_offset_monotono(cs, ps[k].2, ps[k + 1].1);
        lema_offset_monotono(cs, ps[k + 1].1, cs.len() as int);
    }
}

/// Saltos de línea del texto.
pub open spec fn saltos(s: Seq<char>) -> nat
    decreases s.len(),
{
    if s.len() == 0 {
        0
    } else {
        saltos(s.drop_last()) + if s.last() == '\n' {
            1nat
        } else {
            0nat
        }
    }
}

/// Índice donde empieza la línea del carácter `k`: tras el último salto de línea anterior, o 0.
pub open spec fn inicio_de_linea(cs: Seq<char>, k: int) -> int
    decreases k,
{
    if k <= 0 {
        0
    } else if cs[k - 1] == '\n' {
        k
    } else {
        inicio_de_linea(cs, k - 1)
    }
}

/// Ley de la posición de un carácter: su línea es 1 más los saltos de línea anteriores, su
/// columna 1 más los caracteres desde el inicio de su línea, y su offset la suma de los
/// anchos en UTF-8 de los caracteres anteriores.
pub proof fn ley_posicion_cuenta(cs: Seq<char>, k: int)
    requires
        0 <= k <= cs.len(),
    ensures
        posicion_en(cs, k).0 == 1 + saltos(cs.take(k)),
        posicion_en(cs, k).1 == 1 + k - inicio_de_linea(cs, k),
        0 <= inicio_de_linea(cs, k) <= k,
    decreases k,
{
    if k > 0 {
        ley_posicion_cuenta(cs, k - 1);
        assert(cs.take(k).drop_last() =~= cs.take(k - 1));
    } else {
        assert(cs.take(0) =~= Seq::<char>::empty());
    }
}
} // verus!
