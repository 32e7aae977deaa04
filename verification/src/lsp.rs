//! Índice semántico de un documento para el servidor de lenguaje: qué variables, funciones,
//! structs, enums y rasgos declara, con sus tipos como texto, y búsquedas sobre el AST
//! (qué identificador hay en una posición, dónde se usa un nombre).

use vstd::prelude::*;
use crate::ast::{
    Articulo, Bloque, BrazoMatch, Campo, RamaSeleccionar, Declaracion, DeclaracionVariable, EnumeracionDecl, EstructuralDecl,
    Expresion, FirmaMetodo, FuncionDecl, Lugar, Parametro, Programa, RasgoDecl, Sentencia, Tipo,
    Variante, aparece_identificador, aparece_en_sentencia, aparece_en_operandos,
    aparece_en_operandos_de_sentencia,
};
use crate::lexer::{texto_depurado, depurar_texto};
use crate::span::Span;
use crate::texto::{decimal, texto, agregar, agregar_decimal, es_texto};

verus! {

/// Textos unidos con un separador.
pub open spec fn unidos(xs: Seq<Seq<char>>, sep: Seq<char>) -> Seq<char>
    decreases xs.len(),
{
    if xs.len() == 0 {
        Seq::empty()
    } else if xs.len() == 1 {
        xs[0]
    } else {
        unidos(xs.drop_last(), sep) + sep + xs.last()
    }
}

/// Forma de depuración (`{:?}`) de un tipo.
pub open spec fn tipo_depurado(t: Tipo) -> Seq<char>
    decreases t,
{
    match t {
        Tipo::Entero8 => "Entero8"@,
        Tipo::Entero16 => "Entero16"@,
        Tipo::Entero32 => "Entero32"@,
        Tipo::Entero64 => "Entero64"@,
        Tipo::Natural8 => "Natural8"@,
        Tipo::Natural16 => "Natural16"@,
        Tipo::Natural32 => "Natural32"@,
        Tipo::Natural64 => "Natural64"@,
        Tipo::Flotante32 => "Flotante32"@,
        Tipo::Flotante64 => "Flotante64"@,
        Tipo::Booleano => "Booleano"@,
        Tipo::Caracter => "Caracter"@,
        Tipo::Palabra => "Palabra"@,
        Tipo::Texto => "Texto"@,
        Tipo::Vacio => "Vacio"@,
        Tipo::Puntero(a) => "Puntero("@ + tipo_depurado(*a) + ")"@,
        Tipo::Referencia(a) => "Referencia("@ + tipo_depurado(*a) + ")"@,
        Tipo::ReferenciaMut(a) => "ReferenciaMut("@ + tipo_depurado(*a) + ")"@,
        Tipo::ReferenciaConLifetime(n, a) => "ReferenciaConLifetime("@ + texto_depurado(n@) + ", "@
            + tipo_depurado(*a) + ")"@,
        Tipo::ReferenciaMutConLifetime(n, a) => "ReferenciaMutConLifetime("@ + texto_depurado(n@)
            + ", "@ + tipo_depurado(*a) + ")"@,
        Tipo::ReferenciaSelf(a) => "ReferenciaSelf("@ + tipo_depurado(*a) + ")"@,
        Tipo::ReferenciaMutSelf(a) => "ReferenciaMutSelf("@ + tipo_depurado(*a) + ")"@,
        Tipo::Array(a, n) => "Array("@ + tipo_depurado(*a) + ", "@ + decimal(n as nat) + ")"@,
        Tipo::ArrayGenerico(a, n) => "ArrayGenerico("@ + tipo_depurado(*a) + ", "@ + texto_depurado(
            n@,
        ) + ")"@,
        Tipo::Vector(a) => "Vector("@ + tipo_depurado(*a) + ")"@,
        Tipo::Resultado(a, b) => "Resultado("@ + tipo_depurado(*a) + ", "@ + tipo_depurado(*b)
            + ")"@,
        Tipo::Diccionario(a, b) => "Diccionario("@ + tipo_depurado(*a) + ", "@ + tipo_depurado(*b)
            + ")"@,
        Tipo::Conjunto(a) => "Conjunto("@ + tipo_depurado(*a) + ")"@,
        Tipo::Generico(n) => "Generico("@ + texto_depurado(n@) + ")"@,
        Tipo::Nombre(n) => "Nombre("@ + texto_depurado(n@) + ")"@,
        Tipo::NombreGenerico(n, args) => "NombreGenerico("@ + texto_depurado(n@) + ", ["@ + unidos(
            tipos_depurados(args@),
            ", "@,
        ) + "])"@,
    }
}

/// Formas de depuración de una lista de tipos.
pub open spec fn tipos_depurados(ts: Seq<Tipo>) -> Seq<Seq<char>>
    decreases ts,
{
    if ts.len() == 0 {
        Seq::empty()
    } else {
        tipos_depurados(ts.drop_last()).push(tipo_depurado(ts.last()))
    }
}

/// Agrega `pre`, la forma de depuración de `a` y `)`.
fn agregar_envuelto(s: &mut String, pre: &str, a: &Tipo)
    ensures
        final(s)@ == old(s)@ + pre@ + tipo_depurado(*a) + ")"@,
    decreases a, 1nat,
{
    agregar(s, pre);
    agregar_tipo(s, a);
    agregar(s, ")");
}

/// Agrega `pre`, la forma de depuración del nombre, `, `, la de `a` y `)`.
fn agregar_nombre_y_tipo(s: &mut String, pre: &str, n: &String, a: &Tipo)
    ensures
        final(s)@ == old(s)@ + pre@ + texto_depurado(n@) + ", "@ + tipo_depurado(*a) + ")"@,
    decreases a, 1nat,
{
    agregar(s, pre);
    agregar(s, depurar_texto(n.as_str()).as_str());
    agregar(s, ", ");
    agregar_tipo(s, a);
    agregar(s, ")");
}

/// Agrega las formas de depuración de los tipos, separadas por `, `.
fn agregar_tipos(s: &mut String, args: &Vec<Tipo>)
    ensures
        final(s)@ == old(s)@ + unidos(tipos_depurados(args@), ", "@),
    decreases args, 1nat,
{
    let ghost antes = s@;
    let mut i: usize = 0;
    proof {
        assert(args@.take(0) =~= Seq::<Tipo>::empty());
        assert(s@ =~= antes + unidos(tipos_depurados(args@.take(0)), ", "@));
    }
    while i < args.len()
        invariant
            i <= args@.len(),
            s@ == antes + unidos(tipos_depurados(args@.take(i as int)), ", "@),
        decreases args@.len() - i,
    {
        proof {
            vstd::std_specs::vec::axiom_vec_index_decreases(*args, i as int);
            assert(args@.take(i + 1).drop_last() =~= args@.take(i as int));
            lema_largo_depurados(args@.take(i as int));
        }
        if i > 0 {
            agregar(s, ", ");
        }
        agregar_tipo(s, &args[i]);
        proof {
            let xs = tipos_depurados(args@.take(i + 1));
            assert(xs.drop_last() =~= tipos_depurados(args@.take(i as int)));
            assert(s@ =~= antes + unidos(xs, ", "@));
        }
        i = i + 1;
    }
    proof {
        assert(args@.take(args@.len() as int) =~= args@);
    }
}

/// Agrega al texto la forma de depuración de un tipo.
#[verifier::rlimit(80)]
fn agregar_tipo(s: &mut String, t: &Tipo)
    ensures
        final(s)@ == old(s)@ + tipo_depurado(*t),
    decreases t, 0nat,
{
    let ghost inicial = s@;
    match t {
        Tipo::Entero8 => agregar(s, "Entero8"),
        Tipo::Entero16 => agregar(s, "Entero16"),
        Tipo::Entero32 => agregar(s, "Entero32"),
        Tipo::Entero64 => agregar(s, "Entero64"),
        Tipo::Natural8 => agregar(s, "Natural8"),
        Tipo::Natural16 => agregar(s, "Natural16"),
        Tipo::Natural32 => agregar(s, "Natural32"),
        Tipo::Natural64 => agregar(s, "Natural64"),
        Tipo::Flotante32 => agregar(s, "Flotante32"),
        Tipo::Flotante64 => agregar(s, "Flotante64"),
        Tipo::Booleano => agregar(s, "Booleano"),
        Tipo::Caracter => agregar(s, "Caracter"),
        Tipo::Palabra => agregar(s, "Palabra"),
        Tipo::Texto => agregar(s, "Texto"),
        Tipo::Vacio => agregar(s, "Vacio"),
        Tipo::Puntero(a) => agregar_envuelto(s, "Puntero(", a),
        Tipo::Referencia(a) => agregar_envuelto(s, "Referencia(", a),
        Tipo::ReferenciaMut(a) => agregar_envuelto(s, "ReferenciaMut(", a),
        Tipo::ReferenciaConLifetime(n, a) => agregar_nombre_y_tipo(
            s,
            "ReferenciaConLifetime(",
            n,
            a,
        ),
        Tipo::ReferenciaMutConLifetime(n, a) => agregar_nombre_y_tipo(
            s,
            "ReferenciaMutConLifetime(",
            n,
            a,
        ),
        Tipo::ReferenciaSelf(a) => agregar_envuelto(s, "ReferenciaSelf(", a),
        Tipo::ReferenciaMutSelf(a) => agregar_envuelto(s, "ReferenciaMutSelf(", a),
        Tipo::Array(a, n) => {
            agregar(s, "Array(");
            agregar_tipo(s, a);
            agregar(s, ", ");
            agregar_decimal(s, *n as u64);
            agregar(s, ")");
        },
        Tipo::ArrayGenerico(a, n) => {
            agregar(s, "ArrayGenerico(");
            agregar_tipo(s, a);
            agregar(s, ", ");
            agregar(s, depurar_texto(n.as_str()).as_str());
            agregar(s, ")");
        },
        Tipo::Vector(a) => agregar_envuelto(s, "Vector(", a),
        Tipo::Resultado(a, b) => {
            agregar(s, "Resultado(");
            agregar_tipo(s, a);
            agregar(s, ", ");
            agregar_tipo(s, b);
            agregar(s, ")");
        },
        Tipo::Diccionario(a, b) => {
            agregar(s, "Diccionario(");
            agregar_tipo(s, a);
            agregar(s, ", ");
            agregar_tipo(s, b);
            agregar(s, ")");
        },
        Tipo::Conjunto(a) => agregar_envuelto(s, "Conjunto(", a),
        Tipo::Generico(n) => {
            agregar(s, "Generico(");
            agregar(s, depurar_texto(n.as_str()).as_str());
            agregar(s, ")");
        },
        Tipo::Nombre(n) => {
            agregar(s, "Nombre(");
            agregar(s, depurar_texto(n.as_str()).as_str());
            agregar(s, ")");
        },
        Tipo::NombreGenerico(n, args) => {
            agregar(s, "NombreGenerico(");
            agregar(s, depurar_texto(n.as_str()).as_str());
            agregar(s, ", [");
            agregar_tipos(s, args);
            agregar(s, "])");
        },
    }
    proof {
        assert(s@ =~= inicial + tipo_depurado(*t));
    }
}

/// La lista de formas de depuración tiene un elemento por tipo.
proof fn lema_largo_depurados(ts: Seq<Tipo>)
    ensures
        tipos_depurados(ts).len() == ts.len(),
    decreases ts.len(),
{
    if ts.len() > 0 {
        lema_largo_depurados(ts.drop_last());
    }
}

/// Forma de depuración (`{:?}`) de un tipo.
pub fn tipo_a_texto(t: &Tipo) -> (r: String)
    ensures
        r@ == tipo_depurado(*t),
{
    let mut s = String::new();
    agregar_tipo(&mut s, t);
    assert(s@ =~= tipo_depurado(*t));
    s
}

/// Información de una variable para hover y definición
#[derive(Debug, Clone)]
pub struct InfoVariableLsp {
    pub nombre: String,
    pub tipo: String,
    pub articulo: String,
    pub articulo_raw: String,
    pub span_declaracion: Span,
}

/// Información de una función para hover y definición
#[derive(Debug, Clone)]
pub struct InfoFuncionLsp {
    pub nombre: String,
    pub retorno: Option<String>,
    pub parametros: Vec<String>,
    /// (nombre, tipo)
    pub parametros_raw: Vec<(String, String)>,
    pub span_declaracion: Span,
}

/// Información de un struct para outline y completion
#[derive(Debug, Clone)]
pub struct InfoStructLsp {
    pub nombre: String,
    /// (nombre, tipo)
    pub campos: Vec<(String, String)>,
    pub span_declaracion: Span,
}

/// Información de un enum para outline y completion
#[derive(Debug, Clone)]
pub struct InfoEnumLsp {
    pub nombre: String,
    /// (nombre, datos opcionales)
    pub variantes: Vec<(String, Option<String>)>,
    pub span_declaracion: Span,
}

/// Información de un rasgo para outline y completion
#[derive(Debug, Clone)]
pub struct InfoTraitLsp {
    pub nombre: String,
    /// Firmas de los métodos
    pub metodos: Vec<String>,
    pub span_declaracion: Span,
}

/// Vistas de pares de textos.
pub open spec fn vistas_pares(v: Seq<(String, String)>) -> Seq<(Seq<char>, Seq<char>)> {
    v.map_values(|p: (String, String)| (p.0@, p.1@))
}

/// Vista de un texto opcional.
pub open spec fn vista_opcion(o: Option<String>) -> Option<Seq<char>> {
    match o {
        Some(s) => Some(s@),
        None => None,
    }
}

impl View for InfoVariableLsp {
    type V = (Seq<char>, Seq<char>, Seq<char>, Seq<char>, Span);

    open spec fn view(&self) -> Self::V {
        (self.nombre@, self.tipo@, self.articulo@, self.articulo_raw@, self.span_declaracion)
    }
}

impl View for InfoFuncionLsp {
    type V = (Seq<char>, Option<Seq<char>>, Seq<Seq<char>>, Seq<(Seq<char>, Seq<char>)>, Span);

    open spec fn view(&self) -> Self::V {
        (
            self.nombre@,
            vista_opcion(self.retorno),
            self.parametros@.map_values(|s: String| s@),
            vistas_pares(self.parametros_raw@),
            self.span_declaracion,
        )
    }
}

impl View for InfoStructLsp {
    type V = (Seq<char>, Seq<(Seq<char>, Seq<char>)>, Span);

    open spec fn view(&self) -> Self::V {
        (self.nombre@, vistas_pares(self.campos@), self.span_declaracion)
    }
}

impl View for InfoEnumLsp {
    type V = (Seq<char>, Seq<(Seq<char>, Option<Seq<char>>)>, Span);

    open spec fn view(&self) -> Self::V {
        (
            self.nombre@,
            self.variantes@.map_values(
                |p: (String, Option<String>)| (p.0@, vista_opcion(p.1)),
            ),
            self.span_declaracion,
        )
    }
}

impl View for InfoTraitLsp {
    type V = (Seq<char>, Seq<Seq<char>>, Span);

    open spec fn view(&self) -> Self::V {
        (self.nombre@, self.metodos@.map_values(|s: String| s@), self.span_declaracion)
    }
}

/// Mapa por nombre de una lista de entradas: la última entrada de cada clave manda.
pub open spec fn mapa_de<T: View>(v: Seq<(String, T)>) -> Map<Seq<char>, T::V>
    decreases v.len(),
{
    if v.len() == 0 {
        Map::empty()
    } else {
        mapa_de(v.drop_last()).insert(v.last().0@, v.last().1@)
    }
}

/// No hay dos entradas con la misma clave.
pub open spec fn claves_unicas<T>(v: Seq<(String, T)>) -> bool {
    forall|i: int, j: int| 0 <= i < j < v.len() ==> (#[trigger] v[i]).0@ != (#[trigger] v[j]).0@
}

/// El mapa tiene exactamente las claves de las entradas, y con claves únicas el valor de cada
/// una es el de su entrada.
pub(crate) proof fn lema_mapa_de<T: View>(v: Seq<(String, T)>)
    ensures
        forall|k: Seq<char>|
            #[trigger] mapa_de(v).contains_key(k) <==> exists|i: int| 0 <= i < v.len() && v[i].0@ == k,
        claves_unicas(v) ==> forall|i: int| 0 <= i < v.len() ==> mapa_de(v)[#[trigger] v[i].0@] == v[i].1@,
    decreases v.len(),
{
    if v.len() > 0 {
        let previo = v.drop_last();
        lema_mapa_de(previo);
        assert forall|k: Seq<char>| #[trigger] mapa_de(v).contains_key(k) <==> exists|i: int|
            0 <= i < v.len() && v[i].0@ == k by {
            if mapa_de(previo).contains_key(k) {
                let i = choose|i: int| 0 <= i < previo.len() && previo[i].0@ == k;
                assert(v[i] == previo[i]);
            }
            if exists|i: int| 0 <= i < v.len() && v[i].0@ == k {
                let i = choose|i: int| 0 <= i < v.len() && v[i].0@ == k;
                if i < previo.len() {
                    assert(v[i] == previo[i]);
                }
            }
        }
        if claves_unicas(v) {
            assert(claves_unicas(previo)) by {
                assert forall|i: int, j: int| 0 <= i < j < previo.len() implies (#[trigger] previo[i]).0@
                    != (#[trigger] previo[j]).0@ by {
                    assert(previo[i] == v[i] && previo[j] == v[j]);
                }
            }
            assert forall|i: int| 0 <= i < v.len() implies mapa_de(v)[#[trigger] v[i].0@] == v[i].1@ by {
                if i < previo.len() {
                    assert(v[i] == previo[i]);
                }
            }
        }
    }
}

/// Inserta o reemplaza la entrada de una clave.
pub(crate) fn insertar<T: View>(mapa: &mut Vec<(String, T)>, clave: String, valor: T)
    requires
        claves_unicas(old(mapa)@),
    ensures
        claves_unicas(final(mapa)@),
        mapa_de(final(mapa)@) == mapa_de(old(mapa)@).insert(clave@, valor@),
        forall|i: int|
            0 <= i < final(mapa)@.len() ==> #[trigger] final(mapa)@[i] == (clave, valor) || old(
                mapa,
            )@.contains(final(mapa)@[i]),
{
    let ghost antes = mapa@;
    proof {
        lema_mapa_de(antes);
    }
    let mut i: usize = 0;
    while i < mapa.len()
        invariant
            mapa@ == antes,
            antes == old(mapa)@,
            claves_unicas(antes),
            i <= mapa@.len(),
            forall|k: int| 0 <= k < i ==> (#[trigger] mapa@[k]).0@ != clave@,
        decreases mapa@.len() - i,
    {
        if mapa[i].0.eq(&clave) {
            let ghost viejo = mapa@[i as int];
            mapa.set(i, (clave, valor));
            proof {
                lema_mapa_de(antes);
                let nuevo = mapa@;
                lema_mapa_de(nuevo);
                assert(claves_unicas(nuevo)) by {
                    assert forall|a: int, b: int| 0 <= a < b < nuevo.len() implies (#[trigger] nuevo[a]).0@
                        != (#[trigger] nuevo[b]).0@ by {
                        if a != i && b != i {
                            assert(nuevo[a] == antes[a] && nuevo[b] == antes[b]);
                        } else if a == i {
                            assert(nuevo[b] == antes[b]);
                        } else {
                            assert(nuevo[a] == antes[a]);
                        }
                    }
                }
                assert(mapa_de(nuevo) =~= mapa_de(antes).insert(clave@, valor@)) by {
                    assert forall|k: Seq<char>| #[trigger] mapa_de(nuevo).contains_key(k)
                        == mapa_de(antes).insert(clave@, valor@).contains_key(k) by {
                        if exists|j: int| 0 <= j < nuevo.len() && nuevo[j].0@ == k {
                            let j = choose|j: int| 0 <= j < nuevo.len() && nuevo[j].0@ == k;
                            if j != i {
                                assert(antes[j] == nuevo[j]);
                            }
                        }
                        if exists|j: int| 0 <= j < antes.len() && antes[j].0@ == k {
                            let j = choose|j: int| 0 <= j < antes.len() && antes[j].0@ == k;
                            if j != i {
                                assert(antes[j] == nuevo[j]);
                            } else {
                                assert(nuevo[i as int].0@ == k);
                            }
                        }
                    }
                    assert forall|k: Seq<char>| #[trigger] mapa_de(nuevo).contains_key(k) implies mapa_de(
                        nuevo,
                    )[k] == mapa_de(antes).insert(clave@, valor@)[k] by {
                        let j = choose|j: int| 0 <= j < nuevo.len() && nuevo[j].0@ == k;
                        if j != i {
                            assert(antes[j] == nuevo[j]);
                            assert(mapa_de(nuevo)[nuevo[j].0@] == nuevo[j].1@);
                            assert(mapa_de(antes)[antes[j].0@] == antes[j].1@);
                        } else {
                            assert(mapa_de(nuevo)[nuevo[i as int].0@] == nuevo[i as int].1@);
                        }
                    }
                }
            }
            return ;
        }
        i = i + 1;
    }
    mapa.push((clave, valor));
    proof {
        let nuevo = mapa@;
        lema_mapa_de(antes);
        assert(nuevo.drop_last() =~= antes);
        assert(claves_unicas(nuevo)) by {
            assert forall|a: int, b: int| 0 <= a < b < nuevo.len() implies (#[trigger] nuevo[a]).0@
                != (#[trigger] nuevo[b]).0@ by {
                assert(nuevo[a] == antes[a]);
                if b < antes.len() {
                    assert(nuevo[b] == antes[b]);
                }
            }
        }
    }
}

/// Valor de una clave, si está.
pub fn obtener<'a, T: View>(mapa: &'a Vec<(String, T)>, clave: &str) -> (r: Option<&'a T>)
    requires
        claves_unicas(mapa@),
    ensures
        match r {
            Some(x) => mapa_de(mapa@).contains_key(clave@) && x@ == mapa_de(mapa@)[clave@] && exists|
                i: int,
            | 0 <= i < mapa@.len() && #[trigger] mapa@[i].1 == *x,
            None => !mapa_de(mapa@).contains_key(clave@),
        },
{
    proof {
        lema_mapa_de(mapa@);
    }
    let buscada = texto(clave);
    let mut i: usize = 0;
    while i < mapa.len()
        invariant
            i <= mapa@.len(),
            claves_unicas(mapa@),
            buscada@ == clave@,
            forall|k: int| 0 <= k < i ==> (#[trigger] mapa@[k]).0@ != clave@,
        decreases mapa@.len() - i,
    {
        if mapa[i].0.eq(&buscada) {
            proof {
                lema_mapa_de(mapa@);
                assert(mapa_de(mapa@)[mapa@[i as int].0@] == mapa@[i as int].1@);
            }
            return Some(&mapa[i].1);
        }
        i = i + 1;
    }
    None
}

/// Artículo tal como se escribe.
pub open spec fn articulo_texto(a: Articulo) -> Seq<char> {
    match a {
        Articulo::El => "el"@,
        Articulo::La => "la"@,
        Articulo::Un => "un"@,
        Articulo::Los => "los"@,
        Articulo::Las => "las"@,
    }
}

/// Forma de depuración (`{:?}`) de un artículo.
pub open spec fn articulo_depurado(a: Articulo) -> Seq<char> {
    match a {
        Articulo::El => "El"@,
        Articulo::La => "La"@,
        Articulo::Un => "Un"@,
        Articulo::Los => "Los"@,
        Articulo::Las => "Las"@,
    }
}

/// Un parámetro como texto: `artículo nombre: Tipo`.
pub open spec fn parametro_texto(p: Parametro) -> Seq<char> {
    articulo_texto(p.articulo) + " "@ + p.nombre@ + ": "@ + tipo_depurado(p.tipo)
}

/// Lo que el índice guarda de un parámetro como variable.
pub open spec fn vista_de_parametro(p: Parametro) -> (Seq<char>, Seq<char>, Seq<char>, Seq<char>, Span) {
    (p.nombre@, tipo_depurado(p.tipo), articulo_texto(p.articulo), articulo_depurado(p.articulo), p.span)
}

/// Lo que el índice guarda de una declaración de variable (sin tipo anotado, `inferido`).
pub open spec fn vista_de_declaracion(d: DeclaracionVariable) -> (
    Seq<char>,
    Seq<char>,
    Seq<char>,
    Seq<char>,
    Span,
) {
    (
        d.nombre@,
        match d.tipo {
            Some(t) => tipo_depurado(t),
            None => "inferido"@,
        },
        articulo_texto(d.articulo),
        articulo_depurado(d.articulo),
        d.span,
    )
}

/// Variables de una sentencia: sus declaraciones, también dentro de condicionales y bucles
/// `mientras`.
pub open spec fn vars_sentencia(
    m: Map<Seq<char>, (Seq<char>, Seq<char>, Seq<char>, Seq<char>, Span)>,
    s: Sentencia,
) -> Map<Seq<char>, (Seq<char>, Seq<char>, Seq<char>, Seq<char>, Span)>
    decreases s,
{
    match s {
        Sentencia::DeclaracionVariable(d) => m.insert(d.nombre@, vista_de_declaracion(d)),
        Sentencia::Condicional(c) => vars_sino(
            vars_sentencias(m, c.bloque_entonces.sentencias@),
            c.bloque_sino,
        ),
        Sentencia::BucleMientras(b) => vars_sentencias(m, b.bloque.sentencias@),
        _ => m,
    }
}

/// Variables del bloque `sino`, si lo hay.
pub open spec fn vars_sino(
    m: Map<Seq<char>, (Seq<char>, Seq<char>, Seq<char>, Seq<char>, Span)>,
    b: Option<Bloque>,
) -> Map<Seq<char>, (Seq<char>, Seq<char>, Seq<char>, Seq<char>, Span)>
    decreases b,
{
    match b {
        Some(b) => vars_sentencias(m, b.sentencias@),
        None => m,
    }
}

/// Variables de una lista de sentencias, en orden.
pub open spec fn vars_sentencias(
    m: Map<Seq<char>, (Seq<char>, Seq<char>, Seq<char>, Seq<char>, Span)>,
    ss: Seq<Sentencia>,
) -> Map<Seq<char>, (Seq<char>, Seq<char>, Seq<char>, Seq<char>, Span)>
    decreases ss,
{
    if ss.len() == 0 {
        m
    } else {
        vars_sentencia(vars_sentencias(m, ss.drop_last()), ss.last())
    }
}

/// Parámetros como variables, en orden.
pub open spec fn vars_parametros(
    m: Map<Seq<char>, (Seq<char>, Seq<char>, Seq<char>, Seq<char>, Span)>,
    ps: Seq<Parametro>,
) -> Map<Seq<char>, (Seq<char>, Seq<char>, Seq<char>, Seq<char>, Span)>
    decreases ps.len(),
{
    if ps.len() == 0 {
        m
    } else {
        vars_parametros(m, ps.drop_last()).insert(ps.last().nombre@, vista_de_parametro(ps.last()))
    }
}

/// Lo que el índice guarda de una función.
pub open spec fn vista_de_funcion(f: FuncionDecl) -> (
    Seq<char>,
    Option<Seq<char>>,
    Seq<Seq<char>>,
    Seq<(Seq<char>, Seq<char>)>,
    Span,
) {
    (
        f.nombre@,
        match f.retorno {
            Some(t) => Some(tipo_depurado(t)),
            None => None,
        },
        f.parametros@.map_values(|p: Parametro| parametro_texto(p)),
        f.parametros@.map_values(|p: Parametro| (p.nombre@, tipo_depurado(p.tipo))),
        f.span,
    )
}

/// Lo que el índice guarda de un struct.
pub open spec fn vista_de_struct(e: EstructuralDecl) -> (Seq<char>, Seq<(Seq<char>, Seq<char>)>, Span) {
    (e.nombre@, e.campos@.map_values(|c: Campo| (c.nombre@, tipo_depurado(c.tipo))), e.span)
}

/// Forma de depuración de los datos de una variante: `[("nombre", Tipo), ...]`.
pub open spec fn datos_depurados(cs: Seq<(String, Tipo)>) -> Seq<char> {
    "["@ + unidos(
        cs.map_values(
            |c: (String, Tipo)| "("@ + texto_depurado(c.0@) + ", "@ + tipo_depurado(c.1) + ")"@,
        ),
        ", "@,
    ) + "]"@
}

/// Lo que el índice guarda de un enum.
pub open spec fn vista_de_enum(e: EnumeracionDecl) -> (
    Seq<char>,
    Seq<(Seq<char>, Option<Seq<char>>)>,
    Span,
) {
    (
        e.nombre@,
        e.variantes@.map_values(
            |v: Variante|
                (
                    v.nombre@,
                    match v.datos {
                        Some(d) => Some(datos_depurados(d@)),
                        None => None,
                    },
                ),
        ),
        e.span,
    )
}

/// Firma de un método de rasgo: `fn nombre(params) -> Tipo`.
pub open spec fn firma_texto(m: FirmaMetodo) -> Seq<char> {
    "fn "@ + m.nombre@ + "("@ + unidos(
        m.parametros@.map_values(|p: Parametro| parametro_texto(p)),
        ", "@,
    ) + ")"@ + match m.retorno {
        Some(t) => " -> "@ + tipo_depurado(t),
        None => Seq::empty(),
    }
}

/// Lo que el índice guarda de un rasgo.
pub open spec fn vista_de_rasgo(r: RasgoDecl) -> (Seq<char>, Seq<Seq<char>>, Span) {
    (r.nombre@, r.metodos@.map_values(|m: FirmaMetodo| firma_texto(m)), r.span)
}

/// Variables declaradas en las funciones de las declaraciones (parámetros y cuerpo).
pub open spec fn variables_de(ds: Seq<Declaracion>) -> Map<
    Seq<char>,
    (Seq<char>, Seq<char>, Seq<char>, Seq<char>, Span),
>
    decreases ds.len(),
{
    if ds.len() == 0 {
        Map::empty()
    } else {
        match ds.last() {
            Declaracion::Funcion(f) => vars_sentencias(
                vars_parametros(variables_de(ds.drop_last()), f.parametros@),
                f.cuerpo.sentencias@,
            ),
            _ => variables_de(ds.drop_last()),
        }
    }
}

/// Funciones de las declaraciones; con nombres repetidos, manda la última.
pub open spec fn funciones_de(ds: Seq<Declaracion>) -> Map<
    Seq<char>,
    (Seq<char>, Option<Seq<char>>, Seq<Seq<char>>, Seq<(Seq<char>, Seq<char>)>, Span),
>
    decreases ds.len(),
{
    if ds.len() == 0 {
        Map::empty()
    } else {
        match ds.last() {
            Declaracion::Funcion(f) => funciones_de(ds.drop_last()).insert(
                f.nombre@,
                vista_de_funcion(f),
            ),
            _ => funciones_de(ds.drop_last()),
        }
    }
}

/// Structs de las declaraciones.
pub open spec fn structs_de(ds: Seq<Declaracion>) -> Map<
    Seq<char>,
    (Seq<char>, Seq<(Seq<char>, Seq<char>)>, Span),
>
    decreases ds.len(),
{
    if ds.len() == 0 {
        Map::empty()
    } else {
        match ds.last() {
            Declaracion::Estructural(e) => structs_de(ds.drop_last()).insert(
                e.nombre@,
                vista_de_struct(e),
            ),
            _ => structs_de(ds.drop_last()),
        }
    }
}

/// Enums de las declaraciones.
pub open spec fn enums_de(ds: Seq<Declaracion>) -> Map<
    Seq<char>,
    (Seq<char>, Seq<(Seq<char>, Option<Seq<char>>)>, Span),
>
    decreases ds.len(),
{
    if ds.len() == 0 {
        Map::empty()
    } else {
        match ds.last() {
            Declaracion::Enumeracion(e) => enums_de(ds.drop_last()).insert(
                e.nombre@,
                vista_de_enum(e),
            ),
            _ => enums_de(ds.drop_last()),
        }
    }
}

/// Rasgos de las declaraciones.
pub open spec fn rasgos_de(ds: Seq<Declaracion>) -> Map<Seq<char>, (Seq<char>, Seq<Seq<char>>, Span)>
    decreases ds.len(),
{
    if ds.len() == 0 {
        Map::empty()
    } else {
        match ds.last() {
            Declaracion::Rasgo(r) => rasgos_de(ds.drop_last()).insert(r.nombre@, vista_de_rasgo(r)),
            _ => rasgos_de(ds.drop_last()),
        }
    }
}

/// Índice semántico de un documento
#[derive(Debug, Clone)]
pub struct IndiceSemantico {
    pub variables: Vec<(String, InfoVariableLsp)>,
    pub funciones: Vec<(String, InfoFuncionLsp)>,
    pub structs: Vec<(String, InfoStructLsp)>,
    pub enums: Vec<(String, InfoEnumLsp)>,
    pub traits: Vec<(String, InfoTraitLsp)>,
}

impl IndiceSemantico {
    /// Ninguna tabla repite nombre.
    pub open spec fn bien_formado(&self) -> bool {
        &&& claves_unicas(self.variables@)
        &&& claves_unicas(self.funciones@)
        &&& claves_unicas(self.structs@)
        &&& claves_unicas(self.enums@)
        &&& claves_unicas(self.traits@)
    }

    /// Índice vacío.
    pub fn nuevo() -> (r: Self)
        ensures
            r.bien_formado(),
            r.variables@.len() == 0,
            r.funciones@.len() == 0,
            r.structs@.len() == 0,
            r.enums@.len() == 0,
            r.traits@.len() == 0,
    {
        IndiceSemantico {
            variables: Vec::new(),
            funciones: Vec::new(),
            structs: Vec::new(),
            enums: Vec::new(),
            traits: Vec::new(),
        }
    }
}

/// Artículo tal como se escribe.
fn articulo_str(articulo: Articulo) -> (r: &'static str)
    ensures
        r@ == articulo_texto(articulo),
{
    match articulo {
        Articulo::El => "el",
        Articulo::La => "la",
        Articulo::Un => "un",
        Articulo::Los => "los",
        Articulo::Las => "las",
    }
}

/// Forma de depuración de un artículo.
fn articulo_a_depuracion(articulo: Articulo) -> (r: &'static str)
    ensures
        r@ == articulo_depurado(articulo),
{
    match articulo {
        Articulo::El => "El",
        Articulo::La => "La",
        Articulo::Un => "Un",
        Articulo::Los => "Los",
        Articulo::Las => "Las",
    }
}

/// Un parámetro como texto: `artículo nombre: Tipo`.
fn parametro_a_texto(p: &Parametro) -> (r: String)
    ensures
        r@ == parametro_texto(*p),
{
    let mut s = texto(articulo_str(p.articulo));
    agregar(&mut s, " ");
    agregar(&mut s, p.nombre.as_str());
    agregar(&mut s, ": ");
    agregar_tipo(&mut s, &p.tipo);
    s
}

/// Textos de los parámetros y pares (nombre, tipo).
fn textos_de_parametros(ps: &Vec<Parametro>) -> (r: (Vec<String>, Vec<(String, String)>))
    ensures
        r.0@.map_values(|s: String| s@) == ps@.map_values(|p: Parametro| parametro_texto(p)),
        vistas_pares(r.1@) == ps@.map_values(|p: Parametro| (p.nombre@, tipo_depurado(p.tipo))),
{
    let mut textos: Vec<String> = Vec::new();
    let mut pares: Vec<(String, String)> = Vec::new();
    let mut i: usize = 0;
    while i < ps.len()
        invariant
            i <= ps@.len(),
            textos@.len() == i,
            pares@.len() == i,
            forall|k: int| 0 <= k < i ==> (#[trigger] textos@[k])@ == parametro_texto(ps@[k]),
            forall|k: int|
                0 <= k < i ==> (#[trigger] pares@[k]).0@ == ps@[k].nombre@ && pares@[k].1@
                    == tipo_depurado(ps@[k].tipo),
        decreases ps@.len() - i,
    {
        textos.push(parametro_a_texto(&ps[i]));
        pares.push((ps[i].nombre.clone(), tipo_a_texto(&ps[i].tipo)));
        i = i + 1;
    }
    proof {
        assert(textos@.map_values(|s: String| s@) =~= ps@.map_values(
            |p: Parametro| parametro_texto(p),
        ));
        assert(vistas_pares(pares@) =~= ps@.map_values(
            |p: Parametro| (p.nombre@, tipo_depurado(p.tipo)),
        ));
    }
    (textos, pares)
}

/// Forma de depuración de los datos de una variante.
fn datos_a_texto(cs: &Vec<(String, Tipo)>) -> (r: String)
    ensures
        r@ == datos_depurados(cs@),
{
    let ghost piezas = cs@.map_values(
        |c: (String, Tipo)| "("@ + texto_depurado(c.0@) + ", "@ + tipo_depurado(c.1) + ")"@,
    );
    let mut s = texto("[");
    let mut i: usize = 0;
    proof {
        assert(piezas.take(0) =~= Seq::<Seq<char>>::empty());
        assert(s@ =~= "["@ + unidos(piezas.take(0), ", "@));
    }
    while i < cs.len()
        invariant
            i <= cs@.len(),
            piezas == cs@.map_values(
                |c: (String, Tipo)| "("@ + texto_depurado(c.0@) + ", "@ + tipo_depurado(c.1) + ")"@,
            ),
            s@ == "["@ + unidos(piezas.take(i as int), ", "@),
        decreases cs@.len() - i,
    {
        let ghost previo = s@;
        if i > 0 {
            agregar(&mut s, ", ");
        }
        agregar(&mut s, "(");
        agregar(&mut s, depurar_texto(cs[i].0.as_str()).as_str());
        agregar(&mut s, ", ");
        agregar_tipo(&mut s, &cs[i].1);
        agregar(&mut s, ")");
        proof {
            assert(piezas.take(i + 1).drop_last() =~= piezas.take(i as int));
            assert(s@ =~= "["@ + unidos(piezas.take(i + 1), ", "@));
        }
        i = i + 1;
    }
    agregar(&mut s, "]");
    proof {
        assert(piezas.take(cs@.len() as int) =~= piezas);
    }
    s
}

/// Firma de un método de rasgo: `fn nombre(params) -> Tipo`.
fn firma_a_texto(m: &FirmaMetodo) -> (r: String)
    ensures
        r@ == firma_texto(*m),
{
    let (params, _) = textos_de_parametros(&m.parametros);
    let ghost piezas = m.parametros@.map_values(|p: Parametro| parametro_texto(p));
    let mut s = texto("fn ");
    agregar(&mut s, m.nombre.as_str());
    agregar(&mut s, "(");
    let ghost antes = s@;
    let mut i: usize = 0;
    proof {
        assert(piezas.take(0) =~= Seq::<Seq<char>>::empty());
        assert(s@ =~= antes + unidos(piezas.take(0), ", "@));
    }
    while i < params.len()
        invariant
            i <= params@.len(),
            params@.map_values(|s: String| s@) == piezas,
            s@ == antes + unidos(piezas.take(i as int), ", "@),
        decreases params@.len() - i,
    {
        if i > 0 {
            agregar(&mut s, ", ");
        }
        agregar(&mut s, params[i].as_str());
        proof {
            assert(piezas[i as int] == params@[i as int]@);
            assert(piezas.take(i + 1).drop_last() =~= piezas.take(i as int));
            assert(s@ =~= antes + unidos(piezas.take(i + 1), ", "@));
        }
        i = i + 1;
    }
    agregar(&mut s, ")");
    proof {
        assert(piezas.take(piezas.len() as int) =~= piezas);
    }
    if let Some(t) = &m.retorno {
        agregar(&mut s, " -> ");
        agregar_tipo(&mut s, t);
    }
    proof {
        assert(s@ =~= firma_texto(*m));
    }
    s
}

impl IndiceSemantico {
    /// Construye el índice a partir del AST: funciones, structs, enums y rasgos
    /// top-level, y las variables (parámetros y declaraciones) de cada función.
    pub fn desde_ast(programa: &Programa) -> (r: Self)
        ensures
            r.bien_formado(),
            mapa_de(r.variables@) == variables_de(programa.declaraciones@),
            mapa_de(r.funciones@) == funciones_de(programa.declaraciones@),
            mapa_de(r.structs@) == structs_de(programa.declaraciones@),
            mapa_de(r.enums@) == enums_de(programa.declaraciones@),
            mapa_de(r.traits@) == rasgos_de(programa.declaraciones@),
    {
        let ghost ds = programa.declaraciones@;
        let mut indice = Self::nuevo();
        let mut i: usize = 0;
        proof {
            assert(ds.take(0) =~= Seq::<Declaracion>::empty());
            assert(mapa_de(indice.variables@) =~= variables_de(ds.take(0)));
            assert(mapa_de(indice.funciones@) =~= funciones_de(ds.take(0)));
            assert(mapa_de(indice.structs@) =~= structs_de(ds.take(0)));
            assert(mapa_de(indice.enums@) =~= enums_de(ds.take(0)));
            assert(mapa_de(indice.traits@) =~= rasgos_de(ds.take(0)));
        }
        while i < programa.declaraciones.len()
            invariant
                ds == programa.declaraciones@,
                i <= ds.len(),
                indice.bien_formado(),
                mapa_de(indice.variables@) == variables_de(ds.take(i as int)),
                mapa_de(indice.funciones@) == funciones_de(ds.take(i as int)),
                mapa_de(indice.structs@) == structs_de(ds.take(i as int)),
                mapa_de(indice.enums@) == enums_de(ds.take(i as int)),
                mapa_de(indice.traits@) == rasgos_de(ds.take(i as int)),
            decreases ds.len() - i,
        {
            proof {
                assert(ds.take(i + 1).drop_last() =~= ds.take(i as int));
            }
            match &programa.declaraciones[i] {
                Declaracion::Funcion(func) => {
                    indice.indexar_funcion(func);
                },
                Declaracion::Estructural(estructural) => {
                    indice.indexar_estructural(estructural);
                },
                Declaracion::Enumeracion(enumeracion) => {
                    indice.indexar_enumeracion(enumeracion);
                },
                Declaracion::Rasgo(rasgo) => {
                    indice.indexar_rasgo(rasgo);
                },
                _ => {},
            }
            i = i + 1;
        }
        proof {
            assert(ds.take(ds.len() as int) =~= ds);
        }
        indice
    }

    /// Registra una función y sus variables (parámetros y cuerpo).
    fn indexar_funcion(&mut self, func: &FuncionDecl)
        requires
            old(self).bien_formado(),
        ensures
            final(self).bien_formado(),
            mapa_de(final(self).funciones@) == mapa_de(old(self).funciones@).insert(
                func.nombre@,
                vista_de_funcion(*func),
            ),
            mapa_de(final(self).variables@) == vars_sentencias(
                vars_parametros(mapa_de(old(self).variables@), func.parametros@),
                func.cuerpo.sentencias@,
            ),
            final(self).structs == old(self).structs,
            final(self).enums == old(self).enums,
            final(self).traits == old(self).traits,
    {
        let (params, params_raw) = textos_de_parametros(&func.parametros);
        let retorno = match &func.retorno {
            Some(t) => Some(tipo_a_texto(t)),
            None => None,
        };
        let info = InfoFuncionLsp {
            nombre: func.nombre.clone(),
            retorno,
            parametros: params,
            parametros_raw: params_raw,
            span_declaracion: func.span.copia(),
        };
        insertar(&mut self.funciones, func.nombre.clone(), info);
        let ghost funciones = self.funciones;
        // Parámetros como variables
        let ps = &func.parametros;
        let ghost inicial = mapa_de(self.variables@);
        let mut i: usize = 0;
        proof {
            assert(ps@.take(0) =~= Seq::<Parametro>::empty());
        }
        while i < ps.len()
            invariant
                i <= ps@.len(),
                claves_unicas(self.variables@),
                mapa_de(self.variables@) == vars_parametros(inicial, ps@.take(i as int)),
                self.funciones == funciones,
                claves_unicas(funciones@),
                self.structs == old(self).structs,
                self.enums == old(self).enums,
                self.traits == old(self).traits,
                old(self).bien_formado(),
            decreases ps@.len() - i,
        {
            let p = &ps[i];
            let info = InfoVariableLsp {
                nombre: p.nombre.clone(),
                tipo: tipo_a_texto(&p.tipo),
                articulo: texto(articulo_str(p.articulo)),
                articulo_raw: texto(articulo_a_depuracion(p.articulo)),
                span_declaracion: p.span.copia(),
            };
            insertar(&mut self.variables, p.nombre.clone(), info);
            proof {
                assert(ps@.take(i + 1).drop_last() =~= ps@.take(i as int));
            }
            i = i + 1;
        }
        proof {
            assert(ps@.take(ps@.len() as int) =~= ps@);
        }
        // Variables del cuerpo
        self.indexar_sentencias(&func.cuerpo.sentencias);
    }

    /// Registra las variables declaradas en una lista de sentencias.
    fn indexar_sentencias(&mut self, ss: &Vec<Sentencia>)
        requires
            claves_unicas(old(self).variables@),
        ensures
            claves_unicas(final(self).variables@),
            mapa_de(final(self).variables@) == vars_sentencias(mapa_de(old(self).variables@), ss@),
            final(self).funciones == old(self).funciones,
            final(self).structs == old(self).structs,
            final(self).enums == old(self).enums,
            final(self).traits == old(self).traits,
        decreases ss,
    {
        let ghost inicial = mapa_de(self.variables@);
        let mut i: usize = 0;
        proof {
            assert(ss@.take(0) =~= Seq::<Sentencia>::empty());
        }
        while i < ss.len()
            invariant
                i <= ss@.len(),
                claves_unicas(self.variables@),
                mapa_de(self.variables@) == vars_sentencias(inicial, ss@.take(i as int)),
                self.funciones == old(self).funciones,
                self.structs == old(self).structs,
                self.enums == old(self).enums,
                self.traits == old(self).traits,
            decreases ss@.len() - i,
        {
            proof {
                vstd::std_specs::vec::axiom_vec_index_decreases(*ss, i as int);
                assert(ss@.take(i + 1).drop_last() =~= ss@.take(i as int));
            }
            self.indexar_sentencia(&ss[i]);
            i = i + 1;
        }
        proof {
            assert(ss@.take(ss@.len() as int) =~= ss@);
        }
    }

    /// Registra las variables declaradas en una sentencia (también dentro de condicionales y
    /// bucles `mientras`).
    fn indexar_sentencia(&mut self, sentencia: &Sentencia)
        requires
            claves_unicas(old(self).variables@),
        ensures
            claves_unicas(final(self).variables@),
            mapa_de(final(self).variables@) == vars_sentencia(
                mapa_de(old(self).variables@),
                *sentencia,
            ),
            final(self).funciones == old(self).funciones,
            final(self).structs == old(self).structs,
            final(self).enums == old(self).enums,
            final(self).traits == old(self).traits,
        decreases sentencia,
    {
        match sentencia {
            Sentencia::DeclaracionVariable(decl) => {
                let tipo = match &decl.tipo {
                    Some(t) => tipo_a_texto(t),
                    None => texto("inferido"),
                };
                let info = InfoVariableLsp {
                    nombre: decl.nombre.clone(),
                    tipo,
                    articulo: texto(articulo_str(decl.articulo)),
                    articulo_raw: texto(articulo_a_depuracion(decl.articulo)),
                    span_declaracion: decl.span.copia(),
                };
                insertar(&mut self.variables, decl.nombre.clone(), info);
            },
            Sentencia::Condicional(cond) => {
                self.indexar_sentencias(&cond.bloque_entonces.sentencias);
                if let Some(sino) = &cond.bloque_sino {
                    self.indexar_sentencias(&sino.sentencias);
                }
            },
            Sentencia::BucleMientras(bucle) => {
                self.indexar_sentencias(&bucle.bloque.sentencias);
            },
            _ => {},
        }
    }

    /// Registra un struct con sus campos.
    fn indexar_estructural(&mut self, decl: &EstructuralDecl)
        requires
            old(self).bien_formado(),
        ensures
            final(self).bien_formado(),
            mapa_de(final(self).structs@) == mapa_de(old(self).structs@).insert(
                decl.nombre@,
                vista_de_struct(*decl),
            ),
            final(self).variables == old(self).variables,
            final(self).funciones == old(self).funciones,
            final(self).enums == old(self).enums,
            final(self).traits == old(self).traits,
    {
        let mut campos: Vec<(String, String)> = Vec::new();
        let mut i: usize = 0;
        while i < decl.campos.len()
            invariant
                i <= decl.campos@.len(),
                campos@.len() == i,
                forall|k: int|
                    0 <= k < i ==> (#[trigger] campos@[k]).0@ == decl.campos@[k].nombre@
                        && campos@[k].1@ == tipo_depurado(decl.campos@[k].tipo),
            decreases decl.campos@.len() - i,
        {
            campos.push((decl.campos[i].nombre.clone(), tipo_a_texto(&decl.campos[i].tipo)));
            i = i + 1;
        }
        proof {
            assert(vistas_pares(campos@) =~= decl.campos@.map_values(
                |c: Campo| (c.nombre@, tipo_depurado(c.tipo)),
            ));
        }
        let info = InfoStructLsp {
            nombre: decl.nombre.clone(),
            campos,
            span_declaracion: decl.span.copia(),
        };
        insertar(&mut self.structs, decl.nombre.clone(), info);
    }

    /// Registra un enum con sus variantes.
    fn indexar_enumeracion(&mut self, decl: &EnumeracionDecl)
        requires
            old(self).bien_formado(),
        ensures
            final(self).bien_formado(),
            mapa_de(final(self).enums@) == mapa_de(old(self).enums@).insert(
                decl.nombre@,
                vista_de_enum(*decl),
            ),
            final(self).variables == old(self).variables,
            final(self).funciones == old(self).funciones,
            final(self).structs == old(self).structs,
            final(self).traits == old(self).traits,
    {
        let mut variantes: Vec<(String, Option<String>)> = Vec::new();
        let mut i: usize = 0;
        while i < decl.variantes.len()
            invariant
                i <= decl.variantes@.len(),
                variantes@.len() == i,
                forall|k: int|
                    0 <= k < i ==> (#[trigger] variantes@[k]).0@ == decl.variantes@[k].nombre@
                        && vista_opcion(variantes@[k].1) == match decl.variantes@[k].datos {
                        Some(d) => Some(datos_depurados(d@)),
                        None => None::<Seq<char>>,
                    },
            decreases decl.variantes@.len() - i,
        {
            let v = &decl.variantes[i];
            let datos = match &v.datos {
                Some(d) => Some(datos_a_texto(d)),
                None => None,
            };
            variantes.push((v.nombre.clone(), datos));
            i = i + 1;
        }
        proof {
            assert(variantes@.map_values(
                |p: (String, Option<String>)| (p.0@, vista_opcion(p.1)),
            ) =~= decl.variantes@.map_values(
                |v: Variante|
                    (
                        v.nombre@,
                        match v.datos {
                            Some(d) => Some(datos_depurados(d@)),
                            None => None,
                        },
                    ),
            ));
        }
        let info = InfoEnumLsp {
            nombre: decl.nombre.clone(),
            variantes,
            span_declaracion: decl.span.copia(),
        };
        insertar(&mut self.enums, decl.nombre.clone(), info);
    }

    /// Registra un rasgo con las firmas de sus métodos.
    fn indexar_rasgo(&mut self, decl: &RasgoDecl)
        requires
            old(self).bien_formado(),
        ensures
            final(self).bien_formado(),
            mapa_de(final(self).traits@) == mapa_de(old(self).traits@).insert(
                decl.nombre@,
                vista_de_rasgo(*decl),
            ),
            final(self).variables == old(self).variables,
            final(self).funciones == old(self).funciones,
            final(self).structs == old(self).structs,
            final(self).enums == old(self).enums,
    {
        let mut metodos: Vec<String> = Vec::new();
        let mut i: usize = 0;
        while i < decl.metodos.len()
            invariant
                i <= decl.metodos@.len(),
                metodos@.len() == i,
                forall|k: int| 0 <= k < i ==> (#[trigger] metodos@[k])@ == firma_texto(decl.metodos@[k]),
            decreases decl.metodos@.len() - i,
        {
            metodos.push(firma_a_texto(&decl.metodos[i]));
            i = i + 1;
        }
        proof {
            assert(metodos@.map_values(|s: String| s@) =~= decl.metodos@.map_values(
                |m: FirmaMetodo| firma_texto(m),
            ));
        }
        let info = InfoTraitLsp {
            nombre: decl.nombre.clone(),
            metodos,
            span_declaracion: decl.span.copia(),
        };
        insertar(&mut self.traits, decl.nombre.clone(), info);
    }
}

/// La posición (línea, columna) está dentro del span.
pub open spec fn en_span(linea: u32, columna: u32, s: Span) -> bool {
    linea >= s.inicio.linea && linea <= s.fin.linea && columna >= s.inicio.columna && columna
        <= s.fin.columna
}

/// La primera de dos búsquedas que encuentra algo.
pub open spec fn primera(a: Option<Seq<char>>, b: Option<Seq<char>>) -> Option<Seq<char>> {
    match a {
        Some(x) => Some(x),
        None => b,
    }
}

/// Identificador de una expresión que contiene la posición: un identificador, el nombre de
/// una llamada o lo que haya en sus argumentos, o en los operandos.
pub open spec fn buscar_expr(e: Expresion, l: u32, c: u32) -> Option<Seq<char>>
    decreases e,
{
    match e {
        Expresion::Identificador(nombre, sp) => if en_span(l, c, sp) {
            Some(nombre@)
        } else {
            None
        },
        Expresion::Llamada(llamada) => if en_span(l, c, llamada.span) {
            Some(llamada.funcion@)
        } else {
            buscar_exprs(llamada.argumentos@, l, c)
        },
        Expresion::Binaria(izq, _, der, _) => primera(buscar_expr(*izq, l, c), buscar_expr(*der, l, c)),
        Expresion::Unaria(_, x, _) => buscar_expr(*x, l, c),
        _ => None,
    }
}

/// Primer resultado de buscar en las expresiones, en orden.
pub open spec fn buscar_exprs(es: Seq<Expresion>, l: u32, c: u32) -> Option<Seq<char>>
    decreases es,
{
    if es.len() == 0 {
        None
    } else {
        primera(buscar_expr(es[0], l, c), buscar_exprs(es.drop_first(), l, c))
    }
}

/// Identificador de una sentencia que contiene la posición.
pub open spec fn buscar_sent(s: Sentencia, l: u32, c: u32) -> Option<Seq<char>>
    decreases s,
{
    match s {
        Sentencia::Expresion(e) => buscar_expr(e, l, c),
        Sentencia::DeclaracionVariable(d) => primera(
            buscar_expr(d.valor, l, c),
            if en_span(l, c, d.span) {
                Some(d.nombre@)
            } else {
                None
            },
        ),
        Sentencia::Asignacion(a) => primera(
            if en_span(l, c, a.span) {
                buscar_lugar(a.lugar, l, c)
            } else {
                None
            },
            buscar_expr(a.valor, l, c),
        ),
        Sentencia::Retornar(valor, _) => match valor {
            Some(e) => buscar_expr(e, l, c),
            None => None,
        },
        Sentencia::Condicional(cond) => primera(
            buscar_expr(cond.condicion, l, c),
            primera(
                buscar_sents(cond.bloque_entonces.sentencias@, l, c),
                buscar_sino(cond.bloque_sino, l, c),
            ),
        ),
        Sentencia::BucleMientras(b) => primera(
            buscar_expr(b.condicion, l, c),
            buscar_sents(b.bloque.sentencias@, l, c),
        ),
        Sentencia::BuclePara(b) => primera(
            buscar_expr(b.iterable, l, c),
            buscar_sents(b.bloque.sentencias@, l, c),
        ),
        Sentencia::Region { cuerpo, .. } => buscar_sents(cuerpo@, l, c),
        Sentencia::Seleccionar(sel) => buscar_ramas(sel.ramas@, l, c),
        Sentencia::ConExecutor { hilos, cuerpo, .. } => primera(
            buscar_expr(hilos, l, c),
            buscar_sents(cuerpo@, l, c),
        ),
    }
}

/// Identificador en el lugar de una asignación.
pub open spec fn buscar_lugar(lugar: Lugar, l: u32, c: u32) -> Option<Seq<char>>
    decreases lugar,
{
    match lugar {
        Lugar::Identificador(nombre) => Some(nombre@),
        Lugar::Array(array, _) => buscar_expr(*array, l, c),
        Lugar::Campo(base, _) => buscar_expr(*base, l, c),
    }
}

/// Identificador en el bloque `sino`, si lo hay.
pub open spec fn buscar_sino(b: Option<Bloque>, l: u32, c: u32) -> Option<Seq<char>>
    decreases b,
{
    match b {
        Some(b) => buscar_sents(b.sentencias@, l, c),
        None => None,
    }
}

/// Primer resultado de buscar en las sentencias, en orden.
pub open spec fn buscar_sents(ss: Seq<Sentencia>, l: u32, c: u32) -> Option<Seq<char>>
    decreases ss,
{
    if ss.len() == 0 {
        None
    } else {
        primera(buscar_sent(ss[0], l, c), buscar_sents(ss.drop_first(), l, c))
    }
}

/// Primer resultado de buscar en las ramas de un `seleccionar` (canal y cuerpo de cada una).
pub open spec fn buscar_ramas(rs: Seq<RamaSeleccionar>, l: u32, c: u32) -> Option<Seq<char>>
    decreases rs,
{
    if rs.len() == 0 {
        None
    } else {
        primera(
            primera(buscar_expr(rs[0].canal, l, c), buscar_sents(rs[0].cuerpo.sentencias@, l, c)),
            buscar_ramas(rs.drop_first(), l, c),
        )
    }
}

/// Primer resultado de buscar en los cuerpos de las funciones, en orden.
pub open spec fn buscar_en_funciones(ds: Seq<Declaracion>, l: u32, c: u32) -> Option<Seq<char>>
    decreases ds.len(),
{
    if ds.len() == 0 {
        None
    } else {
        primera(
            match ds[0] {
                Declaracion::Funcion(f) => buscar_sents(f.cuerpo.sentencias@, l, c),
                _ => None,
            },
            buscar_en_funciones(ds.drop_first(), l, c),
        )
    }
}

/// ¿Está la posición (línea, columna) dentro del span?
fn posicion_en_span(linea: u32, columna: u32, span: &Span) -> (r: bool)
    ensures
        r == en_span(linea, columna, *span),
{
    linea >= span.inicio.linea && linea <= span.fin.linea && columna >= span.inicio.columna
        && columna <= span.fin.columna
}

/// Busca en una expresión.
fn buscar_en_expresion(expr: &Expresion, linea: u32, columna: u32) -> (r: Option<String>)
    ensures
        vista_opcion(r) == buscar_expr(*expr, linea, columna),
    decreases expr,
{
    match expr {
        Expresion::Identificador(nombre, span) => {
            if posicion_en_span(linea, columna, span) {
                Some(nombre.clone())
            } else {
                None
            }
        },
        Expresion::Llamada(llamada) => {
            // ¿Está sobre el nombre de la función?
            if posicion_en_span(linea, columna, &llamada.span) {
                return Some(llamada.funcion.clone());
            }
            buscar_en_expresiones(&llamada.argumentos, linea, columna)
        },
        Expresion::Binaria(izq, _, der, _) => {
            if let Some(n) = buscar_en_expresion(izq, linea, columna) {
                return Some(n);
            }
            buscar_en_expresion(der, linea, columna)
        },
        Expresion::Unaria(_, x, _) => buscar_en_expresion(x, linea, columna),
        _ => None,
    }
}

/// Busca en las expresiones, en orden.
fn buscar_en_expresiones(es: &Vec<Expresion>, linea: u32, columna: u32) -> (r: Option<String>)
    ensures
        vista_opcion(r) == buscar_exprs(es@, linea, columna),
    decreases es,
{
    let mut i: usize = 0;
    proof {
        assert(es@.skip(0) =~= es@);
    }
    while i < es.len()
        invariant
            i <= es@.len(),
            buscar_exprs(es@, linea, columna) == buscar_exprs(es@.skip(i as int), linea, columna),
        decreases es@.len() - i,
    {
        proof {
            vstd::std_specs::vec::axiom_vec_index_decreases(*es, i as int);
            assert(es@.skip(i as int)[0] == es@[i as int]);
            assert(es@.skip(i as int).drop_first() =~= es@.skip(i + 1));
        }
        if let Some(n) = buscar_en_expresion(&es[i], linea, columna) {
            return Some(n);
        }
        i = i + 1;
    }
    proof {
        assert(es@.skip(es@.len() as int) =~= Seq::<Expresion>::empty());
    }
    None
}

/// Busca en una sentencia.
fn buscar_en_sentencia(sentencia: &Sentencia, linea: u32, columna: u32) -> (r: Option<String>)
    ensures
        vista_opcion(r) == buscar_sent(*sentencia, linea, columna),
    decreases sentencia,
{
    match sentencia {
        Sentencia::Expresion(expr) => buscar_en_expresion(expr, linea, columna),
        Sentencia::DeclaracionVariable(decl) => {
            if let Some(n) = buscar_en_expresion(&decl.valor, linea, columna) {
                return Some(n);
            }
            // ¿Es el nombre de la variable en sí?
            if posicion_en_span(linea, columna, &decl.span) {
                return Some(decl.nombre.clone());
            }
            None
        },
        Sentencia::Asignacion(asig) => {
            if posicion_en_span(linea, columna, &asig.span) {
                match &asig.lugar {
                    Lugar::Identificador(nombre) => {
                        return Some(nombre.clone());
                    },
                    Lugar::Array(array, _) => {
                        if let Some(n) = buscar_en_expresion(array, linea, columna) {
                            return Some(n);
                        }
                    },
                    Lugar::Campo(base, _) => {
                        if let Some(n) = buscar_en_expresion(base, linea, columna) {
                            return Some(n);
                        }
                    },
                }
            }
            buscar_en_expresion(&asig.valor, linea, columna)
        },
        Sentencia::Retornar(expr, _) => match expr {
            Some(e) => buscar_en_expresion(e, linea, columna),
            None => None,
        },
        Sentencia::Condicional(cond) => {
            if let Some(n) = buscar_en_expresion(&cond.condicion, linea, columna) {
                return Some(n);
            }
            if let Some(n) = buscar_en_bloque(&cond.bloque_entonces, linea, columna) {
                return Some(n);
            }
            if let Some(sino) = &cond.bloque_sino {
                if let Some(n) = buscar_en_bloque(sino, linea, columna) {
                    return Some(n);
                }
            }
            None
        },
        Sentencia::BucleMientras(bucle) => {
            if let Some(n) = buscar_en_expresion(&bucle.condicion, linea, columna) {
                return Some(n);
            }
            buscar_en_bloque(&bucle.bloque, linea, columna)
        },
        Sentencia::BuclePara(bucle) => {
            if let Some(n) = buscar_en_expresion(&bucle.iterable, linea, columna) {
                return Some(n);
            }
            buscar_en_bloque(&bucle.bloque, linea, columna)
        },
        Sentencia::Region { cuerpo, .. } => buscar_en_sentencias(cuerpo, linea, columna),
        Sentencia::Seleccionar(seleccionar) => buscar_en_ramas(&seleccionar.ramas, linea, columna),
        Sentencia::ConExecutor { hilos, cuerpo, .. } => {
            if let Some(n) = buscar_en_expresion(hilos, linea, columna) {
                return Some(n);
            }
            buscar_en_sentencias(cuerpo, linea, columna)
        },
    }
}

/// Busca en las sentencias de un bloque, en orden.
fn buscar_en_bloque(bloque: &Bloque, linea: u32, columna: u32) -> (r: Option<String>)
    ensures
        vista_opcion(r) == buscar_sents(bloque.sentencias@, linea, columna),
    decreases bloque,
{
    buscar_en_sentencias(&bloque.sentencias, linea, columna)
}

/// Busca en las sentencias, en orden.
fn buscar_en_sentencias(ss: &Vec<Sentencia>, linea: u32, columna: u32) -> (r: Option<String>)
    ensures
        vista_opcion(r) == buscar_sents(ss@, linea, columna),
    decreases ss,
{
    let mut i: usize = 0;
    proof {
        assert(ss@.skip(0) =~= ss@);
    }
    while i < ss.len()
        invariant
            i <= ss@.len(),
            buscar_sents(ss@, linea, columna) == buscar_sents(ss@.skip(i as int), linea, columna),
        decreases ss@.len() - i,
    {
        proof {
            vstd::std_specs::vec::axiom_vec_index_decreases(*ss, i as int);
            assert(ss@.skip(i as int)[0] == ss@[i as int]);
            assert(ss@.skip(i as int).drop_first() =~= ss@.skip(i + 1));
        }
        if let Some(n) = buscar_en_sentencia(&ss[i], linea, columna) {
            return Some(n);
        }
        i = i + 1;
    }
    proof {
        assert(ss@.skip(ss@.len() as int) =~= Seq::<Sentencia>::empty());
    }
    None
}

/// Busca en las ramas de un `seleccionar`, en orden.
fn buscar_en_ramas(rs: &Vec<RamaSeleccionar>, linea: u32, columna: u32) -> (r: Option<String>)
    ensures
        vista_opcion(r) == buscar_ramas(rs@, linea, columna),
    decreases rs,
{
    let mut i: usize = 0;
    proof {
        assert(rs@.skip(0) =~= rs@);
    }
    while i < rs.len()
        invariant
            i <= rs@.len(),
            buscar_ramas(rs@, linea, columna) == buscar_ramas(rs@.skip(i as int), linea, columna),
        decreases rs@.len() - i,
    {
        proof {
            vstd::std_specs::vec::axiom_vec_index_decreases(*rs, i as int);
            assert(rs@.skip(i as int)[0] == rs@[i as int]);
            assert(rs@.skip(i as int).drop_first() =~= rs@.skip(i + 1));
        }
        if let Some(n) = buscar_en_expresion(&rs[i].canal, linea, columna) {
            return Some(n);
        }
        if let Some(n) = buscar_en_sentencias(&rs[i].cuerpo.sentencias, linea, columna) {
            return Some(n);
        }
        i = i + 1;
    }
    proof {
        assert(rs@.skip(rs@.len() as int) =~= Seq::<RamaSeleccionar>::empty());
    }
    None
}

impl IndiceSemantico {
    /// Busca qué identificador está en la posición dada (línea y columna desde 1), en los
    /// cuerpos de las funciones en orden.
    pub fn identificador_en_posicion(&self, programa: &Programa, linea: u32, columna: u32) -> (r:
        Option<String>)
        ensures
            vista_opcion(r) == buscar_en_funciones(programa.declaraciones@, linea, columna),
    {
        let ghost ds = programa.declaraciones@;
        let mut i: usize = 0;
        proof {
            assert(ds.skip(0) =~= ds);
        }
        while i < programa.declaraciones.len()
            invariant
                ds == programa.declaraciones@,
                i <= ds.len(),
                buscar_en_funciones(ds, linea, columna) == buscar_en_funciones(
                    ds.skip(i as int),
                    linea,
                    columna,
                ),
            decreases ds.len() - i,
        {
            proof {
                assert(ds.skip(i as int)[0] == ds[i as int]);
                assert(ds.skip(i as int).drop_first() =~= ds.skip(i + 1));
            }
            if let Declaracion::Funcion(func) = &programa.declaraciones[i] {
                if let Some(nombre) = buscar_en_bloque(&func.cuerpo, linea, columna) {
                    return Some(nombre);
                }
            }
            i = i + 1;
        }
        proof {
            assert(ds.skip(ds.len() as int) =~= Seq::<Declaracion>::empty());
        }
        None
    }
}

/// Un span si la condición se cumple; nada si no.
pub open spec fn si(c: bool, s: Span) -> Seq<Span> {
    if c {
        seq![s]
    } else {
        Seq::empty()
    }
}

/// Spans donde una expresión usa el nombre, en orden de recorrido: identificadores, nombres
/// de funciones llamadas, variables movidas y rutas que lo contienen.
pub open spec fn refs_expr(e: Expresion, n: Seq<char>) -> Seq<Span>
    decreases e,
{
    match e {
        Expresion::Literal(_) => Seq::empty(),
        Expresion::Identificador(nombre, sp) => si(nombre@ == n, sp),
        Expresion::Llamada(ll) => si(ll.funcion@ == n, ll.span) + refs_exprs(ll.argumentos@, n),
        Expresion::Binaria(izq, _, der, _) => refs_expr(*izq, n) + refs_expr(*der, n),
        Expresion::Unaria(_, x, _) => refs_expr(*x, n),
        Expresion::LiteralArray(es, _) => refs_exprs(es@, n),
        Expresion::ArrayRelleno(x, _, _) => refs_expr(*x, n),
        Expresion::AccesoArray(base, indice, _) => refs_expr(*base, n) + refs_expr(*indice, n),
        Expresion::InicializacionStruct(_, campos, _) => refs_campos(campos@, n),
        Expresion::ConstructorEnum(_, _, args, _) => refs_exprs(args@, n),
        Expresion::AccesoCampo(base, _, _) => refs_expr(*base, n),
        Expresion::EsVariante(base, _, _, _, _) => refs_expr(*base, n),
        Expresion::Propagacion(x, _) => refs_expr(*x, n),
        Expresion::Mover(nombre, destino, sp) => si(nombre@ == n, sp) + (match destino {
            Some(d) => refs_expr(*d, n),
            None => Seq::empty(),
        }),
        Expresion::Copiar(x, _) => refs_expr(*x, n),
        Expresion::Ruta(ruta, sp) => si(exists|i: int| 0 <= i < ruta@.len() && (#[trigger] ruta@[i])@ == n, sp),
        Expresion::Rango(inicio, fin, _, _) => refs_expr(*inicio, n) + refs_expr(*fin, n),
        Expresion::Closure(_, cuerpo, _) => refs_expr(*cuerpo, n),
        Expresion::Coincidir(sujeto, brazos, _) => refs_expr(*sujeto, n) + refs_brazos(brazos@, n),
        Expresion::Esperar(x, _) => refs_expr(*x, n),
        Expresion::Lanzar(x, _) => refs_expr(*x, n),
        Expresion::Bloquear(x, _) => refs_expr(*x, n),
        Expresion::Metodo(receptor, _, args, _) => refs_expr(*receptor, n) + refs_exprs(args@, n),
        Expresion::Bloque(b) => refs_expresiones_de(b.sentencias@, n),
        Expresion::DireccionDe(_, _) => Seq::empty(),
    }
}

/// Referencias en las expresiones, en orden.
pub open spec fn refs_exprs(es: Seq<Expresion>, n: Seq<char>) -> Seq<Span>
    decreases es,
{
    if es.len() == 0 {
        Seq::empty()
    } else {
        refs_expr(es[0], n) + refs_exprs(es.drop_first(), n)
    }
}

/// Referencias en los valores de los campos de una inicialización de struct.
pub open spec fn refs_campos(cs: Seq<(String, Expresion)>, n: Seq<char>) -> Seq<Span>
    decreases cs,
{
    if cs.len() == 0 {
        Seq::empty()
    } else {
        refs_expr(cs[0].1, n) + refs_campos(cs.drop_first(), n)
    }
}

/// Referencias en los cuerpos de los brazos de un `coincidir`.
pub open spec fn refs_brazos(bs: Seq<BrazoMatch>, n: Seq<char>) -> Seq<Span>
    decreases bs,
{
    if bs.len() == 0 {
        Seq::empty()
    } else {
        refs_expr(bs[0].cuerpo, n) + refs_brazos(bs.drop_first(), n)
    }
}

/// Referencias en las sentencias de expresión de un bloque usado como expresión (las demás
/// sentencias no se recorren).
pub open spec fn refs_expresiones_de(ss: Seq<Sentencia>, n: Seq<char>) -> Seq<Span>
    decreases ss,
{
    if ss.len() == 0 {
        Seq::empty()
    } else {
        (match ss[0] {
            Sentencia::Expresion(e) => refs_expr(e, n),
            _ => Seq::empty(),
        }) + refs_expresiones_de(ss.drop_first(), n)
    }
}

/// Referencias en una sentencia: sus expresiones y bloques en orden; en una asignación, la
/// base de un lugar indexado y luego el valor.
pub open spec fn refs_sent(s: Sentencia, n: Seq<char>) -> Seq<Span>
    decreases s,
{
    match s {
        Sentencia::Expresion(e) => refs_expr(e, n),
        Sentencia::DeclaracionVariable(d) => refs_expr(d.valor, n),
        Sentencia::Asignacion(a) => (match a.lugar {
            Lugar::Array(array, _) => refs_expr(*array, n),
            _ => Seq::empty(),
        }) + refs_expr(a.valor, n),
        Sentencia::Retornar(valor, _) => match valor {
            Some(e) => refs_expr(e, n),
            None => Seq::empty(),
        },
        Sentencia::Condicional(c) => refs_expr(c.condicion, n) + refs_sents(
            c.bloque_entonces.sentencias@,
            n,
        ) + refs_sino(c.bloque_sino, n),
        Sentencia::BucleMientras(b) => refs_expr(b.condicion, n) + refs_sents(b.bloque.sentencias@, n),
        Sentencia::BuclePara(b) => refs_expr(b.iterable, n) + refs_sents(b.bloque.sentencias@, n),
        Sentencia::Region { cuerpo, .. } => refs_sents(cuerpo@, n),
        Sentencia::Seleccionar(sel) => refs_ramas(sel.ramas@, n),
        Sentencia::ConExecutor { hilos, cuerpo, .. } => refs_expr(hilos, n) + refs_sents(cuerpo@, n),
    }
}

/// Referencias en el bloque `sino`, si lo hay.
pub open spec fn refs_sino(b: Option<Bloque>, n: Seq<char>) -> Seq<Span>
    decreases b,
{
    match b {
        Some(b) => refs_sents(b.sentencias@, n),
        None => Seq::empty(),
    }
}

/// Referencias en las sentencias, en orden.
pub open spec fn refs_sents(ss: Seq<Sentencia>, n: Seq<char>) -> Seq<Span>
    decreases ss,
{
    if ss.len() == 0 {
        Seq::empty()
    } else {
        refs_sent(ss[0], n) + refs_sents(ss.drop_first(), n)
    }
}

/// Referencias en las ramas de un `seleccionar`: el canal y el cuerpo de cada una.
pub open spec fn refs_ramas(rs: Seq<RamaSeleccionar>, n: Seq<char>) -> Seq<Span>
    decreases rs,
{
    if rs.len() == 0 {
        Seq::empty()
    } else {
        refs_expr(rs[0].canal, n) + refs_sents(rs[0].cuerpo.sentencias@, n) + refs_ramas(
            rs.drop_first(),
            n,
        )
    }
}

/// Referencias en los cuerpos de las funciones, en orden de declaración.
pub open spec fn refs_en_funciones(ds: Seq<Declaracion>, n: Seq<char>) -> Seq<Span>
    decreases ds.len(),
{
    if ds.len() == 0 {
        Seq::empty()
    } else {
        (match ds[0] {
            Declaracion::Funcion(f) => refs_sents(f.cuerpo.sentencias@, n),
            _ => Seq::empty(),
        }) + refs_en_funciones(ds.drop_first(), n)
    }
}

/// ¿Alguno de los segmentos de la ruta es el nombre?
fn ruta_contiene(ruta: &Vec<String>, nombre: &str) -> (r: bool)
    ensures
        r == exists|i: int| 0 <= i < ruta@.len() && (#[trigger] ruta@[i])@ == nombre@,
{
    let mut i: usize = 0;
    while i < ruta.len()
        invariant
            i <= ruta@.len(),
            forall|k: int| 0 <= k < i ==> (#[trigger] ruta@[k])@ != nombre@,
        decreases ruta@.len() - i,
    {
        if es_texto(&ruta[i], nombre) {
            return true;
        }
        i = i + 1;
    }
    false
}

/// Añade el span si la condición se cumple.
fn agregar_si(refs: &mut Vec<Span>, c: bool, span: &Span)
    ensures
        final(refs)@ == old(refs)@ + si(c, *span),
{
    if c {
        refs.push(span.copia());
    } else {
        proof {
            assert(old(refs)@ + si(c, *span) =~= old(refs)@);
        }
    }
}

/// Añade las referencias al nombre en una expresión.
fn colectar_referencias_en_expresion(expr: &Expresion, nombre: &str, refs: &mut Vec<Span>)
    ensures
        final(refs)@ == old(refs)@ + refs_expr(*expr, nombre@),
    decreases expr,
{
    let ghost inicio = refs@;
    let ghost n = nombre@;
    match expr {
        Expresion::Identificador(n2, span) => {
            agregar_si(refs, es_texto(n2, nombre), span);
        },
        Expresion::Llamada(llamada) => {
            agregar_si(refs, es_texto(&llamada.funcion, nombre), &llamada.span);
            colectar_referencias_en_expresiones(&llamada.argumentos, nombre, refs);
            proof {
                assert(refs@ =~= inicio + refs_expr(*expr, n));
            }
        },
        Expresion::Binaria(izq, _, der, _) => {
            colectar_referencias_en_expresion(izq, nombre, refs);
            colectar_referencias_en_expresion(der, nombre, refs);
            proof {
                assert(refs@ =~= inicio + refs_expr(*expr, n));
            }
        },
        Expresion::Unaria(_, x, _) => colectar_referencias_en_expresion(x, nombre, refs),
        Expresion::LiteralArray(elementos, _) => {
            colectar_referencias_en_expresiones(elementos, nombre, refs);
        },
        Expresion::ArrayRelleno(x, _, _) => colectar_referencias_en_expresion(x, nombre, refs),
        Expresion::AccesoArray(base, indice, _) => {
            colectar_referencias_en_expresion(base, nombre, refs);
            colectar_referencias_en_expresion(indice, nombre, refs);
            proof {
                assert(refs@ =~= inicio + refs_expr(*expr, n));
            }
        },
        Expresion::InicializacionStruct(_, campos, _) => {
            colectar_referencias_en_campos(campos, nombre, refs);
        },
        Expresion::ConstructorEnum(_, _, args, _) => {
            colectar_referencias_en_expresiones(args, nombre, refs);
        },
        Expresion::AccesoCampo(base, _, _) => colectar_referencias_en_expresion(base, nombre, refs),
        Expresion::EsVariante(base, _, _, _, _) => colectar_referencias_en_expresion(
            base,
            nombre,
            refs,
        ),
        Expresion::Propagacion(x, _) => colectar_referencias_en_expresion(x, nombre, refs),
        Expresion::Mover(nombre_var, destino, span) => {
            agregar_si(refs, es_texto(nombre_var, nombre), span);
            if let Some(dest) = destino {
                colectar_referencias_en_expresion(dest, nombre, refs);
            }
            proof {
                assert(refs@ =~= inicio + refs_expr(*expr, n));
            }
        },
        Expresion::Copiar(x, _) => colectar_referencias_en_expresion(x, nombre, refs),
        Expresion::Ruta(ruta, span) => {
            agregar_si(refs, ruta_contiene(ruta, nombre), span);
        },
        Expresion::Rango(inicio_r, fin, _, _) => {
            colectar_referencias_en_expresion(inicio_r, nombre, refs);
            colectar_referencias_en_expresion(fin, nombre, refs);
            proof {
                assert(refs@ =~= inicio + refs_expr(*expr, n));
            }
        },
        Expresion::Closure(_, cuerpo, _) => colectar_referencias_en_expresion(cuerpo, nombre, refs),
        Expresion::Coincidir(sujeto, brazos, _) => {
            colectar_referencias_en_expresion(sujeto, nombre, refs);
            colectar_referencias_en_brazos(brazos, nombre, refs);
            proof {
                assert(refs@ =~= inicio + refs_expr(*expr, n));
            }
        },
        Expresion::Esperar(x, _) => colectar_referencias_en_expresion(x, nombre, refs),
        Expresion::Lanzar(x, _) => colectar_referencias_en_expresion(x, nombre, refs),
        Expresion::Bloquear(x, _) => colectar_referencias_en_expresion(x, nombre, refs),
        Expresion::DireccionDe(_, _) => {
            // una dirección de función no cuenta como uso de una variable
            proof {
                assert(refs@ =~= inicio + refs_expr(*expr, n));
            }
        },
        Expresion::Bloque(bloque) => {
            colectar_expresiones_de_bloque(&bloque.sentencias, nombre, refs);
        },
        Expresion::Metodo(receptor, _, args, _) => {
            colectar_referencias_en_expresion(receptor, nombre, refs);
            colectar_referencias_en_expresiones(args, nombre, refs);
            proof {
                assert(refs@ =~= inicio + refs_expr(*expr, n));
            }
        },
        Expresion::Literal(_) => {
            proof {
                assert(refs@ =~= inicio + refs_expr(*expr, n));
            }
        },
    }
}

/// Añade las referencias de cada expresión, en orden.
fn colectar_referencias_en_expresiones(es: &Vec<Expresion>, nombre: &str, refs: &mut Vec<Span>)
    ensures
        final(refs)@ == old(refs)@ + refs_exprs(es@, nombre@),
    decreases es,
{
    let ghost inicio = refs@;
    let mut i: usize = 0;
    proof {
        assert(es@.skip(0) =~= es@);
        assert(refs@ + refs_exprs(es@.skip(0), nombre@) =~= inicio + refs_exprs(es@, nombre@));
    }
    while i < es.len()
        invariant
            i <= es@.len(),
            refs@ + refs_exprs(es@.skip(i as int), nombre@) == inicio + refs_exprs(es@, nombre@),
        decreases es@.len() - i,
    {
        proof {
            vstd::std_specs::vec::axiom_vec_index_decreases(*es, i as int);
            assert(es@.skip(i as int)[0] == es@[i as int]);
            assert(es@.skip(i as int).drop_first() =~= es@.skip(i + 1));
        }
        let ghost antes = refs@;
        colectar_referencias_en_expresion(&es[i], nombre, refs);
        proof {
            assert(refs@ + refs_exprs(es@.skip(i + 1), nombre@) =~= antes + refs_exprs(
                es@.skip(i as int),
                nombre@,
            ));
        }
        i = i + 1;
    }
    proof {
        assert(es@.skip(i as int) =~= Seq::<Expresion>::empty());
        assert(refs@ =~= refs@ + refs_exprs(es@.skip(i as int), nombre@));
    }
}

/// Añade las referencias de los valores de los campos, en orden.
fn colectar_referencias_en_campos(
    cs: &Vec<(String, Expresion)>,
    nombre: &str,
    refs: &mut Vec<Span>,
)
    ensures
        final(refs)@ == old(refs)@ + refs_campos(cs@, nombre@),
    decreases cs,
{
    let ghost inicio = refs@;
    let mut i: usize = 0;
    proof {
        assert(cs@.skip(0) =~= cs@);
        assert(refs@ + refs_campos(cs@.skip(0), nombre@) =~= inicio + refs_campos(cs@, nombre@));
    }
    while i < cs.len()
        invariant
            i <= cs@.len(),
            refs@ + refs_campos(cs@.skip(i as int), nombre@) == inicio + refs_campos(cs@, nombre@),
        decreases cs@.len() - i,
    {
        proof {
            vstd::std_specs::vec::axiom_vec_index_decreases(*cs, i as int);
            assert(cs@.skip(i as int)[0] == cs@[i as int]);
            assert(cs@.skip(i as int).drop_first() =~= cs@.skip(i + 1));
        }
        let ghost antes = refs@;
        colectar_referencias_en_expresion(&cs[i].1, nombre, refs);
        proof {
            assert(refs@ + refs_campos(cs@.skip(i + 1), nombre@) =~= antes + refs_campos(
                cs@.skip(i as int),
                nombre@,
            ));
        }
        i = i + 1;
    }
    proof {
        assert(cs@.skip(i as int) =~= Seq::<(String, Expresion)>::empty());
        assert(refs@ =~= refs@ + refs_campos(cs@.skip(i as int), nombre@));
    }
}

/// Añade las referencias de los cuerpos de los brazos, en orden.
fn colectar_referencias_en_brazos(bs: &Vec<BrazoMatch>, nombre: &str, refs: &mut Vec<Span>)
    ensures
        final(refs)@ == old(refs)@ + refs_brazos(bs@, nombre@),
    decreases bs,
{
    let ghost inicio = refs@;
    let mut i: usize = 0;
    proof {
        assert(bs@.skip(0) =~= bs@);
        assert(refs@ + refs_brazos(bs@.skip(0), nombre@) =~= inicio + refs_brazos(bs@, nombre@));
    }
    while i < bs.len()
        invariant
            i <= bs@.len(),
            refs@ + refs_brazos(bs@.skip(i as int), nombre@) == inicio + refs_brazos(bs@, nombre@),
        decreases bs@.len() - i,
    {
        proof {
            vstd::std_specs::vec::axiom_vec_index_decreases(*bs, i as int);
            assert(bs@.skip(i as int)[0] == bs@[i as int]);
            assert(bs@.skip(i as int).drop_first() =~= bs@.skip(i + 1));
        }
        let ghost antes = refs@;
        colectar_referencias_en_expresion(&bs[i].cuerpo, nombre, refs);
        proof {
            assert(refs@ + refs_brazos(bs@.skip(i + 1), nombre@) =~= antes + refs_brazos(
                bs@.skip(i as int),
                nombre@,
            ));
        }
        i = i + 1;
    }
    proof {
        assert(bs@.skip(i as int) =~= Seq::<BrazoMatch>::empty());
        assert(refs@ =~= refs@ + refs_brazos(bs@.skip(i as int), nombre@));
    }
}

/// Añade las referencias de las sentencias de expresión de un bloque usado como expresión.
fn colectar_expresiones_de_bloque(ss: &Vec<Sentencia>, nombre: &str, refs: &mut Vec<Span>)
    ensures
        final(refs)@ == old(refs)@ + refs_expresiones_de(ss@, nombre@),
    decreases ss,
{
    let ghost inicio = refs@;
    let mut i: usize = 0;
    proof {
        assert(ss@.skip(0) =~= ss@);
        assert(refs@ + refs_expresiones_de(ss@.skip(0), nombre@) =~= inicio + refs_expresiones_de(
            ss@,
            nombre@,
        ));
    }
    while i < ss.len()
        invariant
            i <= ss@.len(),
            refs@ + refs_expresiones_de(ss@.skip(i as int), nombre@) == inicio
                + refs_expresiones_de(ss@, nombre@),
        decreases ss@.len() - i,
    {
        proof {
            vstd::std_specs::vec::axiom_vec_index_decreases(*ss, i as int);
            assert(ss@.skip(i as int)[0] == ss@[i as int]);
            assert(ss@.skip(i as int).drop_first() =~= ss@.skip(i + 1));
        }
        let ghost antes = refs@;
        if let Sentencia::Expresion(e) = &ss[i] {
            colectar_referencias_en_expresion(e, nombre, refs);
        }
        proof {
            assert(refs@ + refs_expresiones_de(ss@.skip(i + 1), nombre@) =~= antes
                + refs_expresiones_de(ss@.skip(i as int), nombre@));
        }
        i = i + 1;
    }
    proof {
        assert(ss@.skip(i as int) =~= Seq::<Sentencia>::empty());
        assert(refs@ =~= refs@ + refs_expresiones_de(ss@.skip(i as int), nombre@));
    }
}

/// Añade las referencias al nombre en una sentencia.
fn colectar_referencias_en_sentencia(sentencia: &Sentencia, nombre: &str, refs: &mut Vec<Span>)
    ensures
        final(refs)@ == old(refs)@ + refs_sent(*sentencia, nombre@),
    decreases sentencia,
{
    let ghost inicio = refs@;
    let ghost n = nombre@;
    match sentencia {
        Sentencia::Expresion(expr) => colectar_referencias_en_expresion(expr, nombre, refs),
        Sentencia::DeclaracionVariable(decl) => {
            colectar_referencias_en_expresion(&decl.valor, nombre, refs);
        },
        Sentencia::Asignacion(asig) => {
            if let Lugar::Array(array, _) = &asig.lugar {
                colectar_referencias_en_expresion(array, nombre, refs);
            }
            colectar_referencias_en_expresion(&asig.valor, nombre, refs);
            proof {
                assert(refs@ =~= inicio + refs_sent(*sentencia, n));
            }
        },
        Sentencia::Retornar(expr, _) => {
            if let Some(e) = expr {
                colectar_referencias_en_expresion(e, nombre, refs);
            } else {
                proof {
                    assert(refs@ =~= inicio + refs_sent(*sentencia, n));
                }
            }
        },
        Sentencia::Condicional(cond) => {
            colectar_referencias_en_expresion(&cond.condicion, nombre, refs);
            colectar_referencias_en_bloque(&cond.bloque_entonces, nombre, refs);
            if let Some(sino) = &cond.bloque_sino {
                colectar_referencias_en_bloque(sino, nombre, refs);
            }
            proof {
                assert(refs@ =~= inicio + refs_sent(*sentencia, n));
            }
        },
        Sentencia::BucleMientras(bucle) => {
            colectar_referencias_en_expresion(&bucle.condicion, nombre, refs);
            colectar_referencias_en_bloque(&bucle.bloque, nombre, refs);
            proof {
                assert(refs@ =~= inicio + refs_sent(*sentencia, n));
            }
        },
        Sentencia::BuclePara(bucle) => {
            colectar_referencias_en_expresion(&bucle.iterable, nombre, refs);
            colectar_referencias_en_bloque(&bucle.bloque, nombre, refs);
            proof {
                assert(refs@ =~= inicio + refs_sent(*sentencia, n));
            }
        },
        Sentencia::Region { cuerpo, .. } => colectar_referencias_en_sentencias(cuerpo, nombre, refs),
        Sentencia::Seleccionar(seleccionar) => {
            colectar_referencias_en_ramas(&seleccionar.ramas, nombre, refs);
        },
        Sentencia::ConExecutor { hilos, cuerpo, .. } => {
            colectar_referencias_en_expresion(hilos, nombre, refs);
            colectar_referencias_en_sentencias(cuerpo, nombre, refs);
            proof {
                assert(refs@ =~= inicio + refs_sent(*sentencia, n));
            }
        },
    }
}

/// Añade las referencias de las sentencias de un bloque, en orden.
fn colectar_referencias_en_bloque(bloque: &Bloque, nombre: &str, refs: &mut Vec<Span>)
    ensures
        final(refs)@ == old(refs)@ + refs_sents(bloque.sentencias@, nombre@),
    decreases bloque,
{
    colectar_referencias_en_sentencias(&bloque.sentencias, nombre, refs);
}

/// Añade las referencias de cada sentencia, en orden.
fn colectar_referencias_en_sentencias(ss: &Vec<Sentencia>, nombre: &str, refs: &mut Vec<Span>)
    ensures
        final(refs)@ == old(refs)@ + refs_sents(ss@, nombre@),
    decreases ss,
{
    let ghost inicio = refs@;
    let mut i: usize = 0;
    proof {
        assert(ss@.skip(0) =~= ss@);
        assert(refs@ + refs_sents(ss@.skip(0), nombre@) =~= inicio + refs_sents(ss@, nombre@));
    }
    while i < ss.len()
        invariant
            i <= ss@.len(),
            refs@ + refs_sents(ss@.skip(i as int), nombre@) == inicio + refs_sents(ss@, nombre@),
        decreases ss@.len() - i,
    {
        proof {
            vstd::std_specs::vec::axiom_vec_index_decreases(*ss, i as int);
            assert(ss@.skip(i as int)[0] == ss@[i as int]);
            assert(ss@.skip(i as int).drop_first() =~= ss@.skip(i + 1));
        }
        let ghost antes = refs@;
        colectar_referencias_en_sentencia(&ss[i], nombre, refs);
        proof {
            assert(refs@ + refs_sents(ss@.skip(i + 1), nombre@) =~= antes + refs_sents(
                ss@.skip(i as int),
                nombre@,
            ));
        }
        i = i + 1;
    }
    proof {
        assert(ss@.skip(i as int) =~= Seq::<Sentencia>::empty());
        assert(refs@ =~= refs@ + refs_sents(ss@.skip(i as int), nombre@));
    }
}

/// Añade las referencias de cada rama de un `seleccionar`, en orden.
fn colectar_referencias_en_ramas(rs: &Vec<RamaSeleccionar>, nombre: &str, refs: &mut Vec<Span>)
    ensures
        final(refs)@ == old(refs)@ + refs_ramas(rs@, nombre@),
    decreases rs,
{
    let ghost inicio = refs@;
    let mut i: usize = 0;
    proof {
        assert(rs@.skip(0) =~= rs@);
        assert(refs@ + refs_ramas(rs@.skip(0), nombre@) =~= inicio + refs_ramas(rs@, nombre@));
    }
    while i < rs.len()
        invariant
            i <= rs@.len(),
            refs@ + refs_ramas(rs@.skip(i as int), nombre@) == inicio + refs_ramas(rs@, nombre@),
        decreases rs@.len() - i,
    {
        proof {
            vstd::std_specs::vec::axiom_vec_index_decreases(*rs, i as int);
            assert(rs@.skip(i as int)[0] == rs@[i as int]);
            assert(rs@.skip(i as int).drop_first() =~= rs@.skip(i + 1));
        }
        let ghost antes = refs@;
        colectar_referencias_en_expresion(&rs[i].canal, nombre, refs);
        colectar_referencias_en_sentencias(&rs[i].cuerpo.sentencias, nombre, refs);
        proof {
            assert(refs@ + refs_ramas(rs@.skip(i + 1), nombre@) =~= antes + refs_ramas(
                rs@.skip(i as int),
                nombre@,
            ));
        }
        i = i + 1;
    }
    proof {
        assert(rs@.skip(i as int) =~= Seq::<RamaSeleccionar>::empty());
        assert(refs@ =~= refs@ + refs_ramas(rs@.skip(i as int), nombre@));
    }
}

/// El span de declaración de una entrada del índice, si el nombre está.
pub open spec fn declaracion_en<V>(m: Map<Seq<char>, V>, n: Seq<char>, span_de: spec_fn(V) -> Span) -> Seq<Span> {
    if m.contains_key(n) {
        seq![span_de(m[n])]
    } else {
        Seq::empty()
    }
}

impl IndiceSemantico {
    /// Todos los lugares donde aparece un nombre: primero la declaración de la variable y la
    /// de la función con ese nombre, si el índice las tiene; luego sus usos en los cuerpos de
    /// las funciones, en orden.
    pub fn encontrar_referencias(&self, programa: &Programa, nombre: &str) -> (r: Vec<Span>)
        requires
            self.bien_formado(),
        ensures
            r@ == declaracion_en(
                mapa_de(self.variables@),
                nombre@,
                |v: (Seq<char>, Seq<char>, Seq<char>, Seq<char>, Span)| v.4,
            ) + declaracion_en(
                mapa_de(self.funciones@),
                nombre@,
                |f: (Seq<char>, Option<Seq<char>>, Seq<Seq<char>>, Seq<(Seq<char>, Seq<char>)>, Span)|
                    f.4,
            ) + refs_en_funciones(programa.declaraciones@, nombre@),
    {
        let mut referencias: Vec<Span> = Vec::new();
        if let Some(v) = obtener(&self.variables, nombre) {
            referencias.push(v.span_declaracion.copia());
        }
        if let Some(f) = obtener(&self.funciones, nombre) {
            referencias.push(f.span_declaracion.copia());
        }
        let ghost cabeza = referencias@;
        proof {
            assert(cabeza =~= declaracion_en(
                mapa_de(self.variables@),
                nombre@,
                |v: (Seq<char>, Seq<char>, Seq<char>, Seq<char>, Span)| v.4,
            ) + declaracion_en(
                mapa_de(self.funciones@),
                nombre@,
                |f: (Seq<char>, Option<Seq<char>>, Seq<Seq<char>>, Seq<(Seq<char>, Seq<char>)>, Span)|
                    f.4,
            ));
        }
        let ghost ds = programa.declaraciones@;
        let mut i: usize = 0;
        proof {
            assert(ds.skip(0) =~= ds);
        }
        while i < programa.declaraciones.len()
            invariant
                ds == programa.declaraciones@,
                i <= ds.len(),
                referencias@ + refs_en_funciones(ds.skip(i as int), nombre@) == cabeza
                    + refs_en_funciones(ds, nombre@),
            decreases ds.len() - i,
        {
            proof {
                assert(ds.skip(i as int)[0] == ds[i as int]);
                assert(ds.skip(i as int).drop_first() =~= ds.skip(i + 1));
            }
            let ghost antes = referencias@;
            if let Declaracion::Funcion(func) = &programa.declaraciones[i] {
                colectar_referencias_en_bloque(&func.cuerpo, nombre, &mut referencias);
            }
            proof {
                assert(referencias@ + refs_en_funciones(ds.skip(i + 1), nombre@) =~= antes
                    + refs_en_funciones(ds.skip(i as int), nombre@));
            }
            i = i + 1;
        }
        proof {
            assert(ds.skip(i as int) =~= Seq::<Declaracion>::empty());
            assert(referencias@ =~= referencias@ + refs_en_funciones(ds.skip(i as int), nombre@));
        }
        referencias
    }
}

/// Si la posición cae en el span de un identificador que aparece en la expresión (en
/// cualquier operando), la búsqueda encuentra un identificador.
pub proof fn ley_busqueda_encuentra_identificador(e: Expresion, n: Seq<char>, sp: Span, l: u32, c: u32)
    requires
        aparece_en_operandos(e, n, sp),
        en_span(l, c, sp),
    ensures
        buscar_expr(e, l, c) is Some,
    decreases e,
{
    match e {
        Expresion::Binaria(izq, _, der, _) => {
            if aparece_en_operandos(*izq, n, sp) {
                ley_busqueda_encuentra_identificador(*izq, n, sp, l, c);
            } else {
                ley_busqueda_encuentra_identificador(*der, n, sp, l, c);
            }
        },
        Expresion::Unaria(_, x, _) => ley_busqueda_encuentra_identificador(*x, n, sp, l, c),
        _ => {},
    }
}

/// Cada aparición de un identificador con el nombre, en cualquier subexpresión directa
/// (también en el operando derecho de una operación binaria), aporta su span a las
/// referencias de la expresión.
pub proof fn ley_referencias_incluyen_apariciones(e: Expresion, n: Seq<char>, sp: Span)
    requires
        aparece_identificador(e, n, sp),
    ensures
        refs_expr(e, n).contains(sp),
    decreases e, 0nat,
{
    match e {
        Expresion::Identificador(m, s) => {
            assert(refs_expr(e, n)[0] == sp);
        },
        Expresion::Binaria(izq, _, der, _) => {
            if aparece_identificador(*izq, n, sp) {
                ley_referencias_incluyen_apariciones(*izq, n, sp);
            } else {
                ley_referencias_incluyen_apariciones(*der, n, sp);
            }
            lema_contiene_concat(refs_expr(*izq, n), refs_expr(*der, n), sp);
        },
        Expresion::AccesoArray(izq, der, _) => {
            if aparece_identificador(*izq, n, sp) {
                ley_referencias_incluyen_apariciones(*izq, n, sp);
            } else {
                ley_referencias_incluyen_apariciones(*der, n, sp);
            }
            lema_contiene_concat(refs_expr(*izq, n), refs_expr(*der, n), sp);
        },
        Expresion::Rango(izq, der, _, _) => {
            if aparece_identificador(*izq, n, sp) {
                ley_referencias_incluyen_apariciones(*izq, n, sp);
            } else {
                ley_referencias_incluyen_apariciones(*der, n, sp);
            }
            lema_contiene_concat(refs_expr(*izq, n), refs_expr(*der, n), sp);
        },
        Expresion::Unaria(_, x, _) => ley_referencias_incluyen_apariciones(*x, n, sp),
        Expresion::AccesoCampo(x, _, _) => ley_referencias_incluyen_apariciones(*x, n, sp),
        Expresion::ArrayRelleno(x, _, _) => ley_referencias_incluyen_apariciones(*x, n, sp),
        Expresion::EsVariante(x, _, _, _, _) => ley_referencias_incluyen_apariciones(*x, n, sp),
        Expresion::Propagacion(x, _) => ley_referencias_incluyen_apariciones(*x, n, sp),
        Expresion::Copiar(x, _) => ley_referencias_incluyen_apariciones(*x, n, sp),
        Expresion::Esperar(x, _) => ley_referencias_incluyen_apariciones(*x, n, sp),
        Expresion::Lanzar(x, _) => ley_referencias_incluyen_apariciones(*x, n, sp),
        Expresion::Bloquear(x, _) => ley_referencias_incluyen_apariciones(*x, n, sp),
        Expresion::Closure(_, x, _) => ley_referencias_incluyen_apariciones(*x, n, sp),
        Expresion::Llamada(ll) => {
            lema_refs_lista_completa(ll.argumentos@, n, sp);
            lema_contiene_concat(si(ll.funcion@ == n, ll.span), refs_exprs(ll.argumentos@, n), sp);
        },
        Expresion::LiteralArray(es, _) => lema_refs_lista_completa(es@, n, sp),
        Expresion::ConstructorEnum(_, _, es, _) => lema_refs_lista_completa(es@, n, sp),
        Expresion::Metodo(receptor, _, es, _) => {
            if aparece_identificador(*receptor, n, sp) {
                ley_referencias_incluyen_apariciones(*receptor, n, sp);
            } else {
                lema_refs_lista_completa(es@, n, sp);
            }
            lema_contiene_concat(refs_expr(*receptor, n), refs_exprs(es@, n), sp);
        },
        Expresion::Mover(nombre, destino, s) => match destino {
            Some(d) => {
                ley_referencias_incluyen_apariciones(*d, n, sp);
                lema_contiene_concat(si(nombre@ == n, s), refs_expr(*d, n), sp);
            },
            None => {},
        },
        _ => {},
    }
}

/// El identificador aparece en una sentencia del cuerpo de alguna función del programa.
pub open spec fn aparece_en_funciones(ds: Seq<Declaracion>, n: Seq<char>, sp: Span) -> bool {
    exists|i: int, j: int| 0 <= i < ds.len() && #[trigger] aparece_en_declaracion(ds[i], j, n, sp)
}

/// La declaración es una función y el identificador aparece en la sentencia `j` de su cuerpo.
pub open spec fn aparece_en_declaracion(d: Declaracion, j: int, n: Seq<char>, sp: Span) -> bool {
    match d {
        Declaracion::Funcion(f) => 0 <= j < f.cuerpo.sentencias@.len() && aparece_en_sentencia(
            f.cuerpo.sentencias@[j],
            n,
            sp,
        ),
        _ => false,
    }
}

/// El identificador aparece en un operando de una sentencia del cuerpo de alguna función.
pub open spec fn operando_en_funciones(ds: Seq<Declaracion>, n: Seq<char>, sp: Span) -> bool {
    exists|i: int, j: int| 0 <= i < ds.len() && #[trigger] operando_en_declaracion(ds[i], j, n, sp)
}

/// La declaración es una función y el identificador aparece en la sentencia `j` de su cuerpo.
pub open spec fn operando_en_declaracion(d: Declaracion, j: int, n: Seq<char>, sp: Span) -> bool {
    match d {
        Declaracion::Funcion(f) => 0 <= j < f.cuerpo.sentencias@.len() && aparece_en_operandos_de_sentencia(
            f.cuerpo.sentencias@[j],
            n,
            sp,
        ),
        _ => false,
    }
}

proof fn lema_buscar_sentencia(s: Sentencia, n: Seq<char>, sp: Span, l: u32, c: u32)
    requires
        aparece_en_operandos_de_sentencia(s, n, sp),
        en_span(l, c, sp),
    ensures
        buscar_sent(s, l, c) is Some,
{
    match s {
        Sentencia::Expresion(e) => ley_busqueda_encuentra_identificador(e, n, sp, l, c),
        Sentencia::DeclaracionVariable(d) => ley_busqueda_encuentra_identificador(d.valor, n, sp, l, c),
        Sentencia::Asignacion(a) => ley_busqueda_encuentra_identificador(a.valor, n, sp, l, c),
        Sentencia::Retornar(Some(e), _) => ley_busqueda_encuentra_identificador(e, n, sp, l, c),
        _ => {},
    }
}

proof fn lema_buscar_sentencias(ss: Seq<Sentencia>, j: int, n: Seq<char>, sp: Span, l: u32, c: u32)
    requires
        0 <= j < ss.len(),
        aparece_en_operandos_de_sentencia(ss[j], n, sp),
        en_span(l, c, sp),
    ensures
        buscar_sents(ss, l, c) is Some,
    decreases ss.len(),
{
    if j == 0 {
        lema_buscar_sentencia(ss[0], n, sp, l, c);
    } else {
        assert(ss.drop_first()[j - 1] == ss[j]);
        lema_buscar_sentencias(ss.drop_first(), j - 1, n, sp, l, c);
    }
}

/// Si la posición cae en el span de un identificador que aparece en una sentencia del cuerpo
/// de una función (en cualquier operando), `identificador_en_posicion` encuentra un
/// identificador, y con él la definición, el hover y las referencias tienen de qué partir.
pub proof fn ley_busqueda_en_funciones(ds: Seq<Declaracion>, n: Seq<char>, sp: Span, l: u32, c: u32)
    requires
        operando_en_funciones(ds, n, sp),
        en_span(l, c, sp),
    ensures
        buscar_en_funciones(ds, l, c) is Some,
    decreases ds.len(),
{
    let (i, j) = choose|i: int, j: int| 0 <= i < ds.len() && #[trigger] operando_en_declaracion(ds[i], j, n, sp);
    if i == 0 {
        match ds[0] {
            Declaracion::Funcion(f) => lema_buscar_sentencias(f.cuerpo.sentencias@, j, n, sp, l, c),
            _ => {},
        }
    } else {
        assert(ds.drop_first()[i - 1] == ds[i]);
        assert(operando_en_funciones(ds.drop_first(), n, sp));
        ley_busqueda_en_funciones(ds.drop_first(), n, sp, l, c);
    }
}

proof fn lema_contiene_concat(a: Seq<Span>, b: Seq<Span>, sp: Span)
    requires
        a.contains(sp) || b.contains(sp),
    ensures
        (a + b).contains(sp),
{
    if a.contains(sp) {
        let k = choose|k: int| 0 <= k < a.len() && a[k] == sp;
        assert((a + b)[k] == sp);
    } else {
        let k = choose|k: int| 0 <= k < b.len() && b[k] == sp;
        assert((a + b)[a.len() + k] == sp);
    }
}

proof fn lema_refs_sentencia(s: Sentencia, n: Seq<char>, sp: Span)
    requires
        aparece_en_sentencia(s, n, sp),
    ensures
        refs_sent(s, n).contains(sp),
{
    match s {
        Sentencia::Expresion(e) => ley_referencias_incluyen_apariciones(e, n, sp),
        Sentencia::DeclaracionVariable(d) => ley_referencias_incluyen_apariciones(d.valor, n, sp),
        Sentencia::Asignacion(a) => {
            ley_referencias_incluyen_apariciones(a.valor, n, sp);
            lema_contiene_concat(
                match a.lugar {
                    Lugar::Array(array, _) => refs_expr(*array, n),
                    _ => Seq::empty(),
                },
                refs_expr(a.valor, n),
                sp,
            );
        },
        Sentencia::Retornar(Some(e), _) => ley_referencias_incluyen_apariciones(e, n, sp),
        _ => {},
    }
}

proof fn lema_refs_sentencias(ss: Seq<Sentencia>, j: int, n: Seq<char>, sp: Span)
    requires
        0 <= j < ss.len(),
        aparece_en_sentencia(ss[j], n, sp),
    ensures
        refs_sents(ss, n).contains(sp),
    decreases ss.len(),
{
    if j == 0 {
        lema_refs_sentencia(ss[0], n, sp);
    } else {
        assert(ss.drop_first()[j - 1] == ss[j]);
        lema_refs_sentencias(ss.drop_first(), j - 1, n, sp);
    }
    lema_contiene_concat(refs_sent(ss[0], n), refs_sents(ss.drop_first(), n), sp);
}

/// Cada aparición de un identificador con el nombre en una sentencia del cuerpo de una función
/// (en cualquier operando) está entre las referencias del programa, y por tanto entre las que
/// devuelve `encontrar_referencias`.
pub proof fn ley_referencias_en_funciones(ds: Seq<Declaracion>, n: Seq<char>, sp: Span)
    requires
        aparece_en_funciones(ds, n, sp),
    ensures
        refs_en_funciones(ds, n).contains(sp),
    decreases ds.len(),
{
    let (i, j) = choose|i: int, j: int| 0 <= i < ds.len() && #[trigger] aparece_en_declaracion(ds[i], j, n, sp);
    let cabeza = match ds[0] {
        Declaracion::Funcion(f) => refs_sents(f.cuerpo.sentencias@, n),
        _ => Seq::empty(),
    };
    if i == 0 {
        match ds[0] {
            Declaracion::Funcion(f) => lema_refs_sentencias(f.cuerpo.sentencias@, j, n, sp),
            _ => {},
        }
    } else {
        assert(ds.drop_first()[i - 1] == ds[i]);
        assert(aparece_en_funciones(ds.drop_first(), n, sp));
        ley_referencias_en_funciones(ds.drop_first(), n, sp);
    }
    lema_contiene_concat(cabeza, refs_en_funciones(ds.drop_first(), n), sp);
}

proof fn lema_refs_lista(es: Seq<Expresion>, m: int, i: int, n: Seq<char>, sp: Span)
    requires
        0 <= m <= i < es.len(),
        aparece_identificador(es[i], n, sp),
    ensures
        refs_exprs(es.skip(m), n).contains(sp),
    decreases es, (es.len() - m) as nat,
{
    let t = es.skip(m);
    assert(t[0] == es[m]);
    assert(t.drop_first() =~= es.skip(m + 1));
    if m == i {
        ley_referencias_incluyen_apariciones(es[i], n, sp);
    } else {
        lema_refs_lista(es, m + 1, i, n, sp);
    }
    lema_contiene_concat(refs_expr(t[0], n), refs_exprs(t.drop_first(), n), sp);
}

proof fn lema_refs_lista_completa(es: Seq<Expresion>, n: Seq<char>, sp: Span)
    requires
        exists|i: int| 0 <= i < es.len() && aparece_identificador(#[trigger] es[i], n, sp),
    ensures
        refs_exprs(es, n).contains(sp),
    decreases es, es.len() + 1,
{
    let i = choose|i: int| 0 <= i < es.len() && aparece_identificador(#[trigger] es[i], n, sp);
    lema_refs_lista(es, 0, i, n, sp);
    assert(es.skip(0) =~= es);
}

/// En la posición hay un nombre `m` de la expresión: un identificador cuyo span la contiene,
/// el nombre de una llamada cuyo span la contiene, o uno de estos en un argumento o en un
/// operando.
pub open spec fn nombre_en_posicion(e: Expresion, m: Seq<char>, l: u32, c: u32) -> bool
    decreases e,
{
    match e {
        Expresion::Identificador(x, s) => x@ == m && en_span(l, c, s),
        Expresion::Llamada(ll) => (ll.funcion@ == m && en_span(l, c, ll.span)) || exists|i: int|
            0 <= i < ll.argumentos@.len() && nombre_en_posicion(#[trigger] ll.argumentos@[i], m, l, c),
        Expresion::Binaria(izq, _, der, _) => nombre_en_posicion(*izq, m, l, c) || nombre_en_posicion(
            *der,
            m,
            l,
            c,
        ),
        Expresion::Unaria(_, x, _) => nombre_en_posicion(*x, m, l, c),
        _ => false,
    }
}

/// Lo que encuentra la búsqueda está en la posición: es un identificador o el nombre de una
/// llamada de la expresión cuyo span contiene la posición, nunca otro nombre.
pub proof fn ley_busqueda_solo_lo_que_esta_en_posicion(e: Expresion, l: u32, c: u32)
    ensures
        buscar_expr(e, l, c) matches Some(m) ==> nombre_en_posicion(e, m, l, c),
    decreases e, 0nat,
{
    match e {
        Expresion::Llamada(ll) => {
            if !en_span(l, c, ll.span) {
                lema_busqueda_lista(ll.argumentos@, l, c);
            }
        },
        Expresion::Binaria(izq, _, der, _) => {
            ley_busqueda_solo_lo_que_esta_en_posicion(*izq, l, c);
            ley_busqueda_solo_lo_que_esta_en_posicion(*der, l, c);
        },
        Expresion::Unaria(_, x, _) => ley_busqueda_solo_lo_que_esta_en_posicion(*x, l, c),
        _ => {},
    }
}

proof fn lema_busqueda_lista(es: Seq<Expresion>, l: u32, c: u32)
    ensures
        buscar_exprs(es, l, c) matches Some(m) ==> exists|i: int|
            0 <= i < es.len() && nombre_en_posicion(#[trigger] es[i], m, l, c),
    decreases es, 1nat,
{
    if es.len() > 0 {
        ley_busqueda_solo_lo_que_esta_en_posicion(es[0], l, c);
        lema_busqueda_lista(es.drop_first(), l, c);
        if let Some(m) = buscar_exprs(es, l, c) {
            if buscar_expr(es[0], l, c) is Some {
                assert(nombre_en_posicion(es[0], m, l, c));
            } else {
                let k = choose|k: int| 0 <= k < es.drop_first().len() && nombre_en_posicion(
                    #[trigger] es.drop_first()[k],
                    m,
                    l,
                    c,
                );
                assert(es.drop_first()[k] == es[k + 1]);
                assert(nombre_en_posicion(es[k + 1], m, l, c));
            }
        }
    }
}

} // verus!
