//! Resolución de módulos: qué importa cada archivo (`usar`), el registro de las unidades de
//! compilación y el orden topológico en que se compilan (las dependencias primero).

use vstd::prelude::*;
use crate::lexer::{LexerMejia, Token, TokenConSpan, tokens_del_texto};
use crate::texto::{texto, agregar};
use crate::futuros::{vistas, contiene};
use crate::parser::token_de;

verus! {

/// Una unidad de compilación: archivo fuente, su módulo y lo que importa.
#[derive(Debug, Clone)]
pub struct UnidadCompilacion {
    /// Ruta al archivo fuente `.fc`
    pub ruta: String,
    /// Nombre del módulo (el nombre del archivo sin extensión)
    pub nombre_modulo: String,
    /// Dependencias: nombres de los módulos que este archivo importa
    pub dependencias: Vec<String>,
    /// Código fuente
    pub fuente: String,
}

/// Resuelve módulos y construye el grafo de compilación.
#[derive(Debug)]
pub struct Resolver {
    /// Directorio base para la búsqueda de módulos
    pub base_dir: String,
    /// Módulos resueltos, uno por nombre
    pub modulos: Vec<UnidadCompilacion>,
    /// Orden topológico de compilación
    pub orden: Vec<String>,
}

/// Nombres de las unidades, en orden.
pub open spec fn nombres_de(mods: Seq<UnidadCompilacion>) -> Seq<Seq<char>> {
    mods.map_values(|u: UnidadCompilacion| u.nombre_modulo@)
}

/// `orden` es un orden topológico de los módulos: cada módulo aparece una sola vez y cada
/// dependencia que es un módulo aparece antes que el módulo que la importa.
pub open spec fn orden_topologico(mods: Seq<UnidadCompilacion>, orden: Seq<Seq<char>>) -> bool {
    let ns = nombres_de(mods);
    &&& orden.no_duplicates()
    &&& forall|k: int| 0 <= k < orden.len() ==> ns.contains(#[trigger] orden[k])
    &&& forall|i: int| 0 <= i < ns.len() ==> orden.contains(#[trigger] ns[i])
    &&& forall|i: int, d: Seq<char>|
        0 <= i < ns.len() && #[trigger] vistas(mods[i].dependencias@).contains(d) && ns.contains(d)
            ==> exists|j: int, k: int|
            0 <= j < k < orden.len() && #[trigger] orden[j] == d && #[trigger] orden[k] == ns[i]
}

/// El módulo `a` importa el módulo `b`.
pub open spec fn importa(mods: Seq<UnidadCompilacion>, a: int, b: int) -> bool {
    vistas(mods[a].dependencias@).contains(nombres_de(mods)[b])
}

/// Una sucesión de módulos en la que cada uno importa al siguiente.
pub open spec fn es_camino(mods: Seq<UnidadCompilacion>, c: Seq<int>) -> bool {
    &&& forall|k: int| 0 <= k < c.len() ==> 0 <= #[trigger] c[k] < mods.len()
    &&& forall|k: int| 0 <= k < c.len() - 1 ==> importa(mods, #[trigger] c[k], c[k + 1])
}

/// Hay una dependencia circular: un camino que vuelve a su primer módulo.
pub open spec fn hay_ciclo(mods: Seq<UnidadCompilacion>) -> bool {
    exists|c: Seq<int>| c.len() >= 2 && es_camino(mods, c) && c[0] == c.last()
}

/// Las dependencias de la lista que no son módulos resueltos, en su orden.
pub open spec fn pendientes(ns: Seq<Seq<char>>, deps: Seq<Seq<char>>) -> Seq<Seq<char>>
    decreases deps.len(),
{
    if deps.len() == 0 {
        Seq::empty()
    } else if ns.contains(deps.last()) {
        pendientes(ns, deps.drop_last())
    } else {
        pendientes(ns, deps.drop_last()).push(deps.last())
    }
}

/// `e` es el mensaje de dependencia circular para uno de los módulos.
pub open spec fn mensaje_de_ciclo(e: Seq<char>, ns: Seq<Seq<char>>) -> bool {
    exists|k: int| 0 <= k < ns.len() && e == "Dependencia circular detectada en módulo '"@ + #[trigger] ns[k] + "'"@
}

/// `e` es el mensaje de módulo no encontrado para algo que está en disco y no es un módulo.
pub open spec fn mensaje_de_falta(e: Seq<char>, ns: Seq<Seq<char>>, disco: Seq<Seq<char>>) -> bool {
    exists|n: Seq<char>| #[trigger] disco.contains(n) && !ns.contains(n) && e == "Módulo '"@ + n + "' no encontrado"@
}

/// El error de un recorrido: de dependencia circular si hay un ciclo, o de módulo no
/// encontrado si falta uno en disco.
pub open spec fn error_de_orden(e: Seq<char>, mods: Seq<UnidadCompilacion>, disco: Seq<Seq<char>>) -> bool {
    ||| hay_ciclo(mods) && mensaje_de_ciclo(e, nombres_de(mods))
    ||| falta_en_disco(mods, disco) && mensaje_de_falta(e, nombres_de(mods), disco)
}

/// Algún módulo importa algo que está en disco pero no se resolvió como módulo.
pub open spec fn falta_en_disco(mods: Seq<UnidadCompilacion>, disco: Seq<Seq<char>>) -> bool {
    exists|i: int, d: Seq<char>|
        0 <= i < mods.len() && #[trigger] vistas(mods[i].dependencias@).contains(d) && disco.contains(d)
            && !nombres_de(mods).contains(d)
}

/// Posición de un nombre en el orden.
pub open spec fn posicion(orden: Seq<Seq<char>>, x: Seq<char>) -> int {
    choose|j: int| 0 <= j < orden.len() && orden[j] == x
}

/// En un orden topológico, a lo largo de un camino las posiciones bajan: el último módulo
/// va antes que el primero.
pub proof fn lema_camino_decrece(mods: Seq<UnidadCompilacion>, orden: Seq<Seq<char>>, c: Seq<int>)
    requires
        orden_topologico(mods, orden),
        es_camino(mods, c),
        c.len() >= 2,
    ensures
        0 <= posicion(orden, nombres_de(mods)[c.last()]) < posicion(orden, nombres_de(mods)[c[0]]) < orden.len(),
    decreases c.len(),
{
    let ns = nombres_de(mods);
    assert(importa(mods, c[0], c[1]));
    assert(0 <= c[0] < mods.len() && 0 <= c[1] < mods.len());
    assert(vistas(mods[c[0]].dependencias@).contains(ns[c[1]]));
    assert(ns.contains(ns[c[1]]));
    let (j, k) = choose|j: int, k: int|
        0 <= j < k < orden.len() && #[trigger] orden[j] == ns[c[1]] && #[trigger] orden[k] == ns[c[0]];
    let pj = posicion(orden, ns[c[1]]);
    let pk = posicion(orden, ns[c[0]]);
    assert(orden[pj] == ns[c[1]]);
    assert(orden[pk] == ns[c[0]]);
    assert(pj == j) by {
        if pj != j {
            assert(orden[pj] == orden[j]);
        }
    }
    assert(pk == k) by {
        if pk != k {
            assert(orden[pk] == orden[k]);
        }
    }
    if c.len() > 2 {
        let resto = c.drop_first();
        assert forall|q: int| 0 <= q < resto.len() - 1 implies importa(mods, #[trigger] resto[q], resto[q + 1]) by {
            assert(resto[q] == c[q + 1] && resto[q + 1] == c[q + 2]);
        }
        lema_camino_decrece(mods, orden, resto);
        assert(resto.last() == c.last() && resto[0] == c[1]);
    }
}

/// Con un orden topológico no hay dependencias circulares.
pub proof fn lema_orden_sin_ciclos(mods: Seq<UnidadCompilacion>, orden: Seq<Seq<char>>)
    requires
        orden_topologico(mods, orden),
    ensures
        !hay_ciclo(mods),
{
    if hay_ciclo(mods) {
        let c = choose|c: Seq<int>| c.len() >= 2 && es_camino(mods, c) && c[0] == c.last();
        lema_camino_decrece(mods, orden, c);
    }
}

/// La pila del recorrido: un camino sin repetidos formado exactamente por los módulos en
/// proceso.
pub open spec fn pila_valida(mods: Seq<UnidadCompilacion>, s: Seq<Visita>, pila: Seq<int>) -> bool {
    &&& es_camino(mods, pila)
    &&& pila.no_duplicates()
    &&& forall|k: int| 0 <= k < s.len() ==> (s[k] == Visita::EnProceso <==> pila.contains(k))
}

/// Estado de un módulo durante el recorrido en profundidad.
#[derive(Debug, Clone, Copy, PartialEq, Eq, Structural)]
pub enum Visita {
    SinVisitar,
    EnProceso,
    Hecho,
}

/// Módulos sin visitar.
pub open spec fn sin_visitar(s: Seq<Visita>) -> nat
    decreases s.len(),
{
    if s.len() == 0 {
        0
    } else {
        sin_visitar(s.drop_last()) + if s.last() == Visita::SinVisitar {
            1nat
        } else {
            0nat
        }
    }
}

/// Los estados solo avanzan: lo visitado sigue visitado y lo terminado sigue terminado.
pub open spec fn avanza(antes: Seq<Visita>, despues: Seq<Visita>) -> bool {
    &&& despues.len() == antes.len()
    &&& forall|i: int|
        0 <= i < antes.len() && antes[i] != Visita::SinVisitar ==> #[trigger] despues[i]
            != Visita::SinVisitar
    &&& forall|i: int|
        0 <= i < antes.len() && antes[i] == Visita::Hecho ==> #[trigger] despues[i] == Visita::Hecho
    &&& forall|i: int|
        0 <= i < antes.len() && antes[i] == Visita::EnProceso ==> #[trigger] despues[i]
            == Visita::EnProceso
}

/// Si los estados avanzan, no aumentan los módulos sin visitar; si además se visita uno
/// nuevo, disminuyen.
pub proof fn lema_sin_visitar(antes: Seq<Visita>, despues: Seq<Visita>, i: int)
    requires
        despues.len() == antes.len(),
        forall|k: int|
            0 <= k < antes.len() && antes[k] != Visita::SinVisitar ==> #[trigger] despues[k]
                != Visita::SinVisitar,
    ensures
        sin_visitar(despues) <= sin_visitar(antes),
        0 <= i < antes.len() && antes[i] == Visita::SinVisitar && despues[i] != Visita::SinVisitar
            ==> sin_visitar(despues) < sin_visitar(antes),
    decreases antes.len(),
{
    if antes.len() > 0 {
        let (a, d) = (antes.drop_last(), despues.drop_last());
        assert forall|k: int| 0 <= k < a.len() && a[k] != Visita::SinVisitar implies #[trigger] d[k]
            != Visita::SinVisitar by {
            assert(antes[k] == a[k]);
            assert(despues[k] == d[k]);
        }
        if 0 <= i < antes.len() - 1 {
            lema_sin_visitar(a, d, i);
            assert(a[i] == antes[i] && d[i] == despues[i]);
        } else {
            lema_sin_visitar(a, d, -1);
        }
    }
}

/// Invariante del recorrido: `orden` no repite nombres, tiene exactamente los módulos
/// terminados, y cada dependencia de un módulo terminado es un módulo terminado que está
/// antes en `orden` o no es un módulo ni está en disco.
pub open spec fn recorrido_valido(
    mods: Seq<UnidadCompilacion>,
    en_disco: Seq<Seq<char>>,
    s: Seq<Visita>,
    orden: Seq<Seq<char>>,
) -> bool {
    let ns = nombres_de(mods);
    &&& s.len() == ns.len()
    &&& ns.no_duplicates()
    &&& orden.no_duplicates()
    &&& forall|k: int| 0 <= k < orden.len() ==> ns.contains(#[trigger] orden[k])
    &&& forall|i: int| 0 <= i < ns.len() ==> ((#[trigger] s[i] == Visita::Hecho) <==> orden.contains(ns[i]))
    &&& forall|i: int, d: Seq<char>|
        0 <= i < ns.len() && s[i] == Visita::Hecho && #[trigger] vistas(mods[i].dependencias@).contains(d)
            ==> (ns.contains(d) || !en_disco.contains(d)) && (ns.contains(d) ==> exists|j: int, k: int|
            0 <= j < k < orden.len() && #[trigger] orden[j] == d && #[trigger] orden[k] == ns[i])
}

/// Terminar un módulo en proceso cuyas dependencias ya están resueltas mantiene el
/// recorrido válido.
proof fn lema_terminar(
    mods: Seq<UnidadCompilacion>,
    disco: Seq<Seq<char>>,
    s: Seq<Visita>,
    orden: Seq<Seq<char>>,
    idx: int,
)
    requires
        recorrido_valido(mods, disco, s, orden),
        0 <= idx < s.len(),
        s[idx] == Visita::EnProceso,
        forall|d: Seq<char>|
            #[trigger] vistas(mods[idx].dependencias@).contains(d) ==> (nombres_de(mods).contains(d)
                || !disco.contains(d)) && (nombres_de(mods).contains(d) ==> orden.contains(d)),
    ensures
        recorrido_valido(
            mods,
            disco,
            s.update(idx, Visita::Hecho),
            orden.push(nombres_de(mods)[idx]),
        ),
{
    let ns = nombres_de(mods);
    let s2 = s.update(idx, Visita::Hecho);
    let o = orden.push(ns[idx]);
    assert(!orden.contains(ns[idx]));
    assert forall|k: int| 0 <= k < o.len() implies ns.contains(#[trigger] o[k]) by {
        if k < orden.len() {
            assert(o[k] == orden[k]);
        }
    }
    assert forall|i: int| 0 <= i < ns.len() implies ((#[trigger] s2[i] == Visita::Hecho) <==> o.contains(
        ns[i],
    )) by {
        if i != idx {
            if o.contains(ns[i]) {
                let k = choose|k: int| 0 <= k < o.len() && o[k] == ns[i];
                if k == orden.len() {
                    assert(ns[i] == ns[idx]);
                } else {
                    assert(orden[k] == ns[i]);
                }
            }
            if orden.contains(ns[i]) {
                let k = choose|k: int| 0 <= k < orden.len() && orden[k] == ns[i];
                assert(o[k] == ns[i]);
            }
        } else {
            assert(o[orden.len() as int] == ns[idx]);
        }
    }
    assert forall|i: int, d: Seq<char>|
        0 <= i < ns.len() && s2[i] == Visita::Hecho && #[trigger] vistas(
            mods[i].dependencias@,
        ).contains(d) implies (ns.contains(d) || !disco.contains(d)) && (ns.contains(d) ==> exists|
        j: int,
        k: int,
    | 0 <= j < k < o.len() && #[trigger] o[j] == d && #[trigger] o[k] == ns[i]) by {
        if i == idx {
            if ns.contains(d) {
                let j = choose|j: int| 0 <= j < orden.len() && orden[j] == d;
                assert(o[j] == d);
                assert(o[orden.len() as int] == ns[i]);
            }
        } else {
            if ns.contains(d) {
                let (j, k) = choose|j: int, k: int|
                    0 <= j < k < orden.len() && #[trigger] orden[j] == d && #[trigger] orden[k] == ns[i];
                assert(o[j] == d && o[k] == ns[i]);
            }
        }
    }
    assert forall|a: int, b: int| 0 <= a < b < o.len() implies o[a] != o[b] by {
        if b == orden.len() {
            assert(o[a] == orden[a]);
        }
    }
}

/// Módulos importados: el identificador que sigue a cada `usar` (el token siguiente a un
/// `usar` ya no se examina como posible `usar`), sin repetir, en orden de aparición.
pub open spec fn imports_desde(ts: Seq<TokenConSpan>, i: int, acc: Seq<Seq<char>>) -> Seq<
    Seq<char>,
>
    decreases ts.len() + 1 - i,
{
    if i < 0 || i >= ts.len() {
        acc
    } else if ts[i].token is Usar {
        let siguiente = match token_de(ts, i + 1) {
            Some(Token::Identificador(n)) => if acc.contains(n@) {
                acc
            } else {
                acc.push(n@)
            },
            _ => acc,
        };
        imports_desde(ts, i + 2, siguiente)
    } else {
        imports_desde(ts, i + 1, acc)
    }
}

impl Resolver {
    /// Nombres de los módulos resueltos, en orden.
    pub open spec fn nombres(&self) -> Seq<Seq<char>> {
        nombres_de(self.modulos@)
    }

    /// No hay dos módulos con el mismo nombre.
    pub open spec fn bien_formado(&self) -> bool {
        self.nombres().no_duplicates()
    }

    /// Crea un resolver vacío con directorio base.
    pub fn nuevo(base_dir: &str) -> (r: Self)
        ensures
            r.base_dir@ == base_dir@,
            r.modulos@.len() == 0,
            r.orden@.len() == 0,
            r.bien_formado(),
    {
        let r = Resolver { base_dir: texto(base_dir), modulos: Vec::new(), orden: Vec::new() };
        proof {
            assert(r.nombres() =~= Seq::<Seq<char>>::empty());
        }
        r
    }

    /// Extrae los módulos importados por un fuente (las declaraciones `usar`), usando solo el
    /// lexer.
    pub fn extraer_imports(&self, fuente: &str, ruta: &str) -> (r: Result<Vec<String>, String>)
        requires
            fuente@.len() < u32::MAX,
        ensures
            r matches Ok(v) && exists|ts: Seq<TokenConSpan>|
                tokens_del_texto(ts, fuente@, ruta@) && vistas(v@) == imports_desde(
                    ts,
                    0,
                    Seq::empty(),
                ),
    {
        let lexer = LexerMejia::nuevo(texto(fuente), texto(ruta));
        let tokens = lexer.tokenizar();
        let ghost ts = tokens@;
        let mut imports: Vec<String> = Vec::new();
        let mut i: usize = 0;
        proof {
            assert(vistas(imports@) =~= Seq::<Seq<char>>::empty());
        }
        while i < tokens.len()
            invariant
                ts == tokens@,
                i <= ts.len(),
                imports_desde(ts, i as int, vistas(imports@)) == imports_desde(ts, 0, Seq::empty()),
            decreases ts.len() - i,
        {
            let ghost acc = vistas(imports@);
            if let Token::Usar = tokens[i].token {
                // El siguiente token debería ser el nombre del módulo
                if i + 1 < tokens.len() {
                    let ghost siguiente = match token_de(ts, i + 1) {
                        Some(Token::Identificador(n)) => if acc.contains(n@) {
                            acc
                        } else {
                            acc.push(n@)
                        },
                        _ => acc,
                    };
                    assert(imports_desde(ts, i as int, acc) == imports_desde(ts, i + 2, siguiente));
                    if let Some(nombre) = self.extraer_nombre_modulo(&tokens, i + 1) {
                        if !contiene(&imports, &nombre) {
                            let ghost antes = imports@;
                            imports.push(nombre);
                            proof {
                                assert(vistas(imports@) =~= vistas(antes).push(nombre@));
                            }
                        }
                    }
                    assert(vistas(imports@) == siguiente);
                    i = i + 2;
                } else {
                    assert(imports_desde(ts, i as int, acc) == imports_desde(ts, i + 2, acc));
                    assert(imports_desde(ts, i + 2, acc) == acc);
                    assert(imports_desde(ts, i + 1, acc) == acc);
                    i = i + 1;
                }
            } else {
                i = i + 1;
            }
        }
        Ok(imports)
    }

    /// Nombre del módulo en `usar`: el identificador en la posición `desde`, si lo es.
    /// (Cubre `modulo::simbolo` y `modulo::*`.)
    pub fn extraer_nombre_modulo(&self, tokens: &Vec<TokenConSpan>, desde: usize) -> (r: Option<
        String,
    >)
        ensures
            match token_de(tokens@, desde as int) {
                Some(Token::Identificador(n)) => r matches Some(m) && m@ == n@,
                _ => r is None,
            },
    {
        if desde >= tokens.len() {
            return None;
        }
        match &tokens[desde].token {
            Token::Identificador(nombre) => Some(nombre.clone()),
            _ => None,
        }
    }

    /// Posición del módulo con ese nombre, si está resuelto.
    pub fn indice_modulo(&self, nombre: &String) -> (r: Option<usize>)
        ensures
            match r {
                Some(i) => i < self.modulos@.len() && self.nombres()[i as int] == nombre@,
                None => !self.nombres().contains(nombre@),
            },
    {
        let mut i: usize = 0;
        while i < self.modulos.len()
            invariant
                i <= self.modulos@.len(),
                forall|k: int| 0 <= k < i ==> (#[trigger] self.nombres()[k]) != nombre@,
            decreases self.modulos@.len() - i,
        {
            if self.modulos[i].nombre_modulo.eq(nombre) {
                return Some(i);
            }
            i = i + 1;
        }
        None
    }

    /// ¿Ya está resuelto el módulo?
    pub fn esta_resuelto(&self, nombre: &String) -> (r: bool)
        ensures
            r == self.nombres().contains(nombre@),
    {
        self.indice_modulo(nombre).is_some()
    }

    /// Registra una unidad de compilación cuyo módulo aún no está resuelto.
    pub fn registrar(&mut self, unidad: UnidadCompilacion)
        requires
            old(self).bien_formado(),
            !old(self).nombres().contains(unidad.nombre_modulo@),
        ensures
            final(self).bien_formado(),
            final(self).modulos@ == old(self).modulos@.push(unidad),
            final(self).base_dir == old(self).base_dir,
            final(self).orden == old(self).orden,
    {
        let ghost antes = self.modulos@;
        self.modulos.push(unidad);
        proof {
            assert(self.nombres() =~= nombres_de(antes).push(unidad.nombre_modulo@));
        }
    }

    /// Calcula el orden topológico de compilación (las dependencias primero). Una dependencia
    /// que no es un módulo resuelto cuenta solo si su archivo está en disco (`en_disco`), y
    /// entonces es el error «Módulo '…' no encontrado». Una dependencia circular da el error
    /// «Dependencia circular detectada en módulo '…'».
    #[verifier::rlimit(40)]
    pub fn calcular_orden(&mut self, en_disco: &Vec<String>) -> (r: Result<(), String>)
        requires
            old(self).bien_formado(),
        ensures
            final(self).modulos == old(self).modulos,
            final(self).base_dir == old(self).base_dir,
            r is Ok ==> orden_topologico(final(self).modulos@, vistas(final(self).orden@)),
            r is Err ==> final(self).orden == old(self).orden,
            r is Ok <==> !hay_ciclo(old(self).modulos@) && !falta_en_disco(old(self).modulos@, vistas(en_disco@)),
            r matches Err(e) ==> error_de_orden(e@, old(self).modulos@, vistas(en_disco@)),
    {
        let mut visitados: Vec<Visita> = Vec::new();
        let mut i: usize = 0;
        while i < self.modulos.len()
            invariant
                i <= self.modulos@.len(),
                visitados@.len() == i,
                forall|k: int| 0 <= k < i ==> #[trigger] visitados@[k] == Visita::SinVisitar,
            decreases self.modulos@.len() - i,
        {
            visitados.push(Visita::SinVisitar);
            i = i + 1;
        }
        let mut orden: Vec<String> = Vec::new();
        let ghost mods = self.modulos@;
        proof {
            assert(vistas(orden@) =~= Seq::<Seq<char>>::empty());
        }
        let mut m: usize = 0;
        while m < self.modulos.len()
            invariant
                mods == self.modulos@,
                self.bien_formado(),
                m <= mods.len(),
                recorrido_valido(mods, vistas(en_disco@), visitados@, vistas(orden@)),
                forall|k: int| 0 <= k < visitados@.len() ==> #[trigger] visitados@[k]
                    != Visita::EnProceso,
                forall|k: int| 0 <= k < m ==> #[trigger] visitados@[k] == Visita::Hecho,
            decreases mods.len() - m,
        {
            if visitados[m] == Visita::SinVisitar {
                let nombre = self.modulos[m].nombre_modulo.clone();
                let ghost antes = visitados@;
                proof {
                    assert(nombres_de(mods)[m as int] == nombre@);
                    assert(nombres_de(mods).contains(nombre@));
                    assert(pila_valida(mods, visitados@, Seq::<int>::empty()));
                }
                let res = self.visitar(&nombre, en_disco, &mut visitados, &mut orden, Ghost(Seq::<int>::empty()));
                match res {
                    Ok(()) => {},
                    Err(e) => {
                        return Err(e);
                    },
                }
                proof {
                    assert(nombres_de(mods)[m as int] == nombre@);
                    assert forall|k: int| 0 <= k < m + 1 implies #[trigger] visitados@[k]
                        == Visita::Hecho by {
                        if k < m {
                            assert(antes[k] == Visita::Hecho);
                        }
                    }
                }
            }
            m = m + 1;
        }
        proof {
            let ns = nombres_de(mods);
            let o = vistas(orden@);
            assert forall|i: int| 0 <= i < ns.len() implies o.contains(#[trigger] ns[i]) by {
                assert(visitados@[i] == Visita::Hecho);
            }
            assert(!falta_en_disco(mods, vistas(en_disco@))) by {
                if falta_en_disco(mods, vistas(en_disco@)) {
                    let (i, d) = choose|i: int, d: Seq<char>|
                        0 <= i < mods.len() && #[trigger] vistas(mods[i].dependencias@).contains(d)
                            && vistas(en_disco@).contains(d) && !nombres_de(mods).contains(d);
                    assert(visitados@[i] == Visita::Hecho);
                }
            }
            assert forall|i: int, d: Seq<char>|
                0 <= i < ns.len() && #[trigger] vistas(mods[i].dependencias@).contains(d)
                    && ns.contains(d) implies exists|j: int, k: int|
                0 <= j < k < o.len() && #[trigger] o[j] == d && #[trigger] o[k] == ns[i] by {
                assert(visitados@[i] == Visita::Hecho);
            }
        }
        self.orden = orden;
        proof {
            lema_orden_sin_ciclos(mods, vistas(self.orden@));
        }
        Ok(())
    }

    /// Visita un módulo en profundidad: primero sus dependencias (las que son módulos o
    /// están en disco) y luego él mismo, que pasa a `orden`. Si lo encuentra en proceso, hay
    /// una dependencia circular.
    fn visitar(
        &self,
        nombre: &String,
        en_disco: &Vec<String>,
        visitados: &mut Vec<Visita>,
        orden: &mut Vec<String>,
        Ghost(pila): Ghost<Seq<int>>,
    ) -> (r: Result<(), String>)
        requires
            self.bien_formado(),
            recorrido_valido(self.modulos@, vistas(en_disco@), old(visitados)@, vistas(old(orden)@)),
            pila_valida(self.modulos@, old(visitados)@, pila),
            self.nombres().contains(nombre@) || (pila.len() > 0 && vistas(en_disco@).contains(nombre@)),
            pila.len() > 0 ==> vistas(self.modulos@[pila.last()].dependencias@).contains(nombre@),
        ensures
            r is Err ==> hay_ciclo(self.modulos@) || falta_en_disco(self.modulos@, vistas(en_disco@)),
            r matches Err(e) ==> error_de_orden(e@, self.modulos@, vistas(en_disco@)),
            r is Ok ==> recorrido_valido(
                self.modulos@,
                vistas(en_disco@),
                final(visitados)@,
                vistas(final(orden)@),
            ),
            r is Ok ==> avanza(old(visitados)@, final(visitados)@),
            r is Ok ==> exists|i: int|
                0 <= i < self.modulos@.len() && self.nombres()[i] == nombre@
                    && #[trigger] final(visitados)@[i] == Visita::Hecho,
            r is Ok ==> forall|i: int|
                0 <= i < old(visitados)@.len() && #[trigger] old(visitados)@[i] != Visita::EnProceso
                    ==> final(visitados)@[i] != Visita::EnProceso,
        decreases sin_visitar(old(visitados)@),
    {
        let ghost mods = self.modulos@;
        let ghost ns = self.nombres();
        let ghost disco = vistas(en_disco@);
        let idx = match self.indice_modulo(nombre) {
            Some(i) => i,
            None => {
                proof {
                    assert(falta_en_disco(mods, disco)) by {
                        let i = pila.last();
                        assert(0 <= pila.len() - 1 < pila.len());
                        assert(0 <= pila[pila.len() - 1] < mods.len());
                        assert(vistas(mods[i].dependencias@).contains(nombre@));
                    }
                }
                let mut m = texto("Módulo '");
                agregar(&mut m, nombre.as_str());
                agregar(&mut m, "' no encontrado");
                proof {
                    assert(disco.contains(nombre@) && !ns.contains(nombre@));
                    assert(mensaje_de_falta(m@, ns, disco));
                }
                return Err(m);
            },
        };
        if visitados[idx] == Visita::EnProceso {
            proof {
                // `idx` está en la pila y el último de la pila lo importa: hay un ciclo
                assert(pila.contains(idx as int));
                let pos = choose|q: int| 0 <= q < pila.len() && pila[q] == idx as int;
                let c = pila.subrange(pos, pila.len() as int).push(idx as int);
                assert(c[0] == idx as int);
                assert(c.last() == idx as int);
                assert forall|k: int| 0 <= k < c.len() implies 0 <= #[trigger] c[k] < mods.len() by {
                    if k < c.len() - 1 {
                        assert(c[k] == pila[pos + k]);
                    }
                }
                assert forall|k: int| 0 <= k < c.len() - 1 implies importa(mods, #[trigger] c[k], c[k + 1]) by {
                    if k < c.len() - 2 {
                        assert(c[k] == pila[pos + k] && c[k + 1] == pila[pos + k + 1]);
                    } else {
                        assert(c[k] == pila.last());
                        assert(c[k + 1] == idx as int);
                        assert(ns[idx as int] == nombre@);
                    }
                }
                assert(es_camino(mods, c));
            }
            let mut m = texto("Dependencia circular detectada en módulo '");
            agregar(&mut m, nombre.as_str());
            agregar(&mut m, "'");
            proof {
                assert(m@ == "Dependencia circular detectada en módulo '"@ + ns[idx as int] + "'"@);
                assert(mensaje_de_ciclo(m@, ns));
            }
            return Err(m);
        }
        if visitados[idx] == Visita::Hecho {
            assert(visitados@[idx as int] == Visita::Hecho);
            return Ok(());
        }
        let ghost inicial = visitados@;
        visitados.set(idx, Visita::EnProceso);
        let ghost marcado = visitados@;
        proof {
            lema_sin_visitar(inicial, marcado, idx as int);
            let p2 = pila.push(idx as int);
            assert(!pila.contains(idx as int)) by {
                assert(inicial[idx as int] == Visita::SinVisitar);
            }
            assert forall|k: int| 0 <= k < p2.len() implies 0 <= #[trigger] p2[k] < mods.len() by {
                if k < pila.len() {
                    assert(p2[k] == pila[k]);
                }
            }
            assert forall|k: int| 0 <= k < p2.len() - 1 implies importa(mods, #[trigger] p2[k], p2[k + 1]) by {
                if k < p2.len() - 2 {
                    assert(p2[k] == pila[k] && p2[k + 1] == pila[k + 1]);
                } else {
                    assert(p2[k] == pila.last());
                    assert(ns[idx as int] == nombre@);
                }
            }
            assert(p2.no_duplicates()) by {
                assert forall|a: int, b: int| 0 <= a < b < p2.len() implies p2[a] != p2[b] by {
                    if b == p2.len() - 1 {
                        assert(pila.contains(p2[a]) ==> p2[a] != idx as int);
                        assert(p2[a] == pila[a]);
                    } else {
                        assert(p2[a] == pila[a] && p2[b] == pila[b]);
                    }
                }
            }
            assert forall|k: int| 0 <= k < marcado.len() implies (marcado[k] == Visita::EnProceso <==> p2.contains(k)) by {
                if k == idx {
                    assert(p2[p2.len() - 1] == k);
                } else {
                    if p2.contains(k) {
                        let q = choose|q: int| 0 <= q < p2.len() && p2[q] == k;
                        assert(q < pila.len());
                        assert(pila[q] == k);
                    }
                    if pila.contains(k) {
                        let q = choose|q: int| 0 <= q < pila.len() && pila[q] == k;
                        assert(p2[q] == k);
                    }
                }
            }
        }
        let deps = &self.modulos[idx].dependencias;
        let mut j: usize = 0;
        while j < deps.len()
            invariant
                mods == self.modulos@,
                ns == self.nombres(),
                disco == vistas(en_disco@),
                self.bien_formado(),
                idx < mods.len(),
                ns[idx as int] == nombre@,
                *deps == mods[idx as int].dependencias,
                inicial == old(visitados)@,
                j <= deps@.len(),
                recorrido_valido(mods, disco, visitados@, vistas(orden@)),
                avanza(marcado, visitados@),
                avanza(inicial, visitados@),
                sin_visitar(visitados@) < sin_visitar(inicial),
                visitados@[idx as int] == Visita::EnProceso,
                forall|k: int|
                    0 <= k < inicial.len() && #[trigger] inicial[k] != Visita::EnProceso && k != idx
                        ==> visitados@[k] != Visita::EnProceso,
                pila_valida(mods, visitados@, pila.push(idx as int)),
                pila_valida(mods, inicial, pila),
                pila.len() > 0 ==> vistas(mods[pila.last()].dependencias@).contains(nombre@),
                forall|t: int|
                    0 <= t < j ==> (ns.contains(#[trigger] vistas(deps@)[t]) || !disco.contains(
                        vistas(deps@)[t],
                    )) && (ns.contains(vistas(deps@)[t]) ==> vistas(orden@).contains(
                        vistas(deps@)[t],
                    )),
            decreases deps@.len() - j,
        {
            let es_modulo = self.indice_modulo(&deps[j]).is_some();
            let mut en_archivo = false;
            let mut q: usize = 0;
            while q < en_disco.len()
                invariant
                    j < deps@.len(),
                    q <= en_disco@.len(),
                    en_archivo == exists|p: int| 0 <= p < q && (#[trigger] en_disco@[p])@ == deps@[j as int]@,
                decreases en_disco@.len() - q,
            {
                if en_disco[q].eq(&deps[j]) {
                    en_archivo = true;
                }
                q = q + 1;
            }
            proof {
                assert(vistas(deps@)[j as int] == deps@[j as int]@);
                if en_archivo {
                    let p = choose|p: int| 0 <= p < en_disco@.len() && (#[trigger] en_disco@[p])@ == deps@[j as int]@;
                    assert(disco[p] == deps@[j as int]@);
                }
                if disco.contains(deps@[j as int]@) {
                    let p = choose|p: int| 0 <= p < disco.len() && disco[p] == deps@[j as int]@;
                    assert(en_disco@[p]@ == deps@[j as int]@);
                }
            }
            if es_modulo || en_archivo {
                let ghost antes = visitados@;
                let ghost orden_antes = vistas(orden@);
                proof {
                    assert(vistas(mods[idx as int].dependencias@).contains(deps@[j as int]@)) by {
                        assert(vistas(deps@)[j as int] == deps@[j as int]@);
                    }
                    let p2 = pila.push(idx as int);
                    assert(p2.last() == idx as int);
                    assert forall|k: int| 0 <= k < p2.len() - 1 implies importa(mods, #[trigger] p2[k], p2[k + 1]) by {
                        if k < p2.len() - 2 {
                            assert(p2[k] == pila[k] && p2[k + 1] == pila[k + 1]);
                        } else {
                            assert(p2[k] == pila.last());
                        }
                    }
                }
                let res = self.visitar(&deps[j], en_disco, visitados, orden, Ghost(pila.push(idx as int)));
                match res {
                    Ok(()) => {},
                    Err(e) => {
                        return Err(e);
                    },
                }
                proof {
                    lema_sin_visitar(antes, visitados@, -1);
                    let d = vistas(deps@)[j as int];
                    let w = choose|w: int|
                        0 <= w < mods.len() && ns[w] == d && #[trigger] visitados@[w] == Visita::Hecho;
                    assert(vistas(orden@).contains(ns[w]));
                    assert forall|t: int| 0 <= t < j implies (ns.contains(#[trigger] vistas(deps@)[t])
                        ==> vistas(orden@).contains(vistas(deps@)[t])) by {
                        if ns.contains(vistas(deps@)[t]) {
                            let p = choose|p: int| 0 <= p < orden_antes.len() && orden_antes[p] == vistas(deps@)[t];
                            assert(vistas(orden@).contains(vistas(deps@)[t])) by {
                                let u = choose|u: int| 0 <= u < ns.len() && ns[u] == vistas(deps@)[t];
                                assert(antes[u] == Visita::Hecho);
                                assert(visitados@[u] == Visita::Hecho);
                            }
                        }
                    }
                }
            }
            j = j + 1;
        }
        let ghost orden_antes = vistas(orden@);
        let ghost estados_antes = visitados@;
        proof {
            assert forall|d: Seq<char>| #[trigger] vistas(mods[idx as int].dependencias@).contains(d)
                implies (ns.contains(d) || !disco.contains(d)) && (ns.contains(d)
                ==> orden_antes.contains(d)) by {
                let t = choose|t: int| 0 <= t < vistas(deps@).len() && vistas(deps@)[t] == d;
            }
            lema_terminar(mods, disco, estados_antes, orden_antes, idx as int);
        }
        visitados.set(idx, Visita::Hecho);
        orden.push(nombre.clone());
        proof {
            assert(vistas(orden@) =~= orden_antes.push(ns[idx as int]));
            assert(visitados@ =~= estados_antes.update(idx as int, Visita::Hecho));
            assert(visitados@[idx as int] == Visita::Hecho);
        }
        Ok(())
    }
}

impl Resolver {
    /// Las dependencias de la lista que aún no son módulos resueltos, en su orden: las que
    /// quedan por cargar.
    pub fn dependencias_pendientes(&self, deps: &Vec<String>) -> (r: Vec<String>)
        ensures
            vistas(r@) == pendientes(self.nombres(), vistas(deps@)),
    {
        let mut r: Vec<String> = Vec::new();
        let mut i: usize = 0;
        proof {
            assert(vistas(deps@).take(0) =~= Seq::<Seq<char>>::empty());
            assert(vistas(r@) =~= Seq::<Seq<char>>::empty());
        }
        while i < deps.len()
            invariant
                i <= deps@.len(),
                vistas(r@) == pendientes(self.nombres(), vistas(deps@).take(i as int)),
            decreases deps@.len() - i,
        {
            proof {
                assert(vistas(deps@).take(i + 1).drop_last() =~= vistas(deps@).take(i as int));
                assert(vistas(deps@).take(i + 1).last() == deps@[i as int]@);
            }
            if !self.esta_resuelto(&deps[i]) {
                let ghost antes = r@;
                r.push(deps[i].clone());
                proof {
                    assert(vistas(r@) =~= vistas(antes).push(deps@[i as int]@));
                }
            }
            i = i + 1;
        }
        proof {
            assert(vistas(deps@).take(i as int) =~= vistas(deps@));
        }
        r
    }

    /// Posición de cada módulo del orden de compilación, en ese orden; el error «Módulo '…'
    /// no encontrado» para el primero que no esté resuelto.
    pub fn indices_en_orden(&self) -> (r: Result<Vec<usize>, String>)
        ensures
            r is Ok <==> forall|k: int| 0 <= k < self.orden@.len() ==> self.nombres().contains(
                #[trigger] self.orden@[k]@,
            ),
            r matches Ok(v) ==> v@.len() == self.orden@.len() && forall|k: int|
                0 <= k < v@.len() ==> #[trigger] v@[k] < self.modulos@.len() && self.nombres()[v@[k] as int]
                    == self.orden@[k]@,
            r matches Err(e) ==> exists|k: int|
                0 <= k < self.orden@.len() && !self.nombres().contains(#[trigger] self.orden@[k]@)
                    && (forall|j: int| 0 <= j < k ==> self.nombres().contains(#[trigger] self.orden@[j]@))
                    && e@ == "Módulo '"@ + self.orden@[k]@ + "' no encontrado"@,
    {
        let mut v: Vec<usize> = Vec::new();
        let mut k: usize = 0;
        while k < self.orden.len()
            invariant
                k <= self.orden@.len(),
                v@.len() == k,
                forall|j: int| 0 <= j < k ==> self.nombres().contains(#[trigger] self.orden@[j]@),
                forall|j: int|
                    0 <= j < k ==> #[trigger] v@[j] < self.modulos@.len() && self.nombres()[v@[j] as int]
                        == self.orden@[j]@,
            decreases self.orden@.len() - k,
        {
            match self.indice_modulo(&self.orden[k]) {
                Some(i) => {
                    v.push(i);
                },
                None => {
                    let mut m = texto("Módulo '");
                    agregar(&mut m, self.orden[k].as_str());
                    agregar(&mut m, "' no encontrado");
                    return Err(m);
                },
            }
            k = k + 1;
        }
        Ok(v)
    }
}

} // verus!
