//! Análisis de futuros para la transformación en máquina de estados: cada `esperar` es un
//! punto de suspensión, las variables vivas a través de una suspensión se guardan en el
//! struct del futuro y ese struct tiene un layout C (estado, variables, deadline).

use vstd::prelude::*;
use crate::ast::{
    Bloque, BrazoMatch, DeclaracionVariable, Expresion, FuncionDecl, Lugar, Parametro,
    RamaSeleccionar, Sentencia, Tipo, aparece_identificador, aparece_en_sentencia,
};
use crate::span::Span;

verus! {

/// Un punto de suspensión (`esperar`) dentro de un futuro
#[derive(Debug)]
pub struct PuntoSuspension {
    /// Índice de la sentencia donde ocurre el esperar
    pub indice_sentencia: usize,
    /// La expresión interna del esperar (ej: dormir(100))
    pub expresion: Box<Expresion>,
    /// Span para errores
    pub span: Span,
}

/// Resultado del análisis de un futuro
#[derive(Debug)]
pub struct AnalisisFuturo {
    /// Nombre de la función original
    pub nombre: String,
    /// Número de estados (puntos de suspensión + 1)
    pub num_estados: usize,
    /// Puntos de suspensión en orden
    pub suspensiones: Vec<PuntoSuspension>,
    /// Variables que deben vivir en el struct (vivas a través de una suspensión)
    pub vars_struct: Vec<VarLiveAcross>,
    /// Parámetros de la función (también van en el struct)
    pub parametros: Vec<Parametro>,
    /// Tipo de retorno
    pub retorno: Option<Tipo>,
    /// Sentencias segmentadas por estado: `segmentos[i]` son las sentencias del estado `i`
    /// (antes de la suspensión `i`)
    pub segmentos: Vec<Vec<Sentencia>>,
    /// Span de la función
    pub span: Span,
}

/// Una variable que vive a través de un punto de suspensión
#[derive(Debug, Clone)]
pub struct VarLiveAcross {
    pub nombre: String,
    pub tipo: Tipo,
    /// Offset en el struct del state machine
    pub offset: u32,
}

/// Tamaño en bytes de un tipo en el struct del futuro (layout C; punteros de 8 bytes).
pub open spec fn tamano_de(t: Tipo) -> int
    decreases t,
{
    match t {
        Tipo::Entero8 | Tipo::Natural8 => 1,
        Tipo::Entero16 | Tipo::Natural16 => 2,
        Tipo::Entero32 | Tipo::Natural32 | Tipo::Booleano | Tipo::Caracter | Tipo::Flotante32 => 4,
        Tipo::Entero64 | Tipo::Natural64 | Tipo::Flotante64 => 8,
        Tipo::Array(inner, len) => tamano_de(*inner) * ((len as u32) as int),
        Tipo::Vector(_) => 24,
        _ => 8,
    }
}

/// Alineación en bytes de un tipo en el struct del futuro.
pub open spec fn alineacion_de(t: Tipo) -> int
    decreases t,
{
    match t {
        Tipo::Entero8 | Tipo::Natural8 => 1,
        Tipo::Entero16 | Tipo::Natural16 => 2,
        Tipo::Entero32 | Tipo::Natural32 | Tipo::Booleano | Tipo::Caracter | Tipo::Flotante32 => 4,
        Tipo::Array(inner, _) => alineacion_de(*inner),
        _ => 8,
    }
}

/// El tamaño del tipo (y el de cada array que contiene) cabe en 32 bits.
pub open spec fn cabe(t: Tipo) -> bool
    decreases t,
{
    match t {
        Tipo::Array(inner, len) => cabe(*inner) && tamano_de(*inner) * ((len as u32) as int)
            <= u32::MAX,
        _ => true,
    }
}

/// La alineación es 1, 2, 4 u 8 y el tamaño no es negativo (ni pasa de 32 bits si cabe).
pub proof fn lema_tamano(t: Tipo)
    ensures
        alineacion_de(t) == 1 || alineacion_de(t) == 2 || alineacion_de(t) == 4
            || alineacion_de(t) == 8,
        tamano_de(t) >= 0,
        cabe(t) ==> tamano_de(t) <= u32::MAX,
    decreases t,
{
    if let Tipo::Array(inner, len) = t {
        lema_tamano(*inner);
        let l = (len as u32) as int;
        assert(tamano_de(*inner) * l >= 0) by (nonlinear_arith)
            requires
                tamano_de(*inner) >= 0,
                l >= 0,
        ;
    }
}

/// Tamaño y alineación de un tipo para el layout del struct
pub fn tamano_tipo(tipo: &Tipo) -> (r: (u32, u32))
    requires
        cabe(*tipo),
    ensures
        r.0 == tamano_de(*tipo),
        r.1 == alineacion_de(*tipo),
    decreases tipo,
{
    match tipo {
        Tipo::Entero8 | Tipo::Natural8 => (1, 1),
        Tipo::Entero16 | Tipo::Natural16 => (2, 2),
        Tipo::Entero32 | Tipo::Natural32 | Tipo::Booleano | Tipo::Caracter => (4, 4),
        Tipo::Entero64 | Tipo::Natural64 => (8, 8),
        Tipo::Flotante32 => (4, 4),
        Tipo::Flotante64 => (8, 8),
        Tipo::Array(inner, len) => {
            let (t, a) = tamano_tipo(inner);
            let l = *len as u32;
            (t * l, a)
        },
        Tipo::Vector(_) => (24, 8),
        _ => (8, 8),
    }
}

/// `o` redondeado hacia arriba a un múltiplo de `a`.
pub open spec fn alinear(o: int, a: int) -> int {
    if a > 0 && o % a != 0 {
        o + (a - o % a)
    } else {
        o
    }
}

/// Tipos de las variables, en orden.
pub open spec fn tipos_de(vars: Seq<VarLiveAcross>) -> Seq<Tipo> {
    vars.map_values(|v: VarLiveAcross| v.tipo)
}

/// Fin de los campos de `tipos` colocados en orden desde `inicio`, cada uno alineado.
pub open spec fn fin_de_campos(tipos: Seq<Tipo>, inicio: int) -> int
    decreases tipos.len(),
{
    if tipos.len() == 0 {
        inicio
    } else {
        let o = fin_de_campos(tipos.drop_last(), inicio);
        alinear(o, alineacion_de(tipos.last())) + tamano_de(tipos.last())
    }
}

/// Offset del campo `i` de `tipos` colocados en orden desde `inicio`.
pub open spec fn offset_de_campo(tipos: Seq<Tipo>, i: int, inicio: int) -> int {
    alinear(fin_de_campos(tipos.take(i), inicio), alineacion_de(tipos[i]))
}

/// Offset del deadline: tras el estado (4 bytes) y las variables, alineado a 8.
pub open spec fn deadline_de(tipos: Seq<Tipo>) -> int {
    alinear(fin_de_campos(tipos, 4), 8)
}

/// Tamaño del struct del futuro: el deadline ocupa los últimos 8 bytes.
pub open spec fn tamano_struct_de(tipos: Seq<Tipo>) -> int {
    deadline_de(tipos) + 8
}

/// Todos los tipos caben.
pub open spec fn todos_caben(tipos: Seq<Tipo>) -> bool {
    forall|i: int| 0 <= i < tipos.len() ==> cabe(#[trigger] tipos[i])
}

/// Alinear no retrocede y avanza menos que la alineación.
pub proof fn lema_alinear(o: int, a: int)
    requires
        0 <= o,
        a == 1 || a == 2 || a == 4 || a == 8,
    ensures
        o <= alinear(o, a) < o + a,
        alinear(o, a) % a == 0,
{
    assert(o % a < a);
    if o % a != 0 {
        assert((o + (a - o % a)) % a == 0) by (nonlinear_arith)
            requires
                a > 0,
                o % a != 0,
                0 <= o,
        {
            assert(o == a * (o / a) + o % a);
            assert(o + (a - o % a) == a * (o / a + 1));
        }
    }
}

/// Los campos no retroceden: el fin de un prefijo no pasa del fin de uno más largo.
pub proof fn lema_fin_monotono(tipos: Seq<Tipo>, i: int, j: int, inicio: int)
    requires
        0 <= i <= j <= tipos.len(),
        0 <= inicio,
    ensures
        inicio <= fin_de_campos(tipos.take(i), inicio) <= fin_de_campos(tipos.take(j), inicio),
    decreases j,
{
    if j > 0 {
        assert(tipos.take(j).drop_last() =~= tipos.take(j - 1));
        lema_fin_monotono(tipos, 0, j - 1, inicio);
        if i < j {
            lema_fin_monotono(tipos, i, j - 1, inicio);
        }
        let o = fin_de_campos(tipos.take(j - 1), inicio);
        lema_tamano(tipos[j - 1]);
        lema_alinear(o, alineacion_de(tipos[j - 1]));
    } else {
        assert(tipos.take(0) =~= Seq::<Tipo>::empty());
    }
}

/// El fin tras `i + 1` campos es el offset del campo `i` más su tamaño.
pub proof fn lema_fin_siguiente(tipos: Seq<Tipo>, i: int, inicio: int)
    requires
        0 <= i < tipos.len(),
    ensures
        fin_de_campos(tipos.take(i + 1), inicio) == offset_de_campo(tipos, i, inicio) + tamano_de(
            tipos[i],
        ),
{
    assert(tipos.take(i + 1).drop_last() =~= tipos.take(i));
}

/// Ley del layout: el deadline está alineado a 8 y cierra el struct, y cada variable queda
/// alineada, después del estado y antes del deadline.
pub proof fn ley_layout_del_futuro(tipos: Seq<Tipo>, i: int)
    requires
        0 <= i < tipos.len(),
    ensures
        deadline_de(tipos) % 8 == 0,
        tamano_struct_de(tipos) == deadline_de(tipos) + 8,
        4 <= offset_de_campo(tipos, i, 4),
        offset_de_campo(tipos, i, 4) % alineacion_de(tipos[i]) == 0,
        offset_de_campo(tipos, i, 4) + tamano_de(tipos[i]) <= deadline_de(tipos),
{
    lema_fin_monotono(tipos, i, i + 1, 4);
    lema_fin_monotono(tipos, i + 1, tipos.len() as int, 4);
    lema_fin_monotono(tipos, 0, i, 4);
    assert(tipos.take(tipos.len() as int) =~= tipos);
    lema_fin_siguiente(tipos, i, 4);
    lema_tamano(tipos[i]);
    lema_alinear(fin_de_campos(tipos.take(i), 4), alineacion_de(tipos[i]));
    lema_alinear(fin_de_campos(tipos, 4), 8);
}

/// Ley del layout: dos variables distintas no se solapan; la anterior termina antes de
/// que empiece la posterior.
pub proof fn ley_campos_sin_solape(tipos: Seq<Tipo>, i: int, j: int, inicio: int)
    requires
        0 <= i < j < tipos.len(),
        0 <= inicio,
    ensures
        offset_de_campo(tipos, i, inicio) + tamano_de(tipos[i]) <= offset_de_campo(
            tipos,
            j,
            inicio,
        ),
{
    lema_fin_siguiente(tipos, i, inicio);
    lema_fin_monotono(tipos, i + 1, j, inicio);
    lema_fin_monotono(tipos, 0, j, inicio);
    lema_tamano(tipos[j]);
    lema_alinear(fin_de_campos(tipos.take(j), inicio), alineacion_de(tipos[j]));
}

/// Suma de los tamaños de los tipos.
pub open spec fn suma_tamanos(tipos: Seq<Tipo>) -> int
    decreases tipos.len(),
{
    if tipos.len() == 0 {
        0
    } else {
        suma_tamanos(tipos.drop_last()) + tamano_de(tipos.last())
    }
}

/// El fin de los campos no es menor que el inicio más la suma de sus tamaños.
pub proof fn lema_fin_cubre_tamanos(tipos: Seq<Tipo>, inicio: int)
    requires
        0 <= inicio,
    ensures
        fin_de_campos(tipos, inicio) >= inicio + suma_tamanos(tipos),
    decreases tipos.len(),
{
    if tipos.len() > 0 {
        lema_fin_cubre_tamanos(tipos.drop_last(), inicio);
        lema_fin_monotono(tipos.drop_last(), 0, tipos.len() - 1, inicio);
        assert(tipos.drop_last().take(tipos.len() - 1) =~= tipos.drop_last());
        lema_tamano(tipos.last());
        lema_alinear(fin_de_campos(tipos.drop_last(), inicio), alineacion_de(tipos.last()));
    }
}

/// Ley del tamaño del struct del futuro: el deadline, alineado a 8, va tras el estado (4
/// bytes) y todas las variables, así que su offset es al menos 4 más la suma de sus tamaños,
/// y el struct termina 8 bytes después.
pub proof fn ley_tamano_del_futuro(tipos: Seq<Tipo>)
    ensures
        deadline_de(tipos) >= 4 + suma_tamanos(tipos),
        deadline_de(tipos) % 8 == 0,
        tamano_struct_de(tipos) == deadline_de(tipos) + 8,
{
    lema_fin_cubre_tamanos(tipos, 4);
    lema_fin_monotono(tipos, 0, tipos.len() as int, 4);
    assert(tipos.take(tipos.len() as int) =~= tipos);
    lema_alinear(fin_de_campos(tipos, 4), 8);
}

/// Calcula el offset de cada variable en el struct del futuro: en orden tras el campo de
/// estado (un i32 en el offset 0), cada una alineada a su tipo.
fn calcular_offsets(vars: &mut Vec<VarLiveAcross>)
    requires
        todos_caben(tipos_de(old(vars)@)),
        fin_de_campos(tipos_de(old(vars)@), 4) <= u32::MAX,
    ensures
        final(vars)@.len() == old(vars)@.len(),
        forall|i: int|
            0 <= i < old(vars)@.len() ==> (#[trigger] final(vars)@[i]).nombre == old(vars)@[i].nombre
                && final(vars)@[i].tipo == old(vars)@[i].tipo && final(vars)@[i].offset
                == offset_de_campo(tipos_de(old(vars)@), i, 4),
{
    let ghost tipos = tipos_de(vars@);
    let mut offset: u32 = 4;  // campo state
    let mut i: usize = 0;
    while i < vars.len()
        invariant
            tipos == tipos_de(old(vars)@),
            vars@.len() == old(vars)@.len(),
            i <= vars@.len(),
            todos_caben(tipos),
            fin_de_campos(tipos, 4) <= u32::MAX,
            offset == fin_de_campos(tipos.take(i as int), 4),
            forall|k: int|
                0 <= k < vars@.len() ==> (#[trigger] vars@[k]).nombre == old(vars)@[k].nombre
                    && vars@[k].tipo == old(vars)@[k].tipo,
            forall|k: int|
                0 <= k < i ==> (#[trigger] vars@[k]).offset == offset_de_campo(tipos, k, 4),
        decreases vars@.len() - i,
    {
        assert(tipos[i as int] == vars@[i as int].tipo);
        let (tamano, alineacion) = tamano_tipo(&vars[i].tipo);
        proof {
            lema_fin_monotono(tipos, i + 1, tipos.len() as int, 4);
            assert(tipos.take(tipos.len() as int) =~= tipos);
            lema_fin_siguiente(tipos, i as int, 4);
            lema_tamano(tipos[i as int]);
            lema_alinear(offset as int, alineacion as int);
        }
        if offset % alineacion != 0 {
            offset = offset + (alineacion - offset % alineacion);
        }
        vars[i].offset = offset;
        offset = offset + tamano;
        i = i + 1;
    }
}

/// Recorre las variables del struct del futuro desde el campo de estado y devuelve el fin
/// de la última (sin alinear el deadline).
fn fin_de_variables(vars: &Vec<VarLiveAcross>) -> (r: u32)
    requires
        todos_caben(tipos_de(vars@)),
        fin_de_campos(tipos_de(vars@), 4) <= u32::MAX,
    ensures
        r == fin_de_campos(tipos_de(vars@), 4),
{
    let ghost tipos = tipos_de(vars@);
    let mut offset: u32 = 4;  // campo state
    let mut i: usize = 0;
    while i < vars.len()
        invariant
            tipos == tipos_de(vars@),
            i <= vars@.len(),
            todos_caben(tipos),
            fin_de_campos(tipos, 4) <= u32::MAX,
            offset == fin_de_campos(tipos.take(i as int), 4),
        decreases vars@.len() - i,
    {
        assert(tipos[i as int] == vars@[i as int].tipo);
        let (tamano, alineacion) = tamano_tipo(&vars[i].tipo);
        proof {
            lema_fin_monotono(tipos, i + 1, tipos.len() as int, 4);
            assert(tipos.take(tipos.len() as int) =~= tipos);
            lema_fin_siguiente(tipos, i as int, 4);
            lema_tamano(tipos[i as int]);
            lema_alinear(offset as int, alineacion as int);
        }
        if offset % alineacion != 0 {
            offset = offset + (alineacion - offset % alineacion);
        }
        offset = offset + tamano;
        i = i + 1;
    }
    proof {
        assert(tipos.take(tipos.len() as int) =~= tipos);
    }
    offset
}

/// Tamaño total del struct del state machine: estado (i32), variables y deadline (i64).
pub fn tamano_struct_futuro(analisis: &AnalisisFuturo) -> (r: u32)
    requires
        todos_caben(tipos_de(analisis.vars_struct@)),
        tamano_struct_de(tipos_de(analisis.vars_struct@)) <= u32::MAX,
    ensures
        r == tamano_struct_de(tipos_de(analisis.vars_struct@)),
{
    let r = offset_deadline(analisis);
    r + 8
}

/// Offset del campo `deadline` en el struct del futuro
pub fn offset_deadline(analisis: &AnalisisFuturo) -> (r: u32)
    requires
        todos_caben(tipos_de(analisis.vars_struct@)),
        deadline_de(tipos_de(analisis.vars_struct@)) <= u32::MAX,
    ensures
        r == deadline_de(tipos_de(analisis.vars_struct@)),
{
    let ghost tipos = tipos_de(analisis.vars_struct@);
    proof {
        assert(tipos.take(tipos.len() as int) =~= tipos);
        lema_fin_monotono(tipos, 0, tipos.len() as int, 4);
        lema_alinear(fin_de_campos(tipos, 4), 8);
    }
    let mut offset = fin_de_variables(&analisis.vars_struct);
    if offset % 8 != 0 {
        offset = offset + (8 - offset % 8);
    }
    offset
}

/// Primera variable con el nombre dado a partir de la posición `i`, si la hay.
pub open spec fn primera_desde(vars: Seq<VarLiveAcross>, nombre: Seq<char>, i: int) -> Option<int>
    decreases vars.len() - i,
{
    if i < 0 || i >= vars.len() {
        None
    } else if vars[i].nombre@ == nombre {
        Some(i)
    } else {
        primera_desde(vars, nombre, i + 1)
    }
}

/// Primera variable con el nombre dado, si la hay.
pub open spec fn primera_con_nombre(vars: Seq<VarLiveAcross>, nombre: Seq<char>) -> Option<int> {
    primera_desde(vars, nombre, 0)
}

/// La posición encontrada está en rango, tiene el nombre y ninguna anterior (desde `i`) lo
/// tiene; si no se encuentra, ninguna desde `i` lo tiene.
pub proof fn lema_primera_desde(vars: Seq<VarLiveAcross>, nombre: Seq<char>, i: int)
    requires
        0 <= i,
    ensures
        match primera_desde(vars, nombre, i) {
            Some(k) => i <= k < vars.len() && vars[k].nombre@ == nombre && forall|m: int|
                i <= m < k ==> (#[trigger] vars[m]).nombre@ != nombre,
            None => forall|m: int| i <= m < vars.len() ==> (#[trigger] vars[m]).nombre@ != nombre,
        },
    decreases vars.len() - i,
{
    if i < vars.len() && vars[i].nombre@ != nombre {
        lema_primera_desde(vars, nombre, i + 1);
    }
}

/// Lo que `offset_var` recorre cabe en 32 bits: hasta la variable buscada (alineada) o, si no
/// está, todas.
pub open spec fn recorrido_cabe(vars: Seq<VarLiveAcross>, nombre: Seq<char>) -> bool {
    let tipos = tipos_de(vars);
    match primera_con_nombre(vars, nombre) {
        Some(k) => (forall|i: int| 0 <= i <= k ==> cabe(#[trigger] tipos[i])) && offset_de_campo(
            tipos,
            k,
            4,
        ) <= u32::MAX,
        None => todos_caben(tipos) && fin_de_campos(tipos, 4) <= u32::MAX,
    }
}

/// Offset de una variable en el struct del futuro: el de la primera con ese nombre.
pub fn offset_var(analisis: &AnalisisFuturo, nombre: &str) -> (r: Option<u32>)
    requires
        recorrido_cabe(analisis.vars_struct@, nombre@),
    ensures
        r == (match primera_con_nombre(analisis.vars_struct@, nombre@) {
            Some(k) => Some(offset_de_campo(tipos_de(analisis.vars_struct@), k, 4) as u32),
            None => None::<u32>,
        }),
{
    let ghost vars = analisis.vars_struct@;
    let ghost tipos = tipos_de(vars);
    let ghost objetivo = primera_con_nombre(vars, nombre@);
    proof {
        lema_primera_desde(vars, nombre@, 0);
    }
    let buscado = String::from_str(nombre);
    let mut offset: u32 = 4;  // state está en offset 0
    let mut i: usize = 0;
    while i < analisis.vars_struct.len()
        invariant
            vars == analisis.vars_struct@,
            tipos == tipos_de(vars),
            objetivo == primera_con_nombre(vars, nombre@),
            objetivo == primera_desde(vars, nombre@, i as int),
            buscado@ == nombre@,
            recorrido_cabe(vars, nombre@),
            i <= vars.len(),
            offset == fin_de_campos(tipos.take(i as int), 4),
        decreases vars.len() - i,
    {
        assert(tipos[i as int] == vars[i as int].tipo);
        proof {
            lema_primera_desde(vars, nombre@, i as int);
            lema_primera_desde(vars, nombre@, 0);
            match objetivo {
                Some(k) => {
                    assert(cabe(tipos[i as int]));
                    lema_fin_monotono(tipos, i as int, k, 4);
                    lema_tamano(tipos[k]);
                    lema_alinear(fin_de_campos(tipos.take(k), 4), alineacion_de(tipos[k]));
                    if k > i {
                        lema_fin_monotono(tipos, i + 1, k, 4);
                        lema_fin_siguiente(tipos, i as int, 4);
                        lema_tamano(tipos[i as int]);
                        lema_alinear(offset as int, alineacion_de(tipos[i as int]));
                    }
                },
                None => {
                    assert(tipos.take(tipos.len() as int) =~= tipos);
                    lema_fin_monotono(tipos, i + 1, tipos.len() as int, 4);
                    lema_fin_siguiente(tipos, i as int, 4);
                },
            }
        }
        let (tamano, alineacion) = tamano_tipo(&analisis.vars_struct[i].tipo);
        proof {
            lema_tamano(tipos[i as int]);
            lema_alinear(offset as int, alineacion as int);
            lema_fin_siguiente(tipos, i as int, 4);
        }
        if offset % alineacion != 0 {
            offset = offset + (alineacion - offset % alineacion);
        }
        if analisis.vars_struct[i].nombre.eq(&buscado) {
            return Some(offset);
        }
        offset = offset + tamano;
        i = i + 1;
    }
    None
}

/// Vistas de una lista de nombres.
pub open spec fn vistas(v: Seq<String>) -> Seq<Seq<char>> {
    v.map_values(|s: String| s@)
}

/// Nombres de variables que usa una expresión (identificadores que aparecen en ella).
/// De un bloque usado como expresión solo cuentan sus sentencias de expresión.
pub open spec fn usos_expr(e: Expresion) -> Set<Seq<char>>
    decreases e,
{
    match e {
        Expresion::Identificador(nombre, _) => set![nombre@],
        Expresion::Binaria(izq, _, der, _) => usos_expr(*izq) + usos_expr(*der),
        Expresion::Unaria(_, operando, _) => usos_expr(*operando),
        Expresion::Llamada(llamada) => usos_exprs(llamada.argumentos@),
        Expresion::Esperar(inner, _) => usos_expr(*inner),
        Expresion::Lanzar(inner, _) => usos_expr(*inner),
        Expresion::Bloquear(inner, _) => usos_expr(*inner),
        Expresion::AccesoArray(base, indice, _) => usos_expr(*base) + usos_expr(*indice),
        Expresion::AccesoCampo(objeto, _, _) => usos_expr(*objeto),
        Expresion::LiteralArray(exprs, _) => usos_exprs(exprs@),
        Expresion::ArrayRelleno(valor, _, _) => usos_expr(*valor),
        Expresion::InicializacionStruct(_, campos, _) => usos_campos(campos@),
        Expresion::ConstructorEnum(_, _, args, _) => usos_exprs(args@),
        Expresion::EsVariante(sujeto, _, _, _, _) => usos_expr(*sujeto),
        Expresion::Propagacion(inner, _) => usos_expr(*inner),
        Expresion::Mover(_, destino, _) => match destino {
            Some(d) => usos_expr(*d),
            None => Set::empty(),
        },
        Expresion::Copiar(inner, _) => usos_expr(*inner),
        Expresion::Rango(inicio, fin, _, _) => usos_expr(*inicio) + usos_expr(*fin),
        Expresion::Closure(_, cuerpo, _) => usos_expr(*cuerpo),
        Expresion::Coincidir(sujeto, brazos, _) => usos_expr(*sujeto) + usos_brazos(brazos@),
        Expresion::Metodo(receptor, _, args, _) => usos_expr(*receptor) + usos_exprs(args@),
        Expresion::Bloque(bloque) => usos_de_expresiones(bloque.sentencias@),
        _ => Set::empty(),
    }
}

/// Nombres que usan las expresiones de la lista.
pub open spec fn usos_exprs(es: Seq<Expresion>) -> Set<Seq<char>>
    decreases es,
{
    if es.len() == 0 {
        Set::empty()
    } else {
        usos_exprs(es.drop_last()) + usos_expr(es.last())
    }
}

/// Nombres que usan los valores de una inicialización de struct.
pub open spec fn usos_campos(cs: Seq<(String, Expresion)>) -> Set<Seq<char>>
    decreases cs,
{
    if cs.len() == 0 {
        Set::empty()
    } else {
        usos_campos(cs.drop_last()) + usos_expr(cs.last().1)
    }
}

/// Nombres que usan los cuerpos de los brazos de un `coincidir`.
pub open spec fn usos_brazos(bs: Seq<BrazoMatch>) -> Set<Seq<char>>
    decreases bs,
{
    if bs.len() == 0 {
        Set::empty()
    } else {
        usos_brazos(bs.drop_last()) + usos_expr(bs.last().cuerpo)
    }
}

/// Nombres que usan las sentencias de expresión de la lista (las demás no cuentan).
pub open spec fn usos_de_expresiones(ss: Seq<Sentencia>) -> Set<Seq<char>>
    decreases ss,
{
    if ss.len() == 0 {
        Set::empty()
    } else {
        usos_de_expresiones(ss.drop_last()) + match ss.last() {
            Sentencia::Expresion(e) => usos_expr(e),
            _ => Set::empty(),
        }
    }
}

/// Nombres de variables que usa una sentencia.
pub open spec fn usos_sentencia(s: Sentencia) -> Set<Seq<char>>
    decreases s,
{
    match s {
        Sentencia::Expresion(e) => usos_expr(e),
        Sentencia::DeclaracionVariable(d) => usos_expr(d.valor),
        Sentencia::Retornar(valor, _) => match valor {
            Some(e) => usos_expr(e),
            None => Set::empty(),
        },
        Sentencia::Asignacion(a) => usos_expr(a.valor) + usos_lugar(a.lugar),
        Sentencia::Condicional(c) => usos_expr(c.condicion) + usos_sentencias(
            c.bloque_entonces.sentencias@,
        ) + usos_sino(c.bloque_sino),
        Sentencia::BucleMientras(b) => usos_expr(b.condicion) + usos_sentencias(
            b.bloque.sentencias@,
        ),
        Sentencia::BuclePara(b) => usos_expr(b.iterable) + usos_sentencias(b.bloque.sentencias@),
        Sentencia::Region { cuerpo, .. } => usos_sentencias(cuerpo@),
        Sentencia::ConExecutor { hilos, cuerpo, .. } => usos_expr(hilos) + usos_sentencias(
            cuerpo@,
        ),
        Sentencia::Seleccionar(sel) => usos_ramas(sel.ramas@),
    }
}

/// Nombres que usa el lugar de una asignación: los de base e índice si es un elemento de
/// array.
pub open spec fn usos_lugar(l: Lugar) -> Set<Seq<char>>
    decreases l,
{
    match l {
        Lugar::Array(base, indice) => usos_expr(*base) + usos_expr(*indice),
        _ => Set::empty(),
    }
}

/// Nombres que usa el bloque `sino` de un condicional, si lo hay.
pub open spec fn usos_sino(b: Option<Bloque>) -> Set<Seq<char>>
    decreases b,
{
    match b {
        Some(b) => usos_sentencias(b.sentencias@),
        None => Set::empty(),
    }
}

/// Nombres que usan las sentencias de la lista.
pub open spec fn usos_sentencias(ss: Seq<Sentencia>) -> Set<Seq<char>>
    decreases ss,
{
    if ss.len() == 0 {
        Set::empty()
    } else {
        usos_sentencias(ss.drop_last()) + usos_sentencia(ss.last())
    }
}

/// Nombres que usan las ramas de un `seleccionar`: canal y cuerpo de cada una.
pub open spec fn usos_ramas(rs: Seq<RamaSeleccionar>) -> Set<Seq<char>>
    decreases rs,
{
    if rs.len() == 0 {
        Set::empty()
    } else {
        usos_ramas(rs.drop_last()) + usos_expr(rs.last().canal) + usos_sentencias(
            rs.last().cuerpo.sentencias@,
        )
    }
}

/// `despues` tiene los nombres de `antes` más los `nuevos`, y sin repetidos si `antes` no
/// los tenía.
pub open spec fn acumula(antes: Seq<String>, despues: Seq<String>, nuevos: Set<Seq<char>>) -> bool {
    &&& vistas(despues).to_set() == vistas(antes).to_set() + nuevos
    &&& vistas(antes).no_duplicates() ==> vistas(despues).no_duplicates()
}

/// Acumular en dos pasos es acumular la unión.
proof fn lema_acumula_en_dos_pasos(
    a: Seq<String>,
    b: Seq<String>,
    c: Seq<String>,
    x: Set<Seq<char>>,
    y: Set<Seq<char>>,
)
    requires
        acumula(a, b, x),
        acumula(b, c, y),
    ensures
        acumula(a, c, x + y),
{
    assert(vistas(a).to_set() + x + y =~= vistas(a).to_set() + (x + y));
}

/// No acumular nada deja la lista igual.
proof fn lema_acumula_nada(a: Seq<String>)
    ensures
        acumula(a, a, Set::empty()),
{
    assert(vistas(a).to_set() + Set::empty() =~= vistas(a).to_set());
}

/// Agrega el nombre a la lista si no está.
fn agregar_nombre(usos: &mut Vec<String>, nombre: &String)
    ensures
        acumula(old(usos)@, final(usos)@, set![nombre@]),
        vistas(final(usos)@) == (if vistas(old(usos)@).contains(nombre@) {
            vistas(old(usos)@)
        } else {
            vistas(old(usos)@).push(nombre@)
        }),
{
    let mut k: usize = 0;
    while k < usos.len()
        invariant
            k <= usos@.len(),
            forall|m: int| 0 <= m < k ==> (#[trigger] usos@[m])@ != nombre@,
        decreases usos@.len() - k,
    {
        if usos[k].eq(nombre) {
            proof {
                assert(vistas(usos@)[k as int] == nombre@);
                assert(vistas(usos@).contains(nombre@));
                assert(vistas(usos@).to_set() + set![nombre@] =~= vistas(usos@).to_set());
            }
            return ;
        }
        k = k + 1;
    }
    let ghost previo = usos@;
    usos.push(nombre.clone());
    proof {
        assert(vistas(usos@) =~= vistas(previo).push(nombre@));
        vistas(previo).lemma_push_to_set_commute(nombre@);
        assert(vistas(previo).to_set().insert(nombre@) =~= vistas(previo).to_set() + set![nombre@]);
        assert(!vistas(previo).contains(nombre@)) by {
            if vistas(previo).contains(nombre@) {
                let m = choose|m: int| 0 <= m < vistas(previo).len() && vistas(previo)[m] == nombre@;
                assert(previo[m]@ == nombre@);
            }
        }
    }
}

/// Recolecta los nombres de variables usados en una expresión.
fn recolectar_usos_expr(expr: &Expresion, usos: &mut Vec<String>)
    ensures
        acumula(old(usos)@, final(usos)@, usos_expr(*expr)),
    decreases expr,
{
    let ghost inicial = usos@;
    match expr {
        Expresion::Identificador(nombre, _) => {
            agregar_nombre(usos, nombre);
        },
        Expresion::Binaria(izq, _, der, _) => {
            recolectar_usos_expr(izq, usos);
            let ghost medio = usos@;
            recolectar_usos_expr(der, usos);
            proof {
                lema_acumula_en_dos_pasos(inicial, medio, usos@, usos_expr(**izq), usos_expr(**der));
            }
        },
        Expresion::Unaria(_, operando, _) => {
            recolectar_usos_expr(operando, usos);
        },
        Expresion::Llamada(llamada) => {
            recolectar_usos_exprs(&llamada.argumentos, usos);
        },
        Expresion::Esperar(inner, _) => {
            recolectar_usos_expr(inner, usos);
        },
        Expresion::Lanzar(inner, _) => {
            recolectar_usos_expr(inner, usos);
        },
        Expresion::Bloquear(inner, _) => {
            recolectar_usos_expr(inner, usos);
        },
        Expresion::AccesoArray(base, indice, _) => {
            recolectar_usos_expr(base, usos);
            let ghost medio = usos@;
            recolectar_usos_expr(indice, usos);
            proof {
                lema_acumula_en_dos_pasos(
                    inicial,
                    medio,
                    usos@,
                    usos_expr(**base),
                    usos_expr(**indice),
                );
            }
        },
        Expresion::AccesoCampo(objeto, _, _) => {
            recolectar_usos_expr(objeto, usos);
        },
        Expresion::LiteralArray(exprs, _) => {
            recolectar_usos_exprs(exprs, usos);
        },
        Expresion::ArrayRelleno(valor, _, _) => {
            recolectar_usos_expr(valor, usos);
        },
        Expresion::InicializacionStruct(_, campos, _) => {
            recolectar_usos_campos(campos, usos);
        },
        Expresion::ConstructorEnum(_, _, args, _) => {
            recolectar_usos_exprs(args, usos);
        },
        Expresion::EsVariante(sujeto, _, _, _, _) => {
            recolectar_usos_expr(sujeto, usos);
        },
        Expresion::Propagacion(inner, _) => {
            recolectar_usos_expr(inner, usos);
        },
        Expresion::Mover(_, destino, _) => {
            match destino {
                Some(d) => {
                    recolectar_usos_expr(d, usos);
                },
                None => {
                    proof {
                        lema_acumula_nada(inicial);
                    }
                },
            }
        },
        Expresion::Copiar(inner, _) => {
            recolectar_usos_expr(inner, usos);
        },
        Expresion::Rango(inicio, fin, _, _) => {
            recolectar_usos_expr(inicio, usos);
            let ghost medio = usos@;
            recolectar_usos_expr(fin, usos);
            proof {
                lema_acumula_en_dos_pasos(inicial, medio, usos@, usos_expr(**inicio), usos_expr(**fin));
            }
        },
        Expresion::Closure(_, cuerpo, _) => {
            recolectar_usos_expr(cuerpo, usos);
        },
        Expresion::Coincidir(sujeto, brazos, _) => {
            recolectar_usos_expr(sujeto, usos);
            let ghost medio = usos@;
            recolectar_usos_brazos(brazos, usos);
            proof {
                lema_acumula_en_dos_pasos(
                    inicial,
                    medio,
                    usos@,
                    usos_expr(**sujeto),
                    usos_brazos(brazos@),
                );
            }
        },
        Expresion::Metodo(receptor, _, args, _) => {
            recolectar_usos_expr(receptor, usos);
            let ghost medio = usos@;
            recolectar_usos_exprs(args, usos);
            proof {
                lema_acumula_en_dos_pasos(
                    inicial,
                    medio,
                    usos@,
                    usos_expr(**receptor),
                    usos_exprs(args@),
                );
            }
        },
        Expresion::Bloque(bloque) => {
            recolectar_usos_de_expresiones(&bloque.sentencias, usos);
        },
        _ => {
            proof {
                lema_acumula_nada(inicial);
            }
        },
    }
}

/// Recolecta los nombres usados en una lista de expresiones.
fn recolectar_usos_exprs(es: &Vec<Expresion>, usos: &mut Vec<String>)
    ensures
        acumula(old(usos)@, final(usos)@, usos_exprs(es@)),
    decreases es,
{
    let ghost inicial = usos@;
    proof {
        lema_acumula_nada(inicial);
        assert(es@.take(0) =~= Seq::<Expresion>::empty());
    }
    let mut i: usize = 0;
    while i < es.len()
        invariant
            i <= es@.len(),
            acumula(inicial, usos@, usos_exprs(es@.take(i as int))),
        decreases es@.len() - i,
    {
        let ghost medio = usos@;
        proof {
            vstd::std_specs::vec::axiom_vec_index_decreases(*es, i as int);
        }
        recolectar_usos_expr(&es[i], usos);
        proof {
            assert(es@.take(i + 1).drop_last() =~= es@.take(i as int));
            lema_acumula_en_dos_pasos(
                inicial,
                medio,
                usos@,
                usos_exprs(es@.take(i as int)),
                usos_expr(es@[i as int]),
            );
        }
        i = i + 1;
    }
    proof {
        assert(es@.take(es@.len() as int) =~= es@);
    }
}

/// Recolecta los nombres usados en los valores de una inicialización de struct.
fn recolectar_usos_campos(cs: &Vec<(String, Expresion)>, usos: &mut Vec<String>)
    ensures
        acumula(old(usos)@, final(usos)@, usos_campos(cs@)),
    decreases cs,
{
    let ghost inicial = usos@;
    proof {
        lema_acumula_nada(inicial);
        assert(cs@.take(0) =~= Seq::<(String, Expresion)>::empty());
    }
    let mut i: usize = 0;
    while i < cs.len()
        invariant
            i <= cs@.len(),
            acumula(inicial, usos@, usos_campos(cs@.take(i as int))),
        decreases cs@.len() - i,
    {
        let ghost medio = usos@;
        proof {
            vstd::std_specs::vec::axiom_vec_index_decreases(*cs, i as int);
        }
        recolectar_usos_expr(&cs[i].1, usos);
        proof {
            assert(cs@.take(i + 1).drop_last() =~= cs@.take(i as int));
            lema_acumula_en_dos_pasos(
                inicial,
                medio,
                usos@,
                usos_campos(cs@.take(i as int)),
                usos_expr(cs@[i as int].1),
            );
        }
        i = i + 1;
    }
    proof {
        assert(cs@.take(cs@.len() as int) =~= cs@);
    }
}

/// Recolecta los nombres usados en los cuerpos de los brazos de un `coincidir`.
fn recolectar_usos_brazos(bs: &Vec<BrazoMatch>, usos: &mut Vec<String>)
    ensures
        acumula(old(usos)@, final(usos)@, usos_brazos(bs@)),
    decreases bs,
{
    let ghost inicial = usos@;
    proof {
        lema_acumula_nada(inicial);
        assert(bs@.take(0) =~= Seq::<BrazoMatch>::empty());
    }
    let mut i: usize = 0;
    while i < bs.len()
        invariant
            i <= bs@.len(),
            acumula(inicial, usos@, usos_brazos(bs@.take(i as int))),
        decreases bs@.len() - i,
    {
        let ghost medio = usos@;
        proof {
            vstd::std_specs::vec::axiom_vec_index_decreases(*bs, i as int);
        }
        recolectar_usos_expr(&bs[i].cuerpo, usos);
        proof {
            assert(bs@.take(i + 1).drop_last() =~= bs@.take(i as int));
            lema_acumula_en_dos_pasos(
                inicial,
                medio,
                usos@,
                usos_brazos(bs@.take(i as int)),
                usos_expr(bs@[i as int].cuerpo),
            );
        }
        i = i + 1;
    }
    proof {
        assert(bs@.take(bs@.len() as int) =~= bs@);
    }
}

/// Recolecta los nombres usados en las sentencias de expresión de un bloque.
fn recolectar_usos_de_expresiones(ss: &Vec<Sentencia>, usos: &mut Vec<String>)
    ensures
        acumula(old(usos)@, final(usos)@, usos_de_expresiones(ss@)),
    decreases ss,
{
    let ghost inicial = usos@;
    proof {
        lema_acumula_nada(inicial);
        assert(ss@.take(0) =~= Seq::<Sentencia>::empty());
    }
    let mut i: usize = 0;
    while i < ss.len()
        invariant
            i <= ss@.len(),
            acumula(inicial, usos@, usos_de_expresiones(ss@.take(i as int))),
        decreases ss@.len() - i,
    {
        let ghost medio = usos@;
        proof {
            vstd::std_specs::vec::axiom_vec_index_decreases(*ss, i as int);
            assert(ss@.take(i + 1).drop_last() =~= ss@.take(i as int));
        }
        match &ss[i] {
            Sentencia::Expresion(e) => {
                recolectar_usos_expr(e, usos);
            },
            _ => {
                proof {
                    lema_acumula_nada(medio);
                }
            },
        }
        proof {
            lema_acumula_en_dos_pasos(
                inicial,
                medio,
                usos@,
                usos_de_expresiones(ss@.take(i as int)),
                match ss@[i as int] {
                    Sentencia::Expresion(e) => usos_expr(e),
                    _ => Set::empty(),
                },
            );
        }
        i = i + 1;
    }
    proof {
        assert(ss@.take(ss@.len() as int) =~= ss@);
    }
}

/// Recolecta los nombres de variables usados en una sentencia.
fn recolectar_usos_sentencia(sent: &Sentencia, usos: &mut Vec<String>)
    ensures
        acumula(old(usos)@, final(usos)@, usos_sentencia(*sent)),
    decreases sent,
{
    let ghost inicial = usos@;
    match sent {
        Sentencia::Expresion(expr) => {
            recolectar_usos_expr(expr, usos);
        },
        Sentencia::DeclaracionVariable(decl) => {
            recolectar_usos_expr(&decl.valor, usos);
        },
        Sentencia::Retornar(expr, _) => {
            match expr {
                Some(e) => {
                    recolectar_usos_expr(e, usos);
                },
                None => {
                    proof {
                        lema_acumula_nada(inicial);
                    }
                },
            }
        },
        Sentencia::Asignacion(asig) => {
            recolectar_usos_expr(&asig.valor, usos);
            let ghost medio = usos@;
            // También el lugar si es un elemento de array
            match &asig.lugar {
                Lugar::Array(base, idx) => {
                    recolectar_usos_expr(base, usos);
                    let ghost medio2 = usos@;
                    recolectar_usos_expr(idx, usos);
                    proof {
                        lema_acumula_en_dos_pasos(
                            medio,
                            medio2,
                            usos@,
                            usos_expr(**base),
                            usos_expr(**idx),
                        );
                    }
                },
                _ => {
                    proof {
                        lema_acumula_nada(medio);
                    }
                },
            }
            proof {
                lema_acumula_en_dos_pasos(
                    inicial,
                    medio,
                    usos@,
                    usos_expr(asig.valor),
                    usos_lugar(asig.lugar),
                );
            }
        },
        Sentencia::Condicional(cond) => {
            recolectar_usos_expr(&cond.condicion, usos);
            let ghost medio = usos@;
            recolectar_usos_sentencias(&cond.bloque_entonces.sentencias, usos);
            let ghost medio2 = usos@;
            match &cond.bloque_sino {
                Some(bloque) => {
                    recolectar_usos_sentencias(&bloque.sentencias, usos);
                },
                None => {
                    proof {
                        lema_acumula_nada(medio2);
                    }
                },
            }
            proof {
                lema_acumula_en_dos_pasos(
                    inicial,
                    medio,
                    medio2,
                    usos_expr(cond.condicion),
                    usos_sentencias(cond.bloque_entonces.sentencias@),
                );
                lema_acumula_en_dos_pasos(
                    inicial,
                    medio2,
                    usos@,
                    usos_expr(cond.condicion) + usos_sentencias(cond.bloque_entonces.sentencias@),
                    usos_sino(cond.bloque_sino),
                );
            }
        },
        Sentencia::BucleMientras(bucle) => {
            recolectar_usos_expr(&bucle.condicion, usos);
            let ghost medio = usos@;
            recolectar_usos_sentencias(&bucle.bloque.sentencias, usos);
            proof {
                lema_acumula_en_dos_pasos(
                    inicial,
                    medio,
                    usos@,
                    usos_expr(bucle.condicion),
                    usos_sentencias(bucle.bloque.sentencias@),
                );
            }
        },
        Sentencia::BuclePara(bucle) => {
            recolectar_usos_expr(&bucle.iterable, usos);
            let ghost medio = usos@;
            recolectar_usos_sentencias(&bucle.bloque.sentencias, usos);
            proof {
                lema_acumula_en_dos_pasos(
                    inicial,
                    medio,
                    usos@,
                    usos_expr(bucle.iterable),
                    usos_sentencias(bucle.bloque.sentencias@),
                );
            }
        },
        Sentencia::Region { cuerpo, .. } => {
            recolectar_usos_sentencias(cuerpo, usos);
        },
        Sentencia::ConExecutor { cuerpo, hilos, .. } => {
            recolectar_usos_expr(hilos, usos);
            let ghost medio = usos@;
            recolectar_usos_sentencias(cuerpo, usos);
            proof {
                lema_acumula_en_dos_pasos(
                    inicial,
                    medio,
                    usos@,
                    usos_expr(*hilos),
                    usos_sentencias(cuerpo@),
                );
            }
        },
        Sentencia::Seleccionar(sel) => {
            recolectar_usos_ramas(&sel.ramas, usos);
        },
    }
}

/// Recolecta los nombres usados en una lista de sentencias.
fn recolectar_usos_sentencias(ss: &Vec<Sentencia>, usos: &mut Vec<String>)
    ensures
        acumula(old(usos)@, final(usos)@, usos_sentencias(ss@)),
    decreases ss,
{
    let ghost inicial = usos@;
    proof {
        lema_acumula_nada(inicial);
        assert(ss@.take(0) =~= Seq::<Sentencia>::empty());
    }
    let mut i: usize = 0;
    while i < ss.len()
        invariant
            i <= ss@.len(),
            acumula(inicial, usos@, usos_sentencias(ss@.take(i as int))),
        decreases ss@.len() - i,
    {
        let ghost medio = usos@;
        proof {
            vstd::std_specs::vec::axiom_vec_index_decreases(*ss, i as int);
        }
        recolectar_usos_sentencia(&ss[i], usos);
        proof {
            assert(ss@.take(i + 1).drop_last() =~= ss@.take(i as int));
            lema_acumula_en_dos_pasos(
                inicial,
                medio,
                usos@,
                usos_sentencias(ss@.take(i as int)),
                usos_sentencia(ss@[i as int]),
            );
        }
        i = i + 1;
    }
    proof {
        assert(ss@.take(ss@.len() as int) =~= ss@);
    }
}

/// Recolecta los nombres usados en las ramas de un `seleccionar`.
fn recolectar_usos_ramas(rs: &Vec<RamaSeleccionar>, usos: &mut Vec<String>)
    ensures
        acumula(old(usos)@, final(usos)@, usos_ramas(rs@)),
    decreases rs,
{
    let ghost inicial = usos@;
    proof {
        lema_acumula_nada(inicial);
        assert(rs@.take(0) =~= Seq::<RamaSeleccionar>::empty());
    }
    let mut i: usize = 0;
    while i < rs.len()
        invariant
            i <= rs@.len(),
            acumula(inicial, usos@, usos_ramas(rs@.take(i as int))),
        decreases rs@.len() - i,
    {
        let ghost medio = usos@;
        proof {
            vstd::std_specs::vec::axiom_vec_index_decreases(*rs, i as int);
        }
        recolectar_usos_expr(&rs[i].canal, usos);
        let ghost medio2 = usos@;
        recolectar_usos_sentencias(&rs[i].cuerpo.sentencias, usos);
        proof {
            assert(rs@.take(i + 1).drop_last() =~= rs@.take(i as int));
            lema_acumula_en_dos_pasos(
                medio,
                medio2,
                usos@,
                usos_expr(rs@[i as int].canal),
                usos_sentencias(rs@[i as int].cuerpo.sentencias@),
            );
            lema_acumula_en_dos_pasos(
                inicial,
                medio,
                usos@,
                usos_ramas(rs@.take(i as int)),
                usos_expr(rs@[i as int].canal) + usos_sentencias(rs@[i as int].cuerpo.sentencias@),
            );
            assert(usos_ramas(rs@.take(i as int)) + (usos_expr(rs@[i as int].canal)
                + usos_sentencias(rs@[i as int].cuerpo.sentencias@)) =~= usos_ramas(
                rs@.take(i + 1),
            ));
        }
        i = i + 1;
    }
    proof {
        assert(rs@.take(rs@.len() as int) =~= rs@);
    }
}

/// Nombres de las variables declaradas en las sentencias, en orden (con repeticiones).
pub open spec fn declaradas(ss: Seq<Sentencia>) -> Seq<Seq<char>>
    decreases ss.len(),
{
    if ss.len() == 0 {
        Seq::empty()
    } else {
        match ss.last() {
            Sentencia::DeclaracionVariable(d) => declaradas(ss.drop_last()).push(d.nombre@),
            _ => declaradas(ss.drop_last()),
        }
    }
}

/// Agrega a `acc`, en orden, cada nombre de `ns` que está en `filtro` y aún no está en la
/// lista.
pub open spec fn agregar_nuevos(
    acc: Seq<Seq<char>>,
    ns: Seq<Seq<char>>,
    filtro: Set<Seq<char>>,
) -> Seq<Seq<char>>
    decreases ns.len(),
{
    if ns.len() == 0 {
        acc
    } else {
        let a = agregar_nuevos(acc, ns.drop_last(), filtro);
        let n = ns.last();
        if filtro.contains(n) && !a.contains(n) {
            a.push(n)
        } else {
            a
        }
    }
}

/// Nombres de las variables declaradas en las primeras `hasta` sentencias, sin repetir.
pub open spec fn definidas_antes(ss: Seq<Sentencia>, hasta: int) -> Seq<Seq<char>> {
    agregar_nuevos(Seq::empty(), declaradas(ss.take(hasta)), Set::full())
}

/// Nombres de los parámetros, en orden.
pub open spec fn nombres_de_parametros(ps: Seq<Parametro>) -> Seq<Seq<char>> {
    ps.map_values(|p: Parametro| p.nombre@)
}

/// Nombres que van al struct del futuro tras considerar las primeras `k` suspensiones: los
/// parámetros y, por cada suspensión, las variables definidas antes que se usan después.
pub open spec fn vivas_tras(
    ss: Seq<Sentencia>,
    idx: Seq<int>,
    ps: Seq<Parametro>,
    k: int,
) -> Seq<Seq<char>>
    decreases k,
{
    if k <= 0 {
        agregar_nuevos(Seq::empty(), nombres_de_parametros(ps), Set::full())
    } else {
        agregar_nuevos(
            vivas_tras(ss, idx, ps, k - 1),
            definidas_antes(ss, idx[k - 1]),
            usos_sentencias(ss.skip(idx[k - 1] + 1)),
        )
    }
}

/// Nombres de las variables que viven a través de alguna suspensión (los parámetros
/// siempre), en el orden del struct; ninguna si no hay suspensiones.
pub open spec fn nombres_vivos(ss: Seq<Sentencia>, idx: Seq<int>, ps: Seq<Parametro>) -> Seq<
    Seq<char>,
> {
    if idx.len() == 0 {
        Seq::empty()
    } else {
        vivas_tras(ss, idx, ps, idx.len() as int)
    }
}

/// Tipo del primer parámetro con ese nombre.
pub open spec fn tipo_en_parametros(ps: Seq<Parametro>, n: Seq<char>) -> Option<Tipo>
    decreases ps.len(),
{
    if ps.len() == 0 {
        None
    } else if ps[0].nombre@ == n {
        Some(ps[0].tipo)
    } else {
        tipo_en_parametros(ps.drop_first(), n)
    }
}

/// Tipo de la primera declaración con ese nombre que lo anota.
pub open spec fn tipo_declarado(ss: Seq<Sentencia>, n: Seq<char>) -> Option<Tipo>
    decreases ss.len(),
{
    if ss.len() == 0 {
        None
    } else {
        match ss[0] {
            Sentencia::DeclaracionVariable(d) if d.nombre@ == n && d.tipo is Some => d.tipo,
            _ => tipo_declarado(ss.drop_first(), n),
        }
    }
}

/// Tipo de una variable: el del parámetro, o el anotado en su declaración, o `Entero32`.
pub open spec fn tipo_de_var(n: Seq<char>, ss: Seq<Sentencia>, ps: Seq<Parametro>) -> Tipo {
    match tipo_en_parametros(ps, n) {
        Some(t) => t,
        None => match tipo_declarado(ss, n) {
            Some(t) => t,
            None => Tipo::Entero32,
        },
    }
}

/// Tipos de las variables vivas, en el orden del struct.
pub open spec fn tipos_vivos(ss: Seq<Sentencia>, idx: Seq<int>, ps: Seq<Parametro>) -> Seq<Tipo> {
    nombres_vivos(ss, idx, ps).map_values(|n: Seq<char>| tipo_de_var(n, ss, ps))
}

/// ¿Está el nombre en la lista?
pub fn contiene(v: &Vec<String>, n: &String) -> (r: bool)
    ensures
        r == vistas(v@).contains(n@),
{
    let mut k: usize = 0;
    while k < v.len()
        invariant
            k <= v@.len(),
            forall|m: int| 0 <= m < k ==> (#[trigger] v@[m])@ != n@,
        decreases v@.len() - k,
    {
        if v[k].eq(n) {
            assert(vistas(v@)[k as int] == n@);
            return true;
        }
        k = k + 1;
    }
    proof {
        if vistas(v@).contains(n@) {
            let m = choose|m: int| 0 <= m < vistas(v@).len() && vistas(v@)[m] == n@;
            assert(v@[m]@ == n@);
        }
    }
    false
}

/// Nombres de las variables declaradas en las primeras `hasta` sentencias, sin repetir.
fn recolectar_defs(sentencias: &Vec<Sentencia>, hasta: usize) -> (r: Vec<String>)
    requires
        hasta <= sentencias@.len(),
    ensures
        vistas(r@) == definidas_antes(sentencias@, hasta as int),
{
    let ghost ss = sentencias@;
    let mut defs: Vec<String> = Vec::new();
    let mut i: usize = 0;
    proof {
        assert(vistas(defs@) =~= Seq::<Seq<char>>::empty());
        assert(ss.take(0) =~= Seq::<Sentencia>::empty());
    }
    while i < hasta
        invariant
            ss == sentencias@,
            i <= hasta <= ss.len(),
            vistas(defs@) == agregar_nuevos(Seq::empty(), declaradas(ss.take(i as int)), Set::full()),
        decreases hasta - i,
    {
        proof {
            assert(ss.take(i + 1).drop_last() =~= ss.take(i as int));
        }
        if let Sentencia::DeclaracionVariable(decl) = &sentencias[i] {
            agregar_nombre(&mut defs, &decl.nombre);
            proof {
                assert(declaradas(ss.take(i + 1)) =~= declaradas(ss.take(i as int)).push(
                    decl.nombre@,
                ));
                assert(declaradas(ss.take(i + 1)).drop_last() =~= declaradas(ss.take(i as int)));
            }
        }
        i = i + 1;
    }
    defs
}

/// Nombres usados en las sentencias a partir de `desde`, sin repetir.
fn recolectar_usos(sentencias: &Vec<Sentencia>, desde: usize) -> (r: Vec<String>)
    requires
        desde <= sentencias@.len(),
    ensures
        vistas(r@).to_set() == usos_sentencias(sentencias@.skip(desde as int)),
        vistas(r@).no_duplicates(),
{
    let ghost ss = sentencias@;
    let mut usos: Vec<String> = Vec::new();
    let ghost inicial = usos@;
    proof {
        lema_acumula_nada(inicial);
        assert(vistas(inicial) =~= Seq::<Seq<char>>::empty());
        assert(ss.subrange(desde as int, desde as int) =~= Seq::<Sentencia>::empty());
    }
    let mut i: usize = desde;
    while i < sentencias.len()
        invariant
            ss == sentencias@,
            desde <= i <= ss.len(),
            vistas(inicial).no_duplicates(),
            vistas(inicial).to_set() =~= Set::<Seq<char>>::empty(),
            acumula(inicial, usos@, usos_sentencias(ss.subrange(desde as int, i as int))),
        decreases ss.len() - i,
    {
        let ghost medio = usos@;
        recolectar_usos_sentencia(&sentencias[i], &mut usos);
        proof {
            assert(ss.subrange(desde as int, i + 1).drop_last() =~= ss.subrange(
                desde as int,
                i as int,
            ));
            lema_acumula_en_dos_pasos(
                inicial,
                medio,
                usos@,
                usos_sentencias(ss.subrange(desde as int, i as int)),
                usos_sentencia(ss[i as int]),
            );
        }
        i = i + 1;
    }
    proof {
        assert(ss.subrange(desde as int, ss.len() as int) =~= ss.skip(desde as int));
        assert(vistas(inicial).to_set() + usos_sentencias(ss.skip(desde as int)) =~= usos_sentencias(
            ss.skip(desde as int),
        ));
    }
    usos
}

/// Busca el tipo de una variable: en los parámetros, luego en las declaraciones que lo
/// anotan; si no, `Entero32`.
fn buscar_tipo_var(nombre: &String, sentencias: &Vec<Sentencia>, parametros: &Vec<Parametro>) -> (r:
    Tipo)
    ensures
        r.equivale(tipo_de_var(nombre@, sentencias@, parametros@)),
{
    let ghost ps = parametros@;
    let ghost ss = sentencias@;
    let mut i: usize = 0;
    proof {
        assert(ps.skip(0) =~= ps);
        assert(ss.skip(0) =~= ss);
    }
    while i < parametros.len()
        invariant
            ps == parametros@,
            i <= ps.len(),
            tipo_en_parametros(ps, nombre@) == tipo_en_parametros(ps.skip(i as int), nombre@),
        decreases ps.len() - i,
    {
        proof {
            assert(ps.skip(i as int)[0] == ps[i as int]);
            assert(ps.skip(i as int).drop_first() =~= ps.skip(i + 1));
        }
        if parametros[i].nombre.eq(nombre) {
            return parametros[i].tipo.clone();
        }
        i = i + 1;
    }
    proof {
        assert(ps.skip(ps.len() as int) =~= Seq::<Parametro>::empty());
    }
    let mut j: usize = 0;
    while j < sentencias.len()
        invariant
            ss == sentencias@,
            ps == parametros@,
            j <= ss.len(),
            tipo_en_parametros(ps, nombre@) is None,
            tipo_declarado(ss, nombre@) == tipo_declarado(ss.skip(j as int), nombre@),
        decreases ss.len() - j,
    {
        proof {
            assert(ss.skip(j as int)[0] == ss[j as int]);
            assert(ss.skip(j as int).drop_first() =~= ss.skip(j + 1));
        }
        if let Sentencia::DeclaracionVariable(decl) = &sentencias[j] {
            if decl.nombre.eq(nombre) {
                if let Some(tipo) = &decl.tipo {
                    proof {
                        assert(ss.skip(j as int)[0] == Sentencia::DeclaracionVariable(*decl));
                        assert(tipo_declarado(ss.skip(j as int), nombre@) == Some(*tipo));
                    }
                    return tipo.clone();
                }
            }
        }
        j = j + 1;
    }
    proof {
        assert(ss.skip(ss.len() as int) =~= Seq::<Sentencia>::empty());
    }
    Tipo::Entero32
}

/// Índices como enteros.
pub open spec fn como_enteros(v: Seq<usize>) -> Seq<int> {
    v.map_values(|x: usize| x as int)
}

/// El layout de las variables vivas cabe en 32 bits.
pub open spec fn layout_vivo_cabe(ss: Seq<Sentencia>, idx: Seq<int>, ps: Seq<Parametro>) -> bool {
    &&& todos_caben(tipos_vivos(ss, idx, ps))
    &&& fin_de_campos(tipos_vivos(ss, idx, ps), 4) <= u32::MAX
}

/// Tipos equivalentes tienen el mismo tamaño, la misma alineación y caben por igual.
pub proof fn lema_equivale_tamano(a: Tipo, b: Tipo)
    requires
        a.equivale(b),
    ensures
        tamano_de(a) == tamano_de(b),
        alineacion_de(a) == alineacion_de(b),
        cabe(a) == cabe(b),
    decreases a,
{
    match (a, b) {
        (Tipo::Array(x, n), Tipo::Array(y, m)) => {
            lema_equivale_tamano(*x, *y);
        },
        _ => {},
    }
}

/// Listas de tipos equivalentes uno a uno tienen el mismo layout.
pub proof fn lema_layout_equivalente(xs: Seq<Tipo>, ys: Seq<Tipo>, inicio: int)
    requires
        xs.len() == ys.len(),
        forall|i: int| 0 <= i < xs.len() ==> (#[trigger] xs[i]).equivale(ys[i]),
    ensures
        fin_de_campos(xs, inicio) == fin_de_campos(ys, inicio),
        todos_caben(xs) == todos_caben(ys),
    decreases xs.len(),
{
    if xs.len() > 0 {
        lema_layout_equivalente(xs.drop_last(), ys.drop_last(), inicio);
        lema_equivale_tamano(xs.last(), ys.last());
    }
    assert forall|i: int| 0 <= i < xs.len() implies cabe(#[trigger] xs[i]) == cabe(ys[i]) by {
        lema_equivale_tamano(xs[i], ys[i]);
    }
    if todos_caben(xs) {
        assert forall|i: int| 0 <= i < ys.len() implies cabe(#[trigger] ys[i]) by {
            lema_equivale_tamano(xs[i], ys[i]);
        }
    }
    if todos_caben(ys) {
        assert forall|i: int| 0 <= i < xs.len() implies cabe(#[trigger] xs[i]) by {
            lema_equivale_tamano(xs[i], ys[i]);
        }
    }
}

/// Análisis de liveness: van al struct los parámetros y las variables definidas antes de
/// una suspensión que se usan después de ella (ninguna si no hay suspensiones), cada una
/// con su tipo y su offset en el layout C.
#[verifier::rlimit(30)]
fn analizar_liveness(
    sentencias: &Vec<Sentencia>,
    suspensiones: &Vec<usize>,
    parametros: &Vec<Parametro>,
) -> (r: Vec<VarLiveAcross>)
    requires
        forall|k: int| 0 <= k < suspensiones@.len() ==> #[trigger] suspensiones@[k] < sentencias@.len(),
        layout_vivo_cabe(sentencias@, como_enteros(suspensiones@), parametros@),
    ensures
        r@.len() == nombres_vivos(sentencias@, como_enteros(suspensiones@), parametros@).len(),
        forall|i: int|
            0 <= i < r@.len() ==> (#[trigger] r@[i]).nombre@ == nombres_vivos(
                sentencias@,
                como_enteros(suspensiones@),
                parametros@,
            )[i] && r@[i].tipo.equivale(tipo_de_var(r@[i].nombre@, sentencias@, parametros@))
                && r@[i].offset == offset_de_campo(tipos_de(r@), i, 4),
{
    let ghost ss = sentencias@;
    let ghost ps = parametros@;
    let ghost idx = como_enteros(suspensiones@);
    if suspensiones.len() == 0 {
        return Vec::new();
    }
    let mut resultado: Vec<VarLiveAcross> = Vec::new();
    let mut nombres: Vec<String> = Vec::new();
    proof {
        assert(vistas(nombres@) =~= Seq::<Seq<char>>::empty());
        assert(nombres_de_parametros(ps).take(0) =~= Seq::<Seq<char>>::empty());
    }
    // Los parámetros siempre van en el struct
    let mut i: usize = 0;
    while i < parametros.len()
        invariant
            ss == sentencias@,
            ps == parametros@,
            i <= ps.len(),
            vistas(nombres@) == agregar_nuevos(
                Seq::empty(),
                nombres_de_parametros(ps).take(i as int),
                Set::full(),
            ),
            resultado@.len() == nombres@.len(),
            forall|m: int|
                0 <= m < resultado@.len() ==> (#[trigger] resultado@[m]).nombre@ == vistas(
                    nombres@,
                )[m] && resultado@[m].tipo.equivale(tipo_de_var(resultado@[m].nombre@, ss, ps)),
        decreases ps.len() - i,
    {
        proof {
            assert(nombres_de_parametros(ps).take(i + 1).drop_last() =~= nombres_de_parametros(
                ps,
            ).take(i as int));
        }
        let esta = contiene(&nombres, &parametros[i].nombre);
        if !esta {
            let tipo = buscar_tipo_var(&parametros[i].nombre, sentencias, parametros);
            let ghost antes = nombres@;
            nombres.push(parametros[i].nombre.clone());
            resultado.push(VarLiveAcross { nombre: parametros[i].nombre.clone(), tipo, offset: 0 });
            proof {
                assert(vistas(nombres@) =~= vistas(antes).push(parametros@[i as int].nombre@));
            }
        }
        i = i + 1;
    }
    proof {
        assert(nombres_de_parametros(ps).take(ps.len() as int) =~= nombres_de_parametros(ps));
    }
    // Por cada suspensión, las variables definidas antes y usadas después
    let mut k: usize = 0;
    while k < suspensiones.len()
        invariant
            ss == sentencias@,
            ps == parametros@,
            idx == como_enteros(suspensiones@),
            idx.len() > 0,
            forall|q: int| 0 <= q < suspensiones@.len() ==> #[trigger] suspensiones@[q] < ss.len(),
            k <= idx.len(),
            vistas(nombres@) == vivas_tras(ss, idx, ps, k as int),
            resultado@.len() == nombres@.len(),
            forall|m: int|
                0 <= m < resultado@.len() ==> (#[trigger] resultado@[m]).nombre@ == vistas(
                    nombres@,
                )[m] && resultado@[m].tipo.equivale(tipo_de_var(resultado@[m].nombre@, ss, ps)),
        decreases idx.len() - k,
    {
        let h = suspensiones[k];
        let total = sentencias.len();
        assert(h < total);
        let defs = recolectar_defs(sentencias, h);
        let usos = recolectar_usos(sentencias, h + 1);
        let ghost previas = vistas(nombres@);
        let ghost usados = usos_sentencias(ss.skip(h + 1));
        proof {
            assert(vistas(defs@).take(0) =~= Seq::<Seq<char>>::empty());
        }
        let mut j: usize = 0;
        while j < defs.len()
            invariant
                ss == sentencias@,
                ps == parametros@,
                j <= defs@.len(),
                vistas(usos@).to_set() == usados,
                vistas(nombres@) == agregar_nuevos(previas, vistas(defs@).take(j as int), usados),
                resultado@.len() == nombres@.len(),
                forall|m: int|
                    0 <= m < resultado@.len() ==> (#[trigger] resultado@[m]).nombre@ == vistas(
                        nombres@,
                    )[m] && resultado@[m].tipo.equivale(
                        tipo_de_var(resultado@[m].nombre@, ss, ps),
                    ),
            decreases defs@.len() - j,
        {
            proof {
                assert(vistas(defs@).take(j + 1).drop_last() =~= vistas(defs@).take(j as int));
                assert(vistas(defs@).take(j + 1).last() == defs@[j as int]@);
            }
            let usado = contiene(&usos, &defs[j]);
            let esta = contiene(&nombres, &defs[j]);
            if usado && !esta {
                let tipo = buscar_tipo_var(&defs[j], sentencias, parametros);
                let ghost antes = nombres@;
                nombres.push(defs[j].clone());
                resultado.push(VarLiveAcross { nombre: defs[j].clone(), tipo, offset: 0 });
                proof {
                    assert(vistas(nombres@) =~= vistas(antes).push(defs@[j as int]@));
                }
            }
            proof {
                assert(vistas(usos@).to_set().contains(defs@[j as int]@) == vistas(usos@).contains(
                    defs@[j as int]@,
                ));
            }
            j = j + 1;
        }
        proof {
            assert(vistas(defs@).take(defs@.len() as int) =~= vistas(defs@));
            assert(idx[k as int] == h as int);
        }
        k = k + 1;
    }
    proof {
        let tipos = tipos_de(resultado@);
        let vivos = tipos_vivos(ss, idx, ps);
        assert(tipos.len() == vivos.len());
        assert forall|m: int| 0 <= m < tipos.len() implies (#[trigger] tipos[m]).equivale(vivos[m]) by {
            assert(tipos[m] == resultado@[m].tipo);
        }
        lema_layout_equivalente(tipos, vivos, 4);
    }
    let ghost antes = resultado@;
    calcular_offsets(&mut resultado);
    proof {
        assert(tipos_de(resultado@) =~= tipos_de(antes));
    }
    resultado
}

/// Expresión esperada y span de un `esperar` que es la sentencia entera (`esperar e;`) o el
/// valor de una declaración (`el x = esperar e;`).
pub open spec fn espera_de(s: Sentencia) -> Option<(Expresion, Span)> {
    match s {
        Sentencia::Expresion(Expresion::Esperar(inner, sp)) => Some((*inner, sp)),
        Sentencia::DeclaracionVariable(d) => match d.valor {
            Expresion::Esperar(inner, sp) => Some((*inner, sp)),
            _ => None,
        },
        _ => None,
    }
}

/// Posiciones de las sentencias que son puntos de suspensión, en orden.
pub open spec fn indices_espera(ss: Seq<Sentencia>) -> Seq<int>
    decreases ss.len(),
{
    if ss.len() == 0 {
        Seq::empty()
    } else {
        let previas = indices_espera(ss.drop_last());
        if espera_de(ss.last()) is Some {
            previas.push(ss.len() - 1)
        } else {
            previas
        }
    }
}

/// Primera sentencia del segmento `j`: la siguiente a la suspensión `j - 1`.
pub open spec fn inicio_segmento(idx: Seq<int>, j: int) -> int {
    if j == 0 {
        0
    } else {
        idx[j - 1] + 1
    }
}

/// Fin (exclusivo) del segmento `j`: la suspensión `j`, o el final si es el último.
pub open spec fn fin_segmento(n: int, idx: Seq<int>, j: int) -> int {
    if j < idx.len() {
        idx[j]
    } else {
        n
    }
}

/// Sentencias del estado `j`: las que hay entre la suspensión `j - 1` y la `j`.
pub open spec fn segmento(ss: Seq<Sentencia>, idx: Seq<int>, j: int) -> Seq<Sentencia> {
    ss.subrange(inicio_segmento(idx, j), fin_segmento(ss.len() as int, idx, j))
}

/// Las posiciones de suspensión están en rango, crecen estrictamente y son sentencias de
/// espera.
pub proof fn lema_indices_espera(ss: Seq<Sentencia>)
    ensures
        indices_espera(ss).len() <= ss.len(),
        forall|k: int|
            0 <= k < indices_espera(ss).len() ==> 0 <= #[trigger] indices_espera(ss)[k] < ss.len()
                && espera_de(ss[indices_espera(ss)[k]]) is Some,
        forall|a: int, b: int|
            0 <= a < b < indices_espera(ss).len() ==> #[trigger] indices_espera(ss)[a]
                < #[trigger] indices_espera(ss)[b],
    decreases ss.len(),
{
    if ss.len() > 0 {
        let previas = ss.drop_last();
        lema_indices_espera(previas);
        assert forall|k: int|
            0 <= k < indices_espera(previas).len() implies ss[indices_espera(previas)[k]]
            == previas[indices_espera(previas)[k]] by {}
    }
}

/// ¿Es la sentencia un punto de suspensión?
fn es_sentencia_de_espera(sent: &Sentencia) -> (r: bool)
    ensures
        r == espera_de(*sent) is Some,
{
    match sent {
        Sentencia::Expresion(Expresion::Esperar(_, _)) => true,
        Sentencia::DeclaracionVariable(decl) => match &decl.valor {
            Expresion::Esperar(_, _) => true,
            _ => false,
        },
        _ => false,
    }
}

/// Posiciones de las sentencias que son puntos de suspensión.
fn indices_de_espera(sentencias: &Vec<Sentencia>) -> (r: Vec<usize>)
    ensures
        como_enteros(r@) == indices_espera(sentencias@),
{
    let ghost ss = sentencias@;
    let mut r: Vec<usize> = Vec::new();
    let mut i: usize = 0;
    proof {
        assert(ss.take(0) =~= Seq::<Sentencia>::empty());
        assert(como_enteros(r@) =~= Seq::<int>::empty());
    }
    while i < sentencias.len()
        invariant
            ss == sentencias@,
            i <= ss.len(),
            como_enteros(r@) == indices_espera(ss.take(i as int)),
        decreases ss.len() - i,
    {
        proof {
            assert(ss.take(i + 1).drop_last() =~= ss.take(i as int));
        }
        if es_sentencia_de_espera(&sentencias[i]) {
            let ghost antes = r@;
            r.push(i);
            proof {
                assert(como_enteros(r@) =~= como_enteros(antes).push(i as int));
            }
        }
        i = i + 1;
    }
    proof {
        assert(ss.take(ss.len() as int) =~= ss);
    }
    r
}

/// Separa un punto de suspensión: devuelve la expresión esperada y el span del `esperar`, o
/// la sentencia sin tocar si no lo es.
fn extraer_esperar(sent: Sentencia) -> (r: Result<(Box<Expresion>, Span), Sentencia>)
    ensures
        match espera_de(sent) {
            Some((e, sp)) => r matches Ok((b, s)) && *b == e && s == sp,
            None => r == Err::<(Box<Expresion>, Span), Sentencia>(sent),
        },
{
    match sent {
        Sentencia::Expresion(expr) => match expr {
            Expresion::Esperar(inner, sp) => Ok((inner, sp)),
            otra => Err(Sentencia::Expresion(otra)),
        },
        Sentencia::DeclaracionVariable(decl) => {
            let DeclaracionVariable { articulo, nombre, tipo, valor, span } = decl;
            match valor {
                Expresion::Esperar(inner, sp) => Ok((inner, sp)),
                otro => Err(
                    Sentencia::DeclaracionVariable(
                        DeclaracionVariable { articulo, nombre, tipo, valor: otro, span },
                    ),
                ),
            }
        },
        otra => Err(otra),
    }
}

/// Analiza una función futura y produce el plan de su máquina de estados: los puntos de
/// suspensión en orden, las sentencias de cada estado, las variables que viven a través de
/// una suspensión (con su layout) y los datos de la función. Toma la función por valor: sus
/// sentencias pasan a los segmentos.
#[verifier::rlimit(40)]
pub fn analizar_futuro(func: FuncionDecl) -> (r: AnalisisFuturo)
    requires
        func.cuerpo.sentencias@.len() < usize::MAX,
        layout_vivo_cabe(
            func.cuerpo.sentencias@,
            indices_espera(func.cuerpo.sentencias@),
            func.parametros@,
        ),
    ensures
        r.nombre == func.nombre,
        r.parametros == func.parametros,
        r.retorno == func.retorno,
        r.span == func.span,
        r.num_estados == r.suspensiones@.len() + 1,
        r.suspensiones@.len() == indices_espera(func.cuerpo.sentencias@).len(),
        forall|k: int|
            0 <= k < r.suspensiones@.len() ==> {
                let p = #[trigger] r.suspensiones@[k];
                let i = indices_espera(func.cuerpo.sentencias@)[k];
                &&& p.indice_sentencia == i
                &&& espera_de(func.cuerpo.sentencias@[i]) == Some((*p.expresion, p.span))
            },
        r.segmentos@.len() == r.num_estados,
        forall|j: int|
            0 <= j < r.segmentos@.len() ==> (#[trigger] r.segmentos@[j])@ == segmento(
                func.cuerpo.sentencias@,
                indices_espera(func.cuerpo.sentencias@),
                j,
            ),
        r.vars_struct@.len() == nombres_vivos(
            func.cuerpo.sentencias@,
            indices_espera(func.cuerpo.sentencias@),
            func.parametros@,
        ).len(),
        forall|i: int|
            0 <= i < r.vars_struct@.len() ==> (#[trigger] r.vars_struct@[i]).nombre@
                == nombres_vivos(
                func.cuerpo.sentencias@,
                indices_espera(func.cuerpo.sentencias@),
                func.parametros@,
            )[i] && r.vars_struct@[i].tipo.equivale(
                tipo_de_var(r.vars_struct@[i].nombre@, func.cuerpo.sentencias@, func.parametros@),
            ) && r.vars_struct@[i].offset == offset_de_campo(tipos_de(r.vars_struct@), i, 4),
{
    let ghost ss = func.cuerpo.sentencias@;
    let ghost idx = indices_espera(ss);
    let FuncionDecl { nombre, parametros, retorno, cuerpo, span, .. } = func;
    let sentencias = cuerpo.sentencias;
    // 1. Puntos de suspensión y análisis de liveness (sobre las sentencias sin mover)
    let indices = indices_de_espera(&sentencias);
    proof {
        lema_indices_espera(ss);
        assert forall|k: int| 0 <= k < indices@.len() implies #[trigger] indices@[k] < ss.len() by {
            assert(como_enteros(indices@)[k] == indices@[k] as int);
        }
    }
    let vars_struct = analizar_liveness(&sentencias, &indices, &parametros);
    // 2. Segmentos: cada sentencia va al estado actual; cada `esperar` abre uno nuevo
    let mut suspensiones: Vec<PuntoSuspension> = Vec::new();
    let mut segmentos: Vec<Vec<Sentencia>> = Vec::new();
    let mut actual: Vec<Sentencia> = Vec::new();
    let mut i: usize = 0;
    proof {
        assert(ss.take(0) =~= Seq::<Sentencia>::empty());
        assert(ss.subrange(0, 0) =~= Seq::<Sentencia>::empty());
    }
    for sent in it: sentencias.into_iter()
        invariant
            ss.len() < usize::MAX,
            it.seq() == ss,
            i == it.index(),
            i <= ss.len(),
            suspensiones@.len() == indices_espera(ss.take(i as int)).len(),
            segmentos@.len() == suspensiones@.len(),
            forall|k: int|
                0 <= k < suspensiones@.len() ==> {
                    let p = #[trigger] suspensiones@[k];
                    let q = indices_espera(ss.take(i as int))[k];
                    &&& p.indice_sentencia == q
                    &&& espera_de(ss[q]) == Some((*p.expresion, p.span))
                },
            forall|j: int|
                0 <= j < segmentos@.len() ==> (#[trigger] segmentos@[j])@ == segmento(
                    ss,
                    indices_espera(ss.take(i as int)),
                    j,
                ),
            actual@ == ss.subrange(
                inicio_segmento(indices_espera(ss.take(i as int)), segmentos@.len() as int),
                i as int,
            ),
    {
        let ghost previas = indices_espera(ss.take(i as int));
        proof {
            assert(ss.take(i + 1).drop_last() =~= ss.take(i as int));
            assert(sent == ss[i as int]);
            lema_indices_espera(ss.take(i as int));
            lema_indices_espera(ss);
        }
        match extraer_esperar(sent) {
            Ok((expresion, sp)) => {
                suspensiones.push(PuntoSuspension { indice_sentencia: i, expresion, span: sp });
                let mut cerrado: Vec<Sentencia> = Vec::new();
                std::mem::swap(&mut cerrado, &mut actual);
                segmentos.push(cerrado);
                proof {
                    let nuevas = previas.push(i as int);
                    assert(indices_espera(ss.take(i + 1)) == nuevas);
                    assert forall|j: int| 0 <= j < segmentos@.len() implies (#[trigger] segmentos@[j])@
                        == segmento(ss, nuevas, j) by {
                        if j < previas.len() {
                            assert(inicio_segmento(nuevas, j) == inicio_segmento(previas, j));
                        }
                    }
                    assert(ss.subrange(inicio_segmento(nuevas, segmentos@.len() as int), i + 1)
                        =~= Seq::<Sentencia>::empty());
                }
            },
            Err(otra) => {
                actual.push(otra);
                proof {
                    assert(indices_espera(ss.take(i + 1)) == previas);
                    assert(actual@ =~= ss.subrange(
                        inicio_segmento(previas, segmentos@.len() as int),
                        i + 1,
                    ));
                    assert forall|j: int| 0 <= j < segmentos@.len() implies (#[trigger] segmentos@[j])@
                        == segmento(ss, previas, j) by {}
                }
            },
        }
        i = i + 1;
    }
    segmentos.push(actual);
    proof {
        assert(ss.take(ss.len() as int) =~= ss);
    }
    let num_estados = suspensiones.len() + 1;
    AnalisisFuturo {
        nombre,
        num_estados,
        suspensiones,
        vars_struct,
        parametros,
        retorno,
        segmentos,
        span,
    }
}

/// Una expresión usa cada identificador que aparece en ella, en cualquier subexpresión
/// directa (también en el operando derecho de una operación binaria o en el índice de un
/// acceso).
pub proof fn ley_usos_incluyen_identificadores(e: Expresion, n: Seq<char>, sp: Span)
    requires
        aparece_identificador(e, n, sp),
    ensures
        usos_expr(e).contains(n),
    decreases e, 0nat,
{
    match e {
        Expresion::Binaria(izq, _, der, _) => {
            if aparece_identificador(*izq, n, sp) {
                ley_usos_incluyen_identificadores(*izq, n, sp);
            } else {
                ley_usos_incluyen_identificadores(*der, n, sp);
            }
        },
        Expresion::Unaria(_, x, _) => ley_usos_incluyen_identificadores(*x, n, sp),
        Expresion::AccesoArray(base, indice, _) => {
            if aparece_identificador(*base, n, sp) {
                ley_usos_incluyen_identificadores(*base, n, sp);
            } else {
                ley_usos_incluyen_identificadores(*indice, n, sp);
            }
        },
        Expresion::AccesoCampo(x, _, _) => ley_usos_incluyen_identificadores(*x, n, sp),
        Expresion::ArrayRelleno(x, _, _) => ley_usos_incluyen_identificadores(*x, n, sp),
        Expresion::EsVariante(x, _, _, _, _) => ley_usos_incluyen_identificadores(*x, n, sp),
        Expresion::Propagacion(x, _) => ley_usos_incluyen_identificadores(*x, n, sp),
        Expresion::Copiar(x, _) => ley_usos_incluyen_identificadores(*x, n, sp),
        Expresion::Esperar(x, _) => ley_usos_incluyen_identificadores(*x, n, sp),
        Expresion::Lanzar(x, _) => ley_usos_incluyen_identificadores(*x, n, sp),
        Expresion::Bloquear(x, _) => ley_usos_incluyen_identificadores(*x, n, sp),
        Expresion::Mover(_, destino, _) => match destino {
            Some(d) => ley_usos_incluyen_identificadores(*d, n, sp),
            None => {},
        },
        Expresion::Rango(inicio, fin, _, _) => {
            if aparece_identificador(*inicio, n, sp) {
                ley_usos_incluyen_identificadores(*inicio, n, sp);
            } else {
                ley_usos_incluyen_identificadores(*fin, n, sp);
            }
        },
        Expresion::Closure(_, cuerpo, _) => ley_usos_incluyen_identificadores(*cuerpo, n, sp),
        Expresion::Llamada(ll) => lema_usos_lista_completa(ll.argumentos@, n, sp),
        Expresion::LiteralArray(es, _) => lema_usos_lista_completa(es@, n, sp),
        Expresion::ConstructorEnum(_, _, es, _) => lema_usos_lista_completa(es@, n, sp),
        Expresion::Metodo(receptor, _, es, _) => {
            if aparece_identificador(*receptor, n, sp) {
                ley_usos_incluyen_identificadores(*receptor, n, sp);
            } else {
                lema_usos_lista_completa(es@, n, sp);
            }
        },
        _ => {},
    }
}

proof fn lema_agregar_conserva(acc: Seq<Seq<char>>, ns: Seq<Seq<char>>, filtro: Set<Seq<char>>, x: Seq<char>)
    requires
        acc.contains(x),
    ensures
        agregar_nuevos(acc, ns, filtro).contains(x),
    decreases ns.len(),
{
    if ns.len() > 0 {
        lema_agregar_conserva(acc, ns.drop_last(), filtro, x);
        let a = agregar_nuevos(acc, ns.drop_last(), filtro);
        let k = choose|k: int| 0 <= k < a.len() && a[k] == x;
        assert(a.push(ns.last())[k] == x);
    }
}

proof fn lema_agregar_incluye(acc: Seq<Seq<char>>, ns: Seq<Seq<char>>, filtro: Set<Seq<char>>, x: Seq<char>)
    requires
        ns.contains(x),
        filtro.contains(x),
    ensures
        agregar_nuevos(acc, ns, filtro).contains(x),
    decreases ns.len(),
{
    let a = agregar_nuevos(acc, ns.drop_last(), filtro);
    if ns.last() == x {
        if !a.contains(x) {
            assert(a.push(x)[a.len() as int] == x);
        }
    } else {
        let k = choose|k: int| 0 <= k < ns.len() && ns[k] == x;
        assert(ns.drop_last()[k] == x);
        lema_agregar_incluye(acc, ns.drop_last(), filtro, x);
        let m = choose|m: int| 0 <= m < a.len() && a[m] == x;
        assert(a.push(ns.last())[m] == x);
    }
}

proof fn lema_vivas_monotonas(ss: Seq<Sentencia>, idx: Seq<int>, ps: Seq<Parametro>, k: int, k2: int, x: Seq<char>)
    requires
        0 <= k <= k2,
        vivas_tras(ss, idx, ps, k).contains(x),
    ensures
        vivas_tras(ss, idx, ps, k2).contains(x),
    decreases k2 - k,
{
    if k < k2 {
        lema_agregar_conserva(
            vivas_tras(ss, idx, ps, k),
            definidas_antes(ss, idx[k]),
            usos_sentencias(ss.skip(idx[k] + 1)),
            x,
        );
        lema_vivas_monotonas(ss, idx, ps, k + 1, k2, x);
    }
}

proof fn lema_declaradas_incluye(ss: Seq<Sentencia>, j: int, n: Seq<char>)
    requires
        0 <= j < ss.len(),
        ss[j] matches Sentencia::DeclaracionVariable(d) && d.nombre@ == n,
    ensures
        declaradas(ss).contains(n),
    decreases ss.len(),
{
    let prev = declaradas(ss.drop_last());
    if j == ss.len() - 1 {
        assert(prev.push(n)[prev.len() as int] == n);
    } else {
        assert(ss.drop_last()[j] == ss[j]);
        lema_declaradas_incluye(ss.drop_last(), j, n);
        let k = choose|k: int| 0 <= k < prev.len() && prev[k] == n;
        match ss.last() {
            Sentencia::DeclaracionVariable(d) => assert(prev.push(d.nombre@)[k] == n),
            _ => {},
        }
    }
}

proof fn lema_usos_sentencias_incluye(ss: Seq<Sentencia>, j: int, n: Seq<char>)
    requires
        0 <= j < ss.len(),
        usos_sentencia(ss[j]).contains(n),
    ensures
        usos_sentencias(ss).contains(n),
    decreases ss.len(),
{
    if j < ss.len() - 1 {
        assert(ss.drop_last()[j] == ss[j]);
        lema_usos_sentencias_incluye(ss.drop_last(), j, n);
    }
}

proof fn lema_usos_de_sentencia(s: Sentencia, n: Seq<char>, sp: Span)
    requires
        aparece_en_sentencia(s, n, sp),
    ensures
        usos_sentencia(s).contains(n),
{
    match s {
        Sentencia::Expresion(e) => ley_usos_incluyen_identificadores(e, n, sp),
        Sentencia::DeclaracionVariable(d) => ley_usos_incluyen_identificadores(d.valor, n, sp),
        Sentencia::Asignacion(a) => ley_usos_incluyen_identificadores(a.valor, n, sp),
        Sentencia::Retornar(Some(e), _) => ley_usos_incluyen_identificadores(e, n, sp),
        _ => {},
    }
}

/// Una variable declarada antes de una suspensión (en la sentencia `j0`) y leída después de
/// ella (en el valor de la sentencia `j1`, en cualquier operando) vive en el struct del
/// futuro: está entre los nombres de `vars_struct` de `analizar_futuro`.
pub proof fn ley_variable_leida_tras_suspension(
    ss: Seq<Sentencia>,
    idx: Seq<int>,
    ps: Seq<Parametro>,
    k: int,
    j0: int,
    j1: int,
    n: Seq<char>,
    sp: Span,
)
    requires
        0 <= k < idx.len(),
        0 <= j0 < idx[k] < j1 < ss.len(),
        ss[j0] matches Sentencia::DeclaracionVariable(d) && d.nombre@ == n,
        aparece_en_sentencia(ss[j1], n, sp),
    ensures
        nombres_vivos(ss, idx, ps).contains(n),
{
    let h = idx[k];
    assert(ss.take(h)[j0] == ss[j0]);
    lema_declaradas_incluye(ss.take(h), j0, n);
    lema_agregar_incluye(Seq::empty(), declaradas(ss.take(h)), Set::full(), n);
    let despues = ss.skip(h + 1);
    assert(despues[j1 - h - 1] == ss[j1]);
    lema_usos_de_sentencia(ss[j1], n, sp);
    lema_usos_sentencias_incluye(despues, j1 - h - 1, n);
    lema_agregar_incluye(vivas_tras(ss, idx, ps, k), definidas_antes(ss, h), usos_sentencias(despues), n);
    assert(vivas_tras(ss, idx, ps, k + 1).contains(n));
    lema_vivas_monotonas(ss, idx, ps, k + 1, idx.len() as int, n);
}

proof fn lema_usos_lista(es: Seq<Expresion>, m: nat, i: int, n: Seq<char>, sp: Span)
    requires
        0 <= i < m <= es.len(),
        aparece_identificador(es[i], n, sp),
    ensures
        usos_exprs(es.take(m as int)).contains(n),
    decreases es, m,
{
    let t = es.take(m as int);
    assert(t.drop_last() =~= es.take(m - 1));
    assert(t.last() == es[m - 1]);
    if i == m - 1 {
        ley_usos_incluyen_identificadores(es[i], n, sp);
    } else {
        lema_usos_lista(es, (m - 1) as nat, i, n, sp);
    }
}

proof fn lema_usos_lista_completa(es: Seq<Expresion>, n: Seq<char>, sp: Span)
    requires
        exists|i: int| 0 <= i < es.len() && aparece_identificador(#[trigger] es[i], n, sp),
    ensures
        usos_exprs(es).contains(n),
    decreases es, es.len() + 1,
{
    let i = choose|i: int| 0 <= i < es.len() && aparece_identificador(#[trigger] es[i], n, sp);
    lema_usos_lista(es, es.len(), i, n, sp);
    assert(es.take(es.len() as int) =~= es);
}

} // verus!
