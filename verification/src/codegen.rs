//! Tablas y análisis del generador de código: layout C de structs y enums, tamaños de
//! tipos, y las transformaciones sobre el AST que preceden a la emisión de código
//! (aplanado de módulos, monomorfización de funciones genéricas, inferencia de tipos).
//! La emisión de expresiones y sentencias a la representación intermedia está en `emision`.

use vstd::prelude::*;
use crate::ast::{Parametro, ParametroGenerico, Bloque, Campo, CampoBits, Declaracion, Sentencia, RamaSeleccionar, FuncionDecl, EnumeracionDecl, EstructuralDecl, Expresion, Literal, Llamada, Tipo, Variante};
use crate::texto::{agregar, es_texto};
use crate::futuros::alinear;
use crate::lsp::{claves_unicas, insertar, lema_mapa_de, mapa_de, obtener};
use crate::texto::{texto, agregar_decimal, decimal};
use crate::lsp::unidos;
use crate::servidor::unir;
use crate::lexer::caracteres;

verus! {

/// Información de layout de un struct para codegen
#[derive(Debug)]
pub struct LayoutStruct {
    pub nombre: String,
    pub tamano: u32,
    pub alineacion: u32,
    /// Offset de cada campo en bytes
    pub offsets: Vec<(String, u32)>,
    /// Tipo de cada campo
    pub tipos: Vec<(String, Tipo)>,
    /// Campos de bits: nombre → (offset_bits, ancho_bits)
    pub bitfields: Vec<(String, (u32, u32))>,
    /// true si es un struct de bitfields (respaldado por un solo entero)
    pub es_bitfield: bool,
}

/// Información de layout de un enum para codegen
#[derive(Debug)]
pub struct LayoutEnum {
    pub nombre: String,
    pub tamano: u32,
    pub alineacion: u32,
    pub tag_tamano: u32,
    pub datos_offset: u32,
    /// Tag de cada variante
    pub variantes: Vec<(String, u32)>,
    /// Tipos de datos de cada variante (si tiene)
    pub tipos_datos: Vec<(String, Vec<Tipo>)>,
}

/// Vista de un layout de struct: nombre, tamaño, alineación, offsets, tipos, campos de bits
/// y si es de bits.
pub type VistaStruct = (
    Seq<char>,
    u32,
    u32,
    Map<Seq<char>, u32>,
    Map<Seq<char>, Tipo>,
    Map<Seq<char>, (u32, u32)>,
    bool,
);

/// Vista de un layout de enum: nombre, tamaño, alineación, tamaño del tag, offset de los
/// datos, tags y tipos de datos de las variantes.
pub type VistaEnum = (Seq<char>, u32, u32, u32, u32, Map<Seq<char>, u32>, Map<Seq<char>, Seq<Tipo>>);

impl View for LayoutStruct {
    type V = VistaStruct;

    open spec fn view(&self) -> VistaStruct {
        (
            self.nombre@,
            self.tamano,
            self.alineacion,
            mapa_de(self.offsets@),
            mapa_de(self.tipos@),
            mapa_de(self.bitfields@),
            self.es_bitfield,
        )
    }
}

impl View for LayoutEnum {
    type V = VistaEnum;

    open spec fn view(&self) -> VistaEnum {
        (
            self.nombre@,
            self.tamano,
            self.alineacion,
            self.tag_tamano,
            self.datos_offset,
            mapa_de(self.variantes@),
            mapa_de(self.tipos_datos@),
        )
    }
}

/// Tablas del generador de código: los layouts de los structs y enums registrados.
#[derive(Debug)]
pub struct Codegen {
    pub structs: Vec<(String, LayoutStruct)>,
    pub enums: Vec<(String, LayoutEnum)>,
}

/// Tamaño en bytes de un tipo para el codegen, con los structs y enums registrados; los
/// genéricos sin resolver y los nombres desconocidos ocupan 4.
pub open spec fn tamano_en(ss: Map<Seq<char>, VistaStruct>, es: Map<Seq<char>, VistaEnum>, t: Tipo) -> int
    decreases t,
{
    match t {
        Tipo::Entero8 | Tipo::Natural8 | Tipo::Booleano | Tipo::Caracter => 1,
        Tipo::Entero16 | Tipo::Natural16 => 2,
        Tipo::Entero32 | Tipo::Natural32 | Tipo::Flotante32 => 4,
        Tipo::Array(elem, longitud) => tamano_en(ss, es, *elem) * ((longitud as u32) as int),
        Tipo::ArrayGenerico(elem, _) => tamano_en(ss, es, *elem),
        Tipo::Vacio => 4,
        Tipo::Nombre(nombre) => if ss.contains_key(nombre@) {
            ss[nombre@].1 as int
        } else if es.contains_key(nombre@) {
            es[nombre@].1 as int
        } else {
            4
        },
        Tipo::Generico(_) => 4,
        Tipo::NombreGenerico(_, _) => 4,
        _ => 8,
    }
}

/// El tamaño del tipo, y el de cada array que contiene, cabe en 32 bits.
pub open spec fn cabe_en(ss: Map<Seq<char>, VistaStruct>, es: Map<Seq<char>, VistaEnum>, t: Tipo) -> bool
    decreases t,
{
    match t {
        Tipo::Array(elem, longitud) => cabe_en(ss, es, *elem) && tamano_en(ss, es, *elem) * ((
        longitud as u32) as int) <= u32::MAX,
        Tipo::ArrayGenerico(elem, _) => cabe_en(ss, es, *elem),
        _ => true,
    }
}

/// Alineación C de un tipo para el codegen: la de un primitivo es su tamaño, la de un array
/// la de su elemento, la de un struct o enum registrado la suya; los genéricos sin resolver,
/// los nombres desconocidos y `Vacio` se alinean a 4 y el resto (punteros, 64 bits) a 8.
pub open spec fn alineacion_en(ss: Map<Seq<char>, VistaStruct>, es: Map<Seq<char>, VistaEnum>, t: Tipo) -> int
    decreases t,
{
    match t {
        Tipo::Entero8 | Tipo::Natural8 | Tipo::Booleano | Tipo::Caracter => 1,
        Tipo::Entero16 | Tipo::Natural16 => 2,
        Tipo::Entero32 | Tipo::Natural32 | Tipo::Flotante32 => 4,
        Tipo::Array(elem, _) => alineacion_en(ss, es, *elem),
        Tipo::ArrayGenerico(elem, _) => alineacion_en(ss, es, *elem),
        Tipo::Vacio => 4,
        Tipo::Nombre(nombre) => if ss.contains_key(nombre@) {
            ss[nombre@].2 as int
        } else if es.contains_key(nombre@) {
            es[nombre@].2 as int
        } else {
            4
        },
        Tipo::Generico(_) => 4,
        Tipo::NombreGenerico(_, _) => 4,
        _ => 8,
    }
}

/// Cada struct y enum registrado tiene alineación positiva.
pub open spec fn alineaciones_positivas(ss: Map<Seq<char>, VistaStruct>, es: Map<Seq<char>, VistaEnum>) -> bool {
    &&& forall|k: Seq<char>| #[trigger] ss.contains_key(k) ==> ss[k].2 >= 1
    &&& forall|k: Seq<char>| #[trigger] es.contains_key(k) ==> es[k].2 >= 1
}

/// Con alineaciones registradas positivas, la de todo tipo es positiva y cabe en 32 bits.
pub proof fn lema_alineacion_en(ss: Map<Seq<char>, VistaStruct>, es: Map<Seq<char>, VistaEnum>, t: Tipo)
    requires
        alineaciones_positivas(ss, es),
    ensures
        1 <= alineacion_en(ss, es, t) <= u32::MAX,
    decreases t,
{
    match t {
        Tipo::Array(elem, _) => lema_alineacion_en(ss, es, *elem),
        Tipo::ArrayGenerico(elem, _) => lema_alineacion_en(ss, es, *elem),
        Tipo::Nombre(n) => {
            if ss.contains_key(n@) {
                assert(ss[n@].2 >= 1);
            } else if es.contains_key(n@) {
                assert(es[n@].2 >= 1);
            }
        },
        _ => {},
    }
}

/// El tamaño no es negativo y, si cabe, entra en 32 bits.
pub proof fn lema_tamano_en(ss: Map<Seq<char>, VistaStruct>, es: Map<Seq<char>, VistaEnum>, t: Tipo)
    ensures
        tamano_en(ss, es, t) >= 0,
        cabe_en(ss, es, t) ==> tamano_en(ss, es, t) <= u32::MAX,
    decreases t,
{
    match t {
        Tipo::Array(elem, longitud) => {
            lema_tamano_en(ss, es, *elem);
            let l = (longitud as u32) as int;
            let x = tamano_en(ss, es, *elem);
            assert(x * l >= 0) by (nonlinear_arith)
                requires
                    x >= 0,
                    l >= 0,
            ;
        },
        Tipo::ArrayGenerico(elem, _) => {
            lema_tamano_en(ss, es, *elem);
        },
        _ => {},
    }
}

/// Layout del enum integrado `Resultado<T, E>`: tag de 4 bytes y datos de un `Entero32`.
pub open spec fn resultado_integrado() -> VistaEnum {
    (
        "Resultado"@,
        8,
        4,
        4,
        4,
        map!["Exito"@ => 0u32, "Error"@ => 1u32],
        map!["Exito"@ => seq![Tipo::Entero32], "Error"@ => seq![Tipo::Entero32]],
    )
}

impl Codegen {
    /// Las tablas no repiten nombre, ni dentro de cada layout.
    pub open spec fn bien_formado(&self) -> bool {
        &&& claves_unicas(self.structs@)
        &&& claves_unicas(self.enums@)
        &&& forall|i: int| 0 <= i < self.structs@.len() ==> {
            let l = #[trigger] self.structs@[i].1;
            claves_unicas(l.offsets@) && claves_unicas(l.tipos@) && claves_unicas(l.bitfields@)
                && l.alineacion >= 1
        }
        &&& forall|i: int| 0 <= i < self.enums@.len() ==> {
            let l = #[trigger] self.enums@[i].1;
            claves_unicas(l.variantes@) && claves_unicas(l.tipos_datos@) && l.alineacion >= 1
        }
    }

    /// En tablas bien formadas las alineaciones registradas son positivas.
    pub proof fn lema_alineaciones(&self)
        requires
            self.bien_formado(),
        ensures
            alineaciones_positivas(self.structs_map(), self.enums_map()),
    {
        lema_mapa_de(self.structs@);
        lema_mapa_de(self.enums@);
        assert forall|k: Seq<char>| #[trigger] self.structs_map().contains_key(k) implies self.structs_map()[k].2 >= 1 by {
            let i = choose|i: int| 0 <= i < self.structs@.len() && self.structs@[i].0@ == k;
            assert(self.structs_map()[self.structs@[i].0@] == self.structs@[i].1@);
        }
        assert forall|k: Seq<char>| #[trigger] self.enums_map().contains_key(k) implies self.enums_map()[k].2 >= 1 by {
            let i = choose|i: int| 0 <= i < self.enums@.len() && self.enums@[i].0@ == k;
            assert(self.enums_map()[self.enums@[i].0@] == self.enums@[i].1@);
        }
    }

    /// Structs registrados, por nombre.
    pub open spec fn structs_map(&self) -> Map<Seq<char>, VistaStruct> {
        mapa_de(self.structs@)
    }

    /// Enums registrados, por nombre.
    pub open spec fn enums_map(&self) -> Map<Seq<char>, VistaEnum> {
        mapa_de(self.enums@)
    }

    /// Tablas nuevas, con el enum integrado `Resultado`.
    pub fn nuevo() -> (r: Self)
        ensures
            r.bien_formado(),
            r.structs_map() == Map::<Seq<char>, VistaStruct>::empty(),
            r.enums_map() == Map::<Seq<char>, VistaEnum>::empty().insert(
                "Resultado"@,
                resultado_integrado(),
            ),
    {
        let c = Codegen { structs: Vec::new(), enums: Vec::new() };
        proof {
            assert(c.structs@ =~= Seq::<(String, LayoutStruct)>::empty());
            assert(c.structs_map() =~= Map::<Seq<char>, VistaStruct>::empty());
            assert(c.enums_map() =~= Map::<Seq<char>, VistaEnum>::empty());
        }
        c.registrar_builtins_codegen()
    }

    /// Registra el enum integrado `Resultado<T, E>` (tag y un `Entero32` de datos; en la
    /// monomorfización se especializa).
    pub fn registrar_builtins_codegen(self) -> (r: Self)
        requires
            self.bien_formado(),
        ensures
            r.bien_formado(),
            r.structs_map() == self.structs_map(),
            r.enums_map() == self.enums_map().insert("Resultado"@, resultado_integrado()),
    {
        let mut s = self;
        // Resultado<T, E>: tag (I32) + datos (por ahora un Entero32)
        let tag_tamano = 4u32;
        let datos_offset = tag_tamano;
        let max_tamano_datos = 4u32;
        let tamano_total = datos_offset + max_tamano_datos;
        let alineacion = 4u32;
        let padding = (alineacion - (tamano_total % alineacion)) % alineacion;
        let tamano_alineado = tamano_total + padding;

        let mut variantes: Vec<(String, u32)> = Vec::new();
        insertar(&mut variantes, texto("Exito"), 0);
        insertar(&mut variantes, texto("Error"), 1);

        let mut tipos_datos: Vec<(String, Vec<Tipo>)> = Vec::new();
        let mut datos_exito: Vec<Tipo> = Vec::new();
        datos_exito.push(Tipo::Entero32);
        let mut datos_error: Vec<Tipo> = Vec::new();
        datos_error.push(Tipo::Entero32);
        insertar(&mut tipos_datos, texto("Exito"), datos_exito);
        insertar(&mut tipos_datos, texto("Error"), datos_error);

        let layout = LayoutEnum {
            nombre: texto("Resultado"),
            tamano: tamano_alineado,
            alineacion,
            tag_tamano,
            datos_offset,
            variantes,
            tipos_datos,
        };
        proof {
            assert(mapa_de(layout.variantes@) =~= map!["Exito"@ => 0u32, "Error"@ => 1u32]);
            assert(mapa_de(layout.tipos_datos@) =~= map![
                "Exito"@ => seq![Tipo::Entero32],
                "Error"@ => seq![Tipo::Entero32],
            ]);
            assert(layout@ == resultado_integrado());
        }
        let ghost antes = s.enums@;
        let ghost nuevo = layout;
        insertar(&mut s.enums, texto("Resultado"), layout);
        proof {
            assert forall|i: int| 0 <= i < s.enums@.len() implies {
                let l = #[trigger] s.enums@[i].1;
                claves_unicas(l.variantes@) && claves_unicas(l.tipos_datos@) && l.alineacion >= 1
            } by {
                if s.enums@[i].1 != nuevo {
                    let j = choose|j: int| 0 <= j < antes.len() && antes[j] == s.enums@[i];
                    assert(antes[j].1 == s.enums@[i].1);
                }
            }
        }
        s
    }
}

/// Tipo de un campo de un struct registrado; `Entero32` si no se conoce.
pub open spec fn tipo_de_campo(ss: Map<Seq<char>, VistaStruct>, s: Seq<char>, c: Seq<char>) -> Tipo {
    if ss.contains_key(s) && ss[s].4.contains_key(c) {
        ss[s].4[c]
    } else {
        Tipo::Entero32
    }
}

/// Tag de una variante de un enum registrado, si los dos existen.
pub open spec fn tag_de(es: Map<Seq<char>, VistaEnum>, e: Seq<char>, v: Seq<char>) -> Option<u32> {
    if es.contains_key(e) && es[e].5.contains_key(v) {
        Some(es[e].5[v])
    } else {
        None
    }
}

impl Codegen {
    /// Tamaño en bytes de un tipo.
    pub fn tamano_tipo(&self, tipo: &Tipo) -> (r: u32)
        requires
            self.bien_formado(),
            cabe_en(self.structs_map(), self.enums_map(), *tipo),
        ensures
            r == tamano_en(self.structs_map(), self.enums_map(), *tipo),
        decreases tipo,
    {
        proof {
            lema_tamano_en(self.structs_map(), self.enums_map(), *tipo);
        }
        match tipo {
            Tipo::Entero8 | Tipo::Natural8 | Tipo::Booleano | Tipo::Caracter => 1,
            Tipo::Entero16 | Tipo::Natural16 => 2,
            Tipo::Entero32 | Tipo::Natural32 | Tipo::Flotante32 => 4,
            Tipo::Entero64 | Tipo::Natural64 | Tipo::Flotante64 | Tipo::Palabra | Tipo::Texto
            | Tipo::Vector(_) | Tipo::Diccionario(_, _) | Tipo::Conjunto(_) | Tipo::Resultado(_, _)
            | Tipo::Puntero(_) | Tipo::Referencia(_) | Tipo::ReferenciaMut(_)
            | Tipo::ReferenciaConLifetime(_, _) | Tipo::ReferenciaMutConLifetime(_, _)
            | Tipo::ReferenciaSelf(_) | Tipo::ReferenciaMutSelf(_) => 8,
            Tipo::Array(tipo_elem, longitud) => {
                proof {
                    lema_tamano_en(self.structs_map(), self.enums_map(), **tipo_elem);
                }
                self.tamano_tipo(tipo_elem) * (*longitud as u32)
            },
            Tipo::ArrayGenerico(tipo_elem, _) => {
                // En la monomorfización se reemplaza por un Array de tamaño conocido
                self.tamano_tipo(tipo_elem)
            },
            Tipo::Vacio => 4,
            Tipo::Nombre(nombre) => {
                // Buscar en structs o enums
                if let Some(layout) = obtener(&self.structs, nombre.as_str()) {
                    layout.tamano
                } else if let Some(layout) = obtener(&self.enums, nombre.as_str()) {
                    layout.tamano
                } else {
                    4
                }
            },
            Tipo::Generico(_) => 4,
            Tipo::NombreGenerico(_, _) => 4,
        }
    }

    /// Alineación C de un tipo.
    pub fn alineacion_tipo(&self, tipo: &Tipo) -> (r: u32)
        requires
            self.bien_formado(),
        ensures
            r == alineacion_en(self.structs_map(), self.enums_map(), *tipo),
            r >= 1,
        decreases tipo,
    {
        proof {
            self.lema_alineaciones();
            lema_alineacion_en(self.structs_map(), self.enums_map(), *tipo);
        }
        match tipo {
            Tipo::Entero8 | Tipo::Natural8 | Tipo::Booleano | Tipo::Caracter => 1,
            Tipo::Entero16 | Tipo::Natural16 => 2,
            Tipo::Entero32 | Tipo::Natural32 | Tipo::Flotante32 => 4,
            Tipo::Entero64 | Tipo::Natural64 | Tipo::Flotante64 | Tipo::Palabra | Tipo::Texto
            | Tipo::Vector(_) | Tipo::Diccionario(_, _) | Tipo::Conjunto(_) | Tipo::Resultado(_, _)
            | Tipo::Puntero(_) | Tipo::Referencia(_) | Tipo::ReferenciaMut(_)
            | Tipo::ReferenciaConLifetime(_, _) | Tipo::ReferenciaMutConLifetime(_, _)
            | Tipo::ReferenciaSelf(_) | Tipo::ReferenciaMutSelf(_) => 8,
            Tipo::Array(tipo_elem, _) => self.alineacion_tipo(tipo_elem),
            Tipo::ArrayGenerico(tipo_elem, _) => self.alineacion_tipo(tipo_elem),
            Tipo::Vacio => 4,
            Tipo::Nombre(nombre) => {
                if let Some(layout) = obtener(&self.structs, nombre.as_str()) {
                    layout.alineacion
                } else if let Some(layout) = obtener(&self.enums, nombre.as_str()) {
                    layout.alineacion
                } else {
                    4
                }
            },
            Tipo::Generico(_) => 4,
            Tipo::NombreGenerico(_, _) => 4,
        }
    }

    /// Tipo de un campo de un struct; `Entero32` si el struct o el campo no se conocen.
    pub fn buscar_tipo_campo(&self, nombre_struct: &str, nombre_campo: &str) -> (r: Tipo)
        requires
            self.bien_formado(),
        ensures
            r.equivale(tipo_de_campo(self.structs_map(), nombre_struct@, nombre_campo@)),
    {
        match obtener(&self.structs, nombre_struct) {
            Some(layout) => {
                proof {
                    let i = choose|i: int| 0 <= i < self.structs@.len() && #[trigger] self.structs@[i].1 == *layout;
                    assert(claves_unicas(self.structs@[i].1.tipos@));
                }
                match obtener(&layout.tipos, nombre_campo) {
                    Some(t) => t.clone(),
                    None => Tipo::Entero32,
                }
            },
            None => Tipo::Entero32,
        }
    }

    /// Tag de una variante de un enum, si los dos existen.
    pub fn indice_variante_enum(&self, enum_nombre: &str, variante: &str) -> (r: Option<u32>)
        requires
            self.bien_formado(),
        ensures
            r == tag_de(self.enums_map(), enum_nombre@, variante@),
    {
        match obtener(&self.enums, enum_nombre) {
            Some(layout) => {
                proof {
                    let i = choose|i: int| 0 <= i < self.enums@.len() && #[trigger] self.enums@[i].1 == *layout;
                    assert(claves_unicas(self.enums@[i].1.variantes@));
                }
                match obtener(&layout.variantes, variante) {
                    Some(t) => Some(*t),
                    None => None,
                }
            },
            None => None,
        }
    }

    /// Distancia entre cubetas de un diccionario: 8 bytes de control, la clave y el valor,
    /// redondeado a múltiplo de 8.
    pub fn diccionario_bucket_stride(&self, tipo_k: &Tipo, tipo_v: &Tipo) -> (r: u32)
        requires
            self.bien_formado(),
            cabe_en(self.structs_map(), self.enums_map(), *tipo_k),
            cabe_en(self.structs_map(), self.enums_map(), *tipo_v),
            8 + tamano_en(self.structs_map(), self.enums_map(), *tipo_k) + tamano_en(
                self.structs_map(),
                self.enums_map(),
                *tipo_v,
            ) + 7 <= u32::MAX,
        ensures
            r == (8 + tamano_en(self.structs_map(), self.enums_map(), *tipo_k) + tamano_en(
                self.structs_map(),
                self.enums_map(),
                *tipo_v,
            ) + 7) / 8 * 8,
    {
        let key_size = self.tamano_tipo(tipo_k);
        let val_size = self.tamano_tipo(tipo_v);
        let raw = 8 + key_size + val_size;
        (raw + 7) / 8 * 8
    }
}

/// Mapa de una lista de pares: con claves repetidas manda el último par.
pub open spec fn mapa_pares<V>(s: Seq<(Seq<char>, V)>) -> Map<Seq<char>, V>
    decreases s.len(),
{
    if s.len() == 0 {
        Map::empty()
    } else {
        mapa_pares(s.drop_last()).insert(s.last().0, s.last().1)
    }
}

/// Mismas claves y, en cada una, tipos equivalentes.
pub open spec fn mapas_equivalentes(a: Map<Seq<char>, Tipo>, b: Map<Seq<char>, Tipo>) -> bool {
    a.dom() == b.dom() && forall|k: Seq<char>| #[trigger] a.contains_key(k) ==> a[k].equivale(b[k])
}

/// Tamaños de los campos, en orden.
pub open spec fn tamanos_de_campos(
    ss: Map<Seq<char>, VistaStruct>,
    es: Map<Seq<char>, VistaEnum>,
    campos: Seq<Campo>,
) -> Seq<int> {
    campos.map_values(|c: Campo| tamano_en(ss, es, c.tipo))
}

/// Alineaciones de los campos, en orden.
pub open spec fn alineaciones_de_campos(
    ss: Map<Seq<char>, VistaStruct>,
    es: Map<Seq<char>, VistaEnum>,
    campos: Seq<Campo>,
) -> Seq<int> {
    campos.map_values(|c: Campo| alineacion_en(ss, es, c.tipo))
}

/// Fin de los campos (tamaños `ts`, alineaciones `als`) colocados en orden desde 0, cada uno
/// en el primer múltiplo de su alineación.
pub open spec fn fin_de(ts: Seq<int>, als: Seq<int>) -> int
    decreases ts.len(),
{
    if ts.len() == 0 {
        0
    } else {
        alinear(fin_de(ts.drop_last(), als.drop_last()), als.last()) + ts.last()
    }
}

/// Offset del campo `i`: el fin de los anteriores alineado a su alineación.
pub open spec fn offset_en(ts: Seq<int>, als: Seq<int>, i: int) -> int {
    alinear(fin_de(ts.take(i), als.take(i)), als[i])
}

/// La mayor alineación de los campos (al menos 1).
pub open spec fn alineacion_maxima(ts: Seq<int>) -> int
    decreases ts.len(),
{
    if ts.len() == 0 {
        1
    } else if ts.last() > alineacion_maxima(ts.drop_last()) {
        ts.last()
    } else {
        alineacion_maxima(ts.drop_last())
    }
}

/// Tamaño del struct: el fin del último campo alineado a la mayor alineación.
pub open spec fn tamano_struct(ts: Seq<int>, als: Seq<int>) -> int {
    alinear(fin_de(ts, als), alineacion_maxima(als))
}

/// Pares (campo, offset).
pub open spec fn pares_offsets(campos: Seq<Campo>, ts: Seq<int>, als: Seq<int>) -> Seq<(Seq<char>, u32)> {
    Seq::new(campos.len(), |i: int| (campos[i].nombre@, offset_en(ts, als, i) as u32))
}

/// Pares (campo, tipo).
pub open spec fn pares_tipos(campos: Seq<Campo>) -> Seq<(Seq<char>, Tipo)> {
    campos.map_values(|c: Campo| (c.nombre@, c.tipo))
}

/// Pares (campo de bits, (offset, ancho)).
pub open spec fn pares_bits(cbs: Seq<CampoBits>) -> Seq<(Seq<char>, (u32, u32))> {
    cbs.map_values(|c: CampoBits| (c.nombre@, (c.offset_bits, c.ancho_bits)))
}

/// Suma de los anchos de los campos de bits.
pub open spec fn suma_bits(cbs: Seq<CampoBits>) -> int
    decreases cbs.len(),
{
    if cbs.len() == 0 {
        0
    } else {
        suma_bits(cbs.drop_last()) + cbs.last().ancho_bits
    }
}

/// Bytes del entero que respalda un struct de bits de `n` bits (1, 2, 4 u 8).
pub open spec fn bytes_de_bits(n: int) -> u32 {
    if n <= 8 {
        1
    } else if n <= 16 {
        2
    } else if n <= 32 {
        4
    } else {
        8
    }
}

/// Struct de bits: tiene campos de bits y ningún campo normal.
pub open spec fn es_de_bits(s: EstructuralDecl) -> bool {
    s.campos_bits@.len() > 0 && s.campos@.len() == 0
}

/// El struct se puede registrar sin desbordar: la suma de bits cabe en 32 bits, o bien
/// cada campo tiene un tamaño positivo que cabe y el tamaño total cabe en 32 bits.
pub open spec fn struct_registrable(
    ss: Map<Seq<char>, VistaStruct>,
    es: Map<Seq<char>, VistaEnum>,
    s: EstructuralDecl,
) -> bool {
    if es_de_bits(s) {
        suma_bits(s.campos_bits@) <= u32::MAX
    } else {
        let ts = tamanos_de_campos(ss, es, s.campos@);
        let als = alineaciones_de_campos(ss, es, s.campos@);
        &&& forall|i: int| 0 <= i < s.campos@.len() ==> cabe_en(ss, es, #[trigger] s.campos@[i].tipo)
        &&& tamano_struct(ts, als) <= u32::MAX
    }
}

/// El layout registrado para el struct: de bits, respaldado por un entero del ancho total;
/// si no, el layout C: cada campo en orden en el primer múltiplo de su alineación, y el
/// total alineado a la mayor alineación, que es la del struct.
pub open spec fn layout_struct_de(
    v: VistaStruct,
    ss: Map<Seq<char>, VistaStruct>,
    es: Map<Seq<char>, VistaEnum>,
    s: EstructuralDecl,
) -> bool {
    &&& v.0 == s.nombre@
    &&& if es_de_bits(s) {
        &&& v.1 == bytes_de_bits(suma_bits(s.campos_bits@))
        &&& v.2 == bytes_de_bits(suma_bits(s.campos_bits@))
        &&& v.3 == Map::<Seq<char>, u32>::empty()
        &&& v.4 == Map::<Seq<char>, Tipo>::empty()
        &&& v.5 == mapa_pares(pares_bits(s.campos_bits@))
        &&& v.6
    } else {
        let ts = tamanos_de_campos(ss, es, s.campos@);
        let als = alineaciones_de_campos(ss, es, s.campos@);
        &&& v.1 == tamano_struct(ts, als)
        &&& v.2 == alineacion_maxima(als)
        &&& v.3 == mapa_pares(pares_offsets(s.campos@, ts, als))
        &&& mapas_equivalentes(v.4, mapa_pares(pares_tipos(s.campos@)))
        &&& v.5 == Map::<Seq<char>, (u32, u32)>::empty()
        &&& !v.6
    }
}

/// Alinear no retrocede, avanza menos que la alineación y deja un múltiplo de ella.
pub proof fn lema_alinear_a(o: int, a: int)
    requires
        0 <= o,
        a > 0,
    ensures
        o <= alinear(o, a) < o + a,
        alinear(o, a) % a == 0,
        alinear(o, a) == o + (a - o % a) % a,
{
    assert(0 <= o % a < a);
    if o % a != 0 {
        assert((o + (a - o % a)) % a == 0) by (nonlinear_arith)
            requires
                a > 0,
                o % a != 0,
                0 <= o,
        {
            assert(o == a * (o / a) + o % a);
            assert(o + (a - o % a) == a * (o / a + 1));
        }
        assert((a - o % a) % a == a - o % a) by (nonlinear_arith)
            requires
                0 < a - o % a < a,
        ;
    } else {
        assert((a - o % a) % a == 0) by (nonlinear_arith)
            requires
                a > 0,
                o % a == 0,
        ;
    }
}

/// Con tamaños no negativos y alineaciones positivas, el fin de un prefijo no pasa del fin
/// de uno más largo.
pub proof fn lema_fin_de_monotono(ts: Seq<int>, als: Seq<int>, i: int, j: int)
    requires
        0 <= i <= j <= ts.len(),
        als.len() == ts.len(),
        forall|k: int| 0 <= k < ts.len() ==> #[trigger] ts[k] >= 0,
        forall|k: int| 0 <= k < als.len() ==> #[trigger] als[k] > 0,
    ensures
        0 <= fin_de(ts.take(i), als.take(i)) <= fin_de(ts.take(j), als.take(j)),
    decreases j,
{
    if j > 0 {
        assert(ts.take(j).drop_last() =~= ts.take(j - 1));
        assert(als.take(j).drop_last() =~= als.take(j - 1));
        lema_fin_de_monotono(ts, als, 0, j - 1);
        if i < j {
            lema_fin_de_monotono(ts, als, i, j - 1);
        }
        lema_alinear_a(fin_de(ts.take(j - 1), als.take(j - 1)), als[j - 1]);
    } else {
        assert(ts.take(0) =~= Seq::<int>::empty());
    }
}

/// La mayor alineación es al menos 1, al menos cada tamaño, y es 1 o uno de los tamaños.
pub proof fn lema_alineacion_maxima(ts: Seq<int>)
    ensures
        alineacion_maxima(ts) >= 1,
        forall|k: int| 0 <= k < ts.len() ==> #[trigger] ts[k] <= alineacion_maxima(ts),
        alineacion_maxima(ts) == 1 || exists|k: int| 0 <= k < ts.len() && ts[k] == alineacion_maxima(ts),
    decreases ts.len(),
{
    if ts.len() > 0 {
        lema_alineacion_maxima(ts.drop_last());
        assert forall|k: int| 0 <= k < ts.len() implies #[trigger] ts[k] <= alineacion_maxima(ts) by {
            if k < ts.len() - 1 {
                assert(ts[k] == ts.drop_last()[k]);
            }
        }
        if alineacion_maxima(ts) != 1 && ts.last() <= alineacion_maxima(ts.drop_last()) {
            let k = choose|k: int| 0 <= k < ts.drop_last().len() && ts.drop_last()[k] == alineacion_maxima(ts.drop_last());
            assert(ts[k] == ts.drop_last()[k]);
        }
    }
}

/// El mapa de los pares de un prefijo más uno es el del prefijo con ese par insertado.
proof fn lema_mapa_pares_paso<V>(s: Seq<(Seq<char>, V)>, i: int)
    requires
        0 <= i < s.len(),
    ensures
        mapa_pares(s.take(i + 1)) == mapa_pares(s.take(i)).insert(s[i].0, s[i].1),
{
    assert(s.take(i + 1).drop_last() =~= s.take(i));
}

impl Codegen {
    /// Inserta un layout de struct y conserva la buena forma de las tablas.
    fn guardar_struct(&mut self, nombre: String, layout: LayoutStruct)
        requires
            old(self).bien_formado(),
            claves_unicas(layout.offsets@),
            claves_unicas(layout.tipos@),
            claves_unicas(layout.bitfields@),
            layout.alineacion >= 1,
        ensures
            final(self).bien_formado(),
            final(self).enums == old(self).enums,
            final(self).structs_map() == old(self).structs_map().insert(nombre@, layout@),
    {
        let ghost antes = self.structs@;
        let ghost nuevo = layout;
        insertar(&mut self.structs, nombre, layout);
        proof {
            assert forall|i: int| 0 <= i < self.structs@.len() implies {
                let l = #[trigger] self.structs@[i].1;
                claves_unicas(l.offsets@) && claves_unicas(l.tipos@) && claves_unicas(l.bitfields@)
                    && l.alineacion >= 1
            } by {
                if self.structs@[i].1 != nuevo {
                    let j = choose|j: int| 0 <= j < antes.len() && antes[j] == self.structs@[i];
                    assert(antes[j].1 == self.structs@[i].1);
                }
            }
        }
    }

    /// Registra el layout C de un struct: un struct de bits se respalda con un entero de 1,
    /// 2, 4 u 8 bytes según el total de bits; si no, cada campo va en orden en el primer
    /// múltiplo de su alineación, y el total se alinea a la mayor alineación.
    pub fn registrar_struct(&mut self, s: &EstructuralDecl)
        requires
            old(self).bien_formado(),
            struct_registrable(old(self).structs_map(), old(self).enums_map(), *s),
        ensures
            final(self).bien_formado(),
            final(self).enums_map() == old(self).enums_map(),
            final(self).structs_map().contains_key(s.nombre@),
            final(self).structs_map() == old(self).structs_map().insert(
                s.nombre@,
                final(self).structs_map()[s.nombre@],
            ),
            layout_struct_de(
                final(self).structs_map()[s.nombre@],
                old(self).structs_map(),
                old(self).enums_map(),
                *s,
            ),
    {
        let ghost ss = self.structs_map();
        let ghost es = self.enums_map();
        let mut offsets: Vec<(String, u32)> = Vec::new();
        let mut tipos: Vec<(String, Tipo)> = Vec::new();
        let mut bitfields: Vec<(String, (u32, u32))> = Vec::new();

        // Struct de bitfields: respaldado por un solo entero
        if s.campos_bits.len() > 0 && s.campos.len() == 0 {
            let ghost cbs = s.campos_bits@;
            let mut total_bits: u32 = 0;
            let mut i: usize = 0;
            proof {
                assert(cbs.take(0) =~= Seq::<CampoBits>::empty());
                assert(pares_bits(cbs).take(0) =~= Seq::<(Seq<char>, (u32, u32))>::empty());
            }
            while i < s.campos_bits.len()
                invariant
                    cbs == s.campos_bits@,
                    i <= cbs.len(),
                    suma_bits(cbs) <= u32::MAX,
                    total_bits == suma_bits(cbs.take(i as int)),
                    claves_unicas(bitfields@),
                    mapa_de(bitfields@) == mapa_pares(pares_bits(cbs).take(i as int)),
                decreases cbs.len() - i,
            {
                proof {
                    assert(cbs.take(i + 1).drop_last() =~= cbs.take(i as int));
                    lema_suma_bits_prefijo(cbs, i + 1);
                    lema_mapa_pares_paso(pares_bits(cbs), i as int);
                }
                let campo_bit = &s.campos_bits[i];
                total_bits = total_bits + campo_bit.ancho_bits;
                insertar(
                    &mut bitfields,
                    campo_bit.nombre.clone(),
                    (campo_bit.offset_bits, campo_bit.ancho_bits),
                );
                i = i + 1;
            }
            proof {
                assert(cbs.take(i as int) =~= cbs);
                assert(pares_bits(cbs).take(i as int) =~= pares_bits(cbs));
            }
            // Entero de respaldo: u8/u16/u32/u64
            let (tamano, alineacion) = if total_bits <= 8 {
                (1u32, 1u32)
            } else if total_bits <= 16 {
                (2, 2)
            } else if total_bits <= 32 {
                (4, 4)
            } else {
                (8, 8)
            };
            let layout = LayoutStruct {
                nombre: s.nombre.clone(),
                tamano,
                alineacion,
                offsets,
                tipos,
                bitfields,
                es_bitfield: true,
            };
            proof {
                assert(mapa_de(layout.offsets@) =~= Map::<Seq<char>, u32>::empty());
                assert(mapa_de(layout.tipos@) =~= Map::<Seq<char>, Tipo>::empty());
            }
            self.guardar_struct(s.nombre.clone(), layout);
            return ;
        }

        let ghost campos = s.campos@;
        let ghost ts = tamanos_de_campos(ss, es, campos);
        let ghost als = alineaciones_de_campos(ss, es, campos);
        let mut offset_actual: u32 = 0;
        let mut alineacion_max: u32 = 1;
        let mut i: usize = 0;
        proof {
            self.lema_alineaciones();
            assert forall|k: int| 0 <= k < ts.len() implies #[trigger] ts[k] >= 0 by {
                lema_tamano_en(ss, es, campos[k].tipo);
            }
            assert forall|k: int| 0 <= k < als.len() implies #[trigger] als[k] > 0 by {
                lema_alineacion_en(ss, es, campos[k].tipo);
            }
            assert(ts.take(0) =~= Seq::<int>::empty());
            assert(als.take(0) =~= Seq::<int>::empty());
            assert(pares_offsets(campos, ts, als).take(0) =~= Seq::<(Seq<char>, u32)>::empty());
            assert(pares_tipos(campos).take(0) =~= Seq::<(Seq<char>, Tipo)>::empty());
            assert(mapa_de(tipos@) =~= Map::<Seq<char>, Tipo>::empty());
            lema_fin_de_monotono(ts, als, 0, ts.len() as int);
            assert(ts.take(ts.len() as int) =~= ts);
            assert(als.take(als.len() as int) =~= als);
            lema_alineacion_maxima(als);
            lema_alinear_a(fin_de(ts, als), alineacion_maxima(als));
        }
        while i < s.campos.len()
            invariant
                self.structs_map() == ss,
                self.enums_map() == es,
                self.bien_formado(),
                campos == s.campos@,
                ts == tamanos_de_campos(ss, es, campos),
                als == alineaciones_de_campos(ss, es, campos),
                forall|k: int| 0 <= k < ts.len() ==> #[trigger] ts[k] >= 0,
                forall|k: int| 0 <= k < als.len() ==> #[trigger] als[k] > 0,
                struct_registrable(ss, es, *s),
                !es_de_bits(*s),
                i <= campos.len(),
                fin_de(ts, als) <= tamano_struct(ts, als) <= u32::MAX,
                offset_actual == fin_de(ts.take(i as int), als.take(i as int)),
                alineacion_max == alineacion_maxima(als.take(i as int)),
                claves_unicas(offsets@),
                claves_unicas(tipos@),
                mapa_de(offsets@) == mapa_pares(pares_offsets(campos, ts, als).take(i as int)),
                mapas_equivalentes(mapa_de(tipos@), mapa_pares(pares_tipos(campos).take(i as int))),
            decreases campos.len() - i,
        {
            let campo = &s.campos[i];
            proof {
                assert(ts[i as int] == tamano_en(ss, es, campo.tipo));
                assert(als[i as int] == alineacion_en(ss, es, campo.tipo));
                assert(cabe_en(ss, es, campos[i as int].tipo));
                assert(ts.take(i + 1).drop_last() =~= ts.take(i as int));
                assert(als.take(i + 1).drop_last() =~= als.take(i as int));
                lema_fin_de_monotono(ts, als, i + 1, ts.len() as int);
                lema_fin_de_monotono(ts, als, i as int, i + 1);
                assert(ts.take(ts.len() as int) =~= ts);
                assert(als.take(als.len() as int) =~= als);
                lema_alinear_a(fin_de(ts.take(i as int), als.take(i as int)), als[i as int]);
                lema_mapa_pares_paso(pares_offsets(campos, ts, als), i as int);
                lema_mapa_pares_paso(pares_tipos(campos), i as int);
                lema_tamano_en(ss, es, campo.tipo);
                lema_alineacion_maxima(als);
            }
            let tamano = self.tamano_tipo(&campo.tipo);
            // C ABI: cada campo en el primer múltiplo de su alineación
            let alineacion = self.alineacion_tipo(&campo.tipo);
            let padding = (alineacion - (offset_actual % alineacion)) % alineacion;
            offset_actual = offset_actual + padding;
            insertar(&mut offsets, campo.nombre.clone(), offset_actual);
            let ghost tipos_antes = mapa_de(tipos@);
            let t = campo.tipo.clone();
            insertar(&mut tipos, campo.nombre.clone(), t);
            proof {
                let m = mapa_pares(pares_tipos(campos).take(i + 1));
                assert(mapa_de(tipos@).dom() =~= m.dom());
            }
            offset_actual = offset_actual + tamano;
            if alineacion > alineacion_max {
                alineacion_max = alineacion;
            }
            i = i + 1;
        }
        proof {
            assert(ts.take(i as int) =~= ts);
            assert(als.take(i as int) =~= als);
            assert(pares_offsets(campos, ts, als).take(i as int) =~= pares_offsets(campos, ts, als));
            assert(pares_tipos(campos).take(i as int) =~= pares_tipos(campos));
            lema_alineacion_maxima(als);
            lema_alinear_a(fin_de(ts, als), alineacion_maxima(als));
        }
        // Alinear el tamaño total del struct
        let padding_final = (alineacion_max - (offset_actual % alineacion_max)) % alineacion_max;
        let tamano_total = offset_actual + padding_final;
        let layout = LayoutStruct {
            nombre: s.nombre.clone(),
            tamano: tamano_total,
            alineacion: alineacion_max,
            offsets,
            tipos,
            bitfields,
            es_bitfield: false,
        };
        proof {
            assert(mapa_de(layout.bitfields@) =~= Map::<Seq<char>, (u32, u32)>::empty());
        }
        self.guardar_struct(s.nombre.clone(), layout);
    }
}

/// La suma de los bits de un prefijo no pasa de la total.
proof fn lema_suma_bits_prefijo(cbs: Seq<CampoBits>, i: int)
    requires
        0 <= i <= cbs.len(),
    ensures
        suma_bits(cbs.take(i)) <= suma_bits(cbs),
    decreases cbs.len(),
{
    if i < cbs.len() {
        assert(cbs.drop_last().take(i) =~= cbs.take(i));
        lema_suma_bits_prefijo(cbs.drop_last(), i);
    } else {
        assert(cbs.take(i) =~= cbs);
    }
}

/// Ley del layout de un struct (layout C): cada campo queda en un múltiplo de su
/// alineación, un campo termina antes de que empiece el siguiente, todos caben en el struct
/// y el tamaño del struct es múltiplo de su alineación, la mayor de sus campos.
pub proof fn ley_layout_struct(ts: Seq<int>, als: Seq<int>, i: int, j: int)
    requires
        als.len() == ts.len(),
        forall|k: int| 0 <= k < ts.len() ==> #[trigger] ts[k] >= 0,
        forall|k: int| 0 <= k < als.len() ==> #[trigger] als[k] > 0,
        0 <= i < j < ts.len(),
    ensures
        offset_en(ts, als, i) % als[i] == 0,
        offset_en(ts, als, i) + ts[i] <= offset_en(ts, als, j),
        offset_en(ts, als, j) + ts[j] <= tamano_struct(ts, als),
        tamano_struct(ts, als) % alineacion_maxima(als) == 0,
{
    lema_fin_de_monotono(ts, als, i, i + 1);
    lema_fin_de_monotono(ts, als, i + 1, j);
    lema_fin_de_monotono(ts, als, j, j + 1);
    lema_fin_de_monotono(ts, als, j + 1, ts.len() as int);
    assert(ts.take(i + 1).drop_last() =~= ts.take(i));
    assert(als.take(i + 1).drop_last() =~= als.take(i));
    assert(ts.take(j + 1).drop_last() =~= ts.take(j));
    assert(als.take(j + 1).drop_last() =~= als.take(j));
    assert(ts.take(ts.len() as int) =~= ts);
    assert(als.take(als.len() as int) =~= als);
    lema_alinear_a(fin_de(ts.take(i), als.take(i)), als[i]);
    lema_alinear_a(fin_de(ts.take(j), als.take(j)), als[j]);
    lema_alineacion_maxima(als);
    lema_alinear_a(fin_de(ts, als), alineacion_maxima(als));
}

/// Suma de los tamaños de los datos de una variante.
pub open spec fn suma_tamanos(
    ss: Map<Seq<char>, VistaStruct>,
    es: Map<Seq<char>, VistaEnum>,
    cs: Seq<(String, Tipo)>,
) -> int
    decreases cs.len(),
{
    if cs.len() == 0 {
        0
    } else {
        suma_tamanos(ss, es, cs.drop_last()) + tamano_en(ss, es, cs.last().1)
    }
}

/// Tamaño de los datos de una variante (0 si no lleva).
pub open spec fn tamano_datos(ss: Map<Seq<char>, VistaStruct>, es: Map<Seq<char>, VistaEnum>, v: Variante) -> int {
    match v.datos {
        Some(cs) => suma_tamanos(ss, es, cs@),
        None => 0,
    }
}

/// El mayor tamaño de datos de las variantes (0 si ninguna lleva).
pub open spec fn max_datos(ss: Map<Seq<char>, VistaStruct>, es: Map<Seq<char>, VistaEnum>, vs: Seq<Variante>) -> int
    decreases vs.len(),
{
    if vs.len() == 0 {
        0
    } else if tamano_datos(ss, es, vs.last()) > max_datos(ss, es, vs.drop_last()) {
        tamano_datos(ss, es, vs.last())
    } else {
        max_datos(ss, es, vs.drop_last())
    }
}

/// Pares (variante, tag): los tags van de 0 en adelante en orden de declaración.
pub open spec fn pares_tags(vs: Seq<Variante>) -> Seq<(Seq<char>, u32)> {
    Seq::new(vs.len(), |i: int| (vs[i].nombre@, i as u32))
}

/// Tipos de datos por variante, solo de las que llevan datos; manda la última declaración.
pub open spec fn mapa_datos(vs: Seq<Variante>) -> Map<Seq<char>, Seq<Tipo>>
    decreases vs.len(),
{
    if vs.len() == 0 {
        Map::empty()
    } else {
        match vs.last().datos {
            Some(cs) => mapa_datos(vs.drop_last()).insert(
                vs.last().nombre@,
                cs@.map_values(|c: (String, Tipo)| c.1),
            ),
            None => mapa_datos(vs.drop_last()),
        }
    }
}

/// Dos listas de tipos equivalentes elemento a elemento.
pub open spec fn tipos_equivalentes(a: Seq<Tipo>, b: Seq<Tipo>) -> bool {
    a.len() == b.len() && forall|i: int| 0 <= i < a.len() ==> (#[trigger] a[i]).equivale(b[i])
}

/// Mismas variantes con datos y tipos equivalentes en cada una.
pub open spec fn datos_equivalentes(a: Map<Seq<char>, Seq<Tipo>>, b: Map<Seq<char>, Seq<Tipo>>) -> bool {
    a.dom() == b.dom() && forall|k: Seq<char>| #[trigger] a.contains_key(k) ==> tipos_equivalentes(a[k], b[k])
}

/// El enum se puede registrar sin desbordar: los tags caben, cada tipo de datos cabe, la
/// suma de cada variante cabe y el tamaño total (tag más datos, alineado a 4) también.
pub open spec fn enum_registrable(
    ss: Map<Seq<char>, VistaStruct>,
    es: Map<Seq<char>, VistaEnum>,
    e: EnumeracionDecl,
) -> bool {
    &&& e.variantes@.len() <= u32::MAX
    &&& forall|i: int| 0 <= i < e.variantes@.len() ==> match #[trigger] e.variantes@[i].datos {
        Some(cs) => (forall|j: int| 0 <= j < cs@.len() ==> cabe_en(ss, es, #[trigger] cs@[j].1))
            && suma_tamanos(ss, es, cs@) <= u32::MAX,
        None => true,
    }
    &&& 4 + max_datos(ss, es, e.variantes@) + 3 <= u32::MAX
}

/// El layout registrado para el enum: tag de 4 bytes, datos desde el byte 4 con el tamaño
/// de la mayor variante, y el total alineado a 4.
pub open spec fn layout_enum_de(
    v: VistaEnum,
    ss: Map<Seq<char>, VistaStruct>,
    es: Map<Seq<char>, VistaEnum>,
    e: EnumeracionDecl,
) -> bool {
    &&& v.0 == e.nombre@
    &&& v.1 == alinear(4 + max_datos(ss, es, e.variantes@), 4)
    &&& v.2 == 4
    &&& v.3 == 4
    &&& v.4 == 4
    &&& v.5 == mapa_pares(pares_tags(e.variantes@))
    &&& datos_equivalentes(v.6, mapa_datos(e.variantes@))
}

/// El máximo de un prefijo no pasa del total, y cada variante cabe bajo el total.
proof fn lema_max_datos(ss: Map<Seq<char>, VistaStruct>, es: Map<Seq<char>, VistaEnum>, vs: Seq<Variante>, i: int)
    requires
        0 <= i <= vs.len(),
    ensures
        max_datos(ss, es, vs.take(i)) <= max_datos(ss, es, vs),
        i < vs.len() ==> tamano_datos(ss, es, vs[i]) <= max_datos(ss, es, vs),
    decreases vs.len(),
{
    if i < vs.len() {
        assert(vs.drop_last().take(i) =~= vs.take(i));
        if i < vs.len() - 1 {
            lema_max_datos(ss, es, vs.drop_last(), i);
            assert(vs.drop_last()[i] == vs[i]);
        }
    } else {
        assert(vs.take(i) =~= vs);
    }
}

impl Codegen {
    /// Inserta un layout de enum y conserva la buena forma de las tablas.
    fn guardar_enum(&mut self, nombre: String, layout: LayoutEnum)
        requires
            old(self).bien_formado(),
            claves_unicas(layout.variantes@),
            claves_unicas(layout.tipos_datos@),
            layout.alineacion >= 1,
        ensures
            final(self).bien_formado(),
            final(self).structs == old(self).structs,
            final(self).enums_map() == old(self).enums_map().insert(nombre@, layout@),
    {
        let ghost antes = self.enums@;
        let ghost nuevo = layout;
        insertar(&mut self.enums, nombre, layout);
        proof {
            assert forall|i: int| 0 <= i < self.enums@.len() implies {
                let l = #[trigger] self.enums@[i].1;
                claves_unicas(l.variantes@) && claves_unicas(l.tipos_datos@) && l.alineacion >= 1
            } by {
                if self.enums@[i].1 != nuevo {
                    let j = choose|j: int| 0 <= j < antes.len() && antes[j] == self.enums@[i];
                    assert(antes[j].1 == self.enums@[i].1);
                }
            }
        }
    }

    /// Tipos de los datos de una variante y la suma de sus tamaños.
    fn datos_de_variante(&self, campos: &Vec<(String, Tipo)>) -> (r: (Vec<Tipo>, u32))
        requires
            self.bien_formado(),
            forall|j: int| 0 <= j < campos@.len() ==> cabe_en(self.structs_map(), self.enums_map(), #[trigger] campos@[j].1),
            suma_tamanos(self.structs_map(), self.enums_map(), campos@) <= u32::MAX,
        ensures
            tipos_equivalentes(r.0@, campos@.map_values(|c: (String, Tipo)| c.1)),
            r.1 == suma_tamanos(self.structs_map(), self.enums_map(), campos@),
    {
        let ghost ss = self.structs_map();
        let ghost es = self.enums_map();
        let mut tipos: Vec<Tipo> = Vec::new();
        let mut tam: u32 = 0;
        let mut j: usize = 0;
        while j < campos.len()
            invariant
                ss == self.structs_map(),
                es == self.enums_map(),
                self.bien_formado(),
                forall|q: int| 0 <= q < campos@.len() ==> cabe_en(ss, es, #[trigger] campos@[q].1),
                suma_tamanos(ss, es, campos@) <= u32::MAX,
                j <= campos@.len(),
                tipos@.len() == j,
                forall|q: int| 0 <= q < j ==> (#[trigger] tipos@[q]).equivale(campos@[q].1),
                tam == suma_tamanos(ss, es, campos@.take(j as int)),
            decreases campos@.len() - j,
        {
            proof {
                assert(campos@.take(j + 1).drop_last() =~= campos@.take(j as int));
                lema_suma_prefijo(ss, es, campos@, j + 1);
                lema_tamano_en(ss, es, campos@[j as int].1);
            }
            tipos.push(campos[j].1.clone());
            tam = tam + self.tamano_tipo(&campos[j].1);
            j = j + 1;
        }
        proof {
            assert(campos@.take(j as int) =~= campos@);
        }
        (tipos, tam)
    }

    /// Registra el layout de un enum: cada variante recibe como tag su posición; el tag
    /// ocupa 4 bytes, los datos empiezan en el byte 4 y ocupan lo de la mayor variante, y
    /// el total se alinea a 4.
    pub fn registrar_enum(&mut self, e: &EnumeracionDecl)
        requires
            old(self).bien_formado(),
            enum_registrable(old(self).structs_map(), old(self).enums_map(), *e),
        ensures
            final(self).bien_formado(),
            final(self).structs_map() == old(self).structs_map(),
            final(self).enums_map().contains_key(e.nombre@),
            final(self).enums_map() == old(self).enums_map().insert(
                e.nombre@,
                final(self).enums_map()[e.nombre@],
            ),
            layout_enum_de(
                final(self).enums_map()[e.nombre@],
                old(self).structs_map(),
                old(self).enums_map(),
                *e,
            ),
    {
        let ghost ss = self.structs_map();
        let ghost es = self.enums_map();
        let ghost vs = e.variantes@;
        let mut variantes: Vec<(String, u32)> = Vec::new();
        let mut tipos_datos: Vec<(String, Vec<Tipo>)> = Vec::new();
        let mut max_tamano_datos: u32 = 0;
        let mut tag: u32 = 0;
        let mut i: usize = 0;
        proof {
            assert(vs.take(0) =~= Seq::<Variante>::empty());
            assert(pares_tags(vs).take(0) =~= Seq::<(Seq<char>, u32)>::empty());
            assert(mapa_de(tipos_datos@) =~= Map::<Seq<char>, Seq<Tipo>>::empty());
        }
        while i < e.variantes.len()
            invariant
                self.structs_map() == ss,
                self.enums_map() == es,
                self.bien_formado(),
                vs == e.variantes@,
                enum_registrable(ss, es, *e),
                i <= vs.len(),
                tag == i,
                max_tamano_datos == max_datos(ss, es, vs.take(i as int)),
                claves_unicas(variantes@),
                claves_unicas(tipos_datos@),
                mapa_de(variantes@) == mapa_pares(pares_tags(vs).take(i as int)),
                datos_equivalentes(mapa_de(tipos_datos@), mapa_datos(vs.take(i as int))),
            decreases vs.len() - i,
        {
            let variante = &e.variantes[i];
            proof {
                assert(vs.take(i + 1).drop_last() =~= vs.take(i as int));
                assert(vs.take(i + 1).last() == vs[i as int]);
                lema_mapa_pares_paso(pares_tags(vs), i as int);
                lema_max_datos(ss, es, vs, i + 1);
                lema_max_datos(ss, es, vs, i as int);
            }
            insertar(&mut variantes, variante.nombre.clone(), tag);
            let tamano: u32 = match &variante.datos {
                Some(campos) => {
                    proof {
                        assert(vs[i as int].datos == Some(*campos));
                    }
                    let (tipos, tam) = self.datos_de_variante(campos);
                    insertar(&mut tipos_datos, variante.nombre.clone(), tipos);
                    tam
                },
                None => 0,
            };
            proof {
                assert(mapa_de(tipos_datos@).dom() =~= mapa_datos(vs.take(i + 1)).dom());
            }
            if tamano > max_tamano_datos {
                max_tamano_datos = tamano;
            }
            tag = tag + 1;
            i = i + 1;
        }
        proof {
            assert(vs.take(i as int) =~= vs);
            assert(pares_tags(vs).take(i as int) =~= pares_tags(vs));
            lema_alinear_a(4 + max_datos(ss, es, vs), 4);
        }
        // Layout: tag (I32, 4 bytes) + datos (el mayor tamaño de las variantes)
        let tag_tamano = 4u32;
        let datos_offset = tag_tamano;
        let tamano_total = datos_offset + max_tamano_datos;
        // Alinear a 4 bytes
        let alineacion = 4u32;
        let padding = (alineacion - (tamano_total % alineacion)) % alineacion;
        let tamano_alineado = tamano_total + padding;
        let layout = LayoutEnum {
            nombre: e.nombre.clone(),
            tamano: tamano_alineado,
            alineacion,
            tag_tamano,
            datos_offset,
            variantes,
            tipos_datos,
        };
        self.guardar_enum(e.nombre.clone(), layout);
    }
}

/// La suma de un prefijo de datos no pasa de la total.
proof fn lema_suma_prefijo(ss: Map<Seq<char>, VistaStruct>, es: Map<Seq<char>, VistaEnum>, cs: Seq<(String, Tipo)>, i: int)
    requires
        0 <= i <= cs.len(),
    ensures
        0 <= suma_tamanos(ss, es, cs.take(i)) <= suma_tamanos(ss, es, cs),
    decreases cs.len(),
{
    if cs.len() > 0 {
        lema_tamano_en(ss, es, cs.last().1);
    }
    if i < cs.len() {
        assert(cs.drop_last().take(i) =~= cs.take(i));
        lema_suma_prefijo(ss, es, cs.drop_last(), i);
    } else {
        assert(cs.take(i) =~= cs);
        if cs.len() > 0 {
            lema_suma_prefijo(ss, es, cs.drop_last(), cs.len() - 1);
            assert(cs.drop_last().take(cs.len() - 1) =~= cs.drop_last());
        }
    }
}

/// Las declaraciones con el prefijo de módulo de cada una: el contenido de un módulo lleva
/// `módulo::` (solo el nombre de ese módulo); lo demás, el prefijo recibido.
pub open spec fn aplanado(prefijo: Seq<char>, d: Declaracion) -> Seq<(Seq<char>, Declaracion)>
    decreases d,
{
    match d {
        Declaracion::Modulo(m) => aplanados(m.nombre@ + "::"@, m.contenido@),
        _ => seq![(prefijo, d)],
    }
}

/// Aplanado de varias declaraciones, en orden.
pub open spec fn aplanados(prefijo: Seq<char>, ds: Seq<Declaracion>) -> Seq<(Seq<char>, Declaracion)>
    decreases ds,
{
    if ds.len() == 0 {
        Seq::empty()
    } else {
        aplanado(prefijo, ds[0]) + aplanados(prefijo, ds.drop_first())
    }
}

/// ¿Usa la expresión la variable? Cuenta identificadores, operandos, argumentos, índices,
/// bases de campos, extremos de rangos y el cuerpo de un closure que no la redeclara.
pub open spec fn usa_variable(e: Expresion, n: Seq<char>) -> bool
    decreases e,
{
    match e {
        Expresion::Identificador(x, _) => x@ == n,
        Expresion::Binaria(izq, _, der, _) => usa_variable(*izq, n) || usa_variable(*der, n),
        Expresion::Unaria(_, inner, _) => usa_variable(*inner, n),
        Expresion::Llamada(llamada) => usa_alguna(llamada.argumentos@, n),
        Expresion::AccesoArray(base, idx, _) => usa_variable(*base, n) || usa_variable(*idx, n),
        Expresion::AccesoCampo(base, _, _) => usa_variable(*base, n),
        Expresion::Rango(inicio, fin, _, _) => usa_variable(*inicio, n) || usa_variable(*fin, n),
        Expresion::Closure(params, cuerpo, _) => !(exists|i: int|
            0 <= i < params@.len() && (#[trigger] params@[i]).0@ == n) && usa_variable(*cuerpo, n),
        _ => false,
    }
}

/// ¿Usa alguna de las expresiones la variable?
pub open spec fn usa_alguna(es: Seq<Expresion>, n: Seq<char>) -> bool
    decreases es,
{
    if es.len() == 0 {
        false
    } else {
        usa_variable(es[0], n) || usa_alguna(es.drop_first(), n)
    }
}

/// Nombres de las funciones integradas que el codegen compila directamente.
pub open spec fn es_builtin(f: Seq<char>) -> bool {
    f == "imprimir"@ || f == "imprimir_linea"@ || f == "decir"@ || f == "tamaño_de"@ || f == "afirmar"@ || f == "texto_nuevo"@ || f == "texto_desde"@ || f == "texto_agregar"@ || f == "texto_longitud"@ || f == "texto_tam"@ || f == "texto_liberar"@ || f == "texto_concatenar"@ || f == "texto_subtexto"@ || f == "texto_comparar"@ || f == "texto_obtener_byte"@ || f == "archivo_leer"@ || f == "archivo_escribir"@ || f == "archivo_existe"@ || f == "abs"@ || f == "max"@ || f == "min"@ || f == "raiz"@ || f == "potencia"@ || f == "vector_nuevo"@ || f == "vector_agregar"@ || f == "vector_obtener"@ || f == "vector_longitud"@ || f == "vector_tam"@ || f == "vector_liberar"@ || f == "dormir"@ || f == "diccionario_nuevo"@ || f == "diccionario_insertar"@ || f == "diccionario_obtener"@ || f == "diccionario_existe"@ || f == "diccionario_eliminar"@ || f == "diccionario_longitud"@ || f == "diccionario_liberar"@ || f == "conjunto_nuevo"@ || f == "conjunto_insertar"@ || f == "conjunto_contiene"@ || f == "conjunto_eliminar"@ || f == "conjunto_longitud"@ || f == "conjunto_liberar"@ || f == "tcp_vincular"@ || f == "tcp_aceptar"@ || f == "tcp_leer"@ || f == "tcp_escribir"@ || f == "tcp_cerrar"@ || f == "canal_nuevo"@ || f == "canal_enviar"@ || f == "canal_recibir"@ || f == "canal_cerrar"@ || f == "canal_intentar"@ || f == "cancelar"@ || f == "texto_a_puntero"@ || f == "como_entero64"@
}

impl Codegen {
    /// Aplana los módulos: cada declaración con el prefijo de su módulo.
    pub fn aplanar_con_prefijo<'a>(&self, prefijo: &str, decl: &'a Declaracion) -> (r: Vec<(String, &'a Declaracion)>)
        ensures
            r@.map_values(|p: (String, &Declaracion)| (p.0@, *p.1)) == aplanado(prefijo@, *decl),
        decreases decl,
    {
        match decl {
            Declaracion::Modulo(modulo) => {
                let mut resultado: Vec<(String, &'a Declaracion)> = Vec::new();
                let mut nuevo_prefijo = modulo.nombre.clone();
                agregar(&mut nuevo_prefijo, "::");
                let ghost ds = modulo.contenido@;
                let mut i: usize = 0;
                proof {
                    assert(ds.skip(0) =~= ds);
                    assert(resultado@.map_values(|p: (String, &Declaracion)| (p.0@, *p.1))
                        + aplanados(nuevo_prefijo@, ds.skip(0)) =~= aplanado(prefijo@, *decl));
                }
                while i < modulo.contenido.len()
                    invariant
                        ds == modulo.contenido@,
                        *decl == Declaracion::Modulo(*modulo),
                        i <= ds.len(),
                        nuevo_prefijo@ == modulo.nombre@ + "::"@,
                        resultado@.map_values(|p: (String, &Declaracion)| (p.0@, *p.1)) + aplanados(
                            nuevo_prefijo@,
                            ds.skip(i as int),
                        ) == aplanado(prefijo@, *decl),
                    decreases ds.len() - i,
                {
                    proof {
                        vstd::std_specs::vec::axiom_vec_index_decreases(modulo.contenido, i as int);
                        assert(ds.skip(i as int)[0] == ds[i as int]);
                        assert(ds.skip(i as int).drop_first() =~= ds.skip(i + 1));
                    }
                    let parte = self.aplanar_con_prefijo(nuevo_prefijo.as_str(), &modulo.contenido[i]);
                    let ghost antes = resultado@;
                    let mut parte = parte;
                    let ghost vista_parte = parte@;
                    resultado.append(&mut parte);
                    proof {
                        assert(resultado@.map_values(|p: (String, &Declaracion)| (p.0@, *p.1)) =~= antes.map_values(
                            |p: (String, &Declaracion)| (p.0@, *p.1),
                        ) + vista_parte.map_values(|p: (String, &Declaracion)| (p.0@, *p.1)));
                        assert(resultado@.map_values(|p: (String, &Declaracion)| (p.0@, *p.1)) + aplanados(
                            nuevo_prefijo@,
                            ds.skip(i + 1),
                        ) =~= aplanado(prefijo@, *decl));
                    }
                    i = i + 1;
                }
                proof {
                    assert(ds.skip(i as int) =~= Seq::<Declaracion>::empty());
                    assert(resultado@.map_values(|p: (String, &Declaracion)| (p.0@, *p.1)) =~= aplanado(
                        prefijo@,
                        *decl,
                    ));
                }
                resultado
            },
            _ => {
                let mut resultado: Vec<(String, &'a Declaracion)> = Vec::new();
                resultado.push((texto(prefijo), decl));
                proof {
                    assert(resultado@.map_values(|p: (String, &Declaracion)| (p.0@, *p.1)) =~= aplanado(
                        prefijo@,
                        *decl,
                    ));
                }
                resultado
            },
        }
    }

    /// ¿Usa la expresión la variable? Sirve para detectar capturas de closures.
    pub fn expresion_usa_variable(&self, expr: &Expresion, nombre: &str) -> (r: bool)
        ensures
            r == usa_variable(*expr, nombre@),
        decreases expr,
    {
        match expr {
            Expresion::Identificador(n, _) => es_texto(n, nombre),
            Expresion::Binaria(izq, _, der, _) => {
                self.expresion_usa_variable(izq, nombre) || self.expresion_usa_variable(der, nombre)
            },
            Expresion::Unaria(_, inner, _) => self.expresion_usa_variable(inner, nombre),
            Expresion::Llamada(llamada) => self.alguna_usa_variable(&llamada.argumentos, nombre),
            Expresion::AccesoArray(base, idx, _) => {
                self.expresion_usa_variable(base, nombre) || self.expresion_usa_variable(idx, nombre)
            },
            Expresion::AccesoCampo(base, _, _) => self.expresion_usa_variable(base, nombre),
            Expresion::Rango(inicio, fin, _, _) => {
                self.expresion_usa_variable(inicio, nombre) || self.expresion_usa_variable(fin, nombre)
            },
            Expresion::Closure(params, cuerpo, _) => {
                // No cuenta si el closure redeclara la variable
                let mut k: usize = 0;
                while k < params.len()
                    invariant
                        k <= params@.len(),
                        forall|q: int| 0 <= q < k ==> (#[trigger] params@[q]).0@ != nombre@,
                        usa_variable(*expr, nombre@) == (!(exists|q: int|
                            0 <= q < params@.len() && (#[trigger] params@[q]).0@ == nombre@)
                            && usa_variable(**cuerpo, nombre@)),
                    decreases params@.len() - k,
                {
                    if es_texto(&params[k].0, nombre) {
                        proof {
                            assert(params@[k as int].0@ == nombre@);
                        }
                        return false;
                    }
                    k = k + 1;
                }
                self.expresion_usa_variable(cuerpo, nombre)
            },
            _ => false,
        }
    }

    /// ¿Usa alguna de las expresiones la variable?
    fn alguna_usa_variable(&self, es: &Vec<Expresion>, nombre: &str) -> (r: bool)
        ensures
            r == usa_alguna(es@, nombre@),
        decreases es,
    {
        let mut i: usize = 0;
        proof {
            assert(es@.skip(0) =~= es@);
        }
        while i < es.len()
            invariant
                i <= es@.len(),
                usa_alguna(es@, nombre@) == usa_alguna(es@.skip(i as int), nombre@),
            decreases es@.len() - i,
        {
            proof {
                vstd::std_specs::vec::axiom_vec_index_decreases(*es, i as int);
                assert(es@.skip(i as int)[0] == es@[i as int]);
                assert(es@.skip(i as int).drop_first() =~= es@.skip(i + 1));
            }
            if self.expresion_usa_variable(&es[i], nombre) {
                return true;
            }
            i = i + 1;
        }
        proof {
            assert(es@.skip(i as int) =~= Seq::<Expresion>::empty());
        }
        false
    }

    /// ¿Es la llamada a una función integrada que el codegen compila directamente?
    pub fn es_llamada_builtin(&self, llamada: &Llamada) -> (r: bool)
        ensures
            r == es_builtin(llamada.funcion@),
    {
        let f = &llamada.funcion;
        es_texto(f, "imprimir") || es_texto(f, "imprimir_linea") || es_texto(f, "decir") || es_texto(f, "tamaño_de") || es_texto(f, "afirmar") || es_texto(f, "texto_nuevo") || es_texto(f, "texto_desde") || es_texto(f, "texto_agregar") || es_texto(f, "texto_longitud") || es_texto(f, "texto_tam") || es_texto(f, "texto_liberar") || es_texto(f, "texto_concatenar") || es_texto(f, "texto_subtexto") || es_texto(f, "texto_comparar") || es_texto(f, "texto_obtener_byte") || es_texto(f, "archivo_leer") || es_texto(f, "archivo_escribir") || es_texto(f, "archivo_existe") || es_texto(f, "abs") || es_texto(f, "max") || es_texto(f, "min") || es_texto(f, "raiz") || es_texto(f, "potencia") || es_texto(f, "vector_nuevo") || es_texto(f, "vector_agregar") || es_texto(f, "vector_obtener") || es_texto(f, "vector_longitud") || es_texto(f, "vector_tam") || es_texto(f, "vector_liberar") || es_texto(f, "dormir") || es_texto(f, "diccionario_nuevo") || es_texto(f, "diccionario_insertar") || es_texto(f, "diccionario_obtener") || es_texto(f, "diccionario_existe") || es_texto(f, "diccionario_eliminar") || es_texto(f, "diccionario_longitud") || es_texto(f, "diccionario_liberar") || es_texto(f, "conjunto_nuevo") || es_texto(f, "conjunto_insertar") || es_texto(f, "conjunto_contiene") || es_texto(f, "conjunto_eliminar") || es_texto(f, "conjunto_longitud") || es_texto(f, "conjunto_liberar") || es_texto(f, "tcp_vincular") || es_texto(f, "tcp_aceptar") || es_texto(f, "tcp_leer") || es_texto(f, "tcp_escribir") || es_texto(f, "tcp_cerrar") || es_texto(f, "canal_nuevo") || es_texto(f, "canal_enviar") || es_texto(f, "canal_recibir") || es_texto(f, "canal_cerrar") || es_texto(f, "canal_intentar") || es_texto(f, "cancelar") || es_texto(f, "texto_a_puntero") || es_texto(f, "como_entero64")
    }
}

/// Todos son dígitos ASCII y hay al menos uno.
pub open spec fn son_digitos(s: Seq<char>) -> bool {
    s.len() > 0 && forall|i: int| 0 <= i < s.len() ==> '0' <= #[trigger] s[i] <= '9'
}

/// Valor decimal de una secuencia de dígitos.
pub open spec fn valor_digitos(s: Seq<char>) -> nat
    decreases s.len(),
{
    if s.len() == 0 {
        0
    } else {
        valor_digitos(s.drop_last()) * 10 + (s.last() as nat - '0' as nat) as nat
    }
}

/// Lo que da `parse::<usize>()`: un `+` opcional y dígitos, sin pasar de `usize::MAX`.
pub open spec fn natural_de(s: Seq<char>) -> Option<nat> {
    let d = if s.len() > 0 && s[0] == '+' {
        s.drop_first()
    } else {
        s
    };
    if son_digitos(d) && valor_digitos(d) <= usize::MAX {
        Some(valor_digitos(d))
    } else {
        None
    }
}

/// Lo que da `parse::<i64>()`: un signo opcional y dígitos, dentro del rango de `i64`.
pub open spec fn entero_de(s: Seq<char>) -> Option<int> {
    if s.len() > 0 && s[0] == '-' {
        let d = s.drop_first();
        if son_digitos(d) && valor_digitos(d) <= 0x8000_0000_0000_0000 {
            Some(-(valor_digitos(d) as int))
        } else {
            None
        }
    } else {
        let d = if s.len() > 0 && s[0] == '+' {
            s.drop_first()
        } else {
            s
        };
        if son_digitos(d) && valor_digitos(d) <= i64::MAX {
            Some(valor_digitos(d) as int)
        } else {
            None
        }
    }
}

/// Valor de los dígitos `cs[desde..]` si todos lo son, hay alguno y no pasa de `max`.
fn valor_decimal(cs: &Vec<char>, desde: usize, max: u64) -> (r: Option<u64>)
    requires
        desde <= cs@.len(),
    ensures
        match r {
            Some(v) => son_digitos(cs@.skip(desde as int)) && valor_digitos(cs@.skip(desde as int)) == v
                && v <= max,
            None => !(son_digitos(cs@.skip(desde as int)) && valor_digitos(cs@.skip(desde as int)) <= max),
        },
{
    let ghost d = cs@.skip(desde as int);
    if desde == cs.len() {
        return None;
    }
    let mut v: u64 = 0;
    let mut i: usize = desde;
    proof {
        assert(cs@.subrange(desde as int, desde as int) =~= Seq::<char>::empty());
    }
    while i < cs.len()
        invariant
            desde <= i <= cs@.len(),
            d == cs@.skip(desde as int),
            forall|k: int| desde <= k < i ==> '0' <= #[trigger] cs@[k] <= '9',
            v == valor_digitos(cs@.subrange(desde as int, i as int)),
            v <= max,
        decreases cs@.len() - i,
    {
        let c = cs[i];
        if c < '0' || c > '9' {
            proof {
                assert(d[i - desde] == c);
            }
            return None;
        }
        let digito = (c as u32 - '0' as u32) as u64;
        proof {
            assert(cs@.subrange(desde as int, i + 1).drop_last() =~= cs@.subrange(desde as int, i as int));
            assert(cs@.subrange(desde as int, i + 1).last() == c);
        }
        let siguiente: u128 = v as u128 * 10 + digito as u128;
        if siguiente > max as u128 {
            proof {
                lema_valor_prefijo(d, i - desde + 1, d.len() as int);
                assert(d.take(i - desde + 1) =~= cs@.subrange(desde as int, i + 1));
                assert(d.take(d.len() as int) =~= d);
            }
            return None;
        }
        v = siguiente as u64;
        i = i + 1;
    }
    proof {
        assert(cs@.subrange(desde as int, i as int) =~= d);
    }
    Some(v)
}

/// El valor de un prefijo de dígitos no pasa del de uno más largo.
proof fn lema_valor_prefijo(d: Seq<char>, i: int, j: int)
    requires
        0 <= i <= j <= d.len(),
    ensures
        valor_digitos(d.take(i)) <= valor_digitos(d.take(j)),
    decreases j,
{
    if i < j {
        assert(d.take(j).drop_last() =~= d.take(j - 1));
        lema_valor_prefijo(d, i, j - 1);
        let a = valor_digitos(d.take(j - 1));
        assert(a <= a * 10) by (nonlinear_arith)
            requires
                a >= 0,
        ;
    }
}

/// `texto.parse::<usize>()`.
pub fn parsear_natural(texto_num: &String) -> (r: Option<usize>)
    ensures
        match natural_de(texto_num@) {
            Some(n) => r == Some(n as usize),
            None => r is None,
        },
{
    let cs = caracteres(texto_num.as_str());
    let desde: usize = if cs.len() > 0 && cs[0] == '+' {
        1
    } else {
        0
    };
    proof {
        if desde == 1 {
            assert(cs@.skip(1) =~= cs@.drop_first());
        } else {
            assert(cs@.skip(0) =~= cs@);
        }
    }
    match valor_decimal(&cs, desde, usize::MAX as u64) {
        Some(v) => Some(v as usize),
        None => None,
    }
}

/// `texto.parse::<i64>()`.
pub fn parsear_entero(texto_num: &String) -> (r: Option<i64>)
    ensures
        match entero_de(texto_num@) {
            Some(n) => r == Some(n as i64),
            None => r is None,
        },
{
    let cs = caracteres(texto_num.as_str());
    if cs.len() > 0 && cs[0] == '-' {
        proof {
            assert(cs@.skip(1) =~= cs@.drop_first());
        }
        match valor_decimal(&cs, 1, 0x8000_0000_0000_0000) {
            Some(v) => {
                if v == 0x8000_0000_0000_0000 {
                    Some(i64::MIN)
                } else {
                    Some(-(v as i64))
                }
            },
            None => None,
        }
    } else {
        let desde: usize = if cs.len() > 0 && cs[0] == '+' {
            1
        } else {
            0
        };
        proof {
            if desde == 1 {
                assert(cs@.skip(1) =~= cs@.drop_first());
            } else {
                assert(cs@.skip(0) =~= cs@);
            }
        }
        match valor_decimal(&cs, desde, i64::MAX as u64) {
            Some(v) => Some(v as i64),
            None => None,
        }
    }
}

/// `equivale` es reflexiva.
pub proof fn lema_equivale_reflexiva(t: Tipo)
    ensures
        t.equivale(t),
    decreases t,
{
    match t {
        Tipo::Puntero(x) | Tipo::Referencia(x) | Tipo::ReferenciaMut(x) | Tipo::ReferenciaSelf(x)
        | Tipo::ReferenciaMutSelf(x) | Tipo::Vector(x) | Tipo::Conjunto(x)
        | Tipo::ReferenciaConLifetime(_, x) | Tipo::ReferenciaMutConLifetime(_, x)
        | Tipo::Array(x, _) | Tipo::ArrayGenerico(x, _) => lema_equivale_reflexiva(*x),
        Tipo::Resultado(a, b) | Tipo::Diccionario(a, b) => {
            lema_equivale_reflexiva(*a);
            lema_equivale_reflexiva(*b);
        },
        Tipo::NombreGenerico(_, xs) => {
            assert forall|i: int| 0 <= i < xs@.len() implies (#[trigger] xs@[i]).equivale(xs@[i]) by {
                lema_equivale_reflexiva(xs@[i]);
            }
        },
        _ => {},
    }
}

/// `r` es `t` con los genéricos sustituidos: los de tipo por su tipo concreto y un array de
/// longitud genérica por uno de longitud fija si la constante es un número (el tipo del
/// elemento queda entonces como estaba). Lo demás se conserva.
pub open spec fn sustituye(r: Tipo, t: Tipo, cs: Map<Seq<char>, Seq<char>>, ts: Map<Seq<char>, Tipo>) -> bool
    decreases t,
{
    match t {
        Tipo::Generico(n) => if ts.contains_key(n@) {
            r.equivale(ts[n@])
        } else {
            r.equivale(t)
        },
        Tipo::ArrayGenerico(e, n) => if cs.contains_key(n@) && natural_de(cs[n@]) is Some {
            r matches Tipo::Array(re, rn) && rn == natural_de(cs[n@])->Some_0 && re.equivale(*e)
        } else {
            r matches Tipo::ArrayGenerico(re, rn) && rn@ == n@ && sustituye(*re, *e, cs, ts)
        },
        Tipo::Array(e, n) => r matches Tipo::Array(re, rn) && rn == n && sustituye(*re, *e, cs, ts),
        Tipo::Vector(e) => r matches Tipo::Vector(re) && sustituye(*re, *e, cs, ts),
        Tipo::Puntero(e) => r matches Tipo::Puntero(re) && sustituye(*re, *e, cs, ts),
        Tipo::Referencia(e) => r matches Tipo::Referencia(re) && sustituye(*re, *e, cs, ts),
        Tipo::ReferenciaMut(e) => r matches Tipo::ReferenciaMut(re) && sustituye(*re, *e, cs, ts),
        Tipo::ReferenciaConLifetime(l, e) => r matches Tipo::ReferenciaConLifetime(rl, re) && rl@
            == l@ && sustituye(*re, *e, cs, ts),
        Tipo::ReferenciaMutConLifetime(l, e) => r matches Tipo::ReferenciaMutConLifetime(rl, re)
            && rl@ == l@ && sustituye(*re, *e, cs, ts),
        Tipo::ReferenciaSelf(e) => r matches Tipo::ReferenciaSelf(re) && sustituye(*re, *e, cs, ts),
        Tipo::ReferenciaMutSelf(e) => r matches Tipo::ReferenciaMutSelf(re) && sustituye(*re, *e, cs, ts),
        Tipo::NombreGenerico(n, args) => r matches Tipo::NombreGenerico(rn, rargs) && rn@ == n@
            && rargs@.len() == args@.len() && forall|i: int|
            0 <= i < args@.len() ==> sustituye(#[trigger] rargs@[i], args@[i], cs, ts),
        _ => r == t,
    }
}

impl Codegen {
    /// Sustituye genéricos por valores concretos en un tipo.
    pub fn sustituir_tipo(
        &self,
        tipo: &mut Tipo,
        sust_consts: &Vec<(String, String)>,
        sust_tipos: &Vec<(String, Tipo)>,
    )
        requires
            claves_unicas(sust_consts@),
            claves_unicas(sust_tipos@),
        ensures
            sustituye(*final(tipo), *old(tipo), mapa_de(sust_consts@), mapa_de(sust_tipos@)),
        decreases *old(tipo),
    {
        match tipo {
            Tipo::Generico(nombre) => {
                match obtener(sust_tipos, nombre.as_str()) {
                    Some(concreto) => {
                        *tipo = concreto.clone();
                    },
                    None => {
                        proof {
                            lema_equivale_reflexiva(*tipo);
                        }
                    },
                }
            },
            Tipo::ArrayGenerico(t, nombre) => {
                if let Some(valor) = obtener(sust_consts, nombre.as_str()) {
                    if let Some(n) = parsear_natural(valor) {
                        *tipo = Tipo::Array(Box::new((**t).clone()), n);
                        return ;
                    }
                }
                self.sustituir_tipo(t, sust_consts, sust_tipos);
            },
            Tipo::Array(t, _) => self.sustituir_tipo(t, sust_consts, sust_tipos),
            Tipo::Vector(t) => self.sustituir_tipo(t, sust_consts, sust_tipos),
            Tipo::Puntero(t) => self.sustituir_tipo(t, sust_consts, sust_tipos),
            Tipo::Referencia(t) => self.sustituir_tipo(t, sust_consts, sust_tipos),
            Tipo::ReferenciaMut(t) => self.sustituir_tipo(t, sust_consts, sust_tipos),
            Tipo::ReferenciaConLifetime(_, t) => self.sustituir_tipo(t, sust_consts, sust_tipos),
            Tipo::ReferenciaMutConLifetime(_, t) => self.sustituir_tipo(t, sust_consts, sust_tipos),
            Tipo::ReferenciaSelf(t) => self.sustituir_tipo(t, sust_consts, sust_tipos),
            Tipo::ReferenciaMutSelf(t) => self.sustituir_tipo(t, sust_consts, sust_tipos),
            Tipo::NombreGenerico(_, args) => {
                let ghost iniciales = args@;
                proof {
                    assert(old(tipo)->NombreGenerico_1@ == iniciales);
                }
                let mut i: usize = 0;
                while i < args.len()
                    invariant
                        i <= args@.len(),
                        args@.len() == iniciales.len(),
                        old(tipo)->NombreGenerico_1@ == iniciales,
                        *old(tipo) is NombreGenerico,
                        claves_unicas(sust_consts@),
                        claves_unicas(sust_tipos@),
                        forall|k: int|
                            0 <= k < i ==> sustituye(
                                #[trigger] args@[k],
                                iniciales[k],
                                mapa_de(sust_consts@),
                                mapa_de(sust_tipos@),
                            ),
                        forall|k: int| i <= k < args@.len() ==> #[trigger] args@[k] == iniciales[k],
                    decreases args@.len() - i,
                {
                    proof {
                        vstd::std_specs::vec::axiom_vec_index_decreases(old(tipo)->NombreGenerico_1, i as int);
                        assert(decreases_to!(*old(tipo) => old(tipo)->NombreGenerico_1));
                    }
                    let ghost antes = args@;
                    self.sustituir_tipo(&mut args[i], sust_consts, sust_tipos);
                    i = i + 1;
                }
            },
            _ => {},
        }
    }
}

/// `r` es `e` con cada identificador que nombra una constante numérica sustituido por su
/// literal entero, recorriendo operandos, argumentos, índices, elementos, valores de campos,
/// bases y argumentos de constructores; el resto queda igual.
pub open spec fn sustituye_expr(r: Expresion, e: Expresion, cs: Map<Seq<char>, Seq<char>>) -> bool
    decreases e,
{
    match e {
        Expresion::Identificador(n, sp) => if cs.contains_key(n@) && entero_de(cs[n@]) is Some {
            r == Expresion::Literal(Literal::Entero(entero_de(cs[n@])->Some_0 as i64, sp))
        } else {
            r == e
        },
        Expresion::Binaria(izq, op, der, sp) => r matches Expresion::Binaria(ri, rop, rd, rsp) && rop
            == op && rsp == sp && sustituye_expr(*ri, *izq, cs) && sustituye_expr(*rd, *der, cs),
        Expresion::Unaria(op, x, sp) => r matches Expresion::Unaria(rop, rx, rsp) && rop == op && rsp
            == sp && sustituye_expr(*rx, *x, cs),
        Expresion::Llamada(ll) => r matches Expresion::Llamada(rl) && rl.funcion == ll.funcion
            && rl.tipo_args == ll.tipo_args && rl.span == ll.span && rl.argumentos@.len()
            == ll.argumentos@.len() && forall|i: int|
            0 <= i < ll.argumentos@.len() ==> sustituye_expr(
                #[trigger] rl.argumentos@[i],
                ll.argumentos@[i],
                cs,
            ),
        Expresion::AccesoArray(a, i, sp) => r matches Expresion::AccesoArray(ra, ri, rsp) && rsp == sp
            && sustituye_expr(*ra, *a, cs) && sustituye_expr(*ri, *i, cs),
        Expresion::LiteralArray(es, sp) => r matches Expresion::LiteralArray(res, rsp) && rsp == sp
            && res@.len() == es@.len() && forall|i: int|
            0 <= i < es@.len() ==> sustituye_expr(#[trigger] res@[i], es@[i], cs),
        Expresion::ArrayRelleno(x, n, sp) => r matches Expresion::ArrayRelleno(rx, rn, rsp) && rn == n
            && rsp == sp && sustituye_expr(*rx, *x, cs),
        Expresion::InicializacionStruct(nombre, campos, sp) => r matches Expresion::InicializacionStruct(
            rnombre,
            rcampos,
            rsp,
        ) && rnombre == nombre && rsp == sp && rcampos@.len() == campos@.len() && forall|i: int|
            0 <= i < campos@.len() ==> (#[trigger] rcampos@[i]).0 == campos@[i].0 && sustituye_expr(
                rcampos@[i].1,
                campos@[i].1,
                cs,
            ),
        Expresion::AccesoCampo(base, c, sp) => r matches Expresion::AccesoCampo(rb, rc, rsp) && rc == c
            && rsp == sp && sustituye_expr(*rb, *base, cs),
        Expresion::ConstructorEnum(en, v, args, sp) => r matches Expresion::ConstructorEnum(
            ren,
            rv,
            rargs,
            rsp,
        ) && ren == en && rv == v && rsp == sp && rargs@.len() == args@.len() && forall|i: int|
            0 <= i < args@.len() ==> sustituye_expr(#[trigger] rargs@[i], args@[i], cs),
        Expresion::EsVariante(base, en, v, b, sp) => r matches Expresion::EsVariante(rb, ren, rv, rbind, rsp)
            && ren == en && rv == v && rbind == b && rsp == sp && sustituye_expr(*rb, *base, cs),
        _ => r == e,
    }
}

impl Codegen {
    /// Sustituye las constantes genéricas por sus literales en una expresión.
    pub fn sustituir_en_expresion(&self, expr: &mut Expresion, sustituciones: &Vec<(String, String)>)
        requires
            claves_unicas(sustituciones@),
        ensures
            sustituye_expr(*final(expr), *old(expr), mapa_de(sustituciones@)),
        decreases *old(expr),
    {
        match expr {
            Expresion::Identificador(nombre, span) => {
                if let Some(valor) = obtener(sustituciones, nombre.as_str()) {
                    if let Some(n) = parsear_entero(valor) {
                        let sp = span.copia();
                        *expr = Expresion::Literal(Literal::Entero(n, sp));
                    }
                }
            },
            Expresion::Binaria(izq, _, der, _) => {
                self.sustituir_en_expresion(izq, sustituciones);
                self.sustituir_en_expresion(der, sustituciones);
            },
            Expresion::Unaria(_, x, _) => {
                self.sustituir_en_expresion(x, sustituciones);
            },
            Expresion::Llamada(llamada) => {
                proof {
                    assert(decreases_to!(*old(expr) => old(expr)->Llamada_0.argumentos));
                }
                self.sustituir_en_expresiones(&mut llamada.argumentos, sustituciones);
            },
            Expresion::AccesoArray(array, indice, _) => {
                self.sustituir_en_expresion(array, sustituciones);
                self.sustituir_en_expresion(indice, sustituciones);
            },
            Expresion::LiteralArray(elementos, _) => {
                self.sustituir_en_expresiones(elementos, sustituciones);
            },
            Expresion::ArrayRelleno(elem, _, _) => {
                self.sustituir_en_expresion(elem, sustituciones);
            },
            Expresion::InicializacionStruct(_, campos, _) => {
                let ghost iniciales = campos@;
                proof {
                    assert(old(expr)->InicializacionStruct_1@ == iniciales);
                }
                let mut i: usize = 0;
                while i < campos.len()
                    invariant
                        i <= campos@.len(),
                        campos@.len() == iniciales.len(),
                        old(expr)->InicializacionStruct_1@ == iniciales,
                        *old(expr) is InicializacionStruct,
                        claves_unicas(sustituciones@),
                        forall|k: int|
                            0 <= k < i ==> (#[trigger] campos@[k]).0 == iniciales[k].0 && sustituye_expr(
                                campos@[k].1,
                                iniciales[k].1,
                                mapa_de(sustituciones@),
                            ),
                        forall|k: int| i <= k < campos@.len() ==> #[trigger] campos@[k] == iniciales[k],
                    decreases campos@.len() - i,
                {
                    proof {
                        vstd::std_specs::vec::axiom_vec_index_decreases(
                            old(expr)->InicializacionStruct_1,
                            i as int,
                        );
                        assert(decreases_to!(*old(expr) => old(expr)->InicializacionStruct_1));
                        assert(decreases_to!(iniciales[i as int] => iniciales[i as int].1));
                    }
                    self.sustituir_en_expresion(&mut campos[i].1, sustituciones);
                    i = i + 1;
                }
            },
            Expresion::AccesoCampo(base, _, _) => {
                self.sustituir_en_expresion(base, sustituciones);
            },
            Expresion::ConstructorEnum(_, _, args, _) => {
                self.sustituir_en_expresiones(args, sustituciones);
            },
            Expresion::EsVariante(base, _, _, _, _) => {
                self.sustituir_en_expresion(base, sustituciones);
            },
            _ => {},
        }
    }

    /// Sustituye en cada expresión de la lista.
    fn sustituir_en_expresiones(&self, es: &mut Vec<Expresion>, sustituciones: &Vec<(String, String)>)
        requires
            claves_unicas(sustituciones@),
        ensures
            final(es)@.len() == old(es)@.len(),
            forall|k: int|
                0 <= k < old(es)@.len() ==> sustituye_expr(
                    #[trigger] final(es)@[k],
                    old(es)@[k],
                    mapa_de(sustituciones@),
                ),
        decreases *old(es),
    {
        let ghost iniciales = es@;
        let mut i: usize = 0;
        while i < es.len()
            invariant
                i <= es@.len(),
                es@.len() == iniciales.len(),
                iniciales == old(es)@,
                claves_unicas(sustituciones@),
                forall|k: int|
                    0 <= k < i ==> sustituye_expr(
                        #[trigger] es@[k],
                        iniciales[k],
                        mapa_de(sustituciones@),
                    ),
                forall|k: int| i <= k < es@.len() ==> #[trigger] es@[k] == iniciales[k],
            decreases es@.len() - i,
        {
            proof {
                vstd::std_specs::vec::axiom_vec_index_decreases(*old(es), i as int);
            }
            self.sustituir_en_expresion(&mut es[i], sustituciones);
            i = i + 1;
        }
    }
}

/// Cada sentencia de `rs` es la correspondiente de `ss` con los genéricos sustituidos.
pub open spec fn sents_sustituidas(
    rs: Seq<Sentencia>,
    ss: Seq<Sentencia>,
    cs: Map<Seq<char>, Seq<char>>,
    ts: Map<Seq<char>, Tipo>,
) -> bool
    decreases ss, 0nat,
{
    rs.len() == ss.len() && forall|i: int| 0 <= i < ss.len() ==> sustituye_sent(#[trigger] rs[i], ss[i], cs, ts)
}

/// El bloque conserva su span y tiene sus sentencias sustituidas.
pub open spec fn bloque_sustituido(
    rb: Bloque,
    b: Bloque,
    cs: Map<Seq<char>, Seq<char>>,
    ts: Map<Seq<char>, Tipo>,
) -> bool
    decreases b, 1nat,
{
    rb.span == b.span && sents_sustituidas(rb.sentencias@, b.sentencias@, cs, ts)
}

/// `r` es `s` con los genéricos sustituidos: en las expresiones (las constantes), en el
/// tipo anotado de una declaración y en los bloques anidados; el lugar de una asignación,
/// el canal de un `seleccionar` y los hilos de `con_executor` quedan igual.
pub open spec fn sustituye_sent(
    r: Sentencia,
    s: Sentencia,
    cs: Map<Seq<char>, Seq<char>>,
    ts: Map<Seq<char>, Tipo>,
) -> bool
    decreases s, 2nat,
{
    match s {
        Sentencia::Expresion(e) => r matches Sentencia::Expresion(re) && sustituye_expr(re, e, cs),
        Sentencia::DeclaracionVariable(d) => r matches Sentencia::DeclaracionVariable(rd) && rd.articulo
            == d.articulo && rd.nombre == d.nombre && rd.span == d.span && match d.tipo {
            Some(t) => rd.tipo matches Some(rt) && sustituye(rt, t, cs, ts),
            None => rd.tipo is None,
        } && sustituye_expr(rd.valor, d.valor, cs),
        Sentencia::Asignacion(a) => r matches Sentencia::Asignacion(ra) && ra.lugar == a.lugar
            && ra.span == a.span && sustituye_expr(ra.valor, a.valor, cs),
        Sentencia::Retornar(valor, sp) => match valor {
            Some(e) => r matches Sentencia::Retornar(Some(re), rsp) && rsp == sp && sustituye_expr(
                re,
                e,
                cs,
            ),
            None => r == s,
        },
        Sentencia::Condicional(c) => r matches Sentencia::Condicional(rc) && rc.modo == c.modo
            && rc.span == c.span && sustituye_expr(rc.condicion, c.condicion, cs) && bloque_sustituido(
            rc.bloque_entonces,
            c.bloque_entonces,
            cs,
            ts,
        ) && match c.bloque_sino {
            Some(b) => rc.bloque_sino matches Some(rb) && bloque_sustituido(rb, b, cs, ts),
            None => rc.bloque_sino is None,
        },
        Sentencia::BucleMientras(b) => r matches Sentencia::BucleMientras(rb) && rb.span == b.span
            && sustituye_expr(rb.condicion, b.condicion, cs) && bloque_sustituido(rb.bloque, b.bloque, cs, ts),
        Sentencia::BuclePara(b) => r matches Sentencia::BuclePara(rb) && rb.variable == b.variable
            && rb.span == b.span && sustituye_expr(rb.iterable, b.iterable, cs) && bloque_sustituido(
            rb.bloque,
            b.bloque,
            cs,
            ts,
        ),
        Sentencia::Region { nombre, cuerpo, span } => r matches Sentencia::Region {
            nombre: rn,
            cuerpo: rc,
            span: rsp,
        } && rn == nombre && rsp == span && sents_sustituidas(rc@, cuerpo@, cs, ts),
        Sentencia::Seleccionar(sel) => r matches Sentencia::Seleccionar(rsel) && rsel.span == sel.span
            && rsel.ramas@.len() == sel.ramas@.len() && forall|i: int|
            0 <= i < sel.ramas@.len() ==> rama_sustituida(#[trigger] rsel.ramas@[i], sel.ramas@[i], cs, ts),
        Sentencia::ConExecutor { hilos, cuerpo, span } => r matches Sentencia::ConExecutor {
            hilos: rh,
            cuerpo: rc,
            span: rsp,
        } && rh == hilos && rsp == span && sents_sustituidas(rc@, cuerpo@, cs, ts),
    }
}

/// La rama conserva canal, variable y span, y tiene su cuerpo sustituido.
pub open spec fn rama_sustituida(
    r: RamaSeleccionar,
    rama: RamaSeleccionar,
    cs: Map<Seq<char>, Seq<char>>,
    ts: Map<Seq<char>, Tipo>,
) -> bool
    decreases rama, 1nat,
{
    r.canal == rama.canal && r.variable == rama.variable && r.span == rama.span && bloque_sustituido(
        r.cuerpo,
        rama.cuerpo,
        cs,
        ts,
    )
}

impl Codegen {
    /// Sustituye las constantes genéricas por literales y los tipos genéricos por concretos
    /// en una sentencia.
    pub fn sustituir_en_sentencia(
        &self,
        sentencia: &mut Sentencia,
        sust_consts: &Vec<(String, String)>,
        sust_tipos: &Vec<(String, Tipo)>,
    )
        requires
            claves_unicas(sust_consts@),
            claves_unicas(sust_tipos@),
        ensures
            sustituye_sent(
                *final(sentencia),
                *old(sentencia),
                mapa_de(sust_consts@),
                mapa_de(sust_tipos@),
            ),
        decreases *old(sentencia),
    {
        match sentencia {
            Sentencia::Expresion(expr) => self.sustituir_en_expresion(expr, sust_consts),
            Sentencia::DeclaracionVariable(decl) => {
                if let Some(tipo) = &mut decl.tipo {
                    self.sustituir_tipo(tipo, sust_consts, sust_tipos);
                }
                self.sustituir_en_expresion(&mut decl.valor, sust_consts);
            },
            Sentencia::Asignacion(asig) => {
                self.sustituir_en_expresion(&mut asig.valor, sust_consts);
            },
            Sentencia::Retornar(expr, _) => {
                if let Some(expr) = expr {
                    self.sustituir_en_expresion(expr, sust_consts);
                }
            },
            Sentencia::Condicional(cond) => {
                self.sustituir_en_expresion(&mut cond.condicion, sust_consts);
                proof {
                    assert(decreases_to!(*old(sentencia) => old(sentencia)->Condicional_0.bloque_entonces.sentencias));
                }
                self.sustituir_en_sentencias(&mut cond.bloque_entonces.sentencias, sust_consts, sust_tipos);
                if let Some(bloque_sino) = &mut cond.bloque_sino {
                    proof {
                        assert(decreases_to!(*old(sentencia) => old(sentencia)->Condicional_0.bloque_sino->Some_0.sentencias));
                    }
                    self.sustituir_en_sentencias(&mut bloque_sino.sentencias, sust_consts, sust_tipos);
                }
            },
            Sentencia::BucleMientras(bucle) => {
                self.sustituir_en_expresion(&mut bucle.condicion, sust_consts);
                proof {
                    assert(decreases_to!(*old(sentencia) => old(sentencia)->BucleMientras_0.bloque.sentencias));
                }
                self.sustituir_en_sentencias(&mut bucle.bloque.sentencias, sust_consts, sust_tipos);
            },
            Sentencia::BuclePara(bucle) => {
                self.sustituir_en_expresion(&mut bucle.iterable, sust_consts);
                proof {
                    assert(decreases_to!(*old(sentencia) => old(sentencia)->BuclePara_0.bloque.sentencias));
                }
                self.sustituir_en_sentencias(&mut bucle.bloque.sentencias, sust_consts, sust_tipos);
            },
            Sentencia::Region { cuerpo, .. } => {
                self.sustituir_en_sentencias(cuerpo, sust_consts, sust_tipos);
            },
            Sentencia::Seleccionar(seleccionar) => {
                let ghost iniciales = seleccionar.ramas@;
                proof {
                    assert(old(sentencia)->Seleccionar_0.ramas@ == iniciales);
                }
                let mut i: usize = 0;
                while i < seleccionar.ramas.len()
                    invariant
                        i <= seleccionar.ramas@.len(),
                        seleccionar.ramas@.len() == iniciales.len(),
                        old(sentencia)->Seleccionar_0.ramas@ == iniciales,
                        *old(sentencia) is Seleccionar,
                        seleccionar.span == old(sentencia)->Seleccionar_0.span,
                        claves_unicas(sust_consts@),
                        claves_unicas(sust_tipos@),
                        forall|k: int|
                            0 <= k < i ==> rama_sustituida(
                                #[trigger] seleccionar.ramas@[k],
                                iniciales[k],
                                mapa_de(sust_consts@),
                                mapa_de(sust_tipos@),
                            ),
                        forall|k: int| i <= k < seleccionar.ramas@.len() ==> #[trigger] seleccionar.ramas@[k] == iniciales[k],
                    decreases seleccionar.ramas@.len() - i,
                {
                    proof {
                        vstd::std_specs::vec::axiom_vec_index_decreases(old(sentencia)->Seleccionar_0.ramas, i as int);
                        assert(decreases_to!(*old(sentencia) => old(sentencia)->Seleccionar_0.ramas));
                        assert(decreases_to!(iniciales[i as int] => iniciales[i as int].cuerpo.sentencias));
                    }
                    self.sustituir_en_sentencias(&mut seleccionar.ramas[i].cuerpo.sentencias, sust_consts, sust_tipos);
                    i = i + 1;
                }
            },
            Sentencia::ConExecutor { cuerpo, .. } => {
                self.sustituir_en_sentencias(cuerpo, sust_consts, sust_tipos);
            },
        }
    }

    /// Sustituye en cada sentencia de la lista.
    fn sustituir_en_sentencias(
        &self,
        ss: &mut Vec<Sentencia>,
        sust_consts: &Vec<(String, String)>,
        sust_tipos: &Vec<(String, Tipo)>,
    )
        requires
            claves_unicas(sust_consts@),
            claves_unicas(sust_tipos@),
        ensures
            sents_sustituidas(final(ss)@, old(ss)@, mapa_de(sust_consts@), mapa_de(sust_tipos@)),
        decreases *old(ss),
    {
        let ghost iniciales = ss@;
        let mut i: usize = 0;
        while i < ss.len()
            invariant
                i <= ss@.len(),
                ss@.len() == iniciales.len(),
                iniciales == old(ss)@,
                claves_unicas(sust_consts@),
                claves_unicas(sust_tipos@),
                forall|k: int|
                    0 <= k < i ==> sustituye_sent(
                        #[trigger] ss@[k],
                        iniciales[k],
                        mapa_de(sust_consts@),
                        mapa_de(sust_tipos@),
                    ),
                forall|k: int| i <= k < ss@.len() ==> #[trigger] ss@[k] == iniciales[k],
            decreases ss@.len() - i,
        {
            proof {
                vstd::std_specs::vec::axiom_vec_index_decreases(*old(ss), i as int);
            }
            self.sustituir_en_sentencia(&mut ss[i], sust_consts, sust_tipos);
            i = i + 1;
        }
    }
}

/// Nombre de un tipo concreto para el nombre de una instancia (`Array_Entero32_4`).
pub open spec fn nombre_instancia(t: Tipo) -> Seq<char>
    decreases t,
{
    match t {
        Tipo::Entero8 => "Entero8"@,
        Tipo::Entero16 => "Entero16"@,
        Tipo::Entero32 => "Entero32"@,
        Tipo::Entero64 => "Entero64"@,
        Tipo::Natural8 => "Natural8"@,
        Tipo::Natural16 => "Natural16"@,
        Tipo::Natural32 => "Natural32"@,
        Tipo::Natural64 => "Natural64"@,
        Tipo::Flotante32 => "Flotante32"@,
        Tipo::Flotante64 => "Flotante64"@,
        Tipo::Booleano => "Booleano"@,
        Tipo::Caracter => "Caracter"@,
        Tipo::Palabra => "Palabra"@,
        Tipo::Texto => "Texto"@,
        Tipo::Vacio => "Vacio"@,
        Tipo::Nombre(n) => n@,
        Tipo::Generico(n) => n@,
        Tipo::Array(e, n) => "Array_"@ + nombre_instancia(*e) + "_"@ + decimal(n as nat),
        Tipo::ArrayGenerico(e, n) => "Array_"@ + nombre_instancia(*e) + "_"@ + n@,
        Tipo::Vector(e) => "Vector_"@ + nombre_instancia(*e),
        Tipo::Diccionario(k, v) => "Diccionario_"@ + nombre_instancia(*k) + "_"@ + nombre_instancia(*v),
        Tipo::Conjunto(e) => "Conjunto_"@ + nombre_instancia(*e),
        Tipo::Resultado(a, b) => "Resultado_"@ + nombre_instancia(*a) + "_"@ + nombre_instancia(*b),
        Tipo::Puntero(e) => "Ptr_"@ + nombre_instancia(*e),
        Tipo::Referencia(e) => "Ref_"@ + nombre_instancia(*e),
        Tipo::ReferenciaMut(e) => "RefMut_"@ + nombre_instancia(*e),
        Tipo::ReferenciaConLifetime(_, e) => "Ref_"@ + nombre_instancia(*e),
        Tipo::ReferenciaMutConLifetime(_, e) => "RefMut_"@ + nombre_instancia(*e),
        Tipo::ReferenciaSelf(e) => "RefSelf_"@ + nombre_instancia(*e),
        Tipo::ReferenciaMutSelf(e) => "RefMutSelf_"@ + nombre_instancia(*e),
        Tipo::NombreGenerico(n, args) => n@ + "_"@ + unidos(nombres_instancia(args@), "_"@),
    }
}

/// Nombres de instancia de varios tipos.
pub open spec fn nombres_instancia(ts: Seq<Tipo>) -> Seq<Seq<char>>
    decreases ts,
{
    if ts.len() == 0 {
        Seq::empty()
    } else {
        seq![nombre_instancia(ts[0])] + nombres_instancia(ts.drop_first())
    }
}

/// Parte del nombre especializado que aporta un parámetro genérico: el valor de una
/// constante o el nombre de instancia de un tipo, o el propio nombre si no se sustituye.
pub open spec fn parte_de_nombre(
    g: ParametroGenerico,
    cs: Map<Seq<char>, Seq<char>>,
    ts: Map<Seq<char>, Tipo>,
) -> Seq<char> {
    if g.tipo is Some {
        if cs.contains_key(g.nombre@) {
            cs[g.nombre@]
        } else {
            g.nombre@
        }
    } else {
        if ts.contains_key(g.nombre@) {
            nombre_instancia(ts[g.nombre@])
        } else {
            g.nombre@
        }
    }
}

/// Nombre de la función especializada: el de la función genérica, `_` y las partes unidas por `_`.
pub open spec fn nombre_especializado(
    f: Seq<char>,
    gs: Seq<ParametroGenerico>,
    cs: Map<Seq<char>, Seq<char>>,
    ts: Map<Seq<char>, Tipo>,
) -> Seq<char> {
    f + "_"@ + unidos(gs.map_values(|g: ParametroGenerico| parte_de_nombre(g, cs, ts)), "_"@)
}

impl Codegen {
    /// Nombre de una instancia de tipo concreto.
    pub fn nombre_tipo_instancia(&self, tipo: &Tipo) -> (r: String)
        ensures
            r@ == nombre_instancia(*tipo),
        decreases tipo, 1nat,
    {
        match tipo {
            Tipo::Entero8 => texto("Entero8"),
            Tipo::Entero16 => texto("Entero16"),
            Tipo::Entero32 => texto("Entero32"),
            Tipo::Entero64 => texto("Entero64"),
            Tipo::Natural8 => texto("Natural8"),
            Tipo::Natural16 => texto("Natural16"),
            Tipo::Natural32 => texto("Natural32"),
            Tipo::Natural64 => texto("Natural64"),
            Tipo::Flotante32 => texto("Flotante32"),
            Tipo::Flotante64 => texto("Flotante64"),
            Tipo::Booleano => texto("Booleano"),
            Tipo::Caracter => texto("Caracter"),
            Tipo::Palabra => texto("Palabra"),
            Tipo::Texto => texto("Texto"),
            Tipo::Vacio => texto("Vacio"),
            Tipo::Nombre(n) => n.clone(),
            Tipo::Generico(n) => n.clone(),
            Tipo::Array(t, n) => {
                let mut r = texto("Array_");
                agregar(&mut r, self.nombre_tipo_instancia(t).as_str());
                agregar(&mut r, "_");
                agregar_decimal(&mut r, *n as u64);
                r
            },
            Tipo::ArrayGenerico(t, n) => {
                let mut r = texto("Array_");
                agregar(&mut r, self.nombre_tipo_instancia(t).as_str());
                agregar(&mut r, "_");
                agregar(&mut r, n.as_str());
                r
            },
            Tipo::Vector(t) => self.con_prefijo("Vector_", t),
            Tipo::Diccionario(k, v) => {
                let mut r = self.con_prefijo("Diccionario_", k);
                agregar(&mut r, "_");
                agregar(&mut r, self.nombre_tipo_instancia(v).as_str());
                r
            },
            Tipo::Conjunto(t) => self.con_prefijo("Conjunto_", t),
            Tipo::Resultado(t, e) => {
                let mut r = self.con_prefijo("Resultado_", t);
                agregar(&mut r, "_");
                agregar(&mut r, self.nombre_tipo_instancia(e).as_str());
                r
            },
            Tipo::Puntero(t) => self.con_prefijo("Ptr_", t),
            Tipo::Referencia(t) => self.con_prefijo("Ref_", t),
            Tipo::ReferenciaMut(t) => self.con_prefijo("RefMut_", t),
            Tipo::ReferenciaConLifetime(_, t) => self.con_prefijo("Ref_", t),
            Tipo::ReferenciaMutConLifetime(_, t) => self.con_prefijo("RefMut_", t),
            Tipo::ReferenciaSelf(t) => self.con_prefijo("RefSelf_", t),
            Tipo::ReferenciaMutSelf(t) => self.con_prefijo("RefMutSelf_", t),
            Tipo::NombreGenerico(n, args) => {
                let mut nombres: Vec<String> = Vec::new();
                let mut i: usize = 0;
                proof {
                    assert(args@.take(0) =~= Seq::<Tipo>::empty());
                }
                while i < args.len()
                    invariant
                        i <= args@.len(),
                        *tipo is NombreGenerico,
                        tipo->NombreGenerico_1 == *args,
                        nombres@.map_values(|s: String| s@) == nombres_instancia(args@.take(i as int)),
                    decreases args@.len() - i,
                {
                    proof {
                        vstd::std_specs::vec::axiom_vec_index_decreases(*args, i as int);
                        assert(decreases_to!(*tipo => tipo->NombreGenerico_1));
                        lema_nombres_paso(args@, i as int);
                    }
                    nombres.push(self.nombre_tipo_instancia(&args[i]));
                    proof {
                        assert(nombres@.map_values(|s: String| s@) =~= nombres_instancia(args@.take(i as int)).push(
                            nombre_instancia(args@[i as int]),
                        ));
                    }
                    i = i + 1;
                }
                proof {
                    assert(args@.take(i as int) =~= args@);
                }
                let mut r = n.clone();
                agregar(&mut r, "_");
                agregar(&mut r, unir(&nombres, "_").as_str());
                r
            },
        }
    }

    /// `prefijo` seguido del nombre de instancia del tipo.
    fn con_prefijo(&self, prefijo: &str, t: &Tipo) -> (r: String)
        ensures
            r@ == prefijo@ + nombre_instancia(*t),
        decreases t, 2nat,
    {
        let mut r = texto(prefijo);
        agregar(&mut r, self.nombre_tipo_instancia(t).as_str());
        r
    }
}

/// Los nombres de un prefijo más uno son los del prefijo con el del siguiente al final.
proof fn lema_nombres_paso(ts: Seq<Tipo>, i: int)
    requires
        0 <= i < ts.len(),
    ensures
        nombres_instancia(ts.take(i + 1)) == nombres_instancia(ts.take(i)).push(nombre_instancia(ts[i])),
    decreases i,
{
    if i == 0 {
        assert(ts.take(1).drop_first() =~= Seq::<Tipo>::empty());
        assert(ts.take(1)[0] == ts[0]);
        assert(nombres_instancia(ts.take(1).drop_first()) =~= Seq::<Seq<char>>::empty());
        assert(nombres_instancia(ts.take(1)) =~= seq![nombre_instancia(ts[0])]);
        assert(nombres_instancia(ts.take(0)) =~= Seq::<Seq<char>>::empty());
    } else {
        let t = ts.drop_first();
        lema_nombres_paso(t, i - 1);
        assert(ts.take(i + 1).drop_first() =~= t.take(i));
        assert(ts.take(i).drop_first() =~= t.take(i - 1));
        assert(ts.take(i + 1)[0] == ts[0] && ts.take(i)[0] == ts[0]);
        assert(nombres_instancia(ts.take(i + 1)) =~= seq![nombre_instancia(ts[0])] + nombres_instancia(t.take(i)));
        assert(nombres_instancia(ts.take(i)) =~= seq![nombre_instancia(ts[0])] + nombres_instancia(t.take(i - 1)));
    }
}

/// `r` es la especialización de `f`: nombre con las partes de los genéricos, sin parámetros
/// genéricos, y los genéricos sustituidos en los tipos de los parámetros, en el retorno y en
/// el cuerpo; el resto de la declaración se conserva.
pub open spec fn especializada(
    r: FuncionDecl,
    f: FuncionDecl,
    cs: Map<Seq<char>, Seq<char>>,
    ts: Map<Seq<char>, Tipo>,
) -> bool {
    &&& r.nombre@ == nombre_especializado(f.nombre@, f.parametros_genericos@, cs, ts)
    &&& r.parametros_genericos@.len() == 0
    &&& r.parametros@.len() == f.parametros@.len()
    &&& forall|i: int|
        0 <= i < f.parametros@.len() ==> {
            let rp = #[trigger] r.parametros@[i];
            let p = f.parametros@[i];
            rp.articulo == p.articulo && rp.nombre == p.nombre && rp.span == p.span && sustituye(
                rp.tipo,
                p.tipo,
                cs,
                ts,
            )
        }
    &&& match f.retorno {
        Some(t) => r.retorno matches Some(rt) && sustituye(rt, t, cs, ts),
        None => r.retorno is None,
    }
    &&& bloque_sustituido(r.cuerpo, f.cuerpo, cs, ts)
    &&& r.es_insegura == f.es_insegura
    &&& r.nivel_verificacion == f.nivel_verificacion
    &&& r.efecto == f.efecto
    &&& r.visibilidad == f.visibilidad
    &&& r.es_futuro == f.es_futuro
    &&& r.span == f.span
}

impl Codegen {
    /// Crea una función especializada reemplazando los genéricos por valores concretos
    /// (`longitud_5`, `es_igual_Entero32`).
    pub fn especializar_funcion(
        &self,
        func: FuncionDecl,
        sust_consts: &Vec<(String, String)>,
        sust_tipos: &Vec<(String, Tipo)>,
    ) -> (r: FuncionDecl)
        requires
            claves_unicas(sust_consts@),
            claves_unicas(sust_tipos@),
        ensures
            especializada(r, func, mapa_de(sust_consts@), mapa_de(sust_tipos@)),
    {
        let ghost cs = mapa_de(sust_consts@);
        let ghost ts = mapa_de(sust_tipos@);
        let ghost generica = func;
        let mut func_clon = func;
        // Nombre especializado
        let ghost gs = func_clon.parametros_genericos@;
        let mut partes: Vec<String> = Vec::new();
        let mut i: usize = 0;
        while i < func_clon.parametros_genericos.len()
            invariant
                gs == func_clon.parametros_genericos@,
                i <= gs.len(),
                partes@.len() == i,
                claves_unicas(sust_consts@),
                claves_unicas(sust_tipos@),
                cs == mapa_de(sust_consts@),
                ts == mapa_de(sust_tipos@),
                forall|k: int| 0 <= k < i ==> (#[trigger] partes@[k])@ == parte_de_nombre(gs[k], cs, ts),
            decreases gs.len() - i,
        {
            let gen = &func_clon.parametros_genericos[i];
            let parte = if gen.tipo.is_some() {
                match obtener(sust_consts, gen.nombre.as_str()) {
                    Some(valor) => valor.clone(),
                    None => gen.nombre.clone(),
                }
            } else {
                match obtener(sust_tipos, gen.nombre.as_str()) {
                    Some(t) => self.nombre_tipo_instancia(t),
                    None => gen.nombre.clone(),
                }
            };
            partes.push(parte);
            i = i + 1;
        }
        proof {
            assert(partes@.map_values(|s: String| s@) =~= gs.map_values(
                |g: ParametroGenerico| parte_de_nombre(g, cs, ts),
            ));
        }
        let mut nombre = func_clon.nombre.clone();
        agregar(&mut nombre, "_");
        agregar(&mut nombre, unir(&partes, "_").as_str());
        func_clon.nombre = nombre;
        func_clon.parametros_genericos = Vec::new();
        // Sustituciones en los parámetros
        let ghost params = func_clon.parametros@;
        let mut j: usize = 0;
        while j < func_clon.parametros.len()
            invariant
                params == generica.parametros@,
                func_clon.parametros@.len() == params.len(),
                j <= params.len(),
                claves_unicas(sust_consts@),
                claves_unicas(sust_tipos@),
                cs == mapa_de(sust_consts@),
                ts == mapa_de(sust_tipos@),
                forall|k: int|
                    0 <= k < j ==> {
                        let rp = #[trigger] func_clon.parametros@[k];
                        let p = params[k];
                        rp.articulo == p.articulo && rp.nombre == p.nombre && rp.span == p.span
                            && sustituye(rp.tipo, p.tipo, cs, ts)
                    },
                forall|k: int| j <= k < params.len() ==> #[trigger] func_clon.parametros@[k] == params[k],
                func_clon.nombre@ == nombre_especializado(generica.nombre@, gs, cs, ts),
                func_clon.parametros_genericos@.len() == 0,
                func_clon.retorno == generica.retorno,
                func_clon.cuerpo == generica.cuerpo,
                func_clon.es_insegura == generica.es_insegura,
                func_clon.nivel_verificacion == generica.nivel_verificacion,
                func_clon.efecto == generica.efecto,
                func_clon.visibilidad == generica.visibilidad,
                func_clon.es_futuro == generica.es_futuro,
                func_clon.span == generica.span,
            decreases params.len() - j,
        {
            self.sustituir_tipo(&mut func_clon.parametros[j].tipo, sust_consts, sust_tipos);
            j = j + 1;
        }
        // Sustituciones en el retorno
        if let Some(ret) = &mut func_clon.retorno {
            self.sustituir_tipo(ret, sust_consts, sust_tipos);
        }
        // Sustituciones en el cuerpo
        self.sustituir_en_sentencias(&mut func_clon.cuerpo.sentencias, sust_consts, sust_tipos);
        func_clon
    }
}

/// `equivale` es simétrica.
pub proof fn lema_equivale_simetrica(a: Tipo, b: Tipo)
    requires
        a.equivale(b),
    ensures
        b.equivale(a),
    decreases a,
{
    match (a, b) {
        (Tipo::Puntero(x), Tipo::Puntero(y)) | (Tipo::Referencia(x), Tipo::Referencia(y))
        | (Tipo::ReferenciaMut(x), Tipo::ReferenciaMut(y)) | (Tipo::ReferenciaSelf(x), Tipo::ReferenciaSelf(y))
        | (Tipo::ReferenciaMutSelf(x), Tipo::ReferenciaMutSelf(y)) | (Tipo::Vector(x), Tipo::Vector(y))
        | (Tipo::Conjunto(x), Tipo::Conjunto(y)) | (Tipo::Array(x, _), Tipo::Array(y, _))
        | (Tipo::ArrayGenerico(x, _), Tipo::ArrayGenerico(y, _))
        | (Tipo::ReferenciaConLifetime(_, x), Tipo::ReferenciaConLifetime(_, y))
        | (Tipo::ReferenciaMutConLifetime(_, x), Tipo::ReferenciaMutConLifetime(_, y)) => {
            lema_equivale_simetrica(*x, *y);
        },
        (Tipo::Resultado(x, z), Tipo::Resultado(y, w)) | (Tipo::Diccionario(x, z), Tipo::Diccionario(y, w)) => {
            lema_equivale_simetrica(*x, *y);
            lema_equivale_simetrica(*z, *w);
        },
        (Tipo::NombreGenerico(_, xs), Tipo::NombreGenerico(_, ys)) => {
            assert forall|i: int| 0 <= i < ys@.len() implies (#[trigger] ys@[i]).equivale(xs@[i]) by {
                lema_equivale_simetrica(xs@[i], ys@[i]);
            }
        },
        _ => {},
    }
}

/// `equivale` es transitiva.
pub proof fn lema_equivale_transitiva(a: Tipo, b: Tipo, c: Tipo)
    requires
        a.equivale(b),
        b.equivale(c),
    ensures
        a.equivale(c),
    decreases a,
{
    match (a, b, c) {
        (Tipo::Puntero(x), Tipo::Puntero(y), Tipo::Puntero(z)) | (Tipo::Referencia(x), Tipo::Referencia(y), Tipo::Referencia(z))
        | (Tipo::ReferenciaMut(x), Tipo::ReferenciaMut(y), Tipo::ReferenciaMut(z))
        | (Tipo::ReferenciaSelf(x), Tipo::ReferenciaSelf(y), Tipo::ReferenciaSelf(z))
        | (Tipo::ReferenciaMutSelf(x), Tipo::ReferenciaMutSelf(y), Tipo::ReferenciaMutSelf(z))
        | (Tipo::Vector(x), Tipo::Vector(y), Tipo::Vector(z)) | (Tipo::Conjunto(x), Tipo::Conjunto(y), Tipo::Conjunto(z))
        | (Tipo::Array(x, _), Tipo::Array(y, _), Tipo::Array(z, _))
        | (Tipo::ArrayGenerico(x, _), Tipo::ArrayGenerico(y, _), Tipo::ArrayGenerico(z, _))
        | (Tipo::ReferenciaConLifetime(_, x), Tipo::ReferenciaConLifetime(_, y), Tipo::ReferenciaConLifetime(_, z))
        | (Tipo::ReferenciaMutConLifetime(_, x), Tipo::ReferenciaMutConLifetime(_, y), Tipo::ReferenciaMutConLifetime(_, z)) => {
            lema_equivale_transitiva(*x, *y, *z);
        },
        (Tipo::Resultado(x, p), Tipo::Resultado(y, q), Tipo::Resultado(z, w))
        | (Tipo::Diccionario(x, p), Tipo::Diccionario(y, q), Tipo::Diccionario(z, w)) => {
            lema_equivale_transitiva(*x, *y, *z);
            lema_equivale_transitiva(*p, *q, *w);
        },
        (Tipo::NombreGenerico(_, xs), Tipo::NombreGenerico(_, ys), Tipo::NombreGenerico(_, zs)) => {
            assert forall|i: int| 0 <= i < xs@.len() implies (#[trigger] xs@[i]).equivale(zs@[i]) by {
                lema_equivale_transitiva(xs@[i], ys@[i], zs@[i]);
            }
        },
        _ => {},
    }
}

/// Igualdad de tipos: la misma forma, los mismos nombres y los mismos argumentos.
pub fn tipos_iguales(a: &Tipo, b: &Tipo) -> (r: bool)
    ensures
        r == a.equivale(*b),
    decreases a,
{
    match (a, b) {
        (Tipo::Puntero(x), Tipo::Puntero(y)) => tipos_iguales(x, y),
        (Tipo::Referencia(x), Tipo::Referencia(y)) => tipos_iguales(x, y),
        (Tipo::ReferenciaMut(x), Tipo::ReferenciaMut(y)) => tipos_iguales(x, y),
        (Tipo::ReferenciaConLifetime(n, x), Tipo::ReferenciaConLifetime(m, y)) => n.eq(m) && tipos_iguales(x, y),
        (Tipo::ReferenciaMutConLifetime(n, x), Tipo::ReferenciaMutConLifetime(m, y)) => n.eq(m) && tipos_iguales(x, y),
        (Tipo::ReferenciaSelf(x), Tipo::ReferenciaSelf(y)) => tipos_iguales(x, y),
        (Tipo::ReferenciaMutSelf(x), Tipo::ReferenciaMutSelf(y)) => tipos_iguales(x, y),
        (Tipo::Array(x, n), Tipo::Array(y, m)) => *n == *m && tipos_iguales(x, y),
        (Tipo::ArrayGenerico(x, n), Tipo::ArrayGenerico(y, m)) => n.eq(m) && tipos_iguales(x, y),
        (Tipo::Vector(x), Tipo::Vector(y)) => tipos_iguales(x, y),
        (Tipo::Resultado(x, z), Tipo::Resultado(y, w)) => tipos_iguales(x, y) && tipos_iguales(z, w),
        (Tipo::Diccionario(x, z), Tipo::Diccionario(y, w)) => tipos_iguales(x, y) && tipos_iguales(z, w),
        (Tipo::Conjunto(x), Tipo::Conjunto(y)) => tipos_iguales(x, y),
        (Tipo::Generico(n), Tipo::Generico(m)) => n.eq(m),
        (Tipo::Nombre(n), Tipo::Nombre(m)) => n.eq(m),
        (Tipo::NombreGenerico(n, xs), Tipo::NombreGenerico(m, ys)) => {
            if !n.eq(m) || xs.len() != ys.len() {
                return false;
            }
            let mut i: usize = 0;
            while i < xs.len()
                invariant
                    *a is NombreGenerico,
                    a->NombreGenerico_1 == *xs,
                    *b is NombreGenerico,
                    b->NombreGenerico_1 == *ys,
                    xs@.len() == ys@.len(),
                    i <= xs@.len(),
                    forall|k: int| 0 <= k < i ==> (#[trigger] xs@[k]).equivale(ys@[k]),
                decreases xs@.len() - i,
            {
                proof {
                    vstd::std_specs::vec::axiom_vec_index_decreases(*xs, i as int);
                    assert(decreases_to!(*a => a->NombreGenerico_1));
                }
                if !tipos_iguales(&xs[i], &ys[i]) {
                    return false;
                }
                i = i + 1;
            }
            true
        },
        (Tipo::Entero8, Tipo::Entero8) => true,
        (Tipo::Entero16, Tipo::Entero16) => true,
        (Tipo::Entero32, Tipo::Entero32) => true,
        (Tipo::Entero64, Tipo::Entero64) => true,
        (Tipo::Natural8, Tipo::Natural8) => true,
        (Tipo::Natural16, Tipo::Natural16) => true,
        (Tipo::Natural32, Tipo::Natural32) => true,
        (Tipo::Natural64, Tipo::Natural64) => true,
        (Tipo::Flotante32, Tipo::Flotante32) => true,
        (Tipo::Flotante64, Tipo::Flotante64) => true,
        (Tipo::Booleano, Tipo::Booleano) => true,
        (Tipo::Caracter, Tipo::Caracter) => true,
        (Tipo::Palabra, Tipo::Palabra) => true,
        (Tipo::Texto, Tipo::Texto) => true,
        (Tipo::Vacio, Tipo::Vacio) => true,
        _ => false,
    }
}

/// ¿Aparece el genérico en el tipo (como tipo o como longitud de array)?
pub open spec fn contiene_generico(t: Tipo, n: Seq<char>) -> bool
    decreases t,
{
    match t {
        Tipo::Generico(x) => x@ == n,
        Tipo::ArrayGenerico(e, x) => x@ == n || contiene_generico(*e, n),
        Tipo::Array(e, _) => contiene_generico(*e, n),
        Tipo::Vector(e) => contiene_generico(*e, n),
        Tipo::Puntero(e) => contiene_generico(*e, n),
        Tipo::Referencia(e) => contiene_generico(*e, n),
        Tipo::NombreGenerico(_, args) => exists|i: int| 0 <= i < args@.len() && contiene_generico(#[trigger] args@[i], n),
        _ => false,
    }
}

/// Tipos equivalentes contienen los mismos genéricos.
proof fn lema_equivale_contiene(a: Tipo, b: Tipo, n: Seq<char>)
    requires
        a.equivale(b),
    ensures
        contiene_generico(a, n) == contiene_generico(b, n),
    decreases a,
{
    match (a, b) {
        (Tipo::Puntero(x), Tipo::Puntero(y)) | (Tipo::Referencia(x), Tipo::Referencia(y))
        | (Tipo::Vector(x), Tipo::Vector(y)) | (Tipo::Array(x, _), Tipo::Array(y, _))
        | (Tipo::ArrayGenerico(x, _), Tipo::ArrayGenerico(y, _)) => {
            lema_equivale_contiene(*x, *y, n);
        },
        (Tipo::NombreGenerico(_, xs), Tipo::NombreGenerico(_, ys)) => {
            assert forall|i: int| 0 <= i < xs@.len() implies contiene_generico(#[trigger] xs@[i], n)
                == contiene_generico(ys@[i], n) by {
                lema_equivale_contiene(xs@[i], ys@[i], n);
            }
            if contiene_generico(b, n) {
                let i = choose|i: int| 0 <= i < ys@.len() && contiene_generico(#[trigger] ys@[i], n);
                assert(contiene_generico(xs@[i], n));
            }
        },
        _ => {},
    }
}

/// La sustitución deja el genérico `n` en su resultado por alguna de las dos vías que no lo
/// sustituyen: un array de tamaño genérico cuyo tamaño se fija y cuyo tipo de elemento
/// contiene `n` (el elemento se conserva tal cual), o un array cuyo tamaño genérico es `n`
/// y no se fija.
pub open spec fn conserva_generico(t: Tipo, cs: Map<Seq<char>, Seq<char>>, n: Seq<char>) -> bool
    decreases t,
{
    match t {
        Tipo::ArrayGenerico(e, x) => if cs.contains_key(x@) && natural_de(cs[x@]) is Some {
            contiene_generico(*e, n)
        } else {
            x@ == n || conserva_generico(*e, cs, n)
        },
        Tipo::Array(e, _) => conserva_generico(*e, cs, n),
        Tipo::Vector(e) => conserva_generico(*e, cs, n),
        Tipo::Puntero(e) => conserva_generico(*e, cs, n),
        Tipo::Referencia(e) => conserva_generico(*e, cs, n),
        Tipo::NombreGenerico(_, args) => exists|i: int|
            0 <= i < args@.len() && conserva_generico(#[trigger] args@[i], cs, n),
        _ => false,
    }
}

/// La monomorfización elimina un parámetro genérico de tipo: si `n` tiene valor en la
/// sustitución de tipos y ningún valor de la sustitución lo menciona, el tipo sustituido ya
/// no contiene `n`, salvo por las vías de `conserva_generico`.
pub proof fn ley_monomorfizacion(
    r: Tipo,
    t: Tipo,
    cs: Map<Seq<char>, Seq<char>>,
    ts: Map<Seq<char>, Tipo>,
    n: Seq<char>,
)
    requires
        sustituye(r, t, cs, ts),
        ts.contains_key(n),
        forall|k: Seq<char>| #[trigger] ts.contains_key(k) ==> !contiene_generico(ts[k], n),
        !conserva_generico(t, cs, n),
    ensures
        !contiene_generico(r, n),
    decreases t,
{
    match t {
        Tipo::Generico(x) => {
            if ts.contains_key(x@) {
                lema_equivale_contiene(r, ts[x@], n);
            } else {
                lema_equivale_contiene(r, t, n);
            }
        },
        Tipo::ArrayGenerico(e, x) => {
            if cs.contains_key(x@) && natural_de(cs[x@]) is Some {
                let re = match r { Tipo::Array(re, _) => *re, _ => r };
                lema_equivale_contiene(re, *e, n);
            } else {
                let re = match r { Tipo::ArrayGenerico(re, _) => *re, _ => r };
                ley_monomorfizacion(re, *e, cs, ts, n);
            }
        },
        Tipo::Array(e, _) => {
            let re = match r { Tipo::Array(re, _) => *re, _ => r };
            ley_monomorfizacion(re, *e, cs, ts, n);
        },
        Tipo::Vector(e) => {
            let re = match r { Tipo::Vector(re) => *re, _ => r };
            ley_monomorfizacion(re, *e, cs, ts, n);
        },
        Tipo::Puntero(e) => {
            let re = match r { Tipo::Puntero(re) => *re, _ => r };
            ley_monomorfizacion(re, *e, cs, ts, n);
        },
        Tipo::Referencia(e) => {
            let re = match r { Tipo::Referencia(re) => *re, _ => r };
            ley_monomorfizacion(re, *e, cs, ts, n);
        },
        Tipo::NombreGenerico(_, args) => {
            let rargs = match r { Tipo::NombreGenerico(_, ra) => ra@, _ => Seq::empty() };
            assert forall|i: int| 0 <= i < rargs.len() implies !contiene_generico(#[trigger] rargs[i], n) by {
                assert(!conserva_generico(args@[i], cs, n));
                ley_monomorfizacion(rargs[i], args@[i], cs, ts, n);
            }
        },
        _ => {},
    }
}

/// El tipo concreto que ocupa el lugar del genérico `n` de `param` en `arg`, si las formas
/// coinciden.
pub open spec fn extraccion(arg: Tipo, n: Seq<char>, param: Tipo) -> Option<Tipo>
    decreases param,
{
    match param {
        Tipo::Generico(x) => if x@ == n {
            Some(arg)
        } else {
            None
        },
        Tipo::ArrayGenerico(ep, _) => match arg {
            Tipo::Array(ea, k) => match extraccion(*ea, n, *ep) {
                Some(t) => Some(Tipo::Array(Box::new(t), k)),
                None => None,
            },
            _ => None,
        },
        Tipo::Array(ep, _) => match arg {
            Tipo::Array(ea, k) => match extraccion(*ea, n, *ep) {
                Some(t) => Some(Tipo::Array(Box::new(t), k)),
                None => None,
            },
            _ => None,
        },
        Tipo::Vector(ep) => match arg {
            Tipo::Vector(ea) => match extraccion(*ea, n, *ep) {
                Some(t) => Some(Tipo::Vector(Box::new(t))),
                None => None,
            },
            _ => None,
        },
        Tipo::Puntero(ep) => match arg {
            Tipo::Puntero(ea) => match extraccion(*ea, n, *ep) {
                Some(t) => Some(Tipo::Puntero(Box::new(t))),
                None => None,
            },
            _ => None,
        },
        Tipo::Referencia(ep) => match arg {
            Tipo::Referencia(ea) => match extraccion(*ea, n, *ep) {
                Some(t) => Some(Tipo::Referencia(Box::new(t))),
                None => None,
            },
            _ => None,
        },
        Tipo::ReferenciaSelf(ep) => match arg {
            Tipo::ReferenciaSelf(ea) => match extraccion(*ea, n, *ep) {
                Some(t) => Some(Tipo::ReferenciaSelf(Box::new(t))),
                None => None,
            },
            _ => None,
        },
        Tipo::ReferenciaMutSelf(ep) => match arg {
            Tipo::ReferenciaMutSelf(ea) => match extraccion(*ea, n, *ep) {
                Some(t) => Some(Tipo::ReferenciaMutSelf(Box::new(t))),
                None => None,
            },
            _ => None,
        },
        Tipo::NombreGenerico(_, args_param) => match arg {
            Tipo::NombreGenerico(_, args_arg) => extraccion_en_args(args_arg@, n, args_param@),
            _ => None,
        },
        _ => None,
    }
}

/// La primera extracción que resulta, recorriendo a la par los argumentos de tipo.
pub open spec fn extraccion_en_args(aas: Seq<Tipo>, n: Seq<char>, aps: Seq<Tipo>) -> Option<Tipo>
    decreases aps,
{
    if aps.len() == 0 || aas.len() == 0 {
        None
    } else {
        match extraccion(aas[0], n, aps[0]) {
            Some(t) => Some(t),
            None => extraccion_en_args(aas.drop_first(), n, aps.drop_first()),
        }
    }
}

/// Las dos opciones faltan, o están las dos con tipos equivalentes.
pub open spec fn opciones_equivalentes(a: Option<Tipo>, b: Option<Tipo>) -> bool {
    match (a, b) {
        (Some(x), Some(y)) => x.equivale(y),
        (None, None) => true,
        _ => false,
    }
}

/// Longitud del array, si el tipo es un array de longitud fija.
pub open spec fn valor_generico(t: Tipo) -> Option<usize> {
    match t {
        Tipo::Array(_, n) => Some(n),
        _ => None,
    }
}

/// Tipo que el codegen da a una llamada según la función llamada.
pub open spec fn tipo_de_llamada(f: Seq<char>) -> Tipo {
    if f == "como_entero64"@ || f == "texto_a_puntero"@ || f == "direccion_de"@ || f == "dir_de"@ {
        Tipo::Entero64
    } else if f == "texto_nuevo"@ || f == "texto_desde"@ || f == "texto_concatenar"@ || f == "texto_subtexto"@ {
        Tipo::Texto
    } else if f == "archivo_leer"@ {
        Tipo::Texto
    } else if f == "vector_nuevo"@ {
        Tipo::Vector(Box::new(Tipo::Entero32))
    } else if f == "canal_nuevo"@ || f == "tcp_vincular"@ || f == "tcp_aceptar"@ {
        Tipo::Entero64
    } else if f == "abs"@ || f == "max"@ || f == "min"@ || f == "texto_longitud"@ || f == "texto_comparar"@
        || f == "archivo_escribir"@ || f == "tamano_de"@ {
        Tipo::Entero32
    } else if f == "raiz"@ || f == "potencia"@ {
        Tipo::Flotante64
    } else if f == "archivo_existe"@ || f == "texto_obtener_byte"@ {
        Tipo::Entero8
    } else if f.len() >= 3 && f.take(3) == "fc_"@ {
        Tipo::Entero64
    } else {
        Tipo::Entero32
    }
}

/// Tipo que el codegen infiere para una expresión, con los tipos de las variables.
pub open spec fn inferido(e: Expresion, vars: Map<Seq<char>, Tipo>) -> Tipo
    decreases e,
{
    match e {
        Expresion::Literal(lit) => match lit {
            Literal::Entero(_, _) => Tipo::Entero32,
            Literal::Flotante(_, _) => Tipo::Flotante64,
            Literal::Palabra(_, _) => Tipo::Palabra,
            Literal::Caracter(_, _) => Tipo::Caracter,
            Literal::Booleano(_, _) => Tipo::Booleano,
        },
        Expresion::Identificador(n, _) => if vars.contains_key(n@) {
            vars[n@]
        } else {
            Tipo::Entero32
        },
        Expresion::AccesoArray(a, _, _) => match inferido(*a, vars) {
            Tipo::Array(t, _) => *t,
            _ => Tipo::Entero32,
        },
        Expresion::ConstructorEnum(en, _, _, _) => if en@ == "Resultado"@ {
            Tipo::Resultado(Box::new(Tipo::Entero32), Box::new(Tipo::Entero32))
        } else {
            Tipo::Nombre(en)
        },
        Expresion::Llamada(ll) => tipo_de_llamada(ll.funcion@),
        Expresion::DireccionDe(_, _) => Tipo::Entero64,
        _ => Tipo::Entero32,
    }
}

impl Codegen {
    /// ¿Aparece el genérico en el tipo?
    pub fn tipo_contiene_generico(&self, tipo: &Tipo, nombre_generico: &str) -> (r: bool)
        ensures
            r == contiene_generico(*tipo, nombre_generico@),
        decreases tipo,
    {
        match tipo {
            Tipo::Generico(n) => es_texto(n, nombre_generico),
            Tipo::ArrayGenerico(t, n) => es_texto(n, nombre_generico) || self.tipo_contiene_generico(t, nombre_generico),
            Tipo::Array(t, _) => self.tipo_contiene_generico(t, nombre_generico),
            Tipo::Vector(t) => self.tipo_contiene_generico(t, nombre_generico),
            Tipo::Puntero(t) => self.tipo_contiene_generico(t, nombre_generico),
            Tipo::Referencia(t) => self.tipo_contiene_generico(t, nombre_generico),
            Tipo::NombreGenerico(_, args) => {
                let mut i: usize = 0;
                while i < args.len()
                    invariant
                        *tipo is NombreGenerico,
                        tipo->NombreGenerico_1 == *args,
                        i <= args@.len(),
                        forall|k: int| 0 <= k < i ==> !contiene_generico(#[trigger] args@[k], nombre_generico@),
                    decreases args@.len() - i,
                {
                    proof {
                        vstd::std_specs::vec::axiom_vec_index_decreases(*args, i as int);
                        assert(decreases_to!(*tipo => tipo->NombreGenerico_1));
                    }
                    if self.tipo_contiene_generico(&args[i], nombre_generico) {
                        return true;
                    }
                    i = i + 1;
                }
                false
            },
            _ => false,
        }
    }

    /// Longitud del array si el tipo es un array de longitud fija.
    pub fn extraer_valor_generico(&self, tipo: &Tipo, nombre_generico: &str) -> (r: Option<usize>)
        ensures
            r == valor_generico(*tipo),
    {
        match tipo {
            Tipo::Array(_, n) => Some(*n),
            _ => None,
        }
    }
}

/// La inferencia del tipo de un genérico a partir de los argumentos, desde el parámetro
/// `k` y con lo inferido hasta ahí: cada parámetro que contiene el genérico aporta lo que
/// ocupa su lugar en el tipo del argumento; dos aportes distintos dan `None`.
pub open spec fn inferencia_generica(
    ps: Seq<Parametro>,
    es: Seq<Expresion>,
    vars: Map<Seq<char>, Tipo>,
    n: Seq<char>,
    k: int,
    acc: Option<Tipo>,
) -> Option<Tipo>
    decreases ps.len() - k,
{
    if k < 0 || k >= ps.len() || k >= es.len() {
        acc
    } else if contiene_generico(ps[k].tipo, n) {
        match extraccion(inferido(es[k], vars), n, ps[k].tipo) {
            Some(t) => match acc {
                Some(prev) => if !prev.equivale(t) {
                    None
                } else {
                    inferencia_generica(ps, es, vars, n, k + 1, acc)
                },
                None => inferencia_generica(ps, es, vars, n, k + 1, Some(t)),
            },
            None => inferencia_generica(ps, es, vars, n, k + 1, acc),
        }
    } else {
        inferencia_generica(ps, es, vars, n, k + 1, acc)
    }
}

/// El valor de una constante genérica: la longitud del primer argumento que es un array
/// de longitud fija donde el parámetro contiene el genérico.
pub open spec fn const_inferida(
    ps: Seq<Parametro>,
    es: Seq<Expresion>,
    vars: Map<Seq<char>, Tipo>,
    n: Seq<char>,
    k: int,
) -> Option<usize>
    decreases ps.len() - k,
{
    if k < 0 || k >= ps.len() || k >= es.len() {
        None
    } else if contiene_generico(ps[k].tipo, n) && valor_generico(inferido(es[k], vars)) is Some {
        valor_generico(inferido(es[k], vars))
    } else {
        const_inferida(ps, es, vars, n, k + 1)
    }
}

impl Codegen {
    /// El tipo concreto que ocupa el lugar del genérico dentro del tipo del argumento.
    pub fn extraer_tipo_generico(&self, tipo_arg: &Tipo, nombre_generico: &str, param_tipo: &Tipo) -> (r: Option<Tipo>)
        ensures
            opciones_equivalentes(r, extraccion(*tipo_arg, nombre_generico@, *param_tipo)),
        decreases param_tipo,
    {
        match param_tipo {
            Tipo::Generico(n) => {
                if es_texto(n, nombre_generico) {
                    Some(tipo_arg.clone())
                } else {
                    None
                }
            },
            Tipo::ArrayGenerico(p, _) | Tipo::Array(p, _) => match tipo_arg {
                Tipo::Array(a, n) => match self.extraer_tipo_generico(a, nombre_generico, p) {
                    Some(t) => Some(Tipo::Array(Box::new(t), *n)),
                    None => None,
                },
                _ => None,
            },
            Tipo::Vector(p) => match tipo_arg {
                Tipo::Vector(a) => match self.extraer_tipo_generico(a, nombre_generico, p) {
                    Some(t) => Some(Tipo::Vector(Box::new(t))),
                    None => None,
                },
                _ => None,
            },
            Tipo::Puntero(p) => match tipo_arg {
                Tipo::Puntero(a) => match self.extraer_tipo_generico(a, nombre_generico, p) {
                    Some(t) => Some(Tipo::Puntero(Box::new(t))),
                    None => None,
                },
                _ => None,
            },
            Tipo::Referencia(p) => match tipo_arg {
                Tipo::Referencia(a) => match self.extraer_tipo_generico(a, nombre_generico, p) {
                    Some(t) => Some(Tipo::Referencia(Box::new(t))),
                    None => None,
                },
                _ => None,
            },
            Tipo::ReferenciaSelf(p) => match tipo_arg {
                Tipo::ReferenciaSelf(a) => match self.extraer_tipo_generico(a, nombre_generico, p) {
                    Some(t) => Some(Tipo::ReferenciaSelf(Box::new(t))),
                    None => None,
                },
                _ => None,
            },
            Tipo::ReferenciaMutSelf(p) => match tipo_arg {
                Tipo::ReferenciaMutSelf(a) => match self.extraer_tipo_generico(a, nombre_generico, p) {
                    Some(t) => Some(Tipo::ReferenciaMutSelf(Box::new(t))),
                    None => None,
                },
                _ => None,
            },
            Tipo::NombreGenerico(_, args_param) => match tipo_arg {
                Tipo::NombreGenerico(_, args_arg) => {
                    let mut i: usize = 0;
                    proof {
                        assert(args_arg@.skip(0) =~= args_arg@);
                        assert(args_param@.skip(0) =~= args_param@);
                    }
                    while i < args_param.len() && i < args_arg.len()
                        invariant
                            *param_tipo is NombreGenerico,
                            param_tipo->NombreGenerico_1 == *args_param,
                            *tipo_arg is NombreGenerico,
                            tipo_arg->NombreGenerico_1 == *args_arg,
                            i <= args_param@.len(),
                            i <= args_arg@.len(),
                            extraccion_en_args(args_arg@, nombre_generico@, args_param@) == extraccion_en_args(
                                args_arg@.skip(i as int),
                                nombre_generico@,
                                args_param@.skip(i as int),
                            ),
                        decreases args_param@.len() - i,
                    {
                        proof {
                            vstd::std_specs::vec::axiom_vec_index_decreases(*args_param, i as int);
                            assert(decreases_to!(*param_tipo => param_tipo->NombreGenerico_1));
                            assert(args_arg@.skip(i as int)[0] == args_arg@[i as int]);
                            assert(args_param@.skip(i as int)[0] == args_param@[i as int]);
                            assert(args_arg@.skip(i as int).drop_first() =~= args_arg@.skip(i + 1));
                            assert(args_param@.skip(i as int).drop_first() =~= args_param@.skip(i + 1));
                        }
                        if let Some(t) = self.extraer_tipo_generico(&args_arg[i], nombre_generico, &args_param[i]) {
                            return Some(t);
                        }
                        i = i + 1;
                    }
                    None
                },
                _ => None,
            },
            _ => None,
        }
    }

    /// Tipo que se infiere para una expresión, con los tipos de las variables.
    pub fn inferir_tipo(&self, expr: &Expresion, variables: &Vec<(String, Tipo)>) -> (r: Tipo)
        requires
            claves_unicas(variables@),
        ensures
            r.equivale(inferido(*expr, mapa_de(variables@))),
        decreases expr,
    {
        match expr {
            Expresion::Literal(lit) => match lit {
                Literal::Entero(_, _) => Tipo::Entero32,
                Literal::Flotante(_, _) => Tipo::Flotante64,
                Literal::Palabra(_, _) => Tipo::Palabra,
                Literal::Caracter(_, _) => Tipo::Caracter,
                Literal::Booleano(_, _) => Tipo::Booleano,
            },
            Expresion::Identificador(nombre, _) => match obtener(variables, nombre.as_str()) {
                Some(t) => t.clone(),
                None => Tipo::Entero32,
            },
            Expresion::AccesoArray(array, _, _) => {
                let tipo_array = self.inferir_tipo(array, variables);
                match tipo_array {
                    Tipo::Array(t, _) => *t,
                    _ => Tipo::Entero32,
                }
            },
            Expresion::Binaria(_, _, _, _) => Tipo::Entero32,
            Expresion::ConstructorEnum(enum_nombre, _, _, _) => {
                // Resultado: por defecto Entero32 en los dos parámetros
                if es_texto(enum_nombre, "Resultado") {
                    let r = Tipo::Resultado(Box::new(Tipo::Entero32), Box::new(Tipo::Entero32));
                    proof {
                        lema_equivale_reflexiva(r);
                    }
                    r
                } else {
                    let r = Tipo::Nombre(enum_nombre.clone());
                    r
                }
            },
            Expresion::Llamada(llamada) => {
                let r = tipo_de_funcion(&llamada.funcion);
                proof {
                    lema_equivale_reflexiva(r);
                }
                r
            },
            Expresion::DireccionDe(_, _) => Tipo::Entero64,
            _ => Tipo::Entero32,
        }
    }
}

/// Tipo que el codegen da a una llamada según la función llamada.
fn tipo_de_funcion(f: &String) -> (r: Tipo)
    ensures
        r == tipo_de_llamada(f@),
{
    if es_texto(f, "como_entero64") || es_texto(f, "texto_a_puntero") || es_texto(f, "direccion_de") || es_texto(f, "dir_de") {
        Tipo::Entero64
    } else if es_texto(f, "texto_nuevo") || es_texto(f, "texto_desde") || es_texto(f, "texto_concatenar") || es_texto(f, "texto_subtexto") {
        Tipo::Texto
    } else if es_texto(f, "archivo_leer") {
        Tipo::Texto
    } else if es_texto(f, "vector_nuevo") {
        Tipo::Vector(Box::new(Tipo::Entero32))
    } else if es_texto(f, "canal_nuevo") || es_texto(f, "tcp_vincular") || es_texto(f, "tcp_aceptar") {
        Tipo::Entero64
    } else if es_texto(f, "abs") || es_texto(f, "max") || es_texto(f, "min") || es_texto(f, "texto_longitud")
        || es_texto(f, "texto_comparar") || es_texto(f, "archivo_escribir") || es_texto(f, "tamano_de") {
        Tipo::Entero32
    } else if es_texto(f, "raiz") || es_texto(f, "potencia") {
        Tipo::Flotante64
    } else if es_texto(f, "archivo_existe") || es_texto(f, "texto_obtener_byte") {
        Tipo::Entero8
    } else {
        // Funciones del trampolín C (`fc_`) devuelven punteros
        let cs = caracteres(f.as_str());
        let es_fc = cs.len() >= 3 && cs[0] == 'f' && cs[1] == 'c' && cs[2] == '_';
        proof {
            reveal_strlit("fc_");
            if f@.len() >= 3 {
                if f@.take(3) == "fc_"@ {
                    assert(f@.take(3)[0] == 'f' && f@.take(3)[1] == 'c' && f@.take(3)[2] == '_');
                }
                if es_fc {
                    assert(f@.take(3) =~= "fc_"@);
                }
            }
        }
        if es_fc {
            Tipo::Entero64
        } else {
            Tipo::Entero32
        }
    }
}

/// Tipos equivalentes tienen la misma longitud de array.
proof fn lema_valor_equivalente(a: Tipo, b: Tipo)
    requires
        a.equivale(b),
    ensures
        valor_generico(a) == valor_generico(b),
{
}

impl Codegen {
    /// Infiere el tipo concreto de un genérico de tipo a partir de los argumentos de una
    /// llamada; `None` si no se puede o si dos argumentos dan tipos distintos.
    pub fn inferir_tipo_generico(
        &self,
        parametros: &Vec<Parametro>,
        argumentos: &Vec<Expresion>,
        variables: &Vec<(String, Tipo)>,
        nombre_generico: &str,
    ) -> (r: Option<Tipo>)
        requires
            claves_unicas(variables@),
        ensures
            opciones_equivalentes(
                r,
                inferencia_generica(parametros@, argumentos@, mapa_de(variables@), nombre_generico@, 0, None),
            ),
    {
        let ghost vars = mapa_de(variables@);
        let ghost n = nombre_generico@;
        let mut resultado: Option<Tipo> = None;
        let ghost mut acc: Option<Tipo> = None;
        let mut i: usize = 0;
        while i < parametros.len() && i < argumentos.len()
            invariant
                claves_unicas(variables@),
                vars == mapa_de(variables@),
                n == nombre_generico@,
                i <= parametros@.len(),
                i <= argumentos@.len(),
                opciones_equivalentes(resultado, acc),
                inferencia_generica(parametros@, argumentos@, vars, n, 0, None) == inferencia_generica(
                    parametros@,
                    argumentos@,
                    vars,
                    n,
                    i as int,
                    acc,
                ),
            decreases parametros@.len() - i,
        {
            let param = &parametros[i];
            let arg = &argumentos[i];
            if self.tipo_contiene_generico(&param.tipo, nombre_generico) {
                let tipo_arg = self.inferir_tipo(arg, variables);
                let extraido = self.extraer_tipo_generico(&tipo_arg, nombre_generico, &param.tipo);
                proof {
                    lema_extraccion_equivalente(tipo_arg, inferido(argumentos@[i as int], vars), n, param.tipo);
                }
                if let Some(tipo_inferido) = extraido {
                    let ghost t = extraccion(inferido(argumentos@[i as int], vars), n, param.tipo)->Some_0;
                    proof {
                        let u = extraccion(tipo_arg, n, param.tipo)->Some_0;
                        lema_equivale_transitiva(tipo_inferido, u, t);
                    }
                    match &resultado {
                        Some(prev) => {
                            let ghost p = acc->Some_0;
                            proof {
                                lema_equivale_iff(*prev, p, tipo_inferido, t);
                            }
                            if !tipos_iguales(prev, &tipo_inferido) {
                                // inconsistencia
                                return None;
                            }
                        },
                        None => {
                            proof {
                                acc = Some(t);
                            }
                            resultado = Some(tipo_inferido);
                        },
                    }
                }
            }
            i = i + 1;
        }
        resultado
    }

    /// Infiere el valor de una constante genérica: la longitud del primer argumento array de
    /// longitud fija cuyo parámetro contiene el genérico.
    pub fn inferir_const_generico(
        &self,
        parametros: &Vec<Parametro>,
        argumentos: &Vec<Expresion>,
        variables: &Vec<(String, Tipo)>,
        nombre_generico: &str,
    ) -> (r: Option<usize>)
        requires
            claves_unicas(variables@),
        ensures
            r == const_inferida(parametros@, argumentos@, mapa_de(variables@), nombre_generico@, 0),
    {
        let ghost vars = mapa_de(variables@);
        let mut i: usize = 0;
        while i < parametros.len() && i < argumentos.len()
            invariant
                claves_unicas(variables@),
                vars == mapa_de(variables@),
                i <= parametros@.len(),
                i <= argumentos@.len(),
                const_inferida(parametros@, argumentos@, vars, nombre_generico@, 0) == const_inferida(
                    parametros@,
                    argumentos@,
                    vars,
                    nombre_generico@,
                    i as int,
                ),
            decreases parametros@.len() - i,
        {
            if self.tipo_contiene_generico(&parametros[i].tipo, nombre_generico) {
                // Inferir del tipo del argumento
                let tipo_arg = self.inferir_tipo(&argumentos[i], variables);
                proof {
                    lema_valor_equivalente(tipo_arg, inferido(argumentos@[i as int], vars));
                }
                if let Some(valor) = self.extraer_valor_generico(&tipo_arg, nombre_generico) {
                    return Some(valor);
                }
            }
            i = i + 1;
        }
        None
    }
}

/// Con argumentos equivalentes, las extracciones son equivalentes.
proof fn lema_extraccion_equivalente(a: Tipo, b: Tipo, n: Seq<char>, p: Tipo)
    requires
        a.equivale(b),
    ensures
        opciones_equivalentes(extraccion(a, n, p), extraccion(b, n, p)),
    decreases p,
{
    match p {
        Tipo::Generico(_) => {},
        Tipo::ArrayGenerico(ep, _) | Tipo::Array(ep, _) => {
            if let (Tipo::Array(x, _), Tipo::Array(y, _)) = (a, b) {
                lema_extraccion_equivalente(*x, *y, n, *ep);
            }
        },
        Tipo::Vector(ep) => {
            if let (Tipo::Vector(x), Tipo::Vector(y)) = (a, b) {
                lema_extraccion_equivalente(*x, *y, n, *ep);
            }
        },
        Tipo::Puntero(ep) => {
            if let (Tipo::Puntero(x), Tipo::Puntero(y)) = (a, b) {
                lema_extraccion_equivalente(*x, *y, n, *ep);
            }
        },
        Tipo::Referencia(ep) => {
            if let (Tipo::Referencia(x), Tipo::Referencia(y)) = (a, b) {
                lema_extraccion_equivalente(*x, *y, n, *ep);
            }
        },
        Tipo::ReferenciaSelf(ep) => {
            if let (Tipo::ReferenciaSelf(x), Tipo::ReferenciaSelf(y)) = (a, b) {
                lema_extraccion_equivalente(*x, *y, n, *ep);
            }
        },
        Tipo::ReferenciaMutSelf(ep) => {
            if let (Tipo::ReferenciaMutSelf(x), Tipo::ReferenciaMutSelf(y)) = (a, b) {
                lema_extraccion_equivalente(*x, *y, n, *ep);
            }
        },
        Tipo::NombreGenerico(_, aps) => {
            if let (Tipo::NombreGenerico(_, xs), Tipo::NombreGenerico(_, ys)) = (a, b) {
                lema_extraccion_args_equivalente(xs@, ys@, n, aps@);
            }
        },
        _ => {},
    }
}

/// Con argumentos de tipo equivalentes, las extracciones en ellos son equivalentes.
proof fn lema_extraccion_args_equivalente(xs: Seq<Tipo>, ys: Seq<Tipo>, n: Seq<char>, aps: Seq<Tipo>)
    requires
        xs.len() == ys.len(),
        forall|i: int| 0 <= i < xs.len() ==> (#[trigger] xs[i]).equivale(ys[i]),
    ensures
        opciones_equivalentes(extraccion_en_args(xs, n, aps), extraccion_en_args(ys, n, aps)),
    decreases aps,
{
    if aps.len() > 0 && xs.len() > 0 {
        lema_extraccion_equivalente(xs[0], ys[0], n, aps[0]);
        assert forall|i: int| 0 <= i < xs.drop_first().len() implies (#[trigger] xs.drop_first()[i]).equivale(
            ys.drop_first()[i],
        ) by {
            assert(xs.drop_first()[i] == xs[i + 1]);
        }
        lema_extraccion_args_equivalente(xs.drop_first(), ys.drop_first(), n, aps.drop_first());
    }
}

/// Comparar dos tipos da lo mismo que comparar otros dos equivalentes a ellos.
proof fn lema_equivale_iff(a: Tipo, a2: Tipo, b: Tipo, b2: Tipo)
    requires
        a.equivale(a2),
        b.equivale(b2),
    ensures
        a.equivale(b) == a2.equivale(b2),
{
    lema_equivale_simetrica(a, a2);
    lema_equivale_simetrica(b, b2);
    if a.equivale(b) {
        lema_equivale_transitiva(a2, a, b);
        lema_equivale_transitiva(a2, b, b2);
    }
    if a2.equivale(b2) {
        lema_equivale_transitiva(a, a2, b2);
        lema_equivale_transitiva(a, b2, b);
    }
}

/// Ley del layout de un enum: el tamaño es múltiplo de 4 y los datos de cada variante caben
/// tras el tag de 4 bytes.
pub proof fn ley_layout_enum(ss: Map<Seq<char>, VistaStruct>, es: Map<Seq<char>, VistaEnum>, vs: Seq<Variante>, i: int)
    requires
        0 <= i < vs.len(),
    ensures
        alinear(4 + max_datos(ss, es, vs), 4) % 4 == 0,
        4 + tamano_datos(ss, es, vs[i]) <= alinear(4 + max_datos(ss, es, vs), 4),
{
    lema_max_datos(ss, es, vs, i);
    lema_max_datos(ss, es, vs, 0);
    assert(vs.take(0) =~= Seq::<Variante>::empty());
    lema_alinear_a(4 + max_datos(ss, es, vs), 4);
}

} // verus!
