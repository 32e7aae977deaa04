//! Arnés de pruebas: convierte las declaraciones `prueba "nombre" { ... }` de un programa en
//! funciones normales y genera un `principal` que las ejecuta en orden e informa de cada una.

use vstd::prelude::*;
use crate::ast::{
    Bloque, Declaracion, Efecto, Expresion, FuncionDecl, Literal, Llamada, NivelVerificacion,
    Programa, PruebaDecl, Sentencia, Tipo,
};
use crate::span::Span;
use crate::texto::{decimal, texto, agregar, agregar_decimal, es_texto};

verus! {

/// Las pruebas del programa, en orden.
pub open spec fn pruebas_de(ds: Seq<Declaracion>) -> Seq<PruebaDecl>
    decreases ds.len(),
{
    if ds.len() == 0 {
        Seq::empty()
    } else {
        match ds.last() {
            Declaracion::Prueba(p) => pruebas_de(ds.drop_last()).push(p),
            _ => pruebas_de(ds.drop_last()),
        }
    }
}

/// Las declaraciones que no son pruebas, en orden.
pub open spec fn sin_pruebas(ds: Seq<Declaracion>) -> Seq<Declaracion>
    decreases ds.len(),
{
    if ds.len() == 0 {
        Seq::empty()
    } else {
        match ds.last() {
            Declaracion::Prueba(_) => sin_pruebas(ds.drop_last()),
            d => sin_pruebas(ds.drop_last()).push(d),
        }
    }
}

/// Separar las pruebas no pierde ni agrega declaraciones.
pub proof fn lema_separar(ds: Seq<Declaracion>)
    ensures
        pruebas_de(ds).len() + sin_pruebas(ds).len() == ds.len(),
    decreases ds.len(),
{
    if ds.len() > 0 {
        lema_separar(ds.drop_last());
    }
}

/// `nueva` es `d` con el `principal` del usuario renombrado a `__principal_usuario`; cualquier
/// otra declaración queda igual.
pub open spec fn renombrada(d: Declaracion, nueva: Declaracion) -> bool {
    match d {
        Declaracion::Funcion(f) => if f.nombre@ == "principal"@ {
            nueva matches Declaracion::Funcion(g) && g.nombre@ == "__principal_usuario"@
                && g.parametros_genericos == f.parametros_genericos && g.parametros == f.parametros
                && g.retorno == f.retorno && g.cuerpo == f.cuerpo && g.es_insegura == f.es_insegura
                && g.nivel_verificacion == f.nivel_verificacion && g.efecto == f.efecto
                && g.visibilidad == f.visibilidad && g.es_futuro == f.es_futuro && g.span == f.span
        } else {
            nueva == d
        },
        _ => nueva == d,
    }
}

/// `retornar 0;`
pub open spec fn retorna_cero(s: Sentencia) -> bool {
    s matches Sentencia::Retornar(Some(Expresion::Literal(Literal::Entero(0, _))), _)
}

/// Nombre de la función de la prueba `i`: `__prueba_i`.
pub open spec fn nombre_de_prueba(i: nat) -> Seq<char> {
    "__prueba_"@ + decimal(i)
}

/// `s` es la llamada `funcion(args)` con los argumentos dados, sin argumentos de tipo.
pub open spec fn llamada_a(s: Sentencia, funcion: Seq<char>, args: Seq<Seq<char>>) -> bool {
    s matches Sentencia::Expresion(Expresion::Llamada(l)) && l.funcion@ == funcion
        && l.tipo_args@.len() == 0 && l.argumentos@.len() == args.len() && forall|k: int|
        0 <= k < args.len() ==> (#[trigger] l.argumentos@[k] matches Expresion::Literal(
            Literal::Palabra(m, _),
        ) && m@ == args[k])
}

/// `s` es `imprimir_linea(msg);`
pub open spec fn imprime(s: Sentencia, msg: Seq<char>) -> bool {
    llamada_a(s, "imprimir_linea"@, seq![msg])
}

/// `d` es la función de la prueba `i`: `función __prueba_i() -> Entero32`, con el cuerpo de
/// la prueba seguido de `retornar 0;` y el span de la prueba.
pub open spec fn funcion_de_prueba(d: Declaracion, i: nat, p: PruebaDecl) -> bool {
    d matches Declaracion::Funcion(f) && f.nombre@ == nombre_de_prueba(i)
        && f.parametros@.len() == 0 && f.parametros_genericos@.len() == 0 && (f.retorno matches Some(
        Tipo::Entero32,
    )) && f.cuerpo.sentencias@.len() == p.bloque.sentencias@.len() + 1
        && f.cuerpo.sentencias@.drop_last() == p.bloque.sentencias@ && retorna_cero(
        f.cuerpo.sentencias@.last(),
    ) && f.cuerpo.span == p.span && f.span == p.span && !f.es_insegura && f.nivel_verificacion
        == NivelVerificacion::Permisivo && f.efecto is Conservador && f.visibilidad is None
        && !f.es_futuro
}

/// Sentencias del `principal` generado: por cada prueba, avisar, llamarla y confirmar; al
/// final, el resumen y `retornar 0;`.
pub open spec fn cuerpo_principal(ss: Seq<Sentencia>, pruebas: Seq<PruebaDecl>) -> bool {
    let n = pruebas.len() as int;
    &&& ss.len() == 3 * n + 2
    &&& forall|i: int|
        0 <= i < n ==> imprime(
            #[trigger] ss[3 * i],
            "  prueba: "@ + pruebas[i].nombre@ + "..."@,
        ) && llamada_a(ss[3 * i + 1], nombre_de_prueba(i as nat), Seq::empty()) && imprime(
            ss[3 * i + 2],
            "    OK"@,
        )
    &&& imprime(ss[3 * n], "\nTodas las pruebas pasaron."@)
    &&& retorna_cero(ss[3 * n + 1])
}

/// `d` es el `principal` generado que ejecuta las pruebas.
pub open spec fn principal_de_pruebas(d: Declaracion, pruebas: Seq<PruebaDecl>) -> bool {
    d matches Declaracion::Funcion(f) && f.nombre@ == "principal"@ && f.parametros@.len() == 0
        && f.parametros_genericos@.len() == 0 && (f.retorno matches Some(Tipo::Entero32))
        && cuerpo_principal(f.cuerpo.sentencias@, pruebas) && !f.es_insegura
        && f.nivel_verificacion == NivelVerificacion::Permisivo && f.efecto is Conservador
        && f.visibilidad is None && !f.es_futuro
}

/// `retornar 0;`
fn retornar_cero() -> (r: Sentencia)
    ensures
        retorna_cero(r),
{
    Sentencia::Retornar(Some(Expresion::Literal(Literal::Entero(0, Span::vacio()))), Span::vacio())
}

/// `imprimir_linea(msg);`
fn imprimir_linea(msg: String) -> (r: Sentencia)
    ensures
        imprime(r, msg@),
{
    let r = Sentencia::Expresion(
        Expresion::Llamada(
            Llamada {
                funcion: texto("imprimir_linea"),
                tipo_args: Vec::new(),
                argumentos: vec![Expresion::Literal(Literal::Palabra(msg, Span::vacio()))],
                span: Span::vacio(),
            },
        ),
    );
    proof {
        reveal_strlit("imprimir_linea");
    }
    r
}

/// Prepara un programa para ejecutar sus pruebas: quita las declaraciones `prueba`, renombra
/// el `principal` del usuario a `__principal_usuario`, agrega una función `__prueba_i` por
/// prueba (su cuerpo y `retornar 0;`) y un `principal` que las llama en orden. Sin pruebas,
/// devuelve `None`.
pub fn preparar_pruebas(programa: Programa) -> (r: Option<Programa>)
    requires
        programa.declaraciones@.len() < usize::MAX,
    ensures
        pruebas_de(programa.declaraciones@).len() == 0 <==> r is None,
        r matches Some(p) ==> {
            let resto = sin_pruebas(programa.declaraciones@);
            let pruebas = pruebas_de(programa.declaraciones@);
            let ds = p.declaraciones@;
            &&& ds.len() == resto.len() + pruebas.len() + 1
            &&& forall|k: int| 0 <= k < resto.len() ==> renombrada(resto[k], #[trigger] ds[k])
            &&& forall|i: int|
                0 <= i < pruebas.len() ==> funcion_de_prueba(
                    #[trigger] ds[resto.len() + i],
                    i as nat,
                    pruebas[i],
                )
            &&& principal_de_pruebas(ds.last(), pruebas)
            &&& p.span == programa.span
        },
{
    let ghost ds = programa.declaraciones@;
    let Programa { declaraciones, span } = programa;
    // Separar las pruebas del resto y renombrar el principal del usuario
    let mut pruebas: Vec<PruebaDecl> = Vec::new();
    let mut resto: Vec<Declaracion> = Vec::new();
    let mut k: usize = 0;
    proof {
        assert(ds.take(0) =~= Seq::<Declaracion>::empty());
    }
    for d in it: declaraciones.into_iter()
        invariant
            it.seq() == ds,
            k == it.index(),
            k <= ds.len(),
            ds.len() < usize::MAX,
            pruebas@ == pruebas_de(ds.take(k as int)),
            resto@.len() == sin_pruebas(ds.take(k as int)).len(),
            forall|m: int|
                0 <= m < resto@.len() ==> renombrada(
                    sin_pruebas(ds.take(k as int))[m],
                    #[trigger] resto@[m],
                ),
    {
        proof {
            assert(ds.take(k + 1).drop_last() =~= ds.take(k as int));
            assert(d == ds[k as int]);
        }
        match d {
            Declaracion::Prueba(p) => {
                pruebas.push(p);
            },
            Declaracion::Funcion(mut f) => {
                let ghost original = f;
                if es_texto(&f.nombre, "principal") {
                    f.nombre = texto("__principal_usuario");
                }
                resto.push(Declaracion::Funcion(f));
                proof {
                    reveal_strlit("principal");
                    reveal_strlit("__principal_usuario");
                    assert(sin_pruebas(ds.take(k + 1)) == sin_pruebas(ds.take(k as int)).push(
                        Declaracion::Funcion(original),
                    ));
                }
            },
            otra => {
                resto.push(otra);
            },
        }
        k = k + 1;
    }
    proof {
        assert(ds.take(ds.len() as int) =~= ds);
        lema_separar(ds);
    }
    if pruebas.len() == 0 {
        return None;
    }
    let ghost lista = pruebas@;
    let n_resto = resto.len();
    // Una función por prueba y las sentencias del principal que las ejecuta
    let mut declaraciones_nuevas = resto;
    let mut sentencias_main: Vec<Sentencia> = Vec::new();
    let mut i: usize = 0;
    proof {
        reveal_strlit("    OK");
        reveal_strlit("  prueba: ");
        reveal_strlit("...");
        reveal_strlit("__prueba_");
    }
    for prueba in it: pruebas.into_iter()
        invariant
            it.seq() == lista,
            i == it.index(),
            i <= lista.len(),
            lista.len() < usize::MAX,
            n_resto == sin_pruebas(ds).len(),
            declaraciones_nuevas@.len() == n_resto + i,
            forall|m: int|
                0 <= m < n_resto ==> renombrada(sin_pruebas(ds)[m], #[trigger] declaraciones_nuevas@[m]),
            forall|j: int|
                0 <= j < i ==> funcion_de_prueba(
                    #[trigger] declaraciones_nuevas@[n_resto + j],
                    j as nat,
                    lista[j],
                ),
            sentencias_main@.len() == 3 * i,
            forall|j: int|
                0 <= j < i ==> imprime(
                    #[trigger] sentencias_main@[3 * j],
                    "  prueba: "@ + lista[j].nombre@ + "..."@,
                ) && llamada_a(sentencias_main@[3 * j + 1], nombre_de_prueba(j as nat), Seq::empty())
                    && imprime(sentencias_main@[3 * j + 2], "    OK"@),
    {
        proof {
            assert(prueba == lista[i as int]);
        }
        let PruebaDecl { nombre, bloque, span: span_prueba } = prueba;
        let mut nombre_funcion = texto("__prueba_");
        agregar_decimal(&mut nombre_funcion, i as u64);
        // imprimir_linea("  prueba: <nombre>...")
        let mut msg = texto("  prueba: ");
        agregar(&mut msg, nombre.as_str());
        agregar(&mut msg, "...");
        let ghost previas = sentencias_main@;
        sentencias_main.push(imprimir_linea(msg));
        // __prueba_i()
        sentencias_main.push(
            Sentencia::Expresion(
                Expresion::Llamada(
                    Llamada {
                        funcion: nombre_funcion.clone(),
                        tipo_args: Vec::new(),
                        argumentos: Vec::new(),
                        span: Span::vacio(),
                    },
                ),
            ),
        );
        // imprimir_linea("    OK")
        sentencias_main.push(imprimir_linea(texto("    OK")));
        proof {
            assert forall|j: int| 0 <= j < i + 1 implies imprime(
                #[trigger] sentencias_main@[3 * j],
                "  prueba: "@ + lista[j].nombre@ + "..."@,
            ) && llamada_a(sentencias_main@[3 * j + 1], nombre_de_prueba(j as nat), Seq::empty())
                && imprime(sentencias_main@[3 * j + 2], "    OK"@) by {
                if j < i {
                    assert(sentencias_main@[3 * j] == previas[3 * j]);
                    assert(sentencias_main@[3 * j + 1] == previas[3 * j + 1]);
                    assert(sentencias_main@[3 * j + 2] == previas[3 * j + 2]);
                }
            }
        }
        // función __prueba_i() -> Entero32 { ...cuerpo...; retornar 0; }
        let Bloque { sentencias: mut cuerpo, span: _ } = bloque;
        let ghost cuerpo_original = cuerpo@;
        cuerpo.push(retornar_cero());
        proof {
            assert(cuerpo@.drop_last() =~= cuerpo_original);
        }
        let func_prueba = FuncionDecl {
            nombre: nombre_funcion,
            parametros_genericos: Vec::new(),
            parametros: Vec::new(),
            retorno: Some(Tipo::Entero32),
            cuerpo: Bloque { sentencias: cuerpo, span: span_prueba.copia() },
            es_insegura: false,
            nivel_verificacion: NivelVerificacion::Permisivo,
            efecto: Efecto::Conservador,
            visibilidad: None,
            es_futuro: false,
            span: span_prueba,
        };
        let ghost antes = declaraciones_nuevas@;
        declaraciones_nuevas.push(Declaracion::Funcion(func_prueba));
        proof {
            assert forall|j: int| 0 <= j < i + 1 implies funcion_de_prueba(
                #[trigger] declaraciones_nuevas@[n_resto + j],
                j as nat,
                lista[j],
            ) by {
                if j < i {
                    assert(declaraciones_nuevas@[n_resto + j] == antes[n_resto + j]);
                }
            }
        }
        i = i + 1;
    }
    // Resumen final y retornar 0
    let ghost sin_cierre = sentencias_main@;
    sentencias_main.push(imprimir_linea(texto("\nTodas las pruebas pasaron.")));
    sentencias_main.push(retornar_cero());
    proof {
        reveal_strlit("\nTodas las pruebas pasaron.");
        assert forall|j: int| 0 <= j < lista.len() implies imprime(
            #[trigger] sentencias_main@[3 * j],
            "  prueba: "@ + lista[j].nombre@ + "..."@,
        ) && llamada_a(sentencias_main@[3 * j + 1], nombre_de_prueba(j as nat), Seq::empty())
            && imprime(sentencias_main@[3 * j + 2], "    OK"@) by {
            assert(sentencias_main@[3 * j] == sin_cierre[3 * j]);
            assert(sentencias_main@[3 * j + 1] == sin_cierre[3 * j + 1]);
            assert(sentencias_main@[3 * j + 2] == sin_cierre[3 * j + 2]);
        }
    }
    let func_main = FuncionDecl {
        nombre: texto("principal"),
        parametros_genericos: Vec::new(),
        parametros: Vec::new(),
        retorno: Some(Tipo::Entero32),
        cuerpo: Bloque { sentencias: sentencias_main, span: Span::vacio() },
        es_insegura: false,
        nivel_verificacion: NivelVerificacion::Permisivo,
        efecto: Efecto::Conservador,
        visibilidad: None,
        es_futuro: false,
        span: Span::vacio(),
    };
    let ghost antes = declaraciones_nuevas@;
    declaraciones_nuevas.push(Declaracion::Funcion(func_main));
    proof {
        reveal_strlit("principal");
        assert forall|j: int| 0 <= j < lista.len() implies funcion_de_prueba(
            #[trigger] declaraciones_nuevas@[n_resto + j],
            j as nat,
            lista[j],
        ) by {
            assert(declaraciones_nuevas@[n_resto + j] == antes[n_resto + j]);
        }
        assert forall|m: int| 0 <= m < n_resto implies renombrada(
            sin_pruebas(ds)[m],
            #[trigger] declaraciones_nuevas@[m],
        ) by {
            assert(declaraciones_nuevas@[m] == antes[m]);
        }
    }
    Some(Programa { declaraciones: declaraciones_nuevas, span })
}

} // verus!
