use mejia::ast::{Asignacion, Bloque, BucleMientras, Condicional, Expresion, Literal, Lugar, ModoVerbal, OperadorBinario, OperadorUnario, Sentencia, Tipo};
use mejia::codegen::Codegen;
use mejia::emision::{Emitido, InstruccionIr, SentenciaEmitida, TipoIr};
use mejia::error::CategoriaError;
use mejia::span::Span;

fn entorno() -> (Vec<(String, Tipo)>, Vec<(String, u32)>) {
    (vec![("x".to_string(), Tipo::Entero32)], vec![("x".to_string(), 3)])
}

fn var(n: &str) -> Expresion {
    Expresion::Identificador(n.to_string(), Span::vacio())
}

fn entero(n: i64) -> Expresion {
    Expresion::Literal(Literal::Entero(n, Span::vacio()))
}

#[test]
fn negacion_y_suma_en_ssa() {
    let c = Codegen::nuevo();
    let (tipos, slots) = entorno();
    let e = Expresion::Binaria(
        Box::new(Expresion::Unaria(OperadorUnario::Negacion, Box::new(var("x")), Span::vacio())),
        OperadorBinario::Suma,
        Box::new(entero(2)),
        Span::vacio(),
    );
    let mut salida = Vec::new();
    let r = c.compilar_expresion(&e, &tipos, &slots, &mut salida);
    assert!(matches!(r, Emitido::Valor(4)));
    assert_eq!(
        salida,
        vec![
            InstruccionIr::CargarSlot { tipo: TipoIr::I32, slot: 3 },
            InstruccionIr::Iconst { tipo: TipoIr::I32, valor: 0 },
            InstruccionIr::Binaria { op: OperadorBinario::Resta, izq: 1, der: 0 },
            InstruccionIr::Iconst { tipo: TipoIr::I32, valor: 2 },
            InstruccionIr::Binaria { op: OperadorBinario::Suma, izq: 2, der: 3 },
        ]
    );
}

#[test]
fn los_valores_siguen_a_las_instrucciones_previas() {
    let c = Codegen::nuevo();
    let (tipos, slots) = entorno();
    let mut salida = vec![InstruccionIr::Iconst { tipo: TipoIr::I8, valor: 1 }];
    let e = Expresion::Unaria(OperadorUnario::NegacionLogica, Box::new(var("x")), Span::vacio());
    let r = c.compilar_expresion(&e, &tipos, &slots, &mut salida);
    assert!(matches!(r, Emitido::Valor(3)));
    assert_eq!(salida[3], InstruccionIr::Binaria { op: OperadorBinario::BitXor, izq: 1, der: 2 });
}

#[test]
fn variable_sin_declarar_es_error_interno() {
    let c = Codegen::nuevo();
    let (tipos, slots) = entorno();
    let mut salida = Vec::new();
    let r = c.compilar_expresion(&var("y"), &tipos, &slots, &mut salida);
    match r {
        Emitido::Error(e) => {
            assert_eq!(e.categoria, CategoriaError::Interno);
            assert_eq!(e.codigo, 6);
            assert_eq!(e.mensaje, "Variable 'y' no encontrada");
        },
        _ => panic!("esperaba error"),
    }
    assert!(salida.is_empty());
}

#[test]
fn referencia_a_variable_da_su_direccion() {
    let c = Codegen::nuevo();
    let (tipos, slots) = entorno();
    let mut salida = Vec::new();
    let e = Expresion::Unaria(OperadorUnario::Referencia, Box::new(var("x")), Span::vacio());
    let r = c.compilar_expresion(&e, &tipos, &slots, &mut salida);
    assert!(matches!(r, Emitido::Valor(0)));
    assert_eq!(salida, vec![InstruccionIr::DireccionSlot { slot: 3 }]);
}

#[test]
fn rango_fuera_de_para_es_error_de_tipo() {
    let c = Codegen::nuevo();
    let (tipos, slots) = entorno();
    let mut salida = Vec::new();
    let e = Expresion::Rango(Box::new(entero(0)), Box::new(entero(3)), false, Span::vacio());
    match c.compilar_expresion(&e, &tipos, &slots, &mut salida) {
        Emitido::Error(e) => {
            assert_eq!(e.categoria, CategoriaError::Tipo);
            assert_eq!(e.codigo, 41);
        },
        _ => panic!("esperaba error"),
    }
}

fn asignar(n: &str, v: i64) -> Sentencia {
    Sentencia::Asignacion(Asignacion {
        lugar: Lugar::Identificador(n.to_string()),
        valor: entero(v),
        span: Span::vacio(),
    })
}

fn bloque(sentencias: Vec<Sentencia>) -> Bloque {
    Bloque { sentencias, span: Span::vacio() }
}

#[test]
fn asignacion_y_retorno() {
    let c = Codegen::nuevo();
    let (tipos, slots) = entorno();
    let mut salida = Vec::new();
    let mut avisos = Vec::new();
    let asig = asignar("x", 5);
    assert!(matches!(c.compilar_sentencia(&asig, &tipos, &slots, &mut salida, &mut avisos), SentenciaEmitida::Hecha));
    let ret = Sentencia::Retornar(Some(var("x")), Span::vacio());
    assert!(matches!(c.compilar_sentencia(&ret, &tipos, &slots, &mut salida, &mut avisos), SentenciaEmitida::Hecha));
    assert!(avisos.is_empty());
    assert_eq!(
        salida,
        vec![
            InstruccionIr::Iconst { tipo: TipoIr::I32, valor: 5 },
            InstruccionIr::GuardarSlot { slot: 3, valor: 0 },
            InstruccionIr::CargarSlot { tipo: TipoIr::I32, slot: 3 },
            InstruccionIr::Retornar { valor: Some(2) },
        ]
    );
}

#[test]
fn asignacion_a_variable_sin_declarar_avisa_y_sigue() {
    let c = Codegen::nuevo();
    let (tipos, slots) = entorno();
    let mut salida = Vec::new();
    let mut avisos = Vec::new();
    let cuerpo = vec![asignar("z", 5), asignar("x", 1)];
    let r = c.compilar_bloque(&cuerpo, &tipos, &slots, &mut salida, &mut avisos);
    assert!(matches!(r, SentenciaEmitida::Hecha));
    assert_eq!(avisos.len(), 1);
    assert_eq!(avisos[0].codigo, 15);
    assert_eq!(avisos[0].mensaje, "Variable 'z' no encontrada para asignación");
    assert_eq!(
        salida,
        vec![
            InstruccionIr::Iconst { tipo: TipoIr::I32, valor: 5 },
            InstruccionIr::Iconst { tipo: TipoIr::I32, valor: 1 },
            InstruccionIr::GuardarSlot { slot: 3, valor: 1 },
        ]
    );
}

#[test]
fn condicional_con_bloques_y_saltos() {
    let c = Codegen::nuevo();
    let (tipos, slots) = entorno();
    let mut salida = Vec::new();
    let mut avisos = Vec::new();
    let st = Sentencia::Condicional(Condicional {
        condicion: var("x"),
        bloque_entonces: bloque(vec![Sentencia::Retornar(Some(entero(1)), Span::vacio())]),
        bloque_sino: Some(bloque(vec![asignar("x", 2)])),
        modo: ModoVerbal::Indicativo,
        span: Span::vacio(),
    });
    let r = c.compilar_sentencia(&st, &tipos, &slots, &mut salida, &mut avisos);
    assert!(matches!(r, SentenciaEmitida::Hecha));
    assert_eq!(
        salida,
        vec![
            InstruccionIr::CargarSlot { tipo: TipoIr::I32, slot: 3 },
            InstruccionIr::SaltarSi { cond: 0, si: 2, sino: 5 },
            InstruccionIr::Bloque,
            InstruccionIr::Iconst { tipo: TipoIr::I32, valor: 1 },
            InstruccionIr::Retornar { valor: Some(3) },
            InstruccionIr::Bloque,
            InstruccionIr::Iconst { tipo: TipoIr::I32, valor: 2 },
            InstruccionIr::GuardarSlot { slot: 3, valor: 6 },
            InstruccionIr::Saltar { destino: 9 },
            InstruccionIr::Bloque,
        ]
    );
}

#[test]
fn condicional_subjuntivo_emite_primero_el_sino() {
    let c = Codegen::nuevo();
    let (tipos, slots) = entorno();
    let mut salida = Vec::new();
    let mut avisos = Vec::new();
    let st = Sentencia::Condicional(Condicional {
        condicion: var("x"),
        bloque_entonces: bloque(vec![asignar("x", 1)]),
        bloque_sino: None,
        modo: ModoVerbal::Subjuntivo,
        span: Span::vacio(),
    });
    let r = c.compilar_sentencia(&st, &tipos, &slots, &mut salida, &mut avisos);
    assert!(matches!(r, SentenciaEmitida::Hecha));
    assert_eq!(
        salida,
        vec![
            InstruccionIr::CargarSlot { tipo: TipoIr::I32, slot: 3 },
            InstruccionIr::SaltarSi { cond: 0, si: 4, sino: 2 },
            InstruccionIr::Bloque,
            InstruccionIr::Saltar { destino: 8 },
            InstruccionIr::Bloque,
            InstruccionIr::Iconst { tipo: TipoIr::I32, valor: 1 },
            InstruccionIr::GuardarSlot { slot: 3, valor: 5 },
            InstruccionIr::Saltar { destino: 8 },
            InstruccionIr::Bloque,
        ]
    );
}

#[test]
fn bucle_mientras_vuelve_a_la_cabecera() {
    let c = Codegen::nuevo();
    let (tipos, slots) = entorno();
    let mut salida = Vec::new();
    let mut avisos = Vec::new();
    let st = Sentencia::BucleMientras(BucleMientras {
        condicion: var("x"),
        bloque: bloque(vec![asignar("x", 0)]),
        span: Span::vacio(),
    });
    let r = c.compilar_sentencia(&st, &tipos, &slots, &mut salida, &mut avisos);
    assert!(matches!(r, SentenciaEmitida::Hecha));
    assert_eq!(
        salida,
        vec![
            InstruccionIr::Saltar { destino: 1 },
            InstruccionIr::Bloque,
            InstruccionIr::CargarSlot { tipo: TipoIr::I32, slot: 3 },
            InstruccionIr::SaltarSi { cond: 2, si: 4, sino: 8 },
            InstruccionIr::Bloque,
            InstruccionIr::Iconst { tipo: TipoIr::I32, valor: 0 },
            InstruccionIr::GuardarSlot { slot: 3, valor: 5 },
            InstruccionIr::Saltar { destino: 1 },
            InstruccionIr::Bloque,
        ]
    );
}

#[test]
fn fallo_en_el_cuerpo_detiene_el_bucle() {
    let c = Codegen::nuevo();
    let (tipos, slots) = entorno();
    let mut salida = Vec::new();
    let mut avisos = Vec::new();
    let st = Sentencia::BucleMientras(BucleMientras {
        condicion: var("x"),
        bloque: bloque(vec![Sentencia::Expresion(var("nadie")), asignar("x", 0)]),
        span: Span::vacio(),
    });
    match c.compilar_sentencia(&st, &tipos, &slots, &mut salida, &mut avisos) {
        SentenciaEmitida::Fallo(Emitido::Error(e)) => assert_eq!(e.codigo, 6),
        _ => panic!("esperaba fallo"),
    }
}

#[test]
fn todos_fuera_de_declaracion_es_error() {
    let c = Codegen::nuevo();
    let (tipos, slots) = entorno();
    let mut salida = Vec::new();
    let e = Expresion::ArrayRelleno(Box::new(entero(0)), 4, Span::vacio());
    match c.compilar_expresion(&e, &tipos, &slots, &mut salida) {
        Emitido::Error(e) => {
            assert_eq!(e.categoria, CategoriaError::Interno);
            assert_eq!(e.codigo, 22);
        },
        _ => panic!("esperaba error"),
    }
    assert!(salida.is_empty());
}

#[test]
fn ruta_sin_llamada_se_descarta() {
    let c = Codegen::nuevo();
    let (tipos, slots) = entorno();
    let mut salida = Vec::new();
    let e = Expresion::Ruta(vec!["m".to_string(), "f".to_string()], Span::vacio());
    assert!(matches!(c.compilar_expresion(&e, &tipos, &slots, &mut salida), Emitido::Descartada));
}
