use mejia::ast::{Declaracion, Expresion, Literal, Sentencia, Tipo};
use mejia::lexer::{LexerMejia, TokenConSpan};
use mejia::parser::errores::ErrorSintaxis;
use mejia::parser::ParserMejia;
use mejia::ast::Programa;

fn tokenizar(fuente: &str) -> Vec<TokenConSpan> {
    LexerMejia::nuevo(fuente.to_string(), "test.fc".to_string()).tokenizar()
}

fn parse_fuente(fuente: &str) -> Result<Programa, Vec<ErrorSintaxis>> {
    ParserMejia::parse(tokenizar(fuente))
}

#[test]
fn test_parse_funcion_simple() {
    let fuente = r#"función principal() {
    retornar 0;
}"#;
    let resultado = parse_fuente(fuente);
    assert!(resultado.is_ok(), "Error: {:?}", resultado.err());
    let programa = resultado.unwrap();
    assert_eq!(programa.declaraciones.len(), 1);
}

#[test]
fn test_parse_expresion_aritmetica() {
    let fuente = r#"función principal() -> Entero32 {
    el c: Entero32 = a + b * 2;
    retornar c;
}"#;
    let resultado = parse_fuente(fuente);
    assert!(resultado.is_ok(), "Error: {:?}", resultado.err());
}

#[test]
fn test_parse_condicional() {
    let fuente = r#"función principal() -> Entero32 {
    el x: Entero32 = 10;
    si x > 5 {
        retornar 100;
    } sino {
        retornar 0;
    }
}"#;
    let resultado = parse_fuente(fuente);
    assert!(resultado.is_ok(), "Error: {:?}", resultado.err());

    let programa = resultado.unwrap();
    if let Declaracion::Funcion(func) = &programa.declaraciones[0] {
        if let Sentencia::Condicional(cond) = &func.cuerpo.sentencias[1] {
            assert!(cond.bloque_sino.is_some());
        } else {
            panic!("Esperaba condicional");
        }
    }
}

#[test]
fn test_parse_bucle_mientras() {
    let fuente = r#"función principal() -> Entero32 {
    el i: Entero32 = 0;
    mientras i < 10 {
        i = i + 1;
    }
    retornar i;
}"#;
    let resultado = parse_fuente(fuente);
    assert!(resultado.is_ok(), "Error: {:?}", resultado.err());
}

#[test]
fn test_parse_ffi_puts() {
    let fuente = r#"inseguro función puts(el mensaje: Palabra);

función principal() {
    puts("¡Hola, mejia!");
    retornar 0;
}"#;
    let resultado = parse_fuente(fuente);
    assert!(resultado.is_ok(), "Error: {:?}", resultado.err());
}

#[test]
fn test_parse_asignacion() {
    let fuente = r#"función principal() -> Entero32 {
    el x: Entero32 = 10;
    x = 20;
    retornar x;
}"#;
    let resultado = parse_fuente(fuente);
    assert!(resultado.is_ok(), "Error: {:?}", resultado.err());
}

#[test]
fn test_error_token_inesperado() {
    let fuente = r#"función principal() {
    retornar + ;
}"#;
    let resultado = parse_fuente(fuente);
    assert!(resultado.is_err(), "Debería fallar con token inesperado");
}

#[test]
fn test_parse_enumeracion() {
    let fuente = r#"enumeración Estado {
    Activo,
    Inactivo,
    Pausado
}

función principal() -> Entero32 {
    el estado: Estado = Estado.Activo;
    si estado es Estado.Activo {
        retornar 1;
    }
    retornar 0;
}"#;
    let resultado = parse_fuente(fuente);
    assert!(resultado.is_ok(), "Error: {:?}", resultado.err());
}

#[test]
fn test_parse_enum_con_datos() {
    let fuente = r#"enumeración MiResultado {
    Exito(valor: Entero32),
    Error(codigo: Entero32)
}

función principal() -> Entero32 {
    el r: MiResultado = MiResultado.Exito(42);
    retornar 0;
}"#;
    let resultado = parse_fuente(fuente);
    assert!(resultado.is_ok(), "Error: {:?}", resultado.err());
}

#[test]
fn test_parse_const_generics() {
    let fuente = r#"función longitud<N: Entero32>(los nums: [Entero32; N]) -> Entero32 { retornar 0; }"#;
    let resultado = parse_fuente(fuente);
    assert!(resultado.is_ok(), "Error: {:?}", resultado.err());

    let programa = resultado.unwrap();
    assert_eq!(programa.declaraciones.len(), 1);

    if let Declaracion::Funcion(func) = &programa.declaraciones[0] {
        assert_eq!(func.nombre, "longitud");
        assert_eq!(func.parametros_genericos.len(), 1);
        assert_eq!(func.parametros_genericos[0].nombre, "N");
        assert!(func.parametros_genericos[0].tipo.is_some());
        assert_eq!(func.parametros_genericos[0].bounds.len(), 0);
    } else {
        panic!("Esperaba declaración de función");
    }
}

#[test]
fn test_parse_que_bounds() {
    let fuente = r#"función máximo<T que Comparable>(el a: T, el b: T) -> T {
    si a > b {
        retornar a;
    } sino {
        retornar b;
    }
}"#;
    let resultado = parse_fuente(fuente);
    assert!(resultado.is_ok(), "Error: {:?}", resultado.err());

    let programa = resultado.unwrap();
    if let Declaracion::Funcion(func) = &programa.declaraciones[0] {
        assert_eq!(func.parametros_genericos.len(), 1);
        assert_eq!(func.parametros_genericos[0].nombre, "T");
        assert!(func.parametros_genericos[0].tipo.is_none());
        assert_eq!(func.parametros_genericos[0].bounds, vec!["Comparable"]);
    } else {
        panic!("Esperaba declaración de función");
    }
}

// Pruebas propias

#[test]
fn errores_lexicos_se_informan_uno_por_token() {
    let resultado = parse_fuente("función @ principal() { $ }");
    let errores = resultado.err().expect("debería fallar");
    assert_eq!(errores.len(), 2);
    for e in &errores {
        assert_eq!(e.error.codigo, 8);
        assert_eq!(e.error.mensaje, "carácter no válido: 'carácter inválido'");
    }
    assert_eq!(errores[0].error.span.inicio.columna, 9);
    assert_eq!(errores[1].error.span.inicio.columna, 25);
}

#[test]
fn programa_vacio_es_valido() {
    let programa = parse_fuente("").expect("vacío es válido");
    assert_eq!(programa.declaraciones.len(), 0);
    assert_eq!(programa.span.archivo, "<test>");
}

#[test]
fn recuperacion_acumula_errores_de_varias_declaraciones() {
    let fuente = "función a( { } 42 función b() { retornar 1; } estructural { }";
    let errores = parse_fuente(fuente).err().expect("debería fallar");
    assert_eq!(errores.len(), 2);
}

#[test]
fn token_top_level_inesperado() {
    let errores = parse_fuente("42").err().expect("debería fallar");
    assert_eq!(errores.len(), 1);
    assert_eq!(errores[0].error.codigo, 8);
    assert_eq!(
        errores[0].error.mensaje,
        "token inesperado en declaración top-level: 'EnteroLiteral(Some(42))'"
    );
}

#[test]
fn articulo_sin_funcion_en_top_level() {
    let errores = parse_fuente("el x").err().expect("debería fallar");
    assert_eq!(errores[0].error.codigo, 12);
}

#[test]
fn precedencia_de_operadores() {
    let programa = parse_fuente("función f() { retornar 1 + 2 * 3; }").unwrap();
    let Declaracion::Funcion(f) = &programa.declaraciones[0] else { panic!() };
    let Sentencia::Retornar(Some(e), _) = &f.cuerpo.sentencias[0] else { panic!() };
    let Expresion::Binaria(izq, op, der, _) = e else { panic!() };
    assert_eq!(format!("{:?}", op), "Suma");
    assert!(matches!(**izq, Expresion::Literal(Literal::Entero(1, _))));
    assert!(matches!(**der, Expresion::Binaria(_, _, _, _)));
}

#[test]
fn tipos_genericos_activos_y_vector() {
    let programa =
        parse_fuente("función f<T>(el a: T, el v: Vector<Entero32>, el w: Otro) { }").unwrap();
    let Declaracion::Funcion(f) = &programa.declaraciones[0] else { panic!() };
    assert!(matches!(&f.parametros[0].tipo, Tipo::Generico(n) if n == "T"));
    assert!(matches!(&f.parametros[1].tipo, Tipo::Vector(t) if matches!(**t, Tipo::Entero32)));
    assert!(matches!(&f.parametros[2].tipo, Tipo::Nombre(n) if n == "Otro"));
}

#[test]
fn campos_de_bits_se_empaquetan_en_orden() {
    let programa = parse_fuente(
        "estructural R { bits { a: Natural8, b: Natural16 }, c: Entero32 }",
    )
    .unwrap();
    let Declaracion::Estructural(e) = &programa.declaraciones[0] else { panic!() };
    assert_eq!(e.campos_bits.len(), 2);
    assert_eq!(e.campos_bits[0].offset_bits, 0);
    assert_eq!(e.campos_bits[1].offset_bits, 8);
    assert_eq!(e.campos_bits[1].ancho_bits, 16);
    assert_eq!(e.campos.len(), 1);
}

#[test]
fn llamada_generica_y_ruta() {
    let programa =
        parse_fuente("función f() { tamaño_de::<Entero32>(); m::g(1, 2); h<T>(x); }").unwrap();
    let Declaracion::Funcion(f) = &programa.declaraciones[0] else { panic!() };
    let Sentencia::Expresion(Expresion::Llamada(l0)) = &f.cuerpo.sentencias[0] else { panic!() };
    assert_eq!(l0.funcion, "tamaño_de");
    assert_eq!(l0.tipo_args.len(), 1);
    let Sentencia::Expresion(Expresion::Llamada(l1)) = &f.cuerpo.sentencias[1] else { panic!() };
    assert_eq!(l1.funcion, "m::g");
    assert_eq!(l1.argumentos.len(), 2);
    let Sentencia::Expresion(Expresion::Llamada(l2)) = &f.cuerpo.sentencias[2] else { panic!() };
    assert_eq!(l2.funcion, "h");
}

#[test]
fn modulo_usar_rasgo_impl_y_prueba() {
    let fuente = r#"módulo m { la función f() { } }
usar m::*;
rasgo R { función g(el x: Entero32) -> Entero32; }
implementar R para Entero32 { función g(el x: Entero32) -> Entero32 { retornar x; } }
prueba "p" { afirmar(verdadero); }"#;
    let programa = parse_fuente(fuente).expect("válido");
    assert_eq!(programa.declaraciones.len(), 5);
    let Declaracion::Modulo(m) = &programa.declaraciones[0] else { panic!() };
    let Declaracion::Funcion(f) = &m.contenido[0] else { panic!() };
    assert_eq!(format!("{:?}", f.visibilidad), "Some(La)");
    let Declaracion::Usar(u) = &programa.declaraciones[1] else { panic!() };
    assert_eq!(u.ruta, vec!["m", "*"]);
    assert!(matches!(programa.declaraciones[2], Declaracion::Rasgo(_)));
    assert!(matches!(programa.declaraciones[3], Declaracion::Implementacion(_)));
    assert!(matches!(programa.declaraciones[4], Declaracion::Prueba(_)));
}

#[test]
fn efecto_con_token_extrano_es_error() {
    let errores = parse_fuente("función f() muta(1) { }").err().expect("debería fallar");
    assert_eq!(errores[0].error.codigo, 3);
}

#[test]
fn coincidir_y_closure() {
    let fuente = "función f() { coincidir x { 0 => 1, Estado.A(v) => 2, _ => 3 }; el g = |a: Entero32, b| a + b; }";
    let programa = parse_fuente(fuente).expect("válido");
    let Declaracion::Funcion(f) = &programa.declaraciones[0] else { panic!() };
    let Sentencia::Expresion(Expresion::Coincidir(_, brazos, _)) = &f.cuerpo.sentencias[0] else {
        panic!()
    };
    assert_eq!(brazos.len(), 3);
    let Sentencia::DeclaracionVariable(d) = &f.cuerpo.sentencias[1] else { panic!() };
    let Expresion::Closure(params, _, _) = &d.valor else { panic!() };
    assert_eq!(params.len(), 2);
}

fn tipo_de(fuente: &str) -> (Result<Tipo, ErrorSintaxis>, usize) {
    let mut cursor = mejia::parser::ParserCursor::nuevo(tokenizar(fuente));
    let r = mejia::parser::tipos::parse_tipo(&mut cursor);
    (r, cursor.posicion())
}

#[test]
fn tipo_vector_y_resultado() {
    let (r, pos) = tipo_de("Vector<Entero32>");
    assert!(matches!(r, Ok(Tipo::Vector(ref t)) if **t == Tipo::Entero32));
    assert_eq!(pos, 4);
    let (r, pos) = tipo_de("Resultado<Texto, Booleano> x");
    assert!(matches!(r, Ok(Tipo::Resultado(ref a, ref b)) if **a == Tipo::Texto && **b == Tipo::Booleano));
    assert_eq!(pos, 6);
}

#[test]
fn tipo_generico_con_coma_final() {
    let (r, pos) = tipo_de("Mapa<Texto, Entero64,>");
    match r {
        Ok(Tipo::NombreGenerico(n, args)) => {
            assert_eq!(n, "Mapa");
            assert_eq!(args, vec![Tipo::Texto, Tipo::Entero64]);
        },
        otro => panic!("inesperado: {:?}", otro),
    }
    assert_eq!(pos, 7);
}

#[test]
fn tipo_array_y_referencias() {
    let (r, _) = tipo_de("[Entero8; 16]");
    assert!(matches!(r, Ok(Tipo::Array(ref t, 16)) if **t == Tipo::Entero8));
    let (r, _) = tipo_de("[Entero8; N]");
    assert!(matches!(r, Ok(Tipo::ArrayGenerico(_, ref n)) if n == "N"));
    let (r, pos) = tipo_de("&mut a Texto");
    assert!(matches!(r, Ok(Tipo::ReferenciaMutConLifetime(ref a, ref t)) if a == "a" && **t == Tipo::Texto));
    assert_eq!(pos, 4);
    let (r, pos) = tipo_de("&Punto");
    assert!(matches!(r, Ok(Tipo::Referencia(ref t)) if **t == Tipo::Nombre("Punto".to_string())));
    assert_eq!(pos, 2);
}

#[test]
fn tipo_incompleto_falla() {
    assert!(tipo_de("Resultado<Texto Booleano>").0.is_err());
    assert!(tipo_de("[Entero8; ]").0.is_err());
    assert!(tipo_de("Vector<Entero32").0.is_err());
    assert!(tipo_de("+").0.is_err());
}

#[test]
fn struct_con_campos_de_bits() {
    let fuente = "estructural Banderas { bits { a: Natural8, b: Natural16 }, valor: Entero32, bits { c: Natural8 } }";
    let programa = parse_fuente(fuente).expect("debería parsear");
    match &programa.declaraciones[0] {
        Declaracion::Estructural(e) => {
            assert_eq!(e.nombre, "Banderas");
            assert_eq!(e.campos.len(), 1);
            assert_eq!(e.campos[0].nombre, "valor");
            assert_eq!(e.campos[0].tipo, Tipo::Entero32);
            let bits: Vec<(String, u32, u32)> = e
                .campos_bits
                .iter()
                .map(|b| (b.nombre.clone(), b.ancho_bits, b.offset_bits))
                .collect();
            assert_eq!(
                bits,
                vec![("a".to_string(), 8, 0), ("b".to_string(), 16, 8), ("c".to_string(), 8, 24)]
            );
        }
        otra => panic!("esperaba struct: {:?}", otra),
    }
}

#[test]
fn struct_con_bits_de_tipo_no_entero_falla() {
    assert!(parse_fuente("estructural S { bits { a: Texto } }").is_err());
    assert!(parse_fuente("estructural S { a Entero32 }").is_err());
}

#[test]
fn enumeracion_generica_con_restricciones() {
    let fuente = "enumeración Caja<T que Comparable, Ordenable> { Vacia, Llena(valor: T, extra: Entero8,), }";
    let programa = parse_fuente(fuente).expect("debería parsear");
    match &programa.declaraciones[0] {
        Declaracion::Enumeracion(e) => {
            assert_eq!(e.parametros_genericos.len(), 1);
            assert_eq!(e.parametros_genericos[0].nombre, "T");
            assert_eq!(e.parametros_genericos[0].bounds, vec!["Comparable", "Ordenable"]);
            assert_eq!(e.variantes.len(), 2);
            assert!(e.variantes[0].datos.is_none());
            let datos = e.variantes[1].datos.as_ref().expect("con datos");
            assert_eq!(datos.len(), 2);
            assert_eq!(datos[0].0, "valor");
            assert_eq!(datos[0].1, Tipo::Nombre("T".to_string()));
            assert_eq!(datos[1].1, Tipo::Entero8);
        }
        otra => panic!("esperaba enumeración: {:?}", otra),
    }
}

#[test]
fn usar_con_ruta_y_comodin() {
    let programa = parse_fuente("usar geometria::formas::*;\nusar red;").expect("debería parsear");
    match (&programa.declaraciones[0], &programa.declaraciones[1]) {
        (Declaracion::Usar(a), Declaracion::Usar(b)) => {
            assert_eq!(a.ruta, vec!["geometria", "formas", "*"]);
            assert_eq!(b.ruta, vec!["red"]);
        }
        otra => panic!("esperaba dos usar: {:?}", otra),
    }
    assert!(parse_fuente("usar geometria:formas;").is_err());
}

#[test]
fn rasgo_con_firmas() {
    let fuente = "rasgo Forma { función area(la s: Entero32, el t: Texto) -> Entero64; función nada(); }";
    let programa = parse_fuente(fuente).expect("debería parsear");
    match &programa.declaraciones[0] {
        Declaracion::Rasgo(r) => {
            assert_eq!(r.nombre, "Forma");
            assert_eq!(r.metodos.len(), 2);
            assert_eq!(r.metodos[0].nombre, "area");
            assert_eq!(r.metodos[0].parametros.len(), 2);
            assert_eq!(r.metodos[0].parametros[1].nombre, "t");
            assert_eq!(r.metodos[0].parametros[1].tipo, Tipo::Texto);
            assert_eq!(r.metodos[0].retorno, Some(Tipo::Entero64));
            assert!(r.metodos[1].parametros.is_empty());
            assert!(r.metodos[1].retorno.is_none());
        }
        otra => panic!("esperaba rasgo: {:?}", otra),
    }
    assert!(parse_fuente("rasgo Forma { area(); }").is_err());
}

#[test]
fn modulo_sin_llave_de_cierre_termina_al_final() {
    let fuente = "módulo m { función f() { retornar 0; }";
    let programa = parse_fuente(fuente).expect("debería parsear");
    match &programa.declaraciones[0] {
        Declaracion::Modulo(m) => {
            assert_eq!(m.nombre, "m");
            assert_eq!(m.contenido.len(), 1);
        }
        otra => panic!("esperaba módulo: {:?}", otra),
    }
}

#[test]
fn sintaxis_de_sentencias_y_expresiones() {
    let fuente = r#"función principal() -> Entero32 {
    el v: Vector<Entero32> = [1, 2, 3,];
    si v es Opcion.Algo como x { retornar f(x y,); } sino { retornar 0; }
    mientras i < 10 { i = i + 1; }
    para j en 0..=3 { imprimir(j); }
    el p = Punto { x: 1, y: 2 };
    retornar coincidir p.x { 1 => 10, _ => 20 };
}"#;
    let resultado = parse_fuente(fuente);
    assert!(resultado.is_ok(), "Error: {:?}", resultado.err());
}

#[test]
fn errores_de_sintaxis_se_detectan() {
    assert!(parse_fuente("función f( { }").is_err());
    assert!(parse_fuente("función f() { retornar 1 }").is_err());
    assert!(parse_fuente("función f() { el x = ; }").is_err());
    assert!(parse_fuente("función f() { x[1 = 2; }").is_err());
    assert!(parse_fuente("función f() -> { }").is_err());
    // una función `inseguro` puede no tener cuerpo; una normal no
    assert!(parse_fuente("inseguro función puts(la s: Texto) -> Entero32;").is_ok());
    assert!(parse_fuente("función puts(la s: Texto) -> Entero32;").is_err());
}

#[test]
fn patron_de_resultado_con_binding() {
    let fuente = "función f() { coincidir r { Resultado.Exito(x) => x, Resultado.Error(e) => 0 }; }";
    let programa = parse_fuente(fuente).expect("válido");
    let Declaracion::Funcion(f) = &programa.declaraciones[0] else { panic!() };
    let Sentencia::Expresion(Expresion::Coincidir(_, brazos, _)) = &f.cuerpo.sentencias[0] else {
        panic!()
    };
    assert_eq!(brazos.len(), 2);
    assert!(matches!(
        brazos[0].patron,
        mejia::ast::PatronMatch::VarianteEnum(ref e, ref v, Some(ref b), _)
            if e == "Resultado" && v == "Exito" && b == "x"
    ));
    assert!(matches!(
        brazos[1].patron,
        mejia::ast::PatronMatch::VarianteEnum(ref e, ref v, Some(ref b), _)
            if e == "Resultado" && v == "Error" && b == "e"
    ));
}

#[test]
fn patron_resultado_sin_variante_es_error() {
    assert!(parse_fuente("función f() { coincidir r { Resultado => 1 }; }").is_err());
}

#[test]
fn campos_de_bits_de_64_no_se_admiten() {
    let errores = parse_fuente("estructural R { bits { a: Natural64 } }").unwrap_err();
    assert_eq!(errores[0].error.codigo, 7);
    assert!(errores[0].error.mensaje.contains("Natural8/16/32"));
    assert!(parse_fuente("estructural R { bits { a: Entero32 } }").is_ok());
}

#[test]
fn sentencias_de_un_cuerpo() {
    let fuente = "función f() { el x: Entero32 = 1; x = x + 2; si x > 0 fuese { retornar x; } sino { retornar; } \
                  si r es Resultado.Exito como v { } mientras x < 3 { x = x + 1; } región r { } \
                  seleccionar { c como m => { }, _ => { } } }";
    let programa = parse_fuente(fuente).expect("válido");
    let Declaracion::Funcion(f) = &programa.declaraciones[0] else { panic!() };
    let s = &f.cuerpo.sentencias;
    assert_eq!(s.len(), 7);
    let Sentencia::DeclaracionVariable(d) = &s[0] else { panic!() };
    assert_eq!(d.nombre, "x");
    assert_eq!(d.tipo, Some(Tipo::Entero32));
    assert!(matches!(d.valor, Expresion::Literal(Literal::Entero(1, _))));
    let Sentencia::Asignacion(a) = &s[1] else { panic!() };
    assert!(matches!(a.lugar, mejia::ast::Lugar::Identificador(ref n) if n == "x"));
    assert!(matches!(a.valor, Expresion::Binaria(_, mejia::ast::OperadorBinario::Suma, _, _)));
    let Sentencia::Condicional(c) = &s[2] else { panic!() };
    assert_eq!(c.modo, mejia::ast::ModoVerbal::Subjuntivo);
    assert!(matches!(c.condicion, Expresion::Binaria(_, mejia::ast::OperadorBinario::Mayor, _, _)));
    assert!(matches!(c.bloque_entonces.sentencias[0], Sentencia::Retornar(Some(_), _)));
    assert!(matches!(c.bloque_sino.as_ref().unwrap().sentencias[0], Sentencia::Retornar(None, _)));
    let Sentencia::Condicional(c) = &s[3] else { panic!() };
    assert!(matches!(c.condicion, Expresion::EsVariante(_, ref e, ref v, Some(ref b), _)
        if e == "Resultado" && v == "Exito" && b == "v"));
    let Sentencia::BucleMientras(m) = &s[4] else { panic!() };
    assert_eq!(m.bloque.sentencias.len(), 1);
    assert!(matches!(s[5], Sentencia::Region { ref nombre, .. } if nombre == "r"));
    let Sentencia::Seleccionar(sel) = &s[6] else { panic!() };
    assert_eq!(sel.ramas.len(), 2);
    assert_eq!(sel.ramas[0].variable.as_deref(), Some("m"));
    assert_eq!(sel.ramas[1].variable, None);
}

#[test]
fn atomo_sobre_token_que_no_lo_empieza_es_error_sin_avanzar() {
    let mut c = mejia::parser::ParserCursor::nuevo(tokenizar("+ 1"));
    let s0 = c.span_actual();
    let r = mejia::parser::expresiones::parse_atom(&mut c);
    let e = r.unwrap_err();
    assert_eq!(e.error.categoria, mejia::error::CategoriaError::Sintaxis);
    assert_eq!(e.error.codigo, 5);
    assert_eq!(e.error.span.inicio, s0.inicio);
    assert_eq!(c.posicion(), 0);
}

#[test]
fn funcion_cierra_su_ambito_de_genericos() {
    let mut c = mejia::parser::ParserCursor::nuevo(tokenizar("función f<T>(el x: T) -> T { retornar x; }"));
    let r = mejia::parser::declaraciones::parse_funcion(&mut c);
    let Ok(Declaracion::Funcion(f)) = r else { panic!() };
    assert!(f.visibilidad.is_none());
    assert!(c.genericos().is_empty());
    assert_eq!(f.parametros[0].tipo, Tipo::Generico("T".to_string()));
    // sobre un token que no empieza una función: error sin avanzar
    let mut c = mejia::parser::ParserCursor::nuevo(tokenizar("estructural"));
    assert!(mejia::parser::declaraciones::parse_funcion(&mut c).is_err());
    assert_eq!(c.posicion(), 0);
}

#[test]
fn campos_de_bits_empaquetados_desde_el_bit_cero() {
    let mut c = mejia::parser::ParserCursor::nuevo(tokenizar(
        "estructural R { bits { a: Natural8, b: Entero16 }, x: Entero32, bits { c: Natural32 } }",
    ));
    let Ok(Declaracion::Estructural(d)) = mejia::parser::declaraciones::parse_estructural(&mut c) else {
        panic!()
    };
    let v: Vec<(u32, u32)> = d.campos_bits.iter().map(|b| (b.ancho_bits, b.offset_bits)).collect();
    assert_eq!(v, vec![(8, 0), (16, 8), (32, 24)]);
}

#[test]
fn recuperacion_tras_dos_declaraciones_invalidas() {
    let fuente = "42 función a() { retornar 0; } 7 función b() { retornar 1; }";
    let errores = parse_fuente(fuente).err().expect("debe fallar");
    assert_eq!(errores.len(), 2);
    assert_eq!(
        errores[0].error.mensaje,
        "token inesperado en declaración top-level: 'EnteroLiteral(Some(42))'"
    );
    assert_eq!(
        errores[1].error.mensaje,
        "token inesperado en declaración top-level: 'EnteroLiteral(Some(7))'"
    );
}

#[test]
fn recuperacion_sin_errores_da_el_programa() {
    let fuente = "función a() { retornar 0; } función b() { retornar 1; }";
    let programa = parse_fuente(fuente).expect("debe parsear");
    assert_eq!(programa.declaraciones.len(), 2);
}
