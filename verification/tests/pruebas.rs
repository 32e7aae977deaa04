use mejia::ast::{Declaracion, Expresion, Literal, Sentencia};
use mejia::lexer::LexerMejia;
use mejia::parser::ParserMejia;
use mejia::pruebas::preparar_pruebas;
use mejia::ast::Programa;

fn programa(fuente: &str) -> Programa {
    let tokens = LexerMejia::nuevo(fuente.to_string(), "p.fc".to_string()).tokenizar();
    ParserMejia::parse(tokens).expect("fuente válido")
}

fn nombre(d: &Declaracion) -> &str {
    match d {
        Declaracion::Funcion(f) => &f.nombre,
        _ => "",
    }
}

#[test]
fn sin_pruebas_no_hay_arnes() {
    assert!(preparar_pruebas(programa("función principal() { }")).is_none());
}

#[test]
fn arnes_de_pruebas() {
    let p = programa(
        "función principal() { }\nprueba \"uno\" { afirmar(1); }\nestructural S { a: Entero32 }\nprueba \"dos\" { }",
    );
    let p = preparar_pruebas(p).expect("hay pruebas");
    let nombres: Vec<&str> = p.declaraciones.iter().map(nombre).collect();
    assert_eq!(nombres, vec!["__principal_usuario", "", "__prueba_0", "__prueba_1", "principal"]);
    let Declaracion::Funcion(prueba0) = &p.declaraciones[2] else { panic!() };
    assert_eq!(prueba0.cuerpo.sentencias.len(), 2);
    assert!(matches!(
        prueba0.cuerpo.sentencias[1],
        Sentencia::Retornar(Some(Expresion::Literal(Literal::Entero(0, _))), _)
    ));
    let Declaracion::Funcion(principal) = &p.declaraciones[4] else { panic!() };
    let cuerpo = &principal.cuerpo.sentencias;
    assert_eq!(cuerpo.len(), 8);
    let Sentencia::Expresion(Expresion::Llamada(aviso)) = &cuerpo[0] else { panic!() };
    assert_eq!(aviso.funcion, "imprimir_linea");
    assert!(matches!(&aviso.argumentos[0], Expresion::Literal(Literal::Palabra(m, _)) if m == "  prueba: uno..."));
    let Sentencia::Expresion(Expresion::Llamada(llamada)) = &cuerpo[4] else { panic!() };
    assert_eq!(llamada.funcion, "__prueba_1");
    let Sentencia::Expresion(Expresion::Llamada(fin)) = &cuerpo[6] else { panic!() };
    assert!(matches!(&fin.argumentos[0], Expresion::Literal(Literal::Palabra(m, _)) if m == "\nTodas las pruebas pasaron."));
}
