use mejia::ast::{Declaracion, FuncionDecl, Sentencia, Tipo};
use mejia::futuros::{
    analizar_futuro, offset_deadline, offset_var, tamano_struct_futuro, tamano_tipo,
};
use mejia::lexer::LexerMejia;
use mejia::parser::ParserMejia;

fn primera_funcion(fuente: &str) -> FuncionDecl {
    let tokens = LexerMejia::nuevo(fuente.to_string(), "f.fc".to_string()).tokenizar();
    let programa = ParserMejia::parse(tokens).expect("fuente válido");
    match programa.declaraciones.into_iter().next() {
        Some(Declaracion::Funcion(f)) => f,
        _ => panic!("esperaba una función"),
    }
}

const FUTURO: &str = "fut función f(el a: Entero32) {
    el x: Entero32 = 1;
    esperar dormir(10);
    el y = x + a;
    esperar dormir(5);
    retornar y;
}";

#[test]
fn tamano_y_alineacion_de_tipos() {
    assert_eq!(tamano_tipo(&Tipo::Entero8), (1, 1));
    assert_eq!(tamano_tipo(&Tipo::Natural16), (2, 2));
    assert_eq!(tamano_tipo(&Tipo::Booleano), (4, 4));
    assert_eq!(tamano_tipo(&Tipo::Entero64), (8, 8));
    assert_eq!(tamano_tipo(&Tipo::Texto), (8, 8));
    assert_eq!(tamano_tipo(&Tipo::Vector(Box::new(Tipo::Entero8))), (24, 8));
    assert_eq!(tamano_tipo(&Tipo::Array(Box::new(Tipo::Entero16), 10)), (20, 2));
    assert_eq!(tamano_tipo(&Tipo::Nombre("Punto".to_string())), (8, 8));
}

#[test]
fn suspensiones_y_segmentos() {
    let analisis = analizar_futuro(primera_funcion(FUTURO));
    assert_eq!(analisis.nombre, "f");
    assert_eq!(analisis.num_estados, 3);
    assert_eq!(analisis.suspensiones.len(), 2);
    assert_eq!(analisis.suspensiones[0].indice_sentencia, 1);
    assert_eq!(analisis.suspensiones[1].indice_sentencia, 3);
    assert_eq!(analisis.segmentos.len(), 3);
    assert_eq!(analisis.segmentos[0].len(), 1);
    assert_eq!(analisis.segmentos[1].len(), 1);
    assert_eq!(analisis.segmentos[2].len(), 1);
    assert!(matches!(analisis.segmentos[2][0], Sentencia::Retornar(_, _)));
}

#[test]
fn variables_vivas_y_layout() {
    let analisis = analizar_futuro(primera_funcion(FUTURO));
    let nombres: Vec<&str> = analisis.vars_struct.iter().map(|v| v.nombre.as_str()).collect();
    assert_eq!(nombres, vec!["a", "x", "y"]);
    let offsets: Vec<u32> = analisis.vars_struct.iter().map(|v| v.offset).collect();
    assert_eq!(offsets, vec![4, 8, 12]);
    assert_eq!(offset_var(&analisis, "a"), Some(4));
    assert_eq!(offset_var(&analisis, "y"), Some(12));
    assert_eq!(offset_var(&analisis, "z"), None);
    assert_eq!(offset_deadline(&analisis), 16);
    assert_eq!(tamano_struct_futuro(&analisis), 24);
    // El deadline cierra el struct
    assert_eq!(offset_deadline(&analisis) + 8, tamano_struct_futuro(&analisis));
}

#[test]
fn sin_suspensiones_no_hay_variables() {
    let analisis = analizar_futuro(primera_funcion(
        "fut función g(el a: Entero64) { el b = a; retornar b; }",
    ));
    assert_eq!(analisis.num_estados, 1);
    assert_eq!(analisis.vars_struct.len(), 0);
    assert_eq!(analisis.segmentos.len(), 1);
    assert_eq!(analisis.segmentos[0].len(), 2);
    assert_eq!(offset_deadline(&analisis), 8);
    assert_eq!(tamano_struct_futuro(&analisis), 16);
}

#[test]
fn alineacion_de_variables_mixtas() {
    let analisis = analizar_futuro(primera_funcion(
        "fut función h(el c: Entero8, el d: Entero64) { esperar e(); retornar c + d; }",
    ));
    let offsets: Vec<u32> = analisis.vars_struct.iter().map(|v| v.offset).collect();
    assert_eq!(offsets, vec![4, 8]);
    // state(4) + c(1) en 4, d alineado a 8: los offsets guardados son los del struct
    assert_eq!(offset_var(&analisis, "c"), Some(4));
    assert_eq!(offset_var(&analisis, "d"), Some(8));
    assert_eq!(offset_deadline(&analisis), 16);
    assert_eq!(tamano_struct_futuro(&analisis), 24);
}

#[test]
fn deadline_tras_el_estado_y_las_variables() {
    let analisis = analizar_futuro(primera_funcion(
        "fut función h(el c: Entero8, el d: Entero64) { esperar e(); retornar c + d; }",
    ));
    let suma: u32 = analisis.vars_struct.iter().map(|v| tamano_tipo(&v.tipo).0).sum();
    assert!(offset_deadline(&analisis) >= 4 + suma);
    assert_eq!(offset_deadline(&analisis) % 8, 0);
    assert_eq!(tamano_struct_futuro(&analisis), offset_deadline(&analisis) + 8);
}
