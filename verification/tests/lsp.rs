use mejia::ast::Programa;
use mejia::lexer::LexerMejia;
use mejia::lsp::{obtener, tipo_a_texto, IndiceSemantico};
use mejia::parser::ParserMejia;
use mejia::ast::Tipo;

const FUENTE: &str = "función suma(el a: Entero32, el b: Entero32) -> Entero32 {
    el c: Entero32 = a + b;
    retornar c;
}

estructural Punto {
    x: Entero32,
    y: Entero32
}

función principal() -> Entero32 {
    retornar suma(1, 2);
}";

fn programa(fuente: &str) -> Programa {
    let tokens = LexerMejia::nuevo(fuente.to_string(), "doc.fc".to_string()).tokenizar();
    ParserMejia::parse(tokens).expect("el programa parsea")
}

#[test]
fn indice_registra_funciones_variables_y_structs() {
    let p = programa(FUENTE);
    let indice = IndiceSemantico::desde_ast(&p);
    let nombres: Vec<&str> = indice.funciones.iter().map(|(n, _)| n.as_str()).collect();
    assert_eq!(nombres, vec!["suma", "principal"]);
    let suma = obtener(&indice.funciones, "suma").expect("suma");
    assert_eq!(suma.parametros, vec!["el a: Entero32", "el b: Entero32"]);
    assert_eq!(suma.retorno.as_deref(), Some("Entero32"));
    assert_eq!(suma.parametros_raw[1], ("b".to_string(), "Entero32".to_string()));
    let vars: Vec<&str> = indice.variables.iter().map(|(n, _)| n.as_str()).collect();
    assert_eq!(vars, vec!["a", "b", "c"]);
    let c = obtener(&indice.variables, "c").expect("c");
    assert_eq!(c.tipo, "Entero32");
    assert_eq!(c.articulo, "el");
    assert_eq!(c.articulo_raw, "El");
    let punto = obtener(&indice.structs, "Punto").expect("Punto");
    assert_eq!(punto.campos.len(), 2);
    assert_eq!(punto.campos[0], ("x".to_string(), "Entero32".to_string()));
    assert!(obtener(&indice.enums, "Punto").is_none());
}

#[test]
fn indice_vacio_no_tiene_nada() {
    let indice = IndiceSemantico::nuevo();
    assert!(indice.variables.is_empty() && indice.funciones.is_empty() && indice.traits.is_empty());
    assert!(obtener(&indice.variables, "x").is_none());
}

#[test]
fn tipos_como_texto_de_depuracion() {
    assert_eq!(tipo_a_texto(&Tipo::Entero32), "Entero32");
    assert_eq!(tipo_a_texto(&Tipo::Nombre("Punto".to_string())), "Nombre(\"Punto\")");
}

#[test]
fn identificador_en_posicion_encuentra_usos() {
    let p = programa(FUENTE);
    let indice = IndiceSemantico::desde_ast(&p);
    // `a` en `a + b` (línea 2, columna 22)
    assert_eq!(indice.identificador_en_posicion(&p, 2, 22).as_deref(), Some("a"));
    // `c` en `retornar c;`
    assert_eq!(indice.identificador_en_posicion(&p, 3, 14).as_deref(), Some("c"));
    // la llamada a `suma`
    assert_eq!(indice.identificador_en_posicion(&p, 12, 14).as_deref(), Some("suma"));
    // nada en una línea vacía
    assert_eq!(indice.identificador_en_posicion(&p, 5, 1), None);
}

#[test]
fn encontrar_referencias_declaracion_y_usos() {
    let p = programa(FUENTE);
    let indice = IndiceSemantico::desde_ast(&p);
    let refs = indice.encontrar_referencias(&p, "a");
    // la declaración del parámetro y el uso en `a + b`
    assert_eq!(refs.len(), 2);
    assert_eq!(refs[1].inicio.linea, 2);
    assert_eq!(refs[1].inicio.columna, 22);
    let refs = indice.encontrar_referencias(&p, "suma");
    // la declaración de la función y la llamada en `principal`
    assert_eq!(refs.len(), 2);
    assert_eq!(refs[0].inicio.linea, 1);
    assert_eq!(refs[1].inicio.linea, 12);
    assert!(indice.encontrar_referencias(&p, "nadie").is_empty());
}

#[test]
fn referencias_en_bucles_y_asignaciones() {
    let fuente = "función f() -> Entero32 {
    el i: Entero32 = 0;
    mientras i < 10 {
        i = i + 1;
    }
    retornar i;
}";
    let p = programa(fuente);
    let indice = IndiceSemantico::desde_ast(&p);
    let refs = indice.encontrar_referencias(&p, "i");
    // declaración, condición, valor de la asignación y retorno (el lugar `i =` no cuenta)
    let lineas: Vec<u32> = refs.iter().map(|s| s.inicio.linea).collect();
    assert_eq!(lineas, vec![2, 3, 4, 6]);
}
