use mejia::error::{CategoriaError, ErrorCompilador};
use mejia::lsp::IndiceSemantico;
use mejia::servidor::{
    acciones_de_codigo, analizar_documento, error_a_diagnostico, explicar_articulo,
    hover_para_identificador, items_autocompletado, items_autocompletado_contexto,
    simbolos_del_documento, span_a_rango, span_en_rango, unir, ClaseCompletado, ClaseSimbolo,
    Diagnostico, DocumentoLsp, PosicionLsp, RangoLsp, SeveridadLsp,
};
use mejia::span::{Posicion, Span};

const FUENTE: &str = "función suma(el a: Entero32, el b: Entero32) -> Entero32 {
    el c: Entero32 = a + b;
    retornar c;
}

estructural Punto {
    x: Entero32,
    y: Entero32
}

enumeración Color {
    Rojo,
    Verde
}

función principal() -> Entero32 {
    el p: Punto = Punto { x: 1, y: 2 };
    retornar suma(1, 2);
}";

fn documento(fuente: &str) -> DocumentoLsp {
    let (diags, indice, ast) = analizar_documento("doc.fc", fuente);
    assert!(diags.is_empty(), "diagnósticos: {:?}", diags);
    DocumentoLsp { contenido: fuente.to_string(), indice, ast }
}

fn span(l1: u32, c1: u32, l2: u32, c2: u32) -> Span {
    Span::nuevo(Posicion::nueva(l1, c1, 0), Posicion::nueva(l2, c2, 0), "doc.fc".to_string())
}

fn rango(l1: u32, c1: u32, l2: u32, c2: u32) -> RangoLsp {
    RangoLsp {
        inicio: PosicionLsp { linea: l1, caracter: c1 },
        fin: PosicionLsp { linea: l2, caracter: c2 },
    }
}

#[test]
fn span_a_rango_resta_uno_sin_bajar_de_cero() {
    assert_eq!(span_a_rango(&span(3, 5, 4, 1)), rango(2, 4, 3, 0));
    assert_eq!(span_a_rango(&span(0, 0, 1, 0)), rango(0, 0, 0, 0));
}

#[test]
fn span_en_rango_mira_la_linea_de_inicio() {
    let pedido = rango(2, 0, 4, 0);
    assert!(span_en_rango(rango(2, 9, 9, 9), &pedido));
    assert!(span_en_rango(rango(4, 0, 4, 0), &pedido));
    assert!(!span_en_rango(rango(1, 0, 3, 0), &pedido));
    assert!(!span_en_rango(rango(5, 0, 5, 0), &pedido));
}

#[test]
fn error_a_diagnostico_con_y_sin_sugerencia() {
    let e = ErrorCompilador::nuevo(CategoriaError::Tipo, 5, span(2, 3, 2, 8), "tipos distintos".to_string());
    let d = error_a_diagnostico(&e);
    assert_eq!(d.rango, rango(1, 2, 1, 7));
    assert_eq!(d.severidad, SeveridadLsp::Error);
    assert_eq!(d.codigo, "T005");
    assert_eq!(d.fuente, "mejia");
    assert_eq!(d.mensaje, "[T005] tipos distintos");
    let w = ErrorCompilador::nuevo(CategoriaError::Warning, 12, span(1, 1, 1, 1), "sin usar".to_string())
        .con_sugerencia("bórrala".to_string());
    let d = error_a_diagnostico(&w);
    assert_eq!(d.severidad, SeveridadLsp::Advertencia);
    assert_eq!(d.mensaje, "[W012] sin usar\n💡 bórrala");
}

#[test]
fn explicar_articulo_cada_caso() {
    assert_eq!(explicar_articulo("el"), "dueño único, mutable");
    assert_eq!(explicar_articulo("la"), "prestado, solo lectura");
    assert_eq!(explicar_articulo("un"), "opcional (quizás existe)");
    assert_eq!(explicar_articulo("los"), "compartido (ref-counted), múltiples dueños");
    assert_eq!(explicar_articulo("las"), "compartido, solo lectura (todos leen)");
    assert_eq!(explicar_articulo("El"), "desconocido");
}

#[test]
fn unir_con_separador() {
    assert_eq!(unir(&vec![], ", "), "");
    assert_eq!(unir(&vec!["a".to_string()], ", "), "a");
    assert_eq!(unir(&vec!["a".to_string(), "b".to_string(), "c".to_string()], ", "), "a, b, c");
}

#[test]
fn hover_de_variable_funcion_struct_y_enum() {
    let doc = documento(FUENTE);
    let h = hover_para_identificador(&doc.indice, "c").expect("c");
    assert_eq!(
        h,
        "**c** | `el`\n\n| Propiedad | Valor |\n|-----------|-------|\n| Artículo | `El` → desconocido |\n| Tipo | `Entero32` |\n"
    );
    let h = hover_para_identificador(&doc.indice, "suma").expect("suma");
    assert_eq!(
        h,
        "**fn** `suma(el a: Entero32, el b: Entero32) -> Entero32`\n\n| Parámetro | Tipo |\n|-----------|------|\n| `a` | `Entero32` |\n| `b` | `Entero32` |\n\n---\n*Función de mejia*"
    );
    let h = hover_para_identificador(&doc.indice, "Punto").expect("Punto");
    assert_eq!(h, "**estructural** `Punto`\n\n| Campo | Tipo |\n|-------|------|\n| `x` | `Entero32` |\n| `y` | `Entero32` |\n");
    let h = hover_para_identificador(&doc.indice, "Color").expect("Color");
    assert_eq!(h, "**enumeración** `Color`\n\n| Variante | Dato |\n|----------|------|\n| `Rojo` | `—` |\n| `Verde` | `—` |\n");
    assert_eq!(hover_para_identificador(&doc.indice, "nadie"), None);
}

#[test]
fn hover_de_variable_que_tambien_es_funcion() {
    let fuente = "función f(el f: Entero32) -> Entero32 {
    retornar f;
}";
    let doc = documento(fuente);
    let h = hover_para_identificador(&doc.indice, "f").expect("f");
    assert!(h.starts_with("**f** | `el`"));
    assert!(h.ends_with("\n---\n*Declaración*: `f(el f: Entero32) -> Entero32`\n"));
}

#[test]
fn catalogo_fijo_de_autocompletado() {
    let items = items_autocompletado();
    assert_eq!(items.len(), 43 + 5 + 17 + 2 + 25);
    assert_eq!(items[0].etiqueta, "función");
    assert_eq!(items[0].detalle, "Declara una función");
    assert_eq!(items[0].clase, ClaseCompletado::PalabraClave);
    assert!(items[0].texto_plano);
    assert_eq!(items[43].etiqueta, "el");
    assert!(!items[43].texto_plano);
    assert_eq!(items[48].etiqueta, "Entero8");
    assert_eq!(items[48].clase, ClaseCompletado::ParametroTipo);
    assert_eq!(items[65].etiqueta, "verdadero");
    assert_eq!(items[66].clase, ClaseCompletado::Constante);
    assert_eq!(items[67].etiqueta, "imprimir");
    assert_eq!(items[91].etiqueta, "canal_recibir");
    assert_eq!(items[91].clase, ClaseCompletado::Funcion);
}

#[test]
fn autocompletado_de_contexto_sin_punto() {
    let doc = documento(FUENTE);
    let items = items_autocompletado_contexto(&doc.indice, &doc.contenido, 0);
    let etiquetas: Vec<&str> = items.iter().map(|e| e.etiqueta.as_str()).collect();
    assert_eq!(etiquetas, vec!["a", "b", "c", "p", "suma", "principal", "Punto", "Color"]);
    assert_eq!(items[0].detalle, "el a: Entero32");
    assert_eq!(items[0].clase, ClaseCompletado::Variable);
    assert_eq!(items[4].detalle, "suma(el a: Entero32, el b: Entero32) -> Entero32");
    assert_eq!(items[5].detalle, "principal() -> Entero32");
    assert_eq!(items[6].detalle, "estructural Punto (2 campos)");
    assert_eq!(items[7].detalle, "enumeración Color (2 variantes)");
    assert_eq!(items[7].clase, ClaseCompletado::Enumeracion);
}

#[test]
fn autocompletado_de_campos_tras_nombre_y_punto() {
    let doc = documento("estructural Punto {\n    x: Entero32\n}\n");
    let texto = "primera\r\n  el q = Punto.x\n";
    let items = items_autocompletado_contexto(&doc.indice, texto, 1);
    let ultimo = items.last().expect("hay elementos");
    assert_eq!(ultimo.etiqueta, "x");
    assert_eq!(ultimo.clase, ClaseCompletado::Campo);
    assert_eq!(ultimo.detalle, "x: Entero32");
    // justo tras `Punto.`
    let items = items_autocompletado_contexto(&doc.indice, "Punto.", 0);
    assert_eq!(items.len(), 2);
    assert_eq!(items[1].etiqueta, "x");
    assert_eq!(items[1].clase, ClaseCompletado::Campo);
    // un nombre que no es un struct, o nada de nombre antes del punto: no hay campos
    let items = items_autocompletado_contexto(&doc.indice, "a\nOtro.x\n", 1);
    assert!(items.iter().all(|e| e.clase != ClaseCompletado::Campo));
    let items = items_autocompletado_contexto(&doc.indice, "Punto. .", 0);
    assert!(items.iter().all(|e| e.clase != ClaseCompletado::Campo));
    // línea inexistente
    let items = items_autocompletado_contexto(&doc.indice, "Punto. .", 40);
    assert_eq!(items.len(), 1);
}

#[test]
fn autocompletado_junta_catalogo_y_documento() {
    let doc = documento(FUENTE);
    let items = doc.autocompletado(0);
    assert_eq!(items.len(), 92 + 8);
    assert_eq!(items[92].etiqueta, "a");
}

#[test]
fn simbolos_del_documento_en_orden() {
    let doc = documento(FUENTE);
    let simbolos = simbolos_del_documento(&doc.indice).expect("hay símbolos");
    let nombres: Vec<&str> = simbolos.iter().map(|s| s.nombre.as_str()).collect();
    assert_eq!(nombres, vec!["suma", "principal", "Punto", "Color"]);
    assert_eq!(simbolos[0].clase, ClaseSimbolo::Funcion);
    assert_eq!(simbolos[0].detalle, "suma(a: Entero32, b: Entero32) -> Entero32");
    assert_eq!(simbolos[0].rango.inicio.linea, 0);
    assert_eq!(simbolos[2].detalle, "estructural (2 campos)");
    let campos = simbolos[2].hijos.as_ref().expect("campos");
    assert_eq!(campos[1].nombre, "y");
    assert_eq!(campos[1].clase, ClaseSimbolo::Campo);
    assert_eq!(campos[1].detalle, "Entero32");
    assert_eq!(campos[1].rango, rango(0, 0, 0, 0));
    let variantes = simbolos[3].hijos.as_ref().expect("variantes");
    assert_eq!(variantes[0].detalle, "—");
    assert_eq!(variantes[0].clase, ClaseSimbolo::MiembroEnum);
    assert!(simbolos_del_documento(&IndiceSemantico::nuevo()).is_none());
}

#[test]
fn acciones_de_codigo_por_codigo_y_rango() {
    let d = |linea: u32, codigo: &str, mensaje: &str| Diagnostico {
        rango: rango(linea, 0, linea, 3),
        severidad: SeveridadLsp::Error,
        codigo: codigo.to_string(),
        fuente: "mejia".to_string(),
        mensaje: mensaje.to_string(),
    };
    let diags = vec![
        d(1, "T001", "x"),
        d(2, "O001", "y"),
        d(3, "S002", "z\n💡 pon un punto y coma"),
        d(3, "S003", "sin sugerencia"),
        d(9, "T005", "fuera de rango"),
    ];
    let acciones = acciones_de_codigo(&diags, &rango(1, 0, 3, 0)).expect("hay acciones");
    let titulos: Vec<&str> = acciones.iter().map(|a| a.titulo.as_str()).collect();
    assert_eq!(
        titulos,
        vec![
            "💡 Revisar tipo (abre hover)",
            "🔧 Usar `mover` / `copiar` antes del uso",
            "💡 Seguir sugerencia del compilador"
        ]
    );
    assert_eq!(acciones[2].diagnostico.codigo, "S002");
    assert!(acciones_de_codigo(&diags, &rango(4, 0, 8, 0)).is_none());
}

#[test]
fn ayuda_de_firma_tras_parentesis() {
    let doc = documento(FUENTE);
    // línea 17 (desde 0): "    retornar suma(1, 2);" — el cursor tras `suma(`
    let firma = doc.ayuda_de_firma(PosicionLsp { linea: 17, caracter: 18 }).expect("firma");
    assert_eq!(firma.etiqueta, "suma(a: Entero32, b: Entero32) -> Entero32");
    assert_eq!(firma.documentacion, "Función `suma` de mejia");
    assert_eq!(firma.parametros.len(), 2);
    assert_eq!(firma.parametros[1].etiqueta, "b: Entero32");
    assert_eq!(firma.parametros[1].documentacion, "Entero32");
    // antes del paréntesis no hay firma
    assert!(doc.ayuda_de_firma(PosicionLsp { linea: 17, caracter: 10 }).is_none());
    // función desconocida
    let doc2 = documento("función f() {\n    g(1);\n}");
    assert!(doc2.ayuda_de_firma(PosicionLsp { linea: 1, caracter: 6 }).is_none());
}

#[test]
fn definicion_hover_y_referencias_por_posicion() {
    let doc = documento(FUENTE);
    // `a` en `a + b`: línea 1, carácter 21 (desde 0)
    let pos = PosicionLsp { linea: 1, caracter: 21 };
    let def = doc.definicion(pos).expect("definición");
    assert_eq!(def.inicio.linea, 0);
    let h = doc.hover(pos).expect("hover");
    assert!(h.starts_with("**a** | `el`"));
    let refs = doc.referencias(pos).expect("referencias");
    assert_eq!(refs.len(), 2);
    assert_eq!(refs[1].inicio, PosicionLsp { linea: 1, caracter: 21 });
    // en una línea vacía no hay nada
    let vacia = PosicionLsp { linea: 4, caracter: 0 };
    assert!(doc.definicion(vacia).is_none());
    assert!(doc.hover(vacia).is_none());
    assert!(doc.referencias(vacia).is_none());
}

#[test]
fn analizar_documento_con_errores() {
    let (diags, indice, ast) = analizar_documento("doc.fc", "función f() { $ }");
    assert!(ast.is_none());
    assert_eq!(diags.len(), 1);
    assert_eq!(diags[0].codigo, "S008");
    assert_eq!(diags[0].fuente, "mejia");
    assert_eq!(diags[0].rango.inicio, PosicionLsp { linea: 0, caracter: 14 });
    assert!(indice.funciones.is_empty());
}
