use mejia::ast::{
    Campo, CampoBits, Declaracion, EnumeracionDecl, EstructuralDecl, Expresion, Literal, Llamada,
    ModuloDecl, OperadorBinario, Parametro, Articulo, Sentencia, Tipo, UsarDecl, Variante,
};
use mejia::codegen::{parsear_entero, parsear_natural, tipos_iguales, Codegen};
use mejia::lexer::LexerMejia;
use mejia::lsp::obtener;
use mejia::parser::ParserMejia;
use mejia::span::Span;

fn campo(nombre: &str, tipo: Tipo) -> Campo {
    Campo { nombre: nombre.to_string(), tipo, span: Span::vacio() }
}

fn variante(nombre: &str, datos: Option<Vec<(String, Tipo)>>) -> Variante {
    Variante { nombre: nombre.to_string(), datos, span: Span::vacio() }
}

fn ident(n: &str) -> Expresion {
    Expresion::Identificador(n.to_string(), Span::vacio())
}

#[test]
fn nuevo_registra_resultado() {
    let cg = Codegen::nuevo();
    assert!(cg.structs.is_empty());
    assert_eq!(cg.tamano_tipo(&Tipo::Nombre("Resultado".to_string())), 8);
    assert_eq!(cg.indice_variante_enum("Resultado", "Exito"), Some(0));
    assert_eq!(cg.indice_variante_enum("Resultado", "Error"), Some(1));
    assert_eq!(cg.indice_variante_enum("Resultado", "Otro"), None);
    assert_eq!(cg.indice_variante_enum("Nada", "Exito"), None);
}

#[test]
fn tamanos_de_tipos() {
    let cg = Codegen::nuevo();
    assert_eq!(cg.tamano_tipo(&Tipo::Entero8), 1);
    assert_eq!(cg.tamano_tipo(&Tipo::Natural16), 2);
    assert_eq!(cg.tamano_tipo(&Tipo::Flotante32), 4);
    assert_eq!(cg.tamano_tipo(&Tipo::Texto), 8);
    assert_eq!(cg.tamano_tipo(&Tipo::Vector(Box::new(Tipo::Entero8))), 8);
    assert_eq!(cg.tamano_tipo(&Tipo::Vacio), 4);
    assert_eq!(cg.tamano_tipo(&Tipo::Array(Box::new(Tipo::Entero32), 5)), 20);
    assert_eq!(cg.tamano_tipo(&Tipo::Nombre("Desconocido".to_string())), 4);
    assert_eq!(cg.tamano_tipo(&Tipo::Generico("T".to_string())), 4);
}

#[test]
fn layout_de_struct_con_relleno() {
    let mut cg = Codegen::nuevo();
    let s = EstructuralDecl {
        nombre: "Punto".to_string(),
        campos: vec![campo("a", Tipo::Entero8), campo("b", Tipo::Entero32), campo("c", Tipo::Entero16)],
        campos_bits: vec![],
        span: Span::vacio(),
    };
    cg.registrar_struct(&s);
    let layout = obtener(&cg.structs, "Punto").expect("registrado");
    assert_eq!(layout.tamano, 12);
    assert_eq!(layout.alineacion, 4);
    assert!(!layout.es_bitfield);
    assert_eq!(*obtener(&layout.offsets, "a").unwrap(), 0);
    assert_eq!(*obtener(&layout.offsets, "b").unwrap(), 4);
    assert_eq!(*obtener(&layout.offsets, "c").unwrap(), 8);
    assert!(tipos_iguales(&cg.buscar_tipo_campo("Punto", "c"), &Tipo::Entero16));
    assert!(tipos_iguales(&cg.buscar_tipo_campo("Punto", "z"), &Tipo::Entero32));
    assert!(tipos_iguales(&cg.buscar_tipo_campo("Otro", "a"), &Tipo::Entero32));
    // un struct registrado da su tamaño a los tipos que lo nombran
    assert_eq!(cg.tamano_tipo(&Tipo::Nombre("Punto".to_string())), 12);
    assert_eq!(cg.tamano_tipo(&Tipo::Array(Box::new(Tipo::Nombre("Punto".to_string())), 3)), 36);
}

#[test]
fn layout_de_struct_de_bits() {
    let mut cg = Codegen::nuevo();
    let bits = |n: &str, ancho: u32, offset: u32| CampoBits {
        nombre: n.to_string(),
        ancho_bits: ancho,
        offset_bits: offset,
        span: Span::vacio(),
    };
    let s = EstructuralDecl {
        nombre: "Banderas".to_string(),
        campos: vec![],
        campos_bits: vec![bits("a", 3, 0), bits("b", 10, 3)],
        span: Span::vacio(),
    };
    cg.registrar_struct(&s);
    let layout = obtener(&cg.structs, "Banderas").expect("registrado");
    assert!(layout.es_bitfield);
    assert_eq!((layout.tamano, layout.alineacion), (2, 2));
    assert_eq!(*obtener(&layout.bitfields, "b").unwrap(), (3, 10));
    assert!(layout.offsets.is_empty());
}

#[test]
fn layout_de_enum() {
    let mut cg = Codegen::nuevo();
    let e = EnumeracionDecl {
        nombre: "Forma".to_string(),
        parametros_genericos: vec![],
        variantes: vec![
            variante("A", Some(vec![("x".to_string(), Tipo::Entero64), ("y".to_string(), Tipo::Entero8)])),
            variante("B", None),
            variante("C", Some(vec![("z".to_string(), Tipo::Entero32)])),
        ],
        span: Span::vacio(),
    };
    cg.registrar_enum(&e);
    let layout = obtener(&cg.enums, "Forma").expect("registrado");
    // 4 de tag + 9 de datos, alineado a 4
    assert_eq!(layout.tamano, 16);
    assert_eq!((layout.alineacion, layout.tag_tamano, layout.datos_offset), (4, 4, 4));
    assert_eq!(cg.indice_variante_enum("Forma", "C"), Some(2));
    assert_eq!(obtener(&layout.tipos_datos, "A").unwrap().len(), 2);
    assert!(obtener(&layout.tipos_datos, "B").is_none());
}

#[test]
fn distancia_de_cubetas() {
    let cg = Codegen::nuevo();
    assert_eq!(cg.diccionario_bucket_stride(&Tipo::Entero32, &Tipo::Entero8), 16);
    assert_eq!(cg.diccionario_bucket_stride(&Tipo::Entero64, &Tipo::Entero64), 24);
}

#[test]
fn aplanar_modulos() {
    let cg = Codegen::nuevo();
    let usar = || Declaracion::Usar(UsarDecl { ruta: vec![], span: Span::vacio() });
    let interno = Declaracion::Modulo(ModuloDecl {
        nombre: "b".to_string(),
        contenido: vec![usar()],
        span: Span::vacio(),
    });
    let m = Declaracion::Modulo(ModuloDecl {
        nombre: "a".to_string(),
        contenido: vec![usar(), interno, usar()],
        span: Span::vacio(),
    });
    let planas = cg.aplanar_con_prefijo("", &m);
    let prefijos: Vec<&str> = planas.iter().map(|(p, _)| p.as_str()).collect();
    assert_eq!(prefijos, vec!["a::", "b::", "a::"]);
    let sola = usar();
    let planas = cg.aplanar_con_prefijo("x::", &sola);
    assert_eq!(planas.len(), 1);
    assert_eq!(planas[0].0, "x::");
}

#[test]
fn uso_de_variables_y_funciones_integradas() {
    let cg = Codegen::nuevo();
    let suma = Expresion::Binaria(Box::new(ident("x")), OperadorBinario::Suma, Box::new(ident("y")), Span::vacio());
    assert!(cg.expresion_usa_variable(&suma, "y"));
    assert!(!cg.expresion_usa_variable(&suma, "z"));
    let clausura = Expresion::Closure(vec![("x".to_string(), None)], Box::new(ident("x")), Span::vacio());
    assert!(!cg.expresion_usa_variable(&clausura, "x"));
    let llamada = |f: &str| Llamada { funcion: f.to_string(), tipo_args: vec![], argumentos: vec![], span: Span::vacio() };
    assert!(cg.es_llamada_builtin(&llamada("imprimir")));
    assert!(cg.es_llamada_builtin(&llamada("como_entero64")));
    assert!(!cg.es_llamada_builtin(&llamada("mi_funcion")));
}

#[test]
fn parseo_de_numeros() {
    assert_eq!(parsear_natural(&"42".to_string()), Some(42));
    assert_eq!(parsear_natural(&"+7".to_string()), Some(7));
    assert_eq!(parsear_natural(&"-1".to_string()), None);
    assert_eq!(parsear_natural(&"".to_string()), None);
    assert_eq!(parsear_natural(&"4x".to_string()), None);
    assert_eq!(parsear_natural(&"18446744073709551616".to_string()), None);
    assert_eq!(parsear_entero(&"-9223372036854775808".to_string()), Some(i64::MIN));
    assert_eq!(parsear_entero(&"9223372036854775807".to_string()), Some(i64::MAX));
    assert_eq!(parsear_entero(&"9223372036854775808".to_string()), None);
    assert_eq!(parsear_entero(&"-".to_string()), None);
    assert_eq!(parsear_entero(&"+5".to_string()), Some(5));
    assert_eq!(parsear_entero(&"-+5".to_string()), None);
}

#[test]
fn sustitucion_de_tipos() {
    let cg = Codegen::nuevo();
    let consts = vec![("N".to_string(), "4".to_string()), ("M".to_string(), "no".to_string())];
    let tipos = vec![("T".to_string(), Tipo::Entero64)];
    let mut t = Tipo::Vector(Box::new(Tipo::Generico("T".to_string())));
    cg.sustituir_tipo(&mut t, &consts, &tipos);
    assert!(tipos_iguales(&t, &Tipo::Vector(Box::new(Tipo::Entero64))));
    let mut a = Tipo::ArrayGenerico(Box::new(Tipo::Entero32), "N".to_string());
    cg.sustituir_tipo(&mut a, &consts, &tipos);
    assert!(tipos_iguales(&a, &Tipo::Array(Box::new(Tipo::Entero32), 4)));
    // una constante que no es un número deja el array genérico
    let mut b = Tipo::ArrayGenerico(Box::new(Tipo::Generico("T".to_string())), "M".to_string());
    cg.sustituir_tipo(&mut b, &consts, &tipos);
    assert!(tipos_iguales(&b, &Tipo::ArrayGenerico(Box::new(Tipo::Entero64), "M".to_string())));
    let mut g = Tipo::NombreGenerico("Par".to_string(), vec![Tipo::Generico("T".to_string()), Tipo::Generico("U".to_string())]);
    cg.sustituir_tipo(&mut g, &consts, &tipos);
    assert!(tipos_iguales(
        &g,
        &Tipo::NombreGenerico("Par".to_string(), vec![Tipo::Entero64, Tipo::Generico("U".to_string())])
    ));
}

#[test]
fn monomorfizacion_elimina_el_generico() {
    let cg = Codegen::nuevo();
    let consts = vec![("N".to_string(), "4".to_string())];
    let tipos = vec![("T".to_string(), Tipo::Texto)];
    let mut t = Tipo::NombreGenerico(
        "Par".to_string(),
        vec![Tipo::Vector(Box::new(Tipo::Generico("T".to_string()))), Tipo::Generico("T".to_string())],
    );
    assert!(cg.tipo_contiene_generico(&t, "T"));
    cg.sustituir_tipo(&mut t, &consts, &tipos);
    assert!(!cg.tipo_contiene_generico(&t, "T"));
    // un array cuyo tamaño se fija conserva su tipo de elemento sin sustituir
    let mut a = Tipo::ArrayGenerico(Box::new(Tipo::Generico("T".to_string())), "N".to_string());
    cg.sustituir_tipo(&mut a, &consts, &tipos);
    assert!(tipos_iguales(&a, &Tipo::Array(Box::new(Tipo::Generico("T".to_string())), 4)));
    assert!(cg.tipo_contiene_generico(&a, "T"));
}

#[test]
fn sustitucion_en_expresiones() {
    let cg = Codegen::nuevo();
    let consts = vec![("N".to_string(), "-3".to_string())];
    let mut e = Expresion::Binaria(Box::new(ident("N")), OperadorBinario::Suma, Box::new(ident("x")), Span::vacio());
    cg.sustituir_en_expresion(&mut e, &consts);
    match e {
        Expresion::Binaria(izq, _, der, _) => {
            assert!(matches!(*izq, Expresion::Literal(Literal::Entero(-3, _))));
            assert!(matches!(*der, Expresion::Identificador(ref n, _) if n == "x"));
        }
        _ => panic!("sigue siendo binaria"),
    }
}

#[test]
fn especializar_funcion_generica() {
    let fuente = "función longitud<N: Entero32>(los nums: [Entero32; N]) -> Entero32 { retornar N; }";
    let tokens = LexerMejia::nuevo(fuente.to_string(), "t.fc".to_string()).tokenizar();
    let programa = ParserMejia::parse(tokens).expect("parsea");
    let func = match programa.declaraciones.into_iter().next() {
        Some(Declaracion::Funcion(f)) => f,
        _ => panic!("esperaba función"),
    };
    let cg = Codegen::nuevo();
    let esp = cg.especializar_funcion(func, &vec![("N".to_string(), "5".to_string())], &vec![]);
    assert_eq!(esp.nombre, "longitud_5");
    assert!(esp.parametros_genericos.is_empty());
    assert!(tipos_iguales(&esp.parametros[0].tipo, &Tipo::Array(Box::new(Tipo::Entero32), 5)));
    assert!(matches!(
        &esp.cuerpo.sentencias[0],
        Sentencia::Retornar(Some(Expresion::Literal(Literal::Entero(5, _))), _)
    ));
}

#[test]
fn nombres_de_instancia() {
    let cg = Codegen::nuevo();
    assert_eq!(cg.nombre_tipo_instancia(&Tipo::Array(Box::new(Tipo::Entero32), 4)), "Array_Entero32_4");
    assert_eq!(
        cg.nombre_tipo_instancia(&Tipo::NombreGenerico("Par".to_string(), vec![Tipo::Entero8, Tipo::Texto])),
        "Par_Entero8_Texto"
    );
    assert_eq!(cg.nombre_tipo_instancia(&Tipo::Referencia(Box::new(Tipo::Vacio))), "Ref_Vacio");
    assert_eq!(
        cg.nombre_tipo_instancia(&Tipo::Diccionario(Box::new(Tipo::Palabra), Box::new(Tipo::Booleano))),
        "Diccionario_Palabra_Booleano"
    );
}

#[test]
fn inferencia_de_genericos() {
    let cg = Codegen::nuevo();
    let t = || Tipo::Generico("T".to_string());
    assert!(cg.tipo_contiene_generico(&Tipo::Vector(Box::new(t())), "T"));
    assert!(cg.tipo_contiene_generico(&Tipo::ArrayGenerico(Box::new(Tipo::Entero8), "N".to_string()), "N"));
    assert!(!cg.tipo_contiene_generico(&Tipo::Texto, "T"));
    let extraido = cg.extraer_tipo_generico(&Tipo::Vector(Box::new(Tipo::Booleano)), "T", &Tipo::Vector(Box::new(t())));
    // el tipo hallado vuelve envuelto en el mismo constructor
    assert!(tipos_iguales(&extraido.expect("extrae"), &Tipo::Vector(Box::new(Tipo::Booleano))));
    let directo = cg.extraer_tipo_generico(&Tipo::Booleano, "T", &t());
    assert!(tipos_iguales(&directo.expect("extrae"), &Tipo::Booleano));
    assert!(cg.extraer_tipo_generico(&Tipo::Texto, "T", &Tipo::Vector(Box::new(t()))).is_none());
    assert_eq!(cg.extraer_valor_generico(&Tipo::Array(Box::new(Tipo::Entero8), 7), "N"), Some(7));

    let vars = vec![("v".to_string(), Tipo::Array(Box::new(Tipo::Natural8), 3))];
    let param = |n: &str, tipo: Tipo| Parametro { articulo: Articulo::El, nombre: n.to_string(), tipo, span: Span::vacio() };
    let ps = vec![param("a", t()), param("b", t())];
    let lit = |v: i64| Expresion::Literal(Literal::Entero(v, Span::vacio()));
    let r = cg.inferir_tipo_generico(&ps, &vec![lit(1), lit(2)], &vars, "T");
    assert!(tipos_iguales(&r.expect("infiere"), &Tipo::Entero32));
    let verdadero = Expresion::Literal(Literal::Booleano(true, Span::vacio()));
    assert!(cg.inferir_tipo_generico(&ps, &vec![lit(1), verdadero], &vars, "T").is_none());

    let ps_n = vec![param("xs", Tipo::ArrayGenerico(Box::new(Tipo::Natural8), "N".to_string()))];
    assert_eq!(cg.inferir_const_generico(&ps_n, &vec![ident("v")], &vars, "N"), Some(3));
    assert_eq!(cg.inferir_const_generico(&ps_n, &vec![lit(0)], &vars, "N"), None);
}

#[test]
fn inferencia_de_tipos_de_expresiones() {
    let cg = Codegen::nuevo();
    let vars = vec![("v".to_string(), Tipo::Array(Box::new(Tipo::Natural8), 3))];
    let llamada = |f: &str| Expresion::Llamada(Llamada { funcion: f.to_string(), tipo_args: vec![], argumentos: vec![], span: Span::vacio() });
    assert!(tipos_iguales(&cg.inferir_tipo(&llamada("fc_abrir"), &vars), &Tipo::Entero64));
    assert!(tipos_iguales(&cg.inferir_tipo(&llamada("raiz"), &vars), &Tipo::Flotante64));
    assert!(tipos_iguales(&cg.inferir_tipo(&llamada("otra"), &vars), &Tipo::Entero32));
    let acceso = Expresion::AccesoArray(Box::new(ident("v")), Box::new(ident("i")), Span::vacio());
    assert!(tipos_iguales(&cg.inferir_tipo(&acceso, &vars), &Tipo::Natural8));
    assert!(tipos_iguales(&cg.inferir_tipo(&ident("nadie"), &vars), &Tipo::Entero32));
    let res = Expresion::ConstructorEnum("Resultado".to_string(), "Exito".to_string(), vec![], Span::vacio());
    assert!(tipos_iguales(
        &cg.inferir_tipo(&res, &vars),
        &Tipo::Resultado(Box::new(Tipo::Entero32), Box::new(Tipo::Entero32))
    ));
}

#[test]
fn layout_c_alinea_cada_campo_a_su_tipo() {
    let mut cg = Codegen::nuevo();
    let s = EstructuralDecl {
        nombre: "S".to_string(),
        campos: vec![
            campo("a", Tipo::Entero8),
            campo("b", Tipo::Array(Box::new(Tipo::Entero8), 3)),
        ],
        campos_bits: vec![],
        span: Span::vacio(),
    };
    cg.registrar_struct(&s);
    let layout = obtener(&cg.structs, "S").expect("registrado");
    assert_eq!(*obtener(&layout.offsets, "a").unwrap(), 0);
    assert_eq!(*obtener(&layout.offsets, "b").unwrap(), 1);
    assert_eq!((layout.tamano, layout.alineacion), (4, 1));
    // un struct anidado se alinea a la alineación de sus campos
    let t = EstructuralDecl {
        nombre: "T".to_string(),
        campos: vec![campo("c", Tipo::Entero8), campo("s", Tipo::Nombre("S".to_string())), campo("d", Tipo::Entero16)],
        campos_bits: vec![],
        span: Span::vacio(),
    };
    cg.registrar_struct(&t);
    let layout = obtener(&cg.structs, "T").expect("registrado");
    assert_eq!(*obtener(&layout.offsets, "s").unwrap(), 1);
    assert_eq!(*obtener(&layout.offsets, "d").unwrap(), 6);
    assert_eq!((layout.tamano, layout.alineacion), (8, 2));
    assert_eq!(cg.alineacion_tipo(&Tipo::Array(Box::new(Tipo::Entero32), 7)), 4);
    assert_eq!(cg.alineacion_tipo(&Tipo::Texto), 8);
    assert_eq!(cg.alineacion_tipo(&Tipo::Nombre("S".to_string())), 1);
}
