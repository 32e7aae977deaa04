use mejia::lexer::{desescapar_cadena, LexerMejia, Token, TokenConSpan};

fn tokenizar(fuente: &str) -> Vec<TokenConSpan> {
    LexerMejia::nuevo(fuente.to_string(), "test.fc".to_string()).tokenizar()
}

#[test]
fn test_lexer_hola_mundo() {
    let fuente = r#"función principal() {
    // Hola mundo
    retornar 0;
}"#;
    let tokens = tokenizar(fuente);
    assert!(tokens.len() > 0);
    assert!(matches!(tokens[0].token, Token::Funcion));
}

#[test]
fn test_lexer_aritmetica() {
    let fuente = r#"el a: Entero32 = 10;
el c: Entero32 = a + b * 2;"#;
    let tokens = tokenizar(fuente);
    for (i, t) in tokens.iter().enumerate() {
        println!("{}: {:?}", i, t.token);
    }
    assert!(matches!(tokens[0].token, Token::ArticuloEl));
    assert!(matches!(tokens[5].token, Token::EnteroLiteral(Some(10))));
    assert!(matches!(tokens[12].token, Token::Identificador(_)));
    assert!(matches!(tokens[13].token, Token::Mas));
    assert!(matches!(tokens[15].token, Token::Asterisco));
}

#[test]
fn test_lexer_string() {
    let tokens = tokenizar(r#""Hola, mundo""#);
    assert_eq!(tokens.len(), 1);
    assert!(matches!(
        &tokens[0].token,
        Token::PalabraLiteral(Some(s)) if s == "Hola, mundo"
    ));
}

#[test]
fn test_lexer_string_escapes() {
    let fuente = "\"".to_string() + "a\\nb\\tc\\\"d\\\\e\\x41" + "\"";
    let tokens = tokenizar(&fuente);
    let esperado = "a\nb\tc\"d\\eA";
    assert_eq!(tokens.len(), 1);
    assert!(matches!(
        &tokens[0].token,
        Token::PalabraLiteral(Some(s)) if s == esperado
    ));
}

#[test]
fn test_lexer_funcion_alias() {
    for kw in ["función", "funcion", "fn"] {
        let fuente = format!("{} principal() {{
    retornar 0;
}}", kw);
        let tokens = tokenizar(&fuente);
        assert!(matches!(tokens[0].token, Token::Funcion), "'{}' debería lexear como Funcion", kw);
    }
}

#[test]
fn test_lexer_articulos() {
    let tokens = tokenizar("el la un los las");
    assert_eq!(tokens.len(), 5);
    assert!(matches!(tokens[0].token, Token::ArticuloEl));
    assert!(matches!(tokens[1].token, Token::ArticuloLa));
    assert!(matches!(tokens[2].token, Token::ArticuloUn));
    assert!(matches!(tokens[3].token, Token::ArticuloLos));
    assert!(matches!(tokens[4].token, Token::ArticuloLas));
}

#[test]
fn lexer_spans_lineas_y_columnas() {
    let tokens = tokenizar("si\n  xñ >= 1.5");
    assert_eq!(tokens.len(), 4);
    assert_eq!((tokens[0].span.inicio.linea, tokens[0].span.inicio.columna, tokens[0].span.inicio.offset), (1, 1, 0));
    assert_eq!((tokens[1].span.inicio.linea, tokens[1].span.inicio.columna, tokens[1].span.inicio.offset), (2, 3, 5));
    assert_eq!(tokens[1].span.fin.offset, 8); // 'ñ' ocupa dos bytes
    assert!(matches!(&tokens[1].token, Token::Identificador(s) if s == "xñ"));
    assert!(matches!(tokens[2].token, Token::MayorIgual));
    assert!(matches!(&tokens[3].token, Token::FlotanteLiteral(Some(s)) if s == "1.5"));
    assert_eq!(tokens[3].span.archivo, "test.fc");
}

#[test]
fn lexer_maximo_tramo_y_rangos() {
    let tokens = tokenizar("1..=5 a>>>b ->x => elemento");
    let esperados: Vec<&str> = vec![
        "EnteroLiteral(Some(1))", "PuntoPuntoIgual", "EnteroLiteral(Some(5))",
        "Identificador(\"a\")", "TripleMayor", "Identificador(\"b\")",
        "Flecha", "Identificador(\"x\")", "FlechaGruesa", "Identificador(\"elemento\")",
    ];
    let obtenidos: Vec<String> = tokens.iter().map(|t| format!("{:?}", t.token)).collect();
    assert_eq!(obtenidos, esperados);
}

#[test]
fn lexer_entero_fuera_de_rango_y_errores() {
    let tokens = tokenizar("99999999999999999999 @ 'ab'");
    assert!(matches!(tokens[0].token, Token::EnteroLiteral(None)));
    assert!(matches!(tokens[1].token, Token::Error));
    assert!(matches!(tokens[2].token, Token::Error));
    let tokens = tokenizar("'x' \"sin cierre");
    assert!(matches!(tokens[0].token, Token::CaracterLiteral(Some('x'))));
    assert_eq!(tokens.len(), 2);
    assert!(matches!(tokens[1].token, Token::Error));
}

#[test]
fn desescapar_casos_borde() {
    assert_eq!(desescapar_cadena("\\x4"), "\\x4");
    assert_eq!(desescapar_cadena("\\xZZ!"), "\\xZZ!");
    assert_eq!(desescapar_cadena("\\x+F"), "\u{f}");
    assert_eq!(desescapar_cadena("\\q\\0fin\\"), "q\0fin\\");
    assert_eq!(desescapar_cadena("\\xff"), "\u{ff}");
}

#[test]
fn token_es_igual() {
    assert!(Token::Identificador("a".to_string()).es_igual(&Token::Identificador("a".to_string())));
    assert!(!Token::Identificador("a".to_string()).es_igual(&Token::Identificador("b".to_string())));
    assert!(Token::Coma.es_igual(&Token::Coma));
    assert!(!Token::Coma.es_igual(&Token::PuntoYComa));
}

#[test]
fn spans_de_tokens_ordenados_y_dentro_del_texto() {
    let fuente = "el á = 1; // nota\n  b >= 20";
    let lexer = LexerMejia::nuevo(fuente.to_string(), "f.fc".to_string());
    let tokens = lexer.tokenizar();
    assert_eq!(tokens.len(), 8);
    for (i, t) in tokens.iter().enumerate() {
        assert_eq!(t.span.archivo, "f.fc");
        assert!(t.span.inicio.offset < t.span.fin.offset);
        assert!(t.span.fin.offset as usize <= fuente.len());
        if i + 1 < tokens.len() {
            assert!(t.span.fin.offset <= tokens[i + 1].span.inicio.offset);
        }
    }
    // solo espacios y comentarios: ningún token
    let vacio = LexerMejia::nuevo("  // nada\n\t".to_string(), "f.fc".to_string());
    assert!(vacio.tokenizar().is_empty());
}

#[test]
fn posicion_cuenta_saltos_y_columnas() {
    let lexer = LexerMejia::nuevo("ab\ncd".to_string(), "f.fc".to_string());
    let p = lexer.offset_a_posicion(4);
    assert_eq!((p.linea, p.columna, p.offset), (2, 2, 4));
    let p = lexer.offset_a_posicion(0);
    assert_eq!((p.linea, p.columna, p.offset), (1, 1, 0));
}
