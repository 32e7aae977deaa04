# Mejia

Biblioteca del compilador del lenguaje Mejia (sintaxis en español), verificada con Verus.
Cada función pública declara en `requires` / `ensures` lo que hace, y Verus lo demuestra.

## Organización

- `src/texto.rs`, `src/span.rs`, `src/error.rs`: textos, ubicaciones en el fuente y errores
  del compilador.
- `src/lexico.rs`, `src/lexer.rs`: el analizador léxico. `LexerMejia::tokenizar` devuelve
  exactamente los tokens que describe la especificación léxica (`tokens_del_texto`).
- `src/ast.rs`: el árbol sintáctico.
- `src/parser/`: el parser descendente (Pratt para expresiones) con recuperación de errores.
  `sintaxis.rs` y las funciones `fin_*` describen la sintaxis de todo el lenguaje: cada
  parser tiene éxito exactamente cuando los tokens forman la construcción y se detiene tras
  ella; `ParserMejia::parse` tiene éxito exactamente con los programas sin errores léxicos
  que cumplen esa sintaxis. `arbol.rs` especifica el árbol que devuelven para las
  expresiones, las sentencias y los bloques; `declaraciones.rs`, para las declaraciones.
- `src/futuros.rs`: el análisis de las funciones asíncronas y el layout de su máquina de
  estados.
- `src/resolver.rs`: la resolución de módulos y el orden de compilación (topológico).
- `src/pruebas.rs`: el arnés que convierte las declaraciones `prueba` en un programa.
- `src/lsp.rs`, `src/servidor.rs`: el índice semántico y la lógica del servidor de lenguaje
  (diagnósticos, hover, definiciones, referencias, autocompletado, símbolos).
- `src/codegen.rs`: las tablas y análisis de la generación de código: layouts de structs y
  enums compatibles con la ABI de C, sustitución de genéricos y monomorfización, inferencia
  de argumentos genéricos.
- `src/emision.rs`: la emisión de expresiones y sentencias (asignaciones, retornos,
  condicionales y bucles `mientras`, con sus bloques y saltos) a una representación
  intermedia en forma SSA; `emision` y `emision_sentencia` dicen exactamente qué
  instrucciones añade cada construcción. Las que necesitan el módulo de salida del backend
  (llamadas, textos, flotantes, agregados, declaraciones, bucles `para`) se marcan
  `Externa`.
- `app/`: la línea de órdenes (`clap`) y el servidor LSP sobre `tower-lsp`; leen archivos y
  llaman a la biblioteca. La traducción a código de máquina necesita el backend Cranelift,
  que esta biblioteca no incluye.
- `tests/`: pruebas de la biblioteca.

Las leyes de la biblioteca son funciones `proof` públicas cuyo nombre empieza por `ley_`.
