//! Núcleo verificado del compilador Mejia: posiciones y spans, errores con
//! código, lexer, AST, parser, análisis de futuros y resolución de módulos.

pub mod texto;
pub mod span;
pub mod error;
pub mod lexico;
pub mod lexer;
pub mod ast;
pub mod parser;
pub mod futuros;
pub mod resolver;
pub mod pruebas;
pub mod lsp;
pub mod servidor;
pub mod codegen;
pub mod emision;
