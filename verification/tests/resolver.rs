use mejia::resolver::{Resolver, UnidadCompilacion};

fn unidad(nombre: &str, deps: &[&str]) -> UnidadCompilacion {
    UnidadCompilacion {
        ruta: format!("{}.fc", nombre),
        nombre_modulo: nombre.to_string(),
        dependencias: deps.iter().map(|d| d.to_string()).collect(),
        fuente: String::new(),
    }
}

#[test]
fn orden_pone_las_dependencias_primero() {
    let mut r = Resolver::nuevo(".");
    r.registrar(unidad("a", &["b"]));
    r.registrar(unidad("b", &["c"]));
    r.registrar(unidad("c", &[]));
    r.calcular_orden(&vec![]).unwrap();
    assert_eq!(r.orden, vec!["c", "b", "a"]);
}

#[test]
fn dependencia_circular_es_error() {
    let mut r = Resolver::nuevo(".");
    r.registrar(unidad("a", &["b"]));
    r.registrar(unidad("b", &["a"]));
    let e = r.calcular_orden(&vec![]).unwrap_err();
    assert_eq!(e, "Dependencia circular detectada en módulo 'a'");
    assert!(r.orden.is_empty());
}

#[test]
fn dependencia_en_disco_sin_resolver_es_error() {
    let mut r = Resolver::nuevo(".");
    r.registrar(unidad("a", &["x"]));
    let e = r.calcular_orden(&vec!["x".to_string()]).unwrap_err();
    assert_eq!(e, "Módulo 'x' no encontrado");
}

#[test]
fn dependencia_inexistente_se_ignora() {
    let mut r = Resolver::nuevo(".");
    r.registrar(unidad("a", &["x"]));
    r.calcular_orden(&vec![]).unwrap();
    assert_eq!(r.orden, vec!["a"]);
}

#[test]
fn diamante_visita_cada_modulo_una_vez() {
    let mut r = Resolver::nuevo(".");
    r.registrar(unidad("app", &["izq", "der"]));
    r.registrar(unidad("izq", &["base"]));
    r.registrar(unidad("der", &["base"]));
    r.registrar(unidad("base", &[]));
    r.calcular_orden(&vec![]).unwrap();
    assert_eq!(r.orden, vec!["base", "izq", "der", "app"]);
}

#[test]
fn extraer_imports_sin_repetir() {
    let r = Resolver::nuevo(".");
    let fuente = "usar m::f;\nusar n::*;\nusar m::g;\nfunción principal() { }";
    let imports = r.extraer_imports(fuente, "p.fc").unwrap();
    assert_eq!(imports, vec!["m", "n"]);
}

#[test]
fn modulos_resueltos() {
    let mut r = Resolver::nuevo("/proyecto");
    assert_eq!(r.base_dir, "/proyecto");
    assert!(!r.esta_resuelto(&"a".to_string()));
    r.registrar(unidad("a", &[]));
    assert!(r.esta_resuelto(&"a".to_string()));
    assert_eq!(r.indice_modulo(&"a".to_string()), Some(0));
}

#[test]
fn ciclo_sin_modulos_faltantes_da_el_mensaje_de_dependencia_circular() {
    let mut r = Resolver::nuevo(".");
    r.registrar(unidad("a", &["a"]));
    let o0 = r.orden.clone();
    let e = r.calcular_orden(&vec![]).unwrap_err();
    assert!(e.starts_with("Dependencia circular detectada en módulo '"));
    assert_eq!(r.orden, o0);
    assert_eq!(r.modulos.len(), 1);
}

#[test]
fn dependencias_pendientes_son_las_no_resueltas_en_orden() {
    let mut r = Resolver::nuevo(".");
    r.registrar(unidad("a", &["b", "c"]));
    let deps = vec!["c".to_string(), "a".to_string(), "b".to_string(), "c".to_string()];
    assert_eq!(r.dependencias_pendientes(&deps), vec!["c", "b", "c"]);
    assert!(r.dependencias_pendientes(&vec!["a".to_string()]).is_empty());
}

#[test]
fn indices_en_orden_de_compilacion() {
    let mut r = Resolver::nuevo(".");
    r.registrar(unidad("a", &["b"]));
    r.registrar(unidad("b", &[]));
    r.calcular_orden(&vec![]).unwrap();
    assert_eq!(r.indices_en_orden().unwrap(), vec![1, 0]);
    r.orden.push("z".to_string());
    assert_eq!(r.indices_en_orden().unwrap_err(), "Módulo 'z' no encontrado");
}
