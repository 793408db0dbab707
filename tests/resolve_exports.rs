use wasmer_run::resolve::{resolve_function, suggest_function_exports, ExportEntry, ResolveError};

fn export(name: &str, is_function: bool) -> ExportEntry {
    ExportEntry { name: name.to_string(), is_function }
}

fn arith() -> Vec<ExportEntry> {
    vec![export("add", true), export("sub", true), export("mul", true)]
}

#[test]
fn finds_an_exported_function() {
    let args: Vec<String> = vec![];
    assert_eq!(resolve_function(&arith(), "sub", "m.wasm", &args).unwrap(), 1);
}

#[test]
fn missing_export_suggests_known_functions() {
    let args = vec!["2".to_string(), "3".to_string()];
    let err = resolve_function(&arith(), "foo", "m.wasm", &args).unwrap_err();
    match &err {
        ResolveError::Missing { name, suggestions, command } => {
            assert_eq!(name, "foo");
            assert!(suggestions.len() <= 3);
            assert!(!suggestions.is_empty());
            for s in suggestions {
                assert!(["add", "sub", "mul"].contains(&s.as_str()));
            }
            assert_eq!(command, "wasmer m.wasm -i add 2 3");
        }
        _ => panic!("expected a missing export"),
    }
    assert_eq!(
        err.message(),
        "No export `foo` found in the module.\nSimilar functions found: `add`, `sub`, `mul`.\nTry with: wasmer m.wasm -i add 2 3"
    );
}

#[test]
fn suggestions_are_capped_at_three() {
    let exports = vec![
        export("a", true),
        export("b", true),
        export("mem", false),
        export("c", true),
        export("d", true),
    ];
    let args: Vec<String> = vec![];
    let err = resolve_function(&exports, "zzz", "x.wasm", &args).unwrap_err();
    match err {
        ResolveError::Missing { suggestions, .. } => {
            assert_eq!(suggestions, vec!["a".to_string(), "b".to_string(), "c".to_string()]);
        }
        _ => panic!("expected a missing export"),
    }
}

#[test]
fn non_function_export_is_reported() {
    let exports = vec![export("memory", false), export("run", true)];
    let args: Vec<String> = vec![];
    let err = resolve_function(&exports, "memory", "p.wasm", &args).unwrap_err();
    assert!(matches!(err, ResolveError::NotAFunction { .. }));
    assert_eq!(
        err.message(),
        "Export `memory` found, but is not a function.\nSimilar functions found: `run`.\nTry with: wasmer p.wasm -i run "
    );
}

#[test]
fn module_without_functions_says_so() {
    let exports = vec![export("memory", false)];
    let args: Vec<String> = vec![];
    let err = resolve_function(&exports, "memory", "p.wasm", &args).unwrap_err();
    assert!(matches!(err, ResolveError::NoFunctions));
    assert_eq!(err.message(), "The module has no exported functions to call.");
    let err = resolve_function(&vec![], "main", "p.wasm", &args).unwrap_err();
    assert!(matches!(err, ResolveError::NoFunctions));
}

#[test]
fn suggestions_filter_by_prefix() {
    let exports = vec![export("add", true), export("addmul", true), export("sub", true)];
    assert_eq!(
        suggest_function_exports(&exports, "add"),
        vec!["add".to_string(), "addmul".to_string()]
    );
    assert_eq!(suggest_function_exports(&exports, "").len(), 3);
}
