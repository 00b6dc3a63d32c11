use shl_lsp::builtins::{
    builtin_documentation, get_builtin_functions, match_callname, render_call_name,
    type_casting_documentation, CallKind,
};
use shl_lsp::casts::{cast_lookup, cast_pairs};
use shl_lsp::template::FunctionTemplate;

#[test]
fn snippet_numbers_generic_placeholders() {
    let t = FunctionTemplate::new(
        "fold".to_string(),
        vec!["f".to_string(), "N".to_string()],
        vec!["list: List<E,N>".to_string(), "initial_accumulator: A".to_string()],
        "A".to_string(),
        "doc".to_string(),
    );
    assert_eq!(t.snippet, "fold::<${1:f}, ${2:N}>");
    assert_eq!(
        t.get_insert_text(),
        "fold::<${1:f}, ${2:N}>(${3:list: List<E,N>}, ${4:initial_accumulator: A})"
    );
    assert_eq!(t.get_signature(), "fn(list: List<E,N>, initial_accumulator: A) -> A");
}

#[test]
fn simple_template_uses_bare_name() {
    let t = FunctionTemplate::simple(
        "unwrap".to_string(),
        vec!["Option<T>".to_string()],
        "T".to_string(),
        "doc".to_string(),
    );
    assert_eq!(t.snippet, "unwrap");
    assert_eq!(t.get_insert_text(), "unwrap(${1:Option<T>})");
    assert_eq!(t.get_signature(), "fn(Option<T>) -> T");
}

#[test]
fn empty_return_type_renders_as_unit() {
    let t = FunctionTemplate::simple(
        "act".to_string(),
        Vec::new(),
        "".to_string(),
        "".to_string(),
    );
    assert_eq!(t.get_signature(), "fn() -> ()");
    assert_eq!(t.get_insert_text(), "act()");
}

#[test]
fn builtin_catalog_has_fixed_templates() {
    let builtins = get_builtin_functions();
    assert_eq!(builtins.len(), 11);
    assert_eq!(builtins[0].display_name, "unwrap_left");
    assert_eq!(builtins[0].snippet, "unwrap_left::<${1:T}>");
    assert_eq!(builtins[4].display_name, "assert!");
    assert_eq!(builtins[10].display_name, "into");
    assert_eq!(builtins[10].snippet, "<${1:Input}>::into");
}

#[test]
fn match_callname_skips_jets_and_custom_calls() {
    assert!(match_callname(&CallKind::Jet("add_32".to_string())).is_none());
    assert!(match_callname(&CallKind::Custom("main".to_string())).is_none());
    let t = match_callname(&CallKind::Assert).unwrap();
    assert_eq!(t.display_name, "assert!");
    assert_eq!(t.get_insert_text(), "assert!(${1:condition: bool})");
    assert_eq!(t.get_signature(), "fn(condition: bool) -> ()");
}

#[test]
fn call_names_render_as_the_compiler_prints_them() {
    assert_eq!(render_call_name(&CallKind::Jet("add_32".to_string())), "jet::add_32");
    assert_eq!(render_call_name(&CallKind::Unwrap), "unwrap");
    assert_eq!(
        render_call_name(&CallKind::UnwrapLeft("u8".to_string())),
        "unwrap_left::<u8>"
    );
    assert_eq!(
        render_call_name(&CallKind::Fold("sum".to_string(), "8".to_string())),
        "fold::<sum, 8>"
    );
    assert_eq!(render_call_name(&CallKind::TypeCast("u32".to_string())), "<u32>::into");
    assert_eq!(render_call_name(&CallKind::Custom("main".to_string())), "main");
}

#[test]
fn builtin_documentation_is_fixed_text() {
    assert_eq!(
        builtin_documentation(&CallKind::Assert),
        "Panics when `condition` is false."
    );
    assert_eq!(
        builtin_documentation(&CallKind::Panic),
        "Unconditionally terminates program execution."
    );
    assert!(type_casting_documentation().contains("## Casting Rules"));
    assert_eq!(builtin_documentation(&CallKind::Jet("x".to_string())), "");
}

#[test]
fn cast_table_is_bidirectional() {
    assert_eq!(cast_lookup("u32").unwrap(), "(u16, u16)");
    assert_eq!(cast_lookup("(u16, u16)").unwrap(), "u32");
    assert_eq!(cast_lookup("bool").unwrap(), "u1");
    assert_eq!(cast_lookup("u1").unwrap(), "bool");
    assert!(cast_lookup("u3").is_none());
    assert!(cast_lookup("").is_none());
    let pairs = cast_pairs();
    assert_eq!(pairs.len(), 18);
    assert_eq!(pairs[0].0, "u1");
    assert_eq!(pairs[0].1, "bool");
    assert_eq!(pairs[17].0, "(u128, u128)");
    assert_eq!(pairs[17].1, "u256");
}
