use monaco::bindings::Bindings;
use monaco::dotenv::parse_dotenv;
use monaco::utils::merge_maps;
use monaco::value::Value;

fn bind<V>(pairs: Vec<(&str, V)>) -> Bindings<V> {
    let mut b = Bindings::new();
    for (k, v) in pairs {
        b.push(k.to_string(), v);
    }
    b
}

#[test]
fn later_binding_wins() {
    let mut b: Bindings<String> = Bindings::new();
    b.push("k".to_string(), "first".to_string());
    b.push("k".to_string(), "second".to_string());
    assert_eq!(b.get("k"), Some(&"second".to_string()));
    assert_eq!(b.get("missing"), None);
}

#[test]
fn extend_prefers_the_extension() {
    let mut a = bind(vec![("x", "1".to_string()), ("y", "2".to_string())]);
    let b = bind(vec![("y", "3".to_string())]);
    a.extend(b);
    assert_eq!(a.get("x"), Some(&"1".to_string()));
    assert_eq!(a.get("y"), Some(&"3".to_string()));
    assert_eq!(a.len(), 3);
}

#[test]
fn merge_maps_serializes_values() {
    let first = bind(vec![("a", Value::Str("x".to_string())), ("b", Value::Int(1))]);
    let second = bind(vec![("b", Value::Bool(true)), ("n", Value::Null)]);
    let merged = merge_maps(&first, &second);
    assert_eq!(merged.get("a"), Some(&"\"x\"".to_string()));
    assert_eq!(merged.get("b"), Some(&"true".to_string()));
    assert_eq!(merged.get("n"), Some(&"null".to_string()));
    assert_eq!(merged.len(), 4);
}

#[test]
fn dotenv_lines_parse() {
    let lines = vec![
        "KEY=VALUE".to_string(),
        "".to_string(),
        "A=B=C".to_string(),
        "EMPTY=".to_string(),
    ];
    let env = parse_dotenv(&lines).unwrap();
    assert_eq!(env.get("KEY"), Some(&"VALUE".to_string()));
    assert_eq!(env.get("A"), Some(&"B=C".to_string()));
    assert_eq!(env.get("EMPTY"), Some(&"".to_string()));
    assert_eq!(env.len(), 3);
}

#[test]
fn dotenv_line_without_equals_fails_with_line_number() {
    let lines = vec!["OK=1".to_string(), "".to_string(), "BAD".to_string()];
    match parse_dotenv(&lines) {
        Err(n) => assert_eq!(n, 3),
        Ok(_) => panic!("a line without '=' must be rejected"),
    }
}
