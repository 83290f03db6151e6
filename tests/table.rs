use autokernel::table::{SetError, SymbolTable, TableError};
use autokernel::value::{coerce_value, SymbolType, SymbolValue, Tristate};

fn table() -> SymbolTable {
    let mut t = SymbolTable::new();
    t.add_symbol("FOO", SymbolType::Boolean).unwrap();
    t.add_symbol("BAR", SymbolType::Tristate).unwrap();
    t.add_symbol("NUM", SymbolType::Number).unwrap();
    t.add_symbol("NAME", SymbolType::String).unwrap();
    t
}

#[test]
fn symbols_start_with_initial_values() {
    let t = table();
    assert_eq!(t.len(), 4);
    assert_eq!(t.get_string_value("FOO"), Some("n".to_string()));
    assert_eq!(t.get_string_value("BAR"), Some("n".to_string()));
    assert_eq!(t.get_string_value("NUM"), Some("0".to_string()));
    assert_eq!(t.get_string_value("NAME"), Some(String::new()));
    assert_eq!(t.origin("FOO"), None);
    assert_eq!(t.names(), vec!["FOO", "BAR", "NUM", "NAME"]);
}

#[test]
fn duplicate_symbol_is_refused() {
    let mut t = table();
    assert_eq!(t.add_symbol("FOO", SymbolType::Number), Err(TableError::DuplicateSymbol));
    assert_eq!(t.len(), 4);
    assert_eq!(t.symbol_type("FOO"), Some(SymbolType::Boolean));
}

#[test]
fn tracked_set_records_provenance() {
    let mut t = table();
    let r = t.set_value_tracked("FOO", SymbolValue::Boolean(true), "a.lua", Some("trace"));
    assert_eq!(r, Ok(()));
    assert_eq!(t.get_string_value("FOO"), Some("y".to_string()));
    assert_eq!(t.origin("FOO"), Some("a.lua".to_string()));
    assert_eq!(t.origin("BAR"), None);
}

#[test]
fn set_of_wrong_type_is_rejected() {
    let mut t = table();
    let r = t.set_value_tracked("FOO", SymbolValue::Tristate(Tristate::Module), "a.lua", None);
    assert_eq!(r, Err(SetError::Rejected));
    assert_eq!(t.get_string_value("FOO"), Some("n".to_string()));
    assert_eq!(t.origin("FOO"), None);
    let r = t.set_value_tracked("NUM", SymbolValue::Auto("ten".to_string()), "a.lua", None);
    assert_eq!(r, Err(SetError::Rejected));
}

#[test]
fn set_of_unknown_symbol_is_an_error() {
    let mut t = table();
    let r = t.set_value_tracked("MISSING", SymbolValue::Boolean(true), "a.lua", None);
    assert_eq!(r, Err(SetError::UnknownSymbol));
    assert_eq!(t.get_string_value("MISSING"), None);
    assert_eq!(t.symbol_type("MISSING"), None);
}

#[test]
fn auto_text_follows_the_declared_type() {
    let mut t = table();
    assert_eq!(t.set_value_tracked("FOO", SymbolValue::Auto("y".to_string()), "f", None), Ok(()));
    assert_eq!(t.get_string_value("FOO"), Some("y".to_string()));
    assert_eq!(t.set_value_tracked("BAR", SymbolValue::Auto("m".to_string()), "f", None), Ok(()));
    assert_eq!(t.get_string_value("BAR"), Some("m".to_string()));
    assert_eq!(t.set_value_tracked("NUM", SymbolValue::Auto("300".to_string()), "f", None), Ok(()));
    assert_eq!(t.get_string_value("NUM"), Some("300".to_string()));
    assert_eq!(t.set_value_tracked("NAME", SymbolValue::Auto("x86".to_string()), "f", None), Ok(()));
    assert_eq!(t.get_string_value("NAME"), Some("x86".to_string()));
    assert_eq!(
        t.set_value_tracked("FOO", SymbolValue::Auto("m".to_string()), "f", None),
        Err(SetError::Rejected)
    );
}

#[test]
fn coercion_maps_booleans_onto_tristates() {
    assert!(matches!(
        coerce_value(SymbolType::Tristate, SymbolValue::Boolean(true)),
        Some(SymbolValue::Tristate(Tristate::Yes))
    ));
    assert!(matches!(
        coerce_value(SymbolType::Number, SymbolValue::Auto("18446744073709551615".to_string())),
        Some(SymbolValue::Number(u64::MAX))
    ));
    assert!(coerce_value(SymbolType::String, SymbolValue::Number(1)).is_none());
}
