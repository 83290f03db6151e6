use autokernel::api::{
    apply_call, load_outcome, run_calls, symbol_get_string, symbol_get_type, symbol_set_auto,
    symbol_set_bool, symbol_set_number, symbol_set_tristate, ApiCall, GuestError, LoadError,
    SetOutcome,
};
use autokernel::table::SymbolTable;
use autokernel::value::SymbolType;

fn table() -> SymbolTable {
    let mut t = SymbolTable::new();
    t.add_symbol("FOO", SymbolType::Boolean).unwrap();
    t.add_symbol("BAR", SymbolType::Tristate).unwrap();
    t.add_symbol("NUM", SymbolType::Number).unwrap();
    t
}

fn set_bool(name: &str, value: bool) -> ApiCall {
    ApiCall::SetBool { name: name.to_string(), value, from: "test.cfg".to_string(), traceback: None }
}

fn set_tristate(name: &str, value: &str) -> ApiCall {
    ApiCall::SetTristate {
        name: name.to_string(),
        value: value.to_string(),
        from: "test.cfg".to_string(),
        traceback: None,
    }
}

#[test]
fn script_sets_bool_and_tristate() {
    let mut t = table();
    assert_eq!(symbol_set_bool(&mut t, "FOO", true, "test.cfg", None), Ok(SetOutcome::Applied));
    assert_eq!(symbol_set_tristate(&mut t, "BAR", "m", "test.cfg", None), Ok(SetOutcome::Applied));
    assert_eq!(symbol_get_string(&t, "FOO"), Ok("y".to_string()));
    assert_eq!(symbol_get_string(&t, "BAR"), Ok("m".to_string()));
    assert_eq!(t.origin("FOO"), Some("test.cfg".to_string()));
    assert_eq!(t.origin("BAR"), Some("test.cfg".to_string()));
}

#[test]
fn set_bool_keeps_type_and_reads_back() {
    let mut t = table();
    assert_eq!(symbol_get_type(&t, "FOO"), Ok("Boolean".to_string()));
    assert_eq!(symbol_set_bool(&mut t, "FOO", true, "a", Some("tb")), Ok(SetOutcome::Applied));
    assert_eq!(symbol_get_type(&t, "FOO"), Ok("Boolean".to_string()));
    assert_eq!(symbol_get_string(&t, "FOO"), Ok("y".to_string()));
    assert_eq!(symbol_set_bool(&mut t, "BAR", false, "a", None), Ok(SetOutcome::Applied));
    assert_eq!(symbol_get_type(&t, "BAR"), Ok("Tristate".to_string()));
    assert_eq!(symbol_get_string(&t, "BAR"), Ok("n".to_string()));
    assert_eq!(symbol_set_bool(&mut t, "NUM", true, "a", None), Ok(SetOutcome::Rejected));
    assert_eq!(symbol_get_string(&t, "NUM"), Ok("0".to_string()));
}

#[test]
fn native_numbers_round_trip_below_two_to_the_63() {
    let mut t = table();
    for x in [0i64, 1, 4096, i64::MAX] {
        assert_eq!(symbol_set_number(&mut t, "NUM", x, "a", None), Ok(SetOutcome::Applied));
        assert_eq!(symbol_get_string(&t, "NUM"), Ok(x.to_string()));
    }
}

#[test]
fn clipped_native_number_is_rejected() {
    let mut t = table();
    assert_eq!(symbol_set_number(&mut t, "NUM", 5, "a", None), Ok(SetOutcome::Applied));
    assert_eq!(symbol_set_number(&mut t, "NUM", -1, "b", None), Ok(SetOutcome::Rejected));
    assert_eq!(symbol_get_string(&t, "NUM"), Ok("5".to_string()));
    assert_eq!(t.origin("NUM"), Some("a".to_string()));
    assert_eq!(symbol_set_number(&mut t, "NOPE", -1, "b", None), Err(GuestError::UnknownSymbol));
}

#[test]
fn large_numbers_pass_as_text() {
    let mut t = table();
    let big = "18446744073709551615";
    assert_eq!(symbol_set_auto(&mut t, "NUM", big, "a", None), Ok(SetOutcome::Applied));
    assert_eq!(symbol_get_string(&t, "NUM"), Ok(big.to_string()));
    let half = "9223372036854775808";
    assert_eq!(symbol_set_auto(&mut t, "NUM", half, "a", None), Ok(SetOutcome::Applied));
    assert_eq!(symbol_get_string(&t, "NUM"), Ok(half.to_string()));
    assert_eq!(
        symbol_set_auto(&mut t, "NUM", "18446744073709551616", "a", None),
        Ok(SetOutcome::Rejected)
    );
    assert_eq!(symbol_get_string(&t, "NUM"), Ok(half.to_string()));
}

#[test]
fn bad_tristate_stops_the_script() {
    let mut t = table();
    assert_eq!(
        symbol_set_tristate(&mut t, "BAR", "maybe", "a", None),
        Err(GuestError::InvalidTristate)
    );
    assert_eq!(symbol_get_string(&t, "BAR"), Ok("n".to_string()));
    assert_eq!(t.origin("BAR"), None);
}

#[test]
fn unknown_symbols_are_reported() {
    let mut t = table();
    assert_eq!(symbol_set_auto(&mut t, "NOPE", "y", "a", None), Err(GuestError::UnknownSymbol));
    assert_eq!(symbol_set_bool(&mut t, "NOPE", true, "a", None), Err(GuestError::UnknownSymbol));
    assert_eq!(symbol_set_number(&mut t, "NOPE", 1, "a", None), Err(GuestError::UnknownSymbol));
    assert_eq!(
        symbol_set_tristate(&mut t, "NOPE", "y", "a", None),
        Err(GuestError::UnknownSymbol)
    );
    assert_eq!(symbol_get_string(&t, "NOPE"), Err(GuestError::UnknownSymbol));
    assert_eq!(symbol_get_type(&t, "NOPE"), Err(GuestError::UnknownSymbol));
}

#[test]
fn same_script_twice_gives_same_result() {
    let calls = vec![
        set_bool("FOO", true),
        set_tristate("BAR", "y"),
        set_bool("NUM", true),
        ApiCall::SetNumber { name: "NUM".to_string(), value: 12, from: "x".to_string(), traceback: None },
        ApiCall::SetAuto {
            name: "FOO".to_string(),
            value: "m".to_string(),
            from: "x".to_string(),
            traceback: None,
        },
    ];
    let mut first = table();
    let mut second = table();
    let r1 = run_calls(&mut first, &calls);
    let r2 = run_calls(&mut second, &calls);
    assert_eq!(r1, r2);
    assert_eq!(
        r1,
        Ok(vec![
            SetOutcome::Applied,
            SetOutcome::Applied,
            SetOutcome::Rejected,
            SetOutcome::Applied,
            SetOutcome::Rejected
        ])
    );
    for name in ["FOO", "BAR", "NUM"] {
        assert_eq!(first.get_string_value(name), second.get_string_value(name));
        assert_eq!(first.origin(name), second.origin(name));
    }
    assert_eq!(first.get_string_value("NUM"), Some("12".to_string()));
}

#[test]
fn failing_call_keeps_earlier_effects() {
    let mut t = table();
    let calls = vec![set_bool("FOO", true), set_tristate("BAR", "bogus"), set_tristate("BAR", "y")];
    assert_eq!(run_calls(&mut t, &calls), Err(GuestError::InvalidTristate));
    assert_eq!(t.get_string_value("FOO"), Some("y".to_string()));
    assert_eq!(t.get_string_value("BAR"), Some("n".to_string()));
    assert_eq!(t.origin("BAR"), None);
}

#[test]
fn single_call_is_applied() {
    let mut t = table();
    assert_eq!(apply_call(&mut t, &set_tristate("BAR", "module")), Ok(SetOutcome::Applied));
    assert_eq!(t.get_string_value("BAR"), Some("m".to_string()));
}

#[test]
fn nested_load_failure_keeps_its_message() {
    assert_eq!(load_outcome(Ok(())), Ok(()));
    assert_eq!(
        load_outcome(Err("no such file: a.config".to_string())),
        Err(LoadError { message: "no such file: a.config".to_string() })
    );
}
