//! The operations a guest script may call on the symbol table, and the run
//! of a sequence of such calls.

use vstd::prelude::*;
use crate::table::{SetError, SymbolModel, SymbolTable, accepts, assign, has_symbol, symbol_of};
use crate::value::{
    SymbolValue, ValueModel, number_from_guest, parse_tristate, tristate_of, type_label,
    type_text, value_text,
};

verus! {

/// What became of a best-effort assignment.
#[derive(Clone, Copy, Debug, PartialEq, Eq, Structural)]
pub enum SetOutcome {
    /// The symbol now holds the value.
    Applied,
    /// The symbol's type did not admit the value; nothing changed.
    Rejected,
}

/// An error that stops the guest script at the call that raised it.
#[derive(Clone, Copy, Debug, PartialEq, Eq, Structural)]
pub enum GuestError {
    /// No symbol has the name given. Scripts cannot test for a name, so
    /// this is reported rather than ignored.
    UnknownSymbol,
    /// A tristate setter was given text that names no tristate.
    InvalidTristate,
}

/// A nested configuration source failed; its message goes to the guest.
#[derive(Clone, Debug, PartialEq, Eq)]
pub struct LoadError {
    pub message: String,
}

/// One call of a setter by a guest script.
#[derive(Clone, Debug)]
pub enum ApiCall {
    SetAuto { name: String, value: String, from: String, traceback: Option<String> },
    SetBool { name: String, value: bool, from: String, traceback: Option<String> },
    SetNumber { name: String, value: i64, from: String, traceback: Option<String> },
    SetTristate { name: String, value: String, from: String, traceback: Option<String> },
}

pub open spec fn opt_view(o: Option<&str>) -> Option<Seq<char>> {
    match o {
        Some(s) => Some(s@),
        None => None,
    }
}

pub open spec fn opt_string_view(o: Option<String>) -> Option<Seq<char>> {
    match o {
        Some(s) => Some(s@),
        None => None,
    }
}

/// A best-effort assignment: the table as [`assign`] leaves it, and whether
/// it took effect. Only a missing symbol is an error.
pub open spec fn best_effort(
    syms: Seq<SymbolModel>,
    name: Seq<char>,
    v: ValueModel,
    from: Seq<char>,
    traceback: Option<Seq<char>>,
) -> (Seq<SymbolModel>, Result<SetOutcome, GuestError>) {
    if !has_symbol(syms, name) {
        (syms, Err(GuestError::UnknownSymbol))
    } else if accepts(syms, name, v) {
        (assign(syms, name, v, from, traceback), Ok(SetOutcome::Applied))
    } else {
        (syms, Ok(SetOutcome::Rejected))
    }
}

/// A native number from the guest: a negative one was clipped and is
/// rejected without touching the symbol.
pub open spec fn number_effect(
    syms: Seq<SymbolModel>,
    name: Seq<char>,
    value: i64,
    from: Seq<char>,
    traceback: Option<Seq<char>>,
) -> (Seq<SymbolModel>, Result<SetOutcome, GuestError>) {
    if value < 0 {
        if has_symbol(syms, name) {
            (syms, Ok(SetOutcome::Rejected))
        } else {
            (syms, Err(GuestError::UnknownSymbol))
        }
    } else {
        best_effort(syms, name, ValueModel::Number(value as u64), from, traceback)
    }
}

/// A tristate token from the guest: one that names no tristate stops the
/// script.
pub open spec fn tristate_effect(
    syms: Seq<SymbolModel>,
    name: Seq<char>,
    value: Seq<char>,
    from: Seq<char>,
    traceback: Option<Seq<char>>,
) -> (Seq<SymbolModel>, Result<SetOutcome, GuestError>) {
    if !has_symbol(syms, name) {
        (syms, Err(GuestError::UnknownSymbol))
    } else {
        match tristate_of(value) {
            Some(t) => best_effort(syms, name, ValueModel::Tristate(t), from, traceback),
            None => (syms, Err(GuestError::InvalidTristate)),
        }
    }
}

/// The effect of one call.
pub open spec fn call_effect(syms: Seq<SymbolModel>, c: ApiCall) -> (
    Seq<SymbolModel>,
    Result<SetOutcome, GuestError>,
) {
    match c {
        ApiCall::SetAuto { name, value, from, traceback } => best_effort(
            syms,
            name@,
            ValueModel::Auto(value@),
            from@,
            opt_string_view(traceback),
        ),
        ApiCall::SetBool { name, value, from, traceback } => best_effort(
            syms,
            name@,
            ValueModel::Boolean(value),
            from@,
            opt_string_view(traceback),
        ),
        ApiCall::SetNumber { name, value, from, traceback } => number_effect(
            syms,
            name@,
            value,
            from@,
            opt_string_view(traceback),
        ),
        ApiCall::SetTristate { name, value, from, traceback } => tristate_effect(
            syms,
            name@,
            value@,
            from@,
            opt_string_view(traceback),
        ),
    }
}

/// The effect of a sequence of calls: each in turn until one fails. The
/// calls before a failure stay committed; those after it are not made.
pub open spec fn run_effect(syms: Seq<SymbolModel>, calls: Seq<ApiCall>) -> (
    Seq<SymbolModel>,
    Result<Seq<SetOutcome>, GuestError>,
)
    decreases calls.len(),
{
    if calls.len() == 0 {
        (syms, Ok(Seq::empty()))
    } else {
        let (s1, r1) = run_effect(syms, calls.drop_last());
        match r1 {
            Err(e) => (s1, Err(e)),
            Ok(outs) => {
                let (s2, r2) = call_effect(s1, calls.last());
                match r2 {
                    Ok(o) => (s2, Ok(outs.push(o))),
                    Err(e) => (s2, Err(e)),
                }
            },
        }
    }
}

fn set_result(r: Result<(), SetError>) -> (o: Result<SetOutcome, GuestError>)
    ensures
        r is Ok ==> o == Ok::<SetOutcome, GuestError>(SetOutcome::Applied),
        r == Err::<(), SetError>(SetError::Rejected) ==> o == Ok::<SetOutcome, GuestError>(
            SetOutcome::Rejected,
        ),
        r == Err::<(), SetError>(SetError::UnknownSymbol) ==> o == Err::<SetOutcome, GuestError>(
            GuestError::UnknownSymbol,
        ),
{
    match r {
        Ok(()) => Ok(SetOutcome::Applied),
        Err(SetError::Rejected) => Ok(SetOutcome::Rejected),
        Err(SetError::UnknownSymbol) => Err(GuestError::UnknownSymbol),
    }
}

/// Assigns text, read as the symbol's declared type demands.
pub fn symbol_set_auto(
    table: &mut SymbolTable,
    name: &str,
    value: &str,
    from: &str,
    traceback: Option<&str>,
) -> (r: Result<SetOutcome, GuestError>)
    requires
        old(table).wf(),
    ensures
        final(table).wf(),
        (final(table)@, r) == best_effort(
            old(table)@,
            name@,
            ValueModel::Auto(value@),
            from@,
            opt_view(traceback),
        ),
{
    let v = SymbolValue::Auto(String::from_str(value));
    set_result(table.set_value_tracked(name, v, from, traceback))
}

/// Assigns a boolean.
pub fn symbol_set_bool(
    table: &mut SymbolTable,
    name: &str,
    value: bool,
    from: &str,
    traceback: Option<&str>,
) -> (r: Result<SetOutcome, GuestError>)
    requires
        old(table).wf(),
    ensures
        final(table).wf(),
        (final(table)@, r) == best_effort(
            old(table)@,
            name@,
            ValueModel::Boolean(value),
            from@,
            opt_view(traceback),
        ),
{
    set_result(table.set_value_tracked(name, SymbolValue::Boolean(value), from, traceback))
}

/// Assigns a native number. Values of 2^63 and above cannot arrive this way
/// and are passed as text through [`symbol_set_auto`].
pub fn symbol_set_number(
    table: &mut SymbolTable,
    name: &str,
    value: i64,
    from: &str,
    traceback: Option<&str>,
) -> (r: Result<SetOutcome, GuestError>)
    requires
        old(table).wf(),
    ensures
        final(table).wf(),
        (final(table)@, r) == number_effect(old(table)@, name@, value, from@, opt_view(traceback)),
{
    match number_from_guest(value) {
        Ok(n) => set_result(table.set_value_tracked(name, SymbolValue::Number(n), from, traceback)),
        Err(_) => {
            if table.find(name).is_some() {
                Ok(SetOutcome::Rejected)
            } else {
                Err(GuestError::UnknownSymbol)
            }
        },
    }
}

/// Assigns a tristate given by its token.
pub fn symbol_set_tristate(
    table: &mut SymbolTable,
    name: &str,
    value: &str,
    from: &str,
    traceback: Option<&str>,
) -> (r: Result<SetOutcome, GuestError>)
    requires
        old(table).wf(),
    ensures
        final(table).wf(),
        (final(table)@, r) == tristate_effect(
            old(table)@,
            name@,
            value@,
            from@,
            opt_view(traceback),
        ),
{
    if table.find(name).is_none() {
        return Err(GuestError::UnknownSymbol);
    }
    match parse_tristate(value) {
        Ok(t) => set_result(table.set_value_tracked(name, SymbolValue::Tristate(t), from, traceback)),
        Err(_) => Err(GuestError::InvalidTristate),
    }
}

/// The current value of a symbol as text.
pub fn symbol_get_string(table: &SymbolTable, name: &str) -> (r: Result<String, GuestError>)
    requires
        table.wf(),
    ensures
        has_symbol(table@, name@) ==> r is Ok && r->Ok_0@ == value_text(
            symbol_of(table@, name@).value,
        ),
        !has_symbol(table@, name@) ==> r == Err::<String, GuestError>(GuestError::UnknownSymbol),
{
    match table.get_string_value(name) {
        Some(s) => Ok(s),
        None => Err(GuestError::UnknownSymbol),
    }
}

/// The declared type of a symbol as text.
pub fn symbol_get_type(table: &SymbolTable, name: &str) -> (r: Result<String, GuestError>)
    requires
        table.wf(),
    ensures
        has_symbol(table@, name@) ==> r is Ok && r->Ok_0@ == type_label(
            symbol_of(table@, name@).stype,
        ),
        !has_symbol(table@, name@) ==> r == Err::<String, GuestError>(GuestError::UnknownSymbol),
{
    match table.symbol_type(name) {
        Some(t) => Ok(type_text(t)),
        None => Err(GuestError::UnknownSymbol),
    }
}

/// Turns the outcome of a nested load into what the guest sees: a failure
/// keeps its message.
pub fn load_outcome(r: Result<(), String>) -> (o: Result<(), LoadError>)
    ensures
        r is Ok <==> o is Ok,
        r is Err ==> o is Err && o->Err_0.message@ == r->Err_0@,
{
    match r {
        Ok(()) => Ok(()),
        Err(message) => Err(LoadError { message }),
    }
}

fn opt_str(o: &Option<String>) -> (r: Option<&str>)
    ensures
        opt_view(r) == opt_string_view(*o),
{
    match o {
        Some(s) => Some(s.as_str()),
        None => None,
    }
}

/// Makes one call.
pub fn apply_call(table: &mut SymbolTable, c: &ApiCall) -> (r: Result<SetOutcome, GuestError>)
    requires
        old(table).wf(),
    ensures
        final(table).wf(),
        (final(table)@, r) == call_effect(old(table)@, *c),
{
    match c {
        ApiCall::SetAuto { name, value, from, traceback } => symbol_set_auto(
            table,
            name.as_str(),
            value.as_str(),
            from.as_str(),
            opt_str(traceback),
        ),
        ApiCall::SetBool { name, value, from, traceback } => symbol_set_bool(
            table,
            name.as_str(),
            *value,
            from.as_str(),
            opt_str(traceback),
        ),
        ApiCall::SetNumber { name, value, from, traceback } => symbol_set_number(
            table,
            name.as_str(),
            *value,
            from.as_str(),
            opt_str(traceback),
        ),
        ApiCall::SetTristate { name, value, from, traceback } => symbol_set_tristate(
            table,
            name.as_str(),
            value.as_str(),
            from.as_str(),
            opt_str(traceback),
        ),
    }
}

/// Makes the calls in turn, stopping at the first that fails.
pub fn run_calls(table: &mut SymbolTable, calls: &Vec<ApiCall>) -> (r: Result<
    Vec<SetOutcome>,
    GuestError,
>)
    requires
        old(table).wf(),
    ensures
        final(table).wf(),
        final(table)@ == run_effect(old(table)@, calls@).0,
        match run_effect(old(table)@, calls@).1 {
            Ok(outs) => r is Ok && r->Ok_0@ == outs,
            Err(e) => r == Err::<Vec<SetOutcome>, GuestError>(e),
        },
{
    let mut outs: Vec<SetOutcome> = Vec::new();
    let mut i: usize = 0;
    while i < calls.len()
        invariant
            table.wf(),
            i <= calls@.len(),
            table@ == run_effect(old(table)@, calls@.take(i as int)).0,
            run_effect(old(table)@, calls@.take(i as int)).1 == Ok::<
                Seq<SetOutcome>,
                GuestError,
            >(outs@),
        decreases calls@.len() - i,
    {
        assert(calls@.take(i + 1).drop_last() =~= calls@.take(i as int));
        let r = apply_call(table, &calls[i]);
        match r {
            Ok(o) => outs.push(o),
            Err(e) => {
                proof {
                    lemma_run_stops(old(table)@, calls@, i as int);
                }
                return Err(e);
            },
        }
        i = i + 1;
    }
    assert(calls@.take(i as int) =~= calls@);
    Ok(outs)
}

/// Once a call fails, the run stops there: the table holds exactly what the
/// calls before it committed, and the run reports that call's error.
pub proof fn lemma_run_stops(syms: Seq<SymbolModel>, calls: Seq<ApiCall>, k: int)
    requires
        0 <= k < calls.len(),
        run_effect(syms, calls.take(k)).1 is Ok,
        call_effect(run_effect(syms, calls.take(k)).0, calls[k]).1 is Err,
    ensures
        run_effect(syms, calls).0 == call_effect(run_effect(syms, calls.take(k)).0, calls[k]).0,
        run_effect(syms, calls).1 == Err::<Seq<SetOutcome>, GuestError>(
            call_effect(run_effect(syms, calls.take(k)).0, calls[k]).1->Err_0,
        ),
    decreases calls.len(),
{
    if k == calls.len() - 1 {
        assert(calls.drop_last() =~= calls.take(k));
    } else {
        assert(calls.drop_last().take(k) =~= calls.take(k));
        lemma_run_stops(syms, calls.drop_last(), k);
    }
}

} // verus!
