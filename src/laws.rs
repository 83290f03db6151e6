//! Properties that relate several operations, proved over their models.

use vstd::prelude::*;
use crate::api::{
    ApiCall, GuestError, SetOutcome, best_effort, number_effect, run_effect,
};
use crate::table::{SymbolModel, accepts, assign, has_symbol, symbol_index, symbol_of, unique_names};
use crate::value::{
    SymbolType, ValueModel, bool_text, decimal_of, decimal_round_trip, decimal_value,
    value_text,
};

verus! {

/// An assignment changes one symbol's value and provenance, nothing else:
/// names and declared types stay, and the symbol is still found where it was.
pub proof fn assign_keeps_shape(
    syms: Seq<SymbolModel>,
    name: Seq<char>,
    v: ValueModel,
    from: Seq<char>,
    traceback: Option<Seq<char>>,
)
    requires
        unique_names(syms),
    ensures
        ({
            let after = assign(syms, name, v, from, traceback);
            &&& after.len() == syms.len()
            &&& forall|j: int|
                0 <= j < syms.len() ==> (#[trigger] after[j]).name == syms[j].name
                    && after[j].stype == syms[j].stype
            &&& unique_names(after)
            &&& has_symbol(after, name) == has_symbol(syms, name)
            &&& has_symbol(syms, name) ==> symbol_index(after, name) == symbol_index(syms, name)
        }),
{
    let after = assign(syms, name, v, from, traceback);
    assert forall|j: int| 0 <= j < syms.len() implies (#[trigger] after[j]).name == syms[j].name
        && after[j].stype == syms[j].stype by {}
    if has_symbol(syms, name) {
        let i = symbol_index(syms, name);
        assert(after[i].name == name);
        let k = symbol_index(after, name);
        assert(after[k].name == name);
    }
    if has_symbol(after, name) {
        let k = symbol_index(after, name);
        assert(syms[k].name == name);
    }
}

/// Once a boolean assignment is taken, the symbol keeps its declared type,
/// reads back as `y` or `n` as the boolean was true or false, and records
/// where the assignment came from.
pub proof fn set_bool_reads_back(
    syms: Seq<SymbolModel>,
    name: Seq<char>,
    v: bool,
    from: Seq<char>,
    traceback: Option<Seq<char>>,
)
    requires
        unique_names(syms),
        accepts(syms, name, ValueModel::Boolean(v)),
    ensures
        ({
            let (after, r) = best_effort(syms, name, ValueModel::Boolean(v), from, traceback);
            &&& r == Ok::<SetOutcome, GuestError>(SetOutcome::Applied)
            &&& has_symbol(after, name)
            &&& symbol_of(after, name).stype == symbol_of(syms, name).stype
            &&& value_text(symbol_of(after, name).value) == bool_text(v)
            &&& symbol_of(after, name).from == Some(from)
        }),
{
    assign_keeps_shape(syms, name, ValueModel::Boolean(v), from, traceback);
}

/// A number below 2^63 sent natively is taken by a number symbol and reads
/// back as its decimal rendering, which denotes the same number.
pub proof fn native_number_round_trip(
    syms: Seq<SymbolModel>,
    name: Seq<char>,
    x: i64,
    from: Seq<char>,
    traceback: Option<Seq<char>>,
)
    requires
        unique_names(syms),
        has_symbol(syms, name),
        symbol_of(syms, name).stype == SymbolType::Number,
        x >= 0,
    ensures
        ({
            let (after, r) = number_effect(syms, name, x, from, traceback);
            &&& r == Ok::<SetOutcome, GuestError>(SetOutcome::Applied)
            &&& symbol_of(after, name).value == ValueModel::Number(x as u64)
            &&& value_text(symbol_of(after, name).value) == decimal_of(x as nat)
            &&& decimal_value(value_text(symbol_of(after, name).value)) == x
        }),
{
    assign_keeps_shape(syms, name, ValueModel::Number(x as u64), from, traceback);
    decimal_round_trip(x as nat);
}

/// A negative native number, the mark of a value clipped by the guest, is
/// rejected and leaves the table as it was.
pub proof fn clipped_number_rejected(
    syms: Seq<SymbolModel>,
    name: Seq<char>,
    x: i64,
    from: Seq<char>,
    traceback: Option<Seq<char>>,
)
    requires
        has_symbol(syms, name),
        x < 0,
    ensures
        number_effect(syms, name, x, from, traceback) == (syms, Ok::<SetOutcome, GuestError>(
            SetOutcome::Rejected,
        )),
{
}

/// Any 64-bit number, 2^63 and above included, sent as its decimal literal
/// is taken by a number symbol and held exactly.
pub proof fn literal_number_round_trip(
    syms: Seq<SymbolModel>,
    name: Seq<char>,
    n: u64,
    from: Seq<char>,
    traceback: Option<Seq<char>>,
)
    requires
        unique_names(syms),
        has_symbol(syms, name),
        symbol_of(syms, name).stype == SymbolType::Number,
    ensures
        ({
            let (after, r) = best_effort(
                syms,
                name,
                ValueModel::Auto(decimal_of(n as nat)),
                from,
                traceback,
            );
            &&& r == Ok::<SetOutcome, GuestError>(SetOutcome::Applied)
            &&& symbol_of(after, name).value == ValueModel::Number(n)
            &&& value_text(symbol_of(after, name).value) == decimal_of(n as nat)
        }),
{
    decimal_round_trip(n as nat);
    assign_keeps_shape(syms, name, ValueModel::Auto(decimal_of(n as nat)), from, traceback);
}

/// Running the same calls on two equal tables gives equal tables and equal
/// outcomes, rejected assignments included.
pub proof fn run_is_repeatable(a: Seq<SymbolModel>, b: Seq<SymbolModel>, calls: Seq<ApiCall>)
    requires
        a == b,
    ensures
        run_effect(a, calls) == run_effect(b, calls),
{
}

} // verus!
