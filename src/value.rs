//! Values exchanged between guest scripts and the symbol table, and the
//! conversions between their textual and native forms.

use vstd::prelude::*;

verus! {

/// Three-valued state of a tristate symbol.
#[derive(Clone, Copy, Debug, PartialEq, Eq, Structural)]
pub enum Tristate {
    No,
    Module,
    Yes,
}

/// The declared type of a symbol.
#[derive(Clone, Copy, Debug, PartialEq, Eq, Structural)]
pub enum SymbolType {
    Boolean,
    Tristate,
    Number,
    String,
    Auto,
}

/// A value handed across the guest boundary.
#[derive(Clone, Debug)]
pub enum SymbolValue {
    /// Text whose meaning the symbol's declared type decides.
    Auto(String),
    Boolean(bool),
    Number(u64),
    Tristate(Tristate),
}

/// The mathematical content of a [`SymbolValue`].
pub enum ValueModel {
    Auto(Seq<char>),
    Boolean(bool),
    Number(u64),
    Tristate(Tristate),
}

impl View for SymbolValue {
    type V = ValueModel;

    open spec fn view(&self) -> ValueModel {
        match self {
            SymbolValue::Auto(s) => ValueModel::Auto(s@),
            SymbolValue::Boolean(b) => ValueModel::Boolean(*b),
            SymbolValue::Number(n) => ValueModel::Number(*n),
            SymbolValue::Tristate(t) => ValueModel::Tristate(*t),
        }
    }
}

/// Errors of the value conversions.
#[derive(Clone, Copy, Debug, PartialEq, Eq, Structural)]
pub enum ValueError {
    /// The text is not one of the tristate tokens.
    InvalidTristate,
    /// A native number arrived negative: it was clipped on the guest side.
    NegativeNumber,
    /// The text is not a decimal literal.
    NotANumber,
    /// The decimal literal does not fit in 64 unsigned bits.
    NumberOutOfRange,
}

pub open spec fn is_digit(c: char) -> bool {
    '0' <= c && c <= '9'
}

pub open spec fn digit_value(c: char) -> nat {
    ((c as u32) - ('0' as u32)) as nat
}

/// A non-empty run of decimal digits.
pub open spec fn is_decimal(s: Seq<char>) -> bool {
    s.len() > 0 && forall|i: int| 0 <= i < s.len() ==> is_digit(#[trigger] s[i])
}

/// The number that a run of decimal digits denotes.
pub open spec fn decimal_value(s: Seq<char>) -> nat
    decreases s.len(),
{
    if s.len() == 0 {
        0
    } else {
        decimal_value(s.drop_last()) * 10 + digit_value(s.last())
    }
}

pub open spec fn digit_char(d: nat) -> char {
    if d == 0 { '0' }
    else if d == 1 { '1' }
    else if d == 2 { '2' }
    else if d == 3 { '3' }
    else if d == 4 { '4' }
    else if d == 5 { '5' }
    else if d == 6 { '6' }
    else if d == 7 { '7' }
    else if d == 8 { '8' }
    else { '9' }
}

/// The shortest decimal rendering of `n`.
pub open spec fn decimal_of(n: nat) -> Seq<char>
    decreases n,
{
    if n < 10 {
        seq![digit_char(n)]
    } else {
        decimal_of(n / 10).push(digit_char(n % 10))
    }
}

/// The tristate that a token names: `y`/`yes`, `m`/`module`, `n`/`no`.
pub open spec fn tristate_of(s: Seq<char>) -> Option<Tristate> {
    if s == seq!['y'] || s == seq!['y', 'e', 's'] {
        Some(Tristate::Yes)
    } else if s == seq!['m'] || s == seq!['m', 'o', 'd', 'u', 'l', 'e'] {
        Some(Tristate::Module)
    } else if s == seq!['n'] || s == seq!['n', 'o'] {
        Some(Tristate::No)
    } else {
        None
    }
}

/// The short token of a tristate.
pub open spec fn tristate_text(t: Tristate) -> Seq<char> {
    match t {
        Tristate::Yes => seq!['y'],
        Tristate::Module => seq!['m'],
        Tristate::No => seq!['n'],
    }
}

/// The token by which a boolean is read back.
pub open spec fn bool_text(b: bool) -> Seq<char> {
    if b { seq!['y'] } else { seq!['n'] }
}

/// The name under which a type is shown to scripts.
pub open spec fn type_label(t: SymbolType) -> Seq<char> {
    match t {
        SymbolType::Boolean => seq!['B', 'o', 'o', 'l', 'e', 'a', 'n'],
        SymbolType::Tristate => seq!['T', 'r', 'i', 's', 't', 'a', 't', 'e'],
        SymbolType::Number => seq!['N', 'u', 'm', 'b', 'e', 'r'],
        SymbolType::String => seq!['S', 't', 'r', 'i', 'n', 'g'],
        SymbolType::Auto => seq!['A', 'u', 't', 'o'],
    }
}

/// How a value is read back as text.
pub open spec fn value_text(v: ValueModel) -> Seq<char> {
    match v {
        ValueModel::Auto(s) => s,
        ValueModel::Boolean(b) => bool_text(b),
        ValueModel::Number(n) => decimal_of(n as nat),
        ValueModel::Tristate(t) => tristate_text(t),
    }
}

/// What a symbol of type `t` holds after it is assigned `v`, or `None` when
/// the type does not admit the value.
pub open spec fn coerce(t: SymbolType, v: ValueModel) -> Option<ValueModel> {
    match t {
        SymbolType::Boolean => match v {
            ValueModel::Boolean(b) => Some(ValueModel::Boolean(b)),
            ValueModel::Auto(s) => match tristate_of(s) {
                Some(Tristate::Yes) => Some(ValueModel::Boolean(true)),
                Some(Tristate::No) => Some(ValueModel::Boolean(false)),
                _ => None,
            },
            _ => None,
        },
        SymbolType::Tristate => match v {
            ValueModel::Tristate(x) => Some(ValueModel::Tristate(x)),
            ValueModel::Boolean(b) => Some(
                ValueModel::Tristate(if b { Tristate::Yes } else { Tristate::No }),
            ),
            ValueModel::Auto(s) => match tristate_of(s) {
                Some(x) => Some(ValueModel::Tristate(x)),
                None => None,
            },
            _ => None,
        },
        SymbolType::Number => match v {
            ValueModel::Number(n) => Some(ValueModel::Number(n)),
            ValueModel::Auto(s) => if is_decimal(s) && decimal_value(s) <= u64::MAX {
                Some(ValueModel::Number(decimal_value(s) as u64))
            } else {
                None
            },
            _ => None,
        },
        SymbolType::String | SymbolType::Auto => match v {
            ValueModel::Auto(s) => Some(ValueModel::Auto(s)),
            _ => None,
        },
    }
}

/// Whether two strings hold the same characters.
pub fn str_equal(a: &str, b: &str) -> (r: bool)
    ensures
        r == (a@ == b@),
{
    let n = a.unicode_len();
    if n != b.unicode_len() {
        return false;
    }
    let mut i: usize = 0;
    while i < n
        invariant
            n == a@.len(),
            n == b@.len(),
            i <= n,
            forall|j: int| 0 <= j < i ==> a@[j] == b@[j],
        decreases n - i,
    {
        if a.get_char(i) != b.get_char(i) {
            return false;
        }
        i = i + 1;
    }
    assert(a@ =~= b@);
    true
}

/// Reads a tristate token; anything else is reported, never defaulted.
pub fn parse_tristate(s: &str) -> (r: Result<Tristate, ValueError>)
    ensures
        match tristate_of(s@) {
            Some(t) => r == Ok::<Tristate, ValueError>(t),
            None => r == Err::<Tristate, ValueError>(ValueError::InvalidTristate),
        },
{
    proof {
        reveal_strlit("y");
        reveal_strlit("yes");
        reveal_strlit("m");
        reveal_strlit("module");
        reveal_strlit("n");
        reveal_strlit("no");
        assert("y"@ =~= seq!['y']);
        assert("yes"@ =~= seq!['y', 'e', 's']);
        assert("m"@ =~= seq!['m']);
        assert("module"@ =~= seq!['m', 'o', 'd', 'u', 'l', 'e']);
        assert("n"@ =~= seq!['n']);
        assert("no"@ =~= seq!['n', 'o']);
    }
    if str_equal(s, "y") || str_equal(s, "yes") {
        Ok(Tristate::Yes)
    } else if str_equal(s, "m") || str_equal(s, "module") {
        Ok(Tristate::Module)
    } else if str_equal(s, "n") || str_equal(s, "no") {
        Ok(Tristate::No)
    } else {
        Err(ValueError::InvalidTristate)
    }
}

/// Accepts a native number from the guest. The guest's integers are signed,
/// so a negative value means a large value was clipped on the way.
pub fn number_from_guest(v: i64) -> (r: Result<u64, ValueError>)
    ensures
        v >= 0 ==> r == Ok::<u64, ValueError>(v as u64),
        v < 0 ==> r == Err::<u64, ValueError>(ValueError::NegativeNumber),
{
    if v < 0 {
        Err(ValueError::NegativeNumber)
    } else {
        Ok(v as u64)
    }
}

proof fn lemma_prefix_value_le(s: Seq<char>, k: int)
    requires
        0 <= k <= s.len(),
    ensures
        decimal_value(s.take(k)) <= decimal_value(s),
    decreases s.len(),
{
    if k == s.len() {
        assert(s.take(k) =~= s);
    } else {
        lemma_prefix_value_le(s.drop_last(), k);
        assert(s.drop_last().take(k) =~= s.take(k));
    }
}

/// Reads a decimal literal into the full unsigned 64-bit range.
pub fn parse_number_literal(s: &str) -> (r: Result<u64, ValueError>)
    ensures
        !is_decimal(s@) ==> r == Err::<u64, ValueError>(ValueError::NotANumber),
        is_decimal(s@) && decimal_value(s@) > u64::MAX ==> r == Err::<u64, ValueError>(
            ValueError::NumberOutOfRange,
        ),
        is_decimal(s@) && decimal_value(s@) <= u64::MAX ==> r == Ok::<u64, ValueError>(
            decimal_value(s@) as u64,
        ),
{
    let n = s.unicode_len();
    if n == 0 {
        return Err(ValueError::NotANumber);
    }
    let mut i: usize = 0;
    while i < n
        invariant
            n == s@.len(),
            i <= n,
            forall|j: int| 0 <= j < i ==> is_digit(#[trigger] s@[j]),
        decreases n - i,
    {
        let c = s.get_char(i);
        if !('0' <= c && c <= '9') {
            return Err(ValueError::NotANumber);
        }
        i = i + 1;
    }
    let mut acc: u64 = 0;
    i = 0;
    while i < n
        invariant
            n == s@.len(),
            i <= n,
            is_decimal(s@),
            acc as nat == decimal_value(s@.take(i as int)),
        decreases n - i,
    {
        let c = s.get_char(i);
        let d: u64 = ((c as u32) - ('0' as u32)) as u64;
        assert(s@.take(i + 1).drop_last() =~= s@.take(i as int));
        assert(is_digit(s@[i as int]));
        if acc > (u64::MAX - d) / 10 {
            proof {
                assert(acc * 10 + d > u64::MAX) by (nonlinear_arith)
                    requires
                        acc > (u64::MAX - d) / 10,
                        d <= 9,
                ;
                lemma_prefix_value_le(s@, i + 1);
            }
            return Err(ValueError::NumberOutOfRange);
        }
        proof {
            assert(acc * 10 + d <= u64::MAX) by (nonlinear_arith)
                requires
                    acc <= (u64::MAX - d) / 10,
                    d <= 9,
            ;
        }
        acc = acc * 10 + d;
        i = i + 1;
    }
    assert(s@.take(n as int) =~= s@);
    Ok(acc)
}

/// The literal of one decimal digit.
fn digit_str(d: u64) -> (r: &'static str)
    requires
        d < 10,
    ensures
        r@ == seq![digit_char(d as nat)],
{
    proof {
        reveal_strlit("0");
        reveal_strlit("1");
        reveal_strlit("2");
        reveal_strlit("3");
        reveal_strlit("4");
        reveal_strlit("5");
        reveal_strlit("6");
        reveal_strlit("7");
        reveal_strlit("8");
        reveal_strlit("9");
    }
    let r = if d == 0 { "0" }
    else if d == 1 { "1" }
    else if d == 2 { "2" }
    else if d == 3 { "3" }
    else if d == 4 { "4" }
    else if d == 5 { "5" }
    else if d == 6 { "6" }
    else if d == 7 { "7" }
    else if d == 8 { "8" }
    else { "9" };
    assert(r@ =~= seq![digit_char(d as nat)]);
    r
}

/// The decimal rendering of a number.
pub fn number_text(n: u64) -> (r: String)
    ensures
        r@ == decimal_of(n as nat),
    decreases n,
{
    if n < 10 {
        String::from_str(digit_str(n))
    } else {
        let mut s = number_text(n / 10);
        s.append(digit_str(n % 10));
        s
    }
}

proof fn lemma_digit_char(d: nat)
    requires
        d < 10,
    ensures
        is_digit(digit_char(d)),
        digit_value(digit_char(d)) == d,
{
}

/// Rendering a number in decimal and reading it back gives the number.
pub proof fn decimal_round_trip(n: nat)
    ensures
        is_decimal(decimal_of(n)),
        decimal_value(decimal_of(n)) == n,
    decreases n,
{
    if n < 10 {
        lemma_digit_char(n);
        assert(decimal_of(n).drop_last() =~= Seq::<char>::empty());
        assert(decimal_value(decimal_of(n)) == decimal_value(Seq::<char>::empty()) * 10
            + digit_value(digit_char(n)));
    } else {
        lemma_digit_char(n % 10);
        decimal_round_trip(n / 10);
        let p = decimal_of(n / 10);
        assert(decimal_of(n).drop_last() =~= p);
        assert(decimal_of(n).last() == digit_char(n % 10));
        assert((n / 10) * 10 + n % 10 == n) by (nonlinear_arith);
        assert(decimal_value(decimal_of(n)) == decimal_value(p) * 10 + digit_value(
            digit_char(n % 10),
        ));
        assert forall|i: int| 0 <= i < decimal_of(n).len() implies is_digit(
            #[trigger] decimal_of(n)[i],
        ) by {
            if i < p.len() {
                assert(decimal_of(n)[i] == p[i]);
            }
        }
    }
}

/// The short token of a tristate.
pub fn tristate_str(t: Tristate) -> (r: &'static str)
    ensures
        r@ == tristate_text(t),
{
    proof {
        reveal_strlit("y");
        reveal_strlit("m");
        reveal_strlit("n");
    }
    let r = match t {
        Tristate::Yes => "y",
        Tristate::Module => "m",
        Tristate::No => "n",
    };
    assert(r@ =~= tristate_text(t));
    r
}

/// The text by which a value is read back.
pub fn value_to_text(v: &SymbolValue) -> (r: String)
    ensures
        r@ == value_text(v@),
{
    match v {
        SymbolValue::Auto(s) => s.clone(),
        SymbolValue::Boolean(b) => {
            let t = if *b { Tristate::Yes } else { Tristate::No };
            String::from_str(tristate_str(t))
        },
        SymbolValue::Number(n) => number_text(*n),
        SymbolValue::Tristate(t) => String::from_str(tristate_str(*t)),
    }
}

/// The name under which a type is shown to scripts.
pub fn type_text(t: SymbolType) -> (r: String)
    ensures
        r@ == type_label(t),
{
    proof {
        reveal_strlit("Boolean");
        reveal_strlit("Tristate");
        reveal_strlit("Number");
        reveal_strlit("String");
        reveal_strlit("Auto");
    }
    let r = match t {
        SymbolType::Boolean => "Boolean",
        SymbolType::Tristate => "Tristate",
        SymbolType::Number => "Number",
        SymbolType::String => "String",
        SymbolType::Auto => "Auto",
    };
    assert(r@ =~= type_label(t));
    String::from_str(r)
}

/// Converts `v` for a symbol of type `t`, or `None` when the type does not
/// admit it.
pub fn coerce_value(t: SymbolType, v: SymbolValue) -> (r: Option<SymbolValue>)
    ensures
        r is Some <==> coerce(t, v@) is Some,
        r is Some ==> r->Some_0@ == coerce(t, v@)->Some_0,
{
    match t {
        SymbolType::Boolean => match v {
            SymbolValue::Boolean(b) => Some(SymbolValue::Boolean(b)),
            SymbolValue::Auto(s) => match parse_tristate(s.as_str()) {
                Ok(Tristate::Yes) => Some(SymbolValue::Boolean(true)),
                Ok(Tristate::No) => Some(SymbolValue::Boolean(false)),
                _ => None,
            },
            _ => None,
        },
        SymbolType::Tristate => match v {
            SymbolValue::Tristate(x) => Some(SymbolValue::Tristate(x)),
            SymbolValue::Boolean(b) => Some(
                SymbolValue::Tristate(if b { Tristate::Yes } else { Tristate::No }),
            ),
            SymbolValue::Auto(s) => match parse_tristate(s.as_str()) {
                Ok(x) => Some(SymbolValue::Tristate(x)),
                Err(_) => None,
            },
            _ => None,
        },
        SymbolType::Number => match v {
            SymbolValue::Number(n) => Some(SymbolValue::Number(n)),
            SymbolValue::Auto(s) => match parse_number_literal(s.as_str()) {
                Ok(n) => Some(SymbolValue::Number(n)),
                Err(_) => None,
            },
            _ => None,
        },
        SymbolType::String | SymbolType::Auto => match v {
            SymbolValue::Auto(s) => Some(SymbolValue::Auto(s)),
            _ => None,
        },
    }
}

} // verus!
