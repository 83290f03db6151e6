//! The symbol table: named, typed symbols with their current value and the
//! provenance of the last assignment.

use vstd::prelude::*;
use crate::value::{
    SymbolType, SymbolValue, ValueModel, Tristate, coerce, coerce_value, str_equal, value_text,
    value_to_text,
};

verus! {

/// One named symbol.
#[derive(Debug)]
pub struct Symbol {
    pub name: String,
    pub stype: SymbolType,
    pub value: SymbolValue,
    /// Where the last tracked assignment came from.
    pub from: Option<String>,
    /// The call chain that made the last tracked assignment.
    pub traceback: Option<String>,
}

/// The mathematical content of a [`Symbol`].
pub struct SymbolModel {
    pub name: Seq<char>,
    pub stype: SymbolType,
    pub value: ValueModel,
    pub from: Option<Seq<char>>,
    pub traceback: Option<Seq<char>>,
}

pub open spec fn opt_text(o: Option<String>) -> Option<Seq<char>> {
    match o {
        Some(s) => Some(s@),
        None => None,
    }
}

impl View for Symbol {
    type V = SymbolModel;

    open spec fn view(&self) -> SymbolModel {
        SymbolModel {
            name: self.name@,
            stype: self.stype,
            value: self.value@,
            from: opt_text(self.from),
            traceback: opt_text(self.traceback),
        }
    }
}

/// Why an assignment did not take effect.
#[derive(Clone, Copy, Debug, PartialEq, Eq, Structural)]
pub enum SetError {
    /// No symbol has that name.
    UnknownSymbol,
    /// The symbol's declared type does not admit the value.
    Rejected,
}

/// Why a symbol could not be added.
#[derive(Clone, Copy, Debug, PartialEq, Eq, Structural)]
pub enum TableError {
    DuplicateSymbol,
}

/// The symbols known to one configuration run, names unique.
pub struct SymbolTable {
    symbols: Vec<Symbol>,
}

pub open spec fn has_symbol(syms: Seq<SymbolModel>, name: Seq<char>) -> bool {
    exists|i: int| 0 <= i < syms.len() && (#[trigger] syms[i]).name == name
}

/// The position of the symbol called `name`; meaningful where it exists.
pub open spec fn symbol_index(syms: Seq<SymbolModel>, name: Seq<char>) -> int {
    choose|i: int| 0 <= i < syms.len() && (#[trigger] syms[i]).name == name
}

pub open spec fn unique_names(syms: Seq<SymbolModel>) -> bool {
    forall|i: int, j: int|
        0 <= i < syms.len() && 0 <= j < syms.len() && i != j ==> (#[trigger] syms[i]).name
            != (#[trigger] syms[j]).name
}

/// The symbol called `name`; meaningful where it exists.
pub open spec fn symbol_of(syms: Seq<SymbolModel>, name: Seq<char>) -> SymbolModel {
    syms[symbol_index(syms, name)]
}

/// Whether the symbol called `name` exists and its type admits `v`.
pub open spec fn accepts(syms: Seq<SymbolModel>, name: Seq<char>, v: ValueModel) -> bool {
    has_symbol(syms, name) && coerce(symbol_of(syms, name).stype, v) is Some
}

/// The table after a tracked assignment of `v` to `name`, made by `from`
/// through `traceback`: unchanged where the assignment is not accepted.
pub open spec fn assign(
    syms: Seq<SymbolModel>,
    name: Seq<char>,
    v: ValueModel,
    from: Seq<char>,
    traceback: Option<Seq<char>>,
) -> Seq<SymbolModel> {
    if accepts(syms, name, v) {
        let i = symbol_index(syms, name);
        syms.update(
            i,
            SymbolModel {
                value: coerce(syms[i].stype, v)->Some_0,
                from: Some(from),
                traceback: traceback,
                ..syms[i]
            },
        )
    } else {
        syms
    }
}

/// The value a symbol of type `t` starts with.
pub open spec fn initial_value(t: SymbolType) -> ValueModel {
    match t {
        SymbolType::Boolean => ValueModel::Boolean(false),
        SymbolType::Tristate => ValueModel::Tristate(Tristate::No),
        SymbolType::Number => ValueModel::Number(0),
        SymbolType::String | SymbolType::Auto => ValueModel::Auto(Seq::empty()),
    }
}

fn initial_symbol_value(t: SymbolType) -> (r: SymbolValue)
    ensures
        r@ == initial_value(t),
{
    match t {
        SymbolType::Boolean => SymbolValue::Boolean(false),
        SymbolType::Tristate => SymbolValue::Tristate(Tristate::No),
        SymbolType::Number => SymbolValue::Number(0),
        SymbolType::String | SymbolType::Auto => SymbolValue::Auto(String::new()),
    }
}

fn owned_text(o: Option<&str>) -> (r: Option<String>)
    ensures
        opt_text(r) == match o {
            Some(s) => Some(s@),
            None => None::<Seq<char>>,
        },
{
    match o {
        Some(s) => Some(String::from_str(s)),
        None => None,
    }
}

impl View for SymbolTable {
    type V = Seq<SymbolModel>;

    closed spec fn view(&self) -> Seq<SymbolModel> {
        Seq::new(self.symbols@.len(), |i: int| self.symbols@[i]@)
    }
}

impl SymbolTable {
    pub open spec fn wf(&self) -> bool {
        unique_names(self@)
    }

    /// A table with no symbols.
    pub fn new() -> (r: SymbolTable)
        ensures
            r.wf(),
            r@ == Seq::<SymbolModel>::empty(),
    {
        let r = SymbolTable { symbols: Vec::new() };
        assert(r@ =~= Seq::<SymbolModel>::empty());
        r
    }

    /// The number of symbols.
    pub fn len(&self) -> (r: usize)
        ensures
            r == self@.len(),
    {
        self.symbols.len()
    }

    /// The position of the symbol called `name`, if there is one.
    pub fn find(&self, name: &str) -> (r: Option<usize>)
        requires
            self.wf(),
        ensures
            r is None <==> !has_symbol(self@, name@),
            r is Some ==> r->Some_0 == symbol_index(self@, name@) && r->Some_0 < self@.len(),
    {
        let mut i: usize = 0;
        while i < self.symbols.len()
            invariant
                self.wf(),
                i <= self.symbols@.len(),
                forall|j: int| 0 <= j < i ==> (#[trigger] self@[j]).name != name@,
            decreases self.symbols@.len() - i,
        {
            if str_equal(self.symbols[i].name.as_str(), name) {
                proof {
                    assert(self@[i as int].name == name@);
                    let k = symbol_index(self@, name@);
                    assert(self@[k].name == name@);
                }
                return Some(i);
            }
            i = i + 1;
        }
        None
    }

    /// The names of all symbols, in table order.
    pub fn names(&self) -> (r: Vec<String>)
        ensures
            r@.len() == self@.len(),
            forall|i: int| 0 <= i < r@.len() ==> (#[trigger] r@[i])@ == self@[i].name,
    {
        let mut r: Vec<String> = Vec::new();
        let mut i: usize = 0;
        while i < self.symbols.len()
            invariant
                i <= self.symbols@.len(),
                r@.len() == i,
                forall|j: int| 0 <= j < i ==> (#[trigger] r@[j])@ == self@[j].name,
            decreases self.symbols@.len() - i,
        {
            r.push(self.symbols[i].name.clone());
            i = i + 1;
        }
        r
    }

    /// Adds a symbol of type `stype` with its initial value and no provenance.
    pub fn add_symbol(&mut self, name: &str, stype: SymbolType) -> (r: Result<(), TableError>)
        requires
            old(self).wf(),
        ensures
            final(self).wf(),
            has_symbol(old(self)@, name@) ==> r == Err::<(), TableError>(
                TableError::DuplicateSymbol,
            ) && final(self)@ == old(self)@,
            !has_symbol(old(self)@, name@) ==> r is Ok && final(self)@ == old(self)@.push(
                SymbolModel {
                    name: name@,
                    stype,
                    value: initial_value(stype),
                    from: None,
                    traceback: None,
                },
            ),
    {
        if self.find(name).is_some() {
            return Err(TableError::DuplicateSymbol);
        }
        let sym = Symbol {
            name: String::from_str(name),
            stype,
            value: initial_symbol_value(stype),
            from: None,
            traceback: None,
        };
        self.symbols.push(sym);
        assert(self@ =~= old(self)@.push(sym@));
        Ok(())
    }

    /// Assigns `v` to the symbol called `name` and records where the
    /// assignment came from, where the symbol's type admits the value.
    pub fn set_value_tracked(
        &mut self,
        name: &str,
        v: SymbolValue,
        from: &str,
        traceback: Option<&str>,
    ) -> (r: Result<(), SetError>)
        requires
            old(self).wf(),
        ensures
            final(self).wf(),
            final(self)@ == assign(
                old(self)@,
                name@,
                v@,
                from@,
                match traceback {
                    Some(t) => Some(t@),
                    None => None,
                },
            ),
            !has_symbol(old(self)@, name@) ==> r == Err::<(), SetError>(SetError::UnknownSymbol),
            has_symbol(old(self)@, name@) && !accepts(old(self)@, name@, v@) ==> r == Err::<
                (),
                SetError,
            >(SetError::Rejected),
            accepts(old(self)@, name@, v@) ==> r is Ok,
    {
        let i = match self.find(name) {
            Some(i) => i,
            None => return Err(SetError::UnknownSymbol),
        };
        let ghost tb = match traceback {
            Some(t) => Some(t@),
            None => None::<Seq<char>>,
        };
        let stype = self.symbols[i].stype;
        let nv = match coerce_value(stype, v) {
            Some(nv) => nv,
            None => return Err(SetError::Rejected),
        };
        let sym = Symbol {
            name: self.symbols[i].name.clone(),
            stype,
            value: nv,
            from: Some(String::from_str(from)),
            traceback: owned_text(traceback),
        };
        self.symbols.set(i, sym);
        assert(self@ =~= assign(old(self)@, name@, v@, from@, tb));
        Ok(())
    }

    /// The current value of the symbol called `name`, as text.
    pub fn get_string_value(&self, name: &str) -> (r: Option<String>)
        requires
            self.wf(),
        ensures
            has_symbol(self@, name@) ==> r is Some && r->Some_0@ == value_text(
                symbol_of(self@, name@).value,
            ),
            !has_symbol(self@, name@) ==> r is None,
    {
        match self.find(name) {
            Some(i) => Some(value_to_text(&self.symbols[i].value)),
            None => None,
        }
    }

    /// The declared type of the symbol called `name`.
    pub fn symbol_type(&self, name: &str) -> (r: Option<SymbolType>)
        requires
            self.wf(),
        ensures
            has_symbol(self@, name@) ==> r == Some(symbol_of(self@, name@).stype),
            !has_symbol(self@, name@) ==> r is None,
    {
        match self.find(name) {
            Some(i) => Some(self.symbols[i].stype),
            None => None,
        }
    }

    /// Where the last tracked assignment to `name` came from, if any.
    pub fn origin(&self, name: &str) -> (r: Option<String>)
        requires
            self.wf(),
        ensures
            opt_text(r) == (if has_symbol(self@, name@) {
                symbol_of(self@, name@).from
            } else {
                None
            }),
    {
        match self.find(name) {
            Some(i) => self.symbols[i].from.clone(),
            None => None,
        }
    }
}

} // verus!
