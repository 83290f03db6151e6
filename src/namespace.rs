//! The script-level bindings generated for the known symbols: `CONFIG_<NAME>`
//! for each configuration symbol, and a bare `<NAME>` alias where the name can
//! start an identifier.

use vstd::prelude::*;
use crate::value::is_digit;

verus! {

pub open spec fn is_upper(c: char) -> bool {
    'A' <= c && c <= 'Z'
}

/// Configuration symbols are the non-empty names with an upper-case letter.
pub open spec fn is_config_name(name: Seq<char>) -> bool {
    name.len() > 0 && exists|i: int| 0 <= i < name.len() && is_upper(#[trigger] name[i])
}

pub open spec fn config_prefix() -> Seq<char> {
    seq!['C', 'O', 'N', 'F', 'I', 'G', '_']
}

/// The bindings generated for one name.
pub open spec fn bindings_of(name: Seq<char>) -> Seq<Seq<char>> {
    if !is_config_name(name) {
        Seq::empty()
    } else if is_digit(name[0]) {
        seq![config_prefix() + name]
    } else {
        seq![config_prefix() + name, name]
    }
}

/// The bindings generated for a list of names, in order.
pub open spec fn all_bindings(names: Seq<Seq<char>>) -> Seq<Seq<char>>
    decreases names.len(),
{
    if names.len() == 0 {
        Seq::empty()
    } else {
        all_bindings(names.drop_last()) + bindings_of(names.last())
    }
}

/// The script line that binds `CONFIG_<name>` to a handle of the symbol.
pub open spec fn handle_line(name: Seq<char>) -> Seq<char> {
    config_prefix() + name + seq![' ', '=', ' ', 'S', 'y', 'm', 'b', 'o', 'l', ':', 'n', 'e', 'w', '(', 'n', 'i', 'l', ',', ' ', '"']
        + name + seq!['"', ')', '\n']
}

/// The script line that makes `<name>` an alias of `CONFIG_<name>`.
pub open spec fn alias_line(name: Seq<char>) -> Seq<char> {
    name + seq![' ', '=', ' '] + config_prefix() + name + seq!['\n']
}

/// The definitions generated for one name.
pub open spec fn definitions_of(name: Seq<char>) -> Seq<char> {
    if !is_config_name(name) {
        Seq::empty()
    } else if is_digit(name[0]) {
        handle_line(name)
    } else {
        handle_line(name) + alias_line(name)
    }
}

/// The definitions generated for a list of names, in order.
pub open spec fn definitions(names: Seq<Seq<char>>) -> Seq<char>
    decreases names.len(),
{
    if names.len() == 0 {
        Seq::empty()
    } else {
        definitions(names.drop_last()) + definitions_of(names.last())
    }
}

/// The characters of each string.
pub open spec fn texts(v: Seq<String>) -> Seq<Seq<char>> {
    Seq::new(v.len(), |i: int| v[i]@)
}

/// Whether `name` names a configuration symbol.
pub fn is_config_symbol(name: &str) -> (r: bool)
    ensures
        r == is_config_name(name@),
{
    let n = name.unicode_len();
    let mut i: usize = 0;
    while i < n
        invariant
            n == name@.len(),
            i <= n,
            forall|j: int| 0 <= j < i ==> !is_upper(#[trigger] name@[j]),
        decreases n - i,
    {
        let c = name.get_char(i);
        if 'A' <= c && c <= 'Z' {
            return true;
        }
        i = i + 1;
    }
    false
}

fn starts_with_digit(name: &str) -> (r: bool)
    requires
        name@.len() > 0,
    ensures
        r == is_digit(name@[0]),
{
    let c = name.get_char(0);
    '0' <= c && c <= '9'
}

fn prefixed(name: &str) -> (r: String)
    ensures
        r@ == config_prefix() + name@,
{
    proof {
        reveal_strlit("CONFIG_");
        assert("CONFIG_"@ =~= config_prefix());
    }
    let mut s = String::from_str("CONFIG_");
    s.append(name);
    s
}

/// The bindings generated for one name.
pub fn symbol_bindings(name: &str) -> (r: Vec<String>)
    ensures
        texts(r@) == bindings_of(name@),
{
    let mut r: Vec<String> = Vec::new();
    if is_config_symbol(name) {
        r.push(prefixed(name));
        if !starts_with_digit(name) {
            r.push(String::from_str(name));
        }
    }
    assert(texts(r@) =~= bindings_of(name@));
    r
}

/// The bindings generated for `names`, in order.
pub fn generated_bindings(names: &Vec<String>) -> (r: Vec<String>)
    ensures
        texts(r@) == all_bindings(texts(names@)),
{
    let mut r: Vec<String> = Vec::new();
    let mut i: usize = 0;
    while i < names.len()
        invariant
            i <= names@.len(),
            texts(r@) == all_bindings(texts(names@).take(i as int)),
        decreases names@.len() - i,
    {
        let b = symbol_bindings(names[i].as_str());
        let ghost before = r@;
        let mut k: usize = 0;
        while k < b.len()
            invariant
                k <= b@.len(),
                texts(r@) == texts(before) + texts(b@).take(k as int),
            decreases b@.len() - k,
        {
            let item = b[k].clone();
            assert(item@ == b@[k as int]@);
            r.push(item);
            assert(texts(r@) =~= texts(r@).drop_last().push(item@));
            assert(texts(r@).drop_last() =~= texts(before) + texts(b@).take(k as int));
            assert(texts(r@) =~= texts(before) + texts(b@).take(k + 1));
            k = k + 1;
        }
        assert(texts(b@).take(k as int) =~= texts(b@));
        assert(texts(names@).take(i + 1).drop_last() =~= texts(names@).take(i as int));
        i = i + 1;
    }
    assert(texts(names@).take(i as int) =~= texts(names@));
    r
}

/// The script text that defines the bindings of one name.
pub fn symbol_definitions(name: &str) -> (r: String)
    ensures
        r@ == definitions_of(name@),
{
    proof {
        reveal_strlit(" = Symbol:new(nil, \"");
        reveal_strlit("\")\n");
        reveal_strlit(" = ");
        reveal_strlit("\n");
        assert(" = Symbol:new(nil, \""@ =~= seq![' ', '=', ' ', 'S', 'y', 'm', 'b', 'o', 'l', ':', 'n', 'e', 'w', '(', 'n', 'i', 'l', ',', ' ', '"']);
        assert("\")\n"@ =~= seq!['"', ')', '\n']);
        assert(" = "@ =~= seq![' ', '=', ' ']);
        assert("\n"@ =~= seq!['\n']);
    }
    let mut s = String::new();
    if is_config_symbol(name) {
        s.append(prefixed(name).as_str());
        s.append(" = Symbol:new(nil, \"");
        s.append(name);
        s.append("\")\n");
        if !starts_with_digit(name) {
            s.append(name);
            s.append(" = ");
            s.append(prefixed(name).as_str());
            s.append("\n");
        }
    }
    assert(s@ =~= definitions_of(name@));
    s
}

/// The script text that defines the bindings of all `names`, run once
/// before the user's script.
pub fn define_all_syms(names: &Vec<String>) -> (r: String)
    ensures
        r@ == definitions(texts(names@)),
{
    let mut s = String::new();
    let mut i: usize = 0;
    while i < names.len()
        invariant
            i <= names@.len(),
            s@ == definitions(texts(names@).take(i as int)),
        decreases names@.len() - i,
    {
        let d = symbol_definitions(names[i].as_str());
        s.append(d.as_str());
        assert(texts(names@).take(i + 1).drop_last() =~= texts(names@).take(i as int));
        i = i + 1;
    }
    assert(texts(names@).take(i as int) =~= texts(names@));
    s
}

} // verus!
