//! Functions and scopes: the binding tables of one call frame.
use vstd::prelude::*;

use crate::ast::{Const, Identifier, Statement};
use crate::value::Value;

verus! {

/// The native functions that every program can call.
#[derive(Debug, Clone, Copy, PartialEq, Eq, Structural)]
pub enum Builtin {
    /// `puts(v1, v2, ...)`: one output line per argument.
    Puts,
    /// `format(fmt, items)`: `fmt` with each `{}` replaced by the next item.
    Format,
}

/// A callable function: a builtin, or one defined in source text. A definition
/// keeps its parameters and body for the rest of the process.
#[derive(Debug, Clone, Copy)]
pub enum Function {
    Builtin(Builtin),
    Defined { args: &'static Vec<Identifier>, body: &'static Statement },
}

#[allow(non_snake_case)]
impl Function {
    /// The builtin `puts`.
    pub fn Puts() -> (r: Function)
        ensures
            r == Function::Builtin(Builtin::Puts),
    {
        Function::Builtin(Builtin::Puts)
    }

    /// The builtin `format`.
    pub fn Format() -> (r: Function)
        ensures
            r == Function::Builtin(Builtin::Format),
    {
        Function::Builtin(Builtin::Format)
    }
}

/// The position of the last binding of `k` in an association list, or `-1`.
pub open spec fn binding_index<V>(s: Seq<(Identifier, V)>, k: Seq<char>) -> int
    decreases s.len(),
{
    if s.len() == 0 {
        -1
    } else if s.last().0.spec_name() == k {
        s.len() - 1
    } else {
        binding_index(s.drop_last(), k)
    }
}

/// An association list as a map: a later binding of a name overrides an earlier one.
pub open spec fn bindings<V>(s: Seq<(Identifier, V)>) -> Map<Seq<char>, V>
    decreases s.len(),
{
    if s.len() == 0 {
        Map::empty()
    } else {
        bindings(s.drop_last()).insert(s.last().0.spec_name(), s.last().1)
    }
}

/// Where the last binding of a name sits, and that the map agrees with it.
pub proof fn lemma_binding_index<V>(s: Seq<(Identifier, V)>, k: Seq<char>)
    ensures
        -1 <= binding_index(s, k) < s.len(),
        binding_index(s, k) == -1 <==> !bindings(s).contains_key(k),
        binding_index(s, k) >= 0 ==> s[binding_index(s, k)].0.spec_name() == k
            && bindings(s)[k] == s[binding_index(s, k)].1,
        forall|j: int| binding_index(s, k) < j < s.len() ==> (#[trigger] s[j]).0.spec_name() != k,
    decreases s.len(),
{
    if s.len() > 0 {
        lemma_binding_index(s.drop_last(), k);
        assert forall|j: int| binding_index(s, k) < j < s.len() implies (#[trigger] s[j]).0.spec_name() != k by {
            if j < s.len() - 1 {
                assert(s[j] == s.drop_last()[j]);
            }
        }
    }
}

/// Bindings after position `i` of other names do not move the last binding.
pub proof fn lemma_binding_index_prefix<V>(s: Seq<(Identifier, V)>, k: Seq<char>, i: int)
    requires
        0 <= i <= s.len(),
        forall|j: int| i <= j < s.len() ==> (#[trigger] s[j]).0.spec_name() != k,
    ensures
        binding_index(s, k) == binding_index(s.subrange(0, i), k),
    decreases s.len() - i,
{
    if i < s.len() {
        lemma_binding_index_prefix(s, k, i + 1);
        let t = s.subrange(0, i + 1);
        assert(t.drop_last() =~= s.subrange(0, i));
    } else {
        assert(s.subrange(0, i) =~= s);
    }
}

/// Overwriting the last binding of a name updates the map at that name.
pub proof fn lemma_bindings_update<V>(s: Seq<(Identifier, V)>, i: int, id: Identifier, v: V)
    requires
        0 <= i < s.len(),
        i == binding_index(s, id.spec_name()),
    ensures
        bindings(s.update(i, (id, v))) == bindings(s).insert(id.spec_name(), v),
    decreases s.len(),
{
    let t = s.update(i, (id, v));
    lemma_binding_index(s, id.spec_name());
    if i == s.len() - 1 {
        assert(t.drop_last() =~= s.drop_last());
        assert(bindings(t) =~= bindings(s).insert(id.spec_name(), v));
    } else {
        assert(t.drop_last() =~= s.drop_last().update(i, (id, v)));
        lemma_bindings_update(s.drop_last(), i, id, v);
        assert(bindings(t) =~= bindings(s).insert(id.spec_name(), v));
    }
}

/// Appending a binding updates the map at its name.
pub proof fn lemma_bindings_push<V>(s: Seq<(Identifier, V)>, id: Identifier, v: V)
    ensures
        bindings(s.push((id, v))) == bindings(s).insert(id.spec_name(), v),
{
    assert(s.push((id, v)).drop_last() =~= s);
}

/// A stored variable: declared without a value, or holding one.
pub open spec fn option_value(o: Option<Const>) -> Option<Value> {
    match o {
        Some(c) => Some(c@),
        None => None,
    }
}

/// The variable table of an association list of variables.
pub open spec fn frame_of(s: Seq<(Identifier, Option<Const>)>) -> Map<Seq<char>, Option<Value>> {
    bindings(s).map_values(|o: Option<Const>| option_value(o))
}

/// The last position in `s` that binds `name`, if any.
fn find_binding<V>(s: &Vec<(Identifier, V)>, name: &String) -> (r: Option<usize>)
    ensures
        match r {
            Some(i) => i < s.len() && i as int == binding_index(s@, name@),
            None => binding_index(s@, name@) == -1,
        },
{
    proof {
        lemma_binding_index(s@, name@);
    }
    let mut i: usize = s.len();
    while i > 0
        invariant
            i <= s.len(),
            forall|j: int| i <= j < s.len() ==> (#[trigger] s@[j]).0.spec_name() != name@,
        decreases i,
    {
        if *s[i - 1].0.name() == *name {
            proof {
                lemma_binding_index_prefix(s@, name@, i as int);
                assert(s@.subrange(0, i as int).drop_last() =~= s@.subrange(0, i - 1));
            }
            return Some(i - 1);
        }
        i = i - 1;
    }
    proof {
        lemma_binding_index_prefix(s@, name@, 0);
    }
    None
}

/// One binding environment: functions (used in the global scope only) and
/// variables. A variable declared without a value holds `None`.
pub struct Scope {
    functions: Vec<(Identifier, Function)>,
    variables: Vec<(Identifier, Option<Const>)>,
    extern_variables: Vec<(Identifier, Option<Const>)>,
}

impl Scope {
    /// The scope's functions by name.
    pub closed spec fn function_table(&self) -> Map<Seq<char>, Function> {
        bindings(self.functions@)
    }

    /// The scope's variables by name.
    pub closed spec fn variable_table(&self) -> Map<Seq<char>, Option<Value>> {
        frame_of(self.variables@)
    }

    /// An empty scope, for a call frame.
    pub fn new() -> (r: Self)
        ensures
            r.function_table() == Map::<Seq<char>, Function>::empty(),
            r.variable_table() == Map::<Seq<char>, Option<Value>>::empty(),
    {
        let r = Scope { functions: Vec::new(), variables: Vec::new(), extern_variables: Vec::new() };
        proof {
            assert(r.variable_table() =~= Map::<Seq<char>, Option<Value>>::empty());
        }
        r
    }

    /// The global scope, with the builtins `puts` and `format` and no variables.
    pub fn global() -> (r: Self)
        ensures
            r.function_table() == map![
                "puts"@ => Function::Builtin(Builtin::Puts),
                "format"@ => Function::Builtin(Builtin::Format),
            ],
            r.variable_table() == Map::<Seq<char>, Option<Value>>::empty(),
    {
        let mut r = Scope::new();
        r.add_func(Identifier::Name(String::from_str("puts")), Function::Puts());
        r.add_func(Identifier::Name(String::from_str("format")), Function::Format());
        proof {
            assert(r.function_table() =~= map![
                "puts"@ => Function::Builtin(Builtin::Puts),
                "format"@ => Function::Builtin(Builtin::Format),
            ]);
        }
        r
    }

    /// Whether the scope binds a variable of this name.
    pub fn has_var(&self, ident: &Identifier) -> (r: bool)
        ensures
            r == self.variable_table().contains_key(ident.spec_name()),
    {
        proof {
            lemma_binding_index(self.variables@, ident.spec_name());
        }
        find_binding(&self.variables, ident.name()).is_some()
    }

    /// Binds a variable of this name to `value`, replacing any earlier binding.
    pub fn set_var(&mut self, ident: &Identifier, value: Option<Const>)
        ensures
            final(self).variable_table() == old(self).variable_table().insert(
                ident.spec_name(),
                option_value(value),
            ),
            final(self).function_table() == old(self).function_table(),
    {
        let id = ident.copy();
        let ghost old_vars = self.variables@;
        match find_binding(&self.variables, ident.name()) {
            Some(i) => {
                self.variables.set(i, (id, value));
                proof {
                    lemma_bindings_update(old_vars, i as int, *ident, value);
                }
            },
            None => {
                self.variables.push((id, value));
                proof {
                    lemma_bindings_push(old_vars, *ident, value);
                }
            },
        }
        proof {
            assert(self.variable_table() =~= old(self).variable_table().insert(
                ident.spec_name(),
                option_value(value),
            ));
        }
    }

    /// The value of the variable of this name, if it is bound and holds one.
    pub fn get_var(&self, ident: &Identifier) -> (r: Option<Const>)
        ensures
            option_value(r) == (if self.variable_table().contains_key(ident.spec_name()) {
                self.variable_table()[ident.spec_name()]
            } else {
                None
            }),
    {
        proof {
            lemma_binding_index(self.variables@, ident.spec_name());
        }
        match find_binding(&self.variables, ident.name()) {
            Some(i) => match &self.variables[i].1 {
                Some(c) => Some(c.duplicate()),
                None => None,
            },
            None => None,
        }
    }

    /// The function of this name, if the scope has one.
    pub fn get_func(&self, ident: &Identifier) -> (r: Option<Function>)
        ensures
            r == (if self.function_table().contains_key(ident.spec_name()) {
                Some(self.function_table()[ident.spec_name()])
            } else {
                None
            }),
    {
        proof {
            lemma_binding_index(self.functions@, ident.spec_name());
        }
        match find_binding(&self.functions, ident.name()) {
            Some(i) => Some(self.functions[i].1),
            None => None,
        }
    }

    /// Registers a function under this name, replacing any earlier one.
    pub fn add_func(&mut self, ident: Identifier, function: Function)
        ensures
            final(self).function_table() == old(self).function_table().insert(
                ident.spec_name(),
                function,
            ),
            final(self).variable_table() == old(self).variable_table(),
    {
        let ghost old_funcs = self.functions@;
        let ghost id = ident;
        match find_binding(&self.functions, ident.name()) {
            Some(i) => {
                self.functions.set(i, (ident, function));
                proof {
                    lemma_bindings_update(old_funcs, i as int, id, function);
                }
            },
            None => {
                self.functions.push((ident, function));
                proof {
                    lemma_bindings_push(old_funcs, id, function);
                }
            },
        }
    }
}

} // verus!
