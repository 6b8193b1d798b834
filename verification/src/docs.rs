//! Documentation of intrinsic functions, texture methods and engine variables,
//! with lookups by name.
use vstd::prelude::*;
use crate::builtin_table::{builtin_functions, builtin_table};
use crate::engine_table::{engine_table, engine_variables};
use crate::strops::eq_str;
use crate::text::to_chars;

verus! {

/// One signature of an intrinsic: its label and its parameters.
pub struct BuiltinOverload {
    pub label: &'static str,
    pub params: Vec<&'static str>,
}

/// An intrinsic or engine function with its markdown description and signatures.
pub struct BuiltinFunction {
    pub name: &'static str,
    pub description: &'static str,
    pub overloads: Vec<BuiltinOverload>,
}

/// A method of a texture or buffer object.
pub struct MethodInfo {
    pub name: &'static str,
    pub signature: &'static str,
    pub snippet: &'static str,
    pub description: &'static str,
}

/// A built-in variable of an engine ("unity" or "unreal").
pub struct EngineVariable {
    pub name: &'static str,
    pub var_type: &'static str,
    pub engine: &'static str,
    pub detail: &'static str,
    pub description: &'static str,
}

/// What a `BuiltinOverload` holds.
pub struct OverloadDoc {
    pub label: Seq<char>,
    pub params: Seq<Seq<char>>,
}

/// What a `BuiltinFunction` holds.
pub struct FunctionDoc {
    pub name: Seq<char>,
    pub description: Seq<char>,
    pub overloads: Seq<OverloadDoc>,
}

/// What a `MethodInfo` holds.
pub struct MethodDoc {
    pub name: Seq<char>,
    pub signature: Seq<char>,
    pub snippet: Seq<char>,
    pub description: Seq<char>,
}

/// What an `EngineVariable` holds.
pub struct EngineDoc {
    pub name: Seq<char>,
    pub var_type: Seq<char>,
    pub engine: Seq<char>,
    pub detail: Seq<char>,
    pub description: Seq<char>,
}

impl View for BuiltinOverload {
    type V = OverloadDoc;

    open spec fn view(&self) -> OverloadDoc {
        OverloadDoc { label: self.label@, params: self.params@.map_values(|p: &str| p@) }
    }
}

impl View for BuiltinFunction {
    type V = FunctionDoc;

    open spec fn view(&self) -> FunctionDoc {
        FunctionDoc {
            name: self.name@,
            description: self.description@,
            overloads: self.overloads@.map_values(|o: BuiltinOverload| o@),
        }
    }
}

impl View for MethodInfo {
    type V = MethodDoc;

    open spec fn view(&self) -> MethodDoc {
        MethodDoc {
            name: self.name@,
            signature: self.signature@,
            snippet: self.snippet@,
            description: self.description@,
        }
    }
}

impl View for EngineVariable {
    type V = EngineDoc;

    open spec fn view(&self) -> EngineDoc {
        EngineDoc {
            name: self.name@,
            var_type: self.var_type@,
            engine: self.engine@,
            detail: self.detail@,
            description: self.description@,
        }
    }
}

/// The views of a vector of functions.
pub open spec fn functions_view(v: Seq<BuiltinFunction>) -> Seq<FunctionDoc> {
    v.map_values(|f: BuiltinFunction| f@)
}

/// The views of a vector of methods.
pub open spec fn methods_view(v: Seq<MethodInfo>) -> Seq<MethodDoc> {
    v.map_values(|m: MethodInfo| m@)
}

/// The views of a vector of engine variables.
pub open spec fn engine_view(v: Seq<EngineVariable>) -> Seq<EngineDoc> {
    v.map_values(|e: EngineVariable| e@)
}

/// `i` is the first index of `names` that holds `name`.
pub open spec fn first_index_of(names: Seq<Seq<char>>, name: Seq<char>, i: int) -> bool {
    &&& 0 <= i < names.len()
    &&& names[i] == name
    &&& forall|j: int| 0 <= j < i ==> names[j] != name
}

/// The names of the documented functions, in table order.
pub open spec fn function_names(t: Seq<FunctionDoc>) -> Seq<Seq<char>> {
    t.map_values(|f: FunctionDoc| f.name)
}

/// The names of the documented engine variables, in table order.
pub open spec fn engine_names(t: Seq<EngineDoc>) -> Seq<Seq<char>> {
    t.map_values(|e: EngineDoc| e.name)
}

/// The documentation of the intrinsic or engine function `name`: the first entry of
/// the table with that name, or `None` where there is none.
pub fn find_builtin_function(name: &str) -> (r: Option<BuiltinFunction>)
    ensures
        r is Some <==> function_names(builtin_table()).contains(name@),
        r is Some ==> exists|i: int|
            first_index_of(function_names(builtin_table()), name@, i) && builtin_table()[i] == r->0@,
{
    let mut table = builtin_functions();
    let ghost t = builtin_table();
    let key = to_chars(name);
    let mut i: usize = 0;
    while i < table.len()
        invariant
            functions_view(table@) == t,
            t == builtin_table(),
            key@ == name@,
            i <= table@.len(),
            forall|j: int| 0 <= j < i ==> t[j].name != name@,
        decreases table.len() - i,
    {
        if eq_str(&key, 0, key.len(), table[i].name) {
            proof {
                assert(key@.subrange(0, key@.len() as int) =~= key@);
                assert(t[i as int].name == name@);
                assert(first_index_of(function_names(t), name@, i as int));
                assert(function_names(t)[i as int] == name@);
            }
            let f = table.remove(i);
            return Some(f);
        }
        proof {
            assert(key@.subrange(0, key@.len() as int) =~= key@);
        }
        i = i + 1;
    }
    proof {
        assert forall|j: int| 0 <= j < function_names(t).len() implies function_names(t)[j] != name@ by {
            assert(function_names(t)[j] == t[j].name);
        }
    }
    None
}

/// The documentation of the engine variable `name`: the first entry of the table with
/// that name, or `None` where there is none.
pub fn find_engine_variable(name: &str) -> (r: Option<EngineVariable>)
    ensures
        r is Some <==> engine_names(engine_table()).contains(name@),
        r is Some ==> exists|i: int|
            first_index_of(engine_names(engine_table()), name@, i) && engine_table()[i] == r->0@,
{
    let mut table = engine_variables();
    let ghost t = engine_table();
    let key = to_chars(name);
    let mut i: usize = 0;
    while i < table.len()
        invariant
            engine_view(table@) == t,
            t == engine_table(),
            key@ == name@,
            i <= table@.len(),
            forall|j: int| 0 <= j < i ==> t[j].name != name@,
        decreases table.len() - i,
    {
        if eq_str(&key, 0, key.len(), table[i].name) {
            proof {
                assert(key@.subrange(0, key@.len() as int) =~= key@);
                assert(t[i as int].name == name@);
                assert(first_index_of(engine_names(t), name@, i as int));
                assert(engine_names(t)[i as int] == name@);
            }
            let v = table.remove(i);
            return Some(v);
        }
        proof {
            assert(key@.subrange(0, key@.len() as int) =~= key@);
        }
        i = i + 1;
    }
    proof {
        assert forall|j: int| 0 <= j < engine_names(t).len() implies engine_names(t)[j] != name@ by {
            assert(engine_names(t)[j] == t[j].name);
        }
    }
    None
}

} // verus!
