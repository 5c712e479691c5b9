//! The public items of a crate that the comparison looks at: its structs,
//! with their methods and associated functions, and its enums.
use vstd::prelude::*;
use rustdoc_types::FunctionSignature;
use crate::order::texts;

verus! {

#[verifier::external_type_specification]
#[verifier::external_body]
pub struct ExFunctionSignature(FunctionSignature);

/// A public struct and the public methods and functions of its impls.
#[derive(Debug)]
pub struct StructInfo {
    pub name: String,
    pub doc: Option<String>,
    pub methods: Vec<MethodInfo>,
    pub functions: Vec<FunctionInfo>,
}

/// A public method: an associated function that takes `self`.
#[derive(Debug)]
pub struct MethodInfo {
    pub method_name: String,
    pub doc: Option<String>,
    pub sig: Option<FunctionSignature>,
    pub struct_name: String,
}

/// A public associated function that takes no `self`.
#[derive(Debug)]
pub struct FunctionInfo {
    pub name: String,
    pub doc: Option<String>,
    pub sig: Option<FunctionSignature>,
    pub module_name: String,
}

/// A public enum.
#[derive(Debug)]
pub struct EnumInfo {
    pub name: String,
    pub doc: Option<String>,
}

/// The structs and enums found in a crate.
#[derive(Debug)]
pub struct ExtractedItems {
    pub structs: Vec<StructInfo>,
    pub enums: Vec<EnumInfo>,
}

/// The names of the structs.
pub open spec fn struct_names(structs: Seq<StructInfo>) -> Set<Seq<char>> {
    structs.map_values(|s: StructInfo| s.name@).to_set()
}

/// The names of the enums.
pub open spec fn enum_names(enums: Seq<EnumInfo>) -> Set<Seq<char>> {
    enums.map_values(|e: EnumInfo| e.name@).to_set()
}

/// The names of the methods of a struct.
pub open spec fn method_names(s: StructInfo) -> Set<Seq<char>> {
    s.methods@.map_values(|m: MethodInfo| m.method_name@).to_set()
}

/// The names of the associated functions of a struct.
pub open spec fn function_names(s: StructInfo) -> Set<Seq<char>> {
    s.functions@.map_values(|f: FunctionInfo| f.name@).to_set()
}

/// The index of the last struct named `n`: where two share a name, the later
/// one stands for the name.
pub open spec fn last_named(structs: Seq<StructInfo>, n: Seq<char>) -> Option<int>
    decreases structs.len(),
{
    if structs.len() == 0 {
        None
    } else if structs.last().name@ == n {
        Some(structs.len() - 1)
    } else {
        last_named(structs.drop_last(), n)
    }
}

/// The method names of the struct named `n`, none where there is no such
/// struct.
pub open spec fn methods_named(structs: Seq<StructInfo>, n: Seq<char>) -> Set<Seq<char>> {
    match last_named(structs, n) {
        Some(i) => method_names(structs[i]),
        None => Set::empty(),
    }
}

/// The function names of the struct named `n`, none where there is no such
/// struct.
pub open spec fn functions_named(structs: Seq<StructInfo>, n: Seq<char>) -> Set<Seq<char>> {
    match last_named(structs, n) {
        Some(i) => function_names(structs[i]),
        None => Set::empty(),
    }
}

pub proof fn lemma_last_named(structs: Seq<StructInfo>, n: Seq<char>)
    ensures
        last_named(structs, n) matches Some(i) ==> 0 <= i < structs.len() && structs[i].name@ == n,
        last_named(structs, n) is None <==> !struct_names(structs).contains(n),
    decreases structs.len(),
{
    let names = structs.map_values(|s: StructInfo| s.name@);
    if structs.len() > 0 {
        let rest = structs.drop_last();
        lemma_last_named(rest, n);
        let rest_names = rest.map_values(|s: StructInfo| s.name@);
        assert(names =~= rest_names.push(structs.last().name@));
        if rest_names.contains(n) {
            let k = choose|k: int| 0 <= k < rest_names.len() && rest_names[k] == n;
            assert(names[k] == n);
        }
        if names.contains(n) {
            let k = choose|k: int| 0 <= k < names.len() && names[k] == n;
            if k < rest.len() {
                assert(rest_names[k] == n);
            }
        }
        if structs.last().name@ == n {
            assert(names[structs.len() - 1] == n);
        }
    } else {
        assert(names.len() == 0);
        assert(!names.contains(n));
    }
}

/// The index of the last struct named `n`.
pub fn last_struct_named(structs: &Vec<StructInfo>, n: &String) -> (r: Option<usize>)
    ensures
        r matches Some(i) ==> last_named(structs@, n@) == Some(i as int),
        r is None ==> last_named(structs@, n@) is None,
{
    let mut i = structs.len();
    assert(structs@.subrange(0, i as int) =~= structs@);
    while i > 0
        invariant
            i <= structs.len(),
            last_named(structs@, n@) == last_named(structs@.subrange(0, i as int), n@),
        decreases i,
    {
        assert(structs@.subrange(0, i as int).drop_last() =~= structs@.subrange(0, i - 1));
        if structs[i - 1].name == *n {
            return Some(i - 1);
        }
        i = i - 1;
    }
    None
}

/// The method names of `s` in increasing order.
pub fn method_name_list(s: &StructInfo) -> (r: Vec<String>)
    ensures
        crate::order::lists_in_order(texts(r@), method_names(*s)),
{
    let mut r: Vec<String> = Vec::new();
    let mut i: usize = 0;
    let ghost all = s.methods@.map_values(|m: MethodInfo| m.method_name@);
    while i < s.methods.len()
        invariant
            i <= s.methods.len(),
            all == s.methods@.map_values(|m: MethodInfo| m.method_name@),
            crate::order::strictly_sorted(texts(r@)),
            texts(r@).to_set() == all.subrange(0, i as int).to_set(),
        decreases s.methods.len() - i,
    {
        crate::order::insert_text(&mut r, s.methods[i].method_name.clone());
        assert(all.subrange(0, i + 1) =~= all.subrange(0, i as int).push(all[i as int]));
        assert(all.subrange(0, i + 1).to_set() =~= all.subrange(0, i as int).to_set().insert(
            all[i as int],
        )) by {
            lemma_push_to_set(all.subrange(0, i as int), all[i as int]);
        }
        i = i + 1;
    }
    assert(all.subrange(0, i as int) =~= all);
    r
}

/// The function names of `s` in increasing order.
pub fn function_name_list(s: &StructInfo) -> (r: Vec<String>)
    ensures
        crate::order::lists_in_order(texts(r@), function_names(*s)),
{
    let mut r: Vec<String> = Vec::new();
    let mut i: usize = 0;
    let ghost all = s.functions@.map_values(|f: FunctionInfo| f.name@);
    while i < s.functions.len()
        invariant
            i <= s.functions.len(),
            all == s.functions@.map_values(|f: FunctionInfo| f.name@),
            crate::order::strictly_sorted(texts(r@)),
            texts(r@).to_set() == all.subrange(0, i as int).to_set(),
        decreases s.functions.len() - i,
    {
        crate::order::insert_text(&mut r, s.functions[i].name.clone());
        assert(all.subrange(0, i + 1) =~= all.subrange(0, i as int).push(all[i as int]));
        assert(all.subrange(0, i + 1).to_set() =~= all.subrange(0, i as int).to_set().insert(
            all[i as int],
        )) by {
            lemma_push_to_set(all.subrange(0, i as int), all[i as int]);
        }
        i = i + 1;
    }
    assert(all.subrange(0, i as int) =~= all);
    r
}

pub proof fn lemma_push_to_set(s: Seq<Seq<char>>, x: Seq<char>)
    ensures
        s.push(x).to_set() == s.to_set().insert(x),
{
    assert forall|y: Seq<char>| #[trigger] s.push(x).to_set().contains(y) == (s.to_set().contains(
        y,
    ) || y == x) by {
        if s.contains(y) {
            let k = choose|k: int| 0 <= k < s.len() && s[k] == y;
            assert(s.push(x)[k] == y);
        }
        if y == x {
            assert(s.push(x)[s.len() as int] == y);
        }
        if s.push(x).contains(y) {
            let k = choose|k: int| 0 <= k < s.push(x).len() && s.push(x)[k] == y;
            if k < s.len() {
                assert(s[k] == y);
            }
        }
    }
    assert(s.push(x).to_set() =~= s.to_set().insert(x));
}

} // verus!
