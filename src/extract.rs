//! Finding the public structs, their methods and functions, and the public
//! enums in the documentation index of a crate.
use vstd::prelude::*;
use rustdoc_types::FunctionSignature;
use crate::items::{EnumInfo, ExtractedItems, FunctionInfo, MethodInfo, StructInfo};
use crate::order::{
    insert_by_name, lemma_sort_by_name_sorted, seq_lt, sort_by_name, sort_named, sorted_by_name,
    Named,
};
use crate::text::same_text;

verus! {

/// Relies on the derived `Clone` of `rustdoc_types::FunctionSignature`, a
/// struct of plain data, which makes an equal copy.
pub assume_specification[ <FunctionSignature as Clone>::clone ](s: &FunctionSignature) -> (r:
    FunctionSignature)
    ensures
        r == *s,
;

/// What an item of the index is, as far as the extraction reads it.
#[derive(Debug)]
pub enum IndexItemKind {
    Struct,
    Enum,
    /// An impl block: the id of the type it is for, where that type is
    /// named by a path, and the ids of its items.
    Impl { for_id: Option<u32>, items: Vec<u32> },
    /// A function: the names of its parameters and its signature.
    Function { input_names: Vec<String>, sig: FunctionSignature },
    Other,
}

/// An item of the documentation index of a crate.
#[derive(Debug)]
pub struct IndexItem {
    pub id: u32,
    pub name: Option<String>,
    pub is_public: bool,
    pub docs: Option<String>,
    pub inner: IndexItemKind,
}

/// A struct found in the index: its position and its name.
#[derive(Debug)]
pub struct StructEntry {
    pub pos: usize,
    pub name: String,
}

impl Named for StructEntry {
    open spec fn name_of(&self) -> Seq<char> {
        self.name@
    }

    fn name_str(&self) -> (r: &str) {
        self.name.as_str()
    }
}

impl Named for MethodInfo {
    open spec fn name_of(&self) -> Seq<char> {
        self.method_name@
    }

    fn name_str(&self) -> (r: &str) {
        self.method_name.as_str()
    }
}

impl Named for FunctionInfo {
    open spec fn name_of(&self) -> Seq<char> {
        self.name@
    }

    fn name_str(&self) -> (r: &str) {
        self.name.as_str()
    }
}

impl Named for EnumInfo {
    open spec fn name_of(&self) -> Seq<char> {
        self.name@
    }

    fn name_str(&self) -> (r: &str) {
        self.name.as_str()
    }
}

/// A public struct with a name.
pub open spec fn is_public_struct(it: IndexItem) -> bool {
    it.is_public && it.inner is Struct && it.name is Some
}

/// A public enum with a name.
pub open spec fn is_public_enum(it: IndexItem) -> bool {
    it.is_public && it.inner is Enum && it.name is Some
}

/// Position `p` holds a public struct, and no later position holds one with
/// the same id.
pub open spec fn is_struct_entry(index: Seq<IndexItem>, p: int) -> bool {
    &&& 0 <= p < index.len()
    &&& is_public_struct(index[p])
    &&& forall|q: int|
        p < q < index.len() ==> !(is_public_struct(#[trigger] index[q]) && index[q].id
            == index[p].id)
}

/// The structs among the first `upto` positions, in index order.
pub open spec fn struct_entries(index: Seq<IndexItem>, upto: int) -> Seq<StructEntry>
    decreases upto,
{
    if upto <= 0 {
        Seq::empty()
    } else {
        struct_entries(index, upto - 1) + if is_struct_entry(index, upto - 1) {
            seq![StructEntry { pos: (upto - 1) as usize, name: index[upto - 1].name->0 }]
        } else {
            Seq::empty()
        }
    }
}

/// The public enums among the first `upto` positions, in index order.
pub open spec fn enum_entries(index: Seq<IndexItem>, upto: int) -> Seq<EnumInfo>
    decreases upto,
{
    if upto <= 0 {
        Seq::empty()
    } else {
        enum_entries(index, upto - 1) + if is_public_enum(index[upto - 1]) {
            seq![EnumInfo { name: index[upto - 1].name->0, doc: index[upto - 1].docs }]
        } else {
            Seq::empty()
        }
    }
}

/// The first position at or after `i` of the item with id `id`.
pub open spec fn find_id(index: Seq<IndexItem>, id: u32, i: int) -> Option<int>
    decreases index.len() - i,
{
    if i < 0 || i >= index.len() {
        None
    } else if index[i].id == id {
        Some(i)
    } else {
        find_id(index, id, i + 1)
    }
}

/// The methods that every type has, which the comparison leaves out.
pub open spec fn is_standard_method(n: Seq<char>) -> bool {
    n == "clone"@ || n == "clone_to_uninit"@ || n == "clone_into"@ || n == "borrow"@ || n
        == "borrow_mut"@ || n == "type_id"@ || n == "to_owned"@ || n == "into"@ || n
        == "try_into"@ || n == "eq"@ || n == "fmt"@ || n == "hash"@ || n == "write"@ || n
        == "equivalent"@
}

/// A function with a parameter named `self` is a method.
pub open spec fn takes_self(input_names: Seq<String>) -> bool {
    exists|k: int| 0 <= k < input_names.len() && (#[trigger] input_names[k])@ == "self"@
}

/// The method that the item with id `j` of an impl for `owner` adds, if any.
pub open spec fn member_method(index: Seq<IndexItem>, j: u32, owner: String) -> Seq<MethodInfo> {
    match find_id(index, j, 0) {
        Some(q) => match index[q].inner {
            IndexItemKind::Function { input_names, sig } => {
                if takes_self(input_names@) && index[q].name is Some && !is_standard_method(
                    index[q].name->0@,
                ) && index[q].is_public {
                    seq![
                        MethodInfo {
                            method_name: index[q].name->0,
                            doc: index[q].docs,
                            sig: Some(sig),
                            struct_name: owner,
                        },
                    ]
                } else {
                    Seq::empty()
                }
            },
            _ => Seq::empty(),
        },
        None => Seq::empty(),
    }
}

/// The associated function that the item with id `j` of an impl for `owner`
/// adds, if any.
pub open spec fn member_function(index: Seq<IndexItem>, j: u32, owner: String) -> Seq<
    FunctionInfo,
> {
    match find_id(index, j, 0) {
        Some(q) => match index[q].inner {
            IndexItemKind::Function { input_names, sig } => {
                if !takes_self(input_names@) && index[q].name is Some && index[q].is_public {
                    seq![
                        FunctionInfo {
                            name: index[q].name->0,
                            doc: index[q].docs,
                            sig: Some(sig),
                            module_name: owner,
                        },
                    ]
                } else {
                    Seq::empty()
                }
            },
            _ => Seq::empty(),
        },
        None => Seq::empty(),
    }
}

pub open spec fn impl_methods(index: Seq<IndexItem>, ids: Seq<u32>, owner: String) -> Seq<
    MethodInfo,
>
    decreases ids.len(),
{
    if ids.len() == 0 {
        Seq::empty()
    } else {
        impl_methods(index, ids.drop_last(), owner) + member_method(index, ids.last(), owner)
    }
}

pub open spec fn impl_functions(index: Seq<IndexItem>, ids: Seq<u32>, owner: String) -> Seq<
    FunctionInfo,
>
    decreases ids.len(),
{
    if ids.len() == 0 {
        Seq::empty()
    } else {
        impl_functions(index, ids.drop_last(), owner) + member_function(index, ids.last(), owner)
    }
}

/// The methods of the impls for the type `id` among the first `upto`
/// positions, in index order.
pub open spec fn methods_for(index: Seq<IndexItem>, upto: int, id: u32, owner: String) -> Seq<
    MethodInfo,
>
    decreases upto,
{
    if upto <= 0 {
        Seq::empty()
    } else {
        methods_for(index, upto - 1, id, owner) + match index[upto - 1].inner {
            IndexItemKind::Impl { for_id, items } => if for_id == Some(id) {
                impl_methods(index, items@, owner)
            } else {
                Seq::empty()
            },
            _ => Seq::empty(),
        }
    }
}

/// The associated functions of the impls for the type `id` among the first
/// `upto` positions, in index order.
pub open spec fn functions_for(index: Seq<IndexItem>, upto: int, id: u32, owner: String) -> Seq<
    FunctionInfo,
>
    decreases upto,
{
    if upto <= 0 {
        Seq::empty()
    } else {
        functions_for(index, upto - 1, id, owner) + match index[upto - 1].inner {
            IndexItemKind::Impl { for_id, items } => if for_id == Some(id) {
                impl_functions(index, items@, owner)
            } else {
                Seq::empty()
            },
            _ => Seq::empty(),
        }
    }
}

/// `s` describes the struct at position `p`: its name and documentation,
/// and its methods and functions sorted by name.
pub open spec fn is_struct_info_of(s: StructInfo, index: Seq<IndexItem>, p: int) -> bool {
    let it = index[p];
    let owner = it.name->0;
    &&& s.name == owner
    &&& s.doc == it.docs
    &&& s.methods@ == sort_by_name(methods_for(index, index.len() as int, it.id, owner))
    &&& s.functions@ == sort_by_name(functions_for(index, index.len() as int, it.id, owner))
}

fn clone_text(t: &Option<String>) -> (r: Option<String>)
    ensures
        r == *t,
{
    match t {
        Some(s) => Some(s.clone()),
        None => None,
    }
}

fn standard_method(n: &str) -> (r: bool)
    ensures
        r == is_standard_method(n@),
{
    same_text(n, "clone") || same_text(n, "clone_to_uninit") || same_text(n, "clone_into")
        || same_text(n, "borrow") || same_text(n, "borrow_mut") || same_text(n, "type_id")
        || same_text(n, "to_owned") || same_text(n, "into") || same_text(n, "try_into")
        || same_text(n, "eq") || same_text(n, "fmt") || same_text(n, "hash") || same_text(
        n,
        "write",
    ) || same_text(n, "equivalent")
}

fn has_self_input(input_names: &Vec<String>) -> (r: bool)
    ensures
        r == takes_self(input_names@),
{
    let mut k: usize = 0;
    while k < input_names.len()
        invariant
            k <= input_names.len(),
            forall|t: int| 0 <= t < k ==> (#[trigger] input_names@[t])@ != "self"@,
        decreases input_names.len() - k,
    {
        if same_text(input_names[k].as_str(), "self") {
            return true;
        }
        k = k + 1;
    }
    false
}

/// The first position of the item with id `id`.
fn find_item(index: &Vec<IndexItem>, id: u32) -> (r: Option<usize>)
    ensures
        r matches Some(q) ==> find_id(index@, id, 0) == Some(q as int),
        r is None ==> find_id(index@, id, 0) is None,
{
    let mut i: usize = 0;
    while i < index.len()
        invariant
            i <= index.len(),
            find_id(index@, id, 0) == find_id(index@, id, i as int),
        decreases index.len() - i,
    {
        if index[i].id == id {
            return Some(i);
        }
        i = i + 1;
    }
    None
}

proof fn lemma_find_id(index: Seq<IndexItem>, id: u32, i: int)
    ensures
        find_id(index, id, i) matches Some(q) ==> 0 <= q < index.len(),
    decreases index.len() - i,
{
    if 0 <= i < index.len() && index[i].id != id {
        lemma_find_id(index, id, i + 1);
    }
}

/// Adds to `out` the methods and functions that the item with id `j` of an
/// impl for `owner` adds.
fn add_member(
    index: &Vec<IndexItem>,
    j: u32,
    owner: &String,
    methods: &mut Vec<MethodInfo>,
    functions: &mut Vec<FunctionInfo>,
)
    ensures
        final(methods)@ == old(methods)@ + member_method(index@, j, *owner),
        final(functions)@ == old(functions)@ + member_function(index@, j, *owner),
{
    proof {
        lemma_find_id(index@, j, 0);
    }
    match find_item(index, j) {
        Some(q) => {
            let it = &index[q];
            match &it.inner {
                IndexItemKind::Function { input_names, sig } => {
                    let is_method = has_self_input(input_names);
                    match &it.name {
                        Some(name) => {
                            if is_method {
                                if !standard_method(name.as_str()) && it.is_public {
                                    methods.push(
                                        MethodInfo {
                                            method_name: name.clone(),
                                            doc: clone_text(&it.docs),
                                            sig: Some(sig.clone()),
                                            struct_name: owner.clone(),
                                        },
                                    );
                                }
                            } else if it.is_public {
                                functions.push(
                                    FunctionInfo {
                                        name: name.clone(),
                                        doc: clone_text(&it.docs),
                                        sig: Some(sig.clone()),
                                        module_name: owner.clone(),
                                    },
                                );
                            }
                        },
                        None => {},
                    }
                },
                _ => {},
            }
        },
        None => {},
    }
    assert(methods@ =~= old(methods)@ + member_method(index@, j, *owner));
    assert(functions@ =~= old(functions)@ + member_function(index@, j, *owner));
}

/// The methods and functions, in index order, of the impls for the type
/// `id`, named `owner`.
fn members_for(index: &Vec<IndexItem>, id: u32, owner: &String) -> (r: (
    Vec<MethodInfo>,
    Vec<FunctionInfo>,
))
    ensures
        r.0@ == methods_for(index@, index@.len() as int, id, *owner),
        r.1@ == functions_for(index@, index@.len() as int, id, *owner),
{
    let mut methods: Vec<MethodInfo> = Vec::new();
    let mut functions: Vec<FunctionInfo> = Vec::new();
    let mut p: usize = 0;
    while p < index.len()
        invariant
            p <= index.len(),
            methods@ == methods_for(index@, p as int, id, *owner),
            functions@ == functions_for(index@, p as int, id, *owner),
        decreases index.len() - p,
    {
        match &index[p].inner {
            IndexItemKind::Impl { for_id, items } => {
                if *for_id == Some(id) {
                    let ghost m0 = methods@;
                    let ghost f0 = functions@;
                    let mut k: usize = 0;
                    assert(items@.subrange(0, 0) =~= Seq::<u32>::empty());
                    while k < items.len()
                        invariant
                            k <= items.len(),
                            methods@ == m0 + impl_methods(
                                index@,
                                items@.subrange(0, k as int),
                                *owner,
                            ),
                            functions@ == f0 + impl_functions(
                                index@,
                                items@.subrange(0, k as int),
                                *owner,
                            ),
                        decreases items.len() - k,
                    {
                        assert(items@.subrange(0, k + 1).drop_last() =~= items@.subrange(
                            0,
                            k as int,
                        ));
                        add_member(index, items[k], owner, &mut methods, &mut functions);
                        assert(methods@ =~= m0 + impl_methods(
                            index@,
                            items@.subrange(0, k + 1),
                            *owner,
                        ));
                        assert(functions@ =~= f0 + impl_functions(
                            index@,
                            items@.subrange(0, k + 1),
                            *owner,
                        ));
                        k = k + 1;
                    }
                    assert(items@.subrange(0, k as int) =~= items@);
                } else {
                    assert(methods@ =~= methods_for(index@, p + 1, id, *owner));
                    assert(functions@ =~= functions_for(index@, p + 1, id, *owner));
                }
            },
            _ => {
                assert(methods@ =~= methods_for(index@, p + 1, id, *owner));
                assert(functions@ =~= functions_for(index@, p + 1, id, *owner));
            },
        }
        p = p + 1;
    }
    (methods, functions)
}

/// No position after `p` holds a public struct with the id of position `p`.
fn is_last_of_its_id(index: &Vec<IndexItem>, p: usize) -> (r: bool)
    requires
        p < index.len(),
    ensures
        r == (forall|q: int|
            p < q < index@.len() ==> !(is_public_struct(#[trigger] index@[q]) && index@[q].id
                == index@[p as int].id)),
{
    let mut q: usize = p + 1;
    while q < index.len()
        invariant
            p < q <= index.len(),
            forall|t: int|
                p < t < q ==> !(is_public_struct(#[trigger] index@[t]) && index@[t].id
                    == index@[p as int].id),
        decreases index.len() - q,
    {
        let it = &index[q];
        if it.is_public && matches!(it.inner, IndexItemKind::Struct) && it.name.is_some() && it.id
            == index[p].id {
            return false;
        }
        q = q + 1;
    }
    true
}

/// `e` names the struct entry at its position.
pub open spec fn is_entry_of(index: Seq<IndexItem>, e: StructEntry) -> bool {
    is_struct_entry(index, e.pos as int) && e.name == index[e.pos as int].name->0
}

proof fn lemma_insert_keeps(s: Seq<StructEntry>, x: StructEntry, index: Seq<IndexItem>)
    requires
        forall|k: int| 0 <= k < s.len() ==> is_entry_of(index, #[trigger] s[k]),
        is_entry_of(index, x),
    ensures
        forall|k: int|
            0 <= k < insert_by_name(s, x).len() ==> is_entry_of(
                index,
                #[trigger] insert_by_name(s, x)[k],
            ),
    decreases s.len(),
{
    if s.len() > 0 && crate::order::seq_lt(x.name_of(), s.last().name_of()) {
        lemma_insert_keeps(s.drop_last(), x, index);
        let t = insert_by_name(s.drop_last(), x);
        assert forall|k: int| 0 <= k < t.push(s.last()).len() implies is_entry_of(
            index,
            #[trigger] t.push(s.last())[k],
        ) by {
            if k < t.len() {
                assert(t.push(s.last())[k] == t[k]);
            }
        }
    }
}

proof fn lemma_sort_keeps(s: Seq<StructEntry>, index: Seq<IndexItem>)
    requires
        forall|k: int| 0 <= k < s.len() ==> is_entry_of(index, #[trigger] s[k]),
    ensures
        forall|k: int|
            0 <= k < sort_by_name(s).len() ==> is_entry_of(index, #[trigger] sort_by_name(s)[k]),
    decreases s.len(),
{
    if s.len() > 0 {
        lemma_sort_keeps(s.drop_last(), index);
        lemma_insert_keeps(sort_by_name(s.drop_last()), s.last(), index);
    }
}

/// Extracts the public structs, with their public methods and associated
/// functions, and the public enums of a crate from its documentation index.
/// Structs, enums, methods and functions come sorted by name; where two
/// public structs share an id, the later one stands.
pub fn extract_crate_items(index: &Vec<IndexItem>) -> (r: ExtractedItems)
    ensures
        r.structs.len() == sort_by_name(struct_entries(index@, index@.len() as int)).len(),
        forall|k: int|
            0 <= k < r.structs.len() ==> is_struct_info_of(
                #[trigger] r.structs@[k],
                index@,
                sort_by_name(struct_entries(index@, index@.len() as int))[k].pos as int,
            ),
        r.enums@ == sort_by_name(enum_entries(index@, index@.len() as int)),
        sorted_by_name(r.enums@),
        forall|i: int, j: int|
            0 <= i < j < r.structs.len() ==> !seq_lt(
                #[trigger] r.structs@[j].name@,
                #[trigger] r.structs@[i].name@,
            ),
{
    let mut entries: Vec<StructEntry> = Vec::new();
    let mut enums: Vec<EnumInfo> = Vec::new();
    let mut p: usize = 0;
    while p < index.len()
        invariant
            p <= index.len(),
            entries@ == struct_entries(index@, p as int),
            enums@ == enum_entries(index@, p as int),
            forall|k: int| 0 <= k < entries@.len() ==> is_entry_of(index@, #[trigger] entries@[k]),
        decreases index.len() - p,
    {
        let it = &index[p];
        let ghost e0 = entries@;
        if it.is_public && matches!(it.inner, IndexItemKind::Struct) {
            match &it.name {
                Some(name) => {
                    if is_last_of_its_id(index, p) {
                        entries.push(StructEntry { pos: p, name: name.clone() });
                    }
                },
                None => {},
            }
        }
        assert(entries@ =~= struct_entries(index@, p + 1));
        if it.is_public && matches!(it.inner, IndexItemKind::Enum) {
            match &it.name {
                Some(name) => {
                    enums.push(EnumInfo { name: name.clone(), doc: clone_text(&it.docs) });
                },
                None => {},
            }
        }
        assert(enums@ =~= enum_entries(index@, p + 1));
        p = p + 1;
    }
    let ghost unsorted = entries@;
    let sorted = sort_named(entries);
    proof {
        lemma_sort_keeps(unsorted, index@);
        lemma_sort_by_name_sorted(unsorted);
        lemma_sort_by_name_sorted(enums@);
    }
    let mut structs: Vec<StructInfo> = Vec::new();
    let mut k: usize = 0;
    while k < sorted.len()
        invariant
            k <= sorted.len(),
            sorted@ == sort_by_name(struct_entries(index@, index@.len() as int)),
            forall|t: int| 0 <= t < sorted@.len() ==> is_entry_of(index@, #[trigger] sorted@[t]),
            sorted_by_name(sorted@),
            structs.len() == k,
            forall|t: int|
                0 <= t < k ==> is_struct_info_of(
                    #[trigger] structs@[t],
                    index@,
                    sorted@[t].pos as int,
                ),
        decreases sorted.len() - k,
    {
        let pos = sorted[k].pos;
        assert(is_entry_of(index@, sorted@[k as int]));
        let it = &index[pos];
        match &it.name {
            Some(owner) => {
                let (methods, functions) = members_for(index, it.id, owner);
                structs.push(
                    StructInfo {
                        name: owner.clone(),
                        doc: clone_text(&it.docs),
                        methods: sort_named(methods),
                        functions: sort_named(functions),
                    },
                );
            },
            None => {
                assert(false);
            },
        }
        k = k + 1;
    }
    assert forall|i: int, j: int| 0 <= i < j < structs.len() implies !seq_lt(
        #[trigger] structs@[j].name@,
        #[trigger] structs@[i].name@,
    ) by {
        assert(is_entry_of(index@, sorted@[i]) && is_entry_of(index@, sorted@[j]));
        assert(!seq_lt(sorted@[j].name_of(), sorted@[i].name_of()));
    }
    ExtractedItems { structs, enums: sort_named(enums) }
}

} // verus!
