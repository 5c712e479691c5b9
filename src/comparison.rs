//! Comparing the public API of the bindings crate with that of the wrapped
//! crate: which structs, methods, functions and enums have been carried over.
use vstd::prelude::*;
use crate::items::{
    enum_names, function_name_list, functions_named, last_named, last_struct_named,
    lemma_last_named, lemma_push_to_set, method_name_list, methods_named, struct_names, EnumInfo,
    ExtractedItems, StructInfo,
};
use crate::order::{
    contains_text, insert_text, lemma_empty_to_set, lemma_push_contains, lists_in_order,
    select_texts, seq_lt,
    strictly_sorted, texts,
};

verus! {

/// How much of a wrapped item the bindings offer.
#[derive(Debug, Clone, Copy, PartialEq, Eq, Structural)]
pub enum MigrationStatus {
    FullyMigrated,
    PartiallyMigrated,
    NotMigrated,
}

/// The comparison of one struct: the method and function names that both
/// crates have, that only the bindings have and that only the wrapped crate
/// has, each list in increasing order.
#[derive(Debug, Clone)]
pub struct StructComparison {
    pub name: String,
    pub status: MigrationStatus,
    pub common_methods: Vec<String>,
    pub wasm_only_methods: Vec<String>,
    pub rust_only_methods: Vec<String>,
    pub common_functions: Vec<String>,
    pub wasm_only_functions: Vec<String>,
    pub rust_only_functions: Vec<String>,
}

/// The comparison of one enum.
#[derive(Debug, Clone)]
pub struct EnumComparison {
    pub name: String,
    pub status: MigrationStatus,
}

/// The comparisons of all structs and enums, each list in increasing order
/// of name.
#[derive(Debug, Clone)]
pub struct ComparisonResults {
    pub structs: Vec<StructComparison>,
    pub enums: Vec<EnumComparison>,
}

/// A struct is not migrated when the bindings share none of its methods and
/// functions, fully migrated when they lack none, and partially migrated
/// otherwise.
pub open spec fn struct_status(
    common_methods: Set<Seq<char>>,
    rust_only_methods: Set<Seq<char>>,
    common_functions: Set<Seq<char>>,
    rust_only_functions: Set<Seq<char>>,
) -> MigrationStatus {
    if common_methods == Set::<Seq<char>>::empty() && common_functions == Set::<
        Seq<char>,
    >::empty() {
        MigrationStatus::NotMigrated
    } else if rust_only_methods == Set::<Seq<char>>::empty() && rust_only_functions == Set::<
        Seq<char>,
    >::empty() {
        MigrationStatus::FullyMigrated
    } else {
        MigrationStatus::PartiallyMigrated
    }
}

/// `c` is the comparison of the struct it names, between the bindings
/// `wasm` and the wrapped crate `rust`.
pub open spec fn is_struct_comparison(
    wasm: ExtractedItems,
    rust: ExtractedItems,
    c: StructComparison,
) -> bool {
    let n = c.name@;
    let wm = methods_named(wasm.structs@, n);
    let rm = methods_named(rust.structs@, n);
    let wf = functions_named(wasm.structs@, n);
    let rf = functions_named(rust.structs@, n);
    &&& lists_in_order(texts(c.common_methods@), wm.intersect(rm))
    &&& lists_in_order(texts(c.wasm_only_methods@), wm.difference(rm))
    &&& lists_in_order(texts(c.rust_only_methods@), rm.difference(wm))
    &&& lists_in_order(texts(c.common_functions@), wf.intersect(rf))
    &&& lists_in_order(texts(c.wasm_only_functions@), wf.difference(rf))
    &&& lists_in_order(texts(c.rust_only_functions@), rf.difference(wf))
    &&& c.status == struct_status(
        wm.intersect(rm),
        rm.difference(wm),
        wf.intersect(rf),
        rf.difference(wf),
    )
}

/// The structs that are compared: those of either crate for which the
/// wrapped crate has methods or functions.
pub open spec fn compared_structs(wasm: ExtractedItems, rust: ExtractedItems) -> Set<Seq<char>> {
    struct_names(wasm.structs@).union(struct_names(rust.structs@)).filter(
        |n: Seq<char>|
            !(methods_named(rust.structs@, n) == Set::<Seq<char>>::empty() && functions_named(
                rust.structs@,
                n,
            ) == Set::<Seq<char>>::empty()),
    )
}

/// An enum is migrated when the wrapped crate has it and the bindings have an
/// enum or a struct of that name.
pub open spec fn enum_status(
    wasm: ExtractedItems,
    rust: ExtractedItems,
    n: Seq<char>,
) -> MigrationStatus {
    if (enum_names(wasm.enums@).contains(n) || struct_names(wasm.structs@).contains(n))
        && enum_names(rust.enums@).contains(n) {
        MigrationStatus::FullyMigrated
    } else {
        MigrationStatus::NotMigrated
    }
}

pub open spec fn struct_comparison_names(cs: Seq<StructComparison>) -> Seq<Seq<char>> {
    cs.map_values(|c: StructComparison| c.name@)
}

pub open spec fn enum_comparison_names(cs: Seq<EnumComparison>) -> Seq<Seq<char>> {
    cs.map_values(|c: EnumComparison| c.name@)
}

/// Adds the names of `structs` to the increasing vector `acc`.
fn add_struct_names(acc: &mut Vec<String>, structs: &Vec<StructInfo>)
    requires
        strictly_sorted(texts(old(acc)@)),
    ensures
        strictly_sorted(texts(final(acc)@)),
        texts(final(acc)@).to_set() == texts(old(acc)@).to_set().union(struct_names(structs@)),
{
    let ghost start = texts(acc@).to_set();
    let ghost all = structs@.map_values(|s: StructInfo| s.name@);
    let mut i: usize = 0;
    while i < structs.len()
        invariant
            i <= structs.len(),
            all == structs@.map_values(|s: StructInfo| s.name@),
            strictly_sorted(texts(acc@)),
            texts(acc@).to_set() == start.union(all.subrange(0, i as int).to_set()),
        decreases structs.len() - i,
    {
        insert_text(acc, structs[i].name.clone());
        assert(all.subrange(0, i + 1) =~= all.subrange(0, i as int).push(all[i as int]));
        proof {
            lemma_push_to_set(all.subrange(0, i as int), all[i as int]);
        }
        assert(texts(acc@).to_set() =~= start.union(all.subrange(0, i + 1).to_set()));
        i = i + 1;
    }
    assert(all.subrange(0, i as int) =~= all);
}

/// Adds the names of `enums` to the increasing vector `acc`.
fn add_enum_names(acc: &mut Vec<String>, enums: &Vec<EnumInfo>)
    requires
        strictly_sorted(texts(old(acc)@)),
    ensures
        strictly_sorted(texts(final(acc)@)),
        texts(final(acc)@).to_set() == texts(old(acc)@).to_set().union(enum_names(enums@)),
{
    let ghost start = texts(acc@).to_set();
    let ghost all = enums@.map_values(|e: EnumInfo| e.name@);
    let mut i: usize = 0;
    while i < enums.len()
        invariant
            i <= enums.len(),
            all == enums@.map_values(|e: EnumInfo| e.name@),
            strictly_sorted(texts(acc@)),
            texts(acc@).to_set() == start.union(all.subrange(0, i as int).to_set()),
        decreases enums.len() - i,
    {
        insert_text(acc, enums[i].name.clone());
        assert(all.subrange(0, i + 1) =~= all.subrange(0, i as int).push(all[i as int]));
        proof {
            lemma_push_to_set(all.subrange(0, i as int), all[i as int]);
        }
        assert(texts(acc@).to_set() =~= start.union(all.subrange(0, i + 1).to_set()));
        i = i + 1;
    }
    assert(all.subrange(0, i as int) =~= all);
}

/// The method names, in increasing order, of the struct named `n`.
fn methods_of_named(structs: &Vec<StructInfo>, n: &String) -> (r: Vec<String>)
    ensures
        lists_in_order(texts(r@), methods_named(structs@, n@)),
{
    proof {
        lemma_last_named(structs@, n@);
    }
    match last_struct_named(structs, n) {
        Some(i) => method_name_list(&structs[i]),
        None => {
            let r: Vec<String> = Vec::new();
            assert(texts(r@).to_set() =~= Set::<Seq<char>>::empty());
            r
        },
    }
}

/// The function names, in increasing order, of the struct named `n`.
fn functions_of_named(structs: &Vec<StructInfo>, n: &String) -> (r: Vec<String>)
    ensures
        lists_in_order(texts(r@), functions_named(structs@, n@)),
{
    proof {
        lemma_last_named(structs@, n@);
    }
    match last_struct_named(structs, n) {
        Some(i) => function_name_list(&structs[i]),
        None => {
            let r: Vec<String> = Vec::new();
            assert(texts(r@).to_set() =~= Set::<Seq<char>>::empty());
            r
        },
    }
}

/// The comparison of the struct named `n`.
fn compare_struct(wasm: &ExtractedItems, rust: &ExtractedItems, n: &String) -> (r: Option<
    StructComparison,
>)
    ensures
        r is Some <==> !(methods_named(rust.structs@, n@) == Set::<Seq<char>>::empty()
            && functions_named(rust.structs@, n@) == Set::<Seq<char>>::empty()),
        r matches Some(c) ==> c.name@ == n@ && is_struct_comparison(*wasm, *rust, c),
{
    let wm = methods_of_named(&wasm.structs, n);
    let rm = methods_of_named(&rust.structs, n);
    let wf = functions_of_named(&wasm.structs, n);
    let rf = functions_of_named(&rust.structs, n);
    proof {
        lemma_empty_to_set(texts(rm@));
        lemma_empty_to_set(texts(rf@));
    }
    if rm.len() == 0 && rf.len() == 0 {
        return None;
    }
    let common_methods = select_texts(&wm, &rm, true);
    let wasm_only_methods = select_texts(&wm, &rm, false);
    let rust_only_methods = select_texts(&rm, &wm, false);
    let common_functions = select_texts(&wf, &rf, true);
    let wasm_only_functions = select_texts(&wf, &rf, false);
    let rust_only_functions = select_texts(&rf, &wf, false);
    proof {
        lemma_empty_to_set(texts(common_methods@));
        lemma_empty_to_set(texts(common_functions@));
        lemma_empty_to_set(texts(rust_only_methods@));
        lemma_empty_to_set(texts(rust_only_functions@));
    }
    let status = if common_methods.len() == 0 && common_functions.len() == 0 {
        MigrationStatus::NotMigrated
    } else if rust_only_methods.len() == 0 && rust_only_functions.len() == 0 {
        MigrationStatus::FullyMigrated
    } else {
        MigrationStatus::PartiallyMigrated
    };
    Some(
        StructComparison {
            name: n.clone(),
            status,
            common_methods,
            wasm_only_methods,
            rust_only_methods,
            common_functions,
            wasm_only_functions,
            rust_only_functions,
        },
    )
}

/// The migration status of the enum named `n`.
fn compare_enum(
    wasm: &ExtractedItems,
    rust: &ExtractedItems,
    wasm_enums: &Vec<String>,
    rust_enums: &Vec<String>,
    n: &String,
) -> (r: MigrationStatus)
    requires
        texts(wasm_enums@).to_set() == enum_names(wasm.enums@),
        texts(rust_enums@).to_set() == enum_names(rust.enums@),
    ensures
        r == enum_status(*wasm, *rust, n@),
{
    proof {
        lemma_last_named(wasm.structs@, n@);
    }
    let in_wasm = contains_text(wasm_enums, n) || last_struct_named(&wasm.structs, n).is_some();
    let in_rust = contains_text(rust_enums, n);
    if in_wasm && in_rust {
        MigrationStatus::FullyMigrated
    } else {
        MigrationStatus::NotMigrated
    }
}

/// Compares the structs and enums of the bindings (`wasm_items`) with those
/// of the wrapped crate (`rust_items`).
pub fn compare_methods(wasm_items: &ExtractedItems, rust_items: &ExtractedItems) -> (r:
    ComparisonResults)
    ensures
        forall|k: int|
            0 <= k < r.structs.len() ==> is_struct_comparison(
                *wasm_items,
                *rust_items,
                #[trigger] r.structs@[k],
            ),
        lists_in_order(
            struct_comparison_names(r.structs@),
            compared_structs(*wasm_items, *rust_items),
        ),
        forall|k: int|
            0 <= k < r.enums.len() ==> (#[trigger] r.enums@[k]).status == enum_status(
                *wasm_items,
                *rust_items,
                r.enums@[k].name@,
            ),
        lists_in_order(
            enum_comparison_names(r.enums@),
            enum_names(wasm_items.enums@).union(enum_names(rust_items.enums@)),
        ),
{
    let mut wasm_enums: Vec<String> = Vec::new();
    add_enum_names(&mut wasm_enums, &wasm_items.enums);
    let mut rust_enums: Vec<String> = Vec::new();
    add_enum_names(&mut rust_enums, &rust_items.enums);
    let mut all_enums: Vec<String> = Vec::new();
    add_enum_names(&mut all_enums, &wasm_items.enums);
    add_enum_names(&mut all_enums, &rust_items.enums);
    let mut enums: Vec<EnumComparison> = Vec::new();
    let mut i: usize = 0;
    while i < all_enums.len()
        invariant
            i <= all_enums.len(),
            texts(wasm_enums@).to_set() == enum_names(wasm_items.enums@),
            texts(rust_enums@).to_set() == enum_names(rust_items.enums@),
            strictly_sorted(texts(all_enums@)),
            enums.len() == i,
            forall|k: int| 0 <= k < i ==> (#[trigger] enums@[k]).name@ == all_enums@[k]@,
            forall|k: int|
                0 <= k < enums.len() ==> (#[trigger] enums@[k]).status == enum_status(
                    *wasm_items,
                    *rust_items,
                    enums@[k].name@,
                ),
        decreases all_enums.len() - i,
    {
        let status = compare_enum(wasm_items, rust_items, &wasm_enums, &rust_enums, &all_enums[i]);
        enums.push(EnumComparison { name: all_enums[i].clone(), status });
        i = i + 1;
    }
    assert(enum_comparison_names(enums@) =~= texts(all_enums@));
    let mut all_structs: Vec<String> = Vec::new();
    proof {
        lemma_empty_to_set(texts(all_structs@));
    }
    add_struct_names(&mut all_structs, &wasm_items.structs);
    add_struct_names(&mut all_structs, &rust_items.structs);
    let ghost names = texts(all_structs@);
    let ghost keep = |n: Seq<char>|
        !(methods_named(rust_items.structs@, n) == Set::<Seq<char>>::empty() && functions_named(
            rust_items.structs@,
            n,
        ) == Set::<Seq<char>>::empty());
    let mut structs: Vec<StructComparison> = Vec::new();
    let mut j: usize = 0;
    while j < all_structs.len()
        invariant
            j <= all_structs.len(),
            names == texts(all_structs@),
            strictly_sorted(names),
            keep == (|n: Seq<char>|
                !(methods_named(rust_items.structs@, n) == Set::<Seq<char>>::empty()
                    && functions_named(rust_items.structs@, n) == Set::<Seq<char>>::empty())),
            forall|k: int|
                0 <= k < structs.len() ==> is_struct_comparison(
                    *wasm_items,
                    *rust_items,
                    #[trigger] structs@[k],
                ),
            strictly_sorted(struct_comparison_names(structs@)),
            forall|k: int, t: int|
                0 <= k < structs.len() && j <= t < names.len() ==> seq_lt(
                    #[trigger] struct_comparison_names(structs@)[k],
                    #[trigger] names[t],
                ),
            forall|y: Seq<char>|
                #[trigger] struct_comparison_names(structs@).contains(y) == (names.subrange(
                    0,
                    j as int,
                ).contains(y) && keep(y)),
        decreases all_structs.len() - j,
    {
        let ghost before = struct_comparison_names(structs@);
        let ghost x = names[j as int];
        assert(names.subrange(0, j + 1) =~= names.subrange(0, j as int).push(x));
        match compare_struct(wasm_items, rust_items, &all_structs[j]) {
            Some(c) => {
                structs.push(c);
                let ghost after = struct_comparison_names(structs@);
                assert(after =~= before.push(x));
                assert forall|p: int, q: int| 0 <= p < q < after.len() implies seq_lt(
                    #[trigger] after[p],
                    #[trigger] after[q],
                ) by {
                    if q == before.len() {
                        assert(seq_lt(before[p], x));
                    } else {
                        assert(after[p] == before[p] && after[q] == before[q]);
                    }
                }
                assert forall|k: int, t: int|
                    0 <= k < after.len() && j + 1 <= t < names.len() implies seq_lt(
                    #[trigger] after[k],
                    #[trigger] names[t],
                ) by {
                    if k == before.len() {
                        assert(after[k] == x);
                    } else {
                        assert(after[k] == before[k]);
                    }
                }
                assert forall|y: Seq<char>| #[trigger] after.contains(y) == (names.subrange(
                    0,
                    j + 1,
                ).contains(y) && keep(y)) by {
                    lemma_push_contains(before, x, y);
                    lemma_push_contains(names.subrange(0, j as int), x, y);
                }
            },
            None => {
                assert forall|y: Seq<char>| #[trigger] before.contains(y) == (names.subrange(
                    0,
                    j + 1,
                ).contains(y) && keep(y)) by {
                    lemma_push_contains(names.subrange(0, j as int), x, y);
                }
            },
        }
        j = j + 1;
    }
    assert(names.subrange(0, names.len() as int) =~= names);
    assert forall|y: Seq<char>| #[trigger] struct_comparison_names(structs@).to_set().contains(y)
        == compared_structs(*wasm_items, *rust_items).contains(y) by {
        assert(names.to_set().contains(y) == names.contains(y));
    }
    assert(struct_comparison_names(structs@).to_set() =~= compared_structs(
        *wasm_items,
        *rust_items,
    ));
    ComparisonResults { structs, enums }
}

} // verus!
