//! The parameter types of generated wrapper methods: what a parameter of a
//! wrapped function becomes, read from the documentation of its type.
use vstd::prelude::*;
use crate::text::{is_at, occurs_at, same_text};

verus! {

/// The type of a parameter as the documentation index describes it, as far
/// as the generator reads it.
#[derive(Debug)]
pub enum DocType {
    /// A type named by a path.
    ResolvedPath(String),
    Primitive(String),
    BorrowedRef(Box<DocType>),
    Array(Box<DocType>),
    /// `impl Trait` with the bounds given.
    ImplTrait(Vec<DocBound>),
    /// A generic parameter of the function, by name.
    Generic(String),
    Other,
}

/// A bound on a type.
#[derive(Debug)]
pub enum DocBound {
    /// A trait bound: the path of the trait, and its arguments where they are
    /// given in angle brackets.
    Trait { path: String, angle_args: Option<Vec<DocArg>> },
    Other,
}

/// An argument of a trait in a bound.
#[derive(Debug)]
pub enum DocArg {
    Type(DocType),
    Other,
}

/// A generic parameter: its name and, when it is a type parameter, its
/// bounds.
#[derive(Debug)]
pub struct DocGenericParam {
    pub name: String,
    pub type_bounds: Option<Vec<DocBound>>,
}

/// A `where` predicate: the generic parameter it bounds, when it bounds one,
/// and its bounds.
#[derive(Debug)]
pub struct DocWherePredicate {
    pub generic: Option<String>,
    pub bounds: Vec<DocBound>,
}

/// The generic parameters and `where` predicates of a function.
#[derive(Debug)]
pub struct DocGenerics {
    pub params: Vec<DocGenericParam>,
    pub where_predicates: Vec<DocWherePredicate>,
}

/// The type a wrapper method takes for a parameter.
#[derive(Debug, PartialEq, Eq)]
pub enum ParamType {
    /// A type named by a path.
    Path(String),
    /// A vector of the inner type.
    Vec(Box<ParamType>),
}

pub open spec fn into_suffix() -> Seq<char> {
    seq![':', ':', 'I', 'n', 't', 'o']
}

/// The path names the `Into` trait.
pub open spec fn is_into_path(p: Seq<char>) -> bool {
    p == seq!['I', 'n', 't', 'o'] || occurs_at(p, into_suffix(), p.len() - 6)
}

/// The first position of a parameter named `name`.
pub open spec fn param_named(params: Seq<DocGenericParam>, name: Seq<char>, i: int) -> Option<int>
    decreases params.len() - i,
{
    if i < 0 || i >= params.len() {
        None
    } else if params[i].name@ == name {
        Some(i)
    } else {
        param_named(params, name, i + 1)
    }
}

/// The first position of a `where` predicate on the parameter `name`.
pub open spec fn predicate_on(preds: Seq<DocWherePredicate>, name: Seq<char>, i: int) -> Option<
    int,
>
    decreases preds.len() - i,
{
    if i < 0 || i >= preds.len() {
        None
    } else if preds[i].generic matches Some(g) && g@ == name {
        Some(i)
    } else {
        predicate_on(preds, name, i + 1)
    }
}

/// The bounds of the generic parameter `name`: those of the first `where`
/// predicate on it, else those it is declared with. None where there is no
/// such parameter or it is not a type parameter.
pub open spec fn bounds_of_generic(g: DocGenerics, name: Seq<char>) -> Option<Seq<DocBound>> {
    match param_named(g.params@, name, 0) {
        None => None,
        Some(i) => match predicate_on(g.where_predicates@, name, 0) {
            Some(j) => Some(g.where_predicates@[j].bounds@),
            None => match g.params@[i].type_bounds {
                Some(b) => Some(b@),
                None => None,
            },
        },
    }
}

/// `T` where the first of `bounds` is `Into<T>`.
pub open spec fn into_target(bounds: Seq<DocBound>) -> Option<DocType> {
    if bounds.len() == 0 {
        None
    } else {
        match bounds[0] {
            DocBound::Trait { path, angle_args: Some(args) } => {
                if is_into_path(path@) && args@.len() == 1 {
                    match args@[0] {
                        DocArg::Type(t) => Some(t),
                        DocArg::Other => None,
                    }
                } else {
                    None
                }
            },
            _ => None,
        }
    }
}

/// The parameter type for `ty`: a path stays a path, a reference is looked
/// through, an array becomes a vector, and `impl Into<T>` or a generic
/// bounded by `Into<T>` becomes the parameter type for `T`. None for any
/// other type, or after `fuel` steps from a generic parameter to its bound.
pub open spec fn param_type(ty: DocType, g: DocGenerics, fuel: nat) -> Option<ParamType>
    decreases fuel, ty
    via param_type_decreases
{
    match ty {
        DocType::ResolvedPath(p) => Some(ParamType::Path(p)),
        DocType::Primitive(p) => Some(ParamType::Path(p)),
        DocType::BorrowedRef(inner) => param_type(*inner, g, fuel),
        DocType::Array(inner) => match param_type(*inner, g, fuel) {
            Some(t) => Some(ParamType::Vec(Box::new(t))),
            None => None,
        },
        DocType::ImplTrait(bounds) => match into_target(bounds@) {
            Some(t) => param_type(t, g, fuel),
            None => None,
        },
        DocType::Generic(name) => {
            if fuel == 0 {
                None
            } else {
                match bounds_of_generic(g, name@) {
                    Some(b) => match into_target(b) {
                        Some(t) => param_type(t, g, (fuel - 1) as nat),
                        None => None,
                    },
                    None => None,
                }
            }
        },
        DocType::Other => None,
    }
}

proof fn lemma_into_target_smaller(ty: DocType)
    ensures
        ty matches DocType::ImplTrait(bounds) ==> (into_target(bounds@) matches Some(t)
            ==> decreases_to!(ty => t)),
{
    match ty {
        DocType::ImplTrait(bounds) => {
            if bounds@.len() > 0 {
                match bounds@[0] {
                    DocBound::Trait { path, angle_args: Some(args) } => {
                        if args@.len() == 1 {
                            assert(decreases_to!(bounds => bounds@));
                            assert(decreases_to!(bounds@ => bounds@[0]));
                            assert(decreases_to!(args => args@));
                            assert(decreases_to!(args@ => args@[0]));
                        }
                    },
                    _ => {},
                }
            }
        },
        _ => {},
    }
}

#[via_fn]
proof fn param_type_decreases(ty: DocType, g: DocGenerics, fuel: nat) {
    lemma_into_target_smaller(ty);
}

fn is_into(path: &String) -> (r: bool)
    ensures
        r == is_into_path(path@),
{
    proof {
        reveal_strlit("Into");
        reveal_strlit("::Into");
    }
    let n = path.as_str().unicode_len();
    if same_text(path.as_str(), "Into") {
        assert(path@ == seq!['I', 'n', 't', 'o']);
        return true;
    }
    assert("Into"@ =~= seq!['I', 'n', 't', 'o']);
    assert("::Into"@ =~= into_suffix());
    n >= 6 && is_at(path.as_str(), "::Into", n - 6)
}

fn into_target_of(bounds: &Vec<DocBound>) -> (r: Option<&DocType>)
    ensures
        r matches Some(t) ==> into_target(bounds@) == Some(*t),
        r is None ==> into_target(bounds@) is None,
{
    if bounds.len() == 0 {
        return None;
    }
    match &bounds[0] {
        DocBound::Trait { path, angle_args: Some(args) } => {
            if is_into(path) && args.len() == 1 {
                match &args[0] {
                    DocArg::Type(t) => Some(t),
                    DocArg::Other => None,
                }
            } else {
                None
            }
        },
        _ => None,
    }
}

fn param_index(params: &Vec<DocGenericParam>, name: &String) -> (r: Option<usize>)
    ensures
        r matches Some(i) ==> i < params.len() && param_named(params@, name@, 0) == Some(i as int),
        r is None ==> param_named(params@, name@, 0) is None,
{
    let mut i: usize = 0;
    while i < params.len()
        invariant
            i <= params.len(),
            param_named(params@, name@, 0) == param_named(params@, name@, i as int),
        decreases params.len() - i,
    {
        if params[i].name == *name {
            return Some(i);
        }
        i = i + 1;
    }
    None
}

fn predicate_index(preds: &Vec<DocWherePredicate>, name: &String) -> (r: Option<usize>)
    ensures
        r matches Some(j) ==> j < preds.len() && predicate_on(preds@, name@, 0) == Some(j as int),
        r is None ==> predicate_on(preds@, name@, 0) is None,
{
    let mut j: usize = 0;
    while j < preds.len()
        invariant
            j <= preds.len(),
            predicate_on(preds@, name@, 0) == predicate_on(preds@, name@, j as int),
        decreases preds.len() - j,
    {
        match &preds[j].generic {
            Some(n) => {
                if *n == *name {
                    return Some(j);
                }
            },
            None => {},
        }
        j = j + 1;
    }
    None
}

fn bounds_of<'a>(g: &'a DocGenerics, name: &String) -> (r: Option<&'a Vec<DocBound>>)
    ensures
        r matches Some(b) ==> bounds_of_generic(*g, name@) == Some(b@),
        r is None ==> bounds_of_generic(*g, name@) is None,
{
    match param_index(&g.params, name) {
        None => None,
        Some(i) => match predicate_index(&g.where_predicates, name) {
            Some(j) => Some(&g.where_predicates[j].bounds),
            None => match &g.params[i].type_bounds {
                Some(b) => Some(b),
                None => None,
            },
        },
    }
}

fn param_type_within(ty: &DocType, g: &DocGenerics, fuel: usize) -> (r: Option<ParamType>)
    ensures
        r == param_type(*ty, *g, fuel as nat),
    decreases fuel, *ty,
{
    match ty {
        DocType::ResolvedPath(p) => Some(ParamType::Path(p.clone())),
        DocType::Primitive(p) => Some(ParamType::Path(p.clone())),
        DocType::BorrowedRef(inner) => param_type_within(inner, g, fuel),
        DocType::Array(inner) => match param_type_within(inner, g, fuel) {
            Some(t) => Some(ParamType::Vec(Box::new(t))),
            None => None,
        },
        DocType::ImplTrait(bounds) => {
            proof {
                lemma_into_target_smaller(*ty);
            }
            match into_target_of(bounds) {
                Some(t) => param_type_within(t, g, fuel),
                None => None,
            }
        },
        DocType::Generic(name) => {
            if fuel == 0 {
                None
            } else {
                match bounds_of(g, name) {
                    Some(b) => match into_target_of(b) {
                        Some(t) => param_type_within(t, g, fuel - 1),
                        None => None,
                    },
                    None => None,
                }
            }
        },
        DocType::Other => None,
    }
}

/// The parameter type that a wrapper method takes for a parameter of type
/// `ty`, or None where the type is not one the generator handles. A chain of
/// generic parameters through their `Into` bounds longer than there are
/// generic parameters, which only a cycle makes, gives None.
pub fn determine_param_type(ty: &DocType, generics: &DocGenerics) -> (r: Option<ParamType>)
    ensures
        r == param_type(*ty, *generics, generics.params@.len()),
{
    param_type_within(ty, generics, generics.params.len())
}

/// Whether the wrapper passes an argument of type `ty` on with `.into()`: a
/// type named by a path, or a reference to one.
pub open spec fn passes_with_into(ty: DocType) -> bool {
    match ty {
        DocType::ResolvedPath(_) => true,
        DocType::BorrowedRef(inner) => *inner is ResolvedPath,
        _ => false,
    }
}

/// Whether the wrapper passes an argument of type `ty` on with `.into()`.
pub fn converts_with_into(ty: &DocType) -> (r: bool)
    ensures
        r == passes_with_into(*ty),
{
    match ty {
        DocType::ResolvedPath(_) => true,
        DocType::BorrowedRef(inner) => matches!(**inner, DocType::ResolvedPath(_)),
        _ => false,
    }
}

} // verus!
