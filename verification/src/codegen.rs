//! Constructor scanning for auto-resolution.
//!
//! An `impl` block of a concrete type is scanned for its one eligible
//! constructor — a method with no receiver that returns `Self` (literally, or
//! by the type's own name) — and turned into a description of the capability
//! implementation to emit: the type, the constructor to call, and the
//! dependency types to resolve, in declaration order. Malformed declarations
//! are rejected with a [`GenError`], never accepted half-way: a trait `impl`,
//! zero or several eligible constructors, and a constructor parameter that is
//! not a plain type are each reported exactly.
//!
//! The syntactic shell — reading real source tokens into these models and
//! rendering the described implementation back out — lives outside this
//! library; everything decided here is decided on the models alone.

use vstd::pervasive::unreached;
use vstd::prelude::*;

verus! {

/// One parameter of a scanned method.
#[derive(Debug, PartialEq, Eq)]
pub enum ParamModel {
    /// A `&self`-style receiver.
    SelfByReference,
    /// A by-value `self` receiver.
    SelfByValue,
    /// An ordinary parameter of the named type.
    Plain(String),
    /// Anything else (an untyped or otherwise unsupported parameter).
    Other,
}

/// A scanned method's return position.
#[derive(Debug, PartialEq, Eq)]
pub enum ReturnModel {
    /// No declared return type.
    Unit,
    /// A declared return type, by name.
    Named(String),
}

/// A scanned method signature.
#[derive(Debug, PartialEq, Eq)]
pub struct MethodModel {
    /// The method's name.
    pub name: String,
    /// The declared return type.
    pub output: ReturnModel,
    /// The parameters, in declaration order, receiver included.
    pub params: Vec<ParamModel>,
}

/// One item of a scanned `impl` block.
#[derive(Debug, PartialEq, Eq)]
pub enum ImplItemModel {
    /// A method, with its signature.
    Method(MethodModel),
    /// Any non-method item.
    Other,
}

/// A scanned `impl` block.
#[derive(Debug, PartialEq, Eq)]
pub struct ImplModel {
    /// Whether the block implements a trait rather than the type directly.
    pub is_trait_impl: bool,
    /// The implemented type, by name.
    pub self_ty: String,
    /// The block's items, in declaration order.
    pub items: Vec<ImplItemModel>,
}

/// A scanned top-level item.
#[derive(Debug, PartialEq, Eq)]
pub enum ItemModel {
    /// An `impl` block.
    Impl(ImplModel),
    /// Any other item.
    Other,
}

/// A rejected declaration, with the reason.
#[derive(Debug, PartialEq, Eq)]
pub enum GenError {
    /// The scanned item is not an `impl` block at all.
    NotAnImpl,
    /// The block implements a trait; only a direct `impl` is accepted.
    TraitImpl,
    /// The block holds this many eligible constructors instead of one.
    ConstructorCount(usize),
    /// A constructor parameter is a receiver or otherwise not a plain type.
    NonSimpleParameter,
}

/// The capability implementation to emit for an accepted declaration.
#[derive(Debug, PartialEq, Eq)]
pub struct GeneratedImpl {
    /// The type the capability is implemented for.
    pub self_ty: String,
    /// The constructor the implementation calls.
    pub constructor: String,
    /// The types the implementation resolves, in parameter order.
    pub dependencies: Vec<String>,
}

/// The literal `Self` return type.
pub open spec fn self_token() -> Seq<char> {
    "Self"@
}

/// Whether a method's return position names the implemented type.
pub open spec fn returns_self_spec(method: MethodModel, self_ty: Seq<char>) -> bool {
    match method.output {
        ReturnModel::Unit => false,
        ReturnModel::Named(t) => t@ == self_token() || t@ == self_ty,
    }
}

/// Whether a parameter is a receiver.
pub open spec fn param_is_self(param: ParamModel) -> bool {
    param is SelfByReference || param is SelfByValue
}

/// Whether a method's first parameter, if any, is not a receiver.
pub open spec fn has_no_self_param_spec(method: MethodModel) -> bool {
    method.params@.len() == 0 || !param_is_self(method.params@[0])
}

/// Whether an `impl` item is an eligible constructor: a method that returns
/// the implemented type and takes no receiver.
pub open spec fn item_is_ctor(item: ImplItemModel, self_ty: Seq<char>) -> bool {
    match item {
        ImplItemModel::Method(m) => returns_self_spec(m, self_ty) && has_no_self_param_spec(m),
        ImplItemModel::Other => false,
    }
}

/// The positions of the eligible constructors among the first `n` items, in
/// declaration order.
pub open spec fn ctor_positions_upto(
    items: Seq<ImplItemModel>,
    self_ty: Seq<char>,
    n: int,
) -> Seq<int>
    decreases n,
{
    if n <= 0 {
        Seq::empty()
    } else if item_is_ctor(items[n - 1], self_ty) {
        ctor_positions_upto(items, self_ty, n - 1).push(n - 1)
    } else {
        ctor_positions_upto(items, self_ty, n - 1)
    }
}

/// The positions of all eligible constructors of a block.
pub open spec fn ctor_positions(impl_model: ImplModel) -> Seq<int> {
    ctor_positions_upto(impl_model.items@, impl_model.self_ty@, impl_model.items@.len() as int)
}

/// The method under an `impl` item known to be one.
pub open spec fn method_of(item: ImplItemModel) -> MethodModel {
    match item {
        ImplItemModel::Method(m) => m,
        ImplItemModel::Other => vstd::pervasive::arbitrary(),
    }
}

/// The type name under a plain parameter.
pub open spec fn plain_view(param: ParamModel) -> Seq<char> {
    match param {
        ParamModel::Plain(t) => t@,
        _ => Seq::empty(),
    }
}

/// Every recorded constructor position lies among the first `n` items and
/// points at an eligible constructor.
pub proof fn lemma_ctor_positions_upto(items: Seq<ImplItemModel>, self_ty: Seq<char>, n: int)
    requires
        0 <= n <= items.len(),
    ensures
        forall|j: int|
            0 <= j < ctor_positions_upto(items, self_ty, n).len() ==> {
                let position = #[trigger] ctor_positions_upto(items, self_ty, n)[j];
                0 <= position < n && item_is_ctor(items[position], self_ty)
            },
    decreases n,
{
    if n > 0 {
        lemma_ctor_positions_upto(items, self_ty, n - 1);
        let prev = ctor_positions_upto(items, self_ty, n - 1);
        let cur = ctor_positions_upto(items, self_ty, n);
        assert forall|j: int| 0 <= j < cur.len() implies {
            let position = #[trigger] cur[j];
            0 <= position < n && item_is_ctor(items[position], self_ty)
        } by {
            if j < prev.len() {
                assert(cur[j] == prev[j]);
            } else {
                assert(cur[j] == n - 1);
            }
        }
    }
}

/// Scans an item down to its `impl` block.
pub fn parse_item_impl(item: &ItemModel) -> (scanned: Result<&ImplModel, GenError>)
    ensures
        match scanned {
            Ok(impl_model) => *item matches ItemModel::Impl(m) && *impl_model == m,
            Err(e) => *item is Other && e == GenError::NotAnImpl,
        },
{
    match item {
        ItemModel::Impl(impl_model) => Ok(impl_model),
        ItemModel::Other => Err(GenError::NotAnImpl),
    }
}

/// Accepts a block only if it implements its type directly.
pub fn validate_item_impl(impl_model: &ImplModel) -> (checked: Result<(), GenError>)
    ensures
        checked is Ok <==> !impl_model.is_trait_impl,
        checked matches Err(e) ==> e == GenError::TraitImpl,
{
    if impl_model.is_trait_impl {
        Err(GenError::TraitImpl)
    } else {
        Ok(())
    }
}

/// The literal `Self` return type, as written in a signature.
pub fn generate_self_type() -> (token: String)
    ensures
        token@ == self_token(),
{
    "Self".to_owned()
}

/// Whether a method's return position names the implemented type, either as
/// the literal `Self` or by the type's explicit name.
pub fn returns_self(method: &MethodModel, explicit_self_type: &String) -> (answer: bool)
    ensures
        answer == returns_self_spec(*method, explicit_self_type@),
{
    match &method.output {
        ReturnModel::Unit => false,
        ReturnModel::Named(t) => {
            let self_type = generate_self_type();
            if *t == self_type {
                true
            } else {
                *t == *explicit_self_type
            }
        },
    }
}

/// Whether a method's first parameter, if any, is not a receiver.
pub fn has_no_self_parameter(method: &MethodModel) -> (answer: bool)
    ensures
        answer == has_no_self_param_spec(*method),
{
    if method.params.len() == 0 {
        true
    } else {
        match &method.params[0] {
            ParamModel::SelfByReference => false,
            ParamModel::SelfByValue => false,
            _ => true,
        }
    }
}

/// Scans one `impl` item down to its method signature.
pub fn parse_method_signature(impl_item: &ImplItemModel) -> (signature: Option<&MethodModel>)
    ensures
        match signature {
            Some(method) => *impl_item matches ImplItemModel::Method(m) && *method == m,
            None => *impl_item is Other,
        },
{
    match impl_item {
        ImplItemModel::Method(method) => Some(method),
        ImplItemModel::Other => None,
    }
}

/// The positions of a block's eligible constructors, in declaration order.
pub fn parse_constructors(impl_model: &ImplModel) -> (positions: Vec<usize>)
    ensures
        positions@.map_values(|p: usize| p as int) == ctor_positions(*impl_model),
{
    let mut positions: Vec<usize> = Vec::new();
    let mut i: usize = 0;
    while i < impl_model.items.len()
        invariant
            i <= impl_model.items@.len(),
            positions@.map_values(|p: usize| p as int) == ctor_positions_upto(
                impl_model.items@,
                impl_model.self_ty@,
                i as int,
            ),
        decreases impl_model.items@.len() - i,
    {
        let ghost before = positions@;
        let eligible = match parse_method_signature(&impl_model.items[i]) {
            Some(method) => returns_self(method, &impl_model.self_ty) && has_no_self_parameter(
                method,
            ),
            None => false,
        };
        if eligible {
            positions.push(i);
            proof {
                assert(positions@.map_values(|p: usize| p as int) =~= before.map_values(
                    |p: usize| p as int,
                ).push(i as int));
            }
        }
        i += 1;
    }
    positions
}

/// Accepts a scan only if it found exactly one eligible constructor.
pub fn validate_constructors(constructors: &Vec<usize>) -> (checked: Result<(), GenError>)
    ensures
        checked is Ok <==> constructors@.len() == 1,
        checked matches Err(e) ==> e == GenError::ConstructorCount(constructors@.len() as usize),
{
    if constructors.len() == 1 {
        Ok(())
    } else {
        Err(GenError::ConstructorCount(constructors.len()))
    }
}

/// The constructor the capability will call: the first eligible one.
pub fn determine_constructor_to_autoresolve(constructors: &Vec<usize>) -> (position: usize)
    requires
        constructors@.len() > 0,
    ensures
        position == constructors@[0],
{
    constructors[0]
}

/// The dependency types of a constructor: its parameters' type names, in
/// order. A receiver or an untyped parameter rejects the declaration.
pub fn parse_constructor_argument_types(constructor: &MethodModel) -> (scanned: Result<
    Vec<String>,
    GenError,
>)
    ensures
        match scanned {
            Ok(dependencies) => {
                &&& forall|j: int|
                    0 <= j < constructor.params@.len() ==> #[trigger] constructor.params@[j]
                        is Plain
                &&& dependencies@.len() == constructor.params@.len()
                &&& forall|j: int|
                    0 <= j < dependencies@.len() ==> #[trigger] dependencies@[j]@ == plain_view(
                        constructor.params@[j],
                    )
            },
            Err(e) => {
                &&& e == GenError::NonSimpleParameter
                &&& exists|j: int|
                    0 <= j < constructor.params@.len() && !(#[trigger] constructor.params@[j]
                        is Plain)
            },
        },
{
    let mut dependencies: Vec<String> = Vec::new();
    let mut i: usize = 0;
    while i < constructor.params.len()
        invariant
            i <= constructor.params@.len(),
            dependencies@.len() == i,
            forall|j: int| 0 <= j < i ==> #[trigger] constructor.params@[j] is Plain,
            forall|j: int|
                0 <= j < i ==> #[trigger] dependencies@[j]@ == plain_view(constructor.params@[j]),
        decreases constructor.params@.len() - i,
    {
        match &constructor.params[i] {
            ParamModel::Plain(dependency_ty) => dependencies.push(dependency_ty.clone()),
            _ => {
                return Err(GenError::NonSimpleParameter);
            },
        }
        i += 1;
    }
    Ok(dependencies)
}

/// What a finished scan means.
///
/// An accepted item is a direct `impl` with exactly one eligible constructor,
/// all of whose parameters are plain types, and the description carries the
/// implemented type, that constructor's name, and its parameter types in
/// order. Each rejection names its exact cause — and nothing is rejected for
/// a cause that is not present.
pub open spec fn generation_result_spec(
    item: ItemModel,
    outcome: Result<GeneratedImpl, GenError>,
) -> bool {
    match outcome {
        Ok(generated) => match item {
            ItemModel::Impl(m) => {
                &&& !m.is_trait_impl
                &&& ctor_positions(m).len() == 1
                &&& {
                    let ctor = method_of(m.items@[ctor_positions(m)[0]]);
                    &&& generated.self_ty@ == m.self_ty@
                    &&& generated.constructor@ == ctor.name@
                    &&& forall|j: int|
                        0 <= j < ctor.params@.len() ==> #[trigger] ctor.params@[j] is Plain
                    &&& generated.dependencies@.len() == ctor.params@.len()
                    &&& forall|j: int|
                        0 <= j < generated.dependencies@.len()
                            ==> #[trigger] generated.dependencies@[j]@ == plain_view(
                            ctor.params@[j],
                        )
                }
            },
            ItemModel::Other => false,
        },
        Err(e) => match e {
            GenError::NotAnImpl => item is Other,
            GenError::TraitImpl => item matches ItemModel::Impl(m) && m.is_trait_impl,
            GenError::ConstructorCount(n) => item matches ItemModel::Impl(m) && !m.is_trait_impl
                && ctor_positions(m).len() == n && n != 1,
            GenError::NonSimpleParameter => item matches ItemModel::Impl(m) && !m.is_trait_impl
                && ctor_positions(m).len() == 1 && exists|j: int|
                0 <= j < method_of(m.items@[ctor_positions(m)[0]]).params@.len() && !(
                #[trigger] method_of(m.items@[ctor_positions(m)[0]]).params@[j] is Plain),
        },
    }
}

/// Scans an item and either describes the capability implementation to emit
/// for it or rejects it with the exact reason.
pub fn generate_autoresolvable_impl(item: &ItemModel) -> (outcome: Result<GeneratedImpl, GenError>)
    ensures
        generation_result_spec(*item, outcome),
{
    let impl_model = match parse_item_impl(item) {
        Ok(impl_model) => impl_model,
        Err(e) => {
            return Err(e);
        },
    };
    match validate_item_impl(impl_model) {
        Ok(()) => (),
        Err(e) => {
            return Err(e);
        },
    }
    let constructors = parse_constructors(impl_model);
    match validate_constructors(&constructors) {
        Ok(()) => (),
        Err(e) => {
            return Err(e);
        },
    }
    let position = determine_constructor_to_autoresolve(&constructors);
    proof {
        lemma_ctor_positions_upto(
            impl_model.items@,
            impl_model.self_ty@,
            impl_model.items@.len() as int,
        );
    }
    let method = match parse_method_signature(&impl_model.items[position]) {
        Some(method) => method,
        None => unreached(),
    };
    let dependencies = match parse_constructor_argument_types(method) {
        Ok(dependencies) => dependencies,
        Err(e) => {
            return Err(e);
        },
    };
    Ok(
        GeneratedImpl {
            self_ty: impl_model.self_ty.clone(),
            constructor: method.name.clone(),
            dependencies,
        },
    )
}

} // verus!
