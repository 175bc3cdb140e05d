//! The inputs of a function as its signature declares them, and the purity rule
//! that a memoized function has to meet: no parameter is a mutable alias.

use vstd::prelude::*;

verus! {

/// The type of a parameter, as far as memoization looks into it.
#[derive(Debug, PartialEq, Eq)]
pub enum ParamType {
    /// `&T` or `&mut T`, with `T` in `elem`.
    Reference { mutable: bool, elem: Box<ParamType> },
    /// Any type that is not a reference, by its text.
    Other(String),
}

/// The pattern that binds a parameter.
#[derive(Debug, PartialEq, Eq)]
pub enum ParamPattern {
    /// A plain name, as in `n: u64`.
    Ident(String),
    /// Anything else, as in `(a, b): (u8, u8)`.
    Other,
}

/// One input of a function.
#[derive(Debug, PartialEq, Eq)]
pub enum FnArg {
    /// `self` in any of its forms; `ty` is the type it stands for (`&mut Self` for `&mut self`).
    Receiver { ty: ParamType },
    /// A parameter with a pattern and a type.
    Typed { pat: ParamPattern, ty: ParamType },
}

/// A parameter that aliases its argument mutably, found when a function is registered.
#[derive(Clone, Copy, Debug, PartialEq, Eq, Structural)]
pub struct PurityViolation {
    /// Position of the first such parameter among the inputs, counted from 0.
    pub index: usize,
}

impl ParamType {
    /// True of `&mut T`, and of nothing else.
    pub open spec fn is_mutable_reference(self) -> bool {
        self matches ParamType::Reference { mutable, .. } && mutable
    }

    /// The type with one level of reference taken off; a type that is no reference is itself.
    pub open spec fn referent(self) -> ParamType {
        match self {
            ParamType::Reference { elem, .. } => *elem,
            ParamType::Other(_) => self,
        }
    }
}

impl FnArg {
    /// The declared type of the input.
    pub open spec fn ty(self) -> ParamType {
        match self {
            FnArg::Receiver { ty } => ty,
            FnArg::Typed { ty, .. } => ty,
        }
    }

    /// True if the input hands the function a mutable alias of the caller's value.
    pub open spec fn is_mutable_alias(self) -> bool {
        self.ty().is_mutable_reference()
    }

    /// The name that a call's argument goes by: that of a typed parameter bound to a plain name.
    pub open spec fn slot_name(self) -> Option<Seq<char>> {
        match self {
            FnArg::Typed { pat: ParamPattern::Ident(name), .. } => Some(name@),
            _ => None,
        }
    }

    /// The type whose values a call's argument has: that of a typed parameter, without its
    /// outermost reference.
    pub open spec fn slot_type(self) -> Option<ParamType> {
        match self {
            FnArg::Typed { ty, .. } => Some(ty.referent()),
            FnArg::Receiver { .. } => None,
        }
    }
}

impl PurityViolation {
    /// Says why the function was refused.
    pub fn message(&self) -> (text: &'static str)
        ensures
            text@ == "cached functions must be pure - mutable references are not allowed"@,
    {
        "cached functions must be pure - mutable references are not allowed"
    }
}

/// True if no input is a mutable alias.
pub open spec fn is_pure(inputs: Seq<FnArg>) -> bool {
    forall|i: int| 0 <= i < inputs.len() ==> !(#[trigger] inputs[i]).is_mutable_alias()
}

/// The names of the inputs that have one, in their order.
pub open spec fn slot_names(inputs: Seq<FnArg>) -> Seq<Seq<char>>
    decreases inputs.len(),
{
    if inputs.len() == 0 {
        Seq::empty()
    } else {
        let before = slot_names(inputs.drop_last());
        match inputs.last().slot_name() {
            Some(name) => before.push(name),
            None => before,
        }
    }
}

/// The argument types of the inputs that have one, in their order.
pub open spec fn slot_types(inputs: Seq<FnArg>) -> Seq<ParamType>
    decreases inputs.len(),
{
    if inputs.len() == 0 {
        Seq::empty()
    } else {
        let before = slot_types(inputs.drop_last());
        match inputs.last().slot_type() {
            Some(ty) => before.push(ty),
            None => before,
        }
    }
}

/// The declared type of an input.
pub fn arg_type(arg: &FnArg) -> (ty: &ParamType)
    ensures
        *ty == arg.ty(),
{
    match arg {
        FnArg::Receiver { ty } => ty,
        FnArg::Typed { ty, .. } => ty,
    }
}

/// Refuses the inputs that hold a mutable alias, and names the first such input.
pub fn check_for_mutable_refs(fn_inputs: &Vec<FnArg>) -> (checked: Result<(), PurityViolation>)
    ensures
        checked is Ok <==> is_pure(fn_inputs@),
        checked matches Err(violation) ==> {
            &&& violation.index < fn_inputs.len()
            &&& fn_inputs[violation.index as int].is_mutable_alias()
            &&& is_pure(fn_inputs@.take(violation.index as int))
        },
{
    let mut i: usize = 0;
    while i < fn_inputs.len()
        invariant
            i <= fn_inputs.len(),
            is_pure(fn_inputs@.take(i as int)),
        decreases fn_inputs.len() - i,
    {
        match arg_type(&fn_inputs[i]) {
            ParamType::Reference { mutable, .. } => {
                if *mutable {
                    return Err(PurityViolation { index: i });
                }
            },
            ParamType::Other(_) => {},
        }
        assert(is_pure(fn_inputs@.take(i + 1))) by {
            assert forall|j: int| 0 <= j < i + 1 implies !(#[trigger] fn_inputs@.take(
                i + 1,
            )[j]).is_mutable_alias() by {
                if j < i {
                    assert(fn_inputs@.take(i as int)[j] == fn_inputs@[j]);
                }
            }
        }
        i += 1;
    }
    assert(fn_inputs@.take(i as int) == fn_inputs@);
    Ok(())
}

/// The type of the values that are passed for a parameter of type `ty`: `T` for `&T`, and
/// `ty` itself where it is no reference.
pub fn get_param_type(ty: &ParamType) -> (inner: &ParamType)
    ensures
        *inner == ty.referent(),
{
    match ty {
        ParamType::Reference { elem, .. } => elem,
        ParamType::Other(_) => ty,
    }
}

/// The names under which a call's arguments are keyed: one for each typed parameter that is
/// bound to a plain name, in the order of the inputs.
pub fn param_names(fn_inputs: &Vec<FnArg>) -> (names: Vec<&String>)
    ensures
        names@.len() == slot_names(fn_inputs@).len(),
        forall|k: int| 0 <= k < names@.len() ==> (#[trigger] names@[k])@ == slot_names(fn_inputs@)[k],
{
    let mut names: Vec<&String> = Vec::new();
    let mut i: usize = 0;
    while i < fn_inputs.len()
        invariant
            i <= fn_inputs.len(),
            names@.len() == slot_names(fn_inputs@.take(i as int)).len(),
            forall|k: int|
                0 <= k < names@.len() ==> (#[trigger] names@[k])@ == slot_names(
                    fn_inputs@.take(i as int),
                )[k],
        decreases fn_inputs.len() - i,
    {
        assert(fn_inputs@.take(i + 1).drop_last() == fn_inputs@.take(i as int));
        match &fn_inputs[i] {
            FnArg::Typed { pat: ParamPattern::Ident(name), .. } => {
                names.push(name);
            },
            _ => {},
        }
        i += 1;
    }
    assert(fn_inputs@.take(i as int) == fn_inputs@);
    names
}

/// The types of the values under those keys: for each typed parameter its type, taken
/// through `get_param_type`, in the order of the inputs.
pub fn param_types(fn_inputs: &Vec<FnArg>) -> (types: Vec<&ParamType>)
    ensures
        types@.len() == slot_types(fn_inputs@).len(),
        forall|k: int| 0 <= k < types@.len() ==> *(#[trigger] types@[k]) == slot_types(fn_inputs@)[k],
{
    let mut types: Vec<&ParamType> = Vec::new();
    let mut i: usize = 0;
    while i < fn_inputs.len()
        invariant
            i <= fn_inputs.len(),
            types@.len() == slot_types(fn_inputs@.take(i as int)).len(),
            forall|k: int|
                0 <= k < types@.len() ==> *(#[trigger] types@[k]) == slot_types(
                    fn_inputs@.take(i as int),
                )[k],
        decreases fn_inputs.len() - i,
    {
        assert(fn_inputs@.take(i + 1).drop_last() == fn_inputs@.take(i as int));
        match &fn_inputs[i] {
            FnArg::Typed { ty, .. } => {
                types.push(get_param_type(ty));
            },
            FnArg::Receiver { .. } => {},
        }
        i += 1;
    }
    assert(fn_inputs@.take(i as int) == fn_inputs@);
    types
}

} // verus!
