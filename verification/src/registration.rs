//! Registration: what a function goes through once, before any of its calls is memoized.
//!
//! A registration holds the inputs of the function and the fingerprint of its
//! implementation. There is one way to make it, and that way refuses a function with a
//! parameter that aliases its argument mutably: a call cannot be memoized without a
//! registration, so no call of such a function reaches the store.

use crate::fingerprint::hash_token_stream;
use crate::fingerprint::sha256_of;
use crate::signature::check_for_mutable_refs;
use crate::signature::is_pure;
use crate::signature::FnArg;
use crate::signature::PurityViolation;
use vstd::prelude::*;
use vstd::string::StringSliceAdditionalSpecFns;

verus! {

/// A function that was accepted for memoization.
#[derive(Debug)]
pub struct Registration {
    inputs: Vec<FnArg>,
    fingerprint: [u8; 32],
}

/// What a registration stands for.
pub struct RegistrationView {
    /// The inputs of the function.
    pub inputs: Seq<FnArg>,
    /// The fingerprint of its implementation.
    pub fingerprint: Seq<u8>,
}

impl View for Registration {
    type V = RegistrationView;

    closed spec fn view(&self) -> RegistrationView {
        RegistrationView { inputs: self.inputs@, fingerprint: self.fingerprint@ }
    }
}

impl Registration {
    /// No registration holds a mutable alias among its inputs.
    #[verifier::type_invariant]
    spec fn accepted(self) -> bool {
        is_pure(self.inputs@)
    }

    /// Registers the function with these inputs and this canonical text of its
    /// implementation: refuses it if an input is a mutable alias, and else fingerprints
    /// the text.
    pub fn register(fn_inputs: Vec<FnArg>, token_string: &str) -> (registered: Result<
        Registration,
        PurityViolation,
    >)
        ensures
            registered is Ok <==> is_pure(fn_inputs@),
            registered matches Ok(registration) ==> {
                &&& registration@.inputs == fn_inputs@
                &&& registration@.fingerprint == sha256_of(token_string.spec_bytes())
            },
            registered matches Err(violation) ==> {
                &&& violation.index < fn_inputs.len()
                &&& fn_inputs[violation.index as int].is_mutable_alias()
                &&& is_pure(fn_inputs@.take(violation.index as int))
            },
    {
        match check_for_mutable_refs(&fn_inputs) {
            Ok(()) => {
                let fingerprint = hash_token_stream(token_string);
                Ok(Registration { inputs: fn_inputs, fingerprint })
            },
            Err(violation) => Err(violation),
        }
    }

    /// The inputs of the function, none of which is a mutable alias.
    pub fn inputs(&self) -> (inputs: &Vec<FnArg>)
        ensures
            inputs@ == self@.inputs,
            is_pure(inputs@),
    {
        proof {
            use_type_invariant(self);
        }
        &self.inputs
    }

    /// The fingerprint of the implementation.
    pub fn fingerprint(&self) -> (fingerprint: &[u8; 32])
        ensures
            fingerprint@ == self@.fingerprint,
    {
        &self.fingerprint
    }
}

} // verus!
