//! The orchestrator: what one call of a memoized function does.
//!
//! A call builds its key, looks the key up, and then goes one of two ways. On a hit, which
//! is an entry that the store found and that decodes, it returns the decoded value. On a
//! miss it runs the computation, once, encodes what came out, tries to store it, and
//! returns it whether the store took it or not. The cache is advisory: whatever the store
//! does, the value that a call returns is one that the decoder read or the computation made.

use crate::codec::DecodeError;
use crate::codec::EncodingError;
use crate::key::all_encoded;
use crate::key::encode_key;
use crate::key::key_bytes;
use crate::key::slots_of;
use crate::key::Argument;
use crate::registration::Registration;
use crate::store::get_cached;
use crate::store::may_be_found;
use crate::store::set_cached;
use crate::store::Store;
use crate::store::StoreTransactionError;
use vstd::prelude::*;

verus! {

/// The way a call came by its value.
#[derive(Clone, Copy, Debug, PartialEq, Eq, Structural)]
pub enum Served {
    /// A hit: the value was decoded from the entry in the store.
    FromCache,
    /// A miss: the value was computed, and the store took it.
    Stored,
    /// A miss: the value was computed, and the store did not take it.
    Unstored,
}

/// What a call ends with when nothing stood in the way of its key and its result.
#[derive(Debug, PartialEq, Eq)]
pub struct Answer<R> {
    /// The value of the function for the arguments.
    pub value: R,
    /// The way the call came by it.
    pub served: Served,
    /// The key that the call looked up.
    pub key: Vec<u8>,
}

/// True if a lookup that found `found` is a miss: there is no entry, or the decoder may
/// refuse the entry.
pub open spec fn is_miss<R, D: FnOnce(&Vec<u8>) -> Result<R, DecodeError>>(
    found: Option<Vec<u8>>,
    decode: D,
) -> bool {
    match found {
        Some(bytes) => exists|error: DecodeError| decode.ensures((&bytes,), Err(error)),
        None => true,
    }
}

/// True if a call whose lookup found `found` may end with `end`.
pub open spec fn may_end_with<R, D, C, E>(
    found: Option<Vec<u8>>,
    decode: D,
    compute: C,
    encode: E,
    end: Result<Answer<R>, EncodingError>,
) -> bool where
    D: FnOnce(&Vec<u8>) -> Result<R, DecodeError>,
    C: FnOnce() -> R,
    E: FnOnce(&R) -> Result<Vec<u8>, EncodingError>,
 {
    match end {
        Ok(answer) => match answer.served {
            Served::FromCache => found matches Some(bytes) && decode.ensures(
                (&bytes,),
                Ok(answer.value),
            ),
            _ => {
                &&& is_miss(found, decode)
                &&& compute.ensures((), answer.value)
                &&& exists|bytes: Vec<u8>| encode.ensures((&answer.value,), Ok(bytes))
            },
        },
        Err(error) => {
            &&& error == EncodingError::Output
            &&& is_miss(found, decode)
            &&& exists|value: R, refusal: EncodingError|
                compute.ensures((), value) && encode.ensures((&value,), Err(refusal))
        },
    }
}

/// True if a call with these arguments to the function with this fingerprint may end with
/// `end`. A call whose arguments did not all come with bytes ends with the first slot that
/// came without, and goes no further. Any other call ends as `complete` ends for what the
/// store found under the key of the call.
pub open spec fn call_may_end_with<R, D, C, E>(
    arguments: Seq<Argument>,
    fingerprint: Seq<u8>,
    decode: D,
    compute: C,
    encode: E,
    end: Result<Answer<R>, EncodingError>,
) -> bool where
    D: FnOnce(&Vec<u8>) -> Result<R, DecodeError>,
    C: FnOnce() -> R,
    E: FnOnce(&R) -> Result<Vec<u8>, EncodingError>,
 {
    if all_encoded(arguments) {
        let key = key_bytes(slots_of(arguments), fingerprint);
        &&& end matches Ok(answer) ==> answer.key@ == key
        &&& exists|found: Option<Vec<u8>>|
            may_be_found(key, found) && #[trigger] may_end_with(
                found,
                decode,
                compute,
                encode,
                end,
            )
    } else {
        exists|i: int|
            {
                &&& 0 <= i < arguments.len()
                &&& end == Err::<Answer<R>, EncodingError>(EncodingError::Argument(i as usize))
                &&& !(#[trigger] arguments[i]).is_encoded()
                &&& all_encoded(arguments.take(i))
            }
    }
}

/// What is left of the end of a call for a caller that asks for the value alone.
pub open spec fn value_of<R>(end: Result<Answer<R>, EncodingError>) -> Result<R, EncodingError> {
    match end {
        Ok(answer) => Ok(answer.value),
        Err(error) => Err(error),
    }
}

/// Decides between hit and miss: a hit, with the decoded value, if the store found an
/// entry and the entry decodes, and a miss in every other case.
pub fn resolve<R, D>(found: &Option<Vec<u8>>, decode: D) -> (hit: Option<R>) where
    D: FnOnce(&Vec<u8>) -> Result<R, DecodeError>,

    requires
        forall|bytes: &Vec<u8>| decode.requires((bytes,)),
    ensures
        match hit {
            Some(value) => *found matches Some(bytes) && decode.ensures((&bytes,), Ok(value)),
            None => is_miss(*found, decode),
        },
{
    match found {
        Some(bytes) => match decode(bytes) {
            Ok(value) => Some(value),
            Err(error) => {
                assert(decode.ensures((bytes,), Err(error)));
                None
            },
        },
        None => None,
    }
}

/// The way a computed value was served, given what the store said to it: a failure of
/// the store is swallowed.
pub fn served_after(stored: Result<(), StoreTransactionError>) -> (served: Served)
    ensures
        served == (if stored is Ok {
            Served::Stored
        } else {
            Served::Unstored
        }),
{
    match stored {
        Ok(()) => Served::Stored,
        Err(_) => Served::Unstored,
    }
}

/// A call from the point where the store has answered: with `found`, what the lookup under
/// `key` gave, it returns the decoded entry on a hit, and on a miss computes, encodes what
/// came out, tries to store it under `key`, and returns it.
pub fn complete<R, D, C, E>(
    store: &Store,
    key: Vec<u8>,
    found: Option<Vec<u8>>,
    decode: D,
    compute: C,
    encode: E,
) -> (end: Result<Answer<R>, EncodingError>) where
    D: FnOnce(&Vec<u8>) -> Result<R, DecodeError>,
    C: FnOnce() -> R,
    E: FnOnce(&R) -> Result<Vec<u8>, EncodingError>,

    requires
        forall|bytes: &Vec<u8>| decode.requires((bytes,)),
        compute.requires(()),
        forall|value: &R| encode.requires((value,)),
    ensures
        may_end_with(found, decode, compute, encode, end),
        end matches Ok(answer) ==> answer.key == key,
{
    match resolve(&found, decode) {
        Some(value) => {
            let end = Ok(Answer { value, served: Served::FromCache, key });
            assert(may_end_with(found, decode, compute, encode, end));
            end
        },
        None => {
            let value = compute();
            match encode(&value) {
                Ok(bytes) => {
                    let served = served_after(set_cached(store, key.as_slice(), bytes.as_slice()));
                    let end = Ok(Answer { value, served, key });
                    assert(encode.ensures((&value,), Ok(bytes)));
                    assert(may_end_with(found, decode, compute, encode, end));
                    end
                },
                Err(refusal) => {
                    let end = Err(EncodingError::Output);
                    assert(compute.ensures((), value) && encode.ensures((&value,), Err(refusal)));
                    assert(may_end_with(found, decode, compute, encode, end));
                    end
                },
            }
        },
    }
}

/// One call of the registered function: looks the arguments up in the store, and computes
/// and stores the value if they are not there. Says how it came by the value.
pub fn call<R, D, C, E>(
    store: &Store,
    registration: &Registration,
    arguments: &Vec<Argument>,
    decode: D,
    compute: C,
    encode: E,
) -> (end: Result<Answer<R>, EncodingError>) where
    D: FnOnce(&Vec<u8>) -> Result<R, DecodeError>,
    C: FnOnce() -> R,
    E: FnOnce(&R) -> Result<Vec<u8>, EncodingError>,

    requires
        forall|bytes: &Vec<u8>| decode.requires((bytes,)),
        compute.requires(()),
        forall|value: &R| encode.requires((value,)),
    ensures
        call_may_end_with(arguments@, registration@.fingerprint, decode, compute, encode, end),
{
    let key = match encode_key(arguments, registration.fingerprint()) {
        Ok(key) => key,
        Err(error) => {
            return Err(error);
        },
    };
    let found = get_cached(store, key.as_slice());
    complete(store, key, found, decode, compute, encode)
}

/// The value of the registered function for the arguments, from the store if it is there
/// and computed if it is not.
pub fn cached<R, D, C, E>(
    store: &Store,
    registration: &Registration,
    arguments: &Vec<Argument>,
    decode: D,
    compute: C,
    encode: E,
) -> (result: Result<R, EncodingError>) where
    D: FnOnce(&Vec<u8>) -> Result<R, DecodeError>,
    C: FnOnce() -> R,
    E: FnOnce(&R) -> Result<Vec<u8>, EncodingError>,

    requires
        forall|bytes: &Vec<u8>| decode.requires((bytes,)),
        compute.requires(()),
        forall|value: &R| encode.requires((value,)),
    ensures
        exists|end: Result<Answer<R>, EncodingError>|
            result == value_of(end) && #[trigger] call_may_end_with(
                arguments@,
                registration@.fingerprint,
                decode,
                compute,
                encode,
                end,
            ),
{
    let end = call(store, registration, arguments, decode, compute, encode);
    match end {
        Ok(answer) => {
            let ghost whole = Ok::<Answer<R>, EncodingError>(answer);
            let value = answer.value;
            assert(Ok::<R, EncodingError>(value) == value_of(whole));
            Ok(value)
        },
        Err(error) => {
            assert(Err::<R, EncodingError>(error) == value_of(
                Err::<Answer<R>, EncodingError>(error),
            ));
            Err(error)
        },
    }
}

/// A call that finds an entry which decodes to one value, and to nothing else, returns
/// that value from the cache and computes nothing. So it is with the second of two calls
/// with equal arguments, where the store kept what the first call found or stored and the
/// decoder reads back what the encoder wrote.
pub proof fn lemma_repeated_call_hits<R, D, C, E>(
    entry: Vec<u8>,
    first_value: R,
    decode: D,
    compute: C,
    encode: E,
    second: Result<Answer<R>, EncodingError>,
) where
    D: FnOnce(&Vec<u8>) -> Result<R, DecodeError>,
    C: FnOnce() -> R,
    E: FnOnce(&R) -> Result<Vec<u8>, EncodingError>,

    requires
        forall|outcome: Result<R, DecodeError>| #[trigger]
            decode.ensures((&entry,), outcome) ==> outcome == Ok::<R, DecodeError>(first_value),
        may_end_with(Some(entry), decode, compute, encode, second),
    ensures
        second matches Ok(answer) && answer.value == first_value && answer.served
            == Served::FromCache,
{
    match second {
        Ok(answer) => {
            if answer.served != Served::FromCache {
                let error = choose|error: DecodeError| decode.ensures((&entry,), Err(error));
                assert(decode.ensures((&entry,), Err(error)));
            }
        },
        Err(_) => {
            let error = choose|error: DecodeError| decode.ensures((&entry,), Err(error));
            assert(decode.ensures((&entry,), Err(error)));
        },
    }
}

/// A call that finds no entry under its key computes: what it returns is a value of the
/// computation, never one from the cache. So it is with every call after the fingerprint
/// of the function has changed, as far as the store holds entries of the old fingerprint
/// only: no key of the new one is a key of the old.
pub proof fn lemma_absent_entry_computes<R, D, C, E>(
    decode: D,
    compute: C,
    encode: E,
    end: Result<Answer<R>, EncodingError>,
) where
    D: FnOnce(&Vec<u8>) -> Result<R, DecodeError>,
    C: FnOnce() -> R,
    E: FnOnce(&R) -> Result<Vec<u8>, EncodingError>,

    requires
        may_end_with(None, decode, compute, encode, end),
    ensures
        end matches Ok(answer) ==> answer.served != Served::FromCache && compute.ensures(
            (),
            answer.value,
        ),
        end matches Err(error) ==> error == EncodingError::Output,
{
}

/// Two calls with equal arguments agree: where the entry under their key decodes to one
/// value, and to nothing else, and the computation makes that value, and nothing else, a
/// call returns that value whether it finds the entry or not.
pub proof fn lemma_equal_calls_agree<R, D, C, E>(
    entry: Vec<u8>,
    value: R,
    found: Option<Vec<u8>>,
    decode: D,
    compute: C,
    encode: E,
    end: Result<Answer<R>, EncodingError>,
) where
    D: FnOnce(&Vec<u8>) -> Result<R, DecodeError>,
    C: FnOnce() -> R,
    E: FnOnce(&R) -> Result<Vec<u8>, EncodingError>,

    requires
        forall|outcome: Result<R, DecodeError>| #[trigger]
            decode.ensures((&entry,), outcome) ==> outcome == Ok::<R, DecodeError>(value),
        forall|made: R| #[trigger] compute.ensures((), made) ==> made == value,
        found is None || found == Some(entry),
        may_end_with(found, decode, compute, encode, end),
    ensures
        end matches Ok(answer) ==> answer.value == value,
{
}

/// No failure of the store reaches the caller: with an encoder that refuses no value, a
/// call ends with a value, whatever the store found and whatever it does with the write.
pub proof fn lemma_store_cannot_fail_a_call<R, D, C, E>(
    found: Option<Vec<u8>>,
    decode: D,
    compute: C,
    encode: E,
    end: Result<Answer<R>, EncodingError>,
) where
    D: FnOnce(&Vec<u8>) -> Result<R, DecodeError>,
    C: FnOnce() -> R,
    E: FnOnce(&R) -> Result<Vec<u8>, EncodingError>,

    requires
        forall|value: R, outcome: Result<Vec<u8>, EncodingError>| #[trigger]
            encode.ensures((&value,), outcome) ==> outcome is Ok,
        may_end_with(found, decode, compute, encode, end),
    ensures
        end is Ok,
{
    if end is Err {
        let (value, refusal) = choose|value: R, refusal: EncodingError|
            compute.ensures((), value) && encode.ensures((&value,), Err(refusal));
        assert(encode.ensures((&value,), Err::<Vec<u8>, EncodingError>(refusal)));
    }
}

/// Whatever the store found, the value of a call that succeeds is one that the decoder
/// read from an entry or one that the computation made: a store that fails, or that
/// holds bytes of another shape, costs a computation and never the result.
pub proof fn lemma_value_is_decoded_or_computed<R, D, C, E>(
    found: Option<Vec<u8>>,
    decode: D,
    compute: C,
    encode: E,
    answer: Answer<R>,
) where
    D: FnOnce(&Vec<u8>) -> Result<R, DecodeError>,
    C: FnOnce() -> R,
    E: FnOnce(&R) -> Result<Vec<u8>, EncodingError>,

    requires
        may_end_with(found, decode, compute, encode, Ok(answer)),
    ensures
        (exists|bytes: Vec<u8>| decode.ensures((&bytes,), Ok(answer.value))) || compute.ensures(
            (),
            answer.value,
        ),
{
    if answer.served == Served::FromCache {
        let bytes = found->Some_0;
        assert(decode.ensures((&bytes,), Ok(answer.value)));
    }
}

} // verus!
