//! Cache keys: the arguments of one call and the fingerprint of the function, in one
//! canonical byte string.
//!
//! A key is the number of arguments, then for each argument its name and its encoded value,
//! each behind its length, then the 32 bytes of the fingerprint. Every number is a `u64`,
//! lowest byte first. Nothing but the contents goes into a key, and two keys are the same
//! only where arguments and fingerprint are.

use crate::codec::EncodingError;
use vstd::bytes::spec_u64_to_le_bytes;
use vstd::bytes::u64_to_le_bytes;
use vstd::prelude::*;
use vstd::string::StringSliceAdditionalSpecFns;
use vstd::utf8::encode_utf8;

verus! {

/// One argument of a call: the name of its parameter, and its value as the codec encoded it.
#[derive(Debug, PartialEq, Eq)]
pub struct Argument {
    /// The name of the parameter.
    pub name: String,
    /// The canonical bytes of the value, or the reason why it has none.
    pub value: Result<Vec<u8>, EncodingError>,
}

/// What of an argument goes into a key: the bytes of its name and those of its value.
pub struct Slot {
    pub name: Seq<u8>,
    pub value: Seq<u8>,
}

impl Argument {
    /// True if the value came with bytes.
    pub open spec fn is_encoded(self) -> bool {
        self.value is Ok
    }

    /// The slot of an argument whose value came with bytes.
    pub open spec fn slot(self) -> Slot {
        Slot { name: encode_utf8(self.name@), value: self.value->Ok_0@ }
    }

    /// An argument under `name` with an encoded value, or with the reason why there is none.
    pub fn new(name: &str, value: Result<Vec<u8>, EncodingError>) -> (argument: Argument)
        ensures
            argument.name@ == name@,
            argument.value == value,
    {
        Argument { name: name.to_owned(), value }
    }
}

/// True if every argument came with bytes.
pub open spec fn all_encoded(arguments: Seq<Argument>) -> bool {
    forall|i: int| 0 <= i < arguments.len() ==> (#[trigger] arguments[i]).is_encoded()
}

/// The slots of the arguments, in their order.
pub open spec fn slots_of(arguments: Seq<Argument>) -> Seq<Slot> {
    Seq::new(arguments.len(), |i: int| arguments[i].slot())
}

/// A byte string behind its length.
pub open spec fn frame(bytes: Seq<u8>) -> Seq<u8> {
    spec_u64_to_le_bytes(bytes.len() as u64) + bytes
}

/// The frames of the slots, one slot after the other: name, then value.
pub open spec fn frames(slots: Seq<Slot>) -> Seq<u8>
    decreases slots.len(),
{
    if slots.len() == 0 {
        Seq::empty()
    } else {
        frame(slots[0].name) + frame(slots[0].value) + frames(slots.drop_first())
    }
}

/// The key of a call with these slots to the function with this fingerprint.
pub open spec fn key_bytes(slots: Seq<Slot>, fingerprint: Seq<u8>) -> Seq<u8> {
    spec_u64_to_le_bytes(slots.len() as u64) + frames(slots) + fingerprint
}

/// True if the numbers of a key hold what they stand for: the count of the slots and the
/// length of every name and value fit in a `u64`.
pub open spec fn fits(slots: Seq<Slot>) -> bool {
    &&& slots.len() <= u64::MAX
    &&& forall|i: int|
        0 <= i < slots.len() ==> (#[trigger] slots[i]).name.len() <= u64::MAX
            && slots[i].value.len() <= u64::MAX
}

/// Two framed strings that start two equal byte strings are equal, and so is what follows.
proof fn lemma_frame_prefix(a: Seq<u8>, rest_a: Seq<u8>, b: Seq<u8>, rest_b: Seq<u8>)
    requires
        a.len() <= u64::MAX,
        b.len() <= u64::MAX,
        frame(a) + rest_a == frame(b) + rest_b,
    ensures
        a == b,
        rest_a == rest_b,
{
    vstd::bytes::lemma_auto_spec_u64_to_from_le_bytes();
    let left = frame(a) + rest_a;
    let right = frame(b) + rest_b;
    let la = spec_u64_to_le_bytes(a.len() as u64);
    let lb = spec_u64_to_le_bytes(b.len() as u64);
    assert(left.subrange(0, 8) == la);
    assert(right.subrange(0, 8) == lb);
    assert(a.len() as u64 == b.len() as u64);
    assert(left.subrange(8, 8 + a.len() as int) == a);
    assert(right.subrange(8, 8 + b.len() as int) == b);
    assert(left.subrange(8 + a.len() as int, left.len() as int) == rest_a);
    assert(right.subrange(8 + b.len() as int, right.len() as int) == rest_b);
}

/// The frames of slots with one more slot at the end.
proof fn lemma_frames_push(slots: Seq<Slot>, last: Slot)
    ensures
        frames(slots.push(last)) == frames(slots) + frame(last.name) + frame(last.value),
    decreases slots.len(),
{
    if slots.len() == 0 {
        assert(slots.push(last).drop_first() == Seq::<Slot>::empty());
        assert(frames(slots.push(last)) == frame(last.name) + frame(last.value) + frames(
            Seq::<Slot>::empty(),
        ));
    } else {
        assert(slots.push(last).drop_first() == slots.drop_first().push(last));
        lemma_frames_push(slots.drop_first(), last);
        assert(slots.push(last)[0] == slots[0]);
    }
}

/// As many slots as give the same frames, followed by equal bytes or not, are the same slots.
proof fn lemma_frames_injective(a: Seq<Slot>, rest_a: Seq<u8>, b: Seq<Slot>, rest_b: Seq<u8>)
    requires
        fits(a),
        fits(b),
        a.len() == b.len(),
        frames(a) + rest_a == frames(b) + rest_b,
    ensures
        a == b,
        rest_a == rest_b,
    decreases a.len(),
{
    if a.len() == 0 {
        assert(a == b);
        assert(frames(a) + rest_a == rest_a);
        assert(frames(b) + rest_b == rest_b);
    } else {
        let tail_a = frames(a.drop_first()) + rest_a;
        let tail_b = frames(b.drop_first()) + rest_b;
        assert(frames(a) + rest_a == frame(a[0].name) + (frame(a[0].value) + tail_a));
        assert(frames(b) + rest_b == frame(b[0].name) + (frame(b[0].value) + tail_b));
        lemma_frame_prefix(
            a[0].name,
            frame(a[0].value) + tail_a,
            b[0].name,
            frame(b[0].value) + tail_b,
        );
        lemma_frame_prefix(a[0].value, tail_a, b[0].value, tail_b);
        assert(fits(a.drop_first())) by {
            assert forall|i: int| 0 <= i < a.drop_first().len() implies (
            #[trigger] a.drop_first()[i]).name.len() <= u64::MAX && a.drop_first()[i].value.len()
                <= u64::MAX by {
                assert(a.drop_first()[i] == a[i + 1]);
            }
        }
        assert(fits(b.drop_first())) by {
            assert forall|i: int| 0 <= i < b.drop_first().len() implies (
            #[trigger] b.drop_first()[i]).name.len() <= u64::MAX && b.drop_first()[i].value.len()
                <= u64::MAX by {
                assert(b.drop_first()[i] == b[i + 1]);
            }
        }
        lemma_frames_injective(a.drop_first(), rest_a, b.drop_first(), rest_b);
        assert(a[0] == b[0]);
        assert(a == b) by {
            assert forall|i: int| 0 <= i < a.len() implies a[i] == b[i] by {
                if i > 0 {
                    assert(a.drop_first()[i - 1] == a[i]);
                    assert(b.drop_first()[i - 1] == b[i]);
                }
            }
        }
    }
}

/// The same arguments under the same fingerprint have the same key: nothing else goes
/// into a key.
pub proof fn lemma_key_deterministic(
    first: Seq<Argument>,
    second: Seq<Argument>,
    fingerprint: Seq<u8>,
)
    requires
        first.len() == second.len(),
        forall|i: int|
            0 <= i < first.len() ==> (#[trigger] first[i]).name@ == second[i].name@
                && first[i].value is Ok && second[i].value is Ok && first[i].value->Ok_0@
                == second[i].value->Ok_0@,
    ensures
        key_bytes(slots_of(first), fingerprint) == key_bytes(slots_of(second), fingerprint),
{
    assert(slots_of(first) == slots_of(second)) by {
        assert forall|i: int| 0 <= i < first.len() implies slots_of(first)[i] == slots_of(
            second,
        )[i] by {
            assert(first[i].name@ == second[i].name@);
            assert(first[i].slot().value == second[i].slot().value);
        }
    }
}

/// Two keys are equal only where the slots and the fingerprints are: no two calls that
/// differ in a name, in a value or in the function share a key.
pub proof fn lemma_key_injective(
    first: Seq<Slot>,
    first_fingerprint: Seq<u8>,
    second: Seq<Slot>,
    second_fingerprint: Seq<u8>,
)
    requires
        fits(first),
        fits(second),
        first_fingerprint.len() == second_fingerprint.len(),
        key_bytes(first, first_fingerprint) == key_bytes(second, second_fingerprint),
    ensures
        first == second,
        first_fingerprint == second_fingerprint,
{
    vstd::bytes::lemma_auto_spec_u64_to_from_le_bytes();
    let left = key_bytes(first, first_fingerprint);
    let right = key_bytes(second, second_fingerprint);
    let count_a = spec_u64_to_le_bytes(first.len() as u64);
    let count_b = spec_u64_to_le_bytes(second.len() as u64);
    assert(left.subrange(0, 8) == count_a);
    assert(right.subrange(0, 8) == count_b);
    assert(first.len() as u64 == second.len() as u64);
    assert(left.subrange(8, left.len() as int) == frames(first) + first_fingerprint);
    assert(right.subrange(8, right.len() as int) == frames(second) + second_fingerprint);
    lemma_frames_injective(first, first_fingerprint, second, second_fingerprint);
}

/// A change of fingerprint changes every key: what was stored for one implementation of a
/// function is out of reach of every call to another.
pub proof fn lemma_fingerprint_scopes_keys(
    first: Seq<Slot>,
    first_fingerprint: Seq<u8>,
    second: Seq<Slot>,
    second_fingerprint: Seq<u8>,
)
    requires
        first_fingerprint.len() == second_fingerprint.len(),
        first_fingerprint != second_fingerprint,
    ensures
        key_bytes(first, first_fingerprint) != key_bytes(second, second_fingerprint),
{
    let left = key_bytes(first, first_fingerprint);
    let right = key_bytes(second, second_fingerprint);
    if left == right {
        let n = first_fingerprint.len() as int;
        assert(left.subrange(left.len() - n, left.len() as int) == first_fingerprint);
        assert(right.subrange(right.len() - n, right.len() as int) == second_fingerprint);
    }
}

/// After a change of fingerprint every lookup misses: a store that holds entries of the old
/// fingerprint only holds none under a key of the new one, whatever the arguments.
pub proof fn lemma_new_fingerprint_finds_nothing(
    entries: Map<Seq<u8>, Seq<u8>>,
    old_fingerprint: Seq<u8>,
    new_fingerprint: Seq<u8>,
    slots: Seq<Slot>,
)
    requires
        old_fingerprint.len() == new_fingerprint.len(),
        old_fingerprint != new_fingerprint,
        forall|key: Seq<u8>| #[trigger]
            entries.contains_key(key) ==> exists|stored: Seq<Slot>|
                key == key_bytes(stored, old_fingerprint),
    ensures
        !entries.contains_key(key_bytes(slots, new_fingerprint)),
{
    let key = key_bytes(slots, new_fingerprint);
    if entries.contains_key(key) {
        let stored = choose|stored: Seq<Slot>| key == key_bytes(stored, old_fingerprint);
        lemma_fingerprint_scopes_keys(stored, old_fingerprint, slots, new_fingerprint);
    }
}

/// Adds `bytes` to the end of `out`.
fn append(out: &mut Vec<u8>, bytes: &[u8])
    ensures
        final(out)@ == old(out)@ + bytes@,
{
    let mut i: usize = 0;
    while i < bytes.len()
        invariant
            i <= bytes@.len(),
            out@ == old(out)@ + bytes@.take(i as int),
        decreases bytes@.len() - i,
    {
        out.push(bytes[i]);
        assert(bytes@.take(i + 1) == bytes@.take(i as int).push(bytes@[i as int]));
        i += 1;
    }
    assert(bytes@.take(i as int) == bytes@);
}

/// Adds the frame of `bytes` to the end of `out`.
fn append_frame(out: &mut Vec<u8>, bytes: &[u8])
    ensures
        final(out)@ == old(out)@ + frame(bytes@),
{
    let length = u64_to_le_bytes(bytes.len() as u64);
    append(out, length.as_slice());
    append(out, bytes);
    assert(out@ == old(out)@ + frame(bytes@));
}

/// The key of a call: `Ok` with the key bytes if every argument came with bytes, else the
/// first slot that came without.
pub fn encode_key(arguments: &Vec<Argument>, fingerprint: &[u8; 32]) -> (key: Result<
    Vec<u8>,
    EncodingError,
>)
    ensures
        key is Ok <==> all_encoded(arguments@),
        key matches Ok(bytes) ==> bytes@ == key_bytes(slots_of(arguments@), fingerprint@),
        key matches Err(error) ==> exists|i: int|
            {
                &&& 0 <= i < arguments.len()
                &&& error == EncodingError::Argument(i as usize)
                &&& !(#[trigger] arguments[i]).is_encoded()
                &&& all_encoded(arguments@.take(i))
            },
{
    let mut out: Vec<u8> = Vec::new();
    let count = u64_to_le_bytes(arguments.len() as u64);
    append(&mut out, count.as_slice());
    let ghost head = out@;
    let mut i: usize = 0;
    while i < arguments.len()
        invariant
            i <= arguments.len(),
            all_encoded(arguments@.take(i as int)),
            head == spec_u64_to_le_bytes(arguments.len() as u64),
            out@ == head + frames(slots_of(arguments@.take(i as int))),
        decreases arguments.len() - i,
    {
        let argument = &arguments[i];
        match &argument.value {
            Ok(value) => {
                proof {
                    let before = arguments@.take(i as int);
                    let now = arguments@.take(i + 1);
                    assert(now == before.push(arguments@[i as int]));
                    assert(slots_of(now) == slots_of(before).push(arguments@[i as int].slot()));
                    lemma_frames_push(slots_of(before), arguments@[i as int].slot());
                    assert(all_encoded(now)) by {
                        assert forall|j: int| 0 <= j < now.len() implies (
                        #[trigger] now[j]).is_encoded() by {
                            if j < i {
                                assert(before[j] == now[j]);
                            }
                        }
                    }
                }
                append_frame(&mut out, argument.name.as_str().as_bytes());
                append_frame(&mut out, value.as_slice());
            },
            Err(_) => {
                assert(!arguments[i as int].is_encoded());
                return Err(EncodingError::Argument(i));
            },
        }
        i += 1;
    }
    assert(arguments@.take(i as int) == arguments@);
    append(&mut out, fingerprint.as_slice());
    Ok(out)
}

} // verus!
