//! The stream identifier codec: every frame body starts with the identifier of
//! its stream, sixteen bytes, most significant first; the payload follows.

use crate::error::NxError;
use vstd::prelude::*;

verus! {

/// Number of bytes that a stream identifier takes at the head of a frame body.
pub const ID_LEN: usize = 16;

/// The number of values that `len` bytes can tell apart.
pub open spec fn be_bound(len: nat) -> nat
    decreases len,
{
    if len == 0 {
        1
    } else {
        256 * be_bound((len - 1) as nat)
    }
}

/// The `len` low-order base-256 digits of `value`, most significant first.
pub open spec fn be_bytes(value: nat, len: nat) -> Seq<u8>
    decreases len,
{
    if len == 0 {
        Seq::empty()
    } else {
        be_bytes(value / 256, (len - 1) as nat).push((value % 256) as u8)
    }
}

/// The number that `bytes` spell in base 256, most significant first.
pub open spec fn be_value(bytes: Seq<u8>) -> nat
    decreases bytes.len(),
{
    if bytes.len() == 0 {
        0
    } else {
        be_value(bytes.drop_last()) * 256 + bytes.last() as nat
    }
}

/// The sixteen bytes that stand for `id` on the wire.
pub open spec fn spec_id_bytes(id: u128) -> Seq<u8> {
    be_bytes(id as nat, 16)
}

/// A frame body: the identifier, then the payload.
pub open spec fn spec_append_id(id: u128, message: Seq<u8>) -> Seq<u8> {
    spec_id_bytes(id) + message
}

/// The identifier and payload of a frame body, where it is long enough to
/// hold an identifier.
pub open spec fn spec_shift_id(message: Seq<u8>) -> Option<(u128, Seq<u8>)> {
    if message.len() < 16 {
        None
    } else {
        Some(
            (
                be_value(message.subrange(0, 16)) as u128,
                message.subrange(16, message.len() as int),
            ),
        )
    }
}

pub proof fn lemma_be_bytes_len(value: nat, len: nat)
    ensures
        be_bytes(value, len).len() == len,
    decreases len,
{
    if len > 0 {
        lemma_be_bytes_len(value / 256, (len - 1) as nat);
    }
}

pub proof fn lemma_be_bound_monotonic(a: nat, b: nat)
    requires
        a <= b,
    ensures
        0 < be_bound(a) <= be_bound(b),
    decreases b,
{
    if a < b {
        lemma_be_bound_monotonic(a, (b - 1) as nat);
    } else if a > 0 {
        lemma_be_bound_monotonic((a - 1) as nat, (a - 1) as nat);
    }
}

pub proof fn lemma_be_bound_16()
    ensures
        be_bound(16) == 0x1_0000_0000_0000_0000_0000_0000_0000_0000,
{
    reveal_with_fuel(be_bound, 17);
}

/// What bytes spell stays below the bound of their length.
pub proof fn lemma_be_value_bound(bytes: Seq<u8>)
    ensures
        be_value(bytes) < be_bound(bytes.len()),
    decreases bytes.len(),
{
    if bytes.len() > 0 {
        lemma_be_value_bound(bytes.drop_last());
    }
}

/// Spelling a number and reading it back gives the number, as far as the
/// length can hold it.
pub proof fn lemma_be_value_of_bytes(value: nat, len: nat)
    requires
        value < be_bound(len),
    ensures
        be_value(be_bytes(value, len)) == value,
    decreases len,
{
    if len > 0 {
        let head = be_bytes(value / 256, (len - 1) as nat);
        lemma_be_value_of_bytes(value / 256, (len - 1) as nat);
        assert(be_bytes(value, len).drop_last() =~= head);
    }
}

/// Reading bytes and spelling the number again gives the bytes.
pub proof fn lemma_be_bytes_of_value(bytes: Seq<u8>)
    ensures
        be_bytes(be_value(bytes), bytes.len()) == bytes,
    decreases bytes.len(),
{
    if bytes.len() > 0 {
        let head = bytes.drop_last();
        lemma_be_bytes_of_value(head);
        assert(be_value(bytes) / 256 == be_value(head));
        assert(be_value(bytes) % 256 == bytes.last() as nat);
        assert(be_bytes(be_value(bytes), bytes.len()) =~= bytes);
    }
}

/// A tagged frame body starts with the sixteen bytes that spell the
/// identifier, most significant first, and goes on with the payload, byte
/// for byte.
pub proof fn lemma_append_id_layout(id: u128, payload: Seq<u8>)
    ensures
        spec_append_id(id, payload).len() == 16 + payload.len(),
        spec_append_id(id, payload).subrange(0, 16) == spec_id_bytes(id),
        spec_append_id(id, payload).subrange(16, 16 + payload.len() as int) == payload,
        be_value(spec_id_bytes(id)) == id as nat,
{
    lemma_be_bytes_len(id as nat, 16);
    lemma_be_bound_16();
    lemma_be_value_of_bytes(id as nat, 16);
    let body = spec_append_id(id, payload);
    assert(body.subrange(0, 16) =~= spec_id_bytes(id));
    assert(body.subrange(16, 16 + payload.len() as int) =~= payload);
}

/// Untagging what was tagged gives back the identifier and the payload.
pub proof fn lemma_shift_append(id: u128, payload: Seq<u8>)
    ensures
        spec_shift_id(spec_append_id(id, payload)) == Some((id, payload)),
{
    lemma_append_id_layout(id, payload);
}

/// Tagging what was untagged gives back the frame body: no byte of a body
/// of sixteen bytes or more is lost or changed.
pub proof fn lemma_append_shift(body: Seq<u8>)
    requires
        body.len() >= 16,
    ensures
        spec_shift_id(body) is Some,
        spec_append_id(spec_shift_id(body)->Some_0.0, spec_shift_id(body)->Some_0.1) == body,
{
    let head = body.subrange(0, 16);
    lemma_be_value_bound(head);
    lemma_be_bound_16();
    lemma_be_bytes_of_value(head);
    assert(head + body.subrange(16, body.len() as int) =~= body);
}

/// Two frame bodies are equal only if they carry the same identifier and the
/// same payload.
pub proof fn lemma_append_id_injective(id1: u128, payload1: Seq<u8>, id2: u128, payload2: Seq<u8>)
    requires
        spec_append_id(id1, payload1) == spec_append_id(id2, payload2),
    ensures
        id1 == id2,
        payload1 == payload2,
{
    lemma_shift_append(id1, payload1);
    lemma_shift_append(id2, payload2);
}

/// Writes `id` as sixteen bytes, most significant first.
fn id_bytes(id: u128) -> (bytes: Vec<u8>)
    ensures
        bytes@ == spec_id_bytes(id),
{
    let mut bytes: Vec<u8> = vec![0u8; 16];
    let mut rest: u128 = id;
    let mut i: usize = 16;
    while i > 0
        invariant
            i <= 16,
            bytes@.len() == 16,
            spec_id_bytes(id) == be_bytes(rest as nat, i as nat) + bytes@.subrange(i as int, 16),
        decreases i,
    {
        i = i - 1;
        bytes.set(i, (rest % 256) as u8);
        rest = rest / 256;
    }
    bytes
}

/// Puts the identifier of a stream in front of a payload.
pub fn append_id(id: u128, message: Vec<u8>) -> (tagged: Vec<u8>)
    ensures
        tagged@ == spec_append_id(id, message@),
{
    let mut message = message;
    let mut tagged = id_bytes(id);
    tagged.append(&mut message);
    tagged
}

/// Reads the identifier that the first sixteen bytes of `message` spell.
fn leading_id(message: &Vec<u8>) -> (id: u128)
    requires
        message@.len() >= 16,
    ensures
        id as nat == be_value(message@.subrange(0, 16)),
{
    let mut id: u128 = 0;
    let mut i: usize = 0;
    while i < 16
        invariant
            i <= 16,
            message@.len() >= 16,
            id as nat == be_value(message@.subrange(0, i as int)),
        decreases 16 - i,
    {
        proof {
            let grown = message@.subrange(0, i + 1);
            assert(grown.drop_last() =~= message@.subrange(0, i as int));
            lemma_be_value_bound(grown);
            lemma_be_bound_monotonic((i + 1) as nat, 16);
            lemma_be_bound_16();
        }
        id = id * 256 + message[i] as u128;
        i = i + 1;
    }
    id
}

/// Takes the identifier of a stream off the front of a frame body. A body of
/// fewer than sixteen bytes holds no identifier and is refused.
pub fn shift_id(message: Vec<u8>) -> (r: Result<(u128, Vec<u8>), NxError>)
    ensures
        match spec_shift_id(message@) {
            None => r is Err && r->Err_0 is IdFormatInvalid,
            Some((id, payload)) => r is Ok && r->Ok_0.0 == id && r->Ok_0.1@ == payload,
        },
{
    if message.len() < ID_LEN {
        return Err(NxError::IdFormatInvalid);
    }
    let mut message = message;
    let id = leading_id(&message);
    let payload = message.split_off(ID_LEN);
    Ok((id, payload))
}

} // verus!
