use vstd::bytes::*;
use vstd::prelude::*;
use vstd::slice::*;

use crate::common::misc::return_flags::ReturnFlags;

verus! {

/// The reason for which `bincode` fails; it is only passed on.
#[verifier::external_type_specification]
#[verifier::external_body]
pub struct ExErrorKind(bincode::ErrorKind);

/// The bytes of each field of a payload, in order.
pub open spec fn fields_view(fields: Vec<Vec<u8>>) -> Seq<Seq<u8>> {
    Seq::new(fields@.len(), |i: int| fields@[i]@)
}

/// A field as it lies in a payload: its length as eight little-endian bytes,
/// then its bytes.
pub open spec fn spec_serialize_bytes(field: Seq<u8>) -> Seq<u8> {
    spec_u64_to_le_bytes(field.len() as u64) + field
}

/// A payload of fields: each field serialized, one after the other.
pub open spec fn spec_serialize_fields(fields: Seq<Seq<u8>>) -> Seq<u8>
    decreases fields.len(),
{
    if fields.len() == 0 {
        Seq::empty()
    } else {
        spec_serialize_bytes(fields[0]) + spec_serialize_fields(fields.subrange(1, fields.len() as int))
    }
}

/// The `count` fields that make up `data` exactly, if `data` is such a payload.
pub open spec fn spec_parse_fields(data: Seq<u8>, count: nat) -> Option<Seq<Seq<u8>>>
    decreases count,
{
    if count == 0 {
        if data.len() == 0 {
            Some(Seq::empty())
        } else {
            None
        }
    } else if data.len() < 8 {
        None
    } else {
        let len = spec_u64_from_le_bytes(data.subrange(0, 8)) as int;
        if data.len() - 8 < len {
            None
        } else {
            match spec_parse_fields(data.subrange(8 + len, data.len() as int), (count - 1) as nat) {
                Some(rest) => Some(seq![data.subrange(8, 8 + len)] + rest),
                None => None,
            }
        }
    }
}

/// Calls `bincode::serialize` on a vector of bytes. That function writes with
/// fixed-width little-endian numbers, without a limit on the size, into a
/// vector of its own; it is handed a sequence whose length is known. The
/// contract claims that on a vector of bytes it therefore does not fail, and
/// that it writes the length in eight bytes followed by the elements, one
/// byte each.
#[verifier::external_body]
fn serialize_bytes(field: &Vec<u8>) -> (r: Result<Vec<u8>, Box<bincode::ErrorKind>>)
    ensures
        r is Ok,
        r->Ok_0@ == spec_serialize_bytes(field@),
{
    bincode::serialize(field)
}

/// Adds a serialized field to a payload, or reports that there is none to add.
pub fn append_serialized(data: &mut Vec<u8>, serialized: Result<Vec<u8>, Box<bincode::ErrorKind>>) -> (r:
    Result<(), ReturnFlags>)
    ensures
        match serialized {
            Ok(bytes) => r is Ok && final(data)@ == old(data)@ + bytes@,
            Err(_) => r == Err::<(), ReturnFlags>(ReturnFlags::CommonMessageBuildFailed)
                && final(data)@ == old(data)@,
        },
{
    match serialized {
        Ok(mut bytes) => {
            data.append(&mut bytes);
            Ok(())
        },
        Err(_) => Err(ReturnFlags::CommonMessageBuildFailed),
    }
}

/// Serializes each field on its own and lays the results out in order.
///
/// A failure would be that of the serializer on a field; fields of bytes
/// always serialize, so the payload is always given.
pub fn serialize_fields(fields: &Vec<Vec<u8>>) -> (r: Result<Vec<u8>, ReturnFlags>)
    ensures
        r is Ok,
        r->Ok_0@ == spec_serialize_fields(fields_view(*fields)),
{
    let mut data: Vec<u8> = Vec::new();
    let mut i: usize = 0;
    while i < fields.len()
        invariant
            i <= fields.len(),
            data@ == spec_serialize_fields(fields_view(*fields).subrange(0, i as int)),
        decreases fields.len() - i,
    {
        let serialized = serialize_bytes(&fields[i]);
        match append_serialized(&mut data, serialized) {
            Ok(()) => {},
            Err(e) => {
                return Err(e);
            },
        }
        proof {
            let all = fields_view(*fields);
            lemma_serialize_fields_push(all.subrange(0, i as int), all[i as int]);
            assert(all.subrange(0, i as int).push(all[i as int]) == all.subrange(0, i + 1));
        }
        i += 1;
    }
    proof {
        let all = fields_view(*fields);
        assert(all.subrange(0, i as int) == all);
    }
    Ok(data)
}

/// Splits a payload into the `count` fields that make it up exactly.
///
/// Gives `None` when the payload ends inside a field, or holds more or fewer
/// than `count` fields.
pub fn parse_fields(data: &[u8], count: usize) -> (r: Option<Vec<Vec<u8>>>)
    ensures
        match spec_parse_fields(data@, count as nat) {
            Some(fields) => r is Some && fields_view(r->0) == fields,
            None => r is None,
        },
{
    let total: usize = data.len();
    let mut fields: Vec<Vec<u8>> = Vec::new();
    let mut at: usize = 0;
    let mut i: usize = 0;
    proof {
        assert(data@.subrange(0, total as int) == data@);
        let whole = spec_parse_fields(data@, count as nat);
        if whole is Some {
            assert(fields_view(fields) + whole->0 == whole->0);
        }
    }
    while i < count
        invariant
            i <= count,
            at <= total,
            total == data@.len(),
            spec_parse_fields(data@, count as nat) == match spec_parse_fields(
                data@.subrange(at as int, total as int),
                (count - i) as nat,
            ) {
                Some(rest) => Some(fields_view(fields) + rest),
                None => None,
            },
        decreases count - i,
    {
        let ghost tail = data@.subrange(at as int, total as int);
        if total - at < 8 {
            return None;
        }
        let len: u64 = u64_from_le_bytes(slice_subrange(data, at, at + 8));
        proof {
            assert(data@.subrange(at as int, at + 8) == tail.subrange(0, 8));
        }
        if ((total - at - 8) as u64) < len {
            return None;
        }
        let start: usize = at + 8;
        let end: usize = start + len as usize;
        let field = slice_to_vec(slice_subrange(data, start, end));
        proof {
            assert(data@.subrange(start as int, end as int) == tail.subrange(8, 8 + len));
            assert(data@.subrange(end as int, total as int) == tail.subrange(
                8 + len,
                tail.len() as int,
            ));
            let ghost before = fields_view(fields);
            assert forall|rest: Seq<Seq<u8>>|
                before + (seq![field@] + rest) == before.push(field@) + rest by {
                assert(before + (seq![field@] + rest) =~= before.push(field@) + rest);
            }
            assert(fields_view(fields).push(field@) =~= Seq::new(
                fields@.len() + 1,
                |j: int| fields@.push(field)[j]@,
            ));
        }
        fields.push(field);
        at = end;
        i += 1;
    }
    if at != total {
        return None;
    }
    proof {
        assert(data@.subrange(at as int, total as int).len() == 0);
        assert(fields_view(fields) + Seq::<Seq<u8>>::empty() == fields_view(fields));
    }
    Some(fields)
}

/// A payload that splits into fields splits into as many as were asked for.
pub proof fn lemma_parsed_count(data: Seq<u8>, count: nat)
    requires
        spec_parse_fields(data, count) is Some,
    ensures
        spec_parse_fields(data, count)->0.len() == count,
    decreases count,
{
    if count > 0 {
        let len = spec_u64_from_le_bytes(data.subrange(0, 8)) as int;
        lemma_parsed_count(data.subrange(8 + len, data.len() as int), (count - 1) as nat);
    }
}

/// Writing one more field after others puts its bytes after theirs.
pub proof fn lemma_serialize_fields_push(fields: Seq<Seq<u8>>, field: Seq<u8>)
    ensures
        spec_serialize_fields(fields.push(field)) == spec_serialize_fields(fields)
            + spec_serialize_bytes(field),
    decreases fields.len(),
{
    if fields.len() == 0 {
        reveal_with_fuel(spec_serialize_fields, 2);
        assert(fields.push(field).subrange(1, 1) == Seq::<Seq<u8>>::empty());
        assert(spec_serialize_fields(fields.push(field)) == spec_serialize_bytes(field)
            + Seq::<u8>::empty());
        assert(spec_serialize_bytes(field) + Seq::<u8>::empty() == Seq::<u8>::empty()
            + spec_serialize_bytes(field));
    } else {
        let tail = fields.subrange(1, fields.len() as int);
        lemma_serialize_fields_push(tail, field);
        assert(fields.push(field).subrange(1, fields.len() as int + 1) == tail.push(field));
        assert(spec_serialize_bytes(fields[0]) + (spec_serialize_fields(tail)
            + spec_serialize_bytes(field)) == (spec_serialize_bytes(fields[0])
            + spec_serialize_fields(tail)) + spec_serialize_bytes(field));
    }
}

/// A payload that was laid out from fields splits into those fields again.
pub proof fn lemma_parse_serialized_fields(fields: Seq<Seq<u8>>)
    requires
        forall|i: int| 0 <= i < fields.len() ==> (#[trigger] fields[i]).len() <= u64::MAX,
    ensures
        spec_parse_fields(spec_serialize_fields(fields), fields.len()) == Some(fields),
    decreases fields.len(),
{
    if fields.len() == 0 {
        assert(fields == Seq::<Seq<u8>>::empty());
    } else {
        lemma_auto_spec_u64_to_from_le_bytes();
        let head = fields[0];
        let tail = fields.subrange(1, fields.len() as int);
        let data = spec_serialize_fields(fields);
        let prefix = spec_u64_to_le_bytes(head.len() as u64);
        assert(data.subrange(0, 8) == prefix);
        assert(data.subrange(8, 8 + head.len() as int) == head);
        assert(data.subrange(8 + head.len() as int, data.len() as int) == spec_serialize_fields(
            tail,
        ));
        lemma_parse_serialized_fields(tail);
        assert(seq![head] + tail == fields);
    }
}

/// A payload that splits into fields is exactly those fields laid out: no
/// other bytes split into them.
pub proof fn lemma_serialize_parsed_fields(data: Seq<u8>, count: nat)
    requires
        spec_parse_fields(data, count) is Some,
    ensures
        spec_serialize_fields(spec_parse_fields(data, count)->0) == data,
    decreases count,
{
    if count == 0 {
        assert(data == Seq::<u8>::empty());
    } else {
        lemma_auto_spec_u64_to_from_le_bytes();
        let len = spec_u64_from_le_bytes(data.subrange(0, 8)) as int;
        let rest = data.subrange(8 + len, data.len() as int);
        lemma_serialize_parsed_fields(rest, (count - 1) as nat);
        let head = data.subrange(8, 8 + len);
        let tail = spec_parse_fields(rest, (count - 1) as nat)->0;
        let fields = seq![head] + tail;
        assert(fields.subrange(1, fields.len() as int) == tail);
        assert(spec_u64_to_le_bytes(head.len() as u64) == data.subrange(0, 8));
        assert(data.subrange(0, 8) + head + rest == data);
    }
}

} // verus!
