//! Laws of equality, copies, conversions and lookups.
use vstd::prelude::*;

use crate::object::debug::debug_text;
use crate::text::{dec_int, dec_nat, lemma_dec_int_writes, lemma_dec_nat_writes, writes_int};

use crate::object::{
    bool_object, first_match, first_match_from, float_bits_eq, float_object, invalid_object,
    is_nan_bits, key_is_bytes, lemma_first_match_found, lemma_first_match_in_range,
    lemma_first_match_none, nan_free, null_object, obj_eq, signed_object, unsigned_object, Keyed,
    StrKind, WafObject, WafObjectType,
};

verus! {

// ---------------------------------------------------------------------------
// Laws of equality and copies
// ---------------------------------------------------------------------------

proof fn lemma_obj_eq_flip(a: WafObject, b: WafObject)
    requires
        obj_eq(a, b),
    ensures
        obj_eq(b, a),
    decreases a,
{
    match (a, b) {
        (WafObject::Array(x), WafObject::Array(y)) => {
            assert forall|i: int| 0 <= i < y.items@.len() implies obj_eq(
                #[trigger] y.items@[i],
                x.items@[i],
            ) by {
                assert(obj_eq(x.items@[i], y.items@[i]));
                assert(decreases_to!(a => x.items@[i]));
                lemma_obj_eq_flip(x.items@[i], y.items@[i]);
            }
        },
        (WafObject::Mapping(x), WafObject::Mapping(y)) => {
            assert forall|i: int| 0 <= i < y.entries@.len() implies obj_eq(
                #[trigger] y.entries@[i].key,
                x.entries@[i].key,
            ) && obj_eq(y.entries@[i].value, x.entries@[i].value) by {
                assert(obj_eq(x.entries@[i].key, y.entries@[i].key));
                assert(decreases_to!(a => x.entries@[i].key));
                assert(decreases_to!(a => x.entries@[i].value));
                lemma_obj_eq_flip(x.entries@[i].key, y.entries@[i].key);
                lemma_obj_eq_flip(x.entries@[i].value, y.entries@[i].value);
            }
        },
        _ => {},
    }
}

/// Equality of objects is symmetric.
pub proof fn lemma_obj_eq_symmetric(a: WafObject, b: WafObject)
    ensures
        obj_eq(a, b) == obj_eq(b, a),
{
    if obj_eq(a, b) {
        lemma_obj_eq_flip(a, b);
    }
    if obj_eq(b, a) {
        lemma_obj_eq_flip(b, a);
    }
}

/// Equality of objects is transitive.
pub proof fn lemma_obj_eq_transitive(a: WafObject, b: WafObject, c: WafObject)
    requires
        obj_eq(a, b),
        obj_eq(b, c),
    ensures
        obj_eq(a, c),
    decreases a,
{
    match (a, b, c) {
        (WafObject::Array(x), WafObject::Array(y), WafObject::Array(z)) => {
            assert forall|i: int| 0 <= i < x.items@.len() implies obj_eq(
                #[trigger] x.items@[i],
                z.items@[i],
            ) by {
                assert(obj_eq(y.items@[i], z.items@[i]));
                assert(decreases_to!(a => x.items@[i]));
                lemma_obj_eq_transitive(x.items@[i], y.items@[i], z.items@[i]);
            }
        },
        (WafObject::Mapping(x), WafObject::Mapping(y), WafObject::Mapping(z)) => {
            assert forall|i: int| 0 <= i < x.entries@.len() implies obj_eq(
                #[trigger] x.entries@[i].key,
                z.entries@[i].key,
            ) && obj_eq(x.entries@[i].value, z.entries@[i].value) by {
                assert(obj_eq(y.entries@[i].key, z.entries@[i].key));
                assert(decreases_to!(a => x.entries@[i].key));
                assert(decreases_to!(a => x.entries@[i].value));
                lemma_obj_eq_transitive(x.entries@[i].key, y.entries@[i].key, z.entries@[i].key);
                lemma_obj_eq_transitive(
                    x.entries@[i].value,
                    y.entries@[i].value,
                    z.entries@[i].value,
                );
            }
        },
        _ => {},
    }
}

/// Every object without a NaN equals itself; a NaN equals nothing, itself included.
pub proof fn lemma_obj_eq_reflexive(o: WafObject)
    requires
        nan_free(o),
    ensures
        obj_eq(o, o),
    decreases o,
{
    match o {
        WafObject::Array(x) => {
            assert forall|i: int| 0 <= i < x.items@.len() implies obj_eq(
                #[trigger] x.items@[i],
                x.items@[i],
            ) by {
                assert(decreases_to!(o => x.items@[i]));
                assert(nan_free(x.spec_items()[i]));
                lemma_obj_eq_reflexive(x.items@[i]);
            }
        },
        WafObject::Mapping(x) => {
            assert forall|i: int| 0 <= i < x.entries@.len() implies obj_eq(
                #[trigger] x.entries@[i].key,
                x.entries@[i].key,
            ) && obj_eq(x.entries@[i].value, x.entries@[i].value) by {
                assert(decreases_to!(o => x.entries@[i].key));
                assert(decreases_to!(o => x.entries@[i].value));
                assert(nan_free(x.spec_entries()[i].spec_key()));
                lemma_obj_eq_reflexive(x.entries@[i].key);
                lemma_obj_eq_reflexive(x.entries@[i].value);
            }
        },
        _ => {},
    }
}

/// Objects of different types are never equal.
pub proof fn lemma_obj_eq_same_type(a: WafObject, b: WafObject)
    requires
        obj_eq(a, b),
    ensures
        a.spec_object_type() == b.spec_object_type(),
{
}

/// Two strings are equal exactly when their bytes are, however each is held.
pub proof fn lemma_string_eq_by_bytes(a: WafObject, b: WafObject)
    requires
        a.spec_string_bytes() is Some,
        b.spec_string_bytes() is Some,
    ensures
        obj_eq(a, b) == (a.spec_string_bytes() == b.spec_string_bytes()),
{
}

/// Any two invalid objects are equal.
pub proof fn lemma_invalid_eq(a: WafObject, b: WafObject)
    requires
        a.spec_object_type() == WafObjectType::Invalid,
        b.spec_object_type() == WafObjectType::Invalid,
    ensures
        obj_eq(a, b),
{
}



// ---------------------------------------------------------------------------
// Laws of conversions and lookups
// ---------------------------------------------------------------------------

/// What a scalar is built from, its reader gives back: an unsigned integer as
/// itself (and as a signed one exactly when it fits), a signed integer, a
/// boolean and the bits of a double as themselves; no reader accepts another
/// type.
pub proof fn lemma_scalar_roundtrips(u: u64, i: i64, b: bool, bits: u64)
    ensures
        unsigned_object(u).spec_to_u64() == Some(u),
        unsigned_object(u).spec_to_i64() == (if u <= i64::MAX as u64 {
            Some(u as i64)
        } else {
            None::<i64>
        }),
        signed_object(i).spec_to_i64() == Some(i),
        signed_object(i).spec_to_u64() is None,
        bool_object(b).spec_to_bool() == Some(b),
        float_object(bits).spec_to_float_bits() == Some(bits),
        float_object(bits).spec_to_u64() is None,
        null_object().spec_to_bool() is None,
        unsigned_object(u).spec_object_type() == WafObjectType::Unsigned,
        signed_object(i).spec_object_type() == WafObjectType::Signed,
        bool_object(b).spec_object_type() == WafObjectType::Bool,
        float_object(bits).spec_object_type() == WafObjectType::Float,
        null_object().spec_object_type() == WafObjectType::Null,
        invalid_object().spec_object_type() == WafObjectType::Invalid,
{
}

/// Appending an entry to a map does not change which entry a lookup finds
/// when the map already had a match; when it had none, the lookup finds the
/// appended entry exactly when that entry matches.
pub proof fn lemma_lookup_after_append(
    entries: Seq<Keyed<WafObject>>,
    e: Keyed<WafObject>,
    p: spec_fn(Keyed<WafObject>) -> bool,
)
    ensures
        first_match(entries, p) is Some ==> first_match(entries.push(e), p) == first_match(
            entries,
            p,
        ),
        first_match(entries, p) is None ==> first_match(entries.push(e), p) == (if p(e) {
            Some(entries.len() as int)
        } else {
            None::<int>
        }),
{
    lemma_first_match_in_range(entries, p, 0);
    lemma_first_match_in_range(entries.push(e), p, 0);
    let s = entries.push(e);
    match first_match(entries, p) {
        Some(i) => {
            lemma_first_match_before(entries, p, 0, i);
            assert forall|j: int| 0 <= j < i implies !p(s[j]) by {
                assert(s[j] == entries[j]);
            }
            assert(s[i] == entries[i]);
            lemma_first_match_found(s, p, i);
        },
        None => {
            lemma_first_match_none_all(entries, p, 0);
            if p(e) {
                assert forall|j: int| 0 <= j < entries.len() implies !p(s[j]) by {
                    assert(s[j] == entries[j]);
                }
                lemma_first_match_found(s, p, entries.len() as int);
            } else {
                assert forall|j: int| 0 <= j < s.len() implies !p(s[j]) by {
                    if j < entries.len() {
                        assert(s[j] == entries[j]);
                    }
                }
                lemma_first_match_none(s, p, 0);
            }
        },
    }
}

/// Nothing before the entry `first_match_from` finds satisfies the predicate.
proof fn lemma_first_match_before(
    entries: Seq<Keyed<WafObject>>,
    p: spec_fn(Keyed<WafObject>) -> bool,
    start: int,
    i: int,
)
    requires
        0 <= start,
        first_match_from(entries, p, start) == Some(i),
    ensures
        forall|j: int| start <= j < i ==> !p(entries[j]),
    decreases entries.len() - start,
{
    if start < entries.len() && !p(entries[start]) {
        lemma_first_match_before(entries, p, start + 1, i);
    }
}

/// When `first_match_from` finds nothing, nothing from `start` on satisfies the
/// predicate.
proof fn lemma_first_match_none_all(
    entries: Seq<Keyed<WafObject>>,
    p: spec_fn(Keyed<WafObject>) -> bool,
    start: int,
)
    requires
        0 <= start,
        first_match_from(entries, p, start) is None,
    ensures
        forall|j: int| start <= j < entries.len() ==> !p(entries[j]),
    decreases entries.len() - start,
{
    if start < entries.len() {
        lemma_first_match_none_all(entries, p, start + 1);
    }
}


/// After [`WafObject::insert_key`] appends an entry with a string key, a lookup
/// of that key finds the new entry unless an earlier entry already had the key,
/// in which case it still finds that earlier one.
pub proof fn lemma_lookup_after_insert_key(
    before: Seq<Keyed<WafObject>>,
    after: Seq<Keyed<WafObject>>,
    key: Seq<u8>,
    kind: StrKind,
)
    requires
        after.len() == before.len() + 1,
        after.subrange(0, before.len() as int) == before,
        after.last().spec_key().is_string_with(key, kind),
    ensures
        first_match(after, key_is_bytes(key)) == match first_match(before, key_is_bytes(key)) {
            Some(i) => Some(i),
            None => Some(before.len() as int),
        },
{
    assert(after =~= before.push(after.last()));
    lemma_lookup_after_append(before, after.last(), key_is_bytes(key));
}


/// Equality of scalars of one type: integers and booleans are equal exactly
/// when their values are, doubles when they are equal as IEEE-754 doubles, and
/// any two nulls are equal.
pub proof fn lemma_obj_eq_scalars(a: WafObject, b: WafObject)
    ensures
        a.spec_object_type() == WafObjectType::Unsigned && b.spec_object_type()
            == WafObjectType::Unsigned ==> (obj_eq(a, b) <==> a.spec_to_u64() == b.spec_to_u64()),
        a.spec_object_type() == WafObjectType::Signed && b.spec_object_type()
            == WafObjectType::Signed ==> (obj_eq(a, b) <==> a.spec_to_i64() == b.spec_to_i64()),
        a.spec_object_type() == WafObjectType::Bool && b.spec_object_type() == WafObjectType::Bool
            ==> (obj_eq(a, b) <==> a.spec_to_bool() == b.spec_to_bool()),
        a.spec_object_type() == WafObjectType::Float && b.spec_object_type()
            == WafObjectType::Float ==> (obj_eq(a, b) <==> float_bits_eq(
            a.spec_to_float_bits()->0,
            b.spec_to_float_bits()->0,
        )),
        a.spec_object_type() == WafObjectType::Null && b.spec_object_type() == WafObjectType::Null
            ==> obj_eq(a, b),
{
}

/// Equality of arrays and of maps: two arrays are equal exactly when they have
/// as many elements and the elements at each position are equal; two maps
/// exactly when they have as many entries and the keys and the values at each
/// position are equal. Capacities play no part.
pub proof fn lemma_obj_eq_containers(a: WafObject, b: WafObject)
    ensures
        a.spec_array_parts() matches Some((x, _)) ==> (b.spec_array_parts() matches Some((y, _))
            ==> (obj_eq(a, b) <==> x.len() == y.len() && forall|i: int|
            0 <= i < x.len() ==> obj_eq(#[trigger] x[i], y[i]))),
        a.spec_map_parts() matches Some((x, _)) ==> (b.spec_map_parts() matches Some((y, _)) ==> (
        obj_eq(a, b) <==> x.len() == y.len() && forall|i: int|
            0 <= i < x.len() ==> obj_eq(#[trigger] x[i].spec_key(), y[i].spec_key()) && obj_eq(
                x[i].spec_value(),
                y[i].spec_value(),
            ))),
{
    match (a, b) {
        (WafObject::Array(x), WafObject::Array(y)) => {
            if obj_eq(a, b) {
                assert forall|i: int| 0 <= i < x.items@.len() implies obj_eq(
                    #[trigger] x.items@[i],
                    y.items@[i],
                ) by {}
            }
        },
        (WafObject::Mapping(x), WafObject::Mapping(y)) => {
            if obj_eq(a, b) {
                assert forall|i: int| 0 <= i < x.entries@.len() implies obj_eq(
                    #[trigger] x.entries@[i].key,
                    y.entries@[i].key,
                ) && obj_eq(x.entries@[i].value, y.entries@[i].value) by {}
            }
            let xs = x.spec_entries();
            let ys = y.spec_entries();
            if xs.len() == ys.len() && forall|i: int|
                0 <= i < xs.len() ==> obj_eq(#[trigger] xs[i].spec_key(), ys[i].spec_key())
                    && obj_eq(xs[i].spec_value(), ys[i].spec_value()) {
                assert forall|i: int| 0 <= i < x.entries@.len() implies obj_eq(
                    #[trigger] x.entries@[i].key,
                    y.entries@[i].key,
                ) && obj_eq(x.entries@[i].value, y.entries@[i].value) by {
                    assert(obj_eq(xs[i].spec_key(), ys[i].spec_key()));
                }
                assert(obj_eq(a, b));
            }
        },
        _ => {},
    }
}


/// Equality of floats is equality of the doubles: two doubles that are neither
/// NaN nor zero are equal exactly when their bits are (so distinct finite
/// non-zero doubles are never equal), the two zeros are equal, and a NaN is
/// equal to nothing, itself included.
pub proof fn lemma_float_eq_is_ieee(a: u64, b: u64)
    ensures
        !(a & 0x7ff0_0000_0000_0000u64 == 0x7ff0_0000_0000_0000u64 && a & 0x000f_ffff_ffff_ffffu64
            != 0) && !(b & 0x7ff0_0000_0000_0000u64 == 0x7ff0_0000_0000_0000u64 && b
            & 0x000f_ffff_ffff_ffffu64 != 0) && a != 0 && a != 0x8000_0000_0000_0000u64 && b != 0
            && b != 0x8000_0000_0000_0000u64 ==> (obj_eq(float_object(a), float_object(b)) <==> a
            == b),
        obj_eq(float_object(0), float_object(0x8000_0000_0000_0000u64)),
        obj_eq(float_object(0x8000_0000_0000_0000u64), float_object(0)),
        a & 0x7ff0_0000_0000_0000u64 == 0x7ff0_0000_0000_0000u64 && a & 0x000f_ffff_ffff_ffffu64
            != 0 ==> !obj_eq(float_object(a), float_object(b)) && !obj_eq(
            float_object(b),
            float_object(a),
        ),
{
    assert(a != 0 && a != 0x8000_0000_0000_0000u64 ==> a & 0x7fff_ffff_ffff_ffffu64 != 0)
        by (bit_vector);
    assert(b != 0 && b != 0x8000_0000_0000_0000u64 ==> b & 0x7fff_ffff_ffff_ffffu64 != 0)
        by (bit_vector);
    assert(a & 0x7ff0_0000_0000_0000u64 == 0x7ff0_0000_0000_0000u64 ==> a
        & 0x7fff_ffff_ffff_ffffu64 != 0) by (bit_vector);
    assert(0u64 & 0x7fff_ffff_ffff_ffffu64 == 0) by (bit_vector);
    assert(0x8000_0000_0000_0000u64 & 0x7fff_ffff_ffff_ffffu64 == 0) by (bit_vector);
}

/// A signed integer renders as `WafSigned(`, the decimal writing of its value
/// (with a `-` exactly when it is negative), and `)`; an unsigned one as
/// `WafUnsigned(`, the decimal writing of its value, and `)`.
pub proof fn lemma_integer_debug_writes_value(v: i64, u: u64, ft: spec_fn(u64) -> Seq<char>)
    ensures
        debug_text(signed_object(v), ft) == "WafSigned("@ + dec_int(v as int) + ")"@,
        writes_int(dec_int(v as int), v as int),
        debug_text(unsigned_object(u), ft) == "WafUnsigned("@ + dec_nat(u as nat) + ")"@,
        writes_int(dec_nat(u as nat), u as int),
{
    lemma_dec_int_writes(v as int);
    lemma_dec_nat_writes(u as nat);
}

/// Only integers have a signed value: a signed integer always, as itself, and
/// an unsigned one exactly when it fits, as the same number.
pub proof fn lemma_to_i64_only_integers(o: WafObject)
    ensures
        o.spec_to_i64() is Some ==> o.spec_object_type() == WafObjectType::Signed
            || o.spec_object_type() == WafObjectType::Unsigned,
        o.spec_object_type() == WafObjectType::Signed ==> o.spec_to_i64() is Some,
        o.spec_object_type() == WafObjectType::Unsigned ==> (o.spec_to_i64() is Some <==> o.spec_to_u64()->0 <= i64::MAX as u64),
        o.spec_to_i64() is Some && o.spec_object_type() == WafObjectType::Unsigned ==> o.spec_to_i64()->0
            >= 0 && o.spec_to_u64() == Some(o.spec_to_i64()->0 as u64),
{
}

} // verus!
