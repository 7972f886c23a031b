//! Deep copies of objects.
use vstd::prelude::*;

use crate::object::{copy_bytes, nan_free, obj_eq, Keyed, WafArray, WafMap, WafObject, WafString};

verus! {

// ---------------------------------------------------------------------------
// Copies
// ---------------------------------------------------------------------------

/// `c` is a copy of `o`: of the same type and value, strings with the same
/// bytes held the same way, and arrays and maps whose elements are copies,
/// in order, allocated with a capacity equal to their length.
pub closed spec fn clone_of(c: WafObject, o: WafObject) -> bool
    decreases o,
{
    match (c, o) {
        (WafObject::String(x), WafObject::String(y)) => x.bytes@ == y.bytes@ && x.kind == y.kind,
        (WafObject::Invalid(_), WafObject::Invalid(_)) => true,
        (WafObject::Null(_), WafObject::Null(_)) => true,
        (WafObject::Signed(x), WafObject::Signed(y)) => x.val == y.val,
        (WafObject::Unsigned(x), WafObject::Unsigned(y)) => x.val == y.val,
        (WafObject::Bool(x), WafObject::Bool(y)) => x.val == y.val,
        (WafObject::Float(x), WafObject::Float(y)) => x.bits == y.bits,
        (WafObject::Array(x), WafObject::Array(y)) => {
            &&& x.items@.len() == y.items@.len()
            &&& x.capacity == y.items@.len()
            &&& forall|i: int|
                #![trigger y.items@[i]]
                0 <= i < y.items@.len() ==> clone_of(x.items@[i], y.items@[i])
        },
        (WafObject::Mapping(x), WafObject::Mapping(y)) => {
            &&& x.entries@.len() == y.entries@.len()
            &&& x.capacity == y.entries@.len()
            &&& forall|i: int|
                #![trigger y.entries@[i]]
                0 <= i < y.entries@.len() ==> {
                    &&& clone_of(x.entries@[i].key, y.entries@[i].key)
                    &&& clone_of(x.entries@[i].value, y.entries@[i].value)
                }
        },
        _ => false,
    }
}

/// Copies a string.
fn clone_string(s: &WafString) -> (r: WafString)
    ensures
        r.bytes@ == s.bytes@,
        r.kind == s.kind,
{
    proof {
        use_type_invariant(s);
    }
    WafString { kind: s.kind, bytes: copy_bytes(s.bytes.as_slice()) }
}

/// Copies an array.
#[verifier::loop_isolation(false)]
fn clone_array(a: &WafArray) -> (r: WafArray)
    ensures
        clone_of(WafObject::Array(r), WafObject::Array(*a)),
    decreases *a, 0nat,
{
    proof {
        use_type_invariant(a);
    }
    let mut items: Vec<WafObject> = Vec::new();
    let mut i: usize = 0;
    while i < a.items.len()
        invariant
            i <= a.items.len(),
            items@.len() == i,
            forall|j: int| 0 <= j < i ==> clone_of(#[trigger] items@[j], a.items@[j]),
        decreases a.items.len() - i,
    {
        assert(decreases_to!(*a => a.items@[i as int]));
        let c = clone_object(&a.items[i]);
        items.push(c);
        i += 1;
    }
    let n = a.items.len() as u16;
    WafArray { items, capacity: n }
}

/// Copies a map.
#[verifier::loop_isolation(false)]
fn clone_map(m: &WafMap) -> (r: WafMap)
    ensures
        clone_of(WafObject::Mapping(r), WafObject::Mapping(*m)),
    decreases *m, 0nat,
{
    proof {
        use_type_invariant(m);
    }
    let mut entries: Vec<Keyed<WafObject>> = Vec::new();
    let mut i: usize = 0;
    while i < m.entries.len()
        invariant
            i <= m.entries.len(),
            entries@.len() == i,
            forall|j: int|
                0 <= j < i ==> {
                    &&& clone_of(#[trigger] entries@[j].key, m.entries@[j].key)
                    &&& clone_of(entries@[j].value, m.entries@[j].value)
                },
        decreases m.entries.len() - i,
    {
        assert(decreases_to!(*m => m.entries@[i as int].key));
        assert(decreases_to!(*m => m.entries@[i as int].value));
        let k = clone_object(&m.entries[i].key);
        let v = clone_object(&m.entries[i].value);
        entries.push(Keyed { key: k, value: v });
        i += 1;
    }
    let n = m.entries.len() as u16;
    WafMap { entries, capacity: n }
}

/// Copies an object.
fn clone_object(o: &WafObject) -> (r: WafObject)
    ensures
        clone_of(r, *o),
    decreases *o, 1nat,
{
    match o {
        WafObject::Invalid(x) => WafObject::Invalid(*x),
        WafObject::Signed(x) => WafObject::Signed(*x),
        WafObject::Unsigned(x) => WafObject::Unsigned(*x),
        WafObject::Bool(x) => WafObject::Bool(*x),
        WafObject::Float(x) => WafObject::Float(*x),
        WafObject::Null(x) => WafObject::Null(*x),
        WafObject::String(x) => WafObject::String(clone_string(x)),
        WafObject::Array(x) => WafObject::Array(clone_array(x)),
        WafObject::Mapping(x) => WafObject::Mapping(clone_map(x)),
    }
}

impl Clone for WafObject {
    /// A deep copy of the object.
    fn clone(&self) -> (r: Self)
        ensures
            clone_of(r, *self),
    {
        clone_object(self)
    }
}

impl Clone for WafString {
    /// A copy of the string, held the same way.
    fn clone(&self) -> (r: Self)
        ensures
            r.spec_bytes() == self.spec_bytes(),
            r.spec_kind() == self.spec_kind(),
    {
        clone_string(self)
    }
}

impl Clone for WafArray {
    /// A deep copy of the array, with a capacity equal to its length.
    fn clone(&self) -> (r: Self)
        ensures
            clone_of(WafObject::Array(r), WafObject::Array(*self)),
    {
        clone_array(self)
    }
}

impl Clone for WafMap {
    /// A deep copy of the map, with a capacity equal to its length.
    fn clone(&self) -> (r: Self)
        ensures
            clone_of(WafObject::Mapping(r), WafObject::Mapping(*self)),
    {
        clone_map(self)
    }
}

impl<T: Clone> Clone for Keyed<T> {
    /// A copy of the key and a clone of the value.
    fn clone(&self) -> (r: Self)
        ensures
            clone_of(r.spec_key(), self.spec_key()),
            cloned(self.spec_value(), r.spec_value()),
    {
        Keyed { key: clone_object(&self.key), value: self.value.clone() }
    }
}

/// A copy has the type of the object it copies and, when that object holds no NaN,
/// equals it.
pub proof fn lemma_clone_eq(c: WafObject, o: WafObject)
    requires
        clone_of(c, o),
    ensures
        c.spec_object_type() == o.spec_object_type(),
        nan_free(o) ==> obj_eq(c, o),
    decreases o,
{
    match (c, o) {
        (WafObject::Array(x), WafObject::Array(y)) => {
            assert forall|i: int| 0 <= i < x.items@.len() && nan_free(o) implies obj_eq(
                #[trigger] x.items@[i],
                y.items@[i],
            ) by {
                assert(clone_of(x.items@[i], y.items@[i]));
                assert(decreases_to!(o => y.items@[i]));
                assert(nan_free(y.spec_items()[i]));
                lemma_clone_eq(x.items@[i], y.items@[i]);
            }
        },
        (WafObject::Mapping(x), WafObject::Mapping(y)) => {
            assert forall|i: int| 0 <= i < x.entries@.len() && nan_free(o) implies obj_eq(
                #[trigger] x.entries@[i].key,
                y.entries@[i].key,
            ) && obj_eq(x.entries@[i].value, y.entries@[i].value) by {
                assert(clone_of(x.entries@[i].key, y.entries@[i].key));
                assert(decreases_to!(o => y.entries@[i].key));
                assert(decreases_to!(o => y.entries@[i].value));
                lemma_clone_eq(x.entries@[i].key, y.entries@[i].key);
                lemma_clone_eq(x.entries@[i].value, y.entries@[i].value);
            }
        },
        (WafObject::Float(x), WafObject::Float(y)) => {},
        _ => {},
    }
}


/// What a copy holds: the same type and scalar value, a string with the same
/// bytes held the same way, and arrays and maps as long as the object they
/// copy, with a capacity equal to that length and copies of its elements (keys
/// and values) in order.
pub proof fn lemma_clone_shape(c: WafObject, o: WafObject)
    requires
        clone_of(c, o),
    ensures
        c.spec_object_type() == o.spec_object_type(),
        c.spec_to_u64() == o.spec_to_u64(),
        c.spec_to_i64() == o.spec_to_i64(),
        c.spec_to_bool() == o.spec_to_bool(),
        c.spec_to_float_bits() == o.spec_to_float_bits(),
        c.spec_string_bytes() == o.spec_string_bytes(),
        o matches WafObject::String(y) ==> c.is_string_with(y.spec_bytes(), y.spec_kind()),
        o.spec_array_parts() matches Some((oi, _)) ==> (c.spec_array_parts() matches Some((ci, cc))
            && ci.len() == oi.len() && cc == oi.len() && forall|i: int|
            0 <= i < oi.len() ==> clone_of(ci[i], #[trigger] oi[i])),
        o.spec_map_parts() matches Some((oe, _)) ==> (c.spec_map_parts() matches Some((ce, cc))
            && ce.len() == oe.len() && cc == oe.len() && forall|i: int|
            0 <= i < oe.len() ==> clone_of(ce[i].spec_key(), #[trigger] oe[i].spec_key())
                && clone_of(ce[i].spec_value(), oe[i].spec_value())),
{
    match (c, o) {
        (WafObject::Array(x), WafObject::Array(y)) => {
            assert forall|i: int| 0 <= i < y.spec_items().len() implies clone_of(
                x.spec_items()[i],
                #[trigger] y.spec_items()[i],
            ) by {
                assert(clone_of(x.items@[i], y.items@[i]));
            }
        },
        (WafObject::Mapping(x), WafObject::Mapping(y)) => {
            assert forall|i: int| 0 <= i < y.spec_entries().len() implies clone_of(
                x.spec_entries()[i].spec_key(),
                #[trigger] y.spec_entries()[i].spec_key(),
            ) && clone_of(x.spec_entries()[i].spec_value(), y.spec_entries()[i].spec_value()) by {
                assert(clone_of(x.entries@[i].key, y.entries@[i].key));
            }
        },
        _ => {},
    }
}

} // verus!
