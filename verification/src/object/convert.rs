//! Default values of the objects, and conversions between plain values,
//! typed objects and [`WafObject`].
use vstd::prelude::*;

use vstd::string::StringSliceAdditionalSpecFns;
use crate::object::{
    bool_object, invalid_object, null_object, signed_object, spec_kind_for_len, unsigned_object,
    AsRawMutObject, Keyed, ObjectTypeError, StrKind, TypedWafObject, WafArray, WafBool, WafFloat,
    WafInvalid, WafMap, WafNull, WafObject, WafObjectType, WafSigned, WafString, WafUnsigned,
    SMALL_STRING_SIZE,
};

verus! {

// ---------------------------------------------------------------------------
// Default values
// ---------------------------------------------------------------------------

impl Default for WafObject {
    /// The invalid object.
    fn default() -> (r: Self)
        ensures
            r == invalid_object(),
    {
        WafObject::Invalid(WafInvalid {  })
    }
}

impl Default for WafInvalid {
    fn default() -> (r: Self) {
        WafInvalid {  }
    }
}

impl Default for WafSigned {
    /// Zero.
    fn default() -> (r: Self)
        ensures
            r.spec_value() == 0,
    {
        WafSigned { val: 0 }
    }
}

impl Default for WafUnsigned {
    /// Zero.
    fn default() -> (r: Self)
        ensures
            r.spec_value() == 0,
    {
        WafUnsigned { val: 0 }
    }
}

impl Default for WafBool {
    /// False.
    fn default() -> (r: Self)
        ensures
            !r.spec_value(),
    {
        WafBool { val: false }
    }
}

impl Default for WafFloat {
    /// Positive zero.
    fn default() -> (r: Self)
        ensures
            r.spec_bits() == 0,
    {
        WafFloat { bits: 0 }
    }
}

impl Default for WafNull {
    fn default() -> (r: Self) {
        WafNull {  }
    }
}

impl Default for WafString {
    /// The empty string, in an (empty) heap buffer.
    fn default() -> (r: Self)
        ensures
            r.spec_bytes() == Seq::<u8>::empty(),
            r.spec_kind() == StrKind::Heap,
    {
        WafString { kind: StrKind::Heap, bytes: Vec::new() }
    }
}

impl Default for WafArray {
    /// The empty array, with no capacity.
    fn default() -> (r: Self)
        ensures
            r.spec_items() == Seq::<WafObject>::empty(),
            r.spec_capacity() == 0,
    {
        WafArray { items: Vec::new(), capacity: 0 }
    }
}

impl Default for WafMap {
    /// The empty map, with no capacity.
    fn default() -> (r: Self)
        ensures
            r.spec_entries() == Seq::<Keyed<WafObject>>::empty(),
            r.spec_capacity() == 0,
    {
        WafMap { entries: Vec::new(), capacity: 0 }
    }
}

impl<T: Default> Default for Keyed<T> {
    /// An invalid key with the default value of `T`.
    fn default() -> (r: Self)
        ensures
            r.spec_key() == invalid_object(),
            call_ensures(T::default, (), r.spec_value()),
    {
        Keyed { key: WafObject::Invalid(WafInvalid {  }), value: T::default() }
    }
}


// ---------------------------------------------------------------------------
// Conversions
// ---------------------------------------------------------------------------

/// The first [`u32::MAX`] bytes of `b` (all of them if there are no more).
pub open spec fn truncated_u32(b: Seq<u8>) -> Seq<u8> {
    if b.len() <= u32::MAX {
        b
    } else {
        b.subrange(0, u32::MAX as int)
    }
}

/// The length, capped at [`u16::MAX`], with which an array or map is built from
/// `len` items.
pub open spec fn capped_u16(len: nat) -> nat {
    if len <= u16::MAX {
        len
    } else {
        u16::MAX as nat
    }
}

/// Copies the first `n` bytes of a slice.
fn copy_prefix(val: &[u8], n: usize) -> (r: Vec<u8>)
    requires
        n <= val@.len(),
    ensures
        r@ == val@.subrange(0, n as int),
{
    let mut out: Vec<u8> = Vec::new();
    let mut i: usize = 0;
    while i < n
        invariant
            i <= n <= val@.len(),
            out@ == val@.subrange(0, i as int),
        decreases n - i,
    {
        out.push(val[i]);
        i += 1;
    }
    out
}

/// Builds a string of the first [`u32::MAX`] bytes of `val`, held as
/// [`WafString::new`] holds it.
fn string_from_bytes(val: &[u8]) -> (r: WafString)
    ensures
        r.spec_bytes() == truncated_u32(val@),
        r.spec_kind() == spec_kind_for_len(truncated_u32(val@).len()),
{
    let n: usize = if val.len() > u32::MAX as usize {
        u32::MAX as usize
    } else {
        val.len()
    };
    let bytes = copy_prefix(val, n);
    assert(bytes@ =~= truncated_u32(val@));
    let kind = if n <= SMALL_STRING_SIZE {
        StrKind::Small
    } else {
        StrKind::Heap
    };
    WafString { kind, bytes }
}

impl WafSigned {
    /// The signed integer holding `v`.
    pub closed spec fn spec_of(v: i64) -> WafSigned {
        WafSigned { val: v }
    }
}

impl WafUnsigned {
    /// The unsigned integer holding `v`.
    pub closed spec fn spec_of(v: u64) -> WafUnsigned {
        WafUnsigned { val: v }
    }
}

impl WafBool {
    /// The boolean holding `v`.
    pub closed spec fn spec_of(v: bool) -> WafBool {
        WafBool { val: v }
    }
}

impl From<i64> for WafSigned {
    fn from(value: i64) -> (r: Self) {
        WafSigned { val: value }
    }
}

impl vstd::std_specs::convert::FromSpecImpl<i64> for WafSigned {
    open spec fn obeys_from_spec() -> bool {
        true
    }

    open spec fn from_spec(v: i64) -> WafSigned {
        WafSigned::spec_of(v)
    }
}

impl From<i32> for WafSigned {
    fn from(value: i32) -> (r: Self) {
        WafSigned { val: value as i64 }
    }
}

impl vstd::std_specs::convert::FromSpecImpl<i32> for WafSigned {
    open spec fn obeys_from_spec() -> bool {
        true
    }

    open spec fn from_spec(v: i32) -> WafSigned {
        WafSigned::spec_of(v as i64)
    }
}

impl From<u64> for WafUnsigned {
    fn from(value: u64) -> (r: Self) {
        WafUnsigned { val: value }
    }
}

impl vstd::std_specs::convert::FromSpecImpl<u64> for WafUnsigned {
    open spec fn obeys_from_spec() -> bool {
        true
    }

    open spec fn from_spec(v: u64) -> WafUnsigned {
        WafUnsigned::spec_of(v)
    }
}

impl From<u32> for WafUnsigned {
    fn from(value: u32) -> (r: Self) {
        WafUnsigned { val: value as u64 }
    }
}

impl vstd::std_specs::convert::FromSpecImpl<u32> for WafUnsigned {
    open spec fn obeys_from_spec() -> bool {
        true
    }

    open spec fn from_spec(v: u32) -> WafUnsigned {
        WafUnsigned::spec_of(v as u64)
    }
}

impl From<bool> for WafBool {
    fn from(value: bool) -> (r: Self) {
        WafBool { val: value }
    }
}

impl vstd::std_specs::convert::FromSpecImpl<bool> for WafBool {
    open spec fn obeys_from_spec() -> bool {
        true
    }

    open spec fn from_spec(v: bool) -> WafBool {
        WafBool::spec_of(v)
    }
}

impl From<()> for WafNull {
    fn from(value: ()) -> (r: Self) {
        WafNull {  }
    }
}

impl vstd::std_specs::convert::FromSpecImpl<()> for WafNull {
    open spec fn obeys_from_spec() -> bool {
        true
    }

    open spec fn from_spec(v: ()) -> WafNull {
        WafNull {  }
    }
}

impl From<&[u8]> for WafString {
    /// A string of the first [`u32::MAX`] bytes of `value`, inline when they are
    /// at most [`SMALL_STRING_SIZE`] bytes, in a heap buffer otherwise.
    fn from(value: &[u8]) -> (r: Self)
        ensures
            r.spec_bytes() == truncated_u32(value@),
            r.spec_kind() == spec_kind_for_len(truncated_u32(value@).len()),
    {
        string_from_bytes(value)
    }
}

impl vstd::std_specs::convert::FromSpecImpl<&[u8]> for WafString {
    /// Two strings with the same bytes may differ in their buffers, so the
    /// result is stated by `from` itself rather than as one value.
    open spec fn obeys_from_spec() -> bool {
        false
    }

    open spec fn from_spec(v: &[u8]) -> WafString {
        choose|s: WafString| s.spec_bytes() == truncated_u32(v@)
    }
}

impl From<&str> for WafString {
    /// A string of the first [`u32::MAX`] bytes of `value`, inline when they are
    /// at most [`SMALL_STRING_SIZE`] bytes, in a heap buffer otherwise.
    fn from(value: &str) -> (r: Self)
        ensures
            r.spec_bytes() == truncated_u32(value.spec_bytes()),
            r.spec_kind() == spec_kind_for_len(truncated_u32(value.spec_bytes()).len()),
    {
        string_from_bytes(value.as_bytes())
    }
}

impl vstd::std_specs::convert::FromSpecImpl<&str> for WafString {
    /// Two strings with the same bytes may differ in their buffers, so the
    /// result is stated by `from` itself rather than as one value.
    open spec fn obeys_from_spec() -> bool {
        false
    }

    open spec fn from_spec(v: &str) -> WafString {
        choose|s: WafString| s.spec_bytes() == truncated_u32(v.spec_bytes())
    }
}

impl From<u64> for WafObject {
    fn from(value: u64) -> (r: Self)
        ensures
            r.spec_to_u64() == Some(value),
            r.spec_to_i64() == if value <= i64::MAX as u64 {
                Some(value as i64)
            } else {
                None::<i64>
            },
            r.spec_object_type() == WafObjectType::Unsigned,
    {
        WafObject::Unsigned(WafUnsigned { val: value })
    }
}

impl vstd::std_specs::convert::FromSpecImpl<u64> for WafObject {
    open spec fn obeys_from_spec() -> bool {
        true
    }

    open spec fn from_spec(v: u64) -> WafObject {
        unsigned_object(v)
    }
}

impl From<u32> for WafObject {
    fn from(value: u32) -> (r: Self)
        ensures
            r.spec_to_u64() == Some(value as u64),
            r.spec_to_i64() == Some(value as i64),
            r.spec_object_type() == WafObjectType::Unsigned,
    {
        WafObject::Unsigned(WafUnsigned { val: value as u64 })
    }
}

impl vstd::std_specs::convert::FromSpecImpl<u32> for WafObject {
    open spec fn obeys_from_spec() -> bool {
        true
    }

    open spec fn from_spec(v: u32) -> WafObject {
        unsigned_object(v as u64)
    }
}

impl From<i64> for WafObject {
    fn from(value: i64) -> (r: Self)
        ensures
            r.spec_to_i64() == Some(value),
            r.spec_object_type() == WafObjectType::Signed,
    {
        WafObject::Signed(WafSigned { val: value })
    }
}

impl vstd::std_specs::convert::FromSpecImpl<i64> for WafObject {
    open spec fn obeys_from_spec() -> bool {
        true
    }

    open spec fn from_spec(v: i64) -> WafObject {
        signed_object(v)
    }
}

impl From<i32> for WafObject {
    fn from(value: i32) -> (r: Self)
        ensures
            r.spec_to_i64() == Some(value as i64),
            r.spec_object_type() == WafObjectType::Signed,
    {
        WafObject::Signed(WafSigned { val: value as i64 })
    }
}

impl vstd::std_specs::convert::FromSpecImpl<i32> for WafObject {
    open spec fn obeys_from_spec() -> bool {
        true
    }

    open spec fn from_spec(v: i32) -> WafObject {
        signed_object(v as i64)
    }
}

impl From<bool> for WafObject {
    fn from(value: bool) -> (r: Self)
        ensures
            r.spec_to_bool() == Some(value),
            r.spec_object_type() == WafObjectType::Bool,
    {
        WafObject::Bool(WafBool { val: value })
    }
}

impl vstd::std_specs::convert::FromSpecImpl<bool> for WafObject {
    open spec fn obeys_from_spec() -> bool {
        true
    }

    open spec fn from_spec(v: bool) -> WafObject {
        bool_object(v)
    }
}

impl From<()> for WafObject {
    fn from(value: ()) -> (r: Self)
        ensures
            r.spec_object_type() == WafObjectType::Null,
    {
        WafObject::Null(WafNull {  })
    }
}

impl vstd::std_specs::convert::FromSpecImpl<()> for WafObject {
    open spec fn obeys_from_spec() -> bool {
        true
    }

    open spec fn from_spec(v: ()) -> WafObject {
        null_object()
    }
}

impl From<&[u8]> for WafObject {
    /// A string object of the first [`u32::MAX`] bytes of `value`.
    fn from(value: &[u8]) -> (r: Self)
        ensures
            r.is_string_with(
                truncated_u32(value@),
                spec_kind_for_len(truncated_u32(value@).len()),
            ),
    {
        WafObject::String(string_from_bytes(value))
    }
}

impl vstd::std_specs::convert::FromSpecImpl<&[u8]> for WafObject {
    /// Two strings with the same bytes may differ in their buffers, so the
    /// result is stated by `from` itself rather than as one value.
    open spec fn obeys_from_spec() -> bool {
        false
    }

    open spec fn from_spec(v: &[u8]) -> WafObject {
        choose|o: WafObject| o.spec_string_bytes() == Some(truncated_u32(v@))
    }
}

impl From<&str> for WafObject {
    /// A string object of the first [`u32::MAX`] bytes of `value`.
    fn from(value: &str) -> (r: Self)
        ensures
            r.is_string_with(
                truncated_u32(value.spec_bytes()),
                spec_kind_for_len(truncated_u32(value.spec_bytes()).len()),
            ),
    {
        WafObject::String(string_from_bytes(value.as_bytes()))
    }
}

impl vstd::std_specs::convert::FromSpecImpl<&str> for WafObject {
    /// Two strings with the same bytes may differ in their buffers, so the
    /// result is stated by `from` itself rather than as one value.
    open spec fn obeys_from_spec() -> bool {
        false
    }

    open spec fn from_spec(v: &str) -> WafObject {
        choose|o: WafObject| o.spec_string_bytes() == Some(truncated_u32(v.spec_bytes()))
    }
}

impl<T: TypedWafObject> From<T> for WafObject {
    fn from(value: T) -> (r: Self) {
        value.into_object()
    }
}

impl<T: TypedWafObject> vstd::std_specs::convert::FromSpecImpl<T> for WafObject {
    open spec fn obeys_from_spec() -> bool {
        true
    }

    open spec fn from_spec(v: T) -> WafObject {
        v.object_view()
    }
}

/// What converting `obj` to a `T` gives: the value it holds if it is of type
/// `T`, else an error naming both types.
pub open spec fn spec_try_from_object<T: TypedWafObject>(obj: WafObject) -> Result<T, ObjectTypeError> {
    match T::spec_from_object(obj) {
        Some(t) => Ok(t),
        None => Err(ObjectTypeError { expected: T::spec_type(), actual: obj.spec_object_type() }),
    }
}

/// Converts `obj` to a `T`, or fails naming both types.
fn try_from_object<T: TypedWafObject>(obj: WafObject) -> (r: Result<T, ObjectTypeError>)
    ensures
        r == spec_try_from_object::<T>(obj),
{
    let actual = obj.object_type();
    match T::from_object(obj) {
        Some(t) => Ok(t),
        None => Err(ObjectTypeError { expected: T::type_of(), actual }),
    }
}

impl TryFrom<WafObject> for WafInvalid {
    type Error = ObjectTypeError;

    fn try_from(obj: WafObject) -> (r: Result<WafInvalid, ObjectTypeError>) {
        try_from_object(obj)
    }
}

impl vstd::std_specs::convert::TryFromSpecImpl<WafObject> for WafInvalid {
    open spec fn obeys_try_from_spec() -> bool {
        true
    }

    open spec fn try_from_spec(obj: WafObject) -> Result<WafInvalid, ObjectTypeError> {
        spec_try_from_object(obj)
    }
}

impl TryFrom<WafObject> for WafSigned {
    type Error = ObjectTypeError;

    fn try_from(obj: WafObject) -> (r: Result<WafSigned, ObjectTypeError>) {
        try_from_object(obj)
    }
}

impl vstd::std_specs::convert::TryFromSpecImpl<WafObject> for WafSigned {
    open spec fn obeys_try_from_spec() -> bool {
        true
    }

    open spec fn try_from_spec(obj: WafObject) -> Result<WafSigned, ObjectTypeError> {
        spec_try_from_object(obj)
    }
}

impl TryFrom<WafObject> for WafUnsigned {
    type Error = ObjectTypeError;

    fn try_from(obj: WafObject) -> (r: Result<WafUnsigned, ObjectTypeError>) {
        try_from_object(obj)
    }
}

impl vstd::std_specs::convert::TryFromSpecImpl<WafObject> for WafUnsigned {
    open spec fn obeys_try_from_spec() -> bool {
        true
    }

    open spec fn try_from_spec(obj: WafObject) -> Result<WafUnsigned, ObjectTypeError> {
        spec_try_from_object(obj)
    }
}

impl TryFrom<WafObject> for WafString {
    type Error = ObjectTypeError;

    fn try_from(obj: WafObject) -> (r: Result<WafString, ObjectTypeError>) {
        try_from_object(obj)
    }
}

impl vstd::std_specs::convert::TryFromSpecImpl<WafObject> for WafString {
    open spec fn obeys_try_from_spec() -> bool {
        true
    }

    open spec fn try_from_spec(obj: WafObject) -> Result<WafString, ObjectTypeError> {
        spec_try_from_object(obj)
    }
}

impl TryFrom<WafObject> for WafArray {
    type Error = ObjectTypeError;

    fn try_from(obj: WafObject) -> (r: Result<WafArray, ObjectTypeError>) {
        try_from_object(obj)
    }
}

impl vstd::std_specs::convert::TryFromSpecImpl<WafObject> for WafArray {
    open spec fn obeys_try_from_spec() -> bool {
        true
    }

    open spec fn try_from_spec(obj: WafObject) -> Result<WafArray, ObjectTypeError> {
        spec_try_from_object(obj)
    }
}

impl TryFrom<WafObject> for WafMap {
    type Error = ObjectTypeError;

    fn try_from(obj: WafObject) -> (r: Result<WafMap, ObjectTypeError>) {
        try_from_object(obj)
    }
}

impl vstd::std_specs::convert::TryFromSpecImpl<WafObject> for WafMap {
    open spec fn obeys_try_from_spec() -> bool {
        true
    }

    open spec fn try_from_spec(obj: WafObject) -> Result<WafMap, ObjectTypeError> {
        spec_try_from_object(obj)
    }
}

impl TryFrom<WafObject> for WafBool {
    type Error = ObjectTypeError;

    fn try_from(obj: WafObject) -> (r: Result<WafBool, ObjectTypeError>) {
        try_from_object(obj)
    }
}

impl vstd::std_specs::convert::TryFromSpecImpl<WafObject> for WafBool {
    open spec fn obeys_try_from_spec() -> bool {
        true
    }

    open spec fn try_from_spec(obj: WafObject) -> Result<WafBool, ObjectTypeError> {
        spec_try_from_object(obj)
    }
}

impl TryFrom<WafObject> for WafFloat {
    type Error = ObjectTypeError;

    fn try_from(obj: WafObject) -> (r: Result<WafFloat, ObjectTypeError>) {
        try_from_object(obj)
    }
}

impl vstd::std_specs::convert::TryFromSpecImpl<WafObject> for WafFloat {
    open spec fn obeys_try_from_spec() -> bool {
        true
    }

    open spec fn try_from_spec(obj: WafObject) -> Result<WafFloat, ObjectTypeError> {
        spec_try_from_object(obj)
    }
}

impl TryFrom<WafObject> for WafNull {
    type Error = ObjectTypeError;

    fn try_from(obj: WafObject) -> (r: Result<WafNull, ObjectTypeError>) {
        try_from_object(obj)
    }
}

impl vstd::std_specs::convert::TryFromSpecImpl<WafObject> for WafNull {
    open spec fn obeys_try_from_spec() -> bool {
        true
    }

    open spec fn try_from_spec(obj: WafObject) -> Result<WafNull, ObjectTypeError> {
        spec_try_from_object(obj)
    }
}


/// The entry with key `k` and value `v`.
pub closed spec fn keyed_of<T>(k: WafObject, v: T) -> Keyed<T> {
    Keyed { key: k, value: v }
}

impl From<(WafObject, WafObject)> for Keyed<WafObject> {
    fn from(value: (WafObject, WafObject)) -> (r: Self) {
        Keyed { key: value.0, value: value.1 }
    }
}

impl vstd::std_specs::convert::FromSpecImpl<(WafObject, WafObject)> for Keyed<WafObject> {
    open spec fn obeys_from_spec() -> bool {
        true
    }

    open spec fn from_spec(v: (WafObject, WafObject)) -> Keyed<WafObject> {
        keyed_of(v.0, v.1)
    }
}

impl<T: TypedWafObject> From<(WafObject, T)> for Keyed<T> {
    fn from(value: (WafObject, T)) -> (r: Self) {
        Keyed { key: value.0, value: value.1 }
    }
}

impl<T: TypedWafObject> vstd::std_specs::convert::FromSpecImpl<(WafObject, T)> for Keyed<T> {
    open spec fn obeys_from_spec() -> bool {
        true
    }

    open spec fn from_spec(v: (WafObject, T)) -> Keyed<T> {
        keyed_of(v.0, v.1)
    }
}

impl<T: TypedWafObject> From<Keyed<T>> for Keyed<WafObject> {
    /// The same entry, its value seen as a [`WafObject`].
    fn from(value: Keyed<T>) -> (r: Self) {
        Keyed { key: value.key, value: value.value.into_object() }
    }
}

impl<T: TypedWafObject> vstd::std_specs::convert::FromSpecImpl<Keyed<T>> for Keyed<WafObject> {
    open spec fn obeys_from_spec() -> bool {
        true
    }

    open spec fn from_spec(v: Keyed<T>) -> Keyed<WafObject> {
        keyed_of(v.spec_key(), v.spec_value().object_view())
    }
}

impl<U: AsRawMutObject> From<(&[u8], U)> for Keyed<U> {
    /// The entry whose key is a string of the first [`u32::MAX`] bytes of the
    /// first element, and whose value is the second.
    fn from(value: (&[u8], U)) -> (r: Self)
        ensures
            r.spec_key().is_string_with(
                truncated_u32(value.0@),
                spec_kind_for_len(truncated_u32(value.0@).len()),
            ),
            r.spec_value() == value.1,
    {
        Keyed { key: WafObject::String(string_from_bytes(value.0)), value: value.1 }
    }
}

impl<U: AsRawMutObject> vstd::std_specs::convert::FromSpecImpl<(&[u8], U)> for Keyed<U> {
    /// Two strings with the same bytes may differ in their buffers, so the
    /// result is stated by `from` itself rather than as one value.
    open spec fn obeys_from_spec() -> bool {
        false
    }

    open spec fn from_spec(v: (&[u8], U)) -> Keyed<U> {
        choose|e: Keyed<U>| e.spec_value() == v.1
    }
}

impl<U: AsRawMutObject> From<(&str, U)> for Keyed<U> {
    /// The entry whose key is a string of the first [`u32::MAX`] bytes of the
    /// first element, and whose value is the second.
    fn from(value: (&str, U)) -> (r: Self)
        ensures
            r.spec_key().is_string_with(
                truncated_u32(value.0.spec_bytes()),
                spec_kind_for_len(truncated_u32(value.0.spec_bytes()).len()),
            ),
            r.spec_value() == value.1,
    {
        Keyed { key: WafObject::String(string_from_bytes(value.0.as_bytes())), value: value.1 }
    }
}

impl<U: AsRawMutObject> vstd::std_specs::convert::FromSpecImpl<(&str, U)> for Keyed<U> {
    /// Two strings with the same bytes may differ in their buffers, so the
    /// result is stated by `from` itself rather than as one value.
    open spec fn obeys_from_spec() -> bool {
        false
    }

    open spec fn from_spec(v: (&str, U)) -> Keyed<U> {
        choose|e: Keyed<U>| e.spec_value() == v.1
    }
}

/// Replaces the element at `i` of a slice with `v`, returning the old element
/// (`std::mem::replace` on `&mut s[i]`).
#[verifier::external_body]
fn replace_at<T>(s: &mut [T], i: usize, v: T) -> (r: T)
    requires
        i < old(s)@.len(),
    ensures
        r == old(s)@[i as int],
        final(s)@ == old(s)@.update(i as int, v),
{
    std::mem::replace(&mut s[i], v)
}

/// The elements of `s` after its first `n` were taken out and replaced by
/// `filler`.
pub open spec fn taken_prefix<T>(s: Seq<T>, n: int, filler: T) -> Seq<T> {
    Seq::new(n as nat, |i: int| filler) + s.skip(n)
}

impl From<&mut [WafObject]> for WafArray {
    /// Moves the first [`u16::MAX`] elements of `value` (all of them if there are
    /// no more) into a new array of that length and capacity, leaving invalid
    /// objects in their place.
    fn from(value: &mut [WafObject]) -> (r: Self)
        ensures
            r.spec_items() == old(value)@.take(capped_u16(old(value)@.len()) as int),
            r.spec_capacity() == capped_u16(old(value)@.len()),
            final(value)@ == taken_prefix(
                old(value)@,
                capped_u16(old(value)@.len()) as int,
                invalid_object(),
            ),
    {
        let n: usize = if value.len() > 65535 {
            65535
        } else {
            value.len()
        };
        let ghost orig = value@;
        let mut items: Vec<WafObject> = Vec::new();
        let mut i: usize = 0;
        while i < n
            invariant
                i <= n,
                n == capped_u16(orig.len()),
                items@ == orig.take(i as int),
                value@ == taken_prefix(orig, i as int, invalid_object()),
            decreases n - i,
        {
            let obj = replace_at(value, i, WafObject::Invalid(WafInvalid {  }));
            items.push(obj);
            i += 1;
            assert(items@ =~= orig.take(i as int));
            assert(value@ =~= taken_prefix(orig, i as int, invalid_object()));
        }
        WafArray { items, capacity: n as u16 }
    }
}

impl vstd::std_specs::convert::FromSpecImpl<&mut [WafObject]> for WafArray {
    /// Moving out of the slice changes it too, so the result is stated by
    /// `from` itself.
    open spec fn obeys_from_spec() -> bool {
        false
    }

    open spec fn from_spec(v: &mut [WafObject]) -> WafArray {
        choose|a: WafArray| a.spec_items() == v@.take(capped_u16(v@.len()) as int)
    }
}

impl From<&mut [(WafObject, WafObject)]> for WafMap {
    /// Moves the first [`u16::MAX`] pairs of `value` (all of them if there are no
    /// more) into a new map of that length and capacity, each pair as an entry's
    /// key and value, leaving pairs of invalid objects in their place.
    fn from(value: &mut [(WafObject, WafObject)]) -> (r: Self)
        ensures
            r.spec_entries().len() == capped_u16(old(value)@.len()),
            forall|i: int|
                0 <= i < r.spec_entries().len() ==> #[trigger] r.spec_entries()[i] == keyed_of(
                    old(value)@[i].0,
                    old(value)@[i].1,
                ),
            r.spec_capacity() == capped_u16(old(value)@.len()),
            final(value)@ == taken_prefix(
                old(value)@,
                capped_u16(old(value)@.len()) as int,
                (invalid_object(), invalid_object()),
            ),
    {
        let n: usize = if value.len() > 65535 {
            65535
        } else {
            value.len()
        };
        let ghost orig = value@;
        let mut entries: Vec<Keyed<WafObject>> = Vec::new();
        let mut i: usize = 0;
        while i < n
            invariant
                i <= n,
                n == capped_u16(orig.len()),
                entries@.len() == i,
                forall|j: int|
                    0 <= j < i ==> #[trigger] entries@[j] == keyed_of(orig[j].0, orig[j].1),
                value@ == taken_prefix(orig, i as int, (invalid_object(), invalid_object())),
            decreases n - i,
        {
            let pair = replace_at(
                value,
                i,
                (WafObject::Invalid(WafInvalid {  }), WafObject::Invalid(WafInvalid {  })),
            );
            entries.push(Keyed { key: pair.0, value: pair.1 });
            i += 1;
            assert(value@ =~= taken_prefix(orig, i as int, (invalid_object(), invalid_object())));
        }
        WafMap { entries, capacity: n as u16 }
    }
}

impl vstd::std_specs::convert::FromSpecImpl<&mut [(WafObject, WafObject)]> for WafMap {
    /// Moving out of the slice changes it too, so the result is stated by
    /// `from` itself.
    open spec fn obeys_from_spec() -> bool {
        false
    }

    open spec fn from_spec(v: &mut [(WafObject, WafObject)]) -> WafMap {
        choose|m: WafMap| m.spec_entries().len() == capped_u16(v@.len())
    }
}


/// Calls `<Vec<T> as From<[T; N]>>::from`, which moves the elements of the
/// array, in order, into a new vector.
#[verifier::external_body]
fn vec_from_array<T, const N: usize>(a: [T; N]) -> (r: Vec<T>)
    ensures
        r@ == a@,
{
    Vec::from(a)
}

/// The elements of `v` in reverse order.
fn reversed<T>(v: Vec<T>) -> (r: Vec<T>)
    ensures
        r@.len() == v@.len(),
        forall|j: int| 0 <= j < v@.len() ==> #[trigger] r@[j] == v@[v@.len() - 1 - j],
{
    let ghost src = v@;
    let mut v = v;
    let mut r: Vec<T> = Vec::new();
    while v.len() > 0
        invariant
            v@ == src.subrange(0, v@.len() as int),
            r@.len() + v@.len() == src.len(),
            forall|j: int| 0 <= j < r@.len() ==> #[trigger] r@[j] == src[src.len() - 1 - j],
        decreases v@.len(),
    {
        let x = v.pop().unwrap();
        r.push(x);
        assert(v@ =~= src.subrange(0, v@.len() as int));
    }
    r
}

/// The first `n` elements of the array, moved into a vector.
fn array_prefix<T, const N: usize>(a: [T; N], n: usize) -> (r: Vec<T>)
    requires
        n <= a@.len(),
    ensures
        r@ == a@.take(n as int),
{
    let mut v = vec_from_array(a);
    v.truncate(n);
    assert(v@ =~= a@.take(n as int));
    v
}

impl<const N: usize> From<[WafObject; N]> for WafArray {
    /// Moves the first [`u16::MAX`] elements of `value` (all of them if there are
    /// no more) into a new array of that length and capacity; the others are
    /// dropped.
    fn from(value: [WafObject; N]) -> (r: Self)
        ensures
            r.spec_items() == value@.take(capped_u16(value@.len()) as int),
            r.spec_capacity() == capped_u16(value@.len()),
    {
        let n: usize = if N > 65535 {
            65535
        } else {
            N
        };
        let items = array_prefix(value, n);
        WafArray { items, capacity: n as u16 }
    }
}

impl<const N: usize> vstd::std_specs::convert::FromSpecImpl<[WafObject; N]> for WafArray {
    /// Two arrays with the same elements may differ in their buffers, so the
    /// result is stated by `from` itself.
    open spec fn obeys_from_spec() -> bool {
        false
    }

    open spec fn from_spec(v: [WafObject; N]) -> WafArray {
        choose|a: WafArray| a.spec_items() == v@.take(capped_u16(v@.len()) as int)
    }
}

impl<const N: usize> From<[(WafObject, WafObject); N]> for WafMap {
    /// Moves the first [`u16::MAX`] pairs of `value` (all of them if there are no
    /// more) into a new map of that length and capacity, each pair as an entry's
    /// key and value; the others are dropped.
    fn from(value: [(WafObject, WafObject); N]) -> (r: Self)
        ensures
            r.spec_entries().len() == capped_u16(value@.len()),
            forall|i: int|
                0 <= i < r.spec_entries().len() ==> #[trigger] r.spec_entries()[i] == keyed_of(
                    value@[i].0,
                    value@[i].1,
                ),
            r.spec_capacity() == capped_u16(value@.len()),
    {
        let n: usize = if N > 65535 {
            65535
        } else {
            N
        };
        let ghost src = value@;
        let pairs = array_prefix(value, n);
        let mut rev = reversed(pairs);
        let mut entries: Vec<Keyed<WafObject>> = Vec::new();
        while rev.len() > 0
            invariant
                entries@.len() + rev@.len() == n,
                n <= src.len(),
                forall|j: int| 0 <= j < rev@.len() ==> #[trigger] rev@[j] == src[n - 1 - j],
                forall|j: int|
                    0 <= j < entries@.len() ==> #[trigger] entries@[j] == keyed_of(
                        src[j].0,
                        src[j].1,
                    ),
            decreases rev@.len(),
        {
            let pair = rev.pop().unwrap();
            entries.push(Keyed { key: pair.0, value: pair.1 });
        }
        WafMap { entries, capacity: n as u16 }
    }
}

impl<const N: usize> vstd::std_specs::convert::FromSpecImpl<[(WafObject, WafObject); N]> for WafMap {
    /// Two maps with the same entries may differ in their buffers, so the result
    /// is stated by `from` itself.
    open spec fn obeys_from_spec() -> bool {
        false
    }

    open spec fn from_spec(v: [(WafObject, WafObject); N]) -> WafMap {
        choose|m: WafMap| m.spec_entries().len() == capped_u16(v@.len())
    }
}

impl<'a, const N: usize> From<[(&'a str, WafObject); N]> for WafMap {
    /// Moves the first [`u16::MAX`] pairs of `value` (all of them if there are no
    /// more) into a new map of that length and capacity: each entry's key is a
    /// string of the first [`u32::MAX`] bytes of the pair's first element, held
    /// as [`WafString::new`] holds it, and its value is the pair's second
    /// element; the other pairs are dropped.
    fn from(value: [(&'a str, WafObject); N]) -> (r: Self)
        ensures
            r.spec_entries().len() == capped_u16(value@.len()),
            forall|i: int|
                0 <= i < r.spec_entries().len() ==> {
                    &&& (#[trigger] r.spec_entries()[i]).spec_key().is_string_with(
                        truncated_u32(value@[i].0.spec_bytes()),
                        spec_kind_for_len(truncated_u32(value@[i].0.spec_bytes()).len()),
                    )
                    &&& r.spec_entries()[i].spec_value() == value@[i].1
                },
            r.spec_capacity() == capped_u16(value@.len()),
    {
        let n: usize = if N > 65535 {
            65535
        } else {
            N
        };
        let ghost src = value@;
        let pairs = array_prefix(value, n);
        let mut rev = reversed(pairs);
        let mut entries: Vec<Keyed<WafObject>> = Vec::new();
        while rev.len() > 0
            invariant
                entries@.len() + rev@.len() == n,
                n <= src.len(),
                forall|j: int| 0 <= j < rev@.len() ==> #[trigger] rev@[j] == src[n - 1 - j],
                forall|j: int|
                    0 <= j < entries@.len() ==> {
                        &&& (#[trigger] entries@[j]).spec_key().is_string_with(
                            truncated_u32(src[j].0.spec_bytes()),
                            spec_kind_for_len(truncated_u32(src[j].0.spec_bytes()).len()),
                        )
                        &&& entries@[j].spec_value() == src[j].1
                    },
            decreases rev@.len(),
        {
            let pair = rev.pop().unwrap();
            let key = WafObject::String(string_from_bytes(pair.0.as_bytes()));
            entries.push(Keyed { key, value: pair.1 });
        }
        WafMap { entries, capacity: n as u16 }
    }
}

impl<'a, const N: usize> vstd::std_specs::convert::FromSpecImpl<[(&'a str, WafObject); N]> for WafMap {
    /// Two maps with the same entries may differ in their buffers, so the result
    /// is stated by `from` itself.
    open spec fn obeys_from_spec() -> bool {
        false
    }

    open spec fn from_spec(v: [(&'a str, WafObject); N]) -> WafMap {
        choose|m: WafMap| m.spec_entries().len() == capped_u16(v@.len())
    }
}

} // verus!
