//! Data model for exchanging data with the in-app WAF.
use vstd::prelude::*;

pub mod clone;
pub mod convert;
pub mod debug;
pub mod laws;

use debug::{debug_text, is_float_formatter, float_rendering, push_ref};

use crate::text::{dec_nat, push_dec, push_str, str_from_utf8};
use vstd::std_specs::iter::IteratorSpec;
use vstd::string::StringSliceAdditionalSpecFns;
use vstd::utf8::valid_utf8;
use crate::raw::{
    DDWAF_OBJ_ARRAY, DDWAF_OBJ_BOOL, DDWAF_OBJ_FLOAT, DDWAF_OBJ_INVALID, DDWAF_OBJ_LITERAL_STRING,
    DDWAF_OBJ_MAP, DDWAF_OBJ_NULL, DDWAF_OBJ_SIGNED, DDWAF_OBJ_SMALL_STRING, DDWAF_OBJ_STRING,
    DDWAF_OBJ_TYPE, DDWAF_OBJ_UNSIGNED,
};

verus! {

// ---------------------------------------------------------------------------
// Object types and errors
// ---------------------------------------------------------------------------

/// Identifies the type of the value stored in a [`WafObject`].
#[derive(Copy, Clone, Debug, PartialEq, Eq, Structural)]
pub enum WafObjectType {
    /// An invalid value, usable as a placeholder.
    Invalid,
    /// A signed integer with 64-bit precision.
    Signed,
    /// An unsigned integer with 64-bit precision.
    Unsigned,
    /// A string value.
    String,
    /// An array of [`WafObject`]s.
    Array,
    /// An array of [`Keyed<WafObject>`]s (a map).
    Mapping,
    /// A boolean value.
    Bool,
    /// A floating point value (64-bit precision), held by its IEEE-754 bits.
    Float,
    /// The null value.
    Null,
}

impl WafObjectType {
    /// The raw type tag the WAF uses for objects of this type.
    pub open spec fn spec_as_raw(self) -> DDWAF_OBJ_TYPE {
        match self {
            WafObjectType::Invalid => DDWAF_OBJ_INVALID,
            WafObjectType::Signed => DDWAF_OBJ_SIGNED,
            WafObjectType::Unsigned => DDWAF_OBJ_UNSIGNED,
            WafObjectType::String => DDWAF_OBJ_STRING,
            WafObjectType::Array => DDWAF_OBJ_ARRAY,
            WafObjectType::Mapping => DDWAF_OBJ_MAP,
            WafObjectType::Bool => DDWAF_OBJ_BOOL,
            WafObjectType::Float => DDWAF_OBJ_FLOAT,
            WafObjectType::Null => DDWAF_OBJ_NULL,
        }
    }

    /// Returns the raw type tag corresponding to this [`WafObjectType`].
    pub fn as_raw(self) -> (r: DDWAF_OBJ_TYPE)
        ensures
            r == self.spec_as_raw(),
    {
        match self {
            WafObjectType::Invalid => DDWAF_OBJ_INVALID,
            WafObjectType::Signed => DDWAF_OBJ_SIGNED,
            WafObjectType::Unsigned => DDWAF_OBJ_UNSIGNED,
            WafObjectType::String => DDWAF_OBJ_STRING,
            WafObjectType::Array => DDWAF_OBJ_ARRAY,
            WafObjectType::Mapping => DDWAF_OBJ_MAP,
            WafObjectType::Bool => DDWAF_OBJ_BOOL,
            WafObjectType::Float => DDWAF_OBJ_FLOAT,
            WafObjectType::Null => DDWAF_OBJ_NULL,
        }
    }

    /// The name of the type, as messages render it (`Map` for maps).
    pub open spec fn spec_name(self) -> Seq<char> {
        match self {
            WafObjectType::Invalid => "Invalid"@,
            WafObjectType::Signed => "Signed"@,
            WafObjectType::Unsigned => "Unsigned"@,
            WafObjectType::String => "String"@,
            WafObjectType::Array => "Array"@,
            WafObjectType::Mapping => "Map"@,
            WafObjectType::Bool => "Bool"@,
            WafObjectType::Float => "Float"@,
            WafObjectType::Null => "Null"@,
        }
    }

    /// Returns the name of the type, as messages render it (`Map` for maps).
    pub fn name(self) -> (r: &'static str)
        ensures
            r@ == self.spec_name(),
    {
        match self {
            WafObjectType::Invalid => "Invalid",
            WafObjectType::Signed => "Signed",
            WafObjectType::Unsigned => "Unsigned",
            WafObjectType::String => "String",
            WafObjectType::Array => "Array",
            WafObjectType::Mapping => "Map",
            WafObjectType::Bool => "Bool",
            WafObjectType::Float => "Float",
            WafObjectType::Null => "Null",
        }
    }
}

/// Decoding of a raw type tag: every string representation is a
/// [`WafObjectType::String`]; a tag that names no type is an error.
pub open spec fn spec_type_from_raw(value: DDWAF_OBJ_TYPE) -> Result<WafObjectType, UnknownObjectTypeError> {
    if value == DDWAF_OBJ_INVALID {
        Ok(WafObjectType::Invalid)
    } else if value == DDWAF_OBJ_SIGNED {
        Ok(WafObjectType::Signed)
    } else if value == DDWAF_OBJ_UNSIGNED {
        Ok(WafObjectType::Unsigned)
    } else if value == DDWAF_OBJ_STRING || value == DDWAF_OBJ_LITERAL_STRING || value
        == DDWAF_OBJ_SMALL_STRING {
        Ok(WafObjectType::String)
    } else if value == DDWAF_OBJ_ARRAY {
        Ok(WafObjectType::Array)
    } else if value == DDWAF_OBJ_MAP {
        Ok(WafObjectType::Mapping)
    } else if value == DDWAF_OBJ_BOOL {
        Ok(WafObjectType::Bool)
    } else if value == DDWAF_OBJ_FLOAT {
        Ok(WafObjectType::Float)
    } else if value == DDWAF_OBJ_NULL {
        Ok(WafObjectType::Null)
    } else {
        Err(UnknownObjectTypeError(value))
    }
}

impl TryFrom<DDWAF_OBJ_TYPE> for WafObjectType {
    type Error = UnknownObjectTypeError;

    fn try_from(value: DDWAF_OBJ_TYPE) -> (r: Result<WafObjectType, UnknownObjectTypeError>) {
        if value == DDWAF_OBJ_INVALID {
            Ok(WafObjectType::Invalid)
        } else if value == DDWAF_OBJ_SIGNED {
            Ok(WafObjectType::Signed)
        } else if value == DDWAF_OBJ_UNSIGNED {
            Ok(WafObjectType::Unsigned)
        } else if value == DDWAF_OBJ_STRING || value == DDWAF_OBJ_LITERAL_STRING || value
            == DDWAF_OBJ_SMALL_STRING {
            Ok(WafObjectType::String)
        } else if value == DDWAF_OBJ_ARRAY {
            Ok(WafObjectType::Array)
        } else if value == DDWAF_OBJ_MAP {
            Ok(WafObjectType::Mapping)
        } else if value == DDWAF_OBJ_BOOL {
            Ok(WafObjectType::Bool)
        } else if value == DDWAF_OBJ_FLOAT {
            Ok(WafObjectType::Float)
        } else if value == DDWAF_OBJ_NULL {
            Ok(WafObjectType::Null)
        } else {
            Err(UnknownObjectTypeError(value))
        }
    }
}

impl vstd::std_specs::convert::TryFromSpecImpl<DDWAF_OBJ_TYPE> for WafObjectType {
    open spec fn obeys_try_from_spec() -> bool {
        true
    }

    open spec fn try_from_spec(value: DDWAF_OBJ_TYPE) -> Result<WafObjectType, UnknownObjectTypeError> {
        spec_type_from_raw(value)
    }
}

/// The error that is returned when a raw type tag names no known [`WafObjectType`].
#[derive(Copy, Clone, Debug)]
pub struct UnknownObjectTypeError(pub DDWAF_OBJ_TYPE);

/// The error that is returned when a [`WafObject`] does not have the expected [`WafObjectType`].
#[derive(Copy, Clone, Debug)]
pub struct ObjectTypeError {
    pub expected: WafObjectType,
    pub actual: WafObjectType,
}

/// The error that is returned when a value's length exceeds the maximum allowed.
///
/// This applies to strings (max [`u32::MAX`]) and arrays/maps (max [`u16::MAX`]).
#[derive(Copy, Clone, Debug)]
pub struct LengthTooLargeError {
    /// The length that was too large.
    pub length: usize,
    /// The maximum allowed length.
    pub max_length: usize,
}


// ---------------------------------------------------------------------------
// Objects
// ---------------------------------------------------------------------------

/// How the bytes of a [`WafString`] are held: in an owned heap buffer, as a
/// static literal, or inline (at most [`SMALL_STRING_SIZE`] bytes).
#[derive(Copy, Clone, Debug, PartialEq, Eq, Structural)]
pub enum StrKind {
    Heap,
    Literal,
    Small,
}

/// The largest string held inline.
pub const SMALL_STRING_SIZE: usize = 14;

/// The WAF object representation of an invalid value.
#[derive(Copy, Clone, Debug)]
pub struct WafInvalid {}

/// The WAF object representation of a signed integer.
#[derive(Copy, Clone, Debug)]
pub struct WafSigned {
    val: i64,
}

/// The WAF object representation of an unsigned integer.
#[derive(Copy, Clone, Debug)]
pub struct WafUnsigned {
    val: u64,
}

/// The WAF object representation of a boolean.
#[derive(Copy, Clone, Debug)]
pub struct WafBool {
    val: bool,
}

/// The WAF object representation of a floating point value, held by its IEEE-754 bits.
#[derive(Copy, Clone, Debug)]
pub struct WafFloat {
    bits: u64,
}

/// The WAF object representation of the null value.
#[derive(Copy, Clone, Debug)]
pub struct WafNull {}

/// The WAF object representation of a string (a sequence of bytes).
#[derive(Debug)]
pub struct WafString {
    kind: StrKind,
    bytes: Vec<u8>,
}

/// The WAF object representation of an array of [`WafObject`]s.
#[derive(Debug)]
pub struct WafArray {
    items: Vec<WafObject>,
    capacity: u16,
}

/// The WAF object representation of a map: an array of [`Keyed<WafObject>`]s.
#[derive(Debug)]
pub struct WafMap {
    entries: Vec<Keyed<WafObject>>,
    capacity: u16,
}

/// A [`WafObject`] or typed object associated with a key.
#[derive(Debug)]
pub struct Keyed<T> {
    key: WafObject,
    value: T,
}

/// An arbitrary WAF object.
#[derive(Debug)]
pub enum WafObject {
    Invalid(WafInvalid),
    Signed(WafSigned),
    Unsigned(WafUnsigned),
    String(WafString),
    Array(WafArray),
    Mapping(WafMap),
    Bool(WafBool),
    Float(WafFloat),
    Null(WafNull),
}

impl WafString {
    #[verifier::type_invariant]
    spec fn inv(self) -> bool {
        &&& self.bytes@.len() <= u32::MAX
        &&& self.kind == StrKind::Small ==> self.bytes@.len() <= SMALL_STRING_SIZE
    }

    /// The bytes of the string.
    pub closed spec fn spec_bytes(self) -> Seq<u8> {
        self.bytes@
    }

    /// How the bytes are held.
    pub closed spec fn spec_kind(self) -> StrKind {
        self.kind
    }
}

impl WafArray {
    #[verifier::type_invariant]
    spec fn inv(self) -> bool {
        self.items@.len() <= self.capacity
    }

    /// The elements of the array.
    pub closed spec fn spec_items(self) -> Seq<WafObject> {
        self.items@
    }

    /// The number of elements the array can hold.
    pub closed spec fn spec_capacity(self) -> u16 {
        self.capacity
    }
}

impl WafMap {
    #[verifier::type_invariant]
    spec fn inv(self) -> bool {
        self.entries@.len() <= self.capacity
    }

    /// The entries of the map, in order.
    pub closed spec fn spec_entries(self) -> Seq<Keyed<WafObject>> {
        self.entries@
    }

    /// The number of entries the map can hold.
    pub closed spec fn spec_capacity(self) -> u16 {
        self.capacity
    }
}

impl<T> Keyed<T> {
    /// The key of the entry.
    pub closed spec fn spec_key(self) -> WafObject {
        self.key
    }

    /// The value of the entry.
    pub closed spec fn spec_value(self) -> T {
        self.value
    }
}

impl WafSigned {
    pub closed spec fn spec_value(self) -> i64 {
        self.val
    }
}

impl WafUnsigned {
    pub closed spec fn spec_value(self) -> u64 {
        self.val
    }
}

impl WafBool {
    pub closed spec fn spec_value(self) -> bool {
        self.val
    }
}

impl WafFloat {
    pub closed spec fn spec_bits(self) -> u64 {
        self.bits
    }
}

/// The invalid object.
pub open spec fn invalid_object() -> WafObject {
    WafObject::Invalid(WafInvalid {  })
}

/// The null object.
pub open spec fn null_object() -> WafObject {
    WafObject::Null(WafNull {  })
}

/// The signed integer object holding `v`.
pub closed spec fn signed_object(v: i64) -> WafObject {
    WafObject::Signed(WafSigned { val: v })
}

/// The unsigned integer object holding `v`.
pub closed spec fn unsigned_object(v: u64) -> WafObject {
    WafObject::Unsigned(WafUnsigned { val: v })
}

/// The boolean object holding `v`.
pub closed spec fn bool_object(v: bool) -> WafObject {
    WafObject::Bool(WafBool { val: v })
}

/// The float object holding the double with bits `b`.
pub closed spec fn float_object(b: u64) -> WafObject {
    WafObject::Float(WafFloat { bits: b })
}

// ---------------------------------------------------------------------------
// Equality
// ---------------------------------------------------------------------------

/// The bits of a NaN: all exponent bits set and a non-zero mantissa.
pub open spec fn is_nan_bits(b: u64) -> bool {
    &&& b & 0x7ff0_0000_0000_0000u64 == 0x7ff0_0000_0000_0000u64
    &&& b & 0x000f_ffff_ffff_ffffu64 != 0
}

/// IEEE-754 equality of two doubles given by their bits: the two zeros are equal,
/// a NaN equals nothing, and otherwise equal values have equal bits.
pub open spec fn float_bits_eq(a: u64, b: u64) -> bool {
    ||| (a & 0x7fff_ffff_ffff_ffffu64 == 0 && b & 0x7fff_ffff_ffff_ffffu64 == 0)
    ||| (a == b && !is_nan_bits(a))
}

/// Equality of WAF objects: strings compare by content whatever their
/// representation, invalid values equal each other, floats compare as IEEE-754
/// doubles, arrays compare element-wise and maps entry-wise (keys and values, in
/// order); objects of different types are never equal.
pub closed spec fn obj_eq(a: WafObject, b: WafObject) -> bool
    decreases a,
{
    match (a, b) {
        (WafObject::String(x), WafObject::String(y)) => x.bytes@ == y.bytes@,
        (WafObject::Invalid(_), WafObject::Invalid(_)) => true,
        (WafObject::Null(_), WafObject::Null(_)) => true,
        (WafObject::Signed(x), WafObject::Signed(y)) => x.val == y.val,
        (WafObject::Unsigned(x), WafObject::Unsigned(y)) => x.val == y.val,
        (WafObject::Bool(x), WafObject::Bool(y)) => x.val == y.val,
        (WafObject::Float(x), WafObject::Float(y)) => float_bits_eq(x.bits, y.bits),
        (WafObject::Array(x), WafObject::Array(y)) => {
            &&& x.items@.len() == y.items@.len()
            &&& forall|i: int|
                #![trigger x.items@[i]]
                0 <= i < x.items@.len() ==> obj_eq(x.items@[i], y.items@[i])
        },
        (WafObject::Mapping(x), WafObject::Mapping(y)) => {
            &&& x.entries@.len() == y.entries@.len()
            &&& forall|i: int|
                #![trigger x.entries@[i]]
                0 <= i < x.entries@.len() ==> {
                    &&& obj_eq(x.entries@[i].key, y.entries@[i].key)
                    &&& obj_eq(x.entries@[i].value, y.entries@[i].value)
                }
        },
        _ => false,
    }
}

/// No float anywhere in the object is a NaN.
pub open spec fn nan_free(o: WafObject) -> bool
    decreases o,
{
    match o {
        WafObject::Float(x) => !is_nan_bits(x.spec_bits()),
        WafObject::Array(x) => forall|i: int|
            #![trigger x.spec_items()[i]]
            0 <= i < x.spec_items().len() ==> nan_free(x.spec_items()[i]),
        WafObject::Mapping(x) => forall|i: int|
            #![trigger x.spec_entries()[i]]
            0 <= i < x.spec_entries().len() ==> nan_free(x.spec_entries()[i].spec_key()) && nan_free(
                x.spec_entries()[i].spec_value(),
            ),
        _ => true,
    }
}

/// Compares two byte sequences.
fn bytes_equal(a: &Vec<u8>, b: &Vec<u8>) -> (r: bool)
    ensures
        r == (a@ == b@),
{
    if a.len() != b.len() {
        return false;
    }
    let mut i: usize = 0;
    while i < a.len()
        invariant
            i <= a.len(),
            a.len() == b.len(),
            forall|j: int| 0 <= j < i ==> a@[j] == b@[j],
        decreases a.len() - i,
    {
        if a[i] != b[i] {
            return false;
        }
        i += 1;
    }
    assert(a@ =~= b@);
    true
}

/// Computes IEEE-754 equality of two doubles given by their bits.
pub fn float_bits_equal(a: u64, b: u64) -> (r: bool)
    ensures
        r == float_bits_eq(a, b),
{
    (a & 0x7fff_ffff_ffff_ffffu64 == 0 && b & 0x7fff_ffff_ffff_ffffu64 == 0) || (a == b && !(a
        & 0x7ff0_0000_0000_0000u64 == 0x7ff0_0000_0000_0000u64 && a & 0x000f_ffff_ffff_ffffu64
        != 0))
}

/// Computes [`obj_eq`] on two arrays.
#[verifier::loop_isolation(false)]
fn arrays_equal(x: &WafArray, y: &WafArray) -> (r: bool)
    ensures
        r == obj_eq(WafObject::Array(*x), WafObject::Array(*y)),
    decreases *x, 0nat,
{
    if x.items.len() != y.items.len() {
        return false;
    }
    let mut i: usize = 0;
    while i < x.items.len()
        invariant
            i <= x.items.len(),
            forall|j: int| 0 <= j < i ==> obj_eq(x.items@[j], y.items@[j]),
        decreases x.items.len() - i,
    {
        assert(decreases_to!(*x => x.items@[i as int]));
        if !objects_equal(&x.items[i], &y.items[i]) {
            assert(!obj_eq(x.items@[i as int], y.items@[i as int]));
            return false;
        }
        i += 1;
    }
    true
}

/// Computes [`obj_eq`] on two maps.
#[verifier::loop_isolation(false)]
fn maps_equal(x: &WafMap, y: &WafMap) -> (r: bool)
    ensures
        r == obj_eq(WafObject::Mapping(*x), WafObject::Mapping(*y)),
    decreases *x, 0nat,
{
    if x.entries.len() != y.entries.len() {
        return false;
    }
    let mut i: usize = 0;
    while i < x.entries.len()
        invariant
            i <= x.entries.len(),
            forall|j: int|
                0 <= j < i ==> {
                    &&& obj_eq(x.entries@[j].key, y.entries@[j].key)
                    &&& obj_eq(x.entries@[j].value, y.entries@[j].value)
                },
        decreases x.entries.len() - i,
    {
        assert(decreases_to!(*x => x.entries@[i as int].key));
        assert(decreases_to!(*x => x.entries@[i as int].value));
        if !objects_equal(&x.entries[i].key, &y.entries[i].key) {
            assert(!obj_eq(x.entries@[i as int].key, y.entries@[i as int].key));
            return false;
        }
        if !objects_equal(&x.entries[i].value, &y.entries[i].value) {
            assert(!obj_eq(x.entries@[i as int].value, y.entries@[i as int].value));
            return false;
        }
        i += 1;
    }
    true
}

/// Computes [`obj_eq`].
fn objects_equal(a: &WafObject, b: &WafObject) -> (r: bool)
    ensures
        r == obj_eq(*a, *b),
    decreases *a, 1nat,
{
    match (a, b) {
        (WafObject::String(x), WafObject::String(y)) => bytes_equal(&x.bytes, &y.bytes),
        (WafObject::Invalid(_), WafObject::Invalid(_)) => true,
        (WafObject::Null(_), WafObject::Null(_)) => true,
        (WafObject::Signed(x), WafObject::Signed(y)) => x.val == y.val,
        (WafObject::Unsigned(x), WafObject::Unsigned(y)) => x.val == y.val,
        (WafObject::Bool(x), WafObject::Bool(y)) => x.val == y.val,
        (WafObject::Float(x), WafObject::Float(y)) => float_bits_equal(x.bits, y.bits),
        (WafObject::Array(x), WafObject::Array(y)) => arrays_equal(x, y),
        (WafObject::Mapping(x), WafObject::Mapping(y)) => maps_equal(x, y),
        _ => false,
    }
}


// ---------------------------------------------------------------------------
// Borrowed views and the object traits
// ---------------------------------------------------------------------------

/// A borrowed view of any WAF object: scalars by value, strings, arrays and maps
/// by reference.
pub enum ObjRef<'a> {
    Invalid,
    Signed(i64),
    Unsigned(u64),
    String(&'a WafString),
    Array(&'a WafArray),
    Mapping(&'a WafMap),
    Bool(bool),
    Float(u64),
    Null,
}

impl<'a> ObjRef<'a> {
    /// The object this view shows.
    pub closed spec fn to_object(self) -> WafObject {
        match self {
            ObjRef::Invalid => WafObject::Invalid(WafInvalid {  }),
            ObjRef::Signed(v) => WafObject::Signed(WafSigned { val: v }),
            ObjRef::Unsigned(v) => WafObject::Unsigned(WafUnsigned { val: v }),
            ObjRef::String(s) => WafObject::String(*s),
            ObjRef::Array(a) => WafObject::Array(*a),
            ObjRef::Mapping(m) => WafObject::Mapping(*m),
            ObjRef::Bool(v) => WafObject::Bool(WafBool { val: v }),
            ObjRef::Float(b) => WafObject::Float(WafFloat { bits: b }),
            ObjRef::Null => WafObject::Null(WafNull {  }),
        }
    }
}

/// Computes [`obj_eq`] on the objects two views show.
fn refs_equal(a: ObjRef, b: ObjRef) -> (r: bool)
    ensures
        r == obj_eq(a.to_object(), b.to_object()),
{
    match (a, b) {
        (ObjRef::String(x), ObjRef::String(y)) => bytes_equal(&x.bytes, &y.bytes),
        (ObjRef::Invalid, ObjRef::Invalid) => true,
        (ObjRef::Null, ObjRef::Null) => true,
        (ObjRef::Signed(x), ObjRef::Signed(y)) => x == y,
        (ObjRef::Unsigned(x), ObjRef::Unsigned(y)) => x == y,
        (ObjRef::Bool(x), ObjRef::Bool(y)) => x == y,
        (ObjRef::Float(x), ObjRef::Float(y)) => float_bits_equal(x, y),
        (ObjRef::Array(x), ObjRef::Array(y)) => arrays_equal(x, y),
        (ObjRef::Mapping(x), ObjRef::Mapping(y)) => maps_equal(x, y),
        _ => false,
    }
}

/// Implemented by [`WafObject`] and by every typed object: gives access to the
/// object a value represents.
pub trait AsRawMutObject: Sized {
    /// The object this value represents.
    spec fn object_view(&self) -> WafObject;

    /// Returns a borrowed view of the object this value represents.
    fn as_obj_ref(&self) -> (r: ObjRef<'_>)
        ensures
            r.to_object() == self.object_view(),
    ;

    /// Returns the debug rendering of the object this value represents, doubles
    /// rendered by `float_text` from their bits.
    fn debug_string<F: Fn(u64) -> String>(&self, float_text: &F) -> (r: String)
        requires
            is_float_formatter(*float_text),
        ensures
            r@ == debug_text(self.object_view(), float_rendering(*float_text)),
    {
        let mut s = String::new();
        push_ref(&mut s, self.as_obj_ref(), float_text);
        s
    }
}

/// Implemented by the typed interfaces to [`WafObject`], one for each [`WafObjectType`].
pub trait TypedWafObject: AsRawMutObject {
    /// The [`WafObjectType`] of this typed object.
    spec fn spec_type() -> WafObjectType;

    /// The typed value that `obj` holds, if it holds one of this type.
    spec fn spec_from_object(obj: WafObject) -> Option<Self>;

    /// An object holds a value of this type exactly when its type is this type,
    /// and that value represents the object.
    proof fn lemma_from_object(obj: WafObject)
        ensures
            Self::spec_from_object(obj) is Some <==> obj.spec_object_type() == Self::spec_type(),
            Self::spec_from_object(obj) matches Some(t) ==> t.object_view() == obj,
    ;

    /// Returns the [`WafObjectType`] of this typed object.
    fn type_of() -> (r: WafObjectType)
        ensures
            r == Self::spec_type(),
    ;

    /// Converts `obj` to this type, if it holds a value of this type.
    fn from_object(obj: WafObject) -> (r: Option<Self>)
        ensures
            r == Self::spec_from_object(obj),
    ;

    /// Returns a reference to the value `obj` holds, if it is of this type.
    fn ref_from_object(obj: &WafObject) -> (r: Option<&Self>)
        ensures
            match r {
                Some(t) => Self::spec_from_object(*obj) == Some(*t),
                None => Self::spec_from_object(*obj) is None,
            },
    ;

    /// Returns a mutable reference to the value `obj` holds, if it is of this type.
    fn mut_from_object(obj: &mut WafObject) -> (r: Option<&mut Self>)
        ensures
            match r {
                Some(t) => {
                    &&& Self::spec_from_object(*old(obj)) == Some(*t)
                    &&& *final(obj) == final(t).object_view()
                },
                None => {
                    &&& Self::spec_from_object(*old(obj)) is None
                    &&& *final(obj) == *old(obj)
                },
            },
    ;

    /// Converts this value to the [`WafObject`] it represents.
    fn into_object(self) -> (r: WafObject)
        ensures
            r == self.object_view(),
    ;
}

impl WafObject {
    /// The type of the object.
    pub open spec fn spec_object_type(self) -> WafObjectType {
        match self {
            WafObject::Invalid(_) => WafObjectType::Invalid,
            WafObject::Signed(_) => WafObjectType::Signed,
            WafObject::Unsigned(_) => WafObjectType::Unsigned,
            WafObject::String(_) => WafObjectType::String,
            WafObject::Array(_) => WafObjectType::Array,
            WafObject::Mapping(_) => WafObjectType::Mapping,
            WafObject::Bool(_) => WafObjectType::Bool,
            WafObject::Float(_) => WafObjectType::Float,
            WafObject::Null(_) => WafObjectType::Null,
        }
    }

    /// Returns the [`WafObjectType`] of the underlying value.
    pub fn object_type(&self) -> (r: WafObjectType)
        ensures
            r == self.spec_object_type(),
    {
        match self {
            WafObject::Invalid(_) => WafObjectType::Invalid,
            WafObject::Signed(_) => WafObjectType::Signed,
            WafObject::Unsigned(_) => WafObjectType::Unsigned,
            WafObject::String(_) => WafObjectType::String,
            WafObject::Array(_) => WafObjectType::Array,
            WafObject::Mapping(_) => WafObjectType::Mapping,
            WafObject::Bool(_) => WafObjectType::Bool,
            WafObject::Float(_) => WafObjectType::Float,
            WafObject::Null(_) => WafObjectType::Null,
        }
    }
}

impl AsRawMutObject for WafObject {
    open spec fn object_view(&self) -> WafObject {
        *self
    }

    fn as_obj_ref(&self) -> (r: ObjRef<'_>) {
        match self {
            WafObject::Invalid(_) => ObjRef::Invalid,
            WafObject::Signed(x) => ObjRef::Signed(x.val),
            WafObject::Unsigned(x) => ObjRef::Unsigned(x.val),
            WafObject::String(x) => ObjRef::String(x),
            WafObject::Array(x) => ObjRef::Array(x),
            WafObject::Mapping(x) => ObjRef::Mapping(x),
            WafObject::Bool(x) => ObjRef::Bool(x.val),
            WafObject::Float(x) => ObjRef::Float(x.bits),
            WafObject::Null(_) => ObjRef::Null,
        }
    }
}

impl<T: AsRawMutObject> PartialEq<T> for WafObject {
    fn eq(&self, other: &T) -> (r: bool) {
        refs_equal(self.as_obj_ref(), other.as_obj_ref())
    }
}

impl<T: AsRawMutObject> vstd::std_specs::cmp::PartialEqSpecImpl<T> for WafObject {
    open spec fn obeys_eq_spec() -> bool {
        true
    }

    open spec fn eq_spec(&self, other: &T) -> bool {
        obj_eq(self.object_view(), other.object_view())
    }
}

impl AsRawMutObject for WafArray {
    open spec fn object_view(&self) -> WafObject {
        WafObject::Array(*self)
    }

    fn as_obj_ref(&self) -> (r: ObjRef<'_>) {
        ObjRef::Array(self)
    }
}

impl TypedWafObject for WafArray {
    open spec fn spec_type() -> WafObjectType {
        WafObjectType::Array
    }

    open spec fn spec_from_object(obj: WafObject) -> Option<Self> {
        match obj {
            WafObject::Array(x) => Some(x),
            _ => None,
        }
    }

    proof fn lemma_from_object(obj: WafObject) {
    }

    fn type_of() -> (r: WafObjectType) {
        WafObjectType::Array
    }

    fn from_object(obj: WafObject) -> (r: Option<Self>) {
        match obj {
            WafObject::Array(x) => Some(x),
            _ => None,
        }
    }

    fn ref_from_object(obj: &WafObject) -> (r: Option<&Self>) {
        match obj {
            WafObject::Array(x) => Some(x),
            _ => None,
        }
    }

    fn mut_from_object(obj: &mut WafObject) -> (r: Option<&mut Self>) {
        match obj {
            WafObject::Array(x) => Some(x),
            _ => None,
        }
    }

    fn into_object(self) -> (r: WafObject) {
        WafObject::Array(self)
    }
}

impl<T: AsRawMutObject> PartialEq<T> for WafArray {
    fn eq(&self, other: &T) -> (r: bool) {
        refs_equal(self.as_obj_ref(), other.as_obj_ref())
    }
}

impl<T: AsRawMutObject> vstd::std_specs::cmp::PartialEqSpecImpl<T> for WafArray {
    open spec fn obeys_eq_spec() -> bool {
        true
    }

    open spec fn eq_spec(&self, other: &T) -> bool {
        obj_eq(self.object_view(), other.object_view())
    }
}


impl AsRawMutObject for WafInvalid {
    open spec fn object_view(&self) -> WafObject {
        WafObject::Invalid(*self)
    }

    fn as_obj_ref(&self) -> (r: ObjRef<'_>) {
        ObjRef::Invalid
    }
}

impl TypedWafObject for WafInvalid {
    open spec fn spec_type() -> WafObjectType {
        WafObjectType::Invalid
    }

    open spec fn spec_from_object(obj: WafObject) -> Option<Self> {
        match obj {
            WafObject::Invalid(x) => Some(x),
            _ => None,
        }
    }

    proof fn lemma_from_object(obj: WafObject) {
    }

    fn type_of() -> (r: WafObjectType) {
        WafObjectType::Invalid
    }

    fn from_object(obj: WafObject) -> (r: Option<Self>) {
        match obj {
            WafObject::Invalid(x) => Some(x),
            _ => None,
        }
    }

    fn ref_from_object(obj: &WafObject) -> (r: Option<&Self>) {
        match obj {
            WafObject::Invalid(x) => Some(x),
            _ => None,
        }
    }

    fn mut_from_object(obj: &mut WafObject) -> (r: Option<&mut Self>) {
        match obj {
            WafObject::Invalid(x) => Some(x),
            _ => None,
        }
    }

    fn into_object(self) -> (r: WafObject) {
        WafObject::Invalid(self)
    }
}

impl<T: AsRawMutObject> PartialEq<T> for WafInvalid {
    fn eq(&self, other: &T) -> (r: bool) {
        refs_equal(self.as_obj_ref(), other.as_obj_ref())
    }
}

impl<T: AsRawMutObject> vstd::std_specs::cmp::PartialEqSpecImpl<T> for WafInvalid {
    open spec fn obeys_eq_spec() -> bool {
        true
    }

    open spec fn eq_spec(&self, other: &T) -> bool {
        obj_eq(self.object_view(), other.object_view())
    }
}

impl AsRawMutObject for WafSigned {
    open spec fn object_view(&self) -> WafObject {
        WafObject::Signed(*self)
    }

    fn as_obj_ref(&self) -> (r: ObjRef<'_>) {
        ObjRef::Signed(self.val)
    }
}

impl TypedWafObject for WafSigned {
    open spec fn spec_type() -> WafObjectType {
        WafObjectType::Signed
    }

    open spec fn spec_from_object(obj: WafObject) -> Option<Self> {
        match obj {
            WafObject::Signed(x) => Some(x),
            _ => None,
        }
    }

    proof fn lemma_from_object(obj: WafObject) {
    }

    fn type_of() -> (r: WafObjectType) {
        WafObjectType::Signed
    }

    fn from_object(obj: WafObject) -> (r: Option<Self>) {
        match obj {
            WafObject::Signed(x) => Some(x),
            _ => None,
        }
    }

    fn ref_from_object(obj: &WafObject) -> (r: Option<&Self>) {
        match obj {
            WafObject::Signed(x) => Some(x),
            _ => None,
        }
    }

    fn mut_from_object(obj: &mut WafObject) -> (r: Option<&mut Self>) {
        match obj {
            WafObject::Signed(x) => Some(x),
            _ => None,
        }
    }

    fn into_object(self) -> (r: WafObject) {
        WafObject::Signed(self)
    }
}

impl<T: AsRawMutObject> PartialEq<T> for WafSigned {
    fn eq(&self, other: &T) -> (r: bool) {
        refs_equal(self.as_obj_ref(), other.as_obj_ref())
    }
}

impl<T: AsRawMutObject> vstd::std_specs::cmp::PartialEqSpecImpl<T> for WafSigned {
    open spec fn obeys_eq_spec() -> bool {
        true
    }

    open spec fn eq_spec(&self, other: &T) -> bool {
        obj_eq(self.object_view(), other.object_view())
    }
}

impl AsRawMutObject for WafUnsigned {
    open spec fn object_view(&self) -> WafObject {
        WafObject::Unsigned(*self)
    }

    fn as_obj_ref(&self) -> (r: ObjRef<'_>) {
        ObjRef::Unsigned(self.val)
    }
}

impl TypedWafObject for WafUnsigned {
    open spec fn spec_type() -> WafObjectType {
        WafObjectType::Unsigned
    }

    open spec fn spec_from_object(obj: WafObject) -> Option<Self> {
        match obj {
            WafObject::Unsigned(x) => Some(x),
            _ => None,
        }
    }

    proof fn lemma_from_object(obj: WafObject) {
    }

    fn type_of() -> (r: WafObjectType) {
        WafObjectType::Unsigned
    }

    fn from_object(obj: WafObject) -> (r: Option<Self>) {
        match obj {
            WafObject::Unsigned(x) => Some(x),
            _ => None,
        }
    }

    fn ref_from_object(obj: &WafObject) -> (r: Option<&Self>) {
        match obj {
            WafObject::Unsigned(x) => Some(x),
            _ => None,
        }
    }

    fn mut_from_object(obj: &mut WafObject) -> (r: Option<&mut Self>) {
        match obj {
            WafObject::Unsigned(x) => Some(x),
            _ => None,
        }
    }

    fn into_object(self) -> (r: WafObject) {
        WafObject::Unsigned(self)
    }
}

impl<T: AsRawMutObject> PartialEq<T> for WafUnsigned {
    fn eq(&self, other: &T) -> (r: bool) {
        refs_equal(self.as_obj_ref(), other.as_obj_ref())
    }
}

impl<T: AsRawMutObject> vstd::std_specs::cmp::PartialEqSpecImpl<T> for WafUnsigned {
    open spec fn obeys_eq_spec() -> bool {
        true
    }

    open spec fn eq_spec(&self, other: &T) -> bool {
        obj_eq(self.object_view(), other.object_view())
    }
}

impl AsRawMutObject for WafString {
    open spec fn object_view(&self) -> WafObject {
        WafObject::String(*self)
    }

    fn as_obj_ref(&self) -> (r: ObjRef<'_>) {
        ObjRef::String(self)
    }
}

impl TypedWafObject for WafString {
    open spec fn spec_type() -> WafObjectType {
        WafObjectType::String
    }

    open spec fn spec_from_object(obj: WafObject) -> Option<Self> {
        match obj {
            WafObject::String(x) => Some(x),
            _ => None,
        }
    }

    proof fn lemma_from_object(obj: WafObject) {
    }

    fn type_of() -> (r: WafObjectType) {
        WafObjectType::String
    }

    fn from_object(obj: WafObject) -> (r: Option<Self>) {
        match obj {
            WafObject::String(x) => Some(x),
            _ => None,
        }
    }

    fn ref_from_object(obj: &WafObject) -> (r: Option<&Self>) {
        match obj {
            WafObject::String(x) => Some(x),
            _ => None,
        }
    }

    fn mut_from_object(obj: &mut WafObject) -> (r: Option<&mut Self>) {
        match obj {
            WafObject::String(x) => Some(x),
            _ => None,
        }
    }

    fn into_object(self) -> (r: WafObject) {
        WafObject::String(self)
    }
}

impl<T: AsRawMutObject> PartialEq<T> for WafString {
    fn eq(&self, other: &T) -> (r: bool) {
        refs_equal(self.as_obj_ref(), other.as_obj_ref())
    }
}

impl<T: AsRawMutObject> vstd::std_specs::cmp::PartialEqSpecImpl<T> for WafString {
    open spec fn obeys_eq_spec() -> bool {
        true
    }

    open spec fn eq_spec(&self, other: &T) -> bool {
        obj_eq(self.object_view(), other.object_view())
    }
}

impl AsRawMutObject for WafMap {
    open spec fn object_view(&self) -> WafObject {
        WafObject::Mapping(*self)
    }

    fn as_obj_ref(&self) -> (r: ObjRef<'_>) {
        ObjRef::Mapping(self)
    }
}

impl TypedWafObject for WafMap {
    open spec fn spec_type() -> WafObjectType {
        WafObjectType::Mapping
    }

    open spec fn spec_from_object(obj: WafObject) -> Option<Self> {
        match obj {
            WafObject::Mapping(x) => Some(x),
            _ => None,
        }
    }

    proof fn lemma_from_object(obj: WafObject) {
    }

    fn type_of() -> (r: WafObjectType) {
        WafObjectType::Mapping
    }

    fn from_object(obj: WafObject) -> (r: Option<Self>) {
        match obj {
            WafObject::Mapping(x) => Some(x),
            _ => None,
        }
    }

    fn ref_from_object(obj: &WafObject) -> (r: Option<&Self>) {
        match obj {
            WafObject::Mapping(x) => Some(x),
            _ => None,
        }
    }

    fn mut_from_object(obj: &mut WafObject) -> (r: Option<&mut Self>) {
        match obj {
            WafObject::Mapping(x) => Some(x),
            _ => None,
        }
    }

    fn into_object(self) -> (r: WafObject) {
        WafObject::Mapping(self)
    }
}

impl<T: AsRawMutObject> PartialEq<T> for WafMap {
    fn eq(&self, other: &T) -> (r: bool) {
        refs_equal(self.as_obj_ref(), other.as_obj_ref())
    }
}

impl<T: AsRawMutObject> vstd::std_specs::cmp::PartialEqSpecImpl<T> for WafMap {
    open spec fn obeys_eq_spec() -> bool {
        true
    }

    open spec fn eq_spec(&self, other: &T) -> bool {
        obj_eq(self.object_view(), other.object_view())
    }
}

impl AsRawMutObject for WafBool {
    open spec fn object_view(&self) -> WafObject {
        WafObject::Bool(*self)
    }

    fn as_obj_ref(&self) -> (r: ObjRef<'_>) {
        ObjRef::Bool(self.val)
    }
}

impl TypedWafObject for WafBool {
    open spec fn spec_type() -> WafObjectType {
        WafObjectType::Bool
    }

    open spec fn spec_from_object(obj: WafObject) -> Option<Self> {
        match obj {
            WafObject::Bool(x) => Some(x),
            _ => None,
        }
    }

    proof fn lemma_from_object(obj: WafObject) {
    }

    fn type_of() -> (r: WafObjectType) {
        WafObjectType::Bool
    }

    fn from_object(obj: WafObject) -> (r: Option<Self>) {
        match obj {
            WafObject::Bool(x) => Some(x),
            _ => None,
        }
    }

    fn ref_from_object(obj: &WafObject) -> (r: Option<&Self>) {
        match obj {
            WafObject::Bool(x) => Some(x),
            _ => None,
        }
    }

    fn mut_from_object(obj: &mut WafObject) -> (r: Option<&mut Self>) {
        match obj {
            WafObject::Bool(x) => Some(x),
            _ => None,
        }
    }

    fn into_object(self) -> (r: WafObject) {
        WafObject::Bool(self)
    }
}

impl<T: AsRawMutObject> PartialEq<T> for WafBool {
    fn eq(&self, other: &T) -> (r: bool) {
        refs_equal(self.as_obj_ref(), other.as_obj_ref())
    }
}

impl<T: AsRawMutObject> vstd::std_specs::cmp::PartialEqSpecImpl<T> for WafBool {
    open spec fn obeys_eq_spec() -> bool {
        true
    }

    open spec fn eq_spec(&self, other: &T) -> bool {
        obj_eq(self.object_view(), other.object_view())
    }
}

impl AsRawMutObject for WafFloat {
    open spec fn object_view(&self) -> WafObject {
        WafObject::Float(*self)
    }

    fn as_obj_ref(&self) -> (r: ObjRef<'_>) {
        ObjRef::Float(self.bits)
    }
}

impl TypedWafObject for WafFloat {
    open spec fn spec_type() -> WafObjectType {
        WafObjectType::Float
    }

    open spec fn spec_from_object(obj: WafObject) -> Option<Self> {
        match obj {
            WafObject::Float(x) => Some(x),
            _ => None,
        }
    }

    proof fn lemma_from_object(obj: WafObject) {
    }

    fn type_of() -> (r: WafObjectType) {
        WafObjectType::Float
    }

    fn from_object(obj: WafObject) -> (r: Option<Self>) {
        match obj {
            WafObject::Float(x) => Some(x),
            _ => None,
        }
    }

    fn ref_from_object(obj: &WafObject) -> (r: Option<&Self>) {
        match obj {
            WafObject::Float(x) => Some(x),
            _ => None,
        }
    }

    fn mut_from_object(obj: &mut WafObject) -> (r: Option<&mut Self>) {
        match obj {
            WafObject::Float(x) => Some(x),
            _ => None,
        }
    }

    fn into_object(self) -> (r: WafObject) {
        WafObject::Float(self)
    }
}

impl<T: AsRawMutObject> PartialEq<T> for WafFloat {
    fn eq(&self, other: &T) -> (r: bool) {
        refs_equal(self.as_obj_ref(), other.as_obj_ref())
    }
}

impl<T: AsRawMutObject> vstd::std_specs::cmp::PartialEqSpecImpl<T> for WafFloat {
    open spec fn obeys_eq_spec() -> bool {
        true
    }

    open spec fn eq_spec(&self, other: &T) -> bool {
        obj_eq(self.object_view(), other.object_view())
    }
}

impl AsRawMutObject for WafNull {
    open spec fn object_view(&self) -> WafObject {
        WafObject::Null(*self)
    }

    fn as_obj_ref(&self) -> (r: ObjRef<'_>) {
        ObjRef::Null
    }
}

impl TypedWafObject for WafNull {
    open spec fn spec_type() -> WafObjectType {
        WafObjectType::Null
    }

    open spec fn spec_from_object(obj: WafObject) -> Option<Self> {
        match obj {
            WafObject::Null(x) => Some(x),
            _ => None,
        }
    }

    proof fn lemma_from_object(obj: WafObject) {
    }

    fn type_of() -> (r: WafObjectType) {
        WafObjectType::Null
    }

    fn from_object(obj: WafObject) -> (r: Option<Self>) {
        match obj {
            WafObject::Null(x) => Some(x),
            _ => None,
        }
    }

    fn ref_from_object(obj: &WafObject) -> (r: Option<&Self>) {
        match obj {
            WafObject::Null(x) => Some(x),
            _ => None,
        }
    }

    fn mut_from_object(obj: &mut WafObject) -> (r: Option<&mut Self>) {
        match obj {
            WafObject::Null(x) => Some(x),
            _ => None,
        }
    }

    fn into_object(self) -> (r: WafObject) {
        WafObject::Null(self)
    }
}

impl<T: AsRawMutObject> PartialEq<T> for WafNull {
    fn eq(&self, other: &T) -> (r: bool) {
        refs_equal(self.as_obj_ref(), other.as_obj_ref())
    }
}

impl<T: AsRawMutObject> vstd::std_specs::cmp::PartialEqSpecImpl<T> for WafNull {
    open spec fn obeys_eq_spec() -> bool {
        true
    }

    open spec fn eq_spec(&self, other: &T) -> bool {
        obj_eq(self.object_view(), other.object_view())
    }
}


// ---------------------------------------------------------------------------
// Scalars
// ---------------------------------------------------------------------------

impl WafSigned {
    /// Creates a new [`WafSigned`] with the provided value.
    pub fn new(val: i64) -> (r: Self)
        ensures
            r.spec_value() == val,
    {
        WafSigned { val }
    }

    /// Returns the value of this [`WafSigned`].
    pub fn value(&self) -> (r: i64)
        ensures
            r == self.spec_value(),
    {
        self.val
    }

    /// Returns true if this object is indeed a signed integer (always, by construction).
    pub fn is_valid(&self) -> (r: bool)
        ensures
            r,
    {
        true
    }
}

impl WafUnsigned {
    /// Creates a new [`WafUnsigned`] with the provided value.
    pub fn new(val: u64) -> (r: Self)
        ensures
            r.spec_value() == val,
    {
        WafUnsigned { val }
    }

    /// Returns the value of this [`WafUnsigned`].
    pub fn value(&self) -> (r: u64)
        ensures
            r == self.spec_value(),
    {
        self.val
    }

    /// Returns true if this object is indeed an unsigned integer (always, by construction).
    pub fn is_valid(&self) -> (r: bool)
        ensures
            r,
    {
        true
    }
}

impl WafBool {
    /// Creates a new [`WafBool`] with the provided value.
    pub fn new(val: bool) -> (r: Self)
        ensures
            r.spec_value() == val,
    {
        WafBool { val }
    }

    /// Returns the value of this [`WafBool`].
    pub fn value(&self) -> (r: bool)
        ensures
            r == self.spec_value(),
    {
        self.val
    }

    /// Returns true if this object is indeed a boolean (always, by construction).
    pub fn is_valid(&self) -> (r: bool)
        ensures
            r,
    {
        true
    }
}

impl WafFloat {
    /// Creates a new [`WafFloat`] holding the double with the given IEEE-754 bits.
    pub fn from_bits(bits: u64) -> (r: Self)
        ensures
            r.spec_bits() == bits,
    {
        WafFloat { bits }
    }

    /// Returns the IEEE-754 bits of the value of this [`WafFloat`].
    pub fn to_bits(&self) -> (r: u64)
        ensures
            r == self.spec_bits(),
    {
        self.bits
    }

    /// Returns true if this object is indeed a float (always, by construction).
    pub fn is_valid(&self) -> (r: bool)
        ensures
            r,
    {
        true
    }
}

impl WafNull {
    /// Creates a new [`WafNull`].
    pub fn new() -> (r: Self)
        ensures
            r.object_view() == null_object(),
    {
        WafNull {  }
    }

    /// Returns true if this object is indeed null (always, by construction).
    pub fn is_valid(&self) -> (r: bool)
        ensures
            r,
    {
        true
    }
}

impl WafInvalid {
    /// Returns true if this object is indeed invalid (always, by construction).
    pub fn is_valid(&self) -> (r: bool)
        ensures
            r,
    {
        true
    }
}

// ---------------------------------------------------------------------------
// Strings
// ---------------------------------------------------------------------------

/// The representation [`WafString::new`] picks for a string of `len` bytes.
pub open spec fn spec_kind_for_len(len: nat) -> StrKind {
    if len <= SMALL_STRING_SIZE {
        StrKind::Small
    } else {
        StrKind::Heap
    }
}

/// Copies a byte slice.
fn copy_bytes(val: &[u8]) -> (r: Vec<u8>)
    ensures
        r@ == val@,
{
    let mut out: Vec<u8> = Vec::new();
    let mut i: usize = 0;
    while i < val.len()
        invariant
            i <= val.len(),
            out@ == val@.subrange(0, i as int),
        decreases val.len() - i,
    {
        out.push(val[i]);
        i += 1;
    }
    assert(out@ =~= val@);
    out
}

impl WafString {
    /// Creates a new [`WafString`] holding a copy of the provided bytes: inline when
    /// they are at most [`SMALL_STRING_SIZE`] bytes, in a heap buffer otherwise.
    /// Returns `None` exactly when the value is larger than [`u32::MAX`] bytes.
    pub fn new(val: &[u8]) -> (r: Option<Self>)
        ensures
            match r {
                Some(s) => {
                    &&& val@.len() <= u32::MAX
                    &&& s.spec_bytes() == val@
                    &&& s.spec_kind() == spec_kind_for_len(val@.len())
                },
                None => val@.len() > u32::MAX,
            },
    {
        if val.len() > u32::MAX as usize {
            return None;
        }
        let bytes = copy_bytes(val);
        let kind = if val.len() <= SMALL_STRING_SIZE {
            StrKind::Small
        } else {
            StrKind::Heap
        };
        Some(WafString { kind, bytes })
    }

    /// Creates a new literal [`WafString`] with the provided static value.
    pub fn new_literal(val: &'static [u8]) -> (r: Self)
        requires
            val@.len() <= u32::MAX,
        ensures
            r.spec_bytes() == val@,
            r.spec_kind() == StrKind::Literal,
    {
        WafString { kind: StrKind::Literal, bytes: copy_bytes(val) }
    }

    /// Returns the length of this [`WafString`], in bytes.
    pub fn len(&self) -> (r: u32)
        ensures
            r == self.spec_bytes().len(),
    {
        proof {
            use_type_invariant(self);
        }
        self.bytes.len() as u32
    }

    /// Returns true if this [`WafString`] is empty.
    pub fn is_empty(&self) -> (r: bool)
        ensures
            r == (self.spec_bytes().len() == 0),
    {
        self.bytes.len() == 0
    }

    /// Returns the bytes of this [`WafString`].
    pub fn as_bytes(&self) -> (r: &[u8])
        ensures
            r@ == self.spec_bytes(),
    {
        self.bytes.as_slice()
    }

    /// Returns how the bytes of this [`WafString`] are held.
    pub fn kind(&self) -> (r: StrKind)
        ensures
            r == self.spec_kind(),
    {
        self.kind
    }

    /// Returns a string slice of this [`WafString`], or an error exactly when its
    /// bytes are not valid UTF-8.
    pub fn as_str(&self) -> (r: Result<&str, core::str::Utf8Error>)
        ensures
            r is Ok <==> valid_utf8(self.spec_bytes()),
            r matches Ok(t) ==> t.spec_bytes() == self.spec_bytes(),
    {
        str_from_utf8(self.bytes.as_slice())
    }

    /// Returns true if this object is indeed a string (always, by construction).
    pub fn is_valid(&self) -> (r: bool)
        ensures
            r,
    {
        true
    }
}


// ---------------------------------------------------------------------------
// Allocators and owned objects
// ---------------------------------------------------------------------------

/// The allocator that releases the memory of a WAF-owned object.
#[derive(Copy, Clone, Debug, PartialEq, Eq, Structural)]
pub enum AllocatorKind {
    /// The WAF's own default allocator.
    LibddwafDefault,
    /// The allocator registered by the Rust side.
    Rust,
}

/// Encodes in the type system which allocator releases an object.
pub trait AllocatorType {
    /// The allocator this type stands for.
    spec fn spec_allocator() -> AllocatorKind;

    /// Returns the allocator this type stands for.
    fn allocator() -> (r: AllocatorKind)
        ensures
            r == Self::spec_allocator(),
    ;
}

/// Allocator type that uses the WAF's default allocator.
#[derive(Debug)]
pub struct LibddwafDefaultAllocator;

impl AllocatorType for LibddwafDefaultAllocator {
    open spec fn spec_allocator() -> AllocatorKind {
        AllocatorKind::LibddwafDefault
    }

    fn allocator() -> (r: AllocatorKind) {
        AllocatorKind::LibddwafDefault
    }
}

/// Allocator type that uses the Rust-registered allocator.
#[derive(Debug)]
pub struct RustAllocator;

impl AllocatorType for RustAllocator {
    open spec fn spec_allocator() -> AllocatorKind {
        AllocatorKind::Rust
    }

    fn allocator() -> (r: AllocatorKind) {
        AllocatorKind::Rust
    }
}

// ---------------------------------------------------------------------------
// Reading and writing arbitrary objects
// ---------------------------------------------------------------------------

impl WafObject {
    /// The value as an unsigned integer, if it is one.
    pub open spec fn spec_to_u64(self) -> Option<u64> {
        match self {
            WafObject::Unsigned(x) => Some(x.spec_value()),
            _ => None,
        }
    }

    /// The value as a signed integer: a signed value, or an unsigned one that fits.
    pub open spec fn spec_to_i64(self) -> Option<i64> {
        match self {
            WafObject::Unsigned(x) => if x.spec_value() <= i64::MAX as u64 {
                Some(x.spec_value() as i64)
            } else {
                None
            },
            WafObject::Signed(x) => Some(x.spec_value()),
            _ => None,
        }
    }

    /// The value as a boolean, if it is one.
    pub open spec fn spec_to_bool(self) -> Option<bool> {
        match self {
            WafObject::Bool(x) => Some(x.spec_value()),
            _ => None,
        }
    }

    /// The bits of the value, if it is a float.
    pub open spec fn spec_to_float_bits(self) -> Option<u64> {
        match self {
            WafObject::Float(x) => Some(x.spec_bits()),
            _ => None,
        }
    }

    /// The bytes of the value, if it is a string.
    pub open spec fn spec_string_bytes(self) -> Option<Seq<u8>> {
        match self {
            WafObject::String(x) => Some(x.spec_bytes()),
            _ => None,
        }
    }

    /// Whether this is a string with these bytes, held this way.
    pub open spec fn is_string_with(self, bytes: Seq<u8>, kind: StrKind) -> bool {
        self matches WafObject::String(x) && x.spec_bytes() == bytes && x.spec_kind() == kind
    }

    /// Returns a reference to this value as a `T` if its type corresponds.
    pub fn as_type<T: TypedWafObject>(&self) -> (r: Option<&T>)
        ensures
            match r {
                Some(t) => T::spec_from_object(*self) == Some(*t),
                None => T::spec_from_object(*self) is None,
            },
    {
        T::ref_from_object(self)
    }

    /// Returns a mutable reference to this value as a `T` if its type corresponds.
    pub fn as_type_mut<T: TypedWafObject>(&mut self) -> (r: Option<&mut T>)
        ensures
            match r {
                Some(t) => {
                    &&& T::spec_from_object(*old(self)) == Some(*t)
                    &&& *final(self) == final(t).object_view()
                },
                None => {
                    &&& T::spec_from_object(*old(self)) is None
                    &&& *final(self) == *old(self)
                },
            },
    {
        T::mut_from_object(self)
    }

    /// Returns true if this [`WafObject`] is not [`WafObjectType::Invalid`].
    pub fn is_valid(&self) -> (r: bool)
        ensures
            r == (self.spec_object_type() != WafObjectType::Invalid),
    {
        match self {
            WafObject::Invalid(_) => false,
            _ => true,
        }
    }

    /// Returns the value as a [`u64`] if its type is [`WafObjectType::Unsigned`].
    pub fn to_u64(&self) -> (r: Option<u64>)
        ensures
            r == self.spec_to_u64(),
    {
        match self {
            WafObject::Unsigned(x) => Some(x.val),
            _ => None,
        }
    }

    /// Returns the value as an [`i64`] if its type is [`WafObjectType::Signed`], or
    /// [`WafObjectType::Unsigned`] with a value that an [`i64`] can represent.
    pub fn to_i64(&self) -> (r: Option<i64>)
        ensures
            r == self.spec_to_i64(),
    {
        match self {
            WafObject::Unsigned(x) => if x.val <= i64::MAX as u64 {
                Some(x.val as i64)
            } else {
                None
            },
            WafObject::Signed(x) => Some(x.val),
            _ => None,
        }
    }

    /// Returns the value as a [`bool`] if its type is [`WafObjectType::Bool`].
    pub fn to_bool(&self) -> (r: Option<bool>)
        ensures
            r == self.spec_to_bool(),
    {
        match self {
            WafObject::Bool(x) => Some(x.val),
            _ => None,
        }
    }

    /// Returns the IEEE-754 bits of the value if its type is [`WafObjectType::Float`].
    pub fn to_float_bits(&self) -> (r: Option<u64>)
        ensures
            r == self.spec_to_float_bits(),
    {
        match self {
            WafObject::Float(x) => Some(x.bits),
            _ => None,
        }
    }

    /// Returns the value as a [`&str`] if its type is [`WafObjectType::String`] and
    /// the value is valid UTF-8.
    pub fn to_str(&self) -> (r: Option<&str>)
        ensures
            match r {
                Some(t) => self.spec_string_bytes() == Some(t.spec_bytes()) && valid_utf8(
                    t.spec_bytes(),
                ),
                None => match self.spec_string_bytes() {
                    Some(b) => !valid_utf8(b),
                    None => true,
                },
            },
    {
        match self {
            WafObject::String(x) => match x.as_str() {
                Ok(t) => Some(t),
                Err(_) => None,
            },
            _ => None,
        }
    }
}


impl WafObject {
    /// Initializes this object as a null value; always succeeds.
    pub fn set_null(&mut self) -> (r: Option<&mut Self>)
        ensures
            r matches Some(o) && *o == null_object() && *final(self) == *final(o),
    {
        *self = WafObject::Null(WafNull {  });
        Some(self)
    }

    /// Initializes this object as a signed integer; always succeeds.
    pub fn set_signed(&mut self, value: i64) -> (r: Option<&mut Self>)
        ensures
            r matches Some(o) && *o == signed_object(value) && *final(self)
                == *final(o),
    {
        *self = WafObject::Signed(WafSigned { val: value });
        Some(self)
    }

    /// Initializes this object as an unsigned integer; always succeeds.
    pub fn set_unsigned(&mut self, value: u64) -> (r: Option<&mut Self>)
        ensures
            r matches Some(o) && *o == unsigned_object(value)
                && *final(self) == *final(o),
    {
        *self = WafObject::Unsigned(WafUnsigned { val: value });
        Some(self)
    }

    /// Initializes this object as a boolean; always succeeds.
    pub fn set_bool(&mut self, value: bool) -> (r: Option<&mut Self>)
        ensures
            r matches Some(o) && *o == bool_object(value) && *final(self)
                == *final(o),
    {
        *self = WafObject::Bool(WafBool { val: value });
        Some(self)
    }

    /// Initializes this object as the floating point value with the given
    /// IEEE-754 bits; always succeeds.
    pub fn set_float_bits(&mut self, bits: u64) -> (r: Option<&mut Self>)
        ensures
            r matches Some(o) && *o == float_object(bits) && *final(self)
                == *final(o),
    {
        *self = WafObject::Float(WafFloat { bits });
        Some(self)
    }

    /// Initializes this object as a copy of the string `value`, using allocator
    /// `A` for its storage. Fails, leaving the object unchanged, exactly when
    /// `value` is larger than [`u32::MAX`] bytes.
    pub fn set_string<A: AllocatorType>(&mut self, value: &[u8]) -> (r: Option<&mut Self>)
        ensures
            match r {
                Some(o) => {
                    &&& value@.len() <= u32::MAX
                    &&& o.is_string_with(value@, spec_kind_for_len(value@.len()))
                    &&& *final(self) == *final(o)
                },
                None => value@.len() > u32::MAX && *final(self) == *old(self),
            },
    {
        match WafString::new(value) {
            Some(s) => {
                *self = WafObject::String(s);
                Some(self)
            },
            None => None,
        }
    }

    /// Initializes this object as an empty array able to hold `capacity`
    /// elements, using allocator `A`; always succeeds.
    pub fn set_array<A: AllocatorType>(&mut self, capacity: u16) -> (r: Option<&mut Self>)
        ensures
            r matches Some(o) && o.spec_array_parts() == Some((Seq::<WafObject>::empty(), capacity))
                && *final(self) == *final(o),
    {
        *self = WafObject::Array(WafArray { items: Vec::new(), capacity });
        Some(self)
    }

    /// Initializes this object as an empty map able to hold `capacity` entries,
    /// using allocator `A`; always succeeds.
    pub fn set_map<A: AllocatorType>(&mut self, capacity: u16) -> (r: Option<&mut Self>)
        ensures
            r matches Some(o) && o.spec_map_parts() == Some(
                (Seq::<Keyed<WafObject>>::empty(), capacity),
            ) && *final(self) == *final(o),
    {
        *self = WafObject::Mapping(WafMap { entries: Vec::new(), capacity });
        Some(self)
    }

    /// The elements and capacity, if this is an array.
    pub open spec fn spec_array_parts(self) -> Option<(Seq<WafObject>, u16)> {
        match self {
            WafObject::Array(x) => Some((x.spec_items(), x.spec_capacity())),
            _ => None,
        }
    }

    /// The entries and capacity, if this is a map.
    pub open spec fn spec_map_parts(self) -> Option<(Seq<Keyed<WafObject>>, u16)> {
        match self {
            WafObject::Mapping(x) => Some((x.spec_entries(), x.spec_capacity())),
            _ => None,
        }
    }

    /// Inserts a new invalid value slot at the end of this array, using allocator
    /// `A`, and returns it. Returns `None`, leaving the object unchanged, exactly
    /// when this object is not an array or the array is full.
    pub fn insert<A: AllocatorType>(&mut self) -> (r: Option<&mut WafObject>)
        ensures
            match r {
                Some(slot) => {
                    &&& *slot == invalid_object()
                    &&& old(self).spec_array_parts() matches Some((items, cap))
                    &&& items.len() < cap
                    &&& final(self).spec_array_parts() == Some((items.push(*final(slot)), cap))
                },
                None => {
                    &&& !(old(self).spec_array_parts() matches Some((items, cap)) && items.len()
                        < cap)
                    &&& *final(self) == *old(self)
                },
            },
    {
        match self {
            WafObject::Array(a) => {
                proof {
                    use_type_invariant(&*a);
                }
                if a.items.len() < a.capacity as usize {
                    let mut items: Vec<WafObject> = Vec::new();
                    std::mem::swap(&mut items, &mut a.items);
                    items.push(WafObject::Invalid(WafInvalid {  }));
                    let n = items.len();
                    *a = WafArray { items, capacity: a.capacity };
                    Some(&mut a.items[n - 1])
                } else {
                    None
                }
            },
            _ => None,
        }
    }
}


impl WafObject {
    /// Inserts a new entry at the end of this map, with a copy of `key` as its
    /// key and an invalid value, using allocator `A`, and returns the value slot.
    /// Returns `None`, leaving the object unchanged, exactly when the key is
    /// larger than [`u32::MAX`] bytes, this object is not a map, or the map is
    /// full.
    pub fn insert_key<A: AllocatorType>(&mut self, key: &[u8]) -> (r: Option<&mut WafObject>)
        ensures
            match r {
                Some(slot) => {
                    &&& *slot == invalid_object()
                    &&& key@.len() <= u32::MAX
                    &&& old(self).spec_map_parts() matches Some((entries, cap))
                    &&& entries.len() < cap
                    &&& final(self).spec_map_parts() matches Some((new_entries, new_cap))
                    &&& new_cap == cap
                    &&& new_entries.len() == entries.len() + 1
                    &&& new_entries.subrange(0, entries.len() as int) == entries
                    &&& new_entries.last().spec_key().is_string_with(
                        key@,
                        spec_kind_for_len(key@.len()),
                    )
                    &&& new_entries.last().spec_value() == *final(slot)
                },
                None => {
                    &&& (key@.len() > u32::MAX || !(old(self).spec_map_parts() matches Some(
                        (entries, cap),
                    ) && entries.len() < cap))
                    &&& *final(self) == *old(self)
                },
            },
    {
        if key.len() > u32::MAX as usize {
            return None;
        }
        match self {
            WafObject::Mapping(m) => {
                proof {
                    use_type_invariant(&*m);
                }
                if m.entries.len() < m.capacity as usize {
                    let key_string = match WafString::new(key) {
                        Some(k) => k,
                        None => {
                            return None;
                        },
                    };
                    let mut entries: Vec<Keyed<WafObject>> = Vec::new();
                    std::mem::swap(&mut entries, &mut m.entries);
                    let ghost old_entries = entries@;
                    entries.push(
                        Keyed {
                            key: WafObject::String(key_string),
                            value: WafObject::Invalid(WafInvalid {  }),
                        },
                    );
                    let n = entries.len();
                    assert(entries@.subrange(0, old_entries.len() as int) =~= old_entries);
                    *m = WafMap { entries, capacity: m.capacity };
                    Some(&mut m.entries[n - 1].value)
                } else {
                    None
                }
            },
            _ => None,
        }
    }
}

// ---------------------------------------------------------------------------
// Arrays
// ---------------------------------------------------------------------------

/// `n` invalid objects.
pub open spec fn invalid_objects(n: nat) -> Seq<WafObject> {
    Seq::new(n, |i: int| invalid_object())
}

impl WafArray {
    /// Creates a new [`WafArray`] of `nb_entries` elements, all invalid objects,
    /// with as much capacity.
    pub fn new(nb_entries: u16) -> (r: Self)
        ensures
            r.spec_items() == invalid_objects(nb_entries as nat),
            r.spec_capacity() == nb_entries,
    {
        let mut items: Vec<WafObject> = Vec::new();
        let mut i: u16 = 0;
        while i < nb_entries
            invariant
                i <= nb_entries,
                items@ == invalid_objects(i as nat),
            decreases nb_entries - i,
        {
            items.push(WafObject::Invalid(WafInvalid {  }));
            i += 1;
            assert(items@ =~= invalid_objects(i as nat));
        }
        WafArray { items, capacity: nb_entries }
    }

    /// Returns the length of this [`WafArray`].
    pub fn len(&self) -> (r: u16)
        ensures
            r == self.spec_items().len(),
    {
        proof {
            use_type_invariant(self);
        }
        self.items.len() as u16
    }

    /// Returns true if this [`WafArray`] is empty.
    pub fn is_empty(&self) -> (r: bool)
        ensures
            r == (self.spec_items().len() == 0),
    {
        self.items.len() == 0
    }

    /// Returns true if this object is indeed an array (always, by construction).
    pub fn is_valid(&self) -> (r: bool)
        ensures
            r,
    {
        true
    }

    /// Returns the capacity of this [`WafArray`].
    pub fn capacity(&self) -> (r: u16)
        ensures
            r == self.spec_capacity(),
    {
        self.capacity
    }

    /// Truncates this [`WafArray`] to the provided size; has no effect if the
    /// current length is not greater than the new size. The capacity is kept.
    pub fn truncate(&mut self, new_size: u16)
        ensures
            final(self).spec_capacity() == old(self).spec_capacity(),
            final(self).spec_items() == if new_size as int >= old(self).spec_items().len() {
                old(self).spec_items()
            } else {
                old(self).spec_items().subrange(0, new_size as int)
            },
    {
        proof {
            use_type_invariant(&*self);
        }
        if new_size as usize >= self.items.len() {
            return;
        }
        let mut items: Vec<WafObject> = Vec::new();
        std::mem::swap(&mut items, &mut self.items);
        items.truncate(new_size as usize);
        *self = WafArray { items, capacity: self.capacity };
    }

    /// Returns a reference to the element at `index`.
    pub fn index(&self, index: usize) -> (r: &WafObject)
        requires
            index < self.spec_items().len(),
        ensures
            *r == self.spec_items()[index as int],
    {
        &self.items[index]
    }

    /// Returns a mutable reference to the element at `index`.
    pub fn index_mut(&mut self, index: usize) -> (r: &mut WafObject)
        requires
            index < old(self).spec_items().len(),
        ensures
            *r == old(self).spec_items()[index as int],
            final(self).spec_items() == old(self).spec_items().update(index as int, *final(r)),
            final(self).spec_capacity() == old(self).spec_capacity(),
    {
        proof {
            use_type_invariant(&*self);
        }
        &mut self.items[index]
    }

    /// Returns the elements of this [`WafArray`] as a slice.
    pub fn as_slice(&self) -> (r: &[WafObject])
        ensures
            r@ == self.spec_items(),
    {
        self.items.as_slice()
    }

    /// Consumes this [`WafArray`], returning its elements.
    pub fn into_vec(self) -> (r: Vec<WafObject>)
        ensures
            r@ == self.spec_items(),
    {
        self.items
    }
}

// ---------------------------------------------------------------------------
// Maps
// ---------------------------------------------------------------------------

/// The entry with an invalid key and an invalid value.
pub closed spec fn invalid_entry() -> Keyed<WafObject> {
    Keyed { key: invalid_object(), value: invalid_object() }
}

/// `n` entries with invalid keys and invalid values.
pub open spec fn invalid_entries(n: nat) -> Seq<Keyed<WafObject>> {
    Seq::new(n, |i: int| invalid_entry())
}

impl WafMap {
    /// Creates a new [`WafMap`] of `nb_entries` entries, each with an invalid key
    /// and an invalid value, with as much capacity.
    pub fn new(nb_entries: u16) -> (r: Self)
        ensures
            r.spec_entries() == invalid_entries(nb_entries as nat),
            r.spec_capacity() == nb_entries,
    {
        let mut entries: Vec<Keyed<WafObject>> = Vec::new();
        let mut i: u16 = 0;
        while i < nb_entries
            invariant
                i <= nb_entries,
                entries@ == invalid_entries(i as nat),
            decreases nb_entries - i,
        {
            entries.push(
                Keyed {
                    key: WafObject::Invalid(WafInvalid {  }),
                    value: WafObject::Invalid(WafInvalid {  }),
                },
            );
            i += 1;
            assert(entries@ =~= invalid_entries(i as nat));
        }
        WafMap { entries, capacity: nb_entries }
    }

    /// Returns the length of this [`WafMap`].
    pub fn len(&self) -> (r: u16)
        ensures
            r == self.spec_entries().len(),
    {
        proof {
            use_type_invariant(self);
        }
        self.entries.len() as u16
    }

    /// Returns true if this [`WafMap`] is empty.
    pub fn is_empty(&self) -> (r: bool)
        ensures
            r == (self.spec_entries().len() == 0),
    {
        self.entries.len() == 0
    }

    /// Returns true if this object is indeed a map (always, by construction).
    pub fn is_valid(&self) -> (r: bool)
        ensures
            r,
    {
        true
    }

    /// Returns the capacity of this [`WafMap`].
    pub fn capacity(&self) -> (r: u16)
        ensures
            r == self.spec_capacity(),
    {
        self.capacity
    }

    /// Truncates this [`WafMap`] to the provided size; has no effect if the
    /// current length is not greater than the new size. The capacity is kept.
    pub fn truncate(&mut self, new_size: u16)
        ensures
            final(self).spec_capacity() == old(self).spec_capacity(),
            final(self).spec_entries() == if new_size as int >= old(self).spec_entries().len() {
                old(self).spec_entries()
            } else {
                old(self).spec_entries().subrange(0, new_size as int)
            },
    {
        proof {
            use_type_invariant(&*self);
        }
        if new_size as usize >= self.entries.len() {
            return;
        }
        let mut entries: Vec<Keyed<WafObject>> = Vec::new();
        std::mem::swap(&mut entries, &mut self.entries);
        entries.truncate(new_size as usize);
        *self = WafMap { entries, capacity: self.capacity };
    }

    /// Returns a reference to the entry at `index`.
    pub fn index(&self, index: usize) -> (r: &Keyed<WafObject>)
        requires
            index < self.spec_entries().len(),
        ensures
            *r == self.spec_entries()[index as int],
    {
        &self.entries[index]
    }

    /// Returns a mutable reference to the entry at `index`.
    pub fn index_mut(&mut self, index: usize) -> (r: &mut Keyed<WafObject>)
        requires
            index < old(self).spec_entries().len(),
        ensures
            *r == old(self).spec_entries()[index as int],
            final(self).spec_entries() == old(self).spec_entries().update(index as int, *final(r)),
            final(self).spec_capacity() == old(self).spec_capacity(),
    {
        proof {
            use_type_invariant(&*self);
        }
        &mut self.entries[index]
    }

    /// Returns the entries of this [`WafMap`] as a slice.
    pub fn as_slice(&self) -> (r: &[Keyed<WafObject>])
        ensures
            r@ == self.spec_entries(),
    {
        self.entries.as_slice()
    }

    /// Consumes this [`WafMap`], returning its entries.
    pub fn into_vec(self) -> (r: Vec<Keyed<WafObject>>)
        ensures
            r@ == self.spec_entries(),
    {
        self.entries
    }
}


// ---------------------------------------------------------------------------
// Keyed entries
// ---------------------------------------------------------------------------

/// The error returned when the key of an entry cannot be read as a string.
#[derive(Debug)]
pub enum KeyStrError {
    /// The key is not a string.
    Type(ObjectTypeError),
    /// The key is a string that is not valid UTF-8.
    Utf8(core::str::Utf8Error),
}

impl<T: AsRawMutObject> Keyed<T> {
    /// Creates a new entry with the provided key and value.
    pub fn new(key: WafObject, value: T) -> (r: Self)
        ensures
            r.spec_key() == key,
            r.spec_value() == value,
    {
        Keyed { key, value }
    }

    /// Obtains a reference to the entry's key.
    pub fn key(&self) -> (r: &WafObject)
        ensures
            *r == self.spec_key(),
    {
        &self.key
    }

    /// Obtains a mutable reference to the entry's key.
    pub fn key_mut(&mut self) -> (r: &mut WafObject)
        ensures
            *r == old(self).spec_key(),
            final(self).spec_key() == *final(r),
            final(self).spec_value() == old(self).spec_value(),
    {
        &mut self.key
    }

    /// Obtains a reference to the entry's value.
    pub fn value(&self) -> (r: &T)
        ensures
            *r == self.spec_value(),
    {
        &self.value
    }

    /// Obtains a mutable reference to the entry's value.
    pub fn value_mut(&mut self) -> (r: &mut T)
        ensures
            *r == old(self).spec_value(),
            final(self).spec_value() == *final(r),
            final(self).spec_key() == old(self).spec_key(),
    {
        &mut self.value
    }

    /// Obtains the key as a byte slice; fails exactly when the key is not a string.
    pub fn key_bytes(&self) -> (r: Result<&[u8], ObjectTypeError>)
        ensures
            match self.spec_key().spec_string_bytes() {
                Some(b) => r matches Ok(k) && k@ == b,
                None => r == Err::<&[u8], ObjectTypeError>(
                    ObjectTypeError {
                        expected: WafObjectType::String,
                        actual: self.spec_key().spec_object_type(),
                    },
                ),
            },
    {
        match &self.key {
            WafObject::String(s) => Ok(s.bytes.as_slice()),
            _ => Err(
                ObjectTypeError { expected: WafObjectType::String, actual: self.key.object_type() },
            ),
        }
    }

    /// Obtains the key as a string; fails when the key is not a string, or is a
    /// string that is not valid UTF-8.
    pub fn key_str(&self) -> (r: Result<&str, KeyStrError>)
        ensures
            match self.spec_key().spec_string_bytes() {
                Some(b) => match r {
                    Ok(k) => k.spec_bytes() == b && valid_utf8(b),
                    Err(e) => e is Utf8 && !valid_utf8(b),
                },
                None => r matches Err(KeyStrError::Type(e)) && e == ObjectTypeError {
                    expected: WafObjectType::String,
                    actual: self.spec_key().spec_object_type(),
                },
            },
    {
        match &self.key {
            WafObject::String(s) => match s.as_str() {
                Ok(t) => Ok(t),
                Err(e) => Err(KeyStrError::Utf8(e)),
            },
            _ => Err(
                KeyStrError::Type(
                    ObjectTypeError {
                        expected: WafObjectType::String,
                        actual: self.key.object_type(),
                    },
                ),
            ),
        }
    }
}

impl Keyed<WafObject> {
    /// Returns a reference to the entry's value as a `T` if its type corresponds.
    pub fn as_type<T: TypedWafObject>(&self) -> (r: Option<&T>)
        ensures
            match r {
                Some(t) => T::spec_from_object(self.spec_value()) == Some(*t),
                None => T::spec_from_object(self.spec_value()) is None,
            },
    {
        T::ref_from_object(&self.value)
    }

    /// Returns a mutable reference to the entry's value as a `T` if its type corresponds.
    pub fn as_type_mut<T: TypedWafObject>(&mut self) -> (r: Option<&mut T>)
        ensures
            final(self).spec_key() == old(self).spec_key(),
            match r {
                Some(t) => {
                    &&& T::spec_from_object(old(self).spec_value()) == Some(*t)
                    &&& final(self).spec_value() == final(t).object_view()
                },
                None => {
                    &&& T::spec_from_object(old(self).spec_value()) is None
                    &&& final(self).spec_value() == old(self).spec_value()
                },
            },
    {
        T::mut_from_object(&mut self.value)
    }
}

// ---------------------------------------------------------------------------
// Iteration
// ---------------------------------------------------------------------------

#[verifier::external_type_specification]
#[verifier::external_body]
#[verifier::reject_recursive_types(T)]
pub struct ExIterMut<'a, T: 'a>(core::slice::IterMut<'a, T>);

/// The elements that the references a mutable iterator over array elements
/// yields point to, in the order it yields them, as the iterator is made.
pub uninterp spec fn elements_yielded(it: core::slice::IterMut<'_, WafObject>) -> Seq<WafObject>;

/// The entries that the references a mutable iterator over map entries yields
/// point to, in the order it yields them, as the iterator is made.
pub uninterp spec fn entries_yielded(it: core::slice::IterMut<'_, Keyed<WafObject>>) -> Seq<
    Keyed<WafObject>,
>;

/// Calls `<[WafObject]>::iter_mut` on the elements of `v`: the iterator yields a
/// reference to each element, in order, and making it does not change how many
/// elements there are.
#[verifier::external_body]
fn elements_iter_mut<'a>(v: &'a mut Vec<WafObject>) -> (r: core::slice::IterMut<'a, WafObject>)
    ensures
        elements_yielded(r) == old(v)@,
        final(v)@.len() == old(v)@.len(),
    no_unwind
{
    v.iter_mut()
}

/// Calls `<[Keyed<WafObject>]>::iter_mut` on the entries of `v`: the iterator
/// yields a reference to each entry, in order, and making it does not change how
/// many entries there are.
#[verifier::external_body]
fn entries_iter_mut<'a>(v: &'a mut Vec<Keyed<WafObject>>) -> (r: core::slice::IterMut<
    'a,
    Keyed<WafObject>,
>)
    ensures
        entries_yielded(r) == old(v)@,
        final(v)@.len() == old(v)@.len(),
    no_unwind
{
    v.iter_mut()
}

/// Calls `Vec::as_mut_slice`: the slice shows the elements of `v`, what is
/// written through it is what `v` then holds, and a slice cannot change how
/// many elements there are. The call cannot unwind, which lets it borrow a field
/// of a type with an invariant; vstd's own specification of it does not say so.
#[verifier::external_body]
fn vec_as_mut_slice<'a, T>(v: &'a mut Vec<T>) -> (r: &'a mut [T])
    ensures
        r@ == old(v)@,
        final(v)@ == final(r)@,
        final(v)@.len() == old(v)@.len(),
    no_unwind
{
    v.as_mut_slice()
}

impl WafArray {
    /// Returns the elements of this [`WafArray`] as a mutable slice.
    pub fn as_mut_slice(&mut self) -> (r: &mut [WafObject])
        ensures
            r@ == old(self).spec_items(),
            final(self).spec_items() == final(r)@,
            final(self).spec_capacity() == old(self).spec_capacity(),
    {
        proof {
            use_type_invariant(&*self);
        }
        vec_as_mut_slice(&mut self.items)
    }

    /// Returns an iterator over the elements of this [`WafArray`], in order.
    pub fn iter(&self) -> (r: core::slice::Iter<'_, WafObject>)
        ensures
            r.remaining() == self.spec_items().as_ref(),
    {
        broadcast use vstd::std_specs::slice::axiom_spec_slice_iter;

        self.items.as_slice().iter()
    }

    /// Returns a mutable iterator over the elements of this [`WafArray`], in order.
    ///
    /// What is written through the yielded references lands in the array; the
    /// contract does not say so, as vstd gives std's `IterMut` no specification.
    pub fn iter_mut(&mut self) -> (r: core::slice::IterMut<'_, WafObject>)
        ensures
            elements_yielded(r) == old(self).spec_items(),
            final(self).spec_items().len() == old(self).spec_items().len(),
            final(self).spec_capacity() == old(self).spec_capacity(),
    {
        proof {
            use_type_invariant(&*self);
        }
        elements_iter_mut(&mut self.items)
    }
}


impl WafMap {
    /// Returns the entries of this [`WafMap`] as a mutable slice.
    pub fn as_mut_slice(&mut self) -> (r: &mut [Keyed<WafObject>])
        ensures
            r@ == old(self).spec_entries(),
            final(self).spec_entries() == final(r)@,
            final(self).spec_capacity() == old(self).spec_capacity(),
    {
        proof {
            use_type_invariant(&*self);
        }
        vec_as_mut_slice(&mut self.entries)
    }

    /// Returns an iterator over the entries of this [`WafMap`], in order.
    pub fn iter(&self) -> (r: core::slice::Iter<'_, Keyed<WafObject>>)
        ensures
            r.remaining() == self.spec_entries().as_ref(),
    {
        broadcast use vstd::std_specs::slice::axiom_spec_slice_iter;

        self.entries.as_slice().iter()
    }

    /// Returns a mutable iterator over the entries of this [`WafMap`], in order.
    ///
    /// What is written through the yielded references lands in the map; the
    /// contract does not say so, as vstd gives std's `IterMut` no specification.
    pub fn iter_mut(&mut self) -> (r: core::slice::IterMut<'_, Keyed<WafObject>>)
        ensures
            entries_yielded(r) == old(self).spec_entries(),
            final(self).spec_entries().len() == old(self).spec_entries().len(),
            final(self).spec_capacity() == old(self).spec_capacity(),
    {
        proof {
            use_type_invariant(&*self);
        }
        entries_iter_mut(&mut self.entries)
    }
}

impl Keyed<WafArray> {
    /// Returns an iterator over the elements of the entry's array value.
    pub fn iter(&self) -> (r: core::slice::Iter<'_, WafObject>)
        ensures
            r.remaining() == self.spec_value().spec_items().as_ref(),
    {
        self.value.iter()
    }

    /// Returns a mutable iterator over the elements of the entry's array value.
    ///
    /// What is written through the yielded references lands in the entry's array; the
    /// contract does not say so, as vstd gives std's `IterMut` no specification.
    pub fn iter_mut(&mut self) -> (r: core::slice::IterMut<'_, WafObject>)
        ensures
            elements_yielded(r) == old(self).spec_value().spec_items(),
            final(self).spec_key() == old(self).spec_key(),
            final(self).spec_value().spec_items().len() == old(self).spec_value().spec_items().len(),
    {
        self.value.iter_mut()
    }
}

impl Keyed<WafMap> {
    /// Returns an iterator over the entries of the entry's map value.
    pub fn iter(&self) -> (r: core::slice::Iter<'_, Keyed<WafObject>>)
        ensures
            r.remaining() == self.spec_value().spec_entries().as_ref(),
    {
        self.value.iter()
    }

    /// Returns a mutable iterator over the entries of the entry's map value.
    ///
    /// What is written through the yielded references lands in the entry's map; the
    /// contract does not say so, as vstd gives std's `IterMut` no specification.
    pub fn iter_mut(&mut self) -> (r: core::slice::IterMut<'_, Keyed<WafObject>>)
        ensures
            entries_yielded(r) == old(self).spec_value().spec_entries(),
            final(self).spec_key() == old(self).spec_key(),
            final(self).spec_value().spec_entries().len() == old(
                self,
            ).spec_value().spec_entries().len(),
    {
        self.value.iter_mut()
    }
}

impl<T> core::ops::Deref for Keyed<T> {
    type Target = T;

    /// The entry's value.
    fn deref(&self) -> (r: &T)
        ensures
            *r == self.spec_value(),
    {
        &self.value
    }
}

// ---------------------------------------------------------------------------
// Map lookups
// ---------------------------------------------------------------------------

/// The index of the first entry of `entries`, from `start` on, that satisfies
/// `p`, if there is one.
pub open spec fn first_match_from(
    entries: Seq<Keyed<WafObject>>,
    p: spec_fn(Keyed<WafObject>) -> bool,
    start: int,
) -> Option<int>
    decreases entries.len() - start,
{
    if start < 0 || start >= entries.len() {
        None
    } else if p(entries[start]) {
        Some(start)
    } else {
        first_match_from(entries, p, start + 1)
    }
}

/// The index of the first entry of `entries` that satisfies `p`, if there is one.
pub open spec fn first_match(entries: Seq<Keyed<WafObject>>, p: spec_fn(Keyed<WafObject>) -> bool) -> Option<int> {
    first_match_from(entries, p, 0)
}

/// Whether an entry's key is a string with the given bytes.
pub open spec fn key_is_bytes(key: Seq<u8>) -> spec_fn(Keyed<WafObject>) -> bool {
    |e: Keyed<WafObject>| e.spec_key().spec_string_bytes() == Some(key)
}

/// Whether an entry's key equals the given object.
pub open spec fn key_equals(key: WafObject) -> spec_fn(Keyed<WafObject>) -> bool {
    |e: Keyed<WafObject>| obj_eq(e.spec_key(), key)
}

proof fn lemma_first_match_found(entries: Seq<Keyed<WafObject>>, p: spec_fn(Keyed<WafObject>) -> bool, i: int)
    requires
        0 <= i < entries.len(),
        p(entries[i]),
        forall|j: int| 0 <= j < i ==> !p(entries[j]),
    ensures
        first_match(entries, p) == Some(i),
    decreases i,
{
    lemma_first_match_skip(entries, p, 0, i);
}

proof fn lemma_first_match_skip(
    entries: Seq<Keyed<WafObject>>,
    p: spec_fn(Keyed<WafObject>) -> bool,
    start: int,
    i: int,
)
    requires
        0 <= start <= i < entries.len(),
        p(entries[i]),
        forall|j: int| start <= j < i ==> !p(entries[j]),
    ensures
        first_match_from(entries, p, start) == Some(i),
    decreases i - start,
{
    if start < i {
        lemma_first_match_skip(entries, p, start + 1, i);
    }
}

/// What `first_match_from` finds lies in range and satisfies the predicate.
proof fn lemma_first_match_in_range(
    entries: Seq<Keyed<WafObject>>,
    p: spec_fn(Keyed<WafObject>) -> bool,
    start: int,
)
    ensures
        first_match_from(entries, p, start) matches Some(i) ==> start <= i < entries.len() && p(
            entries[i],
        ),
    decreases entries.len() - start,
{
    if 0 <= start < entries.len() && !p(entries[start]) {
        lemma_first_match_in_range(entries, p, start + 1);
    }
}

proof fn lemma_first_match_none(entries: Seq<Keyed<WafObject>>, p: spec_fn(Keyed<WafObject>) -> bool, start: int)
    requires
        0 <= start <= entries.len(),
        forall|j: int| start <= j < entries.len() ==> !p(entries[j]),
    ensures
        first_match_from(entries, p, start) is None,
    decreases entries.len() - start,
{
    if start < entries.len() {
        lemma_first_match_none(entries, p, start + 1);
    }
}

impl WafMap {
    /// Finds the index of the first entry whose key is a string with the given bytes.
    fn find_bstr(&self, key: &[u8]) -> (r: Option<usize>)
        ensures
            match first_match(self.spec_entries(), key_is_bytes(key@)) {
                Some(i) => r matches Some(j) && j == i,
                None => r is None,
            },
            first_match(self.spec_entries(), key_is_bytes(key@)) matches Some(i) ==> 0 <= i
                < self.spec_entries().len(),
    {
        proof {
            lemma_first_match_in_range(self.entries@, key_is_bytes(key@), 0);
        }
        let mut i: usize = 0;
        while i < self.entries.len()
            invariant
                i <= self.entries.len(),
                forall|j: int| 0 <= j < i ==> !key_is_bytes(key@)(self.entries@[j]),
            decreases self.entries.len() - i,
        {
            let matched = match &self.entries[i].key {
                WafObject::String(s) => bytes_equal_slice(s.bytes.as_slice(), key),
                _ => false,
            };
            if matched {
                proof {
                    lemma_first_match_found(self.entries@, key_is_bytes(key@), i as int);
                }
                return Some(i);
            }
            i += 1;
        }
        proof {
            lemma_first_match_none(self.entries@, key_is_bytes(key@), 0);
        }
        None
    }

    /// Finds the index of the first entry whose key equals `key`.
    fn find_key<T: AsRawMutObject>(&self, key: &T) -> (r: Option<usize>)
        ensures
            match first_match(self.spec_entries(), key_equals(key.object_view())) {
                Some(i) => r matches Some(j) && j == i,
                None => r is None,
            },
            first_match(self.spec_entries(), key_equals(key.object_view())) matches Some(i) ==> 0 <= i
                < self.spec_entries().len(),
    {
        proof {
            lemma_first_match_in_range(self.entries@, key_equals(key.object_view()), 0);
        }
        let mut i: usize = 0;
        while i < self.entries.len()
            invariant
                i <= self.entries.len(),
                forall|j: int| 0 <= j < i ==> !key_equals(key.object_view())(self.entries@[j]),
            decreases self.entries.len() - i,
        {
            if refs_equal(self.entries[i].key.as_obj_ref(), key.as_obj_ref()) {
                proof {
                    lemma_first_match_found(self.entries@, key_equals(key.object_view()), i as int);
                }
                return Some(i);
            }
            i += 1;
        }
        proof {
            lemma_first_match_none(self.entries@, key_equals(key.object_view()), 0);
        }
        None
    }

    /// Returns a reference to the first entry whose key equals `key`, if one exists.
    pub fn get<T: AsRawMutObject>(&self, key: &T) -> (r: Option<&Keyed<WafObject>>)
        ensures
            match first_match(self.spec_entries(), key_equals(key.object_view())) {
                Some(i) => r matches Some(e) && *e == self.spec_entries()[i],
                None => r is None,
            },
    {
        match self.find_key(key) {
            Some(i) => Some(&self.entries[i]),
            None => None,
        }
    }

    /// Returns a reference to the first entry whose key is a string with the
    /// given bytes, if one exists.
    pub fn get_bstr(&self, key: &[u8]) -> (r: Option<&Keyed<WafObject>>)
        ensures
            match first_match(self.spec_entries(), key_is_bytes(key@)) {
                Some(i) => r matches Some(e) && *e == self.spec_entries()[i],
                None => r is None,
            },
    {
        match self.find_bstr(key) {
            Some(i) => Some(&self.entries[i]),
            None => None,
        }
    }

    /// Returns a mutable reference to the first entry whose key is a string with
    /// the given bytes, if one exists.
    pub fn get_mut(&mut self, key: &[u8]) -> (r: Option<&mut Keyed<WafObject>>)
        ensures
            final(self).spec_capacity() == old(self).spec_capacity(),
            match first_match(old(self).spec_entries(), key_is_bytes(key@)) {
                Some(i) => r matches Some(e) && *e == old(self).spec_entries()[i]
                    && final(self).spec_entries() == old(self).spec_entries().update(
                    i,
                    *final(e),
                ),
                None => r is None && *final(self) == *old(self),
            },
    {
        match self.find_bstr(key) {
            Some(i) => Some(self.index_mut(i)),
            None => None,
        }
    }

    /// Returns a reference to the first entry whose key is the given string, if
    /// one exists.
    pub fn get_str(&self, key: &str) -> (r: Option<&Keyed<WafObject>>)
        ensures
            match first_match(self.spec_entries(), key_is_bytes(key.spec_bytes())) {
                Some(i) => r matches Some(e) && *e == self.spec_entries()[i],
                None => r is None,
            },
    {
        self.get_bstr(key.as_bytes())
    }

    /// Returns a mutable reference to the first entry whose key is the given
    /// string, if one exists.
    pub fn get_str_mut(&mut self, key: &str) -> (r: Option<&mut Keyed<WafObject>>)
        ensures
            final(self).spec_capacity() == old(self).spec_capacity(),
            match first_match(old(self).spec_entries(), key_is_bytes(key.spec_bytes())) {
                Some(i) => r matches Some(e) && *e == old(self).spec_entries()[i]
                    && final(self).spec_entries() == old(self).spec_entries().update(
                    i,
                    *final(e),
                ),
                None => r is None && *final(self) == *old(self),
            },
    {
        self.get_mut(key.as_bytes())
    }
}

/// Compares two byte slices.
fn bytes_equal_slice(a: &[u8], b: &[u8]) -> (r: bool)
    ensures
        r == (a@ == b@),
{
    if a.len() != b.len() {
        return false;
    }
    let mut i: usize = 0;
    while i < a.len()
        invariant
            i <= a.len(),
            a@.len() == b@.len(),
            forall|j: int| 0 <= j < i ==> a@[j] == b@[j],
        decreases a.len() - i,
    {
        if a[i] != b[i] {
            return false;
        }
        i += 1;
    }
    assert(a@ =~= b@);
    true
}


// ---------------------------------------------------------------------------
// WAF-owned objects
// ---------------------------------------------------------------------------

/// A WAF-owned [`WafObject`] or [`TypedWafObject`] value; the allocator that
/// releases it is encoded in the type parameter `A`.
#[derive(Debug)]
pub struct WafOwned<T, A: AllocatorType = RustAllocator> {
    inner: T,
    _phantom: core::marker::PhantomData<A>,
}

/// WAF-owned objects released with the WAF's default allocator.
pub type WafOwnedDefaultAllocator<T> = WafOwned<T, LibddwafDefaultAllocator>;

/// WAF-owned objects released with the Rust-registered allocator (for outputs).
pub type WafOwnedOutputAllocator<T> = WafOwned<T, RustAllocator>;

impl<T, A: AllocatorType> WafOwned<T, A> {
    /// The owned value.
    pub closed spec fn spec_inner(self) -> T {
        self.inner
    }

    /// Takes ownership of `inner`, to be released with allocator `A`.
    pub fn new(inner: T) -> (r: Self)
        ensures
            r.spec_inner() == inner,
    {
        WafOwned { inner, _phantom: core::marker::PhantomData }
    }

    /// Returns the allocator that releases this value.
    pub fn allocator() -> (r: AllocatorKind)
        ensures
            r == A::spec_allocator(),
    {
        A::allocator()
    }

    /// Returns a mutable reference to the owned value.
    pub fn inner_mut(&mut self) -> (r: &mut T)
        ensures
            *r == old(self).spec_inner(),
            final(self).spec_inner() == *final(r),
    {
        &mut self.inner
    }
}

impl<T: Default, A: AllocatorType> Default for WafOwned<T, A> {
    /// Owns the default value of `T`.
    fn default() -> (r: Self)
        ensures
            call_ensures(T::default, (), r.spec_inner()),
    {
        WafOwned { inner: T::default(), _phantom: core::marker::PhantomData }
    }
}

impl<T, A: AllocatorType> core::ops::Deref for WafOwned<T, A> {
    type Target = T;

    fn deref(&self) -> (r: &T)
        ensures
            *r == self.spec_inner(),
    {
        &self.inner
    }
}

impl<T: AsRawMutObject, A: AllocatorType> AsRawMutObject for WafOwned<T, A> {
    open spec fn object_view(&self) -> WafObject {
        self.spec_inner().object_view()
    }

    fn as_obj_ref(&self) -> (r: ObjRef<'_>) {
        self.inner.as_obj_ref()
    }
}

impl<T: AsRawMutObject, A: AllocatorType> PartialEq<T> for WafOwned<T, A> {
    fn eq(&self, other: &T) -> (r: bool) {
        refs_equal(self.inner.as_obj_ref(), other.as_obj_ref())
    }
}

impl<T: AsRawMutObject, A: AllocatorType> vstd::std_specs::cmp::PartialEqSpecImpl<T> for WafOwned<T, A> {
    open spec fn obeys_eq_spec() -> bool {
        true
    }

    open spec fn eq_spec(&self, other: &T) -> bool {
        obj_eq(self.object_view(), other.object_view())
    }
}


// ---------------------------------------------------------------------------
// Error messages
// ---------------------------------------------------------------------------

impl UnknownObjectTypeError {
    /// Returns the message describing the error: `Unknown object type: ` and
    /// the tag in decimal.
    pub fn message(&self) -> (r: String)
        ensures
            r@ == "Unknown object type: "@ + dec_nat(self.0 as nat),
    {
        let mut s = String::new();
        push_str(&mut s, "Unknown object type: ");
        push_dec(&mut s, self.0 as u64);
        s
    }
}

impl ObjectTypeError {
    /// Returns the message describing the error: the expected and the actual
    /// type, by name.
    pub fn message(&self) -> (r: String)
        ensures
            r@ == "Invalid object type (expected "@ + self.expected.spec_name() + ", got "@
                + self.actual.spec_name() + ")"@,
    {
        let mut s = String::new();
        push_str(&mut s, "Invalid object type (expected ");
        push_str(&mut s, self.expected.name());
        push_str(&mut s, ", got ");
        push_str(&mut s, self.actual.name());
        push_str(&mut s, ")");
        s
    }
}

impl LengthTooLargeError {
    /// Returns the message describing the error: the length and the maximum, in
    /// decimal.
    pub fn message(&self) -> (r: String)
        ensures
            r@ == "Length "@ + dec_nat(self.length as nat) + " exceeds maximum allowed "@
                + dec_nat(self.max_length as nat),
    {
        let mut s = String::new();
        push_str(&mut s, "Length ");
        push_dec(&mut s, self.length as u64);
        push_str(&mut s, " exceeds maximum allowed ");
        push_dec(&mut s, self.max_length as u64);
        s
    }
}


} // verus!
