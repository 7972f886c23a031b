//! Type and status codes of the WAF's object representation, and the raw-level
//! queries on objects.
use vstd::prelude::*;

use crate::object::{spec_type_from_raw, StrKind, WafObject, WafObjectType};
use crate::object::debug::{lossy_utf8, raw_debug_text, str_debug};

verus! {

/// Type tag of a WAF object, as the WAF encodes it.
#[allow(non_camel_case_types)]
pub type DDWAF_OBJ_TYPE = u32;

pub const DDWAF_OBJ_INVALID: DDWAF_OBJ_TYPE = 0x00;
pub const DDWAF_OBJ_NULL: DDWAF_OBJ_TYPE = 0x01;
pub const DDWAF_OBJ_BOOL: DDWAF_OBJ_TYPE = 0x02;
pub const DDWAF_OBJ_SIGNED: DDWAF_OBJ_TYPE = 0x04;
pub const DDWAF_OBJ_UNSIGNED: DDWAF_OBJ_TYPE = 0x06;
pub const DDWAF_OBJ_FLOAT: DDWAF_OBJ_TYPE = 0x08;
/// Heap-allocated string; also the bit shared by every string representation.
pub const DDWAF_OBJ_STRING: DDWAF_OBJ_TYPE = 0x10;
pub const DDWAF_OBJ_LITERAL_STRING: DDWAF_OBJ_TYPE = 0x12;
pub const DDWAF_OBJ_SMALL_STRING: DDWAF_OBJ_TYPE = 0x14;
pub const DDWAF_OBJ_ARRAY: DDWAF_OBJ_TYPE = 0x20;
pub const DDWAF_OBJ_MAP: DDWAF_OBJ_TYPE = 0x40;

/// Status code returned by an evaluation of the WAF.
#[allow(non_camel_case_types)]
pub type DDWAF_RET_CODE = i32;

pub const DDWAF_ERR_INTERNAL: DDWAF_RET_CODE = -3;
pub const DDWAF_ERR_INVALID_OBJECT: DDWAF_RET_CODE = -2;
pub const DDWAF_ERR_INVALID_ARGUMENT: DDWAF_RET_CODE = -1;
pub const DDWAF_OK: DDWAF_RET_CODE = 0;
pub const DDWAF_MATCH: DDWAF_RET_CODE = 1;


/// The type tag of an object as the WAF encodes it; strings are tagged by how
/// their bytes are held.
pub open spec fn raw_type(o: WafObject) -> DDWAF_OBJ_TYPE {
    match o {
        WafObject::String(x) => match x.spec_kind() {
            StrKind::Heap => DDWAF_OBJ_STRING,
            StrKind::Literal => DDWAF_OBJ_LITERAL_STRING,
            StrKind::Small => DDWAF_OBJ_SMALL_STRING,
        },
        _ => o.spec_object_type().spec_as_raw(),
    }
}

impl WafObject {
    /// Returns the type tag of this object as the WAF encodes it.
    pub fn obj_type(&self) -> (r: DDWAF_OBJ_TYPE)
        ensures
            r == raw_type(*self),
    {
        match self {
            WafObject::String(x) => match x.kind() {
                StrKind::Heap => DDWAF_OBJ_STRING,
                StrKind::Literal => DDWAF_OBJ_LITERAL_STRING,
                StrKind::Small => DDWAF_OBJ_SMALL_STRING,
            },
            _ => self.object_type().as_raw(),
        }
    }

    /// Returns true if the type tag of this object has the string bit set, which
    /// is the case exactly for strings, however their bytes are held.
    pub fn is_string(&self) -> (r: bool)
        ensures
            r == (raw_type(*self) & DDWAF_OBJ_STRING != 0),
            r == (self.spec_object_type() == WafObjectType::String),
    {
        proof {
            lemma_string_bit(*self);
        }
        self.obj_type() & DDWAF_OBJ_STRING != 0
    }
}

/// The string bit is set in the tag of every string and of nothing else.
pub proof fn lemma_string_bit(o: WafObject)
    ensures
        (raw_type(o) & DDWAF_OBJ_STRING != 0) == (o.spec_object_type() == WafObjectType::String),
{
    let t = raw_type(o);
    assert(t == 0x00 || t == 0x01 || t == 0x02 || t == 0x04 || t == 0x06 || t == 0x08 || t
        == 0x20 || t == 0x40 ==> t & 0x10 == 0) by (bit_vector);
    assert(t == 0x10 || t == 0x12 || t == 0x14 ==> t & 0x10 != 0) by (bit_vector);
    match o {
        WafObject::String(x) => {
            assert(t == 0x10 || t == 0x12 || t == 0x14);
        },
        _ => {},
    }
}

/// Decoding the tag of an object gives back the object's type.
pub proof fn lemma_raw_type_decodes(o: WafObject)
    ensures
        spec_type_from_raw(raw_type(o)) == Ok::<WafObjectType, crate::object::UnknownObjectTypeError>(
            o.spec_object_type(),
        ),
{
    match o {
        WafObject::String(x) => {},
        _ => {},
    }
}

/// Decoding the tag of a type gives back the type.
pub proof fn lemma_as_raw_decodes(t: WafObjectType)
    ensures
        spec_type_from_raw(t.spec_as_raw()) == Ok::<WafObjectType, crate::object::UnknownObjectTypeError>(t),
{
}


/// The name of a string, null or invalid type tag, between double quotes, as
/// the raw rendering writes it (nothing for other tags).
pub open spec fn raw_tag_name(tag: DDWAF_OBJ_TYPE) -> Seq<char> {
    if tag == DDWAF_OBJ_STRING {
        "\"DDWAF_OBJ_STRING\""@
    } else if tag == DDWAF_OBJ_LITERAL_STRING {
        "\"DDWAF_OBJ_LITERAL_STRING\""@
    } else if tag == DDWAF_OBJ_SMALL_STRING {
        "\"DDWAF_OBJ_SMALL_STRING\""@
    } else if tag == DDWAF_OBJ_NULL {
        "\"DDWAF_OBJ_NULL\""@
    } else if tag == DDWAF_OBJ_INVALID {
        "\"DDWAF_OBJ_INVALID\""@
    } else {
        Seq::empty()
    }
}

/// The raw rendering of a string names the string's own type tag (a heap
/// string is `DDWAF_OBJ_STRING`, a literal `DDWAF_OBJ_LITERAL_STRING`, an inline
/// one `DDWAF_OBJ_SMALL_STRING`) and shows its bytes, decoded and escaped as std
/// renders a `str`; a null or invalid object's names its tag alone.
pub proof fn lemma_raw_rendering_names_tag(o: WafObject, fd: spec_fn(u64) -> Seq<char>)
    ensures
        o.spec_object_type() == WafObjectType::String ==> raw_debug_text(o, fd) == "ddwaf_object { type: "@
            + raw_tag_name(raw_type(o)) + ", string: "@ + str_debug(
            lossy_utf8(o.spec_string_bytes()->0),
        ) + ", .. }"@,
        o.spec_object_type() == WafObjectType::Null || o.spec_object_type()
            == WafObjectType::Invalid ==> raw_debug_text(o, fd) == "ddwaf_object { type: "@
            + raw_tag_name(raw_type(o)) + ", .. }"@,
{
    match o {
        WafObject::String(x) => {
            assert(raw_debug_text(o, fd) =~= "ddwaf_object { type: "@ + raw_tag_name(raw_type(o))
                + ", string: "@ + str_debug(lossy_utf8(o.spec_string_bytes()->0)) + ", .. }"@);
        },
        _ => {},
    }
}

} // verus!
