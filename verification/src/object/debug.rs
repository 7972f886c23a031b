//! Debug renderings of objects: the library's own layout, and the layout of the
//! WAF's representation; doubles are rendered by a formatter the caller supplies.
use vstd::prelude::*;

use crate::object::{
    AsRawMutObject, Keyed, ObjRef, StrKind, WafArray, WafBool, WafFloat, WafInvalid, WafMap,
    WafNull, WafObject, WafSigned, WafUnsigned,
};
use crate::text::{
    dec_int, dec_nat, escape_bytes, push_dec, push_dec_signed, push_escaped, push_str,
};

verus! {

// ---------------------------------------------------------------------------
// Debug rendering
// ---------------------------------------------------------------------------

/// The text a float formatter gives for the double with bits `b`.
pub open spec fn float_rendering<F: Fn(u64) -> String>(f: F) -> spec_fn(u64) -> Seq<char> {
    |b: u64| (choose|t: String| call_ensures(f, (b,), t))@
}

/// A float formatter that accepts every double and always renders it the same way.
pub open spec fn is_float_formatter<F: Fn(u64) -> String>(f: F) -> bool {
    &&& forall|b: u64| call_requires(f, (b,))
    &&& forall|b: u64, t1: String, t2: String|
        call_ensures(f, (b,), t1) && call_ensures(f, (b,), t2) ==> t1@ == t2@
}

/// The debug rendering of an object, doubles rendered by `ft`:
/// `WafInvalid`, `WafNull`, `WafSigned(-2)`, `WafUnsigned(42)`, `WafBool(true)`,
/// `WafFloat(..)`, `WafString("..")` with its bytes escaped, `WafArray[..]` with
/// the elements and `WafMap{..}` with the entries separated by `, `.
pub open spec fn debug_text(o: WafObject, ft: spec_fn(u64) -> Seq<char>) -> Seq<char>
    decreases o, 0nat,
{
    match o {
        WafObject::Invalid(_) => "WafInvalid"@,
        WafObject::Null(_) => "WafNull"@,
        WafObject::Signed(x) => "WafSigned("@ + dec_int(x.spec_value() as int) + ")"@,
        WafObject::Unsigned(x) => "WafUnsigned("@ + dec_nat(x.spec_value() as nat) + ")"@,
        WafObject::Bool(x) => if x.spec_value() {
            "WafBool(true)"@
        } else {
            "WafBool(false)"@
        },
        WafObject::Float(x) => "WafFloat("@ + ft(x.spec_bits()) + ")"@,
        WafObject::String(x) => "WafString(\""@ + escape_bytes(x.spec_bytes()) + "\")"@,
        WafObject::Array(x) => "WafArray["@ + array_text(x, x.spec_items().len(), ft) + "]"@,
        WafObject::Mapping(x) => "WafMap{"@ + map_text(x, x.spec_entries().len(), ft) + "}"@,
    }
}

/// The rendering of an entry's key: a string key as its escaped bytes between
/// double quotes, any other key as its debug rendering.
pub open spec fn key_text(k: WafObject, ft: spec_fn(u64) -> Seq<char>) -> Seq<char>
    decreases k, 1nat,
{
    match k {
        WafObject::String(x) => "\""@ + escape_bytes(x.spec_bytes()) + "\""@,
        _ => debug_text(k, ft),
    }
}

/// The renderings of the first `n` elements of an array, separated by `, `
/// (nothing when `n` is out of range).
pub open spec fn array_text(x: WafArray, n: nat, ft: spec_fn(u64) -> Seq<char>) -> Seq<char>
    decreases x, n,
{
    if n == 0 || n > x.spec_items().len() {
        Seq::empty()
    } else {
        proof {
            assert(decreases_to!(x => x.spec_items()[n - 1]));
        }
        if n == 1 {
            debug_text(x.spec_items()[0], ft)
        } else {
            array_text(x, (n - 1) as nat, ft) + ", "@ + debug_text(x.spec_items()[n - 1], ft)
        }
    }
}

/// The renderings of the first `n` entries of a map, separated by `, `; an entry
/// renders as its key, `=`, and its value (nothing when `n` is out of range).
pub open spec fn map_text(x: WafMap, n: nat, ft: spec_fn(u64) -> Seq<char>) -> Seq<char>
    decreases x, n,
{
    if n == 0 || n > x.spec_entries().len() {
        Seq::empty()
    } else {
        proof {
            assert(decreases_to!(x => x.spec_entries()[n - 1].spec_key()));
            assert(decreases_to!(x => x.spec_entries()[n - 1].spec_value()));
        }
        let e = key_text(x.spec_entries()[n - 1].spec_key(), ft) + "="@ + debug_text(
            x.spec_entries()[n - 1].spec_value(),
            ft,
        );
        if n == 1 {
            e
        } else {
            map_text(x, (n - 1) as nat, ft) + ", "@ + e
        }
    }
}

/// The debug rendering of an entry: its key, `=`, and its value.
pub open spec fn entry_text<T: AsRawMutObject>(e: Keyed<T>, ft: spec_fn(u64) -> Seq<char>) -> Seq<char> {
    key_text(e.spec_key(), ft) + "="@ + debug_text(e.spec_value().object_view(), ft)
}

/// Appends the debug rendering of an object.
fn push_object<F: Fn(u64) -> String>(s: &mut String, o: &WafObject, ft: &F)
    requires
        is_float_formatter(*ft),
    ensures
        final(s)@ == old(s)@ + debug_text(*o, float_rendering(*ft)),
    decreases *o, 0nat,
{
    match o {
        WafObject::Invalid(_) => push_str(s, "WafInvalid"),
        WafObject::Null(_) => push_str(s, "WafNull"),
        WafObject::Signed(x) => {
            push_str(s, "WafSigned(");
            push_dec_signed(s, x.val);
            push_str(s, ")");
        },
        WafObject::Unsigned(x) => {
            push_str(s, "WafUnsigned(");
            push_dec(s, x.val);
            push_str(s, ")");
        },
        WafObject::Bool(x) => if x.val {
            push_str(s, "WafBool(true)");
        } else {
            push_str(s, "WafBool(false)");
        },
        WafObject::Float(x) => {
            push_str(s, "WafFloat(");
            let t = ft(x.bits);
            push_str(s, t.as_str());
            push_str(s, ")");
        },
        WafObject::String(x) => {
            push_str(s, "WafString(\"");
            push_escaped(s, x.bytes.as_slice());
            push_str(s, "\")");
        },
        WafObject::Array(x) => push_array(s, x, ft),
        WafObject::Mapping(x) => push_map(s, x, ft),
    }
    assert(final(s)@ =~= old(s)@ + debug_text(*o, float_rendering(*ft)));
}

/// Appends the rendering of an entry's key.
fn push_key<F: Fn(u64) -> String>(s: &mut String, k: &WafObject, ft: &F)
    requires
        is_float_formatter(*ft),
    ensures
        final(s)@ == old(s)@ + key_text(*k, float_rendering(*ft)),
    decreases *k, 1nat,
{
    match k {
        WafObject::String(x) => {
            push_str(s, "\"");
            push_escaped(s, x.bytes.as_slice());
            push_str(s, "\"");
            assert(final(s)@ =~= old(s)@ + key_text(*k, float_rendering(*ft)));
        },
        _ => push_object(s, k, ft),
    }
}

/// Appends the debug rendering of an array.
#[verifier::loop_isolation(false)]
fn push_array<F: Fn(u64) -> String>(s: &mut String, x: &WafArray, ft: &F)
    requires
        is_float_formatter(*ft),
    ensures
        final(s)@ == old(s)@ + "WafArray["@ + array_text(*x, x.items@.len(), float_rendering(*ft))
            + "]"@,
    decreases *x, 2nat,
{
    push_str(s, "WafArray[");
    let ghost start = s@;
    let mut i: usize = 0;
    while i < x.items.len()
        invariant
            i <= x.items.len(),
            s@ == start + array_text(*x, i as nat, float_rendering(*ft)),
        decreases x.items.len() - i,
    {
        assert(decreases_to!(*x => x.items@[i as int]));
        if i > 0 {
            push_str(s, ", ");
        }
        push_object(s, &x.items[i], ft);
        i += 1;
        assert(s@ =~= start + array_text(*x, i as nat, float_rendering(*ft)));
    }
    push_str(s, "]");
    assert(final(s)@ =~= old(s)@ + "WafArray["@ + array_text(
        *x,
        x.items@.len(),
        float_rendering(*ft),
    ) + "]"@);
}

/// Appends the debug rendering of a map.
#[verifier::loop_isolation(false)]
fn push_map<F: Fn(u64) -> String>(s: &mut String, x: &WafMap, ft: &F)
    requires
        is_float_formatter(*ft),
    ensures
        final(s)@ == old(s)@ + "WafMap{"@ + map_text(*x, x.entries@.len(), float_rendering(*ft))
            + "}"@,
    decreases *x, 2nat,
{
    push_str(s, "WafMap{");
    let ghost start = s@;
    let mut i: usize = 0;
    while i < x.entries.len()
        invariant
            i <= x.entries.len(),
            s@ == start + map_text(*x, i as nat, float_rendering(*ft)),
        decreases x.entries.len() - i,
    {
        assert(decreases_to!(*x => x.entries@[i as int].key));
        assert(decreases_to!(*x => x.entries@[i as int].value));
        if i > 0 {
            push_str(s, ", ");
        }
        push_key(s, &x.entries[i].key, ft);
        push_str(s, "=");
        push_object(s, &x.entries[i].value, ft);
        i += 1;
        assert(s@ =~= start + map_text(*x, i as nat, float_rendering(*ft)));
    }
    push_str(s, "}");
    assert(final(s)@ =~= old(s)@ + "WafMap{"@ + map_text(
        *x,
        x.entries@.len(),
        float_rendering(*ft),
    ) + "}"@);
}


/// Appends the debug rendering of the object a view shows.
pub(super) fn push_ref<F: Fn(u64) -> String>(s: &mut String, o: ObjRef, ft: &F)
    requires
        is_float_formatter(*ft),
    ensures
        final(s)@ == old(s)@ + debug_text(o.to_object(), float_rendering(*ft)),
{
    match o {
        ObjRef::Invalid => push_object(s, &WafObject::Invalid(WafInvalid {  }), ft),
        ObjRef::Null => push_object(s, &WafObject::Null(WafNull {  }), ft),
        ObjRef::Signed(v) => push_object(s, &WafObject::Signed(WafSigned { val: v }), ft),
        ObjRef::Unsigned(v) => push_object(s, &WafObject::Unsigned(WafUnsigned { val: v }), ft),
        ObjRef::Bool(v) => push_object(s, &WafObject::Bool(WafBool { val: v }), ft),
        ObjRef::Float(b) => push_object(s, &WafObject::Float(WafFloat { bits: b }), ft),
        ObjRef::String(x) => {
            push_str(s, "WafString(\"");
            push_escaped(s, x.bytes.as_slice());
            push_str(s, "\")");
            assert(final(s)@ =~= old(s)@ + debug_text(o.to_object(), float_rendering(*ft)));
        },
        ObjRef::Array(x) => {
            push_array(s, x, ft);
            assert(final(s)@ =~= old(s)@ + debug_text(o.to_object(), float_rendering(*ft)));
        },
        ObjRef::Mapping(x) => {
            push_map(s, x, ft);
            assert(final(s)@ =~= old(s)@ + debug_text(o.to_object(), float_rendering(*ft)));
        },
    }
}

impl<T: AsRawMutObject> Keyed<T> {
    /// Returns the debug rendering of this entry, doubles rendered by
    /// `float_text` from their bits.
    pub fn debug_string<F: Fn(u64) -> String>(&self, float_text: &F) -> (r: String)
        requires
            is_float_formatter(*float_text),
        ensures
            r@ == entry_text(*self, float_rendering(*float_text)),
    {
        let mut s = String::new();
        push_key(&mut s, &self.key, float_text);
        push_str(&mut s, "=");
        push_ref(&mut s, self.value.as_obj_ref(), float_text);
        assert(s@ =~= entry_text(*self, float_rendering(*float_text)));
        s
    }
}


// ---------------------------------------------------------------------------
// Raw debug rendering
// ---------------------------------------------------------------------------

/// The characters `String::from_utf8_lossy` makes of `bytes`.
pub uninterp spec fn lossy_utf8(bytes: Seq<u8>) -> Seq<char>;

/// The `{:?}` rendering std gives of a string slice with characters `chars`.
pub uninterp spec fn str_debug(chars: Seq<char>) -> Seq<char>;

/// Calls `String::from_utf8_lossy`; its result depends on `bytes` alone.
#[verifier::external_body]
fn utf8_lossy(bytes: &[u8]) -> (r: String)
    ensures
        r@ == lossy_utf8(bytes@),
{
    String::from_utf8_lossy(bytes).into_owned()
}

/// Renders `s` with `{:?}` (std's `Debug` for `str`); the result depends on `s`
/// alone.
#[verifier::external_body]
fn debug_of_str(s: &str) -> (r: String)
    ensures
        r@ == str_debug(s@),
{
    format!("{:?}", s)
}

/// The quoted name of the raw type of a string held this way.
pub open spec fn raw_string_type(kind: StrKind) -> Seq<char> {
    match kind {
        StrKind::Heap => "\"DDWAF_OBJ_STRING\""@,
        StrKind::Literal => "\"DDWAF_OBJ_LITERAL_STRING\""@,
        StrKind::Small => "\"DDWAF_OBJ_SMALL_STRING\""@,
    }
}

/// The raw debug rendering of an object, as std's `debug_struct` lays out the
/// WAF's own representation: `ddwaf_object { type: "DDWAF_OBJ_..", .. }` with the
/// value as a field (`boolean`, `f64` rendered by `fd`, `int`, `uint`, `string`
/// decoded lossily and rendered as a `str`, `array` and `map` as lists).
pub open spec fn raw_debug_text(o: WafObject, fd: spec_fn(u64) -> Seq<char>) -> Seq<char>
    decreases o, 0nat,
{
    let body = match o {
        WafObject::Bool(x) => "\"DDWAF_OBJ_BOOL\", boolean: "@ + if x.spec_value() {
            "true"@
        } else {
            "false"@
        },
        WafObject::Float(x) => "\"DDWAF_OBJ_FLOAT\", f64: "@ + fd(x.spec_bits()),
        WafObject::Signed(x) => "\"DDWAF_OBJ_SIGNED\", int: "@ + dec_int(x.spec_value() as int),
        WafObject::Unsigned(x) => "\"DDWAF_OBJ_UNSIGNED\", uint: "@ + dec_nat(x.spec_value() as nat),
        WafObject::String(x) => raw_string_type(x.spec_kind()) + ", string: "@ + str_debug(
            lossy_utf8(x.spec_bytes()),
        ),
        WafObject::Array(x) => "\"DDWAF_OBJ_ARRAY\", array: ["@ + raw_array_text(
            x,
            x.spec_items().len(),
            fd,
        ) + "]"@,
        WafObject::Mapping(x) => "\"DDWAF_OBJ_MAP\", map: ["@ + raw_map_text(
            x,
            x.spec_entries().len(),
            fd,
        ) + "]"@,
        WafObject::Null(_) => "\"DDWAF_OBJ_NULL\""@,
        WafObject::Invalid(_) => "\"DDWAF_OBJ_INVALID\""@,
    };
    "ddwaf_object { type: "@ + body + ", .. }"@
}

/// The raw renderings of the first `n` elements of an array, separated by `, `
/// (nothing when `n` is out of range).
pub open spec fn raw_array_text(x: WafArray, n: nat, fd: spec_fn(u64) -> Seq<char>) -> Seq<
    char,
>
    decreases x, n,
{
    if n == 0 || n > x.spec_items().len() {
        Seq::empty()
    } else {
        proof {
            assert(decreases_to!(x => x.spec_items()[n - 1]));
        }
        if n == 1 {
            raw_debug_text(x.spec_items()[0], fd)
        } else {
            raw_array_text(x, (n - 1) as nat, fd) + ", "@ + raw_debug_text(x.spec_items()[n - 1], fd)
        }
    }
}

/// The raw renderings of the first `n` entries of a map, separated by `, `, each
/// as `ddwaf_object_kv { key: .., val: .., .. }` (nothing when `n` is out of
/// range).
pub open spec fn raw_map_text(x: WafMap, n: nat, fd: spec_fn(u64) -> Seq<char>) -> Seq<char>
    decreases x, n,
{
    if n == 0 || n > x.spec_entries().len() {
        Seq::empty()
    } else {
        proof {
            assert(decreases_to!(x => x.spec_entries()[n - 1].spec_key()));
            assert(decreases_to!(x => x.spec_entries()[n - 1].spec_value()));
        }
        let e = "ddwaf_object_kv { key: "@ + raw_debug_text(x.spec_entries()[n - 1].spec_key(), fd)
            + ", val: "@ + raw_debug_text(x.spec_entries()[n - 1].spec_value(), fd) + ", .. }"@;
        if n == 1 {
            e
        } else {
            raw_map_text(x, (n - 1) as nat, fd) + ", "@ + e
        }
    }
}

/// Appends the raw debug rendering of an object.
fn push_raw_object<F: Fn(u64) -> String>(s: &mut String, o: &WafObject, fd: &F)
    requires
        is_float_formatter(*fd),
    ensures
        final(s)@ == old(s)@ + raw_debug_text(*o, float_rendering(*fd)),
    decreases *o, 1nat,
{
    let ghost start = s@;
    push_str(s, "ddwaf_object { type: ");
    let ghost mid = s@;
    match o {
        WafObject::Bool(x) => {
            push_str(s, "\"DDWAF_OBJ_BOOL\", boolean: ");
            if x.val {
                push_str(s, "true");
            } else {
                push_str(s, "false");
            }
        },
        WafObject::Float(x) => {
            push_str(s, "\"DDWAF_OBJ_FLOAT\", f64: ");
            let t = fd(x.bits);
            push_str(s, t.as_str());
        },
        WafObject::Signed(x) => {
            push_str(s, "\"DDWAF_OBJ_SIGNED\", int: ");
            push_dec_signed(s, x.val);
        },
        WafObject::Unsigned(x) => {
            push_str(s, "\"DDWAF_OBJ_UNSIGNED\", uint: ");
            push_dec(s, x.val);
        },
        WafObject::String(x) => {
            match x.kind {
                StrKind::Heap => push_str(s, "\"DDWAF_OBJ_STRING\""),
                StrKind::Literal => push_str(s, "\"DDWAF_OBJ_LITERAL_STRING\""),
                StrKind::Small => push_str(s, "\"DDWAF_OBJ_SMALL_STRING\""),
            }
            push_str(s, ", string: ");
            let lossy = utf8_lossy(x.bytes.as_slice());
            let rendered = debug_of_str(lossy.as_str());
            push_str(s, rendered.as_str());
        },
        WafObject::Array(x) => {
            push_str(s, "\"DDWAF_OBJ_ARRAY\", array: [");
            push_raw_items(s, x, fd);
            push_str(s, "]");
        },
        WafObject::Mapping(x) => {
            push_str(s, "\"DDWAF_OBJ_MAP\", map: [");
            push_raw_entries(s, x, fd);
            push_str(s, "]");
        },
        WafObject::Null(_) => push_str(s, "\"DDWAF_OBJ_NULL\""),
        WafObject::Invalid(_) => push_str(s, "\"DDWAF_OBJ_INVALID\""),
    }
    push_str(s, ", .. }");
    assert(final(s)@ =~= old(s)@ + raw_debug_text(*o, float_rendering(*fd)));
}

/// Appends the raw renderings of the elements of an array, separated by `, `.
#[verifier::loop_isolation(false)]
fn push_raw_items<F: Fn(u64) -> String>(s: &mut String, x: &WafArray, fd: &F)
    requires
        is_float_formatter(*fd),
    ensures
        final(s)@ == old(s)@ + raw_array_text(*x, x.items@.len(), float_rendering(*fd)),
    decreases *x, 0nat,
{
    let ghost start = s@;
    let mut i: usize = 0;
    while i < x.items.len()
        invariant
            i <= x.items.len(),
            s@ == start + raw_array_text(*x, i as nat, float_rendering(*fd)),
        decreases x.items.len() - i,
    {
        assert(decreases_to!(*x => x.items@[i as int]));
        if i > 0 {
            push_str(s, ", ");
        }
        push_raw_object(s, &x.items[i], fd);
        i += 1;
        assert(s@ =~= start + raw_array_text(*x, i as nat, float_rendering(*fd)));
    }
}

/// Appends the raw renderings of the entries of a map, separated by `, `.
#[verifier::loop_isolation(false)]
#[verifier::spinoff_prover]
#[verifier::rlimit(40)]
fn push_raw_entries<F: Fn(u64) -> String>(s: &mut String, x: &WafMap, fd: &F)
    requires
        is_float_formatter(*fd),
    ensures
        final(s)@ == old(s)@ + raw_map_text(*x, x.entries@.len(), float_rendering(*fd)),
    decreases *x, 0nat,
{
    let ghost start = s@;
    let mut i: usize = 0;
    while i < x.entries.len()
        invariant
            i <= x.entries.len(),
            s@ == start + raw_map_text(*x, i as nat, float_rendering(*fd)),
        decreases x.entries.len() - i,
    {
        assert(decreases_to!(*x => x.entries@[i as int].key));
        assert(decreases_to!(*x => x.entries@[i as int].value));
        if i > 0 {
            push_str(s, ", ");
        }
        push_str(s, "ddwaf_object_kv { key: ");
        push_raw_object(s, &x.entries[i].key, fd);
        push_str(s, ", val: ");
        push_raw_object(s, &x.entries[i].value, fd);
        push_str(s, ", .. }");
        i += 1;
        assert(s@ =~= start + raw_map_text(*x, i as nat, float_rendering(*fd)));
    }
}

impl WafObject {
    /// Returns the raw debug rendering of this object (the layout of the WAF's
    /// own representation), doubles rendered by `float_debug` from their bits.
    pub fn raw_debug_string<F: Fn(u64) -> String>(&self, float_debug: &F) -> (r: String)
        requires
            is_float_formatter(*float_debug),
        ensures
            r@ == raw_debug_text(*self, float_rendering(*float_debug)),
    {
        let mut s = String::new();
        push_raw_object(&mut s, self, float_debug);
        s
    }
}

} // verus!
