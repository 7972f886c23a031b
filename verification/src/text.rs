//! Text building blocks: the std string operations the library relies on, and the
//! decimal, hexadecimal and escaped renderings used by debug output and messages.
use vstd::prelude::*;

use vstd::string::{StringExecFns, StringSliceAdditionalSpecFns};
use vstd::utf8::valid_utf8;

verus! {

#[verifier::external_type_specification]
#[verifier::external_body]
pub struct ExUtf8Error(core::str::Utf8Error);

/// Calls `std::str::from_utf8`, which succeeds exactly when `bytes` is valid
/// UTF-8 and then returns a string slice made of those very bytes.
#[verifier::external_body]
pub fn str_from_utf8(bytes: &[u8]) -> (r: Result<&str, core::str::Utf8Error>)
    ensures
        r is Ok <==> valid_utf8(bytes@),
        r matches Ok(s) ==> s.spec_bytes() == bytes@,
{
    core::str::from_utf8(bytes)
}

/// Appends the characters of `t` to `s`.
pub fn push_str(s: &mut String, t: &str)
    ensures
        final(s)@ == old(s)@ + t@,
{
    s.append(t);
}

/// Calls `String::push`, which appends the character `c` to `s`.
#[verifier::external_body]
pub fn push_char(s: &mut String, c: char)
    ensures
        final(s)@ == old(s)@.push(c),
{
    s.push(c)
}

/// The decimal digit `d` (0 to 9) as a character.
pub open spec fn digit_char(d: int) -> char {
    (48 + d) as char
}

/// The decimal rendering of a natural number, without leading zeros.
pub open spec fn dec_nat(n: nat) -> Seq<char>
    decreases n,
{
    if n < 10 {
        seq![digit_char(n as int)]
    } else {
        dec_nat(n / 10).push(digit_char((n % 10) as int))
    }
}

/// The decimal rendering of an integer, with a leading `-` when negative.
pub open spec fn dec_int(v: int) -> Seq<char> {
    if v < 0 {
        seq!['-'] + dec_nat((-v) as nat)
    } else {
        dec_nat(v as nat)
    }
}

/// The upper-case hexadecimal digit `d` (0 to 15) as a character.
pub open spec fn hex_digit(d: int) -> char {
    if d < 10 {
        (48 + d) as char
    } else {
        (55 + d) as char
    }
}

/// The rendering of one byte in an escaped byte string: `"` and `\` are preceded
/// by `\`, printable ASCII (a graphic character or a space) stands for itself,
/// and any other byte is written `\xHH` in upper-case hexadecimal.
pub open spec fn escape_byte(c: u8) -> Seq<char> {
    if c == 34 || c == 92 {
        seq!['\\', c as char]
    } else if (33 <= c && c <= 126) || c == 32 {
        seq![c as char]
    } else {
        seq!['\\', 'x', hex_digit(c as int / 16), hex_digit(c as int % 16)]
    }
}

/// The escaped rendering of a byte string, byte by byte.
pub open spec fn escape_bytes(s: Seq<u8>) -> Seq<char>
    decreases s.len(),
{
    if s.len() == 0 {
        seq![]
    } else {
        escape_bytes(s.drop_last()) + escape_byte(s.last())
    }
}

/// Appends the decimal rendering of `n`.
pub fn push_dec(s: &mut String, n: u64)
    ensures
        final(s)@ == old(s)@ + dec_nat(n as nat),
    decreases n,
{
    if n >= 10 {
        push_dec(s, n / 10);
    }
    let d: u8 = (n % 10) as u8;
    push_char(s, (d + 48) as char);
    proof {
        if n >= 10 {
            assert(old(s)@ + dec_nat(n as nat) =~= old(s)@ + dec_nat((n / 10) as nat) + seq![
                digit_char((n % 10) as int),
            ]);
        } else {
            assert(old(s)@ + dec_nat(n as nat) =~= old(s)@.push(digit_char(n as int)));
        }
    }
}

/// Appends the decimal rendering of `v`.
pub fn push_dec_signed(s: &mut String, v: i64)
    ensures
        final(s)@ == old(s)@ + dec_int(v as int),
{
    if v < 0 {
        push_char(s, '-');
        let m: u64 = (-(v as i128)) as u64;
        push_dec(s, m);
        assert(final(s)@ =~= old(s)@ + dec_int(v as int));
    } else {
        push_dec(s, v as u64);
    }
}

/// The upper-case hexadecimal digit for `d` (0 to 15).
fn hex_char(d: u8) -> (r: char)
    requires
        d < 16,
    ensures
        r == hex_digit(d as int),
{
    if d < 10 {
        (d + 48) as char
    } else {
        (d + 55) as char
    }
}

/// Appends the escaped rendering of `bytes`.
pub fn push_escaped(s: &mut String, bytes: &[u8])
    ensures
        final(s)@ == old(s)@ + escape_bytes(bytes@),
{
    let mut i: usize = 0;
    while i < bytes.len()
        invariant
            i <= bytes.len(),
            s@ == old(s)@ + escape_bytes(bytes@.subrange(0, i as int)),
        decreases bytes.len() - i,
    {
        let c = bytes[i];
        let ghost before = s@;
        if c == 34 || c == 92 {
            push_char(s, '\\');
            push_char(s, c as char);
        } else if (33 <= c && c <= 126) || c == 32 {
            push_char(s, c as char);
        } else {
            push_char(s, '\\');
            push_char(s, 'x');
            push_char(s, hex_char(c / 16));
            push_char(s, hex_char(c % 16));
        }
        proof {
            let prefix = bytes@.subrange(0, i as int + 1);
            assert(prefix.drop_last() =~= bytes@.subrange(0, i as int));
            assert(prefix.last() == c);
            assert(s@ =~= before + escape_byte(c));
        }
        i += 1;
    }
    assert(bytes@.subrange(0, bytes@.len() as int) =~= bytes@);
}


/// Every character of `t` is a decimal digit, `0` to `9`.
pub open spec fn all_digits(t: Seq<char>) -> bool {
    forall|i: int| 0 <= i < t.len() ==> 48 <= (#[trigger] t[i]) as int <= 57
}

/// The number that the decimal digits `t` stand for, most significant first.
pub open spec fn digits_value(t: Seq<char>) -> int
    decreases t.len(),
{
    if t.len() == 0 {
        0
    } else {
        digits_value(t.drop_last()) * 10 + (t.last() as int - 48)
    }
}

/// `t` is the decimal writing of the integer `v`: at least one digit, no
/// leading zero but for zero itself, preceded by `-` exactly when `v` is
/// negative.
pub open spec fn writes_int(t: Seq<char>, v: int) -> bool {
    if v >= 0 {
        &&& t.len() >= 1
        &&& all_digits(t)
        &&& digits_value(t) == v
        &&& (t[0] == '0' ==> t.len() == 1)
    } else {
        &&& t.len() >= 2
        &&& t[0] == '-'
        &&& all_digits(t.skip(1))
        &&& digits_value(t.skip(1)) == -v
        &&& t[1] != '0'
    }
}

/// The decimal rendering of a natural number reads back as that number.
pub proof fn lemma_dec_nat_writes(n: nat)
    ensures
        writes_int(dec_nat(n), n as int),
    decreases n,
{
    let t = dec_nat(n);
    if n < 10 {
        assert(t =~= seq![digit_char(n as int)]);
        assert(t.drop_last() =~= Seq::<char>::empty());
        assert(digits_value(t.drop_last()) == 0);
        assert(t.last() == digit_char(n as int));
        assert((digit_char(n as int)) as int == 48 + n);
        assert(digits_value(t) == n);
        assert(all_digits(t));
    } else {
        lemma_dec_nat_writes(n / 10);
        let u = dec_nat(n / 10);
        assert(t == u.push(digit_char((n % 10) as int)));
        assert(t.drop_last() =~= u);
        assert(t.last() == digit_char((n % 10) as int));
        assert((digit_char((n % 10) as int)) as int == 48 + n % 10);
        assert forall|i: int| 0 <= i < t.len() implies 48 <= (#[trigger] t[i]) as int <= 57 by {
            if i < u.len() {
                assert(t[i] == u[i]);
            }
        }
        assert(t[0] == u[0]);
        if u[0] == '0' {
            assert(u.len() == 1);
            assert(u.drop_last() =~= Seq::<char>::empty());
            assert(digits_value(u.drop_last()) == 0);
            assert(u.last() == u[0]);
            assert(('0' as int) == 48);
            assert(digits_value(u) == 0);
        }
        assert(digits_value(t) == digits_value(u) * 10 + n % 10);
        assert(n / 10 * 10 + n % 10 == n);
    }
}

/// The decimal rendering of an integer reads back as that integer, with a `-`
/// exactly when it is negative.
pub proof fn lemma_dec_int_writes(v: int)
    ensures
        writes_int(dec_int(v), v),
{
    if v < 0 {
        lemma_dec_nat_writes((-v) as nat);
        let u = dec_nat((-v) as nat);
        let t = dec_int(v);
        assert(t.skip(1) =~= u);
        assert(t[0] == '-');
        assert(t[1] == u[0]);
        if u[0] == '0' {
            assert(u.len() == 1);
            assert(u.drop_last() =~= Seq::<char>::empty());
            assert(digits_value(u.drop_last()) == 0);
            assert(u.last() == u[0]);
            assert(('0' as int) == 48);
            assert(digits_value(u) == 0);
        }
    } else {
        lemma_dec_nat_writes(v as nat);
    }
}

} // verus!
