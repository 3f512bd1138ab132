//! String-building helpers shared by the query serializers: decimal and
//! zero-padded number rendering, URL encoding of free-text values, and a
//! verified character-wise string comparison.

use vstd::prelude::*;
use vstd::string::StrSliceExecFns;

verus! {

/// Relies on `String::push`: appends exactly the given character.
#[verifier::external_body]
pub(crate) fn push_char(out: &mut String, c: char)
    ensures
        final(out)@ == old(out)@.push(c),
{
    out.push(c)
}

/// True exactly when the two string slices hold the same characters.
pub fn str_eq(a: &str, b: &str) -> (r: bool)
    ensures
        r == (a@ == b@),
{
    let alen = a.unicode_len();
    let blen = b.unicode_len();
    if alen != blen {
        return false;
    }
    let mut i: usize = 0;
    while i < alen
        invariant
            alen == a@.len(),
            blen == b@.len(),
            alen == blen,
            i <= alen,
            forall|j: int| 0 <= j < i ==> a@[j] == b@[j],
        decreases alen - i,
    {
        if a.get_char(i) != b.get_char(i) {
            return false;
        }
        i += 1;
    }
    proof {
        assert(a@ =~= b@);
    }
    true
}

/// The character for one decimal digit.
pub open spec fn spec_dec_digit(d: int) -> char
    recommends
        0 <= d < 10,
{
    ((48 + d) as u8) as char
}

/// Decimal rendering of a non-negative number, most significant digit first,
/// with no leading zeros (a single zero for 0).
pub open spec fn spec_dec(n: nat) -> Seq<char>
    decreases n,
{
    if n < 10 {
        seq![spec_dec_digit(n as int)]
    } else {
        spec_dec(n / 10).push(spec_dec_digit((n % 10) as int))
    }
}

/// Appends the decimal rendering of `n` to `out`.
pub fn push_u64_dec(out: &mut String, n: u64)
    ensures
        final(out)@ == old(out)@ + spec_dec(n as nat),
    decreases n,
{
    if n >= 10 {
        push_u64_dec(out, n / 10);
    }
    let b: u8 = 48 + (n % 10) as u8;
    push_char(out, b as char);
    proof {
        if n >= 10 {
            assert(old(out)@ + spec_dec(n as nat) =~= (old(out)@ + spec_dec((n / 10) as nat)).push(
                spec_dec_digit((n % 10) as int),
            ));
        } else {
            assert(old(out)@ + spec_dec(n as nat) =~= old(out)@.push(spec_dec_digit(n as int)));
        }
    }
}

/// Decimal rendering of `n` zero-padded to exactly `w` digits; digits beyond
/// the `w` least significant ones are dropped.
pub open spec fn spec_padded(n: int, w: nat) -> Seq<char>
    decreases w,
{
    if w == 0 {
        Seq::empty()
    } else {
        spec_padded(n / 10, (w - 1) as nat).push(spec_dec_digit(n % 10))
    }
}

/// Appends the `w`-digit zero-padded decimal rendering of `n` to `out`.
pub fn push_padded(out: &mut String, n: u64, w: usize)
    ensures
        final(out)@ == old(out)@ + spec_padded(n as int, w as nat),
    decreases w,
{
    if w > 0 {
        push_padded(out, n / 10, w - 1);
        let b: u8 = 48 + (n % 10) as u8;
        push_char(out, b as char);
        proof {
            assert(old(out)@ + spec_padded(n as int, w as nat) =~= (old(out)@ + spec_padded(
                n as int / 10,
                (w - 1) as nat,
            )).push(spec_dec_digit(n as int % 10)));
        }
    } else {
        proof {
            assert(old(out)@ + spec_padded(n as int, 0) =~= old(out)@);
        }
    }
}

/// Rendering of a boolean as its query token.
pub open spec fn spec_bool(b: bool) -> Seq<char> {
    if b {
        "true"@
    } else {
        "false"@
    }
}

/// Appends `true` or `false` to `out`.
pub fn push_bool(out: &mut String, b: bool)
    ensures
        final(out)@ == old(out)@ + spec_bool(b),
{
    if b {
        out.append("true");
    } else {
        out.append("false");
    }
}

/// Characters that the encoder passes through unchanged: ASCII letters and
/// digits, the unreserved marks `-`, `.`, `_`, `~`, and the three separators
/// the wire format uses inside values (`,` and `|` between coordinates and
/// list items, `:` after a value prefix).
pub open spec fn spec_unreserved(c: char) -> bool {
    let u = c as u32;
    (97 <= u <= 122) || (65 <= u <= 90) || (48 <= u <= 57) || c == '-' || c == '.' || c == '_'
        || c == '~' || c == ',' || c == '|' || c == ':'
}

/// The character for one uppercase hexadecimal digit.
pub open spec fn spec_hex_digit(d: int) -> char
    recommends
        0 <= d < 16,
{
    if d < 10 {
        ((48 + d) as u8) as char
    } else {
        ((55 + d) as u8) as char
    }
}

/// One percent-escaped byte: `%` followed by two uppercase hex digits.
pub open spec fn spec_enc_byte(b: int) -> Seq<char>
    recommends
        0 <= b < 256,
{
    seq!['%', spec_hex_digit(b / 16), spec_hex_digit(b % 16)]
}

/// URL encoding of one character: unreserved characters pass through, a
/// space becomes `+`, and every other character is percent-escaped byte by
/// byte in its UTF-8 encoding.
pub open spec fn spec_enc_char(c: char) -> Seq<char> {
    let u = c as u32 as int;
    if spec_unreserved(c) {
        seq![c]
    } else if c == ' ' {
        seq!['+']
    } else if u < 0x80 {
        spec_enc_byte(u)
    } else if u < 0x800 {
        spec_enc_byte(0xC0 + u / 64) + spec_enc_byte(0x80 + u % 64)
    } else if u < 0x10000 {
        spec_enc_byte(0xE0 + u / 4096) + spec_enc_byte(0x80 + (u / 64) % 64) + spec_enc_byte(
            0x80 + u % 64,
        )
    } else {
        spec_enc_byte(0xF0 + u / 262144) + spec_enc_byte(0x80 + (u / 4096) % 64) + spec_enc_byte(
            0x80 + (u / 64) % 64,
        ) + spec_enc_byte(0x80 + u % 64)
    }
}

/// URL encoding of a whole character sequence.
pub open spec fn spec_enc(s: Seq<char>) -> Seq<char>
    decreases s.len(),
{
    if s.len() == 0 {
        Seq::empty()
    } else {
        spec_enc(s.drop_last()) + spec_enc_char(s.last())
    }
}

/// Items joined by a separator, in order, with no trailing separator.
pub open spec fn spec_join(items: Seq<Seq<char>>, sep: Seq<char>) -> Seq<char>
    decreases items.len(),
{
    if items.len() == 0 {
        Seq::empty()
    } else if items.len() == 1 {
        items[0]
    } else {
        spec_join(items.drop_last(), sep) + sep + items.last()
    }
}

/// Appends `%XX` for one byte to `out`.
fn push_enc_byte(out: &mut String, b: u8)
    ensures
        final(out)@ == old(out)@ + spec_enc_byte(b as int),
{
    push_char(out, '%');
    let hi = b / 16;
    let lo = b % 16;
    if hi < 10 {
        push_char(out, (48 + hi) as char);
    } else {
        push_char(out, (55 + hi) as char);
    }
    if lo < 10 {
        push_char(out, (48 + lo) as char);
    } else {
        push_char(out, (55 + lo) as char);
    }
    proof {
        assert(old(out)@ + spec_enc_byte(b as int) =~= old(out)@.push('%').push(
            spec_hex_digit(b as int / 16),
        ).push(spec_hex_digit(b as int % 16)));
    }
}

/// Appends the URL encoding of one character to `out`.
fn push_enc_char(out: &mut String, c: char)
    ensures
        final(out)@ == old(out)@ + spec_enc_char(c),
{
    let u = c as u32;
    if (c >= 'a' && c <= 'z') || (c >= 'A' && c <= 'Z') || (c >= '0' && c <= '9') || c == '-'
        || c == '.' || c == '_' || c == '~' || c == ',' || c == '|' || c == ':' {
        push_char(out, c);
        proof {
            assert(old(out)@ + spec_enc_char(c) =~= old(out)@.push(c));
        }
    } else if c == ' ' {
        push_char(out, '+');
        proof {
            assert(old(out)@ + spec_enc_char(c) =~= old(out)@.push('+'));
        }
    } else if u < 0x80 {
        push_enc_byte(out, u as u8);
        proof {
            assert(old(out)@ + spec_enc_char(c) =~= old(out)@ + spec_enc_byte(u as int));
        }
    } else if u < 0x800 {
        assert(u / 64 < 32) by (nonlinear_arith)
            requires
                u < 0x800,
        ;
        push_enc_byte(out, (0xC0 + u / 64) as u8);
        push_enc_byte(out, (0x80 + u % 64) as u8);
        proof {
            assert(old(out)@ + spec_enc_char(c) =~= (old(out)@ + spec_enc_byte(
                0xC0 + u as int / 64,
            )) + spec_enc_byte(0x80 + u as int % 64));
        }
    } else if u < 0x10000 {
        assert(u / 4096 < 16 && (u / 64) % 64 < 64) by (nonlinear_arith)
            requires
                u < 0x10000,
        ;
        push_enc_byte(out, (0xE0 + u / 4096) as u8);
        push_enc_byte(out, (0x80 + (u / 64) % 64) as u8);
        push_enc_byte(out, (0x80 + u % 64) as u8);
        proof {
            assert(old(out)@ + spec_enc_char(c) =~= ((old(out)@ + spec_enc_byte(
                0xE0 + u as int / 4096,
            )) + spec_enc_byte(0x80 + (u as int / 64) % 64)) + spec_enc_byte(0x80 + u as int % 64));
        }
    } else {
        assert(u / 262144 < 8 && (u / 4096) % 64 < 64 && (u / 64) % 64 < 64) by (nonlinear_arith)
            requires
                u < 0x110000,
        ;
        push_enc_byte(out, (0xF0 + u / 262144) as u8);
        push_enc_byte(out, (0x80 + (u / 4096) % 64) as u8);
        push_enc_byte(out, (0x80 + (u / 64) % 64) as u8);
        push_enc_byte(out, (0x80 + u % 64) as u8);
        proof {
            assert(old(out)@ + spec_enc_char(c) =~= (((old(out)@ + spec_enc_byte(
                0xF0 + u as int / 262144,
            )) + spec_enc_byte(0x80 + (u as int / 4096) % 64)) + spec_enc_byte(
                0x80 + (u as int / 64) % 64,
            )) + spec_enc_byte(0x80 + u as int % 64));
        }
    }
}

/// Appends the URL encoding of a whole string to `out`.
pub fn push_enc_str(out: &mut String, s: &str)
    ensures
        final(out)@ == old(out)@ + spec_enc(s@),
{
    let len = s.unicode_len();
    let mut i: usize = 0;
    while i < len
        invariant
            len == s@.len(),
            i <= len,
            out@ == old(out)@ + spec_enc(s@.take(i as int)),
        decreases len - i,
    {
        let c = s.get_char(i);
        push_enc_char(out, c);
        proof {
            assert(s@.take(i + 1).drop_last() =~= s@.take(i as int));
            assert(s@.take(i + 1).last() == c);
            assert(old(out)@ + spec_enc(s@.take(i + 1)) =~= (old(out)@ + spec_enc(
                s@.take(i as int),
            )) + spec_enc_char(c));
        }
        i += 1;
    }
    proof {
        assert(s@.take(len as int) =~= s@);
    }
}

} // verus!
