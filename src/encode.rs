use vstd::prelude::*;
use vstd::string::StringSliceAdditionalSpecFns;
use vstd::utf8::encode_utf8;

verus! {

/// std's `String::push` appends one character at the end of the string.
pub assume_specification[ String::push ](s: &mut String, ch: char)
    ensures
        final(s)@ == old(s)@.push(ch),
;

/// The bytes that stand for themselves in a query component: letters,
/// digits and `-`, `.`, `_`, `~`.
pub open spec fn is_unreserved(b: u8) -> bool {
    (65 <= b <= 90) || (97 <= b <= 122) || (48 <= b <= 57) || b == 45 || b == 46 || b == 95
        || b == 126
}

/// The upper-case hexadecimal digit of a value below sixteen.
pub open spec fn hex_digit(n: u8) -> char
    recommends
        n < 16,
{
    "0123456789ABCDEF"@[n as int]
}

/// How one byte is written in a query component.
pub open spec fn encode_byte(b: u8) -> Seq<char> {
    if is_unreserved(b) {
        seq![b as char]
    } else {
        seq!['%', hex_digit(b / 16), hex_digit(b % 16)]
    }
}

/// Percent-encoding of a byte string, byte by byte.
pub open spec fn percent_encode(bs: Seq<u8>) -> Seq<char>
    decreases bs.len(),
{
    if bs.len() == 0 {
        Seq::empty()
    } else {
        percent_encode(bs.drop_last()) + encode_byte(bs.last())
    }
}

/// Percent-encoding of the UTF-8 form of a text.
pub open spec fn encode_text(s: Seq<char>) -> Seq<char> {
    percent_encode(encode_utf8(s))
}

fn push_hex_digit(out: &mut String, n: u8)
    requires
        n < 16,
    ensures
        final(out)@ == old(out)@.push(hex_digit(n)),
{
    let digits = "0123456789ABCDEF";
    proof {
        reveal_strlit("0123456789ABCDEF");
    }
    let c = digits.get_char(n as usize);
    out.push(c);
}

/// Appends the percent-encoded form of `s` to `out`.
pub fn push_encoded(out: &mut String, s: &str)
    ensures
        final(out)@ == old(out)@ + encode_text(s@),
{
    let bytes = s.as_bytes();
    let ghost start = out@;
    let mut i: usize = 0;
    while i < bytes.len()
        invariant
            0 <= i <= bytes@.len(),
            bytes@ == s.spec_bytes(),
            out@ == start + percent_encode(bytes@.subrange(0, i as int)),
        decreases bytes@.len() - i,
    {
        let b: u8 = bytes[i];
        proof {
            assert(bytes@.subrange(0, i + 1).drop_last() =~= bytes@.subrange(0, i as int));
        }
        if (65 <= b && b <= 90) || (97 <= b && b <= 122) || (48 <= b && b <= 57) || b == 45 || b
            == 46 || b == 95 || b == 126 {
            out.push(b as char);
            proof {
                assert(out@ =~= start + percent_encode(bytes@.subrange(0, i + 1)));
            }
        } else {
            out.push('%');
            push_hex_digit(out, b / 16);
            push_hex_digit(out, b % 16);
            proof {
                assert(out@ =~= start + percent_encode(bytes@.subrange(0, i + 1)));
            }
        }
        i += 1;
    }
    proof {
        assert(bytes@.subrange(0, bytes@.len() as int) =~= bytes@);
    }
}

/// The percent-encoded form of `s`.
pub fn encode_component(s: &str) -> (r: String)
    ensures
        r@ == encode_text(s@),
{
    let mut r = String::new();
    push_encoded(&mut r, s);
    proof {
        assert(r@ =~= encode_text(s@));
    }
    r
}

} // verus!
