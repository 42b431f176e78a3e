use vstd::prelude::*;

use crate::errors::RelayError;

verus! {

/// A character that may appear in a hexadecimal string: `0-9`, `a-f`, `A-F`.
pub open spec fn is_hex_digit(c: char) -> bool {
    ('0' as int <= c as int && c as int <= '9' as int)
    || ('a' as int <= c as int && c as int <= 'f' as int)
    || ('A' as int <= c as int && c as int <= 'F' as int)
}

/// The numeric value of a hexadecimal digit.
pub open spec fn hex_digit_value(c: char) -> nat
    recommends
        is_hex_digit(c),
{
    if '0' as int <= c as int && c as int <= '9' as int {
        (c as int - '0' as int) as nat
    } else if 'a' as int <= c as int && c as int <= 'f' as int {
        (c as int - 'a' as int + 10) as nat
    } else {
        (c as int - 'A' as int + 10) as nat
    }
}

/// A payload hex string: an even number of hexadecimal digits
/// (the empty string is a valid, empty payload).
pub open spec fn valid_hex_string(s: Seq<char>) -> bool {
    s.len() % 2 == 0 && (forall|i: int| 0 <= i < s.len() ==> is_hex_digit(#[trigger] s[i]))
}

/// The bytes a hex string stands for, one byte per digit pair.
pub open spec fn hex_bytes(s: Seq<char>) -> Seq<u8>
    recommends
        valid_hex_string(s),
    decreases s.len(),
{
    if s.len() < 2 {
        Seq::empty()
    } else {
        seq![(hex_digit_value(s[0]) * 16 + hex_digit_value(s[1])) as u8] + hex_bytes(s.skip(2))
    }
}

/// A numeric hex field (an identifier or a padding byte): one or more
/// hexadecimal digits, no sign, no prefix.
pub open spec fn valid_hex_number(s: Seq<char>) -> bool {
    s.len() > 0 && (forall|i: int| 0 <= i < s.len() ==> is_hex_digit(#[trigger] s[i]))
}

/// The value of a hex numeral, most significant digit first.
pub open spec fn hex_number_value(s: Seq<char>) -> nat
    recommends
        valid_hex_number(s),
    decreases s.len(),
{
    if s.len() == 0 {
        0
    } else {
        hex_number_value(s.drop_last()) * 16 + hex_digit_value(s.last())
    }
}

/// The digit that renders a value below 16, upper-case.
pub open spec fn upper_hex_digit(d: nat) -> char
    recommends
        d < 16,
{
    if d == 0 { '0' } else if d == 1 { '1' } else if d == 2 { '2' } else if d == 3 { '3' }
    else if d == 4 { '4' } else if d == 5 { '5' } else if d == 6 { '6' } else if d == 7 { '7' }
    else if d == 8 { '8' } else if d == 9 { '9' } else if d == 10 { 'A' } else if d == 11 { 'B' }
    else if d == 12 { 'C' } else if d == 13 { 'D' } else if d == 14 { 'E' } else { 'F' }
}

/// A value rendered as upper-case hexadecimal with no leading zeros
/// beyond the natural digits (zero renders as "0").
pub open spec fn upper_hex_chars(n: nat) -> Seq<char>
    decreases n,
{
    if n < 16 {
        seq![upper_hex_digit(n)]
    } else {
        upper_hex_chars(n / 16).push(upper_hex_digit(n % 16))
    }
}

/// Rendering round trip: what `upper_hex_chars` renders is a hex
/// numeral that parses back to the value it came from.
pub proof fn lemma_upper_hex_round_trip(n: nat)
    ensures
        valid_hex_number(upper_hex_chars(n)),
        hex_number_value(upper_hex_chars(n)) == n,
    decreases n,
{
    if n < 16 {
        reveal_with_fuel(hex_number_value, 2);
        let s = upper_hex_chars(n);
        assert(s.drop_last() =~= Seq::<char>::empty());
        assert(s.last() == upper_hex_digit(n));
        assert(is_hex_digit(upper_hex_digit(n)) && hex_digit_value(upper_hex_digit(n)) == n);
    } else {
        lemma_upper_hex_round_trip(n / 16);
        let s = upper_hex_chars(n / 16);
        let d = upper_hex_digit(n % 16);
        assert(s.push(d).drop_last() =~= s);
        assert(s.push(d).last() == d);
        assert(is_hex_digit(d) && hex_digit_value(d) == n % 16);
        assert(hex_number_value(s.push(d)) == hex_number_value(s) * 16 + hex_digit_value(d));
        assert(n == (n / 16) * 16 + n % 16) by (nonlinear_arith);
        assert forall|i: int| 0 <= i < s.push(d).len() implies is_hex_digit(
            #[trigger] s.push(d)[i],
        ) by {
            if i < s.len() {
                assert(s.push(d)[i] == s[i]);
            } else {
                assert(s.push(d)[i] == d);
            }
        }
    }
}

/// The numeric value of one hex digit character, or `None` if `c` is no
/// hex digit.
pub fn hex_digit_of(c: char) -> (r: Option<u8>)
    ensures
        r is Some <==> is_hex_digit(c),
        r is Some ==> r->0 == hex_digit_value(c) && r->0 < 16,
{
    let u = c as u32;
    if u >= '0' as u32 && u <= '9' as u32 {
        Some((u - '0' as u32) as u8)
    } else if u >= 'a' as u32 && u <= 'f' as u32 {
        Some((u - 'a' as u32 + 10) as u8)
    } else if u >= 'A' as u32 && u <= 'F' as u32 {
        Some((u - 'A' as u32 + 10) as u8)
    } else {
        None
    }
}

/// A hex numeral that `parse_hex_u32` accepts: well-formed and within
/// `u32` range.
pub open spec fn u32_parses(s: Seq<char>) -> bool {
    valid_hex_number(s) && hex_number_value(s) <= u32::MAX
}

/// A hex numeral never shrinks as digits are appended: the value of a
/// longer prefix is at least the value of a shorter one.
proof fn lemma_hex_number_prefix_monotonic(s: Seq<char>, i: int, j: int)
    requires
        0 <= i <= j <= s.len(),
    ensures
        hex_number_value(s.take(i)) <= hex_number_value(s.take(j)),
    decreases j - i,
{
    if i < j {
        lemma_hex_number_prefix_monotonic(s, i, j - 1);
        assert(s.take(j).drop_last() =~= s.take(j - 1));
    }
}

/// Parses a hex numeral into a `u32`; `None` on an empty string, a
/// non-hex character, or a value over `u32::MAX`.
pub fn parse_hex_u32(s: &str) -> (r: Option<u32>)
    ensures
        r is Some <==> valid_hex_number(s@) && hex_number_value(s@) <= u32::MAX,
        r is Some ==> r->0 as nat == hex_number_value(s@),
{
    let len = s.unicode_len();
    if len == 0 {
        return None;
    }
    let mut acc: u32 = 0;
    let mut i: usize = 0;
    while i < len
        invariant
            0 < len,
            len as nat == s@.len(),
            i <= len,
            forall|k: int| 0 <= k < i ==> is_hex_digit(#[trigger] s@[k]),
            acc as nat == hex_number_value(s@.take(i as int)),
        decreases len - i,
    {
        let c = s.get_char(i);
        let d = match hex_digit_of(c) {
            Some(d) => d,
            None => {
                return None;
            },
        };
        proof {
            assert(s@.take(i + 1 as int).drop_last() =~= s@.take(i as int));
            assert(s@.take(i + 1 as int).last() == s@[i as int]);
        }
        if acc >= 0x1000_0000 {
            // One more digit pushes the value past u32::MAX, and later
            // digits can only grow it further.
            proof {
                lemma_hex_number_prefix_monotonic(s@, i + 1, s@.len() as int);
                assert(s@.take(s@.len() as int) =~= s@);
            }
            return None;
        }
        acc = acc * 16 + (d as u32);
        i += 1;
    }
    proof {
        assert(s@.take(len as int) =~= s@);
    }
    Some(acc)
}

/// The one character that renders a digit value, upper-case.
fn upper_hex_digit_str(d: u8) -> (r: &'static str)
    requires
        d < 16,
    ensures
        r@ == seq![upper_hex_digit(d as nat)],
{
    let r: &'static str = if d == 0 { "0" } else if d == 1 { "1" } else if d == 2 { "2" }
    else if d == 3 { "3" } else if d == 4 { "4" } else if d == 5 { "5" } else if d == 6 { "6" }
    else if d == 7 { "7" } else if d == 8 { "8" } else if d == 9 { "9" } else if d == 10 { "A" }
    else if d == 11 { "B" } else if d == 12 { "C" } else if d == 13 { "D" } else if d == 14 { "E" }
    else { "F" };
    proof {
        reveal_strlit("0");
        reveal_strlit("1");
        reveal_strlit("2");
        reveal_strlit("3");
        reveal_strlit("4");
        reveal_strlit("5");
        reveal_strlit("6");
        reveal_strlit("7");
        reveal_strlit("8");
        reveal_strlit("9");
        reveal_strlit("A");
        reveal_strlit("B");
        reveal_strlit("C");
        reveal_strlit("D");
        reveal_strlit("E");
        reveal_strlit("F");
        assert(r@ =~= seq![upper_hex_digit(d as nat)]);
    }
    r
}

/// Renders a value as upper-case hexadecimal with no leading zeros,
/// as received frames and identifiers are reported.
pub fn u32_to_upper_hex(n: u32) -> (r: String)
    ensures
        r@ == upper_hex_chars(n as nat),
    decreases n,
{
    let d = (n % 16) as u8;
    if n < 16 {
        String::from_str(upper_hex_digit_str(d))
    } else {
        let prefix = u32_to_upper_hex(n / 16);
        let r = prefix.concat(upper_hex_digit_str(d));
        proof {
            assert(upper_hex_chars((n / 16) as nat).push(upper_hex_digit((n % 16) as nat))
                =~= upper_hex_chars((n / 16) as nat) + seq![upper_hex_digit((n % 16) as nat)]);
        }
        r
    }
}

/// Relies on `hex::decode`: a string with an even number of hex digits
/// (`0-9a-fA-F`) decodes to one byte per digit pair, in order; any other
/// string (odd length or a stray character) is refused.
#[verifier::external_body]
fn decode_via_hex_crate(s: &str) -> (r: Option<Vec<u8>>)
    ensures
        r is Some <==> valid_hex_string(s@),
        r is Some ==> r->0@ == hex_bytes(s@),
{
    hex::decode(s).ok()
}

/// Parses a hex payload string into its bytes; a malformed string (odd
/// length or a non-hex character) is a decode failure.
pub fn decode_payload(s: &str) -> (r: Result<Vec<u8>, RelayError>)
    ensures
        r matches Ok(v) <==> valid_hex_string(s@),
        r matches Ok(v) ==> v@ == hex_bytes(s@),
        r matches Err(e) ==> e == RelayError::Decode,
{
    match decode_via_hex_crate(s) {
        Some(v) => Ok(v),
        None => Err(RelayError::Decode),
    }
}

} // verus!
