//! The peer wire protocol: prefix-tagged UTF-8 text frames carrying the two
//! event kinds of the two-player mode. Encoding and decoding are inverse,
//! so what one peer sends the other reads back unchanged.
use vstd::prelude::*;

use vstd::arithmetic::div_mod::lemma_fundamental_div_mod;
use vstd::slice::{slice_subrange, slice_to_vec};
use vstd::utf8::{
    decode_utf8, decode_utf8_encode_utf8, encode_utf8, encode_utf8_decode_utf8,
    encode_utf8_valid_utf8, valid_utf8,
};

verus! {

/// A message exchanged between the two peers.
pub enum MessageType {
    /// The sender just cleared this many rows at once; the receiver takes
    /// them as a garbage-row penalty.
    ClearedRows(usize),
    /// Free text; the game sends it to announce the sender's own loss.
    Notification(String),
}

/// The byte tag that opens a cleared-rows frame: the text `ClearedRows: `.
pub open spec fn spec_cleared_rows_prefix() -> Seq<u8> {
    seq![67u8, 108u8, 101u8, 97u8, 114u8, 101u8, 100u8, 82u8, 111u8, 119u8, 115u8, 58u8, 32u8]
}

/// The byte tag that opens a notification frame: the text `Notification: `.
pub open spec fn spec_notification_prefix() -> Seq<u8> {
    seq![78u8, 111u8, 116u8, 105u8, 102u8, 105u8, 99u8, 97u8, 116u8, 105u8, 111u8, 110u8, 58u8, 32u8]
}

/// An ASCII decimal digit.
pub open spec fn spec_is_digit(b: u8) -> bool {
    48 <= b <= 57
}

/// Every byte is an ASCII decimal digit.
pub open spec fn spec_all_digits(s: Seq<u8>) -> bool {
    forall|i: int| 0 <= i < s.len() ==> spec_is_digit(#[trigger] s[i])
}

/// The decimal digits of `n`, most significant first, as ASCII bytes.
pub open spec fn spec_decimal(n: nat) -> Seq<u8>
    decreases n,
{
    if n < 10 {
        seq![(n + 48) as u8]
    } else {
        spec_decimal(n / 10) + seq![((n % 10) + 48) as u8]
    }
}

/// The value of a string of ASCII decimal digits, most significant first.
pub open spec fn spec_digits_value(s: Seq<u8>) -> int
    decreases s.len(),
{
    if s.len() == 0 {
        0
    } else {
        spec_digits_value(s.drop_last()) * 10 + (s.last() - 48)
    }
}

/// A well-formed cleared-rows frame: the tag, then at least one decimal
/// digit, with a value that fits the machine's count type.
pub open spec fn spec_is_cleared_rows_frame(bytes: Seq<u8>) -> bool {
    let p = spec_cleared_rows_prefix();
    &&& bytes.len() > p.len()
    &&& bytes.take(p.len() as int) == p
    &&& spec_all_digits(bytes.skip(p.len() as int))
    &&& spec_digits_value(bytes.skip(p.len() as int)) <= usize::MAX
}

/// The row count carried by a cleared-rows frame.
pub open spec fn spec_cleared_rows_value(bytes: Seq<u8>) -> int {
    spec_digits_value(bytes.skip(spec_cleared_rows_prefix().len() as int))
}

/// A well-formed notification frame: the tag, then UTF-8 text.
pub open spec fn spec_is_notification_frame(bytes: Seq<u8>) -> bool {
    let p = spec_notification_prefix();
    &&& bytes.len() >= p.len()
    &&& bytes.take(p.len() as int) == p
    &&& valid_utf8(bytes.skip(p.len() as int))
}

/// The text carried by a notification frame.
pub open spec fn spec_notification_text(bytes: Seq<u8>) -> Seq<char> {
    decode_utf8(bytes.skip(spec_notification_prefix().len() as int))
}

/// The bytes that encode a message: its tag, then the decimal count or the
/// UTF-8 text.
pub open spec fn spec_encode(m: MessageType) -> Seq<u8> {
    match m {
        MessageType::ClearedRows(rows) => spec_cleared_rows_prefix() + spec_decimal(rows as nat),
        MessageType::Notification(text) => spec_notification_prefix() + encode_utf8(text@),
    }
}

/// The cleared-rows tag as bytes.
fn cleared_rows_prefix() -> (p: Vec<u8>)
    ensures
        p@ == spec_cleared_rows_prefix(),
{
    let mut p: Vec<u8> = Vec::new();
    p.push(67u8);
    p.push(108u8);
    p.push(101u8);
    p.push(97u8);
    p.push(114u8);
    p.push(101u8);
    p.push(100u8);
    p.push(82u8);
    p.push(111u8);
    p.push(119u8);
    p.push(115u8);
    p.push(58u8);
    p.push(32u8);
    proof {
        assert(p@ =~= spec_cleared_rows_prefix());
    }
    p
}

/// The notification tag as bytes.
fn notification_prefix() -> (p: Vec<u8>)
    ensures
        p@ == spec_notification_prefix(),
{
    let mut p: Vec<u8> = Vec::new();
    p.push(78u8);
    p.push(111u8);
    p.push(116u8);
    p.push(105u8);
    p.push(102u8);
    p.push(105u8);
    p.push(99u8);
    p.push(97u8);
    p.push(116u8);
    p.push(105u8);
    p.push(111u8);
    p.push(110u8);
    p.push(58u8);
    p.push(32u8);
    proof {
        assert(p@ =~= spec_notification_prefix());
    }
    p
}

/// Appends the decimal digits of `n`, most significant first.
fn push_decimal(out: &mut Vec<u8>, n: usize)
    ensures
        final(out)@ == old(out)@ + spec_decimal(n as nat),
    decreases n,
{
    if n >= 10 {
        push_decimal(out, n / 10);
    }
    out.push((n % 10) as u8 + 48);
    proof {
        if n >= 10 {
            assert(old(out)@ + spec_decimal((n / 10) as nat) + seq![((n % 10) + 48) as u8]
                =~= old(out)@ + spec_decimal(n as nat));
        } else {
            assert(old(out)@ + seq![((n % 10) + 48) as u8] =~= old(out)@ + spec_decimal(
                n as nat,
            ));
        }
    }
}

/// Encode one message for the wire.
pub fn encode_message(message: &MessageType) -> (out: Vec<u8>)
    ensures
        out@ == spec_encode(*message),
{
    match message {
        MessageType::ClearedRows(rows) => {
            let mut out = cleared_rows_prefix();
            push_decimal(&mut out, *rows);
            out
        },
        MessageType::Notification(text) => {
            let mut out = notification_prefix();
            let bytes = text.as_str().as_bytes();
            out.extend_from_slice(bytes);
            proof {
                assert(out@ =~= spec_notification_prefix() + encode_utf8(text@));
            }
            out
        },
    }
}

/// Relies on `String::from_utf8`: it succeeds exactly on valid UTF-8 and
/// yields the characters those bytes encode.
#[verifier::external_body]
fn bytes_to_string(bytes: Vec<u8>) -> (r: Option<String>)
    ensures
        r is Some <==> valid_utf8(bytes@),
        r matches Some(s) ==> s@ == decode_utf8(bytes@),
{
    String::from_utf8(bytes).ok()
}

/// Decides whether `bytes` starts with `prefix`.
fn has_prefix(bytes: &[u8], prefix: &Vec<u8>) -> (b: bool)
    ensures
        b == (bytes@.len() >= prefix@.len() && bytes@.take(prefix@.len() as int) == prefix@),
{
    if bytes.len() < prefix.len() {
        return false;
    }
    let mut i: usize = 0;
    while i < prefix.len()
        invariant
            i <= prefix@.len(),
            prefix@.len() <= bytes@.len(),
            forall|j: int| 0 <= j < i ==> bytes@[j] == prefix@[j],
        decreases prefix@.len() - i,
    {
        if bytes[i] != prefix[i] {
            proof {
                assert(bytes@.take(prefix@.len() as int)[i as int] != prefix@[i as int]);
            }
            return false;
        }
        i += 1;
    }
    proof {
        assert(bytes@.take(prefix@.len() as int) =~= prefix@);
    }
    true
}

/// Parses ASCII decimal digits; fails on an empty string, a non-digit, or
/// a value beyond the machine's count type.
fn parse_decimal(digits: &[u8]) -> (r: Option<usize>)
    ensures
        r is Some <==> digits@.len() > 0 && spec_all_digits(digits@) && spec_digits_value(digits@)
            <= usize::MAX,
        r matches Some(v) ==> v == spec_digits_value(digits@),
{
    if digits.len() == 0 {
        return None;
    }
    let mut value: usize = 0;
    let mut i: usize = 0;
    while i < digits.len()
        invariant
            i <= digits@.len(),
            spec_all_digits(digits@.take(i as int)),
            value == spec_digits_value(digits@.take(i as int)),
        decreases digits@.len() - i,
    {
        let b = digits[i];
        if b < 48 || b > 57 {
            proof {
                lemma_digits_value_skip_ge(digits@, i as int);
            }
            return None;
        }
        let d = (b - 48) as usize;
        if value > (usize::MAX - d) / 10 {
            proof {
                if spec_all_digits(digits@) {
                    lemma_digits_value_take_le(digits@, i as int + 1);
                    assert(digits@.take(i as int + 1).drop_last() =~= digits@.take(i as int));
                    assert(digits@.take(i as int + 1).last() == digits@[i as int]);
                    assert(spec_digits_value(digits@.take(i as int + 1))
                        == value * 10 + d);
                    assert(value * 10 + d > usize::MAX);
                }
            }
            return None;
        }
        value = value * 10 + d;
        proof {
            assert(digits@.take(i as int + 1).drop_last() =~= digits@.take(i as int));
            assert(digits@.take(i as int + 1).last() == digits@[i as int]);
            assert(spec_all_digits(digits@.take(i as int + 1)));
        }
        i += 1;
    }
    proof {
        assert(digits@.take(digits@.len() as int) =~= digits@);
    }
    Some(value)
}

/// Every digit string's value is at least the value of any of its
/// prefixes: appending digits never shrinks the number.
proof fn lemma_digits_value_take_le(s: Seq<u8>, i: int)
    requires
        0 <= i <= s.len(),
        spec_all_digits(s),
    ensures
        spec_digits_value(s.take(i)) <= spec_digits_value(s),
        spec_digits_value(s) >= 0,
    decreases s.len() - i,
{
    lemma_digits_value_nonneg(s.take(i));
    if i < s.len() {
        lemma_digits_value_take_le(s, i + 1);
        assert(s.take(i + 1).drop_last() =~= s.take(i));
        assert(s.take(i + 1).last() == s[i]);
        let v = spec_digits_value(s.take(i));
        assert(v * 10 >= v) by (nonlinear_arith)
            requires
                v >= 0,
        ;
        assert(spec_is_digit(s[i]));
    } else {
        assert(s.take(i) =~= s);
    }
}

/// A digit string's value is never negative.
proof fn lemma_digits_value_nonneg(s: Seq<u8>)
    requires
        spec_all_digits(s),
    ensures
        spec_digits_value(s) >= 0,
    decreases s.len(),
{
    if s.len() > 0 {
        assert(spec_all_digits(s.drop_last())) by {
            assert(forall|j: int| 0 <= j < s.len() - 1 ==> s.drop_last()[j] == s[j]);
        }
        lemma_digits_value_nonneg(s.drop_last());
        let v = spec_digits_value(s.drop_last());
        assert(v * 10 >= 0) by (nonlinear_arith)
            requires
                v >= 0,
        ;
    }
}

/// A string with a non-digit somewhere is not all digits.
proof fn lemma_digits_value_skip_ge(s: Seq<u8>, i: int)
    requires
        0 <= i < s.len(),
        !spec_is_digit(s[i]),
    ensures
        !spec_all_digits(s),
{
}

/// Decode one frame from the wire. Frames with an unknown tag, a
/// malformed or oversized count, or text that is not UTF-8 are dropped.
pub fn decode_message(bytes: &[u8]) -> (r: Option<MessageType>)
    ensures
        r is Some <==> spec_is_cleared_rows_frame(bytes@) || spec_is_notification_frame(bytes@),
        spec_is_cleared_rows_frame(bytes@) ==> r == Some(
            MessageType::ClearedRows(spec_cleared_rows_value(bytes@) as usize),
        ),
        spec_is_notification_frame(bytes@) ==> (r matches Some(m) && m matches
            MessageType::Notification(text) && text@ == spec_notification_text(bytes@)),
{
    let cleared_tag = cleared_rows_prefix();
    let notification_tag = notification_prefix();
    if has_prefix(bytes, &cleared_tag) {
        proof {
            assert(!spec_is_notification_frame(bytes@)) by {
                if bytes@.len() >= 14 && bytes@.take(14) == spec_notification_prefix() {
                    assert(bytes@.take(13)[0] == bytes@[0]);
                    assert(bytes@.take(14)[0] == bytes@[0]);
                }
            }
        }
        let rest = slice_subrange(bytes, cleared_tag.len(), bytes.len());
        proof {
            assert(rest@ == bytes@.skip(13));
        }
        match parse_decimal(rest) {
            Some(rows) => Some(MessageType::ClearedRows(rows)),
            None => None,
        }
    } else if has_prefix(bytes, &notification_tag) {
        let rest = slice_subrange(bytes, notification_tag.len(), bytes.len());
        proof {
            assert(rest@ == bytes@.skip(14));
        }
        let text_bytes = slice_to_vec(rest);
        match bytes_to_string(text_bytes) {
            Some(text) => Some(MessageType::Notification(text)),
            None => None,
        }
    } else {
        None
    }
}

/// The decimal encoding really writes the number: its digits are digits
/// and they read back as the same value.
proof fn lemma_decimal_digits(n: nat)
    ensures
        spec_decimal(n).len() >= 1,
        spec_all_digits(spec_decimal(n)),
        spec_digits_value(spec_decimal(n)) == n,
    decreases n,
{
    if n < 10 {
        let s = spec_decimal(n);
        assert(s.len() == 1);
        assert(s.drop_last() =~= Seq::<u8>::empty());
        assert(s.last() == (n + 48) as u8);
        assert(spec_is_digit(s[0]));
        assert(spec_digits_value(s) == spec_digits_value(s.drop_last()) * 10 + (s.last()
            - 48));
        assert(spec_digits_value(s.drop_last()) == 0);
    } else {
        lemma_decimal_digits(n / 10);
        let pre = spec_decimal(n / 10);
        let s = spec_decimal(n);
        assert(s =~= pre + seq![((n % 10) + 48) as u8]);
        assert(s.drop_last() =~= pre);
        assert(s.last() == ((n % 10) + 48) as u8);
        assert(spec_all_digits(s)) by {
            assert(forall|i: int| 0 <= i < pre.len() ==> s[i] == pre[i]);
            assert(spec_is_digit(s.last()));
        }
        lemma_fundamental_div_mod(n as int, 10);
        assert(spec_digits_value(s) == spec_digits_value(pre) * 10 + (s.last() - 48));
        assert(spec_digits_value(pre) == n / 10);
        assert(s.last() - 48 == n % 10);
    }
}

/// Round trip: decoding what `spec_encode` produced gives back the same
/// message, so the two peers agree on every frame either of them sends.
pub proof fn lemma_encode_decode(m: MessageType)
    ensures
        m matches MessageType::ClearedRows(rows) ==> spec_is_cleared_rows_frame(spec_encode(m))
            && spec_cleared_rows_value(spec_encode(m)) == rows,
        m matches MessageType::Notification(text) ==> spec_is_notification_frame(spec_encode(m))
            && spec_notification_text(spec_encode(m)) == text@,
{
    match m {
        MessageType::ClearedRows(rows) => {
            lemma_decimal_digits(rows as nat);
            let enc = spec_encode(m);
            assert(enc.take(13) =~= spec_cleared_rows_prefix());
            assert(enc.skip(13) =~= spec_decimal(rows as nat));
        },
        MessageType::Notification(text) => {
            broadcast use encode_utf8_valid_utf8, encode_utf8_decode_utf8;

            let enc = spec_encode(m);
            assert(enc.take(14) =~= spec_notification_prefix());
            assert(enc.skip(14) =~= encode_utf8(text@));
        },
    }
}

} // verus!
