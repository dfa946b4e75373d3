//! Width computations for the text frames the presentation layer draws
//! around message boxes and key/value statistics.
use vstd::prelude::*;

use vstd::string::StringSliceAdditionalSpecFns;
use vstd::string::StrSliceExecFns;
use vstd::utf8::encode_utf8;

verus! {

/// The larger of two lengths.
pub open spec fn spec_max_len(a: nat, b: nat) -> nat {
    if a >= b {
        a
    } else {
        b
    }
}

/// The longest byte length among the messages.
pub open spec fn spec_longest_message_length(messages: Seq<&str>) -> nat
    decreases messages.len(),
{
    if messages.len() == 0 {
        0
    } else {
        spec_max_len(
            spec_longest_message_length(messages.drop_last()),
            messages.last().spec_bytes().len(),
        )
    }
}

/// The byte length of the longest message, used to size a centred frame.
pub fn find_longest_message_length(messages: &[&str]) -> (longest: usize)
    requires
        forall|i: int|
            0 <= i < messages@.len() ==> (#[trigger] messages@[i]).spec_bytes().len()
                <= usize::MAX,
    ensures
        longest == spec_longest_message_length(messages@),
{
    let mut longest: usize = 0;
    let mut i: usize = 0;
    while i < messages.len()
        invariant
            i <= messages@.len(),
            forall|j: int|
                0 <= j < messages@.len() ==> (#[trigger] messages@[j]).spec_bytes().len()
                    <= usize::MAX,
            longest == spec_longest_message_length(messages@.take(i as int)),
        decreases messages@.len() - i,
    {
        let len = messages[i].len();
        proof {
            assert(messages@.take(i as int + 1).drop_last() =~= messages@.take(i as int));
            assert(messages@.take(i as int + 1).last() == messages@[i as int]);
        }
        if len > longest {
            longest = len;
        }
        i += 1;
    }
    proof {
        assert(messages@.take(messages@.len() as int) =~= messages@);
    }
    longest
}

/// Index of the first colon in the text; the text's length when there is
/// none.
pub open spec fn spec_first_colon(s: Seq<char>) -> int
    decreases s.len(),
{
    if s.len() == 0 {
        0
    } else if s[0] == ':' {
        0
    } else {
        1 + spec_first_colon(s.skip(1))
    }
}

/// The first-colon index lies between the start and the end of the text.
pub proof fn lemma_first_colon_le(s: Seq<char>)
    ensures
        0 <= spec_first_colon(s) <= s.len(),
    decreases s.len(),
{
    if s.len() > 0 && s[0] != ':' {
        lemma_first_colon_le(s.skip(1));
    }
}

/// A scan that saw no colon before `i`, and a colon at `i` unless it
/// reached the end, found exactly the first colon.
proof fn lemma_first_colon_at(s: Seq<char>, i: int)
    requires
        0 <= i <= s.len(),
        forall|j: int| 0 <= j < i ==> s[j] != ':',
        i < s.len() ==> s[i] == ':',
    ensures
        spec_first_colon(s) == i,
    decreases i,
{
    if s.len() == 0 {
    } else if i == 0 {
    } else {
        assert(s[0] != ':');
        let rest = s.skip(1);
        assert(forall|j: int| 0 <= j < i - 1 ==> rest[j] == s[j + 1]);
        lemma_first_colon_at(rest, i - 1);
    }
}

/// Finds the index, in characters, of the first colon of the text; the
/// character count when there is none.
fn first_colon(s: &str) -> (k: usize)
    ensures
        k as int == spec_first_colon(s@),
        k <= s@.len(),
{
    let n = s.unicode_len();
    let mut i: usize = 0;
    while i < n
        invariant
            i <= n,
            n == s@.len(),
            forall|j: int| 0 <= j < i ==> s@[j] != ':',
        decreases n - i,
    {
        if s.get_char(i) == ':' {
            proof {
                lemma_first_colon_at(s@, i as int);
            }
            return i;
        }
        i += 1;
    }
    proof {
        lemma_first_colon_at(s@, n as int);
    }
    n
}

/// The byte length of a message's key: everything before its first colon.
pub open spec fn spec_key_len(m: Seq<char>) -> nat {
    encode_utf8(m.take(spec_first_colon(m))).len()
}

/// A message's value: the characters between its first colon and its
/// second one, or the end if there is no second colon.
pub open spec fn spec_value_part(m: Seq<char>) -> Seq<char> {
    let rest = m.skip(spec_first_colon(m) + 1);
    rest.take(spec_first_colon(rest))
}

/// The longest key byte length among the nonempty messages.
pub open spec fn spec_longest_key_length(messages: Seq<&str>) -> nat
    decreases messages.len(),
{
    if messages.len() == 0 {
        0
    } else {
        let rest = spec_longest_key_length(messages.drop_last());
        if messages.last()@.len() == 0 {
            rest
        } else {
            spec_max_len(rest, spec_key_len(messages.last()@))
        }
    }
}

/// The longest value character count among the nonempty messages.
pub open spec fn spec_longest_value_length(messages: Seq<&str>) -> nat
    decreases messages.len(),
{
    if messages.len() == 0 {
        0
    } else {
        let rest = spec_longest_value_length(messages.drop_last());
        if messages.last()@.len() == 0 {
            rest
        } else {
            spec_max_len(rest, spec_value_part(messages.last()@).len())
        }
    }
}

/// For key/value statistics lines, the longest key in bytes and the
/// longest value in characters, measured around each nonempty message's
/// first colon. Every nonempty message must contain a colon.
pub fn find_longest_key_value_length(messages: &Vec<&str>) -> (lengths: (usize, usize))
    requires
        forall|i: int|
            0 <= i < messages@.len() && (#[trigger] messages@[i])@.len() > 0
                ==> spec_first_colon(messages@[i]@) < messages@[i]@.len(),
        forall|i: int|
            0 <= i < messages@.len() ==> spec_key_len((#[trigger] messages@[i])@) <= usize::MAX,
    ensures
        lengths.0 == spec_longest_key_length(messages@),
        lengths.1 == spec_longest_value_length(messages@),
{
    let mut longest_key_length: usize = 0;
    let mut longest_value_length: usize = 0;
    let mut i: usize = 0;
    while i < messages.len()
        invariant
            i <= messages@.len(),
            forall|j: int|
                0 <= j < messages@.len() && (#[trigger] messages@[j])@.len() > 0
                    ==> spec_first_colon(messages@[j]@) < messages@[j]@.len(),
            forall|j: int|
                0 <= j < messages@.len() ==> spec_key_len((#[trigger] messages@[j])@)
                    <= usize::MAX,
            longest_key_length == spec_longest_key_length(messages@.take(i as int)),
            longest_value_length == spec_longest_value_length(messages@.take(i as int)),
        decreases messages@.len() - i,
    {
        let message = messages[i];
        proof {
            assert(messages@.take(i as int + 1).drop_last() =~= messages@.take(i as int));
            assert(messages@.take(i as int + 1).last() == messages@[i as int]);
        }
        if !message.is_empty() {
            let n = message.unicode_len();
            let k = first_colon(message);
            proof {
                assert(k < n);
            }
            let key = message.substring_char(0, k);
            let key_len = key.len();
            proof {
                assert(key@ == message@.take(k as int));
                assert(key_len == spec_key_len(message@));
            }
            let rest = message.substring_char(k + 1, n);
            proof {
                assert(rest@ == message@.skip(k as int + 1));
            }
            let value_len = first_colon(rest);
            proof {
                lemma_first_colon_le(rest@);
                assert(spec_value_part(message@) =~= rest@.take(spec_first_colon(rest@)));
                assert(value_len == spec_value_part(message@).len());
            }
            if key_len > longest_key_length {
                longest_key_length = key_len;
            }
            if value_len > longest_value_length {
                longest_value_length = value_len;
            }
        }
        i += 1;
    }
    proof {
        assert(messages@.take(messages@.len() as int) =~= messages@);
    }
    (longest_key_length, longest_value_length)
}

} // verus!
