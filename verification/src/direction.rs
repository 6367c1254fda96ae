//! Whether an exchange is inbound or outbound, read from what the proxy says
//! about the listener that took it.

use vstd::prelude::*;
use vstd::string::*;
use vstd::utf8::*;

verus! {

/// Whether `c` has the Unicode property `White_Space`.
pub open spec fn is_white_space(c: char) -> bool {
    let u = c as u32;
    ||| 0x09 <= u <= 0x0D
    ||| u == 0x20
    ||| u == 0x85
    ||| u == 0xA0
    ||| u == 0x1680
    ||| 0x2000 <= u <= 0x200A
    ||| u == 0x2028
    ||| u == 0x2029
    ||| u == 0x202F
    ||| u == 0x205F
    ||| u == 0x3000
}

/// `s` without its leading white space.
pub open spec fn trim_start(s: Seq<char>) -> Seq<char>
    decreases s.len(),
{
    if s.len() > 0 && is_white_space(s.first()) {
        trim_start(s.drop_first())
    } else {
        s
    }
}

/// `s` without its trailing white space.
pub open spec fn trim_end(s: Seq<char>) -> Seq<char>
    decreases s.len(),
{
    if s.len() > 0 && is_white_space(s.last()) {
        trim_end(s.drop_last())
    } else {
        s
    }
}

/// `s` without its leading and trailing white space.
pub open spec fn trim(s: Seq<char>) -> Seq<char> {
    trim_end(trim_start(s))
}

/// The text that `bytes` spell, where they are well-formed UTF-8.
pub open spec fn text_of(bytes: Seq<u8>) -> Option<Seq<char>> {
    if valid_utf8(bytes) {
        Some(decode_utf8(bytes))
    } else {
        None
    }
}

/// The direction that one property value names: `Some(true)` for inbound and
/// `Some(false)` for outbound, where the value is text that reads, white space
/// at its ends apart, exactly `inbound` or `outbound`. `None` for an absent
/// value, for bytes that are no text, and for any other text.
pub open spec fn named_direction(value: Option<Seq<u8>>) -> Option<bool> {
    match value {
        Some(bytes) => match text_of(bytes) {
            Some(text) => if trim(text) == "inbound"@ {
                Some(true)
            } else if trim(text) == "outbound"@ {
                Some(false)
            } else {
                None
            },
            None => None,
        },
        None => None,
    }
}

/// The direction named by the first value of `values` that names one.
pub open spec fn first_named(values: Seq<Option<Seq<u8>>>) -> Option<bool>
    decreases values.len(),
{
    if values.len() == 0 {
        None
    } else {
        match named_direction(values.first()) {
            Some(d) => Some(d),
            None => first_named(values.drop_first()),
        }
    }
}

/// Whether the exchange is inbound: the first value that names a direction
/// decides, and an exchange of which none does is outbound.
pub open spec fn resolved_inbound(values: Seq<Option<Seq<u8>>>) -> bool {
    first_named(values) == Some(true)
}

/// The property values as plain byte sequences.
pub open spec fn values_of(values: Seq<Option<Vec<u8>>>) -> Seq<Option<Seq<u8>>> {
    values.map_values(
        |v: Option<Vec<u8>>|
            match v {
                Some(bytes) => Some(bytes@),
                None => None,
            },
    )
}

/// `std::str::from_utf8`: the text of `bytes`, which exists exactly where the
/// bytes are well-formed UTF-8 and is then the characters that they encode.
#[verifier::external_body]
fn utf8_text(bytes: &[u8]) -> (text: Option<&str>)
    ensures
        text is Some <==> valid_utf8(bytes@),
        text matches Some(t) ==> t@ == decode_utf8(bytes@),
{
    match std::str::from_utf8(bytes) {
        Ok(t) => Some(t),
        Err(_) => None,
    }
}

/// Whether `c` is white space.
fn is_space(c: char) -> (b: bool)
    ensures
        b == is_white_space(c),
{
    let u: u32 = c as u32;
    (0x09 <= u && u <= 0x0D) || u == 0x20 || u == 0x85 || u == 0xA0 || u == 0x1680 || (0x2000 <= u
        && u <= 0x200A) || u == 0x2028 || u == 0x2029 || u == 0x202F || u == 0x205F || u == 0x3000
}

/// The characters of `text`, in order.
fn chars_of(text: &str) -> (chars: Vec<char>)
    ensures
        chars@ == text@,
{
    let mut chars: Vec<char> = Vec::new();
    for c in it: text.chars()
        invariant
            it.seq() == text@,
            chars@ == it.seq().take(it.index() as int),
    {
        chars.push(c);
        proof {
            assert(it.seq().take(it.index() + 1) =~= it.seq().take(it.index() as int).push(c));
        }
    }
    proof {
        assert(text@.take(text@.len() as int) =~= text@);
    }
    chars
}

/// Where the trimmed part of `chars` begins and ends.
fn trim_bounds(chars: &[char]) -> (bounds: (usize, usize))
    ensures
        bounds.0 <= bounds.1 <= chars@.len(),
        chars@.subrange(bounds.0 as int, bounds.1 as int) == trim(chars@),
{
    let n = chars.len();
    let mut from: usize = 0;
    proof {
        assert(chars@.skip(0) =~= chars@);
    }
    while from < n && is_space(chars[from])
        invariant
            0 <= from <= n,
            n == chars@.len(),
            trim_start(chars@) == trim_start(chars@.skip(from as int)),
        decreases n - from,
    {
        proof {
            assert(chars@.skip(from as int).first() == chars@[from as int]);
            assert(chars@.skip(from as int).drop_first() =~= chars@.skip(from + 1));
        }
        from += 1;
    }
    proof {
        if from < n {
            assert(chars@.skip(from as int).first() == chars@[from as int]);
        }
        assert(trim_start(chars@) == chars@.skip(from as int));
        assert(chars@.skip(from as int) =~= chars@.subrange(from as int, n as int));
    }
    let mut to: usize = n;
    while to > from && is_space(chars[to - 1])
        invariant
            from <= to <= n,
            n == chars@.len(),
            trim(chars@) == trim_end(chars@.subrange(from as int, to as int)),
        decreases to,
    {
        proof {
            assert(chars@.subrange(from as int, to as int).last() == chars@[to - 1]);
            assert(chars@.subrange(from as int, to as int).drop_last() =~= chars@.subrange(
                from as int,
                to - 1,
            ));
        }
        to -= 1;
    }
    proof {
        if to > from {
            assert(chars@.subrange(from as int, to as int).last() == chars@[to - 1]);
        }
    }
    (from, to)
}

/// Whether the part of `chars` from `from` up to `to` reads exactly `word`.
fn spells(chars: &[char], from: usize, to: usize, word: &str) -> (same: bool)
    requires
        from <= to <= chars@.len(),
    ensures
        same == (chars@.subrange(from as int, to as int) == word@),
{
    let expected = chars_of(word);
    if to - from != expected.len() {
        return false;
    }
    let ghost part = chars@.subrange(from as int, to as int);
    let mut k: usize = 0;
    while k < expected.len()
        invariant
            0 <= k <= expected.len(),
            from <= to <= chars@.len(),
            to - from == expected.len(),
            part == chars@.subrange(from as int, to as int),
            expected@ == word@,
            forall|j: int| 0 <= j < k ==> part[j] == expected@[j],
        decreases expected.len() - k,
    {
        if chars[from + k] != expected[k] {
            assert(part[k as int] != word@[k as int]);
            return false;
        }
        k += 1;
    }
    proof {
        assert(part =~= word@);
    }
    true
}

/// Reads the direction that one property value names.
pub fn read_direction(value: Option<&[u8]>) -> (named: Option<bool>)
    ensures
        named == named_direction(
            match value {
                Some(bytes) => Some(bytes@),
                None => None,
            },
        ),
{
    match value {
        Some(bytes) => match utf8_text(bytes) {
            Some(text) => {
                let chars = chars_of(text);
                let (from, to) = trim_bounds(chars.as_slice());
                if spells(chars.as_slice(), from, to, "inbound") {
                    Some(true)
                } else if spells(chars.as_slice(), from, to, "outbound") {
                    Some(false)
                } else {
                    None
                }
            },
            None => None,
        },
        None => None,
    }
}

/// Decides from the candidate property values, most specific first, whether the
/// exchange is inbound. The first value that names a direction decides; where
/// none does, the exchange is outbound.
pub fn detect_inbound(values: &[Option<Vec<u8>>]) -> (inbound: bool)
    ensures
        inbound == resolved_inbound(values_of(values@)),
{
    let ghost all = values_of(values@);
    let mut i: usize = 0;
    proof {
        assert(all.skip(0) =~= all);
    }
    while i < values.len()
        invariant
            0 <= i <= values.len(),
            all == values_of(values@),
            first_named(all) == first_named(all.skip(i as int)),
        decreases values.len() - i,
    {
        let ghost rest = all.skip(i as int);
        proof {
            assert(rest.first() == all[i as int]);
            assert(rest.drop_first() =~= all.skip(i + 1));
        }
        let named = match &values[i] {
            Some(bytes) => read_direction(Some(bytes.as_slice())),
            None => read_direction(None),
        };
        match named {
            Some(d) => {
                return d;
            },
            None => {},
        }
        i += 1;
    }
    false
}

/// The property paths to read for [`detect_inbound`], most specific first.
pub fn candidate_keys() -> (keys: Vec<Vec<&'static str>>)
    ensures
        keys@.len() == 2,
        keys@[0]@.len() == 2,
        keys@[0]@[0]@ == "listener"@,
        keys@[0]@[1]@ == "direction"@,
        keys@[1]@.len() == 1,
        keys@[1]@[0]@ == "listener_direction"@,
{
    let mut structured: Vec<&'static str> = Vec::new();
    structured.push("listener");
    structured.push("direction");
    let mut flat: Vec<&'static str> = Vec::new();
    flat.push("listener_direction");
    let mut keys: Vec<Vec<&'static str>> = Vec::new();
    keys.push(structured);
    keys.push(flat);
    keys
}

/// A property that reads `inbound` makes the exchange inbound, whatever the
/// candidates after it hold.
pub proof fn lemma_inbound_property(values: Seq<Option<Seq<u8>>>)
    requires
        values.len() > 0,
        values[0] == Some("inbound".spec_bytes()),
    ensures
        resolved_inbound(values),
{
    lemma_literals();
    encode_utf8_valid_utf8("inbound"@);
    encode_utf8_decode_utf8("inbound"@);
}

/// A property that reads `outbound` makes the exchange outbound, whatever the
/// candidates after it hold.
pub proof fn lemma_outbound_property(values: Seq<Option<Seq<u8>>>)
    requires
        values.len() > 0,
        values[0] == Some("outbound".spec_bytes()),
    ensures
        !resolved_inbound(values),
{
    lemma_literals();
    encode_utf8_valid_utf8("outbound"@);
    encode_utf8_decode_utf8("outbound"@);
}

/// Where no candidate names a direction (each is absent, is no text, or reads
/// something else), the exchange is outbound.
pub proof fn lemma_outbound_by_default(values: Seq<Option<Seq<u8>>>)
    requires
        forall|i: int| 0 <= i < values.len() ==> named_direction(#[trigger] values[i]) is None,
    ensures
        first_named(values) is None,
        !resolved_inbound(values),
    decreases values.len(),
{
    if values.len() > 0 {
        let rest = values.drop_first();
        assert forall|i: int| 0 <= i < rest.len() implies named_direction(#[trigger] rest[i]) is None by {
            assert(rest[i] == values[i + 1]);
        }
        lemma_outbound_by_default(rest);
    }
}

/// Candidates that name no direction are passed over: the first one that names
/// one decides.
pub proof fn lemma_first_named_decides(values: Seq<Option<Seq<u8>>>, k: int)
    requires
        0 <= k < values.len(),
        forall|i: int| 0 <= i < k ==> named_direction(#[trigger] values[i]) is None,
        named_direction(values[k]) is Some,
    ensures
        first_named(values) == named_direction(values[k]),
    decreases k,
{
    if k > 0 {
        let rest = values.drop_first();
        assert forall|i: int| 0 <= i < k - 1 implies named_direction(#[trigger] rest[i]) is None by {
            assert(rest[i] == values[i + 1]);
        }
        assert(rest[k - 1] == values[k]);
        lemma_first_named_decides(rest, k - 1);
    }
}

/// The two words are what they read and are their own trimmed form.
proof fn lemma_literals()
    ensures
        trim("inbound"@) == "inbound"@,
        trim("outbound"@) == "outbound"@,
        "inbound"@ != "outbound"@,
{
    reveal_strlit("inbound");
    reveal_strlit("outbound");
    assert("inbound"@.len() == 7);
    assert("outbound"@.len() == 8);
    assert("inbound"@.first() == 'i');
    assert("inbound"@.last() == 'd');
    assert("outbound"@.first() == 'o');
    assert("outbound"@.last() == 'd');
}

} // verus!
