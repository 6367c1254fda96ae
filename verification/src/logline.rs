//! The structured log line of an exchange: one JSON object on one line, built as bytes.

use vstd::prelude::*;
use vstd::string::*;

verus! {

/// The longest request path, in bytes, that a log line carries.
pub const PATH_LIMIT: usize = 200;

/// The decimal digits of `n`, without leading zeros.
pub open spec fn decimal(n: nat) -> Seq<u8>
    decreases n,
{
    if n < 10 {
        seq![(48 + n) as u8]
    } else {
        decimal(n / 10).push((48 + n % 10) as u8)
    }
}

/// What one byte becomes inside a quoted field: a double quote gets a backslash
/// in front of it, every other byte stays as it is.
pub open spec fn escaped_byte(b: u8) -> Seq<u8> {
    if b == 34 {
        seq![92u8, 34u8]
    } else {
        seq![b]
    }
}

/// `s` with every byte replaced by its escaped form.
pub open spec fn escaped(s: Seq<u8>) -> Seq<u8>
    decreases s.len(),
{
    if s.len() == 0 {
        Seq::empty()
    } else {
        escaped(s.drop_last()) + escaped_byte(s.last())
    }
}

/// The first `max` bytes of `s`, or all of `s` where it is no longer than that.
pub open spec fn truncated(s: Seq<u8>, max: nat) -> Seq<u8> {
    if s.len() > max {
        s.take(max as int)
    } else {
        s
    }
}

/// The word that names a direction in the log line.
pub open spec fn direction_word(inbound: bool) -> Seq<u8> {
    if inbound {
        "inbound".spec_bytes()
    } else {
        "outbound".spec_bytes()
    }
}

/// The log line of an exchange. The fields come in a fixed order: `dir`, `dur_ms`,
/// `method`, `status`, `authority`, `path`. The method is written as received, the
/// authority escaped, the path cut to [`PATH_LIMIT`] bytes and then escaped.
pub open spec fn log_line(
    inbound: bool,
    dur_ms: u64,
    method: Seq<u8>,
    status: u32,
    authority: Seq<u8>,
    path: Seq<u8>,
) -> Seq<u8> {
    "{\"dir\":\"".spec_bytes() + direction_word(inbound) + "\",\"dur_ms\":".spec_bytes() + decimal(
        dur_ms as nat,
    ) + ",\"method\":\"".spec_bytes() + method + "\",\"status\":".spec_bytes() + decimal(
        status as nat,
    ) + ",\"authority\":\"".spec_bytes() + escaped(authority) + "\",\"path\":\"".spec_bytes()
        + escaped(truncated(path, PATH_LIMIT as nat)) + "\"}".spec_bytes()
}

/// Escaping a text and then one more byte is escaping the two in turn.
pub proof fn lemma_escaped_push(s: Seq<u8>, b: u8)
    ensures
        escaped(s.push(b)) == escaped(s) + escaped_byte(b),
{
    assert(s.push(b).drop_last() =~= s);
}

/// In an escaped text no double quote stands bare: each one has a backslash
/// directly in front of it.
pub proof fn lemma_escaped_quotes_guarded(s: Seq<u8>, i: int)
    requires
        0 <= i < escaped(s).len(),
        escaped(s)[i] == 34,
    ensures
        i > 0,
        escaped(s)[i - 1] == 92,
    decreases s.len(),
{
    if s.len() > 0 {
        let head = escaped(s.drop_last());
        if i < head.len() {
            lemma_escaped_quotes_guarded(s.drop_last(), i);
        }
    }
}

/// A text without a double quote is its own escaped form.
pub proof fn lemma_escaped_plain(s: Seq<u8>)
    requires
        forall|i: int| 0 <= i < s.len() ==> s[i] != 34,
    ensures
        escaped(s) == s,
    decreases s.len(),
{
    if s.len() > 0 {
        lemma_escaped_plain(s.drop_last());
        assert(escaped(s) =~= s);
    }
}

/// A truncated text is a prefix of the text, as long as the text or the limit,
/// whichever is less.
pub proof fn lemma_truncated_len(s: Seq<u8>, max: nat)
    ensures
        truncated(s, max).len() == if s.len() > max { max } else { s.len() },
        truncated(s, max) == s.take(truncated(s, max).len() as int),
{
    if s.len() <= max {
        assert(s.take(s.len() as int) =~= s);
    }
}

/// Appends `piece` to `out`.
pub fn append_bytes(out: &mut Vec<u8>, piece: &[u8])
    ensures
        final(out)@ == old(out)@ + piece@,
{
    let mut i: usize = 0;
    while i < piece.len()
        invariant
            0 <= i <= piece.len(),
            out@ == old(out)@ + piece@.take(i as int),
        decreases piece.len() - i,
    {
        out.push(piece[i]);
        proof {
            assert(piece@.take(i + 1) =~= piece@.take(i as int).push(piece@[i as int]));
        }
        i += 1;
    }
    proof {
        assert(piece@.take(i as int) =~= piece@);
    }
}

/// Appends the decimal digits of `n` to `out`.
pub fn append_decimal(out: &mut Vec<u8>, n: u64)
    ensures
        final(out)@ == old(out)@ + decimal(n as nat),
    decreases n,
{
    if n >= 10 {
        append_decimal(out, n / 10);
    }
    let digit: u8 = (n % 10) as u8;
    out.push(48 + digit);
    proof {
        if n >= 10 {
            assert(final(out)@ =~= old(out)@ + decimal(n as nat));
        } else {
            assert(final(out)@ =~= old(out)@ + decimal(n as nat));
        }
    }
}

/// Puts a backslash in front of every double quote of `s`. Nothing else is
/// changed: control characters and backslashes pass through as they are.
pub fn escape(s: &[u8]) -> (r: Vec<u8>)
    ensures
        r@ == escaped(s@),
{
    let mut out: Vec<u8> = Vec::new();
    let mut i: usize = 0;
    while i < s.len()
        invariant
            0 <= i <= s.len(),
            out@ == escaped(s@.take(i as int)),
        decreases s.len() - i,
    {
        let b = s[i];
        proof {
            lemma_escaped_push(s@.take(i as int), b);
            assert(s@.take(i + 1) =~= s@.take(i as int).push(b));
        }
        if b == 34 {
            out.push(92);
            out.push(34);
            assert(out@ =~= escaped(s@.take(i as int)) + escaped_byte(b));
        } else {
            out.push(b);
            assert(out@ =~= escaped(s@.take(i as int)) + escaped_byte(b));
        }
        i += 1;
    }
    proof {
        assert(s@.take(i as int) =~= s@);
    }
    out
}

/// Cuts `s` to its first `max` bytes; a text no longer than that comes back whole.
pub fn truncate(s: Vec<u8>, max: usize) -> (r: Vec<u8>)
    ensures
        r@ == truncated(s@, max as nat),
        r@.len() == if s@.len() > max { max as nat } else { s@.len() },
{
    let mut s = s;
    if s.len() > max {
        s.truncate(max);
    }
    s
}

/// Builds the log line of an exchange.
pub fn format_log_line(
    inbound: bool,
    dur_ms: u64,
    method: &[u8],
    status: u32,
    authority: &[u8],
    path: Vec<u8>,
) -> (line: Vec<u8>)
    ensures
        line@ == log_line(inbound, dur_ms, method@, status, authority@, path@),
{
    let ghost whole_path = path@;
    let short_path = truncate(path, PATH_LIMIT);
    let quoted_authority = escape(authority);
    let quoted_path = escape(short_path.as_slice());
    let mut line: Vec<u8> = Vec::new();
    append_bytes(&mut line, "{\"dir\":\"".as_bytes());
    append_bytes(&mut line, if inbound { "inbound".as_bytes() } else { "outbound".as_bytes() });
    append_bytes(&mut line, "\",\"dur_ms\":".as_bytes());
    append_decimal(&mut line, dur_ms);
    append_bytes(&mut line, ",\"method\":\"".as_bytes());
    append_bytes(&mut line, method);
    append_bytes(&mut line, "\",\"status\":".as_bytes());
    append_decimal(&mut line, status as u64);
    append_bytes(&mut line, ",\"authority\":\"".as_bytes());
    append_bytes(&mut line, quoted_authority.as_slice());
    append_bytes(&mut line, "\",\"path\":\"".as_bytes());
    append_bytes(&mut line, quoted_path.as_slice());
    append_bytes(&mut line, "\"}".as_bytes());
    proof {
        assert(line@ =~= log_line(inbound, dur_ms, method@, status, authority@, whole_path));
    }
    line
}

} // verus!
