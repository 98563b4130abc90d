//! Serialization of outbound command frames.
//!
//! An outbound frame is JSON text `{"id": N, "cmd": ..., "params": {...}}`.
//! Every piece is specified character by character: decimal numbers, JSON
//! string escaping, and comma-joined lists.

use vstd::prelude::*;
use crate::channels::{Channel, spec_wire_name};
use crate::strings::push_char;

verus! {

// --- Decimal numbers ---

/// The digit characters.
pub open spec fn spec_digit(d: int) -> char {
    if d == 0 {
        '0'
    } else if d == 1 {
        '1'
    } else if d == 2 {
        '2'
    } else if d == 3 {
        '3'
    } else if d == 4 {
        '4'
    } else if d == 5 {
        '5'
    } else if d == 6 {
        '6'
    } else if d == 7 {
        '7'
    } else if d == 8 {
        '8'
    } else {
        '9'
    }
}

/// The decimal digits of a non-negative number, most significant first.
pub open spec fn spec_dec_nat(n: int) -> Seq<char>
    recommends
        n >= 0,
    decreases n,
{
    if n < 10 {
        seq![spec_digit(n)]
    } else {
        spec_dec_nat(n / 10).push(spec_digit(n % 10))
    }
}

/// The decimal rendering of an integer, with a leading minus when negative.
pub open spec fn spec_dec_int(v: int) -> Seq<char> {
    if v < 0 {
        seq!['-'] + spec_dec_nat(-v)
    } else {
        spec_dec_nat(v)
    }
}

fn digit_char(d: u64) -> (c: char)
    requires
        d < 10,
    ensures
        c == spec_digit(d as int),
{
    match d {
        0 => '0',
        1 => '1',
        2 => '2',
        3 => '3',
        4 => '4',
        5 => '5',
        6 => '6',
        7 => '7',
        8 => '8',
        _ => '9',
    }
}

/// The reverse of a character sequence.
pub open spec fn rev_chars(s: Seq<char>) -> Seq<char> {
    Seq::new(s.len(), |j: int| s[s.len() - 1 - j])
}

/// Writes a non-negative number in decimal.
#[verifier::loop_isolation(false)]
fn fmt_u64(n: u64) -> (s: String)
    ensures
        s@ == spec_dec_nat(n as int),
{
    let mut digits: Vec<char> = Vec::new();
    let mut m: u64 = n;
    while m >= 10
        invariant
            spec_dec_nat(n as int) == spec_dec_nat(m as int) + rev_chars(digits@),
        decreases m,
    {
        let ghost before = digits@;
        digits.push(digit_char(m % 10));
        proof {
            assert(rev_chars(digits@) =~= seq![spec_digit(m as int % 10)] + rev_chars(before));
            assert(spec_dec_nat(m as int)
                == spec_dec_nat(m as int / 10).push(spec_digit(m as int % 10)));
            assert(spec_dec_nat(m as int / 10).push(spec_digit(m as int % 10))
                + rev_chars(before)
                =~= spec_dec_nat(m as int / 10)
                + (seq![spec_digit(m as int % 10)] + rev_chars(before)));
        }
        m = m / 10;
    }
    let ghost before = digits@;
    digits.push(digit_char(m));
    proof {
        assert(rev_chars(digits@) =~= seq![spec_digit(m as int)] + rev_chars(before));
        assert(spec_dec_nat(m as int) + rev_chars(before)
            =~= seq![spec_digit(m as int)] + rev_chars(before));
        assert(spec_dec_nat(n as int) == rev_chars(digits@));
    }
    let mut s = String::new();
    let count = digits.len();
    let mut k: usize = 0;
    while k < count
        invariant
            k <= count,
            count == digits@.len(),
            s@.len() == k,
            forall|j: int| 0 <= j < k ==> s@[j] == digits@[count - 1 - j],
        decreases count - k,
    {
        push_char(&mut s, digits[count - 1 - k]);
        k = k + 1;
    }
    assert(s@ =~= rev_chars(digits@));
    s
}

/// Writes an integer in decimal.
pub fn fmt_i64(v: i64) -> (s: String)
    ensures
        s@ == spec_dec_int(v as int),
{
    if v < 0 {
        let mag: u64 = (-(v as i128)) as u64;
        let mut s = String::new();
        push_char(&mut s, '-');
        let digits = fmt_u64(mag);
        s.append(digits.as_str());
        proof {
            assert(s@ =~= seq!['-'] + spec_dec_nat(-(v as int)));
        }
        s
    } else {
        fmt_u64(v as u64)
    }
}

/// Writes a 32-bit integer in decimal.
pub fn fmt_i32(v: i32) -> (s: String)
    ensures
        s@ == spec_dec_int(v as int),
{
    fmt_i64(v as i64)
}

// --- JSON string escaping ---

/// The hexadecimal digit characters.
pub open spec fn spec_hex_digit(d: int) -> char {
    if d < 10 {
        spec_digit(d)
    } else if d == 10 {
        'a'
    } else if d == 11 {
        'b'
    } else if d == 12 {
        'c'
    } else if d == 13 {
        'd'
    } else if d == 14 {
        'e'
    } else {
        'f'
    }
}

/// How one character appears inside a JSON string literal: quote, backslash
/// and the common control characters get two-character escapes, any other
/// control character a `\u00XX` escape, and everything else stands as is.
pub open spec fn spec_escape_char(c: char) -> Seq<char> {
    if c == '"' {
        seq!['\\', '"']
    } else if c == '\\' {
        seq!['\\', '\\']
    } else if c == '\n' {
        seq!['\\', 'n']
    } else if c == '\r' {
        seq!['\\', 'r']
    } else if c == '\t' {
        seq!['\\', 't']
    } else if (c as int) < 32 {
        seq!['\\', 'u', '0', '0', spec_hex_digit(c as int / 16), spec_hex_digit(c as int % 16)]
    } else {
        seq![c]
    }
}

/// A whole string, escaped.
pub open spec fn spec_escape(s: Seq<char>) -> Seq<char>
    decreases s.len(),
{
    if s.len() == 0 {
        Seq::empty()
    } else {
        spec_escape_char(s[0]) + spec_escape(s.drop_first())
    }
}

/// A string as a JSON string literal: quoted and escaped.
pub open spec fn spec_quoted(s: Seq<char>) -> Seq<char> {
    seq!['"'] + spec_escape(s) + seq!['"']
}

/// Escaping one character at a time agrees with escaping all at once.
proof fn lemma_escape_snoc(s: Seq<char>, c: char)
    ensures
        spec_escape(s.push(c)) == spec_escape(s) + spec_escape_char(c),
    decreases s.len(),
{
    if s.len() == 0 {
        assert(s.push(c)[0] == c);
        assert(s.push(c).drop_first() =~= Seq::<char>::empty());
        assert(spec_escape(Seq::<char>::empty()) == Seq::<char>::empty());
        assert(spec_escape(s.push(c))
            == spec_escape_char(c) + spec_escape(s.push(c).drop_first()));
        assert(spec_escape_char(c) + Seq::<char>::empty() =~= spec_escape_char(c));
        assert(spec_escape(s) + spec_escape_char(c) =~= spec_escape_char(c));
    } else {
        assert(s.push(c)[0] == s[0]);
        assert(s.push(c).drop_first() =~= s.drop_first().push(c));
        lemma_escape_snoc(s.drop_first(), c);
        assert(spec_escape(s.push(c))
            == spec_escape_char(s[0]) + spec_escape(s.drop_first().push(c)));
        assert(spec_escape_char(s[0]) + (spec_escape(s.drop_first()) + spec_escape_char(c))
            =~= (spec_escape_char(s[0]) + spec_escape(s.drop_first())) + spec_escape_char(c));
    }
}

/// The characters of a string slice.
#[verifier::loop_isolation(false)]
fn str_chars(s: &str) -> (r: Vec<char>)
    ensures
        r@ == s@,
{
    broadcast use vstd::string::axiom_spec_iter;

    let mut out: Vec<char> = Vec::new();
    for c in it: s.chars()
        invariant
            out@ == it.seq().take(it.index() as int),
    {
        let ghost before = out@;
        out.push(c);
        proof {
            assert(out@ =~= it.seq().take(it.index() as int + 1));
        }
    }
    proof {
        assert(out@ =~= s@);
    }
    out
}

/// Appends one escaped character.
fn push_escaped_char(out: &mut String, c: char)
    ensures
        final(out)@ == old(out)@ + spec_escape_char(c),
{
    let ghost start = out@;
    if c == '"' {
        push_char(out, '\\');
        push_char(out, '"');
        assert(out@ =~= start + spec_escape_char(c));
    } else if c == '\\' {
        push_char(out, '\\');
        push_char(out, '\\');
        assert(out@ =~= start + spec_escape_char(c));
    } else if c == '\n' {
        push_char(out, '\\');
        push_char(out, 'n');
        assert(out@ =~= start + spec_escape_char(c));
    } else if c == '\r' {
        push_char(out, '\\');
        push_char(out, 'r');
        assert(out@ =~= start + spec_escape_char(c));
    } else if c == '\t' {
        push_char(out, '\\');
        push_char(out, 't');
        assert(out@ =~= start + spec_escape_char(c));
    } else if (c as u32) < 32 {
        push_char(out, '\\');
        push_char(out, 'u');
        push_char(out, '0');
        push_char(out, '0');
        let d = (c as u32) as u64;
        let hi = hex_char(d / 16);
        let lo = hex_char(d % 16);
        push_char(out, hi);
        push_char(out, lo);
        assert(out@ =~= start + spec_escape_char(c));
    } else {
        push_char(out, c);
        assert(out@ =~= start + spec_escape_char(c));
    }
}

fn hex_char(d: u64) -> (c: char)
    requires
        d < 16,
    ensures
        c == spec_hex_digit(d as int),
{
    if d < 10 {
        digit_char(d)
    } else {
        match d {
            10 => 'a',
            11 => 'b',
            12 => 'c',
            13 => 'd',
            14 => 'e',
            _ => 'f',
        }
    }
}

/// Appends a string escaped for a JSON literal.
#[verifier::loop_isolation(false)]
fn append_escaped(out: &mut String, s: &str)
    ensures
        final(out)@ == old(out)@ + spec_escape(s@),
{
    let chars = str_chars(s);
    let mut k: usize = 0;
    proof {
        assert(s@.take(0) =~= Seq::<char>::empty());
        assert(old(out)@ + Seq::<char>::empty() =~= old(out)@);
    }
    while k < chars.len()
        invariant
            k <= chars@.len(),
            out@ == old(out)@ + spec_escape(s@.take(k as int)),
        decreases chars@.len() - k,
    {
        push_escaped_char(out, chars[k]);
        proof {
            lemma_escape_snoc(s@.take(k as int), s@[k as int]);
            assert(s@.take(k as int).push(s@[k as int]) =~= s@.take(k + 1));
            assert((old(out)@ + spec_escape(s@.take(k as int))) + spec_escape_char(s@[k as int])
                =~= old(out)@ + (spec_escape(s@.take(k as int)) + spec_escape_char(s@[k as int])));
        }
        k = k + 1;
    }
    proof {
        assert(s@.take(s@.len() as int) =~= s@);
    }
}

/// Appends a JSON string literal: quote, escaped text, quote.
fn append_quoted(out: &mut String, s: &str)
    ensures
        final(out)@ == old(out)@ + spec_quoted(s@),
{
    let ghost start = out@;
    push_char(out, '"');
    append_escaped(out, s);
    push_char(out, '"');
    assert(out@ =~= start + spec_quoted(s@));
}

// --- Comma-joined lists ---

/// Pieces joined with commas: `a`, `a,b`, `a,b,c`, ...
pub open spec fn spec_join_comma(parts: Seq<Seq<char>>) -> Seq<char>
    decreases parts.len(),
{
    if parts.len() == 0 {
        Seq::empty()
    } else if parts.len() == 1 {
        parts[0]
    } else {
        parts[0] + seq![','] + spec_join_comma(parts.drop_first())
    }
}

/// Joining one more piece extends the join by a comma and the piece.
proof fn lemma_join_snoc(parts: Seq<Seq<char>>, x: Seq<char>)
    ensures
        spec_join_comma(parts.push(x)) == if parts.len() == 0 {
            x
        } else {
            spec_join_comma(parts) + seq![','] + x
        },
    decreases parts.len(),
{
    if parts.len() == 0 {
        assert(parts.push(x)[0] == x);
        assert(parts.push(x).len() == 1);
    } else {
        assert(parts.push(x)[0] == parts[0]);
        assert(parts.push(x).drop_first() =~= parts.drop_first().push(x));
        lemma_join_snoc(parts.drop_first(), x);
        if parts.len() == 1 {
            assert(parts.drop_first().len() == 0);
            assert(spec_join_comma(parts.push(x))
                == parts[0] + seq![','] + spec_join_comma(parts.drop_first().push(x)));
            assert(spec_join_comma(parts) == parts[0]);
        } else {
            assert(spec_join_comma(parts.push(x))
                == parts[0] + seq![','] + spec_join_comma(parts.drop_first().push(x)));
            assert(spec_join_comma(parts) == parts[0] + seq![','] + spec_join_comma(
                parts.drop_first(),
            ));
            assert(parts[0] + seq![','] + (spec_join_comma(parts.drop_first()) + seq![','] + x)
                =~= (parts[0] + seq![','] + spec_join_comma(parts.drop_first())) + seq![','] + x);
        }
    }
}

/// The channels as a list of quoted wire names.
pub open spec fn spec_channel_parts(cs: Seq<Channel>) -> Seq<Seq<char>> {
    cs.map_values(|c: Channel| spec_quoted(spec_wire_name(c)))
}

/// The tickers as a list of quoted strings.
pub open spec fn spec_string_parts(ts: Seq<Seq<char>>) -> Seq<Seq<char>> {
    ts.map_values(|t: Seq<char>| spec_quoted(t))
}

/// The sids as a list of decimal numbers.
pub open spec fn spec_sid_parts(sids: Seq<i32>) -> Seq<Seq<char>> {
    sids.map_values(|v: i32| spec_dec_int(v as int))
}

/// Appends the channels as a comma-joined list of quoted wire names.
#[verifier::loop_isolation(false)]
fn append_channel_list(out: &mut String, cs: &Vec<Channel>)
    ensures
        final(out)@ == old(out)@ + spec_join_comma(spec_channel_parts(cs@)),
{
    let mut k: usize = 0;
    proof {
        assert(spec_channel_parts(cs@).take(0) =~= Seq::<Seq<char>>::empty());
        assert(old(out)@ + Seq::<char>::empty() =~= old(out)@);
    }
    while k < cs.len()
        invariant
            k <= cs@.len(),
            out@ == old(out)@ + spec_join_comma(spec_channel_parts(cs@).take(k as int)),
        decreases cs@.len() - k,
    {
        let ghost sofar = out@;
        if k > 0 {
            push_char(out, ',');
        }
        let name = cs[k].wire_name();
        append_quoted(out, name.as_str());
        proof {
            let parts = spec_channel_parts(cs@);
            lemma_join_snoc(parts.take(k as int), parts[k as int]);
            assert(parts.take(k as int).push(parts[k as int]) =~= parts.take(k + 1));
            assert(parts[k as int] == spec_quoted(spec_wire_name(cs@[k as int])));
            if k > 0 {
                assert(out@ =~= old(out)@ + spec_join_comma(parts.take(k + 1)));
            } else {
                assert(parts.take(0).len() == 0);
                assert(out@ =~= old(out)@ + spec_join_comma(parts.take(1)));
            }
        }
        k = k + 1;
    }
    proof {
        assert(spec_channel_parts(cs@).take(cs@.len() as int) =~= spec_channel_parts(cs@));
    }
}

/// Appends the tickers as a comma-joined list of quoted strings.
#[verifier::loop_isolation(false)]
fn append_string_list(out: &mut String, ts: &Vec<String>)
    ensures
        final(out)@ == old(out)@ + spec_join_comma(
            spec_string_parts(crate::strings::str_views(ts@)),
        ),
{
    let mut k: usize = 0;
    proof {
        assert(spec_string_parts(crate::strings::str_views(ts@)).take(0)
            =~= Seq::<Seq<char>>::empty());
        assert(old(out)@ + Seq::<char>::empty() =~= old(out)@);
    }
    while k < ts.len()
        invariant
            k <= ts@.len(),
            out@ == old(out)@ + spec_join_comma(
                spec_string_parts(crate::strings::str_views(ts@)).take(k as int),
            ),
        decreases ts@.len() - k,
    {
        if k > 0 {
            push_char(out, ',');
        }
        append_quoted(out, ts[k].as_str());
        proof {
            let parts = spec_string_parts(crate::strings::str_views(ts@));
            lemma_join_snoc(parts.take(k as int), parts[k as int]);
            assert(parts.take(k as int).push(parts[k as int]) =~= parts.take(k + 1));
            assert(parts[k as int] == spec_quoted(ts@[k as int]@));
            if k > 0 {
                assert(out@ =~= old(out)@ + spec_join_comma(parts.take(k + 1)));
            } else {
                assert(parts.take(0).len() == 0);
                assert(out@ =~= old(out)@ + spec_join_comma(parts.take(1)));
            }
        }
        k = k + 1;
    }
    proof {
        let parts = spec_string_parts(crate::strings::str_views(ts@));
        assert(parts.take(ts@.len() as int) =~= parts);
    }
}

/// Appends the sids as a comma-joined list of decimal numbers.
#[verifier::loop_isolation(false)]
fn append_sid_list(out: &mut String, sids: &Vec<i32>)
    ensures
        final(out)@ == old(out)@ + spec_join_comma(spec_sid_parts(sids@)),
{
    let mut k: usize = 0;
    proof {
        assert(spec_sid_parts(sids@).take(0) =~= Seq::<Seq<char>>::empty());
        assert(old(out)@ + Seq::<char>::empty() =~= old(out)@);
    }
    while k < sids.len()
        invariant
            k <= sids@.len(),
            out@ == old(out)@ + spec_join_comma(spec_sid_parts(sids@).take(k as int)),
        decreases sids@.len() - k,
    {
        if k > 0 {
            push_char(out, ',');
        }
        let num = fmt_i32(sids[k]);
        out.append(num.as_str());
        proof {
            let parts = spec_sid_parts(sids@);
            lemma_join_snoc(parts.take(k as int), parts[k as int]);
            assert(parts.take(k as int).push(parts[k as int]) =~= parts.take(k + 1));
            assert(parts[k as int] == spec_dec_int(sids@[k as int] as int));
            if k > 0 {
                assert(out@ =~= old(out)@ + spec_join_comma(parts.take(k + 1)));
            } else {
                assert(parts.take(0).len() == 0);
                assert(out@ =~= old(out)@ + spec_join_comma(parts.take(1)));
            }
        }
        k = k + 1;
    }
    proof {
        assert(spec_sid_parts(sids@).take(sids@.len() as int) =~= spec_sid_parts(sids@));
    }
}

// --- The three command frames ---

/// The text of a subscribe command.
pub open spec fn spec_subscribe_cmd(
    id: int,
    channels: Seq<Channel>,
    market_ticker: Option<Seq<char>>,
    market_tickers: Option<Seq<Seq<char>>>,
) -> Seq<char> {
    "{\"id\":"@ + spec_dec_int(id) + ",\"cmd\":\"subscribe\",\"params\":{\"channels\":["@
        + spec_join_comma(spec_channel_parts(channels)) + "]"@ + (match market_ticker {
        Some(t) => ",\"market_ticker\":"@ + spec_quoted(t),
        None => Seq::empty(),
    }) + (match market_tickers {
        Some(ts) => ",\"market_tickers\":["@ + spec_join_comma(spec_string_parts(ts)) + "]"@,
        None => Seq::empty(),
    }) + "}}"@
}

/// Writes a subscribe command.
pub fn build_subscribe_cmd(
    id: i32,
    channels: &Vec<Channel>,
    market_ticker: &Option<String>,
    market_tickers: &Option<Vec<String>>,
) -> (s: String)
    ensures
        s@ == spec_subscribe_cmd(
            id as int,
            channels@,
            match market_ticker {
                Some(t) => Some(t@),
                None => None,
            },
            match market_tickers {
                Some(ts) => Some(crate::strings::str_views(ts@)),
                None => None,
            },
        ),
{
    let mut s = String::new();
    s.append("{\"id\":");
    let num = fmt_i32(id);
    s.append(num.as_str());
    s.append(",\"cmd\":\"subscribe\",\"params\":{\"channels\":[");
    append_channel_list(&mut s, channels);
    s.append("]");
    match market_ticker {
        Some(t) => {
            s.append(",\"market_ticker\":");
            append_quoted(&mut s, t.as_str());
        },
        None => {},
    }
    match market_tickers {
        Some(ts) => {
            s.append(",\"market_tickers\":[");
            append_string_list(&mut s, ts);
            s.append("]");
        },
        None => {},
    }
    s.append("}}");
    proof {
        assert(s@ =~= spec_subscribe_cmd(
            id as int,
            channels@,
            match market_ticker {
                Some(t) => Some(t@),
                None => None,
            },
            match market_tickers {
                Some(ts) => Some(crate::strings::str_views(ts@)),
                None => None,
            },
        ));
    }
    s
}

/// The text of an unsubscribe command.
pub open spec fn spec_unsubscribe_cmd(id: int, sids: Seq<i32>) -> Seq<char> {
    "{\"id\":"@ + spec_dec_int(id) + ",\"cmd\":\"unsubscribe\",\"params\":{\"sids\":["@
        + spec_join_comma(spec_sid_parts(sids)) + "]}}"@
}

/// Writes an unsubscribe command.
pub fn build_unsubscribe_cmd(id: i32, sids: &Vec<i32>) -> (s: String)
    ensures
        s@ == spec_unsubscribe_cmd(id as int, sids@),
{
    let mut s = String::new();
    s.append("{\"id\":");
    let num = fmt_i32(id);
    s.append(num.as_str());
    s.append(",\"cmd\":\"unsubscribe\",\"params\":{\"sids\":[");
    append_sid_list(&mut s, sids);
    s.append("]}}");
    proof {
        assert(s@ =~= spec_unsubscribe_cmd(id as int, sids@));
    }
    s
}

/// The wire name of an update action.
pub open spec fn spec_action_name(add: bool) -> Seq<char> {
    if add {
        "add_markets"@
    } else {
        "delete_markets"@
    }
}

/// The text of an update-subscription command.
pub open spec fn spec_update_cmd(
    id: int,
    sids: Seq<i32>,
    tickers: Seq<Seq<char>>,
    add: bool,
) -> Seq<char> {
    "{\"id\":"@ + spec_dec_int(id) + ",\"cmd\":\"update_subscription\",\"params\":{\"sids\":["@
        + spec_join_comma(spec_sid_parts(sids)) + "],\"market_tickers\":["@
        + spec_join_comma(spec_string_parts(tickers)) + "],\"action\":\""@
        + spec_action_name(add) + "\"}}"@
}

/// Writes an update-subscription command.
pub fn build_update_cmd(id: i32, sids: &Vec<i32>, tickers: &Vec<String>, add: bool) -> (s: String)
    ensures
        s@ == spec_update_cmd(
            id as int,
            sids@,
            crate::strings::str_views(tickers@),
            add,
        ),
{
    let mut s = String::new();
    s.append("{\"id\":");
    let num = fmt_i32(id);
    s.append(num.as_str());
    s.append(",\"cmd\":\"update_subscription\",\"params\":{\"sids\":[");
    append_sid_list(&mut s, sids);
    s.append("],\"market_tickers\":[");
    append_string_list(&mut s, tickers);
    s.append("],\"action\":\"");
    if add {
        s.append("add_markets");
    } else {
        s.append("delete_markets");
    }
    s.append("\"}}");
    proof {
        assert(s@ =~= spec_update_cmd(
            id as int,
            sids@,
            crate::strings::str_views(tickers@),
            add,
        ));
    }
    s
}

} // verus!
