//! Canonical transport framing for signing requests and responses.
//!
//! The external signer receives an unsigned event and returns a signed one
//! as JSON text. The library frames and checks those bytes itself: the
//! serializer below produces the canonical form (fields in fixed order, no
//! whitespace, strings escaped), and the parser accepts exactly what a
//! signer answering in that form produces. Parsing a signed event back out
//! of the serializer's output returns the event unchanged: see
//! [`crate::signer`] for the round-trip law.
//!
//! Strings travel as raw bytes. The escaper maps `"` to `\"`, `\` to `\\`,
//! and newline, carriage return and tab to `\n`, `\r`, `\t`; other bytes
//! pass through unchanged.

use vstd::prelude::*;

verus! {

/// The escape sequence of one byte.
pub open spec fn esc_byte(b: u8) -> Seq<u8> {
    if b == 34 {
        seq![92u8, 34u8]
    } else if b == 92 {
        seq![92u8, 92u8]
    } else if b == 10 {
        seq![92u8, 110u8]
    } else if b == 13 {
        seq![92u8, 114u8]
    } else if b == 9 {
        seq![92u8, 116u8]
    } else {
        seq![b]
    }
}

/// The escaped form of a byte string.
pub open spec fn escaped(s: Seq<u8>) -> Seq<u8>
    decreases s.len(),
{
    if s.len() == 0 {
        Seq::empty()
    } else {
        esc_byte(s[0]) + escaped(s.drop_first())
    }
}

/// A JSON string: quote, escaped content, quote.
pub open spec fn json_string(s: Seq<u8>) -> Seq<u8> {
    seq![34u8] + escaped(s) + seq![34u8]
}

/// The decimal digits of `n`, most significant first.
pub open spec fn dec_digits(n: int) -> Seq<u8>
    decreases n,
{
    if n < 10 {
        seq![(48 + if n >= 0 {
            n
        } else {
            0
        }) as u8]
    } else {
        dec_digits(n / 10).push((48 + n % 10) as u8)
    }
}

/// The tail of a JSON string array: a comma and a string for each element.
pub open spec fn strings_array_rest(ts: Seq<Seq<u8>>) -> Seq<u8>
    decreases ts.len(),
{
    if ts.len() == 0 {
        Seq::empty()
    } else {
        seq![44u8] + json_string(ts[0]) + strings_array_rest(ts.drop_first())
    }
}

/// A JSON array of strings.
pub open spec fn strings_array(ts: Seq<Seq<u8>>) -> Seq<u8> {
    if ts.len() == 0 {
        seq![91u8, 93u8]
    } else {
        seq![91u8] + json_string(ts[0]) + strings_array_rest(ts.drop_first()) + seq![93u8]
    }
}

/// The tail of the tags array: a comma and a string array for each tag.
pub open spec fn tags_array_rest(tags: Seq<Seq<Seq<u8>>>) -> Seq<u8>
    decreases tags.len(),
{
    if tags.len() == 0 {
        Seq::empty()
    } else {
        seq![44u8] + strings_array(tags[0]) + tags_array_rest(tags.drop_first())
    }
}

/// The JSON array of an event's tags.
pub open spec fn tags_array(tags: Seq<Seq<Seq<u8>>>) -> Seq<u8> {
    if tags.len() == 0 {
        seq![91u8, 93u8]
    } else {
        seq![91u8] + strings_array(tags[0]) + tags_array_rest(tags.drop_first()) + seq![93u8]
    }
}

/// `{"id":"` — the opening of a signed event.
pub open spec fn lit_open_id() -> Seq<u8> {
    seq![123u8, 34u8, 105u8, 100u8, 34u8, 58u8, 34u8]
}

/// `{"pubkey":"` — the opening of an unsigned event.
pub open spec fn lit_open_pubkey() -> Seq<u8> {
    seq![123u8, 34u8, 112u8, 117u8, 98u8, 107u8, 101u8, 121u8, 34u8, 58u8, 34u8]
}

/// `,"pubkey":"` — between the id and the pubkey.
pub open spec fn lit_pubkey() -> Seq<u8> {
    seq![44u8, 34u8, 112u8, 117u8, 98u8, 107u8, 101u8, 121u8, 34u8, 58u8, 34u8]
}

/// `,"created_at":` — before the timestamp.
pub open spec fn lit_created_at() -> Seq<u8> {
    seq![
        44u8,
        34u8,
        99u8,
        114u8,
        101u8,
        97u8,
        116u8,
        101u8,
        100u8,
        95u8,
        97u8,
        116u8,
        34u8,
        58u8,
    ]
}

/// `,"kind":` — before the kind.
pub open spec fn lit_kind() -> Seq<u8> {
    seq![44u8, 34u8, 107u8, 105u8, 110u8, 100u8, 34u8, 58u8]
}

/// `,"tags":` — before the tags array.
pub open spec fn lit_tags() -> Seq<u8> {
    seq![44u8, 34u8, 116u8, 97u8, 103u8, 115u8, 34u8, 58u8]
}

/// `,"content":"` — before the content.
pub open spec fn lit_content() -> Seq<u8> {
    seq![44u8, 34u8, 99u8, 111u8, 110u8, 116u8, 101u8, 110u8, 116u8, 34u8, 58u8, 34u8]
}

/// `,"sig":"` — before the signature.
pub open spec fn lit_sig() -> Seq<u8> {
    seq![44u8, 34u8, 115u8, 105u8, 103u8, 34u8, 58u8, 34u8]
}

/// An unsigned event ready for signing.
#[derive(Debug, Clone)]
pub struct UnsignedEventData {
    /// The author's public key, 64 hex digits.
    pub pubkey: Vec<u8>,
    /// The event's creation time, Unix seconds.
    pub created_at: u64,
    /// The event kind.
    pub kind: u16,
    /// The event's tags.
    pub tags: Vec<Vec<Vec<u8>>>,
    /// The event's content.
    pub content: Vec<u8>,
}

/// A fully signed event.
#[derive(Debug, Clone)]
pub struct EventData {
    /// The event identifier, 64 hex digits.
    pub id: Vec<u8>,
    /// The author's public key, 64 hex digits.
    pub pubkey: Vec<u8>,
    /// The event's creation time, Unix seconds.
    pub created_at: u64,
    /// The event kind.
    pub kind: u16,
    /// The event's tags.
    pub tags: Vec<Vec<Vec<u8>>>,
    /// The event's content.
    pub content: Vec<u8>,
    /// The Schnorr signature, 128 hex digits.
    pub sig: Vec<u8>,
}

/// The deep view of a tag list.
pub open spec fn tags_view(tags: Vec<Vec<Vec<u8>>>) -> Seq<Seq<Seq<u8>>> {
    tags@.map_values(|t: Vec<Vec<u8>>| t@.map_values(|e: Vec<u8>| e@))
}

/// The canonical JSON of an unsigned event.
pub open spec fn unsigned_event_json(e: UnsignedEventData) -> Seq<u8> {
    lit_open_pubkey() + escaped(e.pubkey@) + seq![34u8] + lit_created_at() + dec_digits(
        e.created_at as int,
    ) + lit_kind() + dec_digits(e.kind as int) + lit_tags() + tags_array(tags_view(e.tags))
        + lit_content() + escaped(e.content@) + seq![34u8] + seq![125u8]
}

/// The canonical JSON of a signed event.
pub open spec fn event_json(e: EventData) -> Seq<u8> {
    lit_open_id() + escaped(e.id@) + seq![34u8] + lit_pubkey() + escaped(e.pubkey@) + seq![34u8]
        + lit_created_at() + dec_digits(e.created_at as int) + lit_kind() + dec_digits(
        e.kind as int,
    ) + lit_tags() + tags_array(tags_view(e.tags)) + lit_content() + escaped(e.content@)
        + seq![34u8] + lit_sig() + escaped(e.sig@) + seq![34u8] + seq![125u8]
}

/// Appends the escaped form of `s` to `out`.
fn push_escaped(out: &mut Vec<u8>, s: &Vec<u8>)
    ensures
        final(out)@ == old(out)@ + escaped(s@),
{
    let ghost base = out@;
    let mut i: usize = 0;
    while i < s.len()
        invariant
            i <= s@.len(),
            out@ == base + escaped(s@.take(i as int)),
        decreases s@.len() - i,
    {
        let b = s[i];
        proof {
            lemma_escaped_snoc(s@, i as int);
        }
        if b == 34 {
            out.push(92);
            out.push(34);
        } else if b == 92 {
            out.push(92);
            out.push(92);
        } else if b == 10 {
            out.push(92);
            out.push(110);
        } else if b == 13 {
            out.push(92);
            out.push(114);
        } else if b == 9 {
            out.push(92);
            out.push(116);
        } else {
            out.push(b);
        }
        proof {
            assert(out@ =~= base + escaped(s@.take(i + 1)));
        }
        i = i + 1;
    }
    proof {
        assert(s@.take(s@.len() as int) =~= s@);
    }
}

/// Escaping one more byte appends its escape sequence.
proof fn lemma_escaped_snoc(s: Seq<u8>, i: int)
    requires
        0 <= i < s.len(),
    ensures
        escaped(s.take(i + 1)) == escaped(s.take(i)) + esc_byte(s[i]),
{
    lemma_escaped_append(s.take(i), s[i]);
    assert(s.take(i + 1) =~= s.take(i).push(s[i]));
}

/// Escaping `a` then one more byte is escaping `a.push(b)`.
proof fn lemma_escaped_append(a: Seq<u8>, b: u8)
    ensures
        escaped(a.push(b)) == escaped(a) + esc_byte(b),
    decreases a.len(),
{
    if a.len() == 0 {
        assert(a.push(b).drop_first() =~= a);
        assert(escaped(a.push(b)) =~= esc_byte(b));
        assert(escaped(a) + esc_byte(b) =~= esc_byte(b));
    } else {
        assert(a.push(b).drop_first() =~= a.drop_first().push(b));
        lemma_escaped_append(a.drop_first(), b);
        assert(escaped(a.push(b)) =~= escaped(a) + esc_byte(b));
    }
}

/// Appends the decimal digits of `n` to `out`.
fn push_dec(out: &mut Vec<u8>, n: u64)
    ensures
        final(out)@ == old(out)@ + dec_digits(n as int),
    decreases n,
{
    if n < 10 {
        out.push((48 + n) as u8);
    } else {
        push_dec(out, n / 10);
        out.push((48 + (n % 10)) as u8);
    }
}

/// Appends a whole JSON string (quotes included) to `out`.
fn push_json_string(out: &mut Vec<u8>, s: &Vec<u8>)
    ensures
        final(out)@ == old(out)@ + json_string(s@),
{
    out.push(34);
    push_escaped(out, s);
    out.push(34);
    proof {
        assert(final(out)@ =~= old(out)@ + json_string(s@));
    }
}

/// Appends the JSON array of one tag's entries to `out`.
fn push_strings_array(out: &mut Vec<u8>, tag: &Vec<Vec<u8>>)
    ensures
        final(out)@ == old(out)@ + strings_array(tag@.map_values(|e: Vec<u8>| e@)),
{
    let ghost ts = tag@.map_values(|e: Vec<u8>| e@);
    out.push(91);
    if tag.len() == 0 {
        out.push(93);
        proof {
            assert(final(out)@ =~= old(out)@ + strings_array(ts));
        }
        return ;
    }
    push_json_string(out, &tag[0]);
    let ghost base = out@;
    let mut i: usize = 1;
    while i < tag.len()
        invariant
            1 <= i <= tag@.len(),
            ts == tag@.map_values(|e: Vec<u8>| e@),
            out@ == base + strings_array_rest(ts.subrange(1, i as int)),
        decreases tag@.len() - i,
    {
        out.push(44);
        push_json_string(out, &tag[i]);
        proof {
            lemma_strings_array_rest_snoc(ts, i as int);
            assert(out@ =~= base + strings_array_rest(ts.subrange(1, i + 1)));
        }
        i = i + 1;
    }
    out.push(93);
    proof {
        assert(ts.subrange(1, ts.len() as int) =~= ts.drop_first());
        assert(final(out)@ =~= old(out)@ + strings_array(ts));
    }
}

/// One more element extends the array tail by a comma and its string.
proof fn lemma_strings_array_rest_snoc(ts: Seq<Seq<u8>>, i: int)
    requires
        1 <= i < ts.len(),
    ensures
        strings_array_rest(ts.subrange(1, i + 1)) == strings_array_rest(ts.subrange(1, i))
            + seq![44u8] + json_string(ts[i]),
{
    lemma_strings_array_rest_append(ts.subrange(1, i), ts[i]);
    assert(ts.subrange(1, i + 1) =~= ts.subrange(1, i).push(ts[i]));
    assert(strings_array_rest(ts.subrange(1, i).push(ts[i])) =~= strings_array_rest(
        ts.subrange(1, i),
    ) + seq![44u8] + json_string(ts[i]));
}

/// The array tail of `a.push(b)` is the tail of `a` plus `b`'s part.
proof fn lemma_strings_array_rest_append(a: Seq<Seq<u8>>, b: Seq<u8>)
    ensures
        strings_array_rest(a.push(b)) == strings_array_rest(a) + seq![44u8] + json_string(b),
    decreases a.len(),
{
    if a.len() == 0 {
        assert(a.push(b).drop_first() =~= a);
        assert(strings_array_rest(a.push(b)) =~= strings_array_rest(a) + seq![44u8] + json_string(
            b,
        ));
    } else {
        assert(a.push(b).drop_first() =~= a.drop_first().push(b));
        lemma_strings_array_rest_append(a.drop_first(), b);
        assert(strings_array_rest(a.push(b)) =~= strings_array_rest(a) + seq![44u8] + json_string(
            b,
        ));
    }
}

/// Appends the JSON array of all tags to `out`.
fn push_tags_array(out: &mut Vec<u8>, tags: &Vec<Vec<Vec<u8>>>)
    ensures
        final(out)@ == old(out)@ + tags_array(tags_view(*tags)),
{
    let ghost ts = tags_view(*tags);
    out.push(91);
    if tags.len() == 0 {
        out.push(93);
        proof {
            assert(final(out)@ =~= old(out)@ + tags_array(ts));
        }
        return ;
    }
    push_strings_array(out, &tags[0]);
    let ghost base = out@;
    let mut i: usize = 1;
    while i < tags.len()
        invariant
            1 <= i <= tags@.len(),
            ts == tags_view(*tags),
            ts.len() == tags@.len(),
            out@ == base + tags_array_rest(ts.subrange(1, i as int)),
        decreases tags@.len() - i,
    {
        out.push(44);
        push_strings_array(out, &tags[i]);
        proof {
            lemma_tags_array_rest_snoc(ts, i as int);
            assert(out@ =~= base + tags_array_rest(ts.subrange(1, i + 1)));
        }
        i = i + 1;
    }
    out.push(93);
    proof {
        assert(ts.subrange(1, ts.len() as int) =~= ts.drop_first());
        assert(final(out)@ =~= old(out)@ + tags_array(ts));
    }
}

/// One more tag extends the tags tail by a comma and its array.
proof fn lemma_tags_array_rest_snoc(ts: Seq<Seq<Seq<u8>>>, i: int)
    requires
        1 <= i < ts.len(),
    ensures
        tags_array_rest(ts.subrange(1, i + 1)) == tags_array_rest(ts.subrange(1, i)) + seq![44u8]
            + strings_array(ts[i]),
{
    lemma_tags_array_rest_append(ts.subrange(1, i), ts[i]);
    assert(ts.subrange(1, i + 1) =~= ts.subrange(1, i).push(ts[i]));
    assert(tags_array_rest(ts.subrange(1, i).push(ts[i])) =~= tags_array_rest(ts.subrange(1, i))
        + seq![44u8] + strings_array(ts[i]));
}

/// The tags tail of `a.push(b)` is the tail of `a` plus `b`'s part.
proof fn lemma_tags_array_rest_append(a: Seq<Seq<Seq<u8>>>, b: Seq<Seq<u8>>)
    ensures
        tags_array_rest(a.push(b)) == tags_array_rest(a) + seq![44u8] + strings_array(b),
    decreases a.len(),
{
    if a.len() == 0 {
        assert(a.push(b).drop_first() =~= a);
        assert(tags_array_rest(a.push(b)) =~= tags_array_rest(a) + seq![44u8] + strings_array(b));
    } else {
        assert(a.push(b).drop_first() =~= a.drop_first().push(b));
        lemma_tags_array_rest_append(a.drop_first(), b);
        assert(tags_array_rest(a.push(b)) =~= tags_array_rest(a) + seq![44u8] + strings_array(b));
    }
}

/// Appends a literal byte sequence; callers state which one.
fn push_bytes(out: &mut Vec<u8>, bytes: &[u8])
    ensures
        final(out)@ == old(out)@ + bytes@,
{
    let ghost base = out@;
    let mut i: usize = 0;
    while i < bytes.len()
        invariant
            i <= bytes@.len(),
            out@ == base + bytes@.take(i as int),
        decreases bytes@.len() - i,
    {
        out.push(bytes[i]);
        proof {
            assert(out@ =~= base + bytes@.take(i + 1));
        }
        i = i + 1;
    }
    proof {
        assert(bytes@.take(bytes@.len() as int) =~= bytes@);
    }
}

/// Serializes an unsigned event to its canonical transport form.
pub fn serialize_unsigned_event(e: &UnsignedEventData) -> (out: Vec<u8>)
    ensures
        out@ == unsigned_event_json(*e),
{
    let mut out: Vec<u8> = Vec::new();
    let lit1: [u8; 11] = [123, 34, 112, 117, 98, 107, 101, 121, 34, 58, 34];
    push_bytes(&mut out, lit1.as_slice());
    proof {
        assert(lit1@ =~= lit_open_pubkey());
    }
    push_escaped(&mut out, &e.pubkey);
    out.push(34);
    let lit2: [u8; 14] = [44, 34, 99, 114, 101, 97, 116, 101, 100, 95, 97, 116, 34, 58];
    push_bytes(&mut out, lit2.as_slice());
    proof {
        assert(lit2@ =~= lit_created_at());
    }
    push_dec(&mut out, e.created_at);
    let lit3: [u8; 8] = [44, 34, 107, 105, 110, 100, 34, 58];
    push_bytes(&mut out, lit3.as_slice());
    proof {
        assert(lit3@ =~= lit_kind());
    }
    push_dec(&mut out, e.kind as u64);
    let lit4: [u8; 8] = [44, 34, 116, 97, 103, 115, 34, 58];
    push_bytes(&mut out, lit4.as_slice());
    proof {
        assert(lit4@ =~= lit_tags());
    }
    push_tags_array(&mut out, &e.tags);
    let lit5: [u8; 12] = [44, 34, 99, 111, 110, 116, 101, 110, 116, 34, 58, 34];
    push_bytes(&mut out, lit5.as_slice());
    proof {
        assert(lit5@ =~= lit_content());
    }
    push_escaped(&mut out, &e.content);
    out.push(34);
    out.push(125);
    proof {
        assert(dec_digits(e.kind as u64 as int) == dec_digits(e.kind as int));
        assert(out@ =~= unsigned_event_json(*e));
    }
    out
}

/// Serializes a signed event to its canonical transport form.
pub fn serialize_event(e: &EventData) -> (out: Vec<u8>)
    ensures
        out@ == event_json(*e),
{
    let mut out: Vec<u8> = Vec::new();
    let lit1: [u8; 7] = [123, 34, 105, 100, 34, 58, 34];
    push_bytes(&mut out, lit1.as_slice());
    proof {
        assert(lit1@ =~= lit_open_id());
    }
    push_escaped(&mut out, &e.id);
    out.push(34);
    let lit2: [u8; 11] = [44, 34, 112, 117, 98, 107, 101, 121, 34, 58, 34];
    push_bytes(&mut out, lit2.as_slice());
    proof {
        assert(lit2@ =~= lit_pubkey());
    }
    push_escaped(&mut out, &e.pubkey);
    out.push(34);
    let lit3: [u8; 14] = [44, 34, 99, 114, 101, 97, 116, 101, 100, 95, 97, 116, 34, 58];
    push_bytes(&mut out, lit3.as_slice());
    proof {
        assert(lit3@ =~= lit_created_at());
    }
    push_dec(&mut out, e.created_at);
    let lit4: [u8; 8] = [44, 34, 107, 105, 110, 100, 34, 58];
    push_bytes(&mut out, lit4.as_slice());
    proof {
        assert(lit4@ =~= lit_kind());
    }
    push_dec(&mut out, e.kind as u64);
    let lit5: [u8; 8] = [44, 34, 116, 97, 103, 115, 34, 58];
    push_bytes(&mut out, lit5.as_slice());
    proof {
        assert(lit5@ =~= lit_tags());
    }
    push_tags_array(&mut out, &e.tags);
    let lit6: [u8; 12] = [44, 34, 99, 111, 110, 116, 101, 110, 116, 34, 58, 34];
    push_bytes(&mut out, lit6.as_slice());
    proof {
        assert(lit6@ =~= lit_content());
    }
    push_escaped(&mut out, &e.content);
    out.push(34);
    let lit7: [u8; 8] = [44, 34, 115, 105, 103, 34, 58, 34];
    push_bytes(&mut out, lit7.as_slice());
    proof {
        assert(lit7@ =~= lit_sig());
    }
    push_escaped(&mut out, &e.sig);
    out.push(34);
    out.push(125);
    proof {
        assert(dec_digits(e.kind as u64 as int) == dec_digits(e.kind as int));
        assert(out@ =~= event_json(*e));
    }
    out
}

/// Whether `b` is a decimal digit.
pub open spec fn is_digit(b: u8) -> bool {
    48 <= b <= 57
}

/// Whether `b` is a hex digit, either case.
pub open spec fn is_hex_byte(b: u8) -> bool {
    (48 <= b <= 57) || (97 <= b <= 102) || (65 <= b <= 70)
}

/// Whether every byte of `s` is a hex digit.
pub open spec fn all_hex_bytes(s: Seq<u8>) -> bool {
    forall|i: int| 0 <= i < s.len() ==> is_hex_byte(#[trigger] s[i])
}

/// Whether `p` is a prefix of `s`.
pub open spec fn starts_with(s: Seq<u8>, p: Seq<u8>) -> bool {
    s.len() >= p.len() && s.take(p.len() as int) == p
}

/// Parses a string body after its opening quote: the content and the
/// number of bytes consumed, closing quote included.
pub open spec fn parse_string_body(s: Seq<u8>) -> Option<(Seq<u8>, int)>
    decreases s.len(),
{
    if s.len() == 0 {
        None
    } else if s[0] == 34 {
        Some((Seq::empty(), 1))
    } else if s[0] == 92 {
        if s.len() < 2 {
            None
        } else if s[1] == 34 || s[1] == 92 || s[1] == 110 || s[1] == 114 || s[1] == 116 {
            let c: u8 = if s[1] == 34 {
                34
            } else if s[1] == 92 {
                92
            } else if s[1] == 110 {
                10
            } else if s[1] == 114 {
                13
            } else {
                9
            };
            match parse_string_body(s.skip(2)) {
                Some(p) => Some((seq![c] + p.0, p.1 + 2)),
                None => None,
            }
        } else {
            None
        }
    } else {
        match parse_string_body(s.skip(1)) {
            Some(p) => Some((seq![s[0]] + p.0, p.1 + 1)),
            None => None,
        }
    }
}

/// A successful string parse consumes between 1 byte and the whole input.
pub proof fn lemma_parse_string_body_bounds(s: Seq<u8>)
    ensures
        parse_string_body(s) matches Some(p) ==> 1 <= p.1 <= s.len(),
    decreases s.len(),
{
    if s.len() == 0 {
    } else if s[0] == 34 {
    } else if s[0] == 92 {
        if s.len() >= 2 {
            lemma_parse_string_body_bounds(s.skip(2));
        }
    } else {
        lemma_parse_string_body_bounds(s.skip(1));
    }
}

/// How many leading digits `s` has.
pub open spec fn digit_count(s: Seq<u8>) -> int
    decreases s.len(),
{
    if s.len() == 0 || !is_digit(s[0]) {
        0
    } else {
        1 + digit_count(s.drop_first())
    }
}

/// The value of a digit string.
pub open spec fn digits_value(s: Seq<u8>) -> int
    decreases s.len(),
{
    if s.len() == 0 {
        0
    } else {
        digits_value(s.drop_last()) * 10 + (s.last() - 48)
    }
}

/// Parses a decimal number: its value and the digits consumed.
pub open spec fn parse_number(s: Seq<u8>) -> Option<(int, int)> {
    if digit_count(s) == 0 {
        None
    } else {
        Some((digits_value(s.take(digit_count(s))), digit_count(s)))
    }
}

/// Parses `"s0","s1",...]` — the items of a non-empty string array,
/// starting at the first quote. Returns the items and the bytes consumed,
/// closing bracket included.
pub open spec fn parse_strings_items(s: Seq<u8>) -> Option<(Seq<Seq<u8>>, int)>
    decreases s.len(),
{
    if s.len() == 0 || s[0] != 34 {
        None
    } else {
        match parse_string_body(s.skip(1)) {
            None => None,
            Some(p) => {
                if p.1 < 1 || 1 + p.1 >= s.len() {
                    None
                } else {
                    let rest = s.skip(1 + p.1);
                    if rest[0] == 93 {
                        Some((seq![p.0], p.1 + 2))
                    } else if rest[0] == 44 {
                        match parse_strings_items(rest.skip(1)) {
                            None => None,
                            Some(q) => Some((seq![p.0] + q.0, p.1 + 2 + q.1)),
                        }
                    } else {
                        None
                    }
                }
            },
        }
    }
}

/// Parses a JSON string array: the items and the bytes consumed.
pub open spec fn parse_strings_array(s: Seq<u8>) -> Option<(Seq<Seq<u8>>, int)> {
    if s.len() < 2 || s[0] != 91 {
        None
    } else if s[1] == 93 {
        Some((Seq::empty(), 2))
    } else {
        match parse_strings_items(s.skip(1)) {
            None => None,
            Some(p) => Some((p.0, p.1 + 1)),
        }
    }
}

/// Parses `[..],[..],...]` — the items of a non-empty tags array,
/// starting at the first inner bracket.
pub open spec fn parse_tags_items(s: Seq<u8>) -> Option<(Seq<Seq<Seq<u8>>>, int)>
    decreases s.len(),
{
    if s.len() == 0 || s[0] != 91 {
        None
    } else {
        match parse_strings_array(s) {
            None => None,
            Some(p) => {
                if p.1 < 2 || p.1 >= s.len() {
                    None
                } else {
                    let rest = s.skip(p.1);
                    if rest[0] == 93 {
                        Some((seq![p.0], p.1 + 1))
                    } else if rest[0] == 44 {
                        match parse_tags_items(rest.skip(1)) {
                            None => None,
                            Some(q) => Some((seq![p.0] + q.0, p.1 + 1 + q.1)),
                        }
                    } else {
                        None
                    }
                }
            },
        }
    }
}

/// Parses the tags array: the tags and the bytes consumed.
pub open spec fn parse_tags_array(s: Seq<u8>) -> Option<(Seq<Seq<Seq<u8>>>, int)> {
    if s.len() < 2 || s[0] != 91 {
        None
    } else if s[1] == 93 {
        Some((Seq::empty(), 2))
    } else {
        match parse_tags_items(s.skip(1)) {
            None => None,
            Some(p) => Some((p.0, p.1 + 1)),
        }
    }
}

/// Parsing an escaped string body after its opening quote recovers the
/// original bytes and stops at the closing quote.
pub proof fn lemma_parse_string_round(v: Seq<u8>, rest: Seq<u8>)
    ensures
        parse_string_body(escaped(v) + seq![34u8] + rest) == Some::<(Seq<u8>, int)>(
            (v, escaped(v).len() as int + 1),
        ),
    decreases v.len(),
{
    let s = escaped(v) + seq![34u8] + rest;
    if v.len() == 0 {
        assert(escaped(v) =~= Seq::<u8>::empty());
        assert(s =~= seq![34u8] + rest);
        assert(s[0] == 34);
        assert(v =~= Seq::<u8>::empty());
    } else {
        let b = v[0];
        let w = v.drop_first();
        lemma_parse_string_round(w, rest);
        let s2 = escaped(w) + seq![34u8] + rest;
        assert(escaped(v) == esc_byte(b) + escaped(w));
        if b == 34 {
            assert(s =~= seq![92u8, 34u8] + s2);
            assert(s[0] == 92 && s[1] == 34);
            assert(s.skip(2) =~= s2);
            assert(seq![34u8] + w =~= v);
        } else if b == 92 {
            assert(s =~= seq![92u8, 92u8] + s2);
            assert(s[0] == 92 && s[1] == 92);
            assert(s.skip(2) =~= s2);
            assert(seq![92u8] + w =~= v);
        } else if b == 10 {
            assert(s =~= seq![92u8, 110u8] + s2);
            assert(s[0] == 92 && s[1] == 110);
            assert(s.skip(2) =~= s2);
            assert(seq![10u8] + w =~= v);
        } else if b == 13 {
            assert(s =~= seq![92u8, 114u8] + s2);
            assert(s[0] == 92 && s[1] == 114);
            assert(s.skip(2) =~= s2);
            assert(seq![13u8] + w =~= v);
        } else if b == 9 {
            assert(s =~= seq![92u8, 116u8] + s2);
            assert(s[0] == 92 && s[1] == 116);
            assert(s.skip(2) =~= s2);
            assert(seq![9u8] + w =~= v);
        } else {
            assert(esc_byte(b) =~= seq![b]);
            assert(s =~= seq![b] + s2);
            assert(s[0] == b);
            assert(s.skip(1) =~= s2);
            assert(seq![b] + w =~= v);
        }
    }
}

/// The decimal form of a non-negative number: at least one byte, all
/// digits, denoting the number itself.
pub proof fn lemma_dec_digits_props(n: int)
    requires
        n >= 0,
    ensures
        dec_digits(n).len() >= 1,
        forall|i: int| 0 <= i < dec_digits(n).len() ==> is_digit(#[trigger] dec_digits(n)[i]),
        digits_value(dec_digits(n)) == n,
    decreases n,
{
    if n < 10 {
        let d = dec_digits(n);
        assert(d =~= seq![(48 + n) as u8]);
        assert(d.drop_last() =~= Seq::<u8>::empty());
        assert(d.last() == (48 + n) as u8);
        assert(((48 + n) as u8) as int == 48 + n);
        assert(digits_value(d) == digits_value(d.drop_last()) * 10 + (d.last() - 48));
        assert(digits_value(Seq::<u8>::empty()) == 0);
    } else {
        lemma_dec_digits_props(n / 10);
        let d = dec_digits(n / 10);
        let full = dec_digits(n);
        assert(full == d.push((48 + n % 10) as u8));
        assert(full.drop_last() =~= d);
        assert(full.last() == (48 + n % 10) as u8);
        assert(digits_value(full) == digits_value(d) * 10 + (n % 10));
        assert(digits_value(full) == n);
        assert forall|i: int| 0 <= i < full.len() implies is_digit(#[trigger] full[i]) by {
            if i < d.len() {
                assert(full[i] == d[i]);
            } else {
                assert(full[i] == (48 + n % 10) as u8);
            }
        }
    }
}

/// Greedy digit scanning of digits followed by a non-digit counts exactly
/// the digits.
proof fn lemma_digit_count_exact(d: Seq<u8>, rest: Seq<u8>)
    requires
        forall|i: int| 0 <= i < d.len() ==> is_digit(#[trigger] d[i]),
        rest.len() > 0,
        !is_digit(rest[0]),
    ensures
        digit_count(d + rest) == d.len(),
    decreases d.len(),
{
    if d.len() == 0 {
        assert(d + rest =~= rest);
    } else {
        assert((d + rest)[0] == d[0]);
        assert((d + rest).drop_first() =~= d.drop_first() + rest);
        lemma_digit_count_exact(d.drop_first(), rest);
    }
}

/// Parsing the decimal form of a number followed by a non-digit recovers
/// the number and consumes exactly its digits.
pub proof fn lemma_parse_number_round(n: int, rest: Seq<u8>)
    requires
        n >= 0,
        rest.len() > 0,
        !is_digit(rest[0]),
    ensures
        parse_number(dec_digits(n) + rest) == Some::<(int, int)>((n, dec_digits(n).len() as int)),
{
    let d = dec_digits(n);
    lemma_dec_digits_props(n);
    lemma_digit_count_exact(d, rest);
    assert((d + rest).take(d.len() as int) =~= d);
}

/// Parsing the items of a serialized non-empty string array recovers the
/// elements and consumes through the closing bracket.
proof fn lemma_parse_strings_items_round(ts: Seq<Seq<u8>>, after: Seq<u8>)
    requires
        ts.len() >= 1,
    ensures
        parse_strings_items(
            (json_string(ts[0]) + strings_array_rest(ts.drop_first()) + seq![93u8]) + after,
        ) == Some::<(Seq<Seq<u8>>, int)>(
            (ts, (json_string(ts[0]) + strings_array_rest(ts.drop_first()) + seq![93u8]).len() as int),
        ),
    decreases ts.len(),
{
    let t0 = ts[0];
    let x = json_string(t0) + strings_array_rest(ts.drop_first()) + seq![93u8];
    let s = x + after;
    assert(s[0] == 34);
    let tail = strings_array_rest(ts.drop_first()) + seq![93u8] + after;
    assert(s.skip(1) =~= escaped(t0) + seq![34u8] + tail);
    lemma_parse_string_round(t0, tail);
    let n = escaped(t0).len() as int + 1;
    assert(s.len() == 1 + escaped(t0).len() + 1 + tail.len());
    assert(tail.len() >= 1);
    assert(1 <= n && 1 + n < s.len());
    let rest = s.skip(1 + n);
    assert(rest =~= tail);
    if ts.len() == 1 {
        assert(ts.drop_first().len() == 0);
        assert(strings_array_rest(ts.drop_first()) =~= Seq::<u8>::empty());
        assert(tail =~= seq![93u8] + after);
        assert(rest[0] == 93);
        assert(seq![t0] =~= ts);
        assert(x.len() == n + 2);
    } else {
        let dropped = ts.drop_first();
        assert(dropped.len() >= 1);
        assert(strings_array_rest(dropped) == seq![44u8] + json_string(dropped[0])
            + strings_array_rest(dropped.drop_first()));
        assert(rest[0] == 44);
        let x2 = json_string(dropped[0]) + strings_array_rest(dropped.drop_first()) + seq![93u8];
        lemma_parse_strings_items_round(dropped, after);
        assert(rest.skip(1) =~= x2 + after);
        assert(seq![t0] + dropped =~= ts);
        assert(x.len() == n + 2 + x2.len());
    }
}

/// Parsing a serialized string array recovers the elements and consumes
/// exactly the array.
pub proof fn lemma_parse_strings_array_round(ts: Seq<Seq<u8>>, after: Seq<u8>)
    ensures
        parse_strings_array(strings_array(ts) + after) == Some::<(Seq<Seq<u8>>, int)>(
            (ts, strings_array(ts).len() as int),
        ),
{
    let s = strings_array(ts) + after;
    if ts.len() == 0 {
        assert(strings_array(ts) =~= seq![91u8, 93u8]);
        assert(s.len() >= 2 && s[0] == 91 && s[1] == 93);
        assert(ts =~= Seq::<Seq<u8>>::empty());
    } else {
        assert(s[0] == 91);
        let x = json_string(ts[0]) + strings_array_rest(ts.drop_first()) + seq![93u8];
        assert(s.skip(1) =~= x + after);
        assert(s[1] == 34);
        lemma_parse_strings_items_round(ts, after);
        assert(strings_array(ts).len() == 1 + x.len());
    }
}

/// Parsing the items of a serialized non-empty tags array recovers the
/// tags and consumes through the closing bracket.
#[verifier::rlimit(100)]
proof fn lemma_parse_tags_items_round(tags: Seq<Seq<Seq<u8>>>, after: Seq<u8>)
    requires
        tags.len() >= 1,
    ensures
        parse_tags_items(
            (strings_array(tags[0]) + tags_array_rest(tags.drop_first()) + seq![93u8]) + after,
        ) == Some::<(Seq<Seq<Seq<u8>>>, int)>(
            (
                tags,
                (strings_array(tags[0]) + tags_array_rest(tags.drop_first())
                    + seq![93u8]).len() as int,
            ),
        ),
    decreases tags.len(),
{
    let g0 = tags[0];
    let y = strings_array(g0) + tags_array_rest(tags.drop_first()) + seq![93u8];
    let s = y + after;
    assert(s[0] == 91) by {
        assert(strings_array(g0)[0] == 91);
    }
    let tail = tags_array_rest(tags.drop_first()) + seq![93u8] + after;
    assert(s =~= strings_array(g0) + tail);
    lemma_parse_strings_array_round(g0, tail);
    let n = strings_array(g0).len() as int;
    assert(n >= 2);
    assert(s.len() == n + tail.len());
    assert(tail.len() >= 1);
    assert(n < s.len());
    let rest = s.skip(n);
    assert(rest =~= tail);
    if tags.len() == 1 {
        assert(tags.drop_first().len() == 0);
        assert(tags_array_rest(tags.drop_first()) =~= Seq::<u8>::empty());
        assert(tail =~= seq![93u8] + after);
        assert(rest[0] == 93);
        assert(seq![g0] =~= tags);
        assert(y.len() == n + 1);
    } else {
        let dropped = tags.drop_first();
        assert(dropped.len() >= 1);
        assert(tags_array_rest(dropped) == seq![44u8] + strings_array(dropped[0])
            + tags_array_rest(dropped.drop_first()));
        assert(rest[0] == 44);
        let y2 = strings_array(dropped[0]) + tags_array_rest(dropped.drop_first()) + seq![93u8];
        lemma_parse_tags_items_round(dropped, after);
        assert(rest.skip(1) =~= y2 + after);
        assert(seq![g0] + dropped =~= tags);
        assert(y.len() == n + 1 + y2.len());
    }
}

/// Parsing a serialized tags array recovers the tags and consumes exactly
/// the array.
pub proof fn lemma_parse_tags_array_round(tags: Seq<Seq<Seq<u8>>>, after: Seq<u8>)
    ensures
        parse_tags_array(tags_array(tags) + after) == Some::<(Seq<Seq<Seq<u8>>>, int)>(
            (tags, tags_array(tags).len() as int),
        ),
{
    let s = tags_array(tags) + after;
    if tags.len() == 0 {
        assert(tags_array(tags) =~= seq![91u8, 93u8]);
        assert(s.len() >= 2 && s[0] == 91 && s[1] == 93);
        assert(tags =~= Seq::<Seq<Seq<u8>>>::empty());
    } else {
        assert(s[0] == 91);
        let y = strings_array(tags[0]) + tags_array_rest(tags.drop_first()) + seq![93u8];
        assert(s.skip(1) =~= y + after);
        assert(s[1] == 91) by {
            assert(strings_array(tags[0])[0] == 91);
        }
        lemma_parse_tags_items_round(tags, after);
        assert(tags_array(tags).len() == 1 + y.len());
    }
}

/// The fields read back out of a signed-event JSON text.
pub struct EventParts {
    /// The event identifier bytes.
    pub id: Seq<u8>,
    /// The author's public key bytes.
    pub pubkey: Seq<u8>,
    /// The creation time.
    pub created_at: int,
    /// The event kind.
    pub kind: int,
    /// The tags.
    pub tags: Seq<Seq<Seq<u8>>>,
    /// The content bytes.
    pub content: Seq<u8>,
    /// The signature bytes.
    pub sig: Seq<u8>,
}

/// Parses a whole signed event in canonical form. Succeeds only when the
/// entire input is one event whose id, pubkey and sig are hex strings of
/// the right lengths and whose numbers are in range.
pub open spec fn parse_event_json(s: Seq<u8>) -> Option<EventParts> {
    if !starts_with(s, lit_open_id()) {
        None
    } else {
        let s1 = s.skip(lit_open_id().len() as int);
        match parse_string_body(s1) {
            None => None,
            Some(pid) => parse_event_json_pubkey(s1.skip(pid.1), pid.0),
        }
    }
}

/// Continues an event parse at the pubkey field.
pub open spec fn parse_event_json_pubkey(s2: Seq<u8>, id: Seq<u8>) -> Option<EventParts> {
    if !starts_with(s2, lit_pubkey()) {
        None
    } else {
        let s3 = s2.skip(lit_pubkey().len() as int);
        match parse_string_body(s3) {
            None => None,
            Some(ppk) => parse_event_json_created(s3.skip(ppk.1), id, ppk.0),
        }
    }
}

/// Continues an event parse at the creation time.
pub open spec fn parse_event_json_created(s4: Seq<u8>, id: Seq<u8>, pubkey: Seq<u8>) -> Option<
    EventParts,
> {
    if !starts_with(s4, lit_created_at()) {
        None
    } else {
        let s5 = s4.skip(lit_created_at().len() as int);
        match parse_number(s5) {
            None => None,
            Some(pca) => parse_event_json_kind(s5.skip(pca.1), id, pubkey, pca.0),
        }
    }
}

/// Continues an event parse at the kind field.
pub open spec fn parse_event_json_kind(
    s6: Seq<u8>,
    id: Seq<u8>,
    pubkey: Seq<u8>,
    created_at: int,
) -> Option<EventParts> {
    if !starts_with(s6, lit_kind()) {
        None
    } else {
        let s7 = s6.skip(lit_kind().len() as int);
        match parse_number(s7) {
            None => None,
            Some(pk) => parse_event_json_tags(s7.skip(pk.1), id, pubkey, created_at, pk.0),
        }
    }
}

/// Continues an event parse at the tags field.
pub open spec fn parse_event_json_tags(
    s8: Seq<u8>,
    id: Seq<u8>,
    pubkey: Seq<u8>,
    created_at: int,
    kind: int,
) -> Option<EventParts> {
    if !starts_with(s8, lit_tags()) {
        None
    } else {
        let s9 = s8.skip(lit_tags().len() as int);
        match parse_tags_array(s9) {
            None => None,
            Some(pt) => parse_event_json_content(
                s9.skip(pt.1),
                id,
                pubkey,
                created_at,
                kind,
                pt.0,
            ),
        }
    }
}

/// Continues an event parse at the content field.
pub open spec fn parse_event_json_content(
    s10: Seq<u8>,
    id: Seq<u8>,
    pubkey: Seq<u8>,
    created_at: int,
    kind: int,
    tags: Seq<Seq<Seq<u8>>>,
) -> Option<EventParts> {
    if !starts_with(s10, lit_content()) {
        None
    } else {
        let s11 = s10.skip(lit_content().len() as int);
        match parse_string_body(s11) {
            None => None,
            Some(pc) => {
                let s12 = s11.skip(pc.1);
                if !starts_with(s12, lit_sig()) {
                    None
                } else {
                    let s13 = s12.skip(lit_sig().len() as int);
                    match parse_string_body(s13) {
                        None => None,
                        Some(ps) => {
                            let s14 = s13.skip(ps.1);
                            if s14.len() == 1 && s14[0] == 125 && id.len() == 64 && all_hex_bytes(
                                id,
                            ) && pubkey.len() == 64 && all_hex_bytes(pubkey) && ps.0.len() == 128
                                && all_hex_bytes(ps.0) && 0 <= created_at <= u64::MAX && 0 <= kind
                                <= u16::MAX {
                                Some(
                                    EventParts {
                                        id,
                                        pubkey,
                                        created_at,
                                        kind,
                                        tags,
                                        content: pc.0,
                                        sig: ps.0,
                                    },
                                )
                            } else {
                                None
                            }
                        },
                    }
                }
            },
        }
    }
}

/// A signed event in transportable shape: id, pubkey and sig are hex
/// strings of the right lengths. Content and tags may hold any bytes.
pub open spec fn well_formed_event(e: EventData) -> bool {
    e.id@.len() == 64 && all_hex_bytes(e.id@) && e.pubkey@.len() == 64 && all_hex_bytes(e.pubkey@)
        && e.sig@.len() == 128 && all_hex_bytes(e.sig@)
}

/// The parsed fields of a signed event.
pub open spec fn event_parts_of(e: EventData) -> EventParts {
    EventParts {
        id: e.id@,
        pubkey: e.pubkey@,
        created_at: e.created_at as int,
        kind: e.kind as int,
        tags: tags_view(e.tags),
        content: e.content@,
        sig: e.sig@,
    }
}

/// Round trip, content stage: parsing the serialized content and signature
/// suffix recovers the fields.
#[verifier::rlimit(100)]
proof fn lemma_round_trip_content_part(e: EventData, s10: Seq<u8>)
    requires
        well_formed_event(e),
        s10 == lit_content() + escaped(e.content@) + seq![34u8] + lit_sig() + escaped(e.sig@)
            + seq![34u8] + seq![125u8],
    ensures
        parse_event_json_content(
            s10,
            e.id@,
            e.pubkey@,
            e.created_at as int,
            e.kind as int,
            tags_view(e.tags),
        ) == Some(event_parts_of(e)),
{
    assert(starts_with(s10, lit_content())) by {
        assert(s10.take(12) =~= lit_content());
    }
    let t6 = lit_sig() + escaped(e.sig@) + seq![34u8] + seq![125u8];
    let s11 = s10.skip(12);
    assert(s11 =~= escaped(e.content@) + seq![34u8] + t6);
    lemma_parse_string_round(e.content@, t6);
    let n_c = escaped(e.content@).len() as int + 1;
    let s12 = s11.skip(n_c);
    assert(s12 =~= t6);
    assert(starts_with(s12, lit_sig())) by {
        assert(t6.take(8) =~= lit_sig());
    }
    let t7 = seq![125u8];
    let s13 = s12.skip(8);
    assert(s13 =~= escaped(e.sig@) + seq![34u8] + t7);
    lemma_parse_string_round(e.sig@, t7);
    let n_s = escaped(e.sig@).len() as int + 1;
    let s14 = s13.skip(n_s);
    assert(s14 =~= t7);
    assert(s14.len() == 1 && s14[0] == 125);
}

/// Round trip, kind stage: parsing from the kind field onward recovers
/// the fields.
#[verifier::rlimit(100)]
proof fn lemma_round_trip_kind_part(e: EventData, s6: Seq<u8>)
    requires
        well_formed_event(e),
        s6 == lit_kind() + dec_digits(e.kind as int) + lit_tags() + tags_array(tags_view(e.tags))
            + lit_content() + escaped(e.content@) + seq![34u8] + lit_sig() + escaped(e.sig@)
            + seq![34u8] + seq![125u8],
    ensures
        parse_event_json_kind(s6, e.id@, e.pubkey@, e.created_at as int) == Some(
            event_parts_of(e),
        ),
{
    assert(starts_with(s6, lit_kind())) by {
        assert(s6.take(8) =~= lit_kind());
    }
    let t4 = lit_tags() + tags_array(tags_view(e.tags)) + lit_content() + escaped(e.content@)
        + seq![34u8] + lit_sig() + escaped(e.sig@) + seq![34u8] + seq![125u8];
    let s7 = s6.skip(8);
    assert(s7 =~= dec_digits(e.kind as int) + t4);
    assert(t4.len() > 0 && !is_digit(t4[0]));
    lemma_parse_number_round(e.kind as int, t4);
    lemma_dec_digits_props(e.kind as int);
    let n_k = dec_digits(e.kind as int).len() as int;
    let s8 = s7.skip(n_k);
    assert(s8 =~= t4);
    assert(starts_with(s8, lit_tags())) by {
        assert(t4.take(8) =~= lit_tags());
    }
    let t5 = lit_content() + escaped(e.content@) + seq![34u8] + lit_sig() + escaped(e.sig@)
        + seq![34u8] + seq![125u8];
    let s9 = s8.skip(8);
    assert(s9 =~= tags_array(tags_view(e.tags)) + t5);
    lemma_parse_tags_array_round(tags_view(e.tags), t5);
    let n_t = tags_array(tags_view(e.tags)).len() as int;
    let s10 = s9.skip(n_t);
    assert(s10 =~= t5);
    lemma_round_trip_content_part(e, t5);
}

/// Round trip, creation-time stage.
#[verifier::rlimit(100)]
proof fn lemma_round_trip_created_part(e: EventData, s4: Seq<u8>)
    requires
        well_formed_event(e),
        s4 == lit_created_at() + dec_digits(e.created_at as int) + lit_kind() + dec_digits(
            e.kind as int,
        ) + lit_tags() + tags_array(tags_view(e.tags)) + lit_content() + escaped(e.content@)
            + seq![34u8] + lit_sig() + escaped(e.sig@) + seq![34u8] + seq![125u8],
    ensures
        parse_event_json_created(s4, e.id@, e.pubkey@) == Some(event_parts_of(e)),
{
    assert(starts_with(s4, lit_created_at())) by {
        assert(s4.take(14) =~= lit_created_at());
    }
    let t3 = lit_kind() + dec_digits(e.kind as int) + lit_tags() + tags_array(tags_view(e.tags))
        + lit_content() + escaped(e.content@) + seq![34u8] + lit_sig() + escaped(e.sig@)
        + seq![34u8] + seq![125u8];
    let s5 = s4.skip(14);
    assert(s5 =~= dec_digits(e.created_at as int) + t3);
    assert(t3.len() > 0 && !is_digit(t3[0]));
    lemma_parse_number_round(e.created_at as int, t3);
    let n_ca = dec_digits(e.created_at as int).len() as int;
    let s6 = s5.skip(n_ca);
    assert(s6 =~= t3);
    lemma_round_trip_kind_part(e, t3);
}

/// Round trip, pubkey stage.
#[verifier::rlimit(100)]
proof fn lemma_round_trip_pubkey_part(e: EventData, s2: Seq<u8>)
    requires
        well_formed_event(e),
        s2 == lit_pubkey() + escaped(e.pubkey@) + seq![34u8] + lit_created_at() + dec_digits(
            e.created_at as int,
        ) + lit_kind() + dec_digits(e.kind as int) + lit_tags() + tags_array(tags_view(e.tags))
            + lit_content() + escaped(e.content@) + seq![34u8] + lit_sig() + escaped(e.sig@)
            + seq![34u8] + seq![125u8],
    ensures
        parse_event_json_pubkey(s2, e.id@) == Some(event_parts_of(e)),
{
    assert(starts_with(s2, lit_pubkey())) by {
        assert(s2.take(11) =~= lit_pubkey());
    }
    let t2 = lit_created_at() + dec_digits(e.created_at as int) + lit_kind() + dec_digits(
        e.kind as int,
    ) + lit_tags() + tags_array(tags_view(e.tags)) + lit_content() + escaped(e.content@)
        + seq![34u8] + lit_sig() + escaped(e.sig@) + seq![34u8] + seq![125u8];
    let s3 = s2.skip(11);
    assert(s3 =~= escaped(e.pubkey@) + seq![34u8] + t2);
    lemma_parse_string_round(e.pubkey@, t2);
    let n_pk = escaped(e.pubkey@).len() as int + 1;
    let s4 = s3.skip(n_pk);
    assert(s4 =~= t2);
    lemma_round_trip_created_part(e, t2);
}

/// Law: parsing the canonical serialization of a well-formed signed event
/// returns exactly its fields. The signer adapter rests on this: a foreign
/// callback that echoes a signed event in canonical form hands the event
/// back unchanged.
#[verifier::rlimit(100)]
pub proof fn lemma_event_json_round_trip(e: EventData)
    requires
        well_formed_event(e),
    ensures
        parse_event_json(event_json(e)) == Some(event_parts_of(e)),
{
    let s = event_json(e);
    assert(starts_with(s, lit_open_id())) by {
        assert(s.take(7) =~= lit_open_id());
    }
    let t1 = lit_pubkey() + escaped(e.pubkey@) + seq![34u8] + lit_created_at() + dec_digits(
        e.created_at as int,
    ) + lit_kind() + dec_digits(e.kind as int) + lit_tags() + tags_array(tags_view(e.tags))
        + lit_content() + escaped(e.content@) + seq![34u8] + lit_sig() + escaped(e.sig@)
        + seq![34u8] + seq![125u8];
    let s1 = s.skip(7);
    assert(s1 =~= escaped(e.id@) + seq![34u8] + t1);
    lemma_parse_string_round(e.id@, t1);
    let n_id = escaped(e.id@).len() as int + 1;
    let s2 = s1.skip(n_id);
    assert(s2 =~= t1);
    lemma_round_trip_pubkey_part(e, t1);
}

/// Digit strings denote non-negative values.
proof fn lemma_digits_value_nonneg(s: Seq<u8>)
    requires
        forall|i: int| 0 <= i < s.len() ==> is_digit(#[trigger] s[i]),
    ensures
        digits_value(s) >= 0,
    decreases s.len(),
{
    if s.len() > 0 {
        assert forall|i: int| 0 <= i < s.drop_last().len() implies is_digit(
            #[trigger] s.drop_last()[i],
        ) by {
            assert(s.drop_last()[i] == s[i]);
        }
        lemma_digits_value_nonneg(s.drop_last());
    }
}

/// A scan that stops at the first non-digit counts exactly the leading
/// digits.
proof fn lemma_digit_count_of(s: Seq<u8>, i: int)
    requires
        0 <= i <= s.len(),
        forall|j: int| 0 <= j < i ==> is_digit(#[trigger] s[j]),
        i == s.len() || !is_digit(s[i]),
    ensures
        digit_count(s) == i,
    decreases s.len(),
{
    if i == 0 {
    } else {
        assert(is_digit(s[0]));
        assert forall|j: int| 0 <= j < i - 1 implies is_digit(#[trigger] s.drop_first()[j]) by {
            assert(s.drop_first()[j] == s[j + 1]);
        }
        if i - 1 < s.drop_first().len() {
            assert(s.drop_first()[i - 1] == s[i]);
        }
        lemma_digit_count_of(s.drop_first(), i - 1);
    }
}

/// Parses a string body starting at `pos`, mirroring [`parse_string_body`].
fn parse_string_body_exec(s: &Vec<u8>, pos: usize) -> (r: Option<(Vec<u8>, usize)>)
    requires
        pos <= s@.len(),
    ensures
        match (r, parse_string_body(s@.skip(pos as int))) {
            (Some(q), Some(p)) => q.0@ == p.0 && q.1 as int == p.1 && pos + q.1 <= s@.len(),
            (None, None) => true,
            _ => false,
        },
    decreases s@.len() - pos,
{
    let ghost sp = s@.skip(pos as int);
    if pos >= s.len() {
        return None;
    }
    let b = s[pos];
    proof {
        assert(sp[0] == s@[pos as int]);
    }
    if b == 34 {
        let empty: Vec<u8> = Vec::new();
        proof {
            assert(empty@ =~= Seq::<u8>::empty());
        }
        return Some((empty, 1));
    }
    if b == 92 {
        if pos + 1 >= s.len() {
            proof {
                assert(sp.len() < 2);
            }
            return None;
        }
        let b2 = s[pos + 1];
        proof {
            assert(sp[1] == s@[pos as int + 1]);
        }
        if b2 == 34 || b2 == 92 || b2 == 110 || b2 == 114 || b2 == 116 {
            let c: u8 = if b2 == 34 {
                34
            } else if b2 == 92 {
                92
            } else if b2 == 110 {
                10
            } else if b2 == 114 {
                13
            } else {
                9
            };
            proof {
                assert(s@.skip(pos as int + 2) =~= sp.skip(2));
            }
            match parse_string_body_exec(s, pos + 2) {
                None => {
                    return None;
                },
                Some((mut v, n)) => {
                    v.insert(0, c);
                    proof {
                        assert(v@ =~= seq![c] + v@.skip(1));
                    }
                    return Some((v, n + 2));
                },
            }
        } else {
            return None;
        }
    }
    proof {
        assert(s@.skip(pos as int + 1) =~= sp.skip(1));
    }
    match parse_string_body_exec(s, pos + 1) {
        None => None,
        Some((mut v, n)) => {
            v.insert(0, b);
            proof {
                assert(v@ =~= seq![b] + v@.skip(1));
            }
            Some((v, n + 1))
        },
    }
}

/// Parses a decimal number starting at `pos`, mirroring [`parse_number`].
/// Returns nothing when the spec value does not fit in a `u64`.
fn parse_number_exec(s: &Vec<u8>, pos: usize) -> (r: Option<(u64, usize)>)
    requires
        pos <= s@.len(),
    ensures
        match (r, parse_number(s@.skip(pos as int))) {
            (Some(q), Some(p)) => q.0 as int == p.0 && q.1 as int == p.1 && pos + q.1 <= s@.len(),
            (None, None) => true,
            (None, Some(p)) => p.0 > u64::MAX as int,
            _ => false,
        },
{
    let ghost sp = s@.skip(pos as int);
    let mut i: usize = pos;
    let mut val: u64 = 0;
    let mut over: bool = false;
    loop
        invariant
            pos <= i <= s@.len(),
            sp == s@.skip(pos as int),
            forall|j: int| 0 <= j < i - pos ==> is_digit(#[trigger] sp[j]),
            !over ==> val as int == digits_value(sp.take(i - pos)),
            over ==> digits_value(sp.take(i - pos)) > u64::MAX as int,
        ensures
            pos <= i <= s@.len(),
            forall|j: int| 0 <= j < i - pos ==> is_digit(#[trigger] sp[j]),
            i - pos == digit_count(sp),
            !over ==> val as int == digits_value(sp.take(i - pos)),
            over ==> digits_value(sp.take(i - pos)) > u64::MAX as int,
        decreases s@.len() - i,
    {
        if i >= s.len() {
            proof {
                lemma_digit_count_of(sp, i - pos);
            }
            break ;
        }
        let d = s[i];
        proof {
            assert(sp[i - pos] == s@[i as int]);
        }
        if !(48 <= d && d <= 57) {
            proof {
                lemma_digit_count_of(sp, i - pos);
            }
            break ;
        }
        let ghost pre = sp.take(i - pos);
        proof {
            assert(sp.take(i - pos + 1).drop_last() =~= pre);
            assert(sp.take(i - pos + 1).last() == sp[i - pos]);
            assert(digits_value(sp.take(i - pos + 1)) == digits_value(pre) * 10 + (d - 48));
            assert forall|j: int| 0 <= j < pre.len() implies is_digit(#[trigger] pre[j]) by {
                assert(pre[j] == sp[j]);
            }
            lemma_digits_value_nonneg(pre);
        }
        let wide: u128 = (val as u128) * 10 + ((d - 48) as u128);
        if over || wide > u64::MAX as u128 {
            over = true;
        } else {
            val = wide as u64;
        }
        i = i + 1;
    }
    if i == pos {
        return None;
    }
    if over {
        return None;
    }
    Some((val, i - pos))
}

/// Checks whether `lit` occurs at `pos`.
fn expect_lit(s: &Vec<u8>, pos: usize, lit: &[u8]) -> (r: bool)
    requires
        pos <= s@.len(),
    ensures
        r == starts_with(s@.skip(pos as int), lit@),
        r ==> pos + lit@.len() <= s@.len(),
{
    let ghost sp = s@.skip(pos as int);
    if s.len() - pos < lit.len() {
        return false;
    }
    let mut i: usize = 0;
    while i < lit.len()
        invariant
            i <= lit@.len(),
            pos + lit@.len() <= s@.len(),
            s@.len() <= usize::MAX as int,
            sp == s@.skip(pos as int),
            forall|j: int| 0 <= j < i ==> sp[j] == lit@[j],
        decreases lit@.len() - i,
    {
        if s[pos + i] != lit[i] {
            proof {
                assert(sp[i as int] == s@[pos + i]);
                assert(sp.take(lit@.len() as int)[i as int] != lit@[i as int]);
            }
            return false;
        }
        proof {
            assert(sp[i as int] == s@[pos + i]);
        }
        i = i + 1;
    }
    proof {
        assert(sp.take(lit@.len() as int) =~= lit@);
    }
    true
}

/// Parses the items of a string array starting at `pos`, mirroring
/// [`parse_strings_items`].
fn parse_strings_items_exec(s: &Vec<u8>, pos: usize) -> (r: Option<(Vec<Vec<u8>>, usize)>)
    requires
        pos <= s@.len(),
    ensures
        match (r, parse_strings_items(s@.skip(pos as int))) {
            (Some(q), Some(p)) => q.0@.map_values(|e: Vec<u8>| e@) == p.0 && q.1 as int == p.1
                && pos + q.1 <= s@.len(),
            (None, None) => true,
            _ => false,
        },
    decreases s@.len() - pos,
{
    let ghost sp = s@.skip(pos as int);
    if pos >= s.len() || s[pos] != 34 {
        return None;
    }
    proof {
        assert(sp[0] == s@[pos as int]);
        assert(s@.skip(pos as int + 1) =~= sp.skip(1));
    }
    let (v, n) = match parse_string_body_exec(s, pos + 1) {
        None => {
            return None;
        },
        Some(q) => q,
    };
    proof {
        lemma_parse_string_body_bounds(sp.skip(1));
    }
    if 1 + n >= s.len() - pos {
        proof {
            assert(1 + n as int >= sp.len());
        }
        return None;
    }
    let b = s[pos + 1 + n];
    proof {
        assert(sp.skip(1 + n as int)[0] == s@[pos + 1 + n]);
    }
    if b == 93 {
        let mut items: Vec<Vec<u8>> = Vec::new();
        let ghost vv = v@;
        items.push(v);
        proof {
            assert(items@.map_values(|e: Vec<u8>| e@) =~= seq![vv]);
        }
        return Some((items, n + 2));
    }
    if b == 44 {
        proof {
            assert(s@.skip(pos + 2 + n as int) =~= sp.skip(1 + n as int).skip(1));
        }
        match parse_strings_items_exec(s, pos + 2 + n) {
            None => {
                return None;
            },
            Some((mut items, m)) => {
                let ghost vv = v@;
                let ghost old_map = items@.map_values(|e: Vec<u8>| e@);
                items.insert(0, v);
                proof {
                    assert(items@.skip(1) =~= items@.subrange(1, items@.len() as int));
                    assert(items@[0]@ == vv);
                    assert(items@.map_values(|e: Vec<u8>| e@) =~= seq![vv] + old_map);
                }
                return Some((items, n + 2 + m));
            },
        }
    }
    None
}

/// Parses a string array starting at `pos`, mirroring
/// [`parse_strings_array`].
fn parse_strings_array_exec(s: &Vec<u8>, pos: usize) -> (r: Option<(Vec<Vec<u8>>, usize)>)
    requires
        pos <= s@.len(),
    ensures
        match (r, parse_strings_array(s@.skip(pos as int))) {
            (Some(q), Some(p)) => q.0@.map_values(|e: Vec<u8>| e@) == p.0 && q.1 as int == p.1
                && pos + q.1 <= s@.len(),
            (None, None) => true,
            _ => false,
        },
{
    let ghost sp = s@.skip(pos as int);
    if s.len() - pos < 2 || s[pos] != 91 {
        return None;
    }
    proof {
        assert(sp[0] == s@[pos as int]);
        assert(sp[1] == s@[pos as int + 1]);
    }
    if s[pos + 1] == 93 {
        let empty: Vec<Vec<u8>> = Vec::new();
        proof {
            assert(empty@.map_values(|e: Vec<u8>| e@) =~= Seq::<Seq<u8>>::empty());
        }
        return Some((empty, 2));
    }
    proof {
        assert(s@.skip(pos as int + 1) =~= sp.skip(1));
    }
    match parse_strings_items_exec(s, pos + 1) {
        None => None,
        Some((items, n)) => Some((items, n + 1)),
    }
}

/// Parses the items of the tags array starting at `pos`, mirroring
/// [`parse_tags_items`].
fn parse_tags_items_exec(s: &Vec<u8>, pos: usize) -> (r: Option<(Vec<Vec<Vec<u8>>>, usize)>)
    requires
        pos <= s@.len(),
    ensures
        match (r, parse_tags_items(s@.skip(pos as int))) {
            (Some(q), Some(p)) => tags_view(q.0) == p.0 && q.1 as int == p.1 && pos + q.1
                <= s@.len(),
            (None, None) => true,
            _ => false,
        },
    decreases s@.len() - pos,
{
    let ghost sp = s@.skip(pos as int);
    if pos >= s.len() || s[pos] != 91 {
        return None;
    }
    proof {
        assert(sp[0] == s@[pos as int]);
    }
    let (tag, n) = match parse_strings_array_exec(s, pos) {
        None => {
            return None;
        },
        Some(q) => q,
    };
    if n < 2 || n >= s.len() - pos {
        proof {
            assert(n as int >= sp.len() || n < 2);
        }
        return None;
    }
    let b = s[pos + n];
    proof {
        assert(sp.skip(n as int)[0] == s@[pos + n]);
    }
    if b == 93 {
        let mut tags: Vec<Vec<Vec<u8>>> = Vec::new();
        let ghost tagv = tag@.map_values(|e: Vec<u8>| e@);
        tags.push(tag);
        proof {
            assert(tags_view(tags) =~= seq![tagv]);
        }
        return Some((tags, n + 1));
    }
    if b == 44 {
        proof {
            assert(s@.skip(pos + 1 + n as int) =~= sp.skip(n as int).skip(1));
        }
        match parse_tags_items_exec(s, pos + 1 + n) {
            None => {
                return None;
            },
            Some((mut tags, m)) => {
                let ghost tagv = tag@.map_values(|e: Vec<u8>| e@);
                let ghost before = tags_view(tags);
                tags.insert(0, tag);
                proof {
                    assert(tags_view(tags) =~= seq![tagv] + before);
                }
                return Some((tags, n + 1 + m));
            },
        }
    }
    None
}

/// Parses the tags array starting at `pos`, mirroring [`parse_tags_array`].
fn parse_tags_array_exec(s: &Vec<u8>, pos: usize) -> (r: Option<(Vec<Vec<Vec<u8>>>, usize)>)
    requires
        pos <= s@.len(),
    ensures
        match (r, parse_tags_array(s@.skip(pos as int))) {
            (Some(q), Some(p)) => tags_view(q.0) == p.0 && q.1 as int == p.1 && pos + q.1
                <= s@.len(),
            (None, None) => true,
            _ => false,
        },
{
    let ghost sp = s@.skip(pos as int);
    if s.len() - pos < 2 || s[pos] != 91 {
        return None;
    }
    proof {
        assert(sp[0] == s@[pos as int]);
        assert(sp[1] == s@[pos as int + 1]);
    }
    if s[pos + 1] == 93 {
        let empty: Vec<Vec<Vec<u8>>> = Vec::new();
        proof {
            assert(tags_view(empty) =~= Seq::<Seq<Seq<u8>>>::empty());
        }
        return Some((empty, 2));
    }
    proof {
        assert(s@.skip(pos as int + 1) =~= sp.skip(1));
    }
    match parse_tags_items_exec(s, pos + 1) {
        None => None,
        Some((tags, n)) => Some((tags, n + 1)),
    }
}

/// Checks that every byte is a hex digit.
pub(crate) fn all_hex_exec(v: &Vec<u8>) -> (r: bool)
    ensures
        r == all_hex_bytes(v@),
{
    let mut i: usize = 0;
    while i < v.len()
        invariant
            i <= v@.len(),
            forall|j: int| 0 <= j < i ==> is_hex_byte(#[trigger] v@[j]),
        decreases v@.len() - i,
    {
        let b = v[i];
        if !((48 <= b && b <= 57) || (97 <= b && b <= 102) || (65 <= b && b <= 70)) {
            return false;
        }
        i = i + 1;
    }
    true
}

/// Whether a parsed event value carries exactly the given fields.
pub open spec fn event_matches_parts(e: EventData, p: EventParts) -> bool {
    e.id@ == p.id && e.pubkey@ == p.pubkey && e.created_at as int == p.created_at && e.kind as int
        == p.kind && tags_view(e.tags) == p.tags && e.content@ == p.content && e.sig@ == p.sig
}

/// Parses a complete signed event from its canonical transport form,
/// mirroring [`parse_event_json`]. Returns nothing on anything else.
pub fn parse_event(s: &Vec<u8>) -> (r: Option<EventData>)
    ensures
        match (r, parse_event_json(s@)) {
            (Some(e), Some(p)) => event_matches_parts(e, p),
            (None, None) => true,
            _ => false,
        },
{
    let total: usize = s.len();
    proof {
        assert(s@.len() == total as int);
    }
    let lit1: [u8; 7] = [123, 34, 105, 100, 34, 58, 34];
    proof {
        assert(lit1@ =~= lit_open_id());
        assert(s@.skip(0) =~= s@);
    }
    if !expect_lit(s, 0, lit1.as_slice()) {
        return None;
    }
    let ghost s1 = s@.skip(7);
    proof {
        assert(s1 =~= s@.skip(0).skip(lit_open_id().len() as int));
    }
    let (id, n_id) = match parse_string_body_exec(s, 7) {
        None => {
            return None;
        },
        Some(q) => q,
    };
    let pos2 = 7 + n_id;
    proof {
        assert(s1.skip(n_id as int) =~= s@.skip(pos2 as int));
    }
    parse_event_pubkey_stage(s, pos2, id)
}

/// Parses an event from the pubkey field on, mirroring
/// [`parse_event_json_pubkey`].
fn parse_event_pubkey_stage(s: &Vec<u8>, pos: usize, id: Vec<u8>) -> (r: Option<EventData>)
    requires
        pos <= s@.len(),
    ensures
        match (r, parse_event_json_pubkey(s@.skip(pos as int), id@)) {
            (Some(e), Some(p)) => event_matches_parts(e, p),
            (None, None) => true,
            _ => false,
        },
{
    let total: usize = s.len();
    proof {
        assert(s@.len() == total as int);
    }
    let lit2: [u8; 11] = [44, 34, 112, 117, 98, 107, 101, 121, 34, 58, 34];
    proof {
        assert(lit2@ =~= lit_pubkey());
    }
    if !expect_lit(s, pos, lit2.as_slice()) {
        return None;
    }
    proof {
        assert(s@.skip(pos as int).skip(11) =~= s@.skip(pos as int + 11));
    }
    let (pubkey, n_pk) = match parse_string_body_exec(s, pos + 11) {
        None => {
            return None;
        },
        Some(q) => q,
    };
    let pos4 = pos + 11 + n_pk;
    proof {
        assert(s@.skip(pos as int + 11).skip(n_pk as int) =~= s@.skip(pos4 as int));
    }
    parse_event_created_stage(s, pos4, id, pubkey)
}

/// Parses an event from the creation time on, mirroring
/// [`parse_event_json_created`].
fn parse_event_created_stage(s: &Vec<u8>, pos: usize, id: Vec<u8>, pubkey: Vec<u8>) -> (r: Option<
    EventData,
>)
    requires
        pos <= s@.len(),
    ensures
        match (r, parse_event_json_created(s@.skip(pos as int), id@, pubkey@)) {
            (Some(e), Some(p)) => event_matches_parts(e, p),
            (None, None) => true,
            _ => false,
        },
{
    let total: usize = s.len();
    proof {
        assert(s@.len() == total as int);
    }
    let lit3: [u8; 14] = [44, 34, 99, 114, 101, 97, 116, 101, 100, 95, 97, 116, 34, 58];
    proof {
        assert(lit3@ =~= lit_created_at());
    }
    if !expect_lit(s, pos, lit3.as_slice()) {
        return None;
    }
    let ghost s5 = s@.skip(pos as int).skip(14);
    proof {
        assert(s5 =~= s@.skip(pos as int + 14));
    }
    let (created_at, n_ca) = match parse_number_exec(s, pos + 14) {
        None => {
            proof {
                match parse_number(s5) {
                    None => {},
                    Some(p) => {
                        lemma_kind_none_out_of_range(s5.skip(p.1), id@, pubkey@, p.0);
                    },
                }
            }
            return None;
        },
        Some(q) => q,
    };
    let pos6 = pos + 14 + n_ca;
    proof {
        assert(s5.skip(n_ca as int) =~= s@.skip(pos6 as int));
    }
    parse_event_kind_stage(s, pos6, id, pubkey, created_at)
}

/// Parses an event from the kind field on, mirroring
/// [`parse_event_json_kind`].
fn parse_event_kind_stage(
    s: &Vec<u8>,
    pos: usize,
    id: Vec<u8>,
    pubkey: Vec<u8>,
    created_at: u64,
) -> (r: Option<EventData>)
    requires
        pos <= s@.len(),
    ensures
        match (r, parse_event_json_kind(s@.skip(pos as int), id@, pubkey@, created_at as int)) {
            (Some(e), Some(p)) => event_matches_parts(e, p),
            (None, None) => true,
            _ => false,
        },
{
    let total: usize = s.len();
    proof {
        assert(s@.len() == total as int);
    }
    let lit4: [u8; 8] = [44, 34, 107, 105, 110, 100, 34, 58];
    proof {
        assert(lit4@ =~= lit_kind());
    }
    if !expect_lit(s, pos, lit4.as_slice()) {
        return None;
    }
    let ghost s7 = s@.skip(pos as int).skip(8);
    proof {
        assert(s7 =~= s@.skip(pos as int + 8));
    }
    let (kind_val, n_k) = match parse_number_exec(s, pos + 8) {
        None => {
            proof {
                match parse_number(s7) {
                    None => {},
                    Some(p) => {
                        lemma_tags_none_out_of_range(
                            s7.skip(p.1),
                            id@,
                            pubkey@,
                            created_at as int,
                            p.0,
                        );
                    },
                }
            }
            return None;
        },
        Some(q) => q,
    };
    let pos8 = pos + 8 + n_k;
    proof {
        assert(s7.skip(n_k as int) =~= s@.skip(pos8 as int));
    }
    if kind_val > 65535 {
        proof {
            lemma_tags_none_out_of_range(
                s@.skip(pos8 as int),
                id@,
                pubkey@,
                created_at as int,
                kind_val as int,
            );
        }
        return None;
    }
    parse_event_tags_stage(s, pos8, id, pubkey, created_at, kind_val as u16)
}

/// Parses an event from the tags field on, mirroring
/// [`parse_event_json_tags`].
fn parse_event_tags_stage(
    s: &Vec<u8>,
    pos: usize,
    id: Vec<u8>,
    pubkey: Vec<u8>,
    created_at: u64,
    kind: u16,
) -> (r: Option<EventData>)
    requires
        pos <= s@.len(),
    ensures
        match (
            r,
            parse_event_json_tags(
                s@.skip(pos as int),
                id@,
                pubkey@,
                created_at as int,
                kind as int,
            ),
        ) {
            (Some(e), Some(p)) => event_matches_parts(e, p),
            (None, None) => true,
            _ => false,
        },
{
    let total: usize = s.len();
    proof {
        assert(s@.len() == total as int);
    }
    let lit5: [u8; 8] = [44, 34, 116, 97, 103, 115, 34, 58];
    proof {
        assert(lit5@ =~= lit_tags());
    }
    if !expect_lit(s, pos, lit5.as_slice()) {
        return None;
    }
    proof {
        assert(s@.skip(pos as int).skip(8) =~= s@.skip(pos as int + 8));
    }
    let (tags, n_t) = match parse_tags_array_exec(s, pos + 8) {
        None => {
            return None;
        },
        Some(q) => q,
    };
    let pos10 = pos + 8 + n_t;
    proof {
        assert(s@.skip(pos as int + 8).skip(n_t as int) =~= s@.skip(pos10 as int));
    }
    parse_event_content_stage(s, pos10, id, pubkey, created_at, kind, tags)
}

/// Parses an event from the content field to the end, mirroring
/// [`parse_event_json_content`].
#[verifier::rlimit(100)]
fn parse_event_content_stage(
    s: &Vec<u8>,
    pos: usize,
    id: Vec<u8>,
    pubkey: Vec<u8>,
    created_at: u64,
    kind: u16,
    tags: Vec<Vec<Vec<u8>>>,
) -> (r: Option<EventData>)
    requires
        pos <= s@.len(),
    ensures
        match (
            r,
            parse_event_json_content(
                s@.skip(pos as int),
                id@,
                pubkey@,
                created_at as int,
                kind as int,
                tags_view(tags),
            ),
        ) {
            (Some(e), Some(p)) => event_matches_parts(e, p),
            (None, None) => true,
            _ => false,
        },
{
    let total: usize = s.len();
    proof {
        assert(s@.len() == total as int);
    }
    let lit6: [u8; 12] = [44, 34, 99, 111, 110, 116, 101, 110, 116, 34, 58, 34];
    proof {
        assert(lit6@ =~= lit_content());
    }
    if !expect_lit(s, pos, lit6.as_slice()) {
        return None;
    }
    proof {
        assert(s@.skip(pos as int).skip(12) =~= s@.skip(pos as int + 12));
    }
    let (content, n_c) = match parse_string_body_exec(s, pos + 12) {
        None => {
            return None;
        },
        Some(q) => q,
    };
    let pos12 = pos + 12 + n_c;
    proof {
        assert(s@.skip(pos as int + 12).skip(n_c as int) =~= s@.skip(pos12 as int));
    }
    let lit7: [u8; 8] = [44, 34, 115, 105, 103, 34, 58, 34];
    proof {
        assert(lit7@ =~= lit_sig());
    }
    if !expect_lit(s, pos12, lit7.as_slice()) {
        return None;
    }
    proof {
        assert(s@.skip(pos12 as int).skip(8) =~= s@.skip(pos12 as int + 8));
    }
    let (sig, n_s) = match parse_string_body_exec(s, pos12 + 8) {
        None => {
            return None;
        },
        Some(q) => q,
    };
    let pos14 = pos12 + 8 + n_s;
    let ghost s14 = s@.skip(pos12 as int + 8).skip(n_s as int);
    proof {
        assert(s14 =~= s@.skip(pos14 as int));
    }
    let closing_ok: bool = pos14 < s.len() && s.len() - pos14 == 1 && s[pos14] == 125;
    proof {
        if pos14 < s@.len() {
            assert(s14[0] == s@[pos14 as int]);
        }
    }
    if !closing_ok {
        return None;
    }
    if !(id.len() == 64 && all_hex_exec(&id) && pubkey.len() == 64 && all_hex_exec(&pubkey)
        && sig.len() == 128 && all_hex_exec(&sig)) {
        return None;
    }
    Some(EventData { id, pubkey, created_at, kind, tags, content, sig })
}

/// What a successfully parsed event is guaranteed to satisfy.
pub open spec fn valid_event_parts(p: EventParts) -> bool {
    p.id.len() == 64 && all_hex_bytes(p.id) && p.pubkey.len() == 64 && all_hex_bytes(p.pubkey)
        && p.sig.len() == 128 && all_hex_bytes(p.sig) && 0 <= p.created_at <= u64::MAX as int && 0
        <= p.kind <= u16::MAX as int
}

/// The content stage only succeeds on valid fields.
proof fn lemma_content_stage_valid(
    s10: Seq<u8>,
    id: Seq<u8>,
    pubkey: Seq<u8>,
    created_at: int,
    kind: int,
    tags: Seq<Seq<Seq<u8>>>,
)
    ensures
        parse_event_json_content(s10, id, pubkey, created_at, kind, tags) matches Some(p)
            ==> valid_event_parts(p),
{
}

/// The tags stage only succeeds on valid fields.
proof fn lemma_tags_stage_valid(s8: Seq<u8>, id: Seq<u8>, pubkey: Seq<u8>, created_at: int, kind: int)
    ensures
        parse_event_json_tags(s8, id, pubkey, created_at, kind) matches Some(p)
            ==> valid_event_parts(p),
{
    if starts_with(s8, lit_tags()) {
        let s9 = s8.skip(lit_tags().len() as int);
        match parse_tags_array(s9) {
            None => {},
            Some(pt) => {
                lemma_content_stage_valid(s9.skip(pt.1), id, pubkey, created_at, kind, pt.0);
            },
        }
    }
}

/// The kind stage only succeeds on valid fields.
proof fn lemma_kind_stage_valid(s6: Seq<u8>, id: Seq<u8>, pubkey: Seq<u8>, created_at: int)
    ensures
        parse_event_json_kind(s6, id, pubkey, created_at) matches Some(p) ==> valid_event_parts(p),
{
    if starts_with(s6, lit_kind()) {
        let s7 = s6.skip(lit_kind().len() as int);
        match parse_number(s7) {
            None => {},
            Some(pk) => {
                lemma_tags_stage_valid(s7.skip(pk.1), id, pubkey, created_at, pk.0);
            },
        }
    }
}

/// The created-at stage only succeeds on valid fields.
proof fn lemma_created_stage_valid(s4: Seq<u8>, id: Seq<u8>, pubkey: Seq<u8>)
    ensures
        parse_event_json_created(s4, id, pubkey) matches Some(p) ==> valid_event_parts(p),
{
    if starts_with(s4, lit_created_at()) {
        let s5 = s4.skip(lit_created_at().len() as int);
        match parse_number(s5) {
            None => {},
            Some(pca) => {
                lemma_kind_stage_valid(s5.skip(pca.1), id, pubkey, pca.0);
            },
        }
    }
}

/// The pubkey stage only succeeds on valid fields.
proof fn lemma_pubkey_stage_valid(s2: Seq<u8>, id: Seq<u8>)
    ensures
        parse_event_json_pubkey(s2, id) matches Some(p) ==> valid_event_parts(p),
{
    if starts_with(s2, lit_pubkey()) {
        let s3 = s2.skip(lit_pubkey().len() as int);
        match parse_string_body(s3) {
            None => {},
            Some(ppk) => {
                lemma_created_stage_valid(s3.skip(ppk.1), id, ppk.0);
            },
        }
    }
}

/// A successfully parsed event always satisfies the validity checks: hex
/// id, pubkey and signature of the right lengths and numbers in range.
pub proof fn lemma_parse_event_json_valid(s: Seq<u8>)
    ensures
        parse_event_json(s) matches Some(p) ==> valid_event_parts(p),
{
    if starts_with(s, lit_open_id()) {
        let s1 = s.skip(lit_open_id().len() as int);
        match parse_string_body(s1) {
            None => {},
            Some(pid) => {
                lemma_pubkey_stage_valid(s1.skip(pid.1), pid.0);
            },
        }
    }
}

/// An out-of-range creation time or kind fails the final validity check,
/// whatever else the input holds.
proof fn lemma_content_none_out_of_range(
    s10: Seq<u8>,
    id: Seq<u8>,
    pubkey: Seq<u8>,
    created_at: int,
    kind: int,
    tags: Seq<Seq<Seq<u8>>>,
)
    requires
        created_at > u64::MAX as int || kind > u16::MAX as int,
    ensures
        parse_event_json_content(s10, id, pubkey, created_at, kind, tags) is None,
{
}

/// An out-of-range creation time or kind fails the parse from the tags
/// stage on.
proof fn lemma_tags_none_out_of_range(
    s8: Seq<u8>,
    id: Seq<u8>,
    pubkey: Seq<u8>,
    created_at: int,
    kind: int,
)
    requires
        created_at > u64::MAX as int || kind > u16::MAX as int,
    ensures
        parse_event_json_tags(s8, id, pubkey, created_at, kind) is None,
{
    if starts_with(s8, lit_tags()) {
        let s9 = s8.skip(lit_tags().len() as int);
        match parse_tags_array(s9) {
            None => {},
            Some(pt) => {
                lemma_content_none_out_of_range(s9.skip(pt.1), id, pubkey, created_at, kind, pt.0);
            },
        }
    }
}

/// An out-of-range creation time fails the parse from the kind stage on.
proof fn lemma_kind_none_out_of_range(s6: Seq<u8>, id: Seq<u8>, pubkey: Seq<u8>, created_at: int)
    requires
        created_at > u64::MAX as int,
    ensures
        parse_event_json_kind(s6, id, pubkey, created_at) is None,
{
    if starts_with(s6, lit_kind()) {
        let s7 = s6.skip(lit_kind().len() as int);
        match parse_number(s7) {
            None => {},
            Some(pk) => {
                lemma_tags_none_out_of_range(s7.skip(pk.1), id, pubkey, created_at, pk.0);
            },
        }
    }
}

} // verus!
