//! Query strings in the `application/x-www-form-urlencoded` syntax.

use crate::text::joined;
use vstd::prelude::*;
use vstd::utf8::*;

verus! {

/// A name and its value, before any escaping.
pub type QueryPair = (String, String);

/// Name of the parameter that lists the related entities to embed.
pub const EMBED: &'static str = "\x69nclude";

/// Bytes that are written as they are: ASCII letters and digits and the
/// four marks `*`, `-`, `.` and `_`.
pub open spec fn form_byte_unchanged(b: u8) -> bool {
    b == 0x2A || b == 0x2D || b == 0x2E || b == 0x5F || (0x30 <= b <= 0x39) || (0x41 <= b <= 0x5A)
        || (0x61 <= b <= 0x7A)
}

/// The upper-case hexadecimal digit for a value below sixteen.
pub open spec fn hex_upper(d: int) -> char
    recommends
        0 <= d < 16,
{
    if d < 10 {
        crate::text::digit_char(d)
    } else if d == 10 {
        'A'
    } else if d == 11 {
        'B'
    } else if d == 12 {
        'C'
    } else if d == 13 {
        'D'
    } else if d == 14 {
        'E'
    } else {
        'F'
    }
}

/// How one byte is written: unchanged, a space as `+`, anything else as a
/// percent sign and two hexadecimal digits.
pub open spec fn form_byte(b: u8) -> Seq<char> {
    if form_byte_unchanged(b) {
        seq![b as char]
    } else if b == 0x20 {
        seq!['+']
    } else {
        seq!['%', hex_upper(b as int / 16), hex_upper(b as int % 16)]
    }
}

/// How a sequence of bytes is written: byte by byte.
pub open spec fn form_bytes(bytes: Seq<u8>) -> Seq<char>
    decreases bytes.len(),
{
    if bytes.len() == 0 {
        Seq::empty()
    } else {
        form_bytes(bytes.drop_last()) + form_byte(bytes.last())
    }
}

/// How a name or a value is written: the bytes of its UTF-8 encoding.
pub open spec fn form_component(text: Seq<char>) -> Seq<char> {
    form_bytes(encode_utf8(text))
}

/// How one pair is written: name, `=`, value.
pub open spec fn form_pair(pair: (Seq<char>, Seq<char>)) -> Seq<char> {
    form_component(pair.0) + seq!['='] + form_component(pair.1)
}

/// How each pair of a sequence is written, in the same order.
pub open spec fn form_pairs(pairs: Seq<(Seq<char>, Seq<char>)>) -> Seq<Seq<char>> {
    Seq::new(pairs.len(), |i: int| form_pair(pairs[i]))
}

/// The query string of a sequence of pairs: the pairs in order with `&`
/// between neighbours. No pairs give the empty string.
pub open spec fn form_urlencoded(pairs: Seq<(Seq<char>, Seq<char>)>) -> Seq<char> {
    joined(form_pairs(pairs), seq!['&'])
}

/// How often a character occurs in a text.
pub open spec fn occurrences(text: Seq<char>, c: char) -> nat
    decreases text.len(),
{
    if text.len() == 0 {
        0
    } else {
        occurrences(text.drop_last(), c) + if text.last() == c {
            1nat
        } else {
            0nat
        }
    }
}

/// Occurrences add up over texts written one after the other.
pub proof fn lemma_occurrences_add(a: Seq<char>, b: Seq<char>, c: char)
    ensures
        occurrences(a + b, c) == occurrences(a, c) + occurrences(b, c),
    decreases b.len(),
{
    if b.len() == 0 {
        assert(a + b =~= a);
    } else {
        assert((a + b).drop_last() =~= a + b.drop_last());
        assert((a + b).last() == b.last());
        lemma_occurrences_add(a, b.drop_last(), c);
    }
}

/// A text of one character holds that character once and no other.
pub proof fn lemma_occurrences_one(x: char, c: char)
    ensures
        occurrences(seq![x], c) == if x == c {
            1nat
        } else {
            0nat
        },
{
    reveal_with_fuel(occurrences, 2);
    assert(seq![x].drop_last() =~= Seq::<char>::empty());
}

/// An escaped name or value holds neither `&` nor `=`.
pub proof fn lemma_component_has_no_separator(text: Seq<char>)
    ensures
        occurrences(form_component(text), '&') == 0,
        occurrences(form_component(text), '=') == 0,
{
    lemma_bytes_have_no_separator(encode_utf8(text));
}

proof fn lemma_bytes_have_no_separator(bytes: Seq<u8>)
    ensures
        occurrences(form_bytes(bytes), '&') == 0,
        occurrences(form_bytes(bytes), '=') == 0,
    decreases bytes.len(),
{
    if bytes.len() > 0 {
        lemma_bytes_have_no_separator(bytes.drop_last());
        let b = bytes.last();
        let written = form_byte(b);
        lemma_occurrences_add(form_bytes(bytes.drop_last()), written, '&');
        lemma_occurrences_add(form_bytes(bytes.drop_last()), written, '=');
        assert(occurrences(written, '&') == 0 && occurrences(written, '=') == 0) by {
            if form_byte_unchanged(b) {
                assert(b != 0x26 && b != 0x3D);
                assert(b as char != '&' && b as char != '=');
                lemma_occurrences_one(b as char, '&');
                lemma_occurrences_one(b as char, '=');
            } else if b == 0x20 {
                lemma_occurrences_one('+', '&');
                lemma_occurrences_one('+', '=');
            } else {
                let high = hex_upper(b as int / 16);
                let low = hex_upper(b as int % 16);
                assert(high != '&' && high != '=' && low != '&' && low != '=');
                assert(written =~= seq!['%'] + seq![high] + seq![low]);
                lemma_occurrences_one('%', '&');
                lemma_occurrences_one('%', '=');
                lemma_occurrences_one(high, '&');
                lemma_occurrences_one(high, '=');
                lemma_occurrences_one(low, '&');
                lemma_occurrences_one(low, '=');
                lemma_occurrences_add(seq!['%'], seq![high], '&');
                lemma_occurrences_add(seq!['%'], seq![high], '=');
                lemma_occurrences_add(seq!['%'] + seq![high], seq![low], '&');
                lemma_occurrences_add(seq!['%'] + seq![high], seq![low], '=');
            }
        }
    }
}

/// A written pair holds exactly one `=`, between name and value, and no
/// `&`.
pub proof fn lemma_pair_has_one_equals(pair: (Seq<char>, Seq<char>))
    ensures
        occurrences(form_pair(pair), '=') == 1,
        occurrences(form_pair(pair), '&') == 0,
{
    let equals = seq!['='];
    lemma_occurrences_one('=', '=');
    lemma_occurrences_one('=', '&');
    lemma_component_has_no_separator(pair.0);
    lemma_component_has_no_separator(pair.1);
    lemma_occurrences_add(form_component(pair.0), equals, '=');
    lemma_occurrences_add(form_component(pair.0), equals, '&');
    lemma_occurrences_add(form_component(pair.0) + equals, form_component(pair.1), '=');
    lemma_occurrences_add(form_component(pair.0) + equals, form_component(pair.1), '&');
}

/// The query string splits back into its pairs: it holds one `=` for each
/// pair and one `&` between neighbours, and none inside a name or a value.
pub proof fn lemma_one_segment_per_pair(pairs: Seq<(Seq<char>, Seq<char>)>)
    ensures
        occurrences(form_urlencoded(pairs), '=') == pairs.len(),
        pairs.len() > 0 ==> occurrences(form_urlencoded(pairs), '&') == pairs.len() - 1,
        pairs.len() == 0 ==> form_urlencoded(pairs).len() == 0,
    decreases pairs.len(),
{
    let written = form_pairs(pairs);
    let ampersand = seq!['&'];
    if pairs.len() == 1 {
        lemma_pair_has_one_equals(pairs[0]);
        assert(form_urlencoded(pairs) == form_pair(pairs[0]));
    } else if pairs.len() > 1 {
        let before = form_urlencoded(pairs.drop_last());
        lemma_one_segment_per_pair(pairs.drop_last());
        lemma_pair_has_one_equals(pairs.last());
        assert(written.drop_last() =~= form_pairs(pairs.drop_last()));
        assert(written.last() == form_pair(pairs.last()));
        assert(form_urlencoded(pairs) == before + ampersand + form_pair(pairs.last()));
        lemma_occurrences_one('&', '&');
        lemma_occurrences_one('&', '=');
        lemma_occurrences_add(before, ampersand, '=');
        lemma_occurrences_add(before, ampersand, '&');
        lemma_occurrences_add(before + ampersand, form_pair(pairs.last()), '=');
        lemma_occurrences_add(before + ampersand, form_pair(pairs.last()), '&');
    }
}

/// `form_urlencoded::Serializer` on an empty target, fed with `extend_pairs`
/// and closed with `finish`: the query string of the pairs.
#[verifier::external_body]
pub(crate) fn serialize(pairs: &Vec<QueryPair>) -> (r: String)
    ensures
        r@ == form_urlencoded(pairs.deep_view()),
{
    url::form_urlencoded::Serializer::new(String::new()).extend_pairs(pairs).finish()
}

/// Adds the pair `name`, `value` when there is a value.
pub fn push_pair(pairs: &mut Vec<QueryPair>, name: &str, value: Option<String>)
    ensures
        final(pairs).deep_view() == with_pair(old(pairs).deep_view(), name@, value.deep_view()),
{
    match value {
        Some(text) => {
            let ghost before = pairs.deep_view();
            let ghost added = (name@, text@);
            pairs.push((name.to_owned(), text));
            assert(pairs.deep_view() =~= before.push(added));
        },
        None => {},
    }
}

/// The pairs followed by `name`, `value` when there is a value, and the
/// pairs unchanged when there is none.
pub open spec fn with_pair(
    pairs: Seq<(Seq<char>, Seq<char>)>,
    name: Seq<char>,
    value: Option<Seq<char>>,
) -> Seq<(Seq<char>, Seq<char>)> {
    match value {
        Some(text) => pairs.push((name, text)),
        None => pairs,
    }
}

} // verus!
