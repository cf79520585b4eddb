//! URL-encoded form data (`a=1&b=two+words`): decoding, splitting into
//! key/value pairs, and looking values up.

use vstd::prelude::*;
use vstd::utf8::{decode_utf8, encode_utf8, valid_utf8};
use crate::split::{split_chars, split_on, views};
use crate::text::{chars_of, is_white_space, is_white_space_char, string_from_chars, str_eq};

verus! {

/// The value of an ASCII hexadecimal digit.
pub open spec fn hex_value(b: u8) -> Option<u8> {
    if 48 <= b <= 57 {
        Some((b - 48) as u8)
    } else if 97 <= b <= 102 {
        Some((b - 87) as u8)
    } else if 65 <= b <= 70 {
        Some((b - 55) as u8)
    } else {
        None
    }
}

/// The byte two bytes after a `%` stand for, as `u8::from_str_radix` reads
/// them in base 16: two hex digits, or `+` and one hex digit.
pub open spec fn escaped_byte(b1: u8, b2: u8) -> Option<u8> {
    match (hex_value(b1), hex_value(b2)) {
        (Some(h1), Some(h2)) => Some((16 * h1 + h2) as u8),
        (None, Some(h2)) => if b1 == 43 {
            Some(h2)
        } else {
            None
        },
        _ => None,
    }
}

/// The bytes with `+` read as a space and `%` followed by two more bytes
/// that form an escape read as the byte escaped; every other byte is kept.
pub open spec fn percent_decode(b: Seq<u8>) -> Seq<u8>
    decreases b.len(),
{
    if b.len() == 0 {
        Seq::empty()
    } else if b[0] == 43 {
        seq![32u8] + percent_decode(b.skip(1))
    } else if b[0] == 37 && b.len() > 2 && escaped_byte(b[1], b[2]) is Some {
        seq![escaped_byte(b[1], b[2])->0] + percent_decode(b.skip(3))
    } else {
        seq![b[0]] + percent_decode(b.skip(1))
    }
}

/// The text `String::from_utf8_lossy` makes of the bytes.
pub uninterp spec fn lossy_utf8(bytes: Seq<u8>) -> Seq<char>;

/// `String::from_utf8_lossy`: the text of the bytes, with each invalid
/// sequence replaced by U+FFFD. Stated here only for valid UTF-8, which it
/// decodes; the replacements made for invalid bytes are left unsaid.
#[verifier::external_body]
pub(crate) fn string_from_utf8_lossy(bytes: &[u8]) -> (r: String)
    ensures
        r@ == lossy_utf8(bytes@),
        valid_utf8(bytes@) ==> r@ == decode_utf8(bytes@),
{
    String::from_utf8_lossy(bytes).into_owned()
}

/// A form value or key after decoding.
pub open spec fn url_decoded(s: Seq<char>) -> Seq<char> {
    lossy_utf8(percent_decode(encode_utf8(s)))
}

/// The text escaped form text stands for, where its unescaped bytes are
/// valid UTF-8.
pub open spec fn utf8_decoding(s: Seq<char>) -> Option<Seq<char>> {
    let b = percent_decode(encode_utf8(s));
    if valid_utf8(b) {
        Some(decode_utf8(b))
    } else {
        None
    }
}

/// `text` is what `raw` decodes to, wherever its bytes are valid UTF-8.
pub open spec fn decodes_as(text: Seq<char>, raw: Seq<char>) -> bool {
    utf8_decoding(raw) matches Some(t) ==> text == t
}

/// Text with no `%` and no `+`: nothing in it is an escape.
pub open spec fn has_no_escapes(s: Seq<char>) -> bool {
    forall|i: int| 0 <= i < s.len() ==> s[i] != '%' && s[i] != '+'
}

/// Bytes with no `%` (37) and no `+` (43).
pub open spec fn has_no_escape_bytes(b: Seq<u8>) -> bool {
    forall|j: int| 0 <= j < b.len() ==> b[j] != 37 && b[j] != 43
}

/// The UTF-8 bytes of a character other than `%` and `+` are neither of
/// those two bytes: a one-byte encoding is the character itself, and every
/// byte of a longer encoding has its high bit set.
proof fn lemma_scalar_has_no_escape_bytes(c: char)
    requires
        c != '%',
        c != '+',
    ensures
        has_no_escape_bytes(vstd::utf8::encode_scalar(c as u32)),
{
    let v = c as u32;
    assert(v <= 0x7F ==> (v & 0x7F) as u8 == v) by (bit_vector);
    assert(forall|x: u32| #![auto] (0xC0 | ((x >> 6) & 0x1F) as u8) >= 0x80) by (bit_vector);
    assert(forall|x: u32| #![auto] (0xE0 | ((x >> 12) & 0x0F) as u8) >= 0x80) by (bit_vector);
    assert(forall|x: u32| #![auto] (0xF0 | ((x >> 18) & 0x7) as u8) >= 0x80) by (bit_vector);
    assert(forall|x: u32| #![auto] (0x80 | (x & 0x3F) as u8) >= 0x80) by (bit_vector);
    assert(forall|x: u32| #![auto] (0x80 | ((x >> 6) & 0x3F) as u8) >= 0x80) by (bit_vector);
    assert(forall|x: u32| #![auto] (0x80 | ((x >> 12) & 0x3F) as u8) >= 0x80) by (bit_vector);
    assert('%' as u32 == 37 && '+' as u32 == 43);
}

/// The UTF-8 bytes of text without `%` and `+` hold neither byte.
proof fn lemma_encoding_has_no_escape_bytes(s: Seq<char>)
    requires
        has_no_escapes(s),
    ensures
        has_no_escape_bytes(encode_utf8(s)),
    decreases s.len(),
{
    if s.len() > 0 {
        lemma_scalar_has_no_escape_bytes(s[0]);
        assert(has_no_escapes(s.drop_first())) by {
            assert forall|i: int| 0 <= i < s.drop_first().len() implies s.drop_first()[i] != '%'
                && s.drop_first()[i] != '+' by {
                assert(s.drop_first()[i] == s[i + 1]);
            }
        }
        lemma_encoding_has_no_escape_bytes(s.drop_first());
    }
}

/// Decoding bytes without `%` and `+` changes nothing.
proof fn lemma_percent_decode_plain(b: Seq<u8>)
    requires
        has_no_escape_bytes(b),
    ensures
        percent_decode(b) == b,
    decreases b.len(),
{
    if b.len() > 0 {
        assert(has_no_escape_bytes(b.skip(1))) by {
            assert forall|j: int| 0 <= j < b.skip(1).len() implies b.skip(1)[j] != 37 && b.skip(1)[j]
                != 43 by {
                assert(b.skip(1)[j] == b[j + 1]);
            }
        }
        lemma_percent_decode_plain(b.skip(1));
        assert(seq![b[0]] + b.skip(1) =~= b);
    }
}

/// Decodes `+` and `%XX` escapes in form-encoded text.
pub fn url_decode(value: &str) -> (r: String)
    ensures
        r@ == url_decoded(value@),
        valid_utf8(percent_decode(encode_utf8(value@))) ==> r@ == decode_utf8(
            percent_decode(encode_utf8(value@)),
        ),
        decodes_as(r@, value@),
        has_no_escapes(value@) ==> r@ == value@,
{
    let bytes = value.as_bytes();
    let mut output: Vec<u8> = Vec::new();
    let mut index: usize = 0;
    let ghost b = bytes@;
    proof {
        assert(b.skip(0) =~= b);
    }
    while index < bytes.len()
        invariant
            index <= bytes.len(),
            b == bytes@,
            output@ + percent_decode(b.skip(index as int)) == percent_decode(b),
        decreases bytes.len() - index,
    {
        let ghost rest = b.skip(index as int);
        let x = bytes[index];
        assert(rest[0] == x);
        if x == 43 {
            proof {
                assert(rest.skip(1) =~= b.skip(index as int + 1));
                assert(output@.push(32u8) + percent_decode(b.skip(index as int + 1)) =~= output@ + percent_decode(rest));
            }
            output.push(32);
            index = index + 1;
        } else if x == 37 && bytes.len() - index > 2 {
            let b1 = bytes[index + 1];
            let b2 = bytes[index + 2];
            assert(rest[1] == b1 && rest[2] == b2);
            match decode_escape(b1, b2) {
                Some(v) => {
                    proof {
                        assert(rest.skip(3) =~= b.skip(index as int + 3));
                        assert(output@.push(v) + percent_decode(b.skip(index as int + 3)) =~= output@ + percent_decode(rest));
                    }
                    output.push(v);
                    index = index + 3;
                },
                None => {
                    proof {
                        assert(rest.skip(1) =~= b.skip(index as int + 1));
                        assert(output@.push(x) + percent_decode(b.skip(index as int + 1)) =~= output@ + percent_decode(rest));
                    }
                    output.push(x);
                    index = index + 1;
                },
            }
        } else {
            proof {
                assert(rest.skip(1) =~= b.skip(index as int + 1));
                assert(output@.push(x) + percent_decode(b.skip(index as int + 1)) =~= output@ + percent_decode(rest));
            }
            output.push(x);
            index = index + 1;
        }
    }
    proof {
        assert(b.skip(index as int) =~= Seq::<u8>::empty());
        assert(output@ =~= percent_decode(b));
        if has_no_escapes(value@) {
            lemma_encoding_has_no_escape_bytes(value@);
            lemma_percent_decode_plain(b);
            vstd::utf8::encode_utf8_valid_utf8(value@);
            vstd::utf8::encode_utf8_decode_utf8(value@);
        }
    }
    string_from_utf8_lossy(output.as_slice())
}

fn hex_digit(b: u8) -> (r: Option<u8>)
    ensures
        r == hex_value(b),
{
    if 48 <= b && b <= 57 {
        Some(b - 48)
    } else if 97 <= b && b <= 102 {
        Some(b - 87)
    } else if 65 <= b && b <= 70 {
        Some(b - 55)
    } else {
        None
    }
}

fn decode_escape(b1: u8, b2: u8) -> (r: Option<u8>)
    ensures
        r == escaped_byte(b1, b2),
{
    match (hex_digit(b1), hex_digit(b2)) {
        (Some(h1), Some(h2)) => Some(16 * h1 + h2),
        (None, Some(h2)) => if b1 == 43 {
            Some(h2)
        } else {
            None
        },
        _ => None,
    }
}

/// The index of the first occurrence of `c`.
pub open spec fn first_index(s: Seq<char>, c: char) -> Option<int>
    decreases s.len(),
{
    if s.len() == 0 {
        None
    } else {
        match first_index(s.drop_last(), c) {
            Some(i) => Some(i),
            None => if s.last() == c {
                Some(s.len() - 1)
            } else {
                None
            },
        }
    }
}

/// A form piece `key=value` split at its first `=` into the key and value
/// as written; a piece with no `=` is a key with an empty value.
pub open spec fn raw_pair(piece: Seq<char>) -> (Seq<char>, Seq<char>) {
    match first_index(piece, '=') {
        Some(p) => (piece.take(p), piece.skip(p + 1)),
        None => (piece, Seq::empty()),
    }
}

/// A form piece `key=value` decoded into its key and value; a piece with no
/// `=` is a key with an empty value.
pub open spec fn form_pair(piece: Seq<char>) -> (Seq<char>, Seq<char>) {
    (url_decoded(raw_pair(piece).0), url_decoded(raw_pair(piece).1))
}

/// The non-empty `&`-separated pieces of form-encoded text, in order.
pub open spec fn form_pieces(input: Seq<char>) -> Seq<Seq<char>> {
    split_on(input, '&').filter(|p: Seq<char>| p.len() > 0)
}

/// The key/value pairs of form-encoded text: its non-empty `&`-separated
/// pieces, decoded, in order.
pub open spec fn form_pairs(input: Seq<char>) -> Seq<(Seq<char>, Seq<char>)> {
    form_pieces(input).map_values(|p: Seq<char>| form_pair(p))
}

/// The views of key/value pairs.
pub open spec fn pair_views(ps: Seq<(String, String)>) -> Seq<(Seq<char>, Seq<char>)> {
    ps.map_values(|p: (String, String)| (p.0@, p.1@))
}

pub(crate) fn first_index_of(s: &Vec<char>, c: char) -> (r: Option<usize>)
    ensures
        r matches Some(i) ==> i < s.len() && first_index(s@, c) == Some(i as int),
        r is None ==> first_index(s@, c) is None,
{
    let mut i: usize = 0;
    while i < s.len()
        invariant
            i <= s.len(),
            first_index(s@.take(i as int), c) is None,
        decreases s.len() - i,
    {
        let ghost t = s@.take(i as int + 1);
        proof {
            assert(t.drop_last() =~= s@.take(i as int));
        }
        if s[i] == c {
            proof {
                lemma_first_index_prefix(s@, c, i as int + 1);
            }
            return Some(i);
        }
        i = i + 1;
    }
    proof {
        assert(s@.take(s.len() as int) =~= s@);
    }
    None
}

/// Once the first occurrence lies in a prefix, it is the first occurrence
/// of the whole text.
pub(crate) proof fn lemma_first_index_prefix(s: Seq<char>, c: char, n: int)
    requires
        0 <= n <= s.len(),
        first_index(s.take(n), c) is Some,
    ensures
        first_index(s, c) == first_index(s.take(n), c),
    decreases s.len() - n,
{
    if n < s.len() {
        assert(s.take(n + 1).drop_last() =~= s.take(n));
        assert(first_index(s.take(n + 1), c) == first_index(s.take(n), c));
        lemma_first_index_prefix(s, c, n + 1);
    } else {
        assert(s.take(n) =~= s);
    }
}

fn decode_piece(piece: &Vec<char>) -> (r: (String, String))
    ensures
        (r.0@, r.1@) == form_pair(piece@),
        decodes_as(r.0@, raw_pair(piece@).0),
        decodes_as(r.1@, raw_pair(piece@).1),
{
    match first_index_of(piece, '=') {
        Some(p) => {
            let mut key: Vec<char> = Vec::new();
            let mut value: Vec<char> = Vec::new();
            let mut i: usize = 0;
            while i < piece.len()
                invariant
                    p < piece.len(),
                    i <= piece.len(),
                    i <= p ==> key@ == piece@.take(i as int) && value@.len() == 0,
                    i > p ==> key@ == piece@.take(p as int) && value@ == piece@.subrange(p as int + 1, i as int),
                decreases piece.len() - i,
            {
                if i < p {
                    proof {
                        assert(piece@.take(i as int + 1) =~= key@.push(piece@[i as int]));
                    }
                    key.push(piece[i]);
                } else if i > p {
                    proof {
                        assert(piece@.subrange(p as int + 1, i as int + 1) =~= value@.push(piece@[i as int]));
                    }
                    value.push(piece[i]);
                } else {
                    proof {
                        assert(piece@.subrange(p as int + 1, i as int + 1) =~= value@);
                    }
                }
                i = i + 1;
            }
            proof {
                assert(value@ =~= piece@.skip(p as int + 1));
            }
            let k = string_from_chars(&key);
            let v = string_from_chars(&value);
            (url_decode(k.as_str()), url_decode(v.as_str()))
        },
        None => {
            let k = string_from_chars(piece);
            let empty = String::new();
            (url_decode(k.as_str()), url_decode(empty.as_str()))
        },
    }
}

/// Splits form-encoded text into decoded key/value pairs.
pub fn parse_form_encoded(input: &str) -> (r: Vec<(String, String)>)
    ensures
        pair_views(r@) == form_pairs(input@),
        r.len() == form_pieces(input@).len(),
        forall|j: int|
            0 <= j < r.len() ==> decodes_as(#[trigger] r@[j].0@, raw_pair(form_pieces(input@)[j]).0)
                && decodes_as(r@[j].1@, raw_pair(form_pieces(input@)[j]).1),
{
    let chars = chars_of(input);
    let pieces = split_chars(&chars, '&');
    let ghost all = views(pieces@);
    let ghost keep = |p: Seq<char>| p.len() > 0;
    let ghost decode = |p: Seq<char>| form_pair(p);
    let mut out: Vec<(String, String)> = Vec::new();
    let mut i: usize = 0;
    proof {
        assert(all.take(0) =~= Seq::<Seq<char>>::empty());
        reveal_with_fuel(Seq::filter, 1);
        assert(all.take(0).filter(keep) =~= Seq::<Seq<char>>::empty());
        assert(pair_views(out@) =~= all.take(0).filter(keep).map_values(decode));
    }
    while i < pieces.len()
        invariant
            i <= pieces.len(),
            all == views(pieces@),
            all == split_on(chars@, '&'),
            chars@ == input@,
            keep == (|p: Seq<char>| p.len() > 0),
            decode == (|p: Seq<char>| form_pair(p)),
            pair_views(out@) == all.take(i as int).filter(keep).map_values(decode),
            out.len() == all.take(i as int).filter(keep).len(),
            forall|j: int|
                0 <= j < out.len() ==> decodes_as(#[trigger] out@[j].0@, raw_pair(all.take(i as int).filter(keep)[j]).0)
                    && decodes_as(out@[j].1@, raw_pair(all.take(i as int).filter(keep)[j]).1),
        decreases pieces.len() - i,
    {
        let ghost t = all.take(i as int + 1);
        proof {
            reveal_with_fuel(Seq::filter, 1);
            assert(t.drop_last() =~= all.take(i as int));
            assert(t.last() == pieces@[i as int]@);
        }
        if pieces[i].len() > 0 {
            let pair = decode_piece(&pieces[i]);
            proof {
                assert(t.filter(keep) == all.take(i as int).filter(keep).push(t.last()));
                assert(pair_views(out@.push(pair)) =~= pair_views(out@).push((pair.0@, pair.1@)));
                assert(t.filter(keep).map_values(decode) =~= all.take(i as int).filter(keep).map_values(
                    decode,
                ).push(form_pair(t.last())));
            }
            out.push(pair);
        } else {
            proof {
                assert(t.filter(keep) == all.take(i as int).filter(keep));
            }
        }
        i = i + 1;
    }
    proof {
        assert(all.take(pieces.len() as int) =~= all);
        assert(all.filter(keep) =~= form_pieces(input@));
    }
    out
}

/// The value of the first pair whose key is `key`.
pub open spec fn form_lookup(ps: Seq<(Seq<char>, Seq<char>)>, key: Seq<char>) -> Option<Seq<char>>
    decreases ps.len(),
{
    if ps.len() == 0 {
        None
    } else if ps[0].0 == key {
        Some(ps[0].1)
    } else {
        form_lookup(ps.skip(1), key)
    }
}

/// The value of the first pair whose key is `key`.
pub fn form_value<'a>(params: &'a [(String, String)], key: &str) -> (r: Option<&'a str>)
    ensures
        r matches Some(v) ==> form_lookup(pair_views(params@), key@) == Some(v@),
        r is None ==> form_lookup(pair_views(params@), key@) is None,
{
    let ghost all = pair_views(params@);
    let mut i: usize = 0;
    proof {
        assert(all.skip(0) =~= all);
    }
    while i < params.len()
        invariant
            i <= params.len(),
            all == pair_views(params@),
            form_lookup(all, key@) == form_lookup(all.skip(i as int), key@),
        decreases params.len() - i,
    {
        let ghost rest = all.skip(i as int);
        assert(rest[0] == (params@[i as int].0@, params@[i as int].1@));
        if str_eq(params[i].0.as_str(), key) {
            return Some(params[i].1.as_str());
        }
        proof {
            assert(rest.skip(1) =~= all.skip(i as int + 1));
        }
        i = i + 1;
    }
    proof {
        assert(all.skip(i as int) =~= Seq::<(Seq<char>, Seq<char>)>::empty());
    }
    None
}

/// The text without leading white space.
pub open spec fn trim_start(s: Seq<char>) -> Seq<char>
    decreases s.len(),
{
    if s.len() > 0 && is_white_space(s[0]) {
        trim_start(s.skip(1))
    } else {
        s
    }
}

/// The text without trailing white space.
pub open spec fn trim_end(s: Seq<char>) -> Seq<char>
    decreases s.len(),
{
    if s.len() > 0 && is_white_space(s.last()) {
        trim_end(s.drop_last())
    } else {
        s
    }
}

/// The text without leading and trailing white space (`str::trim`).
pub open spec fn trim(s: Seq<char>) -> Seq<char> {
    trim_end(trim_start(s))
}

/// `value` without leading and trailing white space.
pub fn trimmed(value: &str) -> (r: String)
    ensures
        r@ == trim(value@),
{
    let c = chars_of(value);
    let mut a: usize = 0;
    proof {
        assert(c@.skip(0) =~= c@);
    }
    while a < c.len() && is_white_space_char(c[a])
        invariant
            a <= c.len(),
            trim_start(c@) == trim_start(c@.skip(a as int)),
        decreases c.len() - a,
    {
        proof {
            assert(c@.skip(a as int).skip(1) =~= c@.skip(a as int + 1));
        }
        a = a + 1;
    }
    let ghost start = c@.skip(a as int);
    proof {
        assert(trim_start(start) == start);
    }
    let mut b: usize = c.len();
    proof {
        assert(c@.subrange(a as int, b as int) =~= start);
    }
    while b > a && is_white_space_char(c[b - 1])
        invariant
            a <= b <= c.len(),
            start == c@.skip(a as int),
            trim_end(start) == trim_end(c@.subrange(a as int, b as int)),
        decreases b,
    {
        proof {
            assert(c@.subrange(a as int, b as int).drop_last() =~= c@.subrange(a as int, b as int - 1));
        }
        b = b - 1;
    }
    let mut out: Vec<char> = Vec::new();
    let mut i = a;
    while i < b
        invariant
            a <= i <= b,
            b <= c.len(),
            out@ == c@.subrange(a as int, i as int),
        decreases b - i,
    {
        proof {
            assert(c@.subrange(a as int, i as int + 1) =~= out@.push(c@[i as int]));
        }
        out.push(c[i]);
        i = i + 1;
    }
    string_from_chars(&out)
}

} // verus!
