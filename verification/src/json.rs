//! JSON and SVG text: string escaping, numbers in decimal, and the JSON the
//! web app reads for recipes and the app state.

use vstd::prelude::*;
use crate::number::{decimal_reads_as_zero, is_decimal_text, is_number, numeric_value, reads_as_zero, strip_unit};
use crate::store::{Data, Recipe, RecipeView, Sample, SampleView};
use crate::text::{chars_of, owned, push_char, push_str};

verus! {

/// A Unicode control character (general category `Cc`), the set
/// `char::is_control` tests.
pub open spec fn is_control(c: char) -> bool {
    c <= '\u{1f}' || ('\u{7f}' <= c && c <= '\u{9f}')
}

/// The lowercase hexadecimal digit for `d < 16`.
pub open spec fn hex_char(d: nat) -> char {
    if d < 10 {
        (d + 48) as char
    } else {
        (d + 87) as char
    }
}

/// `\u` and the code point in four lowercase hex digits.
pub open spec fn unicode_escape(c: char) -> Seq<char> {
    let n = c as nat;
    seq!['\\', 'u', hex_char(n / 4096 % 16), hex_char(n / 256 % 16), hex_char(n / 16 % 16), hex_char(n % 16)]
}

/// How one character is written inside a JSON string.
pub open spec fn json_char(c: char) -> Seq<char> {
    if c == '"' {
        seq!['\\', '"']
    } else if c == '\\' {
        seq!['\\', '\\']
    } else if c == '\n' {
        seq!['\\', 'n']
    } else if c == '\r' {
        seq!['\\', 'r']
    } else if c == '\t' {
        seq!['\\', 't']
    } else if is_control(c) {
        unicode_escape(c)
    } else {
        seq![c]
    }
}

/// The characters of `s` escaped for a JSON string.
pub open spec fn json_escaped(s: Seq<char>) -> Seq<char>
    decreases s.len(),
{
    if s.len() == 0 {
        Seq::empty()
    } else {
        json_escaped(s.drop_last()) + json_char(s.last())
    }
}

/// `s` as a JSON string literal.
pub open spec fn json_string(s: Seq<char>) -> Seq<char> {
    seq!['"'] + json_escaped(s) + seq!['"']
}

/// The value of a hexadecimal digit character.
pub open spec fn hex_digit_value(c: char) -> Option<nat> {
    if '0' <= c && c <= '9' {
        Some((c as nat - 48) as nat)
    } else if 'a' <= c && c <= 'f' {
        Some((c as nat - 87) as nat)
    } else if 'A' <= c && c <= 'F' {
        Some((c as nat - 55) as nat)
    } else {
        None
    }
}

/// The character a one-letter escape `\e` stands for in a JSON string.
pub open spec fn short_escape(e: char) -> Option<char> {
    if e == '"' {
        Some('"')
    } else if e == '\\' {
        Some('\\')
    } else if e == '/' {
        Some('/')
    } else if e == 'b' {
        Some('\u{8}')
    } else if e == 'f' {
        Some('\u{c}')
    } else if e == 'n' {
        Some('\n')
    } else if e == 'r' {
        Some('\r')
    } else if e == 't' {
        Some('\t')
    } else {
        None
    }
}

/// The code point four hexadecimal digits give, if they are four such
/// digits.
pub open spec fn hex4_value(a: char, b: char, c: char, d: char) -> Option<nat> {
    match (hex_digit_value(a), hex_digit_value(b), hex_digit_value(c), hex_digit_value(d)) {
        (Some(w), Some(x), Some(y), Some(z)) => Some(4096 * w + 256 * x + 16 * y + z),
        _ => None,
    }
}

/// `c` followed by the text, when there is one.
pub open spec fn prepend_char(c: char, rest: Option<Seq<char>>) -> Option<Seq<char>> {
    match rest {
        Some(t) => Some(seq![c] + t),
        None => None,
    }
}

/// The text the body of a JSON string literal (the part between the quotes)
/// denotes, read as RFC 8259 reads it; `None` where the body is not valid:
/// a bare `"`, a raw character below U+0020, or an unknown escape. A `\u`
/// escape of a surrogate half (used in pairs for characters beyond U+FFFF)
/// is not read here either.
pub open spec fn json_unescaped(t: Seq<char>) -> Option<Seq<char>>
    decreases t.len(),
{
    if t.len() == 0 {
        Some(Seq::empty())
    } else if t[0] == '\\' {
        if t.len() < 2 {
            None
        } else {
            match short_escape(t[1]) {
                Some(c) => prepend_char(c, json_unescaped(t.skip(2))),
                None => if t[1] == 'u' && t.len() >= 6 {
                    match hex4_value(t[2], t[3], t[4], t[5]) {
                        Some(v) => if v < 0xD800 || (0xE000 <= v && v < 0x10000) {
                            prepend_char(v as char, json_unescaped(t.skip(6)))
                        } else {
                            None
                        },
                        None => None,
                    }
                } else {
                    None
                },
            }
        }
    } else if t[0] == '"' || ' ' > t[0] {
        None
    } else {
        prepend_char(t[0], json_unescaped(t.skip(1)))
    }
}

proof fn lemma_json_escaped_concat(a: Seq<char>, b: Seq<char>)
    ensures
        json_escaped(a + b) == json_escaped(a) + json_escaped(b),
    decreases b.len(),
{
    if b.len() == 0 {
        assert(a + b =~= a);
        assert(json_escaped(a) + json_escaped(b) =~= json_escaped(a));
    } else {
        lemma_json_escaped_concat(a, b.drop_last());
        assert((a + b).drop_last() =~= a + b.drop_last());
        assert((a + b).last() == b.last());
        assert(json_escaped(a + b) =~= json_escaped(a) + json_escaped(b));
    }
}

proof fn lemma_hex_char_value(d: nat)
    requires
        d < 16,
    ensures
        hex_digit_value(hex_char(d)) == Some(d),
{
}

/// Reading one escaped character back gives the character.
proof fn lemma_unescape_char(c: char, rest: Seq<char>)
    ensures
        json_unescaped(json_char(c) + rest) == prepend_char(c, json_unescaped(rest)),
{
    let t = json_char(c) + rest;
    if c == '"' || c == '\\' || c == '\n' || c == '\r' || c == '\t' {
        assert(t.skip(2) =~= rest);
    } else if is_control(c) {
        let n = c as nat;
        assert(n < 0xa0);
        assert(n / 4096 % 16 == 0 && n / 256 % 16 == 0);
        assert(n / 16 % 16 < 16 && n % 16 < 16);
        lemma_hex_char_value(n / 4096 % 16);
        lemma_hex_char_value(n / 256 % 16);
        lemma_hex_char_value(n / 16 % 16);
        lemma_hex_char_value(n % 16);
        assert(16 * (n / 16 % 16) + n % 16 == n);
        assert(t[0] == '\\' && t[1] == 'u');
        assert(hex4_value(t[2], t[3], t[4], t[5]) == Some(n));
        assert(t.skip(6) =~= rest);
        assert((n as char) == c);
    } else {
        assert(t[0] == c);
        assert(t.skip(1) =~= rest);
    }
}

/// A JSON string body written for a text reads back as that text.
pub proof fn law_json_string_reads_back(s: Seq<char>)
    ensures
        json_unescaped(json_escaped(s)) == Some(s),
    decreases s.len(),
{
    if s.len() > 0 {
        let first = seq![s[0]];
        let rest = s.drop_first();
        assert(first + rest =~= s);
        lemma_json_escaped_concat(first, rest);
        assert(first.drop_last() =~= Seq::<char>::empty());
        assert(first.last() == s[0]);
        assert(json_escaped(first.drop_last()) =~= Seq::<char>::empty());
        assert(json_escaped(first) =~= json_char(s[0]));
        law_json_string_reads_back(rest);
        lemma_unescape_char(s[0], json_escaped(rest));
        assert(seq![s[0]] + rest =~= s);
    }
}

fn hex_digit_char(d: u32) -> (r: char)
    requires
        d < 16,
    ensures
        r == hex_char(d as nat),
{
    if d < 10 {
        ((d + 48) as u8) as char
    } else {
        ((d + 87) as u8) as char
    }
}

fn push_json_char(output: &mut String, c: char)
    ensures
        final(output)@ == old(output)@ + json_char(c),
{
    if c == '"' {
        push_char(output, '\\');
        push_char(output, '"');
    } else if c == '\\' {
        push_char(output, '\\');
        push_char(output, '\\');
    } else if c == '\n' {
        push_char(output, '\\');
        push_char(output, 'n');
    } else if c == '\r' {
        push_char(output, '\\');
        push_char(output, 'r');
    } else if c == '\t' {
        push_char(output, '\\');
        push_char(output, 't');
    } else if c <= '\u{1f}' || ('\u{7f}' <= c && c <= '\u{9f}') {
        let n = c as u32;
        push_char(output, '\\');
        push_char(output, 'u');
        push_char(output, hex_digit_char(n / 4096 % 16));
        push_char(output, hex_digit_char(n / 256 % 16));
        push_char(output, hex_digit_char(n / 16 % 16));
        push_char(output, hex_digit_char(n % 16));
        proof {
            assert(final(output)@ =~= old(output)@ + json_char(c));
        }
    } else {
        push_char(output, c);
    }
    proof {
        assert(final(output)@ =~= old(output)@ + json_char(c));
    }
}

/// Appends `value` to `output` as a JSON string literal.
pub fn json_string_into(output: &mut String, value: &str)
    ensures
        final(output)@ == old(output)@ + json_string(value@),
{
    let chars = chars_of(value);
    let ghost start = output@;
    push_char(output, '"');
    let mut i: usize = 0;
    proof {
        assert(json_escaped(chars@.take(0)) =~= Seq::<char>::empty());
    }
    while i < chars.len()
        invariant
            i <= chars.len(),
            output@ == start + seq!['"'] + json_escaped(chars@.take(i as int)),
        decreases chars.len() - i,
    {
        proof {
            let t = chars@.take(i as int + 1);
            assert(t.drop_last() =~= chars@.take(i as int));
            assert(t.last() == chars@[i as int]);
        }
        push_json_char(output, chars[i]);
        i = i + 1;
    }
    proof {
        assert(chars@.take(chars.len() as int) =~= value@);
    }
    push_char(output, '"');
    proof {
        assert(output@ =~= start + json_string(value@));
    }
}

/// A JSON object with an `error` message.
pub fn json_error(message: &str) -> (r: String)
    ensures
        r@ == "{\"error\":"@ + json_string(message@) + seq!['}'],
{
    let mut json = owned("{\"error\":");
    json_string_into(&mut json, message);
    push_char(&mut json, '}');
    json
}

/// The decimal digit character for `d < 10`.
pub open spec fn digit_char(d: nat) -> char {
    (d + 48) as char
}

/// `n` written in decimal, as `usize::to_string` writes it.
pub open spec fn decimal_text(n: nat) -> Seq<char>
    decreases n,
{
    if n < 10 {
        seq![digit_char(n)]
    } else {
        decimal_text(n / 10).push(digit_char(n % 10))
    }
}

/// `n` written in decimal.
pub fn decimal_string(n: usize) -> (r: String)
    ensures
        r@ == decimal_text(n as nat),
    decreases n,
{
    let d = ((n % 10) as u8 + 48) as char;
    if n < 10 {
        let mut s = String::new();
        push_char(&mut s, d);
        proof {
            assert(s@ =~= decimal_text(n as nat));
        }
        s
    } else {
        let mut s = decimal_string(n / 10);
        push_char(&mut s, d);
        s
    }
}

/// The shot time of a sample is a number that reads as zero: the shot
/// choked.
pub open spec fn choked_time(time: Seq<char>) -> bool {
    let t = strip_unit(time, seq!['g', 's']);
    is_decimal_text(t) && reads_as_zero(t)
}

/// Whether a sample records a choked shot (its time reads as zero).
pub fn is_choked_sample(sample: &Sample) -> (r: bool)
    ensures
        r == choked_time(sample.time@),
{
    let shot_time = numeric_value(sample.time.as_str());
    if !is_number(shot_time.as_str()) {
        return false;
    }
    let c = chars_of(shot_time.as_str());
    decimal_reads_as_zero(&c)
}

/// The JSON of sample number `index` of a recipe, preceded by a comma
/// unless it is the first.
pub open spec fn sample_json(s: SampleView, index: nat) -> Seq<char> {
    (if index > 0 {
        seq![',']
    } else {
        Seq::empty()
    }) + seq!['{'] + "\"index\":"@ + decimal_text(index) + ",\"time\":"@ + json_string(s.time)
        + ",\"grind\":"@ + json_string(s.grind) + ",\"choked\":"@ + (if choked_time(s.time) {
        "true"@
    } else {
        "false"@
    }) + seq!['}']
}

/// The JSON of a recipe's samples, in order.
pub open spec fn samples_json(ss: Seq<SampleView>) -> Seq<char>
    decreases ss.len(),
{
    if ss.len() == 0 {
        Seq::empty()
    } else {
        samples_json(ss.drop_last()) + sample_json(ss.last(), (ss.len() - 1) as nat)
    }
}

/// The JSON of a recipe.
pub open spec fn recipe_json_text(r: RecipeView) -> Seq<char> {
    seq!['{'] + "\"name\":"@ + json_string(r.name) + ",\"dose_weight_g\":"@ + json_string(r.dose_weight_g)
        + ",\"shot_weight_g\":"@ + json_string(r.shot_weight_g) + ",\"sample_count\":"@ + decimal_text(
        r.samples.len(),
    ) + ",\"samples\":["@ + samples_json(r.samples) + "]}"@
}

fn push_sample_json(json: &mut String, sample: &Sample, index: usize)
    ensures
        final(json)@ == old(json)@ + sample_json(sample@, index as nat),
{
    if index > 0 {
        push_char(json, ',');
    }
    push_char(json, '{');
    push_str(json, "\"index\":");
    push_str(json, decimal_string(index).as_str());
    push_str(json, ",\"time\":");
    json_string_into(json, sample.time.as_str());
    push_str(json, ",\"grind\":");
    json_string_into(json, sample.grind.as_str());
    push_str(json, ",\"choked\":");
    if is_choked_sample(sample) {
        push_str(json, "true");
    } else {
        push_str(json, "false");
    }
    push_char(json, '}');
    proof {
        assert(final(json)@ =~= old(json)@ + sample_json(sample@, index as nat));
    }
}

/// The JSON of a recipe with its samples.
pub fn recipe_json(recipe: &Recipe) -> (r: String)
    ensures
        r@ == recipe_json_text(recipe@),
{
    let mut json = String::new();
    push_char(&mut json, '{');
    push_str(&mut json, "\"name\":");
    json_string_into(&mut json, recipe.name.as_str());
    push_str(&mut json, ",\"dose_weight_g\":");
    json_string_into(&mut json, recipe.dose_weight_g.as_str());
    push_str(&mut json, ",\"shot_weight_g\":");
    json_string_into(&mut json, recipe.shot_weight_g.as_str());
    push_str(&mut json, ",\"sample_count\":");
    push_str(&mut json, decimal_string(recipe.samples.len()).as_str());
    push_str(&mut json, ",\"samples\":[");
    let ghost head = json@;
    let ghost ss = recipe@.samples;
    let mut index: usize = 0;
    proof {
        assert(samples_json(ss.take(0)) =~= Seq::<char>::empty());
        assert(json@ =~= head + samples_json(ss.take(0)));
    }
    while index < recipe.samples.len()
        invariant
            index <= recipe.samples.len(),
            ss == recipe@.samples,
            json@ == head + samples_json(ss.take(index as int)),
        decreases recipe.samples.len() - index,
    {
        let sample = &recipe.samples[index];
        push_sample_json(&mut json, sample, index);
        proof {
            let t = ss.take(index as int + 1);
            assert(t.drop_last() =~= ss.take(index as int));
            assert(t.last() == sample@);
        }
        index = index + 1;
    }
    proof {
        assert(ss.take(recipe.samples.len() as int) =~= ss);
    }
    push_str(&mut json, "]}");
    proof {
        assert(json@ =~= recipe_json_text(recipe@));
    }
    json
}

/// The JSON of all recipes, separated by commas.
pub open spec fn recipes_json(rs: Seq<RecipeView>) -> Seq<char>
    decreases rs.len(),
{
    if rs.len() == 0 {
        Seq::empty()
    } else {
        recipes_json(rs.drop_last()) + (if rs.len() > 1 {
            seq![',']
        } else {
            Seq::empty()
        }) + recipe_json_text(rs.last())
    }
}

/// The view of an optional string slice.
pub open spec fn str_option_view(o: Option<&str>) -> Option<Seq<char>> {
    match o {
        Some(s) => Some(s@),
        None => None,
    }
}

/// An optional index as an integer.
pub open spec fn index_option(o: Option<usize>) -> Option<int> {
    match o {
        Some(i) => Some(i as int),
        None => None,
    }
}

/// The recipe the web app shows: the one asked for when a recipe carries
/// that name, else the first recipe, if any.
pub open spec fn selected_index(rs: Seq<RecipeView>, asked: Option<Seq<char>>) -> Option<int> {
    match asked {
        Some(name) => match crate::store::find_named(rs, name) {
            Some(i) => Some(i),
            None => if rs.len() > 0 {
                Some(0)
            } else {
                None
            },
        },
        None => if rs.len() > 0 {
            Some(0)
        } else {
            None
        },
    }
}

/// The index of the recipe the web app shows.
pub fn selected_recipe_index(data: &Data, asked: Option<&str>) -> (r: Option<usize>)
    ensures
        r matches Some(i) ==> i < data@.len() && selected_index(data@, str_option_view(asked)) == Some(
            i as int,
        ),
        r is None ==> selected_index(data@, str_option_view(asked)) is None,
{
    proof {
        crate::store::lemma_find_named(data@, asked.unwrap()@);
    }
    match asked {
        Some(name) => match crate::store::find_recipe(data, name) {
            Some(i) => Some(i),
            None => if data.recipes.len() > 0 {
                Some(0)
            } else {
                None
            },
        },
        None => if data.recipes.len() > 0 {
            Some(0)
        } else {
            None
        },
    }
}

/// The app state the web page reads: all recipes, the selected recipe's
/// name, the target time text, and the prediction's JSON (or `null`).
pub open spec fn state_json_text(
    rs: Seq<RecipeView>,
    selected: Option<int>,
    target_time: Seq<char>,
    prediction: Option<Seq<char>>,
) -> Seq<char> {
    "{\"recipes\":["@ + recipes_json(rs) + "],"@ + "\"selected_recipe\":"@ + (match selected {
        Some(i) => json_string(rs[i].name),
        None => "null"@,
    }) + ",\"target_time\":\""@ + target_time + seq!['"'] + ",\"prediction\":"@ + (match prediction {
        Some(p) => p,
        None => "null"@,
    }) + seq!['}']
}

/// The JSON of the app state, given the selected recipe, the target time
/// as text, and the selected recipe's prediction JSON.
pub fn web_state_json(data: &Data, selected: Option<usize>, target_time: &str, prediction: Option<&str>) -> (r:
    String)
    requires
        selected matches Some(i) ==> i < data@.len(),
    ensures
        r@ == state_json_text(
            data@,
            index_option(selected),
            target_time@,
            str_option_view(prediction),
        ),
{
    let mut json = owned("{\"recipes\":[");
    let ghost head = json@;
    let mut index: usize = 0;
    proof {
        assert(recipes_json(data@.take(0)) =~= Seq::<char>::empty());
        assert(json@ =~= head + recipes_json(data@.take(0)));
    }
    while index < data.recipes.len()
        invariant
            index <= data.recipes.len(),
            json@ == head + recipes_json(data@.take(index as int)),
        decreases data.recipes.len() - index,
    {
        if index > 0 {
            push_char(&mut json, ',');
        }
        push_str(&mut json, recipe_json(&data.recipes[index]).as_str());
        proof {
            let t = data@.take(index as int + 1);
            assert(t.drop_last() =~= data@.take(index as int));
            assert(t.last() == data@[index as int]);
            assert(json@ =~= head + recipes_json(t));
        }
        index = index + 1;
    }
    proof {
        assert(data@.take(data.recipes.len() as int) =~= data@);
    }
    push_str(&mut json, "],");
    push_str(&mut json, "\"selected_recipe\":");
    match selected {
        Some(i) => json_string_into(&mut json, data.recipes[i].name.as_str()),
        None => push_str(&mut json, "null"),
    }
    push_str(&mut json, ",\"target_time\":\"");
    push_str(&mut json, target_time);
    push_char(&mut json, '"');
    push_str(&mut json, ",\"prediction\":");
    match prediction {
        Some(p) => push_str(&mut json, p),
        None => push_str(&mut json, "null"),
    }
    push_char(&mut json, '}');
    proof {
        assert(json@ =~= state_json_text(
            data@,
            index_option(selected),
            target_time@,
            str_option_view(prediction),
        ));
    }
    json
}

/// How one character is written in SVG text.
pub open spec fn svg_char(c: char) -> Seq<char> {
    if c == '&' {
        "&amp;"@
    } else if c == '<' {
        "&lt;"@
    } else if c == '>' {
        "&gt;"@
    } else if c == '"' {
        "&quot;"@
    } else if c == '\'' {
        "&apos;"@
    } else {
        seq![c]
    }
}

/// The characters of `s` escaped for SVG text and attributes.
pub open spec fn svg_escaped(s: Seq<char>) -> Seq<char>
    decreases s.len(),
{
    if s.len() == 0 {
        Seq::empty()
    } else {
        svg_escaped(s.drop_last()) + svg_char(s.last())
    }
}

/// Markup characters: those that end or open a tag or an attribute value.
pub open spec fn is_markup_char(c: char) -> bool {
    c == '<' || c == '>' || c == '"' || c == '\''
}

/// Escaped text holds no markup character, so it can stand in SVG text
/// and attribute values.
pub proof fn law_svg_text_has_no_markup(s: Seq<char>)
    ensures
        forall|i: int| 0 <= i < svg_escaped(s).len() ==> !is_markup_char(#[trigger] svg_escaped(s)[i]),
    decreases s.len(),
{
    if s.len() > 0 {
        law_svg_text_has_no_markup(s.drop_last());
        let c = s.last();
        reveal_strlit("&amp;");
        reveal_strlit("&lt;");
        reveal_strlit("&gt;");
        reveal_strlit("&quot;");
        reveal_strlit("&apos;");
        let head = svg_escaped(s.drop_last());
        let tail = svg_char(c);
        assert forall|i: int| 0 <= i < tail.len() implies !is_markup_char(#[trigger] tail[i]) by {
            if c == '&' {
                assert(tail =~= seq!['&', 'a', 'm', 'p', ';']);
            } else if c == '<' {
                assert(tail =~= seq!['&', 'l', 't', ';']);
            } else if c == '>' {
                assert(tail =~= seq!['&', 'g', 't', ';']);
            } else if c == '"' {
                assert(tail =~= seq!['&', 'q', 'u', 'o', 't', ';']);
            } else if c == '\'' {
                assert(tail =~= seq!['&', 'a', 'p', 'o', 's', ';']);
            }
        }
        assert forall|i: int| 0 <= i < svg_escaped(s).len() implies !is_markup_char(
            #[trigger] svg_escaped(s)[i],
        ) by {
            assert(svg_escaped(s) == head + tail);
            if i < head.len() {
                assert(svg_escaped(s)[i] == head[i]);
            } else {
                assert(svg_escaped(s)[i] == tail[i - head.len()]);
            }
        }
    }
}

/// Escapes `&`, `<`, `>`, `"` and `'` as XML entities.
pub fn svg_escape(value: &str) -> (r: String)
    ensures
        r@ == svg_escaped(value@),
{
    let chars = chars_of(value);
    let mut out = String::new();
    let mut i: usize = 0;
    proof {
        assert(svg_escaped(chars@.take(0)) =~= Seq::<char>::empty());
    }
    while i < chars.len()
        invariant
            i <= chars.len(),
            out@ == svg_escaped(chars@.take(i as int)),
        decreases chars.len() - i,
    {
        let c = chars[i];
        if c == '&' {
            push_str(&mut out, "&amp;");
        } else if c == '<' {
            push_str(&mut out, "&lt;");
        } else if c == '>' {
            push_str(&mut out, "&gt;");
        } else if c == '"' {
            push_str(&mut out, "&quot;");
        } else if c == '\'' {
            push_str(&mut out, "&apos;");
        } else {
            push_char(&mut out, c);
        }
        proof {
            let t = chars@.take(i as int + 1);
            assert(t.drop_last() =~= chars@.take(i as int));
            assert(t.last() == c);
        }
        i = i + 1;
    }
    proof {
        assert(chars@.take(chars.len() as int) =~= value@);
    }
    out
}

/// The hint shown when no prediction can be made, by how many usable
/// samples the recipe has.
pub open spec fn prediction_note_text(point_count: nat) -> Seq<char> {
    if point_count == 0 {
        "Log two shots with different grinds to unlock prediction."@
    } else if point_count == 1 {
        "Log one more shot at a different grind to unlock prediction."@
    } else {
        "Use different grind settings to unlock prediction."@
    }
}

/// The hint shown when no prediction can be made.
pub fn prediction_note(point_count: usize) -> (r: String)
    ensures
        r@ == prediction_note_text(point_count as nat),
{
    if point_count == 0 {
        owned("Log two shots with different grinds to unlock prediction.")
    } else if point_count == 1 {
        owned("Log one more shot at a different grind to unlock prediction.")
    } else {
        owned("Use different grind settings to unlock prediction.")
    }
}

} // verus!
