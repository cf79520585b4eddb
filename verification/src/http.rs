//! The small HTTP server's decisions: when a request has been read in
//! full, how a request is split into method, path, query and body, which
//! handler a request goes to, and the response header.

use vstd::prelude::*;
use crate::form::{first_index, form_pairs, form_value, pair_views, parse_form_encoded, string_from_utf8_lossy, trim, trimmed};
use crate::json::{decimal_string, decimal_text};
use crate::number::{parse_usize, usize_text_value};
use crate::split::views;
use crate::store::{text_lines, text_lines_of};
use crate::text::{chars_of, is_white_space, is_white_space_char, owned, push_str, string_from_chars};

verus! {

/// `needle` occurs in `haystack` at `i`.
pub open spec fn occurs_at<T>(haystack: Seq<T>, needle: Seq<T>, i: int) -> bool {
    0 <= i && i + needle.len() <= haystack.len() && haystack.subrange(i, i + needle.len()) == needle
}

/// The first position, from `from` on, where `needle` occurs in
/// `haystack`.
pub open spec fn first_occurrence_from<T>(haystack: Seq<T>, needle: Seq<T>, from: int) -> Option<int>
    decreases haystack.len() - from,
{
    if from < 0 || from >= haystack.len() || from + needle.len() > haystack.len() {
        None
    } else if occurs_at(haystack, needle, from) {
        Some(from)
    } else {
        first_occurrence_from(haystack, needle, from + 1)
    }
}

/// The first position where `needle` occurs in `haystack`.
pub open spec fn first_occurrence<T>(haystack: Seq<T>, needle: Seq<T>) -> Option<int> {
    first_occurrence_from(haystack, needle, 0)
}

/// Where every element of `needle` matches from `i` on, the search from
/// `i` finds it at `i`.
proof fn lemma_occurs_here<T>(haystack: Seq<T>, needle: Seq<T>, i: int)
    requires
        0 <= i,
        needle.len() > 0,
        i + needle.len() <= haystack.len(),
        forall|t: int| 0 <= t < needle.len() ==> haystack[i + t] == needle[t],
    ensures
        first_occurrence_from(haystack, needle, i) == Some(i),
{
    assert(haystack.subrange(i, i + needle.len()) =~= needle);
}

/// Where one element of `needle` does not match from `i` on, the search
/// from `i` goes on from `i + 1`.
proof fn lemma_not_here<T>(haystack: Seq<T>, needle: Seq<T>, i: int, k: int)
    requires
        0 <= i,
        0 <= k < needle.len(),
        i + needle.len() <= haystack.len(),
        haystack[i + k] != needle[k],
    ensures
        first_occurrence_from(haystack, needle, i) == first_occurrence_from(haystack, needle, i + 1),
{
    assert(haystack.subrange(i, i + needle.len())[k] != needle[k]);
}

/// The position of the first occurrence of `needle` in `haystack`.
pub fn find_bytes(haystack: &[u8], needle: &[u8]) -> (r: Option<usize>)
    requires
        needle@.len() > 0,
    ensures
        r matches Some(i) ==> first_occurrence(haystack@, needle@) == Some(i as int) && i + needle@.len()
            <= haystack@.len(),
        r is None ==> first_occurrence(haystack@, needle@) is None,
{
    let n = needle.len();
    if haystack.len() < n {
        return None;
    }
    let mut i: usize = 0;
    while i <= haystack.len() - n
        invariant
            n == needle@.len(),
            n > 0,
            n <= haystack.len(),
            i <= haystack.len() - n + 1,
            first_occurrence(haystack@, needle@) == first_occurrence_from(haystack@, needle@, i as int),
        decreases haystack.len() - i,
    {
        let mut k: usize = 0;
        while k < n && haystack[i + k] == needle[k]
            invariant
                k <= n,
                i + n <= haystack.len(),
                n == needle@.len(),
                forall|t: int| 0 <= t < k ==> haystack@[i + t] == needle@[t],
            decreases n - k,
        {
            k = k + 1;
        }
        if k == n {
            proof {
                lemma_occurs_here(haystack@, needle@, i as int);
            }
            return Some(i);
        }
        proof {
            lemma_not_here(haystack@, needle@, i as int, k as int);
        }
        i = i + 1;
    }
    None
}

/// The bytes that end the headers: a blank line.
pub open spec fn header_end_marker() -> Seq<u8> {
    seq![13u8, 10u8, 13u8, 10u8]
}

/// The character with ASCII letters in lower case.
pub open spec fn ascii_lower(c: char) -> char {
    if 'A' <= c && c <= 'Z' {
        ((c as u32) + 32) as char
    } else {
        c
    }
}

pub open spec fn eq_ignore_ascii_case(a: Seq<char>, b: Seq<char>) -> bool {
    a.len() == b.len() && forall|i: int| 0 <= i < a.len() ==> ascii_lower(a[i]) == ascii_lower(b[i])
}

/// The length a header line declares: the line has a `:`, the part before
/// it is `content-length` in any ASCII case, and the part after it, trimmed,
/// reads as a `usize`.
pub open spec fn declared_length(line: Seq<char>) -> Option<nat> {
    match first_index(line, ':') {
        Some(p) => if eq_ignore_ascii_case(line.take(p), "content-length"@) {
            usize_text_value(trim(line.skip(p + 1)))
        } else {
            None
        },
        None => None,
    }
}

/// The content length the first header line declaring one gives, or 0.
pub open spec fn content_length_of(lines: Seq<Seq<char>>) -> nat
    decreases lines.len(),
{
    if lines.len() == 0 {
        0
    } else {
        match declared_length(lines[0]) {
            Some(n) => n,
            None => content_length_of(lines.skip(1)),
        }
    }
}

/// Text without `c` has no first `c`.
proof fn lemma_first_index_absent(s: Seq<char>, c: char)
    requires
        !s.contains(c),
    ensures
        first_index(s, c) is None,
    decreases s.len(),
{
    if s.len() > 0 {
        assert(!s.drop_last().contains(c)) by {
            if s.drop_last().contains(c) {
                let k = choose|k: int| 0 <= k < s.drop_last().len() && s.drop_last()[k] == c;
                assert(s[k] == c);
            }
        }
        lemma_first_index_absent(s.drop_last(), c);
        assert(s[s.len() - 1] == s.last());
    }
}

/// A header line `name:value` whose name holds no `:` declares a length
/// exactly when its name is `content-length` in any ASCII case and its
/// value, trimmed, reads as a `usize`; the length is that value.
pub proof fn law_declared_length(name: Seq<char>, value: Seq<char>)
    requires
        !name.contains(':'),
    ensures
        declared_length(name + seq![':'] + value) == (if eq_ignore_ascii_case(name, "content-length"@) {
            usize_text_value(trim(value))
        } else {
            None
        }),
{
    let line = name + seq![':'] + value;
    let n = name.len() as int;
    lemma_first_index_absent(name, ':');
    assert(line.take(n + 1).drop_last() =~= name);
    assert(line.take(n + 1).last() == ':');
    crate::form::lemma_first_index_prefix(line, ':', n + 1);
    assert(line.take(n) =~= name);
    assert(line.skip(n + 1) =~= value);
}

/// The declared content length is that of the first header line declaring
/// one, whatever lines without a declaration come before it; with no such
/// line it is 0.
pub proof fn law_first_declared_length_counts(line: Seq<char>, lines: Seq<Seq<char>>)
    ensures
        declared_length(line) is None ==> content_length_of(seq![line] + lines) == content_length_of(lines),
        declared_length(line) matches Some(n) ==> content_length_of(seq![line] + lines) == n,
        content_length_of(Seq::empty()) == 0,
{
    assert((seq![line] + lines)[0] == line);
    assert((seq![line] + lines).skip(1) =~= lines);
}

/// The text `String::from_utf8_lossy` makes of the header bytes.
pub open spec fn header_text(bytes: Seq<u8>) -> Seq<char> {
    crate::form::lossy_utf8(bytes)
}

/// How far reading a request has come.
#[derive(Clone, Copy, Debug, PartialEq, Eq, Structural)]
pub enum Progress {
    /// The headers and the whole declared body have arrived.
    Complete,
    /// More than a megabyte arrived without completing the request.
    TooLarge,
    /// More bytes are needed.
    NeedMore,
}

/// The bytes hold the headers and the declared body.
pub open spec fn request_complete(bytes: Seq<u8>) -> bool {
    match first_occurrence(bytes, header_end_marker()) {
        Some(end) => bytes.len() >= end + 4 + content_length_of(text_lines(header_text(bytes.take(end)))),
        None => false,
    }
}

/// The decision after each read, from the bytes read so far.
pub open spec fn request_progress(bytes: Seq<u8>) -> Progress {
    if request_complete(bytes) {
        Progress::Complete
    } else if bytes.len() > 1_000_000 {
        Progress::TooLarge
    } else {
        Progress::NeedMore
    }
}

fn ascii_lower_char(c: char) -> (r: char)
    ensures
        r == ascii_lower(c),
{
    if 'A' <= c && c <= 'Z' {
        ((c as u8) + 32) as char
    } else {
        c
    }
}

fn chars_eq_ignore_ascii_case(a: &Vec<char>, b: &str) -> (r: bool)
    ensures
        r == eq_ignore_ascii_case(a@, b@),
{
    let bc = chars_of(b);
    if a.len() != bc.len() {
        return false;
    }
    let mut i: usize = 0;
    while i < a.len()
        invariant
            i <= a.len(),
            a.len() == bc.len(),
            bc@ == b@,
            forall|j: int| 0 <= j < i ==> ascii_lower(a@[j]) == ascii_lower(bc@[j]),
        decreases a.len() - i,
    {
        if ascii_lower_char(a[i]) != ascii_lower_char(bc[i]) {
            return false;
        }
        i = i + 1;
    }
    true
}

fn declared_length_of(line: &Vec<char>) -> (r: Option<usize>)
    ensures
        match declared_length(line@) {
            Some(n) => r == Some(n as usize) && n <= usize::MAX,
            None => r is None,
        },
{
    let mut p: usize = 0;
    proof {
        assert(line@.take(0) =~= Seq::<char>::empty());
    }
    while p < line.len() && line[p] != ':'
        invariant
            p <= line.len(),
            first_index(line@.take(p as int), ':') is None,
        decreases line.len() - p,
    {
        proof {
            assert(line@.take(p as int + 1).drop_last() =~= line@.take(p as int));
        }
        p = p + 1;
    }
    if p == line.len() {
        proof {
            assert(line@.take(p as int) =~= line@);
        }
        return None;
    }
    proof {
        let t = line@.take(p as int + 1);
        assert(t.drop_last() =~= line@.take(p as int));
        assert(first_index(t, ':') == Some(p as int));
        crate::form::lemma_first_index_prefix(line@, ':', p as int + 1);
    }
    let name: Vec<char> = {
        let mut v: Vec<char> = Vec::new();
        let mut i: usize = 0;
        while i < p
            invariant
                i <= p,
                p < line.len(),
                v@ == line@.take(i as int),
            decreases p - i,
        {
            proof {
                assert(line@.take(i as int + 1) =~= v@.push(line@[i as int]));
            }
            v.push(line[i]);
            i = i + 1;
        }
        v
    };
    if !chars_eq_ignore_ascii_case(&name, "content-length") {
        return None;
    }
    let mut rest: Vec<char> = Vec::new();
    let mut i: usize = p + 1;
    while i < line.len()
        invariant
            p < i <= line.len(),
            rest@ == line@.subrange(p as int + 1, i as int),
        decreases line.len() - i,
    {
        proof {
            assert(line@.subrange(p as int + 1, i as int + 1) =~= rest@.push(line@[i as int]));
        }
        rest.push(line[i]);
        i = i + 1;
    }
    proof {
        assert(rest@ =~= line@.skip(p as int + 1));
    }
    let value = trimmed(string_from_chars(&rest).as_str());
    parse_usize(value.as_str())
}

fn content_length(lines: &Vec<Vec<char>>) -> (r: usize)
    ensures
        r == content_length_of(views(lines@)),
{
    let ghost all = views(lines@);
    let mut i: usize = 0;
    proof {
        assert(all.skip(0) =~= all);
    }
    while i < lines.len()
        invariant
            i <= lines.len(),
            all == views(lines@),
            content_length_of(all) == content_length_of(all.skip(i as int)),
        decreases lines.len() - i,
    {
        let ghost rest = all.skip(i as int);
        assert(rest[0] == lines@[i as int]@);
        match declared_length_of(&lines[i]) {
            Some(n) => {
                return n;
            },
            None => {},
        }
        proof {
            assert(rest.skip(1) =~= all.skip(i as int + 1));
        }
        i = i + 1;
    }
    proof {
        assert(all.skip(i as int) =~= Seq::<Seq<char>>::empty());
    }
    0
}

fn header_content_length(bytes: &[u8], end: usize) -> (r: usize)
    requires
        end <= bytes@.len(),
    ensures
        r == content_length_of(text_lines(header_text(bytes@.take(end as int)))),
{
    let mut head: Vec<u8> = Vec::new();
    let mut i: usize = 0;
    while i < end
        invariant
            i <= end,
            end <= bytes@.len(),
            head@ == bytes@.take(i as int),
        decreases end - i,
    {
        proof {
            assert(bytes@.take(i as int + 1) =~= head@.push(bytes@[i as int]));
        }
        head.push(bytes[i]);
        i = i + 1;
    }
    let headers = string_from_utf8_lossy(head.as_slice());
    let chars = chars_of(headers.as_str());
    let lines = text_lines_of(&chars);
    content_length(&lines)
}

/// Decides, from the bytes read so far, whether a request is complete, too
/// large, or needs more bytes.
pub fn read_progress(bytes: &[u8]) -> (r: Progress)
    ensures
        r == request_progress(bytes@),
{
    let marker: Vec<u8> = vec![13, 10, 13, 10];
    proof {
        assert(marker@ =~= header_end_marker());
    }
    let complete = match find_bytes(bytes, marker.as_slice()) {
        None => false,
        Some(end) => {
            let cl = header_content_length(bytes, end);
            bytes.len() - end >= 4 && bytes.len() - end - 4 >= cl
        },
    };
    if complete {
        Progress::Complete
    } else if bytes.len() > 1_000_000 {
        Progress::TooLarge
    } else {
        Progress::NeedMore
    }
}

/// The position of the first occurrence of `needle` in `haystack`.
pub fn find_chars(haystack: &Vec<char>, needle: &Vec<char>) -> (r: Option<usize>)
    requires
        needle@.len() > 0,
    ensures
        r matches Some(i) ==> first_occurrence(haystack@, needle@) == Some(i as int) && i + needle@.len()
            <= haystack@.len(),
        r is None ==> first_occurrence(haystack@, needle@) is None,
{
    let n = needle.len();
    if haystack.len() < n {
        return None;
    }
    let mut i: usize = 0;
    while i <= haystack.len() - n
        invariant
            n == needle@.len(),
            n > 0,
            n <= haystack.len(),
            i <= haystack.len() - n + 1,
            first_occurrence(haystack@, needle@) == first_occurrence_from(haystack@, needle@, i as int),
        decreases haystack.len() - i,
    {
        let mut k: usize = 0;
        while k < n && haystack[i + k] == needle[k]
            invariant
                k <= n,
                i + n <= haystack.len(),
                n == needle@.len(),
                forall|t: int| 0 <= t < k ==> haystack@[i + t] == needle@[t],
            decreases n - k,
        {
            k = k + 1;
        }
        if k == n {
            proof {
                lemma_occurs_here(haystack@, needle@, i as int);
            }
            return Some(i);
        }
        proof {
            lemma_not_here(haystack@, needle@, i as int, k as int);
        }
        i = i + 1;
    }
    None
}

/// The pieces of `s` between runs of white space (`str::split` on
/// `char::is_whitespace`).
pub open spec fn split_white(s: Seq<char>) -> Seq<Seq<char>>
    decreases s.len(),
{
    if s.len() == 0 {
        seq![Seq::empty()]
    } else {
        let rest = split_white(s.drop_last());
        if is_white_space(s.last()) {
            rest.push(Seq::empty())
        } else {
            rest.update(rest.len() - 1, rest.last().push(s.last()))
        }
    }
}

/// The words of `s`, as `str::split_whitespace` yields them.
pub open spec fn words(s: Seq<char>) -> Seq<Seq<char>> {
    split_white(s).filter(|w: Seq<char>| w.len() > 0)
}

proof fn lemma_split_white_nonempty(s: Seq<char>)
    ensures
        split_white(s).len() >= 1,
    decreases s.len(),
{
    if s.len() > 0 {
        lemma_split_white_nonempty(s.drop_last());
    }
}

/// The words of `s`.
fn words_of(s: &Vec<char>) -> (r: Vec<Vec<char>>)
    ensures
        views(r@) == words(s@),
{
    let ghost keep = |w: Seq<char>| w.len() > 0;
    let mut done: Vec<Vec<char>> = Vec::new();
    let mut cur: Vec<char> = Vec::new();
    let mut i: usize = 0;
    proof {
        reveal_with_fuel(Seq::filter, 1);
        assert(s@.take(0) =~= Seq::<char>::empty());
        assert(split_white(Seq::<char>::empty()) =~= seq![Seq::<char>::empty()]);
        assert(seq![Seq::<char>::empty()].drop_last() =~= Seq::<Seq<char>>::empty());
        assert(Seq::<Seq<char>>::empty().filter(keep) =~= Seq::<Seq<char>>::empty());
    }
    while i < s.len()
        invariant
            i <= s.len(),
            keep == (|w: Seq<char>| w.len() > 0),
            split_white(s@.take(i as int)).len() >= 1,
            views(done@) == split_white(s@.take(i as int)).drop_last().filter(keep),
            cur@ == split_white(s@.take(i as int)).last(),
        decreases s.len() - i,
    {
        let x = s[i];
        let ghost before = split_white(s@.take(i as int));
        proof {
            let t = s@.take(i as int + 1);
            assert(t.drop_last() =~= s@.take(i as int));
            assert(t.last() == x);
            reveal_with_fuel(Seq::filter, 1);
        }
        if is_white_space_char(x) {
            proof {
                let after = before.push(Seq::empty());
                assert(after.drop_last() =~= before);
                assert(before =~= before.drop_last().push(before.last()));
            }
            if cur.len() > 0 {
                proof {
                    assert(views(done@.push(cur)) =~= views(done@).push(cur@));
                }
                done.push(cur);
            }
            cur = Vec::new();
        } else {
            cur.push(x);
            proof {
                let after = before.update(before.len() - 1, before.last().push(x));
                assert(after.drop_last() =~= before.drop_last());
            }
        }
        i = i + 1;
    }
    proof {
        assert(s@.take(s.len() as int) =~= s@);
        reveal_with_fuel(Seq::filter, 1);
        let all = split_white(s@);
        assert(all =~= all.drop_last().push(all.last()));
    }
    if cur.len() > 0 {
        proof {
            assert(views(done@.push(cur)) =~= views(done@).push(cur@));
        }
        done.push(cur);
    }
    done
}

/// A carriage return and line feed.
pub open spec fn crlf() -> Seq<char> {
    seq!['\r', '\n']
}

/// The first line of a request (up to the first CRLF).
pub open spec fn request_line(s: Seq<char>) -> Seq<char> {
    match first_occurrence(s, crlf()) {
        Some(i) => s.take(i),
        None => s,
    }
}

/// The request's method: the first word of its first line, or empty.
pub open spec fn request_method(s: Seq<char>) -> Seq<char> {
    let w = words(request_line(s));
    if w.len() > 0 {
        w[0]
    } else {
        Seq::empty()
    }
}

/// The request's target: the second word of its first line, or `/`.
pub open spec fn request_target(s: Seq<char>) -> Seq<char> {
    let w = words(request_line(s));
    if w.len() > 1 {
        w[1]
    } else {
        seq!['/']
    }
}

/// The request's body: what follows the first blank line, or empty.
pub open spec fn request_body(s: Seq<char>) -> Seq<char> {
    match first_occurrence(s, crlf() + crlf()) {
        Some(i) => s.skip(i + 4),
        None => Seq::empty(),
    }
}

/// The path of a target: up to the first `?`.
pub open spec fn target_path(t: Seq<char>) -> Seq<char> {
    match first_index(t, '?') {
        Some(p) => t.take(p),
        None => t,
    }
}

/// The query of a target: after the first `?`, or empty.
pub open spec fn target_query(t: Seq<char>) -> Seq<char> {
    match first_index(t, '?') {
        Some(p) => t.skip(p + 1),
        None => Seq::empty(),
    }
}

/// What the server does with a request.
#[derive(Clone, Copy, Debug, PartialEq, Eq, Structural)]
pub enum Route {
    /// Send the web page.
    Page,
    /// Send the app state.
    State,
    /// Add a recipe from the form in the body.
    CreateRecipe,
    /// Add a sample from the form in the body.
    AddSample,
    /// Delete a sample named by the form in the body.
    DeleteSample,
    /// Delete a recipe named by the form in the body.
    DeleteRecipe,
    /// Answer 404.
    NotFound,
}

/// The route of a method and path.
pub open spec fn route_for(method: Seq<char>, path: Seq<char>) -> Route {
    if method == "GET"@ && (path == "/"@ || path == "/index.html"@) {
        Route::Page
    } else if method == "GET"@ && path == "/api/state"@ {
        Route::State
    } else if method == "POST"@ && path == "/api/recipes"@ {
        Route::CreateRecipe
    } else if method == "POST"@ && path == "/api/samples"@ {
        Route::AddSample
    } else if method == "POST"@ && path == "/api/samples/delete"@ {
        Route::DeleteSample
    } else if method == "POST"@ && path == "/api/recipes/delete"@ {
        Route::DeleteRecipe
    } else {
        Route::NotFound
    }
}

/// The form a route reads: the query for the state, the body for the
/// changes, none otherwise.
pub open spec fn route_form(route: Route, query: Seq<char>, body: Seq<char>) -> Seq<(Seq<char>, Seq<char>)> {
    match route {
        Route::State => form_pairs(query),
        Route::CreateRecipe | Route::AddSample | Route::DeleteSample | Route::DeleteRecipe => form_pairs(body),
        _ => Seq::empty(),
    }
}

/// The recipe the state sent after the route names.
pub open spec fn route_recipe(route: Route, form: Seq<(Seq<char>, Seq<char>)>) -> Option<Seq<char>> {
    match route {
        Route::DeleteRecipe => None,
        _ => crate::form::form_lookup(form, "recipe"@),
    }
}

/// The target time the state sent after the route uses: 30 unless the
/// form gives one (for the state, a non-empty `time`; for sample changes
/// and recipe deletion, `target_time`).
pub open spec fn route_target_time(route: Route, form: Seq<(Seq<char>, Seq<char>)>) -> Seq<char> {
    match route {
        Route::State => match crate::form::form_lookup(form, "time"@) {
            Some(t) => if t.len() > 0 {
                t
            } else {
                "30"@
            },
            None => "30"@,
        },
        Route::AddSample | Route::DeleteSample | Route::DeleteRecipe => match crate::form::form_lookup(
            form,
            "target_time"@,
        ) {
            Some(t) => t,
            None => "30"@,
        },
        _ => "30"@,
    }
}

/// How to handle a request: the route, its form, and the recipe and target
/// time of the state sent back.
#[derive(Debug)]
pub struct Plan {
    pub route: Route,
    pub form: Vec<(String, String)>,
    pub recipe: Option<String>,
    pub target_time: String,
}

fn chars_prefix(c: &Vec<char>, n: usize) -> (r: Vec<char>)
    requires
        n <= c.len(),
    ensures
        r@ == c@.take(n as int),
{
    let mut out: Vec<char> = Vec::new();
    let mut i: usize = 0;
    while i < n
        invariant
            i <= n,
            n <= c.len(),
            out@ == c@.take(i as int),
        decreases n - i,
    {
        proof {
            assert(c@.take(i as int + 1) =~= out@.push(c@[i as int]));
        }
        out.push(c[i]);
        i = i + 1;
    }
    out
}

fn chars_suffix(c: &Vec<char>, n: usize) -> (r: Vec<char>)
    requires
        n <= c.len(),
    ensures
        r@ == c@.skip(n as int),
{
    let mut out: Vec<char> = Vec::new();
    let mut i: usize = n;
    while i < c.len()
        invariant
            n <= i <= c.len(),
            out@ == c@.subrange(n as int, i as int),
        decreases c.len() - i,
    {
        proof {
            assert(c@.subrange(n as int, i as int + 1) =~= out@.push(c@[i as int]));
        }
        out.push(c[i]);
        i = i + 1;
    }
    out
}

/// Each handler serves exactly one method and path (the page two paths):
/// `GET /` and `GET /index.html` get the page, `GET /api/state` the state,
/// `POST /api/recipes` adds a recipe, `POST /api/samples` adds a sample,
/// `POST /api/samples/delete` deletes one sample, `POST /api/recipes/delete`
/// deletes a recipe; every other request is not found.
pub proof fn law_each_route_has_its_request(method: Seq<char>, path: Seq<char>)
    ensures
        route_for(method, path) == Route::Page <==> method == "GET"@ && (path == "/"@ || path
            == "/index.html"@),
        route_for(method, path) == Route::State <==> method == "GET"@ && path == "/api/state"@,
        route_for(method, path) == Route::CreateRecipe <==> method == "POST"@ && path == "/api/recipes"@,
        route_for(method, path) == Route::AddSample <==> method == "POST"@ && path == "/api/samples"@,
        route_for(method, path) == Route::DeleteSample <==> method == "POST"@ && path
            == "/api/samples/delete"@,
        route_for(method, path) == Route::DeleteRecipe <==> method == "POST"@ && path
            == "/api/recipes/delete"@,
{
    reveal_strlit("GET");
    reveal_strlit("POST");
    reveal_strlit("/");
    reveal_strlit("/index.html");
    reveal_strlit("/api/state");
    reveal_strlit("/api/recipes");
    reveal_strlit("/api/samples");
    reveal_strlit("/api/samples/delete");
    reveal_strlit("/api/recipes/delete");
    assert("GET"@.len() == 3 && "GET"@[0] == 'G');
    assert("POST"@.len() == 4 && "POST"@[0] == 'P');
    assert("/"@.len() == 1 && "/"@[0] == '/');
    assert("/index.html"@.len() == 11 && "/index.html"@[0] == '/');
    assert("/api/state"@.len() == 10 && "/api/state"@[0] == '/');
    assert("/api/recipes"@.len() == 12 && "/api/recipes"@[0] == '/');
    assert("/api/samples"@.len() == 12 && "/api/samples"@[0] == '/');
    assert("/api/samples/delete"@.len() == 19 && "/api/samples/delete"@[0] == '/');
    assert("/api/recipes/delete"@.len() == 19 && "/api/recipes/delete"@[0] == '/');
    assert("/api/recipes"@[5] != "/api/samples"@[5]);
    assert("/api/recipes/delete"@[5] != "/api/samples/delete"@[5]);
}

fn route_of(method: &Vec<char>, path: &Vec<char>) -> (r: Route)
    ensures
        r == route_for(method@, path@),
{
    let get = crate::text::chars_eq_str(method, "GET");
    let post = crate::text::chars_eq_str(method, "POST");
    if get && (crate::text::chars_eq_str(path, "/") || crate::text::chars_eq_str(path, "/index.html")) {
        Route::Page
    } else if get && crate::text::chars_eq_str(path, "/api/state") {
        Route::State
    } else if post && crate::text::chars_eq_str(path, "/api/recipes") {
        Route::CreateRecipe
    } else if post && crate::text::chars_eq_str(path, "/api/samples") {
        Route::AddSample
    } else if post && crate::text::chars_eq_str(path, "/api/samples/delete") {
        Route::DeleteSample
    } else if post && crate::text::chars_eq_str(path, "/api/recipes/delete") {
        Route::DeleteRecipe
    } else {
        Route::NotFound
    }
}

fn str_option(o: Option<&str>) -> (r: Option<String>)
    ensures
        match o {
            Some(s) => r matches Some(x) && x@ == s@,
            None => r is None,
        },
{
    match o {
        Some(s) => Some(owned(s)),
        None => None,
    }
}

/// Decides how to handle a request, given its text.
pub fn plan_request(request: &str) -> (r: Plan)
    ensures
        ({
            let s = request@;
            let t = request_target(s);
            let route = route_for(request_method(s), target_path(t));
            let form = route_form(route, target_query(t), request_body(s));
            &&& r.route == route
            &&& pair_views(r.form@) == form
            &&& match route_recipe(route, form) {
                Some(x) => r.recipe matches Some(y) && y@ == x,
                None => r.recipe is None,
            }
            &&& r.target_time@ == route_target_time(route, form)
        }),
{
    let c = chars_of(request);
    let crlf_chars: Vec<char> = vec!['\r', '\n'];
    let blank: Vec<char> = vec!['\r', '\n', '\r', '\n'];
    proof {
        assert(crlf_chars@ =~= crlf());
        assert(blank@ =~= crlf() + crlf());
    }
    let line = match find_chars(&c, &crlf_chars) {
        Some(i) => chars_prefix(&c, i),
        None => chars_prefix(&c, c.len()),
    };
    proof {
        assert(c@.take(c.len() as int) =~= c@);
    }
    let body = match find_chars(&c, &blank) {
        Some(i) => chars_suffix(&c, i + 4),
        None => Vec::new(),
    };
    let w = words_of(&line);
    let method: Vec<char> = if w.len() > 0 {
        chars_prefix(&w[0], w[0].len())
    } else {
        Vec::new()
    };
    let target: Vec<char> = if w.len() > 1 {
        chars_prefix(&w[1], w[1].len())
    } else {
        vec!['/']
    };
    proof {
        assert(method@ =~= request_method(request@)) by {
            if w.len() > 0 {
                assert(w@[0]@.take(w@[0]@.len() as int) =~= w@[0]@);
            }
        }
        if w.len() > 0 {
            assert(views(w@)[0] == w@[0]@);
        }
        if w.len() > 1 {
            assert(views(w@)[1] == w@[1]@);
        }
    }
    let (path, query) = match crate::form::first_index_of(&target, '?') {
        Some(p) => (chars_prefix(&target, p), chars_suffix(&target, p + 1)),
        None => (chars_prefix(&target, target.len()), Vec::new()),
    };
    proof {
        assert(line@ == request_line(request@));
        assert(body@ == request_body(request@));
        assert(target@ == request_target(request@));
        assert(path@ == target_path(target@));
        assert(query@ == target_query(target@));
    }
    let route = route_of(&method, &path);
    let form = match route {
        Route::State => parse_form_encoded(string_from_chars(&query).as_str()),
        Route::CreateRecipe | Route::AddSample | Route::DeleteSample | Route::DeleteRecipe => parse_form_encoded(
            string_from_chars(&body).as_str(),
        ),
        _ => Vec::new(),
    };
    proof {
        if form@.len() == 0 {
            assert(pair_views(form@) =~= Seq::<(Seq<char>, Seq<char>)>::empty());
        }
    }
    let recipe = match route {
        Route::DeleteRecipe => None,
        _ => str_option(form_value(form.as_slice(), "recipe")),
    };
    let target_time = match route {
        Route::State => match form_value(form.as_slice(), "time") {
            Some(t) => if !t.is_empty() {
                owned(t)
            } else {
                owned("30")
            },
            None => owned("30"),
        },
        Route::AddSample | Route::DeleteSample | Route::DeleteRecipe => match form_value(
            form.as_slice(),
            "target_time",
        ) {
            Some(t) => owned(t),
            None => owned("30"),
        },
        _ => owned("30"),
    };
    Plan { route, form, recipe, target_time }
}

/// The header of a response: status line, content type and length, no
/// caching, connection closed.
pub open spec fn response_head_text(status: Seq<char>, content_type: Seq<char>, body_len: nat) -> Seq<char> {
    "HTTP/1.1 "@ + status + "\r\nContent-Type: "@ + content_type + "\r\nContent-Length: "@ + decimal_text(body_len)
        + "\r\nCache-Control: no-store\r\nConnection: close\r\n\r\n"@
}

/// The header of a response with a body of `body_len` bytes.
pub fn response_head(status: &str, content_type: &str, body_len: usize) -> (r: String)
    ensures
        r@ == response_head_text(status@, content_type@, body_len as nat),
{
    let mut head = owned("HTTP/1.1 ");
    push_str(&mut head, status);
    push_str(&mut head, "\r\nContent-Type: ");
    push_str(&mut head, content_type);
    push_str(&mut head, "\r\nContent-Length: ");
    push_str(&mut head, decimal_string(body_len).as_str());
    push_str(&mut head, "\r\nCache-Control: no-store\r\nConnection: close\r\n\r\n");
    head
}

} // verus!
