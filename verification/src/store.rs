//! Recipes and shot samples, and the tab-separated file that stores them.
//!
//! The file starts with a header row. Each recipe is a row
//! `recipe<TAB>name<TAB>dose<TAB>shot<TAB><TAB>`, followed by its samples as
//! rows `sample<TAB>recipe<TAB><TAB><TAB>time<TAB>grind`.

use vstd::prelude::*;
use crate::error::AppError;
use crate::split::{join_with, lemma_split_concat, lemma_split_join, split_chars, split_on, views};
use crate::text::{chars_eq_str, chars_of, concat, owned, push_char, push_str, str_eq, string_from_chars};

verus! {

/// One logged shot: the recipe it belongs to, its time and grind setting,
/// all as the user typed them (time carries its `s` suffix).
#[derive(Clone, Debug)]
pub struct Sample {
    pub recipe: String,
    pub time: String,
    pub grind: String,
}

/// A recipe: its name, dose and shot weight in grams, and its samples in
/// the order they were logged.
#[derive(Clone, Debug)]
pub struct Recipe {
    pub name: String,
    pub dose_weight_g: String,
    pub shot_weight_g: String,
    pub samples: Vec<Sample>,
}

/// Everything the data file holds: the recipes in file order.
#[derive(Debug)]
pub struct Data {
    pub recipes: Vec<Recipe>,
}

#[verifier::ext_equal]
pub struct SampleView {
    pub recipe: Seq<char>,
    pub time: Seq<char>,
    pub grind: Seq<char>,
}

#[verifier::ext_equal]
pub struct RecipeView {
    pub name: Seq<char>,
    pub dose_weight_g: Seq<char>,
    pub shot_weight_g: Seq<char>,
    pub samples: Seq<SampleView>,
}

impl View for Sample {
    type V = SampleView;

    open spec fn view(&self) -> SampleView {
        SampleView { recipe: self.recipe@, time: self.time@, grind: self.grind@ }
    }
}

impl View for Recipe {
    type V = RecipeView;

    open spec fn view(&self) -> RecipeView {
        RecipeView {
            name: self.name@,
            dose_weight_g: self.dose_weight_g@,
            shot_weight_g: self.shot_weight_g@,
            samples: self.samples@.map_values(|s: Sample| s@),
        }
    }
}

impl View for Data {
    type V = Seq<RecipeView>;

    open spec fn view(&self) -> Seq<RecipeView> {
        self.recipes@.map_values(|r: Recipe| r@)
    }
}

pub open spec fn header_row() -> Seq<Seq<char>> {
    seq![
        "record_type"@,
        "recipe"@,
        "dose_weight_g"@,
        "shot_weight_g"@,
        "time"@,
        "grind"@,
    ]
}

/// The header line the data file must start with.
pub open spec fn header_line() -> Seq<char> {
    join_with(header_row(), '\t')
}

pub open spec fn recipe_row(r: RecipeView) -> Seq<Seq<char>> {
    seq!["recipe"@, r.name, r.dose_weight_g, r.shot_weight_g, Seq::empty(), Seq::empty()]
}

pub open spec fn sample_row(s: SampleView) -> Seq<Seq<char>> {
    seq!["sample"@, s.recipe, Seq::empty(), Seq::empty(), s.time, s.grind]
}

/// The rows of one sample list.
pub open spec fn sample_rows(ss: Seq<SampleView>) -> Seq<Seq<Seq<char>>>
    decreases ss.len(),
{
    if ss.len() == 0 {
        Seq::empty()
    } else {
        sample_rows(ss.drop_last()).push(sample_row(ss.last()))
    }
}

/// The rows of the recipes: each recipe row followed by its samples' rows.
pub open spec fn recipe_rows(rs: Seq<RecipeView>) -> Seq<Seq<Seq<char>>>
    decreases rs.len(),
{
    if rs.len() == 0 {
        Seq::empty()
    } else {
        recipe_rows(rs.drop_last()) + seq![recipe_row(rs.last())] + sample_rows(rs.last().samples)
    }
}

/// Text made of the given lines, each ended by a newline.
pub open spec fn lines_text(lines: Seq<Seq<char>>) -> Seq<char>
    decreases lines.len(),
{
    if lines.len() == 0 {
        Seq::empty()
    } else {
        lines_text(lines.drop_last()) + lines.last() + seq!['\n']
    }
}

/// The rows joined with tabs, one line each.
pub open spec fn rows_text(rows: Seq<Seq<Seq<char>>>) -> Seq<char> {
    lines_text(rows.map_values(|row: Seq<Seq<char>>| join_with(row, '\t')))
}

/// The file text for the recipes: the header line, then the recipe rows.
pub open spec fn data_text(rs: Seq<RecipeView>) -> Seq<char> {
    header_line() + seq!['\n'] + rows_text(recipe_rows(rs))
}

/// A piece of text with one trailing carriage return removed.
pub open spec fn strip_cr(p: Seq<char>) -> Seq<char> {
    if p.len() > 0 && p.last() == '\r' {
        p.drop_last()
    } else {
        p
    }
}

/// The lines of a text as `str::lines` yields them: the pieces between
/// newlines, each piece ended by a newline losing one trailing `\r`; a
/// final empty piece is no line.
pub open spec fn text_lines(c: Seq<char>) -> Seq<Seq<char>> {
    let pieces = split_on(c, '\n');
    let complete = pieces.drop_last().map_values(|p: Seq<char>| strip_cr(p));
    if pieces.last().len() == 0 {
        complete
    } else {
        complete.push(pieces.last())
    }
}

/// Field `i` of a row, or the empty text where the row is shorter.
pub open spec fn field(fields: Seq<Seq<char>>, i: int) -> Seq<char> {
    if 0 <= i < fields.len() {
        fields[i]
    } else {
        Seq::empty()
    }
}

/// The index of the first recipe called `name`.
pub open spec fn find_named(rs: Seq<RecipeView>, name: Seq<char>) -> Option<int>
    decreases rs.len(),
{
    if rs.len() == 0 {
        None
    } else {
        match find_named(rs.drop_last(), name) {
            Some(i) => Some(i),
            None => if rs.last().name == name {
                Some(rs.len() - 1)
            } else {
                None
            },
        }
    }
}

/// The recipes with sample `s` appended to the first recipe called
/// `s.recipe`; unchanged when there is none.
pub open spec fn attach_sample(rs: Seq<RecipeView>, s: SampleView) -> Seq<RecipeView> {
    match find_named(rs, s.recipe) {
        Some(i) => rs.update(i, RecipeView { samples: rs[i].samples.push(s), ..rs[i] }),
        None => rs,
    }
}

/// What one line of the file does to the recipes read so far: a `recipe`
/// row adds a recipe with no samples, a `sample` row adds a sample to the
/// first recipe of its name, any other line is ignored.
pub open spec fn apply_line(rs: Seq<RecipeView>, line: Seq<char>) -> Seq<RecipeView> {
    let f = split_on(line, '\t');
    if f[0] == "recipe"@ {
        rs.push(
            RecipeView {
                name: field(f, 1),
                dose_weight_g: field(f, 2),
                shot_weight_g: field(f, 3),
                samples: Seq::empty(),
            },
        )
    } else if f[0] == "sample"@ {
        attach_sample(rs, SampleView { recipe: field(f, 1), time: field(f, 4), grind: field(f, 5) })
    } else {
        rs
    }
}

/// The recipes after applying the lines in order.
pub open spec fn apply_lines(rs: Seq<RecipeView>, lines: Seq<Seq<char>>) -> Seq<RecipeView>
    decreases lines.len(),
{
    if lines.len() == 0 {
        rs
    } else {
        apply_line(apply_lines(rs, lines.drop_last()), lines.last())
    }
}

/// The first line of the text, or the empty text when it has none.
pub open spec fn first_line(c: Seq<char>) -> Seq<char> {
    if text_lines(c).len() > 0 {
        text_lines(c)[0]
    } else {
        Seq::empty()
    }
}

/// The recipes a data file holds, or `None` when its first line is not the
/// header.
pub open spec fn parse_data(c: Seq<char>) -> Option<Seq<RecipeView>> {
    if first_line(c) != header_line() {
        None
    } else {
        Some(apply_lines(Seq::empty(), text_lines(c).skip(1)))
    }
}


/// A field that can be stored: it holds no tab and no newline.
pub open spec fn clean_field(f: Seq<char>) -> bool {
    !f.contains('\t') && !f.contains('\n')
}

/// Recipes that the file format stores faithfully: every field is clean, a
/// sample's grind (the last field of its row) does not end in `\r`, each
/// sample names its own recipe, and no two recipes share a name.
pub open spec fn storable(rs: Seq<RecipeView>) -> bool {
    &&& forall|i: int|
        #![trigger rs[i]]
        0 <= i < rs.len() ==> {
            &&& clean_field(rs[i].name)
            &&& clean_field(rs[i].dose_weight_g)
            &&& clean_field(rs[i].shot_weight_g)
        }
    &&& forall|i: int, k: int|
        #![trigger rs[i].samples[k]]
        0 <= i < rs.len() && 0 <= k < rs[i].samples.len() ==> {
            let s = rs[i].samples[k];
            &&& clean_field(s.time)
            &&& clean_field(s.grind)
            &&& !(s.grind.len() > 0 && s.grind.last() == '\r')
            &&& s.recipe == rs[i].name
        }
    &&& forall|i: int, j: int| 0 <= i < j < rs.len() ==> rs[i].name != rs[j].name
}

/// A line `str::lines` gives back unchanged once a newline follows it.
pub open spec fn plain_line(l: Seq<char>) -> bool {
    !l.contains('\n') && !(l.len() > 0 && l.last() == '\r')
}

pub proof fn lemma_lines_text_join(lines: Seq<Seq<char>>)
    requires
        lines.len() >= 1,
    ensures
        lines_text(lines) == join_with(lines, '\n') + seq!['\n'],
    decreases lines.len(),
{
    if lines.len() == 1 {
        assert(lines.drop_last().len() == 0);
        assert(lines_text(lines.drop_last()) =~= Seq::<char>::empty());
        assert(lines_text(lines) =~= lines[0] + seq!['\n']);
    } else {
        lemma_lines_text_join(lines.drop_last());
        assert(lines_text(lines) =~= join_with(lines, '\n') + seq!['\n']);
    }
}

/// Text made of plain lines, each ended by a newline, reads back as those
/// lines.
pub proof fn lemma_text_lines_round_trip(lines: Seq<Seq<char>>)
    requires
        forall|i: int| 0 <= i < lines.len() ==> plain_line(#[trigger] lines[i]),
    ensures
        text_lines(lines_text(lines)) == lines,
{
    if lines.len() == 0 {
        assert(lines_text(lines) =~= Seq::<char>::empty());
        assert(split_on(Seq::<char>::empty(), '\n') =~= seq![Seq::<char>::empty()]);
        assert(text_lines(lines_text(lines)) =~= lines);
    } else {
        lemma_lines_text_join(lines);
        let j = join_with(lines, '\n');
        lemma_split_concat(j, Seq::empty(), '\n');
        assert(j + seq!['\n'] + Seq::<char>::empty() =~= j + seq!['\n']);
        lemma_split_join(lines, '\n');
        assert(split_on(Seq::<char>::empty(), '\n') =~= seq![Seq::<char>::empty()]);
        let pieces = split_on(lines_text(lines), '\n');
        assert(pieces =~= lines + seq![Seq::<char>::empty()]);
        assert(pieces.drop_last() =~= lines);
        assert(lines.map_values(|p: Seq<char>| strip_cr(p)) =~= lines);
    }
}

pub proof fn lemma_lines_text_cons(h: Seq<char>, rest: Seq<Seq<char>>)
    ensures
        lines_text(seq![h] + rest) == h + seq!['\n'] + lines_text(rest),
    decreases rest.len(),
{
    let all = seq![h] + rest;
    if rest.len() == 0 {
        assert(all.drop_last() =~= Seq::<Seq<char>>::empty());
        assert(all.last() == h);
        assert(lines_text(all.drop_last()) =~= Seq::<char>::empty());
        assert(lines_text(rest) =~= Seq::<char>::empty());
        assert(lines_text(all) =~= h + seq!['\n'] + lines_text(rest));
    } else {
        lemma_lines_text_cons(h, rest.drop_last());
        assert(all.drop_last() =~= seq![h] + rest.drop_last());
        assert(all.last() == rest.last());
        assert(lines_text(all) == lines_text(all.drop_last()) + all.last() + seq!['\n']);
        assert(lines_text(rest) == lines_text(rest.drop_last()) + rest.last() + seq!['\n']);
        assert(lines_text(all) =~= h + seq!['\n'] + lines_text(rest));
    }
}

/// Applying two runs of lines applies the first, then the second.
pub proof fn lemma_apply_concat(rs: Seq<RecipeView>, a: Seq<Seq<char>>, b: Seq<Seq<char>>)
    ensures
        apply_lines(rs, a + b) == apply_lines(apply_lines(rs, a), b),
    decreases b.len(),
{
    if b.len() == 0 {
        assert(a + b =~= a);
    } else {
        lemma_apply_concat(rs, a, b.drop_last());
        assert((a + b).drop_last() =~= a + b.drop_last());
        assert((a + b).last() == b.last());
    }
}

/// A character other than the separator occurs in a joined text only
/// where it occurs in some piece.
pub proof fn lemma_join_excludes(pieces: Seq<Seq<char>>, sep: char, c: char)
    requires
        c != sep,
        forall|i: int| 0 <= i < pieces.len() ==> !(#[trigger] pieces[i]).contains(c),
    ensures
        !join_with(pieces, sep).contains(c),
    decreases pieces.len(),
{
    if pieces.len() == 1 {
        assert(!pieces[0].contains(c));
    } else if pieces.len() > 1 {
        let p = pieces.drop_last();
        lemma_join_excludes(p, sep, c);
        let j = join_with(p, sep);
        let l = pieces.last();
        assert(!l.contains(c)) by {
            assert(l == pieces[pieces.len() - 1]);
        }
        let all = j + seq![sep] + l;
        if all.contains(c) {
            let k = choose|k: int| 0 <= k < all.len() && all[k] == c;
            if k < j.len() {
                assert(j[k] == c);
            } else if k == j.len() {
                assert(all[k] == sep);
            } else {
                assert(l[k - j.len() - 1] == c);
            }
        }
    }
}

/// The last character of text joined from two or more pieces.
pub proof fn lemma_join_last(pieces: Seq<Seq<char>>, sep: char)
    requires
        pieces.len() >= 2,
    ensures
        join_with(pieces, sep).len() > 0,
        join_with(pieces, sep).last() == (if pieces.last().len() > 0 {
            pieces.last().last()
        } else {
            sep
        }),
{
    let j = join_with(pieces.drop_last(), sep);
    let all = j + seq![sep] + pieces.last();
    assert(join_with(pieces, sep) == all);
    assert(all.len() > 0);
    if pieces.last().len() > 0 {
        assert(all.last() == pieces.last().last());
    } else {
        assert(all.last() == sep);
    }
}

proof fn lemma_row_words()
    ensures
        "recipe"@ != "sample"@,
        clean_field("recipe"@),
        clean_field("sample"@),
        clean_field(Seq::<char>::empty()),
        "grind"@.len() > 0 && "grind"@.last() != '\r',
        header_row().len() == 6,
        forall|i: int| 0 <= i < 6 ==> clean_field(#[trigger] header_row()[i]),
{
    reveal_strlit("recipe");
    reveal_strlit("sample");
    reveal_strlit("record_type");
    reveal_strlit("dose_weight_g");
    reveal_strlit("shot_weight_g");
    reveal_strlit("time");
    reveal_strlit("grind");
    assert("recipe"@[0] != "sample"@[0]);
}

/// A row whose fields are clean joins to a line that splits back into it.
proof fn lemma_row_line(row: Seq<Seq<char>>)
    requires
        row.len() == 6,
        forall|i: int| 0 <= i < 6 ==> clean_field(#[trigger] row[i]),
        !(row[5].len() > 0 && row[5].last() == '\r'),
    ensures
        split_on(join_with(row, '\t'), '\t') == row,
        plain_line(join_with(row, '\t')),
{
    assert forall|i: int| 0 <= i < row.len() implies !(#[trigger] row[i]).contains('\t') by {
        assert(clean_field(row[i]));
    }
    lemma_split_join(row, '\t');
    assert forall|i: int| 0 <= i < row.len() implies !(#[trigger] row[i]).contains('\n') by {
        assert(clean_field(row[i]));
    }
    lemma_join_excludes(row, '\t', '\n');
    lemma_join_last(row, '\t');
    assert(row.last() == row[5]);
}

/// The first recipe of a name that only the last recipe carries is the
/// last one.
proof fn lemma_find_new_name(rs: Seq<RecipeView>, r: RecipeView)
    requires
        forall|i: int| 0 <= i < rs.len() ==> rs[i].name != r.name,
    ensures
        find_named(rs.push(r), r.name) == Some(rs.len() as int),
{
    lemma_find_none(rs, r.name);
    assert(rs.push(r).drop_last() =~= rs);
}

/// No recipe carries the name: none is found.
pub proof fn lemma_find_none(rs: Seq<RecipeView>, name: Seq<char>)
    requires
        forall|i: int| 0 <= i < rs.len() ==> rs[i].name != name,
    ensures
        find_named(rs, name) == None::<int>,
    decreases rs.len(),
{
    if rs.len() > 0 {
        lemma_find_none(rs.drop_last(), name);
        assert(rs.last() == rs[rs.len() - 1]);
    }
}

/// What `find_named` returns: the first index carrying the name.
pub proof fn lemma_find_named(rs: Seq<RecipeView>, name: Seq<char>)
    ensures
        find_named(rs, name) matches Some(i) ==> 0 <= i < rs.len() && rs[i].name == name && forall|
            j: int,
        |
            0 <= j < i ==> rs[j].name != name,
        find_named(rs, name) is None ==> forall|j: int| 0 <= j < rs.len() ==> rs[j].name != name,
    decreases rs.len(),
{
    if rs.len() > 0 {
        let p = rs.drop_last();
        lemma_find_named(p, name);
        assert(rs.last() == rs[rs.len() - 1]);
        assert forall|j: int| 0 <= j < p.len() implies p[j] == rs[j] by {}
        match find_named(p, name) {
            Some(i) => {
                assert(find_named(rs, name) == Some(i));
            },
            None => {
                if rs.last().name == name {
                    assert(find_named(rs, name) == Some(rs.len() - 1));
                } else {
                    assert(find_named(rs, name) == None::<int>);
                    assert forall|j: int| 0 <= j < rs.len() implies rs[j].name != name by {
                        if j < p.len() {
                            assert(p[j] == rs[j]);
                        }
                    }
                }
            },
        }
    }
}

proof fn lemma_recipe_rows_clean(rs: Seq<RecipeView>)
    requires
        storable(rs),
    ensures
        forall|i: int|
            0 <= i < recipe_rows(rs).len() ==> {
                let row = #[trigger] recipe_rows(rs)[i];
                &&& row.len() == 6
                &&& forall|k: int| 0 <= k < 6 ==> clean_field(#[trigger] row[k])
                &&& !(row[5].len() > 0 && row[5].last() == '\r')
            },
    decreases rs.len(),
{
    lemma_row_words();
    if rs.len() > 0 {
        let p = rs.drop_last();
        assert(storable(p)) by {
            assert forall|i: int, k: int| 0 <= i < p.len() && 0 <= k < p[i].samples.len() implies {
                let s = #[trigger] p[i].samples[k];
                &&& clean_field(s.time)
                &&& clean_field(s.grind)
                &&& !(s.grind.len() > 0 && s.grind.last() == '\r')
                &&& s.recipe == p[i].name
            } by {
                assert(p[i] == rs[i]);
            }
        }
        lemma_recipe_rows_clean(p);
        let r = rs.last();
        assert(r == rs[rs.len() - 1]);
        lemma_sample_rows_clean(r.samples, rs, rs.len() - 1);
        let all = recipe_rows(p) + seq![recipe_row(r)] + sample_rows(r.samples);
        assert forall|i: int| 0 <= i < all.len() implies {
            let row = #[trigger] all[i];
            &&& row.len() == 6
            &&& forall|k: int| 0 <= k < 6 ==> clean_field(#[trigger] row[k])
            &&& !(row[5].len() > 0 && row[5].last() == '\r')
        } by {
            if i < recipe_rows(p).len() {
                assert(all[i] == recipe_rows(p)[i]);
            } else if i == recipe_rows(p).len() {
                assert(all[i] == recipe_row(r));
                assert(recipe_row(r)[5] == Seq::<char>::empty());
            } else {
                assert(all[i] == sample_rows(r.samples)[i - recipe_rows(p).len() - 1]);
            }
        }
    }
}

proof fn lemma_sample_rows_clean(ss: Seq<SampleView>, rs: Seq<RecipeView>, at: int)
    requires
        storable(rs),
        0 <= at < rs.len(),
        ss.len() <= rs[at].samples.len(),
        forall|k: int| 0 <= k < ss.len() ==> ss[k] == rs[at].samples[k],
    ensures
        sample_rows(ss).len() == ss.len(),
        forall|i: int|
            0 <= i < sample_rows(ss).len() ==> {
                let row = #[trigger] sample_rows(ss)[i];
                &&& row == sample_row(ss[i])
                &&& row.len() == 6
                &&& forall|k: int| 0 <= k < 6 ==> clean_field(#[trigger] row[k])
                &&& !(row[5].len() > 0 && row[5].last() == '\r')
            },
    decreases ss.len(),
{
    lemma_row_words();
    if ss.len() > 0 {
        lemma_sample_rows_clean(ss.drop_last(), rs, at);
        let k = ss.len() - 1;
        assert(ss.last() == rs[at].samples[k]);
        let row = sample_row(ss.last());
        assert forall|t: int| 0 <= t < 6 implies clean_field(#[trigger] row[t]) by {
            let s = rs[at].samples[k];
            assert(clean_field(s.time) && clean_field(s.grind) && clean_field(s.recipe)) by {
                assert(clean_field(rs[at].name));
            }
        }
    }
}

/// Reading back the rows of one recipe after the recipes before it gives
/// those recipes with this one added.
proof fn lemma_apply_recipe(rs: Seq<RecipeView>, r: RecipeView, k: int)
    requires
        storable(rs.push(r)),
        0 <= k <= r.samples.len(),
    ensures
        apply_lines(
            rs,
            (seq![recipe_row(r)] + sample_rows(r.samples.take(k))).map_values(
                |row: Seq<Seq<char>>| join_with(row, '\t'),
            ),
        ) == rs.push(RecipeView { samples: r.samples.take(k), ..r }),
    decreases k,
{
    let all = rs.push(r);
    assert(all[rs.len() as int] == r);
    let f = |row: Seq<Seq<char>>| join_with(row, '\t');
    lemma_recipe_rows_clean(all);
    lemma_row_words();
    if k == 0 {
        assert(r.samples.take(0) =~= Seq::<SampleView>::empty());
        let lines = (seq![recipe_row(r)] + sample_rows(r.samples.take(k))).map_values(f);
        assert(lines =~= seq![join_with(recipe_row(r), '\t')]);
        assert(storable(all));
        assert forall|t: int| 0 <= t < 6 implies clean_field(#[trigger] recipe_row(r)[t]) by {
            assert(clean_field(all[rs.len() as int].name));
        }
        lemma_row_line(recipe_row(r));
        assert(lines.drop_last() =~= Seq::<Seq<char>>::empty());
        assert(lines.last() == join_with(recipe_row(r), '\t'));
        assert(apply_lines(rs, lines.drop_last()) == rs);
        assert(apply_lines(rs, lines) == apply_line(rs, join_with(recipe_row(r), '\t')));
        assert(field(recipe_row(r), 1) == r.name);
        assert(rs.push(
            RecipeView {
                name: r.name,
                dose_weight_g: r.dose_weight_g,
                shot_weight_g: r.shot_weight_g,
                samples: Seq::empty(),
            },
        ) =~= rs.push(RecipeView { samples: r.samples.take(k), ..r }));
    } else {
        lemma_apply_recipe(rs, r, k - 1);
        let before = seq![recipe_row(r)] + sample_rows(r.samples.take(k - 1));
        let now = seq![recipe_row(r)] + sample_rows(r.samples.take(k));
        let s = r.samples[k - 1];
        assert(r.samples.take(k).drop_last() =~= r.samples.take(k - 1));
        assert(r.samples.take(k).last() == s);
        assert(now =~= before.push(sample_row(s)));
        assert(now.map_values(f) =~= before.map_values(f).push(join_with(sample_row(s), '\t')));
        lemma_sample_rows_clean(r.samples, all, rs.len() as int);
        assert(sample_rows(r.samples)[k - 1] == sample_row(s));
        lemma_row_line(sample_row(s));
        let prev = rs.push(RecipeView { samples: r.samples.take(k - 1), ..r });
        assert(s.recipe == r.name) by {
            assert(all[rs.len() as int].samples[k - 1] == s);
        }
        assert forall|i: int| 0 <= i < rs.len() implies rs[i].name != r.name by {
            assert(all[i] == rs[i]);
        }
        lemma_find_new_name(rs, RecipeView { samples: r.samples.take(k - 1), ..r });
        assert(field(sample_row(s), 1) == s.recipe);
        assert(SampleView { recipe: field(sample_row(s), 1), time: field(sample_row(s), 4), grind: field(sample_row(s), 5) } == s);
        let line = join_with(sample_row(s), '\t');
        let lines_now = now.map_values(f);
        assert(lines_now.drop_last() =~= before.map_values(f));
        assert(lines_now.last() == line);
        assert(apply_lines(rs, lines_now) == apply_line(prev, line));
        assert(split_on(line, '\t') == sample_row(s));
        assert(sample_row(s)[0] == "sample"@);
        assert(apply_line(prev, line) == attach_sample(prev, s));
        assert(prev.push(RecipeView { samples: r.samples.take(k - 1), ..r }).len() == prev.len() + 1);
        let i = rs.len() as int;
        assert(find_named(prev, s.recipe) == Some(i));
        assert(prev[i].samples.push(s) =~= r.samples.take(k));
        assert(attach_sample(prev, s) =~= rs.push(RecipeView { samples: r.samples.take(k), ..r }));
    }
}

/// Reading back the rows of all recipes gives the recipes.
proof fn lemma_apply_recipe_rows(rs: Seq<RecipeView>)
    requires
        storable(rs),
    ensures
        apply_lines(Seq::empty(), recipe_rows(rs).map_values(|row: Seq<Seq<char>>| join_with(row, '\t'))) == rs,
    decreases rs.len(),
{
    let f = |row: Seq<Seq<char>>| join_with(row, '\t');
    if rs.len() == 0 {
        assert(recipe_rows(rs).map_values(f) =~= Seq::<Seq<char>>::empty());
        assert(rs =~= Seq::<RecipeView>::empty());
    } else {
        let p = rs.drop_last();
        let r = rs.last();
        assert(p.push(r) =~= rs);
        assert(storable(p)) by {
            assert forall|i: int, k: int| 0 <= i < p.len() && 0 <= k < p[i].samples.len() implies {
                let s = #[trigger] p[i].samples[k];
                &&& clean_field(s.time)
                &&& clean_field(s.grind)
                &&& !(s.grind.len() > 0 && s.grind.last() == '\r')
                &&& s.recipe == p[i].name
            } by {
                assert(p[i] == rs[i]);
            }
        }
        lemma_apply_recipe_rows(p);
        let head = recipe_rows(p).map_values(f);
        let tail = (seq![recipe_row(r)] + sample_rows(r.samples)).map_values(f);
        assert(recipe_rows(rs).map_values(f) =~= head + tail);
        lemma_apply_concat(Seq::empty(), head, tail);
        lemma_apply_recipe(p, r, r.samples.len() as int);
        assert(r.samples.take(r.samples.len() as int) =~= r.samples);
        assert(RecipeView { samples: r.samples, ..r } =~= r);
    }
}

/// Storing recipes and reading the file back gives the same recipes.
pub proof fn law_load_after_save(rs: Seq<RecipeView>)
    requires
        storable(rs),
    ensures
        parse_data(data_text(rs)) == Some(rs),
{
    let f = |row: Seq<Seq<char>>| join_with(row, '\t');
    let body = recipe_rows(rs).map_values(f);
    let lines = seq![header_line()] + body;
    lemma_lines_text_cons(header_line(), body);
    assert(data_text(rs) =~= lines_text(lines));
    lemma_recipe_rows_clean(rs);
    lemma_row_words();
    assert forall|t: int| 0 <= t < 6 implies clean_field(#[trigger] header_row()[t]) by {}
    assert(header_row()[5] == "grind"@);
    lemma_row_line(header_row());
    assert forall|i: int| 0 <= i < lines.len() implies plain_line(#[trigger] lines[i]) by {
        if i > 0 {
            assert(lines[i] == body[i - 1]);
            lemma_row_line(recipe_rows(rs)[i - 1]);
        }
    }
    lemma_text_lines_round_trip(lines);
    assert(text_lines(data_text(rs)).skip(1) =~= body);
    lemma_apply_recipe_rows(rs);
}

/// The header line of the data file.
pub const HEADER_LINE: &'static str = "record_type\trecipe\tdose_weight_g\tshot_weight_g\ttime\tgrind";

proof fn lemma_header_text()
    ensures
        HEADER_LINE@ == header_line(),
{
    reveal_strlit("record_type\trecipe\tdose_weight_g\tshot_weight_g\ttime\tgrind");
    reveal_strlit("record_type");
    reveal_strlit("recipe");
    reveal_strlit("dose_weight_g");
    reveal_strlit("shot_weight_g");
    reveal_strlit("time");
    reveal_strlit("grind");
    reveal_with_fuel(join_with, 7);
    assert(HEADER_LINE@ =~= header_line());
}

/// The lines of the text held in `c`.
pub fn text_lines_of(c: &Vec<char>) -> (r: Vec<Vec<char>>)
    ensures
        views(r@) == text_lines(c@),
{
    let mut pieces = split_chars(c, '\n');
    let last = pieces.pop().unwrap();
    let ghost all = views(pieces@).push(last@);
    proof {
        assert(all =~= split_on(c@, '\n'));
        assert(all.drop_last() =~= views(pieces@));
    }
    let mut out: Vec<Vec<char>> = Vec::new();
    let mut i: usize = 0;
    while i < pieces.len()
        invariant
            i <= pieces.len(),
            views(out@) == views(pieces@).take(i as int).map_values(|p: Seq<char>| strip_cr(p)),
        decreases pieces.len() - i,
    {
        let mut line = pieces[i].clone();
        let n = line.len();
        if n > 0 && line[n - 1] == '\r' {
            line.pop();
        }
        proof {
            assert(line@ == strip_cr(pieces@[i as int]@));
            let vp = views(pieces@);
            assert(vp.take(i as int + 1) =~= vp.take(i as int).push(vp[i as int]));
            assert(vp[i as int] == pieces@[i as int]@);
            assert(vp.take(i as int + 1).map_values(|p: Seq<char>| strip_cr(p)) =~= vp.take(i as int).map_values(
                |p: Seq<char>| strip_cr(p),
            ).push(strip_cr(vp[i as int])));
            assert(views(out@.push(line)) =~= views(out@).push(line@));
        }
        out.push(line);
        i = i + 1;
    }
    proof {
        assert(views(pieces@).take(pieces.len() as int) =~= views(pieces@));
    }
    if last.len() > 0 {
        proof {
            assert(views(out@.push(last)) =~= views(out@).push(last@));
        }
        out.push(last);
    }
    out
}

/// Field `i` of a row split on tabs, or the empty string where the row is shorter.
pub fn get_field(f: &Vec<Vec<char>>, i: usize) -> (r: String)
    ensures
        r@ == field(views(f@), i as int),
{
    if i < f.len() {
        string_from_chars(&f[i])
    } else {
        String::new()
    }
}

/// The index of the first recipe called `name`.
pub fn find_recipe(data: &Data, name: &str) -> (r: Option<usize>)
    ensures
        r matches Some(i) ==> i < data.recipes.len() && find_named(data@, name@) == Some(i as int),
        r is None ==> find_named(data@, name@) is None,
{
    let mut i: usize = 0;
    while i < data.recipes.len()
        invariant
            i <= data.recipes.len(),
            forall|j: int| 0 <= j < i ==> data@[j].name != name@,
        decreases data.recipes.len() - i,
    {
        if str_eq(data.recipes[i].name.as_str(), name) {
            proof {
                lemma_find_named(data@, name@);
                match find_named(data@, name@) {
                    Some(k) => {
                        if k > i {
                            assert(data@[i as int].name == name@);
                        }
                    },
                    None => {
                        assert(data@[i as int].name == name@);
                    },
                }
            }
            return Some(i);
        }
        i = i + 1;
    }
    proof {
        lemma_find_none(data@, name@);
    }
    None
}

/// Adds a sample to the first recipe of its name; does nothing when there
/// is no such recipe.
pub fn attach_sample_to(data: &mut Data, sample: Sample)
    ensures
        final(data)@ == attach_sample(old(data)@, sample@),
{
    match find_recipe(data, sample.recipe.as_str()) {
        Some(i) => {
            let mut r = data.recipes.remove(i);
            let ghost old_samples = r.samples@;
            r.samples.push(sample);
            proof {
                assert(r.samples@.map_values(|s: Sample| s@) =~= old_samples.map_values(|s: Sample| s@).push(sample@));
            }
            data.recipes.insert(i, r);
            proof {
                assert(final(data)@ =~= attach_sample(old(data)@, sample@));
            }
        },
        None => {},
    }
}

/// Applies one line of the data file to the recipes read so far.
fn apply_line_to(data: &mut Data, line: &Vec<char>)
    ensures
        final(data)@ == apply_line(old(data)@, line@),
{
    let f = split_chars(line, '\t');
    let ghost fv = views(f@);
    proof {
        assert(fv[0] == f@[0]@);
    }
    if chars_eq_str(&f[0], "recipe") {
        let r = Recipe {
            name: get_field(&f, 1),
            dose_weight_g: get_field(&f, 2),
            shot_weight_g: get_field(&f, 3),
            samples: Vec::new(),
        };
        proof {
            assert(r@.samples =~= Seq::<SampleView>::empty());
        }
        data.recipes.push(r);
        proof {
            assert(final(data)@ =~= apply_line(old(data)@, line@));
        }
    } else if chars_eq_str(&f[0], "sample") {
        let s = Sample { recipe: get_field(&f, 1), time: get_field(&f, 4), grind: get_field(&f, 5) };
        attach_sample_to(data, s);
    }
}

/// Reads the recipes from the text of a data file. Fails, naming the line
/// found, when the first line is not the header.
pub fn parse_data_file(content: &str) -> (r: Result<Data, AppError>)
    ensures
        match parse_data(content@) {
            Some(rs) => r matches Ok(d) && d@ == rs,
            None => r matches Err(e) && e.0@ == "Unexpected data file header: "@ + first_line(content@),
        },
{
    let chars = chars_of(content);
    let lines = text_lines_of(&chars);
    let header = if lines.len() > 0 {
        string_from_chars(&lines[0])
    } else {
        String::new()
    };
    proof {
        lemma_header_text();
        if lines.len() > 0 {
            assert(views(lines@)[0] == lines@[0]@);
        }
    }
    if !str_eq(header.as_str(), HEADER_LINE) {
        return Err(AppError::new(concat("Unexpected data file header: ", header.as_str())));
    }
    let mut data = Data { recipes: Vec::new() };
    let ghost rest = views(lines@).skip(1);
    proof {
        assert(data@ =~= Seq::<RecipeView>::empty());
        assert(rest.take(0) =~= Seq::<Seq<char>>::empty());
    }
    let mut i: usize = 1;
    while i < lines.len()
        invariant
            1 <= i <= lines.len() || lines.len() == 0,
            rest == views(lines@).skip(1),
            lines.len() > 0 ==> data@ == apply_lines(Seq::empty(), rest.take(i - 1)),
        decreases lines.len() - i,
    {
        proof {
            let t = rest.take(i as int);
            assert(t.drop_last() =~= rest.take(i - 1));
            assert(t.last() == lines@[i as int]@);
        }
        apply_line_to(&mut data, &lines[i]);
        i = i + 1;
    }
    proof {
        if lines.len() > 0 {
            assert(rest.take(lines.len() - 1) =~= rest);
        } else {
            assert(rest =~= Seq::<Seq<char>>::empty());
        }
    }
    Ok(data)
}

/// The views of a sequence of string slices.
pub open spec fn str_views(v: Seq<&str>) -> Seq<Seq<char>> {
    v.map_values(|x: &str| x@)
}

/// Appends the fields joined by tabs, and a newline.
fn push_row(out: &mut String, fields: &Vec<&str>)
    requires
        fields.len() >= 1,
    ensures
        final(out)@ == old(out)@ + join_with(str_views(fields@), '\t') + seq!['\n'],
{
    let ghost start = out@;
    push_str(out, fields[0]);
    proof {
        let t = str_views(fields@.take(1));
        assert(t.len() == 1);
        assert(t[0] == fields@[0]@);
        assert(join_with(t, '\t') == t[0]);
    }
    let mut i: usize = 1;
    while i < fields.len()
        invariant
            1 <= i <= fields.len(),
            out@ == start + join_with(str_views(fields@.take(i as int)), '\t'),
        decreases fields.len() - i,
    {
        push_char(out, '\t');
        push_str(out, fields[i]);
        proof {
            let t = str_views(fields@.take(i as int + 1));
            assert(t.drop_last() =~= str_views(fields@.take(i as int)));
            assert(t.last() == fields@[i as int]@);
            assert(out@ =~= start + join_with(t, '\t'));
        }
        i = i + 1;
    }
    proof {
        assert(fields@.take(fields.len() as int) =~= fields@);
    }
    push_char(out, '\n');
    proof {
        assert(out@ =~= start + join_with(str_views(fields@), '\t') + seq!['\n']);
    }
}

proof fn lemma_rows_text_push(rows: Seq<Seq<Seq<char>>>, row: Seq<Seq<char>>)
    ensures
        rows_text(rows.push(row)) == rows_text(rows) + join_with(row, '\t') + seq!['\n'],
{
    let f = |r: Seq<Seq<char>>| join_with(r, '\t');
    let m = rows.push(row).map_values(f);
    assert(m.drop_last() =~= rows.map_values(f));
    assert(m.last() == join_with(row, '\t'));
}

/// The text of the data file that stores the recipes.
pub fn data_file_text(data: &Data) -> (r: String)
    ensures
        r@ == data_text(data@),
{
    let mut out = owned(HEADER_LINE);
    push_char(&mut out, '\n');
    proof {
        lemma_header_text();
        reveal_strlit("");
        assert(recipe_rows(data@.take(0)) =~= Seq::<Seq<Seq<char>>>::empty());
        assert(rows_text(Seq::empty()) =~= Seq::<char>::empty());
        assert(out@ =~= header_line() + seq!['\n'] + rows_text(recipe_rows(data@.take(0))));
    }
    let mut i: usize = 0;
    while i < data.recipes.len()
        invariant
            i <= data.recipes.len(),
            out@ == header_line() + seq!['\n'] + rows_text(recipe_rows(data@.take(i as int))),
        decreases data.recipes.len() - i,
    {
        let r = &data.recipes[i];
        let ghost rv = r@;
        let ghost base = header_line() + seq!['\n'];
        let ghost rows0 = recipe_rows(data@.take(i as int));
        let row = vec!["recipe", r.name.as_str(), r.dose_weight_g.as_str(), r.shot_weight_g.as_str(), "", ""];
        proof {
            reveal_strlit("");
            assert(row@.len() == 6);
            assert(row@[0]@ == "recipe"@);
            assert(row@[1]@ == rv.name);
            assert(row@[4]@ == Seq::<char>::empty());
            assert(str_views(row@) =~= recipe_row(rv));
            lemma_rows_text_push(rows0, recipe_row(rv));
        }
        push_row(&mut out, &row);
        proof {
            assert(rv.samples.take(0) =~= Seq::<SampleView>::empty());
            assert(rows0.push(recipe_row(rv)) =~= rows0 + seq![recipe_row(rv)] + sample_rows(rv.samples.take(0)));
        }
        let mut k: usize = 0;
        while k < r.samples.len()
            invariant
                k <= r.samples.len(),
                rv == r@,
                out@ == base + rows_text(rows0 + seq![recipe_row(rv)] + sample_rows(rv.samples.take(k as int))),
            decreases r.samples.len() - k,
        {
            let s = &r.samples[k];
            let srow = vec!["sample", s.recipe.as_str(), "", "", s.time.as_str(), s.grind.as_str()];
            proof {
                reveal_strlit("");
                assert(rv.samples[k as int] == s@);
                assert(srow@.len() == 6);
                assert(srow@[0]@ == "sample"@);
                assert(srow@[1]@ == s@.recipe);
                assert(srow@[2]@ == Seq::<char>::empty());
                assert(srow@[3]@ == Seq::<char>::empty());
                assert(srow@[4]@ == s@.time);
                assert(srow@[5]@ == s@.grind);
                assert(str_views(srow@) =~= sample_row(s@));
                let ss = rv.samples.take(k as int + 1);
                assert(ss.drop_last() =~= rv.samples.take(k as int));
                assert(ss.last() == s@);
                let before = rows0 + seq![recipe_row(rv)] + sample_rows(rv.samples.take(k as int));
                assert(before.push(sample_row(s@)) =~= rows0 + seq![recipe_row(rv)] + sample_rows(ss));
                lemma_rows_text_push(before, sample_row(s@));
            }
            push_row(&mut out, &srow);
            k = k + 1;
        }
        proof {
            assert(rv.samples.take(r.samples.len() as int) =~= rv.samples);
            let t = data@.take(i as int + 1);
            assert(t.drop_last() =~= data@.take(i as int));
            assert(t.last() == rv);
        }
        i = i + 1;
    }
    proof {
        assert(data@.take(data.recipes.len() as int) =~= data@);
    }
    out
}

} // verus!
