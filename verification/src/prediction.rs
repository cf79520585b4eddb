//! Which samples a prediction reads, and the text of a prediction: the
//! report `predict` prints and the JSON the web app shows. The regression
//! itself computes on floating point outside this library; it hands its
//! results in here as the decimal texts it prints.

use vstd::prelude::*;
use crate::json::{choked_time, decimal_string, decimal_text, json_string, json_string_into, prediction_note_text};
use crate::number::{decimal_reads_as_zero, is_decimal_text, is_negative_text, is_number, numeric_value, reads_as_zero, strip_unit};
use crate::store::{Recipe, RecipeView, Sample, SampleView};
use crate::text::{chars_of, owned, push_str};

verus! {

/// A sample that is a point of the grind/time model: its grind and time
/// are numbers and its time reads as a positive double.
pub open spec fn is_point_sample(s: SampleView) -> bool {
    let g = strip_unit(s.grind, seq!['g', 's']);
    let t = strip_unit(s.time, seq!['g', 's']);
    &&& is_decimal_text(g)
    &&& is_decimal_text(t)
    &&& !is_negative_text(t)
    &&& !reads_as_zero(t)
}

/// A choked sample whose grind is a number: it marks where grinds choke.
pub open spec fn is_choke_marker(s: SampleView) -> bool {
    choked_time(s.time) && is_decimal_text(strip_unit(s.grind, seq!['g', 's']))
}

/// The indices of the samples that satisfy `pred`, in order.
pub open spec fn indices_where(ss: Seq<SampleView>, pred: spec_fn(SampleView) -> bool) -> Seq<usize>
    decreases ss.len(),
{
    if ss.len() == 0 {
        Seq::empty()
    } else {
        indices_where(ss.drop_last(), pred) + (if pred(ss.last()) {
            seq![(ss.len() - 1) as usize]
        } else {
            Seq::empty()
        })
    }
}

/// A sample is a model point exactly when its grind and its time (units
/// and white space removed) are decimal numbers and the time's value is
/// positive: not written with a minus sign and greater than `2^-1075`, the
/// largest magnitude that reads as zero. Where the decimal point stands, or
/// whether there is one, does not matter.
pub proof fn law_model_points_are_numeric_positive_shots(s: SampleView)
    ensures
        is_point_sample(s) <==> {
            let t = strip_unit(s.time, seq!['g', 's']);
            &&& is_decimal_text(strip_unit(s.grind, seq!['g', 's']))
            &&& is_decimal_text(t)
            &&& !(t.len() > 0 && t[0] == '-')
            &&& crate::number::mantissa(t) * crate::digits::pow_nat(2, 1075) > crate::digits::pow_nat(
                10,
                crate::number::scale(t),
            )
        },
{
}

/// The indices of the samples that satisfy `pred` are those of every such
/// sample and of no other, each once, in increasing order.
pub proof fn law_indices_are_the_matching_samples(ss: Seq<SampleView>, pred: spec_fn(SampleView) -> bool)
    requires
        ss.len() <= usize::MAX,
    ensures
        forall|j: int|
            0 <= j < indices_where(ss, pred).len() ==> #[trigger] indices_where(ss, pred)[j] < ss.len()
                && pred(ss[indices_where(ss, pred)[j] as int]),
        forall|j: int, l: int|
            0 <= j < l < indices_where(ss, pred).len() ==> #[trigger] indices_where(ss, pred)[j]
                < #[trigger] indices_where(ss, pred)[l],
        forall|k: int| 0 <= k < ss.len() && #[trigger] pred(ss[k]) ==> indices_where(ss, pred).contains(k as usize),
    decreases ss.len(),
{
    if ss.len() > 0 {
        let init = ss.drop_last();
        law_indices_are_the_matching_samples(init, pred);
        let r0 = indices_where(init, pred);
        let r = indices_where(ss, pred);
        assert forall|k: int| 0 <= k < ss.len() && #[trigger] pred(ss[k]) implies r.contains(k as usize) by {
            if k < init.len() {
                assert(init[k] == ss[k]);
                assert(r0.contains(k as usize));
                let j = choose|j: int| 0 <= j < r0.len() && r0[j] == k as usize;
                assert(r[j] == r0[j]);
            } else {
                assert(r[r.len() - 1] == k as usize);
            }
        }
        assert forall|j: int| 0 <= j < r.len() implies #[trigger] r[j] < ss.len() && pred(ss[r[j] as int]) by {
            if j < r0.len() {
                assert(r[j] == r0[j]);
                assert(init[r0[j] as int] == ss[r0[j] as int]);
            }
        }
        assert forall|j: int, l: int| 0 <= j < l < r.len() implies #[trigger] r[j] < #[trigger] r[l] by {
            if l < r0.len() {
                assert(r[j] == r0[j] && r[l] == r0[l]);
            } else {
                assert(r[j] == r0[j]);
            }
        }
    }
}

/// The kinds of samples a prediction selects.
#[derive(Clone, Copy, Debug, PartialEq, Eq, Structural)]
pub enum SampleKind {
    /// Grind and time are numbers and the time is positive: a point of
    /// the grind/time model and a candidate for the nearest shot.
    ModelPoint,
    /// A choked shot with a numeric grind.
    ChokeMarker,
    /// The time is a number that does not read as zero: a shot `predict`
    /// counts.
    CountedShot,
    /// A counted shot whose grind is a number: a point `predict` fits.
    CountedPoint,
    /// A counted shot whose grind is given but is not a number.
    UnreadableGrind,
    /// The time is a number that reads as a positive value.
    PositiveTime,
}

/// The time of a sample, its unit removed.
pub open spec fn time_number(s: SampleView) -> Seq<char> {
    strip_unit(s.time, seq!['g', 's'])
}

/// The grind of a sample, its unit removed.
pub open spec fn grind_number(s: SampleView) -> Seq<char> {
    strip_unit(s.grind, seq!['g', 's'])
}

/// Whether a sample is of the given kind.
pub open spec fn is_kind(kind: SampleKind, s: SampleView) -> bool {
    let counted = is_decimal_text(time_number(s)) && !reads_as_zero(time_number(s));
    match kind {
        SampleKind::ModelPoint => is_point_sample(s),
        SampleKind::ChokeMarker => is_choke_marker(s),
        SampleKind::CountedShot => counted,
        SampleKind::CountedPoint => counted && is_decimal_text(grind_number(s)),
        SampleKind::UnreadableGrind => counted && !is_decimal_text(grind_number(s)) && s.grind.len() > 0,
        SampleKind::PositiveTime => counted && !is_negative_text(time_number(s)),
    }
}

fn sample_is(kind: SampleKind, s: &Sample) -> (r: bool)
    ensures
        r == is_kind(kind, s@),
{
    let t = numeric_value(s.time.as_str());
    let g = numeric_value(s.grind.as_str());
    let time_ok = is_number(t.as_str());
    let grind_ok = is_number(g.as_str());
    if !time_ok {
        return false;
    }
    let tc = chars_of(t.as_str());
    let zero = decimal_reads_as_zero(&tc);
    match kind {
        SampleKind::ModelPoint => grind_ok && tc[0] != '-' && !zero,
        SampleKind::ChokeMarker => grind_ok && zero,
        SampleKind::CountedShot => !zero,
        SampleKind::CountedPoint => !zero && grind_ok,
        SampleKind::UnreadableGrind => !zero && !grind_ok && !s.grind.as_str().is_empty(),
        SampleKind::PositiveTime => !zero && tc[0] != '-',
    }
}

/// The indices of a recipe's samples of the given kind, in order.
pub fn sample_indices(recipe: &Recipe, kind: SampleKind) -> (r: Vec<usize>)
    ensures
        r@ == indices_where(recipe@.samples, |s: SampleView| is_kind(kind, s)),
{
    let ghost ss = recipe@.samples;
    let ghost pred = |s: SampleView| is_kind(kind, s);
    let mut out: Vec<usize> = Vec::new();
    let mut k: usize = 0;
    proof {
        assert(indices_where(ss.take(0), pred) =~= Seq::<usize>::empty());
    }
    while k < recipe.samples.len()
        invariant
            k <= recipe.samples.len(),
            ss == recipe@.samples,
            pred == (|s: SampleView| is_kind(kind, s)),
            out@ == indices_where(ss.take(k as int), pred),
        decreases recipe.samples.len() - k,
    {
        proof {
            let t = ss.take(k as int + 1);
            assert(t.drop_last() =~= ss.take(k as int));
            assert(t.last() == recipe.samples@[k as int]@);
        }
        if sample_is(kind, &recipe.samples[k]) {
            out.push(k);
        }
        proof {
            assert(out@ =~= indices_where(ss.take(k as int + 1), pred));
        }
        k = k + 1;
    }
    proof {
        assert(ss.take(recipe.samples.len() as int) =~= ss);
    }
    out
}

/// A fitted line as the texts it is printed with: the predicted grind,
/// the line's intercept and slope, and its R².
#[derive(Debug)]
pub struct LineFit {
    pub grind: String,
    pub intercept: String,
    pub slope: String,
    pub r_squared: String,
}

/// The exponential curve as texts: the grind it predicts, if any, and its
/// log-time intercept and slope, if it could be fitted.
#[derive(Debug)]
pub struct CurveFit {
    pub grind: Option<String>,
    pub log_model: Option<(String, String)>,
}

/// Everything the web app shows of a fitted model.
#[derive(Debug)]
pub struct ModelFit {
    pub line: LineFit,
    pub curve: CurveFit,
    pub graph_svg: String,
}

/// The text of the exponential curve's formula.
pub open spec fn curve_formula(intercept: Seq<char>, slope: Seq<char>) -> Seq<char> {
    "ln(time) = "@ + intercept + " + "@ + slope + " * grind"@
}

/// The `nearest` member of the prediction JSON.
pub open spec fn nearest_json(r: RecipeView, nearest: Option<int>) -> Seq<char> {
    match nearest {
        Some(i) => ",\"nearest\":{\"time\":"@ + json_string(r.samples[i].time) + ",\"grind\":"@ + json_string(
            r.samples[i].grind,
        ) + seq!['}'],
        None => ",\"nearest\":null"@,
    }
}

/// The members of the prediction JSON for the exponential curve.
pub open spec fn curve_json(c: CurveFit) -> Seq<char> {
    ",\"curve_grind\":"@ + (match c.grind {
        Some(g) => g@,
        None => "null"@,
    }) + ",\"curve_model\":"@ + (match c.log_model {
        Some((a, b)) => json_string(curve_formula(a@, b@)),
        None => "null"@,
    })
}

/// The members of the prediction JSON when a model was fitted.
pub open spec fn fit_json(f: ModelFit) -> Seq<char> {
    ",\"grind\":"@ + f.line.grind@ + curve_json(f.curve) + ",\"r_squared\":"@ + f.line.r_squared@
        + ",\"model\":\"time = "@ + f.line.intercept@ + " + "@ + f.line.slope@ + " * grind\""@
        + ",\"graph_svg\":"@ + json_string(f.graph_svg@) + ",\"graph_error\":null"@ + ",\"note\":null"@
}

/// The members of the prediction JSON when no model was fitted: the
/// reason, if the fit was tried, and a hint for how many shots to log.
pub open spec fn no_fit_json(point_count: nat, graph_error: Option<Seq<char>>) -> Seq<char> {
    ",\"grind\":null,\"curve_grind\":null,\"curve_model\":null,\"r_squared\":null,\"model\":null,\"graph_svg\":null"@
        + ",\"graph_error\":"@ + (match graph_error {
        Some(e) => json_string(e),
        None => "null"@,
    }) + ",\"note\":"@ + json_string(prediction_note_text(point_count))
}

/// The prediction JSON for a recipe at a target time.
pub open spec fn prediction_json_text(
    r: RecipeView,
    target: Seq<char>,
    point_count: nat,
    model_count: nat,
    nearest: Option<int>,
    fit: Option<ModelFit>,
    graph_error: Option<Seq<char>>,
) -> Seq<char> {
    "{\"target_seconds\":"@ + target + ",\"numeric_sample_count\":"@ + decimal_text(point_count)
        + ",\"model_sample_count\":"@ + decimal_text(model_count) + nearest_json(r, nearest) + (match fit {
        Some(f) => fit_json(f),
        None => no_fit_json(point_count, graph_error),
    }) + seq!['}']
}

fn push_nearest_json(out: &mut String, recipe: &Recipe, nearest: Option<usize>)
    requires
        nearest matches Some(i) ==> i < recipe.samples.len(),
    ensures
        final(out)@ == old(out)@ + nearest_json(recipe@, crate::json::index_option(nearest)),
{
    match nearest {
        Some(i) => {
            let s = &recipe.samples[i];
            push_str(out, ",\"nearest\":{\"time\":");
            json_string_into(out, s.time.as_str());
            push_str(out, ",\"grind\":");
            json_string_into(out, s.grind.as_str());
            crate::text::push_char(out, '}');
            proof {
                assert(recipe@.samples[i as int] == s@);
            }
        },
        None => {
            push_str(out, ",\"nearest\":null");
        },
    }
    proof {
        assert(final(out)@ =~= old(out)@ + nearest_json(recipe@, crate::json::index_option(nearest)));
    }
}

fn push_curve_json(out: &mut String, c: &CurveFit)
    ensures
        final(out)@ == old(out)@ + curve_json(*c),
{
    push_str(out, ",\"curve_grind\":");
    match &c.grind {
        Some(g) => push_str(out, g.as_str()),
        None => push_str(out, "null"),
    }
    push_str(out, ",\"curve_model\":");
    match &c.log_model {
        Some((a, b)) => {
            let formula = curve_formula_string(a.as_str(), b.as_str());
            json_string_into(out, formula.as_str());
        },
        None => push_str(out, "null"),
    }
    proof {
        assert(final(out)@ =~= old(out)@ + curve_json(*c));
    }
}

fn push_fit_json(out: &mut String, f: &ModelFit)
    ensures
        final(out)@ == old(out)@ + fit_json(*f),
{
    push_str(out, ",\"grind\":");
    push_str(out, f.line.grind.as_str());
    push_curve_json(out, &f.curve);
    push_str(out, ",\"r_squared\":");
    push_str(out, f.line.r_squared.as_str());
    push_str(out, ",\"model\":\"time = ");
    push_str(out, f.line.intercept.as_str());
    push_str(out, " + ");
    push_str(out, f.line.slope.as_str());
    push_str(out, " * grind\"");
    push_str(out, ",\"graph_svg\":");
    json_string_into(out, f.graph_svg.as_str());
    push_str(out, ",\"graph_error\":null");
    push_str(out, ",\"note\":null");
    proof {
        assert(final(out)@ =~= old(out)@ + fit_json(*f));
    }
}

fn curve_formula_string(intercept: &str, slope: &str) -> (r: String)
    ensures
        r@ == curve_formula(intercept@, slope@),
{
    let mut s = owned("ln(time) = ");
    push_str(&mut s, intercept);
    push_str(&mut s, " + ");
    push_str(&mut s, slope);
    push_str(&mut s, " * grind");
    proof {
        assert(s@ =~= curve_formula(intercept@, slope@));
    }
    s
}

fn push_no_fit_json(out: &mut String, point_count: usize, graph_error: Option<&str>)
    ensures
        final(out)@ == old(out)@ + no_fit_json(point_count as nat, crate::json::str_option_view(graph_error)),
{
    push_str(
        out,
        ",\"grind\":null,\"curve_grind\":null,\"curve_model\":null,\"r_squared\":null,\"model\":null,\"graph_svg\":null",
    );
    push_str(out, ",\"graph_error\":");
    match graph_error {
        Some(e) => json_string_into(out, e),
        None => push_str(out, "null"),
    }
    push_str(out, ",\"note\":");
    let note = crate::json::prediction_note(point_count);
    json_string_into(out, note.as_str());
    proof {
        assert(final(out)@ =~= old(out)@ + no_fit_json(
            point_count as nat,
            crate::json::str_option_view(graph_error),
        ));
    }
}

/// The prediction JSON the web app shows for a recipe: the target time,
/// how many samples are model points and how many the local model used,
/// the nearest shot, and the fitted model or why there is none.
pub fn prediction_json(
    recipe: &Recipe,
    target: &str,
    point_count: usize,
    model_count: usize,
    nearest: Option<usize>,
    fit: &Option<ModelFit>,
    graph_error: Option<&str>,
) -> (r: String)
    requires
        nearest matches Some(i) ==> i < recipe.samples.len(),
    ensures
        r@ == prediction_json_text(
            recipe@,
            target@,
            point_count as nat,
            model_count as nat,
            crate::json::index_option(nearest),
            *fit,
            crate::json::str_option_view(graph_error),
        ),
{
    let mut json = owned("{\"target_seconds\":");
    push_str(&mut json, target);
    push_str(&mut json, ",\"numeric_sample_count\":");
    push_str(&mut json, decimal_string(point_count).as_str());
    push_str(&mut json, ",\"model_sample_count\":");
    push_str(&mut json, decimal_string(model_count).as_str());
    push_nearest_json(&mut json, recipe, nearest);
    match fit {
        Some(f) => push_fit_json(&mut json, f),
        None => push_no_fit_json(&mut json, point_count, graph_error),
    }
    crate::text::push_char(&mut json, '}');
    proof {
        assert(json@ =~= prediction_json_text(
            recipe@,
            target@,
            point_count as nat,
            model_count as nat,
            crate::json::index_option(nearest),
            *fit,
            crate::json::str_option_view(graph_error),
        ));
    }
    json
}

/// The lines of the fitted line in the `predict` report.
pub open spec fn line_report(line: Option<LineFit>) -> Seq<char> {
    match line {
        Some(l) => "grind: "@ + l.grind@ + seq!['\n'] + "grind_model: time = "@ + l.intercept@ + " + "@ + l.slope@
            + " * grind\n"@ + "grind_r_squared: "@ + l.r_squared@ + seq!['\n'],
        None => Seq::empty(),
    }
}

/// The lines of the exponential curve in the `predict` report: printed
/// only when the curve predicts a grind.
pub open spec fn curve_report(curve: CurveFit) -> Seq<char> {
    match curve.grind {
        Some(g) => "curve_grind: "@ + g@ + seq!['\n'] + (match curve.log_model {
            Some((a, b)) => "curve_model: "@ + curve_formula(a@, b@) + seq!['\n'],
            None => Seq::empty(),
        }),
        None => Seq::empty(),
    }
}

/// The lines naming the nearest shot in the `predict` report.
pub open spec fn nearest_report(r: RecipeView, nearest: Option<int>) -> Seq<char> {
    match nearest {
        Some(i) => "nearest_sample:\n"@ + "  time: "@ + r.samples[i].time + seq!['\n'] + "  grind: "@
            + r.samples[i].grind + seq!['\n'],
        None => Seq::empty(),
    }
}

/// The opening lines of the `predict` report: the recipe, its weights,
/// how many samples it has and, when any, how many the local model used.
pub open spec fn report_head(r: RecipeView, target: Seq<char>, model_count: nat) -> Seq<char> {
    "recipe: "@ + r.name + seq!['\n'] + "target_time: "@ + target + "s\n"@ + "dose_weight_g: "@ + r.dose_weight_g
        + seq!['\n'] + "shot_weight_g: "@ + r.shot_weight_g + seq!['\n'] + "samples_used: "@ + decimal_text(
        r.samples.len(),
    ) + seq!['\n'] + (if model_count > 0 {
        "model_samples_used: "@ + decimal_text(model_count) + seq!['\n']
    } else {
        Seq::empty()
    })
}

/// The note printed when grinds could not be read and fewer than two
/// points remain.
pub open spec fn grind_note(point_count: nat, unreadable_grinds: nat) -> Seq<char> {
    if unreadable_grinds > 0 && point_count < 2 {
        "grind_note: grind regression requires at least two numeric grind settings\n"@
    } else {
        Seq::empty()
    }
}

/// The hint printed when no line could be fitted.
pub open spec fn fit_hint(line: Option<LineFit>) -> Seq<char> {
    if line is None {
        "prediction_note: add at least two samples with varying numeric grind values to enable regression\n"@
    } else {
        Seq::empty()
    }
}

/// What `predict` prints for a recipe at a target time: the recipe, how
/// many samples it has and how many the local model used, the fitted line
/// and curve, a note when grinds could not be read, the nearest shot, and a
/// hint when no line could be fitted.
pub open spec fn prediction_report_text(
    r: RecipeView,
    target: Seq<char>,
    point_count: nat,
    unreadable_grinds: nat,
    model_count: nat,
    line: Option<LineFit>,
    curve: CurveFit,
    nearest: Option<int>,
) -> Seq<char> {
    report_head(r, target, model_count) + line_report(line) + curve_report(curve) + grind_note(
        point_count,
        unreadable_grinds,
    ) + nearest_report(r, nearest) + fit_hint(line)
}

fn report_head_string(recipe: &Recipe, target: &str, model_count: usize) -> (r: String)
    ensures
        r@ == report_head(recipe@, target@, model_count as nat),
{
    let mut out = owned("recipe: ");
    push_str(&mut out, recipe.name.as_str());
    crate::text::push_char(&mut out, '\n');
    push_str(&mut out, "target_time: ");
    push_str(&mut out, target);
    push_str(&mut out, "s\n");
    push_str(&mut out, "dose_weight_g: ");
    push_str(&mut out, recipe.dose_weight_g.as_str());
    crate::text::push_char(&mut out, '\n');
    push_str(&mut out, "shot_weight_g: ");
    push_str(&mut out, recipe.shot_weight_g.as_str());
    crate::text::push_char(&mut out, '\n');
    push_str(&mut out, "samples_used: ");
    push_str(&mut out, decimal_string(recipe.samples.len()).as_str());
    crate::text::push_char(&mut out, '\n');
    if model_count > 0 {
        push_str(&mut out, "model_samples_used: ");
        push_str(&mut out, decimal_string(model_count).as_str());
        crate::text::push_char(&mut out, '\n');
    }
    proof {
        assert(out@ =~= report_head(recipe@, target@, model_count as nat));
    }
    out
}

fn push_line_report(out: &mut String, line: &Option<LineFit>)
    ensures
        final(out)@ == old(out)@ + line_report(*line),
{
    match line {
        Some(l) => {
            push_str(out, "grind: ");
            push_str(out, l.grind.as_str());
            crate::text::push_char(out, '\n');
            push_str(out, "grind_model: time = ");
            push_str(out, l.intercept.as_str());
            push_str(out, " + ");
            push_str(out, l.slope.as_str());
            push_str(out, " * grind\n");
            push_str(out, "grind_r_squared: ");
            push_str(out, l.r_squared.as_str());
            crate::text::push_char(out, '\n');
        },
        None => {},
    }
    proof {
        assert(final(out)@ =~= old(out)@ + line_report(*line));
    }
}

fn push_curve_report(out: &mut String, curve: &CurveFit)
    ensures
        final(out)@ == old(out)@ + curve_report(*curve),
{
    match &curve.grind {
        Some(g) => {
            push_str(out, "curve_grind: ");
            push_str(out, g.as_str());
            crate::text::push_char(out, '\n');
            match &curve.log_model {
                Some((a, b)) => {
                    push_str(out, "curve_model: ");
                    let formula = curve_formula_string(a.as_str(), b.as_str());
                    push_str(out, formula.as_str());
                    crate::text::push_char(out, '\n');
                },
                None => {},
            }
        },
        None => {},
    }
    proof {
        assert(final(out)@ =~= old(out)@ + curve_report(*curve));
    }
}

fn push_nearest_report(out: &mut String, recipe: &Recipe, nearest: Option<usize>)
    requires
        nearest matches Some(i) ==> i < recipe.samples.len(),
    ensures
        final(out)@ == old(out)@ + nearest_report(recipe@, crate::json::index_option(nearest)),
{
    match nearest {
        Some(i) => {
            let s = &recipe.samples[i];
            push_str(out, "nearest_sample:\n");
            push_str(out, "  time: ");
            push_str(out, s.time.as_str());
            crate::text::push_char(out, '\n');
            push_str(out, "  grind: ");
            push_str(out, s.grind.as_str());
            crate::text::push_char(out, '\n');
            proof {
                assert(recipe@.samples[i as int] == s@);
            }
        },
        None => {},
    }
    proof {
        assert(final(out)@ =~= old(out)@ + nearest_report(recipe@, crate::json::index_option(nearest)));
    }
}

/// The report `predict` prints, from the regression's results as texts.
pub fn prediction_report(
    recipe: &Recipe,
    target: &str,
    point_count: usize,
    unreadable_grinds: usize,
    model_count: usize,
    line: &Option<LineFit>,
    curve: &CurveFit,
    nearest: Option<usize>,
) -> (r: String)
    requires
        nearest matches Some(i) ==> i < recipe.samples.len(),
    ensures
        r@ == prediction_report_text(
            recipe@,
            target@,
            point_count as nat,
            unreadable_grinds as nat,
            model_count as nat,
            *line,
            *curve,
            crate::json::index_option(nearest),
        ),
{
    let mut out = report_head_string(recipe, target, model_count);
    push_line_report(&mut out, line);
    push_curve_report(&mut out, curve);
    let ghost with_fits = out@;
    if unreadable_grinds > 0 && point_count < 2 {
        push_str(&mut out, "grind_note: grind regression requires at least two numeric grind settings\n");
    }
    proof {
        assert(out@ =~= with_fits + grind_note(point_count as nat, unreadable_grinds as nat));
    }
    push_nearest_report(&mut out, recipe, nearest);
    let ghost with_nearest = out@;
    if line.is_none() {
        push_str(
            &mut out,
            "prediction_note: add at least two samples with varying numeric grind values to enable regression\n",
        );
    }
    proof {
        assert(out@ =~= with_nearest + fit_hint(*line));
    }
    proof {
        assert(out@ =~= prediction_report_text(
            recipe@,
            target@,
            point_count as nat,
            unreadable_grinds as nat,
            model_count as nat,
            *line,
            *curve,
            crate::json::index_option(nearest),
        ));
    }
    out
}

} // verus!
