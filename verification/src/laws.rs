//! Laws of the recipe edits: what each accepted edit leaves behind, and
//! that every accepted edit keeps the recipes storable, so that the file
//! written after it reads back as exactly the edited recipes.

use vstd::prelude::*;
use crate::edit::{
    fresh_recipe, recipe_form_request, sample_form_request, stored_sample, valid_grind,
    without_recipe, without_sample,
};
use crate::number::{
    frac_digits, int_digits, is_decimal_text, is_negative_text, mantissa, reads_as_grind_setting, reads_as_zero, scale,
    strip_unit, unsigned_text,
};
use crate::text::without_white_space;
use crate::digits::{be_value, char_digit, lemma_pow_positive, pow_nat};
use crate::prediction::{is_choke_marker, is_kind, is_point_sample, SampleKind};
use crate::json::choked_time;
use crate::digits::is_digit_char;
use crate::store::{
    attach_sample, clean_field, find_named, lemma_find_named, RecipeView, SampleView, storable,
};

verus! {

/// A storable sample of the recipe at `i`.
pub open spec fn storable_sample(s: SampleView, name: Seq<char>) -> bool {
    &&& clean_field(s.time)
    &&& clean_field(s.grind)
    &&& !(s.grind.len() > 0 && s.grind.last() == '\r')
    &&& s.recipe == name
}

proof fn lemma_storable_intro(rs: Seq<RecipeView>)
    requires
        forall|i: int|
            #![trigger rs[i]]
            0 <= i < rs.len() ==> {
                &&& clean_field(rs[i].name)
                &&& clean_field(rs[i].dose_weight_g)
                &&& clean_field(rs[i].shot_weight_g)
                &&& forall|k: int|
                    0 <= k < rs[i].samples.len() ==> storable_sample(#[trigger] rs[i].samples[k], rs[i].name)
            },
        forall|i: int, j: int| 0 <= i < j < rs.len() ==> rs[i].name != rs[j].name,
    ensures
        storable(rs),
{
    assert forall|i: int, k: int| 0 <= i < rs.len() && 0 <= k < rs[i].samples.len() implies {
        let s = #[trigger] rs[i].samples[k];
        &&& clean_field(s.time)
        &&& clean_field(s.grind)
        &&& !(s.grind.len() > 0 && s.grind.last() == '\r')
        &&& s.recipe == rs[i].name
    } by {
        assert(storable_sample(rs[i].samples[k], rs[i].name));
    }
}

proof fn lemma_storable_elim(rs: Seq<RecipeView>, i: int)
    requires
        storable(rs),
        0 <= i < rs.len(),
    ensures
        clean_field(rs[i].name),
        clean_field(rs[i].dose_weight_g),
        clean_field(rs[i].shot_weight_g),
        forall|k: int| 0 <= k < rs[i].samples.len() ==> storable_sample(#[trigger] rs[i].samples[k], rs[i].name),
{
    assert forall|k: int| 0 <= k < rs[i].samples.len() implies storable_sample(
        #[trigger] rs[i].samples[k],
        rs[i].name,
    ) by {
        let s = rs[i].samples[k];
        assert(s == rs[i].samples[k]);
    }
}

/// A recipe added under a new name with clean fields keeps the recipes
/// storable.
pub proof fn law_new_recipe_keeps_storable(rs: Seq<RecipeView>, name: Seq<char>, dose: Seq<char>, shot: Seq<char>)
    requires
        storable(rs),
        find_named(rs, name) is None,
        clean_field(name),
        clean_field(dose),
        clean_field(shot),
    ensures
        storable(rs.push(fresh_recipe(name, dose, shot))),
{
    let out = rs.push(fresh_recipe(name, dose, shot));
    lemma_find_named(rs, name);
    assert forall|i: int| 0 <= i < out.len() implies {
        &&& clean_field(#[trigger] out[i].name)
        &&& clean_field(out[i].dose_weight_g)
        &&& clean_field(out[i].shot_weight_g)
        &&& forall|k: int| 0 <= k < out[i].samples.len() ==> storable_sample(#[trigger] out[i].samples[k], out[i].name)
    } by {
        if i < rs.len() {
            lemma_storable_elim(rs, i);
        }
    }
    lemma_storable_intro(out);
}

/// A sample with clean fields whose grind does not end in `\r`, added to
/// the recipe it names, keeps the recipes storable.
pub proof fn law_new_sample_keeps_storable(rs: Seq<RecipeView>, s: SampleView)
    requires
        storable(rs),
        clean_field(s.time),
        clean_field(s.grind),
        !(s.grind.len() > 0 && s.grind.last() == '\r'),
    ensures
        storable(attach_sample(rs, s)),
{
    lemma_find_named(rs, s.recipe);
    let out = attach_sample(rs, s);
    assert forall|i: int| 0 <= i < out.len() implies {
        &&& clean_field(#[trigger] out[i].name)
        &&& clean_field(out[i].dose_weight_g)
        &&& clean_field(out[i].shot_weight_g)
        &&& forall|k: int| 0 <= k < out[i].samples.len() ==> storable_sample(#[trigger] out[i].samples[k], out[i].name)
    } by {
        lemma_storable_elim(rs, i);
        match find_named(rs, s.recipe) {
            Some(j) => {
                if i == j {
                    assert forall|k: int| 0 <= k < out[i].samples.len() implies storable_sample(
                        #[trigger] out[i].samples[k],
                        out[i].name,
                    ) by {
                        if k < rs[i].samples.len() {
                            assert(out[i].samples[k] == rs[i].samples[k]);
                        } else {
                            assert(out[i].samples[k] == s);
                        }
                    }
                }
            },
            None => {},
        }
    }
    lemma_storable_intro(out);
}

/// Removing the recipes of a name keeps the recipes storable.
pub proof fn law_removal_keeps_storable(rs: Seq<RecipeView>, name: Seq<char>)
    requires
        storable(rs),
    ensures
        storable(without_recipe(rs, name)),
    decreases rs.len(),
{
    reveal_with_fuel(Seq::filter, 1);
    let keep = |r: RecipeView| r.name != name;
    if rs.len() > 0 {
        let t = rs.drop_last();
        assert(storable(t)) by {
            assert forall|i: int| 0 <= i < t.len() implies {
                &&& clean_field(#[trigger] t[i].name)
                &&& clean_field(t[i].dose_weight_g)
                &&& clean_field(t[i].shot_weight_g)
                &&& forall|k: int| 0 <= k < t[i].samples.len() ==> storable_sample(#[trigger] t[i].samples[k], t[i].name)
            } by {
                lemma_storable_elim(rs, i);
                assert(t[i] == rs[i]);
            }
            lemma_storable_intro(t);
        }
        law_removal_keeps_storable(t, name);
        let ft = without_recipe(t, name);
        let out = without_recipe(rs, name);
        let last = rs.last();
        lemma_storable_elim(rs, rs.len() - 1);
        assert(last == rs[rs.len() - 1]);
        if keep(last) {
            assert(out == ft.push(last));
            t.lemma_filter_len(keep);
            assert forall|i: int| 0 <= i < out.len() implies {
                &&& clean_field(#[trigger] out[i].name)
                &&& clean_field(out[i].dose_weight_g)
                &&& clean_field(out[i].shot_weight_g)
                &&& forall|k: int| 0 <= k < out[i].samples.len() ==> storable_sample(#[trigger] out[i].samples[k], out[i].name)
            } by {
                if i < ft.len() {
                    lemma_storable_elim(ft, i);
                    assert(out[i] == ft[i]);
                }
            }
            assert forall|i: int, j: int| 0 <= i < j < out.len() implies out[i].name != out[j].name by {
                if j == ft.len() {
                    assert(ft.contains(ft[i]));
                    t.lemma_filter_contains_rev(keep, ft[i]);
                    assert(t.contains(ft[i]));
                    let m = choose|m: int| 0 <= m < t.len() && t[m] == ft[i];
                    assert(rs[m] == t[m]);
                    assert(rs[m].name != rs[rs.len() - 1].name);
                } else {
                    assert(out[i] == ft[i] && out[j] == ft[j]);
                }
            }
            lemma_storable_intro(out);
        } else {
            assert(out == ft);
        }
    }
}

/// Deleting a sample keeps the recipes storable.
pub proof fn law_sample_deletion_keeps_storable(rs: Seq<RecipeView>, i: int, k: int)
    requires
        storable(rs),
        0 <= i < rs.len(),
        0 <= k < rs[i].samples.len(),
    ensures
        storable(without_sample(rs, i, k)),
{
    let out = without_sample(rs, i, k);
    assert forall|j: int| 0 <= j < out.len() implies {
        &&& clean_field(#[trigger] out[j].name)
        &&& clean_field(out[j].dose_weight_g)
        &&& clean_field(out[j].shot_weight_g)
        &&& forall|m: int| 0 <= m < out[j].samples.len() ==> storable_sample(#[trigger] out[j].samples[m], out[j].name)
    } by {
        lemma_storable_elim(rs, j);
        if j == i {
            assert forall|m: int| 0 <= m < out[j].samples.len() implies storable_sample(
                #[trigger] out[j].samples[m],
                out[j].name,
            ) by {
                if m < k {
                    assert(out[j].samples[m] == rs[i].samples[m]);
                } else {
                    assert(out[j].samples[m] == rs[i].samples[m + 1]);
                }
            }
        }
    }
    lemma_storable_intro(out);
}

/// A decimal number never ends in `\r`.
proof fn lemma_decimal_no_cr(g: Seq<char>)
    requires
        is_decimal_text(g),
    ensures
        !(g.len() > 0 && g.last() == '\r'),
{
    if g.len() > 0 {
        let u = if g[0] == '-' {
            g.skip(1)
        } else {
            g
        };
        if g.len() > 1 || g[0] != '-' {
            assert(g.last() == u[u.len() - 1]);
        }
    }
}

/// A recipe a web form adds keeps the recipes storable.
pub proof fn law_recipe_form_keeps_storable(rs: Seq<RecipeView>, ps: Seq<(Seq<char>, Seq<char>)>)
    requires
        storable(rs),
        recipe_form_request(ps) is Ok,
        find_named(rs, recipe_form_request(ps)->Ok_0.0) is None,
    ensures
        ({
            let (name, dose, shot) = recipe_form_request(ps)->Ok_0;
            storable(rs.push(fresh_recipe(name, dose, shot)))
        }),
{
    let (name, dose, shot) = recipe_form_request(ps)->Ok_0;
    law_new_recipe_keeps_storable(rs, name, dose, shot);
}

/// A sample a web form adds keeps the recipes storable.
pub proof fn law_sample_form_keeps_storable(rs: Seq<RecipeView>, ps: Seq<(Seq<char>, Seq<char>)>)
    requires
        storable(rs),
        sample_form_request(ps) is Ok,
    ensures
        ({
            let (name, time, grind) = sample_form_request(ps)->Ok_0;
            storable(attach_sample(rs, stored_sample(name, time, grind)))
        }),
{
    let (name, time, grind) = sample_form_request(ps)->Ok_0;
    let s = stored_sample(name, time, grind);
    reveal_strlit("s");
    assert(s.time == time + seq!['s']);
    assert(clean_field(s.time)) by {
        if s.time.contains('\t') {
            let m = choose|m: int| 0 <= m < s.time.len() && s.time[m] == '\t';
            if m < time.len() {
                assert(time[m] == '\t');
            }
        }
        if s.time.contains('\n') {
            let m = choose|m: int| 0 <= m < s.time.len() && s.time[m] == '\n';
            if m < time.len() {
                assert(time[m] == '\n');
            }
        }
    }
    assert(valid_grind(grind));
    lemma_decimal_no_cr(grind);
    law_new_sample_keeps_storable(rs, s);
}

/// A recipe added under a new name is the one found under that name.
pub proof fn law_added_recipe_is_found(rs: Seq<RecipeView>, name: Seq<char>, dose: Seq<char>, shot: Seq<char>)
    requires
        find_named(rs, name) is None,
    ensures
        find_named(rs.push(fresh_recipe(name, dose, shot)), name) == Some(rs.len() as int),
{
    assert(rs.push(fresh_recipe(name, dose, shot)).drop_last() =~= rs);
}

/// After removing the recipes of a name, none is found under it, and the
/// other recipes stay in order.
pub proof fn law_removed_recipe_is_gone(rs: Seq<RecipeView>, name: Seq<char>)
    ensures
        find_named(without_recipe(rs, name), name) is None,
        forall|i: int|
            0 <= i < without_recipe(rs, name).len() ==> rs.contains(#[trigger] without_recipe(rs, name)[i]),
{
    let out = without_recipe(rs, name);
    let keep = |r: RecipeView| r.name != name;
    lemma_find_named(out, name);
    if find_named(out, name) is Some {
        let i = find_named(out, name)->0;
        rs.lemma_filter_pred(keep, i);
        assert(keep(out[i]));
    }
    assert forall|i: int| 0 <= i < out.len() implies rs.contains(#[trigger] out[i]) by {
        assert(out.contains(out[i]));
        rs.lemma_filter_contains_rev(keep, out[i]);
    }
}

/// A sample added to a recipe becomes its last sample, and no other
/// recipe changes.
pub proof fn law_added_sample_is_last(rs: Seq<RecipeView>, s: SampleView)
    requires
        find_named(rs, s.recipe) is Some,
    ensures
        ({
            let i = find_named(rs, s.recipe)->0;
            let out = attach_sample(rs, s);
            &&& out.len() == rs.len()
            &&& out[i].samples == rs[i].samples.push(s)
            &&& out[i].name == rs[i].name
            &&& forall|j: int| 0 <= j < rs.len() && j != i ==> out[j] == rs[j]
        }),
{
    lemma_find_named(rs, s.recipe);
}

/// A choked sample is a marker, never a point of the grind/time model,
/// and no regression reads it: neither the web app's model nor `predict`
/// counts it, and it is no candidate for the nearest shot.
pub proof fn law_choked_samples_are_not_points(s: SampleView)
    ensures
        is_choke_marker(s) ==> choked_time(s.time),
        choked_time(s.time) ==> {
            &&& !is_point_sample(s)
            &&& !is_kind(SampleKind::CountedShot, s)
            &&& !is_kind(SampleKind::CountedPoint, s)
            &&& !is_kind(SampleKind::UnreadableGrind, s)
            &&& !is_kind(SampleKind::PositiveTime, s)
        },
{
}

/// A shot recorded as choked, with time `0`, is stored as a choked sample.
pub proof fn law_recorded_choke_is_choked(recipe: Seq<char>, grind: Seq<char>)
    ensures
        choked_time(stored_sample(recipe, "0"@, grind).time),
{
    reveal_strlit("0");
    reveal_strlit("s");
    let t = stored_sample(recipe, "0"@, grind).time;
    assert(t =~= seq!['0', 's']);
    assert(without_white_space(t) =~= t) by {
        reveal_with_fuel(vstd::seq::Seq::filter, 3);
        assert(t.drop_last() =~= seq!['0']);
        assert(t.drop_last().drop_last() =~= Seq::<char>::empty());
    }
    let n = strip_unit(t, seq!['g', 's']);
    assert(seq!['g', 's'].contains(t.last())) by {
        assert(seq!['g', 's'][1] == 's');
    }
    assert(n =~= seq!['0']);
    assert(unsigned_text(n) =~= n);
    assert(is_digit_char(n[0]));
    assert(!n.contains('.'));
    assert(int_digits(n) =~= n);
    assert(frac_digits(n) =~= Seq::<char>::empty());
    assert(n + Seq::<char>::empty() =~= n);
    assert(n.drop_last() =~= Seq::<char>::empty());
    assert(int_digits(unsigned_text(n)) + frac_digits(unsigned_text(n)) =~= n);
    assert(be_value(n) == be_value(n.drop_last()) * 10 + char_digit(n.last()));
    assert(mantissa(n) == 0);
    assert(scale(n) == 0);
    assert(pow_nat(10, 0) == 1);
}

/// Every number from 1 to 40 is accepted as a grind setting.
pub proof fn law_grind_range_accepted(s: Seq<char>)
    requires
        is_decimal_text(s),
        !is_negative_text(s),
        pow_nat(10, scale(s)) <= mantissa(s) <= 40 * pow_nat(10, scale(s)),
    ensures
        reads_as_grind_setting(s),
{
    let m = mantissa(s);
    let p = pow_nat(10, scale(s));
    lemma_pow_positive(10, scale(s));
    crate::number::lemma_two_powers();
    let a = pow_nat(2, 54);
    let b = pow_nat(2, 48);
    assert(m * a >= (a - 1) * p) by (nonlinear_arith)
        requires
            m >= p,
            a >= 1,
    ;
    assert(m * b <= (40 * b + 1) * p) by (nonlinear_arith)
        requires
            m <= 40 * p,
            b >= 1,
            p >= 1,
    ;
}

/// A whole number (no decimal point, no sign) is accepted as a grind
/// setting exactly when it lies from 1 to 40.
pub proof fn law_whole_grind_setting(s: Seq<char>)
    requires
        is_decimal_text(s),
        !is_negative_text(s),
        scale(s) == 0,
    ensures
        reads_as_grind_setting(s) <==> 1 <= mantissa(s) <= 40,
{
    let m = mantissa(s);
    assert(pow_nat(10, 0) == 1);
    crate::number::lemma_two_powers();
    let a = pow_nat(2, 54);
    let b = pow_nat(2, 48);
    if m == 0 {
        assert(m * a == 0);
    } else if m >= 41 {
        assert(m * b >= 41 * b) by (nonlinear_arith)
            requires
                m >= 41,
                b >= 0,
        ;
    } else {
        assert(m * a >= a) by (nonlinear_arith)
            requires
                m >= 1,
                a >= 0,
        ;
        assert(m * b <= 40 * b) by (nonlinear_arith)
            requires
                m <= 40,
                b >= 0,
        ;
    }
}

/// A whole number reads as zero exactly when it is zero.
pub proof fn law_whole_zero(s: Seq<char>)
    requires
        is_decimal_text(s),
        scale(s) == 0,
    ensures
        reads_as_zero(s) <==> mantissa(s) == 0,
{
    assert(pow_nat(10, 0) == 1);
    lemma_pow_positive(2, 1075);
    let m = mantissa(s);
    let a = pow_nat(2, 1075);
    if m >= 1 {
        assert(a >= 2) by {
            lemma_two_power_at_least_two(1075);
        }
        assert(m * a >= 2) by (nonlinear_arith)
            requires
                m >= 1,
                a >= 2,
        ;
    }
}

proof fn lemma_two_power_at_least_two(e: nat)
    requires
        e >= 1,
    ensures
        pow_nat(2, e) >= 2,
    decreases e,
{
    if e > 1 {
        lemma_two_power_at_least_two((e - 1) as nat);
    } else {
        assert(pow_nat(2, 0) == 1);
    }
}

} // verus!
