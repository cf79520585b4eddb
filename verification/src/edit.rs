//! Changes to the recipes: adding recipes and samples, deleting samples and
//! recipes, and reading those requests from web forms.

use vstd::prelude::*;
use crate::error::AppError;
use crate::form::{form_lookup, form_value, pair_views, trim, trimmed};
use crate::number::{
    is_decimal_text, numeric_dose, numeric_plain, numeric_time, parse_usize, reads_as_grind_setting,
    reject_tabs, require_grind_setting, require_number, strip_unit, usize_text_value,
};
use crate::store::{
    attach_sample, clean_field, find_named, find_recipe, Data, Recipe, RecipeView, Sample, SampleView,
};
use crate::text::{concat, owned, str_eq, without_white_space};

verus! {

/// A recipe ready to be added: name, dose and shot weight.
#[derive(Debug)]
pub struct NewRecipe {
    pub name: String,
    pub dose_weight_g: String,
    pub shot_weight_g: String,
}

/// A sample ready to be added: recipe name, shot time in seconds without
/// unit, and grind setting.
#[derive(Debug)]
pub struct NewSample {
    pub recipe: String,
    pub time: String,
    pub grind: String,
}

/// The message of a field that holds a tab or newline.
pub open spec fn tab_message(field: Seq<char>) -> Seq<char> {
    field + " cannot contain tabs or newlines"@
}

/// The message of a field that is not a number.
pub open spec fn numeric_message(field: Seq<char>) -> Seq<char> {
    field + " must be numeric"@
}

/// The message of a grind setting that is not a number from 1 to 40.
pub open spec fn grind_message(grind: Seq<char>) -> Seq<char> {
    if is_decimal_text(grind) {
        "grind must be between 1 and 40"@
    } else {
        numeric_message("grind"@)
    }
}

/// A grind setting accepted for a sample.
pub open spec fn valid_grind(grind: Seq<char>) -> bool {
    is_decimal_text(grind) && reads_as_grind_setting(grind)
}

/// The recipe a new recipe becomes: no samples yet.
pub open spec fn fresh_recipe(name: Seq<char>, dose: Seq<char>, shot: Seq<char>) -> RecipeView {
    RecipeView { name: name, dose_weight_g: dose, shot_weight_g: shot, samples: Seq::empty() }
}

/// The sample stored for a shot: its time gets the unit `s`.
pub open spec fn stored_sample(recipe: Seq<char>, time: Seq<char>, grind: Seq<char>) -> SampleView {
    SampleView { recipe: recipe, time: time + "s"@, grind: grind }
}

/// The recipes without those called `name`.
pub open spec fn without_recipe(rs: Seq<RecipeView>, name: Seq<char>) -> Seq<RecipeView> {
    rs.filter(|r: RecipeView| r.name != name)
}

/// The recipes with sample `k` of recipe `i` deleted.
pub open spec fn without_sample(rs: Seq<RecipeView>, i: int, k: int) -> Seq<RecipeView> {
    rs.update(i, RecipeView { samples: rs[i].samples.remove(k), ..rs[i] })
}

/// Adds a recipe unless one of that name exists.
pub fn insert_recipe(data: &mut Data, recipe: NewRecipe) -> (r: Result<(), AppError>)
    ensures
        find_named(old(data)@, recipe.name@) is Some ==> (r matches Err(e) && e.0@ == "Recipe already exists: "@
            + recipe.name@) && final(data)@ == old(data)@,
        find_named(old(data)@, recipe.name@) is None ==> r is Ok && final(data)@ == old(data)@.push(
            fresh_recipe(recipe.name@, recipe.dose_weight_g@, recipe.shot_weight_g@),
        ),
{
    if find_recipe(data, recipe.name.as_str()).is_some() {
        return Err(AppError::new(concat("Recipe already exists: ", recipe.name.as_str())));
    }
    let r = Recipe {
        name: recipe.name,
        dose_weight_g: recipe.dose_weight_g,
        shot_weight_g: recipe.shot_weight_g,
        samples: Vec::new(),
    };
    proof {
        assert(r@.samples =~= Seq::<SampleView>::empty());
    }
    data.recipes.push(r);
    proof {
        assert(final(data)@ =~= old(data)@.push(fresh_recipe(r@.name, r@.dose_weight_g, r@.shot_weight_g)));
    }
    Ok(())
}

/// Adds a sample to the first recipe of its name; fails when there is none.
pub fn append_sample(data: &mut Data, sample: NewSample) -> (r: Result<(), AppError>)
    ensures
        find_named(old(data)@, sample.recipe@) is None ==> (r matches Err(e) && e.0@ == "Recipe not found: "@
            + sample.recipe@) && final(data)@ == old(data)@,
        find_named(old(data)@, sample.recipe@) is Some ==> r is Ok && final(data)@ == attach_sample(
            old(data)@,
            stored_sample(sample.recipe@, sample.time@, sample.grind@),
        ),
{
    match find_recipe(data, sample.recipe.as_str()) {
        None => Err(AppError::new(concat("Recipe not found: ", sample.recipe.as_str()))),
        Some(i) => {
            let s = Sample { recipe: sample.recipe, time: concat(sample.time.as_str(), "s"), grind: sample.grind };
            let mut r = data.recipes.remove(i);
            let ghost old_samples = r.samples@;
            r.samples.push(s);
            proof {
                assert(r.samples@.map_values(|x: Sample| x@) =~= old_samples.map_values(|x: Sample| x@).push(s@));
            }
            data.recipes.insert(i, r);
            proof {
                assert(final(data)@ =~= attach_sample(old(data)@, s@));
            }
            Ok(())
        },
    }
}

/// Deletes sample `index` of the first recipe called `recipe`.
pub fn delete_sample(data: &mut Data, recipe: &str, index: usize) -> (r: Result<(), AppError>)
    ensures
        find_named(old(data)@, recipe@) is None ==> (r matches Err(e) && e.0@ == "Recipe not found: "@ + recipe@)
            && final(data)@ == old(data)@,
        find_named(old(data)@, recipe@) matches Some(i) ==> if index < old(data)@[i].samples.len() {
            r is Ok && final(data)@ == without_sample(old(data)@, i, index as int)
        } else {
            r matches Err(e) && e.0@ == "Sample not found"@ && final(data)@ == old(data)@
        },
{
    match find_recipe(data, recipe) {
        None => Err(AppError::new(concat("Recipe not found: ", recipe))),
        Some(i) => {
            if index >= data.recipes[i].samples.len() {
                return Err(AppError::new(owned("Sample not found")));
            }
            let mut r = data.recipes.remove(i);
            let ghost old_samples = r.samples@;
            r.samples.remove(index);
            proof {
                assert(r.samples@.map_values(|x: Sample| x@) =~= old_samples.map_values(|x: Sample| x@).remove(
                    index as int,
                ));
            }
            data.recipes.insert(i, r);
            proof {
                assert(final(data)@ =~= without_sample(old(data)@, i as int, index as int));
            }
            Ok(())
        },
    }
}

/// Removes every recipe called `name`; fails when there is none.
pub fn remove_recipe_named(data: &mut Data, name: &str) -> (r: Result<(), AppError>)
    ensures
        without_recipe(old(data)@, name@).len() == old(data)@.len() ==> (r matches Err(e) && e.0@
            == "Recipe not found: "@ + name@) && final(data)@ == old(data)@,
        without_recipe(old(data)@, name@).len() < old(data)@.len() ==> r is Ok && final(data)@
            == without_recipe(old(data)@, name@),
{
    let ghost orig = data@;
    let ghost keep = |r: RecipeView| r.name != name@;
    let before = data.recipes.len();
    let mut j: usize = 0;
    let ghost mut p: int = 0;
    proof {
        assert(orig.take(0) =~= Seq::<RecipeView>::empty());
        reveal_with_fuel(Seq::filter, 1);
        assert(orig.skip(0) =~= orig);
        assert(data@ =~= orig.take(0).filter(keep) + orig.skip(0));
    }
    while j < data.recipes.len()
        invariant
            0 <= p <= orig.len(),
            keep == (|r: RecipeView| r.name != name@),
            j == orig.take(p).filter(keep).len(),
            data@ == orig.take(p).filter(keep) + orig.skip(p),
        decreases orig.len() - p,
    {
        let ghost t = orig.take(p + 1);
        proof {
            reveal_with_fuel(Seq::filter, 1);
            assert(t.drop_last() =~= orig.take(p));
            assert(data@[j as int] == orig[p]);
            assert(t.last() == orig[p]);
        }
        if str_eq(data.recipes[j].name.as_str(), name) {
            let ghost prev = data@;
            data.recipes.remove(j);
            proof {
                assert(t.filter(keep) == orig.take(p).filter(keep));
                assert(data@ =~= prev.remove(j as int));
                assert(data@ =~= orig.take(p + 1).filter(keep) + orig.skip(p + 1));
                p = p + 1;
            }
        } else {
            proof {
                assert(t.filter(keep) == orig.take(p).filter(keep).push(orig[p]));
                assert(data@ =~= orig.take(p + 1).filter(keep) + orig.skip(p + 1));
                p = p + 1;
            }
            j = j + 1;
        }
    }
    proof {
        if p < orig.len() {
            assert(data@.len() == j + orig.skip(p).len());
        }
        assert(orig.take(orig.len() as int) =~= orig);
        assert(orig.skip(orig.len() as int) =~= Seq::<RecipeView>::empty());
        assert(data@ =~= without_recipe(orig, name@));
        orig.lemma_filter_len(keep);
    }
    if data.recipes.len() == before {
        proof {
            lemma_filter_same_len(orig, keep);
        }
        return Err(AppError::new(concat("Recipe not found: ", name)));
    }
    Ok(())
}

/// A filter that keeps the length keeps everything.
proof fn lemma_filter_same_len(s: Seq<RecipeView>, keep: spec_fn(RecipeView) -> bool)
    requires
        s.filter(keep).len() == s.len(),
    ensures
        s.filter(keep) == s,
    decreases s.len(),
{
    reveal_with_fuel(Seq::filter, 1);
    if s.len() > 0 {
        let t = s.drop_last();
        t.lemma_filter_len(keep);
        if !keep(s.last()) {
            assert(s.filter(keep).len() == t.filter(keep).len());
            assert(false);
        }
        lemma_filter_same_len(t, keep);
        assert(t.push(s.last()) =~= s);
    }
}

/// What a recipe form asks for: the recipe's name, dose and shot weight, or
/// the message of the first problem found.
pub open spec fn recipe_form_request(ps: Seq<(Seq<char>, Seq<char>)>) -> Result<
    (Seq<char>, Seq<char>, Seq<char>),
    Seq<char>,
> {
    match form_lookup(ps, "recipe"@) {
        None => Err("Recipe name is required"@),
        Some(raw_name) => match form_lookup(ps, "dose"@) {
            None => Err("Dose is required"@),
            Some(raw_dose) => match form_lookup(ps, "shot_weight"@) {
                None => Err("Shot weight is required"@),
                Some(raw_shot) => {
                    let name = trim(raw_name);
                    let dose = strip_unit(trim(raw_dose), seq!['g', 'g']);
                    let shot = strip_unit(trim(raw_shot), seq!['g', 'g']);
                    if !clean_field(name) {
                        Err(tab_message("recipe"@))
                    } else if !clean_field(dose) {
                        Err(tab_message("dose"@))
                    } else if !clean_field(shot) {
                        Err(tab_message("shot weight"@))
                    } else if !is_decimal_text(dose) {
                        Err(numeric_message("dose"@))
                    } else if !is_decimal_text(shot) {
                        Err(numeric_message("shot weight"@))
                    } else {
                        Ok((name, dose, shot))
                    }
                },
            },
        },
    }
}

fn required<'a>(params: &'a [(String, String)], key: &str, message: &str) -> (r: Result<&'a str, AppError>)
    ensures
        r matches Ok(v) ==> form_lookup(pair_views(params@), key@) == Some(v@),
        r matches Err(e) ==> form_lookup(pair_views(params@), key@) is None && e.0@ == message@,
{
    match form_value(params, key) {
        Some(v) => Ok(v),
        None => Err(AppError::new(owned(message))),
    }
}

/// Reads a new recipe from a web form.
pub fn recipe_from_form(params: &[(String, String)]) -> (r: Result<NewRecipe, AppError>)
    ensures
        match recipe_form_request(pair_views(params@)) {
            Ok((name, dose, shot)) => r matches Ok(n) && n.name@ == name && n.dose_weight_g@ == dose
                && n.shot_weight_g@ == shot,
            Err(message) => r matches Err(e) && e.0@ == message,
        },
{
    let raw_name = required(params, "recipe", "Recipe name is required")?;
    let raw_dose = required(params, "dose", "Dose is required")?;
    let raw_shot = required(params, "shot_weight", "Shot weight is required")?;
    let name = trimmed(raw_name);
    let dose = numeric_dose(trimmed(raw_dose).as_str());
    let shot = numeric_dose(trimmed(raw_shot).as_str());
    reject_tabs("recipe", name.as_str())?;
    reject_tabs("dose", dose.as_str())?;
    reject_tabs("shot weight", shot.as_str())?;
    require_number("dose", dose.as_str())?;
    require_number("shot weight", shot.as_str())?;
    Ok(NewRecipe { name, dose_weight_g: dose, shot_weight_g: shot })
}

/// Adds the recipe a web form describes.
pub fn create_recipe_from_form(data: &mut Data, params: &[(String, String)]) -> (r: Result<(), AppError>)
    ensures
        match recipe_form_request(pair_views(params@)) {
            Err(message) => r matches Err(e) && e.0@ == message && final(data)@ == old(data)@,
            Ok((name, dose, shot)) => if find_named(old(data)@, name) is Some {
                r matches Err(e) && e.0@ == "Recipe already exists: "@ + name && final(data)@ == old(data)@
            } else {
                r is Ok && final(data)@ == old(data)@.push(fresh_recipe(name, dose, shot))
            },
        },
{
    let recipe = recipe_from_form(params)?;
    insert_recipe(data, recipe)
}

/// What a sample form asks for: recipe name, shot time and grind, or the
/// message of the first problem found. A choked shot records time `0`.
pub open spec fn sample_form_request(ps: Seq<(Seq<char>, Seq<char>)>) -> Result<
    (Seq<char>, Seq<char>, Seq<char>),
    Seq<char>,
> {
    match form_lookup(ps, "recipe"@) {
        None => Err("Choose a recipe first"@),
        Some(raw_name) => {
            let choked = form_lookup(ps, "choked"@) == Some("1"@);
            let time = if choked {
                Some("0"@)
            } else {
                match form_lookup(ps, "time"@) {
                    None => None,
                    Some(t) => Some(strip_unit(trim(t), seq!['s', 's'])),
                }
            };
            match time {
                None => Err("Shot time is required"@),
                Some(time) => match form_lookup(ps, "grind"@) {
                    None => Err("Grind is required"@),
                    Some(raw_grind) => {
                        let name = trim(raw_name);
                        let grind = without_white_space(trim(raw_grind));
                        if !clean_field(name) {
                            Err(tab_message("recipe"@))
                        } else if !clean_field(time) {
                            Err(tab_message("shot time"@))
                        } else if !clean_field(grind) {
                            Err(tab_message("grind"@))
                        } else if !is_decimal_text(time) {
                            Err(numeric_message("shot time"@))
                        } else if !valid_grind(grind) {
                            Err(grind_message(grind))
                        } else {
                            Ok((name, time, grind))
                        }
                    },
                },
            }
        },
    }
}

/// Reads a new sample from a web form.
pub fn sample_from_form(params: &[(String, String)]) -> (r: Result<NewSample, AppError>)
    ensures
        match sample_form_request(pair_views(params@)) {
            Ok((name, time, grind)) => r matches Ok(s) && s.recipe@ == name && s.time@ == time && s.grind@
                == grind,
            Err(message) => r matches Err(e) && e.0@ == message,
        },
{
    let raw_name = required(params, "recipe", "Choose a recipe first")?;
    let name = trimmed(raw_name);
    let choked = match form_value(params, "choked") {
        Some(v) => str_eq(v, "1"),
        None => false,
    };
    let time = if choked {
        owned("0")
    } else {
        let raw_time = required(params, "time", "Shot time is required")?;
        numeric_time(trimmed(raw_time).as_str())
    };
    let raw_grind = required(params, "grind", "Grind is required")?;
    let grind = numeric_plain(trimmed(raw_grind).as_str());
    reject_tabs("recipe", name.as_str())?;
    reject_tabs("shot time", time.as_str())?;
    reject_tabs("grind", grind.as_str())?;
    require_number("shot time", time.as_str())?;
    require_grind_setting(grind.as_str())?;
    Ok(NewSample { recipe: name, time, grind })
}

/// Adds the sample a web form describes.
pub fn add_sample_from_form(data: &mut Data, params: &[(String, String)]) -> (r: Result<(), AppError>)
    ensures
        match sample_form_request(pair_views(params@)) {
            Err(message) => r matches Err(e) && e.0@ == message && final(data)@ == old(data)@,
            Ok((name, time, grind)) => if find_named(old(data)@, name) is None {
                r matches Err(e) && e.0@ == "Recipe not found: "@ + name && final(data)@ == old(data)@
            } else {
                r is Ok && final(data)@ == attach_sample(old(data)@, stored_sample(name, time, grind))
            },
        },
{
    let sample = sample_from_form(params)?;
    append_sample(data, sample)
}

/// What a sample deletion form asks for: the recipe name and the sample's
/// index, or the message of the first problem found.
pub open spec fn sample_deletion_request(ps: Seq<(Seq<char>, Seq<char>)>) -> Result<(Seq<char>, nat), Seq<char>> {
    match form_lookup(ps, "recipe"@) {
        None => Err("Recipe is required"@),
        Some(raw_name) => match form_lookup(ps, "sample_index"@) {
            None => Err("Sample index is required"@),
            Some(raw_index) => match usize_text_value(raw_index) {
                None => Err("Sample index must be numeric"@),
                Some(index) => Ok((trim(raw_name), index)),
            },
        },
    }
}

/// Reads the recipe name and sample index a deletion form names.
pub fn sample_ref_from_form(params: &[(String, String)]) -> (r: Result<(String, usize), AppError>)
    ensures
        match sample_deletion_request(pair_views(params@)) {
            Ok((name, index)) => r matches Ok(p) && p.0@ == name && p.1 == index,
            Err(message) => r matches Err(e) && e.0@ == message,
        },
{
    let raw_name = required(params, "recipe", "Recipe is required")?;
    let name = trimmed(raw_name);
    let raw_index = required(params, "sample_index", "Sample index is required")?;
    match parse_usize(raw_index) {
        Some(index) => Ok((name, index)),
        None => Err(AppError::new(owned("Sample index must be numeric"))),
    }
}

/// Deletes the sample a web form names.
pub fn delete_sample_from_form(data: &mut Data, params: &[(String, String)]) -> (r: Result<(), AppError>)
    ensures
        match sample_deletion_request(pair_views(params@)) {
            Err(message) => r matches Err(e) && e.0@ == message && final(data)@ == old(data)@,
            Ok((name, index)) => match find_named(old(data)@, name) {
                None => r matches Err(e) && e.0@ == "Recipe not found: "@ + name && final(data)@ == old(data)@,
                Some(i) => if index < old(data)@[i].samples.len() {
                    r is Ok && final(data)@ == without_sample(old(data)@, i, index as int)
                } else {
                    r matches Err(e) && e.0@ == "Sample not found"@ && final(data)@ == old(data)@
                },
            },
        },
{
    let (name, index) = sample_ref_from_form(params)?;
    delete_sample(data, name.as_str(), index)
}

/// The recipe name a recipe deletion form names.
pub open spec fn recipe_deletion_request(ps: Seq<(Seq<char>, Seq<char>)>) -> Result<Seq<char>, Seq<char>> {
    match form_lookup(ps, "recipe"@) {
        None => Err("Recipe is required"@),
        Some(raw_name) => Ok(trim(raw_name)),
    }
}

/// Reads the recipe name a deletion form names.
pub fn recipe_name_from_form(params: &[(String, String)]) -> (r: Result<String, AppError>)
    ensures
        match recipe_deletion_request(pair_views(params@)) {
            Ok(name) => r matches Ok(n) && n@ == name,
            Err(message) => r matches Err(e) && e.0@ == message,
        },
{
    let raw_name = required(params, "recipe", "Recipe is required")?;
    Ok(trimmed(raw_name))
}

/// Removes the recipes a web form names.
pub fn delete_recipe_from_form(data: &mut Data, params: &[(String, String)]) -> (r: Result<(), AppError>)
    ensures
        match recipe_deletion_request(pair_views(params@)) {
            Err(message) => r matches Err(e) && e.0@ == message && final(data)@ == old(data)@,
            Ok(name) => if without_recipe(old(data)@, name).len() == old(data)@.len() {
                r matches Err(e) && e.0@ == "Recipe not found: "@ + name && final(data)@ == old(data)@
            } else {
                r is Ok && final(data)@ == without_recipe(old(data)@, name)
            },
        },
{
    let name = recipe_name_from_form(params)?;
    remove_recipe_named(data, name.as_str())
}

} // verus!
