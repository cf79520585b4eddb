use coffee_hit::edit::{
    add_sample_from_form, create_recipe_from_form, delete_recipe_from_form, delete_sample_from_form,
    recipe_from_form, sample_from_form,
};
use coffee_hit::form::{form_value, parse_form_encoded, trimmed, url_decode};
use coffee_hit::store::{data_file_text, parse_data_file, Data, Recipe, Sample};

fn params(pairs: &[(&str, &str)]) -> Vec<(String, String)> {
    pairs.iter().map(|(k, v)| (k.to_string(), v.to_string())).collect()
}

fn one_recipe() -> Data {
    Data {
        recipes: vec![Recipe {
            name: "Test".to_string(),
            dose_weight_g: "18".to_string(),
            shot_weight_g: "36".to_string(),
            samples: vec![Sample { recipe: "Test".to_string(), time: "28s".to_string(), grind: "12".to_string() }],
        }],
    }
}

#[test]
fn url_decoding() {
    assert_eq!(url_decode("a+b%20c"), "a b c");
    assert_eq!(url_decode("%41%42"), "AB");
    assert_eq!(url_decode("%4"), "%4");
    assert_eq!(url_decode("%zz"), "%zz");
    assert_eq!(url_decode("%+9x"), "\u{9}x");
    assert_eq!(url_decode("caf%C3%A9"), "café");
    assert_eq!(url_decode("%FF"), "\u{FFFD}");
    assert_eq!(url_decode("100%"), "100%");
}

#[test]
fn form_pairs_and_lookup() {
    let pairs = parse_form_encoded("recipe=Test+%26+Espresso&dose=18g&&flag&dose=20");
    assert_eq!(
        pairs,
        vec![
            ("recipe".to_string(), "Test & Espresso".to_string()),
            ("dose".to_string(), "18g".to_string()),
            ("flag".to_string(), String::new()),
            ("dose".to_string(), "20".to_string()),
        ]
    );
    assert_eq!(form_value(&pairs, "dose"), Some("18g"));
    assert_eq!(form_value(&pairs, "shot"), None);
    assert!(parse_form_encoded("").is_empty());
    assert_eq!(parse_form_encoded("a=b=c"), vec![("a".to_string(), "b=c".to_string())]);
}

#[test]
fn trimming() {
    assert_eq!(trimmed("  Test \t\n"), "Test");
    assert_eq!(trimmed("\u{3000}x y\u{a0}"), "x y");
    assert_eq!(trimmed("   "), "");
}

#[test]
fn recipe_form_validation() {
    let recipe = recipe_from_form(&params(&[("recipe", " Test "), ("dose", "18 g"), ("shot_weight", "36g")])).unwrap();
    assert_eq!((recipe.name.as_str(), recipe.dose_weight_g.as_str(), recipe.shot_weight_g.as_str()), ("Test", "18", "36"));
    let error = |p: &[(&str, &str)]| recipe_from_form(&params(p)).err().unwrap().message().to_string();
    assert_eq!(error(&[("dose", "18"), ("shot_weight", "36")]), "Recipe name is required");
    assert_eq!(error(&[("recipe", "A"), ("shot_weight", "36")]), "Dose is required");
    assert_eq!(error(&[("recipe", "A"), ("dose", "18")]), "Shot weight is required");
    assert_eq!(error(&[("recipe", "A\tB"), ("dose", "18"), ("shot_weight", "36")]), "recipe cannot contain tabs or newlines");
    assert_eq!(error(&[("recipe", "A"), ("dose", "x"), ("shot_weight", "36")]), "dose must be numeric");
    assert_eq!(error(&[("recipe", "A"), ("dose", "18"), ("shot_weight", "y")]), "shot weight must be numeric");
}

#[test]
fn create_recipe_then_save_and_load() {
    let mut data = one_recipe();
    create_recipe_from_form(&mut data, &params(&[("recipe", "Decaf"), ("dose", "17"), ("shot_weight", "40")])).unwrap();
    assert_eq!(data.recipes.len(), 2);
    assert_eq!(data.recipes[1].name, "Decaf");
    assert!(data.recipes[1].samples.is_empty());
    let error = create_recipe_from_form(&mut data, &params(&[("recipe", "Test"), ("dose", "17"), ("shot_weight", "40")]))
        .err()
        .unwrap();
    assert_eq!(error.message(), "Recipe already exists: Test");
    let text = data_file_text(&data);
    assert_eq!(data_file_text(&parse_data_file(&text).unwrap()), text);
}

#[test]
fn sample_form_validation() {
    let s = sample_from_form(&params(&[("recipe", "Test"), ("time", " 29 s"), ("grind", "13")])).unwrap();
    assert_eq!((s.recipe.as_str(), s.time.as_str(), s.grind.as_str()), ("Test", "29", "13"));
    let choked = sample_from_form(&params(&[("recipe", "Test"), ("choked", "1"), ("grind", "8")])).unwrap();
    assert_eq!(choked.time, "0");
    let error = |p: &[(&str, &str)]| sample_from_form(&params(p)).err().unwrap().message().to_string();
    assert_eq!(error(&[("time", "29"), ("grind", "13")]), "Choose a recipe first");
    assert_eq!(error(&[("recipe", "Test"), ("grind", "13")]), "Shot time is required");
    assert_eq!(error(&[("recipe", "Test"), ("choked", "yes"), ("grind", "13")]), "Shot time is required");
    assert_eq!(error(&[("recipe", "Test"), ("time", "29")]), "Grind is required");
    assert_eq!(error(&[("recipe", "Test"), ("time", "fast"), ("grind", "13")]), "shot time must be numeric");
    assert_eq!(error(&[("recipe", "Test"), ("time", "29"), ("grind", "45")]), "grind must be between 1 and 40");
}

#[test]
fn add_and_delete_samples() {
    let mut data = one_recipe();
    add_sample_from_form(&mut data, &params(&[("recipe", "Test"), ("time", "31"), ("grind", "11")])).unwrap();
    assert_eq!(data.recipes[0].samples.len(), 2);
    assert_eq!(data.recipes[0].samples[1].time, "31s");
    assert_eq!(data.recipes[0].samples[1].recipe, "Test");
    let error = add_sample_from_form(&mut data, &params(&[("recipe", "Other"), ("time", "31"), ("grind", "11")]))
        .err()
        .unwrap();
    assert_eq!(error.message(), "Recipe not found: Other");

    let error = delete_sample_from_form(&mut data, &params(&[("recipe", "Test"), ("sample_index", "5")])).err().unwrap();
    assert_eq!(error.message(), "Sample not found");
    let error = delete_sample_from_form(&mut data, &params(&[("recipe", "Test"), ("sample_index", "x")])).err().unwrap();
    assert_eq!(error.message(), "Sample index must be numeric");
    let error = delete_sample_from_form(&mut data, &params(&[("recipe", "Test")])).err().unwrap();
    assert_eq!(error.message(), "Sample index is required");
    delete_sample_from_form(&mut data, &params(&[("recipe", "Test"), ("sample_index", "0")])).unwrap();
    assert_eq!(data.recipes[0].samples.len(), 1);
    assert_eq!(data.recipes[0].samples[0].time, "31s");
}

#[test]
fn delete_recipes() {
    let mut data = one_recipe();
    let error = delete_recipe_from_form(&mut data, &params(&[("recipe", "Other")])).err().unwrap();
    assert_eq!(error.message(), "Recipe not found: Other");
    let error = delete_recipe_from_form(&mut data, &params(&[])).err().unwrap();
    assert_eq!(error.message(), "Recipe is required");
    delete_recipe_from_form(&mut data, &params(&[("recipe", " Test ")])).unwrap();
    assert!(data.recipes.is_empty());
}

#[test]
fn plain_text_decodes_to_itself() {
    for text in ["Morning espresso", "18.5g", "Café-crème_2", "", "a=b&c"] {
        assert_eq!(url_decode(text), text);
    }
    assert_ne!(url_decode("a+b"), "a+b");
}

#[test]
fn recorded_choke_is_a_choked_sample() {
    let mut data = one_recipe();
    add_sample_from_form(&mut data, &params(&[("recipe", "Test"), ("grind", "9"), ("choked", "1")])).unwrap();
    let stored = data.recipes[0].samples.last().unwrap();
    assert_eq!(stored.time, "0s");
    assert!(coffee_hit::json::is_choked_sample(stored));
}

#[test]
fn utf8_pieces_decode_to_their_text() {
    let pairs = parse_form_encoded("recipe=Caf%C3%A9+cr%C3%A8me&%E2%98%95=yes&bad=%FF");
    assert_eq!(pairs[0], ("recipe".to_string(), "Café crème".to_string()));
    assert_eq!(pairs[1], ("☕".to_string(), "yes".to_string()));
    assert_eq!(pairs[2], ("bad".to_string(), "\u{FFFD}".to_string()));
}
