use coffee_hit::store::{data_file_text, find_recipe, get_field, parse_data_file, Data, Recipe, Sample};

fn sample(recipe: &str, time: &str, grind: &str) -> Sample {
    Sample { recipe: recipe.to_string(), time: time.to_string(), grind: grind.to_string() }
}

fn recipe(name: &str, dose: &str, shot: &str, samples: Vec<Sample>) -> Recipe {
    Recipe { name: name.to_string(), dose_weight_g: dose.to_string(), shot_weight_g: shot.to_string(), samples }
}

fn summary(data: &Data) -> Vec<(String, String, String, Vec<(String, String, String)>)> {
    data.recipes
        .iter()
        .map(|r| {
            (
                r.name.clone(),
                r.dose_weight_g.clone(),
                r.shot_weight_g.clone(),
                r.samples.iter().map(|s| (s.recipe.clone(), s.time.clone(), s.grind.clone())).collect(),
            )
        })
        .collect()
}

const HEADER: &str = "record_type\trecipe\tdose_weight_g\tshot_weight_g\ttime\tgrind\n";

#[test]
fn empty_data_file_is_the_header() {
    let data = Data { recipes: Vec::new() };
    assert_eq!(data_file_text(&data), HEADER);
}

#[test]
fn data_file_rows() {
    let data = Data {
        recipes: vec![recipe("Test", "18", "36", vec![sample("Test", "28s", "12"), sample("Test", "0s", "8")])],
    };
    let expected = format!(
        "{HEADER}recipe\tTest\t18\t36\t\t\nsample\tTest\t\t\t28s\t12\nsample\tTest\t\t\t0s\t8\n"
    );
    assert_eq!(data_file_text(&data), expected);
}

#[test]
fn load_after_save_gives_back_the_recipes() {
    let data = Data {
        recipes: vec![
            recipe("House", "18", "36", vec![sample("House", "28s", "12"), sample("House", "31s", "11.5")]),
            recipe("Decaf", "17.5", "40", Vec::new()),
            recipe("Light roast", "20", "45", vec![sample("Light roast", "0s", "8")]),
        ],
    };
    let text = data_file_text(&data);
    let loaded = parse_data_file(&text).expect("loads");
    assert_eq!(summary(&loaded), summary(&data));
}

#[test]
fn samples_attach_to_the_first_recipe_of_their_name() {
    let text = format!(
        "{HEADER}recipe\tA\t18\t36\t\t\nrecipe\tB\t18\t40\t\t\nsample\tB\t\t\t30s\t14\nsample\tA\t\t\t25s\t12\nsample\tC\t\t\t20s\t10\nnote\tignored\n"
    );
    let data = parse_data_file(&text).expect("loads");
    assert_eq!(
        summary(&data),
        vec![
            ("A".to_string(), "18".to_string(), "36".to_string(), vec![("A".to_string(), "25s".to_string(), "12".to_string())]),
            ("B".to_string(), "18".to_string(), "40".to_string(), vec![("B".to_string(), "30s".to_string(), "14".to_string())]),
        ]
    );
}

#[test]
fn crlf_lines_and_short_rows() {
    let text = "record_type\trecipe\tdose_weight_g\tshot_weight_g\ttime\tgrind\r\nrecipe\tA\r\nsample\tA\t\t\t28s\t12\r\n";
    let data = parse_data_file(text).expect("loads");
    assert_eq!(
        summary(&data),
        vec![("A".to_string(), String::new(), String::new(), vec![("A".to_string(), "28s".to_string(), "12".to_string())])]
    );
}

#[test]
fn unexpected_header_is_refused() {
    let error = parse_data_file("name\tdose\nrecipe\tA\t18\t36\t\t\n").err().expect("refused");
    assert_eq!(error.message(), "Unexpected data file header: name\tdose");
    let error = parse_data_file("").err().expect("refused");
    assert_eq!(error.message(), "Unexpected data file header: ");
}

#[test]
fn find_recipe_gives_first_match() {
    let data = Data { recipes: vec![recipe("A", "1", "2", vec![]), recipe("B", "1", "2", vec![]), recipe("A", "3", "4", vec![])] };
    assert_eq!(find_recipe(&data, "A"), Some(0));
    assert_eq!(find_recipe(&data, "B"), Some(1));
    assert_eq!(find_recipe(&data, "C"), None);
}

#[test]
fn fields_past_the_end_are_empty() {
    let row: Vec<Vec<char>> = vec!["sample".chars().collect(), "Espresso".chars().collect()];
    assert_eq!(get_field(&row, 0), "sample");
    assert_eq!(get_field(&row, 1), "Espresso");
    assert_eq!(get_field(&row, 2), "");
    assert_eq!(get_field(&row, 5), "");
}
