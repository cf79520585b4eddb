use coffee_hit::cli::{
    add_recipe_args, add_sample_args, graph_args, parse_command, predict_args, recipes_listing_text, remove_args,
    require_recipe, require_recipe_with_samples, serve_args, ArgParser, Command,
};
use coffee_hit::store::{Data, Recipe, Sample};

fn args(items: &[&str]) -> Vec<String> {
    items.iter().map(|s| s.to_string()).collect()
}

#[test]
fn arg_parser_values() {
    let a = args(&["--recipe", "House", "--time", "--dose"]);
    let mut parser = ArgParser::new(&a);
    assert_eq!(parser.next(), Some("--recipe"));
    assert_eq!(parser.require_value("--recipe").unwrap(), "House");
    assert_eq!(parser.next(), Some("--time"));
    assert_eq!(parser.require_value("--time").unwrap_err().message(), "Missing value for --time");
    assert_eq!(parser.next(), Some("--dose"));
    assert_eq!(parser.require_value("--dose").unwrap_err().message(), "Missing value for --dose");
    assert_eq!(parser.next(), None);
}

#[test]
fn commands() {
    assert_eq!(parse_command(&args(&[])).unwrap(), Command::List);
    assert_eq!(parse_command(&args(&["list"])).unwrap(), Command::List);
    assert_eq!(parse_command(&args(&["add-sample", "--x"])).unwrap(), Command::Sample);
    assert_eq!(parse_command(&args(&["web"])).unwrap(), Command::Serve);
    assert_eq!(parse_command(&args(&["rm"])).unwrap(), Command::Remove);
    assert_eq!(parse_command(&args(&["--help"])).unwrap(), Command::Help);
    let e = parse_command(&args(&["brew"])).unwrap_err();
    assert_eq!(e.error.message(), "Unknown command: brew");
    assert!(e.show_usage);
}

#[test]
fn add_arguments() {
    let r = add_recipe_args(&args(&["--name", "House", "--dose", "18g", "--yield", "36 g"])).unwrap().unwrap();
    assert_eq!((r.name.as_str(), r.dose_weight_g.as_str(), r.shot_weight_g.as_str()), ("House", "18", "36"));
    assert!(add_recipe_args(&args(&["--recipe", "House", "-h"])).unwrap().is_none());
    let e = add_recipe_args(&args(&["--recipe", "House", "--dose", "18"])).unwrap_err();
    assert_eq!(e.error.message(), "Add requires --recipe, --dose, and --shot-weight");
    assert!(e.show_usage);
    let e = add_recipe_args(&args(&["--colour", "red"])).unwrap_err();
    assert_eq!(e.error.message(), "Unknown option for add: --colour");
    assert!(e.show_usage);
    let e = add_recipe_args(&args(&["--recipe"])).unwrap_err();
    assert_eq!(e.error.message(), "Missing value for --recipe");
    assert!(!e.show_usage);
    let e = add_recipe_args(&args(&["--recipe", "A", "--dose", "x", "--shot-weight", "36"])).unwrap_err();
    assert_eq!(e.error.message(), "dose must be numeric");
    assert!(!e.show_usage);
}

#[test]
fn sample_arguments() {
    let s = add_sample_args(&args(&["--recipe", "House", "--time", "28s", "--grind", " 12 "])).unwrap().unwrap();
    assert_eq!((s.recipe.as_str(), s.time.as_str(), s.grind.as_str()), ("House", "28", "12"));
    let s = add_sample_args(&args(&["--recipe", "House", "--grind", "8", "--choked"])).unwrap().unwrap();
    assert_eq!(s.time, "0");
    let e = add_sample_args(&args(&["--recipe", "House", "--grind", "8", "--choked", "--time", "3"])).unwrap_err();
    assert_eq!(e.error.message(), "Choked samples record time as 0s and do not accept --time");
    let e = add_sample_args(&args(&["--recipe", "House", "--grind", "8"])).unwrap_err();
    assert_eq!(e.error.message(), "Sample requires --recipe, --grind, and --time");
    let e = add_sample_args(&args(&["--recipe", "House", "--grind", "50", "--time", "20"])).unwrap_err();
    assert_eq!(e.error.message(), "grind must be between 1 and 40");
    assert!(!e.show_usage);
}

#[test]
fn target_arguments() {
    let t = predict_args(&args(&["--recipe", "House", "--time", "30s"])).unwrap().unwrap();
    assert_eq!((t.recipe.as_str(), t.target.as_str()), ("House", "30"));
    assert!(t.output.is_none());
    let e = predict_args(&args(&["--recipe", "House", "--output", "x.svg"])).unwrap_err();
    assert_eq!(e.error.message(), "Unknown option for predict: --output");
    let e = predict_args(&args(&["--recipe", "House", "--time", "soon"])).unwrap_err();
    assert_eq!(e.error.message(), "Target time must be numeric, optionally ending in s");
    let g = graph_args(&args(&["-o", "g.svg", "--recipe", "House", "--time", "25"])).unwrap().unwrap();
    assert_eq!(g.output.as_deref(), Some("g.svg"));
    let e = graph_args(&args(&["--time", "25"])).unwrap_err();
    assert_eq!(e.error.message(), "Graph requires --recipe and --time");
}

#[test]
fn serve_and_remove_arguments() {
    assert_eq!(serve_args(&args(&[])).unwrap().unwrap(), "0.0.0.0:9000");
    assert_eq!(serve_args(&args(&["--port", "8080", "--host", "127.0.0.1"])).unwrap().unwrap(), "127.0.0.1:8080");
    assert_eq!(serve_args(&args(&["--port", "http"])).unwrap_err().error.message(), "port must be numeric");
    assert_eq!(remove_args(&args(&["--recipe", "House"])).unwrap().unwrap(), "House");
    assert_eq!(remove_args(&args(&[])).unwrap_err().error.message(), "Remove requires --recipe");
}

#[test]
fn listing_and_lookup() {
    let data = Data {
        recipes: vec![
            Recipe {
                name: "House".to_string(),
                dose_weight_g: "18".to_string(),
                shot_weight_g: "36".to_string(),
                samples: vec![Sample { recipe: "House".to_string(), time: "28s".to_string(), grind: "12".to_string() }],
            },
            Recipe { name: "Decaf".to_string(), dose_weight_g: "17".to_string(), shot_weight_g: "40".to_string(), samples: vec![] },
        ],
    };
    assert_eq!(
        recipes_listing_text(&data),
        "recipe: House\ndose_weight_g: 18\nshot_weight_g: 36\nsamples:\n  - time: 28s\n    grind: 12\n---\nrecipe: Decaf\ndose_weight_g: 17\nshot_weight_g: 40\n---\n"
    );
    assert_eq!(recipes_listing_text(&Data { recipes: vec![] }), "No coffee recipes found.\n");
    assert_eq!(require_recipe(&data, "Decaf").unwrap(), 1);
    assert_eq!(require_recipe(&data, "X").unwrap_err().message(), "Recipe not found: X");
    assert_eq!(require_recipe_with_samples(&data, "House").unwrap(), 0);
    assert_eq!(require_recipe_with_samples(&data, "Decaf").unwrap_err().message(), "No samples found for recipe: Decaf");
}

#[test]
fn next_walks_in_order() {
    let a = args(&["sample", "--recipe", "", "--choked"]);
    let mut parser = ArgParser::new(&a);
    for expected in ["sample", "--recipe", "", "--choked"] {
        assert_eq!(parser.next(), Some(expected));
    }
    assert_eq!(parser.next(), None);
    assert_eq!(parser.next(), None);
    assert_eq!(parser.index, 4);
}
