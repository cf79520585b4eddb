use coffee_hit::json::{
    decimal_string, is_choked_sample, json_error, json_string_into, prediction_note, recipe_json,
    selected_recipe_index, svg_escape, web_state_json,
};
use coffee_hit::number::numeric_value;
use coffee_hit::prediction::{
    prediction_json, prediction_report, sample_indices, CurveFit, LineFit, ModelFit, SampleKind,
};
use coffee_hit::store::{Data, Recipe, Sample};

fn sample(time: &str, grind: &str) -> Sample {
    Sample { recipe: "Test".to_string(), time: time.to_string(), grind: grind.to_string() }
}

fn test_recipe(samples: Vec<Sample>) -> Recipe {
    Recipe { name: "Test".to_string(), dose_weight_g: "18".to_string(), shot_weight_g: "36".to_string(), samples }
}

#[test]
fn json_strings_are_escaped() {
    let mut out = String::from("x=");
    json_string_into(&mut out, "a\"b\\c\nd\re\tf\u{1}g\u{7f}h\u{85}é");
    assert_eq!(out, "x=\"a\\\"b\\\\c\\nd\\re\\tf\\u0001g\\u007fh\\u0085é\"");
    assert_eq!(json_error("Not found"), "{\"error\":\"Not found\"}");
}

#[test]
fn decimal_numbers() {
    assert_eq!(decimal_string(0), "0");
    assert_eq!(decimal_string(7), "7");
    assert_eq!(decimal_string(1024), "1024");
    assert_eq!(decimal_string(usize::MAX), usize::MAX.to_string());
}

#[test]
fn choked_samples() {
    assert!(is_choked_sample(&sample("0s", "8")));
    assert!(is_choked_sample(&sample(" 0.00 s", "8")));
    assert!(is_choked_sample(&sample("-0s", "8")));
    assert!(!is_choked_sample(&sample("28s", "8")));
    assert!(!is_choked_sample(&sample("", "8")));
    assert!(!is_choked_sample(&sample("0.001s", "8")));
    // below half the smallest subnormal double, the time reads as zero
    let tiny = format!("0.{}1s", "0".repeat(330));
    assert!(is_choked_sample(&sample(&tiny, "8")));
    let small = format!("0.{}1s", "0".repeat(320));
    assert!(!is_choked_sample(&sample(&small, "8")));
}

fn number(text: &str) -> f64 {
    numeric_value(text).parse::<f64>().unwrap()
}

#[test]
fn choked_samples_are_markers_not_model_points() {
    let recipe = test_recipe(vec![sample("0s", "8"), sample("28s", "12")]);
    let points: Vec<(f64, f64)> = sample_indices(&recipe, SampleKind::ModelPoint)
        .into_iter()
        .map(|i| (number(&recipe.samples[i].grind), number(&recipe.samples[i].time)))
        .collect();
    let choked: Vec<f64> = sample_indices(&recipe, SampleKind::ChokeMarker)
        .into_iter()
        .map(|i| number(&recipe.samples[i].grind))
        .collect();
    assert_eq!(points, vec![(12.0, 28.0)]);
    assert_eq!(choked, vec![8.0]);
}

#[test]
fn sample_kinds() {
    let recipe = test_recipe(vec![
        sample("0s", "8"),
        sample("28s", "12"),
        sample("-3s", "9"),
        sample("25s", "fine"),
        sample("", "10"),
        sample("-0s", "x"),
        sample("31 s", ""),
    ]);
    assert_eq!(sample_indices(&recipe, SampleKind::ModelPoint), vec![1]);
    assert_eq!(sample_indices(&recipe, SampleKind::ChokeMarker), vec![0]);
    assert_eq!(sample_indices(&recipe, SampleKind::CountedShot), vec![1, 2, 3, 6]);
    assert_eq!(sample_indices(&recipe, SampleKind::CountedPoint), vec![1, 2]);
    assert_eq!(sample_indices(&recipe, SampleKind::UnreadableGrind), vec![3]);
    assert_eq!(sample_indices(&recipe, SampleKind::PositiveTime), vec![1, 3, 6]);
}

fn line() -> LineFit {
    LineFit {
        grind: "18.00".to_string(),
        intercept: "-15.00".to_string(),
        slope: "2.50".to_string(),
        r_squared: "1.00".to_string(),
    }
}

#[test]
fn prediction_json_with_a_model() {
    let recipe = test_recipe(vec![sample("25s", "16"), sample("35s", "20")]);
    let fit = Some(ModelFit {
        line: line(),
        curve: CurveFit { grind: Some("17.60".to_string()), log_model: Some(("1.72".to_string(), "0.08".to_string())) },
        graph_svg: "<svg a=\"b\"/>".to_string(),
    });
    assert_eq!(
        prediction_json(&recipe, "30.00", 2, 2, Some(0), &fit, None),
        "{\"target_seconds\":30.00,\"numeric_sample_count\":2,\"model_sample_count\":2,\"nearest\":{\"time\":\"25s\",\"grind\":\"16\"},\"grind\":18.00,\"curve_grind\":17.60,\"curve_model\":\"ln(time) = 1.72 + 0.08 * grind\",\"r_squared\":1.00,\"model\":\"time = -15.00 + 2.50 * grind\",\"graph_svg\":\"<svg a=\\\"b\\\"/>\",\"graph_error\":null,\"note\":null}"
    );
}

#[test]
fn prediction_json_without_a_model() {
    let recipe = test_recipe(vec![sample("30s", "12"), sample("35s", "12")]);
    assert_eq!(
        prediction_json(&recipe, "30.00", 2, 2, Some(0), &None, Some("same grind")),
        "{\"target_seconds\":30.00,\"numeric_sample_count\":2,\"model_sample_count\":2,\"nearest\":{\"time\":\"30s\",\"grind\":\"12\"},\"grind\":null,\"curve_grind\":null,\"curve_model\":null,\"r_squared\":null,\"model\":null,\"graph_svg\":null,\"graph_error\":\"same grind\",\"note\":\"Use different grind settings to unlock prediction.\"}"
    );
    let empty = test_recipe(vec![]);
    assert_eq!(
        prediction_json(&empty, "30.00", 0, 0, None, &None, None),
        "{\"target_seconds\":30.00,\"numeric_sample_count\":0,\"model_sample_count\":0,\"nearest\":null,\"grind\":null,\"curve_grind\":null,\"curve_model\":null,\"r_squared\":null,\"model\":null,\"graph_svg\":null,\"graph_error\":null,\"note\":\"Log two shots with different grinds to unlock prediction.\"}"
    );
}

#[test]
fn prediction_report_with_a_line() {
    let recipe = test_recipe(vec![sample("25s", "16"), sample("35s", "20")]);
    let curve = CurveFit { grind: Some("17.60".to_string()), log_model: Some(("1.72".to_string(), "0.08".to_string())) };
    assert_eq!(
        prediction_report(&recipe, "30.00", 2, 0, 2, &Some(line()), &curve, Some(1)),
        "recipe: Test\ntarget_time: 30.00s\ndose_weight_g: 18\nshot_weight_g: 36\nsamples_used: 2\nmodel_samples_used: 2\ngrind: 18.00\ngrind_model: time = -15.00 + 2.50 * grind\ngrind_r_squared: 1.00\ncurve_grind: 17.60\ncurve_model: ln(time) = 1.72 + 0.08 * grind\nnearest_sample:\n  time: 35s\n  grind: 20\n"
    );
}

#[test]
fn prediction_report_without_a_line() {
    let recipe = test_recipe(vec![sample("25s", "fine")]);
    let curve = CurveFit { grind: None, log_model: None };
    assert_eq!(
        prediction_report(&recipe, "30.00", 0, 1, 0, &None, &curve, Some(0)),
        "recipe: Test\ntarget_time: 30.00s\ndose_weight_g: 18\nshot_weight_g: 36\nsamples_used: 1\ngrind_note: grind regression requires at least two numeric grind settings\nnearest_sample:\n  time: 25s\n  grind: fine\nprediction_note: add at least two samples with varying numeric grind values to enable regression\n"
    );
}

#[test]
fn recipe_json_text() {
    let recipe = test_recipe(vec![sample("0s", "8"), sample("28s", "12")]);
    assert_eq!(
        recipe_json(&recipe),
        "{\"name\":\"Test\",\"dose_weight_g\":\"18\",\"shot_weight_g\":\"36\",\"sample_count\":2,\"samples\":[{\"index\":0,\"time\":\"0s\",\"grind\":\"8\",\"choked\":true},{\"index\":1,\"time\":\"28s\",\"grind\":\"12\",\"choked\":false}]}"
    );
}

#[test]
fn state_json_text() {
    let data = Data { recipes: vec![test_recipe(vec![]), Recipe { name: "B".to_string(), ..test_recipe(vec![]) }] };
    assert_eq!(selected_recipe_index(&data, Some("B")), Some(1));
    assert_eq!(selected_recipe_index(&data, Some("C")), Some(0));
    assert_eq!(selected_recipe_index(&data, None), Some(0));
    assert_eq!(selected_recipe_index(&Data { recipes: vec![] }, Some("B")), None);
    let json = web_state_json(&data, Some(1), "30.00", Some("{}"));
    assert_eq!(
        json,
        "{\"recipes\":[{\"name\":\"Test\",\"dose_weight_g\":\"18\",\"shot_weight_g\":\"36\",\"sample_count\":0,\"samples\":[]},{\"name\":\"B\",\"dose_weight_g\":\"18\",\"shot_weight_g\":\"36\",\"sample_count\":0,\"samples\":[]}],\"selected_recipe\":\"B\",\"target_time\":\"30.00\",\"prediction\":{}}"
    );
    assert_eq!(
        web_state_json(&Data { recipes: vec![] }, None, "30.00", None),
        "{\"recipes\":[],\"selected_recipe\":null,\"target_time\":\"30.00\",\"prediction\":null}"
    );
}

#[test]
fn svg_text_is_escaped() {
    assert_eq!(svg_escape("Test & Espresso"), "Test &amp; Espresso");
    assert_eq!(svg_escape("<a href=\"x\">'</a>"), "&lt;a href=&quot;x&quot;&gt;&apos;&lt;/a&gt;");
}

#[test]
fn prediction_notes() {
    assert_eq!(prediction_note(0), "Log two shots with different grinds to unlock prediction.");
    assert_eq!(prediction_note(1), "Log one more shot at a different grind to unlock prediction.");
    assert_eq!(prediction_note(5), "Use different grind settings to unlock prediction.");
}

fn read_json_string(literal: &str) -> Option<String> {
    let body = literal.strip_prefix('"')?.strip_suffix('"')?;
    let mut out = String::new();
    let mut chars = body.chars();
    while let Some(c) = chars.next() {
        if c == '\\' {
            match chars.next()? {
                '"' => out.push('"'),
                '\\' => out.push('\\'),
                '/' => out.push('/'),
                'b' => out.push('\u{8}'),
                'f' => out.push('\u{c}'),
                'n' => out.push('\n'),
                'r' => out.push('\r'),
                't' => out.push('\t'),
                'u' => {
                    let hex: String = (0..4).map(|_| chars.next()).collect::<Option<String>>()?;
                    out.push(char::from_u32(u32::from_str_radix(&hex, 16).ok()?)?);
                }
                _ => return None,
            }
        } else if c == '"' || c < ' ' {
            return None;
        } else {
            out.push(c);
        }
    }
    Some(out)
}

#[test]
fn json_string_reads_back() {
    for text in ["Test & Espresso", "quote \" and \\ slash", "line\nbreak\r\ttab", "\u{1}\u{1f}\u{7f}\u{9f}", "é ☕ 𝄞", ""] {
        let mut out = String::new();
        json_string_into(&mut out, text);
        assert_eq!(read_json_string(&out).as_deref(), Some(text));
    }
}

#[test]
fn svg_text_has_no_markup() {
    let escaped = svg_escape("<text x=\"1\" y='2'>a & b</text>");
    assert!(!escaped.contains(['<', '>', '"', '\'']));
    assert_eq!(escaped, "&lt;text x=&quot;1&quot; y=&apos;2&apos;&gt;a &amp; b&lt;/text&gt;");
}
