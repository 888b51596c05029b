use recipe_model::{Json, JsonFailure, Recipe, RecipeError, RecipeIngredient, RecipeInstruction, Tag};

const RECIPE_ID: &str = "5f2b1c3e-8d4a-4e6b-9c1d-2a3b4c5d6e7f";
const STEP_ID: &str = "0a1b2c3d-4e5f-4a6b-8c7d-9e0f1a2b3c4d";

fn toast() -> String {
    format!(
        "{{\"id\":\"{}\",\"name\":\"Toast\",\"slug\":\"toast\",\"image\":\"\",\
         \"recipeYield\":\"1\",\"totalTime\":\"5\",\"prepTime\":\"5\",\"performTime\":\"5\",\
         \"description\":\"\",\"orgURL\":\"\",\"tags\":[],\
         \"recipeIngredient\":[{{\"quantity\":2,\"unit\":\"slice\",\"food\":\"bread\",\
         \"note\":\"\",\"isFood\":true,\"disableAmount\":false,\"display\":\"2 slices bread\"}}],\
         \"recipeInstructions\":[{{\"id\":\"{}\",\"title\":\"\",\"text\":\"Toast the bread.\"}}]}}",
        RECIPE_ID, STEP_ID
    )
}

fn uuid_value(s: &str) -> u128 {
    uuid::Uuid::parse_str(s).unwrap().as_u128()
}

fn is_shape_error(r: &Result<Recipe, RecipeError>) -> bool {
    matches!(r, Err(RecipeError::JsonError(JsonFailure::Shape)))
}

#[test]
fn toast_example_loads() {
    let r = Recipe::from_json_slice(toast().as_bytes()).unwrap();
    assert_eq!(r.get_name(), "Toast");
    assert_eq!(r.get_slug(), "toast");
    assert_eq!(r.get_image(), "");
    assert_eq!(r.get_id(), uuid_value(RECIPE_ID));
    assert_eq!(r.get_recipe_yield(), Some("1".to_string()));
    assert_eq!(r.get_total_time(), Some("5".to_string()));
    assert_eq!(r.get_prep_time(), Some("5".to_string()));
    assert_eq!(r.get_perform_time(), Some("5".to_string()));
    assert_eq!(r.get_description(), Some(String::new()));
    assert_eq!(r.get_org_url(), Some(String::new()));
    assert!(r.get_tags().is_empty());
    assert_eq!(r.get_recipe_ingredient().len(), 1);
    let line = &r.get_recipe_ingredient()[0];
    assert_eq!(line.get_display(), "2 slices bread");
    assert_eq!(line.get_quantity().as_f64(), Some(2.0));
    assert_eq!(line.get_unit(), &Some("slice".to_string()));
    assert_eq!(line.get_food(), &Some("bread".to_string()));
    assert_eq!(line.get_note(), "");
    assert!(line.get_is_food());
    assert!(!line.get_disable_amount());
    assert_eq!(line.get_title(), &None);
    assert_eq!(line.get_original_text(), &None);
    assert_eq!(line.get_reference_id(), None);
    assert_eq!(r.get_recipe_instructions().len(), 1);
    let step = &r.get_recipe_instructions()[0];
    assert_eq!(step.get_text(), "Toast the bread.");
    assert_eq!(step.get_title(), "");
    assert_eq!(step.get_id(), uuid_value(STEP_ID));
}

#[test]
fn cook_time_omitted_is_absent() {
    let r = Recipe::from_json_slice(toast().as_bytes()).unwrap();
    assert_eq!(r.get_cook_time(), None);
}

#[test]
fn cook_time_null_is_absent() {
    let text = toast().replacen("\"prepTime\"", "\"cookTime\":null,\"prepTime\"", 1);
    let r = Recipe::from_json_slice(text.as_bytes()).unwrap();
    assert_eq!(r.get_cook_time(), None);
}

#[test]
fn cook_time_given_is_bound() {
    let text = toast().replacen("\"prepTime\"", "\"cookTime\":\"3\",\"prepTime\"", 1);
    let r = Recipe::from_json_slice(text.as_bytes()).unwrap();
    assert_eq!(r.get_cook_time(), Some("3".to_string()));
}

#[test]
fn missing_id_is_shape_error() {
    let text = toast().replacen(&format!("\"id\":\"{}\",", RECIPE_ID), "", 1);
    assert!(!text.contains(RECIPE_ID));
    assert!(is_shape_error(&Recipe::from_json_slice(text.as_bytes())));
}

#[test]
fn missing_ingredient_note_is_shape_error() {
    let text = toast().replacen("\"note\":\"\",", "", 1);
    assert!(is_shape_error(&Recipe::from_json_slice(text.as_bytes())));
}

#[test]
fn missing_tags_is_shape_error() {
    let text = toast().replacen("\"tags\":[],", "", 1);
    assert!(is_shape_error(&Recipe::from_json_slice(text.as_bytes())));
}

#[test]
fn wrong_type_is_shape_error() {
    let text = toast().replacen("\"name\":\"Toast\"", "\"name\":5", 1);
    assert!(is_shape_error(&Recipe::from_json_slice(text.as_bytes())));
}

#[test]
fn malformed_uuid_is_shape_error() {
    let text = toast().replacen(RECIPE_ID, "not-a-uuid", 1);
    assert!(is_shape_error(&Recipe::from_json_slice(text.as_bytes())));
}

#[test]
fn tag_with_bad_id_is_shape_error() {
    let text = toast().replacen(
        "\"tags\":[]",
        "\"tags\":[{\"id\":\"x\",\"name\":\"Quick\",\"slug\":\"quick\"}]",
        1,
    );
    assert!(is_shape_error(&Recipe::from_json_slice(text.as_bytes())));
}

#[test]
fn non_object_is_shape_error() {
    assert!(is_shape_error(&Recipe::from_json_slice(b"[1, 2, 3]")));
}

#[test]
fn extra_member_is_ignored() {
    let text = toast().replacen("\"name\"", "\"extraField\":1,\"name\"", 1);
    let r = Recipe::from_json_slice(text.as_bytes()).unwrap();
    assert_eq!(r.get_name(), "Toast");
    assert_eq!(r.get_recipe_ingredient()[0].get_display(), "2 slices bread");
    assert_eq!(r.get_recipe_instructions()[0].get_text(), "Toast the bread.");
}

#[test]
fn invalid_text_is_syntax_error() {
    let r = Recipe::from_json_slice(b"{\"id\": ");
    assert!(matches!(
        r,
        Err(RecipeError::JsonError(JsonFailure::Syntax(_)))
    ));
}

#[test]
fn invalid_utf8_is_syntax_error() {
    let r = Recipe::from_json_slice(&[0xff, 0xfe, 0x7b]);
    assert!(matches!(
        r,
        Err(RecipeError::JsonError(JsonFailure::Syntax(_)))
    ));
}

#[test]
fn arrays_keep_source_order() {
    let line = |q: u32, name: &str| {
        format!(
            "{{\"quantity\":{},\"note\":\"\",\"isFood\":true,\"disableAmount\":false,\"display\":\"{}\"}}",
            q, name
        )
    };
    let step = |text: &str| format!("{{\"id\":\"{}\",\"title\":\"\",\"text\":\"{}\"}}", STEP_ID, text);
    let text = format!(
        "{{\"id\":\"{}\",\"name\":\"Stack\",\"slug\":\"stack\",\"image\":\"i.png\",\
         \"tags\":[{{\"id\":\"{}\",\"name\":\"B\",\"slug\":\"b\"}},{{\"id\":\"{}\",\"name\":\"A\",\"slug\":\"a\"}}],\
         \"recipeIngredient\":[{},{},{}],\"recipeInstructions\":[{},{},{}]}}",
        RECIPE_ID,
        STEP_ID,
        RECIPE_ID,
        line(3, "c"),
        line(1, "a"),
        line(2, "b"),
        step("third"),
        step("first"),
        step("second")
    );
    let r = Recipe::from_json_slice(text.as_bytes()).unwrap();
    let names: Vec<&str> = r.get_tags().iter().map(|t| t.get_name()).collect();
    assert_eq!(names, vec!["B", "A"]);
    let lines: Vec<&str> = r.get_recipe_ingredient().iter().map(|l| l.get_display()).collect();
    assert_eq!(lines, vec!["c", "a", "b"]);
    let steps: Vec<&str> = r.get_recipe_instructions().iter().map(|s| s.get_text()).collect();
    assert_eq!(steps, vec!["third", "first", "second"]);
    assert_eq!(r.get_recipe_yield(), None);
    assert_eq!(r.get_description(), None);
    assert_eq!(r.get_org_url(), None);
}

fn to_value(j: &Json) -> serde_json::Value {
    match j {
        Json::Null => serde_json::Value::Null,
        Json::Bool(b) => serde_json::Value::Bool(*b),
        Json::Number(n) => serde_json::Value::Number(n.clone()),
        Json::Str(s) => serde_json::Value::String(s.clone()),
        Json::Array(items) => serde_json::Value::Array(items.iter().map(to_value).collect()),
        Json::Object(members) => serde_json::Value::Object(
            members.iter().map(|(k, v)| (k.clone(), to_value(v))).collect(),
        ),
    }
}

fn sample() -> Recipe {
    let tag = Tag::new(7, "Breakfast".to_string(), "breakfast".to_string());
    let line = RecipeIngredient::new(
        serde_json::Number::from(3),
        Some("tbsp".to_string()),
        None,
        "heaped".to_string(),
        true,
        false,
        "3 tbsp sugar".to_string(),
        None,
        Some("3 tbsp sugar, heaped".to_string()),
        Some(uuid_value(STEP_ID)),
    );
    let step = RecipeInstruction::new(11, "Mix".to_string(), "Stir well.".to_string());
    Recipe::new(
        uuid_value(RECIPE_ID),
        "Porridge".to_string(),
        "porridge".to_string(),
        "p.jpg".to_string(),
        Some("2".to_string()),
        None,
        Some("1 min".to_string()),
        Some("4 min".to_string()),
        None,
        Some("Warm.".to_string()),
        vec![tag],
        Some("https://example.org/porridge".to_string()),
        vec![line],
        vec![step, RecipeInstruction::default()],
    )
}

fn assert_same(a: &Recipe, b: &Recipe) {
    assert_eq!(a.get_id(), b.get_id());
    assert_eq!(a.get_name(), b.get_name());
    assert_eq!(a.get_slug(), b.get_slug());
    assert_eq!(a.get_image(), b.get_image());
    assert_eq!(a.get_recipe_yield(), b.get_recipe_yield());
    assert_eq!(a.get_total_time(), b.get_total_time());
    assert_eq!(a.get_prep_time(), b.get_prep_time());
    assert_eq!(a.get_cook_time(), b.get_cook_time());
    assert_eq!(a.get_perform_time(), b.get_perform_time());
    assert_eq!(a.get_description(), b.get_description());
    assert_eq!(a.get_org_url(), b.get_org_url());
    assert_eq!(a.get_tags().len(), b.get_tags().len());
    for (x, y) in a.get_tags().iter().zip(b.get_tags()) {
        assert_eq!(x.get_id(), y.get_id());
        assert_eq!(x.get_name(), y.get_name());
        assert_eq!(x.get_slug(), y.get_slug());
    }
    assert_eq!(a.get_recipe_ingredient().len(), b.get_recipe_ingredient().len());
    for (x, y) in a.get_recipe_ingredient().iter().zip(b.get_recipe_ingredient()) {
        assert_eq!(x.get_quantity(), y.get_quantity());
        assert_eq!(x.get_unit(), y.get_unit());
        assert_eq!(x.get_food(), y.get_food());
        assert_eq!(x.get_note(), y.get_note());
        assert_eq!(x.get_is_food(), y.get_is_food());
        assert_eq!(x.get_disable_amount(), y.get_disable_amount());
        assert_eq!(x.get_display(), y.get_display());
        assert_eq!(x.get_title(), y.get_title());
        assert_eq!(x.get_original_text(), y.get_original_text());
        assert_eq!(x.get_reference_id(), y.get_reference_id());
    }
    assert_eq!(a.get_recipe_instructions().len(), b.get_recipe_instructions().len());
    for (x, y) in a.get_recipe_instructions().iter().zip(b.get_recipe_instructions()) {
        assert_eq!(x.get_id(), y.get_id());
        assert_eq!(x.get_title(), y.get_title());
        assert_eq!(x.get_text(), y.get_text());
    }
}

#[test]
fn round_trip_through_document() {
    let r = sample();
    let back = Recipe::from_json(&r.to_json()).unwrap();
    assert_same(&r, &back);
}

#[test]
fn round_trip_through_text() {
    let r = sample();
    let text = serde_json::to_string(&to_value(&r.to_json())).unwrap();
    assert!(text.contains("\"orgURL\":\"https://example.org/porridge\""));
    assert!(text.contains("\"totalTime\":null"));
    let back = Recipe::from_json_slice(text.as_bytes()).unwrap();
    assert_same(&r, &back);
}

#[test]
fn identifiers_are_written_hyphenated() {
    let text = serde_json::to_string(&to_value(&sample().to_json())).unwrap();
    assert!(text.contains(&format!("\"id\":\"{}\"", RECIPE_ID)));
    assert!(text.contains("\"id\":\"00000000-0000-0000-0000-000000000007\""));
}

#[test]
fn default_instruction_is_empty() {
    let d = RecipeInstruction::default();
    assert_eq!(d.get_id(), 0);
    assert_eq!(d.get_title(), "");
    assert_eq!(d.get_text(), "");
}

#[test]
fn deep_nesting_within_decoder_limit_loads() {
    let mut text = String::new();
    for _ in 0..100 {
        text.push('[');
    }
    for _ in 0..100 {
        text.push(']');
    }
    let j = Json::parse(text.as_bytes()).unwrap();
    assert!(matches!(j, Json::Array(_)));
}

#[test]
fn document_lookup_reads_members() {
    let j = Json::parse(b"{\"a\": true, \"b\": [null, \"x\"]}").unwrap();
    assert!(matches!(recipe_model::json::get_member(&j, "a"), Some(Json::Bool(true))));
    match recipe_model::json::get_member(&j, "b") {
        Some(Json::Array(items)) => {
            assert_eq!(items.len(), 2);
            assert!(matches!(items[0], Json::Null));
            assert!(matches!(&items[1], Json::Str(s) if s == "x"));
        },
        _ => panic!("member b is an array"),
    }
    assert!(recipe_model::json::get_member(&j, "c").is_none());
}
