use neighborhood_cli::error::ConfigError;
use neighborhood_cli::release::{
    field_kind, schema_keys, Date, FieldKind, FieldValue, ReleaseDocument, INITIAL_RELEASE_CONFIG,
};

fn value_of(value: &toml_edit::Value) -> FieldValue {
    match value {
        toml_edit::Value::String(s) => FieldValue::Str(s.value().clone()),
        toml_edit::Value::Array(items) => FieldValue::Array(
            items.iter().map(|v| v.as_str().map(String::from)).collect(),
        ),
        toml_edit::Value::Datetime(d) => match (d.value().date, d.value().time) {
            (Some(date), None) => FieldValue::Date(Date { year: date.year, month: date.month, day: date.day }),
            _ => FieldValue::Other,
        },
        _ => FieldValue::Other,
    }
}

fn parse(text: &str) -> Result<ReleaseDocument, String> {
    let doc = text.parse::<toml_edit::DocumentMut>().map_err(|e| e.to_string())?;
    let entries = doc
        .iter()
        .map(|(key, item)| {
            let value = match item {
                toml_edit::Item::Value(v) => value_of(v),
                _ => FieldValue::Other,
            };
            (key.to_string(), value)
        })
        .collect();
    Ok(ReleaseDocument { entries })
}

fn text(s: &str) -> FieldValue {
    FieldValue::Str(s.to_string())
}

fn complete() -> Vec<(String, FieldValue)> {
    schema_keys()
        .into_iter()
        .map(|key| {
            let value = match key {
                "screenshots" => FieldValue::Array(vec![Some("https://x/a.png".to_string())]),
                "birthday" => FieldValue::Date(Date { year: 2000, month: 1, day: 1 }),
                "addressLine2" => text(""),
                other => text(&format!("{other} value")),
            };
            (key.to_string(), value)
        })
        .collect()
}

#[test]
fn template_is_refused() {
    let doc = parse(INITIAL_RELEASE_CONFIG).unwrap();
    assert_eq!(doc.validate(), Err(ConfigError::EmptyField("codeUrl".to_string())));
}

#[test]
fn template_has_no_new_screenshots() {
    let mut doc = parse(INITIAL_RELEASE_CONFIG).unwrap();
    let before = doc.entries.len();
    assert!(doc.take_new_screenshot_paths().is_empty());
    assert_eq!(doc.entries.len(), before);
}

#[test]
fn complete_document_is_accepted() {
    let doc = ReleaseDocument { entries: complete() };
    assert_eq!(doc.validate(), Ok(()));
}

#[test]
fn missing_field_is_named() {
    let entries = complete().into_iter().filter(|(k, _)| k != "city").collect();
    let doc = ReleaseDocument { entries };
    assert_eq!(doc.validate(), Err(ConfigError::MissingField("city".to_string())));
}

#[test]
fn first_missing_in_schema_order() {
    let entries = complete().into_iter().filter(|(k, _)| k != "zipCode" && k != "description").collect();
    let doc = ReleaseDocument { entries };
    assert_eq!(doc.validate(), Err(ConfigError::MissingField("description".to_string())));
}

#[test]
fn empty_screenshot_is_named() {
    let mut entries = complete();
    for (k, v) in entries.iter_mut() {
        if k == "screenshots" {
            *v = FieldValue::Array(vec![Some("https://x/a.png".to_string()), Some(String::new()), Some(String::new())]);
        }
    }
    let doc = ReleaseDocument { entries };
    assert_eq!(doc.validate(), Err(ConfigError::EmptyScreenshot(1)));
}

#[test]
fn wrong_kinds_are_refused() {
    let doc = parse("codeUrl = 5\n").unwrap();
    assert_eq!(doc.validate(), Err(ConfigError::InvalidType("codeUrl".to_string())));
    let doc = parse("screenshots = [\"a\", 3]\n").unwrap();
    assert_eq!(doc.validate(), Err(ConfigError::InvalidType("screenshots".to_string())));
    let doc = parse("birthday = \"2000-01-01\"\n").unwrap();
    assert_eq!(doc.validate(), Err(ConfigError::InvalidType("birthday".to_string())));
}

#[test]
fn first_bad_value_in_written_order() {
    let doc = parse("city = \"\"\ncodeUrl = \"\"\n").unwrap();
    assert_eq!(doc.validate(), Err(ConfigError::EmptyField("city".to_string())));
}

#[test]
fn unknown_keys_are_ignored() {
    let mut entries = complete();
    entries.push(("somethingElse".to_string(), FieldValue::Other));
    entries.push(("newScreenshotPaths".to_string(), FieldValue::Other));
    assert_eq!(ReleaseDocument { entries }.validate(), Ok(()));
}

#[test]
fn empty_document_misses_first_key() {
    let doc = parse("").unwrap();
    assert_eq!(doc.validate(), Err(ConfigError::MissingField("codeUrl".to_string())));
}

#[test]
fn new_screenshots_taken_out() {
    let mut doc = parse("a = 1\nnewScreenshotPaths = [\"x.png\", 4, \"y.png\"]\nb = 2\n").unwrap();
    assert_eq!(doc.take_new_screenshot_paths(), vec!["x.png".to_string(), "y.png".to_string()]);
    let keys: Vec<&str> = doc.entries.iter().map(|(k, _)| k.as_str()).collect();
    assert_eq!(keys, vec!["a", "b"]);
}

#[test]
fn uploaded_urls_merged() {
    let mut doc = parse("screenshots = [\"https://x/old.png\"]\ncity = \"c\"\n").unwrap();
    doc.merge_screenshots(vec!["https://x/new.png".to_string(), String::new(), "https://x/b.png".to_string()]);
    assert_eq!(
        doc.entries[0].1,
        FieldValue::Array(vec![
            Some("https://x/old.png".to_string()),
            Some("https://x/new.png".to_string()),
            Some("https://x/b.png".to_string()),
        ])
    );
    assert_eq!(doc.entries[1], ("city".to_string(), text("c")));
}

#[test]
fn merge_without_array_changes_nothing() {
    let mut doc = parse("screenshots = \"none\"\n").unwrap();
    doc.merge_screenshots(vec!["https://x/new.png".to_string()]);
    assert_eq!(doc.entries[0].1, text("none"));
}

#[test]
fn schema_kinds() {
    assert_eq!(field_kind(&"codeUrl".to_string()), Some(FieldKind::NonEmpty));
    assert_eq!(field_kind(&"whatAreWeDoingWell".to_string()), Some(FieldKind::NonEmpty));
    assert_eq!(field_kind(&"screenshots".to_string()), Some(FieldKind::NonEmptyList));
    assert_eq!(field_kind(&"addressLine2".to_string()), Some(FieldKind::Text));
    assert_eq!(field_kind(&"birthday".to_string()), Some(FieldKind::Date));
    assert_eq!(field_kind(&"newScreenshotPaths".to_string()), None);
    assert_eq!(schema_keys().len(), 18);
}
