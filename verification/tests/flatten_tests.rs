use json_flatten::{
    FlattenError, FlattenedBigint, FlattenedDouble, FlattenedJson, FlattenedString, JsonFlatten,
};

const TEST_INPUT_OBJECT: &str = r#"
    {
        "category": "web",
        "language": "en",
        "title": "XQuery Kick Start",
        "authors": {
            "first": "James McGovern",
            "second": "Per Bothner",
            "third": "Kurt Cagle",
            "fourth": "James Linn",
            "fifth": "Vaidyanathon Nagarajan"
        },
        "year": 2003,
        "price": 49.99
    }
"#;

const TEST_INPUT_ARRAY: &str = r#"
    [
        {
            "category": "web",
            "language": "en",
            "title": "XQuery Kick Start",
            "authors": {
                "first": "James McGovern",
                "second": "Per Bothner",
                "third": "Kurt Cagle",
                "fourth": "James Linn",
                "fifth": "Vaidyanathon Nagarajan"
            },
            "year": 2003,
            "price": 49.99
        },
        {
            "category": "programming",
            "language": "en",
            "title": "The C Programming Language",
            "authors": {
                "first": "Brian Kernighan",
                "second": "Dennis Ritchie"
            },
            "year": 1983,
            "price": 53.60
        }
    ]
"#;

fn strings(xs: &[&str]) -> Vec<String> {
    xs.iter().map(|s| s.to_string()).collect()
}

#[test]
fn test_flatten_object_as_bigint() {
    let res = JsonFlatten::json_flatten_bigint(TEST_INPUT_OBJECT.to_string(), strings(&["$"]))
        .unwrap();
    assert_eq!(
        res,
        vec![
            FlattenedBigint { name: "category".to_string(), value: 0 },
            FlattenedBigint { name: "language".to_string(), value: 0 },
            FlattenedBigint { name: "title".to_string(), value: 0 },
            FlattenedBigint { name: "authors".to_string(), value: 0 },
            FlattenedBigint { name: "year".to_string(), value: 2003 },
            FlattenedBigint { name: "price".to_string(), value: 0 },
        ]
    );

    let res = JsonFlatten::json_flatten_bigint(
        TEST_INPUT_OBJECT.to_string(),
        strings(&["$", "$.authors"]),
    )
    .unwrap();
    assert_eq!(
        res,
        vec![
            FlattenedBigint { name: "category".to_string(), value: 0 },
            FlattenedBigint { name: "language".to_string(), value: 0 },
            FlattenedBigint { name: "title".to_string(), value: 0 },
            FlattenedBigint { name: "authors".to_string(), value: 0 },
            FlattenedBigint { name: "year".to_string(), value: 2003 },
            FlattenedBigint { name: "price".to_string(), value: 0 },
            FlattenedBigint { name: "first".to_string(), value: 0 },
            FlattenedBigint { name: "second".to_string(), value: 0 },
            FlattenedBigint { name: "third".to_string(), value: 0 },
            FlattenedBigint { name: "fourth".to_string(), value: 0 },
            FlattenedBigint { name: "fifth".to_string(), value: 0 },
        ]
    );

    let res = JsonFlatten::json_flatten_bigint(
        TEST_INPUT_OBJECT.to_string(),
        strings(&["$.category"]),
    )
    .unwrap();
    assert_eq!(res.len(), 0);
}

#[test]
fn test_flatten_object_as_double() {
    let res = JsonFlatten::json_flatten_double(TEST_INPUT_OBJECT.to_string(), strings(&["$"]))
        .unwrap();
    assert_eq!(
        res,
        vec![
            FlattenedDouble { name: "category".to_string(), value: 0.0f64.to_bits() },
            FlattenedDouble { name: "language".to_string(), value: 0.0f64.to_bits() },
            FlattenedDouble { name: "title".to_string(), value: 0.0f64.to_bits() },
            FlattenedDouble { name: "authors".to_string(), value: 0.0f64.to_bits() },
            FlattenedDouble { name: "year".to_string(), value: 2003.0f64.to_bits() },
            FlattenedDouble { name: "price".to_string(), value: 49.99f64.to_bits() },
        ]
    );

    let res = JsonFlatten::json_flatten_double(
        TEST_INPUT_OBJECT.to_string(),
        strings(&["$", "$.authors"]),
    )
    .unwrap();
    assert_eq!(
        res,
        vec![
            FlattenedDouble { name: "category".to_string(), value: 0.0f64.to_bits() },
            FlattenedDouble { name: "language".to_string(), value: 0.0f64.to_bits() },
            FlattenedDouble { name: "title".to_string(), value: 0.0f64.to_bits() },
            FlattenedDouble { name: "authors".to_string(), value: 0.0f64.to_bits() },
            FlattenedDouble { name: "year".to_string(), value: 2003.0f64.to_bits() },
            FlattenedDouble { name: "price".to_string(), value: 49.99f64.to_bits() },
            FlattenedDouble { name: "first".to_string(), value: 0.0f64.to_bits() },
            FlattenedDouble { name: "second".to_string(), value: 0.0f64.to_bits() },
            FlattenedDouble { name: "third".to_string(), value: 0.0f64.to_bits() },
            FlattenedDouble { name: "fourth".to_string(), value: 0.0f64.to_bits() },
            FlattenedDouble { name: "fifth".to_string(), value: 0.0f64.to_bits() },
        ]
    );

    let res = JsonFlatten::json_flatten_double(
        TEST_INPUT_OBJECT.to_string(),
        strings(&["$.category"]),
    )
    .unwrap();
    assert_eq!(res.len(), 0);
}

#[test]
fn test_flatten_object_as_string() {
    let res = JsonFlatten::json_flatten_string(TEST_INPUT_OBJECT.to_string(), strings(&["$"]))
        .unwrap();
    assert_eq!(
        res,
        vec![
            FlattenedString { name: "category".to_string(), value: "web".to_string() },
            FlattenedString { name: "language".to_string(), value: "en".to_string() },
            FlattenedString { name: "title".to_string(), value: "XQuery Kick Start".to_string() },
            FlattenedString { name: "authors".to_string(), value: "".to_string() },
            FlattenedString { name: "year".to_string(), value: "".to_string() },
            FlattenedString { name: "price".to_string(), value: "".to_string() },
        ]
    );

    let res = JsonFlatten::json_flatten_string(
        TEST_INPUT_OBJECT.to_string(),
        strings(&["$", "$.authors"]),
    )
    .unwrap();
    assert_eq!(
        res,
        vec![
            FlattenedString { name: "category".to_string(), value: "web".to_string() },
            FlattenedString { name: "language".to_string(), value: "en".to_string() },
            FlattenedString { name: "title".to_string(), value: "XQuery Kick Start".to_string() },
            FlattenedString { name: "authors".to_string(), value: "".to_string() },
            FlattenedString { name: "year".to_string(), value: "".to_string() },
            FlattenedString { name: "price".to_string(), value: "".to_string() },
            FlattenedString { name: "first".to_string(), value: "James McGovern".to_string() },
            FlattenedString { name: "second".to_string(), value: "Per Bothner".to_string() },
            FlattenedString { name: "third".to_string(), value: "Kurt Cagle".to_string() },
            FlattenedString { name: "fourth".to_string(), value: "James Linn".to_string() },
            FlattenedString {
                name: "fifth".to_string(),
                value: "Vaidyanathon Nagarajan".to_string(),
            },
        ]
    );

    let res = JsonFlatten::json_flatten_string(
        TEST_INPUT_OBJECT.to_string(),
        strings(&["$.category"]),
    )
    .unwrap();
    assert_eq!(res.len(), 0);
}

#[test]
fn test_flatten_object_as_json() {
    let res = JsonFlatten::json_flatten_json(TEST_INPUT_OBJECT.to_string(), strings(&["$"]))
        .unwrap();
    assert_eq!(
        res,
        vec![
            FlattenedJson { name: "category".to_string(), value: "\"web\"".to_string() },
            FlattenedJson { name: "language".to_string(), value: "\"en\"".to_string() },
            FlattenedJson { name: "title".to_string(), value: "\"XQuery Kick Start\"".to_string() },
            FlattenedJson {
                name: "authors".to_string(),
                value: "{\"first\":\"James McGovern\",\"second\":\"Per Bothner\",\"third\":\"Kurt Cagle\",\"fourth\":\"James Linn\",\"fifth\":\"Vaidyanathon Nagarajan\"}".to_string(),
            },
            FlattenedJson { name: "year".to_string(), value: "2003".to_string() },
            FlattenedJson { name: "price".to_string(), value: "49.99".to_string() },
        ]
    );

    let res = JsonFlatten::json_flatten_json(
        TEST_INPUT_OBJECT.to_string(),
        strings(&["$", "$.authors"]),
    )
    .unwrap();
    assert_eq!(
        res,
        vec![
            FlattenedJson { name: "category".to_string(), value: "\"web\"".to_string() },
            FlattenedJson { name: "language".to_string(), value: "\"en\"".to_string() },
            FlattenedJson { name: "title".to_string(), value: "\"XQuery Kick Start\"".to_string() },
            FlattenedJson {
                name: "authors".to_string(),
                value: "{\"first\":\"James McGovern\",\"second\":\"Per Bothner\",\"third\":\"Kurt Cagle\",\"fourth\":\"James Linn\",\"fifth\":\"Vaidyanathon Nagarajan\"}".to_string(),
            },
            FlattenedJson { name: "year".to_string(), value: "2003".to_string() },
            FlattenedJson { name: "price".to_string(), value: "49.99".to_string() },
            FlattenedJson { name: "first".to_string(), value: "\"James McGovern\"".to_string() },
            FlattenedJson { name: "second".to_string(), value: "\"Per Bothner\"".to_string() },
            FlattenedJson { name: "third".to_string(), value: "\"Kurt Cagle\"".to_string() },
            FlattenedJson { name: "fourth".to_string(), value: "\"James Linn\"".to_string() },
            FlattenedJson {
                name: "fifth".to_string(),
                value: "\"Vaidyanathon Nagarajan\"".to_string(),
            },
        ]
    );

    let res = JsonFlatten::json_flatten_json(
        TEST_INPUT_OBJECT.to_string(),
        strings(&["$.category"]),
    )
    .unwrap();
    assert_eq!(res.len(), 0);
}

#[test]
fn test_flatten_array_as_bigint() {
    let res = JsonFlatten::json_flatten_bigint(TEST_INPUT_ARRAY.to_string(), strings(&["$"]))
        .unwrap();
    assert_eq!(
        res,
        vec![
            FlattenedBigint { name: "0".to_string(), value: 0 },
            FlattenedBigint { name: "1".to_string(), value: 0 },
        ]
    );

    let res = JsonFlatten::json_flatten_bigint(
        TEST_INPUT_ARRAY.to_string(),
        strings(&["$", "$[0].authors"]),
    )
    .unwrap();
    assert_eq!(
        res,
        vec![
            FlattenedBigint { name: "0".to_string(), value: 0 },
            FlattenedBigint { name: "1".to_string(), value: 0 },
            FlattenedBigint { name: "first".to_string(), value: 0 },
            FlattenedBigint { name: "second".to_string(), value: 0 },
            FlattenedBigint { name: "third".to_string(), value: 0 },
            FlattenedBigint { name: "fourth".to_string(), value: 0 },
            FlattenedBigint { name: "fifth".to_string(), value: 0 },
        ]
    );
}

#[test]
fn test_flatten_array_as_json() {
    let res = JsonFlatten::json_flatten_json(TEST_INPUT_ARRAY.to_string(), strings(&["$"]))
        .unwrap();
    assert_eq!(
        res,
        vec![
            FlattenedJson {
                name: "0".to_string(),
                value: "{\"category\":\"web\",\"language\":\"en\",\"title\":\"XQuery Kick Start\",\"authors\":{\"first\":\"James McGovern\",\"second\":\"Per Bothner\",\"third\":\"Kurt Cagle\",\"fourth\":\"James Linn\",\"fifth\":\"Vaidyanathon Nagarajan\"},\"year\":2003,\"price\":49.99}".to_string(),
            },
            FlattenedJson {
                name: "1".to_string(),
                value: "{\"category\":\"programming\",\"language\":\"en\",\"title\":\"The C Programming Language\",\"authors\":{\"first\":\"Brian Kernighan\",\"second\":\"Dennis Ritchie\"},\"year\":1983,\"price\":53.6}".to_string(),
            },
        ]
    );
}

#[test]
fn test_flatten_string_with_emoji() {
    let res = JsonFlatten::json_flatten_string(
        "{\"validate.\u{1F47F}\": \"foo\"}".to_string(),
        strings(&["$"]),
    )
    .unwrap();
    assert_eq!(
        res,
        vec![FlattenedString { name: "validate.\u{1F47F}".to_string(), value: "foo".to_string() }]
    );
}

#[test]
fn empty_expression_list_means_root() {
    let with_root = JsonFlatten::json_flatten_bigint(
        TEST_INPUT_OBJECT.to_string(),
        strings(&["$"]),
    )
    .unwrap();
    let with_empty =
        JsonFlatten::json_flatten_bigint(TEST_INPUT_OBJECT.to_string(), Vec::new()).unwrap();
    assert_eq!(with_root, with_empty);

    let with_root = JsonFlatten::json_flatten_double(
        TEST_INPUT_OBJECT.to_string(),
        strings(&["$"]),
    )
    .unwrap();
    let with_empty =
        JsonFlatten::json_flatten_double(TEST_INPUT_OBJECT.to_string(), Vec::new()).unwrap();
    assert_eq!(with_root, with_empty);

    let with_root = JsonFlatten::json_flatten_string(
        TEST_INPUT_OBJECT.to_string(),
        strings(&["$"]),
    )
    .unwrap();
    let with_empty =
        JsonFlatten::json_flatten_string(TEST_INPUT_OBJECT.to_string(), Vec::new()).unwrap();
    assert_eq!(with_root, with_empty);

    let with_root = JsonFlatten::json_flatten_json(
        TEST_INPUT_OBJECT.to_string(),
        strings(&["$"]),
    )
    .unwrap();
    let with_empty =
        JsonFlatten::json_flatten_json(TEST_INPUT_OBJECT.to_string(), Vec::new()).unwrap();
    assert_eq!(with_root, with_empty);
}

#[test]
fn malformed_json_fails_with_parse_error() {
    let bad = "{\"a\": ".to_string();
    assert_eq!(
        JsonFlatten::json_flatten_bigint(bad.clone(), strings(&["$"])).unwrap_err(),
        FlattenError::Parse
    );
    assert_eq!(
        JsonFlatten::json_flatten_double(bad.clone(), strings(&["$"])).unwrap_err(),
        FlattenError::Parse
    );
    assert_eq!(
        JsonFlatten::json_flatten_string(bad.clone(), strings(&["$"])).unwrap_err(),
        FlattenError::Parse
    );
    assert_eq!(
        JsonFlatten::json_flatten_json(bad, strings(&["$"])).unwrap_err(),
        FlattenError::Parse
    );
}

#[test]
fn malformed_expression_fails_with_expression_error() {
    let doc = "{\"a\": 1}".to_string();
    let bad = "$[";
    assert_eq!(
        JsonFlatten::json_flatten_bigint(doc.clone(), strings(&[bad])).unwrap_err(),
        FlattenError::Expression
    );
    assert_eq!(
        JsonFlatten::json_flatten_double(doc.clone(), strings(&[bad])).unwrap_err(),
        FlattenError::Expression
    );
    assert_eq!(
        JsonFlatten::json_flatten_string(doc.clone(), strings(&[bad])).unwrap_err(),
        FlattenError::Expression
    );
    assert_eq!(
        JsonFlatten::json_flatten_json(doc.clone(), strings(&[bad])).unwrap_err(),
        FlattenError::Expression
    );
    // A bad expression after a good one still fails the whole call.
    assert_eq!(
        JsonFlatten::json_flatten_bigint(doc, strings(&["$", bad])).unwrap_err(),
        FlattenError::Expression
    );
}

#[test]
fn mixed_scalar_example() {
    let doc = "{\"year\": 2003, \"price\": 49.99, \"title\": \"X\"}".to_string();

    let res = JsonFlatten::json_flatten_bigint(doc.clone(), strings(&["$"])).unwrap();
    assert_eq!(
        res,
        vec![
            FlattenedBigint { name: "year".to_string(), value: 2003 },
            FlattenedBigint { name: "price".to_string(), value: 0 },
            FlattenedBigint { name: "title".to_string(), value: 0 },
        ]
    );

    let res = JsonFlatten::json_flatten_double(doc.clone(), strings(&["$"])).unwrap();
    assert_eq!(
        res,
        vec![
            FlattenedDouble { name: "year".to_string(), value: 2003.0f64.to_bits() },
            FlattenedDouble { name: "price".to_string(), value: 49.99f64.to_bits() },
            FlattenedDouble { name: "title".to_string(), value: 0.0f64.to_bits() },
        ]
    );

    let res = JsonFlatten::json_flatten_string(doc, strings(&["$"])).unwrap();
    assert_eq!(
        res,
        vec![
            FlattenedString { name: "year".to_string(), value: "".to_string() },
            FlattenedString { name: "price".to_string(), value: "".to_string() },
            FlattenedString { name: "title".to_string(), value: "X".to_string() },
        ]
    );
}

#[test]
fn json_rendering_escapes_strings() {
    let doc = "{\"a\": \"line\\nquote\\\" back\\\\ low\\u0001\"}".to_string();
    let res = JsonFlatten::json_flatten_json(doc, strings(&["$"])).unwrap();
    assert_eq!(
        res,
        vec![FlattenedJson {
            name: "a".to_string(),
            value: "\"line\\nquote\\\" back\\\\ low\\u0001\"".to_string(),
        }]
    );
}

#[test]
fn nested_array_indices_are_decimal() {
    let doc = "[10, 11, 12, 13, 14, 15, 16, 17, 18, 19, 20, 21]".to_string();
    let res = JsonFlatten::json_flatten_bigint(doc, strings(&["$"])).unwrap();
    assert_eq!(res.len(), 12);
    for (i, row) in res.iter().enumerate() {
        assert_eq!(row.name, i.to_string());
        assert_eq!(row.value, 10 + i as i64);
    }
}

#[test]
fn scalar_match_yields_no_entries() {
    let doc = "{\"category\": \"web\"}".to_string();
    let res = JsonFlatten::json_flatten_string(doc, strings(&["$.category"])).unwrap();
    assert_eq!(res.len(), 0);
}
