use openai_rs_types::json::{JsonObject, JsonValue};
use openai_rs_types::structured::{
    normalize_strict_schema, validate_name, StructuredError, MAX_REF_INLINE_NODES,
};
use openai_rs_types::structured_output::{StructuredOutput, TypedFunction};
use serde_json::Value;

fn lib_value(value: &Value) -> JsonValue {
    match value {
        Value::Null => JsonValue::Null,
        Value::Bool(b) => JsonValue::Bool(*b),
        Value::Number(n) => JsonValue::Number(n.to_string()),
        Value::String(s) => JsonValue::String(s.clone()),
        Value::Array(items) => JsonValue::Array(items.iter().map(lib_value).collect()),
        Value::Object(members) => {
            let mut object = JsonObject::new();
            for (key, member) in members {
                object.insert(key.clone(), lib_value(member));
            }
            JsonValue::Object(object)
        }
    }
}

fn serde_value(value: &JsonValue) -> Value {
    match value {
        JsonValue::Null => Value::Null,
        JsonValue::Bool(b) => Value::Bool(*b),
        JsonValue::Number(n) => serde_json::from_str(n).expect("number text"),
        JsonValue::String(s) => Value::String(s.clone()),
        JsonValue::Array(items) => Value::Array(items.iter().map(serde_value).collect()),
        JsonValue::Object(object) => {
            let mut members = serde_json::Map::new();
            for index in 0..object.len() {
                members.insert(object.key_at(index).clone(), serde_value(object.value_at(index)));
            }
            Value::Object(members)
        }
    }
}

fn parse(text: &str) -> JsonValue {
    lib_value(&serde_json::from_str::<Value>(text).expect("fixture"))
}

fn json(text: &str) -> Value {
    serde_json::from_str(text).expect("fixture")
}

fn normalize(text: &str) -> Result<Value, StructuredError> {
    let mut schema = parse(text);
    normalize_strict_schema(&mut schema).map(|()| serde_value(&schema))
}

fn assert_no_ref_with_siblings(value: &Value) {
    match value {
        Value::Object(object) => {
            if object.contains_key("$ref") {
                assert_eq!(object.len(), 1, "`$ref` must not keep sibling keys, got {object:?}");
            }
            for child in object.values() {
                assert_no_ref_with_siblings(child);
            }
        }
        Value::Array(items) => {
            for child in items {
                assert_no_ref_with_siblings(child);
            }
        }
        _ => {}
    }
}

#[test]
fn unresolvable_sibling_refs_are_rejected_with_path() {
    let error = normalize(
        r##"{
            "type": "object",
            "required": ["broken"],
            "properties": {
                "broken": { "$ref": "#/$defs/Missing", "description": "dangling" }
            }
        }"##,
    )
    .expect_err("dangling ref must fail");
    assert!(matches!(
        &error,
        StructuredError::UnresolvableRef { path, reference }
            if path == "#/properties/broken/$ref" && reference == "#/$defs/Missing"
    ));
}

#[test]
fn sibling_keys_win_over_the_inlined_reference() {
    let schema = normalize(
        r##"{
            "type": "object",
            "required": ["field"],
            "properties": {
                "field": {
                    "$ref": "#/$defs/Inner",
                    "description": "field-level description"
                }
            },
            "$defs": {
                "Inner": {
                    "type": "object",
                    "description": "definition-level description",
                    "properties": { "value": { "type": "string" } },
                    "required": ["value"]
                }
            }
        }"##,
    )
    .expect("inline sibling ref");
    let field = &schema["properties"]["field"];
    assert_eq!(field["description"], "field-level description");
    assert_eq!(field["type"], "object");
    assert_eq!(field["properties"]["value"]["type"], "string");
    assert_eq!(field["required"], json(r#"["value"]"#));
    assert_eq!(field["additionalProperties"], false);
    assert!(field.get("$ref").is_none());
}

#[test]
fn bare_refs_without_siblings_pass_through() {
    let schema = normalize(
        r##"{
            "type": "object",
            "required": ["field"],
            "properties": { "field": { "$ref": "#/$defs/Inner" } },
            "$defs": {
                "Inner": {
                    "type": "object",
                    "properties": { "value": { "type": "string" } },
                    "required": ["value"]
                }
            }
        }"##,
    )
    .expect("bare ref passes through");
    assert_eq!(schema["properties"]["field"], json(r##"{ "$ref": "#/$defs/Inner" }"##));
}

#[test]
fn transitive_ref_cycles_are_detected_through_the_chain() {
    let error = normalize(
        r##"{
            "type": "object",
            "required": ["a"],
            "properties": {
                "a": { "$ref": "#/$defs/A", "description": "entry point" }
            },
            "$defs": {
                "A": {
                    "type": "object",
                    "required": ["b"],
                    "properties": {
                        "b": { "$ref": "#/$defs/B", "description": "to B" }
                    }
                },
                "B": {
                    "type": "object",
                    "required": ["a"],
                    "properties": {
                        "a": { "$ref": "#/$defs/A", "description": "back to A" }
                    }
                }
            }
        }"##,
    )
    .expect_err("cycle must fail");
    assert!(matches!(
        &error,
        StructuredError::RecursiveReference { path, reference }
            if reference == "#/$defs/A"
                && path == "#/properties/a/properties/b/properties/a/$ref"
    ));
}

fn wide_ref_dag(depth: usize) -> Value {
    let mut defs = serde_json::Map::new();
    for level in 0..depth {
        let next = format!("#/$defs/D{}", level + 1);
        let text = format!(
            r#"{{
                "type": "object",
                "required": ["left", "right"],
                "properties": {{
                    "left": {{ "$ref": "{next}", "description": "fan out" }},
                    "right": {{ "$ref": "{next}", "description": "fan out" }}
                }}
            }}"#
        );
        defs.insert(format!("D{level}"), json(&text));
    }
    defs.insert(
        format!("D{depth}"),
        json(r#"{ "type": "object", "required": ["leaf"], "properties": { "leaf": { "type": "string" } } }"#),
    );
    let mut root = json(
        r##"{
            "type": "object",
            "required": ["root"],
            "properties": {
                "root": { "$ref": "#/$defs/D0", "description": "entry point" }
            }
        }"##,
    );
    root.as_object_mut().expect("object").insert("$defs".to_owned(), Value::Object(defs));
    root
}

#[test]
fn wide_ref_dag_trips_the_expansion_budget_instead_of_exploding() {
    let mut schema = lib_value(&wide_ref_dag(40));
    let error = normalize_strict_schema(&mut schema).expect_err("budget must trip");
    assert!(
        matches!(
            &error,
            StructuredError::ExpansionBudgetExceeded { path, budget }
                if *budget == MAX_REF_INLINE_NODES
                    && path.starts_with("#/properties/root/properties/")
                    && path.ends_with("/$ref")
        ),
        "unexpected error: {error:?}"
    );
}

#[test]
fn small_ref_dag_stays_within_the_expansion_budget() {
    let schema = normalize(
        r##"{
            "type": "object",
            "required": ["root"],
            "properties": {
                "root": { "$ref": "#/$defs/A", "description": "entry point" }
            },
            "$defs": {
                "A": {
                    "type": "object",
                    "required": ["left", "right"],
                    "properties": {
                        "left": { "$ref": "#/$defs/B", "description": "shared" },
                        "right": { "$ref": "#/$defs/B", "description": "shared" }
                    }
                },
                "B": {
                    "type": "object",
                    "required": ["leaf"],
                    "properties": { "leaf": { "type": "string" } }
                }
            }
        }"##,
    )
    .expect("small DAG fits the budget");
    assert_no_ref_with_siblings(&schema);
    let root = &schema["properties"]["root"];
    assert_eq!(root["description"], "entry point");
    for branch in ["left", "right"] {
        assert_eq!(root["properties"][branch]["description"], "shared");
        assert_eq!(root["properties"][branch]["properties"]["leaf"]["type"], "string");
    }
}

#[test]
fn root_self_reference_reports_recursion_not_external() {
    let error = normalize(
        r##"{
            "type": "object",
            "required": ["self"],
            "properties": {
                "self": { "$ref": "#" },
                "sibling": { "$ref": "#", "description": "self with sibling" }
            }
        }"##,
    )
    .expect_err("root self-reference must fail");
    assert!(
        matches!(
            &error,
            StructuredError::RecursiveReference { path, reference }
                if reference == "#" && path == "#/properties/self/$ref"
        ),
        "unexpected error: {error:?}"
    );
}

#[test]
fn non_string_refs_are_rejected_with_path() {
    let error = normalize(
        r#"{
            "type": "object",
            "required": ["count"],
            "properties": { "count": { "$ref": 42 } }
        }"#,
    )
    .expect_err("non-string bare ref must fail");
    assert!(matches!(
        &error,
        StructuredError::UnresolvableRef { path, reference }
            if path == "#/properties/count/$ref" && reference == "42"
    ));

    let error = normalize(
        r#"{
            "type": "object",
            "required": ["flag"],
            "properties": {
                "flag": { "$ref": true, "description": "not a pointer" }
            }
        }"#,
    )
    .expect_err("non-string sibling ref must fail");
    assert!(matches!(
        &error,
        StructuredError::UnresolvableRef { path, reference }
            if path == "#/properties/flag/$ref" && reference == "true"
    ));
}

#[test]
fn additional_properties_is_defaulted_only_when_missing() {
    let missing = normalize(r#"{ "type": "object", "properties": { "a": { "type": "string" } } }"#)
        .expect("missing key is defaulted");
    assert_eq!(missing["additionalProperties"], false);

    let explicit = normalize(
        r#"{ "type": "object", "additionalProperties": false, "properties": { "a": { "type": "string" } } }"#,
    )
    .expect("explicit false is kept");
    assert_eq!(explicit["additionalProperties"], false);

    let error = normalize(
        r#"{
            "type": "object",
            "required": ["field"],
            "properties": { "field": { "type": "object", "additionalProperties": true } }
        }"#,
    )
    .expect_err("true must fail");
    assert!(matches!(
        &error,
        StructuredError::UnsupportedKeyword { path, keyword }
            if path == "#/properties/field/additionalProperties"
                && keyword == "additionalProperties"
    ));
}

#[test]
fn rejects_external_references_without_rewriting_them() {
    let mut schema = parse(
        r#"{
            "type": "object",
            "properties": { "item": { "$ref": "https://example.com/schema" } }
        }"#,
    );
    let before = serde_value(&schema);
    let error = normalize_strict_schema(&mut schema).expect_err("external ref must fail");
    assert!(matches!(error, StructuredError::ExternalReference { .. }));
    assert_eq!(serde_value(&schema), before);
}

#[test]
fn rejects_unsupported_keywords() {
    for (keyword, payload) in [
        ("patternProperties", r#"{ ".*": { "type": "string" } }"#),
        ("allOf", "[]"),
        ("oneOf", "[]"),
        ("not", r#"{ "type": "string" }"#),
        ("prefixItems", "[]"),
    ] {
        let mut schema = json(r#"{ "type": "object" }"#);
        schema.as_object_mut().expect("object").insert(keyword.to_owned(), json(payload));
        let mut schema = lib_value(&schema);
        let error = normalize_strict_schema(&mut schema).expect_err("keyword must fail");
        assert!(
            matches!(
                error,
                StructuredError::UnsupportedKeyword { keyword: rejected, .. }
                if rejected == keyword
            ),
            "{keyword} must be rejected"
        );
    }
}

#[test]
fn optional_object_properties_become_required_and_nullable() {
    let schema = normalize(
        r#"{
            "type": "object",
            "properties": {
                "city": { "type": "string" },
                "unit": { "type": "string" }
            },
            "required": ["city"]
        }"#,
    )
    .expect("valid schema");
    assert_eq!(schema["additionalProperties"], false);
    assert_eq!(schema["required"], json(r#"["city", "unit"]"#));
    assert_eq!(schema["properties"]["city"], json(r#"{ "type": "string" }"#));
    let unit = &schema["properties"]["unit"];
    let allows_null = unit["type"] == json(r#"["string", "null"]"#)
        || unit.get("anyOf").is_some_and(|any| any.to_string().contains("null"));
    assert!(allows_null, "optional property must accept null, got {unit}");
}

#[test]
fn non_object_root_is_rejected() {
    let error = normalize(r#"{ "type": "string" }"#).expect_err("root must be an object");
    assert!(matches!(error, StructuredError::RootMustBeObject));
}

#[test]
fn tool_and_format_names_are_checked() {
    assert!(validate_name("get_weather").is_ok());
    assert!(validate_name("a-b_9").is_ok());
    assert!(matches!(validate_name(""), Err(StructuredError::InvalidName(name)) if name.is_empty()));
    assert!(matches!(validate_name("has space"), Err(StructuredError::InvalidName(name)) if name == "has space"));
    assert!(validate_name(&"x".repeat(64)).is_ok());
    assert!(validate_name(&"x".repeat(65)).is_err());
    assert!(validate_name("naïve").is_err());
}

#[test]
fn format_wire_shape_is_automatic() {
    let schema = parse(r#"{ "type": "object", "properties": { "celsius": { "type": "number" } }, "required": ["celsius"] }"#);
    let output = StructuredOutput::<()>::from_schema("weather_result", schema)
        .expect("valid schema")
        .with_description("Weather lookup result");
    let wire = serde_value(&output.to_response_format());
    assert_eq!(wire["type"], "json_schema");
    assert_eq!(wire["strict"], true);
    assert_eq!(wire["name"], "weather_result");
    assert_eq!(wire["description"], "Weather lookup result");
    assert_eq!(wire["schema"]["additionalProperties"], false);
    assert_eq!(output.name(), "weather_result");
    assert_eq!(output.description(), Some("Weather lookup result"));
}

#[test]
fn structured_outputs_refuse_bad_names_and_schemas() {
    let schema = || parse(r#"{ "type": "object", "properties": {} }"#);
    assert!(matches!(
        StructuredOutput::<()>::from_schema("bad name", schema()),
        Err(StructuredError::InvalidName(name)) if name == "bad name"
    ));
    assert!(matches!(
        StructuredOutput::<()>::from_schema("ok", parse(r#"{ "type": "string" }"#)),
        Err(StructuredError::RootMustBeObject)
    ));
    let tool = TypedFunction::<(), ()>::from_schemas(
        "weather",
        parse(r#"{ "type": "object", "properties": { "city": { "type": "string" } } }"#),
        schema(),
    )
    .expect("valid function schema")
    .with_description("Looks up the weather");
    let value = serde_value(&tool.to_tool_value());
    assert_eq!(value["type"], "function");
    assert_eq!(value["name"], "weather");
    assert_eq!(value["strict"], true);
    assert_eq!(value["parameters"]["required"], json(r#"["city"]"#));
    assert_eq!(value["output_schema"]["additionalProperties"], false);
    assert_eq!(value["description"], "Looks up the weather");
    assert!(TypedFunction::<(), ()>::from_schemas("weather", schema(), parse(r#"{ "type": "array" }"#)).is_err());
}

const WEATHER_ARGS_SCHEMA: &str = r##"{
    "$schema": "https://json-schema.org/draft/2020-12/schema",
    "title": "WeatherArgs",
    "type": "object",
    "properties": {
        "city": { "type": "string" },
        "unit": { "type": ["string", "null"] }
    },
    "required": ["city"]
}"##;

const WITH_MAP_SCHEMA: &str = r##"{
    "$schema": "https://json-schema.org/draft/2020-12/schema",
    "title": "WithMap",
    "type": "object",
    "properties": {
        "tags": { "type": "object", "additionalProperties": { "type": "string" } }
    },
    "required": ["tags"]
}"##;

const NESTED_OUTER_SCHEMA: &str = r##"{
    "$schema": "https://json-schema.org/draft/2020-12/schema",
    "title": "NestedOuter",
    "type": "object",
    "properties": {
        "nested": {
            "$ref": "#/$defs/NestedInner",
            "description": "Doc comment that forces schemars to emit `$ref` with a sibling key."
        }
    },
    "required": ["nested"],
    "$defs": {
        "NestedInner": {
            "type": "object",
            "properties": {
                "label": {
                    "type": "string",
                    "description": "Doc comment on the nested definition's field."
                }
            },
            "required": ["label"]
        }
    }
}"##;

const RECURSIVE_ROOT_SCHEMA: &str = r##"{
    "$schema": "https://json-schema.org/draft/2020-12/schema",
    "title": "RecursiveRoot",
    "type": "object",
    "properties": {
        "tree": {
            "$ref": "#/$defs/TreeBranch",
            "description": "Doc comment that forces schemars to emit `$ref` with a sibling key."
        }
    },
    "required": ["tree"],
    "$defs": {
        "TreeBranch": {
            "type": "object",
            "properties": {
                "label": { "type": "string" },
                "child": {
                    "$ref": "#/$defs/TreeBranch",
                    "description": "Doc comment on the recursive field, so the self-`$ref` keeps a sibling key once inlined."
                }
            },
            "required": ["label", "child"]
        }
    }
}"##;

#[test]
fn nested_ref_fields_with_doc_comments_are_inlined() {
    let output = StructuredOutput::<()>::from_schema("nested", parse(NESTED_OUTER_SCHEMA)).expect("valid schema");
    let schema = serde_value(output.schema());
    assert_no_ref_with_siblings(&schema);

    let nested = &schema["properties"]["nested"];
    assert_eq!(nested["description"], "Doc comment that forces schemars to emit `$ref` with a sibling key.");
    assert_eq!(nested["type"], "object");
    assert_eq!(nested["properties"]["label"]["type"], "string");
    assert_eq!(nested["required"], json(r#"["label"]"#));
    assert_eq!(nested["additionalProperties"], false);
    assert_eq!(nested["properties"], schema["$defs"]["NestedInner"]["properties"]);
}

#[test]
fn recursive_sibling_refs_error_instead_of_overflowing() {
    let error = StructuredOutput::<()>::from_schema("tree", parse(RECURSIVE_ROOT_SCHEMA))
        .expect_err("recursive schema must fail, not overflow");
    assert!(
        matches!(
            &error,
            StructuredError::RecursiveReference { path, reference }
                if reference == "#/$defs/TreeBranch"
                    && path == "#/properties/tree/properties/child/$ref"
        ),
        "unexpected error: {error:?}"
    );
}

#[test]
fn map_fields_report_additional_properties_with_path() {
    let error = StructuredOutput::<()>::from_schema("with_map", parse(WITH_MAP_SCHEMA)).expect_err("map schema must fail");
    let StructuredError::UnsupportedKeyword { path, keyword } = &error else {
        panic!("expected UnsupportedKeyword, got {error:?}");
    };
    assert_eq!(keyword, "additionalProperties");
    assert_eq!(path, "#/properties/tags/additionalProperties");
}

#[test]
fn optional_fields_become_required_and_nullable() {
    let output = StructuredOutput::<()>::from_schema("weather", parse(WEATHER_ARGS_SCHEMA)).expect("valid schema");
    let object = serde_value(output.schema());
    assert_eq!(object["additionalProperties"], false);
    assert_eq!(object["required"], json(r#"["city", "unit"]"#));
    let unit = &object["properties"]["unit"];
    let allows_null = unit["type"] == "null"
        || unit["type"].as_array().is_some_and(|types| types.iter().any(|t| t == "null"))
        || unit["anyOf"].as_array().is_some_and(|branches| branches.iter().any(|b| b["type"] == "null"));
    assert!(allows_null, "unit must allow null: {unit}");
}

#[test]
fn nested_object_schemas_come_out_in_strict_form() {
    let schema = normalize(
        r#"{
            "type": "object",
            "properties": {
                "tags": { "type": "array", "items": { "type": "object", "properties": { "k": { "type": "string" } } } },
                "either": { "anyOf": [ { "type": "object", "properties": { "a": { "type": "integer" } } }, { "type": "null" } ] }
            },
            "required": ["tags", "either"],
            "$defs": { "Point": { "type": "object", "properties": { "x": { "type": "number" } } } }
        }"#,
    )
    .expect("valid schema");
    let item = &schema["properties"]["tags"]["items"];
    assert_eq!(item["additionalProperties"], false);
    assert_eq!(item["required"], json(r#"["k"]"#));
    let branch = &schema["properties"]["either"]["anyOf"][0];
    assert_eq!(branch["additionalProperties"], false);
    assert_eq!(branch["required"], json(r#"["a"]"#));
    let point = &schema["$defs"]["Point"];
    assert_eq!(point["additionalProperties"], false);
    assert_eq!(point["required"], json(r#"["x"]"#));
}

#[test]
fn optional_property_that_admits_null_through_any_of_is_not_wrapped_again() {
    let schema = normalize(
        r#"{
            "type": "object",
            "properties": {
                "note": { "anyOf": [ { "type": "string" }, { "type": "null" } ] }
            }
        }"#,
    )
    .expect("valid schema");
    assert_eq!(schema["required"], json(r#"["note"]"#));
    assert_eq!(
        schema["properties"]["note"],
        json(r#"{ "anyOf": [ { "type": "string" }, { "type": "null" } ] }"#)
    );
}
