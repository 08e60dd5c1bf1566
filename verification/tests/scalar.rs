use openai_rs_types::scalar::{JsonText, ModelId, ResponseId};
use openai_rs_types::realtime_enums::RealtimeItemStatus;
use openai_rs_types::json::JsonValue;

#[test]
fn open_enum_preserves_unknown_wire_values() {
    let status = RealtimeItemStatus::from_raw("future_status.v2");
    assert!(!status.is_known());
    assert_eq!(status.unknown_value(), Some("future_status.v2"));
    assert_eq!(status.as_str(), "future_status.v2");
}

#[test]
fn open_enum_uses_known_variants() {
    let status = RealtimeItemStatus::from_raw("in_progress");
    assert!(matches!(status, RealtimeItemStatus::InProgress));
    assert_eq!(status.as_str(), "in_progress");
    assert!(status.is_known());
    assert_eq!(status.unknown_value(), None);
}

#[test]
fn ids_are_transparent_and_do_not_validate_prefixes() {
    let id = ResponseId::new("entirely-new-id-format");
    assert_eq!(id.as_str(), "entirely-new-id-format");
    assert_eq!(ResponseId::new("future:opaque/42").into_string(), "future:opaque/42");
}

#[test]
fn model_id_is_open_and_round_trips() {
    let model = ModelId::new(String::from("ft:gpt-future:org:custom"));
    assert_eq!(model.as_str(), "ft:gpt-future:org:custom");
    assert_eq!(ModelId::gpt_5_6_sol().as_str(), "gpt-5.6-sol");
    assert_eq!(ModelId::gpt_5_6_terra().as_str(), "gpt-5.6-terra");
    assert_eq!(ModelId::gpt_5_6_luna().as_str(), "gpt-5.6-luna");
    assert_eq!(ModelId::gpt_5_6_cyber().as_str(), "gpt-5.6-cyber");
    assert_eq!(ModelId::from_static("gpt-x").into_string(), "gpt-x");
}

#[test]
fn model_id_text_survives_new_as_str_and_into_string() {
    let name = String::from("gpt-future-preview");
    let model = ModelId::new(name.clone());
    assert_eq!(model.as_str(), name);
    assert_eq!(model.into_string(), name);
}

#[test]
fn json_text_wire_decode_is_lazy() {
    let text: JsonText = JsonText::from_raw(r#"{"city":"#);
    assert_eq!(text.as_raw(), r#"{"city":"#);
    assert_eq!(text.as_str(), r#"{"city":"#);
    let cast: JsonText<JsonValue> = text.duplicate().cast();
    assert_eq!(cast.into_raw(), r#"{"city":"#);
}
