use openai_rs_types::scalar::FileId;
use openai_rs_types::vector_store_files::{
    filter_kind, CreateVectorStoreFileBatchRequest, CreateVectorStoreFileRequest,
    UpdateVectorStoreFileAttributesRequest, VectorStoreAttributeValue, VectorStoreFileAttributes,
    VectorStoreFilterKind, VectorStoreSearchRequest,
};
use openai_rs_types::vector_stores::{
    CreateVectorStoreRequest, StaticChunkingStrategy, UpdateVectorStoreRequest,
    VectorStoreChunkingStrategyRequest, VectorStoreFileListParams, VectorStoreListLimit,
    VectorStoreListParams, VectorStoreMaxResults, VectorStoreMetadata, VectorStoreSearchQuery,
    VectorStoreValidationError, VectorStoreInitialFileIds, VectorStoreExpirationAfter,
    VectorStoreExpirationAnchor, DEFAULT_VECTOR_STORE_LIST_LIMIT,
    DEFAULT_VECTOR_STORE_SEARCH_RESULTS, MAX_VECTOR_STORE_KEY_CHARS,
    MAX_VECTOR_STORE_PROPERTIES, MAX_VECTOR_STORE_SEARCH_RESULTS, MAX_VECTOR_STORE_VALUE_CHARS,
};
use openai_rs_types::wire::{Nullable, Omittable};

#[test]
fn vector_store_list_limit_requires_at_least_one() {
    assert!(VectorStoreListLimit::new(0).is_err());
    assert_eq!(VectorStoreListLimit::new(1).expect("minimum is valid").get(), 1_u32);
    assert_eq!(VectorStoreListLimit::new(u32::MAX).expect("no invented upper bound").get(), u32::MAX);
    assert_eq!(
        VectorStoreListLimit::new(101)
            .expect("value above the documented prose ceiling stays valid")
            .get(),
        101_u32
    );
    assert_eq!(VectorStoreListParams::new().effective_limit(), DEFAULT_VECTOR_STORE_LIST_LIMIT);
    let above_ceiling = VectorStoreListLimit::new(500).expect("prose-only ceiling");
    assert_eq!(VectorStoreListParams::new().with_limit(above_ceiling).effective_limit(), 500);
    assert_eq!(VectorStoreFileListParams::new().with_limit(above_ceiling).effective_limit(), 500);
    assert!(matches!(
        VectorStoreListLimit::new(0),
        Err(VectorStoreValidationError::InvalidListLimit { limit: 0 })
    ));
}

#[test]
fn attributes_enforce_shape_and_limits_on_decode() {
    let mut attributes = VectorStoreFileAttributes::new();
    attributes
        .insert("tenant", VectorStoreAttributeValue::string("blue").expect("value"))
        .expect("attribute");
    attributes.insert("active", VectorStoreAttributeValue::Boolean(true)).expect("attribute");
    let pairs = attributes.iter();
    assert_eq!(pairs.len(), 2);
    assert_eq!(pairs[0].0, "active");
    assert!(matches!(pairs[0].1, VectorStoreAttributeValue::Boolean(true)));
    assert_eq!(pairs[1].0, "tenant");
    assert!(matches!(pairs[1].1, VectorStoreAttributeValue::String(s) if s == "blue"));

    let too_many = (0..=MAX_VECTOR_STORE_PROPERTIES)
        .map(|index| (format!("k{index}"), VectorStoreAttributeValue::Number(index.to_string())))
        .collect::<Vec<_>>();
    assert!(matches!(
        VectorStoreFileAttributes::from_pairs(too_many),
        Err(VectorStoreValidationError::TooManyProperties { actual, maximum })
            if actual == MAX_VECTOR_STORE_PROPERTIES + 1 && maximum == MAX_VECTOR_STORE_PROPERTIES
    ));
    let long_key = vec![("k".repeat(MAX_VECTOR_STORE_KEY_CHARS + 1), VectorStoreAttributeValue::Boolean(false))];
    assert!(matches!(
        VectorStoreFileAttributes::from_pairs(long_key),
        Err(VectorStoreValidationError::KeyTooLong { .. })
    ));
    let long_value = vec![(
        "k".to_owned(),
        VectorStoreAttributeValue::String("v".repeat(MAX_VECTOR_STORE_VALUE_CHARS + 1)),
    )];
    assert!(matches!(
        VectorStoreFileAttributes::from_pairs(long_value),
        Err(VectorStoreValidationError::ValueTooLong { .. })
    ));
}

#[test]
fn attribute_inserts_replace_and_cap_at_sixteen() {
    let mut attributes = VectorStoreFileAttributes::new();
    for index in 0..MAX_VECTOR_STORE_PROPERTIES {
        let previous = attributes
            .insert(&format!("k{index:02}"), VectorStoreAttributeValue::Number(index.to_string()))
            .expect("room left");
        assert!(previous.is_none());
    }
    assert_eq!(attributes.len(), MAX_VECTOR_STORE_PROPERTIES);
    assert!(matches!(
        attributes.insert("extra", VectorStoreAttributeValue::Boolean(true)),
        Err(VectorStoreValidationError::TooManyProperties { actual: 17, maximum: 16 })
    ));
    let replaced = attributes
        .insert("k03", VectorStoreAttributeValue::Boolean(true))
        .expect("an existing key is replaced");
    assert!(matches!(replaced, Some(VectorStoreAttributeValue::Number(n)) if n == "3"));
    assert!(matches!(attributes.get("k03"), Some(VectorStoreAttributeValue::Boolean(true))));
    assert!(attributes.get("missing").is_none());
    assert_eq!(attributes.len(), MAX_VECTOR_STORE_PROPERTIES);
    assert!(attributes.validate().is_ok());
    assert!(VectorStoreAttributeValue::string(&"v".repeat(MAX_VECTOR_STORE_VALUE_CHARS)).is_ok());
    assert!(VectorStoreAttributeValue::string(&"v".repeat(MAX_VECTOR_STORE_VALUE_CHARS + 1)).is_err());
}

#[test]
fn chunking_schema_range_is_decode_enforced_and_overlap_is_opt_in() {
    assert!(StaticChunkingStrategy::new(99, 0).is_err());
    assert!(StaticChunkingStrategy::new(4097, 0).is_err());
    let oversized = StaticChunkingStrategy::new(800, 401).expect("constructor accepts overlap");
    assert!(matches!(
        oversized.validate(),
        Err(VectorStoreValidationError::InvalidChunkOverlap { overlap: 401, maximum: 800 })
    ));
    let boundary = StaticChunkingStrategy::new(800, 400).expect("boundary accepted");
    boundary.validate().expect("half-overlap is valid");
    let request = VectorStoreChunkingStrategyRequest::static_strategy(boundary);
    request.validate().expect("request strategy validates");
}

#[test]
fn oversized_metadata_decodes_and_request_validate_rejects() {
    let oversized = (0..=MAX_VECTOR_STORE_PROPERTIES)
        .map(|index| (format!("k{index}"), "v".to_owned()))
        .collect::<Vec<_>>();
    let decoded = VectorStoreMetadata::from_pairs(oversized);
    assert_eq!(decoded.len(), MAX_VECTOR_STORE_PROPERTIES + 1);
    let create = CreateVectorStoreRequest::new().with_metadata(decoded).validate();
    assert!(matches!(
        create,
        Err(VectorStoreValidationError::TooManyProperties { actual, .. })
            if actual == MAX_VECTOR_STORE_PROPERTIES + 1
    ));

    let long_key = || VectorStoreMetadata::from_pairs(vec![("k".repeat(MAX_VECTOR_STORE_KEY_CHARS + 1), "v".to_owned())]);
    assert!(matches!(
        CreateVectorStoreRequest::new().with_metadata(long_key()).validate(),
        Err(VectorStoreValidationError::KeyTooLong { .. })
    ));
    assert!(matches!(
        UpdateVectorStoreRequest::new().with_metadata(long_key()).validate(),
        Err(VectorStoreValidationError::KeyTooLong { .. })
    ));
    let long_value = VectorStoreMetadata::from_pairs(vec![("k".to_owned(), "v".repeat(MAX_VECTOR_STORE_VALUE_CHARS + 1))]);
    assert!(matches!(
        CreateVectorStoreRequest::new().with_metadata(long_value).validate(),
        Err(VectorStoreValidationError::ValueTooLong { .. })
    ));
    CreateVectorStoreRequest::new().validate().expect("empty body validates");
    UpdateVectorStoreRequest::new().with_metadata_null().validate().expect("explicit null validates");
}

#[test]
fn create_request_validate_checks_chunking_overlap() {
    let strategy = StaticChunkingStrategy::new(800, 401).expect("constructor accepts overlap");
    let request = CreateVectorStoreRequest::new()
        .with_chunking_strategy(VectorStoreChunkingStrategyRequest::static_strategy(strategy));
    assert!(matches!(request.validate(), Err(VectorStoreValidationError::InvalidChunkOverlap { .. })));
    let auto = CreateVectorStoreRequest::new().with_chunking_strategy(VectorStoreChunkingStrategyRequest::auto());
    auto.validate().expect("auto strategy has no overlap rule");
}

#[test]
fn recursive_filters_route_by_tag() {
    for tag in ["and", "or"] {
        assert_eq!(filter_kind(tag), VectorStoreFilterKind::Compound);
    }
    for tag in ["eq", "ne", "gt", "gte", "lt", "lte", "in", "nin"] {
        assert_eq!(filter_kind(tag), VectorStoreFilterKind::Comparison);
    }
    assert_eq!(filter_kind("starts_with"), VectorStoreFilterKind::Unknown);
}

#[test]
fn attached_file_keeps_required_null_and_optional_attribute_states() {
    let request = CreateVectorStoreFileRequest::new(FileId::new("file-abc"));
    assert!(request.attributes().is_omitted());
    let null_attributes = request.with_attributes_null();
    assert!(matches!(null_attributes.attributes(), Omittable::Value(Nullable::Null)));
    let cleared = null_attributes.clear_attributes();
    assert!(cleared.attributes().is_omitted());
    assert_eq!(cleared.file_id().as_str(), "file-abc");
    assert!(UpdateVectorStoreFileAttributesRequest::clear().attributes().is_null());
    let update = UpdateVectorStoreFileAttributesRequest::new(VectorStoreFileAttributes::new());
    assert!(!update.attributes().is_null());
}

#[test]
fn file_batch_requires_one_input_variant() {
    assert!(matches!(
        CreateVectorStoreFileBatchRequest::from_wire(Omittable::Omitted, Omittable::Omitted, Omittable::Omitted, Omittable::Omitted),
        Err(VectorStoreValidationError::InvalidBatchInputChoice)
    ));
    let request = CreateVectorStoreFileBatchRequest::from_file_ids(vec![FileId::new("file-a")]).expect("valid batch");
    assert!(request.file_ids().as_option().is_some());
    assert!(request.files().is_omitted());

    let null_attributes = CreateVectorStoreFileBatchRequest::from_file_ids(vec![FileId::new("file-a")])
        .expect("valid batch")
        .with_attributes_null()
        .expect("null global attributes");
    assert!(matches!(null_attributes.attributes(), Omittable::Value(Nullable::Null)));

    let per_file = || {
        CreateVectorStoreFileBatchRequest::from_files(vec![CreateVectorStoreFileRequest::new(FileId::new("file-a"))])
            .expect("valid per-file batch")
    };
    assert!(matches!(
        per_file()
            .with_chunking_strategy(VectorStoreChunkingStrategyRequest::auto())
            .expect_err("global chunking rejects per-file form"),
        VectorStoreValidationError::GlobalFieldsWithPerFileBatch
    ));
    let mut attributes = VectorStoreFileAttributes::new();
    attributes.insert("tenant", VectorStoreAttributeValue::Boolean(true)).expect("attribute");
    assert!(matches!(
        per_file().with_attributes(attributes).expect_err("global attributes reject per-file form"),
        VectorStoreValidationError::GlobalFieldsWithPerFileBatch
    ));
    assert!(matches!(
        per_file().with_attributes_null().expect_err("null global attributes reject per-file form"),
        VectorStoreValidationError::GlobalFieldsWithPerFileBatch
    ));
    assert!(matches!(
        CreateVectorStoreFileBatchRequest::from_file_ids(vec![]),
        Err(VectorStoreValidationError::InvalidBatchFileCount { actual: 0, maximum: 2000 })
    ));
}

#[test]
fn per_file_batch_with_global_fields_decodes_but_builders_reject() {
    let files = openai_rs_types::vector_store_files::VectorStoreBatchFiles::new(vec![
        CreateVectorStoreFileRequest::new(FileId::new("file-a")),
    ])
    .expect("one file");
    let decoded = CreateVectorStoreFileBatchRequest::from_wire(
        Omittable::Omitted,
        Omittable::Value(files),
        Omittable::Value(VectorStoreChunkingStrategyRequest::auto()),
        Omittable::Omitted,
    )
    .expect("schema-legal combination");
    assert!(!decoded.files().is_omitted());
    assert!(!decoded.chunking_strategy().is_omitted());

    let mut attributes = VectorStoreFileAttributes::new();
    attributes
        .insert("tenant", VectorStoreAttributeValue::string("blue").expect("value"))
        .expect("attribute");
    let with_globals = CreateVectorStoreFileBatchRequest::from_file_ids(vec![FileId::new("file-a")])
        .expect("valid batch")
        .with_chunking_strategy(VectorStoreChunkingStrategyRequest::auto())
        .expect("bare-ID form accepts globals")
        .with_attributes(attributes)
        .expect("bare-ID form accepts attributes");
    assert!(!with_globals.chunking_strategy().is_omitted());
    assert!(matches!(with_globals.attributes(), Omittable::Value(Nullable::Value(a)) if a.len() == 1));
}

#[test]
fn search_request_validate_closes_the_direct_empty_query_array_hole() {
    let empty = VectorStoreSearchRequest::new(VectorStoreSearchQuery::Texts(Vec::new()));
    assert_eq!(empty.validate(), Err(VectorStoreValidationError::EmptySearchQueries));
    assert_eq!(VectorStoreSearchRequest::new(VectorStoreSearchQuery::Text("single".to_owned())).validate(), Ok(()));
    let multiple = VectorStoreSearchQuery::multiple(vec!["one".to_owned(), "two".to_owned()]).expect("non-empty queries");
    assert_eq!(VectorStoreSearchRequest::new(multiple).validate(), Ok(()));
    assert!(VectorStoreSearchQuery::multiple(vec![]).is_err());
}

#[test]
fn search_request_limits_default_to_ten() {
    let request = VectorStoreSearchRequest::new(VectorStoreSearchQuery::Text("q".to_owned()));
    assert_eq!(request.effective_max_results(), DEFAULT_VECTOR_STORE_SEARCH_RESULTS);
    let limited = request.with_max_results(VectorStoreMaxResults::new(25).expect("maximum")).with_rewrite_query(true);
    assert_eq!(limited.effective_max_results(), 25);
    assert_eq!(limited.rewrite_query(), &Omittable::Value(true));
}

#[test]
fn max_results_bounds_report_the_rejected_actual_value() {
    assert!(matches!(VectorStoreMaxResults::new(0), Err(VectorStoreValidationError::InvalidMaxResults { actual: 0 })));
    assert!(matches!(
        VectorStoreMaxResults::new(MAX_VECTOR_STORE_SEARCH_RESULTS + 1),
        Err(VectorStoreValidationError::InvalidMaxResults { actual: 51 })
    ));
    assert_eq!(
        VectorStoreMaxResults::new(51).expect_err("above the ceiling").message(),
        "vector-store max_num_results must be 1..=50, got 51"
    );
    assert_eq!(
        VectorStoreMaxResults::new(MAX_VECTOR_STORE_SEARCH_RESULTS).expect("ceiling is valid").get(),
        MAX_VECTOR_STORE_SEARCH_RESULTS
    );
}

#[test]
fn validation_messages_keep_their_wording() {
    assert_eq!(
        VectorStoreValidationError::TooManyProperties { actual: 17, maximum: 16 }.message(),
        "vector-store map contains 17 properties; maximum is 16"
    );
    assert_eq!(
        VectorStoreValidationError::InvalidChunkOverlap { overlap: 401, maximum: 800 }.message(),
        "chunk_overlap_tokens 401 exceeds half of max_chunk_size_tokens 800"
    );
    assert_eq!(
        VectorStoreValidationError::InvalidScore { score: "1.5".to_owned() }.message(),
        "vector-store score must be finite and between 0 and 1, got 1.5"
    );
}

#[test]
fn metadata_deserializes_in_stable_map_order() {
    let decoded = VectorStoreMetadata::from_pairs(vec![("z".to_owned(), "last".to_owned()), ("a".to_owned(), "first".to_owned())]);
    let pairs = decoded.iter();
    assert_eq!(pairs, vec![("a", "first"), ("z", "last")]);
}

fn pairs(n: usize) -> Vec<(String, String)> {
    (0..n).map(|i| (format!("k{i:02}"), "v".to_owned())).collect()
}

#[test]
fn metadata_insert_refuses_new_keys_once_sixteen_are_held() {
    let mut decoded = VectorStoreMetadata::from_pairs(pairs(17));
    assert_eq!(decoded.len(), 17);
    assert_eq!(
        decoded.insert("new", "v"),
        Err(VectorStoreValidationError::TooManyProperties { actual: 18, maximum: MAX_VECTOR_STORE_PROPERTIES })
    );
    assert_eq!(decoded.len(), 17);
    assert_eq!(decoded.insert("k03", "w"), Ok(Some("v".to_owned())));
    assert_eq!(decoded.len(), 17);

    let mut full = VectorStoreMetadata::from_pairs(pairs(16));
    assert_eq!(
        full.insert("new", "v"),
        Err(VectorStoreValidationError::TooManyProperties { actual: 17, maximum: MAX_VECTOR_STORE_PROPERTIES })
    );
    let mut room = VectorStoreMetadata::from_pairs(pairs(15));
    assert_eq!(room.insert("new", "v"), Ok(None));
    assert_eq!(room.len(), 16);
    let copy = room.clone();
    assert_eq!(copy.iter(), room.iter());
}

#[test]
fn clones_of_file_id_lists_and_expiration_keep_their_values() {
    let ids = VectorStoreInitialFileIds::new(vec![FileId::new("file-a"), FileId::new("file-b")])
        .expect("two ids");
    let copy = ids.clone();
    let names: Vec<&str> = copy.as_slice().iter().map(|id| id.as_str()).collect();
    assert_eq!(names, vec!["file-a", "file-b"]);
    let expiry = VectorStoreExpirationAfter::from_raw_anchor(
        VectorStoreExpirationAnchor::Unknown("created_at".to_string()),
        30,
    )
    .expect("valid period");
    let copy = expiry.clone();
    assert_eq!(copy.days(), 30);
    assert!(matches!(copy.anchor(), VectorStoreExpirationAnchor::Unknown(s) if s == "created_at"));
}
