use zombodb_options::{
    encode, validate_parsed_url, validate_url, DefaultOptions, IndexRelation, OptionName,
    OptionSet, OptionType, OptionValue, OptionsError, ResolvedIdentity, StringField,
    ZDBIndexOptions, DEFAULT_BATCH_SIZE, DEFAULT_COMPRESSION_LEVEL, DEFAULT_OPTIMIZE_AFTER,
    DEFAULT_REFRESH_INTERVAL, DEFAULT_REPLICAS, DEFAULT_SHARDS, DEFAULT_TYPE_NAME, DEFAULT_URL,
    HEADER_SIZE,
};

fn identity() -> ResolvedIdentity {
    ResolvedIdentity {
        database_name: "pgx_tests".to_string(),
        namespace_name: "public".to_string(),
        table_name: "test".to_string(),
        index_name: "idxtest".to_string(),
        index_id: 16390,
        namespace_id: 2200,
        database_id: 16384,
        table_id: 16387,
    }
}

fn load(block: Option<Vec<u8>>) -> Result<ZDBIndexOptions, OptionsError> {
    ZDBIndexOptions::from(
        IndexRelation {
            is_index: true,
            options: block,
        },
        &DefaultOptions::for_host(),
    )
}

fn host_set() -> OptionSet {
    DefaultOptions::for_host().option_set()
}

fn string_value(s: &str) -> OptionValue {
    OptionValue::Str(s.to_string())
}

#[test]
fn make_idea_happy() {}

#[test]
fn test_validate_url() {
    assert!(validate_url("http://localhost:9200/").is_ok());
}

#[test]
fn test_validate_default_url() {
    assert!(validate_url("default").is_ok());
}

#[test]
fn test_validate_invalid_url() {
    assert!(matches!(
        validate_url("http://localhost:9200"),
        Err(OptionsError::MissingTrailingSlash)
    ));
}

#[test]
fn validate_url_rejects_unparsable_text() {
    match validate_url("not a url/") {
        Err(OptionsError::MalformedUrl(m)) => assert!(!m.is_empty()),
        other => panic!("unexpected verdict {:?}", other),
    }
}

#[test]
fn validate_url_rejects_empty_text() {
    assert!(matches!(validate_url(""), Err(OptionsError::MissingTrailingSlash)));
}

#[test]
fn validate_parsed_url_follows_the_parse_result() {
    assert!(validate_parsed_url("default", Err("x".to_string())).is_ok());
    assert!(validate_parsed_url("http://a/", Ok(())).is_ok());
    match validate_parsed_url("http://a/", Err("bad".to_string())) {
        Err(OptionsError::MalformedUrl(m)) => assert_eq!(m, "bad"),
        other => panic!("unexpected verdict {:?}", other),
    }
    assert!(matches!(
        validate_parsed_url("http://a", Ok(())),
        Err(OptionsError::MissingTrailingSlash)
    ));
}

#[test]
fn test_index_options() {
    let mut set = host_set();
    assert!(set.set(OptionName::Url, string_value("http://localhost:9200/")));
    assert!(set.set(OptionName::TypeName, string_value("test_type_name")));
    assert!(set.set(OptionName::Alias, string_value("test_alias")));
    assert!(set.set(OptionName::Uuid, string_value("test_uuid")));
    assert!(set.set(OptionName::RefreshInterval, string_value("5s")));
    let options = load(Some(encode(&set))).unwrap();
    let id = identity();
    assert_eq!(&options.url().unwrap(), "http://localhost:9200/");
    assert_eq!(&options.index_type_name().unwrap(), "test_type_name");
    assert_eq!(&options.alias(&id).unwrap(), "test_alias");
    assert_eq!(&options.uuid(&id).unwrap(), "test_uuid");
    assert_eq!(&options.refresh_interval().unwrap(), "5s");
    assert_eq!(options.compression_level(), 1);
    assert_eq!(options.shards(), 5);
    assert_eq!(options.replicas(), 0);
    assert_eq!(options.bulk_concurrency(), num_cpus::get() as i32);
    assert_eq!(options.batch_size(), 8 * 1024 * 1024);
    assert_eq!(options.optimize_after(), DEFAULT_OPTIMIZE_AFTER);
    assert_eq!(options.llapi(), false);
}

#[test]
fn test_index_options_defaults() {
    let options = load(None).unwrap();
    let id = identity();
    assert_eq!(&options.url().unwrap(), DEFAULT_URL);
    assert_eq!(&options.index_type_name().unwrap(), DEFAULT_TYPE_NAME);
    assert_eq!(
        &options.alias(&id).unwrap(),
        &format!("pgx_tests.public.test.idxtest-{}", id.index_id)
    );
    assert_eq!(
        &options.uuid(&id).unwrap(),
        &format!(
            "{}.{}.{}.{}",
            id.database_id, id.namespace_id, id.table_id, id.index_id
        )
    );
    assert_eq!(&options.refresh_interval().unwrap(), DEFAULT_REFRESH_INTERVAL);
    assert_eq!(options.compression_level(), DEFAULT_COMPRESSION_LEVEL);
    assert_eq!(options.shards(), DEFAULT_SHARDS);
    assert_eq!(options.replicas(), DEFAULT_REPLICAS);
    assert_eq!(options.bulk_concurrency(), num_cpus::get() as i32);
    assert_eq!(options.batch_size(), DEFAULT_BATCH_SIZE);
    assert_eq!(options.optimize_after(), DEFAULT_OPTIMIZE_AFTER);
    assert_eq!(options.llapi(), false);
}

#[test]
fn defaults_have_documented_values() {
    let options = ZDBIndexOptions::from(
        IndexRelation {
            is_index: true,
            options: None,
        },
        &DefaultOptions::standard(3),
    )
    .unwrap();
    assert_eq!(options.url().unwrap(), "default");
    assert_eq!(options.index_type_name().unwrap(), "doc");
    assert_eq!(options.refresh_interval().unwrap(), "-1");
    assert_eq!(options.compression_level(), 1);
    assert_eq!(options.shards(), 5);
    assert_eq!(options.replicas(), 0);
    assert_eq!(options.batch_size(), 8388608);
    assert_eq!(options.optimize_after(), 0);
    assert_eq!(options.bulk_concurrency(), 3);
    assert!(!options.llapi());
    assert!(options.get_str(StringField::Alias).unwrap().is_none());
    assert!(options.get_str(StringField::Uuid).unwrap().is_none());
}

#[test]
fn host_defaults_count_cpus() {
    let d = DefaultOptions::for_host();
    assert!(d.bulk_concurrency >= 1);
    assert_eq!(d.bulk_concurrency, num_cpus::get() as i32);
}

#[test]
fn round_trip_keeps_every_value() {
    let mut set = DefaultOptions::standard(2).option_set();
    assert!(set.set(OptionName::Url, string_value("http://es.example:9200/")));
    assert!(set.set(OptionName::TypeName, string_value("tÿpe ☃")));
    assert!(set.set(OptionName::RefreshInterval, string_value("")));
    assert!(set.set(OptionName::Alias, string_value("a𝄞")));
    assert!(set.set(OptionName::Uuid, string_value("u")));
    assert!(set.set(OptionName::OptimizeAfter, OptionValue::Int(i32::MAX)));
    assert!(set.set(OptionName::CompressionLevel, OptionValue::Int(9)));
    assert!(set.set(OptionName::Shards, OptionValue::Int(32768)));
    assert!(set.set(OptionName::Replicas, OptionValue::Int(-7)));
    assert!(set.set(OptionName::BulkConcurrency, OptionValue::Int(1)));
    assert!(set.set(OptionName::BatchSize, OptionValue::Int(i32::MIN)));
    assert!(set.set(OptionName::Llapi, OptionValue::Bool(true)));
    let block = encode(&set);
    let options = load(Some(block)).unwrap();
    let id = identity();
    assert_eq!(options.url().unwrap(), "http://es.example:9200/");
    assert_eq!(options.index_type_name().unwrap(), "tÿpe ☃");
    assert_eq!(options.refresh_interval().unwrap(), "");
    assert_eq!(options.alias(&id).unwrap(), "a𝄞");
    assert_eq!(options.uuid(&id).unwrap(), "u");
    assert_eq!(options.index_name(&id).unwrap(), "u");
    assert_eq!(options.optimize_after(), i32::MAX);
    assert_eq!(options.compression_level(), 9);
    assert_eq!(options.shards(), 32768);
    assert_eq!(options.replicas(), -7);
    assert_eq!(options.bulk_concurrency(), 1);
    assert_eq!(options.batch_size(), i32::MIN);
    assert!(options.llapi());
}

#[test]
fn encoded_block_layout() {
    let mut set = DefaultOptions::standard(4).option_set();
    assert!(set.set(OptionName::TypeName, string_value("ab")));
    assert!(set.set(OptionName::Uuid, string_value("é")));
    let block = encode(&set);
    assert_eq!(HEADER_SIZE, 52);
    // header, then "ab\0", then the two bytes of 'é' and a NUL
    assert_eq!(block.len(), 52 + 3 + 3);
    assert_eq!(&block[0..4], &58i32.to_le_bytes());
    assert_eq!(&block[4..8], &0i32.to_le_bytes());
    assert_eq!(&block[8..12], &52i32.to_le_bytes());
    assert_eq!(&block[12..16], &0i32.to_le_bytes());
    assert_eq!(&block[16..20], &0i32.to_le_bytes());
    assert_eq!(&block[20..24], &55i32.to_le_bytes());
    assert_eq!(&block[32..36], &5i32.to_le_bytes());
    assert_eq!(&block[40..44], &4i32.to_le_bytes());
    assert_eq!(&block[44..48], &8388608i32.to_le_bytes());
    assert_eq!(&block[48..52], &[0u8, 0, 0, 0]);
    assert_eq!(&block[52..58], &[b'a', b'b', 0, 0xC3, 0xA9, 0]);
}

#[test]
fn offset_past_the_block_fails() {
    let mut set = host_set();
    assert!(set.set(OptionName::Url, string_value("http://a/")));
    let mut block = encode(&set);
    let len = block.len() as i32;
    block[4..8].copy_from_slice(&len.to_le_bytes());
    let options = load(Some(block)).unwrap();
    assert!(matches!(
        options.url(),
        Err(OptionsError::InvalidOffset(StringField::Url))
    ));
}

#[test]
fn negative_offset_fails() {
    let mut block = encode(&host_set());
    block[8..12].copy_from_slice(&(-4i32).to_le_bytes());
    let options = load(Some(block)).unwrap();
    assert!(matches!(
        options.index_type_name(),
        Err(OptionsError::InvalidOffset(StringField::TypeName))
    ));
}

#[test]
fn missing_terminator_fails() {
    let mut set = host_set();
    assert!(set.set(OptionName::RefreshInterval, string_value("5s")));
    let mut block = encode(&set);
    block.pop();
    let options = load(Some(block)).unwrap();
    assert!(matches!(
        options.refresh_interval(),
        Err(OptionsError::InvalidOffset(StringField::RefreshInterval))
    ));
}

#[test]
fn invalid_utf8_fails() {
    let mut set = host_set();
    assert!(set.set(OptionName::Alias, string_value("xy")));
    let mut block = encode(&set);
    let n = block.len();
    block[n - 3] = 0xFF;
    let options = load(Some(block)).unwrap();
    assert!(matches!(
        options.alias(&identity()),
        Err(OptionsError::InvalidEncoding(StringField::Alias))
    ));
    assert!(matches!(
        options.get_str(StringField::Alias),
        Err(OptionsError::InvalidEncoding(StringField::Alias))
    ));
}

#[test]
fn relation_that_is_not_an_index_is_refused() {
    let r = ZDBIndexOptions::from(
        IndexRelation {
            is_index: false,
            options: None,
        },
        &DefaultOptions::standard(1),
    );
    assert!(matches!(r, Err(OptionsError::InvalidRelationKind)));
}

#[test]
fn short_block_is_refused() {
    assert!(matches!(
        load(Some(vec![0u8; 51])),
        Err(OptionsError::TruncatedBlock)
    ));
    assert!(load(Some(vec![0u8; 52])).is_ok());
}

#[test]
fn derived_names_are_deterministic() {
    let a = load(None).unwrap();
    let b = load(None).unwrap();
    let id = identity();
    assert_eq!(a.alias(&id).unwrap(), b.alias(&id).unwrap());
    assert_eq!(a.uuid(&id).unwrap(), b.uuid(&identity()).unwrap());
    assert_eq!(a.alias(&id).unwrap(), "pgx_tests.public.test.idxtest-16390");
    assert_eq!(a.uuid(&id).unwrap(), "16384.2200.16387.16390");
    assert_eq!(a.index_name(&id).unwrap(), "16384.2200.16387.16390");
}

#[test]
fn derived_names_format_edge_numbers() {
    let options = load(None).unwrap();
    let id = ResolvedIdentity {
        database_name: "d".to_string(),
        namespace_name: "n".to_string(),
        table_name: "t".to_string(),
        index_name: "i".to_string(),
        index_id: 0,
        namespace_id: 10,
        database_id: u32::MAX,
        table_id: 9,
    };
    assert_eq!(options.alias(&id).unwrap(), "d.n.t.i-0");
    assert_eq!(options.uuid(&id).unwrap(), "4294967295.10.9.0");
}

#[test]
fn explicit_alias_and_uuid_bypass_derivation() {
    let mut set = host_set();
    assert!(set.set(OptionName::Alias, string_value("test_alias")));
    assert!(set.set(OptionName::Uuid, string_value("test_uuid")));
    let options = load(Some(encode(&set))).unwrap();
    let id = identity();
    assert_eq!(options.alias(&id).unwrap(), "test_alias");
    assert_eq!(options.uuid(&id).unwrap(), "test_uuid");
    assert_eq!(options.index_name(&id).unwrap(), "test_uuid");
}

#[test]
fn set_refuses_a_value_of_another_type() {
    let mut set = host_set();
    assert!(!set.set(OptionName::Shards, OptionValue::Bool(true)));
    assert!(!set.set(OptionName::Url, OptionValue::Int(3)));
    assert!(!set.set(OptionName::Llapi, string_value("on")));
    assert_eq!(set.shards, 5);
    assert!(set.url.is_none());
    assert!(!set.llapi);
}

#[test]
fn option_table_matches_the_layout() {
    let all = OptionName::all();
    assert_eq!(all.len(), 12);
    assert_eq!(all[0].name(), "url");
    assert_eq!(all[11].name(), "uuid");
    assert_eq!(OptionName::Url.header_offset(), 4);
    assert_eq!(OptionName::TypeName.header_offset(), 8);
    assert_eq!(OptionName::RefreshInterval.header_offset(), 12);
    assert_eq!(OptionName::Alias.header_offset(), 16);
    assert_eq!(OptionName::Uuid.header_offset(), 20);
    assert_eq!(OptionName::OptimizeAfter.header_offset(), 24);
    assert_eq!(OptionName::CompressionLevel.header_offset(), 28);
    assert_eq!(OptionName::Shards.header_offset(), 32);
    assert_eq!(OptionName::Replicas.header_offset(), 36);
    assert_eq!(OptionName::BulkConcurrency.header_offset(), 40);
    assert_eq!(OptionName::BatchSize.header_offset(), 44);
    assert_eq!(OptionName::Llapi.header_offset(), 48);
    assert_eq!(OptionName::Llapi.option_type(), OptionType::Bool);
    assert_eq!(OptionName::Alias.option_type(), OptionType::Str);
    assert_eq!(OptionName::Shards.option_type(), OptionType::Int);
    assert_eq!(OptionName::Shards.int_bounds(8), Some((1, 32768)));
    assert_eq!(OptionName::BulkConcurrency.int_bounds(8), Some((1, 8)));
    assert_eq!(OptionName::BatchSize.int_bounds(8), Some((1, 1073741822)));
    assert_eq!(OptionName::CompressionLevel.int_bounds(8), Some((0, 9)));
    assert_eq!(OptionName::OptimizeAfter.int_bounds(8), Some((0, i32::MAX)));
    assert_eq!(OptionName::Url.int_bounds(8), None);
    assert_eq!(OptionName::Url.string_default(), Some("default"));
    assert_eq!(OptionName::TypeName.string_default(), Some("doc"));
    assert_eq!(OptionName::RefreshInterval.string_default(), Some("-1"));
    assert_eq!(OptionName::Alias.string_default(), None);
    let d = DefaultOptions::standard(6);
    assert_eq!(OptionName::BulkConcurrency.int_default(&d), Some(6));
    assert_eq!(OptionName::BatchSize.int_default(&d), Some(8388608));
    assert_eq!(OptionName::Uuid.int_default(&d), None);
}

#[test]
fn cpu_count_becomes_bulk_concurrency() {
    assert_eq!(DefaultOptions::for_cpu_count(0).bulk_concurrency, 1);
    assert_eq!(DefaultOptions::for_cpu_count(1).bulk_concurrency, 1);
    assert_eq!(DefaultOptions::for_cpu_count(8).bulk_concurrency, 8);
    assert_eq!(
        DefaultOptions::for_cpu_count(i32::MAX as usize).bulk_concurrency,
        i32::MAX
    );
    assert_eq!(
        DefaultOptions::for_cpu_count(usize::MAX).bulk_concurrency,
        i32::MAX
    );
    let d = DefaultOptions::for_cpu_count(12);
    assert_eq!(d.shards, 5);
    assert_eq!(d.replicas, 0);
    assert_eq!(d.compression_level, 1);
    assert_eq!(d.batch_size, 8388608);
    assert_eq!(d.optimize_after, 0);
}

#[test]
fn only_the_url_is_validated() {
    for name in OptionName::all() {
        assert_eq!(name.validated(), name == OptionName::Url);
    }
}

#[test]
fn options_are_found_by_name() {
    for name in OptionName::all() {
        assert_eq!(OptionName::from_name(name.name()), Some(name));
    }
    assert_eq!(OptionName::from_name("shards"), Some(OptionName::Shards));
    assert_eq!(OptionName::from_name("Shards"), None);
    assert_eq!(OptionName::from_name(""), None);
    assert_eq!(OptionName::from_name("fillfactor"), None);
}

#[test]
fn from_pairs_keeps_defaults_of_omitted_options() {
    let defaults = DefaultOptions::for_cpu_count(6);
    let pairs = vec![
        (OptionName::Shards, OptionValue::Int(3)),
        (OptionName::Url, string_value("http://a:9200/")),
        (OptionName::Shards, OptionValue::Int(11)),
        (OptionName::Replicas, OptionValue::Bool(true)),
        (OptionName::Llapi, OptionValue::Bool(true)),
    ];
    let set = OptionSet::from_pairs(defaults.option_set(), &pairs);
    assert_eq!(set.shards, 11);
    assert!(set.llapi);
    let options = ZDBIndexOptions::from(
        IndexRelation {
            is_index: true,
            options: Some(encode(&set)),
        },
        &defaults,
    )
    .unwrap();
    assert_eq!(options.url().unwrap(), "http://a:9200/");
    assert_eq!(options.shards(), 11);
    assert!(options.llapi());
    assert_eq!(options.replicas(), 0);
    assert_eq!(options.bulk_concurrency(), 6);
    assert_eq!(options.batch_size(), 8388608);
    assert_eq!(options.compression_level(), 1);
    assert_eq!(options.optimize_after(), 0);
    assert_eq!(options.index_type_name().unwrap(), "doc");
    assert_eq!(options.refresh_interval().unwrap(), "-1");
    assert!(options.get_str(StringField::Alias).unwrap().is_none());
}
