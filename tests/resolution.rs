use toml_cfg::emit::{canonical_name, emit};
use toml_cfg::pass::configure;
use toml_cfg::resolve::{check_policies, resolve, resolve_strict, ResolutionError, ResolvedField};
use toml_cfg::schema::{find_entry, Entry, FieldDescriptor, OverrideDocument, Section};
use toml_cfg::strict::strict_mode;
use toml_cfg::text::{contains_text, same_text};
use toml_cfg::value::{parse_value, FieldType, ParsedValue, RawValue};

fn with_default(name: &str, ty: FieldType, value: RawValue) -> FieldDescriptor {
    FieldDescriptor { name: name.to_string(), ty, required: false, default: Some(value) }
}

fn required(name: &str, ty: FieldType) -> FieldDescriptor {
    FieldDescriptor { name: name.to_string(), ty, required: true, default: None }
}

fn entry(name: &str, value: RawValue) -> Entry {
    Entry { name: name.to_string(), value }
}

fn document(identity: &str, entries: Vec<Entry>) -> OverrideDocument {
    OverrideDocument { sections: vec![Section { identity: identity.to_string(), entries }] }
}

fn int_of(field: &ResolvedField) -> i64 {
    match field.value {
        ParsedValue::Int(n) => n,
        _ => panic!("not an integer"),
    }
}

fn str_of(field: &ResolvedField) -> String {
    match &field.value {
        ParsedValue::Str(s) => s.clone(),
        _ => panic!("not a string"),
    }
}

fn buffer_schema() -> Vec<FieldDescriptor> {
    vec![with_default("buffer_size", FieldType::Usize, RawValue::Integer(32))]
}

fn wifi_schema() -> Vec<FieldDescriptor> {
    vec![
        required("wifi_ssid", FieldType::Str),
        with_default("wifi_passkey", FieldType::Str, RawValue::Text(String::new())),
    ]
}

#[test]
fn buffer_size_default_without_document() {
    let out = resolve(&buffer_schema(), "component-a", None).unwrap();
    assert_eq!(out.len(), 1);
    assert_eq!(out[0].name, "buffer_size");
    assert_eq!(int_of(&out[0]), 32);
}

#[test]
fn buffer_size_overridden_by_document() {
    let doc = document("component-a", vec![entry("buffer_size", RawValue::Integer(4096))]);
    let out = resolve(&buffer_schema(), "component-a", Some(&doc)).unwrap();
    assert_eq!(int_of(&out[0]), 4096);
}

#[test]
fn override_for_other_component_is_ignored() {
    let doc = document("component-b", vec![entry("buffer_size", RawValue::Integer(4096))]);
    let out = resolve(&buffer_schema(), "component-a", Some(&doc)).unwrap();
    assert_eq!(int_of(&out[0]), 32);
}

#[test]
fn missing_required_wifi_ssid() {
    let doc = document("component-b", vec![entry("wifi_passkey", RawValue::Text("pw".to_string()))]);
    match resolve(&wifi_schema(), "component-b", Some(&doc)) {
        Err(ResolutionError::MissingRequired { field }) => assert_eq!(field, "wifi_ssid"),
        other => panic!("unexpected {:?}", other),
    }
}

#[test]
fn required_supplied_by_document() {
    let doc = document(
        "component-b",
        vec![
            entry("wifi_passkey", RawValue::Text("pw".to_string())),
            entry("wifi_ssid", RawValue::Text("home".to_string())),
        ],
    );
    let out = resolve(&wifi_schema(), "component-b", Some(&doc)).unwrap();
    assert_eq!(out.len(), 2);
    assert_eq!(out[0].name, "wifi_ssid");
    assert_eq!(str_of(&out[0]), "home");
    assert_eq!(out[1].name, "wifi_passkey");
    assert_eq!(str_of(&out[1]), "pw");
}

#[test]
fn defaults_only_schema_takes_every_default() {
    let schema = vec![
        with_default("a", FieldType::U8, RawValue::Integer(7)),
        with_default("b", FieldType::Bool, RawValue::Boolean(true)),
        with_default("c", FieldType::Str, RawValue::Text("hello".to_string())),
    ];
    let out = resolve(&schema, "x", None).unwrap();
    assert_eq!(out.len(), 3);
    assert_eq!(int_of(&out[0]), 7);
    assert!(matches!(out[1].value, ParsedValue::Bool(true)));
    assert_eq!(str_of(&out[2]), "hello");
}

#[test]
fn both_policies_is_a_conflict() {
    let mut f = required("both", FieldType::U8);
    f.default = Some(RawValue::Integer(1));
    let doc = document("x", vec![entry("both", RawValue::Integer(2))]);
    match resolve(&vec![f], "x", Some(&doc)) {
        Err(ResolutionError::PolicyConflict { field }) => assert_eq!(field, "both"),
        other => panic!("unexpected {:?}", other),
    }
}

#[test]
fn no_policy_is_a_conflict_and_first_one_is_named() {
    let schema = vec![
        required("ok", FieldType::U8),
        FieldDescriptor { name: "neither".to_string(), ty: FieldType::U8, required: false, default: None },
        FieldDescriptor { name: "later".to_string(), ty: FieldType::U8, required: false, default: None },
    ];
    assert_eq!(check_policies(&schema), Some(1));
    match resolve(&schema, "x", None) {
        Err(ResolutionError::PolicyConflict { field }) => assert_eq!(field, "neither"),
        other => panic!("unexpected {:?}", other),
    }
}

#[test]
fn override_of_wrong_type_is_a_parse_error() {
    let doc = document("component-a", vec![entry("buffer_size", RawValue::Text("big".to_string()))]);
    match resolve(&buffer_schema(), "component-a", Some(&doc)) {
        Err(ResolutionError::Parse { field, literal }) => {
            assert_eq!(field, "buffer_size");
            assert!(matches!(literal, RawValue::Text(ref s) if s == "big"));
        }
        other => panic!("unexpected {:?}", other),
    }
}

#[test]
fn malformed_default_is_a_default_parse_error() {
    let schema = vec![with_default("small", FieldType::U8, RawValue::Integer(300))];
    match resolve(&schema, "x", None) {
        Err(ResolutionError::DefaultParse { field }) => assert_eq!(field, "small"),
        other => panic!("unexpected {:?}", other),
    }
}

#[test]
fn strict_mode_without_document_fails() {
    assert!(matches!(
        resolve_strict(&buffer_schema(), "component-a", None, true),
        Err(ResolutionError::DocumentRequired)
    ));
    let out = resolve_strict(&buffer_schema(), "component-a", None, false).unwrap();
    assert_eq!(int_of(&out[0]), 32);
}

#[test]
fn strict_mode_with_document_resolves() {
    let doc = document("component-a", vec![]);
    let out = resolve_strict(&buffer_schema(), "component-a", Some(&doc), true).unwrap();
    assert_eq!(int_of(&out[0]), 32);
}

#[test]
fn strict_signal_is_read_by_substring() {
    assert!(strict_mode(Some("require_cfg_present")));
    assert!(strict_mode(Some("foo,require_cfg_present,bar")));
    assert!(!strict_mode(Some("require_cfg")));
    assert!(!strict_mode(Some("")));
    assert!(!strict_mode(None));
}

#[test]
fn resolving_twice_gives_the_same_values() {
    let doc = document("component-a", vec![entry("buffer_size", RawValue::Integer(4096))]);
    let a = resolve(&buffer_schema(), "component-a", Some(&doc)).unwrap();
    let b = resolve(&buffer_schema(), "component-a", Some(&doc)).unwrap();
    assert_eq!(format!("{:?}", a), format!("{:?}", b));
    assert_eq!(canonical_name("Config"), canonical_name("Config"));
}

#[test]
fn integer_ranges_follow_the_field_type() {
    assert!(parse_value(&RawValue::Integer(255), FieldType::U8).is_some());
    assert!(parse_value(&RawValue::Integer(256), FieldType::U8).is_none());
    assert!(parse_value(&RawValue::Integer(-1), FieldType::Usize).is_none());
    assert!(parse_value(&RawValue::Integer(-128), FieldType::I8).is_some());
    assert!(parse_value(&RawValue::Integer(-129), FieldType::I8).is_none());
    assert!(parse_value(&RawValue::Integer(i64::MAX), FieldType::U64).is_some());
    assert!(parse_value(&RawValue::Integer(i64::MIN), FieldType::I64).is_some());
    assert!(parse_value(&RawValue::Integer(1), FieldType::Bool).is_none());
    assert!(parse_value(&RawValue::Other("1.5".to_string()), FieldType::Str).is_none());
}

#[test]
fn first_entry_with_a_name_counts() {
    let entries = vec![entry("k", RawValue::Integer(1)), entry("k", RawValue::Integer(2))];
    assert!(matches!(find_entry(&entries, "k"), Some(RawValue::Integer(1))));
    assert!(find_entry(&entries, "j").is_none());
}

#[test]
fn text_helpers() {
    assert!(same_text("abc", "abc"));
    assert!(!same_text("abc", "abd"));
    assert!(!same_text("ab", "abc"));
    assert!(contains_text("hello", ""));
    assert!(contains_text("hello", "llo"));
    assert!(!contains_text("hello", "lol"));
}

#[test]
fn canonical_name_is_shouty_snake_case() {
    assert_eq!(canonical_name("Config"), "CONFIG");
    assert_eq!(canonical_name("BufferConfig"), "BUFFER_CONFIG");
    assert_eq!(canonical_name(""), "");
}

#[test]
fn emit_names_and_dependency() {
    let out = resolve(&buffer_schema(), "component-a", None).unwrap();
    let a = emit(out, "LibConfig", Some("/p/cfg.toml".to_string()));
    assert_eq!(a.record_name, "LibConfig");
    assert_eq!(a.const_name, "LIB_CONFIG");
    assert_eq!(a.fields.len(), 1);
    assert_eq!(a.dependency.as_deref(), Some("/p/cfg.toml"));
}

#[test]
fn configure_attaches_dependency_only_for_found_document() {
    let doc = document("component-a", vec![entry("buffer_size", RawValue::Integer(4096))]);
    let a = configure(&buffer_schema(), "Config", "component-a", Some(&doc), Some("/p/cfg.toml".to_string()), None)
        .unwrap();
    assert_eq!(a.const_name, "CONFIG");
    assert_eq!(int_of(&a.fields[0]), 4096);
    assert_eq!(a.dependency.as_deref(), Some("/p/cfg.toml"));
    let b = configure(&buffer_schema(), "Config", "component-a", None, Some("/p/cfg.toml".to_string()), None).unwrap();
    assert!(b.dependency.is_none());
    assert_eq!(int_of(&b.fields[0]), 32);
    let c = configure(&buffer_schema(), "Config", "component-a", None, None, Some("require_cfg_present"));
    assert!(matches!(c, Err(ResolutionError::DocumentRequired)));
}
