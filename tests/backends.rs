use serializable::dummy;
use serializable::json;
use serializable::serializable::{Serializable, SerializableError};
use serializable::serializer::Serializer;
use serializable::toml_backend;
use serializable::yaml;

fn greeting_json() -> serde_json::Value {
    let mut map = serde_json::Map::new();
    map.insert("hello".to_string(), serde_json::Value::String("Hello".to_string()));
    map.insert("world".to_string(), serde_json::Value::String("World".to_string()));
    serde_json::Value::Object(map)
}

fn greeting_toml() -> ::toml::Value {
    let mut table = ::toml::Table::new();
    table.insert("hello".to_string(), ::toml::Value::String("Hello".to_string()));
    table.insert("world".to_string(), ::toml::Value::String("World".to_string()));
    ::toml::Value::Table(table)
}

fn greeting_yaml() -> serde_yaml::Value {
    let mut map = serde_yaml::Mapping::new();
    map.insert(
        serde_yaml::Value::String("hello".to_string()),
        serde_yaml::Value::String("Hello".to_string()),
    );
    map.insert(
        serde_yaml::Value::String("world".to_string()),
        serde_yaml::Value::String("World".to_string()),
    );
    serde_yaml::Value::Mapping(map)
}

#[test]
fn json_encodes_compact_text() {
    let v = greeting_json();
    let text = <serde_json::Value as Serializable<json::Serializer>>::to_string(&v).unwrap();
    assert_eq!(text, r#"{"hello":"Hello","world":"World"}"#);
}

#[test]
fn json_round_trip() {
    let v = greeting_json();
    let text = <serde_json::Value as Serializable<json::Serializer>>::to_string(&v).unwrap();
    let back = <serde_json::Value as Serializable<json::Serializer>>::from_str(&text).unwrap();
    assert_eq!(back, v);
}

#[test]
fn json_pretty_differs_from_plain_and_round_trips() {
    let v = greeting_json();
    let plain = <serde_json::Value as Serializable<json::Serializer>>::to_string(&v).unwrap();
    let pretty = <serde_json::Value as Serializable<json::Serializer>>::to_string_pretty(&v).unwrap();
    assert_eq!(pretty, "{\n  \"hello\": \"Hello\",\n  \"world\": \"World\"\n}");
    assert_ne!(plain, pretty);
    let back = <serde_json::Value as Serializable<json::Serializer>>::from_str(&pretty).unwrap();
    assert_eq!(back, v);
}

#[test]
fn json_pretty_opt_selects_mode() {
    let v = greeting_json();
    let plain = <serde_json::Value as Serializable<json::Serializer>>::to_string_pretty_opt(&v, false).unwrap();
    let pretty = <serde_json::Value as Serializable<json::Serializer>>::to_string_pretty_opt(&v, true).unwrap();
    assert_eq!(plain, r#"{"hello":"Hello","world":"World"}"#);
    assert!(pretty.contains('\n'));
}

#[test]
fn json_malformed_text_is_deserialize_string_error() {
    let r = <serde_json::Value as Serializable<json::Serializer>>::from_str("{\"hello\": ");
    match r {
        Err(SerializableError::DeserializeString { what, err: json::JsonError::Deserialize { .. } }) => {
            assert_eq!(what, "serde_json::Value");
        },
        _ => panic!("expected a deserialize failure"),
    }
}

#[test]
fn json_backend_decode_failure_is_deserialize_kind() {
    let r = <json::Serializer as Serializer>::from_str("not json");
    assert!(matches!(r, Err(json::JsonError::Deserialize { .. })));
}

#[test]
fn toml_encodes_key_value_text() {
    let v = greeting_toml();
    let text = <::toml::Value as Serializable<toml_backend::Serializer>>::to_string(&v).unwrap();
    assert_eq!(text, "hello = \"Hello\"\nworld = \"World\"\n");
}

#[test]
fn toml_round_trip() {
    let v = greeting_toml();
    let text = <::toml::Value as Serializable<toml_backend::Serializer>>::to_string(&v).unwrap();
    let back = <::toml::Value as Serializable<toml_backend::Serializer>>::from_str(&text).unwrap();
    assert_eq!(back, v);
}

#[test]
fn toml_pretty_spreads_arrays_and_round_trips() {
    let mut table = ::toml::Table::new();
    table.insert(
        "nums".to_string(),
        ::toml::Value::Array(vec![::toml::Value::Integer(1), ::toml::Value::Integer(2)]),
    );
    let v = ::toml::Value::Table(table);
    let plain = <::toml::Value as Serializable<toml_backend::Serializer>>::to_string(&v).unwrap();
    let pretty = <::toml::Value as Serializable<toml_backend::Serializer>>::to_string_pretty(&v).unwrap();
    assert_eq!(plain, "nums = [1, 2]\n");
    assert_ne!(plain, pretty);
    assert!(pretty.starts_with("nums = [\n"));
    let back = <::toml::Value as Serializable<toml_backend::Serializer>>::from_str(&pretty).unwrap();
    assert_eq!(back, v);
}

#[test]
fn toml_cannot_encode_a_bare_string() {
    let v = ::toml::Value::String("alone".to_string());
    let r = <::toml::Value as Serializable<toml_backend::Serializer>>::to_string(&v);
    assert!(matches!(r, Err(SerializableError::SerializeString { err: toml_backend::TomlError::Serialize { .. }, .. })));
}

#[test]
fn toml_malformed_text_is_deserialize_error() {
    let r = <toml_backend::Serializer as Serializer>::from_str("hello = ");
    assert!(matches!(r, Err(toml_backend::TomlError::Deserialize { .. })));
}

#[test]
fn yaml_round_trip() {
    let v = greeting_yaml();
    let text = <serde_yaml::Value as Serializable<yaml::Serializer>>::to_string(&v).unwrap();
    assert_eq!(text, "hello: Hello\nworld: World\n");
    let back = <serde_yaml::Value as Serializable<yaml::Serializer>>::from_str(&text).unwrap();
    assert_eq!(back, v);
}

#[test]
fn yaml_pretty_is_plain() {
    let v = greeting_yaml();
    let plain = <serde_yaml::Value as Serializable<yaml::Serializer>>::to_string(&v).unwrap();
    let pretty = <serde_yaml::Value as Serializable<yaml::Serializer>>::to_string_pretty(&v).unwrap();
    assert_eq!(plain, pretty);
    let a = <serde_yaml::Value as Serializable<yaml::Serializer>>::from_str(&plain).unwrap();
    let b = <serde_yaml::Value as Serializable<yaml::Serializer>>::from_str(&pretty).unwrap();
    assert_eq!(a, b);
}

#[test]
fn yaml_malformed_text_is_deserialize_error() {
    let r = <yaml::Serializer as Serializer>::from_str("key: [unclosed");
    assert!(matches!(r, Err(yaml::YamlError::Deserialize { .. })));
}

#[test]
fn dummy_encodes_fixed_text() {
    assert_eq!(<dummy::Serializer<u64> as Serializer>::to_string(&42).unwrap(), "<dummy_text>");
    assert_eq!(<dummy::Serializer<u64> as Serializer>::to_string(&7).unwrap(), "<dummy_text>");
    assert_eq!(<dummy::Serializer<u64> as Serializer>::to_string_pretty(&42).unwrap(), "Dummy Text");
}

#[test]
fn dummy_decodes_default_value() {
    assert_eq!(<dummy::Serializer<u64> as Serializer>::from_str("<dummy_text>").unwrap(), 0);
    assert_eq!(<dummy::Serializer<u64> as Serializer>::from_str("{ malformed").unwrap(), 0);
    assert_eq!(<dummy::Serializer<u64> as Serializer>::from_str("").unwrap(), 0);
    assert_eq!(<dummy::Serializer<String> as Serializer>::from_str("anything").unwrap(), "");
}

#[test]
fn dummy_is_not_round_trip() {
    let text = <dummy::Serializer<u64> as Serializer>::to_string(&42).unwrap();
    let back = <dummy::Serializer<u64> as Serializer>::from_str(&text).unwrap();
    assert_ne!(back, 42);
}

#[test]
fn dummy_pretty_and_plain_decode_alike() {
    let plain = <dummy::Serializer<u64> as Serializer>::to_string(&9).unwrap();
    let pretty = <dummy::Serializer<u64> as Serializer>::to_string_pretty(&9).unwrap();
    let a = <dummy::Serializer<u64> as Serializer>::from_str(&plain).unwrap();
    let b = <dummy::Serializer<u64> as Serializer>::from_str(&pretty).unwrap();
    assert_eq!(a, b);
}
