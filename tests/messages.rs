use serializable::dummy::DummyError;
use serializable::json::JsonError;
use serializable::text::TextError;
use serializable::toml_backend::TomlError;
use serializable::yaml::YamlError;
use serializable::SerializableError;
use std::io;

fn failure() -> io::Error {
    io::Error::new(io::ErrorKind::Other, "boom")
}

#[test]
fn facade_messages_name_operation_type_and_path() {
    let e: SerializableError<DummyError> = SerializableError::FileCreate { path: "out/a.json".to_string(), err: failure() };
    assert_eq!(e.message(), "Failed to create output file 'out/a.json'");
    let e: SerializableError<DummyError> = SerializableError::FileOpen { path: "in.json".to_string(), err: failure() };
    assert_eq!(e.message(), "Failed to open input file 'in.json'");
    let e = SerializableError::SerializeString { what: "Config", err: DummyError::Write { err: failure() } };
    assert_eq!(e.message(), "Failed to serialize Config to a string");
    let e = SerializableError::SerializeWriter { what: "Config", err: DummyError::Write { err: failure() } };
    assert_eq!(e.message(), "Failed to serialize Config to the given writer");
    let e = SerializableError::SerializeFile { what: "Config", path: "c.toml".to_string(), err: DummyError::Write { err: failure() } };
    assert_eq!(e.message(), "Failed to serialize Config to file 'c.toml'");
    let e = SerializableError::DeserializeString { what: "Config", err: DummyError::Read { err: failure() } };
    assert_eq!(e.message(), "Failed to deserialize Config from the given string");
    let e = SerializableError::DeserializeReader { what: "Config", err: DummyError::Read { err: failure() } };
    assert_eq!(e.message(), "Failed to deserialize Config from the given reader");
    let e = SerializableError::DeserializeFile { what: "Config", path: "c.yml".to_string(), err: DummyError::Read { err: failure() } };
    assert_eq!(e.message(), "Failed to deserialize Config from file 'c.yml'");
}

#[test]
fn retagging_moves_stream_failures_to_the_file() {
    let e = SerializableError::SerializeWriter { what: "Config", err: DummyError::Flush { err: failure() } };
    match e.into_file_error("c.json".to_string()) {
        SerializableError::SerializeFile { what, path, err: DummyError::Flush { .. } } => {
            assert_eq!(what, "Config");
            assert_eq!(path, "c.json");
        },
        _ => panic!("expected a file-level failure"),
    }
    let e = SerializableError::DeserializeReader { what: "Config", err: DummyError::Read { err: failure() } };
    assert!(matches!(
        e.into_file_error("c.json".to_string()),
        SerializableError::DeserializeFile { .. }
    ));
    let e = SerializableError::SerializeString { what: "Config", err: DummyError::Write { err: failure() } };
    assert!(matches!(e.into_file_error("c.json".to_string()), SerializableError::SerializeString { .. }));
}

#[test]
fn backend_messages() {
    assert_eq!(DummyError::Write { err: failure() }.message(), "Failed to write to given writer");
    assert_eq!(DummyError::Read { err: failure() }.message(), "Failed to read from given reader");
    assert_eq!(DummyError::Flush { err: failure() }.message(), "Failed to flush the given writer");
    assert_eq!(JsonError::Flush { err: failure() }.message(), "Failed to flush the given writer");
    assert_eq!(YamlError::Write { err: failure() }.message(), "Failed to write to given writer");
    assert_eq!(TomlError::Read { err: failure() }.message(), "Failed to read from given reader");
    assert_eq!(TextError::Deserialize { raw: "x".to_string() }.message(), "Failed to parse the given text");
    let bad = serde_json::from_str::<serde_json::Value>("{").unwrap_err();
    assert_eq!(JsonError::Deserialize { err: bad }.message(), "Failed to deserialize from JSON");
    let bad = serde_yaml::from_str::<serde_yaml::Value>("[").unwrap_err();
    assert_eq!(YamlError::Deserialize { err: bad }.message(), "Failed to deserialize from YAML");
    let bad = toml::from_str::<toml::Value>("a =").unwrap_err();
    assert_eq!(TomlError::Deserialize { err: bad }.message(), "Failed to deserialize from TOML");
    let bad = toml::to_string(&toml::Value::Integer(1)).unwrap_err();
    assert_eq!(TomlError::Serialize { err: bad }.message(), "Failed to serialize to TOML");
}
