use serializable::dummy;
use serializable::job::{LoadJob, LoadState, SaveJob, SaveState};
use serializable::json;
use serializable::serializable::SerializableError;
use serializable::serializer::WriteStep;
use std::io;

fn failure(msg: &str) -> io::Error {
    io::Error::new(io::ErrorKind::Other, msg.to_string())
}

fn number_json() -> serde_json::Value {
    serde_json::Value::from(12)
}

#[test]
fn save_to_writer_writes_encoded_text() {
    let job = SaveJob::<json::Serializer>::to_writer(&number_json(), "number", false, false);
    match &job.state {
        SaveState::Stream(WriteStep::Write(text)) => assert_eq!(text, "12"),
        _ => panic!("expected a write"),
    }
    let job = job.advanced(Ok(()));
    assert!(job.is_done());
    assert!(matches!(job.finish(), Some(Ok(()))));
}

#[test]
fn save_to_writer_flushes_when_asked() {
    let job = SaveJob::<json::Serializer>::to_writer(&number_json(), "number", false, true);
    let job = job.advanced(Ok(()));
    assert!(matches!(job.state, SaveState::Stream(WriteStep::Flush)));
    assert!(!job.is_done());
    let job = job.advanced(Ok(()));
    assert!(matches!(job.finish(), Some(Ok(()))));
}

#[test]
fn write_failure_is_reported_as_write() {
    let job = SaveJob::<json::Serializer>::to_writer(&number_json(), "number", false, true);
    let job = job.advanced(Err(failure("disk full")));
    match job.finish() {
        Some(Err(SerializableError::SerializeWriter { what, err: json::JsonError::Write { err } })) => {
            assert_eq!(what, "number");
            assert_eq!(err.to_string(), "disk full");
        },
        _ => panic!("expected a write failure"),
    }
}

#[test]
fn flush_failure_after_write_is_reported_as_flush() {
    let job = SaveJob::<dummy::Serializer<u64>>::to_writer(&3, "u64", false, true);
    let job = job.advanced(Ok(()));
    let job = job.advanced(Err(failure("closed while draining")));
    match job.finish() {
        Some(Err(SerializableError::SerializeWriter { err: dummy::DummyError::Flush { err }, .. })) => {
            assert_eq!(err.to_string(), "closed while draining");
        },
        _ => panic!("expected a flush failure"),
    }
}

#[test]
fn save_to_path_create_failure_is_file_create() {
    let job = SaveJob::<json::Serializer>::to_path(&number_json(), "number", "/tmp".to_string(), false, false);
    assert!(matches!(job.state, SaveState::Create(_)));
    let job = job.created(Err(failure("is a directory")));
    match job.finish() {
        Some(Err(SerializableError::FileCreate { path, err })) => {
            assert_eq!(path, "/tmp");
            assert_eq!(err.to_string(), "is a directory");
        },
        _ => panic!("expected a file-create failure"),
    }
}

#[test]
fn save_to_path_write_failure_is_file_level_with_path() {
    let job = SaveJob::<json::Serializer>::to_path(&number_json(), "number", "out.json".to_string(), true, false);
    let job = job.created(Ok(()));
    let job = job.advanced(Err(failure("no space")));
    match job.finish() {
        Some(Err(SerializableError::SerializeFile { what, path, err: json::JsonError::Write { .. } })) => {
            assert_eq!(what, "number");
            assert_eq!(path, "out.json");
        },
        _ => panic!("expected a file-level serialize failure"),
    }
}

#[test]
fn save_to_path_encode_failure_is_file_level_with_path() {
    let v = ::toml::Value::Integer(5);
    let job = SaveJob::<serializable::toml_backend::Serializer>::to_path(&v, "toml::Value", "out.toml".to_string(), false, false);
    let job = job.created(Ok(()));
    match job.finish() {
        Some(Err(SerializableError::SerializeFile { path, err: serializable::toml_backend::TomlError::Serialize { .. }, .. })) => {
            assert_eq!(path, "out.toml");
        },
        _ => panic!("expected a file-level serialize failure"),
    }
}

#[test]
fn save_to_path_success_after_create_write_flush() {
    let job = SaveJob::<json::Serializer>::to_path(&number_json(), "number", "out.json".to_string(), false, true);
    let job = job.created(Ok(()));
    let job = job.advanced(Ok(()));
    let job = job.advanced(Ok(()));
    assert!(matches!(job.finish(), Some(Ok(()))));
}

#[test]
fn load_from_reader_decodes_read_text() {
    let job = LoadJob::<json::Serializer>::from_reader("number");
    assert!(matches!(job.state, LoadState::Read));
    let job = job.read(Ok("[1, 2]".to_string()));
    let v = job.finish().unwrap().unwrap();
    assert_eq!(v, serde_json::Value::Array(vec![serde_json::Value::from(1), serde_json::Value::from(2)]));
}

#[test]
fn load_from_reader_read_failure_is_read() {
    let job = LoadJob::<json::Serializer>::from_reader("number");
    let job = job.read(Err(failure("reset")));
    assert!(matches!(
        job.finish(),
        Some(Err(SerializableError::DeserializeReader { err: json::JsonError::Read { .. }, .. }))
    ));
}

#[test]
fn load_from_reader_malformed_is_deserialize_reader() {
    let job = LoadJob::<json::Serializer>::from_reader("number");
    let job = job.read(Ok("[1, ".to_string()));
    assert!(matches!(
        job.finish(),
        Some(Err(SerializableError::DeserializeReader { err: json::JsonError::Deserialize { .. }, .. }))
    ));
}

#[test]
fn load_from_path_malformed_json_is_deserialize_file_with_path() {
    let job = LoadJob::<json::Serializer>::from_path("serde_json::Value", "bad.json".to_string());
    let job = job.opened(Ok(()));
    let job = job.read(Ok("{\"hello\": }".to_string()));
    match job.finish() {
        Some(Err(SerializableError::DeserializeFile { what, path, err: json::JsonError::Deserialize { err } })) => {
            assert_eq!(what, "serde_json::Value");
            assert_eq!(path, "bad.json");
            assert!(err.is_syntax());
        },
        _ => panic!("expected a file-level deserialize failure"),
    }
}

#[test]
fn load_from_path_open_failure_carries_path() {
    let job = LoadJob::<json::Serializer>::from_path("number", "missing.json".to_string());
    let job = job.opened(Err(failure("not found")));
    assert!(job.is_done());
    match job.finish() {
        Some(Err(SerializableError::FileOpen { path, .. })) => assert_eq!(path, "missing.json"),
        _ => panic!("expected a file-open failure"),
    }
}

#[test]
fn load_not_done_has_no_result() {
    let job = LoadJob::<json::Serializer>::from_path("number", "x.json".to_string());
    assert!(!job.is_done());
    assert!(job.finish().is_none());
}

#[test]
fn dummy_load_ignores_content() {
    let job = LoadJob::<dummy::Serializer<u64>>::from_reader("u64");
    let job = job.read(Ok("<dummy_text>".to_string()));
    assert_eq!(job.finish().unwrap().unwrap(), 0);
}
