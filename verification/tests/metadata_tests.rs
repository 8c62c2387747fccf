use base::ddd::metadata::{MetaData, Value};

#[test]
fn no_key() {
    let metadata = MetaData::new();

    assert!(!metadata.contains_key("does not exist"));
}

#[test]
fn get_value() {
    let metadata = MetaData::new().insert("key".to_owned(), Value::Text("value".to_owned()));
    let value = metadata.get("key");

    assert!(metadata.contains_key("key"));
    assert_eq!(metadata.get("key"), value);
}

#[test]
fn get_no_value() {
    let metadata = MetaData::new().insert("key".to_owned(), Value::Text("value".to_owned()));
    let value = metadata.get("does not exist");

    assert_eq!(value, None);
}

#[test]
fn insert_replaces_existing_key() {
    let metadata = MetaData::new()
        .insert("key".to_owned(), Value::Int(1))
        .insert("key".to_owned(), Value::Int(2));

    assert_eq!(metadata.len(), 1);
    assert_eq!(metadata.get("key"), Some(Value::Int(2)));
}

#[test]
fn extend_prefers_incoming_bindings() {
    let mut metadata = MetaData::new()
        .insert("shared".to_owned(), Value::Text("old".to_owned()))
        .insert("mine".to_owned(), Value::Bool(true));
    let incoming = MetaData::new()
        .insert("shared".to_owned(), Value::Text("new".to_owned()))
        .insert("theirs".to_owned(), Value::Null);

    metadata.extend(incoming);

    assert_eq!(metadata.len(), 3);
    assert_eq!(
        metadata.get("shared"),
        Some(Value::Text("new".to_owned()))
    );
    assert_eq!(metadata.get("mine"), Some(Value::Bool(true)));
    assert_eq!(metadata.get("theirs"), Some(Value::Null));
}

#[test]
fn empty_metadata_has_no_length() {
    let metadata = MetaData::new();

    assert!(metadata.is_empty());
    assert_eq!(metadata.len(), 0);
}
