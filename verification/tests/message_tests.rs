use base::ddd::entity::Entity;
use base::ddd::metadata::Value;
use base::message::generic::EventMessage;
use base::message::payload::Payload;
use base::message::Message;

#[test]
fn build_event_message() {
    let expected_id = Entity::new("id".to_owned(), "name".to_owned());
    let expected_payload = Payload::new(Value::Text("my payload".to_owned()));

    let event_message = EventMessage::new(
        "some_event".to_owned(),
        Value::Text("my payload".to_owned()),
    )
    .set_identifier(expected_id.clone());

    assert_eq!(event_message.identifier(), expected_id);
    assert_eq!(event_message.payload(), expected_payload);
}

#[test]
fn event_message_stamps_standard_metadata() {
    let message = EventMessage::new("some_event".to_owned(), Value::Null);
    let metadata = message.metadata();

    assert_eq!(metadata.len(), 4);
    assert_eq!(
        metadata.get("bor:event:name"),
        Some(Value::Text("some_event".to_owned()))
    );
    assert_eq!(
        metadata.get("bor:entity:name"),
        Some(Value::Text("some_event".to_owned()))
    );
    assert_eq!(
        metadata.get("bor:entity:id"),
        Some(Value::Text(message.identifier().id()))
    );
    match metadata.get("bor:entity") {
        Some(Value::Entity(entity)) => assert_eq!(entity, message.identifier()),
        other => panic!("expected the entity itself under the entity key, got {:?}", other),
    }
}

#[test]
fn added_metadata_is_kept_beside_the_stamps() {
    let message = EventMessage::new("some_event".to_owned(), Value::Null)
        .add_meta("extra".to_owned(), Value::Int(7));
    let metadata = message.metadata();

    assert_eq!(metadata.len(), 5);
    assert_eq!(metadata.get("extra"), Some(Value::Int(7)));
}
