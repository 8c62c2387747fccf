use base::ddd::entity::Entity;
use uuid::Uuid;

const ENTITY_ANONYMOUS: &str = "bor:event:name/anonymous";

#[test]
fn default_entity() {
    let e = Entity::default();

    assert_eq!(e.name(), ENTITY_ANONYMOUS);
    assert!(!e.id().is_empty());
}

#[test]
fn new_entity() {
    let id = Uuid::new_v4().to_string();
    let e = Entity::new(id.clone(), "hello".to_owned());

    assert_eq!(e.name(), "hello");
    assert_eq!(e.id(), id);
}

#[test]
fn generated_entity_ids_are_uuid_sized_and_distinct() {
    let a = Entity::from_name("same".to_owned());
    let b = Entity::from_name("same".to_owned());

    assert_eq!(a.id().len(), 36);
    assert_eq!(b.id().len(), 36);
    assert_ne!(a.id(), b.id());
}
