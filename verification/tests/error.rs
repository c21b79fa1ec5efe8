use bevy::ecs::entity::Entity;
use bevy::ecs::query::{QueryEntityError, QuerySingleError};
use canvas_paint::Error;

#[test]
fn string_becomes_custom_error() {
    let e: Error = Error::from(String::from("broken"));
    assert!(matches!(e, Error::Custom(ref m) if m == "broken"));
}

#[test]
fn query_single_error_is_wrapped() {
    let e: Error = QuerySingleError::NoEntities("knob").into();
    assert!(matches!(e, Error::QuerySingleError(QuerySingleError::NoEntities("knob"))));
}

#[test]
fn query_entity_error_is_wrapped() {
    let entity = Entity::from_raw(3);
    let e: Error = QueryEntityError::NoSuchEntity(entity).into();
    assert!(matches!(e, Error::QueryEntityError(QueryEntityError::NoSuchEntity(x)) if x == entity));
}
