use base::message::handler::MessageHandler;
use base::uow::registry::HandlerRegistry;

#[derive(Debug, Clone, PartialEq)]
pub struct SomeMessage;

pub struct SomeHandler;

impl MessageHandler<SomeMessage> for SomeHandler {
    type Error = std::convert::Infallible;

    fn handle(&self, _message: &SomeMessage) -> Result<(), Self::Error> {
        Ok(())
    }
}

#[test]
fn test_registry_handle_existing() {
    let mut registry = HandlerRegistry::new();
    registry.register(SomeMessage, SomeHandler);

    let result = registry.handle(&SomeMessage);

    assert!(result.is_ok());
}

#[test]
fn test_registry_handle_not_existing() {
    let mut registry = HandlerRegistry::new();
    registry.register(SomeMessage, SomeHandler);

    let result = registry.handle(&SomeMessage);

    assert!(result.is_ok());
}

#[derive(Debug, Clone, PartialEq)]
pub struct KeyedMessage(u32);

pub struct FailingHandler;

#[derive(Debug, PartialEq)]
pub struct Boom;

impl MessageHandler<KeyedMessage> for FailingHandler {
    type Error = Boom;

    fn handle(&self, message: &KeyedMessage) -> Result<(), Self::Error> {
        if message.0 == 1 {
            Err(Boom)
        } else {
            Ok(())
        }
    }
}

#[test]
fn registry_without_registration_is_silent_success() {
    let mut registry = HandlerRegistry::new();
    registry.register(KeyedMessage(1), FailingHandler);

    // a failing handler is registered for key 1, but key 2 has none
    let result = registry.handle(&KeyedMessage(2));

    assert!(result.is_ok());
}

#[test]
fn registry_propagates_handler_error() {
    let mut registry = HandlerRegistry::new();
    registry.register(KeyedMessage(1), FailingHandler);

    let result = registry.handle(&KeyedMessage(1));

    assert_eq!(result, Err(Boom));
}
