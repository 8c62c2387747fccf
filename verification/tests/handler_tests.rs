use base::message::handler::MessageHandler;

#[derive(Debug, Clone, PartialEq)]
pub struct SomeMessage;

pub struct SomeHandler;

impl MessageHandler<SomeMessage> for SomeHandler {
    type Error = std::convert::Infallible;

    fn handle(&self, _message: &SomeMessage) -> Result<(), Self::Error> {
        Ok(())
    }
}

#[derive(Debug, PartialEq)]
pub enum HandlerError {
    Oops,
}

pub struct SomeHandlerInError;

impl MessageHandler<SomeMessage> for SomeHandlerInError {
    type Error = HandlerError;

    fn handle(&self, _message: &SomeMessage) -> Result<(), Self::Error> {
        Err(HandlerError::Oops)
    }
}

#[test]
fn test_message_handler() {
    let handler = SomeHandler;
    let result = handler.handle(&SomeMessage);

    assert!(result.is_ok());
}

#[test]
fn test_message_handler_with_error() {
    let handler = SomeHandlerInError;
    let result = handler.handle(&SomeMessage);

    assert!(result.is_err());
}
