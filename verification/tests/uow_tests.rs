use std::cell::Cell;
use std::rc::Rc;

use base::ddd::aggregate::ErrorMessage;
use base::message::handler::MessageHandler;
use base::uow::unit_of_work::{Phase, UnitOfWork, UowError};

#[derive(Debug, Clone, PartialEq)]
pub struct SomeMessage;

pub struct SomeHandler;

#[derive(Debug, PartialEq)]
pub enum HandlerError {
    Oops,
}

impl ErrorMessage for HandlerError {
    fn message(&self) -> String {
        "oops".to_owned()
    }
}

impl MessageHandler<SomeMessage> for SomeHandler {
    type Error = HandlerError;

    fn handle(&self, _message: &SomeMessage) -> Result<(), Self::Error> {
        Ok(())
    }
}

pub struct SomeHandlerInError;

impl MessageHandler<SomeMessage> for SomeHandlerInError {
    type Error = HandlerError;

    fn handle(&self, _message: &SomeMessage) -> Result<(), Self::Error> {
        Err(HandlerError::Oops)
    }
}

#[test]
fn new_uow() {
    let uow: UnitOfWork<SomeMessage, fn(Phase, String)> = UnitOfWork::new(SomeMessage);
    let phase = uow.phase();

    assert_eq!(phase, Phase::NotStarted);
}

#[test]
fn add_handler() {
    let mut uow = UnitOfWork::new(SomeMessage);
    let consumer = |_phase: Phase, _cause: String| {
        println!("on_rollback consumer");
    };

    uow.on_rollback(consumer);

    uow.rollback("oops".to_owned());
}

#[test]
fn phase_order() {
    let not_started = Phase::NotStarted;
    let started = Phase::Started;
    let prep_commit = Phase::PrepareCommit;

    assert!(started as u32 > not_started as u32);
    assert!(prep_commit as u32 > started as u32);
    assert!(prep_commit as u32 > not_started as u32);
}

#[test]
fn phase_rank_matches_declaration_order() {
    let ordered = [
        Phase::NotStarted,
        Phase::Started,
        Phase::PrepareCommit,
        Phase::Commit,
        Phase::Rollback,
        Phase::AfterCommit,
        Phase::Cleanup,
        Phase::Closed,
    ];

    for (position, phase) in ordered.iter().enumerate() {
        assert_eq!(phase.rank(), position as u32);
        assert_eq!(phase.rank(), *phase as u32);
    }
}

#[test]
fn commit_phase_order() {
    let mut uow: UnitOfWork<SomeMessage, fn(Phase, String)> = UnitOfWork::new(SomeMessage);

    let result = uow.begin(&SomeHandler);

    assert_eq!(result, Ok(true));
    assert_eq!(
        uow.phases(),
        vec![
            Phase::NotStarted,
            Phase::Started,
            Phase::PrepareCommit,
            Phase::Commit,
            Phase::AfterCommit,
            Phase::Cleanup,
        ]
    );
    assert_eq!(uow.phase(), Phase::Cleanup);
    assert_eq!(uow.cause(), None);
}

#[test]
fn rollback_phase_order_notifies_each_consumer_once() {
    let mut uow = UnitOfWork::new(SomeMessage);

    let first_count = Rc::new(Cell::new(0u32));
    let second_count = Rc::new(Cell::new(0u32));
    let first_seen = Rc::new(Cell::new(0u32));
    let second_seen = Rc::new(Cell::new(0u32));
    let order = Rc::new(Cell::new(0u32));

    let make = |count: Rc<Cell<u32>>, order: Rc<Cell<u32>>, seen: Rc<Cell<u32>>| {
        move |phase: Phase, cause: String| {
            assert_eq!(phase, Phase::Rollback);
            assert_eq!(cause, "oops");
            count.set(count.get() + 1);
            order.set(order.get() + 1);
            seen.set(order.get());
        }
    };

    uow.on_rollback(make(first_count.clone(), order.clone(), first_seen.clone()));
    uow.on_rollback(make(second_count.clone(), order.clone(), second_seen.clone()));

    let result = uow.begin(&SomeHandlerInError);

    assert_eq!(result, Ok(false));
    assert_eq!(
        uow.phases(),
        vec![
            Phase::NotStarted,
            Phase::Started,
            Phase::PrepareCommit,
            Phase::Rollback,
            Phase::Cleanup,
        ]
    );
    assert_eq!(first_count.get(), 1);
    assert_eq!(second_count.get(), 1);
    // consumers ran in registration order
    assert_eq!(first_seen.get(), 1);
    assert_eq!(second_seen.get(), 2);
    assert_eq!(uow.cause(), Some("oops".to_owned()));
}

#[test]
fn begin_is_single_use() {
    let mut uow: UnitOfWork<SomeMessage, fn(Phase, String)> = UnitOfWork::new(SomeMessage);

    assert_eq!(uow.begin(&SomeHandler), Ok(true));
    assert_eq!(uow.begin(&SomeHandler), Err(UowError::AlreadyStarted));
}
