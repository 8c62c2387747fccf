use base::web::ctx::Ctx;
use base::web::error::{ClientError, Error};
use base::web::model::{ModelController, TicketForCreate};

#[test]
fn create_ticket_assigns_slot_ids() {
    let mut mc = ModelController::new().unwrap();
    let ctx = Ctx::new(11);

    let first = mc
        .create_ticket(
            ctx,
            TicketForCreate {
                title: "Ticket AAA".to_owned(),
            },
        )
        .unwrap();
    let second = mc
        .create_ticket(
            ctx,
            TicketForCreate {
                title: "Ticket BBB".to_owned(),
            },
        )
        .unwrap();

    assert_eq!(first.id, 0);
    assert_eq!(first.cid, 11);
    assert_eq!(first.title, "Ticket AAA");
    assert_eq!(second.id, 1);
}

#[test]
fn list_skips_deleted_tickets() {
    let mut mc = ModelController::new().unwrap();
    let ctx = Ctx::new(1);
    mc.create_ticket(ctx, TicketForCreate { title: "a".to_owned() }).unwrap();
    mc.create_ticket(ctx, TicketForCreate { title: "b".to_owned() }).unwrap();
    mc.create_ticket(ctx, TicketForCreate { title: "c".to_owned() }).unwrap();

    let deleted = mc.delete_ticket(ctx, 1).unwrap();
    assert_eq!(deleted.title, "b");

    let tickets = mc.list_tickets(ctx).unwrap();
    let titles: Vec<String> = tickets.into_iter().map(|t| t.title).collect();
    assert_eq!(titles, vec!["a".to_owned(), "c".to_owned()]);
}

#[test]
fn deleting_missing_ticket_fails() {
    let mut mc = ModelController::new().unwrap();
    let ctx = Ctx::new(1);

    let result = mc.delete_ticket(ctx, 5);
    assert_eq!(result, Err(Error::TicketDeleteFailIdNotFound { id: 5 }));

    mc.create_ticket(ctx, TicketForCreate { title: "a".to_owned() }).unwrap();
    mc.delete_ticket(ctx, 0).unwrap();
    let again = mc.delete_ticket(ctx, 0);
    assert_eq!(again, Err(Error::TicketDeleteFailIdNotFound { id: 0 }));
}

#[test]
fn client_error_mapping() {
    assert_eq!(
        Error::LoginFail.client_status_and_error(),
        (403, ClientError::LOGIN_FAIL)
    );
    assert_eq!(
        Error::AuthFailNoAuthTokenCookie.client_status_and_error(),
        (403, ClientError::NO_AUTH)
    );
    assert_eq!(
        Error::AuthFailTokenWrongFormat.client_status_and_error(),
        (403, ClientError::NO_AUTH)
    );
    assert_eq!(
        Error::AuthFailCtxNotInRequestExt.client_status_and_error(),
        (403, ClientError::NO_AUTH)
    );
    assert_eq!(
        Error::TicketDeleteFailIdNotFound { id: 9 }.client_status_and_error(),
        (400, ClientError::INVALID_PARAMS)
    );
    assert_eq!(
        Error::CookiesNotFount.client_status_and_error(),
        (500, ClientError::SERVICE_ERROR)
    );
}
