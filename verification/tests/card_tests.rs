use base::card::event::CardEvent;
use base::card::payload::{
    CardActivatedPayload, CardDeactivatePayload, CardIssuedPayload, CardLostPayload, CardType,
};

#[test]
fn card_event_types_name_their_kind() {
    let issued = CardEvent::Issued(CardIssuedPayload {
        id: "c-1".to_owned(),
        typ: CardType::Platinum,
        number: "4000".to_owned(),
    });
    let activated = CardEvent::Activated(CardActivatedPayload { id: "c-1".to_owned() });
    let deactivated = CardEvent::Deactivated(CardDeactivatePayload { id: "c-1".to_owned() });
    let lost = CardEvent::Lost(CardLostPayload { id: "c-1".to_owned() });

    assert_eq!(issued.event_type(), "Issued");
    assert_eq!(activated.event_type(), "Activated");
    assert_eq!(deactivated.event_type(), "Deactivated");
    assert_eq!(lost.event_type(), "Lost");
    assert_eq!(issued.event_version(), "1.0");
}
