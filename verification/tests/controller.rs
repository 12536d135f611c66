use ticket_store::error::Error;
use ticket_store::model::{ModelController, Ticket, TicketForCreate};

fn fc(title: &str) -> TicketForCreate {
    TicketForCreate { title: title.to_string() }
}

fn pairs(tickets: &[Ticket]) -> Vec<(u64, String)> {
    tickets.iter().map(|t| (t.id, t.title.clone())).collect()
}

#[test]
fn controller_starts_empty() {
    let mc = ModelController::new().unwrap();
    assert!(mc.list_tickets().unwrap().is_empty());
}

#[test]
fn controller_scenario() {
    let mc = ModelController::new().unwrap();
    assert_eq!(mc.create_ticket(fc("A")).unwrap().id, 0);
    assert_eq!(mc.create_ticket(fc("B")).unwrap().id, 1);
    let gone = mc.delete_ticket(0).unwrap();
    assert_eq!((gone.id, gone.title.as_str()), (0, "A"));
    assert_eq!(pairs(&mc.list_tickets().unwrap()), vec![(1, "B".to_string())]);
    assert_eq!(mc.delete_ticket(0).unwrap_err(), Error::TicketDeleteFailIdNotFound { id: 0 });
}

#[test]
fn copies_of_a_handle_share_one_store() {
    let mc = ModelController::new().unwrap();
    let other = mc.clone();
    assert_eq!(mc.create_ticket(fc("A")).unwrap().id, 0);
    assert_eq!(other.create_ticket(fc("B")).unwrap().id, 1);
    assert_eq!(mc.create_ticket(fc("C")).unwrap().id, 2);
    assert_eq!(other.delete_ticket(0).unwrap().title, "A");
    assert_eq!(mc.delete_ticket(0).unwrap_err(), Error::TicketDeleteFailIdNotFound { id: 0 });
    let expected = vec![(1, "B".to_string()), (2, "C".to_string())];
    assert_eq!(pairs(&mc.list_tickets().unwrap()), expected);
    assert_eq!(pairs(&other.list_tickets().unwrap()), expected);
}

#[test]
fn separate_controllers_have_separate_stores() {
    let one = ModelController::new().unwrap();
    let two = ModelController::new().unwrap();
    assert_eq!(one.create_ticket(fc("A")).unwrap().id, 0);
    assert_eq!(two.create_ticket(fc("B")).unwrap().id, 0);
    assert_eq!(pairs(&one.list_tickets().unwrap()), vec![(0, "A".to_string())]);
    assert_eq!(pairs(&two.list_tickets().unwrap()), vec![(0, "B".to_string())]);
}

#[test]
fn a_dropped_copy_leaves_the_store() {
    let mc = ModelController::new().unwrap();
    {
        let other = mc.clone();
        other.create_ticket(fc("A")).unwrap();
    }
    assert_eq!(pairs(&mc.list_tickets().unwrap()), vec![(0, "A".to_string())]);
}

#[test]
fn controller_delete_unknown_id_fails() {
    let mc = ModelController::new().unwrap();
    assert_eq!(mc.delete_ticket(3).unwrap_err(), Error::TicketDeleteFailIdNotFound { id: 3 });
    mc.create_ticket(fc("A")).unwrap();
    assert_eq!(
        mc.delete_ticket(u64::MAX).unwrap_err(),
        Error::TicketDeleteFailIdNotFound { id: u64::MAX }
    );
}

#[test]
fn controller_ids_are_dense_and_listed_in_order() {
    let mc = ModelController::new().unwrap();
    let handles: Vec<ModelController> = (0..4).map(|_| mc.clone()).collect();
    let mut ids = Vec::new();
    for round in 0..8 {
        for h in &handles {
            ids.push(h.create_ticket(fc(&format!("r{round}"))).unwrap().id);
        }
    }
    assert_eq!(ids, (0..32u64).collect::<Vec<u64>>());
    mc.delete_ticket(10).unwrap();
    let listed: Vec<u64> = mc.list_tickets().unwrap().iter().map(|t| t.id).collect();
    let expected: Vec<u64> = (0..32u64).filter(|id| *id != 10).collect();
    assert_eq!(listed, expected);
}

#[test]
fn controller_can_be_sent_and_shared() {
    fn check<T: Send + Sync + Clone + 'static>(_: &T) {}
    let mc = ModelController::new().unwrap();
    check(&mc);
}
