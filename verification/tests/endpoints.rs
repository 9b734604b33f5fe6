use box_office::payments::{PaymentError, PaymentService};
use box_office::show::{Show, ShowError};
use box_office::state::AppState;
use box_office::ticket::{Ticket, TicketError};
use box_office::time::Timestamp;
use box_office::user::{Role, User, UserError};

const LIAM: u128 = 0x6f1c_2a40_9b7e_4c1d_8e2f_1234_5678_9abc;
const SAM: u128 = 0x0d2e_77aa_1b3c_4d5e_9f60_abcd_ef01_2345;

fn at(secs: i64) -> Timestamp {
    Timestamp { secs, nanos: 0 }
}

fn user(id: u128, name: &str, role: Role) -> User {
    User { id, username: name.to_string(), role, time_created: at(1_700_000_000) }
}

fn rolling_bones() -> Show {
    Show {
        id: 42,
        title: "Rolling Bones".to_string(),
        url: "https://crates.io/".to_string(),
        showtime: at(1_700_100_000),
    }
}

fn ticket(id: u128, payment: PaymentService) -> Ticket {
    Ticket {
        id,
        user_id: SAM,
        show_id: 42,
        price: 2500,
        purchase_time: at(1_700_050_000),
        payment_service_token: payment,
    }
}

#[test]
fn test_user_endpoints() {
    let mut state = AppState::new();
    let liam = user(LIAM, "Liam", Role::Admin);

    let resp = state.create_user(liam.clone());
    assert_eq!(liam, resp);

    let resp = state.get_user(liam.id).cloned().unwrap();
    assert_eq!(liam, resp);

    let resp = state.delete_user(liam.id).unwrap();
    assert_eq!(liam, resp);

    // The same user cannot be deleted twice.
    let resp = state.delete_user(liam.id).unwrap_err();
    assert!((400..500).contains(&resp.status()));
}

#[test]
fn test_show_endpoints() {
    let mut state = AppState::new();
    let admin_user = user(LIAM, "Liam", Role::Admin);
    let cust_user = user(SAM, "Sam", Role::Customer);
    state.create_user(admin_user.clone());
    state.create_user(cust_user.clone());

    let show = rolling_bones();

    // Customers cannot create shows.
    let resp = state.create_show(cust_user.id, show.clone()).unwrap_err();
    assert!((400..500).contains(&resp.status()));

    let resp = state.create_show(admin_user.id, show);
    assert!(resp.is_ok(), "response was {:?}", resp);
}

#[test]
fn stored_user_is_read_back_with_all_its_fields() {
    let mut state = AppState::new();
    state.create_user(user(SAM, "Sam", Role::Customer));
    let got = state.get_user(SAM).unwrap();
    assert_eq!(got.id, SAM);
    assert_eq!(got.username, "Sam");
    assert_eq!(got.role, Role::Customer);
    assert_eq!(got.time_created, at(1_700_000_000));
    assert!(state.get_user(LIAM).is_none());
}

#[test]
fn creating_a_user_again_replaces_it() {
    let mut state = AppState::new();
    state.create_user(user(SAM, "Sam", Role::Customer));
    state.create_user(user(SAM, "Samantha", Role::Admin));
    assert_eq!(state.get_all_users().len(), 1);
    assert_eq!(state.get_user(SAM).unwrap().username, "Samantha");
    assert!(state.is_admin(SAM));
}

#[test]
fn all_users_are_listed() {
    let mut state = AppState::new();
    assert!(state.get_all_users().is_empty());
    state.create_user(user(SAM, "Sam", Role::Customer));
    state.create_user(user(LIAM, "Liam", Role::Admin));
    let all = state.get_all_users();
    assert_eq!(all.len(), 2);
    assert_eq!(all[&SAM].username, "Sam");
    assert_eq!(all[&LIAM].username, "Liam");
}

#[test]
fn users_and_shows_are_equal_by_id() {
    let a = user(SAM, "Sam", Role::Customer);
    let b = user(SAM, "Someone else", Role::Admin);
    let c = user(LIAM, "Sam", Role::Customer);
    assert_eq!(a, b);
    assert_ne!(a, c);
    let mut other = rolling_bones();
    other.title = "Another".to_string();
    assert_eq!(rolling_bones(), other);
    other.id = 43;
    assert_ne!(rolling_bones(), other);
}

#[test]
fn deleting_an_unknown_user_names_it() {
    let mut state = AppState::new();
    let err = state.delete_user(0xa1a2a3a4b1b2c1c2d1d2d3d4d5d6d7d8).unwrap_err();
    assert_eq!(err, UserError::NoSuchUser(0xa1a2a3a4b1b2c1c2d1d2d3d4d5d6d7d8));
    assert_eq!(err.status(), 400);
    assert_eq!(err.message(), "No such user Exists: a1a2a3a4-b1b2-c1c2-d1d2-d3d4d5d6d7d8");
    let err = UserError::NoSuchUser(0);
    assert_eq!(err.message(), "No such user Exists: 00000000-0000-0000-0000-000000000000");
}

#[test]
fn admin_can_create_and_delete_a_show() {
    let mut state = AppState::new();
    state.create_user(user(LIAM, "Liam", Role::Admin));
    let created = state.create_show(LIAM, rolling_bones()).unwrap();
    assert_eq!(created.title, "Rolling Bones");
    assert_eq!(state.get_show(42).unwrap().url, "https://crates.io/");
    let deleted = state.delete_show(LIAM, 42).unwrap();
    assert_eq!(deleted.title, "Rolling Bones");
    assert!(state.get_show(42).is_none());
    assert_eq!(state.delete_show(LIAM, 42).unwrap_err(), ShowError::NoSuchShow);
}

#[test]
fn unknown_users_and_customers_cannot_manage_shows() {
    let mut state = AppState::new();
    state.create_user(user(LIAM, "Liam", Role::Admin));
    state.create_user(user(SAM, "Sam", Role::Customer));
    state.create_show(LIAM, rolling_bones()).unwrap();

    assert_eq!(state.create_show(7, rolling_bones()).unwrap_err(), ShowError::Unauthorized);
    assert_eq!(state.delete_show(SAM, 42).unwrap_err(), ShowError::Unauthorized);
    assert_eq!(state.delete_show(7, 42).unwrap_err(), ShowError::Unauthorized);
    // A refused deletion leaves the show in place.
    assert!(state.get_show(42).is_some());
    // Even a missing show is answered with the refusal when the user is no admin.
    assert_eq!(state.delete_show(SAM, 99).unwrap_err(), ShowError::Unauthorized);
}

#[test]
fn show_refusals_have_their_status_and_text() {
    assert_eq!(ShowError::Unauthorized.status(), 401);
    assert_eq!(ShowError::Unauthorized.message(), "User Lacks authority to create a show");
    assert_eq!(ShowError::NoSuchShow.status(), 400);
    assert_eq!(ShowError::NoSuchShow.message(), "No such show exists");
    assert_eq!(TicketError::NoSuchTicket.status(), 400);
    assert_eq!(TicketError::NoSuchTicket.message(), "No such ticket exists");
    assert_eq!(PaymentError::PaypalIsDown.status(), 500);
}

#[test]
fn unpaid_tickets_are_refused_and_not_kept() {
    let mut state = AppState::new();
    assert_eq!(
        state.create_ticket(ticket(1, PaymentService::PayPal(5))),
        Err(PaymentError::PaypalIsDown)
    );
    assert_eq!(
        state.create_ticket(ticket(2, PaymentService::Stripe("tok".to_string()))),
        Err(PaymentError::PaymentDNE)
    );
    assert_eq!(
        state.create_ticket(ticket(3, PaymentService::Bitcoin(800_000))),
        Err(PaymentError::Other("BTC Crashed Again".to_string()))
    );
    assert!(state.get_ticket(1).is_none());
    assert!(state.get_ticket(2).is_none());
    assert!(state.get_ticket(3).is_none());
}

#[test]
fn magic_tickets_are_kept_exactly_when_accepted() {
    let mut state = AppState::new();
    let mut kept = 0;
    for id in 0..64u128 {
        match state.create_ticket(ticket(id, PaymentService::Magic)) {
            Ok(()) => {
                kept += 1;
                assert_eq!(state.get_ticket(id).unwrap().price, 2500);
            }
            Err(e) => {
                assert_eq!(e, PaymentError::TheWizardIsBeingLazy);
                assert!(state.get_ticket(id).is_none());
            }
        }
    }
    assert!(kept > 0 && kept < 64);
}

#[test]
fn recorded_ticket_can_be_read_and_deleted_once() {
    let mut state = AppState::new();
    assert_eq!(state.record_ticket(ticket(9, PaymentService::Magic), Ok(())), Ok(()));
    let got = state.get_ticket(9).unwrap();
    assert_eq!(got.user_id, SAM);
    assert_eq!(got.show_id, 42);
    assert_eq!(got.purchase_time, at(1_700_050_000));
    let deleted = state.delete_ticket(9).unwrap();
    assert_eq!(deleted.id, 9);
    assert_eq!(state.delete_ticket(9).unwrap_err(), TicketError::NoSuchTicket);

    assert_eq!(
        state.record_ticket(ticket(10, PaymentService::Magic), Err(PaymentError::TheWizardIsBeingLazy)),
        Err(PaymentError::TheWizardIsBeingLazy)
    );
    assert!(state.get_ticket(10).is_none());
}

#[test]
fn each_request_touches_only_its_own_store() {
    let mut state = AppState::new();
    state.create_user(user(LIAM, "Liam", Role::Admin));
    state.create_show(LIAM, rolling_bones()).unwrap();
    state.record_ticket(ticket(1, PaymentService::Magic), Ok(())).unwrap();

    state.delete_user(LIAM).unwrap();
    assert!(state.get_show(42).is_some());
    assert!(state.get_ticket(1).is_some());

    state.create_user(user(LIAM, "Liam", Role::Admin));
    state.delete_ticket(1).unwrap();
    assert!(state.get_show(42).is_some());
    assert!(state.get_user(LIAM).is_some());

    state.delete_show(LIAM, 42).unwrap();
    assert!(state.get_user(LIAM).is_some());
}
