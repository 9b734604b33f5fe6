use crate::payments::{has_payment_been_processed, is_verdict, PaymentError};
use crate::show::{Show, ShowError};
use crate::ticket::{Ticket, TicketError};
use crate::user::{Role, User, UserError};
use std::collections::HashMap;
use vstd::prelude::*;

verus! {

broadcast use vstd::std_specs::hash::group_hash_axioms;

/// Everything the box office keeps: users, shows and tickets, each by id.
#[derive(Debug)]
pub struct AppState {
    pub users: HashMap<u128, User>,
    pub shows: HashMap<u128, Show>,
    pub tickets: HashMap<u128, Ticket>,
}

/// The contents of an `AppState`.
pub struct StateView {
    pub users: Map<u128, User>,
    pub shows: Map<u128, Show>,
    pub tickets: Map<u128, Ticket>,
}

impl View for AppState {
    type V = StateView;

    open spec fn view(&self) -> StateView {
        StateView { users: self.users@, shows: self.shows@, tickets: self.tickets@ }
    }
}

/// What a map holds under `key`, if anything.
pub open spec fn lookup<V>(m: Map<u128, V>, key: u128) -> Option<V> {
    if m.contains_key(key) {
        Some(m[key])
    } else {
        None
    }
}

/// Whether `user_id` names an admin among `users`.
pub open spec fn admin_in(users: Map<u128, User>, user_id: u128) -> bool {
    users.contains_key(user_id) && users[user_id].role == Role::Admin
}

/// The state after `user` is stored, replacing any user with its id.
pub open spec fn user_creation(s: StateView, user: User) -> StateView {
    StateView { users: s.users.insert(user.id, user), shows: s.shows, tickets: s.tickets }
}

/// The state after, and the answer to, a request to delete user `user_id`.
pub open spec fn user_deletion(s: StateView, user_id: u128) -> (StateView, Result<User, UserError>) {
    if s.users.contains_key(user_id) {
        (
            StateView { users: s.users.remove(user_id), shows: s.shows, tickets: s.tickets },
            Ok(s.users[user_id]),
        )
    } else {
        (s, Err(UserError::NoSuchUser(user_id)))
    }
}

/// The state after, and the answer to, a request by user `user_id` to
/// store `show`: only an admin may, and the show then replaces any show
/// with its id.
pub open spec fn show_creation(s: StateView, user_id: u128, show: Show) -> (
    StateView,
    Result<Show, ShowError>,
) {
    if admin_in(s.users, user_id) {
        (
            StateView { users: s.users, shows: s.shows.insert(show.id, show), tickets: s.tickets },
            Ok(show),
        )
    } else {
        (s, Err(ShowError::Unauthorized))
    }
}

/// The state after, and the answer to, a request by user `user_id` to
/// delete show `show_id`: only an admin may, and only a show that is there.
pub open spec fn show_deletion(s: StateView, user_id: u128, show_id: u128) -> (
    StateView,
    Result<Show, ShowError>,
) {
    if !admin_in(s.users, user_id) {
        (s, Err(ShowError::Unauthorized))
    } else if s.shows.contains_key(show_id) {
        (
            StateView { users: s.users, shows: s.shows.remove(show_id), tickets: s.tickets },
            Ok(s.shows[show_id]),
        )
    } else {
        (s, Err(ShowError::NoSuchShow))
    }
}

/// The state after a ticket is offered whose payment check answered
/// `verdict`: the ticket is stored, replacing any with its id, exactly when
/// the payment went through.
pub open spec fn ticket_recording(s: StateView, ticket: Ticket, verdict: Result<(), PaymentError>) -> StateView {
    match verdict {
        Ok(()) => StateView {
            users: s.users,
            shows: s.shows,
            tickets: s.tickets.insert(ticket.id, ticket),
        },
        Err(_) => s,
    }
}

/// The state after, and the answer to, a request to delete ticket
/// `ticket_id`.
pub open spec fn ticket_deletion(s: StateView, ticket_id: u128) -> (
    StateView,
    Result<Ticket, TicketError>,
) {
    if s.tickets.contains_key(ticket_id) {
        (
            StateView { users: s.users, shows: s.shows, tickets: s.tickets.remove(ticket_id) },
            Ok(s.tickets[ticket_id]),
        )
    } else {
        (s, Err(TicketError::NoSuchTicket))
    }
}

impl AppState {
    /// A box office with no users, shows or tickets.
    pub fn new() -> (state: AppState)
        ensures
            state@.users == Map::<u128, User>::empty(),
            state@.shows == Map::<u128, Show>::empty(),
            state@.tickets == Map::<u128, Ticket>::empty(),
    {
        AppState { users: HashMap::new(), shows: HashMap::new(), tickets: HashMap::new() }
    }

    /// The user with id `user_id`, if there is one.
    pub fn get_user(&self, user_id: u128) -> (found: Option<&User>)
        ensures
            found matches Some(u) ==> lookup(self@.users, user_id) == Some(*u),
            found is None ==> lookup(self@.users, user_id) is None,
    {
        self.users.get(&user_id)
    }

    /// All users, by id.
    pub fn get_all_users(&self) -> (all: HashMap<u128, User>)
        ensures
            all@ == self@.users,
    {
        self.users.clone()
    }

    /// Stores `user`, replacing any user with its id, and hands it back.
    pub fn create_user(&mut self, user: User) -> (stored: User)
        ensures
            final(self)@ == user_creation(old(self)@, user),
            final(self)@.shows == old(self)@.shows,
            final(self)@.tickets == old(self)@.tickets,
            stored == user,
            lookup(final(self)@.users, user.id) == Some(user),
            forall|k: u128|
                k != user.id ==> #[trigger] lookup(final(self)@.users, k) == lookup(old(self)@.users, k),
    {
        self.users.insert(user.id, user.clone());
        user
    }

    /// Deletes the user with id `user_id` and hands it back, or says that
    /// there is no such user.
    pub fn delete_user(&mut self, user_id: u128) -> (outcome: Result<User, UserError>)
        ensures
            (final(self)@, outcome) == user_deletion(old(self)@, user_id),
            final(self)@.shows == old(self)@.shows,
            final(self)@.tickets == old(self)@.tickets,
            outcome matches Ok(u) ==> lookup(old(self)@.users, user_id) == Some(u),
            outcome is Err <==> lookup(old(self)@.users, user_id) is None,
            lookup(final(self)@.users, user_id) is None,
            forall|k: u128|
                k != user_id ==> #[trigger] lookup(final(self)@.users, k) == lookup(old(self)@.users, k),
    {
        match self.users.remove(&user_id) {
            Some(user) => Ok(user),
            None => {
                assert(self@.users =~= old(self)@.users);
                Err(UserError::NoSuchUser(user_id))
            },
        }
    }

    /// Whether `user_id` names an admin.
    pub fn is_admin(&self, user_id: u128) -> (admin: bool)
        ensures
            admin == admin_in(self@.users, user_id),
    {
        match self.users.get(&user_id) {
            Some(user) => user.is_admin(),
            None => false,
        }
    }

    /// The show with id `show_id`, if there is one.
    pub fn get_show(&self, show_id: u128) -> (found: Option<&Show>)
        ensures
            found matches Some(s) ==> lookup(self@.shows, show_id) == Some(*s),
            found is None ==> lookup(self@.shows, show_id) is None,
    {
        self.shows.get(&show_id)
    }

    /// Stores `show` on behalf of user `user_id` and hands it back, if that
    /// user is an admin.
    pub fn create_show(&mut self, user_id: u128, show: Show) -> (outcome: Result<Show, ShowError>)
        ensures
            (final(self)@, outcome) == show_creation(old(self)@, user_id, show),
            final(self)@.users == old(self)@.users,
            final(self)@.tickets == old(self)@.tickets,
            outcome is Ok <==> admin_in(old(self)@.users, user_id),
            outcome is Ok ==> lookup(final(self)@.shows, show.id) == Some(show),
            outcome is Err ==> final(self)@.shows == old(self)@.shows,
            forall|k: u128|
                k != show.id ==> #[trigger] lookup(final(self)@.shows, k) == lookup(old(self)@.shows, k),
    {
        if self.is_admin(user_id) {
            self.shows.insert(show.id, show.clone());
            Ok(show)
        } else {
            Err(ShowError::Unauthorized)
        }
    }

    /// Deletes show `show_id` on behalf of user `user_id` and hands it back,
    /// if that user is an admin and the show is there.
    pub fn delete_show(&mut self, user_id: u128, show_id: u128) -> (outcome: Result<Show, ShowError>)
        ensures
            (final(self)@, outcome) == show_deletion(old(self)@, user_id, show_id),
            final(self)@.users == old(self)@.users,
            final(self)@.tickets == old(self)@.tickets,
            outcome is Ok <==> admin_in(old(self)@.users, user_id) && lookup(old(self)@.shows, show_id) is Some,
            outcome matches Ok(sh) ==> lookup(old(self)@.shows, show_id) == Some(sh),
            outcome is Ok ==> lookup(final(self)@.shows, show_id) is None,
            outcome is Err ==> final(self)@.shows == old(self)@.shows,
            forall|k: u128|
                k != show_id ==> #[trigger] lookup(final(self)@.shows, k) == lookup(old(self)@.shows, k),
    {
        if self.is_admin(user_id) {
            match self.shows.remove(&show_id) {
                Some(show) => Ok(show),
                None => {
                    assert(self@.shows =~= old(self)@.shows);
                    Err(ShowError::NoSuchShow)
                },
            }
        } else {
            Err(ShowError::Unauthorized)
        }
    }

    /// The ticket with id `ticket_id`, if there is one.
    pub fn get_ticket(&self, ticket_id: u128) -> (found: Option<&Ticket>)
        ensures
            found matches Some(t) ==> lookup(self@.tickets, ticket_id) == Some(*t),
            found is None ==> lookup(self@.tickets, ticket_id) is None,
    {
        self.tickets.get(&ticket_id)
    }

    /// Takes in `ticket` once the check of its payment answered `verdict`:
    /// it is stored when the payment went through, and the verdict is the
    /// answer.
    pub fn record_ticket(&mut self, ticket: Ticket, verdict: Result<(), PaymentError>) -> (outcome:
        Result<(), PaymentError>)
        ensures
            final(self)@ == ticket_recording(old(self)@, ticket, verdict),
            final(self)@.users == old(self)@.users,
            final(self)@.shows == old(self)@.shows,
            outcome == verdict,
            verdict is Ok ==> lookup(final(self)@.tickets, ticket.id) == Some(ticket),
            verdict is Err ==> final(self)@.tickets == old(self)@.tickets,
            forall|k: u128|
                k != ticket.id ==> #[trigger] lookup(final(self)@.tickets, k) == lookup(old(self)@.tickets, k),
    {
        if verdict.is_ok() {
            self.tickets.insert(ticket.id, ticket);
        }
        verdict
    }

    /// Checks the payment of `ticket` and takes the ticket in if it went
    /// through; the answer is that of the check.
    pub fn create_ticket(&mut self, ticket: Ticket) -> (outcome: Result<(), PaymentError>)
        ensures
            final(self)@ == ticket_recording(old(self)@, ticket, outcome),
            final(self)@.users == old(self)@.users,
            final(self)@.shows == old(self)@.shows,
            outcome is Ok ==> lookup(final(self)@.tickets, ticket.id) == Some(ticket),
            outcome is Err ==> final(self)@.tickets == old(self)@.tickets,
            forall|k: u128|
                k != ticket.id ==> #[trigger] lookup(final(self)@.tickets, k) == lookup(old(self)@.tickets, k),
            exists|wizard_agrees: bool|
                is_verdict(ticket.payment_service_token, wizard_agrees, outcome),
            !(ticket.payment_service_token is Magic) ==> is_verdict(
                ticket.payment_service_token,
                false,
                outcome,
            ),
    {
        let verdict = has_payment_been_processed(&ticket.payment_service_token);
        self.record_ticket(ticket, verdict)
    }

    /// Deletes ticket `ticket_id` and hands it back, or says that there is
    /// no such ticket.
    pub fn delete_ticket(&mut self, ticket_id: u128) -> (outcome: Result<Ticket, TicketError>)
        ensures
            (final(self)@, outcome) == ticket_deletion(old(self)@, ticket_id),
            final(self)@.users == old(self)@.users,
            final(self)@.shows == old(self)@.shows,
            outcome matches Ok(t) ==> lookup(old(self)@.tickets, ticket_id) == Some(t),
            outcome is Err <==> lookup(old(self)@.tickets, ticket_id) is None,
            lookup(final(self)@.tickets, ticket_id) is None,
            forall|k: u128|
                k != ticket_id ==> #[trigger] lookup(final(self)@.tickets, k) == lookup(old(self)@.tickets, k),
    {
        match self.tickets.remove(&ticket_id) {
            Some(ticket) => Ok(ticket),
            None => {
                assert(self@.tickets =~= old(self)@.tickets);
                Err(TicketError::NoSuchTicket)
            },
        }
    }
}

} // verus!
