use crate::payments::{is_verdict, PaymentError, PaymentService};
use crate::show::{Show, ShowError};
use crate::state::{
    admin_in, lookup, show_creation, show_deletion, ticket_deletion, ticket_recording, user_creation,
    user_deletion, StateView,
};
use crate::ticket::{Ticket, TicketError};
use crate::user::{User, UserError};
use vstd::prelude::*;

verus! {

/// A user that was just stored is what a lookup of its id gives back, and
/// every user with another id is what it was.
pub proof fn user_read_after_create(s: StateView, user: User)
    ensures
        lookup(user_creation(s, user).users, user.id) == Some(user),
        forall|k: u128|
            k != user.id ==> #[trigger] lookup(user_creation(s, user).users, k) == lookup(s.users, k),
{
}

/// Deleting user `user_id` succeeds exactly when that user is there, hands
/// back the stored user, leaves no user with that id, and leaves every user
/// with another id as it was.
pub proof fn user_deletion_removes_only_that_user(s: StateView, user_id: u128)
    ensures
        match user_deletion(s, user_id).1 {
            Ok(u) => lookup(s.users, user_id) == Some(u),
            Err(e) => lookup(s.users, user_id) is None && e == UserError::NoSuchUser(user_id),
        },
        lookup(user_deletion(s, user_id).0.users, user_id) is None,
        forall|k: u128|
            k != user_id ==> #[trigger] lookup(user_deletion(s, user_id).0.users, k) == lookup(
                s.users,
                k,
            ),
{
}

/// Whoever asks, creating a show leaves every show with another id as it
/// was; when an admin asks, the show is accepted and is what a lookup of its
/// id gives back.
pub proof fn show_creation_adds_only_that_show(s: StateView, user_id: u128, show: Show)
    ensures
        forall|k: u128|
            k != show.id ==> #[trigger] lookup(show_creation(s, user_id, show).0.shows, k) == lookup(
                s.shows,
                k,
            ),
        admin_in(s.users, user_id) ==> lookup(show_creation(s, user_id, show).0.shows, show.id)
            == Some(show),
        show_creation(s, user_id, show).1 is Ok <==> admin_in(s.users, user_id),
{
}

/// Deleting show `show_id` succeeds exactly when an admin asks and the show
/// is there, hands back the stored show and leaves none with that id; it is
/// refused as missing exactly when an admin asks for a show that is not
/// there; and every show with another id is as it was.
pub proof fn show_deletion_removes_only_that_show(s: StateView, user_id: u128, show_id: u128)
    ensures
        match show_deletion(s, user_id, show_id).1 {
            Ok(sh) => admin_in(s.users, user_id) && lookup(s.shows, show_id) == Some(sh) && lookup(
                show_deletion(s, user_id, show_id).0.shows,
                show_id,
            ) is None,
            Err(ShowError::NoSuchShow) => admin_in(s.users, user_id) && lookup(s.shows, show_id) is None,
            Err(ShowError::Unauthorized) => !admin_in(s.users, user_id),
        },
        forall|k: u128|
            k != show_id ==> #[trigger] lookup(show_deletion(s, user_id, show_id).0.shows, k) == lookup(
                s.shows,
                k,
            ),
{
}

/// Taking in a ticket leaves every ticket with another id as it was; when
/// its payment went through, the ticket is what a lookup of its id gives
/// back.
pub proof fn ticket_recording_adds_only_that_ticket(
    s: StateView,
    ticket: Ticket,
    verdict: Result<(), PaymentError>,
)
    ensures
        forall|k: u128|
            k != ticket.id ==> #[trigger] lookup(ticket_recording(s, ticket, verdict).tickets, k)
                == lookup(s.tickets, k),
        verdict is Ok ==> lookup(ticket_recording(s, ticket, verdict).tickets, ticket.id) == Some(
            ticket,
        ),
        verdict is Err ==> ticket_recording(s, ticket, verdict).tickets == s.tickets,
{
}

/// Deleting ticket `ticket_id` succeeds exactly when that ticket is there,
/// hands back the stored ticket, leaves no ticket with that id, and leaves
/// every ticket with another id as it was.
pub proof fn ticket_deletion_removes_only_that_ticket(s: StateView, ticket_id: u128)
    ensures
        match ticket_deletion(s, ticket_id).1 {
            Ok(t) => lookup(s.tickets, ticket_id) == Some(t),
            Err(e) => lookup(s.tickets, ticket_id) is None && e == TicketError::NoSuchTicket,
        },
        lookup(ticket_deletion(s, ticket_id).0.tickets, ticket_id) is None,
        forall|k: u128|
            k != ticket_id ==> #[trigger] lookup(ticket_deletion(s, ticket_id).0.tickets, k) == lookup(
                s.tickets,
                k,
            ),
{
}

/// Deleting a user that was just stored hands that user back and leaves
/// no user with its id.
pub proof fn user_delete_after_create(s: StateView, user: User)
    ensures
        user_deletion(user_creation(s, user), user.id).1 == Ok::<User, UserError>(user),
        lookup(user_deletion(user_creation(s, user), user.id).0.users, user.id) is None,
{
}

/// The same user cannot be deleted twice: whatever the first deletion did,
/// the second is refused and changes nothing.
pub proof fn user_delete_twice(s: StateView, user_id: u128)
    ensures
        ({
            let after = user_deletion(s, user_id).0;
            &&& user_deletion(after, user_id).1 == Err::<User, UserError>(UserError::NoSuchUser(user_id))
            &&& user_deletion(after, user_id).0 == after
        }),
{
}

/// A user who is unknown or not an admin can neither create nor delete a
/// show, and the refusal changes nothing.
pub proof fn non_admin_cannot_manage_shows(s: StateView, user_id: u128, show: Show, show_id: u128)
    requires
        !admin_in(s.users, user_id),
    ensures
        show_creation(s, user_id, show) == (s, Err::<Show, ShowError>(ShowError::Unauthorized)),
        show_deletion(s, user_id, show_id) == (s, Err::<Show, ShowError>(ShowError::Unauthorized)),
{
}

/// A show an admin creates is accepted and is what a lookup of its id
/// gives back; the same admin deleting it then gets it back, after which
/// no show has its id.
pub proof fn admin_show_round_trip(s: StateView, user_id: u128, show: Show)
    requires
        admin_in(s.users, user_id),
    ensures
        show_creation(s, user_id, show).1 == Ok::<Show, ShowError>(show),
        lookup(show_creation(s, user_id, show).0.shows, show.id) == Some(show),
        show_deletion(show_creation(s, user_id, show).0, user_id, show.id).1 == Ok::<
            Show,
            ShowError,
        >(show),
        lookup(show_deletion(show_creation(s, user_id, show).0, user_id, show.id).0.shows, show.id)
            is None,
{
}

/// Each kind of request changes only its own store: requests on users keep
/// the shows and tickets, requests on shows keep the users and tickets, and
/// requests on tickets keep the users and shows.
pub proof fn requests_touch_only_their_store(
    s: StateView,
    user: User,
    user_id: u128,
    show: Show,
    show_id: u128,
    ticket: Ticket,
    verdict: Result<(), PaymentError>,
    ticket_id: u128,
)
    ensures
        user_creation(s, user).shows == s.shows && user_creation(s, user).tickets == s.tickets,
        user_deletion(s, user_id).0.shows == s.shows && user_deletion(s, user_id).0.tickets
            == s.tickets,
        show_creation(s, user_id, show).0.users == s.users && show_creation(
            s,
            user_id,
            show,
        ).0.tickets == s.tickets,
        show_deletion(s, user_id, show_id).0.users == s.users && show_deletion(
            s,
            user_id,
            show_id,
        ).0.tickets == s.tickets,
        ticket_recording(s, ticket, verdict).users == s.users && ticket_recording(
            s,
            ticket,
            verdict,
        ).shows == s.shows,
        ticket_deletion(s, ticket_id).0.users == s.users && ticket_deletion(s, ticket_id).0.shows
            == s.shows,
{
}

/// A ticket is taken in exactly when its payment went through: then it is
/// what a lookup of its id gives back, and deleting it hands it back;
/// otherwise nothing changes.
pub proof fn ticket_kept_iff_paid(s: StateView, ticket: Ticket, verdict: Result<(), PaymentError>)
    ensures
        verdict is Ok ==> lookup(ticket_recording(s, ticket, verdict).tickets, ticket.id) == Some(
            ticket,
        ),
        verdict is Ok ==> ticket_deletion(ticket_recording(s, ticket, verdict), ticket.id).1
            == Ok::<Ticket, TicketError>(ticket),
        verdict is Err ==> ticket_recording(s, ticket, verdict) == s,
{
}

/// Only a magic payment can go through, and every other payment gets the
/// same answer whatever the wizard says.
pub proof fn only_magic_goes_through(
    payment: PaymentService,
    wizard_agrees: bool,
    other_answer: bool,
    verdict: Result<(), PaymentError>,
)
    ensures
        is_verdict(payment, wizard_agrees, verdict) && verdict is Ok ==> payment is Magic,
        !(payment is Magic) ==> (is_verdict(payment, wizard_agrees, verdict) <==> is_verdict(
            payment,
            other_answer,
            verdict,
        )),
{
}

} // verus!
