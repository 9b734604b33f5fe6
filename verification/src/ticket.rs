use crate::payments::PaymentService;
use crate::time::Timestamp;
use vstd::prelude::*;

verus! {

/// A ticket a user bought for a show.
#[derive(Debug)]
pub struct Ticket {
    pub id: u128,
    pub user_id: u128,
    pub show_id: u128,
    /// The price in cents.
    pub price: usize,
    pub purchase_time: Timestamp,
    pub payment_service_token: PaymentService,
}

impl Clone for Ticket {
    fn clone(&self) -> (copy: Self)
        ensures
            copy == *self,
    {
        Ticket {
            id: self.id,
            user_id: self.user_id,
            show_id: self.show_id,
            price: self.price,
            purchase_time: self.purchase_time,
            payment_service_token: self.payment_service_token.clone(),
        }
    }
}

/// Why a request on the tickets was refused.
#[derive(Clone, Copy, Debug, PartialEq, Eq, Structural)]
pub enum TicketError {
    /// No ticket has the id asked for.
    NoSuchTicket,
}

impl TicketError {
    /// The HTTP status of the refusal.
    pub fn status(&self) -> (code: u16)
        ensures
            code == 400,
    {
        400
    }

    /// The text that explains the refusal.
    pub fn message(&self) -> (text: String)
        ensures
            text@ == "No such ticket exists"@,
    {
        "No such ticket exists".to_owned()
    }
}

} // verus!
