use vstd::prelude::*;

verus! {

/// The service a ticket was paid through, with the token by which that
/// service tracks the transaction.
#[derive(Debug)]
pub enum PaymentService {
    PayPal(u128),
    Stripe(String),
    Bitcoin(usize),
    Magic,
}

/// Why a payment is not (yet) known to have gone through.
#[derive(Debug, PartialEq, Eq)]
pub enum PaymentError {
    PaymentDNE,
    PaypalIsDown,
    TheWizardIsBeingLazy,
    DaveSpilledCoffeeOnAllTheAWSServers,
    Other(String),
}

impl PaymentError {
    /// The HTTP status with which a ticket whose payment check gave this
    /// error is refused: the server could not confirm the payment.
    pub fn status(&self) -> (code: u16)
        ensures
            code == 500,
    {
        500
    }
}

impl Clone for PaymentService {
    fn clone(&self) -> (copy: Self)
        ensures
            copy == *self,
    {
        match self {
            PaymentService::PayPal(id) => PaymentService::PayPal(*id),
            PaymentService::Stripe(token) => PaymentService::Stripe(token.clone()),
            PaymentService::Bitcoin(block) => PaymentService::Bitcoin(*block),
            PaymentService::Magic => PaymentService::Magic,
        }
    }
}

impl Clone for PaymentError {
    fn clone(&self) -> (copy: Self)
        ensures
            copy == *self,
    {
        match self {
            PaymentError::PaymentDNE => PaymentError::PaymentDNE,
            PaymentError::PaypalIsDown => PaymentError::PaypalIsDown,
            PaymentError::TheWizardIsBeingLazy => PaymentError::TheWizardIsBeingLazy,
            PaymentError::DaveSpilledCoffeeOnAllTheAWSServers => {
                PaymentError::DaveSpilledCoffeeOnAllTheAWSServers
            },
            PaymentError::Other(why) => PaymentError::Other(why.clone()),
        }
    }
}

/// What a check of `payment` answers when the wizard behind a magic payment
/// says yes (`wizard_agrees`) or not: PayPal is down, the Bitcoin chain has
/// crashed, a magic payment stands or falls with the wizard, and no other
/// payment exists as far as the checks know.
pub open spec fn is_verdict(
    payment: PaymentService,
    wizard_agrees: bool,
    verdict: Result<(), PaymentError>,
) -> bool {
    match payment {
        PaymentService::PayPal(_) => verdict == Err::<(), PaymentError>(PaymentError::PaypalIsDown),
        PaymentService::Bitcoin(_) => verdict matches Err(PaymentError::Other(why)) && why@
            == "BTC Crashed Again"@,
        PaymentService::Magic => if wizard_agrees {
            verdict == Ok::<(), PaymentError>(())
        } else {
            verdict == Err::<(), PaymentError>(PaymentError::TheWizardIsBeingLazy)
        },
        PaymentService::Stripe(_) => verdict == Err::<(), PaymentError>(PaymentError::PaymentDNE),
    }
}

/// Calls `rand::random::<bool>()`, a value drawn from the thread-local
/// generator: nothing is stated of which one comes back.
#[verifier::external_body]
fn ask_the_wizard() -> (agrees: bool) {
    rand::random::<bool>()
}

/// The answer to a payment check, given what the wizard said for a magic
/// payment.
pub fn payment_outcome(payment: &PaymentService, wizard_agrees: bool) -> (verdict: Result<
    (),
    PaymentError,
>)
    ensures
        is_verdict(*payment, wizard_agrees, verdict),
{
    match payment {
        PaymentService::PayPal(_) => Err(PaymentError::PaypalIsDown),
        PaymentService::Bitcoin(_) => Err(PaymentError::Other("BTC Crashed Again".to_owned())),
        PaymentService::Magic => if wizard_agrees {
            Ok(())
        } else {
            Err(PaymentError::TheWizardIsBeingLazy)
        },
        PaymentService::Stripe(_) => Err(PaymentError::PaymentDNE),
    }
}

/// Checks whether a payment has gone through. Only a magic payment can, and
/// whether it has is the wizard's whim; every other payment gets the same
/// answer on every check.
pub fn has_payment_been_processed(payment: &PaymentService) -> (verdict: Result<(), PaymentError>)
    ensures
        exists|wizard_agrees: bool| is_verdict(*payment, wizard_agrees, verdict),
        !(payment is Magic) ==> is_verdict(*payment, false, verdict),
{
    match payment {
        PaymentService::Magic => {
            let agrees = ask_the_wizard();
            payment_outcome(payment, agrees)
        },
        _ => payment_outcome(payment, false),
    }
}

/// Hands a payment over to be checked with its service. No service is
/// reached yet, so nothing is done.
pub fn start_payment_processing(payment: PaymentService) {
    match payment {
        PaymentService::PayPal(_) => {},
        PaymentService::Bitcoin(_) => {},
        PaymentService::Magic => {},
        _ => {},
    }
}

} // verus!
