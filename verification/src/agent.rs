//! Pairing-authority requests and their single-use reply slots.
//!
//! Every call the pairing authority makes is turned into an
//! [`AgentEvent`] carrying a fresh one-shot reply slot and sent into the
//! dispatcher's channel; the caller then awaits the slot under a bounded
//! deadline. The dispatcher resolves the slot exactly once — by
//! confirmation, rejection or cancellation — and a resolution after the
//! deadline has passed is silently discarded, never an error.

use vstd::prelude::*;

use crate::devices::MacAddress;

verus! {

/// How long a pairing-authority call waits for its answer, in seconds.
pub const REPLY_TIMEOUT_SECS: u64 = 20;

/// Domain errors surfaced to the pairing authority: the operator
/// refused, or the question was withdrawn.
#[derive(Debug, Clone, PartialEq, Eq)]
pub enum BluezError {
    Rejected(String),
    Canceled(String),
}

/// Whether an outcome is an operator rejection.
pub open spec fn is_rejection<T>(r: Result<T, BluezError>) -> bool {
    r matches Err(BluezError::Rejected(_))
}

/// Whether an outcome is a cancellation.
pub open spec fn is_cancellation<T>(r: Result<T, BluezError>) -> bool {
    r matches Err(BluezError::Canceled(_))
}

/// The acknowledgement owed to a terminal signal: plain success.
pub fn ack_reply() -> (r: Result<(), BluezError>)
    ensures
        r == Ok::<(), BluezError>(()),
{
    Ok(())
}

/// The rejection owed to a question that arrives while another is
/// already pending: the newcomer is refused at once rather than
/// silently displacing the first.
pub fn busy_rejection() -> (r: Result<(), BluezError>)
    ensures
        r matches Err(BluezError::Rejected(m)) && m@ == "busy"@,
{
    Err(BluezError::Rejected(String::from_str("busy")))
}

/// The rejection owed to a free-form entry request: this design has no
/// text-entry popup, so the request is refused at once rather than
/// left to hang.
pub fn no_input_rejection<T>() -> (r: Result<T, BluezError>)
    ensures
        r matches Err(BluezError::Rejected(m)) && m@ == "no input method"@,
{
    Err(BluezError::Rejected(String::from_str("no input method")))
}

/// The outcome owed to a question that was withdrawn: by the authority
/// itself, by shutdown, or by a confirmation with no option chosen.
pub fn canceled_outcome() -> (r: Result<(), BluezError>)
    ensures
        r matches Err(BluezError::Canceled(m)) && m@ == "canceled"@,
{
    Err(BluezError::Canceled(String::from_str("canceled")))
}

/// Declares `tokio::sync::oneshot::Sender` so reply slots can stand in
/// the library's own types; the value is opaque here.
#[verifier::external_type_specification]
#[verifier::external_body]
#[verifier::reject_recursive_types(T)]
pub struct ExOneshotSender<T>(tokio::sync::oneshot::Sender<T>);

/// Relies on `tokio::sync::oneshot::Sender::send`: consumes the sender,
/// so a slot can be resolved at most once; when the receiver is already
/// gone the value comes back unchanged and nothing else happens.
pub assume_specification<T>[ tokio::sync::oneshot::Sender::<T>::send ](
    sender: tokio::sync::oneshot::Sender<T>,
    t: T,
) -> (r: Result<(), T>)
    ensures
        r matches Err(v) ==> v == t,
;

/// The write half of one request's single-use reply slot.
pub type Responder<T> = tokio::sync::oneshot::Sender<Result<T, BluezError>>;

/// One inbound pairing-authority operation, with the data needed to
/// pose its question and the reply slot its answer goes into.
pub enum AgentEvent {
    Release { tx: Responder<()> },
    RequestPincode { tx: Responder<String>, address: MacAddress },
    DisplayPincode { pincode: String, tx: Responder<()>, address: MacAddress },
    RequestPasskey { tx: Responder<u32>, address: MacAddress },
    DisplayPasskey { passkey: u32, tx: Responder<()>, address: MacAddress },
    RequestConfirmation { passkey: u32, tx: Responder<()>, address: MacAddress },
    RequestAuthorization { tx: Responder<()>, address: MacAddress },
    AuthorizeService { uuid: String, tx: Responder<()>, address: MacAddress },
    Cancel { tx: Responder<()> },
}

/// What the agent announces it can do when it registers with the
/// pairing authority.
#[derive(Debug, Clone, Copy, PartialEq, Eq, Structural)]
pub enum AgentCapability {
    DisplayOnly,
    DisplayYesNo,
    KeyboardDisplay,
    KeyboardOnly,
    NoInputNoOutput,
}

impl AgentCapability {
    /// The capability's name on the wire.
    pub fn as_str(&self) -> (r: &'static str)
        ensures
            r@ == match *self {
                AgentCapability::DisplayOnly => "DisplayOnly"@,
                AgentCapability::DisplayYesNo => "DisplayYesNo"@,
                AgentCapability::KeyboardDisplay => "KeyboardDisplay"@,
                AgentCapability::KeyboardOnly => "KeyboardOnly"@,
                AgentCapability::NoInputNoOutput => "NoInputNoOutput"@,
            },
    {
        match *self {
            AgentCapability::DisplayOnly => "DisplayOnly",
            AgentCapability::DisplayYesNo => "DisplayYesNo",
            AgentCapability::KeyboardDisplay => "KeyboardDisplay",
            AgentCapability::KeyboardOnly => "KeyboardOnly",
            AgentCapability::NoInputNoOutput => "NoInputNoOutput",
        }
    }
}

} // verus!
