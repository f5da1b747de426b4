//! The pairing handshake as a state machine: a key is asked for, the device
//! is given time to listen again, the key is confirmed, and the identity of
//! the device is read. The requests themselves are made elsewhere; this
//! module says which one comes next.

use vstd::prelude::*;
use vstd::string::StringExecFns;
use crate::api::db::SensorEntity;
use crate::common::SENSOR_PORT;
use crate::text::decimal_chars;
use crate::text::u64_to_string;

verus! {

/// Pause after each request, in milliseconds, in which the device closes
/// its socket and listens again.
pub const SETTLE_MS: u64 = 200;

/// Attempts of each request of the handshake.
pub const ATTEMPTS: usize = 3;

/// The address of a route on the device at `host`:
/// `http://<host>:<port>/<path>`.
pub fn endpoint(host: &str, path: &str) -> (url: String)
    ensures
        url@ == "http://"@ + host@ + ":"@ + decimal_chars(SENSOR_PORT as nat) + "/"@ + path@,
{
    let mut url = String::from_str("http://");
    url.append(host);
    url.append(":");
    url.append(u64_to_string(SENSOR_PORT as u64).as_str());
    url.append("/");
    url.append(path);
    url
}

/// Why a handshake ended without a paired sensor.
#[derive(Debug)]
pub enum PairingError {
    /// A request could not be sent or its reply not be read, with the
    /// reason in words.
    Transport(String),
    /// The device answered with an error, whose message this is.
    Refused(String),
    /// The device answered the confirmation with a status that is no
    /// success.
    Unsuccessful,
    /// An event arrived that the current step does not wait for.
    OutOfOrder,
}

/// What is said of a handshake that ends on a status that is no success.
pub const PAIRING_FAILED: &'static str = "Pairing failed";

/// What is said of an event that a step does not wait for.
pub const OUT_OF_ORDER: &'static str = "Unexpected step in pairing";

impl PairingError {
    /// The error in words: the reason of a transport failure, the message
    /// of a refusal, or a fixed text.
    pub fn message(&self) -> (m: String)
        ensures
            m@ == (match self {
                PairingError::Transport(reason) => reason@,
                PairingError::Refused(message) => message@,
                PairingError::Unsuccessful => PAIRING_FAILED@,
                PairingError::OutOfOrder => OUT_OF_ORDER@,
            }),
    {
        match self {
            PairingError::Transport(reason) => reason.clone(),
            PairingError::Refused(message) => message.clone(),
            PairingError::Unsuccessful => String::from_str(PAIRING_FAILED),
            PairingError::OutOfOrder => String::from_str(OUT_OF_ORDER),
        }
    }
}

/// What the device, or the way to it, answered to a request.
#[derive(Debug)]
pub enum Reply<T> {
    /// The reply in its success shape.
    Success(T),
    /// The reply in its error shape, with its message.
    Error(String),
    /// No reply: the reason in words.
    Unreachable(String),
}

/// The step that a handshake is at.
#[derive(Debug)]
pub enum Pairing {
    /// Nothing has happened yet.
    Idle,
    /// `POST /pair` is on its way.
    AwaitingKey,
    /// The key is here; the device settles.
    KeySettling { id: String },
    /// `POST /pair/confirm` is on its way.
    AwaitingConfirm { id: String },
    /// The key is confirmed; the device settles.
    ConfirmSettling { id: String },
    /// `GET /sensor` is on its way.
    AwaitingIdentity { id: String },
    /// The handshake is over.
    Closed,
}

/// What happened since the last step.
#[derive(Debug)]
pub enum PairingEvent {
    /// The caller asks for a sensor to be paired.
    Begin,
    /// The answer to `POST /pair`: the key that the device issued.
    Key(Reply<String>),
    /// A pause is over.
    Settled,
    /// The answer to `POST /pair/confirm`: the status of the reply.
    Confirm(Reply<u16>),
    /// The answer to `GET /sensor`: the identity of the device.
    Identity(Reply<SensorEntity>),
}

/// What is to be done next.
#[derive(Debug)]
pub enum PairingAction {
    /// Send `POST /pair`.
    RequestKey,
    /// Sleep for this many milliseconds.
    Settle(u64),
    /// Send `POST /pair/confirm` with this key in the pairing header.
    ConfirmKey(String),
    /// Send `GET /sensor`.
    ReadIdentity,
    /// The sensor is paired: this is it, with its key.
    Paired(SensorEntity),
    /// The handshake failed; nothing of it is kept.
    Abort(PairingError),
}

/// The failure that a reply without success stands for.
pub open spec fn failure_of<T>(reply: Reply<T>) -> PairingError {
    match reply {
        Reply::Error(message) => PairingError::Refused(message),
        Reply::Unreachable(reason) => PairingError::Transport(reason),
        Reply::Success(_) => PairingError::OutOfOrder,
    }
}

/// The next step and what is to be done, given the step that the handshake
/// is at and what happened. Every request follows the success of the one
/// before it; a reply without success, a confirmation with a status
/// outside `200..=299` and an event out of order all end the handshake.
pub open spec fn next(state: Pairing, event: PairingEvent) -> (Pairing, PairingAction) {
    match (state, event) {
        (Pairing::Idle, PairingEvent::Begin) => (Pairing::AwaitingKey, PairingAction::RequestKey),
        (Pairing::AwaitingKey, PairingEvent::Key(Reply::Success(id))) => (
            Pairing::KeySettling { id },
            PairingAction::Settle(SETTLE_MS),
        ),
        (Pairing::AwaitingKey, PairingEvent::Key(reply)) => (
            Pairing::Closed,
            PairingAction::Abort(failure_of(reply)),
        ),
        (Pairing::KeySettling { id }, PairingEvent::Settled) => (
            Pairing::AwaitingConfirm { id },
            PairingAction::ConfirmKey(id),
        ),
        (Pairing::AwaitingConfirm { id }, PairingEvent::Confirm(Reply::Success(status))) => if 200
            <= status <= 299 {
            (Pairing::ConfirmSettling { id }, PairingAction::Settle(SETTLE_MS))
        } else {
            (Pairing::Closed, PairingAction::Abort(PairingError::Unsuccessful))
        },
        (Pairing::AwaitingConfirm { id }, PairingEvent::Confirm(reply)) => (
            Pairing::Closed,
            PairingAction::Abort(failure_of(reply)),
        ),
        (Pairing::ConfirmSettling { id }, PairingEvent::Settled) => (
            Pairing::AwaitingIdentity { id },
            PairingAction::ReadIdentity,
        ),
        (Pairing::AwaitingIdentity { id }, PairingEvent::Identity(Reply::Success(sensor))) => (
            Pairing::Closed,
            PairingAction::Paired(SensorEntity { pair_id: Some(id), ..sensor }),
        ),
        (Pairing::AwaitingIdentity { id }, PairingEvent::Identity(reply)) => (
            Pairing::Closed,
            PairingAction::Abort(failure_of(reply)),
        ),
        _ => (Pairing::Closed, PairingAction::Abort(PairingError::OutOfOrder)),
    }
}

fn fail<T>(reply: Reply<T>) -> (e: PairingError)
    ensures
        e == failure_of(reply),
{
    match reply {
        Reply::Error(message) => PairingError::Refused(message),
        Reply::Unreachable(reason) => PairingError::Transport(reason),
        Reply::Success(_) => PairingError::OutOfOrder,
    }
}

fn abort(error: PairingError) -> (r: (Pairing, PairingAction))
    ensures
        r == (Pairing::Closed, PairingAction::Abort(error)),
{
    (Pairing::Closed, PairingAction::Abort(error))
}

impl Pairing {
    /// A handshake that has not begun.
    pub fn new() -> (p: Pairing)
        ensures
            p == Pairing::Idle,
    {
        Pairing::Idle
    }

    /// Takes the handshake one step further.
    pub fn advance(self, event: PairingEvent) -> (r: (Pairing, PairingAction))
        ensures
            r == next(self, event),
    {
        match self {
            Pairing::Idle => match event {
                PairingEvent::Begin => (Pairing::AwaitingKey, PairingAction::RequestKey),
                _ => abort(PairingError::OutOfOrder),
            },
            Pairing::AwaitingKey => match event {
                PairingEvent::Key(reply) => match reply {
                    Reply::Success(id) => (
                        Pairing::KeySettling { id },
                        PairingAction::Settle(SETTLE_MS),
                    ),
                    other => abort(fail(other)),
                },
                _ => abort(PairingError::OutOfOrder),
            },
            Pairing::KeySettling { id } => match event {
                PairingEvent::Settled => {
                    let key = id.clone();
                    (Pairing::AwaitingConfirm { id }, PairingAction::ConfirmKey(key))
                },
                _ => abort(PairingError::OutOfOrder),
            },
            Pairing::AwaitingConfirm { id } => match event {
                PairingEvent::Confirm(reply) => match reply {
                    Reply::Success(status) => if 200 <= status && status <= 299 {
                        (Pairing::ConfirmSettling { id }, PairingAction::Settle(SETTLE_MS))
                    } else {
                        abort(PairingError::Unsuccessful)
                    },
                    other => abort(fail(other)),
                },
                _ => abort(PairingError::OutOfOrder),
            },
            Pairing::ConfirmSettling { id } => match event {
                PairingEvent::Settled => (
                    Pairing::AwaitingIdentity { id },
                    PairingAction::ReadIdentity,
                ),
                _ => abort(PairingError::OutOfOrder),
            },
            Pairing::AwaitingIdentity { id } => match event {
                PairingEvent::Identity(reply) => match reply {
                    Reply::Success(sensor) => {
                        let mut sensor = sensor;
                        sensor.pair_id = Some(id);
                        (Pairing::Closed, PairingAction::Paired(sensor))
                    },
                    other => abort(fail(other)),
                },
                _ => abort(PairingError::OutOfOrder),
            },
            Pairing::Closed => abort(PairingError::OutOfOrder),
        }
    }

    /// Whether the handshake is over.
    pub fn is_closed(&self) -> (b: bool)
        ensures
            b == (*self == Pairing::Closed),
    {
        match self {
            Pairing::Closed => true,
            _ => false,
        }
    }
}

/// The key that a step of the handshake carries, if it has one.
pub open spec fn key_of(state: Pairing) -> Option<String> {
    match state {
        Pairing::KeySettling { id } => Some(id),
        Pairing::AwaitingConfirm { id } => Some(id),
        Pairing::ConfirmSettling { id } => Some(id),
        Pairing::AwaitingIdentity { id } => Some(id),
        _ => None,
    }
}

/// A handshake ends with a paired sensor only at its last step, and the
/// sensor then carries the key that the handshake holds; every abort
/// closes the handshake, so that nothing of a failed attempt is kept.
pub proof fn lemma_pairing_ends(state: Pairing, event: PairingEvent)
    ensures
        match next(state, event).1 {
            PairingAction::Paired(sensor) => state is AwaitingIdentity && sensor.pair_id == key_of(
                state,
            ) && next(state, event).0 == Pairing::Closed,
            PairingAction::Abort(_) => next(state, event).0 == Pairing::Closed,
            PairingAction::ConfirmKey(id) => Some(id) == key_of(state),
            _ => next(state, event).0 != Pairing::Closed,
        },
        key_of(next(state, event).0).is_some() && key_of(state).is_some() ==> key_of(
            next(state, event).0,
        ) == key_of(state),
{
}

} // verus!
