//! The callback listener: accepts exactly one meaningful callback from
//! the provider's browser redirect, extracts the `code`, `error` and
//! `state` query parameters, and guards its one-shot completion slot so
//! that a second callback cannot overwrite the first outcome. The
//! embedding application binds the HTTP server and hands each request's
//! query string to `handle_callback`.

use vstd::prelude::*;
use vstd::string::StringExecFns;

use crate::codec::copy_bytes_into;
use crate::codec::parse_query;
use crate::codec::lookup_param;
use crate::codec::query_pairs;
use crate::codec::spec_lookup;
use crate::codec::str_to_bytes;
use crate::codec::utf8_bytes;
use crate::errors::InstalledAppError;
use crate::errors::InstalledAppErrorV;
use crate::outside::bytes_to_string_lossy;
use crate::outside::utf8_lossy_of;

verus! {

/// A short-lived listener for one installed-app authorization attempt:
/// the expected `state` value, and the one-shot slot the first meaningful
/// callback fills.
#[derive(Debug)]
pub struct CallbackListener {
    expected_state: Vec<u8>,
    slot: Option<Result<Vec<u8>, InstalledAppError>>,
}

/// The mathematical value of a `CallbackListener`.
pub struct CallbackListenerV {
    /// The expected `state` value, as bytes.
    pub expected_state: Seq<u8>,
    /// The outcome of the first meaningful callback, once one arrived.
    pub slot: Option<Result<Seq<u8>, InstalledAppErrorV>>,
}

impl View for CallbackListener {
    type V = CallbackListenerV;

    closed spec fn view(&self) -> CallbackListenerV {
        CallbackListenerV {
            expected_state: self.expected_state@,
            slot: match self.slot {
                Some(Ok(ref c)) => Some(Ok(c@)),
                Some(Err(ref e)) => Some(Err(e@)),
                None => None,
            },
        }
    }
}

/// The mathematical value of one callback reply.
pub open spec fn reply_view(r: Result<Vec<u8>, InstalledAppError>) -> Result<
    Seq<u8>,
    InstalledAppErrorV,
> {
    match r {
        Ok(c) => Ok(c@),
        Err(e) => Err(e@),
    }
}

/// What one callback with query string `q` means to a listener armed with
/// `expected`: an `error` parameter is the provider's failure, with its
/// message decoded; otherwise a missing or mismatched `state` parameter,
/// or a missing `code`, is a mismatched callback; otherwise the callback
/// completes with the `code` value. Repeated parameters read as their
/// last occurrence.
pub open spec fn spec_callback_outcome(q: Seq<u8>, expected: Seq<u8>) -> Result<
    Seq<u8>,
    InstalledAppErrorV,
> {
    let pairs = query_pairs(q);
    match spec_lookup(pairs, utf8_bytes("error"@)) {
        Some(e) => Err(InstalledAppErrorV::ProviderError { msg: utf8_lossy_of(e) }),
        None => match spec_lookup(pairs, utf8_bytes("state"@)) {
            Some(st) => {
                if st == expected {
                    match spec_lookup(pairs, utf8_bytes("code"@)) {
                        Some(c) => Ok(c),
                        None => Err(InstalledAppErrorV::MismatchedState),
                    }
                } else {
                    Err(InstalledAppErrorV::MismatchedState)
                }
            },
            None => Err(InstalledAppErrorV::MismatchedState),
        },
    }
}

impl CallbackListener {
    /// Arms a listener with the expected `state` value. The slot is empty
    /// until the first meaningful callback arrives.
    pub fn arm(state: &str) -> (r: CallbackListener)
        ensures
            r@.expected_state == utf8_bytes(state@),
            r@.slot is None,
    {
        CallbackListener { expected_state: str_to_bytes(state), slot: None }
    }

    /// True once the slot has been filled by a callback.
    pub fn is_completed(&self) -> (r: bool)
        ensures
            r == (self@.slot is Some),
    {
        match &self.slot {
            Some(_) => true,
            None => false,
        }
    }

    /// The outcome the listener completed with, if any.
    pub fn outcome(&self) -> (r: Option<Result<Vec<u8>, InstalledAppError>>)
        ensures
            match r {
                Some(o) => self@.slot == Some(reply_view(o)),
                None => self@.slot is None,
            },
    {
        match &self.slot {
            None => None,
            Some(Ok(c)) => {
                let mut copy: Vec<u8> = Vec::new();
                copy_bytes_into(&mut copy, c);
                Some(Ok(copy))
            },
            Some(Err(e)) => Some(Err(e.clone_value())),
        }
    }

    /// Takes one incoming callback's query string. The first meaningful
    /// callback fills the slot with its outcome, as
    /// `spec_callback_outcome` describes, and that outcome is returned to
    /// it; every later callback is answered `AlreadyReceived` and leaves
    /// the slot untouched.
    pub fn handle_callback(&mut self, query: &str) -> (r: Result<Vec<u8>, InstalledAppError>)
        ensures
            final(self)@.expected_state == old(self)@.expected_state,
            old(self)@.slot is Some ==> final(self)@ == old(self)@ && reply_view(r) == Err::<
                Seq<u8>,
                InstalledAppErrorV,
            >(InstalledAppErrorV::AlreadyReceived),
            old(self)@.slot is None ==> {
                let o = spec_callback_outcome(utf8_bytes(query@), old(self)@.expected_state);
                reply_view(r) == o && final(self)@.slot == Some(o)
            },
    {
        if self.is_completed() {
            return Err(InstalledAppError::AlreadyReceived);
        }
        let qbytes = str_to_bytes(query);
        let pairs = parse_query(&qbytes);
        let error_key = str_to_bytes("error");
        let state_key = str_to_bytes("state");
        let code_key = str_to_bytes("code");
        let outcome: Result<Vec<u8>, InstalledAppError> = match lookup_param(&pairs, &error_key) {
            Some(e) => Err(
                InstalledAppError::ProviderError { msg: bytes_to_string_lossy(&e) },
            ),
            None => match lookup_param(&pairs, &state_key) {
                Some(st) => {
                    if crate::codec::bytes_eq(&st, &self.expected_state) {
                        match lookup_param(&pairs, &code_key) {
                            Some(c) => Ok(c),
                            None => Err(InstalledAppError::MismatchedState),
                        }
                    } else {
                        Err(InstalledAppError::MismatchedState)
                    }
                },
                None => Err(InstalledAppError::MismatchedState),
            },
        };
        let stored: Result<Vec<u8>, InstalledAppError> = match &outcome {
            Ok(c) => {
                let mut copy: Vec<u8> = Vec::new();
                copy_bytes_into(&mut copy, c);
                Ok(copy)
            },
            Err(e) => Err(e.clone_value()),
        };
        self.slot = Some(stored);
        outcome
    }
}

impl InstalledAppError {
    /// A copy of this error with the same value.
    pub fn clone_value(&self) -> (r: InstalledAppError)
        ensures
            r@ == self@,
    {
        match self {
            InstalledAppError::ProviderError { msg } => InstalledAppError::ProviderError {
                msg: msg.clone(),
            },
            InstalledAppError::MismatchedState => InstalledAppError::MismatchedState,
            InstalledAppError::AlreadyReceived => InstalledAppError::AlreadyReceived,
            InstalledAppError::NeverReceived => InstalledAppError::NeverReceived,
        }
    }

    /// A human-readable description of this error, without any secret.
    pub fn message(&self) -> (r: String)
        ensures
            r@ == match self@ {
                InstalledAppErrorV::ProviderError { msg } => "Got an error from the provider: "@
                    + msg,
                InstalledAppErrorV::MismatchedState => "The states did not match"@,
                InstalledAppErrorV::AlreadyReceived => "A code was already received"@,
                InstalledAppErrorV::NeverReceived => "No callback was ever received"@,
            },
    {
        match self {
            InstalledAppError::ProviderError { msg } => {
                let mut out = String::new();
                out.append("Got an error from the provider: ");
                out.append(msg.as_str());
                proof {
                    assert(out@ =~= "Got an error from the provider: "@ + msg@);
                }
                out
            },
            InstalledAppError::MismatchedState => "The states did not match".to_owned(),
            InstalledAppError::AlreadyReceived => "A code was already received".to_owned(),
            InstalledAppError::NeverReceived => "No callback was ever received".to_owned(),
        }
    }
}

/// The default page shown to the user's browser for one callback outcome,
/// when the embedding application supplies no generator of its own.
pub fn default_response_body(outcome: &Result<Vec<u8>, InstalledAppError>) -> (r: String)
    ensures
        r@ == match outcome {
            Ok(_) => "Successfully authorized"@,
            Err(e) => "Failed to authorize app: "@ + match e@ {
                InstalledAppErrorV::ProviderError { msg } => "Got an error from the provider: "@
                    + msg,
                InstalledAppErrorV::MismatchedState => "The states did not match"@,
                InstalledAppErrorV::AlreadyReceived => "A code was already received"@,
                InstalledAppErrorV::NeverReceived => "No callback was ever received"@,
            },
        },
{
    match outcome {
        Ok(_) => "Successfully authorized".to_owned(),
        Err(e) => {
            let mut out = String::new();
            out.append("Failed to authorize app: ");
            let msg = e.message();
            out.append(msg.as_str());
            proof {
                assert(out@ =~= "Failed to authorize app: "@ + msg@);
            }
            out
        },
    }
}

} // verus!
