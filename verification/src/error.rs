//! The single caller-facing failure and how engine failures are turned into it.

use vstd::prelude::*;

verus! {

/// The failures this layer defines.
#[derive(Clone, Copy, Debug, PartialEq, Eq, Structural)]
pub enum Error {
    /// The call to runtime failed.
    RuntimeError,
}

impl From<Error> for i64 {
    fn from(e: Error) -> (code: i64) {
        match e {
            Error::RuntimeError => 1,
        }
    }
}

impl vstd::std_specs::convert::FromSpecImpl<Error> for i64 {
    open spec fn obeys_from_spec() -> bool {
        true
    }

    open spec fn from_spec(e: Error) -> i64 {
        match e {
            Error::RuntimeError => 1,
        }
    }
}

/// The four remote procedures, as far as error reporting tells them apart.
#[derive(Clone, Copy, Debug, PartialEq, Eq, Structural)]
pub enum Operation {
    SpotPrice,
    SellPrice,
    BuyPrice,
    PoolBalances,
}

impl Operation {
    /// The fixed text a caller reads when this operation fails.
    pub open spec fn failure_text(self) -> Seq<char> {
        match self {
            Operation::SpotPrice => "Unable to get spot price."@,
            Operation::SellPrice => "Unable to calculate sell price."@,
            Operation::BuyPrice => "Unable to calculate buy price."@,
            Operation::PoolBalances => "Unable to retrieve pool balances."@,
        }
    }

    /// The text of [`Operation::failure_text`], to put into an error.
    pub fn failure_message(self) -> (message: &'static str)
        ensures
            message@ == self.failure_text(),
    {
        match self {
            Operation::SpotPrice => "Unable to get spot price.",
            Operation::SellPrice => "Unable to calculate sell price.",
            Operation::BuyPrice => "Unable to calculate buy price.",
            Operation::PoolBalances => "Unable to retrieve pool balances.",
        }
    }
}

/// The error a caller receives: a stable code, a short fixed message and a
/// free-form diagnostic that is meant for people, never for programs.
#[derive(Clone, Debug, PartialEq, Eq)]
pub struct RpcError {
    pub code: i64,
    pub message: String,
    pub data: Option<String>,
}

impl RpcError {
    /// `self` reports a failed runtime call under the given message.
    pub open spec fn is_runtime_failure(self, message: Seq<char>) -> bool {
        &&& self.code == 1
        &&& self.message@ == message
        &&& self.data is Some
    }
}

/// Renders a failure through `Debug`, as `format!("{:?}", ..)` does. Nothing
/// is claimed of the text: the rendering belongs to the failure's type and may
/// change between releases.
#[verifier::external_body]
fn debug_rendering<E: core::fmt::Debug>(failure: &E) -> String {
    format!("{:?}", failure)
}

/// Turns any engine failure into the one error this layer reports: code 1,
/// the given message, and the failure's `Debug` rendering as diagnostic.
pub fn translate<E: core::fmt::Debug>(failure: &E, message: &str) -> (error: RpcError)
    ensures
        error.is_runtime_failure(message@),
{
    RpcError {
        code: i64::from(Error::RuntimeError),
        message: String::from_str(message),
        data: Some(debug_rendering(failure)),
    }
}

/// Hands an engine's answer through, or translates its failure.
pub fn wrap_outcome<T, E: core::fmt::Debug>(outcome: Result<T, E>, operation: Operation) -> (reply:
    Result<T, RpcError>)
    ensures
        answers(outcome, operation, reply),
{
    match outcome {
        Ok(value) => Ok(value),
        Err(failure) => Err(translate(&failure, operation.failure_message())),
    }
}

/// What a reply must be for a given engine outcome: the engine's value
/// itself, or a runtime failure under the operation's message.
pub open spec fn answers<T, E>(outcome: Result<T, E>, operation: Operation, reply: Result<
    T,
    RpcError,
>) -> bool {
    match outcome {
        Ok(value) => reply == Ok::<T, RpcError>(value),
        Err(_) => reply is Err && reply->Err_0.is_runtime_failure(operation.failure_text()),
    }
}

} // verus!
