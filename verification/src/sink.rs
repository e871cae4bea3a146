//! The result sink: where a successful outcome's captured bytes go.
//!
//! With clipboard output requested, only the stdout bytes are forwarded, as
//! text — stderr is discarded on that path, and bytes that do not decode are
//! a terminal error, so no garbage ever reaches the clipboard. Otherwise
//! both streams go to the host process's own standard streams, verbatim.
use vstd::prelude::*;

use crate::driver::ExecutionOutcome;
use crate::driver::OutcomeModel;
use crate::errors::ErrorModel;
use crate::errors::ExecError;

verus! {

/// Where the host must route a successful outcome.
pub enum Delivery {
    /// Write `stdout` and `stderr` to the host's own standard streams.
    ToStreams { stdout: Vec<u8>, stderr: Vec<u8> },
    /// Write exactly this text to the clipboard; nothing else.
    ToClipboard { text: String },
}

/// Spec-level shape of a [`Delivery`].
#[verifier::ext_equal]
pub enum DeliveryModel {
    ToStreams { stdout: Seq<u8>, stderr: Seq<u8> },
    ToClipboard { text: Seq<char> },
}

impl View for Delivery {
    type V = DeliveryModel;

    open spec fn view(&self) -> DeliveryModel {
        match self {
            Delivery::ToStreams { stdout, stderr } => DeliveryModel::ToStreams {
                stdout: stdout@,
                stderr: stderr@,
            },
            Delivery::ToClipboard { text } => DeliveryModel::ToClipboard { text: text@ },
        }
    }
}

/// How an outcome is delivered: both streams verbatim, or stdout alone as
/// decoded text, or `InvalidUtf8Output` when it does not decode.
pub open spec fn delivery_model(o: OutcomeModel, to_clipboard: bool) -> Result<
    DeliveryModel,
    ErrorModel,
> {
    if !to_clipboard {
        Ok(DeliveryModel::ToStreams { stdout: o.stdout, stderr: o.stderr })
    } else if vstd::utf8::valid_utf8(o.stdout) {
        Ok(DeliveryModel::ToClipboard { text: vstd::utf8::decode_utf8(o.stdout) })
    } else {
        Err(ErrorModel::InvalidUtf8Output)
    }
}

/// Relies on `String::from_utf8`: it succeeds exactly on valid UTF-8 input
/// and returns the string of the decoded scalar values.
#[verifier::external_body]
pub(crate) fn utf8_to_string(bytes: Vec<u8>) -> (r: Option<String>)
    ensures
        r is Some <==> vstd::utf8::valid_utf8(bytes@),
        r matches Some(s) ==> s@ == vstd::utf8::decode_utf8(bytes@),
{
    String::from_utf8(bytes).ok()
}

/// Decides where a successful outcome's bytes go, per [`delivery_model`].
pub fn plan_delivery(outcome: ExecutionOutcome, to_clipboard: bool) -> (r: Result<
    Delivery,
    ExecError,
>)
    ensures
        r matches Ok(d) ==> delivery_model(outcome@, to_clipboard) == Ok::<
            DeliveryModel,
            ErrorModel,
        >(d@),
        r matches Err(e) ==> delivery_model(outcome@, to_clipboard) == Err::<
            DeliveryModel,
            ErrorModel,
        >(e@),
{
    if !to_clipboard {
        Ok(Delivery::ToStreams { stdout: outcome.stdout, stderr: outcome.stderr })
    } else {
        match utf8_to_string(outcome.stdout) {
            Some(text) => Ok(Delivery::ToClipboard { text }),
            None => Err(ExecError::InvalidUtf8Output),
        }
    }
}

} // verus!
