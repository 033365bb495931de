use vstd::prelude::*;

use crate::error::SignError;
use crate::header::{
    cleared, digest_of, digest_present, get_digest, has_digest, zero_digest, HEADER_SIZE,
};

verus! {

/// What to do with an input container before any validation.
#[derive(Debug)]
pub enum Plan {
    /// The container already carries this digest: nothing is to be validated or written.
    AlreadySigned([u32; 4]),
    /// These bytes are to be handed to the validator.
    Submit(Vec<u8>),
}

/// What the validator handed back for one container.
#[derive(Debug)]
pub enum ValidatorReply {
    /// The validator itself could not be run.
    CallFailed,
    /// The validator ran: the bytes it produced and the diagnostics it reported.
    Completed { output: Vec<u8>, diagnostics: Vec<String> },
}

/// The result of signing one container.
#[derive(Debug)]
pub enum Outcome {
    /// The input already carried this digest; the validator was not asked.
    AlreadySigned([u32; 4]),
    /// The validator produced these signed bytes.
    NewlySigned(Vec<u8>),
}

/// The bytes handed to the validator for `input`: an existing digest is cleared first.
pub open spec fn submitted(input: Seq<u8>) -> Seq<u8> {
    if digest_present(input) {
        cleared(input)
    } else {
        input
    }
}

/// Whether `input` is left alone: it carries a digest and re-validation is not forced.
pub open spec fn keeps_digest(input: Seq<u8>, force: bool) -> bool {
    digest_present(input) && !force
}

/// The error that a validator reply amounts to, if any.
pub open spec fn reply_error(reply: ValidatorReply) -> Option<SignError> {
    match reply {
        ValidatorReply::CallFailed => Some(SignError::Other),
        ValidatorReply::Completed { output, diagnostics } => {
            if diagnostics@.len() > 0 {
                Some(SignError::InvalidData)
            } else if output@.len() < HEADER_SIZE {
                Some(SignError::InvalidData)
            } else if !digest_present(output@) {
                Some(SignError::Other)
            } else {
                None
            }
        },
    }
}

/// Decides what to do with `input`: keep an existing digest, or submit the
/// bytes for validation, with any digest cleared first when `force` is set.
pub fn plan_signing(input: Vec<u8>, force: bool) -> (r: Result<Plan, SignError>)
    ensures
        input@.len() < HEADER_SIZE <==> r is Err,
        r matches Err(e) ==> e == SignError::InvalidData,
        r matches Ok(p) ==> (p is AlreadySigned <==> keeps_digest(input@, force)),
        r matches Ok(Plan::AlreadySigned(d)) ==> d@ == digest_of(input@),
        r matches Ok(Plan::Submit(bytes)) ==> bytes@ == submitted(input@),
{
    let mut input = input;
    let present = match has_digest(input.as_slice()) {
        Ok(p) => p,
        Err(e) => return Err(e),
    };
    if present {
        if force {
            match zero_digest(input.as_mut_slice()) {
                Ok(()) => {},
                Err(e) => return Err(e),
            }
        } else {
            match get_digest(input.as_slice()) {
                Ok(d) => return Ok(Plan::AlreadySigned(d)),
                Err(e) => return Err(e),
            }
        }
    }
    Ok(Plan::Submit(input))
}

/// Decides what a validator reply means: the signed bytes when the validator
/// ran, reported nothing, and left a digest in its output; an error otherwise.
pub fn accept_reply(reply: ValidatorReply) -> (r: Result<Vec<u8>, SignError>)
    ensures
        r is Err <==> reply_error(reply) is Some,
        r matches Err(e) ==> reply_error(reply) == Some(e),
        r matches Ok(out) ==> (reply matches ValidatorReply::Completed { output, .. } && out@ == output@),
{
    match reply {
        ValidatorReply::CallFailed => Err(SignError::Other),
        ValidatorReply::Completed { output, diagnostics } => {
            if diagnostics.len() > 0 {
                return Err(SignError::InvalidData);
            }
            match has_digest(output.as_slice()) {
                Ok(true) => Ok(output),
                Ok(false) => Err(SignError::Other),
                Err(e) => Err(e),
            }
        },
    }
}

/// Relies on hassle_rs::validate_dxil: it loads the validator library and
/// validates and signs `data`, giving the signed bytes, a `ValidationError`
/// with the validator's messages, or another error when the library cannot be
/// loaded or called. What it returns depends on the library found on the
/// machine, so nothing is stated of it.
#[verifier::external_body]
fn run_validator(data: &[u8]) -> (r: ValidatorReply) {
    match hassle_rs::validate_dxil(data) {
        Ok(output) => ValidatorReply::Completed { output, diagnostics: Vec::new() },
        Err(hassle_rs::HassleError::ValidationError(message)) => {
            ValidatorReply::Completed { output: Vec::new(), diagnostics: vec![message] }
        },
        Err(_) => ValidatorReply::CallFailed,
    }
}

/// Signs one container: keeps an existing digest unless `force` is set, and
/// otherwise has the validator sign the bytes and checks that it did.
pub fn sign_buffer(input: Vec<u8>, force: bool) -> (r: Result<Outcome, SignError>)
    ensures
        input@.len() < HEADER_SIZE ==> (r matches Err(e) && e == SignError::InvalidData),
        input@.len() >= HEADER_SIZE && keeps_digest(input@, force) ==> (r matches Ok(
            Outcome::AlreadySigned(d),
        ) && d@ == digest_of(input@)),
        r matches Ok(Outcome::AlreadySigned(_)) ==> keeps_digest(input@, force),
        r matches Ok(Outcome::NewlySigned(out)) ==> out@.len() >= HEADER_SIZE && digest_present(
            out@,
        ),
{
    match plan_signing(input, force) {
        Err(e) => Err(e),
        Ok(Plan::AlreadySigned(d)) => Ok(Outcome::AlreadySigned(d)),
        Ok(Plan::Submit(bytes)) => {
            let reply = run_validator(bytes.as_slice());
            match accept_reply(reply) {
                Ok(out) => Ok(Outcome::NewlySigned(out)),
                Err(e) => Err(e),
            }
        },
    }
}

} // verus!
