//! The error that the service shows to its callers, and how each client's
//! error becomes one.

use vstd::prelude::*;
use vstd::std_specs::convert::FromSpecImpl;
use vstd::string::StringExecFns;
use crate::funtranslations_api::client::{translation_reply, FunTranslationsApiClientError};
use crate::poke_api::client::{species_reply, PokeApiClientError};
use crate::status::{BAD_REQUEST, INTERNAL_SERVER_ERROR, NOT_FOUND};

verus! {

/// An error as the service reports it: a status, a stable code and a message.
#[derive(Debug)]
pub struct PokeError {
    pub status_code: u16,
    pub code: String,
    pub message: String,
}

/// The mathematical value of a [`PokeError`].
#[verifier::ext_equal]
pub struct PokeErrorView {
    pub status_code: u16,
    pub code: Seq<char>,
    pub message: Seq<char>,
}

impl View for PokeError {
    type V = PokeErrorView;

    open spec fn view(&self) -> PokeErrorView {
        PokeErrorView { status_code: self.status_code, code: self.code@, message: self.message@ }
    }
}

/// The boundary error that stands for an error of the species client.
pub open spec fn species_boundary_error(error: PokeApiClientError) -> PokeErrorView {
    match error {
        PokeApiClientError::BadRequest { message } => PokeErrorView {
            status_code: BAD_REQUEST,
            code: "PE_BAD_REQUEST"@,
            message: message@,
        },
        PokeApiClientError::InternalError => PokeErrorView {
            status_code: INTERNAL_SERVER_ERROR,
            code: "PE_INTERNAL"@,
            message: "internal error"@,
        },
        PokeApiClientError::NotFound => PokeErrorView {
            status_code: NOT_FOUND,
            code: "PE_NOT_FOUND"@,
            message: "pokemon not found"@,
        },
    }
}

/// The boundary error that stands for an error of the translation client.
pub open spec fn translation_boundary_error(error: FunTranslationsApiClientError) -> PokeErrorView {
    match error {
        FunTranslationsApiClientError::BadRequest { message } => PokeErrorView {
            status_code: BAD_REQUEST,
            code: "PE_BAD_REQUEST"@,
            message: message@,
        },
        FunTranslationsApiClientError::NotFound => PokeErrorView {
            status_code: NOT_FOUND,
            code: "PE_NOT_FOUND"@,
            message: "not found"@,
        },
        FunTranslationsApiClientError::InternalError => PokeErrorView {
            status_code: INTERNAL_SERVER_ERROR,
            code: "PE_INTERNAL"@,
            message: "internal error"@,
        },
    }
}

impl From<PokeApiClientError> for PokeError {
    fn from(error: PokeApiClientError) -> (r: Self)
        ensures
            r@ == species_boundary_error(error),
    {
        match error {
            PokeApiClientError::BadRequest { message } => PokeError {
                status_code: BAD_REQUEST,
                code: String::from_str("PE_BAD_REQUEST"),
                message,
            },
            PokeApiClientError::InternalError => PokeError {
                status_code: INTERNAL_SERVER_ERROR,
                code: String::from_str("PE_INTERNAL"),
                message: String::from_str("internal error"),
            },
            PokeApiClientError::NotFound => PokeError {
                status_code: NOT_FOUND,
                code: String::from_str("PE_NOT_FOUND"),
                message: String::from_str("pokemon not found"),
            },
        }
    }
}

/// What `from` returns is stated over the view, by its own `ensures`: no spec
/// function can name the strings that it makes.
impl FromSpecImpl<PokeApiClientError> for PokeError {
    open spec fn obeys_from_spec() -> bool {
        false
    }

    open spec fn from_spec(error: PokeApiClientError) -> Self {
        arbitrary()
    }
}

impl From<FunTranslationsApiClientError> for PokeError {
    fn from(error: FunTranslationsApiClientError) -> (r: Self)
        ensures
            r@ == translation_boundary_error(error),
    {
        match error {
            FunTranslationsApiClientError::BadRequest { message } => PokeError {
                status_code: BAD_REQUEST,
                code: String::from_str("PE_BAD_REQUEST"),
                message,
            },
            FunTranslationsApiClientError::NotFound => PokeError {
                status_code: NOT_FOUND,
                code: String::from_str("PE_NOT_FOUND"),
                message: String::from_str("not found"),
            },
            FunTranslationsApiClientError::InternalError => PokeError {
                status_code: INTERNAL_SERVER_ERROR,
                code: String::from_str("PE_INTERNAL"),
                message: String::from_str("internal error"),
            },
        }
    }
}

/// What `from` returns is stated over the view, by its own `ensures`: no spec
/// function can name the strings that it makes.
impl FromSpecImpl<FunTranslationsApiClientError> for PokeError {
    open spec fn obeys_from_spec() -> bool {
        false
    }

    open spec fn from_spec(error: FunTranslationsApiClientError) -> Self {
        arbitrary()
    }
}

impl PokeError {
    /// The error in one line: the code, a colon and a space, the message.
    pub fn describe(&self) -> (r: String)
        ensures
            r@ == self.code@ + ": "@ + self.message@,
    {
        let mut line = self.code.clone();
        line.append(": ");
        line.append(self.message.as_str());
        line
    }
}

/// No two variants of the species client's error share a status or a code:
/// the status is 400, 404 or 500, one for each variant, and so is the code.
/// The message of a bad request is kept.
pub proof fn lemma_species_boundary_error(error: PokeApiClientError, other: PokeApiClientError)
    ensures
        error is BadRequest <==> species_boundary_error(error).status_code == 400,
        error is NotFound <==> species_boundary_error(error).status_code == 404,
        error is InternalError <==> species_boundary_error(error).status_code == 500,
        species_boundary_error(error).code == species_boundary_error(other).code <==> (
        species_boundary_error(error).status_code == species_boundary_error(other).status_code),
        error matches PokeApiClientError::BadRequest { message } ==> species_boundary_error(
            error,
        ).message == message@,
{
    lemma_codes_differ();
}

/// No two variants of the translation client's error share a status or a
/// code: the status is 400, 404 or 500, one for each variant, and so is the
/// code. The message of a bad request is kept.
pub proof fn lemma_translation_boundary_error(
    error: FunTranslationsApiClientError,
    other: FunTranslationsApiClientError,
)
    ensures
        error is BadRequest <==> translation_boundary_error(error).status_code == 400,
        error is NotFound <==> translation_boundary_error(error).status_code == 404,
        error is InternalError <==> translation_boundary_error(error).status_code == 500,
        translation_boundary_error(error).code == translation_boundary_error(other).code <==> (
        translation_boundary_error(error).status_code == translation_boundary_error(
            other,
        ).status_code),
        error matches FunTranslationsApiClientError::BadRequest { message }
            ==> translation_boundary_error(error).message == message@,
{
    lemma_codes_differ();
}

/// The three codes are three different texts.
proof fn lemma_codes_differ()
    ensures
        "PE_BAD_REQUEST"@ != "PE_INTERNAL"@,
        "PE_BAD_REQUEST"@ != "PE_NOT_FOUND"@,
        "PE_INTERNAL"@ != "PE_NOT_FOUND"@,
{
    reveal_strlit("PE_BAD_REQUEST");
    reveal_strlit("PE_INTERNAL");
    reveal_strlit("PE_NOT_FOUND");
    assert("PE_BAD_REQUEST"@.len() == 14);
    assert("PE_INTERNAL"@.len() == 11);
    assert("PE_NOT_FOUND"@.len() == 12);
}

/// An upstream that answers 404 makes its client fail with `NotFound`, which
/// reaches the boundary as 404 `PE_NOT_FOUND`: for each client by itself, and
/// whatever the body holds.
pub proof fn lemma_not_found_reaches_boundary(body: Seq<char>)
    ensures
        species_reply(404, body) matches Err(error) && error == PokeApiClientError::NotFound
            && species_boundary_error(error) == (PokeErrorView {
            status_code: 404,
            code: "PE_NOT_FOUND"@,
            message: "pokemon not found"@,
        }),
        translation_reply(404, body) matches Err(error) && error
            == FunTranslationsApiClientError::NotFound && translation_boundary_error(error) == (
        PokeErrorView { status_code: 404, code: "PE_NOT_FOUND"@, message: "not found"@ }),
{
}

/// An upstream that answers with a status other than 200 and 404 makes its
/// client fail with `InternalError`, which reaches the boundary as 500
/// `PE_INTERNAL`: for each client by itself, and whatever the body holds.
pub proof fn lemma_unexpected_status_reaches_boundary(status: u16, body: Seq<char>)
    requires
        status != 200,
        status != 404,
    ensures
        species_reply(status, body) matches Err(error) && error
            == PokeApiClientError::InternalError && species_boundary_error(error) == (
        PokeErrorView { status_code: 500, code: "PE_INTERNAL"@, message: "internal error"@ }),
        translation_reply(status, body) matches Err(error) && error
            == FunTranslationsApiClientError::InternalError && translation_boundary_error(error)
            == (PokeErrorView {
            status_code: 500,
            code: "PE_INTERNAL"@,
            message: "internal error"@,
        }),
{
}

/// Whatever an upstream answers, the error that reaches the boundary has the
/// status 404 or 500: the clients report no bad request by themselves.
pub proof fn lemma_reply_errors_at_boundary(status: u16, body: Seq<char>)
    ensures
        species_reply(status, body) matches Err(error) ==> {
            ||| species_boundary_error(error).status_code == 404 && status == 404
            ||| species_boundary_error(error).status_code == 500 && status != 404
        },
        translation_reply(status, body) matches Err(error) ==> {
            ||| translation_boundary_error(error).status_code == 404 && status == 404
            ||| translation_boundary_error(error).status_code == 500 && status != 404
        },
{
}

} // verus!
