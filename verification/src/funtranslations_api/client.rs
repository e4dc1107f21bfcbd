//! The client of the translation upstream, without its transport.

use std::time::Duration;
use vstd::prelude::*;
use vstd::std_specs::cmp::PartialEqSpecImpl;
use vstd::std_specs::convert::FromSpecImpl;
use vstd::string::StringExecFns;
use crate::funtranslations_api::document::{
    translation_document,
    translation_of,
    TranslationDocument,
};
use crate::json::{parse, parsed_text, Json};
use crate::request::{Method, Request, RequestView};
use crate::status::{NOT_FOUND, OK};
use crate::transport::{failure_status, status_of_failure};

verus! {

/// A text and what the upstream made of it.
#[derive(Debug)]
pub struct Translation {
    /// The dialect that the upstream reports.
    pub dialect: String,
    /// The text that the upstream was given.
    pub original: String,
    /// The text that the upstream gives back.
    pub translated: String,
}

/// The mathematical value of a [`Translation`].
#[verifier::ext_equal]
pub struct TranslationView {
    pub dialect: Seq<char>,
    pub original: Seq<char>,
    pub translated: Seq<char>,
}

impl View for Translation {
    type V = TranslationView;

    open spec fn view(&self) -> TranslationView {
        TranslationView {
            dialect: self.dialect@,
            original: self.original@,
            translated: self.translated@,
        }
    }
}

/// Why a call to the translation upstream failed.
#[derive(Debug)]
pub enum FunTranslationsApiClientError {
    /// Anything unexpected: no answer, an answer in time that does not come,
    /// a status other than 200 and 404, a body that cannot be used.
    InternalError,
    /// The upstream has no such translator.
    NotFound,
    /// The request was not acceptable. The client itself never reports it.
    BadRequest { message: String },
}

impl PartialEq for FunTranslationsApiClientError {
    fn eq(&self, other: &Self) -> (r: bool) {
        match (self, other) {
            (
                FunTranslationsApiClientError::InternalError,
                FunTranslationsApiClientError::InternalError,
            ) => true,
            (FunTranslationsApiClientError::NotFound, FunTranslationsApiClientError::NotFound) => true,
            (
                FunTranslationsApiClientError::BadRequest { message: a },
                FunTranslationsApiClientError::BadRequest { message: b },
            ) => *a == *b,
            _ => false,
        }
    }
}

impl PartialEqSpecImpl for FunTranslationsApiClientError {
    open spec fn obeys_eq_spec() -> bool {
        true
    }

    open spec fn eq_spec(&self, other: &Self) -> bool {
        match (self, other) {
            (
                FunTranslationsApiClientError::InternalError,
                FunTranslationsApiClientError::InternalError,
            ) => true,
            (FunTranslationsApiClientError::NotFound, FunTranslationsApiClientError::NotFound) => true,
            (
                FunTranslationsApiClientError::BadRequest { message: a },
                FunTranslationsApiClientError::BadRequest { message: b },
            ) => a@ == b@,
            _ => false,
        }
    }
}

impl From<serde_json::Error> for FunTranslationsApiClientError {
    /// A body that is no JSON document is an internal error.
    fn from(_error: serde_json::Error) -> (r: Self) {
        FunTranslationsApiClientError::InternalError
    }
}

impl FromSpecImpl<serde_json::Error> for FunTranslationsApiClientError {
    open spec fn obeys_from_spec() -> bool {
        true
    }

    open spec fn from_spec(error: serde_json::Error) -> Self {
        FunTranslationsApiClientError::InternalError
    }
}

/// The error that stands for a failed exchange which carried `status`.
pub open spec fn failure_error(status: Option<u16>) -> FunTranslationsApiClientError {
    if status == Some(NOT_FOUND) {
        FunTranslationsApiClientError::NotFound
    } else {
        FunTranslationsApiClientError::InternalError
    }
}

impl FunTranslationsApiClientError {
    /// The error for a failed exchange: `NotFound` where the failure carries
    /// the status 404, `InternalError` for every other failure, among them
    /// one that carries no status, as when no answer came in time.
    pub fn from_failure_status(status: Option<u16>) -> (r: Self)
        ensures
            r == failure_error(status),
    {
        match status {
            Some(code) => if code == NOT_FOUND {
                FunTranslationsApiClientError::NotFound
            } else {
                FunTranslationsApiClientError::InternalError
            },
            None => FunTranslationsApiClientError::InternalError,
        }
    }
}

impl From<reqwest::Error> for FunTranslationsApiClientError {
    /// An exchange that failed is `NotFound` where the failure carries the
    /// status 404, and an internal error otherwise.
    fn from(error: reqwest::Error) -> (r: Self) {
        FunTranslationsApiClientError::from_failure_status(status_of_failure(&error))
    }
}

impl FromSpecImpl<reqwest::Error> for FunTranslationsApiClientError {
    open spec fn obeys_from_spec() -> bool {
        true
    }

    open spec fn from_spec(error: reqwest::Error) -> Self {
        failure_error(failure_status(error))
    }
}

/// The address of the translator `dialect` below the base address `base`.
pub open spec fn translation_url(base: Seq<char>, dialect: Seq<char>) -> Seq<char> {
    base + "/translate/"@ + dialect + ".json"@
}

/// The translation that a body of JSON text yields, or `None` where the text
/// is no JSON document or the document gives no usable translation.
pub open spec fn translation_of_text(json: Seq<char>) -> Option<TranslationView> {
    match parsed_text(json) {
        Some(doc) => translation_of(translation_document(doc)),
        None => None,
    }
}

/// The outcome of an exchange in which the upstream answered with `status`
/// and, where the status is 200, with `body`.
pub open spec fn translation_reply(status: u16, body: Seq<char>) -> Result<
    TranslationView,
    FunTranslationsApiClientError,
> {
    if status == OK {
        match translation_of_text(body) {
            Some(translation) => Ok(translation),
            None => Err(FunTranslationsApiClientError::InternalError),
        }
    } else if status == NOT_FOUND {
        Err(FunTranslationsApiClientError::NotFound)
    } else {
        Err(FunTranslationsApiClientError::InternalError)
    }
}

/// Whether a result of the client is the outcome `outcome`.
pub open spec fn is_outcome(
    r: Result<Translation, FunTranslationsApiClientError>,
    outcome: Result<TranslationView, FunTranslationsApiClientError>,
) -> bool {
    match outcome {
        Ok(translation) => r is Ok && r->Ok_0@ == translation,
        Err(error) => r is Err && r->Err_0 == error,
    }
}

/// The client of the translation upstream, without its transport: it says
/// which address to ask, with which parameter, and what an answer means.
pub struct FunTranslationsApiClient {
    base_url: String,
    timeout: Duration,
}

impl FunTranslationsApiClient {
    /// The base address of the upstream.
    pub closed spec fn base(&self) -> Seq<char> {
        self.base_url@
    }

    /// The time that one call may take.
    pub closed spec fn limit(&self) -> Duration {
        self.timeout
    }

    /// A client of the upstream at `base_url`, each call to which may take up
    /// to `timeout`.
    pub fn new(base_url: String, timeout: Duration) -> (r: Self)
        ensures
            r.base() == base_url@,
            r.limit() == timeout,
    {
        Self { base_url, timeout }
    }

    /// The base address of the upstream.
    pub fn base_url(&self) -> (r: &str)
        ensures
            r@ == self.base(),
    {
        self.base_url.as_str()
    }

    /// The time that one call may take.
    pub fn timeout(&self) -> (r: Duration)
        ensures
            r == self.limit(),
    {
        self.timeout
    }

    /// The request to send for a translation of `text` into `dialect`: a GET
    /// of the translator's address, with the text for the query parameter
    /// `text`, within the client's time.
    pub fn request(&self, dialect: &str, text: &str) -> (r: Request)
        ensures
            r@ == (RequestView {
                method: Method::Get,
                url: translation_url(self.base(), dialect@),
                query: Some(("text"@, text@)),
                timeout: self.limit(),
            }),
    {
        let mut url = self.base_url.clone();
        url.append("/translate/");
        url.append(dialect);
        url.append(".json");
        Request {
            method: Method::Get,
            url,
            query: Some((String::from_str("text"), text.to_owned())),
            timeout: self.timeout,
        }
    }

    /// Whether an answer with `status` carries a body that is to be read.
    pub fn expects_body(status: u16) -> (r: bool)
        ensures
            r == (status == OK),
    {
        status == OK
    }

    /// The translation that the body of an answer holds. Fails with
    /// `InternalError` where the body is no JSON document or gives no usable
    /// translation.
    pub fn build_translation(&self, json: &str) -> (r: Result<
        Translation,
        FunTranslationsApiClientError,
    >)
        ensures
            match translation_of_text(json@) {
                Some(translation) => r is Ok && r->Ok_0@ == translation,
                None => r is Err && r->Err_0 == FunTranslationsApiClientError::InternalError,
            },
    {
        match parse(json) {
            Ok(parsed) => Translation::from_document(TranslationDocument::read(&parsed)),
            Err(error) => Err(FunTranslationsApiClientError::from(error)),
        }
    }

    /// The result of a call that the upstream answered with `status`: the
    /// translation in the body for 200, `NotFound` for 404, `InternalError`
    /// for every other status. The body counts only where the status is 200.
    pub fn translate(&self, status: u16, body: &str) -> (r: Result<
        Translation,
        FunTranslationsApiClientError,
    >)
        ensures
            is_outcome(r, translation_reply(status, body@)),
    {
        if status == OK {
            self.build_translation(body)
        } else if status == NOT_FOUND {
            Err(FunTranslationsApiClientError::NotFound)
        } else {
            Err(FunTranslationsApiClientError::InternalError)
        }
    }
}

/// An answer with status 200 whose document counts zero translations fails
/// with `InternalError`, although the status reports success.
pub proof fn lemma_zero_total_is_internal_error(body: Seq<char>, doc: Json)
    requires
        parsed_text(body) == Some(doc),
        doc.member("success"@).member("total"@).unsigned() == Some(0u64),
    ensures
        translation_reply(OK, body) == Err::<TranslationView, _>(
            FunTranslationsApiClientError::InternalError,
        ),
{
}

/// An answer with status 200 whose body is no JSON document, or gives no
/// usable translation, fails with `InternalError`.
pub proof fn lemma_unusable_body_is_internal_error(body: Seq<char>)
    requires
        parsed_text(body) matches Some(doc) ==> translation_of(translation_document(doc)) is None,
    ensures
        translation_reply(OK, body) == Err::<TranslationView, _>(
            FunTranslationsApiClientError::InternalError,
        ),
{
}

/// An answer with status 200 succeeds exactly where its body is a JSON
/// document whose `success.total` is a number above zero and whose
/// `contents` hold the three texts, and then with those texts: the dialect
/// is `contents.translation`, the input `contents.text`, the output
/// `contents.translated`.
pub proof fn lemma_usable_body_is_read(body: Seq<char>)
    ensures
        translation_reply(OK, body) is Ok <==> ({
            let doc = parsed_text(body)->Some_0;
            &&& parsed_text(body) is Some
            &&& doc.member("success"@).member("total"@).unsigned() is Some
            &&& doc.member("success"@).member("total"@).unsigned()->Some_0 > 0
            &&& doc.member("contents"@).text_at("translated"@) is Some
            &&& doc.member("contents"@).text_at("text"@) is Some
            &&& doc.member("contents"@).text_at("translation"@) is Some
        }),
        translation_reply(OK, body) matches Ok(translation) ==> ({
            let contents = parsed_text(body)->Some_0.member("contents"@);
            &&& contents.text_at("translation"@) == Some(translation.dialect)
            &&& contents.text_at("text"@) == Some(translation.original)
            &&& contents.text_at("translated"@) == Some(translation.translated)
        }),
{
}

/// A failed exchange that carries no status, as one in which no answer came
/// in time, is an internal error; so is one that carries a status other than
/// 404.
pub proof fn lemma_failure_is_internal_error(error: reqwest::Error)
    requires
        failure_status(error) != Some(404u16),
    ensures
        <FunTranslationsApiClientError as vstd::std_specs::convert::FromSpec<
            reqwest::Error,
        >>::from_spec(error) == FunTranslationsApiClientError::InternalError,
{
}

} // verus!
