//! The client of the species upstream, without its transport.

use std::time::Duration;
use vstd::prelude::*;
use vstd::std_specs::cmp::PartialEqSpecImpl;
use vstd::std_specs::convert::FromSpecImpl;
use vstd::string::StringExecFns;
use crate::json::{parse, parsed_text, Json};
use crate::poke_api::document::{
    first_english,
    flavor_text_entry,
    folded_text,
    is_english,
    lemma_first_english,
    species_document,
    species_info,
    SpeciesDocument,
};
use crate::request::{Method, Request, RequestView};
use crate::status::{NOT_FOUND, OK};

verus! {

/// What the service knows about one species.
#[derive(Debug)]
pub struct PokemonInfo {
    pub name: String,
    pub description: String,
    pub habitat: String,
    pub is_legendary: bool,
}

/// The mathematical value of a [`PokemonInfo`].
#[verifier::ext_equal]
pub struct PokemonInfoView {
    pub name: Seq<char>,
    pub description: Seq<char>,
    pub habitat: Seq<char>,
    pub is_legendary: bool,
}

impl View for PokemonInfo {
    type V = PokemonInfoView;

    open spec fn view(&self) -> PokemonInfoView {
        PokemonInfoView {
            name: self.name@,
            description: self.description@,
            habitat: self.habitat@,
            is_legendary: self.is_legendary,
        }
    }
}

/// Why a call to the species upstream failed.
#[derive(Debug)]
pub enum PokeApiClientError {
    /// The upstream has no such species.
    NotFound,
    /// Anything unexpected: no answer, an answer in time that does not come,
    /// a status other than 200 and 404, a body that cannot be used.
    InternalError,
    /// The request was not acceptable. The client itself never reports it.
    BadRequest { message: String },
}

impl PartialEq for PokeApiClientError {
    fn eq(&self, other: &Self) -> (r: bool) {
        match (self, other) {
            (PokeApiClientError::NotFound, PokeApiClientError::NotFound) => true,
            (PokeApiClientError::InternalError, PokeApiClientError::InternalError) => true,
            (
                PokeApiClientError::BadRequest { message: a },
                PokeApiClientError::BadRequest { message: b },
            ) => *a == *b,
            _ => false,
        }
    }
}

impl PartialEqSpecImpl for PokeApiClientError {
    open spec fn obeys_eq_spec() -> bool {
        true
    }

    open spec fn eq_spec(&self, other: &Self) -> bool {
        match (self, other) {
            (PokeApiClientError::NotFound, PokeApiClientError::NotFound) => true,
            (PokeApiClientError::InternalError, PokeApiClientError::InternalError) => true,
            (
                PokeApiClientError::BadRequest { message: a },
                PokeApiClientError::BadRequest { message: b },
            ) => a@ == b@,
            _ => false,
        }
    }
}

impl From<serde_json::Error> for PokeApiClientError {
    /// A body that is no JSON document is an internal error.
    fn from(_error: serde_json::Error) -> (r: Self) {
        PokeApiClientError::InternalError
    }
}

impl FromSpecImpl<serde_json::Error> for PokeApiClientError {
    open spec fn obeys_from_spec() -> bool {
        true
    }

    open spec fn from_spec(error: serde_json::Error) -> Self {
        PokeApiClientError::InternalError
    }
}

impl From<reqwest::Error> for PokeApiClientError {
    /// An exchange that failed, for want of a connection or of time, is an
    /// internal error.
    fn from(_error: reqwest::Error) -> (r: Self) {
        PokeApiClientError::InternalError
    }
}

impl FromSpecImpl<reqwest::Error> for PokeApiClientError {
    open spec fn obeys_from_spec() -> bool {
        true
    }

    open spec fn from_spec(error: reqwest::Error) -> Self {
        PokeApiClientError::InternalError
    }
}

/// The address of the species `name` below the base address `base`.
pub open spec fn species_url(base: Seq<char>, name: Seq<char>) -> Seq<char> {
    base + "/pokemon-species/"@ + name
}

/// The species info that a body of JSON text yields, or `None` where the text
/// is no JSON document or the document lacks a field.
pub open spec fn species_of_text(json: Seq<char>) -> Option<PokemonInfoView> {
    match parsed_text(json) {
        Some(doc) => species_info(species_document(doc)),
        None => None,
    }
}

/// The outcome of an exchange in which the upstream answered with `status`
/// and, where the status is 200, with `body`.
pub open spec fn species_reply(status: u16, body: Seq<char>) -> Result<
    PokemonInfoView,
    PokeApiClientError,
> {
    if status == OK {
        match species_of_text(body) {
            Some(info) => Ok(info),
            None => Err(PokeApiClientError::InternalError),
        }
    } else if status == NOT_FOUND {
        Err(PokeApiClientError::NotFound)
    } else {
        Err(PokeApiClientError::InternalError)
    }
}

/// Whether a result of the client is the outcome `outcome`.
pub open spec fn is_outcome(
    r: Result<PokemonInfo, PokeApiClientError>,
    outcome: Result<PokemonInfoView, PokeApiClientError>,
) -> bool {
    match outcome {
        Ok(info) => r is Ok && r->Ok_0@ == info,
        Err(error) => r is Err && r->Err_0 == error,
    }
}

/// The client of the species upstream, without its transport: it says which
/// address to ask and what an answer means.
pub struct PokeApiClient {
    base_url: String,
    timeout: Duration,
}

impl PokeApiClient {
    /// The base address of the upstream.
    pub closed spec fn base(&self) -> Seq<char> {
        self.base_url@
    }

    /// The time that one call may take.
    pub closed spec fn limit(&self) -> Duration {
        self.timeout
    }

    /// A client of the upstream at `base_url`, each call to which may take up
    /// to `timeout`.
    pub fn new(base_url: String, timeout: Duration) -> (r: Self)
        ensures
            r.base() == base_url@,
            r.limit() == timeout,
    {
        Self { base_url, timeout }
    }

    /// The base address of the upstream.
    pub fn base_url(&self) -> (r: &str)
        ensures
            r@ == self.base(),
    {
        self.base_url.as_str()
    }

    /// The time that one call may take.
    pub fn timeout(&self) -> (r: Duration)
        ensures
            r == self.limit(),
    {
        self.timeout
    }

    /// The request to send for the species `name`: a GET of the species'
    /// address, without a query, within the client's time. The name is not
    /// checked: it is for the upstream to refuse.
    pub fn request(&self, name: &str) -> (r: Request)
        ensures
            r@ == (RequestView {
                method: Method::Get,
                url: species_url(self.base(), name@),
                query: None,
                timeout: self.limit(),
            }),
    {
        let mut url = self.base_url.clone();
        url.append("/pokemon-species/");
        url.append(name);
        Request { method: Method::Get, url, query: None, timeout: self.timeout }
    }

    /// Whether an answer with `status` carries a body that is to be read.
    pub fn expects_body(status: u16) -> (r: bool)
        ensures
            r == (status == OK),
    {
        status == OK
    }

    /// The species info that the body of an answer holds. Fails with
    /// `InternalError` where the body is no JSON document or lacks a field.
    pub fn build_pokemon_info(&self, json: &str) -> (r: Result<PokemonInfo, PokeApiClientError>)
        ensures
            match species_of_text(json@) {
                Some(info) => r is Ok && r->Ok_0@ == info,
                None => r is Err && r->Err_0 == PokeApiClientError::InternalError,
            },
            r matches Ok(info) ==> !info@.description.contains('\n'),
    {
        match parse(json) {
            Ok(parsed) => PokemonInfo::from_document(SpeciesDocument::read(&parsed)),
            Err(error) => Err(PokeApiClientError::from(error)),
        }
    }

    /// The result of a call that the upstream answered with `status`: the
    /// species info in the body for 200, `NotFound` for 404, `InternalError`
    /// for every other status. The body counts only where the status is 200.
    pub fn get_pokemon_info(&self, status: u16, body: &str) -> (r: Result<
        PokemonInfo,
        PokeApiClientError,
    >)
        ensures
            is_outcome(r, species_reply(status, body@)),
            r matches Ok(info) ==> !info@.description.contains('\n'),
    {
        if status == OK {
            self.build_pokemon_info(body)
        } else if status == NOT_FOUND {
            Err(PokeApiClientError::NotFound)
        } else {
            Err(PokeApiClientError::InternalError)
        }
    }
}

/// A failed exchange, as one in which no answer came in time, is an internal
/// error, whatever it carries.
pub proof fn lemma_failure_is_internal_error(error: reqwest::Error)
    ensures
        <PokeApiClientError as vstd::std_specs::convert::FromSpec<reqwest::Error>>::from_spec(
            error,
        ) == PokeApiClientError::InternalError,
{
}

/// An answer with status 200 whose body is no JSON document, or one that
/// yields no species info, fails with `InternalError`.
pub proof fn lemma_unusable_body_is_internal_error(body: Seq<char>)
    requires
        parsed_text(body) matches Some(doc) ==> species_info(species_document(doc)) is None,
    ensures
        species_reply(OK, body) == Err::<PokemonInfoView, _>(PokeApiClientError::InternalError),
{
}

/// An answer with status 200 succeeds exactly where its body is a JSON
/// document that yields a species info, and then with that info.
pub proof fn lemma_usable_body_is_read(body: Seq<char>)
    ensures
        species_reply(OK, body) is Ok <==> parsed_text(body) is Some && species_info(
            species_document(parsed_text(body)->Some_0),
        ) is Some,
        species_reply(OK, body) matches Ok(info) ==> species_info(
            species_document(parsed_text(body)->Some_0),
        ) == Some(info),
{
}

/// Where the call succeeds on a payload, the name, the habitat and the
/// legendary flag of the species are the payload's `name`, `habitat.name`
/// and `is_legendary`, as they are.
pub proof fn lemma_payload_fields(body: Seq<char>, doc: Json)
    requires
        parsed_text(body) == Some(doc),
    ensures
        species_reply(OK, body) matches Ok(info) ==> {
            &&& doc.text_at("name"@) == Some(info.name)
            &&& doc.member("habitat"@).text_at("name"@) == Some(info.habitat)
            &&& doc.member("is_legendary"@).truth() == Some(info.is_legendary)
        },
{
}

/// The entries of the list of descriptions of a payload, or `None` where
/// the payload has no such list.
pub open spec fn payload_entries(doc: Json) -> Option<Seq<Json>> {
    doc.member("flavor_text_entries"@).elements()
}

/// Whether an entry of a payload names `en` for its language.
pub open spec fn is_english_entry(entry: Json) -> bool {
    entry.member("language"@).text_at("name"@) == Some("en"@)
}

/// A payload in which the name, the habitat's name or the legendary flag is
/// missing or of another type, or which has no list of descriptions or no
/// English entry in it, makes the call fail with `InternalError`.
pub proof fn lemma_incomplete_payload_is_internal_error(body: Seq<char>, doc: Json)
    requires
        parsed_text(body) == Some(doc),
        ({
            ||| doc.text_at("name"@) is None
            ||| doc.member("habitat"@).text_at("name"@) is None
            ||| doc.member("is_legendary"@).truth() is None
            ||| payload_entries(doc) is None
            ||| forall|j: int|
                0 <= j < payload_entries(doc)->Some_0.len() ==> !is_english_entry(
                    #[trigger] payload_entries(doc)->Some_0[j],
                )
        }),
    ensures
        species_reply(OK, body) == Err::<PokemonInfoView, _>(PokeApiClientError::InternalError),
{
    if let Some(entries) = species_document(doc).flavor_text_entries {
        lemma_first_english(entries);
        let items = payload_entries(doc)->Some_0;
        if forall|j: int| 0 <= j < items.len() ==> !is_english_entry(#[trigger] items[j]) {
            assert forall|j: int| 0 <= j < entries.len() implies !is_english(
                #[trigger] entries[j],
            ) by {
                assert(!is_english_entry(items[j]));
            }
        }
    }
}

/// A payload with an English entry in its list of descriptions has a first
/// such entry, wherever the entries of other languages stand. If the call
/// succeeds, the description is the text of that entry with every line break
/// replaced by one space; and the call succeeds exactly where the name, the
/// habitat's name and the legendary flag are there and that entry has a
/// text.
pub proof fn lemma_payload_description(body: Seq<char>, doc: Json, j: int)
    requires
        parsed_text(body) == Some(doc),
        payload_entries(doc) is Some,
        0 <= j < payload_entries(doc)->Some_0.len(),
        is_english_entry(payload_entries(doc)->Some_0[j]),
    ensures
        ({
            let items = payload_entries(doc)->Some_0;
            let entries = species_document(doc).flavor_text_entries->Some_0;
            &&& first_english(entries) matches Some(i)
            &&& 0 <= i <= j
            &&& is_english_entry(items[i])
            &&& forall|k: int|
                0 <= k < i ==> !is_english_entry(#[trigger] payload_entries(doc)->Some_0[k])
            &&& species_reply(OK, body) matches Ok(info) ==> Some(info.description) == folded_text(
                flavor_text_entry(items[i]),
            )
            &&& species_reply(OK, body) is Ok <==> {
                &&& doc.text_at("name"@) is Some
                &&& doc.member("habitat"@).text_at("name"@) is Some
                &&& doc.member("is_legendary"@).truth() is Some
                &&& items[i].text_at("flavor_text"@) is Some
            }
        }),
{
    let items = payload_entries(doc)->Some_0;
    let entries = species_document(doc).flavor_text_entries->Some_0;
    assert(is_english(entries[j]));
    lemma_first_english(entries);
    let i = first_english(entries)->Some_0;
    assert(is_english_entry(items[i]));
    assert forall|k: int| 0 <= k < i implies !is_english_entry(
        #[trigger] payload_entries(doc)->Some_0[k],
    ) by {
        assert(!is_english(entries[k]));
    }
}

} // verus!
