//! The two requests that the service answers: the info of a species as it
//! is, and the info with its description translated. The transport makes
//! the calls; this module decides what follows from each answer.

use vstd::prelude::*;
use crate::error::{species_boundary_error, translation_boundary_error, PokeError, PokeErrorView};
use crate::funtranslations_api::client::{FunTranslationsApiClientError, Translation};
use crate::poke_api::client::{PokeApiClientError, PokemonInfo, PokemonInfoView};
use crate::text::same_text;

verus! {

/// The dialect into which the description of a species is translated: `yoda`
/// for a species that lives in caves or is legendary, `shakespeare` for every
/// other one.
pub open spec fn dialect_for(habitat: Seq<char>, is_legendary: bool) -> Seq<char> {
    if habitat == "cave"@ || is_legendary {
        "yoda"@
    } else {
        "shakespeare"@
    }
}

/// Chooses the dialect for a species.
pub fn select_dialect(habitat: &str, is_legendary: bool) -> (r: &'static str)
    ensures
        r@ == dialect_for(habitat@, is_legendary),
{
    if same_text(habitat, "cave") || is_legendary {
        "yoda"
    } else {
        "shakespeare"
    }
}

/// Either trait alone calls for `yoda`, and nothing else does: the dialect
/// is `yoda` exactly for a species that lives in caves or is legendary, and
/// `shakespeare` exactly for every other one.
pub proof fn lemma_dialect_rule(habitat: Seq<char>, is_legendary: bool)
    ensures
        dialect_for(habitat, is_legendary) == "yoda"@ <==> habitat == "cave"@ || is_legendary,
        dialect_for(habitat, is_legendary) == "shakespeare"@ <==> !(habitat == "cave"@
            || is_legendary),
        dialect_for(habitat, true) == "yoda"@,
        dialect_for("cave"@, is_legendary) == "yoda"@,
{
    reveal_strlit("yoda");
    reveal_strlit("shakespeare");
    assert("yoda"@.len() == 4);
    assert("shakespeare"@.len() == 11);
}

/// Whether a response of the service is `response`.
pub open spec fn is_response(
    r: Result<PokemonInfo, PokeError>,
    response: Result<PokemonInfoView, PokeErrorView>,
) -> bool {
    match response {
        Ok(info) => r is Ok && r->Ok_0@ == info,
        Err(error) => r is Err && r->Err_0@ == error,
    }
}

/// The response to the plain request, given what the species client
/// returned.
pub open spec fn info_response(fetched: Result<PokemonInfo, PokeApiClientError>) -> Result<
    PokemonInfoView,
    PokeErrorView,
> {
    match fetched {
        Ok(info) => Ok(info@),
        Err(error) => Err(species_boundary_error(error)),
    }
}

/// Answers the plain request: the info as the species client returned it, or
/// the client's error as the boundary reports it.
pub fn get_pokemon_info(fetched: Result<PokemonInfo, PokeApiClientError>) -> (r: Result<
    PokemonInfo,
    PokeError,
>)
    ensures
        is_response(r, info_response(fetched)),
        fetched matches Ok(info) ==> r == Ok::<PokemonInfo, PokeError>(info),
{
    match fetched {
        Ok(info) => Ok(info),
        Err(error) => Err(PokeError::from(error)),
    }
}

/// The call that the translated request makes to the translation upstream
/// once the species client has returned: the dialect and the text, or `None`
/// where the request makes no such call.
pub open spec fn translation_call(fetched: Result<PokemonInfo, PokeApiClientError>) -> Option<
    (Seq<char>, Seq<char>),
> {
    match fetched {
        Ok(info) => Some((dialect_for(info@.habitat, info@.is_legendary), info@.description)),
        Err(_) => None,
    }
}

/// `info` with `text` for its description.
pub open spec fn with_description(info: PokemonInfoView, text: Seq<char>) -> PokemonInfoView {
    PokemonInfoView {
        name: info.name,
        description: text,
        habitat: info.habitat,
        is_legendary: info.is_legendary,
    }
}

/// The response to the translated request for the species `info`, given
/// what the translation client returned.
pub open spec fn translation_response(
    info: PokemonInfoView,
    translated: Result<Translation, FunTranslationsApiClientError>,
) -> Result<PokemonInfoView, PokeErrorView> {
    match translated {
        Ok(translation) => Ok(with_description(info, translation@.translated)),
        Err(error) => Err(translation_boundary_error(error)),
    }
}

/// The response to the translated request, given what the species client
/// returned and what the translation client returns for each dialect and
/// text.
pub open spec fn translated_info_response(
    fetched: Result<PokemonInfo, PokeApiClientError>,
    translate: spec_fn(Seq<char>, Seq<char>) -> Result<Translation, FunTranslationsApiClientError>,
) -> Result<PokemonInfoView, PokeErrorView> {
    match fetched {
        Ok(info) => translation_response(
            info@,
            translate(dialect_for(info@.habitat, info@.is_legendary), info@.description),
        ),
        Err(error) => Err(species_boundary_error(error)),
    }
}

/// A translated request between its two calls: the species is known, its
/// description is not translated yet.
pub struct PendingTranslation {
    info: PokemonInfo,
}

impl View for PendingTranslation {
    type V = PokemonInfoView;

    closed spec fn view(&self) -> PokemonInfoView {
        self.info@
    }
}

impl PendingTranslation {
    /// The dialect to ask the translation upstream for.
    pub fn dialect(&self) -> (r: &'static str)
        ensures
            r@ == dialect_for(self@.habitat, self@.is_legendary),
    {
        select_dialect(self.info.habitat.as_str(), self.info.is_legendary)
    }

    /// The text to translate: the description of the species.
    pub fn text(&self) -> (r: &str)
        ensures
            r@ == self@.description,
    {
        self.info.description.as_str()
    }

    /// Ends the request with what the translation client returned: the info
    /// with the translated text for its description and nothing else
    /// changed, or the client's error as the boundary reports it.
    pub fn finish(self, translated: Result<Translation, FunTranslationsApiClientError>) -> (r:
        Result<PokemonInfo, PokeError>)
        ensures
            is_response(r, translation_response(self@, translated)),
    {
        match translated {
            Ok(translation) => {
                let mut info = self.info;
                info.description = translation.translated;
                Ok(info)
            },
            Err(error) => Err(PokeError::from(error)),
        }
    }
}

/// Begins the translated request with what the species client returned.
/// Where the client failed, the request ends with its error as the boundary
/// reports it, and nothing is left to translate.
pub fn begin_translation(fetched: Result<PokemonInfo, PokeApiClientError>) -> (r: Result<
    PendingTranslation,
    PokeError,
>)
    ensures
        match fetched {
            Ok(info) => r is Ok && r->Ok_0@ == info@,
            Err(error) => r is Err && r->Err_0@ == species_boundary_error(error),
        },
        r is Ok <==> translation_call(fetched) is Some,
{
    match fetched {
        Ok(info) => Ok(PendingTranslation { info }),
        Err(error) => Err(PokeError::from(error)),
    }
}

/// The translated request makes no call to the translation upstream where
/// the species client failed, and then answers with that client's error
/// whatever the translation upstream would have said. Where the species is
/// known, it asks for the dialect that the species calls for and answers
/// with the translation client's error where that client fails: there is no
/// untranslated result. Where both succeed, only the description changes.
pub proof fn lemma_translated_request(
    fetched: Result<PokemonInfo, PokeApiClientError>,
    translate: spec_fn(Seq<char>, Seq<char>) -> Result<Translation, FunTranslationsApiClientError>,
)
    ensures
        fetched matches Err(error) ==> translation_call(fetched) is None
            && translated_info_response(fetched, translate) == Err::<PokemonInfoView, _>(
            species_boundary_error(error),
        ),
        fetched matches Ok(info) ==> ({
            let dialect = dialect_for(info@.habitat, info@.is_legendary);
            &&& translation_call(fetched) == Some((dialect, info@.description))
            &&& match translate(dialect, info@.description) {
                Ok(translation) => translated_info_response(fetched, translate) == Ok::<
                    _,
                    PokeErrorView,
                >(with_description(info@, translation@.translated)),
                Err(error) => translated_info_response(fetched, translate) == Err::<
                    PokemonInfoView,
                    _,
                >(translation_boundary_error(error)),
            }
        }),
        translated_info_response(fetched, translate) is Ok ==> fetched is Ok,
{
}

/// The two steps of the translated request give the response that
/// `translated_info_response` states.
pub proof fn lemma_steps_give_response(
    fetched: Result<PokemonInfo, PokeApiClientError>,
    translate: spec_fn(Seq<char>, Seq<char>) -> Result<Translation, FunTranslationsApiClientError>,
)
    ensures
        fetched matches Ok(info) ==> translated_info_response(fetched, translate)
            == translation_response(
            info@,
            translate(translation_call(fetched)->Some_0.0, translation_call(fetched)->Some_0.1),
        ),
        fetched is Err ==> translated_info_response(fetched, translate) == info_response(fetched),
{
}

} // verus!
