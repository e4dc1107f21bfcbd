use pokespeare::poke_api::client::{PokeApiClient, PokeApiClientError, PokemonInfo};
use pokespeare::poke_api::document::{FlavorTextEntry, SpeciesDocument};
use pokespeare::request::Method;
use std::time::Duration;

const MEWTWO: &str = r#"{"flavor_text_entries":[{"flavor_text":"It was created by a scientist after years of horrific gene splicing and DNA engineering experiments.","language":{"name":"en","url":"https://pokeapi.co/api/v2/language/9/"},"version":{"name":"red","url":"https://pokeapi.co/api/v2/version/1/"}}],"habitat":{"name":"rare","url":"https://pokeapi.co/api/v2/pokemon-habitat/5/"},"is_legendary":true,"name":"mewtwo"}"#;

fn client() -> PokeApiClient {
    PokeApiClient::new(String::from("http://127.0.0.1:4000"), Duration::from_secs(10))
}

fn internal_error(body: &str) {
    let info = client().get_pokemon_info(200, body);
    assert!(info.is_err(), "{:?}", info);
    assert_eq!(info.unwrap_err(), PokeApiClientError::InternalError);
}

#[test]
fn get_pokemon_info_fires_a_request_to_base_url() {
    let poke_api_client = client();
    let pokemon = "qwertyuiop";
    let request = poke_api_client.request(pokemon);
    assert_eq!(request.url, format!("http://127.0.0.1:4000/pokemon-species/{}", pokemon));
    assert_eq!(request.method, Method::Get);

    let info = poke_api_client.get_pokemon_info(200, MEWTWO);

    assert!(info.is_ok());
    let info = info.unwrap();
    assert_eq!(info.name, "mewtwo");
    assert_eq!(info.habitat, "rare");
    assert_eq!(info.is_legendary, true);
    assert_eq!(info.description, "It was created by a scientist after years of horrific gene splicing and DNA engineering experiments.");
}

#[test]
fn get_pokemon_info_fails_if_the_server_returns_404() {
    let info = client().get_pokemon_info(404, "");

    assert!(info.is_err());
    let error = info.unwrap_err();
    assert_eq!(error, PokeApiClientError::NotFound);
}

#[test]
fn not_found_does_not_look_at_the_body() {
    let info = client().get_pokemon_info(404, MEWTWO);
    assert_eq!(info.unwrap_err(), PokeApiClientError::NotFound);
}

#[test]
fn any_other_status_is_an_internal_error() {
    for status in [500u16, 503, 400, 401, 302, 201, 204, 100, 0, 65535] {
        let info = client().get_pokemon_info(status, MEWTWO);
        assert_eq!(info.unwrap_err(), PokeApiClientError::InternalError, "status {}", status);
    }
}

#[test]
fn only_status_200_has_a_body_to_read() {
    assert!(PokeApiClient::expects_body(200));
    for status in [0u16, 100, 199, 201, 204, 301, 404, 500, 65535] {
        assert!(!PokeApiClient::expects_body(status), "status {}", status);
    }
}

#[test]
fn client_keeps_its_settings() {
    let poke_api_client = PokeApiClient::new(String::from("https://pokeapi.co/api/v2"), Duration::from_millis(200));
    assert_eq!(poke_api_client.base_url(), "https://pokeapi.co/api/v2");
    assert_eq!(poke_api_client.timeout(), Duration::from_millis(200));
}

#[test]
fn request_forwards_the_name_as_it_is() {
    let poke_api_client = PokeApiClient::new(String::from("https://pokeapi.co/api/v2"), Duration::from_secs(10));
    assert_eq!(poke_api_client.request("mewtwo").url, "https://pokeapi.co/api/v2/pokemon-species/mewtwo");
    assert_eq!(poke_api_client.request("").url, "https://pokeapi.co/api/v2/pokemon-species/");
    assert_eq!(poke_api_client.request("a b/ç?").url, "https://pokeapi.co/api/v2/pokemon-species/a b/ç?");
}

#[test]
fn request_is_a_get_without_query_within_the_time_limit() {
    let poke_api_client = PokeApiClient::new(String::from("https://pokeapi.co/api/v2"), Duration::from_millis(1500));
    let request = poke_api_client.request("mewtwo");
    assert_eq!(request.method, Method::Get);
    assert_eq!(request.query, None);
    assert_eq!(request.timeout, Duration::from_millis(1500));
}

#[test]
fn mewtwo_description_has_its_line_break_folded() {
    let body = r#"{"name":"mewtwo","habitat":{"name":"rare"},"is_legendary":true,"flavor_text_entries":[{"language":{"name":"en"},"flavor_text":"It was created\nby a scientist."}]}"#;
    let info = client().get_pokemon_info(200, body).unwrap();
    assert_eq!(info.name, "mewtwo");
    assert_eq!(info.habitat, "rare");
    assert_eq!(info.is_legendary, true);
    assert_eq!(info.description, "It was created by a scientist.");
}

#[test]
fn every_line_break_becomes_one_space() {
    let body = r#"{"name":"mewtwo","habitat":{"name":"rare"},"is_legendary":true,"flavor_text_entries":[{"language":{"name":"en"},"flavor_text":"It was created by\na scientist after\nyears of horrific\fgene splicing and\nDNA engineering\nexperiments.\n\n"}]}"#;
    let info = client().build_pokemon_info(body).unwrap();
    assert_eq!(
        info.description,
        "It was created by a scientist after years of horrific\u{c}gene splicing and DNA engineering experiments.  "
    );
    assert!(!info.description.contains('\n'));
}

#[test]
fn first_english_entry_wins_wherever_other_languages_stand() {
    let body = r#"{"name":"pikachu","habitat":{"name":"forest"},"is_legendary":false,"flavor_text_entries":[
        {"language":{"name":"fr"},"flavor_text":"Il stocke\nde l'électricité."},
        {"language":{"name":"ja"},"flavor_text":"ほっぺたの"},
        {"language":{"name":"en"},"flavor_text":"When several of\nthese gather."},
        {"language":{"name":"de"},"flavor_text":"Es speichert"},
        {"language":{"name":"en"},"flavor_text":"A later English text."}
    ]}"#;
    let info = client().get_pokemon_info(200, body).unwrap();
    assert_eq!(info.description, "When several of these gather.");
    assert_eq!(info.name, "pikachu");
    assert_eq!(info.habitat, "forest");
    assert_eq!(info.is_legendary, false);

    let body = r#"{"name":"pikachu","habitat":{"name":"forest"},"is_legendary":false,"flavor_text_entries":[
        {"language":{"name":"en"},"flavor_text":"When several of\nthese gather."},
        {"language":{"name":"fr"},"flavor_text":"Il stocke\nde l'électricité."}
    ]}"#;
    let info = client().get_pokemon_info(200, body).unwrap();
    assert_eq!(info.description, "When several of these gather.");
}

#[test]
fn language_is_compared_exactly() {
    let body = r#"{"name":"pikachu","habitat":{"name":"forest"},"is_legendary":false,"flavor_text_entries":[
        {"language":{"name":"EN"},"flavor_text":"upper"},
        {"language":{"name":"en-US"},"flavor_text":"longer"},
        {"language":{"name":"e"},"flavor_text":"shorter"},
        {"language":{"name":"en"},"flavor_text":"exact"}
    ]}"#;
    let info = client().get_pokemon_info(200, body).unwrap();
    assert_eq!(info.description, "exact");
}

#[test]
fn entries_without_a_language_name_are_passed_over() {
    let body = r#"{"name":"pikachu","habitat":{"name":"forest"},"is_legendary":false,"flavor_text_entries":[
        {"flavor_text":"no language"},
        {"language":"en","flavor_text":"language is no object"},
        {"language":{"name":7},"flavor_text":"name is no string"},
        17,
        {"language":{"name":"en"},"flavor_text":"the one"}
    ]}"#;
    let info = client().get_pokemon_info(200, body).unwrap();
    assert_eq!(info.description, "the one");
}

#[test]
fn missing_name_is_an_internal_error() {
    internal_error(r#"{"habitat":{"name":"rare"},"is_legendary":true,"flavor_text_entries":[{"language":{"name":"en"},"flavor_text":"text"}]}"#);
}

#[test]
fn missing_flavor_text_entries_is_an_internal_error() {
    internal_error(r#"{"name":"mewtwo","habitat":{"name":"rare"},"is_legendary":true}"#);
}

#[test]
fn empty_flavor_text_entries_is_an_internal_error() {
    internal_error(r#"{"name":"mewtwo","habitat":{"name":"rare"},"is_legendary":true,"flavor_text_entries":[]}"#);
}

#[test]
fn no_english_entry_is_an_internal_error() {
    internal_error(r#"{"name":"mewtwo","habitat":{"name":"rare"},"is_legendary":true,"flavor_text_entries":[{"language":{"name":"fr"},"flavor_text":"texte"},{"language":{"name":"de"},"flavor_text":"Text"}]}"#);
}

#[test]
fn english_entry_without_text_is_an_internal_error() {
    internal_error(r#"{"name":"mewtwo","habitat":{"name":"rare"},"is_legendary":true,"flavor_text_entries":[{"language":{"name":"en"}},{"language":{"name":"en"},"flavor_text":"later"}]}"#);
    internal_error(r#"{"name":"mewtwo","habitat":{"name":"rare"},"is_legendary":true,"flavor_text_entries":[{"language":{"name":"en"},"flavor_text":12}]}"#);
}

#[test]
fn missing_habitat_is_an_internal_error() {
    internal_error(r#"{"name":"mewtwo","is_legendary":true,"flavor_text_entries":[{"language":{"name":"en"},"flavor_text":"text"}]}"#);
    internal_error(r#"{"name":"mewtwo","habitat":null,"is_legendary":true,"flavor_text_entries":[{"language":{"name":"en"},"flavor_text":"text"}]}"#);
    internal_error(r#"{"name":"mewtwo","habitat":{"url":"u"},"is_legendary":true,"flavor_text_entries":[{"language":{"name":"en"},"flavor_text":"text"}]}"#);
    internal_error(r#"{"name":"mewtwo","habitat":"rare","is_legendary":true,"flavor_text_entries":[{"language":{"name":"en"},"flavor_text":"text"}]}"#);
}

#[test]
fn missing_is_legendary_is_an_internal_error() {
    internal_error(r#"{"name":"mewtwo","habitat":{"name":"rare"},"flavor_text_entries":[{"language":{"name":"en"},"flavor_text":"text"}]}"#);
}

#[test]
fn mistyped_fields_are_an_internal_error() {
    internal_error(r#"{"name":150,"habitat":{"name":"rare"},"is_legendary":true,"flavor_text_entries":[{"language":{"name":"en"},"flavor_text":"text"}]}"#);
    internal_error(r#"{"name":"mewtwo","habitat":{"name":"rare"},"is_legendary":"true","flavor_text_entries":[{"language":{"name":"en"},"flavor_text":"text"}]}"#);
    internal_error(r#"{"name":"mewtwo","habitat":{"name":"rare"},"is_legendary":1,"flavor_text_entries":[{"language":{"name":"en"},"flavor_text":"text"}]}"#);
    internal_error(r#"{"name":"mewtwo","habitat":{"name":"rare"},"is_legendary":true,"flavor_text_entries":{"language":{"name":"en"},"flavor_text":"text"}}"#);
    internal_error(r#"{"name":"mewtwo","habitat":{"name":["rare"]},"is_legendary":true,"flavor_text_entries":[{"language":{"name":"en"},"flavor_text":"text"}]}"#);
}

#[test]
fn text_that_is_no_document_is_an_internal_error() {
    internal_error("");
    internal_error("not json");
    internal_error(r#"{"name":"mewtwo""#);
    internal_error(&format!("{} trailing", MEWTWO));
    internal_error("[]");
    internal_error("null");
    internal_error("\"mewtwo\"");
}

#[test]
fn build_pokemon_info_reads_a_body() {
    let info = client().build_pokemon_info(MEWTWO).unwrap();
    assert_eq!(info.name, "mewtwo");
    assert_eq!(info.habitat, "rare");
    assert!(info.is_legendary);
    let error = client().build_pokemon_info("{}").unwrap_err();
    assert_eq!(error, PokeApiClientError::InternalError);
}

#[test]
fn document_is_read_field_by_field() {
    let value: serde_json::Value = serde_json::from_str(
        r#"{"name":"zubat","habitat":{"name":"cave"},"is_legendary":false,"flavor_text_entries":[{"language":{"name":"fr"},"flavor_text":"a"},{"language":{"name":"en"}},{"flavor_text":"c"}]}"#,
    )
    .unwrap();
    let doc = SpeciesDocument::read(&value);
    assert_eq!(doc.name.as_deref(), Some("zubat"));
    assert_eq!(doc.habitat.as_deref(), Some("cave"));
    assert_eq!(doc.is_legendary, Some(false));
    let entries = doc.flavor_text_entries.as_ref().unwrap();
    assert_eq!(entries.len(), 3);
    assert_eq!(entries[0].language.as_deref(), Some("fr"));
    assert_eq!(entries[0].flavor_text.as_deref(), Some("a"));
    assert_eq!(entries[1].language.as_deref(), Some("en"));
    assert_eq!(entries[1].flavor_text, None);
    assert_eq!(entries[2].language, None);
    assert_eq!(entries[2].flavor_text.as_deref(), Some("c"));
    assert_eq!(SpeciesDocument::first_english_entry(entries), Some(1));
    assert_eq!(doc.description(), None);

    let entry = FlavorTextEntry::read(&value["flavor_text_entries"][0]);
    assert_eq!(entry.language.as_deref(), Some("fr"));

    let empty = SpeciesDocument::read(&serde_json::Value::Null);
    assert_eq!(empty.name, None);
    assert!(empty.flavor_text_entries.is_none());
    assert_eq!(empty.habitat, None);
    assert_eq!(empty.is_legendary, None);
}

fn entry(language: Option<&str>, flavor_text: Option<&str>) -> FlavorTextEntry {
    FlavorTextEntry {
        language: language.map(String::from),
        flavor_text: flavor_text.map(String::from),
    }
}

#[test]
fn info_is_built_from_a_document() {
    let doc = SpeciesDocument {
        name: Some(String::from("mewtwo")),
        flavor_text_entries: Some(vec![
            entry(Some("es"), Some("Fue creado\npor un científico.")),
            entry(None, Some("nobody's")),
            entry(Some("en"), Some("It was created\nby a scientist.")),
            entry(Some("en"), Some("second")),
        ]),
        habitat: Some(String::from("rare")),
        is_legendary: Some(true),
    };
    assert_eq!(
        SpeciesDocument::first_english_entry(doc.flavor_text_entries.as_ref().unwrap()),
        Some(2)
    );
    assert_eq!(doc.description().as_deref(), Some("It was created by a scientist."));
    let info: PokemonInfo = PokemonInfo::from_document(doc).unwrap();
    assert_eq!(info.name, "mewtwo");
    assert_eq!(info.description, "It was created by a scientist.");
    assert_eq!(info.habitat, "rare");
    assert!(info.is_legendary);
}

#[test]
fn first_english_entry_of_lists_without_one() {
    assert_eq!(SpeciesDocument::first_english_entry(&vec![]), None);
    assert_eq!(
        SpeciesDocument::first_english_entry(&vec![entry(Some("fr"), Some("a")), entry(None, None)]),
        None
    );
    assert_eq!(SpeciesDocument::first_english_entry(&vec![entry(Some("en"), None)]), Some(0));
}

#[test]
fn incomplete_documents_give_no_info() {
    let complete = || SpeciesDocument {
        name: Some(String::from("mewtwo")),
        flavor_text_entries: Some(vec![entry(Some("en"), Some("text"))]),
        habitat: Some(String::from("rare")),
        is_legendary: Some(false),
    };
    assert!(PokemonInfo::from_document(complete()).is_ok());

    let mut doc = complete();
    doc.name = None;
    assert_eq!(PokemonInfo::from_document(doc).unwrap_err(), PokeApiClientError::InternalError);
    let mut doc = complete();
    doc.flavor_text_entries = None;
    assert_eq!(PokemonInfo::from_document(doc).unwrap_err(), PokeApiClientError::InternalError);
    let mut doc = complete();
    doc.flavor_text_entries = Some(vec![entry(Some("it"), Some("testo"))]);
    assert_eq!(PokemonInfo::from_document(doc).unwrap_err(), PokeApiClientError::InternalError);
    let mut doc = complete();
    doc.flavor_text_entries = Some(vec![entry(Some("en"), None), entry(Some("en"), Some("late"))]);
    assert_eq!(PokemonInfo::from_document(doc).unwrap_err(), PokeApiClientError::InternalError);
    let mut doc = complete();
    doc.habitat = None;
    assert_eq!(PokemonInfo::from_document(doc).unwrap_err(), PokeApiClientError::InternalError);
    let mut doc = complete();
    doc.is_legendary = None;
    assert_eq!(PokemonInfo::from_document(doc).unwrap_err(), PokeApiClientError::InternalError);
}

#[test]
fn errors_compare_by_variant_and_message() {
    assert_eq!(PokeApiClientError::NotFound, PokeApiClientError::NotFound);
    assert_eq!(PokeApiClientError::InternalError, PokeApiClientError::InternalError);
    assert_ne!(PokeApiClientError::NotFound, PokeApiClientError::InternalError);
    assert_eq!(
        PokeApiClientError::BadRequest { message: String::from("a") },
        PokeApiClientError::BadRequest { message: String::from("a") }
    );
    assert_ne!(
        PokeApiClientError::BadRequest { message: String::from("a") },
        PokeApiClientError::BadRequest { message: String::from("b") }
    );
    assert_ne!(
        PokeApiClientError::BadRequest { message: String::from("a") },
        PokeApiClientError::InternalError
    );
}

#[test]
fn a_parse_failure_is_an_internal_error() {
    let failure = serde_json::from_str::<serde_json::Value>("{").unwrap_err();
    assert_eq!(PokeApiClientError::from(failure), PokeApiClientError::InternalError);
}

#[test]
fn a_transport_failure_is_an_internal_error() {
    let request = http::Request::builder().uri("/no-host").body("").unwrap();
    let failure = reqwest::Request::try_from(request).unwrap_err();
    assert_eq!(failure.status(), None);
    assert_eq!(PokeApiClientError::from(failure), PokeApiClientError::InternalError);

    let response = http::Response::builder().status(404).body("").unwrap();
    let failure = reqwest::Response::from(response).error_for_status().unwrap_err();
    assert_eq!(PokeApiClientError::from(failure), PokeApiClientError::InternalError);
}
