use pokeapi::error::{ClientError, Kind, REQWEST_ERROR_MESSAGE};
use pokeapi::request::{decimal_string, detail_url, listing_url, POKEAPI_ROOT};
use pokeapi::{
    map_request_error, PokemonDetail, PokemonError, PokemonErrorKind, PokemonResponse,
    SinglePokemonResponse, POKEAPI_ERROR_MESSAGE,
};

fn builder_failure() -> reqwest::Error {
    reqwest::Client::new()
        .get("not a url")
        .build()
        .expect_err("a request to a malformed address cannot be built")
}

fn entry(name: &str) -> PokemonDetail {
    PokemonDetail {
        name: name.to_string(),
        url: format!("https://pokeapi.co/api/v2/pokemon/{name}/"),
    }
}

fn page(names: &[&str]) -> PokemonResponse {
    PokemonResponse {
        count: 1302,
        next: Some("https://pokeapi.co/api/v2/pokemon?offset=20&limit=20".to_string()),
        previous: None,
        results: names.iter().map(|n| entry(n)).collect(),
    }
}

fn bulbasaur() -> SinglePokemonResponse {
    SinglePokemonResponse {
        id: 1,
        name: "bulbasaur".to_string(),
        base_experience: 64,
        height: 7,
        is_default: true,
        order: 1,
        weight: 69,
    }
}

#[test]
fn listing_url_is_the_pokemon_path() {
    assert_eq!(listing_url(), "https://pokeapi.co/api/v2/pokemon");
    assert_eq!(POKEAPI_ROOT, "https://pokeapi.co/api/v2");
}

#[test]
fn detail_url_appends_the_identifier() {
    assert_eq!(detail_url(1), "https://pokeapi.co/api/v2/pokemon/1");
    assert_eq!(detail_url(4), "https://pokeapi.co/api/v2/pokemon/4");
    assert_eq!(detail_url(7), "https://pokeapi.co/api/v2/pokemon/7");
    assert_eq!(detail_url(0), "https://pokeapi.co/api/v2/pokemon/0");
    assert_eq!(detail_url(65535), "https://pokeapi.co/api/v2/pokemon/65535");
}

#[test]
fn detail_url_is_the_same_for_the_same_identifier() {
    assert_eq!(detail_url(25), detail_url(25));
    assert_ne!(detail_url(25), detail_url(52));
}

#[test]
fn decimal_string_has_no_leading_zeros() {
    assert_eq!(decimal_string(0), "0");
    assert_eq!(decimal_string(9), "9");
    assert_eq!(decimal_string(10), "10");
    assert_eq!(decimal_string(100), "100");
    assert_eq!(decimal_string(1302), "1302");
    assert_eq!(decimal_string(u16::MAX), "65535");
}

#[test]
fn listing_keeps_the_order_of_the_service() {
    let names = ["bulbasaur", "ivysaur", "venusaur", "charmander", "charmeleon", "charizard"];
    let out = map_request_error::<PokemonResponse>(Ok(page(&names))).expect("a listing passes through");
    assert_eq!(out.count, 1302);
    assert_eq!(out.previous, None);
    assert_eq!(out.results.len(), names.len());
    for (got, want) in out.results.iter().zip(names.iter()) {
        assert_eq!(got.name, *want);
        assert_eq!(got.url, format!("https://pokeapi.co/api/v2/pokemon/{want}/"));
    }
}

#[test]
fn listing_of_three_keeps_its_order() {
    let out = map_request_error::<PokemonResponse>(Ok(page(&["c", "a", "b"]))).unwrap();
    let names: Vec<&str> = out.results.iter().map(|d| d.name.as_str()).collect();
    assert_eq!(names, vec!["c", "a", "b"]);
}

#[test]
fn empty_listing_passes_through() {
    let out = map_request_error::<PokemonResponse>(Ok(page(&[]))).unwrap();
    assert!(out.results.is_empty());
}

#[test]
fn detail_passes_through_unchanged() {
    let out = map_request_error::<SinglePokemonResponse>(Ok(bulbasaur())).unwrap();
    assert_eq!(out.id, 1);
    assert_eq!(out.name, "bulbasaur");
    assert_eq!(out.base_experience, 64);
    assert_eq!(out.height, 7);
    assert!(out.is_default);
    assert_eq!(out.order, 1);
    assert_eq!(out.weight, 69);
}

#[test]
fn same_answer_twice_gives_equal_results() {
    let a = map_request_error::<SinglePokemonResponse>(Ok(bulbasaur())).unwrap();
    let b = map_request_error::<SinglePokemonResponse>(Ok(bulbasaur())).unwrap();
    assert_eq!(format!("{a:?}"), format!("{b:?}"));
}

#[test]
fn transport_failure_becomes_the_general_error() {
    let out = map_request_error::<SinglePokemonResponse>(Err(builder_failure()));
    let err = out.expect_err("a failure stays a failure");
    assert_eq!(err.kind(), PokemonErrorKind::GeneralError);
    assert_eq!(err.message(), "PokeAPI Request Error");
    assert_eq!(POKEAPI_ERROR_MESSAGE, "PokeAPI Request Error");
}

#[test]
fn failures_are_indistinguishable() {
    let a = map_request_error::<PokemonResponse>(Err(builder_failure())).unwrap_err();
    let b = map_request_error::<PokemonResponse>(Err(builder_failure())).unwrap_err();
    assert_eq!(a, b);
}

#[test]
fn pokemon_error_from_reqwest_error() {
    let err = PokemonError::from(builder_failure());
    assert_eq!(err.kind(), PokemonErrorKind::GeneralError);
    assert_eq!(PokemonErrorKind::GeneralError.message(), "PokeAPI Request Error");
}

#[test]
fn client_error_from_reqwest_error() {
    let err = ClientError::from(builder_failure());
    assert_eq!(err.message(), "Reqwest Error");
    assert_eq!(REQWEST_ERROR_MESSAGE, "Reqwest Error");
}

#[test]
fn kind_message_is_its_text() {
    assert_eq!(Kind::RequestError("no route to host").message(), "no route to host");
}
