use steam_scraper::error::SteamError;
use steam_scraper::game_list::{game_ids_from_document, game_ids_from_response, game_list_url};
use steam_scraper::game_name::{
    game_details_url, game_name_from_document, game_name_from_response, is_success,
};

const THREE_GAMES: &str = r#"{"response":{"game_count":3,"games":[{"appid":10,"playtime_forever":5},{"appid":20},{"appid":30}]}}"#;

#[test]
fn list_returns_every_id_in_body_order() {
    let ids = game_ids_from_response(200, THREE_GAMES.as_bytes()).unwrap();
    assert_eq!(ids, vec!["10".to_string(), "20".to_string(), "30".to_string()]);
}

#[test]
fn list_keeps_body_order_not_numeric_order() {
    let body = r#"{"response":{"game_count":2,"games":[{"appid":730},{"appid":-5}]}}"#;
    let ids = game_ids_from_response(200, body.as_bytes()).unwrap();
    assert_eq!(ids, vec!["730".to_string(), "-5".to_string()]);
}

#[test]
fn list_of_no_games_is_empty() {
    let body = r#"{"response":{"game_count":0,"games":[]}}"#;
    assert_eq!(game_ids_from_response(200, body.as_bytes()).unwrap(), Vec::<String>::new());
}

#[test]
fn forbidden_status_is_wrong_key_whatever_the_body() {
    assert!(matches!(game_ids_from_response(403, THREE_GAMES.as_bytes()), Err(SteamError::WrongAPIKey())));
    assert!(matches!(game_ids_from_response(403, b"not json"), Err(SteamError::WrongAPIKey())));
}

#[test]
fn other_status_carries_the_code() {
    assert!(matches!(game_ids_from_response(500, THREE_GAMES.as_bytes()), Err(SteamError::RequestStatusError(500))));
    assert!(matches!(game_ids_from_response(404, b""), Err(SteamError::RequestStatusError(404))));
    assert!(matches!(game_ids_from_response(201, THREE_GAMES.as_bytes()), Err(SteamError::RequestStatusError(201))));
}

#[test]
fn count_that_disagrees_with_games_is_parse_error() {
    let body = r#"{"response":{"game_count":2,"games":[{"appid":10},{"appid":20},{"appid":30}]}}"#;
    assert!(matches!(game_ids_from_response(200, body.as_bytes()), Err(SteamError::ParseError())));
    let body = r#"{"response":{"game_count":4,"games":[{"appid":10}]}}"#;
    assert!(matches!(game_ids_from_response(200, body.as_bytes()), Err(SteamError::ParseError())));
}

#[test]
fn missing_fields_are_parse_errors() {
    let no_count = r#"{"response":{"games":[{"appid":10}]}}"#;
    let no_games = r#"{"response":{"game_count":1}}"#;
    let no_appid = r#"{"response":{"game_count":1,"games":[{"name":"x"}]}}"#;
    let text_appid = r#"{"response":{"game_count":1,"games":[{"appid":"10"}]}}"#;
    let negative = r#"{"response":{"game_count":-1,"games":[]}}"#;
    for body in [no_count, no_games, no_appid, text_appid, negative, "{}", "not json"] {
        assert!(matches!(game_ids_from_response(200, body.as_bytes()), Err(SteamError::ParseError())), "{}", body);
    }
}

#[test]
fn list_url_holds_key_and_account() {
    assert_eq!(
        game_list_url("7656", "KEY"),
        "http://api.steampowered.com/IPlayerService/GetOwnedGames/v0001/?key=KEY&steamid=7656&format=json"
    );
}

#[test]
fn name_is_read_from_successful_details() {
    let body = r#"{"440":{"success":true,"data":{"name":"Team Fortress 2","type":"game"}}}"#;
    assert_eq!(game_name_from_response(200, body.as_bytes(), "440"), Some("Team Fortress 2".to_string()));
}

#[test]
fn name_is_absent_on_any_failure() {
    let unsuccessful = r#"{"440":{"success":false}}"#;
    let no_name = r#"{"440":{"success":true,"data":{}}}"#;
    let other_id = r#"{"441":{"success":true,"data":{"name":"Other"}}}"#;
    let good = r#"{"440":{"success":true,"data":{"name":"Team Fortress 2"}}}"#;
    assert_eq!(game_name_from_response(200, unsuccessful.as_bytes(), "440"), None);
    assert_eq!(game_name_from_response(200, no_name.as_bytes(), "440"), None);
    assert_eq!(game_name_from_response(200, other_id.as_bytes(), "440"), None);
    assert_eq!(game_name_from_response(200, b"<html>", "440"), None);
    assert_eq!(game_name_from_response(404, good.as_bytes(), "440"), None);
}

#[test]
fn details_url_names_the_game() {
    assert_eq!(game_details_url("440"), "https://store.steampowered.com/api/appdetails?appids=440");
}

#[test]
fn success_statuses_are_2xx() {
    assert!(is_success(200));
    assert!(is_success(299));
    assert!(!is_success(199));
    assert!(!is_success(300));
    assert!(!is_success(404));
}

#[test]
fn error_messages() {
    assert_eq!(SteamError::RequestFailed().message(), "request failed");
    assert_eq!(SteamError::ParseError().message(), "response parsing failed");
    assert_eq!(SteamError::WrongAPIKey().message(), "wrong api key");
    assert_eq!(SteamError::RequestStatusError(404).message(), "failed with status 404");
    assert_eq!(SteamError::RequestStatusError(0).message(), "failed with status 0");
}

#[test]
fn ids_from_a_parsed_document() {
    let doc: serde_json::Value = serde_json::from_str(THREE_GAMES).unwrap();
    assert_eq!(game_ids_from_document(&doc).unwrap(), vec!["10".to_string(), "20".to_string(), "30".to_string()]);
    let big: serde_json::Value =
        serde_json::from_str(r#"{"response":{"game_count":1,"games":[{"appid":9223372036854775807}]}}"#).unwrap();
    assert_eq!(game_ids_from_document(&big).unwrap(), vec!["9223372036854775807".to_string()]);
    let too_big: serde_json::Value =
        serde_json::from_str(r#"{"response":{"game_count":1,"games":[{"appid":9223372036854775808}]}}"#).unwrap();
    assert!(matches!(game_ids_from_document(&too_big), Err(SteamError::ParseError())));
    let float_count: serde_json::Value =
        serde_json::from_str(r#"{"response":{"game_count":1.0,"games":[{"appid":1}]}}"#).unwrap();
    assert!(matches!(game_ids_from_document(&float_count), Err(SteamError::ParseError())));
}

#[test]
fn name_from_a_parsed_document() {
    let doc: serde_json::Value =
        serde_json::from_str(r#"{"570":{"success":true,"data":{"name":"Dota 2"}}}"#).unwrap();
    assert_eq!(game_name_from_document(&doc, "570"), Some("Dota 2".to_string()));
    assert_eq!(game_name_from_document(&doc, "571"), None);
    let not_bool: serde_json::Value =
        serde_json::from_str(r#"{"570":{"success":"true","data":{"name":"Dota 2"}}}"#).unwrap();
    assert_eq!(game_name_from_document(&not_bool, "570"), None);
}
