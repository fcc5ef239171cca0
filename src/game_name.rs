//! The store name of a game, looked up only to describe a failure.

use vstd::prelude::*;
use crate::json::{
    Json, as_bool_spec, as_str_spec, json_member, json_view, member, member_at, parse_json, parsed_json,
};

verus! {

/// Whether an HTTP status reports success (`2xx`).
pub open spec fn is_success_spec(status: u16) -> bool {
    200 <= status <= 299
}

/// Whether an HTTP status reports success (`2xx`).
pub fn is_success(status: u16) -> (r: bool)
    ensures
        r == is_success_spec(status),
{
    200 <= status && status <= 299
}

/// The address of the store details of a game.
pub open spec fn game_details_url_spec(game_id: Seq<char>) -> Seq<char> {
    "https://store.steampowered.com/api/appdetails?appids="@ + game_id
}

/// The name that a details document gives a game: present only where the
/// document's entry for the game has `success` set to true and a string at
/// `data.name`.
pub open spec fn game_name_of_document(doc: Json, game_id: Seq<char>) -> Option<Seq<char>> {
    let entry = member(doc, game_id);
    if as_bool_spec(member_at(entry, "success"@)) != Some(true) {
        None
    } else {
        as_str_spec(member_at(member_at(entry, "data"@), "name"@))
    }
}

/// The name that a reply of the details service gives a game: present only
/// for a success status and a JSON body that names the game.
pub open spec fn game_name_outcome(status: u16, body: Seq<u8>, game_id: Seq<char>) -> Option<Seq<char>> {
    if !is_success_spec(status) {
        None
    } else {
        match parsed_json(body) {
            None => None,
            Some(doc) => game_name_of_document(doc, game_id),
        }
    }
}

/// The address of the details request for a game.
pub fn game_details_url(game_id: &str) -> (r: String)
    ensures
        r@ == game_details_url_spec(game_id@),
{
    proof {
        reveal_strlit("https://store.steampowered.com/api/appdetails?appids=");
    }
    let mut r = String::from_str("https://store.steampowered.com/api/appdetails?appids=");
    r.append(game_id);
    r
}

/// The name of a game in a reply of the details service, if the reply gives
/// one. A missing name is no error: the name only decorates failure reports.
pub fn game_name_from_response(status: u16, body: &[u8], game_id: &str) -> (r: Option<String>)
    ensures
        match game_name_outcome(status, body@, game_id@) {
            Some(name) => r is Some && r->0@ == name,
            None => r is None,
        },
{
    if !is_success(status) {
        return None;
    }
    match parse_json(body) {
        Some(doc) => game_name_from_document(&doc, game_id),
        None => None,
    }
}

/// The name that a parsed details document gives a game, if it gives one.
pub fn game_name_from_document(doc: &serde_json::Value, game_id: &str) -> (r: Option<String>)
    ensures
        match game_name_of_document(json_view(*doc), game_id@) {
            Some(name) => r is Some && r->0@ == name,
            None => r is None,
        },
{
    let entry = match json_member(doc, game_id) {
        Some(e) => e,
        None => return None,
    };
    let success = match json_member(entry, "success") {
        Some(s) => s.as_bool(),
        None => None,
    };
    match success {
        Some(true) => {},
        _ => return None,
    }
    let data = match json_member(entry, "data") {
        Some(d) => d,
        None => return None,
    };
    let name = match json_member(data, "name") {
        Some(n) => n.as_str(),
        None => None,
    };
    match name {
        Some(n) => Some(String::from_str(n)),
        None => None,
    }
}

} // verus!
