//! The list of games an account owns, read from the game-list service.

use vstd::prelude::*;
use crate::error::SteamError;
use crate::json::{
    as_i64_spec, json_array_len, json_element, json_member, json_view, member, member_at, parse_json,
    parsed_json, Json,
};
use crate::text::{decimal, int_to_decimal};

verus! {

/// The views of a sequence of strings.
pub open spec fn strings_view(v: Seq<String>) -> Seq<Seq<char>> {
    v.map_values(|s: String| s@)
}

/// The address that lists the games of `steam_id`, authorised by `api_key`.
pub open spec fn game_list_url_spec(steam_id: Seq<char>, api_key: Seq<char>) -> Seq<char> {
    "http://api.steampowered.com/IPlayerService/GetOwnedGames/v0001/?key="@ + api_key
        + "&steamid="@ + steam_id + "&format=json"@
}

/// The id of one entry of the games array.
pub open spec fn app_id_of(game: Json) -> Option<i64> {
    as_i64_spec(member(game, "appid"@))
}

/// The ids that a game-list document names, in the order of its `games`
/// array. The array must hold exactly `game_count` entries, each with an
/// integer `appid`; anything else is a parse failure.
pub open spec fn ids_of_document(doc: Json) -> Result<Seq<Seq<char>>, SteamError> {
    let response = member(doc, "response"@);
    match as_i64_spec(member_at(response, "game_count"@)) {
        None => Err(SteamError::ParseError()),
        Some(count) => match member_at(response, "games"@) {
            Some(Json::Array(games)) => {
                if games.len() == count && forall|i: int|
                    0 <= i < games.len() ==> (#[trigger] app_id_of(games[i])) is Some {
                    Ok(games.map_values(|g: Json| decimal(app_id_of(g)->0 as int)))
                } else {
                    Err(SteamError::ParseError())
                }
            },
            _ => Err(SteamError::ParseError()),
        },
    }
}

/// What a reply of the game-list service yields: a refused key on `403`,
/// the status itself on any other status but `200`, and otherwise the ids of
/// the body.
pub open spec fn game_list_outcome(status: u16, body: Seq<u8>) -> Result<Seq<Seq<char>>, SteamError> {
    if status == 403 {
        Err(SteamError::WrongAPIKey())
    } else if status != 200 {
        Err(SteamError::RequestStatusError(status))
    } else {
        match parsed_json(body) {
            None => Err(SteamError::ParseError()),
            Some(doc) => ids_of_document(doc),
        }
    }
}

/// The address of the game-list request.
pub fn game_list_url(steam_id: &str, api_key: &str) -> (r: String)
    ensures
        r@ == game_list_url_spec(steam_id@, api_key@),
{
    proof {
        reveal_strlit("http://api.steampowered.com/IPlayerService/GetOwnedGames/v0001/?key=");
        reveal_strlit("&steamid=");
        reveal_strlit("&format=json");
    }
    let mut r = String::from_str("http://api.steampowered.com/IPlayerService/GetOwnedGames/v0001/?key=");
    r.append(api_key);
    r.append("&steamid=");
    r.append(steam_id);
    r.append("&format=json");
    r
}

/// The ids of the games in a parsed game-list document, in the order of its
/// `games` array, or a parse failure.
pub fn game_ids_from_document(doc: &serde_json::Value) -> (r: Result<Vec<String>, SteamError>)
    ensures
        match ids_of_document(json_view(*doc)) {
            Ok(ids) => r is Ok && strings_view(r->Ok_0@) == ids,
            Err(e) => r == Err::<Vec<String>, SteamError>(e),
        },
{
    let response = json_member(doc, "response");
    let count = match response {
        Some(resp) => match json_member(resp, "game_count") {
            Some(c) => c.as_i64(),
            None => None,
        },
        None => None,
    };
    let count = match count {
        Some(c) => c,
        None => return Err(SteamError::ParseError()),
    };
    let games = match response {
        Some(resp) => json_member(resp, "games"),
        None => None,
    };
    let games = match games {
        Some(g) => g,
        None => return Err(SteamError::ParseError()),
    };
    let len = match json_array_len(games) {
        Some(n) => n,
        None => return Err(SteamError::ParseError()),
    };
    let ghost items = json_view(*games)->Array_0;
    if count < 0 || count as u64 != len as u64 {
        return Err(SteamError::ParseError());
    }
    let mut ids: Vec<String> = Vec::new();
    let mut i: usize = 0;
    while i < len
        invariant
            json_view(*games) == Json::Array(items),
            member_at(member(json_view(*doc), "response"@), "games"@) == Some(Json::Array(items)),
            as_i64_spec(member_at(member(json_view(*doc), "response"@), "game_count"@)) == Some(count),
            count == len,
            len == items.len(),
            i <= len,
            forall|k: int| 0 <= k < i ==> (#[trigger] app_id_of(items[k])) is Some,
            strings_view(ids@) == items.take(i as int).map_values(
                |g: Json| decimal(app_id_of(g)->0 as int),
            ),
        decreases len - i,
    {
        let game = match json_element(games, i) {
            Some(g) => g,
            None => return Err(SteamError::ParseError()),
        };
        let app_id = match json_member(game, "appid") {
            Some(a) => a.as_i64(),
            None => None,
        };
        match app_id {
            Some(a) => {
                assert(app_id_of(items[i as int]) == Some(a));
                let ghost before = ids@;
                let s = int_to_decimal(a as i128);
                ids.push(s);
                proof {
                    assert(items.take(i + 1) == items.take(i as int).push(items[i as int]));
                    assert(strings_view(ids@) =~= strings_view(before).push(s@));
                    assert(strings_view(ids@) =~= items.take(i + 1).map_values(
                        |g: Json| decimal(app_id_of(g)->0 as int),
                    ));
                }
                i = i + 1;
            },
            None => {
                proof {
                    assert(app_id_of(items[i as int]) is None);
                    assert(!(forall|k: int| 0 <= k < items.len() ==> (#[trigger] app_id_of(items[k])) is Some));
                }
                return Err(SteamError::ParseError());
            },
        }
    }
    assert(items.take(len as int) == items);
    Ok(ids)
}

/// The ids of the games that a reply of the game-list service names, in the
/// order of the reply, or why there are none.
pub fn game_ids_from_response(status: u16, body: &[u8]) -> (r: Result<Vec<String>, SteamError>)
    ensures
        match game_list_outcome(status, body@) {
            Ok(ids) => r is Ok && strings_view(r->Ok_0@) == ids,
            Err(e) => r == Err::<Vec<String>, SteamError>(e),
        },
{
    if status == 403 {
        return Err(SteamError::WrongAPIKey());
    }
    if status != 200 {
        return Err(SteamError::RequestStatusError(status));
    }
    match parse_json(body) {
        Some(doc) => game_ids_from_document(&doc),
        None => Err(SteamError::ParseError()),
    }
}

/// A `403` reply is a refused key, whatever its body holds.
pub proof fn lemma_forbidden_is_wrong_key(body: Seq<u8>)
    ensures
        game_list_outcome(403, body) == Err::<Seq<Seq<char>>, SteamError>(SteamError::WrongAPIKey()),
{
}

/// Any status but `200` and `403` is reported with that very status.
pub proof fn lemma_other_status_is_reported(status: u16, body: Seq<u8>)
    requires
        status != 200,
        status != 403,
    ensures
        game_list_outcome(status, body) == Err::<Seq<Seq<char>>, SteamError>(
            SteamError::RequestStatusError(status),
        ),
{
}

/// A `200` reply whose `game_count` is N and whose `games` array holds N
/// entries, each with an integer `appid`, yields exactly N ids: the ids of
/// the entries, in the order of the body.
pub proof fn lemma_well_formed_list_yields_every_id(body: Seq<u8>, doc: Json, games: Seq<Json>)
    requires
        parsed_json(body) == Some(doc),
        as_i64_spec(member_at(member(doc, "response"@), "game_count"@)) matches Some(n) && n == games.len(),
        member_at(member(doc, "response"@), "games"@) == Some(Json::Array(games)),
        forall|i: int| 0 <= i < games.len() ==> (#[trigger] app_id_of(games[i])) is Some,
    ensures
        game_list_outcome(200, body) is Ok,
        game_list_outcome(200, body)->Ok_0.len() == games.len(),
        forall|i: int|
            0 <= i < games.len() ==> game_list_outcome(200, body)->Ok_0[i] == decimal(
                (#[trigger] app_id_of(games[i]))->0 as int,
            ),
{
}

} // verus!
