//! Where the signaling service is reached: the base endpoint, and the URLs
//! that are built on it for a room.

use vstd::prelude::*;
use vstd::string::*;
use crate::room::{b64url_encode, encoded_of, RoomError};
use crate::url_text::{
    parse_of, parse_url, scheme, scheme_of, str_of, text_of, with_fragment, with_fragment_of,
    with_path, with_path_of, with_query, with_query_of, with_scheme, with_scheme_of,
};

verus! {

/// The endpoints that the environment names.
pub struct EndpointEnv {
    /// The endpoint set for this program.
    pub primary: Option<String>,
    /// The endpoint set under the older name.
    pub legacy: Option<String>,
}

/// The endpoint that is used where none is given.
pub open spec fn default_endpoint() -> Seq<char> {
    "https://getpairlane.com"@
}

/// The endpoint to use: the one given, else the one set for this program,
/// else the one set under the older name, else the default.
pub open spec fn chosen_endpoint(
    explicit: Option<Seq<char>>,
    primary: Option<Seq<char>>,
    legacy: Option<Seq<char>>,
) -> Seq<char> {
    match explicit {
        Some(endpoint) => endpoint,
        None => match primary {
            Some(endpoint) => endpoint,
            None => match legacy {
                Some(endpoint) => endpoint,
                None => default_endpoint(),
            },
        },
    }
}

/// The scheme under which pages are fetched from an endpoint of the given
/// scheme.
pub open spec fn http_scheme_for(scheme: Seq<char>) -> Option<Seq<char>> {
    if scheme == "https"@ || scheme == "http"@ {
        Some(scheme)
    } else if scheme == "wss"@ {
        Some("https"@)
    } else if scheme == "ws"@ {
        Some("http"@)
    } else {
        None
    }
}

/// The scheme under which the signaling connection is made to an endpoint
/// of the given scheme.
pub open spec fn ws_scheme_for(scheme: Seq<char>) -> Option<Seq<char>> {
    if scheme == "https"@ || scheme == "wss"@ {
        Some("wss"@)
    } else if scheme == "http"@ || scheme == "ws"@ {
        Some("ws"@)
    } else {
        None
    }
}

/// What a step on a URL gives, with `error` where it gives nothing.
pub open spec fn or_error(url: Option<Seq<char>>, error: RoomError) -> Result<
    Seq<char>,
    RoomError,
> {
    match url {
        Some(u) => Ok(u),
        None => Err(error),
    }
}

/// `url` without path, query and fragment.
pub open spec fn stripped(url: Seq<char>) -> Result<Seq<char>, RoomError> {
    match with_path_of(url, Seq::empty()) {
        None => Err(RoomError::InvalidUrl),
        Some(no_path) => match with_query_of(no_path, None) {
            None => Err(RoomError::InvalidUrl),
            Some(no_query) => or_error(with_fragment_of(no_query, None), RoomError::InvalidUrl),
        },
    }
}

/// The base endpoint that `chosen` names: the URL it parses to, under the
/// page scheme that goes with its scheme, without path, query and
/// fragment.
pub open spec fn base_endpoint_of(chosen: Seq<char>) -> Result<Seq<char>, RoomError> {
    match parse_of(chosen) {
        None => Err(RoomError::InvalidUrl),
        Some(url) => match scheme_of(url) {
            None => Err(RoomError::InvalidUrl),
            Some(scheme) => match http_scheme_for(scheme) {
                None => Err(RoomError::UnsupportedScheme),
                Some(target) => match with_scheme_of(url, target) {
                    None => Err(RoomError::InvalidScheme),
                    Some(changed) => stripped(changed),
                },
            },
        },
    }
}

/// The path of the signaling connection of a room.
pub open spec fn ws_path(room_id: Seq<char>) -> Seq<char> {
    "/ws/"@ + room_id
}

/// The query of the signaling connection of a client.
pub open spec fn ws_query(client_id: Seq<char>) -> Seq<char> {
    "cid="@ + client_id
}

/// The path of the page of a room.
pub open spec fn room_path(room_id: Seq<char>) -> Seq<char> {
    "/r/"@ + room_id
}

/// The fragment that carries a room key in its encoded form.
pub open spec fn key_fragment(encoded: Seq<char>) -> Seq<char> {
    "k="@ + encoded
}

/// The path under which rooms are created.
pub open spec fn rooms_path() -> Seq<char> {
    "/api/rooms"@
}

/// The URL of the signaling connection of `client_id` to the room
/// `room_id`, on the base endpoint `base`.
pub open spec fn ws_url_of(base: Seq<char>, room_id: Seq<char>, client_id: Seq<char>) -> Result<
    Seq<char>,
    RoomError,
> {
    match scheme_of(base) {
        None => Err(RoomError::InvalidUrl),
        Some(scheme) => match ws_scheme_for(scheme) {
            None => Err(RoomError::UnsupportedScheme),
            Some(target) => match with_scheme_of(base, target) {
                None => Err(RoomError::InvalidScheme),
                Some(changed) => match with_path_of(changed, ws_path(room_id)) {
                    None => Err(RoomError::InvalidUrl),
                    Some(with_room) => or_error(
                        with_query_of(with_room, Some(ws_query(client_id))),
                        RoomError::InvalidUrl,
                    ),
                },
            },
        },
    }
}

/// The URL of the page of the room `room_id` on the base endpoint `base`,
/// with the room key, if there is one, in its fragment.
pub open spec fn room_url_of(base: Seq<char>, room_id: Seq<char>, key: Option<Seq<u8>>) -> Result<
    Seq<char>,
    RoomError,
> {
    match with_path_of(base, room_path(room_id)) {
        None => Err(RoomError::InvalidUrl),
        Some(with_room) => match with_query_of(with_room, None) {
            None => Err(RoomError::InvalidUrl),
            Some(no_query) => match key {
                None => or_error(with_fragment_of(no_query, None), RoomError::InvalidUrl),
                Some(bytes) => match encoded_of(bytes) {
                    None => Err(RoomError::InvalidKey),
                    Some(encoded) => or_error(
                        with_fragment_of(no_query, Some(key_fragment(encoded))),
                        RoomError::InvalidUrl,
                    ),
                },
            },
        },
    }
}

/// Chains a step that needs the result of the one before.
pub open spec fn and_then(
    first: Result<Seq<char>, RoomError>,
    next: spec_fn(Seq<char>) -> Result<Seq<char>, RoomError>,
) -> Result<Seq<char>, RoomError> {
    match first {
        Ok(value) => next(value),
        Err(e) => Err(e),
    }
}

/// The endpoint to use, as a text of its own.
pub fn choose_endpoint(endpoint: Option<&str>, env: &EndpointEnv) -> (chosen: String)
    ensures
        chosen@ == chosen_endpoint(str_of(endpoint), text_of(env.primary), text_of(env.legacy)),
{
    match endpoint {
        Some(value) => String::from_str(value),
        None => match &env.primary {
            Some(value) => value.clone(),
            None => match &env.legacy {
                Some(value) => value.clone(),
                None => String::from_str("https://getpairlane.com"),
            },
        },
    }
}

/// The scheme under which pages are fetched from an endpoint of the scheme
/// `scheme`, if it is one of `https`, `http`, `wss`, `ws`.
pub fn http_scheme(scheme: &String) -> (target: Option<String>)
    ensures
        text_of(target) == http_scheme_for(scheme@),
{
    if *scheme == String::from_str("https") || *scheme == String::from_str("http") {
        Some(scheme.clone())
    } else if *scheme == String::from_str("wss") {
        Some(String::from_str("https"))
    } else if *scheme == String::from_str("ws") {
        Some(String::from_str("http"))
    } else {
        None
    }
}

/// The scheme under which the signaling connection is made to an endpoint
/// of the scheme `scheme`, if it is one of `https`, `http`, `wss`, `ws`.
pub fn ws_scheme(scheme: &String) -> (target: Option<String>)
    ensures
        text_of(target) == ws_scheme_for(scheme@),
{
    if *scheme == String::from_str("https") || *scheme == String::from_str("wss") {
        Some(String::from_str("wss"))
    } else if *scheme == String::from_str("http") || *scheme == String::from_str("ws") {
        Some(String::from_str("ws"))
    } else {
        None
    }
}

/// `url` without path, query and fragment.
fn strip(url: &str) -> (result: Result<String, RoomError>)
    ensures
        match result {
            Ok(text) => stripped(url@) == Ok::<Seq<char>, RoomError>(text@),
            Err(e) => stripped(url@) == Err::<Seq<char>, RoomError>(e),
        },
{
    proof {
        reveal_strlit("");
        assert(""@ =~= Seq::<char>::empty());
    }
    let no_path = match with_path(url, "") {
        Some(u) => u,
        None => {
            return Err(RoomError::InvalidUrl);
        },
    };
    let no_query = match with_query(no_path.as_str(), None) {
        Some(u) => u,
        None => {
            return Err(RoomError::InvalidUrl);
        },
    };
    match with_fragment(no_query.as_str(), None) {
        Some(u) => Ok(u),
        None => Err(RoomError::InvalidUrl),
    }
}

/// The base endpoint that the text `chosen` names.
pub fn base_endpoint(chosen: &str) -> (result: Result<String, RoomError>)
    ensures
        match result {
            Ok(base) => base_endpoint_of(chosen@) == Ok::<Seq<char>, RoomError>(base@),
            Err(e) => base_endpoint_of(chosen@) == Err::<Seq<char>, RoomError>(e),
        },
{
    let url = match parse_url(chosen) {
        Some(u) => u,
        None => {
            return Err(RoomError::InvalidUrl);
        },
    };
    let current = match scheme(url.as_str()) {
        Some(s) => s,
        None => {
            return Err(RoomError::InvalidUrl);
        },
    };
    let target = match http_scheme(&current) {
        Some(s) => s,
        None => {
            return Err(RoomError::UnsupportedScheme);
        },
    };
    let changed = match with_scheme(url.as_str(), target.as_str()) {
        Some(u) => u,
        None => {
            return Err(RoomError::InvalidScheme);
        },
    };
    strip(changed.as_str())
}

/// The base endpoint: the endpoint given, or else the one that the
/// environment names, or else the default, as a URL under the scheme that
/// pages are fetched with and without path, query and fragment.
pub fn base_endpoint_url(endpoint: Option<&str>, env: &EndpointEnv) -> (result: Result<
    String,
    RoomError,
>)
    ensures
        ({
            let expected = base_endpoint_of(
                chosen_endpoint(str_of(endpoint), text_of(env.primary), text_of(env.legacy)),
            );
            match result {
                Ok(base) => expected == Ok::<Seq<char>, RoomError>(base@),
                Err(e) => expected == Err::<Seq<char>, RoomError>(e),
            }
        }),
{
    let chosen = choose_endpoint(endpoint, env);
    base_endpoint(chosen.as_str())
}

/// The URL of the signaling connection of `client_id` to the room
/// `room_id`: the base endpoint under the scheme that goes with its own,
/// with the room in the path and the client in the query.
pub fn build_ws_url(endpoint: Option<&str>, env: &EndpointEnv, room_id: &str, client_id: &str) -> (result:
    Result<String, RoomError>)
    ensures
        ({
            let expected = and_then(
                base_endpoint_of(
                    chosen_endpoint(str_of(endpoint), text_of(env.primary), text_of(env.legacy)),
                ),
                |base: Seq<char>| ws_url_of(base, room_id@, client_id@),
            );
            match result {
                Ok(url) => expected == Ok::<Seq<char>, RoomError>(url@),
                Err(e) => expected == Err::<Seq<char>, RoomError>(e),
            }
        }),
{
    let base = match base_endpoint_url(endpoint, env) {
        Ok(b) => b,
        Err(e) => {
            return Err(e);
        },
    };
    let current = match scheme(base.as_str()) {
        Some(s) => s,
        None => {
            return Err(RoomError::InvalidUrl);
        },
    };
    let target = match ws_scheme(&current) {
        Some(s) => s,
        None => {
            return Err(RoomError::UnsupportedScheme);
        },
    };
    let changed = match with_scheme(base.as_str(), target.as_str()) {
        Some(u) => u,
        None => {
            return Err(RoomError::InvalidScheme);
        },
    };
    let mut path = String::from_str("/ws/");
    path.append(room_id);
    let with_room = match with_path(changed.as_str(), path.as_str()) {
        Some(u) => u,
        None => {
            return Err(RoomError::InvalidUrl);
        },
    };
    let mut query = String::from_str("cid=");
    query.append(client_id);
    match with_query(with_room.as_str(), Some(query.as_str())) {
        Some(u) => Ok(u),
        None => Err(RoomError::InvalidUrl),
    }
}

/// The URL of the page of the room `room_id`, to be handed to the other
/// side: the base endpoint with the room in the path, without query, and
/// with the room key, if there is one, encoded in the fragment.
pub fn build_room_url_with_key(
    endpoint: Option<&str>,
    env: &EndpointEnv,
    room_id: &str,
    key: Option<&[u8]>,
) -> (result: Result<String, RoomError>)
    ensures
        ({
            let expected = and_then(
                base_endpoint_of(
                    chosen_endpoint(str_of(endpoint), text_of(env.primary), text_of(env.legacy)),
                ),
                |base: Seq<char>|
                    room_url_of(
                        base,
                        room_id@,
                        match key {
                            Some(bytes) => Some(bytes@),
                            None => None,
                        },
                    ),
            );
            match result {
                Ok(url) => expected == Ok::<Seq<char>, RoomError>(url@),
                Err(e) => expected == Err::<Seq<char>, RoomError>(e),
            }
        }),
{
    let base = match base_endpoint_url(endpoint, env) {
        Ok(b) => b,
        Err(e) => {
            return Err(e);
        },
    };
    let mut path = String::from_str("/r/");
    path.append(room_id);
    let with_room = match with_path(base.as_str(), path.as_str()) {
        Some(u) => u,
        None => {
            return Err(RoomError::InvalidUrl);
        },
    };
    let no_query = match with_query(with_room.as_str(), None) {
        Some(u) => u,
        None => {
            return Err(RoomError::InvalidUrl);
        },
    };
    let changed = match key {
        None => with_fragment(no_query.as_str(), None),
        Some(bytes) => {
            let encoded = match b64url_encode(bytes) {
                Some(text) => text,
                None => {
                    return Err(RoomError::InvalidKey);
                },
            };
            let mut fragment = String::from_str("k=");
            fragment.append(encoded.as_str());
            with_fragment(no_query.as_str(), Some(fragment.as_str()))
        },
    };
    match changed {
        Some(u) => Ok(u),
        None => Err(RoomError::InvalidUrl),
    }
}

/// The URL to which the request for a new room goes: the base endpoint
/// with the path under which rooms are created.
pub fn create_room_url(endpoint: Option<&str>, env: &EndpointEnv) -> (result: Result<
    String,
    RoomError,
>)
    ensures
        ({
            let expected = and_then(
                base_endpoint_of(
                    chosen_endpoint(str_of(endpoint), text_of(env.primary), text_of(env.legacy)),
                ),
                |base: Seq<char>| or_error(with_path_of(base, rooms_path()), RoomError::InvalidUrl),
            );
            match result {
                Ok(url) => expected == Ok::<Seq<char>, RoomError>(url@),
                Err(e) => expected == Err::<Seq<char>, RoomError>(e),
            }
        }),
{
    let base = match base_endpoint_url(endpoint, env) {
        Ok(b) => b,
        Err(e) => {
            return Err(e);
        },
    };
    match with_path(base.as_str(), "/api/rooms") {
        Some(u) => Ok(u),
        None => Err(RoomError::InvalidUrl),
    }
}

} // verus!
