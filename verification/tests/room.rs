use base64::Engine;
use pairlane::endpoint::{
    base_endpoint_url, build_room_url_with_key, build_ws_url, choose_endpoint, create_room_url,
    EndpointEnv,
};
use pairlane::room::{
    b64url_decode, b64url_encode, effective_endpoint, extract_room_id_from_url,
    parse_key_fragment, parse_room_input, parse_room_url, receiver_room_key, RoomError, RoomInput,
};
use pairlane::url_text::{
    fragment, parse_url, path_segments, scheme, with_fragment, with_path, with_query, with_scheme,
};

fn no_env() -> EndpointEnv {
    EndpointEnv { primary: None, legacy: None }
}

fn s(text: &str) -> String {
    text.to_string()
}

#[test]
fn base64url_encodes_without_padding() {
    assert_eq!(b64url_encode(&[]), Some(s("")));
    assert_eq!(b64url_encode(&[0, 0, 0]), Some(s("AAAA")));
    assert_eq!(b64url_encode(&[1, 2, 3]), Some(s("AQID")));
    assert_eq!(b64url_encode(&[0xfb, 0xff]), Some(s("-_8")));
    assert_eq!(b64url_encode(b"hello internet~\n"), Some(s("aGVsbG8gaW50ZXJuZXR-Cg")));
}

#[test]
fn base64url_decodes_what_it_encodes() {
    for len in 0..70usize {
        let bytes: Vec<u8> = (0..len).map(|i| (i * 37 + 200) as u8).collect();
        let text = b64url_encode(&bytes).unwrap();
        assert!(!text.contains('='));
        assert!(!text.contains('+'));
        assert!(!text.contains('/'));
        assert_eq!(b64url_decode(&text), Ok(bytes));
    }
}

#[test]
fn base64url_refuses_other_text() {
    assert_eq!(b64url_decode("AQID"), Ok(vec![1, 2, 3]));
    assert_eq!(b64url_decode("AQID="), Err(RoomError::InvalidKey));
    assert_eq!(b64url_decode("AQ=="), Err(RoomError::InvalidKey));
    assert_eq!(b64url_decode("A"), Err(RoomError::InvalidKey));
    assert_eq!(b64url_decode("+/+/"), Err(RoomError::InvalidKey));
    assert_eq!(b64url_decode("!!!!"), Err(RoomError::InvalidKey));
}

#[test]
fn url_text_parses_and_reads_parts() {
    assert_eq!(parse_url("HTTPS://Example.COM"), Some(s("https://example.com/")));
    assert_eq!(parse_url("not a url"), None);
    assert_eq!(parse_url("room42"), None);
    assert_eq!(scheme("https://example.com/"), Some(s("https")));
    assert_eq!(scheme("nonsense"), None);
    assert_eq!(
        path_segments("https://example.com/r/abc"),
        Some(Some(vec![s("r"), s("abc")]))
    );
    assert_eq!(path_segments("https://example.com"), Some(Some(vec![s("")])));
    assert_eq!(path_segments("mailto:someone@example.com"), Some(None));
    assert_eq!(path_segments("nonsense"), None);
    assert_eq!(fragment("https://example.com/#k=1"), Some(Some(s("k=1"))));
    assert_eq!(fragment("https://example.com/"), Some(None));
    assert_eq!(fragment("nonsense"), None);
}

#[test]
fn url_text_changes_parts() {
    assert_eq!(with_scheme("https://example.com/x", "wss"), Some(s("wss://example.com/x")));
    assert_eq!(with_scheme("https://example.com/x", "foo"), None);
    assert_eq!(with_scheme("https://example.com:8443/", "http"), Some(s("http://example.com:8443/")));
    assert_eq!(with_scheme("https://example.com:80/", "http"), Some(s("http://example.com/")));
    assert_eq!(with_path("https://example.com/x?q#f", ""), Some(s("https://example.com/?q#f")));
    assert_eq!(with_path("https://example.com", "/ws/a b"), Some(s("https://example.com/ws/a%20b")));
    assert_eq!(with_query("https://example.com/x?q#f", None), Some(s("https://example.com/x#f")));
    assert_eq!(with_query("https://example.com/x", Some("cid=1")), Some(s("https://example.com/x?cid=1")));
    assert_eq!(with_fragment("https://example.com/x#f", None), Some(s("https://example.com/x")));
    assert_eq!(with_fragment("https://example.com/x", Some("k=AQ")), Some(s("https://example.com/x#k=AQ")));
    assert_eq!(with_path("nonsense", "/x"), None);
}

#[test]
fn endpoint_choice_prefers_the_given_one() {
    let env = EndpointEnv { primary: Some(s("https://primary.example")), legacy: Some(s("https://legacy.example")) };
    assert_eq!(choose_endpoint(Some("https://given.example"), &env), "https://given.example");
    assert_eq!(choose_endpoint(None, &env), "https://primary.example");
    let env = EndpointEnv { primary: None, legacy: Some(s("https://legacy.example")) };
    assert_eq!(choose_endpoint(None, &env), "https://legacy.example");
    assert_eq!(choose_endpoint(None, &no_env()), "https://getpairlane.com");
}

#[test]
fn base_endpoint_is_the_default_without_any_other() {
    assert_eq!(base_endpoint_url(None, &no_env()), Ok(s("https://getpairlane.com/")));
}

#[test]
fn base_endpoint_drops_path_query_and_fragment() {
    assert_eq!(
        base_endpoint_url(Some("https://example.com:8443/some/path?x=1#frag"), &no_env()),
        Ok(s("https://example.com:8443/"))
    );
}

#[test]
fn base_endpoint_maps_socket_schemes_to_page_schemes() {
    assert_eq!(base_endpoint_url(Some("wss://example.com/ws/x"), &no_env()), Ok(s("https://example.com/")));
    assert_eq!(base_endpoint_url(Some("ws://localhost:8787"), &no_env()), Ok(s("http://localhost:8787/")));
    assert_eq!(base_endpoint_url(Some("http://localhost:8787"), &no_env()), Ok(s("http://localhost:8787/")));
}

#[test]
fn base_endpoint_refuses_other_schemes_and_other_text() {
    assert_eq!(base_endpoint_url(Some("ftp://example.com"), &no_env()), Err(RoomError::UnsupportedScheme));
    assert_eq!(base_endpoint_url(Some("mailto:a@example.com"), &no_env()), Err(RoomError::UnsupportedScheme));
    assert_eq!(base_endpoint_url(Some("example.com"), &no_env()), Err(RoomError::InvalidUrl));
    assert_eq!(base_endpoint_url(Some(""), &no_env()), Err(RoomError::InvalidUrl));
    let env = EndpointEnv { primary: Some(s("")), legacy: None };
    assert_eq!(base_endpoint_url(None, &env), Err(RoomError::InvalidUrl));
}

#[test]
fn base_endpoint_comes_from_the_environment() {
    let env = EndpointEnv { primary: Some(s("http://127.0.0.1:8787/x")), legacy: Some(s("https://legacy.example")) };
    assert_eq!(base_endpoint_url(None, &env), Ok(s("http://127.0.0.1:8787/")));
    let env = EndpointEnv { primary: None, legacy: Some(s("https://legacy.example/y")) };
    assert_eq!(base_endpoint_url(None, &env), Ok(s("https://legacy.example/")));
}

#[test]
fn ws_url_has_room_in_path_and_client_in_query() {
    assert_eq!(
        build_ws_url(Some("https://example.com"), &no_env(), "room1", "client-1"),
        Ok(s("wss://example.com/ws/room1?cid=client-1"))
    );
    assert_eq!(
        build_ws_url(Some("http://localhost:8787/x?y"), &no_env(), "r2", "c"),
        Ok(s("ws://localhost:8787/ws/r2?cid=c"))
    );
    assert_eq!(
        build_ws_url(Some("wss://example.com"), &no_env(), "r2", "c"),
        Ok(s("wss://example.com/ws/r2?cid=c"))
    );
    assert_eq!(
        build_ws_url(Some("ws://example.com"), &no_env(), "r2", "c"),
        Ok(s("ws://example.com/ws/r2?cid=c"))
    );
    assert_eq!(
        build_ws_url(None, &no_env(), "abc", "550e8400-e29b-41d4-a716-446655440000"),
        Ok(s("wss://getpairlane.com/ws/abc?cid=550e8400-e29b-41d4-a716-446655440000"))
    );
    assert_eq!(build_ws_url(Some("ftp://x"), &no_env(), "a", "b"), Err(RoomError::UnsupportedScheme));
}

#[test]
fn room_url_carries_the_key_in_its_fragment() {
    assert_eq!(
        build_room_url_with_key(Some("https://example.com/x?y#z"), &no_env(), "abc", Some(&[1, 2, 3])),
        Ok(s("https://example.com/r/abc#k=AQID"))
    );
    assert_eq!(
        build_room_url_with_key(Some("https://example.com/x?y#z"), &no_env(), "abc", None),
        Ok(s("https://example.com/r/abc"))
    );
    let key = [0xffu8; 32];
    let url = build_room_url_with_key(None, &no_env(), "room", Some(&key)).unwrap();
    assert_eq!(url, format!("https://getpairlane.com/r/room#k={}", "_".repeat(42) + "8"));
}

#[test]
fn room_url_round_trips_through_parsing() {
    let key: Vec<u8> = (0..32u8).collect();
    let url = build_room_url_with_key(Some("http://localhost:8787"), &no_env(), "room-7", Some(&key)).unwrap();
    assert_eq!(
        parse_room_input(&url),
        Ok(RoomInput { room_id: s("room-7"), endpoint: Some(s("http://localhost:8787/")), key: Some(key) })
    );
}

#[test]
fn create_room_url_has_the_rooms_path() {
    assert_eq!(create_room_url(None, &no_env()), Ok(s("https://getpairlane.com/api/rooms")));
    assert_eq!(
        create_room_url(Some("ws://localhost:1234/anything"), &no_env()),
        Ok(s("http://localhost:1234/api/rooms"))
    );
}

#[test]
fn key_fragment_is_read_as_a_form() {
    assert_eq!(parse_key_fragment("k=AQID"), Ok(Some(vec![1, 2, 3])));
    assert_eq!(parse_key_fragment("a=b&k=AQID&k=AAAA"), Ok(Some(vec![1, 2, 3])));
    assert_eq!(parse_key_fragment("a=b"), Ok(None));
    assert_eq!(parse_key_fragment(""), Ok(None));
    assert_eq!(parse_key_fragment("k"), Ok(Some(vec![])));
    assert_eq!(parse_key_fragment("k="), Ok(Some(vec![])));
    assert_eq!(parse_key_fragment("k=%41QID"), Ok(Some(vec![1, 2, 3])));
    assert_eq!(parse_key_fragment("k=A+ID"), Err(RoomError::InvalidKey));
    assert_eq!(parse_key_fragment("k=***"), Err(RoomError::InvalidKey));
    assert_eq!(parse_key_fragment("K=AQID"), Ok(None));
}

#[test]
fn room_id_is_found_in_the_path() {
    assert_eq!(extract_room_id_from_url("https://example.com/r/room42"), Ok(s("room42")));
    assert_eq!(extract_room_id_from_url("https://example.com/r/room42/more"), Ok(s("room42")));
    assert_eq!(extract_room_id_from_url("https://example.com/room42"), Ok(s("room42")));
    assert_eq!(extract_room_id_from_url("https://example.com//r//room42//"), Ok(s("room42")));
    assert_eq!(extract_room_id_from_url("https://example.com/r"), Ok(s("r")));
    assert_eq!(extract_room_id_from_url("https://example.com/r/"), Ok(s("r")));
    assert_eq!(extract_room_id_from_url("https://example.com/"), Err(RoomError::RoomIdNotFound));
    assert_eq!(extract_room_id_from_url("https://example.com"), Err(RoomError::RoomIdNotFound));
    assert_eq!(extract_room_id_from_url("https://example.com/a/b"), Err(RoomError::RoomIdNotFound));
    assert_eq!(extract_room_id_from_url("https://example.com/a/b/c"), Err(RoomError::RoomIdNotFound));
    assert_eq!(extract_room_id_from_url("mailto:a@example.com"), Err(RoomError::RoomIdNotFound));
    assert_eq!(extract_room_id_from_url("nonsense"), Err(RoomError::RoomIdNotFound));
}

#[test]
fn room_url_gives_id_endpoint_and_key() {
    assert_eq!(
        parse_room_url("https://example.com/r/room42#k=AQID"),
        Ok(RoomInput { room_id: s("room42"), endpoint: Some(s("https://example.com/")), key: Some(vec![1, 2, 3]) })
    );
    assert_eq!(
        parse_room_url("https://example.com/r/room42"),
        Ok(RoomInput { room_id: s("room42"), endpoint: Some(s("https://example.com/")), key: None })
    );
    assert_eq!(
        parse_room_url("https://example.com/r/room42#other=1"),
        Ok(RoomInput { room_id: s("room42"), endpoint: Some(s("https://example.com/")), key: None })
    );
    assert_eq!(parse_room_url("https://example.com/r/room42#k=%%%"), Err(RoomError::InvalidKey));
    assert_eq!(parse_room_url("https://example.com/"), Err(RoomError::RoomIdNotFound));
    assert_eq!(parse_room_url("ftp://example.com/room"), Err(RoomError::UnsupportedScheme));
}

#[test]
fn plain_room_input_is_an_identifier_with_an_optional_key() {
    assert_eq!(
        parse_room_input("room42"),
        Ok(RoomInput { room_id: s("room42"), endpoint: None, key: None })
    );
    assert_eq!(
        parse_room_input("  room42\t"),
        Ok(RoomInput { room_id: s("room42"), endpoint: None, key: None })
    );
    assert_eq!(
        parse_room_input("room42#k=AQID"),
        Ok(RoomInput { room_id: s("room42"), endpoint: None, key: Some(vec![1, 2, 3]) })
    );
    assert_eq!(
        parse_room_input(" room42 #x=1&k=AAAA#more"),
        Err(RoomError::InvalidKey)
    );
    assert_eq!(
        parse_room_input("room42#"),
        Ok(RoomInput { room_id: s("room42"), endpoint: None, key: None })
    );
    assert_eq!(parse_room_input(""), Err(RoomError::RoomIdRequired));
    assert_eq!(parse_room_input("   "), Err(RoomError::RoomIdRequired));
    assert_eq!(parse_room_input("#k=AQID"), Err(RoomError::RoomIdRequired));
    assert_eq!(parse_room_input("room42#k=***"), Err(RoomError::InvalidKey));
    assert_eq!(parse_room_input("#k=***"), Err(RoomError::InvalidKey));
}

#[test]
fn url_room_input_is_read_as_a_url() {
    assert_eq!(
        parse_room_input("https://getpairlane.com/r/AbC123#k=AQID"),
        Ok(RoomInput { room_id: s("AbC123"), endpoint: Some(s("https://getpairlane.com/")), key: Some(vec![1, 2, 3]) })
    );
    assert_eq!(
        parse_room_input("wss://example.com:9000/room9?x=1"),
        Ok(RoomInput { room_id: s("room9"), endpoint: Some(s("https://example.com:9000/")), key: None })
    );
    assert_eq!(parse_room_input("https://example.com/"), Err(RoomError::RoomIdNotFound));
}

fn reference_key(fragment: &str) -> Option<Option<Vec<u8>>> {
    for (k, v) in url::form_urlencoded::parse(fragment.as_bytes()) {
        if k == "k" {
            return base64::engine::general_purpose::URL_SAFE_NO_PAD.decode(v.as_bytes()).ok().map(Some);
        }
    }
    Some(None)
}

/// The same reading, written directly against the `url` and `base64` crates.
fn reference_room_input(value: &str) -> Option<(String, Option<String>, Option<Vec<u8>>)> {
    if let Ok(parsed) = url::Url::parse(value) {
        let segments: Vec<&str> = parsed
            .path_segments()
            .map(|it| it.filter(|x| !x.is_empty()).collect())
            .unwrap_or_default();
        let room_id = match segments.as_slice() {
            ["r", id, ..] => id.to_string(),
            [id] => id.to_string(),
            _ => return None,
        };
        let mut base = parsed.clone();
        let scheme = match base.scheme() {
            "https" | "http" => base.scheme().to_string(),
            "wss" => "https".to_string(),
            "ws" => "http".to_string(),
            _ => return None,
        };
        base.set_scheme(&scheme).ok()?;
        base.set_path("");
        base.set_query(None);
        base.set_fragment(None);
        let key = match parsed.fragment() {
            Some(f) => reference_key(f)?,
            None => None,
        };
        return Some((room_id, Some(base.to_string()), key));
    }
    let mut room_id = value;
    let mut key = None;
    if let Some((id, fragment)) = value.split_once('#') {
        room_id = id;
        key = reference_key(fragment)?;
    }
    let room_id = room_id.trim();
    if room_id.is_empty() {
        return None;
    }
    Some((room_id.to_string(), None, key))
}

#[test]
fn room_input_agrees_with_the_reference_on_samples() {
    let samples = [
        "abc", " abc ", "abc#k=AQID", "abc#k=", "abc#k", "abc#kk=AQID&k=AQID", "abc#k=AQ=", "#", "a#b#c",
        "https://example.com/r/abc", "https://example.com/r/abc/", "https://example.com/abc#k=AQID",
        "https://example.com/x/y", "http://localhost:3000/r/z?q=1#k=AAAA", "ws://h/r/1", "wss://h/1",
        "ftp://h/r/1", "abc:def", "c:\\rooms\\x", "https://", "https://user:pw@example.com:444/r/a b#k=_-8",
        "\u{3000}room\u{3000}", "r", "https://example.com/r", "HTTPS://EXAMPLE.COM/R/Room",
    ];
    for sample in samples {
        let expected = reference_room_input(sample);
        let got = parse_room_input(sample)
            .ok()
            .map(|room| (room.room_id, room.endpoint, room.key));
        assert_eq!(got, expected, "for {:?}", sample);
    }
}

#[test]
fn receiver_key_from_the_command_line_overrides_the_room_key() {
    assert_eq!(receiver_room_key(Some(vec![9]), None), Ok(Some(vec![9])));
    assert_eq!(receiver_room_key(None, None), Ok(None));
    assert_eq!(receiver_room_key(Some(vec![9]), Some("AQID")), Ok(Some(vec![1, 2, 3])));
    assert_eq!(receiver_room_key(None, Some("AQID")), Ok(Some(vec![1, 2, 3])));
    assert_eq!(receiver_room_key(Some(vec![9]), Some("%%")), Err(RoomError::InvalidKey));
}

#[test]
fn endpoint_from_the_command_line_overrides_the_room_endpoint() {
    assert_eq!(effective_endpoint(Some(s("a")), Some(s("b"))), Some(s("a")));
    assert_eq!(effective_endpoint(None, Some(s("b"))), Some(s("b")));
    assert_eq!(effective_endpoint(Some(s("a")), None), Some(s("a")));
    assert_eq!(effective_endpoint(None, None), None);
}

#[test]
fn schemes_map_between_pages_and_sockets() {
    assert_eq!(pairlane::endpoint::http_scheme(&s("https")), Some(s("https")));
    assert_eq!(pairlane::endpoint::http_scheme(&s("http")), Some(s("http")));
    assert_eq!(pairlane::endpoint::http_scheme(&s("wss")), Some(s("https")));
    assert_eq!(pairlane::endpoint::http_scheme(&s("ws")), Some(s("http")));
    assert_eq!(pairlane::endpoint::http_scheme(&s("ftp")), None);
    assert_eq!(pairlane::endpoint::http_scheme(&s("HTTPS")), None);
    assert_eq!(pairlane::endpoint::ws_scheme(&s("https")), Some(s("wss")));
    assert_eq!(pairlane::endpoint::ws_scheme(&s("http")), Some(s("ws")));
    assert_eq!(pairlane::endpoint::ws_scheme(&s("wss")), Some(s("wss")));
    assert_eq!(pairlane::endpoint::ws_scheme(&s("ws")), Some(s("ws")));
    assert_eq!(pairlane::endpoint::ws_scheme(&s("")), None);
}

#[test]
fn room_id_among_segments() {
    let seg = |list: &[&str]| list.iter().map(|x| x.to_string()).collect::<Vec<String>>();
    assert_eq!(pairlane::room::room_id_from_segments(&seg(&["r", "abc"])), Some(s("abc")));
    assert_eq!(pairlane::room::room_id_from_segments(&seg(&["r", "abc", "x", "y"])), Some(s("abc")));
    assert_eq!(pairlane::room::room_id_from_segments(&seg(&["", "r", "", "abc", ""])), Some(s("abc")));
    assert_eq!(pairlane::room::room_id_from_segments(&seg(&["abc"])), Some(s("abc")));
    assert_eq!(pairlane::room::room_id_from_segments(&seg(&["r"])), Some(s("r")));
    assert_eq!(pairlane::room::room_id_from_segments(&seg(&["r", "r"])), Some(s("r")));
    assert_eq!(pairlane::room::room_id_from_segments(&seg(&["a", "b"])), None);
    assert_eq!(pairlane::room::room_id_from_segments(&seg(&["R", "b"])), None);
    assert_eq!(pairlane::room::room_id_from_segments(&seg(&[""])), None);
    assert_eq!(pairlane::room::room_id_from_segments(&seg(&[])), None);
}

#[test]
fn key_among_form_fields() {
    let pairs = |list: &[(&str, &str)]| {
        list.iter().map(|(k, v)| (k.to_string(), v.to_string())).collect::<Vec<(String, String)>>()
    };
    assert_eq!(pairlane::room::key_from_pairs(&pairs(&[])), Ok(None));
    assert_eq!(pairlane::room::key_from_pairs(&pairs(&[("a", "b")])), Ok(None));
    assert_eq!(pairlane::room::key_from_pairs(&pairs(&[("a", "b"), ("k", "AQID")])), Ok(Some(vec![1, 2, 3])));
    assert_eq!(
        pairlane::room::key_from_pairs(&pairs(&[("k", "AQID"), ("k", "!!")])),
        Ok(Some(vec![1, 2, 3]))
    );
    assert_eq!(
        pairlane::room::key_from_pairs(&pairs(&[("k", "!!"), ("k", "AQID")])),
        Err(RoomError::InvalidKey)
    );
}

#[test]
fn plain_room_is_read_without_looking_for_a_url() {
    assert_eq!(
        pairlane::room::parse_plain_room("https://example.com/r/x"),
        Ok(RoomInput { room_id: s("https://example.com/r/x"), endpoint: None, key: None })
    );
    assert_eq!(
        pairlane::room::parse_plain_room("\n abc\u{2003}#k=AQID"),
        Ok(RoomInput { room_id: s("abc"), endpoint: None, key: Some(vec![1, 2, 3]) })
    );
    assert_eq!(pairlane::room::parse_plain_room(" # "), Err(RoomError::RoomIdRequired));
}
